use vstd::prelude::*;

use crate::parse_util::byte_len_exceeds;
use crate::text::{
    chars_eq, chars_of, contains_str, digits_end, digits_end_of, find_chars, lemma_find_some,
    parse_uint, spec_contains, spec_find, spec_parse_uint, spec_trim, spec_trim_set,
    spec_trim_start_matches, str_eq, is_ws, occurs_at, trim_end_by, trim_set_str, trim_start_matches_str, trim_str,
};

verus! {

// Bit layout of a hit point value:
//   [8..0], [17..9], [26..18], [35..27]  up to four hit dice (6-bit count, 3-bit face)
//   [46..36]  the flat value added to the dice
//   [53..47]  the kind of special ability (`HP_Options_Type`)
//   [59..54]  the value of that ability
//   bit 62    the creature has a barbarian rage (`Ira`)
//   bit 63    the flat value is negative
// Bits 60 and 61 are unused.

pub const HP_MAX_DICE_COUNT: u64 = 4;

pub const HP_DIE_BITLEN: u64 = 9;

pub const HP_DIE_FACE_BITLEN: u16 = 3;

pub const HP_DIE_COUNT_BITLEN: u64 = 6;

pub const HP_OPTION_VAL_MAX: u64 = 64;

pub const HP_FLAT_OFFSET: u64 = 36;

pub const HP_OPTION_TYPE_OFFSET: u64 = 47;

pub const HP_OPTION_VAL_OFFSET: u64 = 54;

pub const HP_FLAT_NEGATIVE_BIT: u64 = 0x8000000000000000;

pub const HP_IRA_BIT: u64 = 0x4000000000000000;

pub const HP_INVALID: u64 = 0xFFFFFFFFFFFFFFFF;

/// The special abilities a hit point entry may carry, numbered from 0 in
/// this order (`code`).
#[derive(Debug, PartialEq, Eq, Structural, Clone, Copy)]
pub enum HP_Options_Type {
    HP_Invalid,
    HP_Guarigione_Rapida,
    HP_Guarigione_Rapida_Ghiaccio_Neve,
    HP_Guarigione_Rapida_Fuoco,
    HP_Guarigione_Rapida_Magma_Lava,
    HP_Guarigione_Rapida_Aridi,
    HP_Guarigione_Rapida_Acqua_Bollente_Vapore,
    HP_Guarigione_Rapida_Sotto_Acqua,
    HP_Guarigione_Rapida_Acqua_Salata,
    HP_Guarigione_Rapida_Tempesta_Vento,
    HP_Guarigione_Rapida_Umidi_Fangosi,
    HP_Guarigione_Rapida_Polverosi,
    HP_Guarigione_Rapida_Sotto_Terra,
    HP_Guarigione_Rapida_Ombre,
    HP_Guarigione_Rapida_Planare,
    HP_Guarigione_Sangue,
    HP_Rigenerazione,
    HP_Rigenerazione_Fuoco,
    HP_Rigenerazione_Elettricita,
    HP_Rigenerazione_Acido,
    HP_Rigenerazione_Freddo,
    HP_Rigenerazione_Terra,
    HP_Rigenerazione_Aria,
    HP_Rigenerazione_Acido_Mitico,
    HP_Rigenerazione_Acido_Sonoro,
    HP_Rigenerazione_Acido_Fuoco,
    HP_Rigenerazione_Acido_Fuoco_In_Acqua,
    HP_Rigenerazione_Acido_Freddo,
    HP_Rigenerazione_Acido_Freddo_Fuoco,
    HP_Rigenerazione_Contundente_Fuoco,
    HP_Rigenerazione_Terreno_Naturale,
    HP_Rigenerazione_Caos,
    HP_Rigenerazione_Caos_Magia,
    HP_Rigenerazione_Fuoco_Bene,
    HP_Rigenerazione_Bene,
    HP_Rigenerazione_Bene_Argento,
    HP_Rigenerazione_Bene_Ruggine,
    HP_Rigenerazione_Male,
    HP_Rigenerazione_Legale,
    HP_Rigenerazione_Mitico,
    HP_Rigenerazione_Deifico_Mitico,
    HP_Rigenerazione_Epico,
    HP_Rigenerazione_Bene_Epico_Mitico,
    HP_Rigenerazione_Bene_Deifico_Mitico,
    HP_Rigenerazione_Energia_Positiva,
    HP_Rigenerazione_Energia_Positiva_Ispirazione,
    HP_Rigenerazione_Energia_Negativa,
    HP_Rigenerazione_Freddo_Male,
    HP_Rigenerazione_Ferro_Freddo,
    HP_Rigenerazione_Adamantio,
    HP_Rigenerazione_No_Armi,
    HP_Rigenerazione_Armi_Maledette,
    HP_Rigenerazione_Armi_Epiche,
    HP_Rigenerazione_Pietrificazione,
    HP_Rigenerazione_Statuetta,
    HP_Rigenerazione_Artefatti_Malvagi,
    HP_Rigenerazione_Speciale,
    HP_Regen_Pazuzu,
    HP_Rigenerazione_Cera_Fuoco,
    HP_Rigenerazione_Pluviale_Acido_Fuoco,
    HP_Rigenerazione_Profana_Bene_Elettricita,
    HP_Ripararsi_Con_Rifiuti,
    HP_Terribile_Ringiovanimento,
    HP_Campo_Forza,
    HP_Vita_Falsata,
    HP_Raccolto_Dolore,
    HP_Divorare_Anima,
    HP_Estorsione,
    HP_Gioia_Sostenente,
}

impl HP_Options_Type {
    /// The number of this ability.
    pub open spec fn spec_code(self) -> u64 {
        match self {
            HP_Options_Type::HP_Invalid => 0,
            HP_Options_Type::HP_Guarigione_Rapida => 1,
            HP_Options_Type::HP_Guarigione_Rapida_Ghiaccio_Neve => 2,
            HP_Options_Type::HP_Guarigione_Rapida_Fuoco => 3,
            HP_Options_Type::HP_Guarigione_Rapida_Magma_Lava => 4,
            HP_Options_Type::HP_Guarigione_Rapida_Aridi => 5,
            HP_Options_Type::HP_Guarigione_Rapida_Acqua_Bollente_Vapore => 6,
            HP_Options_Type::HP_Guarigione_Rapida_Sotto_Acqua => 7,
            HP_Options_Type::HP_Guarigione_Rapida_Acqua_Salata => 8,
            HP_Options_Type::HP_Guarigione_Rapida_Tempesta_Vento => 9,
            HP_Options_Type::HP_Guarigione_Rapida_Umidi_Fangosi => 10,
            HP_Options_Type::HP_Guarigione_Rapida_Polverosi => 11,
            HP_Options_Type::HP_Guarigione_Rapida_Sotto_Terra => 12,
            HP_Options_Type::HP_Guarigione_Rapida_Ombre => 13,
            HP_Options_Type::HP_Guarigione_Rapida_Planare => 14,
            HP_Options_Type::HP_Guarigione_Sangue => 15,
            HP_Options_Type::HP_Rigenerazione => 16,
            HP_Options_Type::HP_Rigenerazione_Fuoco => 17,
            HP_Options_Type::HP_Rigenerazione_Elettricita => 18,
            HP_Options_Type::HP_Rigenerazione_Acido => 19,
            HP_Options_Type::HP_Rigenerazione_Freddo => 20,
            HP_Options_Type::HP_Rigenerazione_Terra => 21,
            HP_Options_Type::HP_Rigenerazione_Aria => 22,
            HP_Options_Type::HP_Rigenerazione_Acido_Mitico => 23,
            HP_Options_Type::HP_Rigenerazione_Acido_Sonoro => 24,
            HP_Options_Type::HP_Rigenerazione_Acido_Fuoco => 25,
            HP_Options_Type::HP_Rigenerazione_Acido_Fuoco_In_Acqua => 26,
            HP_Options_Type::HP_Rigenerazione_Acido_Freddo => 27,
            HP_Options_Type::HP_Rigenerazione_Acido_Freddo_Fuoco => 28,
            HP_Options_Type::HP_Rigenerazione_Contundente_Fuoco => 29,
            HP_Options_Type::HP_Rigenerazione_Terreno_Naturale => 30,
            HP_Options_Type::HP_Rigenerazione_Caos => 31,
            HP_Options_Type::HP_Rigenerazione_Caos_Magia => 32,
            HP_Options_Type::HP_Rigenerazione_Fuoco_Bene => 33,
            HP_Options_Type::HP_Rigenerazione_Bene => 34,
            HP_Options_Type::HP_Rigenerazione_Bene_Argento => 35,
            HP_Options_Type::HP_Rigenerazione_Bene_Ruggine => 36,
            HP_Options_Type::HP_Rigenerazione_Male => 37,
            HP_Options_Type::HP_Rigenerazione_Legale => 38,
            HP_Options_Type::HP_Rigenerazione_Mitico => 39,
            HP_Options_Type::HP_Rigenerazione_Deifico_Mitico => 40,
            HP_Options_Type::HP_Rigenerazione_Epico => 41,
            HP_Options_Type::HP_Rigenerazione_Bene_Epico_Mitico => 42,
            HP_Options_Type::HP_Rigenerazione_Bene_Deifico_Mitico => 43,
            HP_Options_Type::HP_Rigenerazione_Energia_Positiva => 44,
            HP_Options_Type::HP_Rigenerazione_Energia_Positiva_Ispirazione => 45,
            HP_Options_Type::HP_Rigenerazione_Energia_Negativa => 46,
            HP_Options_Type::HP_Rigenerazione_Freddo_Male => 47,
            HP_Options_Type::HP_Rigenerazione_Ferro_Freddo => 48,
            HP_Options_Type::HP_Rigenerazione_Adamantio => 49,
            HP_Options_Type::HP_Rigenerazione_No_Armi => 50,
            HP_Options_Type::HP_Rigenerazione_Armi_Maledette => 51,
            HP_Options_Type::HP_Rigenerazione_Armi_Epiche => 52,
            HP_Options_Type::HP_Rigenerazione_Pietrificazione => 53,
            HP_Options_Type::HP_Rigenerazione_Statuetta => 54,
            HP_Options_Type::HP_Rigenerazione_Artefatti_Malvagi => 55,
            HP_Options_Type::HP_Rigenerazione_Speciale => 56,
            HP_Options_Type::HP_Regen_Pazuzu => 57,
            HP_Options_Type::HP_Rigenerazione_Cera_Fuoco => 58,
            HP_Options_Type::HP_Rigenerazione_Pluviale_Acido_Fuoco => 59,
            HP_Options_Type::HP_Rigenerazione_Profana_Bene_Elettricita => 60,
            HP_Options_Type::HP_Ripararsi_Con_Rifiuti => 61,
            HP_Options_Type::HP_Terribile_Ringiovanimento => 62,
            HP_Options_Type::HP_Campo_Forza => 63,
            HP_Options_Type::HP_Vita_Falsata => 64,
            HP_Options_Type::HP_Raccolto_Dolore => 65,
            HP_Options_Type::HP_Divorare_Anima => 66,
            HP_Options_Type::HP_Estorsione => 67,
            HP_Options_Type::HP_Gioia_Sostenente => 68,
        }
    }

    /// The number of this ability.
    pub fn code(&self) -> (r: u64)
        ensures
            r == self.spec_code(),
    {
        match self {
            HP_Options_Type::HP_Invalid => 0,
            HP_Options_Type::HP_Guarigione_Rapida => 1,
            HP_Options_Type::HP_Guarigione_Rapida_Ghiaccio_Neve => 2,
            HP_Options_Type::HP_Guarigione_Rapida_Fuoco => 3,
            HP_Options_Type::HP_Guarigione_Rapida_Magma_Lava => 4,
            HP_Options_Type::HP_Guarigione_Rapida_Aridi => 5,
            HP_Options_Type::HP_Guarigione_Rapida_Acqua_Bollente_Vapore => 6,
            HP_Options_Type::HP_Guarigione_Rapida_Sotto_Acqua => 7,
            HP_Options_Type::HP_Guarigione_Rapida_Acqua_Salata => 8,
            HP_Options_Type::HP_Guarigione_Rapida_Tempesta_Vento => 9,
            HP_Options_Type::HP_Guarigione_Rapida_Umidi_Fangosi => 10,
            HP_Options_Type::HP_Guarigione_Rapida_Polverosi => 11,
            HP_Options_Type::HP_Guarigione_Rapida_Sotto_Terra => 12,
            HP_Options_Type::HP_Guarigione_Rapida_Ombre => 13,
            HP_Options_Type::HP_Guarigione_Rapida_Planare => 14,
            HP_Options_Type::HP_Guarigione_Sangue => 15,
            HP_Options_Type::HP_Rigenerazione => 16,
            HP_Options_Type::HP_Rigenerazione_Fuoco => 17,
            HP_Options_Type::HP_Rigenerazione_Elettricita => 18,
            HP_Options_Type::HP_Rigenerazione_Acido => 19,
            HP_Options_Type::HP_Rigenerazione_Freddo => 20,
            HP_Options_Type::HP_Rigenerazione_Terra => 21,
            HP_Options_Type::HP_Rigenerazione_Aria => 22,
            HP_Options_Type::HP_Rigenerazione_Acido_Mitico => 23,
            HP_Options_Type::HP_Rigenerazione_Acido_Sonoro => 24,
            HP_Options_Type::HP_Rigenerazione_Acido_Fuoco => 25,
            HP_Options_Type::HP_Rigenerazione_Acido_Fuoco_In_Acqua => 26,
            HP_Options_Type::HP_Rigenerazione_Acido_Freddo => 27,
            HP_Options_Type::HP_Rigenerazione_Acido_Freddo_Fuoco => 28,
            HP_Options_Type::HP_Rigenerazione_Contundente_Fuoco => 29,
            HP_Options_Type::HP_Rigenerazione_Terreno_Naturale => 30,
            HP_Options_Type::HP_Rigenerazione_Caos => 31,
            HP_Options_Type::HP_Rigenerazione_Caos_Magia => 32,
            HP_Options_Type::HP_Rigenerazione_Fuoco_Bene => 33,
            HP_Options_Type::HP_Rigenerazione_Bene => 34,
            HP_Options_Type::HP_Rigenerazione_Bene_Argento => 35,
            HP_Options_Type::HP_Rigenerazione_Bene_Ruggine => 36,
            HP_Options_Type::HP_Rigenerazione_Male => 37,
            HP_Options_Type::HP_Rigenerazione_Legale => 38,
            HP_Options_Type::HP_Rigenerazione_Mitico => 39,
            HP_Options_Type::HP_Rigenerazione_Deifico_Mitico => 40,
            HP_Options_Type::HP_Rigenerazione_Epico => 41,
            HP_Options_Type::HP_Rigenerazione_Bene_Epico_Mitico => 42,
            HP_Options_Type::HP_Rigenerazione_Bene_Deifico_Mitico => 43,
            HP_Options_Type::HP_Rigenerazione_Energia_Positiva => 44,
            HP_Options_Type::HP_Rigenerazione_Energia_Positiva_Ispirazione => 45,
            HP_Options_Type::HP_Rigenerazione_Energia_Negativa => 46,
            HP_Options_Type::HP_Rigenerazione_Freddo_Male => 47,
            HP_Options_Type::HP_Rigenerazione_Ferro_Freddo => 48,
            HP_Options_Type::HP_Rigenerazione_Adamantio => 49,
            HP_Options_Type::HP_Rigenerazione_No_Armi => 50,
            HP_Options_Type::HP_Rigenerazione_Armi_Maledette => 51,
            HP_Options_Type::HP_Rigenerazione_Armi_Epiche => 52,
            HP_Options_Type::HP_Rigenerazione_Pietrificazione => 53,
            HP_Options_Type::HP_Rigenerazione_Statuetta => 54,
            HP_Options_Type::HP_Rigenerazione_Artefatti_Malvagi => 55,
            HP_Options_Type::HP_Rigenerazione_Speciale => 56,
            HP_Options_Type::HP_Regen_Pazuzu => 57,
            HP_Options_Type::HP_Rigenerazione_Cera_Fuoco => 58,
            HP_Options_Type::HP_Rigenerazione_Pluviale_Acido_Fuoco => 59,
            HP_Options_Type::HP_Rigenerazione_Profana_Bene_Elettricita => 60,
            HP_Options_Type::HP_Ripararsi_Con_Rifiuti => 61,
            HP_Options_Type::HP_Terribile_Ringiovanimento => 62,
            HP_Options_Type::HP_Campo_Forza => 63,
            HP_Options_Type::HP_Vita_Falsata => 64,
            HP_Options_Type::HP_Raccolto_Dolore => 65,
            HP_Options_Type::HP_Divorare_Anima => 66,
            HP_Options_Type::HP_Estorsione => 67,
            HP_Options_Type::HP_Gioia_Sostenente => 68,
        }
    }
}

/// One term of a hit point formula.
#[derive(Debug, PartialEq, Eq, Structural, Clone, Copy)]
pub enum HpExpr {
    Hp_Error,
    /// A hit die: count in bits 3 to 8, face in bits 0 to 2.
    Hp_Die(u64),
    /// A flat value.
    Hp_Flat(u64),
    /// A flat value and the value of a `Vita Falsata`.
    Hp_Flat_False(u64, u64),
}

/// The number that stands for a die face: 1 for d4 up to 5 for d12.
pub open spec fn hp_face_index(face: nat) -> Option<u16> {
    if face == 4 {
        Some(1u16)
    } else if face == 6 {
        Some(2u16)
    } else if face == 8 {
        Some(3u16)
    } else if face == 10 {
        Some(4u16)
    } else if face == 12 {
        Some(5u16)
    } else {
        None
    }
}

/// The 9-bit code of `count` dice with face number `face`.
pub open spec fn hp_die_code(count: u16, face: u16) -> u64 {
    (((count & 0x3F) << HP_DIE_FACE_BITLEN) | (face & 0x0007)) as u64
}

/// A term such as `3d8`, `12`, or `5 più 10 Vita Falsata`; `None` for a term
/// with an unknown die face or a number that does not parse, or a flat value
/// of 1024 or more.
pub open spec fn spec_map_hp_expr(s: Seq<char>) -> Option<HpExpr> {
    match spec_find(s, "d"@) {
        Some(i) => match (
            spec_parse_uint(s.subrange(0, i), 0xFFFF),
            spec_parse_uint(s.subrange(i + 1, s.len() as int), 0xFFFF),
        ) {
            (Some(count), Some(face)) => match hp_face_index(face) {
                Some(fi) => Some(HpExpr::Hp_Die(hp_die_code(count as u16, fi))),
                None => None,
            },
            _ => None,
        },
        None => match spec_find(s, "Vita Falsata"@) {
            Some(v) => match spec_find(s, "più"@) {
                Some(p) => if p + 3 > v {
                    None
                } else {
                    match (
                        spec_parse_uint(spec_trim(s.subrange(0, p)), 0xFFFF),
                        spec_parse_uint(spec_trim(s.subrange(p + 3, v)), 0xFFFF),
                    ) {
                        (Some(flat), Some(opt)) => if flat < 1024 {
                            Some(HpExpr::Hp_Flat_False(flat as u64, opt as u64))
                        } else {
                            None
                        },
                        _ => None,
                    }
                },
                None => None,
            },
            None => match spec_parse_uint(spec_trim(s), 0xFFFF) {
                Some(flat) => if flat < 1024 {
                    Some(HpExpr::Hp_Flat(flat as u64))
                } else {
                    None
                },
                None => None,
            },
        },
    }
}

fn face_index(face: u64) -> (r: Option<u16>)
    ensures
        r == hp_face_index(face as nat),
{
    if face == 4 {
        Some(1u16)
    } else if face == 6 {
        Some(2u16)
    } else if face == 8 {
        Some(3u16)
    } else if face == 10 {
        Some(4u16)
    } else if face == 12 {
        Some(5u16)
    } else {
        None
    }
}

/// Map one term of a hit point formula (see `spec_map_hp_expr`).
pub fn map_hp_expr(field: &str, page_name: &str) -> (r: Option<HpExpr>)
    ensures
        r == spec_map_hp_expr(field@),
{
    let v = chars_of(field);
    let n = v.len();
    let d = vec!['d'];
    proof {
        reveal_strlit("d");
        assert(d@ =~= "d"@);
    }
    if let Some(i) = find_chars(v.as_slice(), d.as_slice()) {
        proof {
            lemma_find_some(v@, d@, i as int);
        }
        let count = parse_uint(field.substring_char(0, i), 0xFFFF);
        let face = parse_uint(field.substring_char(i + 1, n), 0xFFFF);
        match (count, face) {
            (Some(c), Some(f)) => {
                match face_index(f) {
                    Some(fi) => {
                        let c16 = c as u16;
                        let hd: u16 = ((c16 & 0x3F) << HP_DIE_FACE_BITLEN) | (fi & 0x0007);
                        return Some(HpExpr::Hp_Die(hd as u64));
                    },
                    None => {
                        return None;
                    },
                }
            },
            _ => {
                return None;
            },
        }
    }
    let vf = chars_of("Vita Falsata");
    if let Some(vi) = find_chars(v.as_slice(), vf.as_slice()) {
        let piu = chars_of("più");
        proof {
            reveal_strlit("più");
        }
        match find_chars(v.as_slice(), piu.as_slice()) {
            Some(p) => {
                proof {
                    lemma_find_some(v@, vf@, vi as int);
                    lemma_find_some(v@, piu@, p as int);
                }
                if p + 3 > vi {
                    return None;
                }
                let flat = parse_uint(trim_str(field.substring_char(0, p)), 0xFFFF);
                let opt = parse_uint(trim_str(field.substring_char(p + 3, vi)), 0xFFFF);
                match (flat, opt) {
                    (Some(f), Some(o)) => {
                        if f < 1024 {
                            return Some(HpExpr::Hp_Flat_False(f, o));
                        }
                        return None;
                    },
                    _ => {
                        return None;
                    },
                }
            },
            None => {
                return None;
            },
        }
    }
    match parse_uint(trim_str(field), 0xFFFF) {
        Some(f) => {
            if f < 1024 {
                Some(HpExpr::Hp_Flat(f))
            } else {
                None
            }
        },
        None => None,
    }
}

/// What reading a hit point formula has gathered so far.
#[derive(Debug, Clone, Copy)]
pub struct HpState {
    /// The dice codes placed so far, and the rage bit.
    pub bits: u64,
    pub dice_count: u64,
    pub total_flat: i64,
    pub vita_falsata: bool,
    pub vita_falsata_val: u64,
    /// The sign before the next term is `-` or `–`.
    pub next_minus: bool,
}

/// An operator between two terms of a formula.
pub open spec fn hp_is_op(c: char) -> bool {
    c == '+' || c == '-' || c == '\u{2013}'
}

/// The terms of the formula in `s` read from position `k`, the current term
/// beginning at `start`: each term with the character that ends it, up to
/// the first `)`; and what follows that `)` (empty when there is none).
pub open spec fn hp_terms_from(s: Seq<char>, start: int, k: int) -> (Seq<(Seq<char>, char)>, Seq<char>)
    decreases s.len() - k,
{
    if k < 0 || k >= s.len() {
        (Seq::empty(), Seq::empty())
    } else if s[k] == ')' {
        (seq![(s.subrange(start, k), ')')], s.subrange(k + 1, s.len() as int))
    } else if hp_is_op(s[k]) {
        let (t, r) = hp_terms_from(s, k + 1, k + 1);
        (seq![(s.subrange(start, k), s[k])] + t, r)
    } else {
        hp_terms_from(s, start, k + 1)
    }
}

/// The state after one term ended by `delim`: a die takes the next slot, a
/// flat value is added, or subtracted when the sign before it (not `delim`,
/// which is the sign of the next term) is `-` or `–`; `None` for a term that
/// does not map, a fifth die, or a total outside `i64`.
pub open spec fn hp_step(st: HpState, seg: Seq<char>, delim: char) -> Option<HpState> {
    let minus = st.next_minus;
    let next_minus = delim == '-' || delim == '\u{2013}';
    match spec_map_hp_expr(spec_trim(seg)) {
        Some(HpExpr::Hp_Die(d)) => if st.dice_count >= HP_MAX_DICE_COUNT {
            None
        } else {
            Some(
                HpState {
                    bits: st.bits | (d << ((HP_DIE_BITLEN * st.dice_count) as u64)),
                    dice_count: (st.dice_count + 1) as u64,
                    next_minus,
                    ..st
                },
            )
        },
        Some(HpExpr::Hp_Flat(v)) => {
            let t = if minus {
                st.total_flat - v
            } else {
                st.total_flat + v
            };
            if i64::MIN <= t <= i64::MAX {
                Some(HpState { total_flat: t as i64, next_minus, ..st })
            } else {
                None
            }
        },
        Some(HpExpr::Hp_Flat_False(f, o)) => {
            let t = if minus {
                st.total_flat - f
            } else {
                st.total_flat + f
            };
            if i64::MIN <= t <= i64::MAX {
                Some(
                    HpState {
                        total_flat: t as i64,
                        vita_falsata: true,
                        vita_falsata_val: o,
                        next_minus,
                        ..st
                    },
                )
            } else {
                None
            }
        },
        _ => None,
    }
}

/// The state after all of `terms`.
pub open spec fn hp_fold(terms: Seq<(Seq<char>, char)>, st: HpState) -> Option<HpState>
    decreases terms.len(),
{
    if terms.len() == 0 {
        Some(st)
    } else {
        match hp_step(st, terms[0].0, terms[0].1) {
            Some(next) => hp_fold(terms.drop_first(), next),
            None => None,
        }
    }
}

fn apply_hp_term(st: HpState, seg: &str, delim: char, page_name: &str) -> (r: Option<HpState>)
    ensures
        r == hp_step(st, seg@, delim),
{
    let minus = st.next_minus;
    let next_minus = delim == '-' || delim == '\u{2013}';
    match map_hp_expr(trim_str(seg), page_name) {
        Some(HpExpr::Hp_Die(d)) => {
            if st.dice_count >= HP_MAX_DICE_COUNT {
                return None;
            }
            Some(
                HpState {
                    bits: st.bits | (d << (HP_DIE_BITLEN * st.dice_count)),
                    dice_count: st.dice_count + 1,
                    next_minus,
                    ..st
                },
            )
        },
        Some(HpExpr::Hp_Flat(v)) => {
            let t = if minus {
                st.total_flat.checked_sub(v as i64)
            } else {
                st.total_flat.checked_add(v as i64)
            };
            match t {
                Some(t) => Some(HpState { total_flat: t, next_minus, ..st }),
                None => None,
            }
        },
        Some(HpExpr::Hp_Flat_False(f, o)) => {
            let t = if minus {
                st.total_flat.checked_sub(f as i64)
            } else {
                st.total_flat.checked_add(f as i64)
            };
            match t {
                Some(t) => Some(
                    HpState { total_flat: t, vita_falsata: true, vita_falsata_val: o, next_minus, ..st },
                ),
                None => None,
            }
        },
        _ => None,
    }
}

/// Read the formula at the start of `formula`: the state after its terms and
/// what follows its closing `)`.
fn scan_hp_formula<'a>(formula: &'a str, init: HpState, page_name: &str) -> (r: Option<(HpState, &'a str)>)
    ensures
        match hp_fold(hp_terms_from(formula@, 0, 0).0, init) {
            Some(st) => r matches Some(p) && p.0 == st && p.1@ == hp_terms_from(formula@, 0, 0).1,
            None => r is None,
        },
{
    let v = chars_of(formula);
    let n = v.len();
    let ghost all = hp_terms_from(v@, 0, 0);
    let mut st = init;
    let mut start: usize = 0;
    let mut k: usize = 0;
    while k < n
        invariant
            n == v@.len(),
            v@ == formula@,
            all == hp_terms_from(formula@, 0, 0),
            start <= k <= n,
            hp_fold(hp_terms_from(v@, start as int, k as int).0, st) == hp_fold(all.0, init),
            hp_terms_from(v@, start as int, k as int).1 == all.1,
        decreases n - k,
    {
        let c = v[k];
        let ghost cur = hp_terms_from(v@, start as int, k as int);
        if c == ')' || c == '+' || c == '-' || c == '\u{2013}' {
            let seg = formula.substring_char(start, k);
            let next = apply_hp_term(st, seg, c, page_name);
            proof {
                let t = seq![(v@.subrange(start as int, k as int), c)];
                if c == ')' {
                    assert(cur.0 == t);
                    assert(t.drop_first() =~= Seq::<(Seq<char>, char)>::empty());
                } else {
                    let tail = hp_terms_from(v@, k + 1, k + 1);
                    assert(cur.0 == t + tail.0);
                    assert((t + tail.0).drop_first() =~= tail.0);
                    assert((t + tail.0)[0] == (v@.subrange(start as int, k as int), c));
                }
            }
            match next {
                None => {
                    return None;
                },
                Some(s2) => {
                    st = s2;
                },
            }
            if c == ')' {
                assert(hp_fold(Seq::<(Seq<char>, char)>::empty(), st) == Some(st));
                return Some((st, formula.substring_char(k + 1, n)));
            }
            start = k + 1;
        }
        k = k + 1;
    }
    let e = formula.substring_char(n, n);
    assert(e@ =~= Seq::<char>::empty());
    Some((st, e))
}
/// The code of the kind of a `Guarigione Rapida` from the text after its value; the plain kind
/// when that text is shorter than three bytes, `None` for an unknown text.
pub open spec fn hp_rapid_kind(s: Seq<char>) -> Option<u64> {
    if s == "(solo se a contatto di ghiaccio e neve)"@ {
        Some(HP_Options_Type::HP_Guarigione_Rapida_Ghiaccio_Neve.spec_code())
    } else if s == "(Funziona solo in zone coperte dal ghiaccio)"@ {
        Some(HP_Options_Type::HP_Guarigione_Rapida_Ghiaccio_Neve.spec_code())
    } else if s == "(nel fuoco)"@ {
        Some(HP_Options_Type::HP_Guarigione_Rapida_Fuoco.spec_code())
    } else if s == "(Funziona solo a contatto col fuoco)"@ {
        Some(HP_Options_Type::HP_Guarigione_Rapida_Fuoco.spec_code())
    } else if s == "(Funziona solo a contatto con magma o lava)"@ {
        Some(HP_Options_Type::HP_Guarigione_Rapida_Magma_Lava.spec_code())
    } else if s == "(Funziona solo in ambienti aridi)"@ {
        Some(HP_Options_Type::HP_Guarigione_Rapida_Aridi.spec_code())
    } else if s == "(Funziona solo nell'acqua bollente o nel vapore)"@ {
        Some(HP_Options_Type::HP_Guarigione_Rapida_Acqua_Bollente_Vapore.spec_code())
    } else if s == "(Funziona solo sott'acqua)"@ {
        Some(HP_Options_Type::HP_Guarigione_Rapida_Sotto_Acqua.spec_code())
    } else if s == "(solo in acqua salata)"@ {
        Some(HP_Options_Type::HP_Guarigione_Rapida_Acqua_Salata.spec_code())
    } else if s == "(Funziona solo in zone tempestose e ventose)"@ {
        Some(HP_Options_Type::HP_Guarigione_Rapida_Tempesta_Vento.spec_code())
    } else if s == "(Funziona solo in ambienti umidi e fangosi)"@ {
        Some(HP_Options_Type::HP_Guarigione_Rapida_Umidi_Fangosi.spec_code())
    } else if s == "(Funziona solo in ambienti polverosi)"@ {
        Some(HP_Options_Type::HP_Guarigione_Rapida_Polverosi.spec_code())
    } else if s == "(Funziona solo sottoterra)"@ {
        Some(HP_Options_Type::HP_Guarigione_Rapida_Sotto_Terra.spec_code())
    } else if s == "(solo fra le ombre)"@ {
        Some(HP_Options_Type::HP_Guarigione_Rapida_Ombre.spec_code())
    } else if s == "(vedi sotto)"@ {
        Some(HP_Options_Type::HP_Guarigione_Rapida.spec_code())
    } else if s == "(vedi Forma Vivente)"@ {
        Some(HP_Options_Type::HP_Guarigione_Rapida.spec_code())
    } else if s == "(vedi Raccolto di Dolore)"@ {
        Some(HP_Options_Type::HP_Raccolto_Dolore.spec_code())
    } else if s == "(vedi Divorare Anima)"@ {
        Some(HP_Options_Type::HP_Divorare_Anima.spec_code())
    } else if s == "(vedi Estorsione)"@ {
        Some(HP_Options_Type::HP_Estorsione.spec_code())
    } else {
        if vstd::utf8::encode_utf8(s).len() < 3 {
        Some(HP_Options_Type::HP_Guarigione_Rapida.spec_code())
    } else {
        None
    }
    }
}

fn rapid_kind(kind: &str) -> (r: Option<u64>)
    ensures
        r == hp_rapid_kind(kind@),
{
    let f = chars_of(kind);
    if chars_eq(f.as_slice(), "(solo se a contatto di ghiaccio e neve)") {
        return Some(HP_Options_Type::HP_Guarigione_Rapida_Ghiaccio_Neve.code());
    }
    if chars_eq(f.as_slice(), "(Funziona solo in zone coperte dal ghiaccio)") {
        return Some(HP_Options_Type::HP_Guarigione_Rapida_Ghiaccio_Neve.code());
    }
    if chars_eq(f.as_slice(), "(nel fuoco)") {
        return Some(HP_Options_Type::HP_Guarigione_Rapida_Fuoco.code());
    }
    if chars_eq(f.as_slice(), "(Funziona solo a contatto col fuoco)") {
        return Some(HP_Options_Type::HP_Guarigione_Rapida_Fuoco.code());
    }
    if chars_eq(f.as_slice(), "(Funziona solo a contatto con magma o lava)") {
        return Some(HP_Options_Type::HP_Guarigione_Rapida_Magma_Lava.code());
    }
    if chars_eq(f.as_slice(), "(Funziona solo in ambienti aridi)") {
        return Some(HP_Options_Type::HP_Guarigione_Rapida_Aridi.code());
    }
    if chars_eq(f.as_slice(), "(Funziona solo nell'acqua bollente o nel vapore)") {
        return Some(HP_Options_Type::HP_Guarigione_Rapida_Acqua_Bollente_Vapore.code());
    }
    if chars_eq(f.as_slice(), "(Funziona solo sott'acqua)") {
        return Some(HP_Options_Type::HP_Guarigione_Rapida_Sotto_Acqua.code());
    }
    if chars_eq(f.as_slice(), "(solo in acqua salata)") {
        return Some(HP_Options_Type::HP_Guarigione_Rapida_Acqua_Salata.code());
    }
    if chars_eq(f.as_slice(), "(Funziona solo in zone tempestose e ventose)") {
        return Some(HP_Options_Type::HP_Guarigione_Rapida_Tempesta_Vento.code());
    }
    if chars_eq(f.as_slice(), "(Funziona solo in ambienti umidi e fangosi)") {
        return Some(HP_Options_Type::HP_Guarigione_Rapida_Umidi_Fangosi.code());
    }
    if chars_eq(f.as_slice(), "(Funziona solo in ambienti polverosi)") {
        return Some(HP_Options_Type::HP_Guarigione_Rapida_Polverosi.code());
    }
    if chars_eq(f.as_slice(), "(Funziona solo sottoterra)") {
        return Some(HP_Options_Type::HP_Guarigione_Rapida_Sotto_Terra.code());
    }
    if chars_eq(f.as_slice(), "(solo fra le ombre)") {
        return Some(HP_Options_Type::HP_Guarigione_Rapida_Ombre.code());
    }
    if chars_eq(f.as_slice(), "(vedi sotto)") {
        return Some(HP_Options_Type::HP_Guarigione_Rapida.code());
    }
    if chars_eq(f.as_slice(), "(vedi Forma Vivente)") {
        return Some(HP_Options_Type::HP_Guarigione_Rapida.code());
    }
    if chars_eq(f.as_slice(), "(vedi Raccolto di Dolore)") {
        return Some(HP_Options_Type::HP_Raccolto_Dolore.code());
    }
    if chars_eq(f.as_slice(), "(vedi Divorare Anima)") {
        return Some(HP_Options_Type::HP_Divorare_Anima.code());
    }
    if chars_eq(f.as_slice(), "(vedi Estorsione)") {
        return Some(HP_Options_Type::HP_Estorsione.code());
    }
    if !byte_len_exceeds(f.as_slice(), 2) {
        Some(HP_Options_Type::HP_Guarigione_Rapida.code())
    } else {
        None
    }
}

/// The code of the kind of a `Rigenerazione` from the text after its value; the plain kind
/// when that text is shorter than three bytes, `None` for an unknown text.
pub open spec fn hp_regen_kind(s: Seq<char>) -> Option<u64> {
    if s == "(fuoco)"@ {
        Some(HP_Options_Type::HP_Rigenerazione_Fuoco.spec_code())
    } else if s == "(fuoco, vedi Vigore Primordiale)"@ {
        Some(HP_Options_Type::HP_Rigenerazione_Fuoco.spec_code())
    } else if s == "(elettricità)"@ {
        Some(HP_Options_Type::HP_Rigenerazione_Elettricita.spec_code())
    } else if s == "(elettricità, vedi sotto)"@ {
        Some(HP_Options_Type::HP_Rigenerazione_Elettricita.spec_code())
    } else if s == "(su terreno naturale)"@ {
        Some(HP_Options_Type::HP_Rigenerazione_Terreno_Naturale.spec_code())
    } else if s == "(caotico)"@ {
        Some(HP_Options_Type::HP_Rigenerazione_Caos.spec_code())
    } else if s == "(effetti e incantesimi caotici)"@ {
        Some(HP_Options_Type::HP_Rigenerazione_Caos.spec_code())
    } else if s == "(caos o magia)"@ {
        Some(HP_Options_Type::HP_Rigenerazione_Caos_Magia.spec_code())
    } else if s == "(bene)"@ {
        Some(HP_Options_Type::HP_Rigenerazione_Bene.spec_code())
    } else if s == "(armi e incantesimi buoni)"@ {
        Some(HP_Options_Type::HP_Rigenerazione_Bene.spec_code())
    } else if s == "(incantesimi buoni, armi buone)"@ {
        Some(HP_Options_Type::HP_Rigenerazione_Bene.spec_code())
    } else if s == "(armi e incantesimi allineati con il bene)"@ {
        Some(HP_Options_Type::HP_Rigenerazione_Bene.spec_code())
    } else if s == "(incantesimi ed armi con descrittore bene)"@ {
        Some(HP_Options_Type::HP_Rigenerazione_Bene.spec_code())
    } else if s == "(armi e incantesimi con il descrittore bene)"@ {
        Some(HP_Options_Type::HP_Rigenerazione_Bene.spec_code())
    } else if s == "(armi ed incantesimi con descrittore bene)"@ {
        Some(HP_Options_Type::HP_Rigenerazione_Bene.spec_code())
    } else if s == "(artefatti, effetti e incantesimi buoni)"@ {
        Some(HP_Options_Type::HP_Rigenerazione_Bene.spec_code())
    } else if s == "(armi o incantesimi con descrittore bene, armi d'argento)"@ {
        Some(HP_Options_Type::HP_Rigenerazione_Bene_Argento.spec_code())
    } else if s == "(armi e incantesimi con descrittore bene, armi d'argento)"@ {
        Some(HP_Options_Type::HP_Rigenerazione_Bene_Argento.spec_code())
    } else if s == "(armi ed incantesimi con descrittore bene, armi d'argento)"@ {
        Some(HP_Options_Type::HP_Rigenerazione_Bene_Argento.spec_code())
    } else if s == "(armi buone, armi d'argento, incantesimi buoni)"@ {
        Some(HP_Options_Type::HP_Rigenerazione_Bene_Argento.spec_code())
    } else if s == "(fuoco o incantesimi buoni)"@ {
        Some(HP_Options_Type::HP_Rigenerazione_Fuoco_Bene.spec_code())
    } else if s == "(argento, armi e incantesimi buoni)"@ {
        Some(HP_Options_Type::HP_Rigenerazione_Bene_Argento.spec_code())
    } else if s == "(armi e incantesimi buoni, ruggine)"@ {
        Some(HP_Options_Type::HP_Rigenerazione_Bene_Ruggine.spec_code())
    } else if s == "(armi e incantesimi con il descrittore male)"@ {
        Some(HP_Options_Type::HP_Rigenerazione_Male.spec_code())
    } else if s == "(armi ed effetti con il descrittore male)"@ {
        Some(HP_Options_Type::HP_Rigenerazione_Male.spec_code())
    } else if s == "(armi, artefatti, effetti ed incantesimi con il descrittore male)"@ {
        Some(HP_Options_Type::HP_Rigenerazione_Male.spec_code())
    } else if s == "(artefatti, effetti e incantesimi malvagi)"@ {
        Some(HP_Options_Type::HP_Rigenerazione_Male.spec_code())
    } else if s == "(effetti e armi malvagie)"@ {
        Some(HP_Options_Type::HP_Rigenerazione_Male.spec_code())
    } else if s == "(armi ed effetti malvagi)"@ {
        Some(HP_Options_Type::HP_Rigenerazione_Male.spec_code())
    } else if s == "(armi o effetti malvagi)"@ {
        Some(HP_Options_Type::HP_Rigenerazione_Male.spec_code())
    } else if s == "(armi e incantesimi malvagi)"@ {
        Some(HP_Options_Type::HP_Rigenerazione_Male.spec_code())
    } else if s == "(male)"@ {
        Some(HP_Options_Type::HP_Rigenerazione_Male.spec_code())
    } else if s == "(legale)"@ {
        Some(HP_Options_Type::HP_Rigenerazione_Legale.spec_code())
    } else if s == "(armi mitiche o incantesimi)"@ {
        Some(HP_Options_Type::HP_Rigenerazione_Mitico.spec_code())
    } else if s == "(deifico o mitico)"@ {
        Some(HP_Options_Type::HP_Rigenerazione_Deifico_Mitico.spec_code())
    } else if s == "(deifica o mitica)"@ {
        Some(HP_Options_Type::HP_Rigenerazione_Deifico_Mitico.spec_code())
    } else if s == "(epico)"@ {
        Some(HP_Options_Type::HP_Rigenerazione_Epico.spec_code())
    } else if s == "(bene, epico o mitico)"@ {
        Some(HP_Options_Type::HP_Rigenerazione_Bene_Epico_Mitico.spec_code())
    } else if s == "(bene, deifico o mitico)"@ {
        Some(HP_Options_Type::HP_Rigenerazione_Bene_Deifico_Mitico.spec_code())
    } else if s == "(freddo)"@ {
        Some(HP_Options_Type::HP_Rigenerazione_Freddo.spec_code())
    } else if s == "(freddo o male)"@ {
        Some(HP_Options_Type::HP_Rigenerazione_Freddo_Male.spec_code())
    } else if s == "(Ferro Freddo)"@ {
        Some(HP_Options_Type::HP_Rigenerazione_Ferro_Freddo.spec_code())
    } else if s == "(ferro freddo)"@ {
        Some(HP_Options_Type::HP_Rigenerazione_Ferro_Freddo.spec_code())
    } else if s == "(acido o fuoco)"@ {
        Some(HP_Options_Type::HP_Rigenerazione_Acido_Fuoco.spec_code())
    } else if s == "(acido e fuoco)"@ {
        Some(HP_Options_Type::HP_Rigenerazione_Acido_Fuoco.spec_code())
    } else if s == "(Fuoco o Acido)"@ {
        Some(HP_Options_Type::HP_Rigenerazione_Acido_Fuoco.spec_code())
    } else if s == "(acido, fuoco)"@ {
        Some(HP_Options_Type::HP_Rigenerazione_Acido_Fuoco.spec_code())
    } else if s == "(acido o fuoco; vedi Vigore Primordiale)"@ {
        Some(HP_Options_Type::HP_Rigenerazione_Acido_Fuoco.spec_code())
    } else if s == "(acido o fuoco, vedi Vigore Primordiale)"@ {
        Some(HP_Options_Type::HP_Rigenerazione_Acido_Fuoco.spec_code())
    } else if s == "(acido o fuoco; solo a contatto con l'acqua)"@ {
        Some(HP_Options_Type::HP_Rigenerazione_Acido_Fuoco_In_Acqua.spec_code())
    } else if s == "(acido)"@ {
        Some(HP_Options_Type::HP_Rigenerazione_Acido.spec_code())
    } else if s == "(acido da incantesimo o oggetto mitico)"@ {
        Some(HP_Options_Type::HP_Rigenerazione_Acido_Mitico.spec_code())
    } else if s == "(acido o sonoro)"@ {
        Some(HP_Options_Type::HP_Rigenerazione_Acido_Sonoro.spec_code())
    } else if s == "(acido, sonoro)"@ {
        Some(HP_Options_Type::HP_Rigenerazione_Acido_Sonoro.spec_code())
    } else if s == "(acido o sonoro, vedi Vigore Primordiale)"@ {
        Some(HP_Options_Type::HP_Rigenerazione_Acido_Sonoro.spec_code())
    } else if s == "(acido o freddo)"@ {
        Some(HP_Options_Type::HP_Rigenerazione_Acido_Freddo.spec_code())
    } else if s == "(acido, freddo o fuoco)"@ {
        Some(HP_Options_Type::HP_Rigenerazione_Acido_Freddo_Fuoco.spec_code())
    } else if s == "(contundente o fuoco)"@ {
        Some(HP_Options_Type::HP_Rigenerazione_Contundente_Fuoco.spec_code())
    } else if s == "(energia positiva)"@ {
        Some(HP_Options_Type::HP_Rigenerazione_Energia_Positiva.spec_code())
    } else if s == "(energia positiva o ispirazione)"@ {
        Some(HP_Options_Type::HP_Rigenerazione_Energia_Positiva_Ispirazione.spec_code())
    } else if s == "(energia negativa)"@ {
        Some(HP_Options_Type::HP_Rigenerazione_Energia_Negativa.spec_code())
    } else if s == "(Pietrificazione)"@ {
        Some(HP_Options_Type::HP_Rigenerazione_Pietrificazione.spec_code())
    } else if s == "(Adamantio)"@ {
        Some(HP_Options_Type::HP_Rigenerazione_Adamantio.spec_code())
    } else if s == "(armi maledette)"@ {
        Some(HP_Options_Type::HP_Rigenerazione_Armi_Maledette.spec_code())
    } else if s == "(armi epiche)"@ {
        Some(HP_Options_Type::HP_Rigenerazione_Armi_Epiche.spec_code())
    } else if s == "(colpo senz'armi o armi naturali)"@ {
        Some(HP_Options_Type::HP_Rigenerazione_No_Armi.spec_code())
    } else if s == "(terra; vedi Rovina della Terra)"@ {
        Some(HP_Options_Type::HP_Rigenerazione_Terra.spec_code())
    } else if s == "(aria; vedi Anatema dell'Aria)"@ {
        Some(HP_Options_Type::HP_Rigenerazione_Aria.spec_code())
    } else if s == "(nella statuetta)"@ {
        Some(HP_Options_Type::HP_Rigenerazione_Statuetta.spec_code())
    } else if s == "(artefatti malvagi)"@ {
        Some(HP_Options_Type::HP_Rigenerazione_Artefatti_Malvagi.spec_code())
    } else if s == "(speciale)"@ {
        Some(HP_Options_Type::HP_Rigenerazione_Speciale.spec_code())
    } else {
        if vstd::utf8::encode_utf8(s).len() < 3 {
        Some(HP_Options_Type::HP_Rigenerazione.spec_code())
    } else {
        None
    }
    }
}

fn regen_kind(kind: &str) -> (r: Option<u64>)
    ensures
        r == hp_regen_kind(kind@),
{
    let f = chars_of(kind);
    if chars_eq(f.as_slice(), "(fuoco)") {
        return Some(HP_Options_Type::HP_Rigenerazione_Fuoco.code());
    }
    if chars_eq(f.as_slice(), "(fuoco, vedi Vigore Primordiale)") {
        return Some(HP_Options_Type::HP_Rigenerazione_Fuoco.code());
    }
    if chars_eq(f.as_slice(), "(elettricità)") {
        return Some(HP_Options_Type::HP_Rigenerazione_Elettricita.code());
    }
    if chars_eq(f.as_slice(), "(elettricità, vedi sotto)") {
        return Some(HP_Options_Type::HP_Rigenerazione_Elettricita.code());
    }
    if chars_eq(f.as_slice(), "(su terreno naturale)") {
        return Some(HP_Options_Type::HP_Rigenerazione_Terreno_Naturale.code());
    }
    if chars_eq(f.as_slice(), "(caotico)") {
        return Some(HP_Options_Type::HP_Rigenerazione_Caos.code());
    }
    if chars_eq(f.as_slice(), "(effetti e incantesimi caotici)") {
        return Some(HP_Options_Type::HP_Rigenerazione_Caos.code());
    }
    if chars_eq(f.as_slice(), "(caos o magia)") {
        return Some(HP_Options_Type::HP_Rigenerazione_Caos_Magia.code());
    }
    if chars_eq(f.as_slice(), "(bene)") {
        return Some(HP_Options_Type::HP_Rigenerazione_Bene.code());
    }
    if chars_eq(f.as_slice(), "(armi e incantesimi buoni)") {
        return Some(HP_Options_Type::HP_Rigenerazione_Bene.code());
    }
    if chars_eq(f.as_slice(), "(incantesimi buoni, armi buone)") {
        return Some(HP_Options_Type::HP_Rigenerazione_Bene.code());
    }
    if chars_eq(f.as_slice(), "(armi e incantesimi allineati con il bene)") {
        return Some(HP_Options_Type::HP_Rigenerazione_Bene.code());
    }
    if chars_eq(f.as_slice(), "(incantesimi ed armi con descrittore bene)") {
        return Some(HP_Options_Type::HP_Rigenerazione_Bene.code());
    }
    if chars_eq(f.as_slice(), "(armi e incantesimi con il descrittore bene)") {
        return Some(HP_Options_Type::HP_Rigenerazione_Bene.code());
    }
    if chars_eq(f.as_slice(), "(armi ed incantesimi con descrittore bene)") {
        return Some(HP_Options_Type::HP_Rigenerazione_Bene.code());
    }
    if chars_eq(f.as_slice(), "(artefatti, effetti e incantesimi buoni)") {
        return Some(HP_Options_Type::HP_Rigenerazione_Bene.code());
    }
    if chars_eq(f.as_slice(), "(armi o incantesimi con descrittore bene, armi d'argento)") {
        return Some(HP_Options_Type::HP_Rigenerazione_Bene_Argento.code());
    }
    if chars_eq(f.as_slice(), "(armi e incantesimi con descrittore bene, armi d'argento)") {
        return Some(HP_Options_Type::HP_Rigenerazione_Bene_Argento.code());
    }
    if chars_eq(f.as_slice(), "(armi ed incantesimi con descrittore bene, armi d'argento)") {
        return Some(HP_Options_Type::HP_Rigenerazione_Bene_Argento.code());
    }
    if chars_eq(f.as_slice(), "(armi buone, armi d'argento, incantesimi buoni)") {
        return Some(HP_Options_Type::HP_Rigenerazione_Bene_Argento.code());
    }
    if chars_eq(f.as_slice(), "(fuoco o incantesimi buoni)") {
        return Some(HP_Options_Type::HP_Rigenerazione_Fuoco_Bene.code());
    }
    if chars_eq(f.as_slice(), "(argento, armi e incantesimi buoni)") {
        return Some(HP_Options_Type::HP_Rigenerazione_Bene_Argento.code());
    }
    if chars_eq(f.as_slice(), "(armi e incantesimi buoni, ruggine)") {
        return Some(HP_Options_Type::HP_Rigenerazione_Bene_Ruggine.code());
    }
    if chars_eq(f.as_slice(), "(armi e incantesimi con il descrittore male)") {
        return Some(HP_Options_Type::HP_Rigenerazione_Male.code());
    }
    if chars_eq(f.as_slice(), "(armi ed effetti con il descrittore male)") {
        return Some(HP_Options_Type::HP_Rigenerazione_Male.code());
    }
    if chars_eq(f.as_slice(), "(armi, artefatti, effetti ed incantesimi con il descrittore male)") {
        return Some(HP_Options_Type::HP_Rigenerazione_Male.code());
    }
    if chars_eq(f.as_slice(), "(artefatti, effetti e incantesimi malvagi)") {
        return Some(HP_Options_Type::HP_Rigenerazione_Male.code());
    }
    if chars_eq(f.as_slice(), "(effetti e armi malvagie)") {
        return Some(HP_Options_Type::HP_Rigenerazione_Male.code());
    }
    if chars_eq(f.as_slice(), "(armi ed effetti malvagi)") {
        return Some(HP_Options_Type::HP_Rigenerazione_Male.code());
    }
    if chars_eq(f.as_slice(), "(armi o effetti malvagi)") {
        return Some(HP_Options_Type::HP_Rigenerazione_Male.code());
    }
    if chars_eq(f.as_slice(), "(armi e incantesimi malvagi)") {
        return Some(HP_Options_Type::HP_Rigenerazione_Male.code());
    }
    if chars_eq(f.as_slice(), "(male)") {
        return Some(HP_Options_Type::HP_Rigenerazione_Male.code());
    }
    if chars_eq(f.as_slice(), "(legale)") {
        return Some(HP_Options_Type::HP_Rigenerazione_Legale.code());
    }
    if chars_eq(f.as_slice(), "(armi mitiche o incantesimi)") {
        return Some(HP_Options_Type::HP_Rigenerazione_Mitico.code());
    }
    if chars_eq(f.as_slice(), "(deifico o mitico)") {
        return Some(HP_Options_Type::HP_Rigenerazione_Deifico_Mitico.code());
    }
    if chars_eq(f.as_slice(), "(deifica o mitica)") {
        return Some(HP_Options_Type::HP_Rigenerazione_Deifico_Mitico.code());
    }
    if chars_eq(f.as_slice(), "(epico)") {
        return Some(HP_Options_Type::HP_Rigenerazione_Epico.code());
    }
    if chars_eq(f.as_slice(), "(bene, epico o mitico)") {
        return Some(HP_Options_Type::HP_Rigenerazione_Bene_Epico_Mitico.code());
    }
    if chars_eq(f.as_slice(), "(bene, deifico o mitico)") {
        return Some(HP_Options_Type::HP_Rigenerazione_Bene_Deifico_Mitico.code());
    }
    if chars_eq(f.as_slice(), "(freddo)") {
        return Some(HP_Options_Type::HP_Rigenerazione_Freddo.code());
    }
    if chars_eq(f.as_slice(), "(freddo o male)") {
        return Some(HP_Options_Type::HP_Rigenerazione_Freddo_Male.code());
    }
    if chars_eq(f.as_slice(), "(Ferro Freddo)") {
        return Some(HP_Options_Type::HP_Rigenerazione_Ferro_Freddo.code());
    }
    if chars_eq(f.as_slice(), "(ferro freddo)") {
        return Some(HP_Options_Type::HP_Rigenerazione_Ferro_Freddo.code());
    }
    if chars_eq(f.as_slice(), "(acido o fuoco)") {
        return Some(HP_Options_Type::HP_Rigenerazione_Acido_Fuoco.code());
    }
    if chars_eq(f.as_slice(), "(acido e fuoco)") {
        return Some(HP_Options_Type::HP_Rigenerazione_Acido_Fuoco.code());
    }
    if chars_eq(f.as_slice(), "(Fuoco o Acido)") {
        return Some(HP_Options_Type::HP_Rigenerazione_Acido_Fuoco.code());
    }
    if chars_eq(f.as_slice(), "(acido, fuoco)") {
        return Some(HP_Options_Type::HP_Rigenerazione_Acido_Fuoco.code());
    }
    if chars_eq(f.as_slice(), "(acido o fuoco; vedi Vigore Primordiale)") {
        return Some(HP_Options_Type::HP_Rigenerazione_Acido_Fuoco.code());
    }
    if chars_eq(f.as_slice(), "(acido o fuoco, vedi Vigore Primordiale)") {
        return Some(HP_Options_Type::HP_Rigenerazione_Acido_Fuoco.code());
    }
    if chars_eq(f.as_slice(), "(acido o fuoco; solo a contatto con l'acqua)") {
        return Some(HP_Options_Type::HP_Rigenerazione_Acido_Fuoco_In_Acqua.code());
    }
    if chars_eq(f.as_slice(), "(acido)") {
        return Some(HP_Options_Type::HP_Rigenerazione_Acido.code());
    }
    if chars_eq(f.as_slice(), "(acido da incantesimo o oggetto mitico)") {
        return Some(HP_Options_Type::HP_Rigenerazione_Acido_Mitico.code());
    }
    if chars_eq(f.as_slice(), "(acido o sonoro)") {
        return Some(HP_Options_Type::HP_Rigenerazione_Acido_Sonoro.code());
    }
    if chars_eq(f.as_slice(), "(acido, sonoro)") {
        return Some(HP_Options_Type::HP_Rigenerazione_Acido_Sonoro.code());
    }
    if chars_eq(f.as_slice(), "(acido o sonoro, vedi Vigore Primordiale)") {
        return Some(HP_Options_Type::HP_Rigenerazione_Acido_Sonoro.code());
    }
    if chars_eq(f.as_slice(), "(acido o freddo)") {
        return Some(HP_Options_Type::HP_Rigenerazione_Acido_Freddo.code());
    }
    if chars_eq(f.as_slice(), "(acido, freddo o fuoco)") {
        return Some(HP_Options_Type::HP_Rigenerazione_Acido_Freddo_Fuoco.code());
    }
    if chars_eq(f.as_slice(), "(contundente o fuoco)") {
        return Some(HP_Options_Type::HP_Rigenerazione_Contundente_Fuoco.code());
    }
    if chars_eq(f.as_slice(), "(energia positiva)") {
        return Some(HP_Options_Type::HP_Rigenerazione_Energia_Positiva.code());
    }
    if chars_eq(f.as_slice(), "(energia positiva o ispirazione)") {
        return Some(HP_Options_Type::HP_Rigenerazione_Energia_Positiva_Ispirazione.code());
    }
    if chars_eq(f.as_slice(), "(energia negativa)") {
        return Some(HP_Options_Type::HP_Rigenerazione_Energia_Negativa.code());
    }
    if chars_eq(f.as_slice(), "(Pietrificazione)") {
        return Some(HP_Options_Type::HP_Rigenerazione_Pietrificazione.code());
    }
    if chars_eq(f.as_slice(), "(Adamantio)") {
        return Some(HP_Options_Type::HP_Rigenerazione_Adamantio.code());
    }
    if chars_eq(f.as_slice(), "(armi maledette)") {
        return Some(HP_Options_Type::HP_Rigenerazione_Armi_Maledette.code());
    }
    if chars_eq(f.as_slice(), "(armi epiche)") {
        return Some(HP_Options_Type::HP_Rigenerazione_Armi_Epiche.code());
    }
    if chars_eq(f.as_slice(), "(colpo senz'armi o armi naturali)") {
        return Some(HP_Options_Type::HP_Rigenerazione_No_Armi.code());
    }
    if chars_eq(f.as_slice(), "(terra; vedi Rovina della Terra)") {
        return Some(HP_Options_Type::HP_Rigenerazione_Terra.code());
    }
    if chars_eq(f.as_slice(), "(aria; vedi Anatema dell'Aria)") {
        return Some(HP_Options_Type::HP_Rigenerazione_Aria.code());
    }
    if chars_eq(f.as_slice(), "(nella statuetta)") {
        return Some(HP_Options_Type::HP_Rigenerazione_Statuetta.code());
    }
    if chars_eq(f.as_slice(), "(artefatti malvagi)") {
        return Some(HP_Options_Type::HP_Rigenerazione_Artefatti_Malvagi.code());
    }
    if chars_eq(f.as_slice(), "(speciale)") {
        return Some(HP_Options_Type::HP_Rigenerazione_Speciale.code());
    }
    if !byte_len_exceeds(f.as_slice(), 2) {
        Some(HP_Options_Type::HP_Rigenerazione.code())
    } else {
        None
    }
}

// ---------------------------------------------------------------------------
// The whole hit point field
// ---------------------------------------------------------------------------

/// The formula part of a hit point field and whether it notes a rage: the
/// text after the first `(` (without leading `(`), then after any `DV;` and
/// any `DV:`, cut before `\nPF non in ira` when present; `None` when the
/// field has no `(`.
pub open spec fn spec_hp_formula_text(field: Seq<char>) -> Option<(Seq<char>, bool)> {
    match spec_find(field, "("@) {
        None => None,
        Some(i) => {
            let r0 = spec_trim_start_matches(field.subrange(i, field.len() as int), "("@);
            let r1 = match spec_find(r0, "DV;"@) {
                Some(j) => spec_trim(r0.subrange(j + 3, r0.len() as int)),
                None => r0,
            };
            let r2 = match spec_find(r1, "DV:"@) {
                Some(j) => spec_trim(r1.subrange(j + 3, r1.len() as int)),
                None => r1,
            };
            match spec_find(r2, "\nPF non in ira"@) {
                Some(j) => Some((spec_trim(r2.subrange(0, j)), true)),
                None => Some((r2, false)),
            }
        },
    }
}

/// Text after the first `p` in `s` (which occurs there), trimmed.
fn trimmed_after<'a>(s: &'a str, p: &str) -> (r: Option<&'a str>)
    ensures
        match spec_find(s@, p@) {
            Some(j) => r matches Some(t) && t@ == spec_trim(s@.subrange(j + p@.len(), s@.len() as int)),
            None => r is None,
        },
{
    let v = chars_of(s);
    let pv = chars_of(p);
    match find_chars(v.as_slice(), pv.as_slice()) {
        Some(j) => {
            proof {
                lemma_find_some(v@, pv@, j as int);
            }
            let m = pv.len();
            let n = v.len();
            assert(j + m <= n);
            Some(trim_str(s.substring_char(j + m, n)))
        },
        None => None,
    }
}

fn hp_formula_text(field: &str) -> (r: Option<(&str, bool)>)
    ensures
        match spec_hp_formula_text(field@) {
            Some((t, ira)) => r matches Some(p) && p.0@ == t && p.1 == ira,
            None => r is None,
        },
{
    let v = chars_of(field);
    let open = chars_of("(");
    let i = match find_chars(v.as_slice(), open.as_slice()) {
        Some(i) => i,
        None => {
            return None;
        },
    };
    proof {
        lemma_find_some(v@, open@, i as int);
    }
    let mut text = trim_start_matches_str(field.substring_char(i, v.len()), "(");
    proof {
        reveal_strlit("DV;");
        reveal_strlit("DV:");
    }
    if let Some(t) = trimmed_after(text, "DV;") {
        text = t;
    }
    if let Some(t) = trimmed_after(text, "DV:") {
        text = t;
    }
    let tv = chars_of(text);
    let ira = chars_of("\nPF non in ira");
    match find_chars(tv.as_slice(), ira.as_slice()) {
        Some(j) => {
            proof {
                lemma_find_some(tv@, ira@, j as int);
            }
            Some((trim_str(text.substring_char(0, j)), true))
        },
        None => Some((text, false)),
    }
}

/// The word for the formula's state: the state's bits with the flat value at
/// `HP_FLAT_OFFSET`, negated and flagged when below zero; `None` for a total
/// of `i64::MIN`, which cannot be negated.
pub open spec fn hp_with_flat(st: HpState) -> Option<u64> {
    if st.total_flat < 0 {
        if st.total_flat == i64::MIN {
            None
        } else {
            Some(
                st.bits | HP_FLAT_NEGATIVE_BIT | (((-st.total_flat) as u64) << HP_FLAT_OFFSET),
            )
        }
    } else {
        Some(st.bits | ((st.total_flat as u64) << HP_FLAT_OFFSET))
    }
}

/// `base` with the ability `code` and its value.
pub open spec fn hp_with_option(base: u64, code: u64, val: u64) -> u64 {
    base | (code << HP_OPTION_TYPE_OFFSET) | (val << HP_OPTION_VAL_OFFSET)
}

/// The value written at the start of `r`: its leading digits, or all of `r`
/// when `whole_when_no_end` and no character ends them; `None` when that is
/// not a number below `HP_OPTION_VAL_MAX`.
pub open spec fn hp_option_value(r: Seq<char>, whole_when_no_end: bool) -> Option<u64> {
    let e = digits_end(r);
    let num = if whole_when_no_end && e == 0 {
        r
    } else {
        r.subrange(0, e as int)
    };
    match spec_parse_uint(num, u64::MAX as nat) {
        Some(v) => if v < HP_OPTION_VAL_MAX {
            Some(v as u64)
        } else {
            None
        },
        None => None,
    }
}

/// What follows the value at the start of `r`, trimmed.
pub open spec fn hp_after_value(r: Seq<char>) -> Seq<char> {
    spec_trim(r.subrange(digits_end(r) as int, r.len() as int))
}

/// The text after every leading `name`, trimmed.
pub open spec fn hp_after_name(s: Seq<char>, name: Seq<char>) -> Seq<char> {
    spec_trim(spec_trim_start_matches(s, name))
}

/// A named ability with a value and no kind text after it.
pub open spec fn hp_plain_valued(s: Seq<char>, name: Seq<char>, code: u64, base: u64) -> Option<u64> {
    let r = hp_after_name(s, name);
    match hp_option_value(r, true) {
        Some(val) => if vstd::utf8::encode_utf8(hp_after_value(r)).len() < 3 {
            Some(hp_with_option(base, code, val))
        } else {
            None
        },
        None => None,
    }
}

/// A named ability with a value (its digits required) and exactly the kind
/// text `kind` after it.
pub open spec fn hp_strict_valued(
    s: Seq<char>,
    name: Seq<char>,
    kind: Seq<char>,
    code: u64,
    base: u64,
) -> Option<u64> {
    let r = hp_after_name(s, name);
    match hp_option_value(r, false) {
        Some(val) => if hp_after_value(r) == kind {
            Some(hp_with_option(base, code, val))
        } else {
            None
        },
        None => None,
    }
}

/// A named ability without a value, with at most three bytes after the name.
pub open spec fn hp_unvalued(s: Seq<char>, name: Seq<char>, code: u64, base: u64) -> Option<u64> {
    if vstd::utf8::encode_utf8(hp_after_name(s, name)).len() > 3 {
        None
    } else {
        Some(base | (code << HP_OPTION_TYPE_OFFSET))
    }
}

/// The word once the special ability after the formula is added to `base`;
/// `None` for a text that names no known ability or whose value is missing
/// or too large.
pub open spec fn spec_hp_options(s: Seq<char>, base: u64) -> Option<u64> {
    if spec_contains(s, "Danni Non Letali da bruciare"@) {
        Some(base)
    } else if spec_contains(s, "Guarigione Rapida Planare"@) {
        hp_plain_valued(s, "Guarigione Rapida Planare"@, HP_Options_Type::HP_Guarigione_Rapida_Planare.spec_code(), base)
    } else if spec_contains(s, "Guarigione dal Sangue"@) {
        Some(base | (HP_Options_Type::HP_Guarigione_Sangue.spec_code() << HP_OPTION_TYPE_OFFSET))
    } else if spec_contains(s, "Campo di Forza"@) {
        Some(base | (HP_Options_Type::HP_Campo_Forza.spec_code() << HP_OPTION_TYPE_OFFSET))
    } else if spec_contains(s, "Terribile Ringiovanimento"@) {
        hp_plain_valued(s, "Terribile Ringiovanimento"@, HP_Options_Type::HP_Terribile_Ringiovanimento.spec_code(), base)
    } else if spec_contains(s, "Guarigione Rapida"@) {
        let r = hp_after_name(s, "Guarigione Rapida"@);
        match hp_option_value(r, true) {
            Some(val) => {
                let kind = match spec_find(r, "("@) {
                    Some(p) => spec_trim(r.subrange(p, r.len() as int)),
                    None => hp_after_value(r),
                };
                match hp_rapid_kind(kind) {
                    Some(code) => Some(hp_with_option(base, code, val)),
                    None => None,
                }
            },
            None => None,
        }
    } else if spec_contains(s, "Rigenerazione della Cera"@) {
        hp_strict_valued(s, "Rigenerazione della Cera"@, "(fuoco)"@, HP_Options_Type::HP_Rigenerazione_Cera_Fuoco.spec_code(), base)
    } else if spec_contains(s, "Rigenerazione Pluviale"@) {
        hp_strict_valued(s, "Rigenerazione Pluviale"@, "(acido o fuoco)"@, HP_Options_Type::HP_Rigenerazione_Pluviale_Acido_Fuoco.spec_code(), base)
    } else if spec_contains(s, "Rigenerazione Profana"@) {
        hp_strict_valued(s, "Rigenerazione Profana"@, "(elettricità o bene)"@, HP_Options_Type::HP_Rigenerazione_Profana_Bene_Elettricita.spec_code(), base)
    } else if spec_contains(s, "Ripararsi con i Rifiuti"@) {
        hp_unvalued(s, "Ripararsi con i Rifiuti"@, HP_Options_Type::HP_Ripararsi_Con_Rifiuti.spec_code(), base)
    } else if spec_contains(s, "Gioia Sostenente"@) {
        hp_unvalued(s, "Gioia Sostenente"@, HP_Options_Type::HP_Gioia_Sostenente.spec_code(), base)
    } else if s == "Rigenerazione (deifico o mitico)"@ {
        Some(base | (HP_Options_Type::HP_Regen_Pazuzu.spec_code() << HP_OPTION_TYPE_OFFSET))
    } else if spec_contains(s, "Rigenerazione"@) {
        let r = hp_after_name(s, "Rigenerazione"@);
        match hp_option_value(r, true) {
            Some(val) => match hp_regen_kind(hp_after_value(r)) {
                Some(code) => Some(hp_with_option(base, code, val)),
                None => None,
            },
            None => None,
        }
    } else {
        None
    }
}

fn option_value(r: &str, whole_when_no_end: bool) -> (res: Option<u64>)
    ensures
        res == hp_option_value(r@, whole_when_no_end),
{
    let v = chars_of(r);
    let e = digits_end_of(v.as_slice());
    let num = if whole_when_no_end && e == 0 {
        r
    } else {
        r.substring_char(0, e)
    };
    match parse_uint(num, u64::MAX) {
        Some(val) => {
            if val < HP_OPTION_VAL_MAX {
                Some(val)
            } else {
                None
            }
        },
        None => None,
    }
}

fn after_value(r: &str) -> (res: &str)
    ensures
        res@ == hp_after_value(r@),
{
    let v = chars_of(r);
    let e = digits_end_of(v.as_slice());
    trim_str(r.substring_char(e, v.len()))
}

fn after_name<'a>(s: &'a str, name: &str) -> (res: &'a str)
    ensures
        res@ == hp_after_name(s@, name@),
{
    trim_str(trim_start_matches_str(s, name))
}

fn plain_valued(s: &str, name: &str, code: u64, base: u64) -> (res: Option<u64>)
    ensures
        res == hp_plain_valued(s@, name@, code, base),
{
    let r = after_name(s, name);
    match option_value(r, true) {
        Some(val) => {
            let rest = chars_of(after_value(r));
            if !byte_len_exceeds(rest.as_slice(), 2) {
                Some(base | (code << HP_OPTION_TYPE_OFFSET) | (val << HP_OPTION_VAL_OFFSET))
            } else {
                None
            }
        },
        None => None,
    }
}

fn strict_valued(s: &str, name: &str, kind: &str, code: u64, base: u64) -> (res: Option<u64>)
    ensures
        res == hp_strict_valued(s@, name@, kind@, code, base),
{
    let r = after_name(s, name);
    match option_value(r, false) {
        Some(val) => {
            if str_eq(after_value(r), kind) {
                Some(base | (code << HP_OPTION_TYPE_OFFSET) | (val << HP_OPTION_VAL_OFFSET))
            } else {
                None
            }
        },
        None => None,
    }
}

fn unvalued(s: &str, name: &str, code: u64, base: u64) -> (res: Option<u64>)
    ensures
        res == hp_unvalued(s@, name@, code, base),
{
    let rest = chars_of(after_name(s, name));
    if byte_len_exceeds(rest.as_slice(), 3) {
        None
    } else {
        Some(base | (code << HP_OPTION_TYPE_OFFSET))
    }
}

fn map_hp_options(s: &str, base: u64) -> (res: Option<u64>)
    ensures
        res == spec_hp_options(s@, base),
{
    if contains_str(s, "Danni Non Letali da bruciare") {
        return Some(base);
    }
    if contains_str(s, "Guarigione Rapida Planare") {
        return plain_valued(s, "Guarigione Rapida Planare", HP_Options_Type::HP_Guarigione_Rapida_Planare.code(), base);
    }
    if contains_str(s, "Guarigione dal Sangue") {
        return Some(base | (HP_Options_Type::HP_Guarigione_Sangue.code() << HP_OPTION_TYPE_OFFSET));
    }
    if contains_str(s, "Campo di Forza") {
        return Some(base | (HP_Options_Type::HP_Campo_Forza.code() << HP_OPTION_TYPE_OFFSET));
    }
    if contains_str(s, "Terribile Ringiovanimento") {
        return plain_valued(s, "Terribile Ringiovanimento", HP_Options_Type::HP_Terribile_Ringiovanimento.code(), base);
    }
    if contains_str(s, "Guarigione Rapida") {
        let r = after_name(s, "Guarigione Rapida");
        match option_value(r, true) {
            Some(val) => {
                let rv = chars_of(r);
                let open = chars_of("(");
                let kind = match find_chars(rv.as_slice(), open.as_slice()) {
                    Some(p) => trim_str(r.substring_char(p, rv.len())),
                    None => after_value(r),
                };
                proof {
                    if let Some(p) = spec_find(r@, "("@) {
                        lemma_find_some(r@, "("@, p);
                    }
                }
                match rapid_kind(kind) {
                    Some(code) => {
                        return Some(base | (code << HP_OPTION_TYPE_OFFSET) | (val << HP_OPTION_VAL_OFFSET));
                    },
                    None => {
                        return None;
                    },
                }
            },
            None => {
                return None;
            },
        }
    }
    if contains_str(s, "Rigenerazione della Cera") {
        return strict_valued(s, "Rigenerazione della Cera", "(fuoco)", HP_Options_Type::HP_Rigenerazione_Cera_Fuoco.code(), base);
    }
    if contains_str(s, "Rigenerazione Pluviale") {
        return strict_valued(s, "Rigenerazione Pluviale", "(acido o fuoco)", HP_Options_Type::HP_Rigenerazione_Pluviale_Acido_Fuoco.code(), base);
    }
    if contains_str(s, "Rigenerazione Profana") {
        return strict_valued(s, "Rigenerazione Profana", "(elettricità o bene)", HP_Options_Type::HP_Rigenerazione_Profana_Bene_Elettricita.code(), base);
    }
    if contains_str(s, "Ripararsi con i Rifiuti") {
        return unvalued(s, "Ripararsi con i Rifiuti", HP_Options_Type::HP_Ripararsi_Con_Rifiuti.code(), base);
    }
    if contains_str(s, "Gioia Sostenente") {
        return unvalued(s, "Gioia Sostenente", HP_Options_Type::HP_Gioia_Sostenente.code(), base);
    }
    if str_eq(s, "Rigenerazione (deifico o mitico)") {
        return Some(base | (HP_Options_Type::HP_Regen_Pazuzu.code() << HP_OPTION_TYPE_OFFSET));
    }
    if contains_str(s, "Rigenerazione") {
        let r = after_name(s, "Rigenerazione");
        match option_value(r, true) {
            Some(val) => {
                match regen_kind(after_value(r)) {
                    Some(code) => {
                        return Some(base | (code << HP_OPTION_TYPE_OFFSET) | (val << HP_OPTION_VAL_OFFSET));
                    },
                    None => {
                        return None;
                    },
                }
            },
            None => {
                return None;
            },
        }
    }
    None
}

/// The state a formula starts from.
pub open spec fn hp_initial_state(ira: bool) -> HpState {
    HpState {
        bits: if ira {
            HP_IRA_BIT
        } else {
            0
        },
        dice_count: 0,
        total_flat: 0,
        vita_falsata: false,
        vita_falsata_val: 0,
        next_minus: false,
    }
}

/// The word for the formula `text` (the part of a field after its `(`),
/// with the rage bit when `ira`: its terms folded, the flat value placed,
/// then a `Vita Falsata` value or the abilities after the `)`; `None` for a
/// formula this cannot map.
pub open spec fn hp_formula_word(text: Seq<char>, ira: bool) -> Option<u64> {
    let (terms, rest) = hp_terms_from(text, 0, 0);
    match hp_fold(terms, hp_initial_state(ira)) {
        None => None,
        Some(st) => match hp_with_flat(st) {
            None => None,
            Some(base) => if st.vita_falsata {
                if st.vita_falsata_val >= HP_OPTION_VAL_MAX {
                    None
                } else if vstd::utf8::encode_utf8(spec_trim(rest)).len() < 3 {
                    Some(
                        hp_with_option(
                            base,
                            HP_Options_Type::HP_Vita_Falsata.spec_code(),
                            st.vita_falsata_val,
                        ),
                    )
                } else {
                    None
                }
            } else if vstd::utf8::encode_utf8(spec_trim(rest)).len() < 3 {
                Some(base)
            } else {
                spec_hp_options(spec_trim_set(spec_trim(rest), seq![';', ',', ' ']), base)
            },
        },
    }
}

/// The word for a hit point field such as `45 (6d8+18)` (see the bit layout
/// above); `None` for a field this cannot map.
pub open spec fn spec_map_or_intern_hp(field: Seq<char>) -> Option<u64> {
    match spec_hp_formula_text(field) {
        None => None,
        Some((text, ira)) => hp_formula_word(text, ira),
    }
}

/// `map_or_intern_hp`, or `None` for a field it cannot map.
pub fn try_map_or_intern_hp(field: &str, page_name: &str) -> (r: Option<u64>)
    ensures
        r == spec_map_or_intern_hp(field@),
{
    let (text, ira) = match hp_formula_text(field) {
        Some(p) => p,
        None => {
            return None;
        },
    };
    let init = HpState {
        bits: if ira {
            HP_IRA_BIT
        } else {
            0
        },
        dice_count: 0,
        total_flat: 0,
        vita_falsata: false,
        vita_falsata_val: 0,
        next_minus: false,
    };
    let (st, rest) = match scan_hp_formula(text, init, page_name) {
        Some(p) => p,
        None => {
            return None;
        },
    };
    let mut final_value: u64 = st.bits;
    if st.total_flat < 0 {
        if st.total_flat == i64::MIN {
            return None;
        }
        let positive_flat: u64 = (-st.total_flat) as u64;
        final_value = final_value | HP_FLAT_NEGATIVE_BIT;
        final_value = final_value | (positive_flat << HP_FLAT_OFFSET);
    } else {
        final_value = final_value | ((st.total_flat as u64) << HP_FLAT_OFFSET);
    }
    let rest = trim_str(rest);
    let rest_chars = chars_of(rest);
    if st.vita_falsata {
        if st.vita_falsata_val >= HP_OPTION_VAL_MAX {
            return None;
        }
        final_value = final_value | (HP_Options_Type::HP_Vita_Falsata.code() << HP_OPTION_TYPE_OFFSET);
        final_value = final_value | (st.vita_falsata_val << HP_OPTION_VAL_OFFSET);
        if !byte_len_exceeds(rest_chars.as_slice(), 2) {
            return Some(final_value);
        }
        return None;
    }
    if !byte_len_exceeds(rest_chars.as_slice(), 2) {
        return Some(final_value);
    }
    let trim_check = vec![';', ',', ' '];
    let options = trim_set_str(rest, trim_check.as_slice());
    assert(trim_check@ =~= seq![';', ',', ' ']);
    map_hp_options(options, final_value)
}

/// The word for a hit point field (see `spec_map_or_intern_hp`).
pub fn map_or_intern_hp(field: &str, page_name: &str) -> (r: u64)
    requires
        spec_map_or_intern_hp(field@) is Some,
    ensures
        r == spec_map_or_intern_hp(field@)->0,
{
    match try_map_or_intern_hp(field, page_name) {
        Some(v) => v,
        None => HP_INVALID,
    }
}

// ---------------------------------------------------------------------------
// Laws
// ---------------------------------------------------------------------------

/// The bits that hold the hit dice.
pub open spec fn hp_dice_mask() -> u64 {
    0xF_FFFF_FFFF
}

/// The 9-bit slot `i` of a word.
pub open spec fn hp_die_slot(w: u64, i: int) -> u64 {
    (w >> ((9 * i) as u64)) & 0x1FF
}

/// The die codes among `terms`, in order.
pub open spec fn hp_dice_codes(terms: Seq<(Seq<char>, char)>) -> Seq<u64>
    decreases terms.len(),
{
    if terms.len() == 0 {
        Seq::empty()
    } else {
        let rest = hp_dice_codes(terms.drop_first());
        match spec_map_hp_expr(spec_trim(terms[0].0)) {
            Some(HpExpr::Hp_Die(d)) => seq![d] + rest,
            _ => rest,
        }
    }
}

/// Every ability has a code below 128, so it fits its seven bits.
pub proof fn lemma_hp_option_code_fits(x: HP_Options_Type)
    ensures
        x.spec_code() <= 68,
{
    match x {
        _ => {},
    }
}

/// A die code fits its nine bits.
pub proof fn lemma_hp_die_code_fits(s: Seq<char>)
    ensures
        spec_map_hp_expr(s) matches Some(HpExpr::Hp_Die(d)) ==> d < 0x200,
{
    if let Some(HpExpr::Hp_Die(d)) = spec_map_hp_expr(s) {
        let i = spec_find(s, "d"@)->0;
        let count = spec_parse_uint(s.subrange(0, i), 0xFFFF)->0 as u16;
        let face = spec_parse_uint(s.subrange(i + 1, s.len() as int), 0xFFFF)->0;
        let fi = hp_face_index(face)->0;
        assert(((((count & 0x3F) << 3u16) | (fi & 0x0007)) as u64) < 0x200) by (bit_vector);
    }
}

proof fn lemma_die_bits(b: u64, d: u64, k: u64, i: u64)
    requires
        k <= 3,
        d < 0x200,
        (b & 0xF_FFFF_FFFF) >> ((k * 9) as u64) == 0,
        i < k,
    ensures
        ((b | (d << ((k * 9) as u64))) >> ((i * 9) as u64)) & 0x1FF == (b >> ((i * 9) as u64)) & 0x1FF,
{
    assert(((b | (d << ((k * 9) as u64))) >> ((i * 9) as u64)) & 0x1FF == (b >> ((i * 9) as u64))
        & 0x1FF) by (bit_vector)
        requires
            k <= 3,
            d < 0x200,
            (b & 0xF_FFFF_FFFF) >> ((k * 9) as u64) == 0,
            i < k,
    ;
}

proof fn lemma_die_top(b: u64, d: u64, k: u64)
    requires
        k <= 3,
        d < 0x200,
        (b & 0xF_FFFF_FFFF) >> ((k * 9) as u64) == 0,
    ensures
        ((b | (d << ((k * 9) as u64))) >> ((k * 9) as u64)) & 0x1FF == d,
        ((b | (d << ((k * 9) as u64))) & 0xF_FFFF_FFFF) >> (((k + 1) * 9) as u64) == 0,
        (b | (d << ((k * 9) as u64))) & !0xF_FFFF_FFFFu64 == b & !0xF_FFFF_FFFFu64,
{
    assert(((b | (d << ((k * 9) as u64))) >> ((k * 9) as u64)) & 0x1FF == d && ((b | (d << ((k
        * 9) as u64))) & 0xF_FFFF_FFFF) >> (((k + 1) * 9) as u64) == 0 && (b | (d << ((k * 9)
        as u64))) & !0xF_FFFF_FFFFu64 == b & !0xF_FFFF_FFFFu64) by (bit_vector)
        requires
            k <= 3,
            d < 0x200,
            (b & 0xF_FFFF_FFFF) >> ((k * 9) as u64) == 0,
    ;
}

/// Folding places each die of `terms` in the next free slot and leaves the
/// bits above the dice alone.
proof fn lemma_fold_dice(terms: Seq<(Seq<char>, char)>, st: HpState)
    requires
        hp_fold(terms, st) is Some,
        st.dice_count <= HP_MAX_DICE_COUNT,
        (st.bits & hp_dice_mask()) >> ((9 * st.dice_count) as u64) == 0,
    ensures
        ({
            let f = hp_fold(terms, st)->0;
            let dice = hp_dice_codes(terms);
            &&& f.dice_count == st.dice_count + dice.len()
            &&& f.dice_count <= HP_MAX_DICE_COUNT
            &&& (f.bits & hp_dice_mask()) >> ((9 * f.dice_count) as u64) == 0
            &&& f.bits & !0xF_FFFF_FFFFu64 == st.bits & !0xF_FFFF_FFFFu64
            &&& forall|i: int| 0 <= i < st.dice_count ==> #[trigger] hp_die_slot(f.bits, i) == hp_die_slot(st.bits, i)
            &&& forall|j: int| 0 <= j < dice.len() ==> hp_die_slot(f.bits, st.dice_count + j) == #[trigger] dice[j]
        }),
    decreases terms.len(),
{
    if terms.len() > 0 {
        let next = hp_step(st, terms[0].0, terms[0].1)->0;
        let seg = spec_trim(terms[0].0);
        lemma_hp_die_code_fits(seg);
        let rest = terms.drop_first();
        let k = st.dice_count;
        match spec_map_hp_expr(seg) {
            Some(HpExpr::Hp_Die(d)) => {
                assert((k * 9) as u64 == (9 * k) as u64);
                assert(((k + 1) * 9) as u64 == (9 * (k + 1)) as u64);
                lemma_die_top(st.bits, d, k);
                assert forall|i: int| 0 <= i < k implies #[trigger] hp_die_slot(next.bits, i)
                    == hp_die_slot(st.bits, i) by {
                    lemma_die_bits(st.bits, d, k, i as u64);
                    assert(((i as u64) * 9) as u64 == (9 * i) as u64);
                }
                lemma_fold_dice(rest, next);
                let f = hp_fold(terms, st)->0;
                let dice = hp_dice_codes(terms);
                assert(dice == seq![d] + hp_dice_codes(rest));
                assert forall|j: int| 0 <= j < dice.len() implies hp_die_slot(f.bits, k + j)
                    == #[trigger] dice[j] by {
                    if j == 0 {
                        assert(hp_die_slot(next.bits, k as int) == d);
                    } else {
                        assert(dice[j] == hp_dice_codes(rest)[j - 1]);
                    }
                }
            },
            _ => {
                lemma_fold_dice(rest, next);
            },
        }
    } else {
        assert(hp_dice_codes(terms) =~= Seq::<u64>::empty());
    }
}

/// The bits an ability leaves alone: all but 47 to 59.
pub open spec fn hp_keep_mask() -> u64 {
    0xF000_7FFF_FFFF_FFFF
}

pub(crate) proof fn lemma_option_bits(base: u64, c: u64, v: u64)
    requires
        c < 128,
        v < 64,
    ensures
        hp_with_option(base, c, v) & hp_keep_mask() == base & hp_keep_mask(),
        (base | (c << HP_OPTION_TYPE_OFFSET)) & hp_keep_mask() == base & hp_keep_mask(),
        base & 0x0FFF_8000_0000_0000u64 == 0 ==> (hp_with_option(base, c, v) >> 47u64) & 0x7F == c,
        base & 0x0FFF_8000_0000_0000u64 == 0 ==> ((base | (c << HP_OPTION_TYPE_OFFSET)) >> 47u64) & 0x7F
            == c,
{
    assert(base & 0x0FFF_8000_0000_0000u64 == 0 ==> ((base | (c << 47u64) | (v << 54u64)) >> 47u64) & 0x7F
        == c && ((base | (c << 47u64)) >> 47u64) & 0x7F == c) by (bit_vector)
        requires
            c < 128,
            v < 64,
    ;
    assert((base | (c << 47u64) | (v << 54u64)) & 0xF000_7FFF_FFFF_FFFFu64 == base
        & 0xF000_7FFF_FFFF_FFFFu64 && (base | (c << 47u64)) & 0xF000_7FFF_FFFF_FFFFu64 == base
        & 0xF000_7FFF_FFFF_FFFFu64) by (bit_vector)
        requires
            c < 128,
            v < 64,
    ;
}

pub(crate) proof fn lemma_kinds_fit(s: Seq<char>)
    ensures
        hp_rapid_kind(s) matches Some(c) ==> c <= 68,
        hp_regen_kind(s) matches Some(c) ==> c <= 68,
{
}

/// An ability only writes bits 47 to 59 of the word.
pub proof fn lemma_hp_options_keep(s: Seq<char>, base: u64)
    ensures
        spec_hp_options(s, base) matches Some(r) ==> r & hp_keep_mask() == base & hp_keep_mask(),
        spec_hp_options(s, base) matches Some(r) ==> (base & 0x0FFF_8000_0000_0000u64 == 0 ==> (r
            >> 47u64) & 0x7F <= 68),
{
    if let Some(r) = spec_hp_options(s, base) {
        if spec_contains(s, "Danni Non Letali da bruciare"@) {
            assert(base & 0x0FFF_8000_0000_0000u64 == 0 ==> (base >> 47u64) & 0x7F == 0) by (bit_vector);
        } else if spec_contains(s, "Guarigione Rapida Planare"@) {
            let x = HP_Options_Type::HP_Guarigione_Rapida_Planare;
            lemma_hp_option_code_fits(x);
            let v = hp_option_value(hp_after_name(s, "Guarigione Rapida Planare"@), true)->0;
            lemma_option_bits(base, x.spec_code(), v);
        } else if spec_contains(s, "Guarigione dal Sangue"@) {
            let x = HP_Options_Type::HP_Guarigione_Sangue;
            lemma_hp_option_code_fits(x);
            lemma_option_bits(base, x.spec_code(), 0);
        } else if spec_contains(s, "Campo di Forza"@) {
            let x = HP_Options_Type::HP_Campo_Forza;
            lemma_hp_option_code_fits(x);
            lemma_option_bits(base, x.spec_code(), 0);
        } else if spec_contains(s, "Terribile Ringiovanimento"@) {
            let x = HP_Options_Type::HP_Terribile_Ringiovanimento;
            lemma_hp_option_code_fits(x);
            let v = hp_option_value(hp_after_name(s, "Terribile Ringiovanimento"@), true)->0;
            lemma_option_bits(base, x.spec_code(), v);
        } else if spec_contains(s, "Guarigione Rapida"@) {
            let rr = hp_after_name(s, "Guarigione Rapida"@);
            let v = hp_option_value(rr, true)->0;
            let kind = match spec_find(rr, "("@) {
                Some(p) => spec_trim(rr.subrange(p, rr.len() as int)),
                None => hp_after_value(rr),
            };
            lemma_kinds_fit(kind);
            lemma_option_bits(base, hp_rapid_kind(kind)->0, v);
        } else if spec_contains(s, "Rigenerazione della Cera"@) {
            let x = HP_Options_Type::HP_Rigenerazione_Cera_Fuoco;
            lemma_hp_option_code_fits(x);
            let v = hp_option_value(hp_after_name(s, "Rigenerazione della Cera"@), false)->0;
            lemma_option_bits(base, x.spec_code(), v);
        } else if spec_contains(s, "Rigenerazione Pluviale"@) {
            let x = HP_Options_Type::HP_Rigenerazione_Pluviale_Acido_Fuoco;
            lemma_hp_option_code_fits(x);
            let v = hp_option_value(hp_after_name(s, "Rigenerazione Pluviale"@), false)->0;
            lemma_option_bits(base, x.spec_code(), v);
        } else if spec_contains(s, "Rigenerazione Profana"@) {
            let x = HP_Options_Type::HP_Rigenerazione_Profana_Bene_Elettricita;
            lemma_hp_option_code_fits(x);
            let v = hp_option_value(hp_after_name(s, "Rigenerazione Profana"@), false)->0;
            lemma_option_bits(base, x.spec_code(), v);
        } else if spec_contains(s, "Ripararsi con i Rifiuti"@) {
            let x = HP_Options_Type::HP_Ripararsi_Con_Rifiuti;
            lemma_hp_option_code_fits(x);
            lemma_option_bits(base, x.spec_code(), 0);
        } else if spec_contains(s, "Gioia Sostenente"@) {
            let x = HP_Options_Type::HP_Gioia_Sostenente;
            lemma_hp_option_code_fits(x);
            lemma_option_bits(base, x.spec_code(), 0);
        } else if s == "Rigenerazione (deifico o mitico)"@ {
            let x = HP_Options_Type::HP_Regen_Pazuzu;
            lemma_hp_option_code_fits(x);
            lemma_option_bits(base, x.spec_code(), 0);
        } else {
            let rr = hp_after_name(s, "Rigenerazione"@);
            let v = hp_option_value(rr, true)->0;
            lemma_kinds_fit(hp_after_value(rr));
            lemma_option_bits(base, hp_regen_kind(hp_after_value(rr))->0, v);
        }
    }
}

proof fn lemma_word_slots(bits: u64, sg: u64, mag: u64, r: u64, i: u64)
    requires
        i < 4,
        r & 0xF000_7FFF_FFFF_FFFFu64 == (bits | sg | (mag << 36u64)) & 0xF000_7FFF_FFFF_FFFFu64,
        sg == 0 || sg == 0x8000000000000000u64,
    ensures
        (r >> ((i * 9) as u64)) & 0x1FF == (bits >> ((i * 9) as u64)) & 0x1FF,
{
    assert((r >> ((i * 9) as u64)) & 0x1FF == (bits >> ((i * 9) as u64)) & 0x1FF) by (bit_vector)
        requires
            i < 4,
            r & 0xF000_7FFF_FFFF_FFFFu64 == (bits | sg | (mag << 36u64)) & 0xF000_7FFF_FFFF_FFFFu64,
            sg == 0 || sg == 0x8000000000000000u64,
    ;
}

proof fn lemma_empty_slot(bits: u64, k: u64, i: u64)
    requires
        k <= i < 4,
        (bits & 0xF_FFFF_FFFFu64) >> ((k * 9) as u64) == 0,
    ensures
        (bits >> ((i * 9) as u64)) & 0x1FF == 0,
{
    assert((bits >> ((i * 9) as u64)) & 0x1FF == 0) by (bit_vector)
        requires
            k <= i < 4,
            (bits & 0xF_FFFF_FFFFu64) >> ((k * 9) as u64) == 0,
    ;
}

proof fn lemma_word_flat(bits: u64, hi: u64, sg: u64, mag: u64, r: u64)
    requires
        bits & !0xF_FFFF_FFFFu64 == hi,
        hi == 0 || hi == 0x4000000000000000u64,
        sg == 0 || sg == 0x8000000000000000u64,
        mag < 2048,
        r & 0xF000_7FFF_FFFF_FFFFu64 == (bits | sg | (mag << 36u64)) & 0xF000_7FFF_FFFF_FFFFu64,
    ensures
        (r >> 36u64) & 0x7FF == mag,
        (r >> 63u64 == 1) == (sg != 0),
        (r & 0x4000000000000000u64 != 0) == (hi != 0),
{
    assert((r >> 36u64) & 0x7FF == mag && (r >> 63u64 == 1) == (sg != 0) && (r & 0x4000000000000000u64
        != 0) == (hi != 0)) by (bit_vector)
        requires
            bits & !0xF_FFFF_FFFFu64 == hi,
            hi == 0 || hi == 0x4000000000000000u64,
            sg == 0 || sg == 0x8000000000000000u64,
            mag < 2048,
            r & 0xF000_7FFF_FFFF_FFFFu64 == (bits | sg | (mag << 36u64)) & 0xF000_7FFF_FFFF_FFFFu64,
    ;
}

/// A die's code holds its face index, 1 (d4) to 5 (d12), in its low three bits.
proof fn lemma_die_face(s: Seq<char>)
    ensures
        spec_map_hp_expr(s) matches Some(HpExpr::Hp_Die(d)) ==> 1 <= d & 7 <= 5,
{
    if let Some(HpExpr::Hp_Die(d)) = spec_map_hp_expr(s) {
        let i = spec_find(s, "d"@)->0;
        let count = spec_parse_uint(s.subrange(0, i), 0xFFFF)->0 as u16;
        let face = spec_parse_uint(s.subrange(i + 1, s.len() as int), 0xFFFF)->0;
        let fi = hp_face_index(face)->0;
        assert(1 <= fi <= 5);
        assert(1 <= fi <= 5 ==> 1 <= ((((count & 0x3F) << 3u16) | (fi & 0x0007)) as u64) & 7 <= 5)
            by (bit_vector);
    }
}

/// Every die code of a formula holds a face index from 1 to 5.
proof fn lemma_dice_faces(terms: Seq<(Seq<char>, char)>)
    ensures
        forall|j: int| 0 <= j < hp_dice_codes(terms).len() ==> 1 <= #[trigger] hp_dice_codes(terms)[j] & 7 <= 5,
    decreases terms.len(),
{
    if terms.len() > 0 {
        lemma_dice_faces(terms.drop_first());
        lemma_die_face(spec_trim(terms[0].0));
        let rest = hp_dice_codes(terms.drop_first());
        if let Some(HpExpr::Hp_Die(d)) = spec_map_hp_expr(spec_trim(terms[0].0)) {
            let all = seq![d] + rest;
            assert(hp_dice_codes(terms) == all);
            assert forall|j: int| 0 <= j < all.len() implies 1 <= #[trigger] all[j] & 7 <= 5 by {
                if j > 0 {
                    assert(all[j] == rest[j - 1]);
                }
            }
        }
    }
}

/// A hit point word keeps each hit die of the formula in its own 9-bit slot,
/// in order, with empty slots after the last, each die's face index (1 for
/// d4 to 5 for d12) in the slot's low three bits; when the flat value is
/// below 2048 in size it sits in bits 36 to 46 with its sign in bit 63, bit
/// 62 is set exactly when the field notes a rage, bits 60 and 61 are clear,
/// and the ability kind in bits 47 to 53 is one of the kinds (at most 68).
pub proof fn lemma_hp_layout(field: Seq<char>)
    requires
        spec_map_or_intern_hp(field) is Some,
    ensures
        ({
            let text = spec_hp_formula_text(field).unwrap().0;
            let ira = spec_hp_formula_text(field).unwrap().1;
            let terms = hp_terms_from(text, 0, 0).0;
            let st = hp_fold(terms, hp_initial_state(ira))->0;
            let dice = hp_dice_codes(terms);
            let r = spec_map_or_intern_hp(field)->0;
            &&& dice.len() <= HP_MAX_DICE_COUNT
            &&& forall|i: int| 0 <= i < dice.len() ==> hp_die_slot(r, i) == #[trigger] dice[i]
            &&& forall|i: int| dice.len() <= i < HP_MAX_DICE_COUNT ==> #[trigger] hp_die_slot(r, i) == 0
            &&& forall|i: int| 0 <= i < dice.len() ==> 1 <= #[trigger] hp_die_slot(r, i) & 7 <= 5
            &&& -2048 < st.total_flat < 2048 ==> {
                &&& r & 0x3000_0000_0000_0000u64 == 0
                &&& (r >> 47u64) & 0x7F <= 68
                &&& (r >> 36u64) & 0x7FF == (if st.total_flat < 0 {
                    -st.total_flat
                } else {
                    st.total_flat as int
                })
                &&& (r >> 63u64 == 1) == (st.total_flat < 0)
                &&& (r & HP_IRA_BIT != 0) == ira
            }
        }),
{
    let text = spec_hp_formula_text(field).unwrap().0;
    let ira = spec_hp_formula_text(field).unwrap().1;
    let (terms, rest) = hp_terms_from(text, 0, 0);
    let init = hp_initial_state(ira);
    let st = hp_fold(terms, init)->0;
    let dice = hp_dice_codes(terms);
    let r = spec_map_or_intern_hp(field)->0;
    let b0 = init.bits;
    assert(b0 == 0 || b0 == 0x4000000000000000u64);
    assert((b0 & 0xF_FFFF_FFFFu64) >> 0u64 == 0 && b0 & !0xF_FFFF_FFFFu64 == b0) by (bit_vector)
        requires
            b0 == 0 || b0 == 0x4000000000000000u64,
    ;
    assert((9 * 0) as u64 == 0u64);
    lemma_fold_dice(terms, init);
    let base = hp_with_flat(st)->0;
    let sg: u64 = if st.total_flat < 0 {
        HP_FLAT_NEGATIVE_BIT
    } else {
        0
    };
    let mag: u64 = if st.total_flat < 0 {
        (-st.total_flat) as u64
    } else {
        st.total_flat as u64
    };
    assert(base == st.bits | sg | (mag << 36u64)) by {
        let bb = st.bits;
        assert(bb | 0u64 | (mag << 36u64) == bb | (mag << 36u64)) by (bit_vector);
    }
    assert(r & hp_keep_mask() == base & hp_keep_mask()) by {
        if st.vita_falsata {
            lemma_hp_option_code_fits(HP_Options_Type::HP_Vita_Falsata);
            lemma_option_bits(base, HP_Options_Type::HP_Vita_Falsata.spec_code(), st.vita_falsata_val);
        } else if vstd::utf8::encode_utf8(spec_trim(rest)).len() >= 3 {
            lemma_hp_options_keep(spec_trim_set(spec_trim(rest), seq![';', ',', ' ']), base);
        }
    }
    assert forall|i: int| 0 <= i < dice.len() implies hp_die_slot(r, i) == #[trigger] dice[i] by {
        lemma_word_slots(st.bits, sg, mag, r, i as u64);
        assert(((i as u64) * 9) as u64 == (9 * i) as u64);
        assert(hp_die_slot(st.bits, 0 + i) == dice[i]);
    }
    assert forall|i: int| dice.len() <= i < HP_MAX_DICE_COUNT implies #[trigger] hp_die_slot(r, i)
        == 0 by {
        lemma_word_slots(st.bits, sg, mag, r, i as u64);
        lemma_empty_slot(st.bits, st.dice_count, i as u64);
        assert(((i as u64) * 9) as u64 == (9 * i) as u64);
        assert(((st.dice_count as u64) * 9) as u64 == (9 * st.dice_count) as u64);
    }
    lemma_dice_faces(terms);
    assert forall|i: int| 0 <= i < dice.len() implies 1 <= #[trigger] hp_die_slot(r, i) & 7 <= 5 by {
        assert(hp_die_slot(r, i) == dice[i]);
    }
    if -2048 < st.total_flat < 2048 {
        lemma_word_flat(st.bits, b0, sg, mag, r);
        let bb = st.bits;
        assert(base & 0x0FFF_8000_0000_0000u64 == 0 && base & 0x3000_0000_0000_0000u64 == 0) by (bit_vector)
            requires
                bb & !0xF_FFFF_FFFFu64 == b0,
                b0 == 0 || b0 == 0x4000000000000000u64,
                sg == 0 || sg == 0x8000000000000000u64,
                mag < 2048,
                base == bb | sg | (mag << 36u64),
        ;
        assert(r & 0x3000_0000_0000_0000u64 == 0) by {
            let rr = r;
            let bs = base;
            assert(rr & 0xF000_7FFF_FFFF_FFFFu64 == bs & 0xF000_7FFF_FFFF_FFFFu64 && bs & 0x3000_0000_0000_0000u64
                == 0 ==> rr & 0x3000_0000_0000_0000u64 == 0) by (bit_vector);
        }
        if st.vita_falsata {
            lemma_hp_option_code_fits(HP_Options_Type::HP_Vita_Falsata);
            lemma_option_bits(base, HP_Options_Type::HP_Vita_Falsata.spec_code(), st.vita_falsata_val);
        } else if vstd::utf8::encode_utf8(spec_trim(rest)).len() >= 3 {
            lemma_hp_options_keep(spec_trim_set(spec_trim(rest), seq![';', ',', ' ']), base);
        } else {
            let bs = base;
            assert(bs & 0x0FFF_8000_0000_0000u64 == 0 ==> (bs >> 47u64) & 0x7F == 0) by (bit_vector);
        }
    }
}

/// The hit point word does not depend on what stands before the formula:
/// the total written before the first `(` is not stored, so two fields that
/// differ only there give the same word (the page name, which only names the
/// page in messages, takes no part either).
pub proof fn lemma_hp_ignores_total(a: Seq<char>, b: Seq<char>, r: Seq<char>)
    requires
        forall|j: int| 0 <= j < a.len() ==> a[j] != '(',
        forall|j: int| 0 <= j < b.len() ==> b[j] != '(',
        r.len() > 0,
        r[0] == '(',
    ensures
        spec_map_or_intern_hp(a + r) == spec_map_or_intern_hp(b + r),
{
    lemma_first_open_paren(a, r);
    lemma_first_open_paren(b, r);
    assert((a + r).subrange(a.len() as int, (a + r).len() as int) =~= r);
    assert((b + r).subrange(b.len() as int, (b + r).len() as int) =~= r);
}

/// The first `(` of `a + r` is the first character of `r` when `a` holds none.
proof fn lemma_first_open_paren(a: Seq<char>, r: Seq<char>)
    requires
        forall|j: int| 0 <= j < a.len() ==> a[j] != '(',
        r.len() > 0,
        r[0] == '(',
    ensures
        spec_find(a + r, "("@) == Some(a.len() as int),
{
    reveal_strlit("(");
    let s = a + r;
    assert(s.subrange(a.len() as int, (a.len() + 1) as int) =~= "("@);
    assert forall|j: int| 0 <= j < a.len() implies !#[trigger] crate::text::occurs_at(s, "("@, j) by {
        if crate::text::occurs_at(s, "("@, j) {
            assert(s.subrange(j, j + 1)[0] == s[j]);
            assert(s[j] == a[j]);
        }
    }
    crate::text::lemma_find_is(s, "("@, a.len() as int);
}

/// Scanning a formula over characters that are neither `)` nor an operator
/// finds no term.
proof fn lemma_terms_none(z: Seq<char>, start: int, k: int)
    requires
        0 <= k,
        forall|j: int| k <= j < z.len() ==> #[trigger] z[j] != ')' && !hp_is_op(z[j]),
    ensures
        hp_terms_from(z, start, k) == (Seq::<(Seq<char>, char)>::empty(), Seq::<char>::empty()),
    decreases z.len() - k,
{
    if k < z.len() {
        lemma_terms_none(z, start, k + 1);
    }
}

/// White space after a formula changes neither its terms nor, once trimmed,
/// what follows its `)`.
proof fn lemma_terms_trailing_ws(y: Seq<char>, w: Seq<char>, start: int, k: int)
    requires
        0 <= start <= k <= y.len(),
        forall|i: int| 0 <= i < w.len() ==> is_ws(#[trigger] w[i]),
    ensures
        hp_terms_from(y + w, start, k).0 == hp_terms_from(y, start, k).0,
        spec_trim(hp_terms_from(y + w, start, k).1) == spec_trim(hp_terms_from(y, start, k).1),
    decreases y.len() - k,
{
    let z = y + w;
    if k == y.len() {
        assert forall|j: int| k <= j < z.len() implies #[trigger] z[j] != ')' && !hp_is_op(z[j]) by {
            assert(z[j] == w[j - y.len()]);
            assert(is_ws(w[j - y.len()]));
        }
        lemma_terms_none(z, start, k);
    } else {
        assert(z[k] == y[k]);
        assert(z.subrange(start, k) =~= y.subrange(start, k));
        if y[k] == ')' {
            assert(z.subrange(k + 1, z.len() as int) =~= y.subrange(k + 1, y.len() as int) + w);
            crate::text::lemma_trim_append_ws(y.subrange(k + 1, y.len() as int), w);
        } else if hp_is_op(y[k]) {
            lemma_terms_trailing_ws(y, w, k + 1, k + 1);
        } else {
            lemma_terms_trailing_ws(y, w, start, k + 1);
        }
    }
}

/// White space after a formula does not change its word.
proof fn lemma_word_trailing_ws(y: Seq<char>, w: Seq<char>, ira: bool)
    requires
        forall|i: int| 0 <= i < w.len() ==> is_ws(#[trigger] w[i]),
    ensures
        hp_formula_word(y + w, ira) == hp_formula_word(y, ira),
{
    lemma_terms_trailing_ws(y, w, 0, 0);
}

/// A leading `(` is dropped once when what follows does not begin with `(`.
proof fn lemma_skip_open(u: Seq<char>)
    requires
        u.len() == 0 || u[0] != '(',
    ensures
        spec_trim_start_matches("("@ + u, "("@) == u,
{
    reveal_strlit("(");
    reveal_with_fuel(spec_trim_start_matches, 2);
    let s = "("@ + u;
    assert(s.subrange(0, 1) =~= "("@);
    assert(s.subrange(1, s.len() as int) =~= u);
    if u.len() > 0 {
        assert(u.subrange(0, 1)[0] == u[0]);
    }
}


/// The first `DV;` of `k + " DV; " + e` is the one after `k`, when `k`
/// holds none.
proof fn lemma_first_dv(k: Seq<char>, e: Seq<char>)
    requires
        !spec_contains(k, "DV;"@),
    ensures
        spec_find(k + " DV; "@ + e, "DV;"@) == Some(k.len() + 1int),
{
    reveal_strlit("DV;");
    reveal_strlit(" DV; ");
    let u = k + " DV; "@ + e;
    let p = "DV;"@;
    assert(u.subrange(k.len() + 1int, k.len() + 4int) =~= p);
    crate::text::lemma_find_facts(k, p);
    assert forall|j: int| 0 <= j < k.len() + 1 implies !#[trigger] occurs_at(u, p, j) by {
        if occurs_at(u, p, j) {
            if j + 3 <= k.len() {
                assert(k.subrange(j, j + 3) =~= u.subrange(j, j + 3));
                assert(occurs_at(k, p, j));
            } else {
                let c = k.len() - j;
                assert(u[k.len() as int] == ' ');
                assert(u.subrange(j, j + 3)[c] == u[j + c]);
            }
        }
    }
    crate::text::lemma_find_is(u, p, k.len() + 1int);
}

/// The formula text and rage flag of `r2`, the text after the `(`, `DV;`
/// and `DV:` are dealt with (see `spec_hp_formula_text`).
pub open spec fn hp_marker_cut(r2: Seq<char>) -> Option<(Seq<char>, bool)> {
    match spec_find(r2, "\nPF non in ira"@) {
        Some(j) => Some((spec_trim(r2.subrange(0, j)), true)),
        None => Some((r2, false)),
    }
}

/// The `(` of `n + " (" + u` is the one before `u`, and what follows it is
/// `u`, when `n` holds no `(` and `u` does not begin with one.
proof fn lemma_after_open(n: Seq<char>, u: Seq<char>)
    requires
        forall|j: int| 0 <= j < n.len() ==> n[j] != '(',
        u.len() == 0 || u[0] != '(',
    ensures
        spec_find(n + " ("@ + u, "("@) == Some(n.len() + 1int),
        spec_trim_start_matches((n + " ("@ + u).subrange(n.len() + 1int, (n + " ("@ + u).len() as int), "("@)
            == u,
{
    reveal_strlit(" (");
    reveal_strlit(" ");
    reveal_strlit("(");
    let s = n + " ("@ + u;
    let n1 = n + " "@;
    assert(s =~= n1 + ("("@ + u));
    assert forall|j: int| 0 <= j < n1.len() implies n1[j] != '(' by {
        if j < n.len() {
            assert(n1[j] == n[j]);
        }
    }
    lemma_first_open_paren(n1, "("@ + u);
    assert(s.subrange(n1.len() as int, s.len() as int) =~= "("@ + u);
    lemma_skip_open(u);
}

/// `e` without its trailing white space, and that white space.
proof fn lemma_trailing_split(e: Seq<char>) -> (w: Seq<char>)
    ensures
        e == trim_end_by(e, |c: char| is_ws(c)) + w,
        forall|i: int| 0 <= i < w.len() ==> is_ws(#[trigger] w[i]),
{
    let f = |c: char| is_ws(c);
    let y = trim_end_by(e, f);
    crate::text::lemma_trim_end_prefix(e, f);
    let w = e.subrange(y.len() as int, e.len() as int);
    assert(e =~= y + w);
    assert forall|i: int| 0 <= i < w.len() implies is_ws(#[trigger] w[i]) by {
        assert(w[i] == e[i + y.len()]);
        assert(f(e[i + y.len()]));
    }
    w
}


/// Stripping leading `(` from `a + b`, where `b` does not begin with `(`,
/// strips them from `a` alone.
proof fn lemma_strip_open_append(a: Seq<char>, b: Seq<char>)
    requires
        b.len() == 0 || b[0] != '(',
    ensures
        spec_trim_start_matches(a + b, "("@) == spec_trim_start_matches(a, "("@) + b,
    decreases a.len(),
{
    reveal_strlit("(");
    let z = a + b;
    if a.len() > 0 {
        assert(z.subrange(0, 1)[0] == a[0]);
        assert(a.subrange(0, 1)[0] == a[0]);
        if a[0] == '(' {
            assert(z.subrange(0, 1) =~= "("@);
            assert(a.subrange(0, 1) =~= "("@);
            assert(z.subrange(1, z.len() as int) =~= a.subrange(1, a.len() as int) + b);
            lemma_strip_open_append(a.subrange(1, a.len() as int), b);
        }
    } else {
        assert(z =~= b);
        if b.len() > 0 {
            assert(b.subrange(0, 1)[0] == b[0]);
        }
    }
}

/// Stripping leading `(` leaves a suffix of the text.
proof fn lemma_strip_open_suffix(s: Seq<char>)
    ensures
        ({
            let r = spec_trim_start_matches(s, "("@);
            r.len() <= s.len() && r == s.subrange(s.len() - r.len(), s.len() as int)
        }),
    decreases s.len(),
{
    reveal_strlit("(");
    if 1 <= s.len() && s.subrange(0, 1) == "("@ {
        lemma_strip_open_suffix(s.subrange(1, s.len() as int));
        let r = spec_trim_start_matches(s, "("@);
        assert(s.subrange(1, s.len() as int).subrange(s.len() - 1 - r.len(), s.len() - 1) =~= s.subrange(
            s.len() - r.len(),
            s.len() as int,
        ));
    } else {
        assert(s.subrange(0, s.len() as int) =~= s);
    }
}

/// What does not occur in a text does not occur in a part of it.
proof fn lemma_part_find(e: Seq<char>, a: int, b: int, p: Seq<char>)
    requires
        0 <= a <= b <= e.len(),
        spec_find(e, p) is None,
    ensures
        spec_find(e.subrange(a, b), p) is None,
{
    let y = e.subrange(a, b);
    crate::text::lemma_find_facts(e, p);
    crate::text::lemma_find_facts(y, p);
    if let Some(j) = spec_find(y, p) {
        assert(e.subrange(a + j, a + j + p.len()) =~= y.subrange(j, j + p.len()));
        assert(occurs_at(e, p, a + j));
    }
}

/// The first `(` of `n + "(" + u`, with `n` holding none, is the one before
/// `u`; stripping the leading `(` after it leaves `u` stripped.
proof fn lemma_open_at(n: Seq<char>, u: Seq<char>)
    requires
        forall|j: int| 0 <= j < n.len() ==> n[j] != '(',
    ensures
        spec_find(n + "("@ + u, "("@) == Some(n.len() as int),
        spec_trim_start_matches((n + "("@ + u).subrange(n.len() as int, (n + "("@ + u).len() as int), "("@)
            == spec_trim_start_matches(u, "("@),
{
    reveal_strlit("(");
    let s = n + "("@ + u;
    assert(s =~= n + ("("@ + u));
    lemma_first_open_paren(n, "("@ + u);
    let r = "("@ + u;
    assert(s.subrange(n.len() as int, s.len() as int) =~= r);
    assert(r.subrange(0, 1) =~= "("@);
    assert(r.subrange(1, r.len() as int) =~= u);
}

/// The left field of the `DV;` law: its formula text is cut from `e` trimmed.
proof fn lemma_dv_left(n: Seq<char>, k: Seq<char>, e: Seq<char>)
    requires
        forall|j: int| 0 <= j < n.len() ==> n[j] != '(',
        forall|j: int| 0 <= j < k.len() ==> k[j] != '(',
        !spec_contains(k, "DV;"@),
        !spec_contains(e, "DV:"@),
    ensures
        spec_hp_formula_text(n + " ("@ + k + " DV; "@ + e) == hp_marker_cut(spec_trim(e)),
{
    reveal_strlit(" DV; ");
    reveal_strlit(" ");
    let u = k + " DV; "@ + e;
    assert(n + " ("@ + k + " DV; "@ + e =~= n + " ("@ + u);
    if k.len() > 0 {
        assert(u[0] == k[0]);
    } else {
        assert(u[0] == ' ');
    }
    lemma_after_open(n, u);
    lemma_first_dv(k, e);
    let after = u.subrange(k.len() + 4int, u.len() as int);
    assert(after =~= " "@ + e);
    assert forall|i: int| 0 <= i < " "@.len() implies is_ws(#[trigger] " "@[i]) by {}
    crate::text::lemma_trim_prepend_ws(" "@, e);
    let f = |c: char| is_ws(c);
    crate::text::lemma_trim_start_suffix(e, f);
    let ts = crate::text::trim_start_by(e, f);
    crate::text::lemma_trim_end_prefix(ts, f);
    let y = spec_trim(e);
    let a = e.len() - ts.len();
    assert(y == e.subrange(a, a + y.len())) by {
        assert(e.subrange(a, a + y.len()) =~= ts.subrange(0, y.len() as int));
    }
    crate::text::lemma_find_facts(e, "DV:"@);
    lemma_part_find(e, a, a + y.len(), "DV:"@);
}

/// The right field of the `DV;` law: its formula text is cut from `e`.
proof fn lemma_dv_right(n: Seq<char>, e: Seq<char>)
    requires
        forall|j: int| 0 <= j < n.len() ==> n[j] != '(',
        e.len() == 0 || e[0] != '(',
        !spec_contains(e, "DV;"@),
        !spec_contains(e, "DV:"@),
    ensures
        spec_hp_formula_text(n + " ("@ + e) == hp_marker_cut(e),
{
    lemma_after_open(n, e);
    crate::text::lemma_find_facts(e, "DV;"@);
    crate::text::lemma_find_facts(e, "DV:"@);
}

/// Cutting `e` and its trim at the rage note gives the same word, unless the
/// note follows nothing but white space.
proof fn lemma_cut_trim(e: Seq<char>)
    requires
        spec_find(e, "\nPF non in ira"@) matches Some(j) ==> exists|i: int| 0 <= i < j && !is_ws(#[trigger] e[i]),
    ensures
        ({
            let a = hp_marker_cut(spec_trim(e))->0;
            let b = hp_marker_cut(e)->0;
            hp_formula_word(a.0, a.1) == hp_formula_word(b.0, b.1)
        }),
{
    reveal_strlit("\nPF non in ira");
    let m = "\nPF non in ira"@;
    let f = |c: char| is_ws(c);
    crate::text::lemma_trim_start_suffix(e, f);
    let ts = crate::text::trim_start_by(e, f);
    crate::text::lemma_trim_end_prefix(ts, f);
    let y = spec_trim(e);
    let a = e.len() - ts.len();
    assert(y == e.subrange(a, a + y.len())) by {
        assert(e.subrange(a, a + y.len()) =~= ts.subrange(0, y.len() as int));
    }
    assert forall|i: int| 0 <= i < a implies is_ws(#[trigger] e[i]) by {
        assert(f(e[i]));
    }
    assert forall|i: int| a + y.len() <= i < e.len() implies is_ws(#[trigger] e[i]) by {
        assert(ts[i - a] == e[i]);
        assert(f(ts[i - a]));
    }
    crate::text::lemma_find_facts(e, m);
    crate::text::lemma_find_facts(y, m);
    if let Some(j) = spec_find(e, m) {
        let i0 = choose|i: int| 0 <= i < j && !is_ws(#[trigger] e[i]);
        assert(a <= i0);
        assert(e.subrange(j, j + 14)[13] == e[j + 13]);
        assert(!is_ws(e[j + 13]));
        assert(j + 14 <= a + y.len());
        let jy = j - a;
        assert(y.subrange(jy, jy + 14) =~= e.subrange(j, j + 14));
        assert forall|i: int| 0 <= i < jy implies !#[trigger] occurs_at(y, m, i) by {
            if occurs_at(y, m, i) {
                assert(e.subrange(a + i, a + i + 14) =~= y.subrange(i, i + 14));
                assert(occurs_at(e, m, a + i));
            }
        }
        crate::text::lemma_find_is(y, m, jy);
        let pre = e.subrange(0, a);
        assert(e.subrange(0, j) =~= pre + y.subrange(0, jy));
        assert forall|i: int| 0 <= i < pre.len() implies is_ws(#[trigger] pre[i]) by {
            assert(pre[i] == e[i]);
        }
        crate::text::lemma_trim_prepend_ws(pre, y.subrange(0, jy));
    } else {
        lemma_part_find(e, a, a + y.len(), m);
        lemma_word_trim(e, false);
    }
}

/// An `X DV;` prefix inside the formula is dropped: a field
/// `n (k DV; e)...` gives the word of `n (e)...`. This holds where `n` and
/// `k` hold no `(`, `k` no `DV;`, `e` does not begin with `(` and holds
/// neither `DV;` nor `DV:`, and a rage note in `e`, if any, does not follow
/// nothing but white space.
pub proof fn lemma_hp_drops_dv(n: Seq<char>, k: Seq<char>, e: Seq<char>)
    requires
        forall|j: int| 0 <= j < n.len() ==> n[j] != '(',
        forall|j: int| 0 <= j < k.len() ==> k[j] != '(',
        !spec_contains(k, "DV;"@),
        e.len() == 0 || e[0] != '(',
        !spec_contains(e, "DV;"@),
        !spec_contains(e, "DV:"@),
        spec_find(e, "\nPF non in ira"@) matches Some(j) ==> exists|i: int| 0 <= i < j && !is_ws(#[trigger] e[i]),
    ensures
        spec_map_or_intern_hp(n + " ("@ + k + " DV; "@ + e) == spec_map_or_intern_hp(n + " ("@ + e),
{
    lemma_dv_left(n, k, e);
    lemma_dv_right(n, e);
    lemma_cut_trim(e);
}

/// Setting the rage bit first or last gives the same word.
proof fn lemma_or_ira()
    ensures
        forall|b: u64, k: u64| #[trigger] ((b | 0x4000000000000000u64) | k) == ((b | k) | 0x4000000000000000u64),
{
    assert forall|b: u64, k: u64| #[trigger] ((b | 0x4000000000000000u64) | k) == ((b | k) | 0x4000000000000000u64) by {
        assert(((b | 0x4000000000000000u64) | k) == ((b | k) | 0x4000000000000000u64)) by (bit_vector);
    }
}

/// A state with the rage bit added.
pub open spec fn hp_with_ira(st: HpState) -> HpState {
    HpState { bits: st.bits | HP_IRA_BIT, ..st }
}

/// Folding from a state with the rage bit added gives the state folded
/// without it, with the rage bit added.
proof fn lemma_fold_ira(terms: Seq<(Seq<char>, char)>, st: HpState)
    ensures
        hp_fold(terms, hp_with_ira(st)) == match hp_fold(terms, st) {
            Some(r) => Some(hp_with_ira(r)),
            None => None,
        },
    decreases terms.len(),
{
    lemma_or_ira();
    if terms.len() > 0 {
        match hp_step(st, terms[0].0, terms[0].1) {
            Some(next) => {
                assert(hp_step(hp_with_ira(st), terms[0].0, terms[0].1) == Some(hp_with_ira(next)));
                lemma_fold_ira(terms.drop_first(), next);
            },
            None => {},
        }
    }
}

/// The word of a formula that notes a rage is the word without the note,
/// with the rage bit set.
proof fn lemma_word_ira(x: Seq<char>)
    ensures
        hp_formula_word(x, true) == match hp_formula_word(x, false) {
            Some(w) => Some(w | HP_IRA_BIT),
            None => None,
        },
{
    lemma_or_ira();
    let (terms, rest) = hp_terms_from(x, 0, 0);
    assert(hp_initial_state(true) == hp_with_ira(hp_initial_state(false))) by {
        assert(0u64 | 0x4000000000000000u64 == 0x4000000000000000u64) by (bit_vector);
    }
    lemma_fold_ira(terms, hp_initial_state(false));
    if let Some(st) = hp_fold(terms, hp_initial_state(false)) {
        let sti = hp_with_ira(st);
        if st.total_flat < 0 && st.total_flat != i64::MIN {
            let mag = ((-st.total_flat) as u64) << HP_FLAT_OFFSET;
            assert(((st.bits | HP_IRA_BIT) | HP_FLAT_NEGATIVE_BIT) | mag == ((st.bits | HP_FLAT_NEGATIVE_BIT)
                | mag) | HP_IRA_BIT);
        }
        if let Some(base) = hp_with_flat(st) {
            assert(hp_with_flat(sti) == Some(base | HP_IRA_BIT));
            if !st.vita_falsata && vstd::utf8::encode_utf8(spec_trim(rest)).len() >= 3 {
                lemma_options_ira(spec_trim_set(spec_trim(rest), seq![';', ',', ' ']), base);
            }
        }
    }
}

/// The abilities after a formula add the same bits whether or not the rage
/// bit is already set.
proof fn lemma_options_ira(s: Seq<char>, base: u64)
    ensures
        spec_hp_options(s, base | HP_IRA_BIT) == match spec_hp_options(s, base) {
            Some(w) => Some(w | HP_IRA_BIT),
            None => None,
        },
{
    lemma_or_ira();
}

/// A text in which `p` does not occur, nor in `b`, keeps it out of
/// `a + m + b` when `m` is at least as long as `p` and holds none of its
/// characters.
proof fn lemma_no_occ_across(a: Seq<char>, m: Seq<char>, b: Seq<char>, p: Seq<char>)
    requires
        !spec_contains(a, p),
        !spec_contains(b, p),
        p.len() > 0,
        m.len() >= p.len(),
        forall|i: int, k: int| 0 <= i < m.len() && 0 <= k < p.len() ==> m[i] != p[k],
    ensures
        !spec_contains(a + m + b, p),
{
    let s = a + m + b;
    crate::text::lemma_find_facts(a, p);
    crate::text::lemma_find_facts(b, p);
    crate::text::lemma_find_facts(s, p);
    if let Some(j) = spec_find(s, p) {
        if j + p.len() <= a.len() {
            assert(a.subrange(j, j + p.len()) =~= s.subrange(j, j + p.len()));
            assert(occurs_at(a, p, j));
        } else if j >= a.len() + m.len() {
            let jb = j - a.len() - m.len();
            assert(b.subrange(jb, jb + p.len()) =~= s.subrange(j, j + p.len()));
            assert(occurs_at(b, p, jb));
        } else {
            // the window meets `m`
            let c: int = if j >= a.len() { j } else { a.len() as int };
            assert(s.subrange(j, j + p.len())[c - j] == s[c]);
            assert(s[c] == m[c - a.len()]);
        }
    }
}


/// Scanning `p + x` past `p` reads the terms of `x`.
proof fn lemma_terms_shift(p: Seq<char>, x: Seq<char>, a: int, b: int)
    requires
        0 <= a <= b <= x.len(),
    ensures
        hp_terms_from(p + x, p.len() + a, p.len() + b) == hp_terms_from(x, a, b),
    decreases x.len() - b,
{
    let z = p + x;
    if b < x.len() {
        assert(z[p.len() + b] == x[b]);
        assert(z.subrange(p.len() + a, p.len() + b) =~= x.subrange(a, b));
        if x[b] == ')' {
            assert(z.subrange(p.len() + b + 1, z.len() as int) =~= x.subrange(b + 1, x.len() as int));
        } else if hp_is_op(x[b]) {
            lemma_terms_shift(p, x, b + 1, b + 1);
            assert(p.len() + b + 1 == p.len() + (b + 1));
        } else {
            lemma_terms_shift(p, x, a, b + 1);
            assert(p.len() + b + 1 == p.len() + (b + 1));
        }
    }
}

/// White space before a formula goes into its first term and changes
/// nothing else.
proof fn lemma_terms_leading(p: Seq<char>, x: Seq<char>, k: int)
    requires
        0 <= k <= x.len(),
    ensures
        ({
            let t1 = hp_terms_from(p + x, 0, p.len() + k);
            let t2 = hp_terms_from(x, 0, k);
            &&& t1.1 == t2.1
            &&& t1.0.len() == t2.0.len()
            &&& t2.0.len() > 0 ==> t1.0[0] == (p + t2.0[0].0, t2.0[0].1) && t1.0.drop_first()
                == t2.0.drop_first()
        }),
    decreases x.len() - k,
{
    let z = p + x;
    if k < x.len() {
        assert(z[p.len() + k] == x[k]);
        assert(z.subrange(0, p.len() + k) =~= p + x.subrange(0, k));
        if x[k] == ')' {
            assert(z.subrange(p.len() + k + 1, z.len() as int) =~= x.subrange(k + 1, x.len() as int));
        } else if hp_is_op(x[k]) {
            lemma_terms_shift(p, x, k + 1, k + 1);
            assert(p.len() + k + 1 == p.len() + (k + 1));
            let tail = hp_terms_from(x, k + 1, k + 1).0;
            assert((seq![(z.subrange(0, p.len() + k), x[k])] + tail).drop_first() =~= tail);
            assert((seq![(x.subrange(0, k), x[k])] + tail).drop_first() =~= tail);
        } else {
            lemma_terms_leading(p, x, k + 1);
            assert(p.len() + k + 1 == p.len() + (k + 1));
        }
    }
}

/// Scanning over characters that are neither `)` nor an operator reads
/// nothing.
proof fn lemma_terms_skip(z: Seq<char>, st: int, k: int, m: int)
    requires
        0 <= k <= m <= z.len(),
        forall|j: int| k <= j < m ==> #[trigger] z[j] != ')' && !hp_is_op(z[j]),
    ensures
        hp_terms_from(z, st, k) == hp_terms_from(z, st, m),
    decreases m - k,
{
    if k < m {
        lemma_terms_skip(z, st, k + 1, m);
    }
}

/// White space before a formula does not change its word.
proof fn lemma_word_leading_ws(p: Seq<char>, x: Seq<char>, ira: bool)
    requires
        forall|i: int| 0 <= i < p.len() ==> is_ws(#[trigger] p[i]),
    ensures
        hp_formula_word(p + x, ira) == hp_formula_word(x, ira),
{
    lemma_terms_leading(p, x, 0);
    assert(p.len() + 0 == p.len());
    assert forall|j: int| 0 <= j < p.len() implies #[trigger] (p + x)[j] != ')' && !hp_is_op((p + x)[j]) by {
        assert((p + x)[j] == p[j]);
        assert(is_ws(p[j]));
    }
    lemma_terms_skip(p + x, 0, 0, p.len() as int);
    let t1 = hp_terms_from(p + x, 0, 0).0;
    let t2 = hp_terms_from(x, 0, 0).0;
    if t2.len() > 0 {
        crate::text::lemma_trim_prepend_ws(p, t2[0].0);
        assert(hp_fold(t1, hp_initial_state(ira)) == hp_fold(t2, hp_initial_state(ira)));
    } else {
        assert(t1 =~= t2);
    }
}

/// Trimming a formula does not change its word.
proof fn lemma_word_trim(x: Seq<char>, ira: bool)
    ensures
        hp_formula_word(spec_trim(x), ira) == hp_formula_word(x, ira),
{
    let f = |c: char| is_ws(c);
    crate::text::lemma_trim_start_suffix(x, f);
    let ts = crate::text::trim_start_by(x, f);
    let pl = x.len() - ts.len();
    let p = x.subrange(0, pl);
    assert(x =~= p + ts);
    assert forall|i: int| 0 <= i < p.len() implies is_ws(#[trigger] p[i]) by {
        assert(p[i] == x[i]);
        assert(f(x[i]));
    }
    lemma_word_leading_ws(p, ts, ira);
    let w = lemma_trailing_split(ts);
    lemma_word_trailing_ws(trim_end_by(ts, f), w, ira);
}

/// A field noting a rage: a field `f` followed by `\nPF non in ira ` and any
/// `t` gives the word of `f` with the rage bit (bit 62) set; what follows the
/// note is ignored. Here `f` is `n (e`, `n` the text before its first `(`;
/// this holds where `e` holds none of `DV;`, `DV:` and the note, and `t`
/// holds neither `DV;` nor `DV:`.
pub proof fn lemma_hp_rage_note(n: Seq<char>, e: Seq<char>, t: Seq<char>)
    requires
        forall|j: int| 0 <= j < n.len() ==> n[j] != '(',
        !spec_contains(e, "DV;"@),
        !spec_contains(e, "DV:"@),
        !spec_contains(e, "\nPF non in ira"@),
        !spec_contains(t, "DV;"@),
        !spec_contains(t, "DV:"@),
    ensures
        spec_map_or_intern_hp(n + "("@ + e + "\nPF non in ira "@ + t) == match spec_map_or_intern_hp(
            n + "("@ + e,
        ) {
            Some(w) => Some(w | HP_IRA_BIT),
            None => None,
        },
{
    reveal_strlit("\nPF non in ira ");
    reveal_strlit("\nPF non in ira");
    reveal_strlit("DV;");
    reveal_strlit("DV:");
    let mm = "\nPF non in ira "@;
    let m = "\nPF non in ira"@;
    // the text after the first `(`, stripped of leading `(`
    let e1 = spec_trim_start_matches(e, "("@);
    lemma_strip_open_suffix(e);
    let off = e.len() - e1.len();
    crate::text::lemma_find_facts(e, "DV;"@);
    crate::text::lemma_find_facts(e, "DV:"@);
    crate::text::lemma_find_facts(e, m);
    lemma_part_find(e, off, e.len() as int, "DV;"@);
    lemma_part_find(e, off, e.len() as int, "DV:"@);
    lemma_part_find(e, off, e.len() as int, m);
    crate::text::lemma_find_facts(e1, "DV;"@);
    crate::text::lemma_find_facts(e1, "DV:"@);
    crate::text::lemma_find_facts(e1, m);
    // the right field
    lemma_open_at(n, e);
    // the left field
    let u = e + mm + t;
    assert(n + "("@ + e + mm + t =~= n + "("@ + u);
    lemma_open_at(n, u);
    assert(u =~= e + (mm + t));
    lemma_strip_open_append(e, mm + t);
    assert(e1 + (mm + t) =~= e1 + mm + t);
    let v = e1 + mm + t;
    lemma_no_occ_across(e1, mm, t, "DV;"@);
    lemma_no_occ_across(e1, mm, t, "DV:"@);
    crate::text::lemma_find_facts(v, "DV;"@);
    crate::text::lemma_find_facts(v, "DV:"@);
    // the note is found where it was put
    assert(v.subrange(e1.len() as int, e1.len() + 14int) =~= m);
    assert forall|j: int| 0 <= j < e1.len() implies !#[trigger] occurs_at(v, m, j) by {
        if occurs_at(v, m, j) {
            if j + 14 <= e1.len() {
                assert(e1.subrange(j, j + 14) =~= v.subrange(j, j + 14));
                assert(occurs_at(e1, m, j));
            } else {
                assert(v.subrange(j, j + 14)[e1.len() - j] == v[e1.len() as int]);
                assert(v[e1.len() as int] == '\n');
            }
        }
    }
    crate::text::lemma_find_is(v, m, e1.len() as int);
    assert(v.subrange(0, e1.len() as int) =~= e1);
    lemma_word_trim(e1, true);
    lemma_word_ira(e1);
}

} // verus!
