use vstd::prelude::*;

use crate::parse_util::{byte_len_exceeds, lemma_comma_blocks_facts, lemma_split_all_nonempty, list_trim_set, spec_comma_blocks};
use crate::text::{
    after_first, chars_of, find_chars_from, nth_word, parse_uint, spec_find, spec_parse_uint,
    spec_trim, spec_trim_set, split_all, split_first, split_piece0, str_eq, trim_set_str, trim_str,
    lemma_find_some,
};

verus! {

// A resistance is a 4-bit type and a 6-bit value; one 64-bit word holds up to
// six of them, the first in bits 0 to 9, the next in bits 10 to 19, and so on.
// Bits 60 to 63 are unused.

/// Index of the resistances in the defense fields of a stat block.
pub const RES_IDX_IN_ARR: usize = 6;

pub const RES_SENTINEL_VALUE: u64 = 0xFFFFFFFFFFFFFFFF;

pub const RES_SINGLE_BIT_LEN: u64 = 10;

pub const RES_MAX_COUNT: u64 = 6;

pub const RES_ACID_TYPE: u64 = 0x0040;

pub const RES_FIRE_TYPE: u64 = 0x0080;

pub const RES_COLD_TYPE: u64 = 0x00C0;

pub const RES_ELEC_TYPE: u64 = 0x0100;

pub const RES_SOUND_TYPE: u64 = 0x0140;

pub const RES_POS_TYPE: u64 = 0x0180;

pub const RES_NEG_TYPE: u64 = 0x01C0;

pub const RES_CHAN_TYPE: u64 = 0x0200;

pub const RES_ADAP_TYPE: u64 = 0x0240;

pub const RES_ALL_TYPE: u64 = 0x0280;

pub const RES_POS_50_TYPE: u64 = 0x02C0;

pub const RES_PSN_TYPE: u64 = 0x0300;

pub const RES_SNAKESKIN_TYPE: u64 = 0x0340;

pub const RES_MAX_VALUE: u64 = 0x3F;

/// A resistance of type `ty` whose value is the word at position `k` of
/// `block`; `None` when that word is not a number up to `RES_MAX_VALUE`.
pub open spec fn spec_resistance_with_value(block: Seq<char>, k: nat, ty: u64) -> Option<u64> {
    match spec_parse_uint(nth_word(block, k), u64::MAX as nat) {
        Some(v) => if v <= RES_MAX_VALUE {
            Some(ty | (v as u64))
        } else {
            None
        },
        None => None,
    }
}

/// The code of one resistance such as `Fuoco 10` or `Resistenza ad
/// Incanalare 4`; `None` for a text that names no known resistance or lacks
/// its value.
pub open spec fn spec_single_resistance(block: Seq<char>) -> Option<u64> {
    let w0 = nth_word(block, 0);
    let w1 = nth_word(block, 1);
    let w2 = nth_word(block, 2);
    if w0 == "Acido"@ || w0 == "acido"@ {
        spec_resistance_with_value(block, 1, RES_ACID_TYPE)
    } else if w0 == "Fuoco"@ || w0 == "fuoco"@ {
        spec_resistance_with_value(block, 1, RES_FIRE_TYPE)
    } else if w0 == "Freddo"@ || w0 == "freddo"@ {
        spec_resistance_with_value(block, 1, RES_COLD_TYPE)
    } else if w0 == "Elettricità"@ || w0 == "elettricità"@ {
        spec_resistance_with_value(block, 1, RES_ELEC_TYPE)
    } else if w0 == "Sonoro"@ || w0 == "sonoro"@ {
        spec_resistance_with_value(block, 1, RES_SOUND_TYPE)
    } else if w0 == "Energia"@ || w0 == "Energie"@ || w0 == "energie"@ || w0 == "energia"@ {
        if w1 == "Positiva"@ || w1 == "positiva"@ {
            if block == "Energia Positiva (50%)"@ {
                Some(RES_POS_50_TYPE)
            } else {
                spec_resistance_with_value(block, 2, RES_POS_TYPE)
            }
        } else if w1 == "Negativa"@ || w1 == "negativa"@ {
            spec_resistance_with_value(block, 2, RES_NEG_TYPE)
        } else if w1 == "(Tutte)"@ {
            spec_resistance_with_value(block, 2, RES_ALL_TYPE)
        } else {
            None
        }
    } else if w0 == "Resistenza"@ || w0 == "resistenza"@ {
        if w1 == "Adattiva"@ || w1 == "adattiva"@ {
            spec_resistance_with_value(block, 2, RES_ADAP_TYPE)
        } else if w1 == "ad"@ {
            if w2 == "Incanalare"@ {
                spec_resistance_with_value(block, 3, RES_CHAN_TYPE)
            } else {
                None
            }
        } else if w1 == "al"@ {
            if w2 == "Veleno"@ {
                Some(RES_PSN_TYPE)
            } else {
                None
            }
        } else {
            None
        }
    } else if w0 == "Pelle"@ {
        if block == "Pelle di Serpente"@ {
            Some(RES_SNAKESKIN_TYPE)
        } else {
            None
        }
    } else {
        None
    }
}

proof fn lemma_words(block: Seq<char>)
    ensures
        nth_word(block, 1) == split_piece0(after_first(block, " "@), " "@),
        nth_word(block, 2) == split_piece0(after_first(after_first(block, " "@), " "@), " "@),
        nth_word(block, 3) == split_piece0(
            after_first(after_first(after_first(block, " "@), " "@), " "@),
            " "@,
        ),
{
    reveal_with_fuel(nth_word, 4);
}

fn resistance_with_value(word: &str, ty: u64) -> (r: Option<u64>)
    ensures
        r == (match spec_parse_uint(word@, u64::MAX as nat) {
            Some(v) => if v <= RES_MAX_VALUE {
                Some(ty | (v as u64))
            } else {
                None
            },
            None => None,
        }),
{
    match parse_uint(word, u64::MAX) {
        Some(v) => {
            if v <= RES_MAX_VALUE {
                Some(ty | v)
            } else {
                None
            }
        },
        None => None,
    }
}

pub fn parse_single_resistance(block: &str, page_name: &str) -> (r: Option<u64>)
    ensures
        r == spec_single_resistance(block@),
{
    proof {
        lemma_words(block@);
    }
    let (w0, rest1) = split_first(block, " ");
    let (w1, rest2) = split_first(rest1, " ");
    let (w2, rest3) = split_first(rest2, " ");
    let (w3, _rest4) = split_first(rest3, " ");
    assert(w0@ == nth_word(block@, 0));
    if str_eq(w0, "Acido") || str_eq(w0, "acido") {
        return resistance_with_value(w1, RES_ACID_TYPE);
    }
    if str_eq(w0, "Fuoco") || str_eq(w0, "fuoco") {
        return resistance_with_value(w1, RES_FIRE_TYPE);
    }
    if str_eq(w0, "Freddo") || str_eq(w0, "freddo") {
        return resistance_with_value(w1, RES_COLD_TYPE);
    }
    if str_eq(w0, "Elettricità") || str_eq(w0, "elettricità") {
        return resistance_with_value(w1, RES_ELEC_TYPE);
    }
    if str_eq(w0, "Sonoro") || str_eq(w0, "sonoro") {
        return resistance_with_value(w1, RES_SOUND_TYPE);
    }
    if str_eq(w0, "Energia") || str_eq(w0, "Energie") || str_eq(w0, "energie") || str_eq(
        w0,
        "energia",
    ) {
        if str_eq(w1, "Positiva") || str_eq(w1, "positiva") {
            if str_eq(block, "Energia Positiva (50%)") {
                return Some(RES_POS_50_TYPE);
            }
            return resistance_with_value(w2, RES_POS_TYPE);
        }
        if str_eq(w1, "Negativa") || str_eq(w1, "negativa") {
            return resistance_with_value(w2, RES_NEG_TYPE);
        }
        if str_eq(w1, "(Tutte)") {
            return resistance_with_value(w2, RES_ALL_TYPE);
        }
        return None;
    }
    if str_eq(w0, "Resistenza") || str_eq(w0, "resistenza") {
        if str_eq(w1, "Adattiva") || str_eq(w1, "adattiva") {
            return resistance_with_value(w2, RES_ADAP_TYPE);
        }
        if str_eq(w1, "ad") {
            if str_eq(w2, "Incanalare") {
                return resistance_with_value(w3, RES_CHAN_TYPE);
            }
            return None;
        }
        if str_eq(w1, "al") {
            if str_eq(w2, "Veleno") {
                return Some(RES_PSN_TYPE);
            }
            return None;
        }
        return None;
    }
    if str_eq(w0, "Pelle") {
        if str_eq(block, "Pelle di Serpente") {
            return Some(RES_SNAKESKIN_TYPE);
        }
        return None;
    }
    None
}

/// Each of `blocks` as a resistance code, when all of them are known.
pub open spec fn spec_parse_resistances(blocks: Seq<Seq<char>>) -> Option<Seq<u64>> {
    if forall|i: int| 0 <= i < blocks.len() ==> #[trigger] spec_single_resistance(blocks[i]) is Some {
        Some(Seq::new(blocks.len(), |i: int| spec_single_resistance(blocks[i])->0))
    } else {
        None
    }
}

/// The codes packed ten bits apart, the first in the lowest bits.
pub open spec fn spec_pack_resistances(codes: Seq<u64>) -> u64
    decreases codes.len(),
{
    if codes.len() == 0 {
        0
    } else {
        spec_pack_resistances(codes.drop_last()) | (codes.last() << ((10 * (codes.len() - 1)) as u64))
    }
}

/// The word for a resistance field: the sentinel for an empty field or `-`,
/// the packed codes otherwise; `None` for a field with more than six
/// resistances or one that is not known.
pub open spec fn spec_map_resistances(field: Seq<char>) -> Option<u64> {
    if field == ""@ || field == "-"@ {
        Some(RES_SENTINEL_VALUE)
    } else {
        let blocks = spec_comma_blocks(field);
        if blocks.len() > RES_MAX_COUNT {
            None
        } else {
            match spec_parse_resistances(blocks) {
                Some(codes) => Some(spec_pack_resistances(codes)),
                None => None,
            }
        }
    }
}

proof fn lemma_resistances_result(field: Seq<char>, done: Seq<u64>)
    requires
        field != ""@,
        field != "-"@,
        spec_comma_blocks(field).len() == done.len(),
        done.len() <= RES_MAX_COUNT,
        forall|i: int|
            0 <= i < done.len() ==> #[trigger] spec_single_resistance(spec_comma_blocks(field)[i]) is Some
                && done[i] == spec_single_resistance(spec_comma_blocks(field)[i])->0,
    ensures
        spec_map_resistances(field) == Some(spec_pack_resistances(done)),
{
    let blocks = spec_comma_blocks(field);
    assert(done =~= Seq::new(blocks.len(), |i: int| spec_single_resistance(blocks[i])->0));
}

proof fn lemma_resistances_fail(field: Seq<char>, k: int)
    requires
        field != ""@,
        field != "-"@,
        0 <= k < spec_comma_blocks(field).len(),
        spec_single_resistance(spec_comma_blocks(field)[k]) is None,
    ensures
        spec_map_resistances(field) is None,
{
}

/// `prepare_and_map_resistances`, or `None` where the field holds more than
/// six resistances or one that is not known.
#[verifier::rlimit(50)]
pub fn try_prepare_and_map_resistances(defenses: &mut Vec<&str>, res_off: usize, page_name: &str) -> (r:
    Option<u64>)
    requires
        RES_IDX_IN_ARR + res_off < old(defenses)@.len(),
    ensures
        final(defenses)@ == old(defenses)@,
        r == spec_map_resistances(old(defenses)@[RES_IDX_IN_ARR + res_off]@),
{
    let len = defenses.len();
    let field: &str = defenses[RES_IDX_IN_ARR + res_off];
    if str_eq(field, "") || str_eq(field, "-") {
        return Some(RES_SENTINEL_VALUE);
    }
    let trim_check = vec![' ', ',', ';', '.'];
    assert(trim_check@ =~= list_trim_set());
    let base = trim_set_str(field, trim_check.as_slice());
    let v = chars_of(base);
    let comma = vec![','];
    proof {
        reveal_strlit(",");
        assert(comma@ =~= ","@);
        assert(","@ =~= seq![',']);
    }
    let n = v.len();
    let ghost parts = split_all(base@, ","@);
    let ghost blocks = spec_comma_blocks(field@);
    proof {
        lemma_split_all_nonempty(base@, ","@);
        assert(v@.subrange(0, n as int) =~= v@);
        assert(parts.subrange(0, parts.len() as int) =~= parts);
    }
    let mut result: u64 = 0;
    let mut res_count: u64 = 0;
    let mut start: usize = 0;
    let ghost mut done: Seq<u64> = Seq::empty();
    loop
        invariant
            n == v@.len(),
            v@ == base@,
            field@ != ""@,
            field@ != "-"@,
            RES_IDX_IN_ARR + res_off < old(defenses)@.len(),
            old(defenses)@[RES_IDX_IN_ARR + res_off] == field,
            defenses@ == old(defenses)@,
            comma@ == ","@,
            ","@ == seq![','],
            parts == split_all(base@, ","@),
            blocks == spec_comma_blocks(field@),
            base@ == spec_trim_set(field@, list_trim_set()),
            start <= n,
            res_count <= RES_MAX_COUNT,
            res_count < parts.len(),
            split_all(v@.subrange(start as int, n as int), ","@) == parts.subrange(
                res_count as int,
                parts.len() as int,
            ),
            done.len() == res_count,
            forall|i: int| 0 <= i < res_count ==> #[trigger] done[i] == spec_single_resistance(spec_trim(parts[i]))->0
                && spec_single_resistance(spec_trim(parts[i])) is Some,
            result == spec_pack_resistances(done),
        ensures
            parts.len() == res_count + 1,
            parts.last() == v@.subrange(start as int, n as int),
        decreases n - start,
    {
        let ghost sub = v@.subrange(start as int, n as int);
        match find_chars_from(v.as_slice(), comma.as_slice(), start) {
            Some(j) => {
                proof {
                    lemma_find_some(sub, ","@, j - start);
                    assert(sub.subrange(0, j - start) =~= v@.subrange(start as int, j as int));
                    assert(sub.subrange(j - start + 1, sub.len() as int) =~= v@.subrange(j + 1, n as int));
                    assert(split_all(sub, ","@) == seq![v@.subrange(start as int, j as int)] + split_all(
                        v@.subrange(j + 1, n as int),
                        ","@,
                    ));
                    assert(parts[res_count as int] == parts.subrange(res_count as int, parts.len() as int)[0]);
                    assert(parts.subrange(res_count + 1, parts.len() as int) =~= parts.subrange(
                        res_count as int,
                        parts.len() as int,
                    ).drop_first());
                    lemma_split_all_nonempty(v@.subrange(j + 1, n as int), ","@);
                }
                if res_count >= RES_MAX_COUNT {
                    proof {
                        lemma_comma_blocks_facts(field@);
                    }
                    return None;
                }
                let single_res_block = trim_str(base.substring_char(start, j));
                let single = parse_single_resistance(single_res_block, page_name);
                match single {
                    None => {
                        proof {
                            lemma_comma_blocks_facts(field@);
                            assert(blocks[res_count as int] == spec_trim(parts[res_count as int]));
                            lemma_resistances_fail(field@, res_count as int);
                        }
                        return None;
                    },
                    Some(x) => {
                        proof {
                            lemma_single_resistance_fits(single_res_block@);
                        }
                        let shifted: u64 = x << (res_count * RES_SINGLE_BIT_LEN);
                        result = result | shifted;
                        proof {
                            let nd = done.push(x);
                            assert(nd.drop_last() =~= done);
                            done = nd;
                        }
                        res_count = res_count + 1;
                        start = j + 1;
                    },
                }
            },
            None => {
                proof {
                    assert(split_all(sub, ","@) == seq![sub]);
                    assert(parts.subrange(res_count as int, parts.len() as int).len() == 1);
                    assert(parts.last() == parts.subrange(res_count as int, parts.len() as int)[0]);
                }
                break ;
            },
        }
    }
    let remainder = trim_str(base.substring_char(start, n));
    let rv = chars_of(remainder);
    proof {
        lemma_comma_blocks_facts(field@);
        assert forall|i: int| 0 <= i < res_count implies #[trigger] spec_single_resistance(blocks[i]) is Some
            && done[i] == spec_single_resistance(blocks[i])->0 by {
            assert(i < parts.len() - 1);
            assert(blocks[i] == spec_trim(parts[i]));
            assert(done[i] == spec_single_resistance(spec_trim(parts[i]))->0);
            assert(spec_single_resistance(spec_trim(parts[i])) is Some);
        }
    }
    if byte_len_exceeds(rv.as_slice(), 2) {
        if res_count >= RES_MAX_COUNT {
            return None;
        }
        let single = parse_single_resistance(remainder, page_name);
        match single {
            None => {
                proof {
                    lemma_resistances_fail(field@, res_count as int);
                }
                return None;
            },
            Some(x) => {
                proof {
                    lemma_single_resistance_fits(remainder@);
                }
                let shifted: u64 = x << (res_count * RES_SINGLE_BIT_LEN);
                result = result | shifted;
                proof {
                    let nd = done.push(x);
                    assert(nd.drop_last() =~= done);
                    assert(spec_pack_resistances(nd) == result);
                    assert forall|i: int| 0 <= i < nd.len() implies #[trigger] spec_single_resistance(
                        blocks[i],
                    ) is Some && nd[i] == spec_single_resistance(blocks[i])->0 by {
                        if i < res_count {
                            assert(nd[i] == done[i]);
                        }
                    }
                    lemma_resistances_result(field@, nd);
                }
                return Some(result);
            },
        }
    }
    proof {
        lemma_resistances_result(field@, done);
    }
    Some(result)
}

/// The packed resistances of the field at `RES_IDX_IN_ARR + res_off` (see
/// `spec_map_resistances`).
pub fn prepare_and_map_resistances(defenses: &mut Vec<&str>, res_off: usize, page_name: &str) -> (r: u64)
    requires
        RES_IDX_IN_ARR + res_off < old(defenses)@.len(),
        spec_map_resistances(old(defenses)@[RES_IDX_IN_ARR + res_off]@) is Some,
    ensures
        final(defenses)@ == old(defenses)@,
        r == spec_map_resistances(old(defenses)@[RES_IDX_IN_ARR + res_off]@)->0,
{
    match try_prepare_and_map_resistances(defenses, res_off, page_name) {
        Some(v) => v,
        None => 0,
    }
}

pub(crate) proof fn lemma_type_or_value(ty: u64, v: u64)
    requires
        ty == 0x40 || ty == 0x80 || ty == 0xC0 || ty == 0x100 || ty == 0x140 || ty == 0x180 || ty
            == 0x1C0 || ty == 0x200 || ty == 0x240 || ty == 0x280,
        v <= 0x3F,
    ensures
        ty | v < 0x400,
        (ty | v) & 0x3F == v,
        (ty | v) >> 6u64 == ty >> 6u64,
{
    assert(ty | v < 0x400 && (ty | v) & 0x3F == v && (ty | v) >> 6u64 == ty >> 6u64) by (bit_vector)
        requires
            ty == 0x40 || ty == 0x80 || ty == 0xC0 || ty == 0x100 || ty == 0x140 || ty == 0x180
                || ty == 0x1C0 || ty == 0x200 || ty == 0x240 || ty == 0x280,
            v <= 0x3F,
    ;
}

/// A resistance code fits in ten bits: its value in the low six bits, its
/// type in the four above.
pub proof fn lemma_single_resistance_fits(block: Seq<char>)
    ensures
        spec_single_resistance(block) matches Some(x) ==> x < 0x400,
{
    let w1 = nth_word(block, 1);
    let w2 = nth_word(block, 2);
    let w3 = nth_word(block, 3);
    let p1 = spec_parse_uint(w1, u64::MAX as nat);
    let p2 = spec_parse_uint(w2, u64::MAX as nat);
    let p3 = spec_parse_uint(w3, u64::MAX as nat);
    if let Some(v) = p1 {
        if v <= RES_MAX_VALUE {
            lemma_type_or_value(RES_ACID_TYPE, v as u64);
            lemma_type_or_value(RES_FIRE_TYPE, v as u64);
            lemma_type_or_value(RES_COLD_TYPE, v as u64);
            lemma_type_or_value(RES_ELEC_TYPE, v as u64);
            lemma_type_or_value(RES_SOUND_TYPE, v as u64);
        }
    }
    if let Some(v) = p2 {
        if v <= RES_MAX_VALUE {
            lemma_type_or_value(RES_POS_TYPE, v as u64);
            lemma_type_or_value(RES_NEG_TYPE, v as u64);
            lemma_type_or_value(RES_ALL_TYPE, v as u64);
            lemma_type_or_value(RES_ADAP_TYPE, v as u64);
        }
    }
    if let Some(v) = p3 {
        if v <= RES_MAX_VALUE {
            lemma_type_or_value(RES_CHAN_TYPE, v as u64);
        }
    }
}


proof fn lemma_pack_slot(p: u64, x: u64, k: u64, i: u64)
    requires
        k <= 5,
        i < k,
        x < 0x400,
        p >> ((k * 10) as u64) == 0,
    ensures
        ((p | (x << ((k * 10) as u64))) >> ((i * 10) as u64)) & 0x3FF == (p >> ((i * 10) as u64))
            & 0x3FF,
{
    assert(((p | (x << ((k * 10) as u64))) >> ((i * 10) as u64)) & 0x3FF == (p >> ((i * 10) as u64))
        & 0x3FF) by (bit_vector)
        requires
            k <= 5,
            i < k,
            x < 0x400,
            p >> ((k * 10) as u64) == 0,
    ;
}

proof fn lemma_pack_top(p: u64, x: u64, k: u64)
    requires
        k <= 5,
        x < 0x400,
        p >> ((k * 10) as u64) == 0,
    ensures
        ((p | (x << ((k * 10) as u64))) >> ((k * 10) as u64)) & 0x3FF == x,
        (p | (x << ((k * 10) as u64))) >> (((k + 1) * 10) as u64) == 0,
{
    assert(((p | (x << ((k * 10) as u64))) >> ((k * 10) as u64)) & 0x3FF == x && (p | (x << ((k
        * 10) as u64))) >> (((k + 1) * 10) as u64) == 0) by (bit_vector)
        requires
            k <= 5,
            x < 0x400,
            p >> ((k * 10) as u64) == 0,
    ;
}

proof fn lemma_pack_unpack(codes: Seq<u64>)
    requires
        codes.len() <= RES_MAX_COUNT,
        forall|i: int| 0 <= i < codes.len() ==> #[trigger] codes[i] < 0x400,
    ensures
        spec_pack_resistances(codes) >> ((10 * codes.len()) as u64) == 0,
        forall|i: int|
            0 <= i < codes.len() ==> (spec_pack_resistances(codes) >> ((10 * i) as u64)) & 0x3FF
                == #[trigger] codes[i],
    decreases codes.len(),
{
    if codes.len() == 0 {
        assert(0u64 >> 0u64 == 0) by (bit_vector);
    } else {
        let prev = codes.drop_last();
        lemma_pack_unpack(prev);
        let k = (codes.len() - 1) as u64;
        let p = spec_pack_resistances(prev);
        let x = codes.last();
        assert(codes[k as int] == x);
        assert((k * 10) as u64 == (10 * (codes.len() - 1)) as u64);
        lemma_pack_top(p, x, k);
        assert forall|i: int| 0 <= i < codes.len() implies (spec_pack_resistances(codes) >> ((10
            * i) as u64)) & 0x3FF == #[trigger] codes[i] by {
            if i < k {
                lemma_pack_slot(p, x, k, i as u64);
                assert(prev[i] == codes[i]);
                assert(((i as u64) * 10) as u64 == (10 * i) as u64);
            }
        }
    }
}

/// Each resistance of a field can be read back from its ten-bit slot of the
/// packed word, in order; the slots after the last are zero, so a field with
/// resistances never yields the sentinel.
pub proof fn lemma_resistances_unpack(field: Seq<char>)
    requires
        spec_map_resistances(field) is Some,
        field != ""@,
        field != "-"@,
    ensures
        ({
            let r = spec_map_resistances(field)->0;
            let codes = spec_parse_resistances(spec_comma_blocks(field))->0;
            &&& codes.len() == spec_comma_blocks(field).len()
            &&& codes.len() <= RES_MAX_COUNT
            &&& forall|i: int|
                0 <= i < codes.len() ==> (r >> ((10 * i) as u64)) & 0x3FF == #[trigger] codes[i]
            &&& r >> ((10 * codes.len()) as u64) == 0
            &&& r != RES_SENTINEL_VALUE
        }),
{
    let blocks = spec_comma_blocks(field);
    let codes = spec_parse_resistances(blocks)->0;
    assert forall|i: int| 0 <= i < codes.len() implies #[trigger] codes[i] < 0x400 by {
        assert(spec_single_resistance(blocks[i]) is Some);
        lemma_single_resistance_fits(blocks[i]);
    }
    lemma_pack_unpack(codes);
    let r = spec_pack_resistances(codes);
    let sh = (10 * codes.len()) as u64;
    assert(r >> sh == 0 && sh <= 60 ==> r != 0xFFFFFFFFFFFFFFFFu64) by (bit_vector);
}

} // verus!
