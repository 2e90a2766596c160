use vstd::prelude::*;

use crate::text::{
    chars_eq, chars_of, contains_str, parse_uint, spec_contains, spec_parse_uint, spec_trim,
    spec_find, split_piece0, split_piece1, split_two, trim_str, all_digits, digits_value, occurs_at,
    is_ascii_digit,
};

verus! {

// Bit layout of a GS value:
//   [15..12] extra bits; bit 15 tells whether the mythic rank (RM) is present
//   [11..6]  RM value
//   [5..0]   GS value, the fractional ones first

/// Bit 15: the mythic rank is present.
pub const GS_RM_VALUE_BIT: u16 = 0x8000;

/// Integer GS values come after the five fractional ones.
pub const GS_FRACTIONAL_OFFSET: u16 = 4;

/// Position of the RM value.
pub const GS_RM_BIT_OFFSET: u16 = 6;

/// The value of an empty GS field.
pub const GS_SENTINEL_VALUE: u16 = 0xFFFF;

/// The code of a GS without mythic rank: `1/8`, `1/6`, `1/4`, `1/3`, `1/2`
/// give 0 to 4, an integer `n` gives `n + 4`; `None` for any other fraction,
/// for what is not a number and where `n + 4` does not fit in 16 bits.
pub open spec fn spec_map_simple_gs(s: Seq<char>) -> Option<u16> {
    if spec_contains(s, "/"@) {
        if s == "1/8"@ {
            Some(0u16)
        } else if s == "1/6"@ {
            Some(1u16)
        } else if s == "1/4"@ {
            Some(2u16)
        } else if s == "1/3"@ {
            Some(3u16)
        } else if s == "1/2"@ {
            Some(4u16)
        } else {
            None
        }
    } else {
        match spec_parse_uint(s, 0xFFFF) {
            Some(g) => if g + 4 <= 0xFFFF {
                Some((g + 4) as u16)
            } else {
                None
            },
            None => None,
        }
    }
}

/// The code of a GS field: the sentinel for an empty field; for `G/RM R`,
/// bit 15 set, `R` in bits 6 and up and the code of `G` in the low bits;
/// otherwise the code of the simple GS. `None` where a part cannot be read.
pub open spec fn spec_map_gs(s: Seq<char>) -> Option<u16> {
    if s.len() == 0 {
        Some(GS_SENTINEL_VALUE)
    } else if spec_contains(s, "/RM"@) {
        match (
            spec_map_simple_gs(split_piece0(s, "/RM"@)),
            spec_parse_uint(spec_trim(split_piece1(s, "/RM"@)), 0xFFFF),
        ) {
            (Some(g), Some(rm)) => Some(GS_RM_VALUE_BIT | ((rm as u16) << GS_RM_BIT_OFFSET) | g),
            _ => None,
        }
    } else {
        spec_map_simple_gs(s)
    }
}

pub fn map_simple_gs(field: &str, page_name: &str) -> (r: Option<u16>)
    ensures
        r == spec_map_simple_gs(field@),
{
    if contains_str(field, "/") {
        let f = chars_of(field);
        if chars_eq(f.as_slice(), "1/8") {
            return Some(0u16);
        }
        if chars_eq(f.as_slice(), "1/6") {
            return Some(1u16);
        }
        if chars_eq(f.as_slice(), "1/4") {
            return Some(2u16);
        }
        if chars_eq(f.as_slice(), "1/3") {
            return Some(3u16);
        }
        if chars_eq(f.as_slice(), "1/2") {
            return Some(4u16);
        }
        None
    } else {
        match parse_uint(field, 0xFFFF) {
            Some(g) => {
                let gs = g as u16;
                if gs <= 0xFFFF - GS_FRACTIONAL_OFFSET {
                    Some(gs + GS_FRACTIONAL_OFFSET)
                } else {
                    None
                }
            },
            None => None,
        }
    }
}

/// `map_gs`, or `None` where a part of the field cannot be read.
pub fn try_map_gs(field: &str, page_name: &str) -> (r: Option<u16>)
    ensures
        r == spec_map_gs(field@),
{
    if field.unicode_len() == 0 {
        return Some(GS_SENTINEL_VALUE);
    }
    if contains_str(field, "/RM") {
        proof {
            reveal_strlit("/RM");
        }
        let (gs_part, rm_part) = split_two(field, "/RM");
        let gs_val = map_simple_gs(gs_part, page_name);
        let rm_val = parse_uint(trim_str(rm_part), 0xFFFF);
        match (gs_val, rm_val) {
            (Some(g), Some(rm)) => Some(GS_RM_VALUE_BIT | ((rm as u16) << GS_RM_BIT_OFFSET) | g),
            _ => None,
        }
    } else {
        map_simple_gs(field, page_name)
    }
}

/// The code of a GS field (see `spec_map_gs`).
pub fn map_gs(field: &str, page_name: &str) -> (r: u16)
    requires
        spec_map_gs(field@) is Some,
    ensures
        r == spec_map_gs(field@)->0,
{
    match try_map_gs(field, page_name) {
        Some(v) => v,
        None => GS_SENTINEL_VALUE,
    }
}

/// A GS with mythic rank keeps its parts apart: the code of the GS in the low
/// six bits, the rank in the six bits above them, and bit 15 set, as long as
/// both fit in six bits.
pub proof fn lemma_gs_rm_layout(s: Seq<char>, g: u16, rm: nat)
    requires
        spec_contains(s, "/RM"@),
        spec_map_simple_gs(split_piece0(s, "/RM"@)) == Some(g),
        spec_parse_uint(spec_trim(split_piece1(s, "/RM"@)), 0xFFFF) == Some(rm),
        g < 64,
        rm < 64,
    ensures
        spec_map_gs(s) matches Some(r) && r & 0x3F == g && (r >> 6u16) & 0x3F == rm && r & 0x8000
            == 0x8000,
{
    crate::text::lemma_find_some(s, "/RM"@, spec_find(s, "/RM"@)->0);
    assert(s.len() > 0);
    let rm16 = rm as u16;
    let r = GS_RM_VALUE_BIT | (rm16 << GS_RM_BIT_OFFSET) | g;
    assert(r & 0x3F == g && (r >> 6u16) & 0x3F == rm16 && r & 0x8000 == 0x8000) by (bit_vector)
        requires
            g < 64,
            rm16 < 64,
            r == 0x8000u16 | (rm16 << 6u16) | g,
    ;
}

/// The challenge rating a GS field without mythic rank names, as a fraction
/// `(p, q)` standing for p / q: `1/8`, `1/6`, `1/4`, `1/3`, `1/2`, or a
/// whole number written in decimal digits.
pub open spec fn spec_challenge_rating(s: Seq<char>) -> Option<(int, int)> {
    if s == "1/8"@ {
        Some((1int, 8int))
    } else if s == "1/6"@ {
        Some((1int, 6int))
    } else if s == "1/4"@ {
        Some((1int, 4int))
    } else if s == "1/3"@ {
        Some((1int, 3int))
    } else if s == "1/2"@ {
        Some((1int, 2int))
    } else if s.len() > 0 && all_digits(s) {
        Some((digits_value(s) as int, 1int))
    } else {
        None
    }
}

/// The numerator of the rating `s` names (see `spec_challenge_rating`).
pub open spec fn rating_num(s: Seq<char>) -> int {
    match spec_challenge_rating(s) {
        Some((p, _)) => p,
        None => 0,
    }
}

/// The denominator of the rating `s` names (see `spec_challenge_rating`).
pub open spec fn rating_den(s: Seq<char>) -> int {
    match spec_challenge_rating(s) {
        Some((_, q)) => q,
        None => 0,
    }
}

/// A text made of digits holds no `/`, so no pattern that starts with one.
proof fn lemma_digits_hold_no_slash(s: Seq<char>, p: Seq<char>)
    requires
        all_digits(s),
        p.len() > 0,
        p[0] == '/',
    ensures
        !spec_contains(s, p),
{
    crate::text::lemma_find_facts(s, p);
    if let Some(i) = spec_find(s, p) {
        assert(s.subrange(i, i + p.len())[0] == s[i]);
        assert(is_ascii_digit(s[i]));
    }
}

/// The code of a field that names a challenge rating: 0 to 4 for the
/// spellings `1/8`, `1/6`, `1/4`, `1/3`, `1/2`, and `n + 4` for a whole
/// number `n` written in decimal digits.
pub proof fn lemma_gs_of_rating(s: Seq<char>)
    requires
        spec_challenge_rating(s) is Some,
        rating_den(s) == 1 ==> rating_num(s) <= 0xFFFB,
    ensures
        spec_map_gs(s) == Some(
            if s == "1/8"@ {
                0u16
            } else if s == "1/6"@ {
                1u16
            } else if s == "1/4"@ {
                2u16
            } else if s == "1/3"@ {
                3u16
            } else if s == "1/2"@ {
                4u16
            } else {
                (digits_value(s) + 4) as u16
            },
        ),
{
    reveal_strlit("1/8");
    reveal_strlit("1/6");
    reveal_strlit("1/4");
    reveal_strlit("1/3");
    reveal_strlit("1/2");
    reveal_strlit("/RM");
    reveal_strlit("/");
    if s == "1/8"@ || s == "1/6"@ || s == "1/4"@ || s == "1/3"@ || s == "1/2"@ {
        assert(s.subrange(1, 2) =~= "/"@);
        assert(occurs_at(s, "/"@, 1));
        crate::text::lemma_find_facts(s, "/"@);
        crate::text::lemma_find_facts(s, "/RM"@);
        if let Some(i) = spec_find(s, "/RM"@) {
            assert(s.subrange(i, i + 3) == "/RM"@);
            assert(i == 0);
            assert(s.subrange(0, 3)[0] == s[0]);
            assert(s[0] == '1');
        }
        assert(!spec_contains(s, "/RM"@));
        assert(spec_contains(s, "/"@));
    } else {
        lemma_digits_hold_no_slash(s, "/RM"@);
        lemma_digits_hold_no_slash(s, "/"@);
        assert(s[0] != '+') by {
            assert(is_ascii_digit(s[0]));
        }
        assert(spec_parse_uint(s, 0xFFFF) == Some(digits_value(s)));
    }
}

/// GS codes follow the challenge ratings they stand for: of two fields that
/// name ratings of at least 1/8 (no rating 0), the smaller rating has the
/// smaller code, and a rating up to 59 has a code below 64 (bit 15 clear,
/// only bits 0 to 5 used). A whole number `n` has the code `n + 4`.
pub proof fn lemma_gs_order(a: Seq<char>, b: Seq<char>)
    requires
        spec_challenge_rating(a) is Some,
        spec_challenge_rating(b) is Some,
        rating_num(a) >= 1,
        rating_num(b) >= 1,
        rating_num(b) <= 59 * rating_den(b),
        rating_num(a) * rating_den(b) < rating_num(b)
            * rating_den(a),
    ensures
        spec_map_gs(a) is Some,
        spec_map_gs(b) is Some,
        spec_map_gs(a)->0 < spec_map_gs(b)->0 < 64,
        rating_den(b) == 1 ==> spec_map_gs(b)->0 == rating_num(b) + 4,
{
    let pa = rating_num(a);
    let qa = rating_den(a);
    let pb = rating_num(b);
    let qb = rating_den(b);
    assert(qa >= 1 && qb >= 1);
    if qb == 1 {
        assert(pb <= 59);
    }
    if qa == 1 {
        // a whole number below b: b is whole too, and larger
        assert(pa * qb < pb);
        if qb != 1 {
            assert(pb == 1);
            assert(pa * qb >= qb) by (nonlinear_arith)
                requires
                    pa >= 1,
                    qb >= 1,
            ;
        }
        assert(pa < 59);
    }
    lemma_gs_of_rating(a);
    lemma_gs_of_rating(b);
}

} // verus!
