use vstd::prelude::*;

use crate::text::{
    chars_eq, chars_of, contains_str, occurs_at, spec_contains, spec_find, split_piece0, split_piece1,
    split_two,
};

verus! {

// Bit layout of an alignment value:
//   [15..8] options: bit 15 `(vedi sotto)`, bit 14 like the creator,
//           bit 13 any alignment, bit 12 two alignments
//   [7..4]  the second alignment
//   [3..0]  the first alignment (the only one when bit 12 is clear)

pub const ALIGNMENT_SEE_BELOW: u16 = 0x8000;
pub const ALIGNMENT_LIKE_CREATOR: u16 = 0x4000;
pub const ALIGNMENT_ANY: u16 = 0x2000;
pub const ALIGNMENT_OR: u16 = 0x1000;
pub const ALIGNMENT_BIT_SIZE: u16 = 4;

/// The nine alignments, numbered from 1 in this order.
#[derive(Debug)]
pub enum Alignment_Type {
    Alignment_Empty,
    Legale_Buono,
    Legale_Neutrale,
    Legale_Malvagio,
    Neutrale_Buono,
    Neutrale_Neutrale,
    Neutrale_Malvagio,
    Caotico_Buono,
    Caotico_Neutrale,
    Caotico_Malvagio,
}

/// The number of a single alignment, given by its initials or its full name.
pub open spec fn spec_simple_alignment(s: Seq<char>) -> Option<u16> {
    if s == "LB"@ || s == "Legale Buono"@ {
        Some(1u16)
    } else if s == "LN"@ || s == "Legale Neutrale"@ {
        Some(2u16)
    } else if s == "LM"@ || s == "Legale Malvagio"@ {
        Some(3u16)
    } else if s == "NB"@ || s == "Neutrale Buono"@ {
        Some(4u16)
    } else if s == "N"@ || s == "Neutrale Neutrale"@ {
        Some(5u16)
    } else if s == "NM"@ || s == "Neutrale Malvagio"@ {
        Some(6u16)
    } else if s == "CB"@ || s == "Caotico Buono"@ {
        Some(7u16)
    } else if s == "CN"@ || s == "Caotico Neutrale"@ {
        Some(8u16)
    } else if s == "CM"@ || s == "Caotico Malvagio"@ {
        Some(9u16)
    } else {
        None
    }
}

pub fn map_simple_alignment(align: &str, dbg_source_text: &str) -> (r: Option<u16>)
    ensures
        r == spec_simple_alignment(align@),
{
    let f = chars_of(align);
    if chars_eq(f.as_slice(), "LB") || chars_eq(f.as_slice(), "Legale Buono") {
        return Some(1u16);
    }
    if chars_eq(f.as_slice(), "LN") || chars_eq(f.as_slice(), "Legale Neutrale") {
        return Some(2u16);
    }
    if chars_eq(f.as_slice(), "LM") || chars_eq(f.as_slice(), "Legale Malvagio") {
        return Some(3u16);
    }
    if chars_eq(f.as_slice(), "NB") || chars_eq(f.as_slice(), "Neutrale Buono") {
        return Some(4u16);
    }
    if chars_eq(f.as_slice(), "N") || chars_eq(f.as_slice(), "Neutrale Neutrale") {
        return Some(5u16);
    }
    if chars_eq(f.as_slice(), "NM") || chars_eq(f.as_slice(), "Neutrale Malvagio") {
        return Some(6u16);
    }
    if chars_eq(f.as_slice(), "CB") || chars_eq(f.as_slice(), "Caotico Buono") {
        return Some(7u16);
    }
    if chars_eq(f.as_slice(), "CN") || chars_eq(f.as_slice(), "Caotico Neutrale") {
        return Some(8u16);
    }
    if chars_eq(f.as_slice(), "CM") || chars_eq(f.as_slice(), "Caotico Malvagio") {
        return Some(9u16);
    }
    None
}

/// The field carries a `(vedi sotto)`, `(ma vedi sotto)` or `(vedi testo)` note.
pub open spec fn see_below_marked(s: Seq<char>) -> bool {
    spec_contains(s, " (vedi sotto)"@) || spec_contains(s, " (ma vedi sotto)"@) || spec_contains(
        s,
        " (vedi testo)"@,
    )
}

/// Two alignments joined by `sep`, or `None` when either is not known.
pub open spec fn spec_alignment_pair(s: Seq<char>, sep: Seq<char>, bit: u16) -> Option<u16> {
    match (spec_simple_alignment(split_piece0(s, sep)), spec_simple_alignment(split_piece1(s, sep))) {
        (Some(a1), Some(a2)) => Some(bit | ALIGNMENT_OR | (a2 << ALIGNMENT_BIT_SIZE) | a1),
        _ => None,
    }
}

/// The code of an alignment field (see the bit layout above); `None` where
/// the field names no known alignment.
pub open spec fn spec_map_alignment(s: Seq<char>) -> Option<u16> {
    let bit: u16 = if see_below_marked(s) {
        ALIGNMENT_SEE_BELOW
    } else {
        0
    };
    let core = if see_below_marked(s) {
        split_piece0(s, " ("@)
    } else {
        s
    };
    match spec_simple_alignment(core) {
        Some(a) => Some(bit | a),
        None => if core == "Lo stesso del suo creatore"@ {
            Some(bit | ALIGNMENT_LIKE_CREATOR)
        } else if core == "Qualsiasi"@ {
            Some(bit | ALIGNMENT_ANY)
        } else if spec_contains(core, " o "@) {
            spec_alignment_pair(core, " o "@, bit)
        } else if spec_contains(core, "/"@) {
            spec_alignment_pair(core, "/"@, bit)
        } else {
            None
        },
    }
}

fn map_alignment_pair(real_field: &str, sep: &str, bit: u16, field: &str) -> (r: Option<u16>)
    requires
        spec_contains(real_field@, sep@),
        sep@.len() > 0,
    ensures
        r == spec_alignment_pair(real_field@, sep@, bit),
{
    let (first, second) = split_two(real_field, sep);
    let align_1 = map_simple_alignment(first, field);
    let align_2 = map_simple_alignment(second, field);
    match (align_1, align_2) {
        (Some(a1), Some(a2)) => Some(bit | ALIGNMENT_OR | (a2 << ALIGNMENT_BIT_SIZE) | a1),
        _ => None,
    }
}

/// `map_alignment`, or `None` where the field names no known alignment.
pub fn try_map_alignment(field: &str, page_name: &str) -> (r: Option<u16>)
    ensures
        r == spec_map_alignment(field@),
{
    let marked = contains_str(field, " (vedi sotto)") || contains_str(field, " (ma vedi sotto)")
        || contains_str(field, " (vedi testo)");
    let mut see_below_bit: u16 = 0;
    let mut real_field = field;
    if marked {
        see_below_bit = ALIGNMENT_SEE_BELOW;
        proof {
            reveal_strlit(" (");
            reveal_strlit(" (vedi sotto)");
            reveal_strlit(" (ma vedi sotto)");
            reveal_strlit(" (vedi testo)");
            assert(" (vedi sotto)"@.subrange(0, 2) =~= " ("@);
            assert(" (ma vedi sotto)"@.subrange(0, 2) =~= " ("@);
            assert(" (vedi testo)"@.subrange(0, 2) =~= " ("@);
            crate::text::lemma_contains_prefix(field@, " (vedi sotto)"@, " ("@);
            crate::text::lemma_contains_prefix(field@, " (ma vedi sotto)"@, " ("@);
            crate::text::lemma_contains_prefix(field@, " (vedi testo)"@, " ("@);
        }
        let (first, _rest) = split_two(field, " (");
        real_field = first;
    }
    if let Some(a) = map_simple_alignment(real_field, field) {
        return Some(see_below_bit | a);
    }
    let r = chars_of(real_field);
    if chars_eq(r.as_slice(), "Lo stesso del suo creatore") {
        return Some(see_below_bit | ALIGNMENT_LIKE_CREATOR);
    }
    if chars_eq(r.as_slice(), "Qualsiasi") {
        return Some(see_below_bit | ALIGNMENT_ANY);
    }
    if contains_str(real_field, " o ") {
        proof {
            reveal_strlit(" o ");
        }
        return map_alignment_pair(real_field, " o ", see_below_bit, field);
    }
    if contains_str(real_field, "/") {
        proof {
            reveal_strlit("/");
        }
        return map_alignment_pair(real_field, "/", see_below_bit, field);
    }
    None
}

/// The code of an alignment field (see `spec_map_alignment`).
pub fn map_alignment(field: &str, page_name: &str) -> (r: u16)
    requires
        spec_map_alignment(field@) is Some,
    ensures
        r == spec_map_alignment(field@)->0,
{
    match try_map_alignment(field, page_name) {
        Some(v) => v,
        None => 0,
    }
}

proof fn lemma_simple_alignment_range(s: Seq<char>)
    ensures
        spec_simple_alignment(s) matches Some(a) ==> 1 <= a <= 9,
{
}

proof fn lemma_flag_bit(bit: u16, x: u16)
    requires
        bit == 0 || bit == 0x8000,
        x < 0x8000,
    ensures
        ((bit | x) & 0x8000 != 0) == (bit == 0x8000),
{
    assert(((bit | x) & 0x8000 != 0) == (bit == 0x8000)) by (bit_vector)
        requires
            bit == 0 || bit == 0x8000,
            x < 0x8000,
    ;
}

proof fn lemma_pair_flag_bit(bit: u16, a1: u16, a2: u16)
    requires
        bit == 0 || bit == 0x8000,
        a1 <= 9,
        a2 <= 9,
    ensures
        ((bit | ALIGNMENT_OR | (a2 << ALIGNMENT_BIT_SIZE) | a1) & 0x8000 != 0) == (bit == 0x8000),
{
    assert(((bit | 0x1000u16 | (a2 << 4u16) | a1) & 0x8000 != 0) == (bit == 0x8000)) by (bit_vector)
        requires
            bit == 0 || bit == 0x8000,
            a1 <= 9,
            a2 <= 9,
    ;
}

/// Bit 15 of an alignment code is set exactly when the field carries a
/// `(vedi sotto)`, `(ma vedi sotto)` or `(vedi testo)` note.
pub proof fn lemma_alignment_see_below_bit(s: Seq<char>)
    requires
        spec_map_alignment(s) is Some,
    ensures
        (spec_map_alignment(s)->0 & 0x8000 != 0) == see_below_marked(s),
{
    let bit: u16 = if see_below_marked(s) {
        ALIGNMENT_SEE_BELOW
    } else {
        0
    };
    let core = if see_below_marked(s) {
        split_piece0(s, " ("@)
    } else {
        s
    };
    lemma_simple_alignment_range(core);
    match spec_simple_alignment(core) {
        Some(a) => {
            lemma_flag_bit(bit, a);
        },
        None => {
            if core == "Lo stesso del suo creatore"@ {
                lemma_flag_bit(bit, ALIGNMENT_LIKE_CREATOR);
            } else if core == "Qualsiasi"@ {
                lemma_flag_bit(bit, ALIGNMENT_ANY);
            } else {
                let sep = if spec_contains(core, " o "@) {
                    " o "@
                } else {
                    "/"@
                };
                let a1 = spec_simple_alignment(split_piece0(core, sep))->0;
                let a2 = spec_simple_alignment(split_piece1(core, sep))->0;
                lemma_simple_alignment_range(split_piece0(core, sep));
                lemma_simple_alignment_range(split_piece1(core, sep));
                lemma_pair_flag_bit(bit, a1, a2);
            }
        },
    }
}

/// Two alignments joined by ` o ` or `/` are both kept: the first in bits 0
/// to 3, the second in bits 4 to 7, with bit 12 set.
pub proof fn lemma_alignment_pair_layout(s: Seq<char>, sep: Seq<char>, bit: u16)
    requires
        spec_alignment_pair(s, sep, bit) is Some,
        bit == 0 || bit == 0x8000,
    ensures
        ({
            let r = spec_alignment_pair(s, sep, bit)->0;
            &&& r & 0xF == spec_simple_alignment(split_piece0(s, sep))->0
            &&& (r >> 4u16) & 0xF == spec_simple_alignment(split_piece1(s, sep))->0
            &&& r & 0x1000 == 0x1000
        }),
{
    let a1 = spec_simple_alignment(split_piece0(s, sep))->0;
    let a2 = spec_simple_alignment(split_piece1(s, sep))->0;
    lemma_simple_alignment_range(split_piece0(s, sep));
    lemma_simple_alignment_range(split_piece1(s, sep));
    let r = bit | ALIGNMENT_OR | (a2 << ALIGNMENT_BIT_SIZE) | a1;
    assert(r & 0xF == a1 && (r >> 4u16) & 0xF == a2 && r & 0x1000 == 0x1000) by (bit_vector)
        requires
            a1 <= 9,
            a2 <= 9,
            bit == 0 || bit == 0x8000,
            r == bit | 0x1000u16 | (a2 << 4u16) | a1,
    ;
}

/// The shape the texts of single alignments share: no `(` or `/`, and a
/// space is never last nor followed by `o`, so none holds ` o `.
pub open spec fn plain_words(x: Seq<char>) -> bool {
    &&& forall|i: int| 0 <= i < x.len() ==> #[trigger] x[i] != '(' && x[i] != '/'
    &&& forall|i: int| 0 <= i < x.len() && #[trigger] x[i] == ' ' ==> i + 1 < x.len() && x[i + 1] != 'o'
}

proof fn lemma_plain_words_lit(x: Seq<char>)
    requires
        forall|i: int| 0 <= i < x.len() ==> #[trigger] x[i] != '(' && x[i] != '/' && (x[i] == ' ' ==> i + 1 < x.len() && x[i + 1] != 'o'),
    ensures
        plain_words(x),
{
}

/// Each single alignment and the two special values have that shape.
proof fn lemma_names_plain(x: Seq<char>)
    requires
        spec_simple_alignment(x) is Some || x == "Lo stesso del suo creatore"@ || x == "Qualsiasi"@,
    ensures
        plain_words(x),
        x.len() > 0,
{
    reveal_strlit("LB");
    reveal_strlit("Legale Buono");
    reveal_strlit("LN");
    reveal_strlit("Legale Neutrale");
    reveal_strlit("LM");
    reveal_strlit("Legale Malvagio");
    reveal_strlit("NB");
    reveal_strlit("Neutrale Buono");
    reveal_strlit("N");
    reveal_strlit("Neutrale Neutrale");
    reveal_strlit("NM");
    reveal_strlit("Neutrale Malvagio");
    reveal_strlit("CB");
    reveal_strlit("Caotico Buono");
    reveal_strlit("CN");
    reveal_strlit("Caotico Neutrale");
    reveal_strlit("CM");
    reveal_strlit("Caotico Malvagio");
    reveal_strlit("Lo stesso del suo creatore");
    reveal_strlit("Qualsiasi");
    lemma_plain_words_lit(x);
}

/// A text without the character `p[k]` holds no `p`.
proof fn lemma_missing_char(s: Seq<char>, p: Seq<char>, k: int)
    requires
        0 <= k < p.len(),
        forall|i: int| 0 <= i < s.len() ==> #[trigger] s[i] != p[k],
    ensures
        !spec_contains(s, p),
{
    crate::text::lemma_find_facts(s, p);
    if let Some(i) = spec_find(s, p) {
        assert(s.subrange(i, i + p.len())[k] == s[i + k]);
    }
}

/// A text of that shape holds no ` o `.
proof fn lemma_plain_no_or(x: Seq<char>)
    requires
        plain_words(x),
    ensures
        !spec_contains(x, " o "@),
{
    reveal_strlit(" o ");
    crate::text::lemma_find_facts(x, " o "@);
    if let Some(j) = spec_find(x, " o "@) {
        assert(x.subrange(j, j + 3)[0] == x[j]);
        assert(x.subrange(j, j + 3)[1] == x[j + 1]);
    }
}

/// In `x + t`, where `x` has that shape and `t` begins with the separator
/// `p` (`/`, or a space then `o` or `(`), the first `p` is where `t` begins.
proof fn lemma_first_sep(x: Seq<char>, t: Seq<char>, p: Seq<char>)
    requires
        plain_words(x),
        p.len() > 0,
        t.len() >= p.len(),
        t.subrange(0, p.len() as int) == p,
        p[0] == '/' || (p[0] == ' ' && p.len() >= 2 && (p[1] == 'o' || p[1] == '(')),
    ensures
        spec_find(x + t, p) == Some(x.len() as int),
{
    let s = x + t;
    assert(s.subrange(x.len() as int, (x.len() + p.len()) as int) =~= t.subrange(0, p.len() as int));
    assert forall|j: int| 0 <= j < x.len() implies !#[trigger] occurs_at(s, p, j) by {
        if occurs_at(s, p, j) {
            assert(s.subrange(j, j + p.len())[0] == s[j]);
            assert(s[j] == x[j]);
            if p[0] == ' ' {
                assert(s.subrange(j, j + p.len())[1] == s[j + 1]);
                if j + 1 < x.len() {
                    assert(s[j + 1] == x[j + 1]);
                }
            }
        }
    }
    crate::text::lemma_find_is(s, p, x.len() as int);
}

/// No `(` stands in any of the texts a field is built from here.
proof fn lemma_no_note(s: Seq<char>)
    requires
        forall|i: int| 0 <= i < s.len() ==> #[trigger] s[i] != '(',
    ensures
        !see_below_marked(s),
{
    reveal_strlit(" (vedi sotto)");
    reveal_strlit(" (ma vedi sotto)");
    reveal_strlit(" (vedi testo)");
    lemma_missing_char(s, " (vedi sotto)"@, 1);
    lemma_missing_char(s, " (ma vedi sotto)"@, 1);
    lemma_missing_char(s, " (vedi testo)"@, 1);
}

/// A pair of single alignments joined by `sep` gives its code.
proof fn lemma_pair_of_names(x: Seq<char>, y: Seq<char>, sep: Seq<char>)
    requires
        spec_simple_alignment(x) is Some,
        spec_simple_alignment(y) is Some,
        sep == " o "@ || sep == "/"@,
    ensures
        spec_map_alignment(x + sep + y) == Some(
            ALIGNMENT_OR | (spec_simple_alignment(y)->0 << ALIGNMENT_BIT_SIZE) | spec_simple_alignment(x)->0,
        ),
{
    reveal_strlit(" o ");
    reveal_strlit("/");
    lemma_names_plain(x);
    lemma_names_plain(y);
    let s = x + sep + y;
    let t = sep + y;
    assert(s =~= x + t);
    assert(t.subrange(0, sep.len() as int) =~= sep);
    assert forall|i: int| 0 <= i < s.len() implies #[trigger] s[i] != '(' && s[i] != '/' || sep == "/"@ by {
        if i < x.len() {
            assert(s[i] == x[i]);
        } else if i < x.len() + sep.len() {
            assert(s[i] == sep[i - x.len()]);
        } else {
            assert(s[i] == y[i - x.len() - sep.len()]);
        }
    }
    lemma_no_note(s);
    // the joined text is neither a single alignment nor a special value
    lemma_first_sep(x, t, sep);
    assert(spec_contains(s, sep));
    assert(spec_simple_alignment(s) is None) by {
        if spec_simple_alignment(s) is Some {
            lemma_names_plain(s);
            if sep == " o "@ {
                lemma_plain_no_or(s);
            } else {
                lemma_missing_char(s, "/"@, 0);
            }
        }
    }
    if s == "Lo stesso del suo creatore"@ || s == "Qualsiasi"@ {
        lemma_names_plain(s);
        if sep == " o "@ {
            lemma_plain_no_or(s);
        } else {
            lemma_missing_char(s, "/"@, 0);
        }
    }
    if sep == "/"@ {
        // a `/` between two such texts makes no ` o `
        assert(!spec_contains(s, " o "@)) by {
            crate::text::lemma_find_facts(s, " o "@);
            if let Some(j) = spec_find(s, " o "@) {
                assert(s.subrange(j, j + 3)[0] == s[j]);
                assert(s.subrange(j, j + 3)[1] == s[j + 1]);
                if j < x.len() {
                    assert(s[j] == x[j]);
                    if j + 1 < x.len() {
                        assert(s[j + 1] == x[j + 1]);
                    }
                } else if j == x.len() {
                    assert(s[j] == '/');
                } else {
                    assert(s[j] == y[j - x.len() - 1]);
                    assert(s[j + 1] == y[j - x.len()]);
                }
            }
        }
    }
    let a1 = spec_simple_alignment(x)->0;
    let a2 = spec_simple_alignment(y)->0;
    let v = ALIGNMENT_OR | (a2 << ALIGNMENT_BIT_SIZE) | a1;
    assert((0u16 | 0x1000u16 | (a2 << 4u16) | a1) == (0x1000u16 | (a2 << 4u16) | a1)) by (bit_vector);
    // the pieces are the two names
    assert(s.subrange(0, x.len() as int) =~= x);
    assert(s.subrange((x.len() + sep.len()) as int, s.len() as int) =~= y);
    if sep == " o "@ {
        lemma_plain_no_or(y);
    } else {
        lemma_missing_char(y, "/"@, 0);
    }
    assert(split_piece0(s, sep) == x);
    assert(split_piece1(s, sep) == y);
    assert(!see_below_marked(s));
    assert(spec_alignment_pair(s, sep, 0) == Some(v));
    if sep == " o "@ {
        assert(spec_contains(s, " o "@));
    } else {
        assert(!spec_contains(s, " o "@));
        assert(spec_contains(s, "/"@));
    }
}

/// The two separators of a pair, ` o ` and `/`, give the same code, with the
/// first alignment in bits 0 to 3 and the second in bits 4 to 7; the two
/// spellings of a single alignment (initials or full name) give the same
/// code; and a `(vedi sotto)` note adds bit 15 to the code of the alignment.
pub proof fn lemma_alignment_spellings(x: Seq<char>, y: Seq<char>, x2: Seq<char>)
    requires
        spec_simple_alignment(x) is Some,
        spec_simple_alignment(y) is Some,
        spec_simple_alignment(x2) == spec_simple_alignment(x),
    ensures
        spec_map_alignment(x + " o "@ + y) == spec_map_alignment(x + "/"@ + y),
        spec_map_alignment(x + " o "@ + y) == Some(
            ALIGNMENT_OR | (spec_simple_alignment(y)->0 << ALIGNMENT_BIT_SIZE) | spec_simple_alignment(x)->0,
        ),
        spec_map_alignment(x) == spec_simple_alignment(x),
        spec_map_alignment(x) == spec_map_alignment(x2),
        spec_map_alignment(x + " (vedi sotto)"@) == Some(
            (ALIGNMENT_SEE_BELOW | spec_map_alignment(x)->0) as u16,
        ),
{
    lemma_pair_of_names(x, y, " o "@);
    lemma_pair_of_names(x, y, "/"@);
    lemma_single_name(x);
    lemma_single_name(x2);
    lemma_see_below_name(x);
}

/// A single alignment gives its own number.
proof fn lemma_single_name(x: Seq<char>)
    requires
        spec_simple_alignment(x) is Some,
    ensures
        spec_map_alignment(x) == spec_simple_alignment(x),
{
    lemma_names_plain(x);
    lemma_no_note(x);
    let a = spec_simple_alignment(x)->0;
    assert(0u16 | a == a) by (bit_vector);
}

/// A text followed by ` (vedi sotto)` carries the note.
proof fn lemma_marked(x: Seq<char>)
    ensures
        see_below_marked(x + " (vedi sotto)"@),
{
    reveal_strlit(" (vedi sotto)");
    let t = " (vedi sotto)"@;
    let s = x + t;
    assert(s.subrange(x.len() as int, (x.len() + 13) as int) =~= t);
    assert(occurs_at(s, t, x.len() as int));
    crate::text::lemma_find_facts(s, t);
}

/// The text before the note is `x`.
proof fn lemma_before_note(x: Seq<char>)
    requires
        plain_words(x),
    ensures
        split_piece0(x + " (vedi sotto)"@, " ("@) == x,
{
    reveal_strlit(" (");
    reveal_strlit(" (vedi sotto)");
    let t = " (vedi sotto)"@;
    let s = x + t;
    assert(t.subrange(0, 2) =~= " ("@);
    lemma_first_sep(x, t, " ("@);
    assert(s.subrange(0, x.len() as int) =~= x);
}

/// A single alignment with a `(vedi sotto)` note gives its number with bit 15.
proof fn lemma_see_below_name(x: Seq<char>)
    requires
        spec_simple_alignment(x) is Some,
    ensures
        spec_map_alignment(x + " (vedi sotto)"@) == Some(
            (ALIGNMENT_SEE_BELOW | spec_simple_alignment(x)->0) as u16,
        ),
{
    lemma_names_plain(x);
    lemma_marked(x);
    lemma_before_note(x);
}

/// The position of an ethic initial (`L`, `N`, `C`) on the lawful-chaotic axis.
pub open spec fn ethic_index(c: char) -> int {
    if c == 'L' {
        0
    } else if c == 'N' {
        1
    } else if c == 'C' {
        2
    } else {
        -100
    }
}

/// The position of a moral initial (`B`, `N`, `M`) on the good-evil axis, from 1.
pub open spec fn moral_index(c: char) -> int {
    if c == 'B' {
        1
    } else if c == 'N' {
        2
    } else if c == 'M' {
        3
    } else {
        -100
    }
}

/// The ethic word for the position `e` (0 to 2).
pub open spec fn ethic_word(e: int) -> Seq<char> {
    if e == 0 {
        "Legale"@
    } else if e == 1 {
        "Neutrale"@
    } else {
        "Caotico"@
    }
}

/// The moral word for the position `m` (1 to 3).
pub open spec fn moral_word(m: int) -> Seq<char> {
    if m == 1 {
        "Buono"@
    } else if m == 2 {
        "Neutrale"@
    } else {
        "Malvagio"@
    }
}

/// The number of a single alignment follows from its initials: three per
/// step on the lawful-chaotic axis plus the step on the good-evil axis
/// (`LB` 1 to `CM` 9), whether it is written by its two initials or by its
/// two words, whose first letters are those initials; `N` alone is 5.
pub proof fn lemma_alignment_number(s: Seq<char>)
    requires
        spec_simple_alignment(s) is Some,
    ensures
        ({
            let a = spec_simple_alignment(s)->0 as int;
            &&& s.len() == 1 ==> s[0] == 'N' && a == 5
            &&& s.len() == 2 ==> a == 3 * ethic_index(s[0]) + moral_index(s[1])
            &&& forall|i: int| 0 <= i < s.len() && #[trigger] s[i] == ' ' ==> i + 1 < s.len() && a == 3
                * ethic_index(s[0]) + moral_index(s[i + 1])
            &&& s.len() > 2 ==> exists|i: int| 0 <= i < s.len() && #[trigger] s[i] == ' '
        }),
{
    reveal_strlit("LB");
    reveal_strlit("Legale Buono");
    reveal_strlit("LN");
    reveal_strlit("Legale Neutrale");
    reveal_strlit("LM");
    reveal_strlit("Legale Malvagio");
    reveal_strlit("NB");
    reveal_strlit("Neutrale Buono");
    reveal_strlit("N");
    reveal_strlit("Neutrale Neutrale");
    reveal_strlit("NM");
    reveal_strlit("Neutrale Malvagio");
    reveal_strlit("CB");
    reveal_strlit("Caotico Buono");
    reveal_strlit("CN");
    reveal_strlit("Caotico Neutrale");
    reveal_strlit("CM");
    reveal_strlit("Caotico Malvagio");
    reveal_strlit("Legale");
    reveal_strlit("Neutrale");
    reveal_strlit("Caotico");
    reveal_strlit("Buono");
    reveal_strlit("Malvagio");
    reveal_strlit(" ");
    if s.len() > 2 {
        if s[6] == ' ' {
            assert(s[6] == ' ');
        } else if s[7] == ' ' {
            assert(s[7] == ' ');
        } else {
            assert(s[8] == ' ');
        }
    }
}

/// Every alignment is known under both spellings: the two words for the
/// positions `e` and `m`, and (but for the neutral one, written `N`) their
/// two initials, give the number `3 * e + m`.
pub proof fn lemma_alignment_spelled(e: int, m: int)
    requires
        0 <= e < 3,
        1 <= m <= 3,
    ensures
        spec_simple_alignment(ethic_word(e) + " "@ + moral_word(m)) == Some((3 * e + m) as u16),
        !(e == 1 && m == 2) ==> spec_simple_alignment(seq![ethic_word(e)[0], moral_word(m)[0]]) == Some(
            (3 * e + m) as u16,
        ),
        e == 1 && m == 2 ==> spec_simple_alignment(seq![ethic_word(e)[0]]) == Some(5u16),
{
    reveal_strlit("LB");
    reveal_strlit("Legale Buono");
    reveal_strlit("LN");
    reveal_strlit("Legale Neutrale");
    reveal_strlit("LM");
    reveal_strlit("Legale Malvagio");
    reveal_strlit("NB");
    reveal_strlit("Neutrale Buono");
    reveal_strlit("N");
    reveal_strlit("Neutrale Neutrale");
    reveal_strlit("NM");
    reveal_strlit("Neutrale Malvagio");
    reveal_strlit("CB");
    reveal_strlit("Caotico Buono");
    reveal_strlit("CN");
    reveal_strlit("Caotico Neutrale");
    reveal_strlit("CM");
    reveal_strlit("Caotico Malvagio");
    reveal_strlit("Legale");
    reveal_strlit("Neutrale");
    reveal_strlit("Caotico");
    reveal_strlit("Buono");
    reveal_strlit("Malvagio");
    reveal_strlit(" ");
    assert("Legale Malvagio"@[7] != "Legale Neutrale"@[7]);
    assert("Neutrale Malvagio"@[9] != "Neutrale Neutrale"@[9]);
    assert("Caotico Malvagio"@[8] != "Caotico Neutrale"@[8]);
    let full = ethic_word(e) + " "@ + moral_word(m);
    let ini = seq![ethic_word(e)[0], moral_word(m)[0]];
    if e == 0 && m == 1 {
        assert(full =~= "Legale Buono"@);
        assert(spec_simple_alignment(full) == Some(1u16));
        assert(ini =~= "LB"@);
    }
    if e == 0 && m == 2 {
        assert(full =~= "Legale Neutrale"@);
        assert(spec_simple_alignment(full) == Some(2u16));
        assert(ini =~= "LN"@);
    }
    if e == 0 && m == 3 {
        assert(full =~= "Legale Malvagio"@);
        assert(spec_simple_alignment(full) == Some(3u16));
        assert(ini =~= "LM"@);
    }
    if e == 1 && m == 1 {
        assert(full =~= "Neutrale Buono"@);
        assert(spec_simple_alignment(full) == Some(4u16));
        assert(ini =~= "NB"@);
    }
    if e == 1 && m == 2 {
        assert(full =~= "Neutrale Neutrale"@);
        assert(spec_simple_alignment(full) == Some(5u16));
        assert(seq![ethic_word(e)[0]] =~= "N"@);
    }
    if e == 1 && m == 3 {
        assert(full =~= "Neutrale Malvagio"@);
        assert(spec_simple_alignment(full) == Some(6u16));
        assert(ini =~= "NM"@);
    }
    if e == 2 && m == 1 {
        assert(full =~= "Caotico Buono"@);
        assert(spec_simple_alignment(full) == Some(7u16));
        assert(ini =~= "CB"@);
    }
    if e == 2 && m == 2 {
        assert(full =~= "Caotico Neutrale"@);
        assert(spec_simple_alignment(full) == Some(8u16));
        assert(ini =~= "CN"@);
    }
    if e == 2 && m == 3 {
        assert(full =~= "Caotico Malvagio"@);
        assert(spec_simple_alignment(full) == Some(9u16));
        assert(ini =~= "CM"@);
    }
}

} // verus!
