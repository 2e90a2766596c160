use vstd::prelude::*;

use crate::text::{
    chars_of, find_chars, find_chars_from, lemma_find_facts, lemma_find_some, remove_range,
    replace_chars, spec_find, spec_replace, spec_trim, spec_trim_set, split_all, string_from_chars,
    trim_set_str, trim_str,
};

verus! {

broadcast use vstd::string::group_string_axioms;

/// The views of a sequence of string slices.
pub open spec fn views(v: Seq<&str>) -> Seq<Seq<char>> {
    v.map_values(|s: &str| s@)
}

/// The empty string.
pub fn empty_str() -> (r: &'static str)
    ensures
        r@ == Seq::<char>::empty(),
{
    proof {
        reveal_strlit("");
    }
    ""
}

// ---------------------------------------------------------------------------
// get_until / skip_to
// ---------------------------------------------------------------------------

/// What comes before the first `until` in `data`, and what comes after it.
/// An empty `until` takes the whole of `data`; a missing one gives nothing and
/// leaves `data` whole.
pub open spec fn spec_get_until(data: Seq<char>, until: Seq<char>) -> (Seq<char>, Seq<char>) {
    if until.len() == 0 {
        (data, Seq::empty())
    } else {
        match spec_find(data, until) {
            None => (Seq::empty(), data),
            Some(i) => (data.subrange(0, i), data.subrange(i + until.len(), data.len() as int)),
        }
    }
}

pub fn get_until<'a>(data_slice: &'a str, until: &str) -> (r: (&'a str, &'a str))
    ensures
        (r.0@, r.1@) == spec_get_until(data_slice@, until@),
{
    let data = chars_of(data_slice);
    let pat = chars_of(until);
    if pat.len() == 0 {
        return (data_slice, data_slice.substring_char(data.len(), data.len()));
    }
    match find_chars(data.as_slice(), pat.as_slice()) {
        None => (empty_str(), data_slice),
        Some(i) => {
            let n = data.len();
            proof {
                lemma_find_some(data@, pat@, i as int);
            }
            (data_slice.substring_char(0, i), data_slice.substring_char(i + pat.len(), n))
        },
    }
}

/// What comes after the first `tag` in `data`; nothing when `tag` is missing.
pub open spec fn spec_skip_to(data: Seq<char>, tag: Seq<char>) -> Seq<char> {
    match spec_find(data, tag) {
        None => Seq::empty(),
        Some(i) => data.subrange(i + tag.len(), data.len() as int),
    }
}

pub fn skip_to<'a>(data_slice: &'a str, tag: &str) -> (r: &'a str)
    ensures
        r@ == spec_skip_to(data_slice@, tag@),
{
    let data = chars_of(data_slice);
    let pat = chars_of(tag);
    match find_chars(data.as_slice(), pat.as_slice()) {
        None => empty_str(),
        Some(i) => {
            let n = data.len();
            proof {
                lemma_find_some(data@, pat@, i as int);
            }
            data_slice.substring_char(i + pat.len(), n)
        },
    }
}

// ---------------------------------------------------------------------------
// Byte offsets
// ---------------------------------------------------------------------------

/// Number of bytes of the UTF-8 encoding of `c`.
pub open spec fn utf8_width(c: char) -> nat {
    if (c as u32) < 0x80 {
        1
    } else if (c as u32) < 0x800 {
        2
    } else if (c as u32) < 0x10000 {
        3
    } else {
        4
    }
}

/// Byte offset of character index `i` in `s`, i.e. the length of the UTF-8
/// encoding of the first `i` characters.
pub open spec fn byte_offset(s: Seq<char>, i: int) -> nat {
    vstd::utf8::encode_utf8(s.subrange(0, i)).len()
}

proof fn lemma_encode_concat(a: Seq<char>, b: Seq<char>)
    ensures
        vstd::utf8::encode_utf8(a + b) == vstd::utf8::encode_utf8(a) + vstd::utf8::encode_utf8(b),
    decreases a.len(),
{
    if a.len() == 0 {
        assert(a + b =~= b);
        assert(vstd::utf8::encode_utf8(a) =~= Seq::<u8>::empty());
    } else {
        lemma_encode_concat(a.drop_first(), b);
        assert((a + b).drop_first() =~= a.drop_first() + b);
        assert((a + b)[0] == a[0]);
        assert(vstd::utf8::encode_utf8(a + b) =~= vstd::utf8::encode_scalar(a[0] as u32)
            + vstd::utf8::encode_utf8(a.drop_first() + b));
    }
}

proof fn lemma_encode_single(c: char)
    ensures
        vstd::utf8::encode_utf8(seq![c]).len() == utf8_width(c),
{
    let s = seq![c];
    assert(s.drop_first() =~= Seq::<char>::empty());
    assert(vstd::utf8::encode_utf8(s) == vstd::utf8::encode_scalar(c as u32)
        + vstd::utf8::encode_utf8(s.drop_first()));
}

fn char_width(c: char) -> (w: usize)
    ensures
        w == utf8_width(c),
{
    let u = c as u32;
    if u < 0x80 {
        1
    } else if u < 0x800 {
        2
    } else if u < 0x10000 {
        3
    } else {
        4
    }
}

/// Byte offset of character index `i` in `s`.
pub fn byte_offset_of(s: &[char], i: usize) -> (r: usize)
    requires
        i <= s@.len(),
        byte_offset(s@, i as int) <= usize::MAX,
    ensures
        r == byte_offset(s@, i as int),
{
    let mut k: usize = 0;
    let mut acc: usize = 0;
    assert(s@.subrange(0, 0) =~= Seq::<char>::empty());
    assert(vstd::utf8::encode_utf8(Seq::<char>::empty()) =~= Seq::<u8>::empty());
    while k < i
        invariant
            k <= i <= s@.len(),
            byte_offset(s@, i as int) <= usize::MAX,
            acc == byte_offset(s@, k as int),
        decreases i - k,
    {
        proof {
            assert(s@.subrange(0, k + 1) =~= s@.subrange(0, k as int) + seq![s@[k as int]]);
            lemma_encode_concat(s@.subrange(0, k as int), seq![s@[k as int]]);
            lemma_encode_single(s@[k as int]);
            assert(s@.subrange(0, i as int) =~= s@.subrange(0, k + 1) + s@.subrange(k + 1, i as int));
            lemma_encode_concat(s@.subrange(0, k + 1), s@.subrange(k + 1, i as int));
        }
        acc = acc + char_width(s[k]);
        k = k + 1;
    }
    acc
}

/// Whether the UTF-8 encoding of `s` (what `str::len` counts) is longer than
/// `n` bytes.
pub fn byte_len_exceeds(s: &[char], n: usize) -> (r: bool)
    ensures
        r == (vstd::utf8::encode_utf8(s@).len() > n),
{
    let mut k: usize = 0;
    let mut acc: usize = 0;
    assert(s@.subrange(0, 0) =~= Seq::<char>::empty());
    assert(vstd::utf8::encode_utf8(Seq::<char>::empty()) =~= Seq::<u8>::empty());
    while k < s.len()
        invariant
            k <= s@.len(),
            acc == byte_offset(s@, k as int),
            acc <= n,
        decreases s.len() - k,
    {
        proof {
            assert(s@.subrange(0, k + 1) =~= s@.subrange(0, k as int) + seq![s@[k as int]]);
            lemma_encode_concat(s@.subrange(0, k as int), seq![s@[k as int]]);
            lemma_encode_single(s@[k as int]);
            assert(s@ =~= s@.subrange(0, k + 1) + s@.subrange(k + 1, s@.len() as int));
            lemma_encode_concat(s@.subrange(0, k + 1), s@.subrange(k + 1, s@.len() as int));
        }
        let w = char_width(s[k]);
        if w > n - acc {
            return true;
        }
        acc = acc + w;
        k = k + 1;
    }
    assert(s@.subrange(0, s@.len() as int) =~= s@);
    false
}


/// The character index at which byte `b` of `s` begins, when `b` is a
/// character boundary of `s`.
pub open spec fn char_index_of_byte(s: Seq<char>, b: int) -> Option<int>
    decreases s.len(),
{
    if b == 0 {
        Some(0)
    } else if s.len() == 0 || b < utf8_width(s[0]) {
        None
    } else {
        match char_index_of_byte(s.drop_first(), b - utf8_width(s[0])) {
            Some(c) => Some(c + 1),
            None => None,
        }
    }
}

proof fn lemma_char_index_of_byte_range(s: Seq<char>, b: int)
    ensures
        char_index_of_byte(s, b) matches Some(c) ==> 0 <= c <= s.len(),
    decreases s.len(),
{
    if b != 0 && s.len() != 0 && b >= utf8_width(s[0]) {
        lemma_char_index_of_byte_range(s.drop_first(), b - utf8_width(s[0]));
    }
}

/// `str::get(b..)`: the text from byte `b` on, when `b` is a character
/// boundary.
pub fn get_from_byte<'a>(s: &'a str, b: usize) -> (r: Option<&'a str>)
    ensures
        match char_index_of_byte(s@, b as int) {
            Some(c) => r matches Some(t) && t@ == s@.subrange(c, s@.len() as int),
            None => r is None,
        },
{
    let v = chars_of(s);
    let n = v.len();
    let mut k: usize = 0;
    let mut rem: usize = b;
    proof {
        lemma_char_index_of_byte_range(s@, b as int);
        assert(v@.subrange(0, n as int) =~= v@);
    }
    while rem != 0
        invariant
            k <= n == v@.len(),
            v@ == s@,
            char_index_of_byte(s@, b as int) == match char_index_of_byte(
                v@.subrange(k as int, n as int),
                rem as int,
            ) {
                Some(c) => Some(c + k),
                None => None,
            },
        decreases rem,
    {
        let ghost sub = v@.subrange(k as int, n as int);
        if k == n {
            assert(sub.len() == 0);
            return None;
        }
        let w = char_width(v[k]);
        assert(sub[0] == v@[k as int]);
        if rem < w {
            return None;
        }
        assert(sub.drop_first() =~= v@.subrange(k + 1, n as int));
        rem = rem - w;
        k = k + 1;
    }
    Some(s.substring_char(k, n))
}

// ---------------------------------------------------------------------------
// slice_between_inclusive / split_off
// ---------------------------------------------------------------------------

/// From the first `start` up to and including the first `end`, when the first
/// `start` comes before the first `end`; also the character indices of both.
pub open spec fn spec_slice_between_chars(s: Seq<char>, start: Seq<char>, end: Seq<char>) -> Option<
    (Seq<char>, int, int),
> {
    match (spec_find(s, start), spec_find(s, end)) {
        (Some(a), Some(b)) => if a < b {
            Some((s.subrange(a, b + end.len()), a, b))
        } else {
            None
        },
        _ => None,
    }
}

/// The slice from the first `start` through the first `end` (inclusive), with
/// the byte offsets of both, when `start` is found before `end`.
pub fn slice_between_inclusive<'a>(source: &'a str, start: &'a str, end: &'a str) -> (r: Option<
    (&'a str, usize, usize),
>)
    ensures
        match spec_slice_between_chars(source@, start@, end@) {
            None => r is None,
            Some((piece, a, b)) => r matches Some((p, x, y)) && p@ == piece && x == byte_offset(
                source@,
                a,
            ) && y == byte_offset(source@, b),
        },
{
    let s = chars_of(source);
    let sp = chars_of(start);
    let ep = chars_of(end);
    let n = s.len();
    proof {
        lemma_find_facts(s@, sp@);
        lemma_find_facts(s@, ep@);
    }
    if let Some(a) = find_chars(s.as_slice(), sp.as_slice()) {
        if let Some(b) = find_chars(s.as_slice(), ep.as_slice()) {
            if a < b {
                let bytes = source.as_bytes();
                proof {
                    lemma_find_some(s@, ep@, b as int);
                    lemma_byte_offset_bound(s@, a as int);
                    lemma_byte_offset_bound(s@, b as int);
                    assert(bytes@.len() == bytes.len());
                }
                let x = byte_offset_of(s.as_slice(), a);
                let y = byte_offset_of(s.as_slice(), b);
                return Some((source.substring_char(a, b + ep.len()), x, y));
            }
            return None;
        }
        return None;
    }
    None
}

/// A byte offset within `s` is at most the length of its encoding.
pub proof fn lemma_byte_offset_bound(s: Seq<char>, i: int)
    requires
        0 <= i <= s.len(),
    ensures
        byte_offset(s, i) <= vstd::utf8::encode_utf8(s).len(),
{
    assert(s =~= s.subrange(0, i) + s.subrange(i, s.len() as int));
    lemma_encode_concat(s.subrange(0, i), s.subrange(i, s.len() as int));
}

/// Split `s` before the first occurrence of the first character of `delim`
/// that occurs in `s`.
pub open spec fn spec_split_off(s: Seq<char>, delim: Seq<char>) -> Option<(Seq<char>, Seq<char>)>
    decreases delim.len(),
{
    if delim.len() == 0 {
        None
    } else {
        match spec_find(s, seq![delim[0]]) {
            Some(i) => Some((s.subrange(0, i), s.subrange(i, s.len() as int))),
            None => spec_split_off(s, delim.drop_first()),
        }
    }
}

pub fn split_off<'a>(source: &'a str, delim: &'a str) -> (r: Option<(&'a str, &'a str)>)
    ensures
        match spec_split_off(source@, delim@) {
            None => r is None,
            Some((a, b)) => r matches Some((x, y)) && x@ == a && y@ == b,
        },
{
    let s = chars_of(source);
    let d = chars_of(delim);
    let n = s.len();
    let mut k: usize = 0;
    assert(d@.skip(0) =~= d@);
    while k < d.len()
        invariant
            k <= d@.len(),
            n == s@.len(),
            s@ == source@,
            d@ == delim@,
            spec_split_off(source@, d@) == spec_split_off(source@, d@.skip(k as int)),
        decreases d.len() - k,
    {
        let mut one: Vec<char> = Vec::new();
        one.push(d[k]);
        assert(one@ =~= seq![d@.skip(k as int)[0]]);
        assert(d@.skip(k as int).drop_first() =~= d@.skip(k + 1));
        let ghost dk = d@.skip(k as int);
        assert(dk.len() > 0);
        if let Some(i) = find_chars(s.as_slice(), one.as_slice()) {
            proof {
                lemma_find_some(s@, one@, i as int);
                assert(spec_split_off(source@, dk) == Some(
                    (source@.subrange(0, i as int), source@.subrange(i as int, n as int)),
                ));
            }
            return Some((source.substring_char(0, i), source.substring_char(i, n)));
        }
        assert(spec_split_off(source@, dk) == spec_split_off(source@, dk.drop_first()));
        k = k + 1;
    }
    None
}

// ---------------------------------------------------------------------------
// Tags
// ---------------------------------------------------------------------------

/// `data` without what lies from the first `tag_begin` up to the first
/// `tag_end`; empty when either is missing; `None` when the first `tag_end`
/// comes before the first `tag_begin` (a range that cannot be removed).
pub open spec fn spec_clear_tag(data: Seq<char>, tag_begin: Seq<char>, tag_end: Seq<char>) -> Option<
    Seq<char>,
> {
    match (spec_find(data, tag_begin), spec_find(data, tag_end)) {
        (Some(b), Some(e)) => if b <= e {
            Some(data.subrange(0, b) + data.subrange(e, data.len() as int))
        } else {
            None
        },
        _ => Some(Seq::empty()),
    }
}

/// `clear_tag`, or `None` where the range to remove would be reversed.
pub fn try_clear_tag(data_slice: &str, tag_begin: &str, tag_end: &str) -> (r: Option<String>)
    ensures
        match spec_clear_tag(data_slice@, tag_begin@, tag_end@) {
            None => r is None,
            Some(v) => r matches Some(x) && x@ == v,
        },
{
    let d = chars_of(data_slice);
    let b = chars_of(tag_begin);
    let e = chars_of(tag_end);
    let begin_idx = find_chars(d.as_slice(), b.as_slice());
    let end_idx = find_chars(d.as_slice(), e.as_slice());
    match (begin_idx, end_idx) {
        (Some(x), Some(y)) => {
            if x <= y {
                proof {
                    lemma_find_some(d@, e@, y as int);
                }
                let kept = remove_range(d.as_slice(), x, y);
                Some(string_from_chars(kept.as_slice()))
            } else {
                None
            }
        },
        _ => {
            let empty: Vec<char> = Vec::new();
            Some(string_from_chars(empty.as_slice()))
        },
    }
}

/// `data` without what lies from the first `tag_begin` up to the first
/// `tag_end`; empty when either is missing.
pub fn clear_tag(data_slice: &str, tag_begin: &str, tag_end: &str) -> (r: String)
    requires
        spec_clear_tag(data_slice@, tag_begin@, tag_end@) is Some,
    ensures
        r@ == spec_clear_tag(data_slice@, tag_begin@, tag_end@)->0,
{
    match try_clear_tag(data_slice, tag_begin, tag_end) {
        Some(r) => r,
        None => String::new(),
    }
}

/// What lies between the first `tag_begin` and the first `tag_end`, and what
/// follows that `tag_end`; two empty strings when either tag is missing or
/// the first `tag_end` starts before the first `tag_begin` ends.
pub open spec fn spec_slice_inside_tags(data: Seq<char>, tag_begin: Seq<char>, tag_end: Seq<char>) -> (
    Seq<char>,
    Seq<char>,
) {
    match (spec_find(data, tag_begin), spec_find(data, tag_end)) {
        (Some(b), Some(e)) => if b + tag_begin.len() <= e {
            (data.subrange(b + tag_begin.len(), e), data.subrange(e + tag_end.len(), data.len() as int))
        } else {
            (Seq::empty(), Seq::empty())
        },
        _ => (Seq::empty(), Seq::empty()),
    }
}

pub fn get_slice_inside_tags<'a>(data_slice: &'a str, tag_begin: &str, tag_end: &str) -> (r: (
    &'a str,
    &'a str,
))
    ensures
        (r.0@, r.1@) == spec_slice_inside_tags(data_slice@, tag_begin@, tag_end@),
{
    let d = chars_of(data_slice);
    let b = chars_of(tag_begin);
    let e = chars_of(tag_end);
    let n = d.len();
    let begin_idx = find_chars(d.as_slice(), b.as_slice());
    let end_idx = find_chars(d.as_slice(), e.as_slice());
    match (begin_idx, end_idx) {
        (Some(x), Some(y)) => {
            proof {
                lemma_find_some(d@, e@, y as int);
                lemma_find_some(d@, b@, x as int);
            }
            if x + b.len() <= y {
                (data_slice.substring_char(x + b.len(), y), data_slice.substring_char(y + e.len(), n))
            } else {
                (empty_str(), empty_str())
            }
        },
        _ => (empty_str(), empty_str()),
    }
}

/// Remove every `<...>` tag, from the first `<` through the first `>` after
/// it, then turn each `&#160;` into a space; empty when a `<` has no `>` or
/// the first `>` comes before the first `<`.
pub open spec fn spec_clear_all_tags(s: Seq<char>) -> Seq<char>
    decreases s.len(),
{
    match spec_find(s, seq!['<']) {
        None => spec_replace(s, "&#160;"@, " "@),
        Some(b) => match spec_find(s, seq!['>']) {
            None => Seq::empty(),
            Some(e) => if b > e {
                Seq::empty()
            } else {
                proof {
                    lemma_find_some(s, seq!['>'], e);
                }
                spec_clear_all_tags(s.subrange(0, b) + s.subrange(e + 1, s.len() as int))
            },
        },
    }
}

pub fn clear_all_tags(data_slice: &str) -> (r: String)
    ensures
        r@ == spec_clear_all_tags(data_slice@),
{
    let mut cur = chars_of(data_slice);
    let mut lt: Vec<char> = Vec::new();
    lt.push('<');
    let mut gt: Vec<char> = Vec::new();
    gt.push('>');
    let nbsp = chars_of("&#160;");
    let space = chars_of(" ");
    proof {
        reveal_strlit("&#160;");
    }
    assert(lt@ =~= seq!['<']);
    assert(gt@ =~= seq!['>']);
    loop
        invariant
            lt@ == seq!['<'],
            gt@ == seq!['>'],
            nbsp@ == "&#160;"@,
            nbsp@.len() > 0,
            space@ == " "@,
            spec_clear_all_tags(data_slice@) == spec_clear_all_tags(cur@),
        decreases cur@.len(),
    {
        match find_chars(cur.as_slice(), lt.as_slice()) {
            None => {
                let replaced = replace_chars(cur.as_slice(), nbsp.as_slice(), space.as_slice());
                return string_from_chars(replaced.as_slice());
            },
            Some(b) => {
                match find_chars(cur.as_slice(), gt.as_slice()) {
                    None => {
                        return String::new();
                    },
                    Some(e) => {
                        if b > e {
                            return String::new();
                        }
                        let n = cur.len();
                        proof {
                            lemma_find_some(cur@, gt@, e as int);
                        }
                        cur = remove_range(cur.as_slice(), b, e + 1);
                    },
                }
            },
        }
    }
}

/// When `spec_find` finds no `c`, `s` holds no `c`.
proof fn lemma_find_none_char(s: Seq<char>, c: char)
    requires
        spec_find(s, seq![c]) is None,
    ensures
        !s.contains(c),
{
    lemma_find_facts(s, seq![c]);
    if s.contains(c) {
        let j = choose|j: int| 0 <= j < s.len() && s[j] == c;
        assert(s.subrange(j, j + 1) =~= seq![c]);
        assert(crate::text::occurs_at(s, seq![c], j));
    }
}

/// Replacing pieces by a text without `c` brings no `c` in.
proof fn lemma_replace_keeps_out(s: Seq<char>, from: Seq<char>, to: Seq<char>, c: char)
    requires
        !s.contains(c),
        !to.contains(c),
    ensures
        !spec_replace(s, from, to).contains(c),
    decreases s.len(),
{
    if from.len() > 0 {
        if let Some(i) = spec_find(s, from) {
            lemma_find_some(s, from, i);
            let tail = s.subrange(i + from.len(), s.len() as int);
            assert forall|k: int| 0 <= k < tail.len() implies tail[k] != c by {
                assert(tail[k] == s[i + from.len() + k]);
            }
            lemma_replace_keeps_out(tail, from, to, c);
            let a = s.subrange(0, i);
            let r = a + to + spec_replace(tail, from, to);
            assert forall|k: int| 0 <= k < r.len() implies r[k] != c by {
                if k < a.len() {
                    assert(r[k] == s[k]);
                } else if k < a.len() + to.len() {
                    assert(r[k] == to[k - a.len()]);
                } else {
                    assert(r[k] == spec_replace(tail, from, to)[k - a.len() - to.len()]);
                }
            }
        }
    }
}

/// Clearing the tags leaves no `<` in the text.
pub proof fn lemma_clear_all_tags_no_open(s: Seq<char>)
    ensures
        !spec_clear_all_tags(s).contains('<'),
    decreases s.len(),
{
    match spec_find(s, seq!['<']) {
        None => {
            lemma_find_none_char(s, '<');
            reveal_strlit(" ");
            assert(" "@ =~= seq![' ']);
            lemma_replace_keeps_out(s, "&#160;"@, " "@, '<');
        },
        Some(b) => match spec_find(s, seq!['>']) {
            None => {},
            Some(e) => if b <= e {
                lemma_find_some(s, seq!['>'], e);
                lemma_find_some(s, seq!['<'], b);
                let t = s.subrange(0, b) + s.subrange(e + 1, s.len() as int);
                lemma_clear_all_tags_no_open(t);
            },
        },
    }
}

// ---------------------------------------------------------------------------
// Splitting into fields
// ---------------------------------------------------------------------------

/// The position `fill_array_from_available` uses to mean "no field missed".
pub const NO_MISSED_FIELD: usize = 99;

/// State of `fill_array_from_available` after a number of markers: the text
/// still to split, the slot of a field whose marker was missing (or
/// `NO_MISSED_FIELD`), and the fields so far.
pub open spec fn spec_fill_state(data: Seq<char>, until: Seq<Seq<char>>, k: nat) -> (
    Seq<char>,
    int,
    Seq<Seq<char>>,
)
    decreases k,
{
    if k == 0 {
        (data, NO_MISSED_FIELD as int, Seq::empty())
    } else {
        let (next, missed, arr) = spec_fill_state(data, until, (k - 1) as nat);
        let i = k - 1;
        let (el, rest) = spec_get_until(next, until[i]);
        let missed1 = if el.len() == 0 && missed == NO_MISSED_FIELD && i != 0 {
            i
        } else {
            missed
        };
        if missed1 == NO_MISSED_FIELD || el.len() == 0 {
            (rest, missed1, arr.push(spec_trim(el)))
        } else {
            (rest, NO_MISSED_FIELD as int, arr.insert(missed1, spec_trim(el)))
        }
    }
}

/// The fields of `data` between the successive markers `until`: each marker
/// ends one field; a field whose marker is missing is left empty and the text
/// found later is put back in its slot; every field is trimmed.
pub open spec fn spec_fill_array(data: Seq<char>, until: Seq<Seq<char>>) -> Seq<Seq<char>> {
    let (next, missed, arr) = spec_fill_state(data, until, until.len());
    if missed == NO_MISSED_FIELD {
        arr.push(spec_trim(next))
    } else {
        arr.insert(missed, spec_trim(next)).push(Seq::empty())
    }
}

proof fn lemma_fill_state_shape(data: Seq<char>, until: Seq<Seq<char>>, k: nat)
    ensures
        spec_fill_state(data, until, k).2.len() == k,
        spec_fill_state(data, until, k).1 == NO_MISSED_FIELD || (0 <= spec_fill_state(
            data,
            until,
            k,
        ).1 < k),
    decreases k,
{
    if k > 0 {
        lemma_fill_state_shape(data, until, (k - 1) as nat);
    }
}

pub fn fill_array_from_available<'a>(data_slice: &'a str, until: &[&str]) -> (r: Vec<&'a str>)
    ensures
        views(r@) == spec_fill_array(data_slice@, views(until@)),
{
    let ghost u = views(until@);
    let mut result_arr: Vec<&'a str> = Vec::new();
    let mut next: &'a str = data_slice;
    let mut missed_i: usize = NO_MISSED_FIELD;
    let mut i: usize = 0;
    while i < until.len()
        invariant
            i <= until@.len(),
            u == views(until@),
            (next@, missed_i as int, views(result_arr@)) == spec_fill_state(
                data_slice@,
                u,
                i as nat,
            ),
        decreases until.len() - i,
    {
        proof {
            lemma_fill_state_shape(data_slice@, u, i as nat);
        }
        let ghost old_arr = result_arr@;
        let (el, rest) = get_until(next, until[i]);
        next = rest;
        let is_empty = el.unicode_len() == 0;
        if is_empty && missed_i == NO_MISSED_FIELD && i != 0 {
            missed_i = i;
        }
        let t = trim_str(el);
        if missed_i == NO_MISSED_FIELD || is_empty {
            result_arr.push(t);
            assert(views(result_arr@) =~= views(old_arr).push(t@));
        } else {
            result_arr.insert(missed_i, t);
            assert(views(result_arr@) =~= views(old_arr).insert(missed_i as int, t@));
            missed_i = NO_MISSED_FIELD;
        }
        i = i + 1;
    }
    proof {
        lemma_fill_state_shape(data_slice@, u, i as nat);
        assert(u.len() == until@.len());
    }
    let ghost old_arr = result_arr@;
    let (last, _) = get_until(next, empty_str());
    let t = trim_str(last);
    if missed_i == NO_MISSED_FIELD {
        result_arr.push(t);
        assert(views(result_arr@) =~= views(old_arr).push(t@));
    } else {
        result_arr.insert(missed_i, t);
        let ghost mid = result_arr@;
        assert(views(mid) =~= views(old_arr).insert(missed_i as int, t@));
        result_arr.push(empty_str());
        assert(views(result_arr@) =~= views(mid).push(Seq::<char>::empty()));
    }
    result_arr
}

fn copy_strs<'a>(v: &Vec<&'a str>) -> (r: Vec<&'a str>)
    ensures
        r@ == v@,
{
    let mut r: Vec<&'a str> = Vec::new();
    let mut i: usize = 0;
    while i < v.len()
        invariant
            i <= v@.len(),
            r@ == v@.subrange(0, i as int),
        decreases v.len() - i,
    {
        r.push(v[i]);
        assert(v@.subrange(0, i + 1) =~= v@.subrange(0, i as int).push(v@[i as int]));
        i = i + 1;
    }
    assert(v@.subrange(0, v@.len() as int) =~= v@);
    r
}

/// The fields `fill_array_from_available` has gathered after each marker, in
/// order: entry `k` is the list after marker `k` has been read.
pub fn fill_array_trace<'a>(data_slice: &'a str, until: &[&str]) -> (r: Vec<Vec<&'a str>>)
    ensures
        r@.len() == until@.len(),
        forall|k: int|
            0 <= k < r@.len() ==> views((#[trigger] r@[k])@) == spec_fill_state(
                data_slice@,
                views(until@),
                (k + 1) as nat,
            ).2,
{
    let ghost u = views(until@);
    let mut trace: Vec<Vec<&'a str>> = Vec::new();
    let mut result_arr: Vec<&'a str> = Vec::new();
    let mut next: &'a str = data_slice;
    let mut missed_i: usize = NO_MISSED_FIELD;
    let mut i: usize = 0;
    while i < until.len()
        invariant
            i <= until@.len(),
            u == views(until@),
            (next@, missed_i as int, views(result_arr@)) == spec_fill_state(data_slice@, u, i as nat),
            trace@.len() == i,
            forall|k: int|
                0 <= k < i ==> views((#[trigger] trace@[k])@) == spec_fill_state(
                    data_slice@,
                    u,
                    (k + 1) as nat,
                ).2,
        decreases until.len() - i,
    {
        proof {
            lemma_fill_state_shape(data_slice@, u, i as nat);
        }
        let ghost old_arr = result_arr@;
        let (el, rest) = get_until(next, until[i]);
        next = rest;
        let is_empty = el.unicode_len() == 0;
        if is_empty && missed_i == NO_MISSED_FIELD && i != 0 {
            missed_i = i;
        }
        let t = trim_str(el);
        if missed_i == NO_MISSED_FIELD || is_empty {
            result_arr.push(t);
            assert(views(result_arr@) =~= views(old_arr).push(t@));
        } else {
            result_arr.insert(missed_i, t);
            assert(views(result_arr@) =~= views(old_arr).insert(missed_i as int, t@));
            missed_i = NO_MISSED_FIELD;
        }
        let step = copy_strs(&result_arr);
        trace.push(step);
        i = i + 1;
    }
    trace
}

/// The pieces `flatten_str_list` puts in place of the element it splits: the
/// text up to each `delim`, stopping at the first empty piece, then what is
/// left after that piece.
pub open spec fn spec_pieces(base: Seq<char>, delim: Seq<char>) -> Seq<Seq<char>>
    decreases base.len(),
{
    let (el, next) = spec_get_until(base, delim);
    if el.len() == 0 {
        seq![next]
    } else {
        proof {
            lemma_get_until_shrinks(base, delim);
        }
        seq![el] + spec_pieces(next, delim)
    }
}

/// Taking a non-empty piece off with `get_until` leaves less text.
pub proof fn lemma_get_until_shrinks(base: Seq<char>, delim: Seq<char>)
    ensures
        spec_get_until(base, delim).0.len() > 0 ==> spec_get_until(base, delim).1.len()
            < base.len(),
{
    if delim.len() > 0 {
        if let Some(i) = spec_find(base, delim) {
            lemma_find_some(base, delim, i);
        }
    }
}

proof fn lemma_pieces_nonempty(base: Seq<char>, delim: Seq<char>)
    ensures
        spec_pieces(base, delim).len() >= 1,
    decreases base.len(),
{
    let (el, next) = spec_get_until(base, delim);
    if el.len() > 0 {
        lemma_get_until_shrinks(base, delim);
        lemma_pieces_nonempty(next, delim);
    }
}

/// Replace the element at `list_idx` by its pieces split at `delim`; returns
/// the number of pieces.
pub fn flatten_str_list(orig_arr: &mut Vec<&str>, list_idx: usize, delim: &str) -> (r: usize)
    requires
        list_idx < old(orig_arr)@.len(),
    ensures
        r == spec_pieces(old(orig_arr)@[list_idx as int]@, delim@).len(),
        views(final(orig_arr)@) == views(old(orig_arr)@.subrange(0, list_idx as int)) + spec_pieces(
            old(orig_arr)@[list_idx as int]@,
            delim@,
        ) + views(old(orig_arr)@.subrange(list_idx + 1, old(orig_arr)@.len() as int)),
{
    let ghost orig = orig_arr@;
    let mut base = orig_arr.remove(list_idx);
    let ghost pieces = spec_pieces(base@, delim@);
    let ghost front = views(orig.subrange(0, list_idx as int));
    let ghost back = views(orig.subrange(list_idx + 1, orig.len() as int));
    assert(views(orig_arr@) =~= front + back);
    let mut number_of_inserts: usize = 0;
    let mut idx = list_idx;
    let mut last = empty_str();
    assert(pieces.subrange(0, 0) =~= Seq::<Seq<char>>::empty());
    assert(pieces.subrange(0, pieces.len() as int) =~= pieces);
    proof {
        lemma_pieces_nonempty(base@, delim@);
    }
    loop
        invariant
            idx == list_idx + number_of_inserts,
            pieces == spec_pieces(orig[list_idx as int]@, delim@),
            spec_pieces(base@, delim@) == pieces.subrange(number_of_inserts as int, pieces.len() as int),
            number_of_inserts < pieces.len(),
            views(orig_arr@) == front + pieces.subrange(0, number_of_inserts as int) + back,
            front.len() == list_idx,
            orig_arr@.len() == front.len() + number_of_inserts + back.len(),
        ensures
            spec_pieces(base@, delim@) == seq![last@],
        decreases base@.len(),
    {
        let ghost b0 = base@;
        let (new_el, next) = get_until(base, delim);
        if new_el.unicode_len() == 0 {
            last = next;
            break;
        }
        proof {
            lemma_get_until_shrinks(b0, delim@);
            lemma_pieces_nonempty(next@, delim@);
            assert(spec_pieces(b0, delim@) =~= seq![new_el@] + spec_pieces(next@, delim@));
            assert(spec_pieces(b0, delim@)[0] == new_el@);
            assert(pieces.subrange(number_of_inserts as int, pieces.len() as int)[0] == pieces[number_of_inserts as int]);
            assert(pieces[number_of_inserts as int] == new_el@);
            assert(pieces.subrange(number_of_inserts + 1, pieces.len() as int) =~= spec_pieces(
                b0,
                delim@,
            ).drop_first());
        }
        base = next;
        let ghost before = orig_arr@;
        orig_arr.insert(idx, new_el);
        proof {
            assert(views(orig_arr@) =~= views(before).insert(idx as int, new_el@));
            assert(pieces.subrange(0, number_of_inserts + 1) =~= pieces.subrange(
                0,
                number_of_inserts as int,
            ).push(new_el@));
            assert(views(orig_arr@) =~= front + pieces.subrange(0, number_of_inserts + 1) + back);
        }
        let cur_len = orig_arr.len();
        number_of_inserts = number_of_inserts + 1;
        idx = idx + 1;
    }
    let ghost before = orig_arr@;
    orig_arr.insert(idx, last);
    let total = orig_arr.len();
    number_of_inserts = number_of_inserts + 1;
    proof {
        assert(pieces.subrange((number_of_inserts - 1) as int, pieces.len() as int) == seq![last@]);
        assert(pieces.len() == number_of_inserts);
        assert(pieces.subrange((number_of_inserts - 1) as int, pieces.len() as int)[0] == pieces[(number_of_inserts - 1) as int]);
        assert(pieces =~= pieces.subrange(0, (number_of_inserts - 1) as int).push(last@));
        assert(views(orig_arr@) =~= views(before).insert(idx as int, last@));
        assert(views(orig_arr@) =~= front + pieces + back);
    }
    number_of_inserts
}

// ---------------------------------------------------------------------------
// Comma-separated lists
// ---------------------------------------------------------------------------

/// The characters trimmed from both ends of a comma-separated field.
pub open spec fn list_trim_set() -> Seq<char> {
    seq![' ', ',', ';', '.']
}

/// The entries of a comma-separated field, in order: the trimmed comma-separated pieces,
/// the last one kept only when it is longer than two bytes.
pub open spec fn spec_comma_blocks(field: Seq<char>) -> Seq<Seq<char>> {
    let parts = split_all(spec_trim_set(field, list_trim_set()), ","@);
    let inner = Seq::new((parts.len() - 1) as nat, |i: int| spec_trim(parts[i]));
    let last = spec_trim(parts.last());
    if vstd::utf8::encode_utf8(last).len() > 2 {
        inner.push(last)
    } else {
        inner
    }
}

/// Splitting gives at least one piece.
pub proof fn lemma_split_all_nonempty(s: Seq<char>, p: Seq<char>)
    ensures
        split_all(s, p).len() >= 1,
{
    if p.len() > 0 {
        if let Some(i) = spec_find(s, p) {
            lemma_find_some(s, p, i);
        }
    }
}

/// The entries of a comma-separated field are its trimmed pieces, the last
/// one only when longer than two bytes.
pub proof fn lemma_comma_blocks_facts(field: Seq<char>)
    ensures
        ({
            let parts = split_all(spec_trim_set(field, list_trim_set()), ","@);
            let blocks = spec_comma_blocks(field);
            &&& parts.len() >= 1
            &&& blocks.len() == parts.len() - 1 || blocks.len() == parts.len()
            &&& blocks.len() == parts.len() <==> vstd::utf8::encode_utf8(spec_trim(parts.last())).len() > 2
            &&& forall|i: int| 0 <= i < parts.len() - 1 ==> #[trigger] blocks[i] == spec_trim(parts[i])
            &&& blocks.len() == parts.len() ==> blocks[parts.len() - 1] == spec_trim(parts.last())
        }),
{
    lemma_split_all_nonempty(spec_trim_set(field, list_trim_set()), ","@);
}

/// The entries of a comma-separated field (see `spec_comma_blocks`).
pub fn comma_blocks<'a>(field: &'a str) -> (r: Vec<&'a str>)
    ensures
        views(r@) == spec_comma_blocks(field@),
{
    let trim_check = vec![' ', ',', ';', '.'];
    assert(trim_check@ =~= list_trim_set());
    let base = trim_set_str(field, trim_check.as_slice());
    let v = chars_of(base);
    let comma = vec![','];
    proof {
        reveal_strlit(",");
        assert(comma@ =~= ","@);
        assert(","@ =~= seq![',']);
    }
    let n = v.len();
    let ghost parts = split_all(base@, ","@);
    proof {
        lemma_split_all_nonempty(base@, ","@);
        assert(v@.subrange(0, n as int) =~= v@);
        assert(parts.subrange(0, parts.len() as int) =~= parts);
    }
    let mut out: Vec<&'a str> = Vec::new();
    let mut start: usize = 0;
    loop
        invariant
            n == v@.len(),
            v@ == base@,
            comma@ == ","@,
            ","@ == seq![','],
            parts == split_all(base@, ","@),
            base@ == spec_trim_set(field@, list_trim_set()),
            start <= n,
            out@.len() < parts.len(),
            split_all(v@.subrange(start as int, n as int), ","@) == parts.subrange(
                out@.len() as int,
                parts.len() as int,
            ),
            forall|i: int| 0 <= i < out@.len() ==> #[trigger] out@[i]@ == spec_trim(parts[i]),
        ensures
            parts.len() == out@.len() + 1,
            parts.last() == v@.subrange(start as int, n as int),
            forall|i: int| 0 <= i < out@.len() ==> #[trigger] out@[i]@ == spec_trim(parts[i]),
        decreases n - start,
    {
        let ghost sub = v@.subrange(start as int, n as int);
        let k = out.len();
        match find_chars_from(v.as_slice(), comma.as_slice(), start) {
            Some(j) => {
                proof {
                    lemma_find_some(sub, ","@, j - start);
                    assert(sub.subrange(0, j - start) =~= v@.subrange(start as int, j as int));
                    assert(sub.subrange(j - start + 1, sub.len() as int) =~= v@.subrange(j + 1, n as int));
                    assert(split_all(sub, ","@) == seq![v@.subrange(start as int, j as int)] + split_all(
                        v@.subrange(j + 1, n as int),
                        ","@,
                    ));
                    assert(parts[k as int] == parts.subrange(k as int, parts.len() as int)[0]);
                    assert(parts.subrange(k + 1, parts.len() as int) =~= parts.subrange(
                        k as int,
                        parts.len() as int,
                    ).drop_first());
                    lemma_split_all_nonempty(v@.subrange(j + 1, n as int), ","@);
                }
                let block = trim_str(base.substring_char(start, j));
                out.push(block);
                start = j + 1;
            },
            None => {
                proof {
                    assert(split_all(sub, ","@) == seq![sub]);
                    assert(parts.subrange(k as int, parts.len() as int).len() == 1);
                    assert(parts.last() == parts.subrange(k as int, parts.len() as int)[0]);
                }
                break ;
            },
        }
    }
    let remainder = trim_str(base.substring_char(start, n));
    let rv = chars_of(remainder);
    proof {
        lemma_comma_blocks_facts(field@);
    }
    if byte_len_exceeds(rv.as_slice(), 2) {
        out.push(remainder);
    }
    proof {
        let blocks = spec_comma_blocks(field@);
        assert(views(out@).len() == blocks.len());
        assert forall|i: int| 0 <= i < blocks.len() implies views(out@)[i] == blocks[i] by {
            if i < parts.len() - 1 {
                assert(blocks[i] == spec_trim(parts[i]));
            }
        }
        assert(views(out@) =~= blocks);
    }
    out
}

} // verus!
