use vstd::prelude::*;
use vstd::std_specs::iter::IteratorSpec;

verus! {

broadcast use vstd::string::group_string_axioms;

// ---------------------------------------------------------------------------
// Searching
// ---------------------------------------------------------------------------

/// `p` occurs in `s` starting at character index `i`.
pub open spec fn occurs_at(s: Seq<char>, p: Seq<char>, i: int) -> bool {
    &&& 0 <= i
    &&& i + p.len() <= s.len()
    &&& s.subrange(i, i + p.len()) == p
}

/// `i` is the position of the first occurrence of `p` in `s`.
pub open spec fn is_first_occurrence(s: Seq<char>, p: Seq<char>, i: int) -> bool {
    &&& occurs_at(s, p, i)
    &&& forall|j: int| 0 <= j < i ==> !#[trigger] occurs_at(s, p, j)
}

/// `i` is the position of the last occurrence of `p` in `s`.
pub open spec fn is_last_occurrence(s: Seq<char>, p: Seq<char>, i: int) -> bool {
    &&& occurs_at(s, p, i)
    &&& forall|j: int| i < j ==> !#[trigger] occurs_at(s, p, j)
}

/// Character index of the first occurrence of `p` in `s` (what `str::find` locates).
pub open spec fn spec_find(s: Seq<char>, p: Seq<char>) -> Option<int> {
    if exists|i: int| is_first_occurrence(s, p, i) {
        Some(choose|i: int| is_first_occurrence(s, p, i))
    } else {
        None
    }
}

/// Character index of the last occurrence of `p` in `s` (what `str::rfind` locates).
pub open spec fn spec_rfind(s: Seq<char>, p: Seq<char>) -> Option<int> {
    if exists|i: int| is_last_occurrence(s, p, i) {
        Some(choose|i: int| is_last_occurrence(s, p, i))
    } else {
        None
    }
}

/// `p` occurs somewhere in `s` (what `str::contains` tests).
pub open spec fn spec_contains(s: Seq<char>, p: Seq<char>) -> bool {
    spec_find(s, p) is Some
}

/// The first occurrence is what `spec_find` locates.
pub proof fn lemma_find_is(s: Seq<char>, p: Seq<char>, i: int)
    requires
        is_first_occurrence(s, p, i),
    ensures
        spec_find(s, p) == Some(i),
{
    let k = choose|k: int| is_first_occurrence(s, p, k);
    assert(is_first_occurrence(s, p, k));
    if k < i {
        assert(!occurs_at(s, p, k));
    } else if i < k {
        assert(!occurs_at(s, p, i));
    }
}

/// What `spec_find` locates is the first occurrence, within `s`.
pub proof fn lemma_find_some(s: Seq<char>, p: Seq<char>, i: int)
    requires
        spec_find(s, p) == Some(i),
    ensures
        is_first_occurrence(s, p, i),
        0 <= i,
        i + p.len() <= s.len(),
        s.subrange(i, i + p.len()) == p,
{
    lemma_find_facts(s, p);
}

/// With no occurrence, `spec_find` locates nothing.
pub proof fn lemma_find_none(s: Seq<char>, p: Seq<char>)
    requires
        forall|j: int| !#[trigger] occurs_at(s, p, j),
    ensures
        spec_find(s, p) is None,
{
}

/// `spec_find` locates the first occurrence, or nothing when there is none.
pub proof fn lemma_find_facts(s: Seq<char>, p: Seq<char>)
    ensures
        spec_find(s, p) matches Some(i) ==> is_first_occurrence(s, p, i),
        spec_find(s, p) is None ==> forall|j: int| !#[trigger] occurs_at(s, p, j),
{
    if spec_find(s, p) is None {
        assert forall|j: int| !#[trigger] occurs_at(s, p, j) by {
            if occurs_at(s, p, j) {
                // the smallest occurrence up to j is a first occurrence
                lemma_first_below(s, p, j);
            }
        }
    }
}

proof fn lemma_first_below(s: Seq<char>, p: Seq<char>, j: int)
    requires
        occurs_at(s, p, j),
    ensures
        exists|i: int| is_first_occurrence(s, p, i),
    decreases j,
{
    if forall|k: int| 0 <= k < j ==> !#[trigger] occurs_at(s, p, k) {
        assert(is_first_occurrence(s, p, j));
    } else {
        let k = choose|k: int| 0 <= k < j && #[trigger] occurs_at(s, p, k);
        lemma_first_below(s, p, k);
    }
}

proof fn lemma_last_above(s: Seq<char>, p: Seq<char>, j: int)
    requires
        occurs_at(s, p, j),
    ensures
        exists|i: int| is_last_occurrence(s, p, i),
    decreases s.len() - j,
{
    if forall|k: int| j < k ==> !#[trigger] occurs_at(s, p, k) {
        assert(is_last_occurrence(s, p, j));
    } else {
        let k = choose|k: int| j < k && #[trigger] occurs_at(s, p, k);
        lemma_last_above(s, p, k);
    }
}

/// `spec_rfind` locates the last occurrence, or nothing when there is none.
pub proof fn lemma_rfind_facts(s: Seq<char>, p: Seq<char>)
    ensures
        spec_rfind(s, p) matches Some(i) ==> is_last_occurrence(s, p, i),
        spec_rfind(s, p) is None ==> forall|j: int| !#[trigger] occurs_at(s, p, j),
{
    if spec_rfind(s, p) is None {
        assert forall|j: int| !#[trigger] occurs_at(s, p, j) by {
            if occurs_at(s, p, j) {
                lemma_last_above(s, p, j);
            }
        }
    }
}

/// Whether `p` occurs in `s` at `i`.
pub fn matches_at(s: &[char], p: &[char], i: usize) -> (r: bool)
    ensures
        r == occurs_at(s@, p@, i as int),
{
    if i > s.len() || p.len() > s.len() - i {
        return false;
    }
    let mut k: usize = 0;
    while k < p.len()
        invariant
            i <= s.len(),
            p.len() <= s.len() - i,
            k <= p.len(),
            forall|m: int| 0 <= m < k ==> s@[i + m] == p@[m],
        decreases p.len() - k,
    {
        if s[i + k] != p[k] {
            assert(s@.subrange(i as int, i + p@.len())[k as int] != p@[k as int]);
            return false;
        }
        k = k + 1;
    }
    assert(s@.subrange(i as int, i + p@.len()) =~= p@);
    true
}

/// Character index of the first occurrence of `p` in `s`.
pub fn find_chars(s: &[char], p: &[char]) -> (r: Option<usize>)
    ensures
        match r {
            Some(i) => spec_find(s@, p@) == Some(i as int),
            None => spec_find(s@, p@) is None,
        },
{
    let mut i: usize = 0;
    while i < s.len()
        invariant
            i <= s.len(),
            forall|j: int| 0 <= j < i ==> !#[trigger] occurs_at(s@, p@, j),
        decreases s.len() - i,
    {
        if matches_at(s, p, i) {
            proof {
                lemma_find_is(s@, p@, i as int);
            }
            return Some(i);
        }
        i = i + 1;
    }
    if matches_at(s, p, i) {
        proof {
            lemma_find_is(s@, p@, i as int);
        }
        return Some(i);
    }
    proof {
        assert forall|j: int| !#[trigger] occurs_at(s@, p@, j) by {
            if 0 <= j && j < i {
            }
        }
        lemma_find_none(s@, p@);
    }
    None
}

proof fn lemma_occurs_sub(s: Seq<char>, p: Seq<char>, start: int, i: int)
    requires
        0 <= start <= i,
        start <= s.len(),
    ensures
        occurs_at(s.subrange(start, s.len() as int), p, i - start) == occurs_at(s, p, i),
{
    let sub = s.subrange(start, s.len() as int);
    if i + p.len() <= s.len() {
        assert(sub.subrange(i - start, i - start + p.len()) =~= s.subrange(i, i + p.len()));
    }
}

/// Character index, counted from `start`, of the first occurrence of `p` in
/// the part of `s` that begins at `start`.
pub fn find_chars_from(s: &[char], p: &[char], start: usize) -> (r: Option<usize>)
    requires
        start <= s@.len(),
    ensures
        match r {
            Some(i) => start <= i && spec_find(s@.subrange(start as int, s@.len() as int), p@) == Some(
                i - start,
            ),
            None => spec_find(s@.subrange(start as int, s@.len() as int), p@) is None,
        },
{
    let ghost sub = s@.subrange(start as int, s@.len() as int);
    let mut i: usize = start;
    while i < s.len()
        invariant
            start <= i <= s.len(),
            sub == s@.subrange(start as int, s@.len() as int),
            forall|j: int| 0 <= j < i - start ==> !#[trigger] occurs_at(sub, p@, j),
        decreases s.len() - i,
    {
        if matches_at(s, p, i) {
            proof {
                lemma_occurs_sub(s@, p@, start as int, i as int);
                lemma_find_is(sub, p@, i - start);
            }
            return Some(i);
        }
        proof {
            lemma_occurs_sub(s@, p@, start as int, i as int);
        }
        i = i + 1;
    }
    if matches_at(s, p, i) {
        proof {
            lemma_occurs_sub(s@, p@, start as int, i as int);
            lemma_find_is(sub, p@, i - start);
        }
        return Some(i);
    }
    proof {
        lemma_occurs_sub(s@, p@, start as int, i as int);
        assert forall|j: int| !#[trigger] occurs_at(sub, p@, j) by {
            if 0 <= j && j < i - start {
            }
        }
        lemma_find_none(sub, p@);
    }
    None
}

/// Character index of the last occurrence of `p` in `s`.
pub fn rfind_chars(s: &[char], p: &[char]) -> (r: Option<usize>)
    ensures
        match r {
            Some(i) => spec_rfind(s@, p@) == Some(i as int),
            None => spec_rfind(s@, p@) is None,
        },
{
    if matches_at(s, p, s.len()) {
        proof {
            let k = s@.len() as int;
            assert(is_last_occurrence(s@, p@, k));
            let c = choose|c: int| is_last_occurrence(s@, p@, c);
            assert(is_last_occurrence(s@, p@, c));
            if c < k {
                assert(!occurs_at(s@, p@, k));
            }
        }
        return Some(s.len());
    }
    let mut i: usize = s.len();
    while i > 0
        invariant
            i <= s@.len(),
            forall|j: int| i <= j ==> !#[trigger] occurs_at(s@, p@, j),
        decreases i,
    {
        if matches_at(s, p, i - 1) {
            proof {
                let k = (i - 1) as int;
                assert(is_last_occurrence(s@, p@, k));
                let c = choose|c: int| is_last_occurrence(s@, p@, c);
                assert(is_last_occurrence(s@, p@, c));
                if c < k {
                    assert(!occurs_at(s@, p@, k));
                } else if k < c {
                    assert(!occurs_at(s@, p@, c));
                }
            }
            return Some(i - 1);
        }
        i = i - 1;
    }
    proof {
        lemma_rfind_facts(s@, p@);
    }
    None
}

// ---------------------------------------------------------------------------
// Splitting
// ---------------------------------------------------------------------------

/// The first piece of `s` split at `p` (what `s.split(p).next()` gives).
pub open spec fn split_piece0(s: Seq<char>, p: Seq<char>) -> Seq<char> {
    match spec_find(s, p) {
        None => s,
        Some(i) => s.subrange(0, i),
    }
}

/// The second piece of `s` split at `p`, when `p` occurs in `s`.
pub open spec fn split_piece1(s: Seq<char>, p: Seq<char>) -> Seq<char> {
    match spec_find(s, p) {
        None => Seq::empty(),
        Some(i) => split_piece0(s.subrange(i + p.len(), s.len() as int), p),
    }
}

/// The first two pieces of `s` split at the non-empty `p`, which occurs in `s`.
pub fn split_two<'a>(s: &'a str, p: &str) -> (r: (&'a str, &'a str))
    requires
        spec_contains(s@, p@),
        p@.len() > 0,
    ensures
        r.0@ == split_piece0(s@, p@),
        r.1@ == split_piece1(s@, p@),
{
    let v = chars_of(s);
    let pv = chars_of(p);
    let n = v.len();
    let i = match find_chars(v.as_slice(), pv.as_slice()) {
        Some(i) => i,
        None => {
            return (s, s);
        },
    };
    proof {
        lemma_find_some(v@, pv@, i as int);
    }
    let first = s.substring_char(0, i);
    let start = i + pv.len();
    let second = match find_chars_from(v.as_slice(), pv.as_slice(), start) {
        Some(j) => {
            proof {
                lemma_find_some(v@.subrange(start as int, n as int), pv@, j - start);
                assert(v@.subrange(start as int, n as int).subrange(0, j - start) =~= v@.subrange(
                    start as int,
                    j as int,
                ));
            }
            s.substring_char(start, j)
        },
        None => s.substring_char(start, n),
    };
    (first, second)
}

/// What follows the first `p` in `s`; empty when `p` does not occur.
pub open spec fn after_first(s: Seq<char>, p: Seq<char>) -> Seq<char> {
    match spec_find(s, p) {
        None => Seq::empty(),
        Some(i) => s.subrange(i + p.len(), s.len() as int),
    }
}

/// The text before the first `p` (all of `s` when there is none) and the
/// text after it.
pub fn split_first<'a>(s: &'a str, p: &str) -> (r: (&'a str, &'a str))
    ensures
        r.0@ == split_piece0(s@, p@),
        r.1@ == after_first(s@, p@),
{
    let v = chars_of(s);
    let pv = chars_of(p);
    let n = v.len();
    match find_chars(v.as_slice(), pv.as_slice()) {
        Some(i) => {
            proof {
                lemma_find_some(v@, pv@, i as int);
            }
            (s.substring_char(0, i), s.substring_char(i + pv.len(), n))
        },
        None => {
            let e = s.substring_char(0, 0);
            assert(e@ =~= Seq::<char>::empty());
            (s, e)
        },
    }
}

/// The word at position `k` of `s` split at single spaces (empty when `s`
/// has fewer words).
pub open spec fn nth_word(s: Seq<char>, k: nat) -> Seq<char>
    decreases k,
{
    if k == 0 {
        split_piece0(s, " "@)
    } else {
        nth_word(after_first(s, " "@), (k - 1) as nat)
    }
}

/// All the pieces of `s` split at the non-empty `p`, as `str::split` gives them.
pub open spec fn split_all(s: Seq<char>, p: Seq<char>) -> Seq<Seq<char>>
    decreases s.len(),
{
    if p.len() == 0 {
        seq![s]
    } else {
        match spec_find(s, p) {
            None => seq![s],
            Some(i) => {
                proof {
                    lemma_find_some(s, p, i);
                }
                seq![s.subrange(0, i)] + split_all(s.subrange(i + p.len(), s.len() as int), p)
            },
        }
    }
}


/// What `str::trim_start_matches` with a string pattern leaves: `s` without
/// every leading copy of the non-empty `p`.
pub open spec fn spec_trim_start_matches(s: Seq<char>, p: Seq<char>) -> Seq<char>
    decreases s.len(),
{
    if p.len() > 0 && p.len() <= s.len() && s.subrange(0, p.len() as int) == p {
        spec_trim_start_matches(s.subrange(p.len() as int, s.len() as int), p)
    } else {
        s
    }
}

/// `str::trim_start_matches` with a string pattern.
pub fn trim_start_matches_str<'a>(s: &'a str, p: &str) -> (r: &'a str)
    ensures
        r@ == spec_trim_start_matches(s@, p@),
{
    let v = chars_of(s);
    let pv = chars_of(p);
    let n = v.len();
    let m = pv.len();
    let mut k: usize = 0;
    assert(v@.subrange(0, n as int) =~= v@);
    while m > 0 && m <= n - k && matches_at(v.as_slice(), pv.as_slice(), k)
        invariant
            k <= n == v@.len(),
            m == pv@.len(),
            v@ == s@,
            pv@ == p@,
            spec_trim_start_matches(s@, p@) == spec_trim_start_matches(v@.subrange(k as int, n as int), p@),
        decreases n - k,
    {
        proof {
            let rest = v@.subrange(k as int, n as int);
            assert(rest.subrange(0, m as int) =~= v@.subrange(k as int, k + m));
            assert(rest.subrange(m as int, rest.len() as int) =~= v@.subrange(k + m, n as int));
        }
        k = k + m;
    }
    proof {
        let rest = v@.subrange(k as int, n as int);
        if m > 0 && k + m <= n {
            assert(rest.subrange(0, m as int) =~= v@.subrange(k as int, k + m));
        }
    }
    s.substring_char(k, n)
}


/// What `str::trim_end_matches` with a string pattern leaves: `s` without
/// every trailing copy of the non-empty `p`.
pub open spec fn spec_trim_end_matches(s: Seq<char>, p: Seq<char>) -> Seq<char>
    decreases s.len(),
{
    if p.len() > 0 && p.len() <= s.len() && s.subrange(s.len() - p.len(), s.len() as int) == p {
        spec_trim_end_matches(s.subrange(0, s.len() - p.len()), p)
    } else {
        s
    }
}

/// `str::trim_end_matches` with a string pattern.
pub fn trim_end_matches_str<'a>(s: &'a str, p: &str) -> (r: &'a str)
    ensures
        r@ == spec_trim_end_matches(s@, p@),
{
    let v = chars_of(s);
    let pv = chars_of(p);
    let m = pv.len();
    let mut k: usize = v.len();
    assert(v@.subrange(0, k as int) =~= v@);
    while m > 0 && m <= k && matches_at(v.as_slice(), pv.as_slice(), k - m)
        invariant
            k <= v@.len(),
            m == pv@.len(),
            v@ == s@,
            pv@ == p@,
            spec_trim_end_matches(s@, p@) == spec_trim_end_matches(v@.subrange(0, k as int), p@),
        decreases k,
    {
        proof {
            let rest = v@.subrange(0, k as int);
            assert(rest.subrange(k - m, k as int) =~= v@.subrange(k - m, k as int));
            assert(rest.subrange(0, k - m) =~= v@.subrange(0, k - m));
        }
        k = k - m;
    }
    proof {
        let rest = v@.subrange(0, k as int);
        if m > 0 && m <= k {
            assert(rest.subrange(k - m, k as int) =~= v@.subrange(k - m, k as int));
        }
    }
    s.substring_char(0, k)
}

/// The number of ASCII digits at the start of `s`.
pub open spec fn leading_digits(s: Seq<char>) -> nat
    decreases s.len(),
{
    if s.len() > 0 && is_ascii_digit(s[0]) {
        1 + leading_digits(s.drop_first())
    } else {
        0
    }
}

/// The position of the first character of `s` that is not an ASCII digit,
/// or 0 when there is none.
pub open spec fn digits_end(s: Seq<char>) -> nat {
    if leading_digits(s) < s.len() {
        leading_digits(s)
    } else {
        0
    }
}

/// Leading digits counted in two steps, the first `k` and then the rest.
pub proof fn lemma_leading_digits(s: Seq<char>, k: int)
    requires
        0 <= k <= s.len(),
        forall|m: int| 0 <= m < k ==> #[trigger] is_ascii_digit(s[m]),
    ensures
        leading_digits(s) == k + leading_digits(s.subrange(k, s.len() as int)),
    decreases k,
{
    if k > 0 {
        lemma_leading_digits(s.drop_first(), k - 1);
        assert(s.drop_first().subrange(k - 1, s.len() - 1) =~= s.subrange(k, s.len() as int));
        assert(is_ascii_digit(s[0]));
    } else {
        assert(s.subrange(0, s.len() as int) =~= s);
    }
}

/// The position of the first character that is not an ASCII digit, or 0
/// when there is none.
pub fn digits_end_of(s: &[char]) -> (r: usize)
    ensures
        r == digits_end(s@),
        r <= s@.len(),
{
    let mut k: usize = 0;
    while k < s.len()
        invariant
            k <= s@.len(),
            forall|m: int| 0 <= m < k ==> #[trigger] is_ascii_digit(s@[m]),
        decreases s.len() - k,
    {
        if !('0' <= s[k] && s[k] <= '9') {
            proof {
                lemma_leading_digits(s@, k as int);
                let rest = s@.subrange(k as int, s@.len() as int);
                assert(rest[0] == s@[k as int]);
            }
            return k;
        }
        k = k + 1;
    }
    proof {
        lemma_leading_digits(s@, k as int);
        assert(s@.subrange(k as int, s@.len() as int).len() == 0);
    }
    0
}

/// When `p` occurs in `s`, so does each prefix of `p`.
pub proof fn lemma_contains_prefix(s: Seq<char>, p: Seq<char>, q: Seq<char>)
    requires
        q.len() <= p.len(),
        p.subrange(0, q.len() as int) == q,
    ensures
        spec_contains(s, p) ==> spec_contains(s, q),
{
    if spec_contains(s, p) {
        let i = spec_find(s, p)->0;
        lemma_find_some(s, p, i);
        assert(s.subrange(i, i + q.len()) =~= p.subrange(0, q.len() as int));
        assert(occurs_at(s, q, i));
        lemma_find_facts(s, q);
        if spec_find(s, q) is None {
            assert(!occurs_at(s, q, i));
        }
    }
}

/// Whether `p` occurs in `s`.
pub fn contains_str(s: &str, p: &str) -> (r: bool)
    ensures
        r == spec_contains(s@, p@),
{
    let v = chars_of(s);
    let pv = chars_of(p);
    find_chars(v.as_slice(), pv.as_slice()).is_some()
}

// ---------------------------------------------------------------------------
// Numbers
// ---------------------------------------------------------------------------

pub open spec fn is_ascii_digit(c: char) -> bool {
    '0' <= c && c <= '9'
}

pub open spec fn all_digits(s: Seq<char>) -> bool {
    forall|i: int| 0 <= i < s.len() ==> #[trigger] is_ascii_digit(s[i])
}

/// The value of a string of decimal digits.
pub open spec fn digits_value(s: Seq<char>) -> nat
    decreases s.len(),
{
    if s.len() == 0 {
        0
    } else {
        digits_value(s.drop_last()) * 10 + ((s.last() as nat) - ('0' as nat)) as nat
    }
}

/// What `str::parse` gives for an unsigned integer type whose largest value is
/// `max`: an optional `+`, then at least one ASCII digit, and a value no
/// larger than `max`.
pub open spec fn spec_parse_uint(s: Seq<char>, max: nat) -> Option<nat> {
    let d = if s.len() > 0 && s[0] == '+' {
        s.drop_first()
    } else {
        s
    };
    if d.len() > 0 && all_digits(d) && digits_value(d) <= max {
        Some(digits_value(d))
    } else {
        None
    }
}

proof fn lemma_digits_monotone(d: Seq<char>, k: int)
    requires
        0 <= k <= d.len(),
        all_digits(d),
    ensures
        digits_value(d.subrange(0, k)) <= digits_value(d),
    decreases d.len() - k,
{
    if k < d.len() {
        lemma_digits_monotone(d, k + 1);
        assert(d.subrange(0, k + 1).drop_last() =~= d.subrange(0, k));
        assert(is_ascii_digit(d[k]));
    } else {
        assert(d.subrange(0, k) =~= d);
    }
}

/// Parse an unsigned decimal number no larger than `max`.
pub fn parse_uint(s: &str, max: u64) -> (r: Option<u64>)
    ensures
        match r {
            Some(v) => spec_parse_uint(s@, max as nat) == Some(v as nat),
            None => spec_parse_uint(s@, max as nat) is None,
        },
{
    let v = chars_of(s);
    let n = v.len();
    let start: usize = if n > 0 && v[0] == '+' {
        1
    } else {
        0
    };
    let ghost d = if s@.len() > 0 && s@[0] == '+' {
        s@.drop_first()
    } else {
        s@
    };
    assert(d =~= v@.subrange(start as int, n as int));
    if start == n {
        return None;
    }
    let mut acc: u64 = 0;
    let mut i: usize = start;
    assert(d.subrange(0, 0) =~= Seq::<char>::empty());
    while i < n
        invariant
            start <= i <= n == v@.len(),
            v@ == s@,
            d == (if s@.len() > 0 && s@[0] == '+' {
                s@.drop_first()
            } else {
                s@
            }),
            d == v@.subrange(start as int, n as int),
            forall|m: int| 0 <= m < i - start ==> is_ascii_digit(#[trigger] d[m]),
            acc == digits_value(d.subrange(0, i - start)),
            acc <= max,
        decreases n - i,
    {
        let c = v[i];
        if !('0' <= c && c <= '9') {
            assert(!is_ascii_digit(d[i - start]));
            return None;
        }
        let digit = (c as u32 - '0' as u32) as u64;
        let next = (acc as u128) * 10 + (digit as u128);
        proof {
            assert(d.subrange(0, i - start + 1).drop_last() =~= d.subrange(0, i - start));
            assert(d.subrange(0, i - start + 1).last() == c);
        }
        if next > max as u128 {
            proof {
                if all_digits(d) {
                    lemma_digits_monotone(d, i - start + 1);
                }
            }
            return None;
        }
        acc = next as u64;
        i = i + 1;
    }
    assert(d.subrange(0, n - start) =~= d);
    Some(acc)
}

// ---------------------------------------------------------------------------
// Replacing
// ---------------------------------------------------------------------------

/// What `str::replace(s, from, to)` gives for a non-empty `from`: every
/// occurrence of `from`, scanning left to right without overlap, becomes `to`.
pub open spec fn spec_replace(s: Seq<char>, from: Seq<char>, to: Seq<char>) -> Seq<char>
    decreases s.len(),
{
    if from.len() == 0 {
        s
    } else {
        match spec_find(s, from) {
            None => s,
            Some(i) => {
                proof {
                    lemma_find_some(s, from, i);
                }
                s.subrange(0, i) + to + spec_replace(
                    s.subrange(i + from.len(), s.len() as int),
                    from,
                    to,
                )
            },
        }
    }
}

/// `s` with every occurrence of `from` replaced by `to`.
pub fn replace_chars(s: &[char], from: &[char], to: &[char]) -> (r: Vec<char>)
    requires
        from@.len() > 0,
    ensures
        r@ == spec_replace(s@, from@, to@),
{
    let n = s.len();
    let mut out: Vec<char> = Vec::new();
    let mut pos: usize = 0;
    assert(s@.subrange(0, n as int) =~= s@);
    loop
        invariant
            pos <= n == s@.len(),
            from@.len() > 0,
            spec_replace(s@, from@, to@) == out@ + spec_replace(
                s@.subrange(pos as int, n as int),
                from@,
                to@,
            ),
        decreases n - pos,
    {
        let ghost rest = s@.subrange(pos as int, n as int);
        match find_chars_from(s, from, pos) {
            None => {
                let mut k = pos;
                while k < n
                    invariant
                        pos <= k <= n == s@.len(),
                        spec_replace(s@, from@, to@) == out@ + s@.subrange(k as int, n as int),
                    decreases n - k,
                {
                    assert(s@.subrange(k as int, n as int) =~= seq![s@[k as int]] + s@.subrange(
                        k + 1,
                        n as int,
                    ));
                    out.push(s[k]);
                    k = k + 1;
                }
                assert(s@.subrange(n as int, n as int) =~= Seq::<char>::empty());
                assert(out@ + Seq::<char>::empty() =~= out@);
                return out;
            },
            Some(i) => {
                proof {
                    lemma_find_some(rest, from@, i - pos);
                }
                let ghost before = out@;
                let mut k = pos;
                while k < i
                    invariant
                        pos <= k <= i <= n == s@.len(),
                        out@ == before + s@.subrange(pos as int, k as int),
                    decreases i - k,
                {
                    assert(s@.subrange(pos as int, k + 1) =~= s@.subrange(pos as int, k as int)
                        + seq![s@[k as int]]);
                    out.push(s[k]);
                    k = k + 1;
                }
                let ghost mid = out@;
                let mut t: usize = 0;
                while t < to.len()
                    invariant
                        t <= to@.len(),
                        out@ == mid + to@.subrange(0, t as int),
                    decreases to.len() - t,
                {
                    assert(to@.subrange(0, t + 1) =~= to@.subrange(0, t as int) + seq![to@[t as int]]);
                    out.push(to[t]);
                    t = t + 1;
                }
                proof {
                    assert(to@.subrange(0, to@.len() as int) =~= to@);
                    assert(rest.subrange(0, i - pos) =~= s@.subrange(pos as int, i as int));
                    assert(rest.subrange(i - pos + from@.len(), rest.len() as int) =~= s@.subrange(
                        i + from@.len(),
                        n as int,
                    ));
                    assert(out@ =~= before + rest.subrange(0, i - pos) + to@);
                }
                pos = i + from.len();
            },
        }
    }
}

/// `s` without the characters from `a` (inclusive) to `b` (exclusive).
pub fn remove_range(s: &[char], a: usize, b: usize) -> (r: Vec<char>)
    requires
        a <= b <= s@.len(),
    ensures
        r@ == s@.subrange(0, a as int) + s@.subrange(b as int, s@.len() as int),
{
    let n = s.len();
    let mut out: Vec<char> = Vec::new();
    let mut k: usize = 0;
    while k < a
        invariant
            k <= a <= b <= n == s@.len(),
            out@ == s@.subrange(0, k as int),
        decreases a - k,
    {
        assert(s@.subrange(0, k + 1) =~= s@.subrange(0, k as int) + seq![s@[k as int]]);
        out.push(s[k]);
        k = k + 1;
    }
    let mut m: usize = b;
    while m < n
        invariant
            a <= b <= m <= n == s@.len(),
            out@ == s@.subrange(0, a as int) + s@.subrange(b as int, m as int),
        decreases n - m,
    {
        assert(s@.subrange(b as int, m + 1) =~= s@.subrange(b as int, m as int) + seq![s@[m as int]]);
        out.push(s[m]);
        m = m + 1;
    }
    out
}

// ---------------------------------------------------------------------------
// Trimming

// ---------------------------------------------------------------------------

/// The Unicode `White_Space` property, which `char::is_whitespace` tests.
pub open spec fn is_ws(c: char) -> bool {
    ||| ('\u{9}' <= c && c <= '\u{d}')
    ||| c == ' '
    ||| c == '\u{85}'
    ||| c == '\u{a0}'
    ||| c == '\u{1680}'
    ||| ('\u{2000}' <= c && c <= '\u{200a}')
    ||| c == '\u{2028}'
    ||| c == '\u{2029}'
    ||| c == '\u{202f}'
    ||| c == '\u{205f}'
    ||| c == '\u{3000}'
}

pub fn is_ws_exec(c: char) -> (r: bool)
    ensures
        r == is_ws(c),
{
    ('\u{9}' <= c && c <= '\u{d}') || c == ' ' || c == '\u{85}' || c == '\u{a0}' || c == '\u{1680}'
        || ('\u{2000}' <= c && c <= '\u{200a}') || c == '\u{2028}' || c == '\u{2029}' || c
        == '\u{202f}' || c == '\u{205f}' || c == '\u{3000}'
}

/// Drop the leading characters that satisfy `f`.
pub open spec fn trim_start_by(s: Seq<char>, f: spec_fn(char) -> bool) -> Seq<char>
    decreases s.len(),
{
    if s.len() > 0 && f(s[0]) {
        trim_start_by(s.drop_first(), f)
    } else {
        s
    }
}

/// Drop the trailing characters that satisfy `f`.
pub open spec fn trim_end_by(s: Seq<char>, f: spec_fn(char) -> bool) -> Seq<char>
    decreases s.len(),
{
    if s.len() > 0 && f(s.last()) {
        trim_end_by(s.drop_last(), f)
    } else {
        s
    }
}

/// Drop leading and trailing characters that satisfy `f`.
pub open spec fn trim_by(s: Seq<char>, f: spec_fn(char) -> bool) -> Seq<char> {
    trim_end_by(trim_start_by(s, f), f)
}

/// What `str::trim` leaves of `s`.
pub open spec fn spec_trim(s: Seq<char>) -> Seq<char> {
    trim_by(s, |c: char| is_ws(c))
}

/// What `str::trim_matches` with a set of characters leaves of `s`.
pub open spec fn spec_trim_set(s: Seq<char>, set: Seq<char>) -> Seq<char> {
    trim_by(s, |c: char| set.contains(c))
}

/// The predicate used by `trim_bounds`.
pub open spec fn trim_pred(set: Seq<char>, ws: bool) -> spec_fn(char) -> bool {
    if ws {
        |c: char| is_ws(c)
    } else {
        |c: char| set.contains(c)
    }
}

fn in_trim_set(set: &[char], ws: bool, c: char) -> (r: bool)
    ensures
        r == (trim_pred(set@, ws))(c),
{
    if ws {
        assert((trim_pred(set@, ws))(c) == is_ws(c));
        is_ws_exec(c)
    } else {
        assert((trim_pred(set@, ws))(c) == set@.contains(c));
        let mut k: usize = 0;
        while k < set.len()
            invariant
                !ws,
                forall|m: int| 0 <= m < k ==> set@[m] != c,
            decreases set.len() - k,
        {
            if set[k] == c {
                assert(set@[k as int] == c);
                assert(set@.contains(c));
                assert((trim_pred(set@, ws))(c) == set@.contains(c));
                return true;
            }
            k = k + 1;
        }
        assert(!set@.contains(c));
        false
    }
}

/// Bounds of the part of `s` that trimming with the predicate leaves.
pub fn trim_bounds(s: &[char], set: &[char], ws: bool) -> (r: (usize, usize))
    ensures
        r.0 <= r.1 <= s@.len(),
        s@.subrange(r.0 as int, r.1 as int) == trim_by(s@, trim_pred(set@, ws)),
{
    let ghost f = trim_pred(set@, ws);
    let mut a: usize = 0;
    assert(s@.skip(0) =~= s@);
    while a < s.len() && in_trim_set(set, ws, s[a])
        invariant
            a <= s@.len(),
            f == trim_pred(set@, ws),
            trim_start_by(s@, f) == trim_start_by(s@.skip(a as int), f),
        decreases s.len() - a,
    {
        assert(s@.skip(a as int).drop_first() =~= s@.skip(a + 1));
        a = a + 1;
    }
    assert(trim_start_by(s@.skip(a as int), f) == s@.skip(a as int));
    let mut b: usize = s.len();
    assert(s@.subrange(a as int, b as int) =~= s@.skip(a as int));
    while b > a && in_trim_set(set, ws, s[b - 1])
        invariant
            a <= b <= s@.len(),
            f == trim_pred(set@, ws),
            trim_by(s@, f) == trim_end_by(s@.subrange(a as int, b as int), f),
        decreases b,
    {
        assert(s@.subrange(a as int, b as int).drop_last() =~= s@.subrange(a as int, b - 1));
        b = b - 1;
    }
    (a, b)
}

/// `str::trim`: `s` without leading and trailing white space.
pub fn trim_str<'a>(s: &'a str) -> (r: &'a str)
    ensures
        r@ == spec_trim(s@),
{
    let v = chars_of(s);
    let empty: Vec<char> = Vec::new();
    let (a, b) = trim_bounds(v.as_slice(), empty.as_slice(), true);
    assert(trim_pred(empty@, true) == (|c: char| is_ws(c)));
    s.substring_char(a, b)
}

/// `str::trim_matches` with a set of characters.
pub fn trim_set_str<'a>(s: &'a str, set: &[char]) -> (r: &'a str)
    ensures
        r@ == spec_trim_set(s@, set@),
{
    let v = chars_of(s);
    let (a, b) = trim_bounds(v.as_slice(), set, false);
    assert(trim_pred(set@, false) == (|c: char| set@.contains(c)));
    s.substring_char(a, b)
}

// ---------------------------------------------------------------------------
// Conversions
// ---------------------------------------------------------------------------

/// The characters of `s`, in order.
pub fn chars_of(s: &str) -> (v: Vec<char>)
    ensures
        v@ == s@,
{
    let mut it = s.chars();
    let mut v: Vec<char> = Vec::new();
    loop
        invariant
            v@ + it.remaining() == s@,
        decreases s@.len() - v@.len(),
    {
        match it.next() {
            Some(c) => {
                v.push(c);
            },
            None => {
                assert(v@ + it.remaining() == v@);
                return v;
            },
        }
    }
}

pub assume_specification[ String::push ](s: &mut String, ch: char)
    ensures
        final(s)@ == old(s)@.push(ch),
;

/// A `String` holding the characters `v`.
pub fn string_from_chars(v: &[char]) -> (s: String)
    ensures
        s@ == v@,
{
    let mut s = String::new();
    let mut i: usize = 0;
    while i < v.len()
        invariant
            i <= v@.len(),
            s@ == v@.subrange(0, i as int),
        decreases v.len() - i,
    {
        s.push(v[i]);
        assert(v@.subrange(0, i + 1) =~= v@.subrange(0, i as int).push(v@[i as int]));
        i = i + 1;
    }
    assert(v@.subrange(0, v@.len() as int) =~= v@);
    s
}

/// Whether `a` holds exactly the characters of `b`.
pub fn chars_eq(a: &[char], b: &str) -> (r: bool)
    ensures
        r == (a@ == b@),
{
    let bv = chars_of(b);
    if a.len() != bv.len() {
        assert(a@.len() != bv@.len());
        return false;
    }
    let mut i: usize = 0;
    while i < a.len()
        invariant
            bv@ == b@,
            a@.len() == bv@.len(),
            i <= a@.len(),
            forall|m: int| 0 <= m < i ==> a@[m] == bv@[m],
        decreases a.len() - i,
    {
        if a[i] != bv[i] {
            assert(a@[i as int] != bv@[i as int]);
            return false;
        }
        i = i + 1;
    }
    assert(a@ =~= bv@);
    true
}

/// Whether `a` and `b` hold the same characters.
pub fn str_eq(a: &str, b: &str) -> (r: bool)
    ensures
        r == (a@ == b@),
{
    let av = chars_of(a);
    chars_eq(av.as_slice(), b)
}

/// `trim_end_by` keeps a prefix of `s` and drops only characters that
/// satisfy `f`.
pub proof fn lemma_trim_end_prefix(s: Seq<char>, f: spec_fn(char) -> bool)
    ensures
        trim_end_by(s, f).len() <= s.len(),
        trim_end_by(s, f) == s.subrange(0, trim_end_by(s, f).len() as int),
        forall|i: int| trim_end_by(s, f).len() <= i < s.len() ==> f(#[trigger] s[i]),
    decreases s.len(),
{
    if s.len() > 0 && f(s.last()) {
        lemma_trim_end_prefix(s.drop_last(), f);
        let t = trim_end_by(s.drop_last(), f);
        assert(s.drop_last().subrange(0, t.len() as int) =~= s.subrange(0, t.len() as int));
        assert forall|i: int| t.len() <= i < s.len() implies f(#[trigger] s[i]) by {
            if i < s.len() - 1 {
                assert(s.drop_last()[i] == s[i]);
            }
        }
    } else {
        assert(s.subrange(0, s.len() as int) =~= s);
    }
}

/// Characters that satisfy `f` appended to `q` are dropped again by
/// `trim_end_by`.
pub proof fn lemma_trim_end_append(q: Seq<char>, w: Seq<char>, f: spec_fn(char) -> bool)
    requires
        forall|i: int| 0 <= i < w.len() ==> f(#[trigger] w[i]),
    ensures
        trim_end_by(q + w, f) == trim_end_by(q, f),
    decreases w.len(),
{
    if w.len() == 0 {
        assert(q + w =~= q);
    } else {
        assert((q + w).last() == w.last());
        assert((q + w).drop_last() =~= q + w.drop_last());
        assert forall|i: int| 0 <= i < w.drop_last().len() implies f(#[trigger] w.drop_last()[i]) by {
            assert(w.drop_last()[i] == w[i]);
        }
        lemma_trim_end_append(q, w.drop_last(), f);
    }
}

/// `trim_start_by` of a text whose characters all satisfy `f` is empty.
pub proof fn lemma_trim_start_all(r: Seq<char>, f: spec_fn(char) -> bool)
    requires
        forall|i: int| 0 <= i < r.len() ==> f(#[trigger] r[i]),
    ensures
        trim_start_by(r, f) == Seq::<char>::empty(),
    decreases r.len(),
{
    if r.len() > 0 {
        assert forall|i: int| 0 <= i < r.drop_first().len() implies f(#[trigger] r.drop_first()[i]) by {
            assert(r.drop_first()[i] == r[i + 1]);
        }
        lemma_trim_start_all(r.drop_first(), f);
    } else {
        assert(r =~= Seq::<char>::empty());
    }
}

/// Appending characters that satisfy `f` to a text with one that does not
/// appends them to what `trim_start_by` leaves.
pub proof fn lemma_trim_start_append(r: Seq<char>, w: Seq<char>, f: spec_fn(char) -> bool, k: int)
    requires
        0 <= k < r.len(),
        !f(r[k]),
    ensures
        trim_start_by(r + w, f) == trim_start_by(r, f) + w,
    decreases r.len(),
{
    if f(r[0]) {
        assert((r + w)[0] == r[0]);
        assert((r + w).drop_first() =~= r.drop_first() + w);
        assert(r.drop_first()[k - 1] == r[k]);
        lemma_trim_start_append(r.drop_first(), w, f, k - 1);
    } else {
        assert((r + w)[0] == r[0]);
    }
}

/// Trailing white space added to a text leaves its trim unchanged.
pub proof fn lemma_trim_append_ws(r: Seq<char>, w: Seq<char>)
    requires
        forall|i: int| 0 <= i < w.len() ==> is_ws(#[trigger] w[i]),
    ensures
        spec_trim(r + w) == spec_trim(r),
{
    let f = |c: char| is_ws(c);
    assert forall|i: int| 0 <= i < w.len() implies f(#[trigger] w[i]) by {}
    if exists|k: int| 0 <= k < r.len() && !f(#[trigger] r[k]) {
        let k = choose|k: int| 0 <= k < r.len() && !f(#[trigger] r[k]);
        lemma_trim_start_append(r, w, f, k);
        lemma_trim_end_append(trim_start_by(r, f), w, f);
    } else {
        assert forall|i: int| 0 <= i < (r + w).len() implies f(#[trigger] (r + w)[i]) by {
            if i < r.len() {
                assert((r + w)[i] == r[i]);
            } else {
                assert((r + w)[i] == w[i - r.len()]);
            }
        }
        lemma_trim_start_all(r + w, f);
        lemma_trim_start_all(r, f);
    }
}

/// Leading characters that satisfy `f` are dropped by `trim_start_by`.
pub proof fn lemma_trim_start_prepend(p: Seq<char>, y: Seq<char>, f: spec_fn(char) -> bool)
    requires
        forall|i: int| 0 <= i < p.len() ==> f(#[trigger] p[i]),
    ensures
        trim_start_by(p + y, f) == trim_start_by(y, f),
    decreases p.len(),
{
    if p.len() > 0 {
        assert((p + y)[0] == p[0]);
        assert((p + y).drop_first() =~= p.drop_first() + y);
        assert forall|i: int| 0 <= i < p.drop_first().len() implies f(#[trigger] p.drop_first()[i]) by {
            assert(p.drop_first()[i] == p[i + 1]);
        }
        lemma_trim_start_prepend(p.drop_first(), y, f);
    } else {
        assert(p + y =~= y);
    }
}

/// `trim_start_by` keeps a suffix of `s` and drops only characters that
/// satisfy `f`.
pub proof fn lemma_trim_start_suffix(s: Seq<char>, f: spec_fn(char) -> bool)
    ensures
        trim_start_by(s, f).len() <= s.len(),
        trim_start_by(s, f) == s.subrange(s.len() - trim_start_by(s, f).len(), s.len() as int),
        forall|i: int| 0 <= i < s.len() - trim_start_by(s, f).len() ==> f(#[trigger] s[i]),
        trim_start_by(s, f).len() > 0 ==> !f(trim_start_by(s, f)[0]),
    decreases s.len(),
{
    if s.len() > 0 && f(s[0]) {
        lemma_trim_start_suffix(s.drop_first(), f);
        let t = trim_start_by(s.drop_first(), f);
        assert(s.drop_first().subrange(s.len() - 1 - t.len(), s.len() - 1) =~= s.subrange(
            s.len() - t.len(),
            s.len() as int,
        ));
        assert forall|i: int| 0 <= i < s.len() - t.len() implies f(#[trigger] s[i]) by {
            if i > 0 {
                assert(s.drop_first()[i - 1] == s[i]);
            }
        }
    } else {
        assert(s.subrange(0, s.len() as int) =~= s);
    }
}

/// Leading white space added to a text leaves its trim unchanged.
pub proof fn lemma_trim_prepend_ws(p: Seq<char>, y: Seq<char>)
    requires
        forall|i: int| 0 <= i < p.len() ==> is_ws(#[trigger] p[i]),
    ensures
        spec_trim(p + y) == spec_trim(y),
{
    let f = |c: char| is_ws(c);
    assert forall|i: int| 0 <= i < p.len() implies f(#[trigger] p[i]) by {}
    lemma_trim_start_prepend(p, y, f);
}

} // verus!
