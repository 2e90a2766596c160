use vstd::prelude::*;

use crate::parse_util::{empty_str, views};
use crate::text::{chars_of, is_ascii_digit, leading_digits, spec_trim, spec_trim_set, trim_set_str, trim_str};

verus! {

broadcast use vstd::string::group_string_axioms;

/// The most parenthesised blocks one skill can hold.
pub const MAX_PAREN_BLOCKS: usize = 16;

/// One skill of a creature's skills field, as written: the skill with its
/// bonus and any parenthesised condition, the last bonus written in it (a
/// sign and its digits), the last parenthesised block written in it, and the
/// pieces of its parenthesised blocks.
pub struct Skill_Field<'a> {
    pub skill_block: &'a str,
    pub value_block: &'a str,
    pub paren_block_whole: &'a str,
    pub paren_blocks: Vec<&'a str>,
}

/// The text a skill field holds, part by part.
pub type SkillParts = (Seq<char>, Seq<char>, Seq<char>, Seq<Seq<char>>);

impl<'a> Skill_Field<'a> {
    pub open spec fn parts(self) -> SkillParts {
        (self.skill_block@, self.value_block@, self.paren_block_whole@, views(self.paren_blocks@))
    }
}

/// The parts of each of a sequence of skill fields.
pub open spec fn fields_parts(v: Seq<Skill_Field>) -> Seq<SkillParts> {
    v.map_values(|f: Skill_Field| f.parts())
}

/// The characters trimmed from both ends of the skills field.
pub open spec fn skill_trim_set() -> Seq<char> {
    seq![' ', ',', ';', '.']
}

/// Reading the parenthesised block of `b` that opens at `open`, from index
/// `m` on, with `depth` brackets open and the current piece starting after
/// index `start`: pieces end at a comma or at ` e ` of the outer level, and
/// the block ends at its closing bracket. The result is where reading stops
/// (after the closing bracket, or at the end of `b`), the pieces, and the
/// whole block (still `whole` when no closing bracket comes). `None` where a
/// piece would end before it starts or a seventeenth piece would be stored.
pub open spec fn spec_paren_scan(
    b: Seq<char>,
    open: int,
    m: int,
    depth: int,
    start: int,
    blocks: Seq<Seq<char>>,
    whole: Seq<char>,
) -> Option<(int, Seq<Seq<char>>, Seq<char>)>
    decreases b.len() - m,
{
    if m < 0 || m >= b.len() {
        Some((b.len() as int, blocks, whole))
    } else {
        let c = b[m];
        let piece_ok = start + 1 <= m && blocks.len() < MAX_PAREN_BLOCKS;
        let piece = b.subrange(start + 1, m);
        if c == '(' {
            spec_paren_scan(b, open, m + 1, depth + 1, start, blocks, whole)
        } else if c == ')' {
            if depth == 1 {
                if piece_ok {
                    Some((m + 1, blocks.push(piece), b.subrange(open, m + 1)))
                } else {
                    None
                }
            } else {
                spec_paren_scan(b, open, m + 1, depth - 1, start, blocks, whole)
            }
        } else if c == ',' && depth == 1 {
            if piece_ok {
                spec_paren_scan(b, open, m + 1, depth, m, blocks.push(piece), whole)
            } else {
                None
            }
        } else if c == ' ' && depth == 1 && m + 3 <= b.len() && b[m + 1] == 'e' && b[m + 2] == ' ' {
            if piece_ok {
                spec_paren_scan(b, open, m + 1, depth, m + 2, blocks.push(piece), whole)
            } else {
                None
            }
        } else {
            spec_paren_scan(b, open, m + 1, depth, start, blocks, whole)
        }
    }
}

/// A run of leading digits is no longer than the text.
pub proof fn lemma_leading_digits_bound(s: Seq<char>)
    ensures
        leading_digits(s) <= s.len(),
    decreases s.len(),
{
    if s.len() > 0 && is_ascii_digit(s[0]) {
        lemma_leading_digits_bound(s.drop_first());
    }
}

/// Reading a parenthesised block stops after where it starts and within the
/// text.
pub proof fn lemma_paren_scan_bounds(
    b: Seq<char>,
    open: int,
    m: int,
    depth: int,
    start: int,
    blocks: Seq<Seq<char>>,
    whole: Seq<char>,
)
    requires
        0 <= m <= b.len(),
    ensures
        spec_paren_scan(b, open, m, depth, start, blocks, whole) matches Some((n, bl, w)) ==> m <= n
            <= b.len() && blocks.len() <= bl.len(),
    decreases b.len() - m,
{
    if m < b.len() {
        let c = b[m];
        if c == '(' {
            lemma_paren_scan_bounds(b, open, m + 1, depth + 1, start, blocks, whole);
        } else if c == ')' {
            if depth != 1 {
                lemma_paren_scan_bounds(b, open, m + 1, depth - 1, start, blocks, whole);
            }
        } else if c == ',' && depth == 1 {
            lemma_paren_scan_bounds(b, open, m + 1, depth, m, blocks.push(b.subrange(start + 1, m)), whole);
        } else if c == ' ' && depth == 1 && m + 3 <= b.len() && b[m + 1] == 'e' && b[m + 2] == ' ' {
            lemma_paren_scan_bounds(b, open, m + 1, depth, m + 2, blocks.push(b.subrange(start + 1, m)), whole);
        } else {
            lemma_paren_scan_bounds(b, open, m + 1, depth, start, blocks, whole);
        }
    }
}

/// Reading the skills `b` from index `k` on, the current skill starting at
/// `skill_start` with the bonus, whole block and pieces read so far, after
/// the fields `fields`: a comma ends a skill (trimmed), an opening bracket
/// starts a parenthesised block, a sign followed by digits is a bonus, and the
/// end of `b` ends the last skill. `None` where a parenthesised block holds
/// no piece, a piece is malformed, or `b` starts with a sign that no digit
/// follows.
pub open spec fn spec_skill_scan(
    b: Seq<char>,
    k: int,
    skill_start: int,
    value: Seq<char>,
    whole: Seq<char>,
    blocks: Seq<Seq<char>>,
    fields: Seq<SkillParts>,
) -> Option<Seq<SkillParts>>
    decreases b.len() - k,
{
    if k < 0 || k >= b.len() {
        Some(fields.push((spec_trim(b.subrange(skill_start, b.len() as int)), value, whole, blocks)))
    } else {
        let c = b[k];
        if c == ',' {
            spec_skill_scan(
                b,
                k + 1,
                k + 1,
                Seq::empty(),
                Seq::empty(),
                Seq::empty(),
                fields.push((spec_trim(b.subrange(skill_start, k)), value, whole, blocks)),
            )
        } else if c == '(' {
            match spec_paren_scan(b, k, k + 1, 1, k, blocks, whole) {
                None => None,
                Some((next, blocks2, whole2)) => if blocks2.len() == 0 {
                    None
                } else {
                    proof {
                        lemma_paren_scan_bounds(b, k, k + 1, 1, k, blocks, whole);
                    }
                    spec_skill_scan(b, next, skill_start, value, whole2, blocks2, fields)
                },
            }
        } else if c == '+' || c == '-' {
            let d = leading_digits(b.subrange(k + 1, b.len() as int));
            proof {
                lemma_leading_digits_bound(b.subrange(k + 1, b.len() as int));
            }
            if k == 0 && d == 0 {
                None
            } else {
                spec_skill_scan(b, k + 1 + d, skill_start, b.subrange(k, k + 1 + d), whole, blocks, fields)
            }
        } else {
            spec_skill_scan(b, k + 1, skill_start, value, whole, blocks, fields)
        }
    }
}

/// The skills of a skills field, one per comma outside brackets, read from
/// the field trimmed of spaces, commas, semicolons and full stops; none for
/// the field `-`.
pub open spec fn spec_skill_fields(field: Seq<char>) -> Option<Seq<SkillParts>> {
    if field == seq!['-'] {
        Some(Seq::empty())
    } else {
        let b = spec_trim_set(field, skill_trim_set());
        spec_skill_scan(b, 0, 0, Seq::empty(), Seq::empty(), Seq::empty(), Seq::empty())
    }
}

proof fn lemma_paren_scan_blocks(
    b: Seq<char>,
    open: int,
    m: int,
    depth: int,
    start: int,
    blocks: Seq<Seq<char>>,
    whole: Seq<char>,
)
    requires
        blocks.len() <= MAX_PAREN_BLOCKS,
    ensures
        spec_paren_scan(b, open, m, depth, start, blocks, whole) matches Some((n, bl, w)) ==> bl.len()
            <= MAX_PAREN_BLOCKS,
    decreases b.len() - m,
{
    if 0 <= m < b.len() {
        let c = b[m];
        let piece = b.subrange(start + 1, m);
        if c == '(' {
            lemma_paren_scan_blocks(b, open, m + 1, depth + 1, start, blocks, whole);
        } else if c == ')' {
            if depth != 1 {
                lemma_paren_scan_blocks(b, open, m + 1, depth - 1, start, blocks, whole);
            }
        } else if c == ',' && depth == 1 {
            if blocks.len() < MAX_PAREN_BLOCKS {
                lemma_paren_scan_blocks(b, open, m + 1, depth, m, blocks.push(piece), whole);
            }
        } else if c == ' ' && depth == 1 && m + 3 <= b.len() && b[m + 1] == 'e' && b[m + 2] == ' ' {
            if blocks.len() < MAX_PAREN_BLOCKS {
                lemma_paren_scan_blocks(b, open, m + 1, depth, m + 2, blocks.push(piece), whole);
            }
        } else {
            lemma_paren_scan_blocks(b, open, m + 1, depth, start, blocks, whole);
        }
    }
}

proof fn lemma_skill_scan_blocks(
    b: Seq<char>,
    k: int,
    skill_start: int,
    value: Seq<char>,
    whole: Seq<char>,
    blocks: Seq<Seq<char>>,
    fields: Seq<SkillParts>,
)
    requires
        blocks.len() <= MAX_PAREN_BLOCKS,
        forall|i: int| 0 <= i < fields.len() ==> (#[trigger] fields[i]).3.len() <= MAX_PAREN_BLOCKS,
    ensures
        spec_skill_scan(b, k, skill_start, value, whole, blocks, fields) matches Some(fs) ==> forall|i: int|
            0 <= i < fs.len() ==> (#[trigger] fs[i]).3.len() <= MAX_PAREN_BLOCKS,
    decreases b.len() - k,
{
    if k < 0 || k >= b.len() {
        let fs = fields.push((spec_trim(b.subrange(skill_start, b.len() as int)), value, whole, blocks));
        assert forall|i: int| 0 <= i < fs.len() implies (#[trigger] fs[i]).3.len() <= MAX_PAREN_BLOCKS by {
            if i < fields.len() {
                assert(fs[i] == fields[i]);
            }
        }
    } else {
        let c = b[k];
        if c == ',' {
            let fs = fields.push((spec_trim(b.subrange(skill_start, k)), value, whole, blocks));
            assert forall|i: int| 0 <= i < fs.len() implies (#[trigger] fs[i]).3.len() <= MAX_PAREN_BLOCKS by {
                if i < fields.len() {
                    assert(fs[i] == fields[i]);
                }
            }
            lemma_skill_scan_blocks(b, k + 1, k + 1, Seq::empty(), Seq::empty(), Seq::empty(), fs);
        } else if c == '(' {
            lemma_paren_scan_blocks(b, k, k + 1, 1, k, blocks, whole);
            lemma_paren_scan_bounds(b, k, k + 1, 1, k, blocks, whole);
            if let Some((next, blocks2, whole2)) = spec_paren_scan(b, k, k + 1, 1, k, blocks, whole) {
                if blocks2.len() != 0 {
                    lemma_skill_scan_blocks(b, next, skill_start, value, whole2, blocks2, fields);
                }
            }
        } else if c == '+' || c == '-' {
            let d = leading_digits(b.subrange(k + 1, b.len() as int));
            lemma_leading_digits_bound(b.subrange(k + 1, b.len() as int));
            if !(k == 0 && d == 0) {
                lemma_skill_scan_blocks(b, k + 1 + d, skill_start, b.subrange(k, k + 1 + d), whole, blocks, fields);
            }
        } else {
            lemma_skill_scan_blocks(b, k + 1, skill_start, value, whole, blocks, fields);
        }
    }
}

/// No skill read from a skills field holds more than `MAX_PAREN_BLOCKS`
/// pieces of parenthesised blocks.
pub proof fn lemma_skill_fields_blocks_bound(field: Seq<char>)
    ensures
        spec_skill_fields(field) matches Some(fs) ==> forall|i: int| 0 <= i < fs.len() ==> (#[trigger] fs[i]).3.len()
            <= MAX_PAREN_BLOCKS,
{
    if field != seq!['-'] {
        let b = spec_trim_set(field, skill_trim_set());
        lemma_skill_scan_blocks(b, 0, 0, Seq::empty(), Seq::empty(), Seq::empty(), Seq::empty());
    }
}

/// Read one parenthesised block of `base`, the one that opens at `open`, as
/// `spec_paren_scan` says.
fn paren_scan<'a>(base: &'a str, v: &Vec<char>, open: usize, found: Vec<&'a str>, whole: &'a str) -> (r:
    Option<(usize, Vec<&'a str>, &'a str)>)
    requires
        v@ == base@,
        open < v@.len(),
    ensures
        spec_paren_scan(v@, open as int, open + 1, 1, open as int, views(found@), whole@) is None
            ==> r is None,
        spec_paren_scan(v@, open as int, open + 1, 1, open as int, views(found@), whole@) matches Some(
            (n, bl, w),
        ) ==> r is Some && r.unwrap().0 == n && views(r.unwrap().1@) == bl && r.unwrap().2@ == w,
{
    let ghost goal = spec_paren_scan(v@, open as int, open + 1, 1, open as int, views(found@), whole@);
    let n = v.len();
    let mut m: usize = open + 1;
    let mut depth: usize = 1;
    let mut start: usize = open;
    let mut blocks = found;
    loop
        invariant
            v@ == base@,
            n == v@.len(),
            open < m <= n,
            open <= start <= m + 1,
            1 <= depth <= m - open,
            goal == spec_paren_scan(v@, open as int, open + 1, 1, open as int, views(found@), whole@),
            goal == spec_paren_scan(v@, open as int, m as int, depth as int, start as int, views(blocks@), whole@),
        decreases n - m,
    {
        if m >= n {
            return Some((n, blocks, whole));
        }
        let c = v[m];
        let piece_ok = start < m && blocks.len() < MAX_PAREN_BLOCKS;
        if c == '(' {
            depth = depth + 1;
            m = m + 1;
        } else if c == ')' {
            if depth == 1 {
                if !piece_ok {
                    return None;
                }
                let ghost old_blocks = blocks@;
                blocks.push(base.substring_char(start + 1, m));
                assert(views(blocks@) =~= views(old_blocks).push(v@.subrange(start + 1, m as int)));
                return Some((m + 1, blocks, base.substring_char(open, m + 1)));
            }
            depth = depth - 1;
            m = m + 1;
        } else if c == ',' && depth == 1 {
            if !piece_ok {
                return None;
            }
            let ghost old_blocks = blocks@;
            blocks.push(base.substring_char(start + 1, m));
            assert(views(blocks@) =~= views(old_blocks).push(v@.subrange(start + 1, m as int)));
            start = m;
            m = m + 1;
        } else if c == ' ' && depth == 1 && n - m >= 3 && v[m + 1] == 'e' && v[m + 2] == ' ' {
            if !piece_ok {
                return None;
            }
            let ghost old_blocks = blocks@;
            blocks.push(base.substring_char(start + 1, m));
            assert(views(blocks@) =~= views(old_blocks).push(v@.subrange(start + 1, m as int)));
            start = m + 2;
            m = m + 1;
        } else {
            m = m + 1;
        }
    }
}

/// The number of ASCII digits in `v` from index `k` on, before the first
/// other character.
fn digits_from(v: &Vec<char>, k: usize) -> (d: usize)
    requires
        k <= v@.len(),
    ensures
        d == leading_digits(v@.subrange(k as int, v@.len() as int)),
        k + d <= v@.len(),
{
    let ghost rest = v@.subrange(k as int, v@.len() as int);
    let mut j: usize = k;
    while j < v.len() && '0' <= v[j] && v[j] <= '9'
        invariant
            k <= j <= v@.len(),
            rest == v@.subrange(k as int, v@.len() as int),
            forall|m: int| 0 <= m < j - k ==> #[trigger] is_ascii_digit(rest[m]),
        decreases v.len() - j,
    {
        assert(rest[j - k] == v@[j as int]);
        j = j + 1;
    }
    proof {
        crate::text::lemma_leading_digits(rest, j - k);
        let tail = rest.subrange(j - k, rest.len() as int);
        if tail.len() > 0 {
            assert(tail[0] == v@[j as int]);
        }
    }
    j - k
}

/// The skills of a skills field, as `spec_skill_fields` says; `None` where
/// the field is malformed.
pub fn try_skill_fields<'a>(field: &'a str) -> (r: Option<Vec<Skill_Field<'a>>>)
    ensures
        spec_skill_fields(field@) is None ==> r is None,
        spec_skill_fields(field@) matches Some(fs) ==> r is Some && fields_parts(r.unwrap()@) == fs,
{
    proof {
        reveal_strlit("-");
        assert("-"@ =~= seq!['-']);
    }
    if crate::text::str_eq(field, "-") {
        let none: Vec<Skill_Field<'a>> = Vec::new();
        assert(fields_parts(none@) =~= Seq::<SkillParts>::empty());
        return Some(none);
    }
    let set: Vec<char> = vec![' ', ',', ';', '.'];
    assert(set@ =~= skill_trim_set());
    let base = trim_set_str(field, set.as_slice());
    let v = chars_of(base);
    let n = v.len();
    let ghost goal = spec_skill_fields(field@);
    let mut k: usize = 0;
    let mut skill_start: usize = 0;
    let mut value: &'a str = empty_str();
    let mut whole: &'a str = empty_str();
    let mut blocks: Vec<&'a str> = Vec::new();
    let mut fields: Vec<Skill_Field<'a>> = Vec::new();
    assert(views(blocks@) =~= Seq::<Seq<char>>::empty());
    assert(fields_parts(fields@) =~= Seq::<SkillParts>::empty());
    loop
        invariant
            v@ == base@,
            n == v@.len(),
            skill_start <= k <= n,
            goal == spec_skill_fields(field@),
            !(field@ == seq!['-']),
            base@ == spec_trim_set(field@, skill_trim_set()),
            goal == spec_skill_scan(
                v@,
                k as int,
                skill_start as int,
                value@,
                whole@,
                views(blocks@),
                fields_parts(fields@),
            ),
        decreases n - k,
    {
        if k >= n {
            let skill = trim_str(base.substring_char(skill_start, n));
            let ghost before = fields_parts(fields@);
            fields.push(Skill_Field { skill_block: skill, value_block: value, paren_block_whole: whole, paren_blocks: blocks });
            assert(fields_parts(fields@) =~= before.push((skill@, value@, whole@, views(blocks@))));
            return Some(fields);
        }
        let c = v[k];
        if c == ',' {
            let skill = trim_str(base.substring_char(skill_start, k));
            let ghost before = fields_parts(fields@);
            let ghost parts = (skill@, value@, whole@, views(blocks@));
            fields.push(Skill_Field { skill_block: skill, value_block: value, paren_block_whole: whole, paren_blocks: blocks });
            assert(fields_parts(fields@) =~= before.push(parts));
            value = empty_str();
            whole = empty_str();
            blocks = Vec::new();
            assert(views(blocks@) =~= Seq::<Seq<char>>::empty());
            k = k + 1;
            skill_start = k;
        } else if c == '(' {
            proof {
                lemma_paren_scan_bounds(v@, k as int, k + 1, 1, k as int, views(blocks@), whole@);
            }
            match paren_scan(base, &v, k, blocks, whole) {
                None => {
                    return None;
                },
                Some((next, b2, w2)) => {
                    if b2.len() == 0 {
                        return None;
                    }
                    blocks = b2;
                    whole = w2;
                    k = next;
                },
            }
        } else if c == '+' || c == '-' {
            let d = digits_from(&v, k + 1);
            if k == 0 && d == 0 {
                return None;
            }
            value = base.substring_char(k, k + 1 + d);
            k = k + 1 + d;
        } else {
            k = k + 1;
        }
    }
}

/// The skills of a skills field, as `spec_skill_fields` says, for a field
/// that is well formed.
pub fn skill_fields<'a>(field: &'a str) -> (r: Vec<Skill_Field<'a>>)
    requires
        spec_skill_fields(field@) is Some,
    ensures
        fields_parts(r@) == spec_skill_fields(field@).unwrap(),
{
    match try_skill_fields(field) {
        Some(r) => r,
        None => Vec::new(),
    }
}

} // verus!
