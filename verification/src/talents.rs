use vstd::prelude::*;

use bytebuffer::ByteBuffer;

use crate::entries::TALENTS_IDX_IN_ARR;
use crate::parse_util::list_trim_set;
use crate::text::{
    chars_of, spec_trim, spec_trim_end_matches, spec_trim_set, str_eq, string_from_chars,
    trim_end_by, trim_end_matches_str, trim_set_str, trim_str,
};
use crate::vec_cache::{
    buffer_flush_bit, buffer_get_rpos, buffer_get_wpos, buffer_len, buffer_read_bytes,
    buffer_read_u16, buffer_read_u32, buffer_read_start, buffer_set_rpos, buffer_write_start,
    byte_buffer_bytes, byte_buffer_cursors, get_cursor_u32,
    spec_add_entry_result, add_entry_with_hash_u16, spec_cursor_u16, spec_cursor_u32, spec_entry_bytes, spec_interning_fits,
    try_add_entry_if_missing, Buffer_Context, CachedIndex, VectorCache,
};

verus! {

broadcast use vstd::string::group_string_axioms;

// A talent is packed in 32 bits:
//   bit 31      the display name is interned
//   bit 30      bonus talent
//   bit 29      mythic talent
//   bit 28      unused
//   [27..12]    the interned display name
//   [11..0]     the talent's index in the talent module

pub const TALENT_INTERN_BIT_U32: u32 = 0x80000000;

pub const TALENT_BONUS_BIT_U32: u32 = 0x40000000;

pub const TALENT_MITHIC_BIT_U32: u32 = 0x20000000;

pub const TALENT_INTERN_IDX_SHIFT: u32 = 12;

pub const TALENT_INTERN_MASK: u32 = 0x0FFFF000;

pub const TALENT_MODULE_IDX_MASK: u32 = 0x00000FFF;

pub const TALENT_NOT_FOUND: u32 = 0x00000FFF;

/// `x` with its four bytes in the opposite order.
pub open spec fn swap_bytes_u32(x: u32) -> u32 {
    ((x & 0xFF) << 24u32) | (((x >> 8u32) & 0xFF) << 16u32) | (((x >> 16u32) & 0xFF) << 8u32) | (x
        >> 24u32)
}

/// `x` with its two bytes in the opposite order.
pub open spec fn swap_bytes_u16(x: u16) -> u16 {
    ((x & 0xFF) << 8u16) | (x >> 8u16)
}

/// `String::from_utf8`: the text `v` encodes, when it is valid UTF-8.
#[verifier::external_body]
fn string_from_utf8(v: Vec<u8>) -> (r: Option<String>)
    ensures
        r is Some <==> vstd::utf8::valid_utf8(v@),
        r matches Some(s) ==> s@ == vstd::utf8::decode_utf8(v@),
{
    String::from_utf8(v).ok()
}

/// A talent name from the module without its category note
/// (`(Combattimento)`, `(Metamagia)`, ...), trimmed.
pub open spec fn spec_talent_name(s: Seq<char>) -> Seq<char> {
    let s1 = spec_trim(spec_trim_end_matches(s, "(Combattimento)"@));
    let s2 = spec_trim(spec_trim_end_matches(s1, "(Combattimento, Squadra)"@));
    let s3 = spec_trim(spec_trim_end_matches(s2, "(Combattimento, Critico)"@));
    let s4 = spec_trim(spec_trim_end_matches(s3, "(Combattimento, Occhiata)"@));
    let s5 = spec_trim(spec_trim_end_matches(s4, "(Creazione Oggetto)"@));
    let s6 = spec_trim(spec_trim_end_matches(s5, "(Creazione Oggetti)"@));
    spec_trim(spec_trim_end_matches(s6, "(Metamagia)"@))
}

/// Whether the module name `name_bytes` (UTF-8) stands for `needle`; `None`
/// for bytes that are not UTF-8.
pub fn talent_name_matches(name_bytes: Vec<u8>, needle: &str) -> (r: Option<bool>)
    ensures
        r is Some <==> vstd::utf8::valid_utf8(name_bytes@),
        r matches Some(b) ==> b == (spec_talent_name(vstd::utf8::decode_utf8(name_bytes@)) == needle@),
{
    let s = match string_from_utf8(name_bytes) {
        Some(s) => s,
        None => {
            return None;
        },
    };
    let t = s.as_str();
    let t = trim_str(trim_end_matches_str(t, "(Combattimento)"));
    let t = trim_str(trim_end_matches_str(t, "(Combattimento, Squadra)"));
    let t = trim_str(trim_end_matches_str(t, "(Combattimento, Critico)"));
    let t = trim_str(trim_end_matches_str(t, "(Combattimento, Occhiata)"));
    let t = trim_str(trim_end_matches_str(t, "(Creazione Oggetto)"));
    let t = trim_str(trim_end_matches_str(t, "(Creazione Oggetti)"));
    let t = trim_str(trim_end_matches_str(t, "(Metamagia)"));
    Some(str_eq(t, needle))
}

/// Skip pending bits, then tell whether `n` bytes can be read.
fn flush_and_check(buf: &mut ByteBuffer, n: usize) -> (r: bool)
    requires
        byte_buffer_cursors(*old(buf)).1 > 0 ==> byte_buffer_cursors(*old(buf)).0 < usize::MAX,
        byte_buffer_cursors(*old(buf)).3 > 0 ==> byte_buffer_cursors(*old(buf)).2 < usize::MAX,
    ensures
        byte_buffer_bytes(*final(buf)) == byte_buffer_bytes(*old(buf)),
        byte_buffer_cursors(*final(buf)) == (
            buffer_write_start(*old(buf)),
            0nat,
            buffer_read_start(*old(buf)),
            0nat,
        ),
        r == (buffer_read_start(*old(buf)) + n <= byte_buffer_bytes(*old(buf)).len()),
{
    let len = buffer_len(buf);
    buffer_flush_bit(buf);
    let rpos = buffer_get_rpos(buf);
    rpos <= len && n <= len - rpos
}

/// The four bytes of `d` at `s` as a big-endian number.
pub open spec fn be_u32_at(d: Seq<u8>, s: int) -> u32 {
    (d[s] * 0x1000000 + d[s + 1] * 0x10000 + d[s + 2] * 0x100 + d[s + 3]) as u32
}

/// The two bytes of `d` at `s` as a big-endian number.
pub open spec fn be_u16_at(d: Seq<u8>, s: int) -> u16 {
    (d[s] * 0x100 + d[s + 1]) as u16
}

/// A 32-bit number of the talent module at `s`, in the byte order of a
/// big-endian machine when `big`, of a little-endian one otherwise.
pub open spec fn module_u32(d: Seq<u8>, s: int, big: bool) -> u32 {
    if big {
        be_u32_at(d, s)
    } else {
        swap_bytes_u32(be_u32_at(d, s))
    }
}

/// A 16-bit number of the talent module at `s` (see `module_u32`).
pub open spec fn module_u16(d: Seq<u8>, s: int, big: bool) -> u16 {
    if big {
        be_u16_at(d, s)
    } else {
        swap_bytes_u16(be_u16_at(d, s))
    }
}

/// Reading the entries of the talent module `d` from the entry at byte `tc`,
/// the `k`-th: an entry begins with the position of its name, which is a
/// 16-bit length and that many bytes of UTF-8; entries are 28 bytes apart.
/// The result is the number of the first entry whose name (see
/// `spec_talent_name`) is `needle`, marked as found, or `TALENT_NOT_FOUND`
/// once the next entry would start past the end. `None` where a read passes
/// the end, a name position is 0, a name is longer than 100 bytes or not
/// UTF-8, or a position or count passes its type.
pub open spec fn spec_talent_entries(d: Seq<u8>, needle: Seq<char>, big: bool, tc: int, k: int) -> Option<
    (u32, bool),
>
    decreases d.len() - tc,
{
    if tc < 0 || tc + 4 > d.len() {
        None
    } else {
        let ni = module_u32(d, tc, big);
        if ni == 0 {
            None
        } else {
            let q: int = if ni < d.len() {
                ni as int
            } else {
                d.len() as int
            };
            if q + 2 > d.len() {
                None
            } else {
                let nl = module_u16(d, q, big);
                if q + 2 + nl > d.len() || nl > 100 {
                    None
                } else {
                    let name = d.subrange(q + 2, q + 2 + nl);
                    if !vstd::utf8::valid_utf8(name) {
                        None
                    } else if spec_talent_name(vstd::utf8::decode_utf8(name)) == needle {
                        Some((k as u32, true))
                    } else if tc + 28 > usize::MAX {
                        None
                    } else if tc + 28 >= d.len() {
                        Some((TALENT_NOT_FOUND, false))
                    } else if k < 0 || k >= i32::MAX {
                        None
                    } else {
                        spec_talent_entries(d, needle, big, tc + 28, k + 1)
                    }
                }
            }
        }
    }
}

/// Searching the talent module `d`, read from byte `first` on, for the talent
/// named `needle`: the module starts with the length of its names, the names,
/// and the number of entries; then come the entries (see
/// `spec_talent_entries`).
pub open spec fn spec_find_talent(d: Seq<u8>, first: int, needle: Seq<char>, big: bool) -> Option<(u32, bool)> {
    if first + 4 > d.len() {
        None
    } else {
        let sl = module_u32(d, first, big);
        if sl > u32::MAX - 4 {
            None
        } else {
            let t = 4 + sl;
            if t > usize::MAX - 4 || t + 4 > d.len() {
                None
            } else {
                spec_talent_entries(d, needle, big, t + 4, 0)
            }
        }
    }
}

/// Where the first read of a talent module starts once its read cursor is
/// moved to 0: a partly read byte is skipped.
pub open spec fn module_first_read(b: ByteBuffer) -> int {
    if byte_buffer_cursors(b).3 > 0 {
        1
    } else {
        0
    }
}

/// The outcome of looking `needle` up in the talent module `m0` with the
/// cache `old_cache`, when the hasher gives its bytes the hash `h`, and the
/// cache after it: a cached index (not 0) is the
/// result and the cache stays; otherwise, unless the module's write cursor
/// is at `usize::MAX` (where flushing a pending bit could overflow it, and
/// the result is `None`), the module is searched (see `spec_find_talent`)
/// and an index found is added to the cache.
pub open spec fn lookup_outcome(
    old_cache: Seq<CachedIndex<u32>>,
    m0: ByteBuffer,
    needle: Seq<char>,
    big: bool,
    h: u64,
) -> (Option<u32>, Seq<CachedIndex<u32>>) {
    if spec_cursor_u32(old_cache, h) != 0 {
        (Some(spec_cursor_u32(old_cache, h)), old_cache)
    } else if byte_buffer_cursors(m0).0 == usize::MAX {
        (None, old_cache)
    } else {
        match spec_find_talent(byte_buffer_bytes(m0), module_first_read(m0), needle, big) {
            None => (None, old_cache),
            Some((i, found)) => (
                Some(i),
                if found {
                    old_cache.push(CachedIndex { hash: h, cursor: i })
                } else {
                    old_cache
                },
            ),
        }
    }
}

/// Looking `needle` up in the talent module `m0` with the cache `old_cache`,
/// the hasher giving its bytes the hash `h`, gives `r` and the cache
/// `new_cache` (see `lookup_outcome`) and leaves the
/// module `m1`: the same bytes, the same buffer when the cache answered or
/// the write cursor was at `usize::MAX`, and no partly read byte otherwise.
pub open spec fn module_lookup(
    old_cache: Seq<CachedIndex<u32>>,
    m0: ByteBuffer,
    needle: Seq<char>,
    big: bool,
    h: u64,
    r: Option<u32>,
    new_cache: Seq<CachedIndex<u32>>,
    m1: ByteBuffer,
) -> bool {
    &&& (r, new_cache) == lookup_outcome(old_cache, m0, needle, big, h)
    &&& byte_buffer_bytes(m1) == byte_buffer_bytes(m0)
    &&& (spec_cursor_u32(old_cache, h) != 0 || byte_buffer_cursors(m0).0 == usize::MAX) ==> m1 == m0
    &&& (spec_cursor_u32(old_cache, h) == 0 && byte_buffer_cursors(m0).0 != usize::MAX)
        ==> byte_buffer_cursors(m1).3 == 0
}

fn swap_u32(x: u32) -> (r: u32)
    ensures
        r == swap_bytes_u32(x),
{
    ((x & 0xFF) << 24u32) | (((x >> 8u32) & 0xFF) << 16u32) | (((x >> 16u32) & 0xFF) << 8u32) | (x >> 24u32)
}

fn swap_u16(x: u16) -> (r: u16)
    ensures
        r == swap_bytes_u16(x),
{
    ((x & 0xFF) << 8u16) | (x >> 8u16)
}

/// Looking `needle` up in the talent module `m0` with the cache `old_cache`
/// gives `r`, the cache `new_cache` and the module `m1` (see
/// `module_lookup`) for the hash the hasher gives the bytes of `needle`,
/// whatever that hash is.
pub open spec fn talent_lookup(
    old_cache: Seq<CachedIndex<u32>>,
    m0: ByteBuffer,
    needle: Seq<char>,
    big: bool,
    r: Option<u32>,
    new_cache: Seq<CachedIndex<u32>>,
    m1: ByteBuffer,
) -> bool {
    exists|h: u64|
        #![trigger module_lookup(old_cache, m0, needle, big, h, r, new_cache, m1)]
        module_lookup(old_cache, m0, needle, big, h, r, new_cache, m1)
}

/// Look the talent named `needle` up in the talent module `buf`, its numbers
/// read in the byte order of a big-endian machine when `big` and of a
/// little-endian one otherwise (see `talent_lookup`).
pub fn find_in_talents_ordered(
    cache: &mut Vec<CachedIndex<u32>>,
    buf: &mut ByteBuffer,
    needle: &str,
    page_addr: &str,
    big: bool,
) -> (r: Option<u32>)
    ensures
        talent_lookup(old(cache)@, *old(buf), needle@, big, r, final(cache)@, *final(buf)),
{
    let (hash, found) = get_cursor_u32(cache, needle.as_bytes());
    if found != 0 {
        assert(module_lookup(cache@, *buf, needle@, big, hash, Some(found), cache@, *buf));
        return Some(found);
    }
    let ghost c0 = cache@;
    let ghost b0 = *buf;
    let r = search_talent_module(cache, buf, needle, big, hash);
    assert(module_lookup(c0, b0, needle@, big, hash, r, cache@, *buf));
    r
}

/// Search the talent module `buf` for `needle`, which the cache does not
/// hold under `hash` (see `module_lookup`).
pub fn search_talent_module(
    cache: &mut Vec<CachedIndex<u32>>,
    buf: &mut ByteBuffer,
    needle: &str,
    big: bool,
    hash: u64,
) -> (r: Option<u32>)
    requires
        spec_cursor_u32(old(cache)@, hash) == 0,
    ensures
        module_lookup(old(cache)@, *old(buf), needle@, big, hash, r, final(cache)@, *final(buf)),
{
    let ghost d = byte_buffer_bytes(*buf);
    let ghost first = module_first_read(*buf);
    let ghost goal = spec_find_talent(d, first, needle@, big);
    if buffer_get_wpos(buf) == usize::MAX {
        return None;
    }
    let buf_len = buffer_len(buf);
    buffer_set_rpos(buf, 0);
    if !flush_and_check(buf, 4) {
        return None;
    }
    assert(buffer_read_start(*buf) == first);
    let x = buffer_read_u32(buf);
    let strings_len = if big {
        x
    } else {
        swap_u32(x)
    };
    if strings_len > u32::MAX - 4 {
        return None;
    }
    let mut talent_cursor: usize = (4 + strings_len) as usize;
    buffer_set_rpos(buf, talent_cursor);
    if talent_cursor > usize::MAX - 4 {
        return None;
    }
    if !flush_and_check(buf, 4) {
        return None;
    }
    let _talent_entries_count = buffer_read_u32(buf);
    talent_cursor = talent_cursor + 4;
    let mut loop_count: i32 = 0;
    loop
        invariant
            byte_buffer_bytes(*buf) == d,
            d == byte_buffer_bytes(*old(buf)),
            buf_len == d.len(),
            spec_cursor_u32(old(cache)@, hash) == 0,
            cache@ == old(cache)@,
            0 <= loop_count,
            byte_buffer_cursors(*buf).1 == 0,
            byte_buffer_cursors(*buf).2 == talent_cursor,
            byte_buffer_cursors(*buf).3 == 0,
            first == module_first_read(*old(buf)),
            byte_buffer_cursors(*old(buf)).0 != usize::MAX,
            goal == spec_find_talent(d, first, needle@, big),
            goal == spec_talent_entries(d, needle@, big, talent_cursor as int, loop_count as int),
        decreases buf_len - talent_cursor,
    {
        if !flush_and_check(buf, 4) {
            return None;
        }
        let x = buffer_read_u32(buf);
        let name_idx = if big {
            x
        } else {
            swap_u32(x)
        };
        if name_idx == 0 {
            return None;
        }
        buffer_set_rpos(buf, name_idx as usize);
        if !flush_and_check(buf, 2) {
            return None;
        }
        let y = buffer_read_u16(buf);
        let name_len = if big {
            y
        } else {
            swap_u16(y)
        };
        if !flush_and_check(buf, name_len as usize) {
            return None;
        }
        let name_vec = buffer_read_bytes(buf, name_len as usize);
        if name_len > 100 {
            return None;
        }
        match talent_name_matches(name_vec, needle) {
            None => {
                return None;
            },
            Some(true) => {
                cache.push(CachedIndex { hash: hash, cursor: loop_count as u32 });
                return Some(loop_count as u32);
            },
            Some(false) => {},
        }
        if talent_cursor > usize::MAX - 28 {
            return None;
        }
        talent_cursor = talent_cursor + 28;
        if talent_cursor >= buf_len {
            return Some(TALENT_NOT_FOUND);
        }
        buffer_set_rpos(buf, talent_cursor);
        if loop_count == i32::MAX {
            return None;
        }
        loop_count = loop_count + 1;
    }
}

/// `u32::from_be`: `x` on a big-endian machine, its bytes swapped on a
/// little-endian one.
#[verifier::external_body]
fn u32_from_be(x: u32) -> (r: u32)
    ensures
        r == x || r == swap_bytes_u32(x),
{
    u32::from_be(x)
}

/// Look the talent named `needle` up in the talent module `buf`, whose
/// numbers are in the machine's byte order (see `module_lookup`): the byte
/// order is learnt from `u32::from_be`, so the outcome is the one for a
/// big-endian or for a little-endian machine.
pub fn find_in_talents(
    cache: &mut Vec<CachedIndex<u32>>,
    buf: &mut ByteBuffer,
    needle: &str,
    page_addr: &str,
) -> (r: Option<u32>)
    ensures
        talent_lookup(old(cache)@, *old(buf), needle@, true, r, final(cache)@, *final(buf))
            || talent_lookup(old(cache)@, *old(buf), needle@, false, r, final(cache)@, *final(buf)),
{
    let big = u32_from_be(1) == 1;
    find_in_talents_ordered(cache, buf, needle, page_addr, big)
}

/// The name a talent is looked up by: `name` when there is one, else `block`.
pub open spec fn talent_effective_name(block: Seq<char>, name: Seq<char>) -> Seq<char> {
    if name.len() == 0 {
        block
    } else {
        name
    }
}

/// The superscript M that marks a mythic talent.
pub open spec fn is_mithic_mark(c: char) -> bool {
    c == '\u{1d39}'
}

/// The superscript B that marks a bonus talent.
pub open spec fn is_bonus_mark(c: char) -> bool {
    c == '\u{1d2e}'
}

/// The superscript comma between marks.
pub open spec fn is_comma_mark(c: char) -> bool {
    c == '\u{2e34}'
}

/// `block` without any of the three marks.
pub open spec fn talent_unmarked(block: Seq<char>) -> Seq<char> {
    block.filter(|c: char| !is_mithic_mark(c) && !is_comma_mark(c) && !is_bonus_mark(c))
}

/// The 32-bit talent code (see the layout above).
pub open spec fn spec_talent_code(interned: bool, bonus: bool, mithic: bool, name_idx: u16, module_idx: u32) -> u32 {
    (if interned {
        TALENT_INTERN_BIT_U32
    } else {
        0
    }) | (if bonus {
        TALENT_BONUS_BIT_U32
    } else {
        0
    }) | (if mithic {
        TALENT_MITHIC_BIT_U32
    } else {
        0
    }) | ((name_idx as u32) << TALENT_INTERN_IDX_SHIFT) | module_idx
}

/// The code of `block` (with its optional display `name`) for the display
/// name index `n` and the module index `m`.
pub open spec fn talent_code_for(block: Seq<char>, name: Seq<char>, n: u16, m: u32) -> u32 {
    let e = talent_effective_name(block, name);
    spec_talent_code(name.len() != 0, e.contains('\u{1d2e}'), e.contains('\u{1d39}'), n, m)
}

fn contains_char(s: &[char], c: char) -> (r: bool)
    ensures
        r == s@.contains(c),
{
    let mut k: usize = 0;
    while k < s.len()
        invariant
            k <= s@.len(),
            forall|m: int| 0 <= m < k ==> s@[m] != c,
        decreases s.len() - k,
    {
        if s[k] == c {
            assert(s@[k as int] == c);
            return true;
        }
        k = k + 1;
    }
    false
}

fn trim_end_char<'a>(s: &'a str, c: char) -> (r: &'a str)
    ensures
        r@ == trim_end_by(s@, |x: char| x == c),
{
    let v = chars_of(s);
    let mut k: usize = v.len();
    let ghost f = |x: char| x == c;
    assert(v@.subrange(0, k as int) =~= v@);
    while k > 0 && v[k - 1] == c
        invariant
            k <= v@.len(),
            v@ == s@,
            f == (|x: char| x == c),
            trim_end_by(s@, f) == trim_end_by(v@.subrange(0, k as int), f),
        decreases k,
    {
        assert(v@.subrange(0, k as int).drop_last() =~= v@.subrange(0, k - 1));
        k = k - 1;
    }
    s.substring_char(0, k)
}

fn unmarked(block: &str) -> (r: String)
    ensures
        r@ == talent_unmarked(block@),
{
    let v = chars_of(block);
    let ghost pred = |c: char| !is_mithic_mark(c) && !is_comma_mark(c) && !is_bonus_mark(c);
    let mut out: Vec<char> = Vec::new();
    let mut k: usize = 0;
    proof {
        reveal(Seq::filter);
    }
    assert(v@.take(0) =~= Seq::<char>::empty());
    while k < v.len()
        invariant
            k <= v@.len(),
            v@ == block@,
            pred == (|c: char| !is_mithic_mark(c) && !is_comma_mark(c) && !is_bonus_mark(c)),
            out@ == v@.take(k as int).filter(pred),
        decreases v.len() - k,
    {
        let c = v[k];
        proof {
            assert(v@.take(k + 1) =~= v@.take(k as int).push(c));
            v@.take(k as int).lemma_filter_push(c, pred);
        }
        if c != '\u{1d39}' && c != '\u{2e34}' && c != '\u{1d2e}' {
            out.push(c);
        }
        k = k + 1;
    }
    assert(v@.take(v@.len() as int) =~= v@);
    string_from_chars(out.as_slice())
}

/// The name a talent is searched by in the module: its effective name
/// without the trailing marks, followed by ` (Mitico)` when it is marked
/// mythic.
pub open spec fn talent_search_name(block: Seq<char>, name: Seq<char>) -> Seq<char> {
    let e = talent_effective_name(block, name);
    let e1 = spec_trim(trim_end_by(e, |x: char| x == '\u{1d39}'));
    let e2 = spec_trim(trim_end_by(e1, |x: char| x == '\u{2e34}'));
    let e3 = spec_trim(trim_end_by(e2, |x: char| x == '\u{1d2e}'));
    if e.contains('\u{1d39}') {
        e3 + " (Mitico)"@
    } else {
        e3
    }
}

/// What a talent mapping reads and changes: the cache of module lookups,
/// the cache of display names, the buffer of display names, and the module.
pub type TalentState = (Seq<CachedIndex<u32>>, Seq<CachedIndex<u16>>, ByteBuffer, ByteBuffer);

/// The talent state held by a cache, a buffer set and a module.
pub open spec fn talent_state(cache: VectorCache, bufs: Buffer_Context, module: ByteBuffer) -> TalentState {
    (cache.talentsMod@, cache.talents@, bufs.talents, module)
}

/// Interning `block` without its marks among the display names gives `n`
/// when the hasher gives its bytes the hash `h` (see
/// `spec_add_entry_result`).
pub open spec fn talent_interning(
    names_cache0: Seq<CachedIndex<u16>>,
    names0: ByteBuffer,
    block: Seq<char>,
    h: u64,
    n: Option<u16>,
    names_cache1: Seq<CachedIndex<u16>>,
    names1: ByteBuffer,
) -> bool {
    spec_add_entry_result(
        names_cache0,
        names0,
        talent_unmarked(block),
        h,
        byte_buffer_cursors(names0).0 as u16,
        false,
        0u16,
        n,
        names_cache1,
        names1,
    )
}

/// The display name index that interning `block` without its marks gives
/// with the hash `h` (see `spec_add_entry_result`): 0 for no bytes, the
/// cached index, or the write position; `None` where the entry does not fit.
pub open spec fn talent_intern_value(
    names_cache0: Seq<CachedIndex<u16>>,
    names0: ByteBuffer,
    block: Seq<char>,
    h: u64,
) -> Option<u16> {
    let data = spec_entry_bytes(talent_unmarked(block));
    let found = spec_cursor_u16(names_cache0, h);
    if data.len() == 0 {
        Some(0u16)
    } else if found != 0 {
        Some(found)
    } else if !spec_interning_fits(names0, data) {
        None
    } else {
        Some(byte_buffer_cursors(names0).0 as u16)
    }
}

/// Mapping one talent, `block` with its display `name` (empty when there is
/// none), from the state `s0` to the state `s1` gives `r`, the hasher giving
/// the module's search name the hash `hm` and the unmarked block the hash
/// `hn`: the talent is looked up in the module by `talent_search_name` (see
/// `module_lookup`); when it has a display name, `block` without marks is
/// interned; the code puts the flags of the marks, the display name index (0
/// without one) and the module index together (see `talent_code_for`).
/// `None` where the lookup or the interning fails.
pub open spec fn talent_step_hashed(
    s0: TalentState,
    block: Seq<char>,
    name: Seq<char>,
    big: bool,
    r: Option<u32>,
    s1: TalentState,
    hm: u64,
    hn: u64,
) -> bool {
    let needle = talent_search_name(block, name);
    let m = lookup_outcome(s0.0, s0.3, needle, big, hm).0;
    &&& module_lookup(s0.0, s0.3, needle, big, hm, m, s1.0, s1.3)
    &&& match m {
        None => r is None && s1.1 == s0.1 && s1.2 == s0.2,
        Some(mi) => if name.len() == 0 {
            r == Some(talent_code_for(block, name, 0, mi)) && s1.1 == s0.1 && s1.2 == s0.2
        } else {
            let n = talent_intern_value(s0.1, s0.2, block, hn);
            &&& talent_interning(s0.1, s0.2, block, hn, n, s1.1, s1.2)
            &&& r == match n {
                None => None::<u32>,
                Some(ni) => Some(talent_code_for(block, name, ni, mi)),
            }
        },
    }
}

/// Mapping one talent from the state `s0` to the state `s1` gives `r` (see
/// `talent_step_hashed`) for the hashes the hasher gives, whatever they are.
pub open spec fn talent_step(
    s0: TalentState,
    block: Seq<char>,
    name: Seq<char>,
    big: bool,
    r: Option<u32>,
    s1: TalentState,
) -> bool {
    exists|hm: u64, hn: u64|
        #![trigger talent_step_hashed(s0, block, name, big, r, s1, hm, hn)]
        talent_step_hashed(s0, block, name, big, r, s1, hm, hn)
}

/// The fields of a cache and a buffer set that mapping talents leaves alone.
pub open spec fn talent_frame(c0: VectorCache, c1: VectorCache, b0: Buffer_Context, b1: Buffer_Context) -> bool {
    &&& c1.strings@ == c0.strings@
    &&& c1.numbers@ == c0.numbers@
    &&& c1.names@ == c0.names@
    &&& c1.types@ == c0.types@
    &&& c1.subtypes@ == c0.subtypes@
    &&& c1.archetypes@ == c0.archetypes@
    &&& c1.sizes@ == c0.sizes@
    &&& c1.senses@ == c0.senses@
    &&& c1.auras@ == c0.auras@
    &&& c1.immunities@ == c0.immunities@
    &&& c1.resistances@ == c0.resistances@
    &&& c1.weaknesses@ == c0.weaknesses@
    &&& c1.special@ == c0.special@
    &&& c1.spells@ == c0.spells@
    &&& c1.skills@ == c0.skills@
    &&& c1.languages@ == c0.languages@
    &&& c1.specials@ == c0.specials@
    &&& c1.environment@ == c0.environment@
    &&& b1.string == b0.string
    &&& b1.number == b0.number
    &&& b1.name == b0.name
    &&& b1.types == b0.types
    &&& b1.subtypes == b0.subtypes
    &&& b1.archetypes == b0.archetypes
    &&& b1.sizes == b0.sizes
    &&& b1.senses == b0.senses
    &&& b1.auras == b0.auras
    &&& b1.immunities == b0.immunities
    &&& b1.resistances == b0.resistances
    &&& b1.weaknesses == b0.weaknesses
    &&& b1.special_attack == b0.special_attack
    &&& b1.spells == b0.spells
    &&& b1.skills == b0.skills
    &&& b1.languages == b0.languages
    &&& b1.specials == b0.specials
    &&& b1.environment == b0.environment
}

/// The code of one talent (see `talent_step`), the module's numbers read in
/// the byte order of a big-endian machine when `big`, of a little-endian one
/// otherwise.
pub fn map_talent_intern_name_ordered(
    block: &str,
    name: &str,
    cache: &mut VectorCache,
    bufs: &mut Buffer_Context,
    talentsModule: &mut ByteBuffer,
    page_addr: &str,
    big: bool,
) -> (r: Option<u32>)
    ensures
        talent_step(
            talent_state(*old(cache), *old(bufs), *old(talentsModule)),
            block@,
            name@,
            big,
            r,
            talent_state(*final(cache), *final(bufs), *final(talentsModule)),
        ),
        talent_frame(*old(cache), *final(cache), *old(bufs), *final(bufs)),
{
    let ghost s0 = talent_state(*cache, *bufs, *talentsModule);
    let effective_name = if name.unicode_len() != 0 {
        name
    } else {
        block
    };
    let ev = chars_of(effective_name);
    let is_mithic = contains_char(ev.as_slice(), '\u{1d39}');
    let is_bonus = contains_char(ev.as_slice(), '\u{1d2e}');
    let e1 = trim_str(trim_end_char(effective_name, '\u{1d39}'));
    let e2 = trim_str(trim_end_char(e1, '\u{2e34}'));
    let e3 = trim_str(trim_end_char(e2, '\u{1d2e}'));
    proof {
        assert(effective_name@ == talent_effective_name(block@, name@));
        assert((|x: char| x == '\u{1d39}') =~= (|x: char| x == '\u{1d39}'));
    }
    let ghost needle = talent_search_name(block@, name@);
    let index_in_module = if is_mithic {
        let mut mithic_name = string_from_chars(chars_of(e3).as_slice());
        let suffix = chars_of(" (Mitico)");
        let mut k: usize = 0;
        while k < suffix.len()
            invariant
                k <= suffix@.len(),
                suffix@ == " (Mitico)"@,
                mithic_name@ == e3@ + suffix@.subrange(0, k as int),
            decreases suffix.len() - k,
        {
            mithic_name.push(suffix[k]);
            assert(e3@ + suffix@.subrange(0, k + 1) =~= (e3@ + suffix@.subrange(0, k as int)).push(suffix@[k as int]));
            k = k + 1;
        }
        assert(suffix@.subrange(0, suffix@.len() as int) =~= suffix@);
        assert(mithic_name@ == needle);
        find_in_talents_ordered(&mut cache.talentsMod, talentsModule, mithic_name.as_str(), page_addr, big)
    } else {
        assert(e3@ == needle);
        find_in_talents_ordered(&mut cache.talentsMod, talentsModule, e3, page_addr, big)
    };
    let ghost hm = choose|h: u64|
        #[trigger] module_lookup(s0.0, s0.3, needle, big, h, index_in_module, cache.talentsMod@, *talentsModule);
    let ghost mut hn: u64 = 0;
    let index_in_module = match index_in_module {
        Some(i) => i,
        None => {
            assert(talent_step_hashed(
                s0,
                block@,
                name@,
                big,
                None,
                talent_state(*cache, *bufs, *talentsModule),
                hm,
                hn,
            ));
            return None;
        },
    };
    let mut name_intern_index: u16 = 0;
    let mut intern_bit: u32 = 0;
    if name.unicode_len() != 0 {
        let trimmed_block = unmarked(block);
        let ghost names_cache0 = cache.talents@;
        let ghost names0 = bufs.talents;
        let interned = try_add_entry_if_missing(&mut cache.talents, &mut bufs.talents, trimmed_block.as_str());
        proof {
            assert(names_cache0 == s0.1 && names0 == s0.2);
            hn = choose|h: u64|
                #[trigger] add_entry_with_hash_u16(
                    names_cache0,
                    names0,
                    trimmed_block@,
                    h,
                    interned,
                    cache.talents@,
                    bufs.talents,
                );
            assert(talent_interning(s0.1, s0.2, block@, hn, interned, cache.talents@, bufs.talents));
        }
        match interned {
            Some(i) => {
                name_intern_index = i;
            },
            None => {
                assert(talent_step_hashed(
                    s0,
                    block@,
                    name@,
                    big,
                    None,
                    talent_state(*cache, *bufs, *talentsModule),
                    hm,
                    hn,
                ));
                return None;
            },
        }
        proof {
            assert(talent_interning(s0.1, s0.2, block@, hn, Some(name_intern_index), cache.talents@, bufs.talents));
        }
        intern_bit = TALENT_INTERN_BIT_U32;
    }
    let bonus_bit: u32 = if is_bonus {
        TALENT_BONUS_BIT_U32
    } else {
        0
    };
    let mithic_bit: u32 = if is_mithic {
        TALENT_MITHIC_BIT_U32
    } else {
        0
    };
    let mut result_idx: u32 = intern_bit;
    result_idx = result_idx | bonus_bit;
    result_idx = result_idx | mithic_bit;
    let shifted_name_intern_idx: u32 = (name_intern_index as u32) << TALENT_INTERN_IDX_SHIFT;
    result_idx = result_idx | shifted_name_intern_idx;
    result_idx = result_idx | index_in_module;
    proof {
        assert(talent_code_for(block@, name@, name_intern_index, index_in_module) == result_idx);
        assert(talent_step_hashed(
            s0,
            block@,
            name@,
            big,
            Some(result_idx),
            talent_state(*cache, *bufs, *talentsModule),
            hm,
            hn,
        ));
    }
    Some(result_idx)
}

/// The code of one talent (see `talent_step`), the module's numbers read in
/// the machine's byte order: the byte order is learnt from `u32::from_be`, so
/// the outcome is the one for a big-endian or for a little-endian machine.
pub fn map_talent_intern_name(
    block: &str,
    name: &str,
    cache: &mut VectorCache,
    bufs: &mut Buffer_Context,
    talentsModule: &mut ByteBuffer,
    page_addr: &str,
) -> (r: Option<u32>)
    ensures
        talent_step(
            talent_state(*old(cache), *old(bufs), *old(talentsModule)),
            block@,
            name@,
            true,
            r,
            talent_state(*final(cache), *final(bufs), *final(talentsModule)),
        ) || talent_step(
            talent_state(*old(cache), *old(bufs), *old(talentsModule)),
            block@,
            name@,
            false,
            r,
            talent_state(*final(cache), *final(bufs), *final(talentsModule)),
        ),
        talent_frame(*old(cache), *final(cache), *old(bufs), *final(bufs)),
{
    let big = u32_from_be(1) == 1;
    map_talent_intern_name_ordered(block, name, cache, bufs, talentsModule, page_addr, big)
}

/// Where a parenthesis closes, scanning from `k` at nesting `depth`: the
/// position after the `)` that brings the nesting to 0, or the end of `s`;
/// `None` when the nesting passes `i32::MAX`.
pub open spec fn paren_close(s: Seq<char>, k: int, depth: int) -> Option<int>
    decreases s.len() - k,
{
    if k < 0 || k >= s.len() {
        Some(s.len() as int)
    } else if s[k] == '(' {
        if depth >= i32::MAX {
            None
        } else {
            paren_close(s, k + 1, depth + 1)
        }
    } else if s[k] == ')' {
        if depth - 1 == 0 {
            Some(k + 1)
        } else {
            paren_close(s, k + 1, depth - 1)
        }
    } else {
        paren_close(s, k + 1, depth)
    }
}

/// A closing position lies after `k` and within `s`.
pub proof fn lemma_paren_close_range(s: Seq<char>, k: int, depth: int)
    requires
        0 <= k,
    ensures
        paren_close(s, k, depth) matches Some(j) ==> (k < j || k >= s.len()) && j <= s.len(),
    decreases s.len() - k,
{
    if k < s.len() {
        if s[k] == '(' {
            if depth < i32::MAX {
                lemma_paren_close_range(s, k + 1, depth + 1);
            }
        } else if s[k] == ')' {
            if depth - 1 != 0 {
                lemma_paren_close_range(s, k + 1, depth - 1);
            }
        } else {
            lemma_paren_close_range(s, k + 1, depth);
        }
    }
}

/// The talents of `s` read from position `k`, the current one beginning at
/// `start` with display name `name`: each as its text and the text before its
/// parenthesis (both trimmed; the name empty when there is no parenthesis).
/// Commas inside parentheses do not separate talents. `None` when a
/// parenthesis nests too deep.
pub open spec fn talent_items_from(s: Seq<char>, start: int, name: Seq<char>, k: int) -> Option<
    Seq<(Seq<char>, Seq<char>)>,
>
    decreases s.len() - k,
{
    if k < 0 || k >= s.len() {
        Some(seq![(spec_trim(s.subrange(start, s.len() as int)), name)])
    } else if s[k] == ',' {
        match talent_items_from(s, k + 1, Seq::empty(), k + 1) {
            Some(t) => Some(seq![(spec_trim(s.subrange(start, k)), name)] + t),
            None => None,
        }
    } else if s[k] == '(' {
        proof {
            lemma_paren_close_range(s, k + 1, 1);
        }
        match paren_close(s, k + 1, 1) {
            Some(j) => talent_items_from(s, start, spec_trim(s.subrange(start, k)), j),
            None => None,
        }
    } else {
        talent_items_from(s, start, name, k + 1)
    }
}

/// The talents of a talent field (see `talent_items_from`), after trimming
/// spaces and punctuation from both ends.
pub open spec fn spec_talent_items(field: Seq<char>) -> Option<Seq<(Seq<char>, Seq<char>)>> {
    talent_items_from(spec_trim_set(field, list_trim_set()), 0, Seq::empty(), 0)
}

/// Mapping the talents `done` in turn (see `talent_step`), each succeeding,
/// goes through the states `states` and gives the codes `codes`: talent `i`
/// is mapped from `states[i]` to `states[i + 1]` with code `codes[i]`.
pub open spec fn talents_chain(
    done: Seq<(Seq<char>, Seq<char>)>,
    states: Seq<TalentState>,
    big: bool,
    codes: Seq<u32>,
) -> bool {
    &&& states.len() == done.len() + 1
    &&& codes.len() == done.len()
    &&& forall|i: int|
        0 <= i < done.len() ==> #[trigger] talent_step(
            states[i],
            done[i].0,
            done[i].1,
            big,
            Some(codes[i]),
            states[i + 1],
        )
}

/// Mapping the talents `items` in turn from the state `s0`, stopping at the
/// first that fails and after at most `limit` of them: `codes` are the codes
/// of those mapped, `failed` tells whether one failed after them, and `s1` is
/// the state left.
pub open spec fn talents_run(
    items: Seq<(Seq<char>, Seq<char>)>,
    limit: nat,
    s0: TalentState,
    big: bool,
    codes: Seq<u32>,
    failed: bool,
    s1: TalentState,
) -> bool {
    let k = codes.len() as int;
    exists|states: Seq<TalentState>|
        #![trigger talents_chain(items.take(k), states, big, codes)]
        talents_chain(items.take(k), states, big, codes) && states[0] == s0 && if failed {
            &&& k < limit && k < items.len()
            &&& talent_step(states.last(), items[k].0, items[k].1, big, None, s1)
        } else {
            &&& k == if limit < items.len() {
                limit as int
            } else {
                items.len() as int
            }
            &&& states.last() == s1
        }
}

/// The most talents a talent field can hold.
pub const MAX_TALENTS: usize = 24;

/// What `prepare_talents_str` gives for the talent field `field` from the
/// state `s0`, leaving `s1`: 24 zeros for an empty field or `-`, the state
/// unchanged; otherwise the talents of the field (see `spec_talent_items`)
/// are mapped in turn (see `talents_run`) and the codes, followed by zeros,
/// are the result. `None` where the field cannot be read, a talent fails, or
/// the field holds more than 24 talents (found once the 25th is mapped).
pub open spec fn talents_field_result(
    field: Seq<char>,
    s0: TalentState,
    big: bool,
    r: Option<[u32; 24]>,
    s1: TalentState,
) -> bool {
    if field == ""@ || field == "-"@ {
        &&& r matches Some(arr) && forall|i: int| 0 <= i < 24 ==> #[trigger] arr@[i] == 0
        &&& s1 == s0
    } else {
        match spec_talent_items(field) {
            None => r is None,
            Some(items) => exists|codes: Seq<u32>, failed: bool|
                #![trigger talents_run(items, 25, s0, big, codes, failed, s1)]
                talents_run(items, 25, s0, big, codes, failed, s1) && if failed || items.len() > 24 {
                    r is None
                } else {
                    r matches Some(arr) && (forall|i: int| 0 <= i < codes.len() ==> #[trigger] arr@[i] == codes[i])
                        && (forall|i: int| codes.len() <= i < 24 ==> #[trigger] arr@[i] == 0)
                },
        }
    }
}

/// The codes of the talents in the field at `TALENTS_IDX_IN_ARR` (see
/// `talents_field_result`), the module's numbers read in the byte order of a
/// big-endian machine when `big`, of a little-endian one otherwise.
pub fn prepare_talents_str_ordered(
    stats: &mut Vec<&str>,
    cache: &mut VectorCache,
    bufs: &mut Buffer_Context,
    talentsModule: &mut ByteBuffer,
    page_addr: &str,
    big: bool,
) -> (r: Option<[u32; 24]>)
    requires
        TALENTS_IDX_IN_ARR < old(stats)@.len(),
    ensures
        final(stats)@ == old(stats)@,
        talents_field_result(
            old(stats)@[TALENTS_IDX_IN_ARR as int]@,
            talent_state(*old(cache), *old(bufs), *old(talentsModule)),
            big,
            r,
            talent_state(*final(cache), *final(bufs), *final(talentsModule)),
        ),
        talent_frame(*old(cache), *final(cache), *old(bufs), *final(bufs)),
{
    let ghost s0 = talent_state(*cache, *bufs, *talentsModule);
    let field: &str = stats[TALENTS_IDX_IN_ARR];
    if str_eq(field, "") || str_eq(field, "-") {
        return Some([0u32; 24]);
    }
    let trim_check = vec![' ', ',', ';', '.'];
    assert(trim_check@ =~= list_trim_set());
    let base = trim_set_str(field, trim_check.as_slice());
    let v = chars_of(base);
    let n = v.len();
    let ghost all = talent_items_from(v@, 0, Seq::empty(), 0);
    let mut result_arr = [0u32; 24];
    let mut result_idx: usize = 0;
    let mut talent_name: &str = base.substring_char(0, 0);
    assert(talent_name@ =~= Seq::<char>::empty());
    let mut start: usize = 0;
    let mut k: usize = 0;
    let ghost mut done: Seq<(Seq<char>, Seq<char>)> = Seq::empty();
    let ghost mut states: Seq<TalentState> = seq![s0];
    assert(result_arr@.take(0) =~= Seq::<u32>::empty());
    loop
        invariant
            n == v@.len(),
            v@ == base@,
            base@ == spec_trim_set(field@, list_trim_set()),
            all == talent_items_from(v@, 0, Seq::empty(), 0),
            start <= k <= n,
            result_idx == done.len() <= 24,
            match talent_items_from(v@, start as int, talent_name@, k as int) {
                Some(rest) => all == Some(done + rest),
                None => all is None,
            },
            s0 == talent_state(*old(cache), *old(bufs), *old(talentsModule)),
            talents_chain(done, states, big, result_arr@.take(done.len() as int)),
            states[0] == s0,
            states.last() == talent_state(*cache, *bufs, *talentsModule),
            talent_frame(*old(cache), *cache, *old(bufs), *bufs),
            forall|i: int| done.len() <= i < 24 ==> #[trigger] result_arr@[i] == 0,
            TALENTS_IDX_IN_ARR < old(stats)@.len(),
            old(stats)@[TALENTS_IDX_IN_ARR as int] == field,
            stats@ == old(stats)@,
            field@ != ""@,
            field@ != "-"@,
        decreases n - k,
    {
        let ghost codes = result_arr@.take(done.len() as int);
        if k >= n || v[k] == ',' {
            let end = if k >= n { n } else { k };
            let block = trim_str(base.substring_char(start, end));
            let ghost item = (block@, talent_name@);
            let ghost st = talent_state(*cache, *bufs, *talentsModule);
            let mapped = map_talent_intern_name_ordered(block, talent_name, cache, bufs, talentsModule, page_addr, big);
            let ghost st1 = talent_state(*cache, *bufs, *talentsModule);
            let ghost rest_items: Option<Seq<(Seq<char>, Seq<char>)>> = if k >= n {
                Some(Seq::empty())
            } else {
                talent_items_from(v@, k + 1, Seq::empty(), k + 1)
            };
            proof {
                match rest_items {
                    Some(t) => {
                        assert(all == Some(done + (seq![item] + t)));
                        assert(done + (seq![item] + t) =~= done.push(item) + t);
                        let items = all->0;
                        assert(items.take(done.len() as int) =~= done);
                        assert(items[done.len() as int] == item);
                    },
                    None => {
                        assert(all is None);
                    },
                }
            }
            let code = match mapped {
                Some(c) => c,
                None => {
                    proof {
                        if let Some(items) = all {
                            assert(items.take(codes.len() as int) =~= done);
                            assert(talents_chain(items.take(codes.len() as int), states, big, codes));
                            assert(talents_run(items, 25, s0, big, codes, true, st1));
                        }
                    }
                    return None;
                },
            };
            let ghost nd = done.push(item);
            let ghost ns = states.push(st1);
            let ghost nc = codes.push(code);
            proof {
                assert forall|i: int| 0 <= i < nd.len() implies #[trigger] talent_step(
                    ns[i],
                    nd[i].0,
                    nd[i].1,
                    big,
                    Some(nc[i]),
                    ns[i + 1],
                ) by {
                    if i < done.len() {
                        assert(ns[i] == states[i] && ns[i + 1] == states[i + 1] && nd[i] == done[i] && nc[i] == codes[i]);
                    } else {
                        assert(ns[i] == st && ns[i + 1] == st1 && nd[i] == item && nc[i] == code);
                    }
                }
                assert(talents_chain(nd, ns, big, nc));
            }
            if result_idx >= 24 {
                proof {
                    if let Some(items) = all {
                        assert(items.take(nd.len() as int) =~= nd);
                        assert(talents_chain(items.take(nc.len() as int), ns, big, nc));
                        assert(talents_run(items, 25, s0, big, nc, false, st1));
                    }
                }
                return None;
            }
            result_arr[result_idx] = code;
            proof {
                assert(result_arr@.take(done.len() + 1int) =~= nc);
                done = nd;
                states = ns;
            }
            result_idx = result_idx + 1;
            if k >= n {
                proof {
                    let items = all->0;
                    assert(items =~= done);
                    assert(items.take(done.len() as int) =~= done);
                    let cs = result_arr@.take(done.len() as int);
                    assert(talents_chain(items.take(cs.len() as int), states, big, cs));
                    assert(talents_run(items, 25, s0, big, cs, false, st1));
                    assert forall|i: int| 0 <= i < cs.len() implies #[trigger] result_arr@[i] == cs[i] by {}
                }
                return Some(result_arr);
            }
            talent_name = base.substring_char(0, 0);
            assert(talent_name@ =~= Seq::<char>::empty());
            start = k + 1;
            k = k + 1;
        } else if v[k] == '(' {
            talent_name = trim_str(base.substring_char(start, k));
            let mut depth: i32 = 1;
            let mut j: usize = k + 1;
            proof {
                lemma_paren_close_range(v@, k + 1, 1);
                assert(paren_close(v@, k + 1, 1) is None ==> all is None);
            }
            while j < n
                invariant_except_break
                    n == v@.len(),
                    k < j <= n,
                    paren_close(v@, k + 1, 1) is None ==> all is None,
                    all == talent_items_from(v@, 0, Seq::empty(), 0),
                    v@ == base@,
                    base@ == spec_trim_set(field@, list_trim_set()),
                    TALENTS_IDX_IN_ARR < old(stats)@.len(),
                    old(stats)@[TALENTS_IDX_IN_ARR as int] == field,
                    stats@ == old(stats)@,
                    field@ != ""@,
                    field@ != "-"@,
                    1 <= depth,
                    paren_close(v@, k + 1, 1) == paren_close(v@, j as int, depth as int),
                    talent_frame(*old(cache), *cache, *old(bufs), *bufs),
                ensures
                    k < j <= n,
                    paren_close(v@, k + 1, 1) == Some(j as int),
                decreases n - j,
            {
                let d = v[j];
                if d == '(' {
                    if depth == i32::MAX {
                        proof {
                            assert(paren_close(v@, j as int, depth as int) is None);
                        }
                        return None;
                    }
                    depth = depth + 1;
                } else if d == ')' {
                    if depth - 1 == 0 {
                        j = j + 1;
                        break ;
                    }
                    depth = depth - 1;
                }
                j = j + 1;
            }
            k = j;
        } else {
            k = k + 1;
        }
    }
}

/// The codes of the talents in the field at `TALENTS_IDX_IN_ARR` (see
/// `talents_field_result`), the module's numbers read in the machine's byte
/// order: the byte order is learnt from `u32::from_be`, so the outcome is the
/// one for a big-endian or for a little-endian machine.
pub fn prepare_talents_str(
    stats: &mut Vec<&str>,
    cache: &mut VectorCache,
    bufs: &mut Buffer_Context,
    talentsModule: &mut ByteBuffer,
    page_addr: &str,
) -> (r: Option<[u32; 24]>)
    requires
        TALENTS_IDX_IN_ARR < old(stats)@.len(),
    ensures
        final(stats)@ == old(stats)@,
        talents_field_result(
            old(stats)@[TALENTS_IDX_IN_ARR as int]@,
            talent_state(*old(cache), *old(bufs), *old(talentsModule)),
            true,
            r,
            talent_state(*final(cache), *final(bufs), *final(talentsModule)),
        ) || talents_field_result(
            old(stats)@[TALENTS_IDX_IN_ARR as int]@,
            talent_state(*old(cache), *old(bufs), *old(talentsModule)),
            false,
            r,
            talent_state(*final(cache), *final(bufs), *final(talentsModule)),
        ),
        talent_frame(*old(cache), *final(cache), *old(bufs), *final(bufs)),
{
    let big = u32_from_be(1) == 1;
    prepare_talents_str_ordered(stats, cache, bufs, talentsModule, page_addr, big)
}

proof fn lemma_talent_bits(i: u32, b: u32, mi: u32, n: u16, m: u32)
    requires
        i == 0 || i == 0x80000000,
        b == 0 || b == 0x40000000,
        mi == 0 || mi == 0x20000000,
        m <= 0xFFF,
    ensures
        ({
            let code = i | b | mi | ((n as u32) << 12u32) | m;
            &&& code & 0xFFF == m
            &&& (code >> 12u32) & 0xFFFF == n as u32
            &&& (code & 0x80000000 != 0) == (i != 0)
            &&& (code & 0x40000000 != 0) == (b != 0)
            &&& (code & 0x20000000 != 0) == (mi != 0)
        }),
{
    assert({
        let code = i | b | mi | ((n as u32) << 12u32) | m;
        &&& code & 0xFFF == m
        &&& (code >> 12u32) & 0xFFFF == n as u32
        &&& (code & 0x80000000 != 0) == (i != 0)
        &&& (code & 0x40000000 != 0) == (b != 0)
        &&& (code & 0x20000000 != 0) == (mi != 0)
    }) by (bit_vector)
        requires
            i == 0 || i == 0x80000000,
            b == 0 || b == 0x40000000,
            mi == 0 || mi == 0x20000000,
            m <= 0xFFF,
    ;
}

/// The fields of a talent code read back: the module index (when it fits
/// its twelve bits), the display name index and the three flags.
pub proof fn lemma_talent_code_fields(interned: bool, bonus: bool, mithic: bool, n: u16, m: u32)
    requires
        m <= TALENT_MODULE_IDX_MASK,
    ensures
        ({
            let code = spec_talent_code(interned, bonus, mithic, n, m);
            &&& code & TALENT_MODULE_IDX_MASK == m
            &&& (code & TALENT_INTERN_MASK) >> TALENT_INTERN_IDX_SHIFT == n as u32
            &&& (code & TALENT_INTERN_BIT_U32 != 0) == interned
            &&& (code & TALENT_BONUS_BIT_U32 != 0) == bonus
            &&& (code & TALENT_MITHIC_BIT_U32 != 0) == mithic
        }),
{
    let i: u32 = if interned { TALENT_INTERN_BIT_U32 } else { 0 };
    let b: u32 = if bonus { TALENT_BONUS_BIT_U32 } else { 0 };
    let mi: u32 = if mithic { TALENT_MITHIC_BIT_U32 } else { 0 };
    lemma_talent_bits(i, b, mi, n, m);
    let code = i | b | mi | ((n as u32) << 12u32) | m;
    assert((code & 0x0FFFF000) >> 12u32 == (code >> 12u32) & 0xFFFF) by (bit_vector);
}

} // verus!
