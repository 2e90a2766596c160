use vstd::prelude::*;

use bytebuffer::ByteBuffer;
use byte_slice_cast::AsByteSlice;
use std::collections::hash_map::DefaultHasher;
use std::hash::BuildHasher;
use std::hash::BuildHasherDefault;

use crate::text::{chars_of, replace_chars, spec_replace, string_from_chars};

verus! {

broadcast use vstd::string::group_string_axioms;

// ---------------------------------------------------------------------------
// The byte buffer of the `bytebuffer` crate
// ---------------------------------------------------------------------------

#[verifier::external_type_specification]
#[verifier::external_body]
pub struct ExByteBuffer(ByteBuffer);

/// The bytes a `ByteBuffer` holds.
pub uninterp spec fn byte_buffer_bytes(b: ByteBuffer) -> Seq<u8>;

/// The cursors of a `ByteBuffer`: the write position, the bits written into
/// the byte there, the read position and the bits read from the byte there.
pub uninterp spec fn byte_buffer_cursors(b: ByteBuffer) -> (nat, nat, nat, nat);

/// The write position of a buffer.
pub open spec fn buffer_wpos(b: ByteBuffer) -> nat {
    byte_buffer_cursors(b).0
}

/// Where the next `write_bytes` starts: a partly written byte is skipped.
pub open spec fn buffer_write_start(b: ByteBuffer) -> nat {
    byte_buffer_cursors(b).0 + if byte_buffer_cursors(b).1 > 0 {
        1nat
    } else {
        0nat
    }
}

/// Where the next read starts: a partly read byte is skipped.
pub open spec fn buffer_read_start(b: ByteBuffer) -> nat {
    byte_buffer_cursors(b).2 + if byte_buffer_cursors(b).3 > 0 {
        1nat
    } else {
        0nat
    }
}

/// The cursors once pending bits are flushed: each partly used byte is
/// skipped and no bits are pending.
pub open spec fn flushed_cursors(b: ByteBuffer) -> (nat, nat, nat, nat) {
    (buffer_write_start(b), 0nat, buffer_read_start(b), 0nat)
}

/// `data` after `bytes` are written at `start`: grown with zeros as needed.
pub open spec fn buffer_after_write(data: Seq<u8>, start: nat, bytes: Seq<u8>) -> Seq<u8> {
    let end = start + bytes.len();
    let n = if end > data.len() {
        end
    } else {
        data.len()
    };
    Seq::new(
        n,
        |i: int|
            if start <= i < end {
                bytes[i - start]
            } else if i < data.len() {
                data[i]
            } else {
                0u8
            },
    )
}

/// `ByteBuffer::len`: the number of bytes held.
#[verifier::external_body]
pub(crate) fn buffer_len(b: &ByteBuffer) -> (r: usize)
    ensures
        r == byte_buffer_bytes(*b).len(),
{
    b.len()
}

/// `ByteBuffer::get_wpos`: the byte position of the write cursor.
#[verifier::external_body]
pub(crate) fn buffer_get_wpos(b: &ByteBuffer) -> (r: usize)
    ensures
        r == byte_buffer_cursors(*b).0,
{
    b.get_wpos()
}

/// `ByteBuffer::get_rpos`: the byte position of the read cursor.
#[verifier::external_body]
pub(crate) fn buffer_get_rpos(b: &ByteBuffer) -> (r: usize)
    ensures
        r == byte_buffer_cursors(*b).2,
{
    b.get_rpos()
}

/// `ByteBuffer::flush_bit`: skips a partly written and a partly read byte.
#[verifier::external_body]
pub(crate) fn buffer_flush_bit(b: &mut ByteBuffer)
    requires
        byte_buffer_cursors(*old(b)).1 > 0 ==> byte_buffer_cursors(*old(b)).0 < usize::MAX,
        byte_buffer_cursors(*old(b)).3 > 0 ==> byte_buffer_cursors(*old(b)).2 < usize::MAX,
    ensures
        byte_buffer_bytes(*final(b)) == byte_buffer_bytes(*old(b)),
        byte_buffer_cursors(*final(b)) == flushed_cursors(*old(b)),
{
    b.flush_bit()
}

/// `ByteBuffer::set_rpos`: moves the read cursor to `min(pos, len)`,
/// leaving the bytes and the other cursors alone.
#[verifier::external_body]
pub(crate) fn buffer_set_rpos(b: &mut ByteBuffer, pos: usize)
    ensures
        byte_buffer_bytes(*final(b)) == byte_buffer_bytes(*old(b)),
        byte_buffer_cursors(*final(b)) == (
            byte_buffer_cursors(*old(b)).0,
            byte_buffer_cursors(*old(b)).1,
            if pos < byte_buffer_bytes(*old(b)).len() {
                pos as nat
            } else {
                byte_buffer_bytes(*old(b)).len()
            },
            byte_buffer_cursors(*old(b)).3,
        ),
{
    b.set_rpos(pos)
}

/// What `ByteBuffer::read_u32` reads: after flushing pending bits, the four
/// bytes at the read cursor as a big-endian number; the cursor moves past
/// them. The bytes are taken with `read_bytes` and put together here, since
/// `read_u32` of this version of the crate reads them through a pointer that
/// may be misaligned.
pub(crate) fn buffer_read_u32(b: &mut ByteBuffer) -> (r: u32)
    requires
        byte_buffer_cursors(*old(b)).1 > 0 ==> byte_buffer_cursors(*old(b)).0 < usize::MAX,
        buffer_read_start(*old(b)) + 4 <= byte_buffer_bytes(*old(b)).len(),
    ensures
        ({
            let s = buffer_read_start(*old(b));
            let d = byte_buffer_bytes(*old(b));
            r == d[s as int] * 0x1000000 + d[s + 1int] * 0x10000 + d[s + 2int] * 0x100 + d[s + 3int]
        }),
        byte_buffer_bytes(*final(b)) == byte_buffer_bytes(*old(b)),
        byte_buffer_cursors(*final(b)) == (
            buffer_write_start(*old(b)),
            0nat,
            buffer_read_start(*old(b)) + 4,
            0nat,
        ),
{
    let v = buffer_read_bytes(b, 4);
    (v[0] as u32) * 0x1000000 + (v[1] as u32) * 0x10000 + (v[2] as u32) * 0x100 + (v[3] as u32)
}

/// What `ByteBuffer::read_u16` reads: after flushing pending bits, the two
/// bytes at the read cursor as a big-endian number; the cursor moves past
/// them (taken with `read_bytes`, as for `buffer_read_u32`).
pub(crate) fn buffer_read_u16(b: &mut ByteBuffer) -> (r: u16)
    requires
        byte_buffer_cursors(*old(b)).1 > 0 ==> byte_buffer_cursors(*old(b)).0 < usize::MAX,
        buffer_read_start(*old(b)) + 2 <= byte_buffer_bytes(*old(b)).len(),
    ensures
        ({
            let s = buffer_read_start(*old(b));
            let d = byte_buffer_bytes(*old(b));
            r == d[s as int] * 0x100 + d[s + 1int]
        }),
        byte_buffer_bytes(*final(b)) == byte_buffer_bytes(*old(b)),
        byte_buffer_cursors(*final(b)) == (
            buffer_write_start(*old(b)),
            0nat,
            buffer_read_start(*old(b)) + 2,
            0nat,
        ),
{
    let v = buffer_read_bytes(b, 2);
    (v[0] as u16) * 0x100 + (v[1] as u16)
}

/// `ByteBuffer::read_bytes`: after flushing pending bits, the `size` bytes at
/// the read cursor; the cursor moves past them.
#[verifier::external_body]
pub(crate) fn buffer_read_bytes(b: &mut ByteBuffer, size: usize) -> (r: Vec<u8>)
    requires
        byte_buffer_cursors(*old(b)).1 > 0 ==> byte_buffer_cursors(*old(b)).0 < usize::MAX,
        buffer_read_start(*old(b)) + size <= byte_buffer_bytes(*old(b)).len(),
    ensures
        r@ == byte_buffer_bytes(*old(b)).subrange(
            buffer_read_start(*old(b)) as int,
            buffer_read_start(*old(b)) + size,
        ),
        byte_buffer_bytes(*final(b)) == byte_buffer_bytes(*old(b)),
        byte_buffer_cursors(*final(b)) == (
            buffer_write_start(*old(b)),
            0nat,
            (buffer_read_start(*old(b)) + size) as nat,
            0nat,
        ),
{
    b.read_bytes(size)
}

/// `ByteBuffer::set_wpos`: moves the write cursor to `min(pos, len)`,
/// leaving the bytes and the other cursors alone.
#[verifier::external_body]
pub(crate) fn buffer_set_wpos(b: &mut ByteBuffer, pos: usize)
    ensures
        byte_buffer_bytes(*final(b)) == byte_buffer_bytes(*old(b)),
        byte_buffer_cursors(*final(b)) == (
            if pos < byte_buffer_bytes(*old(b)).len() {
                pos as nat
            } else {
                byte_buffer_bytes(*old(b)).len()
            },
            byte_buffer_cursors(*old(b)).1,
            byte_buffer_cursors(*old(b)).2,
            byte_buffer_cursors(*old(b)).3,
        ),
{
    b.set_wpos(pos)
}

/// `ByteBuffer::write_bytes`: after flushing pending bits, writes `bytes` at
/// the write cursor (growing the buffer with zeros as needed) and moves the
/// cursor past them.
#[verifier::external_body]
pub(crate) fn buffer_write_bytes(b: &mut ByteBuffer, bytes: &[u8])
    requires
        buffer_write_start(*old(b)) + bytes@.len() <= usize::MAX,
        byte_buffer_cursors(*old(b)).3 > 0 ==> byte_buffer_cursors(*old(b)).2 < usize::MAX,
    ensures
        byte_buffer_bytes(*final(b)) == buffer_after_write(
            byte_buffer_bytes(*old(b)),
            buffer_write_start(*old(b)),
            bytes@,
        ),
        byte_buffer_cursors(*final(b)) == (
            buffer_write_start(*old(b)) + bytes@.len(),
            0nat,
            buffer_read_start(*old(b)),
            0nat,
        ),
{
    b.write_bytes(bytes)
}

// ---------------------------------------------------------------------------
// Native byte order (`byte_slice_cast`)
// ---------------------------------------------------------------------------

/// The two bytes of `x`, least significant first.
pub open spec fn le_bytes_u16(x: u16) -> Seq<u8> {
    seq![(x & 0xFF) as u8, (x >> 8u16) as u8]
}

/// The two bytes of `x`, most significant first.
pub open spec fn be_bytes_u16(x: u16) -> Seq<u8> {
    seq![(x >> 8u16) as u8, (x & 0xFF) as u8]
}

/// The four bytes of `x`, least significant first.
pub open spec fn le_bytes_u32(x: u32) -> Seq<u8> {
    seq![(x & 0xFF) as u8, ((x >> 8u32) & 0xFF) as u8, ((x >> 16u32) & 0xFF) as u8, (x >> 24u32) as u8]
}

/// The four bytes of `x`, most significant first.
pub open spec fn be_bytes_u32(x: u32) -> Seq<u8> {
    seq![(x >> 24u32) as u8, ((x >> 16u32) & 0xFF) as u8, ((x >> 8u32) & 0xFF) as u8, (x & 0xFF) as u8]
}

/// `AsByteSlice::as_byte_slice` on the one-element slices `[n]` and
/// `[size]`: the bytes of each in the machine's order, which is the same
/// order for both, little-endian or big-endian.
#[verifier::external_body]
fn native_header_bytes(n: u16, size: u32) -> (r: (Vec<u8>, Vec<u8>))
    ensures
        (r.0@ == le_bytes_u16(n) && r.1@ == le_bytes_u32(size)) || (r.0@ == be_bytes_u16(n)
            && r.1@ == be_bytes_u32(size)),
{
    ([n].as_byte_slice().to_vec(), [size].as_byte_slice().to_vec())
}

// ---------------------------------------------------------------------------
// Hashing
// ---------------------------------------------------------------------------

/// `BuildHasher::hash_one` with a fresh `DefaultHasher`: the same as hashing
/// `data` into `DefaultHasher::new()` and calling `finish`. Nothing is stated
/// of the value: std leaves the algorithm unspecified and free to change
/// between releases, and the bytes hashed for a slice include its length in
/// the machine's `usize`, so the value is not the same on every machine.
#[verifier::external_body]
fn hash_bytes(data: &[u8]) -> (r: u64)
{
    BuildHasherDefault::<DefaultHasher>::default().hash_one(data)
}

// ---------------------------------------------------------------------------
// Caches of interned entries
// ---------------------------------------------------------------------------

/// An interned entry: the hash of its bytes and where it starts in its buffer.
pub struct CachedIndex<T> {
    pub hash: u64,
    pub cursor: T,
}

/// One buffer per kind of interned text.
pub struct Buffer_Context {
    pub string: ByteBuffer,
    pub number: ByteBuffer,
    pub name: ByteBuffer,
    pub types: ByteBuffer,
    pub subtypes: ByteBuffer,
    pub archetypes: ByteBuffer,
    pub sizes: ByteBuffer,
    pub senses: ByteBuffer,
    pub auras: ByteBuffer,
    pub immunities: ByteBuffer,
    pub resistances: ByteBuffer,
    pub weaknesses: ByteBuffer,
    pub special_attack: ByteBuffer,
    pub spells: ByteBuffer,
    pub talents: ByteBuffer,
    pub skills: ByteBuffer,
    pub languages: ByteBuffer,
    pub specials: ByteBuffer,
    pub environment: ByteBuffer,
}

/// One cache per kind of interned text.
pub struct VectorCache {
    pub strings: Vec<CachedIndex<u32>>,
    pub numbers: Vec<CachedIndex<u16>>,
    pub names: Vec<CachedIndex<u32>>,
    pub types: Vec<CachedIndex<u16>>,
    pub subtypes: Vec<CachedIndex<u16>>,
    pub archetypes: Vec<CachedIndex<u16>>,
    pub sizes: Vec<CachedIndex<u16>>,
    pub senses: Vec<CachedIndex<u16>>,
    pub auras: Vec<CachedIndex<u16>>,
    pub immunities: Vec<CachedIndex<u16>>,
    pub resistances: Vec<CachedIndex<u16>>,
    pub weaknesses: Vec<CachedIndex<u16>>,
    pub special: Vec<CachedIndex<u16>>,
    pub spells: Vec<CachedIndex<u32>>,
    pub talents: Vec<CachedIndex<u16>>,
    pub skills: Vec<CachedIndex<u32>>,
    pub languages: Vec<CachedIndex<u16>>,
    pub specials: Vec<CachedIndex<u32>>,
    pub environment: Vec<CachedIndex<u16>>,
    pub talentsMod: Vec<CachedIndex<u32>>,
}

impl VectorCache {
    /// Every cache of `self` is empty.
    pub open spec fn is_empty(&self) -> bool {
        &&& self.strings@.len() == 0
        &&& self.numbers@.len() == 0
        &&& self.names@.len() == 0
        &&& self.types@.len() == 0
        &&& self.subtypes@.len() == 0
        &&& self.archetypes@.len() == 0
        &&& self.sizes@.len() == 0
        &&& self.senses@.len() == 0
        &&& self.auras@.len() == 0
        &&& self.immunities@.len() == 0
        &&& self.resistances@.len() == 0
        &&& self.weaknesses@.len() == 0
        &&& self.special@.len() == 0
        &&& self.spells@.len() == 0
        &&& self.talents@.len() == 0
        &&& self.skills@.len() == 0
        &&& self.languages@.len() == 0
        &&& self.specials@.len() == 0
        &&& self.environment@.len() == 0
        &&& self.talentsMod@.len() == 0
    }

    /// Empty caches, each with room for `pre_alloc` entries.
    pub fn new(pre_alloc: usize) -> (r: VectorCache)
        ensures
            r.is_empty(),
    {
        VectorCache {
            strings: Vec::with_capacity(pre_alloc),
            numbers: Vec::with_capacity(pre_alloc),
            names: Vec::with_capacity(pre_alloc),
            types: Vec::with_capacity(pre_alloc),
            subtypes: Vec::with_capacity(pre_alloc),
            archetypes: Vec::with_capacity(pre_alloc),
            sizes: Vec::with_capacity(pre_alloc),
            senses: Vec::with_capacity(pre_alloc),
            auras: Vec::with_capacity(pre_alloc),
            immunities: Vec::with_capacity(pre_alloc),
            resistances: Vec::with_capacity(pre_alloc),
            weaknesses: Vec::with_capacity(pre_alloc),
            special: Vec::with_capacity(pre_alloc),
            spells: Vec::with_capacity(pre_alloc),
            talents: Vec::with_capacity(pre_alloc),
            skills: Vec::with_capacity(pre_alloc),
            languages: Vec::with_capacity(pre_alloc),
            specials: Vec::with_capacity(pre_alloc),
            environment: Vec::with_capacity(pre_alloc),
            talentsMod: Vec::with_capacity(pre_alloc),
        }
    }
}

/// The cursor of the first entry of `cache` with hash `h`, or `none` when
/// no entry has it.
pub open spec fn spec_cursor<T>(cache: Seq<CachedIndex<T>>, h: u64, none: T) -> T
    decreases cache.len(),
{
    if cache.len() == 0 {
        none
    } else if cache[0].hash == h {
        cache[0].cursor
    } else {
        spec_cursor(cache.drop_first(), h, none)
    }
}

/// The cursor of the first entry of `cache` with hash `h`, or 0 when none has it.
pub open spec fn spec_cursor_u32(cache: Seq<CachedIndex<u32>>, h: u64) -> u32 {
    spec_cursor(cache, h, 0u32)
}

/// The cursor of the first entry of `cache` with hash `h`, or 0 when none has it.
pub open spec fn spec_cursor_u16(cache: Seq<CachedIndex<u16>>, h: u64) -> u16 {
    spec_cursor(cache, h, 0u16)
}

/// The hash the hasher gives `data` (whatever value it is) and the cursor
/// cached under that hash (0 when there is none).
pub fn get_cursor_u32(cache: &Vec<CachedIndex<u32>>, data: &[u8]) -> (r: (u64, u32))
    ensures
        r.1 == spec_cursor_u32(cache@, r.0),
{
    let hash = hash_bytes(data);
    let mut idx: usize = 0;
    assert(cache@.skip(0) =~= cache@);
    while idx < cache.len()
        invariant
            idx <= cache@.len(),
            spec_cursor_u32(cache@, hash) == spec_cursor_u32(cache@.skip(idx as int), hash),
        decreases cache.len() - idx,
    {
        assert(cache@.skip(idx as int).drop_first() =~= cache@.skip(idx + 1));
        if cache[idx].hash == hash {
            return (hash, cache[idx].cursor);
        }
        idx = idx + 1;
    }
    (hash, 0u32)
}

/// The hash the hasher gives `data` (whatever value it is) and the cursor
/// cached under that hash (0 when there is none).
pub fn get_cursor_u16(cache: &Vec<CachedIndex<u16>>, data: &[u8]) -> (r: (u64, u16))
    ensures
        r.1 == spec_cursor_u16(cache@, r.0),
{
    let hash = hash_bytes(data);
    let mut idx: usize = 0;
    assert(cache@.skip(0) =~= cache@);
    while idx < cache.len()
        invariant
            idx <= cache@.len(),
            spec_cursor_u16(cache@, hash) == spec_cursor_u16(cache@.skip(idx as int), hash),
        decreases cache.len() - idx,
    {
        assert(cache@.skip(idx as int).drop_first() =~= cache@.skip(idx + 1));
        if cache[idx].hash == hash {
            return (hash, cache[idx].cursor);
        }
        idx = idx + 1;
    }
    (hash, 0u16)
}

/// The sum of the lengths of all buffers.
pub open spec fn spec_total_buffers_size(b: &Buffer_Context) -> nat {
    byte_buffer_bytes(b.string).len() + byte_buffer_bytes(b.number).len() + byte_buffer_bytes(
        b.name,
    ).len() + byte_buffer_bytes(b.types).len() + byte_buffer_bytes(b.subtypes).len()
        + byte_buffer_bytes(b.archetypes).len() + byte_buffer_bytes(b.sizes).len()
        + byte_buffer_bytes(b.senses).len() + byte_buffer_bytes(b.auras).len() + byte_buffer_bytes(
        b.immunities,
    ).len() + byte_buffer_bytes(b.resistances).len() + byte_buffer_bytes(b.weaknesses).len()
        + byte_buffer_bytes(b.special_attack).len() + byte_buffer_bytes(b.spells).len()
        + byte_buffer_bytes(b.talents).len() + byte_buffer_bytes(b.skills).len()
        + byte_buffer_bytes(b.languages).len() + byte_buffer_bytes(b.environment).len()
        + byte_buffer_bytes(b.specials).len()
}

/// The number of bytes all buffers hold, or `None` where it passes
/// `usize::MAX`.
pub fn try_total_buffers_size(buf_context: &Buffer_Context) -> (r: Option<usize>)
    ensures
        r is Some <==> spec_total_buffers_size(buf_context) <= usize::MAX,
        r is Some ==> r->0 == spec_total_buffers_size(buf_context),
{
    let total: u128 = 0;
    let total: u128 = total + buffer_len(&buf_context.string) as u128;
    let total: u128 = total + buffer_len(&buf_context.number) as u128;
    let total: u128 = total + buffer_len(&buf_context.name) as u128;
    let total: u128 = total + buffer_len(&buf_context.types) as u128;
    let total: u128 = total + buffer_len(&buf_context.subtypes) as u128;
    let total: u128 = total + buffer_len(&buf_context.archetypes) as u128;
    let total: u128 = total + buffer_len(&buf_context.sizes) as u128;
    let total: u128 = total + buffer_len(&buf_context.senses) as u128;
    let total: u128 = total + buffer_len(&buf_context.auras) as u128;
    let total: u128 = total + buffer_len(&buf_context.immunities) as u128;
    let total: u128 = total + buffer_len(&buf_context.resistances) as u128;
    let total: u128 = total + buffer_len(&buf_context.weaknesses) as u128;
    let total: u128 = total + buffer_len(&buf_context.special_attack) as u128;
    let total: u128 = total + buffer_len(&buf_context.spells) as u128;
    let total: u128 = total + buffer_len(&buf_context.talents) as u128;
    let total: u128 = total + buffer_len(&buf_context.skills) as u128;
    let total: u128 = total + buffer_len(&buf_context.languages) as u128;
    let total: u128 = total + buffer_len(&buf_context.environment) as u128;
    let total: u128 = total + buffer_len(&buf_context.specials) as u128;
    if total <= usize::MAX as u128 {
        Some(total as usize)
    } else {
        None
    }
}

/// The number of bytes all buffers hold.
pub fn total_buffers_size(buf_context: &Buffer_Context) -> (r: usize)
    requires
        spec_total_buffers_size(buf_context) <= usize::MAX,
    ensures
        r == spec_total_buffers_size(buf_context),
{
    match try_total_buffers_size(buf_context) {
        Some(n) => n,
        None => 0,
    }
}

// ---------------------------------------------------------------------------
// Interning
// ---------------------------------------------------------------------------

/// `s` with typographic characters replaced by plain ones: dashes and the
/// minus sign by `-`, curly quotes by straight ones, the ellipsis by `...`,
/// the ligatures `ﬁ` and `ﬂ` by their letters; zero-width and blank Braille
/// spaces removed.
pub open spec fn spec_normalize_entry(s: Seq<char>) -> Seq<char> {
    let s1 = spec_replace(s, seq!['\u{2012}'], seq!['-']);
    let s2 = spec_replace(s1, seq!['\u{200b}'], seq![]);
    let s3 = spec_replace(s2, seq!['\u{2011}'], seq!['-']);
    let s4 = spec_replace(s3, seq!['\u{2013}'], seq!['-']);
    let s5 = spec_replace(s4, seq!['\u{2014}'], seq!['-']);
    let s6 = spec_replace(s5, seq!['\u{2018}'], seq!['\'']);
    let s7 = spec_replace(s6, seq!['\u{2019}'], seq!['\'']);
    let s8 = spec_replace(s7, seq!['\u{201c}'], seq!['"']);
    let s9 = spec_replace(s8, seq!['\u{201d}'], seq!['"']);
    let s10 = spec_replace(s9, seq!['\u{2026}'], seq!['.', '.', '.']);
    let s11 = spec_replace(s10, seq!['\u{2212}'], seq!['-']);
    let s12 = spec_replace(s11, seq!['\u{2800}'], seq![]);
    let s13 = spec_replace(s12, seq!['\u{fb01}'], seq!['f', 'i']);
    spec_replace(s13, seq!['\u{fb02}'], seq!['f', 'l'])
}

/// The bytes stored for an entry: its normalized text in UTF-8.
pub open spec fn spec_entry_bytes(s: Seq<char>) -> Seq<u8> {
    vstd::utf8::encode_utf8(spec_normalize_entry(s))
}

fn replace_char(s: Vec<char>, from: char, to: Vec<char>) -> (r: Vec<char>)
    ensures
        r@ == spec_replace(s@, seq![from], to@),
{
    let f = vec![from];
    assert(f@ =~= seq![from]);
    replace_chars(s.as_slice(), f.as_slice(), to.as_slice())
}

fn normalize_entry(s: &str) -> (r: String)
    ensures
        r@ == spec_normalize_entry(s@),
{
    let v = chars_of(s);
    let t1 = vec!['-'];
    assert(t1@ =~= seq!['-']);
    let v = replace_char(v, '\u{2012}', t1);
    let t2 = vec![];
    assert(t2@ =~= seq![]);
    let v = replace_char(v, '\u{200b}', t2);
    let t3 = vec!['-'];
    assert(t3@ =~= seq!['-']);
    let v = replace_char(v, '\u{2011}', t3);
    let t4 = vec!['-'];
    assert(t4@ =~= seq!['-']);
    let v = replace_char(v, '\u{2013}', t4);
    let t5 = vec!['-'];
    assert(t5@ =~= seq!['-']);
    let v = replace_char(v, '\u{2014}', t5);
    let t6 = vec!['\''];
    assert(t6@ =~= seq!['\'']);
    let v = replace_char(v, '\u{2018}', t6);
    let t7 = vec!['\''];
    assert(t7@ =~= seq!['\'']);
    let v = replace_char(v, '\u{2019}', t7);
    let t8 = vec!['"'];
    assert(t8@ =~= seq!['"']);
    let v = replace_char(v, '\u{201c}', t8);
    let t9 = vec!['"'];
    assert(t9@ =~= seq!['"']);
    let v = replace_char(v, '\u{201d}', t9);
    let t10 = vec!['.', '.', '.'];
    assert(t10@ =~= seq!['.', '.', '.']);
    let v = replace_char(v, '\u{2026}', t10);
    let t11 = vec!['-'];
    assert(t11@ =~= seq!['-']);
    let v = replace_char(v, '\u{2212}', t11);
    let t12 = vec![];
    assert(t12@ =~= seq![]);
    let v = replace_char(v, '\u{2800}', t12);
    let t13 = vec!['f', 'i'];
    assert(t13@ =~= seq!['f', 'i']);
    let v = replace_char(v, '\u{fb01}', t13);
    let t14 = vec!['f', 'l'];
    assert(t14@ =~= seq!['f', 'l']);
    let v = replace_char(v, '\u{fb02}', t14);
    string_from_chars(v.as_slice())
}

/// The length of a buffer once an entry of `data` is written at `start`,
/// after its two length bytes.
pub open spec fn spec_interned_len(old: Seq<u8>, start: nat, data: Seq<u8>) -> nat {
    if start + 2 + data.len() > old.len() {
        start + 2 + data.len()
    } else {
        old.len()
    }
}

/// The bytes of a buffer once an entry is interned at `start`: `lb` (the
/// entry's byte length) and `data` written there, then `sb` (the new buffer
/// length less four) written at 0.
pub open spec fn spec_interned_bytes(
    old: Seq<u8>,
    start: nat,
    data: Seq<u8>,
    lb: Seq<u8>,
    sb: Seq<u8>,
) -> Seq<u8> {
    buffer_after_write(buffer_after_write(buffer_after_write(old, start, lb), start + 2, data), 0, sb)
}

/// `new_buf` is `old_buf` with the entry `data` interned: pending bits
/// flushed, the entry's length as two bytes and its bytes at the write
/// position, the buffer length less four as four bytes at 0 (both numbers in
/// the machine's byte order, the same for both), and the write cursor after
/// the entry.
pub open spec fn spec_interned(old_buf: ByteBuffer, data: Seq<u8>, new_buf: ByteBuffer) -> bool {
    let start = buffer_write_start(old_buf);
    let old = byte_buffer_bytes(old_buf);
    let size = (spec_interned_len(old, start, data) - 4) as u32;
    let n = data.len() as u16;
    &&& byte_buffer_cursors(new_buf) == (start + 2 + data.len(), 0nat, buffer_read_start(old_buf), 0nat)
    &&& {
        ||| byte_buffer_bytes(new_buf) == spec_interned_bytes(
            old,
            start,
            data,
            le_bytes_u16(n),
            le_bytes_u32(size),
        )
        ||| byte_buffer_bytes(new_buf) == spec_interned_bytes(
            old,
            start,
            data,
            be_bytes_u16(n),
            be_bytes_u32(size),
        )
    }
}

/// Interning `data` into `buf` neither overflows nor leaves fewer than the
/// four bytes of the size header; the read cursor is short of `usize::MAX`,
/// so flushing a partly read byte cannot overflow it.
pub open spec fn spec_interning_fits(buf: ByteBuffer, data: Seq<u8>) -> bool {
    &&& buffer_write_start(buf) + 2 + data.len() <= usize::MAX
    &&& byte_buffer_cursors(buf).2 < usize::MAX
    &&& spec_interned_len(byte_buffer_bytes(buf), buffer_write_start(buf), data) >= 4
}

/// Interning `entry` into `buf` cannot fail: the entry is empty or fits.
pub open spec fn spec_entry_fits(buf: ByteBuffer, entry: Seq<char>) -> bool {
    entry.len() == 0 || spec_entry_bytes(entry).len() == 0 || spec_interning_fits(
        buf,
        spec_entry_bytes(entry),
    )
}

/// Write the length of `data` and `data` at the write position of `buf`,
/// then the buffer length less four at 0, and put the cursor back after the
/// entry; `None`, with nothing written, where a cursor would overflow or the
/// buffer would end up shorter than four bytes.
fn write_entry(buf: &mut ByteBuffer, data: &[u8]) -> (r: Option<()>)
    ensures
        spec_interning_fits(*old(buf), data@) <==> r is Some,
        r is Some ==> spec_interned(*old(buf), data@, *final(buf)),
{
    let ghost old_bytes = byte_buffer_bytes(*buf);
    let ghost start = buffer_write_start(*buf);
    let w = buffer_get_wpos(buf);
    let rp = buffer_get_rpos(buf);
    if w == usize::MAX || rp == usize::MAX {
        return None;
    }
    buffer_flush_bit(buf);
    let s = buffer_get_wpos(buf);
    let n = data.len();
    if s > usize::MAX - 2 || n > usize::MAX - 2 - s {
        return None;
    }
    let len = buffer_len(buf);
    let end = s + 2 + n;
    let new_len = if end > len {
        end
    } else {
        len
    };
    assert(new_len == spec_interned_len(old_bytes, start, data@));
    if new_len < 4 {
        return None;
    }
    let (lb, sb) = native_header_bytes(n as u16, (new_len - 4) as u32);
    buffer_write_bytes(buf, lb.as_slice());
    buffer_write_bytes(buf, data);
    let write_cursor = buffer_get_wpos(buf);
    buffer_set_wpos(buf, 0);
    buffer_write_bytes(buf, sb.as_slice());
    buffer_set_wpos(buf, write_cursor);
    assert(byte_buffer_bytes(*buf) == spec_interned_bytes(old_bytes, start, data@, lb@, sb@));
    Some(())
}

/// What interning `entry` gives with `cache` and `buf` (for either width of
/// cursor) when the hasher gives its bytes the hash `h`: `r` is the result,
/// `new_cache` the cache after.
pub open spec fn spec_add_entry_result<T>(
    old_cache: Seq<CachedIndex<T>>,
    old_buf: ByteBuffer,
    entry: Seq<char>,
    h: u64,
    w: T,
    empty_entry: bool,
    zero: T,
    r: Option<T>,
    new_cache: Seq<CachedIndex<T>>,
    new_buf: ByteBuffer,
) -> bool {
    let data = spec_entry_bytes(entry);
    let found = spec_cursor(old_cache, h, zero);
    if empty_entry || data.len() == 0 {
        r == Some(zero) && new_cache == old_cache && new_buf == old_buf
    } else if found != zero {
        r == Some(found) && new_cache == old_cache && new_buf == old_buf
    } else if !spec_interning_fits(old_buf, data) {
        r is None
    } else {
        &&& r == Some(w)
        &&& new_cache == old_cache.push(CachedIndex { hash: h, cursor: w })
        &&& spec_interned(old_buf, data, new_buf)
    }
}

/// What interning `entry` with 32-bit cursors gives (see
/// `spec_add_entry_result`) for the hash the hasher gives its bytes, whatever
/// that hash is.
pub open spec fn spec_add_entry_u32(
    c0: Seq<CachedIndex<u32>>,
    b0: ByteBuffer,
    entry: Seq<char>,
    r: Option<u32>,
    c1: Seq<CachedIndex<u32>>,
    b1: ByteBuffer,
) -> bool {
    exists|h: u64| #[trigger] add_entry_with_hash_u32(c0, b0, entry, h, r, c1, b1)
}

/// What interning `entry` with 32-bit cursors gives when the hasher gives
/// its bytes the hash `h` (see `spec_add_entry_result`).
pub open spec fn add_entry_with_hash_u32(
    c0: Seq<CachedIndex<u32>>,
    b0: ByteBuffer,
    entry: Seq<char>,
    h: u64,
    r: Option<u32>,
    c1: Seq<CachedIndex<u32>>,
    b1: ByteBuffer,
) -> bool {
    spec_add_entry_result(c0, b0, entry, h, byte_buffer_cursors(b0).0 as u32, entry.len() == 0, 0u32, r, c1, b1)
}

/// What interning `entry` with 16-bit cursors gives (see
/// `spec_add_entry_result`) for the hash the hasher gives its bytes, whatever
/// that hash is.
pub open spec fn spec_add_entry_u16(
    c0: Seq<CachedIndex<u16>>,
    b0: ByteBuffer,
    entry: Seq<char>,
    r: Option<u16>,
    c1: Seq<CachedIndex<u16>>,
    b1: ByteBuffer,
) -> bool {
    exists|h: u64| #[trigger] add_entry_with_hash_u16(c0, b0, entry, h, r, c1, b1)
}

/// What interning `entry` with 16-bit cursors gives when the hasher gives
/// its bytes the hash `h` (see `spec_add_entry_result`).
pub open spec fn add_entry_with_hash_u16(
    c0: Seq<CachedIndex<u16>>,
    b0: ByteBuffer,
    entry: Seq<char>,
    h: u64,
    r: Option<u16>,
    c1: Seq<CachedIndex<u16>>,
    b1: ByteBuffer,
) -> bool {
    spec_add_entry_result(c0, b0, entry, h, byte_buffer_cursors(b0).0 as u16, false, 0u16, r, c1, b1)
}

/// `add_entry_if_missing_u32`, or `None` where interning an entry the cache
/// does not hold would overflow or leave the buffer shorter than four bytes.
pub fn try_add_entry_if_missing_u32(
    cache: &mut Vec<CachedIndex<u32>>,
    buf: &mut ByteBuffer,
    entry_data_str: &str,
) -> (r: Option<u32>)
    ensures
        spec_add_entry_u32(old(cache)@, *old(buf), entry_data_str@, r, final(cache)@, *final(buf)),
{
    let ghost old_cache = cache@;
    let ghost old_buf = *buf;
    if entry_data_str.is_empty() {
        assert(add_entry_with_hash_u32(old_cache, old_buf, entry_data_str@, 0u64, Some(0u32), cache@, *buf));
        return Some(0u32);
    }
    let norm = normalize_entry(entry_data_str);
    let data = norm.as_str().as_bytes();
    if data.len() == 0 {
        assert(add_entry_with_hash_u32(old_cache, old_buf, entry_data_str@, 0u64, Some(0u32), cache@, *buf));
        return Some(0u32);
    }
    let (hash, found) = get_cursor_u32(cache, data);
    if found != 0 {
        assert(add_entry_with_hash_u32(old_cache, old_buf, entry_data_str@, hash, Some(found), cache@, *buf));
        return Some(found);
    }
    let cursor = buffer_get_wpos(buf);
    match write_entry(buf, data) {
        None => {
            assert(add_entry_with_hash_u32(old_cache, old_buf, entry_data_str@, hash, None::<u32>, cache@, *buf));
            None
        },
        Some(()) => {
            cache.push(CachedIndex { hash: hash, cursor: cursor as u32 });
            assert(add_entry_with_hash_u32(old_cache, old_buf, entry_data_str@, hash, Some(cursor as u32), cache@, *buf));
            Some(cursor as u32)
        },
    }
}

/// The cursor of `entry` in `buf`, interning it when `cache` does not hold it
/// yet; 0 for an empty entry (see `spec_add_entry_result`).
pub fn add_entry_if_missing_u32(
    cache: &mut Vec<CachedIndex<u32>>,
    buf: &mut ByteBuffer,
    entry_data_str: &str,
) -> (r: u32)
    requires
        spec_entry_fits(*old(buf), entry_data_str@),
    ensures
        spec_add_entry_u32(old(cache)@, *old(buf), entry_data_str@, Some(r), final(cache)@, *final(buf)),
{
    match try_add_entry_if_missing_u32(cache, buf, entry_data_str) {
        Some(v) => v,
        None => 0,
    }
}

/// `add_entry_if_missing`, or `None` where interning an entry the cache does
/// not hold would overflow or leave the buffer shorter than four bytes.
pub fn try_add_entry_if_missing(
    cache: &mut Vec<CachedIndex<u16>>,
    buf: &mut ByteBuffer,
    entry_data_str: &str,
) -> (r: Option<u16>)
    ensures
        spec_add_entry_u16(old(cache)@, *old(buf), entry_data_str@, r, final(cache)@, *final(buf)),
{
    let ghost old_cache = cache@;
    let ghost old_buf = *buf;
    let norm = normalize_entry(entry_data_str);
    let data = norm.as_str().as_bytes();
    if data.len() == 0 {
        assert(add_entry_with_hash_u16(old_cache, old_buf, entry_data_str@, 0u64, Some(0u16), cache@, *buf));
        return Some(0u16);
    }
    let (hash, found) = get_cursor_u16(cache, data);
    if found != 0 {
        assert(add_entry_with_hash_u16(old_cache, old_buf, entry_data_str@, hash, Some(found), cache@, *buf));
        return Some(found);
    }
    let cursor = buffer_get_wpos(buf);
    match write_entry(buf, data) {
        None => {
            assert(add_entry_with_hash_u16(old_cache, old_buf, entry_data_str@, hash, None::<u16>, cache@, *buf));
            None
        },
        Some(()) => {
            cache.push(CachedIndex { hash: hash, cursor: cursor as u16 });
            assert(add_entry_with_hash_u16(old_cache, old_buf, entry_data_str@, hash, Some(cursor as u16), cache@, *buf));
            Some(cursor as u16)
        },
    }
}

/// The cursor of `entry` in `buf`, interning it when `cache` does not hold it
/// yet; 0 for an entry with no bytes (see `spec_add_entry_result`).
pub fn add_entry_if_missing(
    cache: &mut Vec<CachedIndex<u16>>,
    buf: &mut ByteBuffer,
    entry_data_str: &str,
) -> (r: u16)
    requires
        spec_entry_fits(*old(buf), entry_data_str@),
    ensures
        spec_add_entry_u16(old(cache)@, *old(buf), entry_data_str@, Some(r), final(cache)@, *final(buf)),
{
    match try_add_entry_if_missing(cache, buf, entry_data_str) {
        Some(v) => v,
        None => 0,
    }
}

/// The same as `add_entry_if_missing`.
pub fn add_entry_if_missing_dbg(
    cache: &mut Vec<CachedIndex<u16>>,
    buf: &mut ByteBuffer,
    entry_data_str: &str,
) -> (r: u16)
    requires
        spec_entry_fits(*old(buf), entry_data_str@),
    ensures
        spec_add_entry_u16(old(cache)@, *old(buf), entry_data_str@, Some(r), final(cache)@, *final(buf)),
{
    add_entry_if_missing(cache, buf, entry_data_str)
}

// ---------------------------------------------------------------------------
// Packed values
// ---------------------------------------------------------------------------

pub const PAREN_BIT_U32: u32 = 0x40000000;

pub const PAREN_BIT_U16: u16 = 0x4000;

pub const INTERN_BIT_U32: u32 = 0x80000000;

pub const INTERN_BIT_U16: u16 = 0x8000;

pub const SENTINEL_VALUE_I32: i32 = -127;

pub const SENTINEL_VALUE_I16: i16 = -127;

/// A type, a masked value above it and a flag bit in one word:
/// `paren_bit | (value & mask) << type_size | type`.
pub open spec fn spec_pack_value_u32(val_type: u32, val_value: i32, type_size: usize, val_mask: i32, paren_bit: u32) -> u32 {
    paren_bit | (((val_value & val_mask) << type_size) as u32) | val_type
}

/// A type, a masked value above it and a flag bit in one word.
pub fn pack_value_u32(val_type: u32, val_value: i32, type_size: usize, val_mask: i32, paren_bit: u32) -> (r: u32)
    requires
        type_size < 32,
    ensures
        r == spec_pack_value_u32(val_type, val_value, type_size, val_mask, paren_bit),
{
    let result: u32 = paren_bit | ((val_value & val_mask) << type_size) as u32 | val_type;
    result
}

/// A type, a masked value above it and a flag bit in one word:
/// `paren_bit | (value & mask) << type_size | type`.
pub open spec fn spec_pack_value_u16(val_type: u16, val_value: i16, type_size: usize, val_mask: i16, paren_bit: u16) -> u16 {
    paren_bit | (((val_value & val_mask) << type_size) as u16) | val_type
}

/// A type, a masked value above it and a flag bit in one word.
pub fn pack_value_u16(val_type: u16, val_value: i16, type_size: usize, val_mask: i16, paren_bit: u16) -> (r: u16)
    requires
        type_size < 16,
    ensures
        r == spec_pack_value_u16(val_type, val_value, type_size, val_mask, paren_bit),
{
    let result: u16 = paren_bit | ((val_value & val_mask) << type_size) as u16 | val_type;
    result
}

// ---------------------------------------------------------------------------
// Laws
// ---------------------------------------------------------------------------

/// Replacing in an empty text gives an empty text.
proof fn lemma_replace_empty(from: Seq<char>, to: Seq<char>)
    ensures
        spec_replace(Seq::<char>::empty(), from, to) == Seq::<char>::empty(),
{
    let e = Seq::<char>::empty();
    if from.len() > 0 {
        if let Some(i) = crate::text::spec_find(e, from) {
            crate::text::lemma_find_some(e, from, i);
        }
    }
}

/// The empty text normalizes to the empty text.
proof fn lemma_normalize_empty()
    ensures
        spec_normalize_entry(Seq::<char>::empty()) == Seq::<char>::empty(),
{
    lemma_replace_empty(seq!['\u{2012}'], seq!['-']);
    lemma_replace_empty(seq!['\u{200b}'], seq![]);
    lemma_replace_empty(seq!['\u{2011}'], seq!['-']);
    lemma_replace_empty(seq!['\u{2013}'], seq!['-']);
    lemma_replace_empty(seq!['\u{2014}'], seq!['-']);
    lemma_replace_empty(seq!['\u{2018}'], seq!['\'']);
    lemma_replace_empty(seq!['\u{2019}'], seq!['\'']);
    lemma_replace_empty(seq!['\u{201c}'], seq!['"']);
    lemma_replace_empty(seq!['\u{201d}'], seq!['"']);
    lemma_replace_empty(seq!['\u{2026}'], seq!['.', '.', '.']);
    lemma_replace_empty(seq!['\u{2212}'], seq!['-']);
    lemma_replace_empty(seq!['\u{2800}'], seq![]);
    lemma_replace_empty(seq!['\u{fb01}'], seq!['f', 'i']);
    lemma_replace_empty(seq!['\u{fb02}'], seq!['f', 'l']);
}

proof fn lemma_cursor_push<T>(cache: Seq<CachedIndex<T>>, e: CachedIndex<T>, h: u64, none: T)
    requires
        forall|i: int| 0 <= i < cache.len() ==> (#[trigger] cache[i]).hash != h,
    ensures
        spec_cursor(cache.push(e), h, none) == if e.hash == h {
            e.cursor
        } else {
            none
        },
    decreases cache.len(),
{
    if cache.len() > 0 {
        assert(cache.push(e).drop_first() =~= cache.drop_first().push(e));
        assert(cache[0].hash != h);
        assert forall|i: int| 0 <= i < cache.drop_first().len() implies (#[trigger] cache.drop_first()[i]).hash != h by {
            assert(cache.drop_first()[i] == cache[i + 1]);
        }
        lemma_cursor_push(cache.drop_first(), e, h, none);
        assert(cache.push(e)[0] == cache[0]);
        assert(spec_cursor(cache.push(e), h, none) == spec_cursor(cache.push(e).drop_first(), h, none));
    } else {
        assert(cache.push(e)[0] == e);
        assert(cache.push(e).drop_first().len() == 0);
        assert(spec_cursor(cache.push(e).drop_first(), h, none) == none);
    }
}

proof fn lemma_cursor_absent<T>(cache: Seq<CachedIndex<T>>, h: u64, none: T)
    requires
        forall|i: int| 0 <= i < cache.len() && (#[trigger] cache[i]).hash == h ==> cache[i].cursor != none,
        spec_cursor(cache, h, none) == none,
    ensures
        forall|i: int| 0 <= i < cache.len() ==> (#[trigger] cache[i]).hash != h,
    decreases cache.len(),
{
    if cache.len() > 0 {
        assert forall|i: int|
            0 <= i < cache.drop_first().len() && (#[trigger] cache.drop_first()[i]).hash == h implies cache.drop_first()[i].cursor
            != none by {
            assert(cache.drop_first()[i] == cache[i + 1]);
        }
        lemma_cursor_absent(cache.drop_first(), h, none);
        assert forall|i: int| 0 <= i < cache.len() implies (#[trigger] cache[i]).hash != h by {
            if i > 0 {
                assert(cache.drop_first()[i - 1] == cache[i]);
            }
        }
    }
}

/// Interning twice with the same hash, for either width of cursor (see
/// `spec_add_entry_result`): a second entry that normalizes like the first is
/// found under the cursor the first got, and nothing changes.
proof fn lemma_add_entry_idempotent<T>(
    c0: Seq<CachedIndex<T>>,
    b0: ByteBuffer,
    s: Seq<char>,
    h: u64,
    w0: T,
    empty0: bool,
    zero: T,
    r1: T,
    c1: Seq<CachedIndex<T>>,
    b1: ByteBuffer,
    s2: Seq<char>,
    w1: T,
    empty1: bool,
    r2: Option<T>,
    c2: Seq<CachedIndex<T>>,
    b2: ByteBuffer,
)
    requires
        spec_add_entry_result(c0, b0, s, h, w0, empty0, zero, Some(r1), c1, b1),
        empty0 ==> s.len() == 0,
        empty1 ==> s2.len() == 0,
        spec_normalize_entry(s2) == spec_normalize_entry(s),
        spec_entry_bytes(s).len() > 0,
        forall|i: int| 0 <= i < c0.len() && (#[trigger] c0[i]).hash == h ==> c0[i].cursor != zero,
        w0 != zero,
        spec_add_entry_result(c1, b1, s2, h, w1, empty1, zero, r2, c2, b2),
    ensures
        r1 != zero,
        r2 == Some(r1),
        c2 == c1,
        b2 == b1,
{
    assert(spec_entry_bytes(s2) == spec_entry_bytes(s));
    assert(s.len() != 0) by {
        if s.len() == 0 {
            assert(s =~= Seq::<char>::empty());
            lemma_normalize_empty();
        }
    }
    assert(s2.len() != 0) by {
        if s2.len() == 0 {
            assert(s2 =~= Seq::<char>::empty());
            lemma_normalize_empty();
        }
    }
    if spec_cursor(c0, h, zero) == zero {
        lemma_cursor_absent(c0, h, zero);
        lemma_cursor_push(c0, CachedIndex { hash: h, cursor: w0 }, h, zero);
    }
}

/// Interning gives one outcome for one hash: two outcomes of interning the
/// same entry into the same cache and buffer, with the same hash, have the
/// same result, the same cache and the same cursors (the bytes may differ
/// only in the byte order of the two numbers of the header).
pub proof fn lemma_add_entry_deterministic<T>(
    c0: Seq<CachedIndex<T>>,
    b0: ByteBuffer,
    s: Seq<char>,
    h: u64,
    w: T,
    empty: bool,
    zero: T,
    r1: Option<T>,
    c1: Seq<CachedIndex<T>>,
    b1: ByteBuffer,
    r2: Option<T>,
    c2: Seq<CachedIndex<T>>,
    b2: ByteBuffer,
)
    requires
        spec_add_entry_result(c0, b0, s, h, w, empty, zero, r1, c1, b1),
        spec_add_entry_result(c0, b0, s, h, w, empty, zero, r2, c2, b2),
        r1 is Some,
    ensures
        r1 == r2,
        c1 == c2,
        byte_buffer_cursors(b1) == byte_buffer_cursors(b2),
{
}

/// Interning is idempotent up to the typographic normalization: once
/// `add_entry_if_missing_u32` has returned `r1` for `s` with the hash `h`,
/// leaving the cache `c1` and the buffer `b1`, a call for any `s2` that
/// normalizes to the same non-empty text, given the same hash, returns `r1`
/// again and changes neither, and `r1` is not 0. This holds where no entry of
/// the cache before has the hash `h` with cursor 0, and the write cursor
/// before (the cursor `s` would get) is not 0 as a `u32`, as it is once the
/// buffer holds its size header.
pub proof fn lemma_add_entry_idempotent_u32(
    c0: Seq<CachedIndex<u32>>,
    b0: ByteBuffer,
    s: Seq<char>,
    h: u64,
    r1: u32,
    c1: Seq<CachedIndex<u32>>,
    b1: ByteBuffer,
    s2: Seq<char>,
    r2: Option<u32>,
    c2: Seq<CachedIndex<u32>>,
    b2: ByteBuffer,
)
    requires
        spec_add_entry_result(c0, b0, s, h, byte_buffer_cursors(b0).0 as u32, s.len() == 0, 0u32, Some(r1), c1, b1),
        spec_normalize_entry(s2) == spec_normalize_entry(s),
        spec_entry_bytes(s).len() > 0,
        forall|i: int| 0 <= i < c0.len() && (#[trigger] c0[i]).hash == h ==> c0[i].cursor != 0,
        byte_buffer_cursors(b0).0 as u32 != 0,
        spec_add_entry_result(c1, b1, s2, h, byte_buffer_cursors(b1).0 as u32, s2.len() == 0, 0u32, r2, c2, b2),
    ensures
        r1 != 0,
        r2 == Some(r1),
        c2 == c1,
        b2 == b1,
{
    lemma_add_entry_idempotent(
        c0,
        b0,
        s,
        h,
        byte_buffer_cursors(b0).0 as u32,
        s.len() == 0,
        0u32,
        r1,
        c1,
        b1,
        s2,
        byte_buffer_cursors(b1).0 as u32,
        s2.len() == 0,
        r2,
        c2,
        b2,
    );
}

/// The same law for `add_entry_if_missing` and its 16-bit cursors: given the
/// same hash, a second entry that normalizes like the first returns the
/// cursor the first got (not 0) and changes nothing, under the same
/// conditions as for `lemma_add_entry_idempotent_u32`.
pub proof fn lemma_add_entry_idempotent_u16(
    c0: Seq<CachedIndex<u16>>,
    b0: ByteBuffer,
    s: Seq<char>,
    h: u64,
    r1: u16,
    c1: Seq<CachedIndex<u16>>,
    b1: ByteBuffer,
    s2: Seq<char>,
    r2: Option<u16>,
    c2: Seq<CachedIndex<u16>>,
    b2: ByteBuffer,
)
    requires
        spec_add_entry_result(c0, b0, s, h, byte_buffer_cursors(b0).0 as u16, false, 0u16, Some(r1), c1, b1),
        spec_normalize_entry(s2) == spec_normalize_entry(s),
        spec_entry_bytes(s).len() > 0,
        forall|i: int| 0 <= i < c0.len() && (#[trigger] c0[i]).hash == h ==> c0[i].cursor != 0,
        byte_buffer_cursors(b0).0 as u16 != 0,
        spec_add_entry_result(c1, b1, s2, h, byte_buffer_cursors(b1).0 as u16, false, 0u16, r2, c2, b2),
    ensures
        r1 != 0,
        r2 == Some(r1),
        c2 == c1,
        b2 == b1,
{
    lemma_add_entry_idempotent(
        c0,
        b0,
        s,
        h,
        byte_buffer_cursors(b0).0 as u16,
        false,
        0u16,
        r1,
        c1,
        b1,
        s2,
        byte_buffer_cursors(b1).0 as u16,
        false,
        r2,
        c2,
        b2,
    );
}

} // verus!
