use vstd::prelude::*;

use bytebuffer::ByteBuffer;

use crate::parse_util::views;
use crate::text::str_eq;
use crate::vec_cache::{
    buffer_after_write, buffer_read_start, buffer_write_start, byte_buffer_bytes, byte_buffer_cursors,
    spec_add_entry_result, spec_add_entry_u32, add_entry_with_hash_u32, spec_cursor_u32, spec_entry_bytes, spec_interned, spec_interned_bytes,
    try_add_entry_if_missing_u32, Buffer_Context, CachedIndex, VectorCache,
};

verus! {

broadcast use vstd::string::group_string_axioms;

/// Index of each stat field in the stats of a stat block.
pub const STAT_IDX_IN_ARR: usize = 0;

pub const BAB_IDX_IN_ARR: usize = 1;

pub const BMC_IDX_IN_ARR: usize = 2;

pub const DMC_IDX_IN_ARR: usize = 3;

pub const TALENTS_IDX_IN_ARR: usize = 4;

pub const SKILLS_IDX_IN_ARR: usize = 5;

pub const LANG_IDX_IN_ARR: usize = 6;

pub const RACE_IDX_IN_ARR: usize = 7;

pub const SPEC_IDX_IN_ARR: usize = 8;

/// Bytes a talent entry takes in the talent module.
pub const TALENT_ENTRY_SIZE_IN_BYTES: usize = 28;

/// A creature of the compendium: each field the cursor of an interned text or a packed value.
#[derive(Debug)]
pub struct Mob_Entry {
    pub origin: u32,
    pub short_desc: u32,
    pub ac: u32,
    pub pf: u32,
    pub st: u32,
    pub rd: u32,
    pub ri: u32,
    pub def_cap: u32,
    pub melee: u32,
    pub ranged: u32,
    pub spec_atk: u32,
    pub psych: u32,
    pub magics: u32,
    pub spells: u32,
    pub skills: [u32; 24],
    pub racial_mods: u32,
    pub spec_qual: u32,
    pub specials: [u32; 24],
    pub org: u32,
    pub treasure: u32,
    pub desc: u32,
    pub source: u32,
    pub name: u16,
    pub gs: u16,
    pub pe: u16,
    pub align: u16,
    pub typ: u16,
    pub sub: [u16; 8],
    pub arch: [u16; 4],
    pub size: u16,
    pub init: u16,
    pub senses: [u16; 8],
    pub perception: u16,
    pub aura: u16,
    pub immunities: [u16; 16],
    pub resistances: [u16; 16],
    pub weaknesses: [u16; 16],
    pub speed: u16,
    pub space: u16,
    pub reach: u16,
    pub str: u16,
    pub dex: u16,
    pub con: u16,
    pub int: u16,
    pub wis: u16,
    pub cha: u16,
    pub bab: u16,
    pub cmb: u16,
    pub cmd: u16,
    pub talents: [u16; 24],
    pub lang: [u16; 24],
    pub env: u16,
}

/// A non-player character of the compendium: each field the cursor of an interned text or a packed value.
#[derive(Debug)]
pub struct NPC_Entry {
    pub origin: u32,
    pub short_desc: u32,
    pub ac: u32,
    pub pf: u32,
    pub st: u32,
    pub rd: u32,
    pub ri: u32,
    pub def_cap: u32,
    pub melee: u32,
    pub ranged: u32,
    pub spec_atk: u32,
    pub psych: u32,
    pub magics: u32,
    pub spells: u32,
    pub tactics: [u32; 3],
    pub skills: [u32; 24],
    pub racial_mods: u32,
    pub spec_qual: u32,
    pub given_equip: u32,
    pub properties: u32,
    pub boons: u32,
    pub specials: [u32; 24],
    pub desc: u32,
    pub source: u32,
    pub name: u16,
    pub gs: u16,
    pub pe: u16,
    pub align: u16,
    pub typ: u16,
    pub sub: [u16; 8],
    pub arch: [u16; 4],
    pub size: u16,
    pub init: u16,
    pub senses: [u16; 8],
    pub perception: u16,
    pub aura: u16,
    pub immunities: [u16; 16],
    pub resistances: [u16; 16],
    pub weaknesses: [u16; 16],
    pub speed: u16,
    pub space: u16,
    pub reach: u16,
    pub str: u16,
    pub dex: u16,
    pub con: u16,
    pub int: u16,
    pub wis: u16,
    pub cha: u16,
    pub bab: u16,
    pub cmb: u16,
    pub cmd: u16,
    pub talents: [u16; 24],
    pub lang: [u16; 24],
}

/// A talent of the compendium: the cursor of each of its interned texts.
#[derive(Debug)]
pub struct Talent_Entry {
    pub name: u32,
    pub desc: u32,
    pub pre: u32,
    pub gain: u32,
    pub norm: u32,
    pub spec: u32,
    pub source: u32,
}


/// The texts of a talent's page that its entry is made of.
pub struct Talent_Page {
    pub name: String,
    pub desc: String,
    pub pre: String,
    pub gain: String,
    pub norm: String,
    pub spec: String,
    pub source: String,
}

/// The texts of a talent page, in the order its entry interns them.
pub open spec fn talent_page_texts(p: Talent_Page) -> Seq<Seq<char>> {
    seq![p.name@, p.desc@, p.pre@, p.gain@, p.norm@, p.spec@, p.source@]
}

/// Interning `entry` among the strings with cache `c0` and buffer `b0` gives
/// `r` and leaves the cache `c1` and the buffer `b1` (see
/// `spec_add_entry_result`).
pub open spec fn interning_step(
    c0: Seq<CachedIndex<u32>>,
    b0: ByteBuffer,
    entry: Seq<char>,
    r: Option<u32>,
    c1: Seq<CachedIndex<u32>>,
    b1: ByteBuffer,
) -> bool {
    spec_add_entry_u32(c0, b0, entry, r, c1, b1)
}

/// Interning `entries` in turn, each succeeding, goes through the caches
/// `cs` and buffers `bs` and gives `cursors`: entry `i` is interned from
/// `cs[i]`, `bs[i]` to `cs[i + 1]`, `bs[i + 1]` with cursor `cursors[i]`.
pub open spec fn interning_chain(
    entries: Seq<Seq<char>>,
    cs: Seq<Seq<CachedIndex<u32>>>,
    bs: Seq<ByteBuffer>,
    cursors: Seq<u32>,
) -> bool {
    &&& cs.len() == entries.len() + 1
    &&& bs.len() == entries.len() + 1
    &&& cursors.len() == entries.len()
    &&& forall|i: int|
        0 <= i < entries.len() ==> #[trigger] interning_step(cs[i], bs[i], entries[i], Some(cursors[i]), cs[i + 1], bs[i + 1])
}

/// Interning `entries` in turn from the cache `c0` and buffer `b0`, stopping
/// at the first that fails: `cursors` are those of the entries interned,
/// `failed` tells whether one failed after them, and `c1`, `b1` are left.
pub open spec fn interning_run(
    entries: Seq<Seq<char>>,
    c0: Seq<CachedIndex<u32>>,
    b0: ByteBuffer,
    cursors: Seq<u32>,
    failed: bool,
    c1: Seq<CachedIndex<u32>>,
    b1: ByteBuffer,
) -> bool {
    let k = cursors.len() as int;
    exists|cs: Seq<Seq<CachedIndex<u32>>>, bs: Seq<ByteBuffer>|
        #![trigger interning_chain(entries.take(k), cs, bs, cursors)]
        interning_chain(entries.take(k), cs, bs, cursors) && cs[0] == c0 && bs[0] == b0 && if failed {
            k < entries.len() && interning_step(cs.last(), bs.last(), entries[k], None, c1, b1)
        } else {
            k == entries.len() && cs.last() == c1 && bs.last() == b1
        }
}

/// The room the entries from `i` on take in the buffer: two length bytes and
/// the bytes of each.
pub open spec fn interning_room(entries: Seq<Seq<char>>, i: int) -> nat
    decreases entries.len() - i,
{
    if i < 0 || i >= entries.len() {
        0
    } else {
        2 + spec_entry_bytes(entries[i]).len() + interning_room(entries, i + 1)
    }
}

/// Interning the texts of `page` cannot fail: the buffer holds its four-byte
/// header and has room for all of them, and its read cursor stays short of
/// `usize::MAX` once a partly read byte is skipped.
pub open spec fn talent_texts_fit(buf: ByteBuffer, page: Talent_Page) -> bool {
    &&& byte_buffer_bytes(buf).len() >= 4
    &&& buffer_read_start(buf) < usize::MAX
    &&& buffer_write_start(buf) + interning_room(talent_page_texts(page), 0) <= usize::MAX
}

/// The fields of a cache and a buffer set that making a talent entry leaves
/// alone.
pub open spec fn strings_frame(c0: VectorCache, c1: VectorCache, b0: Buffer_Context, b1: Buffer_Context) -> bool {
    &&& c1.numbers@ == c0.numbers@
    &&& c1.names@ == c0.names@
    &&& c1.types@ == c0.types@
    &&& c1.subtypes@ == c0.subtypes@
    &&& c1.archetypes@ == c0.archetypes@
    &&& c1.sizes@ == c0.sizes@
    &&& c1.senses@ == c0.senses@
    &&& c1.auras@ == c0.auras@
    &&& c1.immunities@ == c0.immunities@
    &&& c1.resistances@ == c0.resistances@
    &&& c1.weaknesses@ == c0.weaknesses@
    &&& c1.special@ == c0.special@
    &&& c1.spells@ == c0.spells@
    &&& c1.talents@ == c0.talents@
    &&& c1.skills@ == c0.skills@
    &&& c1.languages@ == c0.languages@
    &&& c1.specials@ == c0.specials@
    &&& c1.environment@ == c0.environment@
    &&& c1.talentsMod@ == c0.talentsMod@
    &&& b1.number == b0.number
    &&& b1.name == b0.name
    &&& b1.types == b0.types
    &&& b1.subtypes == b0.subtypes
    &&& b1.archetypes == b0.archetypes
    &&& b1.sizes == b0.sizes
    &&& b1.senses == b0.senses
    &&& b1.auras == b0.auras
    &&& b1.immunities == b0.immunities
    &&& b1.resistances == b0.resistances
    &&& b1.weaknesses == b0.weaknesses
    &&& b1.special_attack == b0.special_attack
    &&& b1.spells == b0.spells
    &&& b1.talents == b0.talents
    &&& b1.skills == b0.skills
    &&& b1.languages == b0.languages
    &&& b1.specials == b0.specials
    &&& b1.environment == b0.environment
}

/// The entry of a talent page for the cursors of its texts.
pub open spec fn talent_entry_of(cursors: Seq<u32>) -> Talent_Entry {
    Talent_Entry {
        name: cursors[0],
        desc: cursors[1],
        pre: cursors[2],
        gain: cursors[3],
        norm: cursors[4],
        spec: cursors[5],
        source: cursors[6],
    }
}

/// What making the entry of `page` gives from the strings cache `c0` and
/// buffer `b0`, leaving `c1` and `b1`: for a page named `[ERROR]` an entry of
/// zeros and nothing interned; otherwise the page's texts are interned in
/// turn (see `interning_run`) and the entry holds their cursors; `None` where
/// one cannot be interned.
pub open spec fn talent_entry_result(
    page: Talent_Page,
    c0: Seq<CachedIndex<u32>>,
    b0: ByteBuffer,
    r: Option<Talent_Entry>,
    c1: Seq<CachedIndex<u32>>,
    b1: ByteBuffer,
) -> bool {
    if page.name@ == "[ERROR]"@ {
        r == Some(talent_entry_of(seq![0u32, 0u32, 0u32, 0u32, 0u32, 0u32, 0u32])) && c1 == c0 && b1 == b0
    } else {
        exists|cursors: Seq<u32>, failed: bool|
            #![trigger interning_run(talent_page_texts(page), c0, b0, cursors, failed, c1, b1)]
            interning_run(talent_page_texts(page), c0, b0, cursors, failed, c1, b1) && if failed {
                r is None
            } else {
                r == Some(talent_entry_of(cursors))
            }
    }
}

proof fn lemma_after_write_len(data: Seq<u8>, start: nat, bytes: Seq<u8>)
    ensures
        buffer_after_write(data, start, bytes).len() >= data.len(),
{
}

/// After interning, the buffer is no shorter and its write cursor is past the
/// entry.
proof fn lemma_interned_grows(b0: ByteBuffer, data: Seq<u8>, b1: ByteBuffer)
    requires
        spec_interned(b0, data, b1),
    ensures
        byte_buffer_bytes(b1).len() >= byte_buffer_bytes(b0).len(),
        buffer_write_start(b1) == buffer_write_start(b0) + 2 + data.len(),
        buffer_read_start(b1) == buffer_read_start(b0),
{
    let start = buffer_write_start(b0);
    let old = byte_buffer_bytes(b0);
    let n = data.len() as u16;
    let size = (crate::vec_cache::spec_interned_len(old, start, data) - 4) as u32;
    let (lb, sb) = if byte_buffer_bytes(b1) == spec_interned_bytes(
        old,
        start,
        data,
        crate::vec_cache::le_bytes_u16(n),
        crate::vec_cache::le_bytes_u32(size),
    ) {
        (crate::vec_cache::le_bytes_u16(n), crate::vec_cache::le_bytes_u32(size))
    } else {
        (crate::vec_cache::be_bytes_u16(n), crate::vec_cache::be_bytes_u32(size))
    };
    let w1 = buffer_after_write(old, start, lb);
    let w2 = buffer_after_write(w1, start + 2, data);
    lemma_after_write_len(old, start, lb);
    lemma_after_write_len(w1, start + 2, data);
    lemma_after_write_len(w2, 0, sb);
}

/// Intern the texts of `page` in turn among the strings.
fn intern_talent_texts(cache: &mut VectorCache, bufs: &mut Buffer_Context, page: &Talent_Page) -> (r: Option<
    Talent_Entry,
>)
    requires
        !(page.name@ == "[ERROR]"@),
    ensures
        talent_entry_result(*page, old(cache).strings@, old(bufs).string, r, final(cache).strings@, final(bufs).string),
        strings_frame(*old(cache), *final(cache), *old(bufs), *final(bufs)),
        talent_texts_fit(old(bufs).string, *page) ==> r is Some,
{
    let texts: Vec<&str> = vec![
        page.name.as_str(),
        page.desc.as_str(),
        page.pre.as_str(),
        page.gain.as_str(),
        page.norm.as_str(),
        page.spec.as_str(),
        page.source.as_str(),
    ];
    let ghost entries = talent_page_texts(*page);
    assert(views(texts@) =~= entries);
    let ghost c0 = cache.strings@;
    let ghost b0 = bufs.string;
    let ghost fits = talent_texts_fit(b0, *page);
    let ghost mut cs: Seq<Seq<CachedIndex<u32>>> = seq![c0];
    let ghost mut bs: Seq<ByteBuffer> = seq![b0];
    let mut cursors: Vec<u32> = Vec::new();
    let mut i: usize = 0;
    assert(entries.take(0) =~= Seq::<Seq<char>>::empty());
    while i < 7
        invariant
            i <= 7,
            texts@.len() == 7,
            views(texts@) == entries,
            entries == talent_page_texts(*page),
            entries.len() == 7,
            c0 == old(cache).strings@,
            b0 == old(bufs).string,
            fits == talent_texts_fit(b0, *page),
            !(page.name@ == "[ERROR]"@),
            cursors@.len() == i,
            interning_chain(entries.take(i as int), cs, bs, cursors@),
            cs[0] == c0,
            bs[0] == b0,
            cs.last() == cache.strings@,
            bs.last() == bufs.string,
            strings_frame(*old(cache), *cache, *old(bufs), *bufs),
            fits ==> byte_buffer_bytes(bufs.string).len() >= 4,
            fits ==> buffer_read_start(bufs.string) < usize::MAX,
            fits ==> buffer_write_start(bufs.string) + interning_room(entries, i as int) <= usize::MAX,
        decreases 7 - i,
    {
        let ghost c_before = cache.strings@;
        let ghost b_before = bufs.string;
        let r = try_add_entry_if_missing_u32(&mut cache.strings, &mut bufs.string, texts[i]);
        assert(texts@[i as int]@ == entries[i as int]);
        proof {
            assert(interning_step(c_before, b_before, entries[i as int], r, cache.strings@, bufs.string));
        }
        match r {
            None => {
                proof {
                    assert(interning_run(entries, c0, b0, cursors@, true, cache.strings@, bufs.string));
                    if fits {
                        let data = spec_entry_bytes(entries[i as int]);
                        assert(interning_room(entries, i as int) >= 2 + data.len());
                    }
                }
                return None;
            },
            Some(c) => {
                let ghost old_cursors = cursors@;
                cursors.push(c);
                proof {
                    let data = spec_entry_bytes(entries[i as int]);
                    let h = choose|h: u64|
                        #[trigger] add_entry_with_hash_u32(
                            c_before,
                            b_before,
                            entries[i as int],
                            h,
                            Some(c),
                            cache.strings@,
                            bufs.string,
                        );
                    if fits && data.len() > 0 && entries[i as int].len() != 0 && spec_cursor_u32(c_before, h)
                        == 0 {
                        lemma_interned_grows(b_before, data, bufs.string);
                    }
                    let ncs = cs.push(cache.strings@);
                    let nbs = bs.push(bufs.string);
                    let ne = entries.take(i + 1);
                    assert forall|j: int| 0 <= j < ne.len() implies #[trigger] interning_step(
                        ncs[j],
                        nbs[j],
                        ne[j],
                        Some(cursors@[j]),
                        ncs[j + 1],
                        nbs[j + 1],
                    ) by {
                        if j < i {
                            assert(ncs[j] == cs[j] && ncs[j + 1] == cs[j + 1] && nbs[j] == bs[j] && nbs[j + 1] == bs[j + 1]);
                            assert(ne[j] == entries.take(i as int)[j] && cursors@[j] == old_cursors[j]);
                        } else {
                            assert(ncs[j] == c_before && nbs[j] == b_before && ne[j] == entries[i as int]);
                        }
                    }
                    cs = ncs;
                    bs = nbs;
                }
            },
        }
        i = i + 1;
    }
    assert(entries.take(7) =~= entries);
    let entry = Talent_Entry {
        name: cursors[0],
        desc: cursors[1],
        pre: cursors[2],
        gain: cursors[3],
        norm: cursors[4],
        spec: cursors[5],
        source: cursors[6],
    };
    proof {
        assert(interning_run(entries, c0, b0, cursors@, false, cache.strings@, bufs.string));
    }
    Some(entry)
}

/// The entry of a talent page (see `talent_entry_result`), or `None` where a
/// text cannot be interned.
pub fn try_create_talent_entry(
    cache: &mut VectorCache,
    bufs: &mut Buffer_Context,
    page: Talent_Page,
    file_idx: usize,
) -> (r: Option<Talent_Entry>)
    ensures
        talent_entry_result(page, old(cache).strings@, old(bufs).string, r, final(cache).strings@, final(bufs).string),
        strings_frame(*old(cache), *final(cache), *old(bufs), *final(bufs)),
        talent_texts_fit(old(bufs).string, page) ==> r is Some,
{
    proof {
        reveal_strlit("[ERROR]");
    }
    if str_eq(page.name.as_str(), "[ERROR]") {
        return Some(Talent_Entry { name: 0, desc: 0, pre: 0, gain: 0, norm: 0, spec: 0, source: 0 });
    }
    intern_talent_texts(cache, bufs, &page)
}

/// The entry of a talent page: the cursors of its texts interned among the
/// strings, or zeros for a page named `[ERROR]` (see `talent_entry_result`).
pub fn create_talent_entry(
    cache: &mut VectorCache,
    bufs: &mut Buffer_Context,
    page: Talent_Page,
    file_idx: usize,
) -> (r: Talent_Entry)
    requires
        page.name@ == "[ERROR]"@ || talent_texts_fit(old(bufs).string, page),
    ensures
        talent_entry_result(
            page,
            old(cache).strings@,
            old(bufs).string,
            Some(r),
            final(cache).strings@,
            final(bufs).string,
        ),
        strings_frame(*old(cache), *final(cache), *old(bufs), *final(bufs)),
{
    match try_create_talent_entry(cache, bufs, page, file_idx) {
        Some(e) => e,
        None => Talent_Entry { name: 0, desc: 0, pre: 0, gain: 0, norm: 0, spec: 0, source: 0 },
    }
}

// ---------------------------------------------------------------------------
// Layout of the entries in the compendium file
// ---------------------------------------------------------------------------

fn append_u32(v: &mut Vec<u32>, a: &[u32])
    ensures
        final(v)@ == old(v)@ + a@,
{
    let mut i: usize = 0;
    while i < a.len()
        invariant
            i <= a@.len(),
            v@ == old(v)@ + a@.subrange(0, i as int),
        decreases a.len() - i,
    {
        v.push(a[i]);
        i = i + 1;
        assert(a@.subrange(0, i as int) =~= a@.subrange(0, i - 1).push(a@[i - 1]));
    }
    assert(a@.subrange(0, a@.len() as int) =~= a@);
}

fn append_u16(v: &mut Vec<u16>, a: &[u16])
    ensures
        final(v)@ == old(v)@ + a@,
{
    let mut i: usize = 0;
    while i < a.len()
        invariant
            i <= a@.len(),
            v@ == old(v)@ + a@.subrange(0, i as int),
        decreases a.len() - i,
    {
        v.push(a[i]);
        i = i + 1;
        assert(a@.subrange(0, i as int) =~= a@.subrange(0, i - 1).push(a@[i - 1]));
    }
    assert(a@.subrange(0, a@.len() as int) =~= a@);
}

/// The 32-bit words of a creature entry, in the order the compendium file holds them.
pub open spec fn spec_mob_entry_u32_words(e: Mob_Entry) -> Seq<u32> {
    seq![e.origin, e.short_desc, e.ac, e.pf, e.st, e.rd, e.ri, e.def_cap, e.melee, e.ranged, e.spec_atk, e.psych, e.magics, e.spells]
        + e.skills@
        + seq![e.racial_mods, e.spec_qual]
        + e.specials@
        + seq![e.org, e.treasure, e.desc, e.source]
}

/// The 32-bit words of a creature entry, in the order the compendium file holds them.
pub fn mob_entry_u32_words(e: &Mob_Entry) -> (r: Vec<u32>)
    ensures
        r@ == spec_mob_entry_u32_words(*e),
{
    let mut v: Vec<u32> = Vec::new();
    v.push(e.origin);
    v.push(e.short_desc);
    v.push(e.ac);
    v.push(e.pf);
    v.push(e.st);
    v.push(e.rd);
    v.push(e.ri);
    v.push(e.def_cap);
    v.push(e.melee);
    v.push(e.ranged);
    v.push(e.spec_atk);
    v.push(e.psych);
    v.push(e.magics);
    v.push(e.spells);
    append_u32(&mut v, e.skills.as_slice());
    v.push(e.racial_mods);
    v.push(e.spec_qual);
    append_u32(&mut v, e.specials.as_slice());
    v.push(e.org);
    v.push(e.treasure);
    v.push(e.desc);
    v.push(e.source);
    assert(v@ =~= spec_mob_entry_u32_words(*e));
    v
}

/// The 16-bit words of a creature entry, in the order the compendium file holds them after its 32-bit words, ending with four bytes of padding.
pub open spec fn spec_mob_entry_u16_words(e: Mob_Entry) -> Seq<u16> {
    seq![e.name, e.gs, e.pe, e.align, e.typ]
        + e.sub@
        + e.arch@
        + seq![e.size, e.init]
        + e.senses@
        + seq![e.perception, e.aura]
        + e.immunities@
        + e.resistances@
        + e.weaknesses@
        + seq![e.speed, e.space, e.reach, e.str, e.dex, e.con, e.int, e.wis, e.cha, e.bab, e.cmb, e.cmd]
        + e.talents@
        + e.lang@
        + seq![e.env]
        + seq![0, 0]
}

/// The 16-bit words of a creature entry, in the order the compendium file holds them after its 32-bit words, ending with four bytes of padding.
pub fn mob_entry_u16_words(e: &Mob_Entry) -> (r: Vec<u16>)
    ensures
        r@ == spec_mob_entry_u16_words(*e),
{
    let mut v: Vec<u16> = Vec::new();
    v.push(e.name);
    v.push(e.gs);
    v.push(e.pe);
    v.push(e.align);
    v.push(e.typ);
    append_u16(&mut v, e.sub.as_slice());
    append_u16(&mut v, e.arch.as_slice());
    v.push(e.size);
    v.push(e.init);
    append_u16(&mut v, e.senses.as_slice());
    v.push(e.perception);
    v.push(e.aura);
    append_u16(&mut v, e.immunities.as_slice());
    append_u16(&mut v, e.resistances.as_slice());
    append_u16(&mut v, e.weaknesses.as_slice());
    v.push(e.speed);
    v.push(e.space);
    v.push(e.reach);
    v.push(e.str);
    v.push(e.dex);
    v.push(e.con);
    v.push(e.int);
    v.push(e.wis);
    v.push(e.cha);
    v.push(e.bab);
    v.push(e.cmb);
    v.push(e.cmd);
    append_u16(&mut v, e.talents.as_slice());
    append_u16(&mut v, e.lang.as_slice());
    v.push(e.env);
    v.push(0);
    v.push(0);
    assert(v@ =~= spec_mob_entry_u16_words(*e));
    v
}

/// The 32-bit words of a character entry, in the order the compendium file holds them.
pub open spec fn spec_npc_entry_u32_words(e: NPC_Entry) -> Seq<u32> {
    seq![e.origin, e.short_desc, e.ac, e.pf, e.st, e.rd, e.ri, e.def_cap, e.melee, e.ranged, e.spec_atk, e.psych, e.magics, e.spells]
        + e.tactics@
        + e.skills@
        + seq![e.racial_mods, e.spec_qual, e.given_equip, e.properties, e.boons]
        + e.specials@
        + seq![e.desc, e.source]
}

/// The 32-bit words of a character entry, in the order the compendium file holds them.
pub fn npc_entry_u32_words(e: &NPC_Entry) -> (r: Vec<u32>)
    ensures
        r@ == spec_npc_entry_u32_words(*e),
{
    let mut v: Vec<u32> = Vec::new();
    v.push(e.origin);
    v.push(e.short_desc);
    v.push(e.ac);
    v.push(e.pf);
    v.push(e.st);
    v.push(e.rd);
    v.push(e.ri);
    v.push(e.def_cap);
    v.push(e.melee);
    v.push(e.ranged);
    v.push(e.spec_atk);
    v.push(e.psych);
    v.push(e.magics);
    v.push(e.spells);
    append_u32(&mut v, e.tactics.as_slice());
    append_u32(&mut v, e.skills.as_slice());
    v.push(e.racial_mods);
    v.push(e.spec_qual);
    v.push(e.given_equip);
    v.push(e.properties);
    v.push(e.boons);
    append_u32(&mut v, e.specials.as_slice());
    v.push(e.desc);
    v.push(e.source);
    assert(v@ =~= spec_npc_entry_u32_words(*e));
    v
}

/// The 16-bit words of a character entry, in the order the compendium file holds them after its 32-bit words, ending with two bytes of padding.
pub open spec fn spec_npc_entry_u16_words(e: NPC_Entry) -> Seq<u16> {
    seq![e.name, e.gs, e.pe, e.align, e.typ]
        + e.sub@
        + e.arch@
        + seq![e.size, e.init]
        + e.senses@
        + seq![e.perception, e.aura]
        + e.immunities@
        + e.resistances@
        + e.weaknesses@
        + seq![e.speed, e.space, e.reach, e.str, e.dex, e.con, e.int, e.wis, e.cha, e.bab, e.cmb, e.cmd]
        + e.talents@
        + e.lang@
        + seq![0]
}

/// The 16-bit words of a character entry, in the order the compendium file holds them after its 32-bit words, ending with two bytes of padding.
pub fn npc_entry_u16_words(e: &NPC_Entry) -> (r: Vec<u16>)
    ensures
        r@ == spec_npc_entry_u16_words(*e),
{
    let mut v: Vec<u16> = Vec::new();
    v.push(e.name);
    v.push(e.gs);
    v.push(e.pe);
    v.push(e.align);
    v.push(e.typ);
    append_u16(&mut v, e.sub.as_slice());
    append_u16(&mut v, e.arch.as_slice());
    v.push(e.size);
    v.push(e.init);
    append_u16(&mut v, e.senses.as_slice());
    v.push(e.perception);
    v.push(e.aura);
    append_u16(&mut v, e.immunities.as_slice());
    append_u16(&mut v, e.resistances.as_slice());
    append_u16(&mut v, e.weaknesses.as_slice());
    v.push(e.speed);
    v.push(e.space);
    v.push(e.reach);
    v.push(e.str);
    v.push(e.dex);
    v.push(e.con);
    v.push(e.int);
    v.push(e.wis);
    v.push(e.cha);
    v.push(e.bab);
    v.push(e.cmb);
    v.push(e.cmd);
    append_u16(&mut v, e.talents.as_slice());
    append_u16(&mut v, e.lang.as_slice());
    v.push(0);
    assert(v@ =~= spec_npc_entry_u16_words(*e));
    v
}

/// The words of a talent entry, in the order the compendium file holds them.
pub open spec fn spec_talent_entry_words(e: Talent_Entry) -> Seq<u32> {
    seq![e.name, e.desc, e.pre, e.gain, e.norm, e.spec, e.source]
}

/// The words of a talent entry, in the order the compendium file holds them.
pub fn talent_entry_words(e: &Talent_Entry) -> (r: Vec<u32>)
    ensures
        r@ == spec_talent_entry_words(*e),
{
    let mut v: Vec<u32> = Vec::new();
    v.push(e.name);
    v.push(e.desc);
    v.push(e.pre);
    v.push(e.gain);
    v.push(e.norm);
    v.push(e.spec);
    v.push(e.source);
    assert(v@ =~= spec_talent_entry_words(*e));
    v
}

} // verus!
