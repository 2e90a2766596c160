use bytebuffer::ByteBuffer;
use golarion_compendium::vec_cache::{
    add_entry_if_missing, add_entry_if_missing_dbg, add_entry_if_missing_u32, get_cursor_u16, get_cursor_u32,
    pack_value_u16, pack_value_u32, total_buffers_size, try_add_entry_if_missing, try_total_buffers_size, Buffer_Context, CachedIndex,
    VectorCache, INTERN_BIT_U16, PAREN_BIT_U16, PAREN_BIT_U32, SENTINEL_VALUE_I16, SENTINEL_VALUE_I32,
};

fn fresh() -> ByteBuffer {
    ByteBuffer::from_bytes(&[0u8; 4])
}

fn context() -> Buffer_Context {
    Buffer_Context {
        string: fresh(),
        number: fresh(),
        name: fresh(),
        types: fresh(),
        subtypes: fresh(),
        archetypes: fresh(),
        sizes: fresh(),
        senses: fresh(),
        auras: fresh(),
        immunities: fresh(),
        resistances: fresh(),
        weaknesses: fresh(),
        special_attack: fresh(),
        spells: fresh(),
        talents: fresh(),
        skills: fresh(),
        languages: fresh(),
        specials: fresh(),
        environment: fresh(),
    }
}

fn expected(entries: &[&str]) -> Vec<u8> {
    let mut body: Vec<u8> = Vec::new();
    for e in entries {
        body.extend_from_slice(&(e.len() as u16).to_ne_bytes());
        body.extend_from_slice(e.as_bytes());
    }
    let mut out = (body.len() as u32).to_ne_bytes().to_vec();
    out.extend(body);
    out
}

#[test]
fn interning_writes_length_and_bytes_once() {
    let mut cache: Vec<CachedIndex<u16>> = Vec::new();
    let mut buf = fresh();
    assert_eq!(add_entry_if_missing(&mut cache, &mut buf, "abc"), 4);
    assert_eq!(buf.to_bytes(), expected(&["abc"]));
    assert_eq!(add_entry_if_missing(&mut cache, &mut buf, "abc"), 4);
    assert_eq!(cache.len(), 1);
    assert_eq!(add_entry_if_missing(&mut cache, &mut buf, "de"), 9);
    assert_eq!(buf.to_bytes(), expected(&["abc", "de"]));
    assert_eq!(add_entry_if_missing(&mut cache, &mut buf, "abc"), 4);
    assert_eq!(cache.len(), 2);
}

#[test]
fn empty_entries_are_zero() {
    let mut cache: Vec<CachedIndex<u16>> = Vec::new();
    let mut buf = fresh();
    assert_eq!(add_entry_if_missing(&mut cache, &mut buf, ""), 0);
    assert_eq!(add_entry_if_missing(&mut cache, &mut buf, "\u{200b}\u{2800}"), 0);
    assert_eq!(buf.to_bytes(), vec![0u8; 4]);
    let mut cache32: Vec<CachedIndex<u32>> = Vec::new();
    assert_eq!(add_entry_if_missing_u32(&mut cache32, &mut buf, ""), 0);
    assert!(cache.is_empty() && cache32.is_empty());
}

#[test]
fn typographic_characters_are_normalized() {
    let mut cache: Vec<CachedIndex<u16>> = Vec::new();
    let mut buf = fresh();
    let a = add_entry_if_missing(&mut cache, &mut buf, "a\u{2013}b \u{201c}c\u{201d}\u{2026} \u{fb01}");
    assert_eq!(buf.to_bytes(), expected(&["a-b \"c\"... fi"]));
    assert_eq!(add_entry_if_missing(&mut cache, &mut buf, "a-b \"c\"... fi"), a);
}

#[test]
fn u32_cursors_and_dbg_variant() {
    let mut cache: Vec<CachedIndex<u32>> = Vec::new();
    let mut buf = fresh();
    assert_eq!(add_entry_if_missing_u32(&mut cache, &mut buf, "Goblin"), 4);
    assert_eq!(add_entry_if_missing_u32(&mut cache, &mut buf, "Orco"), 12);
    assert_eq!(get_cursor_u32(&cache, "Orco".as_bytes()).1, 12);
    assert_eq!(get_cursor_u32(&cache, "Troll".as_bytes()).1, 0);
    let mut cache16: Vec<CachedIndex<u16>> = Vec::new();
    let mut buf16 = fresh();
    assert_eq!(add_entry_if_missing_dbg(&mut cache16, &mut buf16, "x y"), 4);
    assert_eq!(get_cursor_u16(&cache16, "x y".as_bytes()).1, 4);
    assert_eq!(try_add_entry_if_missing(&mut cache16, &mut buf16, "x y"), Some(4));
}

#[test]
fn interning_into_a_too_short_buffer_is_refused() {
    let mut cache: Vec<CachedIndex<u16>> = Vec::new();
    let mut buf = ByteBuffer::new();
    assert_eq!(try_add_entry_if_missing(&mut cache, &mut buf, "a"), None);
}

#[test]
fn packed_values() {
    assert_eq!(pack_value_u32(5, 3, 7, 0xFF, PAREN_BIT_U32), 0x4000_0185);
    assert_eq!(pack_value_u32(5, SENTINEL_VALUE_I32, 7, 0xFF, 0), (0x81 << 7) | 5);
    assert_eq!(pack_value_u16(2, 1, 4, 0xFF, PAREN_BIT_U16), 0x4012);
    assert_eq!(pack_value_u16(2, SENTINEL_VALUE_I16, 4, 0xFF, INTERN_BIT_U16), 0x8000 | (0x81 << 4) | 2);
}

#[test]
fn buffer_sizes_add_up() {
    let mut ctx = context();
    assert_eq!(total_buffers_size(&ctx), 19 * 4);
    let mut cache: Vec<CachedIndex<u16>> = Vec::new();
    add_entry_if_missing(&mut cache, &mut ctx.types, "Drago");
    assert_eq!(total_buffers_size(&ctx), 19 * 4 + 7);
    let vc = VectorCache::new(16);
    assert!(vc.strings.is_empty() && vc.talentsMod.is_empty());
}

#[test]
fn buffer_sizes_checked() {
    let ctx = context();
    assert_eq!(try_total_buffers_size(&ctx), Some(19 * 4));
}

#[test]
fn interning_again_after_normalizing_changes_nothing() {
    let mut cache: Vec<CachedIndex<u32>> = Vec::new();
    let mut buf = fresh();
    let r1 = add_entry_if_missing_u32(&mut cache, &mut buf, "l\u{2019}arco");
    let bytes = buf.to_bytes();
    let n = cache.len();
    assert_ne!(r1, 0);
    assert_eq!(add_entry_if_missing_u32(&mut cache, &mut buf, "l'arco"), r1);
    assert_eq!(buf.to_bytes(), bytes);
    assert_eq!(cache.len(), n);
}

#[test]
fn interning_skips_a_partly_written_byte() {
    let mut cache: Vec<CachedIndex<u16>> = Vec::new();
    let mut buf = fresh();
    buf.write_bit(true);
    // the cursor given is the one before the pending bit is flushed
    assert_eq!(add_entry_if_missing(&mut cache, &mut buf, "ab"), 4);
    assert_eq!(buf.len(), 4 + 1 + 2 + 2);
}

#[test]
fn dbg_interning_matches_plain() {
    let mut c1: Vec<CachedIndex<u16>> = Vec::new();
    let mut b1 = fresh();
    let mut c2: Vec<CachedIndex<u16>> = Vec::new();
    let mut b2 = fresh();
    for s in ["Drago", "Fuoco", "Drago", ""] {
        assert_eq!(add_entry_if_missing(&mut c1, &mut b1, s), add_entry_if_missing_dbg(&mut c2, &mut b2, s));
    }
    assert_eq!(b1.to_bytes(), b2.to_bytes());
    assert_eq!(c1.len(), c2.len());
}
