use bytebuffer::ByteBuffer;
use golarion_compendium::entries::{
    create_talent_entry, mob_entry_u16_words, mob_entry_u32_words, talent_entry_words, try_create_talent_entry,
    Mob_Entry, Talent_Entry, Talent_Page,
};
use golarion_compendium::vec_cache::{Buffer_Context, VectorCache};

fn fresh() -> ByteBuffer {
    ByteBuffer::from_bytes(&[0u8; 4])
}

fn context() -> Buffer_Context {
    Buffer_Context {
        string: fresh(),
        number: fresh(),
        name: fresh(),
        types: fresh(),
        subtypes: fresh(),
        archetypes: fresh(),
        sizes: fresh(),
        senses: fresh(),
        auras: fresh(),
        immunities: fresh(),
        resistances: fresh(),
        weaknesses: fresh(),
        special_attack: fresh(),
        spells: fresh(),
        talents: fresh(),
        skills: fresh(),
        languages: fresh(),
        specials: fresh(),
        environment: fresh(),
    }
}

fn page(name: &str, desc: &str, source: &str) -> Talent_Page {
    Talent_Page {
        name: name.to_string(),
        desc: desc.to_string(),
        pre: String::new(),
        gain: desc.to_string(),
        norm: String::new(),
        spec: String::new(),
        source: source.to_string(),
    }
}

#[test]
fn talent_entry_holds_the_cursors_of_its_texts() {
    let mut cache = VectorCache::new(8);
    let mut bufs = context();
    let e = create_talent_entry(&mut cache, &mut bufs, page("Schivare", "+1 CA", "Manuale"), 0);
    assert_eq!(e.name, 4);
    assert_eq!(e.desc, 14);
    assert_eq!(e.pre, 0);
    assert_eq!(e.gain, 14);
    assert_eq!(e.norm, 0);
    assert_eq!(e.spec, 0);
    assert_eq!(e.source, 21);
    assert_eq!(bufs.string.len(), 30);
    assert_eq!(cache.strings.len(), 3);
}

#[test]
fn error_pages_give_an_empty_entry() {
    let mut cache = VectorCache::new(8);
    let mut bufs = context();
    let e = create_talent_entry(&mut cache, &mut bufs, page("[ERROR]", "x", "y"), 3);
    assert_eq!((e.name, e.desc, e.pre, e.gain, e.norm, e.spec, e.source), (0, 0, 0, 0, 0, 0, 0));
    assert_eq!(bufs.string.len(), 4);
    assert!(cache.strings.is_empty());
}

#[test]
fn talent_entry_into_a_short_buffer_is_refused() {
    let mut cache = VectorCache::new(8);
    let mut bufs = context();
    bufs.string = ByteBuffer::new();
    assert!(try_create_talent_entry(&mut cache, &mut bufs, page("S", "", ""), 0).is_none());
}

#[test]
fn talent_entry_layout() {
    let e = Talent_Entry { name: 1, desc: 2, pre: 3, gain: 4, norm: 5, spec: 6, source: 7 };
    assert_eq!(talent_entry_words(&e), vec![1, 2, 3, 4, 5, 6, 7]);
}

#[test]
fn mob_entry_layout() {
    let e = Mob_Entry {
        origin: 1, short_desc: 2, ac: 3, pf: 4, st: 5, rd: 6, ri: 7, def_cap: 8, melee: 9, ranged: 10,
        spec_atk: 11, psych: 12, magics: 13, spells: 14, skills: [15; 24], racial_mods: 16, spec_qual: 17,
        specials: [18; 24], org: 19, treasure: 20, desc: 21, source: 22, name: 1, gs: 2, pe: 3, align: 4,
        typ: 5, sub: [6; 8], arch: [7; 4], size: 8, init: 9, senses: [10; 8], perception: 11, aura: 12,
        immunities: [13; 16], resistances: [14; 16], weaknesses: [15; 16], speed: 16, space: 17, reach: 18,
        str: 19, dex: 20, con: 21, int: 22, wis: 23, cha: 24, bab: 25, cmb: 26, cmd: 27, talents: [28; 24],
        lang: [29; 24], env: 30,
    };
    let w32 = mob_entry_u32_words(&e);
    assert_eq!(w32.len(), 14 + 24 + 2 + 24 + 4);
    assert_eq!(&w32[12..16], &[13, 14, 15, 15]);
    assert_eq!(w32[w32.len() - 1], 22);
    let w16 = mob_entry_u16_words(&e);
    assert_eq!(w16.len(), 5 + 8 + 4 + 2 + 8 + 2 + 48 + 12 + 48 + 1 + 2);
    assert_eq!(&w16[w16.len() - 3..], &[30, 0, 0]);
    assert_eq!(&w16[0..6], &[1, 2, 3, 4, 5, 6]);
}
