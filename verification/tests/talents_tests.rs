use bytebuffer::ByteBuffer;
use golarion_compendium::talents::{
    find_in_talents, find_in_talents_ordered, map_talent_intern_name, map_talent_intern_name_ordered,
    prepare_talents_str, prepare_talents_str_ordered, talent_name_matches, TALENT_BONUS_BIT_U32,
    TALENT_INTERN_BIT_U32, TALENT_INTERN_MASK, TALENT_MITHIC_BIT_U32, TALENT_MODULE_IDX_MASK, TALENT_NOT_FOUND,
};
use golarion_compendium::vec_cache::{Buffer_Context, CachedIndex, VectorCache};

fn fresh() -> ByteBuffer {
    ByteBuffer::from_bytes(&[0u8; 4])
}

fn context() -> Buffer_Context {
    Buffer_Context {
        string: fresh(),
        number: fresh(),
        name: fresh(),
        types: fresh(),
        subtypes: fresh(),
        archetypes: fresh(),
        sizes: fresh(),
        senses: fresh(),
        auras: fresh(),
        immunities: fresh(),
        resistances: fresh(),
        weaknesses: fresh(),
        special_attack: fresh(),
        spells: fresh(),
        talents: fresh(),
        skills: fresh(),
        languages: fresh(),
        specials: fresh(),
        environment: fresh(),
    }
}

/// A talent module with the talents `names`: the string buffer, then the
/// count and one 28-byte entry per talent whose first field is the offset of
/// its name; numbers in the machine's byte order.
fn module(names: &[&str]) -> ByteBuffer {
    let mut strings: Vec<u8> = Vec::new();
    let mut offsets: Vec<u32> = Vec::new();
    for n in names {
        offsets.push(4 + strings.len() as u32);
        strings.extend_from_slice(&(n.len() as u16).to_ne_bytes());
        strings.extend_from_slice(n.as_bytes());
    }
    let mut bytes = (strings.len() as u32).to_ne_bytes().to_vec();
    bytes.extend(strings);
    bytes.extend_from_slice(&(names.len() as u32).to_ne_bytes());
    for o in offsets {
        bytes.extend_from_slice(&o.to_ne_bytes());
        bytes.extend_from_slice(&[0u8; 24]);
    }
    ByteBuffer::from_bytes(&bytes)
}

#[test]
fn talent_names_drop_their_category() {
    assert_eq!(talent_name_matches(b"Attacco Poderoso (Combattimento)".to_vec(), "Attacco Poderoso"), Some(true));
    assert_eq!(talent_name_matches(b"Incantesimi Rapidi (Metamagia)".to_vec(), "Incantesimi Rapidi"), Some(true));
    assert_eq!(talent_name_matches(b"Schivare".to_vec(), "Mobilita"), Some(false));
    assert_eq!(talent_name_matches(vec![0xff, 0xfe], "x"), None);
}

#[test]
fn talents_are_found_by_position() {
    let mut buf = module(&["Schivare", "Robustezza (Mitico)", "Attacco Poderoso (Combattimento)"]);
    let mut cache: Vec<CachedIndex<u32>> = Vec::new();
    assert_eq!(find_in_talents(&mut cache, &mut buf, "Schivare", "p"), Some(0));
    assert_eq!(find_in_talents(&mut cache, &mut buf, "Robustezza (Mitico)", "p"), Some(1));
    assert_eq!(find_in_talents(&mut cache, &mut buf, "Attacco Poderoso", "p"), Some(2));
    assert_eq!(cache.len(), 3);
    assert_eq!(find_in_talents(&mut cache, &mut buf, "Attacco Poderoso", "p"), Some(2));
    assert_eq!(find_in_talents(&mut cache, &mut buf, "Volare", "p"), Some(TALENT_NOT_FOUND));
}

#[test]
fn malformed_talent_modules() {
    let mut cache: Vec<CachedIndex<u32>> = Vec::new();
    let mut empty = ByteBuffer::new();
    assert_eq!(find_in_talents(&mut cache, &mut empty, "Schivare", "p"), None);
    let mut zero_name = ByteBuffer::from_bytes(&[0u8; 40]);
    assert_eq!(find_in_talents(&mut cache, &mut zero_name, "Schivare", "p"), None);
}

#[test]
fn talent_codes() {
    let mut module = module(&["Schivare", "Robustezza (Mitico)"]);
    let mut cache = VectorCache::new(8);
    let mut bufs = context();
    assert_eq!(map_talent_intern_name("Schivare", "", &mut cache, &mut bufs, &mut module, "p"), Some(0));
    assert_eq!(
        map_talent_intern_name("Robustezza\u{1d39}", "", &mut cache, &mut bufs, &mut module, "p"),
        Some(TALENT_MITHIC_BIT_U32 | 1)
    );
    assert_eq!(
        map_talent_intern_name("Schivare (extra)", "Schivare", &mut cache, &mut bufs, &mut module, "p"),
        Some(TALENT_INTERN_BIT_U32 | (4 << 12))
    );
}

#[test]
fn talents_field() {
    let mut module = module(&["Schivare", "Robustezza (Mitico)"]);
    let mut cache = VectorCache::new(8);
    let mut bufs = context();
    let mut stats = vec!["", "", "", "", "Schivare, Robustezza\u{1d39}, Schivare (extra).", ""];
    let r = prepare_talents_str(&mut stats, &mut cache, &mut bufs, &mut module, "p").unwrap();
    assert_eq!(r[0], 0);
    assert_eq!(r[1], TALENT_MITHIC_BIT_U32 | 1);
    assert_eq!(r[2], TALENT_INTERN_BIT_U32 | (4 << 12));
    assert!(r[3..].iter().all(|x| *x == 0));

    let mut stats = vec!["", "", "", "", "-"];
    assert_eq!(prepare_talents_str(&mut stats, &mut cache, &mut bufs, &mut module, "p"), Some([0u32; 24]));
}

fn machine_is_big_endian() -> bool {
    u32::from_be(1) == 1
}

#[test]
fn module_read_in_the_machine_order() {
    let big = machine_is_big_endian();
    let mut buf = module(&["Schivare", "Robustezza (Mitico)"]);
    let mut cache: Vec<CachedIndex<u32>> = Vec::new();
    assert_eq!(find_in_talents_ordered(&mut cache, &mut buf, "Robustezza (Mitico)", "p", big), Some(1));
    let mut other: Vec<CachedIndex<u32>> = Vec::new();
    // in the other byte order the length of the names is far past the end
    assert_eq!(find_in_talents_ordered(&mut other, &mut buf, "Schivare", "p", !big), None);
}

#[test]
fn ordered_mapping_matches_the_machine_one() {
    let big = machine_is_big_endian();
    let mut m1 = module(&["Schivare", "Mobilità"]);
    let mut m2 = module(&["Schivare", "Mobilità"]);
    let mut c1 = VectorCache::new(4);
    let mut c2 = VectorCache::new(4);
    let mut b1 = context();
    let mut b2 = context();
    let a = map_talent_intern_name("Mobilità\u{1d2e}", "", &mut c1, &mut b1, &mut m1, "p");
    let b = map_talent_intern_name_ordered("Mobilità\u{1d2e}", "", &mut c2, &mut b2, &mut m2, "p", big);
    assert_eq!(a, Some(TALENT_BONUS_BIT_U32 | 1));
    assert_eq!(a, b);
    let mut stats = vec!["", "", "", "", "Mobilità, Schivare"];
    let r = prepare_talents_str_ordered(&mut stats, &mut c2, &mut b2, &mut m2, "p", big).unwrap();
    assert_eq!(&r[..3], &[1, 0, 0]);
}

#[test]
fn talent_code_fields_read_back() {
    let mut module = module(&["Schivare", "Robustezza (Mitico)"]);
    let mut cache = VectorCache::new(8);
    let mut bufs = context();
    let code = map_talent_intern_name("Robustezza\u{1d39} (Tempra)", "Robustezza\u{1d39}", &mut cache, &mut bufs, &mut module, "p")
        .unwrap();
    assert_eq!(code & TALENT_MODULE_IDX_MASK, 1);
    assert_eq!((code & TALENT_INTERN_MASK) >> 12, 4);
    assert!(code & TALENT_INTERN_BIT_U32 != 0);
    assert!(code & TALENT_MITHIC_BIT_U32 != 0);
    assert!(code & TALENT_BONUS_BIT_U32 == 0);
    let mut expected = (("Robustezza (Tempra)".len()) as u16).to_ne_bytes().to_vec();
    expected.extend_from_slice("Robustezza (Tempra)".as_bytes());
    assert_eq!(&bufs.talents.to_bytes()[4..], &expected[..]);
}

#[test]
fn too_many_talents_are_refused() {
    let mut module = module(&["Schivare"]);
    let mut cache = VectorCache::new(8);
    let mut bufs = context();
    let field = vec!["Schivare"; 25].join(", ");
    let mut stats = vec!["", "", "", "", field.as_str()];
    assert_eq!(prepare_talents_str(&mut stats, &mut cache, &mut bufs, &mut module, "p"), None);
    let field = vec!["Schivare"; 24].join(", ");
    let mut stats = vec!["", "", "", "", field.as_str()];
    assert_eq!(prepare_talents_str(&mut stats, &mut cache, &mut bufs, &mut module, "p"), Some([0u32; 24]));
}
