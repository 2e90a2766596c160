use golarion_compendium::immunities::{
    from_code, merge_immunities, parse_single_immunity, prepare_and_map_immunities, replace_if_present,
    sort_dedup_immunities, try_prepare_and_map_immunities, Immunity_Type, IMM_SENTINEL_VALUE,
};

fn defense(field: &str) -> Vec<&str> {
    vec!["CA 10", "PF 5", "TS", "", "", field, "", "", ""]
}

#[test]
fn single_immunities() {
    assert_eq!(parse_single_immunity("Acido", "p"), Some(Immunity_Type::Immunity_Acid));
    assert_eq!(parse_single_immunity("fuoco", "p"), Some(Immunity_Type::Immunity_Fire));
    assert_eq!(parse_single_immunity("Effetti di Paura", "p"), Some(Immunity_Type::Immunity_Fear));
    assert_eq!(parse_single_immunity("Tratti dei Non Morti", "p"), Some(Immunity_Type::Immunity_UndeadTraits));
    assert_eq!(parse_single_immunity("Fuoco (120 punti)", "p"), Some(Immunity_Type::Immunity_ProtectFromEnergy));
    assert_eq!(parse_single_immunity("Legno", "p"), None);
}

#[test]
fn codes_round_trip() {
    assert_eq!(Immunity_Type::Immunity_Acid.code(), 0);
    assert_eq!(Immunity_Type::Immunity_Paralysis.code(), 12);
    assert_eq!(Immunity_Type::Immunity_Poison.code(), 31);
    assert_eq!(Immunity_Type::Immunity_Invalid.code(), u64::MAX);
    for c in 0..133u64 {
        assert_eq!(from_code(c).code(), c);
    }
    assert_eq!(from_code(500), Immunity_Type::Immunity_Invalid);
}

#[test]
fn few_immunities_pack_in_order_with_fill() {
    let mut d = defense("Acido, Fuoco");
    let r = prepare_and_map_immunities(&mut d, "p");
    assert_eq!(r, 0xFFFF_FFFF_FFFF_0100);
    assert_eq!(d[5], "Acido, Fuoco");
}

#[test]
fn empty_immunity_fields_are_sentinel() {
    let mut d = defense("");
    assert_eq!(prepare_and_map_immunities(&mut d, "p"), IMM_SENTINEL_VALUE);
    let mut d = defense("-");
    assert_eq!(prepare_and_map_immunities(&mut d, "p"), IMM_SENTINEL_VALUE);
}

#[test]
fn many_immunities_are_sorted_and_merged() {
    let mut d = defense("Paura, Acido, Magia, Sonoro, Paralisi, Veleno, Fuoco, Confusione, Scosso");
    let r = prepare_and_map_immunities(&mut d, "p");
    // sorted: Acid, Fire, Sound, Paralysis, Fear, Confusion, Shaken, Poison, Magic;
    // Acid with Fire becomes AcidAndFire and Magic takes Fire's place.
    assert_eq!(r, 0x1F1D_1610_0C04_2208);
}

#[test]
fn duplicates_are_dropped_when_too_many() {
    let mut d = defense("Acido, Acido, Acido, Acido, Acido, Acido, Acido, Acido, Acido");
    let r = prepare_and_map_immunities(&mut d, "p");
    assert_eq!(r, 0xFFFF_FFFF_FFFF_FF00);
}

#[test]
fn too_many_immunities_are_refused() {
    let mut d = defense("Acido, Sonoro, Paralisi, Paura, Confusione, Scosso, Veleno, Magia, Maledizioni, Fiancheggiamento");
    assert_eq!(try_prepare_and_map_immunities(&mut d, "p"), None);
    let mut d = defense("Acido, Legno");
    assert_eq!(try_prepare_and_map_immunities(&mut d, "p"), None);
}

#[test]
fn sorting_keeps_one_of_each() {
    let v = vec![
        Immunity_Type::Immunity_Poison,
        Immunity_Type::Immunity_Acid,
        Immunity_Type::Immunity_Poison,
        Immunity_Type::Immunity_Fire,
    ];
    let s = sort_dedup_immunities(&v);
    assert_eq!(s, vec![Immunity_Type::Immunity_Acid, Immunity_Type::Immunity_Fire, Immunity_Type::Immunity_Poison]);
}

#[test]
fn merging_pairs() {
    let mut v = vec![Immunity_Type::Immunity_Acid, Immunity_Type::Immunity_Fire];
    assert_eq!(merge_immunities(&mut v), 1);
    assert_eq!(v, vec![Immunity_Type::Immunity_AcidAndFire]);

    let mut v = vec![Immunity_Type::Immunity_Poison, Immunity_Type::Immunity_Disease];
    assert_eq!(merge_immunities(&mut v), 1);
    assert_eq!(v, vec![Immunity_Type::Immunity_DiseaseAndPoison]);

    let mut v = vec![Immunity_Type::Immunity_Magic, Immunity_Type::Immunity_Fear];
    assert_eq!(merge_immunities(&mut v), 2);
    assert_eq!(v, vec![Immunity_Type::Immunity_Magic, Immunity_Type::Immunity_Fear]);
}

#[test]
fn replacing_a_present_pair() {
    let mut v = vec![
        Immunity_Type::Immunity_Stun,
        Immunity_Type::Immunity_Magic,
        Immunity_Type::Immunity_Sleep,
    ];
    let mut count = 3usize;
    let mut i = 2usize;
    replace_if_present(
        &mut v,
        Immunity_Type::Immunity_Stun,
        Immunity_Type::Immunity_SleepAndStun,
        &mut count,
        &mut i,
    );
    assert_eq!(count, 2);
    assert_eq!(i, 0);
    assert_eq!(v, vec![Immunity_Type::Immunity_SleepAndStun, Immunity_Type::Immunity_Magic]);

    let mut count = 2usize;
    let mut i = 1usize;
    replace_if_present(&mut v, Immunity_Type::Immunity_Fire, Immunity_Type::Immunity_AcidAndFire, &mut count, &mut i);
    assert_eq!(count, 2);
    assert_eq!(i, 1);
}
