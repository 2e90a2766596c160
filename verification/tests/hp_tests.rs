use golarion_compendium::hp::{
    map_hp_expr, map_or_intern_hp, try_map_or_intern_hp, HpExpr, HP_Options_Type, HP_FLAT_NEGATIVE_BIT,
    HP_FLAT_OFFSET, HP_IRA_BIT, HP_OPTION_TYPE_OFFSET, HP_OPTION_VAL_OFFSET,
};

#[test]
fn hp_terms() {
    assert_eq!(map_hp_expr("6d8", "p"), Some(HpExpr::Hp_Die((6 << 3) | 3)));
    assert_eq!(map_hp_expr("1d4", "p"), Some(HpExpr::Hp_Die((1 << 3) | 1)));
    assert_eq!(map_hp_expr("12d12", "p"), Some(HpExpr::Hp_Die((12 << 3) | 5)));
    assert_eq!(map_hp_expr("18", "p"), Some(HpExpr::Hp_Flat(18)));
    assert_eq!(map_hp_expr(" 7 ", "p"), Some(HpExpr::Hp_Flat(7)));
}

#[test]
fn hp_term_errors() {
    assert_eq!(map_hp_expr("6d7", "p"), None);
    assert_eq!(map_hp_expr("xd8", "p"), None);
    assert_eq!(map_hp_expr("abc", "p"), None);
    assert_eq!(map_hp_expr("4096", "p"), None);
    assert_eq!(map_hp_expr("4095", "p"), None);
    assert_eq!(map_hp_expr("1023", "p"), Some(HpExpr::Hp_Flat(1023)));
}

#[test]
fn hp_dice_and_flat() {
    assert_eq!(map_or_intern_hp("45 (6d8+18)", "p"), (18u64 << HP_FLAT_OFFSET) | 51);
}

#[test]
fn hp_several_dice_take_nine_bits_each() {
    let r = map_or_intern_hp("60 (4d10+4d8+20)", "p");
    assert_eq!(r & 0x1FF, (4 << 3) | 4);
    assert_eq!((r >> 9) & 0x1FF, (4 << 3) | 3);
    assert_eq!(r >> HP_FLAT_OFFSET, 20);
}

#[test]
fn hp_flat_after_minus_is_subtracted() {
    assert_eq!(
        map_or_intern_hp("10 (2d6-2)", "p"),
        HP_FLAT_NEGATIVE_BIT | (2u64 << HP_FLAT_OFFSET) | 18
    );
    assert_eq!(map_or_intern_hp("3 (1d8-1)", "p"), 0x800000100000000B);
    assert_eq!(map_or_intern_hp("3 (1d8\u{2013}1)", "p"), 0x800000100000000B);
}

#[test]
fn hp_flat_before_minus_is_added() {
    // the sign applies to the term after it: 5 - 1d4 keeps +5
    assert_eq!(map_or_intern_hp("2 (5-1d4)", "p"), (5u64 << HP_FLAT_OFFSET) | 9);
    assert_eq!(map_or_intern_hp("7 (1d8+5-2)", "p"), (3u64 << HP_FLAT_OFFSET) | 11);
}

#[test]
fn hp_rage_bit() {
    assert_eq!(
        map_or_intern_hp("50 (5d10+20)\nPF non in ira 40", "p"),
        HP_IRA_BIT | (20u64 << HP_FLAT_OFFSET) | 44
    );
}

#[test]
fn hp_fast_healing_option() {
    let r = map_or_intern_hp("30 (4d8+12); Guarigione Rapida 5", "p");
    let expected = 35
        | (12u64 << HP_FLAT_OFFSET)
        | (HP_Options_Type::HP_Guarigione_Rapida.code() << HP_OPTION_TYPE_OFFSET)
        | (5u64 << HP_OPTION_VAL_OFFSET);
    assert_eq!(r, expected);
    assert_eq!(HP_Options_Type::HP_Guarigione_Rapida.code(), 1);
}

#[test]
fn hp_errors() {
    assert_eq!(try_map_or_intern_hp("45", "p"), None);
    assert_eq!(try_map_or_intern_hp("45 (6d7+18)", "p"), None);
    assert_eq!(try_map_or_intern_hp("45 (1d4+1d4+1d4+1d4+1d4)", "p"), None);
}

#[test]
fn hp_total_before_formula_is_ignored() {
    assert_eq!(map_or_intern_hp("45 (6d8+18)", "a"), map_or_intern_hp("12 (6d8+18)", "b"));
    assert_eq!(map_or_intern_hp("(6d8+18)", "a"), map_or_intern_hp("45 (6d8+18)", "b"));
}

#[test]
fn hp_dv_prefix_is_dropped() {
    assert_eq!(map_or_intern_hp("10 (5 DV; 1d8+2)", "a"), map_or_intern_hp("10 (1d8+2)", "b"));
    assert_eq!(map_or_intern_hp("10 (1d8+2)", "b"), (2u64 << HP_FLAT_OFFSET) | 11);
}

#[test]
fn hp_rage_note_sets_only_the_rage_bit() {
    let plain = map_or_intern_hp("50 (5d10+20)", "a");
    assert_eq!(map_or_intern_hp("50 (5d10+20)\nPF non in ira 40", "b"), plain | HP_IRA_BIT);
    assert_eq!(map_or_intern_hp("50 (5d10+20)\nPF non in ira whatever", "c"), plain | HP_IRA_BIT);
}

#[test]
fn hp_laws_with_leading_space_or_bracket() {
    let plain = map_or_intern_hp("50 ( 5d10+20)", "a");
    assert_eq!(plain, map_or_intern_hp("50 (5d10+20)", "a"));
    assert_eq!(map_or_intern_hp("50 ( 5d10+20)\nPF non in ira 40", "b"), plain | HP_IRA_BIT);
    assert_eq!(map_or_intern_hp("50 ((5d10+20)\nPF non in ira 40", "b"), plain | HP_IRA_BIT);
    assert_eq!(map_or_intern_hp("10 (5 DV;  1d8+2)", "a"), map_or_intern_hp("10 ( 1d8+2)", "b"));
}
