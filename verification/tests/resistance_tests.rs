use golarion_compendium::resistance::{
    parse_single_resistance, prepare_and_map_resistances, try_prepare_and_map_resistances,
    RES_ACID_TYPE, RES_ADAP_TYPE, RES_ALL_TYPE, RES_CHAN_TYPE, RES_COLD_TYPE, RES_ELEC_TYPE,
    RES_FIRE_TYPE, RES_NEG_TYPE, RES_POS_50_TYPE, RES_POS_TYPE, RES_PSN_TYPE, RES_SENTINEL_VALUE,
    RES_SNAKESKIN_TYPE, RES_SOUND_TYPE,
};

fn defenses(field: &str) -> Vec<&str> {
    vec!["CA 10", "PF 5", "TS", "", "", "", field, "", ""]
}

#[test]
fn single_resistances() {
    assert_eq!(parse_single_resistance("Acido 10", "p"), Some(RES_ACID_TYPE | 10));
    assert_eq!(parse_single_resistance("fuoco 5", "p"), Some(RES_FIRE_TYPE | 5));
    assert_eq!(parse_single_resistance("Freddo 20", "p"), Some(RES_COLD_TYPE | 20));
    assert_eq!(parse_single_resistance("Elettricità 15", "p"), Some(RES_ELEC_TYPE | 15));
    assert_eq!(parse_single_resistance("sonoro 30", "p"), Some(RES_SOUND_TYPE | 30));
    assert_eq!(parse_single_resistance("Energia Positiva 10", "p"), Some(RES_POS_TYPE | 10));
    assert_eq!(parse_single_resistance("energia negativa 5", "p"), Some(RES_NEG_TYPE | 5));
    assert_eq!(parse_single_resistance("Energie (Tutte) 5", "p"), Some(RES_ALL_TYPE | 5));
    assert_eq!(parse_single_resistance("Resistenza Adattiva 10", "p"), Some(RES_ADAP_TYPE | 10));
    assert_eq!(parse_single_resistance("Resistenza ad Incanalare 4", "p"), Some(RES_CHAN_TYPE | 4));
}

#[test]
fn resistances_without_value() {
    assert_eq!(parse_single_resistance("Energia Positiva (50%)", "p"), Some(RES_POS_50_TYPE));
    assert_eq!(parse_single_resistance("Resistenza al Veleno", "p"), Some(RES_PSN_TYPE));
    assert_eq!(parse_single_resistance("Pelle di Serpente", "p"), Some(RES_SNAKESKIN_TYPE));
}

#[test]
fn single_resistance_errors() {
    assert_eq!(parse_single_resistance("Legno 5", "p"), None);
    assert_eq!(parse_single_resistance("Fuoco", "p"), None);
    assert_eq!(parse_single_resistance("Fuoco dieci", "p"), None);
    assert_eq!(parse_single_resistance("Fuoco 64", "p"), None);
    assert_eq!(parse_single_resistance("Fuoco 63", "p"), Some(RES_FIRE_TYPE | 63));
    assert_eq!(parse_single_resistance("Pelle di Drago", "p"), None);
    assert_eq!(parse_single_resistance("Resistenza al Fuoco", "p"), None);
}

#[test]
fn resistances_pack_ten_bits_each() {
    let mut d = defenses("Fuoco 10, Freddo 5");
    let r = prepare_and_map_resistances(&mut d, 0, "p");
    assert_eq!(r, (RES_FIRE_TYPE | 10) | ((RES_COLD_TYPE | 5) << 10));
    assert_eq!(d[6], "Fuoco 10, Freddo 5");
}

#[test]
fn resistances_unpack_law_on_values() {
    let mut d = defenses("Acido 1, Fuoco 2, Freddo 3, Elettricità 4, Sonoro 5, Energia Negativa 6.");
    let r = prepare_and_map_resistances(&mut d, 0, "p");
    let expected = [
        RES_ACID_TYPE | 1,
        RES_FIRE_TYPE | 2,
        RES_COLD_TYPE | 3,
        RES_ELEC_TYPE | 4,
        RES_SOUND_TYPE | 5,
        RES_NEG_TYPE | 6,
    ];
    for (k, e) in expected.iter().enumerate() {
        assert_eq!((r >> (10 * k)) & 0x3FF, *e);
    }
    assert_eq!(r >> 60, 0);
}

#[test]
fn resistances_empty_fields_are_sentinel() {
    let mut d = defenses("");
    assert_eq!(prepare_and_map_resistances(&mut d, 0, "p"), RES_SENTINEL_VALUE);
    let mut d = defenses("-");
    assert_eq!(prepare_and_map_resistances(&mut d, 0, "p"), RES_SENTINEL_VALUE);
}

#[test]
fn resistances_offset_moves_the_field() {
    let mut d = defenses("");
    d[7] = "Acido 5";
    assert_eq!(prepare_and_map_resistances(&mut d, 1, "p"), RES_ACID_TYPE | 5);
}

#[test]
fn resistances_short_tail_is_dropped() {
    let mut d = defenses("Fuoco 10, ab");
    assert_eq!(try_prepare_and_map_resistances(&mut d, 0, "p"), Some(RES_FIRE_TYPE | 10));
}

#[test]
fn resistances_errors() {
    let mut d = defenses("Fuoco 10, Legno 3");
    assert_eq!(try_prepare_and_map_resistances(&mut d, 0, "p"), None);
    let mut d = defenses("Acido 1, Acido 2, Acido 3, Acido 4, Acido 5, Acido 6, Acido 7");
    assert_eq!(try_prepare_and_map_resistances(&mut d, 0, "p"), None);
}
