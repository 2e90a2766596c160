use golarion_compendium::alignment::{
    map_alignment, map_simple_alignment, try_map_alignment, ALIGNMENT_ANY, ALIGNMENT_LIKE_CREATOR,
    ALIGNMENT_OR, ALIGNMENT_SEE_BELOW,
};
use golarion_compendium::gs::{map_gs, map_simple_gs, try_map_gs, GS_RM_VALUE_BIT, GS_SENTINEL_VALUE};

#[test]
fn gs_empty_field_is_sentinel() {
    assert_eq!(map_gs("", "page"), GS_SENTINEL_VALUE);
}

#[test]
fn gs_fractions_come_first() {
    assert_eq!(map_simple_gs("1/8", "page"), Some(0));
    assert_eq!(map_simple_gs("1/6", "page"), Some(1));
    assert_eq!(map_simple_gs("1/4", "page"), Some(2));
    assert_eq!(map_simple_gs("1/3", "page"), Some(3));
    assert_eq!(map_gs("1/2", "page"), 4);
}

#[test]
fn gs_integers_are_offset_by_four() {
    assert_eq!(map_gs("0", "page"), 4);
    assert_eq!(map_gs("5", "page"), 9);
    assert_eq!(map_gs("20", "page"), 24);
}

#[test]
fn gs_with_mythic_rank_packs_both() {
    // 10/RM 3: bit 15, rank 3 in bits 6.., GS code 14
    assert_eq!(map_gs("10/RM 3", "page"), GS_RM_VALUE_BIT | (3 << 6) | 14);
    assert_eq!(map_gs("1/2/RM 1", "page"), 0x8000 | (1 << 6) | 4);
}

#[test]
fn gs_unreadable_fields_are_refused() {
    assert_eq!(try_map_gs("1/5", "page"), None);
    assert_eq!(try_map_gs("abc", "page"), None);
    assert_eq!(try_map_gs("10/RM x", "page"), None);
    assert_eq!(try_map_gs("65532", "page"), None);
    assert_eq!(try_map_gs("65531", "page"), Some(65535));
}

#[test]
fn alignment_initials_and_names() {
    assert_eq!(map_alignment("LB", "page"), 1);
    assert_eq!(map_alignment("N", "page"), 5);
    assert_eq!(map_alignment("CM", "page"), 9);
    assert_eq!(map_alignment("Neutrale Malvagio", "page"), 6);
    assert_eq!(map_simple_alignment("Caotico Buono", "orig"), Some(7));
    assert_eq!(map_simple_alignment("Qualsiasi", "orig"), None);
}

#[test]
fn alignment_special_tags() {
    assert_eq!(map_alignment("Qualsiasi", "page"), ALIGNMENT_ANY);
    assert_eq!(map_alignment("Lo stesso del suo creatore", "page"), ALIGNMENT_LIKE_CREATOR);
    assert_eq!(map_alignment("NM (vedi sotto)", "page"), ALIGNMENT_SEE_BELOW | 6);
    assert_eq!(map_alignment("LN (ma vedi sotto)", "page"), ALIGNMENT_SEE_BELOW | 2);
    assert_eq!(map_alignment("CN (vedi testo)", "page"), ALIGNMENT_SEE_BELOW | 8);
}

#[test]
fn alignment_pairs() {
    assert_eq!(map_alignment("LB o NB", "page"), ALIGNMENT_OR | (4 << 4) | 1);
    assert_eq!(map_alignment("LB o CN", "p"), 0x1081);
    assert_eq!(map_alignment("CN/CM", "page"), ALIGNMENT_OR | (9 << 4) | 8);
    assert_eq!(map_alignment("LM o LN (vedi sotto)", "page"), ALIGNMENT_SEE_BELOW | ALIGNMENT_OR | (2 << 4) | 3);
}

#[test]
fn alignment_unknown_is_refused() {
    assert_eq!(try_map_alignment("Buono", "page"), None);
    assert_eq!(try_map_alignment("LB o XX", "page"), None);
    assert_eq!(try_map_alignment("", "page"), None);
}

#[test]
fn gs_codes_follow_the_ratings() {
    let ratings = ["1/8", "1/6", "1/4", "1/3", "1/2", "1", "2", "10", "59"];
    for w in ratings.windows(2) {
        assert!(map_gs(w[0], "a") < map_gs(w[1], "b"));
    }
    assert!(map_gs("59", "p") < 64);
    assert_eq!(map_gs("17", "p"), 21);
}

#[test]
fn alignment_separators_and_spellings_agree() {
    assert_eq!(map_alignment("LB o CN", "p"), map_alignment("LB/CN", "q"));
    assert_eq!(map_alignment("Legale Buono", "p"), map_alignment("LB", "q"));
    assert_eq!(map_alignment("Caotico Neutrale o Legale Malvagio", "p"), ALIGNMENT_OR | (3 << 4) | 8);
    assert_eq!(map_alignment("NB (vedi sotto)", "p"), ALIGNMENT_SEE_BELOW | map_alignment("NB", "q"));
}
