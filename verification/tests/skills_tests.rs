use golarion_compendium::skills::Skill_Names;

#[test]
fn skill_names_map_to_codes() {
    assert_eq!(Skill_Names::from_str("Acrobazia"), 0);
    assert_eq!(Skill_Names::from_str("saltare"), 1);
    assert_eq!(Skill_Names::from_str("Addestrare Animali"), Skill_Names::Addestrare.code());
    assert!(Skill_Names::is_valid("Acrobazia"));
}

#[test]
fn unknown_skill_names() {
    assert_eq!(Skill_Names::from_str("Volare lontano"), 0xffff);
    assert!(!Skill_Names::is_valid("Volare lontano"));
    assert!(!Skill_Names::is_valid(""));
}

#[test]
fn names_round_trip_through_codes() {
    for c in 0..118u16 {
        let s = Skill_Names::from_u16(c);
        assert_eq!(s.code(), c);
        if s != Skill_Names::Conoscenze_Locali2 {
            assert_eq!(Skill_Names::from_str(s.as_str()), c);
            assert!(Skill_Names::is_valid(s.as_str()));
        }
    }
}

#[test]
fn second_local_knowledge_name_reads_back_as_the_first() {
    assert_eq!(Skill_Names::Conoscenze_Locali2.as_str(), "locale");
    assert_eq!(Skill_Names::from_str("locale"), Skill_Names::Conoscenze_Locali.code());
    assert_eq!(Skill_Names::from_str("locali"), Skill_Names::Conoscenze_Locali.code());
}

#[test]
fn codes_past_the_last_skill() {
    assert_eq!(Skill_Names::try_from_u16(118), None);
    assert_eq!(Skill_Names::try_from_u16(0xffff), None);
    assert_eq!(Skill_Names::try_from_u16(0), Some(Skill_Names::Acrobazia));
}

#[test]
fn accented_skill_names() {
    assert_eq!(Skill_Names::from_str("Furtivit\u{00e0}"), Skill_Names::Furtivit.code());
    assert_eq!(Skill_Names::from_str("Furtività"), 45);
    assert_eq!(Skill_Names::Furtivit.as_str(), "Furtività");
    assert_eq!(Skill_Names::from_str("nobiltà"), Skill_Names::Conoscenze_Nobilt.code());
    assert_eq!(Skill_Names::from_str("Rapidità di Mano"), Skill_Names::Rapidit.code());
    assert!(Skill_Names::is_valid("Rapidit\u{00e0} di Mano"));
}
