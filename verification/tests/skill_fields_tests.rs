use golarion_compendium::skill_fields::{skill_fields, try_skill_fields};

#[test]
fn skills_split_at_commas() {
    let f = skill_fields("Acrobazia +10, Percezione +12 (+16 in combattimento).");
    assert_eq!(f.len(), 2);
    assert_eq!(f[0].skill_block, "Acrobazia +10");
    assert_eq!(f[0].value_block, "+10");
    assert_eq!(f[0].paren_block_whole, "");
    assert!(f[0].paren_blocks.is_empty());
    assert_eq!(f[1].skill_block, "Percezione +12 (+16 in combattimento)");
    assert_eq!(f[1].value_block, "+12");
    assert_eq!(f[1].paren_block_whole, "(+16 in combattimento)");
    assert_eq!(f[1].paren_blocks, vec!["+16 in combattimento"]);
}

#[test]
fn no_skills() {
    assert!(skill_fields("-").is_empty());
}

#[test]
fn commas_inside_brackets_split_the_block() {
    let f = skill_fields("Conoscenze (arcane, locali) +8");
    assert_eq!(f.len(), 1);
    assert_eq!(f[0].paren_block_whole, "(arcane, locali)");
    assert_eq!(f[0].paren_blocks, vec!["arcane", " locali"]);
    assert_eq!(f[0].value_block, "+8");
}

#[test]
fn e_inside_brackets_splits_the_block() {
    let f = skill_fields("Artigianato (armi e armature) +5");
    assert_eq!(f[0].paren_blocks, vec!["armi", "armature"]);
}

#[test]
fn nested_brackets_stay_in_one_piece() {
    let f = skill_fields("Professione (cuoco (nano)) +3");
    assert_eq!(f[0].paren_block_whole, "(cuoco (nano))");
    assert_eq!(f[0].paren_blocks, vec!["cuoco (nano)"]);
}

#[test]
fn malformed_skills() {
    assert!(try_skill_fields("+").is_none());
    assert!(try_skill_fields("Furtività +5 (x").is_none());
    assert!(try_skill_fields("Furtività +5 (a e e b)").is_none());
    let many = "Sapienza (a, b, c, d, e, f, g, h, i, j, k, l, m, n, o, p, q) +1";
    assert!(try_skill_fields(many).is_none());
    let sixteen = "Sapienza (a, b, c, d, e, f, g, h, i, j, k, l, m, n, o, p) +1";
    assert_eq!(skill_fields(sixteen)[0].paren_blocks.len(), 16);
}
