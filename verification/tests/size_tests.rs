use golarion_compendium::size::{normalize_size, try_normalize_size};

#[test]
fn normalize_size_maps_masculine_to_feminine() {
    assert_eq!(normalize_size("Piccolo", "page"), "Piccola");
    assert_eq!(normalize_size("Grande", "page"), "Grande");
    assert_eq!(normalize_size("Mastodontico", "page"), "Mastodontica");
}

#[test]
fn normalize_size_unknown_is_none() {
    assert_eq!(try_normalize_size("Gigante"), None);
}

#[test]
fn normalizing_twice_changes_nothing() {
    for s in [
        "Piccolissimo", "Piccolissima", "Minuto", "Minuta", "Minuscolo", "Minuscola", "Piccolo", "Piccola",
        "Medio", "Media", "Grande", "Grande (Mole Demoniaca)", "Enorme", "Mastodontico", "Mastodontica",
        "Colossale",
    ] {
        let once = normalize_size(s, "page");
        assert_eq!(normalize_size(once, "page"), once);
    }
}
