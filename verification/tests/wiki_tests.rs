use golarion_compendium::wiki::{
    check_path_against_blacklist, fetch_sections, get_path_from_slice, paths_in_database_page,
    try_get_path_from_slice, FETCH_WORKERS,
};

#[test]
fn blacklisted_paths() {
    assert!(check_path_against_blacklist("/wiki/Drago"));
    assert!(check_path_against_blacklist("/wiki/Azi"));
    assert!(check_path_against_blacklist("/wiki/Umano"));
    assert!(check_path_against_blacklist("/wiki/Spiritista"));
    assert!(!check_path_against_blacklist("/wiki/Goblin"));
    assert!(!check_path_against_blacklist("/wiki/Drago_Rosso"));
    assert!(!check_path_against_blacklist(""));
}

#[test]
fn path_of_a_link() {
    assert_eq!(get_path_from_slice("ref=\"/wiki/Goblin\" title=\"Goblin\""), Some("/wiki/Goblin"));
    assert_eq!(get_path_from_slice("ref=\"/wiki/Drago\">Drago</a>"), None);
    assert_eq!(get_path_from_slice("ref=\"/w/index.php?title=X&amp;action=edit&amp;redlink=1\""), None);
    assert_eq!(get_path_from_slice("ref=\"/wiki/Archetipo_Zombi\""), None);
}

#[test]
fn malformed_links() {
    assert_eq!(try_get_path_from_slice("ref"), None);
    assert_eq!(try_get_path_from_slice("ref=\"/wiki/Goblin"), None);
    assert_eq!(try_get_path_from_slice("ref=\"\""), Some(Some("")));
    assert_eq!(try_get_path_from_slice("ref=\"/wiki/Drago\""), Some(None));
}

const PAGE: &str = "<html><body><p>intro</p><table class=\"wiki_table_filter sortable\"><tbody>\
<tr><th>Nome</th><th>GS</th></tr>\
<tr><td><a href=\"/wiki/Goblin\" title=\"Goblin\">Goblin</a></td><td>1/3</td></tr>\
<tr><td><a href=\"/wiki/Drago\">Drago</a> e <a href=\"/wiki/Orco\">Orco</a></td><td>1</td></tr>\
</tbody></table></body></html>";

#[test]
fn database_page_paths() {
    let paths = paths_in_database_page(PAGE).unwrap();
    assert_eq!(
        paths,
        vec![
            "https://golarion.altervista.org/wiki/Goblin".to_string(),
            "https://golarion.altervista.org/wiki/Orco".to_string(),
        ]
    );
}

#[test]
fn database_page_with_zebra_table() {
    let page = PAGE.replace("wiki_table_filter", "wiki_table_zebra");
    assert_eq!(paths_in_database_page(&page).unwrap().len(), 2);
}

#[test]
fn database_page_errors() {
    assert_eq!(paths_in_database_page("<html>no table</html>"), None);
    assert_eq!(paths_in_database_page("wiki_table_filter<tbody><tr></tr></tbody>"), None);
    let no_body = PAGE.replace("</tbody>", "");
    assert_eq!(paths_in_database_page(&no_body), None);
    let bad_link = PAGE.replace("\"/wiki/Orco\"", "\"/wiki/Orco");
    assert_eq!(paths_in_database_page(&bad_link), None);
}

#[test]
fn fetch_sections_cover_all_pages() {
    for n in [0usize, 10, 31, 32, 100, 1000] {
        let s = fetch_sections(n);
        assert_eq!(s.len(), FETCH_WORKERS + 1);
        assert_eq!(s[0].0, 0);
        assert_eq!(s[FETCH_WORKERS].1, n);
        for i in 0..FETCH_WORKERS {
            assert_eq!(s[i].1, s[i + 1].0);
            assert_eq!(s[i].1 - s[i].0, n / FETCH_WORKERS);
        }
    }
    let s = fetch_sections(100);
    assert_eq!(s[0], (0, 3));
    assert_eq!(s[31], (93, 96));
    assert_eq!(s[32], (96, 100));
}
