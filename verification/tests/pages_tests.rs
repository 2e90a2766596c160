use golarion_compendium::pages::{get_mob_page, get_mob_page_array, get_npc_page, try_get_npc_page_array};

const MOB: &str = "<h1>Goblin</h1><div class=\"mw-collapsible mw-collapsed\"> Origine <br /><i>Umanoide</i></div>\
<p>Init +6</p><span id=\"Difesa\"></span><p>CA <b>16</b></p>\
<span id=\"Attacco\"></span><p>Mischia spada<h2>x</h2>\
<span id=\"Statistiche\"></span><p>For 11</p>\
<span id=\"Ecologia\"></span><p>Ambiente foreste</p>\
<span id=\"Descrizione\"></span></h2> Un goblin. <hr /><p>Fonte: Bestiario</p>";

#[test]
fn mob_page_sections() {
    let (p, rest) = get_mob_page(MOB, "addr".to_string());
    assert_eq!(p.page_addr, "addr");
    assert_eq!(p.header, "Goblin");
    assert_eq!(p.origin, "Origine");
    assert_eq!(p.class, "Umanoide");
    assert_eq!(p.misc, "Init +6");
    assert_eq!(p.defense, "CA 16");
    assert_eq!(p.attack, "Mischia spada");
    assert_eq!(p.stats, "For 11");
    assert_eq!(p.special, "");
    assert_eq!(p.ecology, "Ambiente foreste");
    assert_eq!(p.desc, "Un goblin.");
    assert_eq!(p.source, "Fonte: Bestiario");
    assert_eq!(rest, "");
}

#[test]
fn mob_page_with_special_abilities() {
    let page = MOB.replace(
        "<span id=\"Ecologia\">",
        "<span id=\"Capacità_Speciali\"></span><h3>Furia</h3> colpisce<h2><span class=\"mw-headline\" id=\"Ecologia\">",
    );
    let (p, _) = get_mob_page(&page, "addr".to_string());
    assert_eq!(p.special, "Furia colpisce");
    assert_eq!(p.ecology, "Ambiente foreste");
}

fn with_contents_box(page: &str) -> String {
    page.replace(
        "<i>Umanoide</i></div>",
        "<i>Umanoide</i><div class=\"toccolours mw-collapsible-content\">indice</div></div>",
    )
}

#[test]
fn mob_page_array_reads_one_page() {
    let body = format!("<html><head></head>{}<!-- fine -->", with_contents_box(MOB));
    let pages = get_mob_page_array(&body, "/wiki/Goblin");
    assert_eq!(pages.len(), 1);
    assert_eq!(pages[0].header, "Goblin");
    assert_eq!(pages[0].class, "Umanoide");
    assert_eq!(pages[0].page_addr, "/wiki/Goblin");
}

#[test]
fn mob_page_array_reads_two_pages() {
    let second = MOB.replace("<h1>Goblin</h1>", "<h1>Goblin Capo</h1>");
    let body = format!("<html>{}{}<!-- fine -->", with_contents_box(MOB), with_contents_box(&second));
    let pages = get_mob_page_array(&body, "/wiki/Goblin");
    assert_eq!(pages.len(), 2);
    assert_eq!(pages[0].header, "Goblin");
    assert_eq!(pages[1].header, "Goblin Capo");
    assert_eq!(pages[1].source, "Fonte: Bestiario");
}

#[test]
fn mob_page_array_without_header_is_empty() {
    assert!(get_mob_page_array("<html>nothing</html>", "/wiki/X").is_empty());
}

const NPC: &str = "<h1>Mercante</h1><div class=\"mw-collapsible mw-collapsed\">Umano<br /><i>Esperto 3</i></div>\
<p>Init +1</p><span id=\"Difesa\"></span><p>CA 12</p>\
<span id=\"Attacco\"></span><p>Mischia pugnale<h2>t</h2>\
<span id=\"Statistiche\"></span><p>For 10</p>\
<span id=\"Descrizione\"></span></h2>Un mercante.<hr /><p>Fonte: Guida</p>";

#[test]
fn npc_page_sections() {
    let p = get_npc_page(NPC, "addr".to_string());
    assert_eq!(p.header, "Mercante");
    assert_eq!(p.origin, "Umano");
    assert_eq!(p.class, "Esperto 3");
    assert_eq!(p.misc, "Init +1");
    assert_eq!(p.defense, "CA 12");
    assert_eq!(p.attack, "Mischia pugnale");
    assert_eq!(p.tactics, "");
    assert_eq!(p.stats, "For 10");
    assert_eq!(p.special, "");
    assert_eq!(p.desc, "Un mercante.");
    assert_eq!(p.source, " Guida");
}

#[test]
fn npc_page_with_tactics() {
    let page = NPC.replace(
        "<span id=\"Statistiche\">",
        "<span id=\"Tattiche\"></span><p>Fugge<h2>s</h2><span id=\"Statistiche\">",
    );
    let p = get_npc_page(&page, "addr".to_string());
    assert_eq!(p.tactics, "Fugge");
    assert_eq!(p.stats, "For 10");
}

#[test]
fn npc_page_array_without_header_is_refused() {
    assert!(try_get_npc_page_array("<html>nothing</html>", "/wiki/X").is_none());
}
