use vstd::prelude::*;

use crate::parse_util::{
    byte_offset, byte_offset_of, char_index_of_byte, get_from_byte, get_slice_inside_tags,
    lemma_byte_offset_bound, spec_slice_inside_tags,
};
use crate::text::{chars_of, contains_str, find_chars, lemma_find_some, spec_contains, spec_find, str_eq};

verus! {

broadcast use vstd::string::group_string_axioms;

// ---------------------------------------------------------------------------
// Links that are not pages of a creature or character
// ---------------------------------------------------------------------------

/// Bestiary links that lead to family or index pages, not to a creature.
pub open spec fn on_monster_blacklist(p: Seq<char>) -> bool {
    ||| p == "/wiki/Dinosauro"@
    ||| p == "/wiki/Gremlin"@
    ||| p == "/wiki/Formian"@
    ||| p == "/wiki/Leshy"@
    ||| p == "/wiki/Meccanico"@
    ||| p == "/wiki/Popolo_Oscuro"@
    ||| p == "/wiki/Diavolo"@
    ||| p == "/wiki/Demone"@
    ||| p == "/wiki/Pesce"@
    ||| p == "/wiki/Agathion"@
    ||| p == "/wiki/Angelo"@
    ||| p == "/wiki/Arconte"@
    ||| p == "/wiki/Asura"@
    ||| p == "/wiki/Azata"@
    ||| p == "/wiki/Daemon"@
    ||| p == "/wiki/Div"@
    ||| p == "/wiki/Drago"@
    ||| p == "/wiki/Eone"@
    ||| p == "/wiki/Inevitabile"@
    ||| p == "/wiki/Kami"@
    ||| p == "/wiki/Kyton"@
    ||| p == "/wiki/Oni"@
    ||| p == "/wiki/Protean"@
    ||| p == "/wiki/Psicopompo"@
    ||| p == "/wiki/Qlippoth"@
    ||| p == "/wiki/Rakshasa"@
    ||| p == "/wiki/Razza_Predatrice"@
    ||| p == "/wiki/Sahkil"@
    ||| p == "/wiki/Spirito_della_Casa"@
    ||| p == "/wiki/Tsukumogami"@
    ||| p == "/wiki/Wysp"@
    ||| p == "/wiki/Carnideforme"@
    ||| p == "/wiki/Golem"@
    ||| p == "/wiki/Robot"@
    ||| p == "/wiki/Thriae"@
    ||| p == "/wiki/Alveare"@
    ||| p == "/wiki/Drago_Esterno"@
    ||| p == "/wiki/Sfinge"@
    ||| p == "/wiki/Caccia_Selvaggia"@
    ||| p == "/wiki/Ombra_Notturna"@
    ||| p == "/wiki/Manasaputra"@
    ||| p == "/wiki/Siktempora"@
    ||| p == "/wiki/Calamit%C3%A0"@
    ||| p == "/wiki/Demodand"@
    ||| p == "/wiki/Linnorm"@
    ||| p == "/wiki/Araldo"@
    ||| p == "/wiki/Colosso"@
    ||| p == "/wiki/Behemoth"@
    ||| p == "/wiki/Idra"@
    ||| p == "/wiki/Signore_dei_Qlippoth"@
    ||| p == "/wiki/Progenie_di_Rovagug"@
    ||| p == "/wiki/Kaiju"@
    ||| p == "/wiki/Arcidiavolo"@
    ||| p == "/wiki/Signore_dei_Demoni"@
    ||| p == "/wiki/Signore_Empireo"@
    ||| p == "/wiki/Grande_Antico"@
    ||| p == "/wiki/Kyton#Kyton_Demagogo"@
    ||| p == "/wiki/Cavaliere_dell%27Apocalisse"@
    ||| p == "/wiki/File:35.png"@
    ||| p == "/wiki/Idolo"@
    ||| p == "/wiki/Azi"@
}

/// Links of the NPC database that lead to races, classes or archetypes.
pub open spec fn on_npc_blacklist(p: Seq<char>) -> bool {
    ||| p == "/wiki/Umano"@
    ||| p == "/wiki/Adepto"@
    ||| p == "/wiki/Combattente"@
    ||| p == "/wiki/Esperto"@
    ||| p == "/wiki/Mezzelfo"@
    ||| p == "/wiki/Popolano"@
    ||| p == "/wiki/Aristocratico"@
    ||| p == "/wiki/Halfling"@
    ||| p == "/wiki/Nano"@
    ||| p == "/wiki/Chierico"@
    ||| p == "/wiki/Ladro"@
    ||| p == "/wiki/Bardo"@
    ||| p == "/wiki/Ranger"@
    ||| p == "/wiki/Monaco"@
    ||| p == "/wiki/Druido"@
    ||| p == "/wiki/Mago"@
    ||| p == "/wiki/Barbaro"@
    ||| p == "/wiki/Guerriero"@
    ||| p == "/wiki/Paladino"@
    ||| p == "/wiki/Mezzorco"@
    ||| p == "/wiki/Stregone"@
    ||| p == "/wiki/Elfo"@
    ||| p == "/wiki/Gnomo"@
    ||| p == "/wiki/Investigatore"@
    ||| p == "/wiki/Cacciatore"@
    ||| p == "/wiki/Scaldo"@
    ||| p == "/wiki/Intrepido"@
    ||| p == "/wiki/Sacerdote_Guerriero"@
    ||| p == "/wiki/Inquisitore"@
    ||| p == "/wiki/Razze/Hobgoblin"@
    ||| p == "/wiki/Pistolero"@
    ||| p == "/wiki/Razze/Tengu"@
    ||| p == "/wiki/Cavaliere"@
    ||| p == "/wiki/Razze/Goblin"@
    ||| p == "/wiki/Fattucchiere"@
    ||| p == "/wiki/Alchimista"@
    ||| p == "/wiki/Attaccabrighe"@
    ||| p == "/wiki/Medium"@
    ||| p == "/wiki/Razze/Tiefling"@
    ||| p == "/wiki/Vigilante"@
    ||| p == "/wiki/Antipaladino"@
    ||| p == "/wiki/Cineta"@
    ||| p == "/wiki/Ghast"@
    ||| p == "/wiki/Predatore"@
    ||| p == "/wiki/Ninja"@
    ||| p == "/wiki/Magus"@
    ||| p == "/wiki/Razze/Orco"@
    ||| p == "/wiki/Minotauro"@
    ||| p == "/wiki/Occultista"@
    ||| p == "/wiki/Iracondo_di_Stirpe"@
    ||| p == "/wiki/Sciamano"@
    ||| p == "/wiki/Assassino"@
    ||| p == "/wiki/Duellante"@
    ||| p == "/wiki/Ombra_Danzante"@
    ||| p == "/wiki/Mistificatore_Arcano"@
    ||| p == "/wiki/Arciere_Arcano"@
    ||| p == "/wiki/Maestro_del_Sapere"@
    ||| p == "/wiki/Leshy_Fungo"@
    ||| p == "/wiki/Discepolo_dei_Draghi"@
    ||| p == "/wiki/Guerriero_Arcano"@
    ||| p == "/wiki/Trovatore"@
    ||| p == "/wiki/Teurgo_Mistico"@
    ||| p == "/wiki/Parapsichico"@
    ||| p == "/wiki/Arcanista"@
    ||| p == "/wiki/Nixie_di_Palude"@
    ||| p == "/wiki/Mesmerista"@
    ||| p == "/wiki/Convocatore"@
    ||| p == "/wiki/Cacciatore_di_Taglie"@
    ||| p == "/wiki/Razze/Vishkanya"@
    ||| p == "/wiki/Oracolo"@
    ||| p == "/wiki/Spiritista"@
}

/// Whether `p` is on the bestiary's list of links to skip.
fn check_monster_blacklist(p: &str) -> (r: bool)
    ensures
        r == on_monster_blacklist(p@),
{
    str_eq(p, "/wiki/Dinosauro")
        || str_eq(p, "/wiki/Gremlin")
        || str_eq(p, "/wiki/Formian")
        || str_eq(p, "/wiki/Leshy")
        || str_eq(p, "/wiki/Meccanico")
        || str_eq(p, "/wiki/Popolo_Oscuro")
        || str_eq(p, "/wiki/Diavolo")
        || str_eq(p, "/wiki/Demone")
        || str_eq(p, "/wiki/Pesce")
        || str_eq(p, "/wiki/Agathion")
        || str_eq(p, "/wiki/Angelo")
        || str_eq(p, "/wiki/Arconte")
        || str_eq(p, "/wiki/Asura")
        || str_eq(p, "/wiki/Azata")
        || str_eq(p, "/wiki/Daemon")
        || str_eq(p, "/wiki/Div")
        || str_eq(p, "/wiki/Drago")
        || str_eq(p, "/wiki/Eone")
        || str_eq(p, "/wiki/Inevitabile")
        || str_eq(p, "/wiki/Kami")
        || str_eq(p, "/wiki/Kyton")
        || str_eq(p, "/wiki/Oni")
        || str_eq(p, "/wiki/Protean")
        || str_eq(p, "/wiki/Psicopompo")
        || str_eq(p, "/wiki/Qlippoth")
        || str_eq(p, "/wiki/Rakshasa")
        || str_eq(p, "/wiki/Razza_Predatrice")
        || str_eq(p, "/wiki/Sahkil")
        || str_eq(p, "/wiki/Spirito_della_Casa")
        || str_eq(p, "/wiki/Tsukumogami")
        || str_eq(p, "/wiki/Wysp")
        || str_eq(p, "/wiki/Carnideforme")
        || str_eq(p, "/wiki/Golem")
        || str_eq(p, "/wiki/Robot")
        || str_eq(p, "/wiki/Thriae")
        || str_eq(p, "/wiki/Alveare")
        || str_eq(p, "/wiki/Drago_Esterno")
        || str_eq(p, "/wiki/Sfinge")
        || str_eq(p, "/wiki/Caccia_Selvaggia")
        || str_eq(p, "/wiki/Ombra_Notturna")
        || str_eq(p, "/wiki/Manasaputra")
        || str_eq(p, "/wiki/Siktempora")
        || str_eq(p, "/wiki/Calamit%C3%A0")
        || str_eq(p, "/wiki/Demodand")
        || str_eq(p, "/wiki/Linnorm")
        || str_eq(p, "/wiki/Araldo")
        || str_eq(p, "/wiki/Colosso")
        || str_eq(p, "/wiki/Behemoth")
        || str_eq(p, "/wiki/Idra")
        || str_eq(p, "/wiki/Signore_dei_Qlippoth")
        || str_eq(p, "/wiki/Progenie_di_Rovagug")
        || str_eq(p, "/wiki/Kaiju")
        || str_eq(p, "/wiki/Arcidiavolo")
        || str_eq(p, "/wiki/Signore_dei_Demoni")
        || str_eq(p, "/wiki/Signore_Empireo")
        || str_eq(p, "/wiki/Grande_Antico")
        || str_eq(p, "/wiki/Kyton#Kyton_Demagogo")
        || str_eq(p, "/wiki/Cavaliere_dell%27Apocalisse")
        || str_eq(p, "/wiki/File:35.png")
        || str_eq(p, "/wiki/Idolo")
        || str_eq(p, "/wiki/Azi")
}

/// Whether `p` is on the NPC database's list of links to skip.
fn check_npc_blacklist(p: &str) -> (r: bool)
    ensures
        r == on_npc_blacklist(p@),
{
    str_eq(p, "/wiki/Umano")
        || str_eq(p, "/wiki/Adepto")
        || str_eq(p, "/wiki/Combattente")
        || str_eq(p, "/wiki/Esperto")
        || str_eq(p, "/wiki/Mezzelfo")
        || str_eq(p, "/wiki/Popolano")
        || str_eq(p, "/wiki/Aristocratico")
        || str_eq(p, "/wiki/Halfling")
        || str_eq(p, "/wiki/Nano")
        || str_eq(p, "/wiki/Chierico")
        || str_eq(p, "/wiki/Ladro")
        || str_eq(p, "/wiki/Bardo")
        || str_eq(p, "/wiki/Ranger")
        || str_eq(p, "/wiki/Monaco")
        || str_eq(p, "/wiki/Druido")
        || str_eq(p, "/wiki/Mago")
        || str_eq(p, "/wiki/Barbaro")
        || str_eq(p, "/wiki/Guerriero")
        || str_eq(p, "/wiki/Paladino")
        || str_eq(p, "/wiki/Mezzorco")
        || str_eq(p, "/wiki/Stregone")
        || str_eq(p, "/wiki/Elfo")
        || str_eq(p, "/wiki/Gnomo")
        || str_eq(p, "/wiki/Investigatore")
        || str_eq(p, "/wiki/Cacciatore")
        || str_eq(p, "/wiki/Scaldo")
        || str_eq(p, "/wiki/Intrepido")
        || str_eq(p, "/wiki/Sacerdote_Guerriero")
        || str_eq(p, "/wiki/Inquisitore")
        || str_eq(p, "/wiki/Razze/Hobgoblin")
        || str_eq(p, "/wiki/Pistolero")
        || str_eq(p, "/wiki/Razze/Tengu")
        || str_eq(p, "/wiki/Cavaliere")
        || str_eq(p, "/wiki/Razze/Goblin")
        || str_eq(p, "/wiki/Fattucchiere")
        || str_eq(p, "/wiki/Alchimista")
        || str_eq(p, "/wiki/Attaccabrighe")
        || str_eq(p, "/wiki/Medium")
        || str_eq(p, "/wiki/Razze/Tiefling")
        || str_eq(p, "/wiki/Vigilante")
        || str_eq(p, "/wiki/Antipaladino")
        || str_eq(p, "/wiki/Cineta")
        || str_eq(p, "/wiki/Ghast")
        || str_eq(p, "/wiki/Predatore")
        || str_eq(p, "/wiki/Ninja")
        || str_eq(p, "/wiki/Magus")
        || str_eq(p, "/wiki/Razze/Orco")
        || str_eq(p, "/wiki/Minotauro")
        || str_eq(p, "/wiki/Occultista")
        || str_eq(p, "/wiki/Iracondo_di_Stirpe")
        || str_eq(p, "/wiki/Sciamano")
        || str_eq(p, "/wiki/Assassino")
        || str_eq(p, "/wiki/Duellante")
        || str_eq(p, "/wiki/Ombra_Danzante")
        || str_eq(p, "/wiki/Mistificatore_Arcano")
        || str_eq(p, "/wiki/Arciere_Arcano")
        || str_eq(p, "/wiki/Maestro_del_Sapere")
        || str_eq(p, "/wiki/Leshy_Fungo")
        || str_eq(p, "/wiki/Discepolo_dei_Draghi")
        || str_eq(p, "/wiki/Guerriero_Arcano")
        || str_eq(p, "/wiki/Trovatore")
        || str_eq(p, "/wiki/Teurgo_Mistico")
        || str_eq(p, "/wiki/Parapsichico")
        || str_eq(p, "/wiki/Arcanista")
        || str_eq(p, "/wiki/Nixie_di_Palude")
        || str_eq(p, "/wiki/Mesmerista")
        || str_eq(p, "/wiki/Convocatore")
        || str_eq(p, "/wiki/Cacciatore_di_Taglie")
        || str_eq(p, "/wiki/Razze/Vishkanya")
        || str_eq(p, "/wiki/Oracolo")
        || str_eq(p, "/wiki/Spiritista")
}

/// The path is on one of the two lists of links to skip.
pub open spec fn is_blacklisted(p: Seq<char>) -> bool {
    on_monster_blacklist(p) || on_npc_blacklist(p)
}

/// Whether `p` is a link to skip: one of the bestiary's family pages or one
/// of the races and classes linked from the NPC database.
pub fn check_path_against_blacklist(p: &str) -> (r: bool)
    ensures
        r == is_blacklisted(p@),
{
    check_monster_blacklist(p) || check_npc_blacklist(p)
}

// ---------------------------------------------------------------------------
// The path of one link
// ---------------------------------------------------------------------------

/// What a link yields, given the text that follows the `h` of its `href=`:
/// `None` where the text has no fifth byte boundary or no closing quote after
/// it; otherwise the path between the quotes, or `Some(None)` for a path to
/// skip (a missing page, an archetype, a listed page).
pub open spec fn spec_path_from_slice(begin: Seq<char>) -> Option<Option<Seq<char>>> {
    match char_index_of_byte(begin, 5) {
        None => None,
        Some(k) => {
            let rest = begin.subrange(k, begin.len() as int);
            match spec_find(rest, seq!['"']) {
                None => None,
                Some(e) => {
                    let res = rest.subrange(0, e);
                    if spec_contains(res, "redlink=1"@) || spec_contains(res, "Archetipo"@)
                        || is_blacklisted(res) {
                        Some(None)
                    } else {
                        Some(Some(res))
                    }
                },
            }
        },
    }
}

/// The path of a link, from the text that follows the `h` of `href=`; `None`
/// where that text is malformed, `Some(None)` for a link to skip.
pub fn try_get_path_from_slice<'a>(begin: &'a str) -> (r: Option<Option<&'a str>>)
    ensures
        match spec_path_from_slice(begin@) {
            None => r is None,
            Some(None) => r matches Some(None),
            Some(Some(p)) => r matches Some(Some(t)) && t@ == p,
        },
{
    let rest = match get_from_byte(begin, 5) {
        None => return None,
        Some(t) => t,
    };
    let v = chars_of(rest);
    let q: Vec<char> = vec!['"'];
    assert(q@ =~= seq!['"']);
    let e = match find_chars(v.as_slice(), q.as_slice()) {
        None => return None,
        Some(e) => e,
    };
    proof {
        lemma_find_some(v@, q@, e as int);
    }
    let res = rest.substring_char(0, e);
    if contains_str(res, "redlink=1") || contains_str(res, "Archetipo")
        || check_path_against_blacklist(res) {
        return Some(None);
    }
    Some(Some(res))
}

/// The path of a link, from the text that follows the `h` of `href=`, or
/// `None` for a link to skip.
pub fn get_path_from_slice<'a>(begin: &'a str) -> (r: Option<&'a str>)
    requires
        spec_path_from_slice(begin@) is Some,
    ensures
        match spec_path_from_slice(begin@) {
            Some(Some(p)) => r matches Some(t) && t@ == p,
            _ => r is None,
        },
{
    match try_get_path_from_slice(begin) {
        Some(found) => found,
        None => None,
    }
}

// ---------------------------------------------------------------------------
// The page addresses listed in a database page
// ---------------------------------------------------------------------------

/// The address every path of the wiki is appended to.
pub open spec fn wiki_base_url() -> Seq<char> {
    "https://golarion.altervista.org"@
}

/// The views of a sequence of strings.
pub open spec fn string_views(v: Seq<String>) -> Seq<Seq<char>> {
    v.map_values(|s: String| s@)
}

/// `r` with `front` put before it, when there is one.
pub open spec fn prepend(front: Seq<Seq<char>>, r: Option<Seq<Seq<char>>>) -> Option<Seq<Seq<char>>> {
    match r {
        None => None,
        Some(rest) => Some(front + rest),
    }
}

/// The addresses of the links of one table cell, in order, skipping those to
/// skip; `None` where a link is malformed.
pub open spec fn spec_cell_paths(cell: Seq<char>) -> Option<Seq<Seq<char>>>
    decreases cell.len(),
{
    match spec_find(cell, "href="@) {
        None => Some(Seq::empty()),
        Some(i) => if 0 <= i < cell.len() {
            let link = cell.subrange(i + 1, cell.len() as int);
            match spec_path_from_slice(link) {
                None => None,
                Some(found) => {
                    let front = match found {
                        Some(p) => seq![wiki_base_url() + p],
                        None => Seq::empty(),
                    };
                    prepend(front, spec_cell_paths(link))
                },
            }
        } else {
            None
        },
    }
}

/// The addresses linked from the rows of a table, starting with the text
/// just after the `<` of a row's `<tr>`: each row contributes the links of the
/// first `<td>` cell found from there, and the rows stop at the first empty
/// cell or when no `<tr>` follows.
pub open spec fn spec_rows_paths(tr: Seq<char>) -> Option<Seq<Seq<char>>>
    decreases tr.len(),
{
    let cell = spec_slice_inside_tags(tr, "<td>"@, "</td>"@).0;
    if cell.len() == 0 {
        Some(Seq::empty())
    } else {
        match spec_cell_paths(cell) {
            None => None,
            Some(found) => match spec_find(tr, "<tr>"@) {
                None => Some(found),
                Some(j) => if 0 <= j < tr.len() {
                    prepend(found, spec_rows_paths(tr.subrange(j + 1, tr.len() as int)))
                } else {
                    None
                },
            },
        }
    }
}

/// The text of the table body of a database page, from its `<tbody>` through
/// its `</tbody>`: the table is the first marked `wiki_table_filter`, else
/// the first marked `wiki_table_zebra`, and it is taken to begin 11 bytes
/// before its marker. `None` where any of these is missing.
pub open spec fn spec_table_body(body: Seq<char>) -> Option<Seq<char>> {
    let marker = match spec_find(body, "wiki_table_filter"@) {
        Some(k) => Some(k),
        None => spec_find(body, "wiki_table_zebra"@),
    };
    match marker {
        None => None,
        Some(k) => {
            let b = byte_offset(body, k);
            if b < 11 {
                None
            } else {
                match char_index_of_byte(body, b - 11) {
                    None => None,
                    Some(c) => {
                        let table = body.subrange(c, body.len() as int);
                        match spec_find(table, "<tbody>"@) {
                            None => None,
                            Some(o) => {
                                let from_body = table.subrange(o, table.len() as int);
                                match spec_find(from_body, "</tbody>"@) {
                                    None => None,
                                    Some(e) => Some(from_body.subrange(0, e + 8)),
                                }
                            },
                        }
                    },
                }
            }
        },
    }
}

/// The addresses of the pages a database page lists: the links of the rows
/// of its table body, skipping the first row (the header); `None` where the
/// page does not have that shape or a link is malformed.
pub open spec fn spec_database_paths(body: Seq<char>) -> Option<Seq<Seq<char>>> {
    match spec_table_body(body) {
        None => None,
        Some(tb) => match spec_find(tb, "<tr>"@) {
            None => None,
            Some(a) => {
                let first = tb.subrange(a + 1, tb.len() as int);
                match spec_find(first, "<tr>"@) {
                    None => None,
                    Some(f) => spec_rows_paths(first.subrange(f + 1, first.len() as int)),
                }
            },
        },
    }
}

/// Where `p` first occurs in `s`, by characters.
fn find_in(s: &str, p: &str) -> (r: Option<usize>)
    ensures
        match r {
            Some(i) => spec_find(s@, p@) == Some(i as int) && i + p@.len() <= s@.len(),
            None => spec_find(s@, p@) is None,
        },
{
    let v = chars_of(s);
    let pv = chars_of(p);
    let r = find_chars(v.as_slice(), pv.as_slice());
    if let Some(i) = r {
        proof {
            lemma_find_some(v@, pv@, i as int);
        }
    }
    r
}

/// Append the addresses of the links of `cell` to `out`; false where a link
/// is malformed.
fn push_cell_paths(cell: &str, out: &mut Vec<String>) -> (ok: bool)
    ensures
        ok == (spec_cell_paths(cell@) is Some),
        ok ==> Some(string_views(final(out)@)) == prepend(string_views(old(out)@), spec_cell_paths(cell@)),
{
    let ghost goal = prepend(string_views(out@), spec_cell_paths(cell@));
    let mut next: &str = cell;
    proof {
        reveal_strlit("href=");
        assert(Seq::<Seq<char>>::empty() + string_views(out@) =~= string_views(out@));
    }
    loop
        invariant
            goal == prepend(string_views(out@), spec_cell_paths(next@)),
            (goal is Some) == (spec_cell_paths(cell@) is Some),
            goal == prepend(string_views(old(out)@), spec_cell_paths(cell@)),
            "href="@.len() == 5,
        decreases next@.len(),
    {
        let i = match find_in(next, "href=") {
            None => {
                assert(string_views(out@) + Seq::<Seq<char>>::empty() =~= string_views(out@));
                return true;
            },
            Some(i) => i,
        };
        let n = next.unicode_len();
        let link = next.substring_char(i + 1, n);
        match try_get_path_from_slice(link) {
            None => {
                return false;
            },
            Some(found) => {
                let ghost before = string_views(out@);
                if let Some(p) = found {
                    let mut s = "https://golarion.altervista.org".to_owned();
                    s.append(p);
                    out.push(s);
                    assert(string_views(out@) =~= before + seq![wiki_base_url() + p@]);
                } else {
                    assert(string_views(out@) =~= before + Seq::<Seq<char>>::empty());
                }
                proof {
                    let front = string_views(out@).subrange(before.len() as int, string_views(out@).len() as int);
                    assert(string_views(out@) =~= before + front);
                    match spec_cell_paths(link@) {
                        None => {},
                        Some(rest) => {
                            assert(before + (front + rest) =~= string_views(out@) + rest);
                        },
                    }
                }
                next = link;
            },
        }
    }
}

/// The table body of a database page, as `spec_table_body` says.
fn table_body(body: &str) -> (r: Option<&str>)
    ensures
        match spec_table_body(body@) {
            None => r is None,
            Some(tb) => r matches Some(t) && t@ == tb,
        },
{
    let k = match find_in(body, "wiki_table_filter") {
        Some(k) => k,
        None => match find_in(body, "wiki_table_zebra") {
            Some(k) => k,
            None => return None,
        },
    };
    let v = chars_of(body);
    let bytes = body.as_bytes();
    proof {
        lemma_byte_offset_bound(v@, k as int);
        assert(bytes@.len() == bytes.len());
    }
    let b = byte_offset_of(v.as_slice(), k);
    if b < 11 {
        return None;
    }
    let table = match get_from_byte(body, b - 11) {
        None => return None,
        Some(t) => t,
    };
    let o = match find_in(table, "<tbody>") {
        None => return None,
        Some(o) => o,
    };
    let from_body = table.substring_char(o, table.unicode_len());
    let e = match find_in(from_body, "</tbody>") {
        None => return None,
        Some(e) => e,
    };
    proof {
        reveal_strlit("</tbody>");
    }
    Some(from_body.substring_char(0, e + 8))
}

/// The addresses of the pages a database page lists, as
/// `spec_database_paths` says: the wiki's address followed by the path of
/// each link of the table's rows, skipping the header row and the links to
/// skip; `None` where the page does not have that shape or a link is
/// malformed.
pub fn paths_in_database_page(body: &str) -> (r: Option<Vec<String>>)
    ensures
        match spec_database_paths(body@) {
            None => r is None,
            Some(ps) => r matches Some(v) && string_views(v@) == ps,
        },
{
    proof {
        reveal_strlit("<tr>");
    }
    let tb = match table_body(body) {
        None => return None,
        Some(t) => t,
    };
    let a = match find_in(tb, "<tr>") {
        None => return None,
        Some(a) => a,
    };
    let tb_len = tb.unicode_len();
    let first = tb.substring_char(a + 1, tb_len);
    let first_len = first.unicode_len();
    let f = match find_in(first, "<tr>") {
        None => return None,
        Some(f) => f,
    };
    let mut tr: &str = first.substring_char(f + 1, first_len);
    let ghost goal = spec_rows_paths(tr@);
    let mut out: Vec<String> = Vec::new();
    assert(Seq::<Seq<char>>::empty() + string_views(out@) =~= string_views(out@));
    assert(string_views(out@) =~= Seq::<Seq<char>>::empty());
    loop
        invariant
            goal == prepend(string_views(out@), spec_rows_paths(tr@)),
            goal == spec_database_paths(body@),
            "<tr>"@.len() == 4,
        decreases tr@.len(),
    {
        let (cell, _) = get_slice_inside_tags(tr, "<td>", "</td>");
        if cell.unicode_len() == 0 {
            assert(string_views(out@) + Seq::<Seq<char>>::empty() =~= string_views(out@));
            return Some(out);
        }
        let ghost before = string_views(out@);
        if !push_cell_paths(cell, &mut out) {
            return None;
        }
        let ghost found = spec_cell_paths(cell@).unwrap();
        let j = match find_in(tr, "<tr>") {
            None => {
                return Some(out);
            },
            Some(j) => j,
        };
        proof {
            match spec_rows_paths(tr@.subrange(j + 1, tr@.len() as int)) {
                None => {},
                Some(rest) => {
                    assert(before + (found + rest) =~= string_views(out@) + rest);
                },
            }
        }
        let tr_len = tr.unicode_len();
        tr = tr.substring_char(j + 1, tr_len);
    }
}

/// An address that a database page may yield: the wiki's address followed
/// by a path that is neither a missing page, nor an archetype, nor on a list
/// of links to skip.
pub open spec fn is_kept_address(a: Seq<char>) -> bool {
    exists|q: Seq<char>|
        #![trigger wiki_base_url() + q]
        a == wiki_base_url() + q && !spec_contains(q, "redlink=1"@) && !spec_contains(q, "Archetipo"@)
            && !is_blacklisted(q)
}

proof fn lemma_cell_paths_kept(cell: Seq<char>)
    ensures
        spec_cell_paths(cell) matches Some(ps) ==> forall|i: int| 0 <= i < ps.len() ==> is_kept_address(#[trigger] ps[i]),
    decreases cell.len(),
{
    if let Some(i) = spec_find(cell, "href="@) {
        if 0 <= i < cell.len() {
            let link = cell.subrange(i + 1, cell.len() as int);
            lemma_cell_paths_kept(link);
            if let Some(found) = spec_path_from_slice(link) {
                if let Some(p) = found {
                    assert(is_kept_address(wiki_base_url() + p));
                }
                if let Some(ps) = spec_cell_paths(cell) {
                    let front = match found {
                        Some(p) => seq![wiki_base_url() + p],
                        None => Seq::<Seq<char>>::empty(),
                    };
                    let rest = spec_cell_paths(link)->0;
                    assert(ps == front + rest);
                    assert forall|k: int| 0 <= k < ps.len() implies is_kept_address(#[trigger] ps[k]) by {
                        if k >= front.len() {
                            assert(ps[k] == rest[k - front.len()]);
                        }
                    }
                }
            }
        }
    }
}

proof fn lemma_rows_paths_kept(tr: Seq<char>)
    ensures
        spec_rows_paths(tr) matches Some(ps) ==> forall|i: int| 0 <= i < ps.len() ==> is_kept_address(#[trigger] ps[i]),
    decreases tr.len(),
{
    let cell = spec_slice_inside_tags(tr, "<td>"@, "</td>"@).0;
    if cell.len() != 0 {
        lemma_cell_paths_kept(cell);
        if let (Some(found), Some(j)) = (spec_cell_paths(cell), spec_find(tr, "<tr>"@)) {
            if 0 <= j < tr.len() {
                let next = tr.subrange(j + 1, tr.len() as int);
                lemma_rows_paths_kept(next);
                if let Some(ps) = spec_rows_paths(tr) {
                    let rest = spec_rows_paths(next)->0;
                    assert(ps == found + rest);
                    assert forall|k: int| 0 <= k < ps.len() implies is_kept_address(#[trigger] ps[k]) by {
                        if k >= found.len() {
                            assert(ps[k] == rest[k - found.len()]);
                        } else {
                            assert(ps[k] == found[k]);
                        }
                    }
                }
            }
        }
    }
}

/// Every address read from a database page is the wiki's address followed
/// by a path that is not a missing page, not an archetype and not on a list
/// of links to skip.
pub proof fn lemma_database_paths_kept(body: Seq<char>)
    ensures
        spec_database_paths(body) matches Some(ps) ==> forall|i: int| 0 <= i < ps.len() ==> is_kept_address(#[trigger] ps[i]),
{
    if let Some(tb) = spec_table_body(body) {
        if let Some(a) = spec_find(tb, "<tr>"@) {
            let first = tb.subrange(a + 1, tb.len() as int);
            if let Some(f) = spec_find(first, "<tr>"@) {
                lemma_rows_paths_kept(first.subrange(f + 1, first.len() as int));
            }
        }
    }
}

// ---------------------------------------------------------------------------
// Sharing the page downloads out
// ---------------------------------------------------------------------------

/// How many workers the page downloads are shared among.
pub const FETCH_WORKERS: usize = 32;

/// The ranges of page indices handed out for download when there are `n`
/// pages: one equal section for each worker, `n / FETCH_WORKERS` pages each,
/// then the `n % FETCH_WORKERS` pages left over.
pub open spec fn spec_fetch_sections(n: nat) -> Seq<(int, int)> {
    let len = n / (FETCH_WORKERS as nat);
    Seq::new(
        (FETCH_WORKERS + 1) as nat,
        |i: int|
            if i < FETCH_WORKERS {
                (i * len, (i + 1) * len)
            } else {
                (n - n % (FETCH_WORKERS as nat), n as int)
            },
    )
}

/// The sections of `n` pages, as `spec_fetch_sections` says.
pub fn fetch_sections(n: usize) -> (r: Vec<(usize, usize)>)
    ensures
        r@.len() == spec_fetch_sections(n as nat).len(),
        forall|i: int|
            0 <= i < r@.len() ==> (r@[i].0 as int, r@[i].1 as int) == #[trigger] spec_fetch_sections(
                n as nat,
            )[i],
{
    let len = n / FETCH_WORKERS;
    let mut r: Vec<(usize, usize)> = Vec::new();
    let mut i: usize = 0;
    while i < FETCH_WORKERS
        invariant
            i <= FETCH_WORKERS,
            len == n / FETCH_WORKERS,
            r@.len() == i,
            forall|m: int|
                0 <= m < i ==> (r@[m].0 as int, r@[m].1 as int) == #[trigger] spec_fetch_sections(
                    n as nat,
                )[m],
        decreases FETCH_WORKERS - i,
    {
        assert((i + 1) * len <= n) by (nonlinear_arith)
            requires
                i < 32,
                len == n / 32,
        ;
        assert(i * len <= (i + 1) * len) by (nonlinear_arith);
        r.push((i * len, (i + 1) * len));
        i = i + 1;
    }
    r.push((n - n % FETCH_WORKERS, n));
    r
}

/// The download sections cover the pages in order, each starting where the
/// one before ends: from the first page to the last, with none left out or
/// fetched twice.
pub proof fn lemma_fetch_sections_cover(n: nat)
    ensures
        spec_fetch_sections(n)[0].0 == 0,
        spec_fetch_sections(n)[FETCH_WORKERS as int].1 == n,
        forall|i: int|
            0 <= i < FETCH_WORKERS ==> #[trigger] spec_fetch_sections(n)[i].1 == spec_fetch_sections(
                n,
            )[i + 1].0,
        forall|i: int|
            0 <= i <= FETCH_WORKERS ==> #[trigger] spec_fetch_sections(n)[i].0
                <= spec_fetch_sections(n)[i].1,
{
    let len = n / 32;
    assert(32 * len == n - n % 32) by (nonlinear_arith)
        requires
            len == n / 32,
    ;
    assert forall|i: int| 0 <= i < FETCH_WORKERS implies #[trigger] spec_fetch_sections(n)[i].1
        == spec_fetch_sections(n)[i + 1].0 by {
        if i + 1 == 32 {
            assert((i + 1) * len == 32 * len);
        }
    }
    assert forall|i: int| 0 <= i <= FETCH_WORKERS implies #[trigger] spec_fetch_sections(n)[i].0
        <= spec_fetch_sections(n)[i].1 by {
        if i < 32 {
            assert(i * len <= (i + 1) * len) by (nonlinear_arith)
                requires
                    len >= 0,
            ;
        }
    }
}

} // verus!
