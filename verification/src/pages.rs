use vstd::prelude::*;

use crate::parse_util::{
    byte_offset, byte_offset_of, clear_all_tags, empty_str, get_slice_inside_tags, get_until,
    skip_to, spec_clear_all_tags, spec_clear_tag, spec_get_until, spec_skip_to,
    spec_slice_inside_tags, try_clear_tag,
};
use crate::text::{
    chars_of, find_chars, lemma_find_some, rfind_chars, spec_find, spec_rfind, spec_trim, trim_str,
};

verus! {

broadcast use vstd::string::group_string_axioms;

/// The text blocks of a monster page, with the tags removed.
#[derive(Debug)]
pub struct Mob_Page {
    pub page_addr: String,
    pub header: String,
    pub origin: String,
    pub class: String,
    pub misc: String,
    pub defense: String,
    pub attack: String,
    pub stats: String,
    pub special: String,
    pub ecology: String,
    pub desc: String,
    pub source: String,
}

/// The text blocks of an NPC page, with the tags removed.
#[derive(Debug)]
pub struct NPC_Page {
    pub page_addr: String,
    pub header: String,
    pub origin: String,
    pub class: String,
    pub misc: String,
    pub defense: String,
    pub attack: String,
    pub tactics: String,
    pub stats: String,
    pub special: String,
    pub desc: String,
    pub source: String,
}

/// A monster page as sequences of characters.
pub struct MobPageModel {
    pub page_addr: Seq<char>,
    pub header: Seq<char>,
    pub origin: Seq<char>,
    pub class: Seq<char>,
    pub misc: Seq<char>,
    pub defense: Seq<char>,
    pub attack: Seq<char>,
    pub stats: Seq<char>,
    pub special: Seq<char>,
    pub ecology: Seq<char>,
    pub desc: Seq<char>,
    pub source: Seq<char>,
}

/// An NPC page as sequences of characters.
pub struct NpcPageModel {
    pub page_addr: Seq<char>,
    pub header: Seq<char>,
    pub origin: Seq<char>,
    pub class: Seq<char>,
    pub misc: Seq<char>,
    pub defense: Seq<char>,
    pub attack: Seq<char>,
    pub tactics: Seq<char>,
    pub stats: Seq<char>,
    pub special: Seq<char>,
    pub desc: Seq<char>,
    pub source: Seq<char>,
}

impl View for Mob_Page {
    type V = MobPageModel;

    open spec fn view(&self) -> MobPageModel {
        MobPageModel {
            page_addr: self.page_addr@,
            header: self.header@,
            origin: self.origin@,
            class: self.class@,
            misc: self.misc@,
            defense: self.defense@,
            attack: self.attack@,
            stats: self.stats@,
            special: self.special@,
            ecology: self.ecology@,
            desc: self.desc@,
            source: self.source@,
        }
    }
}

impl View for NPC_Page {
    type V = NpcPageModel;

    open spec fn view(&self) -> NpcPageModel {
        NpcPageModel {
            page_addr: self.page_addr@,
            header: self.header@,
            origin: self.origin@,
            class: self.class@,
            misc: self.misc@,
            defense: self.defense@,
            attack: self.attack@,
            tactics: self.tactics@,
            stats: self.stats@,
            special: self.special@,
            desc: self.desc@,
            source: self.source@,
        }
    }
}

/// `s` trimmed when it is not empty.
pub open spec fn trim_if_any(s: Seq<char>) -> Seq<char> {
    if s.len() != 0 {
        spec_trim(s)
    } else {
        s
    }
}

/// The blocks cleared of tags when the block is not empty.
pub open spec fn clear_if_any(s: Seq<char>) -> Seq<char> {
    if s.len() != 0 {
        spec_clear_all_tags(s)
    } else {
        Seq::empty()
    }
}

pub open spec fn collapsed_div() -> Seq<char> {
    "<div class=\"mw-collapsible mw-collapsed\">"@
}

/// The monster page found at the start of `page`, and what follows it
/// (trimmed).
#[verifier::opaque]
pub open spec fn spec_get_mob_page(page: Seq<char>, addr: Seq<char>) -> (MobPageModel, Seq<char>) {
    let (header, p1) = spec_slice_inside_tags(page, "<h1>"@, "</h1>"@);
    let (race_pre, p2) = spec_slice_inside_tags(p1, collapsed_div(), "</div>"@);
    let (origin_info, race_class_info) = spec_get_until(race_pre, "<br /><i>"@);
    let (misc, p3) = spec_slice_inside_tags(p2, "<p>"@, "</p>"@);
    let p4 = spec_skip_to(p3, "id=\"Difesa"@);
    let (defense, p5) = spec_slice_inside_tags(p4, "<p>"@, "</p>"@);
    let p6 = spec_skip_to(p5, "id=\"Attacco"@);
    let (attack, p7) = spec_slice_inside_tags(p6, "<p>"@, "<h2>"@);
    let p8 = spec_skip_to(p7, "id=\"Statistiche"@);
    let (stats, next8) = spec_slice_inside_tags(p8, "<p>"@, "</p>"@);
    let p9 = spec_skip_to(next8, "id=\"Capacità_Speciali"@);
    let (specials, p10) = if p9.len() == 0 {
        (Seq::<char>::empty(), spec_skip_to(next8, "id=\"Ecologia"@))
    } else {
        spec_slice_inside_tags(p9, "<h3>"@, "<h2><span class=\"mw-headline\" id=\"Ecologia"@)
    };
    let (ecology, p11) = spec_slice_inside_tags(p10, "<p>"@, "</p>"@);
    let p12 = spec_skip_to(p11, "id=\"Descrizione"@);
    let (desc, p13) = spec_slice_inside_tags(p12, "</h2>"@, "<hr />"@);
    let (source, next) = spec_slice_inside_tags(p13, "<p>"@, "</p>"@);
    (
        MobPageModel {
            page_addr: addr,
            header: spec_clear_all_tags(header),
            origin: trim_if_any(spec_clear_all_tags(origin_info)),
            class: spec_clear_all_tags(race_class_info),
            misc: spec_clear_all_tags(misc),
            defense: spec_clear_all_tags(defense),
            attack: spec_clear_all_tags(attack),
            stats: spec_clear_all_tags(stats),
            special: clear_if_any(specials),
            ecology: spec_clear_all_tags(ecology),
            desc: trim_if_any(spec_clear_all_tags(desc)),
            source: spec_clear_all_tags(source),
        },
        spec_trim(next),
    )
}

fn trim_string_if_any(s: String) -> (r: String)
    ensures
        r@ == trim_if_any(s@),
{
    if s.as_str().unicode_len() != 0 {
        trim_str(s.as_str()).to_owned()
    } else {
        s
    }
}

fn clear_block_if_any(s: &str) -> (r: String)
    ensures
        r@ == clear_if_any(s@),
{
    if s.unicode_len() != 0 {
        clear_all_tags(s)
    } else {
        String::new()
    }
}

/// Split a monster page into its blocks; also returns what follows the page.
pub fn get_mob_page(orig_mob_page: &str, page_addr: String) -> (r: (Mob_Page, &str))
    ensures
        (r.0@, r.1@) == spec_get_mob_page(orig_mob_page@, page_addr@),
{
    reveal(spec_get_mob_page);
    let mob_page = orig_mob_page;
    let (mob_header, next) = get_slice_inside_tags(mob_page, "<h1>", "</h1>");
    let mob_page = next;
    let (race_class_info_pre, next) = get_slice_inside_tags(
        mob_page,
        "<div class=\"mw-collapsible mw-collapsed\">",
        "</div>",
    );
    let mob_page = next;
    let (origin_info, race_class_info) = get_until(race_class_info_pre, "<br /><i>");
    let (misc_info, next) = get_slice_inside_tags(mob_page, "<p>", "</p>");
    let mob_page = next;
    let mob_page = skip_to(mob_page, "id=\"Difesa");
    let (defense_block, next) = get_slice_inside_tags(mob_page, "<p>", "</p>");
    let mob_page = next;
    let mob_page = skip_to(mob_page, "id=\"Attacco");
    let (attack_block, next) = get_slice_inside_tags(mob_page, "<p>", "<h2>");
    let mob_page = next;
    let mob_page = skip_to(mob_page, "id=\"Statistiche");
    let (stats_block, next) = get_slice_inside_tags(mob_page, "<p>", "</p>");
    let mob_page = next;
    let mut specials_block: &str = empty_str();
    let mut mob_page = skip_to(mob_page, "id=\"Capacità_Speciali");
    if mob_page.unicode_len() == 0 {
        mob_page = skip_to(next, "id=\"Ecologia");
    } else {
        let (specials_block_tmp, next_tmp) = get_slice_inside_tags(
            mob_page,
            "<h3>",
            "<h2><span class=\"mw-headline\" id=\"Ecologia",
        );
        specials_block = specials_block_tmp;
        mob_page = next_tmp;
    }
    let (ecology_block, next) = get_slice_inside_tags(mob_page, "<p>", "</p>");
    let mob_page = next;
    let mob_page = skip_to(mob_page, "id=\"Descrizione");
    let (desc_block, next) = get_slice_inside_tags(mob_page, "</h2>", "<hr />");
    let mob_page = next;
    let (source_block, next) = get_slice_inside_tags(mob_page, "<p>", "</p>");

    let head = clear_all_tags(mob_header);
    let origin = trim_string_if_any(clear_all_tags(origin_info));
    let class = clear_all_tags(race_class_info);
    let misc = clear_all_tags(misc_info);
    let defense = clear_all_tags(defense_block);
    let attack = clear_all_tags(attack_block);
    let stats = clear_all_tags(stats_block);
    let specials = clear_block_if_any(specials_block);
    let ecology = clear_all_tags(ecology_block);
    let desc = trim_string_if_any(clear_all_tags(desc_block));
    let source = clear_all_tags(source_block);

    let res = Mob_Page {
        page_addr: page_addr,
        header: head,
        origin: origin,
        class: class,
        misc: misc,
        defense: defense,
        attack: attack,
        stats: stats,
        special: specials,
        ecology: ecology,
        desc: desc,
        source: source,
    };
    (res, trim_str(next))
}

/// The split of the race and class block of an NPC page into origin and class
/// when there is no `<br /><i>` marker: whatever comes before
/// `<b>Allineamento` is the origin when it starts more than three bytes in.
/// `None` when that marker is missing too.
pub open spec fn spec_npc_origin_class(race_pre: Seq<char>) -> Option<(Seq<char>, Seq<char>)> {
    let (origin_info, race_class_info) = spec_get_until(race_pre, "<br /><i>"@);
    if origin_info.len() != 0 {
        Some((origin_info, race_class_info))
    } else {
        match spec_find(race_pre, "<b>Allineamento"@) {
            None => None,
            Some(a) => if byte_offset(race_pre, a) > 3 {
                Some((race_pre.subrange(0, a), race_pre.subrange(a, race_pre.len() as int)))
            } else {
                Some((origin_info, race_pre))
            },
        }
    }
}

/// The NPC page found at the start of `page`; `None` where the race and class
/// block has neither `<br /><i>` before its class nor `<b>Allineamento`.
#[verifier::opaque]
pub open spec fn spec_get_npc_page(page: Seq<char>, addr: Seq<char>) -> Option<NpcPageModel> {
    let (header, p1) = spec_slice_inside_tags(page, "<h1>"@, "</h1>"@);
    let (race_pre, p2) = spec_slice_inside_tags(p1, collapsed_div(), "</div>"@);
    match spec_npc_origin_class(race_pre) {
        None => None,
        Some((origin_info, race_class_info)) => {
            let (misc, p3) = spec_slice_inside_tags(p2, "<p>"@, "</p>"@);
            let p4 = spec_skip_to(p3, "id=\"Difesa"@);
            let (defense, p5) = spec_slice_inside_tags(p4, "<p>"@, "</p>"@);
            let p6 = spec_skip_to(p5, "id=\"Attacco"@);
            let (attack, next6) = spec_slice_inside_tags(p6, "<p>"@, "<h2>"@);
            let p7 = spec_skip_to(next6, "id=\"Tattiche"@);
            let (tactics, p8) = if p7.len() != 0 {
                spec_slice_inside_tags(p7, "<p>"@, "<h2>"@)
            } else {
                (Seq::<char>::empty(), next6)
            };
            let p9 = spec_skip_to(p8, "id=\"Statistiche"@);
            let (stats, next9) = spec_slice_inside_tags(p9, "<p>"@, "</p>"@);
            let p10 = spec_skip_to(next9, "id=\"Capacità_Speciali"@);
            let (specials, p11) = if p10.len() != 0 {
                spec_slice_inside_tags(
                    p10,
                    "<h3>"@,
                    "<h2><span class=\"mw-headline\" id=\"Descrizione"@,
                )
            } else {
                (Seq::<char>::empty(), next9)
            };
            let p12 = spec_skip_to(p11, "id=\"Descrizione"@);
            let (desc, p13) = if p12.len() != 0 {
                spec_slice_inside_tags(p12, "</h2>"@, "<hr />"@)
            } else {
                (Seq::<char>::empty(), next9)
            };
            let p14 = spec_skip_to(p13, "<p>Fonte:"@);
            let (source, _rest) = spec_get_until(p14, "</p>"@);
            Some(
                NpcPageModel {
                    page_addr: addr,
                    header: spec_clear_all_tags(header),
                    origin: trim_if_any(spec_clear_all_tags(origin_info)),
                    class: spec_clear_all_tags(race_class_info),
                    misc: spec_clear_all_tags(misc),
                    defense: spec_clear_all_tags(defense),
                    attack: spec_clear_all_tags(attack),
                    tactics: spec_clear_all_tags(tactics),
                    stats: spec_clear_all_tags(stats),
                    special: clear_if_any(specials),
                    desc: trim_if_any(spec_clear_all_tags(desc)),
                    source: spec_clear_all_tags(source),
                },
            )
        },
    }
}

fn npc_origin_class<'a>(race_class_info_pre: &'a str) -> (r: Option<(&'a str, &'a str)>)
    ensures
        match spec_npc_origin_class(race_class_info_pre@) {
            None => r is None,
            Some((o, c)) => r matches Some((x, y)) && x@ == o && y@ == c,
        },
{
    let (origin_info, race_class_info) = get_until(race_class_info_pre, "<br /><i>");
    if origin_info.unicode_len() != 0 {
        return Some((origin_info, race_class_info));
    }
    let pre = chars_of(race_class_info_pre);
    let marker = chars_of("<b>Allineamento");
    let n = pre.len();
    match find_chars(pre.as_slice(), marker.as_slice()) {
        None => None,
        Some(a) => {
            let bytes = race_class_info_pre.as_bytes();
            proof {
                lemma_find_some(pre@, marker@, a as int);
                crate::parse_util::lemma_byte_offset_bound(pre@, a as int);
                assert(bytes@.len() == bytes.len());
            }
            let align_index = byte_offset_of(pre.as_slice(), a);
            if align_index > 3 {
                Some((race_class_info_pre.substring_char(0, a), race_class_info_pre.substring_char(a, n)))
            } else {
                Some((origin_info, race_class_info_pre))
            }
        },
    }
}

/// `get_npc_page`, or `None` where the race and class block has neither
/// `<br /><i>` nor `<b>Allineamento`.
pub fn try_get_npc_page(orig_npc_page: &str, page_addr: String) -> (r: Option<NPC_Page>)
    ensures
        match spec_get_npc_page(orig_npc_page@, page_addr@) {
            None => r is None,
            Some(m) => r matches Some(p) && p@ == m,
        },
{
    reveal(spec_get_npc_page);
    let npc_page = orig_npc_page;
    let (npc_header, next) = get_slice_inside_tags(npc_page, "<h1>", "</h1>");
    let npc_page = next;
    let (race_class_info_pre, next) = get_slice_inside_tags(
        npc_page,
        "<div class=\"mw-collapsible mw-collapsed\">",
        "</div>",
    );
    let npc_page = next;
    let (origin_info, race_class_info) = match npc_origin_class(race_class_info_pre) {
        None => {
            return None;
        },
        Some(p) => p,
    };
    let (misc_info, next) = get_slice_inside_tags(npc_page, "<p>", "</p>");
    let npc_page = next;
    let npc_page = skip_to(npc_page, "id=\"Difesa");
    let (defense_block, next) = get_slice_inside_tags(npc_page, "<p>", "</p>");
    let npc_page = next;
    let npc_page = skip_to(npc_page, "id=\"Attacco");
    let (attack_block, next) = get_slice_inside_tags(npc_page, "<p>", "<h2>");
    let npc_page = next;
    let mut tactics_block: &str = empty_str();
    let mut npc_page = skip_to(npc_page, "id=\"Tattiche");
    if npc_page.unicode_len() != 0 {
        let (tactics_block_tmp, next_tmp) = get_slice_inside_tags(npc_page, "<p>", "<h2>");
        tactics_block = tactics_block_tmp;
        npc_page = next_tmp;
    } else {
        npc_page = next;
    }
    let npc_page = skip_to(npc_page, "id=\"Statistiche");
    let (stats_block, next) = get_slice_inside_tags(npc_page, "<p>", "</p>");
    let npc_page = next;
    let mut specials_block: &str = empty_str();
    let mut npc_page = skip_to(npc_page, "id=\"Capacità_Speciali");
    if npc_page.unicode_len() != 0 {
        let (specials_block_tmp, next_tmp) = get_slice_inside_tags(
            npc_page,
            "<h3>",
            "<h2><span class=\"mw-headline\" id=\"Descrizione",
        );
        specials_block = specials_block_tmp;
        npc_page = next_tmp;
    } else {
        npc_page = next;
    }
    let mut desc_block: &str = empty_str();
    let mut npc_page = skip_to(npc_page, "id=\"Descrizione");
    if npc_page.unicode_len() != 0 {
        let (desc_block_tmp, next_tmp) = get_slice_inside_tags(npc_page, "</h2>", "<hr />");
        desc_block = desc_block_tmp;
        npc_page = next_tmp;
    } else {
        npc_page = next;
    }
    let npc_page = skip_to(npc_page, "<p>Fonte:");
    let (source_block, _next) = get_until(npc_page, "</p>");

    let head = clear_all_tags(npc_header);
    let origin = trim_string_if_any(clear_all_tags(origin_info));
    let class = clear_all_tags(race_class_info);
    let misc = clear_all_tags(misc_info);
    let defense = clear_all_tags(defense_block);
    let attack = clear_all_tags(attack_block);
    let tactics = clear_all_tags(tactics_block);
    let stats = clear_all_tags(stats_block);
    let specials = clear_block_if_any(specials_block);
    let desc = trim_string_if_any(clear_all_tags(desc_block));
    let source = clear_all_tags(source_block);

    Some(
        NPC_Page {
            page_addr: page_addr,
            header: head,
            origin: origin,
            class: class,
            misc: misc,
            defense: defense,
            attack: attack,
            tactics: tactics,
            stats: stats,
            special: specials,
            desc: desc,
            source: source,
        },
    )
}

/// Split an NPC page into its blocks.
pub fn get_npc_page(orig_npc_page: &str, page_addr: String) -> (r: NPC_Page)
    requires
        spec_get_npc_page(orig_npc_page@, page_addr@) is Some,
    ensures
        r@ == spec_get_npc_page(orig_npc_page@, page_addr@)->0,
{
    let ghost addr = page_addr@;
    match try_get_npc_page(orig_npc_page, page_addr) {
        Some(p) => p,
        None => {
            assert(false);
            NPC_Page {
                page_addr: String::new(),
                header: String::new(),
                origin: String::new(),
                class: String::new(),
                misc: String::new(),
                defense: String::new(),
                attack: String::new(),
                tactics: String::new(),
                stats: String::new(),
                special: String::new(),
                desc: String::new(),
                source: String::new(),
            }
        },
    }
}

pub open spec fn toc_div() -> Seq<char> {
    "<div class=\"toccolours mw-collapsible-content\""@
}

/// The views of a sequence of monster pages.
pub open spec fn mob_views(v: Seq<Mob_Page>) -> Seq<MobPageModel> {
    v.map_values(|p: Mob_Page| p@)
}

/// The views of a sequence of NPC pages.
pub open spec fn npc_views(v: Seq<NPC_Page>) -> Seq<NpcPageModel> {
    v.map_values(|p: NPC_Page| p@)
}

/// The monster pages of a wiki page body: from the first `<h1>` up to the
/// next `<!--`, with the table of contents removed; a second page follows
/// when more than three bytes are left after the first. No page when there
/// is no `<h1>`; `None` when there is no `<!--` after it or a table of
/// contents cannot be removed.
pub open spec fn spec_mob_page_array(body: Seq<char>, path: Seq<char>) -> Option<Seq<MobPageModel>> {
    match spec_find(body, "<h1>"@) {
        None => Some(Seq::empty()),
        Some(b) => {
            let begin = body.subrange(b, body.len() as int);
            match spec_find(begin, "<!--"@) {
                None => None,
                Some(e) => match spec_clear_tag(begin.subrange(0, e), toc_div(), "</div>"@) {
                    None => None,
                    Some(page) => {
                        let (one, maybe_next) = spec_get_mob_page(page, path);
                        if vstd::utf8::encode_utf8(maybe_next).len() > 3 {
                            match spec_clear_tag(maybe_next, toc_div(), "</div>"@) {
                                None => None,
                                Some(p2) => Some(seq![one, spec_get_mob_page(p2, path).0]),
                            }
                        } else {
                            Some(seq![one])
                        }
                    },
                },
            }
        },
    }
}

/// `get_mob_page_array`, or `None` where the body has an `<h1>` but no
/// `<!--` after it, or a table of contents cannot be removed.
pub fn try_get_mob_page_array(mob_body_opt: &str, page_path: &str) -> (r: Option<Vec<Mob_Page>>)
    ensures
        match spec_mob_page_array(mob_body_opt@, page_path@) {
            None => r is None,
            Some(m) => r matches Some(v) && mob_views(v@) == m,
        },
{
    let body = chars_of(mob_body_opt);
    let n = body.len();
    let h1 = chars_of("<h1>");
    let comment = chars_of("<!--");
    let offset_begin = match find_chars(body.as_slice(), h1.as_slice()) {
        None => {
            let v: Vec<Mob_Page> = Vec::new();
            assert(mob_views(v@) =~= Seq::<MobPageModel>::empty());
            return Some(v);
        },
        Some(b) => b,
    };
    proof {
        lemma_find_some(body@, h1@, offset_begin as int);
    }
    let begin_mob = mob_body_opt.substring_char(offset_begin, n);
    let begin_chars = chars_of(begin_mob);
    let offset_end = match find_chars(begin_chars.as_slice(), comment.as_slice()) {
        None => {
            return None;
        },
        Some(e) => e,
    };
    let bn = begin_chars.len();
    proof {
        lemma_find_some(begin_chars@, comment@, offset_end as int);
    }
    let mob_page_tmp = begin_mob.substring_char(0, offset_end);
    let mob_page = match try_clear_tag(
        mob_page_tmp,
        "<div class=\"toccolours mw-collapsible-content\"",
        "</div>",
    ) {
        None => {
            return None;
        },
        Some(p) => p,
    };
    let (page_one, maybe_next) = get_mob_page(mob_page.as_str(), page_path.to_owned());
    let mut pages: Vec<Mob_Page> = Vec::new();
    pages.push(page_one);
    let next_bytes = maybe_next.as_bytes();
    if next_bytes.len() > 3 {
        let maybe_next_page = match try_clear_tag(
            maybe_next,
            "<div class=\"toccolours mw-collapsible-content\"",
            "</div>",
        ) {
            None => {
                return None;
            },
            Some(p) => p,
        };
        let (page_two, _) = get_mob_page(maybe_next_page.as_str(), page_path.to_owned());
        pages.push(page_two);
        assert(mob_views(pages@) =~= seq![pages@[0]@, pages@[1]@]);
    } else {
        assert(mob_views(pages@) =~= seq![pages@[0]@]);
    }
    Some(pages)
}

/// The monster pages of a wiki page body (see `spec_mob_page_array`).
pub fn get_mob_page_array(mob_body_opt: &str, page_path: &str) -> (r: Vec<Mob_Page>)
    requires
        spec_mob_page_array(mob_body_opt@, page_path@) is Some,
    ensures
        mob_views(r@) == spec_mob_page_array(mob_body_opt@, page_path@)->0,
{
    match try_get_mob_page_array(mob_body_opt, page_path) {
        Some(v) => v,
        None => Vec::new(),
    }
}

/// The NPC pages of a wiki page body: one from the first `<h1>`, and, when
/// there is a later `<h1>`, one from there; each runs up to the next `<!--`
/// (the first one, when there are two, up to the second `<h1>`) and has its
/// table of contents removed. `None` where there is no `<h1>`, a `<!--` is
/// missing, a table of contents cannot be removed, or a page cannot be split.
pub open spec fn spec_npc_page_array(body: Seq<char>, path: Seq<char>) -> Option<Seq<NpcPageModel>> {
    match (spec_find(body, "<h1>"@), spec_rfind(body, "<h1>"@)) {
        (Some(f), Some(sec)) => if sec > f {
            match spec_clear_tag(body.subrange(f, sec), toc_div(), "</div>"@) {
                None => None,
                Some(page1) => {
                    let second = body.subrange(sec, body.len() as int);
                    match spec_find(second, "<!--"@) {
                        None => None,
                        Some(e) => match spec_clear_tag(second.subrange(0, e), toc_div(), "</div>"@) {
                            None => None,
                            Some(page2) => match (
                                spec_get_npc_page(page1, path),
                                spec_get_npc_page(page2, path),
                            ) {
                                (Some(one), Some(two)) => Some(seq![one, two]),
                                _ => None,
                            },
                        },
                    }
                },
            }
        } else {
            let begin = body.subrange(f, body.len() as int);
            match spec_find(begin, "<!--"@) {
                None => None,
                Some(e) => match spec_clear_tag(begin.subrange(0, e), toc_div(), "</div>"@) {
                    None => None,
                    Some(page) => match spec_get_npc_page(page, path) {
                        None => None,
                        Some(one) => Some(seq![one]),
                    },
                },
            }
        },
        _ => None,
    }
}

fn npc_page_up_to_comment(text: &str, path: &str) -> (r: Option<NPC_Page>)
    ensures
        match spec_find(text@, "<!--"@) {
            None => r is None,
            Some(e) => match spec_clear_tag(text@.subrange(0, e), toc_div(), "</div>"@) {
                None => r is None,
                Some(page) => match spec_get_npc_page(page, path@) {
                    None => r is None,
                    Some(m) => r matches Some(p) && p@ == m,
                },
            },
        },
{
    let chars = chars_of(text);
    let comment = chars_of("<!--");
    let e = match find_chars(chars.as_slice(), comment.as_slice()) {
        None => {
            return None;
        },
        Some(e) => e,
    };
    proof {
        lemma_find_some(chars@, comment@, e as int);
    }
    let piece = text.substring_char(0, e);
    let page = match try_clear_tag(piece, "<div class=\"toccolours mw-collapsible-content\"", "</div>") {
        None => {
            return None;
        },
        Some(p) => p,
    };
    try_get_npc_page(page.as_str(), path.to_owned())
}

/// `get_npc_page_array`, or `None` where it cannot split the body (see
/// `spec_npc_page_array`).
pub fn try_get_npc_page_array(mob_body_opt: &str, page_path: &str) -> (r: Option<Vec<NPC_Page>>)
    ensures
        match spec_npc_page_array(mob_body_opt@, page_path@) {
            None => r is None,
            Some(m) => r matches Some(v) && npc_views(v@) == m,
        },
{
    let body = chars_of(mob_body_opt);
    let n = body.len();
    let h1 = chars_of("<h1>");
    let offset_begin = match find_chars(body.as_slice(), h1.as_slice()) {
        None => {
            return None;
        },
        Some(b) => b,
    };
    let second_begin = rfind_chars(body.as_slice(), h1.as_slice());
    proof {
        lemma_find_some(body@, h1@, offset_begin as int);
        crate::text::lemma_rfind_facts(body@, h1@);
    }
    let second = match second_begin {
        Some(s) => s,
        None => {
            assert(false);
            return None;
        },
    };
    let mut pages: Vec<NPC_Page> = Vec::new();
    if second > offset_begin {
        let first_text = mob_body_opt.substring_char(offset_begin, second);
        let page1 = match try_clear_tag(
            first_text,
            "<div class=\"toccolours mw-collapsible-content\"",
            "</div>",
        ) {
            None => {
                return None;
            },
            Some(p) => p,
        };
        let second_text = mob_body_opt.substring_char(second, n);
        let two = match npc_page_up_to_comment(second_text, page_path) {
            None => {
                return None;
            },
            Some(p) => p,
        };
        let one = match try_get_npc_page(page1.as_str(), page_path.to_owned()) {
            None => {
                return None;
            },
            Some(p) => p,
        };
        pages.push(one);
        pages.push(two);
        assert(npc_views(pages@) =~= seq![pages@[0]@, pages@[1]@]);
    } else {
        let begin_text = mob_body_opt.substring_char(offset_begin, n);
        let one = match npc_page_up_to_comment(begin_text, page_path) {
            None => {
                return None;
            },
            Some(p) => p,
        };
        pages.push(one);
        assert(npc_views(pages@) =~= seq![pages@[0]@]);
    }
    Some(pages)
}

/// The NPC pages of a wiki page body (see `spec_npc_page_array`).
pub fn get_npc_page_array(mob_body_opt: &str, page_path: &str) -> (r: Vec<NPC_Page>)
    requires
        spec_npc_page_array(mob_body_opt@, page_path@) is Some,
    ensures
        npc_views(r@) == spec_npc_page_array(mob_body_opt@, page_path@)->0,
{
    match try_get_npc_page_array(mob_body_opt, page_path) {
        Some(v) => v,
        None => Vec::new(),
    }
}

} // verus!
