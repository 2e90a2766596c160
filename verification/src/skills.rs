use vstd::prelude::*;

use crate::text::{chars_eq, chars_of};

verus! {

/// Bits a skill code takes.
pub const SKILLS_BITS: u64 = 7;

/// The skills, numbered from 0 in this order (`code`).
#[derive(Debug, PartialEq, Eq, Structural, Clone, Copy)]
pub enum Skill_Names {
    Acrobazia,
    Saltare,
    Saltare2,
    Addestrare,
    Artigianato,
    Alchimia,
    Calligrafia,
    Carpenteria,
    Ceramica,
    CostruireArchi,
    CostruireNavi,
    CostruireTrappole,
    CostruireTrappole2,
    FabbricareArmature,
    FabbricareArmi,
    Ferramenta,
    IntessereCeste,
    LavorarePellami,
    LavoriInMuratura,
    Metallurgia,
    Pittura,
    Oreficeria,
    RilegareLibri,
    RiparareScarpe,
    Scultura,
    Tessitura,
    Artista,
    Camuffare,
    Cavalcare,
    Conoscenze,
    Conoscenze_Arcane,
    Conoscenze_Arcane2,
    Conoscenze_Dungeon,
    Conoscenze_Geografia,
    Conoscenze_Ingegneria,
    Conoscenze_Locali,
    Conoscenze_Locali2,
    Conoscenze_Natura,
    Conoscenze_Nobilt,
    Conoscenze_Piani,
    Conoscenze_Religioni,
    Conoscenze_Religioni2,
    Conoscenze_Storia,
    Diplomazia,
    Disattivare,
    Furtivit,
    Guarire,
    Intimidire,
    Intrattenere,
    Canto,
    Cantare,
    Commedia,
    Danza,
    Oratoria,
    Recitazione,
    Strumenti_Corda,
    Strumenti_Fiato,
    Strumenti_Percussione,
    Strumenti_Tastiera,
    Intuizione,
    Linguistica,
    Nuotare,
    Percezione,
    Professione,
    Allevatore,
    Architetto,
    Avvocato,
    Barcaiolo,
    Bibliotecario,
    Birraio,
    Boscaiolo,
    Cacciatore,
    Carovaniere,
    Conciatore,
    Conestabile,
    Contabile,
    Contadino,
    Cortigiano,
    Cuoco,
    Erborista,
    Farmacista,
    Fornaio,
    Giardiniere,
    Giocatore_Azzardo,
    Guida,
    Ingegnere,
    Levatrice,
    Locandiere,
    Macellaio,
    Marinaio,
    Mercante,
    Minatore,
    Mugnaio,
    Pastore,
    Pescatore,
    Scrivano,
    Siniscalco,
    Soldato,
    Stalliere,
    Taglialegna,
    Raggirare,
    Rapidit,
    Sapienza,
    Scalare,
    Sopravvivenza,
    SeguireTracce,
    Utilizzare,
    Valutare,
    Volare,
    Acqua,
    Foreste,
    Paludi,
    Ascoltare,
    Individuare,
    Tutte,
    Qualsiasi,
    UnaQualsiasi,
    UnoQualsiasi,
}

/// Skill names, part 1 of 6: the code of each.
pub open spec fn skill_names_0(s: Seq<char>) -> Option<u16> {
    if s == "Acrobazia"@ {
        Some(0u16)
    } else if s == "saltare"@ {
        Some(1u16)
    } else if s == "salta"@ {
        Some(2u16)
    } else if s == "Addestrare Animali"@ {
        Some(3u16)
    } else if s == "Artigianato"@ {
        Some(4u16)
    } else if s == "alchimia"@ {
        Some(5u16)
    } else if s == "calligrafia"@ {
        Some(6u16)
    } else if s == "carpenteria"@ {
        Some(7u16)
    } else if s == "ceramica"@ {
        Some(8u16)
    } else if s == "costruire archi"@ {
        Some(9u16)
    } else if s == "costruire navi"@ {
        Some(10u16)
    } else if s == "costruire trappole"@ {
        Some(11u16)
    } else if s == "trappole"@ {
        Some(12u16)
    } else if s == "fabbricare armature"@ {
        Some(13u16)
    } else if s == "fabbricare armi"@ {
        Some(14u16)
    } else if s == "ferramenta"@ {
        Some(15u16)
    } else if s == "intessere ceste"@ {
        Some(16u16)
    } else if s == "lavorare pellami"@ {
        Some(17u16)
    } else if s == "lavori in muratura"@ {
        Some(18u16)
    } else if s == "metallurgia"@ {
        Some(19u16)
    } else {
        None
    }
}

fn match_skill_names_0(f: &[char]) -> (r: Option<u16>)
    ensures
        r == skill_names_0(f@),
{
    if chars_eq(f, "Acrobazia") {
        return Some(0u16);
    }
    if chars_eq(f, "saltare") {
        return Some(1u16);
    }
    if chars_eq(f, "salta") {
        return Some(2u16);
    }
    if chars_eq(f, "Addestrare Animali") {
        return Some(3u16);
    }
    if chars_eq(f, "Artigianato") {
        return Some(4u16);
    }
    if chars_eq(f, "alchimia") {
        return Some(5u16);
    }
    if chars_eq(f, "calligrafia") {
        return Some(6u16);
    }
    if chars_eq(f, "carpenteria") {
        return Some(7u16);
    }
    if chars_eq(f, "ceramica") {
        return Some(8u16);
    }
    if chars_eq(f, "costruire archi") {
        return Some(9u16);
    }
    if chars_eq(f, "costruire navi") {
        return Some(10u16);
    }
    if chars_eq(f, "costruire trappole") {
        return Some(11u16);
    }
    if chars_eq(f, "trappole") {
        return Some(12u16);
    }
    if chars_eq(f, "fabbricare armature") {
        return Some(13u16);
    }
    if chars_eq(f, "fabbricare armi") {
        return Some(14u16);
    }
    if chars_eq(f, "ferramenta") {
        return Some(15u16);
    }
    if chars_eq(f, "intessere ceste") {
        return Some(16u16);
    }
    if chars_eq(f, "lavorare pellami") {
        return Some(17u16);
    }
    if chars_eq(f, "lavori in muratura") {
        return Some(18u16);
    }
    if chars_eq(f, "metallurgia") {
        return Some(19u16);
    }
    None
}

/// Skill names, part 2 of 6: the code of each.
pub open spec fn skill_names_1(s: Seq<char>) -> Option<u16> {
    if s == "pittura"@ {
        Some(20u16)
    } else if s == "oreficeria"@ {
        Some(21u16)
    } else if s == "rilegare libri"@ {
        Some(22u16)
    } else if s == "riparare scarpe"@ {
        Some(23u16)
    } else if s == "scultura"@ {
        Some(24u16)
    } else if s == "tessitura"@ {
        Some(25u16)
    } else if s == "Artista della Fuga"@ {
        Some(26u16)
    } else if s == "Camuffare"@ {
        Some(27u16)
    } else if s == "Cavalcare"@ {
        Some(28u16)
    } else if s == "Conoscenze"@ {
        Some(29u16)
    } else if s == "arcane"@ {
        Some(30u16)
    } else if s == "arcana"@ {
        Some(31u16)
    } else if s == "dungeon"@ {
        Some(32u16)
    } else if s == "geografia"@ {
        Some(33u16)
    } else if s == "ingegneria"@ {
        Some(34u16)
    } else if s == "locali"@ {
        Some(35u16)
    } else if s == "locale"@ {
        Some(35u16)
    } else if s == "natura"@ {
        Some(37u16)
    } else if s == "nobiltà"@ {
        Some(38u16)
    } else if s == "piani"@ {
        Some(39u16)
    } else {
        None
    }
}

fn match_skill_names_1(f: &[char]) -> (r: Option<u16>)
    ensures
        r == skill_names_1(f@),
{
    if chars_eq(f, "pittura") {
        return Some(20u16);
    }
    if chars_eq(f, "oreficeria") {
        return Some(21u16);
    }
    if chars_eq(f, "rilegare libri") {
        return Some(22u16);
    }
    if chars_eq(f, "riparare scarpe") {
        return Some(23u16);
    }
    if chars_eq(f, "scultura") {
        return Some(24u16);
    }
    if chars_eq(f, "tessitura") {
        return Some(25u16);
    }
    if chars_eq(f, "Artista della Fuga") {
        return Some(26u16);
    }
    if chars_eq(f, "Camuffare") {
        return Some(27u16);
    }
    if chars_eq(f, "Cavalcare") {
        return Some(28u16);
    }
    if chars_eq(f, "Conoscenze") {
        return Some(29u16);
    }
    if chars_eq(f, "arcane") {
        return Some(30u16);
    }
    if chars_eq(f, "arcana") {
        return Some(31u16);
    }
    if chars_eq(f, "dungeon") {
        return Some(32u16);
    }
    if chars_eq(f, "geografia") {
        return Some(33u16);
    }
    if chars_eq(f, "ingegneria") {
        return Some(34u16);
    }
    if chars_eq(f, "locali") {
        return Some(35u16);
    }
    if chars_eq(f, "locale") {
        return Some(35u16);
    }
    if chars_eq(f, "natura") {
        return Some(37u16);
    }
    if chars_eq(f, "nobiltà") {
        return Some(38u16);
    }
    if chars_eq(f, "piani") {
        return Some(39u16);
    }
    None
}

/// Skill names, part 3 of 6: the code of each.
pub open spec fn skill_names_2(s: Seq<char>) -> Option<u16> {
    if s == "religioni"@ {
        Some(40u16)
    } else if s == "religione"@ {
        Some(41u16)
    } else if s == "storia"@ {
        Some(42u16)
    } else if s == "Diplomazia"@ {
        Some(43u16)
    } else if s == "Disattivare Congegni"@ {
        Some(44u16)
    } else if s == "Furtività"@ {
        Some(45u16)
    } else if s == "Guarire"@ {
        Some(46u16)
    } else if s == "Intimidire"@ {
        Some(47u16)
    } else if s == "Intrattenere"@ {
        Some(48u16)
    } else if s == "canto"@ {
        Some(49u16)
    } else if s == "cantare"@ {
        Some(50u16)
    } else if s == "commedia"@ {
        Some(51u16)
    } else if s == "danza"@ {
        Some(52u16)
    } else if s == "oratoria"@ {
        Some(53u16)
    } else if s == "recitazione"@ {
        Some(54u16)
    } else if s == "strumenti a corda"@ {
        Some(55u16)
    } else if s == "strumenti a fiato"@ {
        Some(56u16)
    } else if s == "strumenti a percussione"@ {
        Some(57u16)
    } else if s == "strumenti a tastiera"@ {
        Some(58u16)
    } else if s == "Intuizione"@ {
        Some(59u16)
    } else {
        None
    }
}

fn match_skill_names_2(f: &[char]) -> (r: Option<u16>)
    ensures
        r == skill_names_2(f@),
{
    if chars_eq(f, "religioni") {
        return Some(40u16);
    }
    if chars_eq(f, "religione") {
        return Some(41u16);
    }
    if chars_eq(f, "storia") {
        return Some(42u16);
    }
    if chars_eq(f, "Diplomazia") {
        return Some(43u16);
    }
    if chars_eq(f, "Disattivare Congegni") {
        return Some(44u16);
    }
    if chars_eq(f, "Furtività") {
        return Some(45u16);
    }
    if chars_eq(f, "Guarire") {
        return Some(46u16);
    }
    if chars_eq(f, "Intimidire") {
        return Some(47u16);
    }
    if chars_eq(f, "Intrattenere") {
        return Some(48u16);
    }
    if chars_eq(f, "canto") {
        return Some(49u16);
    }
    if chars_eq(f, "cantare") {
        return Some(50u16);
    }
    if chars_eq(f, "commedia") {
        return Some(51u16);
    }
    if chars_eq(f, "danza") {
        return Some(52u16);
    }
    if chars_eq(f, "oratoria") {
        return Some(53u16);
    }
    if chars_eq(f, "recitazione") {
        return Some(54u16);
    }
    if chars_eq(f, "strumenti a corda") {
        return Some(55u16);
    }
    if chars_eq(f, "strumenti a fiato") {
        return Some(56u16);
    }
    if chars_eq(f, "strumenti a percussione") {
        return Some(57u16);
    }
    if chars_eq(f, "strumenti a tastiera") {
        return Some(58u16);
    }
    if chars_eq(f, "Intuizione") {
        return Some(59u16);
    }
    None
}

/// Skill names, part 4 of 6: the code of each.
pub open spec fn skill_names_3(s: Seq<char>) -> Option<u16> {
    if s == "Linguistica"@ {
        Some(60u16)
    } else if s == "Nuotare"@ {
        Some(61u16)
    } else if s == "Percezione"@ {
        Some(62u16)
    } else if s == "Professione"@ {
        Some(63u16)
    } else if s == "allevatore"@ {
        Some(64u16)
    } else if s == "architetto"@ {
        Some(65u16)
    } else if s == "avvocato"@ {
        Some(66u16)
    } else if s == "barcaiolo"@ {
        Some(67u16)
    } else if s == "bibliotecario"@ {
        Some(68u16)
    } else if s == "birraio"@ {
        Some(69u16)
    } else if s == "boscaiolo"@ {
        Some(70u16)
    } else if s == "cacciatore"@ {
        Some(71u16)
    } else if s == "carovaniere"@ {
        Some(72u16)
    } else if s == "conciatore"@ {
        Some(73u16)
    } else if s == "conestabile"@ {
        Some(74u16)
    } else if s == "contabile"@ {
        Some(75u16)
    } else if s == "contadino"@ {
        Some(76u16)
    } else if s == "cortigiano"@ {
        Some(77u16)
    } else if s == "cuoco"@ {
        Some(78u16)
    } else if s == "erborista"@ {
        Some(79u16)
    } else {
        None
    }
}

fn match_skill_names_3(f: &[char]) -> (r: Option<u16>)
    ensures
        r == skill_names_3(f@),
{
    if chars_eq(f, "Linguistica") {
        return Some(60u16);
    }
    if chars_eq(f, "Nuotare") {
        return Some(61u16);
    }
    if chars_eq(f, "Percezione") {
        return Some(62u16);
    }
    if chars_eq(f, "Professione") {
        return Some(63u16);
    }
    if chars_eq(f, "allevatore") {
        return Some(64u16);
    }
    if chars_eq(f, "architetto") {
        return Some(65u16);
    }
    if chars_eq(f, "avvocato") {
        return Some(66u16);
    }
    if chars_eq(f, "barcaiolo") {
        return Some(67u16);
    }
    if chars_eq(f, "bibliotecario") {
        return Some(68u16);
    }
    if chars_eq(f, "birraio") {
        return Some(69u16);
    }
    if chars_eq(f, "boscaiolo") {
        return Some(70u16);
    }
    if chars_eq(f, "cacciatore") {
        return Some(71u16);
    }
    if chars_eq(f, "carovaniere") {
        return Some(72u16);
    }
    if chars_eq(f, "conciatore") {
        return Some(73u16);
    }
    if chars_eq(f, "conestabile") {
        return Some(74u16);
    }
    if chars_eq(f, "contabile") {
        return Some(75u16);
    }
    if chars_eq(f, "contadino") {
        return Some(76u16);
    }
    if chars_eq(f, "cortigiano") {
        return Some(77u16);
    }
    if chars_eq(f, "cuoco") {
        return Some(78u16);
    }
    if chars_eq(f, "erborista") {
        return Some(79u16);
    }
    None
}

/// Skill names, part 5 of 6: the code of each.
pub open spec fn skill_names_4(s: Seq<char>) -> Option<u16> {
    if s == "farmacista"@ {
        Some(80u16)
    } else if s == "fornaio"@ {
        Some(81u16)
    } else if s == "giardiniere"@ {
        Some(82u16)
    } else if s == "giocatore d'azzardo"@ {
        Some(83u16)
    } else if s == "guida"@ {
        Some(84u16)
    } else if s == "ingegnere"@ {
        Some(85u16)
    } else if s == "levatrice"@ {
        Some(86u16)
    } else if s == "locandiere"@ {
        Some(87u16)
    } else if s == "macellaio"@ {
        Some(88u16)
    } else if s == "marinaio"@ {
        Some(89u16)
    } else if s == "mercante"@ {
        Some(90u16)
    } else if s == "minatore"@ {
        Some(91u16)
    } else if s == "mugnaio"@ {
        Some(92u16)
    } else if s == "pastore"@ {
        Some(93u16)
    } else if s == "pescatore"@ {
        Some(94u16)
    } else if s == "scrivano"@ {
        Some(95u16)
    } else if s == "siniscalco"@ {
        Some(96u16)
    } else if s == "soldato"@ {
        Some(97u16)
    } else if s == "stalliere"@ {
        Some(98u16)
    } else if s == "taglialegna"@ {
        Some(99u16)
    } else {
        None
    }
}

fn match_skill_names_4(f: &[char]) -> (r: Option<u16>)
    ensures
        r == skill_names_4(f@),
{
    if chars_eq(f, "farmacista") {
        return Some(80u16);
    }
    if chars_eq(f, "fornaio") {
        return Some(81u16);
    }
    if chars_eq(f, "giardiniere") {
        return Some(82u16);
    }
    if chars_eq(f, "giocatore d'azzardo") {
        return Some(83u16);
    }
    if chars_eq(f, "guida") {
        return Some(84u16);
    }
    if chars_eq(f, "ingegnere") {
        return Some(85u16);
    }
    if chars_eq(f, "levatrice") {
        return Some(86u16);
    }
    if chars_eq(f, "locandiere") {
        return Some(87u16);
    }
    if chars_eq(f, "macellaio") {
        return Some(88u16);
    }
    if chars_eq(f, "marinaio") {
        return Some(89u16);
    }
    if chars_eq(f, "mercante") {
        return Some(90u16);
    }
    if chars_eq(f, "minatore") {
        return Some(91u16);
    }
    if chars_eq(f, "mugnaio") {
        return Some(92u16);
    }
    if chars_eq(f, "pastore") {
        return Some(93u16);
    }
    if chars_eq(f, "pescatore") {
        return Some(94u16);
    }
    if chars_eq(f, "scrivano") {
        return Some(95u16);
    }
    if chars_eq(f, "siniscalco") {
        return Some(96u16);
    }
    if chars_eq(f, "soldato") {
        return Some(97u16);
    }
    if chars_eq(f, "stalliere") {
        return Some(98u16);
    }
    if chars_eq(f, "taglialegna") {
        return Some(99u16);
    }
    None
}

/// Skill names, part 6 of 6: the code of each.
pub open spec fn skill_names_5(s: Seq<char>) -> Option<u16> {
    if s == "Raggirare"@ {
        Some(100u16)
    } else if s == "Rapidità di Mano"@ {
        Some(101u16)
    } else if s == "Sapienza Magica"@ {
        Some(102u16)
    } else if s == "Scalare"@ {
        Some(103u16)
    } else if s == "Sopravvivenza"@ {
        Some(104u16)
    } else if s == "seguire tracce"@ {
        Some(105u16)
    } else if s == "Utilizzare Congegni Magici"@ {
        Some(106u16)
    } else if s == "Valutare"@ {
        Some(107u16)
    } else if s == "Volare"@ {
        Some(108u16)
    } else if s == "acqua"@ {
        Some(109u16)
    } else if s == "foreste"@ {
        Some(110u16)
    } else if s == "paludi"@ {
        Some(111u16)
    } else if s == "Ascoltare"@ {
        Some(112u16)
    } else if s == "Individuare"@ {
        Some(113u16)
    } else if s == "tutte"@ {
        Some(114u16)
    } else if s == "qualsiasi"@ {
        Some(115u16)
    } else if s == "una qualsiasi"@ {
        Some(116u16)
    } else if s == "uno qualsiasi"@ {
        Some(117u16)
    } else {
        None
    }
}

fn match_skill_names_5(f: &[char]) -> (r: Option<u16>)
    ensures
        r == skill_names_5(f@),
{
    if chars_eq(f, "Raggirare") {
        return Some(100u16);
    }
    if chars_eq(f, "Rapidità di Mano") {
        return Some(101u16);
    }
    if chars_eq(f, "Sapienza Magica") {
        return Some(102u16);
    }
    if chars_eq(f, "Scalare") {
        return Some(103u16);
    }
    if chars_eq(f, "Sopravvivenza") {
        return Some(104u16);
    }
    if chars_eq(f, "seguire tracce") {
        return Some(105u16);
    }
    if chars_eq(f, "Utilizzare Congegni Magici") {
        return Some(106u16);
    }
    if chars_eq(f, "Valutare") {
        return Some(107u16);
    }
    if chars_eq(f, "Volare") {
        return Some(108u16);
    }
    if chars_eq(f, "acqua") {
        return Some(109u16);
    }
    if chars_eq(f, "foreste") {
        return Some(110u16);
    }
    if chars_eq(f, "paludi") {
        return Some(111u16);
    }
    if chars_eq(f, "Ascoltare") {
        return Some(112u16);
    }
    if chars_eq(f, "Individuare") {
        return Some(113u16);
    }
    if chars_eq(f, "tutte") {
        return Some(114u16);
    }
    if chars_eq(f, "qualsiasi") {
        return Some(115u16);
    }
    if chars_eq(f, "una qualsiasi") {
        return Some(116u16);
    }
    if chars_eq(f, "uno qualsiasi") {
        return Some(117u16);
    }
    None
}

/// The code of the skill a name stands for, when it stands for one.
pub open spec fn skill_code_of_name(s: Seq<char>) -> Option<u16> {
    if skill_names_0(s) is Some {
        skill_names_0(s)
    } else if skill_names_1(s) is Some {
        skill_names_1(s)
    } else if skill_names_2(s) is Some {
        skill_names_2(s)
    } else if skill_names_3(s) is Some {
        skill_names_3(s)
    } else if skill_names_4(s) is Some {
        skill_names_4(s)
    } else if skill_names_5(s) is Some {
        skill_names_5(s)
    } else {
        None
    }
}

fn skill_code_of(name: &str) -> (r: Option<u16>)
    ensures
        r == skill_code_of_name(name@),
{
    let f = chars_of(name);
    let m = match_skill_names_0(f.as_slice());
    if m.is_some() {
        return m;
    }
    let m = match_skill_names_1(f.as_slice());
    if m.is_some() {
        return m;
    }
    let m = match_skill_names_2(f.as_slice());
    if m.is_some() {
        return m;
    }
    let m = match_skill_names_3(f.as_slice());
    if m.is_some() {
        return m;
    }
    let m = match_skill_names_4(f.as_slice());
    if m.is_some() {
        return m;
    }
    let m = match_skill_names_5(f.as_slice());
    if m.is_some() {
        return m;
    }
    None
}

impl Skill_Names {
    /// The number of this skill.
    pub open spec fn spec_code(self) -> u16 {
        match self {
            Skill_Names::Acrobazia => 0,
            Skill_Names::Saltare => 1,
            Skill_Names::Saltare2 => 2,
            Skill_Names::Addestrare => 3,
            Skill_Names::Artigianato => 4,
            Skill_Names::Alchimia => 5,
            Skill_Names::Calligrafia => 6,
            Skill_Names::Carpenteria => 7,
            Skill_Names::Ceramica => 8,
            Skill_Names::CostruireArchi => 9,
            Skill_Names::CostruireNavi => 10,
            Skill_Names::CostruireTrappole => 11,
            Skill_Names::CostruireTrappole2 => 12,
            Skill_Names::FabbricareArmature => 13,
            Skill_Names::FabbricareArmi => 14,
            Skill_Names::Ferramenta => 15,
            Skill_Names::IntessereCeste => 16,
            Skill_Names::LavorarePellami => 17,
            Skill_Names::LavoriInMuratura => 18,
            Skill_Names::Metallurgia => 19,
            Skill_Names::Pittura => 20,
            Skill_Names::Oreficeria => 21,
            Skill_Names::RilegareLibri => 22,
            Skill_Names::RiparareScarpe => 23,
            Skill_Names::Scultura => 24,
            Skill_Names::Tessitura => 25,
            Skill_Names::Artista => 26,
            Skill_Names::Camuffare => 27,
            Skill_Names::Cavalcare => 28,
            Skill_Names::Conoscenze => 29,
            Skill_Names::Conoscenze_Arcane => 30,
            Skill_Names::Conoscenze_Arcane2 => 31,
            Skill_Names::Conoscenze_Dungeon => 32,
            Skill_Names::Conoscenze_Geografia => 33,
            Skill_Names::Conoscenze_Ingegneria => 34,
            Skill_Names::Conoscenze_Locali => 35,
            Skill_Names::Conoscenze_Locali2 => 36,
            Skill_Names::Conoscenze_Natura => 37,
            Skill_Names::Conoscenze_Nobilt => 38,
            Skill_Names::Conoscenze_Piani => 39,
            Skill_Names::Conoscenze_Religioni => 40,
            Skill_Names::Conoscenze_Religioni2 => 41,
            Skill_Names::Conoscenze_Storia => 42,
            Skill_Names::Diplomazia => 43,
            Skill_Names::Disattivare => 44,
            Skill_Names::Furtivit => 45,
            Skill_Names::Guarire => 46,
            Skill_Names::Intimidire => 47,
            Skill_Names::Intrattenere => 48,
            Skill_Names::Canto => 49,
            Skill_Names::Cantare => 50,
            Skill_Names::Commedia => 51,
            Skill_Names::Danza => 52,
            Skill_Names::Oratoria => 53,
            Skill_Names::Recitazione => 54,
            Skill_Names::Strumenti_Corda => 55,
            Skill_Names::Strumenti_Fiato => 56,
            Skill_Names::Strumenti_Percussione => 57,
            Skill_Names::Strumenti_Tastiera => 58,
            Skill_Names::Intuizione => 59,
            Skill_Names::Linguistica => 60,
            Skill_Names::Nuotare => 61,
            Skill_Names::Percezione => 62,
            Skill_Names::Professione => 63,
            Skill_Names::Allevatore => 64,
            Skill_Names::Architetto => 65,
            Skill_Names::Avvocato => 66,
            Skill_Names::Barcaiolo => 67,
            Skill_Names::Bibliotecario => 68,
            Skill_Names::Birraio => 69,
            Skill_Names::Boscaiolo => 70,
            Skill_Names::Cacciatore => 71,
            Skill_Names::Carovaniere => 72,
            Skill_Names::Conciatore => 73,
            Skill_Names::Conestabile => 74,
            Skill_Names::Contabile => 75,
            Skill_Names::Contadino => 76,
            Skill_Names::Cortigiano => 77,
            Skill_Names::Cuoco => 78,
            Skill_Names::Erborista => 79,
            Skill_Names::Farmacista => 80,
            Skill_Names::Fornaio => 81,
            Skill_Names::Giardiniere => 82,
            Skill_Names::Giocatore_Azzardo => 83,
            Skill_Names::Guida => 84,
            Skill_Names::Ingegnere => 85,
            Skill_Names::Levatrice => 86,
            Skill_Names::Locandiere => 87,
            Skill_Names::Macellaio => 88,
            Skill_Names::Marinaio => 89,
            Skill_Names::Mercante => 90,
            Skill_Names::Minatore => 91,
            Skill_Names::Mugnaio => 92,
            Skill_Names::Pastore => 93,
            Skill_Names::Pescatore => 94,
            Skill_Names::Scrivano => 95,
            Skill_Names::Siniscalco => 96,
            Skill_Names::Soldato => 97,
            Skill_Names::Stalliere => 98,
            Skill_Names::Taglialegna => 99,
            Skill_Names::Raggirare => 100,
            Skill_Names::Rapidit => 101,
            Skill_Names::Sapienza => 102,
            Skill_Names::Scalare => 103,
            Skill_Names::Sopravvivenza => 104,
            Skill_Names::SeguireTracce => 105,
            Skill_Names::Utilizzare => 106,
            Skill_Names::Valutare => 107,
            Skill_Names::Volare => 108,
            Skill_Names::Acqua => 109,
            Skill_Names::Foreste => 110,
            Skill_Names::Paludi => 111,
            Skill_Names::Ascoltare => 112,
            Skill_Names::Individuare => 113,
            Skill_Names::Tutte => 114,
            Skill_Names::Qualsiasi => 115,
            Skill_Names::UnaQualsiasi => 116,
            Skill_Names::UnoQualsiasi => 117,
        }
    }

    /// The number of this skill.
    pub fn code(&self) -> (r: u16)
        ensures
            r == self.spec_code(),
    {
        match self {
            Skill_Names::Acrobazia => 0,
            Skill_Names::Saltare => 1,
            Skill_Names::Saltare2 => 2,
            Skill_Names::Addestrare => 3,
            Skill_Names::Artigianato => 4,
            Skill_Names::Alchimia => 5,
            Skill_Names::Calligrafia => 6,
            Skill_Names::Carpenteria => 7,
            Skill_Names::Ceramica => 8,
            Skill_Names::CostruireArchi => 9,
            Skill_Names::CostruireNavi => 10,
            Skill_Names::CostruireTrappole => 11,
            Skill_Names::CostruireTrappole2 => 12,
            Skill_Names::FabbricareArmature => 13,
            Skill_Names::FabbricareArmi => 14,
            Skill_Names::Ferramenta => 15,
            Skill_Names::IntessereCeste => 16,
            Skill_Names::LavorarePellami => 17,
            Skill_Names::LavoriInMuratura => 18,
            Skill_Names::Metallurgia => 19,
            Skill_Names::Pittura => 20,
            Skill_Names::Oreficeria => 21,
            Skill_Names::RilegareLibri => 22,
            Skill_Names::RiparareScarpe => 23,
            Skill_Names::Scultura => 24,
            Skill_Names::Tessitura => 25,
            Skill_Names::Artista => 26,
            Skill_Names::Camuffare => 27,
            Skill_Names::Cavalcare => 28,
            Skill_Names::Conoscenze => 29,
            Skill_Names::Conoscenze_Arcane => 30,
            Skill_Names::Conoscenze_Arcane2 => 31,
            Skill_Names::Conoscenze_Dungeon => 32,
            Skill_Names::Conoscenze_Geografia => 33,
            Skill_Names::Conoscenze_Ingegneria => 34,
            Skill_Names::Conoscenze_Locali => 35,
            Skill_Names::Conoscenze_Locali2 => 36,
            Skill_Names::Conoscenze_Natura => 37,
            Skill_Names::Conoscenze_Nobilt => 38,
            Skill_Names::Conoscenze_Piani => 39,
            Skill_Names::Conoscenze_Religioni => 40,
            Skill_Names::Conoscenze_Religioni2 => 41,
            Skill_Names::Conoscenze_Storia => 42,
            Skill_Names::Diplomazia => 43,
            Skill_Names::Disattivare => 44,
            Skill_Names::Furtivit => 45,
            Skill_Names::Guarire => 46,
            Skill_Names::Intimidire => 47,
            Skill_Names::Intrattenere => 48,
            Skill_Names::Canto => 49,
            Skill_Names::Cantare => 50,
            Skill_Names::Commedia => 51,
            Skill_Names::Danza => 52,
            Skill_Names::Oratoria => 53,
            Skill_Names::Recitazione => 54,
            Skill_Names::Strumenti_Corda => 55,
            Skill_Names::Strumenti_Fiato => 56,
            Skill_Names::Strumenti_Percussione => 57,
            Skill_Names::Strumenti_Tastiera => 58,
            Skill_Names::Intuizione => 59,
            Skill_Names::Linguistica => 60,
            Skill_Names::Nuotare => 61,
            Skill_Names::Percezione => 62,
            Skill_Names::Professione => 63,
            Skill_Names::Allevatore => 64,
            Skill_Names::Architetto => 65,
            Skill_Names::Avvocato => 66,
            Skill_Names::Barcaiolo => 67,
            Skill_Names::Bibliotecario => 68,
            Skill_Names::Birraio => 69,
            Skill_Names::Boscaiolo => 70,
            Skill_Names::Cacciatore => 71,
            Skill_Names::Carovaniere => 72,
            Skill_Names::Conciatore => 73,
            Skill_Names::Conestabile => 74,
            Skill_Names::Contabile => 75,
            Skill_Names::Contadino => 76,
            Skill_Names::Cortigiano => 77,
            Skill_Names::Cuoco => 78,
            Skill_Names::Erborista => 79,
            Skill_Names::Farmacista => 80,
            Skill_Names::Fornaio => 81,
            Skill_Names::Giardiniere => 82,
            Skill_Names::Giocatore_Azzardo => 83,
            Skill_Names::Guida => 84,
            Skill_Names::Ingegnere => 85,
            Skill_Names::Levatrice => 86,
            Skill_Names::Locandiere => 87,
            Skill_Names::Macellaio => 88,
            Skill_Names::Marinaio => 89,
            Skill_Names::Mercante => 90,
            Skill_Names::Minatore => 91,
            Skill_Names::Mugnaio => 92,
            Skill_Names::Pastore => 93,
            Skill_Names::Pescatore => 94,
            Skill_Names::Scrivano => 95,
            Skill_Names::Siniscalco => 96,
            Skill_Names::Soldato => 97,
            Skill_Names::Stalliere => 98,
            Skill_Names::Taglialegna => 99,
            Skill_Names::Raggirare => 100,
            Skill_Names::Rapidit => 101,
            Skill_Names::Sapienza => 102,
            Skill_Names::Scalare => 103,
            Skill_Names::Sopravvivenza => 104,
            Skill_Names::SeguireTracce => 105,
            Skill_Names::Utilizzare => 106,
            Skill_Names::Valutare => 107,
            Skill_Names::Volare => 108,
            Skill_Names::Acqua => 109,
            Skill_Names::Foreste => 110,
            Skill_Names::Paludi => 111,
            Skill_Names::Ascoltare => 112,
            Skill_Names::Individuare => 113,
            Skill_Names::Tutte => 114,
            Skill_Names::Qualsiasi => 115,
            Skill_Names::UnaQualsiasi => 116,
            Skill_Names::UnoQualsiasi => 117,
        }
    }

    /// The name of this skill as stat blocks write it.
    pub open spec fn spec_as_str(self) -> Seq<char> {
        match self {
            Skill_Names::Acrobazia => "Acrobazia"@,
            Skill_Names::Saltare => "saltare"@,
            Skill_Names::Saltare2 => "salta"@,
            Skill_Names::Addestrare => "Addestrare Animali"@,
            Skill_Names::Artigianato => "Artigianato"@,
            Skill_Names::Alchimia => "alchimia"@,
            Skill_Names::Calligrafia => "calligrafia"@,
            Skill_Names::Carpenteria => "carpenteria"@,
            Skill_Names::Ceramica => "ceramica"@,
            Skill_Names::CostruireArchi => "costruire archi"@,
            Skill_Names::CostruireNavi => "costruire navi"@,
            Skill_Names::CostruireTrappole => "costruire trappole"@,
            Skill_Names::CostruireTrappole2 => "trappole"@,
            Skill_Names::FabbricareArmature => "fabbricare armature"@,
            Skill_Names::FabbricareArmi => "fabbricare armi"@,
            Skill_Names::Ferramenta => "ferramenta"@,
            Skill_Names::IntessereCeste => "intessere ceste"@,
            Skill_Names::LavorarePellami => "lavorare pellami"@,
            Skill_Names::LavoriInMuratura => "lavori in muratura"@,
            Skill_Names::Metallurgia => "metallurgia"@,
            Skill_Names::Pittura => "pittura"@,
            Skill_Names::Oreficeria => "oreficeria"@,
            Skill_Names::RilegareLibri => "rilegare libri"@,
            Skill_Names::RiparareScarpe => "riparare scarpe"@,
            Skill_Names::Scultura => "scultura"@,
            Skill_Names::Tessitura => "tessitura"@,
            Skill_Names::Artista => "Artista della Fuga"@,
            Skill_Names::Camuffare => "Camuffare"@,
            Skill_Names::Cavalcare => "Cavalcare"@,
            Skill_Names::Conoscenze => "Conoscenze"@,
            Skill_Names::Conoscenze_Arcane => "arcane"@,
            Skill_Names::Conoscenze_Arcane2 => "arcana"@,
            Skill_Names::Conoscenze_Dungeon => "dungeon"@,
            Skill_Names::Conoscenze_Geografia => "geografia"@,
            Skill_Names::Conoscenze_Ingegneria => "ingegneria"@,
            Skill_Names::Conoscenze_Locali => "locali"@,
            Skill_Names::Conoscenze_Locali2 => "locale"@,
            Skill_Names::Conoscenze_Natura => "natura"@,
            Skill_Names::Conoscenze_Nobilt => "nobiltà"@,
            Skill_Names::Conoscenze_Piani => "piani"@,
            Skill_Names::Conoscenze_Religioni => "religioni"@,
            Skill_Names::Conoscenze_Religioni2 => "religione"@,
            Skill_Names::Conoscenze_Storia => "storia"@,
            Skill_Names::Diplomazia => "Diplomazia"@,
            Skill_Names::Disattivare => "Disattivare Congegni"@,
            Skill_Names::Furtivit => "Furtività"@,
            Skill_Names::Guarire => "Guarire"@,
            Skill_Names::Intimidire => "Intimidire"@,
            Skill_Names::Intrattenere => "Intrattenere"@,
            Skill_Names::Canto => "canto"@,
            Skill_Names::Cantare => "cantare"@,
            Skill_Names::Commedia => "commedia"@,
            Skill_Names::Danza => "danza"@,
            Skill_Names::Oratoria => "oratoria"@,
            Skill_Names::Recitazione => "recitazione"@,
            Skill_Names::Strumenti_Corda => "strumenti a corda"@,
            Skill_Names::Strumenti_Fiato => "strumenti a fiato"@,
            Skill_Names::Strumenti_Percussione => "strumenti a percussione"@,
            Skill_Names::Strumenti_Tastiera => "strumenti a tastiera"@,
            Skill_Names::Intuizione => "Intuizione"@,
            Skill_Names::Linguistica => "Linguistica"@,
            Skill_Names::Nuotare => "Nuotare"@,
            Skill_Names::Percezione => "Percezione"@,
            Skill_Names::Professione => "Professione"@,
            Skill_Names::Allevatore => "allevatore"@,
            Skill_Names::Architetto => "architetto"@,
            Skill_Names::Avvocato => "avvocato"@,
            Skill_Names::Barcaiolo => "barcaiolo"@,
            Skill_Names::Bibliotecario => "bibliotecario"@,
            Skill_Names::Birraio => "birraio"@,
            Skill_Names::Boscaiolo => "boscaiolo"@,
            Skill_Names::Cacciatore => "cacciatore"@,
            Skill_Names::Carovaniere => "carovaniere"@,
            Skill_Names::Conciatore => "conciatore"@,
            Skill_Names::Conestabile => "conestabile"@,
            Skill_Names::Contabile => "contabile"@,
            Skill_Names::Contadino => "contadino"@,
            Skill_Names::Cortigiano => "cortigiano"@,
            Skill_Names::Cuoco => "cuoco"@,
            Skill_Names::Erborista => "erborista"@,
            Skill_Names::Farmacista => "farmacista"@,
            Skill_Names::Fornaio => "fornaio"@,
            Skill_Names::Giardiniere => "giardiniere"@,
            Skill_Names::Giocatore_Azzardo => "giocatore d'azzardo"@,
            Skill_Names::Guida => "guida"@,
            Skill_Names::Ingegnere => "ingegnere"@,
            Skill_Names::Levatrice => "levatrice"@,
            Skill_Names::Locandiere => "locandiere"@,
            Skill_Names::Macellaio => "macellaio"@,
            Skill_Names::Marinaio => "marinaio"@,
            Skill_Names::Mercante => "mercante"@,
            Skill_Names::Minatore => "minatore"@,
            Skill_Names::Mugnaio => "mugnaio"@,
            Skill_Names::Pastore => "pastore"@,
            Skill_Names::Pescatore => "pescatore"@,
            Skill_Names::Scrivano => "scrivano"@,
            Skill_Names::Siniscalco => "siniscalco"@,
            Skill_Names::Soldato => "soldato"@,
            Skill_Names::Stalliere => "stalliere"@,
            Skill_Names::Taglialegna => "taglialegna"@,
            Skill_Names::Raggirare => "Raggirare"@,
            Skill_Names::Rapidit => "Rapidità di Mano"@,
            Skill_Names::Sapienza => "Sapienza Magica"@,
            Skill_Names::Scalare => "Scalare"@,
            Skill_Names::Sopravvivenza => "Sopravvivenza"@,
            Skill_Names::SeguireTracce => "seguire tracce"@,
            Skill_Names::Utilizzare => "Utilizzare Congegni Magici"@,
            Skill_Names::Valutare => "Valutare"@,
            Skill_Names::Volare => "Volare"@,
            Skill_Names::Acqua => "acqua"@,
            Skill_Names::Foreste => "foreste"@,
            Skill_Names::Paludi => "paludi"@,
            Skill_Names::Ascoltare => "Ascoltare"@,
            Skill_Names::Individuare => "Individuare"@,
            Skill_Names::Tutte => "tutte"@,
            Skill_Names::Qualsiasi => "qualsiasi"@,
            Skill_Names::UnaQualsiasi => "una qualsiasi"@,
            Skill_Names::UnoQualsiasi => "uno qualsiasi"@,
        }
    }

    /// The name of this skill as stat blocks write it.
    pub fn as_str(&self) -> (r: &'static str)
        ensures
            r@ == self.spec_as_str(),
    {
        match self {
            Skill_Names::Acrobazia => "Acrobazia",
            Skill_Names::Saltare => "saltare",
            Skill_Names::Saltare2 => "salta",
            Skill_Names::Addestrare => "Addestrare Animali",
            Skill_Names::Artigianato => "Artigianato",
            Skill_Names::Alchimia => "alchimia",
            Skill_Names::Calligrafia => "calligrafia",
            Skill_Names::Carpenteria => "carpenteria",
            Skill_Names::Ceramica => "ceramica",
            Skill_Names::CostruireArchi => "costruire archi",
            Skill_Names::CostruireNavi => "costruire navi",
            Skill_Names::CostruireTrappole => "costruire trappole",
            Skill_Names::CostruireTrappole2 => "trappole",
            Skill_Names::FabbricareArmature => "fabbricare armature",
            Skill_Names::FabbricareArmi => "fabbricare armi",
            Skill_Names::Ferramenta => "ferramenta",
            Skill_Names::IntessereCeste => "intessere ceste",
            Skill_Names::LavorarePellami => "lavorare pellami",
            Skill_Names::LavoriInMuratura => "lavori in muratura",
            Skill_Names::Metallurgia => "metallurgia",
            Skill_Names::Pittura => "pittura",
            Skill_Names::Oreficeria => "oreficeria",
            Skill_Names::RilegareLibri => "rilegare libri",
            Skill_Names::RiparareScarpe => "riparare scarpe",
            Skill_Names::Scultura => "scultura",
            Skill_Names::Tessitura => "tessitura",
            Skill_Names::Artista => "Artista della Fuga",
            Skill_Names::Camuffare => "Camuffare",
            Skill_Names::Cavalcare => "Cavalcare",
            Skill_Names::Conoscenze => "Conoscenze",
            Skill_Names::Conoscenze_Arcane => "arcane",
            Skill_Names::Conoscenze_Arcane2 => "arcana",
            Skill_Names::Conoscenze_Dungeon => "dungeon",
            Skill_Names::Conoscenze_Geografia => "geografia",
            Skill_Names::Conoscenze_Ingegneria => "ingegneria",
            Skill_Names::Conoscenze_Locali => "locali",
            Skill_Names::Conoscenze_Locali2 => "locale",
            Skill_Names::Conoscenze_Natura => "natura",
            Skill_Names::Conoscenze_Nobilt => "nobiltà",
            Skill_Names::Conoscenze_Piani => "piani",
            Skill_Names::Conoscenze_Religioni => "religioni",
            Skill_Names::Conoscenze_Religioni2 => "religione",
            Skill_Names::Conoscenze_Storia => "storia",
            Skill_Names::Diplomazia => "Diplomazia",
            Skill_Names::Disattivare => "Disattivare Congegni",
            Skill_Names::Furtivit => "Furtività",
            Skill_Names::Guarire => "Guarire",
            Skill_Names::Intimidire => "Intimidire",
            Skill_Names::Intrattenere => "Intrattenere",
            Skill_Names::Canto => "canto",
            Skill_Names::Cantare => "cantare",
            Skill_Names::Commedia => "commedia",
            Skill_Names::Danza => "danza",
            Skill_Names::Oratoria => "oratoria",
            Skill_Names::Recitazione => "recitazione",
            Skill_Names::Strumenti_Corda => "strumenti a corda",
            Skill_Names::Strumenti_Fiato => "strumenti a fiato",
            Skill_Names::Strumenti_Percussione => "strumenti a percussione",
            Skill_Names::Strumenti_Tastiera => "strumenti a tastiera",
            Skill_Names::Intuizione => "Intuizione",
            Skill_Names::Linguistica => "Linguistica",
            Skill_Names::Nuotare => "Nuotare",
            Skill_Names::Percezione => "Percezione",
            Skill_Names::Professione => "Professione",
            Skill_Names::Allevatore => "allevatore",
            Skill_Names::Architetto => "architetto",
            Skill_Names::Avvocato => "avvocato",
            Skill_Names::Barcaiolo => "barcaiolo",
            Skill_Names::Bibliotecario => "bibliotecario",
            Skill_Names::Birraio => "birraio",
            Skill_Names::Boscaiolo => "boscaiolo",
            Skill_Names::Cacciatore => "cacciatore",
            Skill_Names::Carovaniere => "carovaniere",
            Skill_Names::Conciatore => "conciatore",
            Skill_Names::Conestabile => "conestabile",
            Skill_Names::Contabile => "contabile",
            Skill_Names::Contadino => "contadino",
            Skill_Names::Cortigiano => "cortigiano",
            Skill_Names::Cuoco => "cuoco",
            Skill_Names::Erborista => "erborista",
            Skill_Names::Farmacista => "farmacista",
            Skill_Names::Fornaio => "fornaio",
            Skill_Names::Giardiniere => "giardiniere",
            Skill_Names::Giocatore_Azzardo => "giocatore d'azzardo",
            Skill_Names::Guida => "guida",
            Skill_Names::Ingegnere => "ingegnere",
            Skill_Names::Levatrice => "levatrice",
            Skill_Names::Locandiere => "locandiere",
            Skill_Names::Macellaio => "macellaio",
            Skill_Names::Marinaio => "marinaio",
            Skill_Names::Mercante => "mercante",
            Skill_Names::Minatore => "minatore",
            Skill_Names::Mugnaio => "mugnaio",
            Skill_Names::Pastore => "pastore",
            Skill_Names::Pescatore => "pescatore",
            Skill_Names::Scrivano => "scrivano",
            Skill_Names::Siniscalco => "siniscalco",
            Skill_Names::Soldato => "soldato",
            Skill_Names::Stalliere => "stalliere",
            Skill_Names::Taglialegna => "taglialegna",
            Skill_Names::Raggirare => "Raggirare",
            Skill_Names::Rapidit => "Rapidità di Mano",
            Skill_Names::Sapienza => "Sapienza Magica",
            Skill_Names::Scalare => "Scalare",
            Skill_Names::Sopravvivenza => "Sopravvivenza",
            Skill_Names::SeguireTracce => "seguire tracce",
            Skill_Names::Utilizzare => "Utilizzare Congegni Magici",
            Skill_Names::Valutare => "Valutare",
            Skill_Names::Volare => "Volare",
            Skill_Names::Acqua => "acqua",
            Skill_Names::Foreste => "foreste",
            Skill_Names::Paludi => "paludi",
            Skill_Names::Ascoltare => "Ascoltare",
            Skill_Names::Individuare => "Individuare",
            Skill_Names::Tutte => "tutte",
            Skill_Names::Qualsiasi => "qualsiasi",
            Skill_Names::UnaQualsiasi => "una qualsiasi",
            Skill_Names::UnoQualsiasi => "uno qualsiasi",
        }
    }

    /// The code of the skill `name` stands for, or `0xffff` for a name that
    /// stands for none.
    pub open spec fn spec_from_str(name: Seq<char>) -> u16 {
        match skill_code_of_name(name) {
            Some(c) => c,
            None => 0xffff,
        }
    }

    /// The code of the skill `name` stands for, or `0xffff` for a name that
    /// stands for none.
    pub fn from_str(name: &str) -> (r: u16)
        ensures
            r == Self::spec_from_str(name@),
    {
        match skill_code_of(name) {
            Some(c) => c,
            None => 0xffff,
        }
    }

    /// Whether `name` stands for a skill.
    pub open spec fn spec_is_valid(name: Seq<char>) -> bool {
        skill_code_of_name(name) is Some
    }

    /// Whether `name` stands for a skill; exactly when `from_str` does not
    /// give `0xffff`.
    pub fn is_valid(name: &str) -> (r: bool)
        ensures
            r == Self::spec_is_valid(name@),
            r == (Self::spec_from_str(name@) != 0xffff),
    {
        proof {
            lemma_skill_codes_below(name@);
        }
        skill_code_of(name).is_some()
    }

    /// The skill numbered `v`, for the numbers this lookup knows; `None` for the others.
    pub open spec fn spec_from_u16(v: u16) -> Option<Skill_Names> {
        if v == 0 {
            Some(Skill_Names::Acrobazia)
        } else if v == 1 {
            Some(Skill_Names::Saltare)
        } else if v == 2 {
            Some(Skill_Names::Saltare2)
        } else if v == 3 {
            Some(Skill_Names::Addestrare)
        } else if v == 4 {
            Some(Skill_Names::Artigianato)
        } else if v == 5 {
            Some(Skill_Names::Alchimia)
        } else if v == 6 {
            Some(Skill_Names::Calligrafia)
        } else if v == 7 {
            Some(Skill_Names::Carpenteria)
        } else if v == 8 {
            Some(Skill_Names::Ceramica)
        } else if v == 9 {
            Some(Skill_Names::CostruireArchi)
        } else if v == 10 {
            Some(Skill_Names::CostruireNavi)
        } else if v == 11 {
            Some(Skill_Names::CostruireTrappole)
        } else if v == 12 {
            Some(Skill_Names::CostruireTrappole2)
        } else if v == 13 {
            Some(Skill_Names::FabbricareArmature)
        } else if v == 14 {
            Some(Skill_Names::FabbricareArmi)
        } else if v == 15 {
            Some(Skill_Names::Ferramenta)
        } else if v == 16 {
            Some(Skill_Names::IntessereCeste)
        } else if v == 17 {
            Some(Skill_Names::LavorarePellami)
        } else if v == 18 {
            Some(Skill_Names::LavoriInMuratura)
        } else if v == 19 {
            Some(Skill_Names::Metallurgia)
        } else if v == 20 {
            Some(Skill_Names::Pittura)
        } else if v == 21 {
            Some(Skill_Names::Oreficeria)
        } else if v == 22 {
            Some(Skill_Names::RilegareLibri)
        } else if v == 23 {
            Some(Skill_Names::RiparareScarpe)
        } else if v == 24 {
            Some(Skill_Names::Scultura)
        } else if v == 25 {
            Some(Skill_Names::Tessitura)
        } else if v == 26 {
            Some(Skill_Names::Artista)
        } else if v == 27 {
            Some(Skill_Names::Camuffare)
        } else if v == 28 {
            Some(Skill_Names::Cavalcare)
        } else if v == 29 {
            Some(Skill_Names::Conoscenze)
        } else if v == 30 {
            Some(Skill_Names::Conoscenze_Arcane)
        } else if v == 31 {
            Some(Skill_Names::Conoscenze_Arcane2)
        } else if v == 32 {
            Some(Skill_Names::Conoscenze_Dungeon)
        } else if v == 33 {
            Some(Skill_Names::Conoscenze_Geografia)
        } else if v == 34 {
            Some(Skill_Names::Conoscenze_Ingegneria)
        } else if v == 35 {
            Some(Skill_Names::Conoscenze_Locali)
        } else if v == 36 {
            Some(Skill_Names::Conoscenze_Locali2)
        } else if v == 37 {
            Some(Skill_Names::Conoscenze_Natura)
        } else if v == 38 {
            Some(Skill_Names::Conoscenze_Nobilt)
        } else if v == 39 {
            Some(Skill_Names::Conoscenze_Piani)
        } else if v == 40 {
            Some(Skill_Names::Conoscenze_Religioni)
        } else if v == 41 {
            Some(Skill_Names::Conoscenze_Religioni2)
        } else if v == 42 {
            Some(Skill_Names::Conoscenze_Storia)
        } else if v == 43 {
            Some(Skill_Names::Diplomazia)
        } else if v == 44 {
            Some(Skill_Names::Disattivare)
        } else if v == 45 {
            Some(Skill_Names::Furtivit)
        } else if v == 46 {
            Some(Skill_Names::Guarire)
        } else if v == 47 {
            Some(Skill_Names::Intimidire)
        } else if v == 48 {
            Some(Skill_Names::Intrattenere)
        } else if v == 49 {
            Some(Skill_Names::Canto)
        } else if v == 50 {
            Some(Skill_Names::Cantare)
        } else if v == 51 {
            Some(Skill_Names::Commedia)
        } else if v == 52 {
            Some(Skill_Names::Danza)
        } else if v == 53 {
            Some(Skill_Names::Oratoria)
        } else if v == 54 {
            Some(Skill_Names::Recitazione)
        } else if v == 55 {
            Some(Skill_Names::Strumenti_Corda)
        } else if v == 56 {
            Some(Skill_Names::Strumenti_Fiato)
        } else if v == 57 {
            Some(Skill_Names::Strumenti_Percussione)
        } else if v == 58 {
            Some(Skill_Names::Strumenti_Tastiera)
        } else if v == 59 {
            Some(Skill_Names::Intuizione)
        } else if v == 60 {
            Some(Skill_Names::Linguistica)
        } else if v == 61 {
            Some(Skill_Names::Nuotare)
        } else if v == 62 {
            Some(Skill_Names::Percezione)
        } else if v == 63 {
            Some(Skill_Names::Professione)
        } else if v == 64 {
            Some(Skill_Names::Allevatore)
        } else if v == 65 {
            Some(Skill_Names::Architetto)
        } else if v == 66 {
            Some(Skill_Names::Avvocato)
        } else if v == 67 {
            Some(Skill_Names::Barcaiolo)
        } else if v == 68 {
            Some(Skill_Names::Bibliotecario)
        } else if v == 69 {
            Some(Skill_Names::Birraio)
        } else if v == 70 {
            Some(Skill_Names::Boscaiolo)
        } else if v == 71 {
            Some(Skill_Names::Cacciatore)
        } else if v == 72 {
            Some(Skill_Names::Carovaniere)
        } else if v == 73 {
            Some(Skill_Names::Conciatore)
        } else if v == 74 {
            Some(Skill_Names::Conestabile)
        } else if v == 75 {
            Some(Skill_Names::Contabile)
        } else if v == 76 {
            Some(Skill_Names::Contadino)
        } else if v == 77 {
            Some(Skill_Names::Cortigiano)
        } else if v == 78 {
            Some(Skill_Names::Cuoco)
        } else if v == 79 {
            Some(Skill_Names::Erborista)
        } else if v == 80 {
            Some(Skill_Names::Farmacista)
        } else if v == 81 {
            Some(Skill_Names::Fornaio)
        } else if v == 82 {
            Some(Skill_Names::Giardiniere)
        } else if v == 83 {
            Some(Skill_Names::Giocatore_Azzardo)
        } else if v == 84 {
            Some(Skill_Names::Guida)
        } else if v == 85 {
            Some(Skill_Names::Ingegnere)
        } else if v == 86 {
            Some(Skill_Names::Levatrice)
        } else if v == 87 {
            Some(Skill_Names::Locandiere)
        } else if v == 88 {
            Some(Skill_Names::Macellaio)
        } else if v == 89 {
            Some(Skill_Names::Marinaio)
        } else if v == 90 {
            Some(Skill_Names::Mercante)
        } else if v == 91 {
            Some(Skill_Names::Minatore)
        } else if v == 92 {
            Some(Skill_Names::Mugnaio)
        } else if v == 93 {
            Some(Skill_Names::Pastore)
        } else if v == 94 {
            Some(Skill_Names::Pescatore)
        } else if v == 95 {
            Some(Skill_Names::Scrivano)
        } else if v == 96 {
            Some(Skill_Names::Siniscalco)
        } else if v == 97 {
            Some(Skill_Names::Soldato)
        } else if v == 98 {
            Some(Skill_Names::Stalliere)
        } else if v == 99 {
            Some(Skill_Names::Taglialegna)
        } else if v == 100 {
            Some(Skill_Names::Raggirare)
        } else if v == 101 {
            Some(Skill_Names::Rapidit)
        } else if v == 102 {
            Some(Skill_Names::Sapienza)
        } else if v == 103 {
            Some(Skill_Names::Scalare)
        } else if v == 104 {
            Some(Skill_Names::Sopravvivenza)
        } else if v == 105 {
            Some(Skill_Names::SeguireTracce)
        } else if v == 106 {
            Some(Skill_Names::Utilizzare)
        } else if v == 107 {
            Some(Skill_Names::Valutare)
        } else if v == 108 {
            Some(Skill_Names::Volare)
        } else if v == 109 {
            Some(Skill_Names::Acqua)
        } else if v == 110 {
            Some(Skill_Names::Foreste)
        } else if v == 111 {
            Some(Skill_Names::Paludi)
        } else if v == 112 {
            Some(Skill_Names::Ascoltare)
        } else if v == 113 {
            Some(Skill_Names::Individuare)
        } else if v == 114 {
            Some(Skill_Names::Tutte)
        } else if v == 115 {
            Some(Skill_Names::Qualsiasi)
        } else if v == 116 {
            Some(Skill_Names::UnaQualsiasi)
        } else if v == 117 {
            Some(Skill_Names::UnoQualsiasi)
        } else {
            None
        }
    }

    /// `from_u16`, or `None` for a number it does not know.
    pub fn try_from_u16(v: u16) -> (r: Option<Skill_Names>)
        ensures
            r == Self::spec_from_u16(v),
    {
        match v {
            0 => Some(Skill_Names::Acrobazia),
            1 => Some(Skill_Names::Saltare),
            2 => Some(Skill_Names::Saltare2),
            3 => Some(Skill_Names::Addestrare),
            4 => Some(Skill_Names::Artigianato),
            5 => Some(Skill_Names::Alchimia),
            6 => Some(Skill_Names::Calligrafia),
            7 => Some(Skill_Names::Carpenteria),
            8 => Some(Skill_Names::Ceramica),
            9 => Some(Skill_Names::CostruireArchi),
            10 => Some(Skill_Names::CostruireNavi),
            11 => Some(Skill_Names::CostruireTrappole),
            12 => Some(Skill_Names::CostruireTrappole2),
            13 => Some(Skill_Names::FabbricareArmature),
            14 => Some(Skill_Names::FabbricareArmi),
            15 => Some(Skill_Names::Ferramenta),
            16 => Some(Skill_Names::IntessereCeste),
            17 => Some(Skill_Names::LavorarePellami),
            18 => Some(Skill_Names::LavoriInMuratura),
            19 => Some(Skill_Names::Metallurgia),
            20 => Some(Skill_Names::Pittura),
            21 => Some(Skill_Names::Oreficeria),
            22 => Some(Skill_Names::RilegareLibri),
            23 => Some(Skill_Names::RiparareScarpe),
            24 => Some(Skill_Names::Scultura),
            25 => Some(Skill_Names::Tessitura),
            26 => Some(Skill_Names::Artista),
            27 => Some(Skill_Names::Camuffare),
            28 => Some(Skill_Names::Cavalcare),
            29 => Some(Skill_Names::Conoscenze),
            30 => Some(Skill_Names::Conoscenze_Arcane),
            31 => Some(Skill_Names::Conoscenze_Arcane2),
            32 => Some(Skill_Names::Conoscenze_Dungeon),
            33 => Some(Skill_Names::Conoscenze_Geografia),
            34 => Some(Skill_Names::Conoscenze_Ingegneria),
            35 => Some(Skill_Names::Conoscenze_Locali),
            36 => Some(Skill_Names::Conoscenze_Locali2),
            37 => Some(Skill_Names::Conoscenze_Natura),
            38 => Some(Skill_Names::Conoscenze_Nobilt),
            39 => Some(Skill_Names::Conoscenze_Piani),
            40 => Some(Skill_Names::Conoscenze_Religioni),
            41 => Some(Skill_Names::Conoscenze_Religioni2),
            42 => Some(Skill_Names::Conoscenze_Storia),
            43 => Some(Skill_Names::Diplomazia),
            44 => Some(Skill_Names::Disattivare),
            45 => Some(Skill_Names::Furtivit),
            46 => Some(Skill_Names::Guarire),
            47 => Some(Skill_Names::Intimidire),
            48 => Some(Skill_Names::Intrattenere),
            49 => Some(Skill_Names::Canto),
            50 => Some(Skill_Names::Cantare),
            51 => Some(Skill_Names::Commedia),
            52 => Some(Skill_Names::Danza),
            53 => Some(Skill_Names::Oratoria),
            54 => Some(Skill_Names::Recitazione),
            55 => Some(Skill_Names::Strumenti_Corda),
            56 => Some(Skill_Names::Strumenti_Fiato),
            57 => Some(Skill_Names::Strumenti_Percussione),
            58 => Some(Skill_Names::Strumenti_Tastiera),
            59 => Some(Skill_Names::Intuizione),
            60 => Some(Skill_Names::Linguistica),
            61 => Some(Skill_Names::Nuotare),
            62 => Some(Skill_Names::Percezione),
            63 => Some(Skill_Names::Professione),
            64 => Some(Skill_Names::Allevatore),
            65 => Some(Skill_Names::Architetto),
            66 => Some(Skill_Names::Avvocato),
            67 => Some(Skill_Names::Barcaiolo),
            68 => Some(Skill_Names::Bibliotecario),
            69 => Some(Skill_Names::Birraio),
            70 => Some(Skill_Names::Boscaiolo),
            71 => Some(Skill_Names::Cacciatore),
            72 => Some(Skill_Names::Carovaniere),
            73 => Some(Skill_Names::Conciatore),
            74 => Some(Skill_Names::Conestabile),
            75 => Some(Skill_Names::Contabile),
            76 => Some(Skill_Names::Contadino),
            77 => Some(Skill_Names::Cortigiano),
            78 => Some(Skill_Names::Cuoco),
            79 => Some(Skill_Names::Erborista),
            80 => Some(Skill_Names::Farmacista),
            81 => Some(Skill_Names::Fornaio),
            82 => Some(Skill_Names::Giardiniere),
            83 => Some(Skill_Names::Giocatore_Azzardo),
            84 => Some(Skill_Names::Guida),
            85 => Some(Skill_Names::Ingegnere),
            86 => Some(Skill_Names::Levatrice),
            87 => Some(Skill_Names::Locandiere),
            88 => Some(Skill_Names::Macellaio),
            89 => Some(Skill_Names::Marinaio),
            90 => Some(Skill_Names::Mercante),
            91 => Some(Skill_Names::Minatore),
            92 => Some(Skill_Names::Mugnaio),
            93 => Some(Skill_Names::Pastore),
            94 => Some(Skill_Names::Pescatore),
            95 => Some(Skill_Names::Scrivano),
            96 => Some(Skill_Names::Siniscalco),
            97 => Some(Skill_Names::Soldato),
            98 => Some(Skill_Names::Stalliere),
            99 => Some(Skill_Names::Taglialegna),
            100 => Some(Skill_Names::Raggirare),
            101 => Some(Skill_Names::Rapidit),
            102 => Some(Skill_Names::Sapienza),
            103 => Some(Skill_Names::Scalare),
            104 => Some(Skill_Names::Sopravvivenza),
            105 => Some(Skill_Names::SeguireTracce),
            106 => Some(Skill_Names::Utilizzare),
            107 => Some(Skill_Names::Valutare),
            108 => Some(Skill_Names::Volare),
            109 => Some(Skill_Names::Acqua),
            110 => Some(Skill_Names::Foreste),
            111 => Some(Skill_Names::Paludi),
            112 => Some(Skill_Names::Ascoltare),
            113 => Some(Skill_Names::Individuare),
            114 => Some(Skill_Names::Tutte),
            115 => Some(Skill_Names::Qualsiasi),
            116 => Some(Skill_Names::UnaQualsiasi),
            117 => Some(Skill_Names::UnoQualsiasi),
            _ => None,
        }
    }

    /// The skill numbered `v` (see `spec_from_u16`).
    pub fn from_u16(v: u16) -> (r: Skill_Names)
        requires
            Self::spec_from_u16(v) is Some,
        ensures
            Self::spec_from_u16(v) == Some(r),
    {
        match Self::try_from_u16(v) {
            Some(s) => s,
            None => Skill_Names::Acrobazia,
        }
    }
}

/// Every name maps to a code below the number of skills.
pub proof fn lemma_skill_codes_below(s: Seq<char>)
    ensures
        skill_code_of_name(s) matches Some(c) ==> c < 118,
{
}

/// Looking up the name of a skill gives back its code, except for the
/// second spelling of local knowledge (`locale`), which looks up as the first.
#[verifier::rlimit(100)]
pub proof fn lemma_skill_name_round_trip(v: Skill_Names)
    ensures
        Skill_Names::spec_from_str(v.spec_as_str()) == if v == Skill_Names::Conoscenze_Locali2 {
            Skill_Names::Conoscenze_Locali.spec_code()
        } else {
            v.spec_code()
        },
        Skill_Names::spec_is_valid(v.spec_as_str()),
{
    reveal_strlit("Acrobazia");
    reveal_strlit("saltare");
    reveal_strlit("salta");
    reveal_strlit("Addestrare Animali");
    reveal_strlit("Artigianato");
    reveal_strlit("alchimia");
    reveal_strlit("calligrafia");
    reveal_strlit("carpenteria");
    reveal_strlit("ceramica");
    reveal_strlit("costruire archi");
    reveal_strlit("costruire navi");
    reveal_strlit("costruire trappole");
    reveal_strlit("trappole");
    reveal_strlit("fabbricare armature");
    reveal_strlit("fabbricare armi");
    reveal_strlit("ferramenta");
    reveal_strlit("intessere ceste");
    reveal_strlit("lavorare pellami");
    reveal_strlit("lavori in muratura");
    reveal_strlit("metallurgia");
    reveal_strlit("pittura");
    reveal_strlit("oreficeria");
    reveal_strlit("rilegare libri");
    reveal_strlit("riparare scarpe");
    reveal_strlit("scultura");
    reveal_strlit("tessitura");
    reveal_strlit("Artista della Fuga");
    reveal_strlit("Camuffare");
    reveal_strlit("Cavalcare");
    reveal_strlit("Conoscenze");
    reveal_strlit("arcane");
    reveal_strlit("arcana");
    reveal_strlit("dungeon");
    reveal_strlit("geografia");
    reveal_strlit("ingegneria");
    reveal_strlit("locali");
    reveal_strlit("locale");
    reveal_strlit("natura");
    reveal_strlit("nobiltà");
    reveal_strlit("piani");
    reveal_strlit("religioni");
    reveal_strlit("religione");
    reveal_strlit("storia");
    reveal_strlit("Diplomazia");
    reveal_strlit("Disattivare Congegni");
    reveal_strlit("Furtività");
    reveal_strlit("Guarire");
    reveal_strlit("Intimidire");
    reveal_strlit("Intrattenere");
    reveal_strlit("canto");
    reveal_strlit("cantare");
    reveal_strlit("commedia");
    reveal_strlit("danza");
    reveal_strlit("oratoria");
    reveal_strlit("recitazione");
    reveal_strlit("strumenti a corda");
    reveal_strlit("strumenti a fiato");
    reveal_strlit("strumenti a percussione");
    reveal_strlit("strumenti a tastiera");
    reveal_strlit("Intuizione");
    reveal_strlit("Linguistica");
    reveal_strlit("Nuotare");
    reveal_strlit("Percezione");
    reveal_strlit("Professione");
    reveal_strlit("allevatore");
    reveal_strlit("architetto");
    reveal_strlit("avvocato");
    reveal_strlit("barcaiolo");
    reveal_strlit("bibliotecario");
    reveal_strlit("birraio");
    reveal_strlit("boscaiolo");
    reveal_strlit("cacciatore");
    reveal_strlit("carovaniere");
    reveal_strlit("conciatore");
    reveal_strlit("conestabile");
    reveal_strlit("contabile");
    reveal_strlit("contadino");
    reveal_strlit("cortigiano");
    reveal_strlit("cuoco");
    reveal_strlit("erborista");
    reveal_strlit("farmacista");
    reveal_strlit("fornaio");
    reveal_strlit("giardiniere");
    reveal_strlit("giocatore d'azzardo");
    reveal_strlit("guida");
    reveal_strlit("ingegnere");
    reveal_strlit("levatrice");
    reveal_strlit("locandiere");
    reveal_strlit("macellaio");
    reveal_strlit("marinaio");
    reveal_strlit("mercante");
    reveal_strlit("minatore");
    reveal_strlit("mugnaio");
    reveal_strlit("pastore");
    reveal_strlit("pescatore");
    reveal_strlit("scrivano");
    reveal_strlit("siniscalco");
    reveal_strlit("soldato");
    reveal_strlit("stalliere");
    reveal_strlit("taglialegna");
    reveal_strlit("Raggirare");
    reveal_strlit("Rapidità di Mano");
    reveal_strlit("Sapienza Magica");
    reveal_strlit("Scalare");
    reveal_strlit("Sopravvivenza");
    reveal_strlit("seguire tracce");
    reveal_strlit("Utilizzare Congegni Magici");
    reveal_strlit("Valutare");
    reveal_strlit("Volare");
    reveal_strlit("acqua");
    reveal_strlit("foreste");
    reveal_strlit("paludi");
    reveal_strlit("Ascoltare");
    reveal_strlit("Individuare");
    reveal_strlit("tutte");
    reveal_strlit("qualsiasi");
    reveal_strlit("una qualsiasi");
    reveal_strlit("uno qualsiasi");
    assert("Acrobazia"@.len() == 9);
    assert("saltare"@.len() == 7);
    assert("salta"@.len() == 5);
    assert("Addestrare Animali"@.len() == 18);
    assert("Artigianato"@.len() == 11);
    assert("alchimia"@.len() == 8);
    assert("calligrafia"@.len() == 11);
    assert("carpenteria"@.len() == 11);
    assert("ceramica"@.len() == 8);
    assert("costruire archi"@.len() == 15);
    assert("costruire navi"@.len() == 14);
    assert("costruire trappole"@.len() == 18);
    assert("trappole"@.len() == 8);
    assert("fabbricare armature"@.len() == 19);
    assert("fabbricare armi"@.len() == 15);
    assert("ferramenta"@.len() == 10);
    assert("intessere ceste"@.len() == 15);
    assert("lavorare pellami"@.len() == 16);
    assert("lavori in muratura"@.len() == 18);
    assert("metallurgia"@.len() == 11);
    assert("pittura"@.len() == 7);
    assert("oreficeria"@.len() == 10);
    assert("rilegare libri"@.len() == 14);
    assert("riparare scarpe"@.len() == 15);
    assert("scultura"@.len() == 8);
    assert("tessitura"@.len() == 9);
    assert("Artista della Fuga"@.len() == 18);
    assert("Camuffare"@.len() == 9);
    assert("Cavalcare"@.len() == 9);
    assert("Conoscenze"@.len() == 10);
    assert("arcane"@.len() == 6);
    assert("arcana"@.len() == 6);
    assert("dungeon"@.len() == 7);
    assert("geografia"@.len() == 9);
    assert("ingegneria"@.len() == 10);
    assert("locali"@.len() == 6);
    assert("locale"@.len() == 6);
    assert("natura"@.len() == 6);
    assert("nobiltà"@.len() == 7);
    assert("piani"@.len() == 5);
    assert("religioni"@.len() == 9);
    assert("religione"@.len() == 9);
    assert("storia"@.len() == 6);
    assert("Diplomazia"@.len() == 10);
    assert("Disattivare Congegni"@.len() == 20);
    assert("Furtività"@.len() == 9);
    assert("Guarire"@.len() == 7);
    assert("Intimidire"@.len() == 10);
    assert("Intrattenere"@.len() == 12);
    assert("canto"@.len() == 5);
    assert("cantare"@.len() == 7);
    assert("commedia"@.len() == 8);
    assert("danza"@.len() == 5);
    assert("oratoria"@.len() == 8);
    assert("recitazione"@.len() == 11);
    assert("strumenti a corda"@.len() == 17);
    assert("strumenti a fiato"@.len() == 17);
    assert("strumenti a percussione"@.len() == 23);
    assert("strumenti a tastiera"@.len() == 20);
    assert("Intuizione"@.len() == 10);
    assert("Linguistica"@.len() == 11);
    assert("Nuotare"@.len() == 7);
    assert("Percezione"@.len() == 10);
    assert("Professione"@.len() == 11);
    assert("allevatore"@.len() == 10);
    assert("architetto"@.len() == 10);
    assert("avvocato"@.len() == 8);
    assert("barcaiolo"@.len() == 9);
    assert("bibliotecario"@.len() == 13);
    assert("birraio"@.len() == 7);
    assert("boscaiolo"@.len() == 9);
    assert("cacciatore"@.len() == 10);
    assert("carovaniere"@.len() == 11);
    assert("conciatore"@.len() == 10);
    assert("conestabile"@.len() == 11);
    assert("contabile"@.len() == 9);
    assert("contadino"@.len() == 9);
    assert("cortigiano"@.len() == 10);
    assert("cuoco"@.len() == 5);
    assert("erborista"@.len() == 9);
    assert("farmacista"@.len() == 10);
    assert("fornaio"@.len() == 7);
    assert("giardiniere"@.len() == 11);
    assert("giocatore d'azzardo"@.len() == 19);
    assert("guida"@.len() == 5);
    assert("ingegnere"@.len() == 9);
    assert("levatrice"@.len() == 9);
    assert("locandiere"@.len() == 10);
    assert("macellaio"@.len() == 9);
    assert("marinaio"@.len() == 8);
    assert("mercante"@.len() == 8);
    assert("minatore"@.len() == 8);
    assert("mugnaio"@.len() == 7);
    assert("pastore"@.len() == 7);
    assert("pescatore"@.len() == 9);
    assert("scrivano"@.len() == 8);
    assert("siniscalco"@.len() == 10);
    assert("soldato"@.len() == 7);
    assert("stalliere"@.len() == 9);
    assert("taglialegna"@.len() == 11);
    assert("Raggirare"@.len() == 9);
    assert("Rapidità di Mano"@.len() == 16);
    assert("Sapienza Magica"@.len() == 15);
    assert("Scalare"@.len() == 7);
    assert("Sopravvivenza"@.len() == 13);
    assert("seguire tracce"@.len() == 14);
    assert("Utilizzare Congegni Magici"@.len() == 26);
    assert("Valutare"@.len() == 8);
    assert("Volare"@.len() == 6);
    assert("acqua"@.len() == 5);
    assert("foreste"@.len() == 7);
    assert("paludi"@.len() == 6);
    assert("Ascoltare"@.len() == 9);
    assert("Individuare"@.len() == 11);
    assert("tutte"@.len() == 5);
    assert("qualsiasi"@.len() == 9);
    assert("una qualsiasi"@.len() == 13);
    assert("uno qualsiasi"@.len() == 13);
    assert("calligrafia"@[0] != "Artigianato"@[0]);
    assert("carpenteria"@[0] != "Artigianato"@[0]);
    assert("carpenteria"@[2] != "calligrafia"@[2]);
    assert("ceramica"@[0] != "alchimia"@[0]);
    assert("costruire trappole"@[0] != "Addestrare Animali"@[0]);
    assert("trappole"@[0] != "alchimia"@[0]);
    assert("trappole"@[0] != "ceramica"@[0]);
    assert("fabbricare armi"@[0] != "costruire archi"@[0]);
    assert("intessere ceste"@[0] != "costruire archi"@[0]);
    assert("intessere ceste"@[0] != "fabbricare armi"@[0]);
    assert("lavori in muratura"@[0] != "Addestrare Animali"@[0]);
    assert("lavori in muratura"@[0] != "costruire trappole"@[0]);
    assert("metallurgia"@[0] != "Artigianato"@[0]);
    assert("metallurgia"@[0] != "calligrafia"@[0]);
    assert("metallurgia"@[0] != "carpenteria"@[0]);
    assert("pittura"@[0] != "saltare"@[0]);
    assert("oreficeria"@[0] != "ferramenta"@[0]);
    assert("rilegare libri"@[0] != "costruire navi"@[0]);
    assert("riparare scarpe"@[0] != "costruire archi"@[0]);
    assert("riparare scarpe"@[0] != "fabbricare armi"@[0]);
    assert("riparare scarpe"@[0] != "intessere ceste"@[0]);
    assert("scultura"@[0] != "alchimia"@[0]);
    assert("scultura"@[0] != "ceramica"@[0]);
    assert("scultura"@[0] != "trappole"@[0]);
    assert("tessitura"@[0] != "Acrobazia"@[0]);
    assert("Artista della Fuga"@[1] != "Addestrare Animali"@[1]);
    assert("Artista della Fuga"@[0] != "costruire trappole"@[0]);
    assert("Artista della Fuga"@[0] != "lavori in muratura"@[0]);
    assert("Camuffare"@[0] != "Acrobazia"@[0]);
    assert("Camuffare"@[0] != "tessitura"@[0]);
    assert("Cavalcare"@[0] != "Acrobazia"@[0]);
    assert("Cavalcare"@[0] != "tessitura"@[0]);
    assert("Cavalcare"@[2] != "Camuffare"@[2]);
    assert("Conoscenze"@[0] != "ferramenta"@[0]);
    assert("Conoscenze"@[0] != "oreficeria"@[0]);
    assert("arcana"@[5] != "arcane"@[5]);
    assert("dungeon"@[0] != "saltare"@[0]);
    assert("dungeon"@[0] != "pittura"@[0]);
    assert("geografia"@[0] != "Acrobazia"@[0]);
    assert("geografia"@[0] != "tessitura"@[0]);
    assert("geografia"@[0] != "Camuffare"@[0]);
    assert("geografia"@[0] != "Cavalcare"@[0]);
    assert("ingegneria"@[0] != "ferramenta"@[0]);
    assert("ingegneria"@[0] != "oreficeria"@[0]);
    assert("ingegneria"@[0] != "Conoscenze"@[0]);
    assert("locali"@[0] != "arcane"@[0]);
    assert("locali"@[0] != "arcana"@[0]);
    assert("locale"@[0] != "arcane"@[0]);
    assert("locale"@[0] != "arcana"@[0]);
    assert("locale"@[5] != "locali"@[5]);
    assert("natura"@[0] != "arcane"@[0]);
    assert("natura"@[0] != "arcana"@[0]);
    assert("natura"@[0] != "locali"@[0]);
    assert("natura"@[0] != "locale"@[0]);
    assert("nobiltà"@[0] != "costruire navi"@[0]);
    assert("nobiltà"@[0] != "rilegare libri"@[0]);
    assert("piani"@[0] != "salta"@[0]);
    assert("religioni"@[0] != "Acrobazia"@[0]);
    assert("religioni"@[0] != "tessitura"@[0]);
    assert("religioni"@[0] != "Camuffare"@[0]);
    assert("religioni"@[0] != "Cavalcare"@[0]);
    assert("religioni"@[0] != "geografia"@[0]);
    assert("religione"@[0] != "Acrobazia"@[0]);
    assert("religione"@[0] != "tessitura"@[0]);
    assert("religione"@[0] != "Camuffare"@[0]);
    assert("religione"@[0] != "Cavalcare"@[0]);
    assert("religione"@[0] != "geografia"@[0]);
    assert("religione"@[8] != "religioni"@[8]);
    assert("storia"@[0] != "arcane"@[0]);
    assert("storia"@[0] != "arcana"@[0]);
    assert("storia"@[0] != "locali"@[0]);
    assert("storia"@[0] != "locale"@[0]);
    assert("storia"@[0] != "natura"@[0]);
    assert("Diplomazia"@[0] != "ferramenta"@[0]);
    assert("Diplomazia"@[0] != "oreficeria"@[0]);
    assert("Diplomazia"@[0] != "Conoscenze"@[0]);
    assert("Diplomazia"@[0] != "ingegneria"@[0]);
    assert("Furtività"@[0] != "lavorare pellami"@[0]);
    assert("Guarire"@[0] != "saltare"@[0]);
    assert("Guarire"@[0] != "pittura"@[0]);
    assert("Guarire"@[0] != "dungeon"@[0]);
    assert("Intimidire"@[0] != "ferramenta"@[0]);
    assert("Intimidire"@[0] != "oreficeria"@[0]);
    assert("Intimidire"@[0] != "Conoscenze"@[0]);
    assert("Intimidire"@[0] != "ingegneria"@[0]);
    assert("Intimidire"@[0] != "Diplomazia"@[0]);
    assert("canto"@[0] != "salta"@[0]);
    assert("canto"@[0] != "piani"@[0]);
    assert("cantare"@[0] != "saltare"@[0]);
    assert("cantare"@[0] != "pittura"@[0]);
    assert("cantare"@[0] != "dungeon"@[0]);
    assert("cantare"@[0] != "Guarire"@[0]);
    assert("commedia"@[0] != "alchimia"@[0]);
    assert("commedia"@[1] != "ceramica"@[1]);
    assert("commedia"@[0] != "trappole"@[0]);
    assert("commedia"@[0] != "scultura"@[0]);
    assert("danza"@[0] != "salta"@[0]);
    assert("danza"@[0] != "piani"@[0]);
    assert("danza"@[0] != "canto"@[0]);
    assert("oratoria"@[0] != "alchimia"@[0]);
    assert("oratoria"@[0] != "ceramica"@[0]);
    assert("oratoria"@[0] != "trappole"@[0]);
    assert("oratoria"@[0] != "scultura"@[0]);
    assert("oratoria"@[0] != "commedia"@[0]);
    assert("recitazione"@[0] != "Artigianato"@[0]);
    assert("recitazione"@[0] != "calligrafia"@[0]);
    assert("recitazione"@[0] != "carpenteria"@[0]);
    assert("recitazione"@[0] != "metallurgia"@[0]);
    assert("strumenti a fiato"@[12] != "strumenti a corda"@[12]);
    assert("strumenti a tastiera"@[0] != "Disattivare Congegni"@[0]);
    assert("Intuizione"@[0] != "ferramenta"@[0]);
    assert("Intuizione"@[0] != "oreficeria"@[0]);
    assert("Intuizione"@[0] != "Conoscenze"@[0]);
    assert("Intuizione"@[0] != "ingegneria"@[0]);
    assert("Intuizione"@[0] != "Diplomazia"@[0]);
    assert("Intuizione"@[3] != "Intimidire"@[3]);
    assert("Linguistica"@[0] != "Artigianato"@[0]);
    assert("Linguistica"@[0] != "calligrafia"@[0]);
    assert("Linguistica"@[0] != "carpenteria"@[0]);
    assert("Linguistica"@[0] != "metallurgia"@[0]);
    assert("Linguistica"@[0] != "recitazione"@[0]);
    assert("Nuotare"@[0] != "saltare"@[0]);
    assert("Nuotare"@[0] != "pittura"@[0]);
    assert("Nuotare"@[0] != "dungeon"@[0]);
    assert("Nuotare"@[0] != "Guarire"@[0]);
    assert("Nuotare"@[0] != "cantare"@[0]);
    assert("Percezione"@[0] != "ferramenta"@[0]);
    assert("Percezione"@[0] != "oreficeria"@[0]);
    assert("Percezione"@[0] != "Conoscenze"@[0]);
    assert("Percezione"@[0] != "ingegneria"@[0]);
    assert("Percezione"@[0] != "Diplomazia"@[0]);
    assert("Percezione"@[0] != "Intimidire"@[0]);
    assert("Percezione"@[0] != "Intuizione"@[0]);
    assert("Professione"@[0] != "Artigianato"@[0]);
    assert("Professione"@[0] != "calligrafia"@[0]);
    assert("Professione"@[0] != "carpenteria"@[0]);
    assert("Professione"@[0] != "metallurgia"@[0]);
    assert("Professione"@[0] != "recitazione"@[0]);
    assert("Professione"@[0] != "Linguistica"@[0]);
    assert("allevatore"@[0] != "ferramenta"@[0]);
    assert("allevatore"@[0] != "oreficeria"@[0]);
    assert("allevatore"@[0] != "Conoscenze"@[0]);
    assert("allevatore"@[0] != "ingegneria"@[0]);
    assert("allevatore"@[0] != "Diplomazia"@[0]);
    assert("allevatore"@[0] != "Intimidire"@[0]);
    assert("allevatore"@[0] != "Intuizione"@[0]);
    assert("allevatore"@[0] != "Percezione"@[0]);
    assert("architetto"@[0] != "ferramenta"@[0]);
    assert("architetto"@[0] != "oreficeria"@[0]);
    assert("architetto"@[0] != "Conoscenze"@[0]);
    assert("architetto"@[0] != "ingegneria"@[0]);
    assert("architetto"@[0] != "Diplomazia"@[0]);
    assert("architetto"@[0] != "Intimidire"@[0]);
    assert("architetto"@[0] != "Intuizione"@[0]);
    assert("architetto"@[0] != "Percezione"@[0]);
    assert("architetto"@[1] != "allevatore"@[1]);
    assert("avvocato"@[1] != "alchimia"@[1]);
    assert("avvocato"@[0] != "ceramica"@[0]);
    assert("avvocato"@[0] != "trappole"@[0]);
    assert("avvocato"@[0] != "scultura"@[0]);
    assert("avvocato"@[0] != "commedia"@[0]);
    assert("avvocato"@[0] != "oratoria"@[0]);
    assert("barcaiolo"@[0] != "Acrobazia"@[0]);
    assert("barcaiolo"@[0] != "tessitura"@[0]);
    assert("barcaiolo"@[0] != "Camuffare"@[0]);
    assert("barcaiolo"@[0] != "Cavalcare"@[0]);
    assert("barcaiolo"@[0] != "geografia"@[0]);
    assert("barcaiolo"@[0] != "religioni"@[0]);
    assert("barcaiolo"@[0] != "religione"@[0]);
    assert("birraio"@[0] != "saltare"@[0]);
    assert("birraio"@[0] != "pittura"@[0]);
    assert("birraio"@[0] != "dungeon"@[0]);
    assert("birraio"@[0] != "Guarire"@[0]);
    assert("birraio"@[0] != "cantare"@[0]);
    assert("birraio"@[0] != "Nuotare"@[0]);
    assert("boscaiolo"@[0] != "Acrobazia"@[0]);
    assert("boscaiolo"@[0] != "tessitura"@[0]);
    assert("boscaiolo"@[0] != "Camuffare"@[0]);
    assert("boscaiolo"@[0] != "Cavalcare"@[0]);
    assert("boscaiolo"@[0] != "geografia"@[0]);
    assert("boscaiolo"@[0] != "religioni"@[0]);
    assert("boscaiolo"@[0] != "religione"@[0]);
    assert("boscaiolo"@[1] != "barcaiolo"@[1]);
    assert("cacciatore"@[0] != "ferramenta"@[0]);
    assert("cacciatore"@[0] != "oreficeria"@[0]);
    assert("cacciatore"@[0] != "Conoscenze"@[0]);
    assert("cacciatore"@[0] != "ingegneria"@[0]);
    assert("cacciatore"@[0] != "Diplomazia"@[0]);
    assert("cacciatore"@[0] != "Intimidire"@[0]);
    assert("cacciatore"@[0] != "Intuizione"@[0]);
    assert("cacciatore"@[0] != "Percezione"@[0]);
    assert("cacciatore"@[0] != "allevatore"@[0]);
    assert("cacciatore"@[0] != "architetto"@[0]);
    assert("carovaniere"@[0] != "Artigianato"@[0]);
    assert("carovaniere"@[2] != "calligrafia"@[2]);
    assert("carovaniere"@[3] != "carpenteria"@[3]);
    assert("carovaniere"@[0] != "metallurgia"@[0]);
    assert("carovaniere"@[0] != "recitazione"@[0]);
    assert("carovaniere"@[0] != "Linguistica"@[0]);
    assert("carovaniere"@[0] != "Professione"@[0]);
    assert("conciatore"@[0] != "ferramenta"@[0]);
    assert("conciatore"@[0] != "oreficeria"@[0]);
    assert("conciatore"@[0] != "Conoscenze"@[0]);
    assert("conciatore"@[0] != "ingegneria"@[0]);
    assert("conciatore"@[0] != "Diplomazia"@[0]);
    assert("conciatore"@[0] != "Intimidire"@[0]);
    assert("conciatore"@[0] != "Intuizione"@[0]);
    assert("conciatore"@[0] != "Percezione"@[0]);
    assert("conciatore"@[0] != "allevatore"@[0]);
    assert("conciatore"@[0] != "architetto"@[0]);
    assert("conciatore"@[1] != "cacciatore"@[1]);
    assert("conestabile"@[0] != "Artigianato"@[0]);
    assert("conestabile"@[1] != "calligrafia"@[1]);
    assert("conestabile"@[1] != "carpenteria"@[1]);
    assert("conestabile"@[0] != "metallurgia"@[0]);
    assert("conestabile"@[0] != "recitazione"@[0]);
    assert("conestabile"@[0] != "Linguistica"@[0]);
    assert("conestabile"@[0] != "Professione"@[0]);
    assert("conestabile"@[1] != "carovaniere"@[1]);
    assert("contabile"@[0] != "Acrobazia"@[0]);
    assert("contabile"@[0] != "tessitura"@[0]);
    assert("contabile"@[0] != "Camuffare"@[0]);
    assert("contabile"@[0] != "Cavalcare"@[0]);
    assert("contabile"@[0] != "geografia"@[0]);
    assert("contabile"@[0] != "religioni"@[0]);
    assert("contabile"@[0] != "religione"@[0]);
    assert("contabile"@[0] != "barcaiolo"@[0]);
    assert("contabile"@[0] != "boscaiolo"@[0]);
    assert("contadino"@[0] != "Acrobazia"@[0]);
    assert("contadino"@[0] != "tessitura"@[0]);
    assert("contadino"@[0] != "Camuffare"@[0]);
    assert("contadino"@[0] != "Cavalcare"@[0]);
    assert("contadino"@[0] != "geografia"@[0]);
    assert("contadino"@[0] != "religioni"@[0]);
    assert("contadino"@[0] != "religione"@[0]);
    assert("contadino"@[0] != "barcaiolo"@[0]);
    assert("contadino"@[0] != "boscaiolo"@[0]);
    assert("contadino"@[5] != "contabile"@[5]);
    assert("cortigiano"@[0] != "ferramenta"@[0]);
    assert("cortigiano"@[0] != "oreficeria"@[0]);
    assert("cortigiano"@[0] != "Conoscenze"@[0]);
    assert("cortigiano"@[0] != "ingegneria"@[0]);
    assert("cortigiano"@[0] != "Diplomazia"@[0]);
    assert("cortigiano"@[0] != "Intimidire"@[0]);
    assert("cortigiano"@[0] != "Intuizione"@[0]);
    assert("cortigiano"@[0] != "Percezione"@[0]);
    assert("cortigiano"@[0] != "allevatore"@[0]);
    assert("cortigiano"@[0] != "architetto"@[0]);
    assert("cortigiano"@[1] != "cacciatore"@[1]);
    assert("cortigiano"@[2] != "conciatore"@[2]);
    assert("cuoco"@[0] != "salta"@[0]);
    assert("cuoco"@[0] != "piani"@[0]);
    assert("cuoco"@[1] != "canto"@[1]);
    assert("cuoco"@[0] != "danza"@[0]);
    assert("erborista"@[0] != "Acrobazia"@[0]);
    assert("erborista"@[0] != "tessitura"@[0]);
    assert("erborista"@[0] != "Camuffare"@[0]);
    assert("erborista"@[0] != "Cavalcare"@[0]);
    assert("erborista"@[0] != "geografia"@[0]);
    assert("erborista"@[0] != "religioni"@[0]);
    assert("erborista"@[0] != "religione"@[0]);
    assert("erborista"@[0] != "barcaiolo"@[0]);
    assert("erborista"@[0] != "boscaiolo"@[0]);
    assert("erborista"@[0] != "contabile"@[0]);
    assert("erborista"@[0] != "contadino"@[0]);
    assert("farmacista"@[1] != "ferramenta"@[1]);
    assert("farmacista"@[0] != "oreficeria"@[0]);
    assert("farmacista"@[0] != "Conoscenze"@[0]);
    assert("farmacista"@[0] != "ingegneria"@[0]);
    assert("farmacista"@[0] != "Diplomazia"@[0]);
    assert("farmacista"@[0] != "Intimidire"@[0]);
    assert("farmacista"@[0] != "Intuizione"@[0]);
    assert("farmacista"@[0] != "Percezione"@[0]);
    assert("farmacista"@[0] != "allevatore"@[0]);
    assert("farmacista"@[0] != "architetto"@[0]);
    assert("farmacista"@[0] != "cacciatore"@[0]);
    assert("farmacista"@[0] != "conciatore"@[0]);
    assert("farmacista"@[0] != "cortigiano"@[0]);
    assert("fornaio"@[0] != "saltare"@[0]);
    assert("fornaio"@[0] != "pittura"@[0]);
    assert("fornaio"@[0] != "dungeon"@[0]);
    assert("fornaio"@[0] != "Guarire"@[0]);
    assert("fornaio"@[0] != "cantare"@[0]);
    assert("fornaio"@[0] != "Nuotare"@[0]);
    assert("fornaio"@[0] != "birraio"@[0]);
    assert("giardiniere"@[0] != "Artigianato"@[0]);
    assert("giardiniere"@[0] != "calligrafia"@[0]);
    assert("giardiniere"@[0] != "carpenteria"@[0]);
    assert("giardiniere"@[0] != "metallurgia"@[0]);
    assert("giardiniere"@[0] != "recitazione"@[0]);
    assert("giardiniere"@[0] != "Linguistica"@[0]);
    assert("giardiniere"@[0] != "Professione"@[0]);
    assert("giardiniere"@[0] != "carovaniere"@[0]);
    assert("giardiniere"@[0] != "conestabile"@[0]);
    assert("giocatore d'azzardo"@[0] != "fabbricare armature"@[0]);
    assert("guida"@[0] != "salta"@[0]);
    assert("guida"@[0] != "piani"@[0]);
    assert("guida"@[0] != "canto"@[0]);
    assert("guida"@[0] != "danza"@[0]);
    assert("guida"@[0] != "cuoco"@[0]);
    assert("ingegnere"@[0] != "Acrobazia"@[0]);
    assert("ingegnere"@[0] != "tessitura"@[0]);
    assert("ingegnere"@[0] != "Camuffare"@[0]);
    assert("ingegnere"@[0] != "Cavalcare"@[0]);
    assert("ingegnere"@[0] != "geografia"@[0]);
    assert("ingegnere"@[0] != "religioni"@[0]);
    assert("ingegnere"@[0] != "religione"@[0]);
    assert("ingegnere"@[0] != "barcaiolo"@[0]);
    assert("ingegnere"@[0] != "boscaiolo"@[0]);
    assert("ingegnere"@[0] != "contabile"@[0]);
    assert("ingegnere"@[0] != "contadino"@[0]);
    assert("ingegnere"@[0] != "erborista"@[0]);
    assert("levatrice"@[0] != "Acrobazia"@[0]);
    assert("levatrice"@[0] != "tessitura"@[0]);
    assert("levatrice"@[0] != "Camuffare"@[0]);
    assert("levatrice"@[0] != "Cavalcare"@[0]);
    assert("levatrice"@[0] != "geografia"@[0]);
    assert("levatrice"@[0] != "religioni"@[0]);
    assert("levatrice"@[0] != "religione"@[0]);
    assert("levatrice"@[0] != "barcaiolo"@[0]);
    assert("levatrice"@[0] != "boscaiolo"@[0]);
    assert("levatrice"@[0] != "contabile"@[0]);
    assert("levatrice"@[0] != "contadino"@[0]);
    assert("levatrice"@[0] != "erborista"@[0]);
    assert("levatrice"@[0] != "ingegnere"@[0]);
    assert("locandiere"@[0] != "ferramenta"@[0]);
    assert("locandiere"@[0] != "oreficeria"@[0]);
    assert("locandiere"@[0] != "Conoscenze"@[0]);
    assert("locandiere"@[0] != "ingegneria"@[0]);
    assert("locandiere"@[0] != "Diplomazia"@[0]);
    assert("locandiere"@[0] != "Intimidire"@[0]);
    assert("locandiere"@[0] != "Intuizione"@[0]);
    assert("locandiere"@[0] != "Percezione"@[0]);
    assert("locandiere"@[0] != "allevatore"@[0]);
    assert("locandiere"@[0] != "architetto"@[0]);
    assert("locandiere"@[0] != "cacciatore"@[0]);
    assert("locandiere"@[0] != "conciatore"@[0]);
    assert("locandiere"@[0] != "cortigiano"@[0]);
    assert("locandiere"@[0] != "farmacista"@[0]);
    assert("macellaio"@[0] != "Acrobazia"@[0]);
    assert("macellaio"@[0] != "tessitura"@[0]);
    assert("macellaio"@[0] != "Camuffare"@[0]);
    assert("macellaio"@[0] != "Cavalcare"@[0]);
    assert("macellaio"@[0] != "geografia"@[0]);
    assert("macellaio"@[0] != "religioni"@[0]);
    assert("macellaio"@[0] != "religione"@[0]);
    assert("macellaio"@[0] != "barcaiolo"@[0]);
    assert("macellaio"@[0] != "boscaiolo"@[0]);
    assert("macellaio"@[0] != "contabile"@[0]);
    assert("macellaio"@[0] != "contadino"@[0]);
    assert("macellaio"@[0] != "erborista"@[0]);
    assert("macellaio"@[0] != "ingegnere"@[0]);
    assert("macellaio"@[0] != "levatrice"@[0]);
    assert("marinaio"@[0] != "alchimia"@[0]);
    assert("marinaio"@[0] != "ceramica"@[0]);
    assert("marinaio"@[0] != "trappole"@[0]);
    assert("marinaio"@[0] != "scultura"@[0]);
    assert("marinaio"@[0] != "commedia"@[0]);
    assert("marinaio"@[0] != "oratoria"@[0]);
    assert("marinaio"@[0] != "avvocato"@[0]);
    assert("mercante"@[0] != "alchimia"@[0]);
    assert("mercante"@[0] != "ceramica"@[0]);
    assert("mercante"@[0] != "trappole"@[0]);
    assert("mercante"@[0] != "scultura"@[0]);
    assert("mercante"@[0] != "commedia"@[0]);
    assert("mercante"@[0] != "oratoria"@[0]);
    assert("mercante"@[0] != "avvocato"@[0]);
    assert("mercante"@[1] != "marinaio"@[1]);
    assert("minatore"@[0] != "alchimia"@[0]);
    assert("minatore"@[0] != "ceramica"@[0]);
    assert("minatore"@[0] != "trappole"@[0]);
    assert("minatore"@[0] != "scultura"@[0]);
    assert("minatore"@[0] != "commedia"@[0]);
    assert("minatore"@[0] != "oratoria"@[0]);
    assert("minatore"@[0] != "avvocato"@[0]);
    assert("minatore"@[1] != "marinaio"@[1]);
    assert("minatore"@[1] != "mercante"@[1]);
    assert("mugnaio"@[0] != "saltare"@[0]);
    assert("mugnaio"@[0] != "pittura"@[0]);
    assert("mugnaio"@[0] != "dungeon"@[0]);
    assert("mugnaio"@[0] != "Guarire"@[0]);
    assert("mugnaio"@[0] != "cantare"@[0]);
    assert("mugnaio"@[0] != "Nuotare"@[0]);
    assert("mugnaio"@[0] != "birraio"@[0]);
    assert("mugnaio"@[0] != "fornaio"@[0]);
    assert("pastore"@[0] != "saltare"@[0]);
    assert("pastore"@[1] != "pittura"@[1]);
    assert("pastore"@[0] != "dungeon"@[0]);
    assert("pastore"@[0] != "Guarire"@[0]);
    assert("pastore"@[0] != "cantare"@[0]);
    assert("pastore"@[0] != "Nuotare"@[0]);
    assert("pastore"@[0] != "birraio"@[0]);
    assert("pastore"@[0] != "fornaio"@[0]);
    assert("pastore"@[0] != "mugnaio"@[0]);
    assert("pescatore"@[0] != "Acrobazia"@[0]);
    assert("pescatore"@[0] != "tessitura"@[0]);
    assert("pescatore"@[0] != "Camuffare"@[0]);
    assert("pescatore"@[0] != "Cavalcare"@[0]);
    assert("pescatore"@[0] != "geografia"@[0]);
    assert("pescatore"@[0] != "religioni"@[0]);
    assert("pescatore"@[0] != "religione"@[0]);
    assert("pescatore"@[0] != "barcaiolo"@[0]);
    assert("pescatore"@[0] != "boscaiolo"@[0]);
    assert("pescatore"@[0] != "contabile"@[0]);
    assert("pescatore"@[0] != "contadino"@[0]);
    assert("pescatore"@[0] != "erborista"@[0]);
    assert("pescatore"@[0] != "ingegnere"@[0]);
    assert("pescatore"@[0] != "levatrice"@[0]);
    assert("pescatore"@[0] != "macellaio"@[0]);
    assert("scrivano"@[0] != "alchimia"@[0]);
    assert("scrivano"@[0] != "ceramica"@[0]);
    assert("scrivano"@[0] != "trappole"@[0]);
    assert("scrivano"@[2] != "scultura"@[2]);
    assert("scrivano"@[0] != "commedia"@[0]);
    assert("scrivano"@[0] != "oratoria"@[0]);
    assert("scrivano"@[0] != "avvocato"@[0]);
    assert("scrivano"@[0] != "marinaio"@[0]);
    assert("scrivano"@[0] != "mercante"@[0]);
    assert("scrivano"@[0] != "minatore"@[0]);
    assert("siniscalco"@[0] != "ferramenta"@[0]);
    assert("siniscalco"@[0] != "oreficeria"@[0]);
    assert("siniscalco"@[0] != "Conoscenze"@[0]);
    assert("siniscalco"@[0] != "ingegneria"@[0]);
    assert("siniscalco"@[0] != "Diplomazia"@[0]);
    assert("siniscalco"@[0] != "Intimidire"@[0]);
    assert("siniscalco"@[0] != "Intuizione"@[0]);
    assert("siniscalco"@[0] != "Percezione"@[0]);
    assert("siniscalco"@[0] != "allevatore"@[0]);
    assert("siniscalco"@[0] != "architetto"@[0]);
    assert("siniscalco"@[0] != "cacciatore"@[0]);
    assert("siniscalco"@[0] != "conciatore"@[0]);
    assert("siniscalco"@[0] != "cortigiano"@[0]);
    assert("siniscalco"@[0] != "farmacista"@[0]);
    assert("siniscalco"@[0] != "locandiere"@[0]);
    assert("soldato"@[1] != "saltare"@[1]);
    assert("soldato"@[0] != "pittura"@[0]);
    assert("soldato"@[0] != "dungeon"@[0]);
    assert("soldato"@[0] != "Guarire"@[0]);
    assert("soldato"@[0] != "cantare"@[0]);
    assert("soldato"@[0] != "Nuotare"@[0]);
    assert("soldato"@[0] != "birraio"@[0]);
    assert("soldato"@[0] != "fornaio"@[0]);
    assert("soldato"@[0] != "mugnaio"@[0]);
    assert("soldato"@[0] != "pastore"@[0]);
    assert("stalliere"@[0] != "Acrobazia"@[0]);
    assert("stalliere"@[0] != "tessitura"@[0]);
    assert("stalliere"@[0] != "Camuffare"@[0]);
    assert("stalliere"@[0] != "Cavalcare"@[0]);
    assert("stalliere"@[0] != "geografia"@[0]);
    assert("stalliere"@[0] != "religioni"@[0]);
    assert("stalliere"@[0] != "religione"@[0]);
    assert("stalliere"@[0] != "barcaiolo"@[0]);
    assert("stalliere"@[0] != "boscaiolo"@[0]);
    assert("stalliere"@[0] != "contabile"@[0]);
    assert("stalliere"@[0] != "contadino"@[0]);
    assert("stalliere"@[0] != "erborista"@[0]);
    assert("stalliere"@[0] != "ingegnere"@[0]);
    assert("stalliere"@[0] != "levatrice"@[0]);
    assert("stalliere"@[0] != "macellaio"@[0]);
    assert("stalliere"@[0] != "pescatore"@[0]);
    assert("taglialegna"@[0] != "Artigianato"@[0]);
    assert("taglialegna"@[0] != "calligrafia"@[0]);
    assert("taglialegna"@[0] != "carpenteria"@[0]);
    assert("taglialegna"@[0] != "metallurgia"@[0]);
    assert("taglialegna"@[0] != "recitazione"@[0]);
    assert("taglialegna"@[0] != "Linguistica"@[0]);
    assert("taglialegna"@[0] != "Professione"@[0]);
    assert("taglialegna"@[0] != "carovaniere"@[0]);
    assert("taglialegna"@[0] != "conestabile"@[0]);
    assert("taglialegna"@[0] != "giardiniere"@[0]);
    assert("Raggirare"@[0] != "Acrobazia"@[0]);
    assert("Raggirare"@[0] != "tessitura"@[0]);
    assert("Raggirare"@[0] != "Camuffare"@[0]);
    assert("Raggirare"@[0] != "Cavalcare"@[0]);
    assert("Raggirare"@[0] != "geografia"@[0]);
    assert("Raggirare"@[0] != "religioni"@[0]);
    assert("Raggirare"@[0] != "religione"@[0]);
    assert("Raggirare"@[0] != "barcaiolo"@[0]);
    assert("Raggirare"@[0] != "boscaiolo"@[0]);
    assert("Raggirare"@[0] != "contabile"@[0]);
    assert("Raggirare"@[0] != "contadino"@[0]);
    assert("Raggirare"@[0] != "erborista"@[0]);
    assert("Raggirare"@[0] != "ingegnere"@[0]);
    assert("Raggirare"@[0] != "levatrice"@[0]);
    assert("Raggirare"@[0] != "macellaio"@[0]);
    assert("Raggirare"@[0] != "pescatore"@[0]);
    assert("Raggirare"@[0] != "stalliere"@[0]);
    assert("Rapidità di Mano"@[0] != "strumenti a percussione"@[0]);
    assert("Sapienza Magica"@[0] != "costruire archi"@[0]);
    assert("Sapienza Magica"@[0] != "fabbricare armi"@[0]);
    assert("Sapienza Magica"@[0] != "intessere ceste"@[0]);
    assert("Sapienza Magica"@[0] != "riparare scarpe"@[0]);
    assert("Scalare"@[0] != "saltare"@[0]);
    assert("Scalare"@[0] != "pittura"@[0]);
    assert("Scalare"@[0] != "dungeon"@[0]);
    assert("Scalare"@[0] != "Guarire"@[0]);
    assert("Scalare"@[0] != "cantare"@[0]);
    assert("Scalare"@[0] != "Nuotare"@[0]);
    assert("Scalare"@[0] != "birraio"@[0]);
    assert("Scalare"@[0] != "fornaio"@[0]);
    assert("Scalare"@[0] != "mugnaio"@[0]);
    assert("Scalare"@[0] != "pastore"@[0]);
    assert("Scalare"@[0] != "soldato"@[0]);
    assert("Sopravvivenza"@[0] != "bibliotecario"@[0]);
    assert("seguire tracce"@[0] != "costruire navi"@[0]);
    assert("seguire tracce"@[0] != "rilegare libri"@[0]);
    assert("seguire tracce"@[0] != "nobiltà"@[0]);
    assert("Valutare"@[0] != "alchimia"@[0]);
    assert("Valutare"@[0] != "ceramica"@[0]);
    assert("Valutare"@[0] != "trappole"@[0]);
    assert("Valutare"@[0] != "scultura"@[0]);
    assert("Valutare"@[0] != "commedia"@[0]);
    assert("Valutare"@[0] != "oratoria"@[0]);
    assert("Valutare"@[0] != "avvocato"@[0]);
    assert("Valutare"@[0] != "marinaio"@[0]);
    assert("Valutare"@[0] != "mercante"@[0]);
    assert("Valutare"@[0] != "minatore"@[0]);
    assert("Valutare"@[0] != "scrivano"@[0]);
    assert("Volare"@[0] != "arcane"@[0]);
    assert("Volare"@[0] != "arcana"@[0]);
    assert("Volare"@[0] != "locali"@[0]);
    assert("Volare"@[0] != "locale"@[0]);
    assert("Volare"@[0] != "natura"@[0]);
    assert("Volare"@[0] != "storia"@[0]);
    assert("acqua"@[0] != "salta"@[0]);
    assert("acqua"@[0] != "piani"@[0]);
    assert("acqua"@[0] != "canto"@[0]);
    assert("acqua"@[0] != "danza"@[0]);
    assert("acqua"@[0] != "cuoco"@[0]);
    assert("acqua"@[0] != "guida"@[0]);
    assert("foreste"@[0] != "saltare"@[0]);
    assert("foreste"@[0] != "pittura"@[0]);
    assert("foreste"@[0] != "dungeon"@[0]);
    assert("foreste"@[0] != "Guarire"@[0]);
    assert("foreste"@[0] != "cantare"@[0]);
    assert("foreste"@[0] != "Nuotare"@[0]);
    assert("foreste"@[0] != "birraio"@[0]);
    assert("foreste"@[3] != "fornaio"@[3]);
    assert("foreste"@[0] != "mugnaio"@[0]);
    assert("foreste"@[0] != "pastore"@[0]);
    assert("foreste"@[0] != "soldato"@[0]);
    assert("foreste"@[0] != "Scalare"@[0]);
    assert("paludi"@[0] != "arcane"@[0]);
    assert("paludi"@[0] != "arcana"@[0]);
    assert("paludi"@[0] != "locali"@[0]);
    assert("paludi"@[0] != "locale"@[0]);
    assert("paludi"@[0] != "natura"@[0]);
    assert("paludi"@[0] != "storia"@[0]);
    assert("paludi"@[0] != "Volare"@[0]);
    assert("Ascoltare"@[1] != "Acrobazia"@[1]);
    assert("Ascoltare"@[0] != "tessitura"@[0]);
    assert("Ascoltare"@[0] != "Camuffare"@[0]);
    assert("Ascoltare"@[0] != "Cavalcare"@[0]);
    assert("Ascoltare"@[0] != "geografia"@[0]);
    assert("Ascoltare"@[0] != "religioni"@[0]);
    assert("Ascoltare"@[0] != "religione"@[0]);
    assert("Ascoltare"@[0] != "barcaiolo"@[0]);
    assert("Ascoltare"@[0] != "boscaiolo"@[0]);
    assert("Ascoltare"@[0] != "contabile"@[0]);
    assert("Ascoltare"@[0] != "contadino"@[0]);
    assert("Ascoltare"@[0] != "erborista"@[0]);
    assert("Ascoltare"@[0] != "ingegnere"@[0]);
    assert("Ascoltare"@[0] != "levatrice"@[0]);
    assert("Ascoltare"@[0] != "macellaio"@[0]);
    assert("Ascoltare"@[0] != "pescatore"@[0]);
    assert("Ascoltare"@[0] != "stalliere"@[0]);
    assert("Ascoltare"@[0] != "Raggirare"@[0]);
    assert("Individuare"@[0] != "Artigianato"@[0]);
    assert("Individuare"@[0] != "calligrafia"@[0]);
    assert("Individuare"@[0] != "carpenteria"@[0]);
    assert("Individuare"@[0] != "metallurgia"@[0]);
    assert("Individuare"@[0] != "recitazione"@[0]);
    assert("Individuare"@[0] != "Linguistica"@[0]);
    assert("Individuare"@[0] != "Professione"@[0]);
    assert("Individuare"@[0] != "carovaniere"@[0]);
    assert("Individuare"@[0] != "conestabile"@[0]);
    assert("Individuare"@[0] != "giardiniere"@[0]);
    assert("Individuare"@[0] != "taglialegna"@[0]);
    assert("tutte"@[0] != "salta"@[0]);
    assert("tutte"@[0] != "piani"@[0]);
    assert("tutte"@[0] != "canto"@[0]);
    assert("tutte"@[0] != "danza"@[0]);
    assert("tutte"@[0] != "cuoco"@[0]);
    assert("tutte"@[0] != "guida"@[0]);
    assert("tutte"@[0] != "acqua"@[0]);
    assert("qualsiasi"@[0] != "Acrobazia"@[0]);
    assert("qualsiasi"@[0] != "tessitura"@[0]);
    assert("qualsiasi"@[0] != "Camuffare"@[0]);
    assert("qualsiasi"@[0] != "Cavalcare"@[0]);
    assert("qualsiasi"@[0] != "geografia"@[0]);
    assert("qualsiasi"@[0] != "religioni"@[0]);
    assert("qualsiasi"@[0] != "religione"@[0]);
    assert("qualsiasi"@[0] != "barcaiolo"@[0]);
    assert("qualsiasi"@[0] != "boscaiolo"@[0]);
    assert("qualsiasi"@[0] != "contabile"@[0]);
    assert("qualsiasi"@[0] != "contadino"@[0]);
    assert("qualsiasi"@[0] != "erborista"@[0]);
    assert("qualsiasi"@[0] != "ingegnere"@[0]);
    assert("qualsiasi"@[0] != "levatrice"@[0]);
    assert("qualsiasi"@[0] != "macellaio"@[0]);
    assert("qualsiasi"@[0] != "pescatore"@[0]);
    assert("qualsiasi"@[0] != "stalliere"@[0]);
    assert("qualsiasi"@[0] != "Raggirare"@[0]);
    assert("qualsiasi"@[0] != "Ascoltare"@[0]);
    assert("una qualsiasi"@[0] != "bibliotecario"@[0]);
    assert("una qualsiasi"@[0] != "Sopravvivenza"@[0]);
    assert("uno qualsiasi"@[0] != "bibliotecario"@[0]);
    assert("uno qualsiasi"@[0] != "Sopravvivenza"@[0]);
    assert("uno qualsiasi"@[2] != "una qualsiasi"@[2]);
}

/// `from_u16` knows exactly the codes below the number of skills, and gives
/// back the skill whose code it is given.
pub proof fn lemma_from_u16_code(x: u16)
    ensures
        Skill_Names::spec_from_u16(x) matches Some(v) ==> v.spec_code() == x,
        (Skill_Names::spec_from_u16(x) is Some) == (x < 118),
{
}

} // verus!
