use vstd::prelude::*;

use crate::resistance::{
    lemma_type_or_value, spec_single_resistance, RES_ACID_TYPE, RES_ADAP_TYPE, RES_ALL_TYPE, RES_CHAN_TYPE,
    RES_COLD_TYPE, RES_ELEC_TYPE, RES_FIRE_TYPE, RES_MAX_VALUE, RES_NEG_TYPE, RES_POS_50_TYPE, RES_POS_TYPE,
    RES_PSN_TYPE, RES_SNAKESKIN_TYPE, RES_SOUND_TYPE,
};
use crate::hp::{
    hp_after_name, hp_after_value, hp_option_value, hp_rapid_kind, hp_regen_kind, lemma_hp_option_code_fits,
    lemma_kinds_fit, lemma_option_bits, spec_hp_options, HP_Options_Type,
};
use crate::text::{spec_contains, spec_find, spec_trim};
use crate::immunities::{spec_single_immunity, Immunity_Type};
use crate::text::{nth_word, spec_parse_uint};

verus! {

/// The word that names the element of a resistance type, by the type's
/// number (its bits 6 and up): acid, fire, cold, electricity, sound; empty
/// for the other types.
pub open spec fn res_element_word(ty_number: u64) -> Seq<char> {
    if ty_number == RES_ACID_TYPE >> 6 {
        "acido"@
    } else if ty_number == RES_FIRE_TYPE >> 6 {
        "fuoco"@
    } else if ty_number == RES_COLD_TYPE >> 6 {
        "freddo"@
    } else if ty_number == RES_ELEC_TYPE >> 6 {
        "elettricità"@
    } else if ty_number == RES_SOUND_TYPE >> 6 {
        "sonoro"@
    } else {
        Seq::empty()
    }
}

/// `w` with an upper-case ASCII first letter made lower case.
pub open spec fn lower_first(w: Seq<char>) -> Seq<char> {
    if w.len() > 0 && 'A' <= w[0] <= 'Z' {
        w.update(0, ((w[0] as int) + 32) as char)
    } else {
        w
    }
}

/// A resistance to an element is named by that element's word, with or
/// without a capital first letter, followed by its value: a code whose type
/// is an element's comes from a block whose first word is that element's
/// word, and whose value is the second word.
pub proof fn lemma_resistance_element_named(block: Seq<char>)
    requires
        spec_single_resistance(block) is Some,
        res_element_word(spec_single_resistance(block)->0 >> 6u64).len() > 0,
    ensures
        ({
            let c = spec_single_resistance(block)->0;
            &&& lower_first(nth_word(block, 0)) == res_element_word(c >> 6u64)
            &&& spec_parse_uint(nth_word(block, 1), u64::MAX as nat) == Some((c & 0x3F) as nat)
        }),
{
    reveal_strlit("Acido");
    reveal_strlit("acido");
    reveal_strlit("Fuoco");
    reveal_strlit("fuoco");
    reveal_strlit("Freddo");
    reveal_strlit("freddo");
    reveal_strlit("Elettricità");
    reveal_strlit("elettricità");
    reveal_strlit("Sonoro");
    reveal_strlit("sonoro");
    reveal_strlit("Energia");
    reveal_strlit("Energie");
    reveal_strlit("energie");
    reveal_strlit("energia");
    reveal_strlit("Resistenza");
    reveal_strlit("resistenza");
    reveal_strlit("Pelle");
    reveal_strlit("Positiva");
    let c = spec_single_resistance(block)->0;
    let w0 = nth_word(block, 0);
    let p1 = spec_parse_uint(nth_word(block, 1), u64::MAX as nat);
    let p2 = spec_parse_uint(nth_word(block, 2), u64::MAX as nat);
    let p3 = spec_parse_uint(nth_word(block, 3), u64::MAX as nat);
    if let Some(v) = p1 {
        if v <= RES_MAX_VALUE {
            lemma_type_or_value(RES_ACID_TYPE, v as u64);
            lemma_type_or_value(RES_FIRE_TYPE, v as u64);
            lemma_type_or_value(RES_COLD_TYPE, v as u64);
            lemma_type_or_value(RES_ELEC_TYPE, v as u64);
            lemma_type_or_value(RES_SOUND_TYPE, v as u64);
        }
    }
    if let Some(v) = p2 {
        if v <= RES_MAX_VALUE {
            lemma_type_or_value(RES_POS_TYPE, v as u64);
            lemma_type_or_value(RES_NEG_TYPE, v as u64);
            lemma_type_or_value(RES_ALL_TYPE, v as u64);
            lemma_type_or_value(RES_ADAP_TYPE, v as u64);
        }
    }
    if let Some(v) = p3 {
        if v <= RES_MAX_VALUE {
            lemma_type_or_value(RES_CHAN_TYPE, v as u64);
        }
    }
    assert(RES_ACID_TYPE >> 6u64 == 1 && RES_FIRE_TYPE >> 6u64 == 2 && RES_COLD_TYPE >> 6u64 == 3
        && RES_ELEC_TYPE >> 6u64 == 4 && RES_SOUND_TYPE >> 6u64 == 5 && RES_POS_TYPE >> 6u64 == 6
        && RES_NEG_TYPE >> 6u64 == 7 && RES_CHAN_TYPE >> 6u64 == 8 && RES_ADAP_TYPE >> 6u64 == 9
        && RES_ALL_TYPE >> 6u64 == 10) by (bit_vector);
    assert(RES_POS_50_TYPE >> 6u64 == 0xB) by (bit_vector);
    assert(RES_PSN_TYPE >> 6u64 == 0xC) by (bit_vector);
    assert(RES_SNAKESKIN_TYPE >> 6u64 == 0xD) by (bit_vector);
    if w0 == "Acido"@ || w0 == "acido"@ {
        assert(lower_first(w0) =~= "acido"@);
    } else if w0 == "Fuoco"@ || w0 == "fuoco"@ {
        assert(lower_first(w0) =~= "fuoco"@);
    } else if w0 == "Freddo"@ || w0 == "freddo"@ {
        assert(lower_first(w0) =~= "freddo"@);
    } else if w0 == "Elettricità"@ || w0 == "elettricità"@ {
        assert(lower_first(w0) =~= "elettricità"@);
    } else if w0 == "Sonoro"@ || w0 == "sonoro"@ {
        assert(lower_first(w0) =~= "sonoro"@);
    }
}

/// Conversely, a block whose first word is an element's word, with or
/// without a capital first letter, and whose second word is a value up to
/// 63, is a resistance to that element with that value.
pub proof fn lemma_resistance_element_word(block: Seq<char>, ty: u64, v: nat)
    requires
        ty == RES_ACID_TYPE || ty == RES_FIRE_TYPE || ty == RES_COLD_TYPE || ty == RES_ELEC_TYPE || ty
            == RES_SOUND_TYPE,
        lower_first(nth_word(block, 0)) == res_element_word(ty >> 6u64),
        spec_parse_uint(nth_word(block, 1), u64::MAX as nat) == Some(v),
        v <= RES_MAX_VALUE,
    ensures
        spec_single_resistance(block) == Some(ty | (v as u64)),
{
    reveal_strlit("Acido");
    reveal_strlit("acido");
    reveal_strlit("Fuoco");
    reveal_strlit("fuoco");
    reveal_strlit("Freddo");
    reveal_strlit("freddo");
    reveal_strlit("Elettricità");
    reveal_strlit("elettricità");
    reveal_strlit("Sonoro");
    reveal_strlit("sonoro");
    reveal_strlit("Energia");
    reveal_strlit("Energie");
    reveal_strlit("energie");
    reveal_strlit("energia");
    reveal_strlit("Resistenza");
    reveal_strlit("resistenza");
    reveal_strlit("Pelle");
    let w0 = nth_word(block, 0);
    let lw = lower_first(w0);
    assert(RES_ACID_TYPE >> 6u64 == 1 && RES_FIRE_TYPE >> 6u64 == 2 && RES_COLD_TYPE >> 6u64 == 3
        && RES_ELEC_TYPE >> 6u64 == 4 && RES_SOUND_TYPE >> 6u64 == 5) by (bit_vector);
    // the first word is the element's word, or the same with a capital
    assert(w0.len() == lw.len());
    assert forall|i: int| 1 <= i < w0.len() implies w0[i] == lw[i] by {}
    let word = res_element_word(ty >> 6u64);
    let cap = word.update(0, ((word[0] as int) - 32) as char);
    assert(w0 =~= word || w0 =~= cap) by {
        if 'A' <= w0[0] <= 'Z' {
            assert(w0[0] == cap[0]);
            assert(w0 =~= cap);
        } else {
            assert(w0 =~= word);
        }
    }
    if ty == RES_ACID_TYPE {
        assert(cap =~= "Acido"@);
    }
    if ty == RES_FIRE_TYPE {
        assert(cap =~= "Fuoco"@);
    }
    if ty == RES_COLD_TYPE {
        assert(cap =~= "Freddo"@);
    }
    if ty == RES_ELEC_TYPE {
        assert(cap =~= "Elettricità"@);
    }
    if ty == RES_SOUND_TYPE {
        assert(cap =~= "Sonoro"@);
    }
}

/// Whether `s` is one of the names the immunity kind `k` goes by in a stat
/// block.
pub open spec fn immunity_named(k: Immunity_Type, s: Seq<char>) -> bool {
    match k {
        Immunity_Type::Immunity_Acid => s == "Acido"@ || s == "acido"@,
        Immunity_Type::Immunity_Fire => s == "Fuoco"@ || s == "fuoco"@ || s == "Assorbimento del Fuoco"@,
        Immunity_Type::Immunity_Cold => s == "Freddo"@ || s == "freddo"@ || s == "Immunità al Freddo"@ || s == "Freddo (sé stesso e chi lo cavalca)"@,
        Immunity_Type::Immunity_Elec => s == "Elettricità"@ || s == "elettricità"@ || s == "Elettricità (parziale)"@,
        Immunity_Type::Immunity_Sound => s == "Sonoro"@ || s == "sonoro"@,
        Immunity_Type::Immunity_EnergyNegative => s == "Energia Negativa"@ || s == "energia negativa"@,
        Immunity_Type::Immunity_EnergyPositive => s == "Energia Positiva"@ || s == "energia negativa"@,
        Immunity_Type::Immunity_InfernalFire => s == "Fuoco Infernale"@,
        Immunity_Type::Immunity_Paralysis => s == "Paralisi"@ || s == "paralisi"@,
        Immunity_Type::Immunity_Sleep => s == "Sonno"@ || s == "sonno"@ || s == "effetti di sonno"@ || s == "Effetti di Sonno"@ || s == "Effetti di sonno"@ || s == "effetti di Sonno"@,
        Immunity_Type::Immunity_Fatigued => s == "Condizione Affaticato"@ || s == "Affaticato"@ || s == "Affaticamento"@ || s == "Fatica"@,
        Immunity_Type::Immunity_Exhausted => s == "Condizione Esausto"@ || s == "Esausto"@ || s == "Esaurimento"@,
        Immunity_Type::Immunity_Fear => s == "Paura"@ || s == "paura"@ || s == "Effetti di Paura"@ || s == "effetti di Paura"@ || s == "effetti di paura"@ || s == "Effetti di paura"@,
        Immunity_Type::Immunity_Sickened => s == "Infermità"@ || s == "Infermo"@,
        Immunity_Type::Immunity_Nauseated => s == "Nauseato"@ || s == "Nausea"@ || s == "nausea"@,
        Immunity_Type::Immunity_Petrified => s == "Pietrificazione"@ || s == "pietrificazione"@,
        Immunity_Type::Immunity_Blind => s == "Cecità"@ || s == "Accecato"@,
        Immunity_Type::Immunity_Stun => s == "Stordimento"@ || s == "stordimento"@,
        Immunity_Type::Immunity_Confusion => s == "Confusione"@,
        Immunity_Type::Immunity_Dazed => s == "Frastornamento"@ || s == "Frastornato"@,
        Immunity_Type::Immunity_Staggered => s == "Barcollante"@ || s == "effetti Barcollanti"@ || s == "Barcollare"@,
        Immunity_Type::Immunity_Dazzled => s == "Abbagliato"@ || s == "Abbagliamenti"@ || s == "Abbagliamento"@,
        Immunity_Type::Immunity_Deaf => s == "Sordità"@ || s == "sordità"@,
        Immunity_Type::Immunity_Shaken => s == "Scosso"@,
        Immunity_Type::Immunity_Frightened => s == "Spaventato"@,
        Immunity_Type::Immunity_Poison => s == "Veleni"@ || s == "Veleno"@ || s == "veleno"@ || s == "veleni"@,
        Immunity_Type::Immunity_PoisonIngested => s == "Veleno Ingerito"@,
        Immunity_Type::Immunity_Disease => s == "Malattie"@ || s == "Malattia"@ || s == "malattie"@ || s == "malattia"@,
        Immunity_Type::Immunity_Magic => s == "Magia"@ || s == "Immunità alla Magia"@,
        Immunity_Type::Immunity_Criticals => s == "Colpi Critici"@ || s == "Colpi critici"@,
        Immunity_Type::Immunity_Precision => s == "danno di precisione"@ || s == "danni da precisione"@ || s == "danni di precisione"@,
        Immunity_Type::Immunity_SneakAtk => s == "Attacchi Furtivi"@,
        Immunity_Type::Immunity_GazeAtk => s == "Attacchi con Sguardo"@ || s == "Attacchi con lo sguardo"@ || s == "attacchi con lo Sguardo"@ || s == "Attacchi dipendenti dalla vista"@ || s == "attacchi con lo sguardo"@ || s == "attacchi con Sguardo"@ || s == "Sguardo"@ || s == "Attacchi basati sulla vista"@ || s == "Attacchi basati sulla vista o sguardo"@,
        Immunity_Type::Immunity_SmellAtk => s == "Attacchi basati sull'olfatto"@,
        Immunity_Type::Immunity_WeaponDmg => s == "Danno da arma"@ || s == "danno da arma"@ || s == "Danni da arma"@ || s == "danni da arma"@ || s == "danni delle armi"@ || s == "Danni da armi"@ || s == "danni da armi"@ || s == "Danni dalle Armi"@,
        Immunity_Type::Immunity_Bludgeoning => s == "Armi contundenti"@ || s == "Danni contundenti"@ || s == "contundente"@ || s == "danni contundenti"@,
        Immunity_Type::Immunity_BludgeoningAndPiercing => s == "danni contundenti e perforanti"@,
        Immunity_Type::Immunity_PiercingAndSlashing => s == "Danni perforanti e taglienti"@ || s == "danni taglienti e perforanti"@,
        Immunity_Type::Immunity_Piercing => s == "danni perforanti"@,
        Immunity_Type::Immunity_Slashing => s == "Armi Taglienti"@ || s == "danni taglienti"@,
        Immunity_Type::Immunity_FallAndCrush => s == "da caduta e da schiacciamento"@,
        Immunity_Type::Immunity_Curse => s == "Maledizioni"@ || s == "maledizioni"@ || s == "effetti di maledizione"@ || s == "effetti di maledizioni"@,
        Immunity_Type::Immunity_Bleeding => s == "Sanguinamento"@ || s == "sanguinamento"@ || s == "Sanguinamento (solo Punti Ferita)"@,
        Immunity_Type::Immunity_Flanking => s == "Fiancheggiamento"@ || s == "Attacchi ai Fianchi"@,
        Immunity_Type::Immunity_NonLethalDamage => s == "Danni Non Letali"@ || s == "Danno non letale"@,
        Immunity_Type::Immunity_Warpproof => s == "Non Deformante"@,
        Immunity_Type::Immunity_Pressure => s == "Danno da Pressione"@,
        Immunity_Type::Immunity_Possession => s == "possessione"@,
        Immunity_Type::Immunity_Rust => s == "ruggine"@,
        Immunity_Type::Immunity_Divination => s == "Divinazione"@ || s == "divinazione"@,
        Immunity_Type::Immunity_PermanentWounds => s == "ferite permanenti"@,
        Immunity_Type::Immunity_MindEffects => s == "Effetti di Influenza Mentale"@ || s == "Effetti di influenza mentale"@ || s == "effetti di influenza mentale"@ || s == "Effetti d'influenza mentale"@ || s == "controllo mentale"@,
        Immunity_Type::Immunity_FearAndMindEffects => s == "effetti di Paura ed influenza mentale"@,
        Immunity_Type::Immunity_MindEffectsAndGaze => s == "effetti di influenza mentale e visivi"@ || s == "di influenza mentale e basati sullo Sguardo"@,
        Immunity_Type::Immunity_CharmEffects => s == "Effetti di charme"@ || s == "effetti di charme"@ || s == "Charme"@ || s == "charme"@ || s == "Ammaliamento"@ || s == "effetti di ammaliamento"@,
        Immunity_Type::Immunity_CompulsionEffect => s == "effetti di compulsione"@ || s == "compulsione"@,
        Immunity_Type::Immunity_CharmAndCompulsionEffect => s == "effetti di charme e compulsioni"@ || s == "Effetti di charme e compulsioni"@ || s == "Effetti di Charme e Compulsione"@ || s == "effetti di Charme e Compulsione"@ || s == "effetti di charme e compulsione"@,
        Immunity_Type::Immunity_DeathEffects => s == "Effetti di morte"@ || s == "Effetti di Morte"@ || s == "effetti di morte"@ || s == "Effetti di morte (vedi sotto)"@,
        Immunity_Type::Immunity_IllusionEffects => s == "illusioni"@ || s == "Illusione"@,
        Immunity_Type::Immunity_IllusionSightEffects => s == "illusioni visive"@,
        Immunity_Type::Immunity_GazeEffects => s == "effetti basati sulla vista"@ || s == "effetti visivi"@ || s == "attacchi basati sulla vista ed effetti visivi"@ || s == "Effetti basati sulla vista"@ || s == "effetti di Sguardo"@ || s == "Effetti visivi"@ || s == "effetti di sguardo"@,
        Immunity_Type::Immunity_GazeAndIllusionEffects => s == "effetti visivi e illusioni"@ || s == "visivi ed illusori"@ || s == "effetti e illusioni visive"@ || s == "Illusioni e qualsiasi attacco basato sulla vista"@,
        Immunity_Type::Immunity_MetamorphosisEffects => s == "effetti di metamorfosi"@ || s == "Metamorfosi"@ || s == "metamorfosi"@ || s == "effetti polimorfi"@ || s == "effetti di Metamorfosi"@,
        Immunity_Type::Immunity_MindRegressionEffects => s == "Effetti di Demenza"@ || s == "effetti di demenza"@ || s == "Demenza"@,
        Immunity_Type::Immunity_CreatureCountEffect => s == "effetti che bersagliano uno specifico numero di creature"@,
        Immunity_Type::Immunity_CompletionAndActivationSpellEffects => s == "Effetti a completamento di incantesimo e ad attivazione di incantesimo"@,
        Immunity_Type::Immunity_SensesEffects => s == "effetti sensoriali"@,
        Immunity_Type::Immunity_EmotionEffects => s == "emozioni"@,
        Immunity_Type::Immunity_ForceEffects => s == "Effetti di forza"@ || s == "forza"@ || s == "Forza"@,
        Immunity_Type::Immunity_PainEffects => s == "Effetti di dolore"@ || s == "dolore"@ || s == "Dolore"@,
        Immunity_Type::Immunity_ConfusionCrazyEffects => s == "Effetti di confusione e follia"@,
        Immunity_Type::Immunity_ConfusionAndRegressionEffects => s == "effetti di confusione e demenza"@,
        Immunity_Type::Immunity_AgingEffects => s == "Invecchiamento"@ || s == "invecchiamento"@,
        Immunity_Type::Immunity_LightEffects => s == "effetti di luce"@,
        Immunity_Type::Immunity_NecromancyEffects => s == "effetti di necromanzia"@,
        Immunity_Type::Immunity_CharmeAndIllusionSpells => s == "Incantesimi di Ammaliamento e di Illusione"@,
        Immunity_Type::Immunity_RecallSpells => s == "Richiamo"@ || s == "Congedo"@ || s == "Immunità all'Esilio"@,
        Immunity_Type::Immunity_DetectThoughtSpell => s == "Individuazione dei Pensieri"@,
        Immunity_Type::Immunity_DetectAlignmentSpell => s == "Individuazione dell'Allineamento"@,
        Immunity_Type::Immunity_DetectLiesSpell => s == "Rivela Bugie"@,
        Immunity_Type::Immunity_SpellImmunitySpell => s == "Immunità agli Incantesimi"@,
        Immunity_Type::Immunity_DimensionalAnchorSpell => s == "Ancora Dimensionale"@,
        Immunity_Type::Immunity_CharmeMonsterSpell => s == "charme sui mostri"@,
        Immunity_Type::Immunity_LightningBoltSpell => s == "fulmine"@,
        Immunity_Type::Immunity_FireballSpell => s == "palla di fuoco"@,
        Immunity_Type::Immunity_SleepSpell => s == "sonno"@,
        Immunity_Type::Immunity_LevelDrain => s == "Risucchio di Energia"@ || s == "risucchio di energia"@ || s == "Risucchi di Energia"@ || s == "risucchi di energia"@ || s == "livelli negativi"@ || s == "Livelli Negativi"@,
        Immunity_Type::Immunity_ASDrain => s == "Risucchio di Caratteristiche"@ || s == "risucchio di caratteristiche"@ || s == "risucchi di caratteristiche"@ || s == "risucchio di caratteristica"@,
        Immunity_Type::Immunity_ASDmg => s == "Danni alle caratteristiche"@ || s == "Danno alle Caratteristiche"@ || s == "danni alle caratteristiche"@ || s == "danni alle Caratteristiche"@,
        Immunity_Type::Immunity_ASDmgAndDrain => s == "Danni e risucchio di caratteristiche"@ || s == "Danni e risucchi di caratteristiche"@ || s == "Danno e risucchio alle caratteristiche"@ || s == "Danni e risucchio alle Caratteristiche"@ || s == "Danni e risucchi alle caratteristiche"@ || s == "danni e risucchi di Caratteristiche"@,
        Immunity_Type::Immunity_UndeadTraits => s == "Tratti dei Non Morti"@,
        Immunity_Type::Immunity_OozeTraits => s == "Tratti delle Melme"@,
        Immunity_Type::Immunity_SwarmTraits => s == "Tratti degli Sciami"@,
        Immunity_Type::Immunity_ConstructTraits => s == "Tratti dei Costrutti"@,
        Immunity_Type::Immunity_PlantTraits => s == "Tratti dei Vegetali"@,
        Immunity_Type::Immunity_ElementalTraits => s == "Tratti degli Elementali"@,
        Immunity_Type::Immunity_DragonTraits => s == "Tratti dei Draghi"@ || s == "tratti dei Draghi"@,
        Immunity_Type::Immunity_MagicMissile => s == "Dardo Incantato"@,
        Immunity_Type::Immunity_CalmEmotions => s == "Calmare Emozioni"@,
        Immunity_Type::Immunity_Convocation => s == "Convocazione"@,
        Immunity_Type::Immunity_StyxWater => s == "Immunità alle acque del Fiume Stige"@ || s == "immunità alle acque del Fiume Stige"@ || s == "acque del Fiume Stige"@,
        Immunity_Type::Immunity_RuneMastery => s == "Padronanza delle Rune"@,
        Immunity_Type::Immunity_MagicControl => s == "Controllo Magico"@,
        Immunity_Type::Immunity_Slowness => s == "Lentezza"@,
        Immunity_Type::Immunity_TurnUndead => s == "scacciare"@,
        Immunity_Type::Immunity_EnergySpells => s == "Incantesimi di Energia"@,
        Immunity_Type::Immunity_Annihilation => s == "Immunità all'Annichilazione"@,
        Immunity_Type::Immunity_PlaneShift => s == "Spostamento Planare"@,
        Immunity_Type::Immunity_ChannelEnergyNonMithic => s == "Incalare Energia da Fonti Non Mitiche"@,
        Immunity_Type::Immunity_Labyrinth => s == "Labirinto"@,
        Immunity_Type::Immunity_MemoryLoss => s == "Immunità alla Perdita di Memoria"@,
        Immunity_Type::Immunity_BloodDrain => s == "Risucchi di Sangue"@,
        Immunity_Type::Immunity_LethalGas => s == "Gas e vapori letali"@ || s == "vapori e gas letali"@,
        Immunity_Type::Immunity_ProtectFromEnergy => s == "Fuoco (60 punti)"@ || s == "Fuoco (96 punti)"@ || s == "Fuoco (108 punti)"@ || s == "Fuoco (120 punti)"@ || s == "fuoco (120 punti)"@ || s == "Freddo (120 punti)"@ || s == "Elettricità (120 punti)"@,
        _ => false,
    }
}

/// Every name an immunity is read from is one of the names of the kind it
/// is read as.
pub proof fn lemma_immunity_named(s: Seq<char>)
    ensures
        spec_single_immunity(s) matches Some(k) ==> immunity_named(k, s),
{
}

/// The immunity to the element of a resistance type (acid, fire, cold,
/// electricity, sound).
pub open spec fn immunity_of_element(ty: u64) -> Immunity_Type {
    if ty == RES_ACID_TYPE {
        Immunity_Type::Immunity_Acid
    } else if ty == RES_FIRE_TYPE {
        Immunity_Type::Immunity_Fire
    } else if ty == RES_COLD_TYPE {
        Immunity_Type::Immunity_Cold
    } else if ty == RES_ELEC_TYPE {
        Immunity_Type::Immunity_Elec
    } else {
        Immunity_Type::Immunity_Sound
    }
}

/// An element's word names the same element as an immunity as it does as a
/// resistance: with or without a capital first letter, it is read as the
/// immunity to that element.
pub proof fn lemma_immunity_element_word(w: Seq<char>, ty: u64)
    requires
        ty == RES_ACID_TYPE || ty == RES_FIRE_TYPE || ty == RES_COLD_TYPE || ty == RES_ELEC_TYPE || ty
            == RES_SOUND_TYPE,
        lower_first(w) == res_element_word(ty >> 6u64),
    ensures
        spec_single_immunity(w) == Some(immunity_of_element(ty)),
{
    reveal_strlit("Acido");
    reveal_strlit("acido");
    reveal_strlit("Fuoco");
    reveal_strlit("fuoco");
    reveal_strlit("Freddo");
    reveal_strlit("freddo");
    reveal_strlit("Elettricità");
    reveal_strlit("elettricità");
    reveal_strlit("Sonoro");
    reveal_strlit("sonoro");
    reveal_strlit("Assorbimento del Fuoco");
    reveal_strlit("Immunità al Freddo");
    reveal_strlit("Freddo (sé stesso e chi lo cavalca)");
    reveal_strlit("Elettricità (parziale)");
    lemma_element_word_spellings(w, ty);
    lemma_immunity_names_read(immunity_of_element(ty), w);
}

/// A word whose lower-case form is an element's word is that word or the
/// same with a capital first letter.
pub proof fn lemma_element_word_spellings(w: Seq<char>, ty: u64)
    requires
        ty == RES_ACID_TYPE || ty == RES_FIRE_TYPE || ty == RES_COLD_TYPE || ty == RES_ELEC_TYPE || ty
            == RES_SOUND_TYPE,
        lower_first(w) == res_element_word(ty >> 6u64),
    ensures
        ty == RES_ACID_TYPE ==> w == "acido"@ || w == "Acido"@,
        ty == RES_FIRE_TYPE ==> w == "fuoco"@ || w == "Fuoco"@,
        ty == RES_COLD_TYPE ==> w == "freddo"@ || w == "Freddo"@,
        ty == RES_ELEC_TYPE ==> w == "elettricità"@ || w == "Elettricità"@,
        ty == RES_SOUND_TYPE ==> w == "sonoro"@ || w == "Sonoro"@,
{
    reveal_strlit("Acido");
    reveal_strlit("acido");
    reveal_strlit("Fuoco");
    reveal_strlit("fuoco");
    reveal_strlit("Freddo");
    reveal_strlit("freddo");
    reveal_strlit("Elettricità");
    reveal_strlit("elettricità");
    reveal_strlit("Sonoro");
    reveal_strlit("sonoro");
    let lw = lower_first(w);
    assert(RES_ACID_TYPE >> 6u64 == 1 && RES_FIRE_TYPE >> 6u64 == 2 && RES_COLD_TYPE >> 6u64 == 3
        && RES_ELEC_TYPE >> 6u64 == 4 && RES_SOUND_TYPE >> 6u64 == 5) by (bit_vector);
    assert(w.len() == lw.len());
    let word = res_element_word(ty >> 6u64);
    let cap = word.update(0, ((word[0] as int) - 32) as char);
    assert(w =~= word || w =~= cap) by {
        if 'A' <= w[0] <= 'Z' {
            assert(w[0] == cap[0]);
            assert(w =~= cap);
        } else {
            assert(w =~= word);
        }
    }
    if ty == RES_ACID_TYPE {
        assert(cap =~= "Acido"@);
    }
    if ty == RES_FIRE_TYPE {
        assert(cap =~= "Fuoco"@);
    }
    if ty == RES_COLD_TYPE {
        assert(cap =~= "Freddo"@);
    }
    if ty == RES_ELEC_TYPE {
        assert(cap =~= "Elettricità"@);
    }
    if ty == RES_SOUND_TYPE {
        assert(cap =~= "Sonoro"@);
    }
}

/// Every name of an immunity kind is read as that kind, but for the two
/// names that an earlier kind already takes: `energia negativa` (read as the
/// negative energy immunity, not the positive one) and `sonno` (read as the
/// sleep immunity, not the sleep spell).
pub proof fn lemma_immunity_names_read(k: Immunity_Type, s: Seq<char>)
    requires
        immunity_named(k, s),
        !(k == Immunity_Type::Immunity_EnergyPositive && s == "energia negativa"@),
        !(k == Immunity_Type::Immunity_SleepSpell && s == "sonno"@),
    ensures
        spec_single_immunity(s) == Some(k),
{
    match k {
        Immunity_Type::Immunity_Acid => lemma_read_immunity_acid(s),
        Immunity_Type::Immunity_Fire => lemma_read_immunity_fire(s),
        Immunity_Type::Immunity_Cold => lemma_read_immunity_cold(s),
        Immunity_Type::Immunity_Elec => lemma_read_immunity_elec(s),
        Immunity_Type::Immunity_Sound => lemma_read_immunity_sound(s),
        Immunity_Type::Immunity_EnergyNegative => lemma_read_immunity_energynegative(s),
        Immunity_Type::Immunity_EnergyPositive => lemma_read_immunity_energypositive(s),
        Immunity_Type::Immunity_InfernalFire => lemma_read_immunity_infernalfire(s),
        Immunity_Type::Immunity_Paralysis => lemma_read_immunity_paralysis(s),
        Immunity_Type::Immunity_Sleep => lemma_read_immunity_sleep(s),
        Immunity_Type::Immunity_Fatigued => lemma_read_immunity_fatigued(s),
        Immunity_Type::Immunity_Exhausted => lemma_read_immunity_exhausted(s),
        Immunity_Type::Immunity_Fear => lemma_read_immunity_fear(s),
        Immunity_Type::Immunity_Sickened => lemma_read_immunity_sickened(s),
        Immunity_Type::Immunity_Nauseated => lemma_read_immunity_nauseated(s),
        Immunity_Type::Immunity_Petrified => lemma_read_immunity_petrified(s),
        Immunity_Type::Immunity_Blind => lemma_read_immunity_blind(s),
        Immunity_Type::Immunity_Stun => lemma_read_immunity_stun(s),
        Immunity_Type::Immunity_Confusion => lemma_read_immunity_confusion(s),
        Immunity_Type::Immunity_Dazed => lemma_read_immunity_dazed(s),
        Immunity_Type::Immunity_Staggered => lemma_read_immunity_staggered(s),
        Immunity_Type::Immunity_Dazzled => lemma_read_immunity_dazzled(s),
        Immunity_Type::Immunity_Deaf => lemma_read_immunity_deaf(s),
        Immunity_Type::Immunity_Shaken => lemma_read_immunity_shaken(s),
        Immunity_Type::Immunity_Frightened => lemma_read_immunity_frightened(s),
        Immunity_Type::Immunity_Poison => lemma_read_immunity_poison(s),
        Immunity_Type::Immunity_PoisonIngested => lemma_read_immunity_poisoningested(s),
        Immunity_Type::Immunity_Disease => lemma_read_immunity_disease(s),
        Immunity_Type::Immunity_Magic => lemma_read_immunity_magic(s),
        Immunity_Type::Immunity_Criticals => lemma_read_immunity_criticals(s),
        Immunity_Type::Immunity_Precision => lemma_read_immunity_precision(s),
        Immunity_Type::Immunity_SneakAtk => lemma_read_immunity_sneakatk(s),
        Immunity_Type::Immunity_GazeAtk => lemma_read_immunity_gazeatk(s),
        Immunity_Type::Immunity_SmellAtk => lemma_read_immunity_smellatk(s),
        Immunity_Type::Immunity_WeaponDmg => lemma_read_immunity_weapondmg(s),
        Immunity_Type::Immunity_Bludgeoning => lemma_read_immunity_bludgeoning(s),
        Immunity_Type::Immunity_BludgeoningAndPiercing => lemma_read_immunity_bludgeoningandpiercing(s),
        Immunity_Type::Immunity_PiercingAndSlashing => lemma_read_immunity_piercingandslashing(s),
        Immunity_Type::Immunity_Piercing => lemma_read_immunity_piercing(s),
        Immunity_Type::Immunity_Slashing => lemma_read_immunity_slashing(s),
        Immunity_Type::Immunity_FallAndCrush => lemma_read_immunity_fallandcrush(s),
        Immunity_Type::Immunity_Curse => lemma_read_immunity_curse(s),
        Immunity_Type::Immunity_Bleeding => lemma_read_immunity_bleeding(s),
        Immunity_Type::Immunity_Flanking => lemma_read_immunity_flanking(s),
        Immunity_Type::Immunity_NonLethalDamage => lemma_read_immunity_nonlethaldamage(s),
        Immunity_Type::Immunity_Warpproof => lemma_read_immunity_warpproof(s),
        Immunity_Type::Immunity_Pressure => lemma_read_immunity_pressure(s),
        Immunity_Type::Immunity_Possession => lemma_read_immunity_possession(s),
        Immunity_Type::Immunity_Rust => lemma_read_immunity_rust(s),
        Immunity_Type::Immunity_Divination => lemma_read_immunity_divination(s),
        Immunity_Type::Immunity_PermanentWounds => lemma_read_immunity_permanentwounds(s),
        Immunity_Type::Immunity_MindEffects => lemma_read_immunity_mindeffects(s),
        Immunity_Type::Immunity_FearAndMindEffects => lemma_read_immunity_fearandmindeffects(s),
        Immunity_Type::Immunity_MindEffectsAndGaze => lemma_read_immunity_mindeffectsandgaze(s),
        Immunity_Type::Immunity_CharmEffects => lemma_read_immunity_charmeffects(s),
        Immunity_Type::Immunity_CompulsionEffect => lemma_read_immunity_compulsioneffect(s),
        Immunity_Type::Immunity_CharmAndCompulsionEffect => lemma_read_immunity_charmandcompulsioneffect(s),
        Immunity_Type::Immunity_DeathEffects => lemma_read_immunity_deatheffects(s),
        Immunity_Type::Immunity_IllusionEffects => lemma_read_immunity_illusioneffects(s),
        Immunity_Type::Immunity_IllusionSightEffects => lemma_read_immunity_illusionsighteffects(s),
        Immunity_Type::Immunity_GazeEffects => lemma_read_immunity_gazeeffects(s),
        Immunity_Type::Immunity_GazeAndIllusionEffects => lemma_read_immunity_gazeandillusioneffects(s),
        Immunity_Type::Immunity_MetamorphosisEffects => lemma_read_immunity_metamorphosiseffects(s),
        Immunity_Type::Immunity_MindRegressionEffects => lemma_read_immunity_mindregressioneffects(s),
        Immunity_Type::Immunity_CreatureCountEffect => lemma_read_immunity_creaturecounteffect(s),
        Immunity_Type::Immunity_CompletionAndActivationSpellEffects => lemma_read_immunity_completionandactivationspelleffects(s),
        Immunity_Type::Immunity_SensesEffects => lemma_read_immunity_senseseffects(s),
        Immunity_Type::Immunity_EmotionEffects => lemma_read_immunity_emotioneffects(s),
        Immunity_Type::Immunity_ForceEffects => lemma_read_immunity_forceeffects(s),
        Immunity_Type::Immunity_PainEffects => lemma_read_immunity_paineffects(s),
        Immunity_Type::Immunity_ConfusionCrazyEffects => lemma_read_immunity_confusioncrazyeffects(s),
        Immunity_Type::Immunity_ConfusionAndRegressionEffects => lemma_read_immunity_confusionandregressioneffects(s),
        Immunity_Type::Immunity_AgingEffects => lemma_read_immunity_agingeffects(s),
        Immunity_Type::Immunity_LightEffects => lemma_read_immunity_lighteffects(s),
        Immunity_Type::Immunity_NecromancyEffects => lemma_read_immunity_necromancyeffects(s),
        Immunity_Type::Immunity_CharmeAndIllusionSpells => lemma_read_immunity_charmeandillusionspells(s),
        Immunity_Type::Immunity_RecallSpells => lemma_read_immunity_recallspells(s),
        Immunity_Type::Immunity_DetectThoughtSpell => lemma_read_immunity_detectthoughtspell(s),
        Immunity_Type::Immunity_DetectAlignmentSpell => lemma_read_immunity_detectalignmentspell(s),
        Immunity_Type::Immunity_DetectLiesSpell => lemma_read_immunity_detectliesspell(s),
        Immunity_Type::Immunity_SpellImmunitySpell => lemma_read_immunity_spellimmunityspell(s),
        Immunity_Type::Immunity_DimensionalAnchorSpell => lemma_read_immunity_dimensionalanchorspell(s),
        Immunity_Type::Immunity_CharmeMonsterSpell => lemma_read_immunity_charmemonsterspell(s),
        Immunity_Type::Immunity_LightningBoltSpell => lemma_read_immunity_lightningboltspell(s),
        Immunity_Type::Immunity_FireballSpell => lemma_read_immunity_fireballspell(s),
        Immunity_Type::Immunity_SleepSpell => lemma_read_immunity_sleepspell(s),
        Immunity_Type::Immunity_LevelDrain => lemma_read_immunity_leveldrain(s),
        Immunity_Type::Immunity_ASDrain => lemma_read_immunity_asdrain(s),
        Immunity_Type::Immunity_ASDmg => lemma_read_immunity_asdmg(s),
        Immunity_Type::Immunity_ASDmgAndDrain => lemma_read_immunity_asdmganddrain(s),
        Immunity_Type::Immunity_UndeadTraits => lemma_read_immunity_undeadtraits(s),
        Immunity_Type::Immunity_OozeTraits => lemma_read_immunity_oozetraits(s),
        Immunity_Type::Immunity_SwarmTraits => lemma_read_immunity_swarmtraits(s),
        Immunity_Type::Immunity_ConstructTraits => lemma_read_immunity_constructtraits(s),
        Immunity_Type::Immunity_PlantTraits => lemma_read_immunity_planttraits(s),
        Immunity_Type::Immunity_ElementalTraits => lemma_read_immunity_elementaltraits(s),
        Immunity_Type::Immunity_DragonTraits => lemma_read_immunity_dragontraits(s),
        Immunity_Type::Immunity_MagicMissile => lemma_read_immunity_magicmissile(s),
        Immunity_Type::Immunity_CalmEmotions => lemma_read_immunity_calmemotions(s),
        Immunity_Type::Immunity_Convocation => lemma_read_immunity_convocation(s),
        Immunity_Type::Immunity_StyxWater => lemma_read_immunity_styxwater(s),
        Immunity_Type::Immunity_RuneMastery => lemma_read_immunity_runemastery(s),
        Immunity_Type::Immunity_MagicControl => lemma_read_immunity_magiccontrol(s),
        Immunity_Type::Immunity_Slowness => lemma_read_immunity_slowness(s),
        Immunity_Type::Immunity_TurnUndead => lemma_read_immunity_turnundead(s),
        Immunity_Type::Immunity_EnergySpells => lemma_read_immunity_energyspells(s),
        Immunity_Type::Immunity_Annihilation => lemma_read_immunity_annihilation(s),
        Immunity_Type::Immunity_PlaneShift => lemma_read_immunity_planeshift(s),
        Immunity_Type::Immunity_ChannelEnergyNonMithic => lemma_read_immunity_channelenergynonmithic(s),
        Immunity_Type::Immunity_Labyrinth => lemma_read_immunity_labyrinth(s),
        Immunity_Type::Immunity_MemoryLoss => lemma_read_immunity_memoryloss(s),
        Immunity_Type::Immunity_BloodDrain => lemma_read_immunity_blooddrain(s),
        Immunity_Type::Immunity_LethalGas => lemma_read_immunity_lethalgas(s),
        Immunity_Type::Immunity_ProtectFromEnergy => lemma_read_immunity_protectfromenergy(s),
        _ => {},
    }
}

proof fn lemma_read_immunity_acid(s: Seq<char>)
    requires
        immunity_named(Immunity_Type::Immunity_Acid, s),
    ensures
        spec_single_immunity(s) == Some(Immunity_Type::Immunity_Acid),
{
    reveal_strlit("Acido");
    reveal_strlit("acido");
    assert("Acido"@.len() == 5);
    assert("acido"@.len() == 5);
    assert("acido"@[0] != "Acido"@[0]);
    assert("acido"@ != "Acido"@);
}

proof fn lemma_read_immunity_fire(s: Seq<char>)
    requires
        immunity_named(Immunity_Type::Immunity_Fire, s),
    ensures
        spec_single_immunity(s) == Some(Immunity_Type::Immunity_Fire),
{
    reveal_strlit("Acido");
    reveal_strlit("Assorbimento del Fuoco");
    reveal_strlit("Fuoco");
    reveal_strlit("acido");
    reveal_strlit("fuoco");
    assert("Acido"@.len() == 5);
    assert("Assorbimento del Fuoco"@.len() == 22);
    assert("Fuoco"@.len() == 5);
    assert("acido"@.len() == 5);
    assert("fuoco"@.len() == 5);
    assert("Fuoco"@[0] != "Acido"@[0]);
    assert("Fuoco"@ != "Acido"@);
    assert("Fuoco"@[0] != "acido"@[0]);
    assert("Fuoco"@ != "acido"@);
    assert("fuoco"@[0] != "Acido"@[0]);
    assert("fuoco"@ != "Acido"@);
    assert("fuoco"@[0] != "acido"@[0]);
    assert("fuoco"@ != "acido"@);
    assert("fuoco"@[0] != "Fuoco"@[0]);
    assert("fuoco"@ != "Fuoco"@);
}

proof fn lemma_read_immunity_cold(s: Seq<char>)
    requires
        immunity_named(Immunity_Type::Immunity_Cold, s),
    ensures
        spec_single_immunity(s) == Some(Immunity_Type::Immunity_Cold),
{
    reveal_strlit("Acido");
    reveal_strlit("Assorbimento del Fuoco");
    reveal_strlit("Freddo");
    reveal_strlit("Freddo (sé stesso e chi lo cavalca)");
    reveal_strlit("Fuoco");
    reveal_strlit("Immunità al Freddo");
    reveal_strlit("acido");
    reveal_strlit("freddo");
    reveal_strlit("fuoco");
    assert("Acido"@.len() == 5);
    assert("Assorbimento del Fuoco"@.len() == 22);
    assert("Freddo"@.len() == 6);
    assert("Freddo (sé stesso e chi lo cavalca)"@.len() == 35);
    assert("Fuoco"@.len() == 5);
    assert("Immunità al Freddo"@.len() == 18);
    assert("acido"@.len() == 5);
    assert("freddo"@.len() == 6);
    assert("fuoco"@.len() == 5);
    assert("freddo"@[0] != "Freddo"@[0]);
    assert("freddo"@ != "Freddo"@);
}

proof fn lemma_read_immunity_elec(s: Seq<char>)
    requires
        immunity_named(Immunity_Type::Immunity_Elec, s),
    ensures
        spec_single_immunity(s) == Some(Immunity_Type::Immunity_Elec),
{
    reveal_strlit("Acido");
    reveal_strlit("Assorbimento del Fuoco");
    reveal_strlit("Elettricità");
    reveal_strlit("Elettricità (parziale)");
    reveal_strlit("Freddo");
    reveal_strlit("Freddo (sé stesso e chi lo cavalca)");
    reveal_strlit("Fuoco");
    reveal_strlit("Immunità al Freddo");
    reveal_strlit("acido");
    reveal_strlit("elettricità");
    reveal_strlit("freddo");
    reveal_strlit("fuoco");
    assert("Acido"@.len() == 5);
    assert("Assorbimento del Fuoco"@.len() == 22);
    assert("Elettricità"@.len() == 11);
    assert("Elettricità (parziale)"@.len() == 22);
    assert("Freddo"@.len() == 6);
    assert("Freddo (sé stesso e chi lo cavalca)"@.len() == 35);
    assert("Fuoco"@.len() == 5);
    assert("Immunità al Freddo"@.len() == 18);
    assert("acido"@.len() == 5);
    assert("elettricità"@.len() == 11);
    assert("freddo"@.len() == 6);
    assert("fuoco"@.len() == 5);
    assert("elettricità"@[0] != "Elettricità"@[0]);
    assert("elettricità"@ != "Elettricità"@);
    assert("Elettricità (parziale)"@[0] != "Assorbimento del Fuoco"@[0]);
    assert("Elettricità (parziale)"@ != "Assorbimento del Fuoco"@);
}

proof fn lemma_read_immunity_sound(s: Seq<char>)
    requires
        immunity_named(Immunity_Type::Immunity_Sound, s),
    ensures
        spec_single_immunity(s) == Some(Immunity_Type::Immunity_Sound),
{
    reveal_strlit("Acido");
    reveal_strlit("Assorbimento del Fuoco");
    reveal_strlit("Elettricità");
    reveal_strlit("Elettricità (parziale)");
    reveal_strlit("Freddo");
    reveal_strlit("Freddo (sé stesso e chi lo cavalca)");
    reveal_strlit("Fuoco");
    reveal_strlit("Immunità al Freddo");
    reveal_strlit("Sonoro");
    reveal_strlit("acido");
    reveal_strlit("elettricità");
    reveal_strlit("freddo");
    reveal_strlit("fuoco");
    reveal_strlit("sonoro");
    assert("Acido"@.len() == 5);
    assert("Assorbimento del Fuoco"@.len() == 22);
    assert("Elettricità"@.len() == 11);
    assert("Elettricità (parziale)"@.len() == 22);
    assert("Freddo"@.len() == 6);
    assert("Freddo (sé stesso e chi lo cavalca)"@.len() == 35);
    assert("Fuoco"@.len() == 5);
    assert("Immunità al Freddo"@.len() == 18);
    assert("Sonoro"@.len() == 6);
    assert("acido"@.len() == 5);
    assert("elettricità"@.len() == 11);
    assert("freddo"@.len() == 6);
    assert("fuoco"@.len() == 5);
    assert("sonoro"@.len() == 6);
    assert("Sonoro"@[0] != "Freddo"@[0]);
    assert("Sonoro"@ != "Freddo"@);
    assert("Sonoro"@[0] != "freddo"@[0]);
    assert("Sonoro"@ != "freddo"@);
    assert("sonoro"@[0] != "Freddo"@[0]);
    assert("sonoro"@ != "Freddo"@);
    assert("sonoro"@[0] != "freddo"@[0]);
    assert("sonoro"@ != "freddo"@);
    assert("sonoro"@[0] != "Sonoro"@[0]);
    assert("sonoro"@ != "Sonoro"@);
}

proof fn lemma_read_immunity_energynegative(s: Seq<char>)
    requires
        immunity_named(Immunity_Type::Immunity_EnergyNegative, s),
    ensures
        spec_single_immunity(s) == Some(Immunity_Type::Immunity_EnergyNegative),
{
    reveal_strlit("Acido");
    reveal_strlit("Assorbimento del Fuoco");
    reveal_strlit("Elettricità");
    reveal_strlit("Elettricità (parziale)");
    reveal_strlit("Energia Negativa");
    reveal_strlit("Freddo");
    reveal_strlit("Freddo (sé stesso e chi lo cavalca)");
    reveal_strlit("Fuoco");
    reveal_strlit("Immunità al Freddo");
    reveal_strlit("Sonoro");
    reveal_strlit("acido");
    reveal_strlit("elettricità");
    reveal_strlit("energia negativa");
    reveal_strlit("freddo");
    reveal_strlit("fuoco");
    reveal_strlit("sonoro");
    assert("Acido"@.len() == 5);
    assert("Assorbimento del Fuoco"@.len() == 22);
    assert("Elettricità"@.len() == 11);
    assert("Elettricità (parziale)"@.len() == 22);
    assert("Energia Negativa"@.len() == 16);
    assert("Freddo"@.len() == 6);
    assert("Freddo (sé stesso e chi lo cavalca)"@.len() == 35);
    assert("Fuoco"@.len() == 5);
    assert("Immunità al Freddo"@.len() == 18);
    assert("Sonoro"@.len() == 6);
    assert("acido"@.len() == 5);
    assert("elettricità"@.len() == 11);
    assert("energia negativa"@.len() == 16);
    assert("freddo"@.len() == 6);
    assert("fuoco"@.len() == 5);
    assert("sonoro"@.len() == 6);
    assert("energia negativa"@[0] != "Energia Negativa"@[0]);
    assert("energia negativa"@ != "Energia Negativa"@);
}

proof fn lemma_read_immunity_energypositive(s: Seq<char>)
    requires
        immunity_named(Immunity_Type::Immunity_EnergyPositive, s) && !(s == "energia negativa"@),
    ensures
        spec_single_immunity(s) == Some(Immunity_Type::Immunity_EnergyPositive),
{
    reveal_strlit("Acido");
    reveal_strlit("Assorbimento del Fuoco");
    reveal_strlit("Elettricità");
    reveal_strlit("Elettricità (parziale)");
    reveal_strlit("Energia Negativa");
    reveal_strlit("Energia Positiva");
    reveal_strlit("Freddo");
    reveal_strlit("Freddo (sé stesso e chi lo cavalca)");
    reveal_strlit("Fuoco");
    reveal_strlit("Immunità al Freddo");
    reveal_strlit("Sonoro");
    reveal_strlit("acido");
    reveal_strlit("elettricità");
    reveal_strlit("energia negativa");
    reveal_strlit("freddo");
    reveal_strlit("fuoco");
    reveal_strlit("sonoro");
    assert("Acido"@.len() == 5);
    assert("Assorbimento del Fuoco"@.len() == 22);
    assert("Elettricità"@.len() == 11);
    assert("Elettricità (parziale)"@.len() == 22);
    assert("Energia Negativa"@.len() == 16);
    assert("Energia Positiva"@.len() == 16);
    assert("Freddo"@.len() == 6);
    assert("Freddo (sé stesso e chi lo cavalca)"@.len() == 35);
    assert("Fuoco"@.len() == 5);
    assert("Immunità al Freddo"@.len() == 18);
    assert("Sonoro"@.len() == 6);
    assert("acido"@.len() == 5);
    assert("elettricità"@.len() == 11);
    assert("energia negativa"@.len() == 16);
    assert("freddo"@.len() == 6);
    assert("fuoco"@.len() == 5);
    assert("sonoro"@.len() == 6);
    assert("Energia Positiva"@[8] != "Energia Negativa"@[8]);
    assert("Energia Positiva"@ != "Energia Negativa"@);
    assert("Energia Positiva"@[0] != "energia negativa"@[0]);
    assert("Energia Positiva"@ != "energia negativa"@);
}

proof fn lemma_read_immunity_infernalfire(s: Seq<char>)
    requires
        immunity_named(Immunity_Type::Immunity_InfernalFire, s),
    ensures
        spec_single_immunity(s) == Some(Immunity_Type::Immunity_InfernalFire),
{
    reveal_strlit("Acido");
    reveal_strlit("Assorbimento del Fuoco");
    reveal_strlit("Elettricità");
    reveal_strlit("Elettricità (parziale)");
    reveal_strlit("Energia Negativa");
    reveal_strlit("Energia Positiva");
    reveal_strlit("Freddo");
    reveal_strlit("Freddo (sé stesso e chi lo cavalca)");
    reveal_strlit("Fuoco");
    reveal_strlit("Fuoco Infernale");
    reveal_strlit("Immunità al Freddo");
    reveal_strlit("Sonoro");
    reveal_strlit("acido");
    reveal_strlit("elettricità");
    reveal_strlit("energia negativa");
    reveal_strlit("freddo");
    reveal_strlit("fuoco");
    reveal_strlit("sonoro");
    assert("Acido"@.len() == 5);
    assert("Assorbimento del Fuoco"@.len() == 22);
    assert("Elettricità"@.len() == 11);
    assert("Elettricità (parziale)"@.len() == 22);
    assert("Energia Negativa"@.len() == 16);
    assert("Energia Positiva"@.len() == 16);
    assert("Freddo"@.len() == 6);
    assert("Freddo (sé stesso e chi lo cavalca)"@.len() == 35);
    assert("Fuoco"@.len() == 5);
    assert("Fuoco Infernale"@.len() == 15);
    assert("Immunità al Freddo"@.len() == 18);
    assert("Sonoro"@.len() == 6);
    assert("acido"@.len() == 5);
    assert("elettricità"@.len() == 11);
    assert("energia negativa"@.len() == 16);
    assert("freddo"@.len() == 6);
    assert("fuoco"@.len() == 5);
    assert("sonoro"@.len() == 6);

}

proof fn lemma_read_immunity_paralysis(s: Seq<char>)
    requires
        immunity_named(Immunity_Type::Immunity_Paralysis, s),
    ensures
        spec_single_immunity(s) == Some(Immunity_Type::Immunity_Paralysis),
{
    reveal_strlit("Acido");
    reveal_strlit("Assorbimento del Fuoco");
    reveal_strlit("Elettricità");
    reveal_strlit("Elettricità (parziale)");
    reveal_strlit("Energia Negativa");
    reveal_strlit("Energia Positiva");
    reveal_strlit("Freddo");
    reveal_strlit("Freddo (sé stesso e chi lo cavalca)");
    reveal_strlit("Fuoco");
    reveal_strlit("Fuoco Infernale");
    reveal_strlit("Immunità al Freddo");
    reveal_strlit("Paralisi");
    reveal_strlit("Sonoro");
    reveal_strlit("acido");
    reveal_strlit("elettricità");
    reveal_strlit("energia negativa");
    reveal_strlit("freddo");
    reveal_strlit("fuoco");
    reveal_strlit("paralisi");
    reveal_strlit("sonoro");
    assert("Acido"@.len() == 5);
    assert("Assorbimento del Fuoco"@.len() == 22);
    assert("Elettricità"@.len() == 11);
    assert("Elettricità (parziale)"@.len() == 22);
    assert("Energia Negativa"@.len() == 16);
    assert("Energia Positiva"@.len() == 16);
    assert("Freddo"@.len() == 6);
    assert("Freddo (sé stesso e chi lo cavalca)"@.len() == 35);
    assert("Fuoco"@.len() == 5);
    assert("Fuoco Infernale"@.len() == 15);
    assert("Immunità al Freddo"@.len() == 18);
    assert("Paralisi"@.len() == 8);
    assert("Sonoro"@.len() == 6);
    assert("acido"@.len() == 5);
    assert("elettricità"@.len() == 11);
    assert("energia negativa"@.len() == 16);
    assert("freddo"@.len() == 6);
    assert("fuoco"@.len() == 5);
    assert("paralisi"@.len() == 8);
    assert("sonoro"@.len() == 6);
    assert("paralisi"@[0] != "Paralisi"@[0]);
    assert("paralisi"@ != "Paralisi"@);
}

proof fn lemma_read_immunity_sleep(s: Seq<char>)
    requires
        immunity_named(Immunity_Type::Immunity_Sleep, s),
    ensures
        spec_single_immunity(s) == Some(Immunity_Type::Immunity_Sleep),
{
    reveal_strlit("Acido");
    reveal_strlit("Assorbimento del Fuoco");
    reveal_strlit("Effetti di Sonno");
    reveal_strlit("Effetti di sonno");
    reveal_strlit("Elettricità");
    reveal_strlit("Elettricità (parziale)");
    reveal_strlit("Energia Negativa");
    reveal_strlit("Energia Positiva");
    reveal_strlit("Freddo");
    reveal_strlit("Freddo (sé stesso e chi lo cavalca)");
    reveal_strlit("Fuoco");
    reveal_strlit("Fuoco Infernale");
    reveal_strlit("Immunità al Freddo");
    reveal_strlit("Paralisi");
    reveal_strlit("Sonno");
    reveal_strlit("Sonoro");
    reveal_strlit("acido");
    reveal_strlit("effetti di Sonno");
    reveal_strlit("effetti di sonno");
    reveal_strlit("elettricità");
    reveal_strlit("energia negativa");
    reveal_strlit("freddo");
    reveal_strlit("fuoco");
    reveal_strlit("paralisi");
    reveal_strlit("sonno");
    reveal_strlit("sonoro");
    assert("Acido"@.len() == 5);
    assert("Assorbimento del Fuoco"@.len() == 22);
    assert("Effetti di Sonno"@.len() == 16);
    assert("Effetti di sonno"@.len() == 16);
    assert("Elettricità"@.len() == 11);
    assert("Elettricità (parziale)"@.len() == 22);
    assert("Energia Negativa"@.len() == 16);
    assert("Energia Positiva"@.len() == 16);
    assert("Freddo"@.len() == 6);
    assert("Freddo (sé stesso e chi lo cavalca)"@.len() == 35);
    assert("Fuoco"@.len() == 5);
    assert("Fuoco Infernale"@.len() == 15);
    assert("Immunità al Freddo"@.len() == 18);
    assert("Paralisi"@.len() == 8);
    assert("Sonno"@.len() == 5);
    assert("Sonoro"@.len() == 6);
    assert("acido"@.len() == 5);
    assert("effetti di Sonno"@.len() == 16);
    assert("effetti di sonno"@.len() == 16);
    assert("elettricità"@.len() == 11);
    assert("energia negativa"@.len() == 16);
    assert("freddo"@.len() == 6);
    assert("fuoco"@.len() == 5);
    assert("paralisi"@.len() == 8);
    assert("sonno"@.len() == 5);
    assert("sonoro"@.len() == 6);
    assert("Sonno"@[0] != "Acido"@[0]);
    assert("Sonno"@ != "Acido"@);
    assert("Sonno"@[0] != "acido"@[0]);
    assert("Sonno"@ != "acido"@);
    assert("Sonno"@[0] != "Fuoco"@[0]);
    assert("Sonno"@ != "Fuoco"@);
    assert("Sonno"@[0] != "fuoco"@[0]);
    assert("Sonno"@ != "fuoco"@);
    assert("sonno"@[0] != "Acido"@[0]);
    assert("sonno"@ != "Acido"@);
    assert("sonno"@[0] != "acido"@[0]);
    assert("sonno"@ != "acido"@);
    assert("sonno"@[0] != "Fuoco"@[0]);
    assert("sonno"@ != "Fuoco"@);
    assert("sonno"@[0] != "fuoco"@[0]);
    assert("sonno"@ != "fuoco"@);
    assert("sonno"@[0] != "Sonno"@[0]);
    assert("sonno"@ != "Sonno"@);
    assert("effetti di sonno"@[0] != "Energia Negativa"@[0]);
    assert("effetti di sonno"@ != "Energia Negativa"@);
    assert("effetti di sonno"@[1] != "energia negativa"@[1]);
    assert("effetti di sonno"@ != "energia negativa"@);
    assert("effetti di sonno"@[0] != "Energia Positiva"@[0]);
    assert("effetti di sonno"@ != "Energia Positiva"@);
    assert("effetti di sonno"@[1] != "energia negativa"@[1]);
    assert("effetti di sonno"@ != "energia negativa"@);
    assert("Effetti di Sonno"@[1] != "Energia Negativa"@[1]);
    assert("Effetti di Sonno"@ != "Energia Negativa"@);
    assert("Effetti di Sonno"@[0] != "energia negativa"@[0]);
    assert("Effetti di Sonno"@ != "energia negativa"@);
    assert("Effetti di Sonno"@[1] != "Energia Positiva"@[1]);
    assert("Effetti di Sonno"@ != "Energia Positiva"@);
    assert("Effetti di Sonno"@[0] != "energia negativa"@[0]);
    assert("Effetti di Sonno"@ != "energia negativa"@);
    assert("Effetti di Sonno"@[0] != "effetti di sonno"@[0]);
    assert("Effetti di Sonno"@ != "effetti di sonno"@);
    assert("Effetti di sonno"@[1] != "Energia Negativa"@[1]);
    assert("Effetti di sonno"@ != "Energia Negativa"@);
    assert("Effetti di sonno"@[0] != "energia negativa"@[0]);
    assert("Effetti di sonno"@ != "energia negativa"@);
    assert("Effetti di sonno"@[1] != "Energia Positiva"@[1]);
    assert("Effetti di sonno"@ != "Energia Positiva"@);
    assert("Effetti di sonno"@[0] != "energia negativa"@[0]);
    assert("Effetti di sonno"@ != "energia negativa"@);
    assert("Effetti di sonno"@[0] != "effetti di sonno"@[0]);
    assert("Effetti di sonno"@ != "effetti di sonno"@);
    assert("Effetti di sonno"@[11] != "Effetti di Sonno"@[11]);
    assert("Effetti di sonno"@ != "Effetti di Sonno"@);
    assert("effetti di Sonno"@[0] != "Energia Negativa"@[0]);
    assert("effetti di Sonno"@ != "Energia Negativa"@);
    assert("effetti di Sonno"@[1] != "energia negativa"@[1]);
    assert("effetti di Sonno"@ != "energia negativa"@);
    assert("effetti di Sonno"@[0] != "Energia Positiva"@[0]);
    assert("effetti di Sonno"@ != "Energia Positiva"@);
    assert("effetti di Sonno"@[1] != "energia negativa"@[1]);
    assert("effetti di Sonno"@ != "energia negativa"@);
    assert("effetti di Sonno"@[11] != "effetti di sonno"@[11]);
    assert("effetti di Sonno"@ != "effetti di sonno"@);
    assert("effetti di Sonno"@[0] != "Effetti di Sonno"@[0]);
    assert("effetti di Sonno"@ != "Effetti di Sonno"@);
    assert("effetti di Sonno"@[0] != "Effetti di sonno"@[0]);
    assert("effetti di Sonno"@ != "Effetti di sonno"@);
}

proof fn lemma_read_immunity_fatigued(s: Seq<char>)
    requires
        immunity_named(Immunity_Type::Immunity_Fatigued, s),
    ensures
        spec_single_immunity(s) == Some(Immunity_Type::Immunity_Fatigued),
{
    reveal_strlit("Acido");
    reveal_strlit("Affaticamento");
    reveal_strlit("Affaticato");
    reveal_strlit("Assorbimento del Fuoco");
    reveal_strlit("Condizione Affaticato");
    reveal_strlit("Effetti di Sonno");
    reveal_strlit("Effetti di sonno");
    reveal_strlit("Elettricità");
    reveal_strlit("Elettricità (parziale)");
    reveal_strlit("Energia Negativa");
    reveal_strlit("Energia Positiva");
    reveal_strlit("Fatica");
    reveal_strlit("Freddo");
    reveal_strlit("Freddo (sé stesso e chi lo cavalca)");
    reveal_strlit("Fuoco");
    reveal_strlit("Fuoco Infernale");
    reveal_strlit("Immunità al Freddo");
    reveal_strlit("Paralisi");
    reveal_strlit("Sonno");
    reveal_strlit("Sonoro");
    reveal_strlit("acido");
    reveal_strlit("effetti di Sonno");
    reveal_strlit("effetti di sonno");
    reveal_strlit("elettricità");
    reveal_strlit("energia negativa");
    reveal_strlit("freddo");
    reveal_strlit("fuoco");
    reveal_strlit("paralisi");
    reveal_strlit("sonno");
    reveal_strlit("sonoro");
    assert("Acido"@.len() == 5);
    assert("Affaticamento"@.len() == 13);
    assert("Affaticato"@.len() == 10);
    assert("Assorbimento del Fuoco"@.len() == 22);
    assert("Condizione Affaticato"@.len() == 21);
    assert("Effetti di Sonno"@.len() == 16);
    assert("Effetti di sonno"@.len() == 16);
    assert("Elettricità"@.len() == 11);
    assert("Elettricità (parziale)"@.len() == 22);
    assert("Energia Negativa"@.len() == 16);
    assert("Energia Positiva"@.len() == 16);
    assert("Fatica"@.len() == 6);
    assert("Freddo"@.len() == 6);
    assert("Freddo (sé stesso e chi lo cavalca)"@.len() == 35);
    assert("Fuoco"@.len() == 5);
    assert("Fuoco Infernale"@.len() == 15);
    assert("Immunità al Freddo"@.len() == 18);
    assert("Paralisi"@.len() == 8);
    assert("Sonno"@.len() == 5);
    assert("Sonoro"@.len() == 6);
    assert("acido"@.len() == 5);
    assert("effetti di Sonno"@.len() == 16);
    assert("effetti di sonno"@.len() == 16);
    assert("elettricità"@.len() == 11);
    assert("energia negativa"@.len() == 16);
    assert("freddo"@.len() == 6);
    assert("fuoco"@.len() == 5);
    assert("paralisi"@.len() == 8);
    assert("sonno"@.len() == 5);
    assert("sonoro"@.len() == 6);
    assert("Fatica"@[1] != "Freddo"@[1]);
    assert("Fatica"@ != "Freddo"@);
    assert("Fatica"@[0] != "freddo"@[0]);
    assert("Fatica"@ != "freddo"@);
    assert("Fatica"@[0] != "Sonoro"@[0]);
    assert("Fatica"@ != "Sonoro"@);
    assert("Fatica"@[0] != "sonoro"@[0]);
    assert("Fatica"@ != "sonoro"@);
}

proof fn lemma_read_immunity_exhausted(s: Seq<char>)
    requires
        immunity_named(Immunity_Type::Immunity_Exhausted, s),
    ensures
        spec_single_immunity(s) == Some(Immunity_Type::Immunity_Exhausted),
{
    reveal_strlit("Acido");
    reveal_strlit("Affaticamento");
    reveal_strlit("Affaticato");
    reveal_strlit("Assorbimento del Fuoco");
    reveal_strlit("Condizione Affaticato");
    reveal_strlit("Condizione Esausto");
    reveal_strlit("Effetti di Sonno");
    reveal_strlit("Effetti di sonno");
    reveal_strlit("Elettricità");
    reveal_strlit("Elettricità (parziale)");
    reveal_strlit("Energia Negativa");
    reveal_strlit("Energia Positiva");
    reveal_strlit("Esaurimento");
    reveal_strlit("Esausto");
    reveal_strlit("Fatica");
    reveal_strlit("Freddo");
    reveal_strlit("Freddo (sé stesso e chi lo cavalca)");
    reveal_strlit("Fuoco");
    reveal_strlit("Fuoco Infernale");
    reveal_strlit("Immunità al Freddo");
    reveal_strlit("Paralisi");
    reveal_strlit("Sonno");
    reveal_strlit("Sonoro");
    reveal_strlit("acido");
    reveal_strlit("effetti di Sonno");
    reveal_strlit("effetti di sonno");
    reveal_strlit("elettricità");
    reveal_strlit("energia negativa");
    reveal_strlit("freddo");
    reveal_strlit("fuoco");
    reveal_strlit("paralisi");
    reveal_strlit("sonno");
    reveal_strlit("sonoro");
    assert("Acido"@.len() == 5);
    assert("Affaticamento"@.len() == 13);
    assert("Affaticato"@.len() == 10);
    assert("Assorbimento del Fuoco"@.len() == 22);
    assert("Condizione Affaticato"@.len() == 21);
    assert("Condizione Esausto"@.len() == 18);
    assert("Effetti di Sonno"@.len() == 16);
    assert("Effetti di sonno"@.len() == 16);
    assert("Elettricità"@.len() == 11);
    assert("Elettricità (parziale)"@.len() == 22);
    assert("Energia Negativa"@.len() == 16);
    assert("Energia Positiva"@.len() == 16);
    assert("Esaurimento"@.len() == 11);
    assert("Esausto"@.len() == 7);
    assert("Fatica"@.len() == 6);
    assert("Freddo"@.len() == 6);
    assert("Freddo (sé stesso e chi lo cavalca)"@.len() == 35);
    assert("Fuoco"@.len() == 5);
    assert("Fuoco Infernale"@.len() == 15);
    assert("Immunità al Freddo"@.len() == 18);
    assert("Paralisi"@.len() == 8);
    assert("Sonno"@.len() == 5);
    assert("Sonoro"@.len() == 6);
    assert("acido"@.len() == 5);
    assert("effetti di Sonno"@.len() == 16);
    assert("effetti di sonno"@.len() == 16);
    assert("elettricità"@.len() == 11);
    assert("energia negativa"@.len() == 16);
    assert("freddo"@.len() == 6);
    assert("fuoco"@.len() == 5);
    assert("paralisi"@.len() == 8);
    assert("sonno"@.len() == 5);
    assert("sonoro"@.len() == 6);
    assert("Condizione Esausto"@[0] != "Immunità al Freddo"@[0]);
    assert("Condizione Esausto"@ != "Immunità al Freddo"@);
    assert("Esaurimento"@[1] != "Elettricità"@[1]);
    assert("Esaurimento"@ != "Elettricità"@);
    assert("Esaurimento"@[0] != "elettricità"@[0]);
    assert("Esaurimento"@ != "elettricità"@);
}

proof fn lemma_read_immunity_fear(s: Seq<char>)
    requires
        immunity_named(Immunity_Type::Immunity_Fear, s),
    ensures
        spec_single_immunity(s) == Some(Immunity_Type::Immunity_Fear),
{
    reveal_strlit("Acido");
    reveal_strlit("Affaticamento");
    reveal_strlit("Affaticato");
    reveal_strlit("Assorbimento del Fuoco");
    reveal_strlit("Condizione Affaticato");
    reveal_strlit("Condizione Esausto");
    reveal_strlit("Effetti di Paura");
    reveal_strlit("Effetti di Sonno");
    reveal_strlit("Effetti di paura");
    reveal_strlit("Effetti di sonno");
    reveal_strlit("Elettricità");
    reveal_strlit("Elettricità (parziale)");
    reveal_strlit("Energia Negativa");
    reveal_strlit("Energia Positiva");
    reveal_strlit("Esaurimento");
    reveal_strlit("Esausto");
    reveal_strlit("Fatica");
    reveal_strlit("Freddo");
    reveal_strlit("Freddo (sé stesso e chi lo cavalca)");
    reveal_strlit("Fuoco");
    reveal_strlit("Fuoco Infernale");
    reveal_strlit("Immunità al Freddo");
    reveal_strlit("Paralisi");
    reveal_strlit("Paura");
    reveal_strlit("Sonno");
    reveal_strlit("Sonoro");
    reveal_strlit("acido");
    reveal_strlit("effetti di Paura");
    reveal_strlit("effetti di Sonno");
    reveal_strlit("effetti di paura");
    reveal_strlit("effetti di sonno");
    reveal_strlit("elettricità");
    reveal_strlit("energia negativa");
    reveal_strlit("freddo");
    reveal_strlit("fuoco");
    reveal_strlit("paralisi");
    reveal_strlit("paura");
    reveal_strlit("sonno");
    reveal_strlit("sonoro");
    assert("Acido"@.len() == 5);
    assert("Affaticamento"@.len() == 13);
    assert("Affaticato"@.len() == 10);
    assert("Assorbimento del Fuoco"@.len() == 22);
    assert("Condizione Affaticato"@.len() == 21);
    assert("Condizione Esausto"@.len() == 18);
    assert("Effetti di Paura"@.len() == 16);
    assert("Effetti di Sonno"@.len() == 16);
    assert("Effetti di paura"@.len() == 16);
    assert("Effetti di sonno"@.len() == 16);
    assert("Elettricità"@.len() == 11);
    assert("Elettricità (parziale)"@.len() == 22);
    assert("Energia Negativa"@.len() == 16);
    assert("Energia Positiva"@.len() == 16);
    assert("Esaurimento"@.len() == 11);
    assert("Esausto"@.len() == 7);
    assert("Fatica"@.len() == 6);
    assert("Freddo"@.len() == 6);
    assert("Freddo (sé stesso e chi lo cavalca)"@.len() == 35);
    assert("Fuoco"@.len() == 5);
    assert("Fuoco Infernale"@.len() == 15);
    assert("Immunità al Freddo"@.len() == 18);
    assert("Paralisi"@.len() == 8);
    assert("Paura"@.len() == 5);
    assert("Sonno"@.len() == 5);
    assert("Sonoro"@.len() == 6);
    assert("acido"@.len() == 5);
    assert("effetti di Paura"@.len() == 16);
    assert("effetti di Sonno"@.len() == 16);
    assert("effetti di paura"@.len() == 16);
    assert("effetti di sonno"@.len() == 16);
    assert("elettricità"@.len() == 11);
    assert("energia negativa"@.len() == 16);
    assert("freddo"@.len() == 6);
    assert("fuoco"@.len() == 5);
    assert("paralisi"@.len() == 8);
    assert("paura"@.len() == 5);
    assert("sonno"@.len() == 5);
    assert("sonoro"@.len() == 6);
    assert("Paura"@[0] != "Acido"@[0]);
    assert("Paura"@ != "Acido"@);
    assert("Paura"@[0] != "acido"@[0]);
    assert("Paura"@ != "acido"@);
    assert("Paura"@[0] != "Fuoco"@[0]);
    assert("Paura"@ != "Fuoco"@);
    assert("Paura"@[0] != "fuoco"@[0]);
    assert("Paura"@ != "fuoco"@);
    assert("Paura"@[0] != "Sonno"@[0]);
    assert("Paura"@ != "Sonno"@);
    assert("Paura"@[0] != "sonno"@[0]);
    assert("Paura"@ != "sonno"@);
    assert("paura"@[0] != "Acido"@[0]);
    assert("paura"@ != "Acido"@);
    assert("paura"@[0] != "acido"@[0]);
    assert("paura"@ != "acido"@);
    assert("paura"@[0] != "Fuoco"@[0]);
    assert("paura"@ != "Fuoco"@);
    assert("paura"@[0] != "fuoco"@[0]);
    assert("paura"@ != "fuoco"@);
    assert("paura"@[0] != "Sonno"@[0]);
    assert("paura"@ != "Sonno"@);
    assert("paura"@[0] != "sonno"@[0]);
    assert("paura"@ != "sonno"@);
    assert("paura"@[0] != "Paura"@[0]);
    assert("paura"@ != "Paura"@);
    assert("Effetti di Paura"@[1] != "Energia Negativa"@[1]);
    assert("Effetti di Paura"@ != "Energia Negativa"@);
    assert("Effetti di Paura"@[0] != "energia negativa"@[0]);
    assert("Effetti di Paura"@ != "energia negativa"@);
    assert("Effetti di Paura"@[1] != "Energia Positiva"@[1]);
    assert("Effetti di Paura"@ != "Energia Positiva"@);
    assert("Effetti di Paura"@[0] != "energia negativa"@[0]);
    assert("Effetti di Paura"@ != "energia negativa"@);
    assert("Effetti di Paura"@[0] != "effetti di sonno"@[0]);
    assert("Effetti di Paura"@ != "effetti di sonno"@);
    assert("Effetti di Paura"@[11] != "Effetti di Sonno"@[11]);
    assert("Effetti di Paura"@ != "Effetti di Sonno"@);
    assert("Effetti di Paura"@[11] != "Effetti di sonno"@[11]);
    assert("Effetti di Paura"@ != "Effetti di sonno"@);
    assert("Effetti di Paura"@[0] != "effetti di Sonno"@[0]);
    assert("Effetti di Paura"@ != "effetti di Sonno"@);
    assert("effetti di Paura"@[0] != "Energia Negativa"@[0]);
    assert("effetti di Paura"@ != "Energia Negativa"@);
    assert("effetti di Paura"@[1] != "energia negativa"@[1]);
    assert("effetti di Paura"@ != "energia negativa"@);
    assert("effetti di Paura"@[0] != "Energia Positiva"@[0]);
    assert("effetti di Paura"@ != "Energia Positiva"@);
    assert("effetti di Paura"@[1] != "energia negativa"@[1]);
    assert("effetti di Paura"@ != "energia negativa"@);
    assert("effetti di Paura"@[11] != "effetti di sonno"@[11]);
    assert("effetti di Paura"@ != "effetti di sonno"@);
    assert("effetti di Paura"@[0] != "Effetti di Sonno"@[0]);
    assert("effetti di Paura"@ != "Effetti di Sonno"@);
    assert("effetti di Paura"@[0] != "Effetti di sonno"@[0]);
    assert("effetti di Paura"@ != "Effetti di sonno"@);
    assert("effetti di Paura"@[11] != "effetti di Sonno"@[11]);
    assert("effetti di Paura"@ != "effetti di Sonno"@);
    assert("effetti di Paura"@[0] != "Effetti di Paura"@[0]);
    assert("effetti di Paura"@ != "Effetti di Paura"@);
    assert("effetti di paura"@[0] != "Energia Negativa"@[0]);
    assert("effetti di paura"@ != "Energia Negativa"@);
    assert("effetti di paura"@[1] != "energia negativa"@[1]);
    assert("effetti di paura"@ != "energia negativa"@);
    assert("effetti di paura"@[0] != "Energia Positiva"@[0]);
    assert("effetti di paura"@ != "Energia Positiva"@);
    assert("effetti di paura"@[1] != "energia negativa"@[1]);
    assert("effetti di paura"@ != "energia negativa"@);
    assert("effetti di paura"@[11] != "effetti di sonno"@[11]);
    assert("effetti di paura"@ != "effetti di sonno"@);
    assert("effetti di paura"@[0] != "Effetti di Sonno"@[0]);
    assert("effetti di paura"@ != "Effetti di Sonno"@);
    assert("effetti di paura"@[0] != "Effetti di sonno"@[0]);
    assert("effetti di paura"@ != "Effetti di sonno"@);
    assert("effetti di paura"@[11] != "effetti di Sonno"@[11]);
    assert("effetti di paura"@ != "effetti di Sonno"@);
    assert("effetti di paura"@[0] != "Effetti di Paura"@[0]);
    assert("effetti di paura"@ != "Effetti di Paura"@);
    assert("effetti di paura"@[11] != "effetti di Paura"@[11]);
    assert("effetti di paura"@ != "effetti di Paura"@);
    assert("Effetti di paura"@[1] != "Energia Negativa"@[1]);
    assert("Effetti di paura"@ != "Energia Negativa"@);
    assert("Effetti di paura"@[0] != "energia negativa"@[0]);
    assert("Effetti di paura"@ != "energia negativa"@);
    assert("Effetti di paura"@[1] != "Energia Positiva"@[1]);
    assert("Effetti di paura"@ != "Energia Positiva"@);
    assert("Effetti di paura"@[0] != "energia negativa"@[0]);
    assert("Effetti di paura"@ != "energia negativa"@);
    assert("Effetti di paura"@[0] != "effetti di sonno"@[0]);
    assert("Effetti di paura"@ != "effetti di sonno"@);
    assert("Effetti di paura"@[11] != "Effetti di Sonno"@[11]);
    assert("Effetti di paura"@ != "Effetti di Sonno"@);
    assert("Effetti di paura"@[11] != "Effetti di sonno"@[11]);
    assert("Effetti di paura"@ != "Effetti di sonno"@);
    assert("Effetti di paura"@[0] != "effetti di Sonno"@[0]);
    assert("Effetti di paura"@ != "effetti di Sonno"@);
    assert("Effetti di paura"@[11] != "Effetti di Paura"@[11]);
    assert("Effetti di paura"@ != "Effetti di Paura"@);
    assert("Effetti di paura"@[0] != "effetti di Paura"@[0]);
    assert("Effetti di paura"@ != "effetti di Paura"@);
    assert("Effetti di paura"@[0] != "effetti di paura"@[0]);
    assert("Effetti di paura"@ != "effetti di paura"@);
}

proof fn lemma_read_immunity_sickened(s: Seq<char>)
    requires
        immunity_named(Immunity_Type::Immunity_Sickened, s),
    ensures
        spec_single_immunity(s) == Some(Immunity_Type::Immunity_Sickened),
{
    reveal_strlit("Acido");
    reveal_strlit("Affaticamento");
    reveal_strlit("Affaticato");
    reveal_strlit("Assorbimento del Fuoco");
    reveal_strlit("Condizione Affaticato");
    reveal_strlit("Condizione Esausto");
    reveal_strlit("Effetti di Paura");
    reveal_strlit("Effetti di Sonno");
    reveal_strlit("Effetti di paura");
    reveal_strlit("Effetti di sonno");
    reveal_strlit("Elettricità");
    reveal_strlit("Elettricità (parziale)");
    reveal_strlit("Energia Negativa");
    reveal_strlit("Energia Positiva");
    reveal_strlit("Esaurimento");
    reveal_strlit("Esausto");
    reveal_strlit("Fatica");
    reveal_strlit("Freddo");
    reveal_strlit("Freddo (sé stesso e chi lo cavalca)");
    reveal_strlit("Fuoco");
    reveal_strlit("Fuoco Infernale");
    reveal_strlit("Immunità al Freddo");
    reveal_strlit("Infermità");
    reveal_strlit("Infermo");
    reveal_strlit("Paralisi");
    reveal_strlit("Paura");
    reveal_strlit("Sonno");
    reveal_strlit("Sonoro");
    reveal_strlit("acido");
    reveal_strlit("effetti di Paura");
    reveal_strlit("effetti di Sonno");
    reveal_strlit("effetti di paura");
    reveal_strlit("effetti di sonno");
    reveal_strlit("elettricità");
    reveal_strlit("energia negativa");
    reveal_strlit("freddo");
    reveal_strlit("fuoco");
    reveal_strlit("paralisi");
    reveal_strlit("paura");
    reveal_strlit("sonno");
    reveal_strlit("sonoro");
    assert("Acido"@.len() == 5);
    assert("Affaticamento"@.len() == 13);
    assert("Affaticato"@.len() == 10);
    assert("Assorbimento del Fuoco"@.len() == 22);
    assert("Condizione Affaticato"@.len() == 21);
    assert("Condizione Esausto"@.len() == 18);
    assert("Effetti di Paura"@.len() == 16);
    assert("Effetti di Sonno"@.len() == 16);
    assert("Effetti di paura"@.len() == 16);
    assert("Effetti di sonno"@.len() == 16);
    assert("Elettricità"@.len() == 11);
    assert("Elettricità (parziale)"@.len() == 22);
    assert("Energia Negativa"@.len() == 16);
    assert("Energia Positiva"@.len() == 16);
    assert("Esaurimento"@.len() == 11);
    assert("Esausto"@.len() == 7);
    assert("Fatica"@.len() == 6);
    assert("Freddo"@.len() == 6);
    assert("Freddo (sé stesso e chi lo cavalca)"@.len() == 35);
    assert("Fuoco"@.len() == 5);
    assert("Fuoco Infernale"@.len() == 15);
    assert("Immunità al Freddo"@.len() == 18);
    assert("Infermità"@.len() == 9);
    assert("Infermo"@.len() == 7);
    assert("Paralisi"@.len() == 8);
    assert("Paura"@.len() == 5);
    assert("Sonno"@.len() == 5);
    assert("Sonoro"@.len() == 6);
    assert("acido"@.len() == 5);
    assert("effetti di Paura"@.len() == 16);
    assert("effetti di Sonno"@.len() == 16);
    assert("effetti di paura"@.len() == 16);
    assert("effetti di sonno"@.len() == 16);
    assert("elettricità"@.len() == 11);
    assert("energia negativa"@.len() == 16);
    assert("freddo"@.len() == 6);
    assert("fuoco"@.len() == 5);
    assert("paralisi"@.len() == 8);
    assert("paura"@.len() == 5);
    assert("sonno"@.len() == 5);
    assert("sonoro"@.len() == 6);
    assert("Infermo"@[0] != "Esausto"@[0]);
    assert("Infermo"@ != "Esausto"@);
}

proof fn lemma_read_immunity_nauseated(s: Seq<char>)
    requires
        immunity_named(Immunity_Type::Immunity_Nauseated, s),
    ensures
        spec_single_immunity(s) == Some(Immunity_Type::Immunity_Nauseated),
{
    reveal_strlit("Acido");
    reveal_strlit("Affaticamento");
    reveal_strlit("Affaticato");
    reveal_strlit("Assorbimento del Fuoco");
    reveal_strlit("Condizione Affaticato");
    reveal_strlit("Condizione Esausto");
    reveal_strlit("Effetti di Paura");
    reveal_strlit("Effetti di Sonno");
    reveal_strlit("Effetti di paura");
    reveal_strlit("Effetti di sonno");
    reveal_strlit("Elettricità");
    reveal_strlit("Elettricità (parziale)");
    reveal_strlit("Energia Negativa");
    reveal_strlit("Energia Positiva");
    reveal_strlit("Esaurimento");
    reveal_strlit("Esausto");
    reveal_strlit("Fatica");
    reveal_strlit("Freddo");
    reveal_strlit("Freddo (sé stesso e chi lo cavalca)");
    reveal_strlit("Fuoco");
    reveal_strlit("Fuoco Infernale");
    reveal_strlit("Immunità al Freddo");
    reveal_strlit("Infermità");
    reveal_strlit("Infermo");
    reveal_strlit("Nausea");
    reveal_strlit("Nauseato");
    reveal_strlit("Paralisi");
    reveal_strlit("Paura");
    reveal_strlit("Sonno");
    reveal_strlit("Sonoro");
    reveal_strlit("acido");
    reveal_strlit("effetti di Paura");
    reveal_strlit("effetti di Sonno");
    reveal_strlit("effetti di paura");
    reveal_strlit("effetti di sonno");
    reveal_strlit("elettricità");
    reveal_strlit("energia negativa");
    reveal_strlit("freddo");
    reveal_strlit("fuoco");
    reveal_strlit("nausea");
    reveal_strlit("paralisi");
    reveal_strlit("paura");
    reveal_strlit("sonno");
    reveal_strlit("sonoro");
    assert("Acido"@.len() == 5);
    assert("Affaticamento"@.len() == 13);
    assert("Affaticato"@.len() == 10);
    assert("Assorbimento del Fuoco"@.len() == 22);
    assert("Condizione Affaticato"@.len() == 21);
    assert("Condizione Esausto"@.len() == 18);
    assert("Effetti di Paura"@.len() == 16);
    assert("Effetti di Sonno"@.len() == 16);
    assert("Effetti di paura"@.len() == 16);
    assert("Effetti di sonno"@.len() == 16);
    assert("Elettricità"@.len() == 11);
    assert("Elettricità (parziale)"@.len() == 22);
    assert("Energia Negativa"@.len() == 16);
    assert("Energia Positiva"@.len() == 16);
    assert("Esaurimento"@.len() == 11);
    assert("Esausto"@.len() == 7);
    assert("Fatica"@.len() == 6);
    assert("Freddo"@.len() == 6);
    assert("Freddo (sé stesso e chi lo cavalca)"@.len() == 35);
    assert("Fuoco"@.len() == 5);
    assert("Fuoco Infernale"@.len() == 15);
    assert("Immunità al Freddo"@.len() == 18);
    assert("Infermità"@.len() == 9);
    assert("Infermo"@.len() == 7);
    assert("Nausea"@.len() == 6);
    assert("Nauseato"@.len() == 8);
    assert("Paralisi"@.len() == 8);
    assert("Paura"@.len() == 5);
    assert("Sonno"@.len() == 5);
    assert("Sonoro"@.len() == 6);
    assert("acido"@.len() == 5);
    assert("effetti di Paura"@.len() == 16);
    assert("effetti di Sonno"@.len() == 16);
    assert("effetti di paura"@.len() == 16);
    assert("effetti di sonno"@.len() == 16);
    assert("elettricità"@.len() == 11);
    assert("energia negativa"@.len() == 16);
    assert("freddo"@.len() == 6);
    assert("fuoco"@.len() == 5);
    assert("nausea"@.len() == 6);
    assert("paralisi"@.len() == 8);
    assert("paura"@.len() == 5);
    assert("sonno"@.len() == 5);
    assert("sonoro"@.len() == 6);
    assert("Nauseato"@[0] != "Paralisi"@[0]);
    assert("Nauseato"@ != "Paralisi"@);
    assert("Nauseato"@[0] != "paralisi"@[0]);
    assert("Nauseato"@ != "paralisi"@);
    assert("Nausea"@[0] != "Freddo"@[0]);
    assert("Nausea"@ != "Freddo"@);
    assert("Nausea"@[0] != "freddo"@[0]);
    assert("Nausea"@ != "freddo"@);
    assert("Nausea"@[0] != "Sonoro"@[0]);
    assert("Nausea"@ != "Sonoro"@);
    assert("Nausea"@[0] != "sonoro"@[0]);
    assert("Nausea"@ != "sonoro"@);
    assert("Nausea"@[0] != "Fatica"@[0]);
    assert("Nausea"@ != "Fatica"@);
    assert("nausea"@[0] != "Freddo"@[0]);
    assert("nausea"@ != "Freddo"@);
    assert("nausea"@[0] != "freddo"@[0]);
    assert("nausea"@ != "freddo"@);
    assert("nausea"@[0] != "Sonoro"@[0]);
    assert("nausea"@ != "Sonoro"@);
    assert("nausea"@[0] != "sonoro"@[0]);
    assert("nausea"@ != "sonoro"@);
    assert("nausea"@[0] != "Fatica"@[0]);
    assert("nausea"@ != "Fatica"@);
    assert("nausea"@[0] != "Nausea"@[0]);
    assert("nausea"@ != "Nausea"@);
}

proof fn lemma_read_immunity_petrified(s: Seq<char>)
    requires
        immunity_named(Immunity_Type::Immunity_Petrified, s),
    ensures
        spec_single_immunity(s) == Some(Immunity_Type::Immunity_Petrified),
{
    reveal_strlit("Acido");
    reveal_strlit("Affaticamento");
    reveal_strlit("Affaticato");
    reveal_strlit("Assorbimento del Fuoco");
    reveal_strlit("Condizione Affaticato");
    reveal_strlit("Condizione Esausto");
    reveal_strlit("Effetti di Paura");
    reveal_strlit("Effetti di Sonno");
    reveal_strlit("Effetti di paura");
    reveal_strlit("Effetti di sonno");
    reveal_strlit("Elettricità");
    reveal_strlit("Elettricità (parziale)");
    reveal_strlit("Energia Negativa");
    reveal_strlit("Energia Positiva");
    reveal_strlit("Esaurimento");
    reveal_strlit("Esausto");
    reveal_strlit("Fatica");
    reveal_strlit("Freddo");
    reveal_strlit("Freddo (sé stesso e chi lo cavalca)");
    reveal_strlit("Fuoco");
    reveal_strlit("Fuoco Infernale");
    reveal_strlit("Immunità al Freddo");
    reveal_strlit("Infermità");
    reveal_strlit("Infermo");
    reveal_strlit("Nausea");
    reveal_strlit("Nauseato");
    reveal_strlit("Paralisi");
    reveal_strlit("Paura");
    reveal_strlit("Pietrificazione");
    reveal_strlit("Sonno");
    reveal_strlit("Sonoro");
    reveal_strlit("acido");
    reveal_strlit("effetti di Paura");
    reveal_strlit("effetti di Sonno");
    reveal_strlit("effetti di paura");
    reveal_strlit("effetti di sonno");
    reveal_strlit("elettricità");
    reveal_strlit("energia negativa");
    reveal_strlit("freddo");
    reveal_strlit("fuoco");
    reveal_strlit("nausea");
    reveal_strlit("paralisi");
    reveal_strlit("paura");
    reveal_strlit("pietrificazione");
    reveal_strlit("sonno");
    reveal_strlit("sonoro");
    assert("Acido"@.len() == 5);
    assert("Affaticamento"@.len() == 13);
    assert("Affaticato"@.len() == 10);
    assert("Assorbimento del Fuoco"@.len() == 22);
    assert("Condizione Affaticato"@.len() == 21);
    assert("Condizione Esausto"@.len() == 18);
    assert("Effetti di Paura"@.len() == 16);
    assert("Effetti di Sonno"@.len() == 16);
    assert("Effetti di paura"@.len() == 16);
    assert("Effetti di sonno"@.len() == 16);
    assert("Elettricità"@.len() == 11);
    assert("Elettricità (parziale)"@.len() == 22);
    assert("Energia Negativa"@.len() == 16);
    assert("Energia Positiva"@.len() == 16);
    assert("Esaurimento"@.len() == 11);
    assert("Esausto"@.len() == 7);
    assert("Fatica"@.len() == 6);
    assert("Freddo"@.len() == 6);
    assert("Freddo (sé stesso e chi lo cavalca)"@.len() == 35);
    assert("Fuoco"@.len() == 5);
    assert("Fuoco Infernale"@.len() == 15);
    assert("Immunità al Freddo"@.len() == 18);
    assert("Infermità"@.len() == 9);
    assert("Infermo"@.len() == 7);
    assert("Nausea"@.len() == 6);
    assert("Nauseato"@.len() == 8);
    assert("Paralisi"@.len() == 8);
    assert("Paura"@.len() == 5);
    assert("Pietrificazione"@.len() == 15);
    assert("Sonno"@.len() == 5);
    assert("Sonoro"@.len() == 6);
    assert("acido"@.len() == 5);
    assert("effetti di Paura"@.len() == 16);
    assert("effetti di Sonno"@.len() == 16);
    assert("effetti di paura"@.len() == 16);
    assert("effetti di sonno"@.len() == 16);
    assert("elettricità"@.len() == 11);
    assert("energia negativa"@.len() == 16);
    assert("freddo"@.len() == 6);
    assert("fuoco"@.len() == 5);
    assert("nausea"@.len() == 6);
    assert("paralisi"@.len() == 8);
    assert("paura"@.len() == 5);
    assert("pietrificazione"@.len() == 15);
    assert("sonno"@.len() == 5);
    assert("sonoro"@.len() == 6);
    assert("Pietrificazione"@[0] != "Fuoco Infernale"@[0]);
    assert("Pietrificazione"@ != "Fuoco Infernale"@);
    assert("pietrificazione"@[0] != "Fuoco Infernale"@[0]);
    assert("pietrificazione"@ != "Fuoco Infernale"@);
    assert("pietrificazione"@[0] != "Pietrificazione"@[0]);
    assert("pietrificazione"@ != "Pietrificazione"@);
}

proof fn lemma_read_immunity_blind(s: Seq<char>)
    requires
        immunity_named(Immunity_Type::Immunity_Blind, s),
    ensures
        spec_single_immunity(s) == Some(Immunity_Type::Immunity_Blind),
{
    reveal_strlit("Accecato");
    reveal_strlit("Acido");
    reveal_strlit("Affaticamento");
    reveal_strlit("Affaticato");
    reveal_strlit("Assorbimento del Fuoco");
    reveal_strlit("Cecità");
    reveal_strlit("Condizione Affaticato");
    reveal_strlit("Condizione Esausto");
    reveal_strlit("Effetti di Paura");
    reveal_strlit("Effetti di Sonno");
    reveal_strlit("Effetti di paura");
    reveal_strlit("Effetti di sonno");
    reveal_strlit("Elettricità");
    reveal_strlit("Elettricità (parziale)");
    reveal_strlit("Energia Negativa");
    reveal_strlit("Energia Positiva");
    reveal_strlit("Esaurimento");
    reveal_strlit("Esausto");
    reveal_strlit("Fatica");
    reveal_strlit("Freddo");
    reveal_strlit("Freddo (sé stesso e chi lo cavalca)");
    reveal_strlit("Fuoco");
    reveal_strlit("Fuoco Infernale");
    reveal_strlit("Immunità al Freddo");
    reveal_strlit("Infermità");
    reveal_strlit("Infermo");
    reveal_strlit("Nausea");
    reveal_strlit("Nauseato");
    reveal_strlit("Paralisi");
    reveal_strlit("Paura");
    reveal_strlit("Pietrificazione");
    reveal_strlit("Sonno");
    reveal_strlit("Sonoro");
    reveal_strlit("acido");
    reveal_strlit("effetti di Paura");
    reveal_strlit("effetti di Sonno");
    reveal_strlit("effetti di paura");
    reveal_strlit("effetti di sonno");
    reveal_strlit("elettricità");
    reveal_strlit("energia negativa");
    reveal_strlit("freddo");
    reveal_strlit("fuoco");
    reveal_strlit("nausea");
    reveal_strlit("paralisi");
    reveal_strlit("paura");
    reveal_strlit("pietrificazione");
    reveal_strlit("sonno");
    reveal_strlit("sonoro");
    assert("Accecato"@.len() == 8);
    assert("Acido"@.len() == 5);
    assert("Affaticamento"@.len() == 13);
    assert("Affaticato"@.len() == 10);
    assert("Assorbimento del Fuoco"@.len() == 22);
    assert("Cecità"@.len() == 6);
    assert("Condizione Affaticato"@.len() == 21);
    assert("Condizione Esausto"@.len() == 18);
    assert("Effetti di Paura"@.len() == 16);
    assert("Effetti di Sonno"@.len() == 16);
    assert("Effetti di paura"@.len() == 16);
    assert("Effetti di sonno"@.len() == 16);
    assert("Elettricità"@.len() == 11);
    assert("Elettricità (parziale)"@.len() == 22);
    assert("Energia Negativa"@.len() == 16);
    assert("Energia Positiva"@.len() == 16);
    assert("Esaurimento"@.len() == 11);
    assert("Esausto"@.len() == 7);
    assert("Fatica"@.len() == 6);
    assert("Freddo"@.len() == 6);
    assert("Freddo (sé stesso e chi lo cavalca)"@.len() == 35);
    assert("Fuoco"@.len() == 5);
    assert("Fuoco Infernale"@.len() == 15);
    assert("Immunità al Freddo"@.len() == 18);
    assert("Infermità"@.len() == 9);
    assert("Infermo"@.len() == 7);
    assert("Nausea"@.len() == 6);
    assert("Nauseato"@.len() == 8);
    assert("Paralisi"@.len() == 8);
    assert("Paura"@.len() == 5);
    assert("Pietrificazione"@.len() == 15);
    assert("Sonno"@.len() == 5);
    assert("Sonoro"@.len() == 6);
    assert("acido"@.len() == 5);
    assert("effetti di Paura"@.len() == 16);
    assert("effetti di Sonno"@.len() == 16);
    assert("effetti di paura"@.len() == 16);
    assert("effetti di sonno"@.len() == 16);
    assert("elettricità"@.len() == 11);
    assert("energia negativa"@.len() == 16);
    assert("freddo"@.len() == 6);
    assert("fuoco"@.len() == 5);
    assert("nausea"@.len() == 6);
    assert("paralisi"@.len() == 8);
    assert("paura"@.len() == 5);
    assert("pietrificazione"@.len() == 15);
    assert("sonno"@.len() == 5);
    assert("sonoro"@.len() == 6);
    assert("Cecità"@[0] != "Freddo"@[0]);
    assert("Cecità"@ != "Freddo"@);
    assert("Cecità"@[0] != "freddo"@[0]);
    assert("Cecità"@ != "freddo"@);
    assert("Cecità"@[0] != "Sonoro"@[0]);
    assert("Cecità"@ != "Sonoro"@);
    assert("Cecità"@[0] != "sonoro"@[0]);
    assert("Cecità"@ != "sonoro"@);
    assert("Cecità"@[0] != "Fatica"@[0]);
    assert("Cecità"@ != "Fatica"@);
    assert("Cecità"@[0] != "Nausea"@[0]);
    assert("Cecità"@ != "Nausea"@);
    assert("Cecità"@[0] != "nausea"@[0]);
    assert("Cecità"@ != "nausea"@);
    assert("Accecato"@[0] != "Paralisi"@[0]);
    assert("Accecato"@ != "Paralisi"@);
    assert("Accecato"@[0] != "paralisi"@[0]);
    assert("Accecato"@ != "paralisi"@);
    assert("Accecato"@[0] != "Nauseato"@[0]);
    assert("Accecato"@ != "Nauseato"@);
}

proof fn lemma_read_immunity_stun(s: Seq<char>)
    requires
        immunity_named(Immunity_Type::Immunity_Stun, s),
    ensures
        spec_single_immunity(s) == Some(Immunity_Type::Immunity_Stun),
{
    reveal_strlit("Accecato");
    reveal_strlit("Acido");
    reveal_strlit("Affaticamento");
    reveal_strlit("Affaticato");
    reveal_strlit("Assorbimento del Fuoco");
    reveal_strlit("Cecità");
    reveal_strlit("Condizione Affaticato");
    reveal_strlit("Condizione Esausto");
    reveal_strlit("Effetti di Paura");
    reveal_strlit("Effetti di Sonno");
    reveal_strlit("Effetti di paura");
    reveal_strlit("Effetti di sonno");
    reveal_strlit("Elettricità");
    reveal_strlit("Elettricità (parziale)");
    reveal_strlit("Energia Negativa");
    reveal_strlit("Energia Positiva");
    reveal_strlit("Esaurimento");
    reveal_strlit("Esausto");
    reveal_strlit("Fatica");
    reveal_strlit("Freddo");
    reveal_strlit("Freddo (sé stesso e chi lo cavalca)");
    reveal_strlit("Fuoco");
    reveal_strlit("Fuoco Infernale");
    reveal_strlit("Immunità al Freddo");
    reveal_strlit("Infermità");
    reveal_strlit("Infermo");
    reveal_strlit("Nausea");
    reveal_strlit("Nauseato");
    reveal_strlit("Paralisi");
    reveal_strlit("Paura");
    reveal_strlit("Pietrificazione");
    reveal_strlit("Sonno");
    reveal_strlit("Sonoro");
    reveal_strlit("Stordimento");
    reveal_strlit("acido");
    reveal_strlit("effetti di Paura");
    reveal_strlit("effetti di Sonno");
    reveal_strlit("effetti di paura");
    reveal_strlit("effetti di sonno");
    reveal_strlit("elettricità");
    reveal_strlit("energia negativa");
    reveal_strlit("freddo");
    reveal_strlit("fuoco");
    reveal_strlit("nausea");
    reveal_strlit("paralisi");
    reveal_strlit("paura");
    reveal_strlit("pietrificazione");
    reveal_strlit("sonno");
    reveal_strlit("sonoro");
    reveal_strlit("stordimento");
    assert("Accecato"@.len() == 8);
    assert("Acido"@.len() == 5);
    assert("Affaticamento"@.len() == 13);
    assert("Affaticato"@.len() == 10);
    assert("Assorbimento del Fuoco"@.len() == 22);
    assert("Cecità"@.len() == 6);
    assert("Condizione Affaticato"@.len() == 21);
    assert("Condizione Esausto"@.len() == 18);
    assert("Effetti di Paura"@.len() == 16);
    assert("Effetti di Sonno"@.len() == 16);
    assert("Effetti di paura"@.len() == 16);
    assert("Effetti di sonno"@.len() == 16);
    assert("Elettricità"@.len() == 11);
    assert("Elettricità (parziale)"@.len() == 22);
    assert("Energia Negativa"@.len() == 16);
    assert("Energia Positiva"@.len() == 16);
    assert("Esaurimento"@.len() == 11);
    assert("Esausto"@.len() == 7);
    assert("Fatica"@.len() == 6);
    assert("Freddo"@.len() == 6);
    assert("Freddo (sé stesso e chi lo cavalca)"@.len() == 35);
    assert("Fuoco"@.len() == 5);
    assert("Fuoco Infernale"@.len() == 15);
    assert("Immunità al Freddo"@.len() == 18);
    assert("Infermità"@.len() == 9);
    assert("Infermo"@.len() == 7);
    assert("Nausea"@.len() == 6);
    assert("Nauseato"@.len() == 8);
    assert("Paralisi"@.len() == 8);
    assert("Paura"@.len() == 5);
    assert("Pietrificazione"@.len() == 15);
    assert("Sonno"@.len() == 5);
    assert("Sonoro"@.len() == 6);
    assert("Stordimento"@.len() == 11);
    assert("acido"@.len() == 5);
    assert("effetti di Paura"@.len() == 16);
    assert("effetti di Sonno"@.len() == 16);
    assert("effetti di paura"@.len() == 16);
    assert("effetti di sonno"@.len() == 16);
    assert("elettricità"@.len() == 11);
    assert("energia negativa"@.len() == 16);
    assert("freddo"@.len() == 6);
    assert("fuoco"@.len() == 5);
    assert("nausea"@.len() == 6);
    assert("paralisi"@.len() == 8);
    assert("paura"@.len() == 5);
    assert("pietrificazione"@.len() == 15);
    assert("sonno"@.len() == 5);
    assert("sonoro"@.len() == 6);
    assert("stordimento"@.len() == 11);
    assert("Stordimento"@[0] != "Elettricità"@[0]);
    assert("Stordimento"@ != "Elettricità"@);
    assert("Stordimento"@[0] != "elettricità"@[0]);
    assert("Stordimento"@ != "elettricità"@);
    assert("Stordimento"@[0] != "Esaurimento"@[0]);
    assert("Stordimento"@ != "Esaurimento"@);
    assert("stordimento"@[0] != "Elettricità"@[0]);
    assert("stordimento"@ != "Elettricità"@);
    assert("stordimento"@[0] != "elettricità"@[0]);
    assert("stordimento"@ != "elettricità"@);
    assert("stordimento"@[0] != "Esaurimento"@[0]);
    assert("stordimento"@ != "Esaurimento"@);
    assert("stordimento"@[0] != "Stordimento"@[0]);
    assert("stordimento"@ != "Stordimento"@);
}

proof fn lemma_read_immunity_confusion(s: Seq<char>)
    requires
        immunity_named(Immunity_Type::Immunity_Confusion, s),
    ensures
        spec_single_immunity(s) == Some(Immunity_Type::Immunity_Confusion),
{
    reveal_strlit("Accecato");
    reveal_strlit("Acido");
    reveal_strlit("Affaticamento");
    reveal_strlit("Affaticato");
    reveal_strlit("Assorbimento del Fuoco");
    reveal_strlit("Cecità");
    reveal_strlit("Condizione Affaticato");
    reveal_strlit("Condizione Esausto");
    reveal_strlit("Confusione");
    reveal_strlit("Effetti di Paura");
    reveal_strlit("Effetti di Sonno");
    reveal_strlit("Effetti di paura");
    reveal_strlit("Effetti di sonno");
    reveal_strlit("Elettricità");
    reveal_strlit("Elettricità (parziale)");
    reveal_strlit("Energia Negativa");
    reveal_strlit("Energia Positiva");
    reveal_strlit("Esaurimento");
    reveal_strlit("Esausto");
    reveal_strlit("Fatica");
    reveal_strlit("Freddo");
    reveal_strlit("Freddo (sé stesso e chi lo cavalca)");
    reveal_strlit("Fuoco");
    reveal_strlit("Fuoco Infernale");
    reveal_strlit("Immunità al Freddo");
    reveal_strlit("Infermità");
    reveal_strlit("Infermo");
    reveal_strlit("Nausea");
    reveal_strlit("Nauseato");
    reveal_strlit("Paralisi");
    reveal_strlit("Paura");
    reveal_strlit("Pietrificazione");
    reveal_strlit("Sonno");
    reveal_strlit("Sonoro");
    reveal_strlit("Stordimento");
    reveal_strlit("acido");
    reveal_strlit("effetti di Paura");
    reveal_strlit("effetti di Sonno");
    reveal_strlit("effetti di paura");
    reveal_strlit("effetti di sonno");
    reveal_strlit("elettricità");
    reveal_strlit("energia negativa");
    reveal_strlit("freddo");
    reveal_strlit("fuoco");
    reveal_strlit("nausea");
    reveal_strlit("paralisi");
    reveal_strlit("paura");
    reveal_strlit("pietrificazione");
    reveal_strlit("sonno");
    reveal_strlit("sonoro");
    reveal_strlit("stordimento");
    assert("Accecato"@.len() == 8);
    assert("Acido"@.len() == 5);
    assert("Affaticamento"@.len() == 13);
    assert("Affaticato"@.len() == 10);
    assert("Assorbimento del Fuoco"@.len() == 22);
    assert("Cecità"@.len() == 6);
    assert("Condizione Affaticato"@.len() == 21);
    assert("Condizione Esausto"@.len() == 18);
    assert("Confusione"@.len() == 10);
    assert("Effetti di Paura"@.len() == 16);
    assert("Effetti di Sonno"@.len() == 16);
    assert("Effetti di paura"@.len() == 16);
    assert("Effetti di sonno"@.len() == 16);
    assert("Elettricità"@.len() == 11);
    assert("Elettricità (parziale)"@.len() == 22);
    assert("Energia Negativa"@.len() == 16);
    assert("Energia Positiva"@.len() == 16);
    assert("Esaurimento"@.len() == 11);
    assert("Esausto"@.len() == 7);
    assert("Fatica"@.len() == 6);
    assert("Freddo"@.len() == 6);
    assert("Freddo (sé stesso e chi lo cavalca)"@.len() == 35);
    assert("Fuoco"@.len() == 5);
    assert("Fuoco Infernale"@.len() == 15);
    assert("Immunità al Freddo"@.len() == 18);
    assert("Infermità"@.len() == 9);
    assert("Infermo"@.len() == 7);
    assert("Nausea"@.len() == 6);
    assert("Nauseato"@.len() == 8);
    assert("Paralisi"@.len() == 8);
    assert("Paura"@.len() == 5);
    assert("Pietrificazione"@.len() == 15);
    assert("Sonno"@.len() == 5);
    assert("Sonoro"@.len() == 6);
    assert("Stordimento"@.len() == 11);
    assert("acido"@.len() == 5);
    assert("effetti di Paura"@.len() == 16);
    assert("effetti di Sonno"@.len() == 16);
    assert("effetti di paura"@.len() == 16);
    assert("effetti di sonno"@.len() == 16);
    assert("elettricità"@.len() == 11);
    assert("energia negativa"@.len() == 16);
    assert("freddo"@.len() == 6);
    assert("fuoco"@.len() == 5);
    assert("nausea"@.len() == 6);
    assert("paralisi"@.len() == 8);
    assert("paura"@.len() == 5);
    assert("pietrificazione"@.len() == 15);
    assert("sonno"@.len() == 5);
    assert("sonoro"@.len() == 6);
    assert("stordimento"@.len() == 11);
    assert("Confusione"@[0] != "Affaticato"@[0]);
    assert("Confusione"@ != "Affaticato"@);
}

proof fn lemma_read_immunity_dazed(s: Seq<char>)
    requires
        immunity_named(Immunity_Type::Immunity_Dazed, s),
    ensures
        spec_single_immunity(s) == Some(Immunity_Type::Immunity_Dazed),
{
    reveal_strlit("Accecato");
    reveal_strlit("Acido");
    reveal_strlit("Affaticamento");
    reveal_strlit("Affaticato");
    reveal_strlit("Assorbimento del Fuoco");
    reveal_strlit("Cecità");
    reveal_strlit("Condizione Affaticato");
    reveal_strlit("Condizione Esausto");
    reveal_strlit("Confusione");
    reveal_strlit("Effetti di Paura");
    reveal_strlit("Effetti di Sonno");
    reveal_strlit("Effetti di paura");
    reveal_strlit("Effetti di sonno");
    reveal_strlit("Elettricità");
    reveal_strlit("Elettricità (parziale)");
    reveal_strlit("Energia Negativa");
    reveal_strlit("Energia Positiva");
    reveal_strlit("Esaurimento");
    reveal_strlit("Esausto");
    reveal_strlit("Fatica");
    reveal_strlit("Frastornamento");
    reveal_strlit("Frastornato");
    reveal_strlit("Freddo");
    reveal_strlit("Freddo (sé stesso e chi lo cavalca)");
    reveal_strlit("Fuoco");
    reveal_strlit("Fuoco Infernale");
    reveal_strlit("Immunità al Freddo");
    reveal_strlit("Infermità");
    reveal_strlit("Infermo");
    reveal_strlit("Nausea");
    reveal_strlit("Nauseato");
    reveal_strlit("Paralisi");
    reveal_strlit("Paura");
    reveal_strlit("Pietrificazione");
    reveal_strlit("Sonno");
    reveal_strlit("Sonoro");
    reveal_strlit("Stordimento");
    reveal_strlit("acido");
    reveal_strlit("effetti di Paura");
    reveal_strlit("effetti di Sonno");
    reveal_strlit("effetti di paura");
    reveal_strlit("effetti di sonno");
    reveal_strlit("elettricità");
    reveal_strlit("energia negativa");
    reveal_strlit("freddo");
    reveal_strlit("fuoco");
    reveal_strlit("nausea");
    reveal_strlit("paralisi");
    reveal_strlit("paura");
    reveal_strlit("pietrificazione");
    reveal_strlit("sonno");
    reveal_strlit("sonoro");
    reveal_strlit("stordimento");
    assert("Accecato"@.len() == 8);
    assert("Acido"@.len() == 5);
    assert("Affaticamento"@.len() == 13);
    assert("Affaticato"@.len() == 10);
    assert("Assorbimento del Fuoco"@.len() == 22);
    assert("Cecità"@.len() == 6);
    assert("Condizione Affaticato"@.len() == 21);
    assert("Condizione Esausto"@.len() == 18);
    assert("Confusione"@.len() == 10);
    assert("Effetti di Paura"@.len() == 16);
    assert("Effetti di Sonno"@.len() == 16);
    assert("Effetti di paura"@.len() == 16);
    assert("Effetti di sonno"@.len() == 16);
    assert("Elettricità"@.len() == 11);
    assert("Elettricità (parziale)"@.len() == 22);
    assert("Energia Negativa"@.len() == 16);
    assert("Energia Positiva"@.len() == 16);
    assert("Esaurimento"@.len() == 11);
    assert("Esausto"@.len() == 7);
    assert("Fatica"@.len() == 6);
    assert("Frastornamento"@.len() == 14);
    assert("Frastornato"@.len() == 11);
    assert("Freddo"@.len() == 6);
    assert("Freddo (sé stesso e chi lo cavalca)"@.len() == 35);
    assert("Fuoco"@.len() == 5);
    assert("Fuoco Infernale"@.len() == 15);
    assert("Immunità al Freddo"@.len() == 18);
    assert("Infermità"@.len() == 9);
    assert("Infermo"@.len() == 7);
    assert("Nausea"@.len() == 6);
    assert("Nauseato"@.len() == 8);
    assert("Paralisi"@.len() == 8);
    assert("Paura"@.len() == 5);
    assert("Pietrificazione"@.len() == 15);
    assert("Sonno"@.len() == 5);
    assert("Sonoro"@.len() == 6);
    assert("Stordimento"@.len() == 11);
    assert("acido"@.len() == 5);
    assert("effetti di Paura"@.len() == 16);
    assert("effetti di Sonno"@.len() == 16);
    assert("effetti di paura"@.len() == 16);
    assert("effetti di sonno"@.len() == 16);
    assert("elettricità"@.len() == 11);
    assert("energia negativa"@.len() == 16);
    assert("freddo"@.len() == 6);
    assert("fuoco"@.len() == 5);
    assert("nausea"@.len() == 6);
    assert("paralisi"@.len() == 8);
    assert("paura"@.len() == 5);
    assert("pietrificazione"@.len() == 15);
    assert("sonno"@.len() == 5);
    assert("sonoro"@.len() == 6);
    assert("stordimento"@.len() == 11);
    assert("Frastornato"@[0] != "Elettricità"@[0]);
    assert("Frastornato"@ != "Elettricità"@);
    assert("Frastornato"@[0] != "elettricità"@[0]);
    assert("Frastornato"@ != "elettricità"@);
    assert("Frastornato"@[0] != "Esaurimento"@[0]);
    assert("Frastornato"@ != "Esaurimento"@);
    assert("Frastornato"@[0] != "Stordimento"@[0]);
    assert("Frastornato"@ != "Stordimento"@);
    assert("Frastornato"@[0] != "stordimento"@[0]);
    assert("Frastornato"@ != "stordimento"@);
}

proof fn lemma_read_immunity_staggered(s: Seq<char>)
    requires
        immunity_named(Immunity_Type::Immunity_Staggered, s),
    ensures
        spec_single_immunity(s) == Some(Immunity_Type::Immunity_Staggered),
{
    reveal_strlit("Accecato");
    reveal_strlit("Acido");
    reveal_strlit("Affaticamento");
    reveal_strlit("Affaticato");
    reveal_strlit("Assorbimento del Fuoco");
    reveal_strlit("Barcollante");
    reveal_strlit("Barcollare");
    reveal_strlit("Cecità");
    reveal_strlit("Condizione Affaticato");
    reveal_strlit("Condizione Esausto");
    reveal_strlit("Confusione");
    reveal_strlit("Effetti di Paura");
    reveal_strlit("Effetti di Sonno");
    reveal_strlit("Effetti di paura");
    reveal_strlit("Effetti di sonno");
    reveal_strlit("Elettricità");
    reveal_strlit("Elettricità (parziale)");
    reveal_strlit("Energia Negativa");
    reveal_strlit("Energia Positiva");
    reveal_strlit("Esaurimento");
    reveal_strlit("Esausto");
    reveal_strlit("Fatica");
    reveal_strlit("Frastornamento");
    reveal_strlit("Frastornato");
    reveal_strlit("Freddo");
    reveal_strlit("Freddo (sé stesso e chi lo cavalca)");
    reveal_strlit("Fuoco");
    reveal_strlit("Fuoco Infernale");
    reveal_strlit("Immunità al Freddo");
    reveal_strlit("Infermità");
    reveal_strlit("Infermo");
    reveal_strlit("Nausea");
    reveal_strlit("Nauseato");
    reveal_strlit("Paralisi");
    reveal_strlit("Paura");
    reveal_strlit("Pietrificazione");
    reveal_strlit("Sonno");
    reveal_strlit("Sonoro");
    reveal_strlit("Stordimento");
    reveal_strlit("acido");
    reveal_strlit("effetti Barcollanti");
    reveal_strlit("effetti di Paura");
    reveal_strlit("effetti di Sonno");
    reveal_strlit("effetti di paura");
    reveal_strlit("effetti di sonno");
    reveal_strlit("elettricità");
    reveal_strlit("energia negativa");
    reveal_strlit("freddo");
    reveal_strlit("fuoco");
    reveal_strlit("nausea");
    reveal_strlit("paralisi");
    reveal_strlit("paura");
    reveal_strlit("pietrificazione");
    reveal_strlit("sonno");
    reveal_strlit("sonoro");
    reveal_strlit("stordimento");
    assert("Accecato"@.len() == 8);
    assert("Acido"@.len() == 5);
    assert("Affaticamento"@.len() == 13);
    assert("Affaticato"@.len() == 10);
    assert("Assorbimento del Fuoco"@.len() == 22);
    assert("Barcollante"@.len() == 11);
    assert("Barcollare"@.len() == 10);
    assert("Cecità"@.len() == 6);
    assert("Condizione Affaticato"@.len() == 21);
    assert("Condizione Esausto"@.len() == 18);
    assert("Confusione"@.len() == 10);
    assert("Effetti di Paura"@.len() == 16);
    assert("Effetti di Sonno"@.len() == 16);
    assert("Effetti di paura"@.len() == 16);
    assert("Effetti di sonno"@.len() == 16);
    assert("Elettricità"@.len() == 11);
    assert("Elettricità (parziale)"@.len() == 22);
    assert("Energia Negativa"@.len() == 16);
    assert("Energia Positiva"@.len() == 16);
    assert("Esaurimento"@.len() == 11);
    assert("Esausto"@.len() == 7);
    assert("Fatica"@.len() == 6);
    assert("Frastornamento"@.len() == 14);
    assert("Frastornato"@.len() == 11);
    assert("Freddo"@.len() == 6);
    assert("Freddo (sé stesso e chi lo cavalca)"@.len() == 35);
    assert("Fuoco"@.len() == 5);
    assert("Fuoco Infernale"@.len() == 15);
    assert("Immunità al Freddo"@.len() == 18);
    assert("Infermità"@.len() == 9);
    assert("Infermo"@.len() == 7);
    assert("Nausea"@.len() == 6);
    assert("Nauseato"@.len() == 8);
    assert("Paralisi"@.len() == 8);
    assert("Paura"@.len() == 5);
    assert("Pietrificazione"@.len() == 15);
    assert("Sonno"@.len() == 5);
    assert("Sonoro"@.len() == 6);
    assert("Stordimento"@.len() == 11);
    assert("acido"@.len() == 5);
    assert("effetti Barcollanti"@.len() == 19);
    assert("effetti di Paura"@.len() == 16);
    assert("effetti di Sonno"@.len() == 16);
    assert("effetti di paura"@.len() == 16);
    assert("effetti di sonno"@.len() == 16);
    assert("elettricità"@.len() == 11);
    assert("energia negativa"@.len() == 16);
    assert("freddo"@.len() == 6);
    assert("fuoco"@.len() == 5);
    assert("nausea"@.len() == 6);
    assert("paralisi"@.len() == 8);
    assert("paura"@.len() == 5);
    assert("pietrificazione"@.len() == 15);
    assert("sonno"@.len() == 5);
    assert("sonoro"@.len() == 6);
    assert("stordimento"@.len() == 11);
    assert("Barcollante"@[0] != "Elettricità"@[0]);
    assert("Barcollante"@ != "Elettricità"@);
    assert("Barcollante"@[0] != "elettricità"@[0]);
    assert("Barcollante"@ != "elettricità"@);
    assert("Barcollante"@[0] != "Esaurimento"@[0]);
    assert("Barcollante"@ != "Esaurimento"@);
    assert("Barcollante"@[0] != "Stordimento"@[0]);
    assert("Barcollante"@ != "Stordimento"@);
    assert("Barcollante"@[0] != "stordimento"@[0]);
    assert("Barcollante"@ != "stordimento"@);
    assert("Barcollante"@[0] != "Frastornato"@[0]);
    assert("Barcollante"@ != "Frastornato"@);
    assert("Barcollare"@[0] != "Affaticato"@[0]);
    assert("Barcollare"@ != "Affaticato"@);
    assert("Barcollare"@[0] != "Confusione"@[0]);
    assert("Barcollare"@ != "Confusione"@);
}

proof fn lemma_read_immunity_dazzled(s: Seq<char>)
    requires
        immunity_named(Immunity_Type::Immunity_Dazzled, s),
    ensures
        spec_single_immunity(s) == Some(Immunity_Type::Immunity_Dazzled),
{
    reveal_strlit("Abbagliamenti");
    reveal_strlit("Abbagliamento");
    reveal_strlit("Abbagliato");
    reveal_strlit("Accecato");
    reveal_strlit("Acido");
    reveal_strlit("Affaticamento");
    reveal_strlit("Affaticato");
    reveal_strlit("Assorbimento del Fuoco");
    reveal_strlit("Barcollante");
    reveal_strlit("Barcollare");
    reveal_strlit("Cecità");
    reveal_strlit("Condizione Affaticato");
    reveal_strlit("Condizione Esausto");
    reveal_strlit("Confusione");
    reveal_strlit("Effetti di Paura");
    reveal_strlit("Effetti di Sonno");
    reveal_strlit("Effetti di paura");
    reveal_strlit("Effetti di sonno");
    reveal_strlit("Elettricità");
    reveal_strlit("Elettricità (parziale)");
    reveal_strlit("Energia Negativa");
    reveal_strlit("Energia Positiva");
    reveal_strlit("Esaurimento");
    reveal_strlit("Esausto");
    reveal_strlit("Fatica");
    reveal_strlit("Frastornamento");
    reveal_strlit("Frastornato");
    reveal_strlit("Freddo");
    reveal_strlit("Freddo (sé stesso e chi lo cavalca)");
    reveal_strlit("Fuoco");
    reveal_strlit("Fuoco Infernale");
    reveal_strlit("Immunità al Freddo");
    reveal_strlit("Infermità");
    reveal_strlit("Infermo");
    reveal_strlit("Nausea");
    reveal_strlit("Nauseato");
    reveal_strlit("Paralisi");
    reveal_strlit("Paura");
    reveal_strlit("Pietrificazione");
    reveal_strlit("Sonno");
    reveal_strlit("Sonoro");
    reveal_strlit("Stordimento");
    reveal_strlit("acido");
    reveal_strlit("effetti Barcollanti");
    reveal_strlit("effetti di Paura");
    reveal_strlit("effetti di Sonno");
    reveal_strlit("effetti di paura");
    reveal_strlit("effetti di sonno");
    reveal_strlit("elettricità");
    reveal_strlit("energia negativa");
    reveal_strlit("freddo");
    reveal_strlit("fuoco");
    reveal_strlit("nausea");
    reveal_strlit("paralisi");
    reveal_strlit("paura");
    reveal_strlit("pietrificazione");
    reveal_strlit("sonno");
    reveal_strlit("sonoro");
    reveal_strlit("stordimento");
    assert("Abbagliamenti"@.len() == 13);
    assert("Abbagliamento"@.len() == 13);
    assert("Abbagliato"@.len() == 10);
    assert("Accecato"@.len() == 8);
    assert("Acido"@.len() == 5);
    assert("Affaticamento"@.len() == 13);
    assert("Affaticato"@.len() == 10);
    assert("Assorbimento del Fuoco"@.len() == 22);
    assert("Barcollante"@.len() == 11);
    assert("Barcollare"@.len() == 10);
    assert("Cecità"@.len() == 6);
    assert("Condizione Affaticato"@.len() == 21);
    assert("Condizione Esausto"@.len() == 18);
    assert("Confusione"@.len() == 10);
    assert("Effetti di Paura"@.len() == 16);
    assert("Effetti di Sonno"@.len() == 16);
    assert("Effetti di paura"@.len() == 16);
    assert("Effetti di sonno"@.len() == 16);
    assert("Elettricità"@.len() == 11);
    assert("Elettricità (parziale)"@.len() == 22);
    assert("Energia Negativa"@.len() == 16);
    assert("Energia Positiva"@.len() == 16);
    assert("Esaurimento"@.len() == 11);
    assert("Esausto"@.len() == 7);
    assert("Fatica"@.len() == 6);
    assert("Frastornamento"@.len() == 14);
    assert("Frastornato"@.len() == 11);
    assert("Freddo"@.len() == 6);
    assert("Freddo (sé stesso e chi lo cavalca)"@.len() == 35);
    assert("Fuoco"@.len() == 5);
    assert("Fuoco Infernale"@.len() == 15);
    assert("Immunità al Freddo"@.len() == 18);
    assert("Infermità"@.len() == 9);
    assert("Infermo"@.len() == 7);
    assert("Nausea"@.len() == 6);
    assert("Nauseato"@.len() == 8);
    assert("Paralisi"@.len() == 8);
    assert("Paura"@.len() == 5);
    assert("Pietrificazione"@.len() == 15);
    assert("Sonno"@.len() == 5);
    assert("Sonoro"@.len() == 6);
    assert("Stordimento"@.len() == 11);
    assert("acido"@.len() == 5);
    assert("effetti Barcollanti"@.len() == 19);
    assert("effetti di Paura"@.len() == 16);
    assert("effetti di Sonno"@.len() == 16);
    assert("effetti di paura"@.len() == 16);
    assert("effetti di sonno"@.len() == 16);
    assert("elettricità"@.len() == 11);
    assert("energia negativa"@.len() == 16);
    assert("freddo"@.len() == 6);
    assert("fuoco"@.len() == 5);
    assert("nausea"@.len() == 6);
    assert("paralisi"@.len() == 8);
    assert("paura"@.len() == 5);
    assert("pietrificazione"@.len() == 15);
    assert("sonno"@.len() == 5);
    assert("sonoro"@.len() == 6);
    assert("stordimento"@.len() == 11);
    assert("Abbagliato"@[1] != "Affaticato"@[1]);
    assert("Abbagliato"@ != "Affaticato"@);
    assert("Abbagliato"@[0] != "Confusione"@[0]);
    assert("Abbagliato"@ != "Confusione"@);
    assert("Abbagliato"@[0] != "Barcollare"@[0]);
    assert("Abbagliato"@ != "Barcollare"@);
    assert("Abbagliamenti"@[1] != "Affaticamento"@[1]);
    assert("Abbagliamenti"@ != "Affaticamento"@);
    assert("Abbagliamento"@[1] != "Affaticamento"@[1]);
    assert("Abbagliamento"@ != "Affaticamento"@);
    assert("Abbagliamento"@[12] != "Abbagliamenti"@[12]);
    assert("Abbagliamento"@ != "Abbagliamenti"@);
}

proof fn lemma_read_immunity_deaf(s: Seq<char>)
    requires
        immunity_named(Immunity_Type::Immunity_Deaf, s),
    ensures
        spec_single_immunity(s) == Some(Immunity_Type::Immunity_Deaf),
{
    reveal_strlit("Abbagliamenti");
    reveal_strlit("Abbagliamento");
    reveal_strlit("Abbagliato");
    reveal_strlit("Accecato");
    reveal_strlit("Acido");
    reveal_strlit("Affaticamento");
    reveal_strlit("Affaticato");
    reveal_strlit("Assorbimento del Fuoco");
    reveal_strlit("Barcollante");
    reveal_strlit("Barcollare");
    reveal_strlit("Cecità");
    reveal_strlit("Condizione Affaticato");
    reveal_strlit("Condizione Esausto");
    reveal_strlit("Confusione");
    reveal_strlit("Effetti di Paura");
    reveal_strlit("Effetti di Sonno");
    reveal_strlit("Effetti di paura");
    reveal_strlit("Effetti di sonno");
    reveal_strlit("Elettricità");
    reveal_strlit("Elettricità (parziale)");
    reveal_strlit("Energia Negativa");
    reveal_strlit("Energia Positiva");
    reveal_strlit("Esaurimento");
    reveal_strlit("Esausto");
    reveal_strlit("Fatica");
    reveal_strlit("Frastornamento");
    reveal_strlit("Frastornato");
    reveal_strlit("Freddo");
    reveal_strlit("Freddo (sé stesso e chi lo cavalca)");
    reveal_strlit("Fuoco");
    reveal_strlit("Fuoco Infernale");
    reveal_strlit("Immunità al Freddo");
    reveal_strlit("Infermità");
    reveal_strlit("Infermo");
    reveal_strlit("Nausea");
    reveal_strlit("Nauseato");
    reveal_strlit("Paralisi");
    reveal_strlit("Paura");
    reveal_strlit("Pietrificazione");
    reveal_strlit("Sonno");
    reveal_strlit("Sonoro");
    reveal_strlit("Sordità");
    reveal_strlit("Stordimento");
    reveal_strlit("acido");
    reveal_strlit("effetti Barcollanti");
    reveal_strlit("effetti di Paura");
    reveal_strlit("effetti di Sonno");
    reveal_strlit("effetti di paura");
    reveal_strlit("effetti di sonno");
    reveal_strlit("elettricità");
    reveal_strlit("energia negativa");
    reveal_strlit("freddo");
    reveal_strlit("fuoco");
    reveal_strlit("nausea");
    reveal_strlit("paralisi");
    reveal_strlit("paura");
    reveal_strlit("pietrificazione");
    reveal_strlit("sonno");
    reveal_strlit("sonoro");
    reveal_strlit("sordità");
    reveal_strlit("stordimento");
    assert("Abbagliamenti"@.len() == 13);
    assert("Abbagliamento"@.len() == 13);
    assert("Abbagliato"@.len() == 10);
    assert("Accecato"@.len() == 8);
    assert("Acido"@.len() == 5);
    assert("Affaticamento"@.len() == 13);
    assert("Affaticato"@.len() == 10);
    assert("Assorbimento del Fuoco"@.len() == 22);
    assert("Barcollante"@.len() == 11);
    assert("Barcollare"@.len() == 10);
    assert("Cecità"@.len() == 6);
    assert("Condizione Affaticato"@.len() == 21);
    assert("Condizione Esausto"@.len() == 18);
    assert("Confusione"@.len() == 10);
    assert("Effetti di Paura"@.len() == 16);
    assert("Effetti di Sonno"@.len() == 16);
    assert("Effetti di paura"@.len() == 16);
    assert("Effetti di sonno"@.len() == 16);
    assert("Elettricità"@.len() == 11);
    assert("Elettricità (parziale)"@.len() == 22);
    assert("Energia Negativa"@.len() == 16);
    assert("Energia Positiva"@.len() == 16);
    assert("Esaurimento"@.len() == 11);
    assert("Esausto"@.len() == 7);
    assert("Fatica"@.len() == 6);
    assert("Frastornamento"@.len() == 14);
    assert("Frastornato"@.len() == 11);
    assert("Freddo"@.len() == 6);
    assert("Freddo (sé stesso e chi lo cavalca)"@.len() == 35);
    assert("Fuoco"@.len() == 5);
    assert("Fuoco Infernale"@.len() == 15);
    assert("Immunità al Freddo"@.len() == 18);
    assert("Infermità"@.len() == 9);
    assert("Infermo"@.len() == 7);
    assert("Nausea"@.len() == 6);
    assert("Nauseato"@.len() == 8);
    assert("Paralisi"@.len() == 8);
    assert("Paura"@.len() == 5);
    assert("Pietrificazione"@.len() == 15);
    assert("Sonno"@.len() == 5);
    assert("Sonoro"@.len() == 6);
    assert("Sordità"@.len() == 7);
    assert("Stordimento"@.len() == 11);
    assert("acido"@.len() == 5);
    assert("effetti Barcollanti"@.len() == 19);
    assert("effetti di Paura"@.len() == 16);
    assert("effetti di Sonno"@.len() == 16);
    assert("effetti di paura"@.len() == 16);
    assert("effetti di sonno"@.len() == 16);
    assert("elettricità"@.len() == 11);
    assert("energia negativa"@.len() == 16);
    assert("freddo"@.len() == 6);
    assert("fuoco"@.len() == 5);
    assert("nausea"@.len() == 6);
    assert("paralisi"@.len() == 8);
    assert("paura"@.len() == 5);
    assert("pietrificazione"@.len() == 15);
    assert("sonno"@.len() == 5);
    assert("sonoro"@.len() == 6);
    assert("sordità"@.len() == 7);
    assert("stordimento"@.len() == 11);
    assert("Sordità"@[0] != "Esausto"@[0]);
    assert("Sordità"@ != "Esausto"@);
    assert("Sordità"@[0] != "Infermo"@[0]);
    assert("Sordità"@ != "Infermo"@);
    assert("sordità"@[0] != "Esausto"@[0]);
    assert("sordità"@ != "Esausto"@);
    assert("sordità"@[0] != "Infermo"@[0]);
    assert("sordità"@ != "Infermo"@);
    assert("sordità"@[0] != "Sordità"@[0]);
    assert("sordità"@ != "Sordità"@);
}

proof fn lemma_read_immunity_shaken(s: Seq<char>)
    requires
        immunity_named(Immunity_Type::Immunity_Shaken, s),
    ensures
        spec_single_immunity(s) == Some(Immunity_Type::Immunity_Shaken),
{
    reveal_strlit("Abbagliamenti");
    reveal_strlit("Abbagliamento");
    reveal_strlit("Abbagliato");
    reveal_strlit("Accecato");
    reveal_strlit("Acido");
    reveal_strlit("Affaticamento");
    reveal_strlit("Affaticato");
    reveal_strlit("Assorbimento del Fuoco");
    reveal_strlit("Barcollante");
    reveal_strlit("Barcollare");
    reveal_strlit("Cecità");
    reveal_strlit("Condizione Affaticato");
    reveal_strlit("Condizione Esausto");
    reveal_strlit("Confusione");
    reveal_strlit("Effetti di Paura");
    reveal_strlit("Effetti di Sonno");
    reveal_strlit("Effetti di paura");
    reveal_strlit("Effetti di sonno");
    reveal_strlit("Elettricità");
    reveal_strlit("Elettricità (parziale)");
    reveal_strlit("Energia Negativa");
    reveal_strlit("Energia Positiva");
    reveal_strlit("Esaurimento");
    reveal_strlit("Esausto");
    reveal_strlit("Fatica");
    reveal_strlit("Frastornamento");
    reveal_strlit("Frastornato");
    reveal_strlit("Freddo");
    reveal_strlit("Freddo (sé stesso e chi lo cavalca)");
    reveal_strlit("Fuoco");
    reveal_strlit("Fuoco Infernale");
    reveal_strlit("Immunità al Freddo");
    reveal_strlit("Infermità");
    reveal_strlit("Infermo");
    reveal_strlit("Nausea");
    reveal_strlit("Nauseato");
    reveal_strlit("Paralisi");
    reveal_strlit("Paura");
    reveal_strlit("Pietrificazione");
    reveal_strlit("Scosso");
    reveal_strlit("Sonno");
    reveal_strlit("Sonoro");
    reveal_strlit("Sordità");
    reveal_strlit("Stordimento");
    reveal_strlit("acido");
    reveal_strlit("effetti Barcollanti");
    reveal_strlit("effetti di Paura");
    reveal_strlit("effetti di Sonno");
    reveal_strlit("effetti di paura");
    reveal_strlit("effetti di sonno");
    reveal_strlit("elettricità");
    reveal_strlit("energia negativa");
    reveal_strlit("freddo");
    reveal_strlit("fuoco");
    reveal_strlit("nausea");
    reveal_strlit("paralisi");
    reveal_strlit("paura");
    reveal_strlit("pietrificazione");
    reveal_strlit("sonno");
    reveal_strlit("sonoro");
    reveal_strlit("sordità");
    reveal_strlit("stordimento");
    assert("Abbagliamenti"@.len() == 13);
    assert("Abbagliamento"@.len() == 13);
    assert("Abbagliato"@.len() == 10);
    assert("Accecato"@.len() == 8);
    assert("Acido"@.len() == 5);
    assert("Affaticamento"@.len() == 13);
    assert("Affaticato"@.len() == 10);
    assert("Assorbimento del Fuoco"@.len() == 22);
    assert("Barcollante"@.len() == 11);
    assert("Barcollare"@.len() == 10);
    assert("Cecità"@.len() == 6);
    assert("Condizione Affaticato"@.len() == 21);
    assert("Condizione Esausto"@.len() == 18);
    assert("Confusione"@.len() == 10);
    assert("Effetti di Paura"@.len() == 16);
    assert("Effetti di Sonno"@.len() == 16);
    assert("Effetti di paura"@.len() == 16);
    assert("Effetti di sonno"@.len() == 16);
    assert("Elettricità"@.len() == 11);
    assert("Elettricità (parziale)"@.len() == 22);
    assert("Energia Negativa"@.len() == 16);
    assert("Energia Positiva"@.len() == 16);
    assert("Esaurimento"@.len() == 11);
    assert("Esausto"@.len() == 7);
    assert("Fatica"@.len() == 6);
    assert("Frastornamento"@.len() == 14);
    assert("Frastornato"@.len() == 11);
    assert("Freddo"@.len() == 6);
    assert("Freddo (sé stesso e chi lo cavalca)"@.len() == 35);
    assert("Fuoco"@.len() == 5);
    assert("Fuoco Infernale"@.len() == 15);
    assert("Immunità al Freddo"@.len() == 18);
    assert("Infermità"@.len() == 9);
    assert("Infermo"@.len() == 7);
    assert("Nausea"@.len() == 6);
    assert("Nauseato"@.len() == 8);
    assert("Paralisi"@.len() == 8);
    assert("Paura"@.len() == 5);
    assert("Pietrificazione"@.len() == 15);
    assert("Scosso"@.len() == 6);
    assert("Sonno"@.len() == 5);
    assert("Sonoro"@.len() == 6);
    assert("Sordità"@.len() == 7);
    assert("Stordimento"@.len() == 11);
    assert("acido"@.len() == 5);
    assert("effetti Barcollanti"@.len() == 19);
    assert("effetti di Paura"@.len() == 16);
    assert("effetti di Sonno"@.len() == 16);
    assert("effetti di paura"@.len() == 16);
    assert("effetti di sonno"@.len() == 16);
    assert("elettricità"@.len() == 11);
    assert("energia negativa"@.len() == 16);
    assert("freddo"@.len() == 6);
    assert("fuoco"@.len() == 5);
    assert("nausea"@.len() == 6);
    assert("paralisi"@.len() == 8);
    assert("paura"@.len() == 5);
    assert("pietrificazione"@.len() == 15);
    assert("sonno"@.len() == 5);
    assert("sonoro"@.len() == 6);
    assert("sordità"@.len() == 7);
    assert("stordimento"@.len() == 11);
    assert("Scosso"@[0] != "Freddo"@[0]);
    assert("Scosso"@ != "Freddo"@);
    assert("Scosso"@[0] != "freddo"@[0]);
    assert("Scosso"@ != "freddo"@);
    assert("Scosso"@[1] != "Sonoro"@[1]);
    assert("Scosso"@ != "Sonoro"@);
    assert("Scosso"@[0] != "sonoro"@[0]);
    assert("Scosso"@ != "sonoro"@);
    assert("Scosso"@[0] != "Fatica"@[0]);
    assert("Scosso"@ != "Fatica"@);
    assert("Scosso"@[0] != "Nausea"@[0]);
    assert("Scosso"@ != "Nausea"@);
    assert("Scosso"@[0] != "nausea"@[0]);
    assert("Scosso"@ != "nausea"@);
    assert("Scosso"@[0] != "Cecità"@[0]);
    assert("Scosso"@ != "Cecità"@);
}

proof fn lemma_read_immunity_frightened(s: Seq<char>)
    requires
        immunity_named(Immunity_Type::Immunity_Frightened, s),
    ensures
        spec_single_immunity(s) == Some(Immunity_Type::Immunity_Frightened),
{
    reveal_strlit("Abbagliamenti");
    reveal_strlit("Abbagliamento");
    reveal_strlit("Abbagliato");
    reveal_strlit("Accecato");
    reveal_strlit("Acido");
    reveal_strlit("Affaticamento");
    reveal_strlit("Affaticato");
    reveal_strlit("Assorbimento del Fuoco");
    reveal_strlit("Barcollante");
    reveal_strlit("Barcollare");
    reveal_strlit("Cecità");
    reveal_strlit("Condizione Affaticato");
    reveal_strlit("Condizione Esausto");
    reveal_strlit("Confusione");
    reveal_strlit("Effetti di Paura");
    reveal_strlit("Effetti di Sonno");
    reveal_strlit("Effetti di paura");
    reveal_strlit("Effetti di sonno");
    reveal_strlit("Elettricità");
    reveal_strlit("Elettricità (parziale)");
    reveal_strlit("Energia Negativa");
    reveal_strlit("Energia Positiva");
    reveal_strlit("Esaurimento");
    reveal_strlit("Esausto");
    reveal_strlit("Fatica");
    reveal_strlit("Frastornamento");
    reveal_strlit("Frastornato");
    reveal_strlit("Freddo");
    reveal_strlit("Freddo (sé stesso e chi lo cavalca)");
    reveal_strlit("Fuoco");
    reveal_strlit("Fuoco Infernale");
    reveal_strlit("Immunità al Freddo");
    reveal_strlit("Infermità");
    reveal_strlit("Infermo");
    reveal_strlit("Nausea");
    reveal_strlit("Nauseato");
    reveal_strlit("Paralisi");
    reveal_strlit("Paura");
    reveal_strlit("Pietrificazione");
    reveal_strlit("Scosso");
    reveal_strlit("Sonno");
    reveal_strlit("Sonoro");
    reveal_strlit("Sordità");
    reveal_strlit("Spaventato");
    reveal_strlit("Stordimento");
    reveal_strlit("acido");
    reveal_strlit("effetti Barcollanti");
    reveal_strlit("effetti di Paura");
    reveal_strlit("effetti di Sonno");
    reveal_strlit("effetti di paura");
    reveal_strlit("effetti di sonno");
    reveal_strlit("elettricità");
    reveal_strlit("energia negativa");
    reveal_strlit("freddo");
    reveal_strlit("fuoco");
    reveal_strlit("nausea");
    reveal_strlit("paralisi");
    reveal_strlit("paura");
    reveal_strlit("pietrificazione");
    reveal_strlit("sonno");
    reveal_strlit("sonoro");
    reveal_strlit("sordità");
    reveal_strlit("stordimento");
    assert("Abbagliamenti"@.len() == 13);
    assert("Abbagliamento"@.len() == 13);
    assert("Abbagliato"@.len() == 10);
    assert("Accecato"@.len() == 8);
    assert("Acido"@.len() == 5);
    assert("Affaticamento"@.len() == 13);
    assert("Affaticato"@.len() == 10);
    assert("Assorbimento del Fuoco"@.len() == 22);
    assert("Barcollante"@.len() == 11);
    assert("Barcollare"@.len() == 10);
    assert("Cecità"@.len() == 6);
    assert("Condizione Affaticato"@.len() == 21);
    assert("Condizione Esausto"@.len() == 18);
    assert("Confusione"@.len() == 10);
    assert("Effetti di Paura"@.len() == 16);
    assert("Effetti di Sonno"@.len() == 16);
    assert("Effetti di paura"@.len() == 16);
    assert("Effetti di sonno"@.len() == 16);
    assert("Elettricità"@.len() == 11);
    assert("Elettricità (parziale)"@.len() == 22);
    assert("Energia Negativa"@.len() == 16);
    assert("Energia Positiva"@.len() == 16);
    assert("Esaurimento"@.len() == 11);
    assert("Esausto"@.len() == 7);
    assert("Fatica"@.len() == 6);
    assert("Frastornamento"@.len() == 14);
    assert("Frastornato"@.len() == 11);
    assert("Freddo"@.len() == 6);
    assert("Freddo (sé stesso e chi lo cavalca)"@.len() == 35);
    assert("Fuoco"@.len() == 5);
    assert("Fuoco Infernale"@.len() == 15);
    assert("Immunità al Freddo"@.len() == 18);
    assert("Infermità"@.len() == 9);
    assert("Infermo"@.len() == 7);
    assert("Nausea"@.len() == 6);
    assert("Nauseato"@.len() == 8);
    assert("Paralisi"@.len() == 8);
    assert("Paura"@.len() == 5);
    assert("Pietrificazione"@.len() == 15);
    assert("Scosso"@.len() == 6);
    assert("Sonno"@.len() == 5);
    assert("Sonoro"@.len() == 6);
    assert("Sordità"@.len() == 7);
    assert("Spaventato"@.len() == 10);
    assert("Stordimento"@.len() == 11);
    assert("acido"@.len() == 5);
    assert("effetti Barcollanti"@.len() == 19);
    assert("effetti di Paura"@.len() == 16);
    assert("effetti di Sonno"@.len() == 16);
    assert("effetti di paura"@.len() == 16);
    assert("effetti di sonno"@.len() == 16);
    assert("elettricità"@.len() == 11);
    assert("energia negativa"@.len() == 16);
    assert("freddo"@.len() == 6);
    assert("fuoco"@.len() == 5);
    assert("nausea"@.len() == 6);
    assert("paralisi"@.len() == 8);
    assert("paura"@.len() == 5);
    assert("pietrificazione"@.len() == 15);
    assert("sonno"@.len() == 5);
    assert("sonoro"@.len() == 6);
    assert("sordità"@.len() == 7);
    assert("stordimento"@.len() == 11);
    assert("Spaventato"@[0] != "Affaticato"@[0]);
    assert("Spaventato"@ != "Affaticato"@);
    assert("Spaventato"@[0] != "Confusione"@[0]);
    assert("Spaventato"@ != "Confusione"@);
    assert("Spaventato"@[0] != "Barcollare"@[0]);
    assert("Spaventato"@ != "Barcollare"@);
    assert("Spaventato"@[0] != "Abbagliato"@[0]);
    assert("Spaventato"@ != "Abbagliato"@);
}

proof fn lemma_read_immunity_poison(s: Seq<char>)
    requires
        immunity_named(Immunity_Type::Immunity_Poison, s),
    ensures
        spec_single_immunity(s) == Some(Immunity_Type::Immunity_Poison),
{
    reveal_strlit("Abbagliamenti");
    reveal_strlit("Abbagliamento");
    reveal_strlit("Abbagliato");
    reveal_strlit("Accecato");
    reveal_strlit("Acido");
    reveal_strlit("Affaticamento");
    reveal_strlit("Affaticato");
    reveal_strlit("Assorbimento del Fuoco");
    reveal_strlit("Barcollante");
    reveal_strlit("Barcollare");
    reveal_strlit("Cecità");
    reveal_strlit("Condizione Affaticato");
    reveal_strlit("Condizione Esausto");
    reveal_strlit("Confusione");
    reveal_strlit("Effetti di Paura");
    reveal_strlit("Effetti di Sonno");
    reveal_strlit("Effetti di paura");
    reveal_strlit("Effetti di sonno");
    reveal_strlit("Elettricità");
    reveal_strlit("Elettricità (parziale)");
    reveal_strlit("Energia Negativa");
    reveal_strlit("Energia Positiva");
    reveal_strlit("Esaurimento");
    reveal_strlit("Esausto");
    reveal_strlit("Fatica");
    reveal_strlit("Frastornamento");
    reveal_strlit("Frastornato");
    reveal_strlit("Freddo");
    reveal_strlit("Freddo (sé stesso e chi lo cavalca)");
    reveal_strlit("Fuoco");
    reveal_strlit("Fuoco Infernale");
    reveal_strlit("Immunità al Freddo");
    reveal_strlit("Infermità");
    reveal_strlit("Infermo");
    reveal_strlit("Nausea");
    reveal_strlit("Nauseato");
    reveal_strlit("Paralisi");
    reveal_strlit("Paura");
    reveal_strlit("Pietrificazione");
    reveal_strlit("Scosso");
    reveal_strlit("Sonno");
    reveal_strlit("Sonoro");
    reveal_strlit("Sordità");
    reveal_strlit("Spaventato");
    reveal_strlit("Stordimento");
    reveal_strlit("Veleni");
    reveal_strlit("Veleno");
    reveal_strlit("acido");
    reveal_strlit("effetti Barcollanti");
    reveal_strlit("effetti di Paura");
    reveal_strlit("effetti di Sonno");
    reveal_strlit("effetti di paura");
    reveal_strlit("effetti di sonno");
    reveal_strlit("elettricità");
    reveal_strlit("energia negativa");
    reveal_strlit("freddo");
    reveal_strlit("fuoco");
    reveal_strlit("nausea");
    reveal_strlit("paralisi");
    reveal_strlit("paura");
    reveal_strlit("pietrificazione");
    reveal_strlit("sonno");
    reveal_strlit("sonoro");
    reveal_strlit("sordità");
    reveal_strlit("stordimento");
    reveal_strlit("veleni");
    reveal_strlit("veleno");
    assert("Abbagliamenti"@.len() == 13);
    assert("Abbagliamento"@.len() == 13);
    assert("Abbagliato"@.len() == 10);
    assert("Accecato"@.len() == 8);
    assert("Acido"@.len() == 5);
    assert("Affaticamento"@.len() == 13);
    assert("Affaticato"@.len() == 10);
    assert("Assorbimento del Fuoco"@.len() == 22);
    assert("Barcollante"@.len() == 11);
    assert("Barcollare"@.len() == 10);
    assert("Cecità"@.len() == 6);
    assert("Condizione Affaticato"@.len() == 21);
    assert("Condizione Esausto"@.len() == 18);
    assert("Confusione"@.len() == 10);
    assert("Effetti di Paura"@.len() == 16);
    assert("Effetti di Sonno"@.len() == 16);
    assert("Effetti di paura"@.len() == 16);
    assert("Effetti di sonno"@.len() == 16);
    assert("Elettricità"@.len() == 11);
    assert("Elettricità (parziale)"@.len() == 22);
    assert("Energia Negativa"@.len() == 16);
    assert("Energia Positiva"@.len() == 16);
    assert("Esaurimento"@.len() == 11);
    assert("Esausto"@.len() == 7);
    assert("Fatica"@.len() == 6);
    assert("Frastornamento"@.len() == 14);
    assert("Frastornato"@.len() == 11);
    assert("Freddo"@.len() == 6);
    assert("Freddo (sé stesso e chi lo cavalca)"@.len() == 35);
    assert("Fuoco"@.len() == 5);
    assert("Fuoco Infernale"@.len() == 15);
    assert("Immunità al Freddo"@.len() == 18);
    assert("Infermità"@.len() == 9);
    assert("Infermo"@.len() == 7);
    assert("Nausea"@.len() == 6);
    assert("Nauseato"@.len() == 8);
    assert("Paralisi"@.len() == 8);
    assert("Paura"@.len() == 5);
    assert("Pietrificazione"@.len() == 15);
    assert("Scosso"@.len() == 6);
    assert("Sonno"@.len() == 5);
    assert("Sonoro"@.len() == 6);
    assert("Sordità"@.len() == 7);
    assert("Spaventato"@.len() == 10);
    assert("Stordimento"@.len() == 11);
    assert("Veleni"@.len() == 6);
    assert("Veleno"@.len() == 6);
    assert("acido"@.len() == 5);
    assert("effetti Barcollanti"@.len() == 19);
    assert("effetti di Paura"@.len() == 16);
    assert("effetti di Sonno"@.len() == 16);
    assert("effetti di paura"@.len() == 16);
    assert("effetti di sonno"@.len() == 16);
    assert("elettricità"@.len() == 11);
    assert("energia negativa"@.len() == 16);
    assert("freddo"@.len() == 6);
    assert("fuoco"@.len() == 5);
    assert("nausea"@.len() == 6);
    assert("paralisi"@.len() == 8);
    assert("paura"@.len() == 5);
    assert("pietrificazione"@.len() == 15);
    assert("sonno"@.len() == 5);
    assert("sonoro"@.len() == 6);
    assert("sordità"@.len() == 7);
    assert("stordimento"@.len() == 11);
    assert("veleni"@.len() == 6);
    assert("veleno"@.len() == 6);
    assert("Veleni"@[0] != "Freddo"@[0]);
    assert("Veleni"@ != "Freddo"@);
    assert("Veleni"@[0] != "freddo"@[0]);
    assert("Veleni"@ != "freddo"@);
    assert("Veleni"@[0] != "Sonoro"@[0]);
    assert("Veleni"@ != "Sonoro"@);
    assert("Veleni"@[0] != "sonoro"@[0]);
    assert("Veleni"@ != "sonoro"@);
    assert("Veleni"@[0] != "Fatica"@[0]);
    assert("Veleni"@ != "Fatica"@);
    assert("Veleni"@[0] != "Nausea"@[0]);
    assert("Veleni"@ != "Nausea"@);
    assert("Veleni"@[0] != "nausea"@[0]);
    assert("Veleni"@ != "nausea"@);
    assert("Veleni"@[0] != "Cecità"@[0]);
    assert("Veleni"@ != "Cecità"@);
    assert("Veleni"@[0] != "Scosso"@[0]);
    assert("Veleni"@ != "Scosso"@);
    assert("Veleno"@[0] != "Freddo"@[0]);
    assert("Veleno"@ != "Freddo"@);
    assert("Veleno"@[0] != "freddo"@[0]);
    assert("Veleno"@ != "freddo"@);
    assert("Veleno"@[0] != "Sonoro"@[0]);
    assert("Veleno"@ != "Sonoro"@);
    assert("Veleno"@[0] != "sonoro"@[0]);
    assert("Veleno"@ != "sonoro"@);
    assert("Veleno"@[0] != "Fatica"@[0]);
    assert("Veleno"@ != "Fatica"@);
    assert("Veleno"@[0] != "Nausea"@[0]);
    assert("Veleno"@ != "Nausea"@);
    assert("Veleno"@[0] != "nausea"@[0]);
    assert("Veleno"@ != "nausea"@);
    assert("Veleno"@[0] != "Cecità"@[0]);
    assert("Veleno"@ != "Cecità"@);
    assert("Veleno"@[0] != "Scosso"@[0]);
    assert("Veleno"@ != "Scosso"@);
    assert("Veleno"@[5] != "Veleni"@[5]);
    assert("Veleno"@ != "Veleni"@);
    assert("veleno"@[0] != "Freddo"@[0]);
    assert("veleno"@ != "Freddo"@);
    assert("veleno"@[0] != "freddo"@[0]);
    assert("veleno"@ != "freddo"@);
    assert("veleno"@[0] != "Sonoro"@[0]);
    assert("veleno"@ != "Sonoro"@);
    assert("veleno"@[0] != "sonoro"@[0]);
    assert("veleno"@ != "sonoro"@);
    assert("veleno"@[0] != "Fatica"@[0]);
    assert("veleno"@ != "Fatica"@);
    assert("veleno"@[0] != "Nausea"@[0]);
    assert("veleno"@ != "Nausea"@);
    assert("veleno"@[0] != "nausea"@[0]);
    assert("veleno"@ != "nausea"@);
    assert("veleno"@[0] != "Cecità"@[0]);
    assert("veleno"@ != "Cecità"@);
    assert("veleno"@[0] != "Scosso"@[0]);
    assert("veleno"@ != "Scosso"@);
    assert("veleno"@[0] != "Veleni"@[0]);
    assert("veleno"@ != "Veleni"@);
    assert("veleno"@[0] != "Veleno"@[0]);
    assert("veleno"@ != "Veleno"@);
    assert("veleni"@[0] != "Freddo"@[0]);
    assert("veleni"@ != "Freddo"@);
    assert("veleni"@[0] != "freddo"@[0]);
    assert("veleni"@ != "freddo"@);
    assert("veleni"@[0] != "Sonoro"@[0]);
    assert("veleni"@ != "Sonoro"@);
    assert("veleni"@[0] != "sonoro"@[0]);
    assert("veleni"@ != "sonoro"@);
    assert("veleni"@[0] != "Fatica"@[0]);
    assert("veleni"@ != "Fatica"@);
    assert("veleni"@[0] != "Nausea"@[0]);
    assert("veleni"@ != "Nausea"@);
    assert("veleni"@[0] != "nausea"@[0]);
    assert("veleni"@ != "nausea"@);
    assert("veleni"@[0] != "Cecità"@[0]);
    assert("veleni"@ != "Cecità"@);
    assert("veleni"@[0] != "Scosso"@[0]);
    assert("veleni"@ != "Scosso"@);
    assert("veleni"@[0] != "Veleni"@[0]);
    assert("veleni"@ != "Veleni"@);
    assert("veleni"@[0] != "Veleno"@[0]);
    assert("veleni"@ != "Veleno"@);
    assert("veleni"@[5] != "veleno"@[5]);
    assert("veleni"@ != "veleno"@);
}

proof fn lemma_read_immunity_poisoningested(s: Seq<char>)
    requires
        immunity_named(Immunity_Type::Immunity_PoisonIngested, s),
    ensures
        spec_single_immunity(s) == Some(Immunity_Type::Immunity_PoisonIngested),
{
    reveal_strlit("Abbagliamenti");
    reveal_strlit("Abbagliamento");
    reveal_strlit("Abbagliato");
    reveal_strlit("Accecato");
    reveal_strlit("Acido");
    reveal_strlit("Affaticamento");
    reveal_strlit("Affaticato");
    reveal_strlit("Assorbimento del Fuoco");
    reveal_strlit("Barcollante");
    reveal_strlit("Barcollare");
    reveal_strlit("Cecità");
    reveal_strlit("Condizione Affaticato");
    reveal_strlit("Condizione Esausto");
    reveal_strlit("Confusione");
    reveal_strlit("Effetti di Paura");
    reveal_strlit("Effetti di Sonno");
    reveal_strlit("Effetti di paura");
    reveal_strlit("Effetti di sonno");
    reveal_strlit("Elettricità");
    reveal_strlit("Elettricità (parziale)");
    reveal_strlit("Energia Negativa");
    reveal_strlit("Energia Positiva");
    reveal_strlit("Esaurimento");
    reveal_strlit("Esausto");
    reveal_strlit("Fatica");
    reveal_strlit("Frastornamento");
    reveal_strlit("Frastornato");
    reveal_strlit("Freddo");
    reveal_strlit("Freddo (sé stesso e chi lo cavalca)");
    reveal_strlit("Fuoco");
    reveal_strlit("Fuoco Infernale");
    reveal_strlit("Immunità al Freddo");
    reveal_strlit("Infermità");
    reveal_strlit("Infermo");
    reveal_strlit("Nausea");
    reveal_strlit("Nauseato");
    reveal_strlit("Paralisi");
    reveal_strlit("Paura");
    reveal_strlit("Pietrificazione");
    reveal_strlit("Scosso");
    reveal_strlit("Sonno");
    reveal_strlit("Sonoro");
    reveal_strlit("Sordità");
    reveal_strlit("Spaventato");
    reveal_strlit("Stordimento");
    reveal_strlit("Veleni");
    reveal_strlit("Veleno");
    reveal_strlit("Veleno Ingerito");
    reveal_strlit("acido");
    reveal_strlit("effetti Barcollanti");
    reveal_strlit("effetti di Paura");
    reveal_strlit("effetti di Sonno");
    reveal_strlit("effetti di paura");
    reveal_strlit("effetti di sonno");
    reveal_strlit("elettricità");
    reveal_strlit("energia negativa");
    reveal_strlit("freddo");
    reveal_strlit("fuoco");
    reveal_strlit("nausea");
    reveal_strlit("paralisi");
    reveal_strlit("paura");
    reveal_strlit("pietrificazione");
    reveal_strlit("sonno");
    reveal_strlit("sonoro");
    reveal_strlit("sordità");
    reveal_strlit("stordimento");
    reveal_strlit("veleni");
    reveal_strlit("veleno");
    assert("Abbagliamenti"@.len() == 13);
    assert("Abbagliamento"@.len() == 13);
    assert("Abbagliato"@.len() == 10);
    assert("Accecato"@.len() == 8);
    assert("Acido"@.len() == 5);
    assert("Affaticamento"@.len() == 13);
    assert("Affaticato"@.len() == 10);
    assert("Assorbimento del Fuoco"@.len() == 22);
    assert("Barcollante"@.len() == 11);
    assert("Barcollare"@.len() == 10);
    assert("Cecità"@.len() == 6);
    assert("Condizione Affaticato"@.len() == 21);
    assert("Condizione Esausto"@.len() == 18);
    assert("Confusione"@.len() == 10);
    assert("Effetti di Paura"@.len() == 16);
    assert("Effetti di Sonno"@.len() == 16);
    assert("Effetti di paura"@.len() == 16);
    assert("Effetti di sonno"@.len() == 16);
    assert("Elettricità"@.len() == 11);
    assert("Elettricità (parziale)"@.len() == 22);
    assert("Energia Negativa"@.len() == 16);
    assert("Energia Positiva"@.len() == 16);
    assert("Esaurimento"@.len() == 11);
    assert("Esausto"@.len() == 7);
    assert("Fatica"@.len() == 6);
    assert("Frastornamento"@.len() == 14);
    assert("Frastornato"@.len() == 11);
    assert("Freddo"@.len() == 6);
    assert("Freddo (sé stesso e chi lo cavalca)"@.len() == 35);
    assert("Fuoco"@.len() == 5);
    assert("Fuoco Infernale"@.len() == 15);
    assert("Immunità al Freddo"@.len() == 18);
    assert("Infermità"@.len() == 9);
    assert("Infermo"@.len() == 7);
    assert("Nausea"@.len() == 6);
    assert("Nauseato"@.len() == 8);
    assert("Paralisi"@.len() == 8);
    assert("Paura"@.len() == 5);
    assert("Pietrificazione"@.len() == 15);
    assert("Scosso"@.len() == 6);
    assert("Sonno"@.len() == 5);
    assert("Sonoro"@.len() == 6);
    assert("Sordità"@.len() == 7);
    assert("Spaventato"@.len() == 10);
    assert("Stordimento"@.len() == 11);
    assert("Veleni"@.len() == 6);
    assert("Veleno"@.len() == 6);
    assert("Veleno Ingerito"@.len() == 15);
    assert("acido"@.len() == 5);
    assert("effetti Barcollanti"@.len() == 19);
    assert("effetti di Paura"@.len() == 16);
    assert("effetti di Sonno"@.len() == 16);
    assert("effetti di paura"@.len() == 16);
    assert("effetti di sonno"@.len() == 16);
    assert("elettricità"@.len() == 11);
    assert("energia negativa"@.len() == 16);
    assert("freddo"@.len() == 6);
    assert("fuoco"@.len() == 5);
    assert("nausea"@.len() == 6);
    assert("paralisi"@.len() == 8);
    assert("paura"@.len() == 5);
    assert("pietrificazione"@.len() == 15);
    assert("sonno"@.len() == 5);
    assert("sonoro"@.len() == 6);
    assert("sordità"@.len() == 7);
    assert("stordimento"@.len() == 11);
    assert("veleni"@.len() == 6);
    assert("veleno"@.len() == 6);
    assert("Veleno Ingerito"@[0] != "Fuoco Infernale"@[0]);
    assert("Veleno Ingerito"@ != "Fuoco Infernale"@);
    assert("Veleno Ingerito"@[0] != "Pietrificazione"@[0]);
    assert("Veleno Ingerito"@ != "Pietrificazione"@);
    assert("Veleno Ingerito"@[0] != "pietrificazione"@[0]);
    assert("Veleno Ingerito"@ != "pietrificazione"@);
}

proof fn lemma_read_immunity_disease(s: Seq<char>)
    requires
        immunity_named(Immunity_Type::Immunity_Disease, s),
    ensures
        spec_single_immunity(s) == Some(Immunity_Type::Immunity_Disease),
{
    reveal_strlit("Abbagliamenti");
    reveal_strlit("Abbagliamento");
    reveal_strlit("Abbagliato");
    reveal_strlit("Accecato");
    reveal_strlit("Acido");
    reveal_strlit("Affaticamento");
    reveal_strlit("Affaticato");
    reveal_strlit("Assorbimento del Fuoco");
    reveal_strlit("Barcollante");
    reveal_strlit("Barcollare");
    reveal_strlit("Cecità");
    reveal_strlit("Condizione Affaticato");
    reveal_strlit("Condizione Esausto");
    reveal_strlit("Confusione");
    reveal_strlit("Effetti di Paura");
    reveal_strlit("Effetti di Sonno");
    reveal_strlit("Effetti di paura");
    reveal_strlit("Effetti di sonno");
    reveal_strlit("Elettricità");
    reveal_strlit("Elettricità (parziale)");
    reveal_strlit("Energia Negativa");
    reveal_strlit("Energia Positiva");
    reveal_strlit("Esaurimento");
    reveal_strlit("Esausto");
    reveal_strlit("Fatica");
    reveal_strlit("Frastornamento");
    reveal_strlit("Frastornato");
    reveal_strlit("Freddo");
    reveal_strlit("Freddo (sé stesso e chi lo cavalca)");
    reveal_strlit("Fuoco");
    reveal_strlit("Fuoco Infernale");
    reveal_strlit("Immunità al Freddo");
    reveal_strlit("Infermità");
    reveal_strlit("Infermo");
    reveal_strlit("Malattia");
    reveal_strlit("Malattie");
    reveal_strlit("Nausea");
    reveal_strlit("Nauseato");
    reveal_strlit("Paralisi");
    reveal_strlit("Paura");
    reveal_strlit("Pietrificazione");
    reveal_strlit("Scosso");
    reveal_strlit("Sonno");
    reveal_strlit("Sonoro");
    reveal_strlit("Sordità");
    reveal_strlit("Spaventato");
    reveal_strlit("Stordimento");
    reveal_strlit("Veleni");
    reveal_strlit("Veleno");
    reveal_strlit("Veleno Ingerito");
    reveal_strlit("acido");
    reveal_strlit("effetti Barcollanti");
    reveal_strlit("effetti di Paura");
    reveal_strlit("effetti di Sonno");
    reveal_strlit("effetti di paura");
    reveal_strlit("effetti di sonno");
    reveal_strlit("elettricità");
    reveal_strlit("energia negativa");
    reveal_strlit("freddo");
    reveal_strlit("fuoco");
    reveal_strlit("malattia");
    reveal_strlit("malattie");
    reveal_strlit("nausea");
    reveal_strlit("paralisi");
    reveal_strlit("paura");
    reveal_strlit("pietrificazione");
    reveal_strlit("sonno");
    reveal_strlit("sonoro");
    reveal_strlit("sordità");
    reveal_strlit("stordimento");
    reveal_strlit("veleni");
    reveal_strlit("veleno");
    assert("Abbagliamenti"@.len() == 13);
    assert("Abbagliamento"@.len() == 13);
    assert("Abbagliato"@.len() == 10);
    assert("Accecato"@.len() == 8);
    assert("Acido"@.len() == 5);
    assert("Affaticamento"@.len() == 13);
    assert("Affaticato"@.len() == 10);
    assert("Assorbimento del Fuoco"@.len() == 22);
    assert("Barcollante"@.len() == 11);
    assert("Barcollare"@.len() == 10);
    assert("Cecità"@.len() == 6);
    assert("Condizione Affaticato"@.len() == 21);
    assert("Condizione Esausto"@.len() == 18);
    assert("Confusione"@.len() == 10);
    assert("Effetti di Paura"@.len() == 16);
    assert("Effetti di Sonno"@.len() == 16);
    assert("Effetti di paura"@.len() == 16);
    assert("Effetti di sonno"@.len() == 16);
    assert("Elettricità"@.len() == 11);
    assert("Elettricità (parziale)"@.len() == 22);
    assert("Energia Negativa"@.len() == 16);
    assert("Energia Positiva"@.len() == 16);
    assert("Esaurimento"@.len() == 11);
    assert("Esausto"@.len() == 7);
    assert("Fatica"@.len() == 6);
    assert("Frastornamento"@.len() == 14);
    assert("Frastornato"@.len() == 11);
    assert("Freddo"@.len() == 6);
    assert("Freddo (sé stesso e chi lo cavalca)"@.len() == 35);
    assert("Fuoco"@.len() == 5);
    assert("Fuoco Infernale"@.len() == 15);
    assert("Immunità al Freddo"@.len() == 18);
    assert("Infermità"@.len() == 9);
    assert("Infermo"@.len() == 7);
    assert("Malattia"@.len() == 8);
    assert("Malattie"@.len() == 8);
    assert("Nausea"@.len() == 6);
    assert("Nauseato"@.len() == 8);
    assert("Paralisi"@.len() == 8);
    assert("Paura"@.len() == 5);
    assert("Pietrificazione"@.len() == 15);
    assert("Scosso"@.len() == 6);
    assert("Sonno"@.len() == 5);
    assert("Sonoro"@.len() == 6);
    assert("Sordità"@.len() == 7);
    assert("Spaventato"@.len() == 10);
    assert("Stordimento"@.len() == 11);
    assert("Veleni"@.len() == 6);
    assert("Veleno"@.len() == 6);
    assert("Veleno Ingerito"@.len() == 15);
    assert("acido"@.len() == 5);
    assert("effetti Barcollanti"@.len() == 19);
    assert("effetti di Paura"@.len() == 16);
    assert("effetti di Sonno"@.len() == 16);
    assert("effetti di paura"@.len() == 16);
    assert("effetti di sonno"@.len() == 16);
    assert("elettricità"@.len() == 11);
    assert("energia negativa"@.len() == 16);
    assert("freddo"@.len() == 6);
    assert("fuoco"@.len() == 5);
    assert("malattia"@.len() == 8);
    assert("malattie"@.len() == 8);
    assert("nausea"@.len() == 6);
    assert("paralisi"@.len() == 8);
    assert("paura"@.len() == 5);
    assert("pietrificazione"@.len() == 15);
    assert("sonno"@.len() == 5);
    assert("sonoro"@.len() == 6);
    assert("sordità"@.len() == 7);
    assert("stordimento"@.len() == 11);
    assert("veleni"@.len() == 6);
    assert("veleno"@.len() == 6);
    assert("Malattie"@[0] != "Paralisi"@[0]);
    assert("Malattie"@ != "Paralisi"@);
    assert("Malattie"@[0] != "paralisi"@[0]);
    assert("Malattie"@ != "paralisi"@);
    assert("Malattie"@[0] != "Nauseato"@[0]);
    assert("Malattie"@ != "Nauseato"@);
    assert("Malattie"@[0] != "Accecato"@[0]);
    assert("Malattie"@ != "Accecato"@);
    assert("Malattia"@[0] != "Paralisi"@[0]);
    assert("Malattia"@ != "Paralisi"@);
    assert("Malattia"@[0] != "paralisi"@[0]);
    assert("Malattia"@ != "paralisi"@);
    assert("Malattia"@[0] != "Nauseato"@[0]);
    assert("Malattia"@ != "Nauseato"@);
    assert("Malattia"@[0] != "Accecato"@[0]);
    assert("Malattia"@ != "Accecato"@);
    assert("Malattia"@[7] != "Malattie"@[7]);
    assert("Malattia"@ != "Malattie"@);
    assert("malattie"@[0] != "Paralisi"@[0]);
    assert("malattie"@ != "Paralisi"@);
    assert("malattie"@[0] != "paralisi"@[0]);
    assert("malattie"@ != "paralisi"@);
    assert("malattie"@[0] != "Nauseato"@[0]);
    assert("malattie"@ != "Nauseato"@);
    assert("malattie"@[0] != "Accecato"@[0]);
    assert("malattie"@ != "Accecato"@);
    assert("malattie"@[0] != "Malattie"@[0]);
    assert("malattie"@ != "Malattie"@);
    assert("malattie"@[0] != "Malattia"@[0]);
    assert("malattie"@ != "Malattia"@);
    assert("malattia"@[0] != "Paralisi"@[0]);
    assert("malattia"@ != "Paralisi"@);
    assert("malattia"@[0] != "paralisi"@[0]);
    assert("malattia"@ != "paralisi"@);
    assert("malattia"@[0] != "Nauseato"@[0]);
    assert("malattia"@ != "Nauseato"@);
    assert("malattia"@[0] != "Accecato"@[0]);
    assert("malattia"@ != "Accecato"@);
    assert("malattia"@[0] != "Malattie"@[0]);
    assert("malattia"@ != "Malattie"@);
    assert("malattia"@[0] != "Malattia"@[0]);
    assert("malattia"@ != "Malattia"@);
    assert("malattia"@[7] != "malattie"@[7]);
    assert("malattia"@ != "malattie"@);
}

proof fn lemma_read_immunity_magic(s: Seq<char>)
    requires
        immunity_named(Immunity_Type::Immunity_Magic, s),
    ensures
        spec_single_immunity(s) == Some(Immunity_Type::Immunity_Magic),
{
    reveal_strlit("Abbagliamenti");
    reveal_strlit("Abbagliamento");
    reveal_strlit("Abbagliato");
    reveal_strlit("Accecato");
    reveal_strlit("Acido");
    reveal_strlit("Affaticamento");
    reveal_strlit("Affaticato");
    reveal_strlit("Assorbimento del Fuoco");
    reveal_strlit("Barcollante");
    reveal_strlit("Barcollare");
    reveal_strlit("Cecità");
    reveal_strlit("Condizione Affaticato");
    reveal_strlit("Condizione Esausto");
    reveal_strlit("Confusione");
    reveal_strlit("Effetti di Paura");
    reveal_strlit("Effetti di Sonno");
    reveal_strlit("Effetti di paura");
    reveal_strlit("Effetti di sonno");
    reveal_strlit("Elettricità");
    reveal_strlit("Elettricità (parziale)");
    reveal_strlit("Energia Negativa");
    reveal_strlit("Energia Positiva");
    reveal_strlit("Esaurimento");
    reveal_strlit("Esausto");
    reveal_strlit("Fatica");
    reveal_strlit("Frastornamento");
    reveal_strlit("Frastornato");
    reveal_strlit("Freddo");
    reveal_strlit("Freddo (sé stesso e chi lo cavalca)");
    reveal_strlit("Fuoco");
    reveal_strlit("Fuoco Infernale");
    reveal_strlit("Immunità al Freddo");
    reveal_strlit("Immunità alla Magia");
    reveal_strlit("Infermità");
    reveal_strlit("Infermo");
    reveal_strlit("Magia");
    reveal_strlit("Malattia");
    reveal_strlit("Malattie");
    reveal_strlit("Nausea");
    reveal_strlit("Nauseato");
    reveal_strlit("Paralisi");
    reveal_strlit("Paura");
    reveal_strlit("Pietrificazione");
    reveal_strlit("Scosso");
    reveal_strlit("Sonno");
    reveal_strlit("Sonoro");
    reveal_strlit("Sordità");
    reveal_strlit("Spaventato");
    reveal_strlit("Stordimento");
    reveal_strlit("Veleni");
    reveal_strlit("Veleno");
    reveal_strlit("Veleno Ingerito");
    reveal_strlit("acido");
    reveal_strlit("effetti Barcollanti");
    reveal_strlit("effetti di Paura");
    reveal_strlit("effetti di Sonno");
    reveal_strlit("effetti di paura");
    reveal_strlit("effetti di sonno");
    reveal_strlit("elettricità");
    reveal_strlit("energia negativa");
    reveal_strlit("freddo");
    reveal_strlit("fuoco");
    reveal_strlit("malattia");
    reveal_strlit("malattie");
    reveal_strlit("nausea");
    reveal_strlit("paralisi");
    reveal_strlit("paura");
    reveal_strlit("pietrificazione");
    reveal_strlit("sonno");
    reveal_strlit("sonoro");
    reveal_strlit("sordità");
    reveal_strlit("stordimento");
    reveal_strlit("veleni");
    reveal_strlit("veleno");
    assert("Abbagliamenti"@.len() == 13);
    assert("Abbagliamento"@.len() == 13);
    assert("Abbagliato"@.len() == 10);
    assert("Accecato"@.len() == 8);
    assert("Acido"@.len() == 5);
    assert("Affaticamento"@.len() == 13);
    assert("Affaticato"@.len() == 10);
    assert("Assorbimento del Fuoco"@.len() == 22);
    assert("Barcollante"@.len() == 11);
    assert("Barcollare"@.len() == 10);
    assert("Cecità"@.len() == 6);
    assert("Condizione Affaticato"@.len() == 21);
    assert("Condizione Esausto"@.len() == 18);
    assert("Confusione"@.len() == 10);
    assert("Effetti di Paura"@.len() == 16);
    assert("Effetti di Sonno"@.len() == 16);
    assert("Effetti di paura"@.len() == 16);
    assert("Effetti di sonno"@.len() == 16);
    assert("Elettricità"@.len() == 11);
    assert("Elettricità (parziale)"@.len() == 22);
    assert("Energia Negativa"@.len() == 16);
    assert("Energia Positiva"@.len() == 16);
    assert("Esaurimento"@.len() == 11);
    assert("Esausto"@.len() == 7);
    assert("Fatica"@.len() == 6);
    assert("Frastornamento"@.len() == 14);
    assert("Frastornato"@.len() == 11);
    assert("Freddo"@.len() == 6);
    assert("Freddo (sé stesso e chi lo cavalca)"@.len() == 35);
    assert("Fuoco"@.len() == 5);
    assert("Fuoco Infernale"@.len() == 15);
    assert("Immunità al Freddo"@.len() == 18);
    assert("Immunità alla Magia"@.len() == 19);
    assert("Infermità"@.len() == 9);
    assert("Infermo"@.len() == 7);
    assert("Magia"@.len() == 5);
    assert("Malattia"@.len() == 8);
    assert("Malattie"@.len() == 8);
    assert("Nausea"@.len() == 6);
    assert("Nauseato"@.len() == 8);
    assert("Paralisi"@.len() == 8);
    assert("Paura"@.len() == 5);
    assert("Pietrificazione"@.len() == 15);
    assert("Scosso"@.len() == 6);
    assert("Sonno"@.len() == 5);
    assert("Sonoro"@.len() == 6);
    assert("Sordità"@.len() == 7);
    assert("Spaventato"@.len() == 10);
    assert("Stordimento"@.len() == 11);
    assert("Veleni"@.len() == 6);
    assert("Veleno"@.len() == 6);
    assert("Veleno Ingerito"@.len() == 15);
    assert("acido"@.len() == 5);
    assert("effetti Barcollanti"@.len() == 19);
    assert("effetti di Paura"@.len() == 16);
    assert("effetti di Sonno"@.len() == 16);
    assert("effetti di paura"@.len() == 16);
    assert("effetti di sonno"@.len() == 16);
    assert("elettricità"@.len() == 11);
    assert("energia negativa"@.len() == 16);
    assert("freddo"@.len() == 6);
    assert("fuoco"@.len() == 5);
    assert("malattia"@.len() == 8);
    assert("malattie"@.len() == 8);
    assert("nausea"@.len() == 6);
    assert("paralisi"@.len() == 8);
    assert("paura"@.len() == 5);
    assert("pietrificazione"@.len() == 15);
    assert("sonno"@.len() == 5);
    assert("sonoro"@.len() == 6);
    assert("sordità"@.len() == 7);
    assert("stordimento"@.len() == 11);
    assert("veleni"@.len() == 6);
    assert("veleno"@.len() == 6);
    assert("Magia"@[0] != "Acido"@[0]);
    assert("Magia"@ != "Acido"@);
    assert("Magia"@[0] != "acido"@[0]);
    assert("Magia"@ != "acido"@);
    assert("Magia"@[0] != "Fuoco"@[0]);
    assert("Magia"@ != "Fuoco"@);
    assert("Magia"@[0] != "fuoco"@[0]);
    assert("Magia"@ != "fuoco"@);
    assert("Magia"@[0] != "Sonno"@[0]);
    assert("Magia"@ != "Sonno"@);
    assert("Magia"@[0] != "sonno"@[0]);
    assert("Magia"@ != "sonno"@);
    assert("Magia"@[0] != "Paura"@[0]);
    assert("Magia"@ != "Paura"@);
    assert("Magia"@[0] != "paura"@[0]);
    assert("Magia"@ != "paura"@);
    assert("Immunità alla Magia"@[0] != "effetti Barcollanti"@[0]);
    assert("Immunità alla Magia"@ != "effetti Barcollanti"@);
}

proof fn lemma_read_immunity_criticals(s: Seq<char>)
    requires
        immunity_named(Immunity_Type::Immunity_Criticals, s),
    ensures
        spec_single_immunity(s) == Some(Immunity_Type::Immunity_Criticals),
{
    reveal_strlit("Abbagliamenti");
    reveal_strlit("Abbagliamento");
    reveal_strlit("Abbagliato");
    reveal_strlit("Accecato");
    reveal_strlit("Acido");
    reveal_strlit("Affaticamento");
    reveal_strlit("Affaticato");
    reveal_strlit("Assorbimento del Fuoco");
    reveal_strlit("Barcollante");
    reveal_strlit("Barcollare");
    reveal_strlit("Cecità");
    reveal_strlit("Colpi Critici");
    reveal_strlit("Colpi critici");
    reveal_strlit("Condizione Affaticato");
    reveal_strlit("Condizione Esausto");
    reveal_strlit("Confusione");
    reveal_strlit("Effetti di Paura");
    reveal_strlit("Effetti di Sonno");
    reveal_strlit("Effetti di paura");
    reveal_strlit("Effetti di sonno");
    reveal_strlit("Elettricità");
    reveal_strlit("Elettricità (parziale)");
    reveal_strlit("Energia Negativa");
    reveal_strlit("Energia Positiva");
    reveal_strlit("Esaurimento");
    reveal_strlit("Esausto");
    reveal_strlit("Fatica");
    reveal_strlit("Frastornamento");
    reveal_strlit("Frastornato");
    reveal_strlit("Freddo");
    reveal_strlit("Freddo (sé stesso e chi lo cavalca)");
    reveal_strlit("Fuoco");
    reveal_strlit("Fuoco Infernale");
    reveal_strlit("Immunità al Freddo");
    reveal_strlit("Immunità alla Magia");
    reveal_strlit("Infermità");
    reveal_strlit("Infermo");
    reveal_strlit("Magia");
    reveal_strlit("Malattia");
    reveal_strlit("Malattie");
    reveal_strlit("Nausea");
    reveal_strlit("Nauseato");
    reveal_strlit("Paralisi");
    reveal_strlit("Paura");
    reveal_strlit("Pietrificazione");
    reveal_strlit("Scosso");
    reveal_strlit("Sonno");
    reveal_strlit("Sonoro");
    reveal_strlit("Sordità");
    reveal_strlit("Spaventato");
    reveal_strlit("Stordimento");
    reveal_strlit("Veleni");
    reveal_strlit("Veleno");
    reveal_strlit("Veleno Ingerito");
    reveal_strlit("acido");
    reveal_strlit("effetti Barcollanti");
    reveal_strlit("effetti di Paura");
    reveal_strlit("effetti di Sonno");
    reveal_strlit("effetti di paura");
    reveal_strlit("effetti di sonno");
    reveal_strlit("elettricità");
    reveal_strlit("energia negativa");
    reveal_strlit("freddo");
    reveal_strlit("fuoco");
    reveal_strlit("malattia");
    reveal_strlit("malattie");
    reveal_strlit("nausea");
    reveal_strlit("paralisi");
    reveal_strlit("paura");
    reveal_strlit("pietrificazione");
    reveal_strlit("sonno");
    reveal_strlit("sonoro");
    reveal_strlit("sordità");
    reveal_strlit("stordimento");
    reveal_strlit("veleni");
    reveal_strlit("veleno");
    assert("Abbagliamenti"@.len() == 13);
    assert("Abbagliamento"@.len() == 13);
    assert("Abbagliato"@.len() == 10);
    assert("Accecato"@.len() == 8);
    assert("Acido"@.len() == 5);
    assert("Affaticamento"@.len() == 13);
    assert("Affaticato"@.len() == 10);
    assert("Assorbimento del Fuoco"@.len() == 22);
    assert("Barcollante"@.len() == 11);
    assert("Barcollare"@.len() == 10);
    assert("Cecità"@.len() == 6);
    assert("Colpi Critici"@.len() == 13);
    assert("Colpi critici"@.len() == 13);
    assert("Condizione Affaticato"@.len() == 21);
    assert("Condizione Esausto"@.len() == 18);
    assert("Confusione"@.len() == 10);
    assert("Effetti di Paura"@.len() == 16);
    assert("Effetti di Sonno"@.len() == 16);
    assert("Effetti di paura"@.len() == 16);
    assert("Effetti di sonno"@.len() == 16);
    assert("Elettricità"@.len() == 11);
    assert("Elettricità (parziale)"@.len() == 22);
    assert("Energia Negativa"@.len() == 16);
    assert("Energia Positiva"@.len() == 16);
    assert("Esaurimento"@.len() == 11);
    assert("Esausto"@.len() == 7);
    assert("Fatica"@.len() == 6);
    assert("Frastornamento"@.len() == 14);
    assert("Frastornato"@.len() == 11);
    assert("Freddo"@.len() == 6);
    assert("Freddo (sé stesso e chi lo cavalca)"@.len() == 35);
    assert("Fuoco"@.len() == 5);
    assert("Fuoco Infernale"@.len() == 15);
    assert("Immunità al Freddo"@.len() == 18);
    assert("Immunità alla Magia"@.len() == 19);
    assert("Infermità"@.len() == 9);
    assert("Infermo"@.len() == 7);
    assert("Magia"@.len() == 5);
    assert("Malattia"@.len() == 8);
    assert("Malattie"@.len() == 8);
    assert("Nausea"@.len() == 6);
    assert("Nauseato"@.len() == 8);
    assert("Paralisi"@.len() == 8);
    assert("Paura"@.len() == 5);
    assert("Pietrificazione"@.len() == 15);
    assert("Scosso"@.len() == 6);
    assert("Sonno"@.len() == 5);
    assert("Sonoro"@.len() == 6);
    assert("Sordità"@.len() == 7);
    assert("Spaventato"@.len() == 10);
    assert("Stordimento"@.len() == 11);
    assert("Veleni"@.len() == 6);
    assert("Veleno"@.len() == 6);
    assert("Veleno Ingerito"@.len() == 15);
    assert("acido"@.len() == 5);
    assert("effetti Barcollanti"@.len() == 19);
    assert("effetti di Paura"@.len() == 16);
    assert("effetti di Sonno"@.len() == 16);
    assert("effetti di paura"@.len() == 16);
    assert("effetti di sonno"@.len() == 16);
    assert("elettricità"@.len() == 11);
    assert("energia negativa"@.len() == 16);
    assert("freddo"@.len() == 6);
    assert("fuoco"@.len() == 5);
    assert("malattia"@.len() == 8);
    assert("malattie"@.len() == 8);
    assert("nausea"@.len() == 6);
    assert("paralisi"@.len() == 8);
    assert("paura"@.len() == 5);
    assert("pietrificazione"@.len() == 15);
    assert("sonno"@.len() == 5);
    assert("sonoro"@.len() == 6);
    assert("sordità"@.len() == 7);
    assert("stordimento"@.len() == 11);
    assert("veleni"@.len() == 6);
    assert("veleno"@.len() == 6);
    assert("Colpi Critici"@[0] != "Affaticamento"@[0]);
    assert("Colpi Critici"@ != "Affaticamento"@);
    assert("Colpi Critici"@[0] != "Abbagliamenti"@[0]);
    assert("Colpi Critici"@ != "Abbagliamenti"@);
    assert("Colpi Critici"@[0] != "Abbagliamento"@[0]);
    assert("Colpi Critici"@ != "Abbagliamento"@);
    assert("Colpi critici"@[0] != "Affaticamento"@[0]);
    assert("Colpi critici"@ != "Affaticamento"@);
    assert("Colpi critici"@[0] != "Abbagliamenti"@[0]);
    assert("Colpi critici"@ != "Abbagliamenti"@);
    assert("Colpi critici"@[0] != "Abbagliamento"@[0]);
    assert("Colpi critici"@ != "Abbagliamento"@);
    assert("Colpi critici"@[6] != "Colpi Critici"@[6]);
    assert("Colpi critici"@ != "Colpi Critici"@);
}

proof fn lemma_read_immunity_precision(s: Seq<char>)
    requires
        immunity_named(Immunity_Type::Immunity_Precision, s),
    ensures
        spec_single_immunity(s) == Some(Immunity_Type::Immunity_Precision),
{
    reveal_strlit("Abbagliamenti");
    reveal_strlit("Abbagliamento");
    reveal_strlit("Abbagliato");
    reveal_strlit("Accecato");
    reveal_strlit("Acido");
    reveal_strlit("Affaticamento");
    reveal_strlit("Affaticato");
    reveal_strlit("Assorbimento del Fuoco");
    reveal_strlit("Barcollante");
    reveal_strlit("Barcollare");
    reveal_strlit("Cecità");
    reveal_strlit("Colpi Critici");
    reveal_strlit("Colpi critici");
    reveal_strlit("Condizione Affaticato");
    reveal_strlit("Condizione Esausto");
    reveal_strlit("Confusione");
    reveal_strlit("Effetti di Paura");
    reveal_strlit("Effetti di Sonno");
    reveal_strlit("Effetti di paura");
    reveal_strlit("Effetti di sonno");
    reveal_strlit("Elettricità");
    reveal_strlit("Elettricità (parziale)");
    reveal_strlit("Energia Negativa");
    reveal_strlit("Energia Positiva");
    reveal_strlit("Esaurimento");
    reveal_strlit("Esausto");
    reveal_strlit("Fatica");
    reveal_strlit("Frastornamento");
    reveal_strlit("Frastornato");
    reveal_strlit("Freddo");
    reveal_strlit("Freddo (sé stesso e chi lo cavalca)");
    reveal_strlit("Fuoco");
    reveal_strlit("Fuoco Infernale");
    reveal_strlit("Immunità al Freddo");
    reveal_strlit("Immunità alla Magia");
    reveal_strlit("Infermità");
    reveal_strlit("Infermo");
    reveal_strlit("Magia");
    reveal_strlit("Malattia");
    reveal_strlit("Malattie");
    reveal_strlit("Nausea");
    reveal_strlit("Nauseato");
    reveal_strlit("Paralisi");
    reveal_strlit("Paura");
    reveal_strlit("Pietrificazione");
    reveal_strlit("Scosso");
    reveal_strlit("Sonno");
    reveal_strlit("Sonoro");
    reveal_strlit("Sordità");
    reveal_strlit("Spaventato");
    reveal_strlit("Stordimento");
    reveal_strlit("Veleni");
    reveal_strlit("Veleno");
    reveal_strlit("Veleno Ingerito");
    reveal_strlit("acido");
    reveal_strlit("danni da precisione");
    reveal_strlit("danni di precisione");
    reveal_strlit("danno di precisione");
    reveal_strlit("effetti Barcollanti");
    reveal_strlit("effetti di Paura");
    reveal_strlit("effetti di Sonno");
    reveal_strlit("effetti di paura");
    reveal_strlit("effetti di sonno");
    reveal_strlit("elettricità");
    reveal_strlit("energia negativa");
    reveal_strlit("freddo");
    reveal_strlit("fuoco");
    reveal_strlit("malattia");
    reveal_strlit("malattie");
    reveal_strlit("nausea");
    reveal_strlit("paralisi");
    reveal_strlit("paura");
    reveal_strlit("pietrificazione");
    reveal_strlit("sonno");
    reveal_strlit("sonoro");
    reveal_strlit("sordità");
    reveal_strlit("stordimento");
    reveal_strlit("veleni");
    reveal_strlit("veleno");
    assert("Abbagliamenti"@.len() == 13);
    assert("Abbagliamento"@.len() == 13);
    assert("Abbagliato"@.len() == 10);
    assert("Accecato"@.len() == 8);
    assert("Acido"@.len() == 5);
    assert("Affaticamento"@.len() == 13);
    assert("Affaticato"@.len() == 10);
    assert("Assorbimento del Fuoco"@.len() == 22);
    assert("Barcollante"@.len() == 11);
    assert("Barcollare"@.len() == 10);
    assert("Cecità"@.len() == 6);
    assert("Colpi Critici"@.len() == 13);
    assert("Colpi critici"@.len() == 13);
    assert("Condizione Affaticato"@.len() == 21);
    assert("Condizione Esausto"@.len() == 18);
    assert("Confusione"@.len() == 10);
    assert("Effetti di Paura"@.len() == 16);
    assert("Effetti di Sonno"@.len() == 16);
    assert("Effetti di paura"@.len() == 16);
    assert("Effetti di sonno"@.len() == 16);
    assert("Elettricità"@.len() == 11);
    assert("Elettricità (parziale)"@.len() == 22);
    assert("Energia Negativa"@.len() == 16);
    assert("Energia Positiva"@.len() == 16);
    assert("Esaurimento"@.len() == 11);
    assert("Esausto"@.len() == 7);
    assert("Fatica"@.len() == 6);
    assert("Frastornamento"@.len() == 14);
    assert("Frastornato"@.len() == 11);
    assert("Freddo"@.len() == 6);
    assert("Freddo (sé stesso e chi lo cavalca)"@.len() == 35);
    assert("Fuoco"@.len() == 5);
    assert("Fuoco Infernale"@.len() == 15);
    assert("Immunità al Freddo"@.len() == 18);
    assert("Immunità alla Magia"@.len() == 19);
    assert("Infermità"@.len() == 9);
    assert("Infermo"@.len() == 7);
    assert("Magia"@.len() == 5);
    assert("Malattia"@.len() == 8);
    assert("Malattie"@.len() == 8);
    assert("Nausea"@.len() == 6);
    assert("Nauseato"@.len() == 8);
    assert("Paralisi"@.len() == 8);
    assert("Paura"@.len() == 5);
    assert("Pietrificazione"@.len() == 15);
    assert("Scosso"@.len() == 6);
    assert("Sonno"@.len() == 5);
    assert("Sonoro"@.len() == 6);
    assert("Sordità"@.len() == 7);
    assert("Spaventato"@.len() == 10);
    assert("Stordimento"@.len() == 11);
    assert("Veleni"@.len() == 6);
    assert("Veleno"@.len() == 6);
    assert("Veleno Ingerito"@.len() == 15);
    assert("acido"@.len() == 5);
    assert("danni da precisione"@.len() == 19);
    assert("danni di precisione"@.len() == 19);
    assert("danno di precisione"@.len() == 19);
    assert("effetti Barcollanti"@.len() == 19);
    assert("effetti di Paura"@.len() == 16);
    assert("effetti di Sonno"@.len() == 16);
    assert("effetti di paura"@.len() == 16);
    assert("effetti di sonno"@.len() == 16);
    assert("elettricità"@.len() == 11);
    assert("energia negativa"@.len() == 16);
    assert("freddo"@.len() == 6);
    assert("fuoco"@.len() == 5);
    assert("malattia"@.len() == 8);
    assert("malattie"@.len() == 8);
    assert("nausea"@.len() == 6);
    assert("paralisi"@.len() == 8);
    assert("paura"@.len() == 5);
    assert("pietrificazione"@.len() == 15);
    assert("sonno"@.len() == 5);
    assert("sonoro"@.len() == 6);
    assert("sordità"@.len() == 7);
    assert("stordimento"@.len() == 11);
    assert("veleni"@.len() == 6);
    assert("veleno"@.len() == 6);
    assert("danno di precisione"@[0] != "effetti Barcollanti"@[0]);
    assert("danno di precisione"@ != "effetti Barcollanti"@);
    assert("danno di precisione"@[0] != "Immunità alla Magia"@[0]);
    assert("danno di precisione"@ != "Immunità alla Magia"@);
    assert("danni da precisione"@[0] != "effetti Barcollanti"@[0]);
    assert("danni da precisione"@ != "effetti Barcollanti"@);
    assert("danni da precisione"@[0] != "Immunità alla Magia"@[0]);
    assert("danni da precisione"@ != "Immunità alla Magia"@);
    assert("danni da precisione"@[4] != "danno di precisione"@[4]);
    assert("danni da precisione"@ != "danno di precisione"@);
    assert("danni di precisione"@[0] != "effetti Barcollanti"@[0]);
    assert("danni di precisione"@ != "effetti Barcollanti"@);
    assert("danni di precisione"@[0] != "Immunità alla Magia"@[0]);
    assert("danni di precisione"@ != "Immunità alla Magia"@);
    assert("danni di precisione"@[4] != "danno di precisione"@[4]);
    assert("danni di precisione"@ != "danno di precisione"@);
    assert("danni di precisione"@[7] != "danni da precisione"@[7]);
    assert("danni di precisione"@ != "danni da precisione"@);
}

proof fn lemma_read_immunity_sneakatk(s: Seq<char>)
    requires
        immunity_named(Immunity_Type::Immunity_SneakAtk, s),
    ensures
        spec_single_immunity(s) == Some(Immunity_Type::Immunity_SneakAtk),
{
    reveal_strlit("Abbagliamenti");
    reveal_strlit("Abbagliamento");
    reveal_strlit("Abbagliato");
    reveal_strlit("Accecato");
    reveal_strlit("Acido");
    reveal_strlit("Affaticamento");
    reveal_strlit("Affaticato");
    reveal_strlit("Assorbimento del Fuoco");
    reveal_strlit("Attacchi Furtivi");
    reveal_strlit("Barcollante");
    reveal_strlit("Barcollare");
    reveal_strlit("Cecità");
    reveal_strlit("Colpi Critici");
    reveal_strlit("Colpi critici");
    reveal_strlit("Condizione Affaticato");
    reveal_strlit("Condizione Esausto");
    reveal_strlit("Confusione");
    reveal_strlit("Effetti di Paura");
    reveal_strlit("Effetti di Sonno");
    reveal_strlit("Effetti di paura");
    reveal_strlit("Effetti di sonno");
    reveal_strlit("Elettricità");
    reveal_strlit("Elettricità (parziale)");
    reveal_strlit("Energia Negativa");
    reveal_strlit("Energia Positiva");
    reveal_strlit("Esaurimento");
    reveal_strlit("Esausto");
    reveal_strlit("Fatica");
    reveal_strlit("Frastornamento");
    reveal_strlit("Frastornato");
    reveal_strlit("Freddo");
    reveal_strlit("Freddo (sé stesso e chi lo cavalca)");
    reveal_strlit("Fuoco");
    reveal_strlit("Fuoco Infernale");
    reveal_strlit("Immunità al Freddo");
    reveal_strlit("Immunità alla Magia");
    reveal_strlit("Infermità");
    reveal_strlit("Infermo");
    reveal_strlit("Magia");
    reveal_strlit("Malattia");
    reveal_strlit("Malattie");
    reveal_strlit("Nausea");
    reveal_strlit("Nauseato");
    reveal_strlit("Paralisi");
    reveal_strlit("Paura");
    reveal_strlit("Pietrificazione");
    reveal_strlit("Scosso");
    reveal_strlit("Sonno");
    reveal_strlit("Sonoro");
    reveal_strlit("Sordità");
    reveal_strlit("Spaventato");
    reveal_strlit("Stordimento");
    reveal_strlit("Veleni");
    reveal_strlit("Veleno");
    reveal_strlit("Veleno Ingerito");
    reveal_strlit("acido");
    reveal_strlit("danni da precisione");
    reveal_strlit("danni di precisione");
    reveal_strlit("danno di precisione");
    reveal_strlit("effetti Barcollanti");
    reveal_strlit("effetti di Paura");
    reveal_strlit("effetti di Sonno");
    reveal_strlit("effetti di paura");
    reveal_strlit("effetti di sonno");
    reveal_strlit("elettricità");
    reveal_strlit("energia negativa");
    reveal_strlit("freddo");
    reveal_strlit("fuoco");
    reveal_strlit("malattia");
    reveal_strlit("malattie");
    reveal_strlit("nausea");
    reveal_strlit("paralisi");
    reveal_strlit("paura");
    reveal_strlit("pietrificazione");
    reveal_strlit("sonno");
    reveal_strlit("sonoro");
    reveal_strlit("sordità");
    reveal_strlit("stordimento");
    reveal_strlit("veleni");
    reveal_strlit("veleno");
    assert("Abbagliamenti"@.len() == 13);
    assert("Abbagliamento"@.len() == 13);
    assert("Abbagliato"@.len() == 10);
    assert("Accecato"@.len() == 8);
    assert("Acido"@.len() == 5);
    assert("Affaticamento"@.len() == 13);
    assert("Affaticato"@.len() == 10);
    assert("Assorbimento del Fuoco"@.len() == 22);
    assert("Attacchi Furtivi"@.len() == 16);
    assert("Barcollante"@.len() == 11);
    assert("Barcollare"@.len() == 10);
    assert("Cecità"@.len() == 6);
    assert("Colpi Critici"@.len() == 13);
    assert("Colpi critici"@.len() == 13);
    assert("Condizione Affaticato"@.len() == 21);
    assert("Condizione Esausto"@.len() == 18);
    assert("Confusione"@.len() == 10);
    assert("Effetti di Paura"@.len() == 16);
    assert("Effetti di Sonno"@.len() == 16);
    assert("Effetti di paura"@.len() == 16);
    assert("Effetti di sonno"@.len() == 16);
    assert("Elettricità"@.len() == 11);
    assert("Elettricità (parziale)"@.len() == 22);
    assert("Energia Negativa"@.len() == 16);
    assert("Energia Positiva"@.len() == 16);
    assert("Esaurimento"@.len() == 11);
    assert("Esausto"@.len() == 7);
    assert("Fatica"@.len() == 6);
    assert("Frastornamento"@.len() == 14);
    assert("Frastornato"@.len() == 11);
    assert("Freddo"@.len() == 6);
    assert("Freddo (sé stesso e chi lo cavalca)"@.len() == 35);
    assert("Fuoco"@.len() == 5);
    assert("Fuoco Infernale"@.len() == 15);
    assert("Immunità al Freddo"@.len() == 18);
    assert("Immunità alla Magia"@.len() == 19);
    assert("Infermità"@.len() == 9);
    assert("Infermo"@.len() == 7);
    assert("Magia"@.len() == 5);
    assert("Malattia"@.len() == 8);
    assert("Malattie"@.len() == 8);
    assert("Nausea"@.len() == 6);
    assert("Nauseato"@.len() == 8);
    assert("Paralisi"@.len() == 8);
    assert("Paura"@.len() == 5);
    assert("Pietrificazione"@.len() == 15);
    assert("Scosso"@.len() == 6);
    assert("Sonno"@.len() == 5);
    assert("Sonoro"@.len() == 6);
    assert("Sordità"@.len() == 7);
    assert("Spaventato"@.len() == 10);
    assert("Stordimento"@.len() == 11);
    assert("Veleni"@.len() == 6);
    assert("Veleno"@.len() == 6);
    assert("Veleno Ingerito"@.len() == 15);
    assert("acido"@.len() == 5);
    assert("danni da precisione"@.len() == 19);
    assert("danni di precisione"@.len() == 19);
    assert("danno di precisione"@.len() == 19);
    assert("effetti Barcollanti"@.len() == 19);
    assert("effetti di Paura"@.len() == 16);
    assert("effetti di Sonno"@.len() == 16);
    assert("effetti di paura"@.len() == 16);
    assert("effetti di sonno"@.len() == 16);
    assert("elettricità"@.len() == 11);
    assert("energia negativa"@.len() == 16);
    assert("freddo"@.len() == 6);
    assert("fuoco"@.len() == 5);
    assert("malattia"@.len() == 8);
    assert("malattie"@.len() == 8);
    assert("nausea"@.len() == 6);
    assert("paralisi"@.len() == 8);
    assert("paura"@.len() == 5);
    assert("pietrificazione"@.len() == 15);
    assert("sonno"@.len() == 5);
    assert("sonoro"@.len() == 6);
    assert("sordità"@.len() == 7);
    assert("stordimento"@.len() == 11);
    assert("veleni"@.len() == 6);
    assert("veleno"@.len() == 6);
    assert("Attacchi Furtivi"@[0] != "Energia Negativa"@[0]);
    assert("Attacchi Furtivi"@ != "Energia Negativa"@);
    assert("Attacchi Furtivi"@[0] != "energia negativa"@[0]);
    assert("Attacchi Furtivi"@ != "energia negativa"@);
    assert("Attacchi Furtivi"@[0] != "Energia Positiva"@[0]);
    assert("Attacchi Furtivi"@ != "Energia Positiva"@);
    assert("Attacchi Furtivi"@[0] != "energia negativa"@[0]);
    assert("Attacchi Furtivi"@ != "energia negativa"@);
    assert("Attacchi Furtivi"@[0] != "effetti di sonno"@[0]);
    assert("Attacchi Furtivi"@ != "effetti di sonno"@);
    assert("Attacchi Furtivi"@[0] != "Effetti di Sonno"@[0]);
    assert("Attacchi Furtivi"@ != "Effetti di Sonno"@);
    assert("Attacchi Furtivi"@[0] != "Effetti di sonno"@[0]);
    assert("Attacchi Furtivi"@ != "Effetti di sonno"@);
    assert("Attacchi Furtivi"@[0] != "effetti di Sonno"@[0]);
    assert("Attacchi Furtivi"@ != "effetti di Sonno"@);
    assert("Attacchi Furtivi"@[0] != "Effetti di Paura"@[0]);
    assert("Attacchi Furtivi"@ != "Effetti di Paura"@);
    assert("Attacchi Furtivi"@[0] != "effetti di Paura"@[0]);
    assert("Attacchi Furtivi"@ != "effetti di Paura"@);
    assert("Attacchi Furtivi"@[0] != "effetti di paura"@[0]);
    assert("Attacchi Furtivi"@ != "effetti di paura"@);
    assert("Attacchi Furtivi"@[0] != "Effetti di paura"@[0]);
    assert("Attacchi Furtivi"@ != "Effetti di paura"@);
}

proof fn lemma_read_immunity_gazeatk(s: Seq<char>)
    requires
        immunity_named(Immunity_Type::Immunity_GazeAtk, s),
    ensures
        spec_single_immunity(s) == Some(Immunity_Type::Immunity_GazeAtk),
{
    reveal_strlit("Abbagliamenti");
    reveal_strlit("Abbagliamento");
    reveal_strlit("Abbagliato");
    reveal_strlit("Accecato");
    reveal_strlit("Acido");
    reveal_strlit("Affaticamento");
    reveal_strlit("Affaticato");
    reveal_strlit("Assorbimento del Fuoco");
    reveal_strlit("Attacchi Furtivi");
    reveal_strlit("Attacchi basati sulla vista");
    reveal_strlit("Attacchi basati sulla vista o sguardo");
    reveal_strlit("Attacchi con Sguardo");
    reveal_strlit("Attacchi con lo sguardo");
    reveal_strlit("Attacchi dipendenti dalla vista");
    reveal_strlit("Barcollante");
    reveal_strlit("Barcollare");
    reveal_strlit("Cecità");
    reveal_strlit("Colpi Critici");
    reveal_strlit("Colpi critici");
    reveal_strlit("Condizione Affaticato");
    reveal_strlit("Condizione Esausto");
    reveal_strlit("Confusione");
    reveal_strlit("Effetti di Paura");
    reveal_strlit("Effetti di Sonno");
    reveal_strlit("Effetti di paura");
    reveal_strlit("Effetti di sonno");
    reveal_strlit("Elettricità");
    reveal_strlit("Elettricità (parziale)");
    reveal_strlit("Energia Negativa");
    reveal_strlit("Energia Positiva");
    reveal_strlit("Esaurimento");
    reveal_strlit("Esausto");
    reveal_strlit("Fatica");
    reveal_strlit("Frastornamento");
    reveal_strlit("Frastornato");
    reveal_strlit("Freddo");
    reveal_strlit("Freddo (sé stesso e chi lo cavalca)");
    reveal_strlit("Fuoco");
    reveal_strlit("Fuoco Infernale");
    reveal_strlit("Immunità al Freddo");
    reveal_strlit("Immunità alla Magia");
    reveal_strlit("Infermità");
    reveal_strlit("Infermo");
    reveal_strlit("Magia");
    reveal_strlit("Malattia");
    reveal_strlit("Malattie");
    reveal_strlit("Nausea");
    reveal_strlit("Nauseato");
    reveal_strlit("Paralisi");
    reveal_strlit("Paura");
    reveal_strlit("Pietrificazione");
    reveal_strlit("Scosso");
    reveal_strlit("Sguardo");
    reveal_strlit("Sonno");
    reveal_strlit("Sonoro");
    reveal_strlit("Sordità");
    reveal_strlit("Spaventato");
    reveal_strlit("Stordimento");
    reveal_strlit("Veleni");
    reveal_strlit("Veleno");
    reveal_strlit("Veleno Ingerito");
    reveal_strlit("acido");
    reveal_strlit("attacchi con Sguardo");
    reveal_strlit("attacchi con lo Sguardo");
    reveal_strlit("attacchi con lo sguardo");
    reveal_strlit("danni da precisione");
    reveal_strlit("danni di precisione");
    reveal_strlit("danno di precisione");
    reveal_strlit("effetti Barcollanti");
    reveal_strlit("effetti di Paura");
    reveal_strlit("effetti di Sonno");
    reveal_strlit("effetti di paura");
    reveal_strlit("effetti di sonno");
    reveal_strlit("elettricità");
    reveal_strlit("energia negativa");
    reveal_strlit("freddo");
    reveal_strlit("fuoco");
    reveal_strlit("malattia");
    reveal_strlit("malattie");
    reveal_strlit("nausea");
    reveal_strlit("paralisi");
    reveal_strlit("paura");
    reveal_strlit("pietrificazione");
    reveal_strlit("sonno");
    reveal_strlit("sonoro");
    reveal_strlit("sordità");
    reveal_strlit("stordimento");
    reveal_strlit("veleni");
    reveal_strlit("veleno");
    assert("Abbagliamenti"@.len() == 13);
    assert("Abbagliamento"@.len() == 13);
    assert("Abbagliato"@.len() == 10);
    assert("Accecato"@.len() == 8);
    assert("Acido"@.len() == 5);
    assert("Affaticamento"@.len() == 13);
    assert("Affaticato"@.len() == 10);
    assert("Assorbimento del Fuoco"@.len() == 22);
    assert("Attacchi Furtivi"@.len() == 16);
    assert("Attacchi basati sulla vista"@.len() == 27);
    assert("Attacchi basati sulla vista o sguardo"@.len() == 37);
    assert("Attacchi con Sguardo"@.len() == 20);
    assert("Attacchi con lo sguardo"@.len() == 23);
    assert("Attacchi dipendenti dalla vista"@.len() == 31);
    assert("Barcollante"@.len() == 11);
    assert("Barcollare"@.len() == 10);
    assert("Cecità"@.len() == 6);
    assert("Colpi Critici"@.len() == 13);
    assert("Colpi critici"@.len() == 13);
    assert("Condizione Affaticato"@.len() == 21);
    assert("Condizione Esausto"@.len() == 18);
    assert("Confusione"@.len() == 10);
    assert("Effetti di Paura"@.len() == 16);
    assert("Effetti di Sonno"@.len() == 16);
    assert("Effetti di paura"@.len() == 16);
    assert("Effetti di sonno"@.len() == 16);
    assert("Elettricità"@.len() == 11);
    assert("Elettricità (parziale)"@.len() == 22);
    assert("Energia Negativa"@.len() == 16);
    assert("Energia Positiva"@.len() == 16);
    assert("Esaurimento"@.len() == 11);
    assert("Esausto"@.len() == 7);
    assert("Fatica"@.len() == 6);
    assert("Frastornamento"@.len() == 14);
    assert("Frastornato"@.len() == 11);
    assert("Freddo"@.len() == 6);
    assert("Freddo (sé stesso e chi lo cavalca)"@.len() == 35);
    assert("Fuoco"@.len() == 5);
    assert("Fuoco Infernale"@.len() == 15);
    assert("Immunità al Freddo"@.len() == 18);
    assert("Immunità alla Magia"@.len() == 19);
    assert("Infermità"@.len() == 9);
    assert("Infermo"@.len() == 7);
    assert("Magia"@.len() == 5);
    assert("Malattia"@.len() == 8);
    assert("Malattie"@.len() == 8);
    assert("Nausea"@.len() == 6);
    assert("Nauseato"@.len() == 8);
    assert("Paralisi"@.len() == 8);
    assert("Paura"@.len() == 5);
    assert("Pietrificazione"@.len() == 15);
    assert("Scosso"@.len() == 6);
    assert("Sguardo"@.len() == 7);
    assert("Sonno"@.len() == 5);
    assert("Sonoro"@.len() == 6);
    assert("Sordità"@.len() == 7);
    assert("Spaventato"@.len() == 10);
    assert("Stordimento"@.len() == 11);
    assert("Veleni"@.len() == 6);
    assert("Veleno"@.len() == 6);
    assert("Veleno Ingerito"@.len() == 15);
    assert("acido"@.len() == 5);
    assert("attacchi con Sguardo"@.len() == 20);
    assert("attacchi con lo Sguardo"@.len() == 23);
    assert("attacchi con lo sguardo"@.len() == 23);
    assert("danni da precisione"@.len() == 19);
    assert("danni di precisione"@.len() == 19);
    assert("danno di precisione"@.len() == 19);
    assert("effetti Barcollanti"@.len() == 19);
    assert("effetti di Paura"@.len() == 16);
    assert("effetti di Sonno"@.len() == 16);
    assert("effetti di paura"@.len() == 16);
    assert("effetti di sonno"@.len() == 16);
    assert("elettricità"@.len() == 11);
    assert("energia negativa"@.len() == 16);
    assert("freddo"@.len() == 6);
    assert("fuoco"@.len() == 5);
    assert("malattia"@.len() == 8);
    assert("malattie"@.len() == 8);
    assert("nausea"@.len() == 6);
    assert("paralisi"@.len() == 8);
    assert("paura"@.len() == 5);
    assert("pietrificazione"@.len() == 15);
    assert("sonno"@.len() == 5);
    assert("sonoro"@.len() == 6);
    assert("sordità"@.len() == 7);
    assert("stordimento"@.len() == 11);
    assert("veleni"@.len() == 6);
    assert("veleno"@.len() == 6);
    assert("attacchi con lo Sguardo"@[0] != "Attacchi con lo sguardo"@[0]);
    assert("attacchi con lo Sguardo"@ != "Attacchi con lo sguardo"@);
    assert("attacchi con lo sguardo"@[0] != "Attacchi con lo sguardo"@[0]);
    assert("attacchi con lo sguardo"@ != "Attacchi con lo sguardo"@);
    assert("attacchi con lo sguardo"@[16] != "attacchi con lo Sguardo"@[16]);
    assert("attacchi con lo sguardo"@ != "attacchi con lo Sguardo"@);
    assert("attacchi con Sguardo"@[0] != "Attacchi con Sguardo"@[0]);
    assert("attacchi con Sguardo"@ != "Attacchi con Sguardo"@);
    assert("Sguardo"@[0] != "Esausto"@[0]);
    assert("Sguardo"@ != "Esausto"@);
    assert("Sguardo"@[0] != "Infermo"@[0]);
    assert("Sguardo"@ != "Infermo"@);
    assert("Sguardo"@[1] != "Sordità"@[1]);
    assert("Sguardo"@ != "Sordità"@);
    assert("Sguardo"@[0] != "sordità"@[0]);
    assert("Sguardo"@ != "sordità"@);
}

proof fn lemma_read_immunity_smellatk(s: Seq<char>)
    requires
        immunity_named(Immunity_Type::Immunity_SmellAtk, s),
    ensures
        spec_single_immunity(s) == Some(Immunity_Type::Immunity_SmellAtk),
{
    reveal_strlit("Abbagliamenti");
    reveal_strlit("Abbagliamento");
    reveal_strlit("Abbagliato");
    reveal_strlit("Accecato");
    reveal_strlit("Acido");
    reveal_strlit("Affaticamento");
    reveal_strlit("Affaticato");
    reveal_strlit("Assorbimento del Fuoco");
    reveal_strlit("Attacchi Furtivi");
    reveal_strlit("Attacchi basati sull'olfatto");
    reveal_strlit("Attacchi basati sulla vista");
    reveal_strlit("Attacchi basati sulla vista o sguardo");
    reveal_strlit("Attacchi con Sguardo");
    reveal_strlit("Attacchi con lo sguardo");
    reveal_strlit("Attacchi dipendenti dalla vista");
    reveal_strlit("Barcollante");
    reveal_strlit("Barcollare");
    reveal_strlit("Cecità");
    reveal_strlit("Colpi Critici");
    reveal_strlit("Colpi critici");
    reveal_strlit("Condizione Affaticato");
    reveal_strlit("Condizione Esausto");
    reveal_strlit("Confusione");
    reveal_strlit("Effetti di Paura");
    reveal_strlit("Effetti di Sonno");
    reveal_strlit("Effetti di paura");
    reveal_strlit("Effetti di sonno");
    reveal_strlit("Elettricità");
    reveal_strlit("Elettricità (parziale)");
    reveal_strlit("Energia Negativa");
    reveal_strlit("Energia Positiva");
    reveal_strlit("Esaurimento");
    reveal_strlit("Esausto");
    reveal_strlit("Fatica");
    reveal_strlit("Frastornamento");
    reveal_strlit("Frastornato");
    reveal_strlit("Freddo");
    reveal_strlit("Freddo (sé stesso e chi lo cavalca)");
    reveal_strlit("Fuoco");
    reveal_strlit("Fuoco Infernale");
    reveal_strlit("Immunità al Freddo");
    reveal_strlit("Immunità alla Magia");
    reveal_strlit("Infermità");
    reveal_strlit("Infermo");
    reveal_strlit("Magia");
    reveal_strlit("Malattia");
    reveal_strlit("Malattie");
    reveal_strlit("Nausea");
    reveal_strlit("Nauseato");
    reveal_strlit("Paralisi");
    reveal_strlit("Paura");
    reveal_strlit("Pietrificazione");
    reveal_strlit("Scosso");
    reveal_strlit("Sguardo");
    reveal_strlit("Sonno");
    reveal_strlit("Sonoro");
    reveal_strlit("Sordità");
    reveal_strlit("Spaventato");
    reveal_strlit("Stordimento");
    reveal_strlit("Veleni");
    reveal_strlit("Veleno");
    reveal_strlit("Veleno Ingerito");
    reveal_strlit("acido");
    reveal_strlit("attacchi con Sguardo");
    reveal_strlit("attacchi con lo Sguardo");
    reveal_strlit("attacchi con lo sguardo");
    reveal_strlit("danni da precisione");
    reveal_strlit("danni di precisione");
    reveal_strlit("danno di precisione");
    reveal_strlit("effetti Barcollanti");
    reveal_strlit("effetti di Paura");
    reveal_strlit("effetti di Sonno");
    reveal_strlit("effetti di paura");
    reveal_strlit("effetti di sonno");
    reveal_strlit("elettricità");
    reveal_strlit("energia negativa");
    reveal_strlit("freddo");
    reveal_strlit("fuoco");
    reveal_strlit("malattia");
    reveal_strlit("malattie");
    reveal_strlit("nausea");
    reveal_strlit("paralisi");
    reveal_strlit("paura");
    reveal_strlit("pietrificazione");
    reveal_strlit("sonno");
    reveal_strlit("sonoro");
    reveal_strlit("sordità");
    reveal_strlit("stordimento");
    reveal_strlit("veleni");
    reveal_strlit("veleno");
    assert("Abbagliamenti"@.len() == 13);
    assert("Abbagliamento"@.len() == 13);
    assert("Abbagliato"@.len() == 10);
    assert("Accecato"@.len() == 8);
    assert("Acido"@.len() == 5);
    assert("Affaticamento"@.len() == 13);
    assert("Affaticato"@.len() == 10);
    assert("Assorbimento del Fuoco"@.len() == 22);
    assert("Attacchi Furtivi"@.len() == 16);
    assert("Attacchi basati sull'olfatto"@.len() == 28);
    assert("Attacchi basati sulla vista"@.len() == 27);
    assert("Attacchi basati sulla vista o sguardo"@.len() == 37);
    assert("Attacchi con Sguardo"@.len() == 20);
    assert("Attacchi con lo sguardo"@.len() == 23);
    assert("Attacchi dipendenti dalla vista"@.len() == 31);
    assert("Barcollante"@.len() == 11);
    assert("Barcollare"@.len() == 10);
    assert("Cecità"@.len() == 6);
    assert("Colpi Critici"@.len() == 13);
    assert("Colpi critici"@.len() == 13);
    assert("Condizione Affaticato"@.len() == 21);
    assert("Condizione Esausto"@.len() == 18);
    assert("Confusione"@.len() == 10);
    assert("Effetti di Paura"@.len() == 16);
    assert("Effetti di Sonno"@.len() == 16);
    assert("Effetti di paura"@.len() == 16);
    assert("Effetti di sonno"@.len() == 16);
    assert("Elettricità"@.len() == 11);
    assert("Elettricità (parziale)"@.len() == 22);
    assert("Energia Negativa"@.len() == 16);
    assert("Energia Positiva"@.len() == 16);
    assert("Esaurimento"@.len() == 11);
    assert("Esausto"@.len() == 7);
    assert("Fatica"@.len() == 6);
    assert("Frastornamento"@.len() == 14);
    assert("Frastornato"@.len() == 11);
    assert("Freddo"@.len() == 6);
    assert("Freddo (sé stesso e chi lo cavalca)"@.len() == 35);
    assert("Fuoco"@.len() == 5);
    assert("Fuoco Infernale"@.len() == 15);
    assert("Immunità al Freddo"@.len() == 18);
    assert("Immunità alla Magia"@.len() == 19);
    assert("Infermità"@.len() == 9);
    assert("Infermo"@.len() == 7);
    assert("Magia"@.len() == 5);
    assert("Malattia"@.len() == 8);
    assert("Malattie"@.len() == 8);
    assert("Nausea"@.len() == 6);
    assert("Nauseato"@.len() == 8);
    assert("Paralisi"@.len() == 8);
    assert("Paura"@.len() == 5);
    assert("Pietrificazione"@.len() == 15);
    assert("Scosso"@.len() == 6);
    assert("Sguardo"@.len() == 7);
    assert("Sonno"@.len() == 5);
    assert("Sonoro"@.len() == 6);
    assert("Sordità"@.len() == 7);
    assert("Spaventato"@.len() == 10);
    assert("Stordimento"@.len() == 11);
    assert("Veleni"@.len() == 6);
    assert("Veleno"@.len() == 6);
    assert("Veleno Ingerito"@.len() == 15);
    assert("acido"@.len() == 5);
    assert("attacchi con Sguardo"@.len() == 20);
    assert("attacchi con lo Sguardo"@.len() == 23);
    assert("attacchi con lo sguardo"@.len() == 23);
    assert("danni da precisione"@.len() == 19);
    assert("danni di precisione"@.len() == 19);
    assert("danno di precisione"@.len() == 19);
    assert("effetti Barcollanti"@.len() == 19);
    assert("effetti di Paura"@.len() == 16);
    assert("effetti di Sonno"@.len() == 16);
    assert("effetti di paura"@.len() == 16);
    assert("effetti di sonno"@.len() == 16);
    assert("elettricità"@.len() == 11);
    assert("energia negativa"@.len() == 16);
    assert("freddo"@.len() == 6);
    assert("fuoco"@.len() == 5);
    assert("malattia"@.len() == 8);
    assert("malattie"@.len() == 8);
    assert("nausea"@.len() == 6);
    assert("paralisi"@.len() == 8);
    assert("paura"@.len() == 5);
    assert("pietrificazione"@.len() == 15);
    assert("sonno"@.len() == 5);
    assert("sonoro"@.len() == 6);
    assert("sordità"@.len() == 7);
    assert("stordimento"@.len() == 11);
    assert("veleni"@.len() == 6);
    assert("veleno"@.len() == 6);

}

proof fn lemma_read_immunity_weapondmg(s: Seq<char>)
    requires
        immunity_named(Immunity_Type::Immunity_WeaponDmg, s),
    ensures
        spec_single_immunity(s) == Some(Immunity_Type::Immunity_WeaponDmg),
{
    reveal_strlit("Abbagliamenti");
    reveal_strlit("Abbagliamento");
    reveal_strlit("Abbagliato");
    reveal_strlit("Accecato");
    reveal_strlit("Acido");
    reveal_strlit("Affaticamento");
    reveal_strlit("Affaticato");
    reveal_strlit("Assorbimento del Fuoco");
    reveal_strlit("Attacchi Furtivi");
    reveal_strlit("Attacchi basati sull'olfatto");
    reveal_strlit("Attacchi basati sulla vista");
    reveal_strlit("Attacchi basati sulla vista o sguardo");
    reveal_strlit("Attacchi con Sguardo");
    reveal_strlit("Attacchi con lo sguardo");
    reveal_strlit("Attacchi dipendenti dalla vista");
    reveal_strlit("Barcollante");
    reveal_strlit("Barcollare");
    reveal_strlit("Cecità");
    reveal_strlit("Colpi Critici");
    reveal_strlit("Colpi critici");
    reveal_strlit("Condizione Affaticato");
    reveal_strlit("Condizione Esausto");
    reveal_strlit("Confusione");
    reveal_strlit("Danni da arma");
    reveal_strlit("Danni da armi");
    reveal_strlit("Danni dalle Armi");
    reveal_strlit("Danno da arma");
    reveal_strlit("Effetti di Paura");
    reveal_strlit("Effetti di Sonno");
    reveal_strlit("Effetti di paura");
    reveal_strlit("Effetti di sonno");
    reveal_strlit("Elettricità");
    reveal_strlit("Elettricità (parziale)");
    reveal_strlit("Energia Negativa");
    reveal_strlit("Energia Positiva");
    reveal_strlit("Esaurimento");
    reveal_strlit("Esausto");
    reveal_strlit("Fatica");
    reveal_strlit("Frastornamento");
    reveal_strlit("Frastornato");
    reveal_strlit("Freddo");
    reveal_strlit("Freddo (sé stesso e chi lo cavalca)");
    reveal_strlit("Fuoco");
    reveal_strlit("Fuoco Infernale");
    reveal_strlit("Immunità al Freddo");
    reveal_strlit("Immunità alla Magia");
    reveal_strlit("Infermità");
    reveal_strlit("Infermo");
    reveal_strlit("Magia");
    reveal_strlit("Malattia");
    reveal_strlit("Malattie");
    reveal_strlit("Nausea");
    reveal_strlit("Nauseato");
    reveal_strlit("Paralisi");
    reveal_strlit("Paura");
    reveal_strlit("Pietrificazione");
    reveal_strlit("Scosso");
    reveal_strlit("Sguardo");
    reveal_strlit("Sonno");
    reveal_strlit("Sonoro");
    reveal_strlit("Sordità");
    reveal_strlit("Spaventato");
    reveal_strlit("Stordimento");
    reveal_strlit("Veleni");
    reveal_strlit("Veleno");
    reveal_strlit("Veleno Ingerito");
    reveal_strlit("acido");
    reveal_strlit("attacchi con Sguardo");
    reveal_strlit("attacchi con lo Sguardo");
    reveal_strlit("attacchi con lo sguardo");
    reveal_strlit("danni da arma");
    reveal_strlit("danni da armi");
    reveal_strlit("danni da precisione");
    reveal_strlit("danni delle armi");
    reveal_strlit("danni di precisione");
    reveal_strlit("danno da arma");
    reveal_strlit("danno di precisione");
    reveal_strlit("effetti Barcollanti");
    reveal_strlit("effetti di Paura");
    reveal_strlit("effetti di Sonno");
    reveal_strlit("effetti di paura");
    reveal_strlit("effetti di sonno");
    reveal_strlit("elettricità");
    reveal_strlit("energia negativa");
    reveal_strlit("freddo");
    reveal_strlit("fuoco");
    reveal_strlit("malattia");
    reveal_strlit("malattie");
    reveal_strlit("nausea");
    reveal_strlit("paralisi");
    reveal_strlit("paura");
    reveal_strlit("pietrificazione");
    reveal_strlit("sonno");
    reveal_strlit("sonoro");
    reveal_strlit("sordità");
    reveal_strlit("stordimento");
    reveal_strlit("veleni");
    reveal_strlit("veleno");
    assert("Abbagliamenti"@.len() == 13);
    assert("Abbagliamento"@.len() == 13);
    assert("Abbagliato"@.len() == 10);
    assert("Accecato"@.len() == 8);
    assert("Acido"@.len() == 5);
    assert("Affaticamento"@.len() == 13);
    assert("Affaticato"@.len() == 10);
    assert("Assorbimento del Fuoco"@.len() == 22);
    assert("Attacchi Furtivi"@.len() == 16);
    assert("Attacchi basati sull'olfatto"@.len() == 28);
    assert("Attacchi basati sulla vista"@.len() == 27);
    assert("Attacchi basati sulla vista o sguardo"@.len() == 37);
    assert("Attacchi con Sguardo"@.len() == 20);
    assert("Attacchi con lo sguardo"@.len() == 23);
    assert("Attacchi dipendenti dalla vista"@.len() == 31);
    assert("Barcollante"@.len() == 11);
    assert("Barcollare"@.len() == 10);
    assert("Cecità"@.len() == 6);
    assert("Colpi Critici"@.len() == 13);
    assert("Colpi critici"@.len() == 13);
    assert("Condizione Affaticato"@.len() == 21);
    assert("Condizione Esausto"@.len() == 18);
    assert("Confusione"@.len() == 10);
    assert("Danni da arma"@.len() == 13);
    assert("Danni da armi"@.len() == 13);
    assert("Danni dalle Armi"@.len() == 16);
    assert("Danno da arma"@.len() == 13);
    assert("Effetti di Paura"@.len() == 16);
    assert("Effetti di Sonno"@.len() == 16);
    assert("Effetti di paura"@.len() == 16);
    assert("Effetti di sonno"@.len() == 16);
    assert("Elettricità"@.len() == 11);
    assert("Elettricità (parziale)"@.len() == 22);
    assert("Energia Negativa"@.len() == 16);
    assert("Energia Positiva"@.len() == 16);
    assert("Esaurimento"@.len() == 11);
    assert("Esausto"@.len() == 7);
    assert("Fatica"@.len() == 6);
    assert("Frastornamento"@.len() == 14);
    assert("Frastornato"@.len() == 11);
    assert("Freddo"@.len() == 6);
    assert("Freddo (sé stesso e chi lo cavalca)"@.len() == 35);
    assert("Fuoco"@.len() == 5);
    assert("Fuoco Infernale"@.len() == 15);
    assert("Immunità al Freddo"@.len() == 18);
    assert("Immunità alla Magia"@.len() == 19);
    assert("Infermità"@.len() == 9);
    assert("Infermo"@.len() == 7);
    assert("Magia"@.len() == 5);
    assert("Malattia"@.len() == 8);
    assert("Malattie"@.len() == 8);
    assert("Nausea"@.len() == 6);
    assert("Nauseato"@.len() == 8);
    assert("Paralisi"@.len() == 8);
    assert("Paura"@.len() == 5);
    assert("Pietrificazione"@.len() == 15);
    assert("Scosso"@.len() == 6);
    assert("Sguardo"@.len() == 7);
    assert("Sonno"@.len() == 5);
    assert("Sonoro"@.len() == 6);
    assert("Sordità"@.len() == 7);
    assert("Spaventato"@.len() == 10);
    assert("Stordimento"@.len() == 11);
    assert("Veleni"@.len() == 6);
    assert("Veleno"@.len() == 6);
    assert("Veleno Ingerito"@.len() == 15);
    assert("acido"@.len() == 5);
    assert("attacchi con Sguardo"@.len() == 20);
    assert("attacchi con lo Sguardo"@.len() == 23);
    assert("attacchi con lo sguardo"@.len() == 23);
    assert("danni da arma"@.len() == 13);
    assert("danni da armi"@.len() == 13);
    assert("danni da precisione"@.len() == 19);
    assert("danni delle armi"@.len() == 16);
    assert("danni di precisione"@.len() == 19);
    assert("danno da arma"@.len() == 13);
    assert("danno di precisione"@.len() == 19);
    assert("effetti Barcollanti"@.len() == 19);
    assert("effetti di Paura"@.len() == 16);
    assert("effetti di Sonno"@.len() == 16);
    assert("effetti di paura"@.len() == 16);
    assert("effetti di sonno"@.len() == 16);
    assert("elettricità"@.len() == 11);
    assert("energia negativa"@.len() == 16);
    assert("freddo"@.len() == 6);
    assert("fuoco"@.len() == 5);
    assert("malattia"@.len() == 8);
    assert("malattie"@.len() == 8);
    assert("nausea"@.len() == 6);
    assert("paralisi"@.len() == 8);
    assert("paura"@.len() == 5);
    assert("pietrificazione"@.len() == 15);
    assert("sonno"@.len() == 5);
    assert("sonoro"@.len() == 6);
    assert("sordità"@.len() == 7);
    assert("stordimento"@.len() == 11);
    assert("veleni"@.len() == 6);
    assert("veleno"@.len() == 6);
    assert("Danno da arma"@[0] != "Affaticamento"@[0]);
    assert("Danno da arma"@ != "Affaticamento"@);
    assert("Danno da arma"@[0] != "Abbagliamenti"@[0]);
    assert("Danno da arma"@ != "Abbagliamenti"@);
    assert("Danno da arma"@[0] != "Abbagliamento"@[0]);
    assert("Danno da arma"@ != "Abbagliamento"@);
    assert("Danno da arma"@[0] != "Colpi Critici"@[0]);
    assert("Danno da arma"@ != "Colpi Critici"@);
    assert("Danno da arma"@[0] != "Colpi critici"@[0]);
    assert("Danno da arma"@ != "Colpi critici"@);
    assert("danno da arma"@[0] != "Affaticamento"@[0]);
    assert("danno da arma"@ != "Affaticamento"@);
    assert("danno da arma"@[0] != "Abbagliamenti"@[0]);
    assert("danno da arma"@ != "Abbagliamenti"@);
    assert("danno da arma"@[0] != "Abbagliamento"@[0]);
    assert("danno da arma"@ != "Abbagliamento"@);
    assert("danno da arma"@[0] != "Colpi Critici"@[0]);
    assert("danno da arma"@ != "Colpi Critici"@);
    assert("danno da arma"@[0] != "Colpi critici"@[0]);
    assert("danno da arma"@ != "Colpi critici"@);
    assert("danno da arma"@[0] != "Danno da arma"@[0]);
    assert("danno da arma"@ != "Danno da arma"@);
    assert("Danni da arma"@[0] != "Affaticamento"@[0]);
    assert("Danni da arma"@ != "Affaticamento"@);
    assert("Danni da arma"@[0] != "Abbagliamenti"@[0]);
    assert("Danni da arma"@ != "Abbagliamenti"@);
    assert("Danni da arma"@[0] != "Abbagliamento"@[0]);
    assert("Danni da arma"@ != "Abbagliamento"@);
    assert("Danni da arma"@[0] != "Colpi Critici"@[0]);
    assert("Danni da arma"@ != "Colpi Critici"@);
    assert("Danni da arma"@[0] != "Colpi critici"@[0]);
    assert("Danni da arma"@ != "Colpi critici"@);
    assert("Danni da arma"@[4] != "Danno da arma"@[4]);
    assert("Danni da arma"@ != "Danno da arma"@);
    assert("Danni da arma"@[0] != "danno da arma"@[0]);
    assert("Danni da arma"@ != "danno da arma"@);
    assert("danni da arma"@[0] != "Affaticamento"@[0]);
    assert("danni da arma"@ != "Affaticamento"@);
    assert("danni da arma"@[0] != "Abbagliamenti"@[0]);
    assert("danni da arma"@ != "Abbagliamenti"@);
    assert("danni da arma"@[0] != "Abbagliamento"@[0]);
    assert("danni da arma"@ != "Abbagliamento"@);
    assert("danni da arma"@[0] != "Colpi Critici"@[0]);
    assert("danni da arma"@ != "Colpi Critici"@);
    assert("danni da arma"@[0] != "Colpi critici"@[0]);
    assert("danni da arma"@ != "Colpi critici"@);
    assert("danni da arma"@[0] != "Danno da arma"@[0]);
    assert("danni da arma"@ != "Danno da arma"@);
    assert("danni da arma"@[4] != "danno da arma"@[4]);
    assert("danni da arma"@ != "danno da arma"@);
    assert("danni da arma"@[0] != "Danni da arma"@[0]);
    assert("danni da arma"@ != "Danni da arma"@);
    assert("danni delle armi"@[0] != "Energia Negativa"@[0]);
    assert("danni delle armi"@ != "Energia Negativa"@);
    assert("danni delle armi"@[0] != "energia negativa"@[0]);
    assert("danni delle armi"@ != "energia negativa"@);
    assert("danni delle armi"@[0] != "Energia Positiva"@[0]);
    assert("danni delle armi"@ != "Energia Positiva"@);
    assert("danni delle armi"@[0] != "energia negativa"@[0]);
    assert("danni delle armi"@ != "energia negativa"@);
    assert("danni delle armi"@[0] != "effetti di sonno"@[0]);
    assert("danni delle armi"@ != "effetti di sonno"@);
    assert("danni delle armi"@[0] != "Effetti di Sonno"@[0]);
    assert("danni delle armi"@ != "Effetti di Sonno"@);
    assert("danni delle armi"@[0] != "Effetti di sonno"@[0]);
    assert("danni delle armi"@ != "Effetti di sonno"@);
    assert("danni delle armi"@[0] != "effetti di Sonno"@[0]);
    assert("danni delle armi"@ != "effetti di Sonno"@);
    assert("danni delle armi"@[0] != "Effetti di Paura"@[0]);
    assert("danni delle armi"@ != "Effetti di Paura"@);
    assert("danni delle armi"@[0] != "effetti di Paura"@[0]);
    assert("danni delle armi"@ != "effetti di Paura"@);
    assert("danni delle armi"@[0] != "effetti di paura"@[0]);
    assert("danni delle armi"@ != "effetti di paura"@);
    assert("danni delle armi"@[0] != "Effetti di paura"@[0]);
    assert("danni delle armi"@ != "Effetti di paura"@);
    assert("danni delle armi"@[0] != "Attacchi Furtivi"@[0]);
    assert("danni delle armi"@ != "Attacchi Furtivi"@);
    assert("Danni da armi"@[0] != "Affaticamento"@[0]);
    assert("Danni da armi"@ != "Affaticamento"@);
    assert("Danni da armi"@[0] != "Abbagliamenti"@[0]);
    assert("Danni da armi"@ != "Abbagliamenti"@);
    assert("Danni da armi"@[0] != "Abbagliamento"@[0]);
    assert("Danni da armi"@ != "Abbagliamento"@);
    assert("Danni da armi"@[0] != "Colpi Critici"@[0]);
    assert("Danni da armi"@ != "Colpi Critici"@);
    assert("Danni da armi"@[0] != "Colpi critici"@[0]);
    assert("Danni da armi"@ != "Colpi critici"@);
    assert("Danni da armi"@[4] != "Danno da arma"@[4]);
    assert("Danni da armi"@ != "Danno da arma"@);
    assert("Danni da armi"@[0] != "danno da arma"@[0]);
    assert("Danni da armi"@ != "danno da arma"@);
    assert("Danni da armi"@[12] != "Danni da arma"@[12]);
    assert("Danni da armi"@ != "Danni da arma"@);
    assert("Danni da armi"@[0] != "danni da arma"@[0]);
    assert("Danni da armi"@ != "danni da arma"@);
    assert("danni da armi"@[0] != "Affaticamento"@[0]);
    assert("danni da armi"@ != "Affaticamento"@);
    assert("danni da armi"@[0] != "Abbagliamenti"@[0]);
    assert("danni da armi"@ != "Abbagliamenti"@);
    assert("danni da armi"@[0] != "Abbagliamento"@[0]);
    assert("danni da armi"@ != "Abbagliamento"@);
    assert("danni da armi"@[0] != "Colpi Critici"@[0]);
    assert("danni da armi"@ != "Colpi Critici"@);
    assert("danni da armi"@[0] != "Colpi critici"@[0]);
    assert("danni da armi"@ != "Colpi critici"@);
    assert("danni da armi"@[0] != "Danno da arma"@[0]);
    assert("danni da armi"@ != "Danno da arma"@);
    assert("danni da armi"@[4] != "danno da arma"@[4]);
    assert("danni da armi"@ != "danno da arma"@);
    assert("danni da armi"@[0] != "Danni da arma"@[0]);
    assert("danni da armi"@ != "Danni da arma"@);
    assert("danni da armi"@[12] != "danni da arma"@[12]);
    assert("danni da armi"@ != "danni da arma"@);
    assert("danni da armi"@[0] != "Danni da armi"@[0]);
    assert("danni da armi"@ != "Danni da armi"@);
    assert("Danni dalle Armi"@[0] != "Energia Negativa"@[0]);
    assert("Danni dalle Armi"@ != "Energia Negativa"@);
    assert("Danni dalle Armi"@[0] != "energia negativa"@[0]);
    assert("Danni dalle Armi"@ != "energia negativa"@);
    assert("Danni dalle Armi"@[0] != "Energia Positiva"@[0]);
    assert("Danni dalle Armi"@ != "Energia Positiva"@);
    assert("Danni dalle Armi"@[0] != "energia negativa"@[0]);
    assert("Danni dalle Armi"@ != "energia negativa"@);
    assert("Danni dalle Armi"@[0] != "effetti di sonno"@[0]);
    assert("Danni dalle Armi"@ != "effetti di sonno"@);
    assert("Danni dalle Armi"@[0] != "Effetti di Sonno"@[0]);
    assert("Danni dalle Armi"@ != "Effetti di Sonno"@);
    assert("Danni dalle Armi"@[0] != "Effetti di sonno"@[0]);
    assert("Danni dalle Armi"@ != "Effetti di sonno"@);
    assert("Danni dalle Armi"@[0] != "effetti di Sonno"@[0]);
    assert("Danni dalle Armi"@ != "effetti di Sonno"@);
    assert("Danni dalle Armi"@[0] != "Effetti di Paura"@[0]);
    assert("Danni dalle Armi"@ != "Effetti di Paura"@);
    assert("Danni dalle Armi"@[0] != "effetti di Paura"@[0]);
    assert("Danni dalle Armi"@ != "effetti di Paura"@);
    assert("Danni dalle Armi"@[0] != "effetti di paura"@[0]);
    assert("Danni dalle Armi"@ != "effetti di paura"@);
    assert("Danni dalle Armi"@[0] != "Effetti di paura"@[0]);
    assert("Danni dalle Armi"@ != "Effetti di paura"@);
    assert("Danni dalle Armi"@[0] != "Attacchi Furtivi"@[0]);
    assert("Danni dalle Armi"@ != "Attacchi Furtivi"@);
    assert("Danni dalle Armi"@[0] != "danni delle armi"@[0]);
    assert("Danni dalle Armi"@ != "danni delle armi"@);
}

proof fn lemma_read_immunity_bludgeoning(s: Seq<char>)
    requires
        immunity_named(Immunity_Type::Immunity_Bludgeoning, s),
    ensures
        spec_single_immunity(s) == Some(Immunity_Type::Immunity_Bludgeoning),
{
    reveal_strlit("Abbagliamenti");
    reveal_strlit("Abbagliamento");
    reveal_strlit("Abbagliato");
    reveal_strlit("Accecato");
    reveal_strlit("Acido");
    reveal_strlit("Affaticamento");
    reveal_strlit("Affaticato");
    reveal_strlit("Armi contundenti");
    reveal_strlit("Assorbimento del Fuoco");
    reveal_strlit("Attacchi Furtivi");
    reveal_strlit("Attacchi basati sull'olfatto");
    reveal_strlit("Attacchi basati sulla vista");
    reveal_strlit("Attacchi basati sulla vista o sguardo");
    reveal_strlit("Attacchi con Sguardo");
    reveal_strlit("Attacchi con lo sguardo");
    reveal_strlit("Attacchi dipendenti dalla vista");
    reveal_strlit("Barcollante");
    reveal_strlit("Barcollare");
    reveal_strlit("Cecità");
    reveal_strlit("Colpi Critici");
    reveal_strlit("Colpi critici");
    reveal_strlit("Condizione Affaticato");
    reveal_strlit("Condizione Esausto");
    reveal_strlit("Confusione");
    reveal_strlit("Danni contundenti");
    reveal_strlit("Danni da arma");
    reveal_strlit("Danni da armi");
    reveal_strlit("Danni dalle Armi");
    reveal_strlit("Danno da arma");
    reveal_strlit("Effetti di Paura");
    reveal_strlit("Effetti di Sonno");
    reveal_strlit("Effetti di paura");
    reveal_strlit("Effetti di sonno");
    reveal_strlit("Elettricità");
    reveal_strlit("Elettricità (parziale)");
    reveal_strlit("Energia Negativa");
    reveal_strlit("Energia Positiva");
    reveal_strlit("Esaurimento");
    reveal_strlit("Esausto");
    reveal_strlit("Fatica");
    reveal_strlit("Frastornamento");
    reveal_strlit("Frastornato");
    reveal_strlit("Freddo");
    reveal_strlit("Freddo (sé stesso e chi lo cavalca)");
    reveal_strlit("Fuoco");
    reveal_strlit("Fuoco Infernale");
    reveal_strlit("Immunità al Freddo");
    reveal_strlit("Immunità alla Magia");
    reveal_strlit("Infermità");
    reveal_strlit("Infermo");
    reveal_strlit("Magia");
    reveal_strlit("Malattia");
    reveal_strlit("Malattie");
    reveal_strlit("Nausea");
    reveal_strlit("Nauseato");
    reveal_strlit("Paralisi");
    reveal_strlit("Paura");
    reveal_strlit("Pietrificazione");
    reveal_strlit("Scosso");
    reveal_strlit("Sguardo");
    reveal_strlit("Sonno");
    reveal_strlit("Sonoro");
    reveal_strlit("Sordità");
    reveal_strlit("Spaventato");
    reveal_strlit("Stordimento");
    reveal_strlit("Veleni");
    reveal_strlit("Veleno");
    reveal_strlit("Veleno Ingerito");
    reveal_strlit("acido");
    reveal_strlit("attacchi con Sguardo");
    reveal_strlit("attacchi con lo Sguardo");
    reveal_strlit("attacchi con lo sguardo");
    reveal_strlit("contundente");
    reveal_strlit("danni contundenti");
    reveal_strlit("danni da arma");
    reveal_strlit("danni da armi");
    reveal_strlit("danni da precisione");
    reveal_strlit("danni delle armi");
    reveal_strlit("danni di precisione");
    reveal_strlit("danno da arma");
    reveal_strlit("danno di precisione");
    reveal_strlit("effetti Barcollanti");
    reveal_strlit("effetti di Paura");
    reveal_strlit("effetti di Sonno");
    reveal_strlit("effetti di paura");
    reveal_strlit("effetti di sonno");
    reveal_strlit("elettricità");
    reveal_strlit("energia negativa");
    reveal_strlit("freddo");
    reveal_strlit("fuoco");
    reveal_strlit("malattia");
    reveal_strlit("malattie");
    reveal_strlit("nausea");
    reveal_strlit("paralisi");
    reveal_strlit("paura");
    reveal_strlit("pietrificazione");
    reveal_strlit("sonno");
    reveal_strlit("sonoro");
    reveal_strlit("sordità");
    reveal_strlit("stordimento");
    reveal_strlit("veleni");
    reveal_strlit("veleno");
    assert("Abbagliamenti"@.len() == 13);
    assert("Abbagliamento"@.len() == 13);
    assert("Abbagliato"@.len() == 10);
    assert("Accecato"@.len() == 8);
    assert("Acido"@.len() == 5);
    assert("Affaticamento"@.len() == 13);
    assert("Affaticato"@.len() == 10);
    assert("Armi contundenti"@.len() == 16);
    assert("Assorbimento del Fuoco"@.len() == 22);
    assert("Attacchi Furtivi"@.len() == 16);
    assert("Attacchi basati sull'olfatto"@.len() == 28);
    assert("Attacchi basati sulla vista"@.len() == 27);
    assert("Attacchi basati sulla vista o sguardo"@.len() == 37);
    assert("Attacchi con Sguardo"@.len() == 20);
    assert("Attacchi con lo sguardo"@.len() == 23);
    assert("Attacchi dipendenti dalla vista"@.len() == 31);
    assert("Barcollante"@.len() == 11);
    assert("Barcollare"@.len() == 10);
    assert("Cecità"@.len() == 6);
    assert("Colpi Critici"@.len() == 13);
    assert("Colpi critici"@.len() == 13);
    assert("Condizione Affaticato"@.len() == 21);
    assert("Condizione Esausto"@.len() == 18);
    assert("Confusione"@.len() == 10);
    assert("Danni contundenti"@.len() == 17);
    assert("Danni da arma"@.len() == 13);
    assert("Danni da armi"@.len() == 13);
    assert("Danni dalle Armi"@.len() == 16);
    assert("Danno da arma"@.len() == 13);
    assert("Effetti di Paura"@.len() == 16);
    assert("Effetti di Sonno"@.len() == 16);
    assert("Effetti di paura"@.len() == 16);
    assert("Effetti di sonno"@.len() == 16);
    assert("Elettricità"@.len() == 11);
    assert("Elettricità (parziale)"@.len() == 22);
    assert("Energia Negativa"@.len() == 16);
    assert("Energia Positiva"@.len() == 16);
    assert("Esaurimento"@.len() == 11);
    assert("Esausto"@.len() == 7);
    assert("Fatica"@.len() == 6);
    assert("Frastornamento"@.len() == 14);
    assert("Frastornato"@.len() == 11);
    assert("Freddo"@.len() == 6);
    assert("Freddo (sé stesso e chi lo cavalca)"@.len() == 35);
    assert("Fuoco"@.len() == 5);
    assert("Fuoco Infernale"@.len() == 15);
    assert("Immunità al Freddo"@.len() == 18);
    assert("Immunità alla Magia"@.len() == 19);
    assert("Infermità"@.len() == 9);
    assert("Infermo"@.len() == 7);
    assert("Magia"@.len() == 5);
    assert("Malattia"@.len() == 8);
    assert("Malattie"@.len() == 8);
    assert("Nausea"@.len() == 6);
    assert("Nauseato"@.len() == 8);
    assert("Paralisi"@.len() == 8);
    assert("Paura"@.len() == 5);
    assert("Pietrificazione"@.len() == 15);
    assert("Scosso"@.len() == 6);
    assert("Sguardo"@.len() == 7);
    assert("Sonno"@.len() == 5);
    assert("Sonoro"@.len() == 6);
    assert("Sordità"@.len() == 7);
    assert("Spaventato"@.len() == 10);
    assert("Stordimento"@.len() == 11);
    assert("Veleni"@.len() == 6);
    assert("Veleno"@.len() == 6);
    assert("Veleno Ingerito"@.len() == 15);
    assert("acido"@.len() == 5);
    assert("attacchi con Sguardo"@.len() == 20);
    assert("attacchi con lo Sguardo"@.len() == 23);
    assert("attacchi con lo sguardo"@.len() == 23);
    assert("contundente"@.len() == 11);
    assert("danni contundenti"@.len() == 17);
    assert("danni da arma"@.len() == 13);
    assert("danni da armi"@.len() == 13);
    assert("danni da precisione"@.len() == 19);
    assert("danni delle armi"@.len() == 16);
    assert("danni di precisione"@.len() == 19);
    assert("danno da arma"@.len() == 13);
    assert("danno di precisione"@.len() == 19);
    assert("effetti Barcollanti"@.len() == 19);
    assert("effetti di Paura"@.len() == 16);
    assert("effetti di Sonno"@.len() == 16);
    assert("effetti di paura"@.len() == 16);
    assert("effetti di sonno"@.len() == 16);
    assert("elettricità"@.len() == 11);
    assert("energia negativa"@.len() == 16);
    assert("freddo"@.len() == 6);
    assert("fuoco"@.len() == 5);
    assert("malattia"@.len() == 8);
    assert("malattie"@.len() == 8);
    assert("nausea"@.len() == 6);
    assert("paralisi"@.len() == 8);
    assert("paura"@.len() == 5);
    assert("pietrificazione"@.len() == 15);
    assert("sonno"@.len() == 5);
    assert("sonoro"@.len() == 6);
    assert("sordità"@.len() == 7);
    assert("stordimento"@.len() == 11);
    assert("veleni"@.len() == 6);
    assert("veleno"@.len() == 6);
    assert("Armi contundenti"@[0] != "Energia Negativa"@[0]);
    assert("Armi contundenti"@ != "Energia Negativa"@);
    assert("Armi contundenti"@[0] != "energia negativa"@[0]);
    assert("Armi contundenti"@ != "energia negativa"@);
    assert("Armi contundenti"@[0] != "Energia Positiva"@[0]);
    assert("Armi contundenti"@ != "Energia Positiva"@);
    assert("Armi contundenti"@[0] != "energia negativa"@[0]);
    assert("Armi contundenti"@ != "energia negativa"@);
    assert("Armi contundenti"@[0] != "effetti di sonno"@[0]);
    assert("Armi contundenti"@ != "effetti di sonno"@);
    assert("Armi contundenti"@[0] != "Effetti di Sonno"@[0]);
    assert("Armi contundenti"@ != "Effetti di Sonno"@);
    assert("Armi contundenti"@[0] != "Effetti di sonno"@[0]);
    assert("Armi contundenti"@ != "Effetti di sonno"@);
    assert("Armi contundenti"@[0] != "effetti di Sonno"@[0]);
    assert("Armi contundenti"@ != "effetti di Sonno"@);
    assert("Armi contundenti"@[0] != "Effetti di Paura"@[0]);
    assert("Armi contundenti"@ != "Effetti di Paura"@);
    assert("Armi contundenti"@[0] != "effetti di Paura"@[0]);
    assert("Armi contundenti"@ != "effetti di Paura"@);
    assert("Armi contundenti"@[0] != "effetti di paura"@[0]);
    assert("Armi contundenti"@ != "effetti di paura"@);
    assert("Armi contundenti"@[0] != "Effetti di paura"@[0]);
    assert("Armi contundenti"@ != "Effetti di paura"@);
    assert("Armi contundenti"@[1] != "Attacchi Furtivi"@[1]);
    assert("Armi contundenti"@ != "Attacchi Furtivi"@);
    assert("Armi contundenti"@[0] != "danni delle armi"@[0]);
    assert("Armi contundenti"@ != "danni delle armi"@);
    assert("Armi contundenti"@[0] != "Danni dalle Armi"@[0]);
    assert("Armi contundenti"@ != "Danni dalle Armi"@);
    assert("contundente"@[0] != "Elettricità"@[0]);
    assert("contundente"@ != "Elettricità"@);
    assert("contundente"@[0] != "elettricità"@[0]);
    assert("contundente"@ != "elettricità"@);
    assert("contundente"@[0] != "Esaurimento"@[0]);
    assert("contundente"@ != "Esaurimento"@);
    assert("contundente"@[0] != "Stordimento"@[0]);
    assert("contundente"@ != "Stordimento"@);
    assert("contundente"@[0] != "stordimento"@[0]);
    assert("contundente"@ != "stordimento"@);
    assert("contundente"@[0] != "Frastornato"@[0]);
    assert("contundente"@ != "Frastornato"@);
    assert("contundente"@[0] != "Barcollante"@[0]);
    assert("contundente"@ != "Barcollante"@);
    assert("danni contundenti"@[0] != "Danni contundenti"@[0]);
    assert("danni contundenti"@ != "Danni contundenti"@);
}

proof fn lemma_read_immunity_bludgeoningandpiercing(s: Seq<char>)
    requires
        immunity_named(Immunity_Type::Immunity_BludgeoningAndPiercing, s),
    ensures
        spec_single_immunity(s) == Some(Immunity_Type::Immunity_BludgeoningAndPiercing),
{
    reveal_strlit("Abbagliamenti");
    reveal_strlit("Abbagliamento");
    reveal_strlit("Abbagliato");
    reveal_strlit("Accecato");
    reveal_strlit("Acido");
    reveal_strlit("Affaticamento");
    reveal_strlit("Affaticato");
    reveal_strlit("Armi contundenti");
    reveal_strlit("Assorbimento del Fuoco");
    reveal_strlit("Attacchi Furtivi");
    reveal_strlit("Attacchi basati sull'olfatto");
    reveal_strlit("Attacchi basati sulla vista");
    reveal_strlit("Attacchi basati sulla vista o sguardo");
    reveal_strlit("Attacchi con Sguardo");
    reveal_strlit("Attacchi con lo sguardo");
    reveal_strlit("Attacchi dipendenti dalla vista");
    reveal_strlit("Barcollante");
    reveal_strlit("Barcollare");
    reveal_strlit("Cecità");
    reveal_strlit("Colpi Critici");
    reveal_strlit("Colpi critici");
    reveal_strlit("Condizione Affaticato");
    reveal_strlit("Condizione Esausto");
    reveal_strlit("Confusione");
    reveal_strlit("Danni contundenti");
    reveal_strlit("Danni da arma");
    reveal_strlit("Danni da armi");
    reveal_strlit("Danni dalle Armi");
    reveal_strlit("Danno da arma");
    reveal_strlit("Effetti di Paura");
    reveal_strlit("Effetti di Sonno");
    reveal_strlit("Effetti di paura");
    reveal_strlit("Effetti di sonno");
    reveal_strlit("Elettricità");
    reveal_strlit("Elettricità (parziale)");
    reveal_strlit("Energia Negativa");
    reveal_strlit("Energia Positiva");
    reveal_strlit("Esaurimento");
    reveal_strlit("Esausto");
    reveal_strlit("Fatica");
    reveal_strlit("Frastornamento");
    reveal_strlit("Frastornato");
    reveal_strlit("Freddo");
    reveal_strlit("Freddo (sé stesso e chi lo cavalca)");
    reveal_strlit("Fuoco");
    reveal_strlit("Fuoco Infernale");
    reveal_strlit("Immunità al Freddo");
    reveal_strlit("Immunità alla Magia");
    reveal_strlit("Infermità");
    reveal_strlit("Infermo");
    reveal_strlit("Magia");
    reveal_strlit("Malattia");
    reveal_strlit("Malattie");
    reveal_strlit("Nausea");
    reveal_strlit("Nauseato");
    reveal_strlit("Paralisi");
    reveal_strlit("Paura");
    reveal_strlit("Pietrificazione");
    reveal_strlit("Scosso");
    reveal_strlit("Sguardo");
    reveal_strlit("Sonno");
    reveal_strlit("Sonoro");
    reveal_strlit("Sordità");
    reveal_strlit("Spaventato");
    reveal_strlit("Stordimento");
    reveal_strlit("Veleni");
    reveal_strlit("Veleno");
    reveal_strlit("Veleno Ingerito");
    reveal_strlit("acido");
    reveal_strlit("attacchi con Sguardo");
    reveal_strlit("attacchi con lo Sguardo");
    reveal_strlit("attacchi con lo sguardo");
    reveal_strlit("contundente");
    reveal_strlit("danni contundenti");
    reveal_strlit("danni contundenti e perforanti");
    reveal_strlit("danni da arma");
    reveal_strlit("danni da armi");
    reveal_strlit("danni da precisione");
    reveal_strlit("danni delle armi");
    reveal_strlit("danni di precisione");
    reveal_strlit("danno da arma");
    reveal_strlit("danno di precisione");
    reveal_strlit("effetti Barcollanti");
    reveal_strlit("effetti di Paura");
    reveal_strlit("effetti di Sonno");
    reveal_strlit("effetti di paura");
    reveal_strlit("effetti di sonno");
    reveal_strlit("elettricità");
    reveal_strlit("energia negativa");
    reveal_strlit("freddo");
    reveal_strlit("fuoco");
    reveal_strlit("malattia");
    reveal_strlit("malattie");
    reveal_strlit("nausea");
    reveal_strlit("paralisi");
    reveal_strlit("paura");
    reveal_strlit("pietrificazione");
    reveal_strlit("sonno");
    reveal_strlit("sonoro");
    reveal_strlit("sordità");
    reveal_strlit("stordimento");
    reveal_strlit("veleni");
    reveal_strlit("veleno");
    assert("Abbagliamenti"@.len() == 13);
    assert("Abbagliamento"@.len() == 13);
    assert("Abbagliato"@.len() == 10);
    assert("Accecato"@.len() == 8);
    assert("Acido"@.len() == 5);
    assert("Affaticamento"@.len() == 13);
    assert("Affaticato"@.len() == 10);
    assert("Armi contundenti"@.len() == 16);
    assert("Assorbimento del Fuoco"@.len() == 22);
    assert("Attacchi Furtivi"@.len() == 16);
    assert("Attacchi basati sull'olfatto"@.len() == 28);
    assert("Attacchi basati sulla vista"@.len() == 27);
    assert("Attacchi basati sulla vista o sguardo"@.len() == 37);
    assert("Attacchi con Sguardo"@.len() == 20);
    assert("Attacchi con lo sguardo"@.len() == 23);
    assert("Attacchi dipendenti dalla vista"@.len() == 31);
    assert("Barcollante"@.len() == 11);
    assert("Barcollare"@.len() == 10);
    assert("Cecità"@.len() == 6);
    assert("Colpi Critici"@.len() == 13);
    assert("Colpi critici"@.len() == 13);
    assert("Condizione Affaticato"@.len() == 21);
    assert("Condizione Esausto"@.len() == 18);
    assert("Confusione"@.len() == 10);
    assert("Danni contundenti"@.len() == 17);
    assert("Danni da arma"@.len() == 13);
    assert("Danni da armi"@.len() == 13);
    assert("Danni dalle Armi"@.len() == 16);
    assert("Danno da arma"@.len() == 13);
    assert("Effetti di Paura"@.len() == 16);
    assert("Effetti di Sonno"@.len() == 16);
    assert("Effetti di paura"@.len() == 16);
    assert("Effetti di sonno"@.len() == 16);
    assert("Elettricità"@.len() == 11);
    assert("Elettricità (parziale)"@.len() == 22);
    assert("Energia Negativa"@.len() == 16);
    assert("Energia Positiva"@.len() == 16);
    assert("Esaurimento"@.len() == 11);
    assert("Esausto"@.len() == 7);
    assert("Fatica"@.len() == 6);
    assert("Frastornamento"@.len() == 14);
    assert("Frastornato"@.len() == 11);
    assert("Freddo"@.len() == 6);
    assert("Freddo (sé stesso e chi lo cavalca)"@.len() == 35);
    assert("Fuoco"@.len() == 5);
    assert("Fuoco Infernale"@.len() == 15);
    assert("Immunità al Freddo"@.len() == 18);
    assert("Immunità alla Magia"@.len() == 19);
    assert("Infermità"@.len() == 9);
    assert("Infermo"@.len() == 7);
    assert("Magia"@.len() == 5);
    assert("Malattia"@.len() == 8);
    assert("Malattie"@.len() == 8);
    assert("Nausea"@.len() == 6);
    assert("Nauseato"@.len() == 8);
    assert("Paralisi"@.len() == 8);
    assert("Paura"@.len() == 5);
    assert("Pietrificazione"@.len() == 15);
    assert("Scosso"@.len() == 6);
    assert("Sguardo"@.len() == 7);
    assert("Sonno"@.len() == 5);
    assert("Sonoro"@.len() == 6);
    assert("Sordità"@.len() == 7);
    assert("Spaventato"@.len() == 10);
    assert("Stordimento"@.len() == 11);
    assert("Veleni"@.len() == 6);
    assert("Veleno"@.len() == 6);
    assert("Veleno Ingerito"@.len() == 15);
    assert("acido"@.len() == 5);
    assert("attacchi con Sguardo"@.len() == 20);
    assert("attacchi con lo Sguardo"@.len() == 23);
    assert("attacchi con lo sguardo"@.len() == 23);
    assert("contundente"@.len() == 11);
    assert("danni contundenti"@.len() == 17);
    assert("danni contundenti e perforanti"@.len() == 30);
    assert("danni da arma"@.len() == 13);
    assert("danni da armi"@.len() == 13);
    assert("danni da precisione"@.len() == 19);
    assert("danni delle armi"@.len() == 16);
    assert("danni di precisione"@.len() == 19);
    assert("danno da arma"@.len() == 13);
    assert("danno di precisione"@.len() == 19);
    assert("effetti Barcollanti"@.len() == 19);
    assert("effetti di Paura"@.len() == 16);
    assert("effetti di Sonno"@.len() == 16);
    assert("effetti di paura"@.len() == 16);
    assert("effetti di sonno"@.len() == 16);
    assert("elettricità"@.len() == 11);
    assert("energia negativa"@.len() == 16);
    assert("freddo"@.len() == 6);
    assert("fuoco"@.len() == 5);
    assert("malattia"@.len() == 8);
    assert("malattie"@.len() == 8);
    assert("nausea"@.len() == 6);
    assert("paralisi"@.len() == 8);
    assert("paura"@.len() == 5);
    assert("pietrificazione"@.len() == 15);
    assert("sonno"@.len() == 5);
    assert("sonoro"@.len() == 6);
    assert("sordità"@.len() == 7);
    assert("stordimento"@.len() == 11);
    assert("veleni"@.len() == 6);
    assert("veleno"@.len() == 6);

}

proof fn lemma_read_immunity_piercingandslashing(s: Seq<char>)
    requires
        immunity_named(Immunity_Type::Immunity_PiercingAndSlashing, s),
    ensures
        spec_single_immunity(s) == Some(Immunity_Type::Immunity_PiercingAndSlashing),
{
    reveal_strlit("Abbagliamenti");
    reveal_strlit("Abbagliamento");
    reveal_strlit("Abbagliato");
    reveal_strlit("Accecato");
    reveal_strlit("Acido");
    reveal_strlit("Affaticamento");
    reveal_strlit("Affaticato");
    reveal_strlit("Armi contundenti");
    reveal_strlit("Assorbimento del Fuoco");
    reveal_strlit("Attacchi Furtivi");
    reveal_strlit("Attacchi basati sull'olfatto");
    reveal_strlit("Attacchi basati sulla vista");
    reveal_strlit("Attacchi basati sulla vista o sguardo");
    reveal_strlit("Attacchi con Sguardo");
    reveal_strlit("Attacchi con lo sguardo");
    reveal_strlit("Attacchi dipendenti dalla vista");
    reveal_strlit("Barcollante");
    reveal_strlit("Barcollare");
    reveal_strlit("Cecità");
    reveal_strlit("Colpi Critici");
    reveal_strlit("Colpi critici");
    reveal_strlit("Condizione Affaticato");
    reveal_strlit("Condizione Esausto");
    reveal_strlit("Confusione");
    reveal_strlit("Danni contundenti");
    reveal_strlit("Danni da arma");
    reveal_strlit("Danni da armi");
    reveal_strlit("Danni dalle Armi");
    reveal_strlit("Danni perforanti e taglienti");
    reveal_strlit("Danno da arma");
    reveal_strlit("Effetti di Paura");
    reveal_strlit("Effetti di Sonno");
    reveal_strlit("Effetti di paura");
    reveal_strlit("Effetti di sonno");
    reveal_strlit("Elettricità");
    reveal_strlit("Elettricità (parziale)");
    reveal_strlit("Energia Negativa");
    reveal_strlit("Energia Positiva");
    reveal_strlit("Esaurimento");
    reveal_strlit("Esausto");
    reveal_strlit("Fatica");
    reveal_strlit("Frastornamento");
    reveal_strlit("Frastornato");
    reveal_strlit("Freddo");
    reveal_strlit("Freddo (sé stesso e chi lo cavalca)");
    reveal_strlit("Fuoco");
    reveal_strlit("Fuoco Infernale");
    reveal_strlit("Immunità al Freddo");
    reveal_strlit("Immunità alla Magia");
    reveal_strlit("Infermità");
    reveal_strlit("Infermo");
    reveal_strlit("Magia");
    reveal_strlit("Malattia");
    reveal_strlit("Malattie");
    reveal_strlit("Nausea");
    reveal_strlit("Nauseato");
    reveal_strlit("Paralisi");
    reveal_strlit("Paura");
    reveal_strlit("Pietrificazione");
    reveal_strlit("Scosso");
    reveal_strlit("Sguardo");
    reveal_strlit("Sonno");
    reveal_strlit("Sonoro");
    reveal_strlit("Sordità");
    reveal_strlit("Spaventato");
    reveal_strlit("Stordimento");
    reveal_strlit("Veleni");
    reveal_strlit("Veleno");
    reveal_strlit("Veleno Ingerito");
    reveal_strlit("acido");
    reveal_strlit("attacchi con Sguardo");
    reveal_strlit("attacchi con lo Sguardo");
    reveal_strlit("attacchi con lo sguardo");
    reveal_strlit("contundente");
    reveal_strlit("danni contundenti");
    reveal_strlit("danni contundenti e perforanti");
    reveal_strlit("danni da arma");
    reveal_strlit("danni da armi");
    reveal_strlit("danni da precisione");
    reveal_strlit("danni delle armi");
    reveal_strlit("danni di precisione");
    reveal_strlit("danni taglienti e perforanti");
    reveal_strlit("danno da arma");
    reveal_strlit("danno di precisione");
    reveal_strlit("effetti Barcollanti");
    reveal_strlit("effetti di Paura");
    reveal_strlit("effetti di Sonno");
    reveal_strlit("effetti di paura");
    reveal_strlit("effetti di sonno");
    reveal_strlit("elettricità");
    reveal_strlit("energia negativa");
    reveal_strlit("freddo");
    reveal_strlit("fuoco");
    reveal_strlit("malattia");
    reveal_strlit("malattie");
    reveal_strlit("nausea");
    reveal_strlit("paralisi");
    reveal_strlit("paura");
    reveal_strlit("pietrificazione");
    reveal_strlit("sonno");
    reveal_strlit("sonoro");
    reveal_strlit("sordità");
    reveal_strlit("stordimento");
    reveal_strlit("veleni");
    reveal_strlit("veleno");
    assert("Abbagliamenti"@.len() == 13);
    assert("Abbagliamento"@.len() == 13);
    assert("Abbagliato"@.len() == 10);
    assert("Accecato"@.len() == 8);
    assert("Acido"@.len() == 5);
    assert("Affaticamento"@.len() == 13);
    assert("Affaticato"@.len() == 10);
    assert("Armi contundenti"@.len() == 16);
    assert("Assorbimento del Fuoco"@.len() == 22);
    assert("Attacchi Furtivi"@.len() == 16);
    assert("Attacchi basati sull'olfatto"@.len() == 28);
    assert("Attacchi basati sulla vista"@.len() == 27);
    assert("Attacchi basati sulla vista o sguardo"@.len() == 37);
    assert("Attacchi con Sguardo"@.len() == 20);
    assert("Attacchi con lo sguardo"@.len() == 23);
    assert("Attacchi dipendenti dalla vista"@.len() == 31);
    assert("Barcollante"@.len() == 11);
    assert("Barcollare"@.len() == 10);
    assert("Cecità"@.len() == 6);
    assert("Colpi Critici"@.len() == 13);
    assert("Colpi critici"@.len() == 13);
    assert("Condizione Affaticato"@.len() == 21);
    assert("Condizione Esausto"@.len() == 18);
    assert("Confusione"@.len() == 10);
    assert("Danni contundenti"@.len() == 17);
    assert("Danni da arma"@.len() == 13);
    assert("Danni da armi"@.len() == 13);
    assert("Danni dalle Armi"@.len() == 16);
    assert("Danni perforanti e taglienti"@.len() == 28);
    assert("Danno da arma"@.len() == 13);
    assert("Effetti di Paura"@.len() == 16);
    assert("Effetti di Sonno"@.len() == 16);
    assert("Effetti di paura"@.len() == 16);
    assert("Effetti di sonno"@.len() == 16);
    assert("Elettricità"@.len() == 11);
    assert("Elettricità (parziale)"@.len() == 22);
    assert("Energia Negativa"@.len() == 16);
    assert("Energia Positiva"@.len() == 16);
    assert("Esaurimento"@.len() == 11);
    assert("Esausto"@.len() == 7);
    assert("Fatica"@.len() == 6);
    assert("Frastornamento"@.len() == 14);
    assert("Frastornato"@.len() == 11);
    assert("Freddo"@.len() == 6);
    assert("Freddo (sé stesso e chi lo cavalca)"@.len() == 35);
    assert("Fuoco"@.len() == 5);
    assert("Fuoco Infernale"@.len() == 15);
    assert("Immunità al Freddo"@.len() == 18);
    assert("Immunità alla Magia"@.len() == 19);
    assert("Infermità"@.len() == 9);
    assert("Infermo"@.len() == 7);
    assert("Magia"@.len() == 5);
    assert("Malattia"@.len() == 8);
    assert("Malattie"@.len() == 8);
    assert("Nausea"@.len() == 6);
    assert("Nauseato"@.len() == 8);
    assert("Paralisi"@.len() == 8);
    assert("Paura"@.len() == 5);
    assert("Pietrificazione"@.len() == 15);
    assert("Scosso"@.len() == 6);
    assert("Sguardo"@.len() == 7);
    assert("Sonno"@.len() == 5);
    assert("Sonoro"@.len() == 6);
    assert("Sordità"@.len() == 7);
    assert("Spaventato"@.len() == 10);
    assert("Stordimento"@.len() == 11);
    assert("Veleni"@.len() == 6);
    assert("Veleno"@.len() == 6);
    assert("Veleno Ingerito"@.len() == 15);
    assert("acido"@.len() == 5);
    assert("attacchi con Sguardo"@.len() == 20);
    assert("attacchi con lo Sguardo"@.len() == 23);
    assert("attacchi con lo sguardo"@.len() == 23);
    assert("contundente"@.len() == 11);
    assert("danni contundenti"@.len() == 17);
    assert("danni contundenti e perforanti"@.len() == 30);
    assert("danni da arma"@.len() == 13);
    assert("danni da armi"@.len() == 13);
    assert("danni da precisione"@.len() == 19);
    assert("danni delle armi"@.len() == 16);
    assert("danni di precisione"@.len() == 19);
    assert("danni taglienti e perforanti"@.len() == 28);
    assert("danno da arma"@.len() == 13);
    assert("danno di precisione"@.len() == 19);
    assert("effetti Barcollanti"@.len() == 19);
    assert("effetti di Paura"@.len() == 16);
    assert("effetti di Sonno"@.len() == 16);
    assert("effetti di paura"@.len() == 16);
    assert("effetti di sonno"@.len() == 16);
    assert("elettricità"@.len() == 11);
    assert("energia negativa"@.len() == 16);
    assert("freddo"@.len() == 6);
    assert("fuoco"@.len() == 5);
    assert("malattia"@.len() == 8);
    assert("malattie"@.len() == 8);
    assert("nausea"@.len() == 6);
    assert("paralisi"@.len() == 8);
    assert("paura"@.len() == 5);
    assert("pietrificazione"@.len() == 15);
    assert("sonno"@.len() == 5);
    assert("sonoro"@.len() == 6);
    assert("sordità"@.len() == 7);
    assert("stordimento"@.len() == 11);
    assert("veleni"@.len() == 6);
    assert("veleno"@.len() == 6);
    assert("Danni perforanti e taglienti"@[0] != "Attacchi basati sull'olfatto"@[0]);
    assert("Danni perforanti e taglienti"@ != "Attacchi basati sull'olfatto"@);
    assert("danni taglienti e perforanti"@[0] != "Attacchi basati sull'olfatto"@[0]);
    assert("danni taglienti e perforanti"@ != "Attacchi basati sull'olfatto"@);
    assert("danni taglienti e perforanti"@[0] != "Danni perforanti e taglienti"@[0]);
    assert("danni taglienti e perforanti"@ != "Danni perforanti e taglienti"@);
}

proof fn lemma_read_immunity_piercing(s: Seq<char>)
    requires
        immunity_named(Immunity_Type::Immunity_Piercing, s),
    ensures
        spec_single_immunity(s) == Some(Immunity_Type::Immunity_Piercing),
{
    reveal_strlit("Abbagliamenti");
    reveal_strlit("Abbagliamento");
    reveal_strlit("Abbagliato");
    reveal_strlit("Accecato");
    reveal_strlit("Acido");
    reveal_strlit("Affaticamento");
    reveal_strlit("Affaticato");
    reveal_strlit("Armi contundenti");
    reveal_strlit("Assorbimento del Fuoco");
    reveal_strlit("Attacchi Furtivi");
    reveal_strlit("Attacchi basati sull'olfatto");
    reveal_strlit("Attacchi basati sulla vista");
    reveal_strlit("Attacchi basati sulla vista o sguardo");
    reveal_strlit("Attacchi con Sguardo");
    reveal_strlit("Attacchi con lo sguardo");
    reveal_strlit("Attacchi dipendenti dalla vista");
    reveal_strlit("Barcollante");
    reveal_strlit("Barcollare");
    reveal_strlit("Cecità");
    reveal_strlit("Colpi Critici");
    reveal_strlit("Colpi critici");
    reveal_strlit("Condizione Affaticato");
    reveal_strlit("Condizione Esausto");
    reveal_strlit("Confusione");
    reveal_strlit("Danni contundenti");
    reveal_strlit("Danni da arma");
    reveal_strlit("Danni da armi");
    reveal_strlit("Danni dalle Armi");
    reveal_strlit("Danni perforanti e taglienti");
    reveal_strlit("Danno da arma");
    reveal_strlit("Effetti di Paura");
    reveal_strlit("Effetti di Sonno");
    reveal_strlit("Effetti di paura");
    reveal_strlit("Effetti di sonno");
    reveal_strlit("Elettricità");
    reveal_strlit("Elettricità (parziale)");
    reveal_strlit("Energia Negativa");
    reveal_strlit("Energia Positiva");
    reveal_strlit("Esaurimento");
    reveal_strlit("Esausto");
    reveal_strlit("Fatica");
    reveal_strlit("Frastornamento");
    reveal_strlit("Frastornato");
    reveal_strlit("Freddo");
    reveal_strlit("Freddo (sé stesso e chi lo cavalca)");
    reveal_strlit("Fuoco");
    reveal_strlit("Fuoco Infernale");
    reveal_strlit("Immunità al Freddo");
    reveal_strlit("Immunità alla Magia");
    reveal_strlit("Infermità");
    reveal_strlit("Infermo");
    reveal_strlit("Magia");
    reveal_strlit("Malattia");
    reveal_strlit("Malattie");
    reveal_strlit("Nausea");
    reveal_strlit("Nauseato");
    reveal_strlit("Paralisi");
    reveal_strlit("Paura");
    reveal_strlit("Pietrificazione");
    reveal_strlit("Scosso");
    reveal_strlit("Sguardo");
    reveal_strlit("Sonno");
    reveal_strlit("Sonoro");
    reveal_strlit("Sordità");
    reveal_strlit("Spaventato");
    reveal_strlit("Stordimento");
    reveal_strlit("Veleni");
    reveal_strlit("Veleno");
    reveal_strlit("Veleno Ingerito");
    reveal_strlit("acido");
    reveal_strlit("attacchi con Sguardo");
    reveal_strlit("attacchi con lo Sguardo");
    reveal_strlit("attacchi con lo sguardo");
    reveal_strlit("contundente");
    reveal_strlit("danni contundenti");
    reveal_strlit("danni contundenti e perforanti");
    reveal_strlit("danni da arma");
    reveal_strlit("danni da armi");
    reveal_strlit("danni da precisione");
    reveal_strlit("danni delle armi");
    reveal_strlit("danni di precisione");
    reveal_strlit("danni perforanti");
    reveal_strlit("danni taglienti e perforanti");
    reveal_strlit("danno da arma");
    reveal_strlit("danno di precisione");
    reveal_strlit("effetti Barcollanti");
    reveal_strlit("effetti di Paura");
    reveal_strlit("effetti di Sonno");
    reveal_strlit("effetti di paura");
    reveal_strlit("effetti di sonno");
    reveal_strlit("elettricità");
    reveal_strlit("energia negativa");
    reveal_strlit("freddo");
    reveal_strlit("fuoco");
    reveal_strlit("malattia");
    reveal_strlit("malattie");
    reveal_strlit("nausea");
    reveal_strlit("paralisi");
    reveal_strlit("paura");
    reveal_strlit("pietrificazione");
    reveal_strlit("sonno");
    reveal_strlit("sonoro");
    reveal_strlit("sordità");
    reveal_strlit("stordimento");
    reveal_strlit("veleni");
    reveal_strlit("veleno");
    assert("Abbagliamenti"@.len() == 13);
    assert("Abbagliamento"@.len() == 13);
    assert("Abbagliato"@.len() == 10);
    assert("Accecato"@.len() == 8);
    assert("Acido"@.len() == 5);
    assert("Affaticamento"@.len() == 13);
    assert("Affaticato"@.len() == 10);
    assert("Armi contundenti"@.len() == 16);
    assert("Assorbimento del Fuoco"@.len() == 22);
    assert("Attacchi Furtivi"@.len() == 16);
    assert("Attacchi basati sull'olfatto"@.len() == 28);
    assert("Attacchi basati sulla vista"@.len() == 27);
    assert("Attacchi basati sulla vista o sguardo"@.len() == 37);
    assert("Attacchi con Sguardo"@.len() == 20);
    assert("Attacchi con lo sguardo"@.len() == 23);
    assert("Attacchi dipendenti dalla vista"@.len() == 31);
    assert("Barcollante"@.len() == 11);
    assert("Barcollare"@.len() == 10);
    assert("Cecità"@.len() == 6);
    assert("Colpi Critici"@.len() == 13);
    assert("Colpi critici"@.len() == 13);
    assert("Condizione Affaticato"@.len() == 21);
    assert("Condizione Esausto"@.len() == 18);
    assert("Confusione"@.len() == 10);
    assert("Danni contundenti"@.len() == 17);
    assert("Danni da arma"@.len() == 13);
    assert("Danni da armi"@.len() == 13);
    assert("Danni dalle Armi"@.len() == 16);
    assert("Danni perforanti e taglienti"@.len() == 28);
    assert("Danno da arma"@.len() == 13);
    assert("Effetti di Paura"@.len() == 16);
    assert("Effetti di Sonno"@.len() == 16);
    assert("Effetti di paura"@.len() == 16);
    assert("Effetti di sonno"@.len() == 16);
    assert("Elettricità"@.len() == 11);
    assert("Elettricità (parziale)"@.len() == 22);
    assert("Energia Negativa"@.len() == 16);
    assert("Energia Positiva"@.len() == 16);
    assert("Esaurimento"@.len() == 11);
    assert("Esausto"@.len() == 7);
    assert("Fatica"@.len() == 6);
    assert("Frastornamento"@.len() == 14);
    assert("Frastornato"@.len() == 11);
    assert("Freddo"@.len() == 6);
    assert("Freddo (sé stesso e chi lo cavalca)"@.len() == 35);
    assert("Fuoco"@.len() == 5);
    assert("Fuoco Infernale"@.len() == 15);
    assert("Immunità al Freddo"@.len() == 18);
    assert("Immunità alla Magia"@.len() == 19);
    assert("Infermità"@.len() == 9);
    assert("Infermo"@.len() == 7);
    assert("Magia"@.len() == 5);
    assert("Malattia"@.len() == 8);
    assert("Malattie"@.len() == 8);
    assert("Nausea"@.len() == 6);
    assert("Nauseato"@.len() == 8);
    assert("Paralisi"@.len() == 8);
    assert("Paura"@.len() == 5);
    assert("Pietrificazione"@.len() == 15);
    assert("Scosso"@.len() == 6);
    assert("Sguardo"@.len() == 7);
    assert("Sonno"@.len() == 5);
    assert("Sonoro"@.len() == 6);
    assert("Sordità"@.len() == 7);
    assert("Spaventato"@.len() == 10);
    assert("Stordimento"@.len() == 11);
    assert("Veleni"@.len() == 6);
    assert("Veleno"@.len() == 6);
    assert("Veleno Ingerito"@.len() == 15);
    assert("acido"@.len() == 5);
    assert("attacchi con Sguardo"@.len() == 20);
    assert("attacchi con lo Sguardo"@.len() == 23);
    assert("attacchi con lo sguardo"@.len() == 23);
    assert("contundente"@.len() == 11);
    assert("danni contundenti"@.len() == 17);
    assert("danni contundenti e perforanti"@.len() == 30);
    assert("danni da arma"@.len() == 13);
    assert("danni da armi"@.len() == 13);
    assert("danni da precisione"@.len() == 19);
    assert("danni delle armi"@.len() == 16);
    assert("danni di precisione"@.len() == 19);
    assert("danni perforanti"@.len() == 16);
    assert("danni taglienti e perforanti"@.len() == 28);
    assert("danno da arma"@.len() == 13);
    assert("danno di precisione"@.len() == 19);
    assert("effetti Barcollanti"@.len() == 19);
    assert("effetti di Paura"@.len() == 16);
    assert("effetti di Sonno"@.len() == 16);
    assert("effetti di paura"@.len() == 16);
    assert("effetti di sonno"@.len() == 16);
    assert("elettricità"@.len() == 11);
    assert("energia negativa"@.len() == 16);
    assert("freddo"@.len() == 6);
    assert("fuoco"@.len() == 5);
    assert("malattia"@.len() == 8);
    assert("malattie"@.len() == 8);
    assert("nausea"@.len() == 6);
    assert("paralisi"@.len() == 8);
    assert("paura"@.len() == 5);
    assert("pietrificazione"@.len() == 15);
    assert("sonno"@.len() == 5);
    assert("sonoro"@.len() == 6);
    assert("sordità"@.len() == 7);
    assert("stordimento"@.len() == 11);
    assert("veleni"@.len() == 6);
    assert("veleno"@.len() == 6);
    assert("danni perforanti"@[0] != "Energia Negativa"@[0]);
    assert("danni perforanti"@ != "Energia Negativa"@);
    assert("danni perforanti"@[0] != "energia negativa"@[0]);
    assert("danni perforanti"@ != "energia negativa"@);
    assert("danni perforanti"@[0] != "Energia Positiva"@[0]);
    assert("danni perforanti"@ != "Energia Positiva"@);
    assert("danni perforanti"@[0] != "energia negativa"@[0]);
    assert("danni perforanti"@ != "energia negativa"@);
    assert("danni perforanti"@[0] != "effetti di sonno"@[0]);
    assert("danni perforanti"@ != "effetti di sonno"@);
    assert("danni perforanti"@[0] != "Effetti di Sonno"@[0]);
    assert("danni perforanti"@ != "Effetti di Sonno"@);
    assert("danni perforanti"@[0] != "Effetti di sonno"@[0]);
    assert("danni perforanti"@ != "Effetti di sonno"@);
    assert("danni perforanti"@[0] != "effetti di Sonno"@[0]);
    assert("danni perforanti"@ != "effetti di Sonno"@);
    assert("danni perforanti"@[0] != "Effetti di Paura"@[0]);
    assert("danni perforanti"@ != "Effetti di Paura"@);
    assert("danni perforanti"@[0] != "effetti di Paura"@[0]);
    assert("danni perforanti"@ != "effetti di Paura"@);
    assert("danni perforanti"@[0] != "effetti di paura"@[0]);
    assert("danni perforanti"@ != "effetti di paura"@);
    assert("danni perforanti"@[0] != "Effetti di paura"@[0]);
    assert("danni perforanti"@ != "Effetti di paura"@);
    assert("danni perforanti"@[0] != "Attacchi Furtivi"@[0]);
    assert("danni perforanti"@ != "Attacchi Furtivi"@);
    assert("danni perforanti"@[6] != "danni delle armi"@[6]);
    assert("danni perforanti"@ != "danni delle armi"@);
    assert("danni perforanti"@[0] != "Danni dalle Armi"@[0]);
    assert("danni perforanti"@ != "Danni dalle Armi"@);
    assert("danni perforanti"@[0] != "Armi contundenti"@[0]);
    assert("danni perforanti"@ != "Armi contundenti"@);
}

proof fn lemma_read_immunity_slashing(s: Seq<char>)
    requires
        immunity_named(Immunity_Type::Immunity_Slashing, s),
    ensures
        spec_single_immunity(s) == Some(Immunity_Type::Immunity_Slashing),
{
    reveal_strlit("Abbagliamenti");
    reveal_strlit("Abbagliamento");
    reveal_strlit("Abbagliato");
    reveal_strlit("Accecato");
    reveal_strlit("Acido");
    reveal_strlit("Affaticamento");
    reveal_strlit("Affaticato");
    reveal_strlit("Armi Taglienti");
    reveal_strlit("Armi contundenti");
    reveal_strlit("Assorbimento del Fuoco");
    reveal_strlit("Attacchi Furtivi");
    reveal_strlit("Attacchi basati sull'olfatto");
    reveal_strlit("Attacchi basati sulla vista");
    reveal_strlit("Attacchi basati sulla vista o sguardo");
    reveal_strlit("Attacchi con Sguardo");
    reveal_strlit("Attacchi con lo sguardo");
    reveal_strlit("Attacchi dipendenti dalla vista");
    reveal_strlit("Barcollante");
    reveal_strlit("Barcollare");
    reveal_strlit("Cecità");
    reveal_strlit("Colpi Critici");
    reveal_strlit("Colpi critici");
    reveal_strlit("Condizione Affaticato");
    reveal_strlit("Condizione Esausto");
    reveal_strlit("Confusione");
    reveal_strlit("Danni contundenti");
    reveal_strlit("Danni da arma");
    reveal_strlit("Danni da armi");
    reveal_strlit("Danni dalle Armi");
    reveal_strlit("Danni perforanti e taglienti");
    reveal_strlit("Danno da arma");
    reveal_strlit("Effetti di Paura");
    reveal_strlit("Effetti di Sonno");
    reveal_strlit("Effetti di paura");
    reveal_strlit("Effetti di sonno");
    reveal_strlit("Elettricità");
    reveal_strlit("Elettricità (parziale)");
    reveal_strlit("Energia Negativa");
    reveal_strlit("Energia Positiva");
    reveal_strlit("Esaurimento");
    reveal_strlit("Esausto");
    reveal_strlit("Fatica");
    reveal_strlit("Frastornamento");
    reveal_strlit("Frastornato");
    reveal_strlit("Freddo");
    reveal_strlit("Freddo (sé stesso e chi lo cavalca)");
    reveal_strlit("Fuoco");
    reveal_strlit("Fuoco Infernale");
    reveal_strlit("Immunità al Freddo");
    reveal_strlit("Immunità alla Magia");
    reveal_strlit("Infermità");
    reveal_strlit("Infermo");
    reveal_strlit("Magia");
    reveal_strlit("Malattia");
    reveal_strlit("Malattie");
    reveal_strlit("Nausea");
    reveal_strlit("Nauseato");
    reveal_strlit("Paralisi");
    reveal_strlit("Paura");
    reveal_strlit("Pietrificazione");
    reveal_strlit("Scosso");
    reveal_strlit("Sguardo");
    reveal_strlit("Sonno");
    reveal_strlit("Sonoro");
    reveal_strlit("Sordità");
    reveal_strlit("Spaventato");
    reveal_strlit("Stordimento");
    reveal_strlit("Veleni");
    reveal_strlit("Veleno");
    reveal_strlit("Veleno Ingerito");
    reveal_strlit("acido");
    reveal_strlit("attacchi con Sguardo");
    reveal_strlit("attacchi con lo Sguardo");
    reveal_strlit("attacchi con lo sguardo");
    reveal_strlit("contundente");
    reveal_strlit("danni contundenti");
    reveal_strlit("danni contundenti e perforanti");
    reveal_strlit("danni da arma");
    reveal_strlit("danni da armi");
    reveal_strlit("danni da precisione");
    reveal_strlit("danni delle armi");
    reveal_strlit("danni di precisione");
    reveal_strlit("danni perforanti");
    reveal_strlit("danni taglienti");
    reveal_strlit("danni taglienti e perforanti");
    reveal_strlit("danno da arma");
    reveal_strlit("danno di precisione");
    reveal_strlit("effetti Barcollanti");
    reveal_strlit("effetti di Paura");
    reveal_strlit("effetti di Sonno");
    reveal_strlit("effetti di paura");
    reveal_strlit("effetti di sonno");
    reveal_strlit("elettricità");
    reveal_strlit("energia negativa");
    reveal_strlit("freddo");
    reveal_strlit("fuoco");
    reveal_strlit("malattia");
    reveal_strlit("malattie");
    reveal_strlit("nausea");
    reveal_strlit("paralisi");
    reveal_strlit("paura");
    reveal_strlit("pietrificazione");
    reveal_strlit("sonno");
    reveal_strlit("sonoro");
    reveal_strlit("sordità");
    reveal_strlit("stordimento");
    reveal_strlit("veleni");
    reveal_strlit("veleno");
    assert("Abbagliamenti"@.len() == 13);
    assert("Abbagliamento"@.len() == 13);
    assert("Abbagliato"@.len() == 10);
    assert("Accecato"@.len() == 8);
    assert("Acido"@.len() == 5);
    assert("Affaticamento"@.len() == 13);
    assert("Affaticato"@.len() == 10);
    assert("Armi Taglienti"@.len() == 14);
    assert("Armi contundenti"@.len() == 16);
    assert("Assorbimento del Fuoco"@.len() == 22);
    assert("Attacchi Furtivi"@.len() == 16);
    assert("Attacchi basati sull'olfatto"@.len() == 28);
    assert("Attacchi basati sulla vista"@.len() == 27);
    assert("Attacchi basati sulla vista o sguardo"@.len() == 37);
    assert("Attacchi con Sguardo"@.len() == 20);
    assert("Attacchi con lo sguardo"@.len() == 23);
    assert("Attacchi dipendenti dalla vista"@.len() == 31);
    assert("Barcollante"@.len() == 11);
    assert("Barcollare"@.len() == 10);
    assert("Cecità"@.len() == 6);
    assert("Colpi Critici"@.len() == 13);
    assert("Colpi critici"@.len() == 13);
    assert("Condizione Affaticato"@.len() == 21);
    assert("Condizione Esausto"@.len() == 18);
    assert("Confusione"@.len() == 10);
    assert("Danni contundenti"@.len() == 17);
    assert("Danni da arma"@.len() == 13);
    assert("Danni da armi"@.len() == 13);
    assert("Danni dalle Armi"@.len() == 16);
    assert("Danni perforanti e taglienti"@.len() == 28);
    assert("Danno da arma"@.len() == 13);
    assert("Effetti di Paura"@.len() == 16);
    assert("Effetti di Sonno"@.len() == 16);
    assert("Effetti di paura"@.len() == 16);
    assert("Effetti di sonno"@.len() == 16);
    assert("Elettricità"@.len() == 11);
    assert("Elettricità (parziale)"@.len() == 22);
    assert("Energia Negativa"@.len() == 16);
    assert("Energia Positiva"@.len() == 16);
    assert("Esaurimento"@.len() == 11);
    assert("Esausto"@.len() == 7);
    assert("Fatica"@.len() == 6);
    assert("Frastornamento"@.len() == 14);
    assert("Frastornato"@.len() == 11);
    assert("Freddo"@.len() == 6);
    assert("Freddo (sé stesso e chi lo cavalca)"@.len() == 35);
    assert("Fuoco"@.len() == 5);
    assert("Fuoco Infernale"@.len() == 15);
    assert("Immunità al Freddo"@.len() == 18);
    assert("Immunità alla Magia"@.len() == 19);
    assert("Infermità"@.len() == 9);
    assert("Infermo"@.len() == 7);
    assert("Magia"@.len() == 5);
    assert("Malattia"@.len() == 8);
    assert("Malattie"@.len() == 8);
    assert("Nausea"@.len() == 6);
    assert("Nauseato"@.len() == 8);
    assert("Paralisi"@.len() == 8);
    assert("Paura"@.len() == 5);
    assert("Pietrificazione"@.len() == 15);
    assert("Scosso"@.len() == 6);
    assert("Sguardo"@.len() == 7);
    assert("Sonno"@.len() == 5);
    assert("Sonoro"@.len() == 6);
    assert("Sordità"@.len() == 7);
    assert("Spaventato"@.len() == 10);
    assert("Stordimento"@.len() == 11);
    assert("Veleni"@.len() == 6);
    assert("Veleno"@.len() == 6);
    assert("Veleno Ingerito"@.len() == 15);
    assert("acido"@.len() == 5);
    assert("attacchi con Sguardo"@.len() == 20);
    assert("attacchi con lo Sguardo"@.len() == 23);
    assert("attacchi con lo sguardo"@.len() == 23);
    assert("contundente"@.len() == 11);
    assert("danni contundenti"@.len() == 17);
    assert("danni contundenti e perforanti"@.len() == 30);
    assert("danni da arma"@.len() == 13);
    assert("danni da armi"@.len() == 13);
    assert("danni da precisione"@.len() == 19);
    assert("danni delle armi"@.len() == 16);
    assert("danni di precisione"@.len() == 19);
    assert("danni perforanti"@.len() == 16);
    assert("danni taglienti"@.len() == 15);
    assert("danni taglienti e perforanti"@.len() == 28);
    assert("danno da arma"@.len() == 13);
    assert("danno di precisione"@.len() == 19);
    assert("effetti Barcollanti"@.len() == 19);
    assert("effetti di Paura"@.len() == 16);
    assert("effetti di Sonno"@.len() == 16);
    assert("effetti di paura"@.len() == 16);
    assert("effetti di sonno"@.len() == 16);
    assert("elettricità"@.len() == 11);
    assert("energia negativa"@.len() == 16);
    assert("freddo"@.len() == 6);
    assert("fuoco"@.len() == 5);
    assert("malattia"@.len() == 8);
    assert("malattie"@.len() == 8);
    assert("nausea"@.len() == 6);
    assert("paralisi"@.len() == 8);
    assert("paura"@.len() == 5);
    assert("pietrificazione"@.len() == 15);
    assert("sonno"@.len() == 5);
    assert("sonoro"@.len() == 6);
    assert("sordità"@.len() == 7);
    assert("stordimento"@.len() == 11);
    assert("veleni"@.len() == 6);
    assert("veleno"@.len() == 6);
    assert("Armi Taglienti"@[0] != "Frastornamento"@[0]);
    assert("Armi Taglienti"@ != "Frastornamento"@);
    assert("danni taglienti"@[0] != "Fuoco Infernale"@[0]);
    assert("danni taglienti"@ != "Fuoco Infernale"@);
    assert("danni taglienti"@[0] != "Pietrificazione"@[0]);
    assert("danni taglienti"@ != "Pietrificazione"@);
    assert("danni taglienti"@[0] != "pietrificazione"@[0]);
    assert("danni taglienti"@ != "pietrificazione"@);
    assert("danni taglienti"@[0] != "Veleno Ingerito"@[0]);
    assert("danni taglienti"@ != "Veleno Ingerito"@);
}

proof fn lemma_read_immunity_fallandcrush(s: Seq<char>)
    requires
        immunity_named(Immunity_Type::Immunity_FallAndCrush, s),
    ensures
        spec_single_immunity(s) == Some(Immunity_Type::Immunity_FallAndCrush),
{
    reveal_strlit("Abbagliamenti");
    reveal_strlit("Abbagliamento");
    reveal_strlit("Abbagliato");
    reveal_strlit("Accecato");
    reveal_strlit("Acido");
    reveal_strlit("Affaticamento");
    reveal_strlit("Affaticato");
    reveal_strlit("Armi Taglienti");
    reveal_strlit("Armi contundenti");
    reveal_strlit("Assorbimento del Fuoco");
    reveal_strlit("Attacchi Furtivi");
    reveal_strlit("Attacchi basati sull'olfatto");
    reveal_strlit("Attacchi basati sulla vista");
    reveal_strlit("Attacchi basati sulla vista o sguardo");
    reveal_strlit("Attacchi con Sguardo");
    reveal_strlit("Attacchi con lo sguardo");
    reveal_strlit("Attacchi dipendenti dalla vista");
    reveal_strlit("Barcollante");
    reveal_strlit("Barcollare");
    reveal_strlit("Cecità");
    reveal_strlit("Colpi Critici");
    reveal_strlit("Colpi critici");
    reveal_strlit("Condizione Affaticato");
    reveal_strlit("Condizione Esausto");
    reveal_strlit("Confusione");
    reveal_strlit("Danni contundenti");
    reveal_strlit("Danni da arma");
    reveal_strlit("Danni da armi");
    reveal_strlit("Danni dalle Armi");
    reveal_strlit("Danni perforanti e taglienti");
    reveal_strlit("Danno da arma");
    reveal_strlit("Effetti di Paura");
    reveal_strlit("Effetti di Sonno");
    reveal_strlit("Effetti di paura");
    reveal_strlit("Effetti di sonno");
    reveal_strlit("Elettricità");
    reveal_strlit("Elettricità (parziale)");
    reveal_strlit("Energia Negativa");
    reveal_strlit("Energia Positiva");
    reveal_strlit("Esaurimento");
    reveal_strlit("Esausto");
    reveal_strlit("Fatica");
    reveal_strlit("Frastornamento");
    reveal_strlit("Frastornato");
    reveal_strlit("Freddo");
    reveal_strlit("Freddo (sé stesso e chi lo cavalca)");
    reveal_strlit("Fuoco");
    reveal_strlit("Fuoco Infernale");
    reveal_strlit("Immunità al Freddo");
    reveal_strlit("Immunità alla Magia");
    reveal_strlit("Infermità");
    reveal_strlit("Infermo");
    reveal_strlit("Magia");
    reveal_strlit("Malattia");
    reveal_strlit("Malattie");
    reveal_strlit("Nausea");
    reveal_strlit("Nauseato");
    reveal_strlit("Paralisi");
    reveal_strlit("Paura");
    reveal_strlit("Pietrificazione");
    reveal_strlit("Scosso");
    reveal_strlit("Sguardo");
    reveal_strlit("Sonno");
    reveal_strlit("Sonoro");
    reveal_strlit("Sordità");
    reveal_strlit("Spaventato");
    reveal_strlit("Stordimento");
    reveal_strlit("Veleni");
    reveal_strlit("Veleno");
    reveal_strlit("Veleno Ingerito");
    reveal_strlit("acido");
    reveal_strlit("attacchi con Sguardo");
    reveal_strlit("attacchi con lo Sguardo");
    reveal_strlit("attacchi con lo sguardo");
    reveal_strlit("contundente");
    reveal_strlit("da caduta e da schiacciamento");
    reveal_strlit("danni contundenti");
    reveal_strlit("danni contundenti e perforanti");
    reveal_strlit("danni da arma");
    reveal_strlit("danni da armi");
    reveal_strlit("danni da precisione");
    reveal_strlit("danni delle armi");
    reveal_strlit("danni di precisione");
    reveal_strlit("danni perforanti");
    reveal_strlit("danni taglienti");
    reveal_strlit("danni taglienti e perforanti");
    reveal_strlit("danno da arma");
    reveal_strlit("danno di precisione");
    reveal_strlit("effetti Barcollanti");
    reveal_strlit("effetti di Paura");
    reveal_strlit("effetti di Sonno");
    reveal_strlit("effetti di paura");
    reveal_strlit("effetti di sonno");
    reveal_strlit("elettricità");
    reveal_strlit("energia negativa");
    reveal_strlit("freddo");
    reveal_strlit("fuoco");
    reveal_strlit("malattia");
    reveal_strlit("malattie");
    reveal_strlit("nausea");
    reveal_strlit("paralisi");
    reveal_strlit("paura");
    reveal_strlit("pietrificazione");
    reveal_strlit("sonno");
    reveal_strlit("sonoro");
    reveal_strlit("sordità");
    reveal_strlit("stordimento");
    reveal_strlit("veleni");
    reveal_strlit("veleno");
    assert("Abbagliamenti"@.len() == 13);
    assert("Abbagliamento"@.len() == 13);
    assert("Abbagliato"@.len() == 10);
    assert("Accecato"@.len() == 8);
    assert("Acido"@.len() == 5);
    assert("Affaticamento"@.len() == 13);
    assert("Affaticato"@.len() == 10);
    assert("Armi Taglienti"@.len() == 14);
    assert("Armi contundenti"@.len() == 16);
    assert("Assorbimento del Fuoco"@.len() == 22);
    assert("Attacchi Furtivi"@.len() == 16);
    assert("Attacchi basati sull'olfatto"@.len() == 28);
    assert("Attacchi basati sulla vista"@.len() == 27);
    assert("Attacchi basati sulla vista o sguardo"@.len() == 37);
    assert("Attacchi con Sguardo"@.len() == 20);
    assert("Attacchi con lo sguardo"@.len() == 23);
    assert("Attacchi dipendenti dalla vista"@.len() == 31);
    assert("Barcollante"@.len() == 11);
    assert("Barcollare"@.len() == 10);
    assert("Cecità"@.len() == 6);
    assert("Colpi Critici"@.len() == 13);
    assert("Colpi critici"@.len() == 13);
    assert("Condizione Affaticato"@.len() == 21);
    assert("Condizione Esausto"@.len() == 18);
    assert("Confusione"@.len() == 10);
    assert("Danni contundenti"@.len() == 17);
    assert("Danni da arma"@.len() == 13);
    assert("Danni da armi"@.len() == 13);
    assert("Danni dalle Armi"@.len() == 16);
    assert("Danni perforanti e taglienti"@.len() == 28);
    assert("Danno da arma"@.len() == 13);
    assert("Effetti di Paura"@.len() == 16);
    assert("Effetti di Sonno"@.len() == 16);
    assert("Effetti di paura"@.len() == 16);
    assert("Effetti di sonno"@.len() == 16);
    assert("Elettricità"@.len() == 11);
    assert("Elettricità (parziale)"@.len() == 22);
    assert("Energia Negativa"@.len() == 16);
    assert("Energia Positiva"@.len() == 16);
    assert("Esaurimento"@.len() == 11);
    assert("Esausto"@.len() == 7);
    assert("Fatica"@.len() == 6);
    assert("Frastornamento"@.len() == 14);
    assert("Frastornato"@.len() == 11);
    assert("Freddo"@.len() == 6);
    assert("Freddo (sé stesso e chi lo cavalca)"@.len() == 35);
    assert("Fuoco"@.len() == 5);
    assert("Fuoco Infernale"@.len() == 15);
    assert("Immunità al Freddo"@.len() == 18);
    assert("Immunità alla Magia"@.len() == 19);
    assert("Infermità"@.len() == 9);
    assert("Infermo"@.len() == 7);
    assert("Magia"@.len() == 5);
    assert("Malattia"@.len() == 8);
    assert("Malattie"@.len() == 8);
    assert("Nausea"@.len() == 6);
    assert("Nauseato"@.len() == 8);
    assert("Paralisi"@.len() == 8);
    assert("Paura"@.len() == 5);
    assert("Pietrificazione"@.len() == 15);
    assert("Scosso"@.len() == 6);
    assert("Sguardo"@.len() == 7);
    assert("Sonno"@.len() == 5);
    assert("Sonoro"@.len() == 6);
    assert("Sordità"@.len() == 7);
    assert("Spaventato"@.len() == 10);
    assert("Stordimento"@.len() == 11);
    assert("Veleni"@.len() == 6);
    assert("Veleno"@.len() == 6);
    assert("Veleno Ingerito"@.len() == 15);
    assert("acido"@.len() == 5);
    assert("attacchi con Sguardo"@.len() == 20);
    assert("attacchi con lo Sguardo"@.len() == 23);
    assert("attacchi con lo sguardo"@.len() == 23);
    assert("contundente"@.len() == 11);
    assert("da caduta e da schiacciamento"@.len() == 29);
    assert("danni contundenti"@.len() == 17);
    assert("danni contundenti e perforanti"@.len() == 30);
    assert("danni da arma"@.len() == 13);
    assert("danni da armi"@.len() == 13);
    assert("danni da precisione"@.len() == 19);
    assert("danni delle armi"@.len() == 16);
    assert("danni di precisione"@.len() == 19);
    assert("danni perforanti"@.len() == 16);
    assert("danni taglienti"@.len() == 15);
    assert("danni taglienti e perforanti"@.len() == 28);
    assert("danno da arma"@.len() == 13);
    assert("danno di precisione"@.len() == 19);
    assert("effetti Barcollanti"@.len() == 19);
    assert("effetti di Paura"@.len() == 16);
    assert("effetti di Sonno"@.len() == 16);
    assert("effetti di paura"@.len() == 16);
    assert("effetti di sonno"@.len() == 16);
    assert("elettricità"@.len() == 11);
    assert("energia negativa"@.len() == 16);
    assert("freddo"@.len() == 6);
    assert("fuoco"@.len() == 5);
    assert("malattia"@.len() == 8);
    assert("malattie"@.len() == 8);
    assert("nausea"@.len() == 6);
    assert("paralisi"@.len() == 8);
    assert("paura"@.len() == 5);
    assert("pietrificazione"@.len() == 15);
    assert("sonno"@.len() == 5);
    assert("sonoro"@.len() == 6);
    assert("sordità"@.len() == 7);
    assert("stordimento"@.len() == 11);
    assert("veleni"@.len() == 6);
    assert("veleno"@.len() == 6);

}

proof fn lemma_read_immunity_curse(s: Seq<char>)
    requires
        immunity_named(Immunity_Type::Immunity_Curse, s),
    ensures
        spec_single_immunity(s) == Some(Immunity_Type::Immunity_Curse),
{
    reveal_strlit("Abbagliamenti");
    reveal_strlit("Abbagliamento");
    reveal_strlit("Abbagliato");
    reveal_strlit("Accecato");
    reveal_strlit("Acido");
    reveal_strlit("Affaticamento");
    reveal_strlit("Affaticato");
    reveal_strlit("Armi Taglienti");
    reveal_strlit("Armi contundenti");
    reveal_strlit("Assorbimento del Fuoco");
    reveal_strlit("Attacchi Furtivi");
    reveal_strlit("Attacchi basati sull'olfatto");
    reveal_strlit("Attacchi basati sulla vista");
    reveal_strlit("Attacchi basati sulla vista o sguardo");
    reveal_strlit("Attacchi con Sguardo");
    reveal_strlit("Attacchi con lo sguardo");
    reveal_strlit("Attacchi dipendenti dalla vista");
    reveal_strlit("Barcollante");
    reveal_strlit("Barcollare");
    reveal_strlit("Cecità");
    reveal_strlit("Colpi Critici");
    reveal_strlit("Colpi critici");
    reveal_strlit("Condizione Affaticato");
    reveal_strlit("Condizione Esausto");
    reveal_strlit("Confusione");
    reveal_strlit("Danni contundenti");
    reveal_strlit("Danni da arma");
    reveal_strlit("Danni da armi");
    reveal_strlit("Danni dalle Armi");
    reveal_strlit("Danni perforanti e taglienti");
    reveal_strlit("Danno da arma");
    reveal_strlit("Effetti di Paura");
    reveal_strlit("Effetti di Sonno");
    reveal_strlit("Effetti di paura");
    reveal_strlit("Effetti di sonno");
    reveal_strlit("Elettricità");
    reveal_strlit("Elettricità (parziale)");
    reveal_strlit("Energia Negativa");
    reveal_strlit("Energia Positiva");
    reveal_strlit("Esaurimento");
    reveal_strlit("Esausto");
    reveal_strlit("Fatica");
    reveal_strlit("Frastornamento");
    reveal_strlit("Frastornato");
    reveal_strlit("Freddo");
    reveal_strlit("Freddo (sé stesso e chi lo cavalca)");
    reveal_strlit("Fuoco");
    reveal_strlit("Fuoco Infernale");
    reveal_strlit("Immunità al Freddo");
    reveal_strlit("Immunità alla Magia");
    reveal_strlit("Infermità");
    reveal_strlit("Infermo");
    reveal_strlit("Magia");
    reveal_strlit("Malattia");
    reveal_strlit("Malattie");
    reveal_strlit("Maledizioni");
    reveal_strlit("Nausea");
    reveal_strlit("Nauseato");
    reveal_strlit("Paralisi");
    reveal_strlit("Paura");
    reveal_strlit("Pietrificazione");
    reveal_strlit("Scosso");
    reveal_strlit("Sguardo");
    reveal_strlit("Sonno");
    reveal_strlit("Sonoro");
    reveal_strlit("Sordità");
    reveal_strlit("Spaventato");
    reveal_strlit("Stordimento");
    reveal_strlit("Veleni");
    reveal_strlit("Veleno");
    reveal_strlit("Veleno Ingerito");
    reveal_strlit("acido");
    reveal_strlit("attacchi con Sguardo");
    reveal_strlit("attacchi con lo Sguardo");
    reveal_strlit("attacchi con lo sguardo");
    reveal_strlit("contundente");
    reveal_strlit("da caduta e da schiacciamento");
    reveal_strlit("danni contundenti");
    reveal_strlit("danni contundenti e perforanti");
    reveal_strlit("danni da arma");
    reveal_strlit("danni da armi");
    reveal_strlit("danni da precisione");
    reveal_strlit("danni delle armi");
    reveal_strlit("danni di precisione");
    reveal_strlit("danni perforanti");
    reveal_strlit("danni taglienti");
    reveal_strlit("danni taglienti e perforanti");
    reveal_strlit("danno da arma");
    reveal_strlit("danno di precisione");
    reveal_strlit("effetti Barcollanti");
    reveal_strlit("effetti di Paura");
    reveal_strlit("effetti di Sonno");
    reveal_strlit("effetti di maledizione");
    reveal_strlit("effetti di maledizioni");
    reveal_strlit("effetti di paura");
    reveal_strlit("effetti di sonno");
    reveal_strlit("elettricità");
    reveal_strlit("energia negativa");
    reveal_strlit("freddo");
    reveal_strlit("fuoco");
    reveal_strlit("malattia");
    reveal_strlit("malattie");
    reveal_strlit("maledizioni");
    reveal_strlit("nausea");
    reveal_strlit("paralisi");
    reveal_strlit("paura");
    reveal_strlit("pietrificazione");
    reveal_strlit("sonno");
    reveal_strlit("sonoro");
    reveal_strlit("sordità");
    reveal_strlit("stordimento");
    reveal_strlit("veleni");
    reveal_strlit("veleno");
    assert("Abbagliamenti"@.len() == 13);
    assert("Abbagliamento"@.len() == 13);
    assert("Abbagliato"@.len() == 10);
    assert("Accecato"@.len() == 8);
    assert("Acido"@.len() == 5);
    assert("Affaticamento"@.len() == 13);
    assert("Affaticato"@.len() == 10);
    assert("Armi Taglienti"@.len() == 14);
    assert("Armi contundenti"@.len() == 16);
    assert("Assorbimento del Fuoco"@.len() == 22);
    assert("Attacchi Furtivi"@.len() == 16);
    assert("Attacchi basati sull'olfatto"@.len() == 28);
    assert("Attacchi basati sulla vista"@.len() == 27);
    assert("Attacchi basati sulla vista o sguardo"@.len() == 37);
    assert("Attacchi con Sguardo"@.len() == 20);
    assert("Attacchi con lo sguardo"@.len() == 23);
    assert("Attacchi dipendenti dalla vista"@.len() == 31);
    assert("Barcollante"@.len() == 11);
    assert("Barcollare"@.len() == 10);
    assert("Cecità"@.len() == 6);
    assert("Colpi Critici"@.len() == 13);
    assert("Colpi critici"@.len() == 13);
    assert("Condizione Affaticato"@.len() == 21);
    assert("Condizione Esausto"@.len() == 18);
    assert("Confusione"@.len() == 10);
    assert("Danni contundenti"@.len() == 17);
    assert("Danni da arma"@.len() == 13);
    assert("Danni da armi"@.len() == 13);
    assert("Danni dalle Armi"@.len() == 16);
    assert("Danni perforanti e taglienti"@.len() == 28);
    assert("Danno da arma"@.len() == 13);
    assert("Effetti di Paura"@.len() == 16);
    assert("Effetti di Sonno"@.len() == 16);
    assert("Effetti di paura"@.len() == 16);
    assert("Effetti di sonno"@.len() == 16);
    assert("Elettricità"@.len() == 11);
    assert("Elettricità (parziale)"@.len() == 22);
    assert("Energia Negativa"@.len() == 16);
    assert("Energia Positiva"@.len() == 16);
    assert("Esaurimento"@.len() == 11);
    assert("Esausto"@.len() == 7);
    assert("Fatica"@.len() == 6);
    assert("Frastornamento"@.len() == 14);
    assert("Frastornato"@.len() == 11);
    assert("Freddo"@.len() == 6);
    assert("Freddo (sé stesso e chi lo cavalca)"@.len() == 35);
    assert("Fuoco"@.len() == 5);
    assert("Fuoco Infernale"@.len() == 15);
    assert("Immunità al Freddo"@.len() == 18);
    assert("Immunità alla Magia"@.len() == 19);
    assert("Infermità"@.len() == 9);
    assert("Infermo"@.len() == 7);
    assert("Magia"@.len() == 5);
    assert("Malattia"@.len() == 8);
    assert("Malattie"@.len() == 8);
    assert("Maledizioni"@.len() == 11);
    assert("Nausea"@.len() == 6);
    assert("Nauseato"@.len() == 8);
    assert("Paralisi"@.len() == 8);
    assert("Paura"@.len() == 5);
    assert("Pietrificazione"@.len() == 15);
    assert("Scosso"@.len() == 6);
    assert("Sguardo"@.len() == 7);
    assert("Sonno"@.len() == 5);
    assert("Sonoro"@.len() == 6);
    assert("Sordità"@.len() == 7);
    assert("Spaventato"@.len() == 10);
    assert("Stordimento"@.len() == 11);
    assert("Veleni"@.len() == 6);
    assert("Veleno"@.len() == 6);
    assert("Veleno Ingerito"@.len() == 15);
    assert("acido"@.len() == 5);
    assert("attacchi con Sguardo"@.len() == 20);
    assert("attacchi con lo Sguardo"@.len() == 23);
    assert("attacchi con lo sguardo"@.len() == 23);
    assert("contundente"@.len() == 11);
    assert("da caduta e da schiacciamento"@.len() == 29);
    assert("danni contundenti"@.len() == 17);
    assert("danni contundenti e perforanti"@.len() == 30);
    assert("danni da arma"@.len() == 13);
    assert("danni da armi"@.len() == 13);
    assert("danni da precisione"@.len() == 19);
    assert("danni delle armi"@.len() == 16);
    assert("danni di precisione"@.len() == 19);
    assert("danni perforanti"@.len() == 16);
    assert("danni taglienti"@.len() == 15);
    assert("danni taglienti e perforanti"@.len() == 28);
    assert("danno da arma"@.len() == 13);
    assert("danno di precisione"@.len() == 19);
    assert("effetti Barcollanti"@.len() == 19);
    assert("effetti di Paura"@.len() == 16);
    assert("effetti di Sonno"@.len() == 16);
    assert("effetti di maledizione"@.len() == 22);
    assert("effetti di maledizioni"@.len() == 22);
    assert("effetti di paura"@.len() == 16);
    assert("effetti di sonno"@.len() == 16);
    assert("elettricità"@.len() == 11);
    assert("energia negativa"@.len() == 16);
    assert("freddo"@.len() == 6);
    assert("fuoco"@.len() == 5);
    assert("malattia"@.len() == 8);
    assert("malattie"@.len() == 8);
    assert("maledizioni"@.len() == 11);
    assert("nausea"@.len() == 6);
    assert("paralisi"@.len() == 8);
    assert("paura"@.len() == 5);
    assert("pietrificazione"@.len() == 15);
    assert("sonno"@.len() == 5);
    assert("sonoro"@.len() == 6);
    assert("sordità"@.len() == 7);
    assert("stordimento"@.len() == 11);
    assert("veleni"@.len() == 6);
    assert("veleno"@.len() == 6);
    assert("Maledizioni"@[0] != "Elettricità"@[0]);
    assert("Maledizioni"@ != "Elettricità"@);
    assert("Maledizioni"@[0] != "elettricità"@[0]);
    assert("Maledizioni"@ != "elettricità"@);
    assert("Maledizioni"@[0] != "Esaurimento"@[0]);
    assert("Maledizioni"@ != "Esaurimento"@);
    assert("Maledizioni"@[0] != "Stordimento"@[0]);
    assert("Maledizioni"@ != "Stordimento"@);
    assert("Maledizioni"@[0] != "stordimento"@[0]);
    assert("Maledizioni"@ != "stordimento"@);
    assert("Maledizioni"@[0] != "Frastornato"@[0]);
    assert("Maledizioni"@ != "Frastornato"@);
    assert("Maledizioni"@[0] != "Barcollante"@[0]);
    assert("Maledizioni"@ != "Barcollante"@);
    assert("Maledizioni"@[0] != "contundente"@[0]);
    assert("Maledizioni"@ != "contundente"@);
    assert("maledizioni"@[0] != "Elettricità"@[0]);
    assert("maledizioni"@ != "Elettricità"@);
    assert("maledizioni"@[0] != "elettricità"@[0]);
    assert("maledizioni"@ != "elettricità"@);
    assert("maledizioni"@[0] != "Esaurimento"@[0]);
    assert("maledizioni"@ != "Esaurimento"@);
    assert("maledizioni"@[0] != "Stordimento"@[0]);
    assert("maledizioni"@ != "Stordimento"@);
    assert("maledizioni"@[0] != "stordimento"@[0]);
    assert("maledizioni"@ != "stordimento"@);
    assert("maledizioni"@[0] != "Frastornato"@[0]);
    assert("maledizioni"@ != "Frastornato"@);
    assert("maledizioni"@[0] != "Barcollante"@[0]);
    assert("maledizioni"@ != "Barcollante"@);
    assert("maledizioni"@[0] != "contundente"@[0]);
    assert("maledizioni"@ != "contundente"@);
    assert("maledizioni"@[0] != "Maledizioni"@[0]);
    assert("maledizioni"@ != "Maledizioni"@);
    assert("effetti di maledizione"@[0] != "Assorbimento del Fuoco"@[0]);
    assert("effetti di maledizione"@ != "Assorbimento del Fuoco"@);
    assert("effetti di maledizione"@[0] != "Elettricità (parziale)"@[0]);
    assert("effetti di maledizione"@ != "Elettricità (parziale)"@);
    assert("effetti di maledizioni"@[0] != "Assorbimento del Fuoco"@[0]);
    assert("effetti di maledizioni"@ != "Assorbimento del Fuoco"@);
    assert("effetti di maledizioni"@[0] != "Elettricità (parziale)"@[0]);
    assert("effetti di maledizioni"@ != "Elettricità (parziale)"@);
    assert("effetti di maledizioni"@[21] != "effetti di maledizione"@[21]);
    assert("effetti di maledizioni"@ != "effetti di maledizione"@);
}

proof fn lemma_read_immunity_bleeding(s: Seq<char>)
    requires
        immunity_named(Immunity_Type::Immunity_Bleeding, s),
    ensures
        spec_single_immunity(s) == Some(Immunity_Type::Immunity_Bleeding),
{
    reveal_strlit("Abbagliamenti");
    reveal_strlit("Abbagliamento");
    reveal_strlit("Abbagliato");
    reveal_strlit("Accecato");
    reveal_strlit("Acido");
    reveal_strlit("Affaticamento");
    reveal_strlit("Affaticato");
    reveal_strlit("Armi Taglienti");
    reveal_strlit("Armi contundenti");
    reveal_strlit("Assorbimento del Fuoco");
    reveal_strlit("Attacchi Furtivi");
    reveal_strlit("Attacchi basati sull'olfatto");
    reveal_strlit("Attacchi basati sulla vista");
    reveal_strlit("Attacchi basati sulla vista o sguardo");
    reveal_strlit("Attacchi con Sguardo");
    reveal_strlit("Attacchi con lo sguardo");
    reveal_strlit("Attacchi dipendenti dalla vista");
    reveal_strlit("Barcollante");
    reveal_strlit("Barcollare");
    reveal_strlit("Cecità");
    reveal_strlit("Colpi Critici");
    reveal_strlit("Colpi critici");
    reveal_strlit("Condizione Affaticato");
    reveal_strlit("Condizione Esausto");
    reveal_strlit("Confusione");
    reveal_strlit("Danni contundenti");
    reveal_strlit("Danni da arma");
    reveal_strlit("Danni da armi");
    reveal_strlit("Danni dalle Armi");
    reveal_strlit("Danni perforanti e taglienti");
    reveal_strlit("Danno da arma");
    reveal_strlit("Effetti di Paura");
    reveal_strlit("Effetti di Sonno");
    reveal_strlit("Effetti di paura");
    reveal_strlit("Effetti di sonno");
    reveal_strlit("Elettricità");
    reveal_strlit("Elettricità (parziale)");
    reveal_strlit("Energia Negativa");
    reveal_strlit("Energia Positiva");
    reveal_strlit("Esaurimento");
    reveal_strlit("Esausto");
    reveal_strlit("Fatica");
    reveal_strlit("Frastornamento");
    reveal_strlit("Frastornato");
    reveal_strlit("Freddo");
    reveal_strlit("Freddo (sé stesso e chi lo cavalca)");
    reveal_strlit("Fuoco");
    reveal_strlit("Fuoco Infernale");
    reveal_strlit("Immunità al Freddo");
    reveal_strlit("Immunità alla Magia");
    reveal_strlit("Infermità");
    reveal_strlit("Infermo");
    reveal_strlit("Magia");
    reveal_strlit("Malattia");
    reveal_strlit("Malattie");
    reveal_strlit("Maledizioni");
    reveal_strlit("Nausea");
    reveal_strlit("Nauseato");
    reveal_strlit("Paralisi");
    reveal_strlit("Paura");
    reveal_strlit("Pietrificazione");
    reveal_strlit("Sanguinamento");
    reveal_strlit("Sanguinamento (solo Punti Ferita)");
    reveal_strlit("Scosso");
    reveal_strlit("Sguardo");
    reveal_strlit("Sonno");
    reveal_strlit("Sonoro");
    reveal_strlit("Sordità");
    reveal_strlit("Spaventato");
    reveal_strlit("Stordimento");
    reveal_strlit("Veleni");
    reveal_strlit("Veleno");
    reveal_strlit("Veleno Ingerito");
    reveal_strlit("acido");
    reveal_strlit("attacchi con Sguardo");
    reveal_strlit("attacchi con lo Sguardo");
    reveal_strlit("attacchi con lo sguardo");
    reveal_strlit("contundente");
    reveal_strlit("da caduta e da schiacciamento");
    reveal_strlit("danni contundenti");
    reveal_strlit("danni contundenti e perforanti");
    reveal_strlit("danni da arma");
    reveal_strlit("danni da armi");
    reveal_strlit("danni da precisione");
    reveal_strlit("danni delle armi");
    reveal_strlit("danni di precisione");
    reveal_strlit("danni perforanti");
    reveal_strlit("danni taglienti");
    reveal_strlit("danni taglienti e perforanti");
    reveal_strlit("danno da arma");
    reveal_strlit("danno di precisione");
    reveal_strlit("effetti Barcollanti");
    reveal_strlit("effetti di Paura");
    reveal_strlit("effetti di Sonno");
    reveal_strlit("effetti di maledizione");
    reveal_strlit("effetti di maledizioni");
    reveal_strlit("effetti di paura");
    reveal_strlit("effetti di sonno");
    reveal_strlit("elettricità");
    reveal_strlit("energia negativa");
    reveal_strlit("freddo");
    reveal_strlit("fuoco");
    reveal_strlit("malattia");
    reveal_strlit("malattie");
    reveal_strlit("maledizioni");
    reveal_strlit("nausea");
    reveal_strlit("paralisi");
    reveal_strlit("paura");
    reveal_strlit("pietrificazione");
    reveal_strlit("sanguinamento");
    reveal_strlit("sonno");
    reveal_strlit("sonoro");
    reveal_strlit("sordità");
    reveal_strlit("stordimento");
    reveal_strlit("veleni");
    reveal_strlit("veleno");
    assert("Abbagliamenti"@.len() == 13);
    assert("Abbagliamento"@.len() == 13);
    assert("Abbagliato"@.len() == 10);
    assert("Accecato"@.len() == 8);
    assert("Acido"@.len() == 5);
    assert("Affaticamento"@.len() == 13);
    assert("Affaticato"@.len() == 10);
    assert("Armi Taglienti"@.len() == 14);
    assert("Armi contundenti"@.len() == 16);
    assert("Assorbimento del Fuoco"@.len() == 22);
    assert("Attacchi Furtivi"@.len() == 16);
    assert("Attacchi basati sull'olfatto"@.len() == 28);
    assert("Attacchi basati sulla vista"@.len() == 27);
    assert("Attacchi basati sulla vista o sguardo"@.len() == 37);
    assert("Attacchi con Sguardo"@.len() == 20);
    assert("Attacchi con lo sguardo"@.len() == 23);
    assert("Attacchi dipendenti dalla vista"@.len() == 31);
    assert("Barcollante"@.len() == 11);
    assert("Barcollare"@.len() == 10);
    assert("Cecità"@.len() == 6);
    assert("Colpi Critici"@.len() == 13);
    assert("Colpi critici"@.len() == 13);
    assert("Condizione Affaticato"@.len() == 21);
    assert("Condizione Esausto"@.len() == 18);
    assert("Confusione"@.len() == 10);
    assert("Danni contundenti"@.len() == 17);
    assert("Danni da arma"@.len() == 13);
    assert("Danni da armi"@.len() == 13);
    assert("Danni dalle Armi"@.len() == 16);
    assert("Danni perforanti e taglienti"@.len() == 28);
    assert("Danno da arma"@.len() == 13);
    assert("Effetti di Paura"@.len() == 16);
    assert("Effetti di Sonno"@.len() == 16);
    assert("Effetti di paura"@.len() == 16);
    assert("Effetti di sonno"@.len() == 16);
    assert("Elettricità"@.len() == 11);
    assert("Elettricità (parziale)"@.len() == 22);
    assert("Energia Negativa"@.len() == 16);
    assert("Energia Positiva"@.len() == 16);
    assert("Esaurimento"@.len() == 11);
    assert("Esausto"@.len() == 7);
    assert("Fatica"@.len() == 6);
    assert("Frastornamento"@.len() == 14);
    assert("Frastornato"@.len() == 11);
    assert("Freddo"@.len() == 6);
    assert("Freddo (sé stesso e chi lo cavalca)"@.len() == 35);
    assert("Fuoco"@.len() == 5);
    assert("Fuoco Infernale"@.len() == 15);
    assert("Immunità al Freddo"@.len() == 18);
    assert("Immunità alla Magia"@.len() == 19);
    assert("Infermità"@.len() == 9);
    assert("Infermo"@.len() == 7);
    assert("Magia"@.len() == 5);
    assert("Malattia"@.len() == 8);
    assert("Malattie"@.len() == 8);
    assert("Maledizioni"@.len() == 11);
    assert("Nausea"@.len() == 6);
    assert("Nauseato"@.len() == 8);
    assert("Paralisi"@.len() == 8);
    assert("Paura"@.len() == 5);
    assert("Pietrificazione"@.len() == 15);
    assert("Sanguinamento"@.len() == 13);
    assert("Sanguinamento (solo Punti Ferita)"@.len() == 33);
    assert("Scosso"@.len() == 6);
    assert("Sguardo"@.len() == 7);
    assert("Sonno"@.len() == 5);
    assert("Sonoro"@.len() == 6);
    assert("Sordità"@.len() == 7);
    assert("Spaventato"@.len() == 10);
    assert("Stordimento"@.len() == 11);
    assert("Veleni"@.len() == 6);
    assert("Veleno"@.len() == 6);
    assert("Veleno Ingerito"@.len() == 15);
    assert("acido"@.len() == 5);
    assert("attacchi con Sguardo"@.len() == 20);
    assert("attacchi con lo Sguardo"@.len() == 23);
    assert("attacchi con lo sguardo"@.len() == 23);
    assert("contundente"@.len() == 11);
    assert("da caduta e da schiacciamento"@.len() == 29);
    assert("danni contundenti"@.len() == 17);
    assert("danni contundenti e perforanti"@.len() == 30);
    assert("danni da arma"@.len() == 13);
    assert("danni da armi"@.len() == 13);
    assert("danni da precisione"@.len() == 19);
    assert("danni delle armi"@.len() == 16);
    assert("danni di precisione"@.len() == 19);
    assert("danni perforanti"@.len() == 16);
    assert("danni taglienti"@.len() == 15);
    assert("danni taglienti e perforanti"@.len() == 28);
    assert("danno da arma"@.len() == 13);
    assert("danno di precisione"@.len() == 19);
    assert("effetti Barcollanti"@.len() == 19);
    assert("effetti di Paura"@.len() == 16);
    assert("effetti di Sonno"@.len() == 16);
    assert("effetti di maledizione"@.len() == 22);
    assert("effetti di maledizioni"@.len() == 22);
    assert("effetti di paura"@.len() == 16);
    assert("effetti di sonno"@.len() == 16);
    assert("elettricità"@.len() == 11);
    assert("energia negativa"@.len() == 16);
    assert("freddo"@.len() == 6);
    assert("fuoco"@.len() == 5);
    assert("malattia"@.len() == 8);
    assert("malattie"@.len() == 8);
    assert("maledizioni"@.len() == 11);
    assert("nausea"@.len() == 6);
    assert("paralisi"@.len() == 8);
    assert("paura"@.len() == 5);
    assert("pietrificazione"@.len() == 15);
    assert("sanguinamento"@.len() == 13);
    assert("sonno"@.len() == 5);
    assert("sonoro"@.len() == 6);
    assert("sordità"@.len() == 7);
    assert("stordimento"@.len() == 11);
    assert("veleni"@.len() == 6);
    assert("veleno"@.len() == 6);
    assert("Sanguinamento"@[0] != "Affaticamento"@[0]);
    assert("Sanguinamento"@ != "Affaticamento"@);
    assert("Sanguinamento"@[0] != "Abbagliamenti"@[0]);
    assert("Sanguinamento"@ != "Abbagliamenti"@);
    assert("Sanguinamento"@[0] != "Abbagliamento"@[0]);
    assert("Sanguinamento"@ != "Abbagliamento"@);
    assert("Sanguinamento"@[0] != "Colpi Critici"@[0]);
    assert("Sanguinamento"@ != "Colpi Critici"@);
    assert("Sanguinamento"@[0] != "Colpi critici"@[0]);
    assert("Sanguinamento"@ != "Colpi critici"@);
    assert("Sanguinamento"@[0] != "Danno da arma"@[0]);
    assert("Sanguinamento"@ != "Danno da arma"@);
    assert("Sanguinamento"@[0] != "danno da arma"@[0]);
    assert("Sanguinamento"@ != "danno da arma"@);
    assert("Sanguinamento"@[0] != "Danni da arma"@[0]);
    assert("Sanguinamento"@ != "Danni da arma"@);
    assert("Sanguinamento"@[0] != "danni da arma"@[0]);
    assert("Sanguinamento"@ != "danni da arma"@);
    assert("Sanguinamento"@[0] != "Danni da armi"@[0]);
    assert("Sanguinamento"@ != "Danni da armi"@);
    assert("Sanguinamento"@[0] != "danni da armi"@[0]);
    assert("Sanguinamento"@ != "danni da armi"@);
    assert("sanguinamento"@[0] != "Affaticamento"@[0]);
    assert("sanguinamento"@ != "Affaticamento"@);
    assert("sanguinamento"@[0] != "Abbagliamenti"@[0]);
    assert("sanguinamento"@ != "Abbagliamenti"@);
    assert("sanguinamento"@[0] != "Abbagliamento"@[0]);
    assert("sanguinamento"@ != "Abbagliamento"@);
    assert("sanguinamento"@[0] != "Colpi Critici"@[0]);
    assert("sanguinamento"@ != "Colpi Critici"@);
    assert("sanguinamento"@[0] != "Colpi critici"@[0]);
    assert("sanguinamento"@ != "Colpi critici"@);
    assert("sanguinamento"@[0] != "Danno da arma"@[0]);
    assert("sanguinamento"@ != "Danno da arma"@);
    assert("sanguinamento"@[0] != "danno da arma"@[0]);
    assert("sanguinamento"@ != "danno da arma"@);
    assert("sanguinamento"@[0] != "Danni da arma"@[0]);
    assert("sanguinamento"@ != "Danni da arma"@);
    assert("sanguinamento"@[0] != "danni da arma"@[0]);
    assert("sanguinamento"@ != "danni da arma"@);
    assert("sanguinamento"@[0] != "Danni da armi"@[0]);
    assert("sanguinamento"@ != "Danni da armi"@);
    assert("sanguinamento"@[0] != "danni da armi"@[0]);
    assert("sanguinamento"@ != "danni da armi"@);
    assert("sanguinamento"@[0] != "Sanguinamento"@[0]);
    assert("sanguinamento"@ != "Sanguinamento"@);
}

proof fn lemma_read_immunity_flanking(s: Seq<char>)
    requires
        immunity_named(Immunity_Type::Immunity_Flanking, s),
    ensures
        spec_single_immunity(s) == Some(Immunity_Type::Immunity_Flanking),
{
    reveal_strlit("Abbagliamenti");
    reveal_strlit("Abbagliamento");
    reveal_strlit("Abbagliato");
    reveal_strlit("Accecato");
    reveal_strlit("Acido");
    reveal_strlit("Affaticamento");
    reveal_strlit("Affaticato");
    reveal_strlit("Armi Taglienti");
    reveal_strlit("Armi contundenti");
    reveal_strlit("Assorbimento del Fuoco");
    reveal_strlit("Attacchi Furtivi");
    reveal_strlit("Attacchi ai Fianchi");
    reveal_strlit("Attacchi basati sull'olfatto");
    reveal_strlit("Attacchi basati sulla vista");
    reveal_strlit("Attacchi basati sulla vista o sguardo");
    reveal_strlit("Attacchi con Sguardo");
    reveal_strlit("Attacchi con lo sguardo");
    reveal_strlit("Attacchi dipendenti dalla vista");
    reveal_strlit("Barcollante");
    reveal_strlit("Barcollare");
    reveal_strlit("Cecità");
    reveal_strlit("Colpi Critici");
    reveal_strlit("Colpi critici");
    reveal_strlit("Condizione Affaticato");
    reveal_strlit("Condizione Esausto");
    reveal_strlit("Confusione");
    reveal_strlit("Danni contundenti");
    reveal_strlit("Danni da arma");
    reveal_strlit("Danni da armi");
    reveal_strlit("Danni dalle Armi");
    reveal_strlit("Danni perforanti e taglienti");
    reveal_strlit("Danno da arma");
    reveal_strlit("Effetti di Paura");
    reveal_strlit("Effetti di Sonno");
    reveal_strlit("Effetti di paura");
    reveal_strlit("Effetti di sonno");
    reveal_strlit("Elettricità");
    reveal_strlit("Elettricità (parziale)");
    reveal_strlit("Energia Negativa");
    reveal_strlit("Energia Positiva");
    reveal_strlit("Esaurimento");
    reveal_strlit("Esausto");
    reveal_strlit("Fatica");
    reveal_strlit("Fiancheggiamento");
    reveal_strlit("Frastornamento");
    reveal_strlit("Frastornato");
    reveal_strlit("Freddo");
    reveal_strlit("Freddo (sé stesso e chi lo cavalca)");
    reveal_strlit("Fuoco");
    reveal_strlit("Fuoco Infernale");
    reveal_strlit("Immunità al Freddo");
    reveal_strlit("Immunità alla Magia");
    reveal_strlit("Infermità");
    reveal_strlit("Infermo");
    reveal_strlit("Magia");
    reveal_strlit("Malattia");
    reveal_strlit("Malattie");
    reveal_strlit("Maledizioni");
    reveal_strlit("Nausea");
    reveal_strlit("Nauseato");
    reveal_strlit("Paralisi");
    reveal_strlit("Paura");
    reveal_strlit("Pietrificazione");
    reveal_strlit("Sanguinamento");
    reveal_strlit("Sanguinamento (solo Punti Ferita)");
    reveal_strlit("Scosso");
    reveal_strlit("Sguardo");
    reveal_strlit("Sonno");
    reveal_strlit("Sonoro");
    reveal_strlit("Sordità");
    reveal_strlit("Spaventato");
    reveal_strlit("Stordimento");
    reveal_strlit("Veleni");
    reveal_strlit("Veleno");
    reveal_strlit("Veleno Ingerito");
    reveal_strlit("acido");
    reveal_strlit("attacchi con Sguardo");
    reveal_strlit("attacchi con lo Sguardo");
    reveal_strlit("attacchi con lo sguardo");
    reveal_strlit("contundente");
    reveal_strlit("da caduta e da schiacciamento");
    reveal_strlit("danni contundenti");
    reveal_strlit("danni contundenti e perforanti");
    reveal_strlit("danni da arma");
    reveal_strlit("danni da armi");
    reveal_strlit("danni da precisione");
    reveal_strlit("danni delle armi");
    reveal_strlit("danni di precisione");
    reveal_strlit("danni perforanti");
    reveal_strlit("danni taglienti");
    reveal_strlit("danni taglienti e perforanti");
    reveal_strlit("danno da arma");
    reveal_strlit("danno di precisione");
    reveal_strlit("effetti Barcollanti");
    reveal_strlit("effetti di Paura");
    reveal_strlit("effetti di Sonno");
    reveal_strlit("effetti di maledizione");
    reveal_strlit("effetti di maledizioni");
    reveal_strlit("effetti di paura");
    reveal_strlit("effetti di sonno");
    reveal_strlit("elettricità");
    reveal_strlit("energia negativa");
    reveal_strlit("freddo");
    reveal_strlit("fuoco");
    reveal_strlit("malattia");
    reveal_strlit("malattie");
    reveal_strlit("maledizioni");
    reveal_strlit("nausea");
    reveal_strlit("paralisi");
    reveal_strlit("paura");
    reveal_strlit("pietrificazione");
    reveal_strlit("sanguinamento");
    reveal_strlit("sonno");
    reveal_strlit("sonoro");
    reveal_strlit("sordità");
    reveal_strlit("stordimento");
    reveal_strlit("veleni");
    reveal_strlit("veleno");
    assert("Abbagliamenti"@.len() == 13);
    assert("Abbagliamento"@.len() == 13);
    assert("Abbagliato"@.len() == 10);
    assert("Accecato"@.len() == 8);
    assert("Acido"@.len() == 5);
    assert("Affaticamento"@.len() == 13);
    assert("Affaticato"@.len() == 10);
    assert("Armi Taglienti"@.len() == 14);
    assert("Armi contundenti"@.len() == 16);
    assert("Assorbimento del Fuoco"@.len() == 22);
    assert("Attacchi Furtivi"@.len() == 16);
    assert("Attacchi ai Fianchi"@.len() == 19);
    assert("Attacchi basati sull'olfatto"@.len() == 28);
    assert("Attacchi basati sulla vista"@.len() == 27);
    assert("Attacchi basati sulla vista o sguardo"@.len() == 37);
    assert("Attacchi con Sguardo"@.len() == 20);
    assert("Attacchi con lo sguardo"@.len() == 23);
    assert("Attacchi dipendenti dalla vista"@.len() == 31);
    assert("Barcollante"@.len() == 11);
    assert("Barcollare"@.len() == 10);
    assert("Cecità"@.len() == 6);
    assert("Colpi Critici"@.len() == 13);
    assert("Colpi critici"@.len() == 13);
    assert("Condizione Affaticato"@.len() == 21);
    assert("Condizione Esausto"@.len() == 18);
    assert("Confusione"@.len() == 10);
    assert("Danni contundenti"@.len() == 17);
    assert("Danni da arma"@.len() == 13);
    assert("Danni da armi"@.len() == 13);
    assert("Danni dalle Armi"@.len() == 16);
    assert("Danni perforanti e taglienti"@.len() == 28);
    assert("Danno da arma"@.len() == 13);
    assert("Effetti di Paura"@.len() == 16);
    assert("Effetti di Sonno"@.len() == 16);
    assert("Effetti di paura"@.len() == 16);
    assert("Effetti di sonno"@.len() == 16);
    assert("Elettricità"@.len() == 11);
    assert("Elettricità (parziale)"@.len() == 22);
    assert("Energia Negativa"@.len() == 16);
    assert("Energia Positiva"@.len() == 16);
    assert("Esaurimento"@.len() == 11);
    assert("Esausto"@.len() == 7);
    assert("Fatica"@.len() == 6);
    assert("Fiancheggiamento"@.len() == 16);
    assert("Frastornamento"@.len() == 14);
    assert("Frastornato"@.len() == 11);
    assert("Freddo"@.len() == 6);
    assert("Freddo (sé stesso e chi lo cavalca)"@.len() == 35);
    assert("Fuoco"@.len() == 5);
    assert("Fuoco Infernale"@.len() == 15);
    assert("Immunità al Freddo"@.len() == 18);
    assert("Immunità alla Magia"@.len() == 19);
    assert("Infermità"@.len() == 9);
    assert("Infermo"@.len() == 7);
    assert("Magia"@.len() == 5);
    assert("Malattia"@.len() == 8);
    assert("Malattie"@.len() == 8);
    assert("Maledizioni"@.len() == 11);
    assert("Nausea"@.len() == 6);
    assert("Nauseato"@.len() == 8);
    assert("Paralisi"@.len() == 8);
    assert("Paura"@.len() == 5);
    assert("Pietrificazione"@.len() == 15);
    assert("Sanguinamento"@.len() == 13);
    assert("Sanguinamento (solo Punti Ferita)"@.len() == 33);
    assert("Scosso"@.len() == 6);
    assert("Sguardo"@.len() == 7);
    assert("Sonno"@.len() == 5);
    assert("Sonoro"@.len() == 6);
    assert("Sordità"@.len() == 7);
    assert("Spaventato"@.len() == 10);
    assert("Stordimento"@.len() == 11);
    assert("Veleni"@.len() == 6);
    assert("Veleno"@.len() == 6);
    assert("Veleno Ingerito"@.len() == 15);
    assert("acido"@.len() == 5);
    assert("attacchi con Sguardo"@.len() == 20);
    assert("attacchi con lo Sguardo"@.len() == 23);
    assert("attacchi con lo sguardo"@.len() == 23);
    assert("contundente"@.len() == 11);
    assert("da caduta e da schiacciamento"@.len() == 29);
    assert("danni contundenti"@.len() == 17);
    assert("danni contundenti e perforanti"@.len() == 30);
    assert("danni da arma"@.len() == 13);
    assert("danni da armi"@.len() == 13);
    assert("danni da precisione"@.len() == 19);
    assert("danni delle armi"@.len() == 16);
    assert("danni di precisione"@.len() == 19);
    assert("danni perforanti"@.len() == 16);
    assert("danni taglienti"@.len() == 15);
    assert("danni taglienti e perforanti"@.len() == 28);
    assert("danno da arma"@.len() == 13);
    assert("danno di precisione"@.len() == 19);
    assert("effetti Barcollanti"@.len() == 19);
    assert("effetti di Paura"@.len() == 16);
    assert("effetti di Sonno"@.len() == 16);
    assert("effetti di maledizione"@.len() == 22);
    assert("effetti di maledizioni"@.len() == 22);
    assert("effetti di paura"@.len() == 16);
    assert("effetti di sonno"@.len() == 16);
    assert("elettricità"@.len() == 11);
    assert("energia negativa"@.len() == 16);
    assert("freddo"@.len() == 6);
    assert("fuoco"@.len() == 5);
    assert("malattia"@.len() == 8);
    assert("malattie"@.len() == 8);
    assert("maledizioni"@.len() == 11);
    assert("nausea"@.len() == 6);
    assert("paralisi"@.len() == 8);
    assert("paura"@.len() == 5);
    assert("pietrificazione"@.len() == 15);
    assert("sanguinamento"@.len() == 13);
    assert("sonno"@.len() == 5);
    assert("sonoro"@.len() == 6);
    assert("sordità"@.len() == 7);
    assert("stordimento"@.len() == 11);
    assert("veleni"@.len() == 6);
    assert("veleno"@.len() == 6);
    assert("Fiancheggiamento"@[0] != "Energia Negativa"@[0]);
    assert("Fiancheggiamento"@ != "Energia Negativa"@);
    assert("Fiancheggiamento"@[0] != "energia negativa"@[0]);
    assert("Fiancheggiamento"@ != "energia negativa"@);
    assert("Fiancheggiamento"@[0] != "Energia Positiva"@[0]);
    assert("Fiancheggiamento"@ != "Energia Positiva"@);
    assert("Fiancheggiamento"@[0] != "energia negativa"@[0]);
    assert("Fiancheggiamento"@ != "energia negativa"@);
    assert("Fiancheggiamento"@[0] != "effetti di sonno"@[0]);
    assert("Fiancheggiamento"@ != "effetti di sonno"@);
    assert("Fiancheggiamento"@[0] != "Effetti di Sonno"@[0]);
    assert("Fiancheggiamento"@ != "Effetti di Sonno"@);
    assert("Fiancheggiamento"@[0] != "Effetti di sonno"@[0]);
    assert("Fiancheggiamento"@ != "Effetti di sonno"@);
    assert("Fiancheggiamento"@[0] != "effetti di Sonno"@[0]);
    assert("Fiancheggiamento"@ != "effetti di Sonno"@);
    assert("Fiancheggiamento"@[0] != "Effetti di Paura"@[0]);
    assert("Fiancheggiamento"@ != "Effetti di Paura"@);
    assert("Fiancheggiamento"@[0] != "effetti di Paura"@[0]);
    assert("Fiancheggiamento"@ != "effetti di Paura"@);
    assert("Fiancheggiamento"@[0] != "effetti di paura"@[0]);
    assert("Fiancheggiamento"@ != "effetti di paura"@);
    assert("Fiancheggiamento"@[0] != "Effetti di paura"@[0]);
    assert("Fiancheggiamento"@ != "Effetti di paura"@);
    assert("Fiancheggiamento"@[0] != "Attacchi Furtivi"@[0]);
    assert("Fiancheggiamento"@ != "Attacchi Furtivi"@);
    assert("Fiancheggiamento"@[0] != "danni delle armi"@[0]);
    assert("Fiancheggiamento"@ != "danni delle armi"@);
    assert("Fiancheggiamento"@[0] != "Danni dalle Armi"@[0]);
    assert("Fiancheggiamento"@ != "Danni dalle Armi"@);
    assert("Fiancheggiamento"@[0] != "Armi contundenti"@[0]);
    assert("Fiancheggiamento"@ != "Armi contundenti"@);
    assert("Fiancheggiamento"@[0] != "danni perforanti"@[0]);
    assert("Fiancheggiamento"@ != "danni perforanti"@);
    assert("Attacchi ai Fianchi"@[0] != "effetti Barcollanti"@[0]);
    assert("Attacchi ai Fianchi"@ != "effetti Barcollanti"@);
    assert("Attacchi ai Fianchi"@[0] != "Immunità alla Magia"@[0]);
    assert("Attacchi ai Fianchi"@ != "Immunità alla Magia"@);
    assert("Attacchi ai Fianchi"@[0] != "danno di precisione"@[0]);
    assert("Attacchi ai Fianchi"@ != "danno di precisione"@);
    assert("Attacchi ai Fianchi"@[0] != "danni da precisione"@[0]);
    assert("Attacchi ai Fianchi"@ != "danni da precisione"@);
    assert("Attacchi ai Fianchi"@[0] != "danni di precisione"@[0]);
    assert("Attacchi ai Fianchi"@ != "danni di precisione"@);
}

proof fn lemma_read_immunity_nonlethaldamage(s: Seq<char>)
    requires
        immunity_named(Immunity_Type::Immunity_NonLethalDamage, s),
    ensures
        spec_single_immunity(s) == Some(Immunity_Type::Immunity_NonLethalDamage),
{
    reveal_strlit("Abbagliamenti");
    reveal_strlit("Abbagliamento");
    reveal_strlit("Abbagliato");
    reveal_strlit("Accecato");
    reveal_strlit("Acido");
    reveal_strlit("Affaticamento");
    reveal_strlit("Affaticato");
    reveal_strlit("Armi Taglienti");
    reveal_strlit("Armi contundenti");
    reveal_strlit("Assorbimento del Fuoco");
    reveal_strlit("Attacchi Furtivi");
    reveal_strlit("Attacchi ai Fianchi");
    reveal_strlit("Attacchi basati sull'olfatto");
    reveal_strlit("Attacchi basati sulla vista");
    reveal_strlit("Attacchi basati sulla vista o sguardo");
    reveal_strlit("Attacchi con Sguardo");
    reveal_strlit("Attacchi con lo sguardo");
    reveal_strlit("Attacchi dipendenti dalla vista");
    reveal_strlit("Barcollante");
    reveal_strlit("Barcollare");
    reveal_strlit("Cecità");
    reveal_strlit("Colpi Critici");
    reveal_strlit("Colpi critici");
    reveal_strlit("Condizione Affaticato");
    reveal_strlit("Condizione Esausto");
    reveal_strlit("Confusione");
    reveal_strlit("Danni Non Letali");
    reveal_strlit("Danni contundenti");
    reveal_strlit("Danni da arma");
    reveal_strlit("Danni da armi");
    reveal_strlit("Danni dalle Armi");
    reveal_strlit("Danni perforanti e taglienti");
    reveal_strlit("Danno da arma");
    reveal_strlit("Danno non letale");
    reveal_strlit("Effetti di Paura");
    reveal_strlit("Effetti di Sonno");
    reveal_strlit("Effetti di paura");
    reveal_strlit("Effetti di sonno");
    reveal_strlit("Elettricità");
    reveal_strlit("Elettricità (parziale)");
    reveal_strlit("Energia Negativa");
    reveal_strlit("Energia Positiva");
    reveal_strlit("Esaurimento");
    reveal_strlit("Esausto");
    reveal_strlit("Fatica");
    reveal_strlit("Fiancheggiamento");
    reveal_strlit("Frastornamento");
    reveal_strlit("Frastornato");
    reveal_strlit("Freddo");
    reveal_strlit("Freddo (sé stesso e chi lo cavalca)");
    reveal_strlit("Fuoco");
    reveal_strlit("Fuoco Infernale");
    reveal_strlit("Immunità al Freddo");
    reveal_strlit("Immunità alla Magia");
    reveal_strlit("Infermità");
    reveal_strlit("Infermo");
    reveal_strlit("Magia");
    reveal_strlit("Malattia");
    reveal_strlit("Malattie");
    reveal_strlit("Maledizioni");
    reveal_strlit("Nausea");
    reveal_strlit("Nauseato");
    reveal_strlit("Paralisi");
    reveal_strlit("Paura");
    reveal_strlit("Pietrificazione");
    reveal_strlit("Sanguinamento");
    reveal_strlit("Sanguinamento (solo Punti Ferita)");
    reveal_strlit("Scosso");
    reveal_strlit("Sguardo");
    reveal_strlit("Sonno");
    reveal_strlit("Sonoro");
    reveal_strlit("Sordità");
    reveal_strlit("Spaventato");
    reveal_strlit("Stordimento");
    reveal_strlit("Veleni");
    reveal_strlit("Veleno");
    reveal_strlit("Veleno Ingerito");
    reveal_strlit("acido");
    reveal_strlit("attacchi con Sguardo");
    reveal_strlit("attacchi con lo Sguardo");
    reveal_strlit("attacchi con lo sguardo");
    reveal_strlit("contundente");
    reveal_strlit("da caduta e da schiacciamento");
    reveal_strlit("danni contundenti");
    reveal_strlit("danni contundenti e perforanti");
    reveal_strlit("danni da arma");
    reveal_strlit("danni da armi");
    reveal_strlit("danni da precisione");
    reveal_strlit("danni delle armi");
    reveal_strlit("danni di precisione");
    reveal_strlit("danni perforanti");
    reveal_strlit("danni taglienti");
    reveal_strlit("danni taglienti e perforanti");
    reveal_strlit("danno da arma");
    reveal_strlit("danno di precisione");
    reveal_strlit("effetti Barcollanti");
    reveal_strlit("effetti di Paura");
    reveal_strlit("effetti di Sonno");
    reveal_strlit("effetti di maledizione");
    reveal_strlit("effetti di maledizioni");
    reveal_strlit("effetti di paura");
    reveal_strlit("effetti di sonno");
    reveal_strlit("elettricità");
    reveal_strlit("energia negativa");
    reveal_strlit("freddo");
    reveal_strlit("fuoco");
    reveal_strlit("malattia");
    reveal_strlit("malattie");
    reveal_strlit("maledizioni");
    reveal_strlit("nausea");
    reveal_strlit("paralisi");
    reveal_strlit("paura");
    reveal_strlit("pietrificazione");
    reveal_strlit("sanguinamento");
    reveal_strlit("sonno");
    reveal_strlit("sonoro");
    reveal_strlit("sordità");
    reveal_strlit("stordimento");
    reveal_strlit("veleni");
    reveal_strlit("veleno");
    assert("Abbagliamenti"@.len() == 13);
    assert("Abbagliamento"@.len() == 13);
    assert("Abbagliato"@.len() == 10);
    assert("Accecato"@.len() == 8);
    assert("Acido"@.len() == 5);
    assert("Affaticamento"@.len() == 13);
    assert("Affaticato"@.len() == 10);
    assert("Armi Taglienti"@.len() == 14);
    assert("Armi contundenti"@.len() == 16);
    assert("Assorbimento del Fuoco"@.len() == 22);
    assert("Attacchi Furtivi"@.len() == 16);
    assert("Attacchi ai Fianchi"@.len() == 19);
    assert("Attacchi basati sull'olfatto"@.len() == 28);
    assert("Attacchi basati sulla vista"@.len() == 27);
    assert("Attacchi basati sulla vista o sguardo"@.len() == 37);
    assert("Attacchi con Sguardo"@.len() == 20);
    assert("Attacchi con lo sguardo"@.len() == 23);
    assert("Attacchi dipendenti dalla vista"@.len() == 31);
    assert("Barcollante"@.len() == 11);
    assert("Barcollare"@.len() == 10);
    assert("Cecità"@.len() == 6);
    assert("Colpi Critici"@.len() == 13);
    assert("Colpi critici"@.len() == 13);
    assert("Condizione Affaticato"@.len() == 21);
    assert("Condizione Esausto"@.len() == 18);
    assert("Confusione"@.len() == 10);
    assert("Danni Non Letali"@.len() == 16);
    assert("Danni contundenti"@.len() == 17);
    assert("Danni da arma"@.len() == 13);
    assert("Danni da armi"@.len() == 13);
    assert("Danni dalle Armi"@.len() == 16);
    assert("Danni perforanti e taglienti"@.len() == 28);
    assert("Danno da arma"@.len() == 13);
    assert("Danno non letale"@.len() == 16);
    assert("Effetti di Paura"@.len() == 16);
    assert("Effetti di Sonno"@.len() == 16);
    assert("Effetti di paura"@.len() == 16);
    assert("Effetti di sonno"@.len() == 16);
    assert("Elettricità"@.len() == 11);
    assert("Elettricità (parziale)"@.len() == 22);
    assert("Energia Negativa"@.len() == 16);
    assert("Energia Positiva"@.len() == 16);
    assert("Esaurimento"@.len() == 11);
    assert("Esausto"@.len() == 7);
    assert("Fatica"@.len() == 6);
    assert("Fiancheggiamento"@.len() == 16);
    assert("Frastornamento"@.len() == 14);
    assert("Frastornato"@.len() == 11);
    assert("Freddo"@.len() == 6);
    assert("Freddo (sé stesso e chi lo cavalca)"@.len() == 35);
    assert("Fuoco"@.len() == 5);
    assert("Fuoco Infernale"@.len() == 15);
    assert("Immunità al Freddo"@.len() == 18);
    assert("Immunità alla Magia"@.len() == 19);
    assert("Infermità"@.len() == 9);
    assert("Infermo"@.len() == 7);
    assert("Magia"@.len() == 5);
    assert("Malattia"@.len() == 8);
    assert("Malattie"@.len() == 8);
    assert("Maledizioni"@.len() == 11);
    assert("Nausea"@.len() == 6);
    assert("Nauseato"@.len() == 8);
    assert("Paralisi"@.len() == 8);
    assert("Paura"@.len() == 5);
    assert("Pietrificazione"@.len() == 15);
    assert("Sanguinamento"@.len() == 13);
    assert("Sanguinamento (solo Punti Ferita)"@.len() == 33);
    assert("Scosso"@.len() == 6);
    assert("Sguardo"@.len() == 7);
    assert("Sonno"@.len() == 5);
    assert("Sonoro"@.len() == 6);
    assert("Sordità"@.len() == 7);
    assert("Spaventato"@.len() == 10);
    assert("Stordimento"@.len() == 11);
    assert("Veleni"@.len() == 6);
    assert("Veleno"@.len() == 6);
    assert("Veleno Ingerito"@.len() == 15);
    assert("acido"@.len() == 5);
    assert("attacchi con Sguardo"@.len() == 20);
    assert("attacchi con lo Sguardo"@.len() == 23);
    assert("attacchi con lo sguardo"@.len() == 23);
    assert("contundente"@.len() == 11);
    assert("da caduta e da schiacciamento"@.len() == 29);
    assert("danni contundenti"@.len() == 17);
    assert("danni contundenti e perforanti"@.len() == 30);
    assert("danni da arma"@.len() == 13);
    assert("danni da armi"@.len() == 13);
    assert("danni da precisione"@.len() == 19);
    assert("danni delle armi"@.len() == 16);
    assert("danni di precisione"@.len() == 19);
    assert("danni perforanti"@.len() == 16);
    assert("danni taglienti"@.len() == 15);
    assert("danni taglienti e perforanti"@.len() == 28);
    assert("danno da arma"@.len() == 13);
    assert("danno di precisione"@.len() == 19);
    assert("effetti Barcollanti"@.len() == 19);
    assert("effetti di Paura"@.len() == 16);
    assert("effetti di Sonno"@.len() == 16);
    assert("effetti di maledizione"@.len() == 22);
    assert("effetti di maledizioni"@.len() == 22);
    assert("effetti di paura"@.len() == 16);
    assert("effetti di sonno"@.len() == 16);
    assert("elettricità"@.len() == 11);
    assert("energia negativa"@.len() == 16);
    assert("freddo"@.len() == 6);
    assert("fuoco"@.len() == 5);
    assert("malattia"@.len() == 8);
    assert("malattie"@.len() == 8);
    assert("maledizioni"@.len() == 11);
    assert("nausea"@.len() == 6);
    assert("paralisi"@.len() == 8);
    assert("paura"@.len() == 5);
    assert("pietrificazione"@.len() == 15);
    assert("sanguinamento"@.len() == 13);
    assert("sonno"@.len() == 5);
    assert("sonoro"@.len() == 6);
    assert("sordità"@.len() == 7);
    assert("stordimento"@.len() == 11);
    assert("veleni"@.len() == 6);
    assert("veleno"@.len() == 6);
    assert("Danni Non Letali"@[0] != "Energia Negativa"@[0]);
    assert("Danni Non Letali"@ != "Energia Negativa"@);
    assert("Danni Non Letali"@[0] != "energia negativa"@[0]);
    assert("Danni Non Letali"@ != "energia negativa"@);
    assert("Danni Non Letali"@[0] != "Energia Positiva"@[0]);
    assert("Danni Non Letali"@ != "Energia Positiva"@);
    assert("Danni Non Letali"@[0] != "energia negativa"@[0]);
    assert("Danni Non Letali"@ != "energia negativa"@);
    assert("Danni Non Letali"@[0] != "effetti di sonno"@[0]);
    assert("Danni Non Letali"@ != "effetti di sonno"@);
    assert("Danni Non Letali"@[0] != "Effetti di Sonno"@[0]);
    assert("Danni Non Letali"@ != "Effetti di Sonno"@);
    assert("Danni Non Letali"@[0] != "Effetti di sonno"@[0]);
    assert("Danni Non Letali"@ != "Effetti di sonno"@);
    assert("Danni Non Letali"@[0] != "effetti di Sonno"@[0]);
    assert("Danni Non Letali"@ != "effetti di Sonno"@);
    assert("Danni Non Letali"@[0] != "Effetti di Paura"@[0]);
    assert("Danni Non Letali"@ != "Effetti di Paura"@);
    assert("Danni Non Letali"@[0] != "effetti di Paura"@[0]);
    assert("Danni Non Letali"@ != "effetti di Paura"@);
    assert("Danni Non Letali"@[0] != "effetti di paura"@[0]);
    assert("Danni Non Letali"@ != "effetti di paura"@);
    assert("Danni Non Letali"@[0] != "Effetti di paura"@[0]);
    assert("Danni Non Letali"@ != "Effetti di paura"@);
    assert("Danni Non Letali"@[0] != "Attacchi Furtivi"@[0]);
    assert("Danni Non Letali"@ != "Attacchi Furtivi"@);
    assert("Danni Non Letali"@[0] != "danni delle armi"@[0]);
    assert("Danni Non Letali"@ != "danni delle armi"@);
    assert("Danni Non Letali"@[6] != "Danni dalle Armi"@[6]);
    assert("Danni Non Letali"@ != "Danni dalle Armi"@);
    assert("Danni Non Letali"@[0] != "Armi contundenti"@[0]);
    assert("Danni Non Letali"@ != "Armi contundenti"@);
    assert("Danni Non Letali"@[0] != "danni perforanti"@[0]);
    assert("Danni Non Letali"@ != "danni perforanti"@);
    assert("Danni Non Letali"@[0] != "Fiancheggiamento"@[0]);
    assert("Danni Non Letali"@ != "Fiancheggiamento"@);
    assert("Danno non letale"@[0] != "Energia Negativa"@[0]);
    assert("Danno non letale"@ != "Energia Negativa"@);
    assert("Danno non letale"@[0] != "energia negativa"@[0]);
    assert("Danno non letale"@ != "energia negativa"@);
    assert("Danno non letale"@[0] != "Energia Positiva"@[0]);
    assert("Danno non letale"@ != "Energia Positiva"@);
    assert("Danno non letale"@[0] != "energia negativa"@[0]);
    assert("Danno non letale"@ != "energia negativa"@);
    assert("Danno non letale"@[0] != "effetti di sonno"@[0]);
    assert("Danno non letale"@ != "effetti di sonno"@);
    assert("Danno non letale"@[0] != "Effetti di Sonno"@[0]);
    assert("Danno non letale"@ != "Effetti di Sonno"@);
    assert("Danno non letale"@[0] != "Effetti di sonno"@[0]);
    assert("Danno non letale"@ != "Effetti di sonno"@);
    assert("Danno non letale"@[0] != "effetti di Sonno"@[0]);
    assert("Danno non letale"@ != "effetti di Sonno"@);
    assert("Danno non letale"@[0] != "Effetti di Paura"@[0]);
    assert("Danno non letale"@ != "Effetti di Paura"@);
    assert("Danno non letale"@[0] != "effetti di Paura"@[0]);
    assert("Danno non letale"@ != "effetti di Paura"@);
    assert("Danno non letale"@[0] != "effetti di paura"@[0]);
    assert("Danno non letale"@ != "effetti di paura"@);
    assert("Danno non letale"@[0] != "Effetti di paura"@[0]);
    assert("Danno non letale"@ != "Effetti di paura"@);
    assert("Danno non letale"@[0] != "Attacchi Furtivi"@[0]);
    assert("Danno non letale"@ != "Attacchi Furtivi"@);
    assert("Danno non letale"@[0] != "danni delle armi"@[0]);
    assert("Danno non letale"@ != "danni delle armi"@);
    assert("Danno non letale"@[4] != "Danni dalle Armi"@[4]);
    assert("Danno non letale"@ != "Danni dalle Armi"@);
    assert("Danno non letale"@[0] != "Armi contundenti"@[0]);
    assert("Danno non letale"@ != "Armi contundenti"@);
    assert("Danno non letale"@[0] != "danni perforanti"@[0]);
    assert("Danno non letale"@ != "danni perforanti"@);
    assert("Danno non letale"@[0] != "Fiancheggiamento"@[0]);
    assert("Danno non letale"@ != "Fiancheggiamento"@);
    assert("Danno non letale"@[4] != "Danni Non Letali"@[4]);
    assert("Danno non letale"@ != "Danni Non Letali"@);
}

proof fn lemma_read_immunity_warpproof(s: Seq<char>)
    requires
        immunity_named(Immunity_Type::Immunity_Warpproof, s),
    ensures
        spec_single_immunity(s) == Some(Immunity_Type::Immunity_Warpproof),
{
    reveal_strlit("Abbagliamenti");
    reveal_strlit("Abbagliamento");
    reveal_strlit("Abbagliato");
    reveal_strlit("Accecato");
    reveal_strlit("Acido");
    reveal_strlit("Affaticamento");
    reveal_strlit("Affaticato");
    reveal_strlit("Armi Taglienti");
    reveal_strlit("Armi contundenti");
    reveal_strlit("Assorbimento del Fuoco");
    reveal_strlit("Attacchi Furtivi");
    reveal_strlit("Attacchi ai Fianchi");
    reveal_strlit("Attacchi basati sull'olfatto");
    reveal_strlit("Attacchi basati sulla vista");
    reveal_strlit("Attacchi basati sulla vista o sguardo");
    reveal_strlit("Attacchi con Sguardo");
    reveal_strlit("Attacchi con lo sguardo");
    reveal_strlit("Attacchi dipendenti dalla vista");
    reveal_strlit("Barcollante");
    reveal_strlit("Barcollare");
    reveal_strlit("Cecità");
    reveal_strlit("Colpi Critici");
    reveal_strlit("Colpi critici");
    reveal_strlit("Condizione Affaticato");
    reveal_strlit("Condizione Esausto");
    reveal_strlit("Confusione");
    reveal_strlit("Danni Non Letali");
    reveal_strlit("Danni contundenti");
    reveal_strlit("Danni da arma");
    reveal_strlit("Danni da armi");
    reveal_strlit("Danni dalle Armi");
    reveal_strlit("Danni perforanti e taglienti");
    reveal_strlit("Danno da arma");
    reveal_strlit("Danno non letale");
    reveal_strlit("Effetti di Paura");
    reveal_strlit("Effetti di Sonno");
    reveal_strlit("Effetti di paura");
    reveal_strlit("Effetti di sonno");
    reveal_strlit("Elettricità");
    reveal_strlit("Elettricità (parziale)");
    reveal_strlit("Energia Negativa");
    reveal_strlit("Energia Positiva");
    reveal_strlit("Esaurimento");
    reveal_strlit("Esausto");
    reveal_strlit("Fatica");
    reveal_strlit("Fiancheggiamento");
    reveal_strlit("Frastornamento");
    reveal_strlit("Frastornato");
    reveal_strlit("Freddo");
    reveal_strlit("Freddo (sé stesso e chi lo cavalca)");
    reveal_strlit("Fuoco");
    reveal_strlit("Fuoco Infernale");
    reveal_strlit("Immunità al Freddo");
    reveal_strlit("Immunità alla Magia");
    reveal_strlit("Infermità");
    reveal_strlit("Infermo");
    reveal_strlit("Magia");
    reveal_strlit("Malattia");
    reveal_strlit("Malattie");
    reveal_strlit("Maledizioni");
    reveal_strlit("Nausea");
    reveal_strlit("Nauseato");
    reveal_strlit("Non Deformante");
    reveal_strlit("Paralisi");
    reveal_strlit("Paura");
    reveal_strlit("Pietrificazione");
    reveal_strlit("Sanguinamento");
    reveal_strlit("Sanguinamento (solo Punti Ferita)");
    reveal_strlit("Scosso");
    reveal_strlit("Sguardo");
    reveal_strlit("Sonno");
    reveal_strlit("Sonoro");
    reveal_strlit("Sordità");
    reveal_strlit("Spaventato");
    reveal_strlit("Stordimento");
    reveal_strlit("Veleni");
    reveal_strlit("Veleno");
    reveal_strlit("Veleno Ingerito");
    reveal_strlit("acido");
    reveal_strlit("attacchi con Sguardo");
    reveal_strlit("attacchi con lo Sguardo");
    reveal_strlit("attacchi con lo sguardo");
    reveal_strlit("contundente");
    reveal_strlit("da caduta e da schiacciamento");
    reveal_strlit("danni contundenti");
    reveal_strlit("danni contundenti e perforanti");
    reveal_strlit("danni da arma");
    reveal_strlit("danni da armi");
    reveal_strlit("danni da precisione");
    reveal_strlit("danni delle armi");
    reveal_strlit("danni di precisione");
    reveal_strlit("danni perforanti");
    reveal_strlit("danni taglienti");
    reveal_strlit("danni taglienti e perforanti");
    reveal_strlit("danno da arma");
    reveal_strlit("danno di precisione");
    reveal_strlit("effetti Barcollanti");
    reveal_strlit("effetti di Paura");
    reveal_strlit("effetti di Sonno");
    reveal_strlit("effetti di maledizione");
    reveal_strlit("effetti di maledizioni");
    reveal_strlit("effetti di paura");
    reveal_strlit("effetti di sonno");
    reveal_strlit("elettricità");
    reveal_strlit("energia negativa");
    reveal_strlit("freddo");
    reveal_strlit("fuoco");
    reveal_strlit("malattia");
    reveal_strlit("malattie");
    reveal_strlit("maledizioni");
    reveal_strlit("nausea");
    reveal_strlit("paralisi");
    reveal_strlit("paura");
    reveal_strlit("pietrificazione");
    reveal_strlit("sanguinamento");
    reveal_strlit("sonno");
    reveal_strlit("sonoro");
    reveal_strlit("sordità");
    reveal_strlit("stordimento");
    reveal_strlit("veleni");
    reveal_strlit("veleno");
    assert("Abbagliamenti"@.len() == 13);
    assert("Abbagliamento"@.len() == 13);
    assert("Abbagliato"@.len() == 10);
    assert("Accecato"@.len() == 8);
    assert("Acido"@.len() == 5);
    assert("Affaticamento"@.len() == 13);
    assert("Affaticato"@.len() == 10);
    assert("Armi Taglienti"@.len() == 14);
    assert("Armi contundenti"@.len() == 16);
    assert("Assorbimento del Fuoco"@.len() == 22);
    assert("Attacchi Furtivi"@.len() == 16);
    assert("Attacchi ai Fianchi"@.len() == 19);
    assert("Attacchi basati sull'olfatto"@.len() == 28);
    assert("Attacchi basati sulla vista"@.len() == 27);
    assert("Attacchi basati sulla vista o sguardo"@.len() == 37);
    assert("Attacchi con Sguardo"@.len() == 20);
    assert("Attacchi con lo sguardo"@.len() == 23);
    assert("Attacchi dipendenti dalla vista"@.len() == 31);
    assert("Barcollante"@.len() == 11);
    assert("Barcollare"@.len() == 10);
    assert("Cecità"@.len() == 6);
    assert("Colpi Critici"@.len() == 13);
    assert("Colpi critici"@.len() == 13);
    assert("Condizione Affaticato"@.len() == 21);
    assert("Condizione Esausto"@.len() == 18);
    assert("Confusione"@.len() == 10);
    assert("Danni Non Letali"@.len() == 16);
    assert("Danni contundenti"@.len() == 17);
    assert("Danni da arma"@.len() == 13);
    assert("Danni da armi"@.len() == 13);
    assert("Danni dalle Armi"@.len() == 16);
    assert("Danni perforanti e taglienti"@.len() == 28);
    assert("Danno da arma"@.len() == 13);
    assert("Danno non letale"@.len() == 16);
    assert("Effetti di Paura"@.len() == 16);
    assert("Effetti di Sonno"@.len() == 16);
    assert("Effetti di paura"@.len() == 16);
    assert("Effetti di sonno"@.len() == 16);
    assert("Elettricità"@.len() == 11);
    assert("Elettricità (parziale)"@.len() == 22);
    assert("Energia Negativa"@.len() == 16);
    assert("Energia Positiva"@.len() == 16);
    assert("Esaurimento"@.len() == 11);
    assert("Esausto"@.len() == 7);
    assert("Fatica"@.len() == 6);
    assert("Fiancheggiamento"@.len() == 16);
    assert("Frastornamento"@.len() == 14);
    assert("Frastornato"@.len() == 11);
    assert("Freddo"@.len() == 6);
    assert("Freddo (sé stesso e chi lo cavalca)"@.len() == 35);
    assert("Fuoco"@.len() == 5);
    assert("Fuoco Infernale"@.len() == 15);
    assert("Immunità al Freddo"@.len() == 18);
    assert("Immunità alla Magia"@.len() == 19);
    assert("Infermità"@.len() == 9);
    assert("Infermo"@.len() == 7);
    assert("Magia"@.len() == 5);
    assert("Malattia"@.len() == 8);
    assert("Malattie"@.len() == 8);
    assert("Maledizioni"@.len() == 11);
    assert("Nausea"@.len() == 6);
    assert("Nauseato"@.len() == 8);
    assert("Non Deformante"@.len() == 14);
    assert("Paralisi"@.len() == 8);
    assert("Paura"@.len() == 5);
    assert("Pietrificazione"@.len() == 15);
    assert("Sanguinamento"@.len() == 13);
    assert("Sanguinamento (solo Punti Ferita)"@.len() == 33);
    assert("Scosso"@.len() == 6);
    assert("Sguardo"@.len() == 7);
    assert("Sonno"@.len() == 5);
    assert("Sonoro"@.len() == 6);
    assert("Sordità"@.len() == 7);
    assert("Spaventato"@.len() == 10);
    assert("Stordimento"@.len() == 11);
    assert("Veleni"@.len() == 6);
    assert("Veleno"@.len() == 6);
    assert("Veleno Ingerito"@.len() == 15);
    assert("acido"@.len() == 5);
    assert("attacchi con Sguardo"@.len() == 20);
    assert("attacchi con lo Sguardo"@.len() == 23);
    assert("attacchi con lo sguardo"@.len() == 23);
    assert("contundente"@.len() == 11);
    assert("da caduta e da schiacciamento"@.len() == 29);
    assert("danni contundenti"@.len() == 17);
    assert("danni contundenti e perforanti"@.len() == 30);
    assert("danni da arma"@.len() == 13);
    assert("danni da armi"@.len() == 13);
    assert("danni da precisione"@.len() == 19);
    assert("danni delle armi"@.len() == 16);
    assert("danni di precisione"@.len() == 19);
    assert("danni perforanti"@.len() == 16);
    assert("danni taglienti"@.len() == 15);
    assert("danni taglienti e perforanti"@.len() == 28);
    assert("danno da arma"@.len() == 13);
    assert("danno di precisione"@.len() == 19);
    assert("effetti Barcollanti"@.len() == 19);
    assert("effetti di Paura"@.len() == 16);
    assert("effetti di Sonno"@.len() == 16);
    assert("effetti di maledizione"@.len() == 22);
    assert("effetti di maledizioni"@.len() == 22);
    assert("effetti di paura"@.len() == 16);
    assert("effetti di sonno"@.len() == 16);
    assert("elettricità"@.len() == 11);
    assert("energia negativa"@.len() == 16);
    assert("freddo"@.len() == 6);
    assert("fuoco"@.len() == 5);
    assert("malattia"@.len() == 8);
    assert("malattie"@.len() == 8);
    assert("maledizioni"@.len() == 11);
    assert("nausea"@.len() == 6);
    assert("paralisi"@.len() == 8);
    assert("paura"@.len() == 5);
    assert("pietrificazione"@.len() == 15);
    assert("sanguinamento"@.len() == 13);
    assert("sonno"@.len() == 5);
    assert("sonoro"@.len() == 6);
    assert("sordità"@.len() == 7);
    assert("stordimento"@.len() == 11);
    assert("veleni"@.len() == 6);
    assert("veleno"@.len() == 6);
    assert("Non Deformante"@[0] != "Frastornamento"@[0]);
    assert("Non Deformante"@ != "Frastornamento"@);
    assert("Non Deformante"@[0] != "Armi Taglienti"@[0]);
    assert("Non Deformante"@ != "Armi Taglienti"@);
}

proof fn lemma_read_immunity_pressure(s: Seq<char>)
    requires
        immunity_named(Immunity_Type::Immunity_Pressure, s),
    ensures
        spec_single_immunity(s) == Some(Immunity_Type::Immunity_Pressure),
{
    reveal_strlit("Abbagliamenti");
    reveal_strlit("Abbagliamento");
    reveal_strlit("Abbagliato");
    reveal_strlit("Accecato");
    reveal_strlit("Acido");
    reveal_strlit("Affaticamento");
    reveal_strlit("Affaticato");
    reveal_strlit("Armi Taglienti");
    reveal_strlit("Armi contundenti");
    reveal_strlit("Assorbimento del Fuoco");
    reveal_strlit("Attacchi Furtivi");
    reveal_strlit("Attacchi ai Fianchi");
    reveal_strlit("Attacchi basati sull'olfatto");
    reveal_strlit("Attacchi basati sulla vista");
    reveal_strlit("Attacchi basati sulla vista o sguardo");
    reveal_strlit("Attacchi con Sguardo");
    reveal_strlit("Attacchi con lo sguardo");
    reveal_strlit("Attacchi dipendenti dalla vista");
    reveal_strlit("Barcollante");
    reveal_strlit("Barcollare");
    reveal_strlit("Cecità");
    reveal_strlit("Colpi Critici");
    reveal_strlit("Colpi critici");
    reveal_strlit("Condizione Affaticato");
    reveal_strlit("Condizione Esausto");
    reveal_strlit("Confusione");
    reveal_strlit("Danni Non Letali");
    reveal_strlit("Danni contundenti");
    reveal_strlit("Danni da arma");
    reveal_strlit("Danni da armi");
    reveal_strlit("Danni dalle Armi");
    reveal_strlit("Danni perforanti e taglienti");
    reveal_strlit("Danno da Pressione");
    reveal_strlit("Danno da arma");
    reveal_strlit("Danno non letale");
    reveal_strlit("Effetti di Paura");
    reveal_strlit("Effetti di Sonno");
    reveal_strlit("Effetti di paura");
    reveal_strlit("Effetti di sonno");
    reveal_strlit("Elettricità");
    reveal_strlit("Elettricità (parziale)");
    reveal_strlit("Energia Negativa");
    reveal_strlit("Energia Positiva");
    reveal_strlit("Esaurimento");
    reveal_strlit("Esausto");
    reveal_strlit("Fatica");
    reveal_strlit("Fiancheggiamento");
    reveal_strlit("Frastornamento");
    reveal_strlit("Frastornato");
    reveal_strlit("Freddo");
    reveal_strlit("Freddo (sé stesso e chi lo cavalca)");
    reveal_strlit("Fuoco");
    reveal_strlit("Fuoco Infernale");
    reveal_strlit("Immunità al Freddo");
    reveal_strlit("Immunità alla Magia");
    reveal_strlit("Infermità");
    reveal_strlit("Infermo");
    reveal_strlit("Magia");
    reveal_strlit("Malattia");
    reveal_strlit("Malattie");
    reveal_strlit("Maledizioni");
    reveal_strlit("Nausea");
    reveal_strlit("Nauseato");
    reveal_strlit("Non Deformante");
    reveal_strlit("Paralisi");
    reveal_strlit("Paura");
    reveal_strlit("Pietrificazione");
    reveal_strlit("Sanguinamento");
    reveal_strlit("Sanguinamento (solo Punti Ferita)");
    reveal_strlit("Scosso");
    reveal_strlit("Sguardo");
    reveal_strlit("Sonno");
    reveal_strlit("Sonoro");
    reveal_strlit("Sordità");
    reveal_strlit("Spaventato");
    reveal_strlit("Stordimento");
    reveal_strlit("Veleni");
    reveal_strlit("Veleno");
    reveal_strlit("Veleno Ingerito");
    reveal_strlit("acido");
    reveal_strlit("attacchi con Sguardo");
    reveal_strlit("attacchi con lo Sguardo");
    reveal_strlit("attacchi con lo sguardo");
    reveal_strlit("contundente");
    reveal_strlit("da caduta e da schiacciamento");
    reveal_strlit("danni contundenti");
    reveal_strlit("danni contundenti e perforanti");
    reveal_strlit("danni da arma");
    reveal_strlit("danni da armi");
    reveal_strlit("danni da precisione");
    reveal_strlit("danni delle armi");
    reveal_strlit("danni di precisione");
    reveal_strlit("danni perforanti");
    reveal_strlit("danni taglienti");
    reveal_strlit("danni taglienti e perforanti");
    reveal_strlit("danno da arma");
    reveal_strlit("danno di precisione");
    reveal_strlit("effetti Barcollanti");
    reveal_strlit("effetti di Paura");
    reveal_strlit("effetti di Sonno");
    reveal_strlit("effetti di maledizione");
    reveal_strlit("effetti di maledizioni");
    reveal_strlit("effetti di paura");
    reveal_strlit("effetti di sonno");
    reveal_strlit("elettricità");
    reveal_strlit("energia negativa");
    reveal_strlit("freddo");
    reveal_strlit("fuoco");
    reveal_strlit("malattia");
    reveal_strlit("malattie");
    reveal_strlit("maledizioni");
    reveal_strlit("nausea");
    reveal_strlit("paralisi");
    reveal_strlit("paura");
    reveal_strlit("pietrificazione");
    reveal_strlit("sanguinamento");
    reveal_strlit("sonno");
    reveal_strlit("sonoro");
    reveal_strlit("sordità");
    reveal_strlit("stordimento");
    reveal_strlit("veleni");
    reveal_strlit("veleno");
    assert("Abbagliamenti"@.len() == 13);
    assert("Abbagliamento"@.len() == 13);
    assert("Abbagliato"@.len() == 10);
    assert("Accecato"@.len() == 8);
    assert("Acido"@.len() == 5);
    assert("Affaticamento"@.len() == 13);
    assert("Affaticato"@.len() == 10);
    assert("Armi Taglienti"@.len() == 14);
    assert("Armi contundenti"@.len() == 16);
    assert("Assorbimento del Fuoco"@.len() == 22);
    assert("Attacchi Furtivi"@.len() == 16);
    assert("Attacchi ai Fianchi"@.len() == 19);
    assert("Attacchi basati sull'olfatto"@.len() == 28);
    assert("Attacchi basati sulla vista"@.len() == 27);
    assert("Attacchi basati sulla vista o sguardo"@.len() == 37);
    assert("Attacchi con Sguardo"@.len() == 20);
    assert("Attacchi con lo sguardo"@.len() == 23);
    assert("Attacchi dipendenti dalla vista"@.len() == 31);
    assert("Barcollante"@.len() == 11);
    assert("Barcollare"@.len() == 10);
    assert("Cecità"@.len() == 6);
    assert("Colpi Critici"@.len() == 13);
    assert("Colpi critici"@.len() == 13);
    assert("Condizione Affaticato"@.len() == 21);
    assert("Condizione Esausto"@.len() == 18);
    assert("Confusione"@.len() == 10);
    assert("Danni Non Letali"@.len() == 16);
    assert("Danni contundenti"@.len() == 17);
    assert("Danni da arma"@.len() == 13);
    assert("Danni da armi"@.len() == 13);
    assert("Danni dalle Armi"@.len() == 16);
    assert("Danni perforanti e taglienti"@.len() == 28);
    assert("Danno da Pressione"@.len() == 18);
    assert("Danno da arma"@.len() == 13);
    assert("Danno non letale"@.len() == 16);
    assert("Effetti di Paura"@.len() == 16);
    assert("Effetti di Sonno"@.len() == 16);
    assert("Effetti di paura"@.len() == 16);
    assert("Effetti di sonno"@.len() == 16);
    assert("Elettricità"@.len() == 11);
    assert("Elettricità (parziale)"@.len() == 22);
    assert("Energia Negativa"@.len() == 16);
    assert("Energia Positiva"@.len() == 16);
    assert("Esaurimento"@.len() == 11);
    assert("Esausto"@.len() == 7);
    assert("Fatica"@.len() == 6);
    assert("Fiancheggiamento"@.len() == 16);
    assert("Frastornamento"@.len() == 14);
    assert("Frastornato"@.len() == 11);
    assert("Freddo"@.len() == 6);
    assert("Freddo (sé stesso e chi lo cavalca)"@.len() == 35);
    assert("Fuoco"@.len() == 5);
    assert("Fuoco Infernale"@.len() == 15);
    assert("Immunità al Freddo"@.len() == 18);
    assert("Immunità alla Magia"@.len() == 19);
    assert("Infermità"@.len() == 9);
    assert("Infermo"@.len() == 7);
    assert("Magia"@.len() == 5);
    assert("Malattia"@.len() == 8);
    assert("Malattie"@.len() == 8);
    assert("Maledizioni"@.len() == 11);
    assert("Nausea"@.len() == 6);
    assert("Nauseato"@.len() == 8);
    assert("Non Deformante"@.len() == 14);
    assert("Paralisi"@.len() == 8);
    assert("Paura"@.len() == 5);
    assert("Pietrificazione"@.len() == 15);
    assert("Sanguinamento"@.len() == 13);
    assert("Sanguinamento (solo Punti Ferita)"@.len() == 33);
    assert("Scosso"@.len() == 6);
    assert("Sguardo"@.len() == 7);
    assert("Sonno"@.len() == 5);
    assert("Sonoro"@.len() == 6);
    assert("Sordità"@.len() == 7);
    assert("Spaventato"@.len() == 10);
    assert("Stordimento"@.len() == 11);
    assert("Veleni"@.len() == 6);
    assert("Veleno"@.len() == 6);
    assert("Veleno Ingerito"@.len() == 15);
    assert("acido"@.len() == 5);
    assert("attacchi con Sguardo"@.len() == 20);
    assert("attacchi con lo Sguardo"@.len() == 23);
    assert("attacchi con lo sguardo"@.len() == 23);
    assert("contundente"@.len() == 11);
    assert("da caduta e da schiacciamento"@.len() == 29);
    assert("danni contundenti"@.len() == 17);
    assert("danni contundenti e perforanti"@.len() == 30);
    assert("danni da arma"@.len() == 13);
    assert("danni da armi"@.len() == 13);
    assert("danni da precisione"@.len() == 19);
    assert("danni delle armi"@.len() == 16);
    assert("danni di precisione"@.len() == 19);
    assert("danni perforanti"@.len() == 16);
    assert("danni taglienti"@.len() == 15);
    assert("danni taglienti e perforanti"@.len() == 28);
    assert("danno da arma"@.len() == 13);
    assert("danno di precisione"@.len() == 19);
    assert("effetti Barcollanti"@.len() == 19);
    assert("effetti di Paura"@.len() == 16);
    assert("effetti di Sonno"@.len() == 16);
    assert("effetti di maledizione"@.len() == 22);
    assert("effetti di maledizioni"@.len() == 22);
    assert("effetti di paura"@.len() == 16);
    assert("effetti di sonno"@.len() == 16);
    assert("elettricità"@.len() == 11);
    assert("energia negativa"@.len() == 16);
    assert("freddo"@.len() == 6);
    assert("fuoco"@.len() == 5);
    assert("malattia"@.len() == 8);
    assert("malattie"@.len() == 8);
    assert("maledizioni"@.len() == 11);
    assert("nausea"@.len() == 6);
    assert("paralisi"@.len() == 8);
    assert("paura"@.len() == 5);
    assert("pietrificazione"@.len() == 15);
    assert("sanguinamento"@.len() == 13);
    assert("sonno"@.len() == 5);
    assert("sonoro"@.len() == 6);
    assert("sordità"@.len() == 7);
    assert("stordimento"@.len() == 11);
    assert("veleni"@.len() == 6);
    assert("veleno"@.len() == 6);
    assert("Danno da Pressione"@[0] != "Immunità al Freddo"@[0]);
    assert("Danno da Pressione"@ != "Immunità al Freddo"@);
    assert("Danno da Pressione"@[0] != "Condizione Esausto"@[0]);
    assert("Danno da Pressione"@ != "Condizione Esausto"@);
}

proof fn lemma_read_immunity_possession(s: Seq<char>)
    requires
        immunity_named(Immunity_Type::Immunity_Possession, s),
    ensures
        spec_single_immunity(s) == Some(Immunity_Type::Immunity_Possession),
{
    reveal_strlit("Abbagliamenti");
    reveal_strlit("Abbagliamento");
    reveal_strlit("Abbagliato");
    reveal_strlit("Accecato");
    reveal_strlit("Acido");
    reveal_strlit("Affaticamento");
    reveal_strlit("Affaticato");
    reveal_strlit("Armi Taglienti");
    reveal_strlit("Armi contundenti");
    reveal_strlit("Assorbimento del Fuoco");
    reveal_strlit("Attacchi Furtivi");
    reveal_strlit("Attacchi ai Fianchi");
    reveal_strlit("Attacchi basati sull'olfatto");
    reveal_strlit("Attacchi basati sulla vista");
    reveal_strlit("Attacchi basati sulla vista o sguardo");
    reveal_strlit("Attacchi con Sguardo");
    reveal_strlit("Attacchi con lo sguardo");
    reveal_strlit("Attacchi dipendenti dalla vista");
    reveal_strlit("Barcollante");
    reveal_strlit("Barcollare");
    reveal_strlit("Cecità");
    reveal_strlit("Colpi Critici");
    reveal_strlit("Colpi critici");
    reveal_strlit("Condizione Affaticato");
    reveal_strlit("Condizione Esausto");
    reveal_strlit("Confusione");
    reveal_strlit("Danni Non Letali");
    reveal_strlit("Danni contundenti");
    reveal_strlit("Danni da arma");
    reveal_strlit("Danni da armi");
    reveal_strlit("Danni dalle Armi");
    reveal_strlit("Danni perforanti e taglienti");
    reveal_strlit("Danno da Pressione");
    reveal_strlit("Danno da arma");
    reveal_strlit("Danno non letale");
    reveal_strlit("Effetti di Paura");
    reveal_strlit("Effetti di Sonno");
    reveal_strlit("Effetti di paura");
    reveal_strlit("Effetti di sonno");
    reveal_strlit("Elettricità");
    reveal_strlit("Elettricità (parziale)");
    reveal_strlit("Energia Negativa");
    reveal_strlit("Energia Positiva");
    reveal_strlit("Esaurimento");
    reveal_strlit("Esausto");
    reveal_strlit("Fatica");
    reveal_strlit("Fiancheggiamento");
    reveal_strlit("Frastornamento");
    reveal_strlit("Frastornato");
    reveal_strlit("Freddo");
    reveal_strlit("Freddo (sé stesso e chi lo cavalca)");
    reveal_strlit("Fuoco");
    reveal_strlit("Fuoco Infernale");
    reveal_strlit("Immunità al Freddo");
    reveal_strlit("Immunità alla Magia");
    reveal_strlit("Infermità");
    reveal_strlit("Infermo");
    reveal_strlit("Magia");
    reveal_strlit("Malattia");
    reveal_strlit("Malattie");
    reveal_strlit("Maledizioni");
    reveal_strlit("Nausea");
    reveal_strlit("Nauseato");
    reveal_strlit("Non Deformante");
    reveal_strlit("Paralisi");
    reveal_strlit("Paura");
    reveal_strlit("Pietrificazione");
    reveal_strlit("Sanguinamento");
    reveal_strlit("Sanguinamento (solo Punti Ferita)");
    reveal_strlit("Scosso");
    reveal_strlit("Sguardo");
    reveal_strlit("Sonno");
    reveal_strlit("Sonoro");
    reveal_strlit("Sordità");
    reveal_strlit("Spaventato");
    reveal_strlit("Stordimento");
    reveal_strlit("Veleni");
    reveal_strlit("Veleno");
    reveal_strlit("Veleno Ingerito");
    reveal_strlit("acido");
    reveal_strlit("attacchi con Sguardo");
    reveal_strlit("attacchi con lo Sguardo");
    reveal_strlit("attacchi con lo sguardo");
    reveal_strlit("contundente");
    reveal_strlit("da caduta e da schiacciamento");
    reveal_strlit("danni contundenti");
    reveal_strlit("danni contundenti e perforanti");
    reveal_strlit("danni da arma");
    reveal_strlit("danni da armi");
    reveal_strlit("danni da precisione");
    reveal_strlit("danni delle armi");
    reveal_strlit("danni di precisione");
    reveal_strlit("danni perforanti");
    reveal_strlit("danni taglienti");
    reveal_strlit("danni taglienti e perforanti");
    reveal_strlit("danno da arma");
    reveal_strlit("danno di precisione");
    reveal_strlit("effetti Barcollanti");
    reveal_strlit("effetti di Paura");
    reveal_strlit("effetti di Sonno");
    reveal_strlit("effetti di maledizione");
    reveal_strlit("effetti di maledizioni");
    reveal_strlit("effetti di paura");
    reveal_strlit("effetti di sonno");
    reveal_strlit("elettricità");
    reveal_strlit("energia negativa");
    reveal_strlit("freddo");
    reveal_strlit("fuoco");
    reveal_strlit("malattia");
    reveal_strlit("malattie");
    reveal_strlit("maledizioni");
    reveal_strlit("nausea");
    reveal_strlit("paralisi");
    reveal_strlit("paura");
    reveal_strlit("pietrificazione");
    reveal_strlit("possessione");
    reveal_strlit("sanguinamento");
    reveal_strlit("sonno");
    reveal_strlit("sonoro");
    reveal_strlit("sordità");
    reveal_strlit("stordimento");
    reveal_strlit("veleni");
    reveal_strlit("veleno");
    assert("Abbagliamenti"@.len() == 13);
    assert("Abbagliamento"@.len() == 13);
    assert("Abbagliato"@.len() == 10);
    assert("Accecato"@.len() == 8);
    assert("Acido"@.len() == 5);
    assert("Affaticamento"@.len() == 13);
    assert("Affaticato"@.len() == 10);
    assert("Armi Taglienti"@.len() == 14);
    assert("Armi contundenti"@.len() == 16);
    assert("Assorbimento del Fuoco"@.len() == 22);
    assert("Attacchi Furtivi"@.len() == 16);
    assert("Attacchi ai Fianchi"@.len() == 19);
    assert("Attacchi basati sull'olfatto"@.len() == 28);
    assert("Attacchi basati sulla vista"@.len() == 27);
    assert("Attacchi basati sulla vista o sguardo"@.len() == 37);
    assert("Attacchi con Sguardo"@.len() == 20);
    assert("Attacchi con lo sguardo"@.len() == 23);
    assert("Attacchi dipendenti dalla vista"@.len() == 31);
    assert("Barcollante"@.len() == 11);
    assert("Barcollare"@.len() == 10);
    assert("Cecità"@.len() == 6);
    assert("Colpi Critici"@.len() == 13);
    assert("Colpi critici"@.len() == 13);
    assert("Condizione Affaticato"@.len() == 21);
    assert("Condizione Esausto"@.len() == 18);
    assert("Confusione"@.len() == 10);
    assert("Danni Non Letali"@.len() == 16);
    assert("Danni contundenti"@.len() == 17);
    assert("Danni da arma"@.len() == 13);
    assert("Danni da armi"@.len() == 13);
    assert("Danni dalle Armi"@.len() == 16);
    assert("Danni perforanti e taglienti"@.len() == 28);
    assert("Danno da Pressione"@.len() == 18);
    assert("Danno da arma"@.len() == 13);
    assert("Danno non letale"@.len() == 16);
    assert("Effetti di Paura"@.len() == 16);
    assert("Effetti di Sonno"@.len() == 16);
    assert("Effetti di paura"@.len() == 16);
    assert("Effetti di sonno"@.len() == 16);
    assert("Elettricità"@.len() == 11);
    assert("Elettricità (parziale)"@.len() == 22);
    assert("Energia Negativa"@.len() == 16);
    assert("Energia Positiva"@.len() == 16);
    assert("Esaurimento"@.len() == 11);
    assert("Esausto"@.len() == 7);
    assert("Fatica"@.len() == 6);
    assert("Fiancheggiamento"@.len() == 16);
    assert("Frastornamento"@.len() == 14);
    assert("Frastornato"@.len() == 11);
    assert("Freddo"@.len() == 6);
    assert("Freddo (sé stesso e chi lo cavalca)"@.len() == 35);
    assert("Fuoco"@.len() == 5);
    assert("Fuoco Infernale"@.len() == 15);
    assert("Immunità al Freddo"@.len() == 18);
    assert("Immunità alla Magia"@.len() == 19);
    assert("Infermità"@.len() == 9);
    assert("Infermo"@.len() == 7);
    assert("Magia"@.len() == 5);
    assert("Malattia"@.len() == 8);
    assert("Malattie"@.len() == 8);
    assert("Maledizioni"@.len() == 11);
    assert("Nausea"@.len() == 6);
    assert("Nauseato"@.len() == 8);
    assert("Non Deformante"@.len() == 14);
    assert("Paralisi"@.len() == 8);
    assert("Paura"@.len() == 5);
    assert("Pietrificazione"@.len() == 15);
    assert("Sanguinamento"@.len() == 13);
    assert("Sanguinamento (solo Punti Ferita)"@.len() == 33);
    assert("Scosso"@.len() == 6);
    assert("Sguardo"@.len() == 7);
    assert("Sonno"@.len() == 5);
    assert("Sonoro"@.len() == 6);
    assert("Sordità"@.len() == 7);
    assert("Spaventato"@.len() == 10);
    assert("Stordimento"@.len() == 11);
    assert("Veleni"@.len() == 6);
    assert("Veleno"@.len() == 6);
    assert("Veleno Ingerito"@.len() == 15);
    assert("acido"@.len() == 5);
    assert("attacchi con Sguardo"@.len() == 20);
    assert("attacchi con lo Sguardo"@.len() == 23);
    assert("attacchi con lo sguardo"@.len() == 23);
    assert("contundente"@.len() == 11);
    assert("da caduta e da schiacciamento"@.len() == 29);
    assert("danni contundenti"@.len() == 17);
    assert("danni contundenti e perforanti"@.len() == 30);
    assert("danni da arma"@.len() == 13);
    assert("danni da armi"@.len() == 13);
    assert("danni da precisione"@.len() == 19);
    assert("danni delle armi"@.len() == 16);
    assert("danni di precisione"@.len() == 19);
    assert("danni perforanti"@.len() == 16);
    assert("danni taglienti"@.len() == 15);
    assert("danni taglienti e perforanti"@.len() == 28);
    assert("danno da arma"@.len() == 13);
    assert("danno di precisione"@.len() == 19);
    assert("effetti Barcollanti"@.len() == 19);
    assert("effetti di Paura"@.len() == 16);
    assert("effetti di Sonno"@.len() == 16);
    assert("effetti di maledizione"@.len() == 22);
    assert("effetti di maledizioni"@.len() == 22);
    assert("effetti di paura"@.len() == 16);
    assert("effetti di sonno"@.len() == 16);
    assert("elettricità"@.len() == 11);
    assert("energia negativa"@.len() == 16);
    assert("freddo"@.len() == 6);
    assert("fuoco"@.len() == 5);
    assert("malattia"@.len() == 8);
    assert("malattie"@.len() == 8);
    assert("maledizioni"@.len() == 11);
    assert("nausea"@.len() == 6);
    assert("paralisi"@.len() == 8);
    assert("paura"@.len() == 5);
    assert("pietrificazione"@.len() == 15);
    assert("possessione"@.len() == 11);
    assert("sanguinamento"@.len() == 13);
    assert("sonno"@.len() == 5);
    assert("sonoro"@.len() == 6);
    assert("sordità"@.len() == 7);
    assert("stordimento"@.len() == 11);
    assert("veleni"@.len() == 6);
    assert("veleno"@.len() == 6);
    assert("possessione"@[0] != "Elettricità"@[0]);
    assert("possessione"@ != "Elettricità"@);
    assert("possessione"@[0] != "elettricità"@[0]);
    assert("possessione"@ != "elettricità"@);
    assert("possessione"@[0] != "Esaurimento"@[0]);
    assert("possessione"@ != "Esaurimento"@);
    assert("possessione"@[0] != "Stordimento"@[0]);
    assert("possessione"@ != "Stordimento"@);
    assert("possessione"@[0] != "stordimento"@[0]);
    assert("possessione"@ != "stordimento"@);
    assert("possessione"@[0] != "Frastornato"@[0]);
    assert("possessione"@ != "Frastornato"@);
    assert("possessione"@[0] != "Barcollante"@[0]);
    assert("possessione"@ != "Barcollante"@);
    assert("possessione"@[0] != "contundente"@[0]);
    assert("possessione"@ != "contundente"@);
    assert("possessione"@[0] != "Maledizioni"@[0]);
    assert("possessione"@ != "Maledizioni"@);
    assert("possessione"@[0] != "maledizioni"@[0]);
    assert("possessione"@ != "maledizioni"@);
}

proof fn lemma_read_immunity_rust(s: Seq<char>)
    requires
        immunity_named(Immunity_Type::Immunity_Rust, s),
    ensures
        spec_single_immunity(s) == Some(Immunity_Type::Immunity_Rust),
{
    reveal_strlit("Abbagliamenti");
    reveal_strlit("Abbagliamento");
    reveal_strlit("Abbagliato");
    reveal_strlit("Accecato");
    reveal_strlit("Acido");
    reveal_strlit("Affaticamento");
    reveal_strlit("Affaticato");
    reveal_strlit("Armi Taglienti");
    reveal_strlit("Armi contundenti");
    reveal_strlit("Assorbimento del Fuoco");
    reveal_strlit("Attacchi Furtivi");
    reveal_strlit("Attacchi ai Fianchi");
    reveal_strlit("Attacchi basati sull'olfatto");
    reveal_strlit("Attacchi basati sulla vista");
    reveal_strlit("Attacchi basati sulla vista o sguardo");
    reveal_strlit("Attacchi con Sguardo");
    reveal_strlit("Attacchi con lo sguardo");
    reveal_strlit("Attacchi dipendenti dalla vista");
    reveal_strlit("Barcollante");
    reveal_strlit("Barcollare");
    reveal_strlit("Cecità");
    reveal_strlit("Colpi Critici");
    reveal_strlit("Colpi critici");
    reveal_strlit("Condizione Affaticato");
    reveal_strlit("Condizione Esausto");
    reveal_strlit("Confusione");
    reveal_strlit("Danni Non Letali");
    reveal_strlit("Danni contundenti");
    reveal_strlit("Danni da arma");
    reveal_strlit("Danni da armi");
    reveal_strlit("Danni dalle Armi");
    reveal_strlit("Danni perforanti e taglienti");
    reveal_strlit("Danno da Pressione");
    reveal_strlit("Danno da arma");
    reveal_strlit("Danno non letale");
    reveal_strlit("Effetti di Paura");
    reveal_strlit("Effetti di Sonno");
    reveal_strlit("Effetti di paura");
    reveal_strlit("Effetti di sonno");
    reveal_strlit("Elettricità");
    reveal_strlit("Elettricità (parziale)");
    reveal_strlit("Energia Negativa");
    reveal_strlit("Energia Positiva");
    reveal_strlit("Esaurimento");
    reveal_strlit("Esausto");
    reveal_strlit("Fatica");
    reveal_strlit("Fiancheggiamento");
    reveal_strlit("Frastornamento");
    reveal_strlit("Frastornato");
    reveal_strlit("Freddo");
    reveal_strlit("Freddo (sé stesso e chi lo cavalca)");
    reveal_strlit("Fuoco");
    reveal_strlit("Fuoco Infernale");
    reveal_strlit("Immunità al Freddo");
    reveal_strlit("Immunità alla Magia");
    reveal_strlit("Infermità");
    reveal_strlit("Infermo");
    reveal_strlit("Magia");
    reveal_strlit("Malattia");
    reveal_strlit("Malattie");
    reveal_strlit("Maledizioni");
    reveal_strlit("Nausea");
    reveal_strlit("Nauseato");
    reveal_strlit("Non Deformante");
    reveal_strlit("Paralisi");
    reveal_strlit("Paura");
    reveal_strlit("Pietrificazione");
    reveal_strlit("Sanguinamento");
    reveal_strlit("Sanguinamento (solo Punti Ferita)");
    reveal_strlit("Scosso");
    reveal_strlit("Sguardo");
    reveal_strlit("Sonno");
    reveal_strlit("Sonoro");
    reveal_strlit("Sordità");
    reveal_strlit("Spaventato");
    reveal_strlit("Stordimento");
    reveal_strlit("Veleni");
    reveal_strlit("Veleno");
    reveal_strlit("Veleno Ingerito");
    reveal_strlit("acido");
    reveal_strlit("attacchi con Sguardo");
    reveal_strlit("attacchi con lo Sguardo");
    reveal_strlit("attacchi con lo sguardo");
    reveal_strlit("contundente");
    reveal_strlit("da caduta e da schiacciamento");
    reveal_strlit("danni contundenti");
    reveal_strlit("danni contundenti e perforanti");
    reveal_strlit("danni da arma");
    reveal_strlit("danni da armi");
    reveal_strlit("danni da precisione");
    reveal_strlit("danni delle armi");
    reveal_strlit("danni di precisione");
    reveal_strlit("danni perforanti");
    reveal_strlit("danni taglienti");
    reveal_strlit("danni taglienti e perforanti");
    reveal_strlit("danno da arma");
    reveal_strlit("danno di precisione");
    reveal_strlit("effetti Barcollanti");
    reveal_strlit("effetti di Paura");
    reveal_strlit("effetti di Sonno");
    reveal_strlit("effetti di maledizione");
    reveal_strlit("effetti di maledizioni");
    reveal_strlit("effetti di paura");
    reveal_strlit("effetti di sonno");
    reveal_strlit("elettricità");
    reveal_strlit("energia negativa");
    reveal_strlit("freddo");
    reveal_strlit("fuoco");
    reveal_strlit("malattia");
    reveal_strlit("malattie");
    reveal_strlit("maledizioni");
    reveal_strlit("nausea");
    reveal_strlit("paralisi");
    reveal_strlit("paura");
    reveal_strlit("pietrificazione");
    reveal_strlit("possessione");
    reveal_strlit("ruggine");
    reveal_strlit("sanguinamento");
    reveal_strlit("sonno");
    reveal_strlit("sonoro");
    reveal_strlit("sordità");
    reveal_strlit("stordimento");
    reveal_strlit("veleni");
    reveal_strlit("veleno");
    assert("Abbagliamenti"@.len() == 13);
    assert("Abbagliamento"@.len() == 13);
    assert("Abbagliato"@.len() == 10);
    assert("Accecato"@.len() == 8);
    assert("Acido"@.len() == 5);
    assert("Affaticamento"@.len() == 13);
    assert("Affaticato"@.len() == 10);
    assert("Armi Taglienti"@.len() == 14);
    assert("Armi contundenti"@.len() == 16);
    assert("Assorbimento del Fuoco"@.len() == 22);
    assert("Attacchi Furtivi"@.len() == 16);
    assert("Attacchi ai Fianchi"@.len() == 19);
    assert("Attacchi basati sull'olfatto"@.len() == 28);
    assert("Attacchi basati sulla vista"@.len() == 27);
    assert("Attacchi basati sulla vista o sguardo"@.len() == 37);
    assert("Attacchi con Sguardo"@.len() == 20);
    assert("Attacchi con lo sguardo"@.len() == 23);
    assert("Attacchi dipendenti dalla vista"@.len() == 31);
    assert("Barcollante"@.len() == 11);
    assert("Barcollare"@.len() == 10);
    assert("Cecità"@.len() == 6);
    assert("Colpi Critici"@.len() == 13);
    assert("Colpi critici"@.len() == 13);
    assert("Condizione Affaticato"@.len() == 21);
    assert("Condizione Esausto"@.len() == 18);
    assert("Confusione"@.len() == 10);
    assert("Danni Non Letali"@.len() == 16);
    assert("Danni contundenti"@.len() == 17);
    assert("Danni da arma"@.len() == 13);
    assert("Danni da armi"@.len() == 13);
    assert("Danni dalle Armi"@.len() == 16);
    assert("Danni perforanti e taglienti"@.len() == 28);
    assert("Danno da Pressione"@.len() == 18);
    assert("Danno da arma"@.len() == 13);
    assert("Danno non letale"@.len() == 16);
    assert("Effetti di Paura"@.len() == 16);
    assert("Effetti di Sonno"@.len() == 16);
    assert("Effetti di paura"@.len() == 16);
    assert("Effetti di sonno"@.len() == 16);
    assert("Elettricità"@.len() == 11);
    assert("Elettricità (parziale)"@.len() == 22);
    assert("Energia Negativa"@.len() == 16);
    assert("Energia Positiva"@.len() == 16);
    assert("Esaurimento"@.len() == 11);
    assert("Esausto"@.len() == 7);
    assert("Fatica"@.len() == 6);
    assert("Fiancheggiamento"@.len() == 16);
    assert("Frastornamento"@.len() == 14);
    assert("Frastornato"@.len() == 11);
    assert("Freddo"@.len() == 6);
    assert("Freddo (sé stesso e chi lo cavalca)"@.len() == 35);
    assert("Fuoco"@.len() == 5);
    assert("Fuoco Infernale"@.len() == 15);
    assert("Immunità al Freddo"@.len() == 18);
    assert("Immunità alla Magia"@.len() == 19);
    assert("Infermità"@.len() == 9);
    assert("Infermo"@.len() == 7);
    assert("Magia"@.len() == 5);
    assert("Malattia"@.len() == 8);
    assert("Malattie"@.len() == 8);
    assert("Maledizioni"@.len() == 11);
    assert("Nausea"@.len() == 6);
    assert("Nauseato"@.len() == 8);
    assert("Non Deformante"@.len() == 14);
    assert("Paralisi"@.len() == 8);
    assert("Paura"@.len() == 5);
    assert("Pietrificazione"@.len() == 15);
    assert("Sanguinamento"@.len() == 13);
    assert("Sanguinamento (solo Punti Ferita)"@.len() == 33);
    assert("Scosso"@.len() == 6);
    assert("Sguardo"@.len() == 7);
    assert("Sonno"@.len() == 5);
    assert("Sonoro"@.len() == 6);
    assert("Sordità"@.len() == 7);
    assert("Spaventato"@.len() == 10);
    assert("Stordimento"@.len() == 11);
    assert("Veleni"@.len() == 6);
    assert("Veleno"@.len() == 6);
    assert("Veleno Ingerito"@.len() == 15);
    assert("acido"@.len() == 5);
    assert("attacchi con Sguardo"@.len() == 20);
    assert("attacchi con lo Sguardo"@.len() == 23);
    assert("attacchi con lo sguardo"@.len() == 23);
    assert("contundente"@.len() == 11);
    assert("da caduta e da schiacciamento"@.len() == 29);
    assert("danni contundenti"@.len() == 17);
    assert("danni contundenti e perforanti"@.len() == 30);
    assert("danni da arma"@.len() == 13);
    assert("danni da armi"@.len() == 13);
    assert("danni da precisione"@.len() == 19);
    assert("danni delle armi"@.len() == 16);
    assert("danni di precisione"@.len() == 19);
    assert("danni perforanti"@.len() == 16);
    assert("danni taglienti"@.len() == 15);
    assert("danni taglienti e perforanti"@.len() == 28);
    assert("danno da arma"@.len() == 13);
    assert("danno di precisione"@.len() == 19);
    assert("effetti Barcollanti"@.len() == 19);
    assert("effetti di Paura"@.len() == 16);
    assert("effetti di Sonno"@.len() == 16);
    assert("effetti di maledizione"@.len() == 22);
    assert("effetti di maledizioni"@.len() == 22);
    assert("effetti di paura"@.len() == 16);
    assert("effetti di sonno"@.len() == 16);
    assert("elettricità"@.len() == 11);
    assert("energia negativa"@.len() == 16);
    assert("freddo"@.len() == 6);
    assert("fuoco"@.len() == 5);
    assert("malattia"@.len() == 8);
    assert("malattie"@.len() == 8);
    assert("maledizioni"@.len() == 11);
    assert("nausea"@.len() == 6);
    assert("paralisi"@.len() == 8);
    assert("paura"@.len() == 5);
    assert("pietrificazione"@.len() == 15);
    assert("possessione"@.len() == 11);
    assert("ruggine"@.len() == 7);
    assert("sanguinamento"@.len() == 13);
    assert("sonno"@.len() == 5);
    assert("sonoro"@.len() == 6);
    assert("sordità"@.len() == 7);
    assert("stordimento"@.len() == 11);
    assert("veleni"@.len() == 6);
    assert("veleno"@.len() == 6);
    assert("ruggine"@[0] != "Esausto"@[0]);
    assert("ruggine"@ != "Esausto"@);
    assert("ruggine"@[0] != "Infermo"@[0]);
    assert("ruggine"@ != "Infermo"@);
    assert("ruggine"@[0] != "Sordità"@[0]);
    assert("ruggine"@ != "Sordità"@);
    assert("ruggine"@[0] != "sordità"@[0]);
    assert("ruggine"@ != "sordità"@);
    assert("ruggine"@[0] != "Sguardo"@[0]);
    assert("ruggine"@ != "Sguardo"@);
}

proof fn lemma_read_immunity_divination(s: Seq<char>)
    requires
        immunity_named(Immunity_Type::Immunity_Divination, s),
    ensures
        spec_single_immunity(s) == Some(Immunity_Type::Immunity_Divination),
{
    reveal_strlit("Abbagliamenti");
    reveal_strlit("Abbagliamento");
    reveal_strlit("Abbagliato");
    reveal_strlit("Accecato");
    reveal_strlit("Acido");
    reveal_strlit("Affaticamento");
    reveal_strlit("Affaticato");
    reveal_strlit("Armi Taglienti");
    reveal_strlit("Armi contundenti");
    reveal_strlit("Assorbimento del Fuoco");
    reveal_strlit("Attacchi Furtivi");
    reveal_strlit("Attacchi ai Fianchi");
    reveal_strlit("Attacchi basati sull'olfatto");
    reveal_strlit("Attacchi basati sulla vista");
    reveal_strlit("Attacchi basati sulla vista o sguardo");
    reveal_strlit("Attacchi con Sguardo");
    reveal_strlit("Attacchi con lo sguardo");
    reveal_strlit("Attacchi dipendenti dalla vista");
    reveal_strlit("Barcollante");
    reveal_strlit("Barcollare");
    reveal_strlit("Cecità");
    reveal_strlit("Colpi Critici");
    reveal_strlit("Colpi critici");
    reveal_strlit("Condizione Affaticato");
    reveal_strlit("Condizione Esausto");
    reveal_strlit("Confusione");
    reveal_strlit("Danni Non Letali");
    reveal_strlit("Danni contundenti");
    reveal_strlit("Danni da arma");
    reveal_strlit("Danni da armi");
    reveal_strlit("Danni dalle Armi");
    reveal_strlit("Danni perforanti e taglienti");
    reveal_strlit("Danno da Pressione");
    reveal_strlit("Danno da arma");
    reveal_strlit("Danno non letale");
    reveal_strlit("Divinazione");
    reveal_strlit("Effetti di Paura");
    reveal_strlit("Effetti di Sonno");
    reveal_strlit("Effetti di paura");
    reveal_strlit("Effetti di sonno");
    reveal_strlit("Elettricità");
    reveal_strlit("Elettricità (parziale)");
    reveal_strlit("Energia Negativa");
    reveal_strlit("Energia Positiva");
    reveal_strlit("Esaurimento");
    reveal_strlit("Esausto");
    reveal_strlit("Fatica");
    reveal_strlit("Fiancheggiamento");
    reveal_strlit("Frastornamento");
    reveal_strlit("Frastornato");
    reveal_strlit("Freddo");
    reveal_strlit("Freddo (sé stesso e chi lo cavalca)");
    reveal_strlit("Fuoco");
    reveal_strlit("Fuoco Infernale");
    reveal_strlit("Immunità al Freddo");
    reveal_strlit("Immunità alla Magia");
    reveal_strlit("Infermità");
    reveal_strlit("Infermo");
    reveal_strlit("Magia");
    reveal_strlit("Malattia");
    reveal_strlit("Malattie");
    reveal_strlit("Maledizioni");
    reveal_strlit("Nausea");
    reveal_strlit("Nauseato");
    reveal_strlit("Non Deformante");
    reveal_strlit("Paralisi");
    reveal_strlit("Paura");
    reveal_strlit("Pietrificazione");
    reveal_strlit("Sanguinamento");
    reveal_strlit("Sanguinamento (solo Punti Ferita)");
    reveal_strlit("Scosso");
    reveal_strlit("Sguardo");
    reveal_strlit("Sonno");
    reveal_strlit("Sonoro");
    reveal_strlit("Sordità");
    reveal_strlit("Spaventato");
    reveal_strlit("Stordimento");
    reveal_strlit("Veleni");
    reveal_strlit("Veleno");
    reveal_strlit("Veleno Ingerito");
    reveal_strlit("acido");
    reveal_strlit("attacchi con Sguardo");
    reveal_strlit("attacchi con lo Sguardo");
    reveal_strlit("attacchi con lo sguardo");
    reveal_strlit("contundente");
    reveal_strlit("da caduta e da schiacciamento");
    reveal_strlit("danni contundenti");
    reveal_strlit("danni contundenti e perforanti");
    reveal_strlit("danni da arma");
    reveal_strlit("danni da armi");
    reveal_strlit("danni da precisione");
    reveal_strlit("danni delle armi");
    reveal_strlit("danni di precisione");
    reveal_strlit("danni perforanti");
    reveal_strlit("danni taglienti");
    reveal_strlit("danni taglienti e perforanti");
    reveal_strlit("danno da arma");
    reveal_strlit("danno di precisione");
    reveal_strlit("divinazione");
    reveal_strlit("effetti Barcollanti");
    reveal_strlit("effetti di Paura");
    reveal_strlit("effetti di Sonno");
    reveal_strlit("effetti di maledizione");
    reveal_strlit("effetti di maledizioni");
    reveal_strlit("effetti di paura");
    reveal_strlit("effetti di sonno");
    reveal_strlit("elettricità");
    reveal_strlit("energia negativa");
    reveal_strlit("freddo");
    reveal_strlit("fuoco");
    reveal_strlit("malattia");
    reveal_strlit("malattie");
    reveal_strlit("maledizioni");
    reveal_strlit("nausea");
    reveal_strlit("paralisi");
    reveal_strlit("paura");
    reveal_strlit("pietrificazione");
    reveal_strlit("possessione");
    reveal_strlit("ruggine");
    reveal_strlit("sanguinamento");
    reveal_strlit("sonno");
    reveal_strlit("sonoro");
    reveal_strlit("sordità");
    reveal_strlit("stordimento");
    reveal_strlit("veleni");
    reveal_strlit("veleno");
    assert("Abbagliamenti"@.len() == 13);
    assert("Abbagliamento"@.len() == 13);
    assert("Abbagliato"@.len() == 10);
    assert("Accecato"@.len() == 8);
    assert("Acido"@.len() == 5);
    assert("Affaticamento"@.len() == 13);
    assert("Affaticato"@.len() == 10);
    assert("Armi Taglienti"@.len() == 14);
    assert("Armi contundenti"@.len() == 16);
    assert("Assorbimento del Fuoco"@.len() == 22);
    assert("Attacchi Furtivi"@.len() == 16);
    assert("Attacchi ai Fianchi"@.len() == 19);
    assert("Attacchi basati sull'olfatto"@.len() == 28);
    assert("Attacchi basati sulla vista"@.len() == 27);
    assert("Attacchi basati sulla vista o sguardo"@.len() == 37);
    assert("Attacchi con Sguardo"@.len() == 20);
    assert("Attacchi con lo sguardo"@.len() == 23);
    assert("Attacchi dipendenti dalla vista"@.len() == 31);
    assert("Barcollante"@.len() == 11);
    assert("Barcollare"@.len() == 10);
    assert("Cecità"@.len() == 6);
    assert("Colpi Critici"@.len() == 13);
    assert("Colpi critici"@.len() == 13);
    assert("Condizione Affaticato"@.len() == 21);
    assert("Condizione Esausto"@.len() == 18);
    assert("Confusione"@.len() == 10);
    assert("Danni Non Letali"@.len() == 16);
    assert("Danni contundenti"@.len() == 17);
    assert("Danni da arma"@.len() == 13);
    assert("Danni da armi"@.len() == 13);
    assert("Danni dalle Armi"@.len() == 16);
    assert("Danni perforanti e taglienti"@.len() == 28);
    assert("Danno da Pressione"@.len() == 18);
    assert("Danno da arma"@.len() == 13);
    assert("Danno non letale"@.len() == 16);
    assert("Divinazione"@.len() == 11);
    assert("Effetti di Paura"@.len() == 16);
    assert("Effetti di Sonno"@.len() == 16);
    assert("Effetti di paura"@.len() == 16);
    assert("Effetti di sonno"@.len() == 16);
    assert("Elettricità"@.len() == 11);
    assert("Elettricità (parziale)"@.len() == 22);
    assert("Energia Negativa"@.len() == 16);
    assert("Energia Positiva"@.len() == 16);
    assert("Esaurimento"@.len() == 11);
    assert("Esausto"@.len() == 7);
    assert("Fatica"@.len() == 6);
    assert("Fiancheggiamento"@.len() == 16);
    assert("Frastornamento"@.len() == 14);
    assert("Frastornato"@.len() == 11);
    assert("Freddo"@.len() == 6);
    assert("Freddo (sé stesso e chi lo cavalca)"@.len() == 35);
    assert("Fuoco"@.len() == 5);
    assert("Fuoco Infernale"@.len() == 15);
    assert("Immunità al Freddo"@.len() == 18);
    assert("Immunità alla Magia"@.len() == 19);
    assert("Infermità"@.len() == 9);
    assert("Infermo"@.len() == 7);
    assert("Magia"@.len() == 5);
    assert("Malattia"@.len() == 8);
    assert("Malattie"@.len() == 8);
    assert("Maledizioni"@.len() == 11);
    assert("Nausea"@.len() == 6);
    assert("Nauseato"@.len() == 8);
    assert("Non Deformante"@.len() == 14);
    assert("Paralisi"@.len() == 8);
    assert("Paura"@.len() == 5);
    assert("Pietrificazione"@.len() == 15);
    assert("Sanguinamento"@.len() == 13);
    assert("Sanguinamento (solo Punti Ferita)"@.len() == 33);
    assert("Scosso"@.len() == 6);
    assert("Sguardo"@.len() == 7);
    assert("Sonno"@.len() == 5);
    assert("Sonoro"@.len() == 6);
    assert("Sordità"@.len() == 7);
    assert("Spaventato"@.len() == 10);
    assert("Stordimento"@.len() == 11);
    assert("Veleni"@.len() == 6);
    assert("Veleno"@.len() == 6);
    assert("Veleno Ingerito"@.len() == 15);
    assert("acido"@.len() == 5);
    assert("attacchi con Sguardo"@.len() == 20);
    assert("attacchi con lo Sguardo"@.len() == 23);
    assert("attacchi con lo sguardo"@.len() == 23);
    assert("contundente"@.len() == 11);
    assert("da caduta e da schiacciamento"@.len() == 29);
    assert("danni contundenti"@.len() == 17);
    assert("danni contundenti e perforanti"@.len() == 30);
    assert("danni da arma"@.len() == 13);
    assert("danni da armi"@.len() == 13);
    assert("danni da precisione"@.len() == 19);
    assert("danni delle armi"@.len() == 16);
    assert("danni di precisione"@.len() == 19);
    assert("danni perforanti"@.len() == 16);
    assert("danni taglienti"@.len() == 15);
    assert("danni taglienti e perforanti"@.len() == 28);
    assert("danno da arma"@.len() == 13);
    assert("danno di precisione"@.len() == 19);
    assert("divinazione"@.len() == 11);
    assert("effetti Barcollanti"@.len() == 19);
    assert("effetti di Paura"@.len() == 16);
    assert("effetti di Sonno"@.len() == 16);
    assert("effetti di maledizione"@.len() == 22);
    assert("effetti di maledizioni"@.len() == 22);
    assert("effetti di paura"@.len() == 16);
    assert("effetti di sonno"@.len() == 16);
    assert("elettricità"@.len() == 11);
    assert("energia negativa"@.len() == 16);
    assert("freddo"@.len() == 6);
    assert("fuoco"@.len() == 5);
    assert("malattia"@.len() == 8);
    assert("malattie"@.len() == 8);
    assert("maledizioni"@.len() == 11);
    assert("nausea"@.len() == 6);
    assert("paralisi"@.len() == 8);
    assert("paura"@.len() == 5);
    assert("pietrificazione"@.len() == 15);
    assert("possessione"@.len() == 11);
    assert("ruggine"@.len() == 7);
    assert("sanguinamento"@.len() == 13);
    assert("sonno"@.len() == 5);
    assert("sonoro"@.len() == 6);
    assert("sordità"@.len() == 7);
    assert("stordimento"@.len() == 11);
    assert("veleni"@.len() == 6);
    assert("veleno"@.len() == 6);
    assert("Divinazione"@[0] != "Elettricità"@[0]);
    assert("Divinazione"@ != "Elettricità"@);
    assert("Divinazione"@[0] != "elettricità"@[0]);
    assert("Divinazione"@ != "elettricità"@);
    assert("Divinazione"@[0] != "Esaurimento"@[0]);
    assert("Divinazione"@ != "Esaurimento"@);
    assert("Divinazione"@[0] != "Stordimento"@[0]);
    assert("Divinazione"@ != "Stordimento"@);
    assert("Divinazione"@[0] != "stordimento"@[0]);
    assert("Divinazione"@ != "stordimento"@);
    assert("Divinazione"@[0] != "Frastornato"@[0]);
    assert("Divinazione"@ != "Frastornato"@);
    assert("Divinazione"@[0] != "Barcollante"@[0]);
    assert("Divinazione"@ != "Barcollante"@);
    assert("Divinazione"@[0] != "contundente"@[0]);
    assert("Divinazione"@ != "contundente"@);
    assert("Divinazione"@[0] != "Maledizioni"@[0]);
    assert("Divinazione"@ != "Maledizioni"@);
    assert("Divinazione"@[0] != "maledizioni"@[0]);
    assert("Divinazione"@ != "maledizioni"@);
    assert("Divinazione"@[0] != "possessione"@[0]);
    assert("Divinazione"@ != "possessione"@);
    assert("divinazione"@[0] != "Elettricità"@[0]);
    assert("divinazione"@ != "Elettricità"@);
    assert("divinazione"@[0] != "elettricità"@[0]);
    assert("divinazione"@ != "elettricità"@);
    assert("divinazione"@[0] != "Esaurimento"@[0]);
    assert("divinazione"@ != "Esaurimento"@);
    assert("divinazione"@[0] != "Stordimento"@[0]);
    assert("divinazione"@ != "Stordimento"@);
    assert("divinazione"@[0] != "stordimento"@[0]);
    assert("divinazione"@ != "stordimento"@);
    assert("divinazione"@[0] != "Frastornato"@[0]);
    assert("divinazione"@ != "Frastornato"@);
    assert("divinazione"@[0] != "Barcollante"@[0]);
    assert("divinazione"@ != "Barcollante"@);
    assert("divinazione"@[0] != "contundente"@[0]);
    assert("divinazione"@ != "contundente"@);
    assert("divinazione"@[0] != "Maledizioni"@[0]);
    assert("divinazione"@ != "Maledizioni"@);
    assert("divinazione"@[0] != "maledizioni"@[0]);
    assert("divinazione"@ != "maledizioni"@);
    assert("divinazione"@[0] != "possessione"@[0]);
    assert("divinazione"@ != "possessione"@);
    assert("divinazione"@[0] != "Divinazione"@[0]);
    assert("divinazione"@ != "Divinazione"@);
}

proof fn lemma_read_immunity_permanentwounds(s: Seq<char>)
    requires
        immunity_named(Immunity_Type::Immunity_PermanentWounds, s),
    ensures
        spec_single_immunity(s) == Some(Immunity_Type::Immunity_PermanentWounds),
{
    reveal_strlit("Abbagliamenti");
    reveal_strlit("Abbagliamento");
    reveal_strlit("Abbagliato");
    reveal_strlit("Accecato");
    reveal_strlit("Acido");
    reveal_strlit("Affaticamento");
    reveal_strlit("Affaticato");
    reveal_strlit("Armi Taglienti");
    reveal_strlit("Armi contundenti");
    reveal_strlit("Assorbimento del Fuoco");
    reveal_strlit("Attacchi Furtivi");
    reveal_strlit("Attacchi ai Fianchi");
    reveal_strlit("Attacchi basati sull'olfatto");
    reveal_strlit("Attacchi basati sulla vista");
    reveal_strlit("Attacchi basati sulla vista o sguardo");
    reveal_strlit("Attacchi con Sguardo");
    reveal_strlit("Attacchi con lo sguardo");
    reveal_strlit("Attacchi dipendenti dalla vista");
    reveal_strlit("Barcollante");
    reveal_strlit("Barcollare");
    reveal_strlit("Cecità");
    reveal_strlit("Colpi Critici");
    reveal_strlit("Colpi critici");
    reveal_strlit("Condizione Affaticato");
    reveal_strlit("Condizione Esausto");
    reveal_strlit("Confusione");
    reveal_strlit("Danni Non Letali");
    reveal_strlit("Danni contundenti");
    reveal_strlit("Danni da arma");
    reveal_strlit("Danni da armi");
    reveal_strlit("Danni dalle Armi");
    reveal_strlit("Danni perforanti e taglienti");
    reveal_strlit("Danno da Pressione");
    reveal_strlit("Danno da arma");
    reveal_strlit("Danno non letale");
    reveal_strlit("Divinazione");
    reveal_strlit("Effetti di Paura");
    reveal_strlit("Effetti di Sonno");
    reveal_strlit("Effetti di paura");
    reveal_strlit("Effetti di sonno");
    reveal_strlit("Elettricità");
    reveal_strlit("Elettricità (parziale)");
    reveal_strlit("Energia Negativa");
    reveal_strlit("Energia Positiva");
    reveal_strlit("Esaurimento");
    reveal_strlit("Esausto");
    reveal_strlit("Fatica");
    reveal_strlit("Fiancheggiamento");
    reveal_strlit("Frastornamento");
    reveal_strlit("Frastornato");
    reveal_strlit("Freddo");
    reveal_strlit("Freddo (sé stesso e chi lo cavalca)");
    reveal_strlit("Fuoco");
    reveal_strlit("Fuoco Infernale");
    reveal_strlit("Immunità al Freddo");
    reveal_strlit("Immunità alla Magia");
    reveal_strlit("Infermità");
    reveal_strlit("Infermo");
    reveal_strlit("Magia");
    reveal_strlit("Malattia");
    reveal_strlit("Malattie");
    reveal_strlit("Maledizioni");
    reveal_strlit("Nausea");
    reveal_strlit("Nauseato");
    reveal_strlit("Non Deformante");
    reveal_strlit("Paralisi");
    reveal_strlit("Paura");
    reveal_strlit("Pietrificazione");
    reveal_strlit("Sanguinamento");
    reveal_strlit("Sanguinamento (solo Punti Ferita)");
    reveal_strlit("Scosso");
    reveal_strlit("Sguardo");
    reveal_strlit("Sonno");
    reveal_strlit("Sonoro");
    reveal_strlit("Sordità");
    reveal_strlit("Spaventato");
    reveal_strlit("Stordimento");
    reveal_strlit("Veleni");
    reveal_strlit("Veleno");
    reveal_strlit("Veleno Ingerito");
    reveal_strlit("acido");
    reveal_strlit("attacchi con Sguardo");
    reveal_strlit("attacchi con lo Sguardo");
    reveal_strlit("attacchi con lo sguardo");
    reveal_strlit("contundente");
    reveal_strlit("da caduta e da schiacciamento");
    reveal_strlit("danni contundenti");
    reveal_strlit("danni contundenti e perforanti");
    reveal_strlit("danni da arma");
    reveal_strlit("danni da armi");
    reveal_strlit("danni da precisione");
    reveal_strlit("danni delle armi");
    reveal_strlit("danni di precisione");
    reveal_strlit("danni perforanti");
    reveal_strlit("danni taglienti");
    reveal_strlit("danni taglienti e perforanti");
    reveal_strlit("danno da arma");
    reveal_strlit("danno di precisione");
    reveal_strlit("divinazione");
    reveal_strlit("effetti Barcollanti");
    reveal_strlit("effetti di Paura");
    reveal_strlit("effetti di Sonno");
    reveal_strlit("effetti di maledizione");
    reveal_strlit("effetti di maledizioni");
    reveal_strlit("effetti di paura");
    reveal_strlit("effetti di sonno");
    reveal_strlit("elettricità");
    reveal_strlit("energia negativa");
    reveal_strlit("ferite permanenti");
    reveal_strlit("freddo");
    reveal_strlit("fuoco");
    reveal_strlit("malattia");
    reveal_strlit("malattie");
    reveal_strlit("maledizioni");
    reveal_strlit("nausea");
    reveal_strlit("paralisi");
    reveal_strlit("paura");
    reveal_strlit("pietrificazione");
    reveal_strlit("possessione");
    reveal_strlit("ruggine");
    reveal_strlit("sanguinamento");
    reveal_strlit("sonno");
    reveal_strlit("sonoro");
    reveal_strlit("sordità");
    reveal_strlit("stordimento");
    reveal_strlit("veleni");
    reveal_strlit("veleno");
    assert("Abbagliamenti"@.len() == 13);
    assert("Abbagliamento"@.len() == 13);
    assert("Abbagliato"@.len() == 10);
    assert("Accecato"@.len() == 8);
    assert("Acido"@.len() == 5);
    assert("Affaticamento"@.len() == 13);
    assert("Affaticato"@.len() == 10);
    assert("Armi Taglienti"@.len() == 14);
    assert("Armi contundenti"@.len() == 16);
    assert("Assorbimento del Fuoco"@.len() == 22);
    assert("Attacchi Furtivi"@.len() == 16);
    assert("Attacchi ai Fianchi"@.len() == 19);
    assert("Attacchi basati sull'olfatto"@.len() == 28);
    assert("Attacchi basati sulla vista"@.len() == 27);
    assert("Attacchi basati sulla vista o sguardo"@.len() == 37);
    assert("Attacchi con Sguardo"@.len() == 20);
    assert("Attacchi con lo sguardo"@.len() == 23);
    assert("Attacchi dipendenti dalla vista"@.len() == 31);
    assert("Barcollante"@.len() == 11);
    assert("Barcollare"@.len() == 10);
    assert("Cecità"@.len() == 6);
    assert("Colpi Critici"@.len() == 13);
    assert("Colpi critici"@.len() == 13);
    assert("Condizione Affaticato"@.len() == 21);
    assert("Condizione Esausto"@.len() == 18);
    assert("Confusione"@.len() == 10);
    assert("Danni Non Letali"@.len() == 16);
    assert("Danni contundenti"@.len() == 17);
    assert("Danni da arma"@.len() == 13);
    assert("Danni da armi"@.len() == 13);
    assert("Danni dalle Armi"@.len() == 16);
    assert("Danni perforanti e taglienti"@.len() == 28);
    assert("Danno da Pressione"@.len() == 18);
    assert("Danno da arma"@.len() == 13);
    assert("Danno non letale"@.len() == 16);
    assert("Divinazione"@.len() == 11);
    assert("Effetti di Paura"@.len() == 16);
    assert("Effetti di Sonno"@.len() == 16);
    assert("Effetti di paura"@.len() == 16);
    assert("Effetti di sonno"@.len() == 16);
    assert("Elettricità"@.len() == 11);
    assert("Elettricità (parziale)"@.len() == 22);
    assert("Energia Negativa"@.len() == 16);
    assert("Energia Positiva"@.len() == 16);
    assert("Esaurimento"@.len() == 11);
    assert("Esausto"@.len() == 7);
    assert("Fatica"@.len() == 6);
    assert("Fiancheggiamento"@.len() == 16);
    assert("Frastornamento"@.len() == 14);
    assert("Frastornato"@.len() == 11);
    assert("Freddo"@.len() == 6);
    assert("Freddo (sé stesso e chi lo cavalca)"@.len() == 35);
    assert("Fuoco"@.len() == 5);
    assert("Fuoco Infernale"@.len() == 15);
    assert("Immunità al Freddo"@.len() == 18);
    assert("Immunità alla Magia"@.len() == 19);
    assert("Infermità"@.len() == 9);
    assert("Infermo"@.len() == 7);
    assert("Magia"@.len() == 5);
    assert("Malattia"@.len() == 8);
    assert("Malattie"@.len() == 8);
    assert("Maledizioni"@.len() == 11);
    assert("Nausea"@.len() == 6);
    assert("Nauseato"@.len() == 8);
    assert("Non Deformante"@.len() == 14);
    assert("Paralisi"@.len() == 8);
    assert("Paura"@.len() == 5);
    assert("Pietrificazione"@.len() == 15);
    assert("Sanguinamento"@.len() == 13);
    assert("Sanguinamento (solo Punti Ferita)"@.len() == 33);
    assert("Scosso"@.len() == 6);
    assert("Sguardo"@.len() == 7);
    assert("Sonno"@.len() == 5);
    assert("Sonoro"@.len() == 6);
    assert("Sordità"@.len() == 7);
    assert("Spaventato"@.len() == 10);
    assert("Stordimento"@.len() == 11);
    assert("Veleni"@.len() == 6);
    assert("Veleno"@.len() == 6);
    assert("Veleno Ingerito"@.len() == 15);
    assert("acido"@.len() == 5);
    assert("attacchi con Sguardo"@.len() == 20);
    assert("attacchi con lo Sguardo"@.len() == 23);
    assert("attacchi con lo sguardo"@.len() == 23);
    assert("contundente"@.len() == 11);
    assert("da caduta e da schiacciamento"@.len() == 29);
    assert("danni contundenti"@.len() == 17);
    assert("danni contundenti e perforanti"@.len() == 30);
    assert("danni da arma"@.len() == 13);
    assert("danni da armi"@.len() == 13);
    assert("danni da precisione"@.len() == 19);
    assert("danni delle armi"@.len() == 16);
    assert("danni di precisione"@.len() == 19);
    assert("danni perforanti"@.len() == 16);
    assert("danni taglienti"@.len() == 15);
    assert("danni taglienti e perforanti"@.len() == 28);
    assert("danno da arma"@.len() == 13);
    assert("danno di precisione"@.len() == 19);
    assert("divinazione"@.len() == 11);
    assert("effetti Barcollanti"@.len() == 19);
    assert("effetti di Paura"@.len() == 16);
    assert("effetti di Sonno"@.len() == 16);
    assert("effetti di maledizione"@.len() == 22);
    assert("effetti di maledizioni"@.len() == 22);
    assert("effetti di paura"@.len() == 16);
    assert("effetti di sonno"@.len() == 16);
    assert("elettricità"@.len() == 11);
    assert("energia negativa"@.len() == 16);
    assert("ferite permanenti"@.len() == 17);
    assert("freddo"@.len() == 6);
    assert("fuoco"@.len() == 5);
    assert("malattia"@.len() == 8);
    assert("malattie"@.len() == 8);
    assert("maledizioni"@.len() == 11);
    assert("nausea"@.len() == 6);
    assert("paralisi"@.len() == 8);
    assert("paura"@.len() == 5);
    assert("pietrificazione"@.len() == 15);
    assert("possessione"@.len() == 11);
    assert("ruggine"@.len() == 7);
    assert("sanguinamento"@.len() == 13);
    assert("sonno"@.len() == 5);
    assert("sonoro"@.len() == 6);
    assert("sordità"@.len() == 7);
    assert("stordimento"@.len() == 11);
    assert("veleni"@.len() == 6);
    assert("veleno"@.len() == 6);
    assert("ferite permanenti"@[0] != "Danni contundenti"@[0]);
    assert("ferite permanenti"@ != "Danni contundenti"@);
    assert("ferite permanenti"@[0] != "danni contundenti"@[0]);
    assert("ferite permanenti"@ != "danni contundenti"@);
}

proof fn lemma_read_immunity_mindeffects(s: Seq<char>)
    requires
        immunity_named(Immunity_Type::Immunity_MindEffects, s),
    ensures
        spec_single_immunity(s) == Some(Immunity_Type::Immunity_MindEffects),
{
    reveal_strlit("Abbagliamenti");
    reveal_strlit("Abbagliamento");
    reveal_strlit("Abbagliato");
    reveal_strlit("Accecato");
    reveal_strlit("Acido");
    reveal_strlit("Affaticamento");
    reveal_strlit("Affaticato");
    reveal_strlit("Armi Taglienti");
    reveal_strlit("Armi contundenti");
    reveal_strlit("Assorbimento del Fuoco");
    reveal_strlit("Attacchi Furtivi");
    reveal_strlit("Attacchi ai Fianchi");
    reveal_strlit("Attacchi basati sull'olfatto");
    reveal_strlit("Attacchi basati sulla vista");
    reveal_strlit("Attacchi basati sulla vista o sguardo");
    reveal_strlit("Attacchi con Sguardo");
    reveal_strlit("Attacchi con lo sguardo");
    reveal_strlit("Attacchi dipendenti dalla vista");
    reveal_strlit("Barcollante");
    reveal_strlit("Barcollare");
    reveal_strlit("Cecità");
    reveal_strlit("Colpi Critici");
    reveal_strlit("Colpi critici");
    reveal_strlit("Condizione Affaticato");
    reveal_strlit("Condizione Esausto");
    reveal_strlit("Confusione");
    reveal_strlit("Danni Non Letali");
    reveal_strlit("Danni contundenti");
    reveal_strlit("Danni da arma");
    reveal_strlit("Danni da armi");
    reveal_strlit("Danni dalle Armi");
    reveal_strlit("Danni perforanti e taglienti");
    reveal_strlit("Danno da Pressione");
    reveal_strlit("Danno da arma");
    reveal_strlit("Danno non letale");
    reveal_strlit("Divinazione");
    reveal_strlit("Effetti d'influenza mentale");
    reveal_strlit("Effetti di Influenza Mentale");
    reveal_strlit("Effetti di Paura");
    reveal_strlit("Effetti di Sonno");
    reveal_strlit("Effetti di influenza mentale");
    reveal_strlit("Effetti di paura");
    reveal_strlit("Effetti di sonno");
    reveal_strlit("Elettricità");
    reveal_strlit("Elettricità (parziale)");
    reveal_strlit("Energia Negativa");
    reveal_strlit("Energia Positiva");
    reveal_strlit("Esaurimento");
    reveal_strlit("Esausto");
    reveal_strlit("Fatica");
    reveal_strlit("Fiancheggiamento");
    reveal_strlit("Frastornamento");
    reveal_strlit("Frastornato");
    reveal_strlit("Freddo");
    reveal_strlit("Freddo (sé stesso e chi lo cavalca)");
    reveal_strlit("Fuoco");
    reveal_strlit("Fuoco Infernale");
    reveal_strlit("Immunità al Freddo");
    reveal_strlit("Immunità alla Magia");
    reveal_strlit("Infermità");
    reveal_strlit("Infermo");
    reveal_strlit("Magia");
    reveal_strlit("Malattia");
    reveal_strlit("Malattie");
    reveal_strlit("Maledizioni");
    reveal_strlit("Nausea");
    reveal_strlit("Nauseato");
    reveal_strlit("Non Deformante");
    reveal_strlit("Paralisi");
    reveal_strlit("Paura");
    reveal_strlit("Pietrificazione");
    reveal_strlit("Sanguinamento");
    reveal_strlit("Sanguinamento (solo Punti Ferita)");
    reveal_strlit("Scosso");
    reveal_strlit("Sguardo");
    reveal_strlit("Sonno");
    reveal_strlit("Sonoro");
    reveal_strlit("Sordità");
    reveal_strlit("Spaventato");
    reveal_strlit("Stordimento");
    reveal_strlit("Veleni");
    reveal_strlit("Veleno");
    reveal_strlit("Veleno Ingerito");
    reveal_strlit("acido");
    reveal_strlit("attacchi con Sguardo");
    reveal_strlit("attacchi con lo Sguardo");
    reveal_strlit("attacchi con lo sguardo");
    reveal_strlit("controllo mentale");
    reveal_strlit("contundente");
    reveal_strlit("da caduta e da schiacciamento");
    reveal_strlit("danni contundenti");
    reveal_strlit("danni contundenti e perforanti");
    reveal_strlit("danni da arma");
    reveal_strlit("danni da armi");
    reveal_strlit("danni da precisione");
    reveal_strlit("danni delle armi");
    reveal_strlit("danni di precisione");
    reveal_strlit("danni perforanti");
    reveal_strlit("danni taglienti");
    reveal_strlit("danni taglienti e perforanti");
    reveal_strlit("danno da arma");
    reveal_strlit("danno di precisione");
    reveal_strlit("divinazione");
    reveal_strlit("effetti Barcollanti");
    reveal_strlit("effetti di Paura");
    reveal_strlit("effetti di Sonno");
    reveal_strlit("effetti di influenza mentale");
    reveal_strlit("effetti di maledizione");
    reveal_strlit("effetti di maledizioni");
    reveal_strlit("effetti di paura");
    reveal_strlit("effetti di sonno");
    reveal_strlit("elettricità");
    reveal_strlit("energia negativa");
    reveal_strlit("ferite permanenti");
    reveal_strlit("freddo");
    reveal_strlit("fuoco");
    reveal_strlit("malattia");
    reveal_strlit("malattie");
    reveal_strlit("maledizioni");
    reveal_strlit("nausea");
    reveal_strlit("paralisi");
    reveal_strlit("paura");
    reveal_strlit("pietrificazione");
    reveal_strlit("possessione");
    reveal_strlit("ruggine");
    reveal_strlit("sanguinamento");
    reveal_strlit("sonno");
    reveal_strlit("sonoro");
    reveal_strlit("sordità");
    reveal_strlit("stordimento");
    reveal_strlit("veleni");
    reveal_strlit("veleno");
    assert("Abbagliamenti"@.len() == 13);
    assert("Abbagliamento"@.len() == 13);
    assert("Abbagliato"@.len() == 10);
    assert("Accecato"@.len() == 8);
    assert("Acido"@.len() == 5);
    assert("Affaticamento"@.len() == 13);
    assert("Affaticato"@.len() == 10);
    assert("Armi Taglienti"@.len() == 14);
    assert("Armi contundenti"@.len() == 16);
    assert("Assorbimento del Fuoco"@.len() == 22);
    assert("Attacchi Furtivi"@.len() == 16);
    assert("Attacchi ai Fianchi"@.len() == 19);
    assert("Attacchi basati sull'olfatto"@.len() == 28);
    assert("Attacchi basati sulla vista"@.len() == 27);
    assert("Attacchi basati sulla vista o sguardo"@.len() == 37);
    assert("Attacchi con Sguardo"@.len() == 20);
    assert("Attacchi con lo sguardo"@.len() == 23);
    assert("Attacchi dipendenti dalla vista"@.len() == 31);
    assert("Barcollante"@.len() == 11);
    assert("Barcollare"@.len() == 10);
    assert("Cecità"@.len() == 6);
    assert("Colpi Critici"@.len() == 13);
    assert("Colpi critici"@.len() == 13);
    assert("Condizione Affaticato"@.len() == 21);
    assert("Condizione Esausto"@.len() == 18);
    assert("Confusione"@.len() == 10);
    assert("Danni Non Letali"@.len() == 16);
    assert("Danni contundenti"@.len() == 17);
    assert("Danni da arma"@.len() == 13);
    assert("Danni da armi"@.len() == 13);
    assert("Danni dalle Armi"@.len() == 16);
    assert("Danni perforanti e taglienti"@.len() == 28);
    assert("Danno da Pressione"@.len() == 18);
    assert("Danno da arma"@.len() == 13);
    assert("Danno non letale"@.len() == 16);
    assert("Divinazione"@.len() == 11);
    assert("Effetti d'influenza mentale"@.len() == 27);
    assert("Effetti di Influenza Mentale"@.len() == 28);
    assert("Effetti di Paura"@.len() == 16);
    assert("Effetti di Sonno"@.len() == 16);
    assert("Effetti di influenza mentale"@.len() == 28);
    assert("Effetti di paura"@.len() == 16);
    assert("Effetti di sonno"@.len() == 16);
    assert("Elettricità"@.len() == 11);
    assert("Elettricità (parziale)"@.len() == 22);
    assert("Energia Negativa"@.len() == 16);
    assert("Energia Positiva"@.len() == 16);
    assert("Esaurimento"@.len() == 11);
    assert("Esausto"@.len() == 7);
    assert("Fatica"@.len() == 6);
    assert("Fiancheggiamento"@.len() == 16);
    assert("Frastornamento"@.len() == 14);
    assert("Frastornato"@.len() == 11);
    assert("Freddo"@.len() == 6);
    assert("Freddo (sé stesso e chi lo cavalca)"@.len() == 35);
    assert("Fuoco"@.len() == 5);
    assert("Fuoco Infernale"@.len() == 15);
    assert("Immunità al Freddo"@.len() == 18);
    assert("Immunità alla Magia"@.len() == 19);
    assert("Infermità"@.len() == 9);
    assert("Infermo"@.len() == 7);
    assert("Magia"@.len() == 5);
    assert("Malattia"@.len() == 8);
    assert("Malattie"@.len() == 8);
    assert("Maledizioni"@.len() == 11);
    assert("Nausea"@.len() == 6);
    assert("Nauseato"@.len() == 8);
    assert("Non Deformante"@.len() == 14);
    assert("Paralisi"@.len() == 8);
    assert("Paura"@.len() == 5);
    assert("Pietrificazione"@.len() == 15);
    assert("Sanguinamento"@.len() == 13);
    assert("Sanguinamento (solo Punti Ferita)"@.len() == 33);
    assert("Scosso"@.len() == 6);
    assert("Sguardo"@.len() == 7);
    assert("Sonno"@.len() == 5);
    assert("Sonoro"@.len() == 6);
    assert("Sordità"@.len() == 7);
    assert("Spaventato"@.len() == 10);
    assert("Stordimento"@.len() == 11);
    assert("Veleni"@.len() == 6);
    assert("Veleno"@.len() == 6);
    assert("Veleno Ingerito"@.len() == 15);
    assert("acido"@.len() == 5);
    assert("attacchi con Sguardo"@.len() == 20);
    assert("attacchi con lo Sguardo"@.len() == 23);
    assert("attacchi con lo sguardo"@.len() == 23);
    assert("controllo mentale"@.len() == 17);
    assert("contundente"@.len() == 11);
    assert("da caduta e da schiacciamento"@.len() == 29);
    assert("danni contundenti"@.len() == 17);
    assert("danni contundenti e perforanti"@.len() == 30);
    assert("danni da arma"@.len() == 13);
    assert("danni da armi"@.len() == 13);
    assert("danni da precisione"@.len() == 19);
    assert("danni delle armi"@.len() == 16);
    assert("danni di precisione"@.len() == 19);
    assert("danni perforanti"@.len() == 16);
    assert("danni taglienti"@.len() == 15);
    assert("danni taglienti e perforanti"@.len() == 28);
    assert("danno da arma"@.len() == 13);
    assert("danno di precisione"@.len() == 19);
    assert("divinazione"@.len() == 11);
    assert("effetti Barcollanti"@.len() == 19);
    assert("effetti di Paura"@.len() == 16);
    assert("effetti di Sonno"@.len() == 16);
    assert("effetti di influenza mentale"@.len() == 28);
    assert("effetti di maledizione"@.len() == 22);
    assert("effetti di maledizioni"@.len() == 22);
    assert("effetti di paura"@.len() == 16);
    assert("effetti di sonno"@.len() == 16);
    assert("elettricità"@.len() == 11);
    assert("energia negativa"@.len() == 16);
    assert("ferite permanenti"@.len() == 17);
    assert("freddo"@.len() == 6);
    assert("fuoco"@.len() == 5);
    assert("malattia"@.len() == 8);
    assert("malattie"@.len() == 8);
    assert("maledizioni"@.len() == 11);
    assert("nausea"@.len() == 6);
    assert("paralisi"@.len() == 8);
    assert("paura"@.len() == 5);
    assert("pietrificazione"@.len() == 15);
    assert("possessione"@.len() == 11);
    assert("ruggine"@.len() == 7);
    assert("sanguinamento"@.len() == 13);
    assert("sonno"@.len() == 5);
    assert("sonoro"@.len() == 6);
    assert("sordità"@.len() == 7);
    assert("stordimento"@.len() == 11);
    assert("veleni"@.len() == 6);
    assert("veleno"@.len() == 6);
    assert("Effetti di Influenza Mentale"@[0] != "Attacchi basati sull'olfatto"@[0]);
    assert("Effetti di Influenza Mentale"@ != "Attacchi basati sull'olfatto"@);
    assert("Effetti di Influenza Mentale"@[0] != "Danni perforanti e taglienti"@[0]);
    assert("Effetti di Influenza Mentale"@ != "Danni perforanti e taglienti"@);
    assert("Effetti di Influenza Mentale"@[0] != "danni taglienti e perforanti"@[0]);
    assert("Effetti di Influenza Mentale"@ != "danni taglienti e perforanti"@);
    assert("Effetti di influenza mentale"@[0] != "Attacchi basati sull'olfatto"@[0]);
    assert("Effetti di influenza mentale"@ != "Attacchi basati sull'olfatto"@);
    assert("Effetti di influenza mentale"@[0] != "Danni perforanti e taglienti"@[0]);
    assert("Effetti di influenza mentale"@ != "Danni perforanti e taglienti"@);
    assert("Effetti di influenza mentale"@[0] != "danni taglienti e perforanti"@[0]);
    assert("Effetti di influenza mentale"@ != "danni taglienti e perforanti"@);
    assert("Effetti di influenza mentale"@[11] != "Effetti di Influenza Mentale"@[11]);
    assert("Effetti di influenza mentale"@ != "Effetti di Influenza Mentale"@);
    assert("effetti di influenza mentale"@[0] != "Attacchi basati sull'olfatto"@[0]);
    assert("effetti di influenza mentale"@ != "Attacchi basati sull'olfatto"@);
    assert("effetti di influenza mentale"@[0] != "Danni perforanti e taglienti"@[0]);
    assert("effetti di influenza mentale"@ != "Danni perforanti e taglienti"@);
    assert("effetti di influenza mentale"@[0] != "danni taglienti e perforanti"@[0]);
    assert("effetti di influenza mentale"@ != "danni taglienti e perforanti"@);
    assert("effetti di influenza mentale"@[0] != "Effetti di Influenza Mentale"@[0]);
    assert("effetti di influenza mentale"@ != "Effetti di Influenza Mentale"@);
    assert("effetti di influenza mentale"@[0] != "Effetti di influenza mentale"@[0]);
    assert("effetti di influenza mentale"@ != "Effetti di influenza mentale"@);
    assert("Effetti d'influenza mentale"@[0] != "Attacchi basati sulla vista"@[0]);
    assert("Effetti d'influenza mentale"@ != "Attacchi basati sulla vista"@);
    assert("controllo mentale"@[0] != "Danni contundenti"@[0]);
    assert("controllo mentale"@ != "Danni contundenti"@);
    assert("controllo mentale"@[0] != "danni contundenti"@[0]);
    assert("controllo mentale"@ != "danni contundenti"@);
    assert("controllo mentale"@[0] != "ferite permanenti"@[0]);
    assert("controllo mentale"@ != "ferite permanenti"@);
}

proof fn lemma_read_immunity_fearandmindeffects(s: Seq<char>)
    requires
        immunity_named(Immunity_Type::Immunity_FearAndMindEffects, s),
    ensures
        spec_single_immunity(s) == Some(Immunity_Type::Immunity_FearAndMindEffects),
{
    reveal_strlit("Abbagliamenti");
    reveal_strlit("Abbagliamento");
    reveal_strlit("Abbagliato");
    reveal_strlit("Accecato");
    reveal_strlit("Acido");
    reveal_strlit("Affaticamento");
    reveal_strlit("Affaticato");
    reveal_strlit("Armi Taglienti");
    reveal_strlit("Armi contundenti");
    reveal_strlit("Assorbimento del Fuoco");
    reveal_strlit("Attacchi Furtivi");
    reveal_strlit("Attacchi ai Fianchi");
    reveal_strlit("Attacchi basati sull'olfatto");
    reveal_strlit("Attacchi basati sulla vista");
    reveal_strlit("Attacchi basati sulla vista o sguardo");
    reveal_strlit("Attacchi con Sguardo");
    reveal_strlit("Attacchi con lo sguardo");
    reveal_strlit("Attacchi dipendenti dalla vista");
    reveal_strlit("Barcollante");
    reveal_strlit("Barcollare");
    reveal_strlit("Cecità");
    reveal_strlit("Colpi Critici");
    reveal_strlit("Colpi critici");
    reveal_strlit("Condizione Affaticato");
    reveal_strlit("Condizione Esausto");
    reveal_strlit("Confusione");
    reveal_strlit("Danni Non Letali");
    reveal_strlit("Danni contundenti");
    reveal_strlit("Danni da arma");
    reveal_strlit("Danni da armi");
    reveal_strlit("Danni dalle Armi");
    reveal_strlit("Danni perforanti e taglienti");
    reveal_strlit("Danno da Pressione");
    reveal_strlit("Danno da arma");
    reveal_strlit("Danno non letale");
    reveal_strlit("Divinazione");
    reveal_strlit("Effetti d'influenza mentale");
    reveal_strlit("Effetti di Influenza Mentale");
    reveal_strlit("Effetti di Paura");
    reveal_strlit("Effetti di Sonno");
    reveal_strlit("Effetti di influenza mentale");
    reveal_strlit("Effetti di paura");
    reveal_strlit("Effetti di sonno");
    reveal_strlit("Elettricità");
    reveal_strlit("Elettricità (parziale)");
    reveal_strlit("Energia Negativa");
    reveal_strlit("Energia Positiva");
    reveal_strlit("Esaurimento");
    reveal_strlit("Esausto");
    reveal_strlit("Fatica");
    reveal_strlit("Fiancheggiamento");
    reveal_strlit("Frastornamento");
    reveal_strlit("Frastornato");
    reveal_strlit("Freddo");
    reveal_strlit("Freddo (sé stesso e chi lo cavalca)");
    reveal_strlit("Fuoco");
    reveal_strlit("Fuoco Infernale");
    reveal_strlit("Immunità al Freddo");
    reveal_strlit("Immunità alla Magia");
    reveal_strlit("Infermità");
    reveal_strlit("Infermo");
    reveal_strlit("Magia");
    reveal_strlit("Malattia");
    reveal_strlit("Malattie");
    reveal_strlit("Maledizioni");
    reveal_strlit("Nausea");
    reveal_strlit("Nauseato");
    reveal_strlit("Non Deformante");
    reveal_strlit("Paralisi");
    reveal_strlit("Paura");
    reveal_strlit("Pietrificazione");
    reveal_strlit("Sanguinamento");
    reveal_strlit("Sanguinamento (solo Punti Ferita)");
    reveal_strlit("Scosso");
    reveal_strlit("Sguardo");
    reveal_strlit("Sonno");
    reveal_strlit("Sonoro");
    reveal_strlit("Sordità");
    reveal_strlit("Spaventato");
    reveal_strlit("Stordimento");
    reveal_strlit("Veleni");
    reveal_strlit("Veleno");
    reveal_strlit("Veleno Ingerito");
    reveal_strlit("acido");
    reveal_strlit("attacchi con Sguardo");
    reveal_strlit("attacchi con lo Sguardo");
    reveal_strlit("attacchi con lo sguardo");
    reveal_strlit("controllo mentale");
    reveal_strlit("contundente");
    reveal_strlit("da caduta e da schiacciamento");
    reveal_strlit("danni contundenti");
    reveal_strlit("danni contundenti e perforanti");
    reveal_strlit("danni da arma");
    reveal_strlit("danni da armi");
    reveal_strlit("danni da precisione");
    reveal_strlit("danni delle armi");
    reveal_strlit("danni di precisione");
    reveal_strlit("danni perforanti");
    reveal_strlit("danni taglienti");
    reveal_strlit("danni taglienti e perforanti");
    reveal_strlit("danno da arma");
    reveal_strlit("danno di precisione");
    reveal_strlit("divinazione");
    reveal_strlit("effetti Barcollanti");
    reveal_strlit("effetti di Paura");
    reveal_strlit("effetti di Paura ed influenza mentale");
    reveal_strlit("effetti di Sonno");
    reveal_strlit("effetti di influenza mentale");
    reveal_strlit("effetti di maledizione");
    reveal_strlit("effetti di maledizioni");
    reveal_strlit("effetti di paura");
    reveal_strlit("effetti di sonno");
    reveal_strlit("elettricità");
    reveal_strlit("energia negativa");
    reveal_strlit("ferite permanenti");
    reveal_strlit("freddo");
    reveal_strlit("fuoco");
    reveal_strlit("malattia");
    reveal_strlit("malattie");
    reveal_strlit("maledizioni");
    reveal_strlit("nausea");
    reveal_strlit("paralisi");
    reveal_strlit("paura");
    reveal_strlit("pietrificazione");
    reveal_strlit("possessione");
    reveal_strlit("ruggine");
    reveal_strlit("sanguinamento");
    reveal_strlit("sonno");
    reveal_strlit("sonoro");
    reveal_strlit("sordità");
    reveal_strlit("stordimento");
    reveal_strlit("veleni");
    reveal_strlit("veleno");
    assert("Abbagliamenti"@.len() == 13);
    assert("Abbagliamento"@.len() == 13);
    assert("Abbagliato"@.len() == 10);
    assert("Accecato"@.len() == 8);
    assert("Acido"@.len() == 5);
    assert("Affaticamento"@.len() == 13);
    assert("Affaticato"@.len() == 10);
    assert("Armi Taglienti"@.len() == 14);
    assert("Armi contundenti"@.len() == 16);
    assert("Assorbimento del Fuoco"@.len() == 22);
    assert("Attacchi Furtivi"@.len() == 16);
    assert("Attacchi ai Fianchi"@.len() == 19);
    assert("Attacchi basati sull'olfatto"@.len() == 28);
    assert("Attacchi basati sulla vista"@.len() == 27);
    assert("Attacchi basati sulla vista o sguardo"@.len() == 37);
    assert("Attacchi con Sguardo"@.len() == 20);
    assert("Attacchi con lo sguardo"@.len() == 23);
    assert("Attacchi dipendenti dalla vista"@.len() == 31);
    assert("Barcollante"@.len() == 11);
    assert("Barcollare"@.len() == 10);
    assert("Cecità"@.len() == 6);
    assert("Colpi Critici"@.len() == 13);
    assert("Colpi critici"@.len() == 13);
    assert("Condizione Affaticato"@.len() == 21);
    assert("Condizione Esausto"@.len() == 18);
    assert("Confusione"@.len() == 10);
    assert("Danni Non Letali"@.len() == 16);
    assert("Danni contundenti"@.len() == 17);
    assert("Danni da arma"@.len() == 13);
    assert("Danni da armi"@.len() == 13);
    assert("Danni dalle Armi"@.len() == 16);
    assert("Danni perforanti e taglienti"@.len() == 28);
    assert("Danno da Pressione"@.len() == 18);
    assert("Danno da arma"@.len() == 13);
    assert("Danno non letale"@.len() == 16);
    assert("Divinazione"@.len() == 11);
    assert("Effetti d'influenza mentale"@.len() == 27);
    assert("Effetti di Influenza Mentale"@.len() == 28);
    assert("Effetti di Paura"@.len() == 16);
    assert("Effetti di Sonno"@.len() == 16);
    assert("Effetti di influenza mentale"@.len() == 28);
    assert("Effetti di paura"@.len() == 16);
    assert("Effetti di sonno"@.len() == 16);
    assert("Elettricità"@.len() == 11);
    assert("Elettricità (parziale)"@.len() == 22);
    assert("Energia Negativa"@.len() == 16);
    assert("Energia Positiva"@.len() == 16);
    assert("Esaurimento"@.len() == 11);
    assert("Esausto"@.len() == 7);
    assert("Fatica"@.len() == 6);
    assert("Fiancheggiamento"@.len() == 16);
    assert("Frastornamento"@.len() == 14);
    assert("Frastornato"@.len() == 11);
    assert("Freddo"@.len() == 6);
    assert("Freddo (sé stesso e chi lo cavalca)"@.len() == 35);
    assert("Fuoco"@.len() == 5);
    assert("Fuoco Infernale"@.len() == 15);
    assert("Immunità al Freddo"@.len() == 18);
    assert("Immunità alla Magia"@.len() == 19);
    assert("Infermità"@.len() == 9);
    assert("Infermo"@.len() == 7);
    assert("Magia"@.len() == 5);
    assert("Malattia"@.len() == 8);
    assert("Malattie"@.len() == 8);
    assert("Maledizioni"@.len() == 11);
    assert("Nausea"@.len() == 6);
    assert("Nauseato"@.len() == 8);
    assert("Non Deformante"@.len() == 14);
    assert("Paralisi"@.len() == 8);
    assert("Paura"@.len() == 5);
    assert("Pietrificazione"@.len() == 15);
    assert("Sanguinamento"@.len() == 13);
    assert("Sanguinamento (solo Punti Ferita)"@.len() == 33);
    assert("Scosso"@.len() == 6);
    assert("Sguardo"@.len() == 7);
    assert("Sonno"@.len() == 5);
    assert("Sonoro"@.len() == 6);
    assert("Sordità"@.len() == 7);
    assert("Spaventato"@.len() == 10);
    assert("Stordimento"@.len() == 11);
    assert("Veleni"@.len() == 6);
    assert("Veleno"@.len() == 6);
    assert("Veleno Ingerito"@.len() == 15);
    assert("acido"@.len() == 5);
    assert("attacchi con Sguardo"@.len() == 20);
    assert("attacchi con lo Sguardo"@.len() == 23);
    assert("attacchi con lo sguardo"@.len() == 23);
    assert("controllo mentale"@.len() == 17);
    assert("contundente"@.len() == 11);
    assert("da caduta e da schiacciamento"@.len() == 29);
    assert("danni contundenti"@.len() == 17);
    assert("danni contundenti e perforanti"@.len() == 30);
    assert("danni da arma"@.len() == 13);
    assert("danni da armi"@.len() == 13);
    assert("danni da precisione"@.len() == 19);
    assert("danni delle armi"@.len() == 16);
    assert("danni di precisione"@.len() == 19);
    assert("danni perforanti"@.len() == 16);
    assert("danni taglienti"@.len() == 15);
    assert("danni taglienti e perforanti"@.len() == 28);
    assert("danno da arma"@.len() == 13);
    assert("danno di precisione"@.len() == 19);
    assert("divinazione"@.len() == 11);
    assert("effetti Barcollanti"@.len() == 19);
    assert("effetti di Paura"@.len() == 16);
    assert("effetti di Paura ed influenza mentale"@.len() == 37);
    assert("effetti di Sonno"@.len() == 16);
    assert("effetti di influenza mentale"@.len() == 28);
    assert("effetti di maledizione"@.len() == 22);
    assert("effetti di maledizioni"@.len() == 22);
    assert("effetti di paura"@.len() == 16);
    assert("effetti di sonno"@.len() == 16);
    assert("elettricità"@.len() == 11);
    assert("energia negativa"@.len() == 16);
    assert("ferite permanenti"@.len() == 17);
    assert("freddo"@.len() == 6);
    assert("fuoco"@.len() == 5);
    assert("malattia"@.len() == 8);
    assert("malattie"@.len() == 8);
    assert("maledizioni"@.len() == 11);
    assert("nausea"@.len() == 6);
    assert("paralisi"@.len() == 8);
    assert("paura"@.len() == 5);
    assert("pietrificazione"@.len() == 15);
    assert("possessione"@.len() == 11);
    assert("ruggine"@.len() == 7);
    assert("sanguinamento"@.len() == 13);
    assert("sonno"@.len() == 5);
    assert("sonoro"@.len() == 6);
    assert("sordità"@.len() == 7);
    assert("stordimento"@.len() == 11);
    assert("veleni"@.len() == 6);
    assert("veleno"@.len() == 6);
    assert("effetti di Paura ed influenza mentale"@[0] != "Attacchi basati sulla vista o sguardo"@[0]);
    assert("effetti di Paura ed influenza mentale"@ != "Attacchi basati sulla vista o sguardo"@);
}

proof fn lemma_read_immunity_mindeffectsandgaze(s: Seq<char>)
    requires
        immunity_named(Immunity_Type::Immunity_MindEffectsAndGaze, s),
    ensures
        spec_single_immunity(s) == Some(Immunity_Type::Immunity_MindEffectsAndGaze),
{
    reveal_strlit("Abbagliamenti");
    reveal_strlit("Abbagliamento");
    reveal_strlit("Abbagliato");
    reveal_strlit("Accecato");
    reveal_strlit("Acido");
    reveal_strlit("Affaticamento");
    reveal_strlit("Affaticato");
    reveal_strlit("Armi Taglienti");
    reveal_strlit("Armi contundenti");
    reveal_strlit("Assorbimento del Fuoco");
    reveal_strlit("Attacchi Furtivi");
    reveal_strlit("Attacchi ai Fianchi");
    reveal_strlit("Attacchi basati sull'olfatto");
    reveal_strlit("Attacchi basati sulla vista");
    reveal_strlit("Attacchi basati sulla vista o sguardo");
    reveal_strlit("Attacchi con Sguardo");
    reveal_strlit("Attacchi con lo sguardo");
    reveal_strlit("Attacchi dipendenti dalla vista");
    reveal_strlit("Barcollante");
    reveal_strlit("Barcollare");
    reveal_strlit("Cecità");
    reveal_strlit("Colpi Critici");
    reveal_strlit("Colpi critici");
    reveal_strlit("Condizione Affaticato");
    reveal_strlit("Condizione Esausto");
    reveal_strlit("Confusione");
    reveal_strlit("Danni Non Letali");
    reveal_strlit("Danni contundenti");
    reveal_strlit("Danni da arma");
    reveal_strlit("Danni da armi");
    reveal_strlit("Danni dalle Armi");
    reveal_strlit("Danni perforanti e taglienti");
    reveal_strlit("Danno da Pressione");
    reveal_strlit("Danno da arma");
    reveal_strlit("Danno non letale");
    reveal_strlit("Divinazione");
    reveal_strlit("Effetti d'influenza mentale");
    reveal_strlit("Effetti di Influenza Mentale");
    reveal_strlit("Effetti di Paura");
    reveal_strlit("Effetti di Sonno");
    reveal_strlit("Effetti di influenza mentale");
    reveal_strlit("Effetti di paura");
    reveal_strlit("Effetti di sonno");
    reveal_strlit("Elettricità");
    reveal_strlit("Elettricità (parziale)");
    reveal_strlit("Energia Negativa");
    reveal_strlit("Energia Positiva");
    reveal_strlit("Esaurimento");
    reveal_strlit("Esausto");
    reveal_strlit("Fatica");
    reveal_strlit("Fiancheggiamento");
    reveal_strlit("Frastornamento");
    reveal_strlit("Frastornato");
    reveal_strlit("Freddo");
    reveal_strlit("Freddo (sé stesso e chi lo cavalca)");
    reveal_strlit("Fuoco");
    reveal_strlit("Fuoco Infernale");
    reveal_strlit("Immunità al Freddo");
    reveal_strlit("Immunità alla Magia");
    reveal_strlit("Infermità");
    reveal_strlit("Infermo");
    reveal_strlit("Magia");
    reveal_strlit("Malattia");
    reveal_strlit("Malattie");
    reveal_strlit("Maledizioni");
    reveal_strlit("Nausea");
    reveal_strlit("Nauseato");
    reveal_strlit("Non Deformante");
    reveal_strlit("Paralisi");
    reveal_strlit("Paura");
    reveal_strlit("Pietrificazione");
    reveal_strlit("Sanguinamento");
    reveal_strlit("Sanguinamento (solo Punti Ferita)");
    reveal_strlit("Scosso");
    reveal_strlit("Sguardo");
    reveal_strlit("Sonno");
    reveal_strlit("Sonoro");
    reveal_strlit("Sordità");
    reveal_strlit("Spaventato");
    reveal_strlit("Stordimento");
    reveal_strlit("Veleni");
    reveal_strlit("Veleno");
    reveal_strlit("Veleno Ingerito");
    reveal_strlit("acido");
    reveal_strlit("attacchi con Sguardo");
    reveal_strlit("attacchi con lo Sguardo");
    reveal_strlit("attacchi con lo sguardo");
    reveal_strlit("controllo mentale");
    reveal_strlit("contundente");
    reveal_strlit("da caduta e da schiacciamento");
    reveal_strlit("danni contundenti");
    reveal_strlit("danni contundenti e perforanti");
    reveal_strlit("danni da arma");
    reveal_strlit("danni da armi");
    reveal_strlit("danni da precisione");
    reveal_strlit("danni delle armi");
    reveal_strlit("danni di precisione");
    reveal_strlit("danni perforanti");
    reveal_strlit("danni taglienti");
    reveal_strlit("danni taglienti e perforanti");
    reveal_strlit("danno da arma");
    reveal_strlit("danno di precisione");
    reveal_strlit("di influenza mentale e basati sullo Sguardo");
    reveal_strlit("divinazione");
    reveal_strlit("effetti Barcollanti");
    reveal_strlit("effetti di Paura");
    reveal_strlit("effetti di Paura ed influenza mentale");
    reveal_strlit("effetti di Sonno");
    reveal_strlit("effetti di influenza mentale");
    reveal_strlit("effetti di influenza mentale e visivi");
    reveal_strlit("effetti di maledizione");
    reveal_strlit("effetti di maledizioni");
    reveal_strlit("effetti di paura");
    reveal_strlit("effetti di sonno");
    reveal_strlit("elettricità");
    reveal_strlit("energia negativa");
    reveal_strlit("ferite permanenti");
    reveal_strlit("freddo");
    reveal_strlit("fuoco");
    reveal_strlit("malattia");
    reveal_strlit("malattie");
    reveal_strlit("maledizioni");
    reveal_strlit("nausea");
    reveal_strlit("paralisi");
    reveal_strlit("paura");
    reveal_strlit("pietrificazione");
    reveal_strlit("possessione");
    reveal_strlit("ruggine");
    reveal_strlit("sanguinamento");
    reveal_strlit("sonno");
    reveal_strlit("sonoro");
    reveal_strlit("sordità");
    reveal_strlit("stordimento");
    reveal_strlit("veleni");
    reveal_strlit("veleno");
    assert("Abbagliamenti"@.len() == 13);
    assert("Abbagliamento"@.len() == 13);
    assert("Abbagliato"@.len() == 10);
    assert("Accecato"@.len() == 8);
    assert("Acido"@.len() == 5);
    assert("Affaticamento"@.len() == 13);
    assert("Affaticato"@.len() == 10);
    assert("Armi Taglienti"@.len() == 14);
    assert("Armi contundenti"@.len() == 16);
    assert("Assorbimento del Fuoco"@.len() == 22);
    assert("Attacchi Furtivi"@.len() == 16);
    assert("Attacchi ai Fianchi"@.len() == 19);
    assert("Attacchi basati sull'olfatto"@.len() == 28);
    assert("Attacchi basati sulla vista"@.len() == 27);
    assert("Attacchi basati sulla vista o sguardo"@.len() == 37);
    assert("Attacchi con Sguardo"@.len() == 20);
    assert("Attacchi con lo sguardo"@.len() == 23);
    assert("Attacchi dipendenti dalla vista"@.len() == 31);
    assert("Barcollante"@.len() == 11);
    assert("Barcollare"@.len() == 10);
    assert("Cecità"@.len() == 6);
    assert("Colpi Critici"@.len() == 13);
    assert("Colpi critici"@.len() == 13);
    assert("Condizione Affaticato"@.len() == 21);
    assert("Condizione Esausto"@.len() == 18);
    assert("Confusione"@.len() == 10);
    assert("Danni Non Letali"@.len() == 16);
    assert("Danni contundenti"@.len() == 17);
    assert("Danni da arma"@.len() == 13);
    assert("Danni da armi"@.len() == 13);
    assert("Danni dalle Armi"@.len() == 16);
    assert("Danni perforanti e taglienti"@.len() == 28);
    assert("Danno da Pressione"@.len() == 18);
    assert("Danno da arma"@.len() == 13);
    assert("Danno non letale"@.len() == 16);
    assert("Divinazione"@.len() == 11);
    assert("Effetti d'influenza mentale"@.len() == 27);
    assert("Effetti di Influenza Mentale"@.len() == 28);
    assert("Effetti di Paura"@.len() == 16);
    assert("Effetti di Sonno"@.len() == 16);
    assert("Effetti di influenza mentale"@.len() == 28);
    assert("Effetti di paura"@.len() == 16);
    assert("Effetti di sonno"@.len() == 16);
    assert("Elettricità"@.len() == 11);
    assert("Elettricità (parziale)"@.len() == 22);
    assert("Energia Negativa"@.len() == 16);
    assert("Energia Positiva"@.len() == 16);
    assert("Esaurimento"@.len() == 11);
    assert("Esausto"@.len() == 7);
    assert("Fatica"@.len() == 6);
    assert("Fiancheggiamento"@.len() == 16);
    assert("Frastornamento"@.len() == 14);
    assert("Frastornato"@.len() == 11);
    assert("Freddo"@.len() == 6);
    assert("Freddo (sé stesso e chi lo cavalca)"@.len() == 35);
    assert("Fuoco"@.len() == 5);
    assert("Fuoco Infernale"@.len() == 15);
    assert("Immunità al Freddo"@.len() == 18);
    assert("Immunità alla Magia"@.len() == 19);
    assert("Infermità"@.len() == 9);
    assert("Infermo"@.len() == 7);
    assert("Magia"@.len() == 5);
    assert("Malattia"@.len() == 8);
    assert("Malattie"@.len() == 8);
    assert("Maledizioni"@.len() == 11);
    assert("Nausea"@.len() == 6);
    assert("Nauseato"@.len() == 8);
    assert("Non Deformante"@.len() == 14);
    assert("Paralisi"@.len() == 8);
    assert("Paura"@.len() == 5);
    assert("Pietrificazione"@.len() == 15);
    assert("Sanguinamento"@.len() == 13);
    assert("Sanguinamento (solo Punti Ferita)"@.len() == 33);
    assert("Scosso"@.len() == 6);
    assert("Sguardo"@.len() == 7);
    assert("Sonno"@.len() == 5);
    assert("Sonoro"@.len() == 6);
    assert("Sordità"@.len() == 7);
    assert("Spaventato"@.len() == 10);
    assert("Stordimento"@.len() == 11);
    assert("Veleni"@.len() == 6);
    assert("Veleno"@.len() == 6);
    assert("Veleno Ingerito"@.len() == 15);
    assert("acido"@.len() == 5);
    assert("attacchi con Sguardo"@.len() == 20);
    assert("attacchi con lo Sguardo"@.len() == 23);
    assert("attacchi con lo sguardo"@.len() == 23);
    assert("controllo mentale"@.len() == 17);
    assert("contundente"@.len() == 11);
    assert("da caduta e da schiacciamento"@.len() == 29);
    assert("danni contundenti"@.len() == 17);
    assert("danni contundenti e perforanti"@.len() == 30);
    assert("danni da arma"@.len() == 13);
    assert("danni da armi"@.len() == 13);
    assert("danni da precisione"@.len() == 19);
    assert("danni delle armi"@.len() == 16);
    assert("danni di precisione"@.len() == 19);
    assert("danni perforanti"@.len() == 16);
    assert("danni taglienti"@.len() == 15);
    assert("danni taglienti e perforanti"@.len() == 28);
    assert("danno da arma"@.len() == 13);
    assert("danno di precisione"@.len() == 19);
    assert("di influenza mentale e basati sullo Sguardo"@.len() == 43);
    assert("divinazione"@.len() == 11);
    assert("effetti Barcollanti"@.len() == 19);
    assert("effetti di Paura"@.len() == 16);
    assert("effetti di Paura ed influenza mentale"@.len() == 37);
    assert("effetti di Sonno"@.len() == 16);
    assert("effetti di influenza mentale"@.len() == 28);
    assert("effetti di influenza mentale e visivi"@.len() == 37);
    assert("effetti di maledizione"@.len() == 22);
    assert("effetti di maledizioni"@.len() == 22);
    assert("effetti di paura"@.len() == 16);
    assert("effetti di sonno"@.len() == 16);
    assert("elettricità"@.len() == 11);
    assert("energia negativa"@.len() == 16);
    assert("ferite permanenti"@.len() == 17);
    assert("freddo"@.len() == 6);
    assert("fuoco"@.len() == 5);
    assert("malattia"@.len() == 8);
    assert("malattie"@.len() == 8);
    assert("maledizioni"@.len() == 11);
    assert("nausea"@.len() == 6);
    assert("paralisi"@.len() == 8);
    assert("paura"@.len() == 5);
    assert("pietrificazione"@.len() == 15);
    assert("possessione"@.len() == 11);
    assert("ruggine"@.len() == 7);
    assert("sanguinamento"@.len() == 13);
    assert("sonno"@.len() == 5);
    assert("sonoro"@.len() == 6);
    assert("sordità"@.len() == 7);
    assert("stordimento"@.len() == 11);
    assert("veleni"@.len() == 6);
    assert("veleno"@.len() == 6);
    assert("effetti di influenza mentale e visivi"@[0] != "Attacchi basati sulla vista o sguardo"@[0]);
    assert("effetti di influenza mentale e visivi"@ != "Attacchi basati sulla vista o sguardo"@);
    assert("effetti di influenza mentale e visivi"@[11] != "effetti di Paura ed influenza mentale"@[11]);
    assert("effetti di influenza mentale e visivi"@ != "effetti di Paura ed influenza mentale"@);
}

proof fn lemma_read_immunity_charmeffects(s: Seq<char>)
    requires
        immunity_named(Immunity_Type::Immunity_CharmEffects, s),
    ensures
        spec_single_immunity(s) == Some(Immunity_Type::Immunity_CharmEffects),
{
    reveal_strlit("Abbagliamenti");
    reveal_strlit("Abbagliamento");
    reveal_strlit("Abbagliato");
    reveal_strlit("Accecato");
    reveal_strlit("Acido");
    reveal_strlit("Affaticamento");
    reveal_strlit("Affaticato");
    reveal_strlit("Ammaliamento");
    reveal_strlit("Armi Taglienti");
    reveal_strlit("Armi contundenti");
    reveal_strlit("Assorbimento del Fuoco");
    reveal_strlit("Attacchi Furtivi");
    reveal_strlit("Attacchi ai Fianchi");
    reveal_strlit("Attacchi basati sull'olfatto");
    reveal_strlit("Attacchi basati sulla vista");
    reveal_strlit("Attacchi basati sulla vista o sguardo");
    reveal_strlit("Attacchi con Sguardo");
    reveal_strlit("Attacchi con lo sguardo");
    reveal_strlit("Attacchi dipendenti dalla vista");
    reveal_strlit("Barcollante");
    reveal_strlit("Barcollare");
    reveal_strlit("Cecità");
    reveal_strlit("Charme");
    reveal_strlit("Colpi Critici");
    reveal_strlit("Colpi critici");
    reveal_strlit("Condizione Affaticato");
    reveal_strlit("Condizione Esausto");
    reveal_strlit("Confusione");
    reveal_strlit("Danni Non Letali");
    reveal_strlit("Danni contundenti");
    reveal_strlit("Danni da arma");
    reveal_strlit("Danni da armi");
    reveal_strlit("Danni dalle Armi");
    reveal_strlit("Danni perforanti e taglienti");
    reveal_strlit("Danno da Pressione");
    reveal_strlit("Danno da arma");
    reveal_strlit("Danno non letale");
    reveal_strlit("Divinazione");
    reveal_strlit("Effetti d'influenza mentale");
    reveal_strlit("Effetti di Influenza Mentale");
    reveal_strlit("Effetti di Paura");
    reveal_strlit("Effetti di Sonno");
    reveal_strlit("Effetti di charme");
    reveal_strlit("Effetti di influenza mentale");
    reveal_strlit("Effetti di paura");
    reveal_strlit("Effetti di sonno");
    reveal_strlit("Elettricità");
    reveal_strlit("Elettricità (parziale)");
    reveal_strlit("Energia Negativa");
    reveal_strlit("Energia Positiva");
    reveal_strlit("Esaurimento");
    reveal_strlit("Esausto");
    reveal_strlit("Fatica");
    reveal_strlit("Fiancheggiamento");
    reveal_strlit("Frastornamento");
    reveal_strlit("Frastornato");
    reveal_strlit("Freddo");
    reveal_strlit("Freddo (sé stesso e chi lo cavalca)");
    reveal_strlit("Fuoco");
    reveal_strlit("Fuoco Infernale");
    reveal_strlit("Immunità al Freddo");
    reveal_strlit("Immunità alla Magia");
    reveal_strlit("Infermità");
    reveal_strlit("Infermo");
    reveal_strlit("Magia");
    reveal_strlit("Malattia");
    reveal_strlit("Malattie");
    reveal_strlit("Maledizioni");
    reveal_strlit("Nausea");
    reveal_strlit("Nauseato");
    reveal_strlit("Non Deformante");
    reveal_strlit("Paralisi");
    reveal_strlit("Paura");
    reveal_strlit("Pietrificazione");
    reveal_strlit("Sanguinamento");
    reveal_strlit("Sanguinamento (solo Punti Ferita)");
    reveal_strlit("Scosso");
    reveal_strlit("Sguardo");
    reveal_strlit("Sonno");
    reveal_strlit("Sonoro");
    reveal_strlit("Sordità");
    reveal_strlit("Spaventato");
    reveal_strlit("Stordimento");
    reveal_strlit("Veleni");
    reveal_strlit("Veleno");
    reveal_strlit("Veleno Ingerito");
    reveal_strlit("acido");
    reveal_strlit("attacchi con Sguardo");
    reveal_strlit("attacchi con lo Sguardo");
    reveal_strlit("attacchi con lo sguardo");
    reveal_strlit("charme");
    reveal_strlit("controllo mentale");
    reveal_strlit("contundente");
    reveal_strlit("da caduta e da schiacciamento");
    reveal_strlit("danni contundenti");
    reveal_strlit("danni contundenti e perforanti");
    reveal_strlit("danni da arma");
    reveal_strlit("danni da armi");
    reveal_strlit("danni da precisione");
    reveal_strlit("danni delle armi");
    reveal_strlit("danni di precisione");
    reveal_strlit("danni perforanti");
    reveal_strlit("danni taglienti");
    reveal_strlit("danni taglienti e perforanti");
    reveal_strlit("danno da arma");
    reveal_strlit("danno di precisione");
    reveal_strlit("di influenza mentale e basati sullo Sguardo");
    reveal_strlit("divinazione");
    reveal_strlit("effetti Barcollanti");
    reveal_strlit("effetti di Paura");
    reveal_strlit("effetti di Paura ed influenza mentale");
    reveal_strlit("effetti di Sonno");
    reveal_strlit("effetti di ammaliamento");
    reveal_strlit("effetti di charme");
    reveal_strlit("effetti di influenza mentale");
    reveal_strlit("effetti di influenza mentale e visivi");
    reveal_strlit("effetti di maledizione");
    reveal_strlit("effetti di maledizioni");
    reveal_strlit("effetti di paura");
    reveal_strlit("effetti di sonno");
    reveal_strlit("elettricità");
    reveal_strlit("energia negativa");
    reveal_strlit("ferite permanenti");
    reveal_strlit("freddo");
    reveal_strlit("fuoco");
    reveal_strlit("malattia");
    reveal_strlit("malattie");
    reveal_strlit("maledizioni");
    reveal_strlit("nausea");
    reveal_strlit("paralisi");
    reveal_strlit("paura");
    reveal_strlit("pietrificazione");
    reveal_strlit("possessione");
    reveal_strlit("ruggine");
    reveal_strlit("sanguinamento");
    reveal_strlit("sonno");
    reveal_strlit("sonoro");
    reveal_strlit("sordità");
    reveal_strlit("stordimento");
    reveal_strlit("veleni");
    reveal_strlit("veleno");
    assert("Abbagliamenti"@.len() == 13);
    assert("Abbagliamento"@.len() == 13);
    assert("Abbagliato"@.len() == 10);
    assert("Accecato"@.len() == 8);
    assert("Acido"@.len() == 5);
    assert("Affaticamento"@.len() == 13);
    assert("Affaticato"@.len() == 10);
    assert("Ammaliamento"@.len() == 12);
    assert("Armi Taglienti"@.len() == 14);
    assert("Armi contundenti"@.len() == 16);
    assert("Assorbimento del Fuoco"@.len() == 22);
    assert("Attacchi Furtivi"@.len() == 16);
    assert("Attacchi ai Fianchi"@.len() == 19);
    assert("Attacchi basati sull'olfatto"@.len() == 28);
    assert("Attacchi basati sulla vista"@.len() == 27);
    assert("Attacchi basati sulla vista o sguardo"@.len() == 37);
    assert("Attacchi con Sguardo"@.len() == 20);
    assert("Attacchi con lo sguardo"@.len() == 23);
    assert("Attacchi dipendenti dalla vista"@.len() == 31);
    assert("Barcollante"@.len() == 11);
    assert("Barcollare"@.len() == 10);
    assert("Cecità"@.len() == 6);
    assert("Charme"@.len() == 6);
    assert("Colpi Critici"@.len() == 13);
    assert("Colpi critici"@.len() == 13);
    assert("Condizione Affaticato"@.len() == 21);
    assert("Condizione Esausto"@.len() == 18);
    assert("Confusione"@.len() == 10);
    assert("Danni Non Letali"@.len() == 16);
    assert("Danni contundenti"@.len() == 17);
    assert("Danni da arma"@.len() == 13);
    assert("Danni da armi"@.len() == 13);
    assert("Danni dalle Armi"@.len() == 16);
    assert("Danni perforanti e taglienti"@.len() == 28);
    assert("Danno da Pressione"@.len() == 18);
    assert("Danno da arma"@.len() == 13);
    assert("Danno non letale"@.len() == 16);
    assert("Divinazione"@.len() == 11);
    assert("Effetti d'influenza mentale"@.len() == 27);
    assert("Effetti di Influenza Mentale"@.len() == 28);
    assert("Effetti di Paura"@.len() == 16);
    assert("Effetti di Sonno"@.len() == 16);
    assert("Effetti di charme"@.len() == 17);
    assert("Effetti di influenza mentale"@.len() == 28);
    assert("Effetti di paura"@.len() == 16);
    assert("Effetti di sonno"@.len() == 16);
    assert("Elettricità"@.len() == 11);
    assert("Elettricità (parziale)"@.len() == 22);
    assert("Energia Negativa"@.len() == 16);
    assert("Energia Positiva"@.len() == 16);
    assert("Esaurimento"@.len() == 11);
    assert("Esausto"@.len() == 7);
    assert("Fatica"@.len() == 6);
    assert("Fiancheggiamento"@.len() == 16);
    assert("Frastornamento"@.len() == 14);
    assert("Frastornato"@.len() == 11);
    assert("Freddo"@.len() == 6);
    assert("Freddo (sé stesso e chi lo cavalca)"@.len() == 35);
    assert("Fuoco"@.len() == 5);
    assert("Fuoco Infernale"@.len() == 15);
    assert("Immunità al Freddo"@.len() == 18);
    assert("Immunità alla Magia"@.len() == 19);
    assert("Infermità"@.len() == 9);
    assert("Infermo"@.len() == 7);
    assert("Magia"@.len() == 5);
    assert("Malattia"@.len() == 8);
    assert("Malattie"@.len() == 8);
    assert("Maledizioni"@.len() == 11);
    assert("Nausea"@.len() == 6);
    assert("Nauseato"@.len() == 8);
    assert("Non Deformante"@.len() == 14);
    assert("Paralisi"@.len() == 8);
    assert("Paura"@.len() == 5);
    assert("Pietrificazione"@.len() == 15);
    assert("Sanguinamento"@.len() == 13);
    assert("Sanguinamento (solo Punti Ferita)"@.len() == 33);
    assert("Scosso"@.len() == 6);
    assert("Sguardo"@.len() == 7);
    assert("Sonno"@.len() == 5);
    assert("Sonoro"@.len() == 6);
    assert("Sordità"@.len() == 7);
    assert("Spaventato"@.len() == 10);
    assert("Stordimento"@.len() == 11);
    assert("Veleni"@.len() == 6);
    assert("Veleno"@.len() == 6);
    assert("Veleno Ingerito"@.len() == 15);
    assert("acido"@.len() == 5);
    assert("attacchi con Sguardo"@.len() == 20);
    assert("attacchi con lo Sguardo"@.len() == 23);
    assert("attacchi con lo sguardo"@.len() == 23);
    assert("charme"@.len() == 6);
    assert("controllo mentale"@.len() == 17);
    assert("contundente"@.len() == 11);
    assert("da caduta e da schiacciamento"@.len() == 29);
    assert("danni contundenti"@.len() == 17);
    assert("danni contundenti e perforanti"@.len() == 30);
    assert("danni da arma"@.len() == 13);
    assert("danni da armi"@.len() == 13);
    assert("danni da precisione"@.len() == 19);
    assert("danni delle armi"@.len() == 16);
    assert("danni di precisione"@.len() == 19);
    assert("danni perforanti"@.len() == 16);
    assert("danni taglienti"@.len() == 15);
    assert("danni taglienti e perforanti"@.len() == 28);
    assert("danno da arma"@.len() == 13);
    assert("danno di precisione"@.len() == 19);
    assert("di influenza mentale e basati sullo Sguardo"@.len() == 43);
    assert("divinazione"@.len() == 11);
    assert("effetti Barcollanti"@.len() == 19);
    assert("effetti di Paura"@.len() == 16);
    assert("effetti di Paura ed influenza mentale"@.len() == 37);
    assert("effetti di Sonno"@.len() == 16);
    assert("effetti di ammaliamento"@.len() == 23);
    assert("effetti di charme"@.len() == 17);
    assert("effetti di influenza mentale"@.len() == 28);
    assert("effetti di influenza mentale e visivi"@.len() == 37);
    assert("effetti di maledizione"@.len() == 22);
    assert("effetti di maledizioni"@.len() == 22);
    assert("effetti di paura"@.len() == 16);
    assert("effetti di sonno"@.len() == 16);
    assert("elettricità"@.len() == 11);
    assert("energia negativa"@.len() == 16);
    assert("ferite permanenti"@.len() == 17);
    assert("freddo"@.len() == 6);
    assert("fuoco"@.len() == 5);
    assert("malattia"@.len() == 8);
    assert("malattie"@.len() == 8);
    assert("maledizioni"@.len() == 11);
    assert("nausea"@.len() == 6);
    assert("paralisi"@.len() == 8);
    assert("paura"@.len() == 5);
    assert("pietrificazione"@.len() == 15);
    assert("possessione"@.len() == 11);
    assert("ruggine"@.len() == 7);
    assert("sanguinamento"@.len() == 13);
    assert("sonno"@.len() == 5);
    assert("sonoro"@.len() == 6);
    assert("sordità"@.len() == 7);
    assert("stordimento"@.len() == 11);
    assert("veleni"@.len() == 6);
    assert("veleno"@.len() == 6);
    assert("Effetti di charme"@[0] != "Danni contundenti"@[0]);
    assert("Effetti di charme"@ != "Danni contundenti"@);
    assert("Effetti di charme"@[0] != "danni contundenti"@[0]);
    assert("Effetti di charme"@ != "danni contundenti"@);
    assert("Effetti di charme"@[0] != "ferite permanenti"@[0]);
    assert("Effetti di charme"@ != "ferite permanenti"@);
    assert("Effetti di charme"@[0] != "controllo mentale"@[0]);
    assert("Effetti di charme"@ != "controllo mentale"@);
    assert("effetti di charme"@[0] != "Danni contundenti"@[0]);
    assert("effetti di charme"@ != "Danni contundenti"@);
    assert("effetti di charme"@[0] != "danni contundenti"@[0]);
    assert("effetti di charme"@ != "danni contundenti"@);
    assert("effetti di charme"@[0] != "ferite permanenti"@[0]);
    assert("effetti di charme"@ != "ferite permanenti"@);
    assert("effetti di charme"@[0] != "controllo mentale"@[0]);
    assert("effetti di charme"@ != "controllo mentale"@);
    assert("effetti di charme"@[0] != "Effetti di charme"@[0]);
    assert("effetti di charme"@ != "Effetti di charme"@);
    assert("Charme"@[0] != "Freddo"@[0]);
    assert("Charme"@ != "Freddo"@);
    assert("Charme"@[0] != "freddo"@[0]);
    assert("Charme"@ != "freddo"@);
    assert("Charme"@[0] != "Sonoro"@[0]);
    assert("Charme"@ != "Sonoro"@);
    assert("Charme"@[0] != "sonoro"@[0]);
    assert("Charme"@ != "sonoro"@);
    assert("Charme"@[0] != "Fatica"@[0]);
    assert("Charme"@ != "Fatica"@);
    assert("Charme"@[0] != "Nausea"@[0]);
    assert("Charme"@ != "Nausea"@);
    assert("Charme"@[0] != "nausea"@[0]);
    assert("Charme"@ != "nausea"@);
    assert("Charme"@[1] != "Cecità"@[1]);
    assert("Charme"@ != "Cecità"@);
    assert("Charme"@[0] != "Scosso"@[0]);
    assert("Charme"@ != "Scosso"@);
    assert("Charme"@[0] != "Veleni"@[0]);
    assert("Charme"@ != "Veleni"@);
    assert("Charme"@[0] != "Veleno"@[0]);
    assert("Charme"@ != "Veleno"@);
    assert("Charme"@[0] != "veleno"@[0]);
    assert("Charme"@ != "veleno"@);
    assert("Charme"@[0] != "veleni"@[0]);
    assert("Charme"@ != "veleni"@);
    assert("charme"@[0] != "Freddo"@[0]);
    assert("charme"@ != "Freddo"@);
    assert("charme"@[0] != "freddo"@[0]);
    assert("charme"@ != "freddo"@);
    assert("charme"@[0] != "Sonoro"@[0]);
    assert("charme"@ != "Sonoro"@);
    assert("charme"@[0] != "sonoro"@[0]);
    assert("charme"@ != "sonoro"@);
    assert("charme"@[0] != "Fatica"@[0]);
    assert("charme"@ != "Fatica"@);
    assert("charme"@[0] != "Nausea"@[0]);
    assert("charme"@ != "Nausea"@);
    assert("charme"@[0] != "nausea"@[0]);
    assert("charme"@ != "nausea"@);
    assert("charme"@[0] != "Cecità"@[0]);
    assert("charme"@ != "Cecità"@);
    assert("charme"@[0] != "Scosso"@[0]);
    assert("charme"@ != "Scosso"@);
    assert("charme"@[0] != "Veleni"@[0]);
    assert("charme"@ != "Veleni"@);
    assert("charme"@[0] != "Veleno"@[0]);
    assert("charme"@ != "Veleno"@);
    assert("charme"@[0] != "veleno"@[0]);
    assert("charme"@ != "veleno"@);
    assert("charme"@[0] != "veleni"@[0]);
    assert("charme"@ != "veleni"@);
    assert("charme"@[0] != "Charme"@[0]);
    assert("charme"@ != "Charme"@);
    assert("effetti di ammaliamento"@[0] != "Attacchi con lo sguardo"@[0]);
    assert("effetti di ammaliamento"@ != "Attacchi con lo sguardo"@);
    assert("effetti di ammaliamento"@[0] != "attacchi con lo Sguardo"@[0]);
    assert("effetti di ammaliamento"@ != "attacchi con lo Sguardo"@);
    assert("effetti di ammaliamento"@[0] != "attacchi con lo sguardo"@[0]);
    assert("effetti di ammaliamento"@ != "attacchi con lo sguardo"@);
}

proof fn lemma_read_immunity_compulsioneffect(s: Seq<char>)
    requires
        immunity_named(Immunity_Type::Immunity_CompulsionEffect, s),
    ensures
        spec_single_immunity(s) == Some(Immunity_Type::Immunity_CompulsionEffect),
{
    reveal_strlit("Abbagliamenti");
    reveal_strlit("Abbagliamento");
    reveal_strlit("Abbagliato");
    reveal_strlit("Accecato");
    reveal_strlit("Acido");
    reveal_strlit("Affaticamento");
    reveal_strlit("Affaticato");
    reveal_strlit("Ammaliamento");
    reveal_strlit("Armi Taglienti");
    reveal_strlit("Armi contundenti");
    reveal_strlit("Assorbimento del Fuoco");
    reveal_strlit("Attacchi Furtivi");
    reveal_strlit("Attacchi ai Fianchi");
    reveal_strlit("Attacchi basati sull'olfatto");
    reveal_strlit("Attacchi basati sulla vista");
    reveal_strlit("Attacchi basati sulla vista o sguardo");
    reveal_strlit("Attacchi con Sguardo");
    reveal_strlit("Attacchi con lo sguardo");
    reveal_strlit("Attacchi dipendenti dalla vista");
    reveal_strlit("Barcollante");
    reveal_strlit("Barcollare");
    reveal_strlit("Cecità");
    reveal_strlit("Charme");
    reveal_strlit("Colpi Critici");
    reveal_strlit("Colpi critici");
    reveal_strlit("Condizione Affaticato");
    reveal_strlit("Condizione Esausto");
    reveal_strlit("Confusione");
    reveal_strlit("Danni Non Letali");
    reveal_strlit("Danni contundenti");
    reveal_strlit("Danni da arma");
    reveal_strlit("Danni da armi");
    reveal_strlit("Danni dalle Armi");
    reveal_strlit("Danni perforanti e taglienti");
    reveal_strlit("Danno da Pressione");
    reveal_strlit("Danno da arma");
    reveal_strlit("Danno non letale");
    reveal_strlit("Divinazione");
    reveal_strlit("Effetti d'influenza mentale");
    reveal_strlit("Effetti di Influenza Mentale");
    reveal_strlit("Effetti di Paura");
    reveal_strlit("Effetti di Sonno");
    reveal_strlit("Effetti di charme");
    reveal_strlit("Effetti di influenza mentale");
    reveal_strlit("Effetti di paura");
    reveal_strlit("Effetti di sonno");
    reveal_strlit("Elettricità");
    reveal_strlit("Elettricità (parziale)");
    reveal_strlit("Energia Negativa");
    reveal_strlit("Energia Positiva");
    reveal_strlit("Esaurimento");
    reveal_strlit("Esausto");
    reveal_strlit("Fatica");
    reveal_strlit("Fiancheggiamento");
    reveal_strlit("Frastornamento");
    reveal_strlit("Frastornato");
    reveal_strlit("Freddo");
    reveal_strlit("Freddo (sé stesso e chi lo cavalca)");
    reveal_strlit("Fuoco");
    reveal_strlit("Fuoco Infernale");
    reveal_strlit("Immunità al Freddo");
    reveal_strlit("Immunità alla Magia");
    reveal_strlit("Infermità");
    reveal_strlit("Infermo");
    reveal_strlit("Magia");
    reveal_strlit("Malattia");
    reveal_strlit("Malattie");
    reveal_strlit("Maledizioni");
    reveal_strlit("Nausea");
    reveal_strlit("Nauseato");
    reveal_strlit("Non Deformante");
    reveal_strlit("Paralisi");
    reveal_strlit("Paura");
    reveal_strlit("Pietrificazione");
    reveal_strlit("Sanguinamento");
    reveal_strlit("Sanguinamento (solo Punti Ferita)");
    reveal_strlit("Scosso");
    reveal_strlit("Sguardo");
    reveal_strlit("Sonno");
    reveal_strlit("Sonoro");
    reveal_strlit("Sordità");
    reveal_strlit("Spaventato");
    reveal_strlit("Stordimento");
    reveal_strlit("Veleni");
    reveal_strlit("Veleno");
    reveal_strlit("Veleno Ingerito");
    reveal_strlit("acido");
    reveal_strlit("attacchi con Sguardo");
    reveal_strlit("attacchi con lo Sguardo");
    reveal_strlit("attacchi con lo sguardo");
    reveal_strlit("charme");
    reveal_strlit("compulsione");
    reveal_strlit("controllo mentale");
    reveal_strlit("contundente");
    reveal_strlit("da caduta e da schiacciamento");
    reveal_strlit("danni contundenti");
    reveal_strlit("danni contundenti e perforanti");
    reveal_strlit("danni da arma");
    reveal_strlit("danni da armi");
    reveal_strlit("danni da precisione");
    reveal_strlit("danni delle armi");
    reveal_strlit("danni di precisione");
    reveal_strlit("danni perforanti");
    reveal_strlit("danni taglienti");
    reveal_strlit("danni taglienti e perforanti");
    reveal_strlit("danno da arma");
    reveal_strlit("danno di precisione");
    reveal_strlit("di influenza mentale e basati sullo Sguardo");
    reveal_strlit("divinazione");
    reveal_strlit("effetti Barcollanti");
    reveal_strlit("effetti di Paura");
    reveal_strlit("effetti di Paura ed influenza mentale");
    reveal_strlit("effetti di Sonno");
    reveal_strlit("effetti di ammaliamento");
    reveal_strlit("effetti di charme");
    reveal_strlit("effetti di compulsione");
    reveal_strlit("effetti di influenza mentale");
    reveal_strlit("effetti di influenza mentale e visivi");
    reveal_strlit("effetti di maledizione");
    reveal_strlit("effetti di maledizioni");
    reveal_strlit("effetti di paura");
    reveal_strlit("effetti di sonno");
    reveal_strlit("elettricità");
    reveal_strlit("energia negativa");
    reveal_strlit("ferite permanenti");
    reveal_strlit("freddo");
    reveal_strlit("fuoco");
    reveal_strlit("malattia");
    reveal_strlit("malattie");
    reveal_strlit("maledizioni");
    reveal_strlit("nausea");
    reveal_strlit("paralisi");
    reveal_strlit("paura");
    reveal_strlit("pietrificazione");
    reveal_strlit("possessione");
    reveal_strlit("ruggine");
    reveal_strlit("sanguinamento");
    reveal_strlit("sonno");
    reveal_strlit("sonoro");
    reveal_strlit("sordità");
    reveal_strlit("stordimento");
    reveal_strlit("veleni");
    reveal_strlit("veleno");
    assert("Abbagliamenti"@.len() == 13);
    assert("Abbagliamento"@.len() == 13);
    assert("Abbagliato"@.len() == 10);
    assert("Accecato"@.len() == 8);
    assert("Acido"@.len() == 5);
    assert("Affaticamento"@.len() == 13);
    assert("Affaticato"@.len() == 10);
    assert("Ammaliamento"@.len() == 12);
    assert("Armi Taglienti"@.len() == 14);
    assert("Armi contundenti"@.len() == 16);
    assert("Assorbimento del Fuoco"@.len() == 22);
    assert("Attacchi Furtivi"@.len() == 16);
    assert("Attacchi ai Fianchi"@.len() == 19);
    assert("Attacchi basati sull'olfatto"@.len() == 28);
    assert("Attacchi basati sulla vista"@.len() == 27);
    assert("Attacchi basati sulla vista o sguardo"@.len() == 37);
    assert("Attacchi con Sguardo"@.len() == 20);
    assert("Attacchi con lo sguardo"@.len() == 23);
    assert("Attacchi dipendenti dalla vista"@.len() == 31);
    assert("Barcollante"@.len() == 11);
    assert("Barcollare"@.len() == 10);
    assert("Cecità"@.len() == 6);
    assert("Charme"@.len() == 6);
    assert("Colpi Critici"@.len() == 13);
    assert("Colpi critici"@.len() == 13);
    assert("Condizione Affaticato"@.len() == 21);
    assert("Condizione Esausto"@.len() == 18);
    assert("Confusione"@.len() == 10);
    assert("Danni Non Letali"@.len() == 16);
    assert("Danni contundenti"@.len() == 17);
    assert("Danni da arma"@.len() == 13);
    assert("Danni da armi"@.len() == 13);
    assert("Danni dalle Armi"@.len() == 16);
    assert("Danni perforanti e taglienti"@.len() == 28);
    assert("Danno da Pressione"@.len() == 18);
    assert("Danno da arma"@.len() == 13);
    assert("Danno non letale"@.len() == 16);
    assert("Divinazione"@.len() == 11);
    assert("Effetti d'influenza mentale"@.len() == 27);
    assert("Effetti di Influenza Mentale"@.len() == 28);
    assert("Effetti di Paura"@.len() == 16);
    assert("Effetti di Sonno"@.len() == 16);
    assert("Effetti di charme"@.len() == 17);
    assert("Effetti di influenza mentale"@.len() == 28);
    assert("Effetti di paura"@.len() == 16);
    assert("Effetti di sonno"@.len() == 16);
    assert("Elettricità"@.len() == 11);
    assert("Elettricità (parziale)"@.len() == 22);
    assert("Energia Negativa"@.len() == 16);
    assert("Energia Positiva"@.len() == 16);
    assert("Esaurimento"@.len() == 11);
    assert("Esausto"@.len() == 7);
    assert("Fatica"@.len() == 6);
    assert("Fiancheggiamento"@.len() == 16);
    assert("Frastornamento"@.len() == 14);
    assert("Frastornato"@.len() == 11);
    assert("Freddo"@.len() == 6);
    assert("Freddo (sé stesso e chi lo cavalca)"@.len() == 35);
    assert("Fuoco"@.len() == 5);
    assert("Fuoco Infernale"@.len() == 15);
    assert("Immunità al Freddo"@.len() == 18);
    assert("Immunità alla Magia"@.len() == 19);
    assert("Infermità"@.len() == 9);
    assert("Infermo"@.len() == 7);
    assert("Magia"@.len() == 5);
    assert("Malattia"@.len() == 8);
    assert("Malattie"@.len() == 8);
    assert("Maledizioni"@.len() == 11);
    assert("Nausea"@.len() == 6);
    assert("Nauseato"@.len() == 8);
    assert("Non Deformante"@.len() == 14);
    assert("Paralisi"@.len() == 8);
    assert("Paura"@.len() == 5);
    assert("Pietrificazione"@.len() == 15);
    assert("Sanguinamento"@.len() == 13);
    assert("Sanguinamento (solo Punti Ferita)"@.len() == 33);
    assert("Scosso"@.len() == 6);
    assert("Sguardo"@.len() == 7);
    assert("Sonno"@.len() == 5);
    assert("Sonoro"@.len() == 6);
    assert("Sordità"@.len() == 7);
    assert("Spaventato"@.len() == 10);
    assert("Stordimento"@.len() == 11);
    assert("Veleni"@.len() == 6);
    assert("Veleno"@.len() == 6);
    assert("Veleno Ingerito"@.len() == 15);
    assert("acido"@.len() == 5);
    assert("attacchi con Sguardo"@.len() == 20);
    assert("attacchi con lo Sguardo"@.len() == 23);
    assert("attacchi con lo sguardo"@.len() == 23);
    assert("charme"@.len() == 6);
    assert("compulsione"@.len() == 11);
    assert("controllo mentale"@.len() == 17);
    assert("contundente"@.len() == 11);
    assert("da caduta e da schiacciamento"@.len() == 29);
    assert("danni contundenti"@.len() == 17);
    assert("danni contundenti e perforanti"@.len() == 30);
    assert("danni da arma"@.len() == 13);
    assert("danni da armi"@.len() == 13);
    assert("danni da precisione"@.len() == 19);
    assert("danni delle armi"@.len() == 16);
    assert("danni di precisione"@.len() == 19);
    assert("danni perforanti"@.len() == 16);
    assert("danni taglienti"@.len() == 15);
    assert("danni taglienti e perforanti"@.len() == 28);
    assert("danno da arma"@.len() == 13);
    assert("danno di precisione"@.len() == 19);
    assert("di influenza mentale e basati sullo Sguardo"@.len() == 43);
    assert("divinazione"@.len() == 11);
    assert("effetti Barcollanti"@.len() == 19);
    assert("effetti di Paura"@.len() == 16);
    assert("effetti di Paura ed influenza mentale"@.len() == 37);
    assert("effetti di Sonno"@.len() == 16);
    assert("effetti di ammaliamento"@.len() == 23);
    assert("effetti di charme"@.len() == 17);
    assert("effetti di compulsione"@.len() == 22);
    assert("effetti di influenza mentale"@.len() == 28);
    assert("effetti di influenza mentale e visivi"@.len() == 37);
    assert("effetti di maledizione"@.len() == 22);
    assert("effetti di maledizioni"@.len() == 22);
    assert("effetti di paura"@.len() == 16);
    assert("effetti di sonno"@.len() == 16);
    assert("elettricità"@.len() == 11);
    assert("energia negativa"@.len() == 16);
    assert("ferite permanenti"@.len() == 17);
    assert("freddo"@.len() == 6);
    assert("fuoco"@.len() == 5);
    assert("malattia"@.len() == 8);
    assert("malattie"@.len() == 8);
    assert("maledizioni"@.len() == 11);
    assert("nausea"@.len() == 6);
    assert("paralisi"@.len() == 8);
    assert("paura"@.len() == 5);
    assert("pietrificazione"@.len() == 15);
    assert("possessione"@.len() == 11);
    assert("ruggine"@.len() == 7);
    assert("sanguinamento"@.len() == 13);
    assert("sonno"@.len() == 5);
    assert("sonoro"@.len() == 6);
    assert("sordità"@.len() == 7);
    assert("stordimento"@.len() == 11);
    assert("veleni"@.len() == 6);
    assert("veleno"@.len() == 6);
    assert("effetti di compulsione"@[0] != "Assorbimento del Fuoco"@[0]);
    assert("effetti di compulsione"@ != "Assorbimento del Fuoco"@);
    assert("effetti di compulsione"@[0] != "Elettricità (parziale)"@[0]);
    assert("effetti di compulsione"@ != "Elettricità (parziale)"@);
    assert("effetti di compulsione"@[11] != "effetti di maledizione"@[11]);
    assert("effetti di compulsione"@ != "effetti di maledizione"@);
    assert("effetti di compulsione"@[11] != "effetti di maledizioni"@[11]);
    assert("effetti di compulsione"@ != "effetti di maledizioni"@);
    assert("compulsione"@[0] != "Elettricità"@[0]);
    assert("compulsione"@ != "Elettricità"@);
    assert("compulsione"@[0] != "elettricità"@[0]);
    assert("compulsione"@ != "elettricità"@);
    assert("compulsione"@[0] != "Esaurimento"@[0]);
    assert("compulsione"@ != "Esaurimento"@);
    assert("compulsione"@[0] != "Stordimento"@[0]);
    assert("compulsione"@ != "Stordimento"@);
    assert("compulsione"@[0] != "stordimento"@[0]);
    assert("compulsione"@ != "stordimento"@);
    assert("compulsione"@[0] != "Frastornato"@[0]);
    assert("compulsione"@ != "Frastornato"@);
    assert("compulsione"@[0] != "Barcollante"@[0]);
    assert("compulsione"@ != "Barcollante"@);
    assert("compulsione"@[2] != "contundente"@[2]);
    assert("compulsione"@ != "contundente"@);
    assert("compulsione"@[0] != "Maledizioni"@[0]);
    assert("compulsione"@ != "Maledizioni"@);
    assert("compulsione"@[0] != "maledizioni"@[0]);
    assert("compulsione"@ != "maledizioni"@);
    assert("compulsione"@[0] != "possessione"@[0]);
    assert("compulsione"@ != "possessione"@);
    assert("compulsione"@[0] != "Divinazione"@[0]);
    assert("compulsione"@ != "Divinazione"@);
    assert("compulsione"@[0] != "divinazione"@[0]);
    assert("compulsione"@ != "divinazione"@);
}

proof fn lemma_read_immunity_charmandcompulsioneffect(s: Seq<char>)
    requires
        immunity_named(Immunity_Type::Immunity_CharmAndCompulsionEffect, s),
    ensures
        spec_single_immunity(s) == Some(Immunity_Type::Immunity_CharmAndCompulsionEffect),
{
    reveal_strlit("Abbagliamenti");
    reveal_strlit("Abbagliamento");
    reveal_strlit("Abbagliato");
    reveal_strlit("Accecato");
    reveal_strlit("Acido");
    reveal_strlit("Affaticamento");
    reveal_strlit("Affaticato");
    reveal_strlit("Ammaliamento");
    reveal_strlit("Armi Taglienti");
    reveal_strlit("Armi contundenti");
    reveal_strlit("Assorbimento del Fuoco");
    reveal_strlit("Attacchi Furtivi");
    reveal_strlit("Attacchi ai Fianchi");
    reveal_strlit("Attacchi basati sull'olfatto");
    reveal_strlit("Attacchi basati sulla vista");
    reveal_strlit("Attacchi basati sulla vista o sguardo");
    reveal_strlit("Attacchi con Sguardo");
    reveal_strlit("Attacchi con lo sguardo");
    reveal_strlit("Attacchi dipendenti dalla vista");
    reveal_strlit("Barcollante");
    reveal_strlit("Barcollare");
    reveal_strlit("Cecità");
    reveal_strlit("Charme");
    reveal_strlit("Colpi Critici");
    reveal_strlit("Colpi critici");
    reveal_strlit("Condizione Affaticato");
    reveal_strlit("Condizione Esausto");
    reveal_strlit("Confusione");
    reveal_strlit("Danni Non Letali");
    reveal_strlit("Danni contundenti");
    reveal_strlit("Danni da arma");
    reveal_strlit("Danni da armi");
    reveal_strlit("Danni dalle Armi");
    reveal_strlit("Danni perforanti e taglienti");
    reveal_strlit("Danno da Pressione");
    reveal_strlit("Danno da arma");
    reveal_strlit("Danno non letale");
    reveal_strlit("Divinazione");
    reveal_strlit("Effetti d'influenza mentale");
    reveal_strlit("Effetti di Charme e Compulsione");
    reveal_strlit("Effetti di Influenza Mentale");
    reveal_strlit("Effetti di Paura");
    reveal_strlit("Effetti di Sonno");
    reveal_strlit("Effetti di charme");
    reveal_strlit("Effetti di charme e compulsioni");
    reveal_strlit("Effetti di influenza mentale");
    reveal_strlit("Effetti di paura");
    reveal_strlit("Effetti di sonno");
    reveal_strlit("Elettricità");
    reveal_strlit("Elettricità (parziale)");
    reveal_strlit("Energia Negativa");
    reveal_strlit("Energia Positiva");
    reveal_strlit("Esaurimento");
    reveal_strlit("Esausto");
    reveal_strlit("Fatica");
    reveal_strlit("Fiancheggiamento");
    reveal_strlit("Frastornamento");
    reveal_strlit("Frastornato");
    reveal_strlit("Freddo");
    reveal_strlit("Freddo (sé stesso e chi lo cavalca)");
    reveal_strlit("Fuoco");
    reveal_strlit("Fuoco Infernale");
    reveal_strlit("Immunità al Freddo");
    reveal_strlit("Immunità alla Magia");
    reveal_strlit("Infermità");
    reveal_strlit("Infermo");
    reveal_strlit("Magia");
    reveal_strlit("Malattia");
    reveal_strlit("Malattie");
    reveal_strlit("Maledizioni");
    reveal_strlit("Nausea");
    reveal_strlit("Nauseato");
    reveal_strlit("Non Deformante");
    reveal_strlit("Paralisi");
    reveal_strlit("Paura");
    reveal_strlit("Pietrificazione");
    reveal_strlit("Sanguinamento");
    reveal_strlit("Sanguinamento (solo Punti Ferita)");
    reveal_strlit("Scosso");
    reveal_strlit("Sguardo");
    reveal_strlit("Sonno");
    reveal_strlit("Sonoro");
    reveal_strlit("Sordità");
    reveal_strlit("Spaventato");
    reveal_strlit("Stordimento");
    reveal_strlit("Veleni");
    reveal_strlit("Veleno");
    reveal_strlit("Veleno Ingerito");
    reveal_strlit("acido");
    reveal_strlit("attacchi con Sguardo");
    reveal_strlit("attacchi con lo Sguardo");
    reveal_strlit("attacchi con lo sguardo");
    reveal_strlit("charme");
    reveal_strlit("compulsione");
    reveal_strlit("controllo mentale");
    reveal_strlit("contundente");
    reveal_strlit("da caduta e da schiacciamento");
    reveal_strlit("danni contundenti");
    reveal_strlit("danni contundenti e perforanti");
    reveal_strlit("danni da arma");
    reveal_strlit("danni da armi");
    reveal_strlit("danni da precisione");
    reveal_strlit("danni delle armi");
    reveal_strlit("danni di precisione");
    reveal_strlit("danni perforanti");
    reveal_strlit("danni taglienti");
    reveal_strlit("danni taglienti e perforanti");
    reveal_strlit("danno da arma");
    reveal_strlit("danno di precisione");
    reveal_strlit("di influenza mentale e basati sullo Sguardo");
    reveal_strlit("divinazione");
    reveal_strlit("effetti Barcollanti");
    reveal_strlit("effetti di Charme e Compulsione");
    reveal_strlit("effetti di Paura");
    reveal_strlit("effetti di Paura ed influenza mentale");
    reveal_strlit("effetti di Sonno");
    reveal_strlit("effetti di ammaliamento");
    reveal_strlit("effetti di charme");
    reveal_strlit("effetti di charme e compulsione");
    reveal_strlit("effetti di charme e compulsioni");
    reveal_strlit("effetti di compulsione");
    reveal_strlit("effetti di influenza mentale");
    reveal_strlit("effetti di influenza mentale e visivi");
    reveal_strlit("effetti di maledizione");
    reveal_strlit("effetti di maledizioni");
    reveal_strlit("effetti di paura");
    reveal_strlit("effetti di sonno");
    reveal_strlit("elettricità");
    reveal_strlit("energia negativa");
    reveal_strlit("ferite permanenti");
    reveal_strlit("freddo");
    reveal_strlit("fuoco");
    reveal_strlit("malattia");
    reveal_strlit("malattie");
    reveal_strlit("maledizioni");
    reveal_strlit("nausea");
    reveal_strlit("paralisi");
    reveal_strlit("paura");
    reveal_strlit("pietrificazione");
    reveal_strlit("possessione");
    reveal_strlit("ruggine");
    reveal_strlit("sanguinamento");
    reveal_strlit("sonno");
    reveal_strlit("sonoro");
    reveal_strlit("sordità");
    reveal_strlit("stordimento");
    reveal_strlit("veleni");
    reveal_strlit("veleno");
    assert("Abbagliamenti"@.len() == 13);
    assert("Abbagliamento"@.len() == 13);
    assert("Abbagliato"@.len() == 10);
    assert("Accecato"@.len() == 8);
    assert("Acido"@.len() == 5);
    assert("Affaticamento"@.len() == 13);
    assert("Affaticato"@.len() == 10);
    assert("Ammaliamento"@.len() == 12);
    assert("Armi Taglienti"@.len() == 14);
    assert("Armi contundenti"@.len() == 16);
    assert("Assorbimento del Fuoco"@.len() == 22);
    assert("Attacchi Furtivi"@.len() == 16);
    assert("Attacchi ai Fianchi"@.len() == 19);
    assert("Attacchi basati sull'olfatto"@.len() == 28);
    assert("Attacchi basati sulla vista"@.len() == 27);
    assert("Attacchi basati sulla vista o sguardo"@.len() == 37);
    assert("Attacchi con Sguardo"@.len() == 20);
    assert("Attacchi con lo sguardo"@.len() == 23);
    assert("Attacchi dipendenti dalla vista"@.len() == 31);
    assert("Barcollante"@.len() == 11);
    assert("Barcollare"@.len() == 10);
    assert("Cecità"@.len() == 6);
    assert("Charme"@.len() == 6);
    assert("Colpi Critici"@.len() == 13);
    assert("Colpi critici"@.len() == 13);
    assert("Condizione Affaticato"@.len() == 21);
    assert("Condizione Esausto"@.len() == 18);
    assert("Confusione"@.len() == 10);
    assert("Danni Non Letali"@.len() == 16);
    assert("Danni contundenti"@.len() == 17);
    assert("Danni da arma"@.len() == 13);
    assert("Danni da armi"@.len() == 13);
    assert("Danni dalle Armi"@.len() == 16);
    assert("Danni perforanti e taglienti"@.len() == 28);
    assert("Danno da Pressione"@.len() == 18);
    assert("Danno da arma"@.len() == 13);
    assert("Danno non letale"@.len() == 16);
    assert("Divinazione"@.len() == 11);
    assert("Effetti d'influenza mentale"@.len() == 27);
    assert("Effetti di Charme e Compulsione"@.len() == 31);
    assert("Effetti di Influenza Mentale"@.len() == 28);
    assert("Effetti di Paura"@.len() == 16);
    assert("Effetti di Sonno"@.len() == 16);
    assert("Effetti di charme"@.len() == 17);
    assert("Effetti di charme e compulsioni"@.len() == 31);
    assert("Effetti di influenza mentale"@.len() == 28);
    assert("Effetti di paura"@.len() == 16);
    assert("Effetti di sonno"@.len() == 16);
    assert("Elettricità"@.len() == 11);
    assert("Elettricità (parziale)"@.len() == 22);
    assert("Energia Negativa"@.len() == 16);
    assert("Energia Positiva"@.len() == 16);
    assert("Esaurimento"@.len() == 11);
    assert("Esausto"@.len() == 7);
    assert("Fatica"@.len() == 6);
    assert("Fiancheggiamento"@.len() == 16);
    assert("Frastornamento"@.len() == 14);
    assert("Frastornato"@.len() == 11);
    assert("Freddo"@.len() == 6);
    assert("Freddo (sé stesso e chi lo cavalca)"@.len() == 35);
    assert("Fuoco"@.len() == 5);
    assert("Fuoco Infernale"@.len() == 15);
    assert("Immunità al Freddo"@.len() == 18);
    assert("Immunità alla Magia"@.len() == 19);
    assert("Infermità"@.len() == 9);
    assert("Infermo"@.len() == 7);
    assert("Magia"@.len() == 5);
    assert("Malattia"@.len() == 8);
    assert("Malattie"@.len() == 8);
    assert("Maledizioni"@.len() == 11);
    assert("Nausea"@.len() == 6);
    assert("Nauseato"@.len() == 8);
    assert("Non Deformante"@.len() == 14);
    assert("Paralisi"@.len() == 8);
    assert("Paura"@.len() == 5);
    assert("Pietrificazione"@.len() == 15);
    assert("Sanguinamento"@.len() == 13);
    assert("Sanguinamento (solo Punti Ferita)"@.len() == 33);
    assert("Scosso"@.len() == 6);
    assert("Sguardo"@.len() == 7);
    assert("Sonno"@.len() == 5);
    assert("Sonoro"@.len() == 6);
    assert("Sordità"@.len() == 7);
    assert("Spaventato"@.len() == 10);
    assert("Stordimento"@.len() == 11);
    assert("Veleni"@.len() == 6);
    assert("Veleno"@.len() == 6);
    assert("Veleno Ingerito"@.len() == 15);
    assert("acido"@.len() == 5);
    assert("attacchi con Sguardo"@.len() == 20);
    assert("attacchi con lo Sguardo"@.len() == 23);
    assert("attacchi con lo sguardo"@.len() == 23);
    assert("charme"@.len() == 6);
    assert("compulsione"@.len() == 11);
    assert("controllo mentale"@.len() == 17);
    assert("contundente"@.len() == 11);
    assert("da caduta e da schiacciamento"@.len() == 29);
    assert("danni contundenti"@.len() == 17);
    assert("danni contundenti e perforanti"@.len() == 30);
    assert("danni da arma"@.len() == 13);
    assert("danni da armi"@.len() == 13);
    assert("danni da precisione"@.len() == 19);
    assert("danni delle armi"@.len() == 16);
    assert("danni di precisione"@.len() == 19);
    assert("danni perforanti"@.len() == 16);
    assert("danni taglienti"@.len() == 15);
    assert("danni taglienti e perforanti"@.len() == 28);
    assert("danno da arma"@.len() == 13);
    assert("danno di precisione"@.len() == 19);
    assert("di influenza mentale e basati sullo Sguardo"@.len() == 43);
    assert("divinazione"@.len() == 11);
    assert("effetti Barcollanti"@.len() == 19);
    assert("effetti di Charme e Compulsione"@.len() == 31);
    assert("effetti di Paura"@.len() == 16);
    assert("effetti di Paura ed influenza mentale"@.len() == 37);
    assert("effetti di Sonno"@.len() == 16);
    assert("effetti di ammaliamento"@.len() == 23);
    assert("effetti di charme"@.len() == 17);
    assert("effetti di charme e compulsione"@.len() == 31);
    assert("effetti di charme e compulsioni"@.len() == 31);
    assert("effetti di compulsione"@.len() == 22);
    assert("effetti di influenza mentale"@.len() == 28);
    assert("effetti di influenza mentale e visivi"@.len() == 37);
    assert("effetti di maledizione"@.len() == 22);
    assert("effetti di maledizioni"@.len() == 22);
    assert("effetti di paura"@.len() == 16);
    assert("effetti di sonno"@.len() == 16);
    assert("elettricità"@.len() == 11);
    assert("energia negativa"@.len() == 16);
    assert("ferite permanenti"@.len() == 17);
    assert("freddo"@.len() == 6);
    assert("fuoco"@.len() == 5);
    assert("malattia"@.len() == 8);
    assert("malattie"@.len() == 8);
    assert("maledizioni"@.len() == 11);
    assert("nausea"@.len() == 6);
    assert("paralisi"@.len() == 8);
    assert("paura"@.len() == 5);
    assert("pietrificazione"@.len() == 15);
    assert("possessione"@.len() == 11);
    assert("ruggine"@.len() == 7);
    assert("sanguinamento"@.len() == 13);
    assert("sonno"@.len() == 5);
    assert("sonoro"@.len() == 6);
    assert("sordità"@.len() == 7);
    assert("stordimento"@.len() == 11);
    assert("veleni"@.len() == 6);
    assert("veleno"@.len() == 6);
    assert("effetti di charme e compulsioni"@[0] != "Attacchi dipendenti dalla vista"@[0]);
    assert("effetti di charme e compulsioni"@ != "Attacchi dipendenti dalla vista"@);
    assert("Effetti di charme e compulsioni"@[0] != "Attacchi dipendenti dalla vista"@[0]);
    assert("Effetti di charme e compulsioni"@ != "Attacchi dipendenti dalla vista"@);
    assert("Effetti di charme e compulsioni"@[0] != "effetti di charme e compulsioni"@[0]);
    assert("Effetti di charme e compulsioni"@ != "effetti di charme e compulsioni"@);
    assert("Effetti di Charme e Compulsione"@[0] != "Attacchi dipendenti dalla vista"@[0]);
    assert("Effetti di Charme e Compulsione"@ != "Attacchi dipendenti dalla vista"@);
    assert("Effetti di Charme e Compulsione"@[0] != "effetti di charme e compulsioni"@[0]);
    assert("Effetti di Charme e Compulsione"@ != "effetti di charme e compulsioni"@);
    assert("Effetti di Charme e Compulsione"@[11] != "Effetti di charme e compulsioni"@[11]);
    assert("Effetti di Charme e Compulsione"@ != "Effetti di charme e compulsioni"@);
    assert("effetti di Charme e Compulsione"@[0] != "Attacchi dipendenti dalla vista"@[0]);
    assert("effetti di Charme e Compulsione"@ != "Attacchi dipendenti dalla vista"@);
    assert("effetti di Charme e Compulsione"@[11] != "effetti di charme e compulsioni"@[11]);
    assert("effetti di Charme e Compulsione"@ != "effetti di charme e compulsioni"@);
    assert("effetti di Charme e Compulsione"@[0] != "Effetti di charme e compulsioni"@[0]);
    assert("effetti di Charme e Compulsione"@ != "Effetti di charme e compulsioni"@);
    assert("effetti di Charme e Compulsione"@[0] != "Effetti di Charme e Compulsione"@[0]);
    assert("effetti di Charme e Compulsione"@ != "Effetti di Charme e Compulsione"@);
    assert("effetti di charme e compulsione"@[0] != "Attacchi dipendenti dalla vista"@[0]);
    assert("effetti di charme e compulsione"@ != "Attacchi dipendenti dalla vista"@);
    assert("effetti di charme e compulsione"@[30] != "effetti di charme e compulsioni"@[30]);
    assert("effetti di charme e compulsione"@ != "effetti di charme e compulsioni"@);
    assert("effetti di charme e compulsione"@[0] != "Effetti di charme e compulsioni"@[0]);
    assert("effetti di charme e compulsione"@ != "Effetti di charme e compulsioni"@);
    assert("effetti di charme e compulsione"@[0] != "Effetti di Charme e Compulsione"@[0]);
    assert("effetti di charme e compulsione"@ != "Effetti di Charme e Compulsione"@);
    assert("effetti di charme e compulsione"@[11] != "effetti di Charme e Compulsione"@[11]);
    assert("effetti di charme e compulsione"@ != "effetti di Charme e Compulsione"@);
}

proof fn lemma_read_immunity_deatheffects(s: Seq<char>)
    requires
        immunity_named(Immunity_Type::Immunity_DeathEffects, s),
    ensures
        spec_single_immunity(s) == Some(Immunity_Type::Immunity_DeathEffects),
{
    reveal_strlit("Abbagliamenti");
    reveal_strlit("Abbagliamento");
    reveal_strlit("Abbagliato");
    reveal_strlit("Accecato");
    reveal_strlit("Acido");
    reveal_strlit("Affaticamento");
    reveal_strlit("Affaticato");
    reveal_strlit("Ammaliamento");
    reveal_strlit("Armi Taglienti");
    reveal_strlit("Armi contundenti");
    reveal_strlit("Assorbimento del Fuoco");
    reveal_strlit("Attacchi Furtivi");
    reveal_strlit("Attacchi ai Fianchi");
    reveal_strlit("Attacchi basati sull'olfatto");
    reveal_strlit("Attacchi basati sulla vista");
    reveal_strlit("Attacchi basati sulla vista o sguardo");
    reveal_strlit("Attacchi con Sguardo");
    reveal_strlit("Attacchi con lo sguardo");
    reveal_strlit("Attacchi dipendenti dalla vista");
    reveal_strlit("Barcollante");
    reveal_strlit("Barcollare");
    reveal_strlit("Cecità");
    reveal_strlit("Charme");
    reveal_strlit("Colpi Critici");
    reveal_strlit("Colpi critici");
    reveal_strlit("Condizione Affaticato");
    reveal_strlit("Condizione Esausto");
    reveal_strlit("Confusione");
    reveal_strlit("Danni Non Letali");
    reveal_strlit("Danni contundenti");
    reveal_strlit("Danni da arma");
    reveal_strlit("Danni da armi");
    reveal_strlit("Danni dalle Armi");
    reveal_strlit("Danni perforanti e taglienti");
    reveal_strlit("Danno da Pressione");
    reveal_strlit("Danno da arma");
    reveal_strlit("Danno non letale");
    reveal_strlit("Divinazione");
    reveal_strlit("Effetti d'influenza mentale");
    reveal_strlit("Effetti di Charme e Compulsione");
    reveal_strlit("Effetti di Influenza Mentale");
    reveal_strlit("Effetti di Morte");
    reveal_strlit("Effetti di Paura");
    reveal_strlit("Effetti di Sonno");
    reveal_strlit("Effetti di charme");
    reveal_strlit("Effetti di charme e compulsioni");
    reveal_strlit("Effetti di influenza mentale");
    reveal_strlit("Effetti di morte");
    reveal_strlit("Effetti di morte (vedi sotto)");
    reveal_strlit("Effetti di paura");
    reveal_strlit("Effetti di sonno");
    reveal_strlit("Elettricità");
    reveal_strlit("Elettricità (parziale)");
    reveal_strlit("Energia Negativa");
    reveal_strlit("Energia Positiva");
    reveal_strlit("Esaurimento");
    reveal_strlit("Esausto");
    reveal_strlit("Fatica");
    reveal_strlit("Fiancheggiamento");
    reveal_strlit("Frastornamento");
    reveal_strlit("Frastornato");
    reveal_strlit("Freddo");
    reveal_strlit("Freddo (sé stesso e chi lo cavalca)");
    reveal_strlit("Fuoco");
    reveal_strlit("Fuoco Infernale");
    reveal_strlit("Immunità al Freddo");
    reveal_strlit("Immunità alla Magia");
    reveal_strlit("Infermità");
    reveal_strlit("Infermo");
    reveal_strlit("Magia");
    reveal_strlit("Malattia");
    reveal_strlit("Malattie");
    reveal_strlit("Maledizioni");
    reveal_strlit("Nausea");
    reveal_strlit("Nauseato");
    reveal_strlit("Non Deformante");
    reveal_strlit("Paralisi");
    reveal_strlit("Paura");
    reveal_strlit("Pietrificazione");
    reveal_strlit("Sanguinamento");
    reveal_strlit("Sanguinamento (solo Punti Ferita)");
    reveal_strlit("Scosso");
    reveal_strlit("Sguardo");
    reveal_strlit("Sonno");
    reveal_strlit("Sonoro");
    reveal_strlit("Sordità");
    reveal_strlit("Spaventato");
    reveal_strlit("Stordimento");
    reveal_strlit("Veleni");
    reveal_strlit("Veleno");
    reveal_strlit("Veleno Ingerito");
    reveal_strlit("acido");
    reveal_strlit("attacchi con Sguardo");
    reveal_strlit("attacchi con lo Sguardo");
    reveal_strlit("attacchi con lo sguardo");
    reveal_strlit("charme");
    reveal_strlit("compulsione");
    reveal_strlit("controllo mentale");
    reveal_strlit("contundente");
    reveal_strlit("da caduta e da schiacciamento");
    reveal_strlit("danni contundenti");
    reveal_strlit("danni contundenti e perforanti");
    reveal_strlit("danni da arma");
    reveal_strlit("danni da armi");
    reveal_strlit("danni da precisione");
    reveal_strlit("danni delle armi");
    reveal_strlit("danni di precisione");
    reveal_strlit("danni perforanti");
    reveal_strlit("danni taglienti");
    reveal_strlit("danni taglienti e perforanti");
    reveal_strlit("danno da arma");
    reveal_strlit("danno di precisione");
    reveal_strlit("di influenza mentale e basati sullo Sguardo");
    reveal_strlit("divinazione");
    reveal_strlit("effetti Barcollanti");
    reveal_strlit("effetti di Charme e Compulsione");
    reveal_strlit("effetti di Paura");
    reveal_strlit("effetti di Paura ed influenza mentale");
    reveal_strlit("effetti di Sonno");
    reveal_strlit("effetti di ammaliamento");
    reveal_strlit("effetti di charme");
    reveal_strlit("effetti di charme e compulsione");
    reveal_strlit("effetti di charme e compulsioni");
    reveal_strlit("effetti di compulsione");
    reveal_strlit("effetti di influenza mentale");
    reveal_strlit("effetti di influenza mentale e visivi");
    reveal_strlit("effetti di maledizione");
    reveal_strlit("effetti di maledizioni");
    reveal_strlit("effetti di morte");
    reveal_strlit("effetti di paura");
    reveal_strlit("effetti di sonno");
    reveal_strlit("elettricità");
    reveal_strlit("energia negativa");
    reveal_strlit("ferite permanenti");
    reveal_strlit("freddo");
    reveal_strlit("fuoco");
    reveal_strlit("malattia");
    reveal_strlit("malattie");
    reveal_strlit("maledizioni");
    reveal_strlit("nausea");
    reveal_strlit("paralisi");
    reveal_strlit("paura");
    reveal_strlit("pietrificazione");
    reveal_strlit("possessione");
    reveal_strlit("ruggine");
    reveal_strlit("sanguinamento");
    reveal_strlit("sonno");
    reveal_strlit("sonoro");
    reveal_strlit("sordità");
    reveal_strlit("stordimento");
    reveal_strlit("veleni");
    reveal_strlit("veleno");
    assert("Abbagliamenti"@.len() == 13);
    assert("Abbagliamento"@.len() == 13);
    assert("Abbagliato"@.len() == 10);
    assert("Accecato"@.len() == 8);
    assert("Acido"@.len() == 5);
    assert("Affaticamento"@.len() == 13);
    assert("Affaticato"@.len() == 10);
    assert("Ammaliamento"@.len() == 12);
    assert("Armi Taglienti"@.len() == 14);
    assert("Armi contundenti"@.len() == 16);
    assert("Assorbimento del Fuoco"@.len() == 22);
    assert("Attacchi Furtivi"@.len() == 16);
    assert("Attacchi ai Fianchi"@.len() == 19);
    assert("Attacchi basati sull'olfatto"@.len() == 28);
    assert("Attacchi basati sulla vista"@.len() == 27);
    assert("Attacchi basati sulla vista o sguardo"@.len() == 37);
    assert("Attacchi con Sguardo"@.len() == 20);
    assert("Attacchi con lo sguardo"@.len() == 23);
    assert("Attacchi dipendenti dalla vista"@.len() == 31);
    assert("Barcollante"@.len() == 11);
    assert("Barcollare"@.len() == 10);
    assert("Cecità"@.len() == 6);
    assert("Charme"@.len() == 6);
    assert("Colpi Critici"@.len() == 13);
    assert("Colpi critici"@.len() == 13);
    assert("Condizione Affaticato"@.len() == 21);
    assert("Condizione Esausto"@.len() == 18);
    assert("Confusione"@.len() == 10);
    assert("Danni Non Letali"@.len() == 16);
    assert("Danni contundenti"@.len() == 17);
    assert("Danni da arma"@.len() == 13);
    assert("Danni da armi"@.len() == 13);
    assert("Danni dalle Armi"@.len() == 16);
    assert("Danni perforanti e taglienti"@.len() == 28);
    assert("Danno da Pressione"@.len() == 18);
    assert("Danno da arma"@.len() == 13);
    assert("Danno non letale"@.len() == 16);
    assert("Divinazione"@.len() == 11);
    assert("Effetti d'influenza mentale"@.len() == 27);
    assert("Effetti di Charme e Compulsione"@.len() == 31);
    assert("Effetti di Influenza Mentale"@.len() == 28);
    assert("Effetti di Morte"@.len() == 16);
    assert("Effetti di Paura"@.len() == 16);
    assert("Effetti di Sonno"@.len() == 16);
    assert("Effetti di charme"@.len() == 17);
    assert("Effetti di charme e compulsioni"@.len() == 31);
    assert("Effetti di influenza mentale"@.len() == 28);
    assert("Effetti di morte"@.len() == 16);
    assert("Effetti di morte (vedi sotto)"@.len() == 29);
    assert("Effetti di paura"@.len() == 16);
    assert("Effetti di sonno"@.len() == 16);
    assert("Elettricità"@.len() == 11);
    assert("Elettricità (parziale)"@.len() == 22);
    assert("Energia Negativa"@.len() == 16);
    assert("Energia Positiva"@.len() == 16);
    assert("Esaurimento"@.len() == 11);
    assert("Esausto"@.len() == 7);
    assert("Fatica"@.len() == 6);
    assert("Fiancheggiamento"@.len() == 16);
    assert("Frastornamento"@.len() == 14);
    assert("Frastornato"@.len() == 11);
    assert("Freddo"@.len() == 6);
    assert("Freddo (sé stesso e chi lo cavalca)"@.len() == 35);
    assert("Fuoco"@.len() == 5);
    assert("Fuoco Infernale"@.len() == 15);
    assert("Immunità al Freddo"@.len() == 18);
    assert("Immunità alla Magia"@.len() == 19);
    assert("Infermità"@.len() == 9);
    assert("Infermo"@.len() == 7);
    assert("Magia"@.len() == 5);
    assert("Malattia"@.len() == 8);
    assert("Malattie"@.len() == 8);
    assert("Maledizioni"@.len() == 11);
    assert("Nausea"@.len() == 6);
    assert("Nauseato"@.len() == 8);
    assert("Non Deformante"@.len() == 14);
    assert("Paralisi"@.len() == 8);
    assert("Paura"@.len() == 5);
    assert("Pietrificazione"@.len() == 15);
    assert("Sanguinamento"@.len() == 13);
    assert("Sanguinamento (solo Punti Ferita)"@.len() == 33);
    assert("Scosso"@.len() == 6);
    assert("Sguardo"@.len() == 7);
    assert("Sonno"@.len() == 5);
    assert("Sonoro"@.len() == 6);
    assert("Sordità"@.len() == 7);
    assert("Spaventato"@.len() == 10);
    assert("Stordimento"@.len() == 11);
    assert("Veleni"@.len() == 6);
    assert("Veleno"@.len() == 6);
    assert("Veleno Ingerito"@.len() == 15);
    assert("acido"@.len() == 5);
    assert("attacchi con Sguardo"@.len() == 20);
    assert("attacchi con lo Sguardo"@.len() == 23);
    assert("attacchi con lo sguardo"@.len() == 23);
    assert("charme"@.len() == 6);
    assert("compulsione"@.len() == 11);
    assert("controllo mentale"@.len() == 17);
    assert("contundente"@.len() == 11);
    assert("da caduta e da schiacciamento"@.len() == 29);
    assert("danni contundenti"@.len() == 17);
    assert("danni contundenti e perforanti"@.len() == 30);
    assert("danni da arma"@.len() == 13);
    assert("danni da armi"@.len() == 13);
    assert("danni da precisione"@.len() == 19);
    assert("danni delle armi"@.len() == 16);
    assert("danni di precisione"@.len() == 19);
    assert("danni perforanti"@.len() == 16);
    assert("danni taglienti"@.len() == 15);
    assert("danni taglienti e perforanti"@.len() == 28);
    assert("danno da arma"@.len() == 13);
    assert("danno di precisione"@.len() == 19);
    assert("di influenza mentale e basati sullo Sguardo"@.len() == 43);
    assert("divinazione"@.len() == 11);
    assert("effetti Barcollanti"@.len() == 19);
    assert("effetti di Charme e Compulsione"@.len() == 31);
    assert("effetti di Paura"@.len() == 16);
    assert("effetti di Paura ed influenza mentale"@.len() == 37);
    assert("effetti di Sonno"@.len() == 16);
    assert("effetti di ammaliamento"@.len() == 23);
    assert("effetti di charme"@.len() == 17);
    assert("effetti di charme e compulsione"@.len() == 31);
    assert("effetti di charme e compulsioni"@.len() == 31);
    assert("effetti di compulsione"@.len() == 22);
    assert("effetti di influenza mentale"@.len() == 28);
    assert("effetti di influenza mentale e visivi"@.len() == 37);
    assert("effetti di maledizione"@.len() == 22);
    assert("effetti di maledizioni"@.len() == 22);
    assert("effetti di morte"@.len() == 16);
    assert("effetti di paura"@.len() == 16);
    assert("effetti di sonno"@.len() == 16);
    assert("elettricità"@.len() == 11);
    assert("energia negativa"@.len() == 16);
    assert("ferite permanenti"@.len() == 17);
    assert("freddo"@.len() == 6);
    assert("fuoco"@.len() == 5);
    assert("malattia"@.len() == 8);
    assert("malattie"@.len() == 8);
    assert("maledizioni"@.len() == 11);
    assert("nausea"@.len() == 6);
    assert("paralisi"@.len() == 8);
    assert("paura"@.len() == 5);
    assert("pietrificazione"@.len() == 15);
    assert("possessione"@.len() == 11);
    assert("ruggine"@.len() == 7);
    assert("sanguinamento"@.len() == 13);
    assert("sonno"@.len() == 5);
    assert("sonoro"@.len() == 6);
    assert("sordità"@.len() == 7);
    assert("stordimento"@.len() == 11);
    assert("veleni"@.len() == 6);
    assert("veleno"@.len() == 6);
    assert("Effetti di morte"@[1] != "Energia Negativa"@[1]);
    assert("Effetti di morte"@ != "Energia Negativa"@);
    assert("Effetti di morte"@[0] != "energia negativa"@[0]);
    assert("Effetti di morte"@ != "energia negativa"@);
    assert("Effetti di morte"@[1] != "Energia Positiva"@[1]);
    assert("Effetti di morte"@ != "Energia Positiva"@);
    assert("Effetti di morte"@[0] != "energia negativa"@[0]);
    assert("Effetti di morte"@ != "energia negativa"@);
    assert("Effetti di morte"@[0] != "effetti di sonno"@[0]);
    assert("Effetti di morte"@ != "effetti di sonno"@);
    assert("Effetti di morte"@[11] != "Effetti di Sonno"@[11]);
    assert("Effetti di morte"@ != "Effetti di Sonno"@);
    assert("Effetti di morte"@[11] != "Effetti di sonno"@[11]);
    assert("Effetti di morte"@ != "Effetti di sonno"@);
    assert("Effetti di morte"@[0] != "effetti di Sonno"@[0]);
    assert("Effetti di morte"@ != "effetti di Sonno"@);
    assert("Effetti di morte"@[11] != "Effetti di Paura"@[11]);
    assert("Effetti di morte"@ != "Effetti di Paura"@);
    assert("Effetti di morte"@[0] != "effetti di Paura"@[0]);
    assert("Effetti di morte"@ != "effetti di Paura"@);
    assert("Effetti di morte"@[0] != "effetti di paura"@[0]);
    assert("Effetti di morte"@ != "effetti di paura"@);
    assert("Effetti di morte"@[11] != "Effetti di paura"@[11]);
    assert("Effetti di morte"@ != "Effetti di paura"@);
    assert("Effetti di morte"@[0] != "Attacchi Furtivi"@[0]);
    assert("Effetti di morte"@ != "Attacchi Furtivi"@);
    assert("Effetti di morte"@[0] != "danni delle armi"@[0]);
    assert("Effetti di morte"@ != "danni delle armi"@);
    assert("Effetti di morte"@[0] != "Danni dalle Armi"@[0]);
    assert("Effetti di morte"@ != "Danni dalle Armi"@);
    assert("Effetti di morte"@[0] != "Armi contundenti"@[0]);
    assert("Effetti di morte"@ != "Armi contundenti"@);
    assert("Effetti di morte"@[0] != "danni perforanti"@[0]);
    assert("Effetti di morte"@ != "danni perforanti"@);
    assert("Effetti di morte"@[0] != "Fiancheggiamento"@[0]);
    assert("Effetti di morte"@ != "Fiancheggiamento"@);
    assert("Effetti di morte"@[0] != "Danni Non Letali"@[0]);
    assert("Effetti di morte"@ != "Danni Non Letali"@);
    assert("Effetti di morte"@[0] != "Danno non letale"@[0]);
    assert("Effetti di morte"@ != "Danno non letale"@);
    assert("Effetti di Morte"@[1] != "Energia Negativa"@[1]);
    assert("Effetti di Morte"@ != "Energia Negativa"@);
    assert("Effetti di Morte"@[0] != "energia negativa"@[0]);
    assert("Effetti di Morte"@ != "energia negativa"@);
    assert("Effetti di Morte"@[1] != "Energia Positiva"@[1]);
    assert("Effetti di Morte"@ != "Energia Positiva"@);
    assert("Effetti di Morte"@[0] != "energia negativa"@[0]);
    assert("Effetti di Morte"@ != "energia negativa"@);
    assert("Effetti di Morte"@[0] != "effetti di sonno"@[0]);
    assert("Effetti di Morte"@ != "effetti di sonno"@);
    assert("Effetti di Morte"@[11] != "Effetti di Sonno"@[11]);
    assert("Effetti di Morte"@ != "Effetti di Sonno"@);
    assert("Effetti di Morte"@[11] != "Effetti di sonno"@[11]);
    assert("Effetti di Morte"@ != "Effetti di sonno"@);
    assert("Effetti di Morte"@[0] != "effetti di Sonno"@[0]);
    assert("Effetti di Morte"@ != "effetti di Sonno"@);
    assert("Effetti di Morte"@[11] != "Effetti di Paura"@[11]);
    assert("Effetti di Morte"@ != "Effetti di Paura"@);
    assert("Effetti di Morte"@[0] != "effetti di Paura"@[0]);
    assert("Effetti di Morte"@ != "effetti di Paura"@);
    assert("Effetti di Morte"@[0] != "effetti di paura"@[0]);
    assert("Effetti di Morte"@ != "effetti di paura"@);
    assert("Effetti di Morte"@[11] != "Effetti di paura"@[11]);
    assert("Effetti di Morte"@ != "Effetti di paura"@);
    assert("Effetti di Morte"@[0] != "Attacchi Furtivi"@[0]);
    assert("Effetti di Morte"@ != "Attacchi Furtivi"@);
    assert("Effetti di Morte"@[0] != "danni delle armi"@[0]);
    assert("Effetti di Morte"@ != "danni delle armi"@);
    assert("Effetti di Morte"@[0] != "Danni dalle Armi"@[0]);
    assert("Effetti di Morte"@ != "Danni dalle Armi"@);
    assert("Effetti di Morte"@[0] != "Armi contundenti"@[0]);
    assert("Effetti di Morte"@ != "Armi contundenti"@);
    assert("Effetti di Morte"@[0] != "danni perforanti"@[0]);
    assert("Effetti di Morte"@ != "danni perforanti"@);
    assert("Effetti di Morte"@[0] != "Fiancheggiamento"@[0]);
    assert("Effetti di Morte"@ != "Fiancheggiamento"@);
    assert("Effetti di Morte"@[0] != "Danni Non Letali"@[0]);
    assert("Effetti di Morte"@ != "Danni Non Letali"@);
    assert("Effetti di Morte"@[0] != "Danno non letale"@[0]);
    assert("Effetti di Morte"@ != "Danno non letale"@);
    assert("Effetti di Morte"@[11] != "Effetti di morte"@[11]);
    assert("Effetti di Morte"@ != "Effetti di morte"@);
    assert("effetti di morte"@[0] != "Energia Negativa"@[0]);
    assert("effetti di morte"@ != "Energia Negativa"@);
    assert("effetti di morte"@[1] != "energia negativa"@[1]);
    assert("effetti di morte"@ != "energia negativa"@);
    assert("effetti di morte"@[0] != "Energia Positiva"@[0]);
    assert("effetti di morte"@ != "Energia Positiva"@);
    assert("effetti di morte"@[1] != "energia negativa"@[1]);
    assert("effetti di morte"@ != "energia negativa"@);
    assert("effetti di morte"@[11] != "effetti di sonno"@[11]);
    assert("effetti di morte"@ != "effetti di sonno"@);
    assert("effetti di morte"@[0] != "Effetti di Sonno"@[0]);
    assert("effetti di morte"@ != "Effetti di Sonno"@);
    assert("effetti di morte"@[0] != "Effetti di sonno"@[0]);
    assert("effetti di morte"@ != "Effetti di sonno"@);
    assert("effetti di morte"@[11] != "effetti di Sonno"@[11]);
    assert("effetti di morte"@ != "effetti di Sonno"@);
    assert("effetti di morte"@[0] != "Effetti di Paura"@[0]);
    assert("effetti di morte"@ != "Effetti di Paura"@);
    assert("effetti di morte"@[11] != "effetti di Paura"@[11]);
    assert("effetti di morte"@ != "effetti di Paura"@);
    assert("effetti di morte"@[11] != "effetti di paura"@[11]);
    assert("effetti di morte"@ != "effetti di paura"@);
    assert("effetti di morte"@[0] != "Effetti di paura"@[0]);
    assert("effetti di morte"@ != "Effetti di paura"@);
    assert("effetti di morte"@[0] != "Attacchi Furtivi"@[0]);
    assert("effetti di morte"@ != "Attacchi Furtivi"@);
    assert("effetti di morte"@[0] != "danni delle armi"@[0]);
    assert("effetti di morte"@ != "danni delle armi"@);
    assert("effetti di morte"@[0] != "Danni dalle Armi"@[0]);
    assert("effetti di morte"@ != "Danni dalle Armi"@);
    assert("effetti di morte"@[0] != "Armi contundenti"@[0]);
    assert("effetti di morte"@ != "Armi contundenti"@);
    assert("effetti di morte"@[0] != "danni perforanti"@[0]);
    assert("effetti di morte"@ != "danni perforanti"@);
    assert("effetti di morte"@[0] != "Fiancheggiamento"@[0]);
    assert("effetti di morte"@ != "Fiancheggiamento"@);
    assert("effetti di morte"@[0] != "Danni Non Letali"@[0]);
    assert("effetti di morte"@ != "Danni Non Letali"@);
    assert("effetti di morte"@[0] != "Danno non letale"@[0]);
    assert("effetti di morte"@ != "Danno non letale"@);
    assert("effetti di morte"@[0] != "Effetti di morte"@[0]);
    assert("effetti di morte"@ != "Effetti di morte"@);
    assert("effetti di morte"@[0] != "Effetti di Morte"@[0]);
    assert("effetti di morte"@ != "Effetti di Morte"@);
    assert("Effetti di morte (vedi sotto)"@[0] != "da caduta e da schiacciamento"@[0]);
    assert("Effetti di morte (vedi sotto)"@ != "da caduta e da schiacciamento"@);
}

proof fn lemma_read_immunity_illusioneffects(s: Seq<char>)
    requires
        immunity_named(Immunity_Type::Immunity_IllusionEffects, s),
    ensures
        spec_single_immunity(s) == Some(Immunity_Type::Immunity_IllusionEffects),
{
    reveal_strlit("Abbagliamenti");
    reveal_strlit("Abbagliamento");
    reveal_strlit("Abbagliato");
    reveal_strlit("Accecato");
    reveal_strlit("Acido");
    reveal_strlit("Affaticamento");
    reveal_strlit("Affaticato");
    reveal_strlit("Ammaliamento");
    reveal_strlit("Armi Taglienti");
    reveal_strlit("Armi contundenti");
    reveal_strlit("Assorbimento del Fuoco");
    reveal_strlit("Attacchi Furtivi");
    reveal_strlit("Attacchi ai Fianchi");
    reveal_strlit("Attacchi basati sull'olfatto");
    reveal_strlit("Attacchi basati sulla vista");
    reveal_strlit("Attacchi basati sulla vista o sguardo");
    reveal_strlit("Attacchi con Sguardo");
    reveal_strlit("Attacchi con lo sguardo");
    reveal_strlit("Attacchi dipendenti dalla vista");
    reveal_strlit("Barcollante");
    reveal_strlit("Barcollare");
    reveal_strlit("Cecità");
    reveal_strlit("Charme");
    reveal_strlit("Colpi Critici");
    reveal_strlit("Colpi critici");
    reveal_strlit("Condizione Affaticato");
    reveal_strlit("Condizione Esausto");
    reveal_strlit("Confusione");
    reveal_strlit("Danni Non Letali");
    reveal_strlit("Danni contundenti");
    reveal_strlit("Danni da arma");
    reveal_strlit("Danni da armi");
    reveal_strlit("Danni dalle Armi");
    reveal_strlit("Danni perforanti e taglienti");
    reveal_strlit("Danno da Pressione");
    reveal_strlit("Danno da arma");
    reveal_strlit("Danno non letale");
    reveal_strlit("Divinazione");
    reveal_strlit("Effetti d'influenza mentale");
    reveal_strlit("Effetti di Charme e Compulsione");
    reveal_strlit("Effetti di Influenza Mentale");
    reveal_strlit("Effetti di Morte");
    reveal_strlit("Effetti di Paura");
    reveal_strlit("Effetti di Sonno");
    reveal_strlit("Effetti di charme");
    reveal_strlit("Effetti di charme e compulsioni");
    reveal_strlit("Effetti di influenza mentale");
    reveal_strlit("Effetti di morte");
    reveal_strlit("Effetti di morte (vedi sotto)");
    reveal_strlit("Effetti di paura");
    reveal_strlit("Effetti di sonno");
    reveal_strlit("Elettricità");
    reveal_strlit("Elettricità (parziale)");
    reveal_strlit("Energia Negativa");
    reveal_strlit("Energia Positiva");
    reveal_strlit("Esaurimento");
    reveal_strlit("Esausto");
    reveal_strlit("Fatica");
    reveal_strlit("Fiancheggiamento");
    reveal_strlit("Frastornamento");
    reveal_strlit("Frastornato");
    reveal_strlit("Freddo");
    reveal_strlit("Freddo (sé stesso e chi lo cavalca)");
    reveal_strlit("Fuoco");
    reveal_strlit("Fuoco Infernale");
    reveal_strlit("Illusione");
    reveal_strlit("Immunità al Freddo");
    reveal_strlit("Immunità alla Magia");
    reveal_strlit("Infermità");
    reveal_strlit("Infermo");
    reveal_strlit("Magia");
    reveal_strlit("Malattia");
    reveal_strlit("Malattie");
    reveal_strlit("Maledizioni");
    reveal_strlit("Nausea");
    reveal_strlit("Nauseato");
    reveal_strlit("Non Deformante");
    reveal_strlit("Paralisi");
    reveal_strlit("Paura");
    reveal_strlit("Pietrificazione");
    reveal_strlit("Sanguinamento");
    reveal_strlit("Sanguinamento (solo Punti Ferita)");
    reveal_strlit("Scosso");
    reveal_strlit("Sguardo");
    reveal_strlit("Sonno");
    reveal_strlit("Sonoro");
    reveal_strlit("Sordità");
    reveal_strlit("Spaventato");
    reveal_strlit("Stordimento");
    reveal_strlit("Veleni");
    reveal_strlit("Veleno");
    reveal_strlit("Veleno Ingerito");
    reveal_strlit("acido");
    reveal_strlit("attacchi con Sguardo");
    reveal_strlit("attacchi con lo Sguardo");
    reveal_strlit("attacchi con lo sguardo");
    reveal_strlit("charme");
    reveal_strlit("compulsione");
    reveal_strlit("controllo mentale");
    reveal_strlit("contundente");
    reveal_strlit("da caduta e da schiacciamento");
    reveal_strlit("danni contundenti");
    reveal_strlit("danni contundenti e perforanti");
    reveal_strlit("danni da arma");
    reveal_strlit("danni da armi");
    reveal_strlit("danni da precisione");
    reveal_strlit("danni delle armi");
    reveal_strlit("danni di precisione");
    reveal_strlit("danni perforanti");
    reveal_strlit("danni taglienti");
    reveal_strlit("danni taglienti e perforanti");
    reveal_strlit("danno da arma");
    reveal_strlit("danno di precisione");
    reveal_strlit("di influenza mentale e basati sullo Sguardo");
    reveal_strlit("divinazione");
    reveal_strlit("effetti Barcollanti");
    reveal_strlit("effetti di Charme e Compulsione");
    reveal_strlit("effetti di Paura");
    reveal_strlit("effetti di Paura ed influenza mentale");
    reveal_strlit("effetti di Sonno");
    reveal_strlit("effetti di ammaliamento");
    reveal_strlit("effetti di charme");
    reveal_strlit("effetti di charme e compulsione");
    reveal_strlit("effetti di charme e compulsioni");
    reveal_strlit("effetti di compulsione");
    reveal_strlit("effetti di influenza mentale");
    reveal_strlit("effetti di influenza mentale e visivi");
    reveal_strlit("effetti di maledizione");
    reveal_strlit("effetti di maledizioni");
    reveal_strlit("effetti di morte");
    reveal_strlit("effetti di paura");
    reveal_strlit("effetti di sonno");
    reveal_strlit("elettricità");
    reveal_strlit("energia negativa");
    reveal_strlit("ferite permanenti");
    reveal_strlit("freddo");
    reveal_strlit("fuoco");
    reveal_strlit("illusioni");
    reveal_strlit("malattia");
    reveal_strlit("malattie");
    reveal_strlit("maledizioni");
    reveal_strlit("nausea");
    reveal_strlit("paralisi");
    reveal_strlit("paura");
    reveal_strlit("pietrificazione");
    reveal_strlit("possessione");
    reveal_strlit("ruggine");
    reveal_strlit("sanguinamento");
    reveal_strlit("sonno");
    reveal_strlit("sonoro");
    reveal_strlit("sordità");
    reveal_strlit("stordimento");
    reveal_strlit("veleni");
    reveal_strlit("veleno");
    assert("Abbagliamenti"@.len() == 13);
    assert("Abbagliamento"@.len() == 13);
    assert("Abbagliato"@.len() == 10);
    assert("Accecato"@.len() == 8);
    assert("Acido"@.len() == 5);
    assert("Affaticamento"@.len() == 13);
    assert("Affaticato"@.len() == 10);
    assert("Ammaliamento"@.len() == 12);
    assert("Armi Taglienti"@.len() == 14);
    assert("Armi contundenti"@.len() == 16);
    assert("Assorbimento del Fuoco"@.len() == 22);
    assert("Attacchi Furtivi"@.len() == 16);
    assert("Attacchi ai Fianchi"@.len() == 19);
    assert("Attacchi basati sull'olfatto"@.len() == 28);
    assert("Attacchi basati sulla vista"@.len() == 27);
    assert("Attacchi basati sulla vista o sguardo"@.len() == 37);
    assert("Attacchi con Sguardo"@.len() == 20);
    assert("Attacchi con lo sguardo"@.len() == 23);
    assert("Attacchi dipendenti dalla vista"@.len() == 31);
    assert("Barcollante"@.len() == 11);
    assert("Barcollare"@.len() == 10);
    assert("Cecità"@.len() == 6);
    assert("Charme"@.len() == 6);
    assert("Colpi Critici"@.len() == 13);
    assert("Colpi critici"@.len() == 13);
    assert("Condizione Affaticato"@.len() == 21);
    assert("Condizione Esausto"@.len() == 18);
    assert("Confusione"@.len() == 10);
    assert("Danni Non Letali"@.len() == 16);
    assert("Danni contundenti"@.len() == 17);
    assert("Danni da arma"@.len() == 13);
    assert("Danni da armi"@.len() == 13);
    assert("Danni dalle Armi"@.len() == 16);
    assert("Danni perforanti e taglienti"@.len() == 28);
    assert("Danno da Pressione"@.len() == 18);
    assert("Danno da arma"@.len() == 13);
    assert("Danno non letale"@.len() == 16);
    assert("Divinazione"@.len() == 11);
    assert("Effetti d'influenza mentale"@.len() == 27);
    assert("Effetti di Charme e Compulsione"@.len() == 31);
    assert("Effetti di Influenza Mentale"@.len() == 28);
    assert("Effetti di Morte"@.len() == 16);
    assert("Effetti di Paura"@.len() == 16);
    assert("Effetti di Sonno"@.len() == 16);
    assert("Effetti di charme"@.len() == 17);
    assert("Effetti di charme e compulsioni"@.len() == 31);
    assert("Effetti di influenza mentale"@.len() == 28);
    assert("Effetti di morte"@.len() == 16);
    assert("Effetti di morte (vedi sotto)"@.len() == 29);
    assert("Effetti di paura"@.len() == 16);
    assert("Effetti di sonno"@.len() == 16);
    assert("Elettricità"@.len() == 11);
    assert("Elettricità (parziale)"@.len() == 22);
    assert("Energia Negativa"@.len() == 16);
    assert("Energia Positiva"@.len() == 16);
    assert("Esaurimento"@.len() == 11);
    assert("Esausto"@.len() == 7);
    assert("Fatica"@.len() == 6);
    assert("Fiancheggiamento"@.len() == 16);
    assert("Frastornamento"@.len() == 14);
    assert("Frastornato"@.len() == 11);
    assert("Freddo"@.len() == 6);
    assert("Freddo (sé stesso e chi lo cavalca)"@.len() == 35);
    assert("Fuoco"@.len() == 5);
    assert("Fuoco Infernale"@.len() == 15);
    assert("Illusione"@.len() == 9);
    assert("Immunità al Freddo"@.len() == 18);
    assert("Immunità alla Magia"@.len() == 19);
    assert("Infermità"@.len() == 9);
    assert("Infermo"@.len() == 7);
    assert("Magia"@.len() == 5);
    assert("Malattia"@.len() == 8);
    assert("Malattie"@.len() == 8);
    assert("Maledizioni"@.len() == 11);
    assert("Nausea"@.len() == 6);
    assert("Nauseato"@.len() == 8);
    assert("Non Deformante"@.len() == 14);
    assert("Paralisi"@.len() == 8);
    assert("Paura"@.len() == 5);
    assert("Pietrificazione"@.len() == 15);
    assert("Sanguinamento"@.len() == 13);
    assert("Sanguinamento (solo Punti Ferita)"@.len() == 33);
    assert("Scosso"@.len() == 6);
    assert("Sguardo"@.len() == 7);
    assert("Sonno"@.len() == 5);
    assert("Sonoro"@.len() == 6);
    assert("Sordità"@.len() == 7);
    assert("Spaventato"@.len() == 10);
    assert("Stordimento"@.len() == 11);
    assert("Veleni"@.len() == 6);
    assert("Veleno"@.len() == 6);
    assert("Veleno Ingerito"@.len() == 15);
    assert("acido"@.len() == 5);
    assert("attacchi con Sguardo"@.len() == 20);
    assert("attacchi con lo Sguardo"@.len() == 23);
    assert("attacchi con lo sguardo"@.len() == 23);
    assert("charme"@.len() == 6);
    assert("compulsione"@.len() == 11);
    assert("controllo mentale"@.len() == 17);
    assert("contundente"@.len() == 11);
    assert("da caduta e da schiacciamento"@.len() == 29);
    assert("danni contundenti"@.len() == 17);
    assert("danni contundenti e perforanti"@.len() == 30);
    assert("danni da arma"@.len() == 13);
    assert("danni da armi"@.len() == 13);
    assert("danni da precisione"@.len() == 19);
    assert("danni delle armi"@.len() == 16);
    assert("danni di precisione"@.len() == 19);
    assert("danni perforanti"@.len() == 16);
    assert("danni taglienti"@.len() == 15);
    assert("danni taglienti e perforanti"@.len() == 28);
    assert("danno da arma"@.len() == 13);
    assert("danno di precisione"@.len() == 19);
    assert("di influenza mentale e basati sullo Sguardo"@.len() == 43);
    assert("divinazione"@.len() == 11);
    assert("effetti Barcollanti"@.len() == 19);
    assert("effetti di Charme e Compulsione"@.len() == 31);
    assert("effetti di Paura"@.len() == 16);
    assert("effetti di Paura ed influenza mentale"@.len() == 37);
    assert("effetti di Sonno"@.len() == 16);
    assert("effetti di ammaliamento"@.len() == 23);
    assert("effetti di charme"@.len() == 17);
    assert("effetti di charme e compulsione"@.len() == 31);
    assert("effetti di charme e compulsioni"@.len() == 31);
    assert("effetti di compulsione"@.len() == 22);
    assert("effetti di influenza mentale"@.len() == 28);
    assert("effetti di influenza mentale e visivi"@.len() == 37);
    assert("effetti di maledizione"@.len() == 22);
    assert("effetti di maledizioni"@.len() == 22);
    assert("effetti di morte"@.len() == 16);
    assert("effetti di paura"@.len() == 16);
    assert("effetti di sonno"@.len() == 16);
    assert("elettricità"@.len() == 11);
    assert("energia negativa"@.len() == 16);
    assert("ferite permanenti"@.len() == 17);
    assert("freddo"@.len() == 6);
    assert("fuoco"@.len() == 5);
    assert("illusioni"@.len() == 9);
    assert("malattia"@.len() == 8);
    assert("malattie"@.len() == 8);
    assert("maledizioni"@.len() == 11);
    assert("nausea"@.len() == 6);
    assert("paralisi"@.len() == 8);
    assert("paura"@.len() == 5);
    assert("pietrificazione"@.len() == 15);
    assert("possessione"@.len() == 11);
    assert("ruggine"@.len() == 7);
    assert("sanguinamento"@.len() == 13);
    assert("sonno"@.len() == 5);
    assert("sonoro"@.len() == 6);
    assert("sordità"@.len() == 7);
    assert("stordimento"@.len() == 11);
    assert("veleni"@.len() == 6);
    assert("veleno"@.len() == 6);
    assert("illusioni"@[0] != "Infermità"@[0]);
    assert("illusioni"@ != "Infermità"@);
    assert("Illusione"@[1] != "Infermità"@[1]);
    assert("Illusione"@ != "Infermità"@);
    assert("Illusione"@[0] != "illusioni"@[0]);
    assert("Illusione"@ != "illusioni"@);
}

proof fn lemma_read_immunity_illusionsighteffects(s: Seq<char>)
    requires
        immunity_named(Immunity_Type::Immunity_IllusionSightEffects, s),
    ensures
        spec_single_immunity(s) == Some(Immunity_Type::Immunity_IllusionSightEffects),
{
    reveal_strlit("Abbagliamenti");
    reveal_strlit("Abbagliamento");
    reveal_strlit("Abbagliato");
    reveal_strlit("Accecato");
    reveal_strlit("Acido");
    reveal_strlit("Affaticamento");
    reveal_strlit("Affaticato");
    reveal_strlit("Ammaliamento");
    reveal_strlit("Armi Taglienti");
    reveal_strlit("Armi contundenti");
    reveal_strlit("Assorbimento del Fuoco");
    reveal_strlit("Attacchi Furtivi");
    reveal_strlit("Attacchi ai Fianchi");
    reveal_strlit("Attacchi basati sull'olfatto");
    reveal_strlit("Attacchi basati sulla vista");
    reveal_strlit("Attacchi basati sulla vista o sguardo");
    reveal_strlit("Attacchi con Sguardo");
    reveal_strlit("Attacchi con lo sguardo");
    reveal_strlit("Attacchi dipendenti dalla vista");
    reveal_strlit("Barcollante");
    reveal_strlit("Barcollare");
    reveal_strlit("Cecità");
    reveal_strlit("Charme");
    reveal_strlit("Colpi Critici");
    reveal_strlit("Colpi critici");
    reveal_strlit("Condizione Affaticato");
    reveal_strlit("Condizione Esausto");
    reveal_strlit("Confusione");
    reveal_strlit("Danni Non Letali");
    reveal_strlit("Danni contundenti");
    reveal_strlit("Danni da arma");
    reveal_strlit("Danni da armi");
    reveal_strlit("Danni dalle Armi");
    reveal_strlit("Danni perforanti e taglienti");
    reveal_strlit("Danno da Pressione");
    reveal_strlit("Danno da arma");
    reveal_strlit("Danno non letale");
    reveal_strlit("Divinazione");
    reveal_strlit("Effetti d'influenza mentale");
    reveal_strlit("Effetti di Charme e Compulsione");
    reveal_strlit("Effetti di Influenza Mentale");
    reveal_strlit("Effetti di Morte");
    reveal_strlit("Effetti di Paura");
    reveal_strlit("Effetti di Sonno");
    reveal_strlit("Effetti di charme");
    reveal_strlit("Effetti di charme e compulsioni");
    reveal_strlit("Effetti di influenza mentale");
    reveal_strlit("Effetti di morte");
    reveal_strlit("Effetti di morte (vedi sotto)");
    reveal_strlit("Effetti di paura");
    reveal_strlit("Effetti di sonno");
    reveal_strlit("Elettricità");
    reveal_strlit("Elettricità (parziale)");
    reveal_strlit("Energia Negativa");
    reveal_strlit("Energia Positiva");
    reveal_strlit("Esaurimento");
    reveal_strlit("Esausto");
    reveal_strlit("Fatica");
    reveal_strlit("Fiancheggiamento");
    reveal_strlit("Frastornamento");
    reveal_strlit("Frastornato");
    reveal_strlit("Freddo");
    reveal_strlit("Freddo (sé stesso e chi lo cavalca)");
    reveal_strlit("Fuoco");
    reveal_strlit("Fuoco Infernale");
    reveal_strlit("Illusione");
    reveal_strlit("Immunità al Freddo");
    reveal_strlit("Immunità alla Magia");
    reveal_strlit("Infermità");
    reveal_strlit("Infermo");
    reveal_strlit("Magia");
    reveal_strlit("Malattia");
    reveal_strlit("Malattie");
    reveal_strlit("Maledizioni");
    reveal_strlit("Nausea");
    reveal_strlit("Nauseato");
    reveal_strlit("Non Deformante");
    reveal_strlit("Paralisi");
    reveal_strlit("Paura");
    reveal_strlit("Pietrificazione");
    reveal_strlit("Sanguinamento");
    reveal_strlit("Sanguinamento (solo Punti Ferita)");
    reveal_strlit("Scosso");
    reveal_strlit("Sguardo");
    reveal_strlit("Sonno");
    reveal_strlit("Sonoro");
    reveal_strlit("Sordità");
    reveal_strlit("Spaventato");
    reveal_strlit("Stordimento");
    reveal_strlit("Veleni");
    reveal_strlit("Veleno");
    reveal_strlit("Veleno Ingerito");
    reveal_strlit("acido");
    reveal_strlit("attacchi con Sguardo");
    reveal_strlit("attacchi con lo Sguardo");
    reveal_strlit("attacchi con lo sguardo");
    reveal_strlit("charme");
    reveal_strlit("compulsione");
    reveal_strlit("controllo mentale");
    reveal_strlit("contundente");
    reveal_strlit("da caduta e da schiacciamento");
    reveal_strlit("danni contundenti");
    reveal_strlit("danni contundenti e perforanti");
    reveal_strlit("danni da arma");
    reveal_strlit("danni da armi");
    reveal_strlit("danni da precisione");
    reveal_strlit("danni delle armi");
    reveal_strlit("danni di precisione");
    reveal_strlit("danni perforanti");
    reveal_strlit("danni taglienti");
    reveal_strlit("danni taglienti e perforanti");
    reveal_strlit("danno da arma");
    reveal_strlit("danno di precisione");
    reveal_strlit("di influenza mentale e basati sullo Sguardo");
    reveal_strlit("divinazione");
    reveal_strlit("effetti Barcollanti");
    reveal_strlit("effetti di Charme e Compulsione");
    reveal_strlit("effetti di Paura");
    reveal_strlit("effetti di Paura ed influenza mentale");
    reveal_strlit("effetti di Sonno");
    reveal_strlit("effetti di ammaliamento");
    reveal_strlit("effetti di charme");
    reveal_strlit("effetti di charme e compulsione");
    reveal_strlit("effetti di charme e compulsioni");
    reveal_strlit("effetti di compulsione");
    reveal_strlit("effetti di influenza mentale");
    reveal_strlit("effetti di influenza mentale e visivi");
    reveal_strlit("effetti di maledizione");
    reveal_strlit("effetti di maledizioni");
    reveal_strlit("effetti di morte");
    reveal_strlit("effetti di paura");
    reveal_strlit("effetti di sonno");
    reveal_strlit("elettricità");
    reveal_strlit("energia negativa");
    reveal_strlit("ferite permanenti");
    reveal_strlit("freddo");
    reveal_strlit("fuoco");
    reveal_strlit("illusioni");
    reveal_strlit("illusioni visive");
    reveal_strlit("malattia");
    reveal_strlit("malattie");
    reveal_strlit("maledizioni");
    reveal_strlit("nausea");
    reveal_strlit("paralisi");
    reveal_strlit("paura");
    reveal_strlit("pietrificazione");
    reveal_strlit("possessione");
    reveal_strlit("ruggine");
    reveal_strlit("sanguinamento");
    reveal_strlit("sonno");
    reveal_strlit("sonoro");
    reveal_strlit("sordità");
    reveal_strlit("stordimento");
    reveal_strlit("veleni");
    reveal_strlit("veleno");
    assert("Abbagliamenti"@.len() == 13);
    assert("Abbagliamento"@.len() == 13);
    assert("Abbagliato"@.len() == 10);
    assert("Accecato"@.len() == 8);
    assert("Acido"@.len() == 5);
    assert("Affaticamento"@.len() == 13);
    assert("Affaticato"@.len() == 10);
    assert("Ammaliamento"@.len() == 12);
    assert("Armi Taglienti"@.len() == 14);
    assert("Armi contundenti"@.len() == 16);
    assert("Assorbimento del Fuoco"@.len() == 22);
    assert("Attacchi Furtivi"@.len() == 16);
    assert("Attacchi ai Fianchi"@.len() == 19);
    assert("Attacchi basati sull'olfatto"@.len() == 28);
    assert("Attacchi basati sulla vista"@.len() == 27);
    assert("Attacchi basati sulla vista o sguardo"@.len() == 37);
    assert("Attacchi con Sguardo"@.len() == 20);
    assert("Attacchi con lo sguardo"@.len() == 23);
    assert("Attacchi dipendenti dalla vista"@.len() == 31);
    assert("Barcollante"@.len() == 11);
    assert("Barcollare"@.len() == 10);
    assert("Cecità"@.len() == 6);
    assert("Charme"@.len() == 6);
    assert("Colpi Critici"@.len() == 13);
    assert("Colpi critici"@.len() == 13);
    assert("Condizione Affaticato"@.len() == 21);
    assert("Condizione Esausto"@.len() == 18);
    assert("Confusione"@.len() == 10);
    assert("Danni Non Letali"@.len() == 16);
    assert("Danni contundenti"@.len() == 17);
    assert("Danni da arma"@.len() == 13);
    assert("Danni da armi"@.len() == 13);
    assert("Danni dalle Armi"@.len() == 16);
    assert("Danni perforanti e taglienti"@.len() == 28);
    assert("Danno da Pressione"@.len() == 18);
    assert("Danno da arma"@.len() == 13);
    assert("Danno non letale"@.len() == 16);
    assert("Divinazione"@.len() == 11);
    assert("Effetti d'influenza mentale"@.len() == 27);
    assert("Effetti di Charme e Compulsione"@.len() == 31);
    assert("Effetti di Influenza Mentale"@.len() == 28);
    assert("Effetti di Morte"@.len() == 16);
    assert("Effetti di Paura"@.len() == 16);
    assert("Effetti di Sonno"@.len() == 16);
    assert("Effetti di charme"@.len() == 17);
    assert("Effetti di charme e compulsioni"@.len() == 31);
    assert("Effetti di influenza mentale"@.len() == 28);
    assert("Effetti di morte"@.len() == 16);
    assert("Effetti di morte (vedi sotto)"@.len() == 29);
    assert("Effetti di paura"@.len() == 16);
    assert("Effetti di sonno"@.len() == 16);
    assert("Elettricità"@.len() == 11);
    assert("Elettricità (parziale)"@.len() == 22);
    assert("Energia Negativa"@.len() == 16);
    assert("Energia Positiva"@.len() == 16);
    assert("Esaurimento"@.len() == 11);
    assert("Esausto"@.len() == 7);
    assert("Fatica"@.len() == 6);
    assert("Fiancheggiamento"@.len() == 16);
    assert("Frastornamento"@.len() == 14);
    assert("Frastornato"@.len() == 11);
    assert("Freddo"@.len() == 6);
    assert("Freddo (sé stesso e chi lo cavalca)"@.len() == 35);
    assert("Fuoco"@.len() == 5);
    assert("Fuoco Infernale"@.len() == 15);
    assert("Illusione"@.len() == 9);
    assert("Immunità al Freddo"@.len() == 18);
    assert("Immunità alla Magia"@.len() == 19);
    assert("Infermità"@.len() == 9);
    assert("Infermo"@.len() == 7);
    assert("Magia"@.len() == 5);
    assert("Malattia"@.len() == 8);
    assert("Malattie"@.len() == 8);
    assert("Maledizioni"@.len() == 11);
    assert("Nausea"@.len() == 6);
    assert("Nauseato"@.len() == 8);
    assert("Non Deformante"@.len() == 14);
    assert("Paralisi"@.len() == 8);
    assert("Paura"@.len() == 5);
    assert("Pietrificazione"@.len() == 15);
    assert("Sanguinamento"@.len() == 13);
    assert("Sanguinamento (solo Punti Ferita)"@.len() == 33);
    assert("Scosso"@.len() == 6);
    assert("Sguardo"@.len() == 7);
    assert("Sonno"@.len() == 5);
    assert("Sonoro"@.len() == 6);
    assert("Sordità"@.len() == 7);
    assert("Spaventato"@.len() == 10);
    assert("Stordimento"@.len() == 11);
    assert("Veleni"@.len() == 6);
    assert("Veleno"@.len() == 6);
    assert("Veleno Ingerito"@.len() == 15);
    assert("acido"@.len() == 5);
    assert("attacchi con Sguardo"@.len() == 20);
    assert("attacchi con lo Sguardo"@.len() == 23);
    assert("attacchi con lo sguardo"@.len() == 23);
    assert("charme"@.len() == 6);
    assert("compulsione"@.len() == 11);
    assert("controllo mentale"@.len() == 17);
    assert("contundente"@.len() == 11);
    assert("da caduta e da schiacciamento"@.len() == 29);
    assert("danni contundenti"@.len() == 17);
    assert("danni contundenti e perforanti"@.len() == 30);
    assert("danni da arma"@.len() == 13);
    assert("danni da armi"@.len() == 13);
    assert("danni da precisione"@.len() == 19);
    assert("danni delle armi"@.len() == 16);
    assert("danni di precisione"@.len() == 19);
    assert("danni perforanti"@.len() == 16);
    assert("danni taglienti"@.len() == 15);
    assert("danni taglienti e perforanti"@.len() == 28);
    assert("danno da arma"@.len() == 13);
    assert("danno di precisione"@.len() == 19);
    assert("di influenza mentale e basati sullo Sguardo"@.len() == 43);
    assert("divinazione"@.len() == 11);
    assert("effetti Barcollanti"@.len() == 19);
    assert("effetti di Charme e Compulsione"@.len() == 31);
    assert("effetti di Paura"@.len() == 16);
    assert("effetti di Paura ed influenza mentale"@.len() == 37);
    assert("effetti di Sonno"@.len() == 16);
    assert("effetti di ammaliamento"@.len() == 23);
    assert("effetti di charme"@.len() == 17);
    assert("effetti di charme e compulsione"@.len() == 31);
    assert("effetti di charme e compulsioni"@.len() == 31);
    assert("effetti di compulsione"@.len() == 22);
    assert("effetti di influenza mentale"@.len() == 28);
    assert("effetti di influenza mentale e visivi"@.len() == 37);
    assert("effetti di maledizione"@.len() == 22);
    assert("effetti di maledizioni"@.len() == 22);
    assert("effetti di morte"@.len() == 16);
    assert("effetti di paura"@.len() == 16);
    assert("effetti di sonno"@.len() == 16);
    assert("elettricità"@.len() == 11);
    assert("energia negativa"@.len() == 16);
    assert("ferite permanenti"@.len() == 17);
    assert("freddo"@.len() == 6);
    assert("fuoco"@.len() == 5);
    assert("illusioni"@.len() == 9);
    assert("illusioni visive"@.len() == 16);
    assert("malattia"@.len() == 8);
    assert("malattie"@.len() == 8);
    assert("maledizioni"@.len() == 11);
    assert("nausea"@.len() == 6);
    assert("paralisi"@.len() == 8);
    assert("paura"@.len() == 5);
    assert("pietrificazione"@.len() == 15);
    assert("possessione"@.len() == 11);
    assert("ruggine"@.len() == 7);
    assert("sanguinamento"@.len() == 13);
    assert("sonno"@.len() == 5);
    assert("sonoro"@.len() == 6);
    assert("sordità"@.len() == 7);
    assert("stordimento"@.len() == 11);
    assert("veleni"@.len() == 6);
    assert("veleno"@.len() == 6);
    assert("illusioni visive"@[0] != "Energia Negativa"@[0]);
    assert("illusioni visive"@ != "Energia Negativa"@);
    assert("illusioni visive"@[0] != "energia negativa"@[0]);
    assert("illusioni visive"@ != "energia negativa"@);
    assert("illusioni visive"@[0] != "Energia Positiva"@[0]);
    assert("illusioni visive"@ != "Energia Positiva"@);
    assert("illusioni visive"@[0] != "energia negativa"@[0]);
    assert("illusioni visive"@ != "energia negativa"@);
    assert("illusioni visive"@[0] != "effetti di sonno"@[0]);
    assert("illusioni visive"@ != "effetti di sonno"@);
    assert("illusioni visive"@[0] != "Effetti di Sonno"@[0]);
    assert("illusioni visive"@ != "Effetti di Sonno"@);
    assert("illusioni visive"@[0] != "Effetti di sonno"@[0]);
    assert("illusioni visive"@ != "Effetti di sonno"@);
    assert("illusioni visive"@[0] != "effetti di Sonno"@[0]);
    assert("illusioni visive"@ != "effetti di Sonno"@);
    assert("illusioni visive"@[0] != "Effetti di Paura"@[0]);
    assert("illusioni visive"@ != "Effetti di Paura"@);
    assert("illusioni visive"@[0] != "effetti di Paura"@[0]);
    assert("illusioni visive"@ != "effetti di Paura"@);
    assert("illusioni visive"@[0] != "effetti di paura"@[0]);
    assert("illusioni visive"@ != "effetti di paura"@);
    assert("illusioni visive"@[0] != "Effetti di paura"@[0]);
    assert("illusioni visive"@ != "Effetti di paura"@);
    assert("illusioni visive"@[0] != "Attacchi Furtivi"@[0]);
    assert("illusioni visive"@ != "Attacchi Furtivi"@);
    assert("illusioni visive"@[0] != "danni delle armi"@[0]);
    assert("illusioni visive"@ != "danni delle armi"@);
    assert("illusioni visive"@[0] != "Danni dalle Armi"@[0]);
    assert("illusioni visive"@ != "Danni dalle Armi"@);
    assert("illusioni visive"@[0] != "Armi contundenti"@[0]);
    assert("illusioni visive"@ != "Armi contundenti"@);
    assert("illusioni visive"@[0] != "danni perforanti"@[0]);
    assert("illusioni visive"@ != "danni perforanti"@);
    assert("illusioni visive"@[0] != "Fiancheggiamento"@[0]);
    assert("illusioni visive"@ != "Fiancheggiamento"@);
    assert("illusioni visive"@[0] != "Danni Non Letali"@[0]);
    assert("illusioni visive"@ != "Danni Non Letali"@);
    assert("illusioni visive"@[0] != "Danno non letale"@[0]);
    assert("illusioni visive"@ != "Danno non letale"@);
    assert("illusioni visive"@[0] != "Effetti di morte"@[0]);
    assert("illusioni visive"@ != "Effetti di morte"@);
    assert("illusioni visive"@[0] != "Effetti di Morte"@[0]);
    assert("illusioni visive"@ != "Effetti di Morte"@);
    assert("illusioni visive"@[0] != "effetti di morte"@[0]);
    assert("illusioni visive"@ != "effetti di morte"@);
}

proof fn lemma_read_immunity_gazeeffects(s: Seq<char>)
    requires
        immunity_named(Immunity_Type::Immunity_GazeEffects, s),
    ensures
        spec_single_immunity(s) == Some(Immunity_Type::Immunity_GazeEffects),
{
    reveal_strlit("Abbagliamenti");
    reveal_strlit("Abbagliamento");
    reveal_strlit("Abbagliato");
    reveal_strlit("Accecato");
    reveal_strlit("Acido");
    reveal_strlit("Affaticamento");
    reveal_strlit("Affaticato");
    reveal_strlit("Ammaliamento");
    reveal_strlit("Armi Taglienti");
    reveal_strlit("Armi contundenti");
    reveal_strlit("Assorbimento del Fuoco");
    reveal_strlit("Attacchi Furtivi");
    reveal_strlit("Attacchi ai Fianchi");
    reveal_strlit("Attacchi basati sull'olfatto");
    reveal_strlit("Attacchi basati sulla vista");
    reveal_strlit("Attacchi basati sulla vista o sguardo");
    reveal_strlit("Attacchi con Sguardo");
    reveal_strlit("Attacchi con lo sguardo");
    reveal_strlit("Attacchi dipendenti dalla vista");
    reveal_strlit("Barcollante");
    reveal_strlit("Barcollare");
    reveal_strlit("Cecità");
    reveal_strlit("Charme");
    reveal_strlit("Colpi Critici");
    reveal_strlit("Colpi critici");
    reveal_strlit("Condizione Affaticato");
    reveal_strlit("Condizione Esausto");
    reveal_strlit("Confusione");
    reveal_strlit("Danni Non Letali");
    reveal_strlit("Danni contundenti");
    reveal_strlit("Danni da arma");
    reveal_strlit("Danni da armi");
    reveal_strlit("Danni dalle Armi");
    reveal_strlit("Danni perforanti e taglienti");
    reveal_strlit("Danno da Pressione");
    reveal_strlit("Danno da arma");
    reveal_strlit("Danno non letale");
    reveal_strlit("Divinazione");
    reveal_strlit("Effetti basati sulla vista");
    reveal_strlit("Effetti d'influenza mentale");
    reveal_strlit("Effetti di Charme e Compulsione");
    reveal_strlit("Effetti di Influenza Mentale");
    reveal_strlit("Effetti di Morte");
    reveal_strlit("Effetti di Paura");
    reveal_strlit("Effetti di Sonno");
    reveal_strlit("Effetti di charme");
    reveal_strlit("Effetti di charme e compulsioni");
    reveal_strlit("Effetti di influenza mentale");
    reveal_strlit("Effetti di morte");
    reveal_strlit("Effetti di morte (vedi sotto)");
    reveal_strlit("Effetti di paura");
    reveal_strlit("Effetti di sonno");
    reveal_strlit("Effetti visivi");
    reveal_strlit("Elettricità");
    reveal_strlit("Elettricità (parziale)");
    reveal_strlit("Energia Negativa");
    reveal_strlit("Energia Positiva");
    reveal_strlit("Esaurimento");
    reveal_strlit("Esausto");
    reveal_strlit("Fatica");
    reveal_strlit("Fiancheggiamento");
    reveal_strlit("Frastornamento");
    reveal_strlit("Frastornato");
    reveal_strlit("Freddo");
    reveal_strlit("Freddo (sé stesso e chi lo cavalca)");
    reveal_strlit("Fuoco");
    reveal_strlit("Fuoco Infernale");
    reveal_strlit("Illusione");
    reveal_strlit("Immunità al Freddo");
    reveal_strlit("Immunità alla Magia");
    reveal_strlit("Infermità");
    reveal_strlit("Infermo");
    reveal_strlit("Magia");
    reveal_strlit("Malattia");
    reveal_strlit("Malattie");
    reveal_strlit("Maledizioni");
    reveal_strlit("Nausea");
    reveal_strlit("Nauseato");
    reveal_strlit("Non Deformante");
    reveal_strlit("Paralisi");
    reveal_strlit("Paura");
    reveal_strlit("Pietrificazione");
    reveal_strlit("Sanguinamento");
    reveal_strlit("Sanguinamento (solo Punti Ferita)");
    reveal_strlit("Scosso");
    reveal_strlit("Sguardo");
    reveal_strlit("Sonno");
    reveal_strlit("Sonoro");
    reveal_strlit("Sordità");
    reveal_strlit("Spaventato");
    reveal_strlit("Stordimento");
    reveal_strlit("Veleni");
    reveal_strlit("Veleno");
    reveal_strlit("Veleno Ingerito");
    reveal_strlit("acido");
    reveal_strlit("attacchi basati sulla vista ed effetti visivi");
    reveal_strlit("attacchi con Sguardo");
    reveal_strlit("attacchi con lo Sguardo");
    reveal_strlit("attacchi con lo sguardo");
    reveal_strlit("charme");
    reveal_strlit("compulsione");
    reveal_strlit("controllo mentale");
    reveal_strlit("contundente");
    reveal_strlit("da caduta e da schiacciamento");
    reveal_strlit("danni contundenti");
    reveal_strlit("danni contundenti e perforanti");
    reveal_strlit("danni da arma");
    reveal_strlit("danni da armi");
    reveal_strlit("danni da precisione");
    reveal_strlit("danni delle armi");
    reveal_strlit("danni di precisione");
    reveal_strlit("danni perforanti");
    reveal_strlit("danni taglienti");
    reveal_strlit("danni taglienti e perforanti");
    reveal_strlit("danno da arma");
    reveal_strlit("danno di precisione");
    reveal_strlit("di influenza mentale e basati sullo Sguardo");
    reveal_strlit("divinazione");
    reveal_strlit("effetti Barcollanti");
    reveal_strlit("effetti basati sulla vista");
    reveal_strlit("effetti di Charme e Compulsione");
    reveal_strlit("effetti di Paura");
    reveal_strlit("effetti di Paura ed influenza mentale");
    reveal_strlit("effetti di Sguardo");
    reveal_strlit("effetti di Sonno");
    reveal_strlit("effetti di ammaliamento");
    reveal_strlit("effetti di charme");
    reveal_strlit("effetti di charme e compulsione");
    reveal_strlit("effetti di charme e compulsioni");
    reveal_strlit("effetti di compulsione");
    reveal_strlit("effetti di influenza mentale");
    reveal_strlit("effetti di influenza mentale e visivi");
    reveal_strlit("effetti di maledizione");
    reveal_strlit("effetti di maledizioni");
    reveal_strlit("effetti di morte");
    reveal_strlit("effetti di paura");
    reveal_strlit("effetti di sguardo");
    reveal_strlit("effetti di sonno");
    reveal_strlit("effetti visivi");
    reveal_strlit("elettricità");
    reveal_strlit("energia negativa");
    reveal_strlit("ferite permanenti");
    reveal_strlit("freddo");
    reveal_strlit("fuoco");
    reveal_strlit("illusioni");
    reveal_strlit("illusioni visive");
    reveal_strlit("malattia");
    reveal_strlit("malattie");
    reveal_strlit("maledizioni");
    reveal_strlit("nausea");
    reveal_strlit("paralisi");
    reveal_strlit("paura");
    reveal_strlit("pietrificazione");
    reveal_strlit("possessione");
    reveal_strlit("ruggine");
    reveal_strlit("sanguinamento");
    reveal_strlit("sonno");
    reveal_strlit("sonoro");
    reveal_strlit("sordità");
    reveal_strlit("stordimento");
    reveal_strlit("veleni");
    reveal_strlit("veleno");
    assert("Abbagliamenti"@.len() == 13);
    assert("Abbagliamento"@.len() == 13);
    assert("Abbagliato"@.len() == 10);
    assert("Accecato"@.len() == 8);
    assert("Acido"@.len() == 5);
    assert("Affaticamento"@.len() == 13);
    assert("Affaticato"@.len() == 10);
    assert("Ammaliamento"@.len() == 12);
    assert("Armi Taglienti"@.len() == 14);
    assert("Armi contundenti"@.len() == 16);
    assert("Assorbimento del Fuoco"@.len() == 22);
    assert("Attacchi Furtivi"@.len() == 16);
    assert("Attacchi ai Fianchi"@.len() == 19);
    assert("Attacchi basati sull'olfatto"@.len() == 28);
    assert("Attacchi basati sulla vista"@.len() == 27);
    assert("Attacchi basati sulla vista o sguardo"@.len() == 37);
    assert("Attacchi con Sguardo"@.len() == 20);
    assert("Attacchi con lo sguardo"@.len() == 23);
    assert("Attacchi dipendenti dalla vista"@.len() == 31);
    assert("Barcollante"@.len() == 11);
    assert("Barcollare"@.len() == 10);
    assert("Cecità"@.len() == 6);
    assert("Charme"@.len() == 6);
    assert("Colpi Critici"@.len() == 13);
    assert("Colpi critici"@.len() == 13);
    assert("Condizione Affaticato"@.len() == 21);
    assert("Condizione Esausto"@.len() == 18);
    assert("Confusione"@.len() == 10);
    assert("Danni Non Letali"@.len() == 16);
    assert("Danni contundenti"@.len() == 17);
    assert("Danni da arma"@.len() == 13);
    assert("Danni da armi"@.len() == 13);
    assert("Danni dalle Armi"@.len() == 16);
    assert("Danni perforanti e taglienti"@.len() == 28);
    assert("Danno da Pressione"@.len() == 18);
    assert("Danno da arma"@.len() == 13);
    assert("Danno non letale"@.len() == 16);
    assert("Divinazione"@.len() == 11);
    assert("Effetti basati sulla vista"@.len() == 26);
    assert("Effetti d'influenza mentale"@.len() == 27);
    assert("Effetti di Charme e Compulsione"@.len() == 31);
    assert("Effetti di Influenza Mentale"@.len() == 28);
    assert("Effetti di Morte"@.len() == 16);
    assert("Effetti di Paura"@.len() == 16);
    assert("Effetti di Sonno"@.len() == 16);
    assert("Effetti di charme"@.len() == 17);
    assert("Effetti di charme e compulsioni"@.len() == 31);
    assert("Effetti di influenza mentale"@.len() == 28);
    assert("Effetti di morte"@.len() == 16);
    assert("Effetti di morte (vedi sotto)"@.len() == 29);
    assert("Effetti di paura"@.len() == 16);
    assert("Effetti di sonno"@.len() == 16);
    assert("Effetti visivi"@.len() == 14);
    assert("Elettricità"@.len() == 11);
    assert("Elettricità (parziale)"@.len() == 22);
    assert("Energia Negativa"@.len() == 16);
    assert("Energia Positiva"@.len() == 16);
    assert("Esaurimento"@.len() == 11);
    assert("Esausto"@.len() == 7);
    assert("Fatica"@.len() == 6);
    assert("Fiancheggiamento"@.len() == 16);
    assert("Frastornamento"@.len() == 14);
    assert("Frastornato"@.len() == 11);
    assert("Freddo"@.len() == 6);
    assert("Freddo (sé stesso e chi lo cavalca)"@.len() == 35);
    assert("Fuoco"@.len() == 5);
    assert("Fuoco Infernale"@.len() == 15);
    assert("Illusione"@.len() == 9);
    assert("Immunità al Freddo"@.len() == 18);
    assert("Immunità alla Magia"@.len() == 19);
    assert("Infermità"@.len() == 9);
    assert("Infermo"@.len() == 7);
    assert("Magia"@.len() == 5);
    assert("Malattia"@.len() == 8);
    assert("Malattie"@.len() == 8);
    assert("Maledizioni"@.len() == 11);
    assert("Nausea"@.len() == 6);
    assert("Nauseato"@.len() == 8);
    assert("Non Deformante"@.len() == 14);
    assert("Paralisi"@.len() == 8);
    assert("Paura"@.len() == 5);
    assert("Pietrificazione"@.len() == 15);
    assert("Sanguinamento"@.len() == 13);
    assert("Sanguinamento (solo Punti Ferita)"@.len() == 33);
    assert("Scosso"@.len() == 6);
    assert("Sguardo"@.len() == 7);
    assert("Sonno"@.len() == 5);
    assert("Sonoro"@.len() == 6);
    assert("Sordità"@.len() == 7);
    assert("Spaventato"@.len() == 10);
    assert("Stordimento"@.len() == 11);
    assert("Veleni"@.len() == 6);
    assert("Veleno"@.len() == 6);
    assert("Veleno Ingerito"@.len() == 15);
    assert("acido"@.len() == 5);
    assert("attacchi basati sulla vista ed effetti visivi"@.len() == 45);
    assert("attacchi con Sguardo"@.len() == 20);
    assert("attacchi con lo Sguardo"@.len() == 23);
    assert("attacchi con lo sguardo"@.len() == 23);
    assert("charme"@.len() == 6);
    assert("compulsione"@.len() == 11);
    assert("controllo mentale"@.len() == 17);
    assert("contundente"@.len() == 11);
    assert("da caduta e da schiacciamento"@.len() == 29);
    assert("danni contundenti"@.len() == 17);
    assert("danni contundenti e perforanti"@.len() == 30);
    assert("danni da arma"@.len() == 13);
    assert("danni da armi"@.len() == 13);
    assert("danni da precisione"@.len() == 19);
    assert("danni delle armi"@.len() == 16);
    assert("danni di precisione"@.len() == 19);
    assert("danni perforanti"@.len() == 16);
    assert("danni taglienti"@.len() == 15);
    assert("danni taglienti e perforanti"@.len() == 28);
    assert("danno da arma"@.len() == 13);
    assert("danno di precisione"@.len() == 19);
    assert("di influenza mentale e basati sullo Sguardo"@.len() == 43);
    assert("divinazione"@.len() == 11);
    assert("effetti Barcollanti"@.len() == 19);
    assert("effetti basati sulla vista"@.len() == 26);
    assert("effetti di Charme e Compulsione"@.len() == 31);
    assert("effetti di Paura"@.len() == 16);
    assert("effetti di Paura ed influenza mentale"@.len() == 37);
    assert("effetti di Sguardo"@.len() == 18);
    assert("effetti di Sonno"@.len() == 16);
    assert("effetti di ammaliamento"@.len() == 23);
    assert("effetti di charme"@.len() == 17);
    assert("effetti di charme e compulsione"@.len() == 31);
    assert("effetti di charme e compulsioni"@.len() == 31);
    assert("effetti di compulsione"@.len() == 22);
    assert("effetti di influenza mentale"@.len() == 28);
    assert("effetti di influenza mentale e visivi"@.len() == 37);
    assert("effetti di maledizione"@.len() == 22);
    assert("effetti di maledizioni"@.len() == 22);
    assert("effetti di morte"@.len() == 16);
    assert("effetti di paura"@.len() == 16);
    assert("effetti di sguardo"@.len() == 18);
    assert("effetti di sonno"@.len() == 16);
    assert("effetti visivi"@.len() == 14);
    assert("elettricità"@.len() == 11);
    assert("energia negativa"@.len() == 16);
    assert("ferite permanenti"@.len() == 17);
    assert("freddo"@.len() == 6);
    assert("fuoco"@.len() == 5);
    assert("illusioni"@.len() == 9);
    assert("illusioni visive"@.len() == 16);
    assert("malattia"@.len() == 8);
    assert("malattie"@.len() == 8);
    assert("maledizioni"@.len() == 11);
    assert("nausea"@.len() == 6);
    assert("paralisi"@.len() == 8);
    assert("paura"@.len() == 5);
    assert("pietrificazione"@.len() == 15);
    assert("possessione"@.len() == 11);
    assert("ruggine"@.len() == 7);
    assert("sanguinamento"@.len() == 13);
    assert("sonno"@.len() == 5);
    assert("sonoro"@.len() == 6);
    assert("sordità"@.len() == 7);
    assert("stordimento"@.len() == 11);
    assert("veleni"@.len() == 6);
    assert("veleno"@.len() == 6);
    assert("effetti visivi"@[0] != "Frastornamento"@[0]);
    assert("effetti visivi"@ != "Frastornamento"@);
    assert("effetti visivi"@[0] != "Armi Taglienti"@[0]);
    assert("effetti visivi"@ != "Armi Taglienti"@);
    assert("effetti visivi"@[0] != "Non Deformante"@[0]);
    assert("effetti visivi"@ != "Non Deformante"@);
    assert("Effetti basati sulla vista"@[0] != "effetti basati sulla vista"@[0]);
    assert("Effetti basati sulla vista"@ != "effetti basati sulla vista"@);
    assert("effetti di Sguardo"@[0] != "Immunità al Freddo"@[0]);
    assert("effetti di Sguardo"@ != "Immunità al Freddo"@);
    assert("effetti di Sguardo"@[0] != "Condizione Esausto"@[0]);
    assert("effetti di Sguardo"@ != "Condizione Esausto"@);
    assert("effetti di Sguardo"@[0] != "Danno da Pressione"@[0]);
    assert("effetti di Sguardo"@ != "Danno da Pressione"@);
    assert("Effetti visivi"@[0] != "Frastornamento"@[0]);
    assert("Effetti visivi"@ != "Frastornamento"@);
    assert("Effetti visivi"@[0] != "Armi Taglienti"@[0]);
    assert("Effetti visivi"@ != "Armi Taglienti"@);
    assert("Effetti visivi"@[0] != "Non Deformante"@[0]);
    assert("Effetti visivi"@ != "Non Deformante"@);
    assert("Effetti visivi"@[0] != "effetti visivi"@[0]);
    assert("Effetti visivi"@ != "effetti visivi"@);
    assert("effetti di sguardo"@[0] != "Immunità al Freddo"@[0]);
    assert("effetti di sguardo"@ != "Immunità al Freddo"@);
    assert("effetti di sguardo"@[0] != "Condizione Esausto"@[0]);
    assert("effetti di sguardo"@ != "Condizione Esausto"@);
    assert("effetti di sguardo"@[0] != "Danno da Pressione"@[0]);
    assert("effetti di sguardo"@ != "Danno da Pressione"@);
    assert("effetti di sguardo"@[11] != "effetti di Sguardo"@[11]);
    assert("effetti di sguardo"@ != "effetti di Sguardo"@);
}

proof fn lemma_read_immunity_gazeandillusioneffects(s: Seq<char>)
    requires
        immunity_named(Immunity_Type::Immunity_GazeAndIllusionEffects, s),
    ensures
        spec_single_immunity(s) == Some(Immunity_Type::Immunity_GazeAndIllusionEffects),
{
    reveal_strlit("Abbagliamenti");
    reveal_strlit("Abbagliamento");
    reveal_strlit("Abbagliato");
    reveal_strlit("Accecato");
    reveal_strlit("Acido");
    reveal_strlit("Affaticamento");
    reveal_strlit("Affaticato");
    reveal_strlit("Ammaliamento");
    reveal_strlit("Armi Taglienti");
    reveal_strlit("Armi contundenti");
    reveal_strlit("Assorbimento del Fuoco");
    reveal_strlit("Attacchi Furtivi");
    reveal_strlit("Attacchi ai Fianchi");
    reveal_strlit("Attacchi basati sull'olfatto");
    reveal_strlit("Attacchi basati sulla vista");
    reveal_strlit("Attacchi basati sulla vista o sguardo");
    reveal_strlit("Attacchi con Sguardo");
    reveal_strlit("Attacchi con lo sguardo");
    reveal_strlit("Attacchi dipendenti dalla vista");
    reveal_strlit("Barcollante");
    reveal_strlit("Barcollare");
    reveal_strlit("Cecità");
    reveal_strlit("Charme");
    reveal_strlit("Colpi Critici");
    reveal_strlit("Colpi critici");
    reveal_strlit("Condizione Affaticato");
    reveal_strlit("Condizione Esausto");
    reveal_strlit("Confusione");
    reveal_strlit("Danni Non Letali");
    reveal_strlit("Danni contundenti");
    reveal_strlit("Danni da arma");
    reveal_strlit("Danni da armi");
    reveal_strlit("Danni dalle Armi");
    reveal_strlit("Danni perforanti e taglienti");
    reveal_strlit("Danno da Pressione");
    reveal_strlit("Danno da arma");
    reveal_strlit("Danno non letale");
    reveal_strlit("Divinazione");
    reveal_strlit("Effetti basati sulla vista");
    reveal_strlit("Effetti d'influenza mentale");
    reveal_strlit("Effetti di Charme e Compulsione");
    reveal_strlit("Effetti di Influenza Mentale");
    reveal_strlit("Effetti di Morte");
    reveal_strlit("Effetti di Paura");
    reveal_strlit("Effetti di Sonno");
    reveal_strlit("Effetti di charme");
    reveal_strlit("Effetti di charme e compulsioni");
    reveal_strlit("Effetti di influenza mentale");
    reveal_strlit("Effetti di morte");
    reveal_strlit("Effetti di morte (vedi sotto)");
    reveal_strlit("Effetti di paura");
    reveal_strlit("Effetti di sonno");
    reveal_strlit("Effetti visivi");
    reveal_strlit("Elettricità");
    reveal_strlit("Elettricità (parziale)");
    reveal_strlit("Energia Negativa");
    reveal_strlit("Energia Positiva");
    reveal_strlit("Esaurimento");
    reveal_strlit("Esausto");
    reveal_strlit("Fatica");
    reveal_strlit("Fiancheggiamento");
    reveal_strlit("Frastornamento");
    reveal_strlit("Frastornato");
    reveal_strlit("Freddo");
    reveal_strlit("Freddo (sé stesso e chi lo cavalca)");
    reveal_strlit("Fuoco");
    reveal_strlit("Fuoco Infernale");
    reveal_strlit("Illusione");
    reveal_strlit("Illusioni e qualsiasi attacco basato sulla vista");
    reveal_strlit("Immunità al Freddo");
    reveal_strlit("Immunità alla Magia");
    reveal_strlit("Infermità");
    reveal_strlit("Infermo");
    reveal_strlit("Magia");
    reveal_strlit("Malattia");
    reveal_strlit("Malattie");
    reveal_strlit("Maledizioni");
    reveal_strlit("Nausea");
    reveal_strlit("Nauseato");
    reveal_strlit("Non Deformante");
    reveal_strlit("Paralisi");
    reveal_strlit("Paura");
    reveal_strlit("Pietrificazione");
    reveal_strlit("Sanguinamento");
    reveal_strlit("Sanguinamento (solo Punti Ferita)");
    reveal_strlit("Scosso");
    reveal_strlit("Sguardo");
    reveal_strlit("Sonno");
    reveal_strlit("Sonoro");
    reveal_strlit("Sordità");
    reveal_strlit("Spaventato");
    reveal_strlit("Stordimento");
    reveal_strlit("Veleni");
    reveal_strlit("Veleno");
    reveal_strlit("Veleno Ingerito");
    reveal_strlit("acido");
    reveal_strlit("attacchi basati sulla vista ed effetti visivi");
    reveal_strlit("attacchi con Sguardo");
    reveal_strlit("attacchi con lo Sguardo");
    reveal_strlit("attacchi con lo sguardo");
    reveal_strlit("charme");
    reveal_strlit("compulsione");
    reveal_strlit("controllo mentale");
    reveal_strlit("contundente");
    reveal_strlit("da caduta e da schiacciamento");
    reveal_strlit("danni contundenti");
    reveal_strlit("danni contundenti e perforanti");
    reveal_strlit("danni da arma");
    reveal_strlit("danni da armi");
    reveal_strlit("danni da precisione");
    reveal_strlit("danni delle armi");
    reveal_strlit("danni di precisione");
    reveal_strlit("danni perforanti");
    reveal_strlit("danni taglienti");
    reveal_strlit("danni taglienti e perforanti");
    reveal_strlit("danno da arma");
    reveal_strlit("danno di precisione");
    reveal_strlit("di influenza mentale e basati sullo Sguardo");
    reveal_strlit("divinazione");
    reveal_strlit("effetti Barcollanti");
    reveal_strlit("effetti basati sulla vista");
    reveal_strlit("effetti di Charme e Compulsione");
    reveal_strlit("effetti di Paura");
    reveal_strlit("effetti di Paura ed influenza mentale");
    reveal_strlit("effetti di Sguardo");
    reveal_strlit("effetti di Sonno");
    reveal_strlit("effetti di ammaliamento");
    reveal_strlit("effetti di charme");
    reveal_strlit("effetti di charme e compulsione");
    reveal_strlit("effetti di charme e compulsioni");
    reveal_strlit("effetti di compulsione");
    reveal_strlit("effetti di influenza mentale");
    reveal_strlit("effetti di influenza mentale e visivi");
    reveal_strlit("effetti di maledizione");
    reveal_strlit("effetti di maledizioni");
    reveal_strlit("effetti di morte");
    reveal_strlit("effetti di paura");
    reveal_strlit("effetti di sguardo");
    reveal_strlit("effetti di sonno");
    reveal_strlit("effetti e illusioni visive");
    reveal_strlit("effetti visivi");
    reveal_strlit("effetti visivi e illusioni");
    reveal_strlit("elettricità");
    reveal_strlit("energia negativa");
    reveal_strlit("ferite permanenti");
    reveal_strlit("freddo");
    reveal_strlit("fuoco");
    reveal_strlit("illusioni");
    reveal_strlit("illusioni visive");
    reveal_strlit("malattia");
    reveal_strlit("malattie");
    reveal_strlit("maledizioni");
    reveal_strlit("nausea");
    reveal_strlit("paralisi");
    reveal_strlit("paura");
    reveal_strlit("pietrificazione");
    reveal_strlit("possessione");
    reveal_strlit("ruggine");
    reveal_strlit("sanguinamento");
    reveal_strlit("sonno");
    reveal_strlit("sonoro");
    reveal_strlit("sordità");
    reveal_strlit("stordimento");
    reveal_strlit("veleni");
    reveal_strlit("veleno");
    reveal_strlit("visivi ed illusori");
    assert("Abbagliamenti"@.len() == 13);
    assert("Abbagliamento"@.len() == 13);
    assert("Abbagliato"@.len() == 10);
    assert("Accecato"@.len() == 8);
    assert("Acido"@.len() == 5);
    assert("Affaticamento"@.len() == 13);
    assert("Affaticato"@.len() == 10);
    assert("Ammaliamento"@.len() == 12);
    assert("Armi Taglienti"@.len() == 14);
    assert("Armi contundenti"@.len() == 16);
    assert("Assorbimento del Fuoco"@.len() == 22);
    assert("Attacchi Furtivi"@.len() == 16);
    assert("Attacchi ai Fianchi"@.len() == 19);
    assert("Attacchi basati sull'olfatto"@.len() == 28);
    assert("Attacchi basati sulla vista"@.len() == 27);
    assert("Attacchi basati sulla vista o sguardo"@.len() == 37);
    assert("Attacchi con Sguardo"@.len() == 20);
    assert("Attacchi con lo sguardo"@.len() == 23);
    assert("Attacchi dipendenti dalla vista"@.len() == 31);
    assert("Barcollante"@.len() == 11);
    assert("Barcollare"@.len() == 10);
    assert("Cecità"@.len() == 6);
    assert("Charme"@.len() == 6);
    assert("Colpi Critici"@.len() == 13);
    assert("Colpi critici"@.len() == 13);
    assert("Condizione Affaticato"@.len() == 21);
    assert("Condizione Esausto"@.len() == 18);
    assert("Confusione"@.len() == 10);
    assert("Danni Non Letali"@.len() == 16);
    assert("Danni contundenti"@.len() == 17);
    assert("Danni da arma"@.len() == 13);
    assert("Danni da armi"@.len() == 13);
    assert("Danni dalle Armi"@.len() == 16);
    assert("Danni perforanti e taglienti"@.len() == 28);
    assert("Danno da Pressione"@.len() == 18);
    assert("Danno da arma"@.len() == 13);
    assert("Danno non letale"@.len() == 16);
    assert("Divinazione"@.len() == 11);
    assert("Effetti basati sulla vista"@.len() == 26);
    assert("Effetti d'influenza mentale"@.len() == 27);
    assert("Effetti di Charme e Compulsione"@.len() == 31);
    assert("Effetti di Influenza Mentale"@.len() == 28);
    assert("Effetti di Morte"@.len() == 16);
    assert("Effetti di Paura"@.len() == 16);
    assert("Effetti di Sonno"@.len() == 16);
    assert("Effetti di charme"@.len() == 17);
    assert("Effetti di charme e compulsioni"@.len() == 31);
    assert("Effetti di influenza mentale"@.len() == 28);
    assert("Effetti di morte"@.len() == 16);
    assert("Effetti di morte (vedi sotto)"@.len() == 29);
    assert("Effetti di paura"@.len() == 16);
    assert("Effetti di sonno"@.len() == 16);
    assert("Effetti visivi"@.len() == 14);
    assert("Elettricità"@.len() == 11);
    assert("Elettricità (parziale)"@.len() == 22);
    assert("Energia Negativa"@.len() == 16);
    assert("Energia Positiva"@.len() == 16);
    assert("Esaurimento"@.len() == 11);
    assert("Esausto"@.len() == 7);
    assert("Fatica"@.len() == 6);
    assert("Fiancheggiamento"@.len() == 16);
    assert("Frastornamento"@.len() == 14);
    assert("Frastornato"@.len() == 11);
    assert("Freddo"@.len() == 6);
    assert("Freddo (sé stesso e chi lo cavalca)"@.len() == 35);
    assert("Fuoco"@.len() == 5);
    assert("Fuoco Infernale"@.len() == 15);
    assert("Illusione"@.len() == 9);
    assert("Illusioni e qualsiasi attacco basato sulla vista"@.len() == 48);
    assert("Immunità al Freddo"@.len() == 18);
    assert("Immunità alla Magia"@.len() == 19);
    assert("Infermità"@.len() == 9);
    assert("Infermo"@.len() == 7);
    assert("Magia"@.len() == 5);
    assert("Malattia"@.len() == 8);
    assert("Malattie"@.len() == 8);
    assert("Maledizioni"@.len() == 11);
    assert("Nausea"@.len() == 6);
    assert("Nauseato"@.len() == 8);
    assert("Non Deformante"@.len() == 14);
    assert("Paralisi"@.len() == 8);
    assert("Paura"@.len() == 5);
    assert("Pietrificazione"@.len() == 15);
    assert("Sanguinamento"@.len() == 13);
    assert("Sanguinamento (solo Punti Ferita)"@.len() == 33);
    assert("Scosso"@.len() == 6);
    assert("Sguardo"@.len() == 7);
    assert("Sonno"@.len() == 5);
    assert("Sonoro"@.len() == 6);
    assert("Sordità"@.len() == 7);
    assert("Spaventato"@.len() == 10);
    assert("Stordimento"@.len() == 11);
    assert("Veleni"@.len() == 6);
    assert("Veleno"@.len() == 6);
    assert("Veleno Ingerito"@.len() == 15);
    assert("acido"@.len() == 5);
    assert("attacchi basati sulla vista ed effetti visivi"@.len() == 45);
    assert("attacchi con Sguardo"@.len() == 20);
    assert("attacchi con lo Sguardo"@.len() == 23);
    assert("attacchi con lo sguardo"@.len() == 23);
    assert("charme"@.len() == 6);
    assert("compulsione"@.len() == 11);
    assert("controllo mentale"@.len() == 17);
    assert("contundente"@.len() == 11);
    assert("da caduta e da schiacciamento"@.len() == 29);
    assert("danni contundenti"@.len() == 17);
    assert("danni contundenti e perforanti"@.len() == 30);
    assert("danni da arma"@.len() == 13);
    assert("danni da armi"@.len() == 13);
    assert("danni da precisione"@.len() == 19);
    assert("danni delle armi"@.len() == 16);
    assert("danni di precisione"@.len() == 19);
    assert("danni perforanti"@.len() == 16);
    assert("danni taglienti"@.len() == 15);
    assert("danni taglienti e perforanti"@.len() == 28);
    assert("danno da arma"@.len() == 13);
    assert("danno di precisione"@.len() == 19);
    assert("di influenza mentale e basati sullo Sguardo"@.len() == 43);
    assert("divinazione"@.len() == 11);
    assert("effetti Barcollanti"@.len() == 19);
    assert("effetti basati sulla vista"@.len() == 26);
    assert("effetti di Charme e Compulsione"@.len() == 31);
    assert("effetti di Paura"@.len() == 16);
    assert("effetti di Paura ed influenza mentale"@.len() == 37);
    assert("effetti di Sguardo"@.len() == 18);
    assert("effetti di Sonno"@.len() == 16);
    assert("effetti di ammaliamento"@.len() == 23);
    assert("effetti di charme"@.len() == 17);
    assert("effetti di charme e compulsione"@.len() == 31);
    assert("effetti di charme e compulsioni"@.len() == 31);
    assert("effetti di compulsione"@.len() == 22);
    assert("effetti di influenza mentale"@.len() == 28);
    assert("effetti di influenza mentale e visivi"@.len() == 37);
    assert("effetti di maledizione"@.len() == 22);
    assert("effetti di maledizioni"@.len() == 22);
    assert("effetti di morte"@.len() == 16);
    assert("effetti di paura"@.len() == 16);
    assert("effetti di sguardo"@.len() == 18);
    assert("effetti di sonno"@.len() == 16);
    assert("effetti e illusioni visive"@.len() == 26);
    assert("effetti visivi"@.len() == 14);
    assert("effetti visivi e illusioni"@.len() == 26);
    assert("elettricità"@.len() == 11);
    assert("energia negativa"@.len() == 16);
    assert("ferite permanenti"@.len() == 17);
    assert("freddo"@.len() == 6);
    assert("fuoco"@.len() == 5);
    assert("illusioni"@.len() == 9);
    assert("illusioni visive"@.len() == 16);
    assert("malattia"@.len() == 8);
    assert("malattie"@.len() == 8);
    assert("maledizioni"@.len() == 11);
    assert("nausea"@.len() == 6);
    assert("paralisi"@.len() == 8);
    assert("paura"@.len() == 5);
    assert("pietrificazione"@.len() == 15);
    assert("possessione"@.len() == 11);
    assert("ruggine"@.len() == 7);
    assert("sanguinamento"@.len() == 13);
    assert("sonno"@.len() == 5);
    assert("sonoro"@.len() == 6);
    assert("sordità"@.len() == 7);
    assert("stordimento"@.len() == 11);
    assert("veleni"@.len() == 6);
    assert("veleno"@.len() == 6);
    assert("visivi ed illusori"@.len() == 18);
    assert("effetti visivi e illusioni"@[8] != "effetti basati sulla vista"@[8]);
    assert("effetti visivi e illusioni"@ != "effetti basati sulla vista"@);
    assert("effetti visivi e illusioni"@[0] != "Effetti basati sulla vista"@[0]);
    assert("effetti visivi e illusioni"@ != "Effetti basati sulla vista"@);
    assert("visivi ed illusori"@[0] != "Immunità al Freddo"@[0]);
    assert("visivi ed illusori"@ != "Immunità al Freddo"@);
    assert("visivi ed illusori"@[0] != "Condizione Esausto"@[0]);
    assert("visivi ed illusori"@ != "Condizione Esausto"@);
    assert("visivi ed illusori"@[0] != "Danno da Pressione"@[0]);
    assert("visivi ed illusori"@ != "Danno da Pressione"@);
    assert("visivi ed illusori"@[0] != "effetti di Sguardo"@[0]);
    assert("visivi ed illusori"@ != "effetti di Sguardo"@);
    assert("visivi ed illusori"@[0] != "effetti di sguardo"@[0]);
    assert("visivi ed illusori"@ != "effetti di sguardo"@);
    assert("effetti e illusioni visive"@[8] != "effetti basati sulla vista"@[8]);
    assert("effetti e illusioni visive"@ != "effetti basati sulla vista"@);
    assert("effetti e illusioni visive"@[0] != "Effetti basati sulla vista"@[0]);
    assert("effetti e illusioni visive"@ != "Effetti basati sulla vista"@);
    assert("effetti e illusioni visive"@[8] != "effetti visivi e illusioni"@[8]);
    assert("effetti e illusioni visive"@ != "effetti visivi e illusioni"@);
}

proof fn lemma_read_immunity_metamorphosiseffects(s: Seq<char>)
    requires
        immunity_named(Immunity_Type::Immunity_MetamorphosisEffects, s),
    ensures
        spec_single_immunity(s) == Some(Immunity_Type::Immunity_MetamorphosisEffects),
{
    reveal_strlit("Abbagliamenti");
    reveal_strlit("Abbagliamento");
    reveal_strlit("Abbagliato");
    reveal_strlit("Accecato");
    reveal_strlit("Acido");
    reveal_strlit("Affaticamento");
    reveal_strlit("Affaticato");
    reveal_strlit("Ammaliamento");
    reveal_strlit("Armi Taglienti");
    reveal_strlit("Armi contundenti");
    reveal_strlit("Assorbimento del Fuoco");
    reveal_strlit("Attacchi Furtivi");
    reveal_strlit("Attacchi ai Fianchi");
    reveal_strlit("Attacchi basati sull'olfatto");
    reveal_strlit("Attacchi basati sulla vista");
    reveal_strlit("Attacchi basati sulla vista o sguardo");
    reveal_strlit("Attacchi con Sguardo");
    reveal_strlit("Attacchi con lo sguardo");
    reveal_strlit("Attacchi dipendenti dalla vista");
    reveal_strlit("Barcollante");
    reveal_strlit("Barcollare");
    reveal_strlit("Cecità");
    reveal_strlit("Charme");
    reveal_strlit("Colpi Critici");
    reveal_strlit("Colpi critici");
    reveal_strlit("Condizione Affaticato");
    reveal_strlit("Condizione Esausto");
    reveal_strlit("Confusione");
    reveal_strlit("Danni Non Letali");
    reveal_strlit("Danni contundenti");
    reveal_strlit("Danni da arma");
    reveal_strlit("Danni da armi");
    reveal_strlit("Danni dalle Armi");
    reveal_strlit("Danni perforanti e taglienti");
    reveal_strlit("Danno da Pressione");
    reveal_strlit("Danno da arma");
    reveal_strlit("Danno non letale");
    reveal_strlit("Divinazione");
    reveal_strlit("Effetti basati sulla vista");
    reveal_strlit("Effetti d'influenza mentale");
    reveal_strlit("Effetti di Charme e Compulsione");
    reveal_strlit("Effetti di Influenza Mentale");
    reveal_strlit("Effetti di Morte");
    reveal_strlit("Effetti di Paura");
    reveal_strlit("Effetti di Sonno");
    reveal_strlit("Effetti di charme");
    reveal_strlit("Effetti di charme e compulsioni");
    reveal_strlit("Effetti di influenza mentale");
    reveal_strlit("Effetti di morte");
    reveal_strlit("Effetti di morte (vedi sotto)");
    reveal_strlit("Effetti di paura");
    reveal_strlit("Effetti di sonno");
    reveal_strlit("Effetti visivi");
    reveal_strlit("Elettricità");
    reveal_strlit("Elettricità (parziale)");
    reveal_strlit("Energia Negativa");
    reveal_strlit("Energia Positiva");
    reveal_strlit("Esaurimento");
    reveal_strlit("Esausto");
    reveal_strlit("Fatica");
    reveal_strlit("Fiancheggiamento");
    reveal_strlit("Frastornamento");
    reveal_strlit("Frastornato");
    reveal_strlit("Freddo");
    reveal_strlit("Freddo (sé stesso e chi lo cavalca)");
    reveal_strlit("Fuoco");
    reveal_strlit("Fuoco Infernale");
    reveal_strlit("Illusione");
    reveal_strlit("Illusioni e qualsiasi attacco basato sulla vista");
    reveal_strlit("Immunità al Freddo");
    reveal_strlit("Immunità alla Magia");
    reveal_strlit("Infermità");
    reveal_strlit("Infermo");
    reveal_strlit("Magia");
    reveal_strlit("Malattia");
    reveal_strlit("Malattie");
    reveal_strlit("Maledizioni");
    reveal_strlit("Metamorfosi");
    reveal_strlit("Nausea");
    reveal_strlit("Nauseato");
    reveal_strlit("Non Deformante");
    reveal_strlit("Paralisi");
    reveal_strlit("Paura");
    reveal_strlit("Pietrificazione");
    reveal_strlit("Sanguinamento");
    reveal_strlit("Sanguinamento (solo Punti Ferita)");
    reveal_strlit("Scosso");
    reveal_strlit("Sguardo");
    reveal_strlit("Sonno");
    reveal_strlit("Sonoro");
    reveal_strlit("Sordità");
    reveal_strlit("Spaventato");
    reveal_strlit("Stordimento");
    reveal_strlit("Veleni");
    reveal_strlit("Veleno");
    reveal_strlit("Veleno Ingerito");
    reveal_strlit("acido");
    reveal_strlit("attacchi basati sulla vista ed effetti visivi");
    reveal_strlit("attacchi con Sguardo");
    reveal_strlit("attacchi con lo Sguardo");
    reveal_strlit("attacchi con lo sguardo");
    reveal_strlit("charme");
    reveal_strlit("compulsione");
    reveal_strlit("controllo mentale");
    reveal_strlit("contundente");
    reveal_strlit("da caduta e da schiacciamento");
    reveal_strlit("danni contundenti");
    reveal_strlit("danni contundenti e perforanti");
    reveal_strlit("danni da arma");
    reveal_strlit("danni da armi");
    reveal_strlit("danni da precisione");
    reveal_strlit("danni delle armi");
    reveal_strlit("danni di precisione");
    reveal_strlit("danni perforanti");
    reveal_strlit("danni taglienti");
    reveal_strlit("danni taglienti e perforanti");
    reveal_strlit("danno da arma");
    reveal_strlit("danno di precisione");
    reveal_strlit("di influenza mentale e basati sullo Sguardo");
    reveal_strlit("divinazione");
    reveal_strlit("effetti Barcollanti");
    reveal_strlit("effetti basati sulla vista");
    reveal_strlit("effetti di Charme e Compulsione");
    reveal_strlit("effetti di Metamorfosi");
    reveal_strlit("effetti di Paura");
    reveal_strlit("effetti di Paura ed influenza mentale");
    reveal_strlit("effetti di Sguardo");
    reveal_strlit("effetti di Sonno");
    reveal_strlit("effetti di ammaliamento");
    reveal_strlit("effetti di charme");
    reveal_strlit("effetti di charme e compulsione");
    reveal_strlit("effetti di charme e compulsioni");
    reveal_strlit("effetti di compulsione");
    reveal_strlit("effetti di influenza mentale");
    reveal_strlit("effetti di influenza mentale e visivi");
    reveal_strlit("effetti di maledizione");
    reveal_strlit("effetti di maledizioni");
    reveal_strlit("effetti di metamorfosi");
    reveal_strlit("effetti di morte");
    reveal_strlit("effetti di paura");
    reveal_strlit("effetti di sguardo");
    reveal_strlit("effetti di sonno");
    reveal_strlit("effetti e illusioni visive");
    reveal_strlit("effetti polimorfi");
    reveal_strlit("effetti visivi");
    reveal_strlit("effetti visivi e illusioni");
    reveal_strlit("elettricità");
    reveal_strlit("energia negativa");
    reveal_strlit("ferite permanenti");
    reveal_strlit("freddo");
    reveal_strlit("fuoco");
    reveal_strlit("illusioni");
    reveal_strlit("illusioni visive");
    reveal_strlit("malattia");
    reveal_strlit("malattie");
    reveal_strlit("maledizioni");
    reveal_strlit("metamorfosi");
    reveal_strlit("nausea");
    reveal_strlit("paralisi");
    reveal_strlit("paura");
    reveal_strlit("pietrificazione");
    reveal_strlit("possessione");
    reveal_strlit("ruggine");
    reveal_strlit("sanguinamento");
    reveal_strlit("sonno");
    reveal_strlit("sonoro");
    reveal_strlit("sordità");
    reveal_strlit("stordimento");
    reveal_strlit("veleni");
    reveal_strlit("veleno");
    reveal_strlit("visivi ed illusori");
    assert("Abbagliamenti"@.len() == 13);
    assert("Abbagliamento"@.len() == 13);
    assert("Abbagliato"@.len() == 10);
    assert("Accecato"@.len() == 8);
    assert("Acido"@.len() == 5);
    assert("Affaticamento"@.len() == 13);
    assert("Affaticato"@.len() == 10);
    assert("Ammaliamento"@.len() == 12);
    assert("Armi Taglienti"@.len() == 14);
    assert("Armi contundenti"@.len() == 16);
    assert("Assorbimento del Fuoco"@.len() == 22);
    assert("Attacchi Furtivi"@.len() == 16);
    assert("Attacchi ai Fianchi"@.len() == 19);
    assert("Attacchi basati sull'olfatto"@.len() == 28);
    assert("Attacchi basati sulla vista"@.len() == 27);
    assert("Attacchi basati sulla vista o sguardo"@.len() == 37);
    assert("Attacchi con Sguardo"@.len() == 20);
    assert("Attacchi con lo sguardo"@.len() == 23);
    assert("Attacchi dipendenti dalla vista"@.len() == 31);
    assert("Barcollante"@.len() == 11);
    assert("Barcollare"@.len() == 10);
    assert("Cecità"@.len() == 6);
    assert("Charme"@.len() == 6);
    assert("Colpi Critici"@.len() == 13);
    assert("Colpi critici"@.len() == 13);
    assert("Condizione Affaticato"@.len() == 21);
    assert("Condizione Esausto"@.len() == 18);
    assert("Confusione"@.len() == 10);
    assert("Danni Non Letali"@.len() == 16);
    assert("Danni contundenti"@.len() == 17);
    assert("Danni da arma"@.len() == 13);
    assert("Danni da armi"@.len() == 13);
    assert("Danni dalle Armi"@.len() == 16);
    assert("Danni perforanti e taglienti"@.len() == 28);
    assert("Danno da Pressione"@.len() == 18);
    assert("Danno da arma"@.len() == 13);
    assert("Danno non letale"@.len() == 16);
    assert("Divinazione"@.len() == 11);
    assert("Effetti basati sulla vista"@.len() == 26);
    assert("Effetti d'influenza mentale"@.len() == 27);
    assert("Effetti di Charme e Compulsione"@.len() == 31);
    assert("Effetti di Influenza Mentale"@.len() == 28);
    assert("Effetti di Morte"@.len() == 16);
    assert("Effetti di Paura"@.len() == 16);
    assert("Effetti di Sonno"@.len() == 16);
    assert("Effetti di charme"@.len() == 17);
    assert("Effetti di charme e compulsioni"@.len() == 31);
    assert("Effetti di influenza mentale"@.len() == 28);
    assert("Effetti di morte"@.len() == 16);
    assert("Effetti di morte (vedi sotto)"@.len() == 29);
    assert("Effetti di paura"@.len() == 16);
    assert("Effetti di sonno"@.len() == 16);
    assert("Effetti visivi"@.len() == 14);
    assert("Elettricità"@.len() == 11);
    assert("Elettricità (parziale)"@.len() == 22);
    assert("Energia Negativa"@.len() == 16);
    assert("Energia Positiva"@.len() == 16);
    assert("Esaurimento"@.len() == 11);
    assert("Esausto"@.len() == 7);
    assert("Fatica"@.len() == 6);
    assert("Fiancheggiamento"@.len() == 16);
    assert("Frastornamento"@.len() == 14);
    assert("Frastornato"@.len() == 11);
    assert("Freddo"@.len() == 6);
    assert("Freddo (sé stesso e chi lo cavalca)"@.len() == 35);
    assert("Fuoco"@.len() == 5);
    assert("Fuoco Infernale"@.len() == 15);
    assert("Illusione"@.len() == 9);
    assert("Illusioni e qualsiasi attacco basato sulla vista"@.len() == 48);
    assert("Immunità al Freddo"@.len() == 18);
    assert("Immunità alla Magia"@.len() == 19);
    assert("Infermità"@.len() == 9);
    assert("Infermo"@.len() == 7);
    assert("Magia"@.len() == 5);
    assert("Malattia"@.len() == 8);
    assert("Malattie"@.len() == 8);
    assert("Maledizioni"@.len() == 11);
    assert("Metamorfosi"@.len() == 11);
    assert("Nausea"@.len() == 6);
    assert("Nauseato"@.len() == 8);
    assert("Non Deformante"@.len() == 14);
    assert("Paralisi"@.len() == 8);
    assert("Paura"@.len() == 5);
    assert("Pietrificazione"@.len() == 15);
    assert("Sanguinamento"@.len() == 13);
    assert("Sanguinamento (solo Punti Ferita)"@.len() == 33);
    assert("Scosso"@.len() == 6);
    assert("Sguardo"@.len() == 7);
    assert("Sonno"@.len() == 5);
    assert("Sonoro"@.len() == 6);
    assert("Sordità"@.len() == 7);
    assert("Spaventato"@.len() == 10);
    assert("Stordimento"@.len() == 11);
    assert("Veleni"@.len() == 6);
    assert("Veleno"@.len() == 6);
    assert("Veleno Ingerito"@.len() == 15);
    assert("acido"@.len() == 5);
    assert("attacchi basati sulla vista ed effetti visivi"@.len() == 45);
    assert("attacchi con Sguardo"@.len() == 20);
    assert("attacchi con lo Sguardo"@.len() == 23);
    assert("attacchi con lo sguardo"@.len() == 23);
    assert("charme"@.len() == 6);
    assert("compulsione"@.len() == 11);
    assert("controllo mentale"@.len() == 17);
    assert("contundente"@.len() == 11);
    assert("da caduta e da schiacciamento"@.len() == 29);
    assert("danni contundenti"@.len() == 17);
    assert("danni contundenti e perforanti"@.len() == 30);
    assert("danni da arma"@.len() == 13);
    assert("danni da armi"@.len() == 13);
    assert("danni da precisione"@.len() == 19);
    assert("danni delle armi"@.len() == 16);
    assert("danni di precisione"@.len() == 19);
    assert("danni perforanti"@.len() == 16);
    assert("danni taglienti"@.len() == 15);
    assert("danni taglienti e perforanti"@.len() == 28);
    assert("danno da arma"@.len() == 13);
    assert("danno di precisione"@.len() == 19);
    assert("di influenza mentale e basati sullo Sguardo"@.len() == 43);
    assert("divinazione"@.len() == 11);
    assert("effetti Barcollanti"@.len() == 19);
    assert("effetti basati sulla vista"@.len() == 26);
    assert("effetti di Charme e Compulsione"@.len() == 31);
    assert("effetti di Metamorfosi"@.len() == 22);
    assert("effetti di Paura"@.len() == 16);
    assert("effetti di Paura ed influenza mentale"@.len() == 37);
    assert("effetti di Sguardo"@.len() == 18);
    assert("effetti di Sonno"@.len() == 16);
    assert("effetti di ammaliamento"@.len() == 23);
    assert("effetti di charme"@.len() == 17);
    assert("effetti di charme e compulsione"@.len() == 31);
    assert("effetti di charme e compulsioni"@.len() == 31);
    assert("effetti di compulsione"@.len() == 22);
    assert("effetti di influenza mentale"@.len() == 28);
    assert("effetti di influenza mentale e visivi"@.len() == 37);
    assert("effetti di maledizione"@.len() == 22);
    assert("effetti di maledizioni"@.len() == 22);
    assert("effetti di metamorfosi"@.len() == 22);
    assert("effetti di morte"@.len() == 16);
    assert("effetti di paura"@.len() == 16);
    assert("effetti di sguardo"@.len() == 18);
    assert("effetti di sonno"@.len() == 16);
    assert("effetti e illusioni visive"@.len() == 26);
    assert("effetti polimorfi"@.len() == 17);
    assert("effetti visivi"@.len() == 14);
    assert("effetti visivi e illusioni"@.len() == 26);
    assert("elettricità"@.len() == 11);
    assert("energia negativa"@.len() == 16);
    assert("ferite permanenti"@.len() == 17);
    assert("freddo"@.len() == 6);
    assert("fuoco"@.len() == 5);
    assert("illusioni"@.len() == 9);
    assert("illusioni visive"@.len() == 16);
    assert("malattia"@.len() == 8);
    assert("malattie"@.len() == 8);
    assert("maledizioni"@.len() == 11);
    assert("metamorfosi"@.len() == 11);
    assert("nausea"@.len() == 6);
    assert("paralisi"@.len() == 8);
    assert("paura"@.len() == 5);
    assert("pietrificazione"@.len() == 15);
    assert("possessione"@.len() == 11);
    assert("ruggine"@.len() == 7);
    assert("sanguinamento"@.len() == 13);
    assert("sonno"@.len() == 5);
    assert("sonoro"@.len() == 6);
    assert("sordità"@.len() == 7);
    assert("stordimento"@.len() == 11);
    assert("veleni"@.len() == 6);
    assert("veleno"@.len() == 6);
    assert("visivi ed illusori"@.len() == 18);
    assert("effetti di metamorfosi"@[0] != "Assorbimento del Fuoco"@[0]);
    assert("effetti di metamorfosi"@ != "Assorbimento del Fuoco"@);
    assert("effetti di metamorfosi"@[0] != "Elettricità (parziale)"@[0]);
    assert("effetti di metamorfosi"@ != "Elettricità (parziale)"@);
    assert("effetti di metamorfosi"@[12] != "effetti di maledizione"@[12]);
    assert("effetti di metamorfosi"@ != "effetti di maledizione"@);
    assert("effetti di metamorfosi"@[12] != "effetti di maledizioni"@[12]);
    assert("effetti di metamorfosi"@ != "effetti di maledizioni"@);
    assert("effetti di metamorfosi"@[11] != "effetti di compulsione"@[11]);
    assert("effetti di metamorfosi"@ != "effetti di compulsione"@);
    assert("Metamorfosi"@[0] != "Elettricità"@[0]);
    assert("Metamorfosi"@ != "Elettricità"@);
    assert("Metamorfosi"@[0] != "elettricità"@[0]);
    assert("Metamorfosi"@ != "elettricità"@);
    assert("Metamorfosi"@[0] != "Esaurimento"@[0]);
    assert("Metamorfosi"@ != "Esaurimento"@);
    assert("Metamorfosi"@[0] != "Stordimento"@[0]);
    assert("Metamorfosi"@ != "Stordimento"@);
    assert("Metamorfosi"@[0] != "stordimento"@[0]);
    assert("Metamorfosi"@ != "stordimento"@);
    assert("Metamorfosi"@[0] != "Frastornato"@[0]);
    assert("Metamorfosi"@ != "Frastornato"@);
    assert("Metamorfosi"@[0] != "Barcollante"@[0]);
    assert("Metamorfosi"@ != "Barcollante"@);
    assert("Metamorfosi"@[0] != "contundente"@[0]);
    assert("Metamorfosi"@ != "contundente"@);
    assert("Metamorfosi"@[1] != "Maledizioni"@[1]);
    assert("Metamorfosi"@ != "Maledizioni"@);
    assert("Metamorfosi"@[0] != "maledizioni"@[0]);
    assert("Metamorfosi"@ != "maledizioni"@);
    assert("Metamorfosi"@[0] != "possessione"@[0]);
    assert("Metamorfosi"@ != "possessione"@);
    assert("Metamorfosi"@[0] != "Divinazione"@[0]);
    assert("Metamorfosi"@ != "Divinazione"@);
    assert("Metamorfosi"@[0] != "divinazione"@[0]);
    assert("Metamorfosi"@ != "divinazione"@);
    assert("Metamorfosi"@[0] != "compulsione"@[0]);
    assert("Metamorfosi"@ != "compulsione"@);
    assert("metamorfosi"@[0] != "Elettricità"@[0]);
    assert("metamorfosi"@ != "Elettricità"@);
    assert("metamorfosi"@[0] != "elettricità"@[0]);
    assert("metamorfosi"@ != "elettricità"@);
    assert("metamorfosi"@[0] != "Esaurimento"@[0]);
    assert("metamorfosi"@ != "Esaurimento"@);
    assert("metamorfosi"@[0] != "Stordimento"@[0]);
    assert("metamorfosi"@ != "Stordimento"@);
    assert("metamorfosi"@[0] != "stordimento"@[0]);
    assert("metamorfosi"@ != "stordimento"@);
    assert("metamorfosi"@[0] != "Frastornato"@[0]);
    assert("metamorfosi"@ != "Frastornato"@);
    assert("metamorfosi"@[0] != "Barcollante"@[0]);
    assert("metamorfosi"@ != "Barcollante"@);
    assert("metamorfosi"@[0] != "contundente"@[0]);
    assert("metamorfosi"@ != "contundente"@);
    assert("metamorfosi"@[0] != "Maledizioni"@[0]);
    assert("metamorfosi"@ != "Maledizioni"@);
    assert("metamorfosi"@[1] != "maledizioni"@[1]);
    assert("metamorfosi"@ != "maledizioni"@);
    assert("metamorfosi"@[0] != "possessione"@[0]);
    assert("metamorfosi"@ != "possessione"@);
    assert("metamorfosi"@[0] != "Divinazione"@[0]);
    assert("metamorfosi"@ != "Divinazione"@);
    assert("metamorfosi"@[0] != "divinazione"@[0]);
    assert("metamorfosi"@ != "divinazione"@);
    assert("metamorfosi"@[0] != "compulsione"@[0]);
    assert("metamorfosi"@ != "compulsione"@);
    assert("metamorfosi"@[0] != "Metamorfosi"@[0]);
    assert("metamorfosi"@ != "Metamorfosi"@);
    assert("effetti polimorfi"@[0] != "Danni contundenti"@[0]);
    assert("effetti polimorfi"@ != "Danni contundenti"@);
    assert("effetti polimorfi"@[0] != "danni contundenti"@[0]);
    assert("effetti polimorfi"@ != "danni contundenti"@);
    assert("effetti polimorfi"@[0] != "ferite permanenti"@[0]);
    assert("effetti polimorfi"@ != "ferite permanenti"@);
    assert("effetti polimorfi"@[0] != "controllo mentale"@[0]);
    assert("effetti polimorfi"@ != "controllo mentale"@);
    assert("effetti polimorfi"@[0] != "Effetti di charme"@[0]);
    assert("effetti polimorfi"@ != "Effetti di charme"@);
    assert("effetti polimorfi"@[8] != "effetti di charme"@[8]);
    assert("effetti polimorfi"@ != "effetti di charme"@);
    assert("effetti di Metamorfosi"@[0] != "Assorbimento del Fuoco"@[0]);
    assert("effetti di Metamorfosi"@ != "Assorbimento del Fuoco"@);
    assert("effetti di Metamorfosi"@[0] != "Elettricità (parziale)"@[0]);
    assert("effetti di Metamorfosi"@ != "Elettricità (parziale)"@);
    assert("effetti di Metamorfosi"@[11] != "effetti di maledizione"@[11]);
    assert("effetti di Metamorfosi"@ != "effetti di maledizione"@);
    assert("effetti di Metamorfosi"@[11] != "effetti di maledizioni"@[11]);
    assert("effetti di Metamorfosi"@ != "effetti di maledizioni"@);
    assert("effetti di Metamorfosi"@[11] != "effetti di compulsione"@[11]);
    assert("effetti di Metamorfosi"@ != "effetti di compulsione"@);
    assert("effetti di Metamorfosi"@[11] != "effetti di metamorfosi"@[11]);
    assert("effetti di Metamorfosi"@ != "effetti di metamorfosi"@);
}

proof fn lemma_read_immunity_mindregressioneffects(s: Seq<char>)
    requires
        immunity_named(Immunity_Type::Immunity_MindRegressionEffects, s),
    ensures
        spec_single_immunity(s) == Some(Immunity_Type::Immunity_MindRegressionEffects),
{
    reveal_strlit("Abbagliamenti");
    reveal_strlit("Abbagliamento");
    reveal_strlit("Abbagliato");
    reveal_strlit("Accecato");
    reveal_strlit("Acido");
    reveal_strlit("Affaticamento");
    reveal_strlit("Affaticato");
    reveal_strlit("Ammaliamento");
    reveal_strlit("Armi Taglienti");
    reveal_strlit("Armi contundenti");
    reveal_strlit("Assorbimento del Fuoco");
    reveal_strlit("Attacchi Furtivi");
    reveal_strlit("Attacchi ai Fianchi");
    reveal_strlit("Attacchi basati sull'olfatto");
    reveal_strlit("Attacchi basati sulla vista");
    reveal_strlit("Attacchi basati sulla vista o sguardo");
    reveal_strlit("Attacchi con Sguardo");
    reveal_strlit("Attacchi con lo sguardo");
    reveal_strlit("Attacchi dipendenti dalla vista");
    reveal_strlit("Barcollante");
    reveal_strlit("Barcollare");
    reveal_strlit("Cecità");
    reveal_strlit("Charme");
    reveal_strlit("Colpi Critici");
    reveal_strlit("Colpi critici");
    reveal_strlit("Condizione Affaticato");
    reveal_strlit("Condizione Esausto");
    reveal_strlit("Confusione");
    reveal_strlit("Danni Non Letali");
    reveal_strlit("Danni contundenti");
    reveal_strlit("Danni da arma");
    reveal_strlit("Danni da armi");
    reveal_strlit("Danni dalle Armi");
    reveal_strlit("Danni perforanti e taglienti");
    reveal_strlit("Danno da Pressione");
    reveal_strlit("Danno da arma");
    reveal_strlit("Danno non letale");
    reveal_strlit("Demenza");
    reveal_strlit("Divinazione");
    reveal_strlit("Effetti basati sulla vista");
    reveal_strlit("Effetti d'influenza mentale");
    reveal_strlit("Effetti di Charme e Compulsione");
    reveal_strlit("Effetti di Demenza");
    reveal_strlit("Effetti di Influenza Mentale");
    reveal_strlit("Effetti di Morte");
    reveal_strlit("Effetti di Paura");
    reveal_strlit("Effetti di Sonno");
    reveal_strlit("Effetti di charme");
    reveal_strlit("Effetti di charme e compulsioni");
    reveal_strlit("Effetti di influenza mentale");
    reveal_strlit("Effetti di morte");
    reveal_strlit("Effetti di morte (vedi sotto)");
    reveal_strlit("Effetti di paura");
    reveal_strlit("Effetti di sonno");
    reveal_strlit("Effetti visivi");
    reveal_strlit("Elettricità");
    reveal_strlit("Elettricità (parziale)");
    reveal_strlit("Energia Negativa");
    reveal_strlit("Energia Positiva");
    reveal_strlit("Esaurimento");
    reveal_strlit("Esausto");
    reveal_strlit("Fatica");
    reveal_strlit("Fiancheggiamento");
    reveal_strlit("Frastornamento");
    reveal_strlit("Frastornato");
    reveal_strlit("Freddo");
    reveal_strlit("Freddo (sé stesso e chi lo cavalca)");
    reveal_strlit("Fuoco");
    reveal_strlit("Fuoco Infernale");
    reveal_strlit("Illusione");
    reveal_strlit("Illusioni e qualsiasi attacco basato sulla vista");
    reveal_strlit("Immunità al Freddo");
    reveal_strlit("Immunità alla Magia");
    reveal_strlit("Infermità");
    reveal_strlit("Infermo");
    reveal_strlit("Magia");
    reveal_strlit("Malattia");
    reveal_strlit("Malattie");
    reveal_strlit("Maledizioni");
    reveal_strlit("Metamorfosi");
    reveal_strlit("Nausea");
    reveal_strlit("Nauseato");
    reveal_strlit("Non Deformante");
    reveal_strlit("Paralisi");
    reveal_strlit("Paura");
    reveal_strlit("Pietrificazione");
    reveal_strlit("Sanguinamento");
    reveal_strlit("Sanguinamento (solo Punti Ferita)");
    reveal_strlit("Scosso");
    reveal_strlit("Sguardo");
    reveal_strlit("Sonno");
    reveal_strlit("Sonoro");
    reveal_strlit("Sordità");
    reveal_strlit("Spaventato");
    reveal_strlit("Stordimento");
    reveal_strlit("Veleni");
    reveal_strlit("Veleno");
    reveal_strlit("Veleno Ingerito");
    reveal_strlit("acido");
    reveal_strlit("attacchi basati sulla vista ed effetti visivi");
    reveal_strlit("attacchi con Sguardo");
    reveal_strlit("attacchi con lo Sguardo");
    reveal_strlit("attacchi con lo sguardo");
    reveal_strlit("charme");
    reveal_strlit("compulsione");
    reveal_strlit("controllo mentale");
    reveal_strlit("contundente");
    reveal_strlit("da caduta e da schiacciamento");
    reveal_strlit("danni contundenti");
    reveal_strlit("danni contundenti e perforanti");
    reveal_strlit("danni da arma");
    reveal_strlit("danni da armi");
    reveal_strlit("danni da precisione");
    reveal_strlit("danni delle armi");
    reveal_strlit("danni di precisione");
    reveal_strlit("danni perforanti");
    reveal_strlit("danni taglienti");
    reveal_strlit("danni taglienti e perforanti");
    reveal_strlit("danno da arma");
    reveal_strlit("danno di precisione");
    reveal_strlit("di influenza mentale e basati sullo Sguardo");
    reveal_strlit("divinazione");
    reveal_strlit("effetti Barcollanti");
    reveal_strlit("effetti basati sulla vista");
    reveal_strlit("effetti di Charme e Compulsione");
    reveal_strlit("effetti di Metamorfosi");
    reveal_strlit("effetti di Paura");
    reveal_strlit("effetti di Paura ed influenza mentale");
    reveal_strlit("effetti di Sguardo");
    reveal_strlit("effetti di Sonno");
    reveal_strlit("effetti di ammaliamento");
    reveal_strlit("effetti di charme");
    reveal_strlit("effetti di charme e compulsione");
    reveal_strlit("effetti di charme e compulsioni");
    reveal_strlit("effetti di compulsione");
    reveal_strlit("effetti di demenza");
    reveal_strlit("effetti di influenza mentale");
    reveal_strlit("effetti di influenza mentale e visivi");
    reveal_strlit("effetti di maledizione");
    reveal_strlit("effetti di maledizioni");
    reveal_strlit("effetti di metamorfosi");
    reveal_strlit("effetti di morte");
    reveal_strlit("effetti di paura");
    reveal_strlit("effetti di sguardo");
    reveal_strlit("effetti di sonno");
    reveal_strlit("effetti e illusioni visive");
    reveal_strlit("effetti polimorfi");
    reveal_strlit("effetti visivi");
    reveal_strlit("effetti visivi e illusioni");
    reveal_strlit("elettricità");
    reveal_strlit("energia negativa");
    reveal_strlit("ferite permanenti");
    reveal_strlit("freddo");
    reveal_strlit("fuoco");
    reveal_strlit("illusioni");
    reveal_strlit("illusioni visive");
    reveal_strlit("malattia");
    reveal_strlit("malattie");
    reveal_strlit("maledizioni");
    reveal_strlit("metamorfosi");
    reveal_strlit("nausea");
    reveal_strlit("paralisi");
    reveal_strlit("paura");
    reveal_strlit("pietrificazione");
    reveal_strlit("possessione");
    reveal_strlit("ruggine");
    reveal_strlit("sanguinamento");
    reveal_strlit("sonno");
    reveal_strlit("sonoro");
    reveal_strlit("sordità");
    reveal_strlit("stordimento");
    reveal_strlit("veleni");
    reveal_strlit("veleno");
    reveal_strlit("visivi ed illusori");
    assert("Abbagliamenti"@.len() == 13);
    assert("Abbagliamento"@.len() == 13);
    assert("Abbagliato"@.len() == 10);
    assert("Accecato"@.len() == 8);
    assert("Acido"@.len() == 5);
    assert("Affaticamento"@.len() == 13);
    assert("Affaticato"@.len() == 10);
    assert("Ammaliamento"@.len() == 12);
    assert("Armi Taglienti"@.len() == 14);
    assert("Armi contundenti"@.len() == 16);
    assert("Assorbimento del Fuoco"@.len() == 22);
    assert("Attacchi Furtivi"@.len() == 16);
    assert("Attacchi ai Fianchi"@.len() == 19);
    assert("Attacchi basati sull'olfatto"@.len() == 28);
    assert("Attacchi basati sulla vista"@.len() == 27);
    assert("Attacchi basati sulla vista o sguardo"@.len() == 37);
    assert("Attacchi con Sguardo"@.len() == 20);
    assert("Attacchi con lo sguardo"@.len() == 23);
    assert("Attacchi dipendenti dalla vista"@.len() == 31);
    assert("Barcollante"@.len() == 11);
    assert("Barcollare"@.len() == 10);
    assert("Cecità"@.len() == 6);
    assert("Charme"@.len() == 6);
    assert("Colpi Critici"@.len() == 13);
    assert("Colpi critici"@.len() == 13);
    assert("Condizione Affaticato"@.len() == 21);
    assert("Condizione Esausto"@.len() == 18);
    assert("Confusione"@.len() == 10);
    assert("Danni Non Letali"@.len() == 16);
    assert("Danni contundenti"@.len() == 17);
    assert("Danni da arma"@.len() == 13);
    assert("Danni da armi"@.len() == 13);
    assert("Danni dalle Armi"@.len() == 16);
    assert("Danni perforanti e taglienti"@.len() == 28);
    assert("Danno da Pressione"@.len() == 18);
    assert("Danno da arma"@.len() == 13);
    assert("Danno non letale"@.len() == 16);
    assert("Demenza"@.len() == 7);
    assert("Divinazione"@.len() == 11);
    assert("Effetti basati sulla vista"@.len() == 26);
    assert("Effetti d'influenza mentale"@.len() == 27);
    assert("Effetti di Charme e Compulsione"@.len() == 31);
    assert("Effetti di Demenza"@.len() == 18);
    assert("Effetti di Influenza Mentale"@.len() == 28);
    assert("Effetti di Morte"@.len() == 16);
    assert("Effetti di Paura"@.len() == 16);
    assert("Effetti di Sonno"@.len() == 16);
    assert("Effetti di charme"@.len() == 17);
    assert("Effetti di charme e compulsioni"@.len() == 31);
    assert("Effetti di influenza mentale"@.len() == 28);
    assert("Effetti di morte"@.len() == 16);
    assert("Effetti di morte (vedi sotto)"@.len() == 29);
    assert("Effetti di paura"@.len() == 16);
    assert("Effetti di sonno"@.len() == 16);
    assert("Effetti visivi"@.len() == 14);
    assert("Elettricità"@.len() == 11);
    assert("Elettricità (parziale)"@.len() == 22);
    assert("Energia Negativa"@.len() == 16);
    assert("Energia Positiva"@.len() == 16);
    assert("Esaurimento"@.len() == 11);
    assert("Esausto"@.len() == 7);
    assert("Fatica"@.len() == 6);
    assert("Fiancheggiamento"@.len() == 16);
    assert("Frastornamento"@.len() == 14);
    assert("Frastornato"@.len() == 11);
    assert("Freddo"@.len() == 6);
    assert("Freddo (sé stesso e chi lo cavalca)"@.len() == 35);
    assert("Fuoco"@.len() == 5);
    assert("Fuoco Infernale"@.len() == 15);
    assert("Illusione"@.len() == 9);
    assert("Illusioni e qualsiasi attacco basato sulla vista"@.len() == 48);
    assert("Immunità al Freddo"@.len() == 18);
    assert("Immunità alla Magia"@.len() == 19);
    assert("Infermità"@.len() == 9);
    assert("Infermo"@.len() == 7);
    assert("Magia"@.len() == 5);
    assert("Malattia"@.len() == 8);
    assert("Malattie"@.len() == 8);
    assert("Maledizioni"@.len() == 11);
    assert("Metamorfosi"@.len() == 11);
    assert("Nausea"@.len() == 6);
    assert("Nauseato"@.len() == 8);
    assert("Non Deformante"@.len() == 14);
    assert("Paralisi"@.len() == 8);
    assert("Paura"@.len() == 5);
    assert("Pietrificazione"@.len() == 15);
    assert("Sanguinamento"@.len() == 13);
    assert("Sanguinamento (solo Punti Ferita)"@.len() == 33);
    assert("Scosso"@.len() == 6);
    assert("Sguardo"@.len() == 7);
    assert("Sonno"@.len() == 5);
    assert("Sonoro"@.len() == 6);
    assert("Sordità"@.len() == 7);
    assert("Spaventato"@.len() == 10);
    assert("Stordimento"@.len() == 11);
    assert("Veleni"@.len() == 6);
    assert("Veleno"@.len() == 6);
    assert("Veleno Ingerito"@.len() == 15);
    assert("acido"@.len() == 5);
    assert("attacchi basati sulla vista ed effetti visivi"@.len() == 45);
    assert("attacchi con Sguardo"@.len() == 20);
    assert("attacchi con lo Sguardo"@.len() == 23);
    assert("attacchi con lo sguardo"@.len() == 23);
    assert("charme"@.len() == 6);
    assert("compulsione"@.len() == 11);
    assert("controllo mentale"@.len() == 17);
    assert("contundente"@.len() == 11);
    assert("da caduta e da schiacciamento"@.len() == 29);
    assert("danni contundenti"@.len() == 17);
    assert("danni contundenti e perforanti"@.len() == 30);
    assert("danni da arma"@.len() == 13);
    assert("danni da armi"@.len() == 13);
    assert("danni da precisione"@.len() == 19);
    assert("danni delle armi"@.len() == 16);
    assert("danni di precisione"@.len() == 19);
    assert("danni perforanti"@.len() == 16);
    assert("danni taglienti"@.len() == 15);
    assert("danni taglienti e perforanti"@.len() == 28);
    assert("danno da arma"@.len() == 13);
    assert("danno di precisione"@.len() == 19);
    assert("di influenza mentale e basati sullo Sguardo"@.len() == 43);
    assert("divinazione"@.len() == 11);
    assert("effetti Barcollanti"@.len() == 19);
    assert("effetti basati sulla vista"@.len() == 26);
    assert("effetti di Charme e Compulsione"@.len() == 31);
    assert("effetti di Metamorfosi"@.len() == 22);
    assert("effetti di Paura"@.len() == 16);
    assert("effetti di Paura ed influenza mentale"@.len() == 37);
    assert("effetti di Sguardo"@.len() == 18);
    assert("effetti di Sonno"@.len() == 16);
    assert("effetti di ammaliamento"@.len() == 23);
    assert("effetti di charme"@.len() == 17);
    assert("effetti di charme e compulsione"@.len() == 31);
    assert("effetti di charme e compulsioni"@.len() == 31);
    assert("effetti di compulsione"@.len() == 22);
    assert("effetti di demenza"@.len() == 18);
    assert("effetti di influenza mentale"@.len() == 28);
    assert("effetti di influenza mentale e visivi"@.len() == 37);
    assert("effetti di maledizione"@.len() == 22);
    assert("effetti di maledizioni"@.len() == 22);
    assert("effetti di metamorfosi"@.len() == 22);
    assert("effetti di morte"@.len() == 16);
    assert("effetti di paura"@.len() == 16);
    assert("effetti di sguardo"@.len() == 18);
    assert("effetti di sonno"@.len() == 16);
    assert("effetti e illusioni visive"@.len() == 26);
    assert("effetti polimorfi"@.len() == 17);
    assert("effetti visivi"@.len() == 14);
    assert("effetti visivi e illusioni"@.len() == 26);
    assert("elettricità"@.len() == 11);
    assert("energia negativa"@.len() == 16);
    assert("ferite permanenti"@.len() == 17);
    assert("freddo"@.len() == 6);
    assert("fuoco"@.len() == 5);
    assert("illusioni"@.len() == 9);
    assert("illusioni visive"@.len() == 16);
    assert("malattia"@.len() == 8);
    assert("malattie"@.len() == 8);
    assert("maledizioni"@.len() == 11);
    assert("metamorfosi"@.len() == 11);
    assert("nausea"@.len() == 6);
    assert("paralisi"@.len() == 8);
    assert("paura"@.len() == 5);
    assert("pietrificazione"@.len() == 15);
    assert("possessione"@.len() == 11);
    assert("ruggine"@.len() == 7);
    assert("sanguinamento"@.len() == 13);
    assert("sonno"@.len() == 5);
    assert("sonoro"@.len() == 6);
    assert("sordità"@.len() == 7);
    assert("stordimento"@.len() == 11);
    assert("veleni"@.len() == 6);
    assert("veleno"@.len() == 6);
    assert("visivi ed illusori"@.len() == 18);
    assert("Effetti di Demenza"@[0] != "Immunità al Freddo"@[0]);
    assert("Effetti di Demenza"@ != "Immunità al Freddo"@);
    assert("Effetti di Demenza"@[0] != "Condizione Esausto"@[0]);
    assert("Effetti di Demenza"@ != "Condizione Esausto"@);
    assert("Effetti di Demenza"@[0] != "Danno da Pressione"@[0]);
    assert("Effetti di Demenza"@ != "Danno da Pressione"@);
    assert("Effetti di Demenza"@[0] != "effetti di Sguardo"@[0]);
    assert("Effetti di Demenza"@ != "effetti di Sguardo"@);
    assert("Effetti di Demenza"@[0] != "effetti di sguardo"@[0]);
    assert("Effetti di Demenza"@ != "effetti di sguardo"@);
    assert("Effetti di Demenza"@[0] != "visivi ed illusori"@[0]);
    assert("Effetti di Demenza"@ != "visivi ed illusori"@);
    assert("effetti di demenza"@[0] != "Immunità al Freddo"@[0]);
    assert("effetti di demenza"@ != "Immunità al Freddo"@);
    assert("effetti di demenza"@[0] != "Condizione Esausto"@[0]);
    assert("effetti di demenza"@ != "Condizione Esausto"@);
    assert("effetti di demenza"@[0] != "Danno da Pressione"@[0]);
    assert("effetti di demenza"@ != "Danno da Pressione"@);
    assert("effetti di demenza"@[11] != "effetti di Sguardo"@[11]);
    assert("effetti di demenza"@ != "effetti di Sguardo"@);
    assert("effetti di demenza"@[11] != "effetti di sguardo"@[11]);
    assert("effetti di demenza"@ != "effetti di sguardo"@);
    assert("effetti di demenza"@[0] != "visivi ed illusori"@[0]);
    assert("effetti di demenza"@ != "visivi ed illusori"@);
    assert("effetti di demenza"@[0] != "Effetti di Demenza"@[0]);
    assert("effetti di demenza"@ != "Effetti di Demenza"@);
    assert("Demenza"@[0] != "Esausto"@[0]);
    assert("Demenza"@ != "Esausto"@);
    assert("Demenza"@[0] != "Infermo"@[0]);
    assert("Demenza"@ != "Infermo"@);
    assert("Demenza"@[0] != "Sordità"@[0]);
    assert("Demenza"@ != "Sordità"@);
    assert("Demenza"@[0] != "sordità"@[0]);
    assert("Demenza"@ != "sordità"@);
    assert("Demenza"@[0] != "Sguardo"@[0]);
    assert("Demenza"@ != "Sguardo"@);
    assert("Demenza"@[0] != "ruggine"@[0]);
    assert("Demenza"@ != "ruggine"@);
}

proof fn lemma_read_immunity_creaturecounteffect(s: Seq<char>)
    requires
        immunity_named(Immunity_Type::Immunity_CreatureCountEffect, s),
    ensures
        spec_single_immunity(s) == Some(Immunity_Type::Immunity_CreatureCountEffect),
{
    reveal_strlit("Abbagliamenti");
    reveal_strlit("Abbagliamento");
    reveal_strlit("Abbagliato");
    reveal_strlit("Accecato");
    reveal_strlit("Acido");
    reveal_strlit("Affaticamento");
    reveal_strlit("Affaticato");
    reveal_strlit("Ammaliamento");
    reveal_strlit("Armi Taglienti");
    reveal_strlit("Armi contundenti");
    reveal_strlit("Assorbimento del Fuoco");
    reveal_strlit("Attacchi Furtivi");
    reveal_strlit("Attacchi ai Fianchi");
    reveal_strlit("Attacchi basati sull'olfatto");
    reveal_strlit("Attacchi basati sulla vista");
    reveal_strlit("Attacchi basati sulla vista o sguardo");
    reveal_strlit("Attacchi con Sguardo");
    reveal_strlit("Attacchi con lo sguardo");
    reveal_strlit("Attacchi dipendenti dalla vista");
    reveal_strlit("Barcollante");
    reveal_strlit("Barcollare");
    reveal_strlit("Cecità");
    reveal_strlit("Charme");
    reveal_strlit("Colpi Critici");
    reveal_strlit("Colpi critici");
    reveal_strlit("Condizione Affaticato");
    reveal_strlit("Condizione Esausto");
    reveal_strlit("Confusione");
    reveal_strlit("Danni Non Letali");
    reveal_strlit("Danni contundenti");
    reveal_strlit("Danni da arma");
    reveal_strlit("Danni da armi");
    reveal_strlit("Danni dalle Armi");
    reveal_strlit("Danni perforanti e taglienti");
    reveal_strlit("Danno da Pressione");
    reveal_strlit("Danno da arma");
    reveal_strlit("Danno non letale");
    reveal_strlit("Demenza");
    reveal_strlit("Divinazione");
    reveal_strlit("Effetti basati sulla vista");
    reveal_strlit("Effetti d'influenza mentale");
    reveal_strlit("Effetti di Charme e Compulsione");
    reveal_strlit("Effetti di Demenza");
    reveal_strlit("Effetti di Influenza Mentale");
    reveal_strlit("Effetti di Morte");
    reveal_strlit("Effetti di Paura");
    reveal_strlit("Effetti di Sonno");
    reveal_strlit("Effetti di charme");
    reveal_strlit("Effetti di charme e compulsioni");
    reveal_strlit("Effetti di influenza mentale");
    reveal_strlit("Effetti di morte");
    reveal_strlit("Effetti di morte (vedi sotto)");
    reveal_strlit("Effetti di paura");
    reveal_strlit("Effetti di sonno");
    reveal_strlit("Effetti visivi");
    reveal_strlit("Elettricità");
    reveal_strlit("Elettricità (parziale)");
    reveal_strlit("Energia Negativa");
    reveal_strlit("Energia Positiva");
    reveal_strlit("Esaurimento");
    reveal_strlit("Esausto");
    reveal_strlit("Fatica");
    reveal_strlit("Fiancheggiamento");
    reveal_strlit("Frastornamento");
    reveal_strlit("Frastornato");
    reveal_strlit("Freddo");
    reveal_strlit("Freddo (sé stesso e chi lo cavalca)");
    reveal_strlit("Fuoco");
    reveal_strlit("Fuoco Infernale");
    reveal_strlit("Illusione");
    reveal_strlit("Illusioni e qualsiasi attacco basato sulla vista");
    reveal_strlit("Immunità al Freddo");
    reveal_strlit("Immunità alla Magia");
    reveal_strlit("Infermità");
    reveal_strlit("Infermo");
    reveal_strlit("Magia");
    reveal_strlit("Malattia");
    reveal_strlit("Malattie");
    reveal_strlit("Maledizioni");
    reveal_strlit("Metamorfosi");
    reveal_strlit("Nausea");
    reveal_strlit("Nauseato");
    reveal_strlit("Non Deformante");
    reveal_strlit("Paralisi");
    reveal_strlit("Paura");
    reveal_strlit("Pietrificazione");
    reveal_strlit("Sanguinamento");
    reveal_strlit("Sanguinamento (solo Punti Ferita)");
    reveal_strlit("Scosso");
    reveal_strlit("Sguardo");
    reveal_strlit("Sonno");
    reveal_strlit("Sonoro");
    reveal_strlit("Sordità");
    reveal_strlit("Spaventato");
    reveal_strlit("Stordimento");
    reveal_strlit("Veleni");
    reveal_strlit("Veleno");
    reveal_strlit("Veleno Ingerito");
    reveal_strlit("acido");
    reveal_strlit("attacchi basati sulla vista ed effetti visivi");
    reveal_strlit("attacchi con Sguardo");
    reveal_strlit("attacchi con lo Sguardo");
    reveal_strlit("attacchi con lo sguardo");
    reveal_strlit("charme");
    reveal_strlit("compulsione");
    reveal_strlit("controllo mentale");
    reveal_strlit("contundente");
    reveal_strlit("da caduta e da schiacciamento");
    reveal_strlit("danni contundenti");
    reveal_strlit("danni contundenti e perforanti");
    reveal_strlit("danni da arma");
    reveal_strlit("danni da armi");
    reveal_strlit("danni da precisione");
    reveal_strlit("danni delle armi");
    reveal_strlit("danni di precisione");
    reveal_strlit("danni perforanti");
    reveal_strlit("danni taglienti");
    reveal_strlit("danni taglienti e perforanti");
    reveal_strlit("danno da arma");
    reveal_strlit("danno di precisione");
    reveal_strlit("di influenza mentale e basati sullo Sguardo");
    reveal_strlit("divinazione");
    reveal_strlit("effetti Barcollanti");
    reveal_strlit("effetti basati sulla vista");
    reveal_strlit("effetti che bersagliano uno specifico numero di creature");
    reveal_strlit("effetti di Charme e Compulsione");
    reveal_strlit("effetti di Metamorfosi");
    reveal_strlit("effetti di Paura");
    reveal_strlit("effetti di Paura ed influenza mentale");
    reveal_strlit("effetti di Sguardo");
    reveal_strlit("effetti di Sonno");
    reveal_strlit("effetti di ammaliamento");
    reveal_strlit("effetti di charme");
    reveal_strlit("effetti di charme e compulsione");
    reveal_strlit("effetti di charme e compulsioni");
    reveal_strlit("effetti di compulsione");
    reveal_strlit("effetti di demenza");
    reveal_strlit("effetti di influenza mentale");
    reveal_strlit("effetti di influenza mentale e visivi");
    reveal_strlit("effetti di maledizione");
    reveal_strlit("effetti di maledizioni");
    reveal_strlit("effetti di metamorfosi");
    reveal_strlit("effetti di morte");
    reveal_strlit("effetti di paura");
    reveal_strlit("effetti di sguardo");
    reveal_strlit("effetti di sonno");
    reveal_strlit("effetti e illusioni visive");
    reveal_strlit("effetti polimorfi");
    reveal_strlit("effetti visivi");
    reveal_strlit("effetti visivi e illusioni");
    reveal_strlit("elettricità");
    reveal_strlit("energia negativa");
    reveal_strlit("ferite permanenti");
    reveal_strlit("freddo");
    reveal_strlit("fuoco");
    reveal_strlit("illusioni");
    reveal_strlit("illusioni visive");
    reveal_strlit("malattia");
    reveal_strlit("malattie");
    reveal_strlit("maledizioni");
    reveal_strlit("metamorfosi");
    reveal_strlit("nausea");
    reveal_strlit("paralisi");
    reveal_strlit("paura");
    reveal_strlit("pietrificazione");
    reveal_strlit("possessione");
    reveal_strlit("ruggine");
    reveal_strlit("sanguinamento");
    reveal_strlit("sonno");
    reveal_strlit("sonoro");
    reveal_strlit("sordità");
    reveal_strlit("stordimento");
    reveal_strlit("veleni");
    reveal_strlit("veleno");
    reveal_strlit("visivi ed illusori");
    assert("Abbagliamenti"@.len() == 13);
    assert("Abbagliamento"@.len() == 13);
    assert("Abbagliato"@.len() == 10);
    assert("Accecato"@.len() == 8);
    assert("Acido"@.len() == 5);
    assert("Affaticamento"@.len() == 13);
    assert("Affaticato"@.len() == 10);
    assert("Ammaliamento"@.len() == 12);
    assert("Armi Taglienti"@.len() == 14);
    assert("Armi contundenti"@.len() == 16);
    assert("Assorbimento del Fuoco"@.len() == 22);
    assert("Attacchi Furtivi"@.len() == 16);
    assert("Attacchi ai Fianchi"@.len() == 19);
    assert("Attacchi basati sull'olfatto"@.len() == 28);
    assert("Attacchi basati sulla vista"@.len() == 27);
    assert("Attacchi basati sulla vista o sguardo"@.len() == 37);
    assert("Attacchi con Sguardo"@.len() == 20);
    assert("Attacchi con lo sguardo"@.len() == 23);
    assert("Attacchi dipendenti dalla vista"@.len() == 31);
    assert("Barcollante"@.len() == 11);
    assert("Barcollare"@.len() == 10);
    assert("Cecità"@.len() == 6);
    assert("Charme"@.len() == 6);
    assert("Colpi Critici"@.len() == 13);
    assert("Colpi critici"@.len() == 13);
    assert("Condizione Affaticato"@.len() == 21);
    assert("Condizione Esausto"@.len() == 18);
    assert("Confusione"@.len() == 10);
    assert("Danni Non Letali"@.len() == 16);
    assert("Danni contundenti"@.len() == 17);
    assert("Danni da arma"@.len() == 13);
    assert("Danni da armi"@.len() == 13);
    assert("Danni dalle Armi"@.len() == 16);
    assert("Danni perforanti e taglienti"@.len() == 28);
    assert("Danno da Pressione"@.len() == 18);
    assert("Danno da arma"@.len() == 13);
    assert("Danno non letale"@.len() == 16);
    assert("Demenza"@.len() == 7);
    assert("Divinazione"@.len() == 11);
    assert("Effetti basati sulla vista"@.len() == 26);
    assert("Effetti d'influenza mentale"@.len() == 27);
    assert("Effetti di Charme e Compulsione"@.len() == 31);
    assert("Effetti di Demenza"@.len() == 18);
    assert("Effetti di Influenza Mentale"@.len() == 28);
    assert("Effetti di Morte"@.len() == 16);
    assert("Effetti di Paura"@.len() == 16);
    assert("Effetti di Sonno"@.len() == 16);
    assert("Effetti di charme"@.len() == 17);
    assert("Effetti di charme e compulsioni"@.len() == 31);
    assert("Effetti di influenza mentale"@.len() == 28);
    assert("Effetti di morte"@.len() == 16);
    assert("Effetti di morte (vedi sotto)"@.len() == 29);
    assert("Effetti di paura"@.len() == 16);
    assert("Effetti di sonno"@.len() == 16);
    assert("Effetti visivi"@.len() == 14);
    assert("Elettricità"@.len() == 11);
    assert("Elettricità (parziale)"@.len() == 22);
    assert("Energia Negativa"@.len() == 16);
    assert("Energia Positiva"@.len() == 16);
    assert("Esaurimento"@.len() == 11);
    assert("Esausto"@.len() == 7);
    assert("Fatica"@.len() == 6);
    assert("Fiancheggiamento"@.len() == 16);
    assert("Frastornamento"@.len() == 14);
    assert("Frastornato"@.len() == 11);
    assert("Freddo"@.len() == 6);
    assert("Freddo (sé stesso e chi lo cavalca)"@.len() == 35);
    assert("Fuoco"@.len() == 5);
    assert("Fuoco Infernale"@.len() == 15);
    assert("Illusione"@.len() == 9);
    assert("Illusioni e qualsiasi attacco basato sulla vista"@.len() == 48);
    assert("Immunità al Freddo"@.len() == 18);
    assert("Immunità alla Magia"@.len() == 19);
    assert("Infermità"@.len() == 9);
    assert("Infermo"@.len() == 7);
    assert("Magia"@.len() == 5);
    assert("Malattia"@.len() == 8);
    assert("Malattie"@.len() == 8);
    assert("Maledizioni"@.len() == 11);
    assert("Metamorfosi"@.len() == 11);
    assert("Nausea"@.len() == 6);
    assert("Nauseato"@.len() == 8);
    assert("Non Deformante"@.len() == 14);
    assert("Paralisi"@.len() == 8);
    assert("Paura"@.len() == 5);
    assert("Pietrificazione"@.len() == 15);
    assert("Sanguinamento"@.len() == 13);
    assert("Sanguinamento (solo Punti Ferita)"@.len() == 33);
    assert("Scosso"@.len() == 6);
    assert("Sguardo"@.len() == 7);
    assert("Sonno"@.len() == 5);
    assert("Sonoro"@.len() == 6);
    assert("Sordità"@.len() == 7);
    assert("Spaventato"@.len() == 10);
    assert("Stordimento"@.len() == 11);
    assert("Veleni"@.len() == 6);
    assert("Veleno"@.len() == 6);
    assert("Veleno Ingerito"@.len() == 15);
    assert("acido"@.len() == 5);
    assert("attacchi basati sulla vista ed effetti visivi"@.len() == 45);
    assert("attacchi con Sguardo"@.len() == 20);
    assert("attacchi con lo Sguardo"@.len() == 23);
    assert("attacchi con lo sguardo"@.len() == 23);
    assert("charme"@.len() == 6);
    assert("compulsione"@.len() == 11);
    assert("controllo mentale"@.len() == 17);
    assert("contundente"@.len() == 11);
    assert("da caduta e da schiacciamento"@.len() == 29);
    assert("danni contundenti"@.len() == 17);
    assert("danni contundenti e perforanti"@.len() == 30);
    assert("danni da arma"@.len() == 13);
    assert("danni da armi"@.len() == 13);
    assert("danni da precisione"@.len() == 19);
    assert("danni delle armi"@.len() == 16);
    assert("danni di precisione"@.len() == 19);
    assert("danni perforanti"@.len() == 16);
    assert("danni taglienti"@.len() == 15);
    assert("danni taglienti e perforanti"@.len() == 28);
    assert("danno da arma"@.len() == 13);
    assert("danno di precisione"@.len() == 19);
    assert("di influenza mentale e basati sullo Sguardo"@.len() == 43);
    assert("divinazione"@.len() == 11);
    assert("effetti Barcollanti"@.len() == 19);
    assert("effetti basati sulla vista"@.len() == 26);
    assert("effetti che bersagliano uno specifico numero di creature"@.len() == 56);
    assert("effetti di Charme e Compulsione"@.len() == 31);
    assert("effetti di Metamorfosi"@.len() == 22);
    assert("effetti di Paura"@.len() == 16);
    assert("effetti di Paura ed influenza mentale"@.len() == 37);
    assert("effetti di Sguardo"@.len() == 18);
    assert("effetti di Sonno"@.len() == 16);
    assert("effetti di ammaliamento"@.len() == 23);
    assert("effetti di charme"@.len() == 17);
    assert("effetti di charme e compulsione"@.len() == 31);
    assert("effetti di charme e compulsioni"@.len() == 31);
    assert("effetti di compulsione"@.len() == 22);
    assert("effetti di demenza"@.len() == 18);
    assert("effetti di influenza mentale"@.len() == 28);
    assert("effetti di influenza mentale e visivi"@.len() == 37);
    assert("effetti di maledizione"@.len() == 22);
    assert("effetti di maledizioni"@.len() == 22);
    assert("effetti di metamorfosi"@.len() == 22);
    assert("effetti di morte"@.len() == 16);
    assert("effetti di paura"@.len() == 16);
    assert("effetti di sguardo"@.len() == 18);
    assert("effetti di sonno"@.len() == 16);
    assert("effetti e illusioni visive"@.len() == 26);
    assert("effetti polimorfi"@.len() == 17);
    assert("effetti visivi"@.len() == 14);
    assert("effetti visivi e illusioni"@.len() == 26);
    assert("elettricità"@.len() == 11);
    assert("energia negativa"@.len() == 16);
    assert("ferite permanenti"@.len() == 17);
    assert("freddo"@.len() == 6);
    assert("fuoco"@.len() == 5);
    assert("illusioni"@.len() == 9);
    assert("illusioni visive"@.len() == 16);
    assert("malattia"@.len() == 8);
    assert("malattie"@.len() == 8);
    assert("maledizioni"@.len() == 11);
    assert("metamorfosi"@.len() == 11);
    assert("nausea"@.len() == 6);
    assert("paralisi"@.len() == 8);
    assert("paura"@.len() == 5);
    assert("pietrificazione"@.len() == 15);
    assert("possessione"@.len() == 11);
    assert("ruggine"@.len() == 7);
    assert("sanguinamento"@.len() == 13);
    assert("sonno"@.len() == 5);
    assert("sonoro"@.len() == 6);
    assert("sordità"@.len() == 7);
    assert("stordimento"@.len() == 11);
    assert("veleni"@.len() == 6);
    assert("veleno"@.len() == 6);
    assert("visivi ed illusori"@.len() == 18);

}

proof fn lemma_read_immunity_completionandactivationspelleffects(s: Seq<char>)
    requires
        immunity_named(Immunity_Type::Immunity_CompletionAndActivationSpellEffects, s),
    ensures
        spec_single_immunity(s) == Some(Immunity_Type::Immunity_CompletionAndActivationSpellEffects),
{
    reveal_strlit("Abbagliamenti");
    reveal_strlit("Abbagliamento");
    reveal_strlit("Abbagliato");
    reveal_strlit("Accecato");
    reveal_strlit("Acido");
    reveal_strlit("Affaticamento");
    reveal_strlit("Affaticato");
    reveal_strlit("Ammaliamento");
    reveal_strlit("Armi Taglienti");
    reveal_strlit("Armi contundenti");
    reveal_strlit("Assorbimento del Fuoco");
    reveal_strlit("Attacchi Furtivi");
    reveal_strlit("Attacchi ai Fianchi");
    reveal_strlit("Attacchi basati sull'olfatto");
    reveal_strlit("Attacchi basati sulla vista");
    reveal_strlit("Attacchi basati sulla vista o sguardo");
    reveal_strlit("Attacchi con Sguardo");
    reveal_strlit("Attacchi con lo sguardo");
    reveal_strlit("Attacchi dipendenti dalla vista");
    reveal_strlit("Barcollante");
    reveal_strlit("Barcollare");
    reveal_strlit("Cecità");
    reveal_strlit("Charme");
    reveal_strlit("Colpi Critici");
    reveal_strlit("Colpi critici");
    reveal_strlit("Condizione Affaticato");
    reveal_strlit("Condizione Esausto");
    reveal_strlit("Confusione");
    reveal_strlit("Danni Non Letali");
    reveal_strlit("Danni contundenti");
    reveal_strlit("Danni da arma");
    reveal_strlit("Danni da armi");
    reveal_strlit("Danni dalle Armi");
    reveal_strlit("Danni perforanti e taglienti");
    reveal_strlit("Danno da Pressione");
    reveal_strlit("Danno da arma");
    reveal_strlit("Danno non letale");
    reveal_strlit("Demenza");
    reveal_strlit("Divinazione");
    reveal_strlit("Effetti a completamento di incantesimo e ad attivazione di incantesimo");
    reveal_strlit("Effetti basati sulla vista");
    reveal_strlit("Effetti d'influenza mentale");
    reveal_strlit("Effetti di Charme e Compulsione");
    reveal_strlit("Effetti di Demenza");
    reveal_strlit("Effetti di Influenza Mentale");
    reveal_strlit("Effetti di Morte");
    reveal_strlit("Effetti di Paura");
    reveal_strlit("Effetti di Sonno");
    reveal_strlit("Effetti di charme");
    reveal_strlit("Effetti di charme e compulsioni");
    reveal_strlit("Effetti di influenza mentale");
    reveal_strlit("Effetti di morte");
    reveal_strlit("Effetti di morte (vedi sotto)");
    reveal_strlit("Effetti di paura");
    reveal_strlit("Effetti di sonno");
    reveal_strlit("Effetti visivi");
    reveal_strlit("Elettricità");
    reveal_strlit("Elettricità (parziale)");
    reveal_strlit("Energia Negativa");
    reveal_strlit("Energia Positiva");
    reveal_strlit("Esaurimento");
    reveal_strlit("Esausto");
    reveal_strlit("Fatica");
    reveal_strlit("Fiancheggiamento");
    reveal_strlit("Frastornamento");
    reveal_strlit("Frastornato");
    reveal_strlit("Freddo");
    reveal_strlit("Freddo (sé stesso e chi lo cavalca)");
    reveal_strlit("Fuoco");
    reveal_strlit("Fuoco Infernale");
    reveal_strlit("Illusione");
    reveal_strlit("Illusioni e qualsiasi attacco basato sulla vista");
    reveal_strlit("Immunità al Freddo");
    reveal_strlit("Immunità alla Magia");
    reveal_strlit("Infermità");
    reveal_strlit("Infermo");
    reveal_strlit("Magia");
    reveal_strlit("Malattia");
    reveal_strlit("Malattie");
    reveal_strlit("Maledizioni");
    reveal_strlit("Metamorfosi");
    reveal_strlit("Nausea");
    reveal_strlit("Nauseato");
    reveal_strlit("Non Deformante");
    reveal_strlit("Paralisi");
    reveal_strlit("Paura");
    reveal_strlit("Pietrificazione");
    reveal_strlit("Sanguinamento");
    reveal_strlit("Sanguinamento (solo Punti Ferita)");
    reveal_strlit("Scosso");
    reveal_strlit("Sguardo");
    reveal_strlit("Sonno");
    reveal_strlit("Sonoro");
    reveal_strlit("Sordità");
    reveal_strlit("Spaventato");
    reveal_strlit("Stordimento");
    reveal_strlit("Veleni");
    reveal_strlit("Veleno");
    reveal_strlit("Veleno Ingerito");
    reveal_strlit("acido");
    reveal_strlit("attacchi basati sulla vista ed effetti visivi");
    reveal_strlit("attacchi con Sguardo");
    reveal_strlit("attacchi con lo Sguardo");
    reveal_strlit("attacchi con lo sguardo");
    reveal_strlit("charme");
    reveal_strlit("compulsione");
    reveal_strlit("controllo mentale");
    reveal_strlit("contundente");
    reveal_strlit("da caduta e da schiacciamento");
    reveal_strlit("danni contundenti");
    reveal_strlit("danni contundenti e perforanti");
    reveal_strlit("danni da arma");
    reveal_strlit("danni da armi");
    reveal_strlit("danni da precisione");
    reveal_strlit("danni delle armi");
    reveal_strlit("danni di precisione");
    reveal_strlit("danni perforanti");
    reveal_strlit("danni taglienti");
    reveal_strlit("danni taglienti e perforanti");
    reveal_strlit("danno da arma");
    reveal_strlit("danno di precisione");
    reveal_strlit("di influenza mentale e basati sullo Sguardo");
    reveal_strlit("divinazione");
    reveal_strlit("effetti Barcollanti");
    reveal_strlit("effetti basati sulla vista");
    reveal_strlit("effetti che bersagliano uno specifico numero di creature");
    reveal_strlit("effetti di Charme e Compulsione");
    reveal_strlit("effetti di Metamorfosi");
    reveal_strlit("effetti di Paura");
    reveal_strlit("effetti di Paura ed influenza mentale");
    reveal_strlit("effetti di Sguardo");
    reveal_strlit("effetti di Sonno");
    reveal_strlit("effetti di ammaliamento");
    reveal_strlit("effetti di charme");
    reveal_strlit("effetti di charme e compulsione");
    reveal_strlit("effetti di charme e compulsioni");
    reveal_strlit("effetti di compulsione");
    reveal_strlit("effetti di demenza");
    reveal_strlit("effetti di influenza mentale");
    reveal_strlit("effetti di influenza mentale e visivi");
    reveal_strlit("effetti di maledizione");
    reveal_strlit("effetti di maledizioni");
    reveal_strlit("effetti di metamorfosi");
    reveal_strlit("effetti di morte");
    reveal_strlit("effetti di paura");
    reveal_strlit("effetti di sguardo");
    reveal_strlit("effetti di sonno");
    reveal_strlit("effetti e illusioni visive");
    reveal_strlit("effetti polimorfi");
    reveal_strlit("effetti visivi");
    reveal_strlit("effetti visivi e illusioni");
    reveal_strlit("elettricità");
    reveal_strlit("energia negativa");
    reveal_strlit("ferite permanenti");
    reveal_strlit("freddo");
    reveal_strlit("fuoco");
    reveal_strlit("illusioni");
    reveal_strlit("illusioni visive");
    reveal_strlit("malattia");
    reveal_strlit("malattie");
    reveal_strlit("maledizioni");
    reveal_strlit("metamorfosi");
    reveal_strlit("nausea");
    reveal_strlit("paralisi");
    reveal_strlit("paura");
    reveal_strlit("pietrificazione");
    reveal_strlit("possessione");
    reveal_strlit("ruggine");
    reveal_strlit("sanguinamento");
    reveal_strlit("sonno");
    reveal_strlit("sonoro");
    reveal_strlit("sordità");
    reveal_strlit("stordimento");
    reveal_strlit("veleni");
    reveal_strlit("veleno");
    reveal_strlit("visivi ed illusori");
    assert("Abbagliamenti"@.len() == 13);
    assert("Abbagliamento"@.len() == 13);
    assert("Abbagliato"@.len() == 10);
    assert("Accecato"@.len() == 8);
    assert("Acido"@.len() == 5);
    assert("Affaticamento"@.len() == 13);
    assert("Affaticato"@.len() == 10);
    assert("Ammaliamento"@.len() == 12);
    assert("Armi Taglienti"@.len() == 14);
    assert("Armi contundenti"@.len() == 16);
    assert("Assorbimento del Fuoco"@.len() == 22);
    assert("Attacchi Furtivi"@.len() == 16);
    assert("Attacchi ai Fianchi"@.len() == 19);
    assert("Attacchi basati sull'olfatto"@.len() == 28);
    assert("Attacchi basati sulla vista"@.len() == 27);
    assert("Attacchi basati sulla vista o sguardo"@.len() == 37);
    assert("Attacchi con Sguardo"@.len() == 20);
    assert("Attacchi con lo sguardo"@.len() == 23);
    assert("Attacchi dipendenti dalla vista"@.len() == 31);
    assert("Barcollante"@.len() == 11);
    assert("Barcollare"@.len() == 10);
    assert("Cecità"@.len() == 6);
    assert("Charme"@.len() == 6);
    assert("Colpi Critici"@.len() == 13);
    assert("Colpi critici"@.len() == 13);
    assert("Condizione Affaticato"@.len() == 21);
    assert("Condizione Esausto"@.len() == 18);
    assert("Confusione"@.len() == 10);
    assert("Danni Non Letali"@.len() == 16);
    assert("Danni contundenti"@.len() == 17);
    assert("Danni da arma"@.len() == 13);
    assert("Danni da armi"@.len() == 13);
    assert("Danni dalle Armi"@.len() == 16);
    assert("Danni perforanti e taglienti"@.len() == 28);
    assert("Danno da Pressione"@.len() == 18);
    assert("Danno da arma"@.len() == 13);
    assert("Danno non letale"@.len() == 16);
    assert("Demenza"@.len() == 7);
    assert("Divinazione"@.len() == 11);
    assert("Effetti a completamento di incantesimo e ad attivazione di incantesimo"@.len() == 70);
    assert("Effetti basati sulla vista"@.len() == 26);
    assert("Effetti d'influenza mentale"@.len() == 27);
    assert("Effetti di Charme e Compulsione"@.len() == 31);
    assert("Effetti di Demenza"@.len() == 18);
    assert("Effetti di Influenza Mentale"@.len() == 28);
    assert("Effetti di Morte"@.len() == 16);
    assert("Effetti di Paura"@.len() == 16);
    assert("Effetti di Sonno"@.len() == 16);
    assert("Effetti di charme"@.len() == 17);
    assert("Effetti di charme e compulsioni"@.len() == 31);
    assert("Effetti di influenza mentale"@.len() == 28);
    assert("Effetti di morte"@.len() == 16);
    assert("Effetti di morte (vedi sotto)"@.len() == 29);
    assert("Effetti di paura"@.len() == 16);
    assert("Effetti di sonno"@.len() == 16);
    assert("Effetti visivi"@.len() == 14);
    assert("Elettricità"@.len() == 11);
    assert("Elettricità (parziale)"@.len() == 22);
    assert("Energia Negativa"@.len() == 16);
    assert("Energia Positiva"@.len() == 16);
    assert("Esaurimento"@.len() == 11);
    assert("Esausto"@.len() == 7);
    assert("Fatica"@.len() == 6);
    assert("Fiancheggiamento"@.len() == 16);
    assert("Frastornamento"@.len() == 14);
    assert("Frastornato"@.len() == 11);
    assert("Freddo"@.len() == 6);
    assert("Freddo (sé stesso e chi lo cavalca)"@.len() == 35);
    assert("Fuoco"@.len() == 5);
    assert("Fuoco Infernale"@.len() == 15);
    assert("Illusione"@.len() == 9);
    assert("Illusioni e qualsiasi attacco basato sulla vista"@.len() == 48);
    assert("Immunità al Freddo"@.len() == 18);
    assert("Immunità alla Magia"@.len() == 19);
    assert("Infermità"@.len() == 9);
    assert("Infermo"@.len() == 7);
    assert("Magia"@.len() == 5);
    assert("Malattia"@.len() == 8);
    assert("Malattie"@.len() == 8);
    assert("Maledizioni"@.len() == 11);
    assert("Metamorfosi"@.len() == 11);
    assert("Nausea"@.len() == 6);
    assert("Nauseato"@.len() == 8);
    assert("Non Deformante"@.len() == 14);
    assert("Paralisi"@.len() == 8);
    assert("Paura"@.len() == 5);
    assert("Pietrificazione"@.len() == 15);
    assert("Sanguinamento"@.len() == 13);
    assert("Sanguinamento (solo Punti Ferita)"@.len() == 33);
    assert("Scosso"@.len() == 6);
    assert("Sguardo"@.len() == 7);
    assert("Sonno"@.len() == 5);
    assert("Sonoro"@.len() == 6);
    assert("Sordità"@.len() == 7);
    assert("Spaventato"@.len() == 10);
    assert("Stordimento"@.len() == 11);
    assert("Veleni"@.len() == 6);
    assert("Veleno"@.len() == 6);
    assert("Veleno Ingerito"@.len() == 15);
    assert("acido"@.len() == 5);
    assert("attacchi basati sulla vista ed effetti visivi"@.len() == 45);
    assert("attacchi con Sguardo"@.len() == 20);
    assert("attacchi con lo Sguardo"@.len() == 23);
    assert("attacchi con lo sguardo"@.len() == 23);
    assert("charme"@.len() == 6);
    assert("compulsione"@.len() == 11);
    assert("controllo mentale"@.len() == 17);
    assert("contundente"@.len() == 11);
    assert("da caduta e da schiacciamento"@.len() == 29);
    assert("danni contundenti"@.len() == 17);
    assert("danni contundenti e perforanti"@.len() == 30);
    assert("danni da arma"@.len() == 13);
    assert("danni da armi"@.len() == 13);
    assert("danni da precisione"@.len() == 19);
    assert("danni delle armi"@.len() == 16);
    assert("danni di precisione"@.len() == 19);
    assert("danni perforanti"@.len() == 16);
    assert("danni taglienti"@.len() == 15);
    assert("danni taglienti e perforanti"@.len() == 28);
    assert("danno da arma"@.len() == 13);
    assert("danno di precisione"@.len() == 19);
    assert("di influenza mentale e basati sullo Sguardo"@.len() == 43);
    assert("divinazione"@.len() == 11);
    assert("effetti Barcollanti"@.len() == 19);
    assert("effetti basati sulla vista"@.len() == 26);
    assert("effetti che bersagliano uno specifico numero di creature"@.len() == 56);
    assert("effetti di Charme e Compulsione"@.len() == 31);
    assert("effetti di Metamorfosi"@.len() == 22);
    assert("effetti di Paura"@.len() == 16);
    assert("effetti di Paura ed influenza mentale"@.len() == 37);
    assert("effetti di Sguardo"@.len() == 18);
    assert("effetti di Sonno"@.len() == 16);
    assert("effetti di ammaliamento"@.len() == 23);
    assert("effetti di charme"@.len() == 17);
    assert("effetti di charme e compulsione"@.len() == 31);
    assert("effetti di charme e compulsioni"@.len() == 31);
    assert("effetti di compulsione"@.len() == 22);
    assert("effetti di demenza"@.len() == 18);
    assert("effetti di influenza mentale"@.len() == 28);
    assert("effetti di influenza mentale e visivi"@.len() == 37);
    assert("effetti di maledizione"@.len() == 22);
    assert("effetti di maledizioni"@.len() == 22);
    assert("effetti di metamorfosi"@.len() == 22);
    assert("effetti di morte"@.len() == 16);
    assert("effetti di paura"@.len() == 16);
    assert("effetti di sguardo"@.len() == 18);
    assert("effetti di sonno"@.len() == 16);
    assert("effetti e illusioni visive"@.len() == 26);
    assert("effetti polimorfi"@.len() == 17);
    assert("effetti visivi"@.len() == 14);
    assert("effetti visivi e illusioni"@.len() == 26);
    assert("elettricità"@.len() == 11);
    assert("energia negativa"@.len() == 16);
    assert("ferite permanenti"@.len() == 17);
    assert("freddo"@.len() == 6);
    assert("fuoco"@.len() == 5);
    assert("illusioni"@.len() == 9);
    assert("illusioni visive"@.len() == 16);
    assert("malattia"@.len() == 8);
    assert("malattie"@.len() == 8);
    assert("maledizioni"@.len() == 11);
    assert("metamorfosi"@.len() == 11);
    assert("nausea"@.len() == 6);
    assert("paralisi"@.len() == 8);
    assert("paura"@.len() == 5);
    assert("pietrificazione"@.len() == 15);
    assert("possessione"@.len() == 11);
    assert("ruggine"@.len() == 7);
    assert("sanguinamento"@.len() == 13);
    assert("sonno"@.len() == 5);
    assert("sonoro"@.len() == 6);
    assert("sordità"@.len() == 7);
    assert("stordimento"@.len() == 11);
    assert("veleni"@.len() == 6);
    assert("veleno"@.len() == 6);
    assert("visivi ed illusori"@.len() == 18);

}

proof fn lemma_read_immunity_senseseffects(s: Seq<char>)
    requires
        immunity_named(Immunity_Type::Immunity_SensesEffects, s),
    ensures
        spec_single_immunity(s) == Some(Immunity_Type::Immunity_SensesEffects),
{
    reveal_strlit("Abbagliamenti");
    reveal_strlit("Abbagliamento");
    reveal_strlit("Abbagliato");
    reveal_strlit("Accecato");
    reveal_strlit("Acido");
    reveal_strlit("Affaticamento");
    reveal_strlit("Affaticato");
    reveal_strlit("Ammaliamento");
    reveal_strlit("Armi Taglienti");
    reveal_strlit("Armi contundenti");
    reveal_strlit("Assorbimento del Fuoco");
    reveal_strlit("Attacchi Furtivi");
    reveal_strlit("Attacchi ai Fianchi");
    reveal_strlit("Attacchi basati sull'olfatto");
    reveal_strlit("Attacchi basati sulla vista");
    reveal_strlit("Attacchi basati sulla vista o sguardo");
    reveal_strlit("Attacchi con Sguardo");
    reveal_strlit("Attacchi con lo sguardo");
    reveal_strlit("Attacchi dipendenti dalla vista");
    reveal_strlit("Barcollante");
    reveal_strlit("Barcollare");
    reveal_strlit("Cecità");
    reveal_strlit("Charme");
    reveal_strlit("Colpi Critici");
    reveal_strlit("Colpi critici");
    reveal_strlit("Condizione Affaticato");
    reveal_strlit("Condizione Esausto");
    reveal_strlit("Confusione");
    reveal_strlit("Danni Non Letali");
    reveal_strlit("Danni contundenti");
    reveal_strlit("Danni da arma");
    reveal_strlit("Danni da armi");
    reveal_strlit("Danni dalle Armi");
    reveal_strlit("Danni perforanti e taglienti");
    reveal_strlit("Danno da Pressione");
    reveal_strlit("Danno da arma");
    reveal_strlit("Danno non letale");
    reveal_strlit("Demenza");
    reveal_strlit("Divinazione");
    reveal_strlit("Effetti a completamento di incantesimo e ad attivazione di incantesimo");
    reveal_strlit("Effetti basati sulla vista");
    reveal_strlit("Effetti d'influenza mentale");
    reveal_strlit("Effetti di Charme e Compulsione");
    reveal_strlit("Effetti di Demenza");
    reveal_strlit("Effetti di Influenza Mentale");
    reveal_strlit("Effetti di Morte");
    reveal_strlit("Effetti di Paura");
    reveal_strlit("Effetti di Sonno");
    reveal_strlit("Effetti di charme");
    reveal_strlit("Effetti di charme e compulsioni");
    reveal_strlit("Effetti di influenza mentale");
    reveal_strlit("Effetti di morte");
    reveal_strlit("Effetti di morte (vedi sotto)");
    reveal_strlit("Effetti di paura");
    reveal_strlit("Effetti di sonno");
    reveal_strlit("Effetti visivi");
    reveal_strlit("Elettricità");
    reveal_strlit("Elettricità (parziale)");
    reveal_strlit("Energia Negativa");
    reveal_strlit("Energia Positiva");
    reveal_strlit("Esaurimento");
    reveal_strlit("Esausto");
    reveal_strlit("Fatica");
    reveal_strlit("Fiancheggiamento");
    reveal_strlit("Frastornamento");
    reveal_strlit("Frastornato");
    reveal_strlit("Freddo");
    reveal_strlit("Freddo (sé stesso e chi lo cavalca)");
    reveal_strlit("Fuoco");
    reveal_strlit("Fuoco Infernale");
    reveal_strlit("Illusione");
    reveal_strlit("Illusioni e qualsiasi attacco basato sulla vista");
    reveal_strlit("Immunità al Freddo");
    reveal_strlit("Immunità alla Magia");
    reveal_strlit("Infermità");
    reveal_strlit("Infermo");
    reveal_strlit("Magia");
    reveal_strlit("Malattia");
    reveal_strlit("Malattie");
    reveal_strlit("Maledizioni");
    reveal_strlit("Metamorfosi");
    reveal_strlit("Nausea");
    reveal_strlit("Nauseato");
    reveal_strlit("Non Deformante");
    reveal_strlit("Paralisi");
    reveal_strlit("Paura");
    reveal_strlit("Pietrificazione");
    reveal_strlit("Sanguinamento");
    reveal_strlit("Sanguinamento (solo Punti Ferita)");
    reveal_strlit("Scosso");
    reveal_strlit("Sguardo");
    reveal_strlit("Sonno");
    reveal_strlit("Sonoro");
    reveal_strlit("Sordità");
    reveal_strlit("Spaventato");
    reveal_strlit("Stordimento");
    reveal_strlit("Veleni");
    reveal_strlit("Veleno");
    reveal_strlit("Veleno Ingerito");
    reveal_strlit("acido");
    reveal_strlit("attacchi basati sulla vista ed effetti visivi");
    reveal_strlit("attacchi con Sguardo");
    reveal_strlit("attacchi con lo Sguardo");
    reveal_strlit("attacchi con lo sguardo");
    reveal_strlit("charme");
    reveal_strlit("compulsione");
    reveal_strlit("controllo mentale");
    reveal_strlit("contundente");
    reveal_strlit("da caduta e da schiacciamento");
    reveal_strlit("danni contundenti");
    reveal_strlit("danni contundenti e perforanti");
    reveal_strlit("danni da arma");
    reveal_strlit("danni da armi");
    reveal_strlit("danni da precisione");
    reveal_strlit("danni delle armi");
    reveal_strlit("danni di precisione");
    reveal_strlit("danni perforanti");
    reveal_strlit("danni taglienti");
    reveal_strlit("danni taglienti e perforanti");
    reveal_strlit("danno da arma");
    reveal_strlit("danno di precisione");
    reveal_strlit("di influenza mentale e basati sullo Sguardo");
    reveal_strlit("divinazione");
    reveal_strlit("effetti Barcollanti");
    reveal_strlit("effetti basati sulla vista");
    reveal_strlit("effetti che bersagliano uno specifico numero di creature");
    reveal_strlit("effetti di Charme e Compulsione");
    reveal_strlit("effetti di Metamorfosi");
    reveal_strlit("effetti di Paura");
    reveal_strlit("effetti di Paura ed influenza mentale");
    reveal_strlit("effetti di Sguardo");
    reveal_strlit("effetti di Sonno");
    reveal_strlit("effetti di ammaliamento");
    reveal_strlit("effetti di charme");
    reveal_strlit("effetti di charme e compulsione");
    reveal_strlit("effetti di charme e compulsioni");
    reveal_strlit("effetti di compulsione");
    reveal_strlit("effetti di demenza");
    reveal_strlit("effetti di influenza mentale");
    reveal_strlit("effetti di influenza mentale e visivi");
    reveal_strlit("effetti di maledizione");
    reveal_strlit("effetti di maledizioni");
    reveal_strlit("effetti di metamorfosi");
    reveal_strlit("effetti di morte");
    reveal_strlit("effetti di paura");
    reveal_strlit("effetti di sguardo");
    reveal_strlit("effetti di sonno");
    reveal_strlit("effetti e illusioni visive");
    reveal_strlit("effetti polimorfi");
    reveal_strlit("effetti sensoriali");
    reveal_strlit("effetti visivi");
    reveal_strlit("effetti visivi e illusioni");
    reveal_strlit("elettricità");
    reveal_strlit("energia negativa");
    reveal_strlit("ferite permanenti");
    reveal_strlit("freddo");
    reveal_strlit("fuoco");
    reveal_strlit("illusioni");
    reveal_strlit("illusioni visive");
    reveal_strlit("malattia");
    reveal_strlit("malattie");
    reveal_strlit("maledizioni");
    reveal_strlit("metamorfosi");
    reveal_strlit("nausea");
    reveal_strlit("paralisi");
    reveal_strlit("paura");
    reveal_strlit("pietrificazione");
    reveal_strlit("possessione");
    reveal_strlit("ruggine");
    reveal_strlit("sanguinamento");
    reveal_strlit("sonno");
    reveal_strlit("sonoro");
    reveal_strlit("sordità");
    reveal_strlit("stordimento");
    reveal_strlit("veleni");
    reveal_strlit("veleno");
    reveal_strlit("visivi ed illusori");
    assert("Abbagliamenti"@.len() == 13);
    assert("Abbagliamento"@.len() == 13);
    assert("Abbagliato"@.len() == 10);
    assert("Accecato"@.len() == 8);
    assert("Acido"@.len() == 5);
    assert("Affaticamento"@.len() == 13);
    assert("Affaticato"@.len() == 10);
    assert("Ammaliamento"@.len() == 12);
    assert("Armi Taglienti"@.len() == 14);
    assert("Armi contundenti"@.len() == 16);
    assert("Assorbimento del Fuoco"@.len() == 22);
    assert("Attacchi Furtivi"@.len() == 16);
    assert("Attacchi ai Fianchi"@.len() == 19);
    assert("Attacchi basati sull'olfatto"@.len() == 28);
    assert("Attacchi basati sulla vista"@.len() == 27);
    assert("Attacchi basati sulla vista o sguardo"@.len() == 37);
    assert("Attacchi con Sguardo"@.len() == 20);
    assert("Attacchi con lo sguardo"@.len() == 23);
    assert("Attacchi dipendenti dalla vista"@.len() == 31);
    assert("Barcollante"@.len() == 11);
    assert("Barcollare"@.len() == 10);
    assert("Cecità"@.len() == 6);
    assert("Charme"@.len() == 6);
    assert("Colpi Critici"@.len() == 13);
    assert("Colpi critici"@.len() == 13);
    assert("Condizione Affaticato"@.len() == 21);
    assert("Condizione Esausto"@.len() == 18);
    assert("Confusione"@.len() == 10);
    assert("Danni Non Letali"@.len() == 16);
    assert("Danni contundenti"@.len() == 17);
    assert("Danni da arma"@.len() == 13);
    assert("Danni da armi"@.len() == 13);
    assert("Danni dalle Armi"@.len() == 16);
    assert("Danni perforanti e taglienti"@.len() == 28);
    assert("Danno da Pressione"@.len() == 18);
    assert("Danno da arma"@.len() == 13);
    assert("Danno non letale"@.len() == 16);
    assert("Demenza"@.len() == 7);
    assert("Divinazione"@.len() == 11);
    assert("Effetti a completamento di incantesimo e ad attivazione di incantesimo"@.len() == 70);
    assert("Effetti basati sulla vista"@.len() == 26);
    assert("Effetti d'influenza mentale"@.len() == 27);
    assert("Effetti di Charme e Compulsione"@.len() == 31);
    assert("Effetti di Demenza"@.len() == 18);
    assert("Effetti di Influenza Mentale"@.len() == 28);
    assert("Effetti di Morte"@.len() == 16);
    assert("Effetti di Paura"@.len() == 16);
    assert("Effetti di Sonno"@.len() == 16);
    assert("Effetti di charme"@.len() == 17);
    assert("Effetti di charme e compulsioni"@.len() == 31);
    assert("Effetti di influenza mentale"@.len() == 28);
    assert("Effetti di morte"@.len() == 16);
    assert("Effetti di morte (vedi sotto)"@.len() == 29);
    assert("Effetti di paura"@.len() == 16);
    assert("Effetti di sonno"@.len() == 16);
    assert("Effetti visivi"@.len() == 14);
    assert("Elettricità"@.len() == 11);
    assert("Elettricità (parziale)"@.len() == 22);
    assert("Energia Negativa"@.len() == 16);
    assert("Energia Positiva"@.len() == 16);
    assert("Esaurimento"@.len() == 11);
    assert("Esausto"@.len() == 7);
    assert("Fatica"@.len() == 6);
    assert("Fiancheggiamento"@.len() == 16);
    assert("Frastornamento"@.len() == 14);
    assert("Frastornato"@.len() == 11);
    assert("Freddo"@.len() == 6);
    assert("Freddo (sé stesso e chi lo cavalca)"@.len() == 35);
    assert("Fuoco"@.len() == 5);
    assert("Fuoco Infernale"@.len() == 15);
    assert("Illusione"@.len() == 9);
    assert("Illusioni e qualsiasi attacco basato sulla vista"@.len() == 48);
    assert("Immunità al Freddo"@.len() == 18);
    assert("Immunità alla Magia"@.len() == 19);
    assert("Infermità"@.len() == 9);
    assert("Infermo"@.len() == 7);
    assert("Magia"@.len() == 5);
    assert("Malattia"@.len() == 8);
    assert("Malattie"@.len() == 8);
    assert("Maledizioni"@.len() == 11);
    assert("Metamorfosi"@.len() == 11);
    assert("Nausea"@.len() == 6);
    assert("Nauseato"@.len() == 8);
    assert("Non Deformante"@.len() == 14);
    assert("Paralisi"@.len() == 8);
    assert("Paura"@.len() == 5);
    assert("Pietrificazione"@.len() == 15);
    assert("Sanguinamento"@.len() == 13);
    assert("Sanguinamento (solo Punti Ferita)"@.len() == 33);
    assert("Scosso"@.len() == 6);
    assert("Sguardo"@.len() == 7);
    assert("Sonno"@.len() == 5);
    assert("Sonoro"@.len() == 6);
    assert("Sordità"@.len() == 7);
    assert("Spaventato"@.len() == 10);
    assert("Stordimento"@.len() == 11);
    assert("Veleni"@.len() == 6);
    assert("Veleno"@.len() == 6);
    assert("Veleno Ingerito"@.len() == 15);
    assert("acido"@.len() == 5);
    assert("attacchi basati sulla vista ed effetti visivi"@.len() == 45);
    assert("attacchi con Sguardo"@.len() == 20);
    assert("attacchi con lo Sguardo"@.len() == 23);
    assert("attacchi con lo sguardo"@.len() == 23);
    assert("charme"@.len() == 6);
    assert("compulsione"@.len() == 11);
    assert("controllo mentale"@.len() == 17);
    assert("contundente"@.len() == 11);
    assert("da caduta e da schiacciamento"@.len() == 29);
    assert("danni contundenti"@.len() == 17);
    assert("danni contundenti e perforanti"@.len() == 30);
    assert("danni da arma"@.len() == 13);
    assert("danni da armi"@.len() == 13);
    assert("danni da precisione"@.len() == 19);
    assert("danni delle armi"@.len() == 16);
    assert("danni di precisione"@.len() == 19);
    assert("danni perforanti"@.len() == 16);
    assert("danni taglienti"@.len() == 15);
    assert("danni taglienti e perforanti"@.len() == 28);
    assert("danno da arma"@.len() == 13);
    assert("danno di precisione"@.len() == 19);
    assert("di influenza mentale e basati sullo Sguardo"@.len() == 43);
    assert("divinazione"@.len() == 11);
    assert("effetti Barcollanti"@.len() == 19);
    assert("effetti basati sulla vista"@.len() == 26);
    assert("effetti che bersagliano uno specifico numero di creature"@.len() == 56);
    assert("effetti di Charme e Compulsione"@.len() == 31);
    assert("effetti di Metamorfosi"@.len() == 22);
    assert("effetti di Paura"@.len() == 16);
    assert("effetti di Paura ed influenza mentale"@.len() == 37);
    assert("effetti di Sguardo"@.len() == 18);
    assert("effetti di Sonno"@.len() == 16);
    assert("effetti di ammaliamento"@.len() == 23);
    assert("effetti di charme"@.len() == 17);
    assert("effetti di charme e compulsione"@.len() == 31);
    assert("effetti di charme e compulsioni"@.len() == 31);
    assert("effetti di compulsione"@.len() == 22);
    assert("effetti di demenza"@.len() == 18);
    assert("effetti di influenza mentale"@.len() == 28);
    assert("effetti di influenza mentale e visivi"@.len() == 37);
    assert("effetti di maledizione"@.len() == 22);
    assert("effetti di maledizioni"@.len() == 22);
    assert("effetti di metamorfosi"@.len() == 22);
    assert("effetti di morte"@.len() == 16);
    assert("effetti di paura"@.len() == 16);
    assert("effetti di sguardo"@.len() == 18);
    assert("effetti di sonno"@.len() == 16);
    assert("effetti e illusioni visive"@.len() == 26);
    assert("effetti polimorfi"@.len() == 17);
    assert("effetti sensoriali"@.len() == 18);
    assert("effetti visivi"@.len() == 14);
    assert("effetti visivi e illusioni"@.len() == 26);
    assert("elettricità"@.len() == 11);
    assert("energia negativa"@.len() == 16);
    assert("ferite permanenti"@.len() == 17);
    assert("freddo"@.len() == 6);
    assert("fuoco"@.len() == 5);
    assert("illusioni"@.len() == 9);
    assert("illusioni visive"@.len() == 16);
    assert("malattia"@.len() == 8);
    assert("malattie"@.len() == 8);
    assert("maledizioni"@.len() == 11);
    assert("metamorfosi"@.len() == 11);
    assert("nausea"@.len() == 6);
    assert("paralisi"@.len() == 8);
    assert("paura"@.len() == 5);
    assert("pietrificazione"@.len() == 15);
    assert("possessione"@.len() == 11);
    assert("ruggine"@.len() == 7);
    assert("sanguinamento"@.len() == 13);
    assert("sonno"@.len() == 5);
    assert("sonoro"@.len() == 6);
    assert("sordità"@.len() == 7);
    assert("stordimento"@.len() == 11);
    assert("veleni"@.len() == 6);
    assert("veleno"@.len() == 6);
    assert("visivi ed illusori"@.len() == 18);
    assert("effetti sensoriali"@[0] != "Immunità al Freddo"@[0]);
    assert("effetti sensoriali"@ != "Immunità al Freddo"@);
    assert("effetti sensoriali"@[0] != "Condizione Esausto"@[0]);
    assert("effetti sensoriali"@ != "Condizione Esausto"@);
    assert("effetti sensoriali"@[0] != "Danno da Pressione"@[0]);
    assert("effetti sensoriali"@ != "Danno da Pressione"@);
    assert("effetti sensoriali"@[8] != "effetti di Sguardo"@[8]);
    assert("effetti sensoriali"@ != "effetti di Sguardo"@);
    assert("effetti sensoriali"@[8] != "effetti di sguardo"@[8]);
    assert("effetti sensoriali"@ != "effetti di sguardo"@);
    assert("effetti sensoriali"@[0] != "visivi ed illusori"@[0]);
    assert("effetti sensoriali"@ != "visivi ed illusori"@);
    assert("effetti sensoriali"@[0] != "Effetti di Demenza"@[0]);
    assert("effetti sensoriali"@ != "Effetti di Demenza"@);
    assert("effetti sensoriali"@[8] != "effetti di demenza"@[8]);
    assert("effetti sensoriali"@ != "effetti di demenza"@);
}

proof fn lemma_read_immunity_emotioneffects(s: Seq<char>)
    requires
        immunity_named(Immunity_Type::Immunity_EmotionEffects, s),
    ensures
        spec_single_immunity(s) == Some(Immunity_Type::Immunity_EmotionEffects),
{
    reveal_strlit("Abbagliamenti");
    reveal_strlit("Abbagliamento");
    reveal_strlit("Abbagliato");
    reveal_strlit("Accecato");
    reveal_strlit("Acido");
    reveal_strlit("Affaticamento");
    reveal_strlit("Affaticato");
    reveal_strlit("Ammaliamento");
    reveal_strlit("Armi Taglienti");
    reveal_strlit("Armi contundenti");
    reveal_strlit("Assorbimento del Fuoco");
    reveal_strlit("Attacchi Furtivi");
    reveal_strlit("Attacchi ai Fianchi");
    reveal_strlit("Attacchi basati sull'olfatto");
    reveal_strlit("Attacchi basati sulla vista");
    reveal_strlit("Attacchi basati sulla vista o sguardo");
    reveal_strlit("Attacchi con Sguardo");
    reveal_strlit("Attacchi con lo sguardo");
    reveal_strlit("Attacchi dipendenti dalla vista");
    reveal_strlit("Barcollante");
    reveal_strlit("Barcollare");
    reveal_strlit("Cecità");
    reveal_strlit("Charme");
    reveal_strlit("Colpi Critici");
    reveal_strlit("Colpi critici");
    reveal_strlit("Condizione Affaticato");
    reveal_strlit("Condizione Esausto");
    reveal_strlit("Confusione");
    reveal_strlit("Danni Non Letali");
    reveal_strlit("Danni contundenti");
    reveal_strlit("Danni da arma");
    reveal_strlit("Danni da armi");
    reveal_strlit("Danni dalle Armi");
    reveal_strlit("Danni perforanti e taglienti");
    reveal_strlit("Danno da Pressione");
    reveal_strlit("Danno da arma");
    reveal_strlit("Danno non letale");
    reveal_strlit("Demenza");
    reveal_strlit("Divinazione");
    reveal_strlit("Effetti a completamento di incantesimo e ad attivazione di incantesimo");
    reveal_strlit("Effetti basati sulla vista");
    reveal_strlit("Effetti d'influenza mentale");
    reveal_strlit("Effetti di Charme e Compulsione");
    reveal_strlit("Effetti di Demenza");
    reveal_strlit("Effetti di Influenza Mentale");
    reveal_strlit("Effetti di Morte");
    reveal_strlit("Effetti di Paura");
    reveal_strlit("Effetti di Sonno");
    reveal_strlit("Effetti di charme");
    reveal_strlit("Effetti di charme e compulsioni");
    reveal_strlit("Effetti di influenza mentale");
    reveal_strlit("Effetti di morte");
    reveal_strlit("Effetti di morte (vedi sotto)");
    reveal_strlit("Effetti di paura");
    reveal_strlit("Effetti di sonno");
    reveal_strlit("Effetti visivi");
    reveal_strlit("Elettricità");
    reveal_strlit("Elettricità (parziale)");
    reveal_strlit("Energia Negativa");
    reveal_strlit("Energia Positiva");
    reveal_strlit("Esaurimento");
    reveal_strlit("Esausto");
    reveal_strlit("Fatica");
    reveal_strlit("Fiancheggiamento");
    reveal_strlit("Frastornamento");
    reveal_strlit("Frastornato");
    reveal_strlit("Freddo");
    reveal_strlit("Freddo (sé stesso e chi lo cavalca)");
    reveal_strlit("Fuoco");
    reveal_strlit("Fuoco Infernale");
    reveal_strlit("Illusione");
    reveal_strlit("Illusioni e qualsiasi attacco basato sulla vista");
    reveal_strlit("Immunità al Freddo");
    reveal_strlit("Immunità alla Magia");
    reveal_strlit("Infermità");
    reveal_strlit("Infermo");
    reveal_strlit("Magia");
    reveal_strlit("Malattia");
    reveal_strlit("Malattie");
    reveal_strlit("Maledizioni");
    reveal_strlit("Metamorfosi");
    reveal_strlit("Nausea");
    reveal_strlit("Nauseato");
    reveal_strlit("Non Deformante");
    reveal_strlit("Paralisi");
    reveal_strlit("Paura");
    reveal_strlit("Pietrificazione");
    reveal_strlit("Sanguinamento");
    reveal_strlit("Sanguinamento (solo Punti Ferita)");
    reveal_strlit("Scosso");
    reveal_strlit("Sguardo");
    reveal_strlit("Sonno");
    reveal_strlit("Sonoro");
    reveal_strlit("Sordità");
    reveal_strlit("Spaventato");
    reveal_strlit("Stordimento");
    reveal_strlit("Veleni");
    reveal_strlit("Veleno");
    reveal_strlit("Veleno Ingerito");
    reveal_strlit("acido");
    reveal_strlit("attacchi basati sulla vista ed effetti visivi");
    reveal_strlit("attacchi con Sguardo");
    reveal_strlit("attacchi con lo Sguardo");
    reveal_strlit("attacchi con lo sguardo");
    reveal_strlit("charme");
    reveal_strlit("compulsione");
    reveal_strlit("controllo mentale");
    reveal_strlit("contundente");
    reveal_strlit("da caduta e da schiacciamento");
    reveal_strlit("danni contundenti");
    reveal_strlit("danni contundenti e perforanti");
    reveal_strlit("danni da arma");
    reveal_strlit("danni da armi");
    reveal_strlit("danni da precisione");
    reveal_strlit("danni delle armi");
    reveal_strlit("danni di precisione");
    reveal_strlit("danni perforanti");
    reveal_strlit("danni taglienti");
    reveal_strlit("danni taglienti e perforanti");
    reveal_strlit("danno da arma");
    reveal_strlit("danno di precisione");
    reveal_strlit("di influenza mentale e basati sullo Sguardo");
    reveal_strlit("divinazione");
    reveal_strlit("effetti Barcollanti");
    reveal_strlit("effetti basati sulla vista");
    reveal_strlit("effetti che bersagliano uno specifico numero di creature");
    reveal_strlit("effetti di Charme e Compulsione");
    reveal_strlit("effetti di Metamorfosi");
    reveal_strlit("effetti di Paura");
    reveal_strlit("effetti di Paura ed influenza mentale");
    reveal_strlit("effetti di Sguardo");
    reveal_strlit("effetti di Sonno");
    reveal_strlit("effetti di ammaliamento");
    reveal_strlit("effetti di charme");
    reveal_strlit("effetti di charme e compulsione");
    reveal_strlit("effetti di charme e compulsioni");
    reveal_strlit("effetti di compulsione");
    reveal_strlit("effetti di demenza");
    reveal_strlit("effetti di influenza mentale");
    reveal_strlit("effetti di influenza mentale e visivi");
    reveal_strlit("effetti di maledizione");
    reveal_strlit("effetti di maledizioni");
    reveal_strlit("effetti di metamorfosi");
    reveal_strlit("effetti di morte");
    reveal_strlit("effetti di paura");
    reveal_strlit("effetti di sguardo");
    reveal_strlit("effetti di sonno");
    reveal_strlit("effetti e illusioni visive");
    reveal_strlit("effetti polimorfi");
    reveal_strlit("effetti sensoriali");
    reveal_strlit("effetti visivi");
    reveal_strlit("effetti visivi e illusioni");
    reveal_strlit("elettricità");
    reveal_strlit("emozioni");
    reveal_strlit("energia negativa");
    reveal_strlit("ferite permanenti");
    reveal_strlit("freddo");
    reveal_strlit("fuoco");
    reveal_strlit("illusioni");
    reveal_strlit("illusioni visive");
    reveal_strlit("malattia");
    reveal_strlit("malattie");
    reveal_strlit("maledizioni");
    reveal_strlit("metamorfosi");
    reveal_strlit("nausea");
    reveal_strlit("paralisi");
    reveal_strlit("paura");
    reveal_strlit("pietrificazione");
    reveal_strlit("possessione");
    reveal_strlit("ruggine");
    reveal_strlit("sanguinamento");
    reveal_strlit("sonno");
    reveal_strlit("sonoro");
    reveal_strlit("sordità");
    reveal_strlit("stordimento");
    reveal_strlit("veleni");
    reveal_strlit("veleno");
    reveal_strlit("visivi ed illusori");
    assert("Abbagliamenti"@.len() == 13);
    assert("Abbagliamento"@.len() == 13);
    assert("Abbagliato"@.len() == 10);
    assert("Accecato"@.len() == 8);
    assert("Acido"@.len() == 5);
    assert("Affaticamento"@.len() == 13);
    assert("Affaticato"@.len() == 10);
    assert("Ammaliamento"@.len() == 12);
    assert("Armi Taglienti"@.len() == 14);
    assert("Armi contundenti"@.len() == 16);
    assert("Assorbimento del Fuoco"@.len() == 22);
    assert("Attacchi Furtivi"@.len() == 16);
    assert("Attacchi ai Fianchi"@.len() == 19);
    assert("Attacchi basati sull'olfatto"@.len() == 28);
    assert("Attacchi basati sulla vista"@.len() == 27);
    assert("Attacchi basati sulla vista o sguardo"@.len() == 37);
    assert("Attacchi con Sguardo"@.len() == 20);
    assert("Attacchi con lo sguardo"@.len() == 23);
    assert("Attacchi dipendenti dalla vista"@.len() == 31);
    assert("Barcollante"@.len() == 11);
    assert("Barcollare"@.len() == 10);
    assert("Cecità"@.len() == 6);
    assert("Charme"@.len() == 6);
    assert("Colpi Critici"@.len() == 13);
    assert("Colpi critici"@.len() == 13);
    assert("Condizione Affaticato"@.len() == 21);
    assert("Condizione Esausto"@.len() == 18);
    assert("Confusione"@.len() == 10);
    assert("Danni Non Letali"@.len() == 16);
    assert("Danni contundenti"@.len() == 17);
    assert("Danni da arma"@.len() == 13);
    assert("Danni da armi"@.len() == 13);
    assert("Danni dalle Armi"@.len() == 16);
    assert("Danni perforanti e taglienti"@.len() == 28);
    assert("Danno da Pressione"@.len() == 18);
    assert("Danno da arma"@.len() == 13);
    assert("Danno non letale"@.len() == 16);
    assert("Demenza"@.len() == 7);
    assert("Divinazione"@.len() == 11);
    assert("Effetti a completamento di incantesimo e ad attivazione di incantesimo"@.len() == 70);
    assert("Effetti basati sulla vista"@.len() == 26);
    assert("Effetti d'influenza mentale"@.len() == 27);
    assert("Effetti di Charme e Compulsione"@.len() == 31);
    assert("Effetti di Demenza"@.len() == 18);
    assert("Effetti di Influenza Mentale"@.len() == 28);
    assert("Effetti di Morte"@.len() == 16);
    assert("Effetti di Paura"@.len() == 16);
    assert("Effetti di Sonno"@.len() == 16);
    assert("Effetti di charme"@.len() == 17);
    assert("Effetti di charme e compulsioni"@.len() == 31);
    assert("Effetti di influenza mentale"@.len() == 28);
    assert("Effetti di morte"@.len() == 16);
    assert("Effetti di morte (vedi sotto)"@.len() == 29);
    assert("Effetti di paura"@.len() == 16);
    assert("Effetti di sonno"@.len() == 16);
    assert("Effetti visivi"@.len() == 14);
    assert("Elettricità"@.len() == 11);
    assert("Elettricità (parziale)"@.len() == 22);
    assert("Energia Negativa"@.len() == 16);
    assert("Energia Positiva"@.len() == 16);
    assert("Esaurimento"@.len() == 11);
    assert("Esausto"@.len() == 7);
    assert("Fatica"@.len() == 6);
    assert("Fiancheggiamento"@.len() == 16);
    assert("Frastornamento"@.len() == 14);
    assert("Frastornato"@.len() == 11);
    assert("Freddo"@.len() == 6);
    assert("Freddo (sé stesso e chi lo cavalca)"@.len() == 35);
    assert("Fuoco"@.len() == 5);
    assert("Fuoco Infernale"@.len() == 15);
    assert("Illusione"@.len() == 9);
    assert("Illusioni e qualsiasi attacco basato sulla vista"@.len() == 48);
    assert("Immunità al Freddo"@.len() == 18);
    assert("Immunità alla Magia"@.len() == 19);
    assert("Infermità"@.len() == 9);
    assert("Infermo"@.len() == 7);
    assert("Magia"@.len() == 5);
    assert("Malattia"@.len() == 8);
    assert("Malattie"@.len() == 8);
    assert("Maledizioni"@.len() == 11);
    assert("Metamorfosi"@.len() == 11);
    assert("Nausea"@.len() == 6);
    assert("Nauseato"@.len() == 8);
    assert("Non Deformante"@.len() == 14);
    assert("Paralisi"@.len() == 8);
    assert("Paura"@.len() == 5);
    assert("Pietrificazione"@.len() == 15);
    assert("Sanguinamento"@.len() == 13);
    assert("Sanguinamento (solo Punti Ferita)"@.len() == 33);
    assert("Scosso"@.len() == 6);
    assert("Sguardo"@.len() == 7);
    assert("Sonno"@.len() == 5);
    assert("Sonoro"@.len() == 6);
    assert("Sordità"@.len() == 7);
    assert("Spaventato"@.len() == 10);
    assert("Stordimento"@.len() == 11);
    assert("Veleni"@.len() == 6);
    assert("Veleno"@.len() == 6);
    assert("Veleno Ingerito"@.len() == 15);
    assert("acido"@.len() == 5);
    assert("attacchi basati sulla vista ed effetti visivi"@.len() == 45);
    assert("attacchi con Sguardo"@.len() == 20);
    assert("attacchi con lo Sguardo"@.len() == 23);
    assert("attacchi con lo sguardo"@.len() == 23);
    assert("charme"@.len() == 6);
    assert("compulsione"@.len() == 11);
    assert("controllo mentale"@.len() == 17);
    assert("contundente"@.len() == 11);
    assert("da caduta e da schiacciamento"@.len() == 29);
    assert("danni contundenti"@.len() == 17);
    assert("danni contundenti e perforanti"@.len() == 30);
    assert("danni da arma"@.len() == 13);
    assert("danni da armi"@.len() == 13);
    assert("danni da precisione"@.len() == 19);
    assert("danni delle armi"@.len() == 16);
    assert("danni di precisione"@.len() == 19);
    assert("danni perforanti"@.len() == 16);
    assert("danni taglienti"@.len() == 15);
    assert("danni taglienti e perforanti"@.len() == 28);
    assert("danno da arma"@.len() == 13);
    assert("danno di precisione"@.len() == 19);
    assert("di influenza mentale e basati sullo Sguardo"@.len() == 43);
    assert("divinazione"@.len() == 11);
    assert("effetti Barcollanti"@.len() == 19);
    assert("effetti basati sulla vista"@.len() == 26);
    assert("effetti che bersagliano uno specifico numero di creature"@.len() == 56);
    assert("effetti di Charme e Compulsione"@.len() == 31);
    assert("effetti di Metamorfosi"@.len() == 22);
    assert("effetti di Paura"@.len() == 16);
    assert("effetti di Paura ed influenza mentale"@.len() == 37);
    assert("effetti di Sguardo"@.len() == 18);
    assert("effetti di Sonno"@.len() == 16);
    assert("effetti di ammaliamento"@.len() == 23);
    assert("effetti di charme"@.len() == 17);
    assert("effetti di charme e compulsione"@.len() == 31);
    assert("effetti di charme e compulsioni"@.len() == 31);
    assert("effetti di compulsione"@.len() == 22);
    assert("effetti di demenza"@.len() == 18);
    assert("effetti di influenza mentale"@.len() == 28);
    assert("effetti di influenza mentale e visivi"@.len() == 37);
    assert("effetti di maledizione"@.len() == 22);
    assert("effetti di maledizioni"@.len() == 22);
    assert("effetti di metamorfosi"@.len() == 22);
    assert("effetti di morte"@.len() == 16);
    assert("effetti di paura"@.len() == 16);
    assert("effetti di sguardo"@.len() == 18);
    assert("effetti di sonno"@.len() == 16);
    assert("effetti e illusioni visive"@.len() == 26);
    assert("effetti polimorfi"@.len() == 17);
    assert("effetti sensoriali"@.len() == 18);
    assert("effetti visivi"@.len() == 14);
    assert("effetti visivi e illusioni"@.len() == 26);
    assert("elettricità"@.len() == 11);
    assert("emozioni"@.len() == 8);
    assert("energia negativa"@.len() == 16);
    assert("ferite permanenti"@.len() == 17);
    assert("freddo"@.len() == 6);
    assert("fuoco"@.len() == 5);
    assert("illusioni"@.len() == 9);
    assert("illusioni visive"@.len() == 16);
    assert("malattia"@.len() == 8);
    assert("malattie"@.len() == 8);
    assert("maledizioni"@.len() == 11);
    assert("metamorfosi"@.len() == 11);
    assert("nausea"@.len() == 6);
    assert("paralisi"@.len() == 8);
    assert("paura"@.len() == 5);
    assert("pietrificazione"@.len() == 15);
    assert("possessione"@.len() == 11);
    assert("ruggine"@.len() == 7);
    assert("sanguinamento"@.len() == 13);
    assert("sonno"@.len() == 5);
    assert("sonoro"@.len() == 6);
    assert("sordità"@.len() == 7);
    assert("stordimento"@.len() == 11);
    assert("veleni"@.len() == 6);
    assert("veleno"@.len() == 6);
    assert("visivi ed illusori"@.len() == 18);
    assert("emozioni"@[0] != "Paralisi"@[0]);
    assert("emozioni"@ != "Paralisi"@);
    assert("emozioni"@[0] != "paralisi"@[0]);
    assert("emozioni"@ != "paralisi"@);
    assert("emozioni"@[0] != "Nauseato"@[0]);
    assert("emozioni"@ != "Nauseato"@);
    assert("emozioni"@[0] != "Accecato"@[0]);
    assert("emozioni"@ != "Accecato"@);
    assert("emozioni"@[0] != "Malattie"@[0]);
    assert("emozioni"@ != "Malattie"@);
    assert("emozioni"@[0] != "Malattia"@[0]);
    assert("emozioni"@ != "Malattia"@);
    assert("emozioni"@[0] != "malattie"@[0]);
    assert("emozioni"@ != "malattie"@);
    assert("emozioni"@[0] != "malattia"@[0]);
    assert("emozioni"@ != "malattia"@);
}

proof fn lemma_read_immunity_forceeffects(s: Seq<char>)
    requires
        immunity_named(Immunity_Type::Immunity_ForceEffects, s),
    ensures
        spec_single_immunity(s) == Some(Immunity_Type::Immunity_ForceEffects),
{
    reveal_strlit("Abbagliamenti");
    reveal_strlit("Abbagliamento");
    reveal_strlit("Abbagliato");
    reveal_strlit("Accecato");
    reveal_strlit("Acido");
    reveal_strlit("Affaticamento");
    reveal_strlit("Affaticato");
    reveal_strlit("Ammaliamento");
    reveal_strlit("Armi Taglienti");
    reveal_strlit("Armi contundenti");
    reveal_strlit("Assorbimento del Fuoco");
    reveal_strlit("Attacchi Furtivi");
    reveal_strlit("Attacchi ai Fianchi");
    reveal_strlit("Attacchi basati sull'olfatto");
    reveal_strlit("Attacchi basati sulla vista");
    reveal_strlit("Attacchi basati sulla vista o sguardo");
    reveal_strlit("Attacchi con Sguardo");
    reveal_strlit("Attacchi con lo sguardo");
    reveal_strlit("Attacchi dipendenti dalla vista");
    reveal_strlit("Barcollante");
    reveal_strlit("Barcollare");
    reveal_strlit("Cecità");
    reveal_strlit("Charme");
    reveal_strlit("Colpi Critici");
    reveal_strlit("Colpi critici");
    reveal_strlit("Condizione Affaticato");
    reveal_strlit("Condizione Esausto");
    reveal_strlit("Confusione");
    reveal_strlit("Danni Non Letali");
    reveal_strlit("Danni contundenti");
    reveal_strlit("Danni da arma");
    reveal_strlit("Danni da armi");
    reveal_strlit("Danni dalle Armi");
    reveal_strlit("Danni perforanti e taglienti");
    reveal_strlit("Danno da Pressione");
    reveal_strlit("Danno da arma");
    reveal_strlit("Danno non letale");
    reveal_strlit("Demenza");
    reveal_strlit("Divinazione");
    reveal_strlit("Effetti a completamento di incantesimo e ad attivazione di incantesimo");
    reveal_strlit("Effetti basati sulla vista");
    reveal_strlit("Effetti d'influenza mentale");
    reveal_strlit("Effetti di Charme e Compulsione");
    reveal_strlit("Effetti di Demenza");
    reveal_strlit("Effetti di Influenza Mentale");
    reveal_strlit("Effetti di Morte");
    reveal_strlit("Effetti di Paura");
    reveal_strlit("Effetti di Sonno");
    reveal_strlit("Effetti di charme");
    reveal_strlit("Effetti di charme e compulsioni");
    reveal_strlit("Effetti di forza");
    reveal_strlit("Effetti di influenza mentale");
    reveal_strlit("Effetti di morte");
    reveal_strlit("Effetti di morte (vedi sotto)");
    reveal_strlit("Effetti di paura");
    reveal_strlit("Effetti di sonno");
    reveal_strlit("Effetti visivi");
    reveal_strlit("Elettricità");
    reveal_strlit("Elettricità (parziale)");
    reveal_strlit("Energia Negativa");
    reveal_strlit("Energia Positiva");
    reveal_strlit("Esaurimento");
    reveal_strlit("Esausto");
    reveal_strlit("Fatica");
    reveal_strlit("Fiancheggiamento");
    reveal_strlit("Forza");
    reveal_strlit("Frastornamento");
    reveal_strlit("Frastornato");
    reveal_strlit("Freddo");
    reveal_strlit("Freddo (sé stesso e chi lo cavalca)");
    reveal_strlit("Fuoco");
    reveal_strlit("Fuoco Infernale");
    reveal_strlit("Illusione");
    reveal_strlit("Illusioni e qualsiasi attacco basato sulla vista");
    reveal_strlit("Immunità al Freddo");
    reveal_strlit("Immunità alla Magia");
    reveal_strlit("Infermità");
    reveal_strlit("Infermo");
    reveal_strlit("Magia");
    reveal_strlit("Malattia");
    reveal_strlit("Malattie");
    reveal_strlit("Maledizioni");
    reveal_strlit("Metamorfosi");
    reveal_strlit("Nausea");
    reveal_strlit("Nauseato");
    reveal_strlit("Non Deformante");
    reveal_strlit("Paralisi");
    reveal_strlit("Paura");
    reveal_strlit("Pietrificazione");
    reveal_strlit("Sanguinamento");
    reveal_strlit("Sanguinamento (solo Punti Ferita)");
    reveal_strlit("Scosso");
    reveal_strlit("Sguardo");
    reveal_strlit("Sonno");
    reveal_strlit("Sonoro");
    reveal_strlit("Sordità");
    reveal_strlit("Spaventato");
    reveal_strlit("Stordimento");
    reveal_strlit("Veleni");
    reveal_strlit("Veleno");
    reveal_strlit("Veleno Ingerito");
    reveal_strlit("acido");
    reveal_strlit("attacchi basati sulla vista ed effetti visivi");
    reveal_strlit("attacchi con Sguardo");
    reveal_strlit("attacchi con lo Sguardo");
    reveal_strlit("attacchi con lo sguardo");
    reveal_strlit("charme");
    reveal_strlit("compulsione");
    reveal_strlit("controllo mentale");
    reveal_strlit("contundente");
    reveal_strlit("da caduta e da schiacciamento");
    reveal_strlit("danni contundenti");
    reveal_strlit("danni contundenti e perforanti");
    reveal_strlit("danni da arma");
    reveal_strlit("danni da armi");
    reveal_strlit("danni da precisione");
    reveal_strlit("danni delle armi");
    reveal_strlit("danni di precisione");
    reveal_strlit("danni perforanti");
    reveal_strlit("danni taglienti");
    reveal_strlit("danni taglienti e perforanti");
    reveal_strlit("danno da arma");
    reveal_strlit("danno di precisione");
    reveal_strlit("di influenza mentale e basati sullo Sguardo");
    reveal_strlit("divinazione");
    reveal_strlit("effetti Barcollanti");
    reveal_strlit("effetti basati sulla vista");
    reveal_strlit("effetti che bersagliano uno specifico numero di creature");
    reveal_strlit("effetti di Charme e Compulsione");
    reveal_strlit("effetti di Metamorfosi");
    reveal_strlit("effetti di Paura");
    reveal_strlit("effetti di Paura ed influenza mentale");
    reveal_strlit("effetti di Sguardo");
    reveal_strlit("effetti di Sonno");
    reveal_strlit("effetti di ammaliamento");
    reveal_strlit("effetti di charme");
    reveal_strlit("effetti di charme e compulsione");
    reveal_strlit("effetti di charme e compulsioni");
    reveal_strlit("effetti di compulsione");
    reveal_strlit("effetti di demenza");
    reveal_strlit("effetti di influenza mentale");
    reveal_strlit("effetti di influenza mentale e visivi");
    reveal_strlit("effetti di maledizione");
    reveal_strlit("effetti di maledizioni");
    reveal_strlit("effetti di metamorfosi");
    reveal_strlit("effetti di morte");
    reveal_strlit("effetti di paura");
    reveal_strlit("effetti di sguardo");
    reveal_strlit("effetti di sonno");
    reveal_strlit("effetti e illusioni visive");
    reveal_strlit("effetti polimorfi");
    reveal_strlit("effetti sensoriali");
    reveal_strlit("effetti visivi");
    reveal_strlit("effetti visivi e illusioni");
    reveal_strlit("elettricità");
    reveal_strlit("emozioni");
    reveal_strlit("energia negativa");
    reveal_strlit("ferite permanenti");
    reveal_strlit("forza");
    reveal_strlit("freddo");
    reveal_strlit("fuoco");
    reveal_strlit("illusioni");
    reveal_strlit("illusioni visive");
    reveal_strlit("malattia");
    reveal_strlit("malattie");
    reveal_strlit("maledizioni");
    reveal_strlit("metamorfosi");
    reveal_strlit("nausea");
    reveal_strlit("paralisi");
    reveal_strlit("paura");
    reveal_strlit("pietrificazione");
    reveal_strlit("possessione");
    reveal_strlit("ruggine");
    reveal_strlit("sanguinamento");
    reveal_strlit("sonno");
    reveal_strlit("sonoro");
    reveal_strlit("sordità");
    reveal_strlit("stordimento");
    reveal_strlit("veleni");
    reveal_strlit("veleno");
    reveal_strlit("visivi ed illusori");
    assert("Abbagliamenti"@.len() == 13);
    assert("Abbagliamento"@.len() == 13);
    assert("Abbagliato"@.len() == 10);
    assert("Accecato"@.len() == 8);
    assert("Acido"@.len() == 5);
    assert("Affaticamento"@.len() == 13);
    assert("Affaticato"@.len() == 10);
    assert("Ammaliamento"@.len() == 12);
    assert("Armi Taglienti"@.len() == 14);
    assert("Armi contundenti"@.len() == 16);
    assert("Assorbimento del Fuoco"@.len() == 22);
    assert("Attacchi Furtivi"@.len() == 16);
    assert("Attacchi ai Fianchi"@.len() == 19);
    assert("Attacchi basati sull'olfatto"@.len() == 28);
    assert("Attacchi basati sulla vista"@.len() == 27);
    assert("Attacchi basati sulla vista o sguardo"@.len() == 37);
    assert("Attacchi con Sguardo"@.len() == 20);
    assert("Attacchi con lo sguardo"@.len() == 23);
    assert("Attacchi dipendenti dalla vista"@.len() == 31);
    assert("Barcollante"@.len() == 11);
    assert("Barcollare"@.len() == 10);
    assert("Cecità"@.len() == 6);
    assert("Charme"@.len() == 6);
    assert("Colpi Critici"@.len() == 13);
    assert("Colpi critici"@.len() == 13);
    assert("Condizione Affaticato"@.len() == 21);
    assert("Condizione Esausto"@.len() == 18);
    assert("Confusione"@.len() == 10);
    assert("Danni Non Letali"@.len() == 16);
    assert("Danni contundenti"@.len() == 17);
    assert("Danni da arma"@.len() == 13);
    assert("Danni da armi"@.len() == 13);
    assert("Danni dalle Armi"@.len() == 16);
    assert("Danni perforanti e taglienti"@.len() == 28);
    assert("Danno da Pressione"@.len() == 18);
    assert("Danno da arma"@.len() == 13);
    assert("Danno non letale"@.len() == 16);
    assert("Demenza"@.len() == 7);
    assert("Divinazione"@.len() == 11);
    assert("Effetti a completamento di incantesimo e ad attivazione di incantesimo"@.len() == 70);
    assert("Effetti basati sulla vista"@.len() == 26);
    assert("Effetti d'influenza mentale"@.len() == 27);
    assert("Effetti di Charme e Compulsione"@.len() == 31);
    assert("Effetti di Demenza"@.len() == 18);
    assert("Effetti di Influenza Mentale"@.len() == 28);
    assert("Effetti di Morte"@.len() == 16);
    assert("Effetti di Paura"@.len() == 16);
    assert("Effetti di Sonno"@.len() == 16);
    assert("Effetti di charme"@.len() == 17);
    assert("Effetti di charme e compulsioni"@.len() == 31);
    assert("Effetti di forza"@.len() == 16);
    assert("Effetti di influenza mentale"@.len() == 28);
    assert("Effetti di morte"@.len() == 16);
    assert("Effetti di morte (vedi sotto)"@.len() == 29);
    assert("Effetti di paura"@.len() == 16);
    assert("Effetti di sonno"@.len() == 16);
    assert("Effetti visivi"@.len() == 14);
    assert("Elettricità"@.len() == 11);
    assert("Elettricità (parziale)"@.len() == 22);
    assert("Energia Negativa"@.len() == 16);
    assert("Energia Positiva"@.len() == 16);
    assert("Esaurimento"@.len() == 11);
    assert("Esausto"@.len() == 7);
    assert("Fatica"@.len() == 6);
    assert("Fiancheggiamento"@.len() == 16);
    assert("Forza"@.len() == 5);
    assert("Frastornamento"@.len() == 14);
    assert("Frastornato"@.len() == 11);
    assert("Freddo"@.len() == 6);
    assert("Freddo (sé stesso e chi lo cavalca)"@.len() == 35);
    assert("Fuoco"@.len() == 5);
    assert("Fuoco Infernale"@.len() == 15);
    assert("Illusione"@.len() == 9);
    assert("Illusioni e qualsiasi attacco basato sulla vista"@.len() == 48);
    assert("Immunità al Freddo"@.len() == 18);
    assert("Immunità alla Magia"@.len() == 19);
    assert("Infermità"@.len() == 9);
    assert("Infermo"@.len() == 7);
    assert("Magia"@.len() == 5);
    assert("Malattia"@.len() == 8);
    assert("Malattie"@.len() == 8);
    assert("Maledizioni"@.len() == 11);
    assert("Metamorfosi"@.len() == 11);
    assert("Nausea"@.len() == 6);
    assert("Nauseato"@.len() == 8);
    assert("Non Deformante"@.len() == 14);
    assert("Paralisi"@.len() == 8);
    assert("Paura"@.len() == 5);
    assert("Pietrificazione"@.len() == 15);
    assert("Sanguinamento"@.len() == 13);
    assert("Sanguinamento (solo Punti Ferita)"@.len() == 33);
    assert("Scosso"@.len() == 6);
    assert("Sguardo"@.len() == 7);
    assert("Sonno"@.len() == 5);
    assert("Sonoro"@.len() == 6);
    assert("Sordità"@.len() == 7);
    assert("Spaventato"@.len() == 10);
    assert("Stordimento"@.len() == 11);
    assert("Veleni"@.len() == 6);
    assert("Veleno"@.len() == 6);
    assert("Veleno Ingerito"@.len() == 15);
    assert("acido"@.len() == 5);
    assert("attacchi basati sulla vista ed effetti visivi"@.len() == 45);
    assert("attacchi con Sguardo"@.len() == 20);
    assert("attacchi con lo Sguardo"@.len() == 23);
    assert("attacchi con lo sguardo"@.len() == 23);
    assert("charme"@.len() == 6);
    assert("compulsione"@.len() == 11);
    assert("controllo mentale"@.len() == 17);
    assert("contundente"@.len() == 11);
    assert("da caduta e da schiacciamento"@.len() == 29);
    assert("danni contundenti"@.len() == 17);
    assert("danni contundenti e perforanti"@.len() == 30);
    assert("danni da arma"@.len() == 13);
    assert("danni da armi"@.len() == 13);
    assert("danni da precisione"@.len() == 19);
    assert("danni delle armi"@.len() == 16);
    assert("danni di precisione"@.len() == 19);
    assert("danni perforanti"@.len() == 16);
    assert("danni taglienti"@.len() == 15);
    assert("danni taglienti e perforanti"@.len() == 28);
    assert("danno da arma"@.len() == 13);
    assert("danno di precisione"@.len() == 19);
    assert("di influenza mentale e basati sullo Sguardo"@.len() == 43);
    assert("divinazione"@.len() == 11);
    assert("effetti Barcollanti"@.len() == 19);
    assert("effetti basati sulla vista"@.len() == 26);
    assert("effetti che bersagliano uno specifico numero di creature"@.len() == 56);
    assert("effetti di Charme e Compulsione"@.len() == 31);
    assert("effetti di Metamorfosi"@.len() == 22);
    assert("effetti di Paura"@.len() == 16);
    assert("effetti di Paura ed influenza mentale"@.len() == 37);
    assert("effetti di Sguardo"@.len() == 18);
    assert("effetti di Sonno"@.len() == 16);
    assert("effetti di ammaliamento"@.len() == 23);
    assert("effetti di charme"@.len() == 17);
    assert("effetti di charme e compulsione"@.len() == 31);
    assert("effetti di charme e compulsioni"@.len() == 31);
    assert("effetti di compulsione"@.len() == 22);
    assert("effetti di demenza"@.len() == 18);
    assert("effetti di influenza mentale"@.len() == 28);
    assert("effetti di influenza mentale e visivi"@.len() == 37);
    assert("effetti di maledizione"@.len() == 22);
    assert("effetti di maledizioni"@.len() == 22);
    assert("effetti di metamorfosi"@.len() == 22);
    assert("effetti di morte"@.len() == 16);
    assert("effetti di paura"@.len() == 16);
    assert("effetti di sguardo"@.len() == 18);
    assert("effetti di sonno"@.len() == 16);
    assert("effetti e illusioni visive"@.len() == 26);
    assert("effetti polimorfi"@.len() == 17);
    assert("effetti sensoriali"@.len() == 18);
    assert("effetti visivi"@.len() == 14);
    assert("effetti visivi e illusioni"@.len() == 26);
    assert("elettricità"@.len() == 11);
    assert("emozioni"@.len() == 8);
    assert("energia negativa"@.len() == 16);
    assert("ferite permanenti"@.len() == 17);
    assert("forza"@.len() == 5);
    assert("freddo"@.len() == 6);
    assert("fuoco"@.len() == 5);
    assert("illusioni"@.len() == 9);
    assert("illusioni visive"@.len() == 16);
    assert("malattia"@.len() == 8);
    assert("malattie"@.len() == 8);
    assert("maledizioni"@.len() == 11);
    assert("metamorfosi"@.len() == 11);
    assert("nausea"@.len() == 6);
    assert("paralisi"@.len() == 8);
    assert("paura"@.len() == 5);
    assert("pietrificazione"@.len() == 15);
    assert("possessione"@.len() == 11);
    assert("ruggine"@.len() == 7);
    assert("sanguinamento"@.len() == 13);
    assert("sonno"@.len() == 5);
    assert("sonoro"@.len() == 6);
    assert("sordità"@.len() == 7);
    assert("stordimento"@.len() == 11);
    assert("veleni"@.len() == 6);
    assert("veleno"@.len() == 6);
    assert("visivi ed illusori"@.len() == 18);
    assert("Effetti di forza"@[1] != "Energia Negativa"@[1]);
    assert("Effetti di forza"@ != "Energia Negativa"@);
    assert("Effetti di forza"@[0] != "energia negativa"@[0]);
    assert("Effetti di forza"@ != "energia negativa"@);
    assert("Effetti di forza"@[1] != "Energia Positiva"@[1]);
    assert("Effetti di forza"@ != "Energia Positiva"@);
    assert("Effetti di forza"@[0] != "energia negativa"@[0]);
    assert("Effetti di forza"@ != "energia negativa"@);
    assert("Effetti di forza"@[0] != "effetti di sonno"@[0]);
    assert("Effetti di forza"@ != "effetti di sonno"@);
    assert("Effetti di forza"@[11] != "Effetti di Sonno"@[11]);
    assert("Effetti di forza"@ != "Effetti di Sonno"@);
    assert("Effetti di forza"@[11] != "Effetti di sonno"@[11]);
    assert("Effetti di forza"@ != "Effetti di sonno"@);
    assert("Effetti di forza"@[0] != "effetti di Sonno"@[0]);
    assert("Effetti di forza"@ != "effetti di Sonno"@);
    assert("Effetti di forza"@[11] != "Effetti di Paura"@[11]);
    assert("Effetti di forza"@ != "Effetti di Paura"@);
    assert("Effetti di forza"@[0] != "effetti di Paura"@[0]);
    assert("Effetti di forza"@ != "effetti di Paura"@);
    assert("Effetti di forza"@[0] != "effetti di paura"@[0]);
    assert("Effetti di forza"@ != "effetti di paura"@);
    assert("Effetti di forza"@[11] != "Effetti di paura"@[11]);
    assert("Effetti di forza"@ != "Effetti di paura"@);
    assert("Effetti di forza"@[0] != "Attacchi Furtivi"@[0]);
    assert("Effetti di forza"@ != "Attacchi Furtivi"@);
    assert("Effetti di forza"@[0] != "danni delle armi"@[0]);
    assert("Effetti di forza"@ != "danni delle armi"@);
    assert("Effetti di forza"@[0] != "Danni dalle Armi"@[0]);
    assert("Effetti di forza"@ != "Danni dalle Armi"@);
    assert("Effetti di forza"@[0] != "Armi contundenti"@[0]);
    assert("Effetti di forza"@ != "Armi contundenti"@);
    assert("Effetti di forza"@[0] != "danni perforanti"@[0]);
    assert("Effetti di forza"@ != "danni perforanti"@);
    assert("Effetti di forza"@[0] != "Fiancheggiamento"@[0]);
    assert("Effetti di forza"@ != "Fiancheggiamento"@);
    assert("Effetti di forza"@[0] != "Danni Non Letali"@[0]);
    assert("Effetti di forza"@ != "Danni Non Letali"@);
    assert("Effetti di forza"@[0] != "Danno non letale"@[0]);
    assert("Effetti di forza"@ != "Danno non letale"@);
    assert("Effetti di forza"@[11] != "Effetti di morte"@[11]);
    assert("Effetti di forza"@ != "Effetti di morte"@);
    assert("Effetti di forza"@[11] != "Effetti di Morte"@[11]);
    assert("Effetti di forza"@ != "Effetti di Morte"@);
    assert("Effetti di forza"@[0] != "effetti di morte"@[0]);
    assert("Effetti di forza"@ != "effetti di morte"@);
    assert("Effetti di forza"@[0] != "illusioni visive"@[0]);
    assert("Effetti di forza"@ != "illusioni visive"@);
    assert("forza"@[0] != "Acido"@[0]);
    assert("forza"@ != "Acido"@);
    assert("forza"@[0] != "acido"@[0]);
    assert("forza"@ != "acido"@);
    assert("forza"@[0] != "Fuoco"@[0]);
    assert("forza"@ != "Fuoco"@);
    assert("forza"@[1] != "fuoco"@[1]);
    assert("forza"@ != "fuoco"@);
    assert("forza"@[0] != "Sonno"@[0]);
    assert("forza"@ != "Sonno"@);
    assert("forza"@[0] != "sonno"@[0]);
    assert("forza"@ != "sonno"@);
    assert("forza"@[0] != "Paura"@[0]);
    assert("forza"@ != "Paura"@);
    assert("forza"@[0] != "paura"@[0]);
    assert("forza"@ != "paura"@);
    assert("forza"@[0] != "Magia"@[0]);
    assert("forza"@ != "Magia"@);
    assert("Forza"@[0] != "Acido"@[0]);
    assert("Forza"@ != "Acido"@);
    assert("Forza"@[0] != "acido"@[0]);
    assert("Forza"@ != "acido"@);
    assert("Forza"@[1] != "Fuoco"@[1]);
    assert("Forza"@ != "Fuoco"@);
    assert("Forza"@[0] != "fuoco"@[0]);
    assert("Forza"@ != "fuoco"@);
    assert("Forza"@[0] != "Sonno"@[0]);
    assert("Forza"@ != "Sonno"@);
    assert("Forza"@[0] != "sonno"@[0]);
    assert("Forza"@ != "sonno"@);
    assert("Forza"@[0] != "Paura"@[0]);
    assert("Forza"@ != "Paura"@);
    assert("Forza"@[0] != "paura"@[0]);
    assert("Forza"@ != "paura"@);
    assert("Forza"@[0] != "Magia"@[0]);
    assert("Forza"@ != "Magia"@);
    assert("Forza"@[0] != "forza"@[0]);
    assert("Forza"@ != "forza"@);
}

proof fn lemma_read_immunity_paineffects(s: Seq<char>)
    requires
        immunity_named(Immunity_Type::Immunity_PainEffects, s),
    ensures
        spec_single_immunity(s) == Some(Immunity_Type::Immunity_PainEffects),
{
    reveal_strlit("Abbagliamenti");
    reveal_strlit("Abbagliamento");
    reveal_strlit("Abbagliato");
    reveal_strlit("Accecato");
    reveal_strlit("Acido");
    reveal_strlit("Affaticamento");
    reveal_strlit("Affaticato");
    reveal_strlit("Ammaliamento");
    reveal_strlit("Armi Taglienti");
    reveal_strlit("Armi contundenti");
    reveal_strlit("Assorbimento del Fuoco");
    reveal_strlit("Attacchi Furtivi");
    reveal_strlit("Attacchi ai Fianchi");
    reveal_strlit("Attacchi basati sull'olfatto");
    reveal_strlit("Attacchi basati sulla vista");
    reveal_strlit("Attacchi basati sulla vista o sguardo");
    reveal_strlit("Attacchi con Sguardo");
    reveal_strlit("Attacchi con lo sguardo");
    reveal_strlit("Attacchi dipendenti dalla vista");
    reveal_strlit("Barcollante");
    reveal_strlit("Barcollare");
    reveal_strlit("Cecità");
    reveal_strlit("Charme");
    reveal_strlit("Colpi Critici");
    reveal_strlit("Colpi critici");
    reveal_strlit("Condizione Affaticato");
    reveal_strlit("Condizione Esausto");
    reveal_strlit("Confusione");
    reveal_strlit("Danni Non Letali");
    reveal_strlit("Danni contundenti");
    reveal_strlit("Danni da arma");
    reveal_strlit("Danni da armi");
    reveal_strlit("Danni dalle Armi");
    reveal_strlit("Danni perforanti e taglienti");
    reveal_strlit("Danno da Pressione");
    reveal_strlit("Danno da arma");
    reveal_strlit("Danno non letale");
    reveal_strlit("Demenza");
    reveal_strlit("Divinazione");
    reveal_strlit("Dolore");
    reveal_strlit("Effetti a completamento di incantesimo e ad attivazione di incantesimo");
    reveal_strlit("Effetti basati sulla vista");
    reveal_strlit("Effetti d'influenza mentale");
    reveal_strlit("Effetti di Charme e Compulsione");
    reveal_strlit("Effetti di Demenza");
    reveal_strlit("Effetti di Influenza Mentale");
    reveal_strlit("Effetti di Morte");
    reveal_strlit("Effetti di Paura");
    reveal_strlit("Effetti di Sonno");
    reveal_strlit("Effetti di charme");
    reveal_strlit("Effetti di charme e compulsioni");
    reveal_strlit("Effetti di dolore");
    reveal_strlit("Effetti di forza");
    reveal_strlit("Effetti di influenza mentale");
    reveal_strlit("Effetti di morte");
    reveal_strlit("Effetti di morte (vedi sotto)");
    reveal_strlit("Effetti di paura");
    reveal_strlit("Effetti di sonno");
    reveal_strlit("Effetti visivi");
    reveal_strlit("Elettricità");
    reveal_strlit("Elettricità (parziale)");
    reveal_strlit("Energia Negativa");
    reveal_strlit("Energia Positiva");
    reveal_strlit("Esaurimento");
    reveal_strlit("Esausto");
    reveal_strlit("Fatica");
    reveal_strlit("Fiancheggiamento");
    reveal_strlit("Forza");
    reveal_strlit("Frastornamento");
    reveal_strlit("Frastornato");
    reveal_strlit("Freddo");
    reveal_strlit("Freddo (sé stesso e chi lo cavalca)");
    reveal_strlit("Fuoco");
    reveal_strlit("Fuoco Infernale");
    reveal_strlit("Illusione");
    reveal_strlit("Illusioni e qualsiasi attacco basato sulla vista");
    reveal_strlit("Immunità al Freddo");
    reveal_strlit("Immunità alla Magia");
    reveal_strlit("Infermità");
    reveal_strlit("Infermo");
    reveal_strlit("Magia");
    reveal_strlit("Malattia");
    reveal_strlit("Malattie");
    reveal_strlit("Maledizioni");
    reveal_strlit("Metamorfosi");
    reveal_strlit("Nausea");
    reveal_strlit("Nauseato");
    reveal_strlit("Non Deformante");
    reveal_strlit("Paralisi");
    reveal_strlit("Paura");
    reveal_strlit("Pietrificazione");
    reveal_strlit("Sanguinamento");
    reveal_strlit("Sanguinamento (solo Punti Ferita)");
    reveal_strlit("Scosso");
    reveal_strlit("Sguardo");
    reveal_strlit("Sonno");
    reveal_strlit("Sonoro");
    reveal_strlit("Sordità");
    reveal_strlit("Spaventato");
    reveal_strlit("Stordimento");
    reveal_strlit("Veleni");
    reveal_strlit("Veleno");
    reveal_strlit("Veleno Ingerito");
    reveal_strlit("acido");
    reveal_strlit("attacchi basati sulla vista ed effetti visivi");
    reveal_strlit("attacchi con Sguardo");
    reveal_strlit("attacchi con lo Sguardo");
    reveal_strlit("attacchi con lo sguardo");
    reveal_strlit("charme");
    reveal_strlit("compulsione");
    reveal_strlit("controllo mentale");
    reveal_strlit("contundente");
    reveal_strlit("da caduta e da schiacciamento");
    reveal_strlit("danni contundenti");
    reveal_strlit("danni contundenti e perforanti");
    reveal_strlit("danni da arma");
    reveal_strlit("danni da armi");
    reveal_strlit("danni da precisione");
    reveal_strlit("danni delle armi");
    reveal_strlit("danni di precisione");
    reveal_strlit("danni perforanti");
    reveal_strlit("danni taglienti");
    reveal_strlit("danni taglienti e perforanti");
    reveal_strlit("danno da arma");
    reveal_strlit("danno di precisione");
    reveal_strlit("di influenza mentale e basati sullo Sguardo");
    reveal_strlit("divinazione");
    reveal_strlit("dolore");
    reveal_strlit("effetti Barcollanti");
    reveal_strlit("effetti basati sulla vista");
    reveal_strlit("effetti che bersagliano uno specifico numero di creature");
    reveal_strlit("effetti di Charme e Compulsione");
    reveal_strlit("effetti di Metamorfosi");
    reveal_strlit("effetti di Paura");
    reveal_strlit("effetti di Paura ed influenza mentale");
    reveal_strlit("effetti di Sguardo");
    reveal_strlit("effetti di Sonno");
    reveal_strlit("effetti di ammaliamento");
    reveal_strlit("effetti di charme");
    reveal_strlit("effetti di charme e compulsione");
    reveal_strlit("effetti di charme e compulsioni");
    reveal_strlit("effetti di compulsione");
    reveal_strlit("effetti di demenza");
    reveal_strlit("effetti di influenza mentale");
    reveal_strlit("effetti di influenza mentale e visivi");
    reveal_strlit("effetti di maledizione");
    reveal_strlit("effetti di maledizioni");
    reveal_strlit("effetti di metamorfosi");
    reveal_strlit("effetti di morte");
    reveal_strlit("effetti di paura");
    reveal_strlit("effetti di sguardo");
    reveal_strlit("effetti di sonno");
    reveal_strlit("effetti e illusioni visive");
    reveal_strlit("effetti polimorfi");
    reveal_strlit("effetti sensoriali");
    reveal_strlit("effetti visivi");
    reveal_strlit("effetti visivi e illusioni");
    reveal_strlit("elettricità");
    reveal_strlit("emozioni");
    reveal_strlit("energia negativa");
    reveal_strlit("ferite permanenti");
    reveal_strlit("forza");
    reveal_strlit("freddo");
    reveal_strlit("fuoco");
    reveal_strlit("illusioni");
    reveal_strlit("illusioni visive");
    reveal_strlit("malattia");
    reveal_strlit("malattie");
    reveal_strlit("maledizioni");
    reveal_strlit("metamorfosi");
    reveal_strlit("nausea");
    reveal_strlit("paralisi");
    reveal_strlit("paura");
    reveal_strlit("pietrificazione");
    reveal_strlit("possessione");
    reveal_strlit("ruggine");
    reveal_strlit("sanguinamento");
    reveal_strlit("sonno");
    reveal_strlit("sonoro");
    reveal_strlit("sordità");
    reveal_strlit("stordimento");
    reveal_strlit("veleni");
    reveal_strlit("veleno");
    reveal_strlit("visivi ed illusori");
    assert("Abbagliamenti"@.len() == 13);
    assert("Abbagliamento"@.len() == 13);
    assert("Abbagliato"@.len() == 10);
    assert("Accecato"@.len() == 8);
    assert("Acido"@.len() == 5);
    assert("Affaticamento"@.len() == 13);
    assert("Affaticato"@.len() == 10);
    assert("Ammaliamento"@.len() == 12);
    assert("Armi Taglienti"@.len() == 14);
    assert("Armi contundenti"@.len() == 16);
    assert("Assorbimento del Fuoco"@.len() == 22);
    assert("Attacchi Furtivi"@.len() == 16);
    assert("Attacchi ai Fianchi"@.len() == 19);
    assert("Attacchi basati sull'olfatto"@.len() == 28);
    assert("Attacchi basati sulla vista"@.len() == 27);
    assert("Attacchi basati sulla vista o sguardo"@.len() == 37);
    assert("Attacchi con Sguardo"@.len() == 20);
    assert("Attacchi con lo sguardo"@.len() == 23);
    assert("Attacchi dipendenti dalla vista"@.len() == 31);
    assert("Barcollante"@.len() == 11);
    assert("Barcollare"@.len() == 10);
    assert("Cecità"@.len() == 6);
    assert("Charme"@.len() == 6);
    assert("Colpi Critici"@.len() == 13);
    assert("Colpi critici"@.len() == 13);
    assert("Condizione Affaticato"@.len() == 21);
    assert("Condizione Esausto"@.len() == 18);
    assert("Confusione"@.len() == 10);
    assert("Danni Non Letali"@.len() == 16);
    assert("Danni contundenti"@.len() == 17);
    assert("Danni da arma"@.len() == 13);
    assert("Danni da armi"@.len() == 13);
    assert("Danni dalle Armi"@.len() == 16);
    assert("Danni perforanti e taglienti"@.len() == 28);
    assert("Danno da Pressione"@.len() == 18);
    assert("Danno da arma"@.len() == 13);
    assert("Danno non letale"@.len() == 16);
    assert("Demenza"@.len() == 7);
    assert("Divinazione"@.len() == 11);
    assert("Dolore"@.len() == 6);
    assert("Effetti a completamento di incantesimo e ad attivazione di incantesimo"@.len() == 70);
    assert("Effetti basati sulla vista"@.len() == 26);
    assert("Effetti d'influenza mentale"@.len() == 27);
    assert("Effetti di Charme e Compulsione"@.len() == 31);
    assert("Effetti di Demenza"@.len() == 18);
    assert("Effetti di Influenza Mentale"@.len() == 28);
    assert("Effetti di Morte"@.len() == 16);
    assert("Effetti di Paura"@.len() == 16);
    assert("Effetti di Sonno"@.len() == 16);
    assert("Effetti di charme"@.len() == 17);
    assert("Effetti di charme e compulsioni"@.len() == 31);
    assert("Effetti di dolore"@.len() == 17);
    assert("Effetti di forza"@.len() == 16);
    assert("Effetti di influenza mentale"@.len() == 28);
    assert("Effetti di morte"@.len() == 16);
    assert("Effetti di morte (vedi sotto)"@.len() == 29);
    assert("Effetti di paura"@.len() == 16);
    assert("Effetti di sonno"@.len() == 16);
    assert("Effetti visivi"@.len() == 14);
    assert("Elettricità"@.len() == 11);
    assert("Elettricità (parziale)"@.len() == 22);
    assert("Energia Negativa"@.len() == 16);
    assert("Energia Positiva"@.len() == 16);
    assert("Esaurimento"@.len() == 11);
    assert("Esausto"@.len() == 7);
    assert("Fatica"@.len() == 6);
    assert("Fiancheggiamento"@.len() == 16);
    assert("Forza"@.len() == 5);
    assert("Frastornamento"@.len() == 14);
    assert("Frastornato"@.len() == 11);
    assert("Freddo"@.len() == 6);
    assert("Freddo (sé stesso e chi lo cavalca)"@.len() == 35);
    assert("Fuoco"@.len() == 5);
    assert("Fuoco Infernale"@.len() == 15);
    assert("Illusione"@.len() == 9);
    assert("Illusioni e qualsiasi attacco basato sulla vista"@.len() == 48);
    assert("Immunità al Freddo"@.len() == 18);
    assert("Immunità alla Magia"@.len() == 19);
    assert("Infermità"@.len() == 9);
    assert("Infermo"@.len() == 7);
    assert("Magia"@.len() == 5);
    assert("Malattia"@.len() == 8);
    assert("Malattie"@.len() == 8);
    assert("Maledizioni"@.len() == 11);
    assert("Metamorfosi"@.len() == 11);
    assert("Nausea"@.len() == 6);
    assert("Nauseato"@.len() == 8);
    assert("Non Deformante"@.len() == 14);
    assert("Paralisi"@.len() == 8);
    assert("Paura"@.len() == 5);
    assert("Pietrificazione"@.len() == 15);
    assert("Sanguinamento"@.len() == 13);
    assert("Sanguinamento (solo Punti Ferita)"@.len() == 33);
    assert("Scosso"@.len() == 6);
    assert("Sguardo"@.len() == 7);
    assert("Sonno"@.len() == 5);
    assert("Sonoro"@.len() == 6);
    assert("Sordità"@.len() == 7);
    assert("Spaventato"@.len() == 10);
    assert("Stordimento"@.len() == 11);
    assert("Veleni"@.len() == 6);
    assert("Veleno"@.len() == 6);
    assert("Veleno Ingerito"@.len() == 15);
    assert("acido"@.len() == 5);
    assert("attacchi basati sulla vista ed effetti visivi"@.len() == 45);
    assert("attacchi con Sguardo"@.len() == 20);
    assert("attacchi con lo Sguardo"@.len() == 23);
    assert("attacchi con lo sguardo"@.len() == 23);
    assert("charme"@.len() == 6);
    assert("compulsione"@.len() == 11);
    assert("controllo mentale"@.len() == 17);
    assert("contundente"@.len() == 11);
    assert("da caduta e da schiacciamento"@.len() == 29);
    assert("danni contundenti"@.len() == 17);
    assert("danni contundenti e perforanti"@.len() == 30);
    assert("danni da arma"@.len() == 13);
    assert("danni da armi"@.len() == 13);
    assert("danni da precisione"@.len() == 19);
    assert("danni delle armi"@.len() == 16);
    assert("danni di precisione"@.len() == 19);
    assert("danni perforanti"@.len() == 16);
    assert("danni taglienti"@.len() == 15);
    assert("danni taglienti e perforanti"@.len() == 28);
    assert("danno da arma"@.len() == 13);
    assert("danno di precisione"@.len() == 19);
    assert("di influenza mentale e basati sullo Sguardo"@.len() == 43);
    assert("divinazione"@.len() == 11);
    assert("dolore"@.len() == 6);
    assert("effetti Barcollanti"@.len() == 19);
    assert("effetti basati sulla vista"@.len() == 26);
    assert("effetti che bersagliano uno specifico numero di creature"@.len() == 56);
    assert("effetti di Charme e Compulsione"@.len() == 31);
    assert("effetti di Metamorfosi"@.len() == 22);
    assert("effetti di Paura"@.len() == 16);
    assert("effetti di Paura ed influenza mentale"@.len() == 37);
    assert("effetti di Sguardo"@.len() == 18);
    assert("effetti di Sonno"@.len() == 16);
    assert("effetti di ammaliamento"@.len() == 23);
    assert("effetti di charme"@.len() == 17);
    assert("effetti di charme e compulsione"@.len() == 31);
    assert("effetti di charme e compulsioni"@.len() == 31);
    assert("effetti di compulsione"@.len() == 22);
    assert("effetti di demenza"@.len() == 18);
    assert("effetti di influenza mentale"@.len() == 28);
    assert("effetti di influenza mentale e visivi"@.len() == 37);
    assert("effetti di maledizione"@.len() == 22);
    assert("effetti di maledizioni"@.len() == 22);
    assert("effetti di metamorfosi"@.len() == 22);
    assert("effetti di morte"@.len() == 16);
    assert("effetti di paura"@.len() == 16);
    assert("effetti di sguardo"@.len() == 18);
    assert("effetti di sonno"@.len() == 16);
    assert("effetti e illusioni visive"@.len() == 26);
    assert("effetti polimorfi"@.len() == 17);
    assert("effetti sensoriali"@.len() == 18);
    assert("effetti visivi"@.len() == 14);
    assert("effetti visivi e illusioni"@.len() == 26);
    assert("elettricità"@.len() == 11);
    assert("emozioni"@.len() == 8);
    assert("energia negativa"@.len() == 16);
    assert("ferite permanenti"@.len() == 17);
    assert("forza"@.len() == 5);
    assert("freddo"@.len() == 6);
    assert("fuoco"@.len() == 5);
    assert("illusioni"@.len() == 9);
    assert("illusioni visive"@.len() == 16);
    assert("malattia"@.len() == 8);
    assert("malattie"@.len() == 8);
    assert("maledizioni"@.len() == 11);
    assert("metamorfosi"@.len() == 11);
    assert("nausea"@.len() == 6);
    assert("paralisi"@.len() == 8);
    assert("paura"@.len() == 5);
    assert("pietrificazione"@.len() == 15);
    assert("possessione"@.len() == 11);
    assert("ruggine"@.len() == 7);
    assert("sanguinamento"@.len() == 13);
    assert("sonno"@.len() == 5);
    assert("sonoro"@.len() == 6);
    assert("sordità"@.len() == 7);
    assert("stordimento"@.len() == 11);
    assert("veleni"@.len() == 6);
    assert("veleno"@.len() == 6);
    assert("visivi ed illusori"@.len() == 18);
    assert("Effetti di dolore"@[0] != "Danni contundenti"@[0]);
    assert("Effetti di dolore"@ != "Danni contundenti"@);
    assert("Effetti di dolore"@[0] != "danni contundenti"@[0]);
    assert("Effetti di dolore"@ != "danni contundenti"@);
    assert("Effetti di dolore"@[0] != "ferite permanenti"@[0]);
    assert("Effetti di dolore"@ != "ferite permanenti"@);
    assert("Effetti di dolore"@[0] != "controllo mentale"@[0]);
    assert("Effetti di dolore"@ != "controllo mentale"@);
    assert("Effetti di dolore"@[11] != "Effetti di charme"@[11]);
    assert("Effetti di dolore"@ != "Effetti di charme"@);
    assert("Effetti di dolore"@[0] != "effetti di charme"@[0]);
    assert("Effetti di dolore"@ != "effetti di charme"@);
    assert("Effetti di dolore"@[0] != "effetti polimorfi"@[0]);
    assert("Effetti di dolore"@ != "effetti polimorfi"@);
    assert("dolore"@[0] != "Freddo"@[0]);
    assert("dolore"@ != "Freddo"@);
    assert("dolore"@[0] != "freddo"@[0]);
    assert("dolore"@ != "freddo"@);
    assert("dolore"@[0] != "Sonoro"@[0]);
    assert("dolore"@ != "Sonoro"@);
    assert("dolore"@[0] != "sonoro"@[0]);
    assert("dolore"@ != "sonoro"@);
    assert("dolore"@[0] != "Fatica"@[0]);
    assert("dolore"@ != "Fatica"@);
    assert("dolore"@[0] != "Nausea"@[0]);
    assert("dolore"@ != "Nausea"@);
    assert("dolore"@[0] != "nausea"@[0]);
    assert("dolore"@ != "nausea"@);
    assert("dolore"@[0] != "Cecità"@[0]);
    assert("dolore"@ != "Cecità"@);
    assert("dolore"@[0] != "Scosso"@[0]);
    assert("dolore"@ != "Scosso"@);
    assert("dolore"@[0] != "Veleni"@[0]);
    assert("dolore"@ != "Veleni"@);
    assert("dolore"@[0] != "Veleno"@[0]);
    assert("dolore"@ != "Veleno"@);
    assert("dolore"@[0] != "veleno"@[0]);
    assert("dolore"@ != "veleno"@);
    assert("dolore"@[0] != "veleni"@[0]);
    assert("dolore"@ != "veleni"@);
    assert("dolore"@[0] != "Charme"@[0]);
    assert("dolore"@ != "Charme"@);
    assert("dolore"@[0] != "charme"@[0]);
    assert("dolore"@ != "charme"@);
    assert("Dolore"@[0] != "Freddo"@[0]);
    assert("Dolore"@ != "Freddo"@);
    assert("Dolore"@[0] != "freddo"@[0]);
    assert("Dolore"@ != "freddo"@);
    assert("Dolore"@[0] != "Sonoro"@[0]);
    assert("Dolore"@ != "Sonoro"@);
    assert("Dolore"@[0] != "sonoro"@[0]);
    assert("Dolore"@ != "sonoro"@);
    assert("Dolore"@[0] != "Fatica"@[0]);
    assert("Dolore"@ != "Fatica"@);
    assert("Dolore"@[0] != "Nausea"@[0]);
    assert("Dolore"@ != "Nausea"@);
    assert("Dolore"@[0] != "nausea"@[0]);
    assert("Dolore"@ != "nausea"@);
    assert("Dolore"@[0] != "Cecità"@[0]);
    assert("Dolore"@ != "Cecità"@);
    assert("Dolore"@[0] != "Scosso"@[0]);
    assert("Dolore"@ != "Scosso"@);
    assert("Dolore"@[0] != "Veleni"@[0]);
    assert("Dolore"@ != "Veleni"@);
    assert("Dolore"@[0] != "Veleno"@[0]);
    assert("Dolore"@ != "Veleno"@);
    assert("Dolore"@[0] != "veleno"@[0]);
    assert("Dolore"@ != "veleno"@);
    assert("Dolore"@[0] != "veleni"@[0]);
    assert("Dolore"@ != "veleni"@);
    assert("Dolore"@[0] != "Charme"@[0]);
    assert("Dolore"@ != "Charme"@);
    assert("Dolore"@[0] != "charme"@[0]);
    assert("Dolore"@ != "charme"@);
    assert("Dolore"@[0] != "dolore"@[0]);
    assert("Dolore"@ != "dolore"@);
}

proof fn lemma_read_immunity_confusioncrazyeffects(s: Seq<char>)
    requires
        immunity_named(Immunity_Type::Immunity_ConfusionCrazyEffects, s),
    ensures
        spec_single_immunity(s) == Some(Immunity_Type::Immunity_ConfusionCrazyEffects),
{
    reveal_strlit("Abbagliamenti");
    reveal_strlit("Abbagliamento");
    reveal_strlit("Abbagliato");
    reveal_strlit("Accecato");
    reveal_strlit("Acido");
    reveal_strlit("Affaticamento");
    reveal_strlit("Affaticato");
    reveal_strlit("Ammaliamento");
    reveal_strlit("Armi Taglienti");
    reveal_strlit("Armi contundenti");
    reveal_strlit("Assorbimento del Fuoco");
    reveal_strlit("Attacchi Furtivi");
    reveal_strlit("Attacchi ai Fianchi");
    reveal_strlit("Attacchi basati sull'olfatto");
    reveal_strlit("Attacchi basati sulla vista");
    reveal_strlit("Attacchi basati sulla vista o sguardo");
    reveal_strlit("Attacchi con Sguardo");
    reveal_strlit("Attacchi con lo sguardo");
    reveal_strlit("Attacchi dipendenti dalla vista");
    reveal_strlit("Barcollante");
    reveal_strlit("Barcollare");
    reveal_strlit("Cecità");
    reveal_strlit("Charme");
    reveal_strlit("Colpi Critici");
    reveal_strlit("Colpi critici");
    reveal_strlit("Condizione Affaticato");
    reveal_strlit("Condizione Esausto");
    reveal_strlit("Confusione");
    reveal_strlit("Danni Non Letali");
    reveal_strlit("Danni contundenti");
    reveal_strlit("Danni da arma");
    reveal_strlit("Danni da armi");
    reveal_strlit("Danni dalle Armi");
    reveal_strlit("Danni perforanti e taglienti");
    reveal_strlit("Danno da Pressione");
    reveal_strlit("Danno da arma");
    reveal_strlit("Danno non letale");
    reveal_strlit("Demenza");
    reveal_strlit("Divinazione");
    reveal_strlit("Dolore");
    reveal_strlit("Effetti a completamento di incantesimo e ad attivazione di incantesimo");
    reveal_strlit("Effetti basati sulla vista");
    reveal_strlit("Effetti d'influenza mentale");
    reveal_strlit("Effetti di Charme e Compulsione");
    reveal_strlit("Effetti di Demenza");
    reveal_strlit("Effetti di Influenza Mentale");
    reveal_strlit("Effetti di Morte");
    reveal_strlit("Effetti di Paura");
    reveal_strlit("Effetti di Sonno");
    reveal_strlit("Effetti di charme");
    reveal_strlit("Effetti di charme e compulsioni");
    reveal_strlit("Effetti di confusione e follia");
    reveal_strlit("Effetti di dolore");
    reveal_strlit("Effetti di forza");
    reveal_strlit("Effetti di influenza mentale");
    reveal_strlit("Effetti di morte");
    reveal_strlit("Effetti di morte (vedi sotto)");
    reveal_strlit("Effetti di paura");
    reveal_strlit("Effetti di sonno");
    reveal_strlit("Effetti visivi");
    reveal_strlit("Elettricità");
    reveal_strlit("Elettricità (parziale)");
    reveal_strlit("Energia Negativa");
    reveal_strlit("Energia Positiva");
    reveal_strlit("Esaurimento");
    reveal_strlit("Esausto");
    reveal_strlit("Fatica");
    reveal_strlit("Fiancheggiamento");
    reveal_strlit("Forza");
    reveal_strlit("Frastornamento");
    reveal_strlit("Frastornato");
    reveal_strlit("Freddo");
    reveal_strlit("Freddo (sé stesso e chi lo cavalca)");
    reveal_strlit("Fuoco");
    reveal_strlit("Fuoco Infernale");
    reveal_strlit("Illusione");
    reveal_strlit("Illusioni e qualsiasi attacco basato sulla vista");
    reveal_strlit("Immunità al Freddo");
    reveal_strlit("Immunità alla Magia");
    reveal_strlit("Infermità");
    reveal_strlit("Infermo");
    reveal_strlit("Magia");
    reveal_strlit("Malattia");
    reveal_strlit("Malattie");
    reveal_strlit("Maledizioni");
    reveal_strlit("Metamorfosi");
    reveal_strlit("Nausea");
    reveal_strlit("Nauseato");
    reveal_strlit("Non Deformante");
    reveal_strlit("Paralisi");
    reveal_strlit("Paura");
    reveal_strlit("Pietrificazione");
    reveal_strlit("Sanguinamento");
    reveal_strlit("Sanguinamento (solo Punti Ferita)");
    reveal_strlit("Scosso");
    reveal_strlit("Sguardo");
    reveal_strlit("Sonno");
    reveal_strlit("Sonoro");
    reveal_strlit("Sordità");
    reveal_strlit("Spaventato");
    reveal_strlit("Stordimento");
    reveal_strlit("Veleni");
    reveal_strlit("Veleno");
    reveal_strlit("Veleno Ingerito");
    reveal_strlit("acido");
    reveal_strlit("attacchi basati sulla vista ed effetti visivi");
    reveal_strlit("attacchi con Sguardo");
    reveal_strlit("attacchi con lo Sguardo");
    reveal_strlit("attacchi con lo sguardo");
    reveal_strlit("charme");
    reveal_strlit("compulsione");
    reveal_strlit("controllo mentale");
    reveal_strlit("contundente");
    reveal_strlit("da caduta e da schiacciamento");
    reveal_strlit("danni contundenti");
    reveal_strlit("danni contundenti e perforanti");
    reveal_strlit("danni da arma");
    reveal_strlit("danni da armi");
    reveal_strlit("danni da precisione");
    reveal_strlit("danni delle armi");
    reveal_strlit("danni di precisione");
    reveal_strlit("danni perforanti");
    reveal_strlit("danni taglienti");
    reveal_strlit("danni taglienti e perforanti");
    reveal_strlit("danno da arma");
    reveal_strlit("danno di precisione");
    reveal_strlit("di influenza mentale e basati sullo Sguardo");
    reveal_strlit("divinazione");
    reveal_strlit("dolore");
    reveal_strlit("effetti Barcollanti");
    reveal_strlit("effetti basati sulla vista");
    reveal_strlit("effetti che bersagliano uno specifico numero di creature");
    reveal_strlit("effetti di Charme e Compulsione");
    reveal_strlit("effetti di Metamorfosi");
    reveal_strlit("effetti di Paura");
    reveal_strlit("effetti di Paura ed influenza mentale");
    reveal_strlit("effetti di Sguardo");
    reveal_strlit("effetti di Sonno");
    reveal_strlit("effetti di ammaliamento");
    reveal_strlit("effetti di charme");
    reveal_strlit("effetti di charme e compulsione");
    reveal_strlit("effetti di charme e compulsioni");
    reveal_strlit("effetti di compulsione");
    reveal_strlit("effetti di demenza");
    reveal_strlit("effetti di influenza mentale");
    reveal_strlit("effetti di influenza mentale e visivi");
    reveal_strlit("effetti di maledizione");
    reveal_strlit("effetti di maledizioni");
    reveal_strlit("effetti di metamorfosi");
    reveal_strlit("effetti di morte");
    reveal_strlit("effetti di paura");
    reveal_strlit("effetti di sguardo");
    reveal_strlit("effetti di sonno");
    reveal_strlit("effetti e illusioni visive");
    reveal_strlit("effetti polimorfi");
    reveal_strlit("effetti sensoriali");
    reveal_strlit("effetti visivi");
    reveal_strlit("effetti visivi e illusioni");
    reveal_strlit("elettricità");
    reveal_strlit("emozioni");
    reveal_strlit("energia negativa");
    reveal_strlit("ferite permanenti");
    reveal_strlit("forza");
    reveal_strlit("freddo");
    reveal_strlit("fuoco");
    reveal_strlit("illusioni");
    reveal_strlit("illusioni visive");
    reveal_strlit("malattia");
    reveal_strlit("malattie");
    reveal_strlit("maledizioni");
    reveal_strlit("metamorfosi");
    reveal_strlit("nausea");
    reveal_strlit("paralisi");
    reveal_strlit("paura");
    reveal_strlit("pietrificazione");
    reveal_strlit("possessione");
    reveal_strlit("ruggine");
    reveal_strlit("sanguinamento");
    reveal_strlit("sonno");
    reveal_strlit("sonoro");
    reveal_strlit("sordità");
    reveal_strlit("stordimento");
    reveal_strlit("veleni");
    reveal_strlit("veleno");
    reveal_strlit("visivi ed illusori");
    assert("Abbagliamenti"@.len() == 13);
    assert("Abbagliamento"@.len() == 13);
    assert("Abbagliato"@.len() == 10);
    assert("Accecato"@.len() == 8);
    assert("Acido"@.len() == 5);
    assert("Affaticamento"@.len() == 13);
    assert("Affaticato"@.len() == 10);
    assert("Ammaliamento"@.len() == 12);
    assert("Armi Taglienti"@.len() == 14);
    assert("Armi contundenti"@.len() == 16);
    assert("Assorbimento del Fuoco"@.len() == 22);
    assert("Attacchi Furtivi"@.len() == 16);
    assert("Attacchi ai Fianchi"@.len() == 19);
    assert("Attacchi basati sull'olfatto"@.len() == 28);
    assert("Attacchi basati sulla vista"@.len() == 27);
    assert("Attacchi basati sulla vista o sguardo"@.len() == 37);
    assert("Attacchi con Sguardo"@.len() == 20);
    assert("Attacchi con lo sguardo"@.len() == 23);
    assert("Attacchi dipendenti dalla vista"@.len() == 31);
    assert("Barcollante"@.len() == 11);
    assert("Barcollare"@.len() == 10);
    assert("Cecità"@.len() == 6);
    assert("Charme"@.len() == 6);
    assert("Colpi Critici"@.len() == 13);
    assert("Colpi critici"@.len() == 13);
    assert("Condizione Affaticato"@.len() == 21);
    assert("Condizione Esausto"@.len() == 18);
    assert("Confusione"@.len() == 10);
    assert("Danni Non Letali"@.len() == 16);
    assert("Danni contundenti"@.len() == 17);
    assert("Danni da arma"@.len() == 13);
    assert("Danni da armi"@.len() == 13);
    assert("Danni dalle Armi"@.len() == 16);
    assert("Danni perforanti e taglienti"@.len() == 28);
    assert("Danno da Pressione"@.len() == 18);
    assert("Danno da arma"@.len() == 13);
    assert("Danno non letale"@.len() == 16);
    assert("Demenza"@.len() == 7);
    assert("Divinazione"@.len() == 11);
    assert("Dolore"@.len() == 6);
    assert("Effetti a completamento di incantesimo e ad attivazione di incantesimo"@.len() == 70);
    assert("Effetti basati sulla vista"@.len() == 26);
    assert("Effetti d'influenza mentale"@.len() == 27);
    assert("Effetti di Charme e Compulsione"@.len() == 31);
    assert("Effetti di Demenza"@.len() == 18);
    assert("Effetti di Influenza Mentale"@.len() == 28);
    assert("Effetti di Morte"@.len() == 16);
    assert("Effetti di Paura"@.len() == 16);
    assert("Effetti di Sonno"@.len() == 16);
    assert("Effetti di charme"@.len() == 17);
    assert("Effetti di charme e compulsioni"@.len() == 31);
    assert("Effetti di confusione e follia"@.len() == 30);
    assert("Effetti di dolore"@.len() == 17);
    assert("Effetti di forza"@.len() == 16);
    assert("Effetti di influenza mentale"@.len() == 28);
    assert("Effetti di morte"@.len() == 16);
    assert("Effetti di morte (vedi sotto)"@.len() == 29);
    assert("Effetti di paura"@.len() == 16);
    assert("Effetti di sonno"@.len() == 16);
    assert("Effetti visivi"@.len() == 14);
    assert("Elettricità"@.len() == 11);
    assert("Elettricità (parziale)"@.len() == 22);
    assert("Energia Negativa"@.len() == 16);
    assert("Energia Positiva"@.len() == 16);
    assert("Esaurimento"@.len() == 11);
    assert("Esausto"@.len() == 7);
    assert("Fatica"@.len() == 6);
    assert("Fiancheggiamento"@.len() == 16);
    assert("Forza"@.len() == 5);
    assert("Frastornamento"@.len() == 14);
    assert("Frastornato"@.len() == 11);
    assert("Freddo"@.len() == 6);
    assert("Freddo (sé stesso e chi lo cavalca)"@.len() == 35);
    assert("Fuoco"@.len() == 5);
    assert("Fuoco Infernale"@.len() == 15);
    assert("Illusione"@.len() == 9);
    assert("Illusioni e qualsiasi attacco basato sulla vista"@.len() == 48);
    assert("Immunità al Freddo"@.len() == 18);
    assert("Immunità alla Magia"@.len() == 19);
    assert("Infermità"@.len() == 9);
    assert("Infermo"@.len() == 7);
    assert("Magia"@.len() == 5);
    assert("Malattia"@.len() == 8);
    assert("Malattie"@.len() == 8);
    assert("Maledizioni"@.len() == 11);
    assert("Metamorfosi"@.len() == 11);
    assert("Nausea"@.len() == 6);
    assert("Nauseato"@.len() == 8);
    assert("Non Deformante"@.len() == 14);
    assert("Paralisi"@.len() == 8);
    assert("Paura"@.len() == 5);
    assert("Pietrificazione"@.len() == 15);
    assert("Sanguinamento"@.len() == 13);
    assert("Sanguinamento (solo Punti Ferita)"@.len() == 33);
    assert("Scosso"@.len() == 6);
    assert("Sguardo"@.len() == 7);
    assert("Sonno"@.len() == 5);
    assert("Sonoro"@.len() == 6);
    assert("Sordità"@.len() == 7);
    assert("Spaventato"@.len() == 10);
    assert("Stordimento"@.len() == 11);
    assert("Veleni"@.len() == 6);
    assert("Veleno"@.len() == 6);
    assert("Veleno Ingerito"@.len() == 15);
    assert("acido"@.len() == 5);
    assert("attacchi basati sulla vista ed effetti visivi"@.len() == 45);
    assert("attacchi con Sguardo"@.len() == 20);
    assert("attacchi con lo Sguardo"@.len() == 23);
    assert("attacchi con lo sguardo"@.len() == 23);
    assert("charme"@.len() == 6);
    assert("compulsione"@.len() == 11);
    assert("controllo mentale"@.len() == 17);
    assert("contundente"@.len() == 11);
    assert("da caduta e da schiacciamento"@.len() == 29);
    assert("danni contundenti"@.len() == 17);
    assert("danni contundenti e perforanti"@.len() == 30);
    assert("danni da arma"@.len() == 13);
    assert("danni da armi"@.len() == 13);
    assert("danni da precisione"@.len() == 19);
    assert("danni delle armi"@.len() == 16);
    assert("danni di precisione"@.len() == 19);
    assert("danni perforanti"@.len() == 16);
    assert("danni taglienti"@.len() == 15);
    assert("danni taglienti e perforanti"@.len() == 28);
    assert("danno da arma"@.len() == 13);
    assert("danno di precisione"@.len() == 19);
    assert("di influenza mentale e basati sullo Sguardo"@.len() == 43);
    assert("divinazione"@.len() == 11);
    assert("dolore"@.len() == 6);
    assert("effetti Barcollanti"@.len() == 19);
    assert("effetti basati sulla vista"@.len() == 26);
    assert("effetti che bersagliano uno specifico numero di creature"@.len() == 56);
    assert("effetti di Charme e Compulsione"@.len() == 31);
    assert("effetti di Metamorfosi"@.len() == 22);
    assert("effetti di Paura"@.len() == 16);
    assert("effetti di Paura ed influenza mentale"@.len() == 37);
    assert("effetti di Sguardo"@.len() == 18);
    assert("effetti di Sonno"@.len() == 16);
    assert("effetti di ammaliamento"@.len() == 23);
    assert("effetti di charme"@.len() == 17);
    assert("effetti di charme e compulsione"@.len() == 31);
    assert("effetti di charme e compulsioni"@.len() == 31);
    assert("effetti di compulsione"@.len() == 22);
    assert("effetti di demenza"@.len() == 18);
    assert("effetti di influenza mentale"@.len() == 28);
    assert("effetti di influenza mentale e visivi"@.len() == 37);
    assert("effetti di maledizione"@.len() == 22);
    assert("effetti di maledizioni"@.len() == 22);
    assert("effetti di metamorfosi"@.len() == 22);
    assert("effetti di morte"@.len() == 16);
    assert("effetti di paura"@.len() == 16);
    assert("effetti di sguardo"@.len() == 18);
    assert("effetti di sonno"@.len() == 16);
    assert("effetti e illusioni visive"@.len() == 26);
    assert("effetti polimorfi"@.len() == 17);
    assert("effetti sensoriali"@.len() == 18);
    assert("effetti visivi"@.len() == 14);
    assert("effetti visivi e illusioni"@.len() == 26);
    assert("elettricità"@.len() == 11);
    assert("emozioni"@.len() == 8);
    assert("energia negativa"@.len() == 16);
    assert("ferite permanenti"@.len() == 17);
    assert("forza"@.len() == 5);
    assert("freddo"@.len() == 6);
    assert("fuoco"@.len() == 5);
    assert("illusioni"@.len() == 9);
    assert("illusioni visive"@.len() == 16);
    assert("malattia"@.len() == 8);
    assert("malattie"@.len() == 8);
    assert("maledizioni"@.len() == 11);
    assert("metamorfosi"@.len() == 11);
    assert("nausea"@.len() == 6);
    assert("paralisi"@.len() == 8);
    assert("paura"@.len() == 5);
    assert("pietrificazione"@.len() == 15);
    assert("possessione"@.len() == 11);
    assert("ruggine"@.len() == 7);
    assert("sanguinamento"@.len() == 13);
    assert("sonno"@.len() == 5);
    assert("sonoro"@.len() == 6);
    assert("sordità"@.len() == 7);
    assert("stordimento"@.len() == 11);
    assert("veleni"@.len() == 6);
    assert("veleno"@.len() == 6);
    assert("visivi ed illusori"@.len() == 18);
    assert("Effetti di confusione e follia"@[0] != "danni contundenti e perforanti"@[0]);
    assert("Effetti di confusione e follia"@ != "danni contundenti e perforanti"@);
}

proof fn lemma_read_immunity_confusionandregressioneffects(s: Seq<char>)
    requires
        immunity_named(Immunity_Type::Immunity_ConfusionAndRegressionEffects, s),
    ensures
        spec_single_immunity(s) == Some(Immunity_Type::Immunity_ConfusionAndRegressionEffects),
{
    reveal_strlit("Abbagliamenti");
    reveal_strlit("Abbagliamento");
    reveal_strlit("Abbagliato");
    reveal_strlit("Accecato");
    reveal_strlit("Acido");
    reveal_strlit("Affaticamento");
    reveal_strlit("Affaticato");
    reveal_strlit("Ammaliamento");
    reveal_strlit("Armi Taglienti");
    reveal_strlit("Armi contundenti");
    reveal_strlit("Assorbimento del Fuoco");
    reveal_strlit("Attacchi Furtivi");
    reveal_strlit("Attacchi ai Fianchi");
    reveal_strlit("Attacchi basati sull'olfatto");
    reveal_strlit("Attacchi basati sulla vista");
    reveal_strlit("Attacchi basati sulla vista o sguardo");
    reveal_strlit("Attacchi con Sguardo");
    reveal_strlit("Attacchi con lo sguardo");
    reveal_strlit("Attacchi dipendenti dalla vista");
    reveal_strlit("Barcollante");
    reveal_strlit("Barcollare");
    reveal_strlit("Cecità");
    reveal_strlit("Charme");
    reveal_strlit("Colpi Critici");
    reveal_strlit("Colpi critici");
    reveal_strlit("Condizione Affaticato");
    reveal_strlit("Condizione Esausto");
    reveal_strlit("Confusione");
    reveal_strlit("Danni Non Letali");
    reveal_strlit("Danni contundenti");
    reveal_strlit("Danni da arma");
    reveal_strlit("Danni da armi");
    reveal_strlit("Danni dalle Armi");
    reveal_strlit("Danni perforanti e taglienti");
    reveal_strlit("Danno da Pressione");
    reveal_strlit("Danno da arma");
    reveal_strlit("Danno non letale");
    reveal_strlit("Demenza");
    reveal_strlit("Divinazione");
    reveal_strlit("Dolore");
    reveal_strlit("Effetti a completamento di incantesimo e ad attivazione di incantesimo");
    reveal_strlit("Effetti basati sulla vista");
    reveal_strlit("Effetti d'influenza mentale");
    reveal_strlit("Effetti di Charme e Compulsione");
    reveal_strlit("Effetti di Demenza");
    reveal_strlit("Effetti di Influenza Mentale");
    reveal_strlit("Effetti di Morte");
    reveal_strlit("Effetti di Paura");
    reveal_strlit("Effetti di Sonno");
    reveal_strlit("Effetti di charme");
    reveal_strlit("Effetti di charme e compulsioni");
    reveal_strlit("Effetti di confusione e follia");
    reveal_strlit("Effetti di dolore");
    reveal_strlit("Effetti di forza");
    reveal_strlit("Effetti di influenza mentale");
    reveal_strlit("Effetti di morte");
    reveal_strlit("Effetti di morte (vedi sotto)");
    reveal_strlit("Effetti di paura");
    reveal_strlit("Effetti di sonno");
    reveal_strlit("Effetti visivi");
    reveal_strlit("Elettricità");
    reveal_strlit("Elettricità (parziale)");
    reveal_strlit("Energia Negativa");
    reveal_strlit("Energia Positiva");
    reveal_strlit("Esaurimento");
    reveal_strlit("Esausto");
    reveal_strlit("Fatica");
    reveal_strlit("Fiancheggiamento");
    reveal_strlit("Forza");
    reveal_strlit("Frastornamento");
    reveal_strlit("Frastornato");
    reveal_strlit("Freddo");
    reveal_strlit("Freddo (sé stesso e chi lo cavalca)");
    reveal_strlit("Fuoco");
    reveal_strlit("Fuoco Infernale");
    reveal_strlit("Illusione");
    reveal_strlit("Illusioni e qualsiasi attacco basato sulla vista");
    reveal_strlit("Immunità al Freddo");
    reveal_strlit("Immunità alla Magia");
    reveal_strlit("Infermità");
    reveal_strlit("Infermo");
    reveal_strlit("Magia");
    reveal_strlit("Malattia");
    reveal_strlit("Malattie");
    reveal_strlit("Maledizioni");
    reveal_strlit("Metamorfosi");
    reveal_strlit("Nausea");
    reveal_strlit("Nauseato");
    reveal_strlit("Non Deformante");
    reveal_strlit("Paralisi");
    reveal_strlit("Paura");
    reveal_strlit("Pietrificazione");
    reveal_strlit("Sanguinamento");
    reveal_strlit("Sanguinamento (solo Punti Ferita)");
    reveal_strlit("Scosso");
    reveal_strlit("Sguardo");
    reveal_strlit("Sonno");
    reveal_strlit("Sonoro");
    reveal_strlit("Sordità");
    reveal_strlit("Spaventato");
    reveal_strlit("Stordimento");
    reveal_strlit("Veleni");
    reveal_strlit("Veleno");
    reveal_strlit("Veleno Ingerito");
    reveal_strlit("acido");
    reveal_strlit("attacchi basati sulla vista ed effetti visivi");
    reveal_strlit("attacchi con Sguardo");
    reveal_strlit("attacchi con lo Sguardo");
    reveal_strlit("attacchi con lo sguardo");
    reveal_strlit("charme");
    reveal_strlit("compulsione");
    reveal_strlit("controllo mentale");
    reveal_strlit("contundente");
    reveal_strlit("da caduta e da schiacciamento");
    reveal_strlit("danni contundenti");
    reveal_strlit("danni contundenti e perforanti");
    reveal_strlit("danni da arma");
    reveal_strlit("danni da armi");
    reveal_strlit("danni da precisione");
    reveal_strlit("danni delle armi");
    reveal_strlit("danni di precisione");
    reveal_strlit("danni perforanti");
    reveal_strlit("danni taglienti");
    reveal_strlit("danni taglienti e perforanti");
    reveal_strlit("danno da arma");
    reveal_strlit("danno di precisione");
    reveal_strlit("di influenza mentale e basati sullo Sguardo");
    reveal_strlit("divinazione");
    reveal_strlit("dolore");
    reveal_strlit("effetti Barcollanti");
    reveal_strlit("effetti basati sulla vista");
    reveal_strlit("effetti che bersagliano uno specifico numero di creature");
    reveal_strlit("effetti di Charme e Compulsione");
    reveal_strlit("effetti di Metamorfosi");
    reveal_strlit("effetti di Paura");
    reveal_strlit("effetti di Paura ed influenza mentale");
    reveal_strlit("effetti di Sguardo");
    reveal_strlit("effetti di Sonno");
    reveal_strlit("effetti di ammaliamento");
    reveal_strlit("effetti di charme");
    reveal_strlit("effetti di charme e compulsione");
    reveal_strlit("effetti di charme e compulsioni");
    reveal_strlit("effetti di compulsione");
    reveal_strlit("effetti di confusione e demenza");
    reveal_strlit("effetti di demenza");
    reveal_strlit("effetti di influenza mentale");
    reveal_strlit("effetti di influenza mentale e visivi");
    reveal_strlit("effetti di maledizione");
    reveal_strlit("effetti di maledizioni");
    reveal_strlit("effetti di metamorfosi");
    reveal_strlit("effetti di morte");
    reveal_strlit("effetti di paura");
    reveal_strlit("effetti di sguardo");
    reveal_strlit("effetti di sonno");
    reveal_strlit("effetti e illusioni visive");
    reveal_strlit("effetti polimorfi");
    reveal_strlit("effetti sensoriali");
    reveal_strlit("effetti visivi");
    reveal_strlit("effetti visivi e illusioni");
    reveal_strlit("elettricità");
    reveal_strlit("emozioni");
    reveal_strlit("energia negativa");
    reveal_strlit("ferite permanenti");
    reveal_strlit("forza");
    reveal_strlit("freddo");
    reveal_strlit("fuoco");
    reveal_strlit("illusioni");
    reveal_strlit("illusioni visive");
    reveal_strlit("malattia");
    reveal_strlit("malattie");
    reveal_strlit("maledizioni");
    reveal_strlit("metamorfosi");
    reveal_strlit("nausea");
    reveal_strlit("paralisi");
    reveal_strlit("paura");
    reveal_strlit("pietrificazione");
    reveal_strlit("possessione");
    reveal_strlit("ruggine");
    reveal_strlit("sanguinamento");
    reveal_strlit("sonno");
    reveal_strlit("sonoro");
    reveal_strlit("sordità");
    reveal_strlit("stordimento");
    reveal_strlit("veleni");
    reveal_strlit("veleno");
    reveal_strlit("visivi ed illusori");
    assert("Abbagliamenti"@.len() == 13);
    assert("Abbagliamento"@.len() == 13);
    assert("Abbagliato"@.len() == 10);
    assert("Accecato"@.len() == 8);
    assert("Acido"@.len() == 5);
    assert("Affaticamento"@.len() == 13);
    assert("Affaticato"@.len() == 10);
    assert("Ammaliamento"@.len() == 12);
    assert("Armi Taglienti"@.len() == 14);
    assert("Armi contundenti"@.len() == 16);
    assert("Assorbimento del Fuoco"@.len() == 22);
    assert("Attacchi Furtivi"@.len() == 16);
    assert("Attacchi ai Fianchi"@.len() == 19);
    assert("Attacchi basati sull'olfatto"@.len() == 28);
    assert("Attacchi basati sulla vista"@.len() == 27);
    assert("Attacchi basati sulla vista o sguardo"@.len() == 37);
    assert("Attacchi con Sguardo"@.len() == 20);
    assert("Attacchi con lo sguardo"@.len() == 23);
    assert("Attacchi dipendenti dalla vista"@.len() == 31);
    assert("Barcollante"@.len() == 11);
    assert("Barcollare"@.len() == 10);
    assert("Cecità"@.len() == 6);
    assert("Charme"@.len() == 6);
    assert("Colpi Critici"@.len() == 13);
    assert("Colpi critici"@.len() == 13);
    assert("Condizione Affaticato"@.len() == 21);
    assert("Condizione Esausto"@.len() == 18);
    assert("Confusione"@.len() == 10);
    assert("Danni Non Letali"@.len() == 16);
    assert("Danni contundenti"@.len() == 17);
    assert("Danni da arma"@.len() == 13);
    assert("Danni da armi"@.len() == 13);
    assert("Danni dalle Armi"@.len() == 16);
    assert("Danni perforanti e taglienti"@.len() == 28);
    assert("Danno da Pressione"@.len() == 18);
    assert("Danno da arma"@.len() == 13);
    assert("Danno non letale"@.len() == 16);
    assert("Demenza"@.len() == 7);
    assert("Divinazione"@.len() == 11);
    assert("Dolore"@.len() == 6);
    assert("Effetti a completamento di incantesimo e ad attivazione di incantesimo"@.len() == 70);
    assert("Effetti basati sulla vista"@.len() == 26);
    assert("Effetti d'influenza mentale"@.len() == 27);
    assert("Effetti di Charme e Compulsione"@.len() == 31);
    assert("Effetti di Demenza"@.len() == 18);
    assert("Effetti di Influenza Mentale"@.len() == 28);
    assert("Effetti di Morte"@.len() == 16);
    assert("Effetti di Paura"@.len() == 16);
    assert("Effetti di Sonno"@.len() == 16);
    assert("Effetti di charme"@.len() == 17);
    assert("Effetti di charme e compulsioni"@.len() == 31);
    assert("Effetti di confusione e follia"@.len() == 30);
    assert("Effetti di dolore"@.len() == 17);
    assert("Effetti di forza"@.len() == 16);
    assert("Effetti di influenza mentale"@.len() == 28);
    assert("Effetti di morte"@.len() == 16);
    assert("Effetti di morte (vedi sotto)"@.len() == 29);
    assert("Effetti di paura"@.len() == 16);
    assert("Effetti di sonno"@.len() == 16);
    assert("Effetti visivi"@.len() == 14);
    assert("Elettricità"@.len() == 11);
    assert("Elettricità (parziale)"@.len() == 22);
    assert("Energia Negativa"@.len() == 16);
    assert("Energia Positiva"@.len() == 16);
    assert("Esaurimento"@.len() == 11);
    assert("Esausto"@.len() == 7);
    assert("Fatica"@.len() == 6);
    assert("Fiancheggiamento"@.len() == 16);
    assert("Forza"@.len() == 5);
    assert("Frastornamento"@.len() == 14);
    assert("Frastornato"@.len() == 11);
    assert("Freddo"@.len() == 6);
    assert("Freddo (sé stesso e chi lo cavalca)"@.len() == 35);
    assert("Fuoco"@.len() == 5);
    assert("Fuoco Infernale"@.len() == 15);
    assert("Illusione"@.len() == 9);
    assert("Illusioni e qualsiasi attacco basato sulla vista"@.len() == 48);
    assert("Immunità al Freddo"@.len() == 18);
    assert("Immunità alla Magia"@.len() == 19);
    assert("Infermità"@.len() == 9);
    assert("Infermo"@.len() == 7);
    assert("Magia"@.len() == 5);
    assert("Malattia"@.len() == 8);
    assert("Malattie"@.len() == 8);
    assert("Maledizioni"@.len() == 11);
    assert("Metamorfosi"@.len() == 11);
    assert("Nausea"@.len() == 6);
    assert("Nauseato"@.len() == 8);
    assert("Non Deformante"@.len() == 14);
    assert("Paralisi"@.len() == 8);
    assert("Paura"@.len() == 5);
    assert("Pietrificazione"@.len() == 15);
    assert("Sanguinamento"@.len() == 13);
    assert("Sanguinamento (solo Punti Ferita)"@.len() == 33);
    assert("Scosso"@.len() == 6);
    assert("Sguardo"@.len() == 7);
    assert("Sonno"@.len() == 5);
    assert("Sonoro"@.len() == 6);
    assert("Sordità"@.len() == 7);
    assert("Spaventato"@.len() == 10);
    assert("Stordimento"@.len() == 11);
    assert("Veleni"@.len() == 6);
    assert("Veleno"@.len() == 6);
    assert("Veleno Ingerito"@.len() == 15);
    assert("acido"@.len() == 5);
    assert("attacchi basati sulla vista ed effetti visivi"@.len() == 45);
    assert("attacchi con Sguardo"@.len() == 20);
    assert("attacchi con lo Sguardo"@.len() == 23);
    assert("attacchi con lo sguardo"@.len() == 23);
    assert("charme"@.len() == 6);
    assert("compulsione"@.len() == 11);
    assert("controllo mentale"@.len() == 17);
    assert("contundente"@.len() == 11);
    assert("da caduta e da schiacciamento"@.len() == 29);
    assert("danni contundenti"@.len() == 17);
    assert("danni contundenti e perforanti"@.len() == 30);
    assert("danni da arma"@.len() == 13);
    assert("danni da armi"@.len() == 13);
    assert("danni da precisione"@.len() == 19);
    assert("danni delle armi"@.len() == 16);
    assert("danni di precisione"@.len() == 19);
    assert("danni perforanti"@.len() == 16);
    assert("danni taglienti"@.len() == 15);
    assert("danni taglienti e perforanti"@.len() == 28);
    assert("danno da arma"@.len() == 13);
    assert("danno di precisione"@.len() == 19);
    assert("di influenza mentale e basati sullo Sguardo"@.len() == 43);
    assert("divinazione"@.len() == 11);
    assert("dolore"@.len() == 6);
    assert("effetti Barcollanti"@.len() == 19);
    assert("effetti basati sulla vista"@.len() == 26);
    assert("effetti che bersagliano uno specifico numero di creature"@.len() == 56);
    assert("effetti di Charme e Compulsione"@.len() == 31);
    assert("effetti di Metamorfosi"@.len() == 22);
    assert("effetti di Paura"@.len() == 16);
    assert("effetti di Paura ed influenza mentale"@.len() == 37);
    assert("effetti di Sguardo"@.len() == 18);
    assert("effetti di Sonno"@.len() == 16);
    assert("effetti di ammaliamento"@.len() == 23);
    assert("effetti di charme"@.len() == 17);
    assert("effetti di charme e compulsione"@.len() == 31);
    assert("effetti di charme e compulsioni"@.len() == 31);
    assert("effetti di compulsione"@.len() == 22);
    assert("effetti di confusione e demenza"@.len() == 31);
    assert("effetti di demenza"@.len() == 18);
    assert("effetti di influenza mentale"@.len() == 28);
    assert("effetti di influenza mentale e visivi"@.len() == 37);
    assert("effetti di maledizione"@.len() == 22);
    assert("effetti di maledizioni"@.len() == 22);
    assert("effetti di metamorfosi"@.len() == 22);
    assert("effetti di morte"@.len() == 16);
    assert("effetti di paura"@.len() == 16);
    assert("effetti di sguardo"@.len() == 18);
    assert("effetti di sonno"@.len() == 16);
    assert("effetti e illusioni visive"@.len() == 26);
    assert("effetti polimorfi"@.len() == 17);
    assert("effetti sensoriali"@.len() == 18);
    assert("effetti visivi"@.len() == 14);
    assert("effetti visivi e illusioni"@.len() == 26);
    assert("elettricità"@.len() == 11);
    assert("emozioni"@.len() == 8);
    assert("energia negativa"@.len() == 16);
    assert("ferite permanenti"@.len() == 17);
    assert("forza"@.len() == 5);
    assert("freddo"@.len() == 6);
    assert("fuoco"@.len() == 5);
    assert("illusioni"@.len() == 9);
    assert("illusioni visive"@.len() == 16);
    assert("malattia"@.len() == 8);
    assert("malattie"@.len() == 8);
    assert("maledizioni"@.len() == 11);
    assert("metamorfosi"@.len() == 11);
    assert("nausea"@.len() == 6);
    assert("paralisi"@.len() == 8);
    assert("paura"@.len() == 5);
    assert("pietrificazione"@.len() == 15);
    assert("possessione"@.len() == 11);
    assert("ruggine"@.len() == 7);
    assert("sanguinamento"@.len() == 13);
    assert("sonno"@.len() == 5);
    assert("sonoro"@.len() == 6);
    assert("sordità"@.len() == 7);
    assert("stordimento"@.len() == 11);
    assert("veleni"@.len() == 6);
    assert("veleno"@.len() == 6);
    assert("visivi ed illusori"@.len() == 18);
    assert("effetti di confusione e demenza"@[0] != "Attacchi dipendenti dalla vista"@[0]);
    assert("effetti di confusione e demenza"@ != "Attacchi dipendenti dalla vista"@);
    assert("effetti di confusione e demenza"@[12] != "effetti di charme e compulsioni"@[12]);
    assert("effetti di confusione e demenza"@ != "effetti di charme e compulsioni"@);
    assert("effetti di confusione e demenza"@[0] != "Effetti di charme e compulsioni"@[0]);
    assert("effetti di confusione e demenza"@ != "Effetti di charme e compulsioni"@);
    assert("effetti di confusione e demenza"@[0] != "Effetti di Charme e Compulsione"@[0]);
    assert("effetti di confusione e demenza"@ != "Effetti di Charme e Compulsione"@);
    assert("effetti di confusione e demenza"@[11] != "effetti di Charme e Compulsione"@[11]);
    assert("effetti di confusione e demenza"@ != "effetti di Charme e Compulsione"@);
    assert("effetti di confusione e demenza"@[12] != "effetti di charme e compulsione"@[12]);
    assert("effetti di confusione e demenza"@ != "effetti di charme e compulsione"@);
}

proof fn lemma_read_immunity_agingeffects(s: Seq<char>)
    requires
        immunity_named(Immunity_Type::Immunity_AgingEffects, s),
    ensures
        spec_single_immunity(s) == Some(Immunity_Type::Immunity_AgingEffects),
{
    reveal_strlit("Abbagliamenti");
    reveal_strlit("Abbagliamento");
    reveal_strlit("Abbagliato");
    reveal_strlit("Accecato");
    reveal_strlit("Acido");
    reveal_strlit("Affaticamento");
    reveal_strlit("Affaticato");
    reveal_strlit("Ammaliamento");
    reveal_strlit("Armi Taglienti");
    reveal_strlit("Armi contundenti");
    reveal_strlit("Assorbimento del Fuoco");
    reveal_strlit("Attacchi Furtivi");
    reveal_strlit("Attacchi ai Fianchi");
    reveal_strlit("Attacchi basati sull'olfatto");
    reveal_strlit("Attacchi basati sulla vista");
    reveal_strlit("Attacchi basati sulla vista o sguardo");
    reveal_strlit("Attacchi con Sguardo");
    reveal_strlit("Attacchi con lo sguardo");
    reveal_strlit("Attacchi dipendenti dalla vista");
    reveal_strlit("Barcollante");
    reveal_strlit("Barcollare");
    reveal_strlit("Cecità");
    reveal_strlit("Charme");
    reveal_strlit("Colpi Critici");
    reveal_strlit("Colpi critici");
    reveal_strlit("Condizione Affaticato");
    reveal_strlit("Condizione Esausto");
    reveal_strlit("Confusione");
    reveal_strlit("Danni Non Letali");
    reveal_strlit("Danni contundenti");
    reveal_strlit("Danni da arma");
    reveal_strlit("Danni da armi");
    reveal_strlit("Danni dalle Armi");
    reveal_strlit("Danni perforanti e taglienti");
    reveal_strlit("Danno da Pressione");
    reveal_strlit("Danno da arma");
    reveal_strlit("Danno non letale");
    reveal_strlit("Demenza");
    reveal_strlit("Divinazione");
    reveal_strlit("Dolore");
    reveal_strlit("Effetti a completamento di incantesimo e ad attivazione di incantesimo");
    reveal_strlit("Effetti basati sulla vista");
    reveal_strlit("Effetti d'influenza mentale");
    reveal_strlit("Effetti di Charme e Compulsione");
    reveal_strlit("Effetti di Demenza");
    reveal_strlit("Effetti di Influenza Mentale");
    reveal_strlit("Effetti di Morte");
    reveal_strlit("Effetti di Paura");
    reveal_strlit("Effetti di Sonno");
    reveal_strlit("Effetti di charme");
    reveal_strlit("Effetti di charme e compulsioni");
    reveal_strlit("Effetti di confusione e follia");
    reveal_strlit("Effetti di dolore");
    reveal_strlit("Effetti di forza");
    reveal_strlit("Effetti di influenza mentale");
    reveal_strlit("Effetti di morte");
    reveal_strlit("Effetti di morte (vedi sotto)");
    reveal_strlit("Effetti di paura");
    reveal_strlit("Effetti di sonno");
    reveal_strlit("Effetti visivi");
    reveal_strlit("Elettricità");
    reveal_strlit("Elettricità (parziale)");
    reveal_strlit("Energia Negativa");
    reveal_strlit("Energia Positiva");
    reveal_strlit("Esaurimento");
    reveal_strlit("Esausto");
    reveal_strlit("Fatica");
    reveal_strlit("Fiancheggiamento");
    reveal_strlit("Forza");
    reveal_strlit("Frastornamento");
    reveal_strlit("Frastornato");
    reveal_strlit("Freddo");
    reveal_strlit("Freddo (sé stesso e chi lo cavalca)");
    reveal_strlit("Fuoco");
    reveal_strlit("Fuoco Infernale");
    reveal_strlit("Illusione");
    reveal_strlit("Illusioni e qualsiasi attacco basato sulla vista");
    reveal_strlit("Immunità al Freddo");
    reveal_strlit("Immunità alla Magia");
    reveal_strlit("Infermità");
    reveal_strlit("Infermo");
    reveal_strlit("Invecchiamento");
    reveal_strlit("Magia");
    reveal_strlit("Malattia");
    reveal_strlit("Malattie");
    reveal_strlit("Maledizioni");
    reveal_strlit("Metamorfosi");
    reveal_strlit("Nausea");
    reveal_strlit("Nauseato");
    reveal_strlit("Non Deformante");
    reveal_strlit("Paralisi");
    reveal_strlit("Paura");
    reveal_strlit("Pietrificazione");
    reveal_strlit("Sanguinamento");
    reveal_strlit("Sanguinamento (solo Punti Ferita)");
    reveal_strlit("Scosso");
    reveal_strlit("Sguardo");
    reveal_strlit("Sonno");
    reveal_strlit("Sonoro");
    reveal_strlit("Sordità");
    reveal_strlit("Spaventato");
    reveal_strlit("Stordimento");
    reveal_strlit("Veleni");
    reveal_strlit("Veleno");
    reveal_strlit("Veleno Ingerito");
    reveal_strlit("acido");
    reveal_strlit("attacchi basati sulla vista ed effetti visivi");
    reveal_strlit("attacchi con Sguardo");
    reveal_strlit("attacchi con lo Sguardo");
    reveal_strlit("attacchi con lo sguardo");
    reveal_strlit("charme");
    reveal_strlit("compulsione");
    reveal_strlit("controllo mentale");
    reveal_strlit("contundente");
    reveal_strlit("da caduta e da schiacciamento");
    reveal_strlit("danni contundenti");
    reveal_strlit("danni contundenti e perforanti");
    reveal_strlit("danni da arma");
    reveal_strlit("danni da armi");
    reveal_strlit("danni da precisione");
    reveal_strlit("danni delle armi");
    reveal_strlit("danni di precisione");
    reveal_strlit("danni perforanti");
    reveal_strlit("danni taglienti");
    reveal_strlit("danni taglienti e perforanti");
    reveal_strlit("danno da arma");
    reveal_strlit("danno di precisione");
    reveal_strlit("di influenza mentale e basati sullo Sguardo");
    reveal_strlit("divinazione");
    reveal_strlit("dolore");
    reveal_strlit("effetti Barcollanti");
    reveal_strlit("effetti basati sulla vista");
    reveal_strlit("effetti che bersagliano uno specifico numero di creature");
    reveal_strlit("effetti di Charme e Compulsione");
    reveal_strlit("effetti di Metamorfosi");
    reveal_strlit("effetti di Paura");
    reveal_strlit("effetti di Paura ed influenza mentale");
    reveal_strlit("effetti di Sguardo");
    reveal_strlit("effetti di Sonno");
    reveal_strlit("effetti di ammaliamento");
    reveal_strlit("effetti di charme");
    reveal_strlit("effetti di charme e compulsione");
    reveal_strlit("effetti di charme e compulsioni");
    reveal_strlit("effetti di compulsione");
    reveal_strlit("effetti di confusione e demenza");
    reveal_strlit("effetti di demenza");
    reveal_strlit("effetti di influenza mentale");
    reveal_strlit("effetti di influenza mentale e visivi");
    reveal_strlit("effetti di maledizione");
    reveal_strlit("effetti di maledizioni");
    reveal_strlit("effetti di metamorfosi");
    reveal_strlit("effetti di morte");
    reveal_strlit("effetti di paura");
    reveal_strlit("effetti di sguardo");
    reveal_strlit("effetti di sonno");
    reveal_strlit("effetti e illusioni visive");
    reveal_strlit("effetti polimorfi");
    reveal_strlit("effetti sensoriali");
    reveal_strlit("effetti visivi");
    reveal_strlit("effetti visivi e illusioni");
    reveal_strlit("elettricità");
    reveal_strlit("emozioni");
    reveal_strlit("energia negativa");
    reveal_strlit("ferite permanenti");
    reveal_strlit("forza");
    reveal_strlit("freddo");
    reveal_strlit("fuoco");
    reveal_strlit("illusioni");
    reveal_strlit("illusioni visive");
    reveal_strlit("invecchiamento");
    reveal_strlit("malattia");
    reveal_strlit("malattie");
    reveal_strlit("maledizioni");
    reveal_strlit("metamorfosi");
    reveal_strlit("nausea");
    reveal_strlit("paralisi");
    reveal_strlit("paura");
    reveal_strlit("pietrificazione");
    reveal_strlit("possessione");
    reveal_strlit("ruggine");
    reveal_strlit("sanguinamento");
    reveal_strlit("sonno");
    reveal_strlit("sonoro");
    reveal_strlit("sordità");
    reveal_strlit("stordimento");
    reveal_strlit("veleni");
    reveal_strlit("veleno");
    reveal_strlit("visivi ed illusori");
    assert("Abbagliamenti"@.len() == 13);
    assert("Abbagliamento"@.len() == 13);
    assert("Abbagliato"@.len() == 10);
    assert("Accecato"@.len() == 8);
    assert("Acido"@.len() == 5);
    assert("Affaticamento"@.len() == 13);
    assert("Affaticato"@.len() == 10);
    assert("Ammaliamento"@.len() == 12);
    assert("Armi Taglienti"@.len() == 14);
    assert("Armi contundenti"@.len() == 16);
    assert("Assorbimento del Fuoco"@.len() == 22);
    assert("Attacchi Furtivi"@.len() == 16);
    assert("Attacchi ai Fianchi"@.len() == 19);
    assert("Attacchi basati sull'olfatto"@.len() == 28);
    assert("Attacchi basati sulla vista"@.len() == 27);
    assert("Attacchi basati sulla vista o sguardo"@.len() == 37);
    assert("Attacchi con Sguardo"@.len() == 20);
    assert("Attacchi con lo sguardo"@.len() == 23);
    assert("Attacchi dipendenti dalla vista"@.len() == 31);
    assert("Barcollante"@.len() == 11);
    assert("Barcollare"@.len() == 10);
    assert("Cecità"@.len() == 6);
    assert("Charme"@.len() == 6);
    assert("Colpi Critici"@.len() == 13);
    assert("Colpi critici"@.len() == 13);
    assert("Condizione Affaticato"@.len() == 21);
    assert("Condizione Esausto"@.len() == 18);
    assert("Confusione"@.len() == 10);
    assert("Danni Non Letali"@.len() == 16);
    assert("Danni contundenti"@.len() == 17);
    assert("Danni da arma"@.len() == 13);
    assert("Danni da armi"@.len() == 13);
    assert("Danni dalle Armi"@.len() == 16);
    assert("Danni perforanti e taglienti"@.len() == 28);
    assert("Danno da Pressione"@.len() == 18);
    assert("Danno da arma"@.len() == 13);
    assert("Danno non letale"@.len() == 16);
    assert("Demenza"@.len() == 7);
    assert("Divinazione"@.len() == 11);
    assert("Dolore"@.len() == 6);
    assert("Effetti a completamento di incantesimo e ad attivazione di incantesimo"@.len() == 70);
    assert("Effetti basati sulla vista"@.len() == 26);
    assert("Effetti d'influenza mentale"@.len() == 27);
    assert("Effetti di Charme e Compulsione"@.len() == 31);
    assert("Effetti di Demenza"@.len() == 18);
    assert("Effetti di Influenza Mentale"@.len() == 28);
    assert("Effetti di Morte"@.len() == 16);
    assert("Effetti di Paura"@.len() == 16);
    assert("Effetti di Sonno"@.len() == 16);
    assert("Effetti di charme"@.len() == 17);
    assert("Effetti di charme e compulsioni"@.len() == 31);
    assert("Effetti di confusione e follia"@.len() == 30);
    assert("Effetti di dolore"@.len() == 17);
    assert("Effetti di forza"@.len() == 16);
    assert("Effetti di influenza mentale"@.len() == 28);
    assert("Effetti di morte"@.len() == 16);
    assert("Effetti di morte (vedi sotto)"@.len() == 29);
    assert("Effetti di paura"@.len() == 16);
    assert("Effetti di sonno"@.len() == 16);
    assert("Effetti visivi"@.len() == 14);
    assert("Elettricità"@.len() == 11);
    assert("Elettricità (parziale)"@.len() == 22);
    assert("Energia Negativa"@.len() == 16);
    assert("Energia Positiva"@.len() == 16);
    assert("Esaurimento"@.len() == 11);
    assert("Esausto"@.len() == 7);
    assert("Fatica"@.len() == 6);
    assert("Fiancheggiamento"@.len() == 16);
    assert("Forza"@.len() == 5);
    assert("Frastornamento"@.len() == 14);
    assert("Frastornato"@.len() == 11);
    assert("Freddo"@.len() == 6);
    assert("Freddo (sé stesso e chi lo cavalca)"@.len() == 35);
    assert("Fuoco"@.len() == 5);
    assert("Fuoco Infernale"@.len() == 15);
    assert("Illusione"@.len() == 9);
    assert("Illusioni e qualsiasi attacco basato sulla vista"@.len() == 48);
    assert("Immunità al Freddo"@.len() == 18);
    assert("Immunità alla Magia"@.len() == 19);
    assert("Infermità"@.len() == 9);
    assert("Infermo"@.len() == 7);
    assert("Invecchiamento"@.len() == 14);
    assert("Magia"@.len() == 5);
    assert("Malattia"@.len() == 8);
    assert("Malattie"@.len() == 8);
    assert("Maledizioni"@.len() == 11);
    assert("Metamorfosi"@.len() == 11);
    assert("Nausea"@.len() == 6);
    assert("Nauseato"@.len() == 8);
    assert("Non Deformante"@.len() == 14);
    assert("Paralisi"@.len() == 8);
    assert("Paura"@.len() == 5);
    assert("Pietrificazione"@.len() == 15);
    assert("Sanguinamento"@.len() == 13);
    assert("Sanguinamento (solo Punti Ferita)"@.len() == 33);
    assert("Scosso"@.len() == 6);
    assert("Sguardo"@.len() == 7);
    assert("Sonno"@.len() == 5);
    assert("Sonoro"@.len() == 6);
    assert("Sordità"@.len() == 7);
    assert("Spaventato"@.len() == 10);
    assert("Stordimento"@.len() == 11);
    assert("Veleni"@.len() == 6);
    assert("Veleno"@.len() == 6);
    assert("Veleno Ingerito"@.len() == 15);
    assert("acido"@.len() == 5);
    assert("attacchi basati sulla vista ed effetti visivi"@.len() == 45);
    assert("attacchi con Sguardo"@.len() == 20);
    assert("attacchi con lo Sguardo"@.len() == 23);
    assert("attacchi con lo sguardo"@.len() == 23);
    assert("charme"@.len() == 6);
    assert("compulsione"@.len() == 11);
    assert("controllo mentale"@.len() == 17);
    assert("contundente"@.len() == 11);
    assert("da caduta e da schiacciamento"@.len() == 29);
    assert("danni contundenti"@.len() == 17);
    assert("danni contundenti e perforanti"@.len() == 30);
    assert("danni da arma"@.len() == 13);
    assert("danni da armi"@.len() == 13);
    assert("danni da precisione"@.len() == 19);
    assert("danni delle armi"@.len() == 16);
    assert("danni di precisione"@.len() == 19);
    assert("danni perforanti"@.len() == 16);
    assert("danni taglienti"@.len() == 15);
    assert("danni taglienti e perforanti"@.len() == 28);
    assert("danno da arma"@.len() == 13);
    assert("danno di precisione"@.len() == 19);
    assert("di influenza mentale e basati sullo Sguardo"@.len() == 43);
    assert("divinazione"@.len() == 11);
    assert("dolore"@.len() == 6);
    assert("effetti Barcollanti"@.len() == 19);
    assert("effetti basati sulla vista"@.len() == 26);
    assert("effetti che bersagliano uno specifico numero di creature"@.len() == 56);
    assert("effetti di Charme e Compulsione"@.len() == 31);
    assert("effetti di Metamorfosi"@.len() == 22);
    assert("effetti di Paura"@.len() == 16);
    assert("effetti di Paura ed influenza mentale"@.len() == 37);
    assert("effetti di Sguardo"@.len() == 18);
    assert("effetti di Sonno"@.len() == 16);
    assert("effetti di ammaliamento"@.len() == 23);
    assert("effetti di charme"@.len() == 17);
    assert("effetti di charme e compulsione"@.len() == 31);
    assert("effetti di charme e compulsioni"@.len() == 31);
    assert("effetti di compulsione"@.len() == 22);
    assert("effetti di confusione e demenza"@.len() == 31);
    assert("effetti di demenza"@.len() == 18);
    assert("effetti di influenza mentale"@.len() == 28);
    assert("effetti di influenza mentale e visivi"@.len() == 37);
    assert("effetti di maledizione"@.len() == 22);
    assert("effetti di maledizioni"@.len() == 22);
    assert("effetti di metamorfosi"@.len() == 22);
    assert("effetti di morte"@.len() == 16);
    assert("effetti di paura"@.len() == 16);
    assert("effetti di sguardo"@.len() == 18);
    assert("effetti di sonno"@.len() == 16);
    assert("effetti e illusioni visive"@.len() == 26);
    assert("effetti polimorfi"@.len() == 17);
    assert("effetti sensoriali"@.len() == 18);
    assert("effetti visivi"@.len() == 14);
    assert("effetti visivi e illusioni"@.len() == 26);
    assert("elettricità"@.len() == 11);
    assert("emozioni"@.len() == 8);
    assert("energia negativa"@.len() == 16);
    assert("ferite permanenti"@.len() == 17);
    assert("forza"@.len() == 5);
    assert("freddo"@.len() == 6);
    assert("fuoco"@.len() == 5);
    assert("illusioni"@.len() == 9);
    assert("illusioni visive"@.len() == 16);
    assert("invecchiamento"@.len() == 14);
    assert("malattia"@.len() == 8);
    assert("malattie"@.len() == 8);
    assert("maledizioni"@.len() == 11);
    assert("metamorfosi"@.len() == 11);
    assert("nausea"@.len() == 6);
    assert("paralisi"@.len() == 8);
    assert("paura"@.len() == 5);
    assert("pietrificazione"@.len() == 15);
    assert("possessione"@.len() == 11);
    assert("ruggine"@.len() == 7);
    assert("sanguinamento"@.len() == 13);
    assert("sonno"@.len() == 5);
    assert("sonoro"@.len() == 6);
    assert("sordità"@.len() == 7);
    assert("stordimento"@.len() == 11);
    assert("veleni"@.len() == 6);
    assert("veleno"@.len() == 6);
    assert("visivi ed illusori"@.len() == 18);
    assert("Invecchiamento"@[0] != "Frastornamento"@[0]);
    assert("Invecchiamento"@ != "Frastornamento"@);
    assert("Invecchiamento"@[0] != "Armi Taglienti"@[0]);
    assert("Invecchiamento"@ != "Armi Taglienti"@);
    assert("Invecchiamento"@[0] != "Non Deformante"@[0]);
    assert("Invecchiamento"@ != "Non Deformante"@);
    assert("Invecchiamento"@[0] != "effetti visivi"@[0]);
    assert("Invecchiamento"@ != "effetti visivi"@);
    assert("Invecchiamento"@[0] != "Effetti visivi"@[0]);
    assert("Invecchiamento"@ != "Effetti visivi"@);
    assert("invecchiamento"@[0] != "Frastornamento"@[0]);
    assert("invecchiamento"@ != "Frastornamento"@);
    assert("invecchiamento"@[0] != "Armi Taglienti"@[0]);
    assert("invecchiamento"@ != "Armi Taglienti"@);
    assert("invecchiamento"@[0] != "Non Deformante"@[0]);
    assert("invecchiamento"@ != "Non Deformante"@);
    assert("invecchiamento"@[0] != "effetti visivi"@[0]);
    assert("invecchiamento"@ != "effetti visivi"@);
    assert("invecchiamento"@[0] != "Effetti visivi"@[0]);
    assert("invecchiamento"@ != "Effetti visivi"@);
    assert("invecchiamento"@[0] != "Invecchiamento"@[0]);
    assert("invecchiamento"@ != "Invecchiamento"@);
}

proof fn lemma_read_immunity_lighteffects(s: Seq<char>)
    requires
        immunity_named(Immunity_Type::Immunity_LightEffects, s),
    ensures
        spec_single_immunity(s) == Some(Immunity_Type::Immunity_LightEffects),
{
    reveal_strlit("Abbagliamenti");
    reveal_strlit("Abbagliamento");
    reveal_strlit("Abbagliato");
    reveal_strlit("Accecato");
    reveal_strlit("Acido");
    reveal_strlit("Affaticamento");
    reveal_strlit("Affaticato");
    reveal_strlit("Ammaliamento");
    reveal_strlit("Armi Taglienti");
    reveal_strlit("Armi contundenti");
    reveal_strlit("Assorbimento del Fuoco");
    reveal_strlit("Attacchi Furtivi");
    reveal_strlit("Attacchi ai Fianchi");
    reveal_strlit("Attacchi basati sull'olfatto");
    reveal_strlit("Attacchi basati sulla vista");
    reveal_strlit("Attacchi basati sulla vista o sguardo");
    reveal_strlit("Attacchi con Sguardo");
    reveal_strlit("Attacchi con lo sguardo");
    reveal_strlit("Attacchi dipendenti dalla vista");
    reveal_strlit("Barcollante");
    reveal_strlit("Barcollare");
    reveal_strlit("Cecità");
    reveal_strlit("Charme");
    reveal_strlit("Colpi Critici");
    reveal_strlit("Colpi critici");
    reveal_strlit("Condizione Affaticato");
    reveal_strlit("Condizione Esausto");
    reveal_strlit("Confusione");
    reveal_strlit("Danni Non Letali");
    reveal_strlit("Danni contundenti");
    reveal_strlit("Danni da arma");
    reveal_strlit("Danni da armi");
    reveal_strlit("Danni dalle Armi");
    reveal_strlit("Danni perforanti e taglienti");
    reveal_strlit("Danno da Pressione");
    reveal_strlit("Danno da arma");
    reveal_strlit("Danno non letale");
    reveal_strlit("Demenza");
    reveal_strlit("Divinazione");
    reveal_strlit("Dolore");
    reveal_strlit("Effetti a completamento di incantesimo e ad attivazione di incantesimo");
    reveal_strlit("Effetti basati sulla vista");
    reveal_strlit("Effetti d'influenza mentale");
    reveal_strlit("Effetti di Charme e Compulsione");
    reveal_strlit("Effetti di Demenza");
    reveal_strlit("Effetti di Influenza Mentale");
    reveal_strlit("Effetti di Morte");
    reveal_strlit("Effetti di Paura");
    reveal_strlit("Effetti di Sonno");
    reveal_strlit("Effetti di charme");
    reveal_strlit("Effetti di charme e compulsioni");
    reveal_strlit("Effetti di confusione e follia");
    reveal_strlit("Effetti di dolore");
    reveal_strlit("Effetti di forza");
    reveal_strlit("Effetti di influenza mentale");
    reveal_strlit("Effetti di morte");
    reveal_strlit("Effetti di morte (vedi sotto)");
    reveal_strlit("Effetti di paura");
    reveal_strlit("Effetti di sonno");
    reveal_strlit("Effetti visivi");
    reveal_strlit("Elettricità");
    reveal_strlit("Elettricità (parziale)");
    reveal_strlit("Energia Negativa");
    reveal_strlit("Energia Positiva");
    reveal_strlit("Esaurimento");
    reveal_strlit("Esausto");
    reveal_strlit("Fatica");
    reveal_strlit("Fiancheggiamento");
    reveal_strlit("Forza");
    reveal_strlit("Frastornamento");
    reveal_strlit("Frastornato");
    reveal_strlit("Freddo");
    reveal_strlit("Freddo (sé stesso e chi lo cavalca)");
    reveal_strlit("Fuoco");
    reveal_strlit("Fuoco Infernale");
    reveal_strlit("Illusione");
    reveal_strlit("Illusioni e qualsiasi attacco basato sulla vista");
    reveal_strlit("Immunità al Freddo");
    reveal_strlit("Immunità alla Magia");
    reveal_strlit("Infermità");
    reveal_strlit("Infermo");
    reveal_strlit("Invecchiamento");
    reveal_strlit("Magia");
    reveal_strlit("Malattia");
    reveal_strlit("Malattie");
    reveal_strlit("Maledizioni");
    reveal_strlit("Metamorfosi");
    reveal_strlit("Nausea");
    reveal_strlit("Nauseato");
    reveal_strlit("Non Deformante");
    reveal_strlit("Paralisi");
    reveal_strlit("Paura");
    reveal_strlit("Pietrificazione");
    reveal_strlit("Sanguinamento");
    reveal_strlit("Sanguinamento (solo Punti Ferita)");
    reveal_strlit("Scosso");
    reveal_strlit("Sguardo");
    reveal_strlit("Sonno");
    reveal_strlit("Sonoro");
    reveal_strlit("Sordità");
    reveal_strlit("Spaventato");
    reveal_strlit("Stordimento");
    reveal_strlit("Veleni");
    reveal_strlit("Veleno");
    reveal_strlit("Veleno Ingerito");
    reveal_strlit("acido");
    reveal_strlit("attacchi basati sulla vista ed effetti visivi");
    reveal_strlit("attacchi con Sguardo");
    reveal_strlit("attacchi con lo Sguardo");
    reveal_strlit("attacchi con lo sguardo");
    reveal_strlit("charme");
    reveal_strlit("compulsione");
    reveal_strlit("controllo mentale");
    reveal_strlit("contundente");
    reveal_strlit("da caduta e da schiacciamento");
    reveal_strlit("danni contundenti");
    reveal_strlit("danni contundenti e perforanti");
    reveal_strlit("danni da arma");
    reveal_strlit("danni da armi");
    reveal_strlit("danni da precisione");
    reveal_strlit("danni delle armi");
    reveal_strlit("danni di precisione");
    reveal_strlit("danni perforanti");
    reveal_strlit("danni taglienti");
    reveal_strlit("danni taglienti e perforanti");
    reveal_strlit("danno da arma");
    reveal_strlit("danno di precisione");
    reveal_strlit("di influenza mentale e basati sullo Sguardo");
    reveal_strlit("divinazione");
    reveal_strlit("dolore");
    reveal_strlit("effetti Barcollanti");
    reveal_strlit("effetti basati sulla vista");
    reveal_strlit("effetti che bersagliano uno specifico numero di creature");
    reveal_strlit("effetti di Charme e Compulsione");
    reveal_strlit("effetti di Metamorfosi");
    reveal_strlit("effetti di Paura");
    reveal_strlit("effetti di Paura ed influenza mentale");
    reveal_strlit("effetti di Sguardo");
    reveal_strlit("effetti di Sonno");
    reveal_strlit("effetti di ammaliamento");
    reveal_strlit("effetti di charme");
    reveal_strlit("effetti di charme e compulsione");
    reveal_strlit("effetti di charme e compulsioni");
    reveal_strlit("effetti di compulsione");
    reveal_strlit("effetti di confusione e demenza");
    reveal_strlit("effetti di demenza");
    reveal_strlit("effetti di influenza mentale");
    reveal_strlit("effetti di influenza mentale e visivi");
    reveal_strlit("effetti di luce");
    reveal_strlit("effetti di maledizione");
    reveal_strlit("effetti di maledizioni");
    reveal_strlit("effetti di metamorfosi");
    reveal_strlit("effetti di morte");
    reveal_strlit("effetti di paura");
    reveal_strlit("effetti di sguardo");
    reveal_strlit("effetti di sonno");
    reveal_strlit("effetti e illusioni visive");
    reveal_strlit("effetti polimorfi");
    reveal_strlit("effetti sensoriali");
    reveal_strlit("effetti visivi");
    reveal_strlit("effetti visivi e illusioni");
    reveal_strlit("elettricità");
    reveal_strlit("emozioni");
    reveal_strlit("energia negativa");
    reveal_strlit("ferite permanenti");
    reveal_strlit("forza");
    reveal_strlit("freddo");
    reveal_strlit("fuoco");
    reveal_strlit("illusioni");
    reveal_strlit("illusioni visive");
    reveal_strlit("invecchiamento");
    reveal_strlit("malattia");
    reveal_strlit("malattie");
    reveal_strlit("maledizioni");
    reveal_strlit("metamorfosi");
    reveal_strlit("nausea");
    reveal_strlit("paralisi");
    reveal_strlit("paura");
    reveal_strlit("pietrificazione");
    reveal_strlit("possessione");
    reveal_strlit("ruggine");
    reveal_strlit("sanguinamento");
    reveal_strlit("sonno");
    reveal_strlit("sonoro");
    reveal_strlit("sordità");
    reveal_strlit("stordimento");
    reveal_strlit("veleni");
    reveal_strlit("veleno");
    reveal_strlit("visivi ed illusori");
    assert("Abbagliamenti"@.len() == 13);
    assert("Abbagliamento"@.len() == 13);
    assert("Abbagliato"@.len() == 10);
    assert("Accecato"@.len() == 8);
    assert("Acido"@.len() == 5);
    assert("Affaticamento"@.len() == 13);
    assert("Affaticato"@.len() == 10);
    assert("Ammaliamento"@.len() == 12);
    assert("Armi Taglienti"@.len() == 14);
    assert("Armi contundenti"@.len() == 16);
    assert("Assorbimento del Fuoco"@.len() == 22);
    assert("Attacchi Furtivi"@.len() == 16);
    assert("Attacchi ai Fianchi"@.len() == 19);
    assert("Attacchi basati sull'olfatto"@.len() == 28);
    assert("Attacchi basati sulla vista"@.len() == 27);
    assert("Attacchi basati sulla vista o sguardo"@.len() == 37);
    assert("Attacchi con Sguardo"@.len() == 20);
    assert("Attacchi con lo sguardo"@.len() == 23);
    assert("Attacchi dipendenti dalla vista"@.len() == 31);
    assert("Barcollante"@.len() == 11);
    assert("Barcollare"@.len() == 10);
    assert("Cecità"@.len() == 6);
    assert("Charme"@.len() == 6);
    assert("Colpi Critici"@.len() == 13);
    assert("Colpi critici"@.len() == 13);
    assert("Condizione Affaticato"@.len() == 21);
    assert("Condizione Esausto"@.len() == 18);
    assert("Confusione"@.len() == 10);
    assert("Danni Non Letali"@.len() == 16);
    assert("Danni contundenti"@.len() == 17);
    assert("Danni da arma"@.len() == 13);
    assert("Danni da armi"@.len() == 13);
    assert("Danni dalle Armi"@.len() == 16);
    assert("Danni perforanti e taglienti"@.len() == 28);
    assert("Danno da Pressione"@.len() == 18);
    assert("Danno da arma"@.len() == 13);
    assert("Danno non letale"@.len() == 16);
    assert("Demenza"@.len() == 7);
    assert("Divinazione"@.len() == 11);
    assert("Dolore"@.len() == 6);
    assert("Effetti a completamento di incantesimo e ad attivazione di incantesimo"@.len() == 70);
    assert("Effetti basati sulla vista"@.len() == 26);
    assert("Effetti d'influenza mentale"@.len() == 27);
    assert("Effetti di Charme e Compulsione"@.len() == 31);
    assert("Effetti di Demenza"@.len() == 18);
    assert("Effetti di Influenza Mentale"@.len() == 28);
    assert("Effetti di Morte"@.len() == 16);
    assert("Effetti di Paura"@.len() == 16);
    assert("Effetti di Sonno"@.len() == 16);
    assert("Effetti di charme"@.len() == 17);
    assert("Effetti di charme e compulsioni"@.len() == 31);
    assert("Effetti di confusione e follia"@.len() == 30);
    assert("Effetti di dolore"@.len() == 17);
    assert("Effetti di forza"@.len() == 16);
    assert("Effetti di influenza mentale"@.len() == 28);
    assert("Effetti di morte"@.len() == 16);
    assert("Effetti di morte (vedi sotto)"@.len() == 29);
    assert("Effetti di paura"@.len() == 16);
    assert("Effetti di sonno"@.len() == 16);
    assert("Effetti visivi"@.len() == 14);
    assert("Elettricità"@.len() == 11);
    assert("Elettricità (parziale)"@.len() == 22);
    assert("Energia Negativa"@.len() == 16);
    assert("Energia Positiva"@.len() == 16);
    assert("Esaurimento"@.len() == 11);
    assert("Esausto"@.len() == 7);
    assert("Fatica"@.len() == 6);
    assert("Fiancheggiamento"@.len() == 16);
    assert("Forza"@.len() == 5);
    assert("Frastornamento"@.len() == 14);
    assert("Frastornato"@.len() == 11);
    assert("Freddo"@.len() == 6);
    assert("Freddo (sé stesso e chi lo cavalca)"@.len() == 35);
    assert("Fuoco"@.len() == 5);
    assert("Fuoco Infernale"@.len() == 15);
    assert("Illusione"@.len() == 9);
    assert("Illusioni e qualsiasi attacco basato sulla vista"@.len() == 48);
    assert("Immunità al Freddo"@.len() == 18);
    assert("Immunità alla Magia"@.len() == 19);
    assert("Infermità"@.len() == 9);
    assert("Infermo"@.len() == 7);
    assert("Invecchiamento"@.len() == 14);
    assert("Magia"@.len() == 5);
    assert("Malattia"@.len() == 8);
    assert("Malattie"@.len() == 8);
    assert("Maledizioni"@.len() == 11);
    assert("Metamorfosi"@.len() == 11);
    assert("Nausea"@.len() == 6);
    assert("Nauseato"@.len() == 8);
    assert("Non Deformante"@.len() == 14);
    assert("Paralisi"@.len() == 8);
    assert("Paura"@.len() == 5);
    assert("Pietrificazione"@.len() == 15);
    assert("Sanguinamento"@.len() == 13);
    assert("Sanguinamento (solo Punti Ferita)"@.len() == 33);
    assert("Scosso"@.len() == 6);
    assert("Sguardo"@.len() == 7);
    assert("Sonno"@.len() == 5);
    assert("Sonoro"@.len() == 6);
    assert("Sordità"@.len() == 7);
    assert("Spaventato"@.len() == 10);
    assert("Stordimento"@.len() == 11);
    assert("Veleni"@.len() == 6);
    assert("Veleno"@.len() == 6);
    assert("Veleno Ingerito"@.len() == 15);
    assert("acido"@.len() == 5);
    assert("attacchi basati sulla vista ed effetti visivi"@.len() == 45);
    assert("attacchi con Sguardo"@.len() == 20);
    assert("attacchi con lo Sguardo"@.len() == 23);
    assert("attacchi con lo sguardo"@.len() == 23);
    assert("charme"@.len() == 6);
    assert("compulsione"@.len() == 11);
    assert("controllo mentale"@.len() == 17);
    assert("contundente"@.len() == 11);
    assert("da caduta e da schiacciamento"@.len() == 29);
    assert("danni contundenti"@.len() == 17);
    assert("danni contundenti e perforanti"@.len() == 30);
    assert("danni da arma"@.len() == 13);
    assert("danni da armi"@.len() == 13);
    assert("danni da precisione"@.len() == 19);
    assert("danni delle armi"@.len() == 16);
    assert("danni di precisione"@.len() == 19);
    assert("danni perforanti"@.len() == 16);
    assert("danni taglienti"@.len() == 15);
    assert("danni taglienti e perforanti"@.len() == 28);
    assert("danno da arma"@.len() == 13);
    assert("danno di precisione"@.len() == 19);
    assert("di influenza mentale e basati sullo Sguardo"@.len() == 43);
    assert("divinazione"@.len() == 11);
    assert("dolore"@.len() == 6);
    assert("effetti Barcollanti"@.len() == 19);
    assert("effetti basati sulla vista"@.len() == 26);
    assert("effetti che bersagliano uno specifico numero di creature"@.len() == 56);
    assert("effetti di Charme e Compulsione"@.len() == 31);
    assert("effetti di Metamorfosi"@.len() == 22);
    assert("effetti di Paura"@.len() == 16);
    assert("effetti di Paura ed influenza mentale"@.len() == 37);
    assert("effetti di Sguardo"@.len() == 18);
    assert("effetti di Sonno"@.len() == 16);
    assert("effetti di ammaliamento"@.len() == 23);
    assert("effetti di charme"@.len() == 17);
    assert("effetti di charme e compulsione"@.len() == 31);
    assert("effetti di charme e compulsioni"@.len() == 31);
    assert("effetti di compulsione"@.len() == 22);
    assert("effetti di confusione e demenza"@.len() == 31);
    assert("effetti di demenza"@.len() == 18);
    assert("effetti di influenza mentale"@.len() == 28);
    assert("effetti di influenza mentale e visivi"@.len() == 37);
    assert("effetti di luce"@.len() == 15);
    assert("effetti di maledizione"@.len() == 22);
    assert("effetti di maledizioni"@.len() == 22);
    assert("effetti di metamorfosi"@.len() == 22);
    assert("effetti di morte"@.len() == 16);
    assert("effetti di paura"@.len() == 16);
    assert("effetti di sguardo"@.len() == 18);
    assert("effetti di sonno"@.len() == 16);
    assert("effetti e illusioni visive"@.len() == 26);
    assert("effetti polimorfi"@.len() == 17);
    assert("effetti sensoriali"@.len() == 18);
    assert("effetti visivi"@.len() == 14);
    assert("effetti visivi e illusioni"@.len() == 26);
    assert("elettricità"@.len() == 11);
    assert("emozioni"@.len() == 8);
    assert("energia negativa"@.len() == 16);
    assert("ferite permanenti"@.len() == 17);
    assert("forza"@.len() == 5);
    assert("freddo"@.len() == 6);
    assert("fuoco"@.len() == 5);
    assert("illusioni"@.len() == 9);
    assert("illusioni visive"@.len() == 16);
    assert("invecchiamento"@.len() == 14);
    assert("malattia"@.len() == 8);
    assert("malattie"@.len() == 8);
    assert("maledizioni"@.len() == 11);
    assert("metamorfosi"@.len() == 11);
    assert("nausea"@.len() == 6);
    assert("paralisi"@.len() == 8);
    assert("paura"@.len() == 5);
    assert("pietrificazione"@.len() == 15);
    assert("possessione"@.len() == 11);
    assert("ruggine"@.len() == 7);
    assert("sanguinamento"@.len() == 13);
    assert("sonno"@.len() == 5);
    assert("sonoro"@.len() == 6);
    assert("sordità"@.len() == 7);
    assert("stordimento"@.len() == 11);
    assert("veleni"@.len() == 6);
    assert("veleno"@.len() == 6);
    assert("visivi ed illusori"@.len() == 18);
    assert("effetti di luce"@[0] != "Fuoco Infernale"@[0]);
    assert("effetti di luce"@ != "Fuoco Infernale"@);
    assert("effetti di luce"@[0] != "Pietrificazione"@[0]);
    assert("effetti di luce"@ != "Pietrificazione"@);
    assert("effetti di luce"@[0] != "pietrificazione"@[0]);
    assert("effetti di luce"@ != "pietrificazione"@);
    assert("effetti di luce"@[0] != "Veleno Ingerito"@[0]);
    assert("effetti di luce"@ != "Veleno Ingerito"@);
    assert("effetti di luce"@[0] != "danni taglienti"@[0]);
    assert("effetti di luce"@ != "danni taglienti"@);
}

proof fn lemma_read_immunity_necromancyeffects(s: Seq<char>)
    requires
        immunity_named(Immunity_Type::Immunity_NecromancyEffects, s),
    ensures
        spec_single_immunity(s) == Some(Immunity_Type::Immunity_NecromancyEffects),
{
    reveal_strlit("Abbagliamenti");
    reveal_strlit("Abbagliamento");
    reveal_strlit("Abbagliato");
    reveal_strlit("Accecato");
    reveal_strlit("Acido");
    reveal_strlit("Affaticamento");
    reveal_strlit("Affaticato");
    reveal_strlit("Ammaliamento");
    reveal_strlit("Armi Taglienti");
    reveal_strlit("Armi contundenti");
    reveal_strlit("Assorbimento del Fuoco");
    reveal_strlit("Attacchi Furtivi");
    reveal_strlit("Attacchi ai Fianchi");
    reveal_strlit("Attacchi basati sull'olfatto");
    reveal_strlit("Attacchi basati sulla vista");
    reveal_strlit("Attacchi basati sulla vista o sguardo");
    reveal_strlit("Attacchi con Sguardo");
    reveal_strlit("Attacchi con lo sguardo");
    reveal_strlit("Attacchi dipendenti dalla vista");
    reveal_strlit("Barcollante");
    reveal_strlit("Barcollare");
    reveal_strlit("Cecità");
    reveal_strlit("Charme");
    reveal_strlit("Colpi Critici");
    reveal_strlit("Colpi critici");
    reveal_strlit("Condizione Affaticato");
    reveal_strlit("Condizione Esausto");
    reveal_strlit("Confusione");
    reveal_strlit("Danni Non Letali");
    reveal_strlit("Danni contundenti");
    reveal_strlit("Danni da arma");
    reveal_strlit("Danni da armi");
    reveal_strlit("Danni dalle Armi");
    reveal_strlit("Danni perforanti e taglienti");
    reveal_strlit("Danno da Pressione");
    reveal_strlit("Danno da arma");
    reveal_strlit("Danno non letale");
    reveal_strlit("Demenza");
    reveal_strlit("Divinazione");
    reveal_strlit("Dolore");
    reveal_strlit("Effetti a completamento di incantesimo e ad attivazione di incantesimo");
    reveal_strlit("Effetti basati sulla vista");
    reveal_strlit("Effetti d'influenza mentale");
    reveal_strlit("Effetti di Charme e Compulsione");
    reveal_strlit("Effetti di Demenza");
    reveal_strlit("Effetti di Influenza Mentale");
    reveal_strlit("Effetti di Morte");
    reveal_strlit("Effetti di Paura");
    reveal_strlit("Effetti di Sonno");
    reveal_strlit("Effetti di charme");
    reveal_strlit("Effetti di charme e compulsioni");
    reveal_strlit("Effetti di confusione e follia");
    reveal_strlit("Effetti di dolore");
    reveal_strlit("Effetti di forza");
    reveal_strlit("Effetti di influenza mentale");
    reveal_strlit("Effetti di morte");
    reveal_strlit("Effetti di morte (vedi sotto)");
    reveal_strlit("Effetti di paura");
    reveal_strlit("Effetti di sonno");
    reveal_strlit("Effetti visivi");
    reveal_strlit("Elettricità");
    reveal_strlit("Elettricità (parziale)");
    reveal_strlit("Energia Negativa");
    reveal_strlit("Energia Positiva");
    reveal_strlit("Esaurimento");
    reveal_strlit("Esausto");
    reveal_strlit("Fatica");
    reveal_strlit("Fiancheggiamento");
    reveal_strlit("Forza");
    reveal_strlit("Frastornamento");
    reveal_strlit("Frastornato");
    reveal_strlit("Freddo");
    reveal_strlit("Freddo (sé stesso e chi lo cavalca)");
    reveal_strlit("Fuoco");
    reveal_strlit("Fuoco Infernale");
    reveal_strlit("Illusione");
    reveal_strlit("Illusioni e qualsiasi attacco basato sulla vista");
    reveal_strlit("Immunità al Freddo");
    reveal_strlit("Immunità alla Magia");
    reveal_strlit("Infermità");
    reveal_strlit("Infermo");
    reveal_strlit("Invecchiamento");
    reveal_strlit("Magia");
    reveal_strlit("Malattia");
    reveal_strlit("Malattie");
    reveal_strlit("Maledizioni");
    reveal_strlit("Metamorfosi");
    reveal_strlit("Nausea");
    reveal_strlit("Nauseato");
    reveal_strlit("Non Deformante");
    reveal_strlit("Paralisi");
    reveal_strlit("Paura");
    reveal_strlit("Pietrificazione");
    reveal_strlit("Sanguinamento");
    reveal_strlit("Sanguinamento (solo Punti Ferita)");
    reveal_strlit("Scosso");
    reveal_strlit("Sguardo");
    reveal_strlit("Sonno");
    reveal_strlit("Sonoro");
    reveal_strlit("Sordità");
    reveal_strlit("Spaventato");
    reveal_strlit("Stordimento");
    reveal_strlit("Veleni");
    reveal_strlit("Veleno");
    reveal_strlit("Veleno Ingerito");
    reveal_strlit("acido");
    reveal_strlit("attacchi basati sulla vista ed effetti visivi");
    reveal_strlit("attacchi con Sguardo");
    reveal_strlit("attacchi con lo Sguardo");
    reveal_strlit("attacchi con lo sguardo");
    reveal_strlit("charme");
    reveal_strlit("compulsione");
    reveal_strlit("controllo mentale");
    reveal_strlit("contundente");
    reveal_strlit("da caduta e da schiacciamento");
    reveal_strlit("danni contundenti");
    reveal_strlit("danni contundenti e perforanti");
    reveal_strlit("danni da arma");
    reveal_strlit("danni da armi");
    reveal_strlit("danni da precisione");
    reveal_strlit("danni delle armi");
    reveal_strlit("danni di precisione");
    reveal_strlit("danni perforanti");
    reveal_strlit("danni taglienti");
    reveal_strlit("danni taglienti e perforanti");
    reveal_strlit("danno da arma");
    reveal_strlit("danno di precisione");
    reveal_strlit("di influenza mentale e basati sullo Sguardo");
    reveal_strlit("divinazione");
    reveal_strlit("dolore");
    reveal_strlit("effetti Barcollanti");
    reveal_strlit("effetti basati sulla vista");
    reveal_strlit("effetti che bersagliano uno specifico numero di creature");
    reveal_strlit("effetti di Charme e Compulsione");
    reveal_strlit("effetti di Metamorfosi");
    reveal_strlit("effetti di Paura");
    reveal_strlit("effetti di Paura ed influenza mentale");
    reveal_strlit("effetti di Sguardo");
    reveal_strlit("effetti di Sonno");
    reveal_strlit("effetti di ammaliamento");
    reveal_strlit("effetti di charme");
    reveal_strlit("effetti di charme e compulsione");
    reveal_strlit("effetti di charme e compulsioni");
    reveal_strlit("effetti di compulsione");
    reveal_strlit("effetti di confusione e demenza");
    reveal_strlit("effetti di demenza");
    reveal_strlit("effetti di influenza mentale");
    reveal_strlit("effetti di influenza mentale e visivi");
    reveal_strlit("effetti di luce");
    reveal_strlit("effetti di maledizione");
    reveal_strlit("effetti di maledizioni");
    reveal_strlit("effetti di metamorfosi");
    reveal_strlit("effetti di morte");
    reveal_strlit("effetti di necromanzia");
    reveal_strlit("effetti di paura");
    reveal_strlit("effetti di sguardo");
    reveal_strlit("effetti di sonno");
    reveal_strlit("effetti e illusioni visive");
    reveal_strlit("effetti polimorfi");
    reveal_strlit("effetti sensoriali");
    reveal_strlit("effetti visivi");
    reveal_strlit("effetti visivi e illusioni");
    reveal_strlit("elettricità");
    reveal_strlit("emozioni");
    reveal_strlit("energia negativa");
    reveal_strlit("ferite permanenti");
    reveal_strlit("forza");
    reveal_strlit("freddo");
    reveal_strlit("fuoco");
    reveal_strlit("illusioni");
    reveal_strlit("illusioni visive");
    reveal_strlit("invecchiamento");
    reveal_strlit("malattia");
    reveal_strlit("malattie");
    reveal_strlit("maledizioni");
    reveal_strlit("metamorfosi");
    reveal_strlit("nausea");
    reveal_strlit("paralisi");
    reveal_strlit("paura");
    reveal_strlit("pietrificazione");
    reveal_strlit("possessione");
    reveal_strlit("ruggine");
    reveal_strlit("sanguinamento");
    reveal_strlit("sonno");
    reveal_strlit("sonoro");
    reveal_strlit("sordità");
    reveal_strlit("stordimento");
    reveal_strlit("veleni");
    reveal_strlit("veleno");
    reveal_strlit("visivi ed illusori");
    assert("Abbagliamenti"@.len() == 13);
    assert("Abbagliamento"@.len() == 13);
    assert("Abbagliato"@.len() == 10);
    assert("Accecato"@.len() == 8);
    assert("Acido"@.len() == 5);
    assert("Affaticamento"@.len() == 13);
    assert("Affaticato"@.len() == 10);
    assert("Ammaliamento"@.len() == 12);
    assert("Armi Taglienti"@.len() == 14);
    assert("Armi contundenti"@.len() == 16);
    assert("Assorbimento del Fuoco"@.len() == 22);
    assert("Attacchi Furtivi"@.len() == 16);
    assert("Attacchi ai Fianchi"@.len() == 19);
    assert("Attacchi basati sull'olfatto"@.len() == 28);
    assert("Attacchi basati sulla vista"@.len() == 27);
    assert("Attacchi basati sulla vista o sguardo"@.len() == 37);
    assert("Attacchi con Sguardo"@.len() == 20);
    assert("Attacchi con lo sguardo"@.len() == 23);
    assert("Attacchi dipendenti dalla vista"@.len() == 31);
    assert("Barcollante"@.len() == 11);
    assert("Barcollare"@.len() == 10);
    assert("Cecità"@.len() == 6);
    assert("Charme"@.len() == 6);
    assert("Colpi Critici"@.len() == 13);
    assert("Colpi critici"@.len() == 13);
    assert("Condizione Affaticato"@.len() == 21);
    assert("Condizione Esausto"@.len() == 18);
    assert("Confusione"@.len() == 10);
    assert("Danni Non Letali"@.len() == 16);
    assert("Danni contundenti"@.len() == 17);
    assert("Danni da arma"@.len() == 13);
    assert("Danni da armi"@.len() == 13);
    assert("Danni dalle Armi"@.len() == 16);
    assert("Danni perforanti e taglienti"@.len() == 28);
    assert("Danno da Pressione"@.len() == 18);
    assert("Danno da arma"@.len() == 13);
    assert("Danno non letale"@.len() == 16);
    assert("Demenza"@.len() == 7);
    assert("Divinazione"@.len() == 11);
    assert("Dolore"@.len() == 6);
    assert("Effetti a completamento di incantesimo e ad attivazione di incantesimo"@.len() == 70);
    assert("Effetti basati sulla vista"@.len() == 26);
    assert("Effetti d'influenza mentale"@.len() == 27);
    assert("Effetti di Charme e Compulsione"@.len() == 31);
    assert("Effetti di Demenza"@.len() == 18);
    assert("Effetti di Influenza Mentale"@.len() == 28);
    assert("Effetti di Morte"@.len() == 16);
    assert("Effetti di Paura"@.len() == 16);
    assert("Effetti di Sonno"@.len() == 16);
    assert("Effetti di charme"@.len() == 17);
    assert("Effetti di charme e compulsioni"@.len() == 31);
    assert("Effetti di confusione e follia"@.len() == 30);
    assert("Effetti di dolore"@.len() == 17);
    assert("Effetti di forza"@.len() == 16);
    assert("Effetti di influenza mentale"@.len() == 28);
    assert("Effetti di morte"@.len() == 16);
    assert("Effetti di morte (vedi sotto)"@.len() == 29);
    assert("Effetti di paura"@.len() == 16);
    assert("Effetti di sonno"@.len() == 16);
    assert("Effetti visivi"@.len() == 14);
    assert("Elettricità"@.len() == 11);
    assert("Elettricità (parziale)"@.len() == 22);
    assert("Energia Negativa"@.len() == 16);
    assert("Energia Positiva"@.len() == 16);
    assert("Esaurimento"@.len() == 11);
    assert("Esausto"@.len() == 7);
    assert("Fatica"@.len() == 6);
    assert("Fiancheggiamento"@.len() == 16);
    assert("Forza"@.len() == 5);
    assert("Frastornamento"@.len() == 14);
    assert("Frastornato"@.len() == 11);
    assert("Freddo"@.len() == 6);
    assert("Freddo (sé stesso e chi lo cavalca)"@.len() == 35);
    assert("Fuoco"@.len() == 5);
    assert("Fuoco Infernale"@.len() == 15);
    assert("Illusione"@.len() == 9);
    assert("Illusioni e qualsiasi attacco basato sulla vista"@.len() == 48);
    assert("Immunità al Freddo"@.len() == 18);
    assert("Immunità alla Magia"@.len() == 19);
    assert("Infermità"@.len() == 9);
    assert("Infermo"@.len() == 7);
    assert("Invecchiamento"@.len() == 14);
    assert("Magia"@.len() == 5);
    assert("Malattia"@.len() == 8);
    assert("Malattie"@.len() == 8);
    assert("Maledizioni"@.len() == 11);
    assert("Metamorfosi"@.len() == 11);
    assert("Nausea"@.len() == 6);
    assert("Nauseato"@.len() == 8);
    assert("Non Deformante"@.len() == 14);
    assert("Paralisi"@.len() == 8);
    assert("Paura"@.len() == 5);
    assert("Pietrificazione"@.len() == 15);
    assert("Sanguinamento"@.len() == 13);
    assert("Sanguinamento (solo Punti Ferita)"@.len() == 33);
    assert("Scosso"@.len() == 6);
    assert("Sguardo"@.len() == 7);
    assert("Sonno"@.len() == 5);
    assert("Sonoro"@.len() == 6);
    assert("Sordità"@.len() == 7);
    assert("Spaventato"@.len() == 10);
    assert("Stordimento"@.len() == 11);
    assert("Veleni"@.len() == 6);
    assert("Veleno"@.len() == 6);
    assert("Veleno Ingerito"@.len() == 15);
    assert("acido"@.len() == 5);
    assert("attacchi basati sulla vista ed effetti visivi"@.len() == 45);
    assert("attacchi con Sguardo"@.len() == 20);
    assert("attacchi con lo Sguardo"@.len() == 23);
    assert("attacchi con lo sguardo"@.len() == 23);
    assert("charme"@.len() == 6);
    assert("compulsione"@.len() == 11);
    assert("controllo mentale"@.len() == 17);
    assert("contundente"@.len() == 11);
    assert("da caduta e da schiacciamento"@.len() == 29);
    assert("danni contundenti"@.len() == 17);
    assert("danni contundenti e perforanti"@.len() == 30);
    assert("danni da arma"@.len() == 13);
    assert("danni da armi"@.len() == 13);
    assert("danni da precisione"@.len() == 19);
    assert("danni delle armi"@.len() == 16);
    assert("danni di precisione"@.len() == 19);
    assert("danni perforanti"@.len() == 16);
    assert("danni taglienti"@.len() == 15);
    assert("danni taglienti e perforanti"@.len() == 28);
    assert("danno da arma"@.len() == 13);
    assert("danno di precisione"@.len() == 19);
    assert("di influenza mentale e basati sullo Sguardo"@.len() == 43);
    assert("divinazione"@.len() == 11);
    assert("dolore"@.len() == 6);
    assert("effetti Barcollanti"@.len() == 19);
    assert("effetti basati sulla vista"@.len() == 26);
    assert("effetti che bersagliano uno specifico numero di creature"@.len() == 56);
    assert("effetti di Charme e Compulsione"@.len() == 31);
    assert("effetti di Metamorfosi"@.len() == 22);
    assert("effetti di Paura"@.len() == 16);
    assert("effetti di Paura ed influenza mentale"@.len() == 37);
    assert("effetti di Sguardo"@.len() == 18);
    assert("effetti di Sonno"@.len() == 16);
    assert("effetti di ammaliamento"@.len() == 23);
    assert("effetti di charme"@.len() == 17);
    assert("effetti di charme e compulsione"@.len() == 31);
    assert("effetti di charme e compulsioni"@.len() == 31);
    assert("effetti di compulsione"@.len() == 22);
    assert("effetti di confusione e demenza"@.len() == 31);
    assert("effetti di demenza"@.len() == 18);
    assert("effetti di influenza mentale"@.len() == 28);
    assert("effetti di influenza mentale e visivi"@.len() == 37);
    assert("effetti di luce"@.len() == 15);
    assert("effetti di maledizione"@.len() == 22);
    assert("effetti di maledizioni"@.len() == 22);
    assert("effetti di metamorfosi"@.len() == 22);
    assert("effetti di morte"@.len() == 16);
    assert("effetti di necromanzia"@.len() == 22);
    assert("effetti di paura"@.len() == 16);
    assert("effetti di sguardo"@.len() == 18);
    assert("effetti di sonno"@.len() == 16);
    assert("effetti e illusioni visive"@.len() == 26);
    assert("effetti polimorfi"@.len() == 17);
    assert("effetti sensoriali"@.len() == 18);
    assert("effetti visivi"@.len() == 14);
    assert("effetti visivi e illusioni"@.len() == 26);
    assert("elettricità"@.len() == 11);
    assert("emozioni"@.len() == 8);
    assert("energia negativa"@.len() == 16);
    assert("ferite permanenti"@.len() == 17);
    assert("forza"@.len() == 5);
    assert("freddo"@.len() == 6);
    assert("fuoco"@.len() == 5);
    assert("illusioni"@.len() == 9);
    assert("illusioni visive"@.len() == 16);
    assert("invecchiamento"@.len() == 14);
    assert("malattia"@.len() == 8);
    assert("malattie"@.len() == 8);
    assert("maledizioni"@.len() == 11);
    assert("metamorfosi"@.len() == 11);
    assert("nausea"@.len() == 6);
    assert("paralisi"@.len() == 8);
    assert("paura"@.len() == 5);
    assert("pietrificazione"@.len() == 15);
    assert("possessione"@.len() == 11);
    assert("ruggine"@.len() == 7);
    assert("sanguinamento"@.len() == 13);
    assert("sonno"@.len() == 5);
    assert("sonoro"@.len() == 6);
    assert("sordità"@.len() == 7);
    assert("stordimento"@.len() == 11);
    assert("veleni"@.len() == 6);
    assert("veleno"@.len() == 6);
    assert("visivi ed illusori"@.len() == 18);
    assert("effetti di necromanzia"@[0] != "Assorbimento del Fuoco"@[0]);
    assert("effetti di necromanzia"@ != "Assorbimento del Fuoco"@);
    assert("effetti di necromanzia"@[0] != "Elettricità (parziale)"@[0]);
    assert("effetti di necromanzia"@ != "Elettricità (parziale)"@);
    assert("effetti di necromanzia"@[11] != "effetti di maledizione"@[11]);
    assert("effetti di necromanzia"@ != "effetti di maledizione"@);
    assert("effetti di necromanzia"@[11] != "effetti di maledizioni"@[11]);
    assert("effetti di necromanzia"@ != "effetti di maledizioni"@);
    assert("effetti di necromanzia"@[11] != "effetti di compulsione"@[11]);
    assert("effetti di necromanzia"@ != "effetti di compulsione"@);
    assert("effetti di necromanzia"@[11] != "effetti di metamorfosi"@[11]);
    assert("effetti di necromanzia"@ != "effetti di metamorfosi"@);
    assert("effetti di necromanzia"@[11] != "effetti di Metamorfosi"@[11]);
    assert("effetti di necromanzia"@ != "effetti di Metamorfosi"@);
}

proof fn lemma_read_immunity_charmeandillusionspells(s: Seq<char>)
    requires
        immunity_named(Immunity_Type::Immunity_CharmeAndIllusionSpells, s),
    ensures
        spec_single_immunity(s) == Some(Immunity_Type::Immunity_CharmeAndIllusionSpells),
{
    reveal_strlit("Abbagliamenti");
    reveal_strlit("Abbagliamento");
    reveal_strlit("Abbagliato");
    reveal_strlit("Accecato");
    reveal_strlit("Acido");
    reveal_strlit("Affaticamento");
    reveal_strlit("Affaticato");
    reveal_strlit("Ammaliamento");
    reveal_strlit("Armi Taglienti");
    reveal_strlit("Armi contundenti");
    reveal_strlit("Assorbimento del Fuoco");
    reveal_strlit("Attacchi Furtivi");
    reveal_strlit("Attacchi ai Fianchi");
    reveal_strlit("Attacchi basati sull'olfatto");
    reveal_strlit("Attacchi basati sulla vista");
    reveal_strlit("Attacchi basati sulla vista o sguardo");
    reveal_strlit("Attacchi con Sguardo");
    reveal_strlit("Attacchi con lo sguardo");
    reveal_strlit("Attacchi dipendenti dalla vista");
    reveal_strlit("Barcollante");
    reveal_strlit("Barcollare");
    reveal_strlit("Cecità");
    reveal_strlit("Charme");
    reveal_strlit("Colpi Critici");
    reveal_strlit("Colpi critici");
    reveal_strlit("Condizione Affaticato");
    reveal_strlit("Condizione Esausto");
    reveal_strlit("Confusione");
    reveal_strlit("Danni Non Letali");
    reveal_strlit("Danni contundenti");
    reveal_strlit("Danni da arma");
    reveal_strlit("Danni da armi");
    reveal_strlit("Danni dalle Armi");
    reveal_strlit("Danni perforanti e taglienti");
    reveal_strlit("Danno da Pressione");
    reveal_strlit("Danno da arma");
    reveal_strlit("Danno non letale");
    reveal_strlit("Demenza");
    reveal_strlit("Divinazione");
    reveal_strlit("Dolore");
    reveal_strlit("Effetti a completamento di incantesimo e ad attivazione di incantesimo");
    reveal_strlit("Effetti basati sulla vista");
    reveal_strlit("Effetti d'influenza mentale");
    reveal_strlit("Effetti di Charme e Compulsione");
    reveal_strlit("Effetti di Demenza");
    reveal_strlit("Effetti di Influenza Mentale");
    reveal_strlit("Effetti di Morte");
    reveal_strlit("Effetti di Paura");
    reveal_strlit("Effetti di Sonno");
    reveal_strlit("Effetti di charme");
    reveal_strlit("Effetti di charme e compulsioni");
    reveal_strlit("Effetti di confusione e follia");
    reveal_strlit("Effetti di dolore");
    reveal_strlit("Effetti di forza");
    reveal_strlit("Effetti di influenza mentale");
    reveal_strlit("Effetti di morte");
    reveal_strlit("Effetti di morte (vedi sotto)");
    reveal_strlit("Effetti di paura");
    reveal_strlit("Effetti di sonno");
    reveal_strlit("Effetti visivi");
    reveal_strlit("Elettricità");
    reveal_strlit("Elettricità (parziale)");
    reveal_strlit("Energia Negativa");
    reveal_strlit("Energia Positiva");
    reveal_strlit("Esaurimento");
    reveal_strlit("Esausto");
    reveal_strlit("Fatica");
    reveal_strlit("Fiancheggiamento");
    reveal_strlit("Forza");
    reveal_strlit("Frastornamento");
    reveal_strlit("Frastornato");
    reveal_strlit("Freddo");
    reveal_strlit("Freddo (sé stesso e chi lo cavalca)");
    reveal_strlit("Fuoco");
    reveal_strlit("Fuoco Infernale");
    reveal_strlit("Illusione");
    reveal_strlit("Illusioni e qualsiasi attacco basato sulla vista");
    reveal_strlit("Immunità al Freddo");
    reveal_strlit("Immunità alla Magia");
    reveal_strlit("Incantesimi di Ammaliamento e di Illusione");
    reveal_strlit("Infermità");
    reveal_strlit("Infermo");
    reveal_strlit("Invecchiamento");
    reveal_strlit("Magia");
    reveal_strlit("Malattia");
    reveal_strlit("Malattie");
    reveal_strlit("Maledizioni");
    reveal_strlit("Metamorfosi");
    reveal_strlit("Nausea");
    reveal_strlit("Nauseato");
    reveal_strlit("Non Deformante");
    reveal_strlit("Paralisi");
    reveal_strlit("Paura");
    reveal_strlit("Pietrificazione");
    reveal_strlit("Sanguinamento");
    reveal_strlit("Sanguinamento (solo Punti Ferita)");
    reveal_strlit("Scosso");
    reveal_strlit("Sguardo");
    reveal_strlit("Sonno");
    reveal_strlit("Sonoro");
    reveal_strlit("Sordità");
    reveal_strlit("Spaventato");
    reveal_strlit("Stordimento");
    reveal_strlit("Veleni");
    reveal_strlit("Veleno");
    reveal_strlit("Veleno Ingerito");
    reveal_strlit("acido");
    reveal_strlit("attacchi basati sulla vista ed effetti visivi");
    reveal_strlit("attacchi con Sguardo");
    reveal_strlit("attacchi con lo Sguardo");
    reveal_strlit("attacchi con lo sguardo");
    reveal_strlit("charme");
    reveal_strlit("compulsione");
    reveal_strlit("controllo mentale");
    reveal_strlit("contundente");
    reveal_strlit("da caduta e da schiacciamento");
    reveal_strlit("danni contundenti");
    reveal_strlit("danni contundenti e perforanti");
    reveal_strlit("danni da arma");
    reveal_strlit("danni da armi");
    reveal_strlit("danni da precisione");
    reveal_strlit("danni delle armi");
    reveal_strlit("danni di precisione");
    reveal_strlit("danni perforanti");
    reveal_strlit("danni taglienti");
    reveal_strlit("danni taglienti e perforanti");
    reveal_strlit("danno da arma");
    reveal_strlit("danno di precisione");
    reveal_strlit("di influenza mentale e basati sullo Sguardo");
    reveal_strlit("divinazione");
    reveal_strlit("dolore");
    reveal_strlit("effetti Barcollanti");
    reveal_strlit("effetti basati sulla vista");
    reveal_strlit("effetti che bersagliano uno specifico numero di creature");
    reveal_strlit("effetti di Charme e Compulsione");
    reveal_strlit("effetti di Metamorfosi");
    reveal_strlit("effetti di Paura");
    reveal_strlit("effetti di Paura ed influenza mentale");
    reveal_strlit("effetti di Sguardo");
    reveal_strlit("effetti di Sonno");
    reveal_strlit("effetti di ammaliamento");
    reveal_strlit("effetti di charme");
    reveal_strlit("effetti di charme e compulsione");
    reveal_strlit("effetti di charme e compulsioni");
    reveal_strlit("effetti di compulsione");
    reveal_strlit("effetti di confusione e demenza");
    reveal_strlit("effetti di demenza");
    reveal_strlit("effetti di influenza mentale");
    reveal_strlit("effetti di influenza mentale e visivi");
    reveal_strlit("effetti di luce");
    reveal_strlit("effetti di maledizione");
    reveal_strlit("effetti di maledizioni");
    reveal_strlit("effetti di metamorfosi");
    reveal_strlit("effetti di morte");
    reveal_strlit("effetti di necromanzia");
    reveal_strlit("effetti di paura");
    reveal_strlit("effetti di sguardo");
    reveal_strlit("effetti di sonno");
    reveal_strlit("effetti e illusioni visive");
    reveal_strlit("effetti polimorfi");
    reveal_strlit("effetti sensoriali");
    reveal_strlit("effetti visivi");
    reveal_strlit("effetti visivi e illusioni");
    reveal_strlit("elettricità");
    reveal_strlit("emozioni");
    reveal_strlit("energia negativa");
    reveal_strlit("ferite permanenti");
    reveal_strlit("forza");
    reveal_strlit("freddo");
    reveal_strlit("fuoco");
    reveal_strlit("illusioni");
    reveal_strlit("illusioni visive");
    reveal_strlit("invecchiamento");
    reveal_strlit("malattia");
    reveal_strlit("malattie");
    reveal_strlit("maledizioni");
    reveal_strlit("metamorfosi");
    reveal_strlit("nausea");
    reveal_strlit("paralisi");
    reveal_strlit("paura");
    reveal_strlit("pietrificazione");
    reveal_strlit("possessione");
    reveal_strlit("ruggine");
    reveal_strlit("sanguinamento");
    reveal_strlit("sonno");
    reveal_strlit("sonoro");
    reveal_strlit("sordità");
    reveal_strlit("stordimento");
    reveal_strlit("veleni");
    reveal_strlit("veleno");
    reveal_strlit("visivi ed illusori");
    assert("Abbagliamenti"@.len() == 13);
    assert("Abbagliamento"@.len() == 13);
    assert("Abbagliato"@.len() == 10);
    assert("Accecato"@.len() == 8);
    assert("Acido"@.len() == 5);
    assert("Affaticamento"@.len() == 13);
    assert("Affaticato"@.len() == 10);
    assert("Ammaliamento"@.len() == 12);
    assert("Armi Taglienti"@.len() == 14);
    assert("Armi contundenti"@.len() == 16);
    assert("Assorbimento del Fuoco"@.len() == 22);
    assert("Attacchi Furtivi"@.len() == 16);
    assert("Attacchi ai Fianchi"@.len() == 19);
    assert("Attacchi basati sull'olfatto"@.len() == 28);
    assert("Attacchi basati sulla vista"@.len() == 27);
    assert("Attacchi basati sulla vista o sguardo"@.len() == 37);
    assert("Attacchi con Sguardo"@.len() == 20);
    assert("Attacchi con lo sguardo"@.len() == 23);
    assert("Attacchi dipendenti dalla vista"@.len() == 31);
    assert("Barcollante"@.len() == 11);
    assert("Barcollare"@.len() == 10);
    assert("Cecità"@.len() == 6);
    assert("Charme"@.len() == 6);
    assert("Colpi Critici"@.len() == 13);
    assert("Colpi critici"@.len() == 13);
    assert("Condizione Affaticato"@.len() == 21);
    assert("Condizione Esausto"@.len() == 18);
    assert("Confusione"@.len() == 10);
    assert("Danni Non Letali"@.len() == 16);
    assert("Danni contundenti"@.len() == 17);
    assert("Danni da arma"@.len() == 13);
    assert("Danni da armi"@.len() == 13);
    assert("Danni dalle Armi"@.len() == 16);
    assert("Danni perforanti e taglienti"@.len() == 28);
    assert("Danno da Pressione"@.len() == 18);
    assert("Danno da arma"@.len() == 13);
    assert("Danno non letale"@.len() == 16);
    assert("Demenza"@.len() == 7);
    assert("Divinazione"@.len() == 11);
    assert("Dolore"@.len() == 6);
    assert("Effetti a completamento di incantesimo e ad attivazione di incantesimo"@.len() == 70);
    assert("Effetti basati sulla vista"@.len() == 26);
    assert("Effetti d'influenza mentale"@.len() == 27);
    assert("Effetti di Charme e Compulsione"@.len() == 31);
    assert("Effetti di Demenza"@.len() == 18);
    assert("Effetti di Influenza Mentale"@.len() == 28);
    assert("Effetti di Morte"@.len() == 16);
    assert("Effetti di Paura"@.len() == 16);
    assert("Effetti di Sonno"@.len() == 16);
    assert("Effetti di charme"@.len() == 17);
    assert("Effetti di charme e compulsioni"@.len() == 31);
    assert("Effetti di confusione e follia"@.len() == 30);
    assert("Effetti di dolore"@.len() == 17);
    assert("Effetti di forza"@.len() == 16);
    assert("Effetti di influenza mentale"@.len() == 28);
    assert("Effetti di morte"@.len() == 16);
    assert("Effetti di morte (vedi sotto)"@.len() == 29);
    assert("Effetti di paura"@.len() == 16);
    assert("Effetti di sonno"@.len() == 16);
    assert("Effetti visivi"@.len() == 14);
    assert("Elettricità"@.len() == 11);
    assert("Elettricità (parziale)"@.len() == 22);
    assert("Energia Negativa"@.len() == 16);
    assert("Energia Positiva"@.len() == 16);
    assert("Esaurimento"@.len() == 11);
    assert("Esausto"@.len() == 7);
    assert("Fatica"@.len() == 6);
    assert("Fiancheggiamento"@.len() == 16);
    assert("Forza"@.len() == 5);
    assert("Frastornamento"@.len() == 14);
    assert("Frastornato"@.len() == 11);
    assert("Freddo"@.len() == 6);
    assert("Freddo (sé stesso e chi lo cavalca)"@.len() == 35);
    assert("Fuoco"@.len() == 5);
    assert("Fuoco Infernale"@.len() == 15);
    assert("Illusione"@.len() == 9);
    assert("Illusioni e qualsiasi attacco basato sulla vista"@.len() == 48);
    assert("Immunità al Freddo"@.len() == 18);
    assert("Immunità alla Magia"@.len() == 19);
    assert("Incantesimi di Ammaliamento e di Illusione"@.len() == 42);
    assert("Infermità"@.len() == 9);
    assert("Infermo"@.len() == 7);
    assert("Invecchiamento"@.len() == 14);
    assert("Magia"@.len() == 5);
    assert("Malattia"@.len() == 8);
    assert("Malattie"@.len() == 8);
    assert("Maledizioni"@.len() == 11);
    assert("Metamorfosi"@.len() == 11);
    assert("Nausea"@.len() == 6);
    assert("Nauseato"@.len() == 8);
    assert("Non Deformante"@.len() == 14);
    assert("Paralisi"@.len() == 8);
    assert("Paura"@.len() == 5);
    assert("Pietrificazione"@.len() == 15);
    assert("Sanguinamento"@.len() == 13);
    assert("Sanguinamento (solo Punti Ferita)"@.len() == 33);
    assert("Scosso"@.len() == 6);
    assert("Sguardo"@.len() == 7);
    assert("Sonno"@.len() == 5);
    assert("Sonoro"@.len() == 6);
    assert("Sordità"@.len() == 7);
    assert("Spaventato"@.len() == 10);
    assert("Stordimento"@.len() == 11);
    assert("Veleni"@.len() == 6);
    assert("Veleno"@.len() == 6);
    assert("Veleno Ingerito"@.len() == 15);
    assert("acido"@.len() == 5);
    assert("attacchi basati sulla vista ed effetti visivi"@.len() == 45);
    assert("attacchi con Sguardo"@.len() == 20);
    assert("attacchi con lo Sguardo"@.len() == 23);
    assert("attacchi con lo sguardo"@.len() == 23);
    assert("charme"@.len() == 6);
    assert("compulsione"@.len() == 11);
    assert("controllo mentale"@.len() == 17);
    assert("contundente"@.len() == 11);
    assert("da caduta e da schiacciamento"@.len() == 29);
    assert("danni contundenti"@.len() == 17);
    assert("danni contundenti e perforanti"@.len() == 30);
    assert("danni da arma"@.len() == 13);
    assert("danni da armi"@.len() == 13);
    assert("danni da precisione"@.len() == 19);
    assert("danni delle armi"@.len() == 16);
    assert("danni di precisione"@.len() == 19);
    assert("danni perforanti"@.len() == 16);
    assert("danni taglienti"@.len() == 15);
    assert("danni taglienti e perforanti"@.len() == 28);
    assert("danno da arma"@.len() == 13);
    assert("danno di precisione"@.len() == 19);
    assert("di influenza mentale e basati sullo Sguardo"@.len() == 43);
    assert("divinazione"@.len() == 11);
    assert("dolore"@.len() == 6);
    assert("effetti Barcollanti"@.len() == 19);
    assert("effetti basati sulla vista"@.len() == 26);
    assert("effetti che bersagliano uno specifico numero di creature"@.len() == 56);
    assert("effetti di Charme e Compulsione"@.len() == 31);
    assert("effetti di Metamorfosi"@.len() == 22);
    assert("effetti di Paura"@.len() == 16);
    assert("effetti di Paura ed influenza mentale"@.len() == 37);
    assert("effetti di Sguardo"@.len() == 18);
    assert("effetti di Sonno"@.len() == 16);
    assert("effetti di ammaliamento"@.len() == 23);
    assert("effetti di charme"@.len() == 17);
    assert("effetti di charme e compulsione"@.len() == 31);
    assert("effetti di charme e compulsioni"@.len() == 31);
    assert("effetti di compulsione"@.len() == 22);
    assert("effetti di confusione e demenza"@.len() == 31);
    assert("effetti di demenza"@.len() == 18);
    assert("effetti di influenza mentale"@.len() == 28);
    assert("effetti di influenza mentale e visivi"@.len() == 37);
    assert("effetti di luce"@.len() == 15);
    assert("effetti di maledizione"@.len() == 22);
    assert("effetti di maledizioni"@.len() == 22);
    assert("effetti di metamorfosi"@.len() == 22);
    assert("effetti di morte"@.len() == 16);
    assert("effetti di necromanzia"@.len() == 22);
    assert("effetti di paura"@.len() == 16);
    assert("effetti di sguardo"@.len() == 18);
    assert("effetti di sonno"@.len() == 16);
    assert("effetti e illusioni visive"@.len() == 26);
    assert("effetti polimorfi"@.len() == 17);
    assert("effetti sensoriali"@.len() == 18);
    assert("effetti visivi"@.len() == 14);
    assert("effetti visivi e illusioni"@.len() == 26);
    assert("elettricità"@.len() == 11);
    assert("emozioni"@.len() == 8);
    assert("energia negativa"@.len() == 16);
    assert("ferite permanenti"@.len() == 17);
    assert("forza"@.len() == 5);
    assert("freddo"@.len() == 6);
    assert("fuoco"@.len() == 5);
    assert("illusioni"@.len() == 9);
    assert("illusioni visive"@.len() == 16);
    assert("invecchiamento"@.len() == 14);
    assert("malattia"@.len() == 8);
    assert("malattie"@.len() == 8);
    assert("maledizioni"@.len() == 11);
    assert("metamorfosi"@.len() == 11);
    assert("nausea"@.len() == 6);
    assert("paralisi"@.len() == 8);
    assert("paura"@.len() == 5);
    assert("pietrificazione"@.len() == 15);
    assert("possessione"@.len() == 11);
    assert("ruggine"@.len() == 7);
    assert("sanguinamento"@.len() == 13);
    assert("sonno"@.len() == 5);
    assert("sonoro"@.len() == 6);
    assert("sordità"@.len() == 7);
    assert("stordimento"@.len() == 11);
    assert("veleni"@.len() == 6);
    assert("veleno"@.len() == 6);
    assert("visivi ed illusori"@.len() == 18);

}

proof fn lemma_read_immunity_recallspells(s: Seq<char>)
    requires
        immunity_named(Immunity_Type::Immunity_RecallSpells, s),
    ensures
        spec_single_immunity(s) == Some(Immunity_Type::Immunity_RecallSpells),
{
    reveal_strlit("Abbagliamenti");
    reveal_strlit("Abbagliamento");
    reveal_strlit("Abbagliato");
    reveal_strlit("Accecato");
    reveal_strlit("Acido");
    reveal_strlit("Affaticamento");
    reveal_strlit("Affaticato");
    reveal_strlit("Ammaliamento");
    reveal_strlit("Armi Taglienti");
    reveal_strlit("Armi contundenti");
    reveal_strlit("Assorbimento del Fuoco");
    reveal_strlit("Attacchi Furtivi");
    reveal_strlit("Attacchi ai Fianchi");
    reveal_strlit("Attacchi basati sull'olfatto");
    reveal_strlit("Attacchi basati sulla vista");
    reveal_strlit("Attacchi basati sulla vista o sguardo");
    reveal_strlit("Attacchi con Sguardo");
    reveal_strlit("Attacchi con lo sguardo");
    reveal_strlit("Attacchi dipendenti dalla vista");
    reveal_strlit("Barcollante");
    reveal_strlit("Barcollare");
    reveal_strlit("Cecità");
    reveal_strlit("Charme");
    reveal_strlit("Colpi Critici");
    reveal_strlit("Colpi critici");
    reveal_strlit("Condizione Affaticato");
    reveal_strlit("Condizione Esausto");
    reveal_strlit("Confusione");
    reveal_strlit("Congedo");
    reveal_strlit("Danni Non Letali");
    reveal_strlit("Danni contundenti");
    reveal_strlit("Danni da arma");
    reveal_strlit("Danni da armi");
    reveal_strlit("Danni dalle Armi");
    reveal_strlit("Danni perforanti e taglienti");
    reveal_strlit("Danno da Pressione");
    reveal_strlit("Danno da arma");
    reveal_strlit("Danno non letale");
    reveal_strlit("Demenza");
    reveal_strlit("Divinazione");
    reveal_strlit("Dolore");
    reveal_strlit("Effetti a completamento di incantesimo e ad attivazione di incantesimo");
    reveal_strlit("Effetti basati sulla vista");
    reveal_strlit("Effetti d'influenza mentale");
    reveal_strlit("Effetti di Charme e Compulsione");
    reveal_strlit("Effetti di Demenza");
    reveal_strlit("Effetti di Influenza Mentale");
    reveal_strlit("Effetti di Morte");
    reveal_strlit("Effetti di Paura");
    reveal_strlit("Effetti di Sonno");
    reveal_strlit("Effetti di charme");
    reveal_strlit("Effetti di charme e compulsioni");
    reveal_strlit("Effetti di confusione e follia");
    reveal_strlit("Effetti di dolore");
    reveal_strlit("Effetti di forza");
    reveal_strlit("Effetti di influenza mentale");
    reveal_strlit("Effetti di morte");
    reveal_strlit("Effetti di morte (vedi sotto)");
    reveal_strlit("Effetti di paura");
    reveal_strlit("Effetti di sonno");
    reveal_strlit("Effetti visivi");
    reveal_strlit("Elettricità");
    reveal_strlit("Elettricità (parziale)");
    reveal_strlit("Energia Negativa");
    reveal_strlit("Energia Positiva");
    reveal_strlit("Esaurimento");
    reveal_strlit("Esausto");
    reveal_strlit("Fatica");
    reveal_strlit("Fiancheggiamento");
    reveal_strlit("Forza");
    reveal_strlit("Frastornamento");
    reveal_strlit("Frastornato");
    reveal_strlit("Freddo");
    reveal_strlit("Freddo (sé stesso e chi lo cavalca)");
    reveal_strlit("Fuoco");
    reveal_strlit("Fuoco Infernale");
    reveal_strlit("Illusione");
    reveal_strlit("Illusioni e qualsiasi attacco basato sulla vista");
    reveal_strlit("Immunità al Freddo");
    reveal_strlit("Immunità all'Esilio");
    reveal_strlit("Immunità alla Magia");
    reveal_strlit("Incantesimi di Ammaliamento e di Illusione");
    reveal_strlit("Infermità");
    reveal_strlit("Infermo");
    reveal_strlit("Invecchiamento");
    reveal_strlit("Magia");
    reveal_strlit("Malattia");
    reveal_strlit("Malattie");
    reveal_strlit("Maledizioni");
    reveal_strlit("Metamorfosi");
    reveal_strlit("Nausea");
    reveal_strlit("Nauseato");
    reveal_strlit("Non Deformante");
    reveal_strlit("Paralisi");
    reveal_strlit("Paura");
    reveal_strlit("Pietrificazione");
    reveal_strlit("Richiamo");
    reveal_strlit("Sanguinamento");
    reveal_strlit("Sanguinamento (solo Punti Ferita)");
    reveal_strlit("Scosso");
    reveal_strlit("Sguardo");
    reveal_strlit("Sonno");
    reveal_strlit("Sonoro");
    reveal_strlit("Sordità");
    reveal_strlit("Spaventato");
    reveal_strlit("Stordimento");
    reveal_strlit("Veleni");
    reveal_strlit("Veleno");
    reveal_strlit("Veleno Ingerito");
    reveal_strlit("acido");
    reveal_strlit("attacchi basati sulla vista ed effetti visivi");
    reveal_strlit("attacchi con Sguardo");
    reveal_strlit("attacchi con lo Sguardo");
    reveal_strlit("attacchi con lo sguardo");
    reveal_strlit("charme");
    reveal_strlit("compulsione");
    reveal_strlit("controllo mentale");
    reveal_strlit("contundente");
    reveal_strlit("da caduta e da schiacciamento");
    reveal_strlit("danni contundenti");
    reveal_strlit("danni contundenti e perforanti");
    reveal_strlit("danni da arma");
    reveal_strlit("danni da armi");
    reveal_strlit("danni da precisione");
    reveal_strlit("danni delle armi");
    reveal_strlit("danni di precisione");
    reveal_strlit("danni perforanti");
    reveal_strlit("danni taglienti");
    reveal_strlit("danni taglienti e perforanti");
    reveal_strlit("danno da arma");
    reveal_strlit("danno di precisione");
    reveal_strlit("di influenza mentale e basati sullo Sguardo");
    reveal_strlit("divinazione");
    reveal_strlit("dolore");
    reveal_strlit("effetti Barcollanti");
    reveal_strlit("effetti basati sulla vista");
    reveal_strlit("effetti che bersagliano uno specifico numero di creature");
    reveal_strlit("effetti di Charme e Compulsione");
    reveal_strlit("effetti di Metamorfosi");
    reveal_strlit("effetti di Paura");
    reveal_strlit("effetti di Paura ed influenza mentale");
    reveal_strlit("effetti di Sguardo");
    reveal_strlit("effetti di Sonno");
    reveal_strlit("effetti di ammaliamento");
    reveal_strlit("effetti di charme");
    reveal_strlit("effetti di charme e compulsione");
    reveal_strlit("effetti di charme e compulsioni");
    reveal_strlit("effetti di compulsione");
    reveal_strlit("effetti di confusione e demenza");
    reveal_strlit("effetti di demenza");
    reveal_strlit("effetti di influenza mentale");
    reveal_strlit("effetti di influenza mentale e visivi");
    reveal_strlit("effetti di luce");
    reveal_strlit("effetti di maledizione");
    reveal_strlit("effetti di maledizioni");
    reveal_strlit("effetti di metamorfosi");
    reveal_strlit("effetti di morte");
    reveal_strlit("effetti di necromanzia");
    reveal_strlit("effetti di paura");
    reveal_strlit("effetti di sguardo");
    reveal_strlit("effetti di sonno");
    reveal_strlit("effetti e illusioni visive");
    reveal_strlit("effetti polimorfi");
    reveal_strlit("effetti sensoriali");
    reveal_strlit("effetti visivi");
    reveal_strlit("effetti visivi e illusioni");
    reveal_strlit("elettricità");
    reveal_strlit("emozioni");
    reveal_strlit("energia negativa");
    reveal_strlit("ferite permanenti");
    reveal_strlit("forza");
    reveal_strlit("freddo");
    reveal_strlit("fuoco");
    reveal_strlit("illusioni");
    reveal_strlit("illusioni visive");
    reveal_strlit("invecchiamento");
    reveal_strlit("malattia");
    reveal_strlit("malattie");
    reveal_strlit("maledizioni");
    reveal_strlit("metamorfosi");
    reveal_strlit("nausea");
    reveal_strlit("paralisi");
    reveal_strlit("paura");
    reveal_strlit("pietrificazione");
    reveal_strlit("possessione");
    reveal_strlit("ruggine");
    reveal_strlit("sanguinamento");
    reveal_strlit("sonno");
    reveal_strlit("sonoro");
    reveal_strlit("sordità");
    reveal_strlit("stordimento");
    reveal_strlit("veleni");
    reveal_strlit("veleno");
    reveal_strlit("visivi ed illusori");
    assert("Abbagliamenti"@.len() == 13);
    assert("Abbagliamento"@.len() == 13);
    assert("Abbagliato"@.len() == 10);
    assert("Accecato"@.len() == 8);
    assert("Acido"@.len() == 5);
    assert("Affaticamento"@.len() == 13);
    assert("Affaticato"@.len() == 10);
    assert("Ammaliamento"@.len() == 12);
    assert("Armi Taglienti"@.len() == 14);
    assert("Armi contundenti"@.len() == 16);
    assert("Assorbimento del Fuoco"@.len() == 22);
    assert("Attacchi Furtivi"@.len() == 16);
    assert("Attacchi ai Fianchi"@.len() == 19);
    assert("Attacchi basati sull'olfatto"@.len() == 28);
    assert("Attacchi basati sulla vista"@.len() == 27);
    assert("Attacchi basati sulla vista o sguardo"@.len() == 37);
    assert("Attacchi con Sguardo"@.len() == 20);
    assert("Attacchi con lo sguardo"@.len() == 23);
    assert("Attacchi dipendenti dalla vista"@.len() == 31);
    assert("Barcollante"@.len() == 11);
    assert("Barcollare"@.len() == 10);
    assert("Cecità"@.len() == 6);
    assert("Charme"@.len() == 6);
    assert("Colpi Critici"@.len() == 13);
    assert("Colpi critici"@.len() == 13);
    assert("Condizione Affaticato"@.len() == 21);
    assert("Condizione Esausto"@.len() == 18);
    assert("Confusione"@.len() == 10);
    assert("Congedo"@.len() == 7);
    assert("Danni Non Letali"@.len() == 16);
    assert("Danni contundenti"@.len() == 17);
    assert("Danni da arma"@.len() == 13);
    assert("Danni da armi"@.len() == 13);
    assert("Danni dalle Armi"@.len() == 16);
    assert("Danni perforanti e taglienti"@.len() == 28);
    assert("Danno da Pressione"@.len() == 18);
    assert("Danno da arma"@.len() == 13);
    assert("Danno non letale"@.len() == 16);
    assert("Demenza"@.len() == 7);
    assert("Divinazione"@.len() == 11);
    assert("Dolore"@.len() == 6);
    assert("Effetti a completamento di incantesimo e ad attivazione di incantesimo"@.len() == 70);
    assert("Effetti basati sulla vista"@.len() == 26);
    assert("Effetti d'influenza mentale"@.len() == 27);
    assert("Effetti di Charme e Compulsione"@.len() == 31);
    assert("Effetti di Demenza"@.len() == 18);
    assert("Effetti di Influenza Mentale"@.len() == 28);
    assert("Effetti di Morte"@.len() == 16);
    assert("Effetti di Paura"@.len() == 16);
    assert("Effetti di Sonno"@.len() == 16);
    assert("Effetti di charme"@.len() == 17);
    assert("Effetti di charme e compulsioni"@.len() == 31);
    assert("Effetti di confusione e follia"@.len() == 30);
    assert("Effetti di dolore"@.len() == 17);
    assert("Effetti di forza"@.len() == 16);
    assert("Effetti di influenza mentale"@.len() == 28);
    assert("Effetti di morte"@.len() == 16);
    assert("Effetti di morte (vedi sotto)"@.len() == 29);
    assert("Effetti di paura"@.len() == 16);
    assert("Effetti di sonno"@.len() == 16);
    assert("Effetti visivi"@.len() == 14);
    assert("Elettricità"@.len() == 11);
    assert("Elettricità (parziale)"@.len() == 22);
    assert("Energia Negativa"@.len() == 16);
    assert("Energia Positiva"@.len() == 16);
    assert("Esaurimento"@.len() == 11);
    assert("Esausto"@.len() == 7);
    assert("Fatica"@.len() == 6);
    assert("Fiancheggiamento"@.len() == 16);
    assert("Forza"@.len() == 5);
    assert("Frastornamento"@.len() == 14);
    assert("Frastornato"@.len() == 11);
    assert("Freddo"@.len() == 6);
    assert("Freddo (sé stesso e chi lo cavalca)"@.len() == 35);
    assert("Fuoco"@.len() == 5);
    assert("Fuoco Infernale"@.len() == 15);
    assert("Illusione"@.len() == 9);
    assert("Illusioni e qualsiasi attacco basato sulla vista"@.len() == 48);
    assert("Immunità al Freddo"@.len() == 18);
    assert("Immunità all'Esilio"@.len() == 19);
    assert("Immunità alla Magia"@.len() == 19);
    assert("Incantesimi di Ammaliamento e di Illusione"@.len() == 42);
    assert("Infermità"@.len() == 9);
    assert("Infermo"@.len() == 7);
    assert("Invecchiamento"@.len() == 14);
    assert("Magia"@.len() == 5);
    assert("Malattia"@.len() == 8);
    assert("Malattie"@.len() == 8);
    assert("Maledizioni"@.len() == 11);
    assert("Metamorfosi"@.len() == 11);
    assert("Nausea"@.len() == 6);
    assert("Nauseato"@.len() == 8);
    assert("Non Deformante"@.len() == 14);
    assert("Paralisi"@.len() == 8);
    assert("Paura"@.len() == 5);
    assert("Pietrificazione"@.len() == 15);
    assert("Richiamo"@.len() == 8);
    assert("Sanguinamento"@.len() == 13);
    assert("Sanguinamento (solo Punti Ferita)"@.len() == 33);
    assert("Scosso"@.len() == 6);
    assert("Sguardo"@.len() == 7);
    assert("Sonno"@.len() == 5);
    assert("Sonoro"@.len() == 6);
    assert("Sordità"@.len() == 7);
    assert("Spaventato"@.len() == 10);
    assert("Stordimento"@.len() == 11);
    assert("Veleni"@.len() == 6);
    assert("Veleno"@.len() == 6);
    assert("Veleno Ingerito"@.len() == 15);
    assert("acido"@.len() == 5);
    assert("attacchi basati sulla vista ed effetti visivi"@.len() == 45);
    assert("attacchi con Sguardo"@.len() == 20);
    assert("attacchi con lo Sguardo"@.len() == 23);
    assert("attacchi con lo sguardo"@.len() == 23);
    assert("charme"@.len() == 6);
    assert("compulsione"@.len() == 11);
    assert("controllo mentale"@.len() == 17);
    assert("contundente"@.len() == 11);
    assert("da caduta e da schiacciamento"@.len() == 29);
    assert("danni contundenti"@.len() == 17);
    assert("danni contundenti e perforanti"@.len() == 30);
    assert("danni da arma"@.len() == 13);
    assert("danni da armi"@.len() == 13);
    assert("danni da precisione"@.len() == 19);
    assert("danni delle armi"@.len() == 16);
    assert("danni di precisione"@.len() == 19);
    assert("danni perforanti"@.len() == 16);
    assert("danni taglienti"@.len() == 15);
    assert("danni taglienti e perforanti"@.len() == 28);
    assert("danno da arma"@.len() == 13);
    assert("danno di precisione"@.len() == 19);
    assert("di influenza mentale e basati sullo Sguardo"@.len() == 43);
    assert("divinazione"@.len() == 11);
    assert("dolore"@.len() == 6);
    assert("effetti Barcollanti"@.len() == 19);
    assert("effetti basati sulla vista"@.len() == 26);
    assert("effetti che bersagliano uno specifico numero di creature"@.len() == 56);
    assert("effetti di Charme e Compulsione"@.len() == 31);
    assert("effetti di Metamorfosi"@.len() == 22);
    assert("effetti di Paura"@.len() == 16);
    assert("effetti di Paura ed influenza mentale"@.len() == 37);
    assert("effetti di Sguardo"@.len() == 18);
    assert("effetti di Sonno"@.len() == 16);
    assert("effetti di ammaliamento"@.len() == 23);
    assert("effetti di charme"@.len() == 17);
    assert("effetti di charme e compulsione"@.len() == 31);
    assert("effetti di charme e compulsioni"@.len() == 31);
    assert("effetti di compulsione"@.len() == 22);
    assert("effetti di confusione e demenza"@.len() == 31);
    assert("effetti di demenza"@.len() == 18);
    assert("effetti di influenza mentale"@.len() == 28);
    assert("effetti di influenza mentale e visivi"@.len() == 37);
    assert("effetti di luce"@.len() == 15);
    assert("effetti di maledizione"@.len() == 22);
    assert("effetti di maledizioni"@.len() == 22);
    assert("effetti di metamorfosi"@.len() == 22);
    assert("effetti di morte"@.len() == 16);
    assert("effetti di necromanzia"@.len() == 22);
    assert("effetti di paura"@.len() == 16);
    assert("effetti di sguardo"@.len() == 18);
    assert("effetti di sonno"@.len() == 16);
    assert("effetti e illusioni visive"@.len() == 26);
    assert("effetti polimorfi"@.len() == 17);
    assert("effetti sensoriali"@.len() == 18);
    assert("effetti visivi"@.len() == 14);
    assert("effetti visivi e illusioni"@.len() == 26);
    assert("elettricità"@.len() == 11);
    assert("emozioni"@.len() == 8);
    assert("energia negativa"@.len() == 16);
    assert("ferite permanenti"@.len() == 17);
    assert("forza"@.len() == 5);
    assert("freddo"@.len() == 6);
    assert("fuoco"@.len() == 5);
    assert("illusioni"@.len() == 9);
    assert("illusioni visive"@.len() == 16);
    assert("invecchiamento"@.len() == 14);
    assert("malattia"@.len() == 8);
    assert("malattie"@.len() == 8);
    assert("maledizioni"@.len() == 11);
    assert("metamorfosi"@.len() == 11);
    assert("nausea"@.len() == 6);
    assert("paralisi"@.len() == 8);
    assert("paura"@.len() == 5);
    assert("pietrificazione"@.len() == 15);
    assert("possessione"@.len() == 11);
    assert("ruggine"@.len() == 7);
    assert("sanguinamento"@.len() == 13);
    assert("sonno"@.len() == 5);
    assert("sonoro"@.len() == 6);
    assert("sordità"@.len() == 7);
    assert("stordimento"@.len() == 11);
    assert("veleni"@.len() == 6);
    assert("veleno"@.len() == 6);
    assert("visivi ed illusori"@.len() == 18);
    assert("Richiamo"@[0] != "Paralisi"@[0]);
    assert("Richiamo"@ != "Paralisi"@);
    assert("Richiamo"@[0] != "paralisi"@[0]);
    assert("Richiamo"@ != "paralisi"@);
    assert("Richiamo"@[0] != "Nauseato"@[0]);
    assert("Richiamo"@ != "Nauseato"@);
    assert("Richiamo"@[0] != "Accecato"@[0]);
    assert("Richiamo"@ != "Accecato"@);
    assert("Richiamo"@[0] != "Malattie"@[0]);
    assert("Richiamo"@ != "Malattie"@);
    assert("Richiamo"@[0] != "Malattia"@[0]);
    assert("Richiamo"@ != "Malattia"@);
    assert("Richiamo"@[0] != "malattie"@[0]);
    assert("Richiamo"@ != "malattie"@);
    assert("Richiamo"@[0] != "malattia"@[0]);
    assert("Richiamo"@ != "malattia"@);
    assert("Richiamo"@[0] != "emozioni"@[0]);
    assert("Richiamo"@ != "emozioni"@);
    assert("Congedo"@[0] != "Esausto"@[0]);
    assert("Congedo"@ != "Esausto"@);
    assert("Congedo"@[0] != "Infermo"@[0]);
    assert("Congedo"@ != "Infermo"@);
    assert("Congedo"@[0] != "Sordità"@[0]);
    assert("Congedo"@ != "Sordità"@);
    assert("Congedo"@[0] != "sordità"@[0]);
    assert("Congedo"@ != "sordità"@);
    assert("Congedo"@[0] != "Sguardo"@[0]);
    assert("Congedo"@ != "Sguardo"@);
    assert("Congedo"@[0] != "ruggine"@[0]);
    assert("Congedo"@ != "ruggine"@);
    assert("Congedo"@[0] != "Demenza"@[0]);
    assert("Congedo"@ != "Demenza"@);
    assert("Immunità all'Esilio"@[0] != "effetti Barcollanti"@[0]);
    assert("Immunità all'Esilio"@ != "effetti Barcollanti"@);
    assert("Immunità all'Esilio"@[12] != "Immunità alla Magia"@[12]);
    assert("Immunità all'Esilio"@ != "Immunità alla Magia"@);
    assert("Immunità all'Esilio"@[0] != "danno di precisione"@[0]);
    assert("Immunità all'Esilio"@ != "danno di precisione"@);
    assert("Immunità all'Esilio"@[0] != "danni da precisione"@[0]);
    assert("Immunità all'Esilio"@ != "danni da precisione"@);
    assert("Immunità all'Esilio"@[0] != "danni di precisione"@[0]);
    assert("Immunità all'Esilio"@ != "danni di precisione"@);
    assert("Immunità all'Esilio"@[0] != "Attacchi ai Fianchi"@[0]);
    assert("Immunità all'Esilio"@ != "Attacchi ai Fianchi"@);
}

proof fn lemma_read_immunity_detectthoughtspell(s: Seq<char>)
    requires
        immunity_named(Immunity_Type::Immunity_DetectThoughtSpell, s),
    ensures
        spec_single_immunity(s) == Some(Immunity_Type::Immunity_DetectThoughtSpell),
{
    reveal_strlit("Abbagliamenti");
    reveal_strlit("Abbagliamento");
    reveal_strlit("Abbagliato");
    reveal_strlit("Accecato");
    reveal_strlit("Acido");
    reveal_strlit("Affaticamento");
    reveal_strlit("Affaticato");
    reveal_strlit("Ammaliamento");
    reveal_strlit("Armi Taglienti");
    reveal_strlit("Armi contundenti");
    reveal_strlit("Assorbimento del Fuoco");
    reveal_strlit("Attacchi Furtivi");
    reveal_strlit("Attacchi ai Fianchi");
    reveal_strlit("Attacchi basati sull'olfatto");
    reveal_strlit("Attacchi basati sulla vista");
    reveal_strlit("Attacchi basati sulla vista o sguardo");
    reveal_strlit("Attacchi con Sguardo");
    reveal_strlit("Attacchi con lo sguardo");
    reveal_strlit("Attacchi dipendenti dalla vista");
    reveal_strlit("Barcollante");
    reveal_strlit("Barcollare");
    reveal_strlit("Cecità");
    reveal_strlit("Charme");
    reveal_strlit("Colpi Critici");
    reveal_strlit("Colpi critici");
    reveal_strlit("Condizione Affaticato");
    reveal_strlit("Condizione Esausto");
    reveal_strlit("Confusione");
    reveal_strlit("Congedo");
    reveal_strlit("Danni Non Letali");
    reveal_strlit("Danni contundenti");
    reveal_strlit("Danni da arma");
    reveal_strlit("Danni da armi");
    reveal_strlit("Danni dalle Armi");
    reveal_strlit("Danni perforanti e taglienti");
    reveal_strlit("Danno da Pressione");
    reveal_strlit("Danno da arma");
    reveal_strlit("Danno non letale");
    reveal_strlit("Demenza");
    reveal_strlit("Divinazione");
    reveal_strlit("Dolore");
    reveal_strlit("Effetti a completamento di incantesimo e ad attivazione di incantesimo");
    reveal_strlit("Effetti basati sulla vista");
    reveal_strlit("Effetti d'influenza mentale");
    reveal_strlit("Effetti di Charme e Compulsione");
    reveal_strlit("Effetti di Demenza");
    reveal_strlit("Effetti di Influenza Mentale");
    reveal_strlit("Effetti di Morte");
    reveal_strlit("Effetti di Paura");
    reveal_strlit("Effetti di Sonno");
    reveal_strlit("Effetti di charme");
    reveal_strlit("Effetti di charme e compulsioni");
    reveal_strlit("Effetti di confusione e follia");
    reveal_strlit("Effetti di dolore");
    reveal_strlit("Effetti di forza");
    reveal_strlit("Effetti di influenza mentale");
    reveal_strlit("Effetti di morte");
    reveal_strlit("Effetti di morte (vedi sotto)");
    reveal_strlit("Effetti di paura");
    reveal_strlit("Effetti di sonno");
    reveal_strlit("Effetti visivi");
    reveal_strlit("Elettricità");
    reveal_strlit("Elettricità (parziale)");
    reveal_strlit("Energia Negativa");
    reveal_strlit("Energia Positiva");
    reveal_strlit("Esaurimento");
    reveal_strlit("Esausto");
    reveal_strlit("Fatica");
    reveal_strlit("Fiancheggiamento");
    reveal_strlit("Forza");
    reveal_strlit("Frastornamento");
    reveal_strlit("Frastornato");
    reveal_strlit("Freddo");
    reveal_strlit("Freddo (sé stesso e chi lo cavalca)");
    reveal_strlit("Fuoco");
    reveal_strlit("Fuoco Infernale");
    reveal_strlit("Illusione");
    reveal_strlit("Illusioni e qualsiasi attacco basato sulla vista");
    reveal_strlit("Immunità al Freddo");
    reveal_strlit("Immunità all'Esilio");
    reveal_strlit("Immunità alla Magia");
    reveal_strlit("Incantesimi di Ammaliamento e di Illusione");
    reveal_strlit("Individuazione dei Pensieri");
    reveal_strlit("Infermità");
    reveal_strlit("Infermo");
    reveal_strlit("Invecchiamento");
    reveal_strlit("Magia");
    reveal_strlit("Malattia");
    reveal_strlit("Malattie");
    reveal_strlit("Maledizioni");
    reveal_strlit("Metamorfosi");
    reveal_strlit("Nausea");
    reveal_strlit("Nauseato");
    reveal_strlit("Non Deformante");
    reveal_strlit("Paralisi");
    reveal_strlit("Paura");
    reveal_strlit("Pietrificazione");
    reveal_strlit("Richiamo");
    reveal_strlit("Sanguinamento");
    reveal_strlit("Sanguinamento (solo Punti Ferita)");
    reveal_strlit("Scosso");
    reveal_strlit("Sguardo");
    reveal_strlit("Sonno");
    reveal_strlit("Sonoro");
    reveal_strlit("Sordità");
    reveal_strlit("Spaventato");
    reveal_strlit("Stordimento");
    reveal_strlit("Veleni");
    reveal_strlit("Veleno");
    reveal_strlit("Veleno Ingerito");
    reveal_strlit("acido");
    reveal_strlit("attacchi basati sulla vista ed effetti visivi");
    reveal_strlit("attacchi con Sguardo");
    reveal_strlit("attacchi con lo Sguardo");
    reveal_strlit("attacchi con lo sguardo");
    reveal_strlit("charme");
    reveal_strlit("compulsione");
    reveal_strlit("controllo mentale");
    reveal_strlit("contundente");
    reveal_strlit("da caduta e da schiacciamento");
    reveal_strlit("danni contundenti");
    reveal_strlit("danni contundenti e perforanti");
    reveal_strlit("danni da arma");
    reveal_strlit("danni da armi");
    reveal_strlit("danni da precisione");
    reveal_strlit("danni delle armi");
    reveal_strlit("danni di precisione");
    reveal_strlit("danni perforanti");
    reveal_strlit("danni taglienti");
    reveal_strlit("danni taglienti e perforanti");
    reveal_strlit("danno da arma");
    reveal_strlit("danno di precisione");
    reveal_strlit("di influenza mentale e basati sullo Sguardo");
    reveal_strlit("divinazione");
    reveal_strlit("dolore");
    reveal_strlit("effetti Barcollanti");
    reveal_strlit("effetti basati sulla vista");
    reveal_strlit("effetti che bersagliano uno specifico numero di creature");
    reveal_strlit("effetti di Charme e Compulsione");
    reveal_strlit("effetti di Metamorfosi");
    reveal_strlit("effetti di Paura");
    reveal_strlit("effetti di Paura ed influenza mentale");
    reveal_strlit("effetti di Sguardo");
    reveal_strlit("effetti di Sonno");
    reveal_strlit("effetti di ammaliamento");
    reveal_strlit("effetti di charme");
    reveal_strlit("effetti di charme e compulsione");
    reveal_strlit("effetti di charme e compulsioni");
    reveal_strlit("effetti di compulsione");
    reveal_strlit("effetti di confusione e demenza");
    reveal_strlit("effetti di demenza");
    reveal_strlit("effetti di influenza mentale");
    reveal_strlit("effetti di influenza mentale e visivi");
    reveal_strlit("effetti di luce");
    reveal_strlit("effetti di maledizione");
    reveal_strlit("effetti di maledizioni");
    reveal_strlit("effetti di metamorfosi");
    reveal_strlit("effetti di morte");
    reveal_strlit("effetti di necromanzia");
    reveal_strlit("effetti di paura");
    reveal_strlit("effetti di sguardo");
    reveal_strlit("effetti di sonno");
    reveal_strlit("effetti e illusioni visive");
    reveal_strlit("effetti polimorfi");
    reveal_strlit("effetti sensoriali");
    reveal_strlit("effetti visivi");
    reveal_strlit("effetti visivi e illusioni");
    reveal_strlit("elettricità");
    reveal_strlit("emozioni");
    reveal_strlit("energia negativa");
    reveal_strlit("ferite permanenti");
    reveal_strlit("forza");
    reveal_strlit("freddo");
    reveal_strlit("fuoco");
    reveal_strlit("illusioni");
    reveal_strlit("illusioni visive");
    reveal_strlit("invecchiamento");
    reveal_strlit("malattia");
    reveal_strlit("malattie");
    reveal_strlit("maledizioni");
    reveal_strlit("metamorfosi");
    reveal_strlit("nausea");
    reveal_strlit("paralisi");
    reveal_strlit("paura");
    reveal_strlit("pietrificazione");
    reveal_strlit("possessione");
    reveal_strlit("ruggine");
    reveal_strlit("sanguinamento");
    reveal_strlit("sonno");
    reveal_strlit("sonoro");
    reveal_strlit("sordità");
    reveal_strlit("stordimento");
    reveal_strlit("veleni");
    reveal_strlit("veleno");
    reveal_strlit("visivi ed illusori");
    assert("Abbagliamenti"@.len() == 13);
    assert("Abbagliamento"@.len() == 13);
    assert("Abbagliato"@.len() == 10);
    assert("Accecato"@.len() == 8);
    assert("Acido"@.len() == 5);
    assert("Affaticamento"@.len() == 13);
    assert("Affaticato"@.len() == 10);
    assert("Ammaliamento"@.len() == 12);
    assert("Armi Taglienti"@.len() == 14);
    assert("Armi contundenti"@.len() == 16);
    assert("Assorbimento del Fuoco"@.len() == 22);
    assert("Attacchi Furtivi"@.len() == 16);
    assert("Attacchi ai Fianchi"@.len() == 19);
    assert("Attacchi basati sull'olfatto"@.len() == 28);
    assert("Attacchi basati sulla vista"@.len() == 27);
    assert("Attacchi basati sulla vista o sguardo"@.len() == 37);
    assert("Attacchi con Sguardo"@.len() == 20);
    assert("Attacchi con lo sguardo"@.len() == 23);
    assert("Attacchi dipendenti dalla vista"@.len() == 31);
    assert("Barcollante"@.len() == 11);
    assert("Barcollare"@.len() == 10);
    assert("Cecità"@.len() == 6);
    assert("Charme"@.len() == 6);
    assert("Colpi Critici"@.len() == 13);
    assert("Colpi critici"@.len() == 13);
    assert("Condizione Affaticato"@.len() == 21);
    assert("Condizione Esausto"@.len() == 18);
    assert("Confusione"@.len() == 10);
    assert("Congedo"@.len() == 7);
    assert("Danni Non Letali"@.len() == 16);
    assert("Danni contundenti"@.len() == 17);
    assert("Danni da arma"@.len() == 13);
    assert("Danni da armi"@.len() == 13);
    assert("Danni dalle Armi"@.len() == 16);
    assert("Danni perforanti e taglienti"@.len() == 28);
    assert("Danno da Pressione"@.len() == 18);
    assert("Danno da arma"@.len() == 13);
    assert("Danno non letale"@.len() == 16);
    assert("Demenza"@.len() == 7);
    assert("Divinazione"@.len() == 11);
    assert("Dolore"@.len() == 6);
    assert("Effetti a completamento di incantesimo e ad attivazione di incantesimo"@.len() == 70);
    assert("Effetti basati sulla vista"@.len() == 26);
    assert("Effetti d'influenza mentale"@.len() == 27);
    assert("Effetti di Charme e Compulsione"@.len() == 31);
    assert("Effetti di Demenza"@.len() == 18);
    assert("Effetti di Influenza Mentale"@.len() == 28);
    assert("Effetti di Morte"@.len() == 16);
    assert("Effetti di Paura"@.len() == 16);
    assert("Effetti di Sonno"@.len() == 16);
    assert("Effetti di charme"@.len() == 17);
    assert("Effetti di charme e compulsioni"@.len() == 31);
    assert("Effetti di confusione e follia"@.len() == 30);
    assert("Effetti di dolore"@.len() == 17);
    assert("Effetti di forza"@.len() == 16);
    assert("Effetti di influenza mentale"@.len() == 28);
    assert("Effetti di morte"@.len() == 16);
    assert("Effetti di morte (vedi sotto)"@.len() == 29);
    assert("Effetti di paura"@.len() == 16);
    assert("Effetti di sonno"@.len() == 16);
    assert("Effetti visivi"@.len() == 14);
    assert("Elettricità"@.len() == 11);
    assert("Elettricità (parziale)"@.len() == 22);
    assert("Energia Negativa"@.len() == 16);
    assert("Energia Positiva"@.len() == 16);
    assert("Esaurimento"@.len() == 11);
    assert("Esausto"@.len() == 7);
    assert("Fatica"@.len() == 6);
    assert("Fiancheggiamento"@.len() == 16);
    assert("Forza"@.len() == 5);
    assert("Frastornamento"@.len() == 14);
    assert("Frastornato"@.len() == 11);
    assert("Freddo"@.len() == 6);
    assert("Freddo (sé stesso e chi lo cavalca)"@.len() == 35);
    assert("Fuoco"@.len() == 5);
    assert("Fuoco Infernale"@.len() == 15);
    assert("Illusione"@.len() == 9);
    assert("Illusioni e qualsiasi attacco basato sulla vista"@.len() == 48);
    assert("Immunità al Freddo"@.len() == 18);
    assert("Immunità all'Esilio"@.len() == 19);
    assert("Immunità alla Magia"@.len() == 19);
    assert("Incantesimi di Ammaliamento e di Illusione"@.len() == 42);
    assert("Individuazione dei Pensieri"@.len() == 27);
    assert("Infermità"@.len() == 9);
    assert("Infermo"@.len() == 7);
    assert("Invecchiamento"@.len() == 14);
    assert("Magia"@.len() == 5);
    assert("Malattia"@.len() == 8);
    assert("Malattie"@.len() == 8);
    assert("Maledizioni"@.len() == 11);
    assert("Metamorfosi"@.len() == 11);
    assert("Nausea"@.len() == 6);
    assert("Nauseato"@.len() == 8);
    assert("Non Deformante"@.len() == 14);
    assert("Paralisi"@.len() == 8);
    assert("Paura"@.len() == 5);
    assert("Pietrificazione"@.len() == 15);
    assert("Richiamo"@.len() == 8);
    assert("Sanguinamento"@.len() == 13);
    assert("Sanguinamento (solo Punti Ferita)"@.len() == 33);
    assert("Scosso"@.len() == 6);
    assert("Sguardo"@.len() == 7);
    assert("Sonno"@.len() == 5);
    assert("Sonoro"@.len() == 6);
    assert("Sordità"@.len() == 7);
    assert("Spaventato"@.len() == 10);
    assert("Stordimento"@.len() == 11);
    assert("Veleni"@.len() == 6);
    assert("Veleno"@.len() == 6);
    assert("Veleno Ingerito"@.len() == 15);
    assert("acido"@.len() == 5);
    assert("attacchi basati sulla vista ed effetti visivi"@.len() == 45);
    assert("attacchi con Sguardo"@.len() == 20);
    assert("attacchi con lo Sguardo"@.len() == 23);
    assert("attacchi con lo sguardo"@.len() == 23);
    assert("charme"@.len() == 6);
    assert("compulsione"@.len() == 11);
    assert("controllo mentale"@.len() == 17);
    assert("contundente"@.len() == 11);
    assert("da caduta e da schiacciamento"@.len() == 29);
    assert("danni contundenti"@.len() == 17);
    assert("danni contundenti e perforanti"@.len() == 30);
    assert("danni da arma"@.len() == 13);
    assert("danni da armi"@.len() == 13);
    assert("danni da precisione"@.len() == 19);
    assert("danni delle armi"@.len() == 16);
    assert("danni di precisione"@.len() == 19);
    assert("danni perforanti"@.len() == 16);
    assert("danni taglienti"@.len() == 15);
    assert("danni taglienti e perforanti"@.len() == 28);
    assert("danno da arma"@.len() == 13);
    assert("danno di precisione"@.len() == 19);
    assert("di influenza mentale e basati sullo Sguardo"@.len() == 43);
    assert("divinazione"@.len() == 11);
    assert("dolore"@.len() == 6);
    assert("effetti Barcollanti"@.len() == 19);
    assert("effetti basati sulla vista"@.len() == 26);
    assert("effetti che bersagliano uno specifico numero di creature"@.len() == 56);
    assert("effetti di Charme e Compulsione"@.len() == 31);
    assert("effetti di Metamorfosi"@.len() == 22);
    assert("effetti di Paura"@.len() == 16);
    assert("effetti di Paura ed influenza mentale"@.len() == 37);
    assert("effetti di Sguardo"@.len() == 18);
    assert("effetti di Sonno"@.len() == 16);
    assert("effetti di ammaliamento"@.len() == 23);
    assert("effetti di charme"@.len() == 17);
    assert("effetti di charme e compulsione"@.len() == 31);
    assert("effetti di charme e compulsioni"@.len() == 31);
    assert("effetti di compulsione"@.len() == 22);
    assert("effetti di confusione e demenza"@.len() == 31);
    assert("effetti di demenza"@.len() == 18);
    assert("effetti di influenza mentale"@.len() == 28);
    assert("effetti di influenza mentale e visivi"@.len() == 37);
    assert("effetti di luce"@.len() == 15);
    assert("effetti di maledizione"@.len() == 22);
    assert("effetti di maledizioni"@.len() == 22);
    assert("effetti di metamorfosi"@.len() == 22);
    assert("effetti di morte"@.len() == 16);
    assert("effetti di necromanzia"@.len() == 22);
    assert("effetti di paura"@.len() == 16);
    assert("effetti di sguardo"@.len() == 18);
    assert("effetti di sonno"@.len() == 16);
    assert("effetti e illusioni visive"@.len() == 26);
    assert("effetti polimorfi"@.len() == 17);
    assert("effetti sensoriali"@.len() == 18);
    assert("effetti visivi"@.len() == 14);
    assert("effetti visivi e illusioni"@.len() == 26);
    assert("elettricità"@.len() == 11);
    assert("emozioni"@.len() == 8);
    assert("energia negativa"@.len() == 16);
    assert("ferite permanenti"@.len() == 17);
    assert("forza"@.len() == 5);
    assert("freddo"@.len() == 6);
    assert("fuoco"@.len() == 5);
    assert("illusioni"@.len() == 9);
    assert("illusioni visive"@.len() == 16);
    assert("invecchiamento"@.len() == 14);
    assert("malattia"@.len() == 8);
    assert("malattie"@.len() == 8);
    assert("maledizioni"@.len() == 11);
    assert("metamorfosi"@.len() == 11);
    assert("nausea"@.len() == 6);
    assert("paralisi"@.len() == 8);
    assert("paura"@.len() == 5);
    assert("pietrificazione"@.len() == 15);
    assert("possessione"@.len() == 11);
    assert("ruggine"@.len() == 7);
    assert("sanguinamento"@.len() == 13);
    assert("sonno"@.len() == 5);
    assert("sonoro"@.len() == 6);
    assert("sordità"@.len() == 7);
    assert("stordimento"@.len() == 11);
    assert("veleni"@.len() == 6);
    assert("veleno"@.len() == 6);
    assert("visivi ed illusori"@.len() == 18);
    assert("Individuazione dei Pensieri"@[0] != "Attacchi basati sulla vista"@[0]);
    assert("Individuazione dei Pensieri"@ != "Attacchi basati sulla vista"@);
    assert("Individuazione dei Pensieri"@[0] != "Effetti d'influenza mentale"@[0]);
    assert("Individuazione dei Pensieri"@ != "Effetti d'influenza mentale"@);
}

proof fn lemma_read_immunity_detectalignmentspell(s: Seq<char>)
    requires
        immunity_named(Immunity_Type::Immunity_DetectAlignmentSpell, s),
    ensures
        spec_single_immunity(s) == Some(Immunity_Type::Immunity_DetectAlignmentSpell),
{
    reveal_strlit("Abbagliamenti");
    reveal_strlit("Abbagliamento");
    reveal_strlit("Abbagliato");
    reveal_strlit("Accecato");
    reveal_strlit("Acido");
    reveal_strlit("Affaticamento");
    reveal_strlit("Affaticato");
    reveal_strlit("Ammaliamento");
    reveal_strlit("Armi Taglienti");
    reveal_strlit("Armi contundenti");
    reveal_strlit("Assorbimento del Fuoco");
    reveal_strlit("Attacchi Furtivi");
    reveal_strlit("Attacchi ai Fianchi");
    reveal_strlit("Attacchi basati sull'olfatto");
    reveal_strlit("Attacchi basati sulla vista");
    reveal_strlit("Attacchi basati sulla vista o sguardo");
    reveal_strlit("Attacchi con Sguardo");
    reveal_strlit("Attacchi con lo sguardo");
    reveal_strlit("Attacchi dipendenti dalla vista");
    reveal_strlit("Barcollante");
    reveal_strlit("Barcollare");
    reveal_strlit("Cecità");
    reveal_strlit("Charme");
    reveal_strlit("Colpi Critici");
    reveal_strlit("Colpi critici");
    reveal_strlit("Condizione Affaticato");
    reveal_strlit("Condizione Esausto");
    reveal_strlit("Confusione");
    reveal_strlit("Congedo");
    reveal_strlit("Danni Non Letali");
    reveal_strlit("Danni contundenti");
    reveal_strlit("Danni da arma");
    reveal_strlit("Danni da armi");
    reveal_strlit("Danni dalle Armi");
    reveal_strlit("Danni perforanti e taglienti");
    reveal_strlit("Danno da Pressione");
    reveal_strlit("Danno da arma");
    reveal_strlit("Danno non letale");
    reveal_strlit("Demenza");
    reveal_strlit("Divinazione");
    reveal_strlit("Dolore");
    reveal_strlit("Effetti a completamento di incantesimo e ad attivazione di incantesimo");
    reveal_strlit("Effetti basati sulla vista");
    reveal_strlit("Effetti d'influenza mentale");
    reveal_strlit("Effetti di Charme e Compulsione");
    reveal_strlit("Effetti di Demenza");
    reveal_strlit("Effetti di Influenza Mentale");
    reveal_strlit("Effetti di Morte");
    reveal_strlit("Effetti di Paura");
    reveal_strlit("Effetti di Sonno");
    reveal_strlit("Effetti di charme");
    reveal_strlit("Effetti di charme e compulsioni");
    reveal_strlit("Effetti di confusione e follia");
    reveal_strlit("Effetti di dolore");
    reveal_strlit("Effetti di forza");
    reveal_strlit("Effetti di influenza mentale");
    reveal_strlit("Effetti di morte");
    reveal_strlit("Effetti di morte (vedi sotto)");
    reveal_strlit("Effetti di paura");
    reveal_strlit("Effetti di sonno");
    reveal_strlit("Effetti visivi");
    reveal_strlit("Elettricità");
    reveal_strlit("Elettricità (parziale)");
    reveal_strlit("Energia Negativa");
    reveal_strlit("Energia Positiva");
    reveal_strlit("Esaurimento");
    reveal_strlit("Esausto");
    reveal_strlit("Fatica");
    reveal_strlit("Fiancheggiamento");
    reveal_strlit("Forza");
    reveal_strlit("Frastornamento");
    reveal_strlit("Frastornato");
    reveal_strlit("Freddo");
    reveal_strlit("Freddo (sé stesso e chi lo cavalca)");
    reveal_strlit("Fuoco");
    reveal_strlit("Fuoco Infernale");
    reveal_strlit("Illusione");
    reveal_strlit("Illusioni e qualsiasi attacco basato sulla vista");
    reveal_strlit("Immunità al Freddo");
    reveal_strlit("Immunità all'Esilio");
    reveal_strlit("Immunità alla Magia");
    reveal_strlit("Incantesimi di Ammaliamento e di Illusione");
    reveal_strlit("Individuazione dei Pensieri");
    reveal_strlit("Individuazione dell'Allineamento");
    reveal_strlit("Infermità");
    reveal_strlit("Infermo");
    reveal_strlit("Invecchiamento");
    reveal_strlit("Magia");
    reveal_strlit("Malattia");
    reveal_strlit("Malattie");
    reveal_strlit("Maledizioni");
    reveal_strlit("Metamorfosi");
    reveal_strlit("Nausea");
    reveal_strlit("Nauseato");
    reveal_strlit("Non Deformante");
    reveal_strlit("Paralisi");
    reveal_strlit("Paura");
    reveal_strlit("Pietrificazione");
    reveal_strlit("Richiamo");
    reveal_strlit("Sanguinamento");
    reveal_strlit("Sanguinamento (solo Punti Ferita)");
    reveal_strlit("Scosso");
    reveal_strlit("Sguardo");
    reveal_strlit("Sonno");
    reveal_strlit("Sonoro");
    reveal_strlit("Sordità");
    reveal_strlit("Spaventato");
    reveal_strlit("Stordimento");
    reveal_strlit("Veleni");
    reveal_strlit("Veleno");
    reveal_strlit("Veleno Ingerito");
    reveal_strlit("acido");
    reveal_strlit("attacchi basati sulla vista ed effetti visivi");
    reveal_strlit("attacchi con Sguardo");
    reveal_strlit("attacchi con lo Sguardo");
    reveal_strlit("attacchi con lo sguardo");
    reveal_strlit("charme");
    reveal_strlit("compulsione");
    reveal_strlit("controllo mentale");
    reveal_strlit("contundente");
    reveal_strlit("da caduta e da schiacciamento");
    reveal_strlit("danni contundenti");
    reveal_strlit("danni contundenti e perforanti");
    reveal_strlit("danni da arma");
    reveal_strlit("danni da armi");
    reveal_strlit("danni da precisione");
    reveal_strlit("danni delle armi");
    reveal_strlit("danni di precisione");
    reveal_strlit("danni perforanti");
    reveal_strlit("danni taglienti");
    reveal_strlit("danni taglienti e perforanti");
    reveal_strlit("danno da arma");
    reveal_strlit("danno di precisione");
    reveal_strlit("di influenza mentale e basati sullo Sguardo");
    reveal_strlit("divinazione");
    reveal_strlit("dolore");
    reveal_strlit("effetti Barcollanti");
    reveal_strlit("effetti basati sulla vista");
    reveal_strlit("effetti che bersagliano uno specifico numero di creature");
    reveal_strlit("effetti di Charme e Compulsione");
    reveal_strlit("effetti di Metamorfosi");
    reveal_strlit("effetti di Paura");
    reveal_strlit("effetti di Paura ed influenza mentale");
    reveal_strlit("effetti di Sguardo");
    reveal_strlit("effetti di Sonno");
    reveal_strlit("effetti di ammaliamento");
    reveal_strlit("effetti di charme");
    reveal_strlit("effetti di charme e compulsione");
    reveal_strlit("effetti di charme e compulsioni");
    reveal_strlit("effetti di compulsione");
    reveal_strlit("effetti di confusione e demenza");
    reveal_strlit("effetti di demenza");
    reveal_strlit("effetti di influenza mentale");
    reveal_strlit("effetti di influenza mentale e visivi");
    reveal_strlit("effetti di luce");
    reveal_strlit("effetti di maledizione");
    reveal_strlit("effetti di maledizioni");
    reveal_strlit("effetti di metamorfosi");
    reveal_strlit("effetti di morte");
    reveal_strlit("effetti di necromanzia");
    reveal_strlit("effetti di paura");
    reveal_strlit("effetti di sguardo");
    reveal_strlit("effetti di sonno");
    reveal_strlit("effetti e illusioni visive");
    reveal_strlit("effetti polimorfi");
    reveal_strlit("effetti sensoriali");
    reveal_strlit("effetti visivi");
    reveal_strlit("effetti visivi e illusioni");
    reveal_strlit("elettricità");
    reveal_strlit("emozioni");
    reveal_strlit("energia negativa");
    reveal_strlit("ferite permanenti");
    reveal_strlit("forza");
    reveal_strlit("freddo");
    reveal_strlit("fuoco");
    reveal_strlit("illusioni");
    reveal_strlit("illusioni visive");
    reveal_strlit("invecchiamento");
    reveal_strlit("malattia");
    reveal_strlit("malattie");
    reveal_strlit("maledizioni");
    reveal_strlit("metamorfosi");
    reveal_strlit("nausea");
    reveal_strlit("paralisi");
    reveal_strlit("paura");
    reveal_strlit("pietrificazione");
    reveal_strlit("possessione");
    reveal_strlit("ruggine");
    reveal_strlit("sanguinamento");
    reveal_strlit("sonno");
    reveal_strlit("sonoro");
    reveal_strlit("sordità");
    reveal_strlit("stordimento");
    reveal_strlit("veleni");
    reveal_strlit("veleno");
    reveal_strlit("visivi ed illusori");
    assert("Abbagliamenti"@.len() == 13);
    assert("Abbagliamento"@.len() == 13);
    assert("Abbagliato"@.len() == 10);
    assert("Accecato"@.len() == 8);
    assert("Acido"@.len() == 5);
    assert("Affaticamento"@.len() == 13);
    assert("Affaticato"@.len() == 10);
    assert("Ammaliamento"@.len() == 12);
    assert("Armi Taglienti"@.len() == 14);
    assert("Armi contundenti"@.len() == 16);
    assert("Assorbimento del Fuoco"@.len() == 22);
    assert("Attacchi Furtivi"@.len() == 16);
    assert("Attacchi ai Fianchi"@.len() == 19);
    assert("Attacchi basati sull'olfatto"@.len() == 28);
    assert("Attacchi basati sulla vista"@.len() == 27);
    assert("Attacchi basati sulla vista o sguardo"@.len() == 37);
    assert("Attacchi con Sguardo"@.len() == 20);
    assert("Attacchi con lo sguardo"@.len() == 23);
    assert("Attacchi dipendenti dalla vista"@.len() == 31);
    assert("Barcollante"@.len() == 11);
    assert("Barcollare"@.len() == 10);
    assert("Cecità"@.len() == 6);
    assert("Charme"@.len() == 6);
    assert("Colpi Critici"@.len() == 13);
    assert("Colpi critici"@.len() == 13);
    assert("Condizione Affaticato"@.len() == 21);
    assert("Condizione Esausto"@.len() == 18);
    assert("Confusione"@.len() == 10);
    assert("Congedo"@.len() == 7);
    assert("Danni Non Letali"@.len() == 16);
    assert("Danni contundenti"@.len() == 17);
    assert("Danni da arma"@.len() == 13);
    assert("Danni da armi"@.len() == 13);
    assert("Danni dalle Armi"@.len() == 16);
    assert("Danni perforanti e taglienti"@.len() == 28);
    assert("Danno da Pressione"@.len() == 18);
    assert("Danno da arma"@.len() == 13);
    assert("Danno non letale"@.len() == 16);
    assert("Demenza"@.len() == 7);
    assert("Divinazione"@.len() == 11);
    assert("Dolore"@.len() == 6);
    assert("Effetti a completamento di incantesimo e ad attivazione di incantesimo"@.len() == 70);
    assert("Effetti basati sulla vista"@.len() == 26);
    assert("Effetti d'influenza mentale"@.len() == 27);
    assert("Effetti di Charme e Compulsione"@.len() == 31);
    assert("Effetti di Demenza"@.len() == 18);
    assert("Effetti di Influenza Mentale"@.len() == 28);
    assert("Effetti di Morte"@.len() == 16);
    assert("Effetti di Paura"@.len() == 16);
    assert("Effetti di Sonno"@.len() == 16);
    assert("Effetti di charme"@.len() == 17);
    assert("Effetti di charme e compulsioni"@.len() == 31);
    assert("Effetti di confusione e follia"@.len() == 30);
    assert("Effetti di dolore"@.len() == 17);
    assert("Effetti di forza"@.len() == 16);
    assert("Effetti di influenza mentale"@.len() == 28);
    assert("Effetti di morte"@.len() == 16);
    assert("Effetti di morte (vedi sotto)"@.len() == 29);
    assert("Effetti di paura"@.len() == 16);
    assert("Effetti di sonno"@.len() == 16);
    assert("Effetti visivi"@.len() == 14);
    assert("Elettricità"@.len() == 11);
    assert("Elettricità (parziale)"@.len() == 22);
    assert("Energia Negativa"@.len() == 16);
    assert("Energia Positiva"@.len() == 16);
    assert("Esaurimento"@.len() == 11);
    assert("Esausto"@.len() == 7);
    assert("Fatica"@.len() == 6);
    assert("Fiancheggiamento"@.len() == 16);
    assert("Forza"@.len() == 5);
    assert("Frastornamento"@.len() == 14);
    assert("Frastornato"@.len() == 11);
    assert("Freddo"@.len() == 6);
    assert("Freddo (sé stesso e chi lo cavalca)"@.len() == 35);
    assert("Fuoco"@.len() == 5);
    assert("Fuoco Infernale"@.len() == 15);
    assert("Illusione"@.len() == 9);
    assert("Illusioni e qualsiasi attacco basato sulla vista"@.len() == 48);
    assert("Immunità al Freddo"@.len() == 18);
    assert("Immunità all'Esilio"@.len() == 19);
    assert("Immunità alla Magia"@.len() == 19);
    assert("Incantesimi di Ammaliamento e di Illusione"@.len() == 42);
    assert("Individuazione dei Pensieri"@.len() == 27);
    assert("Individuazione dell'Allineamento"@.len() == 32);
    assert("Infermità"@.len() == 9);
    assert("Infermo"@.len() == 7);
    assert("Invecchiamento"@.len() == 14);
    assert("Magia"@.len() == 5);
    assert("Malattia"@.len() == 8);
    assert("Malattie"@.len() == 8);
    assert("Maledizioni"@.len() == 11);
    assert("Metamorfosi"@.len() == 11);
    assert("Nausea"@.len() == 6);
    assert("Nauseato"@.len() == 8);
    assert("Non Deformante"@.len() == 14);
    assert("Paralisi"@.len() == 8);
    assert("Paura"@.len() == 5);
    assert("Pietrificazione"@.len() == 15);
    assert("Richiamo"@.len() == 8);
    assert("Sanguinamento"@.len() == 13);
    assert("Sanguinamento (solo Punti Ferita)"@.len() == 33);
    assert("Scosso"@.len() == 6);
    assert("Sguardo"@.len() == 7);
    assert("Sonno"@.len() == 5);
    assert("Sonoro"@.len() == 6);
    assert("Sordità"@.len() == 7);
    assert("Spaventato"@.len() == 10);
    assert("Stordimento"@.len() == 11);
    assert("Veleni"@.len() == 6);
    assert("Veleno"@.len() == 6);
    assert("Veleno Ingerito"@.len() == 15);
    assert("acido"@.len() == 5);
    assert("attacchi basati sulla vista ed effetti visivi"@.len() == 45);
    assert("attacchi con Sguardo"@.len() == 20);
    assert("attacchi con lo Sguardo"@.len() == 23);
    assert("attacchi con lo sguardo"@.len() == 23);
    assert("charme"@.len() == 6);
    assert("compulsione"@.len() == 11);
    assert("controllo mentale"@.len() == 17);
    assert("contundente"@.len() == 11);
    assert("da caduta e da schiacciamento"@.len() == 29);
    assert("danni contundenti"@.len() == 17);
    assert("danni contundenti e perforanti"@.len() == 30);
    assert("danni da arma"@.len() == 13);
    assert("danni da armi"@.len() == 13);
    assert("danni da precisione"@.len() == 19);
    assert("danni delle armi"@.len() == 16);
    assert("danni di precisione"@.len() == 19);
    assert("danni perforanti"@.len() == 16);
    assert("danni taglienti"@.len() == 15);
    assert("danni taglienti e perforanti"@.len() == 28);
    assert("danno da arma"@.len() == 13);
    assert("danno di precisione"@.len() == 19);
    assert("di influenza mentale e basati sullo Sguardo"@.len() == 43);
    assert("divinazione"@.len() == 11);
    assert("dolore"@.len() == 6);
    assert("effetti Barcollanti"@.len() == 19);
    assert("effetti basati sulla vista"@.len() == 26);
    assert("effetti che bersagliano uno specifico numero di creature"@.len() == 56);
    assert("effetti di Charme e Compulsione"@.len() == 31);
    assert("effetti di Metamorfosi"@.len() == 22);
    assert("effetti di Paura"@.len() == 16);
    assert("effetti di Paura ed influenza mentale"@.len() == 37);
    assert("effetti di Sguardo"@.len() == 18);
    assert("effetti di Sonno"@.len() == 16);
    assert("effetti di ammaliamento"@.len() == 23);
    assert("effetti di charme"@.len() == 17);
    assert("effetti di charme e compulsione"@.len() == 31);
    assert("effetti di charme e compulsioni"@.len() == 31);
    assert("effetti di compulsione"@.len() == 22);
    assert("effetti di confusione e demenza"@.len() == 31);
    assert("effetti di demenza"@.len() == 18);
    assert("effetti di influenza mentale"@.len() == 28);
    assert("effetti di influenza mentale e visivi"@.len() == 37);
    assert("effetti di luce"@.len() == 15);
    assert("effetti di maledizione"@.len() == 22);
    assert("effetti di maledizioni"@.len() == 22);
    assert("effetti di metamorfosi"@.len() == 22);
    assert("effetti di morte"@.len() == 16);
    assert("effetti di necromanzia"@.len() == 22);
    assert("effetti di paura"@.len() == 16);
    assert("effetti di sguardo"@.len() == 18);
    assert("effetti di sonno"@.len() == 16);
    assert("effetti e illusioni visive"@.len() == 26);
    assert("effetti polimorfi"@.len() == 17);
    assert("effetti sensoriali"@.len() == 18);
    assert("effetti visivi"@.len() == 14);
    assert("effetti visivi e illusioni"@.len() == 26);
    assert("elettricità"@.len() == 11);
    assert("emozioni"@.len() == 8);
    assert("energia negativa"@.len() == 16);
    assert("ferite permanenti"@.len() == 17);
    assert("forza"@.len() == 5);
    assert("freddo"@.len() == 6);
    assert("fuoco"@.len() == 5);
    assert("illusioni"@.len() == 9);
    assert("illusioni visive"@.len() == 16);
    assert("invecchiamento"@.len() == 14);
    assert("malattia"@.len() == 8);
    assert("malattie"@.len() == 8);
    assert("maledizioni"@.len() == 11);
    assert("metamorfosi"@.len() == 11);
    assert("nausea"@.len() == 6);
    assert("paralisi"@.len() == 8);
    assert("paura"@.len() == 5);
    assert("pietrificazione"@.len() == 15);
    assert("possessione"@.len() == 11);
    assert("ruggine"@.len() == 7);
    assert("sanguinamento"@.len() == 13);
    assert("sonno"@.len() == 5);
    assert("sonoro"@.len() == 6);
    assert("sordità"@.len() == 7);
    assert("stordimento"@.len() == 11);
    assert("veleni"@.len() == 6);
    assert("veleno"@.len() == 6);
    assert("visivi ed illusori"@.len() == 18);

}

proof fn lemma_read_immunity_detectliesspell(s: Seq<char>)
    requires
        immunity_named(Immunity_Type::Immunity_DetectLiesSpell, s),
    ensures
        spec_single_immunity(s) == Some(Immunity_Type::Immunity_DetectLiesSpell),
{
    reveal_strlit("Abbagliamenti");
    reveal_strlit("Abbagliamento");
    reveal_strlit("Abbagliato");
    reveal_strlit("Accecato");
    reveal_strlit("Acido");
    reveal_strlit("Affaticamento");
    reveal_strlit("Affaticato");
    reveal_strlit("Ammaliamento");
    reveal_strlit("Armi Taglienti");
    reveal_strlit("Armi contundenti");
    reveal_strlit("Assorbimento del Fuoco");
    reveal_strlit("Attacchi Furtivi");
    reveal_strlit("Attacchi ai Fianchi");
    reveal_strlit("Attacchi basati sull'olfatto");
    reveal_strlit("Attacchi basati sulla vista");
    reveal_strlit("Attacchi basati sulla vista o sguardo");
    reveal_strlit("Attacchi con Sguardo");
    reveal_strlit("Attacchi con lo sguardo");
    reveal_strlit("Attacchi dipendenti dalla vista");
    reveal_strlit("Barcollante");
    reveal_strlit("Barcollare");
    reveal_strlit("Cecità");
    reveal_strlit("Charme");
    reveal_strlit("Colpi Critici");
    reveal_strlit("Colpi critici");
    reveal_strlit("Condizione Affaticato");
    reveal_strlit("Condizione Esausto");
    reveal_strlit("Confusione");
    reveal_strlit("Congedo");
    reveal_strlit("Danni Non Letali");
    reveal_strlit("Danni contundenti");
    reveal_strlit("Danni da arma");
    reveal_strlit("Danni da armi");
    reveal_strlit("Danni dalle Armi");
    reveal_strlit("Danni perforanti e taglienti");
    reveal_strlit("Danno da Pressione");
    reveal_strlit("Danno da arma");
    reveal_strlit("Danno non letale");
    reveal_strlit("Demenza");
    reveal_strlit("Divinazione");
    reveal_strlit("Dolore");
    reveal_strlit("Effetti a completamento di incantesimo e ad attivazione di incantesimo");
    reveal_strlit("Effetti basati sulla vista");
    reveal_strlit("Effetti d'influenza mentale");
    reveal_strlit("Effetti di Charme e Compulsione");
    reveal_strlit("Effetti di Demenza");
    reveal_strlit("Effetti di Influenza Mentale");
    reveal_strlit("Effetti di Morte");
    reveal_strlit("Effetti di Paura");
    reveal_strlit("Effetti di Sonno");
    reveal_strlit("Effetti di charme");
    reveal_strlit("Effetti di charme e compulsioni");
    reveal_strlit("Effetti di confusione e follia");
    reveal_strlit("Effetti di dolore");
    reveal_strlit("Effetti di forza");
    reveal_strlit("Effetti di influenza mentale");
    reveal_strlit("Effetti di morte");
    reveal_strlit("Effetti di morte (vedi sotto)");
    reveal_strlit("Effetti di paura");
    reveal_strlit("Effetti di sonno");
    reveal_strlit("Effetti visivi");
    reveal_strlit("Elettricità");
    reveal_strlit("Elettricità (parziale)");
    reveal_strlit("Energia Negativa");
    reveal_strlit("Energia Positiva");
    reveal_strlit("Esaurimento");
    reveal_strlit("Esausto");
    reveal_strlit("Fatica");
    reveal_strlit("Fiancheggiamento");
    reveal_strlit("Forza");
    reveal_strlit("Frastornamento");
    reveal_strlit("Frastornato");
    reveal_strlit("Freddo");
    reveal_strlit("Freddo (sé stesso e chi lo cavalca)");
    reveal_strlit("Fuoco");
    reveal_strlit("Fuoco Infernale");
    reveal_strlit("Illusione");
    reveal_strlit("Illusioni e qualsiasi attacco basato sulla vista");
    reveal_strlit("Immunità al Freddo");
    reveal_strlit("Immunità all'Esilio");
    reveal_strlit("Immunità alla Magia");
    reveal_strlit("Incantesimi di Ammaliamento e di Illusione");
    reveal_strlit("Individuazione dei Pensieri");
    reveal_strlit("Individuazione dell'Allineamento");
    reveal_strlit("Infermità");
    reveal_strlit("Infermo");
    reveal_strlit("Invecchiamento");
    reveal_strlit("Magia");
    reveal_strlit("Malattia");
    reveal_strlit("Malattie");
    reveal_strlit("Maledizioni");
    reveal_strlit("Metamorfosi");
    reveal_strlit("Nausea");
    reveal_strlit("Nauseato");
    reveal_strlit("Non Deformante");
    reveal_strlit("Paralisi");
    reveal_strlit("Paura");
    reveal_strlit("Pietrificazione");
    reveal_strlit("Richiamo");
    reveal_strlit("Rivela Bugie");
    reveal_strlit("Sanguinamento");
    reveal_strlit("Sanguinamento (solo Punti Ferita)");
    reveal_strlit("Scosso");
    reveal_strlit("Sguardo");
    reveal_strlit("Sonno");
    reveal_strlit("Sonoro");
    reveal_strlit("Sordità");
    reveal_strlit("Spaventato");
    reveal_strlit("Stordimento");
    reveal_strlit("Veleni");
    reveal_strlit("Veleno");
    reveal_strlit("Veleno Ingerito");
    reveal_strlit("acido");
    reveal_strlit("attacchi basati sulla vista ed effetti visivi");
    reveal_strlit("attacchi con Sguardo");
    reveal_strlit("attacchi con lo Sguardo");
    reveal_strlit("attacchi con lo sguardo");
    reveal_strlit("charme");
    reveal_strlit("compulsione");
    reveal_strlit("controllo mentale");
    reveal_strlit("contundente");
    reveal_strlit("da caduta e da schiacciamento");
    reveal_strlit("danni contundenti");
    reveal_strlit("danni contundenti e perforanti");
    reveal_strlit("danni da arma");
    reveal_strlit("danni da armi");
    reveal_strlit("danni da precisione");
    reveal_strlit("danni delle armi");
    reveal_strlit("danni di precisione");
    reveal_strlit("danni perforanti");
    reveal_strlit("danni taglienti");
    reveal_strlit("danni taglienti e perforanti");
    reveal_strlit("danno da arma");
    reveal_strlit("danno di precisione");
    reveal_strlit("di influenza mentale e basati sullo Sguardo");
    reveal_strlit("divinazione");
    reveal_strlit("dolore");
    reveal_strlit("effetti Barcollanti");
    reveal_strlit("effetti basati sulla vista");
    reveal_strlit("effetti che bersagliano uno specifico numero di creature");
    reveal_strlit("effetti di Charme e Compulsione");
    reveal_strlit("effetti di Metamorfosi");
    reveal_strlit("effetti di Paura");
    reveal_strlit("effetti di Paura ed influenza mentale");
    reveal_strlit("effetti di Sguardo");
    reveal_strlit("effetti di Sonno");
    reveal_strlit("effetti di ammaliamento");
    reveal_strlit("effetti di charme");
    reveal_strlit("effetti di charme e compulsione");
    reveal_strlit("effetti di charme e compulsioni");
    reveal_strlit("effetti di compulsione");
    reveal_strlit("effetti di confusione e demenza");
    reveal_strlit("effetti di demenza");
    reveal_strlit("effetti di influenza mentale");
    reveal_strlit("effetti di influenza mentale e visivi");
    reveal_strlit("effetti di luce");
    reveal_strlit("effetti di maledizione");
    reveal_strlit("effetti di maledizioni");
    reveal_strlit("effetti di metamorfosi");
    reveal_strlit("effetti di morte");
    reveal_strlit("effetti di necromanzia");
    reveal_strlit("effetti di paura");
    reveal_strlit("effetti di sguardo");
    reveal_strlit("effetti di sonno");
    reveal_strlit("effetti e illusioni visive");
    reveal_strlit("effetti polimorfi");
    reveal_strlit("effetti sensoriali");
    reveal_strlit("effetti visivi");
    reveal_strlit("effetti visivi e illusioni");
    reveal_strlit("elettricità");
    reveal_strlit("emozioni");
    reveal_strlit("energia negativa");
    reveal_strlit("ferite permanenti");
    reveal_strlit("forza");
    reveal_strlit("freddo");
    reveal_strlit("fuoco");
    reveal_strlit("illusioni");
    reveal_strlit("illusioni visive");
    reveal_strlit("invecchiamento");
    reveal_strlit("malattia");
    reveal_strlit("malattie");
    reveal_strlit("maledizioni");
    reveal_strlit("metamorfosi");
    reveal_strlit("nausea");
    reveal_strlit("paralisi");
    reveal_strlit("paura");
    reveal_strlit("pietrificazione");
    reveal_strlit("possessione");
    reveal_strlit("ruggine");
    reveal_strlit("sanguinamento");
    reveal_strlit("sonno");
    reveal_strlit("sonoro");
    reveal_strlit("sordità");
    reveal_strlit("stordimento");
    reveal_strlit("veleni");
    reveal_strlit("veleno");
    reveal_strlit("visivi ed illusori");
    assert("Abbagliamenti"@.len() == 13);
    assert("Abbagliamento"@.len() == 13);
    assert("Abbagliato"@.len() == 10);
    assert("Accecato"@.len() == 8);
    assert("Acido"@.len() == 5);
    assert("Affaticamento"@.len() == 13);
    assert("Affaticato"@.len() == 10);
    assert("Ammaliamento"@.len() == 12);
    assert("Armi Taglienti"@.len() == 14);
    assert("Armi contundenti"@.len() == 16);
    assert("Assorbimento del Fuoco"@.len() == 22);
    assert("Attacchi Furtivi"@.len() == 16);
    assert("Attacchi ai Fianchi"@.len() == 19);
    assert("Attacchi basati sull'olfatto"@.len() == 28);
    assert("Attacchi basati sulla vista"@.len() == 27);
    assert("Attacchi basati sulla vista o sguardo"@.len() == 37);
    assert("Attacchi con Sguardo"@.len() == 20);
    assert("Attacchi con lo sguardo"@.len() == 23);
    assert("Attacchi dipendenti dalla vista"@.len() == 31);
    assert("Barcollante"@.len() == 11);
    assert("Barcollare"@.len() == 10);
    assert("Cecità"@.len() == 6);
    assert("Charme"@.len() == 6);
    assert("Colpi Critici"@.len() == 13);
    assert("Colpi critici"@.len() == 13);
    assert("Condizione Affaticato"@.len() == 21);
    assert("Condizione Esausto"@.len() == 18);
    assert("Confusione"@.len() == 10);
    assert("Congedo"@.len() == 7);
    assert("Danni Non Letali"@.len() == 16);
    assert("Danni contundenti"@.len() == 17);
    assert("Danni da arma"@.len() == 13);
    assert("Danni da armi"@.len() == 13);
    assert("Danni dalle Armi"@.len() == 16);
    assert("Danni perforanti e taglienti"@.len() == 28);
    assert("Danno da Pressione"@.len() == 18);
    assert("Danno da arma"@.len() == 13);
    assert("Danno non letale"@.len() == 16);
    assert("Demenza"@.len() == 7);
    assert("Divinazione"@.len() == 11);
    assert("Dolore"@.len() == 6);
    assert("Effetti a completamento di incantesimo e ad attivazione di incantesimo"@.len() == 70);
    assert("Effetti basati sulla vista"@.len() == 26);
    assert("Effetti d'influenza mentale"@.len() == 27);
    assert("Effetti di Charme e Compulsione"@.len() == 31);
    assert("Effetti di Demenza"@.len() == 18);
    assert("Effetti di Influenza Mentale"@.len() == 28);
    assert("Effetti di Morte"@.len() == 16);
    assert("Effetti di Paura"@.len() == 16);
    assert("Effetti di Sonno"@.len() == 16);
    assert("Effetti di charme"@.len() == 17);
    assert("Effetti di charme e compulsioni"@.len() == 31);
    assert("Effetti di confusione e follia"@.len() == 30);
    assert("Effetti di dolore"@.len() == 17);
    assert("Effetti di forza"@.len() == 16);
    assert("Effetti di influenza mentale"@.len() == 28);
    assert("Effetti di morte"@.len() == 16);
    assert("Effetti di morte (vedi sotto)"@.len() == 29);
    assert("Effetti di paura"@.len() == 16);
    assert("Effetti di sonno"@.len() == 16);
    assert("Effetti visivi"@.len() == 14);
    assert("Elettricità"@.len() == 11);
    assert("Elettricità (parziale)"@.len() == 22);
    assert("Energia Negativa"@.len() == 16);
    assert("Energia Positiva"@.len() == 16);
    assert("Esaurimento"@.len() == 11);
    assert("Esausto"@.len() == 7);
    assert("Fatica"@.len() == 6);
    assert("Fiancheggiamento"@.len() == 16);
    assert("Forza"@.len() == 5);
    assert("Frastornamento"@.len() == 14);
    assert("Frastornato"@.len() == 11);
    assert("Freddo"@.len() == 6);
    assert("Freddo (sé stesso e chi lo cavalca)"@.len() == 35);
    assert("Fuoco"@.len() == 5);
    assert("Fuoco Infernale"@.len() == 15);
    assert("Illusione"@.len() == 9);
    assert("Illusioni e qualsiasi attacco basato sulla vista"@.len() == 48);
    assert("Immunità al Freddo"@.len() == 18);
    assert("Immunità all'Esilio"@.len() == 19);
    assert("Immunità alla Magia"@.len() == 19);
    assert("Incantesimi di Ammaliamento e di Illusione"@.len() == 42);
    assert("Individuazione dei Pensieri"@.len() == 27);
    assert("Individuazione dell'Allineamento"@.len() == 32);
    assert("Infermità"@.len() == 9);
    assert("Infermo"@.len() == 7);
    assert("Invecchiamento"@.len() == 14);
    assert("Magia"@.len() == 5);
    assert("Malattia"@.len() == 8);
    assert("Malattie"@.len() == 8);
    assert("Maledizioni"@.len() == 11);
    assert("Metamorfosi"@.len() == 11);
    assert("Nausea"@.len() == 6);
    assert("Nauseato"@.len() == 8);
    assert("Non Deformante"@.len() == 14);
    assert("Paralisi"@.len() == 8);
    assert("Paura"@.len() == 5);
    assert("Pietrificazione"@.len() == 15);
    assert("Richiamo"@.len() == 8);
    assert("Rivela Bugie"@.len() == 12);
    assert("Sanguinamento"@.len() == 13);
    assert("Sanguinamento (solo Punti Ferita)"@.len() == 33);
    assert("Scosso"@.len() == 6);
    assert("Sguardo"@.len() == 7);
    assert("Sonno"@.len() == 5);
    assert("Sonoro"@.len() == 6);
    assert("Sordità"@.len() == 7);
    assert("Spaventato"@.len() == 10);
    assert("Stordimento"@.len() == 11);
    assert("Veleni"@.len() == 6);
    assert("Veleno"@.len() == 6);
    assert("Veleno Ingerito"@.len() == 15);
    assert("acido"@.len() == 5);
    assert("attacchi basati sulla vista ed effetti visivi"@.len() == 45);
    assert("attacchi con Sguardo"@.len() == 20);
    assert("attacchi con lo Sguardo"@.len() == 23);
    assert("attacchi con lo sguardo"@.len() == 23);
    assert("charme"@.len() == 6);
    assert("compulsione"@.len() == 11);
    assert("controllo mentale"@.len() == 17);
    assert("contundente"@.len() == 11);
    assert("da caduta e da schiacciamento"@.len() == 29);
    assert("danni contundenti"@.len() == 17);
    assert("danni contundenti e perforanti"@.len() == 30);
    assert("danni da arma"@.len() == 13);
    assert("danni da armi"@.len() == 13);
    assert("danni da precisione"@.len() == 19);
    assert("danni delle armi"@.len() == 16);
    assert("danni di precisione"@.len() == 19);
    assert("danni perforanti"@.len() == 16);
    assert("danni taglienti"@.len() == 15);
    assert("danni taglienti e perforanti"@.len() == 28);
    assert("danno da arma"@.len() == 13);
    assert("danno di precisione"@.len() == 19);
    assert("di influenza mentale e basati sullo Sguardo"@.len() == 43);
    assert("divinazione"@.len() == 11);
    assert("dolore"@.len() == 6);
    assert("effetti Barcollanti"@.len() == 19);
    assert("effetti basati sulla vista"@.len() == 26);
    assert("effetti che bersagliano uno specifico numero di creature"@.len() == 56);
    assert("effetti di Charme e Compulsione"@.len() == 31);
    assert("effetti di Metamorfosi"@.len() == 22);
    assert("effetti di Paura"@.len() == 16);
    assert("effetti di Paura ed influenza mentale"@.len() == 37);
    assert("effetti di Sguardo"@.len() == 18);
    assert("effetti di Sonno"@.len() == 16);
    assert("effetti di ammaliamento"@.len() == 23);
    assert("effetti di charme"@.len() == 17);
    assert("effetti di charme e compulsione"@.len() == 31);
    assert("effetti di charme e compulsioni"@.len() == 31);
    assert("effetti di compulsione"@.len() == 22);
    assert("effetti di confusione e demenza"@.len() == 31);
    assert("effetti di demenza"@.len() == 18);
    assert("effetti di influenza mentale"@.len() == 28);
    assert("effetti di influenza mentale e visivi"@.len() == 37);
    assert("effetti di luce"@.len() == 15);
    assert("effetti di maledizione"@.len() == 22);
    assert("effetti di maledizioni"@.len() == 22);
    assert("effetti di metamorfosi"@.len() == 22);
    assert("effetti di morte"@.len() == 16);
    assert("effetti di necromanzia"@.len() == 22);
    assert("effetti di paura"@.len() == 16);
    assert("effetti di sguardo"@.len() == 18);
    assert("effetti di sonno"@.len() == 16);
    assert("effetti e illusioni visive"@.len() == 26);
    assert("effetti polimorfi"@.len() == 17);
    assert("effetti sensoriali"@.len() == 18);
    assert("effetti visivi"@.len() == 14);
    assert("effetti visivi e illusioni"@.len() == 26);
    assert("elettricità"@.len() == 11);
    assert("emozioni"@.len() == 8);
    assert("energia negativa"@.len() == 16);
    assert("ferite permanenti"@.len() == 17);
    assert("forza"@.len() == 5);
    assert("freddo"@.len() == 6);
    assert("fuoco"@.len() == 5);
    assert("illusioni"@.len() == 9);
    assert("illusioni visive"@.len() == 16);
    assert("invecchiamento"@.len() == 14);
    assert("malattia"@.len() == 8);
    assert("malattie"@.len() == 8);
    assert("maledizioni"@.len() == 11);
    assert("metamorfosi"@.len() == 11);
    assert("nausea"@.len() == 6);
    assert("paralisi"@.len() == 8);
    assert("paura"@.len() == 5);
    assert("pietrificazione"@.len() == 15);
    assert("possessione"@.len() == 11);
    assert("ruggine"@.len() == 7);
    assert("sanguinamento"@.len() == 13);
    assert("sonno"@.len() == 5);
    assert("sonoro"@.len() == 6);
    assert("sordità"@.len() == 7);
    assert("stordimento"@.len() == 11);
    assert("veleni"@.len() == 6);
    assert("veleno"@.len() == 6);
    assert("visivi ed illusori"@.len() == 18);
    assert("Rivela Bugie"@[0] != "Ammaliamento"@[0]);
    assert("Rivela Bugie"@ != "Ammaliamento"@);
}

proof fn lemma_read_immunity_spellimmunityspell(s: Seq<char>)
    requires
        immunity_named(Immunity_Type::Immunity_SpellImmunitySpell, s),
    ensures
        spec_single_immunity(s) == Some(Immunity_Type::Immunity_SpellImmunitySpell),
{
    reveal_strlit("Abbagliamenti");
    reveal_strlit("Abbagliamento");
    reveal_strlit("Abbagliato");
    reveal_strlit("Accecato");
    reveal_strlit("Acido");
    reveal_strlit("Affaticamento");
    reveal_strlit("Affaticato");
    reveal_strlit("Ammaliamento");
    reveal_strlit("Armi Taglienti");
    reveal_strlit("Armi contundenti");
    reveal_strlit("Assorbimento del Fuoco");
    reveal_strlit("Attacchi Furtivi");
    reveal_strlit("Attacchi ai Fianchi");
    reveal_strlit("Attacchi basati sull'olfatto");
    reveal_strlit("Attacchi basati sulla vista");
    reveal_strlit("Attacchi basati sulla vista o sguardo");
    reveal_strlit("Attacchi con Sguardo");
    reveal_strlit("Attacchi con lo sguardo");
    reveal_strlit("Attacchi dipendenti dalla vista");
    reveal_strlit("Barcollante");
    reveal_strlit("Barcollare");
    reveal_strlit("Cecità");
    reveal_strlit("Charme");
    reveal_strlit("Colpi Critici");
    reveal_strlit("Colpi critici");
    reveal_strlit("Condizione Affaticato");
    reveal_strlit("Condizione Esausto");
    reveal_strlit("Confusione");
    reveal_strlit("Congedo");
    reveal_strlit("Danni Non Letali");
    reveal_strlit("Danni contundenti");
    reveal_strlit("Danni da arma");
    reveal_strlit("Danni da armi");
    reveal_strlit("Danni dalle Armi");
    reveal_strlit("Danni perforanti e taglienti");
    reveal_strlit("Danno da Pressione");
    reveal_strlit("Danno da arma");
    reveal_strlit("Danno non letale");
    reveal_strlit("Demenza");
    reveal_strlit("Divinazione");
    reveal_strlit("Dolore");
    reveal_strlit("Effetti a completamento di incantesimo e ad attivazione di incantesimo");
    reveal_strlit("Effetti basati sulla vista");
    reveal_strlit("Effetti d'influenza mentale");
    reveal_strlit("Effetti di Charme e Compulsione");
    reveal_strlit("Effetti di Demenza");
    reveal_strlit("Effetti di Influenza Mentale");
    reveal_strlit("Effetti di Morte");
    reveal_strlit("Effetti di Paura");
    reveal_strlit("Effetti di Sonno");
    reveal_strlit("Effetti di charme");
    reveal_strlit("Effetti di charme e compulsioni");
    reveal_strlit("Effetti di confusione e follia");
    reveal_strlit("Effetti di dolore");
    reveal_strlit("Effetti di forza");
    reveal_strlit("Effetti di influenza mentale");
    reveal_strlit("Effetti di morte");
    reveal_strlit("Effetti di morte (vedi sotto)");
    reveal_strlit("Effetti di paura");
    reveal_strlit("Effetti di sonno");
    reveal_strlit("Effetti visivi");
    reveal_strlit("Elettricità");
    reveal_strlit("Elettricità (parziale)");
    reveal_strlit("Energia Negativa");
    reveal_strlit("Energia Positiva");
    reveal_strlit("Esaurimento");
    reveal_strlit("Esausto");
    reveal_strlit("Fatica");
    reveal_strlit("Fiancheggiamento");
    reveal_strlit("Forza");
    reveal_strlit("Frastornamento");
    reveal_strlit("Frastornato");
    reveal_strlit("Freddo");
    reveal_strlit("Freddo (sé stesso e chi lo cavalca)");
    reveal_strlit("Fuoco");
    reveal_strlit("Fuoco Infernale");
    reveal_strlit("Illusione");
    reveal_strlit("Illusioni e qualsiasi attacco basato sulla vista");
    reveal_strlit("Immunità agli Incantesimi");
    reveal_strlit("Immunità al Freddo");
    reveal_strlit("Immunità all'Esilio");
    reveal_strlit("Immunità alla Magia");
    reveal_strlit("Incantesimi di Ammaliamento e di Illusione");
    reveal_strlit("Individuazione dei Pensieri");
    reveal_strlit("Individuazione dell'Allineamento");
    reveal_strlit("Infermità");
    reveal_strlit("Infermo");
    reveal_strlit("Invecchiamento");
    reveal_strlit("Magia");
    reveal_strlit("Malattia");
    reveal_strlit("Malattie");
    reveal_strlit("Maledizioni");
    reveal_strlit("Metamorfosi");
    reveal_strlit("Nausea");
    reveal_strlit("Nauseato");
    reveal_strlit("Non Deformante");
    reveal_strlit("Paralisi");
    reveal_strlit("Paura");
    reveal_strlit("Pietrificazione");
    reveal_strlit("Richiamo");
    reveal_strlit("Rivela Bugie");
    reveal_strlit("Sanguinamento");
    reveal_strlit("Sanguinamento (solo Punti Ferita)");
    reveal_strlit("Scosso");
    reveal_strlit("Sguardo");
    reveal_strlit("Sonno");
    reveal_strlit("Sonoro");
    reveal_strlit("Sordità");
    reveal_strlit("Spaventato");
    reveal_strlit("Stordimento");
    reveal_strlit("Veleni");
    reveal_strlit("Veleno");
    reveal_strlit("Veleno Ingerito");
    reveal_strlit("acido");
    reveal_strlit("attacchi basati sulla vista ed effetti visivi");
    reveal_strlit("attacchi con Sguardo");
    reveal_strlit("attacchi con lo Sguardo");
    reveal_strlit("attacchi con lo sguardo");
    reveal_strlit("charme");
    reveal_strlit("compulsione");
    reveal_strlit("controllo mentale");
    reveal_strlit("contundente");
    reveal_strlit("da caduta e da schiacciamento");
    reveal_strlit("danni contundenti");
    reveal_strlit("danni contundenti e perforanti");
    reveal_strlit("danni da arma");
    reveal_strlit("danni da armi");
    reveal_strlit("danni da precisione");
    reveal_strlit("danni delle armi");
    reveal_strlit("danni di precisione");
    reveal_strlit("danni perforanti");
    reveal_strlit("danni taglienti");
    reveal_strlit("danni taglienti e perforanti");
    reveal_strlit("danno da arma");
    reveal_strlit("danno di precisione");
    reveal_strlit("di influenza mentale e basati sullo Sguardo");
    reveal_strlit("divinazione");
    reveal_strlit("dolore");
    reveal_strlit("effetti Barcollanti");
    reveal_strlit("effetti basati sulla vista");
    reveal_strlit("effetti che bersagliano uno specifico numero di creature");
    reveal_strlit("effetti di Charme e Compulsione");
    reveal_strlit("effetti di Metamorfosi");
    reveal_strlit("effetti di Paura");
    reveal_strlit("effetti di Paura ed influenza mentale");
    reveal_strlit("effetti di Sguardo");
    reveal_strlit("effetti di Sonno");
    reveal_strlit("effetti di ammaliamento");
    reveal_strlit("effetti di charme");
    reveal_strlit("effetti di charme e compulsione");
    reveal_strlit("effetti di charme e compulsioni");
    reveal_strlit("effetti di compulsione");
    reveal_strlit("effetti di confusione e demenza");
    reveal_strlit("effetti di demenza");
    reveal_strlit("effetti di influenza mentale");
    reveal_strlit("effetti di influenza mentale e visivi");
    reveal_strlit("effetti di luce");
    reveal_strlit("effetti di maledizione");
    reveal_strlit("effetti di maledizioni");
    reveal_strlit("effetti di metamorfosi");
    reveal_strlit("effetti di morte");
    reveal_strlit("effetti di necromanzia");
    reveal_strlit("effetti di paura");
    reveal_strlit("effetti di sguardo");
    reveal_strlit("effetti di sonno");
    reveal_strlit("effetti e illusioni visive");
    reveal_strlit("effetti polimorfi");
    reveal_strlit("effetti sensoriali");
    reveal_strlit("effetti visivi");
    reveal_strlit("effetti visivi e illusioni");
    reveal_strlit("elettricità");
    reveal_strlit("emozioni");
    reveal_strlit("energia negativa");
    reveal_strlit("ferite permanenti");
    reveal_strlit("forza");
    reveal_strlit("freddo");
    reveal_strlit("fuoco");
    reveal_strlit("illusioni");
    reveal_strlit("illusioni visive");
    reveal_strlit("invecchiamento");
    reveal_strlit("malattia");
    reveal_strlit("malattie");
    reveal_strlit("maledizioni");
    reveal_strlit("metamorfosi");
    reveal_strlit("nausea");
    reveal_strlit("paralisi");
    reveal_strlit("paura");
    reveal_strlit("pietrificazione");
    reveal_strlit("possessione");
    reveal_strlit("ruggine");
    reveal_strlit("sanguinamento");
    reveal_strlit("sonno");
    reveal_strlit("sonoro");
    reveal_strlit("sordità");
    reveal_strlit("stordimento");
    reveal_strlit("veleni");
    reveal_strlit("veleno");
    reveal_strlit("visivi ed illusori");
    assert("Abbagliamenti"@.len() == 13);
    assert("Abbagliamento"@.len() == 13);
    assert("Abbagliato"@.len() == 10);
    assert("Accecato"@.len() == 8);
    assert("Acido"@.len() == 5);
    assert("Affaticamento"@.len() == 13);
    assert("Affaticato"@.len() == 10);
    assert("Ammaliamento"@.len() == 12);
    assert("Armi Taglienti"@.len() == 14);
    assert("Armi contundenti"@.len() == 16);
    assert("Assorbimento del Fuoco"@.len() == 22);
    assert("Attacchi Furtivi"@.len() == 16);
    assert("Attacchi ai Fianchi"@.len() == 19);
    assert("Attacchi basati sull'olfatto"@.len() == 28);
    assert("Attacchi basati sulla vista"@.len() == 27);
    assert("Attacchi basati sulla vista o sguardo"@.len() == 37);
    assert("Attacchi con Sguardo"@.len() == 20);
    assert("Attacchi con lo sguardo"@.len() == 23);
    assert("Attacchi dipendenti dalla vista"@.len() == 31);
    assert("Barcollante"@.len() == 11);
    assert("Barcollare"@.len() == 10);
    assert("Cecità"@.len() == 6);
    assert("Charme"@.len() == 6);
    assert("Colpi Critici"@.len() == 13);
    assert("Colpi critici"@.len() == 13);
    assert("Condizione Affaticato"@.len() == 21);
    assert("Condizione Esausto"@.len() == 18);
    assert("Confusione"@.len() == 10);
    assert("Congedo"@.len() == 7);
    assert("Danni Non Letali"@.len() == 16);
    assert("Danni contundenti"@.len() == 17);
    assert("Danni da arma"@.len() == 13);
    assert("Danni da armi"@.len() == 13);
    assert("Danni dalle Armi"@.len() == 16);
    assert("Danni perforanti e taglienti"@.len() == 28);
    assert("Danno da Pressione"@.len() == 18);
    assert("Danno da arma"@.len() == 13);
    assert("Danno non letale"@.len() == 16);
    assert("Demenza"@.len() == 7);
    assert("Divinazione"@.len() == 11);
    assert("Dolore"@.len() == 6);
    assert("Effetti a completamento di incantesimo e ad attivazione di incantesimo"@.len() == 70);
    assert("Effetti basati sulla vista"@.len() == 26);
    assert("Effetti d'influenza mentale"@.len() == 27);
    assert("Effetti di Charme e Compulsione"@.len() == 31);
    assert("Effetti di Demenza"@.len() == 18);
    assert("Effetti di Influenza Mentale"@.len() == 28);
    assert("Effetti di Morte"@.len() == 16);
    assert("Effetti di Paura"@.len() == 16);
    assert("Effetti di Sonno"@.len() == 16);
    assert("Effetti di charme"@.len() == 17);
    assert("Effetti di charme e compulsioni"@.len() == 31);
    assert("Effetti di confusione e follia"@.len() == 30);
    assert("Effetti di dolore"@.len() == 17);
    assert("Effetti di forza"@.len() == 16);
    assert("Effetti di influenza mentale"@.len() == 28);
    assert("Effetti di morte"@.len() == 16);
    assert("Effetti di morte (vedi sotto)"@.len() == 29);
    assert("Effetti di paura"@.len() == 16);
    assert("Effetti di sonno"@.len() == 16);
    assert("Effetti visivi"@.len() == 14);
    assert("Elettricità"@.len() == 11);
    assert("Elettricità (parziale)"@.len() == 22);
    assert("Energia Negativa"@.len() == 16);
    assert("Energia Positiva"@.len() == 16);
    assert("Esaurimento"@.len() == 11);
    assert("Esausto"@.len() == 7);
    assert("Fatica"@.len() == 6);
    assert("Fiancheggiamento"@.len() == 16);
    assert("Forza"@.len() == 5);
    assert("Frastornamento"@.len() == 14);
    assert("Frastornato"@.len() == 11);
    assert("Freddo"@.len() == 6);
    assert("Freddo (sé stesso e chi lo cavalca)"@.len() == 35);
    assert("Fuoco"@.len() == 5);
    assert("Fuoco Infernale"@.len() == 15);
    assert("Illusione"@.len() == 9);
    assert("Illusioni e qualsiasi attacco basato sulla vista"@.len() == 48);
    assert("Immunità agli Incantesimi"@.len() == 25);
    assert("Immunità al Freddo"@.len() == 18);
    assert("Immunità all'Esilio"@.len() == 19);
    assert("Immunità alla Magia"@.len() == 19);
    assert("Incantesimi di Ammaliamento e di Illusione"@.len() == 42);
    assert("Individuazione dei Pensieri"@.len() == 27);
    assert("Individuazione dell'Allineamento"@.len() == 32);
    assert("Infermità"@.len() == 9);
    assert("Infermo"@.len() == 7);
    assert("Invecchiamento"@.len() == 14);
    assert("Magia"@.len() == 5);
    assert("Malattia"@.len() == 8);
    assert("Malattie"@.len() == 8);
    assert("Maledizioni"@.len() == 11);
    assert("Metamorfosi"@.len() == 11);
    assert("Nausea"@.len() == 6);
    assert("Nauseato"@.len() == 8);
    assert("Non Deformante"@.len() == 14);
    assert("Paralisi"@.len() == 8);
    assert("Paura"@.len() == 5);
    assert("Pietrificazione"@.len() == 15);
    assert("Richiamo"@.len() == 8);
    assert("Rivela Bugie"@.len() == 12);
    assert("Sanguinamento"@.len() == 13);
    assert("Sanguinamento (solo Punti Ferita)"@.len() == 33);
    assert("Scosso"@.len() == 6);
    assert("Sguardo"@.len() == 7);
    assert("Sonno"@.len() == 5);
    assert("Sonoro"@.len() == 6);
    assert("Sordità"@.len() == 7);
    assert("Spaventato"@.len() == 10);
    assert("Stordimento"@.len() == 11);
    assert("Veleni"@.len() == 6);
    assert("Veleno"@.len() == 6);
    assert("Veleno Ingerito"@.len() == 15);
    assert("acido"@.len() == 5);
    assert("attacchi basati sulla vista ed effetti visivi"@.len() == 45);
    assert("attacchi con Sguardo"@.len() == 20);
    assert("attacchi con lo Sguardo"@.len() == 23);
    assert("attacchi con lo sguardo"@.len() == 23);
    assert("charme"@.len() == 6);
    assert("compulsione"@.len() == 11);
    assert("controllo mentale"@.len() == 17);
    assert("contundente"@.len() == 11);
    assert("da caduta e da schiacciamento"@.len() == 29);
    assert("danni contundenti"@.len() == 17);
    assert("danni contundenti e perforanti"@.len() == 30);
    assert("danni da arma"@.len() == 13);
    assert("danni da armi"@.len() == 13);
    assert("danni da precisione"@.len() == 19);
    assert("danni delle armi"@.len() == 16);
    assert("danni di precisione"@.len() == 19);
    assert("danni perforanti"@.len() == 16);
    assert("danni taglienti"@.len() == 15);
    assert("danni taglienti e perforanti"@.len() == 28);
    assert("danno da arma"@.len() == 13);
    assert("danno di precisione"@.len() == 19);
    assert("di influenza mentale e basati sullo Sguardo"@.len() == 43);
    assert("divinazione"@.len() == 11);
    assert("dolore"@.len() == 6);
    assert("effetti Barcollanti"@.len() == 19);
    assert("effetti basati sulla vista"@.len() == 26);
    assert("effetti che bersagliano uno specifico numero di creature"@.len() == 56);
    assert("effetti di Charme e Compulsione"@.len() == 31);
    assert("effetti di Metamorfosi"@.len() == 22);
    assert("effetti di Paura"@.len() == 16);
    assert("effetti di Paura ed influenza mentale"@.len() == 37);
    assert("effetti di Sguardo"@.len() == 18);
    assert("effetti di Sonno"@.len() == 16);
    assert("effetti di ammaliamento"@.len() == 23);
    assert("effetti di charme"@.len() == 17);
    assert("effetti di charme e compulsione"@.len() == 31);
    assert("effetti di charme e compulsioni"@.len() == 31);
    assert("effetti di compulsione"@.len() == 22);
    assert("effetti di confusione e demenza"@.len() == 31);
    assert("effetti di demenza"@.len() == 18);
    assert("effetti di influenza mentale"@.len() == 28);
    assert("effetti di influenza mentale e visivi"@.len() == 37);
    assert("effetti di luce"@.len() == 15);
    assert("effetti di maledizione"@.len() == 22);
    assert("effetti di maledizioni"@.len() == 22);
    assert("effetti di metamorfosi"@.len() == 22);
    assert("effetti di morte"@.len() == 16);
    assert("effetti di necromanzia"@.len() == 22);
    assert("effetti di paura"@.len() == 16);
    assert("effetti di sguardo"@.len() == 18);
    assert("effetti di sonno"@.len() == 16);
    assert("effetti e illusioni visive"@.len() == 26);
    assert("effetti polimorfi"@.len() == 17);
    assert("effetti sensoriali"@.len() == 18);
    assert("effetti visivi"@.len() == 14);
    assert("effetti visivi e illusioni"@.len() == 26);
    assert("elettricità"@.len() == 11);
    assert("emozioni"@.len() == 8);
    assert("energia negativa"@.len() == 16);
    assert("ferite permanenti"@.len() == 17);
    assert("forza"@.len() == 5);
    assert("freddo"@.len() == 6);
    assert("fuoco"@.len() == 5);
    assert("illusioni"@.len() == 9);
    assert("illusioni visive"@.len() == 16);
    assert("invecchiamento"@.len() == 14);
    assert("malattia"@.len() == 8);
    assert("malattie"@.len() == 8);
    assert("maledizioni"@.len() == 11);
    assert("metamorfosi"@.len() == 11);
    assert("nausea"@.len() == 6);
    assert("paralisi"@.len() == 8);
    assert("paura"@.len() == 5);
    assert("pietrificazione"@.len() == 15);
    assert("possessione"@.len() == 11);
    assert("ruggine"@.len() == 7);
    assert("sanguinamento"@.len() == 13);
    assert("sonno"@.len() == 5);
    assert("sonoro"@.len() == 6);
    assert("sordità"@.len() == 7);
    assert("stordimento"@.len() == 11);
    assert("veleni"@.len() == 6);
    assert("veleno"@.len() == 6);
    assert("visivi ed illusori"@.len() == 18);

}

proof fn lemma_read_immunity_dimensionalanchorspell(s: Seq<char>)
    requires
        immunity_named(Immunity_Type::Immunity_DimensionalAnchorSpell, s),
    ensures
        spec_single_immunity(s) == Some(Immunity_Type::Immunity_DimensionalAnchorSpell),
{
    reveal_strlit("Abbagliamenti");
    reveal_strlit("Abbagliamento");
    reveal_strlit("Abbagliato");
    reveal_strlit("Accecato");
    reveal_strlit("Acido");
    reveal_strlit("Affaticamento");
    reveal_strlit("Affaticato");
    reveal_strlit("Ammaliamento");
    reveal_strlit("Ancora Dimensionale");
    reveal_strlit("Armi Taglienti");
    reveal_strlit("Armi contundenti");
    reveal_strlit("Assorbimento del Fuoco");
    reveal_strlit("Attacchi Furtivi");
    reveal_strlit("Attacchi ai Fianchi");
    reveal_strlit("Attacchi basati sull'olfatto");
    reveal_strlit("Attacchi basati sulla vista");
    reveal_strlit("Attacchi basati sulla vista o sguardo");
    reveal_strlit("Attacchi con Sguardo");
    reveal_strlit("Attacchi con lo sguardo");
    reveal_strlit("Attacchi dipendenti dalla vista");
    reveal_strlit("Barcollante");
    reveal_strlit("Barcollare");
    reveal_strlit("Cecità");
    reveal_strlit("Charme");
    reveal_strlit("Colpi Critici");
    reveal_strlit("Colpi critici");
    reveal_strlit("Condizione Affaticato");
    reveal_strlit("Condizione Esausto");
    reveal_strlit("Confusione");
    reveal_strlit("Congedo");
    reveal_strlit("Danni Non Letali");
    reveal_strlit("Danni contundenti");
    reveal_strlit("Danni da arma");
    reveal_strlit("Danni da armi");
    reveal_strlit("Danni dalle Armi");
    reveal_strlit("Danni perforanti e taglienti");
    reveal_strlit("Danno da Pressione");
    reveal_strlit("Danno da arma");
    reveal_strlit("Danno non letale");
    reveal_strlit("Demenza");
    reveal_strlit("Divinazione");
    reveal_strlit("Dolore");
    reveal_strlit("Effetti a completamento di incantesimo e ad attivazione di incantesimo");
    reveal_strlit("Effetti basati sulla vista");
    reveal_strlit("Effetti d'influenza mentale");
    reveal_strlit("Effetti di Charme e Compulsione");
    reveal_strlit("Effetti di Demenza");
    reveal_strlit("Effetti di Influenza Mentale");
    reveal_strlit("Effetti di Morte");
    reveal_strlit("Effetti di Paura");
    reveal_strlit("Effetti di Sonno");
    reveal_strlit("Effetti di charme");
    reveal_strlit("Effetti di charme e compulsioni");
    reveal_strlit("Effetti di confusione e follia");
    reveal_strlit("Effetti di dolore");
    reveal_strlit("Effetti di forza");
    reveal_strlit("Effetti di influenza mentale");
    reveal_strlit("Effetti di morte");
    reveal_strlit("Effetti di morte (vedi sotto)");
    reveal_strlit("Effetti di paura");
    reveal_strlit("Effetti di sonno");
    reveal_strlit("Effetti visivi");
    reveal_strlit("Elettricità");
    reveal_strlit("Elettricità (parziale)");
    reveal_strlit("Energia Negativa");
    reveal_strlit("Energia Positiva");
    reveal_strlit("Esaurimento");
    reveal_strlit("Esausto");
    reveal_strlit("Fatica");
    reveal_strlit("Fiancheggiamento");
    reveal_strlit("Forza");
    reveal_strlit("Frastornamento");
    reveal_strlit("Frastornato");
    reveal_strlit("Freddo");
    reveal_strlit("Freddo (sé stesso e chi lo cavalca)");
    reveal_strlit("Fuoco");
    reveal_strlit("Fuoco Infernale");
    reveal_strlit("Illusione");
    reveal_strlit("Illusioni e qualsiasi attacco basato sulla vista");
    reveal_strlit("Immunità agli Incantesimi");
    reveal_strlit("Immunità al Freddo");
    reveal_strlit("Immunità all'Esilio");
    reveal_strlit("Immunità alla Magia");
    reveal_strlit("Incantesimi di Ammaliamento e di Illusione");
    reveal_strlit("Individuazione dei Pensieri");
    reveal_strlit("Individuazione dell'Allineamento");
    reveal_strlit("Infermità");
    reveal_strlit("Infermo");
    reveal_strlit("Invecchiamento");
    reveal_strlit("Magia");
    reveal_strlit("Malattia");
    reveal_strlit("Malattie");
    reveal_strlit("Maledizioni");
    reveal_strlit("Metamorfosi");
    reveal_strlit("Nausea");
    reveal_strlit("Nauseato");
    reveal_strlit("Non Deformante");
    reveal_strlit("Paralisi");
    reveal_strlit("Paura");
    reveal_strlit("Pietrificazione");
    reveal_strlit("Richiamo");
    reveal_strlit("Rivela Bugie");
    reveal_strlit("Sanguinamento");
    reveal_strlit("Sanguinamento (solo Punti Ferita)");
    reveal_strlit("Scosso");
    reveal_strlit("Sguardo");
    reveal_strlit("Sonno");
    reveal_strlit("Sonoro");
    reveal_strlit("Sordità");
    reveal_strlit("Spaventato");
    reveal_strlit("Stordimento");
    reveal_strlit("Veleni");
    reveal_strlit("Veleno");
    reveal_strlit("Veleno Ingerito");
    reveal_strlit("acido");
    reveal_strlit("attacchi basati sulla vista ed effetti visivi");
    reveal_strlit("attacchi con Sguardo");
    reveal_strlit("attacchi con lo Sguardo");
    reveal_strlit("attacchi con lo sguardo");
    reveal_strlit("charme");
    reveal_strlit("compulsione");
    reveal_strlit("controllo mentale");
    reveal_strlit("contundente");
    reveal_strlit("da caduta e da schiacciamento");
    reveal_strlit("danni contundenti");
    reveal_strlit("danni contundenti e perforanti");
    reveal_strlit("danni da arma");
    reveal_strlit("danni da armi");
    reveal_strlit("danni da precisione");
    reveal_strlit("danni delle armi");
    reveal_strlit("danni di precisione");
    reveal_strlit("danni perforanti");
    reveal_strlit("danni taglienti");
    reveal_strlit("danni taglienti e perforanti");
    reveal_strlit("danno da arma");
    reveal_strlit("danno di precisione");
    reveal_strlit("di influenza mentale e basati sullo Sguardo");
    reveal_strlit("divinazione");
    reveal_strlit("dolore");
    reveal_strlit("effetti Barcollanti");
    reveal_strlit("effetti basati sulla vista");
    reveal_strlit("effetti che bersagliano uno specifico numero di creature");
    reveal_strlit("effetti di Charme e Compulsione");
    reveal_strlit("effetti di Metamorfosi");
    reveal_strlit("effetti di Paura");
    reveal_strlit("effetti di Paura ed influenza mentale");
    reveal_strlit("effetti di Sguardo");
    reveal_strlit("effetti di Sonno");
    reveal_strlit("effetti di ammaliamento");
    reveal_strlit("effetti di charme");
    reveal_strlit("effetti di charme e compulsione");
    reveal_strlit("effetti di charme e compulsioni");
    reveal_strlit("effetti di compulsione");
    reveal_strlit("effetti di confusione e demenza");
    reveal_strlit("effetti di demenza");
    reveal_strlit("effetti di influenza mentale");
    reveal_strlit("effetti di influenza mentale e visivi");
    reveal_strlit("effetti di luce");
    reveal_strlit("effetti di maledizione");
    reveal_strlit("effetti di maledizioni");
    reveal_strlit("effetti di metamorfosi");
    reveal_strlit("effetti di morte");
    reveal_strlit("effetti di necromanzia");
    reveal_strlit("effetti di paura");
    reveal_strlit("effetti di sguardo");
    reveal_strlit("effetti di sonno");
    reveal_strlit("effetti e illusioni visive");
    reveal_strlit("effetti polimorfi");
    reveal_strlit("effetti sensoriali");
    reveal_strlit("effetti visivi");
    reveal_strlit("effetti visivi e illusioni");
    reveal_strlit("elettricità");
    reveal_strlit("emozioni");
    reveal_strlit("energia negativa");
    reveal_strlit("ferite permanenti");
    reveal_strlit("forza");
    reveal_strlit("freddo");
    reveal_strlit("fuoco");
    reveal_strlit("illusioni");
    reveal_strlit("illusioni visive");
    reveal_strlit("invecchiamento");
    reveal_strlit("malattia");
    reveal_strlit("malattie");
    reveal_strlit("maledizioni");
    reveal_strlit("metamorfosi");
    reveal_strlit("nausea");
    reveal_strlit("paralisi");
    reveal_strlit("paura");
    reveal_strlit("pietrificazione");
    reveal_strlit("possessione");
    reveal_strlit("ruggine");
    reveal_strlit("sanguinamento");
    reveal_strlit("sonno");
    reveal_strlit("sonoro");
    reveal_strlit("sordità");
    reveal_strlit("stordimento");
    reveal_strlit("veleni");
    reveal_strlit("veleno");
    reveal_strlit("visivi ed illusori");
    assert("Abbagliamenti"@.len() == 13);
    assert("Abbagliamento"@.len() == 13);
    assert("Abbagliato"@.len() == 10);
    assert("Accecato"@.len() == 8);
    assert("Acido"@.len() == 5);
    assert("Affaticamento"@.len() == 13);
    assert("Affaticato"@.len() == 10);
    assert("Ammaliamento"@.len() == 12);
    assert("Ancora Dimensionale"@.len() == 19);
    assert("Armi Taglienti"@.len() == 14);
    assert("Armi contundenti"@.len() == 16);
    assert("Assorbimento del Fuoco"@.len() == 22);
    assert("Attacchi Furtivi"@.len() == 16);
    assert("Attacchi ai Fianchi"@.len() == 19);
    assert("Attacchi basati sull'olfatto"@.len() == 28);
    assert("Attacchi basati sulla vista"@.len() == 27);
    assert("Attacchi basati sulla vista o sguardo"@.len() == 37);
    assert("Attacchi con Sguardo"@.len() == 20);
    assert("Attacchi con lo sguardo"@.len() == 23);
    assert("Attacchi dipendenti dalla vista"@.len() == 31);
    assert("Barcollante"@.len() == 11);
    assert("Barcollare"@.len() == 10);
    assert("Cecità"@.len() == 6);
    assert("Charme"@.len() == 6);
    assert("Colpi Critici"@.len() == 13);
    assert("Colpi critici"@.len() == 13);
    assert("Condizione Affaticato"@.len() == 21);
    assert("Condizione Esausto"@.len() == 18);
    assert("Confusione"@.len() == 10);
    assert("Congedo"@.len() == 7);
    assert("Danni Non Letali"@.len() == 16);
    assert("Danni contundenti"@.len() == 17);
    assert("Danni da arma"@.len() == 13);
    assert("Danni da armi"@.len() == 13);
    assert("Danni dalle Armi"@.len() == 16);
    assert("Danni perforanti e taglienti"@.len() == 28);
    assert("Danno da Pressione"@.len() == 18);
    assert("Danno da arma"@.len() == 13);
    assert("Danno non letale"@.len() == 16);
    assert("Demenza"@.len() == 7);
    assert("Divinazione"@.len() == 11);
    assert("Dolore"@.len() == 6);
    assert("Effetti a completamento di incantesimo e ad attivazione di incantesimo"@.len() == 70);
    assert("Effetti basati sulla vista"@.len() == 26);
    assert("Effetti d'influenza mentale"@.len() == 27);
    assert("Effetti di Charme e Compulsione"@.len() == 31);
    assert("Effetti di Demenza"@.len() == 18);
    assert("Effetti di Influenza Mentale"@.len() == 28);
    assert("Effetti di Morte"@.len() == 16);
    assert("Effetti di Paura"@.len() == 16);
    assert("Effetti di Sonno"@.len() == 16);
    assert("Effetti di charme"@.len() == 17);
    assert("Effetti di charme e compulsioni"@.len() == 31);
    assert("Effetti di confusione e follia"@.len() == 30);
    assert("Effetti di dolore"@.len() == 17);
    assert("Effetti di forza"@.len() == 16);
    assert("Effetti di influenza mentale"@.len() == 28);
    assert("Effetti di morte"@.len() == 16);
    assert("Effetti di morte (vedi sotto)"@.len() == 29);
    assert("Effetti di paura"@.len() == 16);
    assert("Effetti di sonno"@.len() == 16);
    assert("Effetti visivi"@.len() == 14);
    assert("Elettricità"@.len() == 11);
    assert("Elettricità (parziale)"@.len() == 22);
    assert("Energia Negativa"@.len() == 16);
    assert("Energia Positiva"@.len() == 16);
    assert("Esaurimento"@.len() == 11);
    assert("Esausto"@.len() == 7);
    assert("Fatica"@.len() == 6);
    assert("Fiancheggiamento"@.len() == 16);
    assert("Forza"@.len() == 5);
    assert("Frastornamento"@.len() == 14);
    assert("Frastornato"@.len() == 11);
    assert("Freddo"@.len() == 6);
    assert("Freddo (sé stesso e chi lo cavalca)"@.len() == 35);
    assert("Fuoco"@.len() == 5);
    assert("Fuoco Infernale"@.len() == 15);
    assert("Illusione"@.len() == 9);
    assert("Illusioni e qualsiasi attacco basato sulla vista"@.len() == 48);
    assert("Immunità agli Incantesimi"@.len() == 25);
    assert("Immunità al Freddo"@.len() == 18);
    assert("Immunità all'Esilio"@.len() == 19);
    assert("Immunità alla Magia"@.len() == 19);
    assert("Incantesimi di Ammaliamento e di Illusione"@.len() == 42);
    assert("Individuazione dei Pensieri"@.len() == 27);
    assert("Individuazione dell'Allineamento"@.len() == 32);
    assert("Infermità"@.len() == 9);
    assert("Infermo"@.len() == 7);
    assert("Invecchiamento"@.len() == 14);
    assert("Magia"@.len() == 5);
    assert("Malattia"@.len() == 8);
    assert("Malattie"@.len() == 8);
    assert("Maledizioni"@.len() == 11);
    assert("Metamorfosi"@.len() == 11);
    assert("Nausea"@.len() == 6);
    assert("Nauseato"@.len() == 8);
    assert("Non Deformante"@.len() == 14);
    assert("Paralisi"@.len() == 8);
    assert("Paura"@.len() == 5);
    assert("Pietrificazione"@.len() == 15);
    assert("Richiamo"@.len() == 8);
    assert("Rivela Bugie"@.len() == 12);
    assert("Sanguinamento"@.len() == 13);
    assert("Sanguinamento (solo Punti Ferita)"@.len() == 33);
    assert("Scosso"@.len() == 6);
    assert("Sguardo"@.len() == 7);
    assert("Sonno"@.len() == 5);
    assert("Sonoro"@.len() == 6);
    assert("Sordità"@.len() == 7);
    assert("Spaventato"@.len() == 10);
    assert("Stordimento"@.len() == 11);
    assert("Veleni"@.len() == 6);
    assert("Veleno"@.len() == 6);
    assert("Veleno Ingerito"@.len() == 15);
    assert("acido"@.len() == 5);
    assert("attacchi basati sulla vista ed effetti visivi"@.len() == 45);
    assert("attacchi con Sguardo"@.len() == 20);
    assert("attacchi con lo Sguardo"@.len() == 23);
    assert("attacchi con lo sguardo"@.len() == 23);
    assert("charme"@.len() == 6);
    assert("compulsione"@.len() == 11);
    assert("controllo mentale"@.len() == 17);
    assert("contundente"@.len() == 11);
    assert("da caduta e da schiacciamento"@.len() == 29);
    assert("danni contundenti"@.len() == 17);
    assert("danni contundenti e perforanti"@.len() == 30);
    assert("danni da arma"@.len() == 13);
    assert("danni da armi"@.len() == 13);
    assert("danni da precisione"@.len() == 19);
    assert("danni delle armi"@.len() == 16);
    assert("danni di precisione"@.len() == 19);
    assert("danni perforanti"@.len() == 16);
    assert("danni taglienti"@.len() == 15);
    assert("danni taglienti e perforanti"@.len() == 28);
    assert("danno da arma"@.len() == 13);
    assert("danno di precisione"@.len() == 19);
    assert("di influenza mentale e basati sullo Sguardo"@.len() == 43);
    assert("divinazione"@.len() == 11);
    assert("dolore"@.len() == 6);
    assert("effetti Barcollanti"@.len() == 19);
    assert("effetti basati sulla vista"@.len() == 26);
    assert("effetti che bersagliano uno specifico numero di creature"@.len() == 56);
    assert("effetti di Charme e Compulsione"@.len() == 31);
    assert("effetti di Metamorfosi"@.len() == 22);
    assert("effetti di Paura"@.len() == 16);
    assert("effetti di Paura ed influenza mentale"@.len() == 37);
    assert("effetti di Sguardo"@.len() == 18);
    assert("effetti di Sonno"@.len() == 16);
    assert("effetti di ammaliamento"@.len() == 23);
    assert("effetti di charme"@.len() == 17);
    assert("effetti di charme e compulsione"@.len() == 31);
    assert("effetti di charme e compulsioni"@.len() == 31);
    assert("effetti di compulsione"@.len() == 22);
    assert("effetti di confusione e demenza"@.len() == 31);
    assert("effetti di demenza"@.len() == 18);
    assert("effetti di influenza mentale"@.len() == 28);
    assert("effetti di influenza mentale e visivi"@.len() == 37);
    assert("effetti di luce"@.len() == 15);
    assert("effetti di maledizione"@.len() == 22);
    assert("effetti di maledizioni"@.len() == 22);
    assert("effetti di metamorfosi"@.len() == 22);
    assert("effetti di morte"@.len() == 16);
    assert("effetti di necromanzia"@.len() == 22);
    assert("effetti di paura"@.len() == 16);
    assert("effetti di sguardo"@.len() == 18);
    assert("effetti di sonno"@.len() == 16);
    assert("effetti e illusioni visive"@.len() == 26);
    assert("effetti polimorfi"@.len() == 17);
    assert("effetti sensoriali"@.len() == 18);
    assert("effetti visivi"@.len() == 14);
    assert("effetti visivi e illusioni"@.len() == 26);
    assert("elettricità"@.len() == 11);
    assert("emozioni"@.len() == 8);
    assert("energia negativa"@.len() == 16);
    assert("ferite permanenti"@.len() == 17);
    assert("forza"@.len() == 5);
    assert("freddo"@.len() == 6);
    assert("fuoco"@.len() == 5);
    assert("illusioni"@.len() == 9);
    assert("illusioni visive"@.len() == 16);
    assert("invecchiamento"@.len() == 14);
    assert("malattia"@.len() == 8);
    assert("malattie"@.len() == 8);
    assert("maledizioni"@.len() == 11);
    assert("metamorfosi"@.len() == 11);
    assert("nausea"@.len() == 6);
    assert("paralisi"@.len() == 8);
    assert("paura"@.len() == 5);
    assert("pietrificazione"@.len() == 15);
    assert("possessione"@.len() == 11);
    assert("ruggine"@.len() == 7);
    assert("sanguinamento"@.len() == 13);
    assert("sonno"@.len() == 5);
    assert("sonoro"@.len() == 6);
    assert("sordità"@.len() == 7);
    assert("stordimento"@.len() == 11);
    assert("veleni"@.len() == 6);
    assert("veleno"@.len() == 6);
    assert("visivi ed illusori"@.len() == 18);
    assert("Ancora Dimensionale"@[0] != "effetti Barcollanti"@[0]);
    assert("Ancora Dimensionale"@ != "effetti Barcollanti"@);
    assert("Ancora Dimensionale"@[0] != "Immunità alla Magia"@[0]);
    assert("Ancora Dimensionale"@ != "Immunità alla Magia"@);
    assert("Ancora Dimensionale"@[0] != "danno di precisione"@[0]);
    assert("Ancora Dimensionale"@ != "danno di precisione"@);
    assert("Ancora Dimensionale"@[0] != "danni da precisione"@[0]);
    assert("Ancora Dimensionale"@ != "danni da precisione"@);
    assert("Ancora Dimensionale"@[0] != "danni di precisione"@[0]);
    assert("Ancora Dimensionale"@ != "danni di precisione"@);
    assert("Ancora Dimensionale"@[1] != "Attacchi ai Fianchi"@[1]);
    assert("Ancora Dimensionale"@ != "Attacchi ai Fianchi"@);
    assert("Ancora Dimensionale"@[0] != "Immunità all'Esilio"@[0]);
    assert("Ancora Dimensionale"@ != "Immunità all'Esilio"@);
}

proof fn lemma_read_immunity_charmemonsterspell(s: Seq<char>)
    requires
        immunity_named(Immunity_Type::Immunity_CharmeMonsterSpell, s),
    ensures
        spec_single_immunity(s) == Some(Immunity_Type::Immunity_CharmeMonsterSpell),
{
    reveal_strlit("Abbagliamenti");
    reveal_strlit("Abbagliamento");
    reveal_strlit("Abbagliato");
    reveal_strlit("Accecato");
    reveal_strlit("Acido");
    reveal_strlit("Affaticamento");
    reveal_strlit("Affaticato");
    reveal_strlit("Ammaliamento");
    reveal_strlit("Ancora Dimensionale");
    reveal_strlit("Armi Taglienti");
    reveal_strlit("Armi contundenti");
    reveal_strlit("Assorbimento del Fuoco");
    reveal_strlit("Attacchi Furtivi");
    reveal_strlit("Attacchi ai Fianchi");
    reveal_strlit("Attacchi basati sull'olfatto");
    reveal_strlit("Attacchi basati sulla vista");
    reveal_strlit("Attacchi basati sulla vista o sguardo");
    reveal_strlit("Attacchi con Sguardo");
    reveal_strlit("Attacchi con lo sguardo");
    reveal_strlit("Attacchi dipendenti dalla vista");
    reveal_strlit("Barcollante");
    reveal_strlit("Barcollare");
    reveal_strlit("Cecità");
    reveal_strlit("Charme");
    reveal_strlit("Colpi Critici");
    reveal_strlit("Colpi critici");
    reveal_strlit("Condizione Affaticato");
    reveal_strlit("Condizione Esausto");
    reveal_strlit("Confusione");
    reveal_strlit("Congedo");
    reveal_strlit("Danni Non Letali");
    reveal_strlit("Danni contundenti");
    reveal_strlit("Danni da arma");
    reveal_strlit("Danni da armi");
    reveal_strlit("Danni dalle Armi");
    reveal_strlit("Danni perforanti e taglienti");
    reveal_strlit("Danno da Pressione");
    reveal_strlit("Danno da arma");
    reveal_strlit("Danno non letale");
    reveal_strlit("Demenza");
    reveal_strlit("Divinazione");
    reveal_strlit("Dolore");
    reveal_strlit("Effetti a completamento di incantesimo e ad attivazione di incantesimo");
    reveal_strlit("Effetti basati sulla vista");
    reveal_strlit("Effetti d'influenza mentale");
    reveal_strlit("Effetti di Charme e Compulsione");
    reveal_strlit("Effetti di Demenza");
    reveal_strlit("Effetti di Influenza Mentale");
    reveal_strlit("Effetti di Morte");
    reveal_strlit("Effetti di Paura");
    reveal_strlit("Effetti di Sonno");
    reveal_strlit("Effetti di charme");
    reveal_strlit("Effetti di charme e compulsioni");
    reveal_strlit("Effetti di confusione e follia");
    reveal_strlit("Effetti di dolore");
    reveal_strlit("Effetti di forza");
    reveal_strlit("Effetti di influenza mentale");
    reveal_strlit("Effetti di morte");
    reveal_strlit("Effetti di morte (vedi sotto)");
    reveal_strlit("Effetti di paura");
    reveal_strlit("Effetti di sonno");
    reveal_strlit("Effetti visivi");
    reveal_strlit("Elettricità");
    reveal_strlit("Elettricità (parziale)");
    reveal_strlit("Energia Negativa");
    reveal_strlit("Energia Positiva");
    reveal_strlit("Esaurimento");
    reveal_strlit("Esausto");
    reveal_strlit("Fatica");
    reveal_strlit("Fiancheggiamento");
    reveal_strlit("Forza");
    reveal_strlit("Frastornamento");
    reveal_strlit("Frastornato");
    reveal_strlit("Freddo");
    reveal_strlit("Freddo (sé stesso e chi lo cavalca)");
    reveal_strlit("Fuoco");
    reveal_strlit("Fuoco Infernale");
    reveal_strlit("Illusione");
    reveal_strlit("Illusioni e qualsiasi attacco basato sulla vista");
    reveal_strlit("Immunità agli Incantesimi");
    reveal_strlit("Immunità al Freddo");
    reveal_strlit("Immunità all'Esilio");
    reveal_strlit("Immunità alla Magia");
    reveal_strlit("Incantesimi di Ammaliamento e di Illusione");
    reveal_strlit("Individuazione dei Pensieri");
    reveal_strlit("Individuazione dell'Allineamento");
    reveal_strlit("Infermità");
    reveal_strlit("Infermo");
    reveal_strlit("Invecchiamento");
    reveal_strlit("Magia");
    reveal_strlit("Malattia");
    reveal_strlit("Malattie");
    reveal_strlit("Maledizioni");
    reveal_strlit("Metamorfosi");
    reveal_strlit("Nausea");
    reveal_strlit("Nauseato");
    reveal_strlit("Non Deformante");
    reveal_strlit("Paralisi");
    reveal_strlit("Paura");
    reveal_strlit("Pietrificazione");
    reveal_strlit("Richiamo");
    reveal_strlit("Rivela Bugie");
    reveal_strlit("Sanguinamento");
    reveal_strlit("Sanguinamento (solo Punti Ferita)");
    reveal_strlit("Scosso");
    reveal_strlit("Sguardo");
    reveal_strlit("Sonno");
    reveal_strlit("Sonoro");
    reveal_strlit("Sordità");
    reveal_strlit("Spaventato");
    reveal_strlit("Stordimento");
    reveal_strlit("Veleni");
    reveal_strlit("Veleno");
    reveal_strlit("Veleno Ingerito");
    reveal_strlit("acido");
    reveal_strlit("attacchi basati sulla vista ed effetti visivi");
    reveal_strlit("attacchi con Sguardo");
    reveal_strlit("attacchi con lo Sguardo");
    reveal_strlit("attacchi con lo sguardo");
    reveal_strlit("charme");
    reveal_strlit("charme sui mostri");
    reveal_strlit("compulsione");
    reveal_strlit("controllo mentale");
    reveal_strlit("contundente");
    reveal_strlit("da caduta e da schiacciamento");
    reveal_strlit("danni contundenti");
    reveal_strlit("danni contundenti e perforanti");
    reveal_strlit("danni da arma");
    reveal_strlit("danni da armi");
    reveal_strlit("danni da precisione");
    reveal_strlit("danni delle armi");
    reveal_strlit("danni di precisione");
    reveal_strlit("danni perforanti");
    reveal_strlit("danni taglienti");
    reveal_strlit("danni taglienti e perforanti");
    reveal_strlit("danno da arma");
    reveal_strlit("danno di precisione");
    reveal_strlit("di influenza mentale e basati sullo Sguardo");
    reveal_strlit("divinazione");
    reveal_strlit("dolore");
    reveal_strlit("effetti Barcollanti");
    reveal_strlit("effetti basati sulla vista");
    reveal_strlit("effetti che bersagliano uno specifico numero di creature");
    reveal_strlit("effetti di Charme e Compulsione");
    reveal_strlit("effetti di Metamorfosi");
    reveal_strlit("effetti di Paura");
    reveal_strlit("effetti di Paura ed influenza mentale");
    reveal_strlit("effetti di Sguardo");
    reveal_strlit("effetti di Sonno");
    reveal_strlit("effetti di ammaliamento");
    reveal_strlit("effetti di charme");
    reveal_strlit("effetti di charme e compulsione");
    reveal_strlit("effetti di charme e compulsioni");
    reveal_strlit("effetti di compulsione");
    reveal_strlit("effetti di confusione e demenza");
    reveal_strlit("effetti di demenza");
    reveal_strlit("effetti di influenza mentale");
    reveal_strlit("effetti di influenza mentale e visivi");
    reveal_strlit("effetti di luce");
    reveal_strlit("effetti di maledizione");
    reveal_strlit("effetti di maledizioni");
    reveal_strlit("effetti di metamorfosi");
    reveal_strlit("effetti di morte");
    reveal_strlit("effetti di necromanzia");
    reveal_strlit("effetti di paura");
    reveal_strlit("effetti di sguardo");
    reveal_strlit("effetti di sonno");
    reveal_strlit("effetti e illusioni visive");
    reveal_strlit("effetti polimorfi");
    reveal_strlit("effetti sensoriali");
    reveal_strlit("effetti visivi");
    reveal_strlit("effetti visivi e illusioni");
    reveal_strlit("elettricità");
    reveal_strlit("emozioni");
    reveal_strlit("energia negativa");
    reveal_strlit("ferite permanenti");
    reveal_strlit("forza");
    reveal_strlit("freddo");
    reveal_strlit("fuoco");
    reveal_strlit("illusioni");
    reveal_strlit("illusioni visive");
    reveal_strlit("invecchiamento");
    reveal_strlit("malattia");
    reveal_strlit("malattie");
    reveal_strlit("maledizioni");
    reveal_strlit("metamorfosi");
    reveal_strlit("nausea");
    reveal_strlit("paralisi");
    reveal_strlit("paura");
    reveal_strlit("pietrificazione");
    reveal_strlit("possessione");
    reveal_strlit("ruggine");
    reveal_strlit("sanguinamento");
    reveal_strlit("sonno");
    reveal_strlit("sonoro");
    reveal_strlit("sordità");
    reveal_strlit("stordimento");
    reveal_strlit("veleni");
    reveal_strlit("veleno");
    reveal_strlit("visivi ed illusori");
    assert("Abbagliamenti"@.len() == 13);
    assert("Abbagliamento"@.len() == 13);
    assert("Abbagliato"@.len() == 10);
    assert("Accecato"@.len() == 8);
    assert("Acido"@.len() == 5);
    assert("Affaticamento"@.len() == 13);
    assert("Affaticato"@.len() == 10);
    assert("Ammaliamento"@.len() == 12);
    assert("Ancora Dimensionale"@.len() == 19);
    assert("Armi Taglienti"@.len() == 14);
    assert("Armi contundenti"@.len() == 16);
    assert("Assorbimento del Fuoco"@.len() == 22);
    assert("Attacchi Furtivi"@.len() == 16);
    assert("Attacchi ai Fianchi"@.len() == 19);
    assert("Attacchi basati sull'olfatto"@.len() == 28);
    assert("Attacchi basati sulla vista"@.len() == 27);
    assert("Attacchi basati sulla vista o sguardo"@.len() == 37);
    assert("Attacchi con Sguardo"@.len() == 20);
    assert("Attacchi con lo sguardo"@.len() == 23);
    assert("Attacchi dipendenti dalla vista"@.len() == 31);
    assert("Barcollante"@.len() == 11);
    assert("Barcollare"@.len() == 10);
    assert("Cecità"@.len() == 6);
    assert("Charme"@.len() == 6);
    assert("Colpi Critici"@.len() == 13);
    assert("Colpi critici"@.len() == 13);
    assert("Condizione Affaticato"@.len() == 21);
    assert("Condizione Esausto"@.len() == 18);
    assert("Confusione"@.len() == 10);
    assert("Congedo"@.len() == 7);
    assert("Danni Non Letali"@.len() == 16);
    assert("Danni contundenti"@.len() == 17);
    assert("Danni da arma"@.len() == 13);
    assert("Danni da armi"@.len() == 13);
    assert("Danni dalle Armi"@.len() == 16);
    assert("Danni perforanti e taglienti"@.len() == 28);
    assert("Danno da Pressione"@.len() == 18);
    assert("Danno da arma"@.len() == 13);
    assert("Danno non letale"@.len() == 16);
    assert("Demenza"@.len() == 7);
    assert("Divinazione"@.len() == 11);
    assert("Dolore"@.len() == 6);
    assert("Effetti a completamento di incantesimo e ad attivazione di incantesimo"@.len() == 70);
    assert("Effetti basati sulla vista"@.len() == 26);
    assert("Effetti d'influenza mentale"@.len() == 27);
    assert("Effetti di Charme e Compulsione"@.len() == 31);
    assert("Effetti di Demenza"@.len() == 18);
    assert("Effetti di Influenza Mentale"@.len() == 28);
    assert("Effetti di Morte"@.len() == 16);
    assert("Effetti di Paura"@.len() == 16);
    assert("Effetti di Sonno"@.len() == 16);
    assert("Effetti di charme"@.len() == 17);
    assert("Effetti di charme e compulsioni"@.len() == 31);
    assert("Effetti di confusione e follia"@.len() == 30);
    assert("Effetti di dolore"@.len() == 17);
    assert("Effetti di forza"@.len() == 16);
    assert("Effetti di influenza mentale"@.len() == 28);
    assert("Effetti di morte"@.len() == 16);
    assert("Effetti di morte (vedi sotto)"@.len() == 29);
    assert("Effetti di paura"@.len() == 16);
    assert("Effetti di sonno"@.len() == 16);
    assert("Effetti visivi"@.len() == 14);
    assert("Elettricità"@.len() == 11);
    assert("Elettricità (parziale)"@.len() == 22);
    assert("Energia Negativa"@.len() == 16);
    assert("Energia Positiva"@.len() == 16);
    assert("Esaurimento"@.len() == 11);
    assert("Esausto"@.len() == 7);
    assert("Fatica"@.len() == 6);
    assert("Fiancheggiamento"@.len() == 16);
    assert("Forza"@.len() == 5);
    assert("Frastornamento"@.len() == 14);
    assert("Frastornato"@.len() == 11);
    assert("Freddo"@.len() == 6);
    assert("Freddo (sé stesso e chi lo cavalca)"@.len() == 35);
    assert("Fuoco"@.len() == 5);
    assert("Fuoco Infernale"@.len() == 15);
    assert("Illusione"@.len() == 9);
    assert("Illusioni e qualsiasi attacco basato sulla vista"@.len() == 48);
    assert("Immunità agli Incantesimi"@.len() == 25);
    assert("Immunità al Freddo"@.len() == 18);
    assert("Immunità all'Esilio"@.len() == 19);
    assert("Immunità alla Magia"@.len() == 19);
    assert("Incantesimi di Ammaliamento e di Illusione"@.len() == 42);
    assert("Individuazione dei Pensieri"@.len() == 27);
    assert("Individuazione dell'Allineamento"@.len() == 32);
    assert("Infermità"@.len() == 9);
    assert("Infermo"@.len() == 7);
    assert("Invecchiamento"@.len() == 14);
    assert("Magia"@.len() == 5);
    assert("Malattia"@.len() == 8);
    assert("Malattie"@.len() == 8);
    assert("Maledizioni"@.len() == 11);
    assert("Metamorfosi"@.len() == 11);
    assert("Nausea"@.len() == 6);
    assert("Nauseato"@.len() == 8);
    assert("Non Deformante"@.len() == 14);
    assert("Paralisi"@.len() == 8);
    assert("Paura"@.len() == 5);
    assert("Pietrificazione"@.len() == 15);
    assert("Richiamo"@.len() == 8);
    assert("Rivela Bugie"@.len() == 12);
    assert("Sanguinamento"@.len() == 13);
    assert("Sanguinamento (solo Punti Ferita)"@.len() == 33);
    assert("Scosso"@.len() == 6);
    assert("Sguardo"@.len() == 7);
    assert("Sonno"@.len() == 5);
    assert("Sonoro"@.len() == 6);
    assert("Sordità"@.len() == 7);
    assert("Spaventato"@.len() == 10);
    assert("Stordimento"@.len() == 11);
    assert("Veleni"@.len() == 6);
    assert("Veleno"@.len() == 6);
    assert("Veleno Ingerito"@.len() == 15);
    assert("acido"@.len() == 5);
    assert("attacchi basati sulla vista ed effetti visivi"@.len() == 45);
    assert("attacchi con Sguardo"@.len() == 20);
    assert("attacchi con lo Sguardo"@.len() == 23);
    assert("attacchi con lo sguardo"@.len() == 23);
    assert("charme"@.len() == 6);
    assert("charme sui mostri"@.len() == 17);
    assert("compulsione"@.len() == 11);
    assert("controllo mentale"@.len() == 17);
    assert("contundente"@.len() == 11);
    assert("da caduta e da schiacciamento"@.len() == 29);
    assert("danni contundenti"@.len() == 17);
    assert("danni contundenti e perforanti"@.len() == 30);
    assert("danni da arma"@.len() == 13);
    assert("danni da armi"@.len() == 13);
    assert("danni da precisione"@.len() == 19);
    assert("danni delle armi"@.len() == 16);
    assert("danni di precisione"@.len() == 19);
    assert("danni perforanti"@.len() == 16);
    assert("danni taglienti"@.len() == 15);
    assert("danni taglienti e perforanti"@.len() == 28);
    assert("danno da arma"@.len() == 13);
    assert("danno di precisione"@.len() == 19);
    assert("di influenza mentale e basati sullo Sguardo"@.len() == 43);
    assert("divinazione"@.len() == 11);
    assert("dolore"@.len() == 6);
    assert("effetti Barcollanti"@.len() == 19);
    assert("effetti basati sulla vista"@.len() == 26);
    assert("effetti che bersagliano uno specifico numero di creature"@.len() == 56);
    assert("effetti di Charme e Compulsione"@.len() == 31);
    assert("effetti di Metamorfosi"@.len() == 22);
    assert("effetti di Paura"@.len() == 16);
    assert("effetti di Paura ed influenza mentale"@.len() == 37);
    assert("effetti di Sguardo"@.len() == 18);
    assert("effetti di Sonno"@.len() == 16);
    assert("effetti di ammaliamento"@.len() == 23);
    assert("effetti di charme"@.len() == 17);
    assert("effetti di charme e compulsione"@.len() == 31);
    assert("effetti di charme e compulsioni"@.len() == 31);
    assert("effetti di compulsione"@.len() == 22);
    assert("effetti di confusione e demenza"@.len() == 31);
    assert("effetti di demenza"@.len() == 18);
    assert("effetti di influenza mentale"@.len() == 28);
    assert("effetti di influenza mentale e visivi"@.len() == 37);
    assert("effetti di luce"@.len() == 15);
    assert("effetti di maledizione"@.len() == 22);
    assert("effetti di maledizioni"@.len() == 22);
    assert("effetti di metamorfosi"@.len() == 22);
    assert("effetti di morte"@.len() == 16);
    assert("effetti di necromanzia"@.len() == 22);
    assert("effetti di paura"@.len() == 16);
    assert("effetti di sguardo"@.len() == 18);
    assert("effetti di sonno"@.len() == 16);
    assert("effetti e illusioni visive"@.len() == 26);
    assert("effetti polimorfi"@.len() == 17);
    assert("effetti sensoriali"@.len() == 18);
    assert("effetti visivi"@.len() == 14);
    assert("effetti visivi e illusioni"@.len() == 26);
    assert("elettricità"@.len() == 11);
    assert("emozioni"@.len() == 8);
    assert("energia negativa"@.len() == 16);
    assert("ferite permanenti"@.len() == 17);
    assert("forza"@.len() == 5);
    assert("freddo"@.len() == 6);
    assert("fuoco"@.len() == 5);
    assert("illusioni"@.len() == 9);
    assert("illusioni visive"@.len() == 16);
    assert("invecchiamento"@.len() == 14);
    assert("malattia"@.len() == 8);
    assert("malattie"@.len() == 8);
    assert("maledizioni"@.len() == 11);
    assert("metamorfosi"@.len() == 11);
    assert("nausea"@.len() == 6);
    assert("paralisi"@.len() == 8);
    assert("paura"@.len() == 5);
    assert("pietrificazione"@.len() == 15);
    assert("possessione"@.len() == 11);
    assert("ruggine"@.len() == 7);
    assert("sanguinamento"@.len() == 13);
    assert("sonno"@.len() == 5);
    assert("sonoro"@.len() == 6);
    assert("sordità"@.len() == 7);
    assert("stordimento"@.len() == 11);
    assert("veleni"@.len() == 6);
    assert("veleno"@.len() == 6);
    assert("visivi ed illusori"@.len() == 18);
    assert("charme sui mostri"@[0] != "Danni contundenti"@[0]);
    assert("charme sui mostri"@ != "Danni contundenti"@);
    assert("charme sui mostri"@[0] != "danni contundenti"@[0]);
    assert("charme sui mostri"@ != "danni contundenti"@);
    assert("charme sui mostri"@[0] != "ferite permanenti"@[0]);
    assert("charme sui mostri"@ != "ferite permanenti"@);
    assert("charme sui mostri"@[1] != "controllo mentale"@[1]);
    assert("charme sui mostri"@ != "controllo mentale"@);
    assert("charme sui mostri"@[0] != "Effetti di charme"@[0]);
    assert("charme sui mostri"@ != "Effetti di charme"@);
    assert("charme sui mostri"@[0] != "effetti di charme"@[0]);
    assert("charme sui mostri"@ != "effetti di charme"@);
    assert("charme sui mostri"@[0] != "effetti polimorfi"@[0]);
    assert("charme sui mostri"@ != "effetti polimorfi"@);
    assert("charme sui mostri"@[0] != "Effetti di dolore"@[0]);
    assert("charme sui mostri"@ != "Effetti di dolore"@);
}

proof fn lemma_read_immunity_lightningboltspell(s: Seq<char>)
    requires
        immunity_named(Immunity_Type::Immunity_LightningBoltSpell, s),
    ensures
        spec_single_immunity(s) == Some(Immunity_Type::Immunity_LightningBoltSpell),
{
    reveal_strlit("Abbagliamenti");
    reveal_strlit("Abbagliamento");
    reveal_strlit("Abbagliato");
    reveal_strlit("Accecato");
    reveal_strlit("Acido");
    reveal_strlit("Affaticamento");
    reveal_strlit("Affaticato");
    reveal_strlit("Ammaliamento");
    reveal_strlit("Ancora Dimensionale");
    reveal_strlit("Armi Taglienti");
    reveal_strlit("Armi contundenti");
    reveal_strlit("Assorbimento del Fuoco");
    reveal_strlit("Attacchi Furtivi");
    reveal_strlit("Attacchi ai Fianchi");
    reveal_strlit("Attacchi basati sull'olfatto");
    reveal_strlit("Attacchi basati sulla vista");
    reveal_strlit("Attacchi basati sulla vista o sguardo");
    reveal_strlit("Attacchi con Sguardo");
    reveal_strlit("Attacchi con lo sguardo");
    reveal_strlit("Attacchi dipendenti dalla vista");
    reveal_strlit("Barcollante");
    reveal_strlit("Barcollare");
    reveal_strlit("Cecità");
    reveal_strlit("Charme");
    reveal_strlit("Colpi Critici");
    reveal_strlit("Colpi critici");
    reveal_strlit("Condizione Affaticato");
    reveal_strlit("Condizione Esausto");
    reveal_strlit("Confusione");
    reveal_strlit("Congedo");
    reveal_strlit("Danni Non Letali");
    reveal_strlit("Danni contundenti");
    reveal_strlit("Danni da arma");
    reveal_strlit("Danni da armi");
    reveal_strlit("Danni dalle Armi");
    reveal_strlit("Danni perforanti e taglienti");
    reveal_strlit("Danno da Pressione");
    reveal_strlit("Danno da arma");
    reveal_strlit("Danno non letale");
    reveal_strlit("Demenza");
    reveal_strlit("Divinazione");
    reveal_strlit("Dolore");
    reveal_strlit("Effetti a completamento di incantesimo e ad attivazione di incantesimo");
    reveal_strlit("Effetti basati sulla vista");
    reveal_strlit("Effetti d'influenza mentale");
    reveal_strlit("Effetti di Charme e Compulsione");
    reveal_strlit("Effetti di Demenza");
    reveal_strlit("Effetti di Influenza Mentale");
    reveal_strlit("Effetti di Morte");
    reveal_strlit("Effetti di Paura");
    reveal_strlit("Effetti di Sonno");
    reveal_strlit("Effetti di charme");
    reveal_strlit("Effetti di charme e compulsioni");
    reveal_strlit("Effetti di confusione e follia");
    reveal_strlit("Effetti di dolore");
    reveal_strlit("Effetti di forza");
    reveal_strlit("Effetti di influenza mentale");
    reveal_strlit("Effetti di morte");
    reveal_strlit("Effetti di morte (vedi sotto)");
    reveal_strlit("Effetti di paura");
    reveal_strlit("Effetti di sonno");
    reveal_strlit("Effetti visivi");
    reveal_strlit("Elettricità");
    reveal_strlit("Elettricità (parziale)");
    reveal_strlit("Energia Negativa");
    reveal_strlit("Energia Positiva");
    reveal_strlit("Esaurimento");
    reveal_strlit("Esausto");
    reveal_strlit("Fatica");
    reveal_strlit("Fiancheggiamento");
    reveal_strlit("Forza");
    reveal_strlit("Frastornamento");
    reveal_strlit("Frastornato");
    reveal_strlit("Freddo");
    reveal_strlit("Freddo (sé stesso e chi lo cavalca)");
    reveal_strlit("Fuoco");
    reveal_strlit("Fuoco Infernale");
    reveal_strlit("Illusione");
    reveal_strlit("Illusioni e qualsiasi attacco basato sulla vista");
    reveal_strlit("Immunità agli Incantesimi");
    reveal_strlit("Immunità al Freddo");
    reveal_strlit("Immunità all'Esilio");
    reveal_strlit("Immunità alla Magia");
    reveal_strlit("Incantesimi di Ammaliamento e di Illusione");
    reveal_strlit("Individuazione dei Pensieri");
    reveal_strlit("Individuazione dell'Allineamento");
    reveal_strlit("Infermità");
    reveal_strlit("Infermo");
    reveal_strlit("Invecchiamento");
    reveal_strlit("Magia");
    reveal_strlit("Malattia");
    reveal_strlit("Malattie");
    reveal_strlit("Maledizioni");
    reveal_strlit("Metamorfosi");
    reveal_strlit("Nausea");
    reveal_strlit("Nauseato");
    reveal_strlit("Non Deformante");
    reveal_strlit("Paralisi");
    reveal_strlit("Paura");
    reveal_strlit("Pietrificazione");
    reveal_strlit("Richiamo");
    reveal_strlit("Rivela Bugie");
    reveal_strlit("Sanguinamento");
    reveal_strlit("Sanguinamento (solo Punti Ferita)");
    reveal_strlit("Scosso");
    reveal_strlit("Sguardo");
    reveal_strlit("Sonno");
    reveal_strlit("Sonoro");
    reveal_strlit("Sordità");
    reveal_strlit("Spaventato");
    reveal_strlit("Stordimento");
    reveal_strlit("Veleni");
    reveal_strlit("Veleno");
    reveal_strlit("Veleno Ingerito");
    reveal_strlit("acido");
    reveal_strlit("attacchi basati sulla vista ed effetti visivi");
    reveal_strlit("attacchi con Sguardo");
    reveal_strlit("attacchi con lo Sguardo");
    reveal_strlit("attacchi con lo sguardo");
    reveal_strlit("charme");
    reveal_strlit("charme sui mostri");
    reveal_strlit("compulsione");
    reveal_strlit("controllo mentale");
    reveal_strlit("contundente");
    reveal_strlit("da caduta e da schiacciamento");
    reveal_strlit("danni contundenti");
    reveal_strlit("danni contundenti e perforanti");
    reveal_strlit("danni da arma");
    reveal_strlit("danni da armi");
    reveal_strlit("danni da precisione");
    reveal_strlit("danni delle armi");
    reveal_strlit("danni di precisione");
    reveal_strlit("danni perforanti");
    reveal_strlit("danni taglienti");
    reveal_strlit("danni taglienti e perforanti");
    reveal_strlit("danno da arma");
    reveal_strlit("danno di precisione");
    reveal_strlit("di influenza mentale e basati sullo Sguardo");
    reveal_strlit("divinazione");
    reveal_strlit("dolore");
    reveal_strlit("effetti Barcollanti");
    reveal_strlit("effetti basati sulla vista");
    reveal_strlit("effetti che bersagliano uno specifico numero di creature");
    reveal_strlit("effetti di Charme e Compulsione");
    reveal_strlit("effetti di Metamorfosi");
    reveal_strlit("effetti di Paura");
    reveal_strlit("effetti di Paura ed influenza mentale");
    reveal_strlit("effetti di Sguardo");
    reveal_strlit("effetti di Sonno");
    reveal_strlit("effetti di ammaliamento");
    reveal_strlit("effetti di charme");
    reveal_strlit("effetti di charme e compulsione");
    reveal_strlit("effetti di charme e compulsioni");
    reveal_strlit("effetti di compulsione");
    reveal_strlit("effetti di confusione e demenza");
    reveal_strlit("effetti di demenza");
    reveal_strlit("effetti di influenza mentale");
    reveal_strlit("effetti di influenza mentale e visivi");
    reveal_strlit("effetti di luce");
    reveal_strlit("effetti di maledizione");
    reveal_strlit("effetti di maledizioni");
    reveal_strlit("effetti di metamorfosi");
    reveal_strlit("effetti di morte");
    reveal_strlit("effetti di necromanzia");
    reveal_strlit("effetti di paura");
    reveal_strlit("effetti di sguardo");
    reveal_strlit("effetti di sonno");
    reveal_strlit("effetti e illusioni visive");
    reveal_strlit("effetti polimorfi");
    reveal_strlit("effetti sensoriali");
    reveal_strlit("effetti visivi");
    reveal_strlit("effetti visivi e illusioni");
    reveal_strlit("elettricità");
    reveal_strlit("emozioni");
    reveal_strlit("energia negativa");
    reveal_strlit("ferite permanenti");
    reveal_strlit("forza");
    reveal_strlit("freddo");
    reveal_strlit("fulmine");
    reveal_strlit("fuoco");
    reveal_strlit("illusioni");
    reveal_strlit("illusioni visive");
    reveal_strlit("invecchiamento");
    reveal_strlit("malattia");
    reveal_strlit("malattie");
    reveal_strlit("maledizioni");
    reveal_strlit("metamorfosi");
    reveal_strlit("nausea");
    reveal_strlit("paralisi");
    reveal_strlit("paura");
    reveal_strlit("pietrificazione");
    reveal_strlit("possessione");
    reveal_strlit("ruggine");
    reveal_strlit("sanguinamento");
    reveal_strlit("sonno");
    reveal_strlit("sonoro");
    reveal_strlit("sordità");
    reveal_strlit("stordimento");
    reveal_strlit("veleni");
    reveal_strlit("veleno");
    reveal_strlit("visivi ed illusori");
    assert("Abbagliamenti"@.len() == 13);
    assert("Abbagliamento"@.len() == 13);
    assert("Abbagliato"@.len() == 10);
    assert("Accecato"@.len() == 8);
    assert("Acido"@.len() == 5);
    assert("Affaticamento"@.len() == 13);
    assert("Affaticato"@.len() == 10);
    assert("Ammaliamento"@.len() == 12);
    assert("Ancora Dimensionale"@.len() == 19);
    assert("Armi Taglienti"@.len() == 14);
    assert("Armi contundenti"@.len() == 16);
    assert("Assorbimento del Fuoco"@.len() == 22);
    assert("Attacchi Furtivi"@.len() == 16);
    assert("Attacchi ai Fianchi"@.len() == 19);
    assert("Attacchi basati sull'olfatto"@.len() == 28);
    assert("Attacchi basati sulla vista"@.len() == 27);
    assert("Attacchi basati sulla vista o sguardo"@.len() == 37);
    assert("Attacchi con Sguardo"@.len() == 20);
    assert("Attacchi con lo sguardo"@.len() == 23);
    assert("Attacchi dipendenti dalla vista"@.len() == 31);
    assert("Barcollante"@.len() == 11);
    assert("Barcollare"@.len() == 10);
    assert("Cecità"@.len() == 6);
    assert("Charme"@.len() == 6);
    assert("Colpi Critici"@.len() == 13);
    assert("Colpi critici"@.len() == 13);
    assert("Condizione Affaticato"@.len() == 21);
    assert("Condizione Esausto"@.len() == 18);
    assert("Confusione"@.len() == 10);
    assert("Congedo"@.len() == 7);
    assert("Danni Non Letali"@.len() == 16);
    assert("Danni contundenti"@.len() == 17);
    assert("Danni da arma"@.len() == 13);
    assert("Danni da armi"@.len() == 13);
    assert("Danni dalle Armi"@.len() == 16);
    assert("Danni perforanti e taglienti"@.len() == 28);
    assert("Danno da Pressione"@.len() == 18);
    assert("Danno da arma"@.len() == 13);
    assert("Danno non letale"@.len() == 16);
    assert("Demenza"@.len() == 7);
    assert("Divinazione"@.len() == 11);
    assert("Dolore"@.len() == 6);
    assert("Effetti a completamento di incantesimo e ad attivazione di incantesimo"@.len() == 70);
    assert("Effetti basati sulla vista"@.len() == 26);
    assert("Effetti d'influenza mentale"@.len() == 27);
    assert("Effetti di Charme e Compulsione"@.len() == 31);
    assert("Effetti di Demenza"@.len() == 18);
    assert("Effetti di Influenza Mentale"@.len() == 28);
    assert("Effetti di Morte"@.len() == 16);
    assert("Effetti di Paura"@.len() == 16);
    assert("Effetti di Sonno"@.len() == 16);
    assert("Effetti di charme"@.len() == 17);
    assert("Effetti di charme e compulsioni"@.len() == 31);
    assert("Effetti di confusione e follia"@.len() == 30);
    assert("Effetti di dolore"@.len() == 17);
    assert("Effetti di forza"@.len() == 16);
    assert("Effetti di influenza mentale"@.len() == 28);
    assert("Effetti di morte"@.len() == 16);
    assert("Effetti di morte (vedi sotto)"@.len() == 29);
    assert("Effetti di paura"@.len() == 16);
    assert("Effetti di sonno"@.len() == 16);
    assert("Effetti visivi"@.len() == 14);
    assert("Elettricità"@.len() == 11);
    assert("Elettricità (parziale)"@.len() == 22);
    assert("Energia Negativa"@.len() == 16);
    assert("Energia Positiva"@.len() == 16);
    assert("Esaurimento"@.len() == 11);
    assert("Esausto"@.len() == 7);
    assert("Fatica"@.len() == 6);
    assert("Fiancheggiamento"@.len() == 16);
    assert("Forza"@.len() == 5);
    assert("Frastornamento"@.len() == 14);
    assert("Frastornato"@.len() == 11);
    assert("Freddo"@.len() == 6);
    assert("Freddo (sé stesso e chi lo cavalca)"@.len() == 35);
    assert("Fuoco"@.len() == 5);
    assert("Fuoco Infernale"@.len() == 15);
    assert("Illusione"@.len() == 9);
    assert("Illusioni e qualsiasi attacco basato sulla vista"@.len() == 48);
    assert("Immunità agli Incantesimi"@.len() == 25);
    assert("Immunità al Freddo"@.len() == 18);
    assert("Immunità all'Esilio"@.len() == 19);
    assert("Immunità alla Magia"@.len() == 19);
    assert("Incantesimi di Ammaliamento e di Illusione"@.len() == 42);
    assert("Individuazione dei Pensieri"@.len() == 27);
    assert("Individuazione dell'Allineamento"@.len() == 32);
    assert("Infermità"@.len() == 9);
    assert("Infermo"@.len() == 7);
    assert("Invecchiamento"@.len() == 14);
    assert("Magia"@.len() == 5);
    assert("Malattia"@.len() == 8);
    assert("Malattie"@.len() == 8);
    assert("Maledizioni"@.len() == 11);
    assert("Metamorfosi"@.len() == 11);
    assert("Nausea"@.len() == 6);
    assert("Nauseato"@.len() == 8);
    assert("Non Deformante"@.len() == 14);
    assert("Paralisi"@.len() == 8);
    assert("Paura"@.len() == 5);
    assert("Pietrificazione"@.len() == 15);
    assert("Richiamo"@.len() == 8);
    assert("Rivela Bugie"@.len() == 12);
    assert("Sanguinamento"@.len() == 13);
    assert("Sanguinamento (solo Punti Ferita)"@.len() == 33);
    assert("Scosso"@.len() == 6);
    assert("Sguardo"@.len() == 7);
    assert("Sonno"@.len() == 5);
    assert("Sonoro"@.len() == 6);
    assert("Sordità"@.len() == 7);
    assert("Spaventato"@.len() == 10);
    assert("Stordimento"@.len() == 11);
    assert("Veleni"@.len() == 6);
    assert("Veleno"@.len() == 6);
    assert("Veleno Ingerito"@.len() == 15);
    assert("acido"@.len() == 5);
    assert("attacchi basati sulla vista ed effetti visivi"@.len() == 45);
    assert("attacchi con Sguardo"@.len() == 20);
    assert("attacchi con lo Sguardo"@.len() == 23);
    assert("attacchi con lo sguardo"@.len() == 23);
    assert("charme"@.len() == 6);
    assert("charme sui mostri"@.len() == 17);
    assert("compulsione"@.len() == 11);
    assert("controllo mentale"@.len() == 17);
    assert("contundente"@.len() == 11);
    assert("da caduta e da schiacciamento"@.len() == 29);
    assert("danni contundenti"@.len() == 17);
    assert("danni contundenti e perforanti"@.len() == 30);
    assert("danni da arma"@.len() == 13);
    assert("danni da armi"@.len() == 13);
    assert("danni da precisione"@.len() == 19);
    assert("danni delle armi"@.len() == 16);
    assert("danni di precisione"@.len() == 19);
    assert("danni perforanti"@.len() == 16);
    assert("danni taglienti"@.len() == 15);
    assert("danni taglienti e perforanti"@.len() == 28);
    assert("danno da arma"@.len() == 13);
    assert("danno di precisione"@.len() == 19);
    assert("di influenza mentale e basati sullo Sguardo"@.len() == 43);
    assert("divinazione"@.len() == 11);
    assert("dolore"@.len() == 6);
    assert("effetti Barcollanti"@.len() == 19);
    assert("effetti basati sulla vista"@.len() == 26);
    assert("effetti che bersagliano uno specifico numero di creature"@.len() == 56);
    assert("effetti di Charme e Compulsione"@.len() == 31);
    assert("effetti di Metamorfosi"@.len() == 22);
    assert("effetti di Paura"@.len() == 16);
    assert("effetti di Paura ed influenza mentale"@.len() == 37);
    assert("effetti di Sguardo"@.len() == 18);
    assert("effetti di Sonno"@.len() == 16);
    assert("effetti di ammaliamento"@.len() == 23);
    assert("effetti di charme"@.len() == 17);
    assert("effetti di charme e compulsione"@.len() == 31);
    assert("effetti di charme e compulsioni"@.len() == 31);
    assert("effetti di compulsione"@.len() == 22);
    assert("effetti di confusione e demenza"@.len() == 31);
    assert("effetti di demenza"@.len() == 18);
    assert("effetti di influenza mentale"@.len() == 28);
    assert("effetti di influenza mentale e visivi"@.len() == 37);
    assert("effetti di luce"@.len() == 15);
    assert("effetti di maledizione"@.len() == 22);
    assert("effetti di maledizioni"@.len() == 22);
    assert("effetti di metamorfosi"@.len() == 22);
    assert("effetti di morte"@.len() == 16);
    assert("effetti di necromanzia"@.len() == 22);
    assert("effetti di paura"@.len() == 16);
    assert("effetti di sguardo"@.len() == 18);
    assert("effetti di sonno"@.len() == 16);
    assert("effetti e illusioni visive"@.len() == 26);
    assert("effetti polimorfi"@.len() == 17);
    assert("effetti sensoriali"@.len() == 18);
    assert("effetti visivi"@.len() == 14);
    assert("effetti visivi e illusioni"@.len() == 26);
    assert("elettricità"@.len() == 11);
    assert("emozioni"@.len() == 8);
    assert("energia negativa"@.len() == 16);
    assert("ferite permanenti"@.len() == 17);
    assert("forza"@.len() == 5);
    assert("freddo"@.len() == 6);
    assert("fulmine"@.len() == 7);
    assert("fuoco"@.len() == 5);
    assert("illusioni"@.len() == 9);
    assert("illusioni visive"@.len() == 16);
    assert("invecchiamento"@.len() == 14);
    assert("malattia"@.len() == 8);
    assert("malattie"@.len() == 8);
    assert("maledizioni"@.len() == 11);
    assert("metamorfosi"@.len() == 11);
    assert("nausea"@.len() == 6);
    assert("paralisi"@.len() == 8);
    assert("paura"@.len() == 5);
    assert("pietrificazione"@.len() == 15);
    assert("possessione"@.len() == 11);
    assert("ruggine"@.len() == 7);
    assert("sanguinamento"@.len() == 13);
    assert("sonno"@.len() == 5);
    assert("sonoro"@.len() == 6);
    assert("sordità"@.len() == 7);
    assert("stordimento"@.len() == 11);
    assert("veleni"@.len() == 6);
    assert("veleno"@.len() == 6);
    assert("visivi ed illusori"@.len() == 18);
    assert("fulmine"@[0] != "Esausto"@[0]);
    assert("fulmine"@ != "Esausto"@);
    assert("fulmine"@[0] != "Infermo"@[0]);
    assert("fulmine"@ != "Infermo"@);
    assert("fulmine"@[0] != "Sordità"@[0]);
    assert("fulmine"@ != "Sordità"@);
    assert("fulmine"@[0] != "sordità"@[0]);
    assert("fulmine"@ != "sordità"@);
    assert("fulmine"@[0] != "Sguardo"@[0]);
    assert("fulmine"@ != "Sguardo"@);
    assert("fulmine"@[0] != "ruggine"@[0]);
    assert("fulmine"@ != "ruggine"@);
    assert("fulmine"@[0] != "Demenza"@[0]);
    assert("fulmine"@ != "Demenza"@);
    assert("fulmine"@[0] != "Congedo"@[0]);
    assert("fulmine"@ != "Congedo"@);
}

proof fn lemma_read_immunity_fireballspell(s: Seq<char>)
    requires
        immunity_named(Immunity_Type::Immunity_FireballSpell, s),
    ensures
        spec_single_immunity(s) == Some(Immunity_Type::Immunity_FireballSpell),
{
    reveal_strlit("Abbagliamenti");
    reveal_strlit("Abbagliamento");
    reveal_strlit("Abbagliato");
    reveal_strlit("Accecato");
    reveal_strlit("Acido");
    reveal_strlit("Affaticamento");
    reveal_strlit("Affaticato");
    reveal_strlit("Ammaliamento");
    reveal_strlit("Ancora Dimensionale");
    reveal_strlit("Armi Taglienti");
    reveal_strlit("Armi contundenti");
    reveal_strlit("Assorbimento del Fuoco");
    reveal_strlit("Attacchi Furtivi");
    reveal_strlit("Attacchi ai Fianchi");
    reveal_strlit("Attacchi basati sull'olfatto");
    reveal_strlit("Attacchi basati sulla vista");
    reveal_strlit("Attacchi basati sulla vista o sguardo");
    reveal_strlit("Attacchi con Sguardo");
    reveal_strlit("Attacchi con lo sguardo");
    reveal_strlit("Attacchi dipendenti dalla vista");
    reveal_strlit("Barcollante");
    reveal_strlit("Barcollare");
    reveal_strlit("Cecità");
    reveal_strlit("Charme");
    reveal_strlit("Colpi Critici");
    reveal_strlit("Colpi critici");
    reveal_strlit("Condizione Affaticato");
    reveal_strlit("Condizione Esausto");
    reveal_strlit("Confusione");
    reveal_strlit("Congedo");
    reveal_strlit("Danni Non Letali");
    reveal_strlit("Danni contundenti");
    reveal_strlit("Danni da arma");
    reveal_strlit("Danni da armi");
    reveal_strlit("Danni dalle Armi");
    reveal_strlit("Danni perforanti e taglienti");
    reveal_strlit("Danno da Pressione");
    reveal_strlit("Danno da arma");
    reveal_strlit("Danno non letale");
    reveal_strlit("Demenza");
    reveal_strlit("Divinazione");
    reveal_strlit("Dolore");
    reveal_strlit("Effetti a completamento di incantesimo e ad attivazione di incantesimo");
    reveal_strlit("Effetti basati sulla vista");
    reveal_strlit("Effetti d'influenza mentale");
    reveal_strlit("Effetti di Charme e Compulsione");
    reveal_strlit("Effetti di Demenza");
    reveal_strlit("Effetti di Influenza Mentale");
    reveal_strlit("Effetti di Morte");
    reveal_strlit("Effetti di Paura");
    reveal_strlit("Effetti di Sonno");
    reveal_strlit("Effetti di charme");
    reveal_strlit("Effetti di charme e compulsioni");
    reveal_strlit("Effetti di confusione e follia");
    reveal_strlit("Effetti di dolore");
    reveal_strlit("Effetti di forza");
    reveal_strlit("Effetti di influenza mentale");
    reveal_strlit("Effetti di morte");
    reveal_strlit("Effetti di morte (vedi sotto)");
    reveal_strlit("Effetti di paura");
    reveal_strlit("Effetti di sonno");
    reveal_strlit("Effetti visivi");
    reveal_strlit("Elettricità");
    reveal_strlit("Elettricità (parziale)");
    reveal_strlit("Energia Negativa");
    reveal_strlit("Energia Positiva");
    reveal_strlit("Esaurimento");
    reveal_strlit("Esausto");
    reveal_strlit("Fatica");
    reveal_strlit("Fiancheggiamento");
    reveal_strlit("Forza");
    reveal_strlit("Frastornamento");
    reveal_strlit("Frastornato");
    reveal_strlit("Freddo");
    reveal_strlit("Freddo (sé stesso e chi lo cavalca)");
    reveal_strlit("Fuoco");
    reveal_strlit("Fuoco Infernale");
    reveal_strlit("Illusione");
    reveal_strlit("Illusioni e qualsiasi attacco basato sulla vista");
    reveal_strlit("Immunità agli Incantesimi");
    reveal_strlit("Immunità al Freddo");
    reveal_strlit("Immunità all'Esilio");
    reveal_strlit("Immunità alla Magia");
    reveal_strlit("Incantesimi di Ammaliamento e di Illusione");
    reveal_strlit("Individuazione dei Pensieri");
    reveal_strlit("Individuazione dell'Allineamento");
    reveal_strlit("Infermità");
    reveal_strlit("Infermo");
    reveal_strlit("Invecchiamento");
    reveal_strlit("Magia");
    reveal_strlit("Malattia");
    reveal_strlit("Malattie");
    reveal_strlit("Maledizioni");
    reveal_strlit("Metamorfosi");
    reveal_strlit("Nausea");
    reveal_strlit("Nauseato");
    reveal_strlit("Non Deformante");
    reveal_strlit("Paralisi");
    reveal_strlit("Paura");
    reveal_strlit("Pietrificazione");
    reveal_strlit("Richiamo");
    reveal_strlit("Rivela Bugie");
    reveal_strlit("Sanguinamento");
    reveal_strlit("Sanguinamento (solo Punti Ferita)");
    reveal_strlit("Scosso");
    reveal_strlit("Sguardo");
    reveal_strlit("Sonno");
    reveal_strlit("Sonoro");
    reveal_strlit("Sordità");
    reveal_strlit("Spaventato");
    reveal_strlit("Stordimento");
    reveal_strlit("Veleni");
    reveal_strlit("Veleno");
    reveal_strlit("Veleno Ingerito");
    reveal_strlit("acido");
    reveal_strlit("attacchi basati sulla vista ed effetti visivi");
    reveal_strlit("attacchi con Sguardo");
    reveal_strlit("attacchi con lo Sguardo");
    reveal_strlit("attacchi con lo sguardo");
    reveal_strlit("charme");
    reveal_strlit("charme sui mostri");
    reveal_strlit("compulsione");
    reveal_strlit("controllo mentale");
    reveal_strlit("contundente");
    reveal_strlit("da caduta e da schiacciamento");
    reveal_strlit("danni contundenti");
    reveal_strlit("danni contundenti e perforanti");
    reveal_strlit("danni da arma");
    reveal_strlit("danni da armi");
    reveal_strlit("danni da precisione");
    reveal_strlit("danni delle armi");
    reveal_strlit("danni di precisione");
    reveal_strlit("danni perforanti");
    reveal_strlit("danni taglienti");
    reveal_strlit("danni taglienti e perforanti");
    reveal_strlit("danno da arma");
    reveal_strlit("danno di precisione");
    reveal_strlit("di influenza mentale e basati sullo Sguardo");
    reveal_strlit("divinazione");
    reveal_strlit("dolore");
    reveal_strlit("effetti Barcollanti");
    reveal_strlit("effetti basati sulla vista");
    reveal_strlit("effetti che bersagliano uno specifico numero di creature");
    reveal_strlit("effetti di Charme e Compulsione");
    reveal_strlit("effetti di Metamorfosi");
    reveal_strlit("effetti di Paura");
    reveal_strlit("effetti di Paura ed influenza mentale");
    reveal_strlit("effetti di Sguardo");
    reveal_strlit("effetti di Sonno");
    reveal_strlit("effetti di ammaliamento");
    reveal_strlit("effetti di charme");
    reveal_strlit("effetti di charme e compulsione");
    reveal_strlit("effetti di charme e compulsioni");
    reveal_strlit("effetti di compulsione");
    reveal_strlit("effetti di confusione e demenza");
    reveal_strlit("effetti di demenza");
    reveal_strlit("effetti di influenza mentale");
    reveal_strlit("effetti di influenza mentale e visivi");
    reveal_strlit("effetti di luce");
    reveal_strlit("effetti di maledizione");
    reveal_strlit("effetti di maledizioni");
    reveal_strlit("effetti di metamorfosi");
    reveal_strlit("effetti di morte");
    reveal_strlit("effetti di necromanzia");
    reveal_strlit("effetti di paura");
    reveal_strlit("effetti di sguardo");
    reveal_strlit("effetti di sonno");
    reveal_strlit("effetti e illusioni visive");
    reveal_strlit("effetti polimorfi");
    reveal_strlit("effetti sensoriali");
    reveal_strlit("effetti visivi");
    reveal_strlit("effetti visivi e illusioni");
    reveal_strlit("elettricità");
    reveal_strlit("emozioni");
    reveal_strlit("energia negativa");
    reveal_strlit("ferite permanenti");
    reveal_strlit("forza");
    reveal_strlit("freddo");
    reveal_strlit("fulmine");
    reveal_strlit("fuoco");
    reveal_strlit("illusioni");
    reveal_strlit("illusioni visive");
    reveal_strlit("invecchiamento");
    reveal_strlit("malattia");
    reveal_strlit("malattie");
    reveal_strlit("maledizioni");
    reveal_strlit("metamorfosi");
    reveal_strlit("nausea");
    reveal_strlit("palla di fuoco");
    reveal_strlit("paralisi");
    reveal_strlit("paura");
    reveal_strlit("pietrificazione");
    reveal_strlit("possessione");
    reveal_strlit("ruggine");
    reveal_strlit("sanguinamento");
    reveal_strlit("sonno");
    reveal_strlit("sonoro");
    reveal_strlit("sordità");
    reveal_strlit("stordimento");
    reveal_strlit("veleni");
    reveal_strlit("veleno");
    reveal_strlit("visivi ed illusori");
    assert("Abbagliamenti"@.len() == 13);
    assert("Abbagliamento"@.len() == 13);
    assert("Abbagliato"@.len() == 10);
    assert("Accecato"@.len() == 8);
    assert("Acido"@.len() == 5);
    assert("Affaticamento"@.len() == 13);
    assert("Affaticato"@.len() == 10);
    assert("Ammaliamento"@.len() == 12);
    assert("Ancora Dimensionale"@.len() == 19);
    assert("Armi Taglienti"@.len() == 14);
    assert("Armi contundenti"@.len() == 16);
    assert("Assorbimento del Fuoco"@.len() == 22);
    assert("Attacchi Furtivi"@.len() == 16);
    assert("Attacchi ai Fianchi"@.len() == 19);
    assert("Attacchi basati sull'olfatto"@.len() == 28);
    assert("Attacchi basati sulla vista"@.len() == 27);
    assert("Attacchi basati sulla vista o sguardo"@.len() == 37);
    assert("Attacchi con Sguardo"@.len() == 20);
    assert("Attacchi con lo sguardo"@.len() == 23);
    assert("Attacchi dipendenti dalla vista"@.len() == 31);
    assert("Barcollante"@.len() == 11);
    assert("Barcollare"@.len() == 10);
    assert("Cecità"@.len() == 6);
    assert("Charme"@.len() == 6);
    assert("Colpi Critici"@.len() == 13);
    assert("Colpi critici"@.len() == 13);
    assert("Condizione Affaticato"@.len() == 21);
    assert("Condizione Esausto"@.len() == 18);
    assert("Confusione"@.len() == 10);
    assert("Congedo"@.len() == 7);
    assert("Danni Non Letali"@.len() == 16);
    assert("Danni contundenti"@.len() == 17);
    assert("Danni da arma"@.len() == 13);
    assert("Danni da armi"@.len() == 13);
    assert("Danni dalle Armi"@.len() == 16);
    assert("Danni perforanti e taglienti"@.len() == 28);
    assert("Danno da Pressione"@.len() == 18);
    assert("Danno da arma"@.len() == 13);
    assert("Danno non letale"@.len() == 16);
    assert("Demenza"@.len() == 7);
    assert("Divinazione"@.len() == 11);
    assert("Dolore"@.len() == 6);
    assert("Effetti a completamento di incantesimo e ad attivazione di incantesimo"@.len() == 70);
    assert("Effetti basati sulla vista"@.len() == 26);
    assert("Effetti d'influenza mentale"@.len() == 27);
    assert("Effetti di Charme e Compulsione"@.len() == 31);
    assert("Effetti di Demenza"@.len() == 18);
    assert("Effetti di Influenza Mentale"@.len() == 28);
    assert("Effetti di Morte"@.len() == 16);
    assert("Effetti di Paura"@.len() == 16);
    assert("Effetti di Sonno"@.len() == 16);
    assert("Effetti di charme"@.len() == 17);
    assert("Effetti di charme e compulsioni"@.len() == 31);
    assert("Effetti di confusione e follia"@.len() == 30);
    assert("Effetti di dolore"@.len() == 17);
    assert("Effetti di forza"@.len() == 16);
    assert("Effetti di influenza mentale"@.len() == 28);
    assert("Effetti di morte"@.len() == 16);
    assert("Effetti di morte (vedi sotto)"@.len() == 29);
    assert("Effetti di paura"@.len() == 16);
    assert("Effetti di sonno"@.len() == 16);
    assert("Effetti visivi"@.len() == 14);
    assert("Elettricità"@.len() == 11);
    assert("Elettricità (parziale)"@.len() == 22);
    assert("Energia Negativa"@.len() == 16);
    assert("Energia Positiva"@.len() == 16);
    assert("Esaurimento"@.len() == 11);
    assert("Esausto"@.len() == 7);
    assert("Fatica"@.len() == 6);
    assert("Fiancheggiamento"@.len() == 16);
    assert("Forza"@.len() == 5);
    assert("Frastornamento"@.len() == 14);
    assert("Frastornato"@.len() == 11);
    assert("Freddo"@.len() == 6);
    assert("Freddo (sé stesso e chi lo cavalca)"@.len() == 35);
    assert("Fuoco"@.len() == 5);
    assert("Fuoco Infernale"@.len() == 15);
    assert("Illusione"@.len() == 9);
    assert("Illusioni e qualsiasi attacco basato sulla vista"@.len() == 48);
    assert("Immunità agli Incantesimi"@.len() == 25);
    assert("Immunità al Freddo"@.len() == 18);
    assert("Immunità all'Esilio"@.len() == 19);
    assert("Immunità alla Magia"@.len() == 19);
    assert("Incantesimi di Ammaliamento e di Illusione"@.len() == 42);
    assert("Individuazione dei Pensieri"@.len() == 27);
    assert("Individuazione dell'Allineamento"@.len() == 32);
    assert("Infermità"@.len() == 9);
    assert("Infermo"@.len() == 7);
    assert("Invecchiamento"@.len() == 14);
    assert("Magia"@.len() == 5);
    assert("Malattia"@.len() == 8);
    assert("Malattie"@.len() == 8);
    assert("Maledizioni"@.len() == 11);
    assert("Metamorfosi"@.len() == 11);
    assert("Nausea"@.len() == 6);
    assert("Nauseato"@.len() == 8);
    assert("Non Deformante"@.len() == 14);
    assert("Paralisi"@.len() == 8);
    assert("Paura"@.len() == 5);
    assert("Pietrificazione"@.len() == 15);
    assert("Richiamo"@.len() == 8);
    assert("Rivela Bugie"@.len() == 12);
    assert("Sanguinamento"@.len() == 13);
    assert("Sanguinamento (solo Punti Ferita)"@.len() == 33);
    assert("Scosso"@.len() == 6);
    assert("Sguardo"@.len() == 7);
    assert("Sonno"@.len() == 5);
    assert("Sonoro"@.len() == 6);
    assert("Sordità"@.len() == 7);
    assert("Spaventato"@.len() == 10);
    assert("Stordimento"@.len() == 11);
    assert("Veleni"@.len() == 6);
    assert("Veleno"@.len() == 6);
    assert("Veleno Ingerito"@.len() == 15);
    assert("acido"@.len() == 5);
    assert("attacchi basati sulla vista ed effetti visivi"@.len() == 45);
    assert("attacchi con Sguardo"@.len() == 20);
    assert("attacchi con lo Sguardo"@.len() == 23);
    assert("attacchi con lo sguardo"@.len() == 23);
    assert("charme"@.len() == 6);
    assert("charme sui mostri"@.len() == 17);
    assert("compulsione"@.len() == 11);
    assert("controllo mentale"@.len() == 17);
    assert("contundente"@.len() == 11);
    assert("da caduta e da schiacciamento"@.len() == 29);
    assert("danni contundenti"@.len() == 17);
    assert("danni contundenti e perforanti"@.len() == 30);
    assert("danni da arma"@.len() == 13);
    assert("danni da armi"@.len() == 13);
    assert("danni da precisione"@.len() == 19);
    assert("danni delle armi"@.len() == 16);
    assert("danni di precisione"@.len() == 19);
    assert("danni perforanti"@.len() == 16);
    assert("danni taglienti"@.len() == 15);
    assert("danni taglienti e perforanti"@.len() == 28);
    assert("danno da arma"@.len() == 13);
    assert("danno di precisione"@.len() == 19);
    assert("di influenza mentale e basati sullo Sguardo"@.len() == 43);
    assert("divinazione"@.len() == 11);
    assert("dolore"@.len() == 6);
    assert("effetti Barcollanti"@.len() == 19);
    assert("effetti basati sulla vista"@.len() == 26);
    assert("effetti che bersagliano uno specifico numero di creature"@.len() == 56);
    assert("effetti di Charme e Compulsione"@.len() == 31);
    assert("effetti di Metamorfosi"@.len() == 22);
    assert("effetti di Paura"@.len() == 16);
    assert("effetti di Paura ed influenza mentale"@.len() == 37);
    assert("effetti di Sguardo"@.len() == 18);
    assert("effetti di Sonno"@.len() == 16);
    assert("effetti di ammaliamento"@.len() == 23);
    assert("effetti di charme"@.len() == 17);
    assert("effetti di charme e compulsione"@.len() == 31);
    assert("effetti di charme e compulsioni"@.len() == 31);
    assert("effetti di compulsione"@.len() == 22);
    assert("effetti di confusione e demenza"@.len() == 31);
    assert("effetti di demenza"@.len() == 18);
    assert("effetti di influenza mentale"@.len() == 28);
    assert("effetti di influenza mentale e visivi"@.len() == 37);
    assert("effetti di luce"@.len() == 15);
    assert("effetti di maledizione"@.len() == 22);
    assert("effetti di maledizioni"@.len() == 22);
    assert("effetti di metamorfosi"@.len() == 22);
    assert("effetti di morte"@.len() == 16);
    assert("effetti di necromanzia"@.len() == 22);
    assert("effetti di paura"@.len() == 16);
    assert("effetti di sguardo"@.len() == 18);
    assert("effetti di sonno"@.len() == 16);
    assert("effetti e illusioni visive"@.len() == 26);
    assert("effetti polimorfi"@.len() == 17);
    assert("effetti sensoriali"@.len() == 18);
    assert("effetti visivi"@.len() == 14);
    assert("effetti visivi e illusioni"@.len() == 26);
    assert("elettricità"@.len() == 11);
    assert("emozioni"@.len() == 8);
    assert("energia negativa"@.len() == 16);
    assert("ferite permanenti"@.len() == 17);
    assert("forza"@.len() == 5);
    assert("freddo"@.len() == 6);
    assert("fulmine"@.len() == 7);
    assert("fuoco"@.len() == 5);
    assert("illusioni"@.len() == 9);
    assert("illusioni visive"@.len() == 16);
    assert("invecchiamento"@.len() == 14);
    assert("malattia"@.len() == 8);
    assert("malattie"@.len() == 8);
    assert("maledizioni"@.len() == 11);
    assert("metamorfosi"@.len() == 11);
    assert("nausea"@.len() == 6);
    assert("palla di fuoco"@.len() == 14);
    assert("paralisi"@.len() == 8);
    assert("paura"@.len() == 5);
    assert("pietrificazione"@.len() == 15);
    assert("possessione"@.len() == 11);
    assert("ruggine"@.len() == 7);
    assert("sanguinamento"@.len() == 13);
    assert("sonno"@.len() == 5);
    assert("sonoro"@.len() == 6);
    assert("sordità"@.len() == 7);
    assert("stordimento"@.len() == 11);
    assert("veleni"@.len() == 6);
    assert("veleno"@.len() == 6);
    assert("visivi ed illusori"@.len() == 18);
    assert("palla di fuoco"@[0] != "Frastornamento"@[0]);
    assert("palla di fuoco"@ != "Frastornamento"@);
    assert("palla di fuoco"@[0] != "Armi Taglienti"@[0]);
    assert("palla di fuoco"@ != "Armi Taglienti"@);
    assert("palla di fuoco"@[0] != "Non Deformante"@[0]);
    assert("palla di fuoco"@ != "Non Deformante"@);
    assert("palla di fuoco"@[0] != "effetti visivi"@[0]);
    assert("palla di fuoco"@ != "effetti visivi"@);
    assert("palla di fuoco"@[0] != "Effetti visivi"@[0]);
    assert("palla di fuoco"@ != "Effetti visivi"@);
    assert("palla di fuoco"@[0] != "Invecchiamento"@[0]);
    assert("palla di fuoco"@ != "Invecchiamento"@);
    assert("palla di fuoco"@[0] != "invecchiamento"@[0]);
    assert("palla di fuoco"@ != "invecchiamento"@);
}

proof fn lemma_read_immunity_sleepspell(s: Seq<char>)
    requires
        immunity_named(Immunity_Type::Immunity_SleepSpell, s) && !(s == "sonno"@),
    ensures
        spec_single_immunity(s) == Some(Immunity_Type::Immunity_SleepSpell),
{



}

proof fn lemma_read_immunity_leveldrain(s: Seq<char>)
    requires
        immunity_named(Immunity_Type::Immunity_LevelDrain, s),
    ensures
        spec_single_immunity(s) == Some(Immunity_Type::Immunity_LevelDrain),
{
    reveal_strlit("Abbagliamenti");
    reveal_strlit("Abbagliamento");
    reveal_strlit("Abbagliato");
    reveal_strlit("Accecato");
    reveal_strlit("Acido");
    reveal_strlit("Affaticamento");
    reveal_strlit("Affaticato");
    reveal_strlit("Ammaliamento");
    reveal_strlit("Ancora Dimensionale");
    reveal_strlit("Armi Taglienti");
    reveal_strlit("Armi contundenti");
    reveal_strlit("Assorbimento del Fuoco");
    reveal_strlit("Attacchi Furtivi");
    reveal_strlit("Attacchi ai Fianchi");
    reveal_strlit("Attacchi basati sull'olfatto");
    reveal_strlit("Attacchi basati sulla vista");
    reveal_strlit("Attacchi basati sulla vista o sguardo");
    reveal_strlit("Attacchi con Sguardo");
    reveal_strlit("Attacchi con lo sguardo");
    reveal_strlit("Attacchi dipendenti dalla vista");
    reveal_strlit("Barcollante");
    reveal_strlit("Barcollare");
    reveal_strlit("Cecità");
    reveal_strlit("Charme");
    reveal_strlit("Colpi Critici");
    reveal_strlit("Colpi critici");
    reveal_strlit("Condizione Affaticato");
    reveal_strlit("Condizione Esausto");
    reveal_strlit("Confusione");
    reveal_strlit("Congedo");
    reveal_strlit("Danni Non Letali");
    reveal_strlit("Danni contundenti");
    reveal_strlit("Danni da arma");
    reveal_strlit("Danni da armi");
    reveal_strlit("Danni dalle Armi");
    reveal_strlit("Danni perforanti e taglienti");
    reveal_strlit("Danno da Pressione");
    reveal_strlit("Danno da arma");
    reveal_strlit("Danno non letale");
    reveal_strlit("Demenza");
    reveal_strlit("Divinazione");
    reveal_strlit("Dolore");
    reveal_strlit("Effetti a completamento di incantesimo e ad attivazione di incantesimo");
    reveal_strlit("Effetti basati sulla vista");
    reveal_strlit("Effetti d'influenza mentale");
    reveal_strlit("Effetti di Charme e Compulsione");
    reveal_strlit("Effetti di Demenza");
    reveal_strlit("Effetti di Influenza Mentale");
    reveal_strlit("Effetti di Morte");
    reveal_strlit("Effetti di Paura");
    reveal_strlit("Effetti di Sonno");
    reveal_strlit("Effetti di charme");
    reveal_strlit("Effetti di charme e compulsioni");
    reveal_strlit("Effetti di confusione e follia");
    reveal_strlit("Effetti di dolore");
    reveal_strlit("Effetti di forza");
    reveal_strlit("Effetti di influenza mentale");
    reveal_strlit("Effetti di morte");
    reveal_strlit("Effetti di morte (vedi sotto)");
    reveal_strlit("Effetti di paura");
    reveal_strlit("Effetti di sonno");
    reveal_strlit("Effetti visivi");
    reveal_strlit("Elettricità");
    reveal_strlit("Elettricità (parziale)");
    reveal_strlit("Energia Negativa");
    reveal_strlit("Energia Positiva");
    reveal_strlit("Esaurimento");
    reveal_strlit("Esausto");
    reveal_strlit("Fatica");
    reveal_strlit("Fiancheggiamento");
    reveal_strlit("Forza");
    reveal_strlit("Frastornamento");
    reveal_strlit("Frastornato");
    reveal_strlit("Freddo");
    reveal_strlit("Freddo (sé stesso e chi lo cavalca)");
    reveal_strlit("Fuoco");
    reveal_strlit("Fuoco Infernale");
    reveal_strlit("Illusione");
    reveal_strlit("Illusioni e qualsiasi attacco basato sulla vista");
    reveal_strlit("Immunità agli Incantesimi");
    reveal_strlit("Immunità al Freddo");
    reveal_strlit("Immunità all'Esilio");
    reveal_strlit("Immunità alla Magia");
    reveal_strlit("Incantesimi di Ammaliamento e di Illusione");
    reveal_strlit("Individuazione dei Pensieri");
    reveal_strlit("Individuazione dell'Allineamento");
    reveal_strlit("Infermità");
    reveal_strlit("Infermo");
    reveal_strlit("Invecchiamento");
    reveal_strlit("Livelli Negativi");
    reveal_strlit("Magia");
    reveal_strlit("Malattia");
    reveal_strlit("Malattie");
    reveal_strlit("Maledizioni");
    reveal_strlit("Metamorfosi");
    reveal_strlit("Nausea");
    reveal_strlit("Nauseato");
    reveal_strlit("Non Deformante");
    reveal_strlit("Paralisi");
    reveal_strlit("Paura");
    reveal_strlit("Pietrificazione");
    reveal_strlit("Richiamo");
    reveal_strlit("Risucchi di Energia");
    reveal_strlit("Risucchio di Energia");
    reveal_strlit("Rivela Bugie");
    reveal_strlit("Sanguinamento");
    reveal_strlit("Sanguinamento (solo Punti Ferita)");
    reveal_strlit("Scosso");
    reveal_strlit("Sguardo");
    reveal_strlit("Sonno");
    reveal_strlit("Sonoro");
    reveal_strlit("Sordità");
    reveal_strlit("Spaventato");
    reveal_strlit("Stordimento");
    reveal_strlit("Veleni");
    reveal_strlit("Veleno");
    reveal_strlit("Veleno Ingerito");
    reveal_strlit("acido");
    reveal_strlit("attacchi basati sulla vista ed effetti visivi");
    reveal_strlit("attacchi con Sguardo");
    reveal_strlit("attacchi con lo Sguardo");
    reveal_strlit("attacchi con lo sguardo");
    reveal_strlit("charme");
    reveal_strlit("charme sui mostri");
    reveal_strlit("compulsione");
    reveal_strlit("controllo mentale");
    reveal_strlit("contundente");
    reveal_strlit("da caduta e da schiacciamento");
    reveal_strlit("danni contundenti");
    reveal_strlit("danni contundenti e perforanti");
    reveal_strlit("danni da arma");
    reveal_strlit("danni da armi");
    reveal_strlit("danni da precisione");
    reveal_strlit("danni delle armi");
    reveal_strlit("danni di precisione");
    reveal_strlit("danni perforanti");
    reveal_strlit("danni taglienti");
    reveal_strlit("danni taglienti e perforanti");
    reveal_strlit("danno da arma");
    reveal_strlit("danno di precisione");
    reveal_strlit("di influenza mentale e basati sullo Sguardo");
    reveal_strlit("divinazione");
    reveal_strlit("dolore");
    reveal_strlit("effetti Barcollanti");
    reveal_strlit("effetti basati sulla vista");
    reveal_strlit("effetti che bersagliano uno specifico numero di creature");
    reveal_strlit("effetti di Charme e Compulsione");
    reveal_strlit("effetti di Metamorfosi");
    reveal_strlit("effetti di Paura");
    reveal_strlit("effetti di Paura ed influenza mentale");
    reveal_strlit("effetti di Sguardo");
    reveal_strlit("effetti di Sonno");
    reveal_strlit("effetti di ammaliamento");
    reveal_strlit("effetti di charme");
    reveal_strlit("effetti di charme e compulsione");
    reveal_strlit("effetti di charme e compulsioni");
    reveal_strlit("effetti di compulsione");
    reveal_strlit("effetti di confusione e demenza");
    reveal_strlit("effetti di demenza");
    reveal_strlit("effetti di influenza mentale");
    reveal_strlit("effetti di influenza mentale e visivi");
    reveal_strlit("effetti di luce");
    reveal_strlit("effetti di maledizione");
    reveal_strlit("effetti di maledizioni");
    reveal_strlit("effetti di metamorfosi");
    reveal_strlit("effetti di morte");
    reveal_strlit("effetti di necromanzia");
    reveal_strlit("effetti di paura");
    reveal_strlit("effetti di sguardo");
    reveal_strlit("effetti di sonno");
    reveal_strlit("effetti e illusioni visive");
    reveal_strlit("effetti polimorfi");
    reveal_strlit("effetti sensoriali");
    reveal_strlit("effetti visivi");
    reveal_strlit("effetti visivi e illusioni");
    reveal_strlit("elettricità");
    reveal_strlit("emozioni");
    reveal_strlit("energia negativa");
    reveal_strlit("ferite permanenti");
    reveal_strlit("forza");
    reveal_strlit("freddo");
    reveal_strlit("fulmine");
    reveal_strlit("fuoco");
    reveal_strlit("illusioni");
    reveal_strlit("illusioni visive");
    reveal_strlit("invecchiamento");
    reveal_strlit("livelli negativi");
    reveal_strlit("malattia");
    reveal_strlit("malattie");
    reveal_strlit("maledizioni");
    reveal_strlit("metamorfosi");
    reveal_strlit("nausea");
    reveal_strlit("palla di fuoco");
    reveal_strlit("paralisi");
    reveal_strlit("paura");
    reveal_strlit("pietrificazione");
    reveal_strlit("possessione");
    reveal_strlit("risucchi di energia");
    reveal_strlit("risucchio di energia");
    reveal_strlit("ruggine");
    reveal_strlit("sanguinamento");
    reveal_strlit("sonno");
    reveal_strlit("sonoro");
    reveal_strlit("sordità");
    reveal_strlit("stordimento");
    reveal_strlit("veleni");
    reveal_strlit("veleno");
    reveal_strlit("visivi ed illusori");
    assert("Abbagliamenti"@.len() == 13);
    assert("Abbagliamento"@.len() == 13);
    assert("Abbagliato"@.len() == 10);
    assert("Accecato"@.len() == 8);
    assert("Acido"@.len() == 5);
    assert("Affaticamento"@.len() == 13);
    assert("Affaticato"@.len() == 10);
    assert("Ammaliamento"@.len() == 12);
    assert("Ancora Dimensionale"@.len() == 19);
    assert("Armi Taglienti"@.len() == 14);
    assert("Armi contundenti"@.len() == 16);
    assert("Assorbimento del Fuoco"@.len() == 22);
    assert("Attacchi Furtivi"@.len() == 16);
    assert("Attacchi ai Fianchi"@.len() == 19);
    assert("Attacchi basati sull'olfatto"@.len() == 28);
    assert("Attacchi basati sulla vista"@.len() == 27);
    assert("Attacchi basati sulla vista o sguardo"@.len() == 37);
    assert("Attacchi con Sguardo"@.len() == 20);
    assert("Attacchi con lo sguardo"@.len() == 23);
    assert("Attacchi dipendenti dalla vista"@.len() == 31);
    assert("Barcollante"@.len() == 11);
    assert("Barcollare"@.len() == 10);
    assert("Cecità"@.len() == 6);
    assert("Charme"@.len() == 6);
    assert("Colpi Critici"@.len() == 13);
    assert("Colpi critici"@.len() == 13);
    assert("Condizione Affaticato"@.len() == 21);
    assert("Condizione Esausto"@.len() == 18);
    assert("Confusione"@.len() == 10);
    assert("Congedo"@.len() == 7);
    assert("Danni Non Letali"@.len() == 16);
    assert("Danni contundenti"@.len() == 17);
    assert("Danni da arma"@.len() == 13);
    assert("Danni da armi"@.len() == 13);
    assert("Danni dalle Armi"@.len() == 16);
    assert("Danni perforanti e taglienti"@.len() == 28);
    assert("Danno da Pressione"@.len() == 18);
    assert("Danno da arma"@.len() == 13);
    assert("Danno non letale"@.len() == 16);
    assert("Demenza"@.len() == 7);
    assert("Divinazione"@.len() == 11);
    assert("Dolore"@.len() == 6);
    assert("Effetti a completamento di incantesimo e ad attivazione di incantesimo"@.len() == 70);
    assert("Effetti basati sulla vista"@.len() == 26);
    assert("Effetti d'influenza mentale"@.len() == 27);
    assert("Effetti di Charme e Compulsione"@.len() == 31);
    assert("Effetti di Demenza"@.len() == 18);
    assert("Effetti di Influenza Mentale"@.len() == 28);
    assert("Effetti di Morte"@.len() == 16);
    assert("Effetti di Paura"@.len() == 16);
    assert("Effetti di Sonno"@.len() == 16);
    assert("Effetti di charme"@.len() == 17);
    assert("Effetti di charme e compulsioni"@.len() == 31);
    assert("Effetti di confusione e follia"@.len() == 30);
    assert("Effetti di dolore"@.len() == 17);
    assert("Effetti di forza"@.len() == 16);
    assert("Effetti di influenza mentale"@.len() == 28);
    assert("Effetti di morte"@.len() == 16);
    assert("Effetti di morte (vedi sotto)"@.len() == 29);
    assert("Effetti di paura"@.len() == 16);
    assert("Effetti di sonno"@.len() == 16);
    assert("Effetti visivi"@.len() == 14);
    assert("Elettricità"@.len() == 11);
    assert("Elettricità (parziale)"@.len() == 22);
    assert("Energia Negativa"@.len() == 16);
    assert("Energia Positiva"@.len() == 16);
    assert("Esaurimento"@.len() == 11);
    assert("Esausto"@.len() == 7);
    assert("Fatica"@.len() == 6);
    assert("Fiancheggiamento"@.len() == 16);
    assert("Forza"@.len() == 5);
    assert("Frastornamento"@.len() == 14);
    assert("Frastornato"@.len() == 11);
    assert("Freddo"@.len() == 6);
    assert("Freddo (sé stesso e chi lo cavalca)"@.len() == 35);
    assert("Fuoco"@.len() == 5);
    assert("Fuoco Infernale"@.len() == 15);
    assert("Illusione"@.len() == 9);
    assert("Illusioni e qualsiasi attacco basato sulla vista"@.len() == 48);
    assert("Immunità agli Incantesimi"@.len() == 25);
    assert("Immunità al Freddo"@.len() == 18);
    assert("Immunità all'Esilio"@.len() == 19);
    assert("Immunità alla Magia"@.len() == 19);
    assert("Incantesimi di Ammaliamento e di Illusione"@.len() == 42);
    assert("Individuazione dei Pensieri"@.len() == 27);
    assert("Individuazione dell'Allineamento"@.len() == 32);
    assert("Infermità"@.len() == 9);
    assert("Infermo"@.len() == 7);
    assert("Invecchiamento"@.len() == 14);
    assert("Livelli Negativi"@.len() == 16);
    assert("Magia"@.len() == 5);
    assert("Malattia"@.len() == 8);
    assert("Malattie"@.len() == 8);
    assert("Maledizioni"@.len() == 11);
    assert("Metamorfosi"@.len() == 11);
    assert("Nausea"@.len() == 6);
    assert("Nauseato"@.len() == 8);
    assert("Non Deformante"@.len() == 14);
    assert("Paralisi"@.len() == 8);
    assert("Paura"@.len() == 5);
    assert("Pietrificazione"@.len() == 15);
    assert("Richiamo"@.len() == 8);
    assert("Risucchi di Energia"@.len() == 19);
    assert("Risucchio di Energia"@.len() == 20);
    assert("Rivela Bugie"@.len() == 12);
    assert("Sanguinamento"@.len() == 13);
    assert("Sanguinamento (solo Punti Ferita)"@.len() == 33);
    assert("Scosso"@.len() == 6);
    assert("Sguardo"@.len() == 7);
    assert("Sonno"@.len() == 5);
    assert("Sonoro"@.len() == 6);
    assert("Sordità"@.len() == 7);
    assert("Spaventato"@.len() == 10);
    assert("Stordimento"@.len() == 11);
    assert("Veleni"@.len() == 6);
    assert("Veleno"@.len() == 6);
    assert("Veleno Ingerito"@.len() == 15);
    assert("acido"@.len() == 5);
    assert("attacchi basati sulla vista ed effetti visivi"@.len() == 45);
    assert("attacchi con Sguardo"@.len() == 20);
    assert("attacchi con lo Sguardo"@.len() == 23);
    assert("attacchi con lo sguardo"@.len() == 23);
    assert("charme"@.len() == 6);
    assert("charme sui mostri"@.len() == 17);
    assert("compulsione"@.len() == 11);
    assert("controllo mentale"@.len() == 17);
    assert("contundente"@.len() == 11);
    assert("da caduta e da schiacciamento"@.len() == 29);
    assert("danni contundenti"@.len() == 17);
    assert("danni contundenti e perforanti"@.len() == 30);
    assert("danni da arma"@.len() == 13);
    assert("danni da armi"@.len() == 13);
    assert("danni da precisione"@.len() == 19);
    assert("danni delle armi"@.len() == 16);
    assert("danni di precisione"@.len() == 19);
    assert("danni perforanti"@.len() == 16);
    assert("danni taglienti"@.len() == 15);
    assert("danni taglienti e perforanti"@.len() == 28);
    assert("danno da arma"@.len() == 13);
    assert("danno di precisione"@.len() == 19);
    assert("di influenza mentale e basati sullo Sguardo"@.len() == 43);
    assert("divinazione"@.len() == 11);
    assert("dolore"@.len() == 6);
    assert("effetti Barcollanti"@.len() == 19);
    assert("effetti basati sulla vista"@.len() == 26);
    assert("effetti che bersagliano uno specifico numero di creature"@.len() == 56);
    assert("effetti di Charme e Compulsione"@.len() == 31);
    assert("effetti di Metamorfosi"@.len() == 22);
    assert("effetti di Paura"@.len() == 16);
    assert("effetti di Paura ed influenza mentale"@.len() == 37);
    assert("effetti di Sguardo"@.len() == 18);
    assert("effetti di Sonno"@.len() == 16);
    assert("effetti di ammaliamento"@.len() == 23);
    assert("effetti di charme"@.len() == 17);
    assert("effetti di charme e compulsione"@.len() == 31);
    assert("effetti di charme e compulsioni"@.len() == 31);
    assert("effetti di compulsione"@.len() == 22);
    assert("effetti di confusione e demenza"@.len() == 31);
    assert("effetti di demenza"@.len() == 18);
    assert("effetti di influenza mentale"@.len() == 28);
    assert("effetti di influenza mentale e visivi"@.len() == 37);
    assert("effetti di luce"@.len() == 15);
    assert("effetti di maledizione"@.len() == 22);
    assert("effetti di maledizioni"@.len() == 22);
    assert("effetti di metamorfosi"@.len() == 22);
    assert("effetti di morte"@.len() == 16);
    assert("effetti di necromanzia"@.len() == 22);
    assert("effetti di paura"@.len() == 16);
    assert("effetti di sguardo"@.len() == 18);
    assert("effetti di sonno"@.len() == 16);
    assert("effetti e illusioni visive"@.len() == 26);
    assert("effetti polimorfi"@.len() == 17);
    assert("effetti sensoriali"@.len() == 18);
    assert("effetti visivi"@.len() == 14);
    assert("effetti visivi e illusioni"@.len() == 26);
    assert("elettricità"@.len() == 11);
    assert("emozioni"@.len() == 8);
    assert("energia negativa"@.len() == 16);
    assert("ferite permanenti"@.len() == 17);
    assert("forza"@.len() == 5);
    assert("freddo"@.len() == 6);
    assert("fulmine"@.len() == 7);
    assert("fuoco"@.len() == 5);
    assert("illusioni"@.len() == 9);
    assert("illusioni visive"@.len() == 16);
    assert("invecchiamento"@.len() == 14);
    assert("livelli negativi"@.len() == 16);
    assert("malattia"@.len() == 8);
    assert("malattie"@.len() == 8);
    assert("maledizioni"@.len() == 11);
    assert("metamorfosi"@.len() == 11);
    assert("nausea"@.len() == 6);
    assert("palla di fuoco"@.len() == 14);
    assert("paralisi"@.len() == 8);
    assert("paura"@.len() == 5);
    assert("pietrificazione"@.len() == 15);
    assert("possessione"@.len() == 11);
    assert("risucchi di energia"@.len() == 19);
    assert("risucchio di energia"@.len() == 20);
    assert("ruggine"@.len() == 7);
    assert("sanguinamento"@.len() == 13);
    assert("sonno"@.len() == 5);
    assert("sonoro"@.len() == 6);
    assert("sordità"@.len() == 7);
    assert("stordimento"@.len() == 11);
    assert("veleni"@.len() == 6);
    assert("veleno"@.len() == 6);
    assert("visivi ed illusori"@.len() == 18);
    assert("Risucchio di Energia"@[0] != "Attacchi con Sguardo"@[0]);
    assert("Risucchio di Energia"@ != "Attacchi con Sguardo"@);
    assert("Risucchio di Energia"@[0] != "attacchi con Sguardo"@[0]);
    assert("Risucchio di Energia"@ != "attacchi con Sguardo"@);
    assert("risucchio di energia"@[0] != "Attacchi con Sguardo"@[0]);
    assert("risucchio di energia"@ != "Attacchi con Sguardo"@);
    assert("risucchio di energia"@[0] != "attacchi con Sguardo"@[0]);
    assert("risucchio di energia"@ != "attacchi con Sguardo"@);
    assert("risucchio di energia"@[0] != "Risucchio di Energia"@[0]);
    assert("risucchio di energia"@ != "Risucchio di Energia"@);
    assert("Risucchi di Energia"@[0] != "effetti Barcollanti"@[0]);
    assert("Risucchi di Energia"@ != "effetti Barcollanti"@);
    assert("Risucchi di Energia"@[0] != "Immunità alla Magia"@[0]);
    assert("Risucchi di Energia"@ != "Immunità alla Magia"@);
    assert("Risucchi di Energia"@[0] != "danno di precisione"@[0]);
    assert("Risucchi di Energia"@ != "danno di precisione"@);
    assert("Risucchi di Energia"@[0] != "danni da precisione"@[0]);
    assert("Risucchi di Energia"@ != "danni da precisione"@);
    assert("Risucchi di Energia"@[0] != "danni di precisione"@[0]);
    assert("Risucchi di Energia"@ != "danni di precisione"@);
    assert("Risucchi di Energia"@[0] != "Attacchi ai Fianchi"@[0]);
    assert("Risucchi di Energia"@ != "Attacchi ai Fianchi"@);
    assert("Risucchi di Energia"@[0] != "Immunità all'Esilio"@[0]);
    assert("Risucchi di Energia"@ != "Immunità all'Esilio"@);
    assert("Risucchi di Energia"@[0] != "Ancora Dimensionale"@[0]);
    assert("Risucchi di Energia"@ != "Ancora Dimensionale"@);
    assert("risucchi di energia"@[0] != "effetti Barcollanti"@[0]);
    assert("risucchi di energia"@ != "effetti Barcollanti"@);
    assert("risucchi di energia"@[0] != "Immunità alla Magia"@[0]);
    assert("risucchi di energia"@ != "Immunità alla Magia"@);
    assert("risucchi di energia"@[0] != "danno di precisione"@[0]);
    assert("risucchi di energia"@ != "danno di precisione"@);
    assert("risucchi di energia"@[0] != "danni da precisione"@[0]);
    assert("risucchi di energia"@ != "danni da precisione"@);
    assert("risucchi di energia"@[0] != "danni di precisione"@[0]);
    assert("risucchi di energia"@ != "danni di precisione"@);
    assert("risucchi di energia"@[0] != "Attacchi ai Fianchi"@[0]);
    assert("risucchi di energia"@ != "Attacchi ai Fianchi"@);
    assert("risucchi di energia"@[0] != "Immunità all'Esilio"@[0]);
    assert("risucchi di energia"@ != "Immunità all'Esilio"@);
    assert("risucchi di energia"@[0] != "Ancora Dimensionale"@[0]);
    assert("risucchi di energia"@ != "Ancora Dimensionale"@);
    assert("risucchi di energia"@[0] != "Risucchi di Energia"@[0]);
    assert("risucchi di energia"@ != "Risucchi di Energia"@);
    assert("livelli negativi"@[0] != "Energia Negativa"@[0]);
    assert("livelli negativi"@ != "Energia Negativa"@);
    assert("livelli negativi"@[0] != "energia negativa"@[0]);
    assert("livelli negativi"@ != "energia negativa"@);
    assert("livelli negativi"@[0] != "Energia Positiva"@[0]);
    assert("livelli negativi"@ != "Energia Positiva"@);
    assert("livelli negativi"@[0] != "energia negativa"@[0]);
    assert("livelli negativi"@ != "energia negativa"@);
    assert("livelli negativi"@[0] != "effetti di sonno"@[0]);
    assert("livelli negativi"@ != "effetti di sonno"@);
    assert("livelli negativi"@[0] != "Effetti di Sonno"@[0]);
    assert("livelli negativi"@ != "Effetti di Sonno"@);
    assert("livelli negativi"@[0] != "Effetti di sonno"@[0]);
    assert("livelli negativi"@ != "Effetti di sonno"@);
    assert("livelli negativi"@[0] != "effetti di Sonno"@[0]);
    assert("livelli negativi"@ != "effetti di Sonno"@);
    assert("livelli negativi"@[0] != "Effetti di Paura"@[0]);
    assert("livelli negativi"@ != "Effetti di Paura"@);
    assert("livelli negativi"@[0] != "effetti di Paura"@[0]);
    assert("livelli negativi"@ != "effetti di Paura"@);
    assert("livelli negativi"@[0] != "effetti di paura"@[0]);
    assert("livelli negativi"@ != "effetti di paura"@);
    assert("livelli negativi"@[0] != "Effetti di paura"@[0]);
    assert("livelli negativi"@ != "Effetti di paura"@);
    assert("livelli negativi"@[0] != "Attacchi Furtivi"@[0]);
    assert("livelli negativi"@ != "Attacchi Furtivi"@);
    assert("livelli negativi"@[0] != "danni delle armi"@[0]);
    assert("livelli negativi"@ != "danni delle armi"@);
    assert("livelli negativi"@[0] != "Danni dalle Armi"@[0]);
    assert("livelli negativi"@ != "Danni dalle Armi"@);
    assert("livelli negativi"@[0] != "Armi contundenti"@[0]);
    assert("livelli negativi"@ != "Armi contundenti"@);
    assert("livelli negativi"@[0] != "danni perforanti"@[0]);
    assert("livelli negativi"@ != "danni perforanti"@);
    assert("livelli negativi"@[0] != "Fiancheggiamento"@[0]);
    assert("livelli negativi"@ != "Fiancheggiamento"@);
    assert("livelli negativi"@[0] != "Danni Non Letali"@[0]);
    assert("livelli negativi"@ != "Danni Non Letali"@);
    assert("livelli negativi"@[0] != "Danno non letale"@[0]);
    assert("livelli negativi"@ != "Danno non letale"@);
    assert("livelli negativi"@[0] != "Effetti di morte"@[0]);
    assert("livelli negativi"@ != "Effetti di morte"@);
    assert("livelli negativi"@[0] != "Effetti di Morte"@[0]);
    assert("livelli negativi"@ != "Effetti di Morte"@);
    assert("livelli negativi"@[0] != "effetti di morte"@[0]);
    assert("livelli negativi"@ != "effetti di morte"@);
    assert("livelli negativi"@[0] != "illusioni visive"@[0]);
    assert("livelli negativi"@ != "illusioni visive"@);
    assert("livelli negativi"@[0] != "Effetti di forza"@[0]);
    assert("livelli negativi"@ != "Effetti di forza"@);
    assert("Livelli Negativi"@[0] != "Energia Negativa"@[0]);
    assert("Livelli Negativi"@ != "Energia Negativa"@);
    assert("Livelli Negativi"@[0] != "energia negativa"@[0]);
    assert("Livelli Negativi"@ != "energia negativa"@);
    assert("Livelli Negativi"@[0] != "Energia Positiva"@[0]);
    assert("Livelli Negativi"@ != "Energia Positiva"@);
    assert("Livelli Negativi"@[0] != "energia negativa"@[0]);
    assert("Livelli Negativi"@ != "energia negativa"@);
    assert("Livelli Negativi"@[0] != "effetti di sonno"@[0]);
    assert("Livelli Negativi"@ != "effetti di sonno"@);
    assert("Livelli Negativi"@[0] != "Effetti di Sonno"@[0]);
    assert("Livelli Negativi"@ != "Effetti di Sonno"@);
    assert("Livelli Negativi"@[0] != "Effetti di sonno"@[0]);
    assert("Livelli Negativi"@ != "Effetti di sonno"@);
    assert("Livelli Negativi"@[0] != "effetti di Sonno"@[0]);
    assert("Livelli Negativi"@ != "effetti di Sonno"@);
    assert("Livelli Negativi"@[0] != "Effetti di Paura"@[0]);
    assert("Livelli Negativi"@ != "Effetti di Paura"@);
    assert("Livelli Negativi"@[0] != "effetti di Paura"@[0]);
    assert("Livelli Negativi"@ != "effetti di Paura"@);
    assert("Livelli Negativi"@[0] != "effetti di paura"@[0]);
    assert("Livelli Negativi"@ != "effetti di paura"@);
    assert("Livelli Negativi"@[0] != "Effetti di paura"@[0]);
    assert("Livelli Negativi"@ != "Effetti di paura"@);
    assert("Livelli Negativi"@[0] != "Attacchi Furtivi"@[0]);
    assert("Livelli Negativi"@ != "Attacchi Furtivi"@);
    assert("Livelli Negativi"@[0] != "danni delle armi"@[0]);
    assert("Livelli Negativi"@ != "danni delle armi"@);
    assert("Livelli Negativi"@[0] != "Danni dalle Armi"@[0]);
    assert("Livelli Negativi"@ != "Danni dalle Armi"@);
    assert("Livelli Negativi"@[0] != "Armi contundenti"@[0]);
    assert("Livelli Negativi"@ != "Armi contundenti"@);
    assert("Livelli Negativi"@[0] != "danni perforanti"@[0]);
    assert("Livelli Negativi"@ != "danni perforanti"@);
    assert("Livelli Negativi"@[0] != "Fiancheggiamento"@[0]);
    assert("Livelli Negativi"@ != "Fiancheggiamento"@);
    assert("Livelli Negativi"@[0] != "Danni Non Letali"@[0]);
    assert("Livelli Negativi"@ != "Danni Non Letali"@);
    assert("Livelli Negativi"@[0] != "Danno non letale"@[0]);
    assert("Livelli Negativi"@ != "Danno non letale"@);
    assert("Livelli Negativi"@[0] != "Effetti di morte"@[0]);
    assert("Livelli Negativi"@ != "Effetti di morte"@);
    assert("Livelli Negativi"@[0] != "Effetti di Morte"@[0]);
    assert("Livelli Negativi"@ != "Effetti di Morte"@);
    assert("Livelli Negativi"@[0] != "effetti di morte"@[0]);
    assert("Livelli Negativi"@ != "effetti di morte"@);
    assert("Livelli Negativi"@[0] != "illusioni visive"@[0]);
    assert("Livelli Negativi"@ != "illusioni visive"@);
    assert("Livelli Negativi"@[0] != "Effetti di forza"@[0]);
    assert("Livelli Negativi"@ != "Effetti di forza"@);
    assert("Livelli Negativi"@[0] != "livelli negativi"@[0]);
    assert("Livelli Negativi"@ != "livelli negativi"@);
}

proof fn lemma_read_immunity_asdrain(s: Seq<char>)
    requires
        immunity_named(Immunity_Type::Immunity_ASDrain, s),
    ensures
        spec_single_immunity(s) == Some(Immunity_Type::Immunity_ASDrain),
{
    reveal_strlit("Abbagliamenti");
    reveal_strlit("Abbagliamento");
    reveal_strlit("Abbagliato");
    reveal_strlit("Accecato");
    reveal_strlit("Acido");
    reveal_strlit("Affaticamento");
    reveal_strlit("Affaticato");
    reveal_strlit("Ammaliamento");
    reveal_strlit("Ancora Dimensionale");
    reveal_strlit("Armi Taglienti");
    reveal_strlit("Armi contundenti");
    reveal_strlit("Assorbimento del Fuoco");
    reveal_strlit("Attacchi Furtivi");
    reveal_strlit("Attacchi ai Fianchi");
    reveal_strlit("Attacchi basati sull'olfatto");
    reveal_strlit("Attacchi basati sulla vista");
    reveal_strlit("Attacchi basati sulla vista o sguardo");
    reveal_strlit("Attacchi con Sguardo");
    reveal_strlit("Attacchi con lo sguardo");
    reveal_strlit("Attacchi dipendenti dalla vista");
    reveal_strlit("Barcollante");
    reveal_strlit("Barcollare");
    reveal_strlit("Cecità");
    reveal_strlit("Charme");
    reveal_strlit("Colpi Critici");
    reveal_strlit("Colpi critici");
    reveal_strlit("Condizione Affaticato");
    reveal_strlit("Condizione Esausto");
    reveal_strlit("Confusione");
    reveal_strlit("Congedo");
    reveal_strlit("Danni Non Letali");
    reveal_strlit("Danni contundenti");
    reveal_strlit("Danni da arma");
    reveal_strlit("Danni da armi");
    reveal_strlit("Danni dalle Armi");
    reveal_strlit("Danni perforanti e taglienti");
    reveal_strlit("Danno da Pressione");
    reveal_strlit("Danno da arma");
    reveal_strlit("Danno non letale");
    reveal_strlit("Demenza");
    reveal_strlit("Divinazione");
    reveal_strlit("Dolore");
    reveal_strlit("Effetti a completamento di incantesimo e ad attivazione di incantesimo");
    reveal_strlit("Effetti basati sulla vista");
    reveal_strlit("Effetti d'influenza mentale");
    reveal_strlit("Effetti di Charme e Compulsione");
    reveal_strlit("Effetti di Demenza");
    reveal_strlit("Effetti di Influenza Mentale");
    reveal_strlit("Effetti di Morte");
    reveal_strlit("Effetti di Paura");
    reveal_strlit("Effetti di Sonno");
    reveal_strlit("Effetti di charme");
    reveal_strlit("Effetti di charme e compulsioni");
    reveal_strlit("Effetti di confusione e follia");
    reveal_strlit("Effetti di dolore");
    reveal_strlit("Effetti di forza");
    reveal_strlit("Effetti di influenza mentale");
    reveal_strlit("Effetti di morte");
    reveal_strlit("Effetti di morte (vedi sotto)");
    reveal_strlit("Effetti di paura");
    reveal_strlit("Effetti di sonno");
    reveal_strlit("Effetti visivi");
    reveal_strlit("Elettricità");
    reveal_strlit("Elettricità (parziale)");
    reveal_strlit("Energia Negativa");
    reveal_strlit("Energia Positiva");
    reveal_strlit("Esaurimento");
    reveal_strlit("Esausto");
    reveal_strlit("Fatica");
    reveal_strlit("Fiancheggiamento");
    reveal_strlit("Forza");
    reveal_strlit("Frastornamento");
    reveal_strlit("Frastornato");
    reveal_strlit("Freddo");
    reveal_strlit("Freddo (sé stesso e chi lo cavalca)");
    reveal_strlit("Fuoco");
    reveal_strlit("Fuoco Infernale");
    reveal_strlit("Illusione");
    reveal_strlit("Illusioni e qualsiasi attacco basato sulla vista");
    reveal_strlit("Immunità agli Incantesimi");
    reveal_strlit("Immunità al Freddo");
    reveal_strlit("Immunità all'Esilio");
    reveal_strlit("Immunità alla Magia");
    reveal_strlit("Incantesimi di Ammaliamento e di Illusione");
    reveal_strlit("Individuazione dei Pensieri");
    reveal_strlit("Individuazione dell'Allineamento");
    reveal_strlit("Infermità");
    reveal_strlit("Infermo");
    reveal_strlit("Invecchiamento");
    reveal_strlit("Livelli Negativi");
    reveal_strlit("Magia");
    reveal_strlit("Malattia");
    reveal_strlit("Malattie");
    reveal_strlit("Maledizioni");
    reveal_strlit("Metamorfosi");
    reveal_strlit("Nausea");
    reveal_strlit("Nauseato");
    reveal_strlit("Non Deformante");
    reveal_strlit("Paralisi");
    reveal_strlit("Paura");
    reveal_strlit("Pietrificazione");
    reveal_strlit("Richiamo");
    reveal_strlit("Risucchi di Energia");
    reveal_strlit("Risucchio di Caratteristiche");
    reveal_strlit("Risucchio di Energia");
    reveal_strlit("Rivela Bugie");
    reveal_strlit("Sanguinamento");
    reveal_strlit("Sanguinamento (solo Punti Ferita)");
    reveal_strlit("Scosso");
    reveal_strlit("Sguardo");
    reveal_strlit("Sonno");
    reveal_strlit("Sonoro");
    reveal_strlit("Sordità");
    reveal_strlit("Spaventato");
    reveal_strlit("Stordimento");
    reveal_strlit("Veleni");
    reveal_strlit("Veleno");
    reveal_strlit("Veleno Ingerito");
    reveal_strlit("acido");
    reveal_strlit("attacchi basati sulla vista ed effetti visivi");
    reveal_strlit("attacchi con Sguardo");
    reveal_strlit("attacchi con lo Sguardo");
    reveal_strlit("attacchi con lo sguardo");
    reveal_strlit("charme");
    reveal_strlit("charme sui mostri");
    reveal_strlit("compulsione");
    reveal_strlit("controllo mentale");
    reveal_strlit("contundente");
    reveal_strlit("da caduta e da schiacciamento");
    reveal_strlit("danni contundenti");
    reveal_strlit("danni contundenti e perforanti");
    reveal_strlit("danni da arma");
    reveal_strlit("danni da armi");
    reveal_strlit("danni da precisione");
    reveal_strlit("danni delle armi");
    reveal_strlit("danni di precisione");
    reveal_strlit("danni perforanti");
    reveal_strlit("danni taglienti");
    reveal_strlit("danni taglienti e perforanti");
    reveal_strlit("danno da arma");
    reveal_strlit("danno di precisione");
    reveal_strlit("di influenza mentale e basati sullo Sguardo");
    reveal_strlit("divinazione");
    reveal_strlit("dolore");
    reveal_strlit("effetti Barcollanti");
    reveal_strlit("effetti basati sulla vista");
    reveal_strlit("effetti che bersagliano uno specifico numero di creature");
    reveal_strlit("effetti di Charme e Compulsione");
    reveal_strlit("effetti di Metamorfosi");
    reveal_strlit("effetti di Paura");
    reveal_strlit("effetti di Paura ed influenza mentale");
    reveal_strlit("effetti di Sguardo");
    reveal_strlit("effetti di Sonno");
    reveal_strlit("effetti di ammaliamento");
    reveal_strlit("effetti di charme");
    reveal_strlit("effetti di charme e compulsione");
    reveal_strlit("effetti di charme e compulsioni");
    reveal_strlit("effetti di compulsione");
    reveal_strlit("effetti di confusione e demenza");
    reveal_strlit("effetti di demenza");
    reveal_strlit("effetti di influenza mentale");
    reveal_strlit("effetti di influenza mentale e visivi");
    reveal_strlit("effetti di luce");
    reveal_strlit("effetti di maledizione");
    reveal_strlit("effetti di maledizioni");
    reveal_strlit("effetti di metamorfosi");
    reveal_strlit("effetti di morte");
    reveal_strlit("effetti di necromanzia");
    reveal_strlit("effetti di paura");
    reveal_strlit("effetti di sguardo");
    reveal_strlit("effetti di sonno");
    reveal_strlit("effetti e illusioni visive");
    reveal_strlit("effetti polimorfi");
    reveal_strlit("effetti sensoriali");
    reveal_strlit("effetti visivi");
    reveal_strlit("effetti visivi e illusioni");
    reveal_strlit("elettricità");
    reveal_strlit("emozioni");
    reveal_strlit("energia negativa");
    reveal_strlit("ferite permanenti");
    reveal_strlit("forza");
    reveal_strlit("freddo");
    reveal_strlit("fulmine");
    reveal_strlit("fuoco");
    reveal_strlit("illusioni");
    reveal_strlit("illusioni visive");
    reveal_strlit("invecchiamento");
    reveal_strlit("livelli negativi");
    reveal_strlit("malattia");
    reveal_strlit("malattie");
    reveal_strlit("maledizioni");
    reveal_strlit("metamorfosi");
    reveal_strlit("nausea");
    reveal_strlit("palla di fuoco");
    reveal_strlit("paralisi");
    reveal_strlit("paura");
    reveal_strlit("pietrificazione");
    reveal_strlit("possessione");
    reveal_strlit("risucchi di caratteristiche");
    reveal_strlit("risucchi di energia");
    reveal_strlit("risucchio di caratteristica");
    reveal_strlit("risucchio di caratteristiche");
    reveal_strlit("risucchio di energia");
    reveal_strlit("ruggine");
    reveal_strlit("sanguinamento");
    reveal_strlit("sonno");
    reveal_strlit("sonoro");
    reveal_strlit("sordità");
    reveal_strlit("stordimento");
    reveal_strlit("veleni");
    reveal_strlit("veleno");
    reveal_strlit("visivi ed illusori");
    assert("Abbagliamenti"@.len() == 13);
    assert("Abbagliamento"@.len() == 13);
    assert("Abbagliato"@.len() == 10);
    assert("Accecato"@.len() == 8);
    assert("Acido"@.len() == 5);
    assert("Affaticamento"@.len() == 13);
    assert("Affaticato"@.len() == 10);
    assert("Ammaliamento"@.len() == 12);
    assert("Ancora Dimensionale"@.len() == 19);
    assert("Armi Taglienti"@.len() == 14);
    assert("Armi contundenti"@.len() == 16);
    assert("Assorbimento del Fuoco"@.len() == 22);
    assert("Attacchi Furtivi"@.len() == 16);
    assert("Attacchi ai Fianchi"@.len() == 19);
    assert("Attacchi basati sull'olfatto"@.len() == 28);
    assert("Attacchi basati sulla vista"@.len() == 27);
    assert("Attacchi basati sulla vista o sguardo"@.len() == 37);
    assert("Attacchi con Sguardo"@.len() == 20);
    assert("Attacchi con lo sguardo"@.len() == 23);
    assert("Attacchi dipendenti dalla vista"@.len() == 31);
    assert("Barcollante"@.len() == 11);
    assert("Barcollare"@.len() == 10);
    assert("Cecità"@.len() == 6);
    assert("Charme"@.len() == 6);
    assert("Colpi Critici"@.len() == 13);
    assert("Colpi critici"@.len() == 13);
    assert("Condizione Affaticato"@.len() == 21);
    assert("Condizione Esausto"@.len() == 18);
    assert("Confusione"@.len() == 10);
    assert("Congedo"@.len() == 7);
    assert("Danni Non Letali"@.len() == 16);
    assert("Danni contundenti"@.len() == 17);
    assert("Danni da arma"@.len() == 13);
    assert("Danni da armi"@.len() == 13);
    assert("Danni dalle Armi"@.len() == 16);
    assert("Danni perforanti e taglienti"@.len() == 28);
    assert("Danno da Pressione"@.len() == 18);
    assert("Danno da arma"@.len() == 13);
    assert("Danno non letale"@.len() == 16);
    assert("Demenza"@.len() == 7);
    assert("Divinazione"@.len() == 11);
    assert("Dolore"@.len() == 6);
    assert("Effetti a completamento di incantesimo e ad attivazione di incantesimo"@.len() == 70);
    assert("Effetti basati sulla vista"@.len() == 26);
    assert("Effetti d'influenza mentale"@.len() == 27);
    assert("Effetti di Charme e Compulsione"@.len() == 31);
    assert("Effetti di Demenza"@.len() == 18);
    assert("Effetti di Influenza Mentale"@.len() == 28);
    assert("Effetti di Morte"@.len() == 16);
    assert("Effetti di Paura"@.len() == 16);
    assert("Effetti di Sonno"@.len() == 16);
    assert("Effetti di charme"@.len() == 17);
    assert("Effetti di charme e compulsioni"@.len() == 31);
    assert("Effetti di confusione e follia"@.len() == 30);
    assert("Effetti di dolore"@.len() == 17);
    assert("Effetti di forza"@.len() == 16);
    assert("Effetti di influenza mentale"@.len() == 28);
    assert("Effetti di morte"@.len() == 16);
    assert("Effetti di morte (vedi sotto)"@.len() == 29);
    assert("Effetti di paura"@.len() == 16);
    assert("Effetti di sonno"@.len() == 16);
    assert("Effetti visivi"@.len() == 14);
    assert("Elettricità"@.len() == 11);
    assert("Elettricità (parziale)"@.len() == 22);
    assert("Energia Negativa"@.len() == 16);
    assert("Energia Positiva"@.len() == 16);
    assert("Esaurimento"@.len() == 11);
    assert("Esausto"@.len() == 7);
    assert("Fatica"@.len() == 6);
    assert("Fiancheggiamento"@.len() == 16);
    assert("Forza"@.len() == 5);
    assert("Frastornamento"@.len() == 14);
    assert("Frastornato"@.len() == 11);
    assert("Freddo"@.len() == 6);
    assert("Freddo (sé stesso e chi lo cavalca)"@.len() == 35);
    assert("Fuoco"@.len() == 5);
    assert("Fuoco Infernale"@.len() == 15);
    assert("Illusione"@.len() == 9);
    assert("Illusioni e qualsiasi attacco basato sulla vista"@.len() == 48);
    assert("Immunità agli Incantesimi"@.len() == 25);
    assert("Immunità al Freddo"@.len() == 18);
    assert("Immunità all'Esilio"@.len() == 19);
    assert("Immunità alla Magia"@.len() == 19);
    assert("Incantesimi di Ammaliamento e di Illusione"@.len() == 42);
    assert("Individuazione dei Pensieri"@.len() == 27);
    assert("Individuazione dell'Allineamento"@.len() == 32);
    assert("Infermità"@.len() == 9);
    assert("Infermo"@.len() == 7);
    assert("Invecchiamento"@.len() == 14);
    assert("Livelli Negativi"@.len() == 16);
    assert("Magia"@.len() == 5);
    assert("Malattia"@.len() == 8);
    assert("Malattie"@.len() == 8);
    assert("Maledizioni"@.len() == 11);
    assert("Metamorfosi"@.len() == 11);
    assert("Nausea"@.len() == 6);
    assert("Nauseato"@.len() == 8);
    assert("Non Deformante"@.len() == 14);
    assert("Paralisi"@.len() == 8);
    assert("Paura"@.len() == 5);
    assert("Pietrificazione"@.len() == 15);
    assert("Richiamo"@.len() == 8);
    assert("Risucchi di Energia"@.len() == 19);
    assert("Risucchio di Caratteristiche"@.len() == 28);
    assert("Risucchio di Energia"@.len() == 20);
    assert("Rivela Bugie"@.len() == 12);
    assert("Sanguinamento"@.len() == 13);
    assert("Sanguinamento (solo Punti Ferita)"@.len() == 33);
    assert("Scosso"@.len() == 6);
    assert("Sguardo"@.len() == 7);
    assert("Sonno"@.len() == 5);
    assert("Sonoro"@.len() == 6);
    assert("Sordità"@.len() == 7);
    assert("Spaventato"@.len() == 10);
    assert("Stordimento"@.len() == 11);
    assert("Veleni"@.len() == 6);
    assert("Veleno"@.len() == 6);
    assert("Veleno Ingerito"@.len() == 15);
    assert("acido"@.len() == 5);
    assert("attacchi basati sulla vista ed effetti visivi"@.len() == 45);
    assert("attacchi con Sguardo"@.len() == 20);
    assert("attacchi con lo Sguardo"@.len() == 23);
    assert("attacchi con lo sguardo"@.len() == 23);
    assert("charme"@.len() == 6);
    assert("charme sui mostri"@.len() == 17);
    assert("compulsione"@.len() == 11);
    assert("controllo mentale"@.len() == 17);
    assert("contundente"@.len() == 11);
    assert("da caduta e da schiacciamento"@.len() == 29);
    assert("danni contundenti"@.len() == 17);
    assert("danni contundenti e perforanti"@.len() == 30);
    assert("danni da arma"@.len() == 13);
    assert("danni da armi"@.len() == 13);
    assert("danni da precisione"@.len() == 19);
    assert("danni delle armi"@.len() == 16);
    assert("danni di precisione"@.len() == 19);
    assert("danni perforanti"@.len() == 16);
    assert("danni taglienti"@.len() == 15);
    assert("danni taglienti e perforanti"@.len() == 28);
    assert("danno da arma"@.len() == 13);
    assert("danno di precisione"@.len() == 19);
    assert("di influenza mentale e basati sullo Sguardo"@.len() == 43);
    assert("divinazione"@.len() == 11);
    assert("dolore"@.len() == 6);
    assert("effetti Barcollanti"@.len() == 19);
    assert("effetti basati sulla vista"@.len() == 26);
    assert("effetti che bersagliano uno specifico numero di creature"@.len() == 56);
    assert("effetti di Charme e Compulsione"@.len() == 31);
    assert("effetti di Metamorfosi"@.len() == 22);
    assert("effetti di Paura"@.len() == 16);
    assert("effetti di Paura ed influenza mentale"@.len() == 37);
    assert("effetti di Sguardo"@.len() == 18);
    assert("effetti di Sonno"@.len() == 16);
    assert("effetti di ammaliamento"@.len() == 23);
    assert("effetti di charme"@.len() == 17);
    assert("effetti di charme e compulsione"@.len() == 31);
    assert("effetti di charme e compulsioni"@.len() == 31);
    assert("effetti di compulsione"@.len() == 22);
    assert("effetti di confusione e demenza"@.len() == 31);
    assert("effetti di demenza"@.len() == 18);
    assert("effetti di influenza mentale"@.len() == 28);
    assert("effetti di influenza mentale e visivi"@.len() == 37);
    assert("effetti di luce"@.len() == 15);
    assert("effetti di maledizione"@.len() == 22);
    assert("effetti di maledizioni"@.len() == 22);
    assert("effetti di metamorfosi"@.len() == 22);
    assert("effetti di morte"@.len() == 16);
    assert("effetti di necromanzia"@.len() == 22);
    assert("effetti di paura"@.len() == 16);
    assert("effetti di sguardo"@.len() == 18);
    assert("effetti di sonno"@.len() == 16);
    assert("effetti e illusioni visive"@.len() == 26);
    assert("effetti polimorfi"@.len() == 17);
    assert("effetti sensoriali"@.len() == 18);
    assert("effetti visivi"@.len() == 14);
    assert("effetti visivi e illusioni"@.len() == 26);
    assert("elettricità"@.len() == 11);
    assert("emozioni"@.len() == 8);
    assert("energia negativa"@.len() == 16);
    assert("ferite permanenti"@.len() == 17);
    assert("forza"@.len() == 5);
    assert("freddo"@.len() == 6);
    assert("fulmine"@.len() == 7);
    assert("fuoco"@.len() == 5);
    assert("illusioni"@.len() == 9);
    assert("illusioni visive"@.len() == 16);
    assert("invecchiamento"@.len() == 14);
    assert("livelli negativi"@.len() == 16);
    assert("malattia"@.len() == 8);
    assert("malattie"@.len() == 8);
    assert("maledizioni"@.len() == 11);
    assert("metamorfosi"@.len() == 11);
    assert("nausea"@.len() == 6);
    assert("palla di fuoco"@.len() == 14);
    assert("paralisi"@.len() == 8);
    assert("paura"@.len() == 5);
    assert("pietrificazione"@.len() == 15);
    assert("possessione"@.len() == 11);
    assert("risucchi di caratteristiche"@.len() == 27);
    assert("risucchi di energia"@.len() == 19);
    assert("risucchio di caratteristica"@.len() == 27);
    assert("risucchio di caratteristiche"@.len() == 28);
    assert("risucchio di energia"@.len() == 20);
    assert("ruggine"@.len() == 7);
    assert("sanguinamento"@.len() == 13);
    assert("sonno"@.len() == 5);
    assert("sonoro"@.len() == 6);
    assert("sordità"@.len() == 7);
    assert("stordimento"@.len() == 11);
    assert("veleni"@.len() == 6);
    assert("veleno"@.len() == 6);
    assert("visivi ed illusori"@.len() == 18);
    assert("Risucchio di Caratteristiche"@[0] != "Attacchi basati sull'olfatto"@[0]);
    assert("Risucchio di Caratteristiche"@ != "Attacchi basati sull'olfatto"@);
    assert("Risucchio di Caratteristiche"@[0] != "Danni perforanti e taglienti"@[0]);
    assert("Risucchio di Caratteristiche"@ != "Danni perforanti e taglienti"@);
    assert("Risucchio di Caratteristiche"@[0] != "danni taglienti e perforanti"@[0]);
    assert("Risucchio di Caratteristiche"@ != "danni taglienti e perforanti"@);
    assert("Risucchio di Caratteristiche"@[0] != "Effetti di Influenza Mentale"@[0]);
    assert("Risucchio di Caratteristiche"@ != "Effetti di Influenza Mentale"@);
    assert("Risucchio di Caratteristiche"@[0] != "Effetti di influenza mentale"@[0]);
    assert("Risucchio di Caratteristiche"@ != "Effetti di influenza mentale"@);
    assert("Risucchio di Caratteristiche"@[0] != "effetti di influenza mentale"@[0]);
    assert("Risucchio di Caratteristiche"@ != "effetti di influenza mentale"@);
    assert("risucchio di caratteristiche"@[0] != "Attacchi basati sull'olfatto"@[0]);
    assert("risucchio di caratteristiche"@ != "Attacchi basati sull'olfatto"@);
    assert("risucchio di caratteristiche"@[0] != "Danni perforanti e taglienti"@[0]);
    assert("risucchio di caratteristiche"@ != "Danni perforanti e taglienti"@);
    assert("risucchio di caratteristiche"@[0] != "danni taglienti e perforanti"@[0]);
    assert("risucchio di caratteristiche"@ != "danni taglienti e perforanti"@);
    assert("risucchio di caratteristiche"@[0] != "Effetti di Influenza Mentale"@[0]);
    assert("risucchio di caratteristiche"@ != "Effetti di Influenza Mentale"@);
    assert("risucchio di caratteristiche"@[0] != "Effetti di influenza mentale"@[0]);
    assert("risucchio di caratteristiche"@ != "Effetti di influenza mentale"@);
    assert("risucchio di caratteristiche"@[0] != "effetti di influenza mentale"@[0]);
    assert("risucchio di caratteristiche"@ != "effetti di influenza mentale"@);
    assert("risucchio di caratteristiche"@[0] != "Risucchio di Caratteristiche"@[0]);
    assert("risucchio di caratteristiche"@ != "Risucchio di Caratteristiche"@);
    assert("risucchi di caratteristiche"@[0] != "Attacchi basati sulla vista"@[0]);
    assert("risucchi di caratteristiche"@ != "Attacchi basati sulla vista"@);
    assert("risucchi di caratteristiche"@[0] != "Effetti d'influenza mentale"@[0]);
    assert("risucchi di caratteristiche"@ != "Effetti d'influenza mentale"@);
    assert("risucchi di caratteristiche"@[0] != "Individuazione dei Pensieri"@[0]);
    assert("risucchi di caratteristiche"@ != "Individuazione dei Pensieri"@);
    assert("risucchio di caratteristica"@[0] != "Attacchi basati sulla vista"@[0]);
    assert("risucchio di caratteristica"@ != "Attacchi basati sulla vista"@);
    assert("risucchio di caratteristica"@[0] != "Effetti d'influenza mentale"@[0]);
    assert("risucchio di caratteristica"@ != "Effetti d'influenza mentale"@);
    assert("risucchio di caratteristica"@[0] != "Individuazione dei Pensieri"@[0]);
    assert("risucchio di caratteristica"@ != "Individuazione dei Pensieri"@);
    assert("risucchio di caratteristica"@[8] != "risucchi di caratteristiche"@[8]);
    assert("risucchio di caratteristica"@ != "risucchi di caratteristiche"@);
}

proof fn lemma_read_immunity_asdmg(s: Seq<char>)
    requires
        immunity_named(Immunity_Type::Immunity_ASDmg, s),
    ensures
        spec_single_immunity(s) == Some(Immunity_Type::Immunity_ASDmg),
{
    reveal_strlit("Abbagliamenti");
    reveal_strlit("Abbagliamento");
    reveal_strlit("Abbagliato");
    reveal_strlit("Accecato");
    reveal_strlit("Acido");
    reveal_strlit("Affaticamento");
    reveal_strlit("Affaticato");
    reveal_strlit("Ammaliamento");
    reveal_strlit("Ancora Dimensionale");
    reveal_strlit("Armi Taglienti");
    reveal_strlit("Armi contundenti");
    reveal_strlit("Assorbimento del Fuoco");
    reveal_strlit("Attacchi Furtivi");
    reveal_strlit("Attacchi ai Fianchi");
    reveal_strlit("Attacchi basati sull'olfatto");
    reveal_strlit("Attacchi basati sulla vista");
    reveal_strlit("Attacchi basati sulla vista o sguardo");
    reveal_strlit("Attacchi con Sguardo");
    reveal_strlit("Attacchi con lo sguardo");
    reveal_strlit("Attacchi dipendenti dalla vista");
    reveal_strlit("Barcollante");
    reveal_strlit("Barcollare");
    reveal_strlit("Cecità");
    reveal_strlit("Charme");
    reveal_strlit("Colpi Critici");
    reveal_strlit("Colpi critici");
    reveal_strlit("Condizione Affaticato");
    reveal_strlit("Condizione Esausto");
    reveal_strlit("Confusione");
    reveal_strlit("Congedo");
    reveal_strlit("Danni Non Letali");
    reveal_strlit("Danni alle caratteristiche");
    reveal_strlit("Danni contundenti");
    reveal_strlit("Danni da arma");
    reveal_strlit("Danni da armi");
    reveal_strlit("Danni dalle Armi");
    reveal_strlit("Danni perforanti e taglienti");
    reveal_strlit("Danno alle Caratteristiche");
    reveal_strlit("Danno da Pressione");
    reveal_strlit("Danno da arma");
    reveal_strlit("Danno non letale");
    reveal_strlit("Demenza");
    reveal_strlit("Divinazione");
    reveal_strlit("Dolore");
    reveal_strlit("Effetti a completamento di incantesimo e ad attivazione di incantesimo");
    reveal_strlit("Effetti basati sulla vista");
    reveal_strlit("Effetti d'influenza mentale");
    reveal_strlit("Effetti di Charme e Compulsione");
    reveal_strlit("Effetti di Demenza");
    reveal_strlit("Effetti di Influenza Mentale");
    reveal_strlit("Effetti di Morte");
    reveal_strlit("Effetti di Paura");
    reveal_strlit("Effetti di Sonno");
    reveal_strlit("Effetti di charme");
    reveal_strlit("Effetti di charme e compulsioni");
    reveal_strlit("Effetti di confusione e follia");
    reveal_strlit("Effetti di dolore");
    reveal_strlit("Effetti di forza");
    reveal_strlit("Effetti di influenza mentale");
    reveal_strlit("Effetti di morte");
    reveal_strlit("Effetti di morte (vedi sotto)");
    reveal_strlit("Effetti di paura");
    reveal_strlit("Effetti di sonno");
    reveal_strlit("Effetti visivi");
    reveal_strlit("Elettricità");
    reveal_strlit("Elettricità (parziale)");
    reveal_strlit("Energia Negativa");
    reveal_strlit("Energia Positiva");
    reveal_strlit("Esaurimento");
    reveal_strlit("Esausto");
    reveal_strlit("Fatica");
    reveal_strlit("Fiancheggiamento");
    reveal_strlit("Forza");
    reveal_strlit("Frastornamento");
    reveal_strlit("Frastornato");
    reveal_strlit("Freddo");
    reveal_strlit("Freddo (sé stesso e chi lo cavalca)");
    reveal_strlit("Fuoco");
    reveal_strlit("Fuoco Infernale");
    reveal_strlit("Illusione");
    reveal_strlit("Illusioni e qualsiasi attacco basato sulla vista");
    reveal_strlit("Immunità agli Incantesimi");
    reveal_strlit("Immunità al Freddo");
    reveal_strlit("Immunità all'Esilio");
    reveal_strlit("Immunità alla Magia");
    reveal_strlit("Incantesimi di Ammaliamento e di Illusione");
    reveal_strlit("Individuazione dei Pensieri");
    reveal_strlit("Individuazione dell'Allineamento");
    reveal_strlit("Infermità");
    reveal_strlit("Infermo");
    reveal_strlit("Invecchiamento");
    reveal_strlit("Livelli Negativi");
    reveal_strlit("Magia");
    reveal_strlit("Malattia");
    reveal_strlit("Malattie");
    reveal_strlit("Maledizioni");
    reveal_strlit("Metamorfosi");
    reveal_strlit("Nausea");
    reveal_strlit("Nauseato");
    reveal_strlit("Non Deformante");
    reveal_strlit("Paralisi");
    reveal_strlit("Paura");
    reveal_strlit("Pietrificazione");
    reveal_strlit("Richiamo");
    reveal_strlit("Risucchi di Energia");
    reveal_strlit("Risucchio di Caratteristiche");
    reveal_strlit("Risucchio di Energia");
    reveal_strlit("Rivela Bugie");
    reveal_strlit("Sanguinamento");
    reveal_strlit("Sanguinamento (solo Punti Ferita)");
    reveal_strlit("Scosso");
    reveal_strlit("Sguardo");
    reveal_strlit("Sonno");
    reveal_strlit("Sonoro");
    reveal_strlit("Sordità");
    reveal_strlit("Spaventato");
    reveal_strlit("Stordimento");
    reveal_strlit("Veleni");
    reveal_strlit("Veleno");
    reveal_strlit("Veleno Ingerito");
    reveal_strlit("acido");
    reveal_strlit("attacchi basati sulla vista ed effetti visivi");
    reveal_strlit("attacchi con Sguardo");
    reveal_strlit("attacchi con lo Sguardo");
    reveal_strlit("attacchi con lo sguardo");
    reveal_strlit("charme");
    reveal_strlit("charme sui mostri");
    reveal_strlit("compulsione");
    reveal_strlit("controllo mentale");
    reveal_strlit("contundente");
    reveal_strlit("da caduta e da schiacciamento");
    reveal_strlit("danni alle Caratteristiche");
    reveal_strlit("danni alle caratteristiche");
    reveal_strlit("danni contundenti");
    reveal_strlit("danni contundenti e perforanti");
    reveal_strlit("danni da arma");
    reveal_strlit("danni da armi");
    reveal_strlit("danni da precisione");
    reveal_strlit("danni delle armi");
    reveal_strlit("danni di precisione");
    reveal_strlit("danni perforanti");
    reveal_strlit("danni taglienti");
    reveal_strlit("danni taglienti e perforanti");
    reveal_strlit("danno da arma");
    reveal_strlit("danno di precisione");
    reveal_strlit("di influenza mentale e basati sullo Sguardo");
    reveal_strlit("divinazione");
    reveal_strlit("dolore");
    reveal_strlit("effetti Barcollanti");
    reveal_strlit("effetti basati sulla vista");
    reveal_strlit("effetti che bersagliano uno specifico numero di creature");
    reveal_strlit("effetti di Charme e Compulsione");
    reveal_strlit("effetti di Metamorfosi");
    reveal_strlit("effetti di Paura");
    reveal_strlit("effetti di Paura ed influenza mentale");
    reveal_strlit("effetti di Sguardo");
    reveal_strlit("effetti di Sonno");
    reveal_strlit("effetti di ammaliamento");
    reveal_strlit("effetti di charme");
    reveal_strlit("effetti di charme e compulsione");
    reveal_strlit("effetti di charme e compulsioni");
    reveal_strlit("effetti di compulsione");
    reveal_strlit("effetti di confusione e demenza");
    reveal_strlit("effetti di demenza");
    reveal_strlit("effetti di influenza mentale");
    reveal_strlit("effetti di influenza mentale e visivi");
    reveal_strlit("effetti di luce");
    reveal_strlit("effetti di maledizione");
    reveal_strlit("effetti di maledizioni");
    reveal_strlit("effetti di metamorfosi");
    reveal_strlit("effetti di morte");
    reveal_strlit("effetti di necromanzia");
    reveal_strlit("effetti di paura");
    reveal_strlit("effetti di sguardo");
    reveal_strlit("effetti di sonno");
    reveal_strlit("effetti e illusioni visive");
    reveal_strlit("effetti polimorfi");
    reveal_strlit("effetti sensoriali");
    reveal_strlit("effetti visivi");
    reveal_strlit("effetti visivi e illusioni");
    reveal_strlit("elettricità");
    reveal_strlit("emozioni");
    reveal_strlit("energia negativa");
    reveal_strlit("ferite permanenti");
    reveal_strlit("forza");
    reveal_strlit("freddo");
    reveal_strlit("fulmine");
    reveal_strlit("fuoco");
    reveal_strlit("illusioni");
    reveal_strlit("illusioni visive");
    reveal_strlit("invecchiamento");
    reveal_strlit("livelli negativi");
    reveal_strlit("malattia");
    reveal_strlit("malattie");
    reveal_strlit("maledizioni");
    reveal_strlit("metamorfosi");
    reveal_strlit("nausea");
    reveal_strlit("palla di fuoco");
    reveal_strlit("paralisi");
    reveal_strlit("paura");
    reveal_strlit("pietrificazione");
    reveal_strlit("possessione");
    reveal_strlit("risucchi di caratteristiche");
    reveal_strlit("risucchi di energia");
    reveal_strlit("risucchio di caratteristica");
    reveal_strlit("risucchio di caratteristiche");
    reveal_strlit("risucchio di energia");
    reveal_strlit("ruggine");
    reveal_strlit("sanguinamento");
    reveal_strlit("sonno");
    reveal_strlit("sonoro");
    reveal_strlit("sordità");
    reveal_strlit("stordimento");
    reveal_strlit("veleni");
    reveal_strlit("veleno");
    reveal_strlit("visivi ed illusori");
    assert("Abbagliamenti"@.len() == 13);
    assert("Abbagliamento"@.len() == 13);
    assert("Abbagliato"@.len() == 10);
    assert("Accecato"@.len() == 8);
    assert("Acido"@.len() == 5);
    assert("Affaticamento"@.len() == 13);
    assert("Affaticato"@.len() == 10);
    assert("Ammaliamento"@.len() == 12);
    assert("Ancora Dimensionale"@.len() == 19);
    assert("Armi Taglienti"@.len() == 14);
    assert("Armi contundenti"@.len() == 16);
    assert("Assorbimento del Fuoco"@.len() == 22);
    assert("Attacchi Furtivi"@.len() == 16);
    assert("Attacchi ai Fianchi"@.len() == 19);
    assert("Attacchi basati sull'olfatto"@.len() == 28);
    assert("Attacchi basati sulla vista"@.len() == 27);
    assert("Attacchi basati sulla vista o sguardo"@.len() == 37);
    assert("Attacchi con Sguardo"@.len() == 20);
    assert("Attacchi con lo sguardo"@.len() == 23);
    assert("Attacchi dipendenti dalla vista"@.len() == 31);
    assert("Barcollante"@.len() == 11);
    assert("Barcollare"@.len() == 10);
    assert("Cecità"@.len() == 6);
    assert("Charme"@.len() == 6);
    assert("Colpi Critici"@.len() == 13);
    assert("Colpi critici"@.len() == 13);
    assert("Condizione Affaticato"@.len() == 21);
    assert("Condizione Esausto"@.len() == 18);
    assert("Confusione"@.len() == 10);
    assert("Congedo"@.len() == 7);
    assert("Danni Non Letali"@.len() == 16);
    assert("Danni alle caratteristiche"@.len() == 26);
    assert("Danni contundenti"@.len() == 17);
    assert("Danni da arma"@.len() == 13);
    assert("Danni da armi"@.len() == 13);
    assert("Danni dalle Armi"@.len() == 16);
    assert("Danni perforanti e taglienti"@.len() == 28);
    assert("Danno alle Caratteristiche"@.len() == 26);
    assert("Danno da Pressione"@.len() == 18);
    assert("Danno da arma"@.len() == 13);
    assert("Danno non letale"@.len() == 16);
    assert("Demenza"@.len() == 7);
    assert("Divinazione"@.len() == 11);
    assert("Dolore"@.len() == 6);
    assert("Effetti a completamento di incantesimo e ad attivazione di incantesimo"@.len() == 70);
    assert("Effetti basati sulla vista"@.len() == 26);
    assert("Effetti d'influenza mentale"@.len() == 27);
    assert("Effetti di Charme e Compulsione"@.len() == 31);
    assert("Effetti di Demenza"@.len() == 18);
    assert("Effetti di Influenza Mentale"@.len() == 28);
    assert("Effetti di Morte"@.len() == 16);
    assert("Effetti di Paura"@.len() == 16);
    assert("Effetti di Sonno"@.len() == 16);
    assert("Effetti di charme"@.len() == 17);
    assert("Effetti di charme e compulsioni"@.len() == 31);
    assert("Effetti di confusione e follia"@.len() == 30);
    assert("Effetti di dolore"@.len() == 17);
    assert("Effetti di forza"@.len() == 16);
    assert("Effetti di influenza mentale"@.len() == 28);
    assert("Effetti di morte"@.len() == 16);
    assert("Effetti di morte (vedi sotto)"@.len() == 29);
    assert("Effetti di paura"@.len() == 16);
    assert("Effetti di sonno"@.len() == 16);
    assert("Effetti visivi"@.len() == 14);
    assert("Elettricità"@.len() == 11);
    assert("Elettricità (parziale)"@.len() == 22);
    assert("Energia Negativa"@.len() == 16);
    assert("Energia Positiva"@.len() == 16);
    assert("Esaurimento"@.len() == 11);
    assert("Esausto"@.len() == 7);
    assert("Fatica"@.len() == 6);
    assert("Fiancheggiamento"@.len() == 16);
    assert("Forza"@.len() == 5);
    assert("Frastornamento"@.len() == 14);
    assert("Frastornato"@.len() == 11);
    assert("Freddo"@.len() == 6);
    assert("Freddo (sé stesso e chi lo cavalca)"@.len() == 35);
    assert("Fuoco"@.len() == 5);
    assert("Fuoco Infernale"@.len() == 15);
    assert("Illusione"@.len() == 9);
    assert("Illusioni e qualsiasi attacco basato sulla vista"@.len() == 48);
    assert("Immunità agli Incantesimi"@.len() == 25);
    assert("Immunità al Freddo"@.len() == 18);
    assert("Immunità all'Esilio"@.len() == 19);
    assert("Immunità alla Magia"@.len() == 19);
    assert("Incantesimi di Ammaliamento e di Illusione"@.len() == 42);
    assert("Individuazione dei Pensieri"@.len() == 27);
    assert("Individuazione dell'Allineamento"@.len() == 32);
    assert("Infermità"@.len() == 9);
    assert("Infermo"@.len() == 7);
    assert("Invecchiamento"@.len() == 14);
    assert("Livelli Negativi"@.len() == 16);
    assert("Magia"@.len() == 5);
    assert("Malattia"@.len() == 8);
    assert("Malattie"@.len() == 8);
    assert("Maledizioni"@.len() == 11);
    assert("Metamorfosi"@.len() == 11);
    assert("Nausea"@.len() == 6);
    assert("Nauseato"@.len() == 8);
    assert("Non Deformante"@.len() == 14);
    assert("Paralisi"@.len() == 8);
    assert("Paura"@.len() == 5);
    assert("Pietrificazione"@.len() == 15);
    assert("Richiamo"@.len() == 8);
    assert("Risucchi di Energia"@.len() == 19);
    assert("Risucchio di Caratteristiche"@.len() == 28);
    assert("Risucchio di Energia"@.len() == 20);
    assert("Rivela Bugie"@.len() == 12);
    assert("Sanguinamento"@.len() == 13);
    assert("Sanguinamento (solo Punti Ferita)"@.len() == 33);
    assert("Scosso"@.len() == 6);
    assert("Sguardo"@.len() == 7);
    assert("Sonno"@.len() == 5);
    assert("Sonoro"@.len() == 6);
    assert("Sordità"@.len() == 7);
    assert("Spaventato"@.len() == 10);
    assert("Stordimento"@.len() == 11);
    assert("Veleni"@.len() == 6);
    assert("Veleno"@.len() == 6);
    assert("Veleno Ingerito"@.len() == 15);
    assert("acido"@.len() == 5);
    assert("attacchi basati sulla vista ed effetti visivi"@.len() == 45);
    assert("attacchi con Sguardo"@.len() == 20);
    assert("attacchi con lo Sguardo"@.len() == 23);
    assert("attacchi con lo sguardo"@.len() == 23);
    assert("charme"@.len() == 6);
    assert("charme sui mostri"@.len() == 17);
    assert("compulsione"@.len() == 11);
    assert("controllo mentale"@.len() == 17);
    assert("contundente"@.len() == 11);
    assert("da caduta e da schiacciamento"@.len() == 29);
    assert("danni alle Caratteristiche"@.len() == 26);
    assert("danni alle caratteristiche"@.len() == 26);
    assert("danni contundenti"@.len() == 17);
    assert("danni contundenti e perforanti"@.len() == 30);
    assert("danni da arma"@.len() == 13);
    assert("danni da armi"@.len() == 13);
    assert("danni da precisione"@.len() == 19);
    assert("danni delle armi"@.len() == 16);
    assert("danni di precisione"@.len() == 19);
    assert("danni perforanti"@.len() == 16);
    assert("danni taglienti"@.len() == 15);
    assert("danni taglienti e perforanti"@.len() == 28);
    assert("danno da arma"@.len() == 13);
    assert("danno di precisione"@.len() == 19);
    assert("di influenza mentale e basati sullo Sguardo"@.len() == 43);
    assert("divinazione"@.len() == 11);
    assert("dolore"@.len() == 6);
    assert("effetti Barcollanti"@.len() == 19);
    assert("effetti basati sulla vista"@.len() == 26);
    assert("effetti che bersagliano uno specifico numero di creature"@.len() == 56);
    assert("effetti di Charme e Compulsione"@.len() == 31);
    assert("effetti di Metamorfosi"@.len() == 22);
    assert("effetti di Paura"@.len() == 16);
    assert("effetti di Paura ed influenza mentale"@.len() == 37);
    assert("effetti di Sguardo"@.len() == 18);
    assert("effetti di Sonno"@.len() == 16);
    assert("effetti di ammaliamento"@.len() == 23);
    assert("effetti di charme"@.len() == 17);
    assert("effetti di charme e compulsione"@.len() == 31);
    assert("effetti di charme e compulsioni"@.len() == 31);
    assert("effetti di compulsione"@.len() == 22);
    assert("effetti di confusione e demenza"@.len() == 31);
    assert("effetti di demenza"@.len() == 18);
    assert("effetti di influenza mentale"@.len() == 28);
    assert("effetti di influenza mentale e visivi"@.len() == 37);
    assert("effetti di luce"@.len() == 15);
    assert("effetti di maledizione"@.len() == 22);
    assert("effetti di maledizioni"@.len() == 22);
    assert("effetti di metamorfosi"@.len() == 22);
    assert("effetti di morte"@.len() == 16);
    assert("effetti di necromanzia"@.len() == 22);
    assert("effetti di paura"@.len() == 16);
    assert("effetti di sguardo"@.len() == 18);
    assert("effetti di sonno"@.len() == 16);
    assert("effetti e illusioni visive"@.len() == 26);
    assert("effetti polimorfi"@.len() == 17);
    assert("effetti sensoriali"@.len() == 18);
    assert("effetti visivi"@.len() == 14);
    assert("effetti visivi e illusioni"@.len() == 26);
    assert("elettricità"@.len() == 11);
    assert("emozioni"@.len() == 8);
    assert("energia negativa"@.len() == 16);
    assert("ferite permanenti"@.len() == 17);
    assert("forza"@.len() == 5);
    assert("freddo"@.len() == 6);
    assert("fulmine"@.len() == 7);
    assert("fuoco"@.len() == 5);
    assert("illusioni"@.len() == 9);
    assert("illusioni visive"@.len() == 16);
    assert("invecchiamento"@.len() == 14);
    assert("livelli negativi"@.len() == 16);
    assert("malattia"@.len() == 8);
    assert("malattie"@.len() == 8);
    assert("maledizioni"@.len() == 11);
    assert("metamorfosi"@.len() == 11);
    assert("nausea"@.len() == 6);
    assert("palla di fuoco"@.len() == 14);
    assert("paralisi"@.len() == 8);
    assert("paura"@.len() == 5);
    assert("pietrificazione"@.len() == 15);
    assert("possessione"@.len() == 11);
    assert("risucchi di caratteristiche"@.len() == 27);
    assert("risucchi di energia"@.len() == 19);
    assert("risucchio di caratteristica"@.len() == 27);
    assert("risucchio di caratteristiche"@.len() == 28);
    assert("risucchio di energia"@.len() == 20);
    assert("ruggine"@.len() == 7);
    assert("sanguinamento"@.len() == 13);
    assert("sonno"@.len() == 5);
    assert("sonoro"@.len() == 6);
    assert("sordità"@.len() == 7);
    assert("stordimento"@.len() == 11);
    assert("veleni"@.len() == 6);
    assert("veleno"@.len() == 6);
    assert("visivi ed illusori"@.len() == 18);
    assert("Danni alle caratteristiche"@[0] != "effetti basati sulla vista"@[0]);
    assert("Danni alle caratteristiche"@ != "effetti basati sulla vista"@);
    assert("Danni alle caratteristiche"@[0] != "Effetti basati sulla vista"@[0]);
    assert("Danni alle caratteristiche"@ != "Effetti basati sulla vista"@);
    assert("Danni alle caratteristiche"@[0] != "effetti visivi e illusioni"@[0]);
    assert("Danni alle caratteristiche"@ != "effetti visivi e illusioni"@);
    assert("Danni alle caratteristiche"@[0] != "effetti e illusioni visive"@[0]);
    assert("Danni alle caratteristiche"@ != "effetti e illusioni visive"@);
    assert("Danno alle Caratteristiche"@[0] != "effetti basati sulla vista"@[0]);
    assert("Danno alle Caratteristiche"@ != "effetti basati sulla vista"@);
    assert("Danno alle Caratteristiche"@[0] != "Effetti basati sulla vista"@[0]);
    assert("Danno alle Caratteristiche"@ != "Effetti basati sulla vista"@);
    assert("Danno alle Caratteristiche"@[0] != "effetti visivi e illusioni"@[0]);
    assert("Danno alle Caratteristiche"@ != "effetti visivi e illusioni"@);
    assert("Danno alle Caratteristiche"@[0] != "effetti e illusioni visive"@[0]);
    assert("Danno alle Caratteristiche"@ != "effetti e illusioni visive"@);
    assert("Danno alle Caratteristiche"@[4] != "Danni alle caratteristiche"@[4]);
    assert("Danno alle Caratteristiche"@ != "Danni alle caratteristiche"@);
    assert("danni alle caratteristiche"@[0] != "effetti basati sulla vista"@[0]);
    assert("danni alle caratteristiche"@ != "effetti basati sulla vista"@);
    assert("danni alle caratteristiche"@[0] != "Effetti basati sulla vista"@[0]);
    assert("danni alle caratteristiche"@ != "Effetti basati sulla vista"@);
    assert("danni alle caratteristiche"@[0] != "effetti visivi e illusioni"@[0]);
    assert("danni alle caratteristiche"@ != "effetti visivi e illusioni"@);
    assert("danni alle caratteristiche"@[0] != "effetti e illusioni visive"@[0]);
    assert("danni alle caratteristiche"@ != "effetti e illusioni visive"@);
    assert("danni alle caratteristiche"@[0] != "Danni alle caratteristiche"@[0]);
    assert("danni alle caratteristiche"@ != "Danni alle caratteristiche"@);
    assert("danni alle caratteristiche"@[0] != "Danno alle Caratteristiche"@[0]);
    assert("danni alle caratteristiche"@ != "Danno alle Caratteristiche"@);
    assert("danni alle Caratteristiche"@[0] != "effetti basati sulla vista"@[0]);
    assert("danni alle Caratteristiche"@ != "effetti basati sulla vista"@);
    assert("danni alle Caratteristiche"@[0] != "Effetti basati sulla vista"@[0]);
    assert("danni alle Caratteristiche"@ != "Effetti basati sulla vista"@);
    assert("danni alle Caratteristiche"@[0] != "effetti visivi e illusioni"@[0]);
    assert("danni alle Caratteristiche"@ != "effetti visivi e illusioni"@);
    assert("danni alle Caratteristiche"@[0] != "effetti e illusioni visive"@[0]);
    assert("danni alle Caratteristiche"@ != "effetti e illusioni visive"@);
    assert("danni alle Caratteristiche"@[0] != "Danni alle caratteristiche"@[0]);
    assert("danni alle Caratteristiche"@ != "Danni alle caratteristiche"@);
    assert("danni alle Caratteristiche"@[0] != "Danno alle Caratteristiche"@[0]);
    assert("danni alle Caratteristiche"@ != "Danno alle Caratteristiche"@);
    assert("danni alle Caratteristiche"@[11] != "danni alle caratteristiche"@[11]);
    assert("danni alle Caratteristiche"@ != "danni alle caratteristiche"@);
}

proof fn lemma_read_immunity_asdmganddrain(s: Seq<char>)
    requires
        immunity_named(Immunity_Type::Immunity_ASDmgAndDrain, s),
    ensures
        spec_single_immunity(s) == Some(Immunity_Type::Immunity_ASDmgAndDrain),
{
    reveal_strlit("Abbagliamenti");
    reveal_strlit("Abbagliamento");
    reveal_strlit("Abbagliato");
    reveal_strlit("Accecato");
    reveal_strlit("Acido");
    reveal_strlit("Affaticamento");
    reveal_strlit("Affaticato");
    reveal_strlit("Ammaliamento");
    reveal_strlit("Ancora Dimensionale");
    reveal_strlit("Armi Taglienti");
    reveal_strlit("Armi contundenti");
    reveal_strlit("Assorbimento del Fuoco");
    reveal_strlit("Attacchi Furtivi");
    reveal_strlit("Attacchi ai Fianchi");
    reveal_strlit("Attacchi basati sull'olfatto");
    reveal_strlit("Attacchi basati sulla vista");
    reveal_strlit("Attacchi basati sulla vista o sguardo");
    reveal_strlit("Attacchi con Sguardo");
    reveal_strlit("Attacchi con lo sguardo");
    reveal_strlit("Attacchi dipendenti dalla vista");
    reveal_strlit("Barcollante");
    reveal_strlit("Barcollare");
    reveal_strlit("Cecità");
    reveal_strlit("Charme");
    reveal_strlit("Colpi Critici");
    reveal_strlit("Colpi critici");
    reveal_strlit("Condizione Affaticato");
    reveal_strlit("Condizione Esausto");
    reveal_strlit("Confusione");
    reveal_strlit("Congedo");
    reveal_strlit("Danni Non Letali");
    reveal_strlit("Danni alle caratteristiche");
    reveal_strlit("Danni contundenti");
    reveal_strlit("Danni da arma");
    reveal_strlit("Danni da armi");
    reveal_strlit("Danni dalle Armi");
    reveal_strlit("Danni e risucchi alle caratteristiche");
    reveal_strlit("Danni e risucchi di caratteristiche");
    reveal_strlit("Danni e risucchio alle Caratteristiche");
    reveal_strlit("Danni e risucchio di caratteristiche");
    reveal_strlit("Danni perforanti e taglienti");
    reveal_strlit("Danno alle Caratteristiche");
    reveal_strlit("Danno da Pressione");
    reveal_strlit("Danno da arma");
    reveal_strlit("Danno e risucchio alle caratteristiche");
    reveal_strlit("Danno non letale");
    reveal_strlit("Demenza");
    reveal_strlit("Divinazione");
    reveal_strlit("Dolore");
    reveal_strlit("Effetti a completamento di incantesimo e ad attivazione di incantesimo");
    reveal_strlit("Effetti basati sulla vista");
    reveal_strlit("Effetti d'influenza mentale");
    reveal_strlit("Effetti di Charme e Compulsione");
    reveal_strlit("Effetti di Demenza");
    reveal_strlit("Effetti di Influenza Mentale");
    reveal_strlit("Effetti di Morte");
    reveal_strlit("Effetti di Paura");
    reveal_strlit("Effetti di Sonno");
    reveal_strlit("Effetti di charme");
    reveal_strlit("Effetti di charme e compulsioni");
    reveal_strlit("Effetti di confusione e follia");
    reveal_strlit("Effetti di dolore");
    reveal_strlit("Effetti di forza");
    reveal_strlit("Effetti di influenza mentale");
    reveal_strlit("Effetti di morte");
    reveal_strlit("Effetti di morte (vedi sotto)");
    reveal_strlit("Effetti di paura");
    reveal_strlit("Effetti di sonno");
    reveal_strlit("Effetti visivi");
    reveal_strlit("Elettricità");
    reveal_strlit("Elettricità (parziale)");
    reveal_strlit("Energia Negativa");
    reveal_strlit("Energia Positiva");
    reveal_strlit("Esaurimento");
    reveal_strlit("Esausto");
    reveal_strlit("Fatica");
    reveal_strlit("Fiancheggiamento");
    reveal_strlit("Forza");
    reveal_strlit("Frastornamento");
    reveal_strlit("Frastornato");
    reveal_strlit("Freddo");
    reveal_strlit("Freddo (sé stesso e chi lo cavalca)");
    reveal_strlit("Fuoco");
    reveal_strlit("Fuoco Infernale");
    reveal_strlit("Illusione");
    reveal_strlit("Illusioni e qualsiasi attacco basato sulla vista");
    reveal_strlit("Immunità agli Incantesimi");
    reveal_strlit("Immunità al Freddo");
    reveal_strlit("Immunità all'Esilio");
    reveal_strlit("Immunità alla Magia");
    reveal_strlit("Incantesimi di Ammaliamento e di Illusione");
    reveal_strlit("Individuazione dei Pensieri");
    reveal_strlit("Individuazione dell'Allineamento");
    reveal_strlit("Infermità");
    reveal_strlit("Infermo");
    reveal_strlit("Invecchiamento");
    reveal_strlit("Livelli Negativi");
    reveal_strlit("Magia");
    reveal_strlit("Malattia");
    reveal_strlit("Malattie");
    reveal_strlit("Maledizioni");
    reveal_strlit("Metamorfosi");
    reveal_strlit("Nausea");
    reveal_strlit("Nauseato");
    reveal_strlit("Non Deformante");
    reveal_strlit("Paralisi");
    reveal_strlit("Paura");
    reveal_strlit("Pietrificazione");
    reveal_strlit("Richiamo");
    reveal_strlit("Risucchi di Energia");
    reveal_strlit("Risucchio di Caratteristiche");
    reveal_strlit("Risucchio di Energia");
    reveal_strlit("Rivela Bugie");
    reveal_strlit("Sanguinamento");
    reveal_strlit("Sanguinamento (solo Punti Ferita)");
    reveal_strlit("Scosso");
    reveal_strlit("Sguardo");
    reveal_strlit("Sonno");
    reveal_strlit("Sonoro");
    reveal_strlit("Sordità");
    reveal_strlit("Spaventato");
    reveal_strlit("Stordimento");
    reveal_strlit("Veleni");
    reveal_strlit("Veleno");
    reveal_strlit("Veleno Ingerito");
    reveal_strlit("acido");
    reveal_strlit("attacchi basati sulla vista ed effetti visivi");
    reveal_strlit("attacchi con Sguardo");
    reveal_strlit("attacchi con lo Sguardo");
    reveal_strlit("attacchi con lo sguardo");
    reveal_strlit("charme");
    reveal_strlit("charme sui mostri");
    reveal_strlit("compulsione");
    reveal_strlit("controllo mentale");
    reveal_strlit("contundente");
    reveal_strlit("da caduta e da schiacciamento");
    reveal_strlit("danni alle Caratteristiche");
    reveal_strlit("danni alle caratteristiche");
    reveal_strlit("danni contundenti");
    reveal_strlit("danni contundenti e perforanti");
    reveal_strlit("danni da arma");
    reveal_strlit("danni da armi");
    reveal_strlit("danni da precisione");
    reveal_strlit("danni delle armi");
    reveal_strlit("danni di precisione");
    reveal_strlit("danni e risucchi di Caratteristiche");
    reveal_strlit("danni perforanti");
    reveal_strlit("danni taglienti");
    reveal_strlit("danni taglienti e perforanti");
    reveal_strlit("danno da arma");
    reveal_strlit("danno di precisione");
    reveal_strlit("di influenza mentale e basati sullo Sguardo");
    reveal_strlit("divinazione");
    reveal_strlit("dolore");
    reveal_strlit("effetti Barcollanti");
    reveal_strlit("effetti basati sulla vista");
    reveal_strlit("effetti che bersagliano uno specifico numero di creature");
    reveal_strlit("effetti di Charme e Compulsione");
    reveal_strlit("effetti di Metamorfosi");
    reveal_strlit("effetti di Paura");
    reveal_strlit("effetti di Paura ed influenza mentale");
    reveal_strlit("effetti di Sguardo");
    reveal_strlit("effetti di Sonno");
    reveal_strlit("effetti di ammaliamento");
    reveal_strlit("effetti di charme");
    reveal_strlit("effetti di charme e compulsione");
    reveal_strlit("effetti di charme e compulsioni");
    reveal_strlit("effetti di compulsione");
    reveal_strlit("effetti di confusione e demenza");
    reveal_strlit("effetti di demenza");
    reveal_strlit("effetti di influenza mentale");
    reveal_strlit("effetti di influenza mentale e visivi");
    reveal_strlit("effetti di luce");
    reveal_strlit("effetti di maledizione");
    reveal_strlit("effetti di maledizioni");
    reveal_strlit("effetti di metamorfosi");
    reveal_strlit("effetti di morte");
    reveal_strlit("effetti di necromanzia");
    reveal_strlit("effetti di paura");
    reveal_strlit("effetti di sguardo");
    reveal_strlit("effetti di sonno");
    reveal_strlit("effetti e illusioni visive");
    reveal_strlit("effetti polimorfi");
    reveal_strlit("effetti sensoriali");
    reveal_strlit("effetti visivi");
    reveal_strlit("effetti visivi e illusioni");
    reveal_strlit("elettricità");
    reveal_strlit("emozioni");
    reveal_strlit("energia negativa");
    reveal_strlit("ferite permanenti");
    reveal_strlit("forza");
    reveal_strlit("freddo");
    reveal_strlit("fulmine");
    reveal_strlit("fuoco");
    reveal_strlit("illusioni");
    reveal_strlit("illusioni visive");
    reveal_strlit("invecchiamento");
    reveal_strlit("livelli negativi");
    reveal_strlit("malattia");
    reveal_strlit("malattie");
    reveal_strlit("maledizioni");
    reveal_strlit("metamorfosi");
    reveal_strlit("nausea");
    reveal_strlit("palla di fuoco");
    reveal_strlit("paralisi");
    reveal_strlit("paura");
    reveal_strlit("pietrificazione");
    reveal_strlit("possessione");
    reveal_strlit("risucchi di caratteristiche");
    reveal_strlit("risucchi di energia");
    reveal_strlit("risucchio di caratteristica");
    reveal_strlit("risucchio di caratteristiche");
    reveal_strlit("risucchio di energia");
    reveal_strlit("ruggine");
    reveal_strlit("sanguinamento");
    reveal_strlit("sonno");
    reveal_strlit("sonoro");
    reveal_strlit("sordità");
    reveal_strlit("stordimento");
    reveal_strlit("veleni");
    reveal_strlit("veleno");
    reveal_strlit("visivi ed illusori");
    assert("Abbagliamenti"@.len() == 13);
    assert("Abbagliamento"@.len() == 13);
    assert("Abbagliato"@.len() == 10);
    assert("Accecato"@.len() == 8);
    assert("Acido"@.len() == 5);
    assert("Affaticamento"@.len() == 13);
    assert("Affaticato"@.len() == 10);
    assert("Ammaliamento"@.len() == 12);
    assert("Ancora Dimensionale"@.len() == 19);
    assert("Armi Taglienti"@.len() == 14);
    assert("Armi contundenti"@.len() == 16);
    assert("Assorbimento del Fuoco"@.len() == 22);
    assert("Attacchi Furtivi"@.len() == 16);
    assert("Attacchi ai Fianchi"@.len() == 19);
    assert("Attacchi basati sull'olfatto"@.len() == 28);
    assert("Attacchi basati sulla vista"@.len() == 27);
    assert("Attacchi basati sulla vista o sguardo"@.len() == 37);
    assert("Attacchi con Sguardo"@.len() == 20);
    assert("Attacchi con lo sguardo"@.len() == 23);
    assert("Attacchi dipendenti dalla vista"@.len() == 31);
    assert("Barcollante"@.len() == 11);
    assert("Barcollare"@.len() == 10);
    assert("Cecità"@.len() == 6);
    assert("Charme"@.len() == 6);
    assert("Colpi Critici"@.len() == 13);
    assert("Colpi critici"@.len() == 13);
    assert("Condizione Affaticato"@.len() == 21);
    assert("Condizione Esausto"@.len() == 18);
    assert("Confusione"@.len() == 10);
    assert("Congedo"@.len() == 7);
    assert("Danni Non Letali"@.len() == 16);
    assert("Danni alle caratteristiche"@.len() == 26);
    assert("Danni contundenti"@.len() == 17);
    assert("Danni da arma"@.len() == 13);
    assert("Danni da armi"@.len() == 13);
    assert("Danni dalle Armi"@.len() == 16);
    assert("Danni e risucchi alle caratteristiche"@.len() == 37);
    assert("Danni e risucchi di caratteristiche"@.len() == 35);
    assert("Danni e risucchio alle Caratteristiche"@.len() == 38);
    assert("Danni e risucchio di caratteristiche"@.len() == 36);
    assert("Danni perforanti e taglienti"@.len() == 28);
    assert("Danno alle Caratteristiche"@.len() == 26);
    assert("Danno da Pressione"@.len() == 18);
    assert("Danno da arma"@.len() == 13);
    assert("Danno e risucchio alle caratteristiche"@.len() == 38);
    assert("Danno non letale"@.len() == 16);
    assert("Demenza"@.len() == 7);
    assert("Divinazione"@.len() == 11);
    assert("Dolore"@.len() == 6);
    assert("Effetti a completamento di incantesimo e ad attivazione di incantesimo"@.len() == 70);
    assert("Effetti basati sulla vista"@.len() == 26);
    assert("Effetti d'influenza mentale"@.len() == 27);
    assert("Effetti di Charme e Compulsione"@.len() == 31);
    assert("Effetti di Demenza"@.len() == 18);
    assert("Effetti di Influenza Mentale"@.len() == 28);
    assert("Effetti di Morte"@.len() == 16);
    assert("Effetti di Paura"@.len() == 16);
    assert("Effetti di Sonno"@.len() == 16);
    assert("Effetti di charme"@.len() == 17);
    assert("Effetti di charme e compulsioni"@.len() == 31);
    assert("Effetti di confusione e follia"@.len() == 30);
    assert("Effetti di dolore"@.len() == 17);
    assert("Effetti di forza"@.len() == 16);
    assert("Effetti di influenza mentale"@.len() == 28);
    assert("Effetti di morte"@.len() == 16);
    assert("Effetti di morte (vedi sotto)"@.len() == 29);
    assert("Effetti di paura"@.len() == 16);
    assert("Effetti di sonno"@.len() == 16);
    assert("Effetti visivi"@.len() == 14);
    assert("Elettricità"@.len() == 11);
    assert("Elettricità (parziale)"@.len() == 22);
    assert("Energia Negativa"@.len() == 16);
    assert("Energia Positiva"@.len() == 16);
    assert("Esaurimento"@.len() == 11);
    assert("Esausto"@.len() == 7);
    assert("Fatica"@.len() == 6);
    assert("Fiancheggiamento"@.len() == 16);
    assert("Forza"@.len() == 5);
    assert("Frastornamento"@.len() == 14);
    assert("Frastornato"@.len() == 11);
    assert("Freddo"@.len() == 6);
    assert("Freddo (sé stesso e chi lo cavalca)"@.len() == 35);
    assert("Fuoco"@.len() == 5);
    assert("Fuoco Infernale"@.len() == 15);
    assert("Illusione"@.len() == 9);
    assert("Illusioni e qualsiasi attacco basato sulla vista"@.len() == 48);
    assert("Immunità agli Incantesimi"@.len() == 25);
    assert("Immunità al Freddo"@.len() == 18);
    assert("Immunità all'Esilio"@.len() == 19);
    assert("Immunità alla Magia"@.len() == 19);
    assert("Incantesimi di Ammaliamento e di Illusione"@.len() == 42);
    assert("Individuazione dei Pensieri"@.len() == 27);
    assert("Individuazione dell'Allineamento"@.len() == 32);
    assert("Infermità"@.len() == 9);
    assert("Infermo"@.len() == 7);
    assert("Invecchiamento"@.len() == 14);
    assert("Livelli Negativi"@.len() == 16);
    assert("Magia"@.len() == 5);
    assert("Malattia"@.len() == 8);
    assert("Malattie"@.len() == 8);
    assert("Maledizioni"@.len() == 11);
    assert("Metamorfosi"@.len() == 11);
    assert("Nausea"@.len() == 6);
    assert("Nauseato"@.len() == 8);
    assert("Non Deformante"@.len() == 14);
    assert("Paralisi"@.len() == 8);
    assert("Paura"@.len() == 5);
    assert("Pietrificazione"@.len() == 15);
    assert("Richiamo"@.len() == 8);
    assert("Risucchi di Energia"@.len() == 19);
    assert("Risucchio di Caratteristiche"@.len() == 28);
    assert("Risucchio di Energia"@.len() == 20);
    assert("Rivela Bugie"@.len() == 12);
    assert("Sanguinamento"@.len() == 13);
    assert("Sanguinamento (solo Punti Ferita)"@.len() == 33);
    assert("Scosso"@.len() == 6);
    assert("Sguardo"@.len() == 7);
    assert("Sonno"@.len() == 5);
    assert("Sonoro"@.len() == 6);
    assert("Sordità"@.len() == 7);
    assert("Spaventato"@.len() == 10);
    assert("Stordimento"@.len() == 11);
    assert("Veleni"@.len() == 6);
    assert("Veleno"@.len() == 6);
    assert("Veleno Ingerito"@.len() == 15);
    assert("acido"@.len() == 5);
    assert("attacchi basati sulla vista ed effetti visivi"@.len() == 45);
    assert("attacchi con Sguardo"@.len() == 20);
    assert("attacchi con lo Sguardo"@.len() == 23);
    assert("attacchi con lo sguardo"@.len() == 23);
    assert("charme"@.len() == 6);
    assert("charme sui mostri"@.len() == 17);
    assert("compulsione"@.len() == 11);
    assert("controllo mentale"@.len() == 17);
    assert("contundente"@.len() == 11);
    assert("da caduta e da schiacciamento"@.len() == 29);
    assert("danni alle Caratteristiche"@.len() == 26);
    assert("danni alle caratteristiche"@.len() == 26);
    assert("danni contundenti"@.len() == 17);
    assert("danni contundenti e perforanti"@.len() == 30);
    assert("danni da arma"@.len() == 13);
    assert("danni da armi"@.len() == 13);
    assert("danni da precisione"@.len() == 19);
    assert("danni delle armi"@.len() == 16);
    assert("danni di precisione"@.len() == 19);
    assert("danni e risucchi di Caratteristiche"@.len() == 35);
    assert("danni perforanti"@.len() == 16);
    assert("danni taglienti"@.len() == 15);
    assert("danni taglienti e perforanti"@.len() == 28);
    assert("danno da arma"@.len() == 13);
    assert("danno di precisione"@.len() == 19);
    assert("di influenza mentale e basati sullo Sguardo"@.len() == 43);
    assert("divinazione"@.len() == 11);
    assert("dolore"@.len() == 6);
    assert("effetti Barcollanti"@.len() == 19);
    assert("effetti basati sulla vista"@.len() == 26);
    assert("effetti che bersagliano uno specifico numero di creature"@.len() == 56);
    assert("effetti di Charme e Compulsione"@.len() == 31);
    assert("effetti di Metamorfosi"@.len() == 22);
    assert("effetti di Paura"@.len() == 16);
    assert("effetti di Paura ed influenza mentale"@.len() == 37);
    assert("effetti di Sguardo"@.len() == 18);
    assert("effetti di Sonno"@.len() == 16);
    assert("effetti di ammaliamento"@.len() == 23);
    assert("effetti di charme"@.len() == 17);
    assert("effetti di charme e compulsione"@.len() == 31);
    assert("effetti di charme e compulsioni"@.len() == 31);
    assert("effetti di compulsione"@.len() == 22);
    assert("effetti di confusione e demenza"@.len() == 31);
    assert("effetti di demenza"@.len() == 18);
    assert("effetti di influenza mentale"@.len() == 28);
    assert("effetti di influenza mentale e visivi"@.len() == 37);
    assert("effetti di luce"@.len() == 15);
    assert("effetti di maledizione"@.len() == 22);
    assert("effetti di maledizioni"@.len() == 22);
    assert("effetti di metamorfosi"@.len() == 22);
    assert("effetti di morte"@.len() == 16);
    assert("effetti di necromanzia"@.len() == 22);
    assert("effetti di paura"@.len() == 16);
    assert("effetti di sguardo"@.len() == 18);
    assert("effetti di sonno"@.len() == 16);
    assert("effetti e illusioni visive"@.len() == 26);
    assert("effetti polimorfi"@.len() == 17);
    assert("effetti sensoriali"@.len() == 18);
    assert("effetti visivi"@.len() == 14);
    assert("effetti visivi e illusioni"@.len() == 26);
    assert("elettricità"@.len() == 11);
    assert("emozioni"@.len() == 8);
    assert("energia negativa"@.len() == 16);
    assert("ferite permanenti"@.len() == 17);
    assert("forza"@.len() == 5);
    assert("freddo"@.len() == 6);
    assert("fulmine"@.len() == 7);
    assert("fuoco"@.len() == 5);
    assert("illusioni"@.len() == 9);
    assert("illusioni visive"@.len() == 16);
    assert("invecchiamento"@.len() == 14);
    assert("livelli negativi"@.len() == 16);
    assert("malattia"@.len() == 8);
    assert("malattie"@.len() == 8);
    assert("maledizioni"@.len() == 11);
    assert("metamorfosi"@.len() == 11);
    assert("nausea"@.len() == 6);
    assert("palla di fuoco"@.len() == 14);
    assert("paralisi"@.len() == 8);
    assert("paura"@.len() == 5);
    assert("pietrificazione"@.len() == 15);
    assert("possessione"@.len() == 11);
    assert("risucchi di caratteristiche"@.len() == 27);
    assert("risucchi di energia"@.len() == 19);
    assert("risucchio di caratteristica"@.len() == 27);
    assert("risucchio di caratteristiche"@.len() == 28);
    assert("risucchio di energia"@.len() == 20);
    assert("ruggine"@.len() == 7);
    assert("sanguinamento"@.len() == 13);
    assert("sonno"@.len() == 5);
    assert("sonoro"@.len() == 6);
    assert("sordità"@.len() == 7);
    assert("stordimento"@.len() == 11);
    assert("veleni"@.len() == 6);
    assert("veleno"@.len() == 6);
    assert("visivi ed illusori"@.len() == 18);
    assert("Danni e risucchi di caratteristiche"@[0] != "Freddo (sé stesso e chi lo cavalca)"@[0]);
    assert("Danni e risucchi di caratteristiche"@ != "Freddo (sé stesso e chi lo cavalca)"@);
    assert("Danni e risucchio alle Caratteristiche"@[4] != "Danno e risucchio alle caratteristiche"@[4]);
    assert("Danni e risucchio alle Caratteristiche"@ != "Danno e risucchio alle caratteristiche"@);
    assert("Danni e risucchi alle caratteristiche"@[0] != "Attacchi basati sulla vista o sguardo"@[0]);
    assert("Danni e risucchi alle caratteristiche"@ != "Attacchi basati sulla vista o sguardo"@);
    assert("Danni e risucchi alle caratteristiche"@[0] != "effetti di Paura ed influenza mentale"@[0]);
    assert("Danni e risucchi alle caratteristiche"@ != "effetti di Paura ed influenza mentale"@);
    assert("Danni e risucchi alle caratteristiche"@[0] != "effetti di influenza mentale e visivi"@[0]);
    assert("Danni e risucchi alle caratteristiche"@ != "effetti di influenza mentale e visivi"@);
    assert("danni e risucchi di Caratteristiche"@[0] != "Freddo (sé stesso e chi lo cavalca)"@[0]);
    assert("danni e risucchi di Caratteristiche"@ != "Freddo (sé stesso e chi lo cavalca)"@);
    assert("danni e risucchi di Caratteristiche"@[0] != "Danni e risucchi di caratteristiche"@[0]);
    assert("danni e risucchi di Caratteristiche"@ != "Danni e risucchi di caratteristiche"@);
}

proof fn lemma_read_immunity_undeadtraits(s: Seq<char>)
    requires
        immunity_named(Immunity_Type::Immunity_UndeadTraits, s),
    ensures
        spec_single_immunity(s) == Some(Immunity_Type::Immunity_UndeadTraits),
{
    reveal_strlit("Abbagliamenti");
    reveal_strlit("Abbagliamento");
    reveal_strlit("Abbagliato");
    reveal_strlit("Accecato");
    reveal_strlit("Acido");
    reveal_strlit("Affaticamento");
    reveal_strlit("Affaticato");
    reveal_strlit("Ammaliamento");
    reveal_strlit("Ancora Dimensionale");
    reveal_strlit("Armi Taglienti");
    reveal_strlit("Armi contundenti");
    reveal_strlit("Assorbimento del Fuoco");
    reveal_strlit("Attacchi Furtivi");
    reveal_strlit("Attacchi ai Fianchi");
    reveal_strlit("Attacchi basati sull'olfatto");
    reveal_strlit("Attacchi basati sulla vista");
    reveal_strlit("Attacchi basati sulla vista o sguardo");
    reveal_strlit("Attacchi con Sguardo");
    reveal_strlit("Attacchi con lo sguardo");
    reveal_strlit("Attacchi dipendenti dalla vista");
    reveal_strlit("Barcollante");
    reveal_strlit("Barcollare");
    reveal_strlit("Cecità");
    reveal_strlit("Charme");
    reveal_strlit("Colpi Critici");
    reveal_strlit("Colpi critici");
    reveal_strlit("Condizione Affaticato");
    reveal_strlit("Condizione Esausto");
    reveal_strlit("Confusione");
    reveal_strlit("Congedo");
    reveal_strlit("Danni Non Letali");
    reveal_strlit("Danni alle caratteristiche");
    reveal_strlit("Danni contundenti");
    reveal_strlit("Danni da arma");
    reveal_strlit("Danni da armi");
    reveal_strlit("Danni dalle Armi");
    reveal_strlit("Danni e risucchi alle caratteristiche");
    reveal_strlit("Danni e risucchi di caratteristiche");
    reveal_strlit("Danni e risucchio alle Caratteristiche");
    reveal_strlit("Danni e risucchio di caratteristiche");
    reveal_strlit("Danni perforanti e taglienti");
    reveal_strlit("Danno alle Caratteristiche");
    reveal_strlit("Danno da Pressione");
    reveal_strlit("Danno da arma");
    reveal_strlit("Danno e risucchio alle caratteristiche");
    reveal_strlit("Danno non letale");
    reveal_strlit("Demenza");
    reveal_strlit("Divinazione");
    reveal_strlit("Dolore");
    reveal_strlit("Effetti a completamento di incantesimo e ad attivazione di incantesimo");
    reveal_strlit("Effetti basati sulla vista");
    reveal_strlit("Effetti d'influenza mentale");
    reveal_strlit("Effetti di Charme e Compulsione");
    reveal_strlit("Effetti di Demenza");
    reveal_strlit("Effetti di Influenza Mentale");
    reveal_strlit("Effetti di Morte");
    reveal_strlit("Effetti di Paura");
    reveal_strlit("Effetti di Sonno");
    reveal_strlit("Effetti di charme");
    reveal_strlit("Effetti di charme e compulsioni");
    reveal_strlit("Effetti di confusione e follia");
    reveal_strlit("Effetti di dolore");
    reveal_strlit("Effetti di forza");
    reveal_strlit("Effetti di influenza mentale");
    reveal_strlit("Effetti di morte");
    reveal_strlit("Effetti di morte (vedi sotto)");
    reveal_strlit("Effetti di paura");
    reveal_strlit("Effetti di sonno");
    reveal_strlit("Effetti visivi");
    reveal_strlit("Elettricità");
    reveal_strlit("Elettricità (parziale)");
    reveal_strlit("Energia Negativa");
    reveal_strlit("Energia Positiva");
    reveal_strlit("Esaurimento");
    reveal_strlit("Esausto");
    reveal_strlit("Fatica");
    reveal_strlit("Fiancheggiamento");
    reveal_strlit("Forza");
    reveal_strlit("Frastornamento");
    reveal_strlit("Frastornato");
    reveal_strlit("Freddo");
    reveal_strlit("Freddo (sé stesso e chi lo cavalca)");
    reveal_strlit("Fuoco");
    reveal_strlit("Fuoco Infernale");
    reveal_strlit("Illusione");
    reveal_strlit("Illusioni e qualsiasi attacco basato sulla vista");
    reveal_strlit("Immunità agli Incantesimi");
    reveal_strlit("Immunità al Freddo");
    reveal_strlit("Immunità all'Esilio");
    reveal_strlit("Immunità alla Magia");
    reveal_strlit("Incantesimi di Ammaliamento e di Illusione");
    reveal_strlit("Individuazione dei Pensieri");
    reveal_strlit("Individuazione dell'Allineamento");
    reveal_strlit("Infermità");
    reveal_strlit("Infermo");
    reveal_strlit("Invecchiamento");
    reveal_strlit("Livelli Negativi");
    reveal_strlit("Magia");
    reveal_strlit("Malattia");
    reveal_strlit("Malattie");
    reveal_strlit("Maledizioni");
    reveal_strlit("Metamorfosi");
    reveal_strlit("Nausea");
    reveal_strlit("Nauseato");
    reveal_strlit("Non Deformante");
    reveal_strlit("Paralisi");
    reveal_strlit("Paura");
    reveal_strlit("Pietrificazione");
    reveal_strlit("Richiamo");
    reveal_strlit("Risucchi di Energia");
    reveal_strlit("Risucchio di Caratteristiche");
    reveal_strlit("Risucchio di Energia");
    reveal_strlit("Rivela Bugie");
    reveal_strlit("Sanguinamento");
    reveal_strlit("Sanguinamento (solo Punti Ferita)");
    reveal_strlit("Scosso");
    reveal_strlit("Sguardo");
    reveal_strlit("Sonno");
    reveal_strlit("Sonoro");
    reveal_strlit("Sordità");
    reveal_strlit("Spaventato");
    reveal_strlit("Stordimento");
    reveal_strlit("Tratti dei Non Morti");
    reveal_strlit("Veleni");
    reveal_strlit("Veleno");
    reveal_strlit("Veleno Ingerito");
    reveal_strlit("acido");
    reveal_strlit("attacchi basati sulla vista ed effetti visivi");
    reveal_strlit("attacchi con Sguardo");
    reveal_strlit("attacchi con lo Sguardo");
    reveal_strlit("attacchi con lo sguardo");
    reveal_strlit("charme");
    reveal_strlit("charme sui mostri");
    reveal_strlit("compulsione");
    reveal_strlit("controllo mentale");
    reveal_strlit("contundente");
    reveal_strlit("da caduta e da schiacciamento");
    reveal_strlit("danni alle Caratteristiche");
    reveal_strlit("danni alle caratteristiche");
    reveal_strlit("danni contundenti");
    reveal_strlit("danni contundenti e perforanti");
    reveal_strlit("danni da arma");
    reveal_strlit("danni da armi");
    reveal_strlit("danni da precisione");
    reveal_strlit("danni delle armi");
    reveal_strlit("danni di precisione");
    reveal_strlit("danni e risucchi di Caratteristiche");
    reveal_strlit("danni perforanti");
    reveal_strlit("danni taglienti");
    reveal_strlit("danni taglienti e perforanti");
    reveal_strlit("danno da arma");
    reveal_strlit("danno di precisione");
    reveal_strlit("di influenza mentale e basati sullo Sguardo");
    reveal_strlit("divinazione");
    reveal_strlit("dolore");
    reveal_strlit("effetti Barcollanti");
    reveal_strlit("effetti basati sulla vista");
    reveal_strlit("effetti che bersagliano uno specifico numero di creature");
    reveal_strlit("effetti di Charme e Compulsione");
    reveal_strlit("effetti di Metamorfosi");
    reveal_strlit("effetti di Paura");
    reveal_strlit("effetti di Paura ed influenza mentale");
    reveal_strlit("effetti di Sguardo");
    reveal_strlit("effetti di Sonno");
    reveal_strlit("effetti di ammaliamento");
    reveal_strlit("effetti di charme");
    reveal_strlit("effetti di charme e compulsione");
    reveal_strlit("effetti di charme e compulsioni");
    reveal_strlit("effetti di compulsione");
    reveal_strlit("effetti di confusione e demenza");
    reveal_strlit("effetti di demenza");
    reveal_strlit("effetti di influenza mentale");
    reveal_strlit("effetti di influenza mentale e visivi");
    reveal_strlit("effetti di luce");
    reveal_strlit("effetti di maledizione");
    reveal_strlit("effetti di maledizioni");
    reveal_strlit("effetti di metamorfosi");
    reveal_strlit("effetti di morte");
    reveal_strlit("effetti di necromanzia");
    reveal_strlit("effetti di paura");
    reveal_strlit("effetti di sguardo");
    reveal_strlit("effetti di sonno");
    reveal_strlit("effetti e illusioni visive");
    reveal_strlit("effetti polimorfi");
    reveal_strlit("effetti sensoriali");
    reveal_strlit("effetti visivi");
    reveal_strlit("effetti visivi e illusioni");
    reveal_strlit("elettricità");
    reveal_strlit("emozioni");
    reveal_strlit("energia negativa");
    reveal_strlit("ferite permanenti");
    reveal_strlit("forza");
    reveal_strlit("freddo");
    reveal_strlit("fulmine");
    reveal_strlit("fuoco");
    reveal_strlit("illusioni");
    reveal_strlit("illusioni visive");
    reveal_strlit("invecchiamento");
    reveal_strlit("livelli negativi");
    reveal_strlit("malattia");
    reveal_strlit("malattie");
    reveal_strlit("maledizioni");
    reveal_strlit("metamorfosi");
    reveal_strlit("nausea");
    reveal_strlit("palla di fuoco");
    reveal_strlit("paralisi");
    reveal_strlit("paura");
    reveal_strlit("pietrificazione");
    reveal_strlit("possessione");
    reveal_strlit("risucchi di caratteristiche");
    reveal_strlit("risucchi di energia");
    reveal_strlit("risucchio di caratteristica");
    reveal_strlit("risucchio di caratteristiche");
    reveal_strlit("risucchio di energia");
    reveal_strlit("ruggine");
    reveal_strlit("sanguinamento");
    reveal_strlit("sonno");
    reveal_strlit("sonoro");
    reveal_strlit("sordità");
    reveal_strlit("stordimento");
    reveal_strlit("veleni");
    reveal_strlit("veleno");
    reveal_strlit("visivi ed illusori");
    assert("Abbagliamenti"@.len() == 13);
    assert("Abbagliamento"@.len() == 13);
    assert("Abbagliato"@.len() == 10);
    assert("Accecato"@.len() == 8);
    assert("Acido"@.len() == 5);
    assert("Affaticamento"@.len() == 13);
    assert("Affaticato"@.len() == 10);
    assert("Ammaliamento"@.len() == 12);
    assert("Ancora Dimensionale"@.len() == 19);
    assert("Armi Taglienti"@.len() == 14);
    assert("Armi contundenti"@.len() == 16);
    assert("Assorbimento del Fuoco"@.len() == 22);
    assert("Attacchi Furtivi"@.len() == 16);
    assert("Attacchi ai Fianchi"@.len() == 19);
    assert("Attacchi basati sull'olfatto"@.len() == 28);
    assert("Attacchi basati sulla vista"@.len() == 27);
    assert("Attacchi basati sulla vista o sguardo"@.len() == 37);
    assert("Attacchi con Sguardo"@.len() == 20);
    assert("Attacchi con lo sguardo"@.len() == 23);
    assert("Attacchi dipendenti dalla vista"@.len() == 31);
    assert("Barcollante"@.len() == 11);
    assert("Barcollare"@.len() == 10);
    assert("Cecità"@.len() == 6);
    assert("Charme"@.len() == 6);
    assert("Colpi Critici"@.len() == 13);
    assert("Colpi critici"@.len() == 13);
    assert("Condizione Affaticato"@.len() == 21);
    assert("Condizione Esausto"@.len() == 18);
    assert("Confusione"@.len() == 10);
    assert("Congedo"@.len() == 7);
    assert("Danni Non Letali"@.len() == 16);
    assert("Danni alle caratteristiche"@.len() == 26);
    assert("Danni contundenti"@.len() == 17);
    assert("Danni da arma"@.len() == 13);
    assert("Danni da armi"@.len() == 13);
    assert("Danni dalle Armi"@.len() == 16);
    assert("Danni e risucchi alle caratteristiche"@.len() == 37);
    assert("Danni e risucchi di caratteristiche"@.len() == 35);
    assert("Danni e risucchio alle Caratteristiche"@.len() == 38);
    assert("Danni e risucchio di caratteristiche"@.len() == 36);
    assert("Danni perforanti e taglienti"@.len() == 28);
    assert("Danno alle Caratteristiche"@.len() == 26);
    assert("Danno da Pressione"@.len() == 18);
    assert("Danno da arma"@.len() == 13);
    assert("Danno e risucchio alle caratteristiche"@.len() == 38);
    assert("Danno non letale"@.len() == 16);
    assert("Demenza"@.len() == 7);
    assert("Divinazione"@.len() == 11);
    assert("Dolore"@.len() == 6);
    assert("Effetti a completamento di incantesimo e ad attivazione di incantesimo"@.len() == 70);
    assert("Effetti basati sulla vista"@.len() == 26);
    assert("Effetti d'influenza mentale"@.len() == 27);
    assert("Effetti di Charme e Compulsione"@.len() == 31);
    assert("Effetti di Demenza"@.len() == 18);
    assert("Effetti di Influenza Mentale"@.len() == 28);
    assert("Effetti di Morte"@.len() == 16);
    assert("Effetti di Paura"@.len() == 16);
    assert("Effetti di Sonno"@.len() == 16);
    assert("Effetti di charme"@.len() == 17);
    assert("Effetti di charme e compulsioni"@.len() == 31);
    assert("Effetti di confusione e follia"@.len() == 30);
    assert("Effetti di dolore"@.len() == 17);
    assert("Effetti di forza"@.len() == 16);
    assert("Effetti di influenza mentale"@.len() == 28);
    assert("Effetti di morte"@.len() == 16);
    assert("Effetti di morte (vedi sotto)"@.len() == 29);
    assert("Effetti di paura"@.len() == 16);
    assert("Effetti di sonno"@.len() == 16);
    assert("Effetti visivi"@.len() == 14);
    assert("Elettricità"@.len() == 11);
    assert("Elettricità (parziale)"@.len() == 22);
    assert("Energia Negativa"@.len() == 16);
    assert("Energia Positiva"@.len() == 16);
    assert("Esaurimento"@.len() == 11);
    assert("Esausto"@.len() == 7);
    assert("Fatica"@.len() == 6);
    assert("Fiancheggiamento"@.len() == 16);
    assert("Forza"@.len() == 5);
    assert("Frastornamento"@.len() == 14);
    assert("Frastornato"@.len() == 11);
    assert("Freddo"@.len() == 6);
    assert("Freddo (sé stesso e chi lo cavalca)"@.len() == 35);
    assert("Fuoco"@.len() == 5);
    assert("Fuoco Infernale"@.len() == 15);
    assert("Illusione"@.len() == 9);
    assert("Illusioni e qualsiasi attacco basato sulla vista"@.len() == 48);
    assert("Immunità agli Incantesimi"@.len() == 25);
    assert("Immunità al Freddo"@.len() == 18);
    assert("Immunità all'Esilio"@.len() == 19);
    assert("Immunità alla Magia"@.len() == 19);
    assert("Incantesimi di Ammaliamento e di Illusione"@.len() == 42);
    assert("Individuazione dei Pensieri"@.len() == 27);
    assert("Individuazione dell'Allineamento"@.len() == 32);
    assert("Infermità"@.len() == 9);
    assert("Infermo"@.len() == 7);
    assert("Invecchiamento"@.len() == 14);
    assert("Livelli Negativi"@.len() == 16);
    assert("Magia"@.len() == 5);
    assert("Malattia"@.len() == 8);
    assert("Malattie"@.len() == 8);
    assert("Maledizioni"@.len() == 11);
    assert("Metamorfosi"@.len() == 11);
    assert("Nausea"@.len() == 6);
    assert("Nauseato"@.len() == 8);
    assert("Non Deformante"@.len() == 14);
    assert("Paralisi"@.len() == 8);
    assert("Paura"@.len() == 5);
    assert("Pietrificazione"@.len() == 15);
    assert("Richiamo"@.len() == 8);
    assert("Risucchi di Energia"@.len() == 19);
    assert("Risucchio di Caratteristiche"@.len() == 28);
    assert("Risucchio di Energia"@.len() == 20);
    assert("Rivela Bugie"@.len() == 12);
    assert("Sanguinamento"@.len() == 13);
    assert("Sanguinamento (solo Punti Ferita)"@.len() == 33);
    assert("Scosso"@.len() == 6);
    assert("Sguardo"@.len() == 7);
    assert("Sonno"@.len() == 5);
    assert("Sonoro"@.len() == 6);
    assert("Sordità"@.len() == 7);
    assert("Spaventato"@.len() == 10);
    assert("Stordimento"@.len() == 11);
    assert("Tratti dei Non Morti"@.len() == 20);
    assert("Veleni"@.len() == 6);
    assert("Veleno"@.len() == 6);
    assert("Veleno Ingerito"@.len() == 15);
    assert("acido"@.len() == 5);
    assert("attacchi basati sulla vista ed effetti visivi"@.len() == 45);
    assert("attacchi con Sguardo"@.len() == 20);
    assert("attacchi con lo Sguardo"@.len() == 23);
    assert("attacchi con lo sguardo"@.len() == 23);
    assert("charme"@.len() == 6);
    assert("charme sui mostri"@.len() == 17);
    assert("compulsione"@.len() == 11);
    assert("controllo mentale"@.len() == 17);
    assert("contundente"@.len() == 11);
    assert("da caduta e da schiacciamento"@.len() == 29);
    assert("danni alle Caratteristiche"@.len() == 26);
    assert("danni alle caratteristiche"@.len() == 26);
    assert("danni contundenti"@.len() == 17);
    assert("danni contundenti e perforanti"@.len() == 30);
    assert("danni da arma"@.len() == 13);
    assert("danni da armi"@.len() == 13);
    assert("danni da precisione"@.len() == 19);
    assert("danni delle armi"@.len() == 16);
    assert("danni di precisione"@.len() == 19);
    assert("danni e risucchi di Caratteristiche"@.len() == 35);
    assert("danni perforanti"@.len() == 16);
    assert("danni taglienti"@.len() == 15);
    assert("danni taglienti e perforanti"@.len() == 28);
    assert("danno da arma"@.len() == 13);
    assert("danno di precisione"@.len() == 19);
    assert("di influenza mentale e basati sullo Sguardo"@.len() == 43);
    assert("divinazione"@.len() == 11);
    assert("dolore"@.len() == 6);
    assert("effetti Barcollanti"@.len() == 19);
    assert("effetti basati sulla vista"@.len() == 26);
    assert("effetti che bersagliano uno specifico numero di creature"@.len() == 56);
    assert("effetti di Charme e Compulsione"@.len() == 31);
    assert("effetti di Metamorfosi"@.len() == 22);
    assert("effetti di Paura"@.len() == 16);
    assert("effetti di Paura ed influenza mentale"@.len() == 37);
    assert("effetti di Sguardo"@.len() == 18);
    assert("effetti di Sonno"@.len() == 16);
    assert("effetti di ammaliamento"@.len() == 23);
    assert("effetti di charme"@.len() == 17);
    assert("effetti di charme e compulsione"@.len() == 31);
    assert("effetti di charme e compulsioni"@.len() == 31);
    assert("effetti di compulsione"@.len() == 22);
    assert("effetti di confusione e demenza"@.len() == 31);
    assert("effetti di demenza"@.len() == 18);
    assert("effetti di influenza mentale"@.len() == 28);
    assert("effetti di influenza mentale e visivi"@.len() == 37);
    assert("effetti di luce"@.len() == 15);
    assert("effetti di maledizione"@.len() == 22);
    assert("effetti di maledizioni"@.len() == 22);
    assert("effetti di metamorfosi"@.len() == 22);
    assert("effetti di morte"@.len() == 16);
    assert("effetti di necromanzia"@.len() == 22);
    assert("effetti di paura"@.len() == 16);
    assert("effetti di sguardo"@.len() == 18);
    assert("effetti di sonno"@.len() == 16);
    assert("effetti e illusioni visive"@.len() == 26);
    assert("effetti polimorfi"@.len() == 17);
    assert("effetti sensoriali"@.len() == 18);
    assert("effetti visivi"@.len() == 14);
    assert("effetti visivi e illusioni"@.len() == 26);
    assert("elettricità"@.len() == 11);
    assert("emozioni"@.len() == 8);
    assert("energia negativa"@.len() == 16);
    assert("ferite permanenti"@.len() == 17);
    assert("forza"@.len() == 5);
    assert("freddo"@.len() == 6);
    assert("fulmine"@.len() == 7);
    assert("fuoco"@.len() == 5);
    assert("illusioni"@.len() == 9);
    assert("illusioni visive"@.len() == 16);
    assert("invecchiamento"@.len() == 14);
    assert("livelli negativi"@.len() == 16);
    assert("malattia"@.len() == 8);
    assert("malattie"@.len() == 8);
    assert("maledizioni"@.len() == 11);
    assert("metamorfosi"@.len() == 11);
    assert("nausea"@.len() == 6);
    assert("palla di fuoco"@.len() == 14);
    assert("paralisi"@.len() == 8);
    assert("paura"@.len() == 5);
    assert("pietrificazione"@.len() == 15);
    assert("possessione"@.len() == 11);
    assert("risucchi di caratteristiche"@.len() == 27);
    assert("risucchi di energia"@.len() == 19);
    assert("risucchio di caratteristica"@.len() == 27);
    assert("risucchio di caratteristiche"@.len() == 28);
    assert("risucchio di energia"@.len() == 20);
    assert("ruggine"@.len() == 7);
    assert("sanguinamento"@.len() == 13);
    assert("sonno"@.len() == 5);
    assert("sonoro"@.len() == 6);
    assert("sordità"@.len() == 7);
    assert("stordimento"@.len() == 11);
    assert("veleni"@.len() == 6);
    assert("veleno"@.len() == 6);
    assert("visivi ed illusori"@.len() == 18);
    assert("Tratti dei Non Morti"@[0] != "Attacchi con Sguardo"@[0]);
    assert("Tratti dei Non Morti"@ != "Attacchi con Sguardo"@);
    assert("Tratti dei Non Morti"@[0] != "attacchi con Sguardo"@[0]);
    assert("Tratti dei Non Morti"@ != "attacchi con Sguardo"@);
    assert("Tratti dei Non Morti"@[0] != "Risucchio di Energia"@[0]);
    assert("Tratti dei Non Morti"@ != "Risucchio di Energia"@);
    assert("Tratti dei Non Morti"@[0] != "risucchio di energia"@[0]);
    assert("Tratti dei Non Morti"@ != "risucchio di energia"@);
}

proof fn lemma_read_immunity_oozetraits(s: Seq<char>)
    requires
        immunity_named(Immunity_Type::Immunity_OozeTraits, s),
    ensures
        spec_single_immunity(s) == Some(Immunity_Type::Immunity_OozeTraits),
{
    reveal_strlit("Abbagliamenti");
    reveal_strlit("Abbagliamento");
    reveal_strlit("Abbagliato");
    reveal_strlit("Accecato");
    reveal_strlit("Acido");
    reveal_strlit("Affaticamento");
    reveal_strlit("Affaticato");
    reveal_strlit("Ammaliamento");
    reveal_strlit("Ancora Dimensionale");
    reveal_strlit("Armi Taglienti");
    reveal_strlit("Armi contundenti");
    reveal_strlit("Assorbimento del Fuoco");
    reveal_strlit("Attacchi Furtivi");
    reveal_strlit("Attacchi ai Fianchi");
    reveal_strlit("Attacchi basati sull'olfatto");
    reveal_strlit("Attacchi basati sulla vista");
    reveal_strlit("Attacchi basati sulla vista o sguardo");
    reveal_strlit("Attacchi con Sguardo");
    reveal_strlit("Attacchi con lo sguardo");
    reveal_strlit("Attacchi dipendenti dalla vista");
    reveal_strlit("Barcollante");
    reveal_strlit("Barcollare");
    reveal_strlit("Cecità");
    reveal_strlit("Charme");
    reveal_strlit("Colpi Critici");
    reveal_strlit("Colpi critici");
    reveal_strlit("Condizione Affaticato");
    reveal_strlit("Condizione Esausto");
    reveal_strlit("Confusione");
    reveal_strlit("Congedo");
    reveal_strlit("Danni Non Letali");
    reveal_strlit("Danni alle caratteristiche");
    reveal_strlit("Danni contundenti");
    reveal_strlit("Danni da arma");
    reveal_strlit("Danni da armi");
    reveal_strlit("Danni dalle Armi");
    reveal_strlit("Danni e risucchi alle caratteristiche");
    reveal_strlit("Danni e risucchi di caratteristiche");
    reveal_strlit("Danni e risucchio alle Caratteristiche");
    reveal_strlit("Danni e risucchio di caratteristiche");
    reveal_strlit("Danni perforanti e taglienti");
    reveal_strlit("Danno alle Caratteristiche");
    reveal_strlit("Danno da Pressione");
    reveal_strlit("Danno da arma");
    reveal_strlit("Danno e risucchio alle caratteristiche");
    reveal_strlit("Danno non letale");
    reveal_strlit("Demenza");
    reveal_strlit("Divinazione");
    reveal_strlit("Dolore");
    reveal_strlit("Effetti a completamento di incantesimo e ad attivazione di incantesimo");
    reveal_strlit("Effetti basati sulla vista");
    reveal_strlit("Effetti d'influenza mentale");
    reveal_strlit("Effetti di Charme e Compulsione");
    reveal_strlit("Effetti di Demenza");
    reveal_strlit("Effetti di Influenza Mentale");
    reveal_strlit("Effetti di Morte");
    reveal_strlit("Effetti di Paura");
    reveal_strlit("Effetti di Sonno");
    reveal_strlit("Effetti di charme");
    reveal_strlit("Effetti di charme e compulsioni");
    reveal_strlit("Effetti di confusione e follia");
    reveal_strlit("Effetti di dolore");
    reveal_strlit("Effetti di forza");
    reveal_strlit("Effetti di influenza mentale");
    reveal_strlit("Effetti di morte");
    reveal_strlit("Effetti di morte (vedi sotto)");
    reveal_strlit("Effetti di paura");
    reveal_strlit("Effetti di sonno");
    reveal_strlit("Effetti visivi");
    reveal_strlit("Elettricità");
    reveal_strlit("Elettricità (parziale)");
    reveal_strlit("Energia Negativa");
    reveal_strlit("Energia Positiva");
    reveal_strlit("Esaurimento");
    reveal_strlit("Esausto");
    reveal_strlit("Fatica");
    reveal_strlit("Fiancheggiamento");
    reveal_strlit("Forza");
    reveal_strlit("Frastornamento");
    reveal_strlit("Frastornato");
    reveal_strlit("Freddo");
    reveal_strlit("Freddo (sé stesso e chi lo cavalca)");
    reveal_strlit("Fuoco");
    reveal_strlit("Fuoco Infernale");
    reveal_strlit("Illusione");
    reveal_strlit("Illusioni e qualsiasi attacco basato sulla vista");
    reveal_strlit("Immunità agli Incantesimi");
    reveal_strlit("Immunità al Freddo");
    reveal_strlit("Immunità all'Esilio");
    reveal_strlit("Immunità alla Magia");
    reveal_strlit("Incantesimi di Ammaliamento e di Illusione");
    reveal_strlit("Individuazione dei Pensieri");
    reveal_strlit("Individuazione dell'Allineamento");
    reveal_strlit("Infermità");
    reveal_strlit("Infermo");
    reveal_strlit("Invecchiamento");
    reveal_strlit("Livelli Negativi");
    reveal_strlit("Magia");
    reveal_strlit("Malattia");
    reveal_strlit("Malattie");
    reveal_strlit("Maledizioni");
    reveal_strlit("Metamorfosi");
    reveal_strlit("Nausea");
    reveal_strlit("Nauseato");
    reveal_strlit("Non Deformante");
    reveal_strlit("Paralisi");
    reveal_strlit("Paura");
    reveal_strlit("Pietrificazione");
    reveal_strlit("Richiamo");
    reveal_strlit("Risucchi di Energia");
    reveal_strlit("Risucchio di Caratteristiche");
    reveal_strlit("Risucchio di Energia");
    reveal_strlit("Rivela Bugie");
    reveal_strlit("Sanguinamento");
    reveal_strlit("Sanguinamento (solo Punti Ferita)");
    reveal_strlit("Scosso");
    reveal_strlit("Sguardo");
    reveal_strlit("Sonno");
    reveal_strlit("Sonoro");
    reveal_strlit("Sordità");
    reveal_strlit("Spaventato");
    reveal_strlit("Stordimento");
    reveal_strlit("Tratti dei Non Morti");
    reveal_strlit("Tratti delle Melme");
    reveal_strlit("Veleni");
    reveal_strlit("Veleno");
    reveal_strlit("Veleno Ingerito");
    reveal_strlit("acido");
    reveal_strlit("attacchi basati sulla vista ed effetti visivi");
    reveal_strlit("attacchi con Sguardo");
    reveal_strlit("attacchi con lo Sguardo");
    reveal_strlit("attacchi con lo sguardo");
    reveal_strlit("charme");
    reveal_strlit("charme sui mostri");
    reveal_strlit("compulsione");
    reveal_strlit("controllo mentale");
    reveal_strlit("contundente");
    reveal_strlit("da caduta e da schiacciamento");
    reveal_strlit("danni alle Caratteristiche");
    reveal_strlit("danni alle caratteristiche");
    reveal_strlit("danni contundenti");
    reveal_strlit("danni contundenti e perforanti");
    reveal_strlit("danni da arma");
    reveal_strlit("danni da armi");
    reveal_strlit("danni da precisione");
    reveal_strlit("danni delle armi");
    reveal_strlit("danni di precisione");
    reveal_strlit("danni e risucchi di Caratteristiche");
    reveal_strlit("danni perforanti");
    reveal_strlit("danni taglienti");
    reveal_strlit("danni taglienti e perforanti");
    reveal_strlit("danno da arma");
    reveal_strlit("danno di precisione");
    reveal_strlit("di influenza mentale e basati sullo Sguardo");
    reveal_strlit("divinazione");
    reveal_strlit("dolore");
    reveal_strlit("effetti Barcollanti");
    reveal_strlit("effetti basati sulla vista");
    reveal_strlit("effetti che bersagliano uno specifico numero di creature");
    reveal_strlit("effetti di Charme e Compulsione");
    reveal_strlit("effetti di Metamorfosi");
    reveal_strlit("effetti di Paura");
    reveal_strlit("effetti di Paura ed influenza mentale");
    reveal_strlit("effetti di Sguardo");
    reveal_strlit("effetti di Sonno");
    reveal_strlit("effetti di ammaliamento");
    reveal_strlit("effetti di charme");
    reveal_strlit("effetti di charme e compulsione");
    reveal_strlit("effetti di charme e compulsioni");
    reveal_strlit("effetti di compulsione");
    reveal_strlit("effetti di confusione e demenza");
    reveal_strlit("effetti di demenza");
    reveal_strlit("effetti di influenza mentale");
    reveal_strlit("effetti di influenza mentale e visivi");
    reveal_strlit("effetti di luce");
    reveal_strlit("effetti di maledizione");
    reveal_strlit("effetti di maledizioni");
    reveal_strlit("effetti di metamorfosi");
    reveal_strlit("effetti di morte");
    reveal_strlit("effetti di necromanzia");
    reveal_strlit("effetti di paura");
    reveal_strlit("effetti di sguardo");
    reveal_strlit("effetti di sonno");
    reveal_strlit("effetti e illusioni visive");
    reveal_strlit("effetti polimorfi");
    reveal_strlit("effetti sensoriali");
    reveal_strlit("effetti visivi");
    reveal_strlit("effetti visivi e illusioni");
    reveal_strlit("elettricità");
    reveal_strlit("emozioni");
    reveal_strlit("energia negativa");
    reveal_strlit("ferite permanenti");
    reveal_strlit("forza");
    reveal_strlit("freddo");
    reveal_strlit("fulmine");
    reveal_strlit("fuoco");
    reveal_strlit("illusioni");
    reveal_strlit("illusioni visive");
    reveal_strlit("invecchiamento");
    reveal_strlit("livelli negativi");
    reveal_strlit("malattia");
    reveal_strlit("malattie");
    reveal_strlit("maledizioni");
    reveal_strlit("metamorfosi");
    reveal_strlit("nausea");
    reveal_strlit("palla di fuoco");
    reveal_strlit("paralisi");
    reveal_strlit("paura");
    reveal_strlit("pietrificazione");
    reveal_strlit("possessione");
    reveal_strlit("risucchi di caratteristiche");
    reveal_strlit("risucchi di energia");
    reveal_strlit("risucchio di caratteristica");
    reveal_strlit("risucchio di caratteristiche");
    reveal_strlit("risucchio di energia");
    reveal_strlit("ruggine");
    reveal_strlit("sanguinamento");
    reveal_strlit("sonno");
    reveal_strlit("sonoro");
    reveal_strlit("sordità");
    reveal_strlit("stordimento");
    reveal_strlit("veleni");
    reveal_strlit("veleno");
    reveal_strlit("visivi ed illusori");
    assert("Abbagliamenti"@.len() == 13);
    assert("Abbagliamento"@.len() == 13);
    assert("Abbagliato"@.len() == 10);
    assert("Accecato"@.len() == 8);
    assert("Acido"@.len() == 5);
    assert("Affaticamento"@.len() == 13);
    assert("Affaticato"@.len() == 10);
    assert("Ammaliamento"@.len() == 12);
    assert("Ancora Dimensionale"@.len() == 19);
    assert("Armi Taglienti"@.len() == 14);
    assert("Armi contundenti"@.len() == 16);
    assert("Assorbimento del Fuoco"@.len() == 22);
    assert("Attacchi Furtivi"@.len() == 16);
    assert("Attacchi ai Fianchi"@.len() == 19);
    assert("Attacchi basati sull'olfatto"@.len() == 28);
    assert("Attacchi basati sulla vista"@.len() == 27);
    assert("Attacchi basati sulla vista o sguardo"@.len() == 37);
    assert("Attacchi con Sguardo"@.len() == 20);
    assert("Attacchi con lo sguardo"@.len() == 23);
    assert("Attacchi dipendenti dalla vista"@.len() == 31);
    assert("Barcollante"@.len() == 11);
    assert("Barcollare"@.len() == 10);
    assert("Cecità"@.len() == 6);
    assert("Charme"@.len() == 6);
    assert("Colpi Critici"@.len() == 13);
    assert("Colpi critici"@.len() == 13);
    assert("Condizione Affaticato"@.len() == 21);
    assert("Condizione Esausto"@.len() == 18);
    assert("Confusione"@.len() == 10);
    assert("Congedo"@.len() == 7);
    assert("Danni Non Letali"@.len() == 16);
    assert("Danni alle caratteristiche"@.len() == 26);
    assert("Danni contundenti"@.len() == 17);
    assert("Danni da arma"@.len() == 13);
    assert("Danni da armi"@.len() == 13);
    assert("Danni dalle Armi"@.len() == 16);
    assert("Danni e risucchi alle caratteristiche"@.len() == 37);
    assert("Danni e risucchi di caratteristiche"@.len() == 35);
    assert("Danni e risucchio alle Caratteristiche"@.len() == 38);
    assert("Danni e risucchio di caratteristiche"@.len() == 36);
    assert("Danni perforanti e taglienti"@.len() == 28);
    assert("Danno alle Caratteristiche"@.len() == 26);
    assert("Danno da Pressione"@.len() == 18);
    assert("Danno da arma"@.len() == 13);
    assert("Danno e risucchio alle caratteristiche"@.len() == 38);
    assert("Danno non letale"@.len() == 16);
    assert("Demenza"@.len() == 7);
    assert("Divinazione"@.len() == 11);
    assert("Dolore"@.len() == 6);
    assert("Effetti a completamento di incantesimo e ad attivazione di incantesimo"@.len() == 70);
    assert("Effetti basati sulla vista"@.len() == 26);
    assert("Effetti d'influenza mentale"@.len() == 27);
    assert("Effetti di Charme e Compulsione"@.len() == 31);
    assert("Effetti di Demenza"@.len() == 18);
    assert("Effetti di Influenza Mentale"@.len() == 28);
    assert("Effetti di Morte"@.len() == 16);
    assert("Effetti di Paura"@.len() == 16);
    assert("Effetti di Sonno"@.len() == 16);
    assert("Effetti di charme"@.len() == 17);
    assert("Effetti di charme e compulsioni"@.len() == 31);
    assert("Effetti di confusione e follia"@.len() == 30);
    assert("Effetti di dolore"@.len() == 17);
    assert("Effetti di forza"@.len() == 16);
    assert("Effetti di influenza mentale"@.len() == 28);
    assert("Effetti di morte"@.len() == 16);
    assert("Effetti di morte (vedi sotto)"@.len() == 29);
    assert("Effetti di paura"@.len() == 16);
    assert("Effetti di sonno"@.len() == 16);
    assert("Effetti visivi"@.len() == 14);
    assert("Elettricità"@.len() == 11);
    assert("Elettricità (parziale)"@.len() == 22);
    assert("Energia Negativa"@.len() == 16);
    assert("Energia Positiva"@.len() == 16);
    assert("Esaurimento"@.len() == 11);
    assert("Esausto"@.len() == 7);
    assert("Fatica"@.len() == 6);
    assert("Fiancheggiamento"@.len() == 16);
    assert("Forza"@.len() == 5);
    assert("Frastornamento"@.len() == 14);
    assert("Frastornato"@.len() == 11);
    assert("Freddo"@.len() == 6);
    assert("Freddo (sé stesso e chi lo cavalca)"@.len() == 35);
    assert("Fuoco"@.len() == 5);
    assert("Fuoco Infernale"@.len() == 15);
    assert("Illusione"@.len() == 9);
    assert("Illusioni e qualsiasi attacco basato sulla vista"@.len() == 48);
    assert("Immunità agli Incantesimi"@.len() == 25);
    assert("Immunità al Freddo"@.len() == 18);
    assert("Immunità all'Esilio"@.len() == 19);
    assert("Immunità alla Magia"@.len() == 19);
    assert("Incantesimi di Ammaliamento e di Illusione"@.len() == 42);
    assert("Individuazione dei Pensieri"@.len() == 27);
    assert("Individuazione dell'Allineamento"@.len() == 32);
    assert("Infermità"@.len() == 9);
    assert("Infermo"@.len() == 7);
    assert("Invecchiamento"@.len() == 14);
    assert("Livelli Negativi"@.len() == 16);
    assert("Magia"@.len() == 5);
    assert("Malattia"@.len() == 8);
    assert("Malattie"@.len() == 8);
    assert("Maledizioni"@.len() == 11);
    assert("Metamorfosi"@.len() == 11);
    assert("Nausea"@.len() == 6);
    assert("Nauseato"@.len() == 8);
    assert("Non Deformante"@.len() == 14);
    assert("Paralisi"@.len() == 8);
    assert("Paura"@.len() == 5);
    assert("Pietrificazione"@.len() == 15);
    assert("Richiamo"@.len() == 8);
    assert("Risucchi di Energia"@.len() == 19);
    assert("Risucchio di Caratteristiche"@.len() == 28);
    assert("Risucchio di Energia"@.len() == 20);
    assert("Rivela Bugie"@.len() == 12);
    assert("Sanguinamento"@.len() == 13);
    assert("Sanguinamento (solo Punti Ferita)"@.len() == 33);
    assert("Scosso"@.len() == 6);
    assert("Sguardo"@.len() == 7);
    assert("Sonno"@.len() == 5);
    assert("Sonoro"@.len() == 6);
    assert("Sordità"@.len() == 7);
    assert("Spaventato"@.len() == 10);
    assert("Stordimento"@.len() == 11);
    assert("Tratti dei Non Morti"@.len() == 20);
    assert("Tratti delle Melme"@.len() == 18);
    assert("Veleni"@.len() == 6);
    assert("Veleno"@.len() == 6);
    assert("Veleno Ingerito"@.len() == 15);
    assert("acido"@.len() == 5);
    assert("attacchi basati sulla vista ed effetti visivi"@.len() == 45);
    assert("attacchi con Sguardo"@.len() == 20);
    assert("attacchi con lo Sguardo"@.len() == 23);
    assert("attacchi con lo sguardo"@.len() == 23);
    assert("charme"@.len() == 6);
    assert("charme sui mostri"@.len() == 17);
    assert("compulsione"@.len() == 11);
    assert("controllo mentale"@.len() == 17);
    assert("contundente"@.len() == 11);
    assert("da caduta e da schiacciamento"@.len() == 29);
    assert("danni alle Caratteristiche"@.len() == 26);
    assert("danni alle caratteristiche"@.len() == 26);
    assert("danni contundenti"@.len() == 17);
    assert("danni contundenti e perforanti"@.len() == 30);
    assert("danni da arma"@.len() == 13);
    assert("danni da armi"@.len() == 13);
    assert("danni da precisione"@.len() == 19);
    assert("danni delle armi"@.len() == 16);
    assert("danni di precisione"@.len() == 19);
    assert("danni e risucchi di Caratteristiche"@.len() == 35);
    assert("danni perforanti"@.len() == 16);
    assert("danni taglienti"@.len() == 15);
    assert("danni taglienti e perforanti"@.len() == 28);
    assert("danno da arma"@.len() == 13);
    assert("danno di precisione"@.len() == 19);
    assert("di influenza mentale e basati sullo Sguardo"@.len() == 43);
    assert("divinazione"@.len() == 11);
    assert("dolore"@.len() == 6);
    assert("effetti Barcollanti"@.len() == 19);
    assert("effetti basati sulla vista"@.len() == 26);
    assert("effetti che bersagliano uno specifico numero di creature"@.len() == 56);
    assert("effetti di Charme e Compulsione"@.len() == 31);
    assert("effetti di Metamorfosi"@.len() == 22);
    assert("effetti di Paura"@.len() == 16);
    assert("effetti di Paura ed influenza mentale"@.len() == 37);
    assert("effetti di Sguardo"@.len() == 18);
    assert("effetti di Sonno"@.len() == 16);
    assert("effetti di ammaliamento"@.len() == 23);
    assert("effetti di charme"@.len() == 17);
    assert("effetti di charme e compulsione"@.len() == 31);
    assert("effetti di charme e compulsioni"@.len() == 31);
    assert("effetti di compulsione"@.len() == 22);
    assert("effetti di confusione e demenza"@.len() == 31);
    assert("effetti di demenza"@.len() == 18);
    assert("effetti di influenza mentale"@.len() == 28);
    assert("effetti di influenza mentale e visivi"@.len() == 37);
    assert("effetti di luce"@.len() == 15);
    assert("effetti di maledizione"@.len() == 22);
    assert("effetti di maledizioni"@.len() == 22);
    assert("effetti di metamorfosi"@.len() == 22);
    assert("effetti di morte"@.len() == 16);
    assert("effetti di necromanzia"@.len() == 22);
    assert("effetti di paura"@.len() == 16);
    assert("effetti di sguardo"@.len() == 18);
    assert("effetti di sonno"@.len() == 16);
    assert("effetti e illusioni visive"@.len() == 26);
    assert("effetti polimorfi"@.len() == 17);
    assert("effetti sensoriali"@.len() == 18);
    assert("effetti visivi"@.len() == 14);
    assert("effetti visivi e illusioni"@.len() == 26);
    assert("elettricità"@.len() == 11);
    assert("emozioni"@.len() == 8);
    assert("energia negativa"@.len() == 16);
    assert("ferite permanenti"@.len() == 17);
    assert("forza"@.len() == 5);
    assert("freddo"@.len() == 6);
    assert("fulmine"@.len() == 7);
    assert("fuoco"@.len() == 5);
    assert("illusioni"@.len() == 9);
    assert("illusioni visive"@.len() == 16);
    assert("invecchiamento"@.len() == 14);
    assert("livelli negativi"@.len() == 16);
    assert("malattia"@.len() == 8);
    assert("malattie"@.len() == 8);
    assert("maledizioni"@.len() == 11);
    assert("metamorfosi"@.len() == 11);
    assert("nausea"@.len() == 6);
    assert("palla di fuoco"@.len() == 14);
    assert("paralisi"@.len() == 8);
    assert("paura"@.len() == 5);
    assert("pietrificazione"@.len() == 15);
    assert("possessione"@.len() == 11);
    assert("risucchi di caratteristiche"@.len() == 27);
    assert("risucchi di energia"@.len() == 19);
    assert("risucchio di caratteristica"@.len() == 27);
    assert("risucchio di caratteristiche"@.len() == 28);
    assert("risucchio di energia"@.len() == 20);
    assert("ruggine"@.len() == 7);
    assert("sanguinamento"@.len() == 13);
    assert("sonno"@.len() == 5);
    assert("sonoro"@.len() == 6);
    assert("sordità"@.len() == 7);
    assert("stordimento"@.len() == 11);
    assert("veleni"@.len() == 6);
    assert("veleno"@.len() == 6);
    assert("visivi ed illusori"@.len() == 18);
    assert("Tratti delle Melme"@[0] != "Immunità al Freddo"@[0]);
    assert("Tratti delle Melme"@ != "Immunità al Freddo"@);
    assert("Tratti delle Melme"@[0] != "Condizione Esausto"@[0]);
    assert("Tratti delle Melme"@ != "Condizione Esausto"@);
    assert("Tratti delle Melme"@[0] != "Danno da Pressione"@[0]);
    assert("Tratti delle Melme"@ != "Danno da Pressione"@);
    assert("Tratti delle Melme"@[0] != "effetti di Sguardo"@[0]);
    assert("Tratti delle Melme"@ != "effetti di Sguardo"@);
    assert("Tratti delle Melme"@[0] != "effetti di sguardo"@[0]);
    assert("Tratti delle Melme"@ != "effetti di sguardo"@);
    assert("Tratti delle Melme"@[0] != "visivi ed illusori"@[0]);
    assert("Tratti delle Melme"@ != "visivi ed illusori"@);
    assert("Tratti delle Melme"@[0] != "Effetti di Demenza"@[0]);
    assert("Tratti delle Melme"@ != "Effetti di Demenza"@);
    assert("Tratti delle Melme"@[0] != "effetti di demenza"@[0]);
    assert("Tratti delle Melme"@ != "effetti di demenza"@);
    assert("Tratti delle Melme"@[0] != "effetti sensoriali"@[0]);
    assert("Tratti delle Melme"@ != "effetti sensoriali"@);
}

proof fn lemma_read_immunity_swarmtraits(s: Seq<char>)
    requires
        immunity_named(Immunity_Type::Immunity_SwarmTraits, s),
    ensures
        spec_single_immunity(s) == Some(Immunity_Type::Immunity_SwarmTraits),
{
    reveal_strlit("Abbagliamenti");
    reveal_strlit("Abbagliamento");
    reveal_strlit("Abbagliato");
    reveal_strlit("Accecato");
    reveal_strlit("Acido");
    reveal_strlit("Affaticamento");
    reveal_strlit("Affaticato");
    reveal_strlit("Ammaliamento");
    reveal_strlit("Ancora Dimensionale");
    reveal_strlit("Armi Taglienti");
    reveal_strlit("Armi contundenti");
    reveal_strlit("Assorbimento del Fuoco");
    reveal_strlit("Attacchi Furtivi");
    reveal_strlit("Attacchi ai Fianchi");
    reveal_strlit("Attacchi basati sull'olfatto");
    reveal_strlit("Attacchi basati sulla vista");
    reveal_strlit("Attacchi basati sulla vista o sguardo");
    reveal_strlit("Attacchi con Sguardo");
    reveal_strlit("Attacchi con lo sguardo");
    reveal_strlit("Attacchi dipendenti dalla vista");
    reveal_strlit("Barcollante");
    reveal_strlit("Barcollare");
    reveal_strlit("Cecità");
    reveal_strlit("Charme");
    reveal_strlit("Colpi Critici");
    reveal_strlit("Colpi critici");
    reveal_strlit("Condizione Affaticato");
    reveal_strlit("Condizione Esausto");
    reveal_strlit("Confusione");
    reveal_strlit("Congedo");
    reveal_strlit("Danni Non Letali");
    reveal_strlit("Danni alle caratteristiche");
    reveal_strlit("Danni contundenti");
    reveal_strlit("Danni da arma");
    reveal_strlit("Danni da armi");
    reveal_strlit("Danni dalle Armi");
    reveal_strlit("Danni e risucchi alle caratteristiche");
    reveal_strlit("Danni e risucchi di caratteristiche");
    reveal_strlit("Danni e risucchio alle Caratteristiche");
    reveal_strlit("Danni e risucchio di caratteristiche");
    reveal_strlit("Danni perforanti e taglienti");
    reveal_strlit("Danno alle Caratteristiche");
    reveal_strlit("Danno da Pressione");
    reveal_strlit("Danno da arma");
    reveal_strlit("Danno e risucchio alle caratteristiche");
    reveal_strlit("Danno non letale");
    reveal_strlit("Demenza");
    reveal_strlit("Divinazione");
    reveal_strlit("Dolore");
    reveal_strlit("Effetti a completamento di incantesimo e ad attivazione di incantesimo");
    reveal_strlit("Effetti basati sulla vista");
    reveal_strlit("Effetti d'influenza mentale");
    reveal_strlit("Effetti di Charme e Compulsione");
    reveal_strlit("Effetti di Demenza");
    reveal_strlit("Effetti di Influenza Mentale");
    reveal_strlit("Effetti di Morte");
    reveal_strlit("Effetti di Paura");
    reveal_strlit("Effetti di Sonno");
    reveal_strlit("Effetti di charme");
    reveal_strlit("Effetti di charme e compulsioni");
    reveal_strlit("Effetti di confusione e follia");
    reveal_strlit("Effetti di dolore");
    reveal_strlit("Effetti di forza");
    reveal_strlit("Effetti di influenza mentale");
    reveal_strlit("Effetti di morte");
    reveal_strlit("Effetti di morte (vedi sotto)");
    reveal_strlit("Effetti di paura");
    reveal_strlit("Effetti di sonno");
    reveal_strlit("Effetti visivi");
    reveal_strlit("Elettricità");
    reveal_strlit("Elettricità (parziale)");
    reveal_strlit("Energia Negativa");
    reveal_strlit("Energia Positiva");
    reveal_strlit("Esaurimento");
    reveal_strlit("Esausto");
    reveal_strlit("Fatica");
    reveal_strlit("Fiancheggiamento");
    reveal_strlit("Forza");
    reveal_strlit("Frastornamento");
    reveal_strlit("Frastornato");
    reveal_strlit("Freddo");
    reveal_strlit("Freddo (sé stesso e chi lo cavalca)");
    reveal_strlit("Fuoco");
    reveal_strlit("Fuoco Infernale");
    reveal_strlit("Illusione");
    reveal_strlit("Illusioni e qualsiasi attacco basato sulla vista");
    reveal_strlit("Immunità agli Incantesimi");
    reveal_strlit("Immunità al Freddo");
    reveal_strlit("Immunità all'Esilio");
    reveal_strlit("Immunità alla Magia");
    reveal_strlit("Incantesimi di Ammaliamento e di Illusione");
    reveal_strlit("Individuazione dei Pensieri");
    reveal_strlit("Individuazione dell'Allineamento");
    reveal_strlit("Infermità");
    reveal_strlit("Infermo");
    reveal_strlit("Invecchiamento");
    reveal_strlit("Livelli Negativi");
    reveal_strlit("Magia");
    reveal_strlit("Malattia");
    reveal_strlit("Malattie");
    reveal_strlit("Maledizioni");
    reveal_strlit("Metamorfosi");
    reveal_strlit("Nausea");
    reveal_strlit("Nauseato");
    reveal_strlit("Non Deformante");
    reveal_strlit("Paralisi");
    reveal_strlit("Paura");
    reveal_strlit("Pietrificazione");
    reveal_strlit("Richiamo");
    reveal_strlit("Risucchi di Energia");
    reveal_strlit("Risucchio di Caratteristiche");
    reveal_strlit("Risucchio di Energia");
    reveal_strlit("Rivela Bugie");
    reveal_strlit("Sanguinamento");
    reveal_strlit("Sanguinamento (solo Punti Ferita)");
    reveal_strlit("Scosso");
    reveal_strlit("Sguardo");
    reveal_strlit("Sonno");
    reveal_strlit("Sonoro");
    reveal_strlit("Sordità");
    reveal_strlit("Spaventato");
    reveal_strlit("Stordimento");
    reveal_strlit("Tratti degli Sciami");
    reveal_strlit("Tratti dei Non Morti");
    reveal_strlit("Tratti delle Melme");
    reveal_strlit("Veleni");
    reveal_strlit("Veleno");
    reveal_strlit("Veleno Ingerito");
    reveal_strlit("acido");
    reveal_strlit("attacchi basati sulla vista ed effetti visivi");
    reveal_strlit("attacchi con Sguardo");
    reveal_strlit("attacchi con lo Sguardo");
    reveal_strlit("attacchi con lo sguardo");
    reveal_strlit("charme");
    reveal_strlit("charme sui mostri");
    reveal_strlit("compulsione");
    reveal_strlit("controllo mentale");
    reveal_strlit("contundente");
    reveal_strlit("da caduta e da schiacciamento");
    reveal_strlit("danni alle Caratteristiche");
    reveal_strlit("danni alle caratteristiche");
    reveal_strlit("danni contundenti");
    reveal_strlit("danni contundenti e perforanti");
    reveal_strlit("danni da arma");
    reveal_strlit("danni da armi");
    reveal_strlit("danni da precisione");
    reveal_strlit("danni delle armi");
    reveal_strlit("danni di precisione");
    reveal_strlit("danni e risucchi di Caratteristiche");
    reveal_strlit("danni perforanti");
    reveal_strlit("danni taglienti");
    reveal_strlit("danni taglienti e perforanti");
    reveal_strlit("danno da arma");
    reveal_strlit("danno di precisione");
    reveal_strlit("di influenza mentale e basati sullo Sguardo");
    reveal_strlit("divinazione");
    reveal_strlit("dolore");
    reveal_strlit("effetti Barcollanti");
    reveal_strlit("effetti basati sulla vista");
    reveal_strlit("effetti che bersagliano uno specifico numero di creature");
    reveal_strlit("effetti di Charme e Compulsione");
    reveal_strlit("effetti di Metamorfosi");
    reveal_strlit("effetti di Paura");
    reveal_strlit("effetti di Paura ed influenza mentale");
    reveal_strlit("effetti di Sguardo");
    reveal_strlit("effetti di Sonno");
    reveal_strlit("effetti di ammaliamento");
    reveal_strlit("effetti di charme");
    reveal_strlit("effetti di charme e compulsione");
    reveal_strlit("effetti di charme e compulsioni");
    reveal_strlit("effetti di compulsione");
    reveal_strlit("effetti di confusione e demenza");
    reveal_strlit("effetti di demenza");
    reveal_strlit("effetti di influenza mentale");
    reveal_strlit("effetti di influenza mentale e visivi");
    reveal_strlit("effetti di luce");
    reveal_strlit("effetti di maledizione");
    reveal_strlit("effetti di maledizioni");
    reveal_strlit("effetti di metamorfosi");
    reveal_strlit("effetti di morte");
    reveal_strlit("effetti di necromanzia");
    reveal_strlit("effetti di paura");
    reveal_strlit("effetti di sguardo");
    reveal_strlit("effetti di sonno");
    reveal_strlit("effetti e illusioni visive");
    reveal_strlit("effetti polimorfi");
    reveal_strlit("effetti sensoriali");
    reveal_strlit("effetti visivi");
    reveal_strlit("effetti visivi e illusioni");
    reveal_strlit("elettricità");
    reveal_strlit("emozioni");
    reveal_strlit("energia negativa");
    reveal_strlit("ferite permanenti");
    reveal_strlit("forza");
    reveal_strlit("freddo");
    reveal_strlit("fulmine");
    reveal_strlit("fuoco");
    reveal_strlit("illusioni");
    reveal_strlit("illusioni visive");
    reveal_strlit("invecchiamento");
    reveal_strlit("livelli negativi");
    reveal_strlit("malattia");
    reveal_strlit("malattie");
    reveal_strlit("maledizioni");
    reveal_strlit("metamorfosi");
    reveal_strlit("nausea");
    reveal_strlit("palla di fuoco");
    reveal_strlit("paralisi");
    reveal_strlit("paura");
    reveal_strlit("pietrificazione");
    reveal_strlit("possessione");
    reveal_strlit("risucchi di caratteristiche");
    reveal_strlit("risucchi di energia");
    reveal_strlit("risucchio di caratteristica");
    reveal_strlit("risucchio di caratteristiche");
    reveal_strlit("risucchio di energia");
    reveal_strlit("ruggine");
    reveal_strlit("sanguinamento");
    reveal_strlit("sonno");
    reveal_strlit("sonoro");
    reveal_strlit("sordità");
    reveal_strlit("stordimento");
    reveal_strlit("veleni");
    reveal_strlit("veleno");
    reveal_strlit("visivi ed illusori");
    assert("Abbagliamenti"@.len() == 13);
    assert("Abbagliamento"@.len() == 13);
    assert("Abbagliato"@.len() == 10);
    assert("Accecato"@.len() == 8);
    assert("Acido"@.len() == 5);
    assert("Affaticamento"@.len() == 13);
    assert("Affaticato"@.len() == 10);
    assert("Ammaliamento"@.len() == 12);
    assert("Ancora Dimensionale"@.len() == 19);
    assert("Armi Taglienti"@.len() == 14);
    assert("Armi contundenti"@.len() == 16);
    assert("Assorbimento del Fuoco"@.len() == 22);
    assert("Attacchi Furtivi"@.len() == 16);
    assert("Attacchi ai Fianchi"@.len() == 19);
    assert("Attacchi basati sull'olfatto"@.len() == 28);
    assert("Attacchi basati sulla vista"@.len() == 27);
    assert("Attacchi basati sulla vista o sguardo"@.len() == 37);
    assert("Attacchi con Sguardo"@.len() == 20);
    assert("Attacchi con lo sguardo"@.len() == 23);
    assert("Attacchi dipendenti dalla vista"@.len() == 31);
    assert("Barcollante"@.len() == 11);
    assert("Barcollare"@.len() == 10);
    assert("Cecità"@.len() == 6);
    assert("Charme"@.len() == 6);
    assert("Colpi Critici"@.len() == 13);
    assert("Colpi critici"@.len() == 13);
    assert("Condizione Affaticato"@.len() == 21);
    assert("Condizione Esausto"@.len() == 18);
    assert("Confusione"@.len() == 10);
    assert("Congedo"@.len() == 7);
    assert("Danni Non Letali"@.len() == 16);
    assert("Danni alle caratteristiche"@.len() == 26);
    assert("Danni contundenti"@.len() == 17);
    assert("Danni da arma"@.len() == 13);
    assert("Danni da armi"@.len() == 13);
    assert("Danni dalle Armi"@.len() == 16);
    assert("Danni e risucchi alle caratteristiche"@.len() == 37);
    assert("Danni e risucchi di caratteristiche"@.len() == 35);
    assert("Danni e risucchio alle Caratteristiche"@.len() == 38);
    assert("Danni e risucchio di caratteristiche"@.len() == 36);
    assert("Danni perforanti e taglienti"@.len() == 28);
    assert("Danno alle Caratteristiche"@.len() == 26);
    assert("Danno da Pressione"@.len() == 18);
    assert("Danno da arma"@.len() == 13);
    assert("Danno e risucchio alle caratteristiche"@.len() == 38);
    assert("Danno non letale"@.len() == 16);
    assert("Demenza"@.len() == 7);
    assert("Divinazione"@.len() == 11);
    assert("Dolore"@.len() == 6);
    assert("Effetti a completamento di incantesimo e ad attivazione di incantesimo"@.len() == 70);
    assert("Effetti basati sulla vista"@.len() == 26);
    assert("Effetti d'influenza mentale"@.len() == 27);
    assert("Effetti di Charme e Compulsione"@.len() == 31);
    assert("Effetti di Demenza"@.len() == 18);
    assert("Effetti di Influenza Mentale"@.len() == 28);
    assert("Effetti di Morte"@.len() == 16);
    assert("Effetti di Paura"@.len() == 16);
    assert("Effetti di Sonno"@.len() == 16);
    assert("Effetti di charme"@.len() == 17);
    assert("Effetti di charme e compulsioni"@.len() == 31);
    assert("Effetti di confusione e follia"@.len() == 30);
    assert("Effetti di dolore"@.len() == 17);
    assert("Effetti di forza"@.len() == 16);
    assert("Effetti di influenza mentale"@.len() == 28);
    assert("Effetti di morte"@.len() == 16);
    assert("Effetti di morte (vedi sotto)"@.len() == 29);
    assert("Effetti di paura"@.len() == 16);
    assert("Effetti di sonno"@.len() == 16);
    assert("Effetti visivi"@.len() == 14);
    assert("Elettricità"@.len() == 11);
    assert("Elettricità (parziale)"@.len() == 22);
    assert("Energia Negativa"@.len() == 16);
    assert("Energia Positiva"@.len() == 16);
    assert("Esaurimento"@.len() == 11);
    assert("Esausto"@.len() == 7);
    assert("Fatica"@.len() == 6);
    assert("Fiancheggiamento"@.len() == 16);
    assert("Forza"@.len() == 5);
    assert("Frastornamento"@.len() == 14);
    assert("Frastornato"@.len() == 11);
    assert("Freddo"@.len() == 6);
    assert("Freddo (sé stesso e chi lo cavalca)"@.len() == 35);
    assert("Fuoco"@.len() == 5);
    assert("Fuoco Infernale"@.len() == 15);
    assert("Illusione"@.len() == 9);
    assert("Illusioni e qualsiasi attacco basato sulla vista"@.len() == 48);
    assert("Immunità agli Incantesimi"@.len() == 25);
    assert("Immunità al Freddo"@.len() == 18);
    assert("Immunità all'Esilio"@.len() == 19);
    assert("Immunità alla Magia"@.len() == 19);
    assert("Incantesimi di Ammaliamento e di Illusione"@.len() == 42);
    assert("Individuazione dei Pensieri"@.len() == 27);
    assert("Individuazione dell'Allineamento"@.len() == 32);
    assert("Infermità"@.len() == 9);
    assert("Infermo"@.len() == 7);
    assert("Invecchiamento"@.len() == 14);
    assert("Livelli Negativi"@.len() == 16);
    assert("Magia"@.len() == 5);
    assert("Malattia"@.len() == 8);
    assert("Malattie"@.len() == 8);
    assert("Maledizioni"@.len() == 11);
    assert("Metamorfosi"@.len() == 11);
    assert("Nausea"@.len() == 6);
    assert("Nauseato"@.len() == 8);
    assert("Non Deformante"@.len() == 14);
    assert("Paralisi"@.len() == 8);
    assert("Paura"@.len() == 5);
    assert("Pietrificazione"@.len() == 15);
    assert("Richiamo"@.len() == 8);
    assert("Risucchi di Energia"@.len() == 19);
    assert("Risucchio di Caratteristiche"@.len() == 28);
    assert("Risucchio di Energia"@.len() == 20);
    assert("Rivela Bugie"@.len() == 12);
    assert("Sanguinamento"@.len() == 13);
    assert("Sanguinamento (solo Punti Ferita)"@.len() == 33);
    assert("Scosso"@.len() == 6);
    assert("Sguardo"@.len() == 7);
    assert("Sonno"@.len() == 5);
    assert("Sonoro"@.len() == 6);
    assert("Sordità"@.len() == 7);
    assert("Spaventato"@.len() == 10);
    assert("Stordimento"@.len() == 11);
    assert("Tratti degli Sciami"@.len() == 19);
    assert("Tratti dei Non Morti"@.len() == 20);
    assert("Tratti delle Melme"@.len() == 18);
    assert("Veleni"@.len() == 6);
    assert("Veleno"@.len() == 6);
    assert("Veleno Ingerito"@.len() == 15);
    assert("acido"@.len() == 5);
    assert("attacchi basati sulla vista ed effetti visivi"@.len() == 45);
    assert("attacchi con Sguardo"@.len() == 20);
    assert("attacchi con lo Sguardo"@.len() == 23);
    assert("attacchi con lo sguardo"@.len() == 23);
    assert("charme"@.len() == 6);
    assert("charme sui mostri"@.len() == 17);
    assert("compulsione"@.len() == 11);
    assert("controllo mentale"@.len() == 17);
    assert("contundente"@.len() == 11);
    assert("da caduta e da schiacciamento"@.len() == 29);
    assert("danni alle Caratteristiche"@.len() == 26);
    assert("danni alle caratteristiche"@.len() == 26);
    assert("danni contundenti"@.len() == 17);
    assert("danni contundenti e perforanti"@.len() == 30);
    assert("danni da arma"@.len() == 13);
    assert("danni da armi"@.len() == 13);
    assert("danni da precisione"@.len() == 19);
    assert("danni delle armi"@.len() == 16);
    assert("danni di precisione"@.len() == 19);
    assert("danni e risucchi di Caratteristiche"@.len() == 35);
    assert("danni perforanti"@.len() == 16);
    assert("danni taglienti"@.len() == 15);
    assert("danni taglienti e perforanti"@.len() == 28);
    assert("danno da arma"@.len() == 13);
    assert("danno di precisione"@.len() == 19);
    assert("di influenza mentale e basati sullo Sguardo"@.len() == 43);
    assert("divinazione"@.len() == 11);
    assert("dolore"@.len() == 6);
    assert("effetti Barcollanti"@.len() == 19);
    assert("effetti basati sulla vista"@.len() == 26);
    assert("effetti che bersagliano uno specifico numero di creature"@.len() == 56);
    assert("effetti di Charme e Compulsione"@.len() == 31);
    assert("effetti di Metamorfosi"@.len() == 22);
    assert("effetti di Paura"@.len() == 16);
    assert("effetti di Paura ed influenza mentale"@.len() == 37);
    assert("effetti di Sguardo"@.len() == 18);
    assert("effetti di Sonno"@.len() == 16);
    assert("effetti di ammaliamento"@.len() == 23);
    assert("effetti di charme"@.len() == 17);
    assert("effetti di charme e compulsione"@.len() == 31);
    assert("effetti di charme e compulsioni"@.len() == 31);
    assert("effetti di compulsione"@.len() == 22);
    assert("effetti di confusione e demenza"@.len() == 31);
    assert("effetti di demenza"@.len() == 18);
    assert("effetti di influenza mentale"@.len() == 28);
    assert("effetti di influenza mentale e visivi"@.len() == 37);
    assert("effetti di luce"@.len() == 15);
    assert("effetti di maledizione"@.len() == 22);
    assert("effetti di maledizioni"@.len() == 22);
    assert("effetti di metamorfosi"@.len() == 22);
    assert("effetti di morte"@.len() == 16);
    assert("effetti di necromanzia"@.len() == 22);
    assert("effetti di paura"@.len() == 16);
    assert("effetti di sguardo"@.len() == 18);
    assert("effetti di sonno"@.len() == 16);
    assert("effetti e illusioni visive"@.len() == 26);
    assert("effetti polimorfi"@.len() == 17);
    assert("effetti sensoriali"@.len() == 18);
    assert("effetti visivi"@.len() == 14);
    assert("effetti visivi e illusioni"@.len() == 26);
    assert("elettricità"@.len() == 11);
    assert("emozioni"@.len() == 8);
    assert("energia negativa"@.len() == 16);
    assert("ferite permanenti"@.len() == 17);
    assert("forza"@.len() == 5);
    assert("freddo"@.len() == 6);
    assert("fulmine"@.len() == 7);
    assert("fuoco"@.len() == 5);
    assert("illusioni"@.len() == 9);
    assert("illusioni visive"@.len() == 16);
    assert("invecchiamento"@.len() == 14);
    assert("livelli negativi"@.len() == 16);
    assert("malattia"@.len() == 8);
    assert("malattie"@.len() == 8);
    assert("maledizioni"@.len() == 11);
    assert("metamorfosi"@.len() == 11);
    assert("nausea"@.len() == 6);
    assert("palla di fuoco"@.len() == 14);
    assert("paralisi"@.len() == 8);
    assert("paura"@.len() == 5);
    assert("pietrificazione"@.len() == 15);
    assert("possessione"@.len() == 11);
    assert("risucchi di caratteristiche"@.len() == 27);
    assert("risucchi di energia"@.len() == 19);
    assert("risucchio di caratteristica"@.len() == 27);
    assert("risucchio di caratteristiche"@.len() == 28);
    assert("risucchio di energia"@.len() == 20);
    assert("ruggine"@.len() == 7);
    assert("sanguinamento"@.len() == 13);
    assert("sonno"@.len() == 5);
    assert("sonoro"@.len() == 6);
    assert("sordità"@.len() == 7);
    assert("stordimento"@.len() == 11);
    assert("veleni"@.len() == 6);
    assert("veleno"@.len() == 6);
    assert("visivi ed illusori"@.len() == 18);
    assert("Tratti degli Sciami"@[0] != "effetti Barcollanti"@[0]);
    assert("Tratti degli Sciami"@ != "effetti Barcollanti"@);
    assert("Tratti degli Sciami"@[0] != "Immunità alla Magia"@[0]);
    assert("Tratti degli Sciami"@ != "Immunità alla Magia"@);
    assert("Tratti degli Sciami"@[0] != "danno di precisione"@[0]);
    assert("Tratti degli Sciami"@ != "danno di precisione"@);
    assert("Tratti degli Sciami"@[0] != "danni da precisione"@[0]);
    assert("Tratti degli Sciami"@ != "danni da precisione"@);
    assert("Tratti degli Sciami"@[0] != "danni di precisione"@[0]);
    assert("Tratti degli Sciami"@ != "danni di precisione"@);
    assert("Tratti degli Sciami"@[0] != "Attacchi ai Fianchi"@[0]);
    assert("Tratti degli Sciami"@ != "Attacchi ai Fianchi"@);
    assert("Tratti degli Sciami"@[0] != "Immunità all'Esilio"@[0]);
    assert("Tratti degli Sciami"@ != "Immunità all'Esilio"@);
    assert("Tratti degli Sciami"@[0] != "Ancora Dimensionale"@[0]);
    assert("Tratti degli Sciami"@ != "Ancora Dimensionale"@);
    assert("Tratti degli Sciami"@[0] != "Risucchi di Energia"@[0]);
    assert("Tratti degli Sciami"@ != "Risucchi di Energia"@);
    assert("Tratti degli Sciami"@[0] != "risucchi di energia"@[0]);
    assert("Tratti degli Sciami"@ != "risucchi di energia"@);
}

proof fn lemma_read_immunity_constructtraits(s: Seq<char>)
    requires
        immunity_named(Immunity_Type::Immunity_ConstructTraits, s),
    ensures
        spec_single_immunity(s) == Some(Immunity_Type::Immunity_ConstructTraits),
{
    reveal_strlit("Abbagliamenti");
    reveal_strlit("Abbagliamento");
    reveal_strlit("Abbagliato");
    reveal_strlit("Accecato");
    reveal_strlit("Acido");
    reveal_strlit("Affaticamento");
    reveal_strlit("Affaticato");
    reveal_strlit("Ammaliamento");
    reveal_strlit("Ancora Dimensionale");
    reveal_strlit("Armi Taglienti");
    reveal_strlit("Armi contundenti");
    reveal_strlit("Assorbimento del Fuoco");
    reveal_strlit("Attacchi Furtivi");
    reveal_strlit("Attacchi ai Fianchi");
    reveal_strlit("Attacchi basati sull'olfatto");
    reveal_strlit("Attacchi basati sulla vista");
    reveal_strlit("Attacchi basati sulla vista o sguardo");
    reveal_strlit("Attacchi con Sguardo");
    reveal_strlit("Attacchi con lo sguardo");
    reveal_strlit("Attacchi dipendenti dalla vista");
    reveal_strlit("Barcollante");
    reveal_strlit("Barcollare");
    reveal_strlit("Cecità");
    reveal_strlit("Charme");
    reveal_strlit("Colpi Critici");
    reveal_strlit("Colpi critici");
    reveal_strlit("Condizione Affaticato");
    reveal_strlit("Condizione Esausto");
    reveal_strlit("Confusione");
    reveal_strlit("Congedo");
    reveal_strlit("Danni Non Letali");
    reveal_strlit("Danni alle caratteristiche");
    reveal_strlit("Danni contundenti");
    reveal_strlit("Danni da arma");
    reveal_strlit("Danni da armi");
    reveal_strlit("Danni dalle Armi");
    reveal_strlit("Danni e risucchi alle caratteristiche");
    reveal_strlit("Danni e risucchi di caratteristiche");
    reveal_strlit("Danni e risucchio alle Caratteristiche");
    reveal_strlit("Danni e risucchio di caratteristiche");
    reveal_strlit("Danni perforanti e taglienti");
    reveal_strlit("Danno alle Caratteristiche");
    reveal_strlit("Danno da Pressione");
    reveal_strlit("Danno da arma");
    reveal_strlit("Danno e risucchio alle caratteristiche");
    reveal_strlit("Danno non letale");
    reveal_strlit("Demenza");
    reveal_strlit("Divinazione");
    reveal_strlit("Dolore");
    reveal_strlit("Effetti a completamento di incantesimo e ad attivazione di incantesimo");
    reveal_strlit("Effetti basati sulla vista");
    reveal_strlit("Effetti d'influenza mentale");
    reveal_strlit("Effetti di Charme e Compulsione");
    reveal_strlit("Effetti di Demenza");
    reveal_strlit("Effetti di Influenza Mentale");
    reveal_strlit("Effetti di Morte");
    reveal_strlit("Effetti di Paura");
    reveal_strlit("Effetti di Sonno");
    reveal_strlit("Effetti di charme");
    reveal_strlit("Effetti di charme e compulsioni");
    reveal_strlit("Effetti di confusione e follia");
    reveal_strlit("Effetti di dolore");
    reveal_strlit("Effetti di forza");
    reveal_strlit("Effetti di influenza mentale");
    reveal_strlit("Effetti di morte");
    reveal_strlit("Effetti di morte (vedi sotto)");
    reveal_strlit("Effetti di paura");
    reveal_strlit("Effetti di sonno");
    reveal_strlit("Effetti visivi");
    reveal_strlit("Elettricità");
    reveal_strlit("Elettricità (parziale)");
    reveal_strlit("Energia Negativa");
    reveal_strlit("Energia Positiva");
    reveal_strlit("Esaurimento");
    reveal_strlit("Esausto");
    reveal_strlit("Fatica");
    reveal_strlit("Fiancheggiamento");
    reveal_strlit("Forza");
    reveal_strlit("Frastornamento");
    reveal_strlit("Frastornato");
    reveal_strlit("Freddo");
    reveal_strlit("Freddo (sé stesso e chi lo cavalca)");
    reveal_strlit("Fuoco");
    reveal_strlit("Fuoco Infernale");
    reveal_strlit("Illusione");
    reveal_strlit("Illusioni e qualsiasi attacco basato sulla vista");
    reveal_strlit("Immunità agli Incantesimi");
    reveal_strlit("Immunità al Freddo");
    reveal_strlit("Immunità all'Esilio");
    reveal_strlit("Immunità alla Magia");
    reveal_strlit("Incantesimi di Ammaliamento e di Illusione");
    reveal_strlit("Individuazione dei Pensieri");
    reveal_strlit("Individuazione dell'Allineamento");
    reveal_strlit("Infermità");
    reveal_strlit("Infermo");
    reveal_strlit("Invecchiamento");
    reveal_strlit("Livelli Negativi");
    reveal_strlit("Magia");
    reveal_strlit("Malattia");
    reveal_strlit("Malattie");
    reveal_strlit("Maledizioni");
    reveal_strlit("Metamorfosi");
    reveal_strlit("Nausea");
    reveal_strlit("Nauseato");
    reveal_strlit("Non Deformante");
    reveal_strlit("Paralisi");
    reveal_strlit("Paura");
    reveal_strlit("Pietrificazione");
    reveal_strlit("Richiamo");
    reveal_strlit("Risucchi di Energia");
    reveal_strlit("Risucchio di Caratteristiche");
    reveal_strlit("Risucchio di Energia");
    reveal_strlit("Rivela Bugie");
    reveal_strlit("Sanguinamento");
    reveal_strlit("Sanguinamento (solo Punti Ferita)");
    reveal_strlit("Scosso");
    reveal_strlit("Sguardo");
    reveal_strlit("Sonno");
    reveal_strlit("Sonoro");
    reveal_strlit("Sordità");
    reveal_strlit("Spaventato");
    reveal_strlit("Stordimento");
    reveal_strlit("Tratti degli Sciami");
    reveal_strlit("Tratti dei Costrutti");
    reveal_strlit("Tratti dei Non Morti");
    reveal_strlit("Tratti delle Melme");
    reveal_strlit("Veleni");
    reveal_strlit("Veleno");
    reveal_strlit("Veleno Ingerito");
    reveal_strlit("acido");
    reveal_strlit("attacchi basati sulla vista ed effetti visivi");
    reveal_strlit("attacchi con Sguardo");
    reveal_strlit("attacchi con lo Sguardo");
    reveal_strlit("attacchi con lo sguardo");
    reveal_strlit("charme");
    reveal_strlit("charme sui mostri");
    reveal_strlit("compulsione");
    reveal_strlit("controllo mentale");
    reveal_strlit("contundente");
    reveal_strlit("da caduta e da schiacciamento");
    reveal_strlit("danni alle Caratteristiche");
    reveal_strlit("danni alle caratteristiche");
    reveal_strlit("danni contundenti");
    reveal_strlit("danni contundenti e perforanti");
    reveal_strlit("danni da arma");
    reveal_strlit("danni da armi");
    reveal_strlit("danni da precisione");
    reveal_strlit("danni delle armi");
    reveal_strlit("danni di precisione");
    reveal_strlit("danni e risucchi di Caratteristiche");
    reveal_strlit("danni perforanti");
    reveal_strlit("danni taglienti");
    reveal_strlit("danni taglienti e perforanti");
    reveal_strlit("danno da arma");
    reveal_strlit("danno di precisione");
    reveal_strlit("di influenza mentale e basati sullo Sguardo");
    reveal_strlit("divinazione");
    reveal_strlit("dolore");
    reveal_strlit("effetti Barcollanti");
    reveal_strlit("effetti basati sulla vista");
    reveal_strlit("effetti che bersagliano uno specifico numero di creature");
    reveal_strlit("effetti di Charme e Compulsione");
    reveal_strlit("effetti di Metamorfosi");
    reveal_strlit("effetti di Paura");
    reveal_strlit("effetti di Paura ed influenza mentale");
    reveal_strlit("effetti di Sguardo");
    reveal_strlit("effetti di Sonno");
    reveal_strlit("effetti di ammaliamento");
    reveal_strlit("effetti di charme");
    reveal_strlit("effetti di charme e compulsione");
    reveal_strlit("effetti di charme e compulsioni");
    reveal_strlit("effetti di compulsione");
    reveal_strlit("effetti di confusione e demenza");
    reveal_strlit("effetti di demenza");
    reveal_strlit("effetti di influenza mentale");
    reveal_strlit("effetti di influenza mentale e visivi");
    reveal_strlit("effetti di luce");
    reveal_strlit("effetti di maledizione");
    reveal_strlit("effetti di maledizioni");
    reveal_strlit("effetti di metamorfosi");
    reveal_strlit("effetti di morte");
    reveal_strlit("effetti di necromanzia");
    reveal_strlit("effetti di paura");
    reveal_strlit("effetti di sguardo");
    reveal_strlit("effetti di sonno");
    reveal_strlit("effetti e illusioni visive");
    reveal_strlit("effetti polimorfi");
    reveal_strlit("effetti sensoriali");
    reveal_strlit("effetti visivi");
    reveal_strlit("effetti visivi e illusioni");
    reveal_strlit("elettricità");
    reveal_strlit("emozioni");
    reveal_strlit("energia negativa");
    reveal_strlit("ferite permanenti");
    reveal_strlit("forza");
    reveal_strlit("freddo");
    reveal_strlit("fulmine");
    reveal_strlit("fuoco");
    reveal_strlit("illusioni");
    reveal_strlit("illusioni visive");
    reveal_strlit("invecchiamento");
    reveal_strlit("livelli negativi");
    reveal_strlit("malattia");
    reveal_strlit("malattie");
    reveal_strlit("maledizioni");
    reveal_strlit("metamorfosi");
    reveal_strlit("nausea");
    reveal_strlit("palla di fuoco");
    reveal_strlit("paralisi");
    reveal_strlit("paura");
    reveal_strlit("pietrificazione");
    reveal_strlit("possessione");
    reveal_strlit("risucchi di caratteristiche");
    reveal_strlit("risucchi di energia");
    reveal_strlit("risucchio di caratteristica");
    reveal_strlit("risucchio di caratteristiche");
    reveal_strlit("risucchio di energia");
    reveal_strlit("ruggine");
    reveal_strlit("sanguinamento");
    reveal_strlit("sonno");
    reveal_strlit("sonoro");
    reveal_strlit("sordità");
    reveal_strlit("stordimento");
    reveal_strlit("veleni");
    reveal_strlit("veleno");
    reveal_strlit("visivi ed illusori");
    assert("Abbagliamenti"@.len() == 13);
    assert("Abbagliamento"@.len() == 13);
    assert("Abbagliato"@.len() == 10);
    assert("Accecato"@.len() == 8);
    assert("Acido"@.len() == 5);
    assert("Affaticamento"@.len() == 13);
    assert("Affaticato"@.len() == 10);
    assert("Ammaliamento"@.len() == 12);
    assert("Ancora Dimensionale"@.len() == 19);
    assert("Armi Taglienti"@.len() == 14);
    assert("Armi contundenti"@.len() == 16);
    assert("Assorbimento del Fuoco"@.len() == 22);
    assert("Attacchi Furtivi"@.len() == 16);
    assert("Attacchi ai Fianchi"@.len() == 19);
    assert("Attacchi basati sull'olfatto"@.len() == 28);
    assert("Attacchi basati sulla vista"@.len() == 27);
    assert("Attacchi basati sulla vista o sguardo"@.len() == 37);
    assert("Attacchi con Sguardo"@.len() == 20);
    assert("Attacchi con lo sguardo"@.len() == 23);
    assert("Attacchi dipendenti dalla vista"@.len() == 31);
    assert("Barcollante"@.len() == 11);
    assert("Barcollare"@.len() == 10);
    assert("Cecità"@.len() == 6);
    assert("Charme"@.len() == 6);
    assert("Colpi Critici"@.len() == 13);
    assert("Colpi critici"@.len() == 13);
    assert("Condizione Affaticato"@.len() == 21);
    assert("Condizione Esausto"@.len() == 18);
    assert("Confusione"@.len() == 10);
    assert("Congedo"@.len() == 7);
    assert("Danni Non Letali"@.len() == 16);
    assert("Danni alle caratteristiche"@.len() == 26);
    assert("Danni contundenti"@.len() == 17);
    assert("Danni da arma"@.len() == 13);
    assert("Danni da armi"@.len() == 13);
    assert("Danni dalle Armi"@.len() == 16);
    assert("Danni e risucchi alle caratteristiche"@.len() == 37);
    assert("Danni e risucchi di caratteristiche"@.len() == 35);
    assert("Danni e risucchio alle Caratteristiche"@.len() == 38);
    assert("Danni e risucchio di caratteristiche"@.len() == 36);
    assert("Danni perforanti e taglienti"@.len() == 28);
    assert("Danno alle Caratteristiche"@.len() == 26);
    assert("Danno da Pressione"@.len() == 18);
    assert("Danno da arma"@.len() == 13);
    assert("Danno e risucchio alle caratteristiche"@.len() == 38);
    assert("Danno non letale"@.len() == 16);
    assert("Demenza"@.len() == 7);
    assert("Divinazione"@.len() == 11);
    assert("Dolore"@.len() == 6);
    assert("Effetti a completamento di incantesimo e ad attivazione di incantesimo"@.len() == 70);
    assert("Effetti basati sulla vista"@.len() == 26);
    assert("Effetti d'influenza mentale"@.len() == 27);
    assert("Effetti di Charme e Compulsione"@.len() == 31);
    assert("Effetti di Demenza"@.len() == 18);
    assert("Effetti di Influenza Mentale"@.len() == 28);
    assert("Effetti di Morte"@.len() == 16);
    assert("Effetti di Paura"@.len() == 16);
    assert("Effetti di Sonno"@.len() == 16);
    assert("Effetti di charme"@.len() == 17);
    assert("Effetti di charme e compulsioni"@.len() == 31);
    assert("Effetti di confusione e follia"@.len() == 30);
    assert("Effetti di dolore"@.len() == 17);
    assert("Effetti di forza"@.len() == 16);
    assert("Effetti di influenza mentale"@.len() == 28);
    assert("Effetti di morte"@.len() == 16);
    assert("Effetti di morte (vedi sotto)"@.len() == 29);
    assert("Effetti di paura"@.len() == 16);
    assert("Effetti di sonno"@.len() == 16);
    assert("Effetti visivi"@.len() == 14);
    assert("Elettricità"@.len() == 11);
    assert("Elettricità (parziale)"@.len() == 22);
    assert("Energia Negativa"@.len() == 16);
    assert("Energia Positiva"@.len() == 16);
    assert("Esaurimento"@.len() == 11);
    assert("Esausto"@.len() == 7);
    assert("Fatica"@.len() == 6);
    assert("Fiancheggiamento"@.len() == 16);
    assert("Forza"@.len() == 5);
    assert("Frastornamento"@.len() == 14);
    assert("Frastornato"@.len() == 11);
    assert("Freddo"@.len() == 6);
    assert("Freddo (sé stesso e chi lo cavalca)"@.len() == 35);
    assert("Fuoco"@.len() == 5);
    assert("Fuoco Infernale"@.len() == 15);
    assert("Illusione"@.len() == 9);
    assert("Illusioni e qualsiasi attacco basato sulla vista"@.len() == 48);
    assert("Immunità agli Incantesimi"@.len() == 25);
    assert("Immunità al Freddo"@.len() == 18);
    assert("Immunità all'Esilio"@.len() == 19);
    assert("Immunità alla Magia"@.len() == 19);
    assert("Incantesimi di Ammaliamento e di Illusione"@.len() == 42);
    assert("Individuazione dei Pensieri"@.len() == 27);
    assert("Individuazione dell'Allineamento"@.len() == 32);
    assert("Infermità"@.len() == 9);
    assert("Infermo"@.len() == 7);
    assert("Invecchiamento"@.len() == 14);
    assert("Livelli Negativi"@.len() == 16);
    assert("Magia"@.len() == 5);
    assert("Malattia"@.len() == 8);
    assert("Malattie"@.len() == 8);
    assert("Maledizioni"@.len() == 11);
    assert("Metamorfosi"@.len() == 11);
    assert("Nausea"@.len() == 6);
    assert("Nauseato"@.len() == 8);
    assert("Non Deformante"@.len() == 14);
    assert("Paralisi"@.len() == 8);
    assert("Paura"@.len() == 5);
    assert("Pietrificazione"@.len() == 15);
    assert("Richiamo"@.len() == 8);
    assert("Risucchi di Energia"@.len() == 19);
    assert("Risucchio di Caratteristiche"@.len() == 28);
    assert("Risucchio di Energia"@.len() == 20);
    assert("Rivela Bugie"@.len() == 12);
    assert("Sanguinamento"@.len() == 13);
    assert("Sanguinamento (solo Punti Ferita)"@.len() == 33);
    assert("Scosso"@.len() == 6);
    assert("Sguardo"@.len() == 7);
    assert("Sonno"@.len() == 5);
    assert("Sonoro"@.len() == 6);
    assert("Sordità"@.len() == 7);
    assert("Spaventato"@.len() == 10);
    assert("Stordimento"@.len() == 11);
    assert("Tratti degli Sciami"@.len() == 19);
    assert("Tratti dei Costrutti"@.len() == 20);
    assert("Tratti dei Non Morti"@.len() == 20);
    assert("Tratti delle Melme"@.len() == 18);
    assert("Veleni"@.len() == 6);
    assert("Veleno"@.len() == 6);
    assert("Veleno Ingerito"@.len() == 15);
    assert("acido"@.len() == 5);
    assert("attacchi basati sulla vista ed effetti visivi"@.len() == 45);
    assert("attacchi con Sguardo"@.len() == 20);
    assert("attacchi con lo Sguardo"@.len() == 23);
    assert("attacchi con lo sguardo"@.len() == 23);
    assert("charme"@.len() == 6);
    assert("charme sui mostri"@.len() == 17);
    assert("compulsione"@.len() == 11);
    assert("controllo mentale"@.len() == 17);
    assert("contundente"@.len() == 11);
    assert("da caduta e da schiacciamento"@.len() == 29);
    assert("danni alle Caratteristiche"@.len() == 26);
    assert("danni alle caratteristiche"@.len() == 26);
    assert("danni contundenti"@.len() == 17);
    assert("danni contundenti e perforanti"@.len() == 30);
    assert("danni da arma"@.len() == 13);
    assert("danni da armi"@.len() == 13);
    assert("danni da precisione"@.len() == 19);
    assert("danni delle armi"@.len() == 16);
    assert("danni di precisione"@.len() == 19);
    assert("danni e risucchi di Caratteristiche"@.len() == 35);
    assert("danni perforanti"@.len() == 16);
    assert("danni taglienti"@.len() == 15);
    assert("danni taglienti e perforanti"@.len() == 28);
    assert("danno da arma"@.len() == 13);
    assert("danno di precisione"@.len() == 19);
    assert("di influenza mentale e basati sullo Sguardo"@.len() == 43);
    assert("divinazione"@.len() == 11);
    assert("dolore"@.len() == 6);
    assert("effetti Barcollanti"@.len() == 19);
    assert("effetti basati sulla vista"@.len() == 26);
    assert("effetti che bersagliano uno specifico numero di creature"@.len() == 56);
    assert("effetti di Charme e Compulsione"@.len() == 31);
    assert("effetti di Metamorfosi"@.len() == 22);
    assert("effetti di Paura"@.len() == 16);
    assert("effetti di Paura ed influenza mentale"@.len() == 37);
    assert("effetti di Sguardo"@.len() == 18);
    assert("effetti di Sonno"@.len() == 16);
    assert("effetti di ammaliamento"@.len() == 23);
    assert("effetti di charme"@.len() == 17);
    assert("effetti di charme e compulsione"@.len() == 31);
    assert("effetti di charme e compulsioni"@.len() == 31);
    assert("effetti di compulsione"@.len() == 22);
    assert("effetti di confusione e demenza"@.len() == 31);
    assert("effetti di demenza"@.len() == 18);
    assert("effetti di influenza mentale"@.len() == 28);
    assert("effetti di influenza mentale e visivi"@.len() == 37);
    assert("effetti di luce"@.len() == 15);
    assert("effetti di maledizione"@.len() == 22);
    assert("effetti di maledizioni"@.len() == 22);
    assert("effetti di metamorfosi"@.len() == 22);
    assert("effetti di morte"@.len() == 16);
    assert("effetti di necromanzia"@.len() == 22);
    assert("effetti di paura"@.len() == 16);
    assert("effetti di sguardo"@.len() == 18);
    assert("effetti di sonno"@.len() == 16);
    assert("effetti e illusioni visive"@.len() == 26);
    assert("effetti polimorfi"@.len() == 17);
    assert("effetti sensoriali"@.len() == 18);
    assert("effetti visivi"@.len() == 14);
    assert("effetti visivi e illusioni"@.len() == 26);
    assert("elettricità"@.len() == 11);
    assert("emozioni"@.len() == 8);
    assert("energia negativa"@.len() == 16);
    assert("ferite permanenti"@.len() == 17);
    assert("forza"@.len() == 5);
    assert("freddo"@.len() == 6);
    assert("fulmine"@.len() == 7);
    assert("fuoco"@.len() == 5);
    assert("illusioni"@.len() == 9);
    assert("illusioni visive"@.len() == 16);
    assert("invecchiamento"@.len() == 14);
    assert("livelli negativi"@.len() == 16);
    assert("malattia"@.len() == 8);
    assert("malattie"@.len() == 8);
    assert("maledizioni"@.len() == 11);
    assert("metamorfosi"@.len() == 11);
    assert("nausea"@.len() == 6);
    assert("palla di fuoco"@.len() == 14);
    assert("paralisi"@.len() == 8);
    assert("paura"@.len() == 5);
    assert("pietrificazione"@.len() == 15);
    assert("possessione"@.len() == 11);
    assert("risucchi di caratteristiche"@.len() == 27);
    assert("risucchi di energia"@.len() == 19);
    assert("risucchio di caratteristica"@.len() == 27);
    assert("risucchio di caratteristiche"@.len() == 28);
    assert("risucchio di energia"@.len() == 20);
    assert("ruggine"@.len() == 7);
    assert("sanguinamento"@.len() == 13);
    assert("sonno"@.len() == 5);
    assert("sonoro"@.len() == 6);
    assert("sordità"@.len() == 7);
    assert("stordimento"@.len() == 11);
    assert("veleni"@.len() == 6);
    assert("veleno"@.len() == 6);
    assert("visivi ed illusori"@.len() == 18);
    assert("Tratti dei Costrutti"@[0] != "Attacchi con Sguardo"@[0]);
    assert("Tratti dei Costrutti"@ != "Attacchi con Sguardo"@);
    assert("Tratti dei Costrutti"@[0] != "attacchi con Sguardo"@[0]);
    assert("Tratti dei Costrutti"@ != "attacchi con Sguardo"@);
    assert("Tratti dei Costrutti"@[0] != "Risucchio di Energia"@[0]);
    assert("Tratti dei Costrutti"@ != "Risucchio di Energia"@);
    assert("Tratti dei Costrutti"@[0] != "risucchio di energia"@[0]);
    assert("Tratti dei Costrutti"@ != "risucchio di energia"@);
    assert("Tratti dei Costrutti"@[11] != "Tratti dei Non Morti"@[11]);
    assert("Tratti dei Costrutti"@ != "Tratti dei Non Morti"@);
}

proof fn lemma_read_immunity_planttraits(s: Seq<char>)
    requires
        immunity_named(Immunity_Type::Immunity_PlantTraits, s),
    ensures
        spec_single_immunity(s) == Some(Immunity_Type::Immunity_PlantTraits),
{
    reveal_strlit("Abbagliamenti");
    reveal_strlit("Abbagliamento");
    reveal_strlit("Abbagliato");
    reveal_strlit("Accecato");
    reveal_strlit("Acido");
    reveal_strlit("Affaticamento");
    reveal_strlit("Affaticato");
    reveal_strlit("Ammaliamento");
    reveal_strlit("Ancora Dimensionale");
    reveal_strlit("Armi Taglienti");
    reveal_strlit("Armi contundenti");
    reveal_strlit("Assorbimento del Fuoco");
    reveal_strlit("Attacchi Furtivi");
    reveal_strlit("Attacchi ai Fianchi");
    reveal_strlit("Attacchi basati sull'olfatto");
    reveal_strlit("Attacchi basati sulla vista");
    reveal_strlit("Attacchi basati sulla vista o sguardo");
    reveal_strlit("Attacchi con Sguardo");
    reveal_strlit("Attacchi con lo sguardo");
    reveal_strlit("Attacchi dipendenti dalla vista");
    reveal_strlit("Barcollante");
    reveal_strlit("Barcollare");
    reveal_strlit("Cecità");
    reveal_strlit("Charme");
    reveal_strlit("Colpi Critici");
    reveal_strlit("Colpi critici");
    reveal_strlit("Condizione Affaticato");
    reveal_strlit("Condizione Esausto");
    reveal_strlit("Confusione");
    reveal_strlit("Congedo");
    reveal_strlit("Danni Non Letali");
    reveal_strlit("Danni alle caratteristiche");
    reveal_strlit("Danni contundenti");
    reveal_strlit("Danni da arma");
    reveal_strlit("Danni da armi");
    reveal_strlit("Danni dalle Armi");
    reveal_strlit("Danni e risucchi alle caratteristiche");
    reveal_strlit("Danni e risucchi di caratteristiche");
    reveal_strlit("Danni e risucchio alle Caratteristiche");
    reveal_strlit("Danni e risucchio di caratteristiche");
    reveal_strlit("Danni perforanti e taglienti");
    reveal_strlit("Danno alle Caratteristiche");
    reveal_strlit("Danno da Pressione");
    reveal_strlit("Danno da arma");
    reveal_strlit("Danno e risucchio alle caratteristiche");
    reveal_strlit("Danno non letale");
    reveal_strlit("Demenza");
    reveal_strlit("Divinazione");
    reveal_strlit("Dolore");
    reveal_strlit("Effetti a completamento di incantesimo e ad attivazione di incantesimo");
    reveal_strlit("Effetti basati sulla vista");
    reveal_strlit("Effetti d'influenza mentale");
    reveal_strlit("Effetti di Charme e Compulsione");
    reveal_strlit("Effetti di Demenza");
    reveal_strlit("Effetti di Influenza Mentale");
    reveal_strlit("Effetti di Morte");
    reveal_strlit("Effetti di Paura");
    reveal_strlit("Effetti di Sonno");
    reveal_strlit("Effetti di charme");
    reveal_strlit("Effetti di charme e compulsioni");
    reveal_strlit("Effetti di confusione e follia");
    reveal_strlit("Effetti di dolore");
    reveal_strlit("Effetti di forza");
    reveal_strlit("Effetti di influenza mentale");
    reveal_strlit("Effetti di morte");
    reveal_strlit("Effetti di morte (vedi sotto)");
    reveal_strlit("Effetti di paura");
    reveal_strlit("Effetti di sonno");
    reveal_strlit("Effetti visivi");
    reveal_strlit("Elettricità");
    reveal_strlit("Elettricità (parziale)");
    reveal_strlit("Energia Negativa");
    reveal_strlit("Energia Positiva");
    reveal_strlit("Esaurimento");
    reveal_strlit("Esausto");
    reveal_strlit("Fatica");
    reveal_strlit("Fiancheggiamento");
    reveal_strlit("Forza");
    reveal_strlit("Frastornamento");
    reveal_strlit("Frastornato");
    reveal_strlit("Freddo");
    reveal_strlit("Freddo (sé stesso e chi lo cavalca)");
    reveal_strlit("Fuoco");
    reveal_strlit("Fuoco Infernale");
    reveal_strlit("Illusione");
    reveal_strlit("Illusioni e qualsiasi attacco basato sulla vista");
    reveal_strlit("Immunità agli Incantesimi");
    reveal_strlit("Immunità al Freddo");
    reveal_strlit("Immunità all'Esilio");
    reveal_strlit("Immunità alla Magia");
    reveal_strlit("Incantesimi di Ammaliamento e di Illusione");
    reveal_strlit("Individuazione dei Pensieri");
    reveal_strlit("Individuazione dell'Allineamento");
    reveal_strlit("Infermità");
    reveal_strlit("Infermo");
    reveal_strlit("Invecchiamento");
    reveal_strlit("Livelli Negativi");
    reveal_strlit("Magia");
    reveal_strlit("Malattia");
    reveal_strlit("Malattie");
    reveal_strlit("Maledizioni");
    reveal_strlit("Metamorfosi");
    reveal_strlit("Nausea");
    reveal_strlit("Nauseato");
    reveal_strlit("Non Deformante");
    reveal_strlit("Paralisi");
    reveal_strlit("Paura");
    reveal_strlit("Pietrificazione");
    reveal_strlit("Richiamo");
    reveal_strlit("Risucchi di Energia");
    reveal_strlit("Risucchio di Caratteristiche");
    reveal_strlit("Risucchio di Energia");
    reveal_strlit("Rivela Bugie");
    reveal_strlit("Sanguinamento");
    reveal_strlit("Sanguinamento (solo Punti Ferita)");
    reveal_strlit("Scosso");
    reveal_strlit("Sguardo");
    reveal_strlit("Sonno");
    reveal_strlit("Sonoro");
    reveal_strlit("Sordità");
    reveal_strlit("Spaventato");
    reveal_strlit("Stordimento");
    reveal_strlit("Tratti degli Sciami");
    reveal_strlit("Tratti dei Costrutti");
    reveal_strlit("Tratti dei Non Morti");
    reveal_strlit("Tratti dei Vegetali");
    reveal_strlit("Tratti delle Melme");
    reveal_strlit("Veleni");
    reveal_strlit("Veleno");
    reveal_strlit("Veleno Ingerito");
    reveal_strlit("acido");
    reveal_strlit("attacchi basati sulla vista ed effetti visivi");
    reveal_strlit("attacchi con Sguardo");
    reveal_strlit("attacchi con lo Sguardo");
    reveal_strlit("attacchi con lo sguardo");
    reveal_strlit("charme");
    reveal_strlit("charme sui mostri");
    reveal_strlit("compulsione");
    reveal_strlit("controllo mentale");
    reveal_strlit("contundente");
    reveal_strlit("da caduta e da schiacciamento");
    reveal_strlit("danni alle Caratteristiche");
    reveal_strlit("danni alle caratteristiche");
    reveal_strlit("danni contundenti");
    reveal_strlit("danni contundenti e perforanti");
    reveal_strlit("danni da arma");
    reveal_strlit("danni da armi");
    reveal_strlit("danni da precisione");
    reveal_strlit("danni delle armi");
    reveal_strlit("danni di precisione");
    reveal_strlit("danni e risucchi di Caratteristiche");
    reveal_strlit("danni perforanti");
    reveal_strlit("danni taglienti");
    reveal_strlit("danni taglienti e perforanti");
    reveal_strlit("danno da arma");
    reveal_strlit("danno di precisione");
    reveal_strlit("di influenza mentale e basati sullo Sguardo");
    reveal_strlit("divinazione");
    reveal_strlit("dolore");
    reveal_strlit("effetti Barcollanti");
    reveal_strlit("effetti basati sulla vista");
    reveal_strlit("effetti che bersagliano uno specifico numero di creature");
    reveal_strlit("effetti di Charme e Compulsione");
    reveal_strlit("effetti di Metamorfosi");
    reveal_strlit("effetti di Paura");
    reveal_strlit("effetti di Paura ed influenza mentale");
    reveal_strlit("effetti di Sguardo");
    reveal_strlit("effetti di Sonno");
    reveal_strlit("effetti di ammaliamento");
    reveal_strlit("effetti di charme");
    reveal_strlit("effetti di charme e compulsione");
    reveal_strlit("effetti di charme e compulsioni");
    reveal_strlit("effetti di compulsione");
    reveal_strlit("effetti di confusione e demenza");
    reveal_strlit("effetti di demenza");
    reveal_strlit("effetti di influenza mentale");
    reveal_strlit("effetti di influenza mentale e visivi");
    reveal_strlit("effetti di luce");
    reveal_strlit("effetti di maledizione");
    reveal_strlit("effetti di maledizioni");
    reveal_strlit("effetti di metamorfosi");
    reveal_strlit("effetti di morte");
    reveal_strlit("effetti di necromanzia");
    reveal_strlit("effetti di paura");
    reveal_strlit("effetti di sguardo");
    reveal_strlit("effetti di sonno");
    reveal_strlit("effetti e illusioni visive");
    reveal_strlit("effetti polimorfi");
    reveal_strlit("effetti sensoriali");
    reveal_strlit("effetti visivi");
    reveal_strlit("effetti visivi e illusioni");
    reveal_strlit("elettricità");
    reveal_strlit("emozioni");
    reveal_strlit("energia negativa");
    reveal_strlit("ferite permanenti");
    reveal_strlit("forza");
    reveal_strlit("freddo");
    reveal_strlit("fulmine");
    reveal_strlit("fuoco");
    reveal_strlit("illusioni");
    reveal_strlit("illusioni visive");
    reveal_strlit("invecchiamento");
    reveal_strlit("livelli negativi");
    reveal_strlit("malattia");
    reveal_strlit("malattie");
    reveal_strlit("maledizioni");
    reveal_strlit("metamorfosi");
    reveal_strlit("nausea");
    reveal_strlit("palla di fuoco");
    reveal_strlit("paralisi");
    reveal_strlit("paura");
    reveal_strlit("pietrificazione");
    reveal_strlit("possessione");
    reveal_strlit("risucchi di caratteristiche");
    reveal_strlit("risucchi di energia");
    reveal_strlit("risucchio di caratteristica");
    reveal_strlit("risucchio di caratteristiche");
    reveal_strlit("risucchio di energia");
    reveal_strlit("ruggine");
    reveal_strlit("sanguinamento");
    reveal_strlit("sonno");
    reveal_strlit("sonoro");
    reveal_strlit("sordità");
    reveal_strlit("stordimento");
    reveal_strlit("veleni");
    reveal_strlit("veleno");
    reveal_strlit("visivi ed illusori");
    assert("Abbagliamenti"@.len() == 13);
    assert("Abbagliamento"@.len() == 13);
    assert("Abbagliato"@.len() == 10);
    assert("Accecato"@.len() == 8);
    assert("Acido"@.len() == 5);
    assert("Affaticamento"@.len() == 13);
    assert("Affaticato"@.len() == 10);
    assert("Ammaliamento"@.len() == 12);
    assert("Ancora Dimensionale"@.len() == 19);
    assert("Armi Taglienti"@.len() == 14);
    assert("Armi contundenti"@.len() == 16);
    assert("Assorbimento del Fuoco"@.len() == 22);
    assert("Attacchi Furtivi"@.len() == 16);
    assert("Attacchi ai Fianchi"@.len() == 19);
    assert("Attacchi basati sull'olfatto"@.len() == 28);
    assert("Attacchi basati sulla vista"@.len() == 27);
    assert("Attacchi basati sulla vista o sguardo"@.len() == 37);
    assert("Attacchi con Sguardo"@.len() == 20);
    assert("Attacchi con lo sguardo"@.len() == 23);
    assert("Attacchi dipendenti dalla vista"@.len() == 31);
    assert("Barcollante"@.len() == 11);
    assert("Barcollare"@.len() == 10);
    assert("Cecità"@.len() == 6);
    assert("Charme"@.len() == 6);
    assert("Colpi Critici"@.len() == 13);
    assert("Colpi critici"@.len() == 13);
    assert("Condizione Affaticato"@.len() == 21);
    assert("Condizione Esausto"@.len() == 18);
    assert("Confusione"@.len() == 10);
    assert("Congedo"@.len() == 7);
    assert("Danni Non Letali"@.len() == 16);
    assert("Danni alle caratteristiche"@.len() == 26);
    assert("Danni contundenti"@.len() == 17);
    assert("Danni da arma"@.len() == 13);
    assert("Danni da armi"@.len() == 13);
    assert("Danni dalle Armi"@.len() == 16);
    assert("Danni e risucchi alle caratteristiche"@.len() == 37);
    assert("Danni e risucchi di caratteristiche"@.len() == 35);
    assert("Danni e risucchio alle Caratteristiche"@.len() == 38);
    assert("Danni e risucchio di caratteristiche"@.len() == 36);
    assert("Danni perforanti e taglienti"@.len() == 28);
    assert("Danno alle Caratteristiche"@.len() == 26);
    assert("Danno da Pressione"@.len() == 18);
    assert("Danno da arma"@.len() == 13);
    assert("Danno e risucchio alle caratteristiche"@.len() == 38);
    assert("Danno non letale"@.len() == 16);
    assert("Demenza"@.len() == 7);
    assert("Divinazione"@.len() == 11);
    assert("Dolore"@.len() == 6);
    assert("Effetti a completamento di incantesimo e ad attivazione di incantesimo"@.len() == 70);
    assert("Effetti basati sulla vista"@.len() == 26);
    assert("Effetti d'influenza mentale"@.len() == 27);
    assert("Effetti di Charme e Compulsione"@.len() == 31);
    assert("Effetti di Demenza"@.len() == 18);
    assert("Effetti di Influenza Mentale"@.len() == 28);
    assert("Effetti di Morte"@.len() == 16);
    assert("Effetti di Paura"@.len() == 16);
    assert("Effetti di Sonno"@.len() == 16);
    assert("Effetti di charme"@.len() == 17);
    assert("Effetti di charme e compulsioni"@.len() == 31);
    assert("Effetti di confusione e follia"@.len() == 30);
    assert("Effetti di dolore"@.len() == 17);
    assert("Effetti di forza"@.len() == 16);
    assert("Effetti di influenza mentale"@.len() == 28);
    assert("Effetti di morte"@.len() == 16);
    assert("Effetti di morte (vedi sotto)"@.len() == 29);
    assert("Effetti di paura"@.len() == 16);
    assert("Effetti di sonno"@.len() == 16);
    assert("Effetti visivi"@.len() == 14);
    assert("Elettricità"@.len() == 11);
    assert("Elettricità (parziale)"@.len() == 22);
    assert("Energia Negativa"@.len() == 16);
    assert("Energia Positiva"@.len() == 16);
    assert("Esaurimento"@.len() == 11);
    assert("Esausto"@.len() == 7);
    assert("Fatica"@.len() == 6);
    assert("Fiancheggiamento"@.len() == 16);
    assert("Forza"@.len() == 5);
    assert("Frastornamento"@.len() == 14);
    assert("Frastornato"@.len() == 11);
    assert("Freddo"@.len() == 6);
    assert("Freddo (sé stesso e chi lo cavalca)"@.len() == 35);
    assert("Fuoco"@.len() == 5);
    assert("Fuoco Infernale"@.len() == 15);
    assert("Illusione"@.len() == 9);
    assert("Illusioni e qualsiasi attacco basato sulla vista"@.len() == 48);
    assert("Immunità agli Incantesimi"@.len() == 25);
    assert("Immunità al Freddo"@.len() == 18);
    assert("Immunità all'Esilio"@.len() == 19);
    assert("Immunità alla Magia"@.len() == 19);
    assert("Incantesimi di Ammaliamento e di Illusione"@.len() == 42);
    assert("Individuazione dei Pensieri"@.len() == 27);
    assert("Individuazione dell'Allineamento"@.len() == 32);
    assert("Infermità"@.len() == 9);
    assert("Infermo"@.len() == 7);
    assert("Invecchiamento"@.len() == 14);
    assert("Livelli Negativi"@.len() == 16);
    assert("Magia"@.len() == 5);
    assert("Malattia"@.len() == 8);
    assert("Malattie"@.len() == 8);
    assert("Maledizioni"@.len() == 11);
    assert("Metamorfosi"@.len() == 11);
    assert("Nausea"@.len() == 6);
    assert("Nauseato"@.len() == 8);
    assert("Non Deformante"@.len() == 14);
    assert("Paralisi"@.len() == 8);
    assert("Paura"@.len() == 5);
    assert("Pietrificazione"@.len() == 15);
    assert("Richiamo"@.len() == 8);
    assert("Risucchi di Energia"@.len() == 19);
    assert("Risucchio di Caratteristiche"@.len() == 28);
    assert("Risucchio di Energia"@.len() == 20);
    assert("Rivela Bugie"@.len() == 12);
    assert("Sanguinamento"@.len() == 13);
    assert("Sanguinamento (solo Punti Ferita)"@.len() == 33);
    assert("Scosso"@.len() == 6);
    assert("Sguardo"@.len() == 7);
    assert("Sonno"@.len() == 5);
    assert("Sonoro"@.len() == 6);
    assert("Sordità"@.len() == 7);
    assert("Spaventato"@.len() == 10);
    assert("Stordimento"@.len() == 11);
    assert("Tratti degli Sciami"@.len() == 19);
    assert("Tratti dei Costrutti"@.len() == 20);
    assert("Tratti dei Non Morti"@.len() == 20);
    assert("Tratti dei Vegetali"@.len() == 19);
    assert("Tratti delle Melme"@.len() == 18);
    assert("Veleni"@.len() == 6);
    assert("Veleno"@.len() == 6);
    assert("Veleno Ingerito"@.len() == 15);
    assert("acido"@.len() == 5);
    assert("attacchi basati sulla vista ed effetti visivi"@.len() == 45);
    assert("attacchi con Sguardo"@.len() == 20);
    assert("attacchi con lo Sguardo"@.len() == 23);
    assert("attacchi con lo sguardo"@.len() == 23);
    assert("charme"@.len() == 6);
    assert("charme sui mostri"@.len() == 17);
    assert("compulsione"@.len() == 11);
    assert("controllo mentale"@.len() == 17);
    assert("contundente"@.len() == 11);
    assert("da caduta e da schiacciamento"@.len() == 29);
    assert("danni alle Caratteristiche"@.len() == 26);
    assert("danni alle caratteristiche"@.len() == 26);
    assert("danni contundenti"@.len() == 17);
    assert("danni contundenti e perforanti"@.len() == 30);
    assert("danni da arma"@.len() == 13);
    assert("danni da armi"@.len() == 13);
    assert("danni da precisione"@.len() == 19);
    assert("danni delle armi"@.len() == 16);
    assert("danni di precisione"@.len() == 19);
    assert("danni e risucchi di Caratteristiche"@.len() == 35);
    assert("danni perforanti"@.len() == 16);
    assert("danni taglienti"@.len() == 15);
    assert("danni taglienti e perforanti"@.len() == 28);
    assert("danno da arma"@.len() == 13);
    assert("danno di precisione"@.len() == 19);
    assert("di influenza mentale e basati sullo Sguardo"@.len() == 43);
    assert("divinazione"@.len() == 11);
    assert("dolore"@.len() == 6);
    assert("effetti Barcollanti"@.len() == 19);
    assert("effetti basati sulla vista"@.len() == 26);
    assert("effetti che bersagliano uno specifico numero di creature"@.len() == 56);
    assert("effetti di Charme e Compulsione"@.len() == 31);
    assert("effetti di Metamorfosi"@.len() == 22);
    assert("effetti di Paura"@.len() == 16);
    assert("effetti di Paura ed influenza mentale"@.len() == 37);
    assert("effetti di Sguardo"@.len() == 18);
    assert("effetti di Sonno"@.len() == 16);
    assert("effetti di ammaliamento"@.len() == 23);
    assert("effetti di charme"@.len() == 17);
    assert("effetti di charme e compulsione"@.len() == 31);
    assert("effetti di charme e compulsioni"@.len() == 31);
    assert("effetti di compulsione"@.len() == 22);
    assert("effetti di confusione e demenza"@.len() == 31);
    assert("effetti di demenza"@.len() == 18);
    assert("effetti di influenza mentale"@.len() == 28);
    assert("effetti di influenza mentale e visivi"@.len() == 37);
    assert("effetti di luce"@.len() == 15);
    assert("effetti di maledizione"@.len() == 22);
    assert("effetti di maledizioni"@.len() == 22);
    assert("effetti di metamorfosi"@.len() == 22);
    assert("effetti di morte"@.len() == 16);
    assert("effetti di necromanzia"@.len() == 22);
    assert("effetti di paura"@.len() == 16);
    assert("effetti di sguardo"@.len() == 18);
    assert("effetti di sonno"@.len() == 16);
    assert("effetti e illusioni visive"@.len() == 26);
    assert("effetti polimorfi"@.len() == 17);
    assert("effetti sensoriali"@.len() == 18);
    assert("effetti visivi"@.len() == 14);
    assert("effetti visivi e illusioni"@.len() == 26);
    assert("elettricità"@.len() == 11);
    assert("emozioni"@.len() == 8);
    assert("energia negativa"@.len() == 16);
    assert("ferite permanenti"@.len() == 17);
    assert("forza"@.len() == 5);
    assert("freddo"@.len() == 6);
    assert("fulmine"@.len() == 7);
    assert("fuoco"@.len() == 5);
    assert("illusioni"@.len() == 9);
    assert("illusioni visive"@.len() == 16);
    assert("invecchiamento"@.len() == 14);
    assert("livelli negativi"@.len() == 16);
    assert("malattia"@.len() == 8);
    assert("malattie"@.len() == 8);
    assert("maledizioni"@.len() == 11);
    assert("metamorfosi"@.len() == 11);
    assert("nausea"@.len() == 6);
    assert("palla di fuoco"@.len() == 14);
    assert("paralisi"@.len() == 8);
    assert("paura"@.len() == 5);
    assert("pietrificazione"@.len() == 15);
    assert("possessione"@.len() == 11);
    assert("risucchi di caratteristiche"@.len() == 27);
    assert("risucchi di energia"@.len() == 19);
    assert("risucchio di caratteristica"@.len() == 27);
    assert("risucchio di caratteristiche"@.len() == 28);
    assert("risucchio di energia"@.len() == 20);
    assert("ruggine"@.len() == 7);
    assert("sanguinamento"@.len() == 13);
    assert("sonno"@.len() == 5);
    assert("sonoro"@.len() == 6);
    assert("sordità"@.len() == 7);
    assert("stordimento"@.len() == 11);
    assert("veleni"@.len() == 6);
    assert("veleno"@.len() == 6);
    assert("visivi ed illusori"@.len() == 18);
    assert("Tratti dei Vegetali"@[0] != "effetti Barcollanti"@[0]);
    assert("Tratti dei Vegetali"@ != "effetti Barcollanti"@);
    assert("Tratti dei Vegetali"@[0] != "Immunità alla Magia"@[0]);
    assert("Tratti dei Vegetali"@ != "Immunità alla Magia"@);
    assert("Tratti dei Vegetali"@[0] != "danno di precisione"@[0]);
    assert("Tratti dei Vegetali"@ != "danno di precisione"@);
    assert("Tratti dei Vegetali"@[0] != "danni da precisione"@[0]);
    assert("Tratti dei Vegetali"@ != "danni da precisione"@);
    assert("Tratti dei Vegetali"@[0] != "danni di precisione"@[0]);
    assert("Tratti dei Vegetali"@ != "danni di precisione"@);
    assert("Tratti dei Vegetali"@[0] != "Attacchi ai Fianchi"@[0]);
    assert("Tratti dei Vegetali"@ != "Attacchi ai Fianchi"@);
    assert("Tratti dei Vegetali"@[0] != "Immunità all'Esilio"@[0]);
    assert("Tratti dei Vegetali"@ != "Immunità all'Esilio"@);
    assert("Tratti dei Vegetali"@[0] != "Ancora Dimensionale"@[0]);
    assert("Tratti dei Vegetali"@ != "Ancora Dimensionale"@);
    assert("Tratti dei Vegetali"@[0] != "Risucchi di Energia"@[0]);
    assert("Tratti dei Vegetali"@ != "Risucchi di Energia"@);
    assert("Tratti dei Vegetali"@[0] != "risucchi di energia"@[0]);
    assert("Tratti dei Vegetali"@ != "risucchi di energia"@);
    assert("Tratti dei Vegetali"@[9] != "Tratti degli Sciami"@[9]);
    assert("Tratti dei Vegetali"@ != "Tratti degli Sciami"@);
}

proof fn lemma_read_immunity_elementaltraits(s: Seq<char>)
    requires
        immunity_named(Immunity_Type::Immunity_ElementalTraits, s),
    ensures
        spec_single_immunity(s) == Some(Immunity_Type::Immunity_ElementalTraits),
{
    reveal_strlit("Abbagliamenti");
    reveal_strlit("Abbagliamento");
    reveal_strlit("Abbagliato");
    reveal_strlit("Accecato");
    reveal_strlit("Acido");
    reveal_strlit("Affaticamento");
    reveal_strlit("Affaticato");
    reveal_strlit("Ammaliamento");
    reveal_strlit("Ancora Dimensionale");
    reveal_strlit("Armi Taglienti");
    reveal_strlit("Armi contundenti");
    reveal_strlit("Assorbimento del Fuoco");
    reveal_strlit("Attacchi Furtivi");
    reveal_strlit("Attacchi ai Fianchi");
    reveal_strlit("Attacchi basati sull'olfatto");
    reveal_strlit("Attacchi basati sulla vista");
    reveal_strlit("Attacchi basati sulla vista o sguardo");
    reveal_strlit("Attacchi con Sguardo");
    reveal_strlit("Attacchi con lo sguardo");
    reveal_strlit("Attacchi dipendenti dalla vista");
    reveal_strlit("Barcollante");
    reveal_strlit("Barcollare");
    reveal_strlit("Cecità");
    reveal_strlit("Charme");
    reveal_strlit("Colpi Critici");
    reveal_strlit("Colpi critici");
    reveal_strlit("Condizione Affaticato");
    reveal_strlit("Condizione Esausto");
    reveal_strlit("Confusione");
    reveal_strlit("Congedo");
    reveal_strlit("Danni Non Letali");
    reveal_strlit("Danni alle caratteristiche");
    reveal_strlit("Danni contundenti");
    reveal_strlit("Danni da arma");
    reveal_strlit("Danni da armi");
    reveal_strlit("Danni dalle Armi");
    reveal_strlit("Danni e risucchi alle caratteristiche");
    reveal_strlit("Danni e risucchi di caratteristiche");
    reveal_strlit("Danni e risucchio alle Caratteristiche");
    reveal_strlit("Danni e risucchio di caratteristiche");
    reveal_strlit("Danni perforanti e taglienti");
    reveal_strlit("Danno alle Caratteristiche");
    reveal_strlit("Danno da Pressione");
    reveal_strlit("Danno da arma");
    reveal_strlit("Danno e risucchio alle caratteristiche");
    reveal_strlit("Danno non letale");
    reveal_strlit("Demenza");
    reveal_strlit("Divinazione");
    reveal_strlit("Dolore");
    reveal_strlit("Effetti a completamento di incantesimo e ad attivazione di incantesimo");
    reveal_strlit("Effetti basati sulla vista");
    reveal_strlit("Effetti d'influenza mentale");
    reveal_strlit("Effetti di Charme e Compulsione");
    reveal_strlit("Effetti di Demenza");
    reveal_strlit("Effetti di Influenza Mentale");
    reveal_strlit("Effetti di Morte");
    reveal_strlit("Effetti di Paura");
    reveal_strlit("Effetti di Sonno");
    reveal_strlit("Effetti di charme");
    reveal_strlit("Effetti di charme e compulsioni");
    reveal_strlit("Effetti di confusione e follia");
    reveal_strlit("Effetti di dolore");
    reveal_strlit("Effetti di forza");
    reveal_strlit("Effetti di influenza mentale");
    reveal_strlit("Effetti di morte");
    reveal_strlit("Effetti di morte (vedi sotto)");
    reveal_strlit("Effetti di paura");
    reveal_strlit("Effetti di sonno");
    reveal_strlit("Effetti visivi");
    reveal_strlit("Elettricità");
    reveal_strlit("Elettricità (parziale)");
    reveal_strlit("Energia Negativa");
    reveal_strlit("Energia Positiva");
    reveal_strlit("Esaurimento");
    reveal_strlit("Esausto");
    reveal_strlit("Fatica");
    reveal_strlit("Fiancheggiamento");
    reveal_strlit("Forza");
    reveal_strlit("Frastornamento");
    reveal_strlit("Frastornato");
    reveal_strlit("Freddo");
    reveal_strlit("Freddo (sé stesso e chi lo cavalca)");
    reveal_strlit("Fuoco");
    reveal_strlit("Fuoco Infernale");
    reveal_strlit("Illusione");
    reveal_strlit("Illusioni e qualsiasi attacco basato sulla vista");
    reveal_strlit("Immunità agli Incantesimi");
    reveal_strlit("Immunità al Freddo");
    reveal_strlit("Immunità all'Esilio");
    reveal_strlit("Immunità alla Magia");
    reveal_strlit("Incantesimi di Ammaliamento e di Illusione");
    reveal_strlit("Individuazione dei Pensieri");
    reveal_strlit("Individuazione dell'Allineamento");
    reveal_strlit("Infermità");
    reveal_strlit("Infermo");
    reveal_strlit("Invecchiamento");
    reveal_strlit("Livelli Negativi");
    reveal_strlit("Magia");
    reveal_strlit("Malattia");
    reveal_strlit("Malattie");
    reveal_strlit("Maledizioni");
    reveal_strlit("Metamorfosi");
    reveal_strlit("Nausea");
    reveal_strlit("Nauseato");
    reveal_strlit("Non Deformante");
    reveal_strlit("Paralisi");
    reveal_strlit("Paura");
    reveal_strlit("Pietrificazione");
    reveal_strlit("Richiamo");
    reveal_strlit("Risucchi di Energia");
    reveal_strlit("Risucchio di Caratteristiche");
    reveal_strlit("Risucchio di Energia");
    reveal_strlit("Rivela Bugie");
    reveal_strlit("Sanguinamento");
    reveal_strlit("Sanguinamento (solo Punti Ferita)");
    reveal_strlit("Scosso");
    reveal_strlit("Sguardo");
    reveal_strlit("Sonno");
    reveal_strlit("Sonoro");
    reveal_strlit("Sordità");
    reveal_strlit("Spaventato");
    reveal_strlit("Stordimento");
    reveal_strlit("Tratti degli Elementali");
    reveal_strlit("Tratti degli Sciami");
    reveal_strlit("Tratti dei Costrutti");
    reveal_strlit("Tratti dei Non Morti");
    reveal_strlit("Tratti dei Vegetali");
    reveal_strlit("Tratti delle Melme");
    reveal_strlit("Veleni");
    reveal_strlit("Veleno");
    reveal_strlit("Veleno Ingerito");
    reveal_strlit("acido");
    reveal_strlit("attacchi basati sulla vista ed effetti visivi");
    reveal_strlit("attacchi con Sguardo");
    reveal_strlit("attacchi con lo Sguardo");
    reveal_strlit("attacchi con lo sguardo");
    reveal_strlit("charme");
    reveal_strlit("charme sui mostri");
    reveal_strlit("compulsione");
    reveal_strlit("controllo mentale");
    reveal_strlit("contundente");
    reveal_strlit("da caduta e da schiacciamento");
    reveal_strlit("danni alle Caratteristiche");
    reveal_strlit("danni alle caratteristiche");
    reveal_strlit("danni contundenti");
    reveal_strlit("danni contundenti e perforanti");
    reveal_strlit("danni da arma");
    reveal_strlit("danni da armi");
    reveal_strlit("danni da precisione");
    reveal_strlit("danni delle armi");
    reveal_strlit("danni di precisione");
    reveal_strlit("danni e risucchi di Caratteristiche");
    reveal_strlit("danni perforanti");
    reveal_strlit("danni taglienti");
    reveal_strlit("danni taglienti e perforanti");
    reveal_strlit("danno da arma");
    reveal_strlit("danno di precisione");
    reveal_strlit("di influenza mentale e basati sullo Sguardo");
    reveal_strlit("divinazione");
    reveal_strlit("dolore");
    reveal_strlit("effetti Barcollanti");
    reveal_strlit("effetti basati sulla vista");
    reveal_strlit("effetti che bersagliano uno specifico numero di creature");
    reveal_strlit("effetti di Charme e Compulsione");
    reveal_strlit("effetti di Metamorfosi");
    reveal_strlit("effetti di Paura");
    reveal_strlit("effetti di Paura ed influenza mentale");
    reveal_strlit("effetti di Sguardo");
    reveal_strlit("effetti di Sonno");
    reveal_strlit("effetti di ammaliamento");
    reveal_strlit("effetti di charme");
    reveal_strlit("effetti di charme e compulsione");
    reveal_strlit("effetti di charme e compulsioni");
    reveal_strlit("effetti di compulsione");
    reveal_strlit("effetti di confusione e demenza");
    reveal_strlit("effetti di demenza");
    reveal_strlit("effetti di influenza mentale");
    reveal_strlit("effetti di influenza mentale e visivi");
    reveal_strlit("effetti di luce");
    reveal_strlit("effetti di maledizione");
    reveal_strlit("effetti di maledizioni");
    reveal_strlit("effetti di metamorfosi");
    reveal_strlit("effetti di morte");
    reveal_strlit("effetti di necromanzia");
    reveal_strlit("effetti di paura");
    reveal_strlit("effetti di sguardo");
    reveal_strlit("effetti di sonno");
    reveal_strlit("effetti e illusioni visive");
    reveal_strlit("effetti polimorfi");
    reveal_strlit("effetti sensoriali");
    reveal_strlit("effetti visivi");
    reveal_strlit("effetti visivi e illusioni");
    reveal_strlit("elettricità");
    reveal_strlit("emozioni");
    reveal_strlit("energia negativa");
    reveal_strlit("ferite permanenti");
    reveal_strlit("forza");
    reveal_strlit("freddo");
    reveal_strlit("fulmine");
    reveal_strlit("fuoco");
    reveal_strlit("illusioni");
    reveal_strlit("illusioni visive");
    reveal_strlit("invecchiamento");
    reveal_strlit("livelli negativi");
    reveal_strlit("malattia");
    reveal_strlit("malattie");
    reveal_strlit("maledizioni");
    reveal_strlit("metamorfosi");
    reveal_strlit("nausea");
    reveal_strlit("palla di fuoco");
    reveal_strlit("paralisi");
    reveal_strlit("paura");
    reveal_strlit("pietrificazione");
    reveal_strlit("possessione");
    reveal_strlit("risucchi di caratteristiche");
    reveal_strlit("risucchi di energia");
    reveal_strlit("risucchio di caratteristica");
    reveal_strlit("risucchio di caratteristiche");
    reveal_strlit("risucchio di energia");
    reveal_strlit("ruggine");
    reveal_strlit("sanguinamento");
    reveal_strlit("sonno");
    reveal_strlit("sonoro");
    reveal_strlit("sordità");
    reveal_strlit("stordimento");
    reveal_strlit("veleni");
    reveal_strlit("veleno");
    reveal_strlit("visivi ed illusori");
    assert("Abbagliamenti"@.len() == 13);
    assert("Abbagliamento"@.len() == 13);
    assert("Abbagliato"@.len() == 10);
    assert("Accecato"@.len() == 8);
    assert("Acido"@.len() == 5);
    assert("Affaticamento"@.len() == 13);
    assert("Affaticato"@.len() == 10);
    assert("Ammaliamento"@.len() == 12);
    assert("Ancora Dimensionale"@.len() == 19);
    assert("Armi Taglienti"@.len() == 14);
    assert("Armi contundenti"@.len() == 16);
    assert("Assorbimento del Fuoco"@.len() == 22);
    assert("Attacchi Furtivi"@.len() == 16);
    assert("Attacchi ai Fianchi"@.len() == 19);
    assert("Attacchi basati sull'olfatto"@.len() == 28);
    assert("Attacchi basati sulla vista"@.len() == 27);
    assert("Attacchi basati sulla vista o sguardo"@.len() == 37);
    assert("Attacchi con Sguardo"@.len() == 20);
    assert("Attacchi con lo sguardo"@.len() == 23);
    assert("Attacchi dipendenti dalla vista"@.len() == 31);
    assert("Barcollante"@.len() == 11);
    assert("Barcollare"@.len() == 10);
    assert("Cecità"@.len() == 6);
    assert("Charme"@.len() == 6);
    assert("Colpi Critici"@.len() == 13);
    assert("Colpi critici"@.len() == 13);
    assert("Condizione Affaticato"@.len() == 21);
    assert("Condizione Esausto"@.len() == 18);
    assert("Confusione"@.len() == 10);
    assert("Congedo"@.len() == 7);
    assert("Danni Non Letali"@.len() == 16);
    assert("Danni alle caratteristiche"@.len() == 26);
    assert("Danni contundenti"@.len() == 17);
    assert("Danni da arma"@.len() == 13);
    assert("Danni da armi"@.len() == 13);
    assert("Danni dalle Armi"@.len() == 16);
    assert("Danni e risucchi alle caratteristiche"@.len() == 37);
    assert("Danni e risucchi di caratteristiche"@.len() == 35);
    assert("Danni e risucchio alle Caratteristiche"@.len() == 38);
    assert("Danni e risucchio di caratteristiche"@.len() == 36);
    assert("Danni perforanti e taglienti"@.len() == 28);
    assert("Danno alle Caratteristiche"@.len() == 26);
    assert("Danno da Pressione"@.len() == 18);
    assert("Danno da arma"@.len() == 13);
    assert("Danno e risucchio alle caratteristiche"@.len() == 38);
    assert("Danno non letale"@.len() == 16);
    assert("Demenza"@.len() == 7);
    assert("Divinazione"@.len() == 11);
    assert("Dolore"@.len() == 6);
    assert("Effetti a completamento di incantesimo e ad attivazione di incantesimo"@.len() == 70);
    assert("Effetti basati sulla vista"@.len() == 26);
    assert("Effetti d'influenza mentale"@.len() == 27);
    assert("Effetti di Charme e Compulsione"@.len() == 31);
    assert("Effetti di Demenza"@.len() == 18);
    assert("Effetti di Influenza Mentale"@.len() == 28);
    assert("Effetti di Morte"@.len() == 16);
    assert("Effetti di Paura"@.len() == 16);
    assert("Effetti di Sonno"@.len() == 16);
    assert("Effetti di charme"@.len() == 17);
    assert("Effetti di charme e compulsioni"@.len() == 31);
    assert("Effetti di confusione e follia"@.len() == 30);
    assert("Effetti di dolore"@.len() == 17);
    assert("Effetti di forza"@.len() == 16);
    assert("Effetti di influenza mentale"@.len() == 28);
    assert("Effetti di morte"@.len() == 16);
    assert("Effetti di morte (vedi sotto)"@.len() == 29);
    assert("Effetti di paura"@.len() == 16);
    assert("Effetti di sonno"@.len() == 16);
    assert("Effetti visivi"@.len() == 14);
    assert("Elettricità"@.len() == 11);
    assert("Elettricità (parziale)"@.len() == 22);
    assert("Energia Negativa"@.len() == 16);
    assert("Energia Positiva"@.len() == 16);
    assert("Esaurimento"@.len() == 11);
    assert("Esausto"@.len() == 7);
    assert("Fatica"@.len() == 6);
    assert("Fiancheggiamento"@.len() == 16);
    assert("Forza"@.len() == 5);
    assert("Frastornamento"@.len() == 14);
    assert("Frastornato"@.len() == 11);
    assert("Freddo"@.len() == 6);
    assert("Freddo (sé stesso e chi lo cavalca)"@.len() == 35);
    assert("Fuoco"@.len() == 5);
    assert("Fuoco Infernale"@.len() == 15);
    assert("Illusione"@.len() == 9);
    assert("Illusioni e qualsiasi attacco basato sulla vista"@.len() == 48);
    assert("Immunità agli Incantesimi"@.len() == 25);
    assert("Immunità al Freddo"@.len() == 18);
    assert("Immunità all'Esilio"@.len() == 19);
    assert("Immunità alla Magia"@.len() == 19);
    assert("Incantesimi di Ammaliamento e di Illusione"@.len() == 42);
    assert("Individuazione dei Pensieri"@.len() == 27);
    assert("Individuazione dell'Allineamento"@.len() == 32);
    assert("Infermità"@.len() == 9);
    assert("Infermo"@.len() == 7);
    assert("Invecchiamento"@.len() == 14);
    assert("Livelli Negativi"@.len() == 16);
    assert("Magia"@.len() == 5);
    assert("Malattia"@.len() == 8);
    assert("Malattie"@.len() == 8);
    assert("Maledizioni"@.len() == 11);
    assert("Metamorfosi"@.len() == 11);
    assert("Nausea"@.len() == 6);
    assert("Nauseato"@.len() == 8);
    assert("Non Deformante"@.len() == 14);
    assert("Paralisi"@.len() == 8);
    assert("Paura"@.len() == 5);
    assert("Pietrificazione"@.len() == 15);
    assert("Richiamo"@.len() == 8);
    assert("Risucchi di Energia"@.len() == 19);
    assert("Risucchio di Caratteristiche"@.len() == 28);
    assert("Risucchio di Energia"@.len() == 20);
    assert("Rivela Bugie"@.len() == 12);
    assert("Sanguinamento"@.len() == 13);
    assert("Sanguinamento (solo Punti Ferita)"@.len() == 33);
    assert("Scosso"@.len() == 6);
    assert("Sguardo"@.len() == 7);
    assert("Sonno"@.len() == 5);
    assert("Sonoro"@.len() == 6);
    assert("Sordità"@.len() == 7);
    assert("Spaventato"@.len() == 10);
    assert("Stordimento"@.len() == 11);
    assert("Tratti degli Elementali"@.len() == 23);
    assert("Tratti degli Sciami"@.len() == 19);
    assert("Tratti dei Costrutti"@.len() == 20);
    assert("Tratti dei Non Morti"@.len() == 20);
    assert("Tratti dei Vegetali"@.len() == 19);
    assert("Tratti delle Melme"@.len() == 18);
    assert("Veleni"@.len() == 6);
    assert("Veleno"@.len() == 6);
    assert("Veleno Ingerito"@.len() == 15);
    assert("acido"@.len() == 5);
    assert("attacchi basati sulla vista ed effetti visivi"@.len() == 45);
    assert("attacchi con Sguardo"@.len() == 20);
    assert("attacchi con lo Sguardo"@.len() == 23);
    assert("attacchi con lo sguardo"@.len() == 23);
    assert("charme"@.len() == 6);
    assert("charme sui mostri"@.len() == 17);
    assert("compulsione"@.len() == 11);
    assert("controllo mentale"@.len() == 17);
    assert("contundente"@.len() == 11);
    assert("da caduta e da schiacciamento"@.len() == 29);
    assert("danni alle Caratteristiche"@.len() == 26);
    assert("danni alle caratteristiche"@.len() == 26);
    assert("danni contundenti"@.len() == 17);
    assert("danni contundenti e perforanti"@.len() == 30);
    assert("danni da arma"@.len() == 13);
    assert("danni da armi"@.len() == 13);
    assert("danni da precisione"@.len() == 19);
    assert("danni delle armi"@.len() == 16);
    assert("danni di precisione"@.len() == 19);
    assert("danni e risucchi di Caratteristiche"@.len() == 35);
    assert("danni perforanti"@.len() == 16);
    assert("danni taglienti"@.len() == 15);
    assert("danni taglienti e perforanti"@.len() == 28);
    assert("danno da arma"@.len() == 13);
    assert("danno di precisione"@.len() == 19);
    assert("di influenza mentale e basati sullo Sguardo"@.len() == 43);
    assert("divinazione"@.len() == 11);
    assert("dolore"@.len() == 6);
    assert("effetti Barcollanti"@.len() == 19);
    assert("effetti basati sulla vista"@.len() == 26);
    assert("effetti che bersagliano uno specifico numero di creature"@.len() == 56);
    assert("effetti di Charme e Compulsione"@.len() == 31);
    assert("effetti di Metamorfosi"@.len() == 22);
    assert("effetti di Paura"@.len() == 16);
    assert("effetti di Paura ed influenza mentale"@.len() == 37);
    assert("effetti di Sguardo"@.len() == 18);
    assert("effetti di Sonno"@.len() == 16);
    assert("effetti di ammaliamento"@.len() == 23);
    assert("effetti di charme"@.len() == 17);
    assert("effetti di charme e compulsione"@.len() == 31);
    assert("effetti di charme e compulsioni"@.len() == 31);
    assert("effetti di compulsione"@.len() == 22);
    assert("effetti di confusione e demenza"@.len() == 31);
    assert("effetti di demenza"@.len() == 18);
    assert("effetti di influenza mentale"@.len() == 28);
    assert("effetti di influenza mentale e visivi"@.len() == 37);
    assert("effetti di luce"@.len() == 15);
    assert("effetti di maledizione"@.len() == 22);
    assert("effetti di maledizioni"@.len() == 22);
    assert("effetti di metamorfosi"@.len() == 22);
    assert("effetti di morte"@.len() == 16);
    assert("effetti di necromanzia"@.len() == 22);
    assert("effetti di paura"@.len() == 16);
    assert("effetti di sguardo"@.len() == 18);
    assert("effetti di sonno"@.len() == 16);
    assert("effetti e illusioni visive"@.len() == 26);
    assert("effetti polimorfi"@.len() == 17);
    assert("effetti sensoriali"@.len() == 18);
    assert("effetti visivi"@.len() == 14);
    assert("effetti visivi e illusioni"@.len() == 26);
    assert("elettricità"@.len() == 11);
    assert("emozioni"@.len() == 8);
    assert("energia negativa"@.len() == 16);
    assert("ferite permanenti"@.len() == 17);
    assert("forza"@.len() == 5);
    assert("freddo"@.len() == 6);
    assert("fulmine"@.len() == 7);
    assert("fuoco"@.len() == 5);
    assert("illusioni"@.len() == 9);
    assert("illusioni visive"@.len() == 16);
    assert("invecchiamento"@.len() == 14);
    assert("livelli negativi"@.len() == 16);
    assert("malattia"@.len() == 8);
    assert("malattie"@.len() == 8);
    assert("maledizioni"@.len() == 11);
    assert("metamorfosi"@.len() == 11);
    assert("nausea"@.len() == 6);
    assert("palla di fuoco"@.len() == 14);
    assert("paralisi"@.len() == 8);
    assert("paura"@.len() == 5);
    assert("pietrificazione"@.len() == 15);
    assert("possessione"@.len() == 11);
    assert("risucchi di caratteristiche"@.len() == 27);
    assert("risucchi di energia"@.len() == 19);
    assert("risucchio di caratteristica"@.len() == 27);
    assert("risucchio di caratteristiche"@.len() == 28);
    assert("risucchio di energia"@.len() == 20);
    assert("ruggine"@.len() == 7);
    assert("sanguinamento"@.len() == 13);
    assert("sonno"@.len() == 5);
    assert("sonoro"@.len() == 6);
    assert("sordità"@.len() == 7);
    assert("stordimento"@.len() == 11);
    assert("veleni"@.len() == 6);
    assert("veleno"@.len() == 6);
    assert("visivi ed illusori"@.len() == 18);
    assert("Tratti degli Elementali"@[0] != "Attacchi con lo sguardo"@[0]);
    assert("Tratti degli Elementali"@ != "Attacchi con lo sguardo"@);
    assert("Tratti degli Elementali"@[0] != "attacchi con lo Sguardo"@[0]);
    assert("Tratti degli Elementali"@ != "attacchi con lo Sguardo"@);
    assert("Tratti degli Elementali"@[0] != "attacchi con lo sguardo"@[0]);
    assert("Tratti degli Elementali"@ != "attacchi con lo sguardo"@);
    assert("Tratti degli Elementali"@[0] != "effetti di ammaliamento"@[0]);
    assert("Tratti degli Elementali"@ != "effetti di ammaliamento"@);
}

proof fn lemma_read_immunity_dragontraits(s: Seq<char>)
    requires
        immunity_named(Immunity_Type::Immunity_DragonTraits, s),
    ensures
        spec_single_immunity(s) == Some(Immunity_Type::Immunity_DragonTraits),
{
    reveal_strlit("Abbagliamenti");
    reveal_strlit("Abbagliamento");
    reveal_strlit("Abbagliato");
    reveal_strlit("Accecato");
    reveal_strlit("Acido");
    reveal_strlit("Affaticamento");
    reveal_strlit("Affaticato");
    reveal_strlit("Ammaliamento");
    reveal_strlit("Ancora Dimensionale");
    reveal_strlit("Armi Taglienti");
    reveal_strlit("Armi contundenti");
    reveal_strlit("Assorbimento del Fuoco");
    reveal_strlit("Attacchi Furtivi");
    reveal_strlit("Attacchi ai Fianchi");
    reveal_strlit("Attacchi basati sull'olfatto");
    reveal_strlit("Attacchi basati sulla vista");
    reveal_strlit("Attacchi basati sulla vista o sguardo");
    reveal_strlit("Attacchi con Sguardo");
    reveal_strlit("Attacchi con lo sguardo");
    reveal_strlit("Attacchi dipendenti dalla vista");
    reveal_strlit("Barcollante");
    reveal_strlit("Barcollare");
    reveal_strlit("Cecità");
    reveal_strlit("Charme");
    reveal_strlit("Colpi Critici");
    reveal_strlit("Colpi critici");
    reveal_strlit("Condizione Affaticato");
    reveal_strlit("Condizione Esausto");
    reveal_strlit("Confusione");
    reveal_strlit("Congedo");
    reveal_strlit("Danni Non Letali");
    reveal_strlit("Danni alle caratteristiche");
    reveal_strlit("Danni contundenti");
    reveal_strlit("Danni da arma");
    reveal_strlit("Danni da armi");
    reveal_strlit("Danni dalle Armi");
    reveal_strlit("Danni e risucchi alle caratteristiche");
    reveal_strlit("Danni e risucchi di caratteristiche");
    reveal_strlit("Danni e risucchio alle Caratteristiche");
    reveal_strlit("Danni e risucchio di caratteristiche");
    reveal_strlit("Danni perforanti e taglienti");
    reveal_strlit("Danno alle Caratteristiche");
    reveal_strlit("Danno da Pressione");
    reveal_strlit("Danno da arma");
    reveal_strlit("Danno e risucchio alle caratteristiche");
    reveal_strlit("Danno non letale");
    reveal_strlit("Demenza");
    reveal_strlit("Divinazione");
    reveal_strlit("Dolore");
    reveal_strlit("Effetti a completamento di incantesimo e ad attivazione di incantesimo");
    reveal_strlit("Effetti basati sulla vista");
    reveal_strlit("Effetti d'influenza mentale");
    reveal_strlit("Effetti di Charme e Compulsione");
    reveal_strlit("Effetti di Demenza");
    reveal_strlit("Effetti di Influenza Mentale");
    reveal_strlit("Effetti di Morte");
    reveal_strlit("Effetti di Paura");
    reveal_strlit("Effetti di Sonno");
    reveal_strlit("Effetti di charme");
    reveal_strlit("Effetti di charme e compulsioni");
    reveal_strlit("Effetti di confusione e follia");
    reveal_strlit("Effetti di dolore");
    reveal_strlit("Effetti di forza");
    reveal_strlit("Effetti di influenza mentale");
    reveal_strlit("Effetti di morte");
    reveal_strlit("Effetti di morte (vedi sotto)");
    reveal_strlit("Effetti di paura");
    reveal_strlit("Effetti di sonno");
    reveal_strlit("Effetti visivi");
    reveal_strlit("Elettricità");
    reveal_strlit("Elettricità (parziale)");
    reveal_strlit("Energia Negativa");
    reveal_strlit("Energia Positiva");
    reveal_strlit("Esaurimento");
    reveal_strlit("Esausto");
    reveal_strlit("Fatica");
    reveal_strlit("Fiancheggiamento");
    reveal_strlit("Forza");
    reveal_strlit("Frastornamento");
    reveal_strlit("Frastornato");
    reveal_strlit("Freddo");
    reveal_strlit("Freddo (sé stesso e chi lo cavalca)");
    reveal_strlit("Fuoco");
    reveal_strlit("Fuoco Infernale");
    reveal_strlit("Illusione");
    reveal_strlit("Illusioni e qualsiasi attacco basato sulla vista");
    reveal_strlit("Immunità agli Incantesimi");
    reveal_strlit("Immunità al Freddo");
    reveal_strlit("Immunità all'Esilio");
    reveal_strlit("Immunità alla Magia");
    reveal_strlit("Incantesimi di Ammaliamento e di Illusione");
    reveal_strlit("Individuazione dei Pensieri");
    reveal_strlit("Individuazione dell'Allineamento");
    reveal_strlit("Infermità");
    reveal_strlit("Infermo");
    reveal_strlit("Invecchiamento");
    reveal_strlit("Livelli Negativi");
    reveal_strlit("Magia");
    reveal_strlit("Malattia");
    reveal_strlit("Malattie");
    reveal_strlit("Maledizioni");
    reveal_strlit("Metamorfosi");
    reveal_strlit("Nausea");
    reveal_strlit("Nauseato");
    reveal_strlit("Non Deformante");
    reveal_strlit("Paralisi");
    reveal_strlit("Paura");
    reveal_strlit("Pietrificazione");
    reveal_strlit("Richiamo");
    reveal_strlit("Risucchi di Energia");
    reveal_strlit("Risucchio di Caratteristiche");
    reveal_strlit("Risucchio di Energia");
    reveal_strlit("Rivela Bugie");
    reveal_strlit("Sanguinamento");
    reveal_strlit("Sanguinamento (solo Punti Ferita)");
    reveal_strlit("Scosso");
    reveal_strlit("Sguardo");
    reveal_strlit("Sonno");
    reveal_strlit("Sonoro");
    reveal_strlit("Sordità");
    reveal_strlit("Spaventato");
    reveal_strlit("Stordimento");
    reveal_strlit("Tratti degli Elementali");
    reveal_strlit("Tratti degli Sciami");
    reveal_strlit("Tratti dei Costrutti");
    reveal_strlit("Tratti dei Draghi");
    reveal_strlit("Tratti dei Non Morti");
    reveal_strlit("Tratti dei Vegetali");
    reveal_strlit("Tratti delle Melme");
    reveal_strlit("Veleni");
    reveal_strlit("Veleno");
    reveal_strlit("Veleno Ingerito");
    reveal_strlit("acido");
    reveal_strlit("attacchi basati sulla vista ed effetti visivi");
    reveal_strlit("attacchi con Sguardo");
    reveal_strlit("attacchi con lo Sguardo");
    reveal_strlit("attacchi con lo sguardo");
    reveal_strlit("charme");
    reveal_strlit("charme sui mostri");
    reveal_strlit("compulsione");
    reveal_strlit("controllo mentale");
    reveal_strlit("contundente");
    reveal_strlit("da caduta e da schiacciamento");
    reveal_strlit("danni alle Caratteristiche");
    reveal_strlit("danni alle caratteristiche");
    reveal_strlit("danni contundenti");
    reveal_strlit("danni contundenti e perforanti");
    reveal_strlit("danni da arma");
    reveal_strlit("danni da armi");
    reveal_strlit("danni da precisione");
    reveal_strlit("danni delle armi");
    reveal_strlit("danni di precisione");
    reveal_strlit("danni e risucchi di Caratteristiche");
    reveal_strlit("danni perforanti");
    reveal_strlit("danni taglienti");
    reveal_strlit("danni taglienti e perforanti");
    reveal_strlit("danno da arma");
    reveal_strlit("danno di precisione");
    reveal_strlit("di influenza mentale e basati sullo Sguardo");
    reveal_strlit("divinazione");
    reveal_strlit("dolore");
    reveal_strlit("effetti Barcollanti");
    reveal_strlit("effetti basati sulla vista");
    reveal_strlit("effetti che bersagliano uno specifico numero di creature");
    reveal_strlit("effetti di Charme e Compulsione");
    reveal_strlit("effetti di Metamorfosi");
    reveal_strlit("effetti di Paura");
    reveal_strlit("effetti di Paura ed influenza mentale");
    reveal_strlit("effetti di Sguardo");
    reveal_strlit("effetti di Sonno");
    reveal_strlit("effetti di ammaliamento");
    reveal_strlit("effetti di charme");
    reveal_strlit("effetti di charme e compulsione");
    reveal_strlit("effetti di charme e compulsioni");
    reveal_strlit("effetti di compulsione");
    reveal_strlit("effetti di confusione e demenza");
    reveal_strlit("effetti di demenza");
    reveal_strlit("effetti di influenza mentale");
    reveal_strlit("effetti di influenza mentale e visivi");
    reveal_strlit("effetti di luce");
    reveal_strlit("effetti di maledizione");
    reveal_strlit("effetti di maledizioni");
    reveal_strlit("effetti di metamorfosi");
    reveal_strlit("effetti di morte");
    reveal_strlit("effetti di necromanzia");
    reveal_strlit("effetti di paura");
    reveal_strlit("effetti di sguardo");
    reveal_strlit("effetti di sonno");
    reveal_strlit("effetti e illusioni visive");
    reveal_strlit("effetti polimorfi");
    reveal_strlit("effetti sensoriali");
    reveal_strlit("effetti visivi");
    reveal_strlit("effetti visivi e illusioni");
    reveal_strlit("elettricità");
    reveal_strlit("emozioni");
    reveal_strlit("energia negativa");
    reveal_strlit("ferite permanenti");
    reveal_strlit("forza");
    reveal_strlit("freddo");
    reveal_strlit("fulmine");
    reveal_strlit("fuoco");
    reveal_strlit("illusioni");
    reveal_strlit("illusioni visive");
    reveal_strlit("invecchiamento");
    reveal_strlit("livelli negativi");
    reveal_strlit("malattia");
    reveal_strlit("malattie");
    reveal_strlit("maledizioni");
    reveal_strlit("metamorfosi");
    reveal_strlit("nausea");
    reveal_strlit("palla di fuoco");
    reveal_strlit("paralisi");
    reveal_strlit("paura");
    reveal_strlit("pietrificazione");
    reveal_strlit("possessione");
    reveal_strlit("risucchi di caratteristiche");
    reveal_strlit("risucchi di energia");
    reveal_strlit("risucchio di caratteristica");
    reveal_strlit("risucchio di caratteristiche");
    reveal_strlit("risucchio di energia");
    reveal_strlit("ruggine");
    reveal_strlit("sanguinamento");
    reveal_strlit("sonno");
    reveal_strlit("sonoro");
    reveal_strlit("sordità");
    reveal_strlit("stordimento");
    reveal_strlit("tratti dei Draghi");
    reveal_strlit("veleni");
    reveal_strlit("veleno");
    reveal_strlit("visivi ed illusori");
    assert("Abbagliamenti"@.len() == 13);
    assert("Abbagliamento"@.len() == 13);
    assert("Abbagliato"@.len() == 10);
    assert("Accecato"@.len() == 8);
    assert("Acido"@.len() == 5);
    assert("Affaticamento"@.len() == 13);
    assert("Affaticato"@.len() == 10);
    assert("Ammaliamento"@.len() == 12);
    assert("Ancora Dimensionale"@.len() == 19);
    assert("Armi Taglienti"@.len() == 14);
    assert("Armi contundenti"@.len() == 16);
    assert("Assorbimento del Fuoco"@.len() == 22);
    assert("Attacchi Furtivi"@.len() == 16);
    assert("Attacchi ai Fianchi"@.len() == 19);
    assert("Attacchi basati sull'olfatto"@.len() == 28);
    assert("Attacchi basati sulla vista"@.len() == 27);
    assert("Attacchi basati sulla vista o sguardo"@.len() == 37);
    assert("Attacchi con Sguardo"@.len() == 20);
    assert("Attacchi con lo sguardo"@.len() == 23);
    assert("Attacchi dipendenti dalla vista"@.len() == 31);
    assert("Barcollante"@.len() == 11);
    assert("Barcollare"@.len() == 10);
    assert("Cecità"@.len() == 6);
    assert("Charme"@.len() == 6);
    assert("Colpi Critici"@.len() == 13);
    assert("Colpi critici"@.len() == 13);
    assert("Condizione Affaticato"@.len() == 21);
    assert("Condizione Esausto"@.len() == 18);
    assert("Confusione"@.len() == 10);
    assert("Congedo"@.len() == 7);
    assert("Danni Non Letali"@.len() == 16);
    assert("Danni alle caratteristiche"@.len() == 26);
    assert("Danni contundenti"@.len() == 17);
    assert("Danni da arma"@.len() == 13);
    assert("Danni da armi"@.len() == 13);
    assert("Danni dalle Armi"@.len() == 16);
    assert("Danni e risucchi alle caratteristiche"@.len() == 37);
    assert("Danni e risucchi di caratteristiche"@.len() == 35);
    assert("Danni e risucchio alle Caratteristiche"@.len() == 38);
    assert("Danni e risucchio di caratteristiche"@.len() == 36);
    assert("Danni perforanti e taglienti"@.len() == 28);
    assert("Danno alle Caratteristiche"@.len() == 26);
    assert("Danno da Pressione"@.len() == 18);
    assert("Danno da arma"@.len() == 13);
    assert("Danno e risucchio alle caratteristiche"@.len() == 38);
    assert("Danno non letale"@.len() == 16);
    assert("Demenza"@.len() == 7);
    assert("Divinazione"@.len() == 11);
    assert("Dolore"@.len() == 6);
    assert("Effetti a completamento di incantesimo e ad attivazione di incantesimo"@.len() == 70);
    assert("Effetti basati sulla vista"@.len() == 26);
    assert("Effetti d'influenza mentale"@.len() == 27);
    assert("Effetti di Charme e Compulsione"@.len() == 31);
    assert("Effetti di Demenza"@.len() == 18);
    assert("Effetti di Influenza Mentale"@.len() == 28);
    assert("Effetti di Morte"@.len() == 16);
    assert("Effetti di Paura"@.len() == 16);
    assert("Effetti di Sonno"@.len() == 16);
    assert("Effetti di charme"@.len() == 17);
    assert("Effetti di charme e compulsioni"@.len() == 31);
    assert("Effetti di confusione e follia"@.len() == 30);
    assert("Effetti di dolore"@.len() == 17);
    assert("Effetti di forza"@.len() == 16);
    assert("Effetti di influenza mentale"@.len() == 28);
    assert("Effetti di morte"@.len() == 16);
    assert("Effetti di morte (vedi sotto)"@.len() == 29);
    assert("Effetti di paura"@.len() == 16);
    assert("Effetti di sonno"@.len() == 16);
    assert("Effetti visivi"@.len() == 14);
    assert("Elettricità"@.len() == 11);
    assert("Elettricità (parziale)"@.len() == 22);
    assert("Energia Negativa"@.len() == 16);
    assert("Energia Positiva"@.len() == 16);
    assert("Esaurimento"@.len() == 11);
    assert("Esausto"@.len() == 7);
    assert("Fatica"@.len() == 6);
    assert("Fiancheggiamento"@.len() == 16);
    assert("Forza"@.len() == 5);
    assert("Frastornamento"@.len() == 14);
    assert("Frastornato"@.len() == 11);
    assert("Freddo"@.len() == 6);
    assert("Freddo (sé stesso e chi lo cavalca)"@.len() == 35);
    assert("Fuoco"@.len() == 5);
    assert("Fuoco Infernale"@.len() == 15);
    assert("Illusione"@.len() == 9);
    assert("Illusioni e qualsiasi attacco basato sulla vista"@.len() == 48);
    assert("Immunità agli Incantesimi"@.len() == 25);
    assert("Immunità al Freddo"@.len() == 18);
    assert("Immunità all'Esilio"@.len() == 19);
    assert("Immunità alla Magia"@.len() == 19);
    assert("Incantesimi di Ammaliamento e di Illusione"@.len() == 42);
    assert("Individuazione dei Pensieri"@.len() == 27);
    assert("Individuazione dell'Allineamento"@.len() == 32);
    assert("Infermità"@.len() == 9);
    assert("Infermo"@.len() == 7);
    assert("Invecchiamento"@.len() == 14);
    assert("Livelli Negativi"@.len() == 16);
    assert("Magia"@.len() == 5);
    assert("Malattia"@.len() == 8);
    assert("Malattie"@.len() == 8);
    assert("Maledizioni"@.len() == 11);
    assert("Metamorfosi"@.len() == 11);
    assert("Nausea"@.len() == 6);
    assert("Nauseato"@.len() == 8);
    assert("Non Deformante"@.len() == 14);
    assert("Paralisi"@.len() == 8);
    assert("Paura"@.len() == 5);
    assert("Pietrificazione"@.len() == 15);
    assert("Richiamo"@.len() == 8);
    assert("Risucchi di Energia"@.len() == 19);
    assert("Risucchio di Caratteristiche"@.len() == 28);
    assert("Risucchio di Energia"@.len() == 20);
    assert("Rivela Bugie"@.len() == 12);
    assert("Sanguinamento"@.len() == 13);
    assert("Sanguinamento (solo Punti Ferita)"@.len() == 33);
    assert("Scosso"@.len() == 6);
    assert("Sguardo"@.len() == 7);
    assert("Sonno"@.len() == 5);
    assert("Sonoro"@.len() == 6);
    assert("Sordità"@.len() == 7);
    assert("Spaventato"@.len() == 10);
    assert("Stordimento"@.len() == 11);
    assert("Tratti degli Elementali"@.len() == 23);
    assert("Tratti degli Sciami"@.len() == 19);
    assert("Tratti dei Costrutti"@.len() == 20);
    assert("Tratti dei Draghi"@.len() == 17);
    assert("Tratti dei Non Morti"@.len() == 20);
    assert("Tratti dei Vegetali"@.len() == 19);
    assert("Tratti delle Melme"@.len() == 18);
    assert("Veleni"@.len() == 6);
    assert("Veleno"@.len() == 6);
    assert("Veleno Ingerito"@.len() == 15);
    assert("acido"@.len() == 5);
    assert("attacchi basati sulla vista ed effetti visivi"@.len() == 45);
    assert("attacchi con Sguardo"@.len() == 20);
    assert("attacchi con lo Sguardo"@.len() == 23);
    assert("attacchi con lo sguardo"@.len() == 23);
    assert("charme"@.len() == 6);
    assert("charme sui mostri"@.len() == 17);
    assert("compulsione"@.len() == 11);
    assert("controllo mentale"@.len() == 17);
    assert("contundente"@.len() == 11);
    assert("da caduta e da schiacciamento"@.len() == 29);
    assert("danni alle Caratteristiche"@.len() == 26);
    assert("danni alle caratteristiche"@.len() == 26);
    assert("danni contundenti"@.len() == 17);
    assert("danni contundenti e perforanti"@.len() == 30);
    assert("danni da arma"@.len() == 13);
    assert("danni da armi"@.len() == 13);
    assert("danni da precisione"@.len() == 19);
    assert("danni delle armi"@.len() == 16);
    assert("danni di precisione"@.len() == 19);
    assert("danni e risucchi di Caratteristiche"@.len() == 35);
    assert("danni perforanti"@.len() == 16);
    assert("danni taglienti"@.len() == 15);
    assert("danni taglienti e perforanti"@.len() == 28);
    assert("danno da arma"@.len() == 13);
    assert("danno di precisione"@.len() == 19);
    assert("di influenza mentale e basati sullo Sguardo"@.len() == 43);
    assert("divinazione"@.len() == 11);
    assert("dolore"@.len() == 6);
    assert("effetti Barcollanti"@.len() == 19);
    assert("effetti basati sulla vista"@.len() == 26);
    assert("effetti che bersagliano uno specifico numero di creature"@.len() == 56);
    assert("effetti di Charme e Compulsione"@.len() == 31);
    assert("effetti di Metamorfosi"@.len() == 22);
    assert("effetti di Paura"@.len() == 16);
    assert("effetti di Paura ed influenza mentale"@.len() == 37);
    assert("effetti di Sguardo"@.len() == 18);
    assert("effetti di Sonno"@.len() == 16);
    assert("effetti di ammaliamento"@.len() == 23);
    assert("effetti di charme"@.len() == 17);
    assert("effetti di charme e compulsione"@.len() == 31);
    assert("effetti di charme e compulsioni"@.len() == 31);
    assert("effetti di compulsione"@.len() == 22);
    assert("effetti di confusione e demenza"@.len() == 31);
    assert("effetti di demenza"@.len() == 18);
    assert("effetti di influenza mentale"@.len() == 28);
    assert("effetti di influenza mentale e visivi"@.len() == 37);
    assert("effetti di luce"@.len() == 15);
    assert("effetti di maledizione"@.len() == 22);
    assert("effetti di maledizioni"@.len() == 22);
    assert("effetti di metamorfosi"@.len() == 22);
    assert("effetti di morte"@.len() == 16);
    assert("effetti di necromanzia"@.len() == 22);
    assert("effetti di paura"@.len() == 16);
    assert("effetti di sguardo"@.len() == 18);
    assert("effetti di sonno"@.len() == 16);
    assert("effetti e illusioni visive"@.len() == 26);
    assert("effetti polimorfi"@.len() == 17);
    assert("effetti sensoriali"@.len() == 18);
    assert("effetti visivi"@.len() == 14);
    assert("effetti visivi e illusioni"@.len() == 26);
    assert("elettricità"@.len() == 11);
    assert("emozioni"@.len() == 8);
    assert("energia negativa"@.len() == 16);
    assert("ferite permanenti"@.len() == 17);
    assert("forza"@.len() == 5);
    assert("freddo"@.len() == 6);
    assert("fulmine"@.len() == 7);
    assert("fuoco"@.len() == 5);
    assert("illusioni"@.len() == 9);
    assert("illusioni visive"@.len() == 16);
    assert("invecchiamento"@.len() == 14);
    assert("livelli negativi"@.len() == 16);
    assert("malattia"@.len() == 8);
    assert("malattie"@.len() == 8);
    assert("maledizioni"@.len() == 11);
    assert("metamorfosi"@.len() == 11);
    assert("nausea"@.len() == 6);
    assert("palla di fuoco"@.len() == 14);
    assert("paralisi"@.len() == 8);
    assert("paura"@.len() == 5);
    assert("pietrificazione"@.len() == 15);
    assert("possessione"@.len() == 11);
    assert("risucchi di caratteristiche"@.len() == 27);
    assert("risucchi di energia"@.len() == 19);
    assert("risucchio di caratteristica"@.len() == 27);
    assert("risucchio di caratteristiche"@.len() == 28);
    assert("risucchio di energia"@.len() == 20);
    assert("ruggine"@.len() == 7);
    assert("sanguinamento"@.len() == 13);
    assert("sonno"@.len() == 5);
    assert("sonoro"@.len() == 6);
    assert("sordità"@.len() == 7);
    assert("stordimento"@.len() == 11);
    assert("tratti dei Draghi"@.len() == 17);
    assert("veleni"@.len() == 6);
    assert("veleno"@.len() == 6);
    assert("visivi ed illusori"@.len() == 18);
    assert("Tratti dei Draghi"@[0] != "Danni contundenti"@[0]);
    assert("Tratti dei Draghi"@ != "Danni contundenti"@);
    assert("Tratti dei Draghi"@[0] != "danni contundenti"@[0]);
    assert("Tratti dei Draghi"@ != "danni contundenti"@);
    assert("Tratti dei Draghi"@[0] != "ferite permanenti"@[0]);
    assert("Tratti dei Draghi"@ != "ferite permanenti"@);
    assert("Tratti dei Draghi"@[0] != "controllo mentale"@[0]);
    assert("Tratti dei Draghi"@ != "controllo mentale"@);
    assert("Tratti dei Draghi"@[0] != "Effetti di charme"@[0]);
    assert("Tratti dei Draghi"@ != "Effetti di charme"@);
    assert("Tratti dei Draghi"@[0] != "effetti di charme"@[0]);
    assert("Tratti dei Draghi"@ != "effetti di charme"@);
    assert("Tratti dei Draghi"@[0] != "effetti polimorfi"@[0]);
    assert("Tratti dei Draghi"@ != "effetti polimorfi"@);
    assert("Tratti dei Draghi"@[0] != "Effetti di dolore"@[0]);
    assert("Tratti dei Draghi"@ != "Effetti di dolore"@);
    assert("Tratti dei Draghi"@[0] != "charme sui mostri"@[0]);
    assert("Tratti dei Draghi"@ != "charme sui mostri"@);
    assert("tratti dei Draghi"@[0] != "Danni contundenti"@[0]);
    assert("tratti dei Draghi"@ != "Danni contundenti"@);
    assert("tratti dei Draghi"@[0] != "danni contundenti"@[0]);
    assert("tratti dei Draghi"@ != "danni contundenti"@);
    assert("tratti dei Draghi"@[0] != "ferite permanenti"@[0]);
    assert("tratti dei Draghi"@ != "ferite permanenti"@);
    assert("tratti dei Draghi"@[0] != "controllo mentale"@[0]);
    assert("tratti dei Draghi"@ != "controllo mentale"@);
    assert("tratti dei Draghi"@[0] != "Effetti di charme"@[0]);
    assert("tratti dei Draghi"@ != "Effetti di charme"@);
    assert("tratti dei Draghi"@[0] != "effetti di charme"@[0]);
    assert("tratti dei Draghi"@ != "effetti di charme"@);
    assert("tratti dei Draghi"@[0] != "effetti polimorfi"@[0]);
    assert("tratti dei Draghi"@ != "effetti polimorfi"@);
    assert("tratti dei Draghi"@[0] != "Effetti di dolore"@[0]);
    assert("tratti dei Draghi"@ != "Effetti di dolore"@);
    assert("tratti dei Draghi"@[0] != "charme sui mostri"@[0]);
    assert("tratti dei Draghi"@ != "charme sui mostri"@);
    assert("tratti dei Draghi"@[0] != "Tratti dei Draghi"@[0]);
    assert("tratti dei Draghi"@ != "Tratti dei Draghi"@);
}

proof fn lemma_read_immunity_magicmissile(s: Seq<char>)
    requires
        immunity_named(Immunity_Type::Immunity_MagicMissile, s),
    ensures
        spec_single_immunity(s) == Some(Immunity_Type::Immunity_MagicMissile),
{
    reveal_strlit("Abbagliamenti");
    reveal_strlit("Abbagliamento");
    reveal_strlit("Abbagliato");
    reveal_strlit("Accecato");
    reveal_strlit("Acido");
    reveal_strlit("Affaticamento");
    reveal_strlit("Affaticato");
    reveal_strlit("Ammaliamento");
    reveal_strlit("Ancora Dimensionale");
    reveal_strlit("Armi Taglienti");
    reveal_strlit("Armi contundenti");
    reveal_strlit("Assorbimento del Fuoco");
    reveal_strlit("Attacchi Furtivi");
    reveal_strlit("Attacchi ai Fianchi");
    reveal_strlit("Attacchi basati sull'olfatto");
    reveal_strlit("Attacchi basati sulla vista");
    reveal_strlit("Attacchi basati sulla vista o sguardo");
    reveal_strlit("Attacchi con Sguardo");
    reveal_strlit("Attacchi con lo sguardo");
    reveal_strlit("Attacchi dipendenti dalla vista");
    reveal_strlit("Barcollante");
    reveal_strlit("Barcollare");
    reveal_strlit("Cecità");
    reveal_strlit("Charme");
    reveal_strlit("Colpi Critici");
    reveal_strlit("Colpi critici");
    reveal_strlit("Condizione Affaticato");
    reveal_strlit("Condizione Esausto");
    reveal_strlit("Confusione");
    reveal_strlit("Congedo");
    reveal_strlit("Danni Non Letali");
    reveal_strlit("Danni alle caratteristiche");
    reveal_strlit("Danni contundenti");
    reveal_strlit("Danni da arma");
    reveal_strlit("Danni da armi");
    reveal_strlit("Danni dalle Armi");
    reveal_strlit("Danni e risucchi alle caratteristiche");
    reveal_strlit("Danni e risucchi di caratteristiche");
    reveal_strlit("Danni e risucchio alle Caratteristiche");
    reveal_strlit("Danni e risucchio di caratteristiche");
    reveal_strlit("Danni perforanti e taglienti");
    reveal_strlit("Danno alle Caratteristiche");
    reveal_strlit("Danno da Pressione");
    reveal_strlit("Danno da arma");
    reveal_strlit("Danno e risucchio alle caratteristiche");
    reveal_strlit("Danno non letale");
    reveal_strlit("Dardo Incantato");
    reveal_strlit("Demenza");
    reveal_strlit("Divinazione");
    reveal_strlit("Dolore");
    reveal_strlit("Effetti a completamento di incantesimo e ad attivazione di incantesimo");
    reveal_strlit("Effetti basati sulla vista");
    reveal_strlit("Effetti d'influenza mentale");
    reveal_strlit("Effetti di Charme e Compulsione");
    reveal_strlit("Effetti di Demenza");
    reveal_strlit("Effetti di Influenza Mentale");
    reveal_strlit("Effetti di Morte");
    reveal_strlit("Effetti di Paura");
    reveal_strlit("Effetti di Sonno");
    reveal_strlit("Effetti di charme");
    reveal_strlit("Effetti di charme e compulsioni");
    reveal_strlit("Effetti di confusione e follia");
    reveal_strlit("Effetti di dolore");
    reveal_strlit("Effetti di forza");
    reveal_strlit("Effetti di influenza mentale");
    reveal_strlit("Effetti di morte");
    reveal_strlit("Effetti di morte (vedi sotto)");
    reveal_strlit("Effetti di paura");
    reveal_strlit("Effetti di sonno");
    reveal_strlit("Effetti visivi");
    reveal_strlit("Elettricità");
    reveal_strlit("Elettricità (parziale)");
    reveal_strlit("Energia Negativa");
    reveal_strlit("Energia Positiva");
    reveal_strlit("Esaurimento");
    reveal_strlit("Esausto");
    reveal_strlit("Fatica");
    reveal_strlit("Fiancheggiamento");
    reveal_strlit("Forza");
    reveal_strlit("Frastornamento");
    reveal_strlit("Frastornato");
    reveal_strlit("Freddo");
    reveal_strlit("Freddo (sé stesso e chi lo cavalca)");
    reveal_strlit("Fuoco");
    reveal_strlit("Fuoco Infernale");
    reveal_strlit("Illusione");
    reveal_strlit("Illusioni e qualsiasi attacco basato sulla vista");
    reveal_strlit("Immunità agli Incantesimi");
    reveal_strlit("Immunità al Freddo");
    reveal_strlit("Immunità all'Esilio");
    reveal_strlit("Immunità alla Magia");
    reveal_strlit("Incantesimi di Ammaliamento e di Illusione");
    reveal_strlit("Individuazione dei Pensieri");
    reveal_strlit("Individuazione dell'Allineamento");
    reveal_strlit("Infermità");
    reveal_strlit("Infermo");
    reveal_strlit("Invecchiamento");
    reveal_strlit("Livelli Negativi");
    reveal_strlit("Magia");
    reveal_strlit("Malattia");
    reveal_strlit("Malattie");
    reveal_strlit("Maledizioni");
    reveal_strlit("Metamorfosi");
    reveal_strlit("Nausea");
    reveal_strlit("Nauseato");
    reveal_strlit("Non Deformante");
    reveal_strlit("Paralisi");
    reveal_strlit("Paura");
    reveal_strlit("Pietrificazione");
    reveal_strlit("Richiamo");
    reveal_strlit("Risucchi di Energia");
    reveal_strlit("Risucchio di Caratteristiche");
    reveal_strlit("Risucchio di Energia");
    reveal_strlit("Rivela Bugie");
    reveal_strlit("Sanguinamento");
    reveal_strlit("Sanguinamento (solo Punti Ferita)");
    reveal_strlit("Scosso");
    reveal_strlit("Sguardo");
    reveal_strlit("Sonno");
    reveal_strlit("Sonoro");
    reveal_strlit("Sordità");
    reveal_strlit("Spaventato");
    reveal_strlit("Stordimento");
    reveal_strlit("Tratti degli Elementali");
    reveal_strlit("Tratti degli Sciami");
    reveal_strlit("Tratti dei Costrutti");
    reveal_strlit("Tratti dei Draghi");
    reveal_strlit("Tratti dei Non Morti");
    reveal_strlit("Tratti dei Vegetali");
    reveal_strlit("Tratti delle Melme");
    reveal_strlit("Veleni");
    reveal_strlit("Veleno");
    reveal_strlit("Veleno Ingerito");
    reveal_strlit("acido");
    reveal_strlit("attacchi basati sulla vista ed effetti visivi");
    reveal_strlit("attacchi con Sguardo");
    reveal_strlit("attacchi con lo Sguardo");
    reveal_strlit("attacchi con lo sguardo");
    reveal_strlit("charme");
    reveal_strlit("charme sui mostri");
    reveal_strlit("compulsione");
    reveal_strlit("controllo mentale");
    reveal_strlit("contundente");
    reveal_strlit("da caduta e da schiacciamento");
    reveal_strlit("danni alle Caratteristiche");
    reveal_strlit("danni alle caratteristiche");
    reveal_strlit("danni contundenti");
    reveal_strlit("danni contundenti e perforanti");
    reveal_strlit("danni da arma");
    reveal_strlit("danni da armi");
    reveal_strlit("danni da precisione");
    reveal_strlit("danni delle armi");
    reveal_strlit("danni di precisione");
    reveal_strlit("danni e risucchi di Caratteristiche");
    reveal_strlit("danni perforanti");
    reveal_strlit("danni taglienti");
    reveal_strlit("danni taglienti e perforanti");
    reveal_strlit("danno da arma");
    reveal_strlit("danno di precisione");
    reveal_strlit("di influenza mentale e basati sullo Sguardo");
    reveal_strlit("divinazione");
    reveal_strlit("dolore");
    reveal_strlit("effetti Barcollanti");
    reveal_strlit("effetti basati sulla vista");
    reveal_strlit("effetti che bersagliano uno specifico numero di creature");
    reveal_strlit("effetti di Charme e Compulsione");
    reveal_strlit("effetti di Metamorfosi");
    reveal_strlit("effetti di Paura");
    reveal_strlit("effetti di Paura ed influenza mentale");
    reveal_strlit("effetti di Sguardo");
    reveal_strlit("effetti di Sonno");
    reveal_strlit("effetti di ammaliamento");
    reveal_strlit("effetti di charme");
    reveal_strlit("effetti di charme e compulsione");
    reveal_strlit("effetti di charme e compulsioni");
    reveal_strlit("effetti di compulsione");
    reveal_strlit("effetti di confusione e demenza");
    reveal_strlit("effetti di demenza");
    reveal_strlit("effetti di influenza mentale");
    reveal_strlit("effetti di influenza mentale e visivi");
    reveal_strlit("effetti di luce");
    reveal_strlit("effetti di maledizione");
    reveal_strlit("effetti di maledizioni");
    reveal_strlit("effetti di metamorfosi");
    reveal_strlit("effetti di morte");
    reveal_strlit("effetti di necromanzia");
    reveal_strlit("effetti di paura");
    reveal_strlit("effetti di sguardo");
    reveal_strlit("effetti di sonno");
    reveal_strlit("effetti e illusioni visive");
    reveal_strlit("effetti polimorfi");
    reveal_strlit("effetti sensoriali");
    reveal_strlit("effetti visivi");
    reveal_strlit("effetti visivi e illusioni");
    reveal_strlit("elettricità");
    reveal_strlit("emozioni");
    reveal_strlit("energia negativa");
    reveal_strlit("ferite permanenti");
    reveal_strlit("forza");
    reveal_strlit("freddo");
    reveal_strlit("fulmine");
    reveal_strlit("fuoco");
    reveal_strlit("illusioni");
    reveal_strlit("illusioni visive");
    reveal_strlit("invecchiamento");
    reveal_strlit("livelli negativi");
    reveal_strlit("malattia");
    reveal_strlit("malattie");
    reveal_strlit("maledizioni");
    reveal_strlit("metamorfosi");
    reveal_strlit("nausea");
    reveal_strlit("palla di fuoco");
    reveal_strlit("paralisi");
    reveal_strlit("paura");
    reveal_strlit("pietrificazione");
    reveal_strlit("possessione");
    reveal_strlit("risucchi di caratteristiche");
    reveal_strlit("risucchi di energia");
    reveal_strlit("risucchio di caratteristica");
    reveal_strlit("risucchio di caratteristiche");
    reveal_strlit("risucchio di energia");
    reveal_strlit("ruggine");
    reveal_strlit("sanguinamento");
    reveal_strlit("sonno");
    reveal_strlit("sonoro");
    reveal_strlit("sordità");
    reveal_strlit("stordimento");
    reveal_strlit("tratti dei Draghi");
    reveal_strlit("veleni");
    reveal_strlit("veleno");
    reveal_strlit("visivi ed illusori");
    assert("Abbagliamenti"@.len() == 13);
    assert("Abbagliamento"@.len() == 13);
    assert("Abbagliato"@.len() == 10);
    assert("Accecato"@.len() == 8);
    assert("Acido"@.len() == 5);
    assert("Affaticamento"@.len() == 13);
    assert("Affaticato"@.len() == 10);
    assert("Ammaliamento"@.len() == 12);
    assert("Ancora Dimensionale"@.len() == 19);
    assert("Armi Taglienti"@.len() == 14);
    assert("Armi contundenti"@.len() == 16);
    assert("Assorbimento del Fuoco"@.len() == 22);
    assert("Attacchi Furtivi"@.len() == 16);
    assert("Attacchi ai Fianchi"@.len() == 19);
    assert("Attacchi basati sull'olfatto"@.len() == 28);
    assert("Attacchi basati sulla vista"@.len() == 27);
    assert("Attacchi basati sulla vista o sguardo"@.len() == 37);
    assert("Attacchi con Sguardo"@.len() == 20);
    assert("Attacchi con lo sguardo"@.len() == 23);
    assert("Attacchi dipendenti dalla vista"@.len() == 31);
    assert("Barcollante"@.len() == 11);
    assert("Barcollare"@.len() == 10);
    assert("Cecità"@.len() == 6);
    assert("Charme"@.len() == 6);
    assert("Colpi Critici"@.len() == 13);
    assert("Colpi critici"@.len() == 13);
    assert("Condizione Affaticato"@.len() == 21);
    assert("Condizione Esausto"@.len() == 18);
    assert("Confusione"@.len() == 10);
    assert("Congedo"@.len() == 7);
    assert("Danni Non Letali"@.len() == 16);
    assert("Danni alle caratteristiche"@.len() == 26);
    assert("Danni contundenti"@.len() == 17);
    assert("Danni da arma"@.len() == 13);
    assert("Danni da armi"@.len() == 13);
    assert("Danni dalle Armi"@.len() == 16);
    assert("Danni e risucchi alle caratteristiche"@.len() == 37);
    assert("Danni e risucchi di caratteristiche"@.len() == 35);
    assert("Danni e risucchio alle Caratteristiche"@.len() == 38);
    assert("Danni e risucchio di caratteristiche"@.len() == 36);
    assert("Danni perforanti e taglienti"@.len() == 28);
    assert("Danno alle Caratteristiche"@.len() == 26);
    assert("Danno da Pressione"@.len() == 18);
    assert("Danno da arma"@.len() == 13);
    assert("Danno e risucchio alle caratteristiche"@.len() == 38);
    assert("Danno non letale"@.len() == 16);
    assert("Dardo Incantato"@.len() == 15);
    assert("Demenza"@.len() == 7);
    assert("Divinazione"@.len() == 11);
    assert("Dolore"@.len() == 6);
    assert("Effetti a completamento di incantesimo e ad attivazione di incantesimo"@.len() == 70);
    assert("Effetti basati sulla vista"@.len() == 26);
    assert("Effetti d'influenza mentale"@.len() == 27);
    assert("Effetti di Charme e Compulsione"@.len() == 31);
    assert("Effetti di Demenza"@.len() == 18);
    assert("Effetti di Influenza Mentale"@.len() == 28);
    assert("Effetti di Morte"@.len() == 16);
    assert("Effetti di Paura"@.len() == 16);
    assert("Effetti di Sonno"@.len() == 16);
    assert("Effetti di charme"@.len() == 17);
    assert("Effetti di charme e compulsioni"@.len() == 31);
    assert("Effetti di confusione e follia"@.len() == 30);
    assert("Effetti di dolore"@.len() == 17);
    assert("Effetti di forza"@.len() == 16);
    assert("Effetti di influenza mentale"@.len() == 28);
    assert("Effetti di morte"@.len() == 16);
    assert("Effetti di morte (vedi sotto)"@.len() == 29);
    assert("Effetti di paura"@.len() == 16);
    assert("Effetti di sonno"@.len() == 16);
    assert("Effetti visivi"@.len() == 14);
    assert("Elettricità"@.len() == 11);
    assert("Elettricità (parziale)"@.len() == 22);
    assert("Energia Negativa"@.len() == 16);
    assert("Energia Positiva"@.len() == 16);
    assert("Esaurimento"@.len() == 11);
    assert("Esausto"@.len() == 7);
    assert("Fatica"@.len() == 6);
    assert("Fiancheggiamento"@.len() == 16);
    assert("Forza"@.len() == 5);
    assert("Frastornamento"@.len() == 14);
    assert("Frastornato"@.len() == 11);
    assert("Freddo"@.len() == 6);
    assert("Freddo (sé stesso e chi lo cavalca)"@.len() == 35);
    assert("Fuoco"@.len() == 5);
    assert("Fuoco Infernale"@.len() == 15);
    assert("Illusione"@.len() == 9);
    assert("Illusioni e qualsiasi attacco basato sulla vista"@.len() == 48);
    assert("Immunità agli Incantesimi"@.len() == 25);
    assert("Immunità al Freddo"@.len() == 18);
    assert("Immunità all'Esilio"@.len() == 19);
    assert("Immunità alla Magia"@.len() == 19);
    assert("Incantesimi di Ammaliamento e di Illusione"@.len() == 42);
    assert("Individuazione dei Pensieri"@.len() == 27);
    assert("Individuazione dell'Allineamento"@.len() == 32);
    assert("Infermità"@.len() == 9);
    assert("Infermo"@.len() == 7);
    assert("Invecchiamento"@.len() == 14);
    assert("Livelli Negativi"@.len() == 16);
    assert("Magia"@.len() == 5);
    assert("Malattia"@.len() == 8);
    assert("Malattie"@.len() == 8);
    assert("Maledizioni"@.len() == 11);
    assert("Metamorfosi"@.len() == 11);
    assert("Nausea"@.len() == 6);
    assert("Nauseato"@.len() == 8);
    assert("Non Deformante"@.len() == 14);
    assert("Paralisi"@.len() == 8);
    assert("Paura"@.len() == 5);
    assert("Pietrificazione"@.len() == 15);
    assert("Richiamo"@.len() == 8);
    assert("Risucchi di Energia"@.len() == 19);
    assert("Risucchio di Caratteristiche"@.len() == 28);
    assert("Risucchio di Energia"@.len() == 20);
    assert("Rivela Bugie"@.len() == 12);
    assert("Sanguinamento"@.len() == 13);
    assert("Sanguinamento (solo Punti Ferita)"@.len() == 33);
    assert("Scosso"@.len() == 6);
    assert("Sguardo"@.len() == 7);
    assert("Sonno"@.len() == 5);
    assert("Sonoro"@.len() == 6);
    assert("Sordità"@.len() == 7);
    assert("Spaventato"@.len() == 10);
    assert("Stordimento"@.len() == 11);
    assert("Tratti degli Elementali"@.len() == 23);
    assert("Tratti degli Sciami"@.len() == 19);
    assert("Tratti dei Costrutti"@.len() == 20);
    assert("Tratti dei Draghi"@.len() == 17);
    assert("Tratti dei Non Morti"@.len() == 20);
    assert("Tratti dei Vegetali"@.len() == 19);
    assert("Tratti delle Melme"@.len() == 18);
    assert("Veleni"@.len() == 6);
    assert("Veleno"@.len() == 6);
    assert("Veleno Ingerito"@.len() == 15);
    assert("acido"@.len() == 5);
    assert("attacchi basati sulla vista ed effetti visivi"@.len() == 45);
    assert("attacchi con Sguardo"@.len() == 20);
    assert("attacchi con lo Sguardo"@.len() == 23);
    assert("attacchi con lo sguardo"@.len() == 23);
    assert("charme"@.len() == 6);
    assert("charme sui mostri"@.len() == 17);
    assert("compulsione"@.len() == 11);
    assert("controllo mentale"@.len() == 17);
    assert("contundente"@.len() == 11);
    assert("da caduta e da schiacciamento"@.len() == 29);
    assert("danni alle Caratteristiche"@.len() == 26);
    assert("danni alle caratteristiche"@.len() == 26);
    assert("danni contundenti"@.len() == 17);
    assert("danni contundenti e perforanti"@.len() == 30);
    assert("danni da arma"@.len() == 13);
    assert("danni da armi"@.len() == 13);
    assert("danni da precisione"@.len() == 19);
    assert("danni delle armi"@.len() == 16);
    assert("danni di precisione"@.len() == 19);
    assert("danni e risucchi di Caratteristiche"@.len() == 35);
    assert("danni perforanti"@.len() == 16);
    assert("danni taglienti"@.len() == 15);
    assert("danni taglienti e perforanti"@.len() == 28);
    assert("danno da arma"@.len() == 13);
    assert("danno di precisione"@.len() == 19);
    assert("di influenza mentale e basati sullo Sguardo"@.len() == 43);
    assert("divinazione"@.len() == 11);
    assert("dolore"@.len() == 6);
    assert("effetti Barcollanti"@.len() == 19);
    assert("effetti basati sulla vista"@.len() == 26);
    assert("effetti che bersagliano uno specifico numero di creature"@.len() == 56);
    assert("effetti di Charme e Compulsione"@.len() == 31);
    assert("effetti di Metamorfosi"@.len() == 22);
    assert("effetti di Paura"@.len() == 16);
    assert("effetti di Paura ed influenza mentale"@.len() == 37);
    assert("effetti di Sguardo"@.len() == 18);
    assert("effetti di Sonno"@.len() == 16);
    assert("effetti di ammaliamento"@.len() == 23);
    assert("effetti di charme"@.len() == 17);
    assert("effetti di charme e compulsione"@.len() == 31);
    assert("effetti di charme e compulsioni"@.len() == 31);
    assert("effetti di compulsione"@.len() == 22);
    assert("effetti di confusione e demenza"@.len() == 31);
    assert("effetti di demenza"@.len() == 18);
    assert("effetti di influenza mentale"@.len() == 28);
    assert("effetti di influenza mentale e visivi"@.len() == 37);
    assert("effetti di luce"@.len() == 15);
    assert("effetti di maledizione"@.len() == 22);
    assert("effetti di maledizioni"@.len() == 22);
    assert("effetti di metamorfosi"@.len() == 22);
    assert("effetti di morte"@.len() == 16);
    assert("effetti di necromanzia"@.len() == 22);
    assert("effetti di paura"@.len() == 16);
    assert("effetti di sguardo"@.len() == 18);
    assert("effetti di sonno"@.len() == 16);
    assert("effetti e illusioni visive"@.len() == 26);
    assert("effetti polimorfi"@.len() == 17);
    assert("effetti sensoriali"@.len() == 18);
    assert("effetti visivi"@.len() == 14);
    assert("effetti visivi e illusioni"@.len() == 26);
    assert("elettricità"@.len() == 11);
    assert("emozioni"@.len() == 8);
    assert("energia negativa"@.len() == 16);
    assert("ferite permanenti"@.len() == 17);
    assert("forza"@.len() == 5);
    assert("freddo"@.len() == 6);
    assert("fulmine"@.len() == 7);
    assert("fuoco"@.len() == 5);
    assert("illusioni"@.len() == 9);
    assert("illusioni visive"@.len() == 16);
    assert("invecchiamento"@.len() == 14);
    assert("livelli negativi"@.len() == 16);
    assert("malattia"@.len() == 8);
    assert("malattie"@.len() == 8);
    assert("maledizioni"@.len() == 11);
    assert("metamorfosi"@.len() == 11);
    assert("nausea"@.len() == 6);
    assert("palla di fuoco"@.len() == 14);
    assert("paralisi"@.len() == 8);
    assert("paura"@.len() == 5);
    assert("pietrificazione"@.len() == 15);
    assert("possessione"@.len() == 11);
    assert("risucchi di caratteristiche"@.len() == 27);
    assert("risucchi di energia"@.len() == 19);
    assert("risucchio di caratteristica"@.len() == 27);
    assert("risucchio di caratteristiche"@.len() == 28);
    assert("risucchio di energia"@.len() == 20);
    assert("ruggine"@.len() == 7);
    assert("sanguinamento"@.len() == 13);
    assert("sonno"@.len() == 5);
    assert("sonoro"@.len() == 6);
    assert("sordità"@.len() == 7);
    assert("stordimento"@.len() == 11);
    assert("tratti dei Draghi"@.len() == 17);
    assert("veleni"@.len() == 6);
    assert("veleno"@.len() == 6);
    assert("visivi ed illusori"@.len() == 18);
    assert("Dardo Incantato"@[0] != "Fuoco Infernale"@[0]);
    assert("Dardo Incantato"@ != "Fuoco Infernale"@);
    assert("Dardo Incantato"@[0] != "Pietrificazione"@[0]);
    assert("Dardo Incantato"@ != "Pietrificazione"@);
    assert("Dardo Incantato"@[0] != "pietrificazione"@[0]);
    assert("Dardo Incantato"@ != "pietrificazione"@);
    assert("Dardo Incantato"@[0] != "Veleno Ingerito"@[0]);
    assert("Dardo Incantato"@ != "Veleno Ingerito"@);
    assert("Dardo Incantato"@[0] != "danni taglienti"@[0]);
    assert("Dardo Incantato"@ != "danni taglienti"@);
    assert("Dardo Incantato"@[0] != "effetti di luce"@[0]);
    assert("Dardo Incantato"@ != "effetti di luce"@);
}

proof fn lemma_read_immunity_calmemotions(s: Seq<char>)
    requires
        immunity_named(Immunity_Type::Immunity_CalmEmotions, s),
    ensures
        spec_single_immunity(s) == Some(Immunity_Type::Immunity_CalmEmotions),
{
    reveal_strlit("Abbagliamenti");
    reveal_strlit("Abbagliamento");
    reveal_strlit("Abbagliato");
    reveal_strlit("Accecato");
    reveal_strlit("Acido");
    reveal_strlit("Affaticamento");
    reveal_strlit("Affaticato");
    reveal_strlit("Ammaliamento");
    reveal_strlit("Ancora Dimensionale");
    reveal_strlit("Armi Taglienti");
    reveal_strlit("Armi contundenti");
    reveal_strlit("Assorbimento del Fuoco");
    reveal_strlit("Attacchi Furtivi");
    reveal_strlit("Attacchi ai Fianchi");
    reveal_strlit("Attacchi basati sull'olfatto");
    reveal_strlit("Attacchi basati sulla vista");
    reveal_strlit("Attacchi basati sulla vista o sguardo");
    reveal_strlit("Attacchi con Sguardo");
    reveal_strlit("Attacchi con lo sguardo");
    reveal_strlit("Attacchi dipendenti dalla vista");
    reveal_strlit("Barcollante");
    reveal_strlit("Barcollare");
    reveal_strlit("Calmare Emozioni");
    reveal_strlit("Cecità");
    reveal_strlit("Charme");
    reveal_strlit("Colpi Critici");
    reveal_strlit("Colpi critici");
    reveal_strlit("Condizione Affaticato");
    reveal_strlit("Condizione Esausto");
    reveal_strlit("Confusione");
    reveal_strlit("Congedo");
    reveal_strlit("Danni Non Letali");
    reveal_strlit("Danni alle caratteristiche");
    reveal_strlit("Danni contundenti");
    reveal_strlit("Danni da arma");
    reveal_strlit("Danni da armi");
    reveal_strlit("Danni dalle Armi");
    reveal_strlit("Danni e risucchi alle caratteristiche");
    reveal_strlit("Danni e risucchi di caratteristiche");
    reveal_strlit("Danni e risucchio alle Caratteristiche");
    reveal_strlit("Danni e risucchio di caratteristiche");
    reveal_strlit("Danni perforanti e taglienti");
    reveal_strlit("Danno alle Caratteristiche");
    reveal_strlit("Danno da Pressione");
    reveal_strlit("Danno da arma");
    reveal_strlit("Danno e risucchio alle caratteristiche");
    reveal_strlit("Danno non letale");
    reveal_strlit("Dardo Incantato");
    reveal_strlit("Demenza");
    reveal_strlit("Divinazione");
    reveal_strlit("Dolore");
    reveal_strlit("Effetti a completamento di incantesimo e ad attivazione di incantesimo");
    reveal_strlit("Effetti basati sulla vista");
    reveal_strlit("Effetti d'influenza mentale");
    reveal_strlit("Effetti di Charme e Compulsione");
    reveal_strlit("Effetti di Demenza");
    reveal_strlit("Effetti di Influenza Mentale");
    reveal_strlit("Effetti di Morte");
    reveal_strlit("Effetti di Paura");
    reveal_strlit("Effetti di Sonno");
    reveal_strlit("Effetti di charme");
    reveal_strlit("Effetti di charme e compulsioni");
    reveal_strlit("Effetti di confusione e follia");
    reveal_strlit("Effetti di dolore");
    reveal_strlit("Effetti di forza");
    reveal_strlit("Effetti di influenza mentale");
    reveal_strlit("Effetti di morte");
    reveal_strlit("Effetti di morte (vedi sotto)");
    reveal_strlit("Effetti di paura");
    reveal_strlit("Effetti di sonno");
    reveal_strlit("Effetti visivi");
    reveal_strlit("Elettricità");
    reveal_strlit("Elettricità (parziale)");
    reveal_strlit("Energia Negativa");
    reveal_strlit("Energia Positiva");
    reveal_strlit("Esaurimento");
    reveal_strlit("Esausto");
    reveal_strlit("Fatica");
    reveal_strlit("Fiancheggiamento");
    reveal_strlit("Forza");
    reveal_strlit("Frastornamento");
    reveal_strlit("Frastornato");
    reveal_strlit("Freddo");
    reveal_strlit("Freddo (sé stesso e chi lo cavalca)");
    reveal_strlit("Fuoco");
    reveal_strlit("Fuoco Infernale");
    reveal_strlit("Illusione");
    reveal_strlit("Illusioni e qualsiasi attacco basato sulla vista");
    reveal_strlit("Immunità agli Incantesimi");
    reveal_strlit("Immunità al Freddo");
    reveal_strlit("Immunità all'Esilio");
    reveal_strlit("Immunità alla Magia");
    reveal_strlit("Incantesimi di Ammaliamento e di Illusione");
    reveal_strlit("Individuazione dei Pensieri");
    reveal_strlit("Individuazione dell'Allineamento");
    reveal_strlit("Infermità");
    reveal_strlit("Infermo");
    reveal_strlit("Invecchiamento");
    reveal_strlit("Livelli Negativi");
    reveal_strlit("Magia");
    reveal_strlit("Malattia");
    reveal_strlit("Malattie");
    reveal_strlit("Maledizioni");
    reveal_strlit("Metamorfosi");
    reveal_strlit("Nausea");
    reveal_strlit("Nauseato");
    reveal_strlit("Non Deformante");
    reveal_strlit("Paralisi");
    reveal_strlit("Paura");
    reveal_strlit("Pietrificazione");
    reveal_strlit("Richiamo");
    reveal_strlit("Risucchi di Energia");
    reveal_strlit("Risucchio di Caratteristiche");
    reveal_strlit("Risucchio di Energia");
    reveal_strlit("Rivela Bugie");
    reveal_strlit("Sanguinamento");
    reveal_strlit("Sanguinamento (solo Punti Ferita)");
    reveal_strlit("Scosso");
    reveal_strlit("Sguardo");
    reveal_strlit("Sonno");
    reveal_strlit("Sonoro");
    reveal_strlit("Sordità");
    reveal_strlit("Spaventato");
    reveal_strlit("Stordimento");
    reveal_strlit("Tratti degli Elementali");
    reveal_strlit("Tratti degli Sciami");
    reveal_strlit("Tratti dei Costrutti");
    reveal_strlit("Tratti dei Draghi");
    reveal_strlit("Tratti dei Non Morti");
    reveal_strlit("Tratti dei Vegetali");
    reveal_strlit("Tratti delle Melme");
    reveal_strlit("Veleni");
    reveal_strlit("Veleno");
    reveal_strlit("Veleno Ingerito");
    reveal_strlit("acido");
    reveal_strlit("attacchi basati sulla vista ed effetti visivi");
    reveal_strlit("attacchi con Sguardo");
    reveal_strlit("attacchi con lo Sguardo");
    reveal_strlit("attacchi con lo sguardo");
    reveal_strlit("charme");
    reveal_strlit("charme sui mostri");
    reveal_strlit("compulsione");
    reveal_strlit("controllo mentale");
    reveal_strlit("contundente");
    reveal_strlit("da caduta e da schiacciamento");
    reveal_strlit("danni alle Caratteristiche");
    reveal_strlit("danni alle caratteristiche");
    reveal_strlit("danni contundenti");
    reveal_strlit("danni contundenti e perforanti");
    reveal_strlit("danni da arma");
    reveal_strlit("danni da armi");
    reveal_strlit("danni da precisione");
    reveal_strlit("danni delle armi");
    reveal_strlit("danni di precisione");
    reveal_strlit("danni e risucchi di Caratteristiche");
    reveal_strlit("danni perforanti");
    reveal_strlit("danni taglienti");
    reveal_strlit("danni taglienti e perforanti");
    reveal_strlit("danno da arma");
    reveal_strlit("danno di precisione");
    reveal_strlit("di influenza mentale e basati sullo Sguardo");
    reveal_strlit("divinazione");
    reveal_strlit("dolore");
    reveal_strlit("effetti Barcollanti");
    reveal_strlit("effetti basati sulla vista");
    reveal_strlit("effetti che bersagliano uno specifico numero di creature");
    reveal_strlit("effetti di Charme e Compulsione");
    reveal_strlit("effetti di Metamorfosi");
    reveal_strlit("effetti di Paura");
    reveal_strlit("effetti di Paura ed influenza mentale");
    reveal_strlit("effetti di Sguardo");
    reveal_strlit("effetti di Sonno");
    reveal_strlit("effetti di ammaliamento");
    reveal_strlit("effetti di charme");
    reveal_strlit("effetti di charme e compulsione");
    reveal_strlit("effetti di charme e compulsioni");
    reveal_strlit("effetti di compulsione");
    reveal_strlit("effetti di confusione e demenza");
    reveal_strlit("effetti di demenza");
    reveal_strlit("effetti di influenza mentale");
    reveal_strlit("effetti di influenza mentale e visivi");
    reveal_strlit("effetti di luce");
    reveal_strlit("effetti di maledizione");
    reveal_strlit("effetti di maledizioni");
    reveal_strlit("effetti di metamorfosi");
    reveal_strlit("effetti di morte");
    reveal_strlit("effetti di necromanzia");
    reveal_strlit("effetti di paura");
    reveal_strlit("effetti di sguardo");
    reveal_strlit("effetti di sonno");
    reveal_strlit("effetti e illusioni visive");
    reveal_strlit("effetti polimorfi");
    reveal_strlit("effetti sensoriali");
    reveal_strlit("effetti visivi");
    reveal_strlit("effetti visivi e illusioni");
    reveal_strlit("elettricità");
    reveal_strlit("emozioni");
    reveal_strlit("energia negativa");
    reveal_strlit("ferite permanenti");
    reveal_strlit("forza");
    reveal_strlit("freddo");
    reveal_strlit("fulmine");
    reveal_strlit("fuoco");
    reveal_strlit("illusioni");
    reveal_strlit("illusioni visive");
    reveal_strlit("invecchiamento");
    reveal_strlit("livelli negativi");
    reveal_strlit("malattia");
    reveal_strlit("malattie");
    reveal_strlit("maledizioni");
    reveal_strlit("metamorfosi");
    reveal_strlit("nausea");
    reveal_strlit("palla di fuoco");
    reveal_strlit("paralisi");
    reveal_strlit("paura");
    reveal_strlit("pietrificazione");
    reveal_strlit("possessione");
    reveal_strlit("risucchi di caratteristiche");
    reveal_strlit("risucchi di energia");
    reveal_strlit("risucchio di caratteristica");
    reveal_strlit("risucchio di caratteristiche");
    reveal_strlit("risucchio di energia");
    reveal_strlit("ruggine");
    reveal_strlit("sanguinamento");
    reveal_strlit("sonno");
    reveal_strlit("sonoro");
    reveal_strlit("sordità");
    reveal_strlit("stordimento");
    reveal_strlit("tratti dei Draghi");
    reveal_strlit("veleni");
    reveal_strlit("veleno");
    reveal_strlit("visivi ed illusori");
    assert("Abbagliamenti"@.len() == 13);
    assert("Abbagliamento"@.len() == 13);
    assert("Abbagliato"@.len() == 10);
    assert("Accecato"@.len() == 8);
    assert("Acido"@.len() == 5);
    assert("Affaticamento"@.len() == 13);
    assert("Affaticato"@.len() == 10);
    assert("Ammaliamento"@.len() == 12);
    assert("Ancora Dimensionale"@.len() == 19);
    assert("Armi Taglienti"@.len() == 14);
    assert("Armi contundenti"@.len() == 16);
    assert("Assorbimento del Fuoco"@.len() == 22);
    assert("Attacchi Furtivi"@.len() == 16);
    assert("Attacchi ai Fianchi"@.len() == 19);
    assert("Attacchi basati sull'olfatto"@.len() == 28);
    assert("Attacchi basati sulla vista"@.len() == 27);
    assert("Attacchi basati sulla vista o sguardo"@.len() == 37);
    assert("Attacchi con Sguardo"@.len() == 20);
    assert("Attacchi con lo sguardo"@.len() == 23);
    assert("Attacchi dipendenti dalla vista"@.len() == 31);
    assert("Barcollante"@.len() == 11);
    assert("Barcollare"@.len() == 10);
    assert("Calmare Emozioni"@.len() == 16);
    assert("Cecità"@.len() == 6);
    assert("Charme"@.len() == 6);
    assert("Colpi Critici"@.len() == 13);
    assert("Colpi critici"@.len() == 13);
    assert("Condizione Affaticato"@.len() == 21);
    assert("Condizione Esausto"@.len() == 18);
    assert("Confusione"@.len() == 10);
    assert("Congedo"@.len() == 7);
    assert("Danni Non Letali"@.len() == 16);
    assert("Danni alle caratteristiche"@.len() == 26);
    assert("Danni contundenti"@.len() == 17);
    assert("Danni da arma"@.len() == 13);
    assert("Danni da armi"@.len() == 13);
    assert("Danni dalle Armi"@.len() == 16);
    assert("Danni e risucchi alle caratteristiche"@.len() == 37);
    assert("Danni e risucchi di caratteristiche"@.len() == 35);
    assert("Danni e risucchio alle Caratteristiche"@.len() == 38);
    assert("Danni e risucchio di caratteristiche"@.len() == 36);
    assert("Danni perforanti e taglienti"@.len() == 28);
    assert("Danno alle Caratteristiche"@.len() == 26);
    assert("Danno da Pressione"@.len() == 18);
    assert("Danno da arma"@.len() == 13);
    assert("Danno e risucchio alle caratteristiche"@.len() == 38);
    assert("Danno non letale"@.len() == 16);
    assert("Dardo Incantato"@.len() == 15);
    assert("Demenza"@.len() == 7);
    assert("Divinazione"@.len() == 11);
    assert("Dolore"@.len() == 6);
    assert("Effetti a completamento di incantesimo e ad attivazione di incantesimo"@.len() == 70);
    assert("Effetti basati sulla vista"@.len() == 26);
    assert("Effetti d'influenza mentale"@.len() == 27);
    assert("Effetti di Charme e Compulsione"@.len() == 31);
    assert("Effetti di Demenza"@.len() == 18);
    assert("Effetti di Influenza Mentale"@.len() == 28);
    assert("Effetti di Morte"@.len() == 16);
    assert("Effetti di Paura"@.len() == 16);
    assert("Effetti di Sonno"@.len() == 16);
    assert("Effetti di charme"@.len() == 17);
    assert("Effetti di charme e compulsioni"@.len() == 31);
    assert("Effetti di confusione e follia"@.len() == 30);
    assert("Effetti di dolore"@.len() == 17);
    assert("Effetti di forza"@.len() == 16);
    assert("Effetti di influenza mentale"@.len() == 28);
    assert("Effetti di morte"@.len() == 16);
    assert("Effetti di morte (vedi sotto)"@.len() == 29);
    assert("Effetti di paura"@.len() == 16);
    assert("Effetti di sonno"@.len() == 16);
    assert("Effetti visivi"@.len() == 14);
    assert("Elettricità"@.len() == 11);
    assert("Elettricità (parziale)"@.len() == 22);
    assert("Energia Negativa"@.len() == 16);
    assert("Energia Positiva"@.len() == 16);
    assert("Esaurimento"@.len() == 11);
    assert("Esausto"@.len() == 7);
    assert("Fatica"@.len() == 6);
    assert("Fiancheggiamento"@.len() == 16);
    assert("Forza"@.len() == 5);
    assert("Frastornamento"@.len() == 14);
    assert("Frastornato"@.len() == 11);
    assert("Freddo"@.len() == 6);
    assert("Freddo (sé stesso e chi lo cavalca)"@.len() == 35);
    assert("Fuoco"@.len() == 5);
    assert("Fuoco Infernale"@.len() == 15);
    assert("Illusione"@.len() == 9);
    assert("Illusioni e qualsiasi attacco basato sulla vista"@.len() == 48);
    assert("Immunità agli Incantesimi"@.len() == 25);
    assert("Immunità al Freddo"@.len() == 18);
    assert("Immunità all'Esilio"@.len() == 19);
    assert("Immunità alla Magia"@.len() == 19);
    assert("Incantesimi di Ammaliamento e di Illusione"@.len() == 42);
    assert("Individuazione dei Pensieri"@.len() == 27);
    assert("Individuazione dell'Allineamento"@.len() == 32);
    assert("Infermità"@.len() == 9);
    assert("Infermo"@.len() == 7);
    assert("Invecchiamento"@.len() == 14);
    assert("Livelli Negativi"@.len() == 16);
    assert("Magia"@.len() == 5);
    assert("Malattia"@.len() == 8);
    assert("Malattie"@.len() == 8);
    assert("Maledizioni"@.len() == 11);
    assert("Metamorfosi"@.len() == 11);
    assert("Nausea"@.len() == 6);
    assert("Nauseato"@.len() == 8);
    assert("Non Deformante"@.len() == 14);
    assert("Paralisi"@.len() == 8);
    assert("Paura"@.len() == 5);
    assert("Pietrificazione"@.len() == 15);
    assert("Richiamo"@.len() == 8);
    assert("Risucchi di Energia"@.len() == 19);
    assert("Risucchio di Caratteristiche"@.len() == 28);
    assert("Risucchio di Energia"@.len() == 20);
    assert("Rivela Bugie"@.len() == 12);
    assert("Sanguinamento"@.len() == 13);
    assert("Sanguinamento (solo Punti Ferita)"@.len() == 33);
    assert("Scosso"@.len() == 6);
    assert("Sguardo"@.len() == 7);
    assert("Sonno"@.len() == 5);
    assert("Sonoro"@.len() == 6);
    assert("Sordità"@.len() == 7);
    assert("Spaventato"@.len() == 10);
    assert("Stordimento"@.len() == 11);
    assert("Tratti degli Elementali"@.len() == 23);
    assert("Tratti degli Sciami"@.len() == 19);
    assert("Tratti dei Costrutti"@.len() == 20);
    assert("Tratti dei Draghi"@.len() == 17);
    assert("Tratti dei Non Morti"@.len() == 20);
    assert("Tratti dei Vegetali"@.len() == 19);
    assert("Tratti delle Melme"@.len() == 18);
    assert("Veleni"@.len() == 6);
    assert("Veleno"@.len() == 6);
    assert("Veleno Ingerito"@.len() == 15);
    assert("acido"@.len() == 5);
    assert("attacchi basati sulla vista ed effetti visivi"@.len() == 45);
    assert("attacchi con Sguardo"@.len() == 20);
    assert("attacchi con lo Sguardo"@.len() == 23);
    assert("attacchi con lo sguardo"@.len() == 23);
    assert("charme"@.len() == 6);
    assert("charme sui mostri"@.len() == 17);
    assert("compulsione"@.len() == 11);
    assert("controllo mentale"@.len() == 17);
    assert("contundente"@.len() == 11);
    assert("da caduta e da schiacciamento"@.len() == 29);
    assert("danni alle Caratteristiche"@.len() == 26);
    assert("danni alle caratteristiche"@.len() == 26);
    assert("danni contundenti"@.len() == 17);
    assert("danni contundenti e perforanti"@.len() == 30);
    assert("danni da arma"@.len() == 13);
    assert("danni da armi"@.len() == 13);
    assert("danni da precisione"@.len() == 19);
    assert("danni delle armi"@.len() == 16);
    assert("danni di precisione"@.len() == 19);
    assert("danni e risucchi di Caratteristiche"@.len() == 35);
    assert("danni perforanti"@.len() == 16);
    assert("danni taglienti"@.len() == 15);
    assert("danni taglienti e perforanti"@.len() == 28);
    assert("danno da arma"@.len() == 13);
    assert("danno di precisione"@.len() == 19);
    assert("di influenza mentale e basati sullo Sguardo"@.len() == 43);
    assert("divinazione"@.len() == 11);
    assert("dolore"@.len() == 6);
    assert("effetti Barcollanti"@.len() == 19);
    assert("effetti basati sulla vista"@.len() == 26);
    assert("effetti che bersagliano uno specifico numero di creature"@.len() == 56);
    assert("effetti di Charme e Compulsione"@.len() == 31);
    assert("effetti di Metamorfosi"@.len() == 22);
    assert("effetti di Paura"@.len() == 16);
    assert("effetti di Paura ed influenza mentale"@.len() == 37);
    assert("effetti di Sguardo"@.len() == 18);
    assert("effetti di Sonno"@.len() == 16);
    assert("effetti di ammaliamento"@.len() == 23);
    assert("effetti di charme"@.len() == 17);
    assert("effetti di charme e compulsione"@.len() == 31);
    assert("effetti di charme e compulsioni"@.len() == 31);
    assert("effetti di compulsione"@.len() == 22);
    assert("effetti di confusione e demenza"@.len() == 31);
    assert("effetti di demenza"@.len() == 18);
    assert("effetti di influenza mentale"@.len() == 28);
    assert("effetti di influenza mentale e visivi"@.len() == 37);
    assert("effetti di luce"@.len() == 15);
    assert("effetti di maledizione"@.len() == 22);
    assert("effetti di maledizioni"@.len() == 22);
    assert("effetti di metamorfosi"@.len() == 22);
    assert("effetti di morte"@.len() == 16);
    assert("effetti di necromanzia"@.len() == 22);
    assert("effetti di paura"@.len() == 16);
    assert("effetti di sguardo"@.len() == 18);
    assert("effetti di sonno"@.len() == 16);
    assert("effetti e illusioni visive"@.len() == 26);
    assert("effetti polimorfi"@.len() == 17);
    assert("effetti sensoriali"@.len() == 18);
    assert("effetti visivi"@.len() == 14);
    assert("effetti visivi e illusioni"@.len() == 26);
    assert("elettricità"@.len() == 11);
    assert("emozioni"@.len() == 8);
    assert("energia negativa"@.len() == 16);
    assert("ferite permanenti"@.len() == 17);
    assert("forza"@.len() == 5);
    assert("freddo"@.len() == 6);
    assert("fulmine"@.len() == 7);
    assert("fuoco"@.len() == 5);
    assert("illusioni"@.len() == 9);
    assert("illusioni visive"@.len() == 16);
    assert("invecchiamento"@.len() == 14);
    assert("livelli negativi"@.len() == 16);
    assert("malattia"@.len() == 8);
    assert("malattie"@.len() == 8);
    assert("maledizioni"@.len() == 11);
    assert("metamorfosi"@.len() == 11);
    assert("nausea"@.len() == 6);
    assert("palla di fuoco"@.len() == 14);
    assert("paralisi"@.len() == 8);
    assert("paura"@.len() == 5);
    assert("pietrificazione"@.len() == 15);
    assert("possessione"@.len() == 11);
    assert("risucchi di caratteristiche"@.len() == 27);
    assert("risucchi di energia"@.len() == 19);
    assert("risucchio di caratteristica"@.len() == 27);
    assert("risucchio di caratteristiche"@.len() == 28);
    assert("risucchio di energia"@.len() == 20);
    assert("ruggine"@.len() == 7);
    assert("sanguinamento"@.len() == 13);
    assert("sonno"@.len() == 5);
    assert("sonoro"@.len() == 6);
    assert("sordità"@.len() == 7);
    assert("stordimento"@.len() == 11);
    assert("tratti dei Draghi"@.len() == 17);
    assert("veleni"@.len() == 6);
    assert("veleno"@.len() == 6);
    assert("visivi ed illusori"@.len() == 18);
    assert("Calmare Emozioni"@[0] != "Energia Negativa"@[0]);
    assert("Calmare Emozioni"@ != "Energia Negativa"@);
    assert("Calmare Emozioni"@[0] != "energia negativa"@[0]);
    assert("Calmare Emozioni"@ != "energia negativa"@);
    assert("Calmare Emozioni"@[0] != "Energia Positiva"@[0]);
    assert("Calmare Emozioni"@ != "Energia Positiva"@);
    assert("Calmare Emozioni"@[0] != "energia negativa"@[0]);
    assert("Calmare Emozioni"@ != "energia negativa"@);
    assert("Calmare Emozioni"@[0] != "effetti di sonno"@[0]);
    assert("Calmare Emozioni"@ != "effetti di sonno"@);
    assert("Calmare Emozioni"@[0] != "Effetti di Sonno"@[0]);
    assert("Calmare Emozioni"@ != "Effetti di Sonno"@);
    assert("Calmare Emozioni"@[0] != "Effetti di sonno"@[0]);
    assert("Calmare Emozioni"@ != "Effetti di sonno"@);
    assert("Calmare Emozioni"@[0] != "effetti di Sonno"@[0]);
    assert("Calmare Emozioni"@ != "effetti di Sonno"@);
    assert("Calmare Emozioni"@[0] != "Effetti di Paura"@[0]);
    assert("Calmare Emozioni"@ != "Effetti di Paura"@);
    assert("Calmare Emozioni"@[0] != "effetti di Paura"@[0]);
    assert("Calmare Emozioni"@ != "effetti di Paura"@);
    assert("Calmare Emozioni"@[0] != "effetti di paura"@[0]);
    assert("Calmare Emozioni"@ != "effetti di paura"@);
    assert("Calmare Emozioni"@[0] != "Effetti di paura"@[0]);
    assert("Calmare Emozioni"@ != "Effetti di paura"@);
    assert("Calmare Emozioni"@[0] != "Attacchi Furtivi"@[0]);
    assert("Calmare Emozioni"@ != "Attacchi Furtivi"@);
    assert("Calmare Emozioni"@[0] != "danni delle armi"@[0]);
    assert("Calmare Emozioni"@ != "danni delle armi"@);
    assert("Calmare Emozioni"@[0] != "Danni dalle Armi"@[0]);
    assert("Calmare Emozioni"@ != "Danni dalle Armi"@);
    assert("Calmare Emozioni"@[0] != "Armi contundenti"@[0]);
    assert("Calmare Emozioni"@ != "Armi contundenti"@);
    assert("Calmare Emozioni"@[0] != "danni perforanti"@[0]);
    assert("Calmare Emozioni"@ != "danni perforanti"@);
    assert("Calmare Emozioni"@[0] != "Fiancheggiamento"@[0]);
    assert("Calmare Emozioni"@ != "Fiancheggiamento"@);
    assert("Calmare Emozioni"@[0] != "Danni Non Letali"@[0]);
    assert("Calmare Emozioni"@ != "Danni Non Letali"@);
    assert("Calmare Emozioni"@[0] != "Danno non letale"@[0]);
    assert("Calmare Emozioni"@ != "Danno non letale"@);
    assert("Calmare Emozioni"@[0] != "Effetti di morte"@[0]);
    assert("Calmare Emozioni"@ != "Effetti di morte"@);
    assert("Calmare Emozioni"@[0] != "Effetti di Morte"@[0]);
    assert("Calmare Emozioni"@ != "Effetti di Morte"@);
    assert("Calmare Emozioni"@[0] != "effetti di morte"@[0]);
    assert("Calmare Emozioni"@ != "effetti di morte"@);
    assert("Calmare Emozioni"@[0] != "illusioni visive"@[0]);
    assert("Calmare Emozioni"@ != "illusioni visive"@);
    assert("Calmare Emozioni"@[0] != "Effetti di forza"@[0]);
    assert("Calmare Emozioni"@ != "Effetti di forza"@);
    assert("Calmare Emozioni"@[0] != "livelli negativi"@[0]);
    assert("Calmare Emozioni"@ != "livelli negativi"@);
    assert("Calmare Emozioni"@[0] != "Livelli Negativi"@[0]);
    assert("Calmare Emozioni"@ != "Livelli Negativi"@);
}

proof fn lemma_read_immunity_convocation(s: Seq<char>)
    requires
        immunity_named(Immunity_Type::Immunity_Convocation, s),
    ensures
        spec_single_immunity(s) == Some(Immunity_Type::Immunity_Convocation),
{
    reveal_strlit("Abbagliamenti");
    reveal_strlit("Abbagliamento");
    reveal_strlit("Abbagliato");
    reveal_strlit("Accecato");
    reveal_strlit("Acido");
    reveal_strlit("Affaticamento");
    reveal_strlit("Affaticato");
    reveal_strlit("Ammaliamento");
    reveal_strlit("Ancora Dimensionale");
    reveal_strlit("Armi Taglienti");
    reveal_strlit("Armi contundenti");
    reveal_strlit("Assorbimento del Fuoco");
    reveal_strlit("Attacchi Furtivi");
    reveal_strlit("Attacchi ai Fianchi");
    reveal_strlit("Attacchi basati sull'olfatto");
    reveal_strlit("Attacchi basati sulla vista");
    reveal_strlit("Attacchi basati sulla vista o sguardo");
    reveal_strlit("Attacchi con Sguardo");
    reveal_strlit("Attacchi con lo sguardo");
    reveal_strlit("Attacchi dipendenti dalla vista");
    reveal_strlit("Barcollante");
    reveal_strlit("Barcollare");
    reveal_strlit("Calmare Emozioni");
    reveal_strlit("Cecità");
    reveal_strlit("Charme");
    reveal_strlit("Colpi Critici");
    reveal_strlit("Colpi critici");
    reveal_strlit("Condizione Affaticato");
    reveal_strlit("Condizione Esausto");
    reveal_strlit("Confusione");
    reveal_strlit("Congedo");
    reveal_strlit("Convocazione");
    reveal_strlit("Danni Non Letali");
    reveal_strlit("Danni alle caratteristiche");
    reveal_strlit("Danni contundenti");
    reveal_strlit("Danni da arma");
    reveal_strlit("Danni da armi");
    reveal_strlit("Danni dalle Armi");
    reveal_strlit("Danni e risucchi alle caratteristiche");
    reveal_strlit("Danni e risucchi di caratteristiche");
    reveal_strlit("Danni e risucchio alle Caratteristiche");
    reveal_strlit("Danni e risucchio di caratteristiche");
    reveal_strlit("Danni perforanti e taglienti");
    reveal_strlit("Danno alle Caratteristiche");
    reveal_strlit("Danno da Pressione");
    reveal_strlit("Danno da arma");
    reveal_strlit("Danno e risucchio alle caratteristiche");
    reveal_strlit("Danno non letale");
    reveal_strlit("Dardo Incantato");
    reveal_strlit("Demenza");
    reveal_strlit("Divinazione");
    reveal_strlit("Dolore");
    reveal_strlit("Effetti a completamento di incantesimo e ad attivazione di incantesimo");
    reveal_strlit("Effetti basati sulla vista");
    reveal_strlit("Effetti d'influenza mentale");
    reveal_strlit("Effetti di Charme e Compulsione");
    reveal_strlit("Effetti di Demenza");
    reveal_strlit("Effetti di Influenza Mentale");
    reveal_strlit("Effetti di Morte");
    reveal_strlit("Effetti di Paura");
    reveal_strlit("Effetti di Sonno");
    reveal_strlit("Effetti di charme");
    reveal_strlit("Effetti di charme e compulsioni");
    reveal_strlit("Effetti di confusione e follia");
    reveal_strlit("Effetti di dolore");
    reveal_strlit("Effetti di forza");
    reveal_strlit("Effetti di influenza mentale");
    reveal_strlit("Effetti di morte");
    reveal_strlit("Effetti di morte (vedi sotto)");
    reveal_strlit("Effetti di paura");
    reveal_strlit("Effetti di sonno");
    reveal_strlit("Effetti visivi");
    reveal_strlit("Elettricità");
    reveal_strlit("Elettricità (parziale)");
    reveal_strlit("Energia Negativa");
    reveal_strlit("Energia Positiva");
    reveal_strlit("Esaurimento");
    reveal_strlit("Esausto");
    reveal_strlit("Fatica");
    reveal_strlit("Fiancheggiamento");
    reveal_strlit("Forza");
    reveal_strlit("Frastornamento");
    reveal_strlit("Frastornato");
    reveal_strlit("Freddo");
    reveal_strlit("Freddo (sé stesso e chi lo cavalca)");
    reveal_strlit("Fuoco");
    reveal_strlit("Fuoco Infernale");
    reveal_strlit("Illusione");
    reveal_strlit("Illusioni e qualsiasi attacco basato sulla vista");
    reveal_strlit("Immunità agli Incantesimi");
    reveal_strlit("Immunità al Freddo");
    reveal_strlit("Immunità all'Esilio");
    reveal_strlit("Immunità alla Magia");
    reveal_strlit("Incantesimi di Ammaliamento e di Illusione");
    reveal_strlit("Individuazione dei Pensieri");
    reveal_strlit("Individuazione dell'Allineamento");
    reveal_strlit("Infermità");
    reveal_strlit("Infermo");
    reveal_strlit("Invecchiamento");
    reveal_strlit("Livelli Negativi");
    reveal_strlit("Magia");
    reveal_strlit("Malattia");
    reveal_strlit("Malattie");
    reveal_strlit("Maledizioni");
    reveal_strlit("Metamorfosi");
    reveal_strlit("Nausea");
    reveal_strlit("Nauseato");
    reveal_strlit("Non Deformante");
    reveal_strlit("Paralisi");
    reveal_strlit("Paura");
    reveal_strlit("Pietrificazione");
    reveal_strlit("Richiamo");
    reveal_strlit("Risucchi di Energia");
    reveal_strlit("Risucchio di Caratteristiche");
    reveal_strlit("Risucchio di Energia");
    reveal_strlit("Rivela Bugie");
    reveal_strlit("Sanguinamento");
    reveal_strlit("Sanguinamento (solo Punti Ferita)");
    reveal_strlit("Scosso");
    reveal_strlit("Sguardo");
    reveal_strlit("Sonno");
    reveal_strlit("Sonoro");
    reveal_strlit("Sordità");
    reveal_strlit("Spaventato");
    reveal_strlit("Stordimento");
    reveal_strlit("Tratti degli Elementali");
    reveal_strlit("Tratti degli Sciami");
    reveal_strlit("Tratti dei Costrutti");
    reveal_strlit("Tratti dei Draghi");
    reveal_strlit("Tratti dei Non Morti");
    reveal_strlit("Tratti dei Vegetali");
    reveal_strlit("Tratti delle Melme");
    reveal_strlit("Veleni");
    reveal_strlit("Veleno");
    reveal_strlit("Veleno Ingerito");
    reveal_strlit("acido");
    reveal_strlit("attacchi basati sulla vista ed effetti visivi");
    reveal_strlit("attacchi con Sguardo");
    reveal_strlit("attacchi con lo Sguardo");
    reveal_strlit("attacchi con lo sguardo");
    reveal_strlit("charme");
    reveal_strlit("charme sui mostri");
    reveal_strlit("compulsione");
    reveal_strlit("controllo mentale");
    reveal_strlit("contundente");
    reveal_strlit("da caduta e da schiacciamento");
    reveal_strlit("danni alle Caratteristiche");
    reveal_strlit("danni alle caratteristiche");
    reveal_strlit("danni contundenti");
    reveal_strlit("danni contundenti e perforanti");
    reveal_strlit("danni da arma");
    reveal_strlit("danni da armi");
    reveal_strlit("danni da precisione");
    reveal_strlit("danni delle armi");
    reveal_strlit("danni di precisione");
    reveal_strlit("danni e risucchi di Caratteristiche");
    reveal_strlit("danni perforanti");
    reveal_strlit("danni taglienti");
    reveal_strlit("danni taglienti e perforanti");
    reveal_strlit("danno da arma");
    reveal_strlit("danno di precisione");
    reveal_strlit("di influenza mentale e basati sullo Sguardo");
    reveal_strlit("divinazione");
    reveal_strlit("dolore");
    reveal_strlit("effetti Barcollanti");
    reveal_strlit("effetti basati sulla vista");
    reveal_strlit("effetti che bersagliano uno specifico numero di creature");
    reveal_strlit("effetti di Charme e Compulsione");
    reveal_strlit("effetti di Metamorfosi");
    reveal_strlit("effetti di Paura");
    reveal_strlit("effetti di Paura ed influenza mentale");
    reveal_strlit("effetti di Sguardo");
    reveal_strlit("effetti di Sonno");
    reveal_strlit("effetti di ammaliamento");
    reveal_strlit("effetti di charme");
    reveal_strlit("effetti di charme e compulsione");
    reveal_strlit("effetti di charme e compulsioni");
    reveal_strlit("effetti di compulsione");
    reveal_strlit("effetti di confusione e demenza");
    reveal_strlit("effetti di demenza");
    reveal_strlit("effetti di influenza mentale");
    reveal_strlit("effetti di influenza mentale e visivi");
    reveal_strlit("effetti di luce");
    reveal_strlit("effetti di maledizione");
    reveal_strlit("effetti di maledizioni");
    reveal_strlit("effetti di metamorfosi");
    reveal_strlit("effetti di morte");
    reveal_strlit("effetti di necromanzia");
    reveal_strlit("effetti di paura");
    reveal_strlit("effetti di sguardo");
    reveal_strlit("effetti di sonno");
    reveal_strlit("effetti e illusioni visive");
    reveal_strlit("effetti polimorfi");
    reveal_strlit("effetti sensoriali");
    reveal_strlit("effetti visivi");
    reveal_strlit("effetti visivi e illusioni");
    reveal_strlit("elettricità");
    reveal_strlit("emozioni");
    reveal_strlit("energia negativa");
    reveal_strlit("ferite permanenti");
    reveal_strlit("forza");
    reveal_strlit("freddo");
    reveal_strlit("fulmine");
    reveal_strlit("fuoco");
    reveal_strlit("illusioni");
    reveal_strlit("illusioni visive");
    reveal_strlit("invecchiamento");
    reveal_strlit("livelli negativi");
    reveal_strlit("malattia");
    reveal_strlit("malattie");
    reveal_strlit("maledizioni");
    reveal_strlit("metamorfosi");
    reveal_strlit("nausea");
    reveal_strlit("palla di fuoco");
    reveal_strlit("paralisi");
    reveal_strlit("paura");
    reveal_strlit("pietrificazione");
    reveal_strlit("possessione");
    reveal_strlit("risucchi di caratteristiche");
    reveal_strlit("risucchi di energia");
    reveal_strlit("risucchio di caratteristica");
    reveal_strlit("risucchio di caratteristiche");
    reveal_strlit("risucchio di energia");
    reveal_strlit("ruggine");
    reveal_strlit("sanguinamento");
    reveal_strlit("sonno");
    reveal_strlit("sonoro");
    reveal_strlit("sordità");
    reveal_strlit("stordimento");
    reveal_strlit("tratti dei Draghi");
    reveal_strlit("veleni");
    reveal_strlit("veleno");
    reveal_strlit("visivi ed illusori");
    assert("Abbagliamenti"@.len() == 13);
    assert("Abbagliamento"@.len() == 13);
    assert("Abbagliato"@.len() == 10);
    assert("Accecato"@.len() == 8);
    assert("Acido"@.len() == 5);
    assert("Affaticamento"@.len() == 13);
    assert("Affaticato"@.len() == 10);
    assert("Ammaliamento"@.len() == 12);
    assert("Ancora Dimensionale"@.len() == 19);
    assert("Armi Taglienti"@.len() == 14);
    assert("Armi contundenti"@.len() == 16);
    assert("Assorbimento del Fuoco"@.len() == 22);
    assert("Attacchi Furtivi"@.len() == 16);
    assert("Attacchi ai Fianchi"@.len() == 19);
    assert("Attacchi basati sull'olfatto"@.len() == 28);
    assert("Attacchi basati sulla vista"@.len() == 27);
    assert("Attacchi basati sulla vista o sguardo"@.len() == 37);
    assert("Attacchi con Sguardo"@.len() == 20);
    assert("Attacchi con lo sguardo"@.len() == 23);
    assert("Attacchi dipendenti dalla vista"@.len() == 31);
    assert("Barcollante"@.len() == 11);
    assert("Barcollare"@.len() == 10);
    assert("Calmare Emozioni"@.len() == 16);
    assert("Cecità"@.len() == 6);
    assert("Charme"@.len() == 6);
    assert("Colpi Critici"@.len() == 13);
    assert("Colpi critici"@.len() == 13);
    assert("Condizione Affaticato"@.len() == 21);
    assert("Condizione Esausto"@.len() == 18);
    assert("Confusione"@.len() == 10);
    assert("Congedo"@.len() == 7);
    assert("Convocazione"@.len() == 12);
    assert("Danni Non Letali"@.len() == 16);
    assert("Danni alle caratteristiche"@.len() == 26);
    assert("Danni contundenti"@.len() == 17);
    assert("Danni da arma"@.len() == 13);
    assert("Danni da armi"@.len() == 13);
    assert("Danni dalle Armi"@.len() == 16);
    assert("Danni e risucchi alle caratteristiche"@.len() == 37);
    assert("Danni e risucchi di caratteristiche"@.len() == 35);
    assert("Danni e risucchio alle Caratteristiche"@.len() == 38);
    assert("Danni e risucchio di caratteristiche"@.len() == 36);
    assert("Danni perforanti e taglienti"@.len() == 28);
    assert("Danno alle Caratteristiche"@.len() == 26);
    assert("Danno da Pressione"@.len() == 18);
    assert("Danno da arma"@.len() == 13);
    assert("Danno e risucchio alle caratteristiche"@.len() == 38);
    assert("Danno non letale"@.len() == 16);
    assert("Dardo Incantato"@.len() == 15);
    assert("Demenza"@.len() == 7);
    assert("Divinazione"@.len() == 11);
    assert("Dolore"@.len() == 6);
    assert("Effetti a completamento di incantesimo e ad attivazione di incantesimo"@.len() == 70);
    assert("Effetti basati sulla vista"@.len() == 26);
    assert("Effetti d'influenza mentale"@.len() == 27);
    assert("Effetti di Charme e Compulsione"@.len() == 31);
    assert("Effetti di Demenza"@.len() == 18);
    assert("Effetti di Influenza Mentale"@.len() == 28);
    assert("Effetti di Morte"@.len() == 16);
    assert("Effetti di Paura"@.len() == 16);
    assert("Effetti di Sonno"@.len() == 16);
    assert("Effetti di charme"@.len() == 17);
    assert("Effetti di charme e compulsioni"@.len() == 31);
    assert("Effetti di confusione e follia"@.len() == 30);
    assert("Effetti di dolore"@.len() == 17);
    assert("Effetti di forza"@.len() == 16);
    assert("Effetti di influenza mentale"@.len() == 28);
    assert("Effetti di morte"@.len() == 16);
    assert("Effetti di morte (vedi sotto)"@.len() == 29);
    assert("Effetti di paura"@.len() == 16);
    assert("Effetti di sonno"@.len() == 16);
    assert("Effetti visivi"@.len() == 14);
    assert("Elettricità"@.len() == 11);
    assert("Elettricità (parziale)"@.len() == 22);
    assert("Energia Negativa"@.len() == 16);
    assert("Energia Positiva"@.len() == 16);
    assert("Esaurimento"@.len() == 11);
    assert("Esausto"@.len() == 7);
    assert("Fatica"@.len() == 6);
    assert("Fiancheggiamento"@.len() == 16);
    assert("Forza"@.len() == 5);
    assert("Frastornamento"@.len() == 14);
    assert("Frastornato"@.len() == 11);
    assert("Freddo"@.len() == 6);
    assert("Freddo (sé stesso e chi lo cavalca)"@.len() == 35);
    assert("Fuoco"@.len() == 5);
    assert("Fuoco Infernale"@.len() == 15);
    assert("Illusione"@.len() == 9);
    assert("Illusioni e qualsiasi attacco basato sulla vista"@.len() == 48);
    assert("Immunità agli Incantesimi"@.len() == 25);
    assert("Immunità al Freddo"@.len() == 18);
    assert("Immunità all'Esilio"@.len() == 19);
    assert("Immunità alla Magia"@.len() == 19);
    assert("Incantesimi di Ammaliamento e di Illusione"@.len() == 42);
    assert("Individuazione dei Pensieri"@.len() == 27);
    assert("Individuazione dell'Allineamento"@.len() == 32);
    assert("Infermità"@.len() == 9);
    assert("Infermo"@.len() == 7);
    assert("Invecchiamento"@.len() == 14);
    assert("Livelli Negativi"@.len() == 16);
    assert("Magia"@.len() == 5);
    assert("Malattia"@.len() == 8);
    assert("Malattie"@.len() == 8);
    assert("Maledizioni"@.len() == 11);
    assert("Metamorfosi"@.len() == 11);
    assert("Nausea"@.len() == 6);
    assert("Nauseato"@.len() == 8);
    assert("Non Deformante"@.len() == 14);
    assert("Paralisi"@.len() == 8);
    assert("Paura"@.len() == 5);
    assert("Pietrificazione"@.len() == 15);
    assert("Richiamo"@.len() == 8);
    assert("Risucchi di Energia"@.len() == 19);
    assert("Risucchio di Caratteristiche"@.len() == 28);
    assert("Risucchio di Energia"@.len() == 20);
    assert("Rivela Bugie"@.len() == 12);
    assert("Sanguinamento"@.len() == 13);
    assert("Sanguinamento (solo Punti Ferita)"@.len() == 33);
    assert("Scosso"@.len() == 6);
    assert("Sguardo"@.len() == 7);
    assert("Sonno"@.len() == 5);
    assert("Sonoro"@.len() == 6);
    assert("Sordità"@.len() == 7);
    assert("Spaventato"@.len() == 10);
    assert("Stordimento"@.len() == 11);
    assert("Tratti degli Elementali"@.len() == 23);
    assert("Tratti degli Sciami"@.len() == 19);
    assert("Tratti dei Costrutti"@.len() == 20);
    assert("Tratti dei Draghi"@.len() == 17);
    assert("Tratti dei Non Morti"@.len() == 20);
    assert("Tratti dei Vegetali"@.len() == 19);
    assert("Tratti delle Melme"@.len() == 18);
    assert("Veleni"@.len() == 6);
    assert("Veleno"@.len() == 6);
    assert("Veleno Ingerito"@.len() == 15);
    assert("acido"@.len() == 5);
    assert("attacchi basati sulla vista ed effetti visivi"@.len() == 45);
    assert("attacchi con Sguardo"@.len() == 20);
    assert("attacchi con lo Sguardo"@.len() == 23);
    assert("attacchi con lo sguardo"@.len() == 23);
    assert("charme"@.len() == 6);
    assert("charme sui mostri"@.len() == 17);
    assert("compulsione"@.len() == 11);
    assert("controllo mentale"@.len() == 17);
    assert("contundente"@.len() == 11);
    assert("da caduta e da schiacciamento"@.len() == 29);
    assert("danni alle Caratteristiche"@.len() == 26);
    assert("danni alle caratteristiche"@.len() == 26);
    assert("danni contundenti"@.len() == 17);
    assert("danni contundenti e perforanti"@.len() == 30);
    assert("danni da arma"@.len() == 13);
    assert("danni da armi"@.len() == 13);
    assert("danni da precisione"@.len() == 19);
    assert("danni delle armi"@.len() == 16);
    assert("danni di precisione"@.len() == 19);
    assert("danni e risucchi di Caratteristiche"@.len() == 35);
    assert("danni perforanti"@.len() == 16);
    assert("danni taglienti"@.len() == 15);
    assert("danni taglienti e perforanti"@.len() == 28);
    assert("danno da arma"@.len() == 13);
    assert("danno di precisione"@.len() == 19);
    assert("di influenza mentale e basati sullo Sguardo"@.len() == 43);
    assert("divinazione"@.len() == 11);
    assert("dolore"@.len() == 6);
    assert("effetti Barcollanti"@.len() == 19);
    assert("effetti basati sulla vista"@.len() == 26);
    assert("effetti che bersagliano uno specifico numero di creature"@.len() == 56);
    assert("effetti di Charme e Compulsione"@.len() == 31);
    assert("effetti di Metamorfosi"@.len() == 22);
    assert("effetti di Paura"@.len() == 16);
    assert("effetti di Paura ed influenza mentale"@.len() == 37);
    assert("effetti di Sguardo"@.len() == 18);
    assert("effetti di Sonno"@.len() == 16);
    assert("effetti di ammaliamento"@.len() == 23);
    assert("effetti di charme"@.len() == 17);
    assert("effetti di charme e compulsione"@.len() == 31);
    assert("effetti di charme e compulsioni"@.len() == 31);
    assert("effetti di compulsione"@.len() == 22);
    assert("effetti di confusione e demenza"@.len() == 31);
    assert("effetti di demenza"@.len() == 18);
    assert("effetti di influenza mentale"@.len() == 28);
    assert("effetti di influenza mentale e visivi"@.len() == 37);
    assert("effetti di luce"@.len() == 15);
    assert("effetti di maledizione"@.len() == 22);
    assert("effetti di maledizioni"@.len() == 22);
    assert("effetti di metamorfosi"@.len() == 22);
    assert("effetti di morte"@.len() == 16);
    assert("effetti di necromanzia"@.len() == 22);
    assert("effetti di paura"@.len() == 16);
    assert("effetti di sguardo"@.len() == 18);
    assert("effetti di sonno"@.len() == 16);
    assert("effetti e illusioni visive"@.len() == 26);
    assert("effetti polimorfi"@.len() == 17);
    assert("effetti sensoriali"@.len() == 18);
    assert("effetti visivi"@.len() == 14);
    assert("effetti visivi e illusioni"@.len() == 26);
    assert("elettricità"@.len() == 11);
    assert("emozioni"@.len() == 8);
    assert("energia negativa"@.len() == 16);
    assert("ferite permanenti"@.len() == 17);
    assert("forza"@.len() == 5);
    assert("freddo"@.len() == 6);
    assert("fulmine"@.len() == 7);
    assert("fuoco"@.len() == 5);
    assert("illusioni"@.len() == 9);
    assert("illusioni visive"@.len() == 16);
    assert("invecchiamento"@.len() == 14);
    assert("livelli negativi"@.len() == 16);
    assert("malattia"@.len() == 8);
    assert("malattie"@.len() == 8);
    assert("maledizioni"@.len() == 11);
    assert("metamorfosi"@.len() == 11);
    assert("nausea"@.len() == 6);
    assert("palla di fuoco"@.len() == 14);
    assert("paralisi"@.len() == 8);
    assert("paura"@.len() == 5);
    assert("pietrificazione"@.len() == 15);
    assert("possessione"@.len() == 11);
    assert("risucchi di caratteristiche"@.len() == 27);
    assert("risucchi di energia"@.len() == 19);
    assert("risucchio di caratteristica"@.len() == 27);
    assert("risucchio di caratteristiche"@.len() == 28);
    assert("risucchio di energia"@.len() == 20);
    assert("ruggine"@.len() == 7);
    assert("sanguinamento"@.len() == 13);
    assert("sonno"@.len() == 5);
    assert("sonoro"@.len() == 6);
    assert("sordità"@.len() == 7);
    assert("stordimento"@.len() == 11);
    assert("tratti dei Draghi"@.len() == 17);
    assert("veleni"@.len() == 6);
    assert("veleno"@.len() == 6);
    assert("visivi ed illusori"@.len() == 18);
    assert("Convocazione"@[0] != "Ammaliamento"@[0]);
    assert("Convocazione"@ != "Ammaliamento"@);
    assert("Convocazione"@[0] != "Rivela Bugie"@[0]);
    assert("Convocazione"@ != "Rivela Bugie"@);
}

proof fn lemma_read_immunity_styxwater(s: Seq<char>)
    requires
        immunity_named(Immunity_Type::Immunity_StyxWater, s),
    ensures
        spec_single_immunity(s) == Some(Immunity_Type::Immunity_StyxWater),
{
    reveal_strlit("Abbagliamenti");
    reveal_strlit("Abbagliamento");
    reveal_strlit("Abbagliato");
    reveal_strlit("Accecato");
    reveal_strlit("Acido");
    reveal_strlit("Affaticamento");
    reveal_strlit("Affaticato");
    reveal_strlit("Ammaliamento");
    reveal_strlit("Ancora Dimensionale");
    reveal_strlit("Armi Taglienti");
    reveal_strlit("Armi contundenti");
    reveal_strlit("Assorbimento del Fuoco");
    reveal_strlit("Attacchi Furtivi");
    reveal_strlit("Attacchi ai Fianchi");
    reveal_strlit("Attacchi basati sull'olfatto");
    reveal_strlit("Attacchi basati sulla vista");
    reveal_strlit("Attacchi basati sulla vista o sguardo");
    reveal_strlit("Attacchi con Sguardo");
    reveal_strlit("Attacchi con lo sguardo");
    reveal_strlit("Attacchi dipendenti dalla vista");
    reveal_strlit("Barcollante");
    reveal_strlit("Barcollare");
    reveal_strlit("Calmare Emozioni");
    reveal_strlit("Cecità");
    reveal_strlit("Charme");
    reveal_strlit("Colpi Critici");
    reveal_strlit("Colpi critici");
    reveal_strlit("Condizione Affaticato");
    reveal_strlit("Condizione Esausto");
    reveal_strlit("Confusione");
    reveal_strlit("Congedo");
    reveal_strlit("Convocazione");
    reveal_strlit("Danni Non Letali");
    reveal_strlit("Danni alle caratteristiche");
    reveal_strlit("Danni contundenti");
    reveal_strlit("Danni da arma");
    reveal_strlit("Danni da armi");
    reveal_strlit("Danni dalle Armi");
    reveal_strlit("Danni e risucchi alle caratteristiche");
    reveal_strlit("Danni e risucchi di caratteristiche");
    reveal_strlit("Danni e risucchio alle Caratteristiche");
    reveal_strlit("Danni e risucchio di caratteristiche");
    reveal_strlit("Danni perforanti e taglienti");
    reveal_strlit("Danno alle Caratteristiche");
    reveal_strlit("Danno da Pressione");
    reveal_strlit("Danno da arma");
    reveal_strlit("Danno e risucchio alle caratteristiche");
    reveal_strlit("Danno non letale");
    reveal_strlit("Dardo Incantato");
    reveal_strlit("Demenza");
    reveal_strlit("Divinazione");
    reveal_strlit("Dolore");
    reveal_strlit("Effetti a completamento di incantesimo e ad attivazione di incantesimo");
    reveal_strlit("Effetti basati sulla vista");
    reveal_strlit("Effetti d'influenza mentale");
    reveal_strlit("Effetti di Charme e Compulsione");
    reveal_strlit("Effetti di Demenza");
    reveal_strlit("Effetti di Influenza Mentale");
    reveal_strlit("Effetti di Morte");
    reveal_strlit("Effetti di Paura");
    reveal_strlit("Effetti di Sonno");
    reveal_strlit("Effetti di charme");
    reveal_strlit("Effetti di charme e compulsioni");
    reveal_strlit("Effetti di confusione e follia");
    reveal_strlit("Effetti di dolore");
    reveal_strlit("Effetti di forza");
    reveal_strlit("Effetti di influenza mentale");
    reveal_strlit("Effetti di morte");
    reveal_strlit("Effetti di morte (vedi sotto)");
    reveal_strlit("Effetti di paura");
    reveal_strlit("Effetti di sonno");
    reveal_strlit("Effetti visivi");
    reveal_strlit("Elettricità");
    reveal_strlit("Elettricità (parziale)");
    reveal_strlit("Energia Negativa");
    reveal_strlit("Energia Positiva");
    reveal_strlit("Esaurimento");
    reveal_strlit("Esausto");
    reveal_strlit("Fatica");
    reveal_strlit("Fiancheggiamento");
    reveal_strlit("Forza");
    reveal_strlit("Frastornamento");
    reveal_strlit("Frastornato");
    reveal_strlit("Freddo");
    reveal_strlit("Freddo (sé stesso e chi lo cavalca)");
    reveal_strlit("Fuoco");
    reveal_strlit("Fuoco Infernale");
    reveal_strlit("Illusione");
    reveal_strlit("Illusioni e qualsiasi attacco basato sulla vista");
    reveal_strlit("Immunità agli Incantesimi");
    reveal_strlit("Immunità al Freddo");
    reveal_strlit("Immunità all'Esilio");
    reveal_strlit("Immunità alla Magia");
    reveal_strlit("Immunità alle acque del Fiume Stige");
    reveal_strlit("Incantesimi di Ammaliamento e di Illusione");
    reveal_strlit("Individuazione dei Pensieri");
    reveal_strlit("Individuazione dell'Allineamento");
    reveal_strlit("Infermità");
    reveal_strlit("Infermo");
    reveal_strlit("Invecchiamento");
    reveal_strlit("Livelli Negativi");
    reveal_strlit("Magia");
    reveal_strlit("Malattia");
    reveal_strlit("Malattie");
    reveal_strlit("Maledizioni");
    reveal_strlit("Metamorfosi");
    reveal_strlit("Nausea");
    reveal_strlit("Nauseato");
    reveal_strlit("Non Deformante");
    reveal_strlit("Paralisi");
    reveal_strlit("Paura");
    reveal_strlit("Pietrificazione");
    reveal_strlit("Richiamo");
    reveal_strlit("Risucchi di Energia");
    reveal_strlit("Risucchio di Caratteristiche");
    reveal_strlit("Risucchio di Energia");
    reveal_strlit("Rivela Bugie");
    reveal_strlit("Sanguinamento");
    reveal_strlit("Sanguinamento (solo Punti Ferita)");
    reveal_strlit("Scosso");
    reveal_strlit("Sguardo");
    reveal_strlit("Sonno");
    reveal_strlit("Sonoro");
    reveal_strlit("Sordità");
    reveal_strlit("Spaventato");
    reveal_strlit("Stordimento");
    reveal_strlit("Tratti degli Elementali");
    reveal_strlit("Tratti degli Sciami");
    reveal_strlit("Tratti dei Costrutti");
    reveal_strlit("Tratti dei Draghi");
    reveal_strlit("Tratti dei Non Morti");
    reveal_strlit("Tratti dei Vegetali");
    reveal_strlit("Tratti delle Melme");
    reveal_strlit("Veleni");
    reveal_strlit("Veleno");
    reveal_strlit("Veleno Ingerito");
    reveal_strlit("acido");
    reveal_strlit("acque del Fiume Stige");
    reveal_strlit("attacchi basati sulla vista ed effetti visivi");
    reveal_strlit("attacchi con Sguardo");
    reveal_strlit("attacchi con lo Sguardo");
    reveal_strlit("attacchi con lo sguardo");
    reveal_strlit("charme");
    reveal_strlit("charme sui mostri");
    reveal_strlit("compulsione");
    reveal_strlit("controllo mentale");
    reveal_strlit("contundente");
    reveal_strlit("da caduta e da schiacciamento");
    reveal_strlit("danni alle Caratteristiche");
    reveal_strlit("danni alle caratteristiche");
    reveal_strlit("danni contundenti");
    reveal_strlit("danni contundenti e perforanti");
    reveal_strlit("danni da arma");
    reveal_strlit("danni da armi");
    reveal_strlit("danni da precisione");
    reveal_strlit("danni delle armi");
    reveal_strlit("danni di precisione");
    reveal_strlit("danni e risucchi di Caratteristiche");
    reveal_strlit("danni perforanti");
    reveal_strlit("danni taglienti");
    reveal_strlit("danni taglienti e perforanti");
    reveal_strlit("danno da arma");
    reveal_strlit("danno di precisione");
    reveal_strlit("di influenza mentale e basati sullo Sguardo");
    reveal_strlit("divinazione");
    reveal_strlit("dolore");
    reveal_strlit("effetti Barcollanti");
    reveal_strlit("effetti basati sulla vista");
    reveal_strlit("effetti che bersagliano uno specifico numero di creature");
    reveal_strlit("effetti di Charme e Compulsione");
    reveal_strlit("effetti di Metamorfosi");
    reveal_strlit("effetti di Paura");
    reveal_strlit("effetti di Paura ed influenza mentale");
    reveal_strlit("effetti di Sguardo");
    reveal_strlit("effetti di Sonno");
    reveal_strlit("effetti di ammaliamento");
    reveal_strlit("effetti di charme");
    reveal_strlit("effetti di charme e compulsione");
    reveal_strlit("effetti di charme e compulsioni");
    reveal_strlit("effetti di compulsione");
    reveal_strlit("effetti di confusione e demenza");
    reveal_strlit("effetti di demenza");
    reveal_strlit("effetti di influenza mentale");
    reveal_strlit("effetti di influenza mentale e visivi");
    reveal_strlit("effetti di luce");
    reveal_strlit("effetti di maledizione");
    reveal_strlit("effetti di maledizioni");
    reveal_strlit("effetti di metamorfosi");
    reveal_strlit("effetti di morte");
    reveal_strlit("effetti di necromanzia");
    reveal_strlit("effetti di paura");
    reveal_strlit("effetti di sguardo");
    reveal_strlit("effetti di sonno");
    reveal_strlit("effetti e illusioni visive");
    reveal_strlit("effetti polimorfi");
    reveal_strlit("effetti sensoriali");
    reveal_strlit("effetti visivi");
    reveal_strlit("effetti visivi e illusioni");
    reveal_strlit("elettricità");
    reveal_strlit("emozioni");
    reveal_strlit("energia negativa");
    reveal_strlit("ferite permanenti");
    reveal_strlit("forza");
    reveal_strlit("freddo");
    reveal_strlit("fulmine");
    reveal_strlit("fuoco");
    reveal_strlit("illusioni");
    reveal_strlit("illusioni visive");
    reveal_strlit("immunità alle acque del Fiume Stige");
    reveal_strlit("invecchiamento");
    reveal_strlit("livelli negativi");
    reveal_strlit("malattia");
    reveal_strlit("malattie");
    reveal_strlit("maledizioni");
    reveal_strlit("metamorfosi");
    reveal_strlit("nausea");
    reveal_strlit("palla di fuoco");
    reveal_strlit("paralisi");
    reveal_strlit("paura");
    reveal_strlit("pietrificazione");
    reveal_strlit("possessione");
    reveal_strlit("risucchi di caratteristiche");
    reveal_strlit("risucchi di energia");
    reveal_strlit("risucchio di caratteristica");
    reveal_strlit("risucchio di caratteristiche");
    reveal_strlit("risucchio di energia");
    reveal_strlit("ruggine");
    reveal_strlit("sanguinamento");
    reveal_strlit("sonno");
    reveal_strlit("sonoro");
    reveal_strlit("sordità");
    reveal_strlit("stordimento");
    reveal_strlit("tratti dei Draghi");
    reveal_strlit("veleni");
    reveal_strlit("veleno");
    reveal_strlit("visivi ed illusori");
    assert("Abbagliamenti"@.len() == 13);
    assert("Abbagliamento"@.len() == 13);
    assert("Abbagliato"@.len() == 10);
    assert("Accecato"@.len() == 8);
    assert("Acido"@.len() == 5);
    assert("Affaticamento"@.len() == 13);
    assert("Affaticato"@.len() == 10);
    assert("Ammaliamento"@.len() == 12);
    assert("Ancora Dimensionale"@.len() == 19);
    assert("Armi Taglienti"@.len() == 14);
    assert("Armi contundenti"@.len() == 16);
    assert("Assorbimento del Fuoco"@.len() == 22);
    assert("Attacchi Furtivi"@.len() == 16);
    assert("Attacchi ai Fianchi"@.len() == 19);
    assert("Attacchi basati sull'olfatto"@.len() == 28);
    assert("Attacchi basati sulla vista"@.len() == 27);
    assert("Attacchi basati sulla vista o sguardo"@.len() == 37);
    assert("Attacchi con Sguardo"@.len() == 20);
    assert("Attacchi con lo sguardo"@.len() == 23);
    assert("Attacchi dipendenti dalla vista"@.len() == 31);
    assert("Barcollante"@.len() == 11);
    assert("Barcollare"@.len() == 10);
    assert("Calmare Emozioni"@.len() == 16);
    assert("Cecità"@.len() == 6);
    assert("Charme"@.len() == 6);
    assert("Colpi Critici"@.len() == 13);
    assert("Colpi critici"@.len() == 13);
    assert("Condizione Affaticato"@.len() == 21);
    assert("Condizione Esausto"@.len() == 18);
    assert("Confusione"@.len() == 10);
    assert("Congedo"@.len() == 7);
    assert("Convocazione"@.len() == 12);
    assert("Danni Non Letali"@.len() == 16);
    assert("Danni alle caratteristiche"@.len() == 26);
    assert("Danni contundenti"@.len() == 17);
    assert("Danni da arma"@.len() == 13);
    assert("Danni da armi"@.len() == 13);
    assert("Danni dalle Armi"@.len() == 16);
    assert("Danni e risucchi alle caratteristiche"@.len() == 37);
    assert("Danni e risucchi di caratteristiche"@.len() == 35);
    assert("Danni e risucchio alle Caratteristiche"@.len() == 38);
    assert("Danni e risucchio di caratteristiche"@.len() == 36);
    assert("Danni perforanti e taglienti"@.len() == 28);
    assert("Danno alle Caratteristiche"@.len() == 26);
    assert("Danno da Pressione"@.len() == 18);
    assert("Danno da arma"@.len() == 13);
    assert("Danno e risucchio alle caratteristiche"@.len() == 38);
    assert("Danno non letale"@.len() == 16);
    assert("Dardo Incantato"@.len() == 15);
    assert("Demenza"@.len() == 7);
    assert("Divinazione"@.len() == 11);
    assert("Dolore"@.len() == 6);
    assert("Effetti a completamento di incantesimo e ad attivazione di incantesimo"@.len() == 70);
    assert("Effetti basati sulla vista"@.len() == 26);
    assert("Effetti d'influenza mentale"@.len() == 27);
    assert("Effetti di Charme e Compulsione"@.len() == 31);
    assert("Effetti di Demenza"@.len() == 18);
    assert("Effetti di Influenza Mentale"@.len() == 28);
    assert("Effetti di Morte"@.len() == 16);
    assert("Effetti di Paura"@.len() == 16);
    assert("Effetti di Sonno"@.len() == 16);
    assert("Effetti di charme"@.len() == 17);
    assert("Effetti di charme e compulsioni"@.len() == 31);
    assert("Effetti di confusione e follia"@.len() == 30);
    assert("Effetti di dolore"@.len() == 17);
    assert("Effetti di forza"@.len() == 16);
    assert("Effetti di influenza mentale"@.len() == 28);
    assert("Effetti di morte"@.len() == 16);
    assert("Effetti di morte (vedi sotto)"@.len() == 29);
    assert("Effetti di paura"@.len() == 16);
    assert("Effetti di sonno"@.len() == 16);
    assert("Effetti visivi"@.len() == 14);
    assert("Elettricità"@.len() == 11);
    assert("Elettricità (parziale)"@.len() == 22);
    assert("Energia Negativa"@.len() == 16);
    assert("Energia Positiva"@.len() == 16);
    assert("Esaurimento"@.len() == 11);
    assert("Esausto"@.len() == 7);
    assert("Fatica"@.len() == 6);
    assert("Fiancheggiamento"@.len() == 16);
    assert("Forza"@.len() == 5);
    assert("Frastornamento"@.len() == 14);
    assert("Frastornato"@.len() == 11);
    assert("Freddo"@.len() == 6);
    assert("Freddo (sé stesso e chi lo cavalca)"@.len() == 35);
    assert("Fuoco"@.len() == 5);
    assert("Fuoco Infernale"@.len() == 15);
    assert("Illusione"@.len() == 9);
    assert("Illusioni e qualsiasi attacco basato sulla vista"@.len() == 48);
    assert("Immunità agli Incantesimi"@.len() == 25);
    assert("Immunità al Freddo"@.len() == 18);
    assert("Immunità all'Esilio"@.len() == 19);
    assert("Immunità alla Magia"@.len() == 19);
    assert("Immunità alle acque del Fiume Stige"@.len() == 35);
    assert("Incantesimi di Ammaliamento e di Illusione"@.len() == 42);
    assert("Individuazione dei Pensieri"@.len() == 27);
    assert("Individuazione dell'Allineamento"@.len() == 32);
    assert("Infermità"@.len() == 9);
    assert("Infermo"@.len() == 7);
    assert("Invecchiamento"@.len() == 14);
    assert("Livelli Negativi"@.len() == 16);
    assert("Magia"@.len() == 5);
    assert("Malattia"@.len() == 8);
    assert("Malattie"@.len() == 8);
    assert("Maledizioni"@.len() == 11);
    assert("Metamorfosi"@.len() == 11);
    assert("Nausea"@.len() == 6);
    assert("Nauseato"@.len() == 8);
    assert("Non Deformante"@.len() == 14);
    assert("Paralisi"@.len() == 8);
    assert("Paura"@.len() == 5);
    assert("Pietrificazione"@.len() == 15);
    assert("Richiamo"@.len() == 8);
    assert("Risucchi di Energia"@.len() == 19);
    assert("Risucchio di Caratteristiche"@.len() == 28);
    assert("Risucchio di Energia"@.len() == 20);
    assert("Rivela Bugie"@.len() == 12);
    assert("Sanguinamento"@.len() == 13);
    assert("Sanguinamento (solo Punti Ferita)"@.len() == 33);
    assert("Scosso"@.len() == 6);
    assert("Sguardo"@.len() == 7);
    assert("Sonno"@.len() == 5);
    assert("Sonoro"@.len() == 6);
    assert("Sordità"@.len() == 7);
    assert("Spaventato"@.len() == 10);
    assert("Stordimento"@.len() == 11);
    assert("Tratti degli Elementali"@.len() == 23);
    assert("Tratti degli Sciami"@.len() == 19);
    assert("Tratti dei Costrutti"@.len() == 20);
    assert("Tratti dei Draghi"@.len() == 17);
    assert("Tratti dei Non Morti"@.len() == 20);
    assert("Tratti dei Vegetali"@.len() == 19);
    assert("Tratti delle Melme"@.len() == 18);
    assert("Veleni"@.len() == 6);
    assert("Veleno"@.len() == 6);
    assert("Veleno Ingerito"@.len() == 15);
    assert("acido"@.len() == 5);
    assert("acque del Fiume Stige"@.len() == 21);
    assert("attacchi basati sulla vista ed effetti visivi"@.len() == 45);
    assert("attacchi con Sguardo"@.len() == 20);
    assert("attacchi con lo Sguardo"@.len() == 23);
    assert("attacchi con lo sguardo"@.len() == 23);
    assert("charme"@.len() == 6);
    assert("charme sui mostri"@.len() == 17);
    assert("compulsione"@.len() == 11);
    assert("controllo mentale"@.len() == 17);
    assert("contundente"@.len() == 11);
    assert("da caduta e da schiacciamento"@.len() == 29);
    assert("danni alle Caratteristiche"@.len() == 26);
    assert("danni alle caratteristiche"@.len() == 26);
    assert("danni contundenti"@.len() == 17);
    assert("danni contundenti e perforanti"@.len() == 30);
    assert("danni da arma"@.len() == 13);
    assert("danni da armi"@.len() == 13);
    assert("danni da precisione"@.len() == 19);
    assert("danni delle armi"@.len() == 16);
    assert("danni di precisione"@.len() == 19);
    assert("danni e risucchi di Caratteristiche"@.len() == 35);
    assert("danni perforanti"@.len() == 16);
    assert("danni taglienti"@.len() == 15);
    assert("danni taglienti e perforanti"@.len() == 28);
    assert("danno da arma"@.len() == 13);
    assert("danno di precisione"@.len() == 19);
    assert("di influenza mentale e basati sullo Sguardo"@.len() == 43);
    assert("divinazione"@.len() == 11);
    assert("dolore"@.len() == 6);
    assert("effetti Barcollanti"@.len() == 19);
    assert("effetti basati sulla vista"@.len() == 26);
    assert("effetti che bersagliano uno specifico numero di creature"@.len() == 56);
    assert("effetti di Charme e Compulsione"@.len() == 31);
    assert("effetti di Metamorfosi"@.len() == 22);
    assert("effetti di Paura"@.len() == 16);
    assert("effetti di Paura ed influenza mentale"@.len() == 37);
    assert("effetti di Sguardo"@.len() == 18);
    assert("effetti di Sonno"@.len() == 16);
    assert("effetti di ammaliamento"@.len() == 23);
    assert("effetti di charme"@.len() == 17);
    assert("effetti di charme e compulsione"@.len() == 31);
    assert("effetti di charme e compulsioni"@.len() == 31);
    assert("effetti di compulsione"@.len() == 22);
    assert("effetti di confusione e demenza"@.len() == 31);
    assert("effetti di demenza"@.len() == 18);
    assert("effetti di influenza mentale"@.len() == 28);
    assert("effetti di influenza mentale e visivi"@.len() == 37);
    assert("effetti di luce"@.len() == 15);
    assert("effetti di maledizione"@.len() == 22);
    assert("effetti di maledizioni"@.len() == 22);
    assert("effetti di metamorfosi"@.len() == 22);
    assert("effetti di morte"@.len() == 16);
    assert("effetti di necromanzia"@.len() == 22);
    assert("effetti di paura"@.len() == 16);
    assert("effetti di sguardo"@.len() == 18);
    assert("effetti di sonno"@.len() == 16);
    assert("effetti e illusioni visive"@.len() == 26);
    assert("effetti polimorfi"@.len() == 17);
    assert("effetti sensoriali"@.len() == 18);
    assert("effetti visivi"@.len() == 14);
    assert("effetti visivi e illusioni"@.len() == 26);
    assert("elettricità"@.len() == 11);
    assert("emozioni"@.len() == 8);
    assert("energia negativa"@.len() == 16);
    assert("ferite permanenti"@.len() == 17);
    assert("forza"@.len() == 5);
    assert("freddo"@.len() == 6);
    assert("fulmine"@.len() == 7);
    assert("fuoco"@.len() == 5);
    assert("illusioni"@.len() == 9);
    assert("illusioni visive"@.len() == 16);
    assert("immunità alle acque del Fiume Stige"@.len() == 35);
    assert("invecchiamento"@.len() == 14);
    assert("livelli negativi"@.len() == 16);
    assert("malattia"@.len() == 8);
    assert("malattie"@.len() == 8);
    assert("maledizioni"@.len() == 11);
    assert("metamorfosi"@.len() == 11);
    assert("nausea"@.len() == 6);
    assert("palla di fuoco"@.len() == 14);
    assert("paralisi"@.len() == 8);
    assert("paura"@.len() == 5);
    assert("pietrificazione"@.len() == 15);
    assert("possessione"@.len() == 11);
    assert("risucchi di caratteristiche"@.len() == 27);
    assert("risucchi di energia"@.len() == 19);
    assert("risucchio di caratteristica"@.len() == 27);
    assert("risucchio di caratteristiche"@.len() == 28);
    assert("risucchio di energia"@.len() == 20);
    assert("ruggine"@.len() == 7);
    assert("sanguinamento"@.len() == 13);
    assert("sonno"@.len() == 5);
    assert("sonoro"@.len() == 6);
    assert("sordità"@.len() == 7);
    assert("stordimento"@.len() == 11);
    assert("tratti dei Draghi"@.len() == 17);
    assert("veleni"@.len() == 6);
    assert("veleno"@.len() == 6);
    assert("visivi ed illusori"@.len() == 18);
    assert("Immunità alle acque del Fiume Stige"@[0] != "Freddo (sé stesso e chi lo cavalca)"@[0]);
    assert("Immunità alle acque del Fiume Stige"@ != "Freddo (sé stesso e chi lo cavalca)"@);
    assert("Immunità alle acque del Fiume Stige"@[0] != "Danni e risucchi di caratteristiche"@[0]);
    assert("Immunità alle acque del Fiume Stige"@ != "Danni e risucchi di caratteristiche"@);
    assert("Immunità alle acque del Fiume Stige"@[0] != "danni e risucchi di Caratteristiche"@[0]);
    assert("Immunità alle acque del Fiume Stige"@ != "danni e risucchi di Caratteristiche"@);
    assert("immunità alle acque del Fiume Stige"@[0] != "Freddo (sé stesso e chi lo cavalca)"@[0]);
    assert("immunità alle acque del Fiume Stige"@ != "Freddo (sé stesso e chi lo cavalca)"@);
    assert("immunità alle acque del Fiume Stige"@[0] != "Danni e risucchi di caratteristiche"@[0]);
    assert("immunità alle acque del Fiume Stige"@ != "Danni e risucchi di caratteristiche"@);
    assert("immunità alle acque del Fiume Stige"@[0] != "danni e risucchi di Caratteristiche"@[0]);
    assert("immunità alle acque del Fiume Stige"@ != "danni e risucchi di Caratteristiche"@);
    assert("immunità alle acque del Fiume Stige"@[0] != "Immunità alle acque del Fiume Stige"@[0]);
    assert("immunità alle acque del Fiume Stige"@ != "Immunità alle acque del Fiume Stige"@);
    assert("acque del Fiume Stige"@[0] != "Condizione Affaticato"@[0]);
    assert("acque del Fiume Stige"@ != "Condizione Affaticato"@);
}

proof fn lemma_read_immunity_runemastery(s: Seq<char>)
    requires
        immunity_named(Immunity_Type::Immunity_RuneMastery, s),
    ensures
        spec_single_immunity(s) == Some(Immunity_Type::Immunity_RuneMastery),
{
    reveal_strlit("Abbagliamenti");
    reveal_strlit("Abbagliamento");
    reveal_strlit("Abbagliato");
    reveal_strlit("Accecato");
    reveal_strlit("Acido");
    reveal_strlit("Affaticamento");
    reveal_strlit("Affaticato");
    reveal_strlit("Ammaliamento");
    reveal_strlit("Ancora Dimensionale");
    reveal_strlit("Armi Taglienti");
    reveal_strlit("Armi contundenti");
    reveal_strlit("Assorbimento del Fuoco");
    reveal_strlit("Attacchi Furtivi");
    reveal_strlit("Attacchi ai Fianchi");
    reveal_strlit("Attacchi basati sull'olfatto");
    reveal_strlit("Attacchi basati sulla vista");
    reveal_strlit("Attacchi basati sulla vista o sguardo");
    reveal_strlit("Attacchi con Sguardo");
    reveal_strlit("Attacchi con lo sguardo");
    reveal_strlit("Attacchi dipendenti dalla vista");
    reveal_strlit("Barcollante");
    reveal_strlit("Barcollare");
    reveal_strlit("Calmare Emozioni");
    reveal_strlit("Cecità");
    reveal_strlit("Charme");
    reveal_strlit("Colpi Critici");
    reveal_strlit("Colpi critici");
    reveal_strlit("Condizione Affaticato");
    reveal_strlit("Condizione Esausto");
    reveal_strlit("Confusione");
    reveal_strlit("Congedo");
    reveal_strlit("Convocazione");
    reveal_strlit("Danni Non Letali");
    reveal_strlit("Danni alle caratteristiche");
    reveal_strlit("Danni contundenti");
    reveal_strlit("Danni da arma");
    reveal_strlit("Danni da armi");
    reveal_strlit("Danni dalle Armi");
    reveal_strlit("Danni e risucchi alle caratteristiche");
    reveal_strlit("Danni e risucchi di caratteristiche");
    reveal_strlit("Danni e risucchio alle Caratteristiche");
    reveal_strlit("Danni e risucchio di caratteristiche");
    reveal_strlit("Danni perforanti e taglienti");
    reveal_strlit("Danno alle Caratteristiche");
    reveal_strlit("Danno da Pressione");
    reveal_strlit("Danno da arma");
    reveal_strlit("Danno e risucchio alle caratteristiche");
    reveal_strlit("Danno non letale");
    reveal_strlit("Dardo Incantato");
    reveal_strlit("Demenza");
    reveal_strlit("Divinazione");
    reveal_strlit("Dolore");
    reveal_strlit("Effetti a completamento di incantesimo e ad attivazione di incantesimo");
    reveal_strlit("Effetti basati sulla vista");
    reveal_strlit("Effetti d'influenza mentale");
    reveal_strlit("Effetti di Charme e Compulsione");
    reveal_strlit("Effetti di Demenza");
    reveal_strlit("Effetti di Influenza Mentale");
    reveal_strlit("Effetti di Morte");
    reveal_strlit("Effetti di Paura");
    reveal_strlit("Effetti di Sonno");
    reveal_strlit("Effetti di charme");
    reveal_strlit("Effetti di charme e compulsioni");
    reveal_strlit("Effetti di confusione e follia");
    reveal_strlit("Effetti di dolore");
    reveal_strlit("Effetti di forza");
    reveal_strlit("Effetti di influenza mentale");
    reveal_strlit("Effetti di morte");
    reveal_strlit("Effetti di morte (vedi sotto)");
    reveal_strlit("Effetti di paura");
    reveal_strlit("Effetti di sonno");
    reveal_strlit("Effetti visivi");
    reveal_strlit("Elettricità");
    reveal_strlit("Elettricità (parziale)");
    reveal_strlit("Energia Negativa");
    reveal_strlit("Energia Positiva");
    reveal_strlit("Esaurimento");
    reveal_strlit("Esausto");
    reveal_strlit("Fatica");
    reveal_strlit("Fiancheggiamento");
    reveal_strlit("Forza");
    reveal_strlit("Frastornamento");
    reveal_strlit("Frastornato");
    reveal_strlit("Freddo");
    reveal_strlit("Freddo (sé stesso e chi lo cavalca)");
    reveal_strlit("Fuoco");
    reveal_strlit("Fuoco Infernale");
    reveal_strlit("Illusione");
    reveal_strlit("Illusioni e qualsiasi attacco basato sulla vista");
    reveal_strlit("Immunità agli Incantesimi");
    reveal_strlit("Immunità al Freddo");
    reveal_strlit("Immunità all'Esilio");
    reveal_strlit("Immunità alla Magia");
    reveal_strlit("Immunità alle acque del Fiume Stige");
    reveal_strlit("Incantesimi di Ammaliamento e di Illusione");
    reveal_strlit("Individuazione dei Pensieri");
    reveal_strlit("Individuazione dell'Allineamento");
    reveal_strlit("Infermità");
    reveal_strlit("Infermo");
    reveal_strlit("Invecchiamento");
    reveal_strlit("Livelli Negativi");
    reveal_strlit("Magia");
    reveal_strlit("Malattia");
    reveal_strlit("Malattie");
    reveal_strlit("Maledizioni");
    reveal_strlit("Metamorfosi");
    reveal_strlit("Nausea");
    reveal_strlit("Nauseato");
    reveal_strlit("Non Deformante");
    reveal_strlit("Padronanza delle Rune");
    reveal_strlit("Paralisi");
    reveal_strlit("Paura");
    reveal_strlit("Pietrificazione");
    reveal_strlit("Richiamo");
    reveal_strlit("Risucchi di Energia");
    reveal_strlit("Risucchio di Caratteristiche");
    reveal_strlit("Risucchio di Energia");
    reveal_strlit("Rivela Bugie");
    reveal_strlit("Sanguinamento");
    reveal_strlit("Sanguinamento (solo Punti Ferita)");
    reveal_strlit("Scosso");
    reveal_strlit("Sguardo");
    reveal_strlit("Sonno");
    reveal_strlit("Sonoro");
    reveal_strlit("Sordità");
    reveal_strlit("Spaventato");
    reveal_strlit("Stordimento");
    reveal_strlit("Tratti degli Elementali");
    reveal_strlit("Tratti degli Sciami");
    reveal_strlit("Tratti dei Costrutti");
    reveal_strlit("Tratti dei Draghi");
    reveal_strlit("Tratti dei Non Morti");
    reveal_strlit("Tratti dei Vegetali");
    reveal_strlit("Tratti delle Melme");
    reveal_strlit("Veleni");
    reveal_strlit("Veleno");
    reveal_strlit("Veleno Ingerito");
    reveal_strlit("acido");
    reveal_strlit("acque del Fiume Stige");
    reveal_strlit("attacchi basati sulla vista ed effetti visivi");
    reveal_strlit("attacchi con Sguardo");
    reveal_strlit("attacchi con lo Sguardo");
    reveal_strlit("attacchi con lo sguardo");
    reveal_strlit("charme");
    reveal_strlit("charme sui mostri");
    reveal_strlit("compulsione");
    reveal_strlit("controllo mentale");
    reveal_strlit("contundente");
    reveal_strlit("da caduta e da schiacciamento");
    reveal_strlit("danni alle Caratteristiche");
    reveal_strlit("danni alle caratteristiche");
    reveal_strlit("danni contundenti");
    reveal_strlit("danni contundenti e perforanti");
    reveal_strlit("danni da arma");
    reveal_strlit("danni da armi");
    reveal_strlit("danni da precisione");
    reveal_strlit("danni delle armi");
    reveal_strlit("danni di precisione");
    reveal_strlit("danni e risucchi di Caratteristiche");
    reveal_strlit("danni perforanti");
    reveal_strlit("danni taglienti");
    reveal_strlit("danni taglienti e perforanti");
    reveal_strlit("danno da arma");
    reveal_strlit("danno di precisione");
    reveal_strlit("di influenza mentale e basati sullo Sguardo");
    reveal_strlit("divinazione");
    reveal_strlit("dolore");
    reveal_strlit("effetti Barcollanti");
    reveal_strlit("effetti basati sulla vista");
    reveal_strlit("effetti che bersagliano uno specifico numero di creature");
    reveal_strlit("effetti di Charme e Compulsione");
    reveal_strlit("effetti di Metamorfosi");
    reveal_strlit("effetti di Paura");
    reveal_strlit("effetti di Paura ed influenza mentale");
    reveal_strlit("effetti di Sguardo");
    reveal_strlit("effetti di Sonno");
    reveal_strlit("effetti di ammaliamento");
    reveal_strlit("effetti di charme");
    reveal_strlit("effetti di charme e compulsione");
    reveal_strlit("effetti di charme e compulsioni");
    reveal_strlit("effetti di compulsione");
    reveal_strlit("effetti di confusione e demenza");
    reveal_strlit("effetti di demenza");
    reveal_strlit("effetti di influenza mentale");
    reveal_strlit("effetti di influenza mentale e visivi");
    reveal_strlit("effetti di luce");
    reveal_strlit("effetti di maledizione");
    reveal_strlit("effetti di maledizioni");
    reveal_strlit("effetti di metamorfosi");
    reveal_strlit("effetti di morte");
    reveal_strlit("effetti di necromanzia");
    reveal_strlit("effetti di paura");
    reveal_strlit("effetti di sguardo");
    reveal_strlit("effetti di sonno");
    reveal_strlit("effetti e illusioni visive");
    reveal_strlit("effetti polimorfi");
    reveal_strlit("effetti sensoriali");
    reveal_strlit("effetti visivi");
    reveal_strlit("effetti visivi e illusioni");
    reveal_strlit("elettricità");
    reveal_strlit("emozioni");
    reveal_strlit("energia negativa");
    reveal_strlit("ferite permanenti");
    reveal_strlit("forza");
    reveal_strlit("freddo");
    reveal_strlit("fulmine");
    reveal_strlit("fuoco");
    reveal_strlit("illusioni");
    reveal_strlit("illusioni visive");
    reveal_strlit("immunità alle acque del Fiume Stige");
    reveal_strlit("invecchiamento");
    reveal_strlit("livelli negativi");
    reveal_strlit("malattia");
    reveal_strlit("malattie");
    reveal_strlit("maledizioni");
    reveal_strlit("metamorfosi");
    reveal_strlit("nausea");
    reveal_strlit("palla di fuoco");
    reveal_strlit("paralisi");
    reveal_strlit("paura");
    reveal_strlit("pietrificazione");
    reveal_strlit("possessione");
    reveal_strlit("risucchi di caratteristiche");
    reveal_strlit("risucchi di energia");
    reveal_strlit("risucchio di caratteristica");
    reveal_strlit("risucchio di caratteristiche");
    reveal_strlit("risucchio di energia");
    reveal_strlit("ruggine");
    reveal_strlit("sanguinamento");
    reveal_strlit("sonno");
    reveal_strlit("sonoro");
    reveal_strlit("sordità");
    reveal_strlit("stordimento");
    reveal_strlit("tratti dei Draghi");
    reveal_strlit("veleni");
    reveal_strlit("veleno");
    reveal_strlit("visivi ed illusori");
    assert("Abbagliamenti"@.len() == 13);
    assert("Abbagliamento"@.len() == 13);
    assert("Abbagliato"@.len() == 10);
    assert("Accecato"@.len() == 8);
    assert("Acido"@.len() == 5);
    assert("Affaticamento"@.len() == 13);
    assert("Affaticato"@.len() == 10);
    assert("Ammaliamento"@.len() == 12);
    assert("Ancora Dimensionale"@.len() == 19);
    assert("Armi Taglienti"@.len() == 14);
    assert("Armi contundenti"@.len() == 16);
    assert("Assorbimento del Fuoco"@.len() == 22);
    assert("Attacchi Furtivi"@.len() == 16);
    assert("Attacchi ai Fianchi"@.len() == 19);
    assert("Attacchi basati sull'olfatto"@.len() == 28);
    assert("Attacchi basati sulla vista"@.len() == 27);
    assert("Attacchi basati sulla vista o sguardo"@.len() == 37);
    assert("Attacchi con Sguardo"@.len() == 20);
    assert("Attacchi con lo sguardo"@.len() == 23);
    assert("Attacchi dipendenti dalla vista"@.len() == 31);
    assert("Barcollante"@.len() == 11);
    assert("Barcollare"@.len() == 10);
    assert("Calmare Emozioni"@.len() == 16);
    assert("Cecità"@.len() == 6);
    assert("Charme"@.len() == 6);
    assert("Colpi Critici"@.len() == 13);
    assert("Colpi critici"@.len() == 13);
    assert("Condizione Affaticato"@.len() == 21);
    assert("Condizione Esausto"@.len() == 18);
    assert("Confusione"@.len() == 10);
    assert("Congedo"@.len() == 7);
    assert("Convocazione"@.len() == 12);
    assert("Danni Non Letali"@.len() == 16);
    assert("Danni alle caratteristiche"@.len() == 26);
    assert("Danni contundenti"@.len() == 17);
    assert("Danni da arma"@.len() == 13);
    assert("Danni da armi"@.len() == 13);
    assert("Danni dalle Armi"@.len() == 16);
    assert("Danni e risucchi alle caratteristiche"@.len() == 37);
    assert("Danni e risucchi di caratteristiche"@.len() == 35);
    assert("Danni e risucchio alle Caratteristiche"@.len() == 38);
    assert("Danni e risucchio di caratteristiche"@.len() == 36);
    assert("Danni perforanti e taglienti"@.len() == 28);
    assert("Danno alle Caratteristiche"@.len() == 26);
    assert("Danno da Pressione"@.len() == 18);
    assert("Danno da arma"@.len() == 13);
    assert("Danno e risucchio alle caratteristiche"@.len() == 38);
    assert("Danno non letale"@.len() == 16);
    assert("Dardo Incantato"@.len() == 15);
    assert("Demenza"@.len() == 7);
    assert("Divinazione"@.len() == 11);
    assert("Dolore"@.len() == 6);
    assert("Effetti a completamento di incantesimo e ad attivazione di incantesimo"@.len() == 70);
    assert("Effetti basati sulla vista"@.len() == 26);
    assert("Effetti d'influenza mentale"@.len() == 27);
    assert("Effetti di Charme e Compulsione"@.len() == 31);
    assert("Effetti di Demenza"@.len() == 18);
    assert("Effetti di Influenza Mentale"@.len() == 28);
    assert("Effetti di Morte"@.len() == 16);
    assert("Effetti di Paura"@.len() == 16);
    assert("Effetti di Sonno"@.len() == 16);
    assert("Effetti di charme"@.len() == 17);
    assert("Effetti di charme e compulsioni"@.len() == 31);
    assert("Effetti di confusione e follia"@.len() == 30);
    assert("Effetti di dolore"@.len() == 17);
    assert("Effetti di forza"@.len() == 16);
    assert("Effetti di influenza mentale"@.len() == 28);
    assert("Effetti di morte"@.len() == 16);
    assert("Effetti di morte (vedi sotto)"@.len() == 29);
    assert("Effetti di paura"@.len() == 16);
    assert("Effetti di sonno"@.len() == 16);
    assert("Effetti visivi"@.len() == 14);
    assert("Elettricità"@.len() == 11);
    assert("Elettricità (parziale)"@.len() == 22);
    assert("Energia Negativa"@.len() == 16);
    assert("Energia Positiva"@.len() == 16);
    assert("Esaurimento"@.len() == 11);
    assert("Esausto"@.len() == 7);
    assert("Fatica"@.len() == 6);
    assert("Fiancheggiamento"@.len() == 16);
    assert("Forza"@.len() == 5);
    assert("Frastornamento"@.len() == 14);
    assert("Frastornato"@.len() == 11);
    assert("Freddo"@.len() == 6);
    assert("Freddo (sé stesso e chi lo cavalca)"@.len() == 35);
    assert("Fuoco"@.len() == 5);
    assert("Fuoco Infernale"@.len() == 15);
    assert("Illusione"@.len() == 9);
    assert("Illusioni e qualsiasi attacco basato sulla vista"@.len() == 48);
    assert("Immunità agli Incantesimi"@.len() == 25);
    assert("Immunità al Freddo"@.len() == 18);
    assert("Immunità all'Esilio"@.len() == 19);
    assert("Immunità alla Magia"@.len() == 19);
    assert("Immunità alle acque del Fiume Stige"@.len() == 35);
    assert("Incantesimi di Ammaliamento e di Illusione"@.len() == 42);
    assert("Individuazione dei Pensieri"@.len() == 27);
    assert("Individuazione dell'Allineamento"@.len() == 32);
    assert("Infermità"@.len() == 9);
    assert("Infermo"@.len() == 7);
    assert("Invecchiamento"@.len() == 14);
    assert("Livelli Negativi"@.len() == 16);
    assert("Magia"@.len() == 5);
    assert("Malattia"@.len() == 8);
    assert("Malattie"@.len() == 8);
    assert("Maledizioni"@.len() == 11);
    assert("Metamorfosi"@.len() == 11);
    assert("Nausea"@.len() == 6);
    assert("Nauseato"@.len() == 8);
    assert("Non Deformante"@.len() == 14);
    assert("Padronanza delle Rune"@.len() == 21);
    assert("Paralisi"@.len() == 8);
    assert("Paura"@.len() == 5);
    assert("Pietrificazione"@.len() == 15);
    assert("Richiamo"@.len() == 8);
    assert("Risucchi di Energia"@.len() == 19);
    assert("Risucchio di Caratteristiche"@.len() == 28);
    assert("Risucchio di Energia"@.len() == 20);
    assert("Rivela Bugie"@.len() == 12);
    assert("Sanguinamento"@.len() == 13);
    assert("Sanguinamento (solo Punti Ferita)"@.len() == 33);
    assert("Scosso"@.len() == 6);
    assert("Sguardo"@.len() == 7);
    assert("Sonno"@.len() == 5);
    assert("Sonoro"@.len() == 6);
    assert("Sordità"@.len() == 7);
    assert("Spaventato"@.len() == 10);
    assert("Stordimento"@.len() == 11);
    assert("Tratti degli Elementali"@.len() == 23);
    assert("Tratti degli Sciami"@.len() == 19);
    assert("Tratti dei Costrutti"@.len() == 20);
    assert("Tratti dei Draghi"@.len() == 17);
    assert("Tratti dei Non Morti"@.len() == 20);
    assert("Tratti dei Vegetali"@.len() == 19);
    assert("Tratti delle Melme"@.len() == 18);
    assert("Veleni"@.len() == 6);
    assert("Veleno"@.len() == 6);
    assert("Veleno Ingerito"@.len() == 15);
    assert("acido"@.len() == 5);
    assert("acque del Fiume Stige"@.len() == 21);
    assert("attacchi basati sulla vista ed effetti visivi"@.len() == 45);
    assert("attacchi con Sguardo"@.len() == 20);
    assert("attacchi con lo Sguardo"@.len() == 23);
    assert("attacchi con lo sguardo"@.len() == 23);
    assert("charme"@.len() == 6);
    assert("charme sui mostri"@.len() == 17);
    assert("compulsione"@.len() == 11);
    assert("controllo mentale"@.len() == 17);
    assert("contundente"@.len() == 11);
    assert("da caduta e da schiacciamento"@.len() == 29);
    assert("danni alle Caratteristiche"@.len() == 26);
    assert("danni alle caratteristiche"@.len() == 26);
    assert("danni contundenti"@.len() == 17);
    assert("danni contundenti e perforanti"@.len() == 30);
    assert("danni da arma"@.len() == 13);
    assert("danni da armi"@.len() == 13);
    assert("danni da precisione"@.len() == 19);
    assert("danni delle armi"@.len() == 16);
    assert("danni di precisione"@.len() == 19);
    assert("danni e risucchi di Caratteristiche"@.len() == 35);
    assert("danni perforanti"@.len() == 16);
    assert("danni taglienti"@.len() == 15);
    assert("danni taglienti e perforanti"@.len() == 28);
    assert("danno da arma"@.len() == 13);
    assert("danno di precisione"@.len() == 19);
    assert("di influenza mentale e basati sullo Sguardo"@.len() == 43);
    assert("divinazione"@.len() == 11);
    assert("dolore"@.len() == 6);
    assert("effetti Barcollanti"@.len() == 19);
    assert("effetti basati sulla vista"@.len() == 26);
    assert("effetti che bersagliano uno specifico numero di creature"@.len() == 56);
    assert("effetti di Charme e Compulsione"@.len() == 31);
    assert("effetti di Metamorfosi"@.len() == 22);
    assert("effetti di Paura"@.len() == 16);
    assert("effetti di Paura ed influenza mentale"@.len() == 37);
    assert("effetti di Sguardo"@.len() == 18);
    assert("effetti di Sonno"@.len() == 16);
    assert("effetti di ammaliamento"@.len() == 23);
    assert("effetti di charme"@.len() == 17);
    assert("effetti di charme e compulsione"@.len() == 31);
    assert("effetti di charme e compulsioni"@.len() == 31);
    assert("effetti di compulsione"@.len() == 22);
    assert("effetti di confusione e demenza"@.len() == 31);
    assert("effetti di demenza"@.len() == 18);
    assert("effetti di influenza mentale"@.len() == 28);
    assert("effetti di influenza mentale e visivi"@.len() == 37);
    assert("effetti di luce"@.len() == 15);
    assert("effetti di maledizione"@.len() == 22);
    assert("effetti di maledizioni"@.len() == 22);
    assert("effetti di metamorfosi"@.len() == 22);
    assert("effetti di morte"@.len() == 16);
    assert("effetti di necromanzia"@.len() == 22);
    assert("effetti di paura"@.len() == 16);
    assert("effetti di sguardo"@.len() == 18);
    assert("effetti di sonno"@.len() == 16);
    assert("effetti e illusioni visive"@.len() == 26);
    assert("effetti polimorfi"@.len() == 17);
    assert("effetti sensoriali"@.len() == 18);
    assert("effetti visivi"@.len() == 14);
    assert("effetti visivi e illusioni"@.len() == 26);
    assert("elettricità"@.len() == 11);
    assert("emozioni"@.len() == 8);
    assert("energia negativa"@.len() == 16);
    assert("ferite permanenti"@.len() == 17);
    assert("forza"@.len() == 5);
    assert("freddo"@.len() == 6);
    assert("fulmine"@.len() == 7);
    assert("fuoco"@.len() == 5);
    assert("illusioni"@.len() == 9);
    assert("illusioni visive"@.len() == 16);
    assert("immunità alle acque del Fiume Stige"@.len() == 35);
    assert("invecchiamento"@.len() == 14);
    assert("livelli negativi"@.len() == 16);
    assert("malattia"@.len() == 8);
    assert("malattie"@.len() == 8);
    assert("maledizioni"@.len() == 11);
    assert("metamorfosi"@.len() == 11);
    assert("nausea"@.len() == 6);
    assert("palla di fuoco"@.len() == 14);
    assert("paralisi"@.len() == 8);
    assert("paura"@.len() == 5);
    assert("pietrificazione"@.len() == 15);
    assert("possessione"@.len() == 11);
    assert("risucchi di caratteristiche"@.len() == 27);
    assert("risucchi di energia"@.len() == 19);
    assert("risucchio di caratteristica"@.len() == 27);
    assert("risucchio di caratteristiche"@.len() == 28);
    assert("risucchio di energia"@.len() == 20);
    assert("ruggine"@.len() == 7);
    assert("sanguinamento"@.len() == 13);
    assert("sonno"@.len() == 5);
    assert("sonoro"@.len() == 6);
    assert("sordità"@.len() == 7);
    assert("stordimento"@.len() == 11);
    assert("tratti dei Draghi"@.len() == 17);
    assert("veleni"@.len() == 6);
    assert("veleno"@.len() == 6);
    assert("visivi ed illusori"@.len() == 18);
    assert("Padronanza delle Rune"@[0] != "Condizione Affaticato"@[0]);
    assert("Padronanza delle Rune"@ != "Condizione Affaticato"@);
    assert("Padronanza delle Rune"@[0] != "acque del Fiume Stige"@[0]);
    assert("Padronanza delle Rune"@ != "acque del Fiume Stige"@);
}

proof fn lemma_read_immunity_magiccontrol(s: Seq<char>)
    requires
        immunity_named(Immunity_Type::Immunity_MagicControl, s),
    ensures
        spec_single_immunity(s) == Some(Immunity_Type::Immunity_MagicControl),
{
    reveal_strlit("Abbagliamenti");
    reveal_strlit("Abbagliamento");
    reveal_strlit("Abbagliato");
    reveal_strlit("Accecato");
    reveal_strlit("Acido");
    reveal_strlit("Affaticamento");
    reveal_strlit("Affaticato");
    reveal_strlit("Ammaliamento");
    reveal_strlit("Ancora Dimensionale");
    reveal_strlit("Armi Taglienti");
    reveal_strlit("Armi contundenti");
    reveal_strlit("Assorbimento del Fuoco");
    reveal_strlit("Attacchi Furtivi");
    reveal_strlit("Attacchi ai Fianchi");
    reveal_strlit("Attacchi basati sull'olfatto");
    reveal_strlit("Attacchi basati sulla vista");
    reveal_strlit("Attacchi basati sulla vista o sguardo");
    reveal_strlit("Attacchi con Sguardo");
    reveal_strlit("Attacchi con lo sguardo");
    reveal_strlit("Attacchi dipendenti dalla vista");
    reveal_strlit("Barcollante");
    reveal_strlit("Barcollare");
    reveal_strlit("Calmare Emozioni");
    reveal_strlit("Cecità");
    reveal_strlit("Charme");
    reveal_strlit("Colpi Critici");
    reveal_strlit("Colpi critici");
    reveal_strlit("Condizione Affaticato");
    reveal_strlit("Condizione Esausto");
    reveal_strlit("Confusione");
    reveal_strlit("Congedo");
    reveal_strlit("Controllo Magico");
    reveal_strlit("Convocazione");
    reveal_strlit("Danni Non Letali");
    reveal_strlit("Danni alle caratteristiche");
    reveal_strlit("Danni contundenti");
    reveal_strlit("Danni da arma");
    reveal_strlit("Danni da armi");
    reveal_strlit("Danni dalle Armi");
    reveal_strlit("Danni e risucchi alle caratteristiche");
    reveal_strlit("Danni e risucchi di caratteristiche");
    reveal_strlit("Danni e risucchio alle Caratteristiche");
    reveal_strlit("Danni e risucchio di caratteristiche");
    reveal_strlit("Danni perforanti e taglienti");
    reveal_strlit("Danno alle Caratteristiche");
    reveal_strlit("Danno da Pressione");
    reveal_strlit("Danno da arma");
    reveal_strlit("Danno e risucchio alle caratteristiche");
    reveal_strlit("Danno non letale");
    reveal_strlit("Dardo Incantato");
    reveal_strlit("Demenza");
    reveal_strlit("Divinazione");
    reveal_strlit("Dolore");
    reveal_strlit("Effetti a completamento di incantesimo e ad attivazione di incantesimo");
    reveal_strlit("Effetti basati sulla vista");
    reveal_strlit("Effetti d'influenza mentale");
    reveal_strlit("Effetti di Charme e Compulsione");
    reveal_strlit("Effetti di Demenza");
    reveal_strlit("Effetti di Influenza Mentale");
    reveal_strlit("Effetti di Morte");
    reveal_strlit("Effetti di Paura");
    reveal_strlit("Effetti di Sonno");
    reveal_strlit("Effetti di charme");
    reveal_strlit("Effetti di charme e compulsioni");
    reveal_strlit("Effetti di confusione e follia");
    reveal_strlit("Effetti di dolore");
    reveal_strlit("Effetti di forza");
    reveal_strlit("Effetti di influenza mentale");
    reveal_strlit("Effetti di morte");
    reveal_strlit("Effetti di morte (vedi sotto)");
    reveal_strlit("Effetti di paura");
    reveal_strlit("Effetti di sonno");
    reveal_strlit("Effetti visivi");
    reveal_strlit("Elettricità");
    reveal_strlit("Elettricità (parziale)");
    reveal_strlit("Energia Negativa");
    reveal_strlit("Energia Positiva");
    reveal_strlit("Esaurimento");
    reveal_strlit("Esausto");
    reveal_strlit("Fatica");
    reveal_strlit("Fiancheggiamento");
    reveal_strlit("Forza");
    reveal_strlit("Frastornamento");
    reveal_strlit("Frastornato");
    reveal_strlit("Freddo");
    reveal_strlit("Freddo (sé stesso e chi lo cavalca)");
    reveal_strlit("Fuoco");
    reveal_strlit("Fuoco Infernale");
    reveal_strlit("Illusione");
    reveal_strlit("Illusioni e qualsiasi attacco basato sulla vista");
    reveal_strlit("Immunità agli Incantesimi");
    reveal_strlit("Immunità al Freddo");
    reveal_strlit("Immunità all'Esilio");
    reveal_strlit("Immunità alla Magia");
    reveal_strlit("Immunità alle acque del Fiume Stige");
    reveal_strlit("Incantesimi di Ammaliamento e di Illusione");
    reveal_strlit("Individuazione dei Pensieri");
    reveal_strlit("Individuazione dell'Allineamento");
    reveal_strlit("Infermità");
    reveal_strlit("Infermo");
    reveal_strlit("Invecchiamento");
    reveal_strlit("Livelli Negativi");
    reveal_strlit("Magia");
    reveal_strlit("Malattia");
    reveal_strlit("Malattie");
    reveal_strlit("Maledizioni");
    reveal_strlit("Metamorfosi");
    reveal_strlit("Nausea");
    reveal_strlit("Nauseato");
    reveal_strlit("Non Deformante");
    reveal_strlit("Padronanza delle Rune");
    reveal_strlit("Paralisi");
    reveal_strlit("Paura");
    reveal_strlit("Pietrificazione");
    reveal_strlit("Richiamo");
    reveal_strlit("Risucchi di Energia");
    reveal_strlit("Risucchio di Caratteristiche");
    reveal_strlit("Risucchio di Energia");
    reveal_strlit("Rivela Bugie");
    reveal_strlit("Sanguinamento");
    reveal_strlit("Sanguinamento (solo Punti Ferita)");
    reveal_strlit("Scosso");
    reveal_strlit("Sguardo");
    reveal_strlit("Sonno");
    reveal_strlit("Sonoro");
    reveal_strlit("Sordità");
    reveal_strlit("Spaventato");
    reveal_strlit("Stordimento");
    reveal_strlit("Tratti degli Elementali");
    reveal_strlit("Tratti degli Sciami");
    reveal_strlit("Tratti dei Costrutti");
    reveal_strlit("Tratti dei Draghi");
    reveal_strlit("Tratti dei Non Morti");
    reveal_strlit("Tratti dei Vegetali");
    reveal_strlit("Tratti delle Melme");
    reveal_strlit("Veleni");
    reveal_strlit("Veleno");
    reveal_strlit("Veleno Ingerito");
    reveal_strlit("acido");
    reveal_strlit("acque del Fiume Stige");
    reveal_strlit("attacchi basati sulla vista ed effetti visivi");
    reveal_strlit("attacchi con Sguardo");
    reveal_strlit("attacchi con lo Sguardo");
    reveal_strlit("attacchi con lo sguardo");
    reveal_strlit("charme");
    reveal_strlit("charme sui mostri");
    reveal_strlit("compulsione");
    reveal_strlit("controllo mentale");
    reveal_strlit("contundente");
    reveal_strlit("da caduta e da schiacciamento");
    reveal_strlit("danni alle Caratteristiche");
    reveal_strlit("danni alle caratteristiche");
    reveal_strlit("danni contundenti");
    reveal_strlit("danni contundenti e perforanti");
    reveal_strlit("danni da arma");
    reveal_strlit("danni da armi");
    reveal_strlit("danni da precisione");
    reveal_strlit("danni delle armi");
    reveal_strlit("danni di precisione");
    reveal_strlit("danni e risucchi di Caratteristiche");
    reveal_strlit("danni perforanti");
    reveal_strlit("danni taglienti");
    reveal_strlit("danni taglienti e perforanti");
    reveal_strlit("danno da arma");
    reveal_strlit("danno di precisione");
    reveal_strlit("di influenza mentale e basati sullo Sguardo");
    reveal_strlit("divinazione");
    reveal_strlit("dolore");
    reveal_strlit("effetti Barcollanti");
    reveal_strlit("effetti basati sulla vista");
    reveal_strlit("effetti che bersagliano uno specifico numero di creature");
    reveal_strlit("effetti di Charme e Compulsione");
    reveal_strlit("effetti di Metamorfosi");
    reveal_strlit("effetti di Paura");
    reveal_strlit("effetti di Paura ed influenza mentale");
    reveal_strlit("effetti di Sguardo");
    reveal_strlit("effetti di Sonno");
    reveal_strlit("effetti di ammaliamento");
    reveal_strlit("effetti di charme");
    reveal_strlit("effetti di charme e compulsione");
    reveal_strlit("effetti di charme e compulsioni");
    reveal_strlit("effetti di compulsione");
    reveal_strlit("effetti di confusione e demenza");
    reveal_strlit("effetti di demenza");
    reveal_strlit("effetti di influenza mentale");
    reveal_strlit("effetti di influenza mentale e visivi");
    reveal_strlit("effetti di luce");
    reveal_strlit("effetti di maledizione");
    reveal_strlit("effetti di maledizioni");
    reveal_strlit("effetti di metamorfosi");
    reveal_strlit("effetti di morte");
    reveal_strlit("effetti di necromanzia");
    reveal_strlit("effetti di paura");
    reveal_strlit("effetti di sguardo");
    reveal_strlit("effetti di sonno");
    reveal_strlit("effetti e illusioni visive");
    reveal_strlit("effetti polimorfi");
    reveal_strlit("effetti sensoriali");
    reveal_strlit("effetti visivi");
    reveal_strlit("effetti visivi e illusioni");
    reveal_strlit("elettricità");
    reveal_strlit("emozioni");
    reveal_strlit("energia negativa");
    reveal_strlit("ferite permanenti");
    reveal_strlit("forza");
    reveal_strlit("freddo");
    reveal_strlit("fulmine");
    reveal_strlit("fuoco");
    reveal_strlit("illusioni");
    reveal_strlit("illusioni visive");
    reveal_strlit("immunità alle acque del Fiume Stige");
    reveal_strlit("invecchiamento");
    reveal_strlit("livelli negativi");
    reveal_strlit("malattia");
    reveal_strlit("malattie");
    reveal_strlit("maledizioni");
    reveal_strlit("metamorfosi");
    reveal_strlit("nausea");
    reveal_strlit("palla di fuoco");
    reveal_strlit("paralisi");
    reveal_strlit("paura");
    reveal_strlit("pietrificazione");
    reveal_strlit("possessione");
    reveal_strlit("risucchi di caratteristiche");
    reveal_strlit("risucchi di energia");
    reveal_strlit("risucchio di caratteristica");
    reveal_strlit("risucchio di caratteristiche");
    reveal_strlit("risucchio di energia");
    reveal_strlit("ruggine");
    reveal_strlit("sanguinamento");
    reveal_strlit("sonno");
    reveal_strlit("sonoro");
    reveal_strlit("sordità");
    reveal_strlit("stordimento");
    reveal_strlit("tratti dei Draghi");
    reveal_strlit("veleni");
    reveal_strlit("veleno");
    reveal_strlit("visivi ed illusori");
    assert("Abbagliamenti"@.len() == 13);
    assert("Abbagliamento"@.len() == 13);
    assert("Abbagliato"@.len() == 10);
    assert("Accecato"@.len() == 8);
    assert("Acido"@.len() == 5);
    assert("Affaticamento"@.len() == 13);
    assert("Affaticato"@.len() == 10);
    assert("Ammaliamento"@.len() == 12);
    assert("Ancora Dimensionale"@.len() == 19);
    assert("Armi Taglienti"@.len() == 14);
    assert("Armi contundenti"@.len() == 16);
    assert("Assorbimento del Fuoco"@.len() == 22);
    assert("Attacchi Furtivi"@.len() == 16);
    assert("Attacchi ai Fianchi"@.len() == 19);
    assert("Attacchi basati sull'olfatto"@.len() == 28);
    assert("Attacchi basati sulla vista"@.len() == 27);
    assert("Attacchi basati sulla vista o sguardo"@.len() == 37);
    assert("Attacchi con Sguardo"@.len() == 20);
    assert("Attacchi con lo sguardo"@.len() == 23);
    assert("Attacchi dipendenti dalla vista"@.len() == 31);
    assert("Barcollante"@.len() == 11);
    assert("Barcollare"@.len() == 10);
    assert("Calmare Emozioni"@.len() == 16);
    assert("Cecità"@.len() == 6);
    assert("Charme"@.len() == 6);
    assert("Colpi Critici"@.len() == 13);
    assert("Colpi critici"@.len() == 13);
    assert("Condizione Affaticato"@.len() == 21);
    assert("Condizione Esausto"@.len() == 18);
    assert("Confusione"@.len() == 10);
    assert("Congedo"@.len() == 7);
    assert("Controllo Magico"@.len() == 16);
    assert("Convocazione"@.len() == 12);
    assert("Danni Non Letali"@.len() == 16);
    assert("Danni alle caratteristiche"@.len() == 26);
    assert("Danni contundenti"@.len() == 17);
    assert("Danni da arma"@.len() == 13);
    assert("Danni da armi"@.len() == 13);
    assert("Danni dalle Armi"@.len() == 16);
    assert("Danni e risucchi alle caratteristiche"@.len() == 37);
    assert("Danni e risucchi di caratteristiche"@.len() == 35);
    assert("Danni e risucchio alle Caratteristiche"@.len() == 38);
    assert("Danni e risucchio di caratteristiche"@.len() == 36);
    assert("Danni perforanti e taglienti"@.len() == 28);
    assert("Danno alle Caratteristiche"@.len() == 26);
    assert("Danno da Pressione"@.len() == 18);
    assert("Danno da arma"@.len() == 13);
    assert("Danno e risucchio alle caratteristiche"@.len() == 38);
    assert("Danno non letale"@.len() == 16);
    assert("Dardo Incantato"@.len() == 15);
    assert("Demenza"@.len() == 7);
    assert("Divinazione"@.len() == 11);
    assert("Dolore"@.len() == 6);
    assert("Effetti a completamento di incantesimo e ad attivazione di incantesimo"@.len() == 70);
    assert("Effetti basati sulla vista"@.len() == 26);
    assert("Effetti d'influenza mentale"@.len() == 27);
    assert("Effetti di Charme e Compulsione"@.len() == 31);
    assert("Effetti di Demenza"@.len() == 18);
    assert("Effetti di Influenza Mentale"@.len() == 28);
    assert("Effetti di Morte"@.len() == 16);
    assert("Effetti di Paura"@.len() == 16);
    assert("Effetti di Sonno"@.len() == 16);
    assert("Effetti di charme"@.len() == 17);
    assert("Effetti di charme e compulsioni"@.len() == 31);
    assert("Effetti di confusione e follia"@.len() == 30);
    assert("Effetti di dolore"@.len() == 17);
    assert("Effetti di forza"@.len() == 16);
    assert("Effetti di influenza mentale"@.len() == 28);
    assert("Effetti di morte"@.len() == 16);
    assert("Effetti di morte (vedi sotto)"@.len() == 29);
    assert("Effetti di paura"@.len() == 16);
    assert("Effetti di sonno"@.len() == 16);
    assert("Effetti visivi"@.len() == 14);
    assert("Elettricità"@.len() == 11);
    assert("Elettricità (parziale)"@.len() == 22);
    assert("Energia Negativa"@.len() == 16);
    assert("Energia Positiva"@.len() == 16);
    assert("Esaurimento"@.len() == 11);
    assert("Esausto"@.len() == 7);
    assert("Fatica"@.len() == 6);
    assert("Fiancheggiamento"@.len() == 16);
    assert("Forza"@.len() == 5);
    assert("Frastornamento"@.len() == 14);
    assert("Frastornato"@.len() == 11);
    assert("Freddo"@.len() == 6);
    assert("Freddo (sé stesso e chi lo cavalca)"@.len() == 35);
    assert("Fuoco"@.len() == 5);
    assert("Fuoco Infernale"@.len() == 15);
    assert("Illusione"@.len() == 9);
    assert("Illusioni e qualsiasi attacco basato sulla vista"@.len() == 48);
    assert("Immunità agli Incantesimi"@.len() == 25);
    assert("Immunità al Freddo"@.len() == 18);
    assert("Immunità all'Esilio"@.len() == 19);
    assert("Immunità alla Magia"@.len() == 19);
    assert("Immunità alle acque del Fiume Stige"@.len() == 35);
    assert("Incantesimi di Ammaliamento e di Illusione"@.len() == 42);
    assert("Individuazione dei Pensieri"@.len() == 27);
    assert("Individuazione dell'Allineamento"@.len() == 32);
    assert("Infermità"@.len() == 9);
    assert("Infermo"@.len() == 7);
    assert("Invecchiamento"@.len() == 14);
    assert("Livelli Negativi"@.len() == 16);
    assert("Magia"@.len() == 5);
    assert("Malattia"@.len() == 8);
    assert("Malattie"@.len() == 8);
    assert("Maledizioni"@.len() == 11);
    assert("Metamorfosi"@.len() == 11);
    assert("Nausea"@.len() == 6);
    assert("Nauseato"@.len() == 8);
    assert("Non Deformante"@.len() == 14);
    assert("Padronanza delle Rune"@.len() == 21);
    assert("Paralisi"@.len() == 8);
    assert("Paura"@.len() == 5);
    assert("Pietrificazione"@.len() == 15);
    assert("Richiamo"@.len() == 8);
    assert("Risucchi di Energia"@.len() == 19);
    assert("Risucchio di Caratteristiche"@.len() == 28);
    assert("Risucchio di Energia"@.len() == 20);
    assert("Rivela Bugie"@.len() == 12);
    assert("Sanguinamento"@.len() == 13);
    assert("Sanguinamento (solo Punti Ferita)"@.len() == 33);
    assert("Scosso"@.len() == 6);
    assert("Sguardo"@.len() == 7);
    assert("Sonno"@.len() == 5);
    assert("Sonoro"@.len() == 6);
    assert("Sordità"@.len() == 7);
    assert("Spaventato"@.len() == 10);
    assert("Stordimento"@.len() == 11);
    assert("Tratti degli Elementali"@.len() == 23);
    assert("Tratti degli Sciami"@.len() == 19);
    assert("Tratti dei Costrutti"@.len() == 20);
    assert("Tratti dei Draghi"@.len() == 17);
    assert("Tratti dei Non Morti"@.len() == 20);
    assert("Tratti dei Vegetali"@.len() == 19);
    assert("Tratti delle Melme"@.len() == 18);
    assert("Veleni"@.len() == 6);
    assert("Veleno"@.len() == 6);
    assert("Veleno Ingerito"@.len() == 15);
    assert("acido"@.len() == 5);
    assert("acque del Fiume Stige"@.len() == 21);
    assert("attacchi basati sulla vista ed effetti visivi"@.len() == 45);
    assert("attacchi con Sguardo"@.len() == 20);
    assert("attacchi con lo Sguardo"@.len() == 23);
    assert("attacchi con lo sguardo"@.len() == 23);
    assert("charme"@.len() == 6);
    assert("charme sui mostri"@.len() == 17);
    assert("compulsione"@.len() == 11);
    assert("controllo mentale"@.len() == 17);
    assert("contundente"@.len() == 11);
    assert("da caduta e da schiacciamento"@.len() == 29);
    assert("danni alle Caratteristiche"@.len() == 26);
    assert("danni alle caratteristiche"@.len() == 26);
    assert("danni contundenti"@.len() == 17);
    assert("danni contundenti e perforanti"@.len() == 30);
    assert("danni da arma"@.len() == 13);
    assert("danni da armi"@.len() == 13);
    assert("danni da precisione"@.len() == 19);
    assert("danni delle armi"@.len() == 16);
    assert("danni di precisione"@.len() == 19);
    assert("danni e risucchi di Caratteristiche"@.len() == 35);
    assert("danni perforanti"@.len() == 16);
    assert("danni taglienti"@.len() == 15);
    assert("danni taglienti e perforanti"@.len() == 28);
    assert("danno da arma"@.len() == 13);
    assert("danno di precisione"@.len() == 19);
    assert("di influenza mentale e basati sullo Sguardo"@.len() == 43);
    assert("divinazione"@.len() == 11);
    assert("dolore"@.len() == 6);
    assert("effetti Barcollanti"@.len() == 19);
    assert("effetti basati sulla vista"@.len() == 26);
    assert("effetti che bersagliano uno specifico numero di creature"@.len() == 56);
    assert("effetti di Charme e Compulsione"@.len() == 31);
    assert("effetti di Metamorfosi"@.len() == 22);
    assert("effetti di Paura"@.len() == 16);
    assert("effetti di Paura ed influenza mentale"@.len() == 37);
    assert("effetti di Sguardo"@.len() == 18);
    assert("effetti di Sonno"@.len() == 16);
    assert("effetti di ammaliamento"@.len() == 23);
    assert("effetti di charme"@.len() == 17);
    assert("effetti di charme e compulsione"@.len() == 31);
    assert("effetti di charme e compulsioni"@.len() == 31);
    assert("effetti di compulsione"@.len() == 22);
    assert("effetti di confusione e demenza"@.len() == 31);
    assert("effetti di demenza"@.len() == 18);
    assert("effetti di influenza mentale"@.len() == 28);
    assert("effetti di influenza mentale e visivi"@.len() == 37);
    assert("effetti di luce"@.len() == 15);
    assert("effetti di maledizione"@.len() == 22);
    assert("effetti di maledizioni"@.len() == 22);
    assert("effetti di metamorfosi"@.len() == 22);
    assert("effetti di morte"@.len() == 16);
    assert("effetti di necromanzia"@.len() == 22);
    assert("effetti di paura"@.len() == 16);
    assert("effetti di sguardo"@.len() == 18);
    assert("effetti di sonno"@.len() == 16);
    assert("effetti e illusioni visive"@.len() == 26);
    assert("effetti polimorfi"@.len() == 17);
    assert("effetti sensoriali"@.len() == 18);
    assert("effetti visivi"@.len() == 14);
    assert("effetti visivi e illusioni"@.len() == 26);
    assert("elettricità"@.len() == 11);
    assert("emozioni"@.len() == 8);
    assert("energia negativa"@.len() == 16);
    assert("ferite permanenti"@.len() == 17);
    assert("forza"@.len() == 5);
    assert("freddo"@.len() == 6);
    assert("fulmine"@.len() == 7);
    assert("fuoco"@.len() == 5);
    assert("illusioni"@.len() == 9);
    assert("illusioni visive"@.len() == 16);
    assert("immunità alle acque del Fiume Stige"@.len() == 35);
    assert("invecchiamento"@.len() == 14);
    assert("livelli negativi"@.len() == 16);
    assert("malattia"@.len() == 8);
    assert("malattie"@.len() == 8);
    assert("maledizioni"@.len() == 11);
    assert("metamorfosi"@.len() == 11);
    assert("nausea"@.len() == 6);
    assert("palla di fuoco"@.len() == 14);
    assert("paralisi"@.len() == 8);
    assert("paura"@.len() == 5);
    assert("pietrificazione"@.len() == 15);
    assert("possessione"@.len() == 11);
    assert("risucchi di caratteristiche"@.len() == 27);
    assert("risucchi di energia"@.len() == 19);
    assert("risucchio di caratteristica"@.len() == 27);
    assert("risucchio di caratteristiche"@.len() == 28);
    assert("risucchio di energia"@.len() == 20);
    assert("ruggine"@.len() == 7);
    assert("sanguinamento"@.len() == 13);
    assert("sonno"@.len() == 5);
    assert("sonoro"@.len() == 6);
    assert("sordità"@.len() == 7);
    assert("stordimento"@.len() == 11);
    assert("tratti dei Draghi"@.len() == 17);
    assert("veleni"@.len() == 6);
    assert("veleno"@.len() == 6);
    assert("visivi ed illusori"@.len() == 18);
    assert("Controllo Magico"@[0] != "Energia Negativa"@[0]);
    assert("Controllo Magico"@ != "Energia Negativa"@);
    assert("Controllo Magico"@[0] != "energia negativa"@[0]);
    assert("Controllo Magico"@ != "energia negativa"@);
    assert("Controllo Magico"@[0] != "Energia Positiva"@[0]);
    assert("Controllo Magico"@ != "Energia Positiva"@);
    assert("Controllo Magico"@[0] != "energia negativa"@[0]);
    assert("Controllo Magico"@ != "energia negativa"@);
    assert("Controllo Magico"@[0] != "effetti di sonno"@[0]);
    assert("Controllo Magico"@ != "effetti di sonno"@);
    assert("Controllo Magico"@[0] != "Effetti di Sonno"@[0]);
    assert("Controllo Magico"@ != "Effetti di Sonno"@);
    assert("Controllo Magico"@[0] != "Effetti di sonno"@[0]);
    assert("Controllo Magico"@ != "Effetti di sonno"@);
    assert("Controllo Magico"@[0] != "effetti di Sonno"@[0]);
    assert("Controllo Magico"@ != "effetti di Sonno"@);
    assert("Controllo Magico"@[0] != "Effetti di Paura"@[0]);
    assert("Controllo Magico"@ != "Effetti di Paura"@);
    assert("Controllo Magico"@[0] != "effetti di Paura"@[0]);
    assert("Controllo Magico"@ != "effetti di Paura"@);
    assert("Controllo Magico"@[0] != "effetti di paura"@[0]);
    assert("Controllo Magico"@ != "effetti di paura"@);
    assert("Controllo Magico"@[0] != "Effetti di paura"@[0]);
    assert("Controllo Magico"@ != "Effetti di paura"@);
    assert("Controllo Magico"@[0] != "Attacchi Furtivi"@[0]);
    assert("Controllo Magico"@ != "Attacchi Furtivi"@);
    assert("Controllo Magico"@[0] != "danni delle armi"@[0]);
    assert("Controllo Magico"@ != "danni delle armi"@);
    assert("Controllo Magico"@[0] != "Danni dalle Armi"@[0]);
    assert("Controllo Magico"@ != "Danni dalle Armi"@);
    assert("Controllo Magico"@[0] != "Armi contundenti"@[0]);
    assert("Controllo Magico"@ != "Armi contundenti"@);
    assert("Controllo Magico"@[0] != "danni perforanti"@[0]);
    assert("Controllo Magico"@ != "danni perforanti"@);
    assert("Controllo Magico"@[0] != "Fiancheggiamento"@[0]);
    assert("Controllo Magico"@ != "Fiancheggiamento"@);
    assert("Controllo Magico"@[0] != "Danni Non Letali"@[0]);
    assert("Controllo Magico"@ != "Danni Non Letali"@);
    assert("Controllo Magico"@[0] != "Danno non letale"@[0]);
    assert("Controllo Magico"@ != "Danno non letale"@);
    assert("Controllo Magico"@[0] != "Effetti di morte"@[0]);
    assert("Controllo Magico"@ != "Effetti di morte"@);
    assert("Controllo Magico"@[0] != "Effetti di Morte"@[0]);
    assert("Controllo Magico"@ != "Effetti di Morte"@);
    assert("Controllo Magico"@[0] != "effetti di morte"@[0]);
    assert("Controllo Magico"@ != "effetti di morte"@);
    assert("Controllo Magico"@[0] != "illusioni visive"@[0]);
    assert("Controllo Magico"@ != "illusioni visive"@);
    assert("Controllo Magico"@[0] != "Effetti di forza"@[0]);
    assert("Controllo Magico"@ != "Effetti di forza"@);
    assert("Controllo Magico"@[0] != "livelli negativi"@[0]);
    assert("Controllo Magico"@ != "livelli negativi"@);
    assert("Controllo Magico"@[0] != "Livelli Negativi"@[0]);
    assert("Controllo Magico"@ != "Livelli Negativi"@);
    assert("Controllo Magico"@[1] != "Calmare Emozioni"@[1]);
    assert("Controllo Magico"@ != "Calmare Emozioni"@);
}

proof fn lemma_read_immunity_slowness(s: Seq<char>)
    requires
        immunity_named(Immunity_Type::Immunity_Slowness, s),
    ensures
        spec_single_immunity(s) == Some(Immunity_Type::Immunity_Slowness),
{
    reveal_strlit("Abbagliamenti");
    reveal_strlit("Abbagliamento");
    reveal_strlit("Abbagliato");
    reveal_strlit("Accecato");
    reveal_strlit("Acido");
    reveal_strlit("Affaticamento");
    reveal_strlit("Affaticato");
    reveal_strlit("Ammaliamento");
    reveal_strlit("Ancora Dimensionale");
    reveal_strlit("Armi Taglienti");
    reveal_strlit("Armi contundenti");
    reveal_strlit("Assorbimento del Fuoco");
    reveal_strlit("Attacchi Furtivi");
    reveal_strlit("Attacchi ai Fianchi");
    reveal_strlit("Attacchi basati sull'olfatto");
    reveal_strlit("Attacchi basati sulla vista");
    reveal_strlit("Attacchi basati sulla vista o sguardo");
    reveal_strlit("Attacchi con Sguardo");
    reveal_strlit("Attacchi con lo sguardo");
    reveal_strlit("Attacchi dipendenti dalla vista");
    reveal_strlit("Barcollante");
    reveal_strlit("Barcollare");
    reveal_strlit("Calmare Emozioni");
    reveal_strlit("Cecità");
    reveal_strlit("Charme");
    reveal_strlit("Colpi Critici");
    reveal_strlit("Colpi critici");
    reveal_strlit("Condizione Affaticato");
    reveal_strlit("Condizione Esausto");
    reveal_strlit("Confusione");
    reveal_strlit("Congedo");
    reveal_strlit("Controllo Magico");
    reveal_strlit("Convocazione");
    reveal_strlit("Danni Non Letali");
    reveal_strlit("Danni alle caratteristiche");
    reveal_strlit("Danni contundenti");
    reveal_strlit("Danni da arma");
    reveal_strlit("Danni da armi");
    reveal_strlit("Danni dalle Armi");
    reveal_strlit("Danni e risucchi alle caratteristiche");
    reveal_strlit("Danni e risucchi di caratteristiche");
    reveal_strlit("Danni e risucchio alle Caratteristiche");
    reveal_strlit("Danni e risucchio di caratteristiche");
    reveal_strlit("Danni perforanti e taglienti");
    reveal_strlit("Danno alle Caratteristiche");
    reveal_strlit("Danno da Pressione");
    reveal_strlit("Danno da arma");
    reveal_strlit("Danno e risucchio alle caratteristiche");
    reveal_strlit("Danno non letale");
    reveal_strlit("Dardo Incantato");
    reveal_strlit("Demenza");
    reveal_strlit("Divinazione");
    reveal_strlit("Dolore");
    reveal_strlit("Effetti a completamento di incantesimo e ad attivazione di incantesimo");
    reveal_strlit("Effetti basati sulla vista");
    reveal_strlit("Effetti d'influenza mentale");
    reveal_strlit("Effetti di Charme e Compulsione");
    reveal_strlit("Effetti di Demenza");
    reveal_strlit("Effetti di Influenza Mentale");
    reveal_strlit("Effetti di Morte");
    reveal_strlit("Effetti di Paura");
    reveal_strlit("Effetti di Sonno");
    reveal_strlit("Effetti di charme");
    reveal_strlit("Effetti di charme e compulsioni");
    reveal_strlit("Effetti di confusione e follia");
    reveal_strlit("Effetti di dolore");
    reveal_strlit("Effetti di forza");
    reveal_strlit("Effetti di influenza mentale");
    reveal_strlit("Effetti di morte");
    reveal_strlit("Effetti di morte (vedi sotto)");
    reveal_strlit("Effetti di paura");
    reveal_strlit("Effetti di sonno");
    reveal_strlit("Effetti visivi");
    reveal_strlit("Elettricità");
    reveal_strlit("Elettricità (parziale)");
    reveal_strlit("Energia Negativa");
    reveal_strlit("Energia Positiva");
    reveal_strlit("Esaurimento");
    reveal_strlit("Esausto");
    reveal_strlit("Fatica");
    reveal_strlit("Fiancheggiamento");
    reveal_strlit("Forza");
    reveal_strlit("Frastornamento");
    reveal_strlit("Frastornato");
    reveal_strlit("Freddo");
    reveal_strlit("Freddo (sé stesso e chi lo cavalca)");
    reveal_strlit("Fuoco");
    reveal_strlit("Fuoco Infernale");
    reveal_strlit("Illusione");
    reveal_strlit("Illusioni e qualsiasi attacco basato sulla vista");
    reveal_strlit("Immunità agli Incantesimi");
    reveal_strlit("Immunità al Freddo");
    reveal_strlit("Immunità all'Esilio");
    reveal_strlit("Immunità alla Magia");
    reveal_strlit("Immunità alle acque del Fiume Stige");
    reveal_strlit("Incantesimi di Ammaliamento e di Illusione");
    reveal_strlit("Individuazione dei Pensieri");
    reveal_strlit("Individuazione dell'Allineamento");
    reveal_strlit("Infermità");
    reveal_strlit("Infermo");
    reveal_strlit("Invecchiamento");
    reveal_strlit("Lentezza");
    reveal_strlit("Livelli Negativi");
    reveal_strlit("Magia");
    reveal_strlit("Malattia");
    reveal_strlit("Malattie");
    reveal_strlit("Maledizioni");
    reveal_strlit("Metamorfosi");
    reveal_strlit("Nausea");
    reveal_strlit("Nauseato");
    reveal_strlit("Non Deformante");
    reveal_strlit("Padronanza delle Rune");
    reveal_strlit("Paralisi");
    reveal_strlit("Paura");
    reveal_strlit("Pietrificazione");
    reveal_strlit("Richiamo");
    reveal_strlit("Risucchi di Energia");
    reveal_strlit("Risucchio di Caratteristiche");
    reveal_strlit("Risucchio di Energia");
    reveal_strlit("Rivela Bugie");
    reveal_strlit("Sanguinamento");
    reveal_strlit("Sanguinamento (solo Punti Ferita)");
    reveal_strlit("Scosso");
    reveal_strlit("Sguardo");
    reveal_strlit("Sonno");
    reveal_strlit("Sonoro");
    reveal_strlit("Sordità");
    reveal_strlit("Spaventato");
    reveal_strlit("Stordimento");
    reveal_strlit("Tratti degli Elementali");
    reveal_strlit("Tratti degli Sciami");
    reveal_strlit("Tratti dei Costrutti");
    reveal_strlit("Tratti dei Draghi");
    reveal_strlit("Tratti dei Non Morti");
    reveal_strlit("Tratti dei Vegetali");
    reveal_strlit("Tratti delle Melme");
    reveal_strlit("Veleni");
    reveal_strlit("Veleno");
    reveal_strlit("Veleno Ingerito");
    reveal_strlit("acido");
    reveal_strlit("acque del Fiume Stige");
    reveal_strlit("attacchi basati sulla vista ed effetti visivi");
    reveal_strlit("attacchi con Sguardo");
    reveal_strlit("attacchi con lo Sguardo");
    reveal_strlit("attacchi con lo sguardo");
    reveal_strlit("charme");
    reveal_strlit("charme sui mostri");
    reveal_strlit("compulsione");
    reveal_strlit("controllo mentale");
    reveal_strlit("contundente");
    reveal_strlit("da caduta e da schiacciamento");
    reveal_strlit("danni alle Caratteristiche");
    reveal_strlit("danni alle caratteristiche");
    reveal_strlit("danni contundenti");
    reveal_strlit("danni contundenti e perforanti");
    reveal_strlit("danni da arma");
    reveal_strlit("danni da armi");
    reveal_strlit("danni da precisione");
    reveal_strlit("danni delle armi");
    reveal_strlit("danni di precisione");
    reveal_strlit("danni e risucchi di Caratteristiche");
    reveal_strlit("danni perforanti");
    reveal_strlit("danni taglienti");
    reveal_strlit("danni taglienti e perforanti");
    reveal_strlit("danno da arma");
    reveal_strlit("danno di precisione");
    reveal_strlit("di influenza mentale e basati sullo Sguardo");
    reveal_strlit("divinazione");
    reveal_strlit("dolore");
    reveal_strlit("effetti Barcollanti");
    reveal_strlit("effetti basati sulla vista");
    reveal_strlit("effetti che bersagliano uno specifico numero di creature");
    reveal_strlit("effetti di Charme e Compulsione");
    reveal_strlit("effetti di Metamorfosi");
    reveal_strlit("effetti di Paura");
    reveal_strlit("effetti di Paura ed influenza mentale");
    reveal_strlit("effetti di Sguardo");
    reveal_strlit("effetti di Sonno");
    reveal_strlit("effetti di ammaliamento");
    reveal_strlit("effetti di charme");
    reveal_strlit("effetti di charme e compulsione");
    reveal_strlit("effetti di charme e compulsioni");
    reveal_strlit("effetti di compulsione");
    reveal_strlit("effetti di confusione e demenza");
    reveal_strlit("effetti di demenza");
    reveal_strlit("effetti di influenza mentale");
    reveal_strlit("effetti di influenza mentale e visivi");
    reveal_strlit("effetti di luce");
    reveal_strlit("effetti di maledizione");
    reveal_strlit("effetti di maledizioni");
    reveal_strlit("effetti di metamorfosi");
    reveal_strlit("effetti di morte");
    reveal_strlit("effetti di necromanzia");
    reveal_strlit("effetti di paura");
    reveal_strlit("effetti di sguardo");
    reveal_strlit("effetti di sonno");
    reveal_strlit("effetti e illusioni visive");
    reveal_strlit("effetti polimorfi");
    reveal_strlit("effetti sensoriali");
    reveal_strlit("effetti visivi");
    reveal_strlit("effetti visivi e illusioni");
    reveal_strlit("elettricità");
    reveal_strlit("emozioni");
    reveal_strlit("energia negativa");
    reveal_strlit("ferite permanenti");
    reveal_strlit("forza");
    reveal_strlit("freddo");
    reveal_strlit("fulmine");
    reveal_strlit("fuoco");
    reveal_strlit("illusioni");
    reveal_strlit("illusioni visive");
    reveal_strlit("immunità alle acque del Fiume Stige");
    reveal_strlit("invecchiamento");
    reveal_strlit("livelli negativi");
    reveal_strlit("malattia");
    reveal_strlit("malattie");
    reveal_strlit("maledizioni");
    reveal_strlit("metamorfosi");
    reveal_strlit("nausea");
    reveal_strlit("palla di fuoco");
    reveal_strlit("paralisi");
    reveal_strlit("paura");
    reveal_strlit("pietrificazione");
    reveal_strlit("possessione");
    reveal_strlit("risucchi di caratteristiche");
    reveal_strlit("risucchi di energia");
    reveal_strlit("risucchio di caratteristica");
    reveal_strlit("risucchio di caratteristiche");
    reveal_strlit("risucchio di energia");
    reveal_strlit("ruggine");
    reveal_strlit("sanguinamento");
    reveal_strlit("sonno");
    reveal_strlit("sonoro");
    reveal_strlit("sordità");
    reveal_strlit("stordimento");
    reveal_strlit("tratti dei Draghi");
    reveal_strlit("veleni");
    reveal_strlit("veleno");
    reveal_strlit("visivi ed illusori");
    assert("Abbagliamenti"@.len() == 13);
    assert("Abbagliamento"@.len() == 13);
    assert("Abbagliato"@.len() == 10);
    assert("Accecato"@.len() == 8);
    assert("Acido"@.len() == 5);
    assert("Affaticamento"@.len() == 13);
    assert("Affaticato"@.len() == 10);
    assert("Ammaliamento"@.len() == 12);
    assert("Ancora Dimensionale"@.len() == 19);
    assert("Armi Taglienti"@.len() == 14);
    assert("Armi contundenti"@.len() == 16);
    assert("Assorbimento del Fuoco"@.len() == 22);
    assert("Attacchi Furtivi"@.len() == 16);
    assert("Attacchi ai Fianchi"@.len() == 19);
    assert("Attacchi basati sull'olfatto"@.len() == 28);
    assert("Attacchi basati sulla vista"@.len() == 27);
    assert("Attacchi basati sulla vista o sguardo"@.len() == 37);
    assert("Attacchi con Sguardo"@.len() == 20);
    assert("Attacchi con lo sguardo"@.len() == 23);
    assert("Attacchi dipendenti dalla vista"@.len() == 31);
    assert("Barcollante"@.len() == 11);
    assert("Barcollare"@.len() == 10);
    assert("Calmare Emozioni"@.len() == 16);
    assert("Cecità"@.len() == 6);
    assert("Charme"@.len() == 6);
    assert("Colpi Critici"@.len() == 13);
    assert("Colpi critici"@.len() == 13);
    assert("Condizione Affaticato"@.len() == 21);
    assert("Condizione Esausto"@.len() == 18);
    assert("Confusione"@.len() == 10);
    assert("Congedo"@.len() == 7);
    assert("Controllo Magico"@.len() == 16);
    assert("Convocazione"@.len() == 12);
    assert("Danni Non Letali"@.len() == 16);
    assert("Danni alle caratteristiche"@.len() == 26);
    assert("Danni contundenti"@.len() == 17);
    assert("Danni da arma"@.len() == 13);
    assert("Danni da armi"@.len() == 13);
    assert("Danni dalle Armi"@.len() == 16);
    assert("Danni e risucchi alle caratteristiche"@.len() == 37);
    assert("Danni e risucchi di caratteristiche"@.len() == 35);
    assert("Danni e risucchio alle Caratteristiche"@.len() == 38);
    assert("Danni e risucchio di caratteristiche"@.len() == 36);
    assert("Danni perforanti e taglienti"@.len() == 28);
    assert("Danno alle Caratteristiche"@.len() == 26);
    assert("Danno da Pressione"@.len() == 18);
    assert("Danno da arma"@.len() == 13);
    assert("Danno e risucchio alle caratteristiche"@.len() == 38);
    assert("Danno non letale"@.len() == 16);
    assert("Dardo Incantato"@.len() == 15);
    assert("Demenza"@.len() == 7);
    assert("Divinazione"@.len() == 11);
    assert("Dolore"@.len() == 6);
    assert("Effetti a completamento di incantesimo e ad attivazione di incantesimo"@.len() == 70);
    assert("Effetti basati sulla vista"@.len() == 26);
    assert("Effetti d'influenza mentale"@.len() == 27);
    assert("Effetti di Charme e Compulsione"@.len() == 31);
    assert("Effetti di Demenza"@.len() == 18);
    assert("Effetti di Influenza Mentale"@.len() == 28);
    assert("Effetti di Morte"@.len() == 16);
    assert("Effetti di Paura"@.len() == 16);
    assert("Effetti di Sonno"@.len() == 16);
    assert("Effetti di charme"@.len() == 17);
    assert("Effetti di charme e compulsioni"@.len() == 31);
    assert("Effetti di confusione e follia"@.len() == 30);
    assert("Effetti di dolore"@.len() == 17);
    assert("Effetti di forza"@.len() == 16);
    assert("Effetti di influenza mentale"@.len() == 28);
    assert("Effetti di morte"@.len() == 16);
    assert("Effetti di morte (vedi sotto)"@.len() == 29);
    assert("Effetti di paura"@.len() == 16);
    assert("Effetti di sonno"@.len() == 16);
    assert("Effetti visivi"@.len() == 14);
    assert("Elettricità"@.len() == 11);
    assert("Elettricità (parziale)"@.len() == 22);
    assert("Energia Negativa"@.len() == 16);
    assert("Energia Positiva"@.len() == 16);
    assert("Esaurimento"@.len() == 11);
    assert("Esausto"@.len() == 7);
    assert("Fatica"@.len() == 6);
    assert("Fiancheggiamento"@.len() == 16);
    assert("Forza"@.len() == 5);
    assert("Frastornamento"@.len() == 14);
    assert("Frastornato"@.len() == 11);
    assert("Freddo"@.len() == 6);
    assert("Freddo (sé stesso e chi lo cavalca)"@.len() == 35);
    assert("Fuoco"@.len() == 5);
    assert("Fuoco Infernale"@.len() == 15);
    assert("Illusione"@.len() == 9);
    assert("Illusioni e qualsiasi attacco basato sulla vista"@.len() == 48);
    assert("Immunità agli Incantesimi"@.len() == 25);
    assert("Immunità al Freddo"@.len() == 18);
    assert("Immunità all'Esilio"@.len() == 19);
    assert("Immunità alla Magia"@.len() == 19);
    assert("Immunità alle acque del Fiume Stige"@.len() == 35);
    assert("Incantesimi di Ammaliamento e di Illusione"@.len() == 42);
    assert("Individuazione dei Pensieri"@.len() == 27);
    assert("Individuazione dell'Allineamento"@.len() == 32);
    assert("Infermità"@.len() == 9);
    assert("Infermo"@.len() == 7);
    assert("Invecchiamento"@.len() == 14);
    assert("Lentezza"@.len() == 8);
    assert("Livelli Negativi"@.len() == 16);
    assert("Magia"@.len() == 5);
    assert("Malattia"@.len() == 8);
    assert("Malattie"@.len() == 8);
    assert("Maledizioni"@.len() == 11);
    assert("Metamorfosi"@.len() == 11);
    assert("Nausea"@.len() == 6);
    assert("Nauseato"@.len() == 8);
    assert("Non Deformante"@.len() == 14);
    assert("Padronanza delle Rune"@.len() == 21);
    assert("Paralisi"@.len() == 8);
    assert("Paura"@.len() == 5);
    assert("Pietrificazione"@.len() == 15);
    assert("Richiamo"@.len() == 8);
    assert("Risucchi di Energia"@.len() == 19);
    assert("Risucchio di Caratteristiche"@.len() == 28);
    assert("Risucchio di Energia"@.len() == 20);
    assert("Rivela Bugie"@.len() == 12);
    assert("Sanguinamento"@.len() == 13);
    assert("Sanguinamento (solo Punti Ferita)"@.len() == 33);
    assert("Scosso"@.len() == 6);
    assert("Sguardo"@.len() == 7);
    assert("Sonno"@.len() == 5);
    assert("Sonoro"@.len() == 6);
    assert("Sordità"@.len() == 7);
    assert("Spaventato"@.len() == 10);
    assert("Stordimento"@.len() == 11);
    assert("Tratti degli Elementali"@.len() == 23);
    assert("Tratti degli Sciami"@.len() == 19);
    assert("Tratti dei Costrutti"@.len() == 20);
    assert("Tratti dei Draghi"@.len() == 17);
    assert("Tratti dei Non Morti"@.len() == 20);
    assert("Tratti dei Vegetali"@.len() == 19);
    assert("Tratti delle Melme"@.len() == 18);
    assert("Veleni"@.len() == 6);
    assert("Veleno"@.len() == 6);
    assert("Veleno Ingerito"@.len() == 15);
    assert("acido"@.len() == 5);
    assert("acque del Fiume Stige"@.len() == 21);
    assert("attacchi basati sulla vista ed effetti visivi"@.len() == 45);
    assert("attacchi con Sguardo"@.len() == 20);
    assert("attacchi con lo Sguardo"@.len() == 23);
    assert("attacchi con lo sguardo"@.len() == 23);
    assert("charme"@.len() == 6);
    assert("charme sui mostri"@.len() == 17);
    assert("compulsione"@.len() == 11);
    assert("controllo mentale"@.len() == 17);
    assert("contundente"@.len() == 11);
    assert("da caduta e da schiacciamento"@.len() == 29);
    assert("danni alle Caratteristiche"@.len() == 26);
    assert("danni alle caratteristiche"@.len() == 26);
    assert("danni contundenti"@.len() == 17);
    assert("danni contundenti e perforanti"@.len() == 30);
    assert("danni da arma"@.len() == 13);
    assert("danni da armi"@.len() == 13);
    assert("danni da precisione"@.len() == 19);
    assert("danni delle armi"@.len() == 16);
    assert("danni di precisione"@.len() == 19);
    assert("danni e risucchi di Caratteristiche"@.len() == 35);
    assert("danni perforanti"@.len() == 16);
    assert("danni taglienti"@.len() == 15);
    assert("danni taglienti e perforanti"@.len() == 28);
    assert("danno da arma"@.len() == 13);
    assert("danno di precisione"@.len() == 19);
    assert("di influenza mentale e basati sullo Sguardo"@.len() == 43);
    assert("divinazione"@.len() == 11);
    assert("dolore"@.len() == 6);
    assert("effetti Barcollanti"@.len() == 19);
    assert("effetti basati sulla vista"@.len() == 26);
    assert("effetti che bersagliano uno specifico numero di creature"@.len() == 56);
    assert("effetti di Charme e Compulsione"@.len() == 31);
    assert("effetti di Metamorfosi"@.len() == 22);
    assert("effetti di Paura"@.len() == 16);
    assert("effetti di Paura ed influenza mentale"@.len() == 37);
    assert("effetti di Sguardo"@.len() == 18);
    assert("effetti di Sonno"@.len() == 16);
    assert("effetti di ammaliamento"@.len() == 23);
    assert("effetti di charme"@.len() == 17);
    assert("effetti di charme e compulsione"@.len() == 31);
    assert("effetti di charme e compulsioni"@.len() == 31);
    assert("effetti di compulsione"@.len() == 22);
    assert("effetti di confusione e demenza"@.len() == 31);
    assert("effetti di demenza"@.len() == 18);
    assert("effetti di influenza mentale"@.len() == 28);
    assert("effetti di influenza mentale e visivi"@.len() == 37);
    assert("effetti di luce"@.len() == 15);
    assert("effetti di maledizione"@.len() == 22);
    assert("effetti di maledizioni"@.len() == 22);
    assert("effetti di metamorfosi"@.len() == 22);
    assert("effetti di morte"@.len() == 16);
    assert("effetti di necromanzia"@.len() == 22);
    assert("effetti di paura"@.len() == 16);
    assert("effetti di sguardo"@.len() == 18);
    assert("effetti di sonno"@.len() == 16);
    assert("effetti e illusioni visive"@.len() == 26);
    assert("effetti polimorfi"@.len() == 17);
    assert("effetti sensoriali"@.len() == 18);
    assert("effetti visivi"@.len() == 14);
    assert("effetti visivi e illusioni"@.len() == 26);
    assert("elettricità"@.len() == 11);
    assert("emozioni"@.len() == 8);
    assert("energia negativa"@.len() == 16);
    assert("ferite permanenti"@.len() == 17);
    assert("forza"@.len() == 5);
    assert("freddo"@.len() == 6);
    assert("fulmine"@.len() == 7);
    assert("fuoco"@.len() == 5);
    assert("illusioni"@.len() == 9);
    assert("illusioni visive"@.len() == 16);
    assert("immunità alle acque del Fiume Stige"@.len() == 35);
    assert("invecchiamento"@.len() == 14);
    assert("livelli negativi"@.len() == 16);
    assert("malattia"@.len() == 8);
    assert("malattie"@.len() == 8);
    assert("maledizioni"@.len() == 11);
    assert("metamorfosi"@.len() == 11);
    assert("nausea"@.len() == 6);
    assert("palla di fuoco"@.len() == 14);
    assert("paralisi"@.len() == 8);
    assert("paura"@.len() == 5);
    assert("pietrificazione"@.len() == 15);
    assert("possessione"@.len() == 11);
    assert("risucchi di caratteristiche"@.len() == 27);
    assert("risucchi di energia"@.len() == 19);
    assert("risucchio di caratteristica"@.len() == 27);
    assert("risucchio di caratteristiche"@.len() == 28);
    assert("risucchio di energia"@.len() == 20);
    assert("ruggine"@.len() == 7);
    assert("sanguinamento"@.len() == 13);
    assert("sonno"@.len() == 5);
    assert("sonoro"@.len() == 6);
    assert("sordità"@.len() == 7);
    assert("stordimento"@.len() == 11);
    assert("tratti dei Draghi"@.len() == 17);
    assert("veleni"@.len() == 6);
    assert("veleno"@.len() == 6);
    assert("visivi ed illusori"@.len() == 18);
    assert("Lentezza"@[0] != "Paralisi"@[0]);
    assert("Lentezza"@ != "Paralisi"@);
    assert("Lentezza"@[0] != "paralisi"@[0]);
    assert("Lentezza"@ != "paralisi"@);
    assert("Lentezza"@[0] != "Nauseato"@[0]);
    assert("Lentezza"@ != "Nauseato"@);
    assert("Lentezza"@[0] != "Accecato"@[0]);
    assert("Lentezza"@ != "Accecato"@);
    assert("Lentezza"@[0] != "Malattie"@[0]);
    assert("Lentezza"@ != "Malattie"@);
    assert("Lentezza"@[0] != "Malattia"@[0]);
    assert("Lentezza"@ != "Malattia"@);
    assert("Lentezza"@[0] != "malattie"@[0]);
    assert("Lentezza"@ != "malattie"@);
    assert("Lentezza"@[0] != "malattia"@[0]);
    assert("Lentezza"@ != "malattia"@);
    assert("Lentezza"@[0] != "emozioni"@[0]);
    assert("Lentezza"@ != "emozioni"@);
    assert("Lentezza"@[0] != "Richiamo"@[0]);
    assert("Lentezza"@ != "Richiamo"@);
}

proof fn lemma_read_immunity_turnundead(s: Seq<char>)
    requires
        immunity_named(Immunity_Type::Immunity_TurnUndead, s),
    ensures
        spec_single_immunity(s) == Some(Immunity_Type::Immunity_TurnUndead),
{
    reveal_strlit("Abbagliamenti");
    reveal_strlit("Abbagliamento");
    reveal_strlit("Abbagliato");
    reveal_strlit("Accecato");
    reveal_strlit("Acido");
    reveal_strlit("Affaticamento");
    reveal_strlit("Affaticato");
    reveal_strlit("Ammaliamento");
    reveal_strlit("Ancora Dimensionale");
    reveal_strlit("Armi Taglienti");
    reveal_strlit("Armi contundenti");
    reveal_strlit("Assorbimento del Fuoco");
    reveal_strlit("Attacchi Furtivi");
    reveal_strlit("Attacchi ai Fianchi");
    reveal_strlit("Attacchi basati sull'olfatto");
    reveal_strlit("Attacchi basati sulla vista");
    reveal_strlit("Attacchi basati sulla vista o sguardo");
    reveal_strlit("Attacchi con Sguardo");
    reveal_strlit("Attacchi con lo sguardo");
    reveal_strlit("Attacchi dipendenti dalla vista");
    reveal_strlit("Barcollante");
    reveal_strlit("Barcollare");
    reveal_strlit("Calmare Emozioni");
    reveal_strlit("Cecità");
    reveal_strlit("Charme");
    reveal_strlit("Colpi Critici");
    reveal_strlit("Colpi critici");
    reveal_strlit("Condizione Affaticato");
    reveal_strlit("Condizione Esausto");
    reveal_strlit("Confusione");
    reveal_strlit("Congedo");
    reveal_strlit("Controllo Magico");
    reveal_strlit("Convocazione");
    reveal_strlit("Danni Non Letali");
    reveal_strlit("Danni alle caratteristiche");
    reveal_strlit("Danni contundenti");
    reveal_strlit("Danni da arma");
    reveal_strlit("Danni da armi");
    reveal_strlit("Danni dalle Armi");
    reveal_strlit("Danni e risucchi alle caratteristiche");
    reveal_strlit("Danni e risucchi di caratteristiche");
    reveal_strlit("Danni e risucchio alle Caratteristiche");
    reveal_strlit("Danni e risucchio di caratteristiche");
    reveal_strlit("Danni perforanti e taglienti");
    reveal_strlit("Danno alle Caratteristiche");
    reveal_strlit("Danno da Pressione");
    reveal_strlit("Danno da arma");
    reveal_strlit("Danno e risucchio alle caratteristiche");
    reveal_strlit("Danno non letale");
    reveal_strlit("Dardo Incantato");
    reveal_strlit("Demenza");
    reveal_strlit("Divinazione");
    reveal_strlit("Dolore");
    reveal_strlit("Effetti a completamento di incantesimo e ad attivazione di incantesimo");
    reveal_strlit("Effetti basati sulla vista");
    reveal_strlit("Effetti d'influenza mentale");
    reveal_strlit("Effetti di Charme e Compulsione");
    reveal_strlit("Effetti di Demenza");
    reveal_strlit("Effetti di Influenza Mentale");
    reveal_strlit("Effetti di Morte");
    reveal_strlit("Effetti di Paura");
    reveal_strlit("Effetti di Sonno");
    reveal_strlit("Effetti di charme");
    reveal_strlit("Effetti di charme e compulsioni");
    reveal_strlit("Effetti di confusione e follia");
    reveal_strlit("Effetti di dolore");
    reveal_strlit("Effetti di forza");
    reveal_strlit("Effetti di influenza mentale");
    reveal_strlit("Effetti di morte");
    reveal_strlit("Effetti di morte (vedi sotto)");
    reveal_strlit("Effetti di paura");
    reveal_strlit("Effetti di sonno");
    reveal_strlit("Effetti visivi");
    reveal_strlit("Elettricità");
    reveal_strlit("Elettricità (parziale)");
    reveal_strlit("Energia Negativa");
    reveal_strlit("Energia Positiva");
    reveal_strlit("Esaurimento");
    reveal_strlit("Esausto");
    reveal_strlit("Fatica");
    reveal_strlit("Fiancheggiamento");
    reveal_strlit("Forza");
    reveal_strlit("Frastornamento");
    reveal_strlit("Frastornato");
    reveal_strlit("Freddo");
    reveal_strlit("Freddo (sé stesso e chi lo cavalca)");
    reveal_strlit("Fuoco");
    reveal_strlit("Fuoco Infernale");
    reveal_strlit("Illusione");
    reveal_strlit("Illusioni e qualsiasi attacco basato sulla vista");
    reveal_strlit("Immunità agli Incantesimi");
    reveal_strlit("Immunità al Freddo");
    reveal_strlit("Immunità all'Esilio");
    reveal_strlit("Immunità alla Magia");
    reveal_strlit("Immunità alle acque del Fiume Stige");
    reveal_strlit("Incantesimi di Ammaliamento e di Illusione");
    reveal_strlit("Individuazione dei Pensieri");
    reveal_strlit("Individuazione dell'Allineamento");
    reveal_strlit("Infermità");
    reveal_strlit("Infermo");
    reveal_strlit("Invecchiamento");
    reveal_strlit("Lentezza");
    reveal_strlit("Livelli Negativi");
    reveal_strlit("Magia");
    reveal_strlit("Malattia");
    reveal_strlit("Malattie");
    reveal_strlit("Maledizioni");
    reveal_strlit("Metamorfosi");
    reveal_strlit("Nausea");
    reveal_strlit("Nauseato");
    reveal_strlit("Non Deformante");
    reveal_strlit("Padronanza delle Rune");
    reveal_strlit("Paralisi");
    reveal_strlit("Paura");
    reveal_strlit("Pietrificazione");
    reveal_strlit("Richiamo");
    reveal_strlit("Risucchi di Energia");
    reveal_strlit("Risucchio di Caratteristiche");
    reveal_strlit("Risucchio di Energia");
    reveal_strlit("Rivela Bugie");
    reveal_strlit("Sanguinamento");
    reveal_strlit("Sanguinamento (solo Punti Ferita)");
    reveal_strlit("Scosso");
    reveal_strlit("Sguardo");
    reveal_strlit("Sonno");
    reveal_strlit("Sonoro");
    reveal_strlit("Sordità");
    reveal_strlit("Spaventato");
    reveal_strlit("Stordimento");
    reveal_strlit("Tratti degli Elementali");
    reveal_strlit("Tratti degli Sciami");
    reveal_strlit("Tratti dei Costrutti");
    reveal_strlit("Tratti dei Draghi");
    reveal_strlit("Tratti dei Non Morti");
    reveal_strlit("Tratti dei Vegetali");
    reveal_strlit("Tratti delle Melme");
    reveal_strlit("Veleni");
    reveal_strlit("Veleno");
    reveal_strlit("Veleno Ingerito");
    reveal_strlit("acido");
    reveal_strlit("acque del Fiume Stige");
    reveal_strlit("attacchi basati sulla vista ed effetti visivi");
    reveal_strlit("attacchi con Sguardo");
    reveal_strlit("attacchi con lo Sguardo");
    reveal_strlit("attacchi con lo sguardo");
    reveal_strlit("charme");
    reveal_strlit("charme sui mostri");
    reveal_strlit("compulsione");
    reveal_strlit("controllo mentale");
    reveal_strlit("contundente");
    reveal_strlit("da caduta e da schiacciamento");
    reveal_strlit("danni alle Caratteristiche");
    reveal_strlit("danni alle caratteristiche");
    reveal_strlit("danni contundenti");
    reveal_strlit("danni contundenti e perforanti");
    reveal_strlit("danni da arma");
    reveal_strlit("danni da armi");
    reveal_strlit("danni da precisione");
    reveal_strlit("danni delle armi");
    reveal_strlit("danni di precisione");
    reveal_strlit("danni e risucchi di Caratteristiche");
    reveal_strlit("danni perforanti");
    reveal_strlit("danni taglienti");
    reveal_strlit("danni taglienti e perforanti");
    reveal_strlit("danno da arma");
    reveal_strlit("danno di precisione");
    reveal_strlit("di influenza mentale e basati sullo Sguardo");
    reveal_strlit("divinazione");
    reveal_strlit("dolore");
    reveal_strlit("effetti Barcollanti");
    reveal_strlit("effetti basati sulla vista");
    reveal_strlit("effetti che bersagliano uno specifico numero di creature");
    reveal_strlit("effetti di Charme e Compulsione");
    reveal_strlit("effetti di Metamorfosi");
    reveal_strlit("effetti di Paura");
    reveal_strlit("effetti di Paura ed influenza mentale");
    reveal_strlit("effetti di Sguardo");
    reveal_strlit("effetti di Sonno");
    reveal_strlit("effetti di ammaliamento");
    reveal_strlit("effetti di charme");
    reveal_strlit("effetti di charme e compulsione");
    reveal_strlit("effetti di charme e compulsioni");
    reveal_strlit("effetti di compulsione");
    reveal_strlit("effetti di confusione e demenza");
    reveal_strlit("effetti di demenza");
    reveal_strlit("effetti di influenza mentale");
    reveal_strlit("effetti di influenza mentale e visivi");
    reveal_strlit("effetti di luce");
    reveal_strlit("effetti di maledizione");
    reveal_strlit("effetti di maledizioni");
    reveal_strlit("effetti di metamorfosi");
    reveal_strlit("effetti di morte");
    reveal_strlit("effetti di necromanzia");
    reveal_strlit("effetti di paura");
    reveal_strlit("effetti di sguardo");
    reveal_strlit("effetti di sonno");
    reveal_strlit("effetti e illusioni visive");
    reveal_strlit("effetti polimorfi");
    reveal_strlit("effetti sensoriali");
    reveal_strlit("effetti visivi");
    reveal_strlit("effetti visivi e illusioni");
    reveal_strlit("elettricità");
    reveal_strlit("emozioni");
    reveal_strlit("energia negativa");
    reveal_strlit("ferite permanenti");
    reveal_strlit("forza");
    reveal_strlit("freddo");
    reveal_strlit("fulmine");
    reveal_strlit("fuoco");
    reveal_strlit("illusioni");
    reveal_strlit("illusioni visive");
    reveal_strlit("immunità alle acque del Fiume Stige");
    reveal_strlit("invecchiamento");
    reveal_strlit("livelli negativi");
    reveal_strlit("malattia");
    reveal_strlit("malattie");
    reveal_strlit("maledizioni");
    reveal_strlit("metamorfosi");
    reveal_strlit("nausea");
    reveal_strlit("palla di fuoco");
    reveal_strlit("paralisi");
    reveal_strlit("paura");
    reveal_strlit("pietrificazione");
    reveal_strlit("possessione");
    reveal_strlit("risucchi di caratteristiche");
    reveal_strlit("risucchi di energia");
    reveal_strlit("risucchio di caratteristica");
    reveal_strlit("risucchio di caratteristiche");
    reveal_strlit("risucchio di energia");
    reveal_strlit("ruggine");
    reveal_strlit("sanguinamento");
    reveal_strlit("scacciare");
    reveal_strlit("sonno");
    reveal_strlit("sonoro");
    reveal_strlit("sordità");
    reveal_strlit("stordimento");
    reveal_strlit("tratti dei Draghi");
    reveal_strlit("veleni");
    reveal_strlit("veleno");
    reveal_strlit("visivi ed illusori");
    assert("Abbagliamenti"@.len() == 13);
    assert("Abbagliamento"@.len() == 13);
    assert("Abbagliato"@.len() == 10);
    assert("Accecato"@.len() == 8);
    assert("Acido"@.len() == 5);
    assert("Affaticamento"@.len() == 13);
    assert("Affaticato"@.len() == 10);
    assert("Ammaliamento"@.len() == 12);
    assert("Ancora Dimensionale"@.len() == 19);
    assert("Armi Taglienti"@.len() == 14);
    assert("Armi contundenti"@.len() == 16);
    assert("Assorbimento del Fuoco"@.len() == 22);
    assert("Attacchi Furtivi"@.len() == 16);
    assert("Attacchi ai Fianchi"@.len() == 19);
    assert("Attacchi basati sull'olfatto"@.len() == 28);
    assert("Attacchi basati sulla vista"@.len() == 27);
    assert("Attacchi basati sulla vista o sguardo"@.len() == 37);
    assert("Attacchi con Sguardo"@.len() == 20);
    assert("Attacchi con lo sguardo"@.len() == 23);
    assert("Attacchi dipendenti dalla vista"@.len() == 31);
    assert("Barcollante"@.len() == 11);
    assert("Barcollare"@.len() == 10);
    assert("Calmare Emozioni"@.len() == 16);
    assert("Cecità"@.len() == 6);
    assert("Charme"@.len() == 6);
    assert("Colpi Critici"@.len() == 13);
    assert("Colpi critici"@.len() == 13);
    assert("Condizione Affaticato"@.len() == 21);
    assert("Condizione Esausto"@.len() == 18);
    assert("Confusione"@.len() == 10);
    assert("Congedo"@.len() == 7);
    assert("Controllo Magico"@.len() == 16);
    assert("Convocazione"@.len() == 12);
    assert("Danni Non Letali"@.len() == 16);
    assert("Danni alle caratteristiche"@.len() == 26);
    assert("Danni contundenti"@.len() == 17);
    assert("Danni da arma"@.len() == 13);
    assert("Danni da armi"@.len() == 13);
    assert("Danni dalle Armi"@.len() == 16);
    assert("Danni e risucchi alle caratteristiche"@.len() == 37);
    assert("Danni e risucchi di caratteristiche"@.len() == 35);
    assert("Danni e risucchio alle Caratteristiche"@.len() == 38);
    assert("Danni e risucchio di caratteristiche"@.len() == 36);
    assert("Danni perforanti e taglienti"@.len() == 28);
    assert("Danno alle Caratteristiche"@.len() == 26);
    assert("Danno da Pressione"@.len() == 18);
    assert("Danno da arma"@.len() == 13);
    assert("Danno e risucchio alle caratteristiche"@.len() == 38);
    assert("Danno non letale"@.len() == 16);
    assert("Dardo Incantato"@.len() == 15);
    assert("Demenza"@.len() == 7);
    assert("Divinazione"@.len() == 11);
    assert("Dolore"@.len() == 6);
    assert("Effetti a completamento di incantesimo e ad attivazione di incantesimo"@.len() == 70);
    assert("Effetti basati sulla vista"@.len() == 26);
    assert("Effetti d'influenza mentale"@.len() == 27);
    assert("Effetti di Charme e Compulsione"@.len() == 31);
    assert("Effetti di Demenza"@.len() == 18);
    assert("Effetti di Influenza Mentale"@.len() == 28);
    assert("Effetti di Morte"@.len() == 16);
    assert("Effetti di Paura"@.len() == 16);
    assert("Effetti di Sonno"@.len() == 16);
    assert("Effetti di charme"@.len() == 17);
    assert("Effetti di charme e compulsioni"@.len() == 31);
    assert("Effetti di confusione e follia"@.len() == 30);
    assert("Effetti di dolore"@.len() == 17);
    assert("Effetti di forza"@.len() == 16);
    assert("Effetti di influenza mentale"@.len() == 28);
    assert("Effetti di morte"@.len() == 16);
    assert("Effetti di morte (vedi sotto)"@.len() == 29);
    assert("Effetti di paura"@.len() == 16);
    assert("Effetti di sonno"@.len() == 16);
    assert("Effetti visivi"@.len() == 14);
    assert("Elettricità"@.len() == 11);
    assert("Elettricità (parziale)"@.len() == 22);
    assert("Energia Negativa"@.len() == 16);
    assert("Energia Positiva"@.len() == 16);
    assert("Esaurimento"@.len() == 11);
    assert("Esausto"@.len() == 7);
    assert("Fatica"@.len() == 6);
    assert("Fiancheggiamento"@.len() == 16);
    assert("Forza"@.len() == 5);
    assert("Frastornamento"@.len() == 14);
    assert("Frastornato"@.len() == 11);
    assert("Freddo"@.len() == 6);
    assert("Freddo (sé stesso e chi lo cavalca)"@.len() == 35);
    assert("Fuoco"@.len() == 5);
    assert("Fuoco Infernale"@.len() == 15);
    assert("Illusione"@.len() == 9);
    assert("Illusioni e qualsiasi attacco basato sulla vista"@.len() == 48);
    assert("Immunità agli Incantesimi"@.len() == 25);
    assert("Immunità al Freddo"@.len() == 18);
    assert("Immunità all'Esilio"@.len() == 19);
    assert("Immunità alla Magia"@.len() == 19);
    assert("Immunità alle acque del Fiume Stige"@.len() == 35);
    assert("Incantesimi di Ammaliamento e di Illusione"@.len() == 42);
    assert("Individuazione dei Pensieri"@.len() == 27);
    assert("Individuazione dell'Allineamento"@.len() == 32);
    assert("Infermità"@.len() == 9);
    assert("Infermo"@.len() == 7);
    assert("Invecchiamento"@.len() == 14);
    assert("Lentezza"@.len() == 8);
    assert("Livelli Negativi"@.len() == 16);
    assert("Magia"@.len() == 5);
    assert("Malattia"@.len() == 8);
    assert("Malattie"@.len() == 8);
    assert("Maledizioni"@.len() == 11);
    assert("Metamorfosi"@.len() == 11);
    assert("Nausea"@.len() == 6);
    assert("Nauseato"@.len() == 8);
    assert("Non Deformante"@.len() == 14);
    assert("Padronanza delle Rune"@.len() == 21);
    assert("Paralisi"@.len() == 8);
    assert("Paura"@.len() == 5);
    assert("Pietrificazione"@.len() == 15);
    assert("Richiamo"@.len() == 8);
    assert("Risucchi di Energia"@.len() == 19);
    assert("Risucchio di Caratteristiche"@.len() == 28);
    assert("Risucchio di Energia"@.len() == 20);
    assert("Rivela Bugie"@.len() == 12);
    assert("Sanguinamento"@.len() == 13);
    assert("Sanguinamento (solo Punti Ferita)"@.len() == 33);
    assert("Scosso"@.len() == 6);
    assert("Sguardo"@.len() == 7);
    assert("Sonno"@.len() == 5);
    assert("Sonoro"@.len() == 6);
    assert("Sordità"@.len() == 7);
    assert("Spaventato"@.len() == 10);
    assert("Stordimento"@.len() == 11);
    assert("Tratti degli Elementali"@.len() == 23);
    assert("Tratti degli Sciami"@.len() == 19);
    assert("Tratti dei Costrutti"@.len() == 20);
    assert("Tratti dei Draghi"@.len() == 17);
    assert("Tratti dei Non Morti"@.len() == 20);
    assert("Tratti dei Vegetali"@.len() == 19);
    assert("Tratti delle Melme"@.len() == 18);
    assert("Veleni"@.len() == 6);
    assert("Veleno"@.len() == 6);
    assert("Veleno Ingerito"@.len() == 15);
    assert("acido"@.len() == 5);
    assert("acque del Fiume Stige"@.len() == 21);
    assert("attacchi basati sulla vista ed effetti visivi"@.len() == 45);
    assert("attacchi con Sguardo"@.len() == 20);
    assert("attacchi con lo Sguardo"@.len() == 23);
    assert("attacchi con lo sguardo"@.len() == 23);
    assert("charme"@.len() == 6);
    assert("charme sui mostri"@.len() == 17);
    assert("compulsione"@.len() == 11);
    assert("controllo mentale"@.len() == 17);
    assert("contundente"@.len() == 11);
    assert("da caduta e da schiacciamento"@.len() == 29);
    assert("danni alle Caratteristiche"@.len() == 26);
    assert("danni alle caratteristiche"@.len() == 26);
    assert("danni contundenti"@.len() == 17);
    assert("danni contundenti e perforanti"@.len() == 30);
    assert("danni da arma"@.len() == 13);
    assert("danni da armi"@.len() == 13);
    assert("danni da precisione"@.len() == 19);
    assert("danni delle armi"@.len() == 16);
    assert("danni di precisione"@.len() == 19);
    assert("danni e risucchi di Caratteristiche"@.len() == 35);
    assert("danni perforanti"@.len() == 16);
    assert("danni taglienti"@.len() == 15);
    assert("danni taglienti e perforanti"@.len() == 28);
    assert("danno da arma"@.len() == 13);
    assert("danno di precisione"@.len() == 19);
    assert("di influenza mentale e basati sullo Sguardo"@.len() == 43);
    assert("divinazione"@.len() == 11);
    assert("dolore"@.len() == 6);
    assert("effetti Barcollanti"@.len() == 19);
    assert("effetti basati sulla vista"@.len() == 26);
    assert("effetti che bersagliano uno specifico numero di creature"@.len() == 56);
    assert("effetti di Charme e Compulsione"@.len() == 31);
    assert("effetti di Metamorfosi"@.len() == 22);
    assert("effetti di Paura"@.len() == 16);
    assert("effetti di Paura ed influenza mentale"@.len() == 37);
    assert("effetti di Sguardo"@.len() == 18);
    assert("effetti di Sonno"@.len() == 16);
    assert("effetti di ammaliamento"@.len() == 23);
    assert("effetti di charme"@.len() == 17);
    assert("effetti di charme e compulsione"@.len() == 31);
    assert("effetti di charme e compulsioni"@.len() == 31);
    assert("effetti di compulsione"@.len() == 22);
    assert("effetti di confusione e demenza"@.len() == 31);
    assert("effetti di demenza"@.len() == 18);
    assert("effetti di influenza mentale"@.len() == 28);
    assert("effetti di influenza mentale e visivi"@.len() == 37);
    assert("effetti di luce"@.len() == 15);
    assert("effetti di maledizione"@.len() == 22);
    assert("effetti di maledizioni"@.len() == 22);
    assert("effetti di metamorfosi"@.len() == 22);
    assert("effetti di morte"@.len() == 16);
    assert("effetti di necromanzia"@.len() == 22);
    assert("effetti di paura"@.len() == 16);
    assert("effetti di sguardo"@.len() == 18);
    assert("effetti di sonno"@.len() == 16);
    assert("effetti e illusioni visive"@.len() == 26);
    assert("effetti polimorfi"@.len() == 17);
    assert("effetti sensoriali"@.len() == 18);
    assert("effetti visivi"@.len() == 14);
    assert("effetti visivi e illusioni"@.len() == 26);
    assert("elettricità"@.len() == 11);
    assert("emozioni"@.len() == 8);
    assert("energia negativa"@.len() == 16);
    assert("ferite permanenti"@.len() == 17);
    assert("forza"@.len() == 5);
    assert("freddo"@.len() == 6);
    assert("fulmine"@.len() == 7);
    assert("fuoco"@.len() == 5);
    assert("illusioni"@.len() == 9);
    assert("illusioni visive"@.len() == 16);
    assert("immunità alle acque del Fiume Stige"@.len() == 35);
    assert("invecchiamento"@.len() == 14);
    assert("livelli negativi"@.len() == 16);
    assert("malattia"@.len() == 8);
    assert("malattie"@.len() == 8);
    assert("maledizioni"@.len() == 11);
    assert("metamorfosi"@.len() == 11);
    assert("nausea"@.len() == 6);
    assert("palla di fuoco"@.len() == 14);
    assert("paralisi"@.len() == 8);
    assert("paura"@.len() == 5);
    assert("pietrificazione"@.len() == 15);
    assert("possessione"@.len() == 11);
    assert("risucchi di caratteristiche"@.len() == 27);
    assert("risucchi di energia"@.len() == 19);
    assert("risucchio di caratteristica"@.len() == 27);
    assert("risucchio di caratteristiche"@.len() == 28);
    assert("risucchio di energia"@.len() == 20);
    assert("ruggine"@.len() == 7);
    assert("sanguinamento"@.len() == 13);
    assert("scacciare"@.len() == 9);
    assert("sonno"@.len() == 5);
    assert("sonoro"@.len() == 6);
    assert("sordità"@.len() == 7);
    assert("stordimento"@.len() == 11);
    assert("tratti dei Draghi"@.len() == 17);
    assert("veleni"@.len() == 6);
    assert("veleno"@.len() == 6);
    assert("visivi ed illusori"@.len() == 18);
    assert("scacciare"@[0] != "Infermità"@[0]);
    assert("scacciare"@ != "Infermità"@);
    assert("scacciare"@[0] != "illusioni"@[0]);
    assert("scacciare"@ != "illusioni"@);
    assert("scacciare"@[0] != "Illusione"@[0]);
    assert("scacciare"@ != "Illusione"@);
}

proof fn lemma_read_immunity_energyspells(s: Seq<char>)
    requires
        immunity_named(Immunity_Type::Immunity_EnergySpells, s),
    ensures
        spec_single_immunity(s) == Some(Immunity_Type::Immunity_EnergySpells),
{
    reveal_strlit("Abbagliamenti");
    reveal_strlit("Abbagliamento");
    reveal_strlit("Abbagliato");
    reveal_strlit("Accecato");
    reveal_strlit("Acido");
    reveal_strlit("Affaticamento");
    reveal_strlit("Affaticato");
    reveal_strlit("Ammaliamento");
    reveal_strlit("Ancora Dimensionale");
    reveal_strlit("Armi Taglienti");
    reveal_strlit("Armi contundenti");
    reveal_strlit("Assorbimento del Fuoco");
    reveal_strlit("Attacchi Furtivi");
    reveal_strlit("Attacchi ai Fianchi");
    reveal_strlit("Attacchi basati sull'olfatto");
    reveal_strlit("Attacchi basati sulla vista");
    reveal_strlit("Attacchi basati sulla vista o sguardo");
    reveal_strlit("Attacchi con Sguardo");
    reveal_strlit("Attacchi con lo sguardo");
    reveal_strlit("Attacchi dipendenti dalla vista");
    reveal_strlit("Barcollante");
    reveal_strlit("Barcollare");
    reveal_strlit("Calmare Emozioni");
    reveal_strlit("Cecità");
    reveal_strlit("Charme");
    reveal_strlit("Colpi Critici");
    reveal_strlit("Colpi critici");
    reveal_strlit("Condizione Affaticato");
    reveal_strlit("Condizione Esausto");
    reveal_strlit("Confusione");
    reveal_strlit("Congedo");
    reveal_strlit("Controllo Magico");
    reveal_strlit("Convocazione");
    reveal_strlit("Danni Non Letali");
    reveal_strlit("Danni alle caratteristiche");
    reveal_strlit("Danni contundenti");
    reveal_strlit("Danni da arma");
    reveal_strlit("Danni da armi");
    reveal_strlit("Danni dalle Armi");
    reveal_strlit("Danni e risucchi alle caratteristiche");
    reveal_strlit("Danni e risucchi di caratteristiche");
    reveal_strlit("Danni e risucchio alle Caratteristiche");
    reveal_strlit("Danni e risucchio di caratteristiche");
    reveal_strlit("Danni perforanti e taglienti");
    reveal_strlit("Danno alle Caratteristiche");
    reveal_strlit("Danno da Pressione");
    reveal_strlit("Danno da arma");
    reveal_strlit("Danno e risucchio alle caratteristiche");
    reveal_strlit("Danno non letale");
    reveal_strlit("Dardo Incantato");
    reveal_strlit("Demenza");
    reveal_strlit("Divinazione");
    reveal_strlit("Dolore");
    reveal_strlit("Effetti a completamento di incantesimo e ad attivazione di incantesimo");
    reveal_strlit("Effetti basati sulla vista");
    reveal_strlit("Effetti d'influenza mentale");
    reveal_strlit("Effetti di Charme e Compulsione");
    reveal_strlit("Effetti di Demenza");
    reveal_strlit("Effetti di Influenza Mentale");
    reveal_strlit("Effetti di Morte");
    reveal_strlit("Effetti di Paura");
    reveal_strlit("Effetti di Sonno");
    reveal_strlit("Effetti di charme");
    reveal_strlit("Effetti di charme e compulsioni");
    reveal_strlit("Effetti di confusione e follia");
    reveal_strlit("Effetti di dolore");
    reveal_strlit("Effetti di forza");
    reveal_strlit("Effetti di influenza mentale");
    reveal_strlit("Effetti di morte");
    reveal_strlit("Effetti di morte (vedi sotto)");
    reveal_strlit("Effetti di paura");
    reveal_strlit("Effetti di sonno");
    reveal_strlit("Effetti visivi");
    reveal_strlit("Elettricità");
    reveal_strlit("Elettricità (parziale)");
    reveal_strlit("Energia Negativa");
    reveal_strlit("Energia Positiva");
    reveal_strlit("Esaurimento");
    reveal_strlit("Esausto");
    reveal_strlit("Fatica");
    reveal_strlit("Fiancheggiamento");
    reveal_strlit("Forza");
    reveal_strlit("Frastornamento");
    reveal_strlit("Frastornato");
    reveal_strlit("Freddo");
    reveal_strlit("Freddo (sé stesso e chi lo cavalca)");
    reveal_strlit("Fuoco");
    reveal_strlit("Fuoco Infernale");
    reveal_strlit("Illusione");
    reveal_strlit("Illusioni e qualsiasi attacco basato sulla vista");
    reveal_strlit("Immunità agli Incantesimi");
    reveal_strlit("Immunità al Freddo");
    reveal_strlit("Immunità all'Esilio");
    reveal_strlit("Immunità alla Magia");
    reveal_strlit("Immunità alle acque del Fiume Stige");
    reveal_strlit("Incantesimi di Ammaliamento e di Illusione");
    reveal_strlit("Incantesimi di Energia");
    reveal_strlit("Individuazione dei Pensieri");
    reveal_strlit("Individuazione dell'Allineamento");
    reveal_strlit("Infermità");
    reveal_strlit("Infermo");
    reveal_strlit("Invecchiamento");
    reveal_strlit("Lentezza");
    reveal_strlit("Livelli Negativi");
    reveal_strlit("Magia");
    reveal_strlit("Malattia");
    reveal_strlit("Malattie");
    reveal_strlit("Maledizioni");
    reveal_strlit("Metamorfosi");
    reveal_strlit("Nausea");
    reveal_strlit("Nauseato");
    reveal_strlit("Non Deformante");
    reveal_strlit("Padronanza delle Rune");
    reveal_strlit("Paralisi");
    reveal_strlit("Paura");
    reveal_strlit("Pietrificazione");
    reveal_strlit("Richiamo");
    reveal_strlit("Risucchi di Energia");
    reveal_strlit("Risucchio di Caratteristiche");
    reveal_strlit("Risucchio di Energia");
    reveal_strlit("Rivela Bugie");
    reveal_strlit("Sanguinamento");
    reveal_strlit("Sanguinamento (solo Punti Ferita)");
    reveal_strlit("Scosso");
    reveal_strlit("Sguardo");
    reveal_strlit("Sonno");
    reveal_strlit("Sonoro");
    reveal_strlit("Sordità");
    reveal_strlit("Spaventato");
    reveal_strlit("Stordimento");
    reveal_strlit("Tratti degli Elementali");
    reveal_strlit("Tratti degli Sciami");
    reveal_strlit("Tratti dei Costrutti");
    reveal_strlit("Tratti dei Draghi");
    reveal_strlit("Tratti dei Non Morti");
    reveal_strlit("Tratti dei Vegetali");
    reveal_strlit("Tratti delle Melme");
    reveal_strlit("Veleni");
    reveal_strlit("Veleno");
    reveal_strlit("Veleno Ingerito");
    reveal_strlit("acido");
    reveal_strlit("acque del Fiume Stige");
    reveal_strlit("attacchi basati sulla vista ed effetti visivi");
    reveal_strlit("attacchi con Sguardo");
    reveal_strlit("attacchi con lo Sguardo");
    reveal_strlit("attacchi con lo sguardo");
    reveal_strlit("charme");
    reveal_strlit("charme sui mostri");
    reveal_strlit("compulsione");
    reveal_strlit("controllo mentale");
    reveal_strlit("contundente");
    reveal_strlit("da caduta e da schiacciamento");
    reveal_strlit("danni alle Caratteristiche");
    reveal_strlit("danni alle caratteristiche");
    reveal_strlit("danni contundenti");
    reveal_strlit("danni contundenti e perforanti");
    reveal_strlit("danni da arma");
    reveal_strlit("danni da armi");
    reveal_strlit("danni da precisione");
    reveal_strlit("danni delle armi");
    reveal_strlit("danni di precisione");
    reveal_strlit("danni e risucchi di Caratteristiche");
    reveal_strlit("danni perforanti");
    reveal_strlit("danni taglienti");
    reveal_strlit("danni taglienti e perforanti");
    reveal_strlit("danno da arma");
    reveal_strlit("danno di precisione");
    reveal_strlit("di influenza mentale e basati sullo Sguardo");
    reveal_strlit("divinazione");
    reveal_strlit("dolore");
    reveal_strlit("effetti Barcollanti");
    reveal_strlit("effetti basati sulla vista");
    reveal_strlit("effetti che bersagliano uno specifico numero di creature");
    reveal_strlit("effetti di Charme e Compulsione");
    reveal_strlit("effetti di Metamorfosi");
    reveal_strlit("effetti di Paura");
    reveal_strlit("effetti di Paura ed influenza mentale");
    reveal_strlit("effetti di Sguardo");
    reveal_strlit("effetti di Sonno");
    reveal_strlit("effetti di ammaliamento");
    reveal_strlit("effetti di charme");
    reveal_strlit("effetti di charme e compulsione");
    reveal_strlit("effetti di charme e compulsioni");
    reveal_strlit("effetti di compulsione");
    reveal_strlit("effetti di confusione e demenza");
    reveal_strlit("effetti di demenza");
    reveal_strlit("effetti di influenza mentale");
    reveal_strlit("effetti di influenza mentale e visivi");
    reveal_strlit("effetti di luce");
    reveal_strlit("effetti di maledizione");
    reveal_strlit("effetti di maledizioni");
    reveal_strlit("effetti di metamorfosi");
    reveal_strlit("effetti di morte");
    reveal_strlit("effetti di necromanzia");
    reveal_strlit("effetti di paura");
    reveal_strlit("effetti di sguardo");
    reveal_strlit("effetti di sonno");
    reveal_strlit("effetti e illusioni visive");
    reveal_strlit("effetti polimorfi");
    reveal_strlit("effetti sensoriali");
    reveal_strlit("effetti visivi");
    reveal_strlit("effetti visivi e illusioni");
    reveal_strlit("elettricità");
    reveal_strlit("emozioni");
    reveal_strlit("energia negativa");
    reveal_strlit("ferite permanenti");
    reveal_strlit("forza");
    reveal_strlit("freddo");
    reveal_strlit("fulmine");
    reveal_strlit("fuoco");
    reveal_strlit("illusioni");
    reveal_strlit("illusioni visive");
    reveal_strlit("immunità alle acque del Fiume Stige");
    reveal_strlit("invecchiamento");
    reveal_strlit("livelli negativi");
    reveal_strlit("malattia");
    reveal_strlit("malattie");
    reveal_strlit("maledizioni");
    reveal_strlit("metamorfosi");
    reveal_strlit("nausea");
    reveal_strlit("palla di fuoco");
    reveal_strlit("paralisi");
    reveal_strlit("paura");
    reveal_strlit("pietrificazione");
    reveal_strlit("possessione");
    reveal_strlit("risucchi di caratteristiche");
    reveal_strlit("risucchi di energia");
    reveal_strlit("risucchio di caratteristica");
    reveal_strlit("risucchio di caratteristiche");
    reveal_strlit("risucchio di energia");
    reveal_strlit("ruggine");
    reveal_strlit("sanguinamento");
    reveal_strlit("scacciare");
    reveal_strlit("sonno");
    reveal_strlit("sonoro");
    reveal_strlit("sordità");
    reveal_strlit("stordimento");
    reveal_strlit("tratti dei Draghi");
    reveal_strlit("veleni");
    reveal_strlit("veleno");
    reveal_strlit("visivi ed illusori");
    assert("Abbagliamenti"@.len() == 13);
    assert("Abbagliamento"@.len() == 13);
    assert("Abbagliato"@.len() == 10);
    assert("Accecato"@.len() == 8);
    assert("Acido"@.len() == 5);
    assert("Affaticamento"@.len() == 13);
    assert("Affaticato"@.len() == 10);
    assert("Ammaliamento"@.len() == 12);
    assert("Ancora Dimensionale"@.len() == 19);
    assert("Armi Taglienti"@.len() == 14);
    assert("Armi contundenti"@.len() == 16);
    assert("Assorbimento del Fuoco"@.len() == 22);
    assert("Attacchi Furtivi"@.len() == 16);
    assert("Attacchi ai Fianchi"@.len() == 19);
    assert("Attacchi basati sull'olfatto"@.len() == 28);
    assert("Attacchi basati sulla vista"@.len() == 27);
    assert("Attacchi basati sulla vista o sguardo"@.len() == 37);
    assert("Attacchi con Sguardo"@.len() == 20);
    assert("Attacchi con lo sguardo"@.len() == 23);
    assert("Attacchi dipendenti dalla vista"@.len() == 31);
    assert("Barcollante"@.len() == 11);
    assert("Barcollare"@.len() == 10);
    assert("Calmare Emozioni"@.len() == 16);
    assert("Cecità"@.len() == 6);
    assert("Charme"@.len() == 6);
    assert("Colpi Critici"@.len() == 13);
    assert("Colpi critici"@.len() == 13);
    assert("Condizione Affaticato"@.len() == 21);
    assert("Condizione Esausto"@.len() == 18);
    assert("Confusione"@.len() == 10);
    assert("Congedo"@.len() == 7);
    assert("Controllo Magico"@.len() == 16);
    assert("Convocazione"@.len() == 12);
    assert("Danni Non Letali"@.len() == 16);
    assert("Danni alle caratteristiche"@.len() == 26);
    assert("Danni contundenti"@.len() == 17);
    assert("Danni da arma"@.len() == 13);
    assert("Danni da armi"@.len() == 13);
    assert("Danni dalle Armi"@.len() == 16);
    assert("Danni e risucchi alle caratteristiche"@.len() == 37);
    assert("Danni e risucchi di caratteristiche"@.len() == 35);
    assert("Danni e risucchio alle Caratteristiche"@.len() == 38);
    assert("Danni e risucchio di caratteristiche"@.len() == 36);
    assert("Danni perforanti e taglienti"@.len() == 28);
    assert("Danno alle Caratteristiche"@.len() == 26);
    assert("Danno da Pressione"@.len() == 18);
    assert("Danno da arma"@.len() == 13);
    assert("Danno e risucchio alle caratteristiche"@.len() == 38);
    assert("Danno non letale"@.len() == 16);
    assert("Dardo Incantato"@.len() == 15);
    assert("Demenza"@.len() == 7);
    assert("Divinazione"@.len() == 11);
    assert("Dolore"@.len() == 6);
    assert("Effetti a completamento di incantesimo e ad attivazione di incantesimo"@.len() == 70);
    assert("Effetti basati sulla vista"@.len() == 26);
    assert("Effetti d'influenza mentale"@.len() == 27);
    assert("Effetti di Charme e Compulsione"@.len() == 31);
    assert("Effetti di Demenza"@.len() == 18);
    assert("Effetti di Influenza Mentale"@.len() == 28);
    assert("Effetti di Morte"@.len() == 16);
    assert("Effetti di Paura"@.len() == 16);
    assert("Effetti di Sonno"@.len() == 16);
    assert("Effetti di charme"@.len() == 17);
    assert("Effetti di charme e compulsioni"@.len() == 31);
    assert("Effetti di confusione e follia"@.len() == 30);
    assert("Effetti di dolore"@.len() == 17);
    assert("Effetti di forza"@.len() == 16);
    assert("Effetti di influenza mentale"@.len() == 28);
    assert("Effetti di morte"@.len() == 16);
    assert("Effetti di morte (vedi sotto)"@.len() == 29);
    assert("Effetti di paura"@.len() == 16);
    assert("Effetti di sonno"@.len() == 16);
    assert("Effetti visivi"@.len() == 14);
    assert("Elettricità"@.len() == 11);
    assert("Elettricità (parziale)"@.len() == 22);
    assert("Energia Negativa"@.len() == 16);
    assert("Energia Positiva"@.len() == 16);
    assert("Esaurimento"@.len() == 11);
    assert("Esausto"@.len() == 7);
    assert("Fatica"@.len() == 6);
    assert("Fiancheggiamento"@.len() == 16);
    assert("Forza"@.len() == 5);
    assert("Frastornamento"@.len() == 14);
    assert("Frastornato"@.len() == 11);
    assert("Freddo"@.len() == 6);
    assert("Freddo (sé stesso e chi lo cavalca)"@.len() == 35);
    assert("Fuoco"@.len() == 5);
    assert("Fuoco Infernale"@.len() == 15);
    assert("Illusione"@.len() == 9);
    assert("Illusioni e qualsiasi attacco basato sulla vista"@.len() == 48);
    assert("Immunità agli Incantesimi"@.len() == 25);
    assert("Immunità al Freddo"@.len() == 18);
    assert("Immunità all'Esilio"@.len() == 19);
    assert("Immunità alla Magia"@.len() == 19);
    assert("Immunità alle acque del Fiume Stige"@.len() == 35);
    assert("Incantesimi di Ammaliamento e di Illusione"@.len() == 42);
    assert("Incantesimi di Energia"@.len() == 22);
    assert("Individuazione dei Pensieri"@.len() == 27);
    assert("Individuazione dell'Allineamento"@.len() == 32);
    assert("Infermità"@.len() == 9);
    assert("Infermo"@.len() == 7);
    assert("Invecchiamento"@.len() == 14);
    assert("Lentezza"@.len() == 8);
    assert("Livelli Negativi"@.len() == 16);
    assert("Magia"@.len() == 5);
    assert("Malattia"@.len() == 8);
    assert("Malattie"@.len() == 8);
    assert("Maledizioni"@.len() == 11);
    assert("Metamorfosi"@.len() == 11);
    assert("Nausea"@.len() == 6);
    assert("Nauseato"@.len() == 8);
    assert("Non Deformante"@.len() == 14);
    assert("Padronanza delle Rune"@.len() == 21);
    assert("Paralisi"@.len() == 8);
    assert("Paura"@.len() == 5);
    assert("Pietrificazione"@.len() == 15);
    assert("Richiamo"@.len() == 8);
    assert("Risucchi di Energia"@.len() == 19);
    assert("Risucchio di Caratteristiche"@.len() == 28);
    assert("Risucchio di Energia"@.len() == 20);
    assert("Rivela Bugie"@.len() == 12);
    assert("Sanguinamento"@.len() == 13);
    assert("Sanguinamento (solo Punti Ferita)"@.len() == 33);
    assert("Scosso"@.len() == 6);
    assert("Sguardo"@.len() == 7);
    assert("Sonno"@.len() == 5);
    assert("Sonoro"@.len() == 6);
    assert("Sordità"@.len() == 7);
    assert("Spaventato"@.len() == 10);
    assert("Stordimento"@.len() == 11);
    assert("Tratti degli Elementali"@.len() == 23);
    assert("Tratti degli Sciami"@.len() == 19);
    assert("Tratti dei Costrutti"@.len() == 20);
    assert("Tratti dei Draghi"@.len() == 17);
    assert("Tratti dei Non Morti"@.len() == 20);
    assert("Tratti dei Vegetali"@.len() == 19);
    assert("Tratti delle Melme"@.len() == 18);
    assert("Veleni"@.len() == 6);
    assert("Veleno"@.len() == 6);
    assert("Veleno Ingerito"@.len() == 15);
    assert("acido"@.len() == 5);
    assert("acque del Fiume Stige"@.len() == 21);
    assert("attacchi basati sulla vista ed effetti visivi"@.len() == 45);
    assert("attacchi con Sguardo"@.len() == 20);
    assert("attacchi con lo Sguardo"@.len() == 23);
    assert("attacchi con lo sguardo"@.len() == 23);
    assert("charme"@.len() == 6);
    assert("charme sui mostri"@.len() == 17);
    assert("compulsione"@.len() == 11);
    assert("controllo mentale"@.len() == 17);
    assert("contundente"@.len() == 11);
    assert("da caduta e da schiacciamento"@.len() == 29);
    assert("danni alle Caratteristiche"@.len() == 26);
    assert("danni alle caratteristiche"@.len() == 26);
    assert("danni contundenti"@.len() == 17);
    assert("danni contundenti e perforanti"@.len() == 30);
    assert("danni da arma"@.len() == 13);
    assert("danni da armi"@.len() == 13);
    assert("danni da precisione"@.len() == 19);
    assert("danni delle armi"@.len() == 16);
    assert("danni di precisione"@.len() == 19);
    assert("danni e risucchi di Caratteristiche"@.len() == 35);
    assert("danni perforanti"@.len() == 16);
    assert("danni taglienti"@.len() == 15);
    assert("danni taglienti e perforanti"@.len() == 28);
    assert("danno da arma"@.len() == 13);
    assert("danno di precisione"@.len() == 19);
    assert("di influenza mentale e basati sullo Sguardo"@.len() == 43);
    assert("divinazione"@.len() == 11);
    assert("dolore"@.len() == 6);
    assert("effetti Barcollanti"@.len() == 19);
    assert("effetti basati sulla vista"@.len() == 26);
    assert("effetti che bersagliano uno specifico numero di creature"@.len() == 56);
    assert("effetti di Charme e Compulsione"@.len() == 31);
    assert("effetti di Metamorfosi"@.len() == 22);
    assert("effetti di Paura"@.len() == 16);
    assert("effetti di Paura ed influenza mentale"@.len() == 37);
    assert("effetti di Sguardo"@.len() == 18);
    assert("effetti di Sonno"@.len() == 16);
    assert("effetti di ammaliamento"@.len() == 23);
    assert("effetti di charme"@.len() == 17);
    assert("effetti di charme e compulsione"@.len() == 31);
    assert("effetti di charme e compulsioni"@.len() == 31);
    assert("effetti di compulsione"@.len() == 22);
    assert("effetti di confusione e demenza"@.len() == 31);
    assert("effetti di demenza"@.len() == 18);
    assert("effetti di influenza mentale"@.len() == 28);
    assert("effetti di influenza mentale e visivi"@.len() == 37);
    assert("effetti di luce"@.len() == 15);
    assert("effetti di maledizione"@.len() == 22);
    assert("effetti di maledizioni"@.len() == 22);
    assert("effetti di metamorfosi"@.len() == 22);
    assert("effetti di morte"@.len() == 16);
    assert("effetti di necromanzia"@.len() == 22);
    assert("effetti di paura"@.len() == 16);
    assert("effetti di sguardo"@.len() == 18);
    assert("effetti di sonno"@.len() == 16);
    assert("effetti e illusioni visive"@.len() == 26);
    assert("effetti polimorfi"@.len() == 17);
    assert("effetti sensoriali"@.len() == 18);
    assert("effetti visivi"@.len() == 14);
    assert("effetti visivi e illusioni"@.len() == 26);
    assert("elettricità"@.len() == 11);
    assert("emozioni"@.len() == 8);
    assert("energia negativa"@.len() == 16);
    assert("ferite permanenti"@.len() == 17);
    assert("forza"@.len() == 5);
    assert("freddo"@.len() == 6);
    assert("fulmine"@.len() == 7);
    assert("fuoco"@.len() == 5);
    assert("illusioni"@.len() == 9);
    assert("illusioni visive"@.len() == 16);
    assert("immunità alle acque del Fiume Stige"@.len() == 35);
    assert("invecchiamento"@.len() == 14);
    assert("livelli negativi"@.len() == 16);
    assert("malattia"@.len() == 8);
    assert("malattie"@.len() == 8);
    assert("maledizioni"@.len() == 11);
    assert("metamorfosi"@.len() == 11);
    assert("nausea"@.len() == 6);
    assert("palla di fuoco"@.len() == 14);
    assert("paralisi"@.len() == 8);
    assert("paura"@.len() == 5);
    assert("pietrificazione"@.len() == 15);
    assert("possessione"@.len() == 11);
    assert("risucchi di caratteristiche"@.len() == 27);
    assert("risucchi di energia"@.len() == 19);
    assert("risucchio di caratteristica"@.len() == 27);
    assert("risucchio di caratteristiche"@.len() == 28);
    assert("risucchio di energia"@.len() == 20);
    assert("ruggine"@.len() == 7);
    assert("sanguinamento"@.len() == 13);
    assert("scacciare"@.len() == 9);
    assert("sonno"@.len() == 5);
    assert("sonoro"@.len() == 6);
    assert("sordità"@.len() == 7);
    assert("stordimento"@.len() == 11);
    assert("tratti dei Draghi"@.len() == 17);
    assert("veleni"@.len() == 6);
    assert("veleno"@.len() == 6);
    assert("visivi ed illusori"@.len() == 18);
    assert("Incantesimi di Energia"@[0] != "Assorbimento del Fuoco"@[0]);
    assert("Incantesimi di Energia"@ != "Assorbimento del Fuoco"@);
    assert("Incantesimi di Energia"@[0] != "Elettricità (parziale)"@[0]);
    assert("Incantesimi di Energia"@ != "Elettricità (parziale)"@);
    assert("Incantesimi di Energia"@[0] != "effetti di maledizione"@[0]);
    assert("Incantesimi di Energia"@ != "effetti di maledizione"@);
    assert("Incantesimi di Energia"@[0] != "effetti di maledizioni"@[0]);
    assert("Incantesimi di Energia"@ != "effetti di maledizioni"@);
    assert("Incantesimi di Energia"@[0] != "effetti di compulsione"@[0]);
    assert("Incantesimi di Energia"@ != "effetti di compulsione"@);
    assert("Incantesimi di Energia"@[0] != "effetti di metamorfosi"@[0]);
    assert("Incantesimi di Energia"@ != "effetti di metamorfosi"@);
    assert("Incantesimi di Energia"@[0] != "effetti di Metamorfosi"@[0]);
    assert("Incantesimi di Energia"@ != "effetti di Metamorfosi"@);
    assert("Incantesimi di Energia"@[0] != "effetti di necromanzia"@[0]);
    assert("Incantesimi di Energia"@ != "effetti di necromanzia"@);
}

proof fn lemma_read_immunity_annihilation(s: Seq<char>)
    requires
        immunity_named(Immunity_Type::Immunity_Annihilation, s),
    ensures
        spec_single_immunity(s) == Some(Immunity_Type::Immunity_Annihilation),
{
    reveal_strlit("Abbagliamenti");
    reveal_strlit("Abbagliamento");
    reveal_strlit("Abbagliato");
    reveal_strlit("Accecato");
    reveal_strlit("Acido");
    reveal_strlit("Affaticamento");
    reveal_strlit("Affaticato");
    reveal_strlit("Ammaliamento");
    reveal_strlit("Ancora Dimensionale");
    reveal_strlit("Armi Taglienti");
    reveal_strlit("Armi contundenti");
    reveal_strlit("Assorbimento del Fuoco");
    reveal_strlit("Attacchi Furtivi");
    reveal_strlit("Attacchi ai Fianchi");
    reveal_strlit("Attacchi basati sull'olfatto");
    reveal_strlit("Attacchi basati sulla vista");
    reveal_strlit("Attacchi basati sulla vista o sguardo");
    reveal_strlit("Attacchi con Sguardo");
    reveal_strlit("Attacchi con lo sguardo");
    reveal_strlit("Attacchi dipendenti dalla vista");
    reveal_strlit("Barcollante");
    reveal_strlit("Barcollare");
    reveal_strlit("Calmare Emozioni");
    reveal_strlit("Cecità");
    reveal_strlit("Charme");
    reveal_strlit("Colpi Critici");
    reveal_strlit("Colpi critici");
    reveal_strlit("Condizione Affaticato");
    reveal_strlit("Condizione Esausto");
    reveal_strlit("Confusione");
    reveal_strlit("Congedo");
    reveal_strlit("Controllo Magico");
    reveal_strlit("Convocazione");
    reveal_strlit("Danni Non Letali");
    reveal_strlit("Danni alle caratteristiche");
    reveal_strlit("Danni contundenti");
    reveal_strlit("Danni da arma");
    reveal_strlit("Danni da armi");
    reveal_strlit("Danni dalle Armi");
    reveal_strlit("Danni e risucchi alle caratteristiche");
    reveal_strlit("Danni e risucchi di caratteristiche");
    reveal_strlit("Danni e risucchio alle Caratteristiche");
    reveal_strlit("Danni e risucchio di caratteristiche");
    reveal_strlit("Danni perforanti e taglienti");
    reveal_strlit("Danno alle Caratteristiche");
    reveal_strlit("Danno da Pressione");
    reveal_strlit("Danno da arma");
    reveal_strlit("Danno e risucchio alle caratteristiche");
    reveal_strlit("Danno non letale");
    reveal_strlit("Dardo Incantato");
    reveal_strlit("Demenza");
    reveal_strlit("Divinazione");
    reveal_strlit("Dolore");
    reveal_strlit("Effetti a completamento di incantesimo e ad attivazione di incantesimo");
    reveal_strlit("Effetti basati sulla vista");
    reveal_strlit("Effetti d'influenza mentale");
    reveal_strlit("Effetti di Charme e Compulsione");
    reveal_strlit("Effetti di Demenza");
    reveal_strlit("Effetti di Influenza Mentale");
    reveal_strlit("Effetti di Morte");
    reveal_strlit("Effetti di Paura");
    reveal_strlit("Effetti di Sonno");
    reveal_strlit("Effetti di charme");
    reveal_strlit("Effetti di charme e compulsioni");
    reveal_strlit("Effetti di confusione e follia");
    reveal_strlit("Effetti di dolore");
    reveal_strlit("Effetti di forza");
    reveal_strlit("Effetti di influenza mentale");
    reveal_strlit("Effetti di morte");
    reveal_strlit("Effetti di morte (vedi sotto)");
    reveal_strlit("Effetti di paura");
    reveal_strlit("Effetti di sonno");
    reveal_strlit("Effetti visivi");
    reveal_strlit("Elettricità");
    reveal_strlit("Elettricità (parziale)");
    reveal_strlit("Energia Negativa");
    reveal_strlit("Energia Positiva");
    reveal_strlit("Esaurimento");
    reveal_strlit("Esausto");
    reveal_strlit("Fatica");
    reveal_strlit("Fiancheggiamento");
    reveal_strlit("Forza");
    reveal_strlit("Frastornamento");
    reveal_strlit("Frastornato");
    reveal_strlit("Freddo");
    reveal_strlit("Freddo (sé stesso e chi lo cavalca)");
    reveal_strlit("Fuoco");
    reveal_strlit("Fuoco Infernale");
    reveal_strlit("Illusione");
    reveal_strlit("Illusioni e qualsiasi attacco basato sulla vista");
    reveal_strlit("Immunità agli Incantesimi");
    reveal_strlit("Immunità al Freddo");
    reveal_strlit("Immunità all'Annichilazione");
    reveal_strlit("Immunità all'Esilio");
    reveal_strlit("Immunità alla Magia");
    reveal_strlit("Immunità alle acque del Fiume Stige");
    reveal_strlit("Incantesimi di Ammaliamento e di Illusione");
    reveal_strlit("Incantesimi di Energia");
    reveal_strlit("Individuazione dei Pensieri");
    reveal_strlit("Individuazione dell'Allineamento");
    reveal_strlit("Infermità");
    reveal_strlit("Infermo");
    reveal_strlit("Invecchiamento");
    reveal_strlit("Lentezza");
    reveal_strlit("Livelli Negativi");
    reveal_strlit("Magia");
    reveal_strlit("Malattia");
    reveal_strlit("Malattie");
    reveal_strlit("Maledizioni");
    reveal_strlit("Metamorfosi");
    reveal_strlit("Nausea");
    reveal_strlit("Nauseato");
    reveal_strlit("Non Deformante");
    reveal_strlit("Padronanza delle Rune");
    reveal_strlit("Paralisi");
    reveal_strlit("Paura");
    reveal_strlit("Pietrificazione");
    reveal_strlit("Richiamo");
    reveal_strlit("Risucchi di Energia");
    reveal_strlit("Risucchio di Caratteristiche");
    reveal_strlit("Risucchio di Energia");
    reveal_strlit("Rivela Bugie");
    reveal_strlit("Sanguinamento");
    reveal_strlit("Sanguinamento (solo Punti Ferita)");
    reveal_strlit("Scosso");
    reveal_strlit("Sguardo");
    reveal_strlit("Sonno");
    reveal_strlit("Sonoro");
    reveal_strlit("Sordità");
    reveal_strlit("Spaventato");
    reveal_strlit("Stordimento");
    reveal_strlit("Tratti degli Elementali");
    reveal_strlit("Tratti degli Sciami");
    reveal_strlit("Tratti dei Costrutti");
    reveal_strlit("Tratti dei Draghi");
    reveal_strlit("Tratti dei Non Morti");
    reveal_strlit("Tratti dei Vegetali");
    reveal_strlit("Tratti delle Melme");
    reveal_strlit("Veleni");
    reveal_strlit("Veleno");
    reveal_strlit("Veleno Ingerito");
    reveal_strlit("acido");
    reveal_strlit("acque del Fiume Stige");
    reveal_strlit("attacchi basati sulla vista ed effetti visivi");
    reveal_strlit("attacchi con Sguardo");
    reveal_strlit("attacchi con lo Sguardo");
    reveal_strlit("attacchi con lo sguardo");
    reveal_strlit("charme");
    reveal_strlit("charme sui mostri");
    reveal_strlit("compulsione");
    reveal_strlit("controllo mentale");
    reveal_strlit("contundente");
    reveal_strlit("da caduta e da schiacciamento");
    reveal_strlit("danni alle Caratteristiche");
    reveal_strlit("danni alle caratteristiche");
    reveal_strlit("danni contundenti");
    reveal_strlit("danni contundenti e perforanti");
    reveal_strlit("danni da arma");
    reveal_strlit("danni da armi");
    reveal_strlit("danni da precisione");
    reveal_strlit("danni delle armi");
    reveal_strlit("danni di precisione");
    reveal_strlit("danni e risucchi di Caratteristiche");
    reveal_strlit("danni perforanti");
    reveal_strlit("danni taglienti");
    reveal_strlit("danni taglienti e perforanti");
    reveal_strlit("danno da arma");
    reveal_strlit("danno di precisione");
    reveal_strlit("di influenza mentale e basati sullo Sguardo");
    reveal_strlit("divinazione");
    reveal_strlit("dolore");
    reveal_strlit("effetti Barcollanti");
    reveal_strlit("effetti basati sulla vista");
    reveal_strlit("effetti che bersagliano uno specifico numero di creature");
    reveal_strlit("effetti di Charme e Compulsione");
    reveal_strlit("effetti di Metamorfosi");
    reveal_strlit("effetti di Paura");
    reveal_strlit("effetti di Paura ed influenza mentale");
    reveal_strlit("effetti di Sguardo");
    reveal_strlit("effetti di Sonno");
    reveal_strlit("effetti di ammaliamento");
    reveal_strlit("effetti di charme");
    reveal_strlit("effetti di charme e compulsione");
    reveal_strlit("effetti di charme e compulsioni");
    reveal_strlit("effetti di compulsione");
    reveal_strlit("effetti di confusione e demenza");
    reveal_strlit("effetti di demenza");
    reveal_strlit("effetti di influenza mentale");
    reveal_strlit("effetti di influenza mentale e visivi");
    reveal_strlit("effetti di luce");
    reveal_strlit("effetti di maledizione");
    reveal_strlit("effetti di maledizioni");
    reveal_strlit("effetti di metamorfosi");
    reveal_strlit("effetti di morte");
    reveal_strlit("effetti di necromanzia");
    reveal_strlit("effetti di paura");
    reveal_strlit("effetti di sguardo");
    reveal_strlit("effetti di sonno");
    reveal_strlit("effetti e illusioni visive");
    reveal_strlit("effetti polimorfi");
    reveal_strlit("effetti sensoriali");
    reveal_strlit("effetti visivi");
    reveal_strlit("effetti visivi e illusioni");
    reveal_strlit("elettricità");
    reveal_strlit("emozioni");
    reveal_strlit("energia negativa");
    reveal_strlit("ferite permanenti");
    reveal_strlit("forza");
    reveal_strlit("freddo");
    reveal_strlit("fulmine");
    reveal_strlit("fuoco");
    reveal_strlit("illusioni");
    reveal_strlit("illusioni visive");
    reveal_strlit("immunità alle acque del Fiume Stige");
    reveal_strlit("invecchiamento");
    reveal_strlit("livelli negativi");
    reveal_strlit("malattia");
    reveal_strlit("malattie");
    reveal_strlit("maledizioni");
    reveal_strlit("metamorfosi");
    reveal_strlit("nausea");
    reveal_strlit("palla di fuoco");
    reveal_strlit("paralisi");
    reveal_strlit("paura");
    reveal_strlit("pietrificazione");
    reveal_strlit("possessione");
    reveal_strlit("risucchi di caratteristiche");
    reveal_strlit("risucchi di energia");
    reveal_strlit("risucchio di caratteristica");
    reveal_strlit("risucchio di caratteristiche");
    reveal_strlit("risucchio di energia");
    reveal_strlit("ruggine");
    reveal_strlit("sanguinamento");
    reveal_strlit("scacciare");
    reveal_strlit("sonno");
    reveal_strlit("sonoro");
    reveal_strlit("sordità");
    reveal_strlit("stordimento");
    reveal_strlit("tratti dei Draghi");
    reveal_strlit("veleni");
    reveal_strlit("veleno");
    reveal_strlit("visivi ed illusori");
    assert("Abbagliamenti"@.len() == 13);
    assert("Abbagliamento"@.len() == 13);
    assert("Abbagliato"@.len() == 10);
    assert("Accecato"@.len() == 8);
    assert("Acido"@.len() == 5);
    assert("Affaticamento"@.len() == 13);
    assert("Affaticato"@.len() == 10);
    assert("Ammaliamento"@.len() == 12);
    assert("Ancora Dimensionale"@.len() == 19);
    assert("Armi Taglienti"@.len() == 14);
    assert("Armi contundenti"@.len() == 16);
    assert("Assorbimento del Fuoco"@.len() == 22);
    assert("Attacchi Furtivi"@.len() == 16);
    assert("Attacchi ai Fianchi"@.len() == 19);
    assert("Attacchi basati sull'olfatto"@.len() == 28);
    assert("Attacchi basati sulla vista"@.len() == 27);
    assert("Attacchi basati sulla vista o sguardo"@.len() == 37);
    assert("Attacchi con Sguardo"@.len() == 20);
    assert("Attacchi con lo sguardo"@.len() == 23);
    assert("Attacchi dipendenti dalla vista"@.len() == 31);
    assert("Barcollante"@.len() == 11);
    assert("Barcollare"@.len() == 10);
    assert("Calmare Emozioni"@.len() == 16);
    assert("Cecità"@.len() == 6);
    assert("Charme"@.len() == 6);
    assert("Colpi Critici"@.len() == 13);
    assert("Colpi critici"@.len() == 13);
    assert("Condizione Affaticato"@.len() == 21);
    assert("Condizione Esausto"@.len() == 18);
    assert("Confusione"@.len() == 10);
    assert("Congedo"@.len() == 7);
    assert("Controllo Magico"@.len() == 16);
    assert("Convocazione"@.len() == 12);
    assert("Danni Non Letali"@.len() == 16);
    assert("Danni alle caratteristiche"@.len() == 26);
    assert("Danni contundenti"@.len() == 17);
    assert("Danni da arma"@.len() == 13);
    assert("Danni da armi"@.len() == 13);
    assert("Danni dalle Armi"@.len() == 16);
    assert("Danni e risucchi alle caratteristiche"@.len() == 37);
    assert("Danni e risucchi di caratteristiche"@.len() == 35);
    assert("Danni e risucchio alle Caratteristiche"@.len() == 38);
    assert("Danni e risucchio di caratteristiche"@.len() == 36);
    assert("Danni perforanti e taglienti"@.len() == 28);
    assert("Danno alle Caratteristiche"@.len() == 26);
    assert("Danno da Pressione"@.len() == 18);
    assert("Danno da arma"@.len() == 13);
    assert("Danno e risucchio alle caratteristiche"@.len() == 38);
    assert("Danno non letale"@.len() == 16);
    assert("Dardo Incantato"@.len() == 15);
    assert("Demenza"@.len() == 7);
    assert("Divinazione"@.len() == 11);
    assert("Dolore"@.len() == 6);
    assert("Effetti a completamento di incantesimo e ad attivazione di incantesimo"@.len() == 70);
    assert("Effetti basati sulla vista"@.len() == 26);
    assert("Effetti d'influenza mentale"@.len() == 27);
    assert("Effetti di Charme e Compulsione"@.len() == 31);
    assert("Effetti di Demenza"@.len() == 18);
    assert("Effetti di Influenza Mentale"@.len() == 28);
    assert("Effetti di Morte"@.len() == 16);
    assert("Effetti di Paura"@.len() == 16);
    assert("Effetti di Sonno"@.len() == 16);
    assert("Effetti di charme"@.len() == 17);
    assert("Effetti di charme e compulsioni"@.len() == 31);
    assert("Effetti di confusione e follia"@.len() == 30);
    assert("Effetti di dolore"@.len() == 17);
    assert("Effetti di forza"@.len() == 16);
    assert("Effetti di influenza mentale"@.len() == 28);
    assert("Effetti di morte"@.len() == 16);
    assert("Effetti di morte (vedi sotto)"@.len() == 29);
    assert("Effetti di paura"@.len() == 16);
    assert("Effetti di sonno"@.len() == 16);
    assert("Effetti visivi"@.len() == 14);
    assert("Elettricità"@.len() == 11);
    assert("Elettricità (parziale)"@.len() == 22);
    assert("Energia Negativa"@.len() == 16);
    assert("Energia Positiva"@.len() == 16);
    assert("Esaurimento"@.len() == 11);
    assert("Esausto"@.len() == 7);
    assert("Fatica"@.len() == 6);
    assert("Fiancheggiamento"@.len() == 16);
    assert("Forza"@.len() == 5);
    assert("Frastornamento"@.len() == 14);
    assert("Frastornato"@.len() == 11);
    assert("Freddo"@.len() == 6);
    assert("Freddo (sé stesso e chi lo cavalca)"@.len() == 35);
    assert("Fuoco"@.len() == 5);
    assert("Fuoco Infernale"@.len() == 15);
    assert("Illusione"@.len() == 9);
    assert("Illusioni e qualsiasi attacco basato sulla vista"@.len() == 48);
    assert("Immunità agli Incantesimi"@.len() == 25);
    assert("Immunità al Freddo"@.len() == 18);
    assert("Immunità all'Annichilazione"@.len() == 27);
    assert("Immunità all'Esilio"@.len() == 19);
    assert("Immunità alla Magia"@.len() == 19);
    assert("Immunità alle acque del Fiume Stige"@.len() == 35);
    assert("Incantesimi di Ammaliamento e di Illusione"@.len() == 42);
    assert("Incantesimi di Energia"@.len() == 22);
    assert("Individuazione dei Pensieri"@.len() == 27);
    assert("Individuazione dell'Allineamento"@.len() == 32);
    assert("Infermità"@.len() == 9);
    assert("Infermo"@.len() == 7);
    assert("Invecchiamento"@.len() == 14);
    assert("Lentezza"@.len() == 8);
    assert("Livelli Negativi"@.len() == 16);
    assert("Magia"@.len() == 5);
    assert("Malattia"@.len() == 8);
    assert("Malattie"@.len() == 8);
    assert("Maledizioni"@.len() == 11);
    assert("Metamorfosi"@.len() == 11);
    assert("Nausea"@.len() == 6);
    assert("Nauseato"@.len() == 8);
    assert("Non Deformante"@.len() == 14);
    assert("Padronanza delle Rune"@.len() == 21);
    assert("Paralisi"@.len() == 8);
    assert("Paura"@.len() == 5);
    assert("Pietrificazione"@.len() == 15);
    assert("Richiamo"@.len() == 8);
    assert("Risucchi di Energia"@.len() == 19);
    assert("Risucchio di Caratteristiche"@.len() == 28);
    assert("Risucchio di Energia"@.len() == 20);
    assert("Rivela Bugie"@.len() == 12);
    assert("Sanguinamento"@.len() == 13);
    assert("Sanguinamento (solo Punti Ferita)"@.len() == 33);
    assert("Scosso"@.len() == 6);
    assert("Sguardo"@.len() == 7);
    assert("Sonno"@.len() == 5);
    assert("Sonoro"@.len() == 6);
    assert("Sordità"@.len() == 7);
    assert("Spaventato"@.len() == 10);
    assert("Stordimento"@.len() == 11);
    assert("Tratti degli Elementali"@.len() == 23);
    assert("Tratti degli Sciami"@.len() == 19);
    assert("Tratti dei Costrutti"@.len() == 20);
    assert("Tratti dei Draghi"@.len() == 17);
    assert("Tratti dei Non Morti"@.len() == 20);
    assert("Tratti dei Vegetali"@.len() == 19);
    assert("Tratti delle Melme"@.len() == 18);
    assert("Veleni"@.len() == 6);
    assert("Veleno"@.len() == 6);
    assert("Veleno Ingerito"@.len() == 15);
    assert("acido"@.len() == 5);
    assert("acque del Fiume Stige"@.len() == 21);
    assert("attacchi basati sulla vista ed effetti visivi"@.len() == 45);
    assert("attacchi con Sguardo"@.len() == 20);
    assert("attacchi con lo Sguardo"@.len() == 23);
    assert("attacchi con lo sguardo"@.len() == 23);
    assert("charme"@.len() == 6);
    assert("charme sui mostri"@.len() == 17);
    assert("compulsione"@.len() == 11);
    assert("controllo mentale"@.len() == 17);
    assert("contundente"@.len() == 11);
    assert("da caduta e da schiacciamento"@.len() == 29);
    assert("danni alle Caratteristiche"@.len() == 26);
    assert("danni alle caratteristiche"@.len() == 26);
    assert("danni contundenti"@.len() == 17);
    assert("danni contundenti e perforanti"@.len() == 30);
    assert("danni da arma"@.len() == 13);
    assert("danni da armi"@.len() == 13);
    assert("danni da precisione"@.len() == 19);
    assert("danni delle armi"@.len() == 16);
    assert("danni di precisione"@.len() == 19);
    assert("danni e risucchi di Caratteristiche"@.len() == 35);
    assert("danni perforanti"@.len() == 16);
    assert("danni taglienti"@.len() == 15);
    assert("danni taglienti e perforanti"@.len() == 28);
    assert("danno da arma"@.len() == 13);
    assert("danno di precisione"@.len() == 19);
    assert("di influenza mentale e basati sullo Sguardo"@.len() == 43);
    assert("divinazione"@.len() == 11);
    assert("dolore"@.len() == 6);
    assert("effetti Barcollanti"@.len() == 19);
    assert("effetti basati sulla vista"@.len() == 26);
    assert("effetti che bersagliano uno specifico numero di creature"@.len() == 56);
    assert("effetti di Charme e Compulsione"@.len() == 31);
    assert("effetti di Metamorfosi"@.len() == 22);
    assert("effetti di Paura"@.len() == 16);
    assert("effetti di Paura ed influenza mentale"@.len() == 37);
    assert("effetti di Sguardo"@.len() == 18);
    assert("effetti di Sonno"@.len() == 16);
    assert("effetti di ammaliamento"@.len() == 23);
    assert("effetti di charme"@.len() == 17);
    assert("effetti di charme e compulsione"@.len() == 31);
    assert("effetti di charme e compulsioni"@.len() == 31);
    assert("effetti di compulsione"@.len() == 22);
    assert("effetti di confusione e demenza"@.len() == 31);
    assert("effetti di demenza"@.len() == 18);
    assert("effetti di influenza mentale"@.len() == 28);
    assert("effetti di influenza mentale e visivi"@.len() == 37);
    assert("effetti di luce"@.len() == 15);
    assert("effetti di maledizione"@.len() == 22);
    assert("effetti di maledizioni"@.len() == 22);
    assert("effetti di metamorfosi"@.len() == 22);
    assert("effetti di morte"@.len() == 16);
    assert("effetti di necromanzia"@.len() == 22);
    assert("effetti di paura"@.len() == 16);
    assert("effetti di sguardo"@.len() == 18);
    assert("effetti di sonno"@.len() == 16);
    assert("effetti e illusioni visive"@.len() == 26);
    assert("effetti polimorfi"@.len() == 17);
    assert("effetti sensoriali"@.len() == 18);
    assert("effetti visivi"@.len() == 14);
    assert("effetti visivi e illusioni"@.len() == 26);
    assert("elettricità"@.len() == 11);
    assert("emozioni"@.len() == 8);
    assert("energia negativa"@.len() == 16);
    assert("ferite permanenti"@.len() == 17);
    assert("forza"@.len() == 5);
    assert("freddo"@.len() == 6);
    assert("fulmine"@.len() == 7);
    assert("fuoco"@.len() == 5);
    assert("illusioni"@.len() == 9);
    assert("illusioni visive"@.len() == 16);
    assert("immunità alle acque del Fiume Stige"@.len() == 35);
    assert("invecchiamento"@.len() == 14);
    assert("livelli negativi"@.len() == 16);
    assert("malattia"@.len() == 8);
    assert("malattie"@.len() == 8);
    assert("maledizioni"@.len() == 11);
    assert("metamorfosi"@.len() == 11);
    assert("nausea"@.len() == 6);
    assert("palla di fuoco"@.len() == 14);
    assert("paralisi"@.len() == 8);
    assert("paura"@.len() == 5);
    assert("pietrificazione"@.len() == 15);
    assert("possessione"@.len() == 11);
    assert("risucchi di caratteristiche"@.len() == 27);
    assert("risucchi di energia"@.len() == 19);
    assert("risucchio di caratteristica"@.len() == 27);
    assert("risucchio di caratteristiche"@.len() == 28);
    assert("risucchio di energia"@.len() == 20);
    assert("ruggine"@.len() == 7);
    assert("sanguinamento"@.len() == 13);
    assert("scacciare"@.len() == 9);
    assert("sonno"@.len() == 5);
    assert("sonoro"@.len() == 6);
    assert("sordità"@.len() == 7);
    assert("stordimento"@.len() == 11);
    assert("tratti dei Draghi"@.len() == 17);
    assert("veleni"@.len() == 6);
    assert("veleno"@.len() == 6);
    assert("visivi ed illusori"@.len() == 18);
    assert("Immunità all'Annichilazione"@[0] != "Attacchi basati sulla vista"@[0]);
    assert("Immunità all'Annichilazione"@ != "Attacchi basati sulla vista"@);
    assert("Immunità all'Annichilazione"@[0] != "Effetti d'influenza mentale"@[0]);
    assert("Immunità all'Annichilazione"@ != "Effetti d'influenza mentale"@);
    assert("Immunità all'Annichilazione"@[1] != "Individuazione dei Pensieri"@[1]);
    assert("Immunità all'Annichilazione"@ != "Individuazione dei Pensieri"@);
    assert("Immunità all'Annichilazione"@[0] != "risucchi di caratteristiche"@[0]);
    assert("Immunità all'Annichilazione"@ != "risucchi di caratteristiche"@);
    assert("Immunità all'Annichilazione"@[0] != "risucchio di caratteristica"@[0]);
    assert("Immunità all'Annichilazione"@ != "risucchio di caratteristica"@);
}

proof fn lemma_read_immunity_planeshift(s: Seq<char>)
    requires
        immunity_named(Immunity_Type::Immunity_PlaneShift, s),
    ensures
        spec_single_immunity(s) == Some(Immunity_Type::Immunity_PlaneShift),
{
    reveal_strlit("Abbagliamenti");
    reveal_strlit("Abbagliamento");
    reveal_strlit("Abbagliato");
    reveal_strlit("Accecato");
    reveal_strlit("Acido");
    reveal_strlit("Affaticamento");
    reveal_strlit("Affaticato");
    reveal_strlit("Ammaliamento");
    reveal_strlit("Ancora Dimensionale");
    reveal_strlit("Armi Taglienti");
    reveal_strlit("Armi contundenti");
    reveal_strlit("Assorbimento del Fuoco");
    reveal_strlit("Attacchi Furtivi");
    reveal_strlit("Attacchi ai Fianchi");
    reveal_strlit("Attacchi basati sull'olfatto");
    reveal_strlit("Attacchi basati sulla vista");
    reveal_strlit("Attacchi basati sulla vista o sguardo");
    reveal_strlit("Attacchi con Sguardo");
    reveal_strlit("Attacchi con lo sguardo");
    reveal_strlit("Attacchi dipendenti dalla vista");
    reveal_strlit("Barcollante");
    reveal_strlit("Barcollare");
    reveal_strlit("Calmare Emozioni");
    reveal_strlit("Cecità");
    reveal_strlit("Charme");
    reveal_strlit("Colpi Critici");
    reveal_strlit("Colpi critici");
    reveal_strlit("Condizione Affaticato");
    reveal_strlit("Condizione Esausto");
    reveal_strlit("Confusione");
    reveal_strlit("Congedo");
    reveal_strlit("Controllo Magico");
    reveal_strlit("Convocazione");
    reveal_strlit("Danni Non Letali");
    reveal_strlit("Danni alle caratteristiche");
    reveal_strlit("Danni contundenti");
    reveal_strlit("Danni da arma");
    reveal_strlit("Danni da armi");
    reveal_strlit("Danni dalle Armi");
    reveal_strlit("Danni e risucchi alle caratteristiche");
    reveal_strlit("Danni e risucchi di caratteristiche");
    reveal_strlit("Danni e risucchio alle Caratteristiche");
    reveal_strlit("Danni e risucchio di caratteristiche");
    reveal_strlit("Danni perforanti e taglienti");
    reveal_strlit("Danno alle Caratteristiche");
    reveal_strlit("Danno da Pressione");
    reveal_strlit("Danno da arma");
    reveal_strlit("Danno e risucchio alle caratteristiche");
    reveal_strlit("Danno non letale");
    reveal_strlit("Dardo Incantato");
    reveal_strlit("Demenza");
    reveal_strlit("Divinazione");
    reveal_strlit("Dolore");
    reveal_strlit("Effetti a completamento di incantesimo e ad attivazione di incantesimo");
    reveal_strlit("Effetti basati sulla vista");
    reveal_strlit("Effetti d'influenza mentale");
    reveal_strlit("Effetti di Charme e Compulsione");
    reveal_strlit("Effetti di Demenza");
    reveal_strlit("Effetti di Influenza Mentale");
    reveal_strlit("Effetti di Morte");
    reveal_strlit("Effetti di Paura");
    reveal_strlit("Effetti di Sonno");
    reveal_strlit("Effetti di charme");
    reveal_strlit("Effetti di charme e compulsioni");
    reveal_strlit("Effetti di confusione e follia");
    reveal_strlit("Effetti di dolore");
    reveal_strlit("Effetti di forza");
    reveal_strlit("Effetti di influenza mentale");
    reveal_strlit("Effetti di morte");
    reveal_strlit("Effetti di morte (vedi sotto)");
    reveal_strlit("Effetti di paura");
    reveal_strlit("Effetti di sonno");
    reveal_strlit("Effetti visivi");
    reveal_strlit("Elettricità");
    reveal_strlit("Elettricità (parziale)");
    reveal_strlit("Energia Negativa");
    reveal_strlit("Energia Positiva");
    reveal_strlit("Esaurimento");
    reveal_strlit("Esausto");
    reveal_strlit("Fatica");
    reveal_strlit("Fiancheggiamento");
    reveal_strlit("Forza");
    reveal_strlit("Frastornamento");
    reveal_strlit("Frastornato");
    reveal_strlit("Freddo");
    reveal_strlit("Freddo (sé stesso e chi lo cavalca)");
    reveal_strlit("Fuoco");
    reveal_strlit("Fuoco Infernale");
    reveal_strlit("Illusione");
    reveal_strlit("Illusioni e qualsiasi attacco basato sulla vista");
    reveal_strlit("Immunità agli Incantesimi");
    reveal_strlit("Immunità al Freddo");
    reveal_strlit("Immunità all'Annichilazione");
    reveal_strlit("Immunità all'Esilio");
    reveal_strlit("Immunità alla Magia");
    reveal_strlit("Immunità alle acque del Fiume Stige");
    reveal_strlit("Incantesimi di Ammaliamento e di Illusione");
    reveal_strlit("Incantesimi di Energia");
    reveal_strlit("Individuazione dei Pensieri");
    reveal_strlit("Individuazione dell'Allineamento");
    reveal_strlit("Infermità");
    reveal_strlit("Infermo");
    reveal_strlit("Invecchiamento");
    reveal_strlit("Lentezza");
    reveal_strlit("Livelli Negativi");
    reveal_strlit("Magia");
    reveal_strlit("Malattia");
    reveal_strlit("Malattie");
    reveal_strlit("Maledizioni");
    reveal_strlit("Metamorfosi");
    reveal_strlit("Nausea");
    reveal_strlit("Nauseato");
    reveal_strlit("Non Deformante");
    reveal_strlit("Padronanza delle Rune");
    reveal_strlit("Paralisi");
    reveal_strlit("Paura");
    reveal_strlit("Pietrificazione");
    reveal_strlit("Richiamo");
    reveal_strlit("Risucchi di Energia");
    reveal_strlit("Risucchio di Caratteristiche");
    reveal_strlit("Risucchio di Energia");
    reveal_strlit("Rivela Bugie");
    reveal_strlit("Sanguinamento");
    reveal_strlit("Sanguinamento (solo Punti Ferita)");
    reveal_strlit("Scosso");
    reveal_strlit("Sguardo");
    reveal_strlit("Sonno");
    reveal_strlit("Sonoro");
    reveal_strlit("Sordità");
    reveal_strlit("Spaventato");
    reveal_strlit("Spostamento Planare");
    reveal_strlit("Stordimento");
    reveal_strlit("Tratti degli Elementali");
    reveal_strlit("Tratti degli Sciami");
    reveal_strlit("Tratti dei Costrutti");
    reveal_strlit("Tratti dei Draghi");
    reveal_strlit("Tratti dei Non Morti");
    reveal_strlit("Tratti dei Vegetali");
    reveal_strlit("Tratti delle Melme");
    reveal_strlit("Veleni");
    reveal_strlit("Veleno");
    reveal_strlit("Veleno Ingerito");
    reveal_strlit("acido");
    reveal_strlit("acque del Fiume Stige");
    reveal_strlit("attacchi basati sulla vista ed effetti visivi");
    reveal_strlit("attacchi con Sguardo");
    reveal_strlit("attacchi con lo Sguardo");
    reveal_strlit("attacchi con lo sguardo");
    reveal_strlit("charme");
    reveal_strlit("charme sui mostri");
    reveal_strlit("compulsione");
    reveal_strlit("controllo mentale");
    reveal_strlit("contundente");
    reveal_strlit("da caduta e da schiacciamento");
    reveal_strlit("danni alle Caratteristiche");
    reveal_strlit("danni alle caratteristiche");
    reveal_strlit("danni contundenti");
    reveal_strlit("danni contundenti e perforanti");
    reveal_strlit("danni da arma");
    reveal_strlit("danni da armi");
    reveal_strlit("danni da precisione");
    reveal_strlit("danni delle armi");
    reveal_strlit("danni di precisione");
    reveal_strlit("danni e risucchi di Caratteristiche");
    reveal_strlit("danni perforanti");
    reveal_strlit("danni taglienti");
    reveal_strlit("danni taglienti e perforanti");
    reveal_strlit("danno da arma");
    reveal_strlit("danno di precisione");
    reveal_strlit("di influenza mentale e basati sullo Sguardo");
    reveal_strlit("divinazione");
    reveal_strlit("dolore");
    reveal_strlit("effetti Barcollanti");
    reveal_strlit("effetti basati sulla vista");
    reveal_strlit("effetti che bersagliano uno specifico numero di creature");
    reveal_strlit("effetti di Charme e Compulsione");
    reveal_strlit("effetti di Metamorfosi");
    reveal_strlit("effetti di Paura");
    reveal_strlit("effetti di Paura ed influenza mentale");
    reveal_strlit("effetti di Sguardo");
    reveal_strlit("effetti di Sonno");
    reveal_strlit("effetti di ammaliamento");
    reveal_strlit("effetti di charme");
    reveal_strlit("effetti di charme e compulsione");
    reveal_strlit("effetti di charme e compulsioni");
    reveal_strlit("effetti di compulsione");
    reveal_strlit("effetti di confusione e demenza");
    reveal_strlit("effetti di demenza");
    reveal_strlit("effetti di influenza mentale");
    reveal_strlit("effetti di influenza mentale e visivi");
    reveal_strlit("effetti di luce");
    reveal_strlit("effetti di maledizione");
    reveal_strlit("effetti di maledizioni");
    reveal_strlit("effetti di metamorfosi");
    reveal_strlit("effetti di morte");
    reveal_strlit("effetti di necromanzia");
    reveal_strlit("effetti di paura");
    reveal_strlit("effetti di sguardo");
    reveal_strlit("effetti di sonno");
    reveal_strlit("effetti e illusioni visive");
    reveal_strlit("effetti polimorfi");
    reveal_strlit("effetti sensoriali");
    reveal_strlit("effetti visivi");
    reveal_strlit("effetti visivi e illusioni");
    reveal_strlit("elettricità");
    reveal_strlit("emozioni");
    reveal_strlit("energia negativa");
    reveal_strlit("ferite permanenti");
    reveal_strlit("forza");
    reveal_strlit("freddo");
    reveal_strlit("fulmine");
    reveal_strlit("fuoco");
    reveal_strlit("illusioni");
    reveal_strlit("illusioni visive");
    reveal_strlit("immunità alle acque del Fiume Stige");
    reveal_strlit("invecchiamento");
    reveal_strlit("livelli negativi");
    reveal_strlit("malattia");
    reveal_strlit("malattie");
    reveal_strlit("maledizioni");
    reveal_strlit("metamorfosi");
    reveal_strlit("nausea");
    reveal_strlit("palla di fuoco");
    reveal_strlit("paralisi");
    reveal_strlit("paura");
    reveal_strlit("pietrificazione");
    reveal_strlit("possessione");
    reveal_strlit("risucchi di caratteristiche");
    reveal_strlit("risucchi di energia");
    reveal_strlit("risucchio di caratteristica");
    reveal_strlit("risucchio di caratteristiche");
    reveal_strlit("risucchio di energia");
    reveal_strlit("ruggine");
    reveal_strlit("sanguinamento");
    reveal_strlit("scacciare");
    reveal_strlit("sonno");
    reveal_strlit("sonoro");
    reveal_strlit("sordità");
    reveal_strlit("stordimento");
    reveal_strlit("tratti dei Draghi");
    reveal_strlit("veleni");
    reveal_strlit("veleno");
    reveal_strlit("visivi ed illusori");
    assert("Abbagliamenti"@.len() == 13);
    assert("Abbagliamento"@.len() == 13);
    assert("Abbagliato"@.len() == 10);
    assert("Accecato"@.len() == 8);
    assert("Acido"@.len() == 5);
    assert("Affaticamento"@.len() == 13);
    assert("Affaticato"@.len() == 10);
    assert("Ammaliamento"@.len() == 12);
    assert("Ancora Dimensionale"@.len() == 19);
    assert("Armi Taglienti"@.len() == 14);
    assert("Armi contundenti"@.len() == 16);
    assert("Assorbimento del Fuoco"@.len() == 22);
    assert("Attacchi Furtivi"@.len() == 16);
    assert("Attacchi ai Fianchi"@.len() == 19);
    assert("Attacchi basati sull'olfatto"@.len() == 28);
    assert("Attacchi basati sulla vista"@.len() == 27);
    assert("Attacchi basati sulla vista o sguardo"@.len() == 37);
    assert("Attacchi con Sguardo"@.len() == 20);
    assert("Attacchi con lo sguardo"@.len() == 23);
    assert("Attacchi dipendenti dalla vista"@.len() == 31);
    assert("Barcollante"@.len() == 11);
    assert("Barcollare"@.len() == 10);
    assert("Calmare Emozioni"@.len() == 16);
    assert("Cecità"@.len() == 6);
    assert("Charme"@.len() == 6);
    assert("Colpi Critici"@.len() == 13);
    assert("Colpi critici"@.len() == 13);
    assert("Condizione Affaticato"@.len() == 21);
    assert("Condizione Esausto"@.len() == 18);
    assert("Confusione"@.len() == 10);
    assert("Congedo"@.len() == 7);
    assert("Controllo Magico"@.len() == 16);
    assert("Convocazione"@.len() == 12);
    assert("Danni Non Letali"@.len() == 16);
    assert("Danni alle caratteristiche"@.len() == 26);
    assert("Danni contundenti"@.len() == 17);
    assert("Danni da arma"@.len() == 13);
    assert("Danni da armi"@.len() == 13);
    assert("Danni dalle Armi"@.len() == 16);
    assert("Danni e risucchi alle caratteristiche"@.len() == 37);
    assert("Danni e risucchi di caratteristiche"@.len() == 35);
    assert("Danni e risucchio alle Caratteristiche"@.len() == 38);
    assert("Danni e risucchio di caratteristiche"@.len() == 36);
    assert("Danni perforanti e taglienti"@.len() == 28);
    assert("Danno alle Caratteristiche"@.len() == 26);
    assert("Danno da Pressione"@.len() == 18);
    assert("Danno da arma"@.len() == 13);
    assert("Danno e risucchio alle caratteristiche"@.len() == 38);
    assert("Danno non letale"@.len() == 16);
    assert("Dardo Incantato"@.len() == 15);
    assert("Demenza"@.len() == 7);
    assert("Divinazione"@.len() == 11);
    assert("Dolore"@.len() == 6);
    assert("Effetti a completamento di incantesimo e ad attivazione di incantesimo"@.len() == 70);
    assert("Effetti basati sulla vista"@.len() == 26);
    assert("Effetti d'influenza mentale"@.len() == 27);
    assert("Effetti di Charme e Compulsione"@.len() == 31);
    assert("Effetti di Demenza"@.len() == 18);
    assert("Effetti di Influenza Mentale"@.len() == 28);
    assert("Effetti di Morte"@.len() == 16);
    assert("Effetti di Paura"@.len() == 16);
    assert("Effetti di Sonno"@.len() == 16);
    assert("Effetti di charme"@.len() == 17);
    assert("Effetti di charme e compulsioni"@.len() == 31);
    assert("Effetti di confusione e follia"@.len() == 30);
    assert("Effetti di dolore"@.len() == 17);
    assert("Effetti di forza"@.len() == 16);
    assert("Effetti di influenza mentale"@.len() == 28);
    assert("Effetti di morte"@.len() == 16);
    assert("Effetti di morte (vedi sotto)"@.len() == 29);
    assert("Effetti di paura"@.len() == 16);
    assert("Effetti di sonno"@.len() == 16);
    assert("Effetti visivi"@.len() == 14);
    assert("Elettricità"@.len() == 11);
    assert("Elettricità (parziale)"@.len() == 22);
    assert("Energia Negativa"@.len() == 16);
    assert("Energia Positiva"@.len() == 16);
    assert("Esaurimento"@.len() == 11);
    assert("Esausto"@.len() == 7);
    assert("Fatica"@.len() == 6);
    assert("Fiancheggiamento"@.len() == 16);
    assert("Forza"@.len() == 5);
    assert("Frastornamento"@.len() == 14);
    assert("Frastornato"@.len() == 11);
    assert("Freddo"@.len() == 6);
    assert("Freddo (sé stesso e chi lo cavalca)"@.len() == 35);
    assert("Fuoco"@.len() == 5);
    assert("Fuoco Infernale"@.len() == 15);
    assert("Illusione"@.len() == 9);
    assert("Illusioni e qualsiasi attacco basato sulla vista"@.len() == 48);
    assert("Immunità agli Incantesimi"@.len() == 25);
    assert("Immunità al Freddo"@.len() == 18);
    assert("Immunità all'Annichilazione"@.len() == 27);
    assert("Immunità all'Esilio"@.len() == 19);
    assert("Immunità alla Magia"@.len() == 19);
    assert("Immunità alle acque del Fiume Stige"@.len() == 35);
    assert("Incantesimi di Ammaliamento e di Illusione"@.len() == 42);
    assert("Incantesimi di Energia"@.len() == 22);
    assert("Individuazione dei Pensieri"@.len() == 27);
    assert("Individuazione dell'Allineamento"@.len() == 32);
    assert("Infermità"@.len() == 9);
    assert("Infermo"@.len() == 7);
    assert("Invecchiamento"@.len() == 14);
    assert("Lentezza"@.len() == 8);
    assert("Livelli Negativi"@.len() == 16);
    assert("Magia"@.len() == 5);
    assert("Malattia"@.len() == 8);
    assert("Malattie"@.len() == 8);
    assert("Maledizioni"@.len() == 11);
    assert("Metamorfosi"@.len() == 11);
    assert("Nausea"@.len() == 6);
    assert("Nauseato"@.len() == 8);
    assert("Non Deformante"@.len() == 14);
    assert("Padronanza delle Rune"@.len() == 21);
    assert("Paralisi"@.len() == 8);
    assert("Paura"@.len() == 5);
    assert("Pietrificazione"@.len() == 15);
    assert("Richiamo"@.len() == 8);
    assert("Risucchi di Energia"@.len() == 19);
    assert("Risucchio di Caratteristiche"@.len() == 28);
    assert("Risucchio di Energia"@.len() == 20);
    assert("Rivela Bugie"@.len() == 12);
    assert("Sanguinamento"@.len() == 13);
    assert("Sanguinamento (solo Punti Ferita)"@.len() == 33);
    assert("Scosso"@.len() == 6);
    assert("Sguardo"@.len() == 7);
    assert("Sonno"@.len() == 5);
    assert("Sonoro"@.len() == 6);
    assert("Sordità"@.len() == 7);
    assert("Spaventato"@.len() == 10);
    assert("Spostamento Planare"@.len() == 19);
    assert("Stordimento"@.len() == 11);
    assert("Tratti degli Elementali"@.len() == 23);
    assert("Tratti degli Sciami"@.len() == 19);
    assert("Tratti dei Costrutti"@.len() == 20);
    assert("Tratti dei Draghi"@.len() == 17);
    assert("Tratti dei Non Morti"@.len() == 20);
    assert("Tratti dei Vegetali"@.len() == 19);
    assert("Tratti delle Melme"@.len() == 18);
    assert("Veleni"@.len() == 6);
    assert("Veleno"@.len() == 6);
    assert("Veleno Ingerito"@.len() == 15);
    assert("acido"@.len() == 5);
    assert("acque del Fiume Stige"@.len() == 21);
    assert("attacchi basati sulla vista ed effetti visivi"@.len() == 45);
    assert("attacchi con Sguardo"@.len() == 20);
    assert("attacchi con lo Sguardo"@.len() == 23);
    assert("attacchi con lo sguardo"@.len() == 23);
    assert("charme"@.len() == 6);
    assert("charme sui mostri"@.len() == 17);
    assert("compulsione"@.len() == 11);
    assert("controllo mentale"@.len() == 17);
    assert("contundente"@.len() == 11);
    assert("da caduta e da schiacciamento"@.len() == 29);
    assert("danni alle Caratteristiche"@.len() == 26);
    assert("danni alle caratteristiche"@.len() == 26);
    assert("danni contundenti"@.len() == 17);
    assert("danni contundenti e perforanti"@.len() == 30);
    assert("danni da arma"@.len() == 13);
    assert("danni da armi"@.len() == 13);
    assert("danni da precisione"@.len() == 19);
    assert("danni delle armi"@.len() == 16);
    assert("danni di precisione"@.len() == 19);
    assert("danni e risucchi di Caratteristiche"@.len() == 35);
    assert("danni perforanti"@.len() == 16);
    assert("danni taglienti"@.len() == 15);
    assert("danni taglienti e perforanti"@.len() == 28);
    assert("danno da arma"@.len() == 13);
    assert("danno di precisione"@.len() == 19);
    assert("di influenza mentale e basati sullo Sguardo"@.len() == 43);
    assert("divinazione"@.len() == 11);
    assert("dolore"@.len() == 6);
    assert("effetti Barcollanti"@.len() == 19);
    assert("effetti basati sulla vista"@.len() == 26);
    assert("effetti che bersagliano uno specifico numero di creature"@.len() == 56);
    assert("effetti di Charme e Compulsione"@.len() == 31);
    assert("effetti di Metamorfosi"@.len() == 22);
    assert("effetti di Paura"@.len() == 16);
    assert("effetti di Paura ed influenza mentale"@.len() == 37);
    assert("effetti di Sguardo"@.len() == 18);
    assert("effetti di Sonno"@.len() == 16);
    assert("effetti di ammaliamento"@.len() == 23);
    assert("effetti di charme"@.len() == 17);
    assert("effetti di charme e compulsione"@.len() == 31);
    assert("effetti di charme e compulsioni"@.len() == 31);
    assert("effetti di compulsione"@.len() == 22);
    assert("effetti di confusione e demenza"@.len() == 31);
    assert("effetti di demenza"@.len() == 18);
    assert("effetti di influenza mentale"@.len() == 28);
    assert("effetti di influenza mentale e visivi"@.len() == 37);
    assert("effetti di luce"@.len() == 15);
    assert("effetti di maledizione"@.len() == 22);
    assert("effetti di maledizioni"@.len() == 22);
    assert("effetti di metamorfosi"@.len() == 22);
    assert("effetti di morte"@.len() == 16);
    assert("effetti di necromanzia"@.len() == 22);
    assert("effetti di paura"@.len() == 16);
    assert("effetti di sguardo"@.len() == 18);
    assert("effetti di sonno"@.len() == 16);
    assert("effetti e illusioni visive"@.len() == 26);
    assert("effetti polimorfi"@.len() == 17);
    assert("effetti sensoriali"@.len() == 18);
    assert("effetti visivi"@.len() == 14);
    assert("effetti visivi e illusioni"@.len() == 26);
    assert("elettricità"@.len() == 11);
    assert("emozioni"@.len() == 8);
    assert("energia negativa"@.len() == 16);
    assert("ferite permanenti"@.len() == 17);
    assert("forza"@.len() == 5);
    assert("freddo"@.len() == 6);
    assert("fulmine"@.len() == 7);
    assert("fuoco"@.len() == 5);
    assert("illusioni"@.len() == 9);
    assert("illusioni visive"@.len() == 16);
    assert("immunità alle acque del Fiume Stige"@.len() == 35);
    assert("invecchiamento"@.len() == 14);
    assert("livelli negativi"@.len() == 16);
    assert("malattia"@.len() == 8);
    assert("malattie"@.len() == 8);
    assert("maledizioni"@.len() == 11);
    assert("metamorfosi"@.len() == 11);
    assert("nausea"@.len() == 6);
    assert("palla di fuoco"@.len() == 14);
    assert("paralisi"@.len() == 8);
    assert("paura"@.len() == 5);
    assert("pietrificazione"@.len() == 15);
    assert("possessione"@.len() == 11);
    assert("risucchi di caratteristiche"@.len() == 27);
    assert("risucchi di energia"@.len() == 19);
    assert("risucchio di caratteristica"@.len() == 27);
    assert("risucchio di caratteristiche"@.len() == 28);
    assert("risucchio di energia"@.len() == 20);
    assert("ruggine"@.len() == 7);
    assert("sanguinamento"@.len() == 13);
    assert("scacciare"@.len() == 9);
    assert("sonno"@.len() == 5);
    assert("sonoro"@.len() == 6);
    assert("sordità"@.len() == 7);
    assert("stordimento"@.len() == 11);
    assert("tratti dei Draghi"@.len() == 17);
    assert("veleni"@.len() == 6);
    assert("veleno"@.len() == 6);
    assert("visivi ed illusori"@.len() == 18);
    assert("Spostamento Planare"@[0] != "effetti Barcollanti"@[0]);
    assert("Spostamento Planare"@ != "effetti Barcollanti"@);
    assert("Spostamento Planare"@[0] != "Immunità alla Magia"@[0]);
    assert("Spostamento Planare"@ != "Immunità alla Magia"@);
    assert("Spostamento Planare"@[0] != "danno di precisione"@[0]);
    assert("Spostamento Planare"@ != "danno di precisione"@);
    assert("Spostamento Planare"@[0] != "danni da precisione"@[0]);
    assert("Spostamento Planare"@ != "danni da precisione"@);
    assert("Spostamento Planare"@[0] != "danni di precisione"@[0]);
    assert("Spostamento Planare"@ != "danni di precisione"@);
    assert("Spostamento Planare"@[0] != "Attacchi ai Fianchi"@[0]);
    assert("Spostamento Planare"@ != "Attacchi ai Fianchi"@);
    assert("Spostamento Planare"@[0] != "Immunità all'Esilio"@[0]);
    assert("Spostamento Planare"@ != "Immunità all'Esilio"@);
    assert("Spostamento Planare"@[0] != "Ancora Dimensionale"@[0]);
    assert("Spostamento Planare"@ != "Ancora Dimensionale"@);
    assert("Spostamento Planare"@[0] != "Risucchi di Energia"@[0]);
    assert("Spostamento Planare"@ != "Risucchi di Energia"@);
    assert("Spostamento Planare"@[0] != "risucchi di energia"@[0]);
    assert("Spostamento Planare"@ != "risucchi di energia"@);
    assert("Spostamento Planare"@[0] != "Tratti degli Sciami"@[0]);
    assert("Spostamento Planare"@ != "Tratti degli Sciami"@);
    assert("Spostamento Planare"@[0] != "Tratti dei Vegetali"@[0]);
    assert("Spostamento Planare"@ != "Tratti dei Vegetali"@);
}

proof fn lemma_read_immunity_channelenergynonmithic(s: Seq<char>)
    requires
        immunity_named(Immunity_Type::Immunity_ChannelEnergyNonMithic, s),
    ensures
        spec_single_immunity(s) == Some(Immunity_Type::Immunity_ChannelEnergyNonMithic),
{
    reveal_strlit("Abbagliamenti");
    reveal_strlit("Abbagliamento");
    reveal_strlit("Abbagliato");
    reveal_strlit("Accecato");
    reveal_strlit("Acido");
    reveal_strlit("Affaticamento");
    reveal_strlit("Affaticato");
    reveal_strlit("Ammaliamento");
    reveal_strlit("Ancora Dimensionale");
    reveal_strlit("Armi Taglienti");
    reveal_strlit("Armi contundenti");
    reveal_strlit("Assorbimento del Fuoco");
    reveal_strlit("Attacchi Furtivi");
    reveal_strlit("Attacchi ai Fianchi");
    reveal_strlit("Attacchi basati sull'olfatto");
    reveal_strlit("Attacchi basati sulla vista");
    reveal_strlit("Attacchi basati sulla vista o sguardo");
    reveal_strlit("Attacchi con Sguardo");
    reveal_strlit("Attacchi con lo sguardo");
    reveal_strlit("Attacchi dipendenti dalla vista");
    reveal_strlit("Barcollante");
    reveal_strlit("Barcollare");
    reveal_strlit("Calmare Emozioni");
    reveal_strlit("Cecità");
    reveal_strlit("Charme");
    reveal_strlit("Colpi Critici");
    reveal_strlit("Colpi critici");
    reveal_strlit("Condizione Affaticato");
    reveal_strlit("Condizione Esausto");
    reveal_strlit("Confusione");
    reveal_strlit("Congedo");
    reveal_strlit("Controllo Magico");
    reveal_strlit("Convocazione");
    reveal_strlit("Danni Non Letali");
    reveal_strlit("Danni alle caratteristiche");
    reveal_strlit("Danni contundenti");
    reveal_strlit("Danni da arma");
    reveal_strlit("Danni da armi");
    reveal_strlit("Danni dalle Armi");
    reveal_strlit("Danni e risucchi alle caratteristiche");
    reveal_strlit("Danni e risucchi di caratteristiche");
    reveal_strlit("Danni e risucchio alle Caratteristiche");
    reveal_strlit("Danni e risucchio di caratteristiche");
    reveal_strlit("Danni perforanti e taglienti");
    reveal_strlit("Danno alle Caratteristiche");
    reveal_strlit("Danno da Pressione");
    reveal_strlit("Danno da arma");
    reveal_strlit("Danno e risucchio alle caratteristiche");
    reveal_strlit("Danno non letale");
    reveal_strlit("Dardo Incantato");
    reveal_strlit("Demenza");
    reveal_strlit("Divinazione");
    reveal_strlit("Dolore");
    reveal_strlit("Effetti a completamento di incantesimo e ad attivazione di incantesimo");
    reveal_strlit("Effetti basati sulla vista");
    reveal_strlit("Effetti d'influenza mentale");
    reveal_strlit("Effetti di Charme e Compulsione");
    reveal_strlit("Effetti di Demenza");
    reveal_strlit("Effetti di Influenza Mentale");
    reveal_strlit("Effetti di Morte");
    reveal_strlit("Effetti di Paura");
    reveal_strlit("Effetti di Sonno");
    reveal_strlit("Effetti di charme");
    reveal_strlit("Effetti di charme e compulsioni");
    reveal_strlit("Effetti di confusione e follia");
    reveal_strlit("Effetti di dolore");
    reveal_strlit("Effetti di forza");
    reveal_strlit("Effetti di influenza mentale");
    reveal_strlit("Effetti di morte");
    reveal_strlit("Effetti di morte (vedi sotto)");
    reveal_strlit("Effetti di paura");
    reveal_strlit("Effetti di sonno");
    reveal_strlit("Effetti visivi");
    reveal_strlit("Elettricità");
    reveal_strlit("Elettricità (parziale)");
    reveal_strlit("Energia Negativa");
    reveal_strlit("Energia Positiva");
    reveal_strlit("Esaurimento");
    reveal_strlit("Esausto");
    reveal_strlit("Fatica");
    reveal_strlit("Fiancheggiamento");
    reveal_strlit("Forza");
    reveal_strlit("Frastornamento");
    reveal_strlit("Frastornato");
    reveal_strlit("Freddo");
    reveal_strlit("Freddo (sé stesso e chi lo cavalca)");
    reveal_strlit("Fuoco");
    reveal_strlit("Fuoco Infernale");
    reveal_strlit("Illusione");
    reveal_strlit("Illusioni e qualsiasi attacco basato sulla vista");
    reveal_strlit("Immunità agli Incantesimi");
    reveal_strlit("Immunità al Freddo");
    reveal_strlit("Immunità all'Annichilazione");
    reveal_strlit("Immunità all'Esilio");
    reveal_strlit("Immunità alla Magia");
    reveal_strlit("Immunità alle acque del Fiume Stige");
    reveal_strlit("Incalare Energia da Fonti Non Mitiche");
    reveal_strlit("Incantesimi di Ammaliamento e di Illusione");
    reveal_strlit("Incantesimi di Energia");
    reveal_strlit("Individuazione dei Pensieri");
    reveal_strlit("Individuazione dell'Allineamento");
    reveal_strlit("Infermità");
    reveal_strlit("Infermo");
    reveal_strlit("Invecchiamento");
    reveal_strlit("Lentezza");
    reveal_strlit("Livelli Negativi");
    reveal_strlit("Magia");
    reveal_strlit("Malattia");
    reveal_strlit("Malattie");
    reveal_strlit("Maledizioni");
    reveal_strlit("Metamorfosi");
    reveal_strlit("Nausea");
    reveal_strlit("Nauseato");
    reveal_strlit("Non Deformante");
    reveal_strlit("Padronanza delle Rune");
    reveal_strlit("Paralisi");
    reveal_strlit("Paura");
    reveal_strlit("Pietrificazione");
    reveal_strlit("Richiamo");
    reveal_strlit("Risucchi di Energia");
    reveal_strlit("Risucchio di Caratteristiche");
    reveal_strlit("Risucchio di Energia");
    reveal_strlit("Rivela Bugie");
    reveal_strlit("Sanguinamento");
    reveal_strlit("Sanguinamento (solo Punti Ferita)");
    reveal_strlit("Scosso");
    reveal_strlit("Sguardo");
    reveal_strlit("Sonno");
    reveal_strlit("Sonoro");
    reveal_strlit("Sordità");
    reveal_strlit("Spaventato");
    reveal_strlit("Spostamento Planare");
    reveal_strlit("Stordimento");
    reveal_strlit("Tratti degli Elementali");
    reveal_strlit("Tratti degli Sciami");
    reveal_strlit("Tratti dei Costrutti");
    reveal_strlit("Tratti dei Draghi");
    reveal_strlit("Tratti dei Non Morti");
    reveal_strlit("Tratti dei Vegetali");
    reveal_strlit("Tratti delle Melme");
    reveal_strlit("Veleni");
    reveal_strlit("Veleno");
    reveal_strlit("Veleno Ingerito");
    reveal_strlit("acido");
    reveal_strlit("acque del Fiume Stige");
    reveal_strlit("attacchi basati sulla vista ed effetti visivi");
    reveal_strlit("attacchi con Sguardo");
    reveal_strlit("attacchi con lo Sguardo");
    reveal_strlit("attacchi con lo sguardo");
    reveal_strlit("charme");
    reveal_strlit("charme sui mostri");
    reveal_strlit("compulsione");
    reveal_strlit("controllo mentale");
    reveal_strlit("contundente");
    reveal_strlit("da caduta e da schiacciamento");
    reveal_strlit("danni alle Caratteristiche");
    reveal_strlit("danni alle caratteristiche");
    reveal_strlit("danni contundenti");
    reveal_strlit("danni contundenti e perforanti");
    reveal_strlit("danni da arma");
    reveal_strlit("danni da armi");
    reveal_strlit("danni da precisione");
    reveal_strlit("danni delle armi");
    reveal_strlit("danni di precisione");
    reveal_strlit("danni e risucchi di Caratteristiche");
    reveal_strlit("danni perforanti");
    reveal_strlit("danni taglienti");
    reveal_strlit("danni taglienti e perforanti");
    reveal_strlit("danno da arma");
    reveal_strlit("danno di precisione");
    reveal_strlit("di influenza mentale e basati sullo Sguardo");
    reveal_strlit("divinazione");
    reveal_strlit("dolore");
    reveal_strlit("effetti Barcollanti");
    reveal_strlit("effetti basati sulla vista");
    reveal_strlit("effetti che bersagliano uno specifico numero di creature");
    reveal_strlit("effetti di Charme e Compulsione");
    reveal_strlit("effetti di Metamorfosi");
    reveal_strlit("effetti di Paura");
    reveal_strlit("effetti di Paura ed influenza mentale");
    reveal_strlit("effetti di Sguardo");
    reveal_strlit("effetti di Sonno");
    reveal_strlit("effetti di ammaliamento");
    reveal_strlit("effetti di charme");
    reveal_strlit("effetti di charme e compulsione");
    reveal_strlit("effetti di charme e compulsioni");
    reveal_strlit("effetti di compulsione");
    reveal_strlit("effetti di confusione e demenza");
    reveal_strlit("effetti di demenza");
    reveal_strlit("effetti di influenza mentale");
    reveal_strlit("effetti di influenza mentale e visivi");
    reveal_strlit("effetti di luce");
    reveal_strlit("effetti di maledizione");
    reveal_strlit("effetti di maledizioni");
    reveal_strlit("effetti di metamorfosi");
    reveal_strlit("effetti di morte");
    reveal_strlit("effetti di necromanzia");
    reveal_strlit("effetti di paura");
    reveal_strlit("effetti di sguardo");
    reveal_strlit("effetti di sonno");
    reveal_strlit("effetti e illusioni visive");
    reveal_strlit("effetti polimorfi");
    reveal_strlit("effetti sensoriali");
    reveal_strlit("effetti visivi");
    reveal_strlit("effetti visivi e illusioni");
    reveal_strlit("elettricità");
    reveal_strlit("emozioni");
    reveal_strlit("energia negativa");
    reveal_strlit("ferite permanenti");
    reveal_strlit("forza");
    reveal_strlit("freddo");
    reveal_strlit("fulmine");
    reveal_strlit("fuoco");
    reveal_strlit("illusioni");
    reveal_strlit("illusioni visive");
    reveal_strlit("immunità alle acque del Fiume Stige");
    reveal_strlit("invecchiamento");
    reveal_strlit("livelli negativi");
    reveal_strlit("malattia");
    reveal_strlit("malattie");
    reveal_strlit("maledizioni");
    reveal_strlit("metamorfosi");
    reveal_strlit("nausea");
    reveal_strlit("palla di fuoco");
    reveal_strlit("paralisi");
    reveal_strlit("paura");
    reveal_strlit("pietrificazione");
    reveal_strlit("possessione");
    reveal_strlit("risucchi di caratteristiche");
    reveal_strlit("risucchi di energia");
    reveal_strlit("risucchio di caratteristica");
    reveal_strlit("risucchio di caratteristiche");
    reveal_strlit("risucchio di energia");
    reveal_strlit("ruggine");
    reveal_strlit("sanguinamento");
    reveal_strlit("scacciare");
    reveal_strlit("sonno");
    reveal_strlit("sonoro");
    reveal_strlit("sordità");
    reveal_strlit("stordimento");
    reveal_strlit("tratti dei Draghi");
    reveal_strlit("veleni");
    reveal_strlit("veleno");
    reveal_strlit("visivi ed illusori");
    assert("Abbagliamenti"@.len() == 13);
    assert("Abbagliamento"@.len() == 13);
    assert("Abbagliato"@.len() == 10);
    assert("Accecato"@.len() == 8);
    assert("Acido"@.len() == 5);
    assert("Affaticamento"@.len() == 13);
    assert("Affaticato"@.len() == 10);
    assert("Ammaliamento"@.len() == 12);
    assert("Ancora Dimensionale"@.len() == 19);
    assert("Armi Taglienti"@.len() == 14);
    assert("Armi contundenti"@.len() == 16);
    assert("Assorbimento del Fuoco"@.len() == 22);
    assert("Attacchi Furtivi"@.len() == 16);
    assert("Attacchi ai Fianchi"@.len() == 19);
    assert("Attacchi basati sull'olfatto"@.len() == 28);
    assert("Attacchi basati sulla vista"@.len() == 27);
    assert("Attacchi basati sulla vista o sguardo"@.len() == 37);
    assert("Attacchi con Sguardo"@.len() == 20);
    assert("Attacchi con lo sguardo"@.len() == 23);
    assert("Attacchi dipendenti dalla vista"@.len() == 31);
    assert("Barcollante"@.len() == 11);
    assert("Barcollare"@.len() == 10);
    assert("Calmare Emozioni"@.len() == 16);
    assert("Cecità"@.len() == 6);
    assert("Charme"@.len() == 6);
    assert("Colpi Critici"@.len() == 13);
    assert("Colpi critici"@.len() == 13);
    assert("Condizione Affaticato"@.len() == 21);
    assert("Condizione Esausto"@.len() == 18);
    assert("Confusione"@.len() == 10);
    assert("Congedo"@.len() == 7);
    assert("Controllo Magico"@.len() == 16);
    assert("Convocazione"@.len() == 12);
    assert("Danni Non Letali"@.len() == 16);
    assert("Danni alle caratteristiche"@.len() == 26);
    assert("Danni contundenti"@.len() == 17);
    assert("Danni da arma"@.len() == 13);
    assert("Danni da armi"@.len() == 13);
    assert("Danni dalle Armi"@.len() == 16);
    assert("Danni e risucchi alle caratteristiche"@.len() == 37);
    assert("Danni e risucchi di caratteristiche"@.len() == 35);
    assert("Danni e risucchio alle Caratteristiche"@.len() == 38);
    assert("Danni e risucchio di caratteristiche"@.len() == 36);
    assert("Danni perforanti e taglienti"@.len() == 28);
    assert("Danno alle Caratteristiche"@.len() == 26);
    assert("Danno da Pressione"@.len() == 18);
    assert("Danno da arma"@.len() == 13);
    assert("Danno e risucchio alle caratteristiche"@.len() == 38);
    assert("Danno non letale"@.len() == 16);
    assert("Dardo Incantato"@.len() == 15);
    assert("Demenza"@.len() == 7);
    assert("Divinazione"@.len() == 11);
    assert("Dolore"@.len() == 6);
    assert("Effetti a completamento di incantesimo e ad attivazione di incantesimo"@.len() == 70);
    assert("Effetti basati sulla vista"@.len() == 26);
    assert("Effetti d'influenza mentale"@.len() == 27);
    assert("Effetti di Charme e Compulsione"@.len() == 31);
    assert("Effetti di Demenza"@.len() == 18);
    assert("Effetti di Influenza Mentale"@.len() == 28);
    assert("Effetti di Morte"@.len() == 16);
    assert("Effetti di Paura"@.len() == 16);
    assert("Effetti di Sonno"@.len() == 16);
    assert("Effetti di charme"@.len() == 17);
    assert("Effetti di charme e compulsioni"@.len() == 31);
    assert("Effetti di confusione e follia"@.len() == 30);
    assert("Effetti di dolore"@.len() == 17);
    assert("Effetti di forza"@.len() == 16);
    assert("Effetti di influenza mentale"@.len() == 28);
    assert("Effetti di morte"@.len() == 16);
    assert("Effetti di morte (vedi sotto)"@.len() == 29);
    assert("Effetti di paura"@.len() == 16);
    assert("Effetti di sonno"@.len() == 16);
    assert("Effetti visivi"@.len() == 14);
    assert("Elettricità"@.len() == 11);
    assert("Elettricità (parziale)"@.len() == 22);
    assert("Energia Negativa"@.len() == 16);
    assert("Energia Positiva"@.len() == 16);
    assert("Esaurimento"@.len() == 11);
    assert("Esausto"@.len() == 7);
    assert("Fatica"@.len() == 6);
    assert("Fiancheggiamento"@.len() == 16);
    assert("Forza"@.len() == 5);
    assert("Frastornamento"@.len() == 14);
    assert("Frastornato"@.len() == 11);
    assert("Freddo"@.len() == 6);
    assert("Freddo (sé stesso e chi lo cavalca)"@.len() == 35);
    assert("Fuoco"@.len() == 5);
    assert("Fuoco Infernale"@.len() == 15);
    assert("Illusione"@.len() == 9);
    assert("Illusioni e qualsiasi attacco basato sulla vista"@.len() == 48);
    assert("Immunità agli Incantesimi"@.len() == 25);
    assert("Immunità al Freddo"@.len() == 18);
    assert("Immunità all'Annichilazione"@.len() == 27);
    assert("Immunità all'Esilio"@.len() == 19);
    assert("Immunità alla Magia"@.len() == 19);
    assert("Immunità alle acque del Fiume Stige"@.len() == 35);
    assert("Incalare Energia da Fonti Non Mitiche"@.len() == 37);
    assert("Incantesimi di Ammaliamento e di Illusione"@.len() == 42);
    assert("Incantesimi di Energia"@.len() == 22);
    assert("Individuazione dei Pensieri"@.len() == 27);
    assert("Individuazione dell'Allineamento"@.len() == 32);
    assert("Infermità"@.len() == 9);
    assert("Infermo"@.len() == 7);
    assert("Invecchiamento"@.len() == 14);
    assert("Lentezza"@.len() == 8);
    assert("Livelli Negativi"@.len() == 16);
    assert("Magia"@.len() == 5);
    assert("Malattia"@.len() == 8);
    assert("Malattie"@.len() == 8);
    assert("Maledizioni"@.len() == 11);
    assert("Metamorfosi"@.len() == 11);
    assert("Nausea"@.len() == 6);
    assert("Nauseato"@.len() == 8);
    assert("Non Deformante"@.len() == 14);
    assert("Padronanza delle Rune"@.len() == 21);
    assert("Paralisi"@.len() == 8);
    assert("Paura"@.len() == 5);
    assert("Pietrificazione"@.len() == 15);
    assert("Richiamo"@.len() == 8);
    assert("Risucchi di Energia"@.len() == 19);
    assert("Risucchio di Caratteristiche"@.len() == 28);
    assert("Risucchio di Energia"@.len() == 20);
    assert("Rivela Bugie"@.len() == 12);
    assert("Sanguinamento"@.len() == 13);
    assert("Sanguinamento (solo Punti Ferita)"@.len() == 33);
    assert("Scosso"@.len() == 6);
    assert("Sguardo"@.len() == 7);
    assert("Sonno"@.len() == 5);
    assert("Sonoro"@.len() == 6);
    assert("Sordità"@.len() == 7);
    assert("Spaventato"@.len() == 10);
    assert("Spostamento Planare"@.len() == 19);
    assert("Stordimento"@.len() == 11);
    assert("Tratti degli Elementali"@.len() == 23);
    assert("Tratti degli Sciami"@.len() == 19);
    assert("Tratti dei Costrutti"@.len() == 20);
    assert("Tratti dei Draghi"@.len() == 17);
    assert("Tratti dei Non Morti"@.len() == 20);
    assert("Tratti dei Vegetali"@.len() == 19);
    assert("Tratti delle Melme"@.len() == 18);
    assert("Veleni"@.len() == 6);
    assert("Veleno"@.len() == 6);
    assert("Veleno Ingerito"@.len() == 15);
    assert("acido"@.len() == 5);
    assert("acque del Fiume Stige"@.len() == 21);
    assert("attacchi basati sulla vista ed effetti visivi"@.len() == 45);
    assert("attacchi con Sguardo"@.len() == 20);
    assert("attacchi con lo Sguardo"@.len() == 23);
    assert("attacchi con lo sguardo"@.len() == 23);
    assert("charme"@.len() == 6);
    assert("charme sui mostri"@.len() == 17);
    assert("compulsione"@.len() == 11);
    assert("controllo mentale"@.len() == 17);
    assert("contundente"@.len() == 11);
    assert("da caduta e da schiacciamento"@.len() == 29);
    assert("danni alle Caratteristiche"@.len() == 26);
    assert("danni alle caratteristiche"@.len() == 26);
    assert("danni contundenti"@.len() == 17);
    assert("danni contundenti e perforanti"@.len() == 30);
    assert("danni da arma"@.len() == 13);
    assert("danni da armi"@.len() == 13);
    assert("danni da precisione"@.len() == 19);
    assert("danni delle armi"@.len() == 16);
    assert("danni di precisione"@.len() == 19);
    assert("danni e risucchi di Caratteristiche"@.len() == 35);
    assert("danni perforanti"@.len() == 16);
    assert("danni taglienti"@.len() == 15);
    assert("danni taglienti e perforanti"@.len() == 28);
    assert("danno da arma"@.len() == 13);
    assert("danno di precisione"@.len() == 19);
    assert("di influenza mentale e basati sullo Sguardo"@.len() == 43);
    assert("divinazione"@.len() == 11);
    assert("dolore"@.len() == 6);
    assert("effetti Barcollanti"@.len() == 19);
    assert("effetti basati sulla vista"@.len() == 26);
    assert("effetti che bersagliano uno specifico numero di creature"@.len() == 56);
    assert("effetti di Charme e Compulsione"@.len() == 31);
    assert("effetti di Metamorfosi"@.len() == 22);
    assert("effetti di Paura"@.len() == 16);
    assert("effetti di Paura ed influenza mentale"@.len() == 37);
    assert("effetti di Sguardo"@.len() == 18);
    assert("effetti di Sonno"@.len() == 16);
    assert("effetti di ammaliamento"@.len() == 23);
    assert("effetti di charme"@.len() == 17);
    assert("effetti di charme e compulsione"@.len() == 31);
    assert("effetti di charme e compulsioni"@.len() == 31);
    assert("effetti di compulsione"@.len() == 22);
    assert("effetti di confusione e demenza"@.len() == 31);
    assert("effetti di demenza"@.len() == 18);
    assert("effetti di influenza mentale"@.len() == 28);
    assert("effetti di influenza mentale e visivi"@.len() == 37);
    assert("effetti di luce"@.len() == 15);
    assert("effetti di maledizione"@.len() == 22);
    assert("effetti di maledizioni"@.len() == 22);
    assert("effetti di metamorfosi"@.len() == 22);
    assert("effetti di morte"@.len() == 16);
    assert("effetti di necromanzia"@.len() == 22);
    assert("effetti di paura"@.len() == 16);
    assert("effetti di sguardo"@.len() == 18);
    assert("effetti di sonno"@.len() == 16);
    assert("effetti e illusioni visive"@.len() == 26);
    assert("effetti polimorfi"@.len() == 17);
    assert("effetti sensoriali"@.len() == 18);
    assert("effetti visivi"@.len() == 14);
    assert("effetti visivi e illusioni"@.len() == 26);
    assert("elettricità"@.len() == 11);
    assert("emozioni"@.len() == 8);
    assert("energia negativa"@.len() == 16);
    assert("ferite permanenti"@.len() == 17);
    assert("forza"@.len() == 5);
    assert("freddo"@.len() == 6);
    assert("fulmine"@.len() == 7);
    assert("fuoco"@.len() == 5);
    assert("illusioni"@.len() == 9);
    assert("illusioni visive"@.len() == 16);
    assert("immunità alle acque del Fiume Stige"@.len() == 35);
    assert("invecchiamento"@.len() == 14);
    assert("livelli negativi"@.len() == 16);
    assert("malattia"@.len() == 8);
    assert("malattie"@.len() == 8);
    assert("maledizioni"@.len() == 11);
    assert("metamorfosi"@.len() == 11);
    assert("nausea"@.len() == 6);
    assert("palla di fuoco"@.len() == 14);
    assert("paralisi"@.len() == 8);
    assert("paura"@.len() == 5);
    assert("pietrificazione"@.len() == 15);
    assert("possessione"@.len() == 11);
    assert("risucchi di caratteristiche"@.len() == 27);
    assert("risucchi di energia"@.len() == 19);
    assert("risucchio di caratteristica"@.len() == 27);
    assert("risucchio di caratteristiche"@.len() == 28);
    assert("risucchio di energia"@.len() == 20);
    assert("ruggine"@.len() == 7);
    assert("sanguinamento"@.len() == 13);
    assert("scacciare"@.len() == 9);
    assert("sonno"@.len() == 5);
    assert("sonoro"@.len() == 6);
    assert("sordità"@.len() == 7);
    assert("stordimento"@.len() == 11);
    assert("tratti dei Draghi"@.len() == 17);
    assert("veleni"@.len() == 6);
    assert("veleno"@.len() == 6);
    assert("visivi ed illusori"@.len() == 18);
    assert("Incalare Energia da Fonti Non Mitiche"@[0] != "Attacchi basati sulla vista o sguardo"@[0]);
    assert("Incalare Energia da Fonti Non Mitiche"@ != "Attacchi basati sulla vista o sguardo"@);
    assert("Incalare Energia da Fonti Non Mitiche"@[0] != "effetti di Paura ed influenza mentale"@[0]);
    assert("Incalare Energia da Fonti Non Mitiche"@ != "effetti di Paura ed influenza mentale"@);
    assert("Incalare Energia da Fonti Non Mitiche"@[0] != "effetti di influenza mentale e visivi"@[0]);
    assert("Incalare Energia da Fonti Non Mitiche"@ != "effetti di influenza mentale e visivi"@);
    assert("Incalare Energia da Fonti Non Mitiche"@[0] != "Danni e risucchi alle caratteristiche"@[0]);
    assert("Incalare Energia da Fonti Non Mitiche"@ != "Danni e risucchi alle caratteristiche"@);
}

proof fn lemma_read_immunity_labyrinth(s: Seq<char>)
    requires
        immunity_named(Immunity_Type::Immunity_Labyrinth, s),
    ensures
        spec_single_immunity(s) == Some(Immunity_Type::Immunity_Labyrinth),
{
    reveal_strlit("Abbagliamenti");
    reveal_strlit("Abbagliamento");
    reveal_strlit("Abbagliato");
    reveal_strlit("Accecato");
    reveal_strlit("Acido");
    reveal_strlit("Affaticamento");
    reveal_strlit("Affaticato");
    reveal_strlit("Ammaliamento");
    reveal_strlit("Ancora Dimensionale");
    reveal_strlit("Armi Taglienti");
    reveal_strlit("Armi contundenti");
    reveal_strlit("Assorbimento del Fuoco");
    reveal_strlit("Attacchi Furtivi");
    reveal_strlit("Attacchi ai Fianchi");
    reveal_strlit("Attacchi basati sull'olfatto");
    reveal_strlit("Attacchi basati sulla vista");
    reveal_strlit("Attacchi basati sulla vista o sguardo");
    reveal_strlit("Attacchi con Sguardo");
    reveal_strlit("Attacchi con lo sguardo");
    reveal_strlit("Attacchi dipendenti dalla vista");
    reveal_strlit("Barcollante");
    reveal_strlit("Barcollare");
    reveal_strlit("Calmare Emozioni");
    reveal_strlit("Cecità");
    reveal_strlit("Charme");
    reveal_strlit("Colpi Critici");
    reveal_strlit("Colpi critici");
    reveal_strlit("Condizione Affaticato");
    reveal_strlit("Condizione Esausto");
    reveal_strlit("Confusione");
    reveal_strlit("Congedo");
    reveal_strlit("Controllo Magico");
    reveal_strlit("Convocazione");
    reveal_strlit("Danni Non Letali");
    reveal_strlit("Danni alle caratteristiche");
    reveal_strlit("Danni contundenti");
    reveal_strlit("Danni da arma");
    reveal_strlit("Danni da armi");
    reveal_strlit("Danni dalle Armi");
    reveal_strlit("Danni e risucchi alle caratteristiche");
    reveal_strlit("Danni e risucchi di caratteristiche");
    reveal_strlit("Danni e risucchio alle Caratteristiche");
    reveal_strlit("Danni e risucchio di caratteristiche");
    reveal_strlit("Danni perforanti e taglienti");
    reveal_strlit("Danno alle Caratteristiche");
    reveal_strlit("Danno da Pressione");
    reveal_strlit("Danno da arma");
    reveal_strlit("Danno e risucchio alle caratteristiche");
    reveal_strlit("Danno non letale");
    reveal_strlit("Dardo Incantato");
    reveal_strlit("Demenza");
    reveal_strlit("Divinazione");
    reveal_strlit("Dolore");
    reveal_strlit("Effetti a completamento di incantesimo e ad attivazione di incantesimo");
    reveal_strlit("Effetti basati sulla vista");
    reveal_strlit("Effetti d'influenza mentale");
    reveal_strlit("Effetti di Charme e Compulsione");
    reveal_strlit("Effetti di Demenza");
    reveal_strlit("Effetti di Influenza Mentale");
    reveal_strlit("Effetti di Morte");
    reveal_strlit("Effetti di Paura");
    reveal_strlit("Effetti di Sonno");
    reveal_strlit("Effetti di charme");
    reveal_strlit("Effetti di charme e compulsioni");
    reveal_strlit("Effetti di confusione e follia");
    reveal_strlit("Effetti di dolore");
    reveal_strlit("Effetti di forza");
    reveal_strlit("Effetti di influenza mentale");
    reveal_strlit("Effetti di morte");
    reveal_strlit("Effetti di morte (vedi sotto)");
    reveal_strlit("Effetti di paura");
    reveal_strlit("Effetti di sonno");
    reveal_strlit("Effetti visivi");
    reveal_strlit("Elettricità");
    reveal_strlit("Elettricità (parziale)");
    reveal_strlit("Energia Negativa");
    reveal_strlit("Energia Positiva");
    reveal_strlit("Esaurimento");
    reveal_strlit("Esausto");
    reveal_strlit("Fatica");
    reveal_strlit("Fiancheggiamento");
    reveal_strlit("Forza");
    reveal_strlit("Frastornamento");
    reveal_strlit("Frastornato");
    reveal_strlit("Freddo");
    reveal_strlit("Freddo (sé stesso e chi lo cavalca)");
    reveal_strlit("Fuoco");
    reveal_strlit("Fuoco Infernale");
    reveal_strlit("Illusione");
    reveal_strlit("Illusioni e qualsiasi attacco basato sulla vista");
    reveal_strlit("Immunità agli Incantesimi");
    reveal_strlit("Immunità al Freddo");
    reveal_strlit("Immunità all'Annichilazione");
    reveal_strlit("Immunità all'Esilio");
    reveal_strlit("Immunità alla Magia");
    reveal_strlit("Immunità alle acque del Fiume Stige");
    reveal_strlit("Incalare Energia da Fonti Non Mitiche");
    reveal_strlit("Incantesimi di Ammaliamento e di Illusione");
    reveal_strlit("Incantesimi di Energia");
    reveal_strlit("Individuazione dei Pensieri");
    reveal_strlit("Individuazione dell'Allineamento");
    reveal_strlit("Infermità");
    reveal_strlit("Infermo");
    reveal_strlit("Invecchiamento");
    reveal_strlit("Labirinto");
    reveal_strlit("Lentezza");
    reveal_strlit("Livelli Negativi");
    reveal_strlit("Magia");
    reveal_strlit("Malattia");
    reveal_strlit("Malattie");
    reveal_strlit("Maledizioni");
    reveal_strlit("Metamorfosi");
    reveal_strlit("Nausea");
    reveal_strlit("Nauseato");
    reveal_strlit("Non Deformante");
    reveal_strlit("Padronanza delle Rune");
    reveal_strlit("Paralisi");
    reveal_strlit("Paura");
    reveal_strlit("Pietrificazione");
    reveal_strlit("Richiamo");
    reveal_strlit("Risucchi di Energia");
    reveal_strlit("Risucchio di Caratteristiche");
    reveal_strlit("Risucchio di Energia");
    reveal_strlit("Rivela Bugie");
    reveal_strlit("Sanguinamento");
    reveal_strlit("Sanguinamento (solo Punti Ferita)");
    reveal_strlit("Scosso");
    reveal_strlit("Sguardo");
    reveal_strlit("Sonno");
    reveal_strlit("Sonoro");
    reveal_strlit("Sordità");
    reveal_strlit("Spaventato");
    reveal_strlit("Spostamento Planare");
    reveal_strlit("Stordimento");
    reveal_strlit("Tratti degli Elementali");
    reveal_strlit("Tratti degli Sciami");
    reveal_strlit("Tratti dei Costrutti");
    reveal_strlit("Tratti dei Draghi");
    reveal_strlit("Tratti dei Non Morti");
    reveal_strlit("Tratti dei Vegetali");
    reveal_strlit("Tratti delle Melme");
    reveal_strlit("Veleni");
    reveal_strlit("Veleno");
    reveal_strlit("Veleno Ingerito");
    reveal_strlit("acido");
    reveal_strlit("acque del Fiume Stige");
    reveal_strlit("attacchi basati sulla vista ed effetti visivi");
    reveal_strlit("attacchi con Sguardo");
    reveal_strlit("attacchi con lo Sguardo");
    reveal_strlit("attacchi con lo sguardo");
    reveal_strlit("charme");
    reveal_strlit("charme sui mostri");
    reveal_strlit("compulsione");
    reveal_strlit("controllo mentale");
    reveal_strlit("contundente");
    reveal_strlit("da caduta e da schiacciamento");
    reveal_strlit("danni alle Caratteristiche");
    reveal_strlit("danni alle caratteristiche");
    reveal_strlit("danni contundenti");
    reveal_strlit("danni contundenti e perforanti");
    reveal_strlit("danni da arma");
    reveal_strlit("danni da armi");
    reveal_strlit("danni da precisione");
    reveal_strlit("danni delle armi");
    reveal_strlit("danni di precisione");
    reveal_strlit("danni e risucchi di Caratteristiche");
    reveal_strlit("danni perforanti");
    reveal_strlit("danni taglienti");
    reveal_strlit("danni taglienti e perforanti");
    reveal_strlit("danno da arma");
    reveal_strlit("danno di precisione");
    reveal_strlit("di influenza mentale e basati sullo Sguardo");
    reveal_strlit("divinazione");
    reveal_strlit("dolore");
    reveal_strlit("effetti Barcollanti");
    reveal_strlit("effetti basati sulla vista");
    reveal_strlit("effetti che bersagliano uno specifico numero di creature");
    reveal_strlit("effetti di Charme e Compulsione");
    reveal_strlit("effetti di Metamorfosi");
    reveal_strlit("effetti di Paura");
    reveal_strlit("effetti di Paura ed influenza mentale");
    reveal_strlit("effetti di Sguardo");
    reveal_strlit("effetti di Sonno");
    reveal_strlit("effetti di ammaliamento");
    reveal_strlit("effetti di charme");
    reveal_strlit("effetti di charme e compulsione");
    reveal_strlit("effetti di charme e compulsioni");
    reveal_strlit("effetti di compulsione");
    reveal_strlit("effetti di confusione e demenza");
    reveal_strlit("effetti di demenza");
    reveal_strlit("effetti di influenza mentale");
    reveal_strlit("effetti di influenza mentale e visivi");
    reveal_strlit("effetti di luce");
    reveal_strlit("effetti di maledizione");
    reveal_strlit("effetti di maledizioni");
    reveal_strlit("effetti di metamorfosi");
    reveal_strlit("effetti di morte");
    reveal_strlit("effetti di necromanzia");
    reveal_strlit("effetti di paura");
    reveal_strlit("effetti di sguardo");
    reveal_strlit("effetti di sonno");
    reveal_strlit("effetti e illusioni visive");
    reveal_strlit("effetti polimorfi");
    reveal_strlit("effetti sensoriali");
    reveal_strlit("effetti visivi");
    reveal_strlit("effetti visivi e illusioni");
    reveal_strlit("elettricità");
    reveal_strlit("emozioni");
    reveal_strlit("energia negativa");
    reveal_strlit("ferite permanenti");
    reveal_strlit("forza");
    reveal_strlit("freddo");
    reveal_strlit("fulmine");
    reveal_strlit("fuoco");
    reveal_strlit("illusioni");
    reveal_strlit("illusioni visive");
    reveal_strlit("immunità alle acque del Fiume Stige");
    reveal_strlit("invecchiamento");
    reveal_strlit("livelli negativi");
    reveal_strlit("malattia");
    reveal_strlit("malattie");
    reveal_strlit("maledizioni");
    reveal_strlit("metamorfosi");
    reveal_strlit("nausea");
    reveal_strlit("palla di fuoco");
    reveal_strlit("paralisi");
    reveal_strlit("paura");
    reveal_strlit("pietrificazione");
    reveal_strlit("possessione");
    reveal_strlit("risucchi di caratteristiche");
    reveal_strlit("risucchi di energia");
    reveal_strlit("risucchio di caratteristica");
    reveal_strlit("risucchio di caratteristiche");
    reveal_strlit("risucchio di energia");
    reveal_strlit("ruggine");
    reveal_strlit("sanguinamento");
    reveal_strlit("scacciare");
    reveal_strlit("sonno");
    reveal_strlit("sonoro");
    reveal_strlit("sordità");
    reveal_strlit("stordimento");
    reveal_strlit("tratti dei Draghi");
    reveal_strlit("veleni");
    reveal_strlit("veleno");
    reveal_strlit("visivi ed illusori");
    assert("Abbagliamenti"@.len() == 13);
    assert("Abbagliamento"@.len() == 13);
    assert("Abbagliato"@.len() == 10);
    assert("Accecato"@.len() == 8);
    assert("Acido"@.len() == 5);
    assert("Affaticamento"@.len() == 13);
    assert("Affaticato"@.len() == 10);
    assert("Ammaliamento"@.len() == 12);
    assert("Ancora Dimensionale"@.len() == 19);
    assert("Armi Taglienti"@.len() == 14);
    assert("Armi contundenti"@.len() == 16);
    assert("Assorbimento del Fuoco"@.len() == 22);
    assert("Attacchi Furtivi"@.len() == 16);
    assert("Attacchi ai Fianchi"@.len() == 19);
    assert("Attacchi basati sull'olfatto"@.len() == 28);
    assert("Attacchi basati sulla vista"@.len() == 27);
    assert("Attacchi basati sulla vista o sguardo"@.len() == 37);
    assert("Attacchi con Sguardo"@.len() == 20);
    assert("Attacchi con lo sguardo"@.len() == 23);
    assert("Attacchi dipendenti dalla vista"@.len() == 31);
    assert("Barcollante"@.len() == 11);
    assert("Barcollare"@.len() == 10);
    assert("Calmare Emozioni"@.len() == 16);
    assert("Cecità"@.len() == 6);
    assert("Charme"@.len() == 6);
    assert("Colpi Critici"@.len() == 13);
    assert("Colpi critici"@.len() == 13);
    assert("Condizione Affaticato"@.len() == 21);
    assert("Condizione Esausto"@.len() == 18);
    assert("Confusione"@.len() == 10);
    assert("Congedo"@.len() == 7);
    assert("Controllo Magico"@.len() == 16);
    assert("Convocazione"@.len() == 12);
    assert("Danni Non Letali"@.len() == 16);
    assert("Danni alle caratteristiche"@.len() == 26);
    assert("Danni contundenti"@.len() == 17);
    assert("Danni da arma"@.len() == 13);
    assert("Danni da armi"@.len() == 13);
    assert("Danni dalle Armi"@.len() == 16);
    assert("Danni e risucchi alle caratteristiche"@.len() == 37);
    assert("Danni e risucchi di caratteristiche"@.len() == 35);
    assert("Danni e risucchio alle Caratteristiche"@.len() == 38);
    assert("Danni e risucchio di caratteristiche"@.len() == 36);
    assert("Danni perforanti e taglienti"@.len() == 28);
    assert("Danno alle Caratteristiche"@.len() == 26);
    assert("Danno da Pressione"@.len() == 18);
    assert("Danno da arma"@.len() == 13);
    assert("Danno e risucchio alle caratteristiche"@.len() == 38);
    assert("Danno non letale"@.len() == 16);
    assert("Dardo Incantato"@.len() == 15);
    assert("Demenza"@.len() == 7);
    assert("Divinazione"@.len() == 11);
    assert("Dolore"@.len() == 6);
    assert("Effetti a completamento di incantesimo e ad attivazione di incantesimo"@.len() == 70);
    assert("Effetti basati sulla vista"@.len() == 26);
    assert("Effetti d'influenza mentale"@.len() == 27);
    assert("Effetti di Charme e Compulsione"@.len() == 31);
    assert("Effetti di Demenza"@.len() == 18);
    assert("Effetti di Influenza Mentale"@.len() == 28);
    assert("Effetti di Morte"@.len() == 16);
    assert("Effetti di Paura"@.len() == 16);
    assert("Effetti di Sonno"@.len() == 16);
    assert("Effetti di charme"@.len() == 17);
    assert("Effetti di charme e compulsioni"@.len() == 31);
    assert("Effetti di confusione e follia"@.len() == 30);
    assert("Effetti di dolore"@.len() == 17);
    assert("Effetti di forza"@.len() == 16);
    assert("Effetti di influenza mentale"@.len() == 28);
    assert("Effetti di morte"@.len() == 16);
    assert("Effetti di morte (vedi sotto)"@.len() == 29);
    assert("Effetti di paura"@.len() == 16);
    assert("Effetti di sonno"@.len() == 16);
    assert("Effetti visivi"@.len() == 14);
    assert("Elettricità"@.len() == 11);
    assert("Elettricità (parziale)"@.len() == 22);
    assert("Energia Negativa"@.len() == 16);
    assert("Energia Positiva"@.len() == 16);
    assert("Esaurimento"@.len() == 11);
    assert("Esausto"@.len() == 7);
    assert("Fatica"@.len() == 6);
    assert("Fiancheggiamento"@.len() == 16);
    assert("Forza"@.len() == 5);
    assert("Frastornamento"@.len() == 14);
    assert("Frastornato"@.len() == 11);
    assert("Freddo"@.len() == 6);
    assert("Freddo (sé stesso e chi lo cavalca)"@.len() == 35);
    assert("Fuoco"@.len() == 5);
    assert("Fuoco Infernale"@.len() == 15);
    assert("Illusione"@.len() == 9);
    assert("Illusioni e qualsiasi attacco basato sulla vista"@.len() == 48);
    assert("Immunità agli Incantesimi"@.len() == 25);
    assert("Immunità al Freddo"@.len() == 18);
    assert("Immunità all'Annichilazione"@.len() == 27);
    assert("Immunità all'Esilio"@.len() == 19);
    assert("Immunità alla Magia"@.len() == 19);
    assert("Immunità alle acque del Fiume Stige"@.len() == 35);
    assert("Incalare Energia da Fonti Non Mitiche"@.len() == 37);
    assert("Incantesimi di Ammaliamento e di Illusione"@.len() == 42);
    assert("Incantesimi di Energia"@.len() == 22);
    assert("Individuazione dei Pensieri"@.len() == 27);
    assert("Individuazione dell'Allineamento"@.len() == 32);
    assert("Infermità"@.len() == 9);
    assert("Infermo"@.len() == 7);
    assert("Invecchiamento"@.len() == 14);
    assert("Labirinto"@.len() == 9);
    assert("Lentezza"@.len() == 8);
    assert("Livelli Negativi"@.len() == 16);
    assert("Magia"@.len() == 5);
    assert("Malattia"@.len() == 8);
    assert("Malattie"@.len() == 8);
    assert("Maledizioni"@.len() == 11);
    assert("Metamorfosi"@.len() == 11);
    assert("Nausea"@.len() == 6);
    assert("Nauseato"@.len() == 8);
    assert("Non Deformante"@.len() == 14);
    assert("Padronanza delle Rune"@.len() == 21);
    assert("Paralisi"@.len() == 8);
    assert("Paura"@.len() == 5);
    assert("Pietrificazione"@.len() == 15);
    assert("Richiamo"@.len() == 8);
    assert("Risucchi di Energia"@.len() == 19);
    assert("Risucchio di Caratteristiche"@.len() == 28);
    assert("Risucchio di Energia"@.len() == 20);
    assert("Rivela Bugie"@.len() == 12);
    assert("Sanguinamento"@.len() == 13);
    assert("Sanguinamento (solo Punti Ferita)"@.len() == 33);
    assert("Scosso"@.len() == 6);
    assert("Sguardo"@.len() == 7);
    assert("Sonno"@.len() == 5);
    assert("Sonoro"@.len() == 6);
    assert("Sordità"@.len() == 7);
    assert("Spaventato"@.len() == 10);
    assert("Spostamento Planare"@.len() == 19);
    assert("Stordimento"@.len() == 11);
    assert("Tratti degli Elementali"@.len() == 23);
    assert("Tratti degli Sciami"@.len() == 19);
    assert("Tratti dei Costrutti"@.len() == 20);
    assert("Tratti dei Draghi"@.len() == 17);
    assert("Tratti dei Non Morti"@.len() == 20);
    assert("Tratti dei Vegetali"@.len() == 19);
    assert("Tratti delle Melme"@.len() == 18);
    assert("Veleni"@.len() == 6);
    assert("Veleno"@.len() == 6);
    assert("Veleno Ingerito"@.len() == 15);
    assert("acido"@.len() == 5);
    assert("acque del Fiume Stige"@.len() == 21);
    assert("attacchi basati sulla vista ed effetti visivi"@.len() == 45);
    assert("attacchi con Sguardo"@.len() == 20);
    assert("attacchi con lo Sguardo"@.len() == 23);
    assert("attacchi con lo sguardo"@.len() == 23);
    assert("charme"@.len() == 6);
    assert("charme sui mostri"@.len() == 17);
    assert("compulsione"@.len() == 11);
    assert("controllo mentale"@.len() == 17);
    assert("contundente"@.len() == 11);
    assert("da caduta e da schiacciamento"@.len() == 29);
    assert("danni alle Caratteristiche"@.len() == 26);
    assert("danni alle caratteristiche"@.len() == 26);
    assert("danni contundenti"@.len() == 17);
    assert("danni contundenti e perforanti"@.len() == 30);
    assert("danni da arma"@.len() == 13);
    assert("danni da armi"@.len() == 13);
    assert("danni da precisione"@.len() == 19);
    assert("danni delle armi"@.len() == 16);
    assert("danni di precisione"@.len() == 19);
    assert("danni e risucchi di Caratteristiche"@.len() == 35);
    assert("danni perforanti"@.len() == 16);
    assert("danni taglienti"@.len() == 15);
    assert("danni taglienti e perforanti"@.len() == 28);
    assert("danno da arma"@.len() == 13);
    assert("danno di precisione"@.len() == 19);
    assert("di influenza mentale e basati sullo Sguardo"@.len() == 43);
    assert("divinazione"@.len() == 11);
    assert("dolore"@.len() == 6);
    assert("effetti Barcollanti"@.len() == 19);
    assert("effetti basati sulla vista"@.len() == 26);
    assert("effetti che bersagliano uno specifico numero di creature"@.len() == 56);
    assert("effetti di Charme e Compulsione"@.len() == 31);
    assert("effetti di Metamorfosi"@.len() == 22);
    assert("effetti di Paura"@.len() == 16);
    assert("effetti di Paura ed influenza mentale"@.len() == 37);
    assert("effetti di Sguardo"@.len() == 18);
    assert("effetti di Sonno"@.len() == 16);
    assert("effetti di ammaliamento"@.len() == 23);
    assert("effetti di charme"@.len() == 17);
    assert("effetti di charme e compulsione"@.len() == 31);
    assert("effetti di charme e compulsioni"@.len() == 31);
    assert("effetti di compulsione"@.len() == 22);
    assert("effetti di confusione e demenza"@.len() == 31);
    assert("effetti di demenza"@.len() == 18);
    assert("effetti di influenza mentale"@.len() == 28);
    assert("effetti di influenza mentale e visivi"@.len() == 37);
    assert("effetti di luce"@.len() == 15);
    assert("effetti di maledizione"@.len() == 22);
    assert("effetti di maledizioni"@.len() == 22);
    assert("effetti di metamorfosi"@.len() == 22);
    assert("effetti di morte"@.len() == 16);
    assert("effetti di necromanzia"@.len() == 22);
    assert("effetti di paura"@.len() == 16);
    assert("effetti di sguardo"@.len() == 18);
    assert("effetti di sonno"@.len() == 16);
    assert("effetti e illusioni visive"@.len() == 26);
    assert("effetti polimorfi"@.len() == 17);
    assert("effetti sensoriali"@.len() == 18);
    assert("effetti visivi"@.len() == 14);
    assert("effetti visivi e illusioni"@.len() == 26);
    assert("elettricità"@.len() == 11);
    assert("emozioni"@.len() == 8);
    assert("energia negativa"@.len() == 16);
    assert("ferite permanenti"@.len() == 17);
    assert("forza"@.len() == 5);
    assert("freddo"@.len() == 6);
    assert("fulmine"@.len() == 7);
    assert("fuoco"@.len() == 5);
    assert("illusioni"@.len() == 9);
    assert("illusioni visive"@.len() == 16);
    assert("immunità alle acque del Fiume Stige"@.len() == 35);
    assert("invecchiamento"@.len() == 14);
    assert("livelli negativi"@.len() == 16);
    assert("malattia"@.len() == 8);
    assert("malattie"@.len() == 8);
    assert("maledizioni"@.len() == 11);
    assert("metamorfosi"@.len() == 11);
    assert("nausea"@.len() == 6);
    assert("palla di fuoco"@.len() == 14);
    assert("paralisi"@.len() == 8);
    assert("paura"@.len() == 5);
    assert("pietrificazione"@.len() == 15);
    assert("possessione"@.len() == 11);
    assert("risucchi di caratteristiche"@.len() == 27);
    assert("risucchi di energia"@.len() == 19);
    assert("risucchio di caratteristica"@.len() == 27);
    assert("risucchio di caratteristiche"@.len() == 28);
    assert("risucchio di energia"@.len() == 20);
    assert("ruggine"@.len() == 7);
    assert("sanguinamento"@.len() == 13);
    assert("scacciare"@.len() == 9);
    assert("sonno"@.len() == 5);
    assert("sonoro"@.len() == 6);
    assert("sordità"@.len() == 7);
    assert("stordimento"@.len() == 11);
    assert("tratti dei Draghi"@.len() == 17);
    assert("veleni"@.len() == 6);
    assert("veleno"@.len() == 6);
    assert("visivi ed illusori"@.len() == 18);
    assert("Labirinto"@[0] != "Infermità"@[0]);
    assert("Labirinto"@ != "Infermità"@);
    assert("Labirinto"@[0] != "illusioni"@[0]);
    assert("Labirinto"@ != "illusioni"@);
    assert("Labirinto"@[0] != "Illusione"@[0]);
    assert("Labirinto"@ != "Illusione"@);
    assert("Labirinto"@[0] != "scacciare"@[0]);
    assert("Labirinto"@ != "scacciare"@);
}

proof fn lemma_read_immunity_memoryloss(s: Seq<char>)
    requires
        immunity_named(Immunity_Type::Immunity_MemoryLoss, s),
    ensures
        spec_single_immunity(s) == Some(Immunity_Type::Immunity_MemoryLoss),
{
    reveal_strlit("Abbagliamenti");
    reveal_strlit("Abbagliamento");
    reveal_strlit("Abbagliato");
    reveal_strlit("Accecato");
    reveal_strlit("Acido");
    reveal_strlit("Affaticamento");
    reveal_strlit("Affaticato");
    reveal_strlit("Ammaliamento");
    reveal_strlit("Ancora Dimensionale");
    reveal_strlit("Armi Taglienti");
    reveal_strlit("Armi contundenti");
    reveal_strlit("Assorbimento del Fuoco");
    reveal_strlit("Attacchi Furtivi");
    reveal_strlit("Attacchi ai Fianchi");
    reveal_strlit("Attacchi basati sull'olfatto");
    reveal_strlit("Attacchi basati sulla vista");
    reveal_strlit("Attacchi basati sulla vista o sguardo");
    reveal_strlit("Attacchi con Sguardo");
    reveal_strlit("Attacchi con lo sguardo");
    reveal_strlit("Attacchi dipendenti dalla vista");
    reveal_strlit("Barcollante");
    reveal_strlit("Barcollare");
    reveal_strlit("Calmare Emozioni");
    reveal_strlit("Cecità");
    reveal_strlit("Charme");
    reveal_strlit("Colpi Critici");
    reveal_strlit("Colpi critici");
    reveal_strlit("Condizione Affaticato");
    reveal_strlit("Condizione Esausto");
    reveal_strlit("Confusione");
    reveal_strlit("Congedo");
    reveal_strlit("Controllo Magico");
    reveal_strlit("Convocazione");
    reveal_strlit("Danni Non Letali");
    reveal_strlit("Danni alle caratteristiche");
    reveal_strlit("Danni contundenti");
    reveal_strlit("Danni da arma");
    reveal_strlit("Danni da armi");
    reveal_strlit("Danni dalle Armi");
    reveal_strlit("Danni e risucchi alle caratteristiche");
    reveal_strlit("Danni e risucchi di caratteristiche");
    reveal_strlit("Danni e risucchio alle Caratteristiche");
    reveal_strlit("Danni e risucchio di caratteristiche");
    reveal_strlit("Danni perforanti e taglienti");
    reveal_strlit("Danno alle Caratteristiche");
    reveal_strlit("Danno da Pressione");
    reveal_strlit("Danno da arma");
    reveal_strlit("Danno e risucchio alle caratteristiche");
    reveal_strlit("Danno non letale");
    reveal_strlit("Dardo Incantato");
    reveal_strlit("Demenza");
    reveal_strlit("Divinazione");
    reveal_strlit("Dolore");
    reveal_strlit("Effetti a completamento di incantesimo e ad attivazione di incantesimo");
    reveal_strlit("Effetti basati sulla vista");
    reveal_strlit("Effetti d'influenza mentale");
    reveal_strlit("Effetti di Charme e Compulsione");
    reveal_strlit("Effetti di Demenza");
    reveal_strlit("Effetti di Influenza Mentale");
    reveal_strlit("Effetti di Morte");
    reveal_strlit("Effetti di Paura");
    reveal_strlit("Effetti di Sonno");
    reveal_strlit("Effetti di charme");
    reveal_strlit("Effetti di charme e compulsioni");
    reveal_strlit("Effetti di confusione e follia");
    reveal_strlit("Effetti di dolore");
    reveal_strlit("Effetti di forza");
    reveal_strlit("Effetti di influenza mentale");
    reveal_strlit("Effetti di morte");
    reveal_strlit("Effetti di morte (vedi sotto)");
    reveal_strlit("Effetti di paura");
    reveal_strlit("Effetti di sonno");
    reveal_strlit("Effetti visivi");
    reveal_strlit("Elettricità");
    reveal_strlit("Elettricità (parziale)");
    reveal_strlit("Energia Negativa");
    reveal_strlit("Energia Positiva");
    reveal_strlit("Esaurimento");
    reveal_strlit("Esausto");
    reveal_strlit("Fatica");
    reveal_strlit("Fiancheggiamento");
    reveal_strlit("Forza");
    reveal_strlit("Frastornamento");
    reveal_strlit("Frastornato");
    reveal_strlit("Freddo");
    reveal_strlit("Freddo (sé stesso e chi lo cavalca)");
    reveal_strlit("Fuoco");
    reveal_strlit("Fuoco Infernale");
    reveal_strlit("Illusione");
    reveal_strlit("Illusioni e qualsiasi attacco basato sulla vista");
    reveal_strlit("Immunità agli Incantesimi");
    reveal_strlit("Immunità al Freddo");
    reveal_strlit("Immunità all'Annichilazione");
    reveal_strlit("Immunità all'Esilio");
    reveal_strlit("Immunità alla Magia");
    reveal_strlit("Immunità alla Perdita di Memoria");
    reveal_strlit("Immunità alle acque del Fiume Stige");
    reveal_strlit("Incalare Energia da Fonti Non Mitiche");
    reveal_strlit("Incantesimi di Ammaliamento e di Illusione");
    reveal_strlit("Incantesimi di Energia");
    reveal_strlit("Individuazione dei Pensieri");
    reveal_strlit("Individuazione dell'Allineamento");
    reveal_strlit("Infermità");
    reveal_strlit("Infermo");
    reveal_strlit("Invecchiamento");
    reveal_strlit("Labirinto");
    reveal_strlit("Lentezza");
    reveal_strlit("Livelli Negativi");
    reveal_strlit("Magia");
    reveal_strlit("Malattia");
    reveal_strlit("Malattie");
    reveal_strlit("Maledizioni");
    reveal_strlit("Metamorfosi");
    reveal_strlit("Nausea");
    reveal_strlit("Nauseato");
    reveal_strlit("Non Deformante");
    reveal_strlit("Padronanza delle Rune");
    reveal_strlit("Paralisi");
    reveal_strlit("Paura");
    reveal_strlit("Pietrificazione");
    reveal_strlit("Richiamo");
    reveal_strlit("Risucchi di Energia");
    reveal_strlit("Risucchio di Caratteristiche");
    reveal_strlit("Risucchio di Energia");
    reveal_strlit("Rivela Bugie");
    reveal_strlit("Sanguinamento");
    reveal_strlit("Sanguinamento (solo Punti Ferita)");
    reveal_strlit("Scosso");
    reveal_strlit("Sguardo");
    reveal_strlit("Sonno");
    reveal_strlit("Sonoro");
    reveal_strlit("Sordità");
    reveal_strlit("Spaventato");
    reveal_strlit("Spostamento Planare");
    reveal_strlit("Stordimento");
    reveal_strlit("Tratti degli Elementali");
    reveal_strlit("Tratti degli Sciami");
    reveal_strlit("Tratti dei Costrutti");
    reveal_strlit("Tratti dei Draghi");
    reveal_strlit("Tratti dei Non Morti");
    reveal_strlit("Tratti dei Vegetali");
    reveal_strlit("Tratti delle Melme");
    reveal_strlit("Veleni");
    reveal_strlit("Veleno");
    reveal_strlit("Veleno Ingerito");
    reveal_strlit("acido");
    reveal_strlit("acque del Fiume Stige");
    reveal_strlit("attacchi basati sulla vista ed effetti visivi");
    reveal_strlit("attacchi con Sguardo");
    reveal_strlit("attacchi con lo Sguardo");
    reveal_strlit("attacchi con lo sguardo");
    reveal_strlit("charme");
    reveal_strlit("charme sui mostri");
    reveal_strlit("compulsione");
    reveal_strlit("controllo mentale");
    reveal_strlit("contundente");
    reveal_strlit("da caduta e da schiacciamento");
    reveal_strlit("danni alle Caratteristiche");
    reveal_strlit("danni alle caratteristiche");
    reveal_strlit("danni contundenti");
    reveal_strlit("danni contundenti e perforanti");
    reveal_strlit("danni da arma");
    reveal_strlit("danni da armi");
    reveal_strlit("danni da precisione");
    reveal_strlit("danni delle armi");
    reveal_strlit("danni di precisione");
    reveal_strlit("danni e risucchi di Caratteristiche");
    reveal_strlit("danni perforanti");
    reveal_strlit("danni taglienti");
    reveal_strlit("danni taglienti e perforanti");
    reveal_strlit("danno da arma");
    reveal_strlit("danno di precisione");
    reveal_strlit("di influenza mentale e basati sullo Sguardo");
    reveal_strlit("divinazione");
    reveal_strlit("dolore");
    reveal_strlit("effetti Barcollanti");
    reveal_strlit("effetti basati sulla vista");
    reveal_strlit("effetti che bersagliano uno specifico numero di creature");
    reveal_strlit("effetti di Charme e Compulsione");
    reveal_strlit("effetti di Metamorfosi");
    reveal_strlit("effetti di Paura");
    reveal_strlit("effetti di Paura ed influenza mentale");
    reveal_strlit("effetti di Sguardo");
    reveal_strlit("effetti di Sonno");
    reveal_strlit("effetti di ammaliamento");
    reveal_strlit("effetti di charme");
    reveal_strlit("effetti di charme e compulsione");
    reveal_strlit("effetti di charme e compulsioni");
    reveal_strlit("effetti di compulsione");
    reveal_strlit("effetti di confusione e demenza");
    reveal_strlit("effetti di demenza");
    reveal_strlit("effetti di influenza mentale");
    reveal_strlit("effetti di influenza mentale e visivi");
    reveal_strlit("effetti di luce");
    reveal_strlit("effetti di maledizione");
    reveal_strlit("effetti di maledizioni");
    reveal_strlit("effetti di metamorfosi");
    reveal_strlit("effetti di morte");
    reveal_strlit("effetti di necromanzia");
    reveal_strlit("effetti di paura");
    reveal_strlit("effetti di sguardo");
    reveal_strlit("effetti di sonno");
    reveal_strlit("effetti e illusioni visive");
    reveal_strlit("effetti polimorfi");
    reveal_strlit("effetti sensoriali");
    reveal_strlit("effetti visivi");
    reveal_strlit("effetti visivi e illusioni");
    reveal_strlit("elettricità");
    reveal_strlit("emozioni");
    reveal_strlit("energia negativa");
    reveal_strlit("ferite permanenti");
    reveal_strlit("forza");
    reveal_strlit("freddo");
    reveal_strlit("fulmine");
    reveal_strlit("fuoco");
    reveal_strlit("illusioni");
    reveal_strlit("illusioni visive");
    reveal_strlit("immunità alle acque del Fiume Stige");
    reveal_strlit("invecchiamento");
    reveal_strlit("livelli negativi");
    reveal_strlit("malattia");
    reveal_strlit("malattie");
    reveal_strlit("maledizioni");
    reveal_strlit("metamorfosi");
    reveal_strlit("nausea");
    reveal_strlit("palla di fuoco");
    reveal_strlit("paralisi");
    reveal_strlit("paura");
    reveal_strlit("pietrificazione");
    reveal_strlit("possessione");
    reveal_strlit("risucchi di caratteristiche");
    reveal_strlit("risucchi di energia");
    reveal_strlit("risucchio di caratteristica");
    reveal_strlit("risucchio di caratteristiche");
    reveal_strlit("risucchio di energia");
    reveal_strlit("ruggine");
    reveal_strlit("sanguinamento");
    reveal_strlit("scacciare");
    reveal_strlit("sonno");
    reveal_strlit("sonoro");
    reveal_strlit("sordità");
    reveal_strlit("stordimento");
    reveal_strlit("tratti dei Draghi");
    reveal_strlit("veleni");
    reveal_strlit("veleno");
    reveal_strlit("visivi ed illusori");
    assert("Abbagliamenti"@.len() == 13);
    assert("Abbagliamento"@.len() == 13);
    assert("Abbagliato"@.len() == 10);
    assert("Accecato"@.len() == 8);
    assert("Acido"@.len() == 5);
    assert("Affaticamento"@.len() == 13);
    assert("Affaticato"@.len() == 10);
    assert("Ammaliamento"@.len() == 12);
    assert("Ancora Dimensionale"@.len() == 19);
    assert("Armi Taglienti"@.len() == 14);
    assert("Armi contundenti"@.len() == 16);
    assert("Assorbimento del Fuoco"@.len() == 22);
    assert("Attacchi Furtivi"@.len() == 16);
    assert("Attacchi ai Fianchi"@.len() == 19);
    assert("Attacchi basati sull'olfatto"@.len() == 28);
    assert("Attacchi basati sulla vista"@.len() == 27);
    assert("Attacchi basati sulla vista o sguardo"@.len() == 37);
    assert("Attacchi con Sguardo"@.len() == 20);
    assert("Attacchi con lo sguardo"@.len() == 23);
    assert("Attacchi dipendenti dalla vista"@.len() == 31);
    assert("Barcollante"@.len() == 11);
    assert("Barcollare"@.len() == 10);
    assert("Calmare Emozioni"@.len() == 16);
    assert("Cecità"@.len() == 6);
    assert("Charme"@.len() == 6);
    assert("Colpi Critici"@.len() == 13);
    assert("Colpi critici"@.len() == 13);
    assert("Condizione Affaticato"@.len() == 21);
    assert("Condizione Esausto"@.len() == 18);
    assert("Confusione"@.len() == 10);
    assert("Congedo"@.len() == 7);
    assert("Controllo Magico"@.len() == 16);
    assert("Convocazione"@.len() == 12);
    assert("Danni Non Letali"@.len() == 16);
    assert("Danni alle caratteristiche"@.len() == 26);
    assert("Danni contundenti"@.len() == 17);
    assert("Danni da arma"@.len() == 13);
    assert("Danni da armi"@.len() == 13);
    assert("Danni dalle Armi"@.len() == 16);
    assert("Danni e risucchi alle caratteristiche"@.len() == 37);
    assert("Danni e risucchi di caratteristiche"@.len() == 35);
    assert("Danni e risucchio alle Caratteristiche"@.len() == 38);
    assert("Danni e risucchio di caratteristiche"@.len() == 36);
    assert("Danni perforanti e taglienti"@.len() == 28);
    assert("Danno alle Caratteristiche"@.len() == 26);
    assert("Danno da Pressione"@.len() == 18);
    assert("Danno da arma"@.len() == 13);
    assert("Danno e risucchio alle caratteristiche"@.len() == 38);
    assert("Danno non letale"@.len() == 16);
    assert("Dardo Incantato"@.len() == 15);
    assert("Demenza"@.len() == 7);
    assert("Divinazione"@.len() == 11);
    assert("Dolore"@.len() == 6);
    assert("Effetti a completamento di incantesimo e ad attivazione di incantesimo"@.len() == 70);
    assert("Effetti basati sulla vista"@.len() == 26);
    assert("Effetti d'influenza mentale"@.len() == 27);
    assert("Effetti di Charme e Compulsione"@.len() == 31);
    assert("Effetti di Demenza"@.len() == 18);
    assert("Effetti di Influenza Mentale"@.len() == 28);
    assert("Effetti di Morte"@.len() == 16);
    assert("Effetti di Paura"@.len() == 16);
    assert("Effetti di Sonno"@.len() == 16);
    assert("Effetti di charme"@.len() == 17);
    assert("Effetti di charme e compulsioni"@.len() == 31);
    assert("Effetti di confusione e follia"@.len() == 30);
    assert("Effetti di dolore"@.len() == 17);
    assert("Effetti di forza"@.len() == 16);
    assert("Effetti di influenza mentale"@.len() == 28);
    assert("Effetti di morte"@.len() == 16);
    assert("Effetti di morte (vedi sotto)"@.len() == 29);
    assert("Effetti di paura"@.len() == 16);
    assert("Effetti di sonno"@.len() == 16);
    assert("Effetti visivi"@.len() == 14);
    assert("Elettricità"@.len() == 11);
    assert("Elettricità (parziale)"@.len() == 22);
    assert("Energia Negativa"@.len() == 16);
    assert("Energia Positiva"@.len() == 16);
    assert("Esaurimento"@.len() == 11);
    assert("Esausto"@.len() == 7);
    assert("Fatica"@.len() == 6);
    assert("Fiancheggiamento"@.len() == 16);
    assert("Forza"@.len() == 5);
    assert("Frastornamento"@.len() == 14);
    assert("Frastornato"@.len() == 11);
    assert("Freddo"@.len() == 6);
    assert("Freddo (sé stesso e chi lo cavalca)"@.len() == 35);
    assert("Fuoco"@.len() == 5);
    assert("Fuoco Infernale"@.len() == 15);
    assert("Illusione"@.len() == 9);
    assert("Illusioni e qualsiasi attacco basato sulla vista"@.len() == 48);
    assert("Immunità agli Incantesimi"@.len() == 25);
    assert("Immunità al Freddo"@.len() == 18);
    assert("Immunità all'Annichilazione"@.len() == 27);
    assert("Immunità all'Esilio"@.len() == 19);
    assert("Immunità alla Magia"@.len() == 19);
    assert("Immunità alla Perdita di Memoria"@.len() == 32);
    assert("Immunità alle acque del Fiume Stige"@.len() == 35);
    assert("Incalare Energia da Fonti Non Mitiche"@.len() == 37);
    assert("Incantesimi di Ammaliamento e di Illusione"@.len() == 42);
    assert("Incantesimi di Energia"@.len() == 22);
    assert("Individuazione dei Pensieri"@.len() == 27);
    assert("Individuazione dell'Allineamento"@.len() == 32);
    assert("Infermità"@.len() == 9);
    assert("Infermo"@.len() == 7);
    assert("Invecchiamento"@.len() == 14);
    assert("Labirinto"@.len() == 9);
    assert("Lentezza"@.len() == 8);
    assert("Livelli Negativi"@.len() == 16);
    assert("Magia"@.len() == 5);
    assert("Malattia"@.len() == 8);
    assert("Malattie"@.len() == 8);
    assert("Maledizioni"@.len() == 11);
    assert("Metamorfosi"@.len() == 11);
    assert("Nausea"@.len() == 6);
    assert("Nauseato"@.len() == 8);
    assert("Non Deformante"@.len() == 14);
    assert("Padronanza delle Rune"@.len() == 21);
    assert("Paralisi"@.len() == 8);
    assert("Paura"@.len() == 5);
    assert("Pietrificazione"@.len() == 15);
    assert("Richiamo"@.len() == 8);
    assert("Risucchi di Energia"@.len() == 19);
    assert("Risucchio di Caratteristiche"@.len() == 28);
    assert("Risucchio di Energia"@.len() == 20);
    assert("Rivela Bugie"@.len() == 12);
    assert("Sanguinamento"@.len() == 13);
    assert("Sanguinamento (solo Punti Ferita)"@.len() == 33);
    assert("Scosso"@.len() == 6);
    assert("Sguardo"@.len() == 7);
    assert("Sonno"@.len() == 5);
    assert("Sonoro"@.len() == 6);
    assert("Sordità"@.len() == 7);
    assert("Spaventato"@.len() == 10);
    assert("Spostamento Planare"@.len() == 19);
    assert("Stordimento"@.len() == 11);
    assert("Tratti degli Elementali"@.len() == 23);
    assert("Tratti degli Sciami"@.len() == 19);
    assert("Tratti dei Costrutti"@.len() == 20);
    assert("Tratti dei Draghi"@.len() == 17);
    assert("Tratti dei Non Morti"@.len() == 20);
    assert("Tratti dei Vegetali"@.len() == 19);
    assert("Tratti delle Melme"@.len() == 18);
    assert("Veleni"@.len() == 6);
    assert("Veleno"@.len() == 6);
    assert("Veleno Ingerito"@.len() == 15);
    assert("acido"@.len() == 5);
    assert("acque del Fiume Stige"@.len() == 21);
    assert("attacchi basati sulla vista ed effetti visivi"@.len() == 45);
    assert("attacchi con Sguardo"@.len() == 20);
    assert("attacchi con lo Sguardo"@.len() == 23);
    assert("attacchi con lo sguardo"@.len() == 23);
    assert("charme"@.len() == 6);
    assert("charme sui mostri"@.len() == 17);
    assert("compulsione"@.len() == 11);
    assert("controllo mentale"@.len() == 17);
    assert("contundente"@.len() == 11);
    assert("da caduta e da schiacciamento"@.len() == 29);
    assert("danni alle Caratteristiche"@.len() == 26);
    assert("danni alle caratteristiche"@.len() == 26);
    assert("danni contundenti"@.len() == 17);
    assert("danni contundenti e perforanti"@.len() == 30);
    assert("danni da arma"@.len() == 13);
    assert("danni da armi"@.len() == 13);
    assert("danni da precisione"@.len() == 19);
    assert("danni delle armi"@.len() == 16);
    assert("danni di precisione"@.len() == 19);
    assert("danni e risucchi di Caratteristiche"@.len() == 35);
    assert("danni perforanti"@.len() == 16);
    assert("danni taglienti"@.len() == 15);
    assert("danni taglienti e perforanti"@.len() == 28);
    assert("danno da arma"@.len() == 13);
    assert("danno di precisione"@.len() == 19);
    assert("di influenza mentale e basati sullo Sguardo"@.len() == 43);
    assert("divinazione"@.len() == 11);
    assert("dolore"@.len() == 6);
    assert("effetti Barcollanti"@.len() == 19);
    assert("effetti basati sulla vista"@.len() == 26);
    assert("effetti che bersagliano uno specifico numero di creature"@.len() == 56);
    assert("effetti di Charme e Compulsione"@.len() == 31);
    assert("effetti di Metamorfosi"@.len() == 22);
    assert("effetti di Paura"@.len() == 16);
    assert("effetti di Paura ed influenza mentale"@.len() == 37);
    assert("effetti di Sguardo"@.len() == 18);
    assert("effetti di Sonno"@.len() == 16);
    assert("effetti di ammaliamento"@.len() == 23);
    assert("effetti di charme"@.len() == 17);
    assert("effetti di charme e compulsione"@.len() == 31);
    assert("effetti di charme e compulsioni"@.len() == 31);
    assert("effetti di compulsione"@.len() == 22);
    assert("effetti di confusione e demenza"@.len() == 31);
    assert("effetti di demenza"@.len() == 18);
    assert("effetti di influenza mentale"@.len() == 28);
    assert("effetti di influenza mentale e visivi"@.len() == 37);
    assert("effetti di luce"@.len() == 15);
    assert("effetti di maledizione"@.len() == 22);
    assert("effetti di maledizioni"@.len() == 22);
    assert("effetti di metamorfosi"@.len() == 22);
    assert("effetti di morte"@.len() == 16);
    assert("effetti di necromanzia"@.len() == 22);
    assert("effetti di paura"@.len() == 16);
    assert("effetti di sguardo"@.len() == 18);
    assert("effetti di sonno"@.len() == 16);
    assert("effetti e illusioni visive"@.len() == 26);
    assert("effetti polimorfi"@.len() == 17);
    assert("effetti sensoriali"@.len() == 18);
    assert("effetti visivi"@.len() == 14);
    assert("effetti visivi e illusioni"@.len() == 26);
    assert("elettricità"@.len() == 11);
    assert("emozioni"@.len() == 8);
    assert("energia negativa"@.len() == 16);
    assert("ferite permanenti"@.len() == 17);
    assert("forza"@.len() == 5);
    assert("freddo"@.len() == 6);
    assert("fulmine"@.len() == 7);
    assert("fuoco"@.len() == 5);
    assert("illusioni"@.len() == 9);
    assert("illusioni visive"@.len() == 16);
    assert("immunità alle acque del Fiume Stige"@.len() == 35);
    assert("invecchiamento"@.len() == 14);
    assert("livelli negativi"@.len() == 16);
    assert("malattia"@.len() == 8);
    assert("malattie"@.len() == 8);
    assert("maledizioni"@.len() == 11);
    assert("metamorfosi"@.len() == 11);
    assert("nausea"@.len() == 6);
    assert("palla di fuoco"@.len() == 14);
    assert("paralisi"@.len() == 8);
    assert("paura"@.len() == 5);
    assert("pietrificazione"@.len() == 15);
    assert("possessione"@.len() == 11);
    assert("risucchi di caratteristiche"@.len() == 27);
    assert("risucchi di energia"@.len() == 19);
    assert("risucchio di caratteristica"@.len() == 27);
    assert("risucchio di caratteristiche"@.len() == 28);
    assert("risucchio di energia"@.len() == 20);
    assert("ruggine"@.len() == 7);
    assert("sanguinamento"@.len() == 13);
    assert("scacciare"@.len() == 9);
    assert("sonno"@.len() == 5);
    assert("sonoro"@.len() == 6);
    assert("sordità"@.len() == 7);
    assert("stordimento"@.len() == 11);
    assert("tratti dei Draghi"@.len() == 17);
    assert("veleni"@.len() == 6);
    assert("veleno"@.len() == 6);
    assert("visivi ed illusori"@.len() == 18);
    assert("Immunità alla Perdita di Memoria"@[1] != "Individuazione dell'Allineamento"@[1]);
    assert("Immunità alla Perdita di Memoria"@ != "Individuazione dell'Allineamento"@);
}

proof fn lemma_read_immunity_blooddrain(s: Seq<char>)
    requires
        immunity_named(Immunity_Type::Immunity_BloodDrain, s),
    ensures
        spec_single_immunity(s) == Some(Immunity_Type::Immunity_BloodDrain),
{
    reveal_strlit("Abbagliamenti");
    reveal_strlit("Abbagliamento");
    reveal_strlit("Abbagliato");
    reveal_strlit("Accecato");
    reveal_strlit("Acido");
    reveal_strlit("Affaticamento");
    reveal_strlit("Affaticato");
    reveal_strlit("Ammaliamento");
    reveal_strlit("Ancora Dimensionale");
    reveal_strlit("Armi Taglienti");
    reveal_strlit("Armi contundenti");
    reveal_strlit("Assorbimento del Fuoco");
    reveal_strlit("Attacchi Furtivi");
    reveal_strlit("Attacchi ai Fianchi");
    reveal_strlit("Attacchi basati sull'olfatto");
    reveal_strlit("Attacchi basati sulla vista");
    reveal_strlit("Attacchi basati sulla vista o sguardo");
    reveal_strlit("Attacchi con Sguardo");
    reveal_strlit("Attacchi con lo sguardo");
    reveal_strlit("Attacchi dipendenti dalla vista");
    reveal_strlit("Barcollante");
    reveal_strlit("Barcollare");
    reveal_strlit("Calmare Emozioni");
    reveal_strlit("Cecità");
    reveal_strlit("Charme");
    reveal_strlit("Colpi Critici");
    reveal_strlit("Colpi critici");
    reveal_strlit("Condizione Affaticato");
    reveal_strlit("Condizione Esausto");
    reveal_strlit("Confusione");
    reveal_strlit("Congedo");
    reveal_strlit("Controllo Magico");
    reveal_strlit("Convocazione");
    reveal_strlit("Danni Non Letali");
    reveal_strlit("Danni alle caratteristiche");
    reveal_strlit("Danni contundenti");
    reveal_strlit("Danni da arma");
    reveal_strlit("Danni da armi");
    reveal_strlit("Danni dalle Armi");
    reveal_strlit("Danni e risucchi alle caratteristiche");
    reveal_strlit("Danni e risucchi di caratteristiche");
    reveal_strlit("Danni e risucchio alle Caratteristiche");
    reveal_strlit("Danni e risucchio di caratteristiche");
    reveal_strlit("Danni perforanti e taglienti");
    reveal_strlit("Danno alle Caratteristiche");
    reveal_strlit("Danno da Pressione");
    reveal_strlit("Danno da arma");
    reveal_strlit("Danno e risucchio alle caratteristiche");
    reveal_strlit("Danno non letale");
    reveal_strlit("Dardo Incantato");
    reveal_strlit("Demenza");
    reveal_strlit("Divinazione");
    reveal_strlit("Dolore");
    reveal_strlit("Effetti a completamento di incantesimo e ad attivazione di incantesimo");
    reveal_strlit("Effetti basati sulla vista");
    reveal_strlit("Effetti d'influenza mentale");
    reveal_strlit("Effetti di Charme e Compulsione");
    reveal_strlit("Effetti di Demenza");
    reveal_strlit("Effetti di Influenza Mentale");
    reveal_strlit("Effetti di Morte");
    reveal_strlit("Effetti di Paura");
    reveal_strlit("Effetti di Sonno");
    reveal_strlit("Effetti di charme");
    reveal_strlit("Effetti di charme e compulsioni");
    reveal_strlit("Effetti di confusione e follia");
    reveal_strlit("Effetti di dolore");
    reveal_strlit("Effetti di forza");
    reveal_strlit("Effetti di influenza mentale");
    reveal_strlit("Effetti di morte");
    reveal_strlit("Effetti di morte (vedi sotto)");
    reveal_strlit("Effetti di paura");
    reveal_strlit("Effetti di sonno");
    reveal_strlit("Effetti visivi");
    reveal_strlit("Elettricità");
    reveal_strlit("Elettricità (parziale)");
    reveal_strlit("Energia Negativa");
    reveal_strlit("Energia Positiva");
    reveal_strlit("Esaurimento");
    reveal_strlit("Esausto");
    reveal_strlit("Fatica");
    reveal_strlit("Fiancheggiamento");
    reveal_strlit("Forza");
    reveal_strlit("Frastornamento");
    reveal_strlit("Frastornato");
    reveal_strlit("Freddo");
    reveal_strlit("Freddo (sé stesso e chi lo cavalca)");
    reveal_strlit("Fuoco");
    reveal_strlit("Fuoco Infernale");
    reveal_strlit("Illusione");
    reveal_strlit("Illusioni e qualsiasi attacco basato sulla vista");
    reveal_strlit("Immunità agli Incantesimi");
    reveal_strlit("Immunità al Freddo");
    reveal_strlit("Immunità all'Annichilazione");
    reveal_strlit("Immunità all'Esilio");
    reveal_strlit("Immunità alla Magia");
    reveal_strlit("Immunità alla Perdita di Memoria");
    reveal_strlit("Immunità alle acque del Fiume Stige");
    reveal_strlit("Incalare Energia da Fonti Non Mitiche");
    reveal_strlit("Incantesimi di Ammaliamento e di Illusione");
    reveal_strlit("Incantesimi di Energia");
    reveal_strlit("Individuazione dei Pensieri");
    reveal_strlit("Individuazione dell'Allineamento");
    reveal_strlit("Infermità");
    reveal_strlit("Infermo");
    reveal_strlit("Invecchiamento");
    reveal_strlit("Labirinto");
    reveal_strlit("Lentezza");
    reveal_strlit("Livelli Negativi");
    reveal_strlit("Magia");
    reveal_strlit("Malattia");
    reveal_strlit("Malattie");
    reveal_strlit("Maledizioni");
    reveal_strlit("Metamorfosi");
    reveal_strlit("Nausea");
    reveal_strlit("Nauseato");
    reveal_strlit("Non Deformante");
    reveal_strlit("Padronanza delle Rune");
    reveal_strlit("Paralisi");
    reveal_strlit("Paura");
    reveal_strlit("Pietrificazione");
    reveal_strlit("Richiamo");
    reveal_strlit("Risucchi di Energia");
    reveal_strlit("Risucchi di Sangue");
    reveal_strlit("Risucchio di Caratteristiche");
    reveal_strlit("Risucchio di Energia");
    reveal_strlit("Rivela Bugie");
    reveal_strlit("Sanguinamento");
    reveal_strlit("Sanguinamento (solo Punti Ferita)");
    reveal_strlit("Scosso");
    reveal_strlit("Sguardo");
    reveal_strlit("Sonno");
    reveal_strlit("Sonoro");
    reveal_strlit("Sordità");
    reveal_strlit("Spaventato");
    reveal_strlit("Spostamento Planare");
    reveal_strlit("Stordimento");
    reveal_strlit("Tratti degli Elementali");
    reveal_strlit("Tratti degli Sciami");
    reveal_strlit("Tratti dei Costrutti");
    reveal_strlit("Tratti dei Draghi");
    reveal_strlit("Tratti dei Non Morti");
    reveal_strlit("Tratti dei Vegetali");
    reveal_strlit("Tratti delle Melme");
    reveal_strlit("Veleni");
    reveal_strlit("Veleno");
    reveal_strlit("Veleno Ingerito");
    reveal_strlit("acido");
    reveal_strlit("acque del Fiume Stige");
    reveal_strlit("attacchi basati sulla vista ed effetti visivi");
    reveal_strlit("attacchi con Sguardo");
    reveal_strlit("attacchi con lo Sguardo");
    reveal_strlit("attacchi con lo sguardo");
    reveal_strlit("charme");
    reveal_strlit("charme sui mostri");
    reveal_strlit("compulsione");
    reveal_strlit("controllo mentale");
    reveal_strlit("contundente");
    reveal_strlit("da caduta e da schiacciamento");
    reveal_strlit("danni alle Caratteristiche");
    reveal_strlit("danni alle caratteristiche");
    reveal_strlit("danni contundenti");
    reveal_strlit("danni contundenti e perforanti");
    reveal_strlit("danni da arma");
    reveal_strlit("danni da armi");
    reveal_strlit("danni da precisione");
    reveal_strlit("danni delle armi");
    reveal_strlit("danni di precisione");
    reveal_strlit("danni e risucchi di Caratteristiche");
    reveal_strlit("danni perforanti");
    reveal_strlit("danni taglienti");
    reveal_strlit("danni taglienti e perforanti");
    reveal_strlit("danno da arma");
    reveal_strlit("danno di precisione");
    reveal_strlit("di influenza mentale e basati sullo Sguardo");
    reveal_strlit("divinazione");
    reveal_strlit("dolore");
    reveal_strlit("effetti Barcollanti");
    reveal_strlit("effetti basati sulla vista");
    reveal_strlit("effetti che bersagliano uno specifico numero di creature");
    reveal_strlit("effetti di Charme e Compulsione");
    reveal_strlit("effetti di Metamorfosi");
    reveal_strlit("effetti di Paura");
    reveal_strlit("effetti di Paura ed influenza mentale");
    reveal_strlit("effetti di Sguardo");
    reveal_strlit("effetti di Sonno");
    reveal_strlit("effetti di ammaliamento");
    reveal_strlit("effetti di charme");
    reveal_strlit("effetti di charme e compulsione");
    reveal_strlit("effetti di charme e compulsioni");
    reveal_strlit("effetti di compulsione");
    reveal_strlit("effetti di confusione e demenza");
    reveal_strlit("effetti di demenza");
    reveal_strlit("effetti di influenza mentale");
    reveal_strlit("effetti di influenza mentale e visivi");
    reveal_strlit("effetti di luce");
    reveal_strlit("effetti di maledizione");
    reveal_strlit("effetti di maledizioni");
    reveal_strlit("effetti di metamorfosi");
    reveal_strlit("effetti di morte");
    reveal_strlit("effetti di necromanzia");
    reveal_strlit("effetti di paura");
    reveal_strlit("effetti di sguardo");
    reveal_strlit("effetti di sonno");
    reveal_strlit("effetti e illusioni visive");
    reveal_strlit("effetti polimorfi");
    reveal_strlit("effetti sensoriali");
    reveal_strlit("effetti visivi");
    reveal_strlit("effetti visivi e illusioni");
    reveal_strlit("elettricità");
    reveal_strlit("emozioni");
    reveal_strlit("energia negativa");
    reveal_strlit("ferite permanenti");
    reveal_strlit("forza");
    reveal_strlit("freddo");
    reveal_strlit("fulmine");
    reveal_strlit("fuoco");
    reveal_strlit("illusioni");
    reveal_strlit("illusioni visive");
    reveal_strlit("immunità alle acque del Fiume Stige");
    reveal_strlit("invecchiamento");
    reveal_strlit("livelli negativi");
    reveal_strlit("malattia");
    reveal_strlit("malattie");
    reveal_strlit("maledizioni");
    reveal_strlit("metamorfosi");
    reveal_strlit("nausea");
    reveal_strlit("palla di fuoco");
    reveal_strlit("paralisi");
    reveal_strlit("paura");
    reveal_strlit("pietrificazione");
    reveal_strlit("possessione");
    reveal_strlit("risucchi di caratteristiche");
    reveal_strlit("risucchi di energia");
    reveal_strlit("risucchio di caratteristica");
    reveal_strlit("risucchio di caratteristiche");
    reveal_strlit("risucchio di energia");
    reveal_strlit("ruggine");
    reveal_strlit("sanguinamento");
    reveal_strlit("scacciare");
    reveal_strlit("sonno");
    reveal_strlit("sonoro");
    reveal_strlit("sordità");
    reveal_strlit("stordimento");
    reveal_strlit("tratti dei Draghi");
    reveal_strlit("veleni");
    reveal_strlit("veleno");
    reveal_strlit("visivi ed illusori");
    assert("Abbagliamenti"@.len() == 13);
    assert("Abbagliamento"@.len() == 13);
    assert("Abbagliato"@.len() == 10);
    assert("Accecato"@.len() == 8);
    assert("Acido"@.len() == 5);
    assert("Affaticamento"@.len() == 13);
    assert("Affaticato"@.len() == 10);
    assert("Ammaliamento"@.len() == 12);
    assert("Ancora Dimensionale"@.len() == 19);
    assert("Armi Taglienti"@.len() == 14);
    assert("Armi contundenti"@.len() == 16);
    assert("Assorbimento del Fuoco"@.len() == 22);
    assert("Attacchi Furtivi"@.len() == 16);
    assert("Attacchi ai Fianchi"@.len() == 19);
    assert("Attacchi basati sull'olfatto"@.len() == 28);
    assert("Attacchi basati sulla vista"@.len() == 27);
    assert("Attacchi basati sulla vista o sguardo"@.len() == 37);
    assert("Attacchi con Sguardo"@.len() == 20);
    assert("Attacchi con lo sguardo"@.len() == 23);
    assert("Attacchi dipendenti dalla vista"@.len() == 31);
    assert("Barcollante"@.len() == 11);
    assert("Barcollare"@.len() == 10);
    assert("Calmare Emozioni"@.len() == 16);
    assert("Cecità"@.len() == 6);
    assert("Charme"@.len() == 6);
    assert("Colpi Critici"@.len() == 13);
    assert("Colpi critici"@.len() == 13);
    assert("Condizione Affaticato"@.len() == 21);
    assert("Condizione Esausto"@.len() == 18);
    assert("Confusione"@.len() == 10);
    assert("Congedo"@.len() == 7);
    assert("Controllo Magico"@.len() == 16);
    assert("Convocazione"@.len() == 12);
    assert("Danni Non Letali"@.len() == 16);
    assert("Danni alle caratteristiche"@.len() == 26);
    assert("Danni contundenti"@.len() == 17);
    assert("Danni da arma"@.len() == 13);
    assert("Danni da armi"@.len() == 13);
    assert("Danni dalle Armi"@.len() == 16);
    assert("Danni e risucchi alle caratteristiche"@.len() == 37);
    assert("Danni e risucchi di caratteristiche"@.len() == 35);
    assert("Danni e risucchio alle Caratteristiche"@.len() == 38);
    assert("Danni e risucchio di caratteristiche"@.len() == 36);
    assert("Danni perforanti e taglienti"@.len() == 28);
    assert("Danno alle Caratteristiche"@.len() == 26);
    assert("Danno da Pressione"@.len() == 18);
    assert("Danno da arma"@.len() == 13);
    assert("Danno e risucchio alle caratteristiche"@.len() == 38);
    assert("Danno non letale"@.len() == 16);
    assert("Dardo Incantato"@.len() == 15);
    assert("Demenza"@.len() == 7);
    assert("Divinazione"@.len() == 11);
    assert("Dolore"@.len() == 6);
    assert("Effetti a completamento di incantesimo e ad attivazione di incantesimo"@.len() == 70);
    assert("Effetti basati sulla vista"@.len() == 26);
    assert("Effetti d'influenza mentale"@.len() == 27);
    assert("Effetti di Charme e Compulsione"@.len() == 31);
    assert("Effetti di Demenza"@.len() == 18);
    assert("Effetti di Influenza Mentale"@.len() == 28);
    assert("Effetti di Morte"@.len() == 16);
    assert("Effetti di Paura"@.len() == 16);
    assert("Effetti di Sonno"@.len() == 16);
    assert("Effetti di charme"@.len() == 17);
    assert("Effetti di charme e compulsioni"@.len() == 31);
    assert("Effetti di confusione e follia"@.len() == 30);
    assert("Effetti di dolore"@.len() == 17);
    assert("Effetti di forza"@.len() == 16);
    assert("Effetti di influenza mentale"@.len() == 28);
    assert("Effetti di morte"@.len() == 16);
    assert("Effetti di morte (vedi sotto)"@.len() == 29);
    assert("Effetti di paura"@.len() == 16);
    assert("Effetti di sonno"@.len() == 16);
    assert("Effetti visivi"@.len() == 14);
    assert("Elettricità"@.len() == 11);
    assert("Elettricità (parziale)"@.len() == 22);
    assert("Energia Negativa"@.len() == 16);
    assert("Energia Positiva"@.len() == 16);
    assert("Esaurimento"@.len() == 11);
    assert("Esausto"@.len() == 7);
    assert("Fatica"@.len() == 6);
    assert("Fiancheggiamento"@.len() == 16);
    assert("Forza"@.len() == 5);
    assert("Frastornamento"@.len() == 14);
    assert("Frastornato"@.len() == 11);
    assert("Freddo"@.len() == 6);
    assert("Freddo (sé stesso e chi lo cavalca)"@.len() == 35);
    assert("Fuoco"@.len() == 5);
    assert("Fuoco Infernale"@.len() == 15);
    assert("Illusione"@.len() == 9);
    assert("Illusioni e qualsiasi attacco basato sulla vista"@.len() == 48);
    assert("Immunità agli Incantesimi"@.len() == 25);
    assert("Immunità al Freddo"@.len() == 18);
    assert("Immunità all'Annichilazione"@.len() == 27);
    assert("Immunità all'Esilio"@.len() == 19);
    assert("Immunità alla Magia"@.len() == 19);
    assert("Immunità alla Perdita di Memoria"@.len() == 32);
    assert("Immunità alle acque del Fiume Stige"@.len() == 35);
    assert("Incalare Energia da Fonti Non Mitiche"@.len() == 37);
    assert("Incantesimi di Ammaliamento e di Illusione"@.len() == 42);
    assert("Incantesimi di Energia"@.len() == 22);
    assert("Individuazione dei Pensieri"@.len() == 27);
    assert("Individuazione dell'Allineamento"@.len() == 32);
    assert("Infermità"@.len() == 9);
    assert("Infermo"@.len() == 7);
    assert("Invecchiamento"@.len() == 14);
    assert("Labirinto"@.len() == 9);
    assert("Lentezza"@.len() == 8);
    assert("Livelli Negativi"@.len() == 16);
    assert("Magia"@.len() == 5);
    assert("Malattia"@.len() == 8);
    assert("Malattie"@.len() == 8);
    assert("Maledizioni"@.len() == 11);
    assert("Metamorfosi"@.len() == 11);
    assert("Nausea"@.len() == 6);
    assert("Nauseato"@.len() == 8);
    assert("Non Deformante"@.len() == 14);
    assert("Padronanza delle Rune"@.len() == 21);
    assert("Paralisi"@.len() == 8);
    assert("Paura"@.len() == 5);
    assert("Pietrificazione"@.len() == 15);
    assert("Richiamo"@.len() == 8);
    assert("Risucchi di Energia"@.len() == 19);
    assert("Risucchi di Sangue"@.len() == 18);
    assert("Risucchio di Caratteristiche"@.len() == 28);
    assert("Risucchio di Energia"@.len() == 20);
    assert("Rivela Bugie"@.len() == 12);
    assert("Sanguinamento"@.len() == 13);
    assert("Sanguinamento (solo Punti Ferita)"@.len() == 33);
    assert("Scosso"@.len() == 6);
    assert("Sguardo"@.len() == 7);
    assert("Sonno"@.len() == 5);
    assert("Sonoro"@.len() == 6);
    assert("Sordità"@.len() == 7);
    assert("Spaventato"@.len() == 10);
    assert("Spostamento Planare"@.len() == 19);
    assert("Stordimento"@.len() == 11);
    assert("Tratti degli Elementali"@.len() == 23);
    assert("Tratti degli Sciami"@.len() == 19);
    assert("Tratti dei Costrutti"@.len() == 20);
    assert("Tratti dei Draghi"@.len() == 17);
    assert("Tratti dei Non Morti"@.len() == 20);
    assert("Tratti dei Vegetali"@.len() == 19);
    assert("Tratti delle Melme"@.len() == 18);
    assert("Veleni"@.len() == 6);
    assert("Veleno"@.len() == 6);
    assert("Veleno Ingerito"@.len() == 15);
    assert("acido"@.len() == 5);
    assert("acque del Fiume Stige"@.len() == 21);
    assert("attacchi basati sulla vista ed effetti visivi"@.len() == 45);
    assert("attacchi con Sguardo"@.len() == 20);
    assert("attacchi con lo Sguardo"@.len() == 23);
    assert("attacchi con lo sguardo"@.len() == 23);
    assert("charme"@.len() == 6);
    assert("charme sui mostri"@.len() == 17);
    assert("compulsione"@.len() == 11);
    assert("controllo mentale"@.len() == 17);
    assert("contundente"@.len() == 11);
    assert("da caduta e da schiacciamento"@.len() == 29);
    assert("danni alle Caratteristiche"@.len() == 26);
    assert("danni alle caratteristiche"@.len() == 26);
    assert("danni contundenti"@.len() == 17);
    assert("danni contundenti e perforanti"@.len() == 30);
    assert("danni da arma"@.len() == 13);
    assert("danni da armi"@.len() == 13);
    assert("danni da precisione"@.len() == 19);
    assert("danni delle armi"@.len() == 16);
    assert("danni di precisione"@.len() == 19);
    assert("danni e risucchi di Caratteristiche"@.len() == 35);
    assert("danni perforanti"@.len() == 16);
    assert("danni taglienti"@.len() == 15);
    assert("danni taglienti e perforanti"@.len() == 28);
    assert("danno da arma"@.len() == 13);
    assert("danno di precisione"@.len() == 19);
    assert("di influenza mentale e basati sullo Sguardo"@.len() == 43);
    assert("divinazione"@.len() == 11);
    assert("dolore"@.len() == 6);
    assert("effetti Barcollanti"@.len() == 19);
    assert("effetti basati sulla vista"@.len() == 26);
    assert("effetti che bersagliano uno specifico numero di creature"@.len() == 56);
    assert("effetti di Charme e Compulsione"@.len() == 31);
    assert("effetti di Metamorfosi"@.len() == 22);
    assert("effetti di Paura"@.len() == 16);
    assert("effetti di Paura ed influenza mentale"@.len() == 37);
    assert("effetti di Sguardo"@.len() == 18);
    assert("effetti di Sonno"@.len() == 16);
    assert("effetti di ammaliamento"@.len() == 23);
    assert("effetti di charme"@.len() == 17);
    assert("effetti di charme e compulsione"@.len() == 31);
    assert("effetti di charme e compulsioni"@.len() == 31);
    assert("effetti di compulsione"@.len() == 22);
    assert("effetti di confusione e demenza"@.len() == 31);
    assert("effetti di demenza"@.len() == 18);
    assert("effetti di influenza mentale"@.len() == 28);
    assert("effetti di influenza mentale e visivi"@.len() == 37);
    assert("effetti di luce"@.len() == 15);
    assert("effetti di maledizione"@.len() == 22);
    assert("effetti di maledizioni"@.len() == 22);
    assert("effetti di metamorfosi"@.len() == 22);
    assert("effetti di morte"@.len() == 16);
    assert("effetti di necromanzia"@.len() == 22);
    assert("effetti di paura"@.len() == 16);
    assert("effetti di sguardo"@.len() == 18);
    assert("effetti di sonno"@.len() == 16);
    assert("effetti e illusioni visive"@.len() == 26);
    assert("effetti polimorfi"@.len() == 17);
    assert("effetti sensoriali"@.len() == 18);
    assert("effetti visivi"@.len() == 14);
    assert("effetti visivi e illusioni"@.len() == 26);
    assert("elettricità"@.len() == 11);
    assert("emozioni"@.len() == 8);
    assert("energia negativa"@.len() == 16);
    assert("ferite permanenti"@.len() == 17);
    assert("forza"@.len() == 5);
    assert("freddo"@.len() == 6);
    assert("fulmine"@.len() == 7);
    assert("fuoco"@.len() == 5);
    assert("illusioni"@.len() == 9);
    assert("illusioni visive"@.len() == 16);
    assert("immunità alle acque del Fiume Stige"@.len() == 35);
    assert("invecchiamento"@.len() == 14);
    assert("livelli negativi"@.len() == 16);
    assert("malattia"@.len() == 8);
    assert("malattie"@.len() == 8);
    assert("maledizioni"@.len() == 11);
    assert("metamorfosi"@.len() == 11);
    assert("nausea"@.len() == 6);
    assert("palla di fuoco"@.len() == 14);
    assert("paralisi"@.len() == 8);
    assert("paura"@.len() == 5);
    assert("pietrificazione"@.len() == 15);
    assert("possessione"@.len() == 11);
    assert("risucchi di caratteristiche"@.len() == 27);
    assert("risucchi di energia"@.len() == 19);
    assert("risucchio di caratteristica"@.len() == 27);
    assert("risucchio di caratteristiche"@.len() == 28);
    assert("risucchio di energia"@.len() == 20);
    assert("ruggine"@.len() == 7);
    assert("sanguinamento"@.len() == 13);
    assert("scacciare"@.len() == 9);
    assert("sonno"@.len() == 5);
    assert("sonoro"@.len() == 6);
    assert("sordità"@.len() == 7);
    assert("stordimento"@.len() == 11);
    assert("tratti dei Draghi"@.len() == 17);
    assert("veleni"@.len() == 6);
    assert("veleno"@.len() == 6);
    assert("visivi ed illusori"@.len() == 18);
    assert("Risucchi di Sangue"@[0] != "Immunità al Freddo"@[0]);
    assert("Risucchi di Sangue"@ != "Immunità al Freddo"@);
    assert("Risucchi di Sangue"@[0] != "Condizione Esausto"@[0]);
    assert("Risucchi di Sangue"@ != "Condizione Esausto"@);
    assert("Risucchi di Sangue"@[0] != "Danno da Pressione"@[0]);
    assert("Risucchi di Sangue"@ != "Danno da Pressione"@);
    assert("Risucchi di Sangue"@[0] != "effetti di Sguardo"@[0]);
    assert("Risucchi di Sangue"@ != "effetti di Sguardo"@);
    assert("Risucchi di Sangue"@[0] != "effetti di sguardo"@[0]);
    assert("Risucchi di Sangue"@ != "effetti di sguardo"@);
    assert("Risucchi di Sangue"@[0] != "visivi ed illusori"@[0]);
    assert("Risucchi di Sangue"@ != "visivi ed illusori"@);
    assert("Risucchi di Sangue"@[0] != "Effetti di Demenza"@[0]);
    assert("Risucchi di Sangue"@ != "Effetti di Demenza"@);
    assert("Risucchi di Sangue"@[0] != "effetti di demenza"@[0]);
    assert("Risucchi di Sangue"@ != "effetti di demenza"@);
    assert("Risucchi di Sangue"@[0] != "effetti sensoriali"@[0]);
    assert("Risucchi di Sangue"@ != "effetti sensoriali"@);
    assert("Risucchi di Sangue"@[0] != "Tratti delle Melme"@[0]);
    assert("Risucchi di Sangue"@ != "Tratti delle Melme"@);
}

proof fn lemma_read_immunity_lethalgas(s: Seq<char>)
    requires
        immunity_named(Immunity_Type::Immunity_LethalGas, s),
    ensures
        spec_single_immunity(s) == Some(Immunity_Type::Immunity_LethalGas),
{
    reveal_strlit("Abbagliamenti");
    reveal_strlit("Abbagliamento");
    reveal_strlit("Abbagliato");
    reveal_strlit("Accecato");
    reveal_strlit("Acido");
    reveal_strlit("Affaticamento");
    reveal_strlit("Affaticato");
    reveal_strlit("Ammaliamento");
    reveal_strlit("Ancora Dimensionale");
    reveal_strlit("Armi Taglienti");
    reveal_strlit("Armi contundenti");
    reveal_strlit("Assorbimento del Fuoco");
    reveal_strlit("Attacchi Furtivi");
    reveal_strlit("Attacchi ai Fianchi");
    reveal_strlit("Attacchi basati sull'olfatto");
    reveal_strlit("Attacchi basati sulla vista");
    reveal_strlit("Attacchi basati sulla vista o sguardo");
    reveal_strlit("Attacchi con Sguardo");
    reveal_strlit("Attacchi con lo sguardo");
    reveal_strlit("Attacchi dipendenti dalla vista");
    reveal_strlit("Barcollante");
    reveal_strlit("Barcollare");
    reveal_strlit("Calmare Emozioni");
    reveal_strlit("Cecità");
    reveal_strlit("Charme");
    reveal_strlit("Colpi Critici");
    reveal_strlit("Colpi critici");
    reveal_strlit("Condizione Affaticato");
    reveal_strlit("Condizione Esausto");
    reveal_strlit("Confusione");
    reveal_strlit("Congedo");
    reveal_strlit("Controllo Magico");
    reveal_strlit("Convocazione");
    reveal_strlit("Danni Non Letali");
    reveal_strlit("Danni alle caratteristiche");
    reveal_strlit("Danni contundenti");
    reveal_strlit("Danni da arma");
    reveal_strlit("Danni da armi");
    reveal_strlit("Danni dalle Armi");
    reveal_strlit("Danni e risucchi alle caratteristiche");
    reveal_strlit("Danni e risucchi di caratteristiche");
    reveal_strlit("Danni e risucchio alle Caratteristiche");
    reveal_strlit("Danni e risucchio di caratteristiche");
    reveal_strlit("Danni perforanti e taglienti");
    reveal_strlit("Danno alle Caratteristiche");
    reveal_strlit("Danno da Pressione");
    reveal_strlit("Danno da arma");
    reveal_strlit("Danno e risucchio alle caratteristiche");
    reveal_strlit("Danno non letale");
    reveal_strlit("Dardo Incantato");
    reveal_strlit("Demenza");
    reveal_strlit("Divinazione");
    reveal_strlit("Dolore");
    reveal_strlit("Effetti a completamento di incantesimo e ad attivazione di incantesimo");
    reveal_strlit("Effetti basati sulla vista");
    reveal_strlit("Effetti d'influenza mentale");
    reveal_strlit("Effetti di Charme e Compulsione");
    reveal_strlit("Effetti di Demenza");
    reveal_strlit("Effetti di Influenza Mentale");
    reveal_strlit("Effetti di Morte");
    reveal_strlit("Effetti di Paura");
    reveal_strlit("Effetti di Sonno");
    reveal_strlit("Effetti di charme");
    reveal_strlit("Effetti di charme e compulsioni");
    reveal_strlit("Effetti di confusione e follia");
    reveal_strlit("Effetti di dolore");
    reveal_strlit("Effetti di forza");
    reveal_strlit("Effetti di influenza mentale");
    reveal_strlit("Effetti di morte");
    reveal_strlit("Effetti di morte (vedi sotto)");
    reveal_strlit("Effetti di paura");
    reveal_strlit("Effetti di sonno");
    reveal_strlit("Effetti visivi");
    reveal_strlit("Elettricità");
    reveal_strlit("Elettricità (parziale)");
    reveal_strlit("Energia Negativa");
    reveal_strlit("Energia Positiva");
    reveal_strlit("Esaurimento");
    reveal_strlit("Esausto");
    reveal_strlit("Fatica");
    reveal_strlit("Fiancheggiamento");
    reveal_strlit("Forza");
    reveal_strlit("Frastornamento");
    reveal_strlit("Frastornato");
    reveal_strlit("Freddo");
    reveal_strlit("Freddo (sé stesso e chi lo cavalca)");
    reveal_strlit("Fuoco");
    reveal_strlit("Fuoco Infernale");
    reveal_strlit("Gas e vapori letali");
    reveal_strlit("Illusione");
    reveal_strlit("Illusioni e qualsiasi attacco basato sulla vista");
    reveal_strlit("Immunità agli Incantesimi");
    reveal_strlit("Immunità al Freddo");
    reveal_strlit("Immunità all'Annichilazione");
    reveal_strlit("Immunità all'Esilio");
    reveal_strlit("Immunità alla Magia");
    reveal_strlit("Immunità alla Perdita di Memoria");
    reveal_strlit("Immunità alle acque del Fiume Stige");
    reveal_strlit("Incalare Energia da Fonti Non Mitiche");
    reveal_strlit("Incantesimi di Ammaliamento e di Illusione");
    reveal_strlit("Incantesimi di Energia");
    reveal_strlit("Individuazione dei Pensieri");
    reveal_strlit("Individuazione dell'Allineamento");
    reveal_strlit("Infermità");
    reveal_strlit("Infermo");
    reveal_strlit("Invecchiamento");
    reveal_strlit("Labirinto");
    reveal_strlit("Lentezza");
    reveal_strlit("Livelli Negativi");
    reveal_strlit("Magia");
    reveal_strlit("Malattia");
    reveal_strlit("Malattie");
    reveal_strlit("Maledizioni");
    reveal_strlit("Metamorfosi");
    reveal_strlit("Nausea");
    reveal_strlit("Nauseato");
    reveal_strlit("Non Deformante");
    reveal_strlit("Padronanza delle Rune");
    reveal_strlit("Paralisi");
    reveal_strlit("Paura");
    reveal_strlit("Pietrificazione");
    reveal_strlit("Richiamo");
    reveal_strlit("Risucchi di Energia");
    reveal_strlit("Risucchi di Sangue");
    reveal_strlit("Risucchio di Caratteristiche");
    reveal_strlit("Risucchio di Energia");
    reveal_strlit("Rivela Bugie");
    reveal_strlit("Sanguinamento");
    reveal_strlit("Sanguinamento (solo Punti Ferita)");
    reveal_strlit("Scosso");
    reveal_strlit("Sguardo");
    reveal_strlit("Sonno");
    reveal_strlit("Sonoro");
    reveal_strlit("Sordità");
    reveal_strlit("Spaventato");
    reveal_strlit("Spostamento Planare");
    reveal_strlit("Stordimento");
    reveal_strlit("Tratti degli Elementali");
    reveal_strlit("Tratti degli Sciami");
    reveal_strlit("Tratti dei Costrutti");
    reveal_strlit("Tratti dei Draghi");
    reveal_strlit("Tratti dei Non Morti");
    reveal_strlit("Tratti dei Vegetali");
    reveal_strlit("Tratti delle Melme");
    reveal_strlit("Veleni");
    reveal_strlit("Veleno");
    reveal_strlit("Veleno Ingerito");
    reveal_strlit("acido");
    reveal_strlit("acque del Fiume Stige");
    reveal_strlit("attacchi basati sulla vista ed effetti visivi");
    reveal_strlit("attacchi con Sguardo");
    reveal_strlit("attacchi con lo Sguardo");
    reveal_strlit("attacchi con lo sguardo");
    reveal_strlit("charme");
    reveal_strlit("charme sui mostri");
    reveal_strlit("compulsione");
    reveal_strlit("controllo mentale");
    reveal_strlit("contundente");
    reveal_strlit("da caduta e da schiacciamento");
    reveal_strlit("danni alle Caratteristiche");
    reveal_strlit("danni alle caratteristiche");
    reveal_strlit("danni contundenti");
    reveal_strlit("danni contundenti e perforanti");
    reveal_strlit("danni da arma");
    reveal_strlit("danni da armi");
    reveal_strlit("danni da precisione");
    reveal_strlit("danni delle armi");
    reveal_strlit("danni di precisione");
    reveal_strlit("danni e risucchi di Caratteristiche");
    reveal_strlit("danni perforanti");
    reveal_strlit("danni taglienti");
    reveal_strlit("danni taglienti e perforanti");
    reveal_strlit("danno da arma");
    reveal_strlit("danno di precisione");
    reveal_strlit("di influenza mentale e basati sullo Sguardo");
    reveal_strlit("divinazione");
    reveal_strlit("dolore");
    reveal_strlit("effetti Barcollanti");
    reveal_strlit("effetti basati sulla vista");
    reveal_strlit("effetti che bersagliano uno specifico numero di creature");
    reveal_strlit("effetti di Charme e Compulsione");
    reveal_strlit("effetti di Metamorfosi");
    reveal_strlit("effetti di Paura");
    reveal_strlit("effetti di Paura ed influenza mentale");
    reveal_strlit("effetti di Sguardo");
    reveal_strlit("effetti di Sonno");
    reveal_strlit("effetti di ammaliamento");
    reveal_strlit("effetti di charme");
    reveal_strlit("effetti di charme e compulsione");
    reveal_strlit("effetti di charme e compulsioni");
    reveal_strlit("effetti di compulsione");
    reveal_strlit("effetti di confusione e demenza");
    reveal_strlit("effetti di demenza");
    reveal_strlit("effetti di influenza mentale");
    reveal_strlit("effetti di influenza mentale e visivi");
    reveal_strlit("effetti di luce");
    reveal_strlit("effetti di maledizione");
    reveal_strlit("effetti di maledizioni");
    reveal_strlit("effetti di metamorfosi");
    reveal_strlit("effetti di morte");
    reveal_strlit("effetti di necromanzia");
    reveal_strlit("effetti di paura");
    reveal_strlit("effetti di sguardo");
    reveal_strlit("effetti di sonno");
    reveal_strlit("effetti e illusioni visive");
    reveal_strlit("effetti polimorfi");
    reveal_strlit("effetti sensoriali");
    reveal_strlit("effetti visivi");
    reveal_strlit("effetti visivi e illusioni");
    reveal_strlit("elettricità");
    reveal_strlit("emozioni");
    reveal_strlit("energia negativa");
    reveal_strlit("ferite permanenti");
    reveal_strlit("forza");
    reveal_strlit("freddo");
    reveal_strlit("fulmine");
    reveal_strlit("fuoco");
    reveal_strlit("illusioni");
    reveal_strlit("illusioni visive");
    reveal_strlit("immunità alle acque del Fiume Stige");
    reveal_strlit("invecchiamento");
    reveal_strlit("livelli negativi");
    reveal_strlit("malattia");
    reveal_strlit("malattie");
    reveal_strlit("maledizioni");
    reveal_strlit("metamorfosi");
    reveal_strlit("nausea");
    reveal_strlit("palla di fuoco");
    reveal_strlit("paralisi");
    reveal_strlit("paura");
    reveal_strlit("pietrificazione");
    reveal_strlit("possessione");
    reveal_strlit("risucchi di caratteristiche");
    reveal_strlit("risucchi di energia");
    reveal_strlit("risucchio di caratteristica");
    reveal_strlit("risucchio di caratteristiche");
    reveal_strlit("risucchio di energia");
    reveal_strlit("ruggine");
    reveal_strlit("sanguinamento");
    reveal_strlit("scacciare");
    reveal_strlit("sonno");
    reveal_strlit("sonoro");
    reveal_strlit("sordità");
    reveal_strlit("stordimento");
    reveal_strlit("tratti dei Draghi");
    reveal_strlit("vapori e gas letali");
    reveal_strlit("veleni");
    reveal_strlit("veleno");
    reveal_strlit("visivi ed illusori");
    assert("Abbagliamenti"@.len() == 13);
    assert("Abbagliamento"@.len() == 13);
    assert("Abbagliato"@.len() == 10);
    assert("Accecato"@.len() == 8);
    assert("Acido"@.len() == 5);
    assert("Affaticamento"@.len() == 13);
    assert("Affaticato"@.len() == 10);
    assert("Ammaliamento"@.len() == 12);
    assert("Ancora Dimensionale"@.len() == 19);
    assert("Armi Taglienti"@.len() == 14);
    assert("Armi contundenti"@.len() == 16);
    assert("Assorbimento del Fuoco"@.len() == 22);
    assert("Attacchi Furtivi"@.len() == 16);
    assert("Attacchi ai Fianchi"@.len() == 19);
    assert("Attacchi basati sull'olfatto"@.len() == 28);
    assert("Attacchi basati sulla vista"@.len() == 27);
    assert("Attacchi basati sulla vista o sguardo"@.len() == 37);
    assert("Attacchi con Sguardo"@.len() == 20);
    assert("Attacchi con lo sguardo"@.len() == 23);
    assert("Attacchi dipendenti dalla vista"@.len() == 31);
    assert("Barcollante"@.len() == 11);
    assert("Barcollare"@.len() == 10);
    assert("Calmare Emozioni"@.len() == 16);
    assert("Cecità"@.len() == 6);
    assert("Charme"@.len() == 6);
    assert("Colpi Critici"@.len() == 13);
    assert("Colpi critici"@.len() == 13);
    assert("Condizione Affaticato"@.len() == 21);
    assert("Condizione Esausto"@.len() == 18);
    assert("Confusione"@.len() == 10);
    assert("Congedo"@.len() == 7);
    assert("Controllo Magico"@.len() == 16);
    assert("Convocazione"@.len() == 12);
    assert("Danni Non Letali"@.len() == 16);
    assert("Danni alle caratteristiche"@.len() == 26);
    assert("Danni contundenti"@.len() == 17);
    assert("Danni da arma"@.len() == 13);
    assert("Danni da armi"@.len() == 13);
    assert("Danni dalle Armi"@.len() == 16);
    assert("Danni e risucchi alle caratteristiche"@.len() == 37);
    assert("Danni e risucchi di caratteristiche"@.len() == 35);
    assert("Danni e risucchio alle Caratteristiche"@.len() == 38);
    assert("Danni e risucchio di caratteristiche"@.len() == 36);
    assert("Danni perforanti e taglienti"@.len() == 28);
    assert("Danno alle Caratteristiche"@.len() == 26);
    assert("Danno da Pressione"@.len() == 18);
    assert("Danno da arma"@.len() == 13);
    assert("Danno e risucchio alle caratteristiche"@.len() == 38);
    assert("Danno non letale"@.len() == 16);
    assert("Dardo Incantato"@.len() == 15);
    assert("Demenza"@.len() == 7);
    assert("Divinazione"@.len() == 11);
    assert("Dolore"@.len() == 6);
    assert("Effetti a completamento di incantesimo e ad attivazione di incantesimo"@.len() == 70);
    assert("Effetti basati sulla vista"@.len() == 26);
    assert("Effetti d'influenza mentale"@.len() == 27);
    assert("Effetti di Charme e Compulsione"@.len() == 31);
    assert("Effetti di Demenza"@.len() == 18);
    assert("Effetti di Influenza Mentale"@.len() == 28);
    assert("Effetti di Morte"@.len() == 16);
    assert("Effetti di Paura"@.len() == 16);
    assert("Effetti di Sonno"@.len() == 16);
    assert("Effetti di charme"@.len() == 17);
    assert("Effetti di charme e compulsioni"@.len() == 31);
    assert("Effetti di confusione e follia"@.len() == 30);
    assert("Effetti di dolore"@.len() == 17);
    assert("Effetti di forza"@.len() == 16);
    assert("Effetti di influenza mentale"@.len() == 28);
    assert("Effetti di morte"@.len() == 16);
    assert("Effetti di morte (vedi sotto)"@.len() == 29);
    assert("Effetti di paura"@.len() == 16);
    assert("Effetti di sonno"@.len() == 16);
    assert("Effetti visivi"@.len() == 14);
    assert("Elettricità"@.len() == 11);
    assert("Elettricità (parziale)"@.len() == 22);
    assert("Energia Negativa"@.len() == 16);
    assert("Energia Positiva"@.len() == 16);
    assert("Esaurimento"@.len() == 11);
    assert("Esausto"@.len() == 7);
    assert("Fatica"@.len() == 6);
    assert("Fiancheggiamento"@.len() == 16);
    assert("Forza"@.len() == 5);
    assert("Frastornamento"@.len() == 14);
    assert("Frastornato"@.len() == 11);
    assert("Freddo"@.len() == 6);
    assert("Freddo (sé stesso e chi lo cavalca)"@.len() == 35);
    assert("Fuoco"@.len() == 5);
    assert("Fuoco Infernale"@.len() == 15);
    assert("Gas e vapori letali"@.len() == 19);
    assert("Illusione"@.len() == 9);
    assert("Illusioni e qualsiasi attacco basato sulla vista"@.len() == 48);
    assert("Immunità agli Incantesimi"@.len() == 25);
    assert("Immunità al Freddo"@.len() == 18);
    assert("Immunità all'Annichilazione"@.len() == 27);
    assert("Immunità all'Esilio"@.len() == 19);
    assert("Immunità alla Magia"@.len() == 19);
    assert("Immunità alla Perdita di Memoria"@.len() == 32);
    assert("Immunità alle acque del Fiume Stige"@.len() == 35);
    assert("Incalare Energia da Fonti Non Mitiche"@.len() == 37);
    assert("Incantesimi di Ammaliamento e di Illusione"@.len() == 42);
    assert("Incantesimi di Energia"@.len() == 22);
    assert("Individuazione dei Pensieri"@.len() == 27);
    assert("Individuazione dell'Allineamento"@.len() == 32);
    assert("Infermità"@.len() == 9);
    assert("Infermo"@.len() == 7);
    assert("Invecchiamento"@.len() == 14);
    assert("Labirinto"@.len() == 9);
    assert("Lentezza"@.len() == 8);
    assert("Livelli Negativi"@.len() == 16);
    assert("Magia"@.len() == 5);
    assert("Malattia"@.len() == 8);
    assert("Malattie"@.len() == 8);
    assert("Maledizioni"@.len() == 11);
    assert("Metamorfosi"@.len() == 11);
    assert("Nausea"@.len() == 6);
    assert("Nauseato"@.len() == 8);
    assert("Non Deformante"@.len() == 14);
    assert("Padronanza delle Rune"@.len() == 21);
    assert("Paralisi"@.len() == 8);
    assert("Paura"@.len() == 5);
    assert("Pietrificazione"@.len() == 15);
    assert("Richiamo"@.len() == 8);
    assert("Risucchi di Energia"@.len() == 19);
    assert("Risucchi di Sangue"@.len() == 18);
    assert("Risucchio di Caratteristiche"@.len() == 28);
    assert("Risucchio di Energia"@.len() == 20);
    assert("Rivela Bugie"@.len() == 12);
    assert("Sanguinamento"@.len() == 13);
    assert("Sanguinamento (solo Punti Ferita)"@.len() == 33);
    assert("Scosso"@.len() == 6);
    assert("Sguardo"@.len() == 7);
    assert("Sonno"@.len() == 5);
    assert("Sonoro"@.len() == 6);
    assert("Sordità"@.len() == 7);
    assert("Spaventato"@.len() == 10);
    assert("Spostamento Planare"@.len() == 19);
    assert("Stordimento"@.len() == 11);
    assert("Tratti degli Elementali"@.len() == 23);
    assert("Tratti degli Sciami"@.len() == 19);
    assert("Tratti dei Costrutti"@.len() == 20);
    assert("Tratti dei Draghi"@.len() == 17);
    assert("Tratti dei Non Morti"@.len() == 20);
    assert("Tratti dei Vegetali"@.len() == 19);
    assert("Tratti delle Melme"@.len() == 18);
    assert("Veleni"@.len() == 6);
    assert("Veleno"@.len() == 6);
    assert("Veleno Ingerito"@.len() == 15);
    assert("acido"@.len() == 5);
    assert("acque del Fiume Stige"@.len() == 21);
    assert("attacchi basati sulla vista ed effetti visivi"@.len() == 45);
    assert("attacchi con Sguardo"@.len() == 20);
    assert("attacchi con lo Sguardo"@.len() == 23);
    assert("attacchi con lo sguardo"@.len() == 23);
    assert("charme"@.len() == 6);
    assert("charme sui mostri"@.len() == 17);
    assert("compulsione"@.len() == 11);
    assert("controllo mentale"@.len() == 17);
    assert("contundente"@.len() == 11);
    assert("da caduta e da schiacciamento"@.len() == 29);
    assert("danni alle Caratteristiche"@.len() == 26);
    assert("danni alle caratteristiche"@.len() == 26);
    assert("danni contundenti"@.len() == 17);
    assert("danni contundenti e perforanti"@.len() == 30);
    assert("danni da arma"@.len() == 13);
    assert("danni da armi"@.len() == 13);
    assert("danni da precisione"@.len() == 19);
    assert("danni delle armi"@.len() == 16);
    assert("danni di precisione"@.len() == 19);
    assert("danni e risucchi di Caratteristiche"@.len() == 35);
    assert("danni perforanti"@.len() == 16);
    assert("danni taglienti"@.len() == 15);
    assert("danni taglienti e perforanti"@.len() == 28);
    assert("danno da arma"@.len() == 13);
    assert("danno di precisione"@.len() == 19);
    assert("di influenza mentale e basati sullo Sguardo"@.len() == 43);
    assert("divinazione"@.len() == 11);
    assert("dolore"@.len() == 6);
    assert("effetti Barcollanti"@.len() == 19);
    assert("effetti basati sulla vista"@.len() == 26);
    assert("effetti che bersagliano uno specifico numero di creature"@.len() == 56);
    assert("effetti di Charme e Compulsione"@.len() == 31);
    assert("effetti di Metamorfosi"@.len() == 22);
    assert("effetti di Paura"@.len() == 16);
    assert("effetti di Paura ed influenza mentale"@.len() == 37);
    assert("effetti di Sguardo"@.len() == 18);
    assert("effetti di Sonno"@.len() == 16);
    assert("effetti di ammaliamento"@.len() == 23);
    assert("effetti di charme"@.len() == 17);
    assert("effetti di charme e compulsione"@.len() == 31);
    assert("effetti di charme e compulsioni"@.len() == 31);
    assert("effetti di compulsione"@.len() == 22);
    assert("effetti di confusione e demenza"@.len() == 31);
    assert("effetti di demenza"@.len() == 18);
    assert("effetti di influenza mentale"@.len() == 28);
    assert("effetti di influenza mentale e visivi"@.len() == 37);
    assert("effetti di luce"@.len() == 15);
    assert("effetti di maledizione"@.len() == 22);
    assert("effetti di maledizioni"@.len() == 22);
    assert("effetti di metamorfosi"@.len() == 22);
    assert("effetti di morte"@.len() == 16);
    assert("effetti di necromanzia"@.len() == 22);
    assert("effetti di paura"@.len() == 16);
    assert("effetti di sguardo"@.len() == 18);
    assert("effetti di sonno"@.len() == 16);
    assert("effetti e illusioni visive"@.len() == 26);
    assert("effetti polimorfi"@.len() == 17);
    assert("effetti sensoriali"@.len() == 18);
    assert("effetti visivi"@.len() == 14);
    assert("effetti visivi e illusioni"@.len() == 26);
    assert("elettricità"@.len() == 11);
    assert("emozioni"@.len() == 8);
    assert("energia negativa"@.len() == 16);
    assert("ferite permanenti"@.len() == 17);
    assert("forza"@.len() == 5);
    assert("freddo"@.len() == 6);
    assert("fulmine"@.len() == 7);
    assert("fuoco"@.len() == 5);
    assert("illusioni"@.len() == 9);
    assert("illusioni visive"@.len() == 16);
    assert("immunità alle acque del Fiume Stige"@.len() == 35);
    assert("invecchiamento"@.len() == 14);
    assert("livelli negativi"@.len() == 16);
    assert("malattia"@.len() == 8);
    assert("malattie"@.len() == 8);
    assert("maledizioni"@.len() == 11);
    assert("metamorfosi"@.len() == 11);
    assert("nausea"@.len() == 6);
    assert("palla di fuoco"@.len() == 14);
    assert("paralisi"@.len() == 8);
    assert("paura"@.len() == 5);
    assert("pietrificazione"@.len() == 15);
    assert("possessione"@.len() == 11);
    assert("risucchi di caratteristiche"@.len() == 27);
    assert("risucchi di energia"@.len() == 19);
    assert("risucchio di caratteristica"@.len() == 27);
    assert("risucchio di caratteristiche"@.len() == 28);
    assert("risucchio di energia"@.len() == 20);
    assert("ruggine"@.len() == 7);
    assert("sanguinamento"@.len() == 13);
    assert("scacciare"@.len() == 9);
    assert("sonno"@.len() == 5);
    assert("sonoro"@.len() == 6);
    assert("sordità"@.len() == 7);
    assert("stordimento"@.len() == 11);
    assert("tratti dei Draghi"@.len() == 17);
    assert("vapori e gas letali"@.len() == 19);
    assert("veleni"@.len() == 6);
    assert("veleno"@.len() == 6);
    assert("visivi ed illusori"@.len() == 18);
    assert("Gas e vapori letali"@[0] != "effetti Barcollanti"@[0]);
    assert("Gas e vapori letali"@ != "effetti Barcollanti"@);
    assert("Gas e vapori letali"@[0] != "Immunità alla Magia"@[0]);
    assert("Gas e vapori letali"@ != "Immunità alla Magia"@);
    assert("Gas e vapori letali"@[0] != "danno di precisione"@[0]);
    assert("Gas e vapori letali"@ != "danno di precisione"@);
    assert("Gas e vapori letali"@[0] != "danni da precisione"@[0]);
    assert("Gas e vapori letali"@ != "danni da precisione"@);
    assert("Gas e vapori letali"@[0] != "danni di precisione"@[0]);
    assert("Gas e vapori letali"@ != "danni di precisione"@);
    assert("Gas e vapori letali"@[0] != "Attacchi ai Fianchi"@[0]);
    assert("Gas e vapori letali"@ != "Attacchi ai Fianchi"@);
    assert("Gas e vapori letali"@[0] != "Immunità all'Esilio"@[0]);
    assert("Gas e vapori letali"@ != "Immunità all'Esilio"@);
    assert("Gas e vapori letali"@[0] != "Ancora Dimensionale"@[0]);
    assert("Gas e vapori letali"@ != "Ancora Dimensionale"@);
    assert("Gas e vapori letali"@[0] != "Risucchi di Energia"@[0]);
    assert("Gas e vapori letali"@ != "Risucchi di Energia"@);
    assert("Gas e vapori letali"@[0] != "risucchi di energia"@[0]);
    assert("Gas e vapori letali"@ != "risucchi di energia"@);
    assert("Gas e vapori letali"@[0] != "Tratti degli Sciami"@[0]);
    assert("Gas e vapori letali"@ != "Tratti degli Sciami"@);
    assert("Gas e vapori letali"@[0] != "Tratti dei Vegetali"@[0]);
    assert("Gas e vapori letali"@ != "Tratti dei Vegetali"@);
    assert("Gas e vapori letali"@[0] != "Spostamento Planare"@[0]);
    assert("Gas e vapori letali"@ != "Spostamento Planare"@);
    assert("vapori e gas letali"@[0] != "effetti Barcollanti"@[0]);
    assert("vapori e gas letali"@ != "effetti Barcollanti"@);
    assert("vapori e gas letali"@[0] != "Immunità alla Magia"@[0]);
    assert("vapori e gas letali"@ != "Immunità alla Magia"@);
    assert("vapori e gas letali"@[0] != "danno di precisione"@[0]);
    assert("vapori e gas letali"@ != "danno di precisione"@);
    assert("vapori e gas letali"@[0] != "danni da precisione"@[0]);
    assert("vapori e gas letali"@ != "danni da precisione"@);
    assert("vapori e gas letali"@[0] != "danni di precisione"@[0]);
    assert("vapori e gas letali"@ != "danni di precisione"@);
    assert("vapori e gas letali"@[0] != "Attacchi ai Fianchi"@[0]);
    assert("vapori e gas letali"@ != "Attacchi ai Fianchi"@);
    assert("vapori e gas letali"@[0] != "Immunità all'Esilio"@[0]);
    assert("vapori e gas letali"@ != "Immunità all'Esilio"@);
    assert("vapori e gas letali"@[0] != "Ancora Dimensionale"@[0]);
    assert("vapori e gas letali"@ != "Ancora Dimensionale"@);
    assert("vapori e gas letali"@[0] != "Risucchi di Energia"@[0]);
    assert("vapori e gas letali"@ != "Risucchi di Energia"@);
    assert("vapori e gas letali"@[0] != "risucchi di energia"@[0]);
    assert("vapori e gas letali"@ != "risucchi di energia"@);
    assert("vapori e gas letali"@[0] != "Tratti degli Sciami"@[0]);
    assert("vapori e gas letali"@ != "Tratti degli Sciami"@);
    assert("vapori e gas letali"@[0] != "Tratti dei Vegetali"@[0]);
    assert("vapori e gas letali"@ != "Tratti dei Vegetali"@);
    assert("vapori e gas letali"@[0] != "Spostamento Planare"@[0]);
    assert("vapori e gas letali"@ != "Spostamento Planare"@);
    assert("vapori e gas letali"@[0] != "Gas e vapori letali"@[0]);
    assert("vapori e gas letali"@ != "Gas e vapori letali"@);
}

proof fn lemma_read_immunity_protectfromenergy(s: Seq<char>)
    requires
        immunity_named(Immunity_Type::Immunity_ProtectFromEnergy, s),
    ensures
        spec_single_immunity(s) == Some(Immunity_Type::Immunity_ProtectFromEnergy),
{
    reveal_strlit("Abbagliamenti");
    reveal_strlit("Abbagliamento");
    reveal_strlit("Abbagliato");
    reveal_strlit("Accecato");
    reveal_strlit("Acido");
    reveal_strlit("Affaticamento");
    reveal_strlit("Affaticato");
    reveal_strlit("Ammaliamento");
    reveal_strlit("Ancora Dimensionale");
    reveal_strlit("Armi Taglienti");
    reveal_strlit("Armi contundenti");
    reveal_strlit("Assorbimento del Fuoco");
    reveal_strlit("Attacchi Furtivi");
    reveal_strlit("Attacchi ai Fianchi");
    reveal_strlit("Attacchi basati sull'olfatto");
    reveal_strlit("Attacchi basati sulla vista");
    reveal_strlit("Attacchi basati sulla vista o sguardo");
    reveal_strlit("Attacchi con Sguardo");
    reveal_strlit("Attacchi con lo sguardo");
    reveal_strlit("Attacchi dipendenti dalla vista");
    reveal_strlit("Barcollante");
    reveal_strlit("Barcollare");
    reveal_strlit("Calmare Emozioni");
    reveal_strlit("Cecità");
    reveal_strlit("Charme");
    reveal_strlit("Colpi Critici");
    reveal_strlit("Colpi critici");
    reveal_strlit("Condizione Affaticato");
    reveal_strlit("Condizione Esausto");
    reveal_strlit("Confusione");
    reveal_strlit("Congedo");
    reveal_strlit("Controllo Magico");
    reveal_strlit("Convocazione");
    reveal_strlit("Danni Non Letali");
    reveal_strlit("Danni alle caratteristiche");
    reveal_strlit("Danni contundenti");
    reveal_strlit("Danni da arma");
    reveal_strlit("Danni da armi");
    reveal_strlit("Danni dalle Armi");
    reveal_strlit("Danni e risucchi alle caratteristiche");
    reveal_strlit("Danni e risucchi di caratteristiche");
    reveal_strlit("Danni e risucchio alle Caratteristiche");
    reveal_strlit("Danni e risucchio di caratteristiche");
    reveal_strlit("Danni perforanti e taglienti");
    reveal_strlit("Danno alle Caratteristiche");
    reveal_strlit("Danno da Pressione");
    reveal_strlit("Danno da arma");
    reveal_strlit("Danno e risucchio alle caratteristiche");
    reveal_strlit("Danno non letale");
    reveal_strlit("Dardo Incantato");
    reveal_strlit("Demenza");
    reveal_strlit("Divinazione");
    reveal_strlit("Dolore");
    reveal_strlit("Effetti a completamento di incantesimo e ad attivazione di incantesimo");
    reveal_strlit("Effetti basati sulla vista");
    reveal_strlit("Effetti d'influenza mentale");
    reveal_strlit("Effetti di Charme e Compulsione");
    reveal_strlit("Effetti di Demenza");
    reveal_strlit("Effetti di Influenza Mentale");
    reveal_strlit("Effetti di Morte");
    reveal_strlit("Effetti di Paura");
    reveal_strlit("Effetti di Sonno");
    reveal_strlit("Effetti di charme");
    reveal_strlit("Effetti di charme e compulsioni");
    reveal_strlit("Effetti di confusione e follia");
    reveal_strlit("Effetti di dolore");
    reveal_strlit("Effetti di forza");
    reveal_strlit("Effetti di influenza mentale");
    reveal_strlit("Effetti di morte");
    reveal_strlit("Effetti di morte (vedi sotto)");
    reveal_strlit("Effetti di paura");
    reveal_strlit("Effetti di sonno");
    reveal_strlit("Effetti visivi");
    reveal_strlit("Elettricità");
    reveal_strlit("Elettricità (120 punti)");
    reveal_strlit("Elettricità (parziale)");
    reveal_strlit("Energia Negativa");
    reveal_strlit("Energia Positiva");
    reveal_strlit("Esaurimento");
    reveal_strlit("Esausto");
    reveal_strlit("Fatica");
    reveal_strlit("Fiancheggiamento");
    reveal_strlit("Forza");
    reveal_strlit("Frastornamento");
    reveal_strlit("Frastornato");
    reveal_strlit("Freddo");
    reveal_strlit("Freddo (120 punti)");
    reveal_strlit("Freddo (sé stesso e chi lo cavalca)");
    reveal_strlit("Fuoco");
    reveal_strlit("Fuoco (108 punti)");
    reveal_strlit("Fuoco (120 punti)");
    reveal_strlit("Fuoco (60 punti)");
    reveal_strlit("Fuoco (96 punti)");
    reveal_strlit("Fuoco Infernale");
    reveal_strlit("Gas e vapori letali");
    reveal_strlit("Illusione");
    reveal_strlit("Illusioni e qualsiasi attacco basato sulla vista");
    reveal_strlit("Immunità agli Incantesimi");
    reveal_strlit("Immunità al Freddo");
    reveal_strlit("Immunità all'Annichilazione");
    reveal_strlit("Immunità all'Esilio");
    reveal_strlit("Immunità alla Magia");
    reveal_strlit("Immunità alla Perdita di Memoria");
    reveal_strlit("Immunità alle acque del Fiume Stige");
    reveal_strlit("Incalare Energia da Fonti Non Mitiche");
    reveal_strlit("Incantesimi di Ammaliamento e di Illusione");
    reveal_strlit("Incantesimi di Energia");
    reveal_strlit("Individuazione dei Pensieri");
    reveal_strlit("Individuazione dell'Allineamento");
    reveal_strlit("Infermità");
    reveal_strlit("Infermo");
    reveal_strlit("Invecchiamento");
    reveal_strlit("Labirinto");
    reveal_strlit("Lentezza");
    reveal_strlit("Livelli Negativi");
    reveal_strlit("Magia");
    reveal_strlit("Malattia");
    reveal_strlit("Malattie");
    reveal_strlit("Maledizioni");
    reveal_strlit("Metamorfosi");
    reveal_strlit("Nausea");
    reveal_strlit("Nauseato");
    reveal_strlit("Non Deformante");
    reveal_strlit("Padronanza delle Rune");
    reveal_strlit("Paralisi");
    reveal_strlit("Paura");
    reveal_strlit("Pietrificazione");
    reveal_strlit("Richiamo");
    reveal_strlit("Risucchi di Energia");
    reveal_strlit("Risucchi di Sangue");
    reveal_strlit("Risucchio di Caratteristiche");
    reveal_strlit("Risucchio di Energia");
    reveal_strlit("Rivela Bugie");
    reveal_strlit("Sanguinamento");
    reveal_strlit("Sanguinamento (solo Punti Ferita)");
    reveal_strlit("Scosso");
    reveal_strlit("Sguardo");
    reveal_strlit("Sonno");
    reveal_strlit("Sonoro");
    reveal_strlit("Sordità");
    reveal_strlit("Spaventato");
    reveal_strlit("Spostamento Planare");
    reveal_strlit("Stordimento");
    reveal_strlit("Tratti degli Elementali");
    reveal_strlit("Tratti degli Sciami");
    reveal_strlit("Tratti dei Costrutti");
    reveal_strlit("Tratti dei Draghi");
    reveal_strlit("Tratti dei Non Morti");
    reveal_strlit("Tratti dei Vegetali");
    reveal_strlit("Tratti delle Melme");
    reveal_strlit("Veleni");
    reveal_strlit("Veleno");
    reveal_strlit("Veleno Ingerito");
    reveal_strlit("acido");
    reveal_strlit("acque del Fiume Stige");
    reveal_strlit("attacchi basati sulla vista ed effetti visivi");
    reveal_strlit("attacchi con Sguardo");
    reveal_strlit("attacchi con lo Sguardo");
    reveal_strlit("attacchi con lo sguardo");
    reveal_strlit("charme");
    reveal_strlit("charme sui mostri");
    reveal_strlit("compulsione");
    reveal_strlit("controllo mentale");
    reveal_strlit("contundente");
    reveal_strlit("da caduta e da schiacciamento");
    reveal_strlit("danni alle Caratteristiche");
    reveal_strlit("danni alle caratteristiche");
    reveal_strlit("danni contundenti");
    reveal_strlit("danni contundenti e perforanti");
    reveal_strlit("danni da arma");
    reveal_strlit("danni da armi");
    reveal_strlit("danni da precisione");
    reveal_strlit("danni delle armi");
    reveal_strlit("danni di precisione");
    reveal_strlit("danni e risucchi di Caratteristiche");
    reveal_strlit("danni perforanti");
    reveal_strlit("danni taglienti");
    reveal_strlit("danni taglienti e perforanti");
    reveal_strlit("danno da arma");
    reveal_strlit("danno di precisione");
    reveal_strlit("di influenza mentale e basati sullo Sguardo");
    reveal_strlit("divinazione");
    reveal_strlit("dolore");
    reveal_strlit("effetti Barcollanti");
    reveal_strlit("effetti basati sulla vista");
    reveal_strlit("effetti che bersagliano uno specifico numero di creature");
    reveal_strlit("effetti di Charme e Compulsione");
    reveal_strlit("effetti di Metamorfosi");
    reveal_strlit("effetti di Paura");
    reveal_strlit("effetti di Paura ed influenza mentale");
    reveal_strlit("effetti di Sguardo");
    reveal_strlit("effetti di Sonno");
    reveal_strlit("effetti di ammaliamento");
    reveal_strlit("effetti di charme");
    reveal_strlit("effetti di charme e compulsione");
    reveal_strlit("effetti di charme e compulsioni");
    reveal_strlit("effetti di compulsione");
    reveal_strlit("effetti di confusione e demenza");
    reveal_strlit("effetti di demenza");
    reveal_strlit("effetti di influenza mentale");
    reveal_strlit("effetti di influenza mentale e visivi");
    reveal_strlit("effetti di luce");
    reveal_strlit("effetti di maledizione");
    reveal_strlit("effetti di maledizioni");
    reveal_strlit("effetti di metamorfosi");
    reveal_strlit("effetti di morte");
    reveal_strlit("effetti di necromanzia");
    reveal_strlit("effetti di paura");
    reveal_strlit("effetti di sguardo");
    reveal_strlit("effetti di sonno");
    reveal_strlit("effetti e illusioni visive");
    reveal_strlit("effetti polimorfi");
    reveal_strlit("effetti sensoriali");
    reveal_strlit("effetti visivi");
    reveal_strlit("effetti visivi e illusioni");
    reveal_strlit("elettricità");
    reveal_strlit("emozioni");
    reveal_strlit("energia negativa");
    reveal_strlit("ferite permanenti");
    reveal_strlit("forza");
    reveal_strlit("freddo");
    reveal_strlit("fulmine");
    reveal_strlit("fuoco");
    reveal_strlit("fuoco (120 punti)");
    reveal_strlit("illusioni");
    reveal_strlit("illusioni visive");
    reveal_strlit("immunità alle acque del Fiume Stige");
    reveal_strlit("invecchiamento");
    reveal_strlit("livelli negativi");
    reveal_strlit("malattia");
    reveal_strlit("malattie");
    reveal_strlit("maledizioni");
    reveal_strlit("metamorfosi");
    reveal_strlit("nausea");
    reveal_strlit("palla di fuoco");
    reveal_strlit("paralisi");
    reveal_strlit("paura");
    reveal_strlit("pietrificazione");
    reveal_strlit("possessione");
    reveal_strlit("risucchi di caratteristiche");
    reveal_strlit("risucchi di energia");
    reveal_strlit("risucchio di caratteristica");
    reveal_strlit("risucchio di caratteristiche");
    reveal_strlit("risucchio di energia");
    reveal_strlit("ruggine");
    reveal_strlit("sanguinamento");
    reveal_strlit("scacciare");
    reveal_strlit("sonno");
    reveal_strlit("sonoro");
    reveal_strlit("sordità");
    reveal_strlit("stordimento");
    reveal_strlit("tratti dei Draghi");
    reveal_strlit("vapori e gas letali");
    reveal_strlit("veleni");
    reveal_strlit("veleno");
    reveal_strlit("visivi ed illusori");
    assert("Abbagliamenti"@.len() == 13);
    assert("Abbagliamento"@.len() == 13);
    assert("Abbagliato"@.len() == 10);
    assert("Accecato"@.len() == 8);
    assert("Acido"@.len() == 5);
    assert("Affaticamento"@.len() == 13);
    assert("Affaticato"@.len() == 10);
    assert("Ammaliamento"@.len() == 12);
    assert("Ancora Dimensionale"@.len() == 19);
    assert("Armi Taglienti"@.len() == 14);
    assert("Armi contundenti"@.len() == 16);
    assert("Assorbimento del Fuoco"@.len() == 22);
    assert("Attacchi Furtivi"@.len() == 16);
    assert("Attacchi ai Fianchi"@.len() == 19);
    assert("Attacchi basati sull'olfatto"@.len() == 28);
    assert("Attacchi basati sulla vista"@.len() == 27);
    assert("Attacchi basati sulla vista o sguardo"@.len() == 37);
    assert("Attacchi con Sguardo"@.len() == 20);
    assert("Attacchi con lo sguardo"@.len() == 23);
    assert("Attacchi dipendenti dalla vista"@.len() == 31);
    assert("Barcollante"@.len() == 11);
    assert("Barcollare"@.len() == 10);
    assert("Calmare Emozioni"@.len() == 16);
    assert("Cecità"@.len() == 6);
    assert("Charme"@.len() == 6);
    assert("Colpi Critici"@.len() == 13);
    assert("Colpi critici"@.len() == 13);
    assert("Condizione Affaticato"@.len() == 21);
    assert("Condizione Esausto"@.len() == 18);
    assert("Confusione"@.len() == 10);
    assert("Congedo"@.len() == 7);
    assert("Controllo Magico"@.len() == 16);
    assert("Convocazione"@.len() == 12);
    assert("Danni Non Letali"@.len() == 16);
    assert("Danni alle caratteristiche"@.len() == 26);
    assert("Danni contundenti"@.len() == 17);
    assert("Danni da arma"@.len() == 13);
    assert("Danni da armi"@.len() == 13);
    assert("Danni dalle Armi"@.len() == 16);
    assert("Danni e risucchi alle caratteristiche"@.len() == 37);
    assert("Danni e risucchi di caratteristiche"@.len() == 35);
    assert("Danni e risucchio alle Caratteristiche"@.len() == 38);
    assert("Danni e risucchio di caratteristiche"@.len() == 36);
    assert("Danni perforanti e taglienti"@.len() == 28);
    assert("Danno alle Caratteristiche"@.len() == 26);
    assert("Danno da Pressione"@.len() == 18);
    assert("Danno da arma"@.len() == 13);
    assert("Danno e risucchio alle caratteristiche"@.len() == 38);
    assert("Danno non letale"@.len() == 16);
    assert("Dardo Incantato"@.len() == 15);
    assert("Demenza"@.len() == 7);
    assert("Divinazione"@.len() == 11);
    assert("Dolore"@.len() == 6);
    assert("Effetti a completamento di incantesimo e ad attivazione di incantesimo"@.len() == 70);
    assert("Effetti basati sulla vista"@.len() == 26);
    assert("Effetti d'influenza mentale"@.len() == 27);
    assert("Effetti di Charme e Compulsione"@.len() == 31);
    assert("Effetti di Demenza"@.len() == 18);
    assert("Effetti di Influenza Mentale"@.len() == 28);
    assert("Effetti di Morte"@.len() == 16);
    assert("Effetti di Paura"@.len() == 16);
    assert("Effetti di Sonno"@.len() == 16);
    assert("Effetti di charme"@.len() == 17);
    assert("Effetti di charme e compulsioni"@.len() == 31);
    assert("Effetti di confusione e follia"@.len() == 30);
    assert("Effetti di dolore"@.len() == 17);
    assert("Effetti di forza"@.len() == 16);
    assert("Effetti di influenza mentale"@.len() == 28);
    assert("Effetti di morte"@.len() == 16);
    assert("Effetti di morte (vedi sotto)"@.len() == 29);
    assert("Effetti di paura"@.len() == 16);
    assert("Effetti di sonno"@.len() == 16);
    assert("Effetti visivi"@.len() == 14);
    assert("Elettricità"@.len() == 11);
    assert("Elettricità (120 punti)"@.len() == 23);
    assert("Elettricità (parziale)"@.len() == 22);
    assert("Energia Negativa"@.len() == 16);
    assert("Energia Positiva"@.len() == 16);
    assert("Esaurimento"@.len() == 11);
    assert("Esausto"@.len() == 7);
    assert("Fatica"@.len() == 6);
    assert("Fiancheggiamento"@.len() == 16);
    assert("Forza"@.len() == 5);
    assert("Frastornamento"@.len() == 14);
    assert("Frastornato"@.len() == 11);
    assert("Freddo"@.len() == 6);
    assert("Freddo (120 punti)"@.len() == 18);
    assert("Freddo (sé stesso e chi lo cavalca)"@.len() == 35);
    assert("Fuoco"@.len() == 5);
    assert("Fuoco (108 punti)"@.len() == 17);
    assert("Fuoco (120 punti)"@.len() == 17);
    assert("Fuoco (60 punti)"@.len() == 16);
    assert("Fuoco (96 punti)"@.len() == 16);
    assert("Fuoco Infernale"@.len() == 15);
    assert("Gas e vapori letali"@.len() == 19);
    assert("Illusione"@.len() == 9);
    assert("Illusioni e qualsiasi attacco basato sulla vista"@.len() == 48);
    assert("Immunità agli Incantesimi"@.len() == 25);
    assert("Immunità al Freddo"@.len() == 18);
    assert("Immunità all'Annichilazione"@.len() == 27);
    assert("Immunità all'Esilio"@.len() == 19);
    assert("Immunità alla Magia"@.len() == 19);
    assert("Immunità alla Perdita di Memoria"@.len() == 32);
    assert("Immunità alle acque del Fiume Stige"@.len() == 35);
    assert("Incalare Energia da Fonti Non Mitiche"@.len() == 37);
    assert("Incantesimi di Ammaliamento e di Illusione"@.len() == 42);
    assert("Incantesimi di Energia"@.len() == 22);
    assert("Individuazione dei Pensieri"@.len() == 27);
    assert("Individuazione dell'Allineamento"@.len() == 32);
    assert("Infermità"@.len() == 9);
    assert("Infermo"@.len() == 7);
    assert("Invecchiamento"@.len() == 14);
    assert("Labirinto"@.len() == 9);
    assert("Lentezza"@.len() == 8);
    assert("Livelli Negativi"@.len() == 16);
    assert("Magia"@.len() == 5);
    assert("Malattia"@.len() == 8);
    assert("Malattie"@.len() == 8);
    assert("Maledizioni"@.len() == 11);
    assert("Metamorfosi"@.len() == 11);
    assert("Nausea"@.len() == 6);
    assert("Nauseato"@.len() == 8);
    assert("Non Deformante"@.len() == 14);
    assert("Padronanza delle Rune"@.len() == 21);
    assert("Paralisi"@.len() == 8);
    assert("Paura"@.len() == 5);
    assert("Pietrificazione"@.len() == 15);
    assert("Richiamo"@.len() == 8);
    assert("Risucchi di Energia"@.len() == 19);
    assert("Risucchi di Sangue"@.len() == 18);
    assert("Risucchio di Caratteristiche"@.len() == 28);
    assert("Risucchio di Energia"@.len() == 20);
    assert("Rivela Bugie"@.len() == 12);
    assert("Sanguinamento"@.len() == 13);
    assert("Sanguinamento (solo Punti Ferita)"@.len() == 33);
    assert("Scosso"@.len() == 6);
    assert("Sguardo"@.len() == 7);
    assert("Sonno"@.len() == 5);
    assert("Sonoro"@.len() == 6);
    assert("Sordità"@.len() == 7);
    assert("Spaventato"@.len() == 10);
    assert("Spostamento Planare"@.len() == 19);
    assert("Stordimento"@.len() == 11);
    assert("Tratti degli Elementali"@.len() == 23);
    assert("Tratti degli Sciami"@.len() == 19);
    assert("Tratti dei Costrutti"@.len() == 20);
    assert("Tratti dei Draghi"@.len() == 17);
    assert("Tratti dei Non Morti"@.len() == 20);
    assert("Tratti dei Vegetali"@.len() == 19);
    assert("Tratti delle Melme"@.len() == 18);
    assert("Veleni"@.len() == 6);
    assert("Veleno"@.len() == 6);
    assert("Veleno Ingerito"@.len() == 15);
    assert("acido"@.len() == 5);
    assert("acque del Fiume Stige"@.len() == 21);
    assert("attacchi basati sulla vista ed effetti visivi"@.len() == 45);
    assert("attacchi con Sguardo"@.len() == 20);
    assert("attacchi con lo Sguardo"@.len() == 23);
    assert("attacchi con lo sguardo"@.len() == 23);
    assert("charme"@.len() == 6);
    assert("charme sui mostri"@.len() == 17);
    assert("compulsione"@.len() == 11);
    assert("controllo mentale"@.len() == 17);
    assert("contundente"@.len() == 11);
    assert("da caduta e da schiacciamento"@.len() == 29);
    assert("danni alle Caratteristiche"@.len() == 26);
    assert("danni alle caratteristiche"@.len() == 26);
    assert("danni contundenti"@.len() == 17);
    assert("danni contundenti e perforanti"@.len() == 30);
    assert("danni da arma"@.len() == 13);
    assert("danni da armi"@.len() == 13);
    assert("danni da precisione"@.len() == 19);
    assert("danni delle armi"@.len() == 16);
    assert("danni di precisione"@.len() == 19);
    assert("danni e risucchi di Caratteristiche"@.len() == 35);
    assert("danni perforanti"@.len() == 16);
    assert("danni taglienti"@.len() == 15);
    assert("danni taglienti e perforanti"@.len() == 28);
    assert("danno da arma"@.len() == 13);
    assert("danno di precisione"@.len() == 19);
    assert("di influenza mentale e basati sullo Sguardo"@.len() == 43);
    assert("divinazione"@.len() == 11);
    assert("dolore"@.len() == 6);
    assert("effetti Barcollanti"@.len() == 19);
    assert("effetti basati sulla vista"@.len() == 26);
    assert("effetti che bersagliano uno specifico numero di creature"@.len() == 56);
    assert("effetti di Charme e Compulsione"@.len() == 31);
    assert("effetti di Metamorfosi"@.len() == 22);
    assert("effetti di Paura"@.len() == 16);
    assert("effetti di Paura ed influenza mentale"@.len() == 37);
    assert("effetti di Sguardo"@.len() == 18);
    assert("effetti di Sonno"@.len() == 16);
    assert("effetti di ammaliamento"@.len() == 23);
    assert("effetti di charme"@.len() == 17);
    assert("effetti di charme e compulsione"@.len() == 31);
    assert("effetti di charme e compulsioni"@.len() == 31);
    assert("effetti di compulsione"@.len() == 22);
    assert("effetti di confusione e demenza"@.len() == 31);
    assert("effetti di demenza"@.len() == 18);
    assert("effetti di influenza mentale"@.len() == 28);
    assert("effetti di influenza mentale e visivi"@.len() == 37);
    assert("effetti di luce"@.len() == 15);
    assert("effetti di maledizione"@.len() == 22);
    assert("effetti di maledizioni"@.len() == 22);
    assert("effetti di metamorfosi"@.len() == 22);
    assert("effetti di morte"@.len() == 16);
    assert("effetti di necromanzia"@.len() == 22);
    assert("effetti di paura"@.len() == 16);
    assert("effetti di sguardo"@.len() == 18);
    assert("effetti di sonno"@.len() == 16);
    assert("effetti e illusioni visive"@.len() == 26);
    assert("effetti polimorfi"@.len() == 17);
    assert("effetti sensoriali"@.len() == 18);
    assert("effetti visivi"@.len() == 14);
    assert("effetti visivi e illusioni"@.len() == 26);
    assert("elettricità"@.len() == 11);
    assert("emozioni"@.len() == 8);
    assert("energia negativa"@.len() == 16);
    assert("ferite permanenti"@.len() == 17);
    assert("forza"@.len() == 5);
    assert("freddo"@.len() == 6);
    assert("fulmine"@.len() == 7);
    assert("fuoco"@.len() == 5);
    assert("fuoco (120 punti)"@.len() == 17);
    assert("illusioni"@.len() == 9);
    assert("illusioni visive"@.len() == 16);
    assert("immunità alle acque del Fiume Stige"@.len() == 35);
    assert("invecchiamento"@.len() == 14);
    assert("livelli negativi"@.len() == 16);
    assert("malattia"@.len() == 8);
    assert("malattie"@.len() == 8);
    assert("maledizioni"@.len() == 11);
    assert("metamorfosi"@.len() == 11);
    assert("nausea"@.len() == 6);
    assert("palla di fuoco"@.len() == 14);
    assert("paralisi"@.len() == 8);
    assert("paura"@.len() == 5);
    assert("pietrificazione"@.len() == 15);
    assert("possessione"@.len() == 11);
    assert("risucchi di caratteristiche"@.len() == 27);
    assert("risucchi di energia"@.len() == 19);
    assert("risucchio di caratteristica"@.len() == 27);
    assert("risucchio di caratteristiche"@.len() == 28);
    assert("risucchio di energia"@.len() == 20);
    assert("ruggine"@.len() == 7);
    assert("sanguinamento"@.len() == 13);
    assert("scacciare"@.len() == 9);
    assert("sonno"@.len() == 5);
    assert("sonoro"@.len() == 6);
    assert("sordità"@.len() == 7);
    assert("stordimento"@.len() == 11);
    assert("tratti dei Draghi"@.len() == 17);
    assert("vapori e gas letali"@.len() == 19);
    assert("veleni"@.len() == 6);
    assert("veleno"@.len() == 6);
    assert("visivi ed illusori"@.len() == 18);
    assert("Fuoco (60 punti)"@[0] != "Energia Negativa"@[0]);
    assert("Fuoco (60 punti)"@ != "Energia Negativa"@);
    assert("Fuoco (60 punti)"@[0] != "energia negativa"@[0]);
    assert("Fuoco (60 punti)"@ != "energia negativa"@);
    assert("Fuoco (60 punti)"@[0] != "Energia Positiva"@[0]);
    assert("Fuoco (60 punti)"@ != "Energia Positiva"@);
    assert("Fuoco (60 punti)"@[0] != "energia negativa"@[0]);
    assert("Fuoco (60 punti)"@ != "energia negativa"@);
    assert("Fuoco (60 punti)"@[0] != "effetti di sonno"@[0]);
    assert("Fuoco (60 punti)"@ != "effetti di sonno"@);
    assert("Fuoco (60 punti)"@[0] != "Effetti di Sonno"@[0]);
    assert("Fuoco (60 punti)"@ != "Effetti di Sonno"@);
    assert("Fuoco (60 punti)"@[0] != "Effetti di sonno"@[0]);
    assert("Fuoco (60 punti)"@ != "Effetti di sonno"@);
    assert("Fuoco (60 punti)"@[0] != "effetti di Sonno"@[0]);
    assert("Fuoco (60 punti)"@ != "effetti di Sonno"@);
    assert("Fuoco (60 punti)"@[0] != "Effetti di Paura"@[0]);
    assert("Fuoco (60 punti)"@ != "Effetti di Paura"@);
    assert("Fuoco (60 punti)"@[0] != "effetti di Paura"@[0]);
    assert("Fuoco (60 punti)"@ != "effetti di Paura"@);
    assert("Fuoco (60 punti)"@[0] != "effetti di paura"@[0]);
    assert("Fuoco (60 punti)"@ != "effetti di paura"@);
    assert("Fuoco (60 punti)"@[0] != "Effetti di paura"@[0]);
    assert("Fuoco (60 punti)"@ != "Effetti di paura"@);
    assert("Fuoco (60 punti)"@[0] != "Attacchi Furtivi"@[0]);
    assert("Fuoco (60 punti)"@ != "Attacchi Furtivi"@);
    assert("Fuoco (60 punti)"@[0] != "danni delle armi"@[0]);
    assert("Fuoco (60 punti)"@ != "danni delle armi"@);
    assert("Fuoco (60 punti)"@[0] != "Danni dalle Armi"@[0]);
    assert("Fuoco (60 punti)"@ != "Danni dalle Armi"@);
    assert("Fuoco (60 punti)"@[0] != "Armi contundenti"@[0]);
    assert("Fuoco (60 punti)"@ != "Armi contundenti"@);
    assert("Fuoco (60 punti)"@[0] != "danni perforanti"@[0]);
    assert("Fuoco (60 punti)"@ != "danni perforanti"@);
    assert("Fuoco (60 punti)"@[1] != "Fiancheggiamento"@[1]);
    assert("Fuoco (60 punti)"@ != "Fiancheggiamento"@);
    assert("Fuoco (60 punti)"@[0] != "Danni Non Letali"@[0]);
    assert("Fuoco (60 punti)"@ != "Danni Non Letali"@);
    assert("Fuoco (60 punti)"@[0] != "Danno non letale"@[0]);
    assert("Fuoco (60 punti)"@ != "Danno non letale"@);
    assert("Fuoco (60 punti)"@[0] != "Effetti di morte"@[0]);
    assert("Fuoco (60 punti)"@ != "Effetti di morte"@);
    assert("Fuoco (60 punti)"@[0] != "Effetti di Morte"@[0]);
    assert("Fuoco (60 punti)"@ != "Effetti di Morte"@);
    assert("Fuoco (60 punti)"@[0] != "effetti di morte"@[0]);
    assert("Fuoco (60 punti)"@ != "effetti di morte"@);
    assert("Fuoco (60 punti)"@[0] != "illusioni visive"@[0]);
    assert("Fuoco (60 punti)"@ != "illusioni visive"@);
    assert("Fuoco (60 punti)"@[0] != "Effetti di forza"@[0]);
    assert("Fuoco (60 punti)"@ != "Effetti di forza"@);
    assert("Fuoco (60 punti)"@[0] != "livelli negativi"@[0]);
    assert("Fuoco (60 punti)"@ != "livelli negativi"@);
    assert("Fuoco (60 punti)"@[0] != "Livelli Negativi"@[0]);
    assert("Fuoco (60 punti)"@ != "Livelli Negativi"@);
    assert("Fuoco (60 punti)"@[0] != "Calmare Emozioni"@[0]);
    assert("Fuoco (60 punti)"@ != "Calmare Emozioni"@);
    assert("Fuoco (60 punti)"@[0] != "Controllo Magico"@[0]);
    assert("Fuoco (60 punti)"@ != "Controllo Magico"@);
    assert("Fuoco (96 punti)"@[0] != "Energia Negativa"@[0]);
    assert("Fuoco (96 punti)"@ != "Energia Negativa"@);
    assert("Fuoco (96 punti)"@[0] != "energia negativa"@[0]);
    assert("Fuoco (96 punti)"@ != "energia negativa"@);
    assert("Fuoco (96 punti)"@[0] != "Energia Positiva"@[0]);
    assert("Fuoco (96 punti)"@ != "Energia Positiva"@);
    assert("Fuoco (96 punti)"@[0] != "energia negativa"@[0]);
    assert("Fuoco (96 punti)"@ != "energia negativa"@);
    assert("Fuoco (96 punti)"@[0] != "effetti di sonno"@[0]);
    assert("Fuoco (96 punti)"@ != "effetti di sonno"@);
    assert("Fuoco (96 punti)"@[0] != "Effetti di Sonno"@[0]);
    assert("Fuoco (96 punti)"@ != "Effetti di Sonno"@);
    assert("Fuoco (96 punti)"@[0] != "Effetti di sonno"@[0]);
    assert("Fuoco (96 punti)"@ != "Effetti di sonno"@);
    assert("Fuoco (96 punti)"@[0] != "effetti di Sonno"@[0]);
    assert("Fuoco (96 punti)"@ != "effetti di Sonno"@);
    assert("Fuoco (96 punti)"@[0] != "Effetti di Paura"@[0]);
    assert("Fuoco (96 punti)"@ != "Effetti di Paura"@);
    assert("Fuoco (96 punti)"@[0] != "effetti di Paura"@[0]);
    assert("Fuoco (96 punti)"@ != "effetti di Paura"@);
    assert("Fuoco (96 punti)"@[0] != "effetti di paura"@[0]);
    assert("Fuoco (96 punti)"@ != "effetti di paura"@);
    assert("Fuoco (96 punti)"@[0] != "Effetti di paura"@[0]);
    assert("Fuoco (96 punti)"@ != "Effetti di paura"@);
    assert("Fuoco (96 punti)"@[0] != "Attacchi Furtivi"@[0]);
    assert("Fuoco (96 punti)"@ != "Attacchi Furtivi"@);
    assert("Fuoco (96 punti)"@[0] != "danni delle armi"@[0]);
    assert("Fuoco (96 punti)"@ != "danni delle armi"@);
    assert("Fuoco (96 punti)"@[0] != "Danni dalle Armi"@[0]);
    assert("Fuoco (96 punti)"@ != "Danni dalle Armi"@);
    assert("Fuoco (96 punti)"@[0] != "Armi contundenti"@[0]);
    assert("Fuoco (96 punti)"@ != "Armi contundenti"@);
    assert("Fuoco (96 punti)"@[0] != "danni perforanti"@[0]);
    assert("Fuoco (96 punti)"@ != "danni perforanti"@);
    assert("Fuoco (96 punti)"@[1] != "Fiancheggiamento"@[1]);
    assert("Fuoco (96 punti)"@ != "Fiancheggiamento"@);
    assert("Fuoco (96 punti)"@[0] != "Danni Non Letali"@[0]);
    assert("Fuoco (96 punti)"@ != "Danni Non Letali"@);
    assert("Fuoco (96 punti)"@[0] != "Danno non letale"@[0]);
    assert("Fuoco (96 punti)"@ != "Danno non letale"@);
    assert("Fuoco (96 punti)"@[0] != "Effetti di morte"@[0]);
    assert("Fuoco (96 punti)"@ != "Effetti di morte"@);
    assert("Fuoco (96 punti)"@[0] != "Effetti di Morte"@[0]);
    assert("Fuoco (96 punti)"@ != "Effetti di Morte"@);
    assert("Fuoco (96 punti)"@[0] != "effetti di morte"@[0]);
    assert("Fuoco (96 punti)"@ != "effetti di morte"@);
    assert("Fuoco (96 punti)"@[0] != "illusioni visive"@[0]);
    assert("Fuoco (96 punti)"@ != "illusioni visive"@);
    assert("Fuoco (96 punti)"@[0] != "Effetti di forza"@[0]);
    assert("Fuoco (96 punti)"@ != "Effetti di forza"@);
    assert("Fuoco (96 punti)"@[0] != "livelli negativi"@[0]);
    assert("Fuoco (96 punti)"@ != "livelli negativi"@);
    assert("Fuoco (96 punti)"@[0] != "Livelli Negativi"@[0]);
    assert("Fuoco (96 punti)"@ != "Livelli Negativi"@);
    assert("Fuoco (96 punti)"@[0] != "Calmare Emozioni"@[0]);
    assert("Fuoco (96 punti)"@ != "Calmare Emozioni"@);
    assert("Fuoco (96 punti)"@[0] != "Controllo Magico"@[0]);
    assert("Fuoco (96 punti)"@ != "Controllo Magico"@);
    assert("Fuoco (96 punti)"@[7] != "Fuoco (60 punti)"@[7]);
    assert("Fuoco (96 punti)"@ != "Fuoco (60 punti)"@);
    assert("Fuoco (108 punti)"@[0] != "Danni contundenti"@[0]);
    assert("Fuoco (108 punti)"@ != "Danni contundenti"@);
    assert("Fuoco (108 punti)"@[0] != "danni contundenti"@[0]);
    assert("Fuoco (108 punti)"@ != "danni contundenti"@);
    assert("Fuoco (108 punti)"@[0] != "ferite permanenti"@[0]);
    assert("Fuoco (108 punti)"@ != "ferite permanenti"@);
    assert("Fuoco (108 punti)"@[0] != "controllo mentale"@[0]);
    assert("Fuoco (108 punti)"@ != "controllo mentale"@);
    assert("Fuoco (108 punti)"@[0] != "Effetti di charme"@[0]);
    assert("Fuoco (108 punti)"@ != "Effetti di charme"@);
    assert("Fuoco (108 punti)"@[0] != "effetti di charme"@[0]);
    assert("Fuoco (108 punti)"@ != "effetti di charme"@);
    assert("Fuoco (108 punti)"@[0] != "effetti polimorfi"@[0]);
    assert("Fuoco (108 punti)"@ != "effetti polimorfi"@);
    assert("Fuoco (108 punti)"@[0] != "Effetti di dolore"@[0]);
    assert("Fuoco (108 punti)"@ != "Effetti di dolore"@);
    assert("Fuoco (108 punti)"@[0] != "charme sui mostri"@[0]);
    assert("Fuoco (108 punti)"@ != "charme sui mostri"@);
    assert("Fuoco (108 punti)"@[0] != "Tratti dei Draghi"@[0]);
    assert("Fuoco (108 punti)"@ != "Tratti dei Draghi"@);
    assert("Fuoco (108 punti)"@[0] != "tratti dei Draghi"@[0]);
    assert("Fuoco (108 punti)"@ != "tratti dei Draghi"@);
    assert("Fuoco (120 punti)"@[0] != "Danni contundenti"@[0]);
    assert("Fuoco (120 punti)"@ != "Danni contundenti"@);
    assert("Fuoco (120 punti)"@[0] != "danni contundenti"@[0]);
    assert("Fuoco (120 punti)"@ != "danni contundenti"@);
    assert("Fuoco (120 punti)"@[0] != "ferite permanenti"@[0]);
    assert("Fuoco (120 punti)"@ != "ferite permanenti"@);
    assert("Fuoco (120 punti)"@[0] != "controllo mentale"@[0]);
    assert("Fuoco (120 punti)"@ != "controllo mentale"@);
    assert("Fuoco (120 punti)"@[0] != "Effetti di charme"@[0]);
    assert("Fuoco (120 punti)"@ != "Effetti di charme"@);
    assert("Fuoco (120 punti)"@[0] != "effetti di charme"@[0]);
    assert("Fuoco (120 punti)"@ != "effetti di charme"@);
    assert("Fuoco (120 punti)"@[0] != "effetti polimorfi"@[0]);
    assert("Fuoco (120 punti)"@ != "effetti polimorfi"@);
    assert("Fuoco (120 punti)"@[0] != "Effetti di dolore"@[0]);
    assert("Fuoco (120 punti)"@ != "Effetti di dolore"@);
    assert("Fuoco (120 punti)"@[0] != "charme sui mostri"@[0]);
    assert("Fuoco (120 punti)"@ != "charme sui mostri"@);
    assert("Fuoco (120 punti)"@[0] != "Tratti dei Draghi"@[0]);
    assert("Fuoco (120 punti)"@ != "Tratti dei Draghi"@);
    assert("Fuoco (120 punti)"@[0] != "tratti dei Draghi"@[0]);
    assert("Fuoco (120 punti)"@ != "tratti dei Draghi"@);
    assert("Fuoco (120 punti)"@[8] != "Fuoco (108 punti)"@[8]);
    assert("Fuoco (120 punti)"@ != "Fuoco (108 punti)"@);
    assert("fuoco (120 punti)"@[0] != "Danni contundenti"@[0]);
    assert("fuoco (120 punti)"@ != "Danni contundenti"@);
    assert("fuoco (120 punti)"@[0] != "danni contundenti"@[0]);
    assert("fuoco (120 punti)"@ != "danni contundenti"@);
    assert("fuoco (120 punti)"@[1] != "ferite permanenti"@[1]);
    assert("fuoco (120 punti)"@ != "ferite permanenti"@);
    assert("fuoco (120 punti)"@[0] != "controllo mentale"@[0]);
    assert("fuoco (120 punti)"@ != "controllo mentale"@);
    assert("fuoco (120 punti)"@[0] != "Effetti di charme"@[0]);
    assert("fuoco (120 punti)"@ != "Effetti di charme"@);
    assert("fuoco (120 punti)"@[0] != "effetti di charme"@[0]);
    assert("fuoco (120 punti)"@ != "effetti di charme"@);
    assert("fuoco (120 punti)"@[0] != "effetti polimorfi"@[0]);
    assert("fuoco (120 punti)"@ != "effetti polimorfi"@);
    assert("fuoco (120 punti)"@[0] != "Effetti di dolore"@[0]);
    assert("fuoco (120 punti)"@ != "Effetti di dolore"@);
    assert("fuoco (120 punti)"@[0] != "charme sui mostri"@[0]);
    assert("fuoco (120 punti)"@ != "charme sui mostri"@);
    assert("fuoco (120 punti)"@[0] != "Tratti dei Draghi"@[0]);
    assert("fuoco (120 punti)"@ != "Tratti dei Draghi"@);
    assert("fuoco (120 punti)"@[0] != "tratti dei Draghi"@[0]);
    assert("fuoco (120 punti)"@ != "tratti dei Draghi"@);
    assert("fuoco (120 punti)"@[0] != "Fuoco (108 punti)"@[0]);
    assert("fuoco (120 punti)"@ != "Fuoco (108 punti)"@);
    assert("fuoco (120 punti)"@[0] != "Fuoco (120 punti)"@[0]);
    assert("fuoco (120 punti)"@ != "Fuoco (120 punti)"@);
    assert("Freddo (120 punti)"@[0] != "Immunità al Freddo"@[0]);
    assert("Freddo (120 punti)"@ != "Immunità al Freddo"@);
    assert("Freddo (120 punti)"@[0] != "Condizione Esausto"@[0]);
    assert("Freddo (120 punti)"@ != "Condizione Esausto"@);
    assert("Freddo (120 punti)"@[0] != "Danno da Pressione"@[0]);
    assert("Freddo (120 punti)"@ != "Danno da Pressione"@);
    assert("Freddo (120 punti)"@[0] != "effetti di Sguardo"@[0]);
    assert("Freddo (120 punti)"@ != "effetti di Sguardo"@);
    assert("Freddo (120 punti)"@[0] != "effetti di sguardo"@[0]);
    assert("Freddo (120 punti)"@ != "effetti di sguardo"@);
    assert("Freddo (120 punti)"@[0] != "visivi ed illusori"@[0]);
    assert("Freddo (120 punti)"@ != "visivi ed illusori"@);
    assert("Freddo (120 punti)"@[0] != "Effetti di Demenza"@[0]);
    assert("Freddo (120 punti)"@ != "Effetti di Demenza"@);
    assert("Freddo (120 punti)"@[0] != "effetti di demenza"@[0]);
    assert("Freddo (120 punti)"@ != "effetti di demenza"@);
    assert("Freddo (120 punti)"@[0] != "effetti sensoriali"@[0]);
    assert("Freddo (120 punti)"@ != "effetti sensoriali"@);
    assert("Freddo (120 punti)"@[0] != "Tratti delle Melme"@[0]);
    assert("Freddo (120 punti)"@ != "Tratti delle Melme"@);
    assert("Freddo (120 punti)"@[0] != "Risucchi di Sangue"@[0]);
    assert("Freddo (120 punti)"@ != "Risucchi di Sangue"@);
    assert("Elettricità (120 punti)"@[0] != "Attacchi con lo sguardo"@[0]);
    assert("Elettricità (120 punti)"@ != "Attacchi con lo sguardo"@);
    assert("Elettricità (120 punti)"@[0] != "attacchi con lo Sguardo"@[0]);
    assert("Elettricità (120 punti)"@ != "attacchi con lo Sguardo"@);
    assert("Elettricità (120 punti)"@[0] != "attacchi con lo sguardo"@[0]);
    assert("Elettricità (120 punti)"@ != "attacchi con lo sguardo"@);
    assert("Elettricità (120 punti)"@[0] != "effetti di ammaliamento"@[0]);
    assert("Elettricità (120 punti)"@ != "effetti di ammaliamento"@);
    assert("Elettricità (120 punti)"@[0] != "Tratti degli Elementali"@[0]);
    assert("Elettricità (120 punti)"@ != "Tratti degli Elementali"@);
}

/// Whether `s` is one of the texts after the value of a `Guarigione Rapida`
/// that name the ability kind whose code is `c`.
pub open spec fn rapid_kind_named(c: u64, s: Seq<char>) -> bool {
    if c == HP_Options_Type::HP_Guarigione_Rapida_Ghiaccio_Neve.spec_code() {
        s == "(solo se a contatto di ghiaccio e neve)"@ || s == "(Funziona solo in zone coperte dal ghiaccio)"@
    } else if c == HP_Options_Type::HP_Guarigione_Rapida_Fuoco.spec_code() {
        s == "(nel fuoco)"@ || s == "(Funziona solo a contatto col fuoco)"@
    } else if c == HP_Options_Type::HP_Guarigione_Rapida_Magma_Lava.spec_code() {
        s == "(Funziona solo a contatto con magma o lava)"@
    } else if c == HP_Options_Type::HP_Guarigione_Rapida_Aridi.spec_code() {
        s == "(Funziona solo in ambienti aridi)"@
    } else if c == HP_Options_Type::HP_Guarigione_Rapida_Acqua_Bollente_Vapore.spec_code() {
        s == "(Funziona solo nell'acqua bollente o nel vapore)"@
    } else if c == HP_Options_Type::HP_Guarigione_Rapida_Sotto_Acqua.spec_code() {
        s == "(Funziona solo sott'acqua)"@
    } else if c == HP_Options_Type::HP_Guarigione_Rapida_Acqua_Salata.spec_code() {
        s == "(solo in acqua salata)"@
    } else if c == HP_Options_Type::HP_Guarigione_Rapida_Tempesta_Vento.spec_code() {
        s == "(Funziona solo in zone tempestose e ventose)"@
    } else if c == HP_Options_Type::HP_Guarigione_Rapida_Umidi_Fangosi.spec_code() {
        s == "(Funziona solo in ambienti umidi e fangosi)"@
    } else if c == HP_Options_Type::HP_Guarigione_Rapida_Polverosi.spec_code() {
        s == "(Funziona solo in ambienti polverosi)"@
    } else if c == HP_Options_Type::HP_Guarigione_Rapida_Sotto_Terra.spec_code() {
        s == "(Funziona solo sottoterra)"@
    } else if c == HP_Options_Type::HP_Guarigione_Rapida_Ombre.spec_code() {
        s == "(solo fra le ombre)"@
    } else if c == HP_Options_Type::HP_Guarigione_Rapida.spec_code() {
        s == "(vedi sotto)"@ || s == "(vedi Forma Vivente)"@
    } else if c == HP_Options_Type::HP_Raccolto_Dolore.spec_code() {
        s == "(vedi Raccolto di Dolore)"@
    } else if c == HP_Options_Type::HP_Divorare_Anima.spec_code() {
        s == "(vedi Divorare Anima)"@
    } else if c == HP_Options_Type::HP_Estorsione.spec_code() {
        s == "(vedi Estorsione)"@
    } else {
        false
    }
}

/// Every text a fast healing kind is read from is one of the texts of the kind it is
/// read as (or a text under three bytes, read as the plain kind).
pub proof fn lemma_rapid_kind_named_sound(s: Seq<char>)
    ensures
        hp_rapid_kind(s) matches Some(c) ==> rapid_kind_named(c, s) || (c
            == HP_Options_Type::HP_Guarigione_Rapida.spec_code() && vstd::utf8::encode_utf8(s).len() < 3),
{
}

/// Every text of a kind is read as that kind.
#[verifier::rlimit(50)]
pub proof fn lemma_rapid_kind_named_read(c: u64, s: Seq<char>)
    requires
        rapid_kind_named(c, s),
    ensures
        hp_rapid_kind(s) == Some(c),
{
    reveal_strlit("(solo se a contatto di ghiaccio e neve)");
    reveal_strlit("(Funziona solo in zone coperte dal ghiaccio)");
    reveal_strlit("(nel fuoco)");
    reveal_strlit("(Funziona solo a contatto col fuoco)");
    reveal_strlit("(Funziona solo a contatto con magma o lava)");
    reveal_strlit("(Funziona solo in ambienti aridi)");
    reveal_strlit("(Funziona solo nell'acqua bollente o nel vapore)");
    reveal_strlit("(Funziona solo sott'acqua)");
    reveal_strlit("(solo in acqua salata)");
    reveal_strlit("(Funziona solo in zone tempestose e ventose)");
    reveal_strlit("(Funziona solo in ambienti umidi e fangosi)");
    reveal_strlit("(Funziona solo in ambienti polverosi)");
    reveal_strlit("(Funziona solo sottoterra)");
    reveal_strlit("(solo fra le ombre)");
    reveal_strlit("(vedi sotto)");
    reveal_strlit("(vedi Forma Vivente)");
    reveal_strlit("(vedi Raccolto di Dolore)");
    reveal_strlit("(vedi Divorare Anima)");
    reveal_strlit("(vedi Estorsione)");
    assert("(solo se a contatto di ghiaccio e neve)"@.len() == 39);
    assert("(Funziona solo in zone coperte dal ghiaccio)"@.len() == 44);
    assert("(nel fuoco)"@.len() == 11);
    assert("(Funziona solo a contatto col fuoco)"@.len() == 36);
    assert("(Funziona solo a contatto con magma o lava)"@.len() == 43);
    assert("(Funziona solo in ambienti aridi)"@.len() == 33);
    assert("(Funziona solo nell'acqua bollente o nel vapore)"@.len() == 48);
    assert("(Funziona solo sott'acqua)"@.len() == 26);
    assert("(solo in acqua salata)"@.len() == 22);
    assert("(Funziona solo in zone tempestose e ventose)"@.len() == 44);
    assert("(Funziona solo in ambienti umidi e fangosi)"@.len() == 43);
    assert("(Funziona solo in ambienti polverosi)"@.len() == 37);
    assert("(Funziona solo sottoterra)"@.len() == 26);
    assert("(solo fra le ombre)"@.len() == 19);
    assert("(vedi sotto)"@.len() == 12);
    assert("(vedi Forma Vivente)"@.len() == 20);
    assert("(vedi Raccolto di Dolore)"@.len() == 25);
    assert("(vedi Divorare Anima)"@.len() == 21);
    assert("(vedi Estorsione)"@.len() == 17);
    assert("(Funziona solo in zone tempestose e ventose)"@[23] != "(Funziona solo in zone coperte dal ghiaccio)"@[23]);
    assert("(Funziona solo in zone tempestose e ventose)"@ != "(Funziona solo in zone coperte dal ghiaccio)"@);
    assert("(Funziona solo in ambienti umidi e fangosi)"@[15] != "(Funziona solo a contatto con magma o lava)"@[15]);
    assert("(Funziona solo in ambienti umidi e fangosi)"@ != "(Funziona solo a contatto con magma o lava)"@);
    assert("(Funziona solo sottoterra)"@[19] != "(Funziona solo sott'acqua)"@[19]);
    assert("(Funziona solo sottoterra)"@ != "(Funziona solo sott'acqua)"@);
}

/// Whether `s` is one of the texts after the value of a `Rigenerazione`
/// that name the ability kind whose code is `c`.
pub open spec fn regen_kind_named(c: u64, s: Seq<char>) -> bool {
    if c == HP_Options_Type::HP_Rigenerazione_Fuoco.spec_code() {
        s == "(fuoco)"@ || s == "(fuoco, vedi Vigore Primordiale)"@
    } else if c == HP_Options_Type::HP_Rigenerazione_Elettricita.spec_code() {
        s == "(elettricità)"@ || s == "(elettricità, vedi sotto)"@
    } else if c == HP_Options_Type::HP_Rigenerazione_Terreno_Naturale.spec_code() {
        s == "(su terreno naturale)"@
    } else if c == HP_Options_Type::HP_Rigenerazione_Caos.spec_code() {
        s == "(caotico)"@ || s == "(effetti e incantesimi caotici)"@
    } else if c == HP_Options_Type::HP_Rigenerazione_Caos_Magia.spec_code() {
        s == "(caos o magia)"@
    } else if c == HP_Options_Type::HP_Rigenerazione_Bene.spec_code() {
        s == "(bene)"@ || s == "(armi e incantesimi buoni)"@ || s == "(incantesimi buoni, armi buone)"@ || s == "(armi e incantesimi allineati con il bene)"@ || s == "(incantesimi ed armi con descrittore bene)"@ || s == "(armi e incantesimi con il descrittore bene)"@ || s == "(armi ed incantesimi con descrittore bene)"@ || s == "(artefatti, effetti e incantesimi buoni)"@
    } else if c == HP_Options_Type::HP_Rigenerazione_Bene_Argento.spec_code() {
        s == "(armi o incantesimi con descrittore bene, armi d'argento)"@ || s == "(armi e incantesimi con descrittore bene, armi d'argento)"@ || s == "(armi ed incantesimi con descrittore bene, armi d'argento)"@ || s == "(armi buone, armi d'argento, incantesimi buoni)"@ || s == "(argento, armi e incantesimi buoni)"@
    } else if c == HP_Options_Type::HP_Rigenerazione_Fuoco_Bene.spec_code() {
        s == "(fuoco o incantesimi buoni)"@
    } else if c == HP_Options_Type::HP_Rigenerazione_Bene_Ruggine.spec_code() {
        s == "(armi e incantesimi buoni, ruggine)"@
    } else if c == HP_Options_Type::HP_Rigenerazione_Male.spec_code() {
        s == "(armi e incantesimi con il descrittore male)"@ || s == "(armi ed effetti con il descrittore male)"@ || s == "(armi, artefatti, effetti ed incantesimi con il descrittore male)"@ || s == "(artefatti, effetti e incantesimi malvagi)"@ || s == "(effetti e armi malvagie)"@ || s == "(armi ed effetti malvagi)"@ || s == "(armi o effetti malvagi)"@ || s == "(armi e incantesimi malvagi)"@ || s == "(male)"@
    } else if c == HP_Options_Type::HP_Rigenerazione_Legale.spec_code() {
        s == "(legale)"@
    } else if c == HP_Options_Type::HP_Rigenerazione_Mitico.spec_code() {
        s == "(armi mitiche o incantesimi)"@
    } else if c == HP_Options_Type::HP_Rigenerazione_Deifico_Mitico.spec_code() {
        s == "(deifico o mitico)"@ || s == "(deifica o mitica)"@
    } else if c == HP_Options_Type::HP_Rigenerazione_Epico.spec_code() {
        s == "(epico)"@
    } else if c == HP_Options_Type::HP_Rigenerazione_Bene_Epico_Mitico.spec_code() {
        s == "(bene, epico o mitico)"@
    } else if c == HP_Options_Type::HP_Rigenerazione_Bene_Deifico_Mitico.spec_code() {
        s == "(bene, deifico o mitico)"@
    } else if c == HP_Options_Type::HP_Rigenerazione_Freddo.spec_code() {
        s == "(freddo)"@
    } else if c == HP_Options_Type::HP_Rigenerazione_Freddo_Male.spec_code() {
        s == "(freddo o male)"@
    } else if c == HP_Options_Type::HP_Rigenerazione_Ferro_Freddo.spec_code() {
        s == "(Ferro Freddo)"@ || s == "(ferro freddo)"@
    } else if c == HP_Options_Type::HP_Rigenerazione_Acido_Fuoco.spec_code() {
        s == "(acido o fuoco)"@ || s == "(acido e fuoco)"@ || s == "(Fuoco o Acido)"@ || s == "(acido, fuoco)"@ || s == "(acido o fuoco; vedi Vigore Primordiale)"@ || s == "(acido o fuoco, vedi Vigore Primordiale)"@
    } else if c == HP_Options_Type::HP_Rigenerazione_Acido_Fuoco_In_Acqua.spec_code() {
        s == "(acido o fuoco; solo a contatto con l'acqua)"@
    } else if c == HP_Options_Type::HP_Rigenerazione_Acido.spec_code() {
        s == "(acido)"@
    } else if c == HP_Options_Type::HP_Rigenerazione_Acido_Mitico.spec_code() {
        s == "(acido da incantesimo o oggetto mitico)"@
    } else if c == HP_Options_Type::HP_Rigenerazione_Acido_Sonoro.spec_code() {
        s == "(acido o sonoro)"@ || s == "(acido, sonoro)"@ || s == "(acido o sonoro, vedi Vigore Primordiale)"@
    } else if c == HP_Options_Type::HP_Rigenerazione_Acido_Freddo.spec_code() {
        s == "(acido o freddo)"@
    } else if c == HP_Options_Type::HP_Rigenerazione_Acido_Freddo_Fuoco.spec_code() {
        s == "(acido, freddo o fuoco)"@
    } else if c == HP_Options_Type::HP_Rigenerazione_Contundente_Fuoco.spec_code() {
        s == "(contundente o fuoco)"@
    } else if c == HP_Options_Type::HP_Rigenerazione_Energia_Positiva.spec_code() {
        s == "(energia positiva)"@
    } else if c == HP_Options_Type::HP_Rigenerazione_Energia_Positiva_Ispirazione.spec_code() {
        s == "(energia positiva o ispirazione)"@
    } else if c == HP_Options_Type::HP_Rigenerazione_Energia_Negativa.spec_code() {
        s == "(energia negativa)"@
    } else if c == HP_Options_Type::HP_Rigenerazione_Pietrificazione.spec_code() {
        s == "(Pietrificazione)"@
    } else if c == HP_Options_Type::HP_Rigenerazione_Adamantio.spec_code() {
        s == "(Adamantio)"@
    } else if c == HP_Options_Type::HP_Rigenerazione_Armi_Maledette.spec_code() {
        s == "(armi maledette)"@
    } else if c == HP_Options_Type::HP_Rigenerazione_Armi_Epiche.spec_code() {
        s == "(armi epiche)"@
    } else if c == HP_Options_Type::HP_Rigenerazione_No_Armi.spec_code() {
        s == "(colpo senz'armi o armi naturali)"@
    } else if c == HP_Options_Type::HP_Rigenerazione_Terra.spec_code() {
        s == "(terra; vedi Rovina della Terra)"@
    } else if c == HP_Options_Type::HP_Rigenerazione_Aria.spec_code() {
        s == "(aria; vedi Anatema dell'Aria)"@
    } else if c == HP_Options_Type::HP_Rigenerazione_Statuetta.spec_code() {
        s == "(nella statuetta)"@
    } else if c == HP_Options_Type::HP_Rigenerazione_Artefatti_Malvagi.spec_code() {
        s == "(artefatti malvagi)"@
    } else if c == HP_Options_Type::HP_Rigenerazione_Speciale.spec_code() {
        s == "(speciale)"@
    } else {
        false
    }
}

/// Every text a regeneration kind is read from is one of the texts of the kind it is
/// read as (or a text under three bytes, read as the plain kind).
pub proof fn lemma_regen_kind_named_sound(s: Seq<char>)
    ensures
        hp_regen_kind(s) matches Some(c) ==> regen_kind_named(c, s) || (c
            == HP_Options_Type::HP_Rigenerazione.spec_code() && vstd::utf8::encode_utf8(s).len() < 3),
{
}

/// Every text of a kind is read as that kind.
#[verifier::rlimit(50)]
pub proof fn lemma_regen_kind_named_read(c: u64, s: Seq<char>)
    requires
        regen_kind_named(c, s),
    ensures
        hp_regen_kind(s) == Some(c),
{
    reveal_strlit("(fuoco)");
    reveal_strlit("(fuoco, vedi Vigore Primordiale)");
    reveal_strlit("(elettricità)");
    reveal_strlit("(elettricità, vedi sotto)");
    reveal_strlit("(su terreno naturale)");
    reveal_strlit("(caotico)");
    reveal_strlit("(effetti e incantesimi caotici)");
    reveal_strlit("(caos o magia)");
    reveal_strlit("(bene)");
    reveal_strlit("(armi e incantesimi buoni)");
    reveal_strlit("(incantesimi buoni, armi buone)");
    reveal_strlit("(armi e incantesimi allineati con il bene)");
    reveal_strlit("(incantesimi ed armi con descrittore bene)");
    reveal_strlit("(armi e incantesimi con il descrittore bene)");
    reveal_strlit("(armi ed incantesimi con descrittore bene)");
    reveal_strlit("(artefatti, effetti e incantesimi buoni)");
    reveal_strlit("(armi o incantesimi con descrittore bene, armi d'argento)");
    reveal_strlit("(armi e incantesimi con descrittore bene, armi d'argento)");
    reveal_strlit("(armi ed incantesimi con descrittore bene, armi d'argento)");
    reveal_strlit("(armi buone, armi d'argento, incantesimi buoni)");
    reveal_strlit("(fuoco o incantesimi buoni)");
    reveal_strlit("(argento, armi e incantesimi buoni)");
    reveal_strlit("(armi e incantesimi buoni, ruggine)");
    reveal_strlit("(armi e incantesimi con il descrittore male)");
    reveal_strlit("(armi ed effetti con il descrittore male)");
    reveal_strlit("(armi, artefatti, effetti ed incantesimi con il descrittore male)");
    reveal_strlit("(artefatti, effetti e incantesimi malvagi)");
    reveal_strlit("(effetti e armi malvagie)");
    reveal_strlit("(armi ed effetti malvagi)");
    reveal_strlit("(armi o effetti malvagi)");
    reveal_strlit("(armi e incantesimi malvagi)");
    reveal_strlit("(male)");
    reveal_strlit("(legale)");
    reveal_strlit("(armi mitiche o incantesimi)");
    reveal_strlit("(deifico o mitico)");
    reveal_strlit("(deifica o mitica)");
    reveal_strlit("(epico)");
    reveal_strlit("(bene, epico o mitico)");
    reveal_strlit("(bene, deifico o mitico)");
    reveal_strlit("(freddo)");
    reveal_strlit("(freddo o male)");
    reveal_strlit("(Ferro Freddo)");
    reveal_strlit("(ferro freddo)");
    reveal_strlit("(acido o fuoco)");
    reveal_strlit("(acido e fuoco)");
    reveal_strlit("(Fuoco o Acido)");
    reveal_strlit("(acido, fuoco)");
    reveal_strlit("(acido o fuoco; vedi Vigore Primordiale)");
    reveal_strlit("(acido o fuoco, vedi Vigore Primordiale)");
    reveal_strlit("(acido o fuoco; solo a contatto con l'acqua)");
    reveal_strlit("(acido)");
    reveal_strlit("(acido da incantesimo o oggetto mitico)");
    reveal_strlit("(acido o sonoro)");
    reveal_strlit("(acido, sonoro)");
    reveal_strlit("(acido o sonoro, vedi Vigore Primordiale)");
    reveal_strlit("(acido o freddo)");
    reveal_strlit("(acido, freddo o fuoco)");
    reveal_strlit("(contundente o fuoco)");
    reveal_strlit("(energia positiva)");
    reveal_strlit("(energia positiva o ispirazione)");
    reveal_strlit("(energia negativa)");
    reveal_strlit("(Pietrificazione)");
    reveal_strlit("(Adamantio)");
    reveal_strlit("(armi maledette)");
    reveal_strlit("(armi epiche)");
    reveal_strlit("(colpo senz'armi o armi naturali)");
    reveal_strlit("(terra; vedi Rovina della Terra)");
    reveal_strlit("(aria; vedi Anatema dell'Aria)");
    reveal_strlit("(nella statuetta)");
    reveal_strlit("(artefatti malvagi)");
    reveal_strlit("(speciale)");
    assert("(fuoco)"@.len() == 7);
    assert("(fuoco, vedi Vigore Primordiale)"@.len() == 32);
    assert("(elettricità)"@.len() == 13);
    assert("(elettricità, vedi sotto)"@.len() == 25);
    assert("(su terreno naturale)"@.len() == 21);
    assert("(caotico)"@.len() == 9);
    assert("(effetti e incantesimi caotici)"@.len() == 31);
    assert("(caos o magia)"@.len() == 14);
    assert("(bene)"@.len() == 6);
    assert("(armi e incantesimi buoni)"@.len() == 26);
    assert("(incantesimi buoni, armi buone)"@.len() == 31);
    assert("(armi e incantesimi allineati con il bene)"@.len() == 42);
    assert("(incantesimi ed armi con descrittore bene)"@.len() == 42);
    assert("(armi e incantesimi con il descrittore bene)"@.len() == 44);
    assert("(armi ed incantesimi con descrittore bene)"@.len() == 42);
    assert("(artefatti, effetti e incantesimi buoni)"@.len() == 40);
    assert("(armi o incantesimi con descrittore bene, armi d'argento)"@.len() == 57);
    assert("(armi e incantesimi con descrittore bene, armi d'argento)"@.len() == 57);
    assert("(armi ed incantesimi con descrittore bene, armi d'argento)"@.len() == 58);
    assert("(armi buone, armi d'argento, incantesimi buoni)"@.len() == 47);
    assert("(fuoco o incantesimi buoni)"@.len() == 27);
    assert("(argento, armi e incantesimi buoni)"@.len() == 35);
    assert("(armi e incantesimi buoni, ruggine)"@.len() == 35);
    assert("(armi e incantesimi con il descrittore male)"@.len() == 44);
    assert("(armi ed effetti con il descrittore male)"@.len() == 41);
    assert("(armi, artefatti, effetti ed incantesimi con il descrittore male)"@.len() == 65);
    assert("(artefatti, effetti e incantesimi malvagi)"@.len() == 42);
    assert("(effetti e armi malvagie)"@.len() == 25);
    assert("(armi ed effetti malvagi)"@.len() == 25);
    assert("(armi o effetti malvagi)"@.len() == 24);
    assert("(armi e incantesimi malvagi)"@.len() == 28);
    assert("(male)"@.len() == 6);
    assert("(legale)"@.len() == 8);
    assert("(armi mitiche o incantesimi)"@.len() == 28);
    assert("(deifico o mitico)"@.len() == 18);
    assert("(deifica o mitica)"@.len() == 18);
    assert("(epico)"@.len() == 7);
    assert("(bene, epico o mitico)"@.len() == 22);
    assert("(bene, deifico o mitico)"@.len() == 24);
    assert("(freddo)"@.len() == 8);
    assert("(freddo o male)"@.len() == 15);
    assert("(Ferro Freddo)"@.len() == 14);
    assert("(ferro freddo)"@.len() == 14);
    assert("(acido o fuoco)"@.len() == 15);
    assert("(acido e fuoco)"@.len() == 15);
    assert("(Fuoco o Acido)"@.len() == 15);
    assert("(acido, fuoco)"@.len() == 14);
    assert("(acido o fuoco; vedi Vigore Primordiale)"@.len() == 40);
    assert("(acido o fuoco, vedi Vigore Primordiale)"@.len() == 40);
    assert("(acido o fuoco; solo a contatto con l'acqua)"@.len() == 44);
    assert("(acido)"@.len() == 7);
    assert("(acido da incantesimo o oggetto mitico)"@.len() == 39);
    assert("(acido o sonoro)"@.len() == 16);
    assert("(acido, sonoro)"@.len() == 15);
    assert("(acido o sonoro, vedi Vigore Primordiale)"@.len() == 41);
    assert("(acido o freddo)"@.len() == 16);
    assert("(acido, freddo o fuoco)"@.len() == 23);
    assert("(contundente o fuoco)"@.len() == 21);
    assert("(energia positiva)"@.len() == 18);
    assert("(energia positiva o ispirazione)"@.len() == 32);
    assert("(energia negativa)"@.len() == 18);
    assert("(Pietrificazione)"@.len() == 17);
    assert("(Adamantio)"@.len() == 11);
    assert("(armi maledette)"@.len() == 16);
    assert("(armi epiche)"@.len() == 13);
    assert("(colpo senz'armi o armi naturali)"@.len() == 33);
    assert("(terra; vedi Rovina della Terra)"@.len() == 32);
    assert("(aria; vedi Anatema dell'Aria)"@.len() == 30);
    assert("(nella statuetta)"@.len() == 17);
    assert("(artefatti malvagi)"@.len() == 19);
    assert("(speciale)"@.len() == 10);
    assert("(incantesimi buoni, armi buone)"@[1] != "(effetti e incantesimi caotici)"@[1]);
    assert("(incantesimi buoni, armi buone)"@ != "(effetti e incantesimi caotici)"@);
    assert("(incantesimi ed armi con descrittore bene)"@[1] != "(armi e incantesimi allineati con il bene)"@[1]);
    assert("(incantesimi ed armi con descrittore bene)"@ != "(armi e incantesimi allineati con il bene)"@);
    assert("(armi ed incantesimi con descrittore bene)"@[7] != "(armi e incantesimi allineati con il bene)"@[7]);
    assert("(armi ed incantesimi con descrittore bene)"@ != "(armi e incantesimi allineati con il bene)"@);
    assert("(armi ed incantesimi con descrittore bene)"@[1] != "(incantesimi ed armi con descrittore bene)"@[1]);
    assert("(armi ed incantesimi con descrittore bene)"@ != "(incantesimi ed armi con descrittore bene)"@);
    assert("(armi e incantesimi con descrittore bene, armi d'argento)"@[6] != "(armi o incantesimi con descrittore bene, armi d'argento)"@[6]);
    assert("(armi e incantesimi con descrittore bene, armi d'argento)"@ != "(armi o incantesimi con descrittore bene, armi d'argento)"@);
    assert("(armi e incantesimi buoni, ruggine)"@[3] != "(argento, armi e incantesimi buoni)"@[3]);
    assert("(armi e incantesimi buoni, ruggine)"@ != "(argento, armi e incantesimi buoni)"@);
    assert("(armi e incantesimi con il descrittore male)"@[39] != "(armi e incantesimi con il descrittore bene)"@[39]);
    assert("(armi e incantesimi con il descrittore male)"@ != "(armi e incantesimi con il descrittore bene)"@);
    assert("(artefatti, effetti e incantesimi malvagi)"@[3] != "(armi e incantesimi allineati con il bene)"@[3]);
    assert("(artefatti, effetti e incantesimi malvagi)"@ != "(armi e incantesimi allineati con il bene)"@);
    assert("(artefatti, effetti e incantesimi malvagi)"@[1] != "(incantesimi ed armi con descrittore bene)"@[1]);
    assert("(artefatti, effetti e incantesimi malvagi)"@ != "(incantesimi ed armi con descrittore bene)"@);
    assert("(artefatti, effetti e incantesimi malvagi)"@[3] != "(armi ed incantesimi con descrittore bene)"@[3]);
    assert("(artefatti, effetti e incantesimi malvagi)"@ != "(armi ed incantesimi con descrittore bene)"@);
    assert("(effetti e armi malvagie)"@[2] != "(elettricità, vedi sotto)"@[2]);
    assert("(effetti e armi malvagie)"@ != "(elettricità, vedi sotto)"@);
    assert("(armi ed effetti malvagi)"@[1] != "(elettricità, vedi sotto)"@[1]);
    assert("(armi ed effetti malvagi)"@ != "(elettricità, vedi sotto)"@);
    assert("(armi ed effetti malvagi)"@[1] != "(effetti e armi malvagie)"@[1]);
    assert("(armi ed effetti malvagi)"@ != "(effetti e armi malvagie)"@);
    assert("(male)"@[1] != "(bene)"@[1]);
    assert("(male)"@ != "(bene)"@);
    assert("(armi mitiche o incantesimi)"@[6] != "(armi e incantesimi malvagi)"@[6]);
    assert("(armi mitiche o incantesimi)"@ != "(armi e incantesimi malvagi)"@);
    assert("(deifica o mitica)"@[7] != "(deifico o mitico)"@[7]);
    assert("(deifica o mitica)"@ != "(deifico o mitico)"@);
    assert("(epico)"@[1] != "(fuoco)"@[1]);
    assert("(epico)"@ != "(fuoco)"@);
    assert("(bene, deifico o mitico)"@[1] != "(armi o effetti malvagi)"@[1]);
    assert("(bene, deifico o mitico)"@ != "(armi o effetti malvagi)"@);
    assert("(freddo)"@[1] != "(legale)"@[1]);
    assert("(freddo)"@ != "(legale)"@);
    assert("(Ferro Freddo)"@[1] != "(caos o magia)"@[1]);
    assert("(Ferro Freddo)"@ != "(caos o magia)"@);
    assert("(ferro freddo)"@[1] != "(caos o magia)"@[1]);
    assert("(ferro freddo)"@ != "(caos o magia)"@);
    assert("(ferro freddo)"@[1] != "(Ferro Freddo)"@[1]);
    assert("(ferro freddo)"@ != "(Ferro Freddo)"@);
    assert("(acido o fuoco)"@[1] != "(freddo o male)"@[1]);
    assert("(acido o fuoco)"@ != "(freddo o male)"@);
    assert("(acido e fuoco)"@[1] != "(freddo o male)"@[1]);
    assert("(acido e fuoco)"@ != "(freddo o male)"@);
    assert("(acido e fuoco)"@[7] != "(acido o fuoco)"@[7]);
    assert("(acido e fuoco)"@ != "(acido o fuoco)"@);
    assert("(Fuoco o Acido)"@[1] != "(freddo o male)"@[1]);
    assert("(Fuoco o Acido)"@ != "(freddo o male)"@);
    assert("(Fuoco o Acido)"@[1] != "(acido o fuoco)"@[1]);
    assert("(Fuoco o Acido)"@ != "(acido o fuoco)"@);
    assert("(Fuoco o Acido)"@[1] != "(acido e fuoco)"@[1]);
    assert("(Fuoco o Acido)"@ != "(acido e fuoco)"@);
    assert("(acido, fuoco)"@[1] != "(caos o magia)"@[1]);
    assert("(acido, fuoco)"@ != "(caos o magia)"@);
    assert("(acido, fuoco)"@[1] != "(Ferro Freddo)"@[1]);
    assert("(acido, fuoco)"@ != "(Ferro Freddo)"@);
    assert("(acido, fuoco)"@[1] != "(ferro freddo)"@[1]);
    assert("(acido, fuoco)"@ != "(ferro freddo)"@);
    assert("(acido o fuoco; vedi Vigore Primordiale)"@[2] != "(artefatti, effetti e incantesimi buoni)"@[2]);
    assert("(acido o fuoco; vedi Vigore Primordiale)"@ != "(artefatti, effetti e incantesimi buoni)"@);
    assert("(acido o fuoco, vedi Vigore Primordiale)"@[2] != "(artefatti, effetti e incantesimi buoni)"@[2]);
    assert("(acido o fuoco, vedi Vigore Primordiale)"@ != "(artefatti, effetti e incantesimi buoni)"@);
    assert("(acido o fuoco, vedi Vigore Primordiale)"@[14] != "(acido o fuoco; vedi Vigore Primordiale)"@[14]);
    assert("(acido o fuoco, vedi Vigore Primordiale)"@ != "(acido o fuoco; vedi Vigore Primordiale)"@);
    assert("(acido o fuoco; solo a contatto con l'acqua)"@[2] != "(armi e incantesimi con il descrittore bene)"@[2]);
    assert("(acido o fuoco; solo a contatto con l'acqua)"@ != "(armi e incantesimi con il descrittore bene)"@);
    assert("(acido o fuoco; solo a contatto con l'acqua)"@[2] != "(armi e incantesimi con il descrittore male)"@[2]);
    assert("(acido o fuoco; solo a contatto con l'acqua)"@ != "(armi e incantesimi con il descrittore male)"@);
    assert("(acido)"@[1] != "(fuoco)"@[1]);
    assert("(acido)"@ != "(fuoco)"@);
    assert("(acido)"@[1] != "(epico)"@[1]);
    assert("(acido)"@ != "(epico)"@);
    assert("(acido, sonoro)"@[1] != "(freddo o male)"@[1]);
    assert("(acido, sonoro)"@ != "(freddo o male)"@);
    assert("(acido, sonoro)"@[6] != "(acido o fuoco)"@[6]);
    assert("(acido, sonoro)"@ != "(acido o fuoco)"@);
    assert("(acido, sonoro)"@[6] != "(acido e fuoco)"@[6]);
    assert("(acido, sonoro)"@ != "(acido e fuoco)"@);
    assert("(acido, sonoro)"@[1] != "(Fuoco o Acido)"@[1]);
    assert("(acido, sonoro)"@ != "(Fuoco o Acido)"@);
    assert("(acido o sonoro, vedi Vigore Primordiale)"@[2] != "(armi ed effetti con il descrittore male)"@[2]);
    assert("(acido o sonoro, vedi Vigore Primordiale)"@ != "(armi ed effetti con il descrittore male)"@);
    assert("(acido o freddo)"@[9] != "(acido o sonoro)"@[9]);
    assert("(acido o freddo)"@ != "(acido o sonoro)"@);
    assert("(contundente o fuoco)"@[1] != "(su terreno naturale)"@[1]);
    assert("(contundente o fuoco)"@ != "(su terreno naturale)"@);
    assert("(energia positiva)"@[1] != "(deifico o mitico)"@[1]);
    assert("(energia positiva)"@ != "(deifico o mitico)"@);
    assert("(energia positiva)"@[1] != "(deifica o mitica)"@[1]);
    assert("(energia positiva)"@ != "(deifica o mitica)"@);
    assert("(energia positiva o ispirazione)"@[1] != "(fuoco, vedi Vigore Primordiale)"@[1]);
    assert("(energia positiva o ispirazione)"@ != "(fuoco, vedi Vigore Primordiale)"@);
    assert("(energia negativa)"@[1] != "(deifico o mitico)"@[1]);
    assert("(energia negativa)"@ != "(deifico o mitico)"@);
    assert("(energia negativa)"@[1] != "(deifica o mitica)"@[1]);
    assert("(energia negativa)"@ != "(deifica o mitica)"@);
    assert("(energia negativa)"@[9] != "(energia positiva)"@[9]);
    assert("(energia negativa)"@ != "(energia positiva)"@);
    assert("(armi maledette)"@[2] != "(acido o sonoro)"@[2]);
    assert("(armi maledette)"@ != "(acido o sonoro)"@);
    assert("(armi maledette)"@[2] != "(acido o freddo)"@[2]);
    assert("(armi maledette)"@ != "(acido o freddo)"@);
    assert("(armi epiche)"@[1] != "(elettricità)"@[1]);
    assert("(armi epiche)"@ != "(elettricità)"@);
    assert("(terra; vedi Rovina della Terra)"@[1] != "(fuoco, vedi Vigore Primordiale)"@[1]);
    assert("(terra; vedi Rovina della Terra)"@ != "(fuoco, vedi Vigore Primordiale)"@);
    assert("(terra; vedi Rovina della Terra)"@[1] != "(energia positiva o ispirazione)"@[1]);
    assert("(terra; vedi Rovina della Terra)"@ != "(energia positiva o ispirazione)"@);
    assert("(nella statuetta)"@[1] != "(Pietrificazione)"@[1]);
    assert("(nella statuetta)"@ != "(Pietrificazione)"@);
}

/// Whether the words of `block` name the resistance type numbered `n` (the
/// type's bits 6 and up): an element's word for the five elements; `Energia`
/// (or `Energie`) then `Positiva`, `Negativa` or `(Tutte)` for positive,
/// negative or all energy; `Resistenza ad Incanalare`, `Resistenza
/// Adattiva` and `Resistenza al Veleno`; and the two fixed texts `Energia
/// Positiva (50%)` and `Pelle di Serpente`.
pub open spec fn res_words_name(n: u64, block: Seq<char>) -> bool {
    let w0 = nth_word(block, 0);
    let w1 = nth_word(block, 1);
    let w2 = nth_word(block, 2);
    let energy = w0 == "Energia"@ || w0 == "Energie"@ || w0 == "energie"@ || w0 == "energia"@;
    let resist = w0 == "Resistenza"@ || w0 == "resistenza"@;
    if 1 <= n <= 5 {
        lower_first(w0) == res_element_word(n)
    } else if n == RES_POS_TYPE >> 6 {
        energy && (w1 == "Positiva"@ || w1 == "positiva"@)
    } else if n == RES_NEG_TYPE >> 6 {
        energy && (w1 == "Negativa"@ || w1 == "negativa"@)
    } else if n == RES_CHAN_TYPE >> 6 {
        resist && w1 == "ad"@ && w2 == "Incanalare"@
    } else if n == RES_ADAP_TYPE >> 6 {
        resist && (w1 == "Adattiva"@ || w1 == "adattiva"@)
    } else if n == RES_ALL_TYPE >> 6 {
        energy && w1 == "(Tutte)"@
    } else if n == RES_POS_50_TYPE >> 6 {
        block == "Energia Positiva (50%)"@
    } else if n == RES_PSN_TYPE >> 6 {
        resist && w1 == "al"@ && w2 == "Veleno"@
    } else if n == RES_SNAKESKIN_TYPE >> 6 {
        block == "Pelle di Serpente"@
    } else {
        false
    }
}

/// The position of the word holding the value of a resistance of the type
/// numbered `n`: right after the element, after the two words of an energy
/// or adaptive resistance, after the three of `Resistenza ad Incanalare`.
pub open spec fn res_value_word(n: u64) -> nat {
    if n <= 5 {
        1
    } else if n == RES_CHAN_TYPE >> 6 {
        3
    } else {
        2
    }
}

/// Every resistance code is the type its words name, and the value its value
/// word holds (none, for the three types without a value).
pub proof fn lemma_resistance_named(block: Seq<char>)
    requires
        spec_single_resistance(block) is Some,
    ensures
        ({
            let c = spec_single_resistance(block)->0;
            let n = c >> 6u64;
            &&& res_words_name(n, block)
            &&& (n == RES_POS_50_TYPE >> 6 || n == RES_PSN_TYPE >> 6 || n == RES_SNAKESKIN_TYPE >> 6) ==> c
                & 0x3F == 0
            &&& !(n == RES_POS_50_TYPE >> 6 || n == RES_PSN_TYPE >> 6 || n == RES_SNAKESKIN_TYPE >> 6)
                ==> spec_parse_uint(nth_word(block, res_value_word(n)), u64::MAX as nat) == Some((c & 0x3F) as nat)
        }),
{
    reveal_strlit("Acido");
    reveal_strlit("acido");
    reveal_strlit("Fuoco");
    reveal_strlit("fuoco");
    reveal_strlit("Freddo");
    reveal_strlit("freddo");
    reveal_strlit("Elettricità");
    reveal_strlit("elettricità");
    reveal_strlit("Sonoro");
    reveal_strlit("sonoro");
    reveal_strlit("Energia");
    reveal_strlit("Energie");
    reveal_strlit("energie");
    reveal_strlit("energia");
    reveal_strlit("Resistenza");
    reveal_strlit("resistenza");
    reveal_strlit("Pelle");
    reveal_strlit("Positiva");
    reveal_strlit("positiva");
    reveal_strlit("Negativa");
    reveal_strlit("negativa");
    reveal_strlit("(Tutte)");
    reveal_strlit("Adattiva");
    reveal_strlit("adattiva");
    reveal_strlit("ad");
    reveal_strlit("al");
    reveal_strlit("Incanalare");
    reveal_strlit("Veleno");
    reveal_strlit("Energia Positiva (50%)");
    reveal_strlit("Pelle di Serpente");
    let w0 = nth_word(block, 0);
    let p1 = spec_parse_uint(nth_word(block, 1), u64::MAX as nat);
    let p2 = spec_parse_uint(nth_word(block, 2), u64::MAX as nat);
    let p3 = spec_parse_uint(nth_word(block, 3), u64::MAX as nat);
    if let Some(v) = p1 {
        if v <= RES_MAX_VALUE {
            lemma_type_or_value(RES_ACID_TYPE, v as u64);
            lemma_type_or_value(RES_FIRE_TYPE, v as u64);
            lemma_type_or_value(RES_COLD_TYPE, v as u64);
            lemma_type_or_value(RES_ELEC_TYPE, v as u64);
            lemma_type_or_value(RES_SOUND_TYPE, v as u64);
        }
    }
    if let Some(v) = p2 {
        if v <= RES_MAX_VALUE {
            lemma_type_or_value(RES_POS_TYPE, v as u64);
            lemma_type_or_value(RES_NEG_TYPE, v as u64);
            lemma_type_or_value(RES_ALL_TYPE, v as u64);
            lemma_type_or_value(RES_ADAP_TYPE, v as u64);
        }
    }
    if let Some(v) = p3 {
        if v <= RES_MAX_VALUE {
            lemma_type_or_value(RES_CHAN_TYPE, v as u64);
        }
    }
    assert(RES_ACID_TYPE >> 6u64 == 1 && RES_FIRE_TYPE >> 6u64 == 2 && RES_COLD_TYPE >> 6u64 == 3
        && RES_ELEC_TYPE >> 6u64 == 4 && RES_SOUND_TYPE >> 6u64 == 5 && RES_POS_TYPE >> 6u64 == 6
        && RES_NEG_TYPE >> 6u64 == 7 && RES_CHAN_TYPE >> 6u64 == 8 && RES_ADAP_TYPE >> 6u64 == 9
        && RES_ALL_TYPE >> 6u64 == 10 && RES_POS_50_TYPE >> 6u64 == 11 && RES_PSN_TYPE >> 6u64 == 12
        && RES_SNAKESKIN_TYPE >> 6u64 == 13) by (bit_vector);
    assert(RES_POS_50_TYPE & 0x3F == 0 && RES_PSN_TYPE & 0x3F == 0 && RES_SNAKESKIN_TYPE & 0x3F == 0)
        by (bit_vector);
    if w0 == "Acido"@ || w0 == "acido"@ {
        assert(lower_first(w0) =~= "acido"@);
    } else if w0 == "Fuoco"@ || w0 == "fuoco"@ {
        assert(lower_first(w0) =~= "fuoco"@);
    } else if w0 == "Freddo"@ || w0 == "freddo"@ {
        assert(lower_first(w0) =~= "freddo"@);
    } else if w0 == "Elettricità"@ || w0 == "elettricità"@ {
        assert(lower_first(w0) =~= "elettricità"@);
    } else if w0 == "Sonoro"@ || w0 == "sonoro"@ {
        assert(lower_first(w0) =~= "sonoro"@);
    }
}

/// Whether the ability text `s` after a hit point formula names the ability
/// kind whose code is `c`: by the name of the ability it holds (`Guarigione
/// Rapida` for the fast healing kinds, `Rigenerazione` for the regeneration
/// kinds, the ability's own name for the others); no kind (code 0) for
/// `Danni Non Letali da bruciare`.
pub open spec fn hp_option_named(c: u64, s: Seq<char>) -> bool {
    if c == 0 {
        spec_contains(s, "Danni Non Letali da bruciare"@)
    } else if c == HP_Options_Type::HP_Guarigione_Rapida_Planare.spec_code() {
        spec_contains(s, "Guarigione Rapida Planare"@)
    } else if c == HP_Options_Type::HP_Guarigione_Sangue.spec_code() {
        spec_contains(s, "Guarigione dal Sangue"@)
    } else if c == HP_Options_Type::HP_Campo_Forza.spec_code() {
        spec_contains(s, "Campo di Forza"@)
    } else if c == HP_Options_Type::HP_Terribile_Ringiovanimento.spec_code() {
        spec_contains(s, "Terribile Ringiovanimento"@)
    } else if c == HP_Options_Type::HP_Rigenerazione_Cera_Fuoco.spec_code() {
        spec_contains(s, "Rigenerazione della Cera"@)
    } else if c == HP_Options_Type::HP_Rigenerazione_Pluviale_Acido_Fuoco.spec_code() {
        spec_contains(s, "Rigenerazione Pluviale"@)
    } else if c == HP_Options_Type::HP_Rigenerazione_Profana_Bene_Elettricita.spec_code() {
        spec_contains(s, "Rigenerazione Profana"@)
    } else if c == HP_Options_Type::HP_Ripararsi_Con_Rifiuti.spec_code() {
        spec_contains(s, "Ripararsi con i Rifiuti"@)
    } else if c == HP_Options_Type::HP_Gioia_Sostenente.spec_code() {
        spec_contains(s, "Gioia Sostenente"@)
    } else if c == HP_Options_Type::HP_Regen_Pazuzu.spec_code() {
        s == "Rigenerazione (deifico o mitico)"@
    } else if c == HP_Options_Type::HP_Guarigione_Rapida.spec_code() || exists|t: Seq<char>| #[trigger] rapid_kind_named(c, t) {
        spec_contains(s, "Guarigione Rapida"@)
    } else if c == HP_Options_Type::HP_Rigenerazione.spec_code() || exists|t: Seq<char>| #[trigger] regen_kind_named(c, t) {
        spec_contains(s, "Rigenerazione"@)
    } else {
        false
    }
}

/// The ability kind put in a hit point word (bits 47 to 53) is the one the
/// ability text names.
pub proof fn lemma_hp_option_named(s: Seq<char>, base: u64)
    requires
        base & 0x0FFF_8000_0000_0000u64 == 0,
    ensures
        spec_hp_options(s, base) matches Some(r) ==> hp_option_named((r >> 47u64) & 0x7F, s),
{
    if let Some(r) = spec_hp_options(s, base) {
        if spec_contains(s, "Danni Non Letali da bruciare"@) {
            assert((base >> 47u64) & 0x7F == 0) by (bit_vector)
                requires
                    base & 0x0FFF_8000_0000_0000u64 == 0,
            ;
        } else if spec_contains(s, "Guarigione Rapida Planare"@) {
            let x = HP_Options_Type::HP_Guarigione_Rapida_Planare;
            lemma_hp_option_code_fits(x);
            lemma_option_bits(base, x.spec_code(), hp_option_value(hp_after_name(s, "Guarigione Rapida Planare"@), true)->0);
        } else if spec_contains(s, "Guarigione dal Sangue"@) {
            let x = HP_Options_Type::HP_Guarigione_Sangue;
            lemma_hp_option_code_fits(x);
            lemma_option_bits(base, x.spec_code(), 0);
        } else if spec_contains(s, "Campo di Forza"@) {
            let x = HP_Options_Type::HP_Campo_Forza;
            lemma_hp_option_code_fits(x);
            lemma_option_bits(base, x.spec_code(), 0);
        } else if spec_contains(s, "Terribile Ringiovanimento"@) {
            let x = HP_Options_Type::HP_Terribile_Ringiovanimento;
            lemma_hp_option_code_fits(x);
            lemma_option_bits(base, x.spec_code(), hp_option_value(hp_after_name(s, "Terribile Ringiovanimento"@), true)->0);
        } else if spec_contains(s, "Guarigione Rapida"@) {
            let rr = hp_after_name(s, "Guarigione Rapida"@);
            let v = hp_option_value(rr, true)->0;
            let kind = match spec_find(rr, "("@) {
                Some(p) => spec_trim(rr.subrange(p, rr.len() as int)),
                None => hp_after_value(rr),
            };
            lemma_kinds_fit(kind);
            lemma_option_bits(base, hp_rapid_kind(kind)->0, v);
            lemma_rapid_kind_named_sound(kind);
        } else if spec_contains(s, "Rigenerazione della Cera"@) {
            let x = HP_Options_Type::HP_Rigenerazione_Cera_Fuoco;
            lemma_hp_option_code_fits(x);
            lemma_option_bits(base, x.spec_code(), hp_option_value(hp_after_name(s, "Rigenerazione della Cera"@), false)->0);
        } else if spec_contains(s, "Rigenerazione Pluviale"@) {
            let x = HP_Options_Type::HP_Rigenerazione_Pluviale_Acido_Fuoco;
            lemma_hp_option_code_fits(x);
            lemma_option_bits(base, x.spec_code(), hp_option_value(hp_after_name(s, "Rigenerazione Pluviale"@), false)->0);
        } else if spec_contains(s, "Rigenerazione Profana"@) {
            let x = HP_Options_Type::HP_Rigenerazione_Profana_Bene_Elettricita;
            lemma_hp_option_code_fits(x);
            lemma_option_bits(base, x.spec_code(), hp_option_value(hp_after_name(s, "Rigenerazione Profana"@), false)->0);
        } else if spec_contains(s, "Ripararsi con i Rifiuti"@) {
            let x = HP_Options_Type::HP_Ripararsi_Con_Rifiuti;
            lemma_hp_option_code_fits(x);
            lemma_option_bits(base, x.spec_code(), 0);
        } else if spec_contains(s, "Gioia Sostenente"@) {
            let x = HP_Options_Type::HP_Gioia_Sostenente;
            lemma_hp_option_code_fits(x);
            lemma_option_bits(base, x.spec_code(), 0);
        } else if s == "Rigenerazione (deifico o mitico)"@ {
            let x = HP_Options_Type::HP_Regen_Pazuzu;
            lemma_hp_option_code_fits(x);
            lemma_option_bits(base, x.spec_code(), 0);
        } else {
            let rr = hp_after_name(s, "Rigenerazione"@);
            let v = hp_option_value(rr, true)->0;
            lemma_kinds_fit(hp_after_value(rr));
            lemma_option_bits(base, hp_regen_kind(hp_after_value(rr))->0, v);
            lemma_regen_kind_named_sound(hp_after_value(rr));
        }
    }
}

} // verus!
