use vstd::prelude::*;

use crate::parse_util::{comma_blocks, spec_comma_blocks, views};
use crate::text::{chars_eq, chars_of, str_eq};

verus! {

/// The kinds of immunity, numbered from 0 in this order (`code`);
/// `Immunity_Invalid` has code `u64::MAX`, so a word made only of it is all ones.
#[derive(Debug, PartialEq, Eq, Structural, Clone, Copy, PartialOrd, Ord)]
pub enum Immunity_Type {
    Immunity_Acid,
    Immunity_Fire,
    Immunity_Cold,
    Immunity_Elec,
    Immunity_Sound,
    Immunity_EnergyNegative,
    Immunity_EnergyPositive,
    Immunity_InfernalFire,
    Immunity_AcidAndFire,
    Immunity_FireAndCold,
    Immunity_ElecAndFire,
    Immunity_ColdAndElec,
    Immunity_Paralysis,
    Immunity_Sleep,
    Immunity_Fatigued,
    Immunity_Exhausted,
    Immunity_Fear,
    Immunity_Sickened,
    Immunity_Nauseated,
    Immunity_Petrified,
    Immunity_Blind,
    Immunity_Stun,
    Immunity_Confusion,
    Immunity_Dazed,
    Immunity_Staggered,
    Immunity_Dazzled,
    Immunity_Deaf,
    Immunity_BlindAndDeaf,
    Immunity_DazzledAndPetrified,
    Immunity_Shaken,
    Immunity_Frightened,
    Immunity_Poison,
    Immunity_PoisonIngested,
    Immunity_Disease,
    Immunity_Magic,
    Immunity_Criticals,
    Immunity_SneakAtk,
    Immunity_GazeAtk,
    Immunity_WeaponDmg,
    Immunity_Curse,
    Immunity_Bleeding,
    Immunity_Bludgeoning,
    Immunity_FallAndCrush,
    Immunity_SmellAtk,
    Immunity_Precision,
    Immunity_PiercingAndSlashing,
    Immunity_BludgeoningAndPiercing,
    Immunity_Flanking,
    Immunity_NonLethalDamage,
    Immunity_Warpproof,
    Immunity_Piercing,
    Immunity_Slashing,
    Immunity_Divination,
    Immunity_PermanentWounds,
    Immunity_DiseaseAndPoison,
    Immunity_FatiguedAndExhausted,
    Immunity_DazedAndStun,
    Immunity_ParalysisAndPetrified,
    Immunity_BleedingAndPermanentWounds,
    Immunity_SleepAndStun,
    Immunity_PrecisionAndCriticals,
    Immunity_BloodDrainAndBleeding,
    Immunity_BloodDrainAndBleedingAndPoison,
    Immunity_Pressure,
    Immunity_MindEffects,
    Immunity_DeathEffects,
    Immunity_EmotionEffects,
    Immunity_GazeEffects,
    Immunity_ForceEffects,
    Immunity_GazeAndIllusionEffects,
    Immunity_CharmEffects,
    Immunity_CompulsionEffect,
    Immunity_MetamorphosisEffects,
    Immunity_MindRegressionEffects,
    Immunity_CreatureCountEffect,
    Immunity_MindEffectsAndGaze,
    Immunity_CompletionAndActivationSpellEffects,
    Immunity_SensesEffects,
    Immunity_FearAndMindEffects,
    Immunity_IllusionEffects,
    Immunity_PainEffects,
    Immunity_ConfusionCrazyEffects,
    Immunity_AgingEffects,
    Immunity_ConfusionAndRegressionEffects,
    Immunity_Possession,
    Immunity_Rust,
    Immunity_IllusionSightEffects,
    Immunity_LightEffects,
    Immunity_CharmAndCompulsionEffect,
    Immunity_NecromancyEffects,
    Immunity_DeathAndAgingEffects,
    Immunity_NecromancyAndDeathEffects,
    Immunity_CharmeAndIllusionSpells,
    Immunity_RecallSpells,
    Immunity_DetectThoughtSpell,
    Immunity_DetectAlignmentSpell,
    Immunity_DetectLiesSpell,
    Immunity_SpellImmunitySpell,
    Immunity_DimensionalAnchorSpell,
    Immunity_CharmeMonsterSpell,
    Immunity_LightningBoltSpell,
    Immunity_FireballSpell,
    Immunity_SleepSpell,
    Immunity_ASDrain,
    Immunity_ASDmg,
    Immunity_LevelDrain,
    Immunity_ASDmgAndDrain,
    Immunity_LevelDrainAndASDmg,
    Immunity_LevelDrainAndASDmgAndDrain,
    Immunity_UndeadTraits,
    Immunity_OozeTraits,
    Immunity_SwarmTraits,
    Immunity_ConstructTraits,
    Immunity_PlantTraits,
    Immunity_ElementalTraits,
    Immunity_DragonTraits,
    Immunity_MagicMissile,
    Immunity_StyxWater,
    Immunity_CalmEmotions,
    Immunity_Convocation,
    Immunity_RuneMastery,
    Immunity_MagicControl,
    Immunity_Slowness,
    Immunity_TurnUndead,
    Immunity_EnergySpells,
    Immunity_Annihilation,
    Immunity_PlaneShift,
    Immunity_ChannelEnergyNonMithic,
    Immunity_Labyrinth,
    Immunity_MemoryLoss,
    Immunity_BloodDrain,
    Immunity_LethalGas,
    Immunity_ProtectFromEnergy,
    Immunity_Invalid,
}

/// Index of the immunities in the defense fields of a stat block.
pub const IMM_IDX_IN_ARR: usize = 5;

pub const IMM_SENTINEL_VALUE: u64 = 0xFFFFFFFFFFFFFFFF;

pub const IMM_SINGLE_BIT_LEN: u64 = 8;

pub const IMM_MAX_COUNT: u64 = 8;

pub const IMM_SINGLE_MAX_VAL: u64 = 255;

/// Number of immunity kinds other than `Immunity_Invalid`.
pub const IMMUNITY_KINDS: u64 = 133;

impl Immunity_Type {
    /// The number of this kind of immunity.
    pub open spec fn spec_code(self) -> u64 {
        match self {
            Immunity_Type::Immunity_Acid => 0,
            Immunity_Type::Immunity_Fire => 1,
            Immunity_Type::Immunity_Cold => 2,
            Immunity_Type::Immunity_Elec => 3,
            Immunity_Type::Immunity_Sound => 4,
            Immunity_Type::Immunity_EnergyNegative => 5,
            Immunity_Type::Immunity_EnergyPositive => 6,
            Immunity_Type::Immunity_InfernalFire => 7,
            Immunity_Type::Immunity_AcidAndFire => 8,
            Immunity_Type::Immunity_FireAndCold => 9,
            Immunity_Type::Immunity_ElecAndFire => 10,
            Immunity_Type::Immunity_ColdAndElec => 11,
            Immunity_Type::Immunity_Paralysis => 12,
            Immunity_Type::Immunity_Sleep => 13,
            Immunity_Type::Immunity_Fatigued => 14,
            Immunity_Type::Immunity_Exhausted => 15,
            Immunity_Type::Immunity_Fear => 16,
            Immunity_Type::Immunity_Sickened => 17,
            Immunity_Type::Immunity_Nauseated => 18,
            Immunity_Type::Immunity_Petrified => 19,
            Immunity_Type::Immunity_Blind => 20,
            Immunity_Type::Immunity_Stun => 21,
            Immunity_Type::Immunity_Confusion => 22,
            Immunity_Type::Immunity_Dazed => 23,
            Immunity_Type::Immunity_Staggered => 24,
            Immunity_Type::Immunity_Dazzled => 25,
            Immunity_Type::Immunity_Deaf => 26,
            Immunity_Type::Immunity_BlindAndDeaf => 27,
            Immunity_Type::Immunity_DazzledAndPetrified => 28,
            Immunity_Type::Immunity_Shaken => 29,
            Immunity_Type::Immunity_Frightened => 30,
            Immunity_Type::Immunity_Poison => 31,
            Immunity_Type::Immunity_PoisonIngested => 32,
            Immunity_Type::Immunity_Disease => 33,
            Immunity_Type::Immunity_Magic => 34,
            Immunity_Type::Immunity_Criticals => 35,
            Immunity_Type::Immunity_SneakAtk => 36,
            Immunity_Type::Immunity_GazeAtk => 37,
            Immunity_Type::Immunity_WeaponDmg => 38,
            Immunity_Type::Immunity_Curse => 39,
            Immunity_Type::Immunity_Bleeding => 40,
            Immunity_Type::Immunity_Bludgeoning => 41,
            Immunity_Type::Immunity_FallAndCrush => 42,
            Immunity_Type::Immunity_SmellAtk => 43,
            Immunity_Type::Immunity_Precision => 44,
            Immunity_Type::Immunity_PiercingAndSlashing => 45,
            Immunity_Type::Immunity_BludgeoningAndPiercing => 46,
            Immunity_Type::Immunity_Flanking => 47,
            Immunity_Type::Immunity_NonLethalDamage => 48,
            Immunity_Type::Immunity_Warpproof => 49,
            Immunity_Type::Immunity_Piercing => 50,
            Immunity_Type::Immunity_Slashing => 51,
            Immunity_Type::Immunity_Divination => 52,
            Immunity_Type::Immunity_PermanentWounds => 53,
            Immunity_Type::Immunity_DiseaseAndPoison => 54,
            Immunity_Type::Immunity_FatiguedAndExhausted => 55,
            Immunity_Type::Immunity_DazedAndStun => 56,
            Immunity_Type::Immunity_ParalysisAndPetrified => 57,
            Immunity_Type::Immunity_BleedingAndPermanentWounds => 58,
            Immunity_Type::Immunity_SleepAndStun => 59,
            Immunity_Type::Immunity_PrecisionAndCriticals => 60,
            Immunity_Type::Immunity_BloodDrainAndBleeding => 61,
            Immunity_Type::Immunity_BloodDrainAndBleedingAndPoison => 62,
            Immunity_Type::Immunity_Pressure => 63,
            Immunity_Type::Immunity_MindEffects => 64,
            Immunity_Type::Immunity_DeathEffects => 65,
            Immunity_Type::Immunity_EmotionEffects => 66,
            Immunity_Type::Immunity_GazeEffects => 67,
            Immunity_Type::Immunity_ForceEffects => 68,
            Immunity_Type::Immunity_GazeAndIllusionEffects => 69,
            Immunity_Type::Immunity_CharmEffects => 70,
            Immunity_Type::Immunity_CompulsionEffect => 71,
            Immunity_Type::Immunity_MetamorphosisEffects => 72,
            Immunity_Type::Immunity_MindRegressionEffects => 73,
            Immunity_Type::Immunity_CreatureCountEffect => 74,
            Immunity_Type::Immunity_MindEffectsAndGaze => 75,
            Immunity_Type::Immunity_CompletionAndActivationSpellEffects => 76,
            Immunity_Type::Immunity_SensesEffects => 77,
            Immunity_Type::Immunity_FearAndMindEffects => 78,
            Immunity_Type::Immunity_IllusionEffects => 79,
            Immunity_Type::Immunity_PainEffects => 80,
            Immunity_Type::Immunity_ConfusionCrazyEffects => 81,
            Immunity_Type::Immunity_AgingEffects => 82,
            Immunity_Type::Immunity_ConfusionAndRegressionEffects => 83,
            Immunity_Type::Immunity_Possession => 84,
            Immunity_Type::Immunity_Rust => 85,
            Immunity_Type::Immunity_IllusionSightEffects => 86,
            Immunity_Type::Immunity_LightEffects => 87,
            Immunity_Type::Immunity_CharmAndCompulsionEffect => 88,
            Immunity_Type::Immunity_NecromancyEffects => 89,
            Immunity_Type::Immunity_DeathAndAgingEffects => 90,
            Immunity_Type::Immunity_NecromancyAndDeathEffects => 91,
            Immunity_Type::Immunity_CharmeAndIllusionSpells => 92,
            Immunity_Type::Immunity_RecallSpells => 93,
            Immunity_Type::Immunity_DetectThoughtSpell => 94,
            Immunity_Type::Immunity_DetectAlignmentSpell => 95,
            Immunity_Type::Immunity_DetectLiesSpell => 96,
            Immunity_Type::Immunity_SpellImmunitySpell => 97,
            Immunity_Type::Immunity_DimensionalAnchorSpell => 98,
            Immunity_Type::Immunity_CharmeMonsterSpell => 99,
            Immunity_Type::Immunity_LightningBoltSpell => 100,
            Immunity_Type::Immunity_FireballSpell => 101,
            Immunity_Type::Immunity_SleepSpell => 102,
            Immunity_Type::Immunity_ASDrain => 103,
            Immunity_Type::Immunity_ASDmg => 104,
            Immunity_Type::Immunity_LevelDrain => 105,
            Immunity_Type::Immunity_ASDmgAndDrain => 106,
            Immunity_Type::Immunity_LevelDrainAndASDmg => 107,
            Immunity_Type::Immunity_LevelDrainAndASDmgAndDrain => 108,
            Immunity_Type::Immunity_UndeadTraits => 109,
            Immunity_Type::Immunity_OozeTraits => 110,
            Immunity_Type::Immunity_SwarmTraits => 111,
            Immunity_Type::Immunity_ConstructTraits => 112,
            Immunity_Type::Immunity_PlantTraits => 113,
            Immunity_Type::Immunity_ElementalTraits => 114,
            Immunity_Type::Immunity_DragonTraits => 115,
            Immunity_Type::Immunity_MagicMissile => 116,
            Immunity_Type::Immunity_StyxWater => 117,
            Immunity_Type::Immunity_CalmEmotions => 118,
            Immunity_Type::Immunity_Convocation => 119,
            Immunity_Type::Immunity_RuneMastery => 120,
            Immunity_Type::Immunity_MagicControl => 121,
            Immunity_Type::Immunity_Slowness => 122,
            Immunity_Type::Immunity_TurnUndead => 123,
            Immunity_Type::Immunity_EnergySpells => 124,
            Immunity_Type::Immunity_Annihilation => 125,
            Immunity_Type::Immunity_PlaneShift => 126,
            Immunity_Type::Immunity_ChannelEnergyNonMithic => 127,
            Immunity_Type::Immunity_Labyrinth => 128,
            Immunity_Type::Immunity_MemoryLoss => 129,
            Immunity_Type::Immunity_BloodDrain => 130,
            Immunity_Type::Immunity_LethalGas => 131,
            Immunity_Type::Immunity_ProtectFromEnergy => 132,
            Immunity_Type::Immunity_Invalid => 0xFFFF_FFFF_FFFF_FFFF,
        }
    }

    /// The number of this kind of immunity.
    pub fn code(&self) -> (r: u64)
        ensures
            r == self.spec_code(),
    {
        match self {
            Immunity_Type::Immunity_Acid => 0,
            Immunity_Type::Immunity_Fire => 1,
            Immunity_Type::Immunity_Cold => 2,
            Immunity_Type::Immunity_Elec => 3,
            Immunity_Type::Immunity_Sound => 4,
            Immunity_Type::Immunity_EnergyNegative => 5,
            Immunity_Type::Immunity_EnergyPositive => 6,
            Immunity_Type::Immunity_InfernalFire => 7,
            Immunity_Type::Immunity_AcidAndFire => 8,
            Immunity_Type::Immunity_FireAndCold => 9,
            Immunity_Type::Immunity_ElecAndFire => 10,
            Immunity_Type::Immunity_ColdAndElec => 11,
            Immunity_Type::Immunity_Paralysis => 12,
            Immunity_Type::Immunity_Sleep => 13,
            Immunity_Type::Immunity_Fatigued => 14,
            Immunity_Type::Immunity_Exhausted => 15,
            Immunity_Type::Immunity_Fear => 16,
            Immunity_Type::Immunity_Sickened => 17,
            Immunity_Type::Immunity_Nauseated => 18,
            Immunity_Type::Immunity_Petrified => 19,
            Immunity_Type::Immunity_Blind => 20,
            Immunity_Type::Immunity_Stun => 21,
            Immunity_Type::Immunity_Confusion => 22,
            Immunity_Type::Immunity_Dazed => 23,
            Immunity_Type::Immunity_Staggered => 24,
            Immunity_Type::Immunity_Dazzled => 25,
            Immunity_Type::Immunity_Deaf => 26,
            Immunity_Type::Immunity_BlindAndDeaf => 27,
            Immunity_Type::Immunity_DazzledAndPetrified => 28,
            Immunity_Type::Immunity_Shaken => 29,
            Immunity_Type::Immunity_Frightened => 30,
            Immunity_Type::Immunity_Poison => 31,
            Immunity_Type::Immunity_PoisonIngested => 32,
            Immunity_Type::Immunity_Disease => 33,
            Immunity_Type::Immunity_Magic => 34,
            Immunity_Type::Immunity_Criticals => 35,
            Immunity_Type::Immunity_SneakAtk => 36,
            Immunity_Type::Immunity_GazeAtk => 37,
            Immunity_Type::Immunity_WeaponDmg => 38,
            Immunity_Type::Immunity_Curse => 39,
            Immunity_Type::Immunity_Bleeding => 40,
            Immunity_Type::Immunity_Bludgeoning => 41,
            Immunity_Type::Immunity_FallAndCrush => 42,
            Immunity_Type::Immunity_SmellAtk => 43,
            Immunity_Type::Immunity_Precision => 44,
            Immunity_Type::Immunity_PiercingAndSlashing => 45,
            Immunity_Type::Immunity_BludgeoningAndPiercing => 46,
            Immunity_Type::Immunity_Flanking => 47,
            Immunity_Type::Immunity_NonLethalDamage => 48,
            Immunity_Type::Immunity_Warpproof => 49,
            Immunity_Type::Immunity_Piercing => 50,
            Immunity_Type::Immunity_Slashing => 51,
            Immunity_Type::Immunity_Divination => 52,
            Immunity_Type::Immunity_PermanentWounds => 53,
            Immunity_Type::Immunity_DiseaseAndPoison => 54,
            Immunity_Type::Immunity_FatiguedAndExhausted => 55,
            Immunity_Type::Immunity_DazedAndStun => 56,
            Immunity_Type::Immunity_ParalysisAndPetrified => 57,
            Immunity_Type::Immunity_BleedingAndPermanentWounds => 58,
            Immunity_Type::Immunity_SleepAndStun => 59,
            Immunity_Type::Immunity_PrecisionAndCriticals => 60,
            Immunity_Type::Immunity_BloodDrainAndBleeding => 61,
            Immunity_Type::Immunity_BloodDrainAndBleedingAndPoison => 62,
            Immunity_Type::Immunity_Pressure => 63,
            Immunity_Type::Immunity_MindEffects => 64,
            Immunity_Type::Immunity_DeathEffects => 65,
            Immunity_Type::Immunity_EmotionEffects => 66,
            Immunity_Type::Immunity_GazeEffects => 67,
            Immunity_Type::Immunity_ForceEffects => 68,
            Immunity_Type::Immunity_GazeAndIllusionEffects => 69,
            Immunity_Type::Immunity_CharmEffects => 70,
            Immunity_Type::Immunity_CompulsionEffect => 71,
            Immunity_Type::Immunity_MetamorphosisEffects => 72,
            Immunity_Type::Immunity_MindRegressionEffects => 73,
            Immunity_Type::Immunity_CreatureCountEffect => 74,
            Immunity_Type::Immunity_MindEffectsAndGaze => 75,
            Immunity_Type::Immunity_CompletionAndActivationSpellEffects => 76,
            Immunity_Type::Immunity_SensesEffects => 77,
            Immunity_Type::Immunity_FearAndMindEffects => 78,
            Immunity_Type::Immunity_IllusionEffects => 79,
            Immunity_Type::Immunity_PainEffects => 80,
            Immunity_Type::Immunity_ConfusionCrazyEffects => 81,
            Immunity_Type::Immunity_AgingEffects => 82,
            Immunity_Type::Immunity_ConfusionAndRegressionEffects => 83,
            Immunity_Type::Immunity_Possession => 84,
            Immunity_Type::Immunity_Rust => 85,
            Immunity_Type::Immunity_IllusionSightEffects => 86,
            Immunity_Type::Immunity_LightEffects => 87,
            Immunity_Type::Immunity_CharmAndCompulsionEffect => 88,
            Immunity_Type::Immunity_NecromancyEffects => 89,
            Immunity_Type::Immunity_DeathAndAgingEffects => 90,
            Immunity_Type::Immunity_NecromancyAndDeathEffects => 91,
            Immunity_Type::Immunity_CharmeAndIllusionSpells => 92,
            Immunity_Type::Immunity_RecallSpells => 93,
            Immunity_Type::Immunity_DetectThoughtSpell => 94,
            Immunity_Type::Immunity_DetectAlignmentSpell => 95,
            Immunity_Type::Immunity_DetectLiesSpell => 96,
            Immunity_Type::Immunity_SpellImmunitySpell => 97,
            Immunity_Type::Immunity_DimensionalAnchorSpell => 98,
            Immunity_Type::Immunity_CharmeMonsterSpell => 99,
            Immunity_Type::Immunity_LightningBoltSpell => 100,
            Immunity_Type::Immunity_FireballSpell => 101,
            Immunity_Type::Immunity_SleepSpell => 102,
            Immunity_Type::Immunity_ASDrain => 103,
            Immunity_Type::Immunity_ASDmg => 104,
            Immunity_Type::Immunity_LevelDrain => 105,
            Immunity_Type::Immunity_ASDmgAndDrain => 106,
            Immunity_Type::Immunity_LevelDrainAndASDmg => 107,
            Immunity_Type::Immunity_LevelDrainAndASDmgAndDrain => 108,
            Immunity_Type::Immunity_UndeadTraits => 109,
            Immunity_Type::Immunity_OozeTraits => 110,
            Immunity_Type::Immunity_SwarmTraits => 111,
            Immunity_Type::Immunity_ConstructTraits => 112,
            Immunity_Type::Immunity_PlantTraits => 113,
            Immunity_Type::Immunity_ElementalTraits => 114,
            Immunity_Type::Immunity_DragonTraits => 115,
            Immunity_Type::Immunity_MagicMissile => 116,
            Immunity_Type::Immunity_StyxWater => 117,
            Immunity_Type::Immunity_CalmEmotions => 118,
            Immunity_Type::Immunity_Convocation => 119,
            Immunity_Type::Immunity_RuneMastery => 120,
            Immunity_Type::Immunity_MagicControl => 121,
            Immunity_Type::Immunity_Slowness => 122,
            Immunity_Type::Immunity_TurnUndead => 123,
            Immunity_Type::Immunity_EnergySpells => 124,
            Immunity_Type::Immunity_Annihilation => 125,
            Immunity_Type::Immunity_PlaneShift => 126,
            Immunity_Type::Immunity_ChannelEnergyNonMithic => 127,
            Immunity_Type::Immunity_Labyrinth => 128,
            Immunity_Type::Immunity_MemoryLoss => 129,
            Immunity_Type::Immunity_BloodDrain => 130,
            Immunity_Type::Immunity_LethalGas => 131,
            Immunity_Type::Immunity_ProtectFromEnergy => 132,
            Immunity_Type::Immunity_Invalid => 0xFFFF_FFFF_FFFF_FFFF,
        }
    }
}

/// The kind of immunity numbered `c`; `Immunity_Invalid` past the last.
pub open spec fn immunity_of_code(c: int) -> Immunity_Type {
    if c == 0 {
        Immunity_Type::Immunity_Acid
    } else if c == 1 {
        Immunity_Type::Immunity_Fire
    } else if c == 2 {
        Immunity_Type::Immunity_Cold
    } else if c == 3 {
        Immunity_Type::Immunity_Elec
    } else if c == 4 {
        Immunity_Type::Immunity_Sound
    } else if c == 5 {
        Immunity_Type::Immunity_EnergyNegative
    } else if c == 6 {
        Immunity_Type::Immunity_EnergyPositive
    } else if c == 7 {
        Immunity_Type::Immunity_InfernalFire
    } else if c == 8 {
        Immunity_Type::Immunity_AcidAndFire
    } else if c == 9 {
        Immunity_Type::Immunity_FireAndCold
    } else if c == 10 {
        Immunity_Type::Immunity_ElecAndFire
    } else if c == 11 {
        Immunity_Type::Immunity_ColdAndElec
    } else if c == 12 {
        Immunity_Type::Immunity_Paralysis
    } else if c == 13 {
        Immunity_Type::Immunity_Sleep
    } else if c == 14 {
        Immunity_Type::Immunity_Fatigued
    } else if c == 15 {
        Immunity_Type::Immunity_Exhausted
    } else if c == 16 {
        Immunity_Type::Immunity_Fear
    } else if c == 17 {
        Immunity_Type::Immunity_Sickened
    } else if c == 18 {
        Immunity_Type::Immunity_Nauseated
    } else if c == 19 {
        Immunity_Type::Immunity_Petrified
    } else if c == 20 {
        Immunity_Type::Immunity_Blind
    } else if c == 21 {
        Immunity_Type::Immunity_Stun
    } else if c == 22 {
        Immunity_Type::Immunity_Confusion
    } else if c == 23 {
        Immunity_Type::Immunity_Dazed
    } else if c == 24 {
        Immunity_Type::Immunity_Staggered
    } else if c == 25 {
        Immunity_Type::Immunity_Dazzled
    } else if c == 26 {
        Immunity_Type::Immunity_Deaf
    } else if c == 27 {
        Immunity_Type::Immunity_BlindAndDeaf
    } else if c == 28 {
        Immunity_Type::Immunity_DazzledAndPetrified
    } else if c == 29 {
        Immunity_Type::Immunity_Shaken
    } else if c == 30 {
        Immunity_Type::Immunity_Frightened
    } else if c == 31 {
        Immunity_Type::Immunity_Poison
    } else if c == 32 {
        Immunity_Type::Immunity_PoisonIngested
    } else if c == 33 {
        Immunity_Type::Immunity_Disease
    } else if c == 34 {
        Immunity_Type::Immunity_Magic
    } else if c == 35 {
        Immunity_Type::Immunity_Criticals
    } else if c == 36 {
        Immunity_Type::Immunity_SneakAtk
    } else if c == 37 {
        Immunity_Type::Immunity_GazeAtk
    } else if c == 38 {
        Immunity_Type::Immunity_WeaponDmg
    } else if c == 39 {
        Immunity_Type::Immunity_Curse
    } else if c == 40 {
        Immunity_Type::Immunity_Bleeding
    } else if c == 41 {
        Immunity_Type::Immunity_Bludgeoning
    } else if c == 42 {
        Immunity_Type::Immunity_FallAndCrush
    } else if c == 43 {
        Immunity_Type::Immunity_SmellAtk
    } else if c == 44 {
        Immunity_Type::Immunity_Precision
    } else if c == 45 {
        Immunity_Type::Immunity_PiercingAndSlashing
    } else if c == 46 {
        Immunity_Type::Immunity_BludgeoningAndPiercing
    } else if c == 47 {
        Immunity_Type::Immunity_Flanking
    } else if c == 48 {
        Immunity_Type::Immunity_NonLethalDamage
    } else if c == 49 {
        Immunity_Type::Immunity_Warpproof
    } else if c == 50 {
        Immunity_Type::Immunity_Piercing
    } else if c == 51 {
        Immunity_Type::Immunity_Slashing
    } else if c == 52 {
        Immunity_Type::Immunity_Divination
    } else if c == 53 {
        Immunity_Type::Immunity_PermanentWounds
    } else if c == 54 {
        Immunity_Type::Immunity_DiseaseAndPoison
    } else if c == 55 {
        Immunity_Type::Immunity_FatiguedAndExhausted
    } else if c == 56 {
        Immunity_Type::Immunity_DazedAndStun
    } else if c == 57 {
        Immunity_Type::Immunity_ParalysisAndPetrified
    } else if c == 58 {
        Immunity_Type::Immunity_BleedingAndPermanentWounds
    } else if c == 59 {
        Immunity_Type::Immunity_SleepAndStun
    } else if c == 60 {
        Immunity_Type::Immunity_PrecisionAndCriticals
    } else if c == 61 {
        Immunity_Type::Immunity_BloodDrainAndBleeding
    } else if c == 62 {
        Immunity_Type::Immunity_BloodDrainAndBleedingAndPoison
    } else if c == 63 {
        Immunity_Type::Immunity_Pressure
    } else if c == 64 {
        Immunity_Type::Immunity_MindEffects
    } else if c == 65 {
        Immunity_Type::Immunity_DeathEffects
    } else if c == 66 {
        Immunity_Type::Immunity_EmotionEffects
    } else if c == 67 {
        Immunity_Type::Immunity_GazeEffects
    } else if c == 68 {
        Immunity_Type::Immunity_ForceEffects
    } else if c == 69 {
        Immunity_Type::Immunity_GazeAndIllusionEffects
    } else if c == 70 {
        Immunity_Type::Immunity_CharmEffects
    } else if c == 71 {
        Immunity_Type::Immunity_CompulsionEffect
    } else if c == 72 {
        Immunity_Type::Immunity_MetamorphosisEffects
    } else if c == 73 {
        Immunity_Type::Immunity_MindRegressionEffects
    } else if c == 74 {
        Immunity_Type::Immunity_CreatureCountEffect
    } else if c == 75 {
        Immunity_Type::Immunity_MindEffectsAndGaze
    } else if c == 76 {
        Immunity_Type::Immunity_CompletionAndActivationSpellEffects
    } else if c == 77 {
        Immunity_Type::Immunity_SensesEffects
    } else if c == 78 {
        Immunity_Type::Immunity_FearAndMindEffects
    } else if c == 79 {
        Immunity_Type::Immunity_IllusionEffects
    } else if c == 80 {
        Immunity_Type::Immunity_PainEffects
    } else if c == 81 {
        Immunity_Type::Immunity_ConfusionCrazyEffects
    } else if c == 82 {
        Immunity_Type::Immunity_AgingEffects
    } else if c == 83 {
        Immunity_Type::Immunity_ConfusionAndRegressionEffects
    } else if c == 84 {
        Immunity_Type::Immunity_Possession
    } else if c == 85 {
        Immunity_Type::Immunity_Rust
    } else if c == 86 {
        Immunity_Type::Immunity_IllusionSightEffects
    } else if c == 87 {
        Immunity_Type::Immunity_LightEffects
    } else if c == 88 {
        Immunity_Type::Immunity_CharmAndCompulsionEffect
    } else if c == 89 {
        Immunity_Type::Immunity_NecromancyEffects
    } else if c == 90 {
        Immunity_Type::Immunity_DeathAndAgingEffects
    } else if c == 91 {
        Immunity_Type::Immunity_NecromancyAndDeathEffects
    } else if c == 92 {
        Immunity_Type::Immunity_CharmeAndIllusionSpells
    } else if c == 93 {
        Immunity_Type::Immunity_RecallSpells
    } else if c == 94 {
        Immunity_Type::Immunity_DetectThoughtSpell
    } else if c == 95 {
        Immunity_Type::Immunity_DetectAlignmentSpell
    } else if c == 96 {
        Immunity_Type::Immunity_DetectLiesSpell
    } else if c == 97 {
        Immunity_Type::Immunity_SpellImmunitySpell
    } else if c == 98 {
        Immunity_Type::Immunity_DimensionalAnchorSpell
    } else if c == 99 {
        Immunity_Type::Immunity_CharmeMonsterSpell
    } else if c == 100 {
        Immunity_Type::Immunity_LightningBoltSpell
    } else if c == 101 {
        Immunity_Type::Immunity_FireballSpell
    } else if c == 102 {
        Immunity_Type::Immunity_SleepSpell
    } else if c == 103 {
        Immunity_Type::Immunity_ASDrain
    } else if c == 104 {
        Immunity_Type::Immunity_ASDmg
    } else if c == 105 {
        Immunity_Type::Immunity_LevelDrain
    } else if c == 106 {
        Immunity_Type::Immunity_ASDmgAndDrain
    } else if c == 107 {
        Immunity_Type::Immunity_LevelDrainAndASDmg
    } else if c == 108 {
        Immunity_Type::Immunity_LevelDrainAndASDmgAndDrain
    } else if c == 109 {
        Immunity_Type::Immunity_UndeadTraits
    } else if c == 110 {
        Immunity_Type::Immunity_OozeTraits
    } else if c == 111 {
        Immunity_Type::Immunity_SwarmTraits
    } else if c == 112 {
        Immunity_Type::Immunity_ConstructTraits
    } else if c == 113 {
        Immunity_Type::Immunity_PlantTraits
    } else if c == 114 {
        Immunity_Type::Immunity_ElementalTraits
    } else if c == 115 {
        Immunity_Type::Immunity_DragonTraits
    } else if c == 116 {
        Immunity_Type::Immunity_MagicMissile
    } else if c == 117 {
        Immunity_Type::Immunity_StyxWater
    } else if c == 118 {
        Immunity_Type::Immunity_CalmEmotions
    } else if c == 119 {
        Immunity_Type::Immunity_Convocation
    } else if c == 120 {
        Immunity_Type::Immunity_RuneMastery
    } else if c == 121 {
        Immunity_Type::Immunity_MagicControl
    } else if c == 122 {
        Immunity_Type::Immunity_Slowness
    } else if c == 123 {
        Immunity_Type::Immunity_TurnUndead
    } else if c == 124 {
        Immunity_Type::Immunity_EnergySpells
    } else if c == 125 {
        Immunity_Type::Immunity_Annihilation
    } else if c == 126 {
        Immunity_Type::Immunity_PlaneShift
    } else if c == 127 {
        Immunity_Type::Immunity_ChannelEnergyNonMithic
    } else if c == 128 {
        Immunity_Type::Immunity_Labyrinth
    } else if c == 129 {
        Immunity_Type::Immunity_MemoryLoss
    } else if c == 130 {
        Immunity_Type::Immunity_BloodDrain
    } else if c == 131 {
        Immunity_Type::Immunity_LethalGas
    } else if c == 132 {
        Immunity_Type::Immunity_ProtectFromEnergy
    } else {
        Immunity_Type::Immunity_Invalid
    }
}

/// The kind of immunity numbered `c`; `Immunity_Invalid` past the last.
pub fn from_code(c: u64) -> (r: Immunity_Type)
    ensures
        r == immunity_of_code(c as int),
{
    match c {
        0 => Immunity_Type::Immunity_Acid,
        1 => Immunity_Type::Immunity_Fire,
        2 => Immunity_Type::Immunity_Cold,
        3 => Immunity_Type::Immunity_Elec,
        4 => Immunity_Type::Immunity_Sound,
        5 => Immunity_Type::Immunity_EnergyNegative,
        6 => Immunity_Type::Immunity_EnergyPositive,
        7 => Immunity_Type::Immunity_InfernalFire,
        8 => Immunity_Type::Immunity_AcidAndFire,
        9 => Immunity_Type::Immunity_FireAndCold,
        10 => Immunity_Type::Immunity_ElecAndFire,
        11 => Immunity_Type::Immunity_ColdAndElec,
        12 => Immunity_Type::Immunity_Paralysis,
        13 => Immunity_Type::Immunity_Sleep,
        14 => Immunity_Type::Immunity_Fatigued,
        15 => Immunity_Type::Immunity_Exhausted,
        16 => Immunity_Type::Immunity_Fear,
        17 => Immunity_Type::Immunity_Sickened,
        18 => Immunity_Type::Immunity_Nauseated,
        19 => Immunity_Type::Immunity_Petrified,
        20 => Immunity_Type::Immunity_Blind,
        21 => Immunity_Type::Immunity_Stun,
        22 => Immunity_Type::Immunity_Confusion,
        23 => Immunity_Type::Immunity_Dazed,
        24 => Immunity_Type::Immunity_Staggered,
        25 => Immunity_Type::Immunity_Dazzled,
        26 => Immunity_Type::Immunity_Deaf,
        27 => Immunity_Type::Immunity_BlindAndDeaf,
        28 => Immunity_Type::Immunity_DazzledAndPetrified,
        29 => Immunity_Type::Immunity_Shaken,
        30 => Immunity_Type::Immunity_Frightened,
        31 => Immunity_Type::Immunity_Poison,
        32 => Immunity_Type::Immunity_PoisonIngested,
        33 => Immunity_Type::Immunity_Disease,
        34 => Immunity_Type::Immunity_Magic,
        35 => Immunity_Type::Immunity_Criticals,
        36 => Immunity_Type::Immunity_SneakAtk,
        37 => Immunity_Type::Immunity_GazeAtk,
        38 => Immunity_Type::Immunity_WeaponDmg,
        39 => Immunity_Type::Immunity_Curse,
        40 => Immunity_Type::Immunity_Bleeding,
        41 => Immunity_Type::Immunity_Bludgeoning,
        42 => Immunity_Type::Immunity_FallAndCrush,
        43 => Immunity_Type::Immunity_SmellAtk,
        44 => Immunity_Type::Immunity_Precision,
        45 => Immunity_Type::Immunity_PiercingAndSlashing,
        46 => Immunity_Type::Immunity_BludgeoningAndPiercing,
        47 => Immunity_Type::Immunity_Flanking,
        48 => Immunity_Type::Immunity_NonLethalDamage,
        49 => Immunity_Type::Immunity_Warpproof,
        50 => Immunity_Type::Immunity_Piercing,
        51 => Immunity_Type::Immunity_Slashing,
        52 => Immunity_Type::Immunity_Divination,
        53 => Immunity_Type::Immunity_PermanentWounds,
        54 => Immunity_Type::Immunity_DiseaseAndPoison,
        55 => Immunity_Type::Immunity_FatiguedAndExhausted,
        56 => Immunity_Type::Immunity_DazedAndStun,
        57 => Immunity_Type::Immunity_ParalysisAndPetrified,
        58 => Immunity_Type::Immunity_BleedingAndPermanentWounds,
        59 => Immunity_Type::Immunity_SleepAndStun,
        60 => Immunity_Type::Immunity_PrecisionAndCriticals,
        61 => Immunity_Type::Immunity_BloodDrainAndBleeding,
        62 => Immunity_Type::Immunity_BloodDrainAndBleedingAndPoison,
        63 => Immunity_Type::Immunity_Pressure,
        64 => Immunity_Type::Immunity_MindEffects,
        65 => Immunity_Type::Immunity_DeathEffects,
        66 => Immunity_Type::Immunity_EmotionEffects,
        67 => Immunity_Type::Immunity_GazeEffects,
        68 => Immunity_Type::Immunity_ForceEffects,
        69 => Immunity_Type::Immunity_GazeAndIllusionEffects,
        70 => Immunity_Type::Immunity_CharmEffects,
        71 => Immunity_Type::Immunity_CompulsionEffect,
        72 => Immunity_Type::Immunity_MetamorphosisEffects,
        73 => Immunity_Type::Immunity_MindRegressionEffects,
        74 => Immunity_Type::Immunity_CreatureCountEffect,
        75 => Immunity_Type::Immunity_MindEffectsAndGaze,
        76 => Immunity_Type::Immunity_CompletionAndActivationSpellEffects,
        77 => Immunity_Type::Immunity_SensesEffects,
        78 => Immunity_Type::Immunity_FearAndMindEffects,
        79 => Immunity_Type::Immunity_IllusionEffects,
        80 => Immunity_Type::Immunity_PainEffects,
        81 => Immunity_Type::Immunity_ConfusionCrazyEffects,
        82 => Immunity_Type::Immunity_AgingEffects,
        83 => Immunity_Type::Immunity_ConfusionAndRegressionEffects,
        84 => Immunity_Type::Immunity_Possession,
        85 => Immunity_Type::Immunity_Rust,
        86 => Immunity_Type::Immunity_IllusionSightEffects,
        87 => Immunity_Type::Immunity_LightEffects,
        88 => Immunity_Type::Immunity_CharmAndCompulsionEffect,
        89 => Immunity_Type::Immunity_NecromancyEffects,
        90 => Immunity_Type::Immunity_DeathAndAgingEffects,
        91 => Immunity_Type::Immunity_NecromancyAndDeathEffects,
        92 => Immunity_Type::Immunity_CharmeAndIllusionSpells,
        93 => Immunity_Type::Immunity_RecallSpells,
        94 => Immunity_Type::Immunity_DetectThoughtSpell,
        95 => Immunity_Type::Immunity_DetectAlignmentSpell,
        96 => Immunity_Type::Immunity_DetectLiesSpell,
        97 => Immunity_Type::Immunity_SpellImmunitySpell,
        98 => Immunity_Type::Immunity_DimensionalAnchorSpell,
        99 => Immunity_Type::Immunity_CharmeMonsterSpell,
        100 => Immunity_Type::Immunity_LightningBoltSpell,
        101 => Immunity_Type::Immunity_FireballSpell,
        102 => Immunity_Type::Immunity_SleepSpell,
        103 => Immunity_Type::Immunity_ASDrain,
        104 => Immunity_Type::Immunity_ASDmg,
        105 => Immunity_Type::Immunity_LevelDrain,
        106 => Immunity_Type::Immunity_ASDmgAndDrain,
        107 => Immunity_Type::Immunity_LevelDrainAndASDmg,
        108 => Immunity_Type::Immunity_LevelDrainAndASDmgAndDrain,
        109 => Immunity_Type::Immunity_UndeadTraits,
        110 => Immunity_Type::Immunity_OozeTraits,
        111 => Immunity_Type::Immunity_SwarmTraits,
        112 => Immunity_Type::Immunity_ConstructTraits,
        113 => Immunity_Type::Immunity_PlantTraits,
        114 => Immunity_Type::Immunity_ElementalTraits,
        115 => Immunity_Type::Immunity_DragonTraits,
        116 => Immunity_Type::Immunity_MagicMissile,
        117 => Immunity_Type::Immunity_StyxWater,
        118 => Immunity_Type::Immunity_CalmEmotions,
        119 => Immunity_Type::Immunity_Convocation,
        120 => Immunity_Type::Immunity_RuneMastery,
        121 => Immunity_Type::Immunity_MagicControl,
        122 => Immunity_Type::Immunity_Slowness,
        123 => Immunity_Type::Immunity_TurnUndead,
        124 => Immunity_Type::Immunity_EnergySpells,
        125 => Immunity_Type::Immunity_Annihilation,
        126 => Immunity_Type::Immunity_PlaneShift,
        127 => Immunity_Type::Immunity_ChannelEnergyNonMithic,
        128 => Immunity_Type::Immunity_Labyrinth,
        129 => Immunity_Type::Immunity_MemoryLoss,
        130 => Immunity_Type::Immunity_BloodDrain,
        131 => Immunity_Type::Immunity_LethalGas,
        132 => Immunity_Type::Immunity_ProtectFromEnergy,
        _ => Immunity_Type::Immunity_Invalid,
    }
}

/// Names of immunities, part 1 of 6.
pub open spec fn immunity_names_0(s: Seq<char>) -> Option<Immunity_Type> {
    if s == "Acido"@ || s == "acido"@ {
        Some(Immunity_Type::Immunity_Acid)
    } else if s == "Fuoco"@ || s == "fuoco"@ || s == "Assorbimento del Fuoco"@ {
        Some(Immunity_Type::Immunity_Fire)
    } else if s == "Freddo"@ || s == "freddo"@ || s == "Immunità al Freddo"@ || s == "Freddo (sé stesso e chi lo cavalca)"@ {
        Some(Immunity_Type::Immunity_Cold)
    } else if s == "Elettricità"@ || s == "elettricità"@ || s == "Elettricità (parziale)"@ {
        Some(Immunity_Type::Immunity_Elec)
    } else if s == "Sonoro"@ || s == "sonoro"@ {
        Some(Immunity_Type::Immunity_Sound)
    } else if s == "Energia Negativa"@ || s == "energia negativa"@ {
        Some(Immunity_Type::Immunity_EnergyNegative)
    } else if s == "Energia Positiva"@ || s == "energia negativa"@ {
        Some(Immunity_Type::Immunity_EnergyPositive)
    } else if s == "Fuoco Infernale"@ {
        Some(Immunity_Type::Immunity_InfernalFire)
    } else if s == "Paralisi"@ || s == "paralisi"@ {
        Some(Immunity_Type::Immunity_Paralysis)
    } else if s == "Sonno"@ || s == "sonno"@ || s == "effetti di sonno"@ || s == "Effetti di Sonno"@ || s == "Effetti di sonno"@ || s == "effetti di Sonno"@ {
        Some(Immunity_Type::Immunity_Sleep)
    } else if s == "Condizione Affaticato"@ || s == "Affaticato"@ || s == "Affaticamento"@ || s == "Fatica"@ {
        Some(Immunity_Type::Immunity_Fatigued)
    } else if s == "Condizione Esausto"@ || s == "Esausto"@ || s == "Esaurimento"@ {
        Some(Immunity_Type::Immunity_Exhausted)
    } else if s == "Paura"@ || s == "paura"@ || s == "Effetti di Paura"@ || s == "effetti di Paura"@ || s == "effetti di paura"@ || s == "Effetti di paura"@ {
        Some(Immunity_Type::Immunity_Fear)
    } else if s == "Infermità"@ || s == "Infermo"@ {
        Some(Immunity_Type::Immunity_Sickened)
    } else if s == "Nauseato"@ || s == "Nausea"@ || s == "nausea"@ {
        Some(Immunity_Type::Immunity_Nauseated)
    } else if s == "Pietrificazione"@ || s == "pietrificazione"@ {
        Some(Immunity_Type::Immunity_Petrified)
    } else if s == "Cecità"@ || s == "Accecato"@ {
        Some(Immunity_Type::Immunity_Blind)
    } else if s == "Stordimento"@ || s == "stordimento"@ {
        Some(Immunity_Type::Immunity_Stun)
    } else if s == "Confusione"@ {
        Some(Immunity_Type::Immunity_Confusion)
    } else {
        None
    }
}

fn match_immunity_names_0(f: &[char]) -> (r: Option<Immunity_Type>)
    ensures
        r == immunity_names_0(f@),
{
    if chars_eq(f, "Acido") || chars_eq(f, "acido") {
        return Some(Immunity_Type::Immunity_Acid);
    }
    if chars_eq(f, "Fuoco") || chars_eq(f, "fuoco") || chars_eq(f, "Assorbimento del Fuoco") {
        return Some(Immunity_Type::Immunity_Fire);
    }
    if chars_eq(f, "Freddo") || chars_eq(f, "freddo") || chars_eq(f, "Immunità al Freddo") || chars_eq(f, "Freddo (sé stesso e chi lo cavalca)") {
        return Some(Immunity_Type::Immunity_Cold);
    }
    if chars_eq(f, "Elettricità") || chars_eq(f, "elettricità") || chars_eq(f, "Elettricità (parziale)") {
        return Some(Immunity_Type::Immunity_Elec);
    }
    if chars_eq(f, "Sonoro") || chars_eq(f, "sonoro") {
        return Some(Immunity_Type::Immunity_Sound);
    }
    if chars_eq(f, "Energia Negativa") || chars_eq(f, "energia negativa") {
        return Some(Immunity_Type::Immunity_EnergyNegative);
    }
    if chars_eq(f, "Energia Positiva") || chars_eq(f, "energia negativa") {
        return Some(Immunity_Type::Immunity_EnergyPositive);
    }
    if chars_eq(f, "Fuoco Infernale") {
        return Some(Immunity_Type::Immunity_InfernalFire);
    }
    if chars_eq(f, "Paralisi") || chars_eq(f, "paralisi") {
        return Some(Immunity_Type::Immunity_Paralysis);
    }
    if chars_eq(f, "Sonno") || chars_eq(f, "sonno") || chars_eq(f, "effetti di sonno") || chars_eq(f, "Effetti di Sonno") || chars_eq(f, "Effetti di sonno") || chars_eq(f, "effetti di Sonno") {
        return Some(Immunity_Type::Immunity_Sleep);
    }
    if chars_eq(f, "Condizione Affaticato") || chars_eq(f, "Affaticato") || chars_eq(f, "Affaticamento") || chars_eq(f, "Fatica") {
        return Some(Immunity_Type::Immunity_Fatigued);
    }
    if chars_eq(f, "Condizione Esausto") || chars_eq(f, "Esausto") || chars_eq(f, "Esaurimento") {
        return Some(Immunity_Type::Immunity_Exhausted);
    }
    if chars_eq(f, "Paura") || chars_eq(f, "paura") || chars_eq(f, "Effetti di Paura") || chars_eq(f, "effetti di Paura") || chars_eq(f, "effetti di paura") || chars_eq(f, "Effetti di paura") {
        return Some(Immunity_Type::Immunity_Fear);
    }
    if chars_eq(f, "Infermità") || chars_eq(f, "Infermo") {
        return Some(Immunity_Type::Immunity_Sickened);
    }
    if chars_eq(f, "Nauseato") || chars_eq(f, "Nausea") || chars_eq(f, "nausea") {
        return Some(Immunity_Type::Immunity_Nauseated);
    }
    if chars_eq(f, "Pietrificazione") || chars_eq(f, "pietrificazione") {
        return Some(Immunity_Type::Immunity_Petrified);
    }
    if chars_eq(f, "Cecità") || chars_eq(f, "Accecato") {
        return Some(Immunity_Type::Immunity_Blind);
    }
    if chars_eq(f, "Stordimento") || chars_eq(f, "stordimento") {
        return Some(Immunity_Type::Immunity_Stun);
    }
    if chars_eq(f, "Confusione") {
        return Some(Immunity_Type::Immunity_Confusion);
    }
    None
}

/// Names of immunities, part 2 of 6.
pub open spec fn immunity_names_1(s: Seq<char>) -> Option<Immunity_Type> {
    if s == "Frastornamento"@ || s == "Frastornato"@ {
        Some(Immunity_Type::Immunity_Dazed)
    } else if s == "Barcollante"@ || s == "effetti Barcollanti"@ || s == "Barcollare"@ {
        Some(Immunity_Type::Immunity_Staggered)
    } else if s == "Abbagliato"@ || s == "Abbagliamenti"@ || s == "Abbagliamento"@ {
        Some(Immunity_Type::Immunity_Dazzled)
    } else if s == "Sordità"@ || s == "sordità"@ {
        Some(Immunity_Type::Immunity_Deaf)
    } else if s == "Scosso"@ {
        Some(Immunity_Type::Immunity_Shaken)
    } else if s == "Spaventato"@ {
        Some(Immunity_Type::Immunity_Frightened)
    } else if s == "Veleni"@ || s == "Veleno"@ || s == "veleno"@ || s == "veleni"@ {
        Some(Immunity_Type::Immunity_Poison)
    } else if s == "Veleno Ingerito"@ {
        Some(Immunity_Type::Immunity_PoisonIngested)
    } else if s == "Malattie"@ || s == "Malattia"@ || s == "malattie"@ || s == "malattia"@ {
        Some(Immunity_Type::Immunity_Disease)
    } else if s == "Magia"@ || s == "Immunità alla Magia"@ {
        Some(Immunity_Type::Immunity_Magic)
    } else if s == "Colpi Critici"@ || s == "Colpi critici"@ {
        Some(Immunity_Type::Immunity_Criticals)
    } else if s == "danno di precisione"@ || s == "danni da precisione"@ || s == "danni di precisione"@ {
        Some(Immunity_Type::Immunity_Precision)
    } else if s == "Attacchi Furtivi"@ {
        Some(Immunity_Type::Immunity_SneakAtk)
    } else if s == "Attacchi con Sguardo"@ || s == "Attacchi con lo sguardo"@ || s == "attacchi con lo Sguardo"@ || s == "Attacchi dipendenti dalla vista"@ || s == "attacchi con lo sguardo"@ || s == "attacchi con Sguardo"@ || s == "Sguardo"@ || s == "Attacchi basati sulla vista"@ || s == "Attacchi basati sulla vista o sguardo"@ {
        Some(Immunity_Type::Immunity_GazeAtk)
    } else if s == "Attacchi basati sull'olfatto"@ {
        Some(Immunity_Type::Immunity_SmellAtk)
    } else if s == "Danno da arma"@ || s == "danno da arma"@ || s == "Danni da arma"@ || s == "danni da arma"@ || s == "danni delle armi"@ || s == "Danni da armi"@ || s == "danni da armi"@ || s == "Danni dalle Armi"@ {
        Some(Immunity_Type::Immunity_WeaponDmg)
    } else if s == "Armi contundenti"@ || s == "Danni contundenti"@ || s == "contundente"@ || s == "danni contundenti"@ {
        Some(Immunity_Type::Immunity_Bludgeoning)
    } else if s == "danni contundenti e perforanti"@ {
        Some(Immunity_Type::Immunity_BludgeoningAndPiercing)
    } else if s == "Danni perforanti e taglienti"@ || s == "danni taglienti e perforanti"@ {
        Some(Immunity_Type::Immunity_PiercingAndSlashing)
    } else {
        None
    }
}

fn match_immunity_names_1(f: &[char]) -> (r: Option<Immunity_Type>)
    ensures
        r == immunity_names_1(f@),
{
    if chars_eq(f, "Frastornamento") || chars_eq(f, "Frastornato") {
        return Some(Immunity_Type::Immunity_Dazed);
    }
    if chars_eq(f, "Barcollante") || chars_eq(f, "effetti Barcollanti") || chars_eq(f, "Barcollare") {
        return Some(Immunity_Type::Immunity_Staggered);
    }
    if chars_eq(f, "Abbagliato") || chars_eq(f, "Abbagliamenti") || chars_eq(f, "Abbagliamento") {
        return Some(Immunity_Type::Immunity_Dazzled);
    }
    if chars_eq(f, "Sordità") || chars_eq(f, "sordità") {
        return Some(Immunity_Type::Immunity_Deaf);
    }
    if chars_eq(f, "Scosso") {
        return Some(Immunity_Type::Immunity_Shaken);
    }
    if chars_eq(f, "Spaventato") {
        return Some(Immunity_Type::Immunity_Frightened);
    }
    if chars_eq(f, "Veleni") || chars_eq(f, "Veleno") || chars_eq(f, "veleno") || chars_eq(f, "veleni") {
        return Some(Immunity_Type::Immunity_Poison);
    }
    if chars_eq(f, "Veleno Ingerito") {
        return Some(Immunity_Type::Immunity_PoisonIngested);
    }
    if chars_eq(f, "Malattie") || chars_eq(f, "Malattia") || chars_eq(f, "malattie") || chars_eq(f, "malattia") {
        return Some(Immunity_Type::Immunity_Disease);
    }
    if chars_eq(f, "Magia") || chars_eq(f, "Immunità alla Magia") {
        return Some(Immunity_Type::Immunity_Magic);
    }
    if chars_eq(f, "Colpi Critici") || chars_eq(f, "Colpi critici") {
        return Some(Immunity_Type::Immunity_Criticals);
    }
    if chars_eq(f, "danno di precisione") || chars_eq(f, "danni da precisione") || chars_eq(f, "danni di precisione") {
        return Some(Immunity_Type::Immunity_Precision);
    }
    if chars_eq(f, "Attacchi Furtivi") {
        return Some(Immunity_Type::Immunity_SneakAtk);
    }
    if chars_eq(f, "Attacchi con Sguardo") || chars_eq(f, "Attacchi con lo sguardo") || chars_eq(f, "attacchi con lo Sguardo") || chars_eq(f, "Attacchi dipendenti dalla vista") || chars_eq(f, "attacchi con lo sguardo") || chars_eq(f, "attacchi con Sguardo") || chars_eq(f, "Sguardo") || chars_eq(f, "Attacchi basati sulla vista") || chars_eq(f, "Attacchi basati sulla vista o sguardo") {
        return Some(Immunity_Type::Immunity_GazeAtk);
    }
    if chars_eq(f, "Attacchi basati sull'olfatto") {
        return Some(Immunity_Type::Immunity_SmellAtk);
    }
    if chars_eq(f, "Danno da arma") || chars_eq(f, "danno da arma") || chars_eq(f, "Danni da arma") || chars_eq(f, "danni da arma") || chars_eq(f, "danni delle armi") || chars_eq(f, "Danni da armi") || chars_eq(f, "danni da armi") || chars_eq(f, "Danni dalle Armi") {
        return Some(Immunity_Type::Immunity_WeaponDmg);
    }
    if chars_eq(f, "Armi contundenti") || chars_eq(f, "Danni contundenti") || chars_eq(f, "contundente") || chars_eq(f, "danni contundenti") {
        return Some(Immunity_Type::Immunity_Bludgeoning);
    }
    if chars_eq(f, "danni contundenti e perforanti") {
        return Some(Immunity_Type::Immunity_BludgeoningAndPiercing);
    }
    if chars_eq(f, "Danni perforanti e taglienti") || chars_eq(f, "danni taglienti e perforanti") {
        return Some(Immunity_Type::Immunity_PiercingAndSlashing);
    }
    None
}

/// Names of immunities, part 3 of 6.
pub open spec fn immunity_names_2(s: Seq<char>) -> Option<Immunity_Type> {
    if s == "danni perforanti"@ {
        Some(Immunity_Type::Immunity_Piercing)
    } else if s == "Armi Taglienti"@ || s == "danni taglienti"@ {
        Some(Immunity_Type::Immunity_Slashing)
    } else if s == "da caduta e da schiacciamento"@ {
        Some(Immunity_Type::Immunity_FallAndCrush)
    } else if s == "Maledizioni"@ || s == "maledizioni"@ || s == "effetti di maledizione"@ || s == "effetti di maledizioni"@ {
        Some(Immunity_Type::Immunity_Curse)
    } else if s == "Sanguinamento"@ || s == "sanguinamento"@ || s == "Sanguinamento (solo Punti Ferita)"@ {
        Some(Immunity_Type::Immunity_Bleeding)
    } else if s == "Fiancheggiamento"@ || s == "Attacchi ai Fianchi"@ {
        Some(Immunity_Type::Immunity_Flanking)
    } else if s == "Danni Non Letali"@ || s == "Danno non letale"@ {
        Some(Immunity_Type::Immunity_NonLethalDamage)
    } else if s == "Non Deformante"@ {
        Some(Immunity_Type::Immunity_Warpproof)
    } else if s == "Danno da Pressione"@ {
        Some(Immunity_Type::Immunity_Pressure)
    } else if s == "possessione"@ {
        Some(Immunity_Type::Immunity_Possession)
    } else if s == "ruggine"@ {
        Some(Immunity_Type::Immunity_Rust)
    } else if s == "Divinazione"@ || s == "divinazione"@ {
        Some(Immunity_Type::Immunity_Divination)
    } else if s == "ferite permanenti"@ {
        Some(Immunity_Type::Immunity_PermanentWounds)
    } else if s == "Effetti di Influenza Mentale"@ || s == "Effetti di influenza mentale"@ || s == "effetti di influenza mentale"@ || s == "Effetti d'influenza mentale"@ || s == "controllo mentale"@ {
        Some(Immunity_Type::Immunity_MindEffects)
    } else if s == "effetti di Paura ed influenza mentale"@ {
        Some(Immunity_Type::Immunity_FearAndMindEffects)
    } else if s == "effetti di influenza mentale e visivi"@ || s == "di influenza mentale e basati sullo Sguardo"@ {
        Some(Immunity_Type::Immunity_MindEffectsAndGaze)
    } else if s == "Effetti di charme"@ || s == "effetti di charme"@ || s == "Charme"@ || s == "charme"@ || s == "Ammaliamento"@ || s == "effetti di ammaliamento"@ {
        Some(Immunity_Type::Immunity_CharmEffects)
    } else if s == "effetti di compulsione"@ || s == "compulsione"@ {
        Some(Immunity_Type::Immunity_CompulsionEffect)
    } else if s == "effetti di charme e compulsioni"@ || s == "Effetti di charme e compulsioni"@ || s == "Effetti di Charme e Compulsione"@ || s == "effetti di Charme e Compulsione"@ || s == "effetti di charme e compulsione"@ {
        Some(Immunity_Type::Immunity_CharmAndCompulsionEffect)
    } else {
        None
    }
}

fn match_immunity_names_2(f: &[char]) -> (r: Option<Immunity_Type>)
    ensures
        r == immunity_names_2(f@),
{
    if chars_eq(f, "danni perforanti") {
        return Some(Immunity_Type::Immunity_Piercing);
    }
    if chars_eq(f, "Armi Taglienti") || chars_eq(f, "danni taglienti") {
        return Some(Immunity_Type::Immunity_Slashing);
    }
    if chars_eq(f, "da caduta e da schiacciamento") {
        return Some(Immunity_Type::Immunity_FallAndCrush);
    }
    if chars_eq(f, "Maledizioni") || chars_eq(f, "maledizioni") || chars_eq(f, "effetti di maledizione") || chars_eq(f, "effetti di maledizioni") {
        return Some(Immunity_Type::Immunity_Curse);
    }
    if chars_eq(f, "Sanguinamento") || chars_eq(f, "sanguinamento") || chars_eq(f, "Sanguinamento (solo Punti Ferita)") {
        return Some(Immunity_Type::Immunity_Bleeding);
    }
    if chars_eq(f, "Fiancheggiamento") || chars_eq(f, "Attacchi ai Fianchi") {
        return Some(Immunity_Type::Immunity_Flanking);
    }
    if chars_eq(f, "Danni Non Letali") || chars_eq(f, "Danno non letale") {
        return Some(Immunity_Type::Immunity_NonLethalDamage);
    }
    if chars_eq(f, "Non Deformante") {
        return Some(Immunity_Type::Immunity_Warpproof);
    }
    if chars_eq(f, "Danno da Pressione") {
        return Some(Immunity_Type::Immunity_Pressure);
    }
    if chars_eq(f, "possessione") {
        return Some(Immunity_Type::Immunity_Possession);
    }
    if chars_eq(f, "ruggine") {
        return Some(Immunity_Type::Immunity_Rust);
    }
    if chars_eq(f, "Divinazione") || chars_eq(f, "divinazione") {
        return Some(Immunity_Type::Immunity_Divination);
    }
    if chars_eq(f, "ferite permanenti") {
        return Some(Immunity_Type::Immunity_PermanentWounds);
    }
    if chars_eq(f, "Effetti di Influenza Mentale") || chars_eq(f, "Effetti di influenza mentale") || chars_eq(f, "effetti di influenza mentale") || chars_eq(f, "Effetti d'influenza mentale") || chars_eq(f, "controllo mentale") {
        return Some(Immunity_Type::Immunity_MindEffects);
    }
    if chars_eq(f, "effetti di Paura ed influenza mentale") {
        return Some(Immunity_Type::Immunity_FearAndMindEffects);
    }
    if chars_eq(f, "effetti di influenza mentale e visivi") || chars_eq(f, "di influenza mentale e basati sullo Sguardo") {
        return Some(Immunity_Type::Immunity_MindEffectsAndGaze);
    }
    if chars_eq(f, "Effetti di charme") || chars_eq(f, "effetti di charme") || chars_eq(f, "Charme") || chars_eq(f, "charme") || chars_eq(f, "Ammaliamento") || chars_eq(f, "effetti di ammaliamento") {
        return Some(Immunity_Type::Immunity_CharmEffects);
    }
    if chars_eq(f, "effetti di compulsione") || chars_eq(f, "compulsione") {
        return Some(Immunity_Type::Immunity_CompulsionEffect);
    }
    if chars_eq(f, "effetti di charme e compulsioni") || chars_eq(f, "Effetti di charme e compulsioni") || chars_eq(f, "Effetti di Charme e Compulsione") || chars_eq(f, "effetti di Charme e Compulsione") || chars_eq(f, "effetti di charme e compulsione") {
        return Some(Immunity_Type::Immunity_CharmAndCompulsionEffect);
    }
    None
}

/// Names of immunities, part 4 of 6.
pub open spec fn immunity_names_3(s: Seq<char>) -> Option<Immunity_Type> {
    if s == "Effetti di morte"@ || s == "Effetti di Morte"@ || s == "effetti di morte"@ || s == "Effetti di morte (vedi sotto)"@ {
        Some(Immunity_Type::Immunity_DeathEffects)
    } else if s == "illusioni"@ || s == "Illusione"@ {
        Some(Immunity_Type::Immunity_IllusionEffects)
    } else if s == "illusioni visive"@ {
        Some(Immunity_Type::Immunity_IllusionSightEffects)
    } else if s == "effetti basati sulla vista"@ || s == "effetti visivi"@ || s == "attacchi basati sulla vista ed effetti visivi"@ || s == "Effetti basati sulla vista"@ || s == "effetti di Sguardo"@ || s == "Effetti visivi"@ || s == "effetti di sguardo"@ {
        Some(Immunity_Type::Immunity_GazeEffects)
    } else if s == "effetti visivi e illusioni"@ || s == "visivi ed illusori"@ || s == "effetti e illusioni visive"@ || s == "Illusioni e qualsiasi attacco basato sulla vista"@ {
        Some(Immunity_Type::Immunity_GazeAndIllusionEffects)
    } else if s == "effetti di metamorfosi"@ || s == "Metamorfosi"@ || s == "metamorfosi"@ || s == "effetti polimorfi"@ || s == "effetti di Metamorfosi"@ {
        Some(Immunity_Type::Immunity_MetamorphosisEffects)
    } else if s == "Effetti di Demenza"@ || s == "effetti di demenza"@ || s == "Demenza"@ {
        Some(Immunity_Type::Immunity_MindRegressionEffects)
    } else if s == "effetti che bersagliano uno specifico numero di creature"@ {
        Some(Immunity_Type::Immunity_CreatureCountEffect)
    } else if s == "Effetti a completamento di incantesimo e ad attivazione di incantesimo"@ {
        Some(Immunity_Type::Immunity_CompletionAndActivationSpellEffects)
    } else if s == "effetti sensoriali"@ {
        Some(Immunity_Type::Immunity_SensesEffects)
    } else if s == "emozioni"@ {
        Some(Immunity_Type::Immunity_EmotionEffects)
    } else if s == "Effetti di forza"@ || s == "forza"@ || s == "Forza"@ {
        Some(Immunity_Type::Immunity_ForceEffects)
    } else if s == "Effetti di dolore"@ || s == "dolore"@ || s == "Dolore"@ {
        Some(Immunity_Type::Immunity_PainEffects)
    } else if s == "Effetti di confusione e follia"@ {
        Some(Immunity_Type::Immunity_ConfusionCrazyEffects)
    } else if s == "effetti di confusione e demenza"@ {
        Some(Immunity_Type::Immunity_ConfusionAndRegressionEffects)
    } else if s == "Invecchiamento"@ || s == "invecchiamento"@ {
        Some(Immunity_Type::Immunity_AgingEffects)
    } else if s == "effetti di luce"@ {
        Some(Immunity_Type::Immunity_LightEffects)
    } else if s == "effetti di necromanzia"@ {
        Some(Immunity_Type::Immunity_NecromancyEffects)
    } else if s == "Incantesimi di Ammaliamento e di Illusione"@ {
        Some(Immunity_Type::Immunity_CharmeAndIllusionSpells)
    } else {
        None
    }
}

fn match_immunity_names_3(f: &[char]) -> (r: Option<Immunity_Type>)
    ensures
        r == immunity_names_3(f@),
{
    if chars_eq(f, "Effetti di morte") || chars_eq(f, "Effetti di Morte") || chars_eq(f, "effetti di morte") || chars_eq(f, "Effetti di morte (vedi sotto)") {
        return Some(Immunity_Type::Immunity_DeathEffects);
    }
    if chars_eq(f, "illusioni") || chars_eq(f, "Illusione") {
        return Some(Immunity_Type::Immunity_IllusionEffects);
    }
    if chars_eq(f, "illusioni visive") {
        return Some(Immunity_Type::Immunity_IllusionSightEffects);
    }
    if chars_eq(f, "effetti basati sulla vista") || chars_eq(f, "effetti visivi") || chars_eq(f, "attacchi basati sulla vista ed effetti visivi") || chars_eq(f, "Effetti basati sulla vista") || chars_eq(f, "effetti di Sguardo") || chars_eq(f, "Effetti visivi") || chars_eq(f, "effetti di sguardo") {
        return Some(Immunity_Type::Immunity_GazeEffects);
    }
    if chars_eq(f, "effetti visivi e illusioni") || chars_eq(f, "visivi ed illusori") || chars_eq(f, "effetti e illusioni visive") || chars_eq(f, "Illusioni e qualsiasi attacco basato sulla vista") {
        return Some(Immunity_Type::Immunity_GazeAndIllusionEffects);
    }
    if chars_eq(f, "effetti di metamorfosi") || chars_eq(f, "Metamorfosi") || chars_eq(f, "metamorfosi") || chars_eq(f, "effetti polimorfi") || chars_eq(f, "effetti di Metamorfosi") {
        return Some(Immunity_Type::Immunity_MetamorphosisEffects);
    }
    if chars_eq(f, "Effetti di Demenza") || chars_eq(f, "effetti di demenza") || chars_eq(f, "Demenza") {
        return Some(Immunity_Type::Immunity_MindRegressionEffects);
    }
    if chars_eq(f, "effetti che bersagliano uno specifico numero di creature") {
        return Some(Immunity_Type::Immunity_CreatureCountEffect);
    }
    if chars_eq(f, "Effetti a completamento di incantesimo e ad attivazione di incantesimo") {
        return Some(Immunity_Type::Immunity_CompletionAndActivationSpellEffects);
    }
    if chars_eq(f, "effetti sensoriali") {
        return Some(Immunity_Type::Immunity_SensesEffects);
    }
    if chars_eq(f, "emozioni") {
        return Some(Immunity_Type::Immunity_EmotionEffects);
    }
    if chars_eq(f, "Effetti di forza") || chars_eq(f, "forza") || chars_eq(f, "Forza") {
        return Some(Immunity_Type::Immunity_ForceEffects);
    }
    if chars_eq(f, "Effetti di dolore") || chars_eq(f, "dolore") || chars_eq(f, "Dolore") {
        return Some(Immunity_Type::Immunity_PainEffects);
    }
    if chars_eq(f, "Effetti di confusione e follia") {
        return Some(Immunity_Type::Immunity_ConfusionCrazyEffects);
    }
    if chars_eq(f, "effetti di confusione e demenza") {
        return Some(Immunity_Type::Immunity_ConfusionAndRegressionEffects);
    }
    if chars_eq(f, "Invecchiamento") || chars_eq(f, "invecchiamento") {
        return Some(Immunity_Type::Immunity_AgingEffects);
    }
    if chars_eq(f, "effetti di luce") {
        return Some(Immunity_Type::Immunity_LightEffects);
    }
    if chars_eq(f, "effetti di necromanzia") {
        return Some(Immunity_Type::Immunity_NecromancyEffects);
    }
    if chars_eq(f, "Incantesimi di Ammaliamento e di Illusione") {
        return Some(Immunity_Type::Immunity_CharmeAndIllusionSpells);
    }
    None
}

/// Names of immunities, part 5 of 6.
pub open spec fn immunity_names_4(s: Seq<char>) -> Option<Immunity_Type> {
    if s == "Richiamo"@ || s == "Congedo"@ || s == "Immunità all'Esilio"@ {
        Some(Immunity_Type::Immunity_RecallSpells)
    } else if s == "Individuazione dei Pensieri"@ {
        Some(Immunity_Type::Immunity_DetectThoughtSpell)
    } else if s == "Individuazione dell'Allineamento"@ {
        Some(Immunity_Type::Immunity_DetectAlignmentSpell)
    } else if s == "Rivela Bugie"@ {
        Some(Immunity_Type::Immunity_DetectLiesSpell)
    } else if s == "Immunità agli Incantesimi"@ {
        Some(Immunity_Type::Immunity_SpellImmunitySpell)
    } else if s == "Ancora Dimensionale"@ {
        Some(Immunity_Type::Immunity_DimensionalAnchorSpell)
    } else if s == "charme sui mostri"@ {
        Some(Immunity_Type::Immunity_CharmeMonsterSpell)
    } else if s == "fulmine"@ {
        Some(Immunity_Type::Immunity_LightningBoltSpell)
    } else if s == "palla di fuoco"@ {
        Some(Immunity_Type::Immunity_FireballSpell)
    } else if s == "sonno"@ {
        Some(Immunity_Type::Immunity_SleepSpell)
    } else if s == "Risucchio di Energia"@ || s == "risucchio di energia"@ || s == "Risucchi di Energia"@ || s == "risucchi di energia"@ || s == "livelli negativi"@ || s == "Livelli Negativi"@ {
        Some(Immunity_Type::Immunity_LevelDrain)
    } else if s == "Risucchio di Caratteristiche"@ || s == "risucchio di caratteristiche"@ || s == "risucchi di caratteristiche"@ || s == "risucchio di caratteristica"@ {
        Some(Immunity_Type::Immunity_ASDrain)
    } else if s == "Danni alle caratteristiche"@ || s == "Danno alle Caratteristiche"@ || s == "danni alle caratteristiche"@ || s == "danni alle Caratteristiche"@ {
        Some(Immunity_Type::Immunity_ASDmg)
    } else if s == "Danni e risucchio di caratteristiche"@ || s == "Danni e risucchi di caratteristiche"@ || s == "Danno e risucchio alle caratteristiche"@ || s == "Danni e risucchio alle Caratteristiche"@ || s == "Danni e risucchi alle caratteristiche"@ || s == "danni e risucchi di Caratteristiche"@ {
        Some(Immunity_Type::Immunity_ASDmgAndDrain)
    } else if s == "Tratti dei Non Morti"@ {
        Some(Immunity_Type::Immunity_UndeadTraits)
    } else if s == "Tratti delle Melme"@ {
        Some(Immunity_Type::Immunity_OozeTraits)
    } else if s == "Tratti degli Sciami"@ {
        Some(Immunity_Type::Immunity_SwarmTraits)
    } else if s == "Tratti dei Costrutti"@ {
        Some(Immunity_Type::Immunity_ConstructTraits)
    } else if s == "Tratti dei Vegetali"@ {
        Some(Immunity_Type::Immunity_PlantTraits)
    } else {
        None
    }
}

fn match_immunity_names_4(f: &[char]) -> (r: Option<Immunity_Type>)
    ensures
        r == immunity_names_4(f@),
{
    if chars_eq(f, "Richiamo") || chars_eq(f, "Congedo") || chars_eq(f, "Immunità all'Esilio") {
        return Some(Immunity_Type::Immunity_RecallSpells);
    }
    if chars_eq(f, "Individuazione dei Pensieri") {
        return Some(Immunity_Type::Immunity_DetectThoughtSpell);
    }
    if chars_eq(f, "Individuazione dell'Allineamento") {
        return Some(Immunity_Type::Immunity_DetectAlignmentSpell);
    }
    if chars_eq(f, "Rivela Bugie") {
        return Some(Immunity_Type::Immunity_DetectLiesSpell);
    }
    if chars_eq(f, "Immunità agli Incantesimi") {
        return Some(Immunity_Type::Immunity_SpellImmunitySpell);
    }
    if chars_eq(f, "Ancora Dimensionale") {
        return Some(Immunity_Type::Immunity_DimensionalAnchorSpell);
    }
    if chars_eq(f, "charme sui mostri") {
        return Some(Immunity_Type::Immunity_CharmeMonsterSpell);
    }
    if chars_eq(f, "fulmine") {
        return Some(Immunity_Type::Immunity_LightningBoltSpell);
    }
    if chars_eq(f, "palla di fuoco") {
        return Some(Immunity_Type::Immunity_FireballSpell);
    }
    if chars_eq(f, "sonno") {
        return Some(Immunity_Type::Immunity_SleepSpell);
    }
    if chars_eq(f, "Risucchio di Energia") || chars_eq(f, "risucchio di energia") || chars_eq(f, "Risucchi di Energia") || chars_eq(f, "risucchi di energia") || chars_eq(f, "livelli negativi") || chars_eq(f, "Livelli Negativi") {
        return Some(Immunity_Type::Immunity_LevelDrain);
    }
    if chars_eq(f, "Risucchio di Caratteristiche") || chars_eq(f, "risucchio di caratteristiche") || chars_eq(f, "risucchi di caratteristiche") || chars_eq(f, "risucchio di caratteristica") {
        return Some(Immunity_Type::Immunity_ASDrain);
    }
    if chars_eq(f, "Danni alle caratteristiche") || chars_eq(f, "Danno alle Caratteristiche") || chars_eq(f, "danni alle caratteristiche") || chars_eq(f, "danni alle Caratteristiche") {
        return Some(Immunity_Type::Immunity_ASDmg);
    }
    if chars_eq(f, "Danni e risucchio di caratteristiche") || chars_eq(f, "Danni e risucchi di caratteristiche") || chars_eq(f, "Danno e risucchio alle caratteristiche") || chars_eq(f, "Danni e risucchio alle Caratteristiche") || chars_eq(f, "Danni e risucchi alle caratteristiche") || chars_eq(f, "danni e risucchi di Caratteristiche") {
        return Some(Immunity_Type::Immunity_ASDmgAndDrain);
    }
    if chars_eq(f, "Tratti dei Non Morti") {
        return Some(Immunity_Type::Immunity_UndeadTraits);
    }
    if chars_eq(f, "Tratti delle Melme") {
        return Some(Immunity_Type::Immunity_OozeTraits);
    }
    if chars_eq(f, "Tratti degli Sciami") {
        return Some(Immunity_Type::Immunity_SwarmTraits);
    }
    if chars_eq(f, "Tratti dei Costrutti") {
        return Some(Immunity_Type::Immunity_ConstructTraits);
    }
    if chars_eq(f, "Tratti dei Vegetali") {
        return Some(Immunity_Type::Immunity_PlantTraits);
    }
    None
}

/// Names of immunities, part 6 of 6.
pub open spec fn immunity_names_5(s: Seq<char>) -> Option<Immunity_Type> {
    if s == "Tratti degli Elementali"@ {
        Some(Immunity_Type::Immunity_ElementalTraits)
    } else if s == "Tratti dei Draghi"@ || s == "tratti dei Draghi"@ {
        Some(Immunity_Type::Immunity_DragonTraits)
    } else if s == "Dardo Incantato"@ {
        Some(Immunity_Type::Immunity_MagicMissile)
    } else if s == "Calmare Emozioni"@ {
        Some(Immunity_Type::Immunity_CalmEmotions)
    } else if s == "Convocazione"@ {
        Some(Immunity_Type::Immunity_Convocation)
    } else if s == "Immunità alle acque del Fiume Stige"@ || s == "immunità alle acque del Fiume Stige"@ || s == "acque del Fiume Stige"@ {
        Some(Immunity_Type::Immunity_StyxWater)
    } else if s == "Padronanza delle Rune"@ {
        Some(Immunity_Type::Immunity_RuneMastery)
    } else if s == "Controllo Magico"@ {
        Some(Immunity_Type::Immunity_MagicControl)
    } else if s == "Lentezza"@ {
        Some(Immunity_Type::Immunity_Slowness)
    } else if s == "scacciare"@ {
        Some(Immunity_Type::Immunity_TurnUndead)
    } else if s == "Incantesimi di Energia"@ {
        Some(Immunity_Type::Immunity_EnergySpells)
    } else if s == "Immunità all'Annichilazione"@ {
        Some(Immunity_Type::Immunity_Annihilation)
    } else if s == "Spostamento Planare"@ {
        Some(Immunity_Type::Immunity_PlaneShift)
    } else if s == "Incalare Energia da Fonti Non Mitiche"@ {
        Some(Immunity_Type::Immunity_ChannelEnergyNonMithic)
    } else if s == "Labirinto"@ {
        Some(Immunity_Type::Immunity_Labyrinth)
    } else if s == "Immunità alla Perdita di Memoria"@ {
        Some(Immunity_Type::Immunity_MemoryLoss)
    } else if s == "Risucchi di Sangue"@ {
        Some(Immunity_Type::Immunity_BloodDrain)
    } else if s == "Gas e vapori letali"@ || s == "vapori e gas letali"@ {
        Some(Immunity_Type::Immunity_LethalGas)
    } else if s == "Fuoco (60 punti)"@ || s == "Fuoco (96 punti)"@ || s == "Fuoco (108 punti)"@ || s == "Fuoco (120 punti)"@ || s == "fuoco (120 punti)"@ || s == "Freddo (120 punti)"@ || s == "Elettricità (120 punti)"@ {
        Some(Immunity_Type::Immunity_ProtectFromEnergy)
    } else {
        None
    }
}

fn match_immunity_names_5(f: &[char]) -> (r: Option<Immunity_Type>)
    ensures
        r == immunity_names_5(f@),
{
    if chars_eq(f, "Tratti degli Elementali") {
        return Some(Immunity_Type::Immunity_ElementalTraits);
    }
    if chars_eq(f, "Tratti dei Draghi") || chars_eq(f, "tratti dei Draghi") {
        return Some(Immunity_Type::Immunity_DragonTraits);
    }
    if chars_eq(f, "Dardo Incantato") {
        return Some(Immunity_Type::Immunity_MagicMissile);
    }
    if chars_eq(f, "Calmare Emozioni") {
        return Some(Immunity_Type::Immunity_CalmEmotions);
    }
    if chars_eq(f, "Convocazione") {
        return Some(Immunity_Type::Immunity_Convocation);
    }
    if chars_eq(f, "Immunità alle acque del Fiume Stige") || chars_eq(f, "immunità alle acque del Fiume Stige") || chars_eq(f, "acque del Fiume Stige") {
        return Some(Immunity_Type::Immunity_StyxWater);
    }
    if chars_eq(f, "Padronanza delle Rune") {
        return Some(Immunity_Type::Immunity_RuneMastery);
    }
    if chars_eq(f, "Controllo Magico") {
        return Some(Immunity_Type::Immunity_MagicControl);
    }
    if chars_eq(f, "Lentezza") {
        return Some(Immunity_Type::Immunity_Slowness);
    }
    if chars_eq(f, "scacciare") {
        return Some(Immunity_Type::Immunity_TurnUndead);
    }
    if chars_eq(f, "Incantesimi di Energia") {
        return Some(Immunity_Type::Immunity_EnergySpells);
    }
    if chars_eq(f, "Immunità all'Annichilazione") {
        return Some(Immunity_Type::Immunity_Annihilation);
    }
    if chars_eq(f, "Spostamento Planare") {
        return Some(Immunity_Type::Immunity_PlaneShift);
    }
    if chars_eq(f, "Incalare Energia da Fonti Non Mitiche") {
        return Some(Immunity_Type::Immunity_ChannelEnergyNonMithic);
    }
    if chars_eq(f, "Labirinto") {
        return Some(Immunity_Type::Immunity_Labyrinth);
    }
    if chars_eq(f, "Immunità alla Perdita di Memoria") {
        return Some(Immunity_Type::Immunity_MemoryLoss);
    }
    if chars_eq(f, "Risucchi di Sangue") {
        return Some(Immunity_Type::Immunity_BloodDrain);
    }
    if chars_eq(f, "Gas e vapori letali") || chars_eq(f, "vapori e gas letali") {
        return Some(Immunity_Type::Immunity_LethalGas);
    }
    if chars_eq(f, "Fuoco (60 punti)") || chars_eq(f, "Fuoco (96 punti)") || chars_eq(f, "Fuoco (108 punti)") || chars_eq(f, "Fuoco (120 punti)") || chars_eq(f, "fuoco (120 punti)") || chars_eq(f, "Freddo (120 punti)") || chars_eq(f, "Elettricità (120 punti)") {
        return Some(Immunity_Type::Immunity_ProtectFromEnergy);
    }
    None
}

/// The immunity a text names, such as `Fuoco` or `effetti di charme`; `None`
/// for a text that names none (where two rows give the same text, the first wins).
pub open spec fn spec_single_immunity(s: Seq<char>) -> Option<Immunity_Type> {
    if immunity_names_0(s) is Some {
        immunity_names_0(s)
    } else if immunity_names_1(s) is Some {
        immunity_names_1(s)
    } else if immunity_names_2(s) is Some {
        immunity_names_2(s)
    } else if immunity_names_3(s) is Some {
        immunity_names_3(s)
    } else if immunity_names_4(s) is Some {
        immunity_names_4(s)
    } else if immunity_names_5(s) is Some {
        immunity_names_5(s)
    } else {
        None
    }
}

/// The immunity `block` names; `None` for a text that names none.
pub fn parse_single_immunity(block: &str, page_name: &str) -> (r: Option<Immunity_Type>)
    ensures
        r == spec_single_immunity(block@),
{
    let f = chars_of(block);
    let m = match_immunity_names_0(f.as_slice());
    if m.is_some() {
        return m;
    }
    let m = match_immunity_names_1(f.as_slice());
    if m.is_some() {
        return m;
    }
    let m = match_immunity_names_2(f.as_slice());
    if m.is_some() {
        return m;
    }
    let m = match_immunity_names_3(f.as_slice());
    if m.is_some() {
        return m;
    }
    let m = match_immunity_names_4(f.as_slice());
    if m.is_some() {
        return m;
    }
    let m = match_immunity_names_5(f.as_slice());
    if m.is_some() {
        return m;
    }
    None
}

// ---------------------------------------------------------------------------
// Sorting and merging
// ---------------------------------------------------------------------------

/// `immunity_of_code` undoes `spec_code` on every kind but `Immunity_Invalid`.
pub proof fn lemma_code_roundtrip(x: Immunity_Type)
    ensures
        x != Immunity_Type::Immunity_Invalid ==> x.spec_code() < IMMUNITY_KINDS && immunity_of_code(
            x.spec_code() as int,
        ) == x,
        x == Immunity_Type::Immunity_Invalid ==> x.spec_code() == u64::MAX,
{
    match x {
        Immunity_Type::Immunity_Acid => {},
        Immunity_Type::Immunity_Fire => {},
        Immunity_Type::Immunity_Cold => {},
        Immunity_Type::Immunity_Elec => {},
        Immunity_Type::Immunity_Sound => {},
        Immunity_Type::Immunity_EnergyNegative => {},
        Immunity_Type::Immunity_EnergyPositive => {},
        Immunity_Type::Immunity_InfernalFire => {},
        Immunity_Type::Immunity_AcidAndFire => {},
        Immunity_Type::Immunity_FireAndCold => {},
        Immunity_Type::Immunity_ElecAndFire => {},
        Immunity_Type::Immunity_ColdAndElec => {},
        Immunity_Type::Immunity_Paralysis => {},
        Immunity_Type::Immunity_Sleep => {},
        Immunity_Type::Immunity_Fatigued => {},
        Immunity_Type::Immunity_Exhausted => {},
        Immunity_Type::Immunity_Fear => {},
        Immunity_Type::Immunity_Sickened => {},
        Immunity_Type::Immunity_Nauseated => {},
        Immunity_Type::Immunity_Petrified => {},
        Immunity_Type::Immunity_Blind => {},
        Immunity_Type::Immunity_Stun => {},
        Immunity_Type::Immunity_Confusion => {},
        Immunity_Type::Immunity_Dazed => {},
        Immunity_Type::Immunity_Staggered => {},
        Immunity_Type::Immunity_Dazzled => {},
        Immunity_Type::Immunity_Deaf => {},
        Immunity_Type::Immunity_BlindAndDeaf => {},
        Immunity_Type::Immunity_DazzledAndPetrified => {},
        Immunity_Type::Immunity_Shaken => {},
        Immunity_Type::Immunity_Frightened => {},
        Immunity_Type::Immunity_Poison => {},
        Immunity_Type::Immunity_PoisonIngested => {},
        Immunity_Type::Immunity_Disease => {},
        Immunity_Type::Immunity_Magic => {},
        Immunity_Type::Immunity_Criticals => {},
        Immunity_Type::Immunity_SneakAtk => {},
        Immunity_Type::Immunity_GazeAtk => {},
        Immunity_Type::Immunity_WeaponDmg => {},
        Immunity_Type::Immunity_Curse => {},
        Immunity_Type::Immunity_Bleeding => {},
        Immunity_Type::Immunity_Bludgeoning => {},
        Immunity_Type::Immunity_FallAndCrush => {},
        Immunity_Type::Immunity_SmellAtk => {},
        Immunity_Type::Immunity_Precision => {},
        Immunity_Type::Immunity_PiercingAndSlashing => {},
        Immunity_Type::Immunity_BludgeoningAndPiercing => {},
        Immunity_Type::Immunity_Flanking => {},
        Immunity_Type::Immunity_NonLethalDamage => {},
        Immunity_Type::Immunity_Warpproof => {},
        Immunity_Type::Immunity_Piercing => {},
        Immunity_Type::Immunity_Slashing => {},
        Immunity_Type::Immunity_Divination => {},
        Immunity_Type::Immunity_PermanentWounds => {},
        Immunity_Type::Immunity_DiseaseAndPoison => {},
        Immunity_Type::Immunity_FatiguedAndExhausted => {},
        Immunity_Type::Immunity_DazedAndStun => {},
        Immunity_Type::Immunity_ParalysisAndPetrified => {},
        Immunity_Type::Immunity_BleedingAndPermanentWounds => {},
        Immunity_Type::Immunity_SleepAndStun => {},
        Immunity_Type::Immunity_PrecisionAndCriticals => {},
        Immunity_Type::Immunity_BloodDrainAndBleeding => {},
        Immunity_Type::Immunity_BloodDrainAndBleedingAndPoison => {},
        Immunity_Type::Immunity_Pressure => {},
        Immunity_Type::Immunity_MindEffects => {},
        Immunity_Type::Immunity_DeathEffects => {},
        Immunity_Type::Immunity_EmotionEffects => {},
        Immunity_Type::Immunity_GazeEffects => {},
        Immunity_Type::Immunity_ForceEffects => {},
        Immunity_Type::Immunity_GazeAndIllusionEffects => {},
        Immunity_Type::Immunity_CharmEffects => {},
        Immunity_Type::Immunity_CompulsionEffect => {},
        Immunity_Type::Immunity_MetamorphosisEffects => {},
        Immunity_Type::Immunity_MindRegressionEffects => {},
        Immunity_Type::Immunity_CreatureCountEffect => {},
        Immunity_Type::Immunity_MindEffectsAndGaze => {},
        Immunity_Type::Immunity_CompletionAndActivationSpellEffects => {},
        Immunity_Type::Immunity_SensesEffects => {},
        Immunity_Type::Immunity_FearAndMindEffects => {},
        Immunity_Type::Immunity_IllusionEffects => {},
        Immunity_Type::Immunity_PainEffects => {},
        Immunity_Type::Immunity_ConfusionCrazyEffects => {},
        Immunity_Type::Immunity_AgingEffects => {},
        Immunity_Type::Immunity_ConfusionAndRegressionEffects => {},
        Immunity_Type::Immunity_Possession => {},
        Immunity_Type::Immunity_Rust => {},
        Immunity_Type::Immunity_IllusionSightEffects => {},
        Immunity_Type::Immunity_LightEffects => {},
        Immunity_Type::Immunity_CharmAndCompulsionEffect => {},
        Immunity_Type::Immunity_NecromancyEffects => {},
        Immunity_Type::Immunity_DeathAndAgingEffects => {},
        Immunity_Type::Immunity_NecromancyAndDeathEffects => {},
        Immunity_Type::Immunity_CharmeAndIllusionSpells => {},
        Immunity_Type::Immunity_RecallSpells => {},
        Immunity_Type::Immunity_DetectThoughtSpell => {},
        Immunity_Type::Immunity_DetectAlignmentSpell => {},
        Immunity_Type::Immunity_DetectLiesSpell => {},
        Immunity_Type::Immunity_SpellImmunitySpell => {},
        Immunity_Type::Immunity_DimensionalAnchorSpell => {},
        Immunity_Type::Immunity_CharmeMonsterSpell => {},
        Immunity_Type::Immunity_LightningBoltSpell => {},
        Immunity_Type::Immunity_FireballSpell => {},
        Immunity_Type::Immunity_SleepSpell => {},
        Immunity_Type::Immunity_ASDrain => {},
        Immunity_Type::Immunity_ASDmg => {},
        Immunity_Type::Immunity_LevelDrain => {},
        Immunity_Type::Immunity_ASDmgAndDrain => {},
        Immunity_Type::Immunity_LevelDrainAndASDmg => {},
        Immunity_Type::Immunity_LevelDrainAndASDmgAndDrain => {},
        Immunity_Type::Immunity_UndeadTraits => {},
        Immunity_Type::Immunity_OozeTraits => {},
        Immunity_Type::Immunity_SwarmTraits => {},
        Immunity_Type::Immunity_ConstructTraits => {},
        Immunity_Type::Immunity_PlantTraits => {},
        Immunity_Type::Immunity_ElementalTraits => {},
        Immunity_Type::Immunity_DragonTraits => {},
        Immunity_Type::Immunity_MagicMissile => {},
        Immunity_Type::Immunity_StyxWater => {},
        Immunity_Type::Immunity_CalmEmotions => {},
        Immunity_Type::Immunity_Convocation => {},
        Immunity_Type::Immunity_RuneMastery => {},
        Immunity_Type::Immunity_MagicControl => {},
        Immunity_Type::Immunity_Slowness => {},
        Immunity_Type::Immunity_TurnUndead => {},
        Immunity_Type::Immunity_EnergySpells => {},
        Immunity_Type::Immunity_Annihilation => {},
        Immunity_Type::Immunity_PlaneShift => {},
        Immunity_Type::Immunity_ChannelEnergyNonMithic => {},
        Immunity_Type::Immunity_Labyrinth => {},
        Immunity_Type::Immunity_MemoryLoss => {},
        Immunity_Type::Immunity_BloodDrain => {},
        Immunity_Type::Immunity_LethalGas => {},
        Immunity_Type::Immunity_ProtectFromEnergy => {},
        Immunity_Type::Immunity_Invalid => {},
    }
}

/// When the kind `x` is met while merging: the kind looked for and the kind
/// that stands for both.
pub open spec fn spec_merge_rule(x: Immunity_Type) -> Option<(Immunity_Type, Immunity_Type)> {
    match x {
        Immunity_Type::Immunity_Disease => Some((Immunity_Type::Immunity_Poison, Immunity_Type::Immunity_DiseaseAndPoison)),
        Immunity_Type::Immunity_Fatigued => Some((Immunity_Type::Immunity_Exhausted, Immunity_Type::Immunity_FatiguedAndExhausted)),
        Immunity_Type::Immunity_Dazed => Some((Immunity_Type::Immunity_Stun, Immunity_Type::Immunity_DazedAndStun)),
        Immunity_Type::Immunity_Paralysis => Some((Immunity_Type::Immunity_Petrified, Immunity_Type::Immunity_ParalysisAndPetrified)),
        Immunity_Type::Immunity_Acid => Some((Immunity_Type::Immunity_Fire, Immunity_Type::Immunity_AcidAndFire)),
        Immunity_Type::Immunity_Fire => Some((Immunity_Type::Immunity_Cold, Immunity_Type::Immunity_FireAndCold)),
        Immunity_Type::Immunity_Cold => Some((Immunity_Type::Immunity_Elec, Immunity_Type::Immunity_ColdAndElec)),
        Immunity_Type::Immunity_Elec => Some((Immunity_Type::Immunity_Fire, Immunity_Type::Immunity_ElecAndFire)),
        Immunity_Type::Immunity_LevelDrain => Some((Immunity_Type::Immunity_ASDmg, Immunity_Type::Immunity_LevelDrainAndASDmg)),
        Immunity_Type::Immunity_Bleeding => Some((Immunity_Type::Immunity_PermanentWounds, Immunity_Type::Immunity_BleedingAndPermanentWounds)),
        Immunity_Type::Immunity_CharmEffects => Some((Immunity_Type::Immunity_CompulsionEffect, Immunity_Type::Immunity_CharmAndCompulsionEffect)),
        Immunity_Type::Immunity_DeathEffects => Some((Immunity_Type::Immunity_AgingEffects, Immunity_Type::Immunity_DeathAndAgingEffects)),
        Immunity_Type::Immunity_LevelDrainAndASDmg => Some((Immunity_Type::Immunity_ASDrain, Immunity_Type::Immunity_LevelDrainAndASDmgAndDrain)),
        Immunity_Type::Immunity_Sleep => Some((Immunity_Type::Immunity_Stun, Immunity_Type::Immunity_SleepAndStun)),
        Immunity_Type::Immunity_NecromancyEffects => Some((Immunity_Type::Immunity_DeathEffects, Immunity_Type::Immunity_NecromancyAndDeathEffects)),
        Immunity_Type::Immunity_Blind => Some((Immunity_Type::Immunity_Deaf, Immunity_Type::Immunity_BlindAndDeaf)),
        Immunity_Type::Immunity_Precision => Some((Immunity_Type::Immunity_Criticals, Immunity_Type::Immunity_PrecisionAndCriticals)),
        Immunity_Type::Immunity_Dazzled => Some((Immunity_Type::Immunity_Petrified, Immunity_Type::Immunity_DazzledAndPetrified)),
        Immunity_Type::Immunity_BloodDrain => Some((Immunity_Type::Immunity_Bleeding, Immunity_Type::Immunity_BloodDrainAndBleeding)),
        Immunity_Type::Immunity_BloodDrainAndBleeding => Some((Immunity_Type::Immunity_Poison, Immunity_Type::Immunity_BloodDrainAndBleedingAndPoison)),
        _ => None,
    }
}

fn merge_rule(x: Immunity_Type) -> (r: Option<(Immunity_Type, Immunity_Type)>)
    ensures
        r == spec_merge_rule(x),
{
    match x {
        Immunity_Type::Immunity_Disease => Some((Immunity_Type::Immunity_Poison, Immunity_Type::Immunity_DiseaseAndPoison)),
        Immunity_Type::Immunity_Fatigued => Some((Immunity_Type::Immunity_Exhausted, Immunity_Type::Immunity_FatiguedAndExhausted)),
        Immunity_Type::Immunity_Dazed => Some((Immunity_Type::Immunity_Stun, Immunity_Type::Immunity_DazedAndStun)),
        Immunity_Type::Immunity_Paralysis => Some((Immunity_Type::Immunity_Petrified, Immunity_Type::Immunity_ParalysisAndPetrified)),
        Immunity_Type::Immunity_Acid => Some((Immunity_Type::Immunity_Fire, Immunity_Type::Immunity_AcidAndFire)),
        Immunity_Type::Immunity_Fire => Some((Immunity_Type::Immunity_Cold, Immunity_Type::Immunity_FireAndCold)),
        Immunity_Type::Immunity_Cold => Some((Immunity_Type::Immunity_Elec, Immunity_Type::Immunity_ColdAndElec)),
        Immunity_Type::Immunity_Elec => Some((Immunity_Type::Immunity_Fire, Immunity_Type::Immunity_ElecAndFire)),
        Immunity_Type::Immunity_LevelDrain => Some((Immunity_Type::Immunity_ASDmg, Immunity_Type::Immunity_LevelDrainAndASDmg)),
        Immunity_Type::Immunity_Bleeding => Some((Immunity_Type::Immunity_PermanentWounds, Immunity_Type::Immunity_BleedingAndPermanentWounds)),
        Immunity_Type::Immunity_CharmEffects => Some((Immunity_Type::Immunity_CompulsionEffect, Immunity_Type::Immunity_CharmAndCompulsionEffect)),
        Immunity_Type::Immunity_DeathEffects => Some((Immunity_Type::Immunity_AgingEffects, Immunity_Type::Immunity_DeathAndAgingEffects)),
        Immunity_Type::Immunity_LevelDrainAndASDmg => Some((Immunity_Type::Immunity_ASDrain, Immunity_Type::Immunity_LevelDrainAndASDmgAndDrain)),
        Immunity_Type::Immunity_Sleep => Some((Immunity_Type::Immunity_Stun, Immunity_Type::Immunity_SleepAndStun)),
        Immunity_Type::Immunity_NecromancyEffects => Some((Immunity_Type::Immunity_DeathEffects, Immunity_Type::Immunity_NecromancyAndDeathEffects)),
        Immunity_Type::Immunity_Blind => Some((Immunity_Type::Immunity_Deaf, Immunity_Type::Immunity_BlindAndDeaf)),
        Immunity_Type::Immunity_Precision => Some((Immunity_Type::Immunity_Criticals, Immunity_Type::Immunity_PrecisionAndCriticals)),
        Immunity_Type::Immunity_Dazzled => Some((Immunity_Type::Immunity_Petrified, Immunity_Type::Immunity_DazzledAndPetrified)),
        Immunity_Type::Immunity_BloodDrain => Some((Immunity_Type::Immunity_Bleeding, Immunity_Type::Immunity_BloodDrainAndBleeding)),
        Immunity_Type::Immunity_BloodDrainAndBleeding => Some((Immunity_Type::Immunity_Poison, Immunity_Type::Immunity_BloodDrainAndBleedingAndPoison)),
        _ => None,
    }
}

/// A rule never looks for the kind that triggered it.
proof fn lemma_merge_rule_distinct(x: Immunity_Type)
    ensures
        spec_merge_rule(x) matches Some((a, b)) ==> a != x,
{
}

/// The kinds in code order.
pub open spec fn all_immunities() -> Seq<Immunity_Type> {
    Seq::new(IMMUNITY_KINDS as nat, |c: int| immunity_of_code(c))
}

/// Membership in `s`, as a predicate.
pub open spec fn present_in(s: Seq<Immunity_Type>) -> spec_fn(Immunity_Type) -> bool {
    |x: Immunity_Type| s.contains(x)
}

/// The kinds present in `s`, each once, in the order of their codes (what
/// sorting by kind and dropping repeats gives; `Immunity_Invalid` sorts last).
pub open spec fn spec_sorted_unique(s: Seq<Immunity_Type>) -> Seq<Immunity_Type> {
    let known = all_immunities().filter(present_in(s));
    if s.contains(Immunity_Type::Immunity_Invalid) {
        known.push(Immunity_Type::Immunity_Invalid)
    } else {
        known
    }
}

fn contains_immunity(v: &Vec<Immunity_Type>, x: Immunity_Type) -> (r: bool)
    ensures
        r == v@.contains(x),
{
    let mut k: usize = 0;
    while k < v.len()
        invariant
            k <= v@.len(),
            forall|m: int| 0 <= m < k ==> v@[m] != x,
        decreases v.len() - k,
    {
        if v[k] == x {
            assert(v@[k as int] == x);
            return true;
        }
        k = k + 1;
    }
    false
}

/// The immunities of `v` sorted by kind, each kept once.
pub fn sort_dedup_immunities(v: &Vec<Immunity_Type>) -> (r: Vec<Immunity_Type>)
    ensures
        r@ == spec_sorted_unique(v@),
{
    let mut r: Vec<Immunity_Type> = Vec::new();
    let mut c: u64 = 0;
    let ghost all = all_immunities();
    let ghost pred = present_in(v@);
    assert(all.take(0) =~= Seq::<Immunity_Type>::empty());
    proof {
        reveal(Seq::filter);
    }
    while c < IMMUNITY_KINDS
        invariant
            c <= IMMUNITY_KINDS,
            all == all_immunities(),
            pred == present_in(v@),
            r@ == all.take(c as int).filter(pred),
        decreases IMMUNITY_KINDS - c,
    {
        let x = from_code(c);
        proof {
            assert(all.take(c + 1) =~= all.take(c as int).push(x));
            all.take(c as int).lemma_filter_push(x, pred);
        }
        if contains_immunity(v, x) {
            r.push(x);
        }
        c = c + 1;
    }
    assert(all.take(IMMUNITY_KINDS as int) =~= all);
    if contains_immunity(v, Immunity_Type::Immunity_Invalid) {
        r.push(Immunity_Type::Immunity_Invalid);
    }
    r
}

/// What replacing does when `to_replace` occurs in `s`: of its first
/// position and `i`, the later one is removed (the last entry moves into its
/// place) and the earlier one becomes `replaced`; `None` when `to_replace`
/// does not occur.
pub open spec fn spec_replace_if_present(
    s: Seq<Immunity_Type>,
    to_replace: Immunity_Type,
    replaced: Immunity_Type,
    i: int,
) -> Option<Seq<Immunity_Type>> {
    match s.index_of_first(to_replace) {
        None => None,
        Some(idx) => {
            let to_remove = if idx < i {
                i
            } else {
                idx
            };
            let to_keep = if idx < i {
                idx
            } else {
                i
            };
            Some(s.update(to_remove, s.last()).drop_last().update(to_keep, replaced))
        },
    }
}

/// Replace the pair formed by the entry at `*i` and the first `to_replace`
/// by `replaced` (see `spec_replace_if_present`); on a replacement
/// `*new_count` drops by one and `*i` goes back to 0.
pub fn replace_if_present(
    imm: &mut Vec<Immunity_Type>,
    to_replace: Immunity_Type,
    replaced: Immunity_Type,
    new_count: &mut usize,
    i: &mut usize,
)
    requires
        old(imm)@.contains(to_replace) ==> {
            &&& *old(i) < old(imm)@.len()
            &&& *old(new_count) > 0
            &&& !(old(imm)@.index_of_first(to_replace) == Some(*old(i) as int) && *old(i) + 1
                == old(imm)@.len())
        },
    ensures
        match spec_replace_if_present(old(imm)@, to_replace, replaced, *old(i) as int) {
            Some(t) => final(imm)@ == t && *final(new_count) == *old(new_count) - 1 && *final(i) == 0,
            None => final(imm)@ == old(imm)@ && *final(new_count) == *old(new_count) && *final(i)
                == *old(i),
        },
        *old(new_count) == old(imm)@.len() ==> *final(new_count) == final(imm)@.len(),
{
    let ghost s = imm@;
    proof {
        s.index_of_first_ensures(to_replace);
    }
    let mut k: usize = 0;
    while k < imm.len()
        invariant
            imm@ == s,
            s == old(imm)@,
            k <= s.len(),
            *i == *old(i),
            *new_count == *old(new_count),
            s.contains(to_replace) ==> {
                &&& *i < s.len()
                &&& *new_count > 0
                &&& !(s.index_of_first(to_replace) == Some(*i as int) && *i + 1 == s.len())
            },
            forall|m: int| 0 <= m < k ==> s[m] != to_replace,
        decreases imm.len() - k,
    {
        if imm[k] == to_replace {
            proof {
                s.index_of_first_ensures(to_replace);
                assert(s.contains(to_replace));
                let f = s.index_of_first(to_replace)->0;
                assert(f == k) by {
                    if f < k {
                        assert(s[f] != to_replace);
                    }
                    if k < f {
                        assert(s[k as int] == to_replace);
                    }
                }
            }
            let idx = k;
            let mut to_remove = idx;
            let mut to_keep = *i;
            if idx < *i {
                to_remove = *i;
                to_keep = idx;
            }
            imm.swap_remove(to_remove);
            imm.set(to_keep, replaced);
            *new_count = *new_count - 1;
            *i = 0;
            return;
        }
        k = k + 1;
    }
    proof {
        assert forall|m: int| 0 <= m < s.len() implies s[m] != to_replace by {}
        assert(!s.contains(to_replace));
        s.index_of_first_ensures(to_replace);
    }
}

/// One merge step at position `i`: the list after it, and the position the
/// step leaves (0 after a replacement).
pub open spec fn spec_merge_step(s: Seq<Immunity_Type>, i: int) -> (Seq<Immunity_Type>, int) {
    match spec_merge_rule(s[i]) {
        Some((a, b)) => match spec_replace_if_present(s, a, b, i) {
            Some(t) => (t, 0),
            None => (s, i),
        },
        None => (s, i),
    }
}

/// A merge step either leaves the list and position alone or removes one
/// entry and goes back to 0.
pub proof fn lemma_merge_step_len(s: Seq<Immunity_Type>, i: int)
    requires
        0 <= i < s.len(),
    ensures
        spec_merge_step(s, i).0.len() == s.len() && spec_merge_step(s, i).1 == i
            || spec_merge_step(s, i).0.len() == s.len() - 1 && spec_merge_step(s, i).1 == 0,
{
    if let Some((a, b)) = spec_merge_rule(s[i]) {
        s.index_of_first_ensures(a);
    }
}

/// The merge loop from position `i`: each step is followed by a move to the
/// next position, and the loop ends when that position is past the end.
pub open spec fn spec_merge_from(s: Seq<Immunity_Type>, i: int) -> Seq<Immunity_Type>
    decreases s.len(), s.len() - i,
{
    if 0 <= i < s.len() {
        let (t, j) = spec_merge_step(s, i);
        proof {
            lemma_merge_step_len(s, i);
        }
        if j + 1 >= t.len() {
            t
        } else {
            spec_merge_from(t, j + 1)
        }
    } else {
        s
    }
}

/// Merge pairs of immunities that a combined kind stands for (see
/// `spec_merge_rule` and `spec_merge_from`); returns the number left.
pub fn merge_immunities(imm: &mut Vec<Immunity_Type>) -> (r: usize)
    requires
        old(imm)@.len() >= 1,
    ensures
        final(imm)@ == spec_merge_from(old(imm)@, 0),
        r == final(imm)@.len(),
{
    let ghost target = spec_merge_from(imm@, 0);
    let mut new_count = imm.len();
    let mut i: usize = 0;
    loop
        invariant_except_break
            new_count == imm@.len(),
            i < imm@.len(),
            spec_merge_from(imm@, i as int) == target,
        ensures
            new_count == imm@.len(),
            imm@ == target,
        decreases imm@.len(), imm@.len() - i,
    {
        let ghost s = imm@;
        let ghost i0 = i as int;
        proof {
            lemma_merge_step_len(s, i0);
            lemma_merge_rule_distinct(s[i0]);
        }
        let cur = imm[i];
        match merge_rule(cur) {
            Some((to_replace, replaced)) => {
                proof {
                    s.index_of_first_ensures(to_replace);
                }
                replace_if_present(imm, to_replace, replaced, &mut new_count, &mut i);
            },
            None => {},
        }
        assert(imm@ == spec_merge_step(s, i0).0 && i == spec_merge_step(s, i0).1);
        i = i + 1;
        if i >= new_count {
            assert(spec_merge_from(s, i0) == imm@);
            break ;
        }
        assert(spec_merge_from(s, i0) == spec_merge_from(imm@, i as int));
    }
    new_count
}

// ---------------------------------------------------------------------------
// Packing
// ---------------------------------------------------------------------------

/// What slot `k` of the packed word holds: the code of the `k`-th immunity,
/// or `0xFF` past the last one.
pub open spec fn spec_imm_slot(s: Seq<Immunity_Type>, k: int) -> u64 {
    if k < s.len() {
        s[k].spec_code()
    } else {
        0xFF
    }
}

/// The first `k` slots, eight bits apart, the first in the lowest bits.
pub open spec fn spec_pack_slots(s: Seq<Immunity_Type>, k: nat) -> u64
    decreases k,
{
    if k == 0 {
        0
    } else {
        spec_pack_slots(s, (k - 1) as nat) | (spec_imm_slot(s, k - 1) << ((8 * (k - 1)) as u64))
    }
}

/// The word for a list of at most eight immunities.
pub open spec fn spec_pack_immunities(s: Seq<Immunity_Type>) -> u64 {
    spec_pack_slots(s, IMM_MAX_COUNT as nat)
}

fn pack_immunities(imm: &Vec<Immunity_Type>) -> (r: u64)
    requires
        imm@.len() <= IMM_MAX_COUNT,
    ensures
        r == spec_pack_immunities(imm@),
{
    let mut result: u64 = 0;
    let mut i: u64 = 0;
    let n = imm.len() as u64;
    while i < n
        invariant
            n == imm@.len() <= IMM_MAX_COUNT,
            i <= n,
            result == spec_pack_slots(imm@, i as nat),
        decreases n - i,
    {
        let c = imm[i as usize].code();
        result = result | (c << (i * IMM_SINGLE_BIT_LEN));
        i = i + 1;
    }
    while i < IMM_MAX_COUNT
        invariant
            n == imm@.len() <= IMM_MAX_COUNT,
            n <= i <= IMM_MAX_COUNT,
            result == spec_pack_slots(imm@, i as nat),
        decreases IMM_MAX_COUNT - i,
    {
        result = result | (0xFFu64 << (i * IMM_SINGLE_BIT_LEN));
        i = i + 1;
    }
    result
}

// ---------------------------------------------------------------------------
// The immunity field
// ---------------------------------------------------------------------------

/// Each of `blocks` as an immunity, when all of them name one.
pub open spec fn spec_parse_immunities(blocks: Seq<Seq<char>>) -> Option<Seq<Immunity_Type>> {
    if forall|i: int| 0 <= i < blocks.len() ==> #[trigger] spec_single_immunity(blocks[i]) is Some {
        Some(Seq::new(blocks.len(), |i: int| spec_single_immunity(blocks[i])->0))
    } else {
        None
    }
}

/// The immunities a field lists, in the order they are packed: as written
/// when there are at most eight, otherwise sorted, without repeats and
/// merged; `None` when an entry names no immunity.
pub open spec fn spec_immunity_list(field: Seq<char>) -> Option<Seq<Immunity_Type>> {
    match spec_parse_immunities(spec_comma_blocks(field)) {
        None => None,
        Some(imm) => if imm.len() <= IMM_MAX_COUNT {
            Some(imm)
        } else {
            Some(spec_merge_from(spec_sorted_unique(imm), 0))
        },
    }
}

/// The word for an immunity field: the sentinel for an empty field or `-`;
/// otherwise the immunities of `spec_immunity_list` packed; `None` when an
/// entry names no immunity or more than eight are left.
pub open spec fn spec_map_immunities(field: Seq<char>) -> Option<u64> {
    if field == ""@ || field == "-"@ {
        Some(IMM_SENTINEL_VALUE)
    } else {
        match spec_immunity_list(field) {
            None => None,
            Some(list) => if list.len() <= IMM_MAX_COUNT {
                Some(spec_pack_immunities(list))
            } else {
                None
            },
        }
    }
}

proof fn lemma_sorted_unique_nonempty(s: Seq<Immunity_Type>)
    requires
        s.len() >= 1,
    ensures
        spec_sorted_unique(s).len() >= 1,
{
    let x = s[0];
    assert(s.contains(x));
    if x != Immunity_Type::Immunity_Invalid {
        lemma_code_roundtrip(x);
        let all = all_immunities();
        assert(all[x.spec_code() as int] == x);
        assert(all.contains(x));
        assert((present_in(s))(x));
        all.lemma_filter_contains(present_in(s), x.spec_code() as int);
        assert(all.filter(present_in(s)).contains(x));
    }
}

/// `prepare_and_map_immunities`, or `None` where an entry names no immunity
/// or more than eight are left after merging.
pub fn try_prepare_and_map_immunities(defense: &mut Vec<&str>, page_name: &str) -> (r: Option<u64>)
    requires
        IMM_IDX_IN_ARR < old(defense)@.len(),
    ensures
        final(defense)@ == old(defense)@,
        r == spec_map_immunities(old(defense)@[IMM_IDX_IN_ARR as int]@),
{
    let field: &str = defense[IMM_IDX_IN_ARR];
    if str_eq(field, "") || str_eq(field, "-") {
        return Some(IMM_SENTINEL_VALUE);
    }
    let blocks = comma_blocks(field);
    let ghost bv = views(blocks@);
    let mut partial_result: Vec<Immunity_Type> = Vec::new();
    let mut k: usize = 0;
    while k < blocks.len()
        invariant
            bv == views(blocks@),
            bv == spec_comma_blocks(field@),
            field@ != ""@,
            field@ != "-"@,
            IMM_IDX_IN_ARR < old(defense)@.len(),
            old(defense)@[IMM_IDX_IN_ARR as int] == field,
            defense@ == old(defense)@,
            k <= blocks@.len(),
            partial_result@.len() == k,
            forall|m: int| 0 <= m < k ==> #[trigger] spec_single_immunity(bv[m]) is Some
                && partial_result@[m] == spec_single_immunity(bv[m])->0,
        decreases blocks.len() - k,
    {
        match parse_single_immunity(blocks[k], page_name) {
            Some(x) => {
                partial_result.push(x);
            },
            None => {
                assert(spec_single_immunity(bv[k as int]) is None);
                return None;
            },
        }
        k = k + 1;
    }
    assert(partial_result@ =~= Seq::new(bv.len(), |i: int| spec_single_immunity(bv[i])->0));
    if partial_result.len() <= 8 {
        return Some(pack_immunities(&partial_result));
    }
    let mut sorted = sort_dedup_immunities(&partial_result);
    proof {
        lemma_sorted_unique_nonempty(partial_result@);
    }
    let effective_count = merge_immunities(&mut sorted);
    if effective_count > 8 {
        assert(field@ != ""@ && field@ != "-"@);
        assert(spec_parse_immunities(bv) == Some(partial_result@));
        return None;
    }
    Some(pack_immunities(&sorted))
}

/// The packed immunities of the field at `IMM_IDX_IN_ARR` (see
/// `spec_map_immunities`).
pub fn prepare_and_map_immunities(defense: &mut Vec<&str>, page_name: &str) -> (r: u64)
    requires
        IMM_IDX_IN_ARR < old(defense)@.len(),
        spec_map_immunities(old(defense)@[IMM_IDX_IN_ARR as int]@) is Some,
    ensures
        final(defense)@ == old(defense)@,
        r == spec_map_immunities(old(defense)@[IMM_IDX_IN_ARR as int]@)->0,
{
    match try_prepare_and_map_immunities(defense, page_name) {
        Some(v) => v,
        None => 0,
    }
}

// ---------------------------------------------------------------------------
// Laws
// ---------------------------------------------------------------------------

/// No name stands for `Immunity_Invalid`.
pub proof fn lemma_single_immunity_valid(s: Seq<char>)
    ensures
        spec_single_immunity(s) matches Some(x) ==> x != Immunity_Type::Immunity_Invalid,
{
}

/// The kind numbered `c` has code `c`.
pub proof fn lemma_code_of_immunity(c: int)
    requires
        0 <= c < IMMUNITY_KINDS,
    ensures
        immunity_of_code(c).spec_code() == c,
        immunity_of_code(c) != Immunity_Type::Immunity_Invalid,
{
}

proof fn lemma_filter_codes_increase(pred: spec_fn(Immunity_Type) -> bool, c: int)
    requires
        0 <= c <= IMMUNITY_KINDS,
    ensures
        ({
            let f = all_immunities().take(c).filter(pred);
            &&& forall|i: int, j: int| 0 <= i < j < f.len() ==> f[i].spec_code() < f[j].spec_code()
            &&& forall|i: int| 0 <= i < f.len() ==> #[trigger] f[i].spec_code() < c
        }),
    decreases c,
{
    let all = all_immunities();
    if c == 0 {
        assert(all.take(0) =~= Seq::<Immunity_Type>::empty());
        reveal(Seq::filter);
    } else {
        lemma_filter_codes_increase(pred, c - 1);
        let x = all[c - 1];
        lemma_code_of_immunity(c - 1);
        assert(all.take(c) =~= all.take(c - 1).push(x));
        all.take(c - 1).lemma_filter_push(x, pred);
    }
}

/// Sorting and dropping repeats keeps exactly the kinds of `s`, each once,
/// in increasing order of code.
pub proof fn lemma_sorted_unique_law(s: Seq<Immunity_Type>)
    ensures
        forall|x: Immunity_Type| #[trigger] spec_sorted_unique(s).contains(x) <==> s.contains(x),
        forall|i: int, j: int|
            0 <= i < j < spec_sorted_unique(s).len() ==> spec_sorted_unique(s)[i].spec_code()
                < spec_sorted_unique(s)[j].spec_code(),
{
    let all = all_immunities();
    let pred = present_in(s);
    let known = all.filter(pred);
    let r = spec_sorted_unique(s);
    lemma_filter_codes_increase(pred, IMMUNITY_KINDS as int);
    assert(all.take(IMMUNITY_KINDS as int) =~= all);
    assert forall|x: Immunity_Type| #[trigger] r.contains(x) <==> s.contains(x) by {
        if s.contains(x) {
            if x != Immunity_Type::Immunity_Invalid {
                lemma_code_roundtrip(x);
                assert(all[x.spec_code() as int] == x);
                all.lemma_filter_contains(pred, x.spec_code() as int);
                if s.contains(Immunity_Type::Immunity_Invalid) {
                    let k = choose|k: int| 0 <= k < known.len() && known[k] == x;
                    assert(r[k] == x);
                }
            } else {
                assert(r[r.len() - 1] == x);
            }
        }
        if r.contains(x) {
            if known.contains(x) {
                let k = choose|k: int| 0 <= k < known.len() && known[k] == x;
                all.lemma_filter_pred(pred, k);
            } else {
                assert(s.contains(Immunity_Type::Immunity_Invalid));
                let k = choose|k: int| 0 <= k < r.len() && r[k] == x;
                if k < known.len() {
                    assert(known[k] == x);
                }
            }
        }
    }
    if s.contains(Immunity_Type::Immunity_Invalid) {
        assert forall|i: int, j: int| 0 <= i < j < r.len() implies r[i].spec_code()
            < r[j].spec_code() by {
            if j == r.len() - 1 {
                assert(known[i].spec_code() < IMMUNITY_KINDS);
            } else {
                assert(r[i] == known[i] && r[j] == known[j]);
            }
        }
    }
}

/// Merging keeps the list free of `Immunity_Invalid` and never lengthens it.
pub proof fn lemma_merge_keeps_known(s: Seq<Immunity_Type>, i: int)
    requires
        !s.contains(Immunity_Type::Immunity_Invalid),
    ensures
        !spec_merge_from(s, i).contains(Immunity_Type::Immunity_Invalid),
        spec_merge_from(s, i).len() <= s.len(),
    decreases s.len(), s.len() - i,
{
    if 0 <= i < s.len() {
        let (t, j) = spec_merge_step(s, i);
        lemma_merge_step_len(s, i);
        if let Some((a, b)) = spec_merge_rule(s[i]) {
            s.index_of_first_ensures(a);
        }
        assert forall|k: int| 0 <= k < t.len() implies t[k] != Immunity_Type::Immunity_Invalid by {
            assert(s.contains(s[k]));
            assert(s.contains(s.last()));
        }
        if j + 1 < t.len() {
            lemma_merge_keeps_known(t, j + 1);
        }
    }
}

proof fn lemma_imm_slot_bits(p: u64, x: u64, k: u64, i: u64)
    requires
        k <= 7,
        i < k,
        x < 0x100,
        p >> ((k * 8) as u64) == 0,
    ensures
        ((p | (x << ((k * 8) as u64))) >> ((i * 8) as u64)) & 0xFF == (p >> ((i * 8) as u64)) & 0xFF,
{
    assert(((p | (x << ((k * 8) as u64))) >> ((i * 8) as u64)) & 0xFF == (p >> ((i * 8) as u64))
        & 0xFF) by (bit_vector)
        requires
            k <= 7,
            i < k,
            x < 0x100,
            p >> ((k * 8) as u64) == 0,
    ;
}

proof fn lemma_imm_top_bits(p: u64, x: u64, k: u64)
    requires
        k <= 7,
        x < 0x100,
        p >> ((k * 8) as u64) == 0,
    ensures
        ((p | (x << ((k * 8) as u64))) >> ((k * 8) as u64)) & 0xFF == x,
        k < 7 ==> (p | (x << ((k * 8) as u64))) >> (((k + 1) * 8) as u64) == 0,
{
    assert(((p | (x << ((k * 8) as u64))) >> ((k * 8) as u64)) & 0xFF == x && (k < 7 ==> (p | (x
        << ((k * 8) as u64))) >> (((k + 1) * 8) as u64) == 0)) by (bit_vector)
        requires
            k <= 7,
            x < 0x100,
            p >> ((k * 8) as u64) == 0,
    ;
}

proof fn lemma_pack_slots_unpack(s: Seq<Immunity_Type>, k: nat)
    requires
        k <= IMM_MAX_COUNT,
        forall|i: int| 0 <= i < k ==> #[trigger] spec_imm_slot(s, i) < 0x100,
    ensures
        k < IMM_MAX_COUNT ==> spec_pack_slots(s, k) >> ((8 * k) as u64) == 0,
        forall|i: int|
            0 <= i < k ==> (spec_pack_slots(s, k) >> ((8 * i) as u64)) & 0xFF == #[trigger] spec_imm_slot(
                s,
                i,
            ),
    decreases k,
{
    if k == 0 {
        assert(0u64 >> 0u64 == 0) by (bit_vector);
    } else {
        let k1 = (k - 1) as nat;
        lemma_pack_slots_unpack(s, k1);
        let p = spec_pack_slots(s, k1);
        let x = spec_imm_slot(s, k1 as int);
        let kk = k1 as u64;
        assert((kk * 8) as u64 == (8 * k1) as u64);
        assert(((kk + 1) * 8) as u64 == (8 * k) as u64);
        lemma_imm_top_bits(p, x, kk);
        assert forall|i: int| 0 <= i < k implies (spec_pack_slots(s, k) >> ((8 * i) as u64)) & 0xFF
            == #[trigger] spec_imm_slot(s, i) by {
            if i < k1 {
                lemma_imm_slot_bits(p, x, kk, i as u64);
                assert(((i as u64) * 8) as u64 == (8 * i) as u64);
            }
        }
    }
}

/// Every immunity of a field can be read back from its byte of the word, in
/// order, and the bytes after the last read `0xFF`, which is no immunity's
/// code.
pub proof fn lemma_immunities_unpack(field: Seq<char>)
    requires
        spec_map_immunities(field) is Some,
        field != ""@,
        field != "-"@,
    ensures
        ({
            let list = spec_immunity_list(field)->0;
            let r = spec_map_immunities(field)->0;
            &&& list.len() <= IMM_MAX_COUNT
            &&& forall|i: int| 0 <= i < list.len() ==> #[trigger] list[i].spec_code() < 0xFF
            &&& forall|i: int|
                0 <= i < IMM_MAX_COUNT ==> (r >> ((8 * i) as u64)) & 0xFF == #[trigger] spec_imm_slot(
                    list,
                    i,
                )
        }),
{
    let blocks = spec_comma_blocks(field);
    let imm = spec_parse_immunities(blocks)->0;
    let list = spec_immunity_list(field)->0;
    assert(!imm.contains(Immunity_Type::Immunity_Invalid)) by {
        assert forall|k: int| 0 <= k < imm.len() implies imm[k] != Immunity_Type::Immunity_Invalid by {
            assert(spec_single_immunity(blocks[k]) is Some);
            lemma_single_immunity_valid(blocks[k]);
        }
    }
    if imm.len() > IMM_MAX_COUNT {
        lemma_sorted_unique_law(imm);
        lemma_merge_keeps_known(spec_sorted_unique(imm), 0);
    }
    assert(!list.contains(Immunity_Type::Immunity_Invalid));
    assert forall|i: int| 0 <= i < list.len() implies #[trigger] list[i].spec_code() < 0xFF by {
        lemma_code_roundtrip(list[i]);
    }
    assert forall|i: int| 0 <= i < IMM_MAX_COUNT implies #[trigger] spec_imm_slot(list, i) < 0x100 by {
        if i < list.len() {
            assert(list[i].spec_code() < 0xFF);
        }
    }
    lemma_pack_slots_unpack(list, IMM_MAX_COUNT as nat);
}

} // verus!
