//! The jobs of the game world, and the names under which the game files
//! know them.

use vstd::prelude::*;
use std::collections::HashMap;
use encoding::all::WINDOWS_1252;
use encoding::types::Encoding;
use encoding::DecoderTrap;

verus! {

broadcast use vstd::std_specs::hash::group_hash_axioms;

/// The characters that the bytes `0x80..=0x9F` stand for in Windows-1252.
pub open spec fn windows_1252_high() -> Seq<char> {
    seq![
        '\u{20ac}', '\u{81}', '\u{201a}', '\u{192}',
        '\u{201e}', '\u{2026}', '\u{2020}', '\u{2021}',
        '\u{2c6}', '\u{2030}', '\u{160}', '\u{2039}',
        '\u{152}', '\u{8d}', '\u{17d}', '\u{8f}',
        '\u{90}', '\u{2018}', '\u{2019}', '\u{201c}',
        '\u{201d}', '\u{2022}', '\u{2013}', '\u{2014}',
        '\u{2dc}', '\u{2122}', '\u{161}', '\u{203a}',
        '\u{153}', '\u{9d}', '\u{17e}', '\u{178}',
    ]
}

/// The character that a byte stands for in Windows-1252: the one with the
/// byte's own number, but for the bytes `0x80..=0x9F`.
pub open spec fn windows_1252_char(byte: u8) -> char {
    if byte < 0x80 || byte >= 0xA0 {
        byte as char
    } else {
        windows_1252_high()[byte - 0x80]
    }
}

/// The text that bytes stand for in Windows-1252: one character per byte.
pub open spec fn windows_1252_text(bytes: Seq<u8>) -> Seq<char> {
    bytes.map_values(|byte: u8| windows_1252_char(byte))
}

/// `WINDOWS_1252.decode` of the crate `encoding`, strict: every byte stands
/// for a character in this encoding, so the decoder never fails, and the text
/// has the character of each byte in its place.
#[verifier::external_body]
fn windows_1252_decode(bytes: &[u8]) -> (text: Option<String>)
    ensures
        text is Some,
        text.unwrap()@ == windows_1252_text(bytes@),
{
    WINDOWS_1252.decode(bytes, DecoderTrap::Strict).ok()
}

/// The text that `bytes` stand for in Windows-1252.
pub fn decode_windows_1252(bytes: &[u8]) -> (text: String)
    ensures
        text@ == windows_1252_text(bytes@),
{
    windows_1252_decode(bytes).unwrap()
}

#[allow(non_camel_case_types)]
#[derive(Debug, Clone, Copy, Eq, PartialEq, Hash, Structural)]
pub enum JobId {
    NOVICE,
    SWORDMAN,
    MAGICIAN,
    ARCHER,
    ACOLYTE,
    MERCHANT,
    THIEF,
    KNIGHT,
    PRIEST,
    WIZARD,
    BLACKSMITH,
    HUNTER,
    ASSASSIN,
    KNIGHT2,
    CRUSADER,
    MONK,
    SAGE,
    ROGUE,
    ALCHEMIST,
    BARD,
    DANCER,
    CRUSADER2,
    MARRIED,
    SUPERNOVICE,
    GUNSLINGER,
    NINJA,
    XMAS,
    SUMMER,
    NOVICE_H,
    SWORDMAN_H,
    MAGICIAN_H,
    ARCHER_H,
    ACOLYTE_H,
    MERCHANT_H,
    THIEF_H,
    KNIGHT_H,
    PRIEST_H,
    WIZARD_H,
    BLACKSMITH_H,
    HUNTER_H,
    ASSASSIN_H,
    KNIGHT2_H,
    CRUSADER_H,
    MONK_H,
    SAGE_H,
    ROGUE_H,
    ALCHEMIST_H,
    BARD_H,
    DANCER_H,
    CRUSADER2_H,
    NOVICE_B,
    SWORDMAN_B,
    MAGICIAN_B,
    ARCHER_B,
    ACOLYTE_B,
    MERCHANT_B,
    THIEF_B,
    KNIGHT_B,
    PRIEST_B,
    WIZARD_B,
    BLACKSMITH_B,
    HUNTER_B,
    ASSASSIN_B,
    KNIGHT2_B,
    CRUSADER_B,
    MONK_B,
    SAGE_B,
    ROGUE_B,
    ALCHEMIST_B,
    BARD_B,
    DANCER_B,
    CRUSADER2_B,
    SUPERNOVICE_B,
    TAEKWON,
    STAR,
    STAR2,
    LINKER,
    RUNE_KNIGHT,
    WARLOCK,
    RANGER,
    ARCHBISHOP,
    MECHANIC,
    GUILLOTINE_CROSS,
    RUNE_KNIGHT_H,
    WARLOCK_H,
    RANGER_H,
    ARCHBISHOP_H,
    MECHANIC_H,
    GUILLOTINE_CROSS_H,
    ROYAL_GUARD,
    SORCERER,
    MINSTREL,
    WANDERER,
    SURA,
    GENETIC,
    SHADOW_CHASER,
    ROYAL_GUARD_H,
    SORCERER_H,
    MINSTREL_H,
    WANDERER_H,
    SURA_H,
    GENETIC_H,
    SHADOW_CHASER_H,
    RUNE_KNIGHT2,
    RUNE_KNIGHT2_H,
    ROYAL_GUARD2,
    ROYAL_GUARD2_H,
    RANGER2,
    RANGER2_H,
    MECHANIC2,
    MECHANIC2_H,
    RUNE_KNIGHT_B,
    WARLOCK_B,
    RANGER_B,
    ARCHBISHOP_B,
    MECHANIC_B,
    GUILLOTINE_CROSS_B,
    ROYAL_GUARD_B,
    SORCERER_B,
    MINSTREL_B,
    WANDERER_B,
    SURA_B,
    GENETIC_B,
    SHADOW_CHASER_B,
    RUNE_KNIGHT2_B,
    ROYAL_GUARD2_B,
    RANGER2_B,
    MECHANIC2_B,
    FROG_NINJA,
    PECO_GUNNER,
    PECO_SWORD,
    PIG_WHITESMITH,
    PIG_MERCHANT,
    PIG_GENETIC,
    PIG_CREATOR,
    OSTRICH_ARCHER,
    PORING_STAR,
    PORING_NOVICE,
    SHEEP_MONK,
    SHEEP_ACO,
    SHEEP_SURA,
    PORING_SNOVICE,
    SHEEP_ARCB,
    FOX_MAGICIAN,
    FOX_SAGE,
    FOX_SORCERER,
    FOX_WARLOCK,
    FOX_WIZ,
    FOX_HWIZ,
    PIG_ALCHE,
    PIG_BLACKSMITH,
    SHEEP_CHAMP,
    DOG_G_CROSS,
    DOG_THIEF,
    DOG_ROGUE,
    DOG_CHASER,
    DOG_STALKER,
    DOG_ASSASSIN,
    DOG_ASSA_X,
    OSTRICH_DANCER,
    OSTRICH_MINSTREL,
    OSTRICH_BARD,
    OSTRICH_SNIPER,
    OSTRICH_WANDER,
    OSTRICH_ZIPSI,
    OSTRICH_CROWN,
    OSTRICH_HUNTER,
    PORING_TAEKWON,
    SHEEP_PRIEST,
    SHEEP_HPRIEST,
    PORING_NOVICE_B,
    FOX_MAGICIAN_B,
    OSTRICH_ARCHER_B,
    SHEEP_ACO_B,
    PIG_MERCHANT_B,
    OSTRICH_HUNTER_B,
    DOG_ASSASSIN_B,
    SHEEP_MONK_B,
    FOX_SAGE_B,
    DOG_ROGUE_B,
    PIG_ALCHE_B,
    OSTRICH_BARD_B,
    OSTRICH_DANCER_B,
    PORING_SNOVICE_B,
    FOX_WARLOCK_B,
    SHEEP_ARCB_B,
    DOG_G_CROSS_B,
    FOX_SORCERER_B,
    OSTRICH_MINSTREL_B,
    OSTRICH_WANDER_B,
    SHEEP_SURA_B,
    PIG_GENETIC_B,
    DOG_THIEF_B,
    DOG_CHASER_B,
    PORING_NOVICE_H,
    FOX_MAGICIAN_H,
    OSTRICH_ARCHER_H,
    SHEEP_ACO_H,
    PIG_MERCHANT_H,
    DOG_THIEF_H,
    SUPERNOVICE2,
    SUPERNOVICE2_B,
    PORING_SNOVICE2,
    PORING_SNOVICE2_B,
    SHEEP_PRIEST_B,
    FOX_WIZ_B,
    PIG_BLACKSMITH_B,
    KAGEROU,
    OBORO,
    FROG_KAGEROU,
    FROG_OBORO,
}

impl JobId {
    /// The number of the job in the game files.
    pub open spec fn id(self) -> u32 {
        match self {
            JobId::NOVICE => 0,
            JobId::SWORDMAN => 1,
            JobId::MAGICIAN => 2,
            JobId::ARCHER => 3,
            JobId::ACOLYTE => 4,
            JobId::MERCHANT => 5,
            JobId::THIEF => 6,
            JobId::KNIGHT => 7,
            JobId::PRIEST => 8,
            JobId::WIZARD => 9,
            JobId::BLACKSMITH => 10,
            JobId::HUNTER => 11,
            JobId::ASSASSIN => 12,
            JobId::KNIGHT2 => 13,
            JobId::CRUSADER => 14,
            JobId::MONK => 15,
            JobId::SAGE => 16,
            JobId::ROGUE => 17,
            JobId::ALCHEMIST => 18,
            JobId::BARD => 19,
            JobId::DANCER => 20,
            JobId::CRUSADER2 => 21,
            JobId::MARRIED => 22,
            JobId::SUPERNOVICE => 23,
            JobId::GUNSLINGER => 24,
            JobId::NINJA => 25,
            JobId::XMAS => 26,
            JobId::SUMMER => 27,
            JobId::NOVICE_H => 4001,
            JobId::SWORDMAN_H => 4002,
            JobId::MAGICIAN_H => 4003,
            JobId::ARCHER_H => 4004,
            JobId::ACOLYTE_H => 4005,
            JobId::MERCHANT_H => 4006,
            JobId::THIEF_H => 4007,
            JobId::KNIGHT_H => 4008,
            JobId::PRIEST_H => 4009,
            JobId::WIZARD_H => 4010,
            JobId::BLACKSMITH_H => 4011,
            JobId::HUNTER_H => 4012,
            JobId::ASSASSIN_H => 4013,
            JobId::KNIGHT2_H => 4014,
            JobId::CRUSADER_H => 4015,
            JobId::MONK_H => 4016,
            JobId::SAGE_H => 4017,
            JobId::ROGUE_H => 4018,
            JobId::ALCHEMIST_H => 4019,
            JobId::BARD_H => 4020,
            JobId::DANCER_H => 4021,
            JobId::CRUSADER2_H => 4022,
            JobId::NOVICE_B => 4023,
            JobId::SWORDMAN_B => 4024,
            JobId::MAGICIAN_B => 4025,
            JobId::ARCHER_B => 4026,
            JobId::ACOLYTE_B => 4027,
            JobId::MERCHANT_B => 4028,
            JobId::THIEF_B => 4029,
            JobId::KNIGHT_B => 4030,
            JobId::PRIEST_B => 4031,
            JobId::WIZARD_B => 4032,
            JobId::BLACKSMITH_B => 4033,
            JobId::HUNTER_B => 4034,
            JobId::ASSASSIN_B => 4035,
            JobId::KNIGHT2_B => 4036,
            JobId::CRUSADER_B => 4037,
            JobId::MONK_B => 4038,
            JobId::SAGE_B => 4039,
            JobId::ROGUE_B => 4040,
            JobId::ALCHEMIST_B => 4041,
            JobId::BARD_B => 4042,
            JobId::DANCER_B => 4043,
            JobId::CRUSADER2_B => 4044,
            JobId::SUPERNOVICE_B => 4045,
            JobId::TAEKWON => 4046,
            JobId::STAR => 4047,
            JobId::STAR2 => 4048,
            JobId::LINKER => 4049,
            JobId::RUNE_KNIGHT => 4054,
            JobId::WARLOCK => 4055,
            JobId::RANGER => 4056,
            JobId::ARCHBISHOP => 4057,
            JobId::MECHANIC => 4058,
            JobId::GUILLOTINE_CROSS => 4059,
            JobId::RUNE_KNIGHT_H => 4060,
            JobId::WARLOCK_H => 4061,
            JobId::RANGER_H => 4062,
            JobId::ARCHBISHOP_H => 4063,
            JobId::MECHANIC_H => 4064,
            JobId::GUILLOTINE_CROSS_H => 4065,
            JobId::ROYAL_GUARD => 4066,
            JobId::SORCERER => 4067,
            JobId::MINSTREL => 4068,
            JobId::WANDERER => 4069,
            JobId::SURA => 4070,
            JobId::GENETIC => 4071,
            JobId::SHADOW_CHASER => 4072,
            JobId::ROYAL_GUARD_H => 4073,
            JobId::SORCERER_H => 4074,
            JobId::MINSTREL_H => 4075,
            JobId::WANDERER_H => 4076,
            JobId::SURA_H => 4077,
            JobId::GENETIC_H => 4078,
            JobId::SHADOW_CHASER_H => 4079,
            JobId::RUNE_KNIGHT2 => 4080,
            JobId::RUNE_KNIGHT2_H => 4081,
            JobId::ROYAL_GUARD2 => 4082,
            JobId::ROYAL_GUARD2_H => 4083,
            JobId::RANGER2 => 4084,
            JobId::RANGER2_H => 4085,
            JobId::MECHANIC2 => 4086,
            JobId::MECHANIC2_H => 4087,
            JobId::RUNE_KNIGHT_B => 4096,
            JobId::WARLOCK_B => 4097,
            JobId::RANGER_B => 4098,
            JobId::ARCHBISHOP_B => 4099,
            JobId::MECHANIC_B => 4100,
            JobId::GUILLOTINE_CROSS_B => 4101,
            JobId::ROYAL_GUARD_B => 4102,
            JobId::SORCERER_B => 4103,
            JobId::MINSTREL_B => 4104,
            JobId::WANDERER_B => 4105,
            JobId::SURA_B => 4106,
            JobId::GENETIC_B => 4107,
            JobId::SHADOW_CHASER_B => 4108,
            JobId::RUNE_KNIGHT2_B => 4109,
            JobId::ROYAL_GUARD2_B => 4110,
            JobId::RANGER2_B => 4111,
            JobId::MECHANIC2_B => 4112,
            JobId::FROG_NINJA => 4114,
            JobId::PECO_GUNNER => 4115,
            JobId::PECO_SWORD => 4116,
            JobId::PIG_WHITESMITH => 4118,
            JobId::PIG_MERCHANT => 4119,
            JobId::PIG_GENETIC => 4120,
            JobId::PIG_CREATOR => 4121,
            JobId::OSTRICH_ARCHER => 4122,
            JobId::PORING_STAR => 4123,
            JobId::PORING_NOVICE => 4124,
            JobId::SHEEP_MONK => 4125,
            JobId::SHEEP_ACO => 4126,
            JobId::SHEEP_SURA => 4127,
            JobId::PORING_SNOVICE => 4128,
            JobId::SHEEP_ARCB => 4129,
            JobId::FOX_MAGICIAN => 4130,
            JobId::FOX_SAGE => 4131,
            JobId::FOX_SORCERER => 4132,
            JobId::FOX_WARLOCK => 4133,
            JobId::FOX_WIZ => 4134,
            JobId::FOX_HWIZ => 4136,
            JobId::PIG_ALCHE => 4137,
            JobId::PIG_BLACKSMITH => 4138,
            JobId::SHEEP_CHAMP => 4139,
            JobId::DOG_G_CROSS => 4140,
            JobId::DOG_THIEF => 4141,
            JobId::DOG_ROGUE => 4142,
            JobId::DOG_CHASER => 4143,
            JobId::DOG_STALKER => 4144,
            JobId::DOG_ASSASSIN => 4145,
            JobId::DOG_ASSA_X => 4146,
            JobId::OSTRICH_DANCER => 4147,
            JobId::OSTRICH_MINSTREL => 4148,
            JobId::OSTRICH_BARD => 4149,
            JobId::OSTRICH_SNIPER => 4150,
            JobId::OSTRICH_WANDER => 4151,
            JobId::OSTRICH_ZIPSI => 4152,
            JobId::OSTRICH_CROWN => 4153,
            JobId::OSTRICH_HUNTER => 4154,
            JobId::PORING_TAEKWON => 4155,
            JobId::SHEEP_PRIEST => 4156,
            JobId::SHEEP_HPRIEST => 4157,
            JobId::PORING_NOVICE_B => 4158,
            JobId::FOX_MAGICIAN_B => 4160,
            JobId::OSTRICH_ARCHER_B => 4161,
            JobId::SHEEP_ACO_B => 4162,
            JobId::PIG_MERCHANT_B => 4163,
            JobId::OSTRICH_HUNTER_B => 4164,
            JobId::DOG_ASSASSIN_B => 4165,
            JobId::SHEEP_MONK_B => 4166,
            JobId::FOX_SAGE_B => 4167,
            JobId::DOG_ROGUE_B => 4168,
            JobId::PIG_ALCHE_B => 4169,
            JobId::OSTRICH_BARD_B => 4170,
            JobId::OSTRICH_DANCER_B => 4171,
            JobId::PORING_SNOVICE_B => 4172,
            JobId::FOX_WARLOCK_B => 4173,
            JobId::SHEEP_ARCB_B => 4174,
            JobId::DOG_G_CROSS_B => 4175,
            JobId::FOX_SORCERER_B => 4176,
            JobId::OSTRICH_MINSTREL_B => 4177,
            JobId::OSTRICH_WANDER_B => 4178,
            JobId::SHEEP_SURA_B => 4179,
            JobId::PIG_GENETIC_B => 4180,
            JobId::DOG_THIEF_B => 4181,
            JobId::DOG_CHASER_B => 4182,
            JobId::PORING_NOVICE_H => 4183,
            JobId::FOX_MAGICIAN_H => 4185,
            JobId::OSTRICH_ARCHER_H => 4186,
            JobId::SHEEP_ACO_H => 4187,
            JobId::PIG_MERCHANT_H => 4188,
            JobId::DOG_THIEF_H => 4189,
            JobId::SUPERNOVICE2 => 4190,
            JobId::SUPERNOVICE2_B => 4191,
            JobId::PORING_SNOVICE2 => 4192,
            JobId::PORING_SNOVICE2_B => 4193,
            JobId::SHEEP_PRIEST_B => 4194,
            JobId::FOX_WIZ_B => 4195,
            JobId::PIG_BLACKSMITH_B => 4196,
            JobId::KAGEROU => 4211,
            JobId::OBORO => 4212,
            JobId::FROG_KAGEROU => 4213,
            JobId::FROG_OBORO => 4214,
        }
    }

    /// The bytes of the job's name in the game files, in Windows-1252; empty
    /// for a job that has none.
    pub open spec fn name_code(self) -> Seq<u8> {
        match self {
            JobId::NOVICE => seq![0xC3u8, 0xCAu8, 0xBAu8, 0xB8u8, 0xC0u8, 0xDAu8],
            JobId::SWORDMAN => seq![0xB0u8, 0xCBu8, 0xBBu8, 0xE7u8],
            JobId::MAGICIAN => seq![0xB8u8, 0xB6u8, 0xB9u8, 0xFDu8, 0xBBu8, 0xE7u8],
            JobId::ARCHER => seq![0xB1u8, 0xC3u8, 0xBCu8, 0xF6u8],
            JobId::ACOLYTE => seq![0xBCu8, 0xBAu8, 0xC1u8, 0xF7u8, 0xC0u8, 0xDAu8],
            JobId::MERCHANT => seq![0xBBu8, 0xF3u8, 0xC0u8, 0xCEu8],
            JobId::THIEF => seq![0xB5u8, 0xB5u8, 0xB5u8, 0xCFu8],
            JobId::KNIGHT => seq![0xB1u8, 0xE2u8, 0xBBu8, 0xE7u8],
            JobId::PRIEST => seq![0xC7u8, 0xC1u8, 0xB8u8, 0xAEu8, 0xBDu8, 0xBAu8, 0xC6u8, 0xAEu8],
            JobId::WIZARD => seq![0xC0u8, 0xA7u8, 0xC0u8, 0xFAu8, 0xB5u8, 0xE5u8],
            JobId::BLACKSMITH => seq![0xC1u8, 0xA6u8, 0xC3u8, 0xB6u8, 0xB0u8, 0xF8u8],
            JobId::HUNTER => seq![0xC7u8, 0xE5u8, 0xC5u8, 0xCDu8],
            JobId::ASSASSIN => seq![0xBEu8, 0xEEu8, 0xBCu8, 0xBCu8, 0xBDu8, 0xC5u8],
            JobId::KNIGHT2 => seq![0xC6u8, 0xE4u8, 0xC4u8, 0xDAu8, 0xC6u8, 0xE4u8, 0xC4u8, 0xDAu8, 0x5Fu8, 0xB1u8, 0xE2u8, 0xBBu8, 0xE7u8],
            JobId::CRUSADER => seq![0xC5u8, 0xA9u8, 0xB7u8, 0xE7u8, 0xBCu8, 0xBCu8, 0xC0u8, 0xCCu8, 0xB4u8, 0xF5u8],
            JobId::MONK => seq![0xB8u8, 0xF9u8, 0xC5u8, 0xA9u8],
            JobId::SAGE => seq![0xBCu8, 0xBCu8, 0xC0u8, 0xCCu8, 0xC1u8, 0xF6u8],
            JobId::ROGUE => seq![0xB7u8, 0xCEu8, 0xB1u8, 0xD7u8],
            JobId::ALCHEMIST => seq![0xBFu8, 0xACu8, 0xB1u8, 0xDDu8, 0xBCu8, 0xFAu8, 0xBBu8, 0xE7u8],
            JobId::BARD => seq![0xB9u8, 0xD9u8, 0xB5u8, 0xE5u8],
            JobId::DANCER => seq![0xB9u8, 0xABu8, 0xC8u8, 0xF1u8],
            JobId::CRUSADER2 => seq![0xBDu8, 0xC5u8, 0xC6u8, 0xE4u8, 0xC4u8, 0xDAu8, 0xC5u8, 0xA9u8, 0xB7u8, 0xE7u8, 0xBCu8, 0xBCu8, 0xC0u8, 0xCCu8, 0xB4u8, 0xF5u8],
            JobId::SUPERNOVICE => seq![0xBDu8, 0xB4u8, 0xC6u8, 0xDBu8, 0xB3u8, 0xEBu8, 0xBAu8, 0xF1u8, 0xBDu8, 0xBAu8],
            JobId::GUNSLINGER => seq![0xB0u8, 0xC7u8, 0xB3u8, 0xCAu8],
            JobId::NINJA => seq![0xB4u8, 0xD1u8, 0xC0u8, 0xDAu8],
            JobId::TAEKWON => seq![0xC5u8, 0xC2u8, 0xB1u8, 0xC7u8, 0xBCu8, 0xD2u8, 0xB3u8, 0xE2u8],
            JobId::STAR => seq![0xB1u8, 0xC7u8, 0xBCu8, 0xBAu8],
            JobId::STAR2 => seq![0xB1u8, 0xC7u8, 0xBCu8, 0xBAu8, 0xC0u8, 0xB6u8, 0xC7u8, 0xD5u8],
            JobId::LINKER => seq![0xBCu8, 0xD2u8, 0xBFu8, 0xEFu8, 0xB8u8, 0xB5u8, 0xC4u8, 0xBFu8],
            JobId::MARRIED => seq![0xB0u8, 0xE1u8, 0xC8u8, 0xA5u8],
            JobId::XMAS => seq![0xBBu8, 0xEAu8, 0xC5u8, 0xB8u8],
            JobId::SUMMER => seq![0xBFu8, 0xA9u8, 0xB8u8, 0xA7u8],
            JobId::KNIGHT_H => seq![0xB7u8, 0xCEu8, 0xB5u8, 0xE5u8, 0xB3u8, 0xAAu8, 0xC0u8, 0xCCu8, 0xC6u8, 0xAEu8],
            JobId::PRIEST_H => seq![0xC7u8, 0xCFu8, 0xC0u8, 0xCCu8, 0xC7u8, 0xC1u8, 0xB8u8, 0xAEu8],
            JobId::WIZARD_H => seq![0xC7u8, 0xCFu8, 0xC0u8, 0xCCu8, 0xC0u8, 0xA7u8, 0xC0u8, 0xFAu8, 0xB5u8, 0xE5u8],
            JobId::BLACKSMITH_H => seq![0xC8u8, 0xADu8, 0xC0u8, 0xCCu8, 0xC6u8, 0xAEu8, 0xBDu8, 0xBAu8, 0xB9u8, 0xCCu8, 0xBDu8, 0xBAu8],
            JobId::HUNTER_H => seq![0xBDu8, 0xBAu8, 0xB3u8, 0xAAu8, 0xC0u8, 0xCCu8, 0xC6u8, 0xDBu8],
            JobId::ASSASSIN_H => seq![0xBEu8, 0xEEu8, 0xBDu8, 0xD8u8, 0xBDu8, 0xC5u8, 0xC5u8, 0xA9u8, 0xB7u8, 0xCEu8, 0xBDu8, 0xBAu8],
            JobId::KNIGHT2_H => seq![0xB7u8, 0xCEu8, 0xB5u8, 0xE5u8, 0xC6u8, 0xE4u8, 0xC4u8, 0xDAu8],
            JobId::CRUSADER_H => seq![0xC6u8, 0xC8u8, 0xB6u8, 0xF3u8, 0xB5u8, 0xF2u8],
            JobId::MONK_H => seq![0xC3u8, 0xA8u8, 0xC7u8, 0xC7u8, 0xBFu8, 0xC2u8],
            JobId::SAGE_H => seq![0xC7u8, 0xC1u8, 0xB7u8, 0xCEu8, 0xC6u8, 0xE4u8, 0xBCu8, 0xADu8],
            JobId::ROGUE_H => seq![0xBDu8, 0xBAu8, 0xC5u8, 0xE4u8, 0xC4u8, 0xBFu8],
            JobId::ALCHEMIST_H => seq![0xC5u8, 0xA9u8, 0xB8u8, 0xAEu8, 0xBFu8, 0xA1u8, 0xC0u8, 0xCCu8, 0xC5u8, 0xCDu8],
            JobId::BARD_H => seq![0xC5u8, 0xACu8, 0xB6u8, 0xF3u8, 0xBFu8, 0xEEu8],
            JobId::DANCER_H => seq![0xC1u8, 0xFDu8, 0xBDu8, 0xC3u8],
            JobId::CRUSADER2_H => seq![0xC6u8, 0xE4u8, 0xC4u8, 0xDAu8, 0xC6u8, 0xC8u8, 0xB6u8, 0xF3u8, 0xB5u8, 0xF2u8],
            JobId::RUNE_KNIGHT => seq![0xB7u8, 0xE9u8, 0xB3u8, 0xAAu8, 0xC0u8, 0xCCu8, 0xC6u8, 0xAEu8],
            JobId::WARLOCK => seq![0xBFu8, 0xF6u8, 0xB7u8, 0xCFu8],
            JobId::RANGER => seq![0xB7u8, 0xB9u8, 0xC0u8, 0xCEu8, 0xC1u8, 0xAEu8],
            JobId::ARCHBISHOP => seq![0xBEu8, 0xC6u8, 0xC5u8, 0xA9u8, 0xBAu8, 0xF1u8, 0xBCu8, 0xF3u8],
            JobId::MECHANIC => seq![0xB9u8, 0xCCu8, 0xC4u8, 0xC9u8, 0xB4u8, 0xD0u8],
            JobId::GUILLOTINE_CROSS => seq![0xB1u8, 0xE6u8, 0xB7u8, 0xCEu8, 0xC6u8, 0xBEu8, 0xC5u8, 0xA9u8, 0xB7u8, 0xCEu8, 0xBDu8, 0xBAu8],
            JobId::ROYAL_GUARD => seq![0xB0u8, 0xA1u8, 0xB5u8, 0xE5u8],
            JobId::SORCERER => seq![0xBCu8, 0xD2u8, 0xBCu8, 0xADu8, 0xB7u8, 0xAFu8],
            JobId::MINSTREL => seq![0xB9u8, 0xCEu8, 0xBDu8, 0xBAu8, 0xC6u8, 0xAEu8, 0xB7u8, 0xB2u8],
            JobId::WANDERER => seq![0xBFu8, 0xF8u8, 0xB4u8, 0xF5u8, 0xB7u8, 0xAFu8],
            JobId::SURA => seq![0xBDu8, 0xB4u8, 0xB6u8, 0xF3u8],
            JobId::GENETIC => seq![0xC1u8, 0xA6u8, 0xB3u8, 0xD7u8, 0xB8u8, 0xAFu8],
            JobId::SHADOW_CHASER => seq![0xBDu8, 0xA6u8, 0xB5u8, 0xB5u8, 0xBFu8, 0xECu8, 0xC3u8, 0xBCu8, 0xC0u8, 0xCCu8, 0xBCu8, 0xADu8],
            JobId::RUNE_KNIGHT2 => seq![0xB7u8, 0xE9u8, 0xB3u8, 0xAAu8, 0xC0u8, 0xCCu8, 0xC6u8, 0xAEu8, 0xBBu8, 0xDAu8, 0xB6u8, 0xECu8],
            JobId::ROYAL_GUARD2 => seq![0xB1u8, 0xD7u8, 0xB8u8, 0xAEu8, 0xC6u8, 0xF9u8, 0xB0u8, 0xA1u8, 0xB5u8, 0xE5u8],
            JobId::RANGER2 => seq![0xB7u8, 0xB9u8, 0xC0u8, 0xCEu8, 0xC1u8, 0xAEu8, 0xB4u8, 0xC1u8, 0xB4u8, 0xEBu8],
            JobId::MECHANIC2 => seq![0xB8u8, 0xB6u8, 0xB5u8, 0xB5u8, 0xB1u8, 0xE2u8, 0xBEu8, 0xEEu8],
            _ => Seq::empty(),
        }
    }

    /// The number of the job in the game files.
    pub fn value(&self) -> (id: u32)
        ensures
            id == self.id(),
    {
        match self {
            JobId::NOVICE => 0,
            JobId::SWORDMAN => 1,
            JobId::MAGICIAN => 2,
            JobId::ARCHER => 3,
            JobId::ACOLYTE => 4,
            JobId::MERCHANT => 5,
            JobId::THIEF => 6,
            JobId::KNIGHT => 7,
            JobId::PRIEST => 8,
            JobId::WIZARD => 9,
            JobId::BLACKSMITH => 10,
            JobId::HUNTER => 11,
            JobId::ASSASSIN => 12,
            JobId::KNIGHT2 => 13,
            JobId::CRUSADER => 14,
            JobId::MONK => 15,
            JobId::SAGE => 16,
            JobId::ROGUE => 17,
            JobId::ALCHEMIST => 18,
            JobId::BARD => 19,
            JobId::DANCER => 20,
            JobId::CRUSADER2 => 21,
            JobId::MARRIED => 22,
            JobId::SUPERNOVICE => 23,
            JobId::GUNSLINGER => 24,
            JobId::NINJA => 25,
            JobId::XMAS => 26,
            JobId::SUMMER => 27,
            JobId::NOVICE_H => 4001,
            JobId::SWORDMAN_H => 4002,
            JobId::MAGICIAN_H => 4003,
            JobId::ARCHER_H => 4004,
            JobId::ACOLYTE_H => 4005,
            JobId::MERCHANT_H => 4006,
            JobId::THIEF_H => 4007,
            JobId::KNIGHT_H => 4008,
            JobId::PRIEST_H => 4009,
            JobId::WIZARD_H => 4010,
            JobId::BLACKSMITH_H => 4011,
            JobId::HUNTER_H => 4012,
            JobId::ASSASSIN_H => 4013,
            JobId::KNIGHT2_H => 4014,
            JobId::CRUSADER_H => 4015,
            JobId::MONK_H => 4016,
            JobId::SAGE_H => 4017,
            JobId::ROGUE_H => 4018,
            JobId::ALCHEMIST_H => 4019,
            JobId::BARD_H => 4020,
            JobId::DANCER_H => 4021,
            JobId::CRUSADER2_H => 4022,
            JobId::NOVICE_B => 4023,
            JobId::SWORDMAN_B => 4024,
            JobId::MAGICIAN_B => 4025,
            JobId::ARCHER_B => 4026,
            JobId::ACOLYTE_B => 4027,
            JobId::MERCHANT_B => 4028,
            JobId::THIEF_B => 4029,
            JobId::KNIGHT_B => 4030,
            JobId::PRIEST_B => 4031,
            JobId::WIZARD_B => 4032,
            JobId::BLACKSMITH_B => 4033,
            JobId::HUNTER_B => 4034,
            JobId::ASSASSIN_B => 4035,
            JobId::KNIGHT2_B => 4036,
            JobId::CRUSADER_B => 4037,
            JobId::MONK_B => 4038,
            JobId::SAGE_B => 4039,
            JobId::ROGUE_B => 4040,
            JobId::ALCHEMIST_B => 4041,
            JobId::BARD_B => 4042,
            JobId::DANCER_B => 4043,
            JobId::CRUSADER2_B => 4044,
            JobId::SUPERNOVICE_B => 4045,
            JobId::TAEKWON => 4046,
            JobId::STAR => 4047,
            JobId::STAR2 => 4048,
            JobId::LINKER => 4049,
            JobId::RUNE_KNIGHT => 4054,
            JobId::WARLOCK => 4055,
            JobId::RANGER => 4056,
            JobId::ARCHBISHOP => 4057,
            JobId::MECHANIC => 4058,
            JobId::GUILLOTINE_CROSS => 4059,
            JobId::RUNE_KNIGHT_H => 4060,
            JobId::WARLOCK_H => 4061,
            JobId::RANGER_H => 4062,
            JobId::ARCHBISHOP_H => 4063,
            JobId::MECHANIC_H => 4064,
            JobId::GUILLOTINE_CROSS_H => 4065,
            JobId::ROYAL_GUARD => 4066,
            JobId::SORCERER => 4067,
            JobId::MINSTREL => 4068,
            JobId::WANDERER => 4069,
            JobId::SURA => 4070,
            JobId::GENETIC => 4071,
            JobId::SHADOW_CHASER => 4072,
            JobId::ROYAL_GUARD_H => 4073,
            JobId::SORCERER_H => 4074,
            JobId::MINSTREL_H => 4075,
            JobId::WANDERER_H => 4076,
            JobId::SURA_H => 4077,
            JobId::GENETIC_H => 4078,
            JobId::SHADOW_CHASER_H => 4079,
            JobId::RUNE_KNIGHT2 => 4080,
            JobId::RUNE_KNIGHT2_H => 4081,
            JobId::ROYAL_GUARD2 => 4082,
            JobId::ROYAL_GUARD2_H => 4083,
            JobId::RANGER2 => 4084,
            JobId::RANGER2_H => 4085,
            JobId::MECHANIC2 => 4086,
            JobId::MECHANIC2_H => 4087,
            JobId::RUNE_KNIGHT_B => 4096,
            JobId::WARLOCK_B => 4097,
            JobId::RANGER_B => 4098,
            JobId::ARCHBISHOP_B => 4099,
            JobId::MECHANIC_B => 4100,
            JobId::GUILLOTINE_CROSS_B => 4101,
            JobId::ROYAL_GUARD_B => 4102,
            JobId::SORCERER_B => 4103,
            JobId::MINSTREL_B => 4104,
            JobId::WANDERER_B => 4105,
            JobId::SURA_B => 4106,
            JobId::GENETIC_B => 4107,
            JobId::SHADOW_CHASER_B => 4108,
            JobId::RUNE_KNIGHT2_B => 4109,
            JobId::ROYAL_GUARD2_B => 4110,
            JobId::RANGER2_B => 4111,
            JobId::MECHANIC2_B => 4112,
            JobId::FROG_NINJA => 4114,
            JobId::PECO_GUNNER => 4115,
            JobId::PECO_SWORD => 4116,
            JobId::PIG_WHITESMITH => 4118,
            JobId::PIG_MERCHANT => 4119,
            JobId::PIG_GENETIC => 4120,
            JobId::PIG_CREATOR => 4121,
            JobId::OSTRICH_ARCHER => 4122,
            JobId::PORING_STAR => 4123,
            JobId::PORING_NOVICE => 4124,
            JobId::SHEEP_MONK => 4125,
            JobId::SHEEP_ACO => 4126,
            JobId::SHEEP_SURA => 4127,
            JobId::PORING_SNOVICE => 4128,
            JobId::SHEEP_ARCB => 4129,
            JobId::FOX_MAGICIAN => 4130,
            JobId::FOX_SAGE => 4131,
            JobId::FOX_SORCERER => 4132,
            JobId::FOX_WARLOCK => 4133,
            JobId::FOX_WIZ => 4134,
            JobId::FOX_HWIZ => 4136,
            JobId::PIG_ALCHE => 4137,
            JobId::PIG_BLACKSMITH => 4138,
            JobId::SHEEP_CHAMP => 4139,
            JobId::DOG_G_CROSS => 4140,
            JobId::DOG_THIEF => 4141,
            JobId::DOG_ROGUE => 4142,
            JobId::DOG_CHASER => 4143,
            JobId::DOG_STALKER => 4144,
            JobId::DOG_ASSASSIN => 4145,
            JobId::DOG_ASSA_X => 4146,
            JobId::OSTRICH_DANCER => 4147,
            JobId::OSTRICH_MINSTREL => 4148,
            JobId::OSTRICH_BARD => 4149,
            JobId::OSTRICH_SNIPER => 4150,
            JobId::OSTRICH_WANDER => 4151,
            JobId::OSTRICH_ZIPSI => 4152,
            JobId::OSTRICH_CROWN => 4153,
            JobId::OSTRICH_HUNTER => 4154,
            JobId::PORING_TAEKWON => 4155,
            JobId::SHEEP_PRIEST => 4156,
            JobId::SHEEP_HPRIEST => 4157,
            JobId::PORING_NOVICE_B => 4158,
            JobId::FOX_MAGICIAN_B => 4160,
            JobId::OSTRICH_ARCHER_B => 4161,
            JobId::SHEEP_ACO_B => 4162,
            JobId::PIG_MERCHANT_B => 4163,
            JobId::OSTRICH_HUNTER_B => 4164,
            JobId::DOG_ASSASSIN_B => 4165,
            JobId::SHEEP_MONK_B => 4166,
            JobId::FOX_SAGE_B => 4167,
            JobId::DOG_ROGUE_B => 4168,
            JobId::PIG_ALCHE_B => 4169,
            JobId::OSTRICH_BARD_B => 4170,
            JobId::OSTRICH_DANCER_B => 4171,
            JobId::PORING_SNOVICE_B => 4172,
            JobId::FOX_WARLOCK_B => 4173,
            JobId::SHEEP_ARCB_B => 4174,
            JobId::DOG_G_CROSS_B => 4175,
            JobId::FOX_SORCERER_B => 4176,
            JobId::OSTRICH_MINSTREL_B => 4177,
            JobId::OSTRICH_WANDER_B => 4178,
            JobId::SHEEP_SURA_B => 4179,
            JobId::PIG_GENETIC_B => 4180,
            JobId::DOG_THIEF_B => 4181,
            JobId::DOG_CHASER_B => 4182,
            JobId::PORING_NOVICE_H => 4183,
            JobId::FOX_MAGICIAN_H => 4185,
            JobId::OSTRICH_ARCHER_H => 4186,
            JobId::SHEEP_ACO_H => 4187,
            JobId::PIG_MERCHANT_H => 4188,
            JobId::DOG_THIEF_H => 4189,
            JobId::SUPERNOVICE2 => 4190,
            JobId::SUPERNOVICE2_B => 4191,
            JobId::PORING_SNOVICE2 => 4192,
            JobId::PORING_SNOVICE2_B => 4193,
            JobId::SHEEP_PRIEST_B => 4194,
            JobId::FOX_WIZ_B => 4195,
            JobId::PIG_BLACKSMITH_B => 4196,
            JobId::KAGEROU => 4211,
            JobId::OBORO => 4212,
            JobId::FROG_KAGEROU => 4213,
            JobId::FROG_OBORO => 4214,
        }
    }

    /// The bytes of the job's name in the game files; empty for a job that
    /// has none.
    pub fn name_bytes(&self) -> (bytes: Vec<u8>)
        ensures
            bytes@ == self.name_code(),
    {
        match self {
            JobId::NOVICE => vec![0xC3, 0xCA, 0xBA, 0xB8, 0xC0, 0xDA],
            JobId::SWORDMAN => vec![0xB0, 0xCB, 0xBB, 0xE7],
            JobId::MAGICIAN => vec![0xB8, 0xB6, 0xB9, 0xFD, 0xBB, 0xE7],
            JobId::ARCHER => vec![0xB1, 0xC3, 0xBC, 0xF6],
            JobId::ACOLYTE => vec![0xBC, 0xBA, 0xC1, 0xF7, 0xC0, 0xDA],
            JobId::MERCHANT => vec![0xBB, 0xF3, 0xC0, 0xCE],
            JobId::THIEF => vec![0xB5, 0xB5, 0xB5, 0xCF],
            JobId::KNIGHT => vec![0xB1, 0xE2, 0xBB, 0xE7],
            JobId::PRIEST => vec![0xC7, 0xC1, 0xB8, 0xAE, 0xBD, 0xBA, 0xC6, 0xAE],
            JobId::WIZARD => vec![0xC0, 0xA7, 0xC0, 0xFA, 0xB5, 0xE5],
            JobId::BLACKSMITH => vec![0xC1, 0xA6, 0xC3, 0xB6, 0xB0, 0xF8],
            JobId::HUNTER => vec![0xC7, 0xE5, 0xC5, 0xCD],
            JobId::ASSASSIN => vec![0xBE, 0xEE, 0xBC, 0xBC, 0xBD, 0xC5],
            JobId::KNIGHT2 => vec![0xC6, 0xE4, 0xC4, 0xDA, 0xC6, 0xE4, 0xC4, 0xDA, 0x5F, 0xB1, 0xE2, 0xBB, 0xE7],
            JobId::CRUSADER => vec![0xC5, 0xA9, 0xB7, 0xE7, 0xBC, 0xBC, 0xC0, 0xCC, 0xB4, 0xF5],
            JobId::MONK => vec![0xB8, 0xF9, 0xC5, 0xA9],
            JobId::SAGE => vec![0xBC, 0xBC, 0xC0, 0xCC, 0xC1, 0xF6],
            JobId::ROGUE => vec![0xB7, 0xCE, 0xB1, 0xD7],
            JobId::ALCHEMIST => vec![0xBF, 0xAC, 0xB1, 0xDD, 0xBC, 0xFA, 0xBB, 0xE7],
            JobId::BARD => vec![0xB9, 0xD9, 0xB5, 0xE5],
            JobId::DANCER => vec![0xB9, 0xAB, 0xC8, 0xF1],
            JobId::CRUSADER2 => vec![0xBD, 0xC5, 0xC6, 0xE4, 0xC4, 0xDA, 0xC5, 0xA9, 0xB7, 0xE7, 0xBC, 0xBC, 0xC0, 0xCC, 0xB4, 0xF5],
            JobId::SUPERNOVICE => vec![0xBD, 0xB4, 0xC6, 0xDB, 0xB3, 0xEB, 0xBA, 0xF1, 0xBD, 0xBA],
            JobId::GUNSLINGER => vec![0xB0, 0xC7, 0xB3, 0xCA],
            JobId::NINJA => vec![0xB4, 0xD1, 0xC0, 0xDA],
            JobId::TAEKWON => vec![0xC5, 0xC2, 0xB1, 0xC7, 0xBC, 0xD2, 0xB3, 0xE2],
            JobId::STAR => vec![0xB1, 0xC7, 0xBC, 0xBA],
            JobId::STAR2 => vec![0xB1, 0xC7, 0xBC, 0xBA, 0xC0, 0xB6, 0xC7, 0xD5],
            JobId::LINKER => vec![0xBC, 0xD2, 0xBF, 0xEF, 0xB8, 0xB5, 0xC4, 0xBF],
            JobId::MARRIED => vec![0xB0, 0xE1, 0xC8, 0xA5],
            JobId::XMAS => vec![0xBB, 0xEA, 0xC5, 0xB8],
            JobId::SUMMER => vec![0xBF, 0xA9, 0xB8, 0xA7],
            JobId::KNIGHT_H => vec![0xB7, 0xCE, 0xB5, 0xE5, 0xB3, 0xAA, 0xC0, 0xCC, 0xC6, 0xAE],
            JobId::PRIEST_H => vec![0xC7, 0xCF, 0xC0, 0xCC, 0xC7, 0xC1, 0xB8, 0xAE],
            JobId::WIZARD_H => vec![0xC7, 0xCF, 0xC0, 0xCC, 0xC0, 0xA7, 0xC0, 0xFA, 0xB5, 0xE5],
            JobId::BLACKSMITH_H => vec![0xC8, 0xAD, 0xC0, 0xCC, 0xC6, 0xAE, 0xBD, 0xBA, 0xB9, 0xCC, 0xBD, 0xBA],
            JobId::HUNTER_H => vec![0xBD, 0xBA, 0xB3, 0xAA, 0xC0, 0xCC, 0xC6, 0xDB],
            JobId::ASSASSIN_H => vec![0xBE, 0xEE, 0xBD, 0xD8, 0xBD, 0xC5, 0xC5, 0xA9, 0xB7, 0xCE, 0xBD, 0xBA],
            JobId::KNIGHT2_H => vec![0xB7, 0xCE, 0xB5, 0xE5, 0xC6, 0xE4, 0xC4, 0xDA],
            JobId::CRUSADER_H => vec![0xC6, 0xC8, 0xB6, 0xF3, 0xB5, 0xF2],
            JobId::MONK_H => vec![0xC3, 0xA8, 0xC7, 0xC7, 0xBF, 0xC2],
            JobId::SAGE_H => vec![0xC7, 0xC1, 0xB7, 0xCE, 0xC6, 0xE4, 0xBC, 0xAD],
            JobId::ROGUE_H => vec![0xBD, 0xBA, 0xC5, 0xE4, 0xC4, 0xBF],
            JobId::ALCHEMIST_H => vec![0xC5, 0xA9, 0xB8, 0xAE, 0xBF, 0xA1, 0xC0, 0xCC, 0xC5, 0xCD],
            JobId::BARD_H => vec![0xC5, 0xAC, 0xB6, 0xF3, 0xBF, 0xEE],
            JobId::DANCER_H => vec![0xC1, 0xFD, 0xBD, 0xC3],
            JobId::CRUSADER2_H => vec![0xC6, 0xE4, 0xC4, 0xDA, 0xC6, 0xC8, 0xB6, 0xF3, 0xB5, 0xF2],
            JobId::RUNE_KNIGHT => vec![0xB7, 0xE9, 0xB3, 0xAA, 0xC0, 0xCC, 0xC6, 0xAE],
            JobId::WARLOCK => vec![0xBF, 0xF6, 0xB7, 0xCF],
            JobId::RANGER => vec![0xB7, 0xB9, 0xC0, 0xCE, 0xC1, 0xAE],
            JobId::ARCHBISHOP => vec![0xBE, 0xC6, 0xC5, 0xA9, 0xBA, 0xF1, 0xBC, 0xF3],
            JobId::MECHANIC => vec![0xB9, 0xCC, 0xC4, 0xC9, 0xB4, 0xD0],
            JobId::GUILLOTINE_CROSS => vec![0xB1, 0xE6, 0xB7, 0xCE, 0xC6, 0xBE, 0xC5, 0xA9, 0xB7, 0xCE, 0xBD, 0xBA],
            JobId::ROYAL_GUARD => vec![0xB0, 0xA1, 0xB5, 0xE5],
            JobId::SORCERER => vec![0xBC, 0xD2, 0xBC, 0xAD, 0xB7, 0xAF],
            JobId::MINSTREL => vec![0xB9, 0xCE, 0xBD, 0xBA, 0xC6, 0xAE, 0xB7, 0xB2],
            JobId::WANDERER => vec![0xBF, 0xF8, 0xB4, 0xF5, 0xB7, 0xAF],
            JobId::SURA => vec![0xBD, 0xB4, 0xB6, 0xF3],
            JobId::GENETIC => vec![0xC1, 0xA6, 0xB3, 0xD7, 0xB8, 0xAF],
            JobId::SHADOW_CHASER => vec![0xBD, 0xA6, 0xB5, 0xB5, 0xBF, 0xEC, 0xC3, 0xBC, 0xC0, 0xCC, 0xBC, 0xAD],
            JobId::RUNE_KNIGHT2 => vec![0xB7, 0xE9, 0xB3, 0xAA, 0xC0, 0xCC, 0xC6, 0xAE, 0xBB, 0xDA, 0xB6, 0xEC],
            JobId::ROYAL_GUARD2 => vec![0xB1, 0xD7, 0xB8, 0xAE, 0xC6, 0xF9, 0xB0, 0xA1, 0xB5, 0xE5],
            JobId::RANGER2 => vec![0xB7, 0xB9, 0xC0, 0xCE, 0xC1, 0xAE, 0xB4, 0xC1, 0xB4, 0xEB],
            JobId::MECHANIC2 => vec![0xB8, 0xB6, 0xB5, 0xB5, 0xB1, 0xE2, 0xBE, 0xEE],
            _ => Vec::new(),
        }
    }
}

/// The jobs that have a name in the game files.
pub open spec fn named_jobs() -> Seq<JobId> {
    seq![
        JobId::NOVICE,
        JobId::SWORDMAN,
        JobId::MAGICIAN,
        JobId::ARCHER,
        JobId::ACOLYTE,
        JobId::MERCHANT,
        JobId::THIEF,
        JobId::KNIGHT,
        JobId::PRIEST,
        JobId::WIZARD,
        JobId::BLACKSMITH,
        JobId::HUNTER,
        JobId::ASSASSIN,
        JobId::KNIGHT2,
        JobId::CRUSADER,
        JobId::MONK,
        JobId::SAGE,
        JobId::ROGUE,
        JobId::ALCHEMIST,
        JobId::BARD,
        JobId::DANCER,
        JobId::CRUSADER2,
        JobId::SUPERNOVICE,
        JobId::GUNSLINGER,
        JobId::NINJA,
        JobId::TAEKWON,
        JobId::STAR,
        JobId::STAR2,
        JobId::LINKER,
        JobId::MARRIED,
        JobId::XMAS,
        JobId::SUMMER,
        JobId::KNIGHT_H,
        JobId::PRIEST_H,
        JobId::WIZARD_H,
        JobId::BLACKSMITH_H,
        JobId::HUNTER_H,
        JobId::ASSASSIN_H,
        JobId::KNIGHT2_H,
        JobId::CRUSADER_H,
        JobId::MONK_H,
        JobId::SAGE_H,
        JobId::ROGUE_H,
        JobId::ALCHEMIST_H,
        JobId::BARD_H,
        JobId::DANCER_H,
        JobId::CRUSADER2_H,
        JobId::RUNE_KNIGHT,
        JobId::WARLOCK,
        JobId::RANGER,
        JobId::ARCHBISHOP,
        JobId::MECHANIC,
        JobId::GUILLOTINE_CROSS,
        JobId::ROYAL_GUARD,
        JobId::SORCERER,
        JobId::MINSTREL,
        JobId::WANDERER,
        JobId::SURA,
        JobId::GENETIC,
        JobId::SHADOW_CHASER,
        JobId::RUNE_KNIGHT2,
        JobId::ROYAL_GUARD2,
        JobId::RANGER2,
        JobId::MECHANIC2,
    ]
}

/// Two jobs with one number are one job.
pub proof fn lemma_job_ids_differ(a: JobId, b: JobId)
    requires
        a.id() == b.id(),
    ensures
        a == b,
{
}

fn named_job_list() -> (jobs: Vec<JobId>)
    ensures
        jobs@ == named_jobs(),
{
    vec![
        JobId::NOVICE,
        JobId::SWORDMAN,
        JobId::MAGICIAN,
        JobId::ARCHER,
        JobId::ACOLYTE,
        JobId::MERCHANT,
        JobId::THIEF,
        JobId::KNIGHT,
        JobId::PRIEST,
        JobId::WIZARD,
        JobId::BLACKSMITH,
        JobId::HUNTER,
        JobId::ASSASSIN,
        JobId::KNIGHT2,
        JobId::CRUSADER,
        JobId::MONK,
        JobId::SAGE,
        JobId::ROGUE,
        JobId::ALCHEMIST,
        JobId::BARD,
        JobId::DANCER,
        JobId::CRUSADER2,
        JobId::SUPERNOVICE,
        JobId::GUNSLINGER,
        JobId::NINJA,
        JobId::TAEKWON,
        JobId::STAR,
        JobId::STAR2,
        JobId::LINKER,
        JobId::MARRIED,
        JobId::XMAS,
        JobId::SUMMER,
        JobId::KNIGHT_H,
        JobId::PRIEST_H,
        JobId::WIZARD_H,
        JobId::BLACKSMITH_H,
        JobId::HUNTER_H,
        JobId::ASSASSIN_H,
        JobId::KNIGHT2_H,
        JobId::CRUSADER_H,
        JobId::MONK_H,
        JobId::SAGE_H,
        JobId::ROGUE_H,
        JobId::ALCHEMIST_H,
        JobId::BARD_H,
        JobId::DANCER_H,
        JobId::CRUSADER2_H,
        JobId::RUNE_KNIGHT,
        JobId::WARLOCK,
        JobId::RANGER,
        JobId::ARCHBISHOP,
        JobId::MECHANIC,
        JobId::GUILLOTINE_CROSS,
        JobId::ROYAL_GUARD,
        JobId::SORCERER,
        JobId::MINSTREL,
        JobId::WANDERER,
        JobId::SURA,
        JobId::GENETIC,
        JobId::SHADOW_CHASER,
        JobId::RUNE_KNIGHT2,
        JobId::ROYAL_GUARD2,
        JobId::RANGER2,
        JobId::MECHANIC2,
    ]
}

/// The names under which the game files know the jobs, by the job's number.
///
/// The table has an entry for each of the `named_jobs()` and for no other
/// number, and the entry is the job's name as it reads in Windows-1252.
pub fn job_name_table() -> (table: HashMap<u32, String>)
    ensures
        forall|i: int|
            0 <= i < named_jobs().len() ==> table@.contains_key(#[trigger] named_jobs()[i].id())
                && table@[named_jobs()[i].id()]@ == windows_1252_text(named_jobs()[i].name_code()),
        forall|number: u32| #[trigger]
            table@.contains_key(number) ==> exists|i: int|
                0 <= i < named_jobs().len() && named_jobs()[i].id() == number,
{
    let jobs = named_job_list();
    let mut table: HashMap<u32, String> = HashMap::new();
    let mut i: usize = 0;
    while i < jobs.len()
        invariant
            jobs@ == named_jobs(),
            i <= jobs.len(),
            forall|k: int|
                0 <= k < i ==> table@.contains_key(#[trigger] jobs[k].id()) && table@[jobs[k].id()]@
                    == windows_1252_text(jobs[k].name_code()),
            forall|number: u32| #[trigger]
                table@.contains_key(number) ==> exists|k: int|
                    0 <= k < i && jobs[k].id() == number,
        decreases jobs.len() - i,
    {
        let job = jobs[i];
        let bytes = job.name_bytes();
        let name = decode_windows_1252(bytes.as_slice());
        let ghost before = table@;
        table.insert(job.value(), name);
        proof {
            assert forall|k: int| 0 <= k < i + 1 implies table@.contains_key(
                #[trigger] jobs[k].id(),
            ) && table@[jobs[k].id()]@ == windows_1252_text(jobs[k].name_code()) by {
                if jobs[k].id() == job.id() {
                    lemma_job_ids_differ(jobs[k], job);
                }
            }
            assert forall|number: u32| #[trigger] table@.contains_key(number) implies exists|
                k: int,
            |
                0 <= k < i + 1 && jobs[k].id() == number by {
                if number == job.id() {
                    assert(jobs[i as int].id() == number);
                } else {
                    assert(before.contains_key(number));
                    let k = choose|k: int| 0 <= k < i && jobs[k].id() == number;
                    assert(jobs[k].id() == number);
                }
            }
        }
        i += 1;
    }
    table
}

} // verus!
