//! The element species and the dispatch from a species to its rule.

pub mod construction;
pub mod creatures;
pub mod crystals;
pub mod explosives;
pub mod falling;
pub mod food;
pub mod gas;
pub mod gases2;
pub mod liquid;
pub mod liquids2;
pub mod magical;
pub mod metals;
pub mod misc;
pub mod nature;
pub mod new;
pub mod organic;
pub mod organics2;
pub mod powders;
pub mod special;
pub mod tech;

use crate::cell::Cell;
use crate::world::{bounds, Ctx, Draws, SandApi, Scene};
use vstd::prelude::*;

verus! {

/// Every element type of the simulation, in the order of their numbers
/// (`Empty` is 0, `Domino` is 135).
#[derive(Clone, Copy, Debug, PartialEq, Eq, Structural)]
pub enum Species {
    Empty,
    Wall,
    Sand,
    Water,
    Gas,
    Cloner,
    Fire,
    Wood,
    Lava,
    Ice,
    Snow,
    Plant,
    Acid,
    Stone,
    Dust,
    Mite,
    Oil,
    Rocket,
    Fungus,
    Seed,
    Sponge,
    Slime,
    Glass,
    Coral,
    Iron,
    Copper,
    Gold,
    Silver,
    Aluminum,
    Lead,
    Zinc,
    Tin,
    Bronze,
    Steel,
    Diamond,
    Ruby,
    Sapphire,
    Emerald,
    Amethyst,
    Quartz,
    Crystal,
    Obsidian,
    Gunpowder,
    Flour,
    Sugar,
    Salt,
    Pepper,
    Ash,
    Soot,
    Charcoal,
    Mud,
    Blood,
    Honey,
    Milk,
    Poison,
    Mercury,
    Alcohol,
    Syrup,
    Steam,
    Smoke,
    Helium,
    Chlorine,
    Oxygen,
    Hydrogen,
    PlasmaGas,
    Methane,
    Leaf,
    Flower,
    Grass,
    Vine,
    Moss,
    Mushroom,
    Bark,
    Root,
    Fruit,
    Thorn,
    Ant,
    Spider,
    Bee,
    Butterfly,
    Fish,
    Bird,
    Snake,
    Worm,
    TNT,
    Bomb,
    Nitro,
    Plutonium,
    Uranium,
    C4,
    Thermite,
    Napalm,
    Brick,
    Concrete,
    Cement,
    Tile,
    Plaster,
    Marble,
    Granite,
    Basalt,
    Portal,
    Teleporter,
    Antigravity,
    Magnet,
    Lightning,
    Void,
    Chaos,
    Energy,
    Shield,
    Mirror,
    Bread,
    Cheese,
    Meat,
    Egg,
    Rice,
    Wheat,
    Clay,
    Soil,
    Peat,
    Limestone,
    Chalk,
    Shale,
    Slate,
    Sandstone,
    Wire,
    Circuit,
    Battery,
    SolarCell,
    Laser,
    LED,
    Bubble,
    Balloon,
    Confetti,
    Glitter,
    Spring,
    Domino,
}

/// How many species there are.
pub const SPECIES_COUNT: u8 = 136;

/// The number of a species (its position in the enum).
pub open spec fn species_number(s: Species) -> u8 {
    match s {
        Species::Empty => 0,
        Species::Wall => 1,
        Species::Sand => 2,
        Species::Water => 3,
        Species::Gas => 4,
        Species::Cloner => 5,
        Species::Fire => 6,
        Species::Wood => 7,
        Species::Lava => 8,
        Species::Ice => 9,
        Species::Snow => 10,
        Species::Plant => 11,
        Species::Acid => 12,
        Species::Stone => 13,
        Species::Dust => 14,
        Species::Mite => 15,
        Species::Oil => 16,
        Species::Rocket => 17,
        Species::Fungus => 18,
        Species::Seed => 19,
        Species::Sponge => 20,
        Species::Slime => 21,
        Species::Glass => 22,
        Species::Coral => 23,
        Species::Iron => 24,
        Species::Copper => 25,
        Species::Gold => 26,
        Species::Silver => 27,
        Species::Aluminum => 28,
        Species::Lead => 29,
        Species::Zinc => 30,
        Species::Tin => 31,
        Species::Bronze => 32,
        Species::Steel => 33,
        Species::Diamond => 34,
        Species::Ruby => 35,
        Species::Sapphire => 36,
        Species::Emerald => 37,
        Species::Amethyst => 38,
        Species::Quartz => 39,
        Species::Crystal => 40,
        Species::Obsidian => 41,
        Species::Gunpowder => 42,
        Species::Flour => 43,
        Species::Sugar => 44,
        Species::Salt => 45,
        Species::Pepper => 46,
        Species::Ash => 47,
        Species::Soot => 48,
        Species::Charcoal => 49,
        Species::Mud => 50,
        Species::Blood => 51,
        Species::Honey => 52,
        Species::Milk => 53,
        Species::Poison => 54,
        Species::Mercury => 55,
        Species::Alcohol => 56,
        Species::Syrup => 57,
        Species::Steam => 58,
        Species::Smoke => 59,
        Species::Helium => 60,
        Species::Chlorine => 61,
        Species::Oxygen => 62,
        Species::Hydrogen => 63,
        Species::PlasmaGas => 64,
        Species::Methane => 65,
        Species::Leaf => 66,
        Species::Flower => 67,
        Species::Grass => 68,
        Species::Vine => 69,
        Species::Moss => 70,
        Species::Mushroom => 71,
        Species::Bark => 72,
        Species::Root => 73,
        Species::Fruit => 74,
        Species::Thorn => 75,
        Species::Ant => 76,
        Species::Spider => 77,
        Species::Bee => 78,
        Species::Butterfly => 79,
        Species::Fish => 80,
        Species::Bird => 81,
        Species::Snake => 82,
        Species::Worm => 83,
        Species::TNT => 84,
        Species::Bomb => 85,
        Species::Nitro => 86,
        Species::Plutonium => 87,
        Species::Uranium => 88,
        Species::C4 => 89,
        Species::Thermite => 90,
        Species::Napalm => 91,
        Species::Brick => 92,
        Species::Concrete => 93,
        Species::Cement => 94,
        Species::Tile => 95,
        Species::Plaster => 96,
        Species::Marble => 97,
        Species::Granite => 98,
        Species::Basalt => 99,
        Species::Portal => 100,
        Species::Teleporter => 101,
        Species::Antigravity => 102,
        Species::Magnet => 103,
        Species::Lightning => 104,
        Species::Void => 105,
        Species::Chaos => 106,
        Species::Energy => 107,
        Species::Shield => 108,
        Species::Mirror => 109,
        Species::Bread => 110,
        Species::Cheese => 111,
        Species::Meat => 112,
        Species::Egg => 113,
        Species::Rice => 114,
        Species::Wheat => 115,
        Species::Clay => 116,
        Species::Soil => 117,
        Species::Peat => 118,
        Species::Limestone => 119,
        Species::Chalk => 120,
        Species::Shale => 121,
        Species::Slate => 122,
        Species::Sandstone => 123,
        Species::Wire => 124,
        Species::Circuit => 125,
        Species::Battery => 126,
        Species::SolarCell => 127,
        Species::Laser => 128,
        Species::LED => 129,
        Species::Bubble => 130,
        Species::Balloon => 131,
        Species::Confetti => 132,
        Species::Glitter => 133,
        Species::Spring => 134,
        Species::Domino => 135,
    }
}

/// The species with a given number; numbers past the last species give `Empty`.
pub open spec fn species_of_number(n: u8) -> Species {
    match n {
        0u8 => Species::Empty,
        1u8 => Species::Wall,
        2u8 => Species::Sand,
        3u8 => Species::Water,
        4u8 => Species::Gas,
        5u8 => Species::Cloner,
        6u8 => Species::Fire,
        7u8 => Species::Wood,
        8u8 => Species::Lava,
        9u8 => Species::Ice,
        10u8 => Species::Snow,
        11u8 => Species::Plant,
        12u8 => Species::Acid,
        13u8 => Species::Stone,
        14u8 => Species::Dust,
        15u8 => Species::Mite,
        16u8 => Species::Oil,
        17u8 => Species::Rocket,
        18u8 => Species::Fungus,
        19u8 => Species::Seed,
        20u8 => Species::Sponge,
        21u8 => Species::Slime,
        22u8 => Species::Glass,
        23u8 => Species::Coral,
        24u8 => Species::Iron,
        25u8 => Species::Copper,
        26u8 => Species::Gold,
        27u8 => Species::Silver,
        28u8 => Species::Aluminum,
        29u8 => Species::Lead,
        30u8 => Species::Zinc,
        31u8 => Species::Tin,
        32u8 => Species::Bronze,
        33u8 => Species::Steel,
        34u8 => Species::Diamond,
        35u8 => Species::Ruby,
        36u8 => Species::Sapphire,
        37u8 => Species::Emerald,
        38u8 => Species::Amethyst,
        39u8 => Species::Quartz,
        40u8 => Species::Crystal,
        41u8 => Species::Obsidian,
        42u8 => Species::Gunpowder,
        43u8 => Species::Flour,
        44u8 => Species::Sugar,
        45u8 => Species::Salt,
        46u8 => Species::Pepper,
        47u8 => Species::Ash,
        48u8 => Species::Soot,
        49u8 => Species::Charcoal,
        50u8 => Species::Mud,
        51u8 => Species::Blood,
        52u8 => Species::Honey,
        53u8 => Species::Milk,
        54u8 => Species::Poison,
        55u8 => Species::Mercury,
        56u8 => Species::Alcohol,
        57u8 => Species::Syrup,
        58u8 => Species::Steam,
        59u8 => Species::Smoke,
        60u8 => Species::Helium,
        61u8 => Species::Chlorine,
        62u8 => Species::Oxygen,
        63u8 => Species::Hydrogen,
        64u8 => Species::PlasmaGas,
        65u8 => Species::Methane,
        66u8 => Species::Leaf,
        67u8 => Species::Flower,
        68u8 => Species::Grass,
        69u8 => Species::Vine,
        70u8 => Species::Moss,
        71u8 => Species::Mushroom,
        72u8 => Species::Bark,
        73u8 => Species::Root,
        74u8 => Species::Fruit,
        75u8 => Species::Thorn,
        76u8 => Species::Ant,
        77u8 => Species::Spider,
        78u8 => Species::Bee,
        79u8 => Species::Butterfly,
        80u8 => Species::Fish,
        81u8 => Species::Bird,
        82u8 => Species::Snake,
        83u8 => Species::Worm,
        84u8 => Species::TNT,
        85u8 => Species::Bomb,
        86u8 => Species::Nitro,
        87u8 => Species::Plutonium,
        88u8 => Species::Uranium,
        89u8 => Species::C4,
        90u8 => Species::Thermite,
        91u8 => Species::Napalm,
        92u8 => Species::Brick,
        93u8 => Species::Concrete,
        94u8 => Species::Cement,
        95u8 => Species::Tile,
        96u8 => Species::Plaster,
        97u8 => Species::Marble,
        98u8 => Species::Granite,
        99u8 => Species::Basalt,
        100u8 => Species::Portal,
        101u8 => Species::Teleporter,
        102u8 => Species::Antigravity,
        103u8 => Species::Magnet,
        104u8 => Species::Lightning,
        105u8 => Species::Void,
        106u8 => Species::Chaos,
        107u8 => Species::Energy,
        108u8 => Species::Shield,
        109u8 => Species::Mirror,
        110u8 => Species::Bread,
        111u8 => Species::Cheese,
        112u8 => Species::Meat,
        113u8 => Species::Egg,
        114u8 => Species::Rice,
        115u8 => Species::Wheat,
        116u8 => Species::Clay,
        117u8 => Species::Soil,
        118u8 => Species::Peat,
        119u8 => Species::Limestone,
        120u8 => Species::Chalk,
        121u8 => Species::Shale,
        122u8 => Species::Slate,
        123u8 => Species::Sandstone,
        124u8 => Species::Wire,
        125u8 => Species::Circuit,
        126u8 => Species::Battery,
        127u8 => Species::SolarCell,
        128u8 => Species::Laser,
        129u8 => Species::LED,
        130u8 => Species::Bubble,
        131u8 => Species::Balloon,
        132u8 => Species::Confetti,
        133u8 => Species::Glitter,
        134u8 => Species::Spring,
        135u8 => Species::Domino,
        _ => Species::Empty,
    }
}

impl Species {
    /// The number of this species.
    pub fn to_u8(self) -> (n: u8)
        ensures
            n == species_number(self),
    {
        match self {
            Species::Empty => 0,
            Species::Wall => 1,
            Species::Sand => 2,
            Species::Water => 3,
            Species::Gas => 4,
            Species::Cloner => 5,
            Species::Fire => 6,
            Species::Wood => 7,
            Species::Lava => 8,
            Species::Ice => 9,
            Species::Snow => 10,
            Species::Plant => 11,
            Species::Acid => 12,
            Species::Stone => 13,
            Species::Dust => 14,
            Species::Mite => 15,
            Species::Oil => 16,
            Species::Rocket => 17,
            Species::Fungus => 18,
            Species::Seed => 19,
            Species::Sponge => 20,
            Species::Slime => 21,
            Species::Glass => 22,
            Species::Coral => 23,
            Species::Iron => 24,
            Species::Copper => 25,
            Species::Gold => 26,
            Species::Silver => 27,
            Species::Aluminum => 28,
            Species::Lead => 29,
            Species::Zinc => 30,
            Species::Tin => 31,
            Species::Bronze => 32,
            Species::Steel => 33,
            Species::Diamond => 34,
            Species::Ruby => 35,
            Species::Sapphire => 36,
            Species::Emerald => 37,
            Species::Amethyst => 38,
            Species::Quartz => 39,
            Species::Crystal => 40,
            Species::Obsidian => 41,
            Species::Gunpowder => 42,
            Species::Flour => 43,
            Species::Sugar => 44,
            Species::Salt => 45,
            Species::Pepper => 46,
            Species::Ash => 47,
            Species::Soot => 48,
            Species::Charcoal => 49,
            Species::Mud => 50,
            Species::Blood => 51,
            Species::Honey => 52,
            Species::Milk => 53,
            Species::Poison => 54,
            Species::Mercury => 55,
            Species::Alcohol => 56,
            Species::Syrup => 57,
            Species::Steam => 58,
            Species::Smoke => 59,
            Species::Helium => 60,
            Species::Chlorine => 61,
            Species::Oxygen => 62,
            Species::Hydrogen => 63,
            Species::PlasmaGas => 64,
            Species::Methane => 65,
            Species::Leaf => 66,
            Species::Flower => 67,
            Species::Grass => 68,
            Species::Vine => 69,
            Species::Moss => 70,
            Species::Mushroom => 71,
            Species::Bark => 72,
            Species::Root => 73,
            Species::Fruit => 74,
            Species::Thorn => 75,
            Species::Ant => 76,
            Species::Spider => 77,
            Species::Bee => 78,
            Species::Butterfly => 79,
            Species::Fish => 80,
            Species::Bird => 81,
            Species::Snake => 82,
            Species::Worm => 83,
            Species::TNT => 84,
            Species::Bomb => 85,
            Species::Nitro => 86,
            Species::Plutonium => 87,
            Species::Uranium => 88,
            Species::C4 => 89,
            Species::Thermite => 90,
            Species::Napalm => 91,
            Species::Brick => 92,
            Species::Concrete => 93,
            Species::Cement => 94,
            Species::Tile => 95,
            Species::Plaster => 96,
            Species::Marble => 97,
            Species::Granite => 98,
            Species::Basalt => 99,
            Species::Portal => 100,
            Species::Teleporter => 101,
            Species::Antigravity => 102,
            Species::Magnet => 103,
            Species::Lightning => 104,
            Species::Void => 105,
            Species::Chaos => 106,
            Species::Energy => 107,
            Species::Shield => 108,
            Species::Mirror => 109,
            Species::Bread => 110,
            Species::Cheese => 111,
            Species::Meat => 112,
            Species::Egg => 113,
            Species::Rice => 114,
            Species::Wheat => 115,
            Species::Clay => 116,
            Species::Soil => 117,
            Species::Peat => 118,
            Species::Limestone => 119,
            Species::Chalk => 120,
            Species::Shale => 121,
            Species::Slate => 122,
            Species::Sandstone => 123,
            Species::Wire => 124,
            Species::Circuit => 125,
            Species::Battery => 126,
            Species::SolarCell => 127,
            Species::Laser => 128,
            Species::LED => 129,
            Species::Bubble => 130,
            Species::Balloon => 131,
            Species::Confetti => 132,
            Species::Glitter => 133,
            Species::Spring => 134,
            Species::Domino => 135,
        }
    }

    /// The species with number `n`, or `None` when no species has that number.
    pub fn from_u8(n: u8) -> (s: Option<Species>)
        ensures
            n < SPECIES_COUNT ==> s == Some(species_of_number(n)),
            n >= SPECIES_COUNT ==> s.is_none(),
    {
        match n {
            0 => Some(Species::Empty),
            1 => Some(Species::Wall),
            2 => Some(Species::Sand),
            3 => Some(Species::Water),
            4 => Some(Species::Gas),
            5 => Some(Species::Cloner),
            6 => Some(Species::Fire),
            7 => Some(Species::Wood),
            8 => Some(Species::Lava),
            9 => Some(Species::Ice),
            10 => Some(Species::Snow),
            11 => Some(Species::Plant),
            12 => Some(Species::Acid),
            13 => Some(Species::Stone),
            14 => Some(Species::Dust),
            15 => Some(Species::Mite),
            16 => Some(Species::Oil),
            17 => Some(Species::Rocket),
            18 => Some(Species::Fungus),
            19 => Some(Species::Seed),
            20 => Some(Species::Sponge),
            21 => Some(Species::Slime),
            22 => Some(Species::Glass),
            23 => Some(Species::Coral),
            24 => Some(Species::Iron),
            25 => Some(Species::Copper),
            26 => Some(Species::Gold),
            27 => Some(Species::Silver),
            28 => Some(Species::Aluminum),
            29 => Some(Species::Lead),
            30 => Some(Species::Zinc),
            31 => Some(Species::Tin),
            32 => Some(Species::Bronze),
            33 => Some(Species::Steel),
            34 => Some(Species::Diamond),
            35 => Some(Species::Ruby),
            36 => Some(Species::Sapphire),
            37 => Some(Species::Emerald),
            38 => Some(Species::Amethyst),
            39 => Some(Species::Quartz),
            40 => Some(Species::Crystal),
            41 => Some(Species::Obsidian),
            42 => Some(Species::Gunpowder),
            43 => Some(Species::Flour),
            44 => Some(Species::Sugar),
            45 => Some(Species::Salt),
            46 => Some(Species::Pepper),
            47 => Some(Species::Ash),
            48 => Some(Species::Soot),
            49 => Some(Species::Charcoal),
            50 => Some(Species::Mud),
            51 => Some(Species::Blood),
            52 => Some(Species::Honey),
            53 => Some(Species::Milk),
            54 => Some(Species::Poison),
            55 => Some(Species::Mercury),
            56 => Some(Species::Alcohol),
            57 => Some(Species::Syrup),
            58 => Some(Species::Steam),
            59 => Some(Species::Smoke),
            60 => Some(Species::Helium),
            61 => Some(Species::Chlorine),
            62 => Some(Species::Oxygen),
            63 => Some(Species::Hydrogen),
            64 => Some(Species::PlasmaGas),
            65 => Some(Species::Methane),
            66 => Some(Species::Leaf),
            67 => Some(Species::Flower),
            68 => Some(Species::Grass),
            69 => Some(Species::Vine),
            70 => Some(Species::Moss),
            71 => Some(Species::Mushroom),
            72 => Some(Species::Bark),
            73 => Some(Species::Root),
            74 => Some(Species::Fruit),
            75 => Some(Species::Thorn),
            76 => Some(Species::Ant),
            77 => Some(Species::Spider),
            78 => Some(Species::Bee),
            79 => Some(Species::Butterfly),
            80 => Some(Species::Fish),
            81 => Some(Species::Bird),
            82 => Some(Species::Snake),
            83 => Some(Species::Worm),
            84 => Some(Species::TNT),
            85 => Some(Species::Bomb),
            86 => Some(Species::Nitro),
            87 => Some(Species::Plutonium),
            88 => Some(Species::Uranium),
            89 => Some(Species::C4),
            90 => Some(Species::Thermite),
            91 => Some(Species::Napalm),
            92 => Some(Species::Brick),
            93 => Some(Species::Concrete),
            94 => Some(Species::Cement),
            95 => Some(Species::Tile),
            96 => Some(Species::Plaster),
            97 => Some(Species::Marble),
            98 => Some(Species::Granite),
            99 => Some(Species::Basalt),
            100 => Some(Species::Portal),
            101 => Some(Species::Teleporter),
            102 => Some(Species::Antigravity),
            103 => Some(Species::Magnet),
            104 => Some(Species::Lightning),
            105 => Some(Species::Void),
            106 => Some(Species::Chaos),
            107 => Some(Species::Energy),
            108 => Some(Species::Shield),
            109 => Some(Species::Mirror),
            110 => Some(Species::Bread),
            111 => Some(Species::Cheese),
            112 => Some(Species::Meat),
            113 => Some(Species::Egg),
            114 => Some(Species::Rice),
            115 => Some(Species::Wheat),
            116 => Some(Species::Clay),
            117 => Some(Species::Soil),
            118 => Some(Species::Peat),
            119 => Some(Species::Limestone),
            120 => Some(Species::Chalk),
            121 => Some(Species::Shale),
            122 => Some(Species::Slate),
            123 => Some(Species::Sandstone),
            124 => Some(Species::Wire),
            125 => Some(Species::Circuit),
            126 => Some(Species::Battery),
            127 => Some(Species::SolarCell),
            128 => Some(Species::Laser),
            129 => Some(Species::LED),
            130 => Some(Species::Bubble),
            131 => Some(Species::Balloon),
            132 => Some(Species::Confetti),
            133 => Some(Species::Glitter),
            134 => Some(Species::Spring),
            135 => Some(Species::Domino),
            _ => None,
        }
    }
}

/// Numbering species and reading the number back gives the species again.
pub proof fn lemma_number_round_trip(s: Species)
    ensures
        species_number(s) < SPECIES_COUNT,
        species_of_number(species_number(s)) == s,
{
}

/// Every number below the species count names the species numbered by it.
pub proof fn lemma_number_of_species_of_number(n: u8)
    requires
        n < SPECIES_COUNT,
    ensures
        species_number(species_of_number(n)) == n,
{
}

/// Whether a cell may take a turn as species `sp` within the limits of
/// that species' rule: a mite whose jump timer runs while it steers weakly,
/// a cloner whose load is no species, and a rocket with an unknown load or
/// heading may not.
pub open spec fn can_update(sp: Species, cell: Cell) -> bool {
    match sp {
        Species::Mite => organic::mite_ok(cell),
        Species::Cloner => cell.rb < SPECIES_COUNT,
        Species::Rocket => special::rocket_ok(cell),
        _ => true,
    }
}

/// Whether a cell may take a turn as species `sp` (see `can_update`).
pub fn may_update(sp: Species, cell: Cell) -> (b: bool)
    ensures
        b == can_update(sp, cell),
{
    match sp {
        Species::Mite => !(4 <= cell.ra && cell.ra < 20 && cell.rb > 1),
        Species::Cloner => cell.rb < SPECIES_COUNT,
        Species::Rocket => cell.rb == 0 || (cell.rb < SPECIES_COUNT && (cell.ra <= 50 || (100 <= cell.ra
            && cell.ra <= 111))),
        _ => true,
    }
}

/// The rule of species `sp` for `cell` (see each species' rule); empty
/// space and walls do nothing.
pub open spec fn species_rule(sp: Species, c: Ctx, s: Scene, cell: Cell, ds: Draws) -> Scene {
    match sp {
        Species::Empty => s,
        Species::Wall => s,
        Species::Sand => falling::sand_rule(c, s, cell, ds),
        Species::Dust => falling::dust_rule(c, s, cell, ds),
        Species::Stone => falling::stone_rule(c, s, cell, ds),
        Species::Water => liquid::water_rule(c, s, cell, ds),
        Species::Oil => liquid::oil_rule(c, s, cell, ds),
        Species::Lava => liquid::lava_rule(c, s, cell, ds),
        Species::Acid => liquid::acid_rule(c, s, cell, ds),
        Species::Gas => gas::gas_rule(c, s, cell, ds),
        Species::Fire => gas::fire_rule(c, s, cell, ds),
        Species::Wood => organic::wood_rule(c, s, cell, ds),
        Species::Plant => organic::plant_rule(c, s, cell, ds),
        Species::Fungus => organic::fungus_rule(c, s, cell, ds),
        Species::Seed => organic::seed_rule(c, s, cell, ds),
        Species::Mite => organic::mite_rule(c, s, cell, ds),
        Species::Ice => special::ice_rule(c, s, cell, ds),
        Species::Cloner => special::cloner_rule(c, s, cell, ds),
        Species::Rocket => special::rocket_rule(c, s, cell, ds),
        Species::Snow => new::snow_rule(c, s, cell, ds),
        Species::Sponge => new::sponge_rule(c, s, cell, ds),
        Species::Slime => new::slime_rule(c, s, cell, ds),
        Species::Glass => new::glass_rule(c, s, cell, ds),
        Species::Coral => new::coral_rule(c, s, cell, ds),
        Species::Iron => metals::iron_rule(c, s, cell, ds),
        Species::Copper => metals::copper_rule(c, s, cell, ds),
        Species::Gold => metals::gold_rule(c, s, cell, ds),
        Species::Silver => metals::silver_rule(c, s, cell, ds),
        Species::Aluminum => metals::aluminum_rule(c, s, cell, ds),
        Species::Lead => metals::lead_rule(c, s, cell, ds),
        Species::Zinc => metals::zinc_rule(c, s, cell, ds),
        Species::Tin => metals::tin_rule(c, s, cell, ds),
        Species::Bronze => metals::bronze_rule(c, s, cell, ds),
        Species::Steel => metals::steel_rule(c, s, cell, ds),
        Species::Diamond => crystals::diamond_rule(c, s, cell, ds),
        Species::Ruby => crystals::ruby_rule(c, s, cell, ds),
        Species::Sapphire => crystals::sapphire_rule(c, s, cell, ds),
        Species::Emerald => crystals::emerald_rule(c, s, cell, ds),
        Species::Amethyst => crystals::amethyst_rule(c, s, cell, ds),
        Species::Quartz => crystals::quartz_rule(c, s, cell, ds),
        Species::Crystal => crystals::crystal_rule(c, s, cell, ds),
        Species::Obsidian => crystals::obsidian_rule(c, s, cell, ds),
        Species::Gunpowder => powders::gunpowder_rule(c, s, cell, ds),
        Species::Flour => powders::flour_rule(c, s, cell, ds),
        Species::Sugar => powders::sugar_rule(c, s, cell, ds),
        Species::Salt => powders::salt_rule(c, s, cell, ds),
        Species::Pepper => powders::pepper_rule(c, s, cell, ds),
        Species::Ash => powders::light_powder_rule(c, s, cell, 2, ds),
        Species::Soot => powders::light_powder_rule(c, s, cell, 3, ds),
        Species::Charcoal => powders::charcoal_rule(c, s, cell, ds),
        Species::Mud => liquids2::mud_rule(c, s, cell, ds),
        Species::Blood => liquids2::blood_rule(c, s, cell, ds),
        Species::Honey => liquids2::honey_rule(c, s, cell, ds),
        Species::Milk => liquids2::milk_rule(c, s, cell, ds),
        Species::Poison => liquids2::poison_rule(c, s, cell, ds),
        Species::Mercury => liquids2::mercury_rule(c, s, cell, ds),
        Species::Alcohol => liquids2::alcohol_rule(c, s, cell, ds),
        Species::Syrup => liquids2::syrup_rule(c, s, cell, ds),
        Species::Steam => gases2::steam_rule(c, s, cell, ds),
        Species::Smoke => gases2::smoke_rule(c, s, cell, ds),
        Species::Helium => gases2::helium_rule(c, s, cell, ds),
        Species::Chlorine => gases2::chlorine_rule(c, s, cell, ds),
        Species::Oxygen => gases2::oxygen_rule(c, s, cell, ds),
        Species::Hydrogen => gases2::hydrogen_rule(c, s, cell, ds),
        Species::PlasmaGas => gases2::plasma_rule(c, s, cell, ds),
        Species::Methane => gases2::methane_rule(c, s, cell, ds),
        Species::Leaf => organics2::leaf_rule(c, s, cell, ds),
        Species::Flower => organics2::flower_rule(c, s, cell, ds),
        Species::Grass => organics2::grass_rule(c, s, cell, ds),
        Species::Vine => organics2::vine_rule(c, s, cell, ds),
        Species::Moss => organics2::moss_rule(c, s, cell, ds),
        Species::Mushroom => organics2::mushroom_rule(c, s, cell, ds),
        Species::Bark => organics2::bark_rule(c, s, cell, ds),
        Species::Root => organics2::root_rule(c, s, cell, ds),
        Species::Fruit => organics2::fruit_rule(c, s, cell, ds),
        Species::Thorn => organics2::thorn_rule(c, s, cell, ds),
        Species::Ant => creatures::ant_rule(c, s, cell, ds),
        Species::Spider => creatures::spider_rule(c, s, cell, ds),
        Species::Bee => creatures::bee_rule(c, s, cell, ds),
        Species::Butterfly => creatures::butterfly_rule(c, s, cell, ds),
        Species::Fish => creatures::fish_rule(c, s, cell, ds),
        Species::Bird => creatures::bird_rule(c, s, cell, ds),
        Species::Snake => creatures::snake_rule(c, s, cell, ds),
        Species::Worm => creatures::worm_rule(c, s, cell, ds),
        Species::TNT => explosives::tnt_rule(c, s, cell, ds),
        Species::Bomb => explosives::bomb_rule(c, s, cell, ds),
        Species::Nitro => explosives::nitro_rule(c, s, cell, ds),
        Species::Plutonium => explosives::plutonium_rule(c, s, cell, ds),
        Species::Uranium => explosives::uranium_rule(c, s, cell, ds),
        Species::C4 => explosives::c4_rule(c, s, cell, ds),
        Species::Thermite => explosives::thermite_rule(c, s, cell, ds),
        Species::Napalm => explosives::napalm_rule(c, s, cell, ds),
        Species::Brick => construction::brick_rule(c, s, cell, ds),
        Species::Concrete => construction::concrete_rule(c, s, cell, ds),
        Species::Cement => construction::cement_rule(c, s, cell, ds),
        Species::Tile => construction::tile_rule(c, s, cell, ds),
        Species::Plaster => construction::plaster_rule(c, s, cell, ds),
        Species::Marble => construction::marble_rule(c, s, cell, ds),
        Species::Granite => construction::granite_rule(c, s, cell, ds),
        Species::Basalt => construction::basalt_rule(c, s, cell, ds),
        Species::Portal => magical::portal_rule(c, s, cell, ds),
        Species::Teleporter => magical::teleporter_rule(c, s, cell, ds),
        Species::Antigravity => magical::antigravity_rule(c, s, cell, ds),
        Species::Magnet => magical::magnet_rule(c, s, cell, ds),
        Species::Lightning => magical::lightning_rule(c, s, cell, ds),
        Species::Void => magical::void_rule(c, s, cell, ds),
        Species::Chaos => magical::chaos_rule(c, s, cell, ds),
        Species::Energy => magical::energy_rule(c, s, cell, ds),
        Species::Shield => magical::shield_rule(c, s, cell, ds),
        Species::Mirror => magical::mirror_rule(c, s, cell, ds),
        Species::Bread => food::bread_rule(c, s, cell, ds),
        Species::Cheese => food::cheese_rule(c, s, cell, ds),
        Species::Meat => food::meat_rule(c, s, cell, ds),
        Species::Egg => food::egg_rule(c, s, cell, ds),
        Species::Rice => food::rice_rule(c, s, cell, ds),
        Species::Wheat => food::wheat_rule(c, s, cell, ds),
        Species::Clay => nature::clay_rule(c, s, cell, ds),
        Species::Soil => nature::soil_rule(c, s, cell, ds),
        Species::Peat => nature::peat_rule(c, s, cell, ds),
        Species::Limestone => nature::limestone_rule(c, s, cell, ds),
        Species::Chalk => nature::chalk_rule(c, s, cell, ds),
        Species::Shale => nature::shale_rule(c, s, cell, ds),
        Species::Slate => nature::slate_rule(c, s, cell, ds),
        Species::Sandstone => nature::sandstone_rule(c, s, cell, ds),
        Species::Wire => tech::wire_rule(c, s, cell, ds),
        Species::Circuit => tech::circuit_rule(c, s, cell, ds),
        Species::Battery => tech::battery_rule(c, s, cell, ds),
        Species::SolarCell => tech::solar_cell_rule(c, s, cell, ds),
        Species::Laser => tech::laser_rule(c, s, cell, ds),
        Species::LED => tech::led_rule(c, s, cell, ds),
        Species::Bubble => misc::bubble_rule(c, s, cell, ds),
        Species::Balloon => misc::balloon_rule(c, s, cell, ds),
        Species::Confetti => misc::confetti_rule(c, s, cell, ds),
        Species::Glitter => misc::glitter_rule(c, s, cell, ds),
        Species::Spring => misc::spring_rule(c, s, cell, ds),
        Species::Domino => misc::domino_rule(c, s, cell, ds),
    }
}

/// The bounds of the draws that species `sp` makes for `cell` (see each
/// species' rule); empty space and walls make none.
pub open spec fn species_draws(sp: Species, c: Ctx, s: Scene, cell: Cell, ds: Draws) -> Seq<int> {
    match sp {
        Species::Empty => seq![],
        Species::Wall => seq![],
        Species::Sand => falling::sand_draws(c, s, cell, ds),
        Species::Dust => falling::dust_draws(c, s, cell, ds),
        Species::Stone => falling::stone_draws(c, s, cell, ds),
        Species::Water => liquid::water_draws(c, s, cell, ds),
        Species::Oil => liquid::oil_draws(c, s, cell, ds),
        Species::Lava => liquid::lava_draws(c, s, cell, ds),
        Species::Acid => liquid::acid_draws(c, s, cell, ds),
        Species::Gas => gas::gas_draws(c, s, cell, ds),
        Species::Fire => gas::fire_draws(c, s, cell, ds),
        Species::Wood => organic::wood_draws(c, s, cell, ds),
        Species::Plant => organic::plant_draws(c, s, cell, ds),
        Species::Fungus => organic::fungus_draws(c, s, cell, ds),
        Species::Seed => organic::seed_draws(c, s, cell, ds),
        Species::Mite => organic::mite_draws(c, s, cell, ds),
        Species::Ice => special::ice_draws(c, s, cell, ds),
        Species::Cloner => special::cloner_draws(c, s, cell, ds),
        Species::Rocket => special::rocket_draws(c, s, cell, ds),
        Species::Snow => new::snow_draws(c, s, cell, ds),
        Species::Sponge => new::sponge_draws(c, s, cell, ds),
        Species::Slime => new::slime_draws(c, s, cell, ds),
        Species::Glass => new::glass_draws(c, s, cell, ds),
        Species::Coral => new::coral_draws(c, s, cell, ds),
        Species::Iron => metals::iron_draws(c, s, cell, ds),
        Species::Copper => metals::copper_draws(c, s, cell, ds),
        Species::Gold => metals::gold_draws(c, s, cell, ds),
        Species::Silver => metals::silver_draws(c, s, cell, ds),
        Species::Aluminum => metals::aluminum_draws(c, s, cell, ds),
        Species::Lead => metals::lead_draws(c, s, cell, ds),
        Species::Zinc => metals::zinc_draws(c, s, cell, ds),
        Species::Tin => metals::tin_draws(c, s, cell, ds),
        Species::Bronze => metals::bronze_draws(c, s, cell, ds),
        Species::Steel => metals::steel_draws(c, s, cell, ds),
        Species::Diamond => crystals::diamond_draws(c, s, cell, ds),
        Species::Ruby => crystals::ruby_draws(c, s, cell, ds),
        Species::Sapphire => crystals::sapphire_draws(c, s, cell, ds),
        Species::Emerald => crystals::emerald_draws(c, s, cell, ds),
        Species::Amethyst => crystals::amethyst_draws(c, s, cell, ds),
        Species::Quartz => crystals::quartz_draws(c, s, cell, ds),
        Species::Crystal => crystals::crystal_draws(c, s, cell, ds),
        Species::Obsidian => crystals::obsidian_draws(c, s, cell, ds),
        Species::Gunpowder => powders::gunpowder_draws(c, s, cell, ds),
        Species::Flour => powders::flour_draws(c, s, cell, ds),
        Species::Sugar => powders::sugar_draws(c, s, cell, ds),
        Species::Salt => powders::salt_draws(c, s, cell, ds),
        Species::Pepper => powders::pepper_draws(c, s, cell, ds),
        Species::Ash => powders::light_powder_draws(c, s, cell, 2, ds),
        Species::Soot => powders::light_powder_draws(c, s, cell, 3, ds),
        Species::Charcoal => powders::charcoal_draws(c, s, cell, ds),
        Species::Mud => liquids2::mud_draws(c, s, cell, ds),
        Species::Blood => liquids2::blood_draws(c, s, cell, ds),
        Species::Honey => liquids2::honey_draws(c, s, cell, ds),
        Species::Milk => liquids2::milk_draws(c, s, cell, ds),
        Species::Poison => liquids2::poison_draws(c, s, cell, ds),
        Species::Mercury => liquids2::mercury_draws(c, s, cell, ds),
        Species::Alcohol => liquids2::alcohol_draws(c, s, cell, ds),
        Species::Syrup => liquids2::syrup_draws(c, s, cell, ds),
        Species::Steam => gases2::steam_draws(c, s, cell, ds),
        Species::Smoke => gases2::smoke_draws(c, s, cell, ds),
        Species::Helium => gases2::helium_draws(c, s, cell, ds),
        Species::Chlorine => gases2::chlorine_draws(c, s, cell, ds),
        Species::Oxygen => gases2::oxygen_draws(c, s, cell, ds),
        Species::Hydrogen => gases2::hydrogen_draws(c, s, cell, ds),
        Species::PlasmaGas => gases2::plasma_draws(c, s, cell, ds),
        Species::Methane => gases2::methane_draws(c, s, cell, ds),
        Species::Leaf => organics2::leaf_draws(c, s, cell, ds),
        Species::Flower => organics2::flower_draws(c, s, cell, ds),
        Species::Grass => organics2::grass_draws(c, s, cell, ds),
        Species::Vine => organics2::vine_draws(c, s, cell, ds),
        Species::Moss => organics2::moss_draws(c, s, cell, ds),
        Species::Mushroom => organics2::mushroom_draws(c, s, cell, ds),
        Species::Bark => organics2::bark_draws(c, s, cell, ds),
        Species::Root => organics2::root_draws(c, s, cell, ds),
        Species::Fruit => organics2::fruit_draws(c, s, cell, ds),
        Species::Thorn => organics2::thorn_draws(c, s, cell, ds),
        Species::Ant => creatures::ant_draws(c, s, cell, ds),
        Species::Spider => creatures::spider_draws(c, s, cell, ds),
        Species::Bee => creatures::bee_draws(c, s, cell, ds),
        Species::Butterfly => creatures::butterfly_draws(c, s, cell, ds),
        Species::Fish => creatures::fish_draws(c, s, cell, ds),
        Species::Bird => creatures::bird_draws(c, s, cell, ds),
        Species::Snake => creatures::snake_draws(c, s, cell, ds),
        Species::Worm => creatures::worm_draws(c, s, cell, ds),
        Species::TNT => explosives::tnt_draws(c, s, cell, ds),
        Species::Bomb => explosives::bomb_draws(c, s, cell, ds),
        Species::Nitro => explosives::nitro_draws(c, s, cell, ds),
        Species::Plutonium => explosives::plutonium_draws(c, s, cell, ds),
        Species::Uranium => explosives::uranium_draws(c, s, cell, ds),
        Species::C4 => explosives::c4_draws(c, s, cell, ds),
        Species::Thermite => explosives::thermite_draws(c, s, cell, ds),
        Species::Napalm => explosives::napalm_draws(c, s, cell, ds),
        Species::Brick => construction::brick_draws(c, s, cell, ds),
        Species::Concrete => construction::concrete_draws(c, s, cell, ds),
        Species::Cement => construction::cement_draws(c, s, cell, ds),
        Species::Tile => construction::tile_draws(c, s, cell, ds),
        Species::Plaster => construction::plaster_draws(c, s, cell, ds),
        Species::Marble => construction::marble_draws(c, s, cell, ds),
        Species::Granite => construction::granite_draws(c, s, cell, ds),
        Species::Basalt => construction::basalt_draws(c, s, cell, ds),
        Species::Portal => magical::portal_draws(c, s, cell, ds),
        Species::Teleporter => magical::teleporter_draws(c, s, cell, ds),
        Species::Antigravity => magical::antigravity_draws(c, s, cell, ds),
        Species::Magnet => magical::magnet_draws(c, s, cell, ds),
        Species::Lightning => magical::lightning_draws(c, s, cell, ds),
        Species::Void => magical::void_draws(c, s, cell, ds),
        Species::Chaos => magical::chaos_draws(c, s, cell, ds),
        Species::Energy => magical::energy_draws(c, s, cell, ds),
        Species::Shield => magical::shield_draws(c, s, cell, ds),
        Species::Mirror => magical::mirror_draws(c, s, cell, ds),
        Species::Bread => food::bread_draws(c, s, cell, ds),
        Species::Cheese => food::cheese_draws(c, s, cell, ds),
        Species::Meat => food::meat_draws(c, s, cell, ds),
        Species::Egg => food::egg_draws(c, s, cell, ds),
        Species::Rice => food::rice_draws(c, s, cell, ds),
        Species::Wheat => food::wheat_draws(c, s, cell, ds),
        Species::Clay => nature::clay_draws(c, s, cell, ds),
        Species::Soil => nature::soil_draws(c, s, cell, ds),
        Species::Peat => nature::peat_draws(c, s, cell, ds),
        Species::Limestone => nature::limestone_draws(c, s, cell, ds),
        Species::Chalk => nature::chalk_draws(c, s, cell, ds),
        Species::Shale => nature::shale_draws(c, s, cell, ds),
        Species::Slate => nature::slate_draws(c, s, cell, ds),
        Species::Sandstone => nature::sandstone_draws(c, s, cell, ds),
        Species::Wire => tech::wire_draws(c, s, cell, ds),
        Species::Circuit => tech::circuit_draws(c, s, cell, ds),
        Species::Battery => tech::battery_draws(c, s, cell, ds),
        Species::SolarCell => tech::solar_cell_draws(c, s, cell, ds),
        Species::Laser => tech::laser_draws(c, s, cell, ds),
        Species::LED => tech::led_draws(c, s, cell, ds),
        Species::Bubble => misc::bubble_draws(c, s, cell, ds),
        Species::Balloon => misc::balloon_draws(c, s, cell, ds),
        Species::Confetti => misc::confetti_draws(c, s, cell, ds),
        Species::Glitter => misc::glitter_draws(c, s, cell, ds),
        Species::Spring => misc::spring_draws(c, s, cell, ds),
        Species::Domino => misc::domino_draws(c, s, cell, ds),
    }
}

impl Species {
    /// One turn of `cell` as this species (see `species_rule`).
    #[verifier::rlimit(40)]
    pub fn update(&self, cell: Cell, api: &mut SandApi)
        requires
            old(api).wf(),
            can_update(*self, cell),
        ensures
            final(api).continues(*old(api)),
            final(api).scene() == species_rule(*self, old(api).ctx(), old(api).scene(), cell, final(api).new_draws(*old(api))),
            bounds(final(api).new_draws(*old(api))) == species_draws(*self, old(api).ctx(), old(api).scene(), cell, final(api).new_draws(*old(api))),
            *self == Species::Empty || *self == Species::Wall ==> *final(api) == *old(api),
    {
        match self {
            Species::Empty => {},
            Species::Wall => {},
            Species::Sand => falling::update_sand(cell, api),
            Species::Dust => falling::update_dust(cell, api),
            Species::Stone => falling::update_stone(cell, api),
            Species::Water => liquid::update_water(cell, api),
            Species::Oil => liquid::update_oil(cell, api),
            Species::Lava => liquid::update_lava(cell, api),
            Species::Acid => liquid::update_acid(cell, api),
            Species::Gas => gas::update_gas(cell, api),
            Species::Fire => gas::update_fire(cell, api),
            Species::Wood => organic::update_wood(cell, api),
            Species::Plant => organic::update_plant(cell, api),
            Species::Fungus => organic::update_fungus(cell, api),
            Species::Seed => organic::update_seed(cell, api),
            Species::Mite => organic::update_mite(cell, api),
            Species::Ice => special::update_ice(cell, api),
            Species::Cloner => special::update_cloner(cell, api),
            Species::Rocket => special::update_rocket(cell, api),
            Species::Snow => new::update_snow(cell, api),
            Species::Sponge => new::update_sponge(cell, api),
            Species::Slime => new::update_slime(cell, api),
            Species::Glass => new::update_glass(cell, api),
            Species::Coral => new::update_coral(cell, api),
            Species::Iron => metals::update_iron(cell, api),
            Species::Copper => metals::update_copper(cell, api),
            Species::Gold => metals::update_gold(cell, api),
            Species::Silver => metals::update_silver(cell, api),
            Species::Aluminum => metals::update_aluminum(cell, api),
            Species::Lead => metals::update_lead(cell, api),
            Species::Zinc => metals::update_zinc(cell, api),
            Species::Tin => metals::update_tin(cell, api),
            Species::Bronze => metals::update_bronze(cell, api),
            Species::Steel => metals::update_steel(cell, api),
            Species::Diamond => crystals::update_diamond(cell, api),
            Species::Ruby => crystals::update_ruby(cell, api),
            Species::Sapphire => crystals::update_sapphire(cell, api),
            Species::Emerald => crystals::update_emerald(cell, api),
            Species::Amethyst => crystals::update_amethyst(cell, api),
            Species::Quartz => crystals::update_quartz(cell, api),
            Species::Crystal => crystals::update_crystal(cell, api),
            Species::Obsidian => crystals::update_obsidian(cell, api),
            Species::Gunpowder => powders::update_gunpowder(cell, api),
            Species::Flour => powders::update_flour(cell, api),
            Species::Sugar => powders::update_sugar(cell, api),
            Species::Salt => powders::update_salt(cell, api),
            Species::Pepper => powders::update_pepper(cell, api),
            Species::Ash => powders::update_ash(cell, api),
            Species::Soot => powders::update_soot(cell, api),
            Species::Charcoal => powders::update_charcoal(cell, api),
            Species::Mud => liquids2::update_mud(cell, api),
            Species::Blood => liquids2::update_blood(cell, api),
            Species::Honey => liquids2::update_honey(cell, api),
            Species::Milk => liquids2::update_milk(cell, api),
            Species::Poison => liquids2::update_poison(cell, api),
            Species::Mercury => liquids2::update_mercury(cell, api),
            Species::Alcohol => liquids2::update_alcohol(cell, api),
            Species::Syrup => liquids2::update_syrup(cell, api),
            Species::Steam => gases2::update_steam(cell, api),
            Species::Smoke => gases2::update_smoke(cell, api),
            Species::Helium => gases2::update_helium(cell, api),
            Species::Chlorine => gases2::update_chlorine(cell, api),
            Species::Oxygen => gases2::update_oxygen(cell, api),
            Species::Hydrogen => gases2::update_hydrogen(cell, api),
            Species::PlasmaGas => gases2::update_plasma(cell, api),
            Species::Methane => gases2::update_methane(cell, api),
            Species::Leaf => organics2::update_leaf(cell, api),
            Species::Flower => organics2::update_flower(cell, api),
            Species::Grass => organics2::update_grass(cell, api),
            Species::Vine => organics2::update_vine(cell, api),
            Species::Moss => organics2::update_moss(cell, api),
            Species::Mushroom => organics2::update_mushroom(cell, api),
            Species::Bark => organics2::update_bark(cell, api),
            Species::Root => organics2::update_root(cell, api),
            Species::Fruit => organics2::update_fruit(cell, api),
            Species::Thorn => organics2::update_thorn(cell, api),
            Species::Ant => creatures::update_ant(cell, api),
            Species::Spider => creatures::update_spider(cell, api),
            Species::Bee => creatures::update_bee(cell, api),
            Species::Butterfly => creatures::update_butterfly(cell, api),
            Species::Fish => creatures::update_fish(cell, api),
            Species::Bird => creatures::update_bird(cell, api),
            Species::Snake => creatures::update_snake(cell, api),
            Species::Worm => creatures::update_worm(cell, api),
            Species::TNT => explosives::update_tnt(cell, api),
            Species::Bomb => explosives::update_bomb(cell, api),
            Species::Nitro => explosives::update_nitro(cell, api),
            Species::Plutonium => explosives::update_plutonium(cell, api),
            Species::Uranium => explosives::update_uranium(cell, api),
            Species::C4 => explosives::update_c4(cell, api),
            Species::Thermite => explosives::update_thermite(cell, api),
            Species::Napalm => explosives::update_napalm(cell, api),
            Species::Brick => construction::update_brick(cell, api),
            Species::Concrete => construction::update_concrete(cell, api),
            Species::Cement => construction::update_cement(cell, api),
            Species::Tile => construction::update_tile(cell, api),
            Species::Plaster => construction::update_plaster(cell, api),
            Species::Marble => construction::update_marble(cell, api),
            Species::Granite => construction::update_granite(cell, api),
            Species::Basalt => construction::update_basalt(cell, api),
            Species::Portal => magical::update_portal(cell, api),
            Species::Teleporter => magical::update_teleporter(cell, api),
            Species::Antigravity => magical::update_antigravity(cell, api),
            Species::Magnet => magical::update_magnet(cell, api),
            Species::Lightning => magical::update_lightning(cell, api),
            Species::Void => magical::update_void(cell, api),
            Species::Chaos => magical::update_chaos(cell, api),
            Species::Energy => magical::update_energy(cell, api),
            Species::Shield => magical::update_shield(cell, api),
            Species::Mirror => magical::update_mirror(cell, api),
            Species::Bread => food::update_bread(cell, api),
            Species::Cheese => food::update_cheese(cell, api),
            Species::Meat => food::update_meat(cell, api),
            Species::Egg => food::update_egg(cell, api),
            Species::Rice => food::update_rice(cell, api),
            Species::Wheat => food::update_wheat(cell, api),
            Species::Clay => nature::update_clay(cell, api),
            Species::Soil => nature::update_soil(cell, api),
            Species::Peat => nature::update_peat(cell, api),
            Species::Limestone => nature::update_limestone(cell, api),
            Species::Chalk => nature::update_chalk(cell, api),
            Species::Shale => nature::update_shale(cell, api),
            Species::Slate => nature::update_slate(cell, api),
            Species::Sandstone => nature::update_sandstone(cell, api),
            Species::Wire => tech::update_wire(cell, api),
            Species::Circuit => tech::update_circuit(cell, api),
            Species::Battery => tech::update_battery(cell, api),
            Species::SolarCell => tech::update_solar_cell(cell, api),
            Species::Laser => tech::update_laser(cell, api),
            Species::LED => tech::update_led(cell, api),
            Species::Bubble => misc::update_bubble(cell, api),
            Species::Balloon => misc::update_balloon(cell, api),
            Species::Confetti => misc::update_confetti(cell, api),
            Species::Glitter => misc::update_glitter(cell, api),
            Species::Spring => misc::update_spring(cell, api),
            Species::Domino => misc::update_domino(cell, api),
        }
    }
}

} // verus!
