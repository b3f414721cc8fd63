//! The [`Scopes`] type: a set of scope types, one bit per scope type.
//!
//! Scope types of different games share bits, so every operation that needs the
//! names or the full set of scope types takes the [`Game`].

use vstd::prelude::*;

use crate::game::Game;
use crate::item::Item;
use crate::report::errors::{spec_log, Errors, MacroMap};
use crate::report::{err, ptrs_view, ErrorKey, MetadataV, PointedMessageV, Severity, Confidence, LogReportStyle};
use crate::text::{
    ascii_lowercase, join_seq, push_joined, ascii_upper, chars_eq, first_index_of, from_chars, lemma_first_index_is, lower_seq,
    push_chars, push_str, split_chars, split_seq, to_ascii_upper, to_chars,
};
use crate::token::Token;
use crate::db::{find_entry, Db};
use crate::hoi4::tables::iterators::{iterator, iterator_removed, iterator_removed_table, removed_table_names, spec_iterator};
use crate::validator::owned;

verus! {

/// Bit indexes of the scope types (Vic3 names; bits 0 to 15 are shared).
pub const NONE: u32 = 0;
pub const VALUE: u32 = 1;
pub const BOOL: u32 = 2;
pub const FLAG: u32 = 3;
pub const COLOR: u32 = 4;
pub const COUNTRY: u32 = 5;
pub const CHARACTER: u32 = 6;
pub const CULTURE: u32 = 7;
pub const PROVINCE: u32 = 8;
pub const POP: u32 = 9;
pub const PARTY: u32 = 10;
pub const RELIGION: u32 = 11;
pub const STATE: u32 = 12;
pub const WAR: u32 = 13;
pub const STRATEGIC_REGION: u32 = 14;
pub const DECISION: u32 = 15;
pub const BATTLE: u32 = 16;
pub const BATTLE_SIDE: u32 = 17;
pub const BUILDING: u32 = 18;
pub const BUILDING_TYPE: u32 = 19;
pub const CHARACTER_ROLE: u32 = 20;
pub const CIVIL_WAR: u32 = 21;
pub const CULTURAL_COMMUNITY: u32 = 22;
pub const NEW_COMBAT_UNIT: u32 = 23;
pub const COMMANDER_ORDER_TYPE: u32 = 24;
pub const COUNTRY_CREATION: u32 = 25;
pub const COUNTRY_DEFINITION: u32 = 26;
pub const COUNTRY_FORMATION: u32 = 27;
pub const DECREE: u32 = 28;
pub const DIPLOMATIC_ACTION: u32 = 29;
pub const DIPLOMATIC_PACT: u32 = 30;
pub const DIPLOMATIC_PLAY: u32 = 31;
pub const DIPLOMATIC_RELATIONS: u32 = 32;
pub const FRONT: u32 = 33;
pub const GOODS: u32 = 34;
pub const HQ: u32 = 35;
pub const IDEOLOGY: u32 = 36;
pub const INSTITUTION: u32 = 37;
pub const INSTITUTION_TYPE: u32 = 38;
pub const INTEREST_MARKER: u32 = 39;
pub const INTEREST_GROUP: u32 = 40;
pub const INTEREST_GROUP_TRAIT: u32 = 41;
pub const INTEREST_GROUP_TYPE: u32 = 42;
pub const JOURNAL_ENTRY: u32 = 43;
pub const LAW: u32 = 44;
pub const LAW_TYPE: u32 = 45;
pub const MARKET: u32 = 46;
pub const MARKET_GOODS: u32 = 47;
pub const OBJECTIVE: u32 = 48;
pub const POLITICAL_MOVEMENT: u32 = 49;
pub const POP_TYPE: u32 = 50;
pub const SHIPPING_LANES: u32 = 51;
pub const STATE_REGION: u32 = 52;
pub const STATE_TRAIT: u32 = 53;
pub const TECHNOLOGY: u32 = 54;
pub const TECHNOLOGY_STATUS: u32 = 55;
pub const THEATER: u32 = 56;
pub const COMBAT_UNIT_TYPE: u32 = 57;
pub const MILITARY_FORMATION: u32 = 58;
pub const SWAY: u32 = 59;
pub const STATE_GOODS: u32 = 60;
pub const DIPLOMATIC_DEMAND: u32 = 61;
pub const COMPANY: u32 = 62;
pub const COMPANY_TYPE: u32 = 63;
pub const TRAVEL_NODE: u32 = 64;
pub const TRAVEL_NODE_DEFINITION: u32 = 65;
pub const TRAVEL_CONNECTION: u32 = 66;
pub const TRAVEL_CONNECTION_DEFINITION: u32 = 67;
pub const INVASION: u32 = 68;
pub const MOBILIZATION_OPTION: u32 = 69;
pub const POWER_BLOC_PRINCIPLE_GROUP: u32 = 70;
pub const DIPLOMATIC_PLAY_TYPE: u32 = 71;
pub const DIPLOMATIC_CATALYST: u32 = 72;
pub const DIPLOMATIC_CATALYST_TYPE: u32 = 73;
pub const DIPLOMATIC_CATALYST_CATEGORY: u32 = 74;
pub const POLITICAL_LOBBY: u32 = 75;
pub const POLITICAL_LOBBY_TYPE: u32 = 76;
pub const POLITICAL_LOBBY_APPEASEMENT: u32 = 77;
pub const POWER_BLOC: u32 = 78;
pub const POWER_BLOC_IDENTITY: u32 = 79;
pub const POWER_BLOC_PRINCIPLE: u32 = 80;
pub const HARVEST_CONDITION: u32 = 81;
pub const POLITICAL_MOVEMENT_TYPE: u32 = 82;
pub const HARVEST_CONDITION_TYPE: u32 = 83;
pub const TREATY_ARTICLE: u32 = 84;
pub const TREATY_OPTIONS: u32 = 85;
pub const TREATY_ARTICLE_OPTIONS: u32 = 86;
pub const TREATY: u32 = 87;
pub const BUILDING_GROUP: u32 = 88;
pub const AMENDMENT: u32 = 89;
pub const AMENDMENT_TYPE: u32 = 90;
pub const GEOGRAPHIC_REGION: u32 = 91;
pub const WAR_GOAL: u32 = 92;
pub const WAR_GOAL_TYPE: u32 = 93;
pub const INTEREST_TIER_TYPE: u32 = 94;
pub const NAVAL_BATTLE: u32 = 95;
pub const NAVAL_MISSION: u32 = 96;
pub const NAVAL_MISSION_TYPE: u32 = 97;
pub const SHIP: u32 = 98;
pub const SHIP_GROUP: u32 = 99;
pub const SHIP_MODIFICATION_TYPE: u32 = 100;
pub const SHIP_TYPE: u32 = 101;
pub const STRAIT: u32 = 102;
pub const STRAIT_TYPE: u32 = 103;
// Hoi4 scope types; their bits are shared with Vic3 scope types.
pub const ACE: u32 = 16;
pub const COMBATANT: u32 = 17;
pub const DIVISION: u32 = 18;
pub const INDUSTRIAL_ORG: u32 = 19;
pub const OPERATION: u32 = 20;
pub const PURCHASE_CONTRACT: u32 = 21;
pub const RAID_INSTANCE: u32 = 22;
pub const SPECIAL_PROJECT: u32 = 23;
pub const COMBINED_COUNTRY_AND_STATE: u32 = 24;
pub const COMBINED_COUNTRY_AND_CHARACTER: u32 = 25;

/// A set of scope types. Bit `i` stands for the scope type with index `i` in
/// the game's table (see [`scope_bit_name`]).
#[derive(Clone, Copy, Debug, PartialEq, Eq, Hash, Structural)]
pub struct Scopes {
    pub bits: u128,
}

/// The name of the scope type of bit `bit` in `game`, if the game has one.
pub open spec fn spec_scope_bit_name(game: Game, bit: u32) -> Option<Seq<char>> {
    match game {
        Game::Vic3 => match bit {
            0 => Some("None"@),
            1 => Some("Value"@),
            2 => Some("Bool"@),
            3 => Some("Flag"@),
            4 => Some("Color"@),
            5 => Some("Country"@),
            6 => Some("Character"@),
            7 => Some("Culture"@),
            8 => Some("Province"@),
            9 => Some("Pop"@),
            10 => Some("Party"@),
            11 => Some("Religion"@),
            12 => Some("State"@),
            13 => Some("War"@),
            14 => Some("StrategicRegion"@),
            15 => Some("Decision"@),
            16 => Some("Battle"@),
            17 => Some("BattleSide"@),
            18 => Some("Building"@),
            19 => Some("BuildingType"@),
            20 => Some("CharacterRole"@),
            21 => Some("CivilWar"@),
            22 => Some("CulturalCommunity"@),
            23 => Some("NewCombatUnit"@),
            24 => Some("CommanderOrderType"@),
            25 => Some("CountryCreation"@),
            26 => Some("CountryDefinition"@),
            27 => Some("CountryFormation"@),
            28 => Some("Decree"@),
            29 => Some("DiplomaticAction"@),
            30 => Some("DiplomaticPact"@),
            31 => Some("DiplomaticPlay"@),
            32 => Some("DiplomaticRelations"@),
            33 => Some("Front"@),
            34 => Some("Goods"@),
            35 => Some("Hq"@),
            36 => Some("Ideology"@),
            37 => Some("Institution"@),
            38 => Some("InstitutionType"@),
            39 => Some("InterestMarker"@),
            40 => Some("InterestGroup"@),
            41 => Some("InterestGroupTrait"@),
            42 => Some("InterestGroupType"@),
            43 => Some("JournalEntry"@),
            44 => Some("Law"@),
            45 => Some("LawType"@),
            46 => Some("Market"@),
            47 => Some("MarketGoods"@),
            48 => Some("Objective"@),
            49 => Some("PoliticalMovement"@),
            50 => Some("PopType"@),
            51 => Some("ShippingLanes"@),
            52 => Some("StateRegion"@),
            53 => Some("StateTrait"@),
            54 => Some("Technology"@),
            55 => Some("TechnologyStatus"@),
            56 => Some("Theater"@),
            57 => Some("CombatUnitType"@),
            58 => Some("MilitaryFormation"@),
            59 => Some("Sway"@),
            60 => Some("StateGoods"@),
            61 => Some("DiplomaticDemand"@),
            62 => Some("Company"@),
            63 => Some("CompanyType"@),
            64 => Some("TravelNode"@),
            65 => Some("TravelNodeDefinition"@),
            66 => Some("TravelConnection"@),
            67 => Some("TravelConnectionDefinition"@),
            68 => Some("Invasion"@),
            69 => Some("MobilizationOption"@),
            70 => Some("PowerBlocPrincipleGroup"@),
            71 => Some("DiplomaticPlayType"@),
            72 => Some("DiplomaticCatalyst"@),
            73 => Some("DiplomaticCatalystType"@),
            74 => Some("DiplomaticCatalystCategory"@),
            75 => Some("PoliticalLobby"@),
            76 => Some("PoliticalLobbyType"@),
            77 => Some("PoliticalLobbyAppeasement"@),
            78 => Some("PowerBloc"@),
            79 => Some("PowerBlocIdentity"@),
            80 => Some("PowerBlocPrinciple"@),
            81 => Some("HarvestCondition"@),
            82 => Some("PoliticalMovementType"@),
            83 => Some("HarvestConditionType"@),
            84 => Some("TreatyArticle"@),
            85 => Some("TreatyOptions"@),
            86 => Some("TreatyArticleOptions"@),
            87 => Some("Treaty"@),
            88 => Some("BuildingGroup"@),
            89 => Some("Amendment"@),
            90 => Some("AmendmentType"@),
            91 => Some("GeographicRegion"@),
            92 => Some("WarGoal"@),
            93 => Some("WarGoalType"@),
            94 => Some("InterestTierType"@),
            95 => Some("NavalBattle"@),
            96 => Some("NavalMission"@),
            97 => Some("NavalMissionType"@),
            98 => Some("Ship"@),
            99 => Some("ShipGroup"@),
            100 => Some("ShipModificationType"@),
            101 => Some("ShipType"@),
            102 => Some("Strait"@),
            103 => Some("StraitType"@),
            _ => None,
        },
        Game::Hoi4 => match bit {
            0 => Some("None"@),
            1 => Some("Value"@),
            2 => Some("Bool"@),
            3 => Some("Flag"@),
            5 => Some("Country"@),
            6 => Some("Character"@),
            12 => Some("State"@),
            14 => Some("StrategicRegion"@),
            16 => Some("Ace"@),
            17 => Some("Combatant"@),
            18 => Some("Division"@),
            19 => Some("IndustrialOrg"@),
            20 => Some("Operation"@),
            21 => Some("PurchaseContract"@),
            22 => Some("RaidInstance"@),
            23 => Some("SpecialProject"@),
            24 => Some("CombinedCountryAndState"@),
            25 => Some("CombinedCountryAndCharacter"@),
            _ => None,
        },
    }
}

/// The name of the scope type of bit `bit` in `game`, if the game has one.
pub fn scope_bit_name(game: Game, bit: u32) -> (res: Option<&'static str>)
    ensures
        match res {
            Some(s) => spec_scope_bit_name(game, bit) == Some(s@),
            None => spec_scope_bit_name(game, bit) is None,
        },
{
    match game {
        Game::Vic3 => match bit {
            0 => Some("None"),
            1 => Some("Value"),
            2 => Some("Bool"),
            3 => Some("Flag"),
            4 => Some("Color"),
            5 => Some("Country"),
            6 => Some("Character"),
            7 => Some("Culture"),
            8 => Some("Province"),
            9 => Some("Pop"),
            10 => Some("Party"),
            11 => Some("Religion"),
            12 => Some("State"),
            13 => Some("War"),
            14 => Some("StrategicRegion"),
            15 => Some("Decision"),
            16 => Some("Battle"),
            17 => Some("BattleSide"),
            18 => Some("Building"),
            19 => Some("BuildingType"),
            20 => Some("CharacterRole"),
            21 => Some("CivilWar"),
            22 => Some("CulturalCommunity"),
            23 => Some("NewCombatUnit"),
            24 => Some("CommanderOrderType"),
            25 => Some("CountryCreation"),
            26 => Some("CountryDefinition"),
            27 => Some("CountryFormation"),
            28 => Some("Decree"),
            29 => Some("DiplomaticAction"),
            30 => Some("DiplomaticPact"),
            31 => Some("DiplomaticPlay"),
            32 => Some("DiplomaticRelations"),
            33 => Some("Front"),
            34 => Some("Goods"),
            35 => Some("Hq"),
            36 => Some("Ideology"),
            37 => Some("Institution"),
            38 => Some("InstitutionType"),
            39 => Some("InterestMarker"),
            40 => Some("InterestGroup"),
            41 => Some("InterestGroupTrait"),
            42 => Some("InterestGroupType"),
            43 => Some("JournalEntry"),
            44 => Some("Law"),
            45 => Some("LawType"),
            46 => Some("Market"),
            47 => Some("MarketGoods"),
            48 => Some("Objective"),
            49 => Some("PoliticalMovement"),
            50 => Some("PopType"),
            51 => Some("ShippingLanes"),
            52 => Some("StateRegion"),
            53 => Some("StateTrait"),
            54 => Some("Technology"),
            55 => Some("TechnologyStatus"),
            56 => Some("Theater"),
            57 => Some("CombatUnitType"),
            58 => Some("MilitaryFormation"),
            59 => Some("Sway"),
            60 => Some("StateGoods"),
            61 => Some("DiplomaticDemand"),
            62 => Some("Company"),
            63 => Some("CompanyType"),
            64 => Some("TravelNode"),
            65 => Some("TravelNodeDefinition"),
            66 => Some("TravelConnection"),
            67 => Some("TravelConnectionDefinition"),
            68 => Some("Invasion"),
            69 => Some("MobilizationOption"),
            70 => Some("PowerBlocPrincipleGroup"),
            71 => Some("DiplomaticPlayType"),
            72 => Some("DiplomaticCatalyst"),
            73 => Some("DiplomaticCatalystType"),
            74 => Some("DiplomaticCatalystCategory"),
            75 => Some("PoliticalLobby"),
            76 => Some("PoliticalLobbyType"),
            77 => Some("PoliticalLobbyAppeasement"),
            78 => Some("PowerBloc"),
            79 => Some("PowerBlocIdentity"),
            80 => Some("PowerBlocPrinciple"),
            81 => Some("HarvestCondition"),
            82 => Some("PoliticalMovementType"),
            83 => Some("HarvestConditionType"),
            84 => Some("TreatyArticle"),
            85 => Some("TreatyOptions"),
            86 => Some("TreatyArticleOptions"),
            87 => Some("Treaty"),
            88 => Some("BuildingGroup"),
            89 => Some("Amendment"),
            90 => Some("AmendmentType"),
            91 => Some("GeographicRegion"),
            92 => Some("WarGoal"),
            93 => Some("WarGoalType"),
            94 => Some("InterestTierType"),
            95 => Some("NavalBattle"),
            96 => Some("NavalMission"),
            97 => Some("NavalMissionType"),
            98 => Some("Ship"),
            99 => Some("ShipGroup"),
            100 => Some("ShipModificationType"),
            101 => Some("ShipType"),
            102 => Some("Strait"),
            103 => Some("StraitType"),
            _ => None,
        },
        Game::Hoi4 => match bit {
            0 => Some("None"),
            1 => Some("Value"),
            2 => Some("Bool"),
            3 => Some("Flag"),
            5 => Some("Country"),
            6 => Some("Character"),
            12 => Some("State"),
            14 => Some("StrategicRegion"),
            16 => Some("Ace"),
            17 => Some("Combatant"),
            18 => Some("Division"),
            19 => Some("IndustrialOrg"),
            20 => Some("Operation"),
            21 => Some("PurchaseContract"),
            22 => Some("RaidInstance"),
            23 => Some("SpecialProject"),
            24 => Some("CombinedCountryAndState"),
            25 => Some("CombinedCountryAndCharacter"),
            _ => None,
        },
    }
}

/// All scope types of `game`: the bits that have a name.
pub open spec fn all_bits(game: Game) -> u128 {
    match game {
        Game::Vic3 => 0xffffffffffffffffffffffffffu128,
        Game::Hoi4 => 0x3ff506fu128,
    }
}

/// The first bit at or after `from` whose scope name is `name`.
pub open spec fn first_named(game: Game, name: Seq<char>, from: u32) -> Option<u32>
    decreases 128 - from,
{
    if from >= 128 {
        None
    } else if spec_scope_bit_name(game, from) == Some(name) {
        Some(from)
    } else {
        first_named(game, name, (from + 1) as u32)
    }
}

/// The scope set named `name` in `game`: the single bit of that name.
pub open spec fn spec_from_name(game: Game, name: Seq<char>) -> Option<Scopes> {
    match first_named(game, name, 0) {
        Some(b) => Some(Scopes { bits: 1u128 << b }),
        None => None,
    }
}

proof fn lemma_union_of_named_none(game: Game, parts: Seq<Seq<char>>, n: int)
    requires
        0 <= n <= parts.len(),
        union_of_named(game, parts.take(n)) is None,
    ensures
        union_of_named(game, parts) is None,
    decreases parts.len() - n,
{
    if n < parts.len() {
        assert(parts.take(n + 1).drop_last() == parts.take(n));
        lemma_union_of_named_none(game, parts, n + 1);
    } else {
        assert(parts.take(n) == parts);
    }
}

proof fn lemma_first_named_found(game: Game, name: Seq<char>, from: u32, b: u32)
    requires
        0 <= from <= b < 128,
        forall|k: u32| from <= k < b ==> spec_scope_bit_name(game, k) != Some(name),
        spec_scope_bit_name(game, b) == Some(name),
    ensures
        first_named(game, name, from) == Some(b),
    decreases b - from,
{
    if from < b {
        lemma_first_named_found(game, name, (from + 1) as u32, b);
    }
}

proof fn lemma_first_named_none(game: Game, name: Seq<char>, from: u32)
    requires
        0 <= from <= 128,
        forall|k: u32| from <= k < 128 ==> spec_scope_bit_name(game, k) != Some(name),
    ensures
        first_named(game, name, from) is None,
    decreases 128 - from,
{
    if from < 128 {
        lemma_first_named_none(game, name, (from + 1) as u32);
    }
}

/// The union of the scope types named by `parts` in `snake_case`, or `None`
/// if some part names no scope type.
pub open spec fn union_of_named(game: Game, parts: Seq<Seq<char>>) -> Option<u128>
    decreases parts.len(),
{
    if parts.len() == 0 {
        Some(0u128)
    } else {
        match (union_of_named(game, parts.drop_last()), spec_from_name(game, snake_to_camel(parts.last()))) {
            (Some(a), Some(b)) => Some(a | b.bits),
            _ => None,
        }
    }
}

/// Several scope types in `snake_case` separated by `|`; `None` if any part
/// names no scope type, or if the union is empty.
pub open spec fn spec_from_snake_case_multi(game: Game, s: Seq<char>) -> Option<Scopes> {
    match union_of_named(game, split_seq(s, '|')) {
        Some(b) => if b == 0 { None } else { Some(Scopes { bits: b }) },
        None => None,
    }
}

/// Rust's `snake_case` to `CamelCase`: underscores are dropped and the letter
/// after an underscore, or at the start, is upper-cased.
pub open spec fn snake_to_camel(s: Seq<char>) -> Seq<char>
    decreases s.len(),
{
    if s.len() == 0 {
        Seq::empty()
    } else {
        let p = s.drop_last();
        let c = s.last();
        if c == '_' {
            snake_to_camel(p)
        } else if p.len() == 0 || p.last() == '_' {
            snake_to_camel(p).push(ascii_upper(c))
        } else {
            snake_to_camel(p).push(c)
        }
    }
}

/// Converts `snake_case` to `CamelCase` (see [`snake_to_camel`]).
pub fn snake_case_to_camel_case(s: &str) -> (res: Vec<char>)
    ensures
        res@ == snake_to_camel(s@),
{
    snake_chars_to_camel(&to_chars(s))
}

/// Converts `snake_case` to `CamelCase` (see [`snake_to_camel`]).
pub fn snake_chars_to_camel(v: &Vec<char>) -> (res: Vec<char>)
    ensures
        res@ == snake_to_camel(v@),
{
    let mut res: Vec<char> = Vec::new();
    let mut hump = true;
    let mut i: usize = 0;
    while i < v.len()
        invariant
            i <= v.len(),
            res@ == snake_to_camel(v@.take(i as int)),
            hump == (i == 0 || v@[i - 1] == '_'),
        decreases v.len() - i,
    {
        let c = v[i];
        assert(v@.take(i + 1).drop_last() == v@.take(i as int));
        if c == '_' {
            hump = true;
        } else if hump {
            res.push(to_ascii_upper(c));
            hump = false;
        } else {
            res.push(c);
        }
        i += 1;
    }
    assert(v@.take(v.len() as int) == v@);
    res
}

impl Scopes {
    /// The empty set.
    pub fn empty() -> (res: Scopes)
        ensures
            res.bits == 0,
    {
        Scopes { bits: 0 }
    }

    /// The set with exactly the scope type of bit `bit`.
    pub fn single(bit: u32) -> (res: Scopes)
        requires
            bit < 128,
        ensures
            res.bits == 1u128 << bit,
    {
        Scopes { bits: 1u128 << bit }
    }

    pub fn union(self, other: Scopes) -> (res: Scopes)
        ensures
            res.bits == self.bits | other.bits,
    {
        Scopes { bits: self.bits | other.bits }
    }

    pub fn intersection(self, other: Scopes) -> (res: Scopes)
        ensures
            res.bits == self.bits & other.bits,
    {
        Scopes { bits: self.bits & other.bits }
    }

    /// The scope types of `self` that are not in `other`.
    pub fn difference(self, other: Scopes) -> (res: Scopes)
        ensures
            res.bits == self.bits & !other.bits,
    {
        Scopes { bits: self.bits & !other.bits }
    }

    /// Adds the scope types of `other` (the `|=` operator).
    pub fn insert(&mut self, other: Scopes)
        ensures
            final(self).bits == old(self).bits | other.bits,
    {
        self.bits = self.bits | other.bits;
    }

    /// Whether every scope type of `other` is in `self`.
    pub fn contains(self, other: Scopes) -> (res: bool)
        ensures
            res == (self.bits & other.bits == other.bits),
    {
        self.bits & other.bits == other.bits
    }

    /// Whether `self` and `other` share a scope type.
    pub fn intersects(self, other: Scopes) -> (res: bool)
        ensures
            res == (self.bits & other.bits != 0),
    {
        self.bits & other.bits != 0
    }

    pub fn is_empty(self) -> (res: bool)
        ensures
            res == (self.bits == 0),
    {
        self.bits == 0
    }

    /// Every scope type of `game`.
    pub fn all(game: Game) -> (res: Scopes)
        ensures
            res.bits == all_bits(game),
    {
        match game {
            Game::Vic3 => Scopes { bits: 0xffffffffffffffffffffffffffu128 },
            Game::Hoi4 => Scopes { bits: 0x3ff506fu128 },
        }
    }

    /// Every scope type of `game` except `None`, `Value`, `Bool` and `Flag`.
    pub fn non_primitive(game: Game) -> (res: Scopes)
        ensures
            res.bits == all_bits(game) & !0xfu128,
    {
        let res = Scopes::all(game).difference(Scopes::single(NONE).union(Scopes::single(VALUE)).union(Scopes::single(BOOL)).union(Scopes::single(FLAG)));
        assert(1u128 << 0u32 | 1u128 << 1u32 | 1u128 << 2u32 | 1u128 << 3u32 == 0xfu128) by (bit_vector);
        res
    }

    /// `Value`, `Bool` and `Flag`.
    pub fn primitive() -> (res: Scopes)
        ensures
            res.bits == 0xeu128,
    {
        let res = Scopes::single(VALUE).union(Scopes::single(BOOL)).union(Scopes::single(FLAG));
        assert(1u128 << 1u32 | 1u128 << 2u32 | 1u128 << 3u32 == 0xeu128) by (bit_vector);
        res
    }

    /// Every scope type of `game` except `None`.
    pub fn all_but_none(game: Game) -> (res: Scopes)
        ensures
            res.bits == all_bits(game) & !0x1u128,
    {
        let res = Scopes::all(game).difference(Scopes::single(NONE));
        assert(1u128 << 0u32 == 0x1u128) by (bit_vector);
        res
    }

    /// The scope type whose name is exactly `name`.
    pub fn from_name_chars(game: Game, name: &Vec<char>) -> (res: Option<Scopes>)
        ensures
            res == spec_from_name(game, name@),
    {
        let mut b: u32 = 0;
        while b < 128
            invariant
                b <= 128,
                forall|k: u32| k < b ==> spec_scope_bit_name(game, k) != Some(name@),
            decreases 128 - b,
        {
            if let Some(n) = scope_bit_name(game, b) {
                if chars_eq(&to_chars(n), name) {
                    proof {
                        lemma_first_named_found(game, name@, 0, b);
                    }
                    return Some(Scopes::single(b));
                }
            }
            b += 1;
        }
        proof {
            lemma_first_named_none(game, name@, 0);
        }
        None
    }

    /// The scope type whose name is exactly `name`.
    pub fn from_name(game: Game, name: &str) -> (res: Option<Scopes>)
        ensures
            res == spec_from_name(game, name@),
    {
        Scopes::from_name_chars(game, &to_chars(name))
    }

    /// Reads a scope type written in `snake_case`.
    pub fn from_snake_case(game: Game, s: &str) -> (res: Option<Scopes>)
        ensures
            res == spec_from_name(game, snake_to_camel(s@)),
    {
        Scopes::from_name_chars(game, &snake_case_to_camel_case(s))
    }

    /// Like [`Scopes::from_snake_case`], but allows several scope types
    /// separated by `|`. Returns `None` if any of them is unknown.
    pub fn from_snake_case_multi(game: Game, s: &str) -> (res: Option<Scopes>)
        ensures
            res == spec_from_snake_case_multi(game, s@),
    {
        let v = to_chars(s);
        let parts = split_chars(&v, '|');
        let ghost sp = split_seq(v@, '|');
        let mut scopes = Scopes::empty();
        let mut i: usize = 0;
        while i < parts.len()
            invariant
                i <= parts@.len(),
                v@ == s@,
                sp == split_seq(v@, '|'),
                parts@.len() == sp.len(),
                forall|k: int| 0 <= k < parts@.len() ==> #[trigger] parts@[k]@ == sp[k],
                union_of_named(game, sp.take(i as int)) == Some(scopes.bits),
            decreases parts.len() - i,
        {
            assert(sp.take(i + 1).drop_last() == sp.take(i as int));
            assert(sp.take(i + 1).last() == parts@[i as int]@);
            match Scopes::from_name_chars(game, &snake_chars_to_camel(&parts[i])) {
                Some(scope) => {
                    scopes.insert(scope);
                }
                None => {
                    assert(union_of_named(game, sp.take(i + 1)) is None);
                    proof {
                        lemma_union_of_named_none(game, sp, (i + 1) as int);
                    }
                    return None;
                }
            }
            i += 1;
        }
        assert(sp.take(parts@.len() as int) == sp);
        if scopes.is_empty() {
            return None;
        }
        Some(scopes)
    }
}

/// A description of the constraints on a value with a prefix such as `var:`
/// or `list_size:`.
#[derive(Clone, Copy, Debug, PartialEq, Eq)]
pub enum ArgumentValue {
    /// An expression that resolves to a scope object of the given type.
    Scope(Scopes),
    /// The name of an item of the given item type.
    Item(Item),
    /// Either a scope or an item.
    ScopeOrItem(Scopes, Item),
    /// The name of a modifier.
    Modif,
    /// A single word.
    Identifier(&'static str),
    /// Anything.
    UncheckedValue,
}

/// A named link from input scope types to output scope types: an event link,
/// a prefix or an iterator.
#[derive(Debug)]
pub struct ScopeLink {
    pub name: String,
    pub from: Scopes,
    pub to: Scopes,
}

/// A name that no longer exists, with the version that removed it and an
/// explanation.
#[derive(Debug)]
pub struct RemovedEntry {
    pub name: String,
    pub version: String,
    pub explanation: String,
}

/// A prefix such as `character:`, its scopes and the argument it takes.
#[derive(Debug)]
pub struct PrefixEntry {
    pub name: String,
    pub from: Scopes,
    pub to: Scopes,
    pub arg: ArgumentValue,
}

/// A prefix to suggest for a word that names an item of the given type where
/// a scope of the given type is expected.
#[derive(Debug)]
pub struct PrefixHint {
    pub scope: Scopes,
    pub item: Item,
    pub prefix: String,
}

/// A scripted list of a mod: an iterator defined in terms of a base iterator.
#[derive(Debug)]
pub struct ScriptedList {
    pub name: String,
    pub base: String,
}

/// A game's tables of event links, prefixes and iterators.
#[derive(Debug)]
pub struct ScopeTables {
    pub game: Game,
    pub links: Vec<ScopeLink>,
    pub links_removed: Vec<RemovedEntry>,
    pub prefixes: Vec<PrefixEntry>,
    pub iterators: Vec<ScopeLink>,
    pub iterators_removed: Vec<RemovedEntry>,
    pub prefix_hints: Vec<PrefixHint>,
}

pub open spec fn link_names(s: Seq<ScopeLink>) -> Seq<Seq<char>> {
    s.map_values(|e: ScopeLink| e.name@)
}

pub open spec fn removed_names(s: Seq<RemovedEntry>) -> Seq<Seq<char>> {
    s.map_values(|e: RemovedEntry| e.name@)
}

pub open spec fn prefix_names(s: Seq<PrefixEntry>) -> Seq<Seq<char>> {
    s.map_values(|e: PrefixEntry| e.name@)
}

fn find_link(v: &Vec<ScopeLink>, name: &Vec<char>) -> (res: Option<usize>)
    ensures
        match res {
            Some(i) => first_index_of(link_names(v@), name@) == i as int && (i as int) < v@.len(),
            None => first_index_of(link_names(v@), name@) == -1,
        },
{
    let ghost ns = link_names(v@);
    let mut i: usize = 0;
    while i < v.len()
        invariant
            i <= v@.len(),
            ns == link_names(v@),
            forall|k: int| 0 <= k < i ==> ns[k] != name@,
        decreases v.len() - i,
    {
        if chars_eq(&to_chars(v[i].name.as_str()), name) {
            proof {
                lemma_first_index_is(ns, name@, i as int);
            }
            return Some(i);
        }
        i += 1;
    }
    proof {
        lemma_first_index_is(ns, name@, -1);
    }
    None
}

fn find_removed(v: &Vec<RemovedEntry>, name: &Vec<char>) -> (res: Option<usize>)
    ensures
        match res {
            Some(i) => first_index_of(removed_names(v@), name@) == i as int && (i as int) < v@.len(),
            None => first_index_of(removed_names(v@), name@) == -1,
        },
{
    let ghost ns = removed_names(v@);
    let mut i: usize = 0;
    while i < v.len()
        invariant
            i <= v@.len(),
            ns == removed_names(v@),
            forall|k: int| 0 <= k < i ==> ns[k] != name@,
        decreases v.len() - i,
    {
        if chars_eq(&to_chars(v[i].name.as_str()), name) {
            proof {
                lemma_first_index_is(ns, name@, i as int);
            }
            return Some(i);
        }
        i += 1;
    }
    proof {
        lemma_first_index_is(ns, name@, -1);
    }
    None
}

/// The output scope type `to` if the input scope types include `from`.
pub open spec fn type_pair(inscopes: u128, from: u32, to: u32) -> u128 {
    if inscopes & (1u128 << from) == (1u128 << from) { 1u128 << to } else { 0u128 }
}

fn type_pair_exec(inscopes: Scopes, from: u32, to: u32) -> (res: u128)
    requires
        from < 128,
        to < 128,
    ensures
        res == type_pair(inscopes.bits, from, to),
{
    if inscopes.contains(Scopes::single(from)) { 1u128 << to } else { 0u128 }
}

/// For the Vic3 link `type`: the type scope of each object scope among the
/// input scope types.
pub open spec fn type_outscopes(inscopes: u128) -> u128 {
    type_pair(inscopes, BUILDING, BUILDING_TYPE) | type_pair(inscopes, COMPANY, COMPANY_TYPE) | type_pair(
        inscopes,
        DIPLOMATIC_PLAY,
        DIPLOMATIC_PLAY_TYPE,
    ) | type_pair(inscopes, DIPLOMATIC_CATALYST, DIPLOMATIC_CATALYST_TYPE) | type_pair(
        inscopes,
        POLITICAL_LOBBY,
        POLITICAL_LOBBY_TYPE,
    ) | type_pair(inscopes, INSTITUTION, INSTITUTION_TYPE) | type_pair(inscopes, INTEREST_GROUP, INTEREST_GROUP_TYPE)
        | type_pair(inscopes, LAW, LAW_TYPE) | type_pair(inscopes, POLITICAL_MOVEMENT, POLITICAL_MOVEMENT_TYPE)
        | type_pair(inscopes, HARVEST_CONDITION, HARVEST_CONDITION_TYPE)
}

fn type_outscopes_exec(inscopes: Scopes) -> (res: u128)
    ensures
        res == type_outscopes(inscopes.bits),
{
    type_pair_exec(inscopes, BUILDING, BUILDING_TYPE) | type_pair_exec(inscopes, COMPANY, COMPANY_TYPE)
        | type_pair_exec(inscopes, DIPLOMATIC_PLAY, DIPLOMATIC_PLAY_TYPE) | type_pair_exec(
        inscopes,
        DIPLOMATIC_CATALYST,
        DIPLOMATIC_CATALYST_TYPE,
    ) | type_pair_exec(inscopes, POLITICAL_LOBBY, POLITICAL_LOBBY_TYPE) | type_pair_exec(
        inscopes,
        INSTITUTION,
        INSTITUTION_TYPE,
    ) | type_pair_exec(inscopes, INTEREST_GROUP, INTEREST_GROUP_TYPE) | type_pair_exec(inscopes, LAW, LAW_TYPE)
        | type_pair_exec(inscopes, POLITICAL_MOVEMENT, POLITICAL_MOVEMENT_TYPE) | type_pair_exec(
        inscopes,
        HARVEST_CONDITION,
        HARVEST_CONDITION_TYPE,
    )
}

/// The message of a report about a removed event link.
pub open spec fn removed_link_msg(name: Seq<char>, version: Seq<char>) -> Seq<char> {
    "`"@ + name + "` was removed in "@ + version
}

/// The message of a report about a removed iterator.
pub open spec fn removed_iterator_msg(name: Seq<char>, version: Seq<char>) -> Seq<char> {
    "`"@ + name + "` iterators were removed in "@ + version
}

/// The strong error report that a name was removed.
pub open spec fn removed_report(msg: Seq<char>, explanation: Seq<char>) -> MetadataV {
    MetadataV {
        key: ErrorKey::Removed,
        severity: Severity::Error,
        confidence: Confidence::Strong,
        msg,
        info: Some(explanation),
        wiki: None,
        style: LogReportStyle::Full,
    }
}

pub open spec fn at(loc: crate::token::Loc) -> Seq<PointedMessageV> {
    seq![PointedMessageV { loc, length: 1, msg: None }]
}

/// What an event link does: `Some((from, to))` for a known link, with the
/// Vic3 `type` link resolved by the input scopes; all scopes for a removed
/// link; `None` for an unknown one.
pub open spec fn spec_scope_to_scope(
    game: Game,
    links: Seq<ScopeLink>,
    removed: Seq<RemovedEntry>,
    name: Seq<char>,
    inscopes: u128,
) -> Option<(Scopes, Scopes)> {
    let n = lower_seq(name);
    let i = first_index_of(link_names(links), n);
    if i >= 0 {
        if game is Vic3 && n == "type"@ && type_outscopes(inscopes) != 0 {
            Some((links[i].from, Scopes { bits: type_outscopes(inscopes) }))
        } else {
            Some((links[i].from, links[i].to))
        }
    } else if first_index_of(removed_names(removed), n) >= 0 {
        Some((Scopes { bits: all_bits(game) }, Scopes { bits: all_bits(game) & !1u128 }))
    } else {
        None
    }
}

/// Looks up an event link, a script word that goes from a scope value to a
/// related scope value. Returns the scope types it accepts and the scope
/// types it gives. A removed link is reported and accepts and gives anything.
pub fn scope_to_scope(
    tables: &ScopeTables,
    name: &Token,
    inscopes: Scopes,
    errors: &mut Errors,
    map: &MacroMap,
) -> (res: Option<(Scopes, Scopes)>)
    requires
        old(errors).wf(),
        map.wf(),
    ensures
        final(errors).wf(),
        res == spec_scope_to_scope(tables.game, tables.links@, tables.links_removed@, name.s@, inscopes.bits),
        ({
            let n = lower_seq(name.s@);
            let j = first_index_of(removed_names(tables.links_removed@), n);
            final(errors).store() == (if first_index_of(link_names(tables.links@), n) == -1 && j >= 0 {
                spec_log(
                    *old(errors),
                    map.locs@,
                    removed_report(removed_link_msg(name.s@, tables.links_removed@[j].version@), tables.links_removed@[j].explanation@),
                    at(name.loc),
                )
            } else {
                old(errors).store()
            })
        }),
{
    let name_lc = ascii_lowercase(name.as_str());
    if let Some(i) = find_link(&tables.links, &name_lc) {
        let e = &tables.links[i];
        if tables.game == Game::Vic3 && chars_eq(&name_lc, &to_chars("type")) {
            let out = type_outscopes_exec(inscopes);
            if out != 0 {
                return Some((e.from, Scopes { bits: out }));
            }
        }
        return Some((e.from, e.to));
    }
    if let Some(j) = find_removed(&tables.links_removed, &name_lc) {
        let rm = &tables.links_removed[j];
        let mut msg: Vec<char> = Vec::new();
        push_str(&mut msg, "`");
        push_str(&mut msg, name.as_str());
        push_str(&mut msg, "` was removed in ");
        push_str(&mut msg, rm.version.as_str());
        let b = err(ErrorKey::Removed).strong().msg(from_chars(&msg)).info(rm.explanation.clone()).loc(name.loc);
        assert(b.pointers@.len() == ptrs_view(b.pointers@).len());
        assert(ptrs_view(b.pointers@) =~= at(name.loc));
        assert(msg@ =~= removed_link_msg(name.s@, rm.version@));
        assert(b.metadata@ == removed_report(removed_link_msg(name.s@, rm.version@), rm.explanation@));
        b.push(errors, map);
        return Some((Scopes::all(tables.game), Scopes::all_but_none(tables.game)));
    }
    None
}

/// What a prefix does: its input scope types, output scope types and
/// argument, looked up by its lower-case name.
pub open spec fn spec_scope_prefix(prefixes: Seq<PrefixEntry>, name: Seq<char>) -> Option<(Scopes, Scopes, ArgumentValue)> {
    let i = first_index_of(prefix_names(prefixes), lower_seq(name));
    if i >= 0 {
        Some((prefixes[i].from, prefixes[i].to, prefixes[i].arg))
    } else {
        None
    }
}

/// Looks up a prefix such as `character:` that fetches items of the game
/// database as scope values. The first scope set is the input it needs
/// (`None` if it needs none), the second what it gives.
pub fn scope_prefix(tables: &ScopeTables, prefix: &Token) -> (res: Option<(Scopes, Scopes, ArgumentValue)>)
    ensures
        res == spec_scope_prefix(tables.prefixes@, prefix.s@),
{
    let name_lc = ascii_lowercase(prefix.as_str());
    let ghost ns = prefix_names(tables.prefixes@);
    let mut i: usize = 0;
    while i < tables.prefixes.len()
        invariant
            i <= tables.prefixes@.len(),
            ns == prefix_names(tables.prefixes@),
            name_lc@ == lower_seq(prefix.s@),
            forall|k: int| 0 <= k < i ==> ns[k] != name_lc@,
        decreases tables.prefixes.len() - i,
    {
        let e = &tables.prefixes[i];
        if chars_eq(&to_chars(e.name.as_str()), &name_lc) {
            proof {
                lemma_first_index_is(ns, name_lc@, i as int);
            }
            assert(ns[i as int] == e.name@);
            assert(first_index_of(ns, lower_seq(prefix.s@)) == i);
            return Some((e.from, e.to, e.arg));
        }
        i += 1;
    }
    proof {
        lemma_first_index_is(ns, name_lc@, -1);
    }
    None
}

/// The built-in iterator with lower-case base name `n`.
pub open spec fn spec_builtin_iterator(game: Game, iterators: Seq<ScopeLink>, n: Seq<char>) -> Option<(Scopes, Scopes)> {
    match game {
        Game::Hoi4 => spec_iterator(n),
        Game::Vic3 => {
            let i = first_index_of(link_names(iterators), n);
            if i >= 0 {
                Some((iterators[i].from, iterators[i].to))
            } else {
                None
            }
        },
    }
}

/// The version that removed the iterator with lower-case name `n`, and an
/// explanation, if it was removed: from the Hoi4 table of removed iterators,
/// or from the Vic3 scope tables.
pub open spec fn spec_removed_iterator(game: Game, removed: Seq<RemovedEntry>, n: Seq<char>) -> Option<(Seq<char>, Seq<char>)> {
    match game {
        Game::Hoi4 => {
            let t = iterator_removed_table();
            let j = first_index_of(removed_table_names(t), n);
            if j >= 0 { Some((t[j].1, t[j].2)) } else { None }
        },
        Game::Vic3 => {
            let j = first_index_of(removed_names(removed), n);
            if j >= 0 { Some((removed[j].version@, removed[j].explanation@)) } else { None }
        },
    }
}

pub open spec fn list_names(s: Seq<ScriptedList>) -> Seq<Seq<char>> {
    s.map_values(|l: ScriptedList| l.name@)
}

/// What an iterator does: a built-in iterator by its lower-case name; all
/// scopes for a removed one; in Vic3, a scripted list of the mod does what
/// its base iterator does.
pub open spec fn spec_scope_iterator(
    game: Game,
    iterators: Seq<ScopeLink>,
    removed: Seq<RemovedEntry>,
    lists: Seq<ScriptedList>,
    name: Seq<char>,
) -> Option<(Scopes, Scopes)> {
    let n = lower_seq(name);
    if spec_builtin_iterator(game, iterators, n) is Some {
        spec_builtin_iterator(game, iterators, n)
    } else if spec_removed_iterator(game, removed, n) is Some {
        Some((Scopes { bits: all_bits(game) }, Scopes { bits: all_bits(game) }))
    } else if game is Vic3 && first_index_of(list_names(lists), name) >= 0 {
        spec_builtin_iterator(game, iterators, lower_seq(lists[first_index_of(list_names(lists), name)].base@))
    } else {
        None
    }
}

fn builtin_iterator(tables: &ScopeTables, n: &Vec<char>) -> (res: Option<(Scopes, Scopes)>)
    ensures
        res == spec_builtin_iterator(tables.game, tables.iterators@, n@),
{
    match tables.game {
        Game::Hoi4 => iterator(from_chars(n).as_str()),
        Game::Vic3 => match find_link(&tables.iterators, n) {
            Some(i) => Some((tables.iterators[i].from, tables.iterators[i].to)),
            None => None,
        },
    }
}

/// Looks up an iterator by its base name (without `any_`, `every_`,
/// `random_` or `ordered_`): built-in iterators first, then, in Vic3, the
/// mod's scripted lists. Returns the scope types it accepts and gives. A
/// removed iterator is reported and accepts and gives anything.
pub fn scope_iterator(
    tables: &ScopeTables,
    name: &Token,
    lists: &Vec<ScriptedList>,
    errors: &mut Errors,
    map: &MacroMap,
) -> (res: Option<(Scopes, Scopes)>)
    requires
        old(errors).wf(),
        map.wf(),
    ensures
        final(errors).wf(),
        res == spec_scope_iterator(tables.game, tables.iterators@, tables.iterators_removed@, lists@, name.s@),
        ({
            let n = lower_seq(name.s@);
            let r = spec_removed_iterator(tables.game, tables.iterators_removed@, n);
            final(errors).store() == (if spec_builtin_iterator(tables.game, tables.iterators@, n) is None && r is Some {
                spec_log(
                    *old(errors),
                    map.locs@,
                    removed_report(removed_iterator_msg(name.s@, r.unwrap().0), r.unwrap().1),
                    at(name.loc),
                )
            } else {
                old(errors).store()
            })
        }),
{
    let name_lc = ascii_lowercase(name.as_str());
    let found = builtin_iterator(tables, &name_lc);
    if found.is_some() {
        return found;
    }
    let removed: Option<(String, String)> = match tables.game {
        Game::Hoi4 => match iterator_removed(from_chars(&name_lc).as_str()) {
            Some((version, explanation)) => Some((owned(version), owned(explanation))),
            None => None,
        },
        Game::Vic3 => match find_removed(&tables.iterators_removed, &name_lc) {
            Some(j) => Some((tables.iterators_removed[j].version.clone(), tables.iterators_removed[j].explanation.clone())),
            None => None,
        },
    };
    if let Some((version, explanation)) = removed {
        let mut msg: Vec<char> = Vec::new();
        push_str(&mut msg, "`");
        push_str(&mut msg, name.as_str());
        push_str(&mut msg, "` iterators were removed in ");
        push_str(&mut msg, version.as_str());
        let b = err(ErrorKey::Removed).strong().msg(from_chars(&msg)).info(explanation).loc(name.loc);
        assert(b.pointers@.len() == ptrs_view(b.pointers@).len());
        assert(ptrs_view(b.pointers@) =~= at(name.loc));
        assert(msg@ =~= removed_iterator_msg(name.s@, version@));
        b.push(errors, map);
        return Some((Scopes::all(tables.game), Scopes::all(tables.game)));
    }
    if tables.game == Game::Vic3 {
        let n = to_chars(name.as_str());
        let ghost ns = list_names(lists@);
        let mut i: usize = 0;
        #[verifier::loop_isolation(false)]
        while i < lists.len()
            invariant
                i <= lists@.len(),
                ns == list_names(lists@),
                n@ == name.s@,
                forall|k: int| 0 <= k < i ==> ns[k] != n@,
            decreases lists.len() - i,
        {
            if chars_eq(&to_chars(lists[i].name.as_str()), &n) {
                proof {
                    lemma_first_index_is(ns, n@, i as int);
                }
                let base_lc = ascii_lowercase(lists[i].base.as_str());
                return builtin_iterator(tables, &base_lc);
            }
            i += 1;
        }
        proof {
            lemma_first_index_is(ns, n@, -1);
        }
    }
    None
}

pub open spec fn hint_matches(h: PrefixHint, items: Seq<crate::db::DbEntryV>, arg: Seq<char>, scopes: Scopes) -> bool {
    h.scope == scopes && find_entry(items, h.item, arg) >= 0
}

/// The first hint for `scopes` whose item type has an item named `arg`.
pub open spec fn first_hint(hints: Seq<PrefixHint>, items: Seq<crate::db::DbEntryV>, arg: Seq<char>, scopes: Scopes) -> int
    decreases hints.len(),
{
    if hints.len() == 0 {
        -1
    } else if hint_matches(hints[0], items, arg, scopes) {
        0
    } else {
        let r = first_hint(hints.drop_first(), items, arg, scopes);
        if r == -1 { -1 } else { r + 1 }
    }
}

proof fn lemma_first_hint_is(hints: Seq<PrefixHint>, items: Seq<crate::db::DbEntryV>, arg: Seq<char>, scopes: Scopes, j: int)
    requires
        -1 <= j < hints.len(),
        j >= 0 ==> hint_matches(hints[j], items, arg, scopes),
        forall|k: int| 0 <= k < hints.len() && (j == -1 || k < j) ==> !hint_matches(#[trigger] hints[k], items, arg, scopes),
    ensures
        first_hint(hints, items, arg, scopes) == j,
    decreases hints.len(),
{
    if hints.len() > 0 {
        if j != 0 {
            assert(!hint_matches(hints[0], items, arg, scopes));
            assert forall|k: int| 0 <= k < hints.drop_first().len() && (j == -1 || k < j - 1) implies !hint_matches(#[trigger] hints.drop_first()[k], items, arg, scopes) by {
                assert(hints.drop_first()[k] == hints[k + 1]);
            }
            lemma_first_hint_is(hints.drop_first(), items, arg, scopes, if j == -1 { -1 } else { j - 1 });
        }
    }
}

/// For a word that is not a valid target where a scope of type `scopes` is
/// expected: the prefix it probably lacks, if it names an item that such a
/// prefix looks up. For example `culture` for `irish` where a culture is
/// expected, because `culture:irish` was meant.
pub fn needs_prefix(tables: &ScopeTables, arg: &str, data: &Db, scopes: Scopes) -> (res: Option<String>)
    ensures
        ({
            let i = first_hint(tables.prefix_hints@, data.view_entries(), arg@, scopes);
            match res {
                Some(p) => i >= 0 && p@ == tables.prefix_hints@[i].prefix@,
                None => i == -1,
            }
        }),
{
    let mut i: usize = 0;
    while i < tables.prefix_hints.len()
        invariant
            i <= tables.prefix_hints@.len(),
            forall|k: int| 0 <= k < i ==> !hint_matches(#[trigger] tables.prefix_hints@[k], data.view_entries(), arg@, scopes),
        decreases tables.prefix_hints.len() - i,
    {
        let h = &tables.prefix_hints[i];
        if h.scope == scopes && data.item_exists(h.item, arg) {
            proof {
                lemma_first_hint_is(tables.prefix_hints@, data.view_entries(), arg@, scopes, i as int);
            }
            return Some(h.prefix.clone());
        }
        i += 1;
    }
    proof {
        lemma_first_hint_is(tables.prefix_hints@, data.view_entries(), arg@, scopes, -1);
    }
    None
}

/// `None`, the primitive scope types and the non-primitive scope types split
/// all scope types of a game between them, with no overlap.
pub proof fn law_scope_partition(game: Game)
    ensures
        (1u128 | 0xeu128 | (all_bits(game) & !0xfu128)) == all_bits(game),
        1u128 & 0xeu128 == 0,
        1u128 & (all_bits(game) & !0xfu128) == 0,
        0xeu128 & (all_bits(game) & !0xfu128) == 0,
        (all_bits(game) & !1u128) == (0xeu128 | (all_bits(game) & !0xfu128)),
{
    let a = all_bits(game);
    assert((a & 0xfu128) == 0xfu128) by (bit_vector)
        requires
            a == 0xffffffffffffffffffffffffffu128 || a == 0x3ff506fu128;
    assert((1u128 | 0xeu128 | (a & !0xfu128)) == a && (a & !1u128) == (0xeu128 | (a & !0xfu128))
        && 1u128 & (a & !0xfu128) == 0 && 0xeu128 & (a & !0xfu128) == 0 && 1u128 & 0xeu128 == 0) by (bit_vector)
        requires
            (a & 0xfu128) == 0xfu128;
}

proof fn lemma_named_bit_in_all(game: Game, b: u32)
    requires
        b < 128,
        spec_scope_bit_name(game, b) is Some,
    ensures
        (1u128 << b) & all_bits(game) == (1u128 << b),
        (1u128 << b) != 0,
{
    match game {
        Game::Vic3 => {
            assert(b < 104);
            assert(b < 104 ==> (1u128 << b) & 0xffffffffffffffffffffffffffu128 == (1u128 << b) && (1u128 << b) != 0) by (bit_vector);
        },
        Game::Hoi4 => {
            assert(b == 0 || b == 1 || b == 2 || b == 3 || b == 5 || b == 6 || b == 12 || b == 14 || (16 <= b && b <= 25));
            assert((b == 0 || b == 1 || b == 2 || b == 3 || b == 5 || b == 6 || b == 12 || b == 14 || (16 <= b && b <= 25))
                ==> (1u128 << b) & 0x3ff506fu128 == (1u128 << b) && (1u128 << b) != 0) by (bit_vector);
        },
    }
}

proof fn lemma_first_named_bounds(game: Game, name: Seq<char>, from: u32)
    ensures
        match first_named(game, name, from) {
            Some(b) => from <= b < 128 && spec_scope_bit_name(game, b) == Some(name),
            None => true,
        },
    decreases 128 - from,
{
    if from < 128 && spec_scope_bit_name(game, from) != Some(name) {
        lemma_first_named_bounds(game, name, (from + 1) as u32);
    }
}

/// A scope type read by name is one scope type of the game.
pub proof fn law_named_scope_in_all(game: Game, name: Seq<char>)
    ensures
        match spec_from_name(game, name) {
            Some(s) => s.bits & all_bits(game) == s.bits && s.bits != 0,
            None => true,
        },
{
    lemma_first_named_bounds(game, name, 0);
    if let Some(b) = first_named(game, name, 0) {
        lemma_named_bit_in_all(game, b);
    }
}

proof fn lemma_union_of_named_in_all(game: Game, parts: Seq<Seq<char>>)
    ensures
        match union_of_named(game, parts) {
            Some(u) => u & all_bits(game) == u,
            None => true,
        },
    decreases parts.len(),
{
    if parts.len() > 0 {
        lemma_union_of_named_in_all(game, parts.drop_last());
        law_named_scope_in_all(game, snake_to_camel(parts.last()));
        match (union_of_named(game, parts.drop_last()), spec_from_name(game, snake_to_camel(parts.last()))) {
            (Some(a), Some(b)) => {
                let m = all_bits(game);
                let bb = b.bits;
                assert((a | bb) & m == (a | bb)) by (bit_vector)
                    requires
                        a & m == a,
                        bb & m == bb;
            },
            _ => {},
        }
    } else {
        let m = all_bits(game);
        assert(0u128 & m == 0u128) by (bit_vector);
    }
}

/// Scope types read from a `|`-separated list are scope types of the game,
/// and there is at least one.
pub proof fn law_multi_scopes_in_all(game: Game, s: Seq<char>)
    ensures
        match spec_from_snake_case_multi(game, s) {
            Some(x) => x.bits & all_bits(game) == x.bits && x.bits != 0,
            None => true,
        },
{
    lemma_union_of_named_in_all(game, split_seq(s, '|'));
}

/// Union and difference behave as on sets: the union contains both sides,
/// and a difference shares nothing with what was taken away.
pub proof fn law_union_difference(a: Scopes, b: Scopes)
    ensures
        (a.bits | b.bits) & a.bits == a.bits,
        (a.bits | b.bits) & b.bits == b.bits,
        (a.bits & !b.bits) & b.bits == 0,
        (a.bits | b.bits) == (b.bits | a.bits),
{
    let x = a.bits;
    let y = b.bits;
    assert((x | y) & x == x && (x | y) & y == y && (x & !y) & y == 0 && (x | y) == (y | x)) by (bit_vector);
}

/// Whether `bits` has the scope type of bit `b`.
pub open spec fn has_bit(bits: u128, b: u32) -> bool {
    bits & (1u128 << b) != 0
}

/// Whether every scope type in `s` has a name in `game`.
pub open spec fn scopes_named(game: Game, s: Scopes) -> bool {
    forall|b: u32| b < 128 && #[trigger] has_bit(s.bits, b) ==> spec_scope_bit_name(game, b) is Some
}

/// The names of the scope types among bits `0..n` of `bits`, in bit order.
pub open spec fn set_bit_names(game: Game, bits: u128, n: nat) -> Seq<Seq<char>>
    decreases n,
{
    if n == 0 {
        Seq::empty()
    } else {
        let prev = set_bit_names(game, bits, (n - 1) as nat);
        let b = (n - 1) as u32;
        if has_bit(bits, b) && spec_scope_bit_name(game, b) is Some {
            prev.push(spec_scope_bit_name(game, b)->0)
        } else {
            prev
        }
    }
}

/// The debugging form of a scope set: `Scopes(A | B)` with its names in bit
/// order, or `Scopes(0x0)` when it is empty.
pub open spec fn spec_scopes_debug(game: Game, s: Scopes) -> Seq<char> {
    if s.bits == 0 {
        "Scopes(0x0)"@
    } else {
        "Scopes("@ + join_seq(set_bit_names(game, s.bits, 128), " | "@) + ")"@
    }
}

/// The debugging form of a scope set (see [`spec_scopes_debug`]).
pub fn scopes_debug(game: Game, s: Scopes) -> (res: Vec<char>)
    requires
        scopes_named(game, s),
    ensures
        res@ == spec_scopes_debug(game, s),
{
    let mut v: Vec<char> = Vec::new();
    if s.bits == 0 {
        push_str(&mut v, "Scopes(0x0)");
        return v;
    }
    push_str(&mut v, "Scopes(");
    let ghost start = v@;
    let mut first = true;
    let mut b: u32 = 0;
    while b < 128
        invariant
            b <= 128,
            v@ == start + join_seq(set_bit_names(game, s.bits, b as nat), " | "@),
            first == (set_bit_names(game, s.bits, b as nat).len() == 0),
            start == "Scopes("@,
        decreases 128 - b,
    {
        let ghost parts = set_bit_names(game, s.bits, b as nat);
        if s.bits & (1u128 << b) != 0 {
            match scope_bit_name(game, b) {
                Some(name) => {
                    push_joined(&mut v, first, " | ", name, Ghost(start), Ghost(parts));
                    first = false;
                },
                None => {},
            }
        }
        b += 1;
    }
    push_str(&mut v, ")");
    v
}

proof fn lemma_first_named_absent(game: Game, name: Seq<char>, from: u32)
    ensures
        first_named(game, name, from) is None ==> forall|b: u32| from <= b < 128 ==> spec_scope_bit_name(game, b) != Some(name),
    decreases 128 - from,
{
    if from < 128 && spec_scope_bit_name(game, from) != Some(name) {
        lemma_first_named_absent(game, name, (from + 1) as u32);
    }
}

/// Reading a scope type by name gives exactly one scope bit, one that has
/// that name; a name that no scope type of the game has gives `None`.
pub proof fn law_from_name_one_bit(game: Game, name: Seq<char>)
    ensures
        match spec_from_name(game, name) {
            Some(s) => exists|b: u32| b < 128 && s.bits == 1u128 << b && spec_scope_bit_name(game, b) == Some(name),
            None => forall|b: u32| b < 128 ==> spec_scope_bit_name(game, b) != Some(name),
        },
{
    lemma_first_named_bounds(game, name, 0);
    lemma_first_named_absent(game, name, 0);
}

proof fn lemma_union_of_named_none_iff(game: Game, parts: Seq<Seq<char>>)
    ensures
        union_of_named(game, parts) is None
            <==> exists|k: int| 0 <= k < parts.len() && (#[trigger] spec_from_name(game, snake_to_camel(parts[k]))) is None,
        parts.len() > 0 ==> union_of_named(game, parts) != Some(0u128),
    decreases parts.len(),
{
    if parts.len() > 0 {
        let p = parts.drop_last();
        lemma_union_of_named_none_iff(game, p);
        if exists|k: int| 0 <= k < p.len() && (#[trigger] spec_from_name(game, snake_to_camel(p[k]))) is None {
            let k = choose|k: int| 0 <= k < p.len() && (#[trigger] spec_from_name(game, snake_to_camel(p[k]))) is None;
            assert(parts[k] == p[k]);
        }
        if exists|k: int| 0 <= k < parts.len() && (#[trigger] spec_from_name(game, snake_to_camel(parts[k]))) is None {
            let k = choose|k: int| 0 <= k < parts.len() && (#[trigger] spec_from_name(game, snake_to_camel(parts[k]))) is None;
            if k < parts.len() - 1 {
                assert(p[k] == parts[k]);
            }
        }
        lemma_first_named_bounds(game, snake_to_camel(parts.last()), 0);
        match (union_of_named(game, p), spec_from_name(game, snake_to_camel(parts.last()))) {
            (Some(a), Some(x)) => {
                let b = first_named(game, snake_to_camel(parts.last()), 0)->0;
                assert(b < 128 ==> (a | (1u128 << b)) != 0) by (bit_vector);
            },
            _ => {},
        }
    }
}

/// Reading several `|`-separated scope types gives `None` exactly when one
/// of the parts names no scope type of the game (an empty part, as in
/// `"value|"` or `""`, names none); otherwise it gives the union of the
/// parts, which is never empty.
pub proof fn law_from_snake_case_multi(game: Game, s: Seq<char>)
    ensures
        ({
            let parts = split_seq(s, '|');
            &&& spec_from_snake_case_multi(game, s) is None
                <==> exists|k: int| 0 <= k < parts.len() && (#[trigger] spec_from_name(game, snake_to_camel(parts[k]))) is None
            &&& match union_of_named(game, parts) {
                Some(u) => spec_from_snake_case_multi(game, s) == Some(Scopes { bits: u }),
                None => true,
            }
        }),
{
    crate::text::lemma_split_nonempty(s, '|');
    lemma_union_of_named_none_iff(game, split_seq(s, '|'));
}

/// No scope type has the empty name, so the empty name (an empty part of a
/// `|`-separated list, or an empty text) reads as no scope type.
pub proof fn law_empty_name_is_no_scope(game: Game)
    ensures
        spec_from_name(game, Seq::empty()) is None,
        spec_from_snake_case_multi(game, Seq::empty()) is None,
{
    assert forall|b: u32| b < 128 implies spec_scope_bit_name(game, b) != Some(Seq::<char>::empty()) by {
        reveal_strlit("Ace");
        reveal_strlit("Amendment");
        reveal_strlit("AmendmentType");
        reveal_strlit("Battle");
        reveal_strlit("BattleSide");
        reveal_strlit("Bool");
        reveal_strlit("Building");
        reveal_strlit("BuildingGroup");
        reveal_strlit("BuildingType");
        reveal_strlit("Character");
        reveal_strlit("CharacterRole");
        reveal_strlit("CivilWar");
        reveal_strlit("Color");
        reveal_strlit("CombatUnitType");
        reveal_strlit("Combatant");
        reveal_strlit("CombinedCountryAndCharacter");
        reveal_strlit("CombinedCountryAndState");
        reveal_strlit("CommanderOrderType");
        reveal_strlit("Company");
        reveal_strlit("CompanyType");
        reveal_strlit("Country");
        reveal_strlit("CountryCreation");
        reveal_strlit("CountryDefinition");
        reveal_strlit("CountryFormation");
        reveal_strlit("CulturalCommunity");
        reveal_strlit("Culture");
        reveal_strlit("Decision");
        reveal_strlit("Decree");
        reveal_strlit("DiplomaticAction");
        reveal_strlit("DiplomaticCatalyst");
        reveal_strlit("DiplomaticCatalystCategory");
        reveal_strlit("DiplomaticCatalystType");
        reveal_strlit("DiplomaticDemand");
        reveal_strlit("DiplomaticPact");
        reveal_strlit("DiplomaticPlay");
        reveal_strlit("DiplomaticPlayType");
        reveal_strlit("DiplomaticRelations");
        reveal_strlit("Division");
        reveal_strlit("Flag");
        reveal_strlit("Front");
        reveal_strlit("GeographicRegion");
        reveal_strlit("Goods");
        reveal_strlit("HarvestCondition");
        reveal_strlit("HarvestConditionType");
        reveal_strlit("Hq");
        reveal_strlit("Ideology");
        reveal_strlit("IndustrialOrg");
        reveal_strlit("Institution");
        reveal_strlit("InstitutionType");
        reveal_strlit("InterestGroup");
        reveal_strlit("InterestGroupTrait");
        reveal_strlit("InterestGroupType");
        reveal_strlit("InterestMarker");
        reveal_strlit("InterestTierType");
        reveal_strlit("Invasion");
        reveal_strlit("JournalEntry");
        reveal_strlit("Law");
        reveal_strlit("LawType");
        reveal_strlit("Market");
        reveal_strlit("MarketGoods");
        reveal_strlit("MilitaryFormation");
        reveal_strlit("MobilizationOption");
        reveal_strlit("NavalBattle");
        reveal_strlit("NavalMission");
        reveal_strlit("NavalMissionType");
        reveal_strlit("NewCombatUnit");
        reveal_strlit("None");
        reveal_strlit("Objective");
        reveal_strlit("Operation");
        reveal_strlit("Party");
        reveal_strlit("PoliticalLobby");
        reveal_strlit("PoliticalLobbyAppeasement");
        reveal_strlit("PoliticalLobbyType");
        reveal_strlit("PoliticalMovement");
        reveal_strlit("PoliticalMovementType");
        reveal_strlit("Pop");
        reveal_strlit("PopType");
        reveal_strlit("PowerBloc");
        reveal_strlit("PowerBlocIdentity");
        reveal_strlit("PowerBlocPrinciple");
        reveal_strlit("PowerBlocPrincipleGroup");
        reveal_strlit("Province");
        reveal_strlit("PurchaseContract");
        reveal_strlit("RaidInstance");
        reveal_strlit("Religion");
        reveal_strlit("Ship");
        reveal_strlit("ShipGroup");
        reveal_strlit("ShipModificationType");
        reveal_strlit("ShipType");
        reveal_strlit("ShippingLanes");
        reveal_strlit("SpecialProject");
        reveal_strlit("State");
        reveal_strlit("StateGoods");
        reveal_strlit("StateRegion");
        reveal_strlit("StateTrait");
        reveal_strlit("Strait");
        reveal_strlit("StraitType");
        reveal_strlit("StrategicRegion");
        reveal_strlit("Sway");
        reveal_strlit("Technology");
        reveal_strlit("TechnologyStatus");
        reveal_strlit("Theater");
        reveal_strlit("TravelConnection");
        reveal_strlit("TravelConnectionDefinition");
        reveal_strlit("TravelNode");
        reveal_strlit("TravelNodeDefinition");
        reveal_strlit("Treaty");
        reveal_strlit("TreatyArticle");
        reveal_strlit("TreatyArticleOptions");
        reveal_strlit("TreatyOptions");
        reveal_strlit("Value");
        reveal_strlit("War");
        reveal_strlit("WarGoal");
        reveal_strlit("WarGoalType");
    }
    law_from_name_one_bit(game, Seq::empty());
    assert(split_seq(Seq::<char>::empty(), '|') == seq![Seq::<char>::empty()]);
    assert(snake_to_camel(Seq::<char>::empty()) == Seq::<char>::empty());
    law_from_snake_case_multi(game, Seq::empty());
    assert(spec_from_name(game, snake_to_camel(split_seq(Seq::<char>::empty(), '|')[0])) is None);
}

/// A `|`-separated list with an empty part, such as `"value|"`, reads as no
/// scope types.
pub proof fn law_empty_part_gives_none(game: Game, s: Seq<char>, k: int)
    requires
        0 <= k < split_seq(s, '|').len(),
        split_seq(s, '|')[k] == Seq::<char>::empty(),
    ensures
        spec_from_snake_case_multi(game, s) is None,
{
    law_empty_name_is_no_scope(game);
    assert(snake_to_camel(Seq::<char>::empty()) == Seq::<char>::empty());
    assert(spec_from_name(game, snake_to_camel(split_seq(s, '|')[k])) is None);
    law_from_snake_case_multi(game, s);
}

} // verus!

verus! {

/// The Victoria 3 scope types that the event link `type` turns into their
/// own type scope type (`Building` into `BuildingType`, and so on), by name.
pub open spec fn type_link_objects() -> Seq<Seq<char>> {
    seq![
        "Building"@,
        "Company"@,
        "DiplomaticPlay"@,
        "DiplomaticCatalyst"@,
        "PoliticalLobby"@,
        "Institution"@,
        "InterestGroup"@,
        "Law"@,
        "PoliticalMovement"@,
        "HarvestCondition"@,
    ]
}

proof fn lemma_has_bit_or(x: u128, y: u128, b: u32)
    requires
        b < 128,
    ensures
        has_bit(x | y, b) <==> has_bit(x, b) || has_bit(y, b),
{
    assert((x | y) & (1u128 << b) != 0 <==> x & (1u128 << b) != 0 || y & (1u128 << b) != 0) by (bit_vector)
        requires
            b < 128;
}

proof fn lemma_has_bit_pair(inscopes: u128, from: u32, to: u32, b: u32)
    requires
        from < 128,
        to < 128,
        b < 128,
    ensures
        has_bit(type_pair(inscopes, from, to), b) <==> b == to && has_bit(inscopes, from),
{
    assert((inscopes & (1u128 << from) == (1u128 << from)) <==> inscopes & (1u128 << from) != 0) by (bit_vector)
        requires
            from < 128;
    assert((1u128 << to) & (1u128 << b) != 0 <==> b == to) by (bit_vector)
        requires
            to < 128,
            b < 128;
    assert(0u128 & (1u128 << b) == 0) by (bit_vector);
}

/// Which name each of the object scope types and type scope types that the
/// `type` link relates has: the bit of that name, and no other.
proof fn lemma_type_link_names_unique(a: u32)
    requires
        a < 128,
    ensures
        spec_scope_bit_name(Game::Vic3, a) == Some("Building"@) ==> a == 18,
        spec_scope_bit_name(Game::Vic3, a) == Some("Company"@) ==> a == 62,
        spec_scope_bit_name(Game::Vic3, a) == Some("DiplomaticPlay"@) ==> a == 31,
        spec_scope_bit_name(Game::Vic3, a) == Some("DiplomaticCatalyst"@) ==> a == 72,
        spec_scope_bit_name(Game::Vic3, a) == Some("PoliticalLobby"@) ==> a == 75,
        spec_scope_bit_name(Game::Vic3, a) == Some("Institution"@) ==> a == 37,
        spec_scope_bit_name(Game::Vic3, a) == Some("InterestGroup"@) ==> a == 40,
        spec_scope_bit_name(Game::Vic3, a) == Some("Law"@) ==> a == 44,
        spec_scope_bit_name(Game::Vic3, a) == Some("PoliticalMovement"@) ==> a == 49,
        spec_scope_bit_name(Game::Vic3, a) == Some("HarvestCondition"@) ==> a == 81,
        spec_scope_bit_name(Game::Vic3, a) == Some("BuildingType"@) ==> a == 19,
        spec_scope_bit_name(Game::Vic3, a) == Some("CompanyType"@) ==> a == 63,
        spec_scope_bit_name(Game::Vic3, a) == Some("DiplomaticPlayType"@) ==> a == 71,
        spec_scope_bit_name(Game::Vic3, a) == Some("DiplomaticCatalystType"@) ==> a == 73,
        spec_scope_bit_name(Game::Vic3, a) == Some("PoliticalLobbyType"@) ==> a == 76,
        spec_scope_bit_name(Game::Vic3, a) == Some("InstitutionType"@) ==> a == 38,
        spec_scope_bit_name(Game::Vic3, a) == Some("InterestGroupType"@) ==> a == 42,
        spec_scope_bit_name(Game::Vic3, a) == Some("LawType"@) ==> a == 45,
        spec_scope_bit_name(Game::Vic3, a) == Some("PoliticalMovementType"@) ==> a == 82,
        spec_scope_bit_name(Game::Vic3, a) == Some("HarvestConditionType"@) ==> a == 83,
{
    reveal_strlit("Amendment");
    reveal_strlit("AmendmentType");
    reveal_strlit("Battle");
    reveal_strlit("BattleSide");
    reveal_strlit("Bool");
    reveal_strlit("Building");
    reveal_strlit("BuildingGroup");
    reveal_strlit("BuildingType");
    reveal_strlit("Character");
    reveal_strlit("CharacterRole");
    reveal_strlit("CivilWar");
    reveal_strlit("Color");
    reveal_strlit("CombatUnitType");
    reveal_strlit("CommanderOrderType");
    reveal_strlit("Company");
    reveal_strlit("CompanyType");
    reveal_strlit("Country");
    reveal_strlit("CountryCreation");
    reveal_strlit("CountryDefinition");
    reveal_strlit("CountryFormation");
    reveal_strlit("CulturalCommunity");
    reveal_strlit("Culture");
    reveal_strlit("Decision");
    reveal_strlit("Decree");
    reveal_strlit("DiplomaticAction");
    reveal_strlit("DiplomaticCatalyst");
    reveal_strlit("DiplomaticCatalystCategory");
    reveal_strlit("DiplomaticCatalystType");
    reveal_strlit("DiplomaticDemand");
    reveal_strlit("DiplomaticPact");
    reveal_strlit("DiplomaticPlay");
    reveal_strlit("DiplomaticPlayType");
    reveal_strlit("DiplomaticRelations");
    reveal_strlit("Flag");
    reveal_strlit("Front");
    reveal_strlit("GeographicRegion");
    reveal_strlit("Goods");
    reveal_strlit("HarvestCondition");
    reveal_strlit("HarvestConditionType");
    reveal_strlit("Hq");
    reveal_strlit("Ideology");
    reveal_strlit("Institution");
    reveal_strlit("InstitutionType");
    reveal_strlit("InterestGroup");
    reveal_strlit("InterestGroupTrait");
    reveal_strlit("InterestGroupType");
    reveal_strlit("InterestMarker");
    reveal_strlit("InterestTierType");
    reveal_strlit("Invasion");
    reveal_strlit("JournalEntry");
    reveal_strlit("Law");
    reveal_strlit("LawType");
    reveal_strlit("Market");
    reveal_strlit("MarketGoods");
    reveal_strlit("MilitaryFormation");
    reveal_strlit("MobilizationOption");
    reveal_strlit("NavalBattle");
    reveal_strlit("NavalMission");
    reveal_strlit("NavalMissionType");
    reveal_strlit("NewCombatUnit");
    reveal_strlit("None");
    reveal_strlit("Objective");
    reveal_strlit("Party");
    reveal_strlit("PoliticalLobby");
    reveal_strlit("PoliticalLobbyAppeasement");
    reveal_strlit("PoliticalLobbyType");
    reveal_strlit("PoliticalMovement");
    reveal_strlit("PoliticalMovementType");
    reveal_strlit("Pop");
    reveal_strlit("PopType");
    reveal_strlit("PowerBloc");
    reveal_strlit("PowerBlocIdentity");
    reveal_strlit("PowerBlocPrinciple");
    reveal_strlit("PowerBlocPrincipleGroup");
    reveal_strlit("Province");
    reveal_strlit("Religion");
    reveal_strlit("Ship");
    reveal_strlit("ShipGroup");
    reveal_strlit("ShipModificationType");
    reveal_strlit("ShipType");
    reveal_strlit("ShippingLanes");
    reveal_strlit("State");
    reveal_strlit("StateGoods");
    reveal_strlit("StateRegion");
    reveal_strlit("StateTrait");
    reveal_strlit("Strait");
    reveal_strlit("StraitType");
    reveal_strlit("StrategicRegion");
    reveal_strlit("Sway");
    reveal_strlit("Technology");
    reveal_strlit("TechnologyStatus");
    reveal_strlit("Theater");
    reveal_strlit("TravelConnection");
    reveal_strlit("TravelConnectionDefinition");
    reveal_strlit("TravelNode");
    reveal_strlit("TravelNodeDefinition");
    reveal_strlit("Treaty");
    reveal_strlit("TreatyArticle");
    reveal_strlit("TreatyArticleOptions");
    reveal_strlit("TreatyOptions");
    reveal_strlit("Value");
    reveal_strlit("War");
    reveal_strlit("WarGoal");
    reveal_strlit("WarGoalType");
    assert("Amendment"@.len() == 9);
    assert("AmendmentType"@.len() == 13);
    assert("Battle"@.len() == 6);
    assert("BattleSide"@.len() == 10);
    assert("Bool"@.len() == 4);
    assert("Building"@.len() == 8);
    assert("BuildingGroup"@.len() == 13);
    assert("BuildingType"@.len() == 12);
    assert("Character"@.len() == 9);
    assert("CharacterRole"@.len() == 13);
    assert("CivilWar"@.len() == 8);
    assert("Color"@.len() == 5);
    assert("CombatUnitType"@.len() == 14);
    assert("CommanderOrderType"@.len() == 18);
    assert("Company"@.len() == 7);
    assert("CompanyType"@.len() == 11);
    assert("Country"@.len() == 7);
    assert("CountryCreation"@.len() == 15);
    assert("CountryDefinition"@.len() == 17);
    assert("CountryFormation"@.len() == 16);
    assert("CulturalCommunity"@.len() == 17);
    assert("Culture"@.len() == 7);
    assert("Decision"@.len() == 8);
    assert("Decree"@.len() == 6);
    assert("DiplomaticAction"@.len() == 16);
    assert("DiplomaticCatalyst"@.len() == 18);
    assert("DiplomaticCatalystCategory"@.len() == 26);
    assert("DiplomaticCatalystType"@.len() == 22);
    assert("DiplomaticDemand"@.len() == 16);
    assert("DiplomaticPact"@.len() == 14);
    assert("DiplomaticPlay"@.len() == 14);
    assert("DiplomaticPlayType"@.len() == 18);
    assert("DiplomaticRelations"@.len() == 19);
    assert("Flag"@.len() == 4);
    assert("Front"@.len() == 5);
    assert("GeographicRegion"@.len() == 16);
    assert("Goods"@.len() == 5);
    assert("HarvestCondition"@.len() == 16);
    assert("HarvestConditionType"@.len() == 20);
    assert("Hq"@.len() == 2);
    assert("Ideology"@.len() == 8);
    assert("Institution"@.len() == 11);
    assert("InstitutionType"@.len() == 15);
    assert("InterestGroup"@.len() == 13);
    assert("InterestGroupTrait"@.len() == 18);
    assert("InterestGroupType"@.len() == 17);
    assert("InterestMarker"@.len() == 14);
    assert("InterestTierType"@.len() == 16);
    assert("Invasion"@.len() == 8);
    assert("JournalEntry"@.len() == 12);
    assert("Law"@.len() == 3);
    assert("LawType"@.len() == 7);
    assert("Market"@.len() == 6);
    assert("MarketGoods"@.len() == 11);
    assert("MilitaryFormation"@.len() == 17);
    assert("MobilizationOption"@.len() == 18);
    assert("NavalBattle"@.len() == 11);
    assert("NavalMission"@.len() == 12);
    assert("NavalMissionType"@.len() == 16);
    assert("NewCombatUnit"@.len() == 13);
    assert("None"@.len() == 4);
    assert("Objective"@.len() == 9);
    assert("Party"@.len() == 5);
    assert("PoliticalLobby"@.len() == 14);
    assert("PoliticalLobbyAppeasement"@.len() == 25);
    assert("PoliticalLobbyType"@.len() == 18);
    assert("PoliticalMovement"@.len() == 17);
    assert("PoliticalMovementType"@.len() == 21);
    assert("Pop"@.len() == 3);
    assert("PopType"@.len() == 7);
    assert("PowerBloc"@.len() == 9);
    assert("PowerBlocIdentity"@.len() == 17);
    assert("PowerBlocPrinciple"@.len() == 18);
    assert("PowerBlocPrincipleGroup"@.len() == 23);
    assert("Province"@.len() == 8);
    assert("Religion"@.len() == 8);
    assert("Ship"@.len() == 4);
    assert("ShipGroup"@.len() == 9);
    assert("ShipModificationType"@.len() == 20);
    assert("ShipType"@.len() == 8);
    assert("ShippingLanes"@.len() == 13);
    assert("State"@.len() == 5);
    assert("StateGoods"@.len() == 10);
    assert("StateRegion"@.len() == 11);
    assert("StateTrait"@.len() == 10);
    assert("Strait"@.len() == 6);
    assert("StraitType"@.len() == 10);
    assert("StrategicRegion"@.len() == 15);
    assert("Sway"@.len() == 4);
    assert("Technology"@.len() == 10);
    assert("TechnologyStatus"@.len() == 16);
    assert("Theater"@.len() == 7);
    assert("TravelConnection"@.len() == 16);
    assert("TravelConnectionDefinition"@.len() == 26);
    assert("TravelNode"@.len() == 10);
    assert("TravelNodeDefinition"@.len() == 20);
    assert("Treaty"@.len() == 6);
    assert("TreatyArticle"@.len() == 13);
    assert("TreatyArticleOptions"@.len() == 20);
    assert("TreatyOptions"@.len() == 13);
    assert("Value"@.len() == 5);
    assert("War"@.len() == 3);
    assert("WarGoal"@.len() == 7);
    assert("WarGoalType"@.len() == 11);
    assert("CivilWar"@[0] != "Building"@[0]);
    assert("Decision"@[0] != "Building"@[0]);
    assert("Ideology"@[0] != "Building"@[0]);
    assert("Invasion"@[0] != "Building"@[0]);
    assert("Province"@[0] != "Building"@[0]);
    assert("Religion"@[0] != "Building"@[0]);
    assert("ShipType"@[0] != "Building"@[0]);
    assert("Country"@[2] != "Company"@[2]);
    assert("Culture"@[1] != "Company"@[1]);
    assert("LawType"@[0] != "Company"@[0]);
    assert("PopType"@[0] != "Company"@[0]);
    assert("Theater"@[0] != "Company"@[0]);
    assert("WarGoal"@[0] != "Company"@[0]);
    assert("CombatUnitType"@[0] != "DiplomaticPlay"@[0]);
    assert("DiplomaticPact"@[11] != "DiplomaticPlay"@[11]);
    assert("InterestMarker"@[0] != "DiplomaticPlay"@[0]);
    assert("PoliticalLobby"@[0] != "DiplomaticPlay"@[0]);
    assert("CommanderOrderType"@[0] != "DiplomaticCatalyst"@[0]);
    assert("DiplomaticPlayType"@[10] != "DiplomaticCatalyst"@[10]);
    assert("InterestGroupTrait"@[0] != "DiplomaticCatalyst"@[0]);
    assert("MobilizationOption"@[0] != "DiplomaticCatalyst"@[0]);
    assert("PoliticalLobbyType"@[0] != "DiplomaticCatalyst"@[0]);
    assert("PowerBlocPrinciple"@[0] != "DiplomaticCatalyst"@[0]);
    assert("CombatUnitType"@[0] != "PoliticalLobby"@[0]);
    assert("DiplomaticPact"@[0] != "PoliticalLobby"@[0]);
    assert("DiplomaticPlay"@[0] != "PoliticalLobby"@[0]);
    assert("InterestMarker"@[0] != "PoliticalLobby"@[0]);
    assert("CompanyType"@[0] != "Institution"@[0]);
    assert("MarketGoods"@[0] != "Institution"@[0]);
    assert("NavalBattle"@[0] != "Institution"@[0]);
    assert("StateRegion"@[0] != "Institution"@[0]);
    assert("WarGoalType"@[0] != "Institution"@[0]);
    assert("AmendmentType"@[0] != "InterestGroup"@[0]);
    assert("BuildingGroup"@[0] != "InterestGroup"@[0]);
    assert("CharacterRole"@[0] != "InterestGroup"@[0]);
    assert("NewCombatUnit"@[0] != "InterestGroup"@[0]);
    assert("ShippingLanes"@[0] != "InterestGroup"@[0]);
    assert("TreatyArticle"@[0] != "InterestGroup"@[0]);
    assert("TreatyOptions"@[0] != "InterestGroup"@[0]);
    assert("Pop"@[0] != "Law"@[0]);
    assert("War"@[0] != "Law"@[0]);
    assert("CountryDefinition"@[0] != "PoliticalMovement"@[0]);
    assert("CulturalCommunity"@[0] != "PoliticalMovement"@[0]);
    assert("InterestGroupType"@[0] != "PoliticalMovement"@[0]);
    assert("MilitaryFormation"@[0] != "PoliticalMovement"@[0]);
    assert("PowerBlocIdentity"@[2] != "PoliticalMovement"@[2]);
    assert("CountryFormation"@[0] != "HarvestCondition"@[0]);
    assert("DiplomaticAction"@[0] != "HarvestCondition"@[0]);
    assert("DiplomaticDemand"@[0] != "HarvestCondition"@[0]);
    assert("GeographicRegion"@[0] != "HarvestCondition"@[0]);
    assert("InterestTierType"@[0] != "HarvestCondition"@[0]);
    assert("NavalMissionType"@[0] != "HarvestCondition"@[0]);
    assert("TechnologyStatus"@[0] != "HarvestCondition"@[0]);
    assert("TravelConnection"@[0] != "HarvestCondition"@[0]);
    assert("JournalEntry"@[0] != "BuildingType"@[0]);
    assert("NavalMission"@[0] != "BuildingType"@[0]);
    assert("Institution"@[0] != "CompanyType"@[0]);
    assert("MarketGoods"@[0] != "CompanyType"@[0]);
    assert("NavalBattle"@[0] != "CompanyType"@[0]);
    assert("StateRegion"@[0] != "CompanyType"@[0]);
    assert("WarGoalType"@[0] != "CompanyType"@[0]);
    assert("CommanderOrderType"@[0] != "DiplomaticPlayType"@[0]);
    assert("DiplomaticCatalyst"@[10] != "DiplomaticPlayType"@[10]);
    assert("InterestGroupTrait"@[0] != "DiplomaticPlayType"@[0]);
    assert("MobilizationOption"@[0] != "DiplomaticPlayType"@[0]);
    assert("PoliticalLobbyType"@[0] != "DiplomaticPlayType"@[0]);
    assert("PowerBlocPrinciple"@[0] != "DiplomaticPlayType"@[0]);
    assert("CommanderOrderType"@[0] != "PoliticalLobbyType"@[0]);
    assert("DiplomaticCatalyst"@[0] != "PoliticalLobbyType"@[0]);
    assert("DiplomaticPlayType"@[0] != "PoliticalLobbyType"@[0]);
    assert("InterestGroupTrait"@[0] != "PoliticalLobbyType"@[0]);
    assert("MobilizationOption"@[0] != "PoliticalLobbyType"@[0]);
    assert("PowerBlocPrinciple"@[2] != "PoliticalLobbyType"@[2]);
    assert("CountryCreation"@[0] != "InstitutionType"@[0]);
    assert("StrategicRegion"@[0] != "InstitutionType"@[0]);
    assert("CountryDefinition"@[0] != "InterestGroupType"@[0]);
    assert("CulturalCommunity"@[0] != "InterestGroupType"@[0]);
    assert("MilitaryFormation"@[0] != "InterestGroupType"@[0]);
    assert("PoliticalMovement"@[0] != "InterestGroupType"@[0]);
    assert("PowerBlocIdentity"@[0] != "InterestGroupType"@[0]);
    assert("Company"@[0] != "LawType"@[0]);
    assert("Country"@[0] != "LawType"@[0]);
    assert("Culture"@[0] != "LawType"@[0]);
    assert("PopType"@[0] != "LawType"@[0]);
    assert("Theater"@[0] != "LawType"@[0]);
    assert("WarGoal"@[0] != "LawType"@[0]);
    assert("ShipModificationType"@[0] != "HarvestConditionType"@[0]);
    assert("TravelNodeDefinition"@[0] != "HarvestConditionType"@[0]);
    assert("TreatyArticleOptions"@[0] != "HarvestConditionType"@[0]);
}

proof fn lemma_type_outscopes_bits(inscopes: u128, b: u32)
    requires
        b < 128,
    ensures
        has_bit(type_outscopes(inscopes), b) <==> {
            ||| (b == 19u32 && has_bit(inscopes, 18u32))
            ||| (b == 63u32 && has_bit(inscopes, 62u32))
            ||| (b == 71u32 && has_bit(inscopes, 31u32))
            ||| (b == 73u32 && has_bit(inscopes, 72u32))
            ||| (b == 76u32 && has_bit(inscopes, 75u32))
            ||| (b == 38u32 && has_bit(inscopes, 37u32))
            ||| (b == 42u32 && has_bit(inscopes, 40u32))
            ||| (b == 45u32 && has_bit(inscopes, 44u32))
            ||| (b == 82u32 && has_bit(inscopes, 49u32))
            ||| (b == 83u32 && has_bit(inscopes, 81u32))
        },
{
    lemma_has_bit_pair(inscopes, BUILDING, BUILDING_TYPE, b);
    lemma_has_bit_pair(inscopes, COMPANY, COMPANY_TYPE, b);
    lemma_has_bit_or(type_pair(inscopes, BUILDING, BUILDING_TYPE), type_pair(inscopes, COMPANY, COMPANY_TYPE), b);
    lemma_has_bit_pair(inscopes, DIPLOMATIC_PLAY, DIPLOMATIC_PLAY_TYPE, b);
    lemma_has_bit_or((type_pair(inscopes, BUILDING, BUILDING_TYPE) | type_pair(inscopes, COMPANY, COMPANY_TYPE)), type_pair(inscopes, DIPLOMATIC_PLAY, DIPLOMATIC_PLAY_TYPE), b);
    lemma_has_bit_pair(inscopes, DIPLOMATIC_CATALYST, DIPLOMATIC_CATALYST_TYPE, b);
    lemma_has_bit_or(((type_pair(inscopes, BUILDING, BUILDING_TYPE) | type_pair(inscopes, COMPANY, COMPANY_TYPE)) | type_pair(inscopes, DIPLOMATIC_PLAY, DIPLOMATIC_PLAY_TYPE)), type_pair(inscopes, DIPLOMATIC_CATALYST, DIPLOMATIC_CATALYST_TYPE), b);
    lemma_has_bit_pair(inscopes, POLITICAL_LOBBY, POLITICAL_LOBBY_TYPE, b);
    lemma_has_bit_or((((type_pair(inscopes, BUILDING, BUILDING_TYPE) | type_pair(inscopes, COMPANY, COMPANY_TYPE)) | type_pair(inscopes, DIPLOMATIC_PLAY, DIPLOMATIC_PLAY_TYPE)) | type_pair(inscopes, DIPLOMATIC_CATALYST, DIPLOMATIC_CATALYST_TYPE)), type_pair(inscopes, POLITICAL_LOBBY, POLITICAL_LOBBY_TYPE), b);
    lemma_has_bit_pair(inscopes, INSTITUTION, INSTITUTION_TYPE, b);
    lemma_has_bit_or(((((type_pair(inscopes, BUILDING, BUILDING_TYPE) | type_pair(inscopes, COMPANY, COMPANY_TYPE)) | type_pair(inscopes, DIPLOMATIC_PLAY, DIPLOMATIC_PLAY_TYPE)) | type_pair(inscopes, DIPLOMATIC_CATALYST, DIPLOMATIC_CATALYST_TYPE)) | type_pair(inscopes, POLITICAL_LOBBY, POLITICAL_LOBBY_TYPE)), type_pair(inscopes, INSTITUTION, INSTITUTION_TYPE), b);
    lemma_has_bit_pair(inscopes, INTEREST_GROUP, INTEREST_GROUP_TYPE, b);
    lemma_has_bit_or((((((type_pair(inscopes, BUILDING, BUILDING_TYPE) | type_pair(inscopes, COMPANY, COMPANY_TYPE)) | type_pair(inscopes, DIPLOMATIC_PLAY, DIPLOMATIC_PLAY_TYPE)) | type_pair(inscopes, DIPLOMATIC_CATALYST, DIPLOMATIC_CATALYST_TYPE)) | type_pair(inscopes, POLITICAL_LOBBY, POLITICAL_LOBBY_TYPE)) | type_pair(inscopes, INSTITUTION, INSTITUTION_TYPE)), type_pair(inscopes, INTEREST_GROUP, INTEREST_GROUP_TYPE), b);
    lemma_has_bit_pair(inscopes, LAW, LAW_TYPE, b);
    lemma_has_bit_or(((((((type_pair(inscopes, BUILDING, BUILDING_TYPE) | type_pair(inscopes, COMPANY, COMPANY_TYPE)) | type_pair(inscopes, DIPLOMATIC_PLAY, DIPLOMATIC_PLAY_TYPE)) | type_pair(inscopes, DIPLOMATIC_CATALYST, DIPLOMATIC_CATALYST_TYPE)) | type_pair(inscopes, POLITICAL_LOBBY, POLITICAL_LOBBY_TYPE)) | type_pair(inscopes, INSTITUTION, INSTITUTION_TYPE)) | type_pair(inscopes, INTEREST_GROUP, INTEREST_GROUP_TYPE)), type_pair(inscopes, LAW, LAW_TYPE), b);
    lemma_has_bit_pair(inscopes, POLITICAL_MOVEMENT, POLITICAL_MOVEMENT_TYPE, b);
    lemma_has_bit_or((((((((type_pair(inscopes, BUILDING, BUILDING_TYPE) | type_pair(inscopes, COMPANY, COMPANY_TYPE)) | type_pair(inscopes, DIPLOMATIC_PLAY, DIPLOMATIC_PLAY_TYPE)) | type_pair(inscopes, DIPLOMATIC_CATALYST, DIPLOMATIC_CATALYST_TYPE)) | type_pair(inscopes, POLITICAL_LOBBY, POLITICAL_LOBBY_TYPE)) | type_pair(inscopes, INSTITUTION, INSTITUTION_TYPE)) | type_pair(inscopes, INTEREST_GROUP, INTEREST_GROUP_TYPE)) | type_pair(inscopes, LAW, LAW_TYPE)), type_pair(inscopes, POLITICAL_MOVEMENT, POLITICAL_MOVEMENT_TYPE), b);
    lemma_has_bit_pair(inscopes, HARVEST_CONDITION, HARVEST_CONDITION_TYPE, b);
    lemma_has_bit_or(((((((((type_pair(inscopes, BUILDING, BUILDING_TYPE) | type_pair(inscopes, COMPANY, COMPANY_TYPE)) | type_pair(inscopes, DIPLOMATIC_PLAY, DIPLOMATIC_PLAY_TYPE)) | type_pair(inscopes, DIPLOMATIC_CATALYST, DIPLOMATIC_CATALYST_TYPE)) | type_pair(inscopes, POLITICAL_LOBBY, POLITICAL_LOBBY_TYPE)) | type_pair(inscopes, INSTITUTION, INSTITUTION_TYPE)) | type_pair(inscopes, INTEREST_GROUP, INTEREST_GROUP_TYPE)) | type_pair(inscopes, LAW, LAW_TYPE)) | type_pair(inscopes, POLITICAL_MOVEMENT, POLITICAL_MOVEMENT_TYPE)), type_pair(inscopes, HARVEST_CONDITION, HARVEST_CONDITION_TYPE), b);
}

/// What the Victoria 3 event link `type` gives (see [`scope_to_scope`]): a
/// scope type is among its output scope types exactly when it is the type
/// scope type `XType` of an object scope type `X` among the input scope
/// types, one of [`type_link_objects`]. So each such input scope type gives
/// its own type scope type and nothing else: `Company` gives `CompanyType`.
pub proof fn law_type_link_gives_own_type(inscopes: u128, b: u32)
    requires
        b < 128,
    ensures
        has_bit(type_outscopes(inscopes), b) <==> exists|a: u32|
            #![trigger spec_scope_bit_name(Game::Vic3, a)]
            a < 128 && has_bit(inscopes, a) && match spec_scope_bit_name(Game::Vic3, a) {
                Some(n) => type_link_objects().contains(n) && spec_scope_bit_name(Game::Vic3, b) == Some(n + "Type"@),
                None => false,
            },
{
    lemma_type_outscopes_bits(inscopes, b);
    reveal_strlit("Type");
    reveal_strlit("Building");
    reveal_strlit("BuildingType");
    assert("Building"@ + "Type"@ =~= "BuildingType"@);
    reveal_strlit("Company");
    reveal_strlit("CompanyType");
    assert("Company"@ + "Type"@ =~= "CompanyType"@);
    reveal_strlit("DiplomaticPlay");
    reveal_strlit("DiplomaticPlayType");
    assert("DiplomaticPlay"@ + "Type"@ =~= "DiplomaticPlayType"@);
    reveal_strlit("DiplomaticCatalyst");
    reveal_strlit("DiplomaticCatalystType");
    assert("DiplomaticCatalyst"@ + "Type"@ =~= "DiplomaticCatalystType"@);
    reveal_strlit("PoliticalLobby");
    reveal_strlit("PoliticalLobbyType");
    assert("PoliticalLobby"@ + "Type"@ =~= "PoliticalLobbyType"@);
    reveal_strlit("Institution");
    reveal_strlit("InstitutionType");
    assert("Institution"@ + "Type"@ =~= "InstitutionType"@);
    reveal_strlit("InterestGroup");
    reveal_strlit("InterestGroupType");
    assert("InterestGroup"@ + "Type"@ =~= "InterestGroupType"@);
    reveal_strlit("Law");
    reveal_strlit("LawType");
    assert("Law"@ + "Type"@ =~= "LawType"@);
    reveal_strlit("PoliticalMovement");
    reveal_strlit("PoliticalMovementType");
    assert("PoliticalMovement"@ + "Type"@ =~= "PoliticalMovementType"@);
    reveal_strlit("HarvestCondition");
    reveal_strlit("HarvestConditionType");
    assert("HarvestCondition"@ + "Type"@ =~= "HarvestConditionType"@);
    let objs = type_link_objects();
    assert(objs[0] == "Building"@);
    assert(objs[1] == "Company"@);
    assert(objs[2] == "DiplomaticPlay"@);
    assert(objs[3] == "DiplomaticCatalyst"@);
    assert(objs[4] == "PoliticalLobby"@);
    assert(objs[5] == "Institution"@);
    assert(objs[6] == "InterestGroup"@);
    assert(objs[7] == "Law"@);
    assert(objs[8] == "PoliticalMovement"@);
    assert(objs[9] == "HarvestCondition"@);
    if has_bit(type_outscopes(inscopes), b) {
        if b == 19u32 && has_bit(inscopes, 18u32) {
            assert(spec_scope_bit_name(Game::Vic3, 18u32) == Some("Building"@));
            assert(objs.contains("Building"@));
        } else if b == 63u32 && has_bit(inscopes, 62u32) {
            assert(spec_scope_bit_name(Game::Vic3, 62u32) == Some("Company"@));
            assert(objs.contains("Company"@));
        } else if b == 71u32 && has_bit(inscopes, 31u32) {
            assert(spec_scope_bit_name(Game::Vic3, 31u32) == Some("DiplomaticPlay"@));
            assert(objs.contains("DiplomaticPlay"@));
        } else if b == 73u32 && has_bit(inscopes, 72u32) {
            assert(spec_scope_bit_name(Game::Vic3, 72u32) == Some("DiplomaticCatalyst"@));
            assert(objs.contains("DiplomaticCatalyst"@));
        } else if b == 76u32 && has_bit(inscopes, 75u32) {
            assert(spec_scope_bit_name(Game::Vic3, 75u32) == Some("PoliticalLobby"@));
            assert(objs.contains("PoliticalLobby"@));
        } else if b == 38u32 && has_bit(inscopes, 37u32) {
            assert(spec_scope_bit_name(Game::Vic3, 37u32) == Some("Institution"@));
            assert(objs.contains("Institution"@));
        } else if b == 42u32 && has_bit(inscopes, 40u32) {
            assert(spec_scope_bit_name(Game::Vic3, 40u32) == Some("InterestGroup"@));
            assert(objs.contains("InterestGroup"@));
        } else if b == 45u32 && has_bit(inscopes, 44u32) {
            assert(spec_scope_bit_name(Game::Vic3, 44u32) == Some("Law"@));
            assert(objs.contains("Law"@));
        } else if b == 82u32 && has_bit(inscopes, 49u32) {
            assert(spec_scope_bit_name(Game::Vic3, 49u32) == Some("PoliticalMovement"@));
            assert(objs.contains("PoliticalMovement"@));
        } else if b == 83u32 && has_bit(inscopes, 81u32) {
            assert(spec_scope_bit_name(Game::Vic3, 81u32) == Some("HarvestCondition"@));
            assert(objs.contains("HarvestCondition"@));
        }
    }
    if exists|a: u32|
        #![trigger spec_scope_bit_name(Game::Vic3, a)]
        a < 128 && has_bit(inscopes, a) && match spec_scope_bit_name(Game::Vic3, a) {
            Some(n) => type_link_objects().contains(n) && spec_scope_bit_name(Game::Vic3, b) == Some(n + "Type"@),
            None => false,
        } {
        let a = choose|a: u32|
            #![trigger spec_scope_bit_name(Game::Vic3, a)]
            a < 128 && has_bit(inscopes, a) && match spec_scope_bit_name(Game::Vic3, a) {
                Some(n) => type_link_objects().contains(n) && spec_scope_bit_name(Game::Vic3, b) == Some(n + "Type"@),
                None => false,
            };
        let n = spec_scope_bit_name(Game::Vic3, a)->0;
        let k = choose|k: int| 0 <= k < objs.len() && objs[k] == n;
        lemma_type_link_names_unique(a);
        lemma_type_link_names_unique(b);
        assert(0 <= k < 10);
    }
}

} // verus!

