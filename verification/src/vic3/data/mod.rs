//! The Victoria 3 item types defined in `common/` script files.

pub mod ai_stances;
pub mod battle_conditions;
pub mod interest_tiers;
pub mod naval_missions;
pub mod ship_modifications;
pub mod ship_names;
pub mod straits;
pub mod ships;
pub mod state_regions;
pub mod character_roles;
pub mod journalentries;
pub mod dioramas;
pub mod fleet_entities;

use vstd::prelude::*;

use crate::block::Block;
use crate::db::{spec_add_store, spec_db_insert, Db, DbEntryV};
use crate::game::Game;
use crate::item::{GameFlags, Item, ItemLoader};
use crate::report::errors::{Errors, MacroMap};
use crate::token::Token;
use crate::validator::{Validation, ValidationV};
use self::journalentries::spec_group_has_property;
use self::ai_stances::{spec_ai_strategic_region_stance_type_validation, AiStrategicRegionStanceType};
use self::battle_conditions::{spec_battle_condition_validation, BattleCondition};
use self::battle_conditions::{spec_naval_battle_condition_validation, NavalBattleCondition};
use self::character_roles::{spec_character_role_validation, CharacterRole};
use self::dioramas::{spec_army_diorama_validation, ArmyDiorama};
use self::dioramas::{spec_fleet_diorama_validation, FleetDiorama};
use self::fleet_entities::{spec_fleet_entity_validation, FleetEntity};
use self::interest_tiers::{spec_interest_tier_type_validation, InterestTierType};
use self::journalentries::{spec_journal_entry_validation, JournalEntry};
use self::journalentries::{spec_journal_entry_group_validation, JournalEntryGroup};
use self::naval_missions::{spec_naval_mission_type_validation, NavalMissionType};
use self::ship_modifications::{spec_ship_modification_validation, ShipModification};
use self::ship_modifications::{spec_ship_modification_slot_validation, ShipModificationSlot};
use self::ship_names::{spec_ship_name_definition_validation, ShipNameDefinition};
use self::ships::{spec_ship_type_validation, ShipType};
use self::ships::{spec_ship_group_validation, ShipGroup};
use self::ships::{spec_ship_veterancy_level_validation, ShipVeterancyLevel};
use self::state_regions::{spec_state_region_validation, StateRegion};
use self::straits::{spec_strait_definition_validation, StraitDefinition};

verus! {

/// What kind of item a database entry is.
#[derive(Clone, Copy, Debug, PartialEq, Eq, Structural)]
pub enum DbItemKind {
    AiStrategicRegionStanceType,
    BattleCondition,
    NavalBattleCondition,
    CharacterRole,
    ArmyDiorama,
    FleetDiorama,
    FleetEntity,
    InterestTierType,
    JournalEntry,
    JournalEntryGroup,
    NavalMissionType,
    ShipModification,
    ShipModificationSlot,
    ShipNameDefinition,
    ShipType,
    ShipGroup,
    ShipVeterancyLevel,
    StateRegion,
    StraitDefinition,
}

impl DbItemKind {
    /// What checking the definition of an item of this kind finds.
    pub open spec fn spec_validation(self, key: Token, block: Block) -> ValidationV {
        match self {
            DbItemKind::AiStrategicRegionStanceType => spec_ai_strategic_region_stance_type_validation(key, block),
            DbItemKind::BattleCondition => spec_battle_condition_validation(key, block),
            DbItemKind::NavalBattleCondition => spec_naval_battle_condition_validation(key, block),
            DbItemKind::CharacterRole => spec_character_role_validation(key, block),
            DbItemKind::ArmyDiorama => spec_army_diorama_validation(key, block),
            DbItemKind::FleetDiorama => spec_fleet_diorama_validation(key, block),
            DbItemKind::FleetEntity => spec_fleet_entity_validation(key, block),
            DbItemKind::InterestTierType => spec_interest_tier_type_validation(key, block),
            DbItemKind::JournalEntry => spec_journal_entry_validation(key, block),
            DbItemKind::JournalEntryGroup => spec_journal_entry_group_validation(key, block),
            DbItemKind::NavalMissionType => spec_naval_mission_type_validation(key, block),
            DbItemKind::ShipModification => spec_ship_modification_validation(key, block),
            DbItemKind::ShipModificationSlot => spec_ship_modification_slot_validation(key, block),
            DbItemKind::ShipNameDefinition => spec_ship_name_definition_validation(key, block),
            DbItemKind::ShipType => spec_ship_type_validation(key, block),
            DbItemKind::ShipGroup => spec_ship_group_validation(key, block),
            DbItemKind::ShipVeterancyLevel => spec_ship_veterancy_level_validation(key, block),
            DbItemKind::StateRegion => spec_state_region_validation(key, block),
            DbItemKind::StraitDefinition => spec_strait_definition_validation(key, block),
        }
    }

    /// Checks the definition of an item of this kind.
    pub fn validate(self, key: &Token, block: &Block) -> (res: Validation)
        ensures
            res@ == self.spec_validation(*key, *block),
    {
        match self {
            DbItemKind::AiStrategicRegionStanceType => AiStrategicRegionStanceType {}.validate(key, block),
            DbItemKind::BattleCondition => BattleCondition {}.validate(key, block),
            DbItemKind::NavalBattleCondition => NavalBattleCondition {}.validate(key, block),
            DbItemKind::CharacterRole => CharacterRole {}.validate(key, block),
            DbItemKind::ArmyDiorama => ArmyDiorama {}.validate(key, block),
            DbItemKind::FleetDiorama => FleetDiorama {}.validate(key, block),
            DbItemKind::FleetEntity => FleetEntity {}.validate(key, block),
            DbItemKind::InterestTierType => InterestTierType {}.validate(key, block),
            DbItemKind::JournalEntry => JournalEntry {}.validate(key, block),
            DbItemKind::JournalEntryGroup => JournalEntryGroup {}.validate(key, block),
            DbItemKind::NavalMissionType => NavalMissionType {}.validate(key, block),
            DbItemKind::ShipModification => ShipModification {}.validate(key, block),
            DbItemKind::ShipModificationSlot => ShipModificationSlot {}.validate(key, block),
            DbItemKind::ShipNameDefinition => ShipNameDefinition {}.validate(key, block),
            DbItemKind::ShipType => ShipType {}.validate(key, block),
            DbItemKind::ShipGroup => ShipGroup {}.validate(key, block),
            DbItemKind::ShipVeterancyLevel => ShipVeterancyLevel {}.validate(key, block),
            DbItemKind::StateRegion => StateRegion {}.validate(key, block),
            DbItemKind::StraitDefinition => StraitDefinition {}.validate(key, block),
        }
    }

    /// Whether an item of this kind with this block has the property; only
    /// journal entry groups have one.
    pub open spec fn spec_has_property(self, block: Block, property: Seq<char>) -> bool {
        match self {
            DbItemKind::JournalEntryGroup => spec_group_has_property(block, property),
            _ => false,
        }
    }

    /// Whether an item of this kind with this block has the property.
    pub fn has_property(self, block: &Block, property: &str) -> (res: bool)
        ensures
            res == self.spec_has_property(*block, property@),
    {
        match self {
            DbItemKind::JournalEntryGroup => JournalEntryGroup {}.has_property(block, property),
            _ => false,
        }
    }
}

impl DbItemKind {
    /// The item type that entries of this kind are stored under.
    pub open spec fn item(self) -> Item {
        match self {
            DbItemKind::AiStrategicRegionStanceType => Item::AiStrategicRegionStanceType,
            DbItemKind::BattleCondition => Item::BattleCondition,
            DbItemKind::NavalBattleCondition => Item::NavalBattleCondition,
            DbItemKind::CharacterRole => Item::CharacterRole,
            DbItemKind::ArmyDiorama => Item::ArmyDiorama,
            DbItemKind::FleetDiorama => Item::FleetDiorama,
            DbItemKind::FleetEntity => Item::FleetEntity,
            DbItemKind::InterestTierType => Item::InterestTierType,
            DbItemKind::JournalEntry => Item::JournalEntry,
            DbItemKind::JournalEntryGroup => Item::JournalEntryGroup,
            DbItemKind::NavalMissionType => Item::NavalMissionType,
            DbItemKind::ShipModification => Item::ShipModification,
            DbItemKind::ShipModificationSlot => Item::ShipModificationSlot,
            DbItemKind::ShipNameDefinition => Item::ShipNameDefinition,
            DbItemKind::ShipType => Item::ShipType,
            DbItemKind::ShipGroup => Item::ShipGroup,
            DbItemKind::ShipVeterancyLevel => Item::ShipVeterancyLevel,
            DbItemKind::StateRegion => Item::StateRegion,
            DbItemKind::StraitDefinition => Item::StraitDefinition,
        }
    }

    /// Whether redefining an item of this kind with an equivalent block is
    /// not warned about.
    pub open spec fn exact_dup_ok(self) -> bool {
        self is BattleCondition || self is NavalBattleCondition
    }

    /// The database entry that adding `key` and `block` as this kind makes.
    pub open spec fn entry(self, key: Token, block: Block) -> DbEntryV {
        DbEntryV { item: self.item(), key: key.s@, loc: key.loc, block, kind: self }
    }

    /// Adds a definition of an item of this kind to the database, as the
    /// kind's own `add` does.
    pub fn add(self, db: &mut Db, key: Token, block: Block, errors: &mut Errors, map: &MacroMap)
        requires
            old(errors).wf(),
            map.wf(),
        ensures
            final(errors).wf(),
            final(db).view_entries() == spec_db_insert(old(db).view_entries(), self.entry(key, block)),
            final(errors).store() == spec_add_store(
                old(db).view_entries(),
                *old(errors),
                map.locs@,
                self.entry(key, block),
                self.exact_dup_ok(),
            ),
    {
        match self {
            DbItemKind::AiStrategicRegionStanceType => AiStrategicRegionStanceType::add(db, key, block, errors, map),
            DbItemKind::BattleCondition => BattleCondition::add(db, key, block, errors, map),
            DbItemKind::NavalBattleCondition => NavalBattleCondition::add(db, key, block, errors, map),
            DbItemKind::CharacterRole => CharacterRole::add(db, key, block, errors, map),
            DbItemKind::ArmyDiorama => ArmyDiorama::add(db, key, block, errors, map),
            DbItemKind::FleetDiorama => FleetDiorama::add(db, key, block, errors, map),
            DbItemKind::FleetEntity => FleetEntity::add(db, key, block, errors, map),
            DbItemKind::InterestTierType => InterestTierType::add(db, key, block, errors, map),
            DbItemKind::JournalEntry => JournalEntry::add(db, key, block, errors, map),
            DbItemKind::JournalEntryGroup => JournalEntryGroup::add(db, key, block, errors, map),
            DbItemKind::NavalMissionType => NavalMissionType::add(db, key, block, errors, map),
            DbItemKind::ShipModification => ShipModification::add(db, key, block, errors, map),
            DbItemKind::ShipModificationSlot => ShipModificationSlot::add(db, key, block, errors, map),
            DbItemKind::ShipNameDefinition => ShipNameDefinition::add(db, key, block, errors, map),
            DbItemKind::ShipType => ShipType::add(db, key, block, errors, map),
            DbItemKind::ShipGroup => ShipGroup::add(db, key, block, errors, map),
            DbItemKind::ShipVeterancyLevel => ShipVeterancyLevel::add(db, key, block, errors, map),
            DbItemKind::StateRegion => StateRegion::add(db, key, block, errors, map),
            DbItemKind::StraitDefinition => StraitDefinition::add(db, key, block, errors, map),
        }
    }
}

/// The Victoria 3 item loaders, in the order their modules register them.
pub open spec fn spec_item_loaders() -> Seq<ItemLoader> {
    let vic3 = GameFlags { vic3: true, hoi4: false };
    seq![
        ItemLoader::Normal(vic3, Item::ArmyDiorama, DbItemKind::ArmyDiorama),
        ItemLoader::Normal(vic3, Item::FleetDiorama, DbItemKind::FleetDiorama),
        ItemLoader::Normal(vic3, Item::AiStrategicRegionStanceType, DbItemKind::AiStrategicRegionStanceType),
        ItemLoader::Normal(vic3, Item::JournalEntry, DbItemKind::JournalEntry),
        ItemLoader::Normal(vic3, Item::JournalEntryGroup, DbItemKind::JournalEntryGroup),
        ItemLoader::Normal(vic3, Item::ShipNameDefinition, DbItemKind::ShipNameDefinition),
        ItemLoader::Normal(vic3, Item::InterestTierType, DbItemKind::InterestTierType),
        ItemLoader::Normal(vic3, Item::FleetEntity, DbItemKind::FleetEntity),
        ItemLoader::Normal(vic3, Item::NavalMissionType, DbItemKind::NavalMissionType),
        ItemLoader::Normal(vic3, Item::StateRegion, DbItemKind::StateRegion),
        ItemLoader::Normal(vic3, Item::StraitDefinition, DbItemKind::StraitDefinition),
        ItemLoader::Normal(vic3, Item::ShipType, DbItemKind::ShipType),
        ItemLoader::Normal(vic3, Item::ShipGroup, DbItemKind::ShipGroup),
        ItemLoader::Normal(vic3, Item::ShipVeterancyLevel, DbItemKind::ShipVeterancyLevel),
        ItemLoader::Normal(vic3, Item::BattleCondition, DbItemKind::BattleCondition),
        ItemLoader::Normal(vic3, Item::NavalBattleCondition, DbItemKind::NavalBattleCondition),
        ItemLoader::Normal(vic3, Item::CharacterRole, DbItemKind::CharacterRole),
        ItemLoader::Normal(vic3, Item::ShipModification, DbItemKind::ShipModification),
        ItemLoader::Normal(vic3, Item::ShipModificationSlot, DbItemKind::ShipModificationSlot),
    ]
}

/// The item loaders of the Victoria 3 item types defined here (see
/// [`spec_item_loaders`]).
pub fn item_loaders() -> (res: Vec<ItemLoader>)
    ensures
        res@ == spec_item_loaders(),
{
    let vic3 = GameFlags::from_game(Game::Vic3);
    assert(vic3.has(Game::Vic3) && !vic3.has(Game::Hoi4));
    let mut res: Vec<ItemLoader> = Vec::new();
    res.push(ItemLoader::Normal(vic3, Item::ArmyDiorama, DbItemKind::ArmyDiorama));
    res.push(ItemLoader::Normal(vic3, Item::FleetDiorama, DbItemKind::FleetDiorama));
    res.push(ItemLoader::Normal(vic3, Item::AiStrategicRegionStanceType, DbItemKind::AiStrategicRegionStanceType));
    res.push(ItemLoader::Normal(vic3, Item::JournalEntry, DbItemKind::JournalEntry));
    res.push(ItemLoader::Normal(vic3, Item::JournalEntryGroup, DbItemKind::JournalEntryGroup));
    res.push(ItemLoader::Normal(vic3, Item::ShipNameDefinition, DbItemKind::ShipNameDefinition));
    res.push(ItemLoader::Normal(vic3, Item::InterestTierType, DbItemKind::InterestTierType));
    res.push(ItemLoader::Normal(vic3, Item::FleetEntity, DbItemKind::FleetEntity));
    res.push(ItemLoader::Normal(vic3, Item::NavalMissionType, DbItemKind::NavalMissionType));
    res.push(ItemLoader::Normal(vic3, Item::StateRegion, DbItemKind::StateRegion));
    res.push(ItemLoader::Normal(vic3, Item::StraitDefinition, DbItemKind::StraitDefinition));
    res.push(ItemLoader::Normal(vic3, Item::ShipType, DbItemKind::ShipType));
    res.push(ItemLoader::Normal(vic3, Item::ShipGroup, DbItemKind::ShipGroup));
    res.push(ItemLoader::Normal(vic3, Item::ShipVeterancyLevel, DbItemKind::ShipVeterancyLevel));
    res.push(ItemLoader::Normal(vic3, Item::BattleCondition, DbItemKind::BattleCondition));
    res.push(ItemLoader::Normal(vic3, Item::NavalBattleCondition, DbItemKind::NavalBattleCondition));
    res.push(ItemLoader::Normal(vic3, Item::CharacterRole, DbItemKind::CharacterRole));
    res.push(ItemLoader::Normal(vic3, Item::ShipModification, DbItemKind::ShipModification));
    res.push(ItemLoader::Normal(vic3, Item::ShipModificationSlot, DbItemKind::ShipModificationSlot));
    assert(res@ =~= spec_item_loaders());
    res
}

} // verus!
