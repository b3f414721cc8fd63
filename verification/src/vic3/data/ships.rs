//! Ship types, the groups they belong to, and the veterancy levels of ships.

use vstd::prelude::*;

use crate::block::{Block};
use crate::db::{spec_add_store, spec_db_insert, Db, DbEntryV};
use crate::item::Item;
use crate::report::errors::{Errors, MacroMap};
use crate::token::Token;
use crate::validator::{ScriptScope, 
    FieldRule, FieldRuleV, Validation, ValidationV, Check, Usage, nothing, then, refers, rules_view,
    strings_view, owned, rule, choice_rule, spec_rule, spec_choice_rule, spec_check_block, check_block,
    spec_nested_keyed, check_nested_keyed, suffixed,
};
use crate::vic3::data::DbItemKind;

verus! {

/// The types of ships.
#[derive(Clone, Copy, Debug)]
pub struct ShipType {}

/// The groups of ship types.
#[derive(Clone, Copy, Debug)]
pub struct ShipGroup {}

/// The veterancy levels of ships.
#[derive(Clone, Copy, Debug)]
pub struct ShipVeterancyLevel {}

/// The field rules of ship type definitions.
pub open spec fn spec_ship_type_rules() -> Seq<FieldRuleV> {
    seq![
        spec_rule("modifier"@, Check::Block, false),
        spec_rule("ship_group"@, Check::Item(Item::ShipGroup), false),
        spec_rule("construction_goods"@, Check::Block, false),
        spec_rule("materiel_goods"@, Check::Block, false),
        spec_rule("distance_to_port_modifier"@, Check::Block, false),
        spec_rule("unlocking_technologies"@, Check::ItemList(Item::Technology), false),
        spec_rule("use_modificaitons"@, Check::Bool, false),
        spec_rule("base_construction_cost"@, Check::Numeric, false),
        spec_rule("modification_construction_cost"@, Check::Numeric, false),
        spec_rule("combat_power_multiplier"@, Check::Numeric, false),
        spec_rule("icon"@, Check::Item(Item::File), false),
        spec_rule("ai_weight"@, Check::Script(ScriptScope::Own), false),
        spec_rule("modifications"@, Check::Block, true),
        spec_rule("default_modifications"@, Check::Block, true),
        spec_rule("can_be_flagship"@, Check::Bool, false),
        spec_rule("is_obsolete"@, Check::Script(ScriptScope::Own), false),
        spec_rule("is_very_obsolete"@, Check::Script(ScriptScope::Own), false),
        spec_rule("profile_texture"@, Check::Item(Item::File), false),
    ]
}

fn ship_type_rules() -> (res: Vec<FieldRule>)
    ensures
        rules_view(res@) == spec_ship_type_rules(),
{
    let mut res: Vec<FieldRule> = Vec::new();
    res.push(rule("modifier", Check::Block, false));
    res.push(rule("ship_group", Check::Item(Item::ShipGroup), false));
    res.push(rule("construction_goods", Check::Block, false));
    res.push(rule("materiel_goods", Check::Block, false));
    res.push(rule("distance_to_port_modifier", Check::Block, false));
    res.push(rule("unlocking_technologies", Check::ItemList(Item::Technology), false));
    res.push(rule("use_modificaitons", Check::Bool, false));
    res.push(rule("base_construction_cost", Check::Numeric, false));
    res.push(rule("modification_construction_cost", Check::Numeric, false));
    res.push(rule("combat_power_multiplier", Check::Numeric, false));
    res.push(rule("icon", Check::Item(Item::File), false));
    res.push(rule("ai_weight", Check::Script(ScriptScope::Own), false));
    res.push(rule("modifications", Check::Block, true));
    res.push(rule("default_modifications", Check::Block, true));
    res.push(rule("can_be_flagship", Check::Bool, false));
    res.push(rule("is_obsolete", Check::Script(ScriptScope::Own), false));
    res.push(rule("is_very_obsolete", Check::Script(ScriptScope::Own), false));
    res.push(rule("profile_texture", Check::Item(Item::File), false));
    assert(rules_view(res@) =~= spec_ship_type_rules());
    res
}

/// What checking a ship type finds.
pub open spec fn spec_ship_type_validation(key: Token, block: Block) -> ValidationV {
    let v = nothing();
    let v = then(v, refers(Item::Localization, key.s@, key.loc, Usage::Required));
    let v = then(v, refers(Item::Localization, key.s@ + "_desc"@, key.loc, Usage::Implied));
    let v = then(v, spec_check_block(spec_ship_type_rules(), block));
    let v = then(v, spec_nested_keyed(block.items@, "modifications"@, Item::ShipModificationSlot, Check::ItemList(Item::ShipModification)));
    let v = then(v, spec_nested_keyed(block.items@, "default_modifications"@, Item::ShipModificationSlot, Check::Item(Item::ShipModification)));
    v
}

impl ShipType {
    /// Adds a ship type to the database (see [`Db::add`]).
    pub fn add(db: &mut Db, key: Token, block: Block, errors: &mut Errors, map: &MacroMap)
        requires
            old(errors).wf(),
            map.wf(),
        ensures
            final(errors).wf(),
            final(db).view_entries() == spec_db_insert(
                old(db).view_entries(),
                DbEntryV { item: Item::ShipType, key: key.s@, loc: key.loc, block, kind: DbItemKind::ShipType },
            ),
            final(errors).store() == spec_add_store(
                old(db).view_entries(),
                *old(errors),
                map.locs@,
                DbEntryV { item: Item::ShipType, key: key.s@, loc: key.loc, block, kind: DbItemKind::ShipType },
                false,
            ),
    {
        db.add(Item::ShipType, key, block, DbItemKind::ShipType, errors, map);
    }

    /// Checks the definition of a ship type (see [`spec_ship_type_validation`]).
    pub fn validate(&self, key: &Token, block: &Block) -> (res: Validation)
        ensures
            res@ == spec_ship_type_validation(*key, *block),
    {
        let mut v = Validation::new();
        v.add_reference(Item::Localization, key.as_str(), key.loc, Usage::Required);
        v.add_reference_chars(Item::Localization, &suffixed(key, "_desc"), key.loc, Usage::Implied);
        check_block(&mut v, block, &ship_type_rules());
        check_nested_keyed(&mut v, block, "modifications", Item::ShipModificationSlot, Check::ItemList(Item::ShipModification));
        check_nested_keyed(&mut v, block, "default_modifications", Item::ShipModificationSlot, Check::Item(Item::ShipModification));
        v
    }
}

fn ship_group_rules_choices_3() -> (res: Vec<String>)
    ensures
        strings_view(res@) == seq!["capital_group"@, "cruiser_group"@, "torpedo_group"@, "supply"@],
{
    let mut res: Vec<String> = Vec::new();
    res.push(owned("capital_group"));
    res.push(owned("cruiser_group"));
    res.push(owned("torpedo_group"));
    res.push(owned("supply"));
    assert(strings_view(res@) =~= seq!["capital_group"@, "cruiser_group"@, "torpedo_group"@, "supply"@]);
    res
}

/// The field rules of ship group definitions.
pub open spec fn spec_ship_group_rules() -> Seq<FieldRuleV> {
    seq![
        spec_rule("icon"@, Check::Item(Item::File), false),
        spec_rule("color"@, Check::Block, false),
        spec_rule("ai_weight"@, Check::Script(ScriptScope::Own), false),
        spec_choice_rule("category"@, Check::Choice, seq!["capital_group"@, "cruiser_group"@, "torpedo_group"@, "supply"@]),
    ]
}

fn ship_group_rules() -> (res: Vec<FieldRule>)
    ensures
        rules_view(res@) == spec_ship_group_rules(),
{
    let mut res: Vec<FieldRule> = Vec::new();
    res.push(rule("icon", Check::Item(Item::File), false));
    res.push(rule("color", Check::Block, false));
    res.push(rule("ai_weight", Check::Script(ScriptScope::Own), false));
    res.push(choice_rule("category", Check::Choice, ship_group_rules_choices_3()));
    assert(rules_view(res@) =~= spec_ship_group_rules());
    res
}

/// What checking a ship group finds.
pub open spec fn spec_ship_group_validation(key: Token, block: Block) -> ValidationV {
    let v = nothing();
    let v = then(v, refers(Item::Localization, key.s@, key.loc, Usage::Required));
    let v = then(v, refers(Item::Localization, key.s@ + "_desc"@, key.loc, Usage::Implied));
    let v = then(v, spec_check_block(spec_ship_group_rules(), block));
    v
}

impl ShipGroup {
    /// Adds a ship group to the database (see [`Db::add`]).
    pub fn add(db: &mut Db, key: Token, block: Block, errors: &mut Errors, map: &MacroMap)
        requires
            old(errors).wf(),
            map.wf(),
        ensures
            final(errors).wf(),
            final(db).view_entries() == spec_db_insert(
                old(db).view_entries(),
                DbEntryV { item: Item::ShipGroup, key: key.s@, loc: key.loc, block, kind: DbItemKind::ShipGroup },
            ),
            final(errors).store() == spec_add_store(
                old(db).view_entries(),
                *old(errors),
                map.locs@,
                DbEntryV { item: Item::ShipGroup, key: key.s@, loc: key.loc, block, kind: DbItemKind::ShipGroup },
                false,
            ),
    {
        db.add(Item::ShipGroup, key, block, DbItemKind::ShipGroup, errors, map);
    }

    /// Checks the definition of a ship group (see [`spec_ship_group_validation`]).
    pub fn validate(&self, key: &Token, block: &Block) -> (res: Validation)
        ensures
            res@ == spec_ship_group_validation(*key, *block),
    {
        let mut v = Validation::new();
        v.add_reference(Item::Localization, key.as_str(), key.loc, Usage::Required);
        v.add_reference_chars(Item::Localization, &suffixed(key, "_desc"), key.loc, Usage::Implied);
        check_block(&mut v, block, &ship_group_rules());
        v
    }
}

/// The field rules of ship veterancy level definitions.
pub open spec fn spec_ship_veterancy_level_rules() -> Seq<FieldRuleV> {
    seq![
        spec_rule("icon"@, Check::Item(Item::File), false),
        spec_rule("experience_threshold"@, Check::Numeric, false),
        spec_rule("modifier"@, Check::Block, false),
    ]
}

fn ship_veterancy_level_rules() -> (res: Vec<FieldRule>)
    ensures
        rules_view(res@) == spec_ship_veterancy_level_rules(),
{
    let mut res: Vec<FieldRule> = Vec::new();
    res.push(rule("icon", Check::Item(Item::File), false));
    res.push(rule("experience_threshold", Check::Numeric, false));
    res.push(rule("modifier", Check::Block, false));
    assert(rules_view(res@) =~= spec_ship_veterancy_level_rules());
    res
}

/// What checking a ship veterancy level finds.
pub open spec fn spec_ship_veterancy_level_validation(key: Token, block: Block) -> ValidationV {
    let v = nothing();
    let v = then(v, refers(Item::Localization, key.s@, key.loc, Usage::Required));
    let v = then(v, spec_check_block(spec_ship_veterancy_level_rules(), block));
    v
}

impl ShipVeterancyLevel {
    /// Adds a ship veterancy level to the database (see [`Db::add`]).
    pub fn add(db: &mut Db, key: Token, block: Block, errors: &mut Errors, map: &MacroMap)
        requires
            old(errors).wf(),
            map.wf(),
        ensures
            final(errors).wf(),
            final(db).view_entries() == spec_db_insert(
                old(db).view_entries(),
                DbEntryV { item: Item::ShipVeterancyLevel, key: key.s@, loc: key.loc, block, kind: DbItemKind::ShipVeterancyLevel },
            ),
            final(errors).store() == spec_add_store(
                old(db).view_entries(),
                *old(errors),
                map.locs@,
                DbEntryV { item: Item::ShipVeterancyLevel, key: key.s@, loc: key.loc, block, kind: DbItemKind::ShipVeterancyLevel },
                false,
            ),
    {
        db.add(Item::ShipVeterancyLevel, key, block, DbItemKind::ShipVeterancyLevel, errors, map);
    }

    /// Checks the definition of a ship veterancy level (see [`spec_ship_veterancy_level_validation`]).
    pub fn validate(&self, key: &Token, block: &Block) -> (res: Validation)
        ensures
            res@ == spec_ship_veterancy_level_validation(*key, *block),
    {
        let mut v = Validation::new();
        v.add_reference(Item::Localization, key.as_str(), key.loc, Usage::Required);
        check_block(&mut v, block, &ship_veterancy_level_rules());
        v
    }
}

} // verus!
