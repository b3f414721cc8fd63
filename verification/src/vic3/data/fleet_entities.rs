//! The 3D entities of fleets and their ships.

use vstd::prelude::*;

use crate::block::{Block};
use crate::db::{spec_add_store, spec_db_insert, Db, DbEntryV};
use crate::item::Item;
use crate::report::errors::{Errors, MacroMap};
use crate::token::Token;
use crate::validator::{ScriptScope, 
    FieldRule, FieldRuleV, Validation, ValidationV, Check, Usage, nothing, then, refers, rules_view,
    strings_view, owned, rule, choice_rule, spec_rule, spec_choice_rule, spec_check_block, check_block,
    spec_nested, check_nested, spec_nested_rows, check_nested_rows, spec_nested_twice, check_nested_twice,
};
use crate::vic3::data::DbItemKind;
use crate::vic3::validate::{spec_locators, validate_locators};

verus! {

/// The fleet entities.
#[derive(Clone, Copy, Debug)]
pub struct FleetEntity {}

fn fleet_entity_rules_choices_2() -> (res: Vec<String>)
    ensures
        strings_view(res@) == seq!["none"@, "cannon"@, "turret"@, "torpedo"@],
{
    let mut res: Vec<String> = Vec::new();
    res.push(owned("none"));
    res.push(owned("cannon"));
    res.push(owned("turret"));
    res.push(owned("torpedo"));
    assert(strings_view(res@) =~= seq!["none"@, "cannon"@, "turret"@, "torpedo"@]);
    res
}

fn fleet_entity_rules_choices_4() -> (res: Vec<String>)
    ensures
        strings_view(res@) == seq!["wood"@, "steel"@],
{
    let mut res: Vec<String> = Vec::new();
    res.push(owned("wood"));
    res.push(owned("steel"));
    assert(strings_view(res@) =~= seq!["wood"@, "steel"@]);
    res
}

/// The field rules of fleet entity definitions.
pub open spec fn spec_fleet_entity_rules() -> Seq<FieldRuleV> {
    seq![
        spec_rule("default"@, Check::Bool, false),
        spec_rule("trigger"@, Check::Script(ScriptScope::Own), false),
        spec_choice_rule("weapon_type"@, Check::Choice, seq!["none"@, "cannon"@, "turret"@, "torpedo"@]),
        spec_rule("weapon_fire_interval"@, Check::Numeric, false),
        spec_choice_rule("hull_type"@, Check::Choice, seq!["wood"@, "steel"@]),
        spec_rule("motion_intensity"@, Check::Numeric, false),
        spec_rule("length"@, Check::Numeric, false),
        spec_rule("entity"@, Check::Item(Item::Entity), false),
        spec_rule("locator"@, Check::Block, true),
        spec_rule("vfx_entity"@, Check::Block, true),
        spec_rule("damage_decal_positions"@, Check::Block, false),
        spec_rule("modification"@, Check::Block, true),
        spec_rule("attach"@, Check::Block, true),
    ]
}

fn fleet_entity_rules() -> (res: Vec<FieldRule>)
    ensures
        rules_view(res@) == spec_fleet_entity_rules(),
{
    let mut res: Vec<FieldRule> = Vec::new();
    res.push(rule("default", Check::Bool, false));
    res.push(rule("trigger", Check::Script(ScriptScope::Own), false));
    res.push(choice_rule("weapon_type", Check::Choice, fleet_entity_rules_choices_2()));
    res.push(rule("weapon_fire_interval", Check::Numeric, false));
    res.push(choice_rule("hull_type", Check::Choice, fleet_entity_rules_choices_4()));
    res.push(rule("motion_intensity", Check::Numeric, false));
    res.push(rule("length", Check::Numeric, false));
    res.push(rule("entity", Check::Item(Item::Entity), false));
    res.push(rule("locator", Check::Block, true));
    res.push(rule("vfx_entity", Check::Block, true));
    res.push(rule("damage_decal_positions", Check::Block, false));
    res.push(rule("modification", Check::Block, true));
    res.push(rule("attach", Check::Block, true));
    assert(rules_view(res@) =~= spec_fleet_entity_rules());
    res
}

/// The field rules of a `vfx_entity` block of a fleet entity.
pub open spec fn spec_fleet_entity_vfx_rules() -> Seq<FieldRuleV> {
    seq![
        spec_rule("entity"@, Check::Item(Item::Entity), false),
        spec_rule("attach"@, Check::Bool, false),
        spec_rule("locator"@, Check::Value, false),
    ]
}

fn fleet_entity_vfx_rules() -> (res: Vec<FieldRule>)
    ensures
        rules_view(res@) == spec_fleet_entity_vfx_rules(),
{
    let mut res: Vec<FieldRule> = Vec::new();
    res.push(rule("entity", Check::Item(Item::Entity), false));
    res.push(rule("attach", Check::Bool, false));
    res.push(rule("locator", Check::Value, false));
    assert(rules_view(res@) =~= spec_fleet_entity_vfx_rules());
    res
}

/// The field rules of a `modification` block of a fleet entity.
pub open spec fn spec_fleet_entity_modification_rules() -> Seq<FieldRuleV> {
    seq![
        spec_rule("name"@, Check::Value, false),
        spec_rule("slot_type"@, Check::Item(Item::ShipModificationSlot), false),
        spec_rule("entity"@, Check::Item(Item::Entity), true),
    ]
}

fn fleet_entity_modification_rules() -> (res: Vec<FieldRule>)
    ensures
        rules_view(res@) == spec_fleet_entity_modification_rules(),
{
    let mut res: Vec<FieldRule> = Vec::new();
    res.push(rule("name", Check::Value, false));
    res.push(rule("slot_type", Check::Item(Item::ShipModificationSlot), false));
    res.push(rule("entity", Check::Item(Item::Entity), true));
    assert(rules_view(res@) =~= spec_fleet_entity_modification_rules());
    res
}

/// The field rules of an `attach` block of a fleet entity.
pub open spec fn spec_fleet_entity_attach_rules() -> Seq<FieldRuleV> {
    seq![
        spec_rule("locator"@, Check::Value, false),
        spec_rule("slot_type"@, Check::Item(Item::ShipModificationSlot), false),
        spec_rule("modification"@, Check::Block, true),
    ]
}

fn fleet_entity_attach_rules() -> (res: Vec<FieldRule>)
    ensures
        rules_view(res@) == spec_fleet_entity_attach_rules(),
{
    let mut res: Vec<FieldRule> = Vec::new();
    res.push(rule("locator", Check::Value, false));
    res.push(rule("slot_type", Check::Item(Item::ShipModificationSlot), false));
    res.push(rule("modification", Check::Block, true));
    assert(rules_view(res@) =~= spec_fleet_entity_attach_rules());
    res
}

/// The field rules of a `modification` block inside an `attach` block of a fleet entity.
pub open spec fn spec_fleet_entity_attach_modification_rules() -> Seq<FieldRuleV> {
    seq![
        spec_rule("name"@, Check::Value, false),
        spec_rule("entity"@, Check::Item(Item::Entity), false),
        spec_rule("disabled"@, Check::Bool, false),
        spec_rule("fire_angle"@, Check::Numeric, false),
    ]
}

fn fleet_entity_attach_modification_rules() -> (res: Vec<FieldRule>)
    ensures
        rules_view(res@) == spec_fleet_entity_attach_modification_rules(),
{
    let mut res: Vec<FieldRule> = Vec::new();
    res.push(rule("name", Check::Value, false));
    res.push(rule("entity", Check::Item(Item::Entity), false));
    res.push(rule("disabled", Check::Bool, false));
    res.push(rule("fire_angle", Check::Numeric, false));
    assert(rules_view(res@) =~= spec_fleet_entity_attach_modification_rules());
    res
}

/// What checking a fleet entity finds.
pub open spec fn spec_fleet_entity_validation(key: Token, block: Block) -> ValidationV {
    let v = nothing();
    let v = then(v, refers(Item::ShipType, key.s@, key.loc, Usage::Required));
    let v = then(v, spec_check_block(spec_fleet_entity_rules(), block));
    let v = then(v, spec_locators(block.items@).0);
    let v = then(v, spec_nested(block.items@, "vfx_entity"@, spec_fleet_entity_vfx_rules()));
    let v = then(v, spec_nested_rows(block.items@, "damage_decal_positions"@, 4));
    let v = then(v, spec_nested(block.items@, "modification"@, spec_fleet_entity_modification_rules()));
    let v = then(v, spec_nested_twice(block.items@, "attach"@, spec_fleet_entity_attach_rules(), "modification"@, spec_fleet_entity_attach_modification_rules()));
    v
}

impl FleetEntity {
    /// Adds a fleet entity to the database (see [`Db::add`]).
    pub fn add(db: &mut Db, key: Token, block: Block, errors: &mut Errors, map: &MacroMap)
        requires
            old(errors).wf(),
            map.wf(),
        ensures
            final(errors).wf(),
            final(db).view_entries() == spec_db_insert(
                old(db).view_entries(),
                DbEntryV { item: Item::FleetEntity, key: key.s@, loc: key.loc, block, kind: DbItemKind::FleetEntity },
            ),
            final(errors).store() == spec_add_store(
                old(db).view_entries(),
                *old(errors),
                map.locs@,
                DbEntryV { item: Item::FleetEntity, key: key.s@, loc: key.loc, block, kind: DbItemKind::FleetEntity },
                false,
            ),
    {
        db.add(Item::FleetEntity, key, block, DbItemKind::FleetEntity, errors, map);
    }

    /// Checks the definition of a fleet entity (see [`spec_fleet_entity_validation`]).
    pub fn validate(&self, key: &Token, block: &Block) -> (res: Validation)
        ensures
            res@ == spec_fleet_entity_validation(*key, *block),
    {
        let mut v = Validation::new();
        v.add_reference(Item::ShipType, key.as_str(), key.loc, Usage::Required);
        check_block(&mut v, block, &fleet_entity_rules());
        let _names = validate_locators(&mut v, block);
        check_nested(&mut v, block, "vfx_entity", &fleet_entity_vfx_rules());
        check_nested_rows(&mut v, block, "damage_decal_positions", 4);
        check_nested(&mut v, block, "modification", &fleet_entity_modification_rules());
        check_nested_twice(&mut v, block, "attach", &fleet_entity_attach_rules(), "modification", &fleet_entity_attach_modification_rules());
        v
    }
}

} // verus!
