//! State regions: the map regions that states are made of.

use vstd::prelude::*;

use crate::block::{Block};
use crate::db::{spec_add_store, spec_db_insert, Db, DbEntryV};
use crate::item::Item;
use crate::report::errors::{Errors, MacroMap};
use crate::token::Token;
use crate::validator::{
    FieldRule, FieldRuleV, Validation, ValidationV, Check, Usage, nothing, then, refers, rules_view, rule,
    required_rule, spec_rule, spec_required_rule, spec_check_block, check_block, spec_nested, check_nested,
    spec_nested_keyed, check_nested_keyed, field_seen, has_field, wrapped, lemma_then_nothing,
};
use crate::vic3::data::DbItemKind;

verus! {

/// The state regions.
#[derive(Clone, Copy, Debug)]
pub struct StateRegion {}

/// The field rules of state region definitions.
pub open spec fn spec_state_region_rules() -> Seq<FieldRuleV> {
    seq![
        spec_required_rule("id"@, Check::Integer),
        spec_required_rule("provinces"@, Check::ItemList(Item::Province)),
        spec_rule("subsistence_building"@, Check::Item(Item::BuildingType), false),
        spec_rule("graphical_culture"@, Check::Item(Item::Culture), false),
        spec_rule("city"@, Check::Item(Item::Province), false),
        spec_rule("port"@, Check::Item(Item::Province), false),
        spec_rule("mine"@, Check::Item(Item::Province), false),
        spec_rule("farm"@, Check::Item(Item::Province), false),
        spec_rule("wood"@, Check::Item(Item::Province), false),
        spec_rule("arable_land"@, Check::Integer, false),
        spec_rule("arable_resources"@, Check::ItemList(Item::BuildingType), false),
        spec_rule("capped_resources"@, Check::Block, false),
        spec_rule("resource"@, Check::Block, true),
        spec_rule("traits"@, Check::ItemList(Item::StateTrait), true),
        spec_rule("naval_exit_id"@, Check::Value, false),
        spec_rule("impassable"@, Check::ItemList(Item::Province), false),
        spec_rule("prime_land"@, Check::ItemList(Item::Province), false),
        spec_rule("center_province"@, Check::Item(Item::Province), false),
        spec_rule("blockade_locator"@, Check::Block, false),
        spec_rule("diorama_radius_multiplier"@, Check::Numeric, false),
        spec_rule("diorama_center_offset"@, Check::NumericList(2), false),
    ]
}

fn state_region_rules() -> (res: Vec<FieldRule>)
    ensures
        rules_view(res@) == spec_state_region_rules(),
{
    let mut res: Vec<FieldRule> = Vec::new();
    res.push(required_rule("id", Check::Integer));
    res.push(required_rule("provinces", Check::ItemList(Item::Province)));
    res.push(rule("subsistence_building", Check::Item(Item::BuildingType), false));
    res.push(rule("graphical_culture", Check::Item(Item::Culture), false));
    res.push(rule("city", Check::Item(Item::Province), false));
    res.push(rule("port", Check::Item(Item::Province), false));
    res.push(rule("mine", Check::Item(Item::Province), false));
    res.push(rule("farm", Check::Item(Item::Province), false));
    res.push(rule("wood", Check::Item(Item::Province), false));
    res.push(rule("arable_land", Check::Integer, false));
    res.push(rule("arable_resources", Check::ItemList(Item::BuildingType), false));
    res.push(rule("capped_resources", Check::Block, false));
    res.push(rule("resource", Check::Block, true));
    res.push(rule("traits", Check::ItemList(Item::StateTrait), true));
    res.push(rule("naval_exit_id", Check::Value, false));
    res.push(rule("impassable", Check::ItemList(Item::Province), false));
    res.push(rule("prime_land", Check::ItemList(Item::Province), false));
    res.push(rule("center_province", Check::Item(Item::Province), false));
    res.push(rule("blockade_locator", Check::Block, false));
    res.push(rule("diorama_radius_multiplier", Check::Numeric, false));
    res.push(rule("diorama_center_offset", Check::NumericList(2), false));
    assert(rules_view(res@) =~= spec_state_region_rules());
    res
}

/// The field rules of a `resource` block of a state region.
pub open spec fn spec_state_region_resource_rules() -> Seq<FieldRuleV> {
    seq![
        spec_required_rule("type"@, Check::Item(Item::BuildingType)),
        spec_rule("depleted_type"@, Check::Item(Item::BuildingType), false),
        spec_rule("amount"@, Check::Integer, false),
        spec_rule("undiscovered_amount"@, Check::Integer, false),
        spec_rule("discovered_amount"@, Check::Integer, false),
        spec_rule("depleted_amount"@, Check::Integer, false),
        spec_rule("discover_chance_mult"@, Check::Numeric, false),
        spec_rule("deplete_chance_mult"@, Check::Numeric, false),
    ]
}

fn state_region_resource_rules() -> (res: Vec<FieldRule>)
    ensures
        rules_view(res@) == spec_state_region_resource_rules(),
{
    let mut res: Vec<FieldRule> = Vec::new();
    res.push(required_rule("type", Check::Item(Item::BuildingType)));
    res.push(rule("depleted_type", Check::Item(Item::BuildingType), false));
    res.push(rule("amount", Check::Integer, false));
    res.push(rule("undiscovered_amount", Check::Integer, false));
    res.push(rule("discovered_amount", Check::Integer, false));
    res.push(rule("depleted_amount", Check::Integer, false));
    res.push(rule("discover_chance_mult", Check::Numeric, false));
    res.push(rule("deplete_chance_mult", Check::Numeric, false));
    assert(rules_view(res@) =~= spec_state_region_resource_rules());
    res
}

/// The field rules of the `blockade_locator` block of a state region.
pub open spec fn spec_state_region_blockade_locator_rules() -> Seq<FieldRuleV> {
    seq![
        spec_rule("position"@, Check::NumericList(3), false),
        spec_rule("yaw"@, Check::Numeric, false),
    ]
}

fn state_region_blockade_locator_rules() -> (res: Vec<FieldRule>)
    ensures
        rules_view(res@) == spec_state_region_blockade_locator_rules(),
{
    let mut res: Vec<FieldRule> = Vec::new();
    res.push(rule("position", Check::NumericList(3), false));
    res.push(rule("yaw", Check::Numeric, false));
    assert(rules_view(res@) =~= spec_state_region_blockade_locator_rules());
    res
}

/// What checking a state region finds.
pub open spec fn spec_state_region_validation(key: Token, block: Block) -> ValidationV {
    let v = nothing();
    let v = then(v, refers(Item::Localization, key.s@, key.loc, Usage::Required));
    let v = then(v, spec_check_block(spec_state_region_rules(), block));
    let v = then(v, if field_seen(block.items@, "city"@) { refers(Item::Localization, "HUB_NAME_"@ + key.s@ + "_city"@, key.loc, Usage::Implied) } else { nothing() });
    let v = then(v, if field_seen(block.items@, "port"@) { refers(Item::Localization, "HUB_NAME_"@ + key.s@ + "_port"@, key.loc, Usage::Implied) } else { nothing() });
    let v = then(v, if field_seen(block.items@, "mine"@) { refers(Item::Localization, "HUB_NAME_"@ + key.s@ + "_mine"@, key.loc, Usage::Implied) } else { nothing() });
    let v = then(v, if field_seen(block.items@, "farm"@) { refers(Item::Localization, "HUB_NAME_"@ + key.s@ + "_farm"@, key.loc, Usage::Implied) } else { nothing() });
    let v = then(v, if field_seen(block.items@, "wood"@) { refers(Item::Localization, "HUB_NAME_"@ + key.s@ + "_wood"@, key.loc, Usage::Implied) } else { nothing() });
    let v = then(v, spec_nested_keyed(block.items@, "capped_resources"@, Item::BuildingType, Check::Integer));
    let v = then(v, spec_nested(block.items@, "resource"@, spec_state_region_resource_rules()));
    let v = then(v, spec_nested(block.items@, "blockade_locator"@, spec_state_region_blockade_locator_rules()));
    v
}

impl StateRegion {
    /// Adds a state region to the database (see [`Db::add`]).
    pub fn add(db: &mut Db, key: Token, block: Block, errors: &mut Errors, map: &MacroMap)
        requires
            old(errors).wf(),
            map.wf(),
        ensures
            final(errors).wf(),
            final(db).view_entries() == spec_db_insert(
                old(db).view_entries(),
                DbEntryV { item: Item::StateRegion, key: key.s@, loc: key.loc, block, kind: DbItemKind::StateRegion },
            ),
            final(errors).store() == spec_add_store(
                old(db).view_entries(),
                *old(errors),
                map.locs@,
                DbEntryV { item: Item::StateRegion, key: key.s@, loc: key.loc, block, kind: DbItemKind::StateRegion },
                false,
            ),
    {
        db.add(Item::StateRegion, key, block, DbItemKind::StateRegion, errors, map);
    }

    /// Checks the definition of a state region (see [`spec_state_region_validation`]).
    pub fn validate(&self, key: &Token, block: &Block) -> (res: Validation)
        ensures
            res@ == spec_state_region_validation(*key, *block),
    {
        let mut v = Validation::new();
        v.add_reference(Item::Localization, key.as_str(), key.loc, Usage::Required);
        check_block(&mut v, block, &state_region_rules());
        if has_field(block, "city") {
            v.add_reference_chars(Item::Localization, &wrapped("HUB_NAME_", key, "_city"), key.loc, Usage::Implied);
        } else {
            proof {
                lemma_then_nothing(v@);
            }
        }
        if has_field(block, "port") {
            v.add_reference_chars(Item::Localization, &wrapped("HUB_NAME_", key, "_port"), key.loc, Usage::Implied);
        } else {
            proof {
                lemma_then_nothing(v@);
            }
        }
        if has_field(block, "mine") {
            v.add_reference_chars(Item::Localization, &wrapped("HUB_NAME_", key, "_mine"), key.loc, Usage::Implied);
        } else {
            proof {
                lemma_then_nothing(v@);
            }
        }
        if has_field(block, "farm") {
            v.add_reference_chars(Item::Localization, &wrapped("HUB_NAME_", key, "_farm"), key.loc, Usage::Implied);
        } else {
            proof {
                lemma_then_nothing(v@);
            }
        }
        if has_field(block, "wood") {
            v.add_reference_chars(Item::Localization, &wrapped("HUB_NAME_", key, "_wood"), key.loc, Usage::Implied);
        } else {
            proof {
                lemma_then_nothing(v@);
            }
        }
        check_nested_keyed(&mut v, block, "capped_resources", Item::BuildingType, Check::Integer);
        check_nested(&mut v, block, "resource", &state_region_resource_rules());
        check_nested(&mut v, block, "blockade_locator", &state_region_blockade_locator_rules());
        v
    }
}

} // verus!
