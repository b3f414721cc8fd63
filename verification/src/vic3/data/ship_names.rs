//! Names for ships.

use vstd::prelude::*;

use crate::block::{Block};
use crate::db::{spec_add_store, spec_db_insert, Db, DbEntryV};
use crate::item::Item;
use crate::report::errors::{Errors, MacroMap};
use crate::token::Token;
use crate::validator::{
    FieldRule, FieldRuleV, Validation, ValidationV, Check, nothing, then, rules_view, strings_view, owned,
    rule, choice_rule, spec_rule, spec_choice_rule, spec_check_block, check_block, spec_nested_block_list,
    check_nested_block_list,
};
use crate::vic3::data::DbItemKind;

verus! {

/// Definitions of ship names.
#[derive(Clone, Copy, Debug)]
pub struct ShipNameDefinition {}

/// The field rules of ship name definition definitions.
pub open spec fn spec_ship_name_definition_rules() -> Seq<FieldRuleV> {
    seq![
        spec_rule("name"@, Check::Item(Item::Localization), false),
        spec_rule("selection_weight"@, Check::Numeric, false),
        spec_rule("country"@, Check::Item(Item::Country), false),
        spec_rule("allowed_ship_types"@, Check::ItemList(Item::ShipType), false),
        spec_rule("properties"@, Check::Block, false),
    ]
}

fn ship_name_definition_rules() -> (res: Vec<FieldRule>)
    ensures
        rules_view(res@) == spec_ship_name_definition_rules(),
{
    let mut res: Vec<FieldRule> = Vec::new();
    res.push(rule("name", Check::Item(Item::Localization), false));
    res.push(rule("selection_weight", Check::Numeric, false));
    res.push(rule("country", Check::Item(Item::Country), false));
    res.push(rule("allowed_ship_types", Check::ItemList(Item::ShipType), false));
    res.push(rule("properties", Check::Block, false));
    assert(rules_view(res@) =~= spec_ship_name_definition_rules());
    res
}

fn ship_name_definition_property_rules_choices_0() -> (res: Vec<String>)
    ensures
        strings_view(res@) == seq!["custom_text"@, "name_list"@],
{
    let mut res: Vec<String> = Vec::new();
    res.push(owned("custom_text"));
    res.push(owned("name_list"));
    assert(strings_view(res@) =~= seq!["custom_text"@, "name_list"@]);
    res
}

/// The field rules of ship name definition definitions.
pub open spec fn spec_ship_name_definition_property_rules() -> Seq<FieldRuleV> {
    seq![
        spec_choice_rule("type"@, Check::Choice, seq!["custom_text"@, "name_list"@]),
        spec_rule("key"@, Check::Item(Item::Localization), false),
        spec_rule("custom_text"@, Check::Item(Item::Localization), false),
        spec_rule("quick_trigger_required_law"@, Check::Item(Item::LawType), true),
        spec_rule("quick_trigger_country_leader_female"@, Check::Bool, false),
        spec_rule("name_list"@, Check::ItemList(Item::Localization), false),
    ]
}

fn ship_name_definition_property_rules() -> (res: Vec<FieldRule>)
    ensures
        rules_view(res@) == spec_ship_name_definition_property_rules(),
{
    let mut res: Vec<FieldRule> = Vec::new();
    res.push(choice_rule("type", Check::Choice, ship_name_definition_property_rules_choices_0()));
    res.push(rule("key", Check::Item(Item::Localization), false));
    res.push(rule("custom_text", Check::Item(Item::Localization), false));
    res.push(rule("quick_trigger_required_law", Check::Item(Item::LawType), true));
    res.push(rule("quick_trigger_country_leader_female", Check::Bool, false));
    res.push(rule("name_list", Check::ItemList(Item::Localization), false));
    assert(rules_view(res@) =~= spec_ship_name_definition_property_rules());
    res
}

/// What checking a ship name definition finds.
pub open spec fn spec_ship_name_definition_validation(key: Token, block: Block) -> ValidationV {
    let v = nothing();
    let v = then(v, spec_check_block(spec_ship_name_definition_rules(), block));
    let v = then(v, spec_nested_block_list(block.items@, "properties"@, spec_ship_name_definition_property_rules(), false));
    v
}

impl ShipNameDefinition {
    /// Adds a ship name definition to the database (see [`Db::add`]).
    pub fn add(db: &mut Db, key: Token, block: Block, errors: &mut Errors, map: &MacroMap)
        requires
            old(errors).wf(),
            map.wf(),
        ensures
            final(errors).wf(),
            final(db).view_entries() == spec_db_insert(
                old(db).view_entries(),
                DbEntryV { item: Item::ShipNameDefinition, key: key.s@, loc: key.loc, block, kind: DbItemKind::ShipNameDefinition },
            ),
            final(errors).store() == spec_add_store(
                old(db).view_entries(),
                *old(errors),
                map.locs@,
                DbEntryV { item: Item::ShipNameDefinition, key: key.s@, loc: key.loc, block, kind: DbItemKind::ShipNameDefinition },
                false,
            ),
    {
        db.add(Item::ShipNameDefinition, key, block, DbItemKind::ShipNameDefinition, errors, map);
    }

    /// Checks the definition of a ship name definition (see [`spec_ship_name_definition_validation`]).
    pub fn validate(&self, key: &Token, block: &Block) -> (res: Validation)
        ensures
            res@ == spec_ship_name_definition_validation(*key, *block),
    {
        let mut v = Validation::new();
        check_block(&mut v, block, &ship_name_definition_rules());
        check_nested_block_list(&mut v, block, "properties", &ship_name_definition_property_rules(), false);
        v
    }
}

} // verus!
