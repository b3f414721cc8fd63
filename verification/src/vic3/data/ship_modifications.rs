//! Modifications of ships, and the slots they go in.

use vstd::prelude::*;

use crate::block::{Block};
use crate::db::{spec_add_store, spec_db_insert, Db, DbEntryV};
use crate::item::Item;
use crate::report::errors::{Errors, MacroMap};
use crate::token::Token;
use crate::validator::{ScriptScope, 
    FieldRule, FieldRuleV, Validation, ValidationV, Check, Usage, nothing, then, refers, rules_view, rule,
    spec_rule, spec_check_block, check_block, suffixed,
};
use crate::vic3::data::DbItemKind;

verus! {

/// Modifications of ships.
#[derive(Clone, Copy, Debug)]
pub struct ShipModification {}

/// The slots of ship modifications.
#[derive(Clone, Copy, Debug)]
pub struct ShipModificationSlot {}

/// The field rules of ship modification definitions.
pub open spec fn spec_ship_modification_rules() -> Seq<FieldRuleV> {
    seq![
        spec_rule("modifier"@, Check::Block, false),
        spec_rule("type"@, Check::Item(Item::ShipModificationSlot), false),
        spec_rule("construction_goods"@, Check::Block, false),
        spec_rule("materiel_goods"@, Check::Block, false),
        spec_rule("unlocking_technologies"@, Check::ItemList(Item::Technology), false),
        spec_rule("incompatible_with"@, Check::Item(Item::ShipModification), true),
        spec_rule("ai_weight"@, Check::Script(ScriptScope::Own), false),
        spec_rule("icon"@, Check::Item(Item::File), false),
        spec_rule("clicksound"@, Check::Item(Item::Sound), false),
    ]
}

fn ship_modification_rules() -> (res: Vec<FieldRule>)
    ensures
        rules_view(res@) == spec_ship_modification_rules(),
{
    let mut res: Vec<FieldRule> = Vec::new();
    res.push(rule("modifier", Check::Block, false));
    res.push(rule("type", Check::Item(Item::ShipModificationSlot), false));
    res.push(rule("construction_goods", Check::Block, false));
    res.push(rule("materiel_goods", Check::Block, false));
    res.push(rule("unlocking_technologies", Check::ItemList(Item::Technology), false));
    res.push(rule("incompatible_with", Check::Item(Item::ShipModification), true));
    res.push(rule("ai_weight", Check::Script(ScriptScope::Own), false));
    res.push(rule("icon", Check::Item(Item::File), false));
    res.push(rule("clicksound", Check::Item(Item::Sound), false));
    assert(rules_view(res@) =~= spec_ship_modification_rules());
    res
}

/// What checking a ship modification finds.
pub open spec fn spec_ship_modification_validation(key: Token, block: Block) -> ValidationV {
    let v = nothing();
    let v = then(v, refers(Item::Localization, key.s@, key.loc, Usage::Required));
    let v = then(v, spec_check_block(spec_ship_modification_rules(), block));
    v
}

impl ShipModification {
    /// Adds a ship modification to the database (see [`Db::add`]).
    pub fn add(db: &mut Db, key: Token, block: Block, errors: &mut Errors, map: &MacroMap)
        requires
            old(errors).wf(),
            map.wf(),
        ensures
            final(errors).wf(),
            final(db).view_entries() == spec_db_insert(
                old(db).view_entries(),
                DbEntryV { item: Item::ShipModification, key: key.s@, loc: key.loc, block, kind: DbItemKind::ShipModification },
            ),
            final(errors).store() == spec_add_store(
                old(db).view_entries(),
                *old(errors),
                map.locs@,
                DbEntryV { item: Item::ShipModification, key: key.s@, loc: key.loc, block, kind: DbItemKind::ShipModification },
                false,
            ),
    {
        db.add(Item::ShipModification, key, block, DbItemKind::ShipModification, errors, map);
    }

    /// Checks the definition of a ship modification (see [`spec_ship_modification_validation`]).
    pub fn validate(&self, key: &Token, block: &Block) -> (res: Validation)
        ensures
            res@ == spec_ship_modification_validation(*key, *block),
    {
        let mut v = Validation::new();
        v.add_reference(Item::Localization, key.as_str(), key.loc, Usage::Required);
        check_block(&mut v, block, &ship_modification_rules());
        v
    }
}

/// The field rules of ship modification slot definitions.
pub open spec fn spec_ship_modification_slot_rules() -> Seq<FieldRuleV> {
    seq![
        spec_rule("icon"@, Check::Item(Item::File), false),
        spec_rule("utility"@, Check::Bool, false),
    ]
}

fn ship_modification_slot_rules() -> (res: Vec<FieldRule>)
    ensures
        rules_view(res@) == spec_ship_modification_slot_rules(),
{
    let mut res: Vec<FieldRule> = Vec::new();
    res.push(rule("icon", Check::Item(Item::File), false));
    res.push(rule("utility", Check::Bool, false));
    assert(rules_view(res@) =~= spec_ship_modification_slot_rules());
    res
}

/// What checking a ship modification slot finds.
pub open spec fn spec_ship_modification_slot_validation(key: Token, block: Block) -> ValidationV {
    let v = nothing();
    let v = then(v, refers(Item::Localization, key.s@, key.loc, Usage::Required));
    let v = then(v, refers(Item::Localization, key.s@ + "_botton_0"@, key.loc, Usage::Implied));
    let v = then(v, refers(Item::Localization, key.s@ + "_botton_1"@, key.loc, Usage::Implied));
    let v = then(v, refers(Item::Localization, key.s@ + "_botton_2"@, key.loc, Usage::Implied));
    let v = then(v, spec_check_block(spec_ship_modification_slot_rules(), block));
    v
}

impl ShipModificationSlot {
    /// Adds a ship modification slot to the database (see [`Db::add`]).
    pub fn add(db: &mut Db, key: Token, block: Block, errors: &mut Errors, map: &MacroMap)
        requires
            old(errors).wf(),
            map.wf(),
        ensures
            final(errors).wf(),
            final(db).view_entries() == spec_db_insert(
                old(db).view_entries(),
                DbEntryV { item: Item::ShipModificationSlot, key: key.s@, loc: key.loc, block, kind: DbItemKind::ShipModificationSlot },
            ),
            final(errors).store() == spec_add_store(
                old(db).view_entries(),
                *old(errors),
                map.locs@,
                DbEntryV { item: Item::ShipModificationSlot, key: key.s@, loc: key.loc, block, kind: DbItemKind::ShipModificationSlot },
                false,
            ),
    {
        db.add(Item::ShipModificationSlot, key, block, DbItemKind::ShipModificationSlot, errors, map);
    }

    /// Checks the definition of a ship modification slot (see [`spec_ship_modification_slot_validation`]).
    pub fn validate(&self, key: &Token, block: &Block) -> (res: Validation)
        ensures
            res@ == spec_ship_modification_slot_validation(*key, *block),
    {
        let mut v = Validation::new();
        v.add_reference(Item::Localization, key.as_str(), key.loc, Usage::Required);
        v.add_reference_chars(Item::Localization, &suffixed(key, "_botton_0"), key.loc, Usage::Implied);
        v.add_reference_chars(Item::Localization, &suffixed(key, "_botton_1"), key.loc, Usage::Implied);
        v.add_reference_chars(Item::Localization, &suffixed(key, "_botton_2"), key.loc, Usage::Implied);
        check_block(&mut v, block, &ship_modification_slot_rules());
        v
    }
}

} // verus!
