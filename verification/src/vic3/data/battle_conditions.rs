//! Conditions of land and naval battles.

use vstd::prelude::*;

use crate::block::{Block};
use crate::db::{spec_add_store, spec_db_insert, Db, DbEntryV};
use crate::item::Item;
use crate::report::errors::{Errors, MacroMap};
use crate::token::Token;
use crate::validator::{ScriptScope, 
    FieldRule, FieldRuleV, Validation, ValidationV, Check, Usage, nothing, then, refers, rules_view, rule,
    spec_rule, spec_check_block, check_block, suffixed,
};
use crate::vic3::data::DbItemKind;

verus! {

/// Conditions of land battles.
#[derive(Clone, Copy, Debug)]
pub struct BattleCondition {}

/// Conditions of naval battles.
#[derive(Clone, Copy, Debug)]
pub struct NavalBattleCondition {}

/// The field rules of battle condition definitions.
pub open spec fn spec_battle_condition_rules() -> Seq<FieldRuleV> {
    seq![
        spec_rule("icon"@, Check::Item(Item::File), false),
        spec_rule("modifier"@, Check::Block, false),
        spec_rule("weight"@, Check::Script(ScriptScope::Own), false),
        spec_rule("instant_switch"@, Check::Script(ScriptScope::Own), false),
        spec_rule("possible"@, Check::Script(ScriptScope::Own), false),
    ]
}

fn battle_condition_rules() -> (res: Vec<FieldRule>)
    ensures
        rules_view(res@) == spec_battle_condition_rules(),
{
    let mut res: Vec<FieldRule> = Vec::new();
    res.push(rule("icon", Check::Item(Item::File), false));
    res.push(rule("modifier", Check::Block, false));
    res.push(rule("weight", Check::Script(ScriptScope::Own), false));
    res.push(rule("instant_switch", Check::Script(ScriptScope::Own), false));
    res.push(rule("possible", Check::Script(ScriptScope::Own), false));
    assert(rules_view(res@) =~= spec_battle_condition_rules());
    res
}

/// What checking a battle condition finds.
pub open spec fn spec_battle_condition_validation(key: Token, block: Block) -> ValidationV {
    let v = nothing();
    let v = then(v, refers(Item::Localization, key.s@, key.loc, Usage::Required));
    let v = then(v, refers(Item::Localization, key.s@ + "_desc"@, key.loc, Usage::Implied));
    let v = then(v, spec_check_block(spec_battle_condition_rules(), block));
    v
}

impl BattleCondition {
    /// Adds a battle condition to the database (see [`Db::add_exact_dup_ok`]).
    pub fn add(db: &mut Db, key: Token, block: Block, errors: &mut Errors, map: &MacroMap)
        requires
            old(errors).wf(),
            map.wf(),
        ensures
            final(errors).wf(),
            final(db).view_entries() == spec_db_insert(
                old(db).view_entries(),
                DbEntryV { item: Item::BattleCondition, key: key.s@, loc: key.loc, block, kind: DbItemKind::BattleCondition },
            ),
            final(errors).store() == spec_add_store(
                old(db).view_entries(),
                *old(errors),
                map.locs@,
                DbEntryV { item: Item::BattleCondition, key: key.s@, loc: key.loc, block, kind: DbItemKind::BattleCondition },
                true,
            ),
    {
        db.add_exact_dup_ok(Item::BattleCondition, key, block, DbItemKind::BattleCondition, errors, map);
    }

    /// Checks the definition of a battle condition (see [`spec_battle_condition_validation`]).
    pub fn validate(&self, key: &Token, block: &Block) -> (res: Validation)
        ensures
            res@ == spec_battle_condition_validation(*key, *block),
    {
        let mut v = Validation::new();
        v.add_reference(Item::Localization, key.as_str(), key.loc, Usage::Required);
        v.add_reference_chars(Item::Localization, &suffixed(key, "_desc"), key.loc, Usage::Implied);
        check_block(&mut v, block, &battle_condition_rules());
        v
    }
}

/// The field rules of naval battle condition definitions.
pub open spec fn spec_naval_battle_condition_rules() -> Seq<FieldRuleV> {
    seq![
        spec_rule("icon"@, Check::Item(Item::File), false),
        spec_rule("possible"@, Check::Script(ScriptScope::Own), false),
        spec_rule("weight"@, Check::Script(ScriptScope::Own), false),
        spec_rule("max_hull_damage"@, Check::Script(ScriptScope::Own), false),
        spec_rule("max_crew_damage"@, Check::Script(ScriptScope::Own), false),
        spec_rule("period"@, Check::Script(ScriptScope::Own), false),
        spec_rule("intensity"@, Check::Script(ScriptScope::Own), false),
        spec_rule("modifier"@, Check::Block, false),
    ]
}

fn naval_battle_condition_rules() -> (res: Vec<FieldRule>)
    ensures
        rules_view(res@) == spec_naval_battle_condition_rules(),
{
    let mut res: Vec<FieldRule> = Vec::new();
    res.push(rule("icon", Check::Item(Item::File), false));
    res.push(rule("possible", Check::Script(ScriptScope::Own), false));
    res.push(rule("weight", Check::Script(ScriptScope::Own), false));
    res.push(rule("max_hull_damage", Check::Script(ScriptScope::Own), false));
    res.push(rule("max_crew_damage", Check::Script(ScriptScope::Own), false));
    res.push(rule("period", Check::Script(ScriptScope::Own), false));
    res.push(rule("intensity", Check::Script(ScriptScope::Own), false));
    res.push(rule("modifier", Check::Block, false));
    assert(rules_view(res@) =~= spec_naval_battle_condition_rules());
    res
}

/// What checking a naval battle condition finds.
pub open spec fn spec_naval_battle_condition_validation(key: Token, block: Block) -> ValidationV {
    let v = nothing();
    let v = then(v, refers(Item::Localization, key.s@, key.loc, Usage::Required));
    let v = then(v, refers(Item::Localization, key.s@ + "_desc"@, key.loc, Usage::Implied));
    let v = then(v, spec_check_block(spec_naval_battle_condition_rules(), block));
    v
}

impl NavalBattleCondition {
    /// Adds a naval battle condition to the database (see [`Db::add_exact_dup_ok`]).
    pub fn add(db: &mut Db, key: Token, block: Block, errors: &mut Errors, map: &MacroMap)
        requires
            old(errors).wf(),
            map.wf(),
        ensures
            final(errors).wf(),
            final(db).view_entries() == spec_db_insert(
                old(db).view_entries(),
                DbEntryV { item: Item::NavalBattleCondition, key: key.s@, loc: key.loc, block, kind: DbItemKind::NavalBattleCondition },
            ),
            final(errors).store() == spec_add_store(
                old(db).view_entries(),
                *old(errors),
                map.locs@,
                DbEntryV { item: Item::NavalBattleCondition, key: key.s@, loc: key.loc, block, kind: DbItemKind::NavalBattleCondition },
                true,
            ),
    {
        db.add_exact_dup_ok(Item::NavalBattleCondition, key, block, DbItemKind::NavalBattleCondition, errors, map);
    }

    /// Checks the definition of a naval battle condition (see [`spec_naval_battle_condition_validation`]).
    pub fn validate(&self, key: &Token, block: &Block) -> (res: Validation)
        ensures
            res@ == spec_naval_battle_condition_validation(*key, *block),
    {
        let mut v = Validation::new();
        v.add_reference(Item::Localization, key.as_str(), key.loc, Usage::Required);
        v.add_reference_chars(Item::Localization, &suffixed(key, "_desc"), key.loc, Usage::Implied);
        check_block(&mut v, block, &naval_battle_condition_rules());
        v
    }
}

} // verus!
