//! Dioramas: the 3D scenes of armies and fleets.

use vstd::prelude::*;

use crate::block::{Block};
use crate::db::{spec_add_store, spec_db_insert, Db, DbEntryV};
use crate::item::Item;
use crate::report::errors::{Errors, MacroMap};
use crate::token::Token;
use crate::validator::{ScriptScope, 
    FieldRule, FieldRuleV, Validation, ValidationV, Check, nothing, then, rules_view, strings_view, owned,
    rule, choice_rule, spec_rule, spec_choice_rule, spec_check_block, check_block, spec_nested, check_nested,
    spec_nested_keyed, check_nested_keyed, lemma_then_assoc,
};
use crate::vic3::data::DbItemKind;
use crate::vic3::validate::{spec_locators, token_texts, validate_locators};

verus! {

/// The army dioramas.
#[derive(Clone, Copy, Debug)]
pub struct ArmyDiorama {}

/// The fleet dioramas.
#[derive(Clone, Copy, Debug)]
pub struct FleetDiorama {}

fn army_diorama_rules_choices_0() -> (res: Vec<String>)
    ensures
        strings_view(res@) == seq!["none"@, "attacker"@, "defender"@, "either"@],
{
    let mut res: Vec<String> = Vec::new();
    res.push(owned("none"));
    res.push(owned("attacker"));
    res.push(owned("defender"));
    res.push(owned("either"));
    assert(strings_view(res@) =~= seq!["none"@, "attacker"@, "defender"@, "either"@]);
    res
}

/// The field rules of an army diorama.
pub open spec fn spec_army_diorama_rules() -> Seq<FieldRuleV> {
    seq![
        spec_choice_rule("battle_side"@, Check::Choice, seq!["none"@, "attacker"@, "defender"@, "either"@]),
        spec_rule("basecamp"@, Check::Bool, false),
        spec_rule("unit_composition"@, Check::Block, false),
        spec_rule("required_unit_types"@, Check::ItemList(Item::CombatUnit), false),
        spec_rule("distance"@, Check::Numeric, false),
        spec_rule("locator"@, Check::Block, true),
        spec_rule("attach"@, Check::Block, true),
    ]
}

fn army_diorama_rules() -> (res: Vec<FieldRule>)
    ensures
        rules_view(res@) == spec_army_diorama_rules(),
{
    let mut res: Vec<FieldRule> = Vec::new();
    res.push(choice_rule("battle_side", Check::Choice, army_diorama_rules_choices_0()));
    res.push(rule("basecamp", Check::Bool, false));
    res.push(rule("unit_composition", Check::Block, false));
    res.push(rule("required_unit_types", Check::ItemList(Item::CombatUnit), false));
    res.push(rule("distance", Check::Numeric, false));
    res.push(rule("locator", Check::Block, true));
    res.push(rule("attach", Check::Block, true));
    assert(rules_view(res@) =~= spec_army_diorama_rules());
    res
}

/// What checking an army diorama finds.
pub open spec fn spec_army_diorama_validation(key: Token, block: Block) -> ValidationV {
    let v = nothing();
    let v = then(v, spec_check_block(spec_army_diorama_rules(), block));
    let v = then(v, spec_diorama(block, true));
    v
}

impl ArmyDiorama {
    /// Adds an army diorama to the database (see [`Db::add`]).
    pub fn add(db: &mut Db, key: Token, block: Block, errors: &mut Errors, map: &MacroMap)
        requires
            old(errors).wf(),
            map.wf(),
        ensures
            final(errors).wf(),
            final(db).view_entries() == spec_db_insert(
                old(db).view_entries(),
                DbEntryV { item: Item::ArmyDiorama, key: key.s@, loc: key.loc, block, kind: DbItemKind::ArmyDiorama },
            ),
            final(errors).store() == spec_add_store(
                old(db).view_entries(),
                *old(errors),
                map.locs@,
                DbEntryV { item: Item::ArmyDiorama, key: key.s@, loc: key.loc, block, kind: DbItemKind::ArmyDiorama },
                false,
            ),
    {
        db.add(Item::ArmyDiorama, key, block, DbItemKind::ArmyDiorama, errors, map);
    }

    /// Checks the definition of an army diorama (see [`spec_army_diorama_validation`]).
    pub fn validate(&self, key: &Token, block: &Block) -> (res: Validation)
        ensures
            res@ == spec_army_diorama_validation(*key, *block),
    {
        let mut v = Validation::new();
        check_block(&mut v, block, &army_diorama_rules());
        validate_diorama(&mut v, block, true);
        v
    }
}

fn fleet_diorama_rules_choices_0() -> (res: Vec<String>)
    ensures
        strings_view(res@) == seq!["fleet"@, "battle_side"@, "blockade"@],
{
    let mut res: Vec<String> = Vec::new();
    res.push(owned("fleet"));
    res.push(owned("battle_side"));
    res.push(owned("blockade"));
    assert(strings_view(res@) =~= seq!["fleet"@, "battle_side"@, "blockade"@]);
    res
}

/// The field rules of a fleet diorama.
pub open spec fn spec_fleet_diorama_rules() -> Seq<FieldRuleV> {
    seq![
        spec_choice_rule("group"@, Check::Choice, seq!["fleet"@, "battle_side"@, "blockade"@]),
        spec_rule("random_offset"@, Check::Numeric, false),
        spec_rule("unit_composition"@, Check::Block, false),
        spec_rule("required_unit_types"@, Check::ItemList(Item::CombatUnit), false),
        spec_rule("distance"@, Check::Numeric, false),
        spec_rule("locator"@, Check::Block, true),
        spec_rule("attach"@, Check::Block, true),
    ]
}

fn fleet_diorama_rules() -> (res: Vec<FieldRule>)
    ensures
        rules_view(res@) == spec_fleet_diorama_rules(),
{
    let mut res: Vec<FieldRule> = Vec::new();
    res.push(choice_rule("group", Check::Choice, fleet_diorama_rules_choices_0()));
    res.push(rule("random_offset", Check::Numeric, false));
    res.push(rule("unit_composition", Check::Block, false));
    res.push(rule("required_unit_types", Check::ItemList(Item::CombatUnit), false));
    res.push(rule("distance", Check::Numeric, false));
    res.push(rule("locator", Check::Block, true));
    res.push(rule("attach", Check::Block, true));
    assert(rules_view(res@) =~= spec_fleet_diorama_rules());
    res
}

/// What checking a fleet diorama finds.
pub open spec fn spec_fleet_diorama_validation(key: Token, block: Block) -> ValidationV {
    let v = nothing();
    let v = then(v, spec_check_block(spec_fleet_diorama_rules(), block));
    let v = then(v, spec_diorama(block, false));
    v
}

impl FleetDiorama {
    /// Adds a fleet diorama to the database (see [`Db::add`]).
    pub fn add(db: &mut Db, key: Token, block: Block, errors: &mut Errors, map: &MacroMap)
        requires
            old(errors).wf(),
            map.wf(),
        ensures
            final(errors).wf(),
            final(db).view_entries() == spec_db_insert(
                old(db).view_entries(),
                DbEntryV { item: Item::FleetDiorama, key: key.s@, loc: key.loc, block, kind: DbItemKind::FleetDiorama },
            ),
            final(errors).store() == spec_add_store(
                old(db).view_entries(),
                *old(errors),
                map.locs@,
                DbEntryV { item: Item::FleetDiorama, key: key.s@, loc: key.loc, block, kind: DbItemKind::FleetDiorama },
                false,
            ),
    {
        db.add(Item::FleetDiorama, key, block, DbItemKind::FleetDiorama, errors, map);
    }

    /// Checks the definition of a fleet diorama (see [`spec_fleet_diorama_validation`]).
    pub fn validate(&self, key: &Token, block: &Block) -> (res: Validation)
        ensures
            res@ == spec_fleet_diorama_validation(*key, *block),
    {
        let mut v = Validation::new();
        check_block(&mut v, block, &fleet_diorama_rules());
        validate_diorama(&mut v, block, false);
        v
    }
}

/// The field rules of an `attach` block of a diorama: its `locator` must be
/// there and be one of `names`, the names of the diorama's locators.
pub open spec fn spec_attach_rules(is_army: bool, names: Seq<Seq<char>>) -> Seq<FieldRuleV> {
    seq![
        FieldRuleV { name: "locator"@, check: Check::Choice, choices: names, multi: false, required: true },
        spec_rule("entity"@, Check::Item(Item::Entity), false),
        spec_rule("combat_unit_group"@, Check::Item(Item::CombatUnitGroup), false),
        spec_rule("entity_group"@, Check::Value, false),
        spec_rule("can_be_defeated"@, Check::Bool, false),
    ] + (if is_army {
        seq![spec_rule("general"@, Check::Bool, false), spec_rule("ignore_terrain"@, Check::Bool, false)]
    } else {
        Seq::empty()
    }) + seq![spec_rule("is_visible"@, Check::Script(ScriptScope::Own), false), spec_rule("main"@, Check::Bool, false)]
}

fn attach_rules(is_army: bool, names: &Vec<Token>) -> (res: Vec<FieldRule>)
    ensures
        rules_view(res@) == spec_attach_rules(is_army, token_texts(names@)),
{
    let mut choices: Vec<String> = Vec::new();
    let mut i: usize = 0;
    while i < names.len()
        invariant
            i <= names@.len(),
            strings_view(choices@) == token_texts(names@).take(i as int),
        decreases names.len() - i,
    {
        let ghost before = choices@;
        choices.push(owned(names[i].as_str()));
        assert(strings_view(choices@) =~= strings_view(before).push(names@[i as int].s@));
        assert(token_texts(names@).take(i + 1) =~= token_texts(names@).take(i as int).push(names@[i as int].s@));
        i += 1;
    }
    assert(token_texts(names@).take(names@.len() as int) =~= token_texts(names@));
    let mut res: Vec<FieldRule> = Vec::new();
    res.push(FieldRule { name: "locator", check: Check::Choice, choices, multi: false, required: true });
    res.push(rule("entity", Check::Item(Item::Entity), false));
    res.push(rule("combat_unit_group", Check::Item(Item::CombatUnitGroup), false));
    res.push(rule("entity_group", Check::Value, false));
    res.push(rule("can_be_defeated", Check::Bool, false));
    if is_army {
        res.push(rule("general", Check::Bool, false));
        res.push(rule("ignore_terrain", Check::Bool, false));
    }
    res.push(rule("is_visible", Check::Script(ScriptScope::Own), false));
    res.push(rule("main", Check::Bool, false));
    assert(rules_view(res@) =~= spec_attach_rules(is_army, token_texts(names@)));
    res
}

/// What checking the parts that army and fleet dioramas share finds: the
/// unit counts of `unit_composition` by combat unit group, the locators, and
/// the `attach` blocks, which refer to the locators by name.
pub open spec fn spec_diorama(block: Block, is_army: bool) -> ValidationV {
    let v = spec_nested_keyed(block.items@, "unit_composition"@, Item::CombatUnitGroup, Check::Integer);
    let v = then(v, spec_locators(block.items@).0);
    then(v, spec_nested(block.items@, "attach"@, spec_attach_rules(is_army, token_texts(spec_locators(block.items@).1))))
}

/// Checks the parts that army and fleet dioramas share (see [`spec_diorama`]).
fn validate_diorama(v: &mut Validation, block: &Block, is_army: bool)
    ensures
        final(v)@ == then(old(v)@, spec_diorama(*block, is_army)),
{
    let ghost start = v@;
    check_nested_keyed(v, block, "unit_composition", Item::CombatUnitGroup, Check::Integer);
    let ghost a = v@;
    let names = validate_locators(v, block);
    let ghost b = v@;
    check_nested(v, block, "attach", &attach_rules(is_army, &names));
    proof {
        let x = spec_nested_keyed(block.items@, "unit_composition"@, Item::CombatUnitGroup, Check::Integer);
        let y = spec_locators(block.items@).0;
        let z = spec_nested(block.items@, "attach"@, spec_attach_rules(is_army, token_texts(spec_locators(block.items@).1)));
        lemma_then_assoc(start, x, y);
        lemma_then_assoc(start, then(x, y), z);
    }
}

} // verus!
