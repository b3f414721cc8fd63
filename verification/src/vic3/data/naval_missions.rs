//! Missions of navies.

use vstd::prelude::*;

use crate::block::{Block};
use crate::db::{spec_add_store, spec_db_insert, Db, DbEntryV};
use crate::item::Item;
use crate::report::errors::{Errors, MacroMap};
use crate::token::Token;
use crate::validator::{ScriptScope, 
    FieldRule, FieldRuleV, Validation, ValidationV, Check, Usage, nothing, then, refers, rules_view,
    strings_view, owned, rule, choice_rule, spec_rule, spec_choice_rule, spec_check_block, check_block,
    suffixed,
};
use crate::vic3::data::DbItemKind;

verus! {

/// The types of naval missions.
#[derive(Clone, Copy, Debug)]
pub struct NavalMissionType {}

fn naval_mission_type_rules_choices_9() -> (res: Vec<String>)
    ensures
        strings_view(res@) == seq!["none"@, "hostile"@, "piracy"@, "all"@],
{
    let mut res: Vec<String> = Vec::new();
    res.push(owned("none"));
    res.push(owned("hostile"));
    res.push(owned("piracy"));
    res.push(owned("all"));
    assert(strings_view(res@) =~= seq!["none"@, "hostile"@, "piracy"@, "all"@]);
    res
}

fn naval_mission_type_rules_choices_10() -> (res: Vec<String>)
    ensures
        strings_view(res@) == seq!["none"@, "hostile"@, "neutral"@, "allies"@, "non_allies"@, "all"@],
{
    let mut res: Vec<String> = Vec::new();
    res.push(owned("none"));
    res.push(owned("hostile"));
    res.push(owned("neutral"));
    res.push(owned("allies"));
    res.push(owned("non_allies"));
    res.push(owned("all"));
    assert(strings_view(res@) =~= seq!["none"@, "hostile"@, "neutral"@, "allies"@, "non_allies"@, "all"@]);
    res
}

/// The field rules of naval mission type definitions.
pub open spec fn spec_naval_mission_type_rules() -> Seq<FieldRuleV> {
    seq![
        spec_rule("icon"@, Check::Item(Item::File), false),
        spec_rule("intercept"@, Check::Bool, false),
        spec_rule("project_power"@, Check::Bool, false),
        spec_rule("blockade"@, Check::Bool, false),
        spec_rule("raid_supply"@, Check::Bool, false),
        spec_rule("protect_supply"@, Check::Bool, false),
        spec_rule("piracy"@, Check::Bool, false),
        spec_rule("port_bombardment"@, Check::Bool, false),
        spec_rule("experience"@, Check::Numeric, false),
        spec_choice_rule("intercept_targets"@, Check::ChoiceList, seq!["none"@, "hostile"@, "piracy"@, "all"@]),
        spec_choice_rule("piracy_targets"@, Check::ChoiceList, seq!["none"@, "hostile"@, "neutral"@, "allies"@, "non_allies"@, "all"@]),
        spec_rule("modifier"@, Check::Block, false),
        spec_rule("command_modifier"@, Check::Block, false),
        spec_rule("potential"@, Check::Script(ScriptScope::Own), false),
        spec_rule("possible"@, Check::Script(ScriptScope::Own), false),
        spec_rule("ai_will_do"@, Check::Script(ScriptScope::Own), false),
        spec_rule("ai_weight"@, Check::Script(ScriptScope::Own), false),
        spec_rule("clicksound"@, Check::Item(Item::Sound), false),
        spec_rule("ai_will_cancel_for_transportation"@, Check::Bool, false),
        spec_rule("ai_distance_penalty_multiplier"@, Check::Numeric, false),
    ]
}

fn naval_mission_type_rules() -> (res: Vec<FieldRule>)
    ensures
        rules_view(res@) == spec_naval_mission_type_rules(),
{
    let mut res: Vec<FieldRule> = Vec::new();
    res.push(rule("icon", Check::Item(Item::File), false));
    res.push(rule("intercept", Check::Bool, false));
    res.push(rule("project_power", Check::Bool, false));
    res.push(rule("blockade", Check::Bool, false));
    res.push(rule("raid_supply", Check::Bool, false));
    res.push(rule("protect_supply", Check::Bool, false));
    res.push(rule("piracy", Check::Bool, false));
    res.push(rule("port_bombardment", Check::Bool, false));
    res.push(rule("experience", Check::Numeric, false));
    res.push(choice_rule("intercept_targets", Check::ChoiceList, naval_mission_type_rules_choices_9()));
    res.push(choice_rule("piracy_targets", Check::ChoiceList, naval_mission_type_rules_choices_10()));
    res.push(rule("modifier", Check::Block, false));
    res.push(rule("command_modifier", Check::Block, false));
    res.push(rule("potential", Check::Script(ScriptScope::Own), false));
    res.push(rule("possible", Check::Script(ScriptScope::Own), false));
    res.push(rule("ai_will_do", Check::Script(ScriptScope::Own), false));
    res.push(rule("ai_weight", Check::Script(ScriptScope::Own), false));
    res.push(rule("clicksound", Check::Item(Item::Sound), false));
    res.push(rule("ai_will_cancel_for_transportation", Check::Bool, false));
    res.push(rule("ai_distance_penalty_multiplier", Check::Numeric, false));
    assert(rules_view(res@) =~= spec_naval_mission_type_rules());
    res
}

/// What checking a naval mission type finds.
pub open spec fn spec_naval_mission_type_validation(key: Token, block: Block) -> ValidationV {
    let v = nothing();
    let v = then(v, refers(Item::Localization, key.s@, key.loc, Usage::Required));
    let v = then(v, refers(Item::Localization, key.s@ + "_desc"@, key.loc, Usage::Implied));
    let v = then(v, spec_check_block(spec_naval_mission_type_rules(), block));
    v
}

impl NavalMissionType {
    /// Adds a naval mission type to the database (see [`Db::add`]).
    pub fn add(db: &mut Db, key: Token, block: Block, errors: &mut Errors, map: &MacroMap)
        requires
            old(errors).wf(),
            map.wf(),
        ensures
            final(errors).wf(),
            final(db).view_entries() == spec_db_insert(
                old(db).view_entries(),
                DbEntryV { item: Item::NavalMissionType, key: key.s@, loc: key.loc, block, kind: DbItemKind::NavalMissionType },
            ),
            final(errors).store() == spec_add_store(
                old(db).view_entries(),
                *old(errors),
                map.locs@,
                DbEntryV { item: Item::NavalMissionType, key: key.s@, loc: key.loc, block, kind: DbItemKind::NavalMissionType },
                false,
            ),
    {
        db.add(Item::NavalMissionType, key, block, DbItemKind::NavalMissionType, errors, map);
    }

    /// Checks the definition of a naval mission type (see [`spec_naval_mission_type_validation`]).
    pub fn validate(&self, key: &Token, block: &Block) -> (res: Validation)
        ensures
            res@ == spec_naval_mission_type_validation(*key, *block),
    {
        let mut v = Validation::new();
        v.add_reference(Item::Localization, key.as_str(), key.loc, Usage::Required);
        v.add_reference_chars(Item::Localization, &suffixed(key, "_desc"), key.loc, Usage::Implied);
        check_block(&mut v, block, &naval_mission_type_rules());
        v
    }
}

} // verus!
