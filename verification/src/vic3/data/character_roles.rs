//! The roles characters can have.

use vstd::prelude::*;

use crate::block::{Block};
use crate::db::{spec_add_store, spec_db_insert, Db, DbEntryV};
use crate::item::Item;
use crate::report::errors::{Errors, MacroMap};
use crate::token::Token;
use crate::validator::{ScriptScope, 
    FieldRule, FieldRuleV, Validation, ValidationV, Check, Usage, nothing, then, refers, rules_view,
    strings_view, owned, rule, choice_rule, spec_rule, spec_choice_rule, spec_check_block, check_block,
    suffixed, value_is, lemma_then_nothing,
};
use crate::vic3::data::DbItemKind;

verus! {

/// The character roles.
#[derive(Clone, Copy, Debug)]
pub struct CharacterRole {}

fn character_role_rules_choices_6() -> (res: Vec<String>)
    ensures
        strings_view(res@) == seq!["from_name"@, "ruler"@, "heir"@, "custom"@],
{
    let mut res: Vec<String> = Vec::new();
    res.push(owned("from_name"));
    res.push(owned("ruler"));
    res.push(owned("heir"));
    res.push(owned("custom"));
    assert(strings_view(res@) =~= seq!["from_name"@, "ruler"@, "heir"@, "custom"@]);
    res
}

/// The field rules of character role definitions.
pub open spec fn spec_character_role_rules() -> Seq<FieldRuleV> {
    seq![
        spec_rule("type"@, Check::Value, false),
        spec_rule("priority"@, Check::Numeric, false),
        spec_rule("auto_assigned"@, Check::Bool, false),
        spec_rule("career_length"@, Check::NumericList(2), false),
        spec_rule("on_career_end"@, Check::Script(ScriptScope::Own), false),
        spec_rule("should_use_title_in_name"@, Check::Bool, false),
        spec_choice_rule("title_format"@, Check::Choice, seq!["from_name"@, "ruler"@, "heir"@, "custom"@]),
        spec_rule("title_preposition"@, Check::Item(Item::Localization), false),
        spec_rule("spawn_characters_to_pool"@, Check::Bool, false),
        spec_rule("pool_spawn_target_powerful"@, Check::Script(ScriptScope::Own), false),
        spec_rule("pool_spawn_target_influential"@, Check::Script(ScriptScope::Own), false),
        spec_rule("pool_spawn_target_marginal"@, Check::Script(ScriptScope::Own), false),
        spec_rule("pool_spawn_target_country_wide"@, Check::Script(ScriptScope::Own), false),
        spec_rule("character_modifier"@, Check::Block, false),
    ]
}

fn character_role_rules() -> (res: Vec<FieldRule>)
    ensures
        rules_view(res@) == spec_character_role_rules(),
{
    let mut res: Vec<FieldRule> = Vec::new();
    res.push(rule("type", Check::Value, false));
    res.push(rule("priority", Check::Numeric, false));
    res.push(rule("auto_assigned", Check::Bool, false));
    res.push(rule("career_length", Check::NumericList(2), false));
    res.push(rule("on_career_end", Check::Script(ScriptScope::Own), false));
    res.push(rule("should_use_title_in_name", Check::Bool, false));
    res.push(choice_rule("title_format", Check::Choice, character_role_rules_choices_6()));
    res.push(rule("title_preposition", Check::Item(Item::Localization), false));
    res.push(rule("spawn_characters_to_pool", Check::Bool, false));
    res.push(rule("pool_spawn_target_powerful", Check::Script(ScriptScope::Own), false));
    res.push(rule("pool_spawn_target_influential", Check::Script(ScriptScope::Own), false));
    res.push(rule("pool_spawn_target_marginal", Check::Script(ScriptScope::Own), false));
    res.push(rule("pool_spawn_target_country_wide", Check::Script(ScriptScope::Own), false));
    res.push(rule("character_modifier", Check::Block, false));
    assert(rules_view(res@) =~= spec_character_role_rules());
    res
}

/// What checking a character role finds.
pub open spec fn spec_character_role_validation(key: Token, block: Block) -> ValidationV {
    let v = nothing();
    let v = then(v, spec_check_block(spec_character_role_rules(), block));
    let v = then(v, if value_is(block.items@, "title_format"@, "custom"@) { refers(Item::Localization, key.s@ + "_custom_loc"@, key.loc, Usage::Implied) } else { nothing() });
    v
}

impl CharacterRole {
    /// Adds a character role to the database (see [`Db::add`]).
    pub fn add(db: &mut Db, key: Token, block: Block, errors: &mut Errors, map: &MacroMap)
        requires
            old(errors).wf(),
            map.wf(),
        ensures
            final(errors).wf(),
            final(db).view_entries() == spec_db_insert(
                old(db).view_entries(),
                DbEntryV { item: Item::CharacterRole, key: key.s@, loc: key.loc, block, kind: DbItemKind::CharacterRole },
            ),
            final(errors).store() == spec_add_store(
                old(db).view_entries(),
                *old(errors),
                map.locs@,
                DbEntryV { item: Item::CharacterRole, key: key.s@, loc: key.loc, block, kind: DbItemKind::CharacterRole },
                false,
            ),
    {
        db.add(Item::CharacterRole, key, block, DbItemKind::CharacterRole, errors, map);
    }

    /// Checks the definition of a character role (see [`spec_character_role_validation`]).
    pub fn validate(&self, key: &Token, block: &Block) -> (res: Validation)
        ensures
            res@ == spec_character_role_validation(*key, *block),
    {
        let mut v = Validation::new();
        check_block(&mut v, block, &character_role_rules());
        if block.field_value_is("title_format", "custom") {
            v.add_reference_chars(Item::Localization, &suffixed(key, "_custom_loc"), key.loc, Usage::Implied);
        } else {
            proof {
                lemma_then_nothing(v@);
            }
        }
        v
    }
}

} // verus!
