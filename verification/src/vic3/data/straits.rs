//! Straits between land and sea provinces.

use vstd::prelude::*;

use crate::block::{Block};
use crate::db::{spec_add_store, spec_db_insert, Db, DbEntryV};
use crate::item::Item;
use crate::report::errors::{Errors, MacroMap};
use crate::token::Token;
use crate::validator::{
    FieldRule, FieldRuleV, Validation, ValidationV, Check, Usage, nothing, then, refers, rules_view,
    strings_view, owned, rule, choice_rule, spec_rule, spec_choice_rule, spec_check_block, check_block,
};
use crate::vic3::data::DbItemKind;

verus! {

/// The straits.
#[derive(Clone, Copy, Debug)]
pub struct StraitDefinition {}

fn strait_definition_rules_choices_0() -> (res: Vec<String>)
    ensures
        strings_view(res@) == seq!["natural"@, "artificial"@],
{
    let mut res: Vec<String> = Vec::new();
    res.push(owned("natural"));
    res.push(owned("artificial"));
    assert(strings_view(res@) =~= seq!["natural"@, "artificial"@]);
    res
}

/// The field rules of strait definition definitions.
pub open spec fn spec_strait_definition_rules() -> Seq<FieldRuleV> {
    seq![
        spec_choice_rule("type"@, Check::Choice, seq!["natural"@, "artificial"@]),
        spec_rule("total_block_requires_full_control"@, Check::Bool, false),
        spec_rule("military_block_requires_full_control"@, Check::Bool, false),
        spec_rule("first_land_endpoint"@, Check::Item(Item::Province), false),
        spec_rule("second_land_endpoint"@, Check::Item(Item::Province), false),
        spec_rule("first_sea_endpoint"@, Check::Item(Item::Province), false),
        spec_rule("second_sea_endpoint"@, Check::Item(Item::Province), false),
    ]
}

fn strait_definition_rules() -> (res: Vec<FieldRule>)
    ensures
        rules_view(res@) == spec_strait_definition_rules(),
{
    let mut res: Vec<FieldRule> = Vec::new();
    res.push(choice_rule("type", Check::Choice, strait_definition_rules_choices_0()));
    res.push(rule("total_block_requires_full_control", Check::Bool, false));
    res.push(rule("military_block_requires_full_control", Check::Bool, false));
    res.push(rule("first_land_endpoint", Check::Item(Item::Province), false));
    res.push(rule("second_land_endpoint", Check::Item(Item::Province), false));
    res.push(rule("first_sea_endpoint", Check::Item(Item::Province), false));
    res.push(rule("second_sea_endpoint", Check::Item(Item::Province), false));
    assert(rules_view(res@) =~= spec_strait_definition_rules());
    res
}

/// What checking a strait finds.
pub open spec fn spec_strait_definition_validation(key: Token, block: Block) -> ValidationV {
    let v = nothing();
    let v = then(v, refers(Item::Localization, key.s@, key.loc, Usage::Required));
    let v = then(v, spec_check_block(spec_strait_definition_rules(), block));
    v
}

impl StraitDefinition {
    /// Adds a strait to the database (see [`Db::add`]).
    pub fn add(db: &mut Db, key: Token, block: Block, errors: &mut Errors, map: &MacroMap)
        requires
            old(errors).wf(),
            map.wf(),
        ensures
            final(errors).wf(),
            final(db).view_entries() == spec_db_insert(
                old(db).view_entries(),
                DbEntryV { item: Item::StraitDefinition, key: key.s@, loc: key.loc, block, kind: DbItemKind::StraitDefinition },
            ),
            final(errors).store() == spec_add_store(
                old(db).view_entries(),
                *old(errors),
                map.locs@,
                DbEntryV { item: Item::StraitDefinition, key: key.s@, loc: key.loc, block, kind: DbItemKind::StraitDefinition },
                false,
            ),
    {
        db.add(Item::StraitDefinition, key, block, DbItemKind::StraitDefinition, errors, map);
    }

    /// Checks the definition of a strait (see [`spec_strait_definition_validation`]).
    pub fn validate(&self, key: &Token, block: &Block) -> (res: Validation)
        ensures
            res@ == spec_strait_definition_validation(*key, *block),
    {
        let mut v = Validation::new();
        v.add_reference(Item::Localization, key.as_str(), key.loc, Usage::Required);
        check_block(&mut v, block, &strait_definition_rules());
        v
    }
}

} // verus!
