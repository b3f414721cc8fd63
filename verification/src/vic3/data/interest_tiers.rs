//! Tiers of interest in strategic regions.

use vstd::prelude::*;

use crate::block::{Block};
use crate::db::{spec_add_store, spec_db_insert, Db, DbEntryV};
use crate::item::Item;
use crate::report::errors::{Errors, MacroMap};
use crate::token::Token;
use crate::validator::{ScriptScope, 
    FieldRule, FieldRuleV, Validation, ValidationV, Check, Usage, nothing, then, refers, rules_view, rule,
    spec_rule, spec_check_block, check_block, suffixed,
};
use crate::vic3::data::DbItemKind;

verus! {

/// The tiers of interest.
#[derive(Clone, Copy, Debug)]
pub struct InterestTierType {}

/// The field rules of interest tier type definitions.
pub open spec fn spec_interest_tier_type_rules() -> Seq<FieldRuleV> {
    seq![
        spec_rule("icon"@, Check::Item(Item::File), false),
        spec_rule("small_icon"@, Check::Item(Item::File), false),
        spec_rule("rank"@, Check::Integer, false),
        spec_rule("min_involvement"@, Check::Numeric, false),
        spec_rule("max_involvement"@, Check::Numeric, false),
        spec_rule("state_modifier"@, Check::Block, false),
        spec_rule("colonization"@, Check::Bool, false),
        spec_rule("on_activate"@, Check::Script(ScriptScope::Own), false),
        spec_rule("on_deactivate"@, Check::Script(ScriptScope::Own), false),
        spec_rule("trade_advantage_exports"@, Check::Numeric, false),
        spec_rule("max_involvement"@, Check::Numeric, false),
    ]
}

fn interest_tier_type_rules() -> (res: Vec<FieldRule>)
    ensures
        rules_view(res@) == spec_interest_tier_type_rules(),
{
    let mut res: Vec<FieldRule> = Vec::new();
    res.push(rule("icon", Check::Item(Item::File), false));
    res.push(rule("small_icon", Check::Item(Item::File), false));
    res.push(rule("rank", Check::Integer, false));
    res.push(rule("min_involvement", Check::Numeric, false));
    res.push(rule("max_involvement", Check::Numeric, false));
    res.push(rule("state_modifier", Check::Block, false));
    res.push(rule("colonization", Check::Bool, false));
    res.push(rule("on_activate", Check::Script(ScriptScope::Own), false));
    res.push(rule("on_deactivate", Check::Script(ScriptScope::Own), false));
    res.push(rule("trade_advantage_exports", Check::Numeric, false));
    res.push(rule("max_involvement", Check::Numeric, false));
    assert(rules_view(res@) =~= spec_interest_tier_type_rules());
    res
}

/// What checking an interest tier finds.
pub open spec fn spec_interest_tier_type_validation(key: Token, block: Block) -> ValidationV {
    let v = nothing();
    let v = then(v, refers(Item::Localization, key.s@, key.loc, Usage::Required));
    let v = then(v, refers(Item::Localization, key.s@ + "_desc"@, key.loc, Usage::Implied));
    let v = then(v, spec_check_block(spec_interest_tier_type_rules(), block));
    v
}

impl InterestTierType {
    /// Adds an interest tier to the database (see [`Db::add`]).
    pub fn add(db: &mut Db, key: Token, block: Block, errors: &mut Errors, map: &MacroMap)
        requires
            old(errors).wf(),
            map.wf(),
        ensures
            final(errors).wf(),
            final(db).view_entries() == spec_db_insert(
                old(db).view_entries(),
                DbEntryV { item: Item::InterestTierType, key: key.s@, loc: key.loc, block, kind: DbItemKind::InterestTierType },
            ),
            final(errors).store() == spec_add_store(
                old(db).view_entries(),
                *old(errors),
                map.locs@,
                DbEntryV { item: Item::InterestTierType, key: key.s@, loc: key.loc, block, kind: DbItemKind::InterestTierType },
                false,
            ),
    {
        db.add(Item::InterestTierType, key, block, DbItemKind::InterestTierType, errors, map);
    }

    /// Checks the definition of an interest tier (see [`spec_interest_tier_type_validation`]).
    pub fn validate(&self, key: &Token, block: &Block) -> (res: Validation)
        ensures
            res@ == spec_interest_tier_type_validation(*key, *block),
    {
        let mut v = Validation::new();
        v.add_reference(Item::Localization, key.as_str(), key.loc, Usage::Required);
        v.add_reference_chars(Item::Localization, &suffixed(key, "_desc"), key.loc, Usage::Implied);
        check_block(&mut v, block, &interest_tier_type_rules());
        v
    }
}

} // verus!
