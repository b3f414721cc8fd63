//! AI stances towards strategic regions.

use vstd::prelude::*;

use crate::block::{Block};
use crate::db::{spec_add_store, spec_db_insert, Db, DbEntryV};
use crate::item::Item;
use crate::report::errors::{Errors, MacroMap};
use crate::token::Token;
use crate::validator::{
    FieldRule, FieldRuleV, Validation, ValidationV, Check, Usage, nothing, then, refers, rules_view, rule,
    spec_rule, spec_check_block, check_block,
};
use crate::vic3::data::DbItemKind;

verus! {

/// The AI stance types for strategic regions.
#[derive(Clone, Copy, Debug)]
pub struct AiStrategicRegionStanceType {}

/// The field rules of ai strategic region stance type definitions.
pub open spec fn spec_ai_strategic_region_stance_type_rules() -> Seq<FieldRuleV> {
    seq![
        spec_rule("icon"@, Check::Item(Item::File), false),
        spec_rule("can_send_fleets"@, Check::Bool, false),
        spec_rule("add_diplomatic_relevance"@, Check::Bool, false),
    ]
}

fn ai_strategic_region_stance_type_rules() -> (res: Vec<FieldRule>)
    ensures
        rules_view(res@) == spec_ai_strategic_region_stance_type_rules(),
{
    let mut res: Vec<FieldRule> = Vec::new();
    res.push(rule("icon", Check::Item(Item::File), false));
    res.push(rule("can_send_fleets", Check::Bool, false));
    res.push(rule("add_diplomatic_relevance", Check::Bool, false));
    assert(rules_view(res@) =~= spec_ai_strategic_region_stance_type_rules());
    res
}

/// What checking a strategic region stance type finds.
pub open spec fn spec_ai_strategic_region_stance_type_validation(key: Token, block: Block) -> ValidationV {
    let v = nothing();
    let v = then(v, refers(Item::Localization, key.s@, key.loc, Usage::Used));
    let v = then(v, spec_check_block(spec_ai_strategic_region_stance_type_rules(), block));
    v
}

impl AiStrategicRegionStanceType {
    /// Adds a strategic region stance type to the database (see [`Db::add`]).
    pub fn add(db: &mut Db, key: Token, block: Block, errors: &mut Errors, map: &MacroMap)
        requires
            old(errors).wf(),
            map.wf(),
        ensures
            final(errors).wf(),
            final(db).view_entries() == spec_db_insert(
                old(db).view_entries(),
                DbEntryV { item: Item::AiStrategicRegionStanceType, key: key.s@, loc: key.loc, block, kind: DbItemKind::AiStrategicRegionStanceType },
            ),
            final(errors).store() == spec_add_store(
                old(db).view_entries(),
                *old(errors),
                map.locs@,
                DbEntryV { item: Item::AiStrategicRegionStanceType, key: key.s@, loc: key.loc, block, kind: DbItemKind::AiStrategicRegionStanceType },
                false,
            ),
    {
        db.add(Item::AiStrategicRegionStanceType, key, block, DbItemKind::AiStrategicRegionStanceType, errors, map);
    }

    /// Checks the definition of a strategic region stance type (see [`spec_ai_strategic_region_stance_type_validation`]).
    pub fn validate(&self, key: &Token, block: &Block) -> (res: Validation)
        ensures
            res@ == spec_ai_strategic_region_stance_type_validation(*key, *block),
    {
        let mut v = Validation::new();
        v.add_reference(Item::Localization, key.as_str(), key.loc, Usage::Used);
        check_block(&mut v, block, &ai_strategic_region_stance_type_rules());
        v
    }
}

} // verus!
