//! Journal entries, and the groups they belong to.

use vstd::prelude::*;

use crate::block::{Block, BlockItem, BV, last_field_value};
use crate::db::{spec_add_store, spec_db_insert, Db, DbEntryV};
use crate::item::Item;
use crate::report::errors::{Errors, MacroMap};
use crate::token::Token;
use crate::validator::{ScriptScope, ScriptUseV, law_script_field_recorded, lemma_rule_lookup_steps, lemma_then_keeps_scripts, 
    FieldRule, FieldRuleV, Validation, ValidationV, Check, Usage, nothing, then, refers, rules_view,
    strings_view, owned, rule, choice_rule, spec_rule, spec_choice_rule, spec_check_block, check_block,
    spec_nested, check_nested, suffixed, found, FindingKind, field_seen, has_field, value_is,
    lemma_then_nothing, lemma_then_contains, lemma_finding_reported, findings_reports, FindingV,
};
use crate::report::{Confidence, ErrorKey, LogReportStyle, MetadataV, PointedMessageV, Severity};
use crate::vic3::data::DbItemKind;
use crate::db::find_entry;
use crate::scopes::{Scopes, COUNTRY, NONE};
use crate::text::{str_eq, first_index_of};
use crate::validator::rule_names;

verus! {

/// The scope that a journal entry's fields about the countries involved in
/// it (`should_be_involved`, the `*_all_involved` effects and the like) are
/// checked in: a country. Its other script fields are checked in its own
/// scope, which [`journal_entry_scope`] gives.
pub open spec fn involved_scope_spec() -> ScriptScope {
    ScriptScope::Fixed(Scopes { bits: 1u128 << COUNTRY })
}

/// The scope of the fields about the countries involved (see
/// [`involved_scope_spec`]).
pub fn involved_scope() -> (res: ScriptScope)
    ensures
        res == involved_scope_spec(),
{
    ScriptScope::Fixed(Scopes::single(COUNTRY))
}

/// The journal entries.
#[derive(Clone, Copy, Debug)]
pub struct JournalEntry {}

/// The groups of journal entries.
#[derive(Clone, Copy, Debug)]
pub struct JournalEntryGroup {}

/// The field rules of a journal entry with `progressbar = yes`.
pub open spec fn spec_journal_entry_rules_with_progressbar() -> Seq<FieldRuleV> {
    seq![
        spec_rule("group"@, Check::Item(Item::JournalEntryGroup), false),
        spec_rule("icon"@, Check::Item(Item::File), false),
        spec_rule("is_shown_when_inactive"@, Check::Script(ScriptScope::Own), false),
        spec_rule("should_be_involved"@, Check::Script(involved_scope_spec()), false),
        spec_rule("should_show_when_not_involved"@, Check::Script(involved_scope_spec()), false),
        spec_rule("scripted_button"@, Check::Item(Item::ScriptedButton), true),
        spec_rule("possible"@, Check::Script(ScriptScope::Own), false),
        spec_rule("immediate"@, Check::Script(ScriptScope::Own), false),
        spec_rule("immediate_all_involved"@, Check::Script(involved_scope_spec()), false),
        spec_rule("complete"@, Check::Script(ScriptScope::Own), false),
        spec_rule("on_complete"@, Check::Script(ScriptScope::Own), false),
        spec_rule("on_complete_all_involved"@, Check::Script(involved_scope_spec()), false),
        spec_rule("fail"@, Check::Script(ScriptScope::Own), false),
        spec_rule("on_fail"@, Check::Script(ScriptScope::Own), false),
        spec_rule("on_fail_all_involved"@, Check::Script(involved_scope_spec()), false),
        spec_rule("invalid"@, Check::Script(ScriptScope::Own), false),
        spec_rule("on_invalid"@, Check::Script(ScriptScope::Own), false),
        spec_rule("on_invalid_all_involved"@, Check::Script(involved_scope_spec()), false),
        spec_rule("on_become_involved_after_activation"@, Check::Script(involved_scope_spec()), false),
        spec_rule("on_no_longer_involved"@, Check::Script(involved_scope_spec()), false),
        spec_rule("widget"@, Check::Block, false),
        spec_rule("status_desc"@, Check::Script(ScriptScope::Own), false),
        spec_rule("event_outcome_activated_desc"@, Check::Script(ScriptScope::Own), true),
        spec_rule("event_outcome_activated_effect_desc"@, Check::Block, true),
        spec_rule("event_outcome_invalidated_desc"@, Check::Script(ScriptScope::Own), true),
        spec_rule("event_outcome_invalidated_effect_desc"@, Check::Block, true),
        spec_rule("event_outcome_completed_desc"@, Check::Script(ScriptScope::Own), true),
        spec_rule("event_outcome_completed_effect_desc"@, Check::Block, true),
        spec_rule("event_outcome_failed_desc"@, Check::Script(ScriptScope::Own), true),
        spec_rule("event_outcome_failed_effect_desc"@, Check::Block, true),
        spec_rule("event_outcome_timeout_desc"@, Check::Script(ScriptScope::Own), true),
        spec_rule("event_outcome_timeout_effect_desc"@, Check::Block, true),
        spec_rule("custom_completion_header"@, Check::Item(Item::Localization), false),
        spec_rule("custom_failure_header"@, Check::Item(Item::Localization), false),
        spec_rule("custom_on_completion_header"@, Check::Item(Item::Localization), false),
        spec_rule("custom_on_failure_header"@, Check::Item(Item::Localization), false),
        spec_rule("timeout"@, Check::Script(ScriptScope::Own), false),
        spec_rule("on_timeout"@, Check::Script(ScriptScope::Own), false),
        spec_rule("on_timeout_all_involved"@, Check::Script(involved_scope_spec()), false),
        spec_rule("modifiers_while_active"@, Check::ItemList(Item::Modifier), false),
        spec_rule("on_weekly_pulse"@, Check::Block, true),
        spec_rule("on_monthly_pulse"@, Check::Block, true),
        spec_rule("on_yearly_pulse"@, Check::Block, true),
        spec_rule("current_value"@, Check::Script(ScriptScope::Own), false),
        spec_rule("goal_add_value"@, Check::Script(ScriptScope::Own), false),
        spec_rule("weight"@, Check::Script(ScriptScope::Own), false),
        spec_rule("transferable"@, Check::Bool, false),
        spec_rule("can_revolution_inherit"@, Check::Bool, false),
        spec_rule("is_progressing"@, Check::Script(ScriptScope::Own), false),
        spec_rule("progressbar"@, Check::Bool, false),
        spec_rule("scripted_progress_bar"@, Check::Item(Item::ScriptedProgressBar), true),
        spec_rule("can_deactivate"@, Check::Bool, false),
        spec_rule("progress_desc"@, Check::Script(ScriptScope::Own), false),
        spec_rule("how_tutorial"@, Check::Item(Item::TutorialLesson), false),
        spec_rule("why_tutorial"@, Check::Item(Item::TutorialLesson), false),
        spec_rule("should_be_pinned_by_default"@, Check::Bool, false),
        spec_rule("should_be_pinned_by_default_uninvolved_or_context"@, Check::Bool, false),
        spec_rule("active_update_frequency"@, Check::Integer, false),
        spec_rule("should_update_on_player_command"@, Check::Bool, false),
        spec_rule("display_progressbar_as_months"@, Check::Bool, false),
        spec_rule("is_shown_in_lobby"@, Check::Script(ScriptScope::Own), false),
    ]
}

fn journal_entry_rules_with_progressbar() -> (res: Vec<FieldRule>)
    ensures
        rules_view(res@) == spec_journal_entry_rules_with_progressbar(),
{
    let mut res: Vec<FieldRule> = Vec::new();
    res.push(rule("group", Check::Item(Item::JournalEntryGroup), false));
    res.push(rule("icon", Check::Item(Item::File), false));
    res.push(rule("is_shown_when_inactive", Check::Script(ScriptScope::Own), false));
    res.push(rule("should_be_involved", Check::Script(involved_scope()), false));
    res.push(rule("should_show_when_not_involved", Check::Script(involved_scope()), false));
    res.push(rule("scripted_button", Check::Item(Item::ScriptedButton), true));
    res.push(rule("possible", Check::Script(ScriptScope::Own), false));
    res.push(rule("immediate", Check::Script(ScriptScope::Own), false));
    res.push(rule("immediate_all_involved", Check::Script(involved_scope()), false));
    res.push(rule("complete", Check::Script(ScriptScope::Own), false));
    res.push(rule("on_complete", Check::Script(ScriptScope::Own), false));
    res.push(rule("on_complete_all_involved", Check::Script(involved_scope()), false));
    res.push(rule("fail", Check::Script(ScriptScope::Own), false));
    res.push(rule("on_fail", Check::Script(ScriptScope::Own), false));
    res.push(rule("on_fail_all_involved", Check::Script(involved_scope()), false));
    res.push(rule("invalid", Check::Script(ScriptScope::Own), false));
    res.push(rule("on_invalid", Check::Script(ScriptScope::Own), false));
    res.push(rule("on_invalid_all_involved", Check::Script(involved_scope()), false));
    res.push(rule("on_become_involved_after_activation", Check::Script(involved_scope()), false));
    res.push(rule("on_no_longer_involved", Check::Script(involved_scope()), false));
    res.push(rule("widget", Check::Block, false));
    res.push(rule("status_desc", Check::Script(ScriptScope::Own), false));
    res.push(rule("event_outcome_activated_desc", Check::Script(ScriptScope::Own), true));
    res.push(rule("event_outcome_activated_effect_desc", Check::Block, true));
    res.push(rule("event_outcome_invalidated_desc", Check::Script(ScriptScope::Own), true));
    res.push(rule("event_outcome_invalidated_effect_desc", Check::Block, true));
    res.push(rule("event_outcome_completed_desc", Check::Script(ScriptScope::Own), true));
    res.push(rule("event_outcome_completed_effect_desc", Check::Block, true));
    res.push(rule("event_outcome_failed_desc", Check::Script(ScriptScope::Own), true));
    res.push(rule("event_outcome_failed_effect_desc", Check::Block, true));
    res.push(rule("event_outcome_timeout_desc", Check::Script(ScriptScope::Own), true));
    res.push(rule("event_outcome_timeout_effect_desc", Check::Block, true));
    res.push(rule("custom_completion_header", Check::Item(Item::Localization), false));
    res.push(rule("custom_failure_header", Check::Item(Item::Localization), false));
    res.push(rule("custom_on_completion_header", Check::Item(Item::Localization), false));
    res.push(rule("custom_on_failure_header", Check::Item(Item::Localization), false));
    res.push(rule("timeout", Check::Script(ScriptScope::Own), false));
    res.push(rule("on_timeout", Check::Script(ScriptScope::Own), false));
    res.push(rule("on_timeout_all_involved", Check::Script(involved_scope()), false));
    res.push(rule("modifiers_while_active", Check::ItemList(Item::Modifier), false));
    res.push(rule("on_weekly_pulse", Check::Block, true));
    res.push(rule("on_monthly_pulse", Check::Block, true));
    res.push(rule("on_yearly_pulse", Check::Block, true));
    res.push(rule("current_value", Check::Script(ScriptScope::Own), false));
    res.push(rule("goal_add_value", Check::Script(ScriptScope::Own), false));
    res.push(rule("weight", Check::Script(ScriptScope::Own), false));
    res.push(rule("transferable", Check::Bool, false));
    res.push(rule("can_revolution_inherit", Check::Bool, false));
    res.push(rule("is_progressing", Check::Script(ScriptScope::Own), false));
    res.push(rule("progressbar", Check::Bool, false));
    res.push(rule("scripted_progress_bar", Check::Item(Item::ScriptedProgressBar), true));
    res.push(rule("can_deactivate", Check::Bool, false));
    res.push(rule("progress_desc", Check::Script(ScriptScope::Own), false));
    res.push(rule("how_tutorial", Check::Item(Item::TutorialLesson), false));
    res.push(rule("why_tutorial", Check::Item(Item::TutorialLesson), false));
    res.push(rule("should_be_pinned_by_default", Check::Bool, false));
    res.push(rule("should_be_pinned_by_default_uninvolved_or_context", Check::Bool, false));
    res.push(rule("active_update_frequency", Check::Integer, false));
    res.push(rule("should_update_on_player_command", Check::Bool, false));
    res.push(rule("display_progressbar_as_months", Check::Bool, false));
    res.push(rule("is_shown_in_lobby", Check::Script(ScriptScope::Own), false));
    assert(rules_view(res@) =~= spec_journal_entry_rules_with_progressbar());
    res
}

/// The field rules of a journal entry without `progressbar = yes`.
pub open spec fn spec_journal_entry_rules_without_progressbar() -> Seq<FieldRuleV> {
    seq![
        spec_rule("group"@, Check::Item(Item::JournalEntryGroup), false),
        spec_rule("icon"@, Check::Item(Item::File), false),
        spec_rule("is_shown_when_inactive"@, Check::Script(ScriptScope::Own), false),
        spec_rule("should_be_involved"@, Check::Script(involved_scope_spec()), false),
        spec_rule("should_show_when_not_involved"@, Check::Script(involved_scope_spec()), false),
        spec_rule("scripted_button"@, Check::Item(Item::ScriptedButton), true),
        spec_rule("possible"@, Check::Script(ScriptScope::Own), false),
        spec_rule("immediate"@, Check::Script(ScriptScope::Own), false),
        spec_rule("immediate_all_involved"@, Check::Script(involved_scope_spec()), false),
        spec_rule("complete"@, Check::Script(ScriptScope::Own), false),
        spec_rule("on_complete"@, Check::Script(ScriptScope::Own), false),
        spec_rule("on_complete_all_involved"@, Check::Script(involved_scope_spec()), false),
        spec_rule("fail"@, Check::Script(ScriptScope::Own), false),
        spec_rule("on_fail"@, Check::Script(ScriptScope::Own), false),
        spec_rule("on_fail_all_involved"@, Check::Script(involved_scope_spec()), false),
        spec_rule("invalid"@, Check::Script(ScriptScope::Own), false),
        spec_rule("on_invalid"@, Check::Script(ScriptScope::Own), false),
        spec_rule("on_invalid_all_involved"@, Check::Script(involved_scope_spec()), false),
        spec_rule("on_become_involved_after_activation"@, Check::Script(involved_scope_spec()), false),
        spec_rule("on_no_longer_involved"@, Check::Script(involved_scope_spec()), false),
        spec_rule("widget"@, Check::Block, false),
        spec_rule("status_desc"@, Check::Script(ScriptScope::Own), false),
        spec_rule("event_outcome_activated_desc"@, Check::Script(ScriptScope::Own), true),
        spec_rule("event_outcome_activated_effect_desc"@, Check::Block, true),
        spec_rule("event_outcome_invalidated_desc"@, Check::Script(ScriptScope::Own), true),
        spec_rule("event_outcome_invalidated_effect_desc"@, Check::Block, true),
        spec_rule("event_outcome_completed_desc"@, Check::Script(ScriptScope::Own), true),
        spec_rule("event_outcome_completed_effect_desc"@, Check::Block, true),
        spec_rule("event_outcome_failed_desc"@, Check::Script(ScriptScope::Own), true),
        spec_rule("event_outcome_failed_effect_desc"@, Check::Block, true),
        spec_rule("event_outcome_timeout_desc"@, Check::Script(ScriptScope::Own), true),
        spec_rule("event_outcome_timeout_effect_desc"@, Check::Block, true),
        spec_rule("custom_completion_header"@, Check::Item(Item::Localization), false),
        spec_rule("custom_failure_header"@, Check::Item(Item::Localization), false),
        spec_rule("custom_on_completion_header"@, Check::Item(Item::Localization), false),
        spec_rule("custom_on_failure_header"@, Check::Item(Item::Localization), false),
        spec_rule("timeout"@, Check::Script(ScriptScope::Own), false),
        spec_rule("on_timeout"@, Check::Script(ScriptScope::Own), false),
        spec_rule("on_timeout_all_involved"@, Check::Script(involved_scope_spec()), false),
        spec_rule("modifiers_while_active"@, Check::ItemList(Item::Modifier), false),
        spec_rule("on_weekly_pulse"@, Check::Block, true),
        spec_rule("on_monthly_pulse"@, Check::Block, true),
        spec_rule("on_yearly_pulse"@, Check::Block, true),
        spec_rule("current_value"@, Check::Script(ScriptScope::Own), false),
        spec_rule("goal_add_value"@, Check::Script(ScriptScope::Own), false),
        spec_rule("weight"@, Check::Script(ScriptScope::Own), false),
        spec_rule("transferable"@, Check::Bool, false),
        spec_rule("can_revolution_inherit"@, Check::Bool, false),
        spec_rule("is_progressing"@, Check::Script(ScriptScope::Own), false),
        spec_rule("progressbar"@, Check::Bool, false),
        spec_rule("scripted_progress_bar"@, Check::Item(Item::ScriptedProgressBar), true),
        spec_rule("can_deactivate"@, Check::Bool, false),
        spec_rule("progress_desc"@, Check::Banned, false),
        spec_rule("how_tutorial"@, Check::Item(Item::TutorialLesson), false),
        spec_rule("why_tutorial"@, Check::Item(Item::TutorialLesson), false),
        spec_rule("should_be_pinned_by_default"@, Check::Bool, false),
        spec_rule("should_be_pinned_by_default_uninvolved_or_context"@, Check::Bool, false),
        spec_rule("active_update_frequency"@, Check::Integer, false),
        spec_rule("should_update_on_player_command"@, Check::Bool, false),
        spec_rule("display_progressbar_as_months"@, Check::Bool, false),
        spec_rule("is_shown_in_lobby"@, Check::Script(ScriptScope::Own), false),
    ]
}

fn journal_entry_rules_without_progressbar() -> (res: Vec<FieldRule>)
    ensures
        rules_view(res@) == spec_journal_entry_rules_without_progressbar(),
{
    let mut res: Vec<FieldRule> = Vec::new();
    res.push(rule("group", Check::Item(Item::JournalEntryGroup), false));
    res.push(rule("icon", Check::Item(Item::File), false));
    res.push(rule("is_shown_when_inactive", Check::Script(ScriptScope::Own), false));
    res.push(rule("should_be_involved", Check::Script(involved_scope()), false));
    res.push(rule("should_show_when_not_involved", Check::Script(involved_scope()), false));
    res.push(rule("scripted_button", Check::Item(Item::ScriptedButton), true));
    res.push(rule("possible", Check::Script(ScriptScope::Own), false));
    res.push(rule("immediate", Check::Script(ScriptScope::Own), false));
    res.push(rule("immediate_all_involved", Check::Script(involved_scope()), false));
    res.push(rule("complete", Check::Script(ScriptScope::Own), false));
    res.push(rule("on_complete", Check::Script(ScriptScope::Own), false));
    res.push(rule("on_complete_all_involved", Check::Script(involved_scope()), false));
    res.push(rule("fail", Check::Script(ScriptScope::Own), false));
    res.push(rule("on_fail", Check::Script(ScriptScope::Own), false));
    res.push(rule("on_fail_all_involved", Check::Script(involved_scope()), false));
    res.push(rule("invalid", Check::Script(ScriptScope::Own), false));
    res.push(rule("on_invalid", Check::Script(ScriptScope::Own), false));
    res.push(rule("on_invalid_all_involved", Check::Script(involved_scope()), false));
    res.push(rule("on_become_involved_after_activation", Check::Script(involved_scope()), false));
    res.push(rule("on_no_longer_involved", Check::Script(involved_scope()), false));
    res.push(rule("widget", Check::Block, false));
    res.push(rule("status_desc", Check::Script(ScriptScope::Own), false));
    res.push(rule("event_outcome_activated_desc", Check::Script(ScriptScope::Own), true));
    res.push(rule("event_outcome_activated_effect_desc", Check::Block, true));
    res.push(rule("event_outcome_invalidated_desc", Check::Script(ScriptScope::Own), true));
    res.push(rule("event_outcome_invalidated_effect_desc", Check::Block, true));
    res.push(rule("event_outcome_completed_desc", Check::Script(ScriptScope::Own), true));
    res.push(rule("event_outcome_completed_effect_desc", Check::Block, true));
    res.push(rule("event_outcome_failed_desc", Check::Script(ScriptScope::Own), true));
    res.push(rule("event_outcome_failed_effect_desc", Check::Block, true));
    res.push(rule("event_outcome_timeout_desc", Check::Script(ScriptScope::Own), true));
    res.push(rule("event_outcome_timeout_effect_desc", Check::Block, true));
    res.push(rule("custom_completion_header", Check::Item(Item::Localization), false));
    res.push(rule("custom_failure_header", Check::Item(Item::Localization), false));
    res.push(rule("custom_on_completion_header", Check::Item(Item::Localization), false));
    res.push(rule("custom_on_failure_header", Check::Item(Item::Localization), false));
    res.push(rule("timeout", Check::Script(ScriptScope::Own), false));
    res.push(rule("on_timeout", Check::Script(ScriptScope::Own), false));
    res.push(rule("on_timeout_all_involved", Check::Script(involved_scope()), false));
    res.push(rule("modifiers_while_active", Check::ItemList(Item::Modifier), false));
    res.push(rule("on_weekly_pulse", Check::Block, true));
    res.push(rule("on_monthly_pulse", Check::Block, true));
    res.push(rule("on_yearly_pulse", Check::Block, true));
    res.push(rule("current_value", Check::Script(ScriptScope::Own), false));
    res.push(rule("goal_add_value", Check::Script(ScriptScope::Own), false));
    res.push(rule("weight", Check::Script(ScriptScope::Own), false));
    res.push(rule("transferable", Check::Bool, false));
    res.push(rule("can_revolution_inherit", Check::Bool, false));
    res.push(rule("is_progressing", Check::Script(ScriptScope::Own), false));
    res.push(rule("progressbar", Check::Bool, false));
    res.push(rule("scripted_progress_bar", Check::Item(Item::ScriptedProgressBar), true));
    res.push(rule("can_deactivate", Check::Bool, false));
    res.push(rule("progress_desc", Check::Banned, false));
    res.push(rule("how_tutorial", Check::Item(Item::TutorialLesson), false));
    res.push(rule("why_tutorial", Check::Item(Item::TutorialLesson), false));
    res.push(rule("should_be_pinned_by_default", Check::Bool, false));
    res.push(rule("should_be_pinned_by_default_uninvolved_or_context", Check::Bool, false));
    res.push(rule("active_update_frequency", Check::Integer, false));
    res.push(rule("should_update_on_player_command", Check::Bool, false));
    res.push(rule("display_progressbar_as_months", Check::Bool, false));
    res.push(rule("is_shown_in_lobby", Check::Script(ScriptScope::Own), false));
    assert(rules_view(res@) =~= spec_journal_entry_rules_without_progressbar());
    res
}

/// The field rules of the `widget` block of a journal entry.
pub open spec fn spec_journal_entry_widget_rules() -> Seq<FieldRuleV> {
    seq![
        spec_rule("gui"@, Check::Item(Item::File), false),
        spec_rule("name"@, Check::Value, false),
        spec_rule("container"@, Check::Value, false),
    ]
}

fn journal_entry_widget_rules() -> (res: Vec<FieldRule>)
    ensures
        rules_view(res@) == spec_journal_entry_widget_rules(),
{
    let mut res: Vec<FieldRule> = Vec::new();
    res.push(rule("gui", Check::Item(Item::File), false));
    res.push(rule("name", Check::Value, false));
    res.push(rule("container", Check::Value, false));
    assert(rules_view(res@) =~= spec_journal_entry_widget_rules());
    res
}

/// The field rules of an effect description block of a journal entry.
pub open spec fn spec_journal_entry_effect_desc_rules() -> Seq<FieldRuleV> {
    seq![
        spec_rule("header"@, Check::Item(Item::Localization), false),
        spec_rule("effect"@, Check::Script(ScriptScope::Own), false),
    ]
}

fn journal_entry_effect_desc_rules() -> (res: Vec<FieldRule>)
    ensures
        rules_view(res@) == spec_journal_entry_effect_desc_rules(),
{
    let mut res: Vec<FieldRule> = Vec::new();
    res.push(rule("header", Check::Item(Item::Localization), false));
    res.push(rule("effect", Check::Script(ScriptScope::Own), false));
    assert(rules_view(res@) =~= spec_journal_entry_effect_desc_rules());
    res
}

/// What checking a journal entry finds.
pub open spec fn spec_journal_entry_validation(key: Token, block: Block) -> ValidationV {
    let v = nothing();
    let v = then(v, refers(Item::Localization, key.s@, key.loc, Usage::Required));
    let v = then(v, refers(Item::Localization, key.s@ + "_reason"@, key.loc, Usage::Implied));
    let v = then(v, refers(Item::Localization, key.s@ + "_goal"@, key.loc, Usage::Used));
    let v = then(v, spec_check_block(if value_is(block.items@, "progressbar"@, "yes"@) { spec_journal_entry_rules_with_progressbar() } else { spec_journal_entry_rules_without_progressbar() }, block));
    let v = then(v, spec_nested(block.items@, "widget"@, spec_journal_entry_widget_rules()));
    let v = then(v, if !field_seen(block.items@, "status_desc"@) { refers(Item::Localization, key.s@ + "_status"@, key.loc, Usage::Used) } else { nothing() });
    let v = then(v, spec_nested(block.items@, "event_outcome_activated_effect_desc"@, spec_journal_entry_effect_desc_rules()));
    let v = then(v, spec_nested(block.items@, "event_outcome_invalidated_effect_desc"@, spec_journal_entry_effect_desc_rules()));
    let v = then(v, spec_nested(block.items@, "event_outcome_completed_effect_desc"@, spec_journal_entry_effect_desc_rules()));
    let v = then(v, spec_nested(block.items@, "event_outcome_failed_effect_desc"@, spec_journal_entry_effect_desc_rules()));
    let v = then(v, spec_nested(block.items@, "event_outcome_timeout_effect_desc"@, spec_journal_entry_effect_desc_rules()));
    let v = then(v, match last_field_value(block.items@, "timeout"@) { Some(t) => if t.s@ == "0"@ { found(FindingKind::ZeroTimeout, t.loc) } else { nothing() }, None => nothing() });
    let v = then(v, if value_is(block.items@, "progressbar"@, "yes"@) && !field_seen(block.items@, "progress_desc"@) { refers(Item::Localization, key.s@ + "_progress"@, key.loc, Usage::Used) } else { nothing() });
    v
}

impl JournalEntry {
    /// Adds a journal entry to the database (see [`Db::add`]).
    pub fn add(db: &mut Db, key: Token, block: Block, errors: &mut Errors, map: &MacroMap)
        requires
            old(errors).wf(),
            map.wf(),
        ensures
            final(errors).wf(),
            final(db).view_entries() == spec_db_insert(
                old(db).view_entries(),
                DbEntryV { item: Item::JournalEntry, key: key.s@, loc: key.loc, block, kind: DbItemKind::JournalEntry },
            ),
            final(errors).store() == spec_add_store(
                old(db).view_entries(),
                *old(errors),
                map.locs@,
                DbEntryV { item: Item::JournalEntry, key: key.s@, loc: key.loc, block, kind: DbItemKind::JournalEntry },
                false,
            ),
    {
        db.add(Item::JournalEntry, key, block, DbItemKind::JournalEntry, errors, map);
    }

    /// Checks the definition of a journal entry (see [`spec_journal_entry_validation`]).
    pub fn validate(&self, key: &Token, block: &Block) -> (res: Validation)
        ensures
            res@ == spec_journal_entry_validation(*key, *block),
    {
        let mut v = Validation::new();
        v.add_reference(Item::Localization, key.as_str(), key.loc, Usage::Required);
        v.add_reference_chars(Item::Localization, &suffixed(key, "_reason"), key.loc, Usage::Implied);
        v.add_reference_chars(Item::Localization, &suffixed(key, "_goal"), key.loc, Usage::Used);
        let rules = if block.field_value_is("progressbar", "yes") {
            journal_entry_rules_with_progressbar()
        } else {
            journal_entry_rules_without_progressbar()
        };
        check_block(&mut v, block, &rules);
        check_nested(&mut v, block, "widget", &journal_entry_widget_rules());
        if !has_field(block, "status_desc") {
            v.add_reference_chars(Item::Localization, &suffixed(key, "_status"), key.loc, Usage::Used);
        } else {
            proof {
                lemma_then_nothing(v@);
            }
        }
        check_nested(&mut v, block, "event_outcome_activated_effect_desc", &journal_entry_effect_desc_rules());
        check_nested(&mut v, block, "event_outcome_invalidated_effect_desc", &journal_entry_effect_desc_rules());
        check_nested(&mut v, block, "event_outcome_completed_effect_desc", &journal_entry_effect_desc_rules());
        check_nested(&mut v, block, "event_outcome_failed_effect_desc", &journal_entry_effect_desc_rules());
        check_nested(&mut v, block, "event_outcome_timeout_effect_desc", &journal_entry_effect_desc_rules());
        match block.get_field_value("timeout") {
            Some(t) => {
                if t.is("0") {
                    v.add_finding(FindingKind::ZeroTimeout, t.loc);
                } else {
                    proof {
                        lemma_then_nothing(v@);
                    }
                }
            },
            None => {
                proof {
                    lemma_then_nothing(v@);
                }
            },
        }
        if block.field_value_is("progressbar", "yes") && !has_field(block, "progress_desc") {
            v.add_reference_chars(Item::Localization, &suffixed(key, "_progress"), key.loc, Usage::Used);
        } else {
            proof {
                lemma_then_nothing(v@);
            }
        }
        v
    }
}

fn journal_entry_group_rules_choices_0() -> (res: Vec<String>)
    ensures
        strings_view(res@) == seq!["none"@, "country"@],
{
    let mut res: Vec<String> = Vec::new();
    res.push(owned("none"));
    res.push(owned("country"));
    assert(strings_view(res@) =~= seq!["none"@, "country"@]);
    res
}

/// The field rules of journal entry group definitions.
pub open spec fn spec_journal_entry_group_rules() -> Seq<FieldRuleV> {
    seq![
        spec_choice_rule("context"@, Check::Choice, seq!["none"@, "country"@]),
    ]
}

fn journal_entry_group_rules() -> (res: Vec<FieldRule>)
    ensures
        rules_view(res@) == spec_journal_entry_group_rules(),
{
    let mut res: Vec<FieldRule> = Vec::new();
    res.push(choice_rule("context", Check::Choice, journal_entry_group_rules_choices_0()));
    assert(rules_view(res@) =~= spec_journal_entry_group_rules());
    res
}

/// What checking a journal entry group finds.
pub open spec fn spec_journal_entry_group_validation(key: Token, block: Block) -> ValidationV {
    let v = nothing();
    let v = then(v, refers(Item::Localization, key.s@, key.loc, Usage::Required));
    let v = then(v, spec_check_block(spec_journal_entry_group_rules(), block));
    v
}

impl JournalEntryGroup {
    /// Adds a journal entry group to the database (see [`Db::add`]).
    pub fn add(db: &mut Db, key: Token, block: Block, errors: &mut Errors, map: &MacroMap)
        requires
            old(errors).wf(),
            map.wf(),
        ensures
            final(errors).wf(),
            final(db).view_entries() == spec_db_insert(
                old(db).view_entries(),
                DbEntryV { item: Item::JournalEntryGroup, key: key.s@, loc: key.loc, block, kind: DbItemKind::JournalEntryGroup },
            ),
            final(errors).store() == spec_add_store(
                old(db).view_entries(),
                *old(errors),
                map.locs@,
                DbEntryV { item: Item::JournalEntryGroup, key: key.s@, loc: key.loc, block, kind: DbItemKind::JournalEntryGroup },
                false,
            ),
    {
        db.add(Item::JournalEntryGroup, key, block, DbItemKind::JournalEntryGroup, errors, map);
    }

    /// Checks the definition of a journal entry group (see [`spec_journal_entry_group_validation`]).
    pub fn validate(&self, key: &Token, block: &Block) -> (res: Validation)
        ensures
            res@ == spec_journal_entry_group_validation(*key, *block),
    {
        let mut v = Validation::new();
        v.add_reference(Item::Localization, key.as_str(), key.loc, Usage::Required);
        check_block(&mut v, block, &journal_entry_group_rules());
        v
    }
}

/// Whether a journal entry group with this block has the property: only
/// `none_context`, which a group with `context = none` has.
pub open spec fn spec_group_has_property(block: Block, property: Seq<char>) -> bool {
    property == "none_context"@ && value_is(block.items@, "context"@, "none"@)
}

/// The scope type that the triggers and effects of a journal entry start
/// in: none if its `group` names a journal entry group with
/// `context = none`, else a country.
pub open spec fn spec_journal_entry_scope(db: Seq<DbEntryV>, block: Block) -> Scopes {
    match last_field_value(block.items@, "group"@) {
        Some(group) => {
            let i = find_entry(db, Item::JournalEntryGroup, group.s@);
            if i >= 0 && db[i].kind.spec_has_property(db[i].block, "none_context"@) {
                Scopes { bits: 1u128 << NONE }
            } else {
                Scopes { bits: 1u128 << COUNTRY }
            }
        },
        None => Scopes { bits: 1u128 << COUNTRY },
    }
}

/// The scope type that the triggers and effects of a journal entry start in
/// (see [`spec_journal_entry_scope`]).
pub fn journal_entry_scope(db: &Db, block: &Block) -> (res: Scopes)
    ensures
        res == spec_journal_entry_scope(db.view_entries(), *block),
{
    match block.get_field_value("group") {
        Some(group) => {
            if db.item_has_property(Item::JournalEntryGroup, group.as_str(), "none_context") {
                Scopes::single(NONE)
            } else {
                Scopes::single(COUNTRY)
            }
        },
        None => Scopes::single(COUNTRY),
    }
}

impl JournalEntryGroup {
    /// Whether a journal entry group with this block has the property (see
    /// [`spec_group_has_property`]).
    pub fn has_property(&self, block: &Block, property: &str) -> (res: bool)
        ensures
            res == spec_group_has_property(*block, property@),
    {
        if str_eq(property, "none_context") {
            return block.field_value_is("context", "none");
        }
        proof {
            reveal_strlit("none_context");
        }
        false
    }
}

/// A journal entry with a timeout of 0 is reported as a logic error at the
/// timeout: it closes the entry at once.
pub proof fn law_zero_timeout_reported(key: Token, block: Block, t: Token)
    requires
        last_field_value(block.items@, "timeout"@) == Some(t),
        t.s@ == "0"@,
    ensures
        findings_reports(spec_journal_entry_validation(key, block).findings).contains((
            MetadataV {
                key: ErrorKey::Logic,
                severity: Severity::Error,
                confidence: Confidence::Reasonable,
                msg: "as of 1.9.5, a timeout of 0 will close the journal entry immediately"@,
                info: None,
                wiki: None,
                style: LogReportStyle::Full,
            },
            seq![PointedMessageV { loc: t.loc, length: 1, msg: None }],
        )),
{
    let x = FindingV { kind: FindingKind::ZeroTimeout, loc: t.loc, other: None, subject: Seq::empty(), max: Severity::Fatal };
    let step = found(FindingKind::ZeroTimeout, t.loc);
    assert(step.findings[0] == x);
    let v = nothing();
    let v = then(v, refers(Item::Localization, key.s@, key.loc, Usage::Required));
    let v = then(v, refers(Item::Localization, key.s@ + "_reason"@, key.loc, Usage::Implied));
    let v = then(v, refers(Item::Localization, key.s@ + "_goal"@, key.loc, Usage::Used));
    let v = then(v, spec_check_block(if value_is(block.items@, "progressbar"@, "yes"@) { spec_journal_entry_rules_with_progressbar() } else { spec_journal_entry_rules_without_progressbar() }, block));
    let v = then(v, spec_nested(block.items@, "widget"@, spec_journal_entry_widget_rules()));
    let v = then(v, if !field_seen(block.items@, "status_desc"@) { refers(Item::Localization, key.s@ + "_status"@, key.loc, Usage::Used) } else { nothing() });
    let v = then(v, spec_nested(block.items@, "event_outcome_activated_effect_desc"@, spec_journal_entry_effect_desc_rules()));
    let v = then(v, spec_nested(block.items@, "event_outcome_invalidated_effect_desc"@, spec_journal_entry_effect_desc_rules()));
    let v = then(v, spec_nested(block.items@, "event_outcome_completed_effect_desc"@, spec_journal_entry_effect_desc_rules()));
    let v = then(v, spec_nested(block.items@, "event_outcome_failed_effect_desc"@, spec_journal_entry_effect_desc_rules()));
    let v = then(v, spec_nested(block.items@, "event_outcome_timeout_effect_desc"@, spec_journal_entry_effect_desc_rules()));
    lemma_then_contains(v, step, x);
    let w = then(v, step);
    let p = if value_is(block.items@, "progressbar"@, "yes"@) && !field_seen(block.items@, "progress_desc"@) { refers(Item::Localization, key.s@ + "_progress"@, key.loc, Usage::Used) } else { nothing() };
    lemma_then_contains(w, p, x);
    assert(then(w, p) == spec_journal_entry_validation(key, block));
    lemma_finding_reported(spec_journal_entry_validation(key, block).findings, x);
}

} // verus!


verus! {

/// The script fields of a journal entry (triggers, effects, script values
/// and descriptions) and the scope each is checked in: the journal entry's
/// own scope, except for the fields about the countries involved in it,
/// which are checked as a country.
pub open spec fn journal_entry_script_fields() -> Seq<(Seq<char>, ScriptScope)> {
    seq![
        ("is_shown_when_inactive"@, ScriptScope::Own),
        ("should_be_involved"@, ScriptScope::Fixed(Scopes { bits: 1u128 << COUNTRY })),
        ("should_show_when_not_involved"@, ScriptScope::Fixed(Scopes { bits: 1u128 << COUNTRY })),
        ("possible"@, ScriptScope::Own),
        ("immediate"@, ScriptScope::Own),
        ("immediate_all_involved"@, ScriptScope::Fixed(Scopes { bits: 1u128 << COUNTRY })),
        ("complete"@, ScriptScope::Own),
        ("on_complete"@, ScriptScope::Own),
        ("on_complete_all_involved"@, ScriptScope::Fixed(Scopes { bits: 1u128 << COUNTRY })),
        ("fail"@, ScriptScope::Own),
        ("on_fail"@, ScriptScope::Own),
        ("on_fail_all_involved"@, ScriptScope::Fixed(Scopes { bits: 1u128 << COUNTRY })),
        ("invalid"@, ScriptScope::Own),
        ("on_invalid"@, ScriptScope::Own),
        ("on_invalid_all_involved"@, ScriptScope::Fixed(Scopes { bits: 1u128 << COUNTRY })),
        ("on_become_involved_after_activation"@, ScriptScope::Fixed(Scopes { bits: 1u128 << COUNTRY })),
        ("on_no_longer_involved"@, ScriptScope::Fixed(Scopes { bits: 1u128 << COUNTRY })),
        ("status_desc"@, ScriptScope::Own),
        ("event_outcome_activated_desc"@, ScriptScope::Own),
        ("event_outcome_invalidated_desc"@, ScriptScope::Own),
        ("event_outcome_completed_desc"@, ScriptScope::Own),
        ("event_outcome_failed_desc"@, ScriptScope::Own),
        ("event_outcome_timeout_desc"@, ScriptScope::Own),
        ("timeout"@, ScriptScope::Own),
        ("on_timeout"@, ScriptScope::Own),
        ("on_timeout_all_involved"@, ScriptScope::Fixed(Scopes { bits: 1u128 << COUNTRY })),
        ("current_value"@, ScriptScope::Own),
        ("goal_add_value"@, ScriptScope::Own),
        ("weight"@, ScriptScope::Own),
        ("is_progressing"@, ScriptScope::Own),
        ("is_shown_in_lobby"@, ScriptScope::Own),
    ]
}

/// Which rule of the journal entry rules with a progress bar each script field
/// goes by: the one rule with its name.
#[verifier::rlimit(60)]
proof fn lemma_journal_entry_rule_lookup_with()
    ensures
        first_index_of(rule_names(spec_journal_entry_rules_with_progressbar()), "is_shown_when_inactive"@) == 2,
        first_index_of(rule_names(spec_journal_entry_rules_with_progressbar()), "should_be_involved"@) == 3,
        first_index_of(rule_names(spec_journal_entry_rules_with_progressbar()), "should_show_when_not_involved"@) == 4,
        first_index_of(rule_names(spec_journal_entry_rules_with_progressbar()), "possible"@) == 6,
        first_index_of(rule_names(spec_journal_entry_rules_with_progressbar()), "immediate"@) == 7,
        first_index_of(rule_names(spec_journal_entry_rules_with_progressbar()), "immediate_all_involved"@) == 8,
        first_index_of(rule_names(spec_journal_entry_rules_with_progressbar()), "complete"@) == 9,
        first_index_of(rule_names(spec_journal_entry_rules_with_progressbar()), "on_complete"@) == 10,
        first_index_of(rule_names(spec_journal_entry_rules_with_progressbar()), "on_complete_all_involved"@) == 11,
        first_index_of(rule_names(spec_journal_entry_rules_with_progressbar()), "fail"@) == 12,
        first_index_of(rule_names(spec_journal_entry_rules_with_progressbar()), "on_fail"@) == 13,
        first_index_of(rule_names(spec_journal_entry_rules_with_progressbar()), "on_fail_all_involved"@) == 14,
        first_index_of(rule_names(spec_journal_entry_rules_with_progressbar()), "invalid"@) == 15,
        first_index_of(rule_names(spec_journal_entry_rules_with_progressbar()), "on_invalid"@) == 16,
        first_index_of(rule_names(spec_journal_entry_rules_with_progressbar()), "on_invalid_all_involved"@) == 17,
        first_index_of(rule_names(spec_journal_entry_rules_with_progressbar()), "on_become_involved_after_activation"@) == 18,
        first_index_of(rule_names(spec_journal_entry_rules_with_progressbar()), "on_no_longer_involved"@) == 19,
        first_index_of(rule_names(spec_journal_entry_rules_with_progressbar()), "status_desc"@) == 21,
        first_index_of(rule_names(spec_journal_entry_rules_with_progressbar()), "event_outcome_activated_desc"@) == 22,
        first_index_of(rule_names(spec_journal_entry_rules_with_progressbar()), "event_outcome_invalidated_desc"@) == 24,
        first_index_of(rule_names(spec_journal_entry_rules_with_progressbar()), "event_outcome_completed_desc"@) == 26,
        first_index_of(rule_names(spec_journal_entry_rules_with_progressbar()), "event_outcome_failed_desc"@) == 28,
        first_index_of(rule_names(spec_journal_entry_rules_with_progressbar()), "event_outcome_timeout_desc"@) == 30,
        first_index_of(rule_names(spec_journal_entry_rules_with_progressbar()), "timeout"@) == 36,
        first_index_of(rule_names(spec_journal_entry_rules_with_progressbar()), "on_timeout"@) == 37,
        first_index_of(rule_names(spec_journal_entry_rules_with_progressbar()), "on_timeout_all_involved"@) == 38,
        first_index_of(rule_names(spec_journal_entry_rules_with_progressbar()), "current_value"@) == 43,
        first_index_of(rule_names(spec_journal_entry_rules_with_progressbar()), "goal_add_value"@) == 44,
        first_index_of(rule_names(spec_journal_entry_rules_with_progressbar()), "weight"@) == 45,
        first_index_of(rule_names(spec_journal_entry_rules_with_progressbar()), "is_progressing"@) == 48,
        first_index_of(rule_names(spec_journal_entry_rules_with_progressbar()), "is_shown_in_lobby"@) == 60,
{
    reveal_strlit("group");
    reveal_strlit("icon");
    reveal_strlit("is_shown_when_inactive");
    reveal_strlit("should_be_involved");
    reveal_strlit("should_show_when_not_involved");
    reveal_strlit("scripted_button");
    reveal_strlit("possible");
    reveal_strlit("immediate");
    reveal_strlit("immediate_all_involved");
    reveal_strlit("complete");
    reveal_strlit("on_complete");
    reveal_strlit("on_complete_all_involved");
    reveal_strlit("fail");
    reveal_strlit("on_fail");
    reveal_strlit("on_fail_all_involved");
    reveal_strlit("invalid");
    reveal_strlit("on_invalid");
    reveal_strlit("on_invalid_all_involved");
    reveal_strlit("on_become_involved_after_activation");
    reveal_strlit("on_no_longer_involved");
    reveal_strlit("widget");
    reveal_strlit("status_desc");
    reveal_strlit("event_outcome_activated_desc");
    reveal_strlit("event_outcome_activated_effect_desc");
    reveal_strlit("event_outcome_invalidated_desc");
    reveal_strlit("event_outcome_invalidated_effect_desc");
    reveal_strlit("event_outcome_completed_desc");
    reveal_strlit("event_outcome_completed_effect_desc");
    reveal_strlit("event_outcome_failed_desc");
    reveal_strlit("event_outcome_failed_effect_desc");
    reveal_strlit("event_outcome_timeout_desc");
    reveal_strlit("event_outcome_timeout_effect_desc");
    reveal_strlit("custom_completion_header");
    reveal_strlit("custom_failure_header");
    reveal_strlit("custom_on_completion_header");
    reveal_strlit("custom_on_failure_header");
    reveal_strlit("timeout");
    reveal_strlit("on_timeout");
    reveal_strlit("on_timeout_all_involved");
    reveal_strlit("modifiers_while_active");
    reveal_strlit("on_weekly_pulse");
    reveal_strlit("on_monthly_pulse");
    reveal_strlit("on_yearly_pulse");
    reveal_strlit("current_value");
    reveal_strlit("goal_add_value");
    reveal_strlit("weight");
    reveal_strlit("transferable");
    reveal_strlit("can_revolution_inherit");
    reveal_strlit("is_progressing");
    reveal_strlit("progressbar");
    reveal_strlit("scripted_progress_bar");
    reveal_strlit("can_deactivate");
    reveal_strlit("progress_desc");
    reveal_strlit("how_tutorial");
    reveal_strlit("why_tutorial");
    reveal_strlit("should_be_pinned_by_default");
    reveal_strlit("should_be_pinned_by_default_uninvolved_or_context");
    reveal_strlit("active_update_frequency");
    reveal_strlit("should_update_on_player_command");
    reveal_strlit("display_progressbar_as_months");
    reveal_strlit("is_shown_in_lobby");
    assert("group"@.len() == 5);
    assert("icon"@.len() == 4);
    assert("is_shown_when_inactive"@.len() == 22);
    assert("should_be_involved"@.len() == 18);
    assert("should_show_when_not_involved"@.len() == 29);
    assert("scripted_button"@.len() == 15);
    assert("possible"@.len() == 8);
    assert("immediate"@.len() == 9);
    assert("immediate_all_involved"@.len() == 22);
    assert("complete"@.len() == 8);
    assert("on_complete"@.len() == 11);
    assert("on_complete_all_involved"@.len() == 24);
    assert("fail"@.len() == 4);
    assert("on_fail"@.len() == 7);
    assert("on_fail_all_involved"@.len() == 20);
    assert("invalid"@.len() == 7);
    assert("on_invalid"@.len() == 10);
    assert("on_invalid_all_involved"@.len() == 23);
    assert("on_become_involved_after_activation"@.len() == 35);
    assert("on_no_longer_involved"@.len() == 21);
    assert("widget"@.len() == 6);
    assert("status_desc"@.len() == 11);
    assert("event_outcome_activated_desc"@.len() == 28);
    assert("event_outcome_activated_effect_desc"@.len() == 35);
    assert("event_outcome_invalidated_desc"@.len() == 30);
    assert("event_outcome_invalidated_effect_desc"@.len() == 37);
    assert("event_outcome_completed_desc"@.len() == 28);
    assert("event_outcome_completed_effect_desc"@.len() == 35);
    assert("event_outcome_failed_desc"@.len() == 25);
    assert("event_outcome_failed_effect_desc"@.len() == 32);
    assert("event_outcome_timeout_desc"@.len() == 26);
    assert("event_outcome_timeout_effect_desc"@.len() == 33);
    assert("custom_completion_header"@.len() == 24);
    assert("custom_failure_header"@.len() == 21);
    assert("custom_on_completion_header"@.len() == 27);
    assert("custom_on_failure_header"@.len() == 24);
    assert("timeout"@.len() == 7);
    assert("on_timeout"@.len() == 10);
    assert("on_timeout_all_involved"@.len() == 23);
    assert("modifiers_while_active"@.len() == 22);
    assert("on_weekly_pulse"@.len() == 15);
    assert("on_monthly_pulse"@.len() == 16);
    assert("on_yearly_pulse"@.len() == 15);
    assert("current_value"@.len() == 13);
    assert("goal_add_value"@.len() == 14);
    assert("weight"@.len() == 6);
    assert("transferable"@.len() == 12);
    assert("can_revolution_inherit"@.len() == 22);
    assert("is_progressing"@.len() == 14);
    assert("progressbar"@.len() == 11);
    assert("scripted_progress_bar"@.len() == 21);
    assert("can_deactivate"@.len() == 14);
    assert("progress_desc"@.len() == 13);
    assert("how_tutorial"@.len() == 12);
    assert("why_tutorial"@.len() == 12);
    assert("should_be_pinned_by_default"@.len() == 27);
    assert("should_be_pinned_by_default_uninvolved_or_context"@.len() == 49);
    assert("active_update_frequency"@.len() == 23);
    assert("should_update_on_player_command"@.len() == 31);
    assert("display_progressbar_as_months"@.len() == 29);
    assert("is_shown_in_lobby"@.len() == 17);
    assert("is_shown_when_inactive"@[1] != "immediate_all_involved"@[1]);
    assert("possible"@[0] != "complete"@[0]);
    assert("icon"@[0] != "fail"@[0]);
    assert("on_fail"@[0] != "invalid"@[0]);
    assert("on_complete"@[0] != "status_desc"@[0]);
    assert("event_outcome_activated_desc"@[14] != "event_outcome_completed_desc"@[14]);
    assert("on_fail"@[0] != "timeout"@[0]);
    assert("invalid"@[0] != "timeout"@[0]);
    assert("on_invalid"@[3] != "on_timeout"@[3]);
    assert("on_invalid_all_involved"@[3] != "on_timeout_all_involved"@[3]);
    assert("widget"@[1] != "weight"@[1]);
    assert("goal_add_value"@[0] != "is_progressing"@[0]);
    let tw = spec_journal_entry_rules_with_progressbar();
    assert(first_index_of(rule_names(tw), "is_shown_when_inactive"@) == 2) by {
        lemma_rule_lookup_steps(tw, "is_shown_when_inactive"@);
    }
    assert(first_index_of(rule_names(tw), "should_be_involved"@) == 3) by {
        lemma_rule_lookup_steps(tw, "should_be_involved"@);
    }
    assert(first_index_of(rule_names(tw), "should_show_when_not_involved"@) == 4) by {
        lemma_rule_lookup_steps(tw, "should_show_when_not_involved"@);
    }
    assert(first_index_of(rule_names(tw), "possible"@) == 6) by {
        lemma_rule_lookup_steps(tw, "possible"@);
    }
    assert(first_index_of(rule_names(tw), "immediate"@) == 7) by {
        lemma_rule_lookup_steps(tw, "immediate"@);
    }
    assert(first_index_of(rule_names(tw), "immediate_all_involved"@) == 8) by {
        lemma_rule_lookup_steps(tw, "immediate_all_involved"@);
    }
    assert(first_index_of(rule_names(tw), "complete"@) == 9) by {
        lemma_rule_lookup_steps(tw, "complete"@);
    }
    assert(first_index_of(rule_names(tw), "on_complete"@) == 10) by {
        lemma_rule_lookup_steps(tw, "on_complete"@);
    }
    assert(first_index_of(rule_names(tw), "on_complete_all_involved"@) == 11) by {
        lemma_rule_lookup_steps(tw, "on_complete_all_involved"@);
    }
    assert(first_index_of(rule_names(tw), "fail"@) == 12) by {
        lemma_rule_lookup_steps(tw, "fail"@);
    }
    assert(first_index_of(rule_names(tw), "on_fail"@) == 13) by {
        lemma_rule_lookup_steps(tw, "on_fail"@);
    }
    assert(first_index_of(rule_names(tw), "on_fail_all_involved"@) == 14) by {
        lemma_rule_lookup_steps(tw, "on_fail_all_involved"@);
    }
    assert(first_index_of(rule_names(tw), "invalid"@) == 15) by {
        lemma_rule_lookup_steps(tw, "invalid"@);
    }
    assert(first_index_of(rule_names(tw), "on_invalid"@) == 16) by {
        lemma_rule_lookup_steps(tw, "on_invalid"@);
    }
    assert(first_index_of(rule_names(tw), "on_invalid_all_involved"@) == 17) by {
        lemma_rule_lookup_steps(tw, "on_invalid_all_involved"@);
    }
    assert(first_index_of(rule_names(tw), "on_become_involved_after_activation"@) == 18) by {
        lemma_rule_lookup_steps(tw, "on_become_involved_after_activation"@);
    }
    assert(first_index_of(rule_names(tw), "on_no_longer_involved"@) == 19) by {
        lemma_rule_lookup_steps(tw, "on_no_longer_involved"@);
    }
    assert(first_index_of(rule_names(tw), "status_desc"@) == 21) by {
        lemma_rule_lookup_steps(tw, "status_desc"@);
    }
    assert(first_index_of(rule_names(tw), "event_outcome_activated_desc"@) == 22) by {
        lemma_rule_lookup_steps(tw, "event_outcome_activated_desc"@);
    }
    assert(first_index_of(rule_names(tw), "event_outcome_invalidated_desc"@) == 24) by {
        lemma_rule_lookup_steps(tw, "event_outcome_invalidated_desc"@);
    }
    assert(first_index_of(rule_names(tw), "event_outcome_completed_desc"@) == 26) by {
        lemma_rule_lookup_steps(tw, "event_outcome_completed_desc"@);
    }
    assert(first_index_of(rule_names(tw), "event_outcome_failed_desc"@) == 28) by {
        lemma_rule_lookup_steps(tw, "event_outcome_failed_desc"@);
    }
    assert(first_index_of(rule_names(tw), "event_outcome_timeout_desc"@) == 30) by {
        lemma_rule_lookup_steps(tw, "event_outcome_timeout_desc"@);
    }
    assert(first_index_of(rule_names(tw), "timeout"@) == 36) by {
        lemma_rule_lookup_steps(tw, "timeout"@);
    }
    assert(first_index_of(rule_names(tw), "on_timeout"@) == 37) by {
        lemma_rule_lookup_steps(tw, "on_timeout"@);
    }
    assert(first_index_of(rule_names(tw), "on_timeout_all_involved"@) == 38) by {
        lemma_rule_lookup_steps(tw, "on_timeout_all_involved"@);
    }
    assert(first_index_of(rule_names(tw), "current_value"@) == 43) by {
        lemma_rule_lookup_steps(tw, "current_value"@);
    }
    assert(first_index_of(rule_names(tw), "goal_add_value"@) == 44) by {
        lemma_rule_lookup_steps(tw, "goal_add_value"@);
    }
    assert(first_index_of(rule_names(tw), "weight"@) == 45) by {
        lemma_rule_lookup_steps(tw, "weight"@);
    }
    assert(first_index_of(rule_names(tw), "is_progressing"@) == 48) by {
        lemma_rule_lookup_steps(tw, "is_progressing"@);
    }
    assert(first_index_of(rule_names(tw), "is_shown_in_lobby"@) == 60) by {
        lemma_rule_lookup_steps(tw, "is_shown_in_lobby"@);
    }
}

/// Which rule of the journal entry rules without a progress bar each script field
/// goes by: the one rule with its name.
#[verifier::rlimit(60)]
proof fn lemma_journal_entry_rule_lookup_without()
    ensures
        first_index_of(rule_names(spec_journal_entry_rules_without_progressbar()), "is_shown_when_inactive"@) == 2,
        first_index_of(rule_names(spec_journal_entry_rules_without_progressbar()), "should_be_involved"@) == 3,
        first_index_of(rule_names(spec_journal_entry_rules_without_progressbar()), "should_show_when_not_involved"@) == 4,
        first_index_of(rule_names(spec_journal_entry_rules_without_progressbar()), "possible"@) == 6,
        first_index_of(rule_names(spec_journal_entry_rules_without_progressbar()), "immediate"@) == 7,
        first_index_of(rule_names(spec_journal_entry_rules_without_progressbar()), "immediate_all_involved"@) == 8,
        first_index_of(rule_names(spec_journal_entry_rules_without_progressbar()), "complete"@) == 9,
        first_index_of(rule_names(spec_journal_entry_rules_without_progressbar()), "on_complete"@) == 10,
        first_index_of(rule_names(spec_journal_entry_rules_without_progressbar()), "on_complete_all_involved"@) == 11,
        first_index_of(rule_names(spec_journal_entry_rules_without_progressbar()), "fail"@) == 12,
        first_index_of(rule_names(spec_journal_entry_rules_without_progressbar()), "on_fail"@) == 13,
        first_index_of(rule_names(spec_journal_entry_rules_without_progressbar()), "on_fail_all_involved"@) == 14,
        first_index_of(rule_names(spec_journal_entry_rules_without_progressbar()), "invalid"@) == 15,
        first_index_of(rule_names(spec_journal_entry_rules_without_progressbar()), "on_invalid"@) == 16,
        first_index_of(rule_names(spec_journal_entry_rules_without_progressbar()), "on_invalid_all_involved"@) == 17,
        first_index_of(rule_names(spec_journal_entry_rules_without_progressbar()), "on_become_involved_after_activation"@) == 18,
        first_index_of(rule_names(spec_journal_entry_rules_without_progressbar()), "on_no_longer_involved"@) == 19,
        first_index_of(rule_names(spec_journal_entry_rules_without_progressbar()), "status_desc"@) == 21,
        first_index_of(rule_names(spec_journal_entry_rules_without_progressbar()), "event_outcome_activated_desc"@) == 22,
        first_index_of(rule_names(spec_journal_entry_rules_without_progressbar()), "event_outcome_invalidated_desc"@) == 24,
        first_index_of(rule_names(spec_journal_entry_rules_without_progressbar()), "event_outcome_completed_desc"@) == 26,
        first_index_of(rule_names(spec_journal_entry_rules_without_progressbar()), "event_outcome_failed_desc"@) == 28,
        first_index_of(rule_names(spec_journal_entry_rules_without_progressbar()), "event_outcome_timeout_desc"@) == 30,
        first_index_of(rule_names(spec_journal_entry_rules_without_progressbar()), "timeout"@) == 36,
        first_index_of(rule_names(spec_journal_entry_rules_without_progressbar()), "on_timeout"@) == 37,
        first_index_of(rule_names(spec_journal_entry_rules_without_progressbar()), "on_timeout_all_involved"@) == 38,
        first_index_of(rule_names(spec_journal_entry_rules_without_progressbar()), "current_value"@) == 43,
        first_index_of(rule_names(spec_journal_entry_rules_without_progressbar()), "goal_add_value"@) == 44,
        first_index_of(rule_names(spec_journal_entry_rules_without_progressbar()), "weight"@) == 45,
        first_index_of(rule_names(spec_journal_entry_rules_without_progressbar()), "is_progressing"@) == 48,
        first_index_of(rule_names(spec_journal_entry_rules_without_progressbar()), "is_shown_in_lobby"@) == 60,
{
    reveal_strlit("group");
    reveal_strlit("icon");
    reveal_strlit("is_shown_when_inactive");
    reveal_strlit("should_be_involved");
    reveal_strlit("should_show_when_not_involved");
    reveal_strlit("scripted_button");
    reveal_strlit("possible");
    reveal_strlit("immediate");
    reveal_strlit("immediate_all_involved");
    reveal_strlit("complete");
    reveal_strlit("on_complete");
    reveal_strlit("on_complete_all_involved");
    reveal_strlit("fail");
    reveal_strlit("on_fail");
    reveal_strlit("on_fail_all_involved");
    reveal_strlit("invalid");
    reveal_strlit("on_invalid");
    reveal_strlit("on_invalid_all_involved");
    reveal_strlit("on_become_involved_after_activation");
    reveal_strlit("on_no_longer_involved");
    reveal_strlit("widget");
    reveal_strlit("status_desc");
    reveal_strlit("event_outcome_activated_desc");
    reveal_strlit("event_outcome_activated_effect_desc");
    reveal_strlit("event_outcome_invalidated_desc");
    reveal_strlit("event_outcome_invalidated_effect_desc");
    reveal_strlit("event_outcome_completed_desc");
    reveal_strlit("event_outcome_completed_effect_desc");
    reveal_strlit("event_outcome_failed_desc");
    reveal_strlit("event_outcome_failed_effect_desc");
    reveal_strlit("event_outcome_timeout_desc");
    reveal_strlit("event_outcome_timeout_effect_desc");
    reveal_strlit("custom_completion_header");
    reveal_strlit("custom_failure_header");
    reveal_strlit("custom_on_completion_header");
    reveal_strlit("custom_on_failure_header");
    reveal_strlit("timeout");
    reveal_strlit("on_timeout");
    reveal_strlit("on_timeout_all_involved");
    reveal_strlit("modifiers_while_active");
    reveal_strlit("on_weekly_pulse");
    reveal_strlit("on_monthly_pulse");
    reveal_strlit("on_yearly_pulse");
    reveal_strlit("current_value");
    reveal_strlit("goal_add_value");
    reveal_strlit("weight");
    reveal_strlit("transferable");
    reveal_strlit("can_revolution_inherit");
    reveal_strlit("is_progressing");
    reveal_strlit("progressbar");
    reveal_strlit("scripted_progress_bar");
    reveal_strlit("can_deactivate");
    reveal_strlit("progress_desc");
    reveal_strlit("how_tutorial");
    reveal_strlit("why_tutorial");
    reveal_strlit("should_be_pinned_by_default");
    reveal_strlit("should_be_pinned_by_default_uninvolved_or_context");
    reveal_strlit("active_update_frequency");
    reveal_strlit("should_update_on_player_command");
    reveal_strlit("display_progressbar_as_months");
    reveal_strlit("is_shown_in_lobby");
    assert("group"@.len() == 5);
    assert("icon"@.len() == 4);
    assert("is_shown_when_inactive"@.len() == 22);
    assert("should_be_involved"@.len() == 18);
    assert("should_show_when_not_involved"@.len() == 29);
    assert("scripted_button"@.len() == 15);
    assert("possible"@.len() == 8);
    assert("immediate"@.len() == 9);
    assert("immediate_all_involved"@.len() == 22);
    assert("complete"@.len() == 8);
    assert("on_complete"@.len() == 11);
    assert("on_complete_all_involved"@.len() == 24);
    assert("fail"@.len() == 4);
    assert("on_fail"@.len() == 7);
    assert("on_fail_all_involved"@.len() == 20);
    assert("invalid"@.len() == 7);
    assert("on_invalid"@.len() == 10);
    assert("on_invalid_all_involved"@.len() == 23);
    assert("on_become_involved_after_activation"@.len() == 35);
    assert("on_no_longer_involved"@.len() == 21);
    assert("widget"@.len() == 6);
    assert("status_desc"@.len() == 11);
    assert("event_outcome_activated_desc"@.len() == 28);
    assert("event_outcome_activated_effect_desc"@.len() == 35);
    assert("event_outcome_invalidated_desc"@.len() == 30);
    assert("event_outcome_invalidated_effect_desc"@.len() == 37);
    assert("event_outcome_completed_desc"@.len() == 28);
    assert("event_outcome_completed_effect_desc"@.len() == 35);
    assert("event_outcome_failed_desc"@.len() == 25);
    assert("event_outcome_failed_effect_desc"@.len() == 32);
    assert("event_outcome_timeout_desc"@.len() == 26);
    assert("event_outcome_timeout_effect_desc"@.len() == 33);
    assert("custom_completion_header"@.len() == 24);
    assert("custom_failure_header"@.len() == 21);
    assert("custom_on_completion_header"@.len() == 27);
    assert("custom_on_failure_header"@.len() == 24);
    assert("timeout"@.len() == 7);
    assert("on_timeout"@.len() == 10);
    assert("on_timeout_all_involved"@.len() == 23);
    assert("modifiers_while_active"@.len() == 22);
    assert("on_weekly_pulse"@.len() == 15);
    assert("on_monthly_pulse"@.len() == 16);
    assert("on_yearly_pulse"@.len() == 15);
    assert("current_value"@.len() == 13);
    assert("goal_add_value"@.len() == 14);
    assert("weight"@.len() == 6);
    assert("transferable"@.len() == 12);
    assert("can_revolution_inherit"@.len() == 22);
    assert("is_progressing"@.len() == 14);
    assert("progressbar"@.len() == 11);
    assert("scripted_progress_bar"@.len() == 21);
    assert("can_deactivate"@.len() == 14);
    assert("progress_desc"@.len() == 13);
    assert("how_tutorial"@.len() == 12);
    assert("why_tutorial"@.len() == 12);
    assert("should_be_pinned_by_default"@.len() == 27);
    assert("should_be_pinned_by_default_uninvolved_or_context"@.len() == 49);
    assert("active_update_frequency"@.len() == 23);
    assert("should_update_on_player_command"@.len() == 31);
    assert("display_progressbar_as_months"@.len() == 29);
    assert("is_shown_in_lobby"@.len() == 17);
    assert("is_shown_when_inactive"@[1] != "immediate_all_involved"@[1]);
    assert("possible"@[0] != "complete"@[0]);
    assert("icon"@[0] != "fail"@[0]);
    assert("on_fail"@[0] != "invalid"@[0]);
    assert("on_complete"@[0] != "status_desc"@[0]);
    assert("event_outcome_activated_desc"@[14] != "event_outcome_completed_desc"@[14]);
    assert("on_fail"@[0] != "timeout"@[0]);
    assert("invalid"@[0] != "timeout"@[0]);
    assert("on_invalid"@[3] != "on_timeout"@[3]);
    assert("on_invalid_all_involved"@[3] != "on_timeout_all_involved"@[3]);
    assert("widget"@[1] != "weight"@[1]);
    assert("goal_add_value"@[0] != "is_progressing"@[0]);
    let tn = spec_journal_entry_rules_without_progressbar();
    assert(first_index_of(rule_names(tn), "is_shown_when_inactive"@) == 2) by {
        lemma_rule_lookup_steps(tn, "is_shown_when_inactive"@);
    }
    assert(first_index_of(rule_names(tn), "should_be_involved"@) == 3) by {
        lemma_rule_lookup_steps(tn, "should_be_involved"@);
    }
    assert(first_index_of(rule_names(tn), "should_show_when_not_involved"@) == 4) by {
        lemma_rule_lookup_steps(tn, "should_show_when_not_involved"@);
    }
    assert(first_index_of(rule_names(tn), "possible"@) == 6) by {
        lemma_rule_lookup_steps(tn, "possible"@);
    }
    assert(first_index_of(rule_names(tn), "immediate"@) == 7) by {
        lemma_rule_lookup_steps(tn, "immediate"@);
    }
    assert(first_index_of(rule_names(tn), "immediate_all_involved"@) == 8) by {
        lemma_rule_lookup_steps(tn, "immediate_all_involved"@);
    }
    assert(first_index_of(rule_names(tn), "complete"@) == 9) by {
        lemma_rule_lookup_steps(tn, "complete"@);
    }
    assert(first_index_of(rule_names(tn), "on_complete"@) == 10) by {
        lemma_rule_lookup_steps(tn, "on_complete"@);
    }
    assert(first_index_of(rule_names(tn), "on_complete_all_involved"@) == 11) by {
        lemma_rule_lookup_steps(tn, "on_complete_all_involved"@);
    }
    assert(first_index_of(rule_names(tn), "fail"@) == 12) by {
        lemma_rule_lookup_steps(tn, "fail"@);
    }
    assert(first_index_of(rule_names(tn), "on_fail"@) == 13) by {
        lemma_rule_lookup_steps(tn, "on_fail"@);
    }
    assert(first_index_of(rule_names(tn), "on_fail_all_involved"@) == 14) by {
        lemma_rule_lookup_steps(tn, "on_fail_all_involved"@);
    }
    assert(first_index_of(rule_names(tn), "invalid"@) == 15) by {
        lemma_rule_lookup_steps(tn, "invalid"@);
    }
    assert(first_index_of(rule_names(tn), "on_invalid"@) == 16) by {
        lemma_rule_lookup_steps(tn, "on_invalid"@);
    }
    assert(first_index_of(rule_names(tn), "on_invalid_all_involved"@) == 17) by {
        lemma_rule_lookup_steps(tn, "on_invalid_all_involved"@);
    }
    assert(first_index_of(rule_names(tn), "on_become_involved_after_activation"@) == 18) by {
        lemma_rule_lookup_steps(tn, "on_become_involved_after_activation"@);
    }
    assert(first_index_of(rule_names(tn), "on_no_longer_involved"@) == 19) by {
        lemma_rule_lookup_steps(tn, "on_no_longer_involved"@);
    }
    assert(first_index_of(rule_names(tn), "status_desc"@) == 21) by {
        lemma_rule_lookup_steps(tn, "status_desc"@);
    }
    assert(first_index_of(rule_names(tn), "event_outcome_activated_desc"@) == 22) by {
        lemma_rule_lookup_steps(tn, "event_outcome_activated_desc"@);
    }
    assert(first_index_of(rule_names(tn), "event_outcome_invalidated_desc"@) == 24) by {
        lemma_rule_lookup_steps(tn, "event_outcome_invalidated_desc"@);
    }
    assert(first_index_of(rule_names(tn), "event_outcome_completed_desc"@) == 26) by {
        lemma_rule_lookup_steps(tn, "event_outcome_completed_desc"@);
    }
    assert(first_index_of(rule_names(tn), "event_outcome_failed_desc"@) == 28) by {
        lemma_rule_lookup_steps(tn, "event_outcome_failed_desc"@);
    }
    assert(first_index_of(rule_names(tn), "event_outcome_timeout_desc"@) == 30) by {
        lemma_rule_lookup_steps(tn, "event_outcome_timeout_desc"@);
    }
    assert(first_index_of(rule_names(tn), "timeout"@) == 36) by {
        lemma_rule_lookup_steps(tn, "timeout"@);
    }
    assert(first_index_of(rule_names(tn), "on_timeout"@) == 37) by {
        lemma_rule_lookup_steps(tn, "on_timeout"@);
    }
    assert(first_index_of(rule_names(tn), "on_timeout_all_involved"@) == 38) by {
        lemma_rule_lookup_steps(tn, "on_timeout_all_involved"@);
    }
    assert(first_index_of(rule_names(tn), "current_value"@) == 43) by {
        lemma_rule_lookup_steps(tn, "current_value"@);
    }
    assert(first_index_of(rule_names(tn), "goal_add_value"@) == 44) by {
        lemma_rule_lookup_steps(tn, "goal_add_value"@);
    }
    assert(first_index_of(rule_names(tn), "weight"@) == 45) by {
        lemma_rule_lookup_steps(tn, "weight"@);
    }
    assert(first_index_of(rule_names(tn), "is_progressing"@) == 48) by {
        lemma_rule_lookup_steps(tn, "is_progressing"@);
    }
    assert(first_index_of(rule_names(tn), "is_shown_in_lobby"@) == 60) by {
        lemma_rule_lookup_steps(tn, "is_shown_in_lobby"@);
    }
}

/// Every script field of a journal entry (see [`journal_entry_script_fields`])
/// that its block holds is recorded among the script uses of its check, with
/// the field's name, its location and the scope it is checked in, whether or
/// not the journal entry has a progress bar.
pub proof fn law_journal_entry_script_fields_recorded(key: Token, block: Block, j: int, field: Token, bv: BV, k: int)
    requires
        0 <= j < block.items@.len(),
        block.items@[j] == BlockItem::Field(field, bv),
        0 <= k < journal_entry_script_fields().len(),
        field.s@ == journal_entry_script_fields()[k].0,
    ensures
        spec_journal_entry_validation(key, block).scripts.contains(
            ScriptUseV { name: field.s@, loc: field.loc, scope: journal_entry_script_fields()[k].1 },
        ),
{
    let fs = journal_entry_script_fields();
    let scope = fs[k].1;
    let u = ScriptUseV { name: field.s@, loc: field.loc, scope };
    let rules = if value_is(block.items@, "progressbar"@, "yes"@) {
        spec_journal_entry_rules_with_progressbar()
    } else {
        spec_journal_entry_rules_without_progressbar()
    };
    lemma_journal_entry_rule_lookup_with();
    lemma_journal_entry_rule_lookup_without();
    if k == 0 {
        assert(fs[0].0 == "is_shown_when_inactive"@);
        assert(rules[2].check == Check::Script(scope));
    } else if k == 1 {
        assert(fs[1].0 == "should_be_involved"@);
        assert(rules[3].check == Check::Script(scope));
    } else if k == 2 {
        assert(fs[2].0 == "should_show_when_not_involved"@);
        assert(rules[4].check == Check::Script(scope));
    } else if k == 3 {
        assert(fs[3].0 == "possible"@);
        assert(rules[6].check == Check::Script(scope));
    } else if k == 4 {
        assert(fs[4].0 == "immediate"@);
        assert(rules[7].check == Check::Script(scope));
    } else if k == 5 {
        assert(fs[5].0 == "immediate_all_involved"@);
        assert(rules[8].check == Check::Script(scope));
    } else if k == 6 {
        assert(fs[6].0 == "complete"@);
        assert(rules[9].check == Check::Script(scope));
    } else if k == 7 {
        assert(fs[7].0 == "on_complete"@);
        assert(rules[10].check == Check::Script(scope));
    } else if k == 8 {
        assert(fs[8].0 == "on_complete_all_involved"@);
        assert(rules[11].check == Check::Script(scope));
    } else if k == 9 {
        assert(fs[9].0 == "fail"@);
        assert(rules[12].check == Check::Script(scope));
    } else if k == 10 {
        assert(fs[10].0 == "on_fail"@);
        assert(rules[13].check == Check::Script(scope));
    } else if k == 11 {
        assert(fs[11].0 == "on_fail_all_involved"@);
        assert(rules[14].check == Check::Script(scope));
    } else if k == 12 {
        assert(fs[12].0 == "invalid"@);
        assert(rules[15].check == Check::Script(scope));
    } else if k == 13 {
        assert(fs[13].0 == "on_invalid"@);
        assert(rules[16].check == Check::Script(scope));
    } else if k == 14 {
        assert(fs[14].0 == "on_invalid_all_involved"@);
        assert(rules[17].check == Check::Script(scope));
    } else if k == 15 {
        assert(fs[15].0 == "on_become_involved_after_activation"@);
        assert(rules[18].check == Check::Script(scope));
    } else if k == 16 {
        assert(fs[16].0 == "on_no_longer_involved"@);
        assert(rules[19].check == Check::Script(scope));
    } else if k == 17 {
        assert(fs[17].0 == "status_desc"@);
        assert(rules[21].check == Check::Script(scope));
    } else if k == 18 {
        assert(fs[18].0 == "event_outcome_activated_desc"@);
        assert(rules[22].check == Check::Script(scope));
    } else if k == 19 {
        assert(fs[19].0 == "event_outcome_invalidated_desc"@);
        assert(rules[24].check == Check::Script(scope));
    } else if k == 20 {
        assert(fs[20].0 == "event_outcome_completed_desc"@);
        assert(rules[26].check == Check::Script(scope));
    } else if k == 21 {
        assert(fs[21].0 == "event_outcome_failed_desc"@);
        assert(rules[28].check == Check::Script(scope));
    } else if k == 22 {
        assert(fs[22].0 == "event_outcome_timeout_desc"@);
        assert(rules[30].check == Check::Script(scope));
    } else if k == 23 {
        assert(fs[23].0 == "timeout"@);
        assert(rules[36].check == Check::Script(scope));
    } else if k == 24 {
        assert(fs[24].0 == "on_timeout"@);
        assert(rules[37].check == Check::Script(scope));
    } else if k == 25 {
        assert(fs[25].0 == "on_timeout_all_involved"@);
        assert(rules[38].check == Check::Script(scope));
    } else if k == 26 {
        assert(fs[26].0 == "current_value"@);
        assert(rules[43].check == Check::Script(scope));
    } else if k == 27 {
        assert(fs[27].0 == "goal_add_value"@);
        assert(rules[44].check == Check::Script(scope));
    } else if k == 28 {
        assert(fs[28].0 == "weight"@);
        assert(rules[45].check == Check::Script(scope));
    } else if k == 29 {
        assert(fs[29].0 == "is_progressing"@);
        assert(rules[48].check == Check::Script(scope));
    } else if k == 30 {
        assert(fs[30].0 == "is_shown_in_lobby"@);
        assert(rules[60].check == Check::Script(scope));
    }
    law_script_field_recorded(rules, block, j, field, bv, scope);
    assert forall|a: ValidationV, b: ValidationV| a.scripts.contains(u) implies #[trigger] then(a, b).scripts.contains(u) by {
        lemma_then_keeps_scripts(a, b, u);
    }
}

} // verus!
