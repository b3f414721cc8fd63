//! Field-by-field checks of a definition's block against a table of rules:
//! which fields it may have, how often, and what their values must be. The
//! checks give findings (what is wrong, and where) and references (the items
//! that values name, which the database is asked about afterwards).

use vstd::prelude::*;

use crate::block::{Block, BlockItem, BV};
use crate::item::Item;
use crate::scopes::Scopes;
use crate::report::errors::{lemma_log_onto, log_all, Errors, MacroMap};
use crate::report::{
    ptrs_view, report, sev_rank, Confidence, ErrorKey, LogReportStyle, MetadataV, PointedMessageV, ReportBuilder, Severity,
};
use crate::text::{chars_eq, decimal, first_index_of, from_chars, str_eq, to_chars, usize_decimal};
use crate::token::{is_number_text, Loc, Token};

verus! {

/// What the value of a field must be.
#[derive(Clone, Copy, Debug, PartialEq, Eq, Structural)]
pub enum Check {
    /// `yes` or `no`.
    Bool,
    /// A number.
    Numeric,
    /// A whole number.
    Integer,
    /// Any single value.
    Value,
    /// The name of an item of this type.
    Item(Item),
    /// One of the rule's choices.
    Choice,
    /// A block of names of items of this type.
    ItemList(Item),
    /// A block of values, each one of the rule's choices.
    ChoiceList,
    /// A block of exactly this many numbers.
    NumericList(usize),
    /// Any block.
    Block,
    /// A trigger, effect, description or script value, checked elsewhere
    /// in the given scope.
    Script(ScriptScope),
    /// Not allowed here.
    Banned,
}

/// The rule for one field name.
#[derive(Debug)]
pub struct FieldRule {
    pub name: &'static str,
    pub check: Check,
    /// The allowed values, for [`Check::Choice`] and [`Check::ChoiceList`].
    pub choices: Vec<String>,
    /// Whether the field may appear more than once.
    pub multi: bool,
    /// Whether the field must be there.
    pub required: bool,
}

pub struct FieldRuleV {
    pub name: Seq<char>,
    pub check: Check,
    pub choices: Seq<Seq<char>>,
    pub multi: bool,
    pub required: bool,
}

pub open spec fn strings_view(v: Seq<String>) -> Seq<Seq<char>> {
    v.map_values(|c: String| c@)
}

impl View for FieldRule {
    type V = FieldRuleV;

    open spec fn view(&self) -> FieldRuleV {
        FieldRuleV { name: self.name@, check: self.check, choices: strings_view(self.choices@), multi: self.multi, required: self.required }
    }
}

/// A rule without choices.
pub open spec fn spec_rule(name: Seq<char>, check: Check, multi: bool) -> FieldRuleV {
    FieldRuleV { name, check, choices: Seq::empty(), multi, required: false }
}

/// A rule for a field whose value, or whose values, are among `choices`.
pub open spec fn spec_choice_rule(name: Seq<char>, check: Check, choices: Seq<Seq<char>>) -> FieldRuleV {
    FieldRuleV { name, check, choices, multi: false, required: false }
}

/// A rule for a field that must be there.
pub open spec fn spec_required_rule(name: Seq<char>, check: Check) -> FieldRuleV {
    FieldRuleV { name, check, choices: Seq::empty(), multi: false, required: true }
}

/// An owned copy of `s`.
pub fn owned(s: &str) -> (res: String)
    ensures
        res@ == s@,
{
    from_chars(&to_chars(s))
}

pub open spec fn rules_view(s: Seq<FieldRule>) -> Seq<FieldRuleV> {
    s.map_values(|r: FieldRule| r@)
}

/// A rule without choices.
pub fn rule(name: &'static str, check: Check, multi: bool) -> (res: FieldRule)
    ensures
        res@ == spec_rule(name@, check, multi),
{
    let res = FieldRule { name, check, choices: Vec::new(), multi, required: false };
    assert(res@.choices =~= Seq::<Seq<char>>::empty());
    res
}

/// A rule for a field that must be there.
pub fn required_rule(name: &'static str, check: Check) -> (res: FieldRule)
    ensures
        res@ == spec_required_rule(name@, check),
{
    let res = FieldRule { name, check, choices: Vec::new(), multi: false, required: true };
    assert(res@.choices =~= Seq::<Seq<char>>::empty());
    res
}

/// A rule for a field whose value, or whose values, are among `choices`.
pub fn choice_rule(name: &'static str, check: Check, choices: Vec<String>) -> (res: FieldRule)
    ensures
        res@ == spec_choice_rule(name@, check, strings_view(choices@)),
{
    FieldRule { name, check, choices, multi: false, required: false }
}

/// The kinds of things a check can find wrong.
#[derive(Clone, Copy, Debug, PartialEq, Eq, Structural)]
pub enum FindingKind {
    /// A field that no rule knows.
    UnknownField,
    /// A second occurrence of a field that may appear once.
    DuplicateField,
    /// A block where a value belongs.
    ExpectedValue,
    /// A value where a block belongs.
    ExpectedBlock,
    /// Something other than `yes` or `no`.
    ExpectedBool,
    /// Something other than a number.
    ExpectedNumber,
    /// Something other than a whole number.
    ExpectedInteger,
    /// A value that is not one of the choices.
    UnknownChoice,
    /// A list with the wrong number of items.
    WrongCount,
    /// A value standing alone in the block.
    LooseValue,
    /// A block standing alone in the block.
    LooseBlock,
    /// A field that is not allowed here.
    BannedField,
    /// A field that must be there and is not.
    MissingField,
    /// A timeout of 0, which closes a journal entry at once.
    ZeroTimeout,
    /// A treaty input block with more than one input.
    OneInputPerBlock,
    /// A locator name used before in the same definition.
    DuplicateLocator,
}

/// Something wrong, and where; `other` points at an earlier definition it
/// conflicts with, if any. `subject` is the name the finding is about, where
/// its message names one, and `max` the most severe that its report may be.
#[derive(Debug)]
pub struct Finding {
    pub kind: FindingKind,
    pub loc: Loc,
    pub other: Option<Loc>,
    pub subject: String,
    pub max: Severity,
}

/// The plain-value form of a [`Finding`].
pub struct FindingV {
    pub kind: FindingKind,
    pub loc: Loc,
    pub other: Option<Loc>,
    pub subject: Seq<char>,
    pub max: Severity,
}

impl View for Finding {
    type V = FindingV;

    open spec fn view(&self) -> FindingV {
        FindingV { kind: self.kind, loc: self.loc, other: self.other, subject: self.subject@, max: self.max }
    }
}

pub open spec fn findings_view(s: Seq<Finding>) -> Seq<FindingV> {
    s.map_values(|f: Finding| f@)
}

/// How a reference to an item is meant.
#[derive(Clone, Copy, Debug, PartialEq, Eq, Structural)]
pub enum Usage {
    /// The item must exist.
    Required,
    /// The item should exist because the definition implies it.
    Implied,
    /// The item is used if it exists.
    Used,
}

/// A value naming an item.
#[derive(Debug)]
pub struct Reference {
    pub item: Item,
    pub name: String,
    pub loc: Loc,
    pub usage: Usage,
}

pub struct ReferenceV {
    pub item: Item,
    pub name: Seq<char>,
    pub loc: Loc,
    pub usage: Usage,
}

impl View for Reference {
    type V = ReferenceV;

    open spec fn view(&self) -> ReferenceV {
        ReferenceV { item: self.item, name: self.name@, loc: self.loc, usage: self.usage }
    }
}

pub open spec fn refs_view(s: Seq<Reference>) -> Seq<ReferenceV> {
    s.map_values(|r: Reference| r@)
}

/// The scope that a script field is checked in: the root scope of the
/// definition it belongs to (which its item type sets; for journal entries
/// see `journal_entry_scope`), or a fixed one.
#[derive(Clone, Copy, Debug, PartialEq, Eq, Structural)]
pub enum ScriptScope {
    Own,
    Fixed(Scopes),
}

impl ScriptScope {
    /// The scope a field is checked in, for a definition whose own root
    /// scope is `own`.
    pub open spec fn spec_resolve(self, own: Scopes) -> Scopes {
        match self {
            ScriptScope::Own => own,
            ScriptScope::Fixed(s) => s,
        }
    }

    /// The scope a field is checked in (see [`ScriptScope::spec_resolve`]).
    pub fn resolve(self, own: Scopes) -> (res: Scopes)
        ensures
            res == self.spec_resolve(own),
    {
        match self {
            ScriptScope::Own => own,
            ScriptScope::Fixed(s) => s,
        }
    }
}

/// A script field to be checked elsewhere: its name, where it is, and the
/// scope it is checked in.
#[derive(Debug)]
pub struct ScriptUse {
    pub name: String,
    pub loc: Loc,
    pub scope: ScriptScope,
}

pub struct ScriptUseV {
    pub name: Seq<char>,
    pub loc: Loc,
    pub scope: ScriptScope,
}

impl View for ScriptUse {
    type V = ScriptUseV;

    open spec fn view(&self) -> ScriptUseV {
        ScriptUseV { name: self.name@, loc: self.loc, scope: self.scope }
    }
}

pub open spec fn scripts_view(s: Seq<ScriptUse>) -> Seq<ScriptUseV> {
    s.map_values(|u: ScriptUse| u@)
}

/// What checking a definition found: its findings, references and script
/// fields, each in order.
#[derive(Debug)]
pub struct Validation {
    pub findings: Vec<Finding>,
    pub refs: Vec<Reference>,
    pub scripts: Vec<ScriptUse>,
}

pub struct ValidationV {
    pub findings: Seq<FindingV>,
    pub refs: Seq<ReferenceV>,
    pub scripts: Seq<ScriptUseV>,
}

impl View for Validation {
    type V = ValidationV;

    open spec fn view(&self) -> ValidationV {
        ValidationV { findings: findings_view(self.findings@), refs: refs_view(self.refs@), scripts: scripts_view(self.scripts@) }
    }
}

pub open spec fn nothing() -> ValidationV {
    ValidationV { findings: Seq::empty(), refs: Seq::empty(), scripts: Seq::empty() }
}

/// The script field `name` at `loc`, to be checked in `scope`.
pub open spec fn scripted(name: Seq<char>, loc: Loc, scope: ScriptScope) -> ValidationV {
    ValidationV { findings: Seq::empty(), refs: Seq::empty(), scripts: seq![ScriptUseV { name, loc, scope }] }
}

pub open spec fn found(kind: FindingKind, loc: Loc) -> ValidationV {
    ValidationV {
        findings: seq![FindingV { kind, loc, other: None, subject: Seq::empty(), max: Severity::Fatal }],
        refs: Seq::empty(),
        scripts: Seq::empty(),
    }
}

/// A finding about the name or number `subject`.
pub open spec fn found_about(kind: FindingKind, loc: Loc, subject: Seq<char>) -> ValidationV {
    ValidationV {
        findings: seq![FindingV { kind, loc, other: None, subject, max: Severity::Fatal }],
        refs: Seq::empty(),
        scripts: Seq::empty(),
    }
}

/// A finding about the name `subject`, which conflicts with what is at `other`.
pub open spec fn found_with(kind: FindingKind, loc: Loc, other: Loc, subject: Seq<char>) -> ValidationV {
    ValidationV {
        findings: seq![FindingV { kind, loc, other: Some(other), subject, max: Severity::Fatal }],
        refs: Seq::empty(),
        scripts: Seq::empty(),
    }
}

/// The lesser of two severities.
pub open spec fn sev_min(a: Severity, b: Severity) -> Severity {
    if sev_rank(a) <= sev_rank(b) { a } else { b }
}

/// The findings of `v`, each to be reported at most as severe as `max`.
pub open spec fn capped(v: ValidationV, max: Severity) -> ValidationV {
    ValidationV {
        findings: v.findings.map_values(|f: FindingV| FindingV { max: sev_min(f.max, max), ..f }),
        refs: v.refs,
        scripts: v.scripts,
    }
}

pub open spec fn refers(item: Item, name: Seq<char>, loc: Loc, usage: Usage) -> ValidationV {
    ValidationV { findings: Seq::empty(), refs: seq![ReferenceV { item, name, loc, usage }], scripts: Seq::empty() }
}

/// `a`, then `b`.
pub open spec fn then(a: ValidationV, b: ValidationV) -> ValidationV {
    ValidationV { findings: a.findings + b.findings, refs: a.refs + b.refs, scripts: a.scripts + b.scripts }
}

/// An optional sign followed by digits.
pub open spec fn is_integer_text(s: Seq<char>) -> bool {
    all_digits(if s.len() > 0 && s[0] == '-' { s.drop_first() } else { s })
}

/// One or more digits.
pub open spec fn all_digits(body: Seq<char>) -> bool {
    body.len() > 0 && forall|i: int| 0 <= i < body.len() ==> '0' <= #[trigger] body[i] <= '9'
}

/// The check of one item of a block that lists names of items of type `item`.
pub open spec fn list_item_check(item: Item, it: BlockItem) -> ValidationV {
    match it {
        BlockItem::Value(t) => refers(item, t.s@, t.loc, Usage::Required),
        BlockItem::Field(k, _) => found(FindingKind::ExpectedValue, k.loc),
        BlockItem::Block(b) => found(FindingKind::ExpectedValue, b.loc),
    }
}

/// The checks of a block that lists names of items of type `item`.
pub open spec fn spec_list_items(item: Item, items: Seq<BlockItem>) -> ValidationV
    decreases items.len(),
{
    if items.len() == 0 {
        nothing()
    } else {
        then(spec_list_items(item, items.drop_last()), list_item_check(item, items.last()))
    }
}

/// The check of one item of a block that lists numbers.
pub open spec fn numeric_item_check(it: BlockItem) -> ValidationV {
    match it {
        BlockItem::Value(t) => if is_number_text(t.s@) {
            nothing()
        } else {
            found(FindingKind::ExpectedNumber, t.loc)
        },
        BlockItem::Field(k, _) => found(FindingKind::ExpectedValue, k.loc),
        BlockItem::Block(b) => found(FindingKind::ExpectedValue, b.loc),
    }
}

/// The checks of a block that lists numbers.
pub open spec fn spec_numeric_items(items: Seq<BlockItem>) -> ValidationV
    decreases items.len(),
{
    if items.len() == 0 {
        nothing()
    } else {
        then(spec_numeric_items(items.drop_last()), numeric_item_check(items.last()))
    }
}

/// The check of one item of a block that lists choices.
pub open spec fn choice_item_check(choices: Seq<Seq<char>>, it: BlockItem) -> ValidationV {
    match it {
        BlockItem::Value(t) => if choices.contains(t.s@) {
            nothing()
        } else {
            found(FindingKind::UnknownChoice, t.loc)
        },
        BlockItem::Field(k, _) => found(FindingKind::ExpectedValue, k.loc),
        BlockItem::Block(b) => found(FindingKind::ExpectedValue, b.loc),
    }
}

/// The checks of a block that lists choices.
pub open spec fn spec_choice_items(choices: Seq<Seq<char>>, items: Seq<BlockItem>) -> ValidationV
    decreases items.len(),
{
    if items.len() == 0 {
        nothing()
    } else {
        then(spec_choice_items(choices, items.drop_last()), choice_item_check(choices, items.last()))
    }
}

/// The checks of the value `bv` of the field `key` under `rule`.
pub open spec fn spec_check_bv(rule: FieldRuleV, key: Token, bv: BV) -> ValidationV {
    match rule.check {
        Check::Bool => match bv {
            BV::Value(t) => if t.s@ == "yes"@ || t.s@ == "no"@ { nothing() } else { found(FindingKind::ExpectedBool, t.loc) },
            BV::Block(b) => found(FindingKind::ExpectedValue, b.loc),
        },
        Check::Numeric => match bv {
            BV::Value(t) => if is_number_text(t.s@) { nothing() } else { found(FindingKind::ExpectedNumber, t.loc) },
            BV::Block(b) => found(FindingKind::ExpectedValue, b.loc),
        },
        Check::Integer => match bv {
            BV::Value(t) => if is_integer_text(t.s@) { nothing() } else { found(FindingKind::ExpectedInteger, t.loc) },
            BV::Block(b) => found(FindingKind::ExpectedValue, b.loc),
        },
        Check::Value => match bv {
            BV::Value(_) => nothing(),
            BV::Block(b) => found(FindingKind::ExpectedValue, b.loc),
        },
        Check::Item(item) => match bv {
            BV::Value(t) => refers(item, t.s@, t.loc, Usage::Required),
            BV::Block(b) => found(FindingKind::ExpectedValue, b.loc),
        },
        Check::Choice => match bv {
            BV::Value(t) => if rule.choices.contains(t.s@) { nothing() } else { found(FindingKind::UnknownChoice, t.loc) },
            BV::Block(b) => found(FindingKind::ExpectedValue, b.loc),
        },
        Check::ItemList(item) => match bv {
            BV::Value(t) => found(FindingKind::ExpectedBlock, t.loc),
            BV::Block(b) => spec_list_items(item, b.items@),
        },
        Check::ChoiceList => match bv {
            BV::Value(t) => found(FindingKind::ExpectedBlock, t.loc),
            BV::Block(b) => spec_choice_items(rule.choices, b.items@),
        },
        Check::NumericList(n) => match bv {
            BV::Value(t) => found(FindingKind::ExpectedBlock, t.loc),
            BV::Block(b) => then(
                spec_numeric_items(b.items@),
                if b.items@.len() == n { nothing() } else { found_about(FindingKind::WrongCount, b.loc, decimal(n as nat)) },
            ),
        },
        Check::Block => match bv {
            BV::Value(t) => found(FindingKind::ExpectedBlock, t.loc),
            BV::Block(_) => nothing(),
        },
        Check::Script(scope) => scripted(key.s@, key.loc, scope),
        Check::Banned => found_about(FindingKind::BannedField, key.loc, key.s@),
    }
}

/// Whether `it` is a field named `name`.
pub open spec fn is_field_named(it: BlockItem, name: Seq<char>) -> bool {
    match it {
        BlockItem::Field(key, _) => key.s@ == name,
        _ => false,
    }
}

/// Whether `items` has a field named `name`.
pub open spec fn field_seen(items: Seq<BlockItem>, name: Seq<char>) -> bool {
    exists|k: int| 0 <= k < items.len() && #[trigger] is_field_named(items[k], name)
}

pub open spec fn rule_names(rules: Seq<FieldRuleV>) -> Seq<Seq<char>> {
    rules.map_values(|r: FieldRuleV| r.name)
}

/// The checks of one item of a block, after the items `before`.
pub open spec fn spec_check_item(rules: Seq<FieldRuleV>, before: Seq<BlockItem>, item: BlockItem) -> ValidationV {
    match item {
        BlockItem::Field(key, bv) => {
            let i = first_index_of(rule_names(rules), key.s@);
            if i < 0 {
                found_about(FindingKind::UnknownField, key.loc, key.s@)
            } else {
                then(
                    if !rules[i].multi && field_seen(before, key.s@) {
                        found_about(FindingKind::DuplicateField, key.loc, key.s@)
                    } else {
                        nothing()
                    },
                    spec_check_bv(rules[i], key, bv),
                )
            }
        },
        BlockItem::Value(t) => found(FindingKind::LooseValue, t.loc),
        BlockItem::Block(b) => found(FindingKind::LooseBlock, b.loc),
    }
}

/// The checks of the items of a block under `rules`, item by item: a field
/// goes by the first rule with its name; a field no rule knows, a second
/// occurrence of a field that may appear once, and loose values and blocks
/// are findings.
pub open spec fn spec_check_items(rules: Seq<FieldRuleV>, items: Seq<BlockItem>) -> ValidationV
    decreases items.len(),
{
    if items.len() == 0 {
        nothing()
    } else {
        then(spec_check_items(rules, items.drop_last()), spec_check_item(rules, items.drop_last(), items.last()))
    }
}

/// The finding that a required field is missing, if it is.
pub open spec fn spec_require(items: Seq<BlockItem>, name: Seq<char>, loc: Loc) -> ValidationV {
    if field_seen(items, name) {
        nothing()
    } else {
        found_about(FindingKind::MissingField, loc, name)
    }
}

impl Validation {
    pub fn new() -> (res: Validation)
        ensures
            res@ == nothing(),
    {
        let res = Validation { findings: Vec::new(), refs: Vec::new(), scripts: Vec::new() };
        assert(res@.scripts =~= Seq::<ScriptUseV>::empty());
        assert(res@.refs =~= Seq::<ReferenceV>::empty());
        assert(res@.findings =~= Seq::<FindingV>::empty());
        res
    }

    /// Records a finding.
    pub fn add_finding(&mut self, kind: FindingKind, loc: Loc)
        ensures
            final(self)@ == then(old(self)@, found(kind, loc)),
    {
        let ghost before = self.findings@;
        let f = Finding { kind, loc, other: None, subject: String::new(), max: Severity::Fatal };
        self.findings.push(f);
        assert(findings_view(self.findings@) =~= findings_view(before).push(f@));
        assert(final(self)@.findings =~= then(old(self)@, found(kind, loc)).findings);
        assert(final(self)@.refs =~= then(old(self)@, found(kind, loc)).refs);
        assert(final(self)@.scripts =~= then(old(self)@, found(kind, loc)).scripts);
    }

    /// Records a reference to the item `name` of type `item`.
    pub fn add_reference_chars(&mut self, item: Item, name: &Vec<char>, loc: Loc, usage: Usage)
        ensures
            final(self)@ == then(old(self)@, refers(item, name@, loc, usage)),
    {
        let r = Reference { item, name: from_chars(name), loc, usage };
        let ghost before = self.refs@;
        self.refs.push(r);
        assert(refs_view(self.refs@) =~= refs_view(before).push(r@));
        assert(final(self)@.findings =~= then(old(self)@, refers(item, name@, loc, usage)).findings);
        assert(final(self)@.refs =~= then(old(self)@, refers(item, name@, loc, usage)).refs);
        assert(final(self)@.scripts =~= then(old(self)@, refers(item, name@, loc, usage)).scripts);
    }

    /// Records a finding that conflicts with something at `other`.
    pub fn add_finding_with(&mut self, kind: FindingKind, loc: Loc, other: Loc, subject: &str)
        ensures
            final(self)@ == then(old(self)@, found_with(kind, loc, other, subject@)),
    {
        let ghost before = self.findings@;
        let f = Finding { kind, loc, other: Some(other), subject: owned(subject), max: Severity::Fatal };
        self.findings.push(f);
        assert(findings_view(self.findings@) =~= findings_view(before).push(f@));
        assert(final(self)@.findings =~= then(old(self)@, found_with(kind, loc, other, subject@)).findings);
        assert(final(self)@.refs =~= then(old(self)@, found_with(kind, loc, other, subject@)).refs);
        assert(final(self)@.scripts =~= then(old(self)@, found_with(kind, loc, other, subject@)).scripts);
    }

    /// Records a finding about the name or number `subject`.
    pub fn add_finding_about(&mut self, kind: FindingKind, loc: Loc, subject: &Vec<char>)
        ensures
            final(self)@ == then(old(self)@, found_about(kind, loc, subject@)),
    {
        let ghost before = self.findings@;
        let f = Finding { kind, loc, other: None, subject: from_chars(subject), max: Severity::Fatal };
        self.findings.push(f);
        assert(findings_view(self.findings@) =~= findings_view(before).push(f@));
        assert(final(self)@.findings =~= then(old(self)@, found_about(kind, loc, subject@)).findings);
        assert(final(self)@.refs =~= then(old(self)@, found_about(kind, loc, subject@)).refs);
        assert(final(self)@.scripts =~= then(old(self)@, found_about(kind, loc, subject@)).scripts);
    }

    /// Records a script field to be checked elsewhere in `scope`.
    pub fn add_script_use(&mut self, name: &str, loc: Loc, scope: ScriptScope)
        ensures
            final(self)@ == then(old(self)@, scripted(name@, loc, scope)),
    {
        let ghost before = self.scripts@;
        let u = ScriptUse { name: owned(name), loc, scope };
        self.scripts.push(u);
        assert(scripts_view(self.scripts@) =~= scripts_view(before).push(u@));
        assert(final(self)@.findings =~= then(old(self)@, scripted(name@, loc, scope)).findings);
        assert(final(self)@.refs =~= then(old(self)@, scripted(name@, loc, scope)).refs);
        assert(final(self)@.scripts =~= then(old(self)@, scripted(name@, loc, scope)).scripts);
    }

    /// Appends the findings, references and script fields of `w`, each finding to be
    /// reported at most as severe as `max`.
    pub fn append_capped(&mut self, w: &Validation, max: Severity)
        ensures
            final(self)@ == then(old(self)@, capped(w@, max)),
    {
        let ghost start = self@;
        let ghost cw = capped(w@, max);
        let mut i: usize = 0;
        while i < w.findings.len()
            invariant
                i <= w.findings@.len(),
                cw == capped(w@, max),
                start == old(self)@,
                findings_view(self.findings@) == start.findings + cw.findings.take(i as int),
                refs_view(self.refs@) == start.refs,
                scripts_view(self.scripts@) == start.scripts,
            decreases w.findings.len() - i,
        {
            let g = &w.findings[i];
            let f = Finding { kind: g.kind, loc: g.loc, other: g.other, subject: g.subject.clone(), max: g.max.at_most(max) };
            let ghost before = self.findings@;
            self.findings.push(f);
            assert(f@ == cw.findings[i as int]);
            assert(findings_view(self.findings@) =~= findings_view(before).push(f@));
            assert(cw.findings.take(i + 1) =~= cw.findings.take(i as int).push(cw.findings[i as int]));
            i += 1;
        }
        let mut j: usize = 0;
        while j < w.refs.len()
            invariant
                j <= w.refs@.len(),
                cw == capped(w@, max),
                start == old(self)@,
                findings_view(self.findings@) == start.findings + cw.findings,
                refs_view(self.refs@) == start.refs + cw.refs.take(j as int),
                scripts_view(self.scripts@) == start.scripts,
            decreases w.refs.len() - j,
        {
            let q = &w.refs[j];
            let r = Reference { item: q.item, name: q.name.clone(), loc: q.loc, usage: q.usage };
            let ghost before = self.refs@;
            self.refs.push(r);
            assert(r@ == cw.refs[j as int]);
            assert(refs_view(self.refs@) =~= refs_view(before).push(r@));
            assert(cw.refs.take(j + 1) =~= cw.refs.take(j as int).push(cw.refs[j as int]));
            j += 1;
        }
        let mut k: usize = 0;
        while k < w.scripts.len()
            invariant
                k <= w.scripts@.len(),
                cw == capped(w@, max),
                start == old(self)@,
                findings_view(self.findings@) == start.findings + cw.findings,
                refs_view(self.refs@) == start.refs + cw.refs,
                scripts_view(self.scripts@) == start.scripts + cw.scripts.take(k as int),
            decreases w.scripts.len() - k,
        {
            let q = &w.scripts[k];
            let u = ScriptUse { name: q.name.clone(), loc: q.loc, scope: q.scope };
            let ghost before = self.scripts@;
            self.scripts.push(u);
            assert(u@ == cw.scripts[k as int]);
            assert(scripts_view(self.scripts@) =~= scripts_view(before).push(u@));
            assert(cw.scripts.take(k + 1) =~= cw.scripts.take(k as int).push(cw.scripts[k as int]));
            k += 1;
        }
        assert(cw.scripts.take(cw.scripts.len() as int) == cw.scripts);
        assert(cw.findings.take(cw.findings.len() as int) == cw.findings);
        assert(cw.refs.take(cw.refs.len() as int) == cw.refs);
        assert(self@.findings =~= then(start, cw).findings);
        assert(self@.refs =~= then(start, cw).refs);
        assert(self@.scripts =~= then(start, cw).scripts);
    }

    /// Records a reference to the item `name` of type `item`.
    pub fn add_reference(&mut self, item: Item, name: &str, loc: Loc, usage: Usage)
        ensures
            final(self)@ == then(old(self)@, refers(item, name@, loc, usage)),
    {
        let r = Reference { item, name: from_chars(&to_chars(name)), loc, usage };
        let ghost before = self.refs@;
        self.refs.push(r);
        assert(refs_view(self.refs@) =~= refs_view(before).push(r@));
        assert(final(self)@.findings =~= then(old(self)@, refers(item, name@, loc, usage)).findings);
        assert(final(self)@.refs =~= then(old(self)@, refers(item, name@, loc, usage)).refs);
        assert(final(self)@.scripts =~= then(old(self)@, refers(item, name@, loc, usage)).scripts);
    }
}

pub proof fn lemma_then_assoc(a: ValidationV, b: ValidationV, c: ValidationV)
    ensures
        then(then(a, b), c) == then(a, then(b, c)),
{
    assert(then(then(a, b), c).findings =~= then(a, then(b, c)).findings);
    assert(then(then(a, b), c).refs =~= then(a, then(b, c)).refs);
    assert(then(then(a, b), c).scripts =~= then(a, then(b, c)).scripts);
}

pub proof fn lemma_nothing_then(a: ValidationV)
    ensures
        then(nothing(), a) == a,
{
    assert(then(nothing(), a).findings =~= a.findings);
    assert(then(nothing(), a).refs =~= a.refs);
    assert(then(nothing(), a).scripts =~= a.scripts);
}

pub proof fn lemma_then_nothing(a: ValidationV)
    ensures
        then(a, nothing()) == a,
{
    assert(then(a, nothing()).findings =~= a.findings);
    assert(then(a, nothing()).refs =~= a.refs);
    assert(then(a, nothing()).scripts =~= a.scripts);
}

/// The text of `key` followed by `suffix`.
pub fn suffixed(key: &Token, suffix: &str) -> (res: Vec<char>)
    ensures
        res@ == key.s@ + suffix@,
{
    let mut v = to_chars(key.as_str());
    crate::text::push_str(&mut v, suffix);
    v
}

/// `prefix`, the text of `key`, then `suffix`.
pub fn wrapped(prefix: &str, key: &Token, suffix: &str) -> (res: Vec<char>)
    ensures
        res@ == prefix@ + key.s@ + suffix@,
{
    let mut v = to_chars(prefix);
    crate::text::push_str(&mut v, key.as_str());
    crate::text::push_str(&mut v, suffix);
    v
}

/// Whether the last field `name = value` of `items` has exactly the value
/// `value`.
pub open spec fn value_is(items: Seq<BlockItem>, name: Seq<char>, value: Seq<char>) -> bool {
    match crate::block::last_field_value(items, name) {
        Some(t) => t.s@ == value,
        None => false,
    }
}

/// Whether `t` is an optional sign followed by digits.
pub fn token_is_integer(t: &Token) -> (res: bool)
    ensures
        res == is_integer_text(t.s@),
{
    let v = to_chars(t.as_str());
    let start: usize = if v.len() > 0 && v[0] == '-' { 1 } else { 0 };
    let ghost body = if v@.len() > 0 && v@[0] == '-' { v@.drop_first() } else { v@ };
    if start >= v.len() {
        return false;
    }
    let mut i = start;
    while i < v.len()
        invariant
            v@ == t.s@,
            body == (if v@.len() > 0 && v@[0] == '-' { v@.drop_first() } else { v@ }),
            start <= i <= v@.len(),
            start as int + body.len() == v@.len(),
            forall|k: int| 0 <= k < body.len() ==> body[k] == v@[start + k],
            forall|k: int| 0 <= k < i - start ==> '0' <= #[trigger] body[k] <= '9',
        decreases v.len() - i,
    {
        let c = v[i];
        assert(body[i - start] == c);
        if !('0' <= c && c <= '9') {
            assert(!('0' <= body[i - start] <= '9'));
            return false;
        }
        i += 1;
    }
    true
}

fn check_list_items(v: &mut Validation, item: Item, b: &Block)
    ensures
        final(v)@ == then(old(v)@, spec_list_items(item, b.items@)),
{
    let ghost start = v@;
    let mut i: usize = 0;
    proof {
        lemma_then_nothing(start);
    }
    while i < b.items.len()
        invariant
            i <= b.items@.len(),
            v@ == then(start, spec_list_items(item, b.items@.take(i as int))),
        decreases b.items.len() - i,
    {
        let ghost items = b.items@.take(i + 1);
        assert(items.drop_last() == b.items@.take(i as int));
        proof {
            lemma_then_assoc(start, spec_list_items(item, items.drop_last()), list_item_check(item, b.items@[i as int]));
        }
        match &b.items[i] {
            BlockItem::Value(t) => v.add_reference(item, t.as_str(), t.loc, Usage::Required),
            BlockItem::Field(k, _) => v.add_finding(FindingKind::ExpectedValue, k.loc),
            BlockItem::Block(x) => v.add_finding(FindingKind::ExpectedValue, x.loc),
        }
        i += 1;
    }
    assert(b.items@.take(b.items@.len() as int) == b.items@);
}

fn check_numeric_items(v: &mut Validation, b: &Block)
    ensures
        final(v)@ == then(old(v)@, spec_numeric_items(b.items@)),
{
    let ghost start = v@;
    let mut i: usize = 0;
    proof {
        lemma_then_nothing(start);
    }
    while i < b.items.len()
        invariant
            i <= b.items@.len(),
            v@ == then(start, spec_numeric_items(b.items@.take(i as int))),
        decreases b.items.len() - i,
    {
        let ghost items = b.items@.take(i + 1);
        assert(items.drop_last() == b.items@.take(i as int));
        proof {
            lemma_then_assoc(start, spec_numeric_items(items.drop_last()), numeric_item_check(b.items@[i as int]));
            lemma_then_nothing(v@);
        }
        match &b.items[i] {
            BlockItem::Value(t) => {
                if !t.is_number() {
                    v.add_finding(FindingKind::ExpectedNumber, t.loc);
                }
            },
            BlockItem::Field(k, _) => v.add_finding(FindingKind::ExpectedValue, k.loc),
            BlockItem::Block(x) => v.add_finding(FindingKind::ExpectedValue, x.loc),
        }
        i += 1;
    }
    assert(b.items@.take(b.items@.len() as int) == b.items@);
}

fn check_choice_items(v: &mut Validation, choices: &Vec<String>, b: &Block)
    ensures
        final(v)@ == then(old(v)@, spec_choice_items(strings_view(choices@), b.items@)),
{
    let ghost cs = strings_view(choices@);
    let ghost start = v@;
    let mut i: usize = 0;
    proof {
        lemma_then_nothing(start);
    }
    while i < b.items.len()
        invariant
            i <= b.items@.len(),
            cs == strings_view(choices@),
            v@ == then(start, spec_choice_items(cs, b.items@.take(i as int))),
        decreases b.items.len() - i,
    {
        let ghost items = b.items@.take(i + 1);
        assert(items.drop_last() == b.items@.take(i as int));
        proof {
            lemma_then_assoc(start, spec_choice_items(cs, items.drop_last()), choice_item_check(cs, b.items@[i as int]));
            lemma_then_nothing(v@);
        }
        match &b.items[i] {
            BlockItem::Value(t) => {
                if !is_choice(t, choices) {
                    v.add_finding(FindingKind::UnknownChoice, t.loc);
                }
            },
            BlockItem::Field(k, _) => v.add_finding(FindingKind::ExpectedValue, k.loc),
            BlockItem::Block(x) => v.add_finding(FindingKind::ExpectedValue, x.loc),
        }
        i += 1;
    }
    assert(b.items@.take(b.items@.len() as int) == b.items@);
}

/// Whether `t` is one of `choices`.
fn is_choice(t: &Token, choices: &Vec<String>) -> (res: bool)
    ensures
        res == strings_view(choices@).contains(t.s@),
{
    let ghost cs = strings_view(choices@);
    let mut i: usize = 0;
    while i < choices.len()
        invariant
            i <= choices@.len(),
            cs == strings_view(choices@),
            forall|k: int| 0 <= k < i ==> cs[k] != t.s@,
        decreases choices.len() - i,
    {
        assert(cs[i as int] == choices@[i as int]@);
        if t.is(choices[i].as_str()) {
            assert(cs[i as int] == t.s@);
            return true;
        }
        i += 1;
    }
    false
}

/// Checks the value `bv` of the field `key` under `rule`.
pub fn check_bv(v: &mut Validation, rule: &FieldRule, key: &Token, bv: &BV)
    ensures
        final(v)@ == then(old(v)@, spec_check_bv(rule@, *key, *bv)),
{
    proof {
        lemma_then_nothing(v@);
    }
    match rule.check {
        Check::Bool => match bv {
            BV::Value(t) => {
                if !(t.is("yes") || t.is("no")) {
                    v.add_finding(FindingKind::ExpectedBool, t.loc);
                }
            },
            BV::Block(b) => v.add_finding(FindingKind::ExpectedValue, b.loc),
        },
        Check::Numeric => match bv {
            BV::Value(t) => {
                if !t.is_number() {
                    v.add_finding(FindingKind::ExpectedNumber, t.loc);
                }
            },
            BV::Block(b) => v.add_finding(FindingKind::ExpectedValue, b.loc),
        },
        Check::Integer => match bv {
            BV::Value(t) => {
                if !token_is_integer(t) {
                    v.add_finding(FindingKind::ExpectedInteger, t.loc);
                }
            },
            BV::Block(b) => v.add_finding(FindingKind::ExpectedValue, b.loc),
        },
        Check::Value => match bv {
            BV::Value(_) => {},
            BV::Block(b) => v.add_finding(FindingKind::ExpectedValue, b.loc),
        },
        Check::Item(item) => match bv {
            BV::Value(t) => v.add_reference(item, t.as_str(), t.loc, Usage::Required),
            BV::Block(b) => v.add_finding(FindingKind::ExpectedValue, b.loc),
        },
        Check::Choice => match bv {
            BV::Value(t) => {
                if !is_choice(t, &rule.choices) {
                    v.add_finding(FindingKind::UnknownChoice, t.loc);
                }
            },
            BV::Block(b) => v.add_finding(FindingKind::ExpectedValue, b.loc),
        },
        Check::ItemList(item) => match bv {
            BV::Value(t) => v.add_finding(FindingKind::ExpectedBlock, t.loc),
            BV::Block(b) => check_list_items(v, item, b),
        },
        Check::ChoiceList => match bv {
            BV::Value(t) => v.add_finding(FindingKind::ExpectedBlock, t.loc),
            BV::Block(b) => check_choice_items(v, &rule.choices, b),
        },
        Check::NumericList(n) => match bv {
            BV::Value(t) => v.add_finding(FindingKind::ExpectedBlock, t.loc),
            BV::Block(b) => {
                let ghost start = v@;
                check_numeric_items(v, b);
                let ghost mid = v@;
                proof {
                    lemma_then_nothing(mid);
                }
                if b.items.len() != n {
                    v.add_finding_about(FindingKind::WrongCount, b.loc, &usize_decimal(n));
                }
                proof {
                    lemma_then_assoc(
                        start,
                        spec_numeric_items(b.items@),
                        if b.items@.len() == n { nothing() } else { found_about(FindingKind::WrongCount, b.loc, decimal(n as nat)) },
                    );
                }
            },
        },
        Check::Block => match bv {
            BV::Value(t) => v.add_finding(FindingKind::ExpectedBlock, t.loc),
            BV::Block(_) => {},
        },
        Check::Script(scope) => v.add_script_use(key.as_str(), key.loc, scope),
        Check::Banned => v.add_finding_about(FindingKind::BannedField, key.loc, &to_chars(key.as_str())),
    }
}

/// Whether the first `upto` items of `items` have a field named `name`.
fn field_seen_before(items: &Vec<BlockItem>, upto: usize, name: &Vec<char>) -> (res: bool)
    requires
        upto <= items@.len(),
    ensures
        res == field_seen(items@.take(upto as int), name@),
{
    let ghost before = items@.take(upto as int);
    let mut j: usize = 0;
    while j < upto
        invariant
            j <= upto <= items@.len(),
            before == items@.take(upto as int),
            forall|k: int| 0 <= k < j ==> !is_field_named(#[trigger] before[k], name@),
        decreases upto - j,
    {
        assert(before[j as int] == items@[j as int]);
        match &items[j] {
            BlockItem::Field(key, _) => {
                if chars_eq(&to_chars(key.as_str()), name) {
                    assert(is_field_named(before[j as int], name@));
                    return true;
                }
            },
            _ => {},
        }
        j += 1;
    }
    false
}

/// The index of the first rule named `name`.
fn rule_index(rules: &Vec<FieldRule>, name: &Vec<char>) -> (res: Option<usize>)
    ensures
        match res {
            Some(i) => first_index_of(rule_names(rules_view(rules@)), name@) == i as int && i < rules@.len(),
            None => first_index_of(rule_names(rules_view(rules@)), name@) == -1,
        },
{
    let ghost names = rule_names(rules_view(rules@));
    let mut i: usize = 0;
    while i < rules.len()
        invariant
            i <= rules@.len(),
            names == rule_names(rules_view(rules@)),
            names.len() == rules@.len(),
            forall|k: int| 0 <= k < i ==> names[k] != name@,
        decreases rules.len() - i,
    {
        assert(names[i as int] == rules@[i as int].name@);
        if chars_eq(&to_chars(rules[i].name), name) {
            proof {
                crate::text::lemma_first_index_is(names, name@, i as int);
            }
            return Some(i);
        }
        i += 1;
    }
    proof {
        crate::text::lemma_first_index_is(names, name@, -1);
    }
    None
}

/// Checks the items of `block` under `rules` (see [`spec_check_items`]).
pub fn check_fields(v: &mut Validation, block: &Block, rules: &Vec<FieldRule>)
    ensures
        final(v)@ == then(old(v)@, spec_check_items(rules_view(rules@), block.items@)),
{
    let ghost start = v@;
    let ghost rv = rules_view(rules@);
    let mut i: usize = 0;
    proof {
        lemma_then_nothing(start);
    }
    while i < block.items.len()
        invariant
            i <= block.items@.len(),
            rv == rules_view(rules@),
            v@ == then(start, spec_check_items(rv, block.items@.take(i as int))),
        decreases block.items.len() - i,
    {
        let ghost items = block.items@.take(i + 1);
        assert(items.drop_last() == block.items@.take(i as int));
        proof {
            lemma_then_assoc(start, spec_check_items(rv, items.drop_last()), spec_check_item(rv, items.drop_last(), block.items@[i as int]));
        }
        match &block.items[i] {
            BlockItem::Field(key, bv) => {
                let name = to_chars(key.as_str());
                match rule_index(rules, &name) {
                    None => v.add_finding_about(FindingKind::UnknownField, key.loc, &to_chars(key.as_str())),
                    Some(r) => {
                        let ghost before = v@;
                        let dup = !rules[r].multi && field_seen_before(&block.items, i, &name);
                        if dup {
                            v.add_finding_about(FindingKind::DuplicateField, key.loc, &to_chars(key.as_str()));
                        }
                        proof {
                            lemma_then_nothing(before);
                        }
                        let ghost mid = v@;
                        check_bv(v, &rules[r], key, bv);
                        proof {
                            lemma_then_assoc(
                                before,
                                if dup { found_about(FindingKind::DuplicateField, key.loc, key.s@) } else { nothing() },
                                spec_check_bv(rv[r as int], *key, *bv),
                            );
                        }
                    },
                }
            },
            BlockItem::Value(t) => v.add_finding(FindingKind::LooseValue, t.loc),
            BlockItem::Block(b) => v.add_finding(FindingKind::LooseBlock, b.loc),
        }
        i += 1;
    }
    assert(block.items@.take(block.items@.len() as int) == block.items@);
}

/// Whether `block` has a field named `name`.
pub fn has_field(block: &Block, name: &str) -> (res: bool)
    ensures
        res == field_seen(block.items@, name@),
{
    assert(block.items@.take(block.items@.len() as int) == block.items@);
    field_seen_before(&block.items, block.items.len(), &to_chars(name))
}

/// Records a finding at `block` if it has no field named `name`.
pub fn require_field(v: &mut Validation, block: &Block, name: &str)
    ensures
        final(v)@ == then(old(v)@, spec_require(block.items@, name@, block.loc)),
{
    let n = to_chars(name);
    assert(block.items@.take(block.items@.len() as int) == block.items@);
    if field_seen_before(&block.items, block.items.len(), &n) {
        proof {
            lemma_then_nothing(v@);
        }
    } else {
        v.add_finding_about(FindingKind::MissingField, block.loc, &n);
    }
}

/// The findings for the required fields of `rules` that `items` lacks, in
/// the order of the rules; they point at `loc`.
pub open spec fn spec_requirements(rules: Seq<FieldRuleV>, items: Seq<BlockItem>, loc: Loc) -> ValidationV
    decreases rules.len(),
{
    if rules.len() == 0 {
        nothing()
    } else {
        then(
            spec_requirements(rules.drop_last(), items, loc),
            if rules.last().required { spec_require(items, rules.last().name, loc) } else { nothing() },
        )
    }
}

/// The checks of a block under `rules`: its missing required fields, then
/// its items (see [`spec_check_items`]).
pub open spec fn spec_check_block(rules: Seq<FieldRuleV>, b: Block) -> ValidationV {
    then(spec_requirements(rules, b.items@, b.loc), spec_check_items(rules, b.items@))
}

/// Checks a block under `rules` (see [`spec_check_block`]).
pub fn check_block(v: &mut Validation, b: &Block, rules: &Vec<FieldRule>)
    ensures
        final(v)@ == then(old(v)@, spec_check_block(rules_view(rules@), *b)),
{
    let ghost start = v@;
    let ghost rv = rules_view(rules@);
    let mut i: usize = 0;
    proof {
        lemma_then_nothing(start);
    }
    while i < rules.len()
        invariant
            i <= rules@.len(),
            rv == rules_view(rules@),
            v@ == then(start, spec_requirements(rv.take(i as int), b.items@, b.loc)),
        decreases rules.len() - i,
    {
        let ghost rs = rv.take(i + 1);
        assert(rs.drop_last() == rv.take(i as int));
        assert(rs.last() == rules@[i as int]@);
        let ghost step = if rs.last().required { spec_require(b.items@, rs.last().name, b.loc) } else { nothing() };
        proof {
            lemma_then_assoc(start, spec_requirements(rs.drop_last(), b.items@, b.loc), step);
            lemma_then_nothing(v@);
        }
        if rules[i].required {
            require_field(v, b, rules[i].name);
        }
        i += 1;
    }
    assert(rv.take(rules@.len() as int) == rv);
    let ghost mid = v@;
    check_fields(v, b, rules);
    proof {
        lemma_then_assoc(start, spec_requirements(rv, b.items@, b.loc), spec_check_items(rv, b.items@));
    }
}

/// The checks of one item of a list of blocks, each under `rules`; with
/// `one_item`, a block with more than one item is a finding too.
pub open spec fn block_list_check(rules: Seq<FieldRuleV>, one_item: bool, it: BlockItem) -> ValidationV {
    match it {
        BlockItem::Block(b) => then(
            spec_check_block(rules, b),
            if one_item && b.items@.len() > 1 { found(FindingKind::OneInputPerBlock, b.loc) } else { nothing() },
        ),
        BlockItem::Field(k, _) => found_about(FindingKind::UnknownField, k.loc, k.s@),
        BlockItem::Value(t) => found(FindingKind::LooseValue, t.loc),
    }
}

/// The checks of a list of blocks.
pub open spec fn spec_block_list(rules: Seq<FieldRuleV>, one_item: bool, items: Seq<BlockItem>) -> ValidationV
    decreases items.len(),
{
    if items.len() == 0 {
        nothing()
    } else {
        then(spec_block_list(rules, one_item, items.drop_last()), block_list_check(rules, one_item, items.last()))
    }
}

/// The checks of the blocks of the fields named `name`, each a list of blocks.
pub open spec fn spec_nested_block_list(items: Seq<BlockItem>, name: Seq<char>, rules: Seq<FieldRuleV>, one_item: bool) -> ValidationV
    decreases items.len(),
{
    if items.len() == 0 {
        nothing()
    } else {
        then(spec_nested_block_list(items.drop_last(), name, rules, one_item), match named_block(items.last(), name) {
            Some(b) => spec_block_list(rules, one_item, b.items@),
            None => nothing(),
        })
    }
}

fn check_block_list(v: &mut Validation, b: &Block, rules: &Vec<FieldRule>, one_item: bool)
    ensures
        final(v)@ == then(old(v)@, spec_block_list(rules_view(rules@), one_item, b.items@)),
{
    let ghost start = v@;
    let ghost rv = rules_view(rules@);
    let mut i: usize = 0;
    proof {
        lemma_then_nothing(start);
    }
    while i < b.items.len()
        invariant
            i <= b.items@.len(),
            rv == rules_view(rules@),
            v@ == then(start, spec_block_list(rv, one_item, b.items@.take(i as int))),
        decreases b.items.len() - i,
    {
        let ghost items = b.items@.take(i + 1);
        assert(items.drop_last() == b.items@.take(i as int));
        proof {
            lemma_then_assoc(start, spec_block_list(rv, one_item, items.drop_last()), block_list_check(rv, one_item, b.items@[i as int]));
        }
        match &b.items[i] {
            BlockItem::Block(x) => {
                let ghost before = v@;
                check_block(v, x, rules);
                let ghost mid = v@;
                proof {
                    lemma_then_nothing(mid);
                }
                if one_item && x.items.len() > 1 {
                    v.add_finding(FindingKind::OneInputPerBlock, x.loc);
                }
                proof {
                    lemma_then_assoc(
                        before,
                        spec_check_block(rv, *x),
                        if one_item && x.items@.len() > 1 { found(FindingKind::OneInputPerBlock, x.loc) } else { nothing() },
                    );
                }
            },
            BlockItem::Field(k, _) => v.add_finding_about(FindingKind::UnknownField, k.loc, &to_chars(k.as_str())),
            BlockItem::Value(t) => v.add_finding(FindingKind::LooseValue, t.loc),
        }
        i += 1;
    }
    assert(b.items@.take(b.items@.len() as int) == b.items@);
}

/// Checks the block of each field named `name` as a list of blocks under
/// `rules` (see [`spec_block_list`]).
pub fn check_nested_block_list(v: &mut Validation, block: &Block, name: &str, rules: &Vec<FieldRule>, one_item: bool)
    ensures
        final(v)@ == then(old(v)@, spec_nested_block_list(block.items@, name@, rules_view(rules@), one_item)),
{
    let ghost start = v@;
    let ghost rv = rules_view(rules@);
    let mut i: usize = 0;
    proof {
        lemma_then_nothing(start);
    }
    while i < block.items.len()
        invariant
            i <= block.items@.len(),
            rv == rules_view(rules@),
            v@ == then(start, spec_nested_block_list(block.items@.take(i as int), name@, rv, one_item)),
        decreases block.items.len() - i,
    {
        let ghost items = block.items@.take(i + 1);
        assert(items.drop_last() == block.items@.take(i as int));
        let ghost step = match named_block(block.items@[i as int], name@) {
            Some(b) => spec_block_list(rv, one_item, b.items@),
            None => nothing(),
        };
        proof {
            lemma_then_assoc(start, spec_nested_block_list(items.drop_last(), name@, rv, one_item), step);
            lemma_then_nothing(v@);
        }
        match &block.items[i] {
            BlockItem::Field(k, BV::Block(b)) => {
                if k.is(name) {
                    check_block_list(v, b, rules, one_item);
                }
            },
            _ => {},
        }
        i += 1;
    }
    assert(block.items@.take(block.items@.len() as int) == block.items@);
}

/// The checks of the blocks of the fields named `outer`, each under
/// `outer_rules` and with its own fields named `inner` under `inner_rules`.
pub open spec fn spec_nested_twice(
    items: Seq<BlockItem>,
    outer: Seq<char>,
    outer_rules: Seq<FieldRuleV>,
    inner: Seq<char>,
    inner_rules: Seq<FieldRuleV>,
) -> ValidationV
    decreases items.len(),
{
    if items.len() == 0 {
        nothing()
    } else {
        then(spec_nested_twice(items.drop_last(), outer, outer_rules, inner, inner_rules), match named_block(items.last(), outer) {
            Some(b) => then(spec_check_block(outer_rules, b), spec_nested(b.items@, inner, inner_rules)),
            None => nothing(),
        })
    }
}

/// Checks the block of each field named `outer` under `outer_rules`, and its
/// fields named `inner` under `inner_rules`.
pub fn check_nested_twice(
    v: &mut Validation,
    block: &Block,
    outer: &str,
    outer_rules: &Vec<FieldRule>,
    inner: &str,
    inner_rules: &Vec<FieldRule>,
)
    ensures
        final(v)@ == then(old(v)@, spec_nested_twice(block.items@, outer@, rules_view(outer_rules@), inner@, rules_view(inner_rules@))),
{
    let ghost start = v@;
    let ghost ov = rules_view(outer_rules@);
    let ghost iv = rules_view(inner_rules@);
    let mut i: usize = 0;
    proof {
        lemma_then_nothing(start);
    }
    while i < block.items.len()
        invariant
            i <= block.items@.len(),
            ov == rules_view(outer_rules@),
            iv == rules_view(inner_rules@),
            v@ == then(start, spec_nested_twice(block.items@.take(i as int), outer@, ov, inner@, iv)),
        decreases block.items.len() - i,
    {
        let ghost items = block.items@.take(i + 1);
        assert(items.drop_last() == block.items@.take(i as int));
        let ghost step = match named_block(block.items@[i as int], outer@) {
            Some(b) => then(spec_check_block(ov, b), spec_nested(b.items@, inner@, iv)),
            None => nothing(),
        };
        proof {
            lemma_then_assoc(start, spec_nested_twice(items.drop_last(), outer@, ov, inner@, iv), step);
            lemma_then_nothing(v@);
        }
        match &block.items[i] {
            BlockItem::Field(k, BV::Block(b)) => {
                if k.is(outer) {
                    let ghost before = v@;
                    check_block(v, b, outer_rules);
                    check_nested(v, b, inner, inner_rules);
                    proof {
                        lemma_then_assoc(before, spec_check_block(ov, *b), spec_nested(b.items@, inner@, iv));
                    }
                }
            },
            _ => {},
        }
        i += 1;
    }
    assert(block.items@.take(block.items@.len() as int) == block.items@);
}

/// The block of `it` if it is a field named `name` with a block value.
pub open spec fn named_block(it: BlockItem, name: Seq<char>) -> Option<Block> {
    match it {
        BlockItem::Field(k, BV::Block(b)) => if k.s@ == name { Some(b) } else { None },
        _ => None,
    }
}

/// The checks of the blocks of the fields named `name`, each under `rules`.
pub open spec fn spec_nested(items: Seq<BlockItem>, name: Seq<char>, rules: Seq<FieldRuleV>) -> ValidationV
    decreases items.len(),
{
    if items.len() == 0 {
        nothing()
    } else {
        then(spec_nested(items.drop_last(), name, rules), match named_block(items.last(), name) {
            Some(b) => spec_check_block(rules, b),
            None => nothing(),
        })
    }
}

/// Checks the block of each field named `name` under `rules`.
pub fn check_nested(v: &mut Validation, block: &Block, name: &str, rules: &Vec<FieldRule>)
    ensures
        final(v)@ == then(old(v)@, spec_nested(block.items@, name@, rules_view(rules@))),
{
    let ghost start = v@;
    let ghost rv = rules_view(rules@);
    let mut i: usize = 0;
    proof {
        lemma_then_nothing(start);
    }
    while i < block.items.len()
        invariant
            i <= block.items@.len(),
            rv == rules_view(rules@),
            v@ == then(start, spec_nested(block.items@.take(i as int), name@, rv)),
        decreases block.items.len() - i,
    {
        let ghost items = block.items@.take(i + 1);
        assert(items.drop_last() == block.items@.take(i as int));
        let ghost step = match named_block(block.items@[i as int], name@) {
            Some(b) => spec_check_block(rv, b),
            None => nothing(),
        };
        proof {
            lemma_then_assoc(start, spec_nested(items.drop_last(), name@, rv), step);
            lemma_then_nothing(v@);
        }
        match &block.items[i] {
            BlockItem::Field(k, BV::Block(b)) => {
                if k.is(name) {
                    check_block(v, b, rules);
                }
            },
            _ => {},
        }
        i += 1;
    }
    assert(block.items@.take(block.items@.len() as int) == block.items@);
}

/// The rule that only checks a value.
pub open spec fn value_rule(check: Check) -> FieldRuleV {
    spec_rule(Seq::empty(), check, true)
}

fn make_value_rule(check: Check) -> (res: FieldRule)
    ensures
        res@ == value_rule(check),
{
    proof {
        reveal_strlit("");
        assert(""@ =~= Seq::<char>::empty());
    }
    rule("", check, true)
}

/// The check of one field of a block whose keys name items of type
/// `key_item` and whose values go by `value`.
pub open spec fn keyed_item_check(key_item: Item, value: Check, it: BlockItem) -> ValidationV {
    match it {
        BlockItem::Field(k, bv) => then(refers(key_item, k.s@, k.loc, Usage::Required), spec_check_bv(value_rule(value), k, bv)),
        BlockItem::Value(t) => found(FindingKind::LooseValue, t.loc),
        BlockItem::Block(b) => found(FindingKind::LooseBlock, b.loc),
    }
}

/// The checks of a block whose keys name items of type `key_item` and whose
/// values go by `value`.
pub open spec fn spec_keyed(key_item: Item, value: Check, items: Seq<BlockItem>) -> ValidationV
    decreases items.len(),
{
    if items.len() == 0 {
        nothing()
    } else {
        then(spec_keyed(key_item, value, items.drop_last()), keyed_item_check(key_item, value, items.last()))
    }
}

fn check_keyed(v: &mut Validation, b: &Block, key_item: Item, value: &FieldRule)
    requires
        value@ == value_rule(value.check),
    ensures
        final(v)@ == then(old(v)@, spec_keyed(key_item, value.check, b.items@)),
{
    let ghost start = v@;
    let mut i: usize = 0;
    proof {
        lemma_then_nothing(start);
    }
    while i < b.items.len()
        invariant
            i <= b.items@.len(),
            value@ == value_rule(value.check),
            v@ == then(start, spec_keyed(key_item, value.check, b.items@.take(i as int))),
        decreases b.items.len() - i,
    {
        let ghost items = b.items@.take(i + 1);
        assert(items.drop_last() == b.items@.take(i as int));
        proof {
            lemma_then_assoc(start, spec_keyed(key_item, value.check, items.drop_last()), keyed_item_check(key_item, value.check, b.items@[i as int]));
        }
        match &b.items[i] {
            BlockItem::Field(k, bv) => {
                let ghost before = v@;
                v.add_reference(key_item, k.as_str(), k.loc, Usage::Required);
                check_bv(v, value, k, bv);
                proof {
                    lemma_then_assoc(before, refers(key_item, k.s@, k.loc, Usage::Required), spec_check_bv(value_rule(value.check), *k, *bv));
                }
            },
            BlockItem::Value(t) => v.add_finding(FindingKind::LooseValue, t.loc),
            BlockItem::Block(x) => v.add_finding(FindingKind::LooseBlock, x.loc),
        }
        i += 1;
    }
    assert(b.items@.take(b.items@.len() as int) == b.items@);
}

/// The checks of the blocks of the fields named `name`, each keyed by items of
/// type `key_item` with values going by `value`.
pub open spec fn spec_nested_keyed(items: Seq<BlockItem>, name: Seq<char>, key_item: Item, value: Check) -> ValidationV
    decreases items.len(),
{
    if items.len() == 0 {
        nothing()
    } else {
        then(spec_nested_keyed(items.drop_last(), name, key_item, value), match named_block(items.last(), name) {
            Some(b) => spec_keyed(key_item, value, b.items@),
            None => nothing(),
        })
    }
}

/// Checks the block of each field named `name` as keyed by items of type
/// `key_item`, with values going by `value`.
pub fn check_nested_keyed(v: &mut Validation, block: &Block, name: &str, key_item: Item, value: Check)
    ensures
        final(v)@ == then(old(v)@, spec_nested_keyed(block.items@, name@, key_item, value)),
{
    let r = make_value_rule(value);
    let ghost start = v@;
    let mut i: usize = 0;
    proof {
        lemma_then_nothing(start);
    }
    while i < block.items.len()
        invariant
            i <= block.items@.len(),
            r@ == value_rule(value),
            r.check == value,
            v@ == then(start, spec_nested_keyed(block.items@.take(i as int), name@, key_item, value)),
        decreases block.items.len() - i,
    {
        let ghost items = block.items@.take(i + 1);
        assert(items.drop_last() == block.items@.take(i as int));
        let ghost step = match named_block(block.items@[i as int], name@) {
            Some(b) => spec_keyed(key_item, value, b.items@),
            None => nothing(),
        };
        proof {
            lemma_then_assoc(start, spec_nested_keyed(items.drop_last(), name@, key_item, value), step);
            lemma_then_nothing(v@);
        }
        match &block.items[i] {
            BlockItem::Field(k, BV::Block(b)) => {
                if k.is(name) {
                    check_keyed(v, b, key_item, &r);
                }
            },
            _ => {},
        }
        i += 1;
    }
    assert(block.items@.take(block.items@.len() as int) == block.items@);
}

/// The number of bare values among `items`.
pub open spec fn value_count(items: Seq<BlockItem>) -> nat
    decreases items.len(),
{
    if items.len() == 0 {
        0
    } else {
        value_count(items.drop_last()) + if items.last() is Value { 1nat } else { 0nat }
    }
}

/// The check of one row of a block of rows of `n` numbers each.
pub open spec fn row_check(n: nat, it: BlockItem) -> ValidationV {
    match it {
        BlockItem::Block(b) => then(
            if value_count(b.items@) == n { nothing() } else { found_about(FindingKind::WrongCount, b.loc, decimal(n)) },
            spec_numeric_items(b.items@),
        ),
        BlockItem::Field(k, _) => found_about(FindingKind::UnknownField, k.loc, k.s@),
        BlockItem::Value(t) => found(FindingKind::LooseValue, t.loc),
    }
}

/// The checks of a block of rows of `n` numbers each.
pub open spec fn spec_rows(n: nat, items: Seq<BlockItem>) -> ValidationV
    decreases items.len(),
{
    if items.len() == 0 {
        nothing()
    } else {
        then(spec_rows(n, items.drop_last()), row_check(n, items.last()))
    }
}

/// The checks of the blocks of the fields named `name`, each a block of rows
/// of `n` numbers.
pub open spec fn spec_nested_rows(items: Seq<BlockItem>, name: Seq<char>, n: nat) -> ValidationV
    decreases items.len(),
{
    if items.len() == 0 {
        nothing()
    } else {
        then(spec_nested_rows(items.drop_last(), name, n), match named_block(items.last(), name) {
            Some(b) => spec_rows(n, b.items@),
            None => nothing(),
        })
    }
}

fn count_values(items: &Vec<BlockItem>) -> (res: usize)
    ensures
        res == value_count(items@),
{
    let mut c: usize = 0;
    let mut i: usize = 0;
    while i < items.len()
        invariant
            i <= items@.len(),
            c == value_count(items@.take(i as int)),
            c <= i,
        decreases items.len() - i,
    {
        assert(items@.take(i + 1).drop_last() == items@.take(i as int));
        if let BlockItem::Value(_) = &items[i] {
            c += 1;
        }
        i += 1;
    }
    assert(items@.take(items@.len() as int) == items@);
    c
}

fn check_rows(v: &mut Validation, b: &Block, n: usize)
    ensures
        final(v)@ == then(old(v)@, spec_rows(n as nat, b.items@)),
{
    let ghost start = v@;
    let mut i: usize = 0;
    proof {
        lemma_then_nothing(start);
    }
    while i < b.items.len()
        invariant
            i <= b.items@.len(),
            v@ == then(start, spec_rows(n as nat, b.items@.take(i as int))),
        decreases b.items.len() - i,
    {
        let ghost items = b.items@.take(i + 1);
        assert(items.drop_last() == b.items@.take(i as int));
        proof {
            lemma_then_assoc(start, spec_rows(n as nat, items.drop_last()), row_check(n as nat, b.items@[i as int]));
        }
        match &b.items[i] {
            BlockItem::Block(row) => {
                let ghost before = v@;
                let count_ok = count_values(&row.items) == n;
                proof {
                    lemma_then_nothing(before);
                }
                if !count_ok {
                    v.add_finding_about(FindingKind::WrongCount, row.loc, &usize_decimal(n));
                }
                check_numeric_items(v, row);
                proof {
                    lemma_then_assoc(
                        before,
                        if value_count(row.items@) == n as nat { nothing() } else { found_about(FindingKind::WrongCount, row.loc, decimal(n as nat)) },
                        spec_numeric_items(row.items@),
                    );
                }
            },
            BlockItem::Field(k, _) => v.add_finding_about(FindingKind::UnknownField, k.loc, &to_chars(k.as_str())),
            BlockItem::Value(t) => v.add_finding(FindingKind::LooseValue, t.loc),
        }
        i += 1;
    }
    assert(b.items@.take(b.items@.len() as int) == b.items@);
}

/// Checks the block of each field named `name` as rows of `n` numbers.
pub fn check_nested_rows(v: &mut Validation, block: &Block, name: &str, n: usize)
    ensures
        final(v)@ == then(old(v)@, spec_nested_rows(block.items@, name@, n as nat)),
{
    let ghost start = v@;
    let mut i: usize = 0;
    proof {
        lemma_then_nothing(start);
    }
    while i < block.items.len()
        invariant
            i <= block.items@.len(),
            v@ == then(start, spec_nested_rows(block.items@.take(i as int), name@, n as nat)),
        decreases block.items.len() - i,
    {
        let ghost items = block.items@.take(i + 1);
        assert(items.drop_last() == block.items@.take(i as int));
        let ghost step = match named_block(block.items@[i as int], name@) {
            Some(b) => spec_rows(n as nat, b.items@),
            None => nothing(),
        };
        proof {
            lemma_then_assoc(start, spec_nested_rows(items.drop_last(), name@, n as nat), step);
            lemma_then_nothing(v@);
        }
        match &block.items[i] {
            BlockItem::Field(k, BV::Block(b)) => {
                if k.is(name) {
                    check_rows(v, b, n);
                }
            },
            _ => {},
        }
        i += 1;
    }
    assert(block.items@.take(block.items@.len() as int) == block.items@);
}

// ---------------------------------------------------------------------------
// From findings to reports
// ---------------------------------------------------------------------------

/// The error key that a finding is reported under.
pub open spec fn finding_key(k: FindingKind) -> ErrorKey {
    match k {
        FindingKind::UnknownField => ErrorKey::UnknownField,
        FindingKind::DuplicateField | FindingKind::DuplicateLocator => ErrorKey::DuplicateField,
        FindingKind::MissingField => ErrorKey::FieldMissing,
        FindingKind::ZeroTimeout => ErrorKey::Logic,
        _ => ErrorKey::Validation,
    }
}

/// How severe the report of a finding is before any cap.
pub open spec fn finding_severity(k: FindingKind) -> Severity {
    match k {
        FindingKind::UnknownField | FindingKind::DuplicateField | FindingKind::DuplicateLocator
        | FindingKind::WrongCount => Severity::Warning,
        _ => Severity::Error,
    }
}

/// The message of the report of a finding.
pub open spec fn finding_msg(f: FindingV) -> Seq<char> {
    match f.kind {
        FindingKind::UnknownField => "unknown field `"@ + f.subject + "`"@,
        FindingKind::DuplicateField => "duplicate field `"@ + f.subject + "`"@,
        FindingKind::ExpectedValue => "expected a value, found a block"@,
        FindingKind::ExpectedBlock => "expected a block, found a value"@,
        FindingKind::ExpectedBool => "expected yes or no"@,
        FindingKind::ExpectedNumber => "expected a number"@,
        FindingKind::ExpectedInteger => "expected an integer"@,
        FindingKind::UnknownChoice => "unknown value"@,
        FindingKind::WrongCount => "expected exactly "@ + f.subject + " numbers"@,
        FindingKind::LooseValue => "found a loose value"@,
        FindingKind::LooseBlock => "found a loose block"@,
        FindingKind::BannedField => "field `"@ + f.subject + "` is not allowed here"@,
        FindingKind::MissingField => "required field `"@ + f.subject + "` missing"@,
        FindingKind::ZeroTimeout => "as of 1.9.5, a timeout of 0 will close the journal entry immediately"@,
        FindingKind::OneInputPerBlock => "use only 1 input per block"@,
        FindingKind::DuplicateLocator => "duplicate locator name `"@ + f.subject + "`"@,
    }
}

/// The message at the earlier place that a finding conflicts with.
pub open spec fn finding_other_msg(k: FindingKind) -> Seq<char> {
    match k {
        FindingKind::DuplicateLocator => "previous locator"@,
        _ => "the other one is here"@,
    }
}

/// The report of a finding: its key, its severity (at most `max`), its
/// message, at the finding's place and, where it conflicts with an earlier
/// place, there too.
pub open spec fn finding_report(f: FindingV) -> (MetadataV, Seq<PointedMessageV>) {
    (
        MetadataV {
            key: finding_key(f.kind),
            severity: sev_min(finding_severity(f.kind), f.max),
            confidence: Confidence::Reasonable,
            msg: finding_msg(f),
            info: None,
            wiki: None,
            style: LogReportStyle::Full,
        },
        match f.other {
            Some(o) => seq![
                PointedMessageV { loc: f.loc, length: 1, msg: None },
                PointedMessageV { loc: o, length: 1, msg: Some(finding_other_msg(f.kind)) },
            ],
            None => seq![PointedMessageV { loc: f.loc, length: 1, msg: None }],
        },
    )
}

/// The reports of findings, in order.
pub open spec fn findings_reports(s: Seq<FindingV>) -> Seq<(MetadataV, Seq<PointedMessageV>)> {
    s.map_values(|f: FindingV| finding_report(f))
}

fn finding_key_of(k: FindingKind) -> (res: ErrorKey)
    ensures
        res == finding_key(k),
{
    match k {
        FindingKind::UnknownField => ErrorKey::UnknownField,
        FindingKind::DuplicateField | FindingKind::DuplicateLocator => ErrorKey::DuplicateField,
        FindingKind::MissingField => ErrorKey::FieldMissing,
        FindingKind::ZeroTimeout => ErrorKey::Logic,
        _ => ErrorKey::Validation,
    }
}

fn finding_severity_of(k: FindingKind) -> (res: Severity)
    ensures
        res == finding_severity(k),
{
    match k {
        FindingKind::UnknownField | FindingKind::DuplicateField | FindingKind::DuplicateLocator
        | FindingKind::WrongCount => Severity::Warning,
        _ => Severity::Error,
    }
}

fn quoted(before: &str, subject: &String, after: &str) -> (res: String)
    ensures
        res@ == before@ + subject@ + after@,
{
    let mut v = to_chars(before);
    crate::text::push_str(&mut v, subject.as_str());
    crate::text::push_str(&mut v, after);
    from_chars(&v)
}

fn finding_msg_of(f: &Finding) -> (res: String)
    ensures
        res@ == finding_msg(f@),
{
    match f.kind {
        FindingKind::UnknownField => quoted("unknown field `", &f.subject, "`"),
        FindingKind::DuplicateField => quoted("duplicate field `", &f.subject, "`"),
        FindingKind::ExpectedValue => owned("expected a value, found a block"),
        FindingKind::ExpectedBlock => owned("expected a block, found a value"),
        FindingKind::ExpectedBool => owned("expected yes or no"),
        FindingKind::ExpectedNumber => owned("expected a number"),
        FindingKind::ExpectedInteger => owned("expected an integer"),
        FindingKind::UnknownChoice => owned("unknown value"),
        FindingKind::WrongCount => quoted("expected exactly ", &f.subject, " numbers"),
        FindingKind::LooseValue => owned("found a loose value"),
        FindingKind::LooseBlock => owned("found a loose block"),
        FindingKind::BannedField => quoted("field `", &f.subject, "` is not allowed here"),
        FindingKind::MissingField => quoted("required field `", &f.subject, "` missing"),
        FindingKind::ZeroTimeout => owned("as of 1.9.5, a timeout of 0 will close the journal entry immediately"),
        FindingKind::OneInputPerBlock => owned("use only 1 input per block"),
        FindingKind::DuplicateLocator => quoted("duplicate locator name `", &f.subject, "`"),
    }
}

/// The report of a finding (see [`finding_report`]).
pub fn finding_report_of(f: &Finding) -> (res: ReportBuilder)
    ensures
        res.metadata@ == finding_report(f@).0,
        ptrs_view(res.pointers@) == finding_report(f@).1,
        res.pointers@.len() > 0,
{
    let sev = finding_severity_of(f.kind).at_most(f.max);
    let b = report(finding_key_of(f.kind), sev).msg(finding_msg_of(f)).loc(f.loc);
    match f.other {
        Some(o) => {
            let other_msg = match f.kind {
                FindingKind::DuplicateLocator => owned("previous locator"),
                _ => owned("the other one is here"),
            };
            let b = b.loc_msg(o, other_msg);
            assert(ptrs_view(b.pointers@) =~= finding_report(f@).1);
            b
        },
        None => {
            assert(ptrs_view(b.pointers@) =~= finding_report(f@).1);
            b
        },
    }
}

/// Reports what a check found: each finding in turn, as [`finding_report`]
/// says, through the report store's filters.
pub fn report_findings(v: &Validation, errors: &mut Errors, map: &MacroMap)
    requires
        old(errors).wf(),
        map.wf(),
    ensures
        final(errors).wf(),
        final(errors).store() == log_all(*old(errors), map.locs@, findings_reports(v@.findings)),
        final(errors).ignores() == old(errors).ignores(),
        final(errors).suppressions() == old(errors).suppressions(),
        final(errors).cache@ == old(errors).cache@,
        final(errors).filter == old(errors).filter,
{
    let ghost fv = v@.findings;
    let mut i: usize = 0;
    while i < v.findings.len()
        invariant
            i <= v.findings@.len(),
            fv == v@.findings,
            fv.len() == v.findings@.len(),
            errors.wf(),
            map.wf(),
            errors.filter == old(errors).filter,
            errors.suppressions() == old(errors).suppressions(),
            errors.ignores() == old(errors).ignores(),
            errors.cache@ == old(errors).cache@,
            errors.store() == log_all(*old(errors), map.locs@, findings_reports(fv.take(i as int))),
        decreases v.findings.len() - i,
    {
        let f = &v.findings[i];
        assert(fv[i as int] == f@);
        assert(findings_reports(fv.take(i + 1)).drop_last() =~= findings_reports(fv.take(i as int)));
        assert(findings_reports(fv.take(i + 1)).last() == finding_report(f@));
        let b = finding_report_of(f);
        let ghost before = *errors;
        b.push(errors, map);
        proof {
            lemma_log_onto(*old(errors), before, map.locs@, b.metadata@, ptrs_view(b.pointers@));
        }
        i += 1;
    }
    assert(fv.take(fv.len() as int) == fv);
}

/// A finding of either part is a finding of both in turn.
/// Looking a name up in rules extended by one rule: the first rule with the
/// name among the earlier rules, else the new rule if it has the name.
pub proof fn lemma_rule_lookup_push(r: Seq<FieldRuleV>, a: FieldRuleV, x: Seq<char>)
    ensures
        first_index_of(rule_names(r.push(a)), x) == (if first_index_of(rule_names(r), x) >= 0 {
            first_index_of(rule_names(r), x)
        } else if a.name == x {
            r.len() as int
        } else {
            -1
        }),
{
    let ns = rule_names(r);
    let ms = rule_names(r.push(a));
    assert(ms =~= ns.push(a.name));
    crate::text::lemma_first_index_of(ns, x);
    let i = first_index_of(ns, x);
    if i >= 0 {
        assert(ms[i] == ns[i]);
        assert forall|k: int| 0 <= k < i implies ms[k] != x by {
            assert(ms[k] == ns[k]);
        }
        crate::text::lemma_first_index_is(ms, x, i);
    } else if a.name == x {
        assert forall|k: int| 0 <= k < r.len() implies ms[k] != x by {
            assert(ms[k] == ns[k]);
        }
        crate::text::lemma_first_index_is(ms, x, r.len() as int);
    } else {
        assert forall|k: int| 0 <= k < ms.len() implies ms[k] != x by {
            if k < r.len() {
                assert(ms[k] == ns[k]);
            }
        }
        crate::text::lemma_first_index_is(ms, x, -1);
    }
}

/// Looking a name up among the first `k` rules, from the first `k - 1`.
pub proof fn lemma_rule_lookup_take(r: Seq<FieldRuleV>, k: int, x: Seq<char>)
    requires
        0 < k <= r.len(),
    ensures
        first_index_of(rule_names(r.take(k)), x) == (if first_index_of(rule_names(r.take(k - 1)), x) >= 0 {
            first_index_of(rule_names(r.take(k - 1)), x)
        } else if r[k - 1].name == x {
            k - 1
        } else {
            -1
        }),
{
    assert(r.take(k) =~= r.take(k - 1).push(r[k - 1]));
    lemma_rule_lookup_push(r.take(k - 1), r[k - 1], x);
}

/// Looking `x` up among the first `k` rules, from the first `k - 1`, for
/// every `k`.
pub proof fn lemma_rule_lookup_steps(r: Seq<FieldRuleV>, x: Seq<char>)
    ensures
        forall|k: int|
            0 < k <= r.len() ==> #[trigger] first_index_of(rule_names(r.take(k)), x) == (if first_index_of(
                rule_names(r.take(k - 1)),
                x,
            ) >= 0 {
                first_index_of(rule_names(r.take(k - 1)), x)
            } else if r[k - 1].name == x {
                k - 1
            } else {
                -1
            }),
        first_index_of(rule_names(r.take(0)), x) == -1,
        first_index_of(rule_names(r.take(r.len() as int)), x) == first_index_of(rule_names(r), x),
{
    assert forall|k: int| 0 < k <= r.len() implies #[trigger] first_index_of(rule_names(r.take(k)), x) == (if first_index_of(
        rule_names(r.take(k - 1)),
        x,
    ) >= 0 {
        first_index_of(rule_names(r.take(k - 1)), x)
    } else if r[k - 1].name == x {
        k - 1
    } else {
        -1
    }) by {
        lemma_rule_lookup_take(r, k, x);
    }
    assert(rule_names(r.take(0)) =~= Seq::<Seq<char>>::empty());
    assert(r.take(r.len() as int) =~= r);
}

/// Script uses kept by `then`: those of either side are among those of the
/// result.
pub proof fn lemma_then_keeps_scripts(a: ValidationV, b: ValidationV, u: ScriptUseV)
    ensures
        a.scripts.contains(u) ==> then(a, b).scripts.contains(u),
        b.scripts.contains(u) ==> then(a, b).scripts.contains(u),
{
    let t = then(a, b).scripts;
    if a.scripts.contains(u) {
        let i = choose|i: int| 0 <= i < a.scripts.len() && a.scripts[i] == u;
        assert(t[i] == u);
    }
    if b.scripts.contains(u) {
        let i = choose|i: int| 0 <= i < b.scripts.len() && b.scripts[i] == u;
        assert(t[a.scripts.len() + i] == u);
    }
}

/// A field of a block that the rules check as a script (the first rule with
/// its name is a script rule) is recorded among the script uses of the
/// block's check, with its name, its location and the rule's scope.
pub proof fn law_script_field_recorded(rules: Seq<FieldRuleV>, b: Block, j: int, key: Token, bv: BV, scope: ScriptScope)
    requires
        0 <= j < b.items@.len(),
        b.items@[j] == BlockItem::Field(key, bv),
        first_index_of(rule_names(rules), key.s@) >= 0,
        rules[first_index_of(rule_names(rules), key.s@)].check == Check::Script(scope),
    ensures
        spec_check_block(rules, b).scripts.contains(ScriptUseV { name: key.s@, loc: key.loc, scope }),
{
    lemma_script_item_recorded(rules, b.items@, j, key, bv, scope);
    lemma_then_keeps_scripts(
        spec_requirements(rules, b.items@, b.loc),
        spec_check_items(rules, b.items@),
        ScriptUseV { name: key.s@, loc: key.loc, scope },
    );
}

proof fn lemma_script_item_recorded(rules: Seq<FieldRuleV>, items: Seq<BlockItem>, j: int, key: Token, bv: BV, scope: ScriptScope)
    requires
        0 <= j < items.len(),
        items[j] == BlockItem::Field(key, bv),
        first_index_of(rule_names(rules), key.s@) >= 0,
        rules[first_index_of(rule_names(rules), key.s@)].check == Check::Script(scope),
    ensures
        spec_check_items(rules, items).scripts.contains(ScriptUseV { name: key.s@, loc: key.loc, scope }),
    decreases items.len(),
{
    let u = ScriptUseV { name: key.s@, loc: key.loc, scope };
    let prev = spec_check_items(rules, items.drop_last());
    let last = spec_check_item(rules, items.drop_last(), items.last());
    if j == items.len() - 1 {
        let i = first_index_of(rule_names(rules), key.s@);
        let dup = if !rules[i].multi && field_seen(items.drop_last(), key.s@) {
            found_about(FindingKind::DuplicateField, key.loc, key.s@)
        } else {
            nothing()
        };
        assert(last == then(dup, scripted(key.s@, key.loc, scope)));
        assert(scripted(key.s@, key.loc, scope).scripts[0] == u);
        lemma_then_keeps_scripts(dup, scripted(key.s@, key.loc, scope), u);
        lemma_then_keeps_scripts(prev, last, u);
    } else {
        assert(items.drop_last()[j] == items[j]);
        lemma_script_item_recorded(rules, items.drop_last(), j, key, bv, scope);
        lemma_then_keeps_scripts(prev, last, u);
    }
}

pub proof fn lemma_then_contains(a: ValidationV, b: ValidationV, x: FindingV)
    ensures
        a.findings.contains(x) ==> then(a, b).findings.contains(x),
        b.findings.contains(x) ==> then(a, b).findings.contains(x),
{
    let t = then(a, b).findings;
    if a.findings.contains(x) {
        let i = choose|i: int| 0 <= i < a.findings.len() && a.findings[i] == x;
        assert(t[i] == x);
    }
    if b.findings.contains(x) {
        let i = choose|i: int| 0 <= i < b.findings.len() && b.findings[i] == x;
        assert(t[a.findings.len() + i] == x);
    }
}

/// The report of every finding is among the reports of the findings.
pub proof fn lemma_finding_reported(s: Seq<FindingV>, x: FindingV)
    requires
        s.contains(x),
    ensures
        findings_reports(s).contains(finding_report(x)),
{
    let i = choose|i: int| 0 <= i < s.len() && s[i] == x;
    assert(findings_reports(s)[i] == finding_report(x));
}

/// The finding about a block of a list that holds more than one item.
pub open spec fn one_input_finding(b: Block) -> FindingV {
    FindingV { kind: FindingKind::OneInputPerBlock, loc: b.loc, other: None, subject: Seq::empty(), max: Severity::Fatal }
}

proof fn lemma_block_list_contains(rules: Seq<FieldRuleV>, items: Seq<BlockItem>, k: int, b: Block)
    requires
        0 <= k < items.len(),
        items[k] == BlockItem::Block(b),
        b.items@.len() > 1,
    ensures
        spec_block_list(rules, true, items).findings.contains(one_input_finding(b)),
    decreases items.len(),
{
    let x = one_input_finding(b);
    if k == items.len() - 1 {
        let step = found(FindingKind::OneInputPerBlock, b.loc);
        assert(step.findings[0] == x);
        lemma_then_contains(spec_check_block(rules, b), step, x);
        lemma_then_contains(spec_block_list(rules, true, items.drop_last()), block_list_check(rules, true, items.last()), x);
    } else {
        assert(items.drop_last()[k] == items[k]);
        lemma_block_list_contains(rules, items.drop_last(), k, b);
        lemma_then_contains(spec_block_list(rules, true, items.drop_last()), block_list_check(rules, true, items.last()), x);
    }
}

/// In the lists of blocks of the fields named `name`, a block with more than
/// one item is a finding.
pub proof fn lemma_nested_block_list_contains(
    items: Seq<BlockItem>,
    name: Seq<char>,
    rules: Seq<FieldRuleV>,
    j: int,
    list: Block,
    k: int,
    b: Block,
)
    requires
        0 <= j < items.len(),
        named_block(items[j], name) == Some(list),
        0 <= k < list.items@.len(),
        list.items@[k] == BlockItem::Block(b),
        b.items@.len() > 1,
    ensures
        spec_nested_block_list(items, name, rules, true).findings.contains(one_input_finding(b)),
    decreases items.len(),
{
    let x = one_input_finding(b);
    let rest = spec_nested_block_list(items.drop_last(), name, rules, true);
    let last = match named_block(items.last(), name) {
        Some(c) => spec_block_list(rules, true, c.items@),
        None => nothing(),
    };
    if j == items.len() - 1 {
        lemma_block_list_contains(rules, list.items@, k, b);
    } else {
        assert(items.drop_last()[j] == items[j]);
        lemma_nested_block_list_contains(items.drop_last(), name, rules, j, list, k, b);
    }
    lemma_then_contains(rest, last, x);
}

} // verus!
