//! Checks that more than one kind of Victoria 3 definition uses: treaty
//! articles, and the locators of dioramas and fleet entities.

use vstd::prelude::*;

use crate::block::{last_field_value, Block, BlockItem, BV};
use crate::item::Item;
use crate::text::{chars_eq, first_index_of, to_chars};
use crate::token::Token;
use crate::report::{sev_rank, Confidence, ErrorKey, LogReportStyle, MetadataV, PointedMessageV, Severity};
use crate::validator::{ScriptScope, 
    capped, lemma_nothing_then, findings_reports, lemma_then_contains, lemma_finding_reported,
    lemma_nested_block_list_contains, one_input_finding,
    check_block, check_nested_block_list, found_with, lemma_then_assoc, lemma_then_nothing, named_block, nothing, rule,
    required_rule, rules_view, spec_check_block, spec_nested_block_list, spec_required_rule, spec_rule, then, Check,
    FieldRule, FieldRuleV, FindingKind, Validation, ValidationV,
};

verus! {

/// The field rules of a treaty article.
pub open spec fn spec_treaty_article_rules() -> Seq<FieldRuleV> {
    seq![
        spec_rule("article"@, Check::Item(Item::TreatyArticle), false),
        spec_rule("source_country"@, Check::Script(ScriptScope::Own), false),
        spec_rule("target_country"@, Check::Script(ScriptScope::Own), false),
        spec_rule("inputs"@, Check::Block, false),
    ]
}

fn treaty_article_rules() -> (res: Vec<FieldRule>)
    ensures
        rules_view(res@) == spec_treaty_article_rules(),
{
    let mut res: Vec<FieldRule> = Vec::new();
    res.push(rule("article", Check::Item(Item::TreatyArticle), false));
    res.push(rule("source_country", Check::Script(ScriptScope::Own), false));
    res.push(rule("target_country", Check::Script(ScriptScope::Own), false));
    res.push(rule("inputs", Check::Block, false));
    assert(rules_view(res@) =~= spec_treaty_article_rules());
    res
}

/// The field rules of one input of a treaty article.
pub open spec fn spec_treaty_input_rules() -> Seq<FieldRuleV> {
    seq![
        spec_rule("quantity"@, Check::Script(ScriptScope::Own), false),
        spec_rule("goods"@, Check::Script(ScriptScope::Own), false),
        spec_rule("state"@, Check::Script(ScriptScope::Own), false),
        spec_rule("strategic_region"@, Check::Script(ScriptScope::Own), false),
        spec_rule("company"@, Check::Script(ScriptScope::Own), false),
        spec_rule("building_type"@, Check::Script(ScriptScope::Own), false),
        spec_rule("law_type"@, Check::Script(ScriptScope::Own), false),
        spec_rule("country"@, Check::Script(ScriptScope::Own), false),
    ]
}

fn treaty_input_rules() -> (res: Vec<FieldRule>)
    ensures
        rules_view(res@) == spec_treaty_input_rules(),
{
    let mut res: Vec<FieldRule> = Vec::new();
    res.push(rule("quantity", Check::Script(ScriptScope::Own), false));
    res.push(rule("goods", Check::Script(ScriptScope::Own), false));
    res.push(rule("state", Check::Script(ScriptScope::Own), false));
    res.push(rule("strategic_region", Check::Script(ScriptScope::Own), false));
    res.push(rule("company", Check::Script(ScriptScope::Own), false));
    res.push(rule("building_type", Check::Script(ScriptScope::Own), false));
    res.push(rule("law_type", Check::Script(ScriptScope::Own), false));
    res.push(rule("country", Check::Script(ScriptScope::Own), false));
    assert(rules_view(res@) =~= spec_treaty_input_rules());
    res
}

/// What checking a treaty article finds: its fields, then each block of
/// its `inputs`, where a block with more than one input is a finding.
pub open spec fn spec_treaty_article(block: Block) -> ValidationV {
    then(
        spec_check_block(spec_treaty_article_rules(), block),
        spec_nested_block_list(block.items@, "inputs"@, spec_treaty_input_rules(), true),
    )
}

/// Checks a treaty article (see [`spec_treaty_article`]).
pub fn validate_treaty_article(block: &Block) -> (res: Validation)
    ensures
        res@ == spec_treaty_article(*block),
{
    let mut v = Validation::new();
    check_block(&mut v, block, &treaty_article_rules());
    check_nested_block_list(&mut v, block, "inputs", &treaty_input_rules(), true);
    v
}

/// The field rules of a locator.
pub open spec fn spec_locator_rules() -> Seq<FieldRuleV> {
    seq![
        spec_required_rule("name"@, Check::Value),
        spec_rule("position"@, Check::NumericList(3), false),
        spec_rule("rotation"@, Check::NumericList(3), false),
        spec_rule("scale"@, Check::Numeric, false),
        spec_rule("bezier"@, Check::NumericList(4), false),
    ]
}

fn locator_rules() -> (res: Vec<FieldRule>)
    ensures
        rules_view(res@) == spec_locator_rules(),
{
    let mut res: Vec<FieldRule> = Vec::new();
    res.push(required_rule("name", Check::Value));
    res.push(rule("position", Check::NumericList(3), false));
    res.push(rule("rotation", Check::NumericList(3), false));
    res.push(rule("scale", Check::Numeric, false));
    res.push(rule("bezier", Check::NumericList(4), false));
    assert(rules_view(res@) =~= spec_locator_rules());
    res
}

pub open spec fn token_texts(s: Seq<Token>) -> Seq<Seq<char>> {
    s.map_values(|t: Token| t.s@)
}

/// What checking one `locator` block finds, after the locators named
/// `names`; and the names after it. A name used before is a finding that
/// points at the earlier one. What is found inside a locator is reported at
/// most as a warning.
pub open spec fn locator_step(names: Seq<Token>, b: Block) -> (ValidationV, Seq<Token>) {
    let checks = spec_check_block(spec_locator_rules(), b);
    match last_field_value(b.items@, "name"@) {
        Some(name) => {
            let i = first_index_of(token_texts(names), name.s@);
            if i >= 0 {
                (capped(then(checks, found_with(FindingKind::DuplicateLocator, name.loc, names[i].loc, name.s@)), Severity::Warning), names)
            } else {
                (capped(then(checks, nothing()), Severity::Warning), names.push(name))
            }
        },
        None => (capped(then(checks, nothing()), Severity::Warning), names),
    }
}

/// What checking the `locator` blocks among `items` finds, and the names of
/// the locators, each once, in the order they first appear.
pub open spec fn spec_locators(items: Seq<BlockItem>) -> (ValidationV, Seq<Token>)
    decreases items.len(),
{
    if items.len() == 0 {
        (nothing(), Seq::empty())
    } else {
        let (v, names) = spec_locators(items.drop_last());
        match named_block(items.last(), "locator"@) {
            Some(b) => {
                let (w, n2) = locator_step(names, b);
                (then(v, w), n2)
            },
            None => (v, names),
        }
    }
}

/// The index of the first name in `names` that is `name`.
fn find_name(names: &Vec<Token>, name: &Token) -> (res: Option<usize>)
    ensures
        match res {
            Some(i) => first_index_of(token_texts(names@), name.s@) == i as int && i < names@.len(),
            None => first_index_of(token_texts(names@), name.s@) == -1,
        },
{
    let ghost texts = token_texts(names@);
    let key = to_chars(name.as_str());
    let mut i: usize = 0;
    while i < names.len()
        invariant
            i <= names@.len(),
            texts == token_texts(names@),
            key@ == name.s@,
            forall|k: int| 0 <= k < i ==> texts[k] != name.s@,
        decreases names.len() - i,
    {
        assert(texts[i as int] == names@[i as int].s@);
        if chars_eq(&to_chars(names[i].as_str()), &key) {
            proof {
                crate::text::lemma_first_index_is(texts, name.s@, i as int);
            }
            return Some(i);
        }
        i += 1;
    }
    proof {
        crate::text::lemma_first_index_is(texts, name.s@, -1);
    }
    None
}

/// Checks the `locator` blocks of a diorama or fleet entity; returns the
/// names of the locators (see [`spec_locators`]).
pub fn validate_locators(v: &mut Validation, block: &Block) -> (names: Vec<Token>)
    ensures
        final(v)@ == then(old(v)@, spec_locators(block.items@).0),
        names@ == spec_locators(block.items@).1,
{
    let rules = locator_rules();
    let ghost start = v@;
    let mut names: Vec<Token> = Vec::new();
    let mut i: usize = 0;
    proof {
        lemma_then_nothing(start);
    }
    while i < block.items.len()
        invariant
            i <= block.items@.len(),
            rules_view(rules@) == spec_locator_rules(),
            v@ == then(start, spec_locators(block.items@.take(i as int)).0),
            names@ == spec_locators(block.items@.take(i as int)).1,
        decreases block.items.len() - i,
    {
        let ghost items = block.items@.take(i + 1);
        assert(items.drop_last() == block.items@.take(i as int));
        assert(items.last() == block.items@[i as int]);
        match &block.items[i] {
            BlockItem::Field(k, BV::Block(b)) => {
                if k.is("locator") {
                    let ghost old_names = names@;
                    let ghost checks = spec_check_block(spec_locator_rules(), *b);
                    let mut w = Validation::new();
                    check_block(&mut w, b, &rules);
                    proof {
                        lemma_nothing_then(checks);
                    }
                    let ghost mid = w@;
                    match b.get_field_value("name") {
                        Some(name) => {
                            match find_name(&names, name) {
                                Some(j) => {
                                    w.add_finding_with(FindingKind::DuplicateLocator, name.loc, names[j].loc, name.as_str());
                                },
                                None => {
                                    names.push(name.duplicate());
                                    proof {
                                        lemma_then_nothing(mid);
                                    }
                                },
                            }
                        },
                        None => {
                            proof {
                                lemma_then_nothing(mid);
                            }
                        },
                    }
                    v.append_capped(&w, Severity::Warning);
                    proof {
                        lemma_then_assoc(start, spec_locators(items.drop_last()).0, locator_step(old_names, *b).0);
                    }
                }
            },
            _ => {},
        }
        i += 1;
    }
    assert(block.items@.take(block.items@.len() as int) == block.items@);
    names
}

/// A treaty input block with more than one input is reported as an error
/// at that block.
pub proof fn law_treaty_input_reported(block: Block, j: int, inputs: Block, k: int, b: Block)
    requires
        0 <= j < block.items@.len(),
        named_block(block.items@[j], "inputs"@) == Some(inputs),
        0 <= k < inputs.items@.len(),
        inputs.items@[k] == BlockItem::Block(b),
        b.items@.len() > 1,
    ensures
        findings_reports(spec_treaty_article(block).findings).contains((
            MetadataV {
                key: ErrorKey::Validation,
                severity: Severity::Error,
                confidence: Confidence::Reasonable,
                msg: "use only 1 input per block"@,
                info: None,
                wiki: None,
                style: LogReportStyle::Full,
            },
            seq![PointedMessageV { loc: b.loc, length: 1, msg: None }],
        )),
{
    lemma_nested_block_list_contains(block.items@, "inputs"@, spec_treaty_input_rules(), j, inputs, k, b);
    lemma_then_contains(
        spec_check_block(spec_treaty_article_rules(), block),
        spec_nested_block_list(block.items@, "inputs"@, spec_treaty_input_rules(), true),
        one_input_finding(b),
    );
    lemma_finding_reported(spec_treaty_article(block).findings, one_input_finding(b));
}

/// A locator named like an earlier one is reported as a warning at its name,
/// pointing at the earlier locator; and nothing found inside a locator is
/// reported as more than a warning.
pub proof fn law_duplicate_locator_reported(names: Seq<Token>, b: Block, name: Token)
    requires
        last_field_value(b.items@, "name"@) == Some(name),
        first_index_of(token_texts(names), name.s@) >= 0,
    ensures
        findings_reports(locator_step(names, b).0.findings).contains((
            MetadataV {
                key: ErrorKey::DuplicateField,
                severity: Severity::Warning,
                confidence: Confidence::Reasonable,
                msg: "duplicate locator name `"@ + name.s@ + "`"@,
                info: None,
                wiki: None,
                style: LogReportStyle::Full,
            },
            seq![
                PointedMessageV { loc: name.loc, length: 1, msg: None },
                PointedMessageV {
                    loc: names[first_index_of(token_texts(names), name.s@)].loc,
                    length: 1,
                    msg: Some("previous locator"@),
                },
            ],
        )),
{
    let i = first_index_of(token_texts(names), name.s@);
    let checks = spec_check_block(spec_locator_rules(), b);
    let step = found_with(FindingKind::DuplicateLocator, name.loc, names[i].loc, name.s@);
    let w = then(checks, step);
    lemma_then_contains(checks, step, step.findings[0]);
    let c = capped(w, Severity::Warning);
    let idx = choose|m: int| 0 <= m < w.findings.len() && w.findings[m] == step.findings[0];
    let x = c.findings[idx];
    assert(c.findings.contains(x));
    lemma_finding_reported(c.findings, x);
}

/// Nothing found inside a locator is reported as more than a warning.
pub proof fn law_locator_reports_at_most_warning(names: Seq<Token>, b: Block)
    ensures
        forall|k: int| 0 <= k < findings_reports(locator_step(names, b).0.findings).len()
            ==> sev_rank(#[trigger] findings_reports(locator_step(names, b).0.findings)[k].0.severity) <= sev_rank(Severity::Warning),
{
}

} // verus!
