use tiger_lib::block::{Block, BlockItem, BV};
use tiger_lib::fileset::{FileKind, FileStage};
use tiger_lib::item::Item;
use tiger_lib::pathtable::PathTableIndex;
use tiger_lib::token::{Loc, Token};
use tiger_lib::validator::{
    check_block, check_nested_keyed, check_nested_rows, choice_rule, report_findings, required_rule, rule, token_is_integer,
    Check, FindingKind, ScriptScope, Usage, Validation,
};
use tiger_lib::scopes::{Scopes, COUNTRY};
use tiger_lib::report::errors::{Errors, MacroMap};
use tiger_lib::report::{ErrorKey, Severity};
use tiger_lib::vic3::data::journalentries::JournalEntry;
use tiger_lib::vic3::data::dioramas::ArmyDiorama;
use tiger_lib::vic3::data::ships::ShipType;
use tiger_lib::vic3::data::state_regions::StateRegion;
use tiger_lib::vic3::validate::{validate_locators, validate_treaty_article};

fn at(line: u32) -> Loc {
    Loc { idx: PathTableIndex(0), kind: FileKind::Mod, stage: FileStage::NoStage, line, column: 1, link_idx: None }
}

fn tk(s: &str, line: u32) -> Token {
    Token::new(s.to_string(), at(line))
}

fn value(k: &str, v: &str, line: u32) -> BlockItem {
    BlockItem::Field(tk(k, line), BV::Value(tk(v, line)))
}

fn nested(k: &str, items: Vec<BlockItem>, line: u32) -> BlockItem {
    BlockItem::Field(tk(k, line), BV::Block(Block { items, loc: at(line) }))
}

fn loose_block(items: Vec<BlockItem>, line: u32) -> BlockItem {
    BlockItem::Block(Block { items, loc: at(line) })
}

fn loose(v: &str, line: u32) -> BlockItem {
    BlockItem::Value(tk(v, line))
}

fn block(items: Vec<BlockItem>, line: u32) -> Block {
    Block { items, loc: at(line) }
}

fn findings(v: &Validation) -> Vec<(FindingKind, u32)> {
    v.findings.iter().map(|f| (f.kind, f.loc.line)).collect()
}

fn refs(v: &Validation) -> Vec<(Item, &str, Usage)> {
    v.refs.iter().map(|r| (r.item, r.name.as_str(), r.usage)).collect()
}

#[test]
fn field_rules_find_what_is_wrong() {
    let rules = vec![
        rule("enabled", Check::Bool, false),
        rule("size", Check::Numeric, false),
        rule("count", Check::Integer, false),
        choice_rule("kind", Check::Choice, vec!["a".to_string(), "b".to_string()]),
        rule("pos", Check::NumericList(3), false),
        rule("laws", Check::ItemList(Item::LawType), false),
        rule("old", Check::Banned, false),
        rule("tag", Check::Value, true),
        required_rule("name", Check::Value),
    ];
    let b = block(
        vec![
            value("enabled", "maybe", 2),
            value("size", "1.5", 3),
            value("size", "x", 4),
            value("count", "1.5", 5),
            value("kind", "c", 6),
            nested("pos", vec![loose("1", 7), loose("2", 7)], 7),
            nested("laws", vec![loose("law_a", 8), loose("law_b", 8)], 8),
            value("old", "yes", 9),
            value("unknown", "x", 10),
            loose("zz", 11),
            value("tag", "t1", 12),
            value("tag", "t2", 13),
            value("enabled", "yes", 14),
        ],
        1,
    );
    let mut v = Validation::new();
    check_block(&mut v, &b, &rules);
    assert_eq!(
        findings(&v),
        vec![
            (FindingKind::MissingField, 1),
            (FindingKind::ExpectedBool, 2),
            (FindingKind::DuplicateField, 4),
            (FindingKind::ExpectedNumber, 4),
            (FindingKind::ExpectedInteger, 5),
            (FindingKind::UnknownChoice, 6),
            (FindingKind::WrongCount, 7),
            (FindingKind::BannedField, 9),
            (FindingKind::UnknownField, 10),
            (FindingKind::LooseValue, 11),
            (FindingKind::DuplicateField, 14),
        ]
    );
    assert_eq!(refs(&v), vec![(Item::LawType, "law_a", Usage::Required), (Item::LawType, "law_b", Usage::Required)]);
}

#[test]
fn values_and_blocks_in_the_wrong_place() {
    let rules = vec![rule("a", Check::Value, false), rule("b", Check::Block, false), rule("c", Check::ItemList(Item::Country), false)];
    let b = block(vec![nested("a", vec![], 2), value("b", "x", 3), value("c", "y", 4), loose_block(vec![], 5)], 1);
    let mut v = Validation::new();
    check_block(&mut v, &b, &rules);
    assert_eq!(
        findings(&v),
        vec![
            (FindingKind::ExpectedValue, 2),
            (FindingKind::ExpectedBlock, 3),
            (FindingKind::ExpectedBlock, 4),
            (FindingKind::LooseBlock, 5),
        ]
    );
}

#[test]
fn integers() {
    assert!(token_is_integer(&tk("42", 1)));
    assert!(token_is_integer(&tk("-7", 1)));
    assert!(!token_is_integer(&tk("-", 1)));
    assert!(!token_is_integer(&tk("", 1)));
    assert!(!token_is_integer(&tk("4.0", 1)));
    assert!(!token_is_integer(&tk("+4", 1)));
}

#[test]
fn treaty_inputs_hold_one_input_each() {
    let b = block(
        vec![
            value("article", "free_trade", 2),
            nested(
                "inputs",
                vec![
                    loose_block(vec![value("quantity", "1", 4), value("goods", "grain", 4)], 4),
                    loose_block(vec![value("country", "c:FRA", 5)], 5),
                    loose_block(vec![value("banana", "x", 6)], 6),
                    value("stray", "x", 7),
                ],
                3,
            ),
        ],
        1,
    );
    let v = validate_treaty_article(&b);
    assert_eq!(
        findings(&v),
        vec![(FindingKind::OneInputPerBlock, 4), (FindingKind::UnknownField, 6), (FindingKind::UnknownField, 7)]
    );
    assert_eq!(refs(&v), vec![(Item::TreatyArticle, "free_trade", Usage::Required)]);
}

#[test]
fn locator_names_are_unique() {
    let b = block(
        vec![
            nested("locator", vec![value("name", "first", 2), nested("position", vec![loose("0", 2), loose("1", 2), loose("2", 2)], 2)], 2),
            nested("locator", vec![value("name", "second", 3), value("scale", "big", 3)], 3),
            nested("locator", vec![value("name", "first", 4)], 4),
            nested("locator", vec![value("scale", "1", 5)], 5),
        ],
        1,
    );
    let mut v = Validation::new();
    let names = validate_locators(&mut v, &b);
    let got: Vec<&str> = names.iter().map(|t| t.as_str()).collect();
    assert_eq!(got, vec!["first", "second"]);
    assert_eq!(
        findings(&v),
        vec![(FindingKind::ExpectedNumber, 3), (FindingKind::DuplicateLocator, 4), (FindingKind::MissingField, 5)]
    );
    assert_eq!(v.findings[1].other.map(|l| l.line), Some(2));
}

#[test]
fn keyed_blocks_and_rows() {
    let b = block(
        vec![
            nested("weights", vec![value("usa", "3", 2), value("gbr", "x", 3), loose("zz", 4)], 2),
            nested("grid", vec![loose_block(vec![loose("1", 5), loose("2", 5)], 5), loose_block(vec![loose("1", 6)], 6), loose_block(vec![loose("a", 7), loose("2", 7)], 7)], 5),
        ],
        1,
    );
    let mut v = Validation::new();
    check_nested_keyed(&mut v, &b, "weights", Item::Country, Check::Integer);
    assert_eq!(findings(&v), vec![(FindingKind::ExpectedInteger, 3), (FindingKind::LooseValue, 4)]);
    assert_eq!(refs(&v), vec![(Item::Country, "usa", Usage::Required), (Item::Country, "gbr", Usage::Required)]);
    let mut v = Validation::new();
    check_nested_rows(&mut v, &b, "grid", 2);
    assert_eq!(findings(&v), vec![(FindingKind::WrongCount, 6), (FindingKind::ExpectedNumber, 7)]);
}

#[test]
fn ship_type_modifications() {
    let b = block(
        vec![
            nested("modifications", vec![nested("hull", vec![loose("steel_hull", 3)], 3)], 2),
            nested("default_modifications", vec![value("guns", "big_guns", 5)], 4),
            value("use_modificaitons", "yes", 6),
        ],
        1,
    );
    let v = ShipType {}.validate(&tk("frigate", 1), &b);
    assert!(v.findings.is_empty());
    let got = refs(&v);
    assert!(got.contains(&(Item::Localization, "frigate", Usage::Required)));
    assert!(got.contains(&(Item::Localization, "frigate_desc", Usage::Implied)));
    assert!(got.contains(&(Item::ShipModificationSlot, "hull", Usage::Required)));
    assert!(got.contains(&(Item::ShipModification, "steel_hull", Usage::Required)));
    assert!(got.contains(&(Item::ShipModificationSlot, "guns", Usage::Required)));
    assert!(got.contains(&(Item::ShipModification, "big_guns", Usage::Required)));
}

#[test]
fn state_region_hubs_and_required_fields() {
    let b = block(vec![value("city", "x1", 2), value("port", "x2", 3), value("id", "1.5", 4)], 1);
    let v = StateRegion {}.validate(&tk("STATE_TEXAS", 1), &b);
    assert_eq!(findings(&v), vec![(FindingKind::MissingField, 1), (FindingKind::ExpectedInteger, 4)]);
    let got = refs(&v);
    assert!(got.contains(&(Item::Localization, "HUB_NAME_STATE_TEXAS_city", Usage::Implied)));
    assert!(got.contains(&(Item::Localization, "HUB_NAME_STATE_TEXAS_port", Usage::Implied)));
    assert!(!got.iter().any(|r| r.1 == "HUB_NAME_STATE_TEXAS_mine"));
    assert!(got.contains(&(Item::Province, "x1", Usage::Required)));
}

#[test]
fn army_diorama_attachments() {
    let b = block(
        vec![
            nested("unit_composition", vec![value("infantry", "3", 2)], 2),
            nested("locator", vec![value("name", "front", 3)], 3),
        ],
        1,
    );
    let v = ArmyDiorama {}.validate(&tk("d", 1), &b);
    assert!(refs(&v).contains(&(Item::CombatUnitGroup, "infantry", Usage::Required)));
    assert!(v.findings.is_empty());
}

fn reports_of(v: &Validation) -> Vec<(ErrorKey, Severity, String, Vec<(u32, Option<String>)>)> {
    let mut errors = Errors::new();
    report_findings(v, &mut errors, &MacroMap { locs: vec![] });
    let mut out: Vec<_> = errors
        .flatten_reports(false)
        .into_iter()
        .map(|r| {
            (r.report.key, r.report.severity, r.report.msg, r.pointers.iter().map(|p| (p.loc.line, p.msg.clone())).collect::<Vec<_>>())
        })
        .collect();
    out.sort_by(|a, b| a.3.cmp(&b.3));
    out
}

#[test]
fn zero_timeout_is_a_logic_error() {
    let b = block(vec![value("timeout", "0", 4), value("group", "g", 5)], 1);
    let v = JournalEntry {}.validate(&tk("je", 1), &b);
    let reports = reports_of(&v);
    assert!(reports.contains(&(
        ErrorKey::Logic,
        Severity::Error,
        "as of 1.9.5, a timeout of 0 will close the journal entry immediately".to_string(),
        vec![(4, None)]
    )));
    let b = block(vec![value("timeout", "10", 4)], 1);
    let v = JournalEntry {}.validate(&tk("je", 1), &b);
    assert!(!reports_of(&v).iter().any(|r| r.0 == ErrorKey::Logic));
}

#[test]
fn duplicate_locators_and_treaty_inputs_are_reported() {
    let b = block(
        vec![
            nested("locator", vec![value("name", "first", 2)], 2),
            nested("locator", vec![value("name", "first", 4), value("scale", "big", 4)], 4),
        ],
        1,
    );
    let mut v = Validation::new();
    validate_locators(&mut v, &b);
    let reports = reports_of(&v);
    assert!(reports.contains(&(
        ErrorKey::DuplicateField,
        Severity::Warning,
        "duplicate locator name `first`".to_string(),
        vec![(4, None), (2, Some("previous locator".to_string()))]
    )));
    assert!(reports.iter().all(|r| r.1 == Severity::Warning));
    let t = block(vec![nested("inputs", vec![loose_block(vec![value("quantity", "1", 3), value("goods", "g", 3)], 3)], 2)], 1);
    let reports = reports_of(&validate_treaty_article(&t));
    assert_eq!(
        reports,
        vec![(ErrorKey::Validation, Severity::Error, "use only 1 input per block".to_string(), vec![(3, None)])]
    );
}

#[test]
fn finding_messages() {
    let rules = vec![required_rule("name", Check::Value), rule("pos", Check::NumericList(4), false)];
    let b = block(vec![value("bogus", "x", 2), nested("pos", vec![loose("1", 3)], 3)], 1);
    let mut v = Validation::new();
    check_block(&mut v, &b, &rules);
    let msgs: Vec<(ErrorKey, Severity, String)> = reports_of(&v).into_iter().map(|r| (r.0, r.1, r.2)).collect();
    assert_eq!(
        msgs,
        vec![
            (ErrorKey::FieldMissing, Severity::Error, "required field `name` missing".to_string()),
            (ErrorKey::UnknownField, Severity::Warning, "unknown field `bogus`".to_string()),
            (ErrorKey::Validation, Severity::Warning, "expected exactly 4 numbers".to_string()),
        ]
    );
}

#[test]
fn journal_entry_script_fields_carry_their_scope() {
    let b = block(
        vec![
            nested("immediate", vec![], 2),
            nested("immediate_all_involved", vec![], 3),
            nested("should_be_involved", vec![], 4),
            nested("possible", vec![], 5),
        ],
        1,
    );
    let v = JournalEntry {}.validate(&tk("je", 1), &b);
    let uses: Vec<(&str, u32, ScriptScope)> = v.scripts.iter().map(|u| (u.name.as_str(), u.loc.line, u.scope)).collect();
    let country = ScriptScope::Fixed(Scopes { bits: 1u128 << COUNTRY });
    assert!(uses.contains(&("immediate", 2, ScriptScope::Own)));
    assert!(uses.contains(&("immediate_all_involved", 3, country)));
    assert!(uses.contains(&("should_be_involved", 4, country)));
    assert!(uses.contains(&("possible", 5, ScriptScope::Own)));
    assert_eq!(country.resolve(Scopes { bits: 0 }), Scopes { bits: 1u128 << COUNTRY });
    assert_eq!(ScriptScope::Own.resolve(Scopes { bits: 4 }), Scopes { bits: 4 });
}
