use tiger_lib::vic3::data::battle_conditions::BattleCondition;
use tiger_lib::data::defines::Define;
use tiger_lib::validator::FindingKind;
use tiger_lib::block::{Block, BlockItem, BV};
use tiger_lib::data::defines::{DefineType, Defines};
use tiger_lib::db::Db;
use tiger_lib::fileset::{FileKind, FileStage};
use tiger_lib::item::{GameFlags, Item, ItemExt, ItemLoader, LoadAsFile, PdxEncoding, Recursive};
use tiger_lib::game::Game;
use tiger_lib::pathtable::PathTableIndex;
use tiger_lib::report::errors::{Errors, MacroMap};
use tiger_lib::report::{Confidence, ErrorKey, Severity};
use tiger_lib::token::{Loc, Token};
use tiger_lib::vic3::data::journalentries::{journal_entry_scope, JournalEntry, JournalEntryGroup};
use tiger_lib::vic3::data::ships::ShipType;
use tiger_lib::vic3::data::{item_loaders, DbItemKind};
use tiger_lib::scopes::{Scopes, COUNTRY, NONE};

fn at(kind: FileKind, line: u32) -> Loc {
    Loc { idx: PathTableIndex(0), kind, stage: FileStage::NoStage, line, column: 1, link_idx: None }
}

fn tk(s: &str, line: u32) -> Token {
    Token::new(s.to_string(), at(FileKind::Mod, line))
}

fn value(k: &str, v: &str, line: u32) -> BlockItem {
    BlockItem::Field(tk(k, line), BV::Value(tk(v, line)))
}

fn nested(k: &str, items: Vec<BlockItem>, line: u32) -> BlockItem {
    BlockItem::Field(tk(k, line), BV::Block(Block { items, loc: at(FileKind::Mod, line) }))
}

fn block(items: Vec<BlockItem>) -> Block {
    Block { items, loc: at(FileKind::Mod, 1) }
}

fn no_map() -> MacroMap {
    MacroMap { locs: vec![] }
}

#[test]
fn redefining_an_item_in_the_same_mod_warns() {
    let mut db = Db::new();
    let mut errors = Errors::new();
    let map = no_map();
    ShipType::add(&mut db, tk("frigate", 1), block(vec![value("icon", "a.dds", 2)]), &mut errors, &map);
    ShipType::add(&mut db, tk("frigate", 10), block(vec![value("icon", "b.dds", 11)]), &mut errors, &map);
    assert!(db.item_exists(Item::ShipType, "frigate"));
    let b = db.get_block(Item::ShipType, "frigate").unwrap();
    assert!(b.field_value_is("icon", "b.dds"));
    let flat = errors.flatten_reports(false);
    assert_eq!(flat.len(), 1);
    assert_eq!(flat[0].report.key, ErrorKey::DuplicateItem);
    assert_eq!(flat[0].report.msg, "item is redefined by another item");
    assert_eq!(flat[0].pointers[0].loc.line, 10);
    assert_eq!(flat[0].pointers[1].loc.line, 1);
    assert_eq!(flat[0].pointers[1].msg.as_deref(), Some("the other item is here"));
}

#[test]
fn a_mod_may_override_vanilla_silently() {
    let mut db = Db::new();
    let mut errors = Errors::new();
    let map = no_map();
    let vanilla = Token::new("frigate".to_string(), at(FileKind::Vanilla, 1));
    ShipType::add(&mut db, vanilla, block(vec![]), &mut errors, &map);
    ShipType::add(&mut db, tk("frigate", 3), block(vec![value("icon", "m.dds", 4)]), &mut errors, &map);
    assert_eq!(errors.flatten_reports(false).len(), 0);
    assert!(db.get_block(Item::ShipType, "frigate").unwrap().field_value_is("icon", "m.dds"));
    assert!(db.get_block(Item::ShipGroup, "frigate").is_none());
}

#[test]
fn exact_duplicates_are_fine_for_battle_conditions() {
    let mut db = Db::new();
    let mut errors = Errors::new();
    let map = no_map();
    BattleCondition::add(&mut db, tk("fog", 1), block(vec![value("icon", "fog.dds", 2)]), &mut errors, &map);
    BattleCondition::add(&mut db, tk("fog", 5), block(vec![value("icon", "fog.dds", 6)]), &mut errors, &map);
    assert_eq!(errors.flatten_reports(false).len(), 0);
    BattleCondition::add(&mut db, tk("fog", 8), block(vec![value("icon", "mist.dds", 9)]), &mut errors, &map);
    assert_eq!(errors.flatten_reports(false).len(), 1);
}

#[test]
fn journal_entry_group_property() {
    let g = JournalEntryGroup {};
    let none = block(vec![value("context", "none", 1)]);
    let country = block(vec![value("context", "country", 1)]);
    assert!(g.has_property(&none, "none_context"));
    assert!(!g.has_property(&country, "none_context"));
    assert!(!g.has_property(&none, "other"));
    assert!(DbItemKind::JournalEntryGroup.has_property(&none, "none_context"));
    assert!(!DbItemKind::JournalEntry.has_property(&none, "none_context"));
}

#[test]
fn journal_entries_start_in_their_group_context() {
    let mut db = Db::new();
    let mut errors = Errors::new();
    let map = no_map();
    JournalEntryGroup::add(&mut db, tk("je_group_none", 1), block(vec![value("context", "none", 2)]), &mut errors, &map);
    JournalEntryGroup::add(&mut db, tk("je_group_country", 3), block(vec![value("context", "country", 4)]), &mut errors, &map);
    let a = block(vec![value("group", "je_group_none", 1)]);
    let b = block(vec![value("group", "je_group_country", 1)]);
    let c = block(vec![]);
    assert_eq!(journal_entry_scope(&db, &a), Scopes::single(NONE));
    assert_eq!(journal_entry_scope(&db, &b), Scopes::single(COUNTRY));
    assert_eq!(journal_entry_scope(&db, &c), Scopes::single(COUNTRY));
    assert!(db.item_has_property(Item::JournalEntryGroup, "je_group_none", "none_context"));
    assert!(!db.item_has_property(Item::JournalEntry, "je_group_none", "none_context"));
}

#[test]
fn defines_are_read_back_after_loading() {
    let mut defines = Defines::new();
    let mut errors = Errors::new();
    let map = no_map();
    let file = block(vec![
        nested("NGame", vec![value("START_DATE", "1836.1.1", 2), value("END_DATE", "1936.1.1", 3)], 1),
        nested("NMilitary", vec![nested("COLOR", vec![
            BlockItem::Value(tk("1", 6)),
            BlockItem::Value(tk("0", 6)),
            BlockItem::Value(tk("0", 6)),
            BlockItem::Value(tk("1", 6)),
        ], 6)], 5),
    ]);
    defines.handle_file(file, &mut errors, &map);
    assert!(defines.key_exists("NGame|START_DATE"));
    assert!(defines.key_exists("NMilitary|COLOR"));
    assert!(!defines.key_exists("NGame|COLOR"));
    match defines.get_bv("NGame|END_DATE") {
        Some(BV::Value(t)) => assert_eq!(t.as_str(), "1936.1.1"),
        _ => panic!("END_DATE not found"),
    }
    let names: Vec<&str> = defines.iter_keys().iter().map(|t| t.as_str()).collect();
    assert_eq!(names, vec!["START_DATE", "END_DATE", "COLOR"]);
    assert_eq!(errors.flatten_reports(false).len(), 0);
}

#[test]
fn redefining_a_define_in_the_same_mod_warns() {
    let mut defines = Defines::new();
    let mut errors = Errors::new();
    let map = no_map();
    defines.load_item(tk("NGame", 1), tk("X", 1), &BV::Value(tk("1", 1)), &mut errors, &map);
    defines.load_item(tk("NGame", 2), tk("X", 2), &BV::Value(tk("1", 2)), &mut errors, &map);
    assert_eq!(errors.flatten_reports(false).len(), 0);
    defines.load_item(tk("NGame", 3), tk("X", 3), &BV::Value(tk("2", 3)), &mut errors, &map);
    let flat = errors.flatten_reports(false);
    assert_eq!(flat.len(), 1);
    assert_eq!(flat[0].report.msg, "define is redefined by another define");
    match defines.get_bv("NGame|X") {
        Some(BV::Value(t)) => assert_eq!(t.as_str(), "2"),
        _ => panic!("X not found"),
    }
}

#[test]
fn unknown_defines_are_errors() {
    let mut defines = Defines::new();
    let mut errors = Errors::new();
    let map = no_map();
    defines.load_item(tk("NGame", 1), tk("START_DATE", 1), &BV::Value(tk("1836.1.1", 1)), &mut errors, &map);
    defines.load_item(tk("NGame", 2), tk("MADE_UP", 2), &BV::Value(tk("yes", 2)), &mut errors, &map);
    let known = vec![("NGame|START_DATE".to_string(), DefineType::String)];
    let types = defines.validate(&known, &mut errors, &map);
    assert_eq!(types, vec![Some(DefineType::String), None]);
    let flat = errors.flatten_reports(false);
    assert_eq!(flat.len(), 1);
    assert_eq!(flat[0].report.msg, "unknown define NGame|MADE_UP");
    assert_eq!(flat[0].report.key, ErrorKey::UnknownField);
}

#[test]
fn define_value_types() {
    let d = |bv: BV| Define::new(tk("G", 1), tk("N", 1), bv);
    assert_eq!(d(BV::Value(tk("-1.5", 1))).value_type(), DefineType::Number);
    assert_eq!(d(BV::Value(tk("yes", 1))).value_type(), DefineType::Boolean);
    assert_eq!(d(BV::Value(tk("text", 1))).value_type(), DefineType::String);
    let list = |vals: Vec<&str>| BV::Block(Block { items: vals.into_iter().map(|v| BlockItem::Value(tk(v, 1))).collect(), loc: at(FileKind::Mod, 1) });
    assert_eq!(d(list(vec![])).value_type(), DefineType::UnknownList);
    assert_eq!(d(list(vec!["1", "2", "3", "4"])).value_type(), DefineType::Color);
    assert_eq!(d(list(vec!["1", "2"])).value_type(), DefineType::NumberList);
    assert_eq!(d(list(vec!["a", "b"])).value_type(), DefineType::StringList);
    assert_eq!(d(BV::Value(tk("x", 1))).key().iter().collect::<String>(), "G|N");
}

#[test]
fn missing_item_severity_and_confidence() {
    assert_eq!(Item::GuiType.severity(Game::Vic3), Severity::Untidy);
    assert_eq!(Item::File.severity(Game::Hoi4), Severity::Warning);
    assert_eq!(Item::Coa.severity(Game::Vic3), Severity::Warning);
    assert_eq!(Item::Coa.severity(Game::Hoi4), Severity::Error);
    assert_eq!(Item::Sprite.severity(Game::Hoi4), Severity::Warning);
    assert_eq!(Item::Sprite.severity(Game::Vic3), Severity::Error);
    assert_eq!(Item::Country.severity(Game::Vic3), Severity::Error);
    assert_eq!(Item::Sound.confidence(), Confidence::Weak);
    assert_eq!(Item::Country.confidence(), Confidence::Strong);
    assert_ne!(LoadAsFile::Yes, LoadAsFile::No);
    assert_ne!(Recursive::Maybe, Recursive::No);
}

#[test]
fn journal_entry_zero_timeout_is_found() {
    let je = JournalEntry {};
    let b = block(vec![value("timeout", "0", 4), value("group", "g", 5)]);
    let v = je.validate(&tk("je_test", 1), &b);
    assert!(v.findings.iter().any(|f| f.kind == FindingKind::ZeroTimeout && f.loc.line == 4));
    let names: Vec<&str> = v.refs.iter().map(|r| r.name.as_str()).collect();
    assert!(names.contains(&"je_test"));
    assert!(names.contains(&"je_test_reason"));
    assert!(names.contains(&"je_test_status"));
    assert!(names.contains(&"g"));
}

#[test]
fn vic3_item_loaders() {
    let loaders = item_loaders();
    assert_eq!(loaders.len(), 19);
    let l = loaders[0];
    assert!(l.for_game(Game::Vic3));
    assert!(!l.for_game(Game::Hoi4));
    assert_eq!(l.itype(), Item::ArmyDiorama);
    assert_eq!(l.adder(), DbItemKind::ArmyDiorama);
    assert_eq!(l.encoding(Game::Vic3), PdxEncoding::Utf8Bom);
    assert_eq!(l.encoding(Game::Hoi4), PdxEncoding::Utf8NoBom);
    assert_eq!(l.extension(), ".txt");
    assert!(!l.whole_file());
    assert!(!l.recursive());
    assert!(loaders.iter().all(|l| l.for_game(Game::Vic3)));
    assert_eq!(loaders[18].itype(), Item::ShipModificationSlot);
    let full = ItemLoader::Full(
        GameFlags::from_game(Game::Hoi4),
        Item::File,
        PdxEncoding::Utf8Bom,
        ".gui",
        LoadAsFile::Yes,
        Recursive::Maybe,
        DbItemKind::ShipType,
    );
    assert!(full.for_game(Game::Hoi4));
    assert_eq!(full.encoding(Game::Hoi4), PdxEncoding::Utf8Bom);
    assert_eq!(full.extension(), ".gui");
    assert!(full.whole_file());
    assert!(!full.recursive());
    let rec = ItemLoader::Full(GameFlags { vic3: true, hoi4: true }, Item::File, PdxEncoding::Utf8NoBom, ".txt", LoadAsFile::No, Recursive::Yes, DbItemKind::ShipType);
    assert!(rec.recursive());
    assert!(!rec.whole_file());
    assert!(rec.for_game(Game::Vic3) && rec.for_game(Game::Hoi4));
}

#[test]
fn adding_through_the_item_kind() {
    let mut db = Db::new();
    let mut errors = Errors::new();
    let map = no_map();
    let def = || block(vec![value("icon", "fog.dds", 2)]);
    DbItemKind::BattleCondition.add(&mut db, tk("fog", 1), def(), &mut errors, &map);
    DbItemKind::BattleCondition.add(&mut db, tk("fog", 5), def(), &mut errors, &map);
    assert_eq!(errors.flatten_reports(false).len(), 0);
    assert!(db.item_exists(Item::BattleCondition, "fog"));
    DbItemKind::ShipType.add(&mut db, tk("frigate", 1), def(), &mut errors, &map);
    DbItemKind::ShipType.add(&mut db, tk("frigate", 7), def(), &mut errors, &map);
    assert_eq!(errors.flatten_reports(false).len(), 1);
    assert!(db.item_exists(Item::ShipType, "frigate"));
}
