use tiger_lib::block::{Block, BlockItem, BV};
use tiger_lib::db::Db;
use tiger_lib::fileset::{FileKind, FileStage};
use tiger_lib::game::Game;
use tiger_lib::hoi4::tables::iterators::{expand_scopes_hoi4, iterator, iterator_names, iterator_removed};
use tiger_lib::item::Item;
use tiger_lib::pathtable::PathTableIndex;
use tiger_lib::report::errors::{Errors, MacroMap};
use tiger_lib::scopes::{
    scope_bit_name, scope_iterator, scope_prefix, scope_to_scope, scopes_debug, snake_case_to_camel_case,
    ArgumentValue, PrefixEntry, RemovedEntry, ScopeLink, ScopeTables, Scopes, ScriptedList, BATTLE, BOOL, BUILDING, BUILDING_TYPE,
    CHARACTER, COMBINED_COUNTRY_AND_CHARACTER, COMBINED_COUNTRY_AND_STATE, COUNTRY, FLAG, LAW, LAW_TYPE, NONE,
    STATE, VALUE, COLOR,
};
use tiger_lib::token::{Loc, Token};

fn loc(line: u32) -> Loc {
    Loc { idx: PathTableIndex(0), kind: FileKind::Mod, stage: FileStage::NoStage, line, column: 1, link_idx: None }
}

fn tok(s: &str) -> Token {
    Token::new(s.to_string(), loc(1))
}

fn one(bit: u32) -> Scopes {
    Scopes::single(bit)
}

fn vic3_tables() -> ScopeTables {
    ScopeTables {
        game: Game::Vic3,
        links: vec![
            ScopeLink { name: "owner".to_string(), from: one(STATE), to: one(COUNTRY) },
            ScopeLink { name: "type".to_string(), from: one(BUILDING).union(one(LAW)), to: one(BUILDING_TYPE) },
        ],
        links_removed: vec![RemovedEntry {
            name: "old_link".to_string(),
            version: "1.5".to_string(),
            explanation: "use owner instead".to_string(),
        }],
        prefixes: vec![PrefixEntry {
            name: "c".to_string(),
            from: Scopes::empty(),
            to: one(COUNTRY),
            arg: ArgumentValue::Item(Item::Country),
        }],
        iterators: vec![ScopeLink { name: "state".to_string(), from: one(COUNTRY), to: one(STATE) }],
        iterators_removed: vec![RemovedEntry {
            name: "old_state".to_string(),
            version: "1.6".to_string(),
            explanation: "use every_state".to_string(),
        }],
        prefix_hints: vec![],
    }
}

#[test]
fn snake_case_becomes_camel_case() {
    let v = snake_case_to_camel_case("battle_side");
    assert_eq!(v.iter().collect::<String>(), "BattleSide");
    let v = snake_case_to_camel_case("_a__b_");
    assert_eq!(v.iter().collect::<String>(), "AB");
}

#[test]
fn from_snake_case_finds_named_scopes() {
    assert_eq!(Scopes::from_snake_case(Game::Vic3, "country"), Some(one(COUNTRY)));
    assert_eq!(Scopes::from_snake_case(Game::Vic3, "building_type"), Some(one(BUILDING_TYPE)));
    assert_eq!(Scopes::from_snake_case(Game::Vic3, "no_such_scope"), None);
    assert_eq!(Scopes::from_snake_case(Game::Hoi4, "combined_country_and_state"), Some(one(COMBINED_COUNTRY_AND_STATE)));
}

#[test]
fn from_snake_case_multi_unions_the_parts() {
    assert_eq!(Scopes::from_snake_case_multi(Game::Vic3, "country|state"), Some(one(COUNTRY).union(one(STATE))));
    assert_eq!(Scopes::from_snake_case_multi(Game::Vic3, "country|nonsense"), None);
    assert_eq!(Scopes::from_snake_case_multi(Game::Vic3, ""), None);
}

#[test]
fn named_scopes_lie_within_all_scopes() {
    let all = Scopes::all(Game::Vic3);
    for name in ["country", "state", "character", "battle", "strait_type"] {
        let s = Scopes::from_snake_case(Game::Vic3, name).unwrap();
        assert!(all.contains(s), "{name}");
    }
    let hoi4 = Scopes::all(Game::Hoi4);
    assert!(hoi4.contains(one(COMBINED_COUNTRY_AND_CHARACTER)));
}

#[test]
fn primitive_and_non_primitive_partition_all() {
    let all = Scopes::all(Game::Vic3);
    let p = Scopes::primitive();
    let np = Scopes::non_primitive(Game::Vic3);
    assert_eq!(p.union(np).union(one(NONE)), all);
    assert_eq!(p.union(np), Scopes::all_but_none(Game::Vic3));
    assert!(p.intersection(np).is_empty());
    assert_eq!(p, one(VALUE).union(one(BOOL)).union(one(FLAG)));
    assert!(!np.contains(one(NONE)));
    assert!(!Scopes::all_but_none(Game::Vic3).contains(one(NONE)));
    assert!(Scopes::all_but_none(Game::Vic3).contains(one(COLOR)));
}

#[test]
fn union_then_difference_takes_back() {
    let a = one(COUNTRY).union(one(STATE));
    let b = one(STATE);
    assert_eq!(a.difference(b), one(COUNTRY));
    let mut c = one(BATTLE);
    c.insert(one(CHARACTER));
    assert!(c.contains(one(CHARACTER)));
    assert!(c.intersects(one(BATTLE)));
    assert!(!c.intersects(one(COUNTRY)));
}

#[test]
fn scope_names_by_bit() {
    assert_eq!(scope_bit_name(Game::Vic3, COUNTRY), Some("Country"));
    assert_eq!(scope_bit_name(Game::Hoi4, COMBINED_COUNTRY_AND_STATE), Some("CombinedCountryAndState"));
    assert_eq!(scope_bit_name(Game::Hoi4, 127), None);
}

#[test]
fn scopes_debug_lists_names_in_bit_order() {
    let s = one(STATE).union(one(COUNTRY));
    assert_eq!(scopes_debug(Game::Vic3, s).iter().collect::<String>(), "Scopes(Country | State)");
    assert_eq!(scopes_debug(Game::Vic3, Scopes::empty()).iter().collect::<String>(), "Scopes(0x0)");
}

#[test]
fn scope_to_scope_follows_links() {
    let t = vic3_tables();
    let mut errors = Errors::new();
    let map = MacroMap { locs: vec![] };
    assert_eq!(scope_to_scope(&t, &tok("OWNER"), one(STATE), &mut errors, &map), Some((one(STATE), one(COUNTRY))));
    assert_eq!(scope_to_scope(&t, &tok("nothing"), one(STATE), &mut errors, &map), None);
    assert_eq!(errors.flatten_reports(false).len(), 0);
}

#[test]
fn scope_to_scope_resolves_type_by_input() {
    let t = vic3_tables();
    let mut errors = Errors::new();
    let map = MacroMap { locs: vec![] };
    let r = scope_to_scope(&t, &tok("type"), one(LAW), &mut errors, &map);
    assert_eq!(r, Some((one(BUILDING).union(one(LAW)), one(LAW_TYPE))));
    let r = scope_to_scope(&t, &tok("type"), one(COUNTRY), &mut errors, &map);
    assert_eq!(r, Some((one(BUILDING).union(one(LAW)), one(BUILDING_TYPE))));
}

#[test]
fn removed_link_is_reported_and_accepts_anything() {
    let t = vic3_tables();
    let mut errors = Errors::new();
    let map = MacroMap { locs: vec![] };
    let r = scope_to_scope(&t, &tok("old_link"), one(STATE), &mut errors, &map);
    assert_eq!(r, Some((Scopes::all(Game::Vic3), Scopes::all_but_none(Game::Vic3))));
    let reports = errors.flatten_reports(false);
    assert_eq!(reports.len(), 1);
    assert_eq!(reports[0].report.msg, "`old_link` was removed in 1.5");
    assert_eq!(reports[0].report.info.as_deref(), Some("use owner instead"));
}

#[test]
fn scope_prefix_lookup_ignores_case() {
    let t = vic3_tables();
    let r = scope_prefix(&t, &tok("C"));
    assert_eq!(r, Some((Scopes::empty(), one(COUNTRY), ArgumentValue::Item(Item::Country))));
    assert_eq!(scope_prefix(&t, &tok("d")), None);
}

#[test]
fn scope_iterator_looks_up_base_names() {
    let t = vic3_tables();
    let mut errors = Errors::new();
    let map = MacroMap { locs: vec![] };
    let lists = vec![ScriptedList { name: "my_states".to_string(), base: "state".to_string() }];
    assert_eq!(scope_iterator(&t, &tok("STATE"), &lists, &mut errors, &map), Some((one(COUNTRY), one(STATE))));
    assert_eq!(scope_iterator(&t, &tok("my_states"), &lists, &mut errors, &map), Some((one(COUNTRY), one(STATE))));
    assert_eq!(scope_iterator(&t, &tok("every_state"), &lists, &mut errors, &map), None);
    assert_eq!(errors.flatten_reports(false).len(), 0);
    let r = scope_iterator(&t, &tok("old_state"), &lists, &mut errors, &map);
    assert_eq!(r, Some((Scopes::all(Game::Vic3), Scopes::all(Game::Vic3))));
    let reports = errors.flatten_reports(false);
    assert_eq!(reports.len(), 1);
    assert_eq!(reports[0].report.msg, "`old_state` iterators were removed in 1.6");
}

#[test]
fn hoi4_iterators() {
    let country = one(COUNTRY);
    let expanded = Scopes { bits: country.bits | (1u128 << COMBINED_COUNTRY_AND_STATE) | (1u128 << COMBINED_COUNTRY_AND_CHARACTER) };
    assert_eq!(expand_scopes_hoi4(country), expanded);
    assert_eq!(iterator("owned_state"), Some((expanded, one(STATE))));
    assert_eq!(iterator("active_scientist"), Some((one(NONE), one(CHARACTER))));
    assert_eq!(iterator("no_such_iterator"), None);
    let names = iterator_names();
    assert_eq!(names.len(), 19);
    assert_eq!(names[0], "active_scientist");
    let mut sorted = names.clone();
    sorted.sort();
    sorted.dedup();
    assert_eq!(sorted, names);
    assert_eq!(iterator_removed("anything"), None);
}

#[test]
fn hoi4_combined_scopes_expand() {
    let e = expand_scopes_hoi4(one(COUNTRY));
    assert!(e.contains(one(COMBINED_COUNTRY_AND_STATE)));
    assert!(e.contains(one(COMBINED_COUNTRY_AND_CHARACTER)));
    let e = expand_scopes_hoi4(one(STATE));
    assert!(e.contains(one(COMBINED_COUNTRY_AND_STATE)));
    assert!(!e.contains(one(COMBINED_COUNTRY_AND_CHARACTER)));
}

#[test]
fn needs_no_block_for_values() {
    let b = Block { items: vec![BlockItem::Field(tok("a"), BV::Value(tok("b")))], loc: loc(1) };
    assert_eq!(b.num_items(), 1);
    let db = Db::new();
    assert!(!db.item_exists(Item::Country, "SWE"));
}

#[test]
fn empty_and_unknown_scope_names_give_none() {
    for game in [Game::Vic3, Game::Hoi4] {
        assert_eq!(Scopes::from_snake_case(game, ""), None);
        assert_eq!(Scopes::from_snake_case(game, "no_such_scope_type"), None);
        assert_eq!(Scopes::from_snake_case_multi(game, "value|bogus"), None);
        assert_eq!(Scopes::from_snake_case_multi(game, "value|"), None);
        assert_eq!(Scopes::from_snake_case_multi(game, "|value"), None);
        assert_eq!(Scopes::from_snake_case_multi(game, ""), None);
        assert_eq!(Scopes::from_snake_case_multi(game, "value"), Scopes::from_snake_case(game, "value"));
        assert!(Scopes::from_snake_case(game, "value").is_some());
    }
}
