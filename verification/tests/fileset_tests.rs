use tiger_lib::block::{Block, BlockItem, BV};
use tiger_lib::fileset::{ConfigError, FileKind, FileStage, Fileset, ModLookup};
use tiger_lib::game::Game;
use tiger_lib::pathtable::{PathTable, PathTableIndex};
use tiger_lib::report::errors::{Errors, MacroMap};
use tiger_lib::report::{ErrorKey, Severity};
use tiger_lib::token::{Loc, Token};

fn p(s: &str) -> Vec<String> {
    s.split('/').map(|c| c.to_string()).collect()
}

fn scan(fs: &mut Fileset, path: &str, kind: FileKind) {
    fs.add_scanned(p(path), FileStage::NoStage, kind, format!("/root/{path}"));
}

fn no_map() -> MacroMap {
    MacroMap { locs: vec![] }
}

fn cfg_loc() -> Loc {
    Loc { idx: PathTableIndex(0), kind: FileKind::Mod, stage: FileStage::NoStage, line: 1, column: 1, link_idx: None }
}

fn tk(s: &str) -> Token {
    Token::new(s.to_string(), cfg_loc())
}

fn load_mod(items: Vec<BlockItem>) -> BlockItem {
    BlockItem::Field(tk("load_mod"), BV::Block(Block { items, loc: cfg_loc() }))
}

fn finalized(game: Game, files: &[(&str, FileKind)]) -> (Fileset, PathTable) {
    let mut fs = Fileset::new(game, None, "/m".to_string(), vec![]);
    for (f, k) in files {
        scan(&mut fs, f, *k);
    }
    let mut table = PathTable::new();
    fs.finalize(&mut table);
    (fs, table)
}

#[test]
fn new_fileset_roots() {
    let fs = Fileset::new(Game::Vic3, Some("/g".to_string()), "/m".to_string(), vec![]);
    assert_eq!(fs.vanilla_root.as_deref(), Some("/g/game"));
    assert_eq!(fs.clausewitz_root.as_deref(), Some("/g/clausewitz"));
    assert_eq!(fs.jomini_root.as_deref(), Some("/g/jomini"));
    assert_eq!(fs.the_mod.label, "MOD");
    assert_eq!(fs.the_mod.kind(), FileKind::Mod);
    let fs = Fileset::new(Game::Hoi4, Some("/h/".to_string()), "/m".to_string(), vec![]);
    assert_eq!(fs.vanilla_root.as_deref(), Some("/h/"));
    assert_eq!(fs.clausewitz_root, None);
    assert_eq!(fs.jomini_root, None);
}

#[test]
fn scanning_skips_git_and_replaced_directories() {
    let mut fs = Fileset::new(Game::Vic3, None, "/m".to_string(), vec![p("common/laws")]);
    scan(&mut fs, ".git/config", FileKind::Mod);
    assert_eq!(fs.files.len(), 0);
    scan(&mut fs, "common/laws/a.txt", FileKind::Vanilla);
    assert_eq!(fs.files.len(), 0);
    scan(&mut fs, "common/laws/b.txt", FileKind::Mod);
    assert_eq!(fs.files.len(), 1);
    scan(&mut fs, "common/laws/sub/c.txt", FileKind::Vanilla);
    assert_eq!(fs.files.len(), 2);
    assert!(fs.should_replace(&p("common/laws"), FileKind::Dlc(3)));
    assert!(!fs.should_replace(&p("common/laws"), FileKind::Mod));
}

#[test]
fn finalize_orders_files_and_keeps_latest_kind() {
    let (fs, table) = finalized(
        Game::Vic3,
        &[
            ("common/b.txt", FileKind::Vanilla),
            ("common/a.txt", FileKind::Mod),
            ("common/b.txt", FileKind::Dlc(1)),
            ("common/a.txt", FileKind::Vanilla),
            ("common/b.txt", FileKind::Dlc(0)),
        ],
    );
    assert_eq!(fs.ordered_files.len(), 2);
    assert_eq!(fs.ordered_files[0].path(), &p("common/a.txt"));
    assert_eq!(fs.ordered_files[0].kind(), FileKind::Mod);
    assert_eq!(fs.ordered_files[1].path(), &p("common/b.txt"));
    assert_eq!(fs.ordered_files[1].kind(), FileKind::Dlc(1));
    assert_eq!(fs.ordered_files[1].fullpath(), "/root/common/b.txt");
    assert_eq!(fs.ordered_files[1].filename(), "b.txt");
    assert_eq!(fs.ordered_files[1].path_idx(), Some(PathTableIndex(1)));
    assert_eq!(table.len(), 2);
    assert_eq!(table.lookup_path(PathTableIndex(0)), "common/a.txt");
    assert_eq!(table.lookup_fullpath(PathTableIndex(1)), "/root/common/b.txt");
    assert_eq!(fs.filename_tokens.len(), 2);
    assert_eq!(fs.filename_tokens[0].as_str(), "a.txt");
    assert_eq!(fs.filename_tokens[1].loc.kind, FileKind::Dlc(1));
    assert_eq!(fs.filename_tokens[1].loc.idx, PathTableIndex(1));
}

#[test]
fn file_lookup_and_backslashes() {
    let (fs, _) = finalized(Game::Hoi4, &[("gfx/a.dds", FileKind::Mod), ("common/x.txt", FileKind::Mod)]);
    assert!(fs.file_exists(Game::Hoi4, "common/x.txt"));
    assert!(fs.file_exists(Game::Hoi4, "/common/x.txt"));
    assert!(fs.file_exists(Game::Hoi4, "common//x.txt"));
    assert!(fs.file_exists(Game::Hoi4, "common\\x.txt"));
    assert!(!fs.file_exists(Game::Vic3, "common\\x.txt"));
    assert!(!fs.file_exists(Game::Hoi4, "common/y.txt"));
    assert!(fs.entry_exists(Game::Vic3, "gfx"));
    assert!(fs.entry_exists(Game::Vic3, "/gfx/a.dds"));
    assert!(!fs.entry_exists(Game::Vic3, "common/y"));
    let under = fs.get_files_under(&p("common"));
    assert_eq!(under.len(), 1);
    assert_eq!(under[0].path(), &p("common/x.txt"));
    assert_eq!(fs.get_files_under(&p("map")).len(), 0);
    let keys: Vec<&str> = fs.iter_keys().iter().map(|t| t.as_str()).collect();
    assert_eq!(keys, vec!["x.txt", "a.dds"]);
}

#[test]
fn missing_entries_are_reported_and_marked_used() {
    let (mut fs, _) = finalized(Game::Vic3, &[("gfx/a.dds", FileKind::Mod), ("common/x.txt", FileKind::Mod)]);
    let mut errors = Errors::new();
    let map = no_map();
    fs.verify_entry_exists(Game::Vic3, "common/y", &tk("y"), Severity::Fatal, &mut errors, &map);
    fs.verify_entry_exists(Game::Vic3, "gfx", &tk("gfx"), Severity::Fatal, &mut errors, &map);
    fs.verify_exists_implied(Game::Vic3, "//gfx//b.dds", &tk("b"), Severity::Warning, &mut errors, &map);
    assert_eq!(fs.used, vec!["common/y".to_string(), "gfx".to_string(), "gfx/b.dds".to_string()]);
    let reports = errors.flatten_reports(false);
    assert_eq!(reports.len(), 2);
    let msgs: Vec<&str> = reports.iter().map(|r| r.report.msg.as_str()).collect();
    assert!(msgs.contains(&"file or directory common/y does not exist"));
    assert!(msgs.contains(&"file //gfx//b.dds does not exist"));
    assert!(reports.iter().all(|r| r.report.key == ErrorKey::MissingFile));
    let implied = reports.iter().find(|r| r.report.msg.starts_with("file //")).unwrap();
    assert_eq!(implied.report.severity, Severity::Warning);
}

#[test]
fn mark_used_strips_one_slash_and_keeps_names_once() {
    let mut fs = Fileset::new(Game::Vic3, None, "/m".to_string(), vec![]);
    fs.mark_used("/gfx/a.dds");
    fs.mark_used("gfx/a.dds");
    fs.mark_used("gfx/b.dds");
    assert_eq!(fs.used, vec!["gfx/a.dds".to_string(), "gfx/b.dds".to_string()]);
}

#[test]
fn unused_dds_files() {
    let (mut fs, _) = finalized(
        Game::Vic3,
        &[
            ("gfx/a.dds", FileKind::Mod),
            ("gfx/b.DDS", FileKind::Mod),
            ("gfx/interface/illustrations/loading_screens/c.dds", FileKind::Mod),
            ("gfx/d.txt", FileKind::Mod),
            ("gfx/.dds", FileKind::Mod),
        ],
    );
    fs.mark_used("gfx/a.dds");
    let mut errors = Errors::new();
    fs.check_unused_dds(&mut errors, &no_map());
    let reports = errors.flatten_reports(false);
    assert_eq!(reports.len(), 1);
    assert_eq!(reports[0].report.msg, "Unused DDS files");
    assert_eq!(reports[0].report.key, ErrorKey::UnusedFile);
    assert_eq!(reports[0].report.severity, Severity::Untidy);
}

#[test]
fn misplaced_script_files() {
    let (fs, _) = finalized(
        Game::Vic3,
        &[
            ("laws/x.txt", FileKind::Mod),
            ("common/scripted_values/a.txt", FileKind::Mod),
            ("common/foo/a.txt", FileKind::Mod),
            ("common/foo/b.txt", FileKind::Mod),
            ("common/laws/ok.txt", FileKind::Mod),
            ("common/achievement_groups.txt", FileKind::Mod),
            ("common/modifiers/m.txt", FileKind::Mod),
            ("common/history/states/s.txt", FileKind::Mod),
            ("readme.md", FileKind::Mod),
        ],
    );
    let mut errors = Errors::new();
    fs.validate(Game::Vic3, &vec!["common/laws"], &vec!["common/history"], &vec![], &mut errors, &no_map());
    let reports = errors.flatten_reports(false);
    let mut msgs: Vec<String> = reports.iter().map(|r| r.report.msg.clone()).collect();
    msgs.sort();
    assert_eq!(
        msgs,
        vec![
            "file in unexpected directory `common/foo`".to_string(),
            "file in unexpected directory laws".to_string(),
            "file should be in common/script_values/".to_string(),
            "file should be in common/static_modifiers since 1.7".to_string(),
        ]
    );
    let forgot = reports.iter().find(|r| r.report.msg == "file in unexpected directory laws").unwrap();
    assert_eq!(forgot.report.info.as_deref(), Some("did you mean common/laws ?"));
    assert!(reports.iter().all(|r| r.report.key == ErrorKey::Filename && r.report.severity == Severity::Error));
}

#[test]
fn hoi4_known_common_files_are_not_misplaced() {
    let (fs, _) = finalized(Game::Hoi4, &[("common/foo.txt", FileKind::Mod), ("common/bar.txt", FileKind::Mod)]);
    let mut errors = Errors::new();
    fs.validate(Game::Hoi4, &vec!["common/laws"], &vec![], &vec!["common/foo.txt"], &mut errors, &no_map());
    let reports = errors.flatten_reports(false);
    assert_eq!(reports.len(), 1);
    assert_eq!(reports[0].report.msg, "file in unexpected directory `common`");
}

#[test]
fn config_loads_secondary_mods_in_order() {
    let mut fs = Fileset::new(Game::Vic3, None, "/m".to_string(), vec![]);
    let mut errors = Errors::new();
    let config = Block {
        items: vec![
            load_mod(vec![BlockItem::Field(tk("label"), BV::Value(tk("Foo")))]),
            BlockItem::Field(tk("other"), BV::Value(tk("x"))),
            load_mod(vec![]),
        ],
        loc: cfg_loc(),
    };
    let lookups = vec![
        ModLookup::Found { root: "/foo".to_string(), replace_paths: vec![] },
        ModLookup::Found { root: "/bar".to_string(), replace_paths: vec![p("common/laws")] },
    ];
    assert_eq!(fs.config(Game::Vic3, config, lookups, &mut errors), Ok(()));
    assert!(fs.config.is_some());
    assert_eq!(fs.loaded_mods.len(), 2);
    assert_eq!(fs.loaded_mods[0].label, "Foo");
    assert_eq!(fs.loaded_mods[0].kind, FileKind::LoadedMod(0));
    assert_eq!(fs.loaded_mods[0].root, "/foo");
    assert_eq!(fs.loaded_mods[1].label, "MOD1");
    assert_eq!(fs.loaded_mods[1].kind, FileKind::LoadedMod(1));
    assert_eq!(errors.loaded_mods_labels, vec!["Foo".to_string(), "MOD1".to_string()]);
    assert!(fs.should_replace(&p("common/laws"), FileKind::LoadedMod(0)));
    assert!(!fs.should_replace(&p("common/laws"), FileKind::LoadedMod(1)));
}

#[test]
fn config_errors() {
    let config = || Block { items: vec![load_mod(vec![])], loc: cfg_loc() };
    let mut fs = Fileset::new(Game::Vic3, None, "/m".to_string(), vec![]);
    let mut errors = Errors::new();
    let e = fs.config(Game::Vic3, config(), vec![ModLookup::NoPath], &mut errors).unwrap_err();
    assert_eq!(e, ConfigError::MissingMod);
    assert!(fs.config.is_none());
    assert_eq!(
        e.message(Game::Vic3),
        "could not load secondary mod from config; missing valid `mod` or `workshop_id` field"
    );
    assert_eq!(
        e.message(Game::Hoi4),
        "could not load secondary mod from config; missing valid `modfile` or `workshop_id` field"
    );
    assert_eq!(ConfigError::TooManyMods.message(Game::Vic3), "too many loaded mods, cannot process more");

    assert_eq!(fs.config(Game::Vic3, config(), vec![ModLookup::Unreadable("bad".to_string())], &mut errors), Ok(()));
    assert_eq!(fs.loaded_mods.len(), 0);

    let mut fs = Fileset::new(Game::Hoi4, None, "/m".to_string(), vec![]);
    let e = fs.config(Game::Hoi4, config(), vec![ModLookup::Unreadable("bad".to_string())], &mut errors).unwrap_err();
    assert_eq!(e, ConfigError::Unreadable("bad".to_string()));
    assert_eq!(e.message(Game::Hoi4), "bad");
}

#[test]
fn dlcs_are_numbered_in_order() {
    let mut fs = Fileset::new(Game::Vic3, None, "/m".to_string(), vec![]);
    let mut errors = Errors::new();
    assert_eq!(fs.next_dlc_kind(), FileKind::Dlc(0));
    fs.add_dlc("dlc01".to_string(), "/g/dlc/dlc01".to_string(), &mut errors);
    assert_eq!(fs.next_dlc_kind(), FileKind::Dlc(1));
    fs.add_dlc("dlc02".to_string(), "/g/dlc/dlc02".to_string(), &mut errors);
    assert_eq!(fs.loaded_dlcs[1].kind, FileKind::Dlc(1));
    assert_eq!(fs.loaded_dlcs[1].root, "/g/dlc/dlc02");
    assert_eq!(errors.loaded_dlcs_labels, vec!["dlc01".to_string(), "dlc02".to_string()]);
    assert!(FileKind::Dlc(0).counts_as_vanilla());
    assert!(!FileKind::LoadedMod(0).counts_as_vanilla());
}

#[test]
fn referenced_files_are_checked() {
    let (mut fs, _) = finalized(Game::Vic3, &[("gfx/a.dds", FileKind::Mod)]);
    let mut errors = Errors::new();
    let map = no_map();
    fs.verify_exists(Game::Vic3, &tk("gfx/a.dds"), &mut errors, &map);
    fs.verify_exists(Game::Vic3, &tk("gfx//b.dds"), &mut errors, &map);
    assert_eq!(fs.used, vec!["gfx/a.dds".to_string(), "gfx/b.dds".to_string()]);
    let reports = errors.flatten_reports(false);
    assert_eq!(reports.len(), 1);
    assert_eq!(reports[0].report.msg, "referenced file does not exist");
    assert_eq!(reports[0].report.key, ErrorKey::MissingFile);
}

#[test]
fn entry_lookups_that_can_be_made() {
    let (fs, _) = finalized(Game::Vic3, &[("gfx/a.dds", FileKind::Mod), ("common/x.txt", FileKind::Mod)]);
    assert!(fs.can_look_up_entry(Game::Vic3, "gfx"));
    assert!(fs.can_look_up_entry(Game::Vic3, "gfx/a.dds"));
    assert!(fs.can_look_up_entry(Game::Vic3, "common/y"));
    assert!(!fs.can_look_up_entry(Game::Vic3, "zzz"));
    assert!(fs.entry_exists(Game::Vic3, "gfx"));
    assert!(!fs.entry_exists(Game::Vic3, "common/y"));
}
