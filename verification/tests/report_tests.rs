use tiger_lib::fileset::{FileKind, FileStage};
use tiger_lib::game::Game;
use tiger_lib::pathtable::{PathTable, PathTableIndex};
use tiger_lib::report::errors::{
    add_loaded_dlc_root, add_loaded_mod_root, add_suppression, decode_source, Suppression, SuppressionEntry, emit_reports, register_ignore_filter, set_show_vanilla,
    take_reports, Cache, Errors, IgnoreFilter, LineBound, MacroMap,
};
use tiger_lib::report::writer::{caret_spacing, kind_tag, line_spacing, stage_tag, summary_counts};
use tiger_lib::report::{err, report, warn, ErrorKey, Severity};
use tiger_lib::token::Loc;

fn loc_in(idx: u32, kind: FileKind, line: u32, column: u32) -> Loc {
    Loc { idx: PathTableIndex(idx), kind, stage: FileStage::NoStage, line, column, link_idx: None }
}

fn mod_loc(idx: u32, line: u32) -> Loc {
    loc_in(idx, FileKind::Mod, line, 1)
}

fn no_map() -> MacroMap {
    MacroMap { locs: vec![] }
}

#[test]
fn a_report_is_stored_once_per_location() {
    let mut errors = Errors::new();
    let map = no_map();
    err(ErrorKey::Validation).msg("bad".to_string()).loc(mod_loc(0, 3)).push(&mut errors, &map);
    err(ErrorKey::Validation).msg("bad".to_string()).loc(mod_loc(0, 3)).push(&mut errors, &map);
    assert_eq!(errors.flatten_reports(false).len(), 1);
    err(ErrorKey::Validation).msg("bad".to_string()).loc(mod_loc(0, 4)).push(&mut errors, &map);
    assert_eq!(errors.flatten_reports(false).len(), 2);
}

#[test]
fn vanilla_reports_are_hidden_unless_asked_for() {
    let mut errors = Errors::new();
    let map = no_map();
    err(ErrorKey::Validation).msg("in vanilla".to_string()).loc(loc_in(0, FileKind::Vanilla, 1, 1)).push(&mut errors, &map);
    assert_eq!(errors.flatten_reports(false).len(), 0);
    set_show_vanilla(&mut errors, true);
    err(ErrorKey::Validation).msg("in vanilla".to_string()).loc(loc_in(0, FileKind::Vanilla, 1, 1)).push(&mut errors, &map);
    assert_eq!(errors.flatten_reports(false).len(), 1);
}

#[test]
fn flattened_reports_come_most_severe_first() {
    let mut errors = Errors::new();
    let map = no_map();
    warn(ErrorKey::Validation).msg("w".to_string()).loc(mod_loc(0, 1)).push(&mut errors, &map);
    err(ErrorKey::Validation).msg("e".to_string()).loc(mod_loc(0, 9)).push(&mut errors, &map);
    report(ErrorKey::Validation, Severity::Fatal).msg("f".to_string()).loc(mod_loc(0, 5)).push(&mut errors, &map);
    let flat = errors.flatten_reports(false);
    let order: Vec<&str> = flat.iter().map(|r| r.report.msg.as_str()).collect();
    assert_eq!(order, vec!["f", "e", "w"]);
}

#[test]
fn same_severity_goes_by_location() {
    let mut errors = Errors::new();
    let map = no_map();
    err(ErrorKey::Validation).msg("later".to_string()).loc(mod_loc(1, 1)).push(&mut errors, &map);
    err(ErrorKey::Validation).msg("earlier".to_string()).loc(mod_loc(0, 7)).push(&mut errors, &map);
    let flat = errors.flatten_reports(false);
    assert_eq!(flat[0].report.msg, "earlier");
    assert_eq!(flat[1].report.msg, "later");
}

#[test]
fn consolidation_counts_other_locations() {
    let mut errors = Errors::new();
    let map = no_map();
    for line in [5, 2, 8] {
        err(ErrorKey::MissingItem).msg("missing".to_string()).loc(mod_loc(0, line)).push(&mut errors, &map);
    }
    let flat = errors.flatten_reports(true);
    assert_eq!(flat.len(), 1);
    assert_eq!(flat[0].additional, 2);
    assert_eq!(flat[0].pointers[0].loc.line, 2);
    let all = errors.flatten_reports(false);
    assert_eq!(all.len(), 3);
}

#[test]
fn abbreviated_reports_list_first_locations_in_order() {
    let mut errors = Errors::new();
    let map = no_map();
    for line in [9, 3, 6] {
        report(ErrorKey::UnusedFile, Severity::Untidy).msg("unused".to_string()).abbreviated(mod_loc(0, line)).push(&mut errors, &map);
    }
    let flat = errors.flatten_reports(false);
    assert_eq!(flat.len(), 1);
    let lines: Vec<u32> = flat[0].pointers.iter().map(|p| p.loc.line).collect();
    assert_eq!(lines, vec![3, 6, 9]);
}

#[test]
fn ignore_filters_hide_matching_reports() {
    let mut errors = Errors::new();
    let map = no_map();
    register_ignore_filter(
        &mut errors,
        PathTableIndex(0),
        LineBound::Included(10),
        LineBound::Excluded(20),
        IgnoreFilter { key: Some(ErrorKey::Validation), text: Some("noisy".to_string()) },
    );
    err(ErrorKey::Validation).msg("a noisy one".to_string()).loc(mod_loc(0, 10)).push(&mut errors, &map);
    err(ErrorKey::Validation).msg("a noisy one".to_string()).loc(mod_loc(0, 20)).push(&mut errors, &map);
    err(ErrorKey::Validation).msg("a quiet one".to_string()).loc(mod_loc(0, 15)).push(&mut errors, &map);
    let flat = errors.flatten_reports(false);
    let lines: Vec<u32> = flat.iter().map(|r| r.pointers[0].loc.line).collect();
    assert_eq!(lines, vec![15, 20]);
}

#[test]
fn emitting_empties_the_store() {
    let mut errors = Errors::new();
    let map = no_map();
    err(ErrorKey::Validation).msg("x".to_string()).loc(mod_loc(0, 1)).push(&mut errors, &map);
    assert_eq!(emit_reports(&mut errors, false).len(), 1);
    assert_eq!(emit_reports(&mut errors, false).len(), 0);
    err(ErrorKey::Validation).msg("y".to_string()).loc(mod_loc(0, 1)).push(&mut errors, &map);
    let taken = take_reports(&mut errors);
    assert_eq!(taken.len(), 1);
    assert_eq!(errors.flatten_reports(false).len(), 0);
}

#[test]
fn macro_locations_are_expanded() {
    let mut errors = Errors::new();
    let map = MacroMap { locs: vec![mod_loc(3, 30)] };
    let mut at = mod_loc(1, 1);
    at.link_idx = Some(0);
    err(ErrorKey::Validation).msg("in macro".to_string()).loc(at).push(&mut errors, &map);
    let flat = errors.flatten_reports(false);
    assert_eq!(flat.len(), 1);
    assert_eq!(flat[0].pointers.len(), 2);
    assert_eq!(flat[0].pointers[1].loc.line, 30);
}

#[test]
fn cache_lines_come_from_stored_text() {
    let mut cache = Cache::new();
    cache.store(PathTableIndex(2), "first\r\nsecond\nthird".to_string());
    assert_eq!(cache.get_line(mod_loc(2, 2)).map(|v| v.iter().collect::<String>()), Some("second".to_string()));
    assert_eq!(cache.get_line(mod_loc(2, 1)).map(|v| v.iter().collect::<String>()), Some("first".to_string()));
    assert_eq!(cache.get_line(mod_loc(2, 4)), None);
    assert_eq!(cache.get_line(mod_loc(2, 0)), None);
    assert_eq!(cache.get_line(mod_loc(5, 1)), None);
}

#[test]
fn source_bytes_fall_back_to_windows_1252() {
    assert_eq!(decode_source(&"héllo".as_bytes().to_vec()), "héllo");
    assert_eq!(decode_source(&vec![b'c', b'a', b'f', 0xE9]), "café");
    let mut cache = Cache::new();
    cache.store_bytes(PathTableIndex(0), &vec![0x93, b'q', 0x94]);
    assert_eq!(cache.get_line(mod_loc(0, 1)).map(|v| v.iter().collect::<String>()), Some("\u{201c}q\u{201d}".to_string()));
}

#[test]
fn leading_blanks_are_replaced_by_spaces() {
    let (rest, removed, spaces) = line_spacing("\t  x = y");
    assert_eq!(rest.iter().collect::<String>(), "x = y");
    assert_eq!(removed, 3);
    assert_eq!(spaces, 6);
    let (rest, removed, spaces) = line_spacing("\t\t\t\t\t\tdeep");
    assert_eq!(rest.iter().collect::<String>(), "deep");
    assert_eq!(removed, 6);
    assert_eq!(spaces, 16);
    let (rest, removed, spaces) = line_spacing("");
    assert!(rest.is_empty());
    assert_eq!((removed, spaces), (0, 0));
}

#[test]
fn carets_line_up_with_wide_characters() {
    let line: Vec<char> = "a\u{4e2d}\tb".chars().collect();
    assert_eq!(caret_spacing(&line, 5, 0), "   \t ");
    assert_eq!(caret_spacing(&line, 3, 0), "   ");
    assert_eq!(caret_spacing(&line, 1, 0), "");
    assert_eq!(caret_spacing(&line, 40, 0), "   \t ");
    assert_eq!(caret_spacing(&line, 4, 2), " ");
}

#[test]
fn file_kinds_are_tagged() {
    let mut errors = Errors::new();
    add_loaded_mod_root(&mut errors, "Better UI".to_string());
    add_loaded_dlc_root(&mut errors, "dlc001".to_string());
    assert_eq!(kind_tag(&errors, Game::Vic3, FileKind::Vanilla), "Vic3");
    assert_eq!(kind_tag(&errors, Game::Hoi4, FileKind::Vanilla), "Hoi4");
    assert_eq!(kind_tag(&errors, Game::Vic3, FileKind::LoadedMod(0)), "Better UI");
    assert_eq!(kind_tag(&errors, Game::Vic3, FileKind::Dlc(0)), "dlc001");
    assert_eq!(kind_tag(&errors, Game::Vic3, FileKind::Mod), "MOD");
    assert_eq!(stage_tag(FileStage::NoStage), "");
}

#[test]
fn summary_counts_add_additional_occurrences() {
    let counts = summary_counts(&vec![(Severity::Error, 2), (Severity::Warning, 0), (Severity::Error, 0)]);
    assert_eq!(counts, vec![0, 0, 1, 4, 0]);
}

#[test]
fn path_table_gives_back_what_was_stored() {
    let mut table = PathTable::new();
    let a = table.store("common/a.txt".to_string(), "/game/common/a.txt".to_string());
    let b = table.store("common/b.txt".to_string(), "/mod/common/b.txt".to_string());
    assert_eq!((a.0, b.0), (0, 1));
    assert_eq!(table.lookup_path(a), "common/a.txt");
    assert_eq!(table.lookup_fullpath(b), "/mod/common/b.txt");
    assert_eq!(table.len(), 2);
    table.clear_for_lsp_run();
    assert_eq!(table.len(), 0);
}

#[test]
fn ascii_sources_and_carets() {
    assert_eq!(decode_source(&b"key = value\n".to_vec()), "key = value\n");
    let line: Vec<char> = "abc def".chars().collect();
    assert_eq!(caret_spacing(&line, 5, 0), "    ");
    assert_eq!(caret_spacing(&line, 5, 2), "  ");
    assert_eq!(caret_spacing(&line, 1, 0), "");
    assert_eq!(caret_spacing(&line, 100, 0), "       ");
}

#[test]
fn abbreviated_reports_that_are_all_ignored_are_not_shown() {
    let mut errors = Errors::new();
    let map = no_map();
    register_ignore_filter(
        &mut errors,
        PathTableIndex(0),
        LineBound::Unbounded,
        LineBound::Unbounded,
        IgnoreFilter { key: None, text: None },
    );
    report(ErrorKey::UnusedFile, Severity::Untidy).msg("Unused DDS files".to_string()).abbreviated(mod_loc(0, 0)).push(&mut errors, &map);
    assert_eq!(errors.flatten_reports(false).len(), 0);
    report(ErrorKey::UnusedFile, Severity::Untidy).msg("Unused DDS files".to_string()).abbreviated(mod_loc(1, 0)).push(&mut errors, &map);
    let flat = emit_reports(&mut errors, false);
    assert_eq!(flat.len(), 1);
    assert_eq!(flat[0].pointers.len(), 1);
    assert_eq!(flat[0].pointers[0].loc.idx, PathTableIndex(1));
}

#[test]
fn suppressed_reports_are_not_stored() {
    let mut errors = Errors::new();
    let map = no_map();
    add_suppression(
        &mut errors,
        SuppressionEntry {
            key: ErrorKey::Validation,
            message: "bad".to_string(),
            suppressions: vec![vec![Suppression { path: PathTableIndex(0), tag: None, line: None }]],
        },
    );
    err(ErrorKey::Validation).msg("bad".to_string()).loc(mod_loc(0, 3)).push(&mut errors, &map);
    assert_eq!(errors.flatten_reports(false).len(), 0);
    err(ErrorKey::Validation).msg("bad".to_string()).loc(mod_loc(1, 3)).push(&mut errors, &map);
    err(ErrorKey::Validation).msg("other".to_string()).loc(mod_loc(0, 3)).push(&mut errors, &map);
    err(ErrorKey::Logic).msg("bad".to_string()).loc(mod_loc(0, 3)).push(&mut errors, &map);
    assert_eq!(errors.flatten_reports(false).len(), 3);
}
