//! The kinds and stages of files taking part in a validation.

use vstd::prelude::*;

use crate::order::{asymmetric, insert_pos, insertion_sort, lemma_insert_pos_is, law_insertion_sort_permutes, law_insertion_sort_sorted, sorted_by};
use crate::pathtable::{PathTable, PathTableIndex};
use crate::report::errors::{lemma_text_order_antisym, text_order};
use crate::block::BV;
use crate::game::Game;
use crate::item::{Item, ItemExt};
use crate::block::{field_blocks, last_field_value, Block};
use crate::report::errors::{add_loaded_dlc_root, add_loaded_mod_root, lemma_log_onto, log_all, log_onto, spec_log, Errors, MacroMap};
use crate::report::{err, fatal, ptrs_view, report, sev_rank, ErrorKey, MetadataV, PointedMessageV, Severity, Confidence, LogReportStyle};
use crate::text::{decimal, u8_decimal, ascii_lower, chars_eq, from_chars, join_seq, lower_seq, push_chars, push_joined, push_str, split_chars, split_seq, to_ascii_lower, to_chars};
use crate::token::Token;
use crate::token::Loc;

verus! {

/// Where a file comes from. Files later in this order override files of the
/// same name earlier in it.
#[derive(Clone, Copy, Debug, PartialEq, Eq, Hash, Structural)]
pub enum FileKind {
    /// The validator's own data. The user should not see warnings from this.
    Internal,
    /// Directories bundled with the base game.
    Clausewitz,
    Jomini,
    /// The base game files.
    Vanilla,
    /// Downloadable content present on the user's system.
    Dlc(u8),
    /// Other mods loaded as directed by the config file. 0-based indexing.
    LoadedMod(u8),
    /// The mod under scrutiny.
    Mod,
}

/// The position of a file kind in the override order, as a pair.
pub open spec fn kind_key(k: FileKind) -> (int, int) {
    match k {
        FileKind::Internal => (0, 0),
        FileKind::Clausewitz => (1, 0),
        FileKind::Jomini => (2, 0),
        FileKind::Vanilla => (3, 0),
        FileKind::Dlc(n) => (4, n as int),
        FileKind::LoadedMod(n) => (5, n as int),
        FileKind::Mod => (6, 0),
    }
}

/// `a` comes before `b` in the override order.
pub open spec fn kind_lt(a: FileKind, b: FileKind) -> bool {
    kind_key(a).0 < kind_key(b).0 || (kind_key(a).0 == kind_key(b).0 && kind_key(a).1 < kind_key(b).1)
}

/// Compares file kinds in override order: -1, 0 or 1.
pub fn kind_compare(a: FileKind, b: FileKind) -> (res: i8)
    ensures
        res == -1 <==> kind_lt(a, b),
        res == 1 <==> kind_lt(b, a),
        res == 0 <==> a == b,
{
    let (a0, a1): (u8, u8) = kind_pair(a);
    let (b0, b1): (u8, u8) = kind_pair(b);
    if a0 < b0 || (a0 == b0 && a1 < b1) {
        -1
    } else if b0 < a0 || (a0 == b0 && b1 < a1) {
        1
    } else {
        0
    }
}

fn kind_pair(k: FileKind) -> (res: (u8, u8))
    ensures
        res.0 as int == kind_key(k).0,
        res.1 as int == kind_key(k).1,
{
    match k {
        FileKind::Internal => (0, 0),
        FileKind::Clausewitz => (1, 0),
        FileKind::Jomini => (2, 0),
        FileKind::Vanilla => (3, 0),
        FileKind::Dlc(n) => (4, n),
        FileKind::LoadedMod(n) => (5, n),
        FileKind::Mod => (6, 0),
    }
}

impl FileKind {
    /// Whether files of this kind belong to the base game.
    pub fn counts_as_vanilla(&self) -> (res: bool)
        ensures
            res == (*self is Clausewitz || *self is Jomini || *self is Vanilla || *self is Dlc),
    {
        match self {
            FileKind::Clausewitz | FileKind::Jomini | FileKind::Vanilla | FileKind::Dlc(_) => true,
            FileKind::Internal | FileKind::LoadedMod(_) | FileKind::Mod => false,
        }
    }
}

/// The top-level stage directory of a file. The games handled here have no
/// stage directories.
#[derive(Clone, Copy, Debug, PartialEq, Eq, Hash, Structural)]
pub enum FileStage {
    NoStage,
}

/// The components of a path below a mod or game directory, as texts.
pub open spec fn path_view(v: Seq<String>) -> Seq<Seq<char>> {
    v.map_values(|c: String| c@)
}

/// Compares paths component by component, each component by character, as
/// std orders `Path`s: -1, 0 or 1.
pub open spec fn path_order(a: Seq<Seq<char>>, b: Seq<Seq<char>>) -> int
    decreases a.len(),
{
    if a.len() == 0 {
        if b.len() == 0 { 0 } else { -1 }
    } else if b.len() == 0 {
        1
    } else if text_order(a[0], b[0]) != 0 {
        text_order(a[0], b[0])
    } else {
        path_order(a.drop_first(), b.drop_first())
    }
}

/// Whether the path `a` begins with the components of `prefix`.
pub open spec fn path_starts_with(a: Seq<Seq<char>>, prefix: Seq<Seq<char>>) -> bool {
    prefix.len() <= a.len() && a.take(prefix.len() as int) == prefix
}

pub proof fn lemma_path_order_antisym(a: Seq<Seq<char>>, b: Seq<Seq<char>>)
    ensures
        path_order(a, b) == -path_order(b, a),
    decreases a.len(),
{
    if a.len() > 0 && b.len() > 0 {
        lemma_text_order_antisym(a[0], b[0]);
        if text_order(a[0], b[0]) == 0 {
            lemma_path_order_antisym(a.drop_first(), b.drop_first());
        }
    }
}

proof fn lemma_text_order_zero(a: Seq<char>, b: Seq<char>)
    ensures
        text_order(a, b) == 0 <==> a == b,
    decreases a.len(),
{
    if a.len() > 0 && b.len() > 0 && a[0] == b[0] {
        lemma_text_order_zero(a.drop_first(), b.drop_first());
        if text_order(a, b) == 0 {
            assert(a =~= b) by {
                assert forall|k: int| 0 <= k < a.len() implies a[k] == b[k] by {
                    if k > 0 {
                        assert(a[k] == a.drop_first()[k - 1]);
                        assert(b[k] == b.drop_first()[k - 1]);
                    }
                }
            }
        }
        if a == b {
            assert(a.drop_first() =~= b.drop_first());
        }
    } else if a.len() > 0 && b.len() > 0 {
        assert(a[0] != b[0]);
    } else if a.len() != b.len() {
        assert(a != b);
    } else {
        assert(a =~= b);
    }
}

/// Paths compare equal only when they are the same.
pub proof fn lemma_path_order_zero(a: Seq<Seq<char>>, b: Seq<Seq<char>>)
    ensures
        path_order(a, b) == 0 <==> a == b,
    decreases a.len(),
{
    if a.len() > 0 && b.len() > 0 {
        lemma_text_order_zero(a[0], b[0]);
        lemma_path_order_zero(a.drop_first(), b.drop_first());
        if path_order(a, b) == 0 {
            assert(a =~= b) by {
                assert forall|k: int| 0 <= k < a.len() implies a[k] == b[k] by {
                    if k > 0 {
                        assert(a[k] == a.drop_first()[k - 1]);
                        assert(b[k] == b.drop_first()[k - 1]);
                    }
                }
            }
        }
        if a == b {
            assert(a.drop_first() =~= b.drop_first());
        }
    } else if a.len() != b.len() {
        assert(a != b);
    } else {
        assert(a =~= b);
    }
}

/// Compares two texts by character: -1, 0 or 1.
fn compare_chars(a: &String, b: &String) -> (res: i8)
    ensures
        res as int == text_order(a@, b@),
{
    crate::report::errors::compare_text(&to_chars(a.as_str()), &to_chars(b.as_str()))
}

/// Compares two paths as std orders `Path`s (see [`path_order`]).
pub fn compare_paths(a: &Vec<String>, b: &Vec<String>) -> (res: i8)
    ensures
        res as int == path_order(path_view(a@), path_view(b@)),
{
    let ghost pa = path_view(a@);
    let ghost pb = path_view(b@);
    let mut i: usize = 0;
    assert(pa.skip(0) =~= pa);
    assert(pb.skip(0) =~= pb);
    while i < a.len() && i < b.len()
        invariant
            i <= a.len(),
            i <= b.len(),
            pa == path_view(a@),
            pb == path_view(b@),
            path_order(pa, pb) == path_order(pa.skip(i as int), pb.skip(i as int)),
        decreases a.len() - i,
    {
        assert(pa.skip(i as int)[0] == a@[i as int]@);
        assert(pb.skip(i as int)[0] == b@[i as int]@);
        let c = compare_chars(&a[i], &b[i]);
        if c != 0 {
            return c;
        }
        assert(pa.skip(i as int).drop_first() == pa.skip(i + 1));
        assert(pb.skip(i as int).drop_first() == pb.skip(i + 1));
        i += 1;
    }
    if i < a.len() {
        1
    } else if i < b.len() {
        -1
    } else {
        0
    }
}

/// Whether the path `a` begins with the components of `prefix`.
pub fn starts_with(a: &Vec<String>, prefix: &Vec<String>) -> (res: bool)
    ensures
        res == path_starts_with(path_view(a@), path_view(prefix@)),
{
    if prefix.len() > a.len() {
        return false;
    }
    let mut i: usize = 0;
    while i < prefix.len()
        invariant
            prefix@.len() <= a@.len(),
            i <= prefix@.len(),
            forall|k: int| 0 <= k < i ==> path_view(a@)[k] == path_view(prefix@)[k],
        decreases prefix.len() - i,
    {
        if !chars_eq(&to_chars(a[i].as_str()), &to_chars(prefix[i].as_str())) {
            assert(path_view(a@).take(prefix@.len() as int)[i as int] != path_view(prefix@)[i as int]);
            return false;
        }
        i += 1;
    }
    assert(path_view(a@).take(prefix@.len() as int) =~= path_view(prefix@));
    true
}

/// Whether two paths are the same.
pub fn same_path(a: &Vec<String>, b: &Vec<String>) -> (res: bool)
    ensures
        res == (path_view(a@) == path_view(b@)),
{
    proof {
        lemma_path_order_zero(path_view(a@), path_view(b@));
    }
    compare_paths(a, b) == 0
}

/// A file taking part in the validation.
#[derive(Debug)]
pub struct FileEntry {
    /// The path components below the mod or game directory; not empty.
    path: Vec<String>,
    /// The top-level stage directory; not part of `path`.
    stage: FileStage,
    /// Where the file comes from.
    kind: FileKind,
    /// The file's index in the path table, once it is stored there.
    idx: Option<PathTableIndex>,
    /// The full filesystem path of the file.
    fullpath: String,
}

/// The plain-value form of a [`FileEntry`].
pub struct FileEntryV {
    pub path: Seq<Seq<char>>,
    pub stage: FileStage,
    pub kind: FileKind,
    pub idx: Option<PathTableIndex>,
    pub fullpath: Seq<char>,
}

impl View for FileEntry {
    type V = FileEntryV;

    closed spec fn view(&self) -> FileEntryV {
        FileEntryV { path: path_view(self.path@), stage: self.stage, kind: self.kind, idx: self.idx, fullpath: self.fullpath@ }
    }
}

pub open spec fn entries_view(s: Seq<FileEntry>) -> Seq<FileEntryV> {
    s.map_values(|e: FileEntry| e@)
}

/// The location of a file as a whole.
pub open spec fn entry_loc(e: FileEntryV) -> Loc {
    Loc {
        idx: match e.idx {
            Some(i) => i,
            None => PathTableIndex(0),
        },
        kind: e.kind,
        stage: e.stage,
        line: 0,
        column: 0,
        link_idx: None,
    }
}

impl FileEntry {
    /// A file entry always has a file name.
    #[verifier::type_invariant]
    spec fn has_file_name(self) -> bool {
        self.path@.len() > 0
    }

    /// A file entry; `path` must have a file name.
    pub fn new(path: Vec<String>, stage: FileStage, kind: FileKind, fullpath: String) -> (res: FileEntry)
        requires
            path@.len() > 0,
        ensures
            res@ == (FileEntryV { path: path_view(path@), stage, kind, idx: None, fullpath: fullpath@ }),
    {
        FileEntry { path, stage, kind, idx: None, fullpath }
    }

    pub fn stage(&self) -> (res: FileStage)
        ensures
            res == self@.stage,
    {
        self.stage
    }

    pub fn kind(&self) -> (res: FileKind)
        ensures
            res == self@.kind,
    {
        self.kind
    }

    pub fn path(&self) -> (res: &Vec<String>)
        ensures
            path_view(res@) == self@.path,
    {
        &self.path
    }

    pub fn fullpath(&self) -> (res: &String)
        ensures
            res@ == self@.fullpath,
    {
        &self.fullpath
    }

    /// The file name: the last component of the path.
    pub fn filename(&self) -> (res: &String)
        ensures
            res@ == self@.path.last(),
    {
        proof {
            use_type_invariant(self);
        }
        &self.path[self.path.len() - 1]
    }

    pub fn path_idx(&self) -> (res: Option<PathTableIndex>)
        ensures
            res == self@.idx,
    {
        self.idx
    }

    /// The location of the file as a whole.
    pub fn loc(&self) -> (res: Loc)
        ensures
            res == entry_loc(self@),
    {
        Loc {
            idx: match self.idx {
                Some(i) => i,
                None => PathTableIndex(0),
            },
            kind: self.kind,
            stage: self.stage,
            line: 0,
            column: 0,
            link_idx: None,
        }
    }

    /// A copy of this entry.
    pub fn duplicate(&self) -> (res: FileEntry)
        ensures
            res@ == self@,
    {
        proof {
            use_type_invariant(self);
        }
        let mut path: Vec<String> = Vec::new();
        let mut i: usize = 0;
        while i < self.path.len()
            invariant
                i <= self.path@.len(),
                path_view(path@) == path_view(self.path@).take(i as int),
            decreases self.path.len() - i,
        {
            let ghost before = path@;
            path.push(from_chars(&to_chars(self.path[i].as_str())));
            assert(path_view(path@) =~= path_view(before).push(self.path@[i as int]@));
            assert(path_view(self.path@).take(i + 1) =~= path_view(self.path@).take(i as int).push(self.path@[i as int]@));
            i += 1;
        }
        assert(path_view(self.path@).take(self.path@.len() as int) =~= path_view(self.path@));
        FileEntry { path, stage: self.stage, kind: self.kind, idx: self.idx, fullpath: from_chars(&to_chars(self.fullpath.as_str())) }
    }
}

/// A mod, or DLC, whose files take part in the validation.
#[derive(Debug)]
pub struct LoadedMod {
    /// The kind of the file entries from this mod.
    pub kind: FileKind,
    /// The tag used for this mod in reports.
    pub label: String,
    /// The location of this mod in the filesystem.
    pub root: String,
    /// Directories that are not to be read from the base game or from mods
    /// loaded earlier.
    pub replace_paths: Vec<Vec<String>>,
}

pub open spec fn paths_view(v: Seq<Vec<String>>) -> Seq<Seq<Seq<char>>> {
    v.map_values(|p: Vec<String>| path_view(p@))
}

/// Whether the mod replaces the directory `path`.
pub open spec fn mod_replaces(m: LoadedMod, path: Seq<Seq<char>>) -> bool {
    paths_view(m.replace_paths@).contains(path)
}

impl LoadedMod {
    pub fn root(&self) -> (res: &String)
        ensures
            res@ == self.root@,
    {
        &self.root
    }

    pub fn kind(&self) -> (res: FileKind)
        ensures
            res == self.kind,
    {
        self.kind
    }

    /// Whether this mod replaces the directory `path`.
    pub fn should_replace(&self, path: &Vec<String>) -> (res: bool)
        ensures
            res == mod_replaces(*self, path_view(path@)),
    {
        let ghost ps = paths_view(self.replace_paths@);
        let mut i: usize = 0;
        while i < self.replace_paths.len()
            invariant
                i <= self.replace_paths@.len(),
                ps == paths_view(self.replace_paths@),
                forall|k: int| 0 <= k < i ==> ps[k] != path_view(path@),
            decreases self.replace_paths.len() - i,
        {
            assert(ps[i as int] == path_view(self.replace_paths@[i as int]@));
            if same_path(&self.replace_paths[i], path) {
                assert(ps.contains(path_view(path@)));
                return true;
            }
            i += 1;
        }
        false
    }
}

/// Whether files of kind `kind` in the directory `path` are left out because
/// a mod that comes later replaces that directory.
pub open spec fn spec_should_replace(the_mod: LoadedMod, loaded: Seq<LoadedMod>, path: Seq<Seq<char>>, kind: FileKind) -> bool {
    &&& kind != FileKind::Mod
    &&& (mod_replaces(the_mod, path) || exists|i: int| 0 <= i < loaded.len() && kind_lt(kind, #[trigger] loaded[i].kind) && mod_replaces(loaded[i], path))
}

/// The parent directory of a path: all components but the last.
pub open spec fn parent_path(p: Seq<Seq<char>>) -> Seq<Seq<char>> {
    if p.len() == 0 { p } else { p.drop_last() }
}

/// All files of the base game and the mods taking part in the validation.
#[derive(Debug)]
pub struct Fileset {
    /// The base game's directory.
    pub vanilla_root: Option<String>,
    /// Extra game directories loaded before the base game's (only in games
    /// built on the Jomini engine).
    pub clausewitz_root: Option<String>,
    pub jomini_root: Option<String>,
    /// The mod being validated.
    pub the_mod: LoadedMod,
    /// Other mods to be loaded before the mod being validated, in order.
    pub loaded_mods: Vec<LoadedMod>,
    /// DLC directories to be loaded after the base game, in order.
    pub loaded_dlcs: Vec<LoadedMod>,
    /// The validator's configuration.
    pub config: Option<crate::block::Block>,
    /// The files found, in the order they were found.
    pub files: Vec<FileEntry>,
    /// The files in the order the game loads them, each path once.
    pub ordered_files: Vec<FileEntry>,
    /// The file names of `ordered_files`, as tokens.
    pub filename_tokens: Vec<crate::token::Token>,
    /// The files looked up during validation.
    pub used: Vec<String>,
}

impl Fileset {
    /// Whether files of kind `kind` in the directory `path` are left out
    /// (see [`spec_should_replace`]).
    pub fn should_replace(&self, path: &Vec<String>, kind: FileKind) -> (res: bool)
        ensures
            res == spec_should_replace(self.the_mod, self.loaded_mods@, path_view(path@), kind),
    {
        if kind == FileKind::Mod {
            return false;
        }
        if kind_compare(kind, FileKind::Mod) == -1 && self.the_mod.should_replace(path) {
            return true;
        }
        let mut i: usize = 0;
        while i < self.loaded_mods.len()
            invariant
                i <= self.loaded_mods@.len(),
                kind != FileKind::Mod,
                !mod_replaces(self.the_mod, path_view(path@)),
                forall|k: int| 0 <= k < i ==> !(kind_lt(kind, #[trigger] self.loaded_mods@[k].kind) && mod_replaces(self.loaded_mods@[k], path_view(path@))),
            decreases self.loaded_mods.len() - i,
        {
            if kind_compare(kind, self.loaded_mods[i].kind) == -1 && self.loaded_mods[i].should_replace(path) {
                return true;
            }
            i += 1;
        }
        false
    }

    /// Records a file found below a game or mod directory, unless it is in
    /// a `.git` directory or in a directory replaced by a later mod.
    pub fn add_scanned(&mut self, inner_path: Vec<String>, stage: FileStage, kind: FileKind, fullpath: String)
        requires
            inner_path@.len() > 0,
        ensures
            ({
                let p = path_view(inner_path@);
                let skip = p[0] == ".git"@ || spec_should_replace(old(self).the_mod, old(self).loaded_mods@, parent_path(p), kind);
                entries_view(final(self).files@) == if skip {
                    entries_view(old(self).files@)
                } else {
                    entries_view(old(self).files@).push(FileEntryV { path: p, stage, kind, idx: None, fullpath: fullpath@ })
                }
            }),
            final(self).the_mod == old(self).the_mod,
            final(self).loaded_mods == old(self).loaded_mods,
            final(self).loaded_dlcs == old(self).loaded_dlcs,
            final(self).ordered_files == old(self).ordered_files,
    {
        proof {
            reveal_strlit(".git");
        }
        if str_is(&inner_path[0], ".git") {
            return;
        }
        let mut dir: Vec<String> = Vec::new();
        let mut i: usize = 0;
        while i < inner_path.len() - 1
            invariant
                inner_path@.len() > 0,
                i + 1 <= inner_path@.len(),
                path_view(dir@) == path_view(inner_path@).take(i as int),
            decreases inner_path.len() - i,
        {
            let ghost before = dir@;
            dir.push(from_chars(&to_chars(inner_path[i].as_str())));
            assert(path_view(dir@) =~= path_view(before).push(inner_path@[i as int]@));
            assert(path_view(inner_path@).take(i + 1) =~= path_view(inner_path@).take(i as int).push(inner_path@[i as int]@));
            i += 1;
        }
        assert(path_view(dir@) =~= parent_path(path_view(inner_path@)));
        if self.should_replace(&dir, kind) {
            return;
        }
        let ghost before = self.files@;
        let e = FileEntry::new(inner_path, stage, kind, fullpath);
        self.files.push(e);
        assert(entries_view(self.files@) =~= entries_view(before).push(e@));
    }
}

/// Whether `s` is exactly `t`.
fn str_is(s: &String, t: &str) -> (res: bool)
    ensures
        res == (s@ == t@),
{
    crate::text::str_eq(s.as_str(), t)
}

/// The order in which the game loads files: by path, and for the same path,
/// by kind, so that a later kind overrides an earlier one.
pub open spec fn entry_lt(a: FileEntryV, b: FileEntryV) -> bool {
    path_order(a.path, b.path) < 0 || (path_order(a.path, b.path) == 0 && kind_lt(a.kind, b.kind))
}

pub open spec fn entry_lt_fn() -> spec_fn(FileEntryV, FileEntryV) -> bool {
    |a: FileEntryV, b: FileEntryV| entry_lt(a, b)
}

/// Appends the entries of `s` in turn to `init`; an entry with the same path
/// as the last one takes its place.
pub open spec fn keep_last(init: Seq<FileEntryV>, s: Seq<FileEntryV>) -> Seq<FileEntryV>
    decreases s.len(),
{
    if s.len() == 0 {
        init
    } else {
        let r = keep_last(init, s.drop_last());
        if r.len() > 0 && r.last().path == s.last().path {
            r.update(r.len() - 1, s.last())
        } else {
            r.push(s.last())
        }
    }
}

/// The entries numbered in the path table from `base` on.
pub open spec fn with_idx(s: Seq<FileEntryV>, base: nat) -> Seq<FileEntryV> {
    Seq::new(s.len(), |k: int| FileEntryV { idx: Some(PathTableIndex((base + k) as u32)), ..s[k] })
}

/// A path as text, its components joined by `/`.
pub open spec fn path_text(p: Seq<Seq<char>>) -> Seq<char> {
    join_seq(p, "/"@)
}

/// The path table entries for files.
pub open spec fn table_entries(s: Seq<FileEntryV>) -> Seq<(Seq<char>, Seq<char>)> {
    s.map_values(|e: FileEntryV| (path_text(e.path), e.fullpath))
}

/// Whether `a` comes before `b` in load order (see [`entry_lt`]).
fn entry_before(a: &FileEntry, b: &FileEntry) -> (res: bool)
    ensures
        res == entry_lt(a@, b@),
{
    let c = compare_paths(&a.path, &b.path);
    c < 0 || (c == 0 && kind_compare(a.kind, b.kind) == -1)
}

/// The path as text, its components joined by `/`.
fn path_string(p: &Vec<String>) -> (res: String)
    ensures
        res@ == path_text(path_view(p@)),
{
    let mut v: Vec<char> = Vec::new();
    let ghost start = v@;
    let mut i: usize = 0;
    while i < p.len()
        invariant
            i <= p@.len(),
            start == Seq::<char>::empty(),
            v@ == start + join_seq(path_view(p@).take(i as int), "/"@),
        decreases p.len() - i,
    {
        let ghost parts = path_view(p@).take(i as int);
        assert(path_view(p@).take(i + 1) =~= parts.push(p@[i as int]@));
        push_joined(&mut v, i == 0, "/", p[i].as_str(), Ghost(start), Ghost(parts));
        i += 1;
    }
    assert(path_view(p@).take(p@.len() as int) =~= path_view(p@));
    assert(v@ =~= path_text(path_view(p@)));
    from_chars(&v)
}

/// The entries in load order: a stable sort by [`entry_lt`].
fn sort_entries(files: &Vec<FileEntry>) -> (res: Vec<FileEntry>)
    ensures
        entries_view(res@) == insertion_sort(entries_view(files@), entry_lt_fn()),
{
    let ghost fv = entries_view(files@);
    let mut sorted: Vec<FileEntry> = Vec::new();
    let mut i: usize = 0;
    while i < files.len()
        invariant
            i <= files@.len(),
            fv == entries_view(files@),
            entries_view(sorted@) == insertion_sort(fv.take(i as int), entry_lt_fn()),
        decreases files.len() - i,
    {
        let ghost s = entries_view(sorted@);
        let x = &files[i];
        let mut j: usize = 0;
        while j < sorted.len() && !entry_before(x, &sorted[j])
            invariant
                j <= sorted@.len(),
                s == entries_view(sorted@),
                forall|k: int| 0 <= k < j ==> !entry_lt_fn()(x@, #[trigger] s[k]),
            decreases sorted.len() - j,
        {
            j += 1;
        }
        proof {
            lemma_insert_pos_is(s, x@, entry_lt_fn(), j as int);
            assert(fv.take(i + 1).drop_last() == fv.take(i as int));
            assert(fv.take(i + 1).last() == x@);
        }
        let ghost before = sorted@;
        sorted.insert(j, x.duplicate());
        assert(entries_view(sorted@) =~= s.insert(j as int, x@));
        i += 1;
    }
    assert(fv.take(files@.len() as int) == fv);
    sorted
}

/// Appends the entries of `sorted` to `out`, an entry with the same path as
/// the last one taking its place (see [`keep_last`]).
fn keep_last_entries(out: &mut Vec<FileEntry>, sorted: Vec<FileEntry>)
    ensures
        entries_view(final(out)@) == keep_last(entries_view(old(out)@), entries_view(sorted@)),
{
    let ghost init = entries_view(out@);
    let ghost sv = entries_view(sorted@);
    let mut i: usize = 0;
    while i < sorted.len()
        invariant
            i <= sorted@.len(),
            sv == entries_view(sorted@),
            entries_view(out@) == keep_last(init, sv.take(i as int)),
        decreases sorted.len() - i,
    {
        assert(sv.take(i + 1).drop_last() == sv.take(i as int));
        assert(sv.take(i + 1).last() == sorted@[i as int]@);
        let e = sorted[i].duplicate();
        let ghost r = entries_view(out@);
        let n = out.len();
        if n > 0 && same_path(&out[n - 1].path, &e.path) {
            out.set(n - 1, e);
            assert(entries_view(out@) =~= r.update(r.len() - 1, e@));
        } else {
            out.push(e);
            assert(entries_view(out@) =~= r.push(e@));
        }
        i += 1;
    }
    assert(sv.take(sorted@.len() as int) == sv);
}

impl Fileset {
    /// Puts the files in load order, each path once: where files of several
    /// kinds have the same path, the one of the latest kind is kept. Each
    /// kept file is stored in the path table, in that order, and gets a
    /// file name token.
    pub fn finalize(&mut self, table: &mut PathTable)
        requires
            old(table)@.len() + old(self).ordered_files@.len() + old(self).files@.len() < u32::MAX,
            forall|k: int| 0 <= k < old(self).ordered_files@.len() ==> (#[trigger] old(self).ordered_files@[k])@.idx is None,
        ensures
            ({
                let kept = keep_last(entries_view(old(self).ordered_files@), insertion_sort(entries_view(old(self).files@), entry_lt_fn()));
                let base = old(table)@.len();
                &&& entries_view(final(self).ordered_files@) == with_idx(kept, base)
                &&& final(table)@ == old(table)@ + table_entries(kept)
                &&& final(self).filename_tokens@.len() == old(self).filename_tokens@.len() + kept.len()
                &&& forall|k: int| 0 <= k < kept.len() ==> {
                    let t = #[trigger] final(self).filename_tokens@[old(self).filename_tokens@.len() + k];
                    t.s@ == kept[k].path.last() && t.loc == entry_loc(with_idx(kept, base)[k])
                }
                &&& forall|k: int| 0 <= k < old(self).filename_tokens@.len() ==> final(self).filename_tokens@[k] == old(self).filename_tokens@[k]
            }),
            final(self).files@.len() == 0,
            final(self).the_mod == old(self).the_mod,
            final(self).loaded_mods == old(self).loaded_mods,
            final(self).loaded_dlcs == old(self).loaded_dlcs,
            final(self).used == old(self).used,
    {
        let sorted = sort_entries(&self.files);
        let mut kept: Vec<FileEntry> = Vec::new();
        std::mem::swap(&mut kept, &mut self.ordered_files);
        proof {
            crate::order::law_insertion_sort_permutes(entries_view(old(self).files@), entry_lt_fn());
        }
        keep_last_entries(&mut kept, sorted);
        proof {
            lemma_keep_last_len(entries_view(old(self).ordered_files@), insertion_sort(entries_view(old(self).files@), entry_lt_fn()));
        }
        let ghost kv = entries_view(kept@);
        let ghost base = table@.len();
        let ghost tokens0 = self.filename_tokens@;
        let mut ordered: Vec<FileEntry> = Vec::new();
        let mut i: usize = 0;
        while i < kept.len()
            invariant
                i <= kept@.len(),
                kv == entries_view(kept@),
                base + kv.len() < u32::MAX,
                table@.len() == base + i,
                table@ == old(table)@ + table_entries(kv.take(i as int)),
                base == old(table)@.len(),
                entries_view(ordered@) == with_idx(kv, base).take(i as int),
                self.filename_tokens@.len() == tokens0.len() + i,
                forall|k: int| 0 <= k < i ==> {
                    let t = #[trigger] self.filename_tokens@[tokens0.len() + k];
                    t.s@ == kv[k].path.last() && t.loc == entry_loc(with_idx(kv, base)[k])
                },
                forall|k: int| 0 <= k < tokens0.len() ==> self.filename_tokens@[k] == tokens0[k],
                self.the_mod == old(self).the_mod,
                self.loaded_mods == old(self).loaded_mods,
                self.loaded_dlcs == old(self).loaded_dlcs,
                self.used == old(self).used,
                self.files == old(self).files,
            decreases kept.len() - i,
        {
            let mut e = kept[i].duplicate();
            proof {
                use_type_invariant(&e);
            }
            let ghost before = table@;
            let idx = table.store(path_string(&e.path), from_chars(&to_chars(e.fullpath.as_str())));
            assert(table@ =~= old(table)@ + table_entries(kv.take(i + 1)));
            e.idx = Some(idx);
            assert(e@ == with_idx(kv, base)[i as int]);
            let ghost ev = e@;
            let name = from_chars(&to_chars(e.filename().as_str()));
            let t = crate::token::Token::new(name, e.loc());
            self.filename_tokens.push(t);
            let ghost ob = ordered@;
            ordered.push(e);
            assert(entries_view(ordered@) =~= entries_view(ob).push(ev));
            assert(entries_view(ordered@) =~= with_idx(kv, base).take(i + 1));
            i += 1;
        }
        self.ordered_files = ordered;
        self.files = Vec::new();
    }
}

proof fn lemma_keep_last_len(init: Seq<FileEntryV>, s: Seq<FileEntryV>)
    ensures
        keep_last(init, s).len() <= init.len() + s.len(),
    decreases s.len(),
{
    if s.len() > 0 {
        lemma_keep_last_len(init, s.drop_last());
    }
}

/// `s` without one leading `/`.
pub open spec fn strip_slash(s: Seq<char>) -> Seq<char> {
    if s.len() > 0 && s[0] == '/' { s.drop_first() } else { s }
}

/// The parts that are not empty, in order.
pub open spec fn nonempty_parts(parts: Seq<Seq<char>>) -> Seq<Seq<char>>
    decreases parts.len(),
{
    if parts.len() == 0 {
        parts
    } else if parts.last().len() > 0 {
        nonempty_parts(parts.drop_last()).push(parts.last())
    } else {
        nonempty_parts(parts.drop_last())
    }
}

/// The components of a path written with `/` between them.
pub open spec fn key_path(s: Seq<char>) -> Seq<Seq<char>> {
    nonempty_parts(split_seq(s, '/'))
}

/// The text with each `\` turned into `/`.
pub open spec fn backslash_to_slash(s: Seq<char>) -> Seq<char> {
    s.map_values(|c: char| if c == '\\' { '/' } else { c })
}

/// The path that a file name given in script is looked up as: without a
/// leading `/`, and in Hearts of Iron IV with `\` read as `/`.
pub open spec fn lookup_path(game: Game, key: Seq<char>) -> Seq<Seq<char>> {
    let k = strip_slash(key);
    key_path(if game is Hoi4 && k.contains('\\') { backslash_to_slash(k) } else { k })
}

pub open spec fn ordered_paths(s: Seq<FileEntry>) -> Seq<Seq<Seq<char>>> {
    s.map_values(|e: FileEntry| e@.path)
}

/// The index of the first path in `paths` from `k` on that is not less
/// than `p`, or the number of paths.
pub open spec fn first_not_below_from(paths: Seq<Seq<Seq<char>>>, p: Seq<Seq<char>>, k: int) -> int
    decreases paths.len() - k,
{
    if k >= paths.len() || k < 0 {
        paths.len() as int
    } else if path_order(paths[k], p) >= 0 {
        k
    } else {
        first_not_below_from(paths, p, k + 1)
    }
}

/// The index of the first path in `paths` that is not less than `p`, or the
/// number of paths.
pub open spec fn first_not_below(paths: Seq<Seq<Seq<char>>>, p: Seq<Seq<char>>) -> int {
    first_not_below_from(paths, p, 0)
}

/// The index of the first path at or after `start` that does not begin
/// with `p`, or the number of paths.
pub open spec fn end_of_run(paths: Seq<Seq<Seq<char>>>, p: Seq<Seq<char>>, start: int) -> int
    decreases paths.len() - start,
{
    if start >= paths.len() || start < 0 {
        paths.len() as int
    } else if !path_starts_with(paths[start], p) {
        start
    } else {
        end_of_run(paths, p, start + 1)
    }
}

proof fn lemma_first_not_below_from(paths: Seq<Seq<Seq<char>>>, p: Seq<Seq<char>>, k: int)
    requires
        0 <= k <= paths.len(),
    ensures
        k <= first_not_below_from(paths, p, k) <= paths.len(),
        forall|m: int| k <= m < first_not_below_from(paths, p, k) ==> path_order(#[trigger] paths[m], p) < 0,
        first_not_below_from(paths, p, k) < paths.len() ==> path_order(paths[first_not_below_from(paths, p, k)], p) >= 0,
    decreases paths.len() - k,
{
    if k < paths.len() && path_order(paths[k], p) < 0 {
        lemma_first_not_below_from(paths, p, k + 1);
    }
}

proof fn lemma_first_not_below(paths: Seq<Seq<Seq<char>>>, p: Seq<Seq<char>>)
    ensures
        0 <= first_not_below(paths, p) <= paths.len(),
        forall|m: int| 0 <= m < first_not_below(paths, p) ==> path_order(#[trigger] paths[m], p) < 0,
        first_not_below(paths, p) < paths.len() ==> path_order(paths[first_not_below(paths, p)], p) >= 0,
{
    lemma_first_not_below_from(paths, p, 0);
}

/// The components of a path written with `/` between them.
fn path_of_key(k: &Vec<char>) -> (res: Vec<String>)
    ensures
        path_view(res@) == key_path(k@),
{
    let parts = split_chars(k, '/');
    let ghost sp = split_seq(k@, '/');
    let mut res: Vec<String> = Vec::new();
    let mut i: usize = 0;
    while i < parts.len()
        invariant
            i <= parts@.len(),
            sp == split_seq(k@, '/'),
            parts@.len() == sp.len(),
            forall|j: int| 0 <= j < parts@.len() ==> #[trigger] parts@[j]@ == sp[j],
            path_view(res@) == nonempty_parts(sp.take(i as int)),
        decreases parts.len() - i,
    {
        assert(sp.take(i + 1).drop_last() == sp.take(i as int));
        assert(sp.take(i + 1).last() == parts@[i as int]@);
        if parts[i].len() > 0 {
            let ghost before = res@;
            res.push(from_chars(&parts[i]));
            assert(path_view(res@) =~= path_view(before).push(parts@[i as int]@));
        }
        i += 1;
    }
    assert(sp.take(sp.len() as int) == sp);
    res
}

/// The path that a file name given in script is looked up as (see
/// [`lookup_path`]).
fn lookup_key(game: Game, key: &str) -> (res: Vec<String>)
    ensures
        path_view(res@) == lookup_path(game, key@),
{
    let v = to_chars(key);
    let mut k: Vec<char> = Vec::new();
    let start: usize = if v.len() > 0 && v[0] == '/' { 1 } else { 0 };
    let mut i = start;
    while i < v.len()
        invariant
            start <= i <= v@.len(),
            start == (if v@.len() > 0 && v@[0] == '/' { 1usize } else { 0usize }),
            k@ == v@.subrange(start as int, i as int),
        decreases v.len() - i,
    {
        k.push(v[i]);
        i += 1;
    }
    assert(k@ =~= strip_slash(key@));
    let mut has_backslash = false;
    let mut j: usize = 0;
    while j < k.len()
        invariant
            j <= k@.len(),
            has_backslash == exists|m: int| 0 <= m < j && k@[m] == '\\',
        decreases k.len() - j,
    {
        if k[j] == '\\' {
            has_backslash = true;
        }
        j += 1;
    }
    assert(has_backslash == k@.contains('\\'));
    if game == Game::Hoi4 && has_backslash {
        let mut f: Vec<char> = Vec::new();
        let mut m: usize = 0;
        while m < k.len()
            invariant
                m <= k@.len(),
                f@ == backslash_to_slash(k@).take(m as int),
            decreases k.len() - m,
        {
            f.push(if k[m] == '\\' { '/' } else { k[m] });
            assert(f@ =~= backslash_to_slash(k@).take(m + 1));
            m += 1;
        }
        assert(f@ =~= backslash_to_slash(k@));
        path_of_key(&f)
    } else {
        path_of_key(&k)
    }
}

/// Whether `v` holds exactly the characters of `s`.
fn chars_are(v: &String, s: &String) -> (res: bool)
    ensures
        res == (v@ == s@),
{
    chars_eq(&to_chars(v.as_str()), &to_chars(s.as_str()))
}

/// The file name that `mark_used` records: without a leading `/`.
pub open spec fn used_name(file: Seq<char>) -> Seq<char> {
    strip_slash(file)
}

/// `s` with each `//` turned into `/`, scanning from the left (std's
/// `str::replace`).
pub open spec fn single_slashes(s: Seq<char>) -> Seq<char>
    decreases s.len(),
{
    if s.len() >= 2 && s[0] == '/' && s[1] == '/' {
        seq!['/'] + single_slashes(s.skip(2))
    } else if s.len() == 0 {
        s
    } else {
        seq![s[0]] + single_slashes(s.drop_first())
    }
}

pub open spec fn used_view(s: Seq<String>) -> Seq<Seq<char>> {
    s.map_values(|u: String| u@)
}

/// The used-file list after recording `name`: it is added unless it is there.
pub open spec fn spec_mark_used(used: Seq<Seq<char>>, name: Seq<char>) -> Seq<Seq<char>> {
    if used.contains(name) { used } else { used.push(name) }
}

fn collapse_slashes(s: &str) -> (res: String)
    ensures
        res@ == single_slashes(s@),
{
    let v = to_chars(s);
    let mut out: Vec<char> = Vec::new();
    let mut i: usize = 0;
    assert(v@.skip(0) =~= v@);
    assert(out@ + single_slashes(v@.skip(0)) =~= single_slashes(v@));
    while i < v.len()
        invariant
            i <= v@.len(),
            out@ + single_slashes(v@.skip(i as int)) == single_slashes(v@),
        decreases v.len() - i,
    {
        assert(v@.skip(i as int).len() > 0);
        if i + 1 < v.len() && v[i] == '/' && v[i + 1] == '/' {
            out.push('/');
            assert(v@.skip(i as int).skip(2) == v@.skip(i + 2));
            assert(out@ + single_slashes(v@.skip(i + 2)) =~= single_slashes(v@));
            i += 2;
        } else {
            out.push(v[i]);
            assert(v@.skip(i as int).drop_first() == v@.skip(i + 1));
            assert(out@ + single_slashes(v@.skip(i + 1)) =~= single_slashes(v@));
            i += 1;
        }
    }
    assert(v@.skip(v@.len() as int) =~= Seq::<char>::empty());
    assert(out@ =~= single_slashes(v@));
    from_chars(&out)
}

impl Fileset {
    /// Records that the file `file` was looked up (see [`spec_mark_used`]).
    #[verifier::loop_isolation(false)]
    pub fn mark_used(&mut self, file: &str)
        ensures
            used_view(final(self).used@) == spec_mark_used(used_view(old(self).used@), used_name(file@)),
            final(self).ordered_files == old(self).ordered_files,
            final(self).files == old(self).files,
            final(self).filename_tokens == old(self).filename_tokens,
    {
        let v = to_chars(file);
        let mut k: Vec<char> = Vec::new();
        let start: usize = if v.len() > 0 && v[0] == '/' { 1 } else { 0 };
        let mut i = start;
        while i < v.len()
            invariant
                start <= i <= v@.len(),
                start == (if v@.len() > 0 && v@[0] == '/' { 1usize } else { 0usize }),
                k@ == v@.subrange(start as int, i as int),
            decreases v.len() - i,
        {
            k.push(v[i]);
            i += 1;
        }
        assert(k@ =~= used_name(file@));
        let name = from_chars(&k);
        let ghost uv = used_view(self.used@);
        let mut j: usize = 0;
        while j < self.used.len()
            invariant
                j <= self.used@.len(),
                uv == used_view(self.used@),
                forall|m: int| 0 <= m < j ==> uv[m] != name@,
            decreases self.used.len() - j,
        {
            assert(uv[j as int] == self.used@[j as int]@);
            if chars_are(&self.used[j], &name) {
                assert(uv.contains(name@));
                return;
            }
            j += 1;
        }
        let ghost before = self.used@;
        self.used.push(name);
        assert(used_view(self.used@) =~= used_view(before).push(used_name(file@)));
    }

    /// Whether a file is among the files of the validation, looked up as
    /// [`lookup_path`] says.
    pub fn file_exists(&self, game: Game, key: &str) -> (res: bool)
        ensures
            res == ordered_paths(self.ordered_files@).contains(lookup_path(game, key@)),
    {
        let p = lookup_key(game, key);
        let ghost ps = ordered_paths(self.ordered_files@);
        let mut i: usize = 0;
        while i < self.ordered_files.len()
            invariant
                i <= self.ordered_files@.len(),
                ps == ordered_paths(self.ordered_files@),
                path_view(p@) == lookup_path(game, key@),
                forall|m: int| 0 <= m < i ==> ps[m] != path_view(p@),
            decreases self.ordered_files.len() - i,
        {
            let e = &self.ordered_files[i];
            assert(ps[i as int] == e@.path);
            if same_path(&e.path, &p) {
                assert(ps.contains(path_view(p@)));
                return true;
            }
            i += 1;
        }
        false
    }

    /// The index of the first file whose path is not less than `p`.
    fn first_not_below(&self, p: &Vec<String>) -> (res: usize)
        ensures
            res as int == first_not_below(ordered_paths(self.ordered_files@), path_view(p@)),
    {
        let ghost ps = ordered_paths(self.ordered_files@);
        proof {
            lemma_first_not_below(ps, path_view(p@));
        }
        let mut i: usize = 0;
        while i < self.ordered_files.len()
            invariant
                i <= self.ordered_files@.len(),
                ps == ordered_paths(self.ordered_files@),
                forall|k: int| 0 <= k < i ==> path_order(#[trigger] ps[k], path_view(p@)) < 0,
            decreases self.ordered_files.len() - i,
        {
            assert(ps[i as int] == self.ordered_files@[i as int]@.path);
            if compare_paths(&self.ordered_files[i].path, p) >= 0 {
                proof {
                    lemma_first_not_below_is(ps, path_view(p@), i as int);
                }
                return i;
            }
            i += 1;
        }
        proof {
            lemma_first_not_below_is(ps, path_view(p@), i as int);
        }
        i
    }

    /// The files whose paths begin with `subpath`: the run of them that
    /// starts at the first file whose path is not less than `subpath` (on
    /// files in load order, all of them).
    pub fn get_files_under(&self, subpath: &Vec<String>) -> (res: Vec<&FileEntry>)
        ensures
            ({
                let ps = ordered_paths(self.ordered_files@);
                let start = first_not_below(ps, path_view(subpath@));
                let end = end_of_run(ps, path_view(subpath@), start);
                &&& res@.len() == end - start
                &&& forall|k: int| 0 <= k < res@.len() ==> *(#[trigger] res@[k]) == self.ordered_files@[start + k]
            }),
    {
        let ghost ps = ordered_paths(self.ordered_files@);
        let start = self.first_not_below(subpath);
        proof {
            lemma_first_not_below(ps, path_view(subpath@));
        }
        let mut res: Vec<&FileEntry> = Vec::new();
        let mut i = start;
        while i < self.ordered_files.len() && starts_with(&self.ordered_files[i].path, subpath)
            invariant
                start <= i <= self.ordered_files@.len(),
                ps == ordered_paths(self.ordered_files@),
                end_of_run(ps, path_view(subpath@), start as int) == end_of_run(ps, path_view(subpath@), i as int),
                res@.len() == i - start,
                forall|k: int| 0 <= k < res@.len() ==> *(#[trigger] res@[k]) == self.ordered_files@[start + k],
            decreases self.ordered_files.len() - i,
        {
            assert(ps[i as int] == self.ordered_files@[i as int]@.path);
            res.push(&self.ordered_files[i]);
            i += 1;
        }
        if i < self.ordered_files.len() {
            assert(ps[i as int] == self.ordered_files@[i as int]@.path);
        }
        res
    }

    /// The file name tokens of the files, in load order.
    pub fn iter_keys(&self) -> (res: Vec<&Token>)
        ensures
            res@.len() == self.filename_tokens@.len(),
            forall|k: int| 0 <= k < res@.len() ==> *(#[trigger] res@[k]) == self.filename_tokens@[k],
    {
        let mut res: Vec<&Token> = Vec::new();
        let mut i: usize = 0;
        while i < self.filename_tokens.len()
            invariant
                i <= self.filename_tokens@.len(),
                res@.len() == i,
                forall|k: int| 0 <= k < i ==> *(#[trigger] res@[k]) == self.filename_tokens@[k],
            decreases self.filename_tokens.len() - i,
        {
            res.push(&self.filename_tokens[i]);
            i += 1;
        }
        res
    }
}

proof fn lemma_first_not_below_is(paths: Seq<Seq<Seq<char>>>, p: Seq<Seq<char>>, j: int)
    requires
        0 <= j <= paths.len(),
        forall|k: int| 0 <= k < j ==> path_order(#[trigger] paths[k], p) < 0,
        j < paths.len() ==> path_order(paths[j], p) >= 0,
    ensures
        first_not_below(paths, p) == j,
{
    lemma_first_not_below(paths, p);
    let f = first_not_below(paths, p);
    if f < j {
        assert(path_order(paths[f], p) < 0);
    } else if j < f {
        assert(path_order(paths[j], p) < 0);
    }
}

/// `s` capped at `max` (see [`Severity::at_most`]).
pub open spec fn capped(s: Severity, max: Severity) -> Severity {
    if sev_rank(s) <= sev_rank(max) { s } else { max }
}

/// A report of the kind and message at one location, with nothing else.
pub open spec fn plain_report(key: ErrorKey, severity: Severity, msg: Seq<char>) -> MetadataV {
    MetadataV { key, severity, confidence: Confidence::Reasonable, msg, info: None, wiki: None, style: LogReportStyle::Full }
}

pub open spec fn at(loc: Loc) -> Seq<PointedMessageV> {
    seq![PointedMessageV { loc, length: 1, msg: None }]
}

/// Whether `key` names a file, or a directory holding a file: the first
/// path not less than the directory begins with it.
pub open spec fn spec_entry_exists(ps: Seq<Seq<Seq<char>>>, game: Game, key: Seq<char>) -> bool {
    ps.contains(lookup_path(game, key)) || {
        let d = key_path(strip_slash(key));
        let i = first_not_below(ps, d);
        0 <= i < ps.len() && path_starts_with(ps[i], d)
    }
}

/// What looking up `key` as a directory needs: that some path is not less
/// than it, and that none is equal to it, unless `key` names a file.
pub open spec fn entry_lookup_ok(ps: Seq<Seq<Seq<char>>>, game: Game, key: Seq<char>) -> bool {
    ps.contains(lookup_path(game, key)) || {
        let d = key_path(strip_slash(key));
        let i = first_not_below(ps, d);
        i < ps.len() && ps[i] != d
    }
}

impl Fileset {
    /// Whether `key` names a file or a directory holding files (see
    /// [`spec_entry_exists`]).
    pub fn entry_exists(&self, game: Game, key: &str) -> (res: bool)
        requires
            entry_lookup_ok(ordered_paths(self.ordered_files@), game, key@),
        ensures
            res == spec_entry_exists(ordered_paths(self.ordered_files@), game, key@),
    {
        if self.file_exists(game, key) {
            return true;
        }
        let ghost ps = ordered_paths(self.ordered_files@);
        let v = to_chars(key);
        let mut k: Vec<char> = Vec::new();
        let start: usize = if v.len() > 0 && v[0] == '/' { 1 } else { 0 };
        let mut i = start;
        while i < v.len()
            invariant
                start <= i <= v@.len(),
                start == (if v@.len() > 0 && v@[0] == '/' { 1usize } else { 0usize }),
                k@ == v@.subrange(start as int, i as int),
            decreases v.len() - i,
        {
            k.push(v[i]);
            i += 1;
        }
        assert(k@ =~= strip_slash(key@));
        let d = path_of_key(&k);
        let idx = self.first_not_below(&d);
        assert(ps[idx as int] == self.ordered_files@[idx as int]@.path);
        starts_with(&self.ordered_files[idx].path, &d)
    }

    /// Whether `key` can be looked up by [`Fileset::entry_exists`] (see
    /// [`entry_lookup_ok`]): it names a file, or some path is not less than
    /// it and the first such path is not equal to it.
    pub fn can_look_up_entry(&self, game: Game, key: &str) -> (res: bool)
        ensures
            res == entry_lookup_ok(ordered_paths(self.ordered_files@), game, key@),
    {
        if self.file_exists(game, key) {
            return true;
        }
        let ghost ps = ordered_paths(self.ordered_files@);
        let v = to_chars(key);
        let mut k: Vec<char> = Vec::new();
        let start: usize = if v.len() > 0 && v[0] == '/' { 1 } else { 0 };
        let mut i = start;
        while i < v.len()
            invariant
                start <= i <= v@.len(),
                start == (if v@.len() > 0 && v@[0] == '/' { 1usize } else { 0usize }),
                k@ == v@.subrange(start as int, i as int),
            decreases v.len() - i,
        {
            k.push(v[i]);
            i += 1;
        }
        assert(k@ =~= strip_slash(key@));
        let d = path_of_key(&k);
        let idx = self.first_not_below(&d);
        if idx >= self.ordered_files.len() {
            return false;
        }
        assert(ps[idx as int] == self.ordered_files@[idx as int]@.path);
        !same_path(&self.ordered_files[idx].path, &d)
    }

    /// Records `entry` as used, and reports it if it names neither a file
    /// nor a directory holding files.
    pub fn verify_entry_exists(
        &mut self,
        game: Game,
        entry: &str,
        token: &Token,
        max_sev: Severity,
        errors: &mut Errors,
        map: &MacroMap,
    )
        requires
            entry_lookup_ok(ordered_paths(old(self).ordered_files@), game, entry@),
            old(errors).wf(),
            map.wf(),
        ensures
            used_view(final(self).used@) == spec_mark_used(used_view(old(self).used@), used_name(single_slashes(entry@))),
            final(self).ordered_files == old(self).ordered_files,
            final(errors).wf(),
            final(errors).store() == if spec_entry_exists(ordered_paths(old(self).ordered_files@), game, entry@) {
                old(errors).store()
            } else {
                spec_log(
                    *old(errors),
                    map.locs@,
                    plain_report(
                        ErrorKey::MissingFile,
                        capped(crate::item::spec_item_severity(Item::File, game), max_sev),
                        "file or directory "@ + entry@ + " does not exist"@,
                    ),
                    at(token.loc),
                )
            },
    {
        let name = collapse_slashes(entry);
        self.mark_used(name.as_str());
        if !self.entry_exists(game, entry) {
            let mut msg: Vec<char> = Vec::new();
            push_str(&mut msg, "file or directory ");
            push_str(&mut msg, entry);
            push_str(&mut msg, " does not exist");
            let b = report(ErrorKey::MissingFile, Item::File.severity(game).at_most(max_sev)).msg(from_chars(&msg)).loc(token.loc);
            assert(msg@ =~= "file or directory "@ + entry@ + " does not exist"@);
            assert(ptrs_view(b.pointers@) =~= at(token.loc));
            assert(b.pointers@.len() == ptrs_view(b.pointers@).len());
            b.push(errors, map);
        }
    }

    /// Records `file` as used, and reports it, at `t`, if it is not a file.
    pub fn verify_exists_implied(
        &mut self,
        game: Game,
        file: &str,
        t: &Token,
        max_sev: Severity,
        errors: &mut Errors,
        map: &MacroMap,
    )
        requires
            old(errors).wf(),
            map.wf(),
        ensures
            used_view(final(self).used@) == spec_mark_used(used_view(old(self).used@), used_name(single_slashes(file@))),
            final(self).ordered_files == old(self).ordered_files,
            final(errors).wf(),
            final(errors).store() == if ordered_paths(old(self).ordered_files@).contains(lookup_path(game, file@)) {
                old(errors).store()
            } else {
                spec_log(
                    *old(errors),
                    map.locs@,
                    plain_report(
                        ErrorKey::MissingFile,
                        capped(crate::item::spec_item_severity(Item::File, game), max_sev),
                        "file "@ + file@ + " does not exist"@,
                    ),
                    at(t.loc),
                )
            },
    {
        let name = collapse_slashes(file);
        self.mark_used(name.as_str());
        if !self.file_exists(game, file) {
            let mut msg: Vec<char> = Vec::new();
            push_str(&mut msg, "file ");
            push_str(&mut msg, file);
            push_str(&mut msg, " does not exist");
            let b = report(ErrorKey::MissingFile, Item::File.severity(game).at_most(max_sev)).msg(from_chars(&msg)).loc(t.loc);
            assert(msg@ =~= "file "@ + file@ + " does not exist"@);
            assert(ptrs_view(b.pointers@) =~= at(t.loc));
            assert(b.pointers@.len() == ptrs_view(b.pointers@).len());
            b.push(errors, map);
        }
    }

    /// Records the file named by `file` as used, and reports `file` if it is
    /// not a file.
    pub fn verify_exists(&mut self, game: Game, file: &Token, errors: &mut Errors, map: &MacroMap)
        requires
            old(errors).wf(),
            map.wf(),
        ensures
            used_view(final(self).used@) == spec_mark_used(used_view(old(self).used@), used_name(single_slashes(file.s@))),
            final(self).ordered_files == old(self).ordered_files,
            final(errors).wf(),
            final(errors).store() == if ordered_paths(old(self).ordered_files@).contains(lookup_path(game, file.s@)) {
                old(errors).store()
            } else {
                spec_log(
                    *old(errors),
                    map.locs@,
                    plain_report(
                        ErrorKey::MissingFile,
                        crate::item::spec_item_severity(Item::File, game),
                        "referenced file does not exist"@,
                    ),
                    at(file.loc),
                )
            },
    {
        let name = collapse_slashes(file.as_str());
        self.mark_used(name.as_str());
        if !self.file_exists(game, file.as_str()) {
            let b = report(ErrorKey::MissingFile, Item::File.severity(game))
                .msg(from_chars(&to_chars("referenced file does not exist")))
                .loc(file.loc);
            assert(ptrs_view(b.pointers@) =~= at(file.loc));
            assert(b.pointers@.len() == ptrs_view(b.pointers@).len());
            b.push(errors, map);
        }
    }

    /// Records `file` as used, and reports it, at `t`, as a crash of the
    /// game if it is not a file.
    pub fn verify_exists_implied_crashes(&mut self, game: Game, file: &str, t: &Token, errors: &mut Errors, map: &MacroMap)
        requires
            old(errors).wf(),
            map.wf(),
        ensures
            used_view(final(self).used@) == spec_mark_used(used_view(old(self).used@), used_name(single_slashes(file@))),
            final(self).ordered_files == old(self).ordered_files,
            final(errors).wf(),
            final(errors).store() == if ordered_paths(old(self).ordered_files@).contains(lookup_path(game, file@)) {
                old(errors).store()
            } else {
                spec_log(
                    *old(errors),
                    map.locs@,
                    plain_report(ErrorKey::Crash, Severity::Fatal, "file "@ + file@ + " does not exist"@),
                    at(t.loc),
                )
            },
    {
        let name = collapse_slashes(file);
        self.mark_used(name.as_str());
        if !self.file_exists(game, file) {
            let mut msg: Vec<char> = Vec::new();
            push_str(&mut msg, "file ");
            push_str(&mut msg, file);
            push_str(&mut msg, " does not exist");
            let b = fatal(ErrorKey::Crash).msg(from_chars(&msg)).loc(t.loc);
            assert(msg@ =~= "file "@ + file@ + " does not exist"@);
            assert(ptrs_view(b.pointers@) =~= at(t.loc));
            assert(b.pointers@.len() == ptrs_view(b.pointers@).len());
            b.push(errors, map);
        }
    }
}

/// The index of the last `.` in `f`, or -1.
pub open spec fn last_dot(f: Seq<char>) -> int
    decreases f.len(),
{
    if f.len() == 0 {
        -1
    } else if f.last() == '.' {
        f.len() - 1
    } else {
        last_dot(f.drop_last())
    }
}

/// The extension of a file name (std's `Path::extension`): what follows its
/// last `.`, unless it has none or its only one starts it.
pub open spec fn file_extension(f: Seq<char>) -> Option<Seq<char>> {
    let i = last_dot(f);
    if i <= 0 { None } else { Some(f.skip(i + 1)) }
}

pub open spec fn loading_screens_dir() -> Seq<Seq<char>> {
    seq!["gfx"@, "interface"@, "illustrations"@, "loading_screens"@]
}

/// Whether the file is a `.dds` image (in any case), outside the loading
/// screen illustrations, that nothing looked up.
pub open spec fn dds_unused(e: FileEntryV, used: Seq<Seq<char>>) -> bool {
    &&& e.path.len() > 0
    &&& match file_extension(e.path.last()) {
        Some(x) => lower_seq(x) == "dds"@,
        None => false,
    }
    &&& !path_starts_with(e.path, loading_screens_dir())
    &&& !used.contains(path_text(e.path))
}

/// The report of an unused DDS file.
pub open spec fn unused_dds_report(e: FileEntryV) -> (MetadataV, Seq<PointedMessageV>) {
    (
        MetadataV {
            key: ErrorKey::UnusedFile,
            severity: Severity::Untidy,
            confidence: Confidence::Reasonable,
            msg: "Unused DDS files"@,
            info: None,
            wiki: None,
            style: LogReportStyle::Abbreviated,
        },
        at(entry_loc(e)),
    )
}

/// The reports of the unused DDS files among `s`, in order.
pub open spec fn unused_dds_reports(s: Seq<FileEntryV>, used: Seq<Seq<char>>) -> Seq<(MetadataV, Seq<PointedMessageV>)>
    decreases s.len(),
{
    if s.len() == 0 {
        Seq::empty()
    } else if dds_unused(s.last(), used) {
        unused_dds_reports(s.drop_last(), used).push(unused_dds_report(s.last()))
    } else {
        unused_dds_reports(s.drop_last(), used)
    }
}

proof fn lemma_last_dot(f: Seq<char>)
    ensures
        -1 <= last_dot(f) < f.len(),
    decreases f.len(),
{
    if f.len() > 0 {
        lemma_last_dot(f.drop_last());
    }
}

/// The index of the last `.` in `f`, or -1.
fn find_last_dot(f: &Vec<char>) -> (res: Option<usize>)
    ensures
        match res {
            Some(i) => i as int == last_dot(f@),
            None => last_dot(f@) == -1,
        },
{
    let mut i: usize = f.len();
    assert(f@.take(i as int) =~= f@);
    while i > 0
        invariant
            i <= f@.len(),
            last_dot(f@) == last_dot(f@.take(i as int)),
        decreases i,
    {
        assert(f@.take(i as int).drop_last() == f@.take(i - 1));
        if f[i - 1] == '.' {
            return Some(i - 1);
        }
        i -= 1;
    }
    None
}

/// Whether the file is an unused `.dds` image (see [`dds_unused`]).
#[verifier::loop_isolation(false)]
fn is_unused_dds(e: &FileEntry, used: &Vec<String>) -> (res: bool)
    ensures
        res == dds_unused(e@, used_view(used@)),
{
    proof {
        use_type_invariant(e);
    }
    let f = to_chars(e.filename().as_str());
    let d = match find_last_dot(&f) {
        Some(d) => d,
        None => return false,
    };
    if d == 0 {
        return false;
    }
    proof {
        lemma_last_dot(f@);
    }
    assert(d < f.len());
    let mut ext: Vec<char> = Vec::new();
    let mut i = d + 1;
    while i < f.len()
        invariant
            d + 1 <= i <= f@.len(),
            ext@ == lower_seq(f@.skip(d + 1)).take(i - d - 1),
        decreases f.len() - i,
    {
        ext.push(to_ascii_lower(f[i]));
        assert(ext@ =~= lower_seq(f@.skip(d + 1)).take(i - d));
        i += 1;
    }
    assert(ext@ =~= lower_seq(f@.skip(d + 1)));
    let dds = to_chars("dds");
    if !chars_eq(&ext, &dds) {
        return false;
    }
    let mut dir: Vec<String> = Vec::new();
    dir.push(from_chars(&to_chars("gfx")));
    dir.push(from_chars(&to_chars("interface")));
    dir.push(from_chars(&to_chars("illustrations")));
    dir.push(from_chars(&to_chars("loading_screens")));
    assert(path_view(dir@) =~= loading_screens_dir());
    if starts_with(&e.path, &dir) {
        return false;
    }
    let text = path_string(&e.path);
    let ghost uv = used_view(used@);
    let mut j: usize = 0;
    while j < used.len()
        invariant
            j <= used@.len(),
            uv == used_view(used@),
            forall|m: int| 0 <= m < j ==> uv[m] != text@,
        decreases used.len() - j,
    {
        assert(uv[j as int] == used@[j as int]@);
        if chars_are(&used[j], &text) {
            assert(uv.contains(text@));
            return false;
        }
        j += 1;
    }
    true
}

impl Fileset {
    /// Reports each `.dds` image that nothing looked up, except the loading
    /// screen illustrations (see [`unused_dds_reports`]).
    pub fn check_unused_dds(&self, errors: &mut Errors, map: &MacroMap)
        requires
            old(errors).wf(),
            map.wf(),
        ensures
            final(errors).wf(),
            final(errors).store() == log_all(
                *old(errors),
                map.locs@,
                unused_dds_reports(entries_view(self.ordered_files@), used_view(self.used@)),
            ),
    {
        let ghost ev = entries_view(self.ordered_files@);
        let ghost uv = used_view(self.used@);
        let mut i: usize = 0;
        while i < self.ordered_files.len()
            invariant
                i <= self.ordered_files@.len(),
                ev == entries_view(self.ordered_files@),
                uv == used_view(self.used@),
                errors.wf(),
                map.wf(),
                errors.filter == old(errors).filter,
                errors.suppressions() == old(errors).suppressions(),
                errors.cache@ == old(errors).cache@,
                errors.store() == log_all(*old(errors), map.locs@, unused_dds_reports(ev.take(i as int), uv)),
            decreases self.ordered_files.len() - i,
        {
            let e = &self.ordered_files[i];
            assert(ev.take(i + 1).drop_last() == ev.take(i as int));
            assert(ev.take(i + 1).last() == e@);
            if is_unused_dds(e, &self.used) {
                let b = report(ErrorKey::UnusedFile, Severity::Untidy).msg(from_chars(&to_chars("Unused DDS files"))).abbreviated(e.loc());
                assert(ptrs_view(b.pointers@) =~= at(entry_loc(e@)));
                assert(b.metadata@ == unused_dds_report(e@).0);
                assert(unused_dds_reports(ev.take(i + 1), uv).drop_last() == unused_dds_reports(ev.take(i as int), uv));
                assert(b.pointers@.len() == ptrs_view(b.pointers@).len());
                let ghost before = *errors;
                b.push(errors, map);
                proof {
                    lemma_log_onto(*old(errors), before, map.locs@, b.metadata@, ptrs_view(b.pointers@));
                }
            }
            i += 1;
        }
        assert(ev.take(ev.len() as int) == ev);
    }
}

pub open spec fn common_dir() -> Seq<Seq<char>> {
    seq!["common"@]
}

/// The paths of a table of directory names.
pub open spec fn table_paths(v: Seq<&'static str>) -> Seq<Seq<Seq<char>>> {
    v.map_values(|t: &'static str| key_path(t@))
}

/// Whether `p` begins with one of `dirs`.
pub open spec fn under_any(p: Seq<Seq<char>>, dirs: Seq<Seq<Seq<char>>>) -> bool {
    exists|k: int| 0 <= k < dirs.len() && path_starts_with(p, #[trigger] dirs[k])
}

pub open spec fn ends_with_txt(t: Seq<char>) -> bool {
    t.len() >= 4 && t.skip(t.len() - 4) == ".txt"@
}

/// The error about a file in a directory of `common/` that the game does not
/// read, with a hint where the file belongs when one is known.
pub open spec fn misplaced_msg(game: Game, p: Seq<Seq<char>>, dirname: Seq<Seq<char>>) -> Seq<char> {
    if path_starts_with(p, seq!["common"@, "scripted_values"@]) {
        "file should be in common/script_values/"@
    } else if path_starts_with(p, seq!["common"@, "on_action"@]) {
        "file should be in common/on_actions/"@
    } else if game is Vic3 && path_starts_with(p, seq!["common"@, "modifiers"@]) {
        "file should be in common/static_modifiers since 1.7"@
    } else if game is Vic3 && path_starts_with(p, seq!["common"@, "canals"@]) {
        "common/canals/ was merged into common/strait_definitions/"@
    } else {
        "file in unexpected directory `"@ + path_text(dirname) + "`"@
    }
}

pub open spec fn dir_report(e: FileEntryV, msg: Seq<char>, info: Option<Seq<char>>) -> (MetadataV, Seq<PointedMessageV>) {
    (
        MetadataV { key: ErrorKey::Filename, severity: Severity::Error, confidence: Confidence::Reasonable, msg, info, wiki: None, style: LogReportStyle::Full },
        at(entry_loc(e)),
    )
}

/// The report, if any, about where a `.txt` file lies: one outside `common/`
/// whose directory is a directory of `common/` (the `common/` part was
/// forgotten), or one in a directory of `common/` that the game does not
/// read. Directories already reported, and the known exceptions, are
/// passed over.
pub open spec fn dir_check(
    game: Game,
    dirs: Seq<Seq<Seq<char>>>,
    subdirs_ok: Seq<Seq<Seq<char>>>,
    files: Seq<Seq<Seq<char>>>,
    warned: Seq<Seq<Seq<char>>>,
    e: FileEntryV,
) -> Option<(MetadataV, Seq<PointedMessageV>)> {
    let p = e.path;
    let dirname = parent_path(p);
    if !ends_with_txt(path_text(p)) {
        None
    } else if p == seq!["common"@, "achievement_groups.txt"@] {
        None
    } else if game is Hoi4 && files.contains(p) {
        None
    } else if warned.contains(dirname) {
        None
    } else if !path_starts_with(p, common_dir()) {
        if under_any(common_dir() + p, dirs) {
            Some(dir_report(
                e,
                "file in unexpected directory "@ + path_text(dirname),
                Some("did you mean common/"@ + path_text(dirname) + " ?"@),
            ))
        } else {
            None
        }
    } else if under_any(p, subdirs_ok) || dirs.contains(dirname) {
        None
    } else {
        Some(dir_report(e, misplaced_msg(game, p, dirname), None))
    }
}

/// The reports about where the files lie, in order, and the directories
/// reported.
pub open spec fn dir_reports(
    game: Game,
    dirs: Seq<Seq<Seq<char>>>,
    subdirs_ok: Seq<Seq<Seq<char>>>,
    files: Seq<Seq<Seq<char>>>,
    s: Seq<FileEntryV>,
) -> (Seq<(MetadataV, Seq<PointedMessageV>)>, Seq<Seq<Seq<char>>>)
    decreases s.len(),
{
    if s.len() == 0 {
        (Seq::empty(), Seq::empty())
    } else {
        let (r, w) = dir_reports(game, dirs, subdirs_ok, files, s.drop_last());
        match dir_check(game, dirs, subdirs_ok, files, w, s.last()) {
            Some(x) => (r.push(x), w.push(parent_path(s.last().path))),
            None => (r, w),
        }
    }
}

fn table_of_paths(v: &Vec<&'static str>) -> (res: Vec<Vec<String>>)
    ensures
        paths_view(res@) == table_paths(v@),
{
    let mut res: Vec<Vec<String>> = Vec::new();
    let mut i: usize = 0;
    while i < v.len()
        invariant
            i <= v@.len(),
            paths_view(res@) == table_paths(v@).take(i as int),
        decreases v.len() - i,
    {
        let p = path_of_key(&to_chars(v[i]));
        let ghost before = res@;
        res.push(p);
        assert(paths_view(res@) =~= paths_view(before).push(key_path(v@[i as int]@)));
        assert(table_paths(v@).take(i + 1) =~= table_paths(v@).take(i as int).push(key_path(v@[i as int]@)));
        i += 1;
    }
    assert(table_paths(v@).take(v@.len() as int) =~= table_paths(v@));
    res
}

fn is_under_any(p: &Vec<String>, dirs: &Vec<Vec<String>>) -> (res: bool)
    ensures
        res == under_any(path_view(p@), paths_view(dirs@)),
{
    let ghost dv = paths_view(dirs@);
    let mut i: usize = 0;
    while i < dirs.len()
        invariant
            i <= dirs@.len(),
            dv == paths_view(dirs@),
            forall|k: int| 0 <= k < i ==> !path_starts_with(path_view(p@), #[trigger] dv[k]),
        decreases dirs.len() - i,
    {
        assert(dv[i as int] == path_view(dirs@[i as int]@));
        if starts_with(p, &dirs[i]) {
            return true;
        }
        i += 1;
    }
    false
}

fn contains_path(dirs: &Vec<Vec<String>>, p: &Vec<String>) -> (res: bool)
    ensures
        res == paths_view(dirs@).contains(path_view(p@)),
{
    let ghost dv = paths_view(dirs@);
    let mut i: usize = 0;
    while i < dirs.len()
        invariant
            i <= dirs@.len(),
            dv == paths_view(dirs@),
            forall|k: int| 0 <= k < i ==> dv[k] != path_view(p@),
        decreases dirs.len() - i,
    {
        assert(dv[i as int] == path_view(dirs@[i as int]@));
        if same_path(&dirs[i], p) {
            assert(dv.contains(path_view(p@)));
            return true;
        }
        i += 1;
    }
    false
}

/// A path from texts.
fn path_from(parts: &Vec<&'static str>) -> (res: Vec<String>)
    ensures
        path_view(res@) == parts@.map_values(|t: &'static str| t@),
{
    let mut res: Vec<String> = Vec::new();
    let mut i: usize = 0;
    while i < parts.len()
        invariant
            i <= parts@.len(),
            path_view(res@) == parts@.map_values(|t: &'static str| t@).take(i as int),
        decreases parts.len() - i,
    {
        let ghost before = res@;
        res.push(from_chars(&to_chars(parts[i])));
        assert(path_view(res@) =~= path_view(before).push(parts@[i as int]@));
        assert(parts@.map_values(|t: &'static str| t@).take(i + 1) =~= parts@.map_values(|t: &'static str| t@).take(i as int).push(parts@[i as int]@));
        i += 1;
    }
    assert(parts@.map_values(|t: &'static str| t@).take(parts@.len() as int) =~= parts@.map_values(|t: &'static str| t@));
    res
}

fn path2(a: &'static str, b: &'static str) -> (res: Vec<String>)
    ensures
        path_view(res@) == seq![a@, b@],
{
    let mut parts: Vec<&'static str> = Vec::new();
    parts.push(a);
    parts.push(b);
    let res = path_from(&parts);
    assert(parts@.map_values(|t: &'static str| t@) =~= seq![a@, b@]);
    res
}

/// The message and hint of [`dir_check`], when it reports.
#[verifier::loop_isolation(false)]
fn check_dir(
    game: Game,
    dirs: &Vec<Vec<String>>,
    subdirs_ok: &Vec<Vec<String>>,
    files: &Vec<Vec<String>>,
    warned: &Vec<Vec<String>>,
    e: &FileEntry,
) -> (res: Option<(String, Option<String>)>)
    ensures
        match res {
            Some((m, i)) => dir_check(game, paths_view(dirs@), paths_view(subdirs_ok@), paths_view(files@), paths_view(warned@), e@)
                == Some(dir_report(e@, m@, match i { Some(x) => Some(x@), None => None })),
            None => dir_check(game, paths_view(dirs@), paths_view(subdirs_ok@), paths_view(files@), paths_view(warned@), e@) is None,
        },
{
    let text = path_string(&e.path);
    let t = to_chars(text.as_str());
    let n = t.len();
    if n < 4 || !(t[n - 4] == '.' && t[n - 3] == 't' && t[n - 2] == 'x' && t[n - 1] == 't') {
        proof {
            reveal_strlit(".txt");
            if n >= 4 {
                assert(t@.skip(n - 4)[0] == t@[n - 4]);
                assert(t@.skip(n - 4)[1] == t@[n - 3]);
                assert(t@.skip(n - 4)[2] == t@[n - 2]);
                assert(t@.skip(n - 4)[3] == t@[n - 1]);
            }
        }
        return None;
    }
    proof {
        reveal_strlit(".txt");
        assert(t@.skip(n - 4) =~= ".txt"@);
    }
    if same_path(&e.path, &path2("common", "achievement_groups.txt")) {
        return None;
    }
    if game == Game::Hoi4 && contains_path(files, &e.path) {
        return None;
    }
    let mut dirname: Vec<String> = Vec::new();
    let mut i: usize = 0;
    proof {
        use_type_invariant(e);
    }
    while i < e.path.len() - 1
        invariant
            e.path@.len() > 0,
            i + 1 <= e.path@.len(),
            path_view(dirname@) == path_view(e.path@).take(i as int),
        decreases e.path.len() - i,
    {
        let ghost before = dirname@;
        dirname.push(from_chars(&to_chars(e.path[i].as_str())));
        assert(path_view(dirname@) =~= path_view(before).push(e.path@[i as int]@));
        assert(path_view(e.path@).take(i + 1) =~= path_view(e.path@).take(i as int).push(e.path@[i as int]@));
        i += 1;
    }
    assert(path_view(dirname@) =~= parent_path(e@.path));
    if contains_path(warned, &dirname) {
        return None;
    }
    let mut common: Vec<&'static str> = Vec::new();
    common.push("common");
    let common_path = path_from(&common);
    assert(common@.map_values(|t: &'static str| t@) =~= common_dir());
    let dir_text = path_string(&dirname);
    if !starts_with(&e.path, &common_path) {
        let mut joined = path_from(&common);
        let mut j: usize = 0;
        while j < e.path.len()
            invariant
                j <= e.path@.len(),
                path_view(joined@) == common_dir() + path_view(e.path@).take(j as int),
            decreases e.path.len() - j,
        {
            let ghost before = joined@;
            joined.push(from_chars(&to_chars(e.path[j].as_str())));
            assert(path_view(joined@) =~= path_view(before).push(e.path@[j as int]@));
            assert(common_dir() + path_view(e.path@).take(j + 1) =~= (common_dir() + path_view(e.path@).take(j as int)).push(e.path@[j as int]@));
            j += 1;
        }
        assert(path_view(e.path@).take(e.path@.len() as int) =~= path_view(e.path@));
        if is_under_any(&joined, dirs) {
            let mut msg: Vec<char> = Vec::new();
            push_str(&mut msg, "file in unexpected directory ");
            push_str(&mut msg, dir_text.as_str());
            let mut info: Vec<char> = Vec::new();
            push_str(&mut info, "did you mean common/");
            push_str(&mut info, dir_text.as_str());
            push_str(&mut info, " ?");
            assert(msg@ =~= "file in unexpected directory "@ + path_text(parent_path(e@.path)));
            assert(info@ =~= "did you mean common/"@ + path_text(parent_path(e@.path)) + " ?"@);
            return Some((from_chars(&msg), Some(from_chars(&info))));
        }
        return None;
    }
    if is_under_any(&e.path, subdirs_ok) || contains_path(dirs, &dirname) {
        return None;
    }
    let msg: Vec<char> = if starts_with(&e.path, &path2("common", "scripted_values")) {
        to_chars("file should be in common/script_values/")
    } else if starts_with(&e.path, &path2("common", "on_action")) {
        to_chars("file should be in common/on_actions/")
    } else if game == Game::Vic3 && starts_with(&e.path, &path2("common", "modifiers")) {
        to_chars("file should be in common/static_modifiers since 1.7")
    } else if game == Game::Vic3 && starts_with(&e.path, &path2("common", "canals")) {
        to_chars("common/canals/ was merged into common/strait_definitions/")
    } else {
        let mut m: Vec<char> = Vec::new();
        push_str(&mut m, "file in unexpected directory `");
        push_str(&mut m, dir_text.as_str());
        push_str(&mut m, "`");
        assert(m@ =~= "file in unexpected directory `"@ + path_text(parent_path(e@.path)) + "`"@);
        m
    };
    assert(msg@ == misplaced_msg(game, e@.path, parent_path(e@.path)));
    Some((from_chars(&msg), None))
}

impl Fileset {
    /// Reports the `.txt` files that lie where the game does not read them
    /// (see [`dir_check`]); `dirs` are the directories of `common/` that the
    /// game reads, `subdirs_ok` the directories below which any layout is
    /// fine, and `files` the single files that Hearts of Iron IV reads.
    pub fn validate(
        &self,
        game: Game,
        dirs: &Vec<&'static str>,
        subdirs_ok: &Vec<&'static str>,
        files: &Vec<&'static str>,
        errors: &mut Errors,
        map: &MacroMap,
    )
        requires
            old(errors).wf(),
            map.wf(),
        ensures
            final(errors).wf(),
            final(errors).store() == log_all(
                *old(errors),
                map.locs@,
                dir_reports(game, table_paths(dirs@), table_paths(subdirs_ok@), table_paths(files@), entries_view(self.ordered_files@)).0,
            ),
    {
        let dirs = table_of_paths(dirs);
        let subdirs_ok = table_of_paths(subdirs_ok);
        let files = table_of_paths(files);
        let ghost dv = paths_view(dirs@);
        let ghost sv = paths_view(subdirs_ok@);
        let ghost fv = paths_view(files@);
        let ghost ev = entries_view(self.ordered_files@);
        let mut warned: Vec<Vec<String>> = Vec::new();
        let mut i: usize = 0;
        while i < self.ordered_files.len()
            invariant
                i <= self.ordered_files@.len(),
                ev == entries_view(self.ordered_files@),
                dv == paths_view(dirs@),
                sv == paths_view(subdirs_ok@),
                fv == paths_view(files@),
                errors.wf(),
                map.wf(),
                errors.filter == old(errors).filter,
                errors.suppressions() == old(errors).suppressions(),
                errors.cache@ == old(errors).cache@,
                errors.store() == log_all(*old(errors), map.locs@, dir_reports(game, dv, sv, fv, ev.take(i as int)).0),
                paths_view(warned@) == dir_reports(game, dv, sv, fv, ev.take(i as int)).1,
            decreases self.ordered_files.len() - i,
        {
            let e = &self.ordered_files[i];
            assert(ev.take(i + 1).drop_last() == ev.take(i as int));
            assert(ev.take(i + 1).last() == e@);
            match check_dir(game, &dirs, &subdirs_ok, &files, &warned, e) {
                Some((msg, info)) => {
                    let ghost rep = dir_report(e@, msg@, match &info { Some(x) => Some(x@), None => None });
                    let b = match info {
                        Some(x) => err(ErrorKey::Filename).msg(msg).info(x).loc(e.loc()),
                        None => err(ErrorKey::Filename).msg(msg).loc(e.loc()),
                    };
                    assert(ptrs_view(b.pointers@) =~= at(entry_loc(e@)));
                    assert(b.pointers@.len() == ptrs_view(b.pointers@).len());
                    assert(b.metadata@ == rep.0);
                    assert(dir_reports(game, dv, sv, fv, ev.take(i + 1)).0 == dir_reports(game, dv, sv, fv, ev.take(i as int)).0.push(rep));
                    assert(dir_reports(game, dv, sv, fv, ev.take(i + 1)).0.drop_last() == dir_reports(game, dv, sv, fv, ev.take(i as int)).0);
                    assert(dir_reports(game, dv, sv, fv, ev.take(i + 1)).0.last() == rep);
                    let ghost before = *errors;
                    b.push(errors, map);
                    proof {
                        lemma_log_onto(*old(errors), before, map.locs@, b.metadata@, ptrs_view(b.pointers@));
                    }
                    proof {
                        use_type_invariant(e);
                    }
                    let mut dirname: Vec<String> = Vec::new();
                    let mut j: usize = 0;
                    while j < e.path.len() - 1
                        invariant
                            e.path@.len() > 0,
                            j + 1 <= e.path@.len(),
                            path_view(dirname@) == path_view(e.path@).take(j as int),
                        decreases e.path.len() - j,
                    {
                        let ghost bd = dirname@;
                        dirname.push(from_chars(&to_chars(e.path[j].as_str())));
                        assert(path_view(dirname@) =~= path_view(bd).push(e.path@[j as int]@));
                        assert(path_view(e.path@).take(j + 1) =~= path_view(e.path@).take(j as int).push(e.path@[j as int]@));
                        j += 1;
                    }
                    let ghost bw = warned@;
                    warned.push(dirname);
                    assert(paths_view(warned@) =~= paths_view(bw).push(parent_path(e@.path)));
                },
                None => {
                    assert(dir_reports(game, dv, sv, fv, ev.take(i + 1)).0 == dir_reports(game, dv, sv, fv, ev.take(i as int)).0);
                },
            }
            i += 1;
        }
        assert(ev.take(ev.len() as int) == ev);
    }
}

/// `name` below the directory `dir` (std's `Path::join` for a relative
/// name).
pub open spec fn path_join(dir: Seq<char>, name: Seq<char>) -> Seq<char> {
    if dir.len() == 0 {
        name
    } else if dir.last() == '/' {
        dir + name
    } else {
        dir + "/"@ + name
    }
}

fn join_dir(dir: &String, name: &str) -> (res: String)
    ensures
        res@ == path_join(dir@, name@),
{
    let mut v = to_chars(dir.as_str());
    if v.len() > 0 && v[v.len() - 1] != '/' {
        push_str(&mut v, "/");
    }
    push_str(&mut v, name);
    proof {
        reveal_strlit("/");
    }
    assert(v@ =~= path_join(dir@, name@));
    from_chars(&v)
}

/// The plain-value form of a [`LoadedMod`].
pub struct LoadedModV {
    pub kind: FileKind,
    pub label: Seq<char>,
    pub root: Seq<char>,
    pub replace_paths: Seq<Seq<Seq<char>>>,
}

pub open spec fn mod_view(m: LoadedMod) -> LoadedModV {
    LoadedModV { kind: m.kind, label: m.label@, root: m.root@, replace_paths: paths_view(m.replace_paths@) }
}

pub open spec fn mods_view(s: Seq<LoadedMod>) -> Seq<LoadedModV> {
    s.map_values(|m: LoadedMod| mod_view(m))
}

/// What looking for a secondary mod named in the configuration found.
#[derive(Debug)]
pub enum ModLookup {
    /// The mod's directory and the directories it replaces.
    Found { root: String, replace_paths: Vec<Vec<String>> },
    /// The mod's description could not be read; the text says why.
    Unreadable(String),
    /// The configuration block names no mod that could be found.
    NoPath,
}

pub enum ModLookupV {
    Found { root: Seq<char>, replace_paths: Seq<Seq<Seq<char>>> },
    Unreadable(Seq<char>),
    NoPath,
}

pub open spec fn lookup_view(l: ModLookup) -> ModLookupV {
    match l {
        ModLookup::Found { root, replace_paths } => ModLookupV::Found { root: root@, replace_paths: paths_view(replace_paths@) },
        ModLookup::Unreadable(m) => ModLookupV::Unreadable(m@),
        ModLookup::NoPath => ModLookupV::NoPath,
    }
}

/// Why the configuration could not be applied.
#[derive(Debug, PartialEq, Eq)]
pub enum ConfigError {
    /// More secondary mods than file kinds can number.
    TooManyMods,
    /// A `load_mod` block names no mod that could be found.
    MissingMod,
    /// A secondary mod's description could not be read.
    Unreadable(String),
}

pub enum ConfigErrorV {
    TooManyMods,
    MissingMod,
    Unreadable(Seq<char>),
}

pub open spec fn config_error_view(e: ConfigError) -> ConfigErrorV {
    match e {
        ConfigError::TooManyMods => ConfigErrorV::TooManyMods,
        ConfigError::MissingMod => ConfigErrorV::MissingMod,
        ConfigError::Unreadable(m) => ConfigErrorV::Unreadable(m@),
    }
}

/// The text of a configuration error.
pub open spec fn spec_config_message(game: Game, e: ConfigErrorV) -> Seq<char> {
    match e {
        ConfigErrorV::TooManyMods => "too many loaded mods, cannot process more"@,
        ConfigErrorV::MissingMod => if game is Vic3 {
            "could not load secondary mod from config; missing valid `mod` or `workshop_id` field"@
        } else {
            "could not load secondary mod from config; missing valid `modfile` or `workshop_id` field"@
        },
        ConfigErrorV::Unreadable(m) => m,
    }
}

impl ConfigError {
    /// The text of the error.
    pub fn message(&self, game: Game) -> (res: String)
        ensures
            res@ == spec_config_message(game, config_error_view(*self)),
    {
        match self {
            ConfigError::TooManyMods => from_chars(&to_chars("too many loaded mods, cannot process more")),
            ConfigError::MissingMod => match game {
                Game::Vic3 => from_chars(&to_chars("could not load secondary mod from config; missing valid `mod` or `workshop_id` field")),
                Game::Hoi4 => from_chars(&to_chars("could not load secondary mod from config; missing valid `modfile` or `workshop_id` field")),
            },
            ConfigError::Unreadable(m) => from_chars(&to_chars(m.as_str())),
        }
    }
}

/// The label of the `load_mod` block `b` when `idx` mods were loaded
/// before: its `label` field, or `MOD` and the number.
pub open spec fn mod_label(b: Block, idx: nat) -> Seq<char> {
    match last_field_value(b.items@, "label"@) {
        Some(t) => t.s@,
        None => "MOD"@ + decimal(idx),
    }
}

/// The label of a `load_mod` block when `idx` mods were loaded before (see
/// [`mod_label`]).
pub fn load_mod_label(b: &Block, idx: u8) -> (res: String)
    ensures
        res@ == mod_label(*b, idx as nat),
{
    match b.get_field_value("label") {
        Some(t) => from_chars(&to_chars(t.as_str())),
        None => {
            let mut v = to_chars("MOD");
            let d = u8_decimal(idx);
            push_chars(&mut v, &d);
            from_chars(&v)
        },
    }
}

/// Applying the `load_mod` blocks from the `k`th on, with what was found for
/// each of them, after the mods `mods`: the mods loaded, and the error that
/// stopped it, if one did. A mod whose description cannot be read is passed
/// over in Victoria 3 and stops the configuration in Hearts of Iron IV.
pub open spec fn config_from(
    game: Game,
    blocks: Seq<Block>,
    lookups: Seq<ModLookupV>,
    k: int,
    mods: Seq<LoadedModV>,
) -> (Seq<LoadedModV>, Option<ConfigErrorV>)
    decreases blocks.len() - k,
{
    if k >= blocks.len() || k < 0 {
        (mods, None)
    } else if mods.len() > 255 {
        (mods, Some(ConfigErrorV::TooManyMods))
    } else {
        let idx = mods.len();
        let label = mod_label(blocks[k], idx);
        match lookups[k] {
            ModLookupV::Found { root, replace_paths } => config_from(
                game,
                blocks,
                lookups,
                k + 1,
                mods.push(LoadedModV { kind: FileKind::LoadedMod(idx as u8), label, root, replace_paths }),
            ),
            ModLookupV::Unreadable(m) => if game is Hoi4 {
                (mods, Some(ConfigErrorV::Unreadable(m)))
            } else {
                config_from(game, blocks, lookups, k + 1, mods)
            },
            ModLookupV::NoPath => (mods, Some(ConfigErrorV::MissingMod)),
        }
    }
}

pub open spec fn opt_text(o: Option<String>) -> Option<Seq<char>> {
    match o {
        Some(t) => Some(t@),
        None => None,
    }
}

pub open spec fn labels_of(s: Seq<LoadedModV>) -> Seq<Seq<char>> {
    s.map_values(|m: LoadedModV| m.label)
}

pub open spec fn strings_of(s: Seq<String>) -> Seq<Seq<char>> {
    s.map_values(|t: String| t@)
}

impl Fileset {
    /// A file set for the mod at `mod_root`, which replaces the directories
    /// `replace_paths`, on the base game at `vanilla_dir` (in games built
    /// on the Jomini engine, its `game` directory, beside `clausewitz` and
    /// `jomini`).
    pub fn new(game: Game, vanilla_dir: Option<String>, mod_root: String, replace_paths: Vec<Vec<String>>) -> (res: Fileset)
        ensures
            opt_text(res.vanilla_root) == match vanilla_dir {
                Some(d) => Some(if game is Vic3 { path_join(d@, "game"@) } else { d@ }),
                None => None,
            },
            opt_text(res.clausewitz_root) == match vanilla_dir {
                Some(d) => if game is Vic3 { Some(path_join(d@, "clausewitz"@)) } else { None },
                None => None,
            },
            opt_text(res.jomini_root) == match vanilla_dir {
                Some(d) => if game is Vic3 { Some(path_join(d@, "jomini"@)) } else { None },
                None => None,
            },
            mod_view(res.the_mod) == (LoadedModV { kind: FileKind::Mod, label: "MOD"@, root: mod_root@, replace_paths: paths_view(replace_paths@) }),
            res.loaded_mods@.len() == 0,
            res.loaded_dlcs@.len() == 0,
            res.files@.len() == 0,
            res.ordered_files@.len() == 0,
            res.filename_tokens@.len() == 0,
            res.used@.len() == 0,
            res.config is None,
    {
        let (vanilla_root, clausewitz_root, jomini_root) = match &vanilla_dir {
            Some(d) => match game {
                Game::Vic3 => (Some(join_dir(d, "game")), Some(join_dir(d, "clausewitz")), Some(join_dir(d, "jomini"))),
                Game::Hoi4 => (Some(from_chars(&to_chars(d.as_str()))), None, None),
            },
            None => (None, None, None),
        };
        Fileset {
            vanilla_root,
            clausewitz_root,
            jomini_root,
            the_mod: LoadedMod { kind: FileKind::Mod, label: from_chars(&to_chars("MOD")), root: mod_root, replace_paths },
            loaded_mods: Vec::new(),
            loaded_dlcs: Vec::new(),
            config: None,
            files: Vec::new(),
            ordered_files: Vec::new(),
            filename_tokens: Vec::new(),
            used: Vec::new(),
        }
    }
}

fn copy_text(t: &String) -> (res: String)
    ensures
        res@ == t@,
{
    from_chars(&to_chars(t.as_str()))
}

fn copy_path(p: &Vec<String>) -> (res: Vec<String>)
    ensures
        path_view(res@) == path_view(p@),
{
    let mut res: Vec<String> = Vec::new();
    let mut i: usize = 0;
    while i < p.len()
        invariant
            i <= p@.len(),
            path_view(res@) == path_view(p@).take(i as int),
        decreases p.len() - i,
    {
        let ghost before = res@;
        res.push(copy_text(&p[i]));
        assert(path_view(res@) =~= path_view(before).push(p@[i as int]@));
        assert(path_view(p@).take(i + 1) =~= path_view(p@).take(i as int).push(p@[i as int]@));
        i += 1;
    }
    assert(path_view(p@).take(p@.len() as int) =~= path_view(p@));
    res
}

fn copy_paths(ps: &Vec<Vec<String>>) -> (res: Vec<Vec<String>>)
    ensures
        paths_view(res@) == paths_view(ps@),
{
    let mut res: Vec<Vec<String>> = Vec::new();
    let mut i: usize = 0;
    while i < ps.len()
        invariant
            i <= ps@.len(),
            paths_view(res@) == paths_view(ps@).take(i as int),
        decreases ps.len() - i,
    {
        let ghost before = res@;
        res.push(copy_path(&ps[i]));
        assert(paths_view(res@) =~= paths_view(before).push(path_view(ps@[i as int]@)));
        assert(paths_view(ps@).take(i + 1) =~= paths_view(ps@).take(i as int).push(path_view(ps@[i as int]@)));
        i += 1;
    }
    assert(paths_view(ps@).take(ps@.len() as int) =~= paths_view(ps@));
    res
}

pub open spec fn lookups_view(s: Seq<ModLookup>) -> Seq<ModLookupV> {
    s.map_values(|l: ModLookup| lookup_view(l))
}

impl Fileset {
    /// Applies the validator's configuration: loads the secondary mods of
    /// its `load_mod` blocks, in order, with `lookups[k]` what looking for
    /// the `k`th of them found (see [`config_from`]). Each loaded mod's
    /// label is recorded for reports. On success the configuration is kept.
    pub fn config(&mut self, game: Game, config: Block, lookups: Vec<ModLookup>, errors: &mut Errors) -> (res: Result<(), ConfigError>)
        requires
            lookups@.len() == field_blocks(config.items@, "load_mod"@).len(),
        ensures
            ({
                let (mods, e) = config_from(
                    game,
                    field_blocks(config.items@, "load_mod"@),
                    lookups_view(lookups@),
                    0,
                    mods_view(old(self).loaded_mods@),
                );
                &&& mods_view(final(self).loaded_mods@) == mods
                &&& strings_of(final(errors).loaded_mods_labels@) == strings_of(old(errors).loaded_mods_labels@)
                    + labels_of(mods.skip(old(self).loaded_mods@.len() as int))
                &&& match res {
                    Ok(()) => e is None && final(self).config == Some(config),
                    Err(x) => e == Some(config_error_view(x)) && final(self).config == old(self).config,
                }
            }),
            final(errors).store() == old(errors).store(),
            final(errors).wf() == old(errors).wf(),
            final(errors).loaded_dlcs_labels@ == old(errors).loaded_dlcs_labels@,
            final(self).the_mod == old(self).the_mod,
            final(self).loaded_dlcs == old(self).loaded_dlcs,
            final(self).files == old(self).files,
            final(self).ordered_files == old(self).ordered_files,
    {
        let ghost blocks = field_blocks(config.items@, "load_mod"@);
        let ghost lk = lookups_view(lookups@);
        let ghost m0 = mods_view(self.loaded_mods@);
        let ghost n0 = self.loaded_mods@.len();
        let ghost labels0 = strings_of(errors.loaded_mods_labels@);
        let result: Result<(), ConfigError>;
        {
            let bs = config.get_field_blocks("load_mod");
            let mut i: usize = 0;
            assert(m0.skip(n0 as int) =~= Seq::<LoadedModV>::empty());
            assert(labels_of(m0.skip(n0 as int)) =~= Seq::<Seq<char>>::empty());
            assert(labels0 =~= labels0 + Seq::<Seq<char>>::empty());
            loop
                invariant
                    i <= bs@.len(),
                    bs@.len() == blocks.len(),
                    forall|k: int| 0 <= k < bs@.len() ==> *(#[trigger] bs@[k]) == blocks[k],
                    lookups@.len() == blocks.len(),
                    lk == lookups_view(lookups@),
                    self.loaded_mods@.len() >= n0,
                    mods_view(self.loaded_mods@).take(n0 as int) == m0,
                    config_from(game, blocks, lk, 0, m0) == config_from(game, blocks, lk, i as int, mods_view(self.loaded_mods@)),
                    strings_of(errors.loaded_mods_labels@) == labels0 + labels_of(mods_view(self.loaded_mods@).skip(n0 as int)),
                    errors.store() == old(errors).store(),
                    errors.wf() == old(errors).wf(),
                    errors.loaded_dlcs_labels@ == old(errors).loaded_dlcs_labels@,
                    self.the_mod == old(self).the_mod,
                    self.loaded_dlcs == old(self).loaded_dlcs,
                    self.files == old(self).files,
                    self.ordered_files == old(self).ordered_files,
                    self.config == old(self).config,
                ensures
                    mods_view(self.loaded_mods@) == config_from(game, blocks, lk, 0, m0).0,
                    strings_of(errors.loaded_mods_labels@) == labels0 + labels_of(mods_view(self.loaded_mods@).skip(n0 as int)),
                    match result {
                        Ok(()) => config_from(game, blocks, lk, 0, m0).1 is None,
                        Err(x) => config_from(game, blocks, lk, 0, m0).1 == Some(config_error_view(x)),
                    },
                    errors.store() == old(errors).store(),
                    errors.wf() == old(errors).wf(),
                    errors.loaded_dlcs_labels@ == old(errors).loaded_dlcs_labels@,
                    self.the_mod == old(self).the_mod,
                    self.loaded_dlcs == old(self).loaded_dlcs,
                    self.files == old(self).files,
                    self.ordered_files == old(self).ordered_files,
                    self.config == old(self).config,
                decreases bs@.len() - i,
            {
                if i >= bs.len() {
                    result = Ok(());
                    break;
                }
                let n = self.loaded_mods.len();
                if n > 255 {
                    result = Err(ConfigError::TooManyMods);
                    break;
                }
                let idx = n as u8;
                let b = bs[i];
                let label_chars = to_chars(load_mod_label(b, idx).as_str());
                assert(label_chars@ == mod_label(blocks[i as int], n as nat));
                assert(lk[i as int] == lookup_view(lookups@[i as int]));
                match &lookups[i] {
                    ModLookup::Found { root, replace_paths } => {
                        let m = LoadedMod {
                            kind: FileKind::LoadedMod(idx),
                            label: from_chars(&label_chars),
                            root: copy_text(root),
                            replace_paths: copy_paths(replace_paths),
                        };
                        let ghost before = self.loaded_mods@;
                        self.loaded_mods.push(m);
                        assert(mods_view(self.loaded_mods@) =~= mods_view(before).push(mod_view(m)));
                        assert(mods_view(self.loaded_mods@).take(n0 as int) =~= m0);
                        let ghost lb = errors.loaded_mods_labels@;
                        add_loaded_mod_root(errors, from_chars(&label_chars));
                        assert(strings_of(errors.loaded_mods_labels@) =~= strings_of(lb).push(label_chars@));
                        assert(mods_view(self.loaded_mods@).skip(n0 as int) =~= mods_view(before).skip(n0 as int).push(mod_view(m)));
                        assert(labels_of(mods_view(self.loaded_mods@).skip(n0 as int)) =~= labels_of(mods_view(before).skip(n0 as int)).push(label_chars@));
                    },
                    ModLookup::Unreadable(msg) => {
                        if game == Game::Hoi4 {
                            result = Err(ConfigError::Unreadable(copy_text(msg)));
                            break;
                        }
                    },
                    ModLookup::NoPath => {
                        result = Err(ConfigError::MissingMod);
                        break;
                    },
                }
                i += 1;
            }
        }
        if result.is_ok() {
            self.config = Some(config);
        }
        proof {
            let mods = config_from(game, blocks, lk, 0, m0).0;
            assert(mods_view(self.loaded_mods@) == mods);
        }
        result
    }

    /// The file kind of the next DLC to be added.
    pub fn next_dlc_kind(&self) -> (res: FileKind)
        requires
            self.loaded_dlcs@.len() < 256,
        ensures
            res == FileKind::Dlc(self.loaded_dlcs@.len() as u8),
    {
        FileKind::Dlc(self.loaded_dlcs.len() as u8)
    }

    /// Adds a DLC directory of the base game, after those added before, and
    /// records its label for reports.
    pub fn add_dlc(&mut self, label: String, root: String, errors: &mut Errors)
        requires
            old(self).loaded_dlcs@.len() < 256,
        ensures
            mods_view(final(self).loaded_dlcs@) == mods_view(old(self).loaded_dlcs@).push(LoadedModV {
                kind: FileKind::Dlc(old(self).loaded_dlcs@.len() as u8),
                label: label@,
                root: root@,
                replace_paths: Seq::empty(),
            }),
            strings_of(final(errors).loaded_dlcs_labels@) == strings_of(old(errors).loaded_dlcs_labels@).push(label@),
            final(errors).loaded_mods_labels@ == old(errors).loaded_mods_labels@,
            final(errors).store() == old(errors).store(),
            final(self).loaded_mods == old(self).loaded_mods,
            final(self).the_mod == old(self).the_mod,
            final(self).files == old(self).files,
            final(self).ordered_files == old(self).ordered_files,
    {
        let kind = FileKind::Dlc(self.loaded_dlcs.len() as u8);
        let lbl = copy_text(&label);
        let dlc = LoadedMod { kind, label, root, replace_paths: Vec::new() };
        let ghost before = self.loaded_dlcs@;
        assert(paths_view(dlc.replace_paths@) =~= Seq::<Seq<Seq<char>>>::empty());
        self.loaded_dlcs.push(dlc);
        assert(mods_view(self.loaded_dlcs@) =~= mods_view(before).push(mod_view(dlc)));
        let ghost lb = errors.loaded_dlcs_labels@;
        add_loaded_dlc_root(errors, lbl);
        assert(strings_of(errors.loaded_dlcs_labels@) =~= strings_of(lb).push(lbl@));
    }
}

proof fn lemma_kind_lt_asym(a: FileKind, b: FileKind)
    ensures
        kind_lt(a, b) ==> !kind_lt(b, a),
        !kind_lt(a, b) && !kind_lt(b, a) ==> a == b,
{
}

/// The load order never holds both ways.
pub proof fn lemma_entry_lt_asymmetric()
    ensures
        asymmetric(entry_lt_fn()),
{
    assert forall|a: FileEntryV, b: FileEntryV| #[trigger] entry_lt_fn()(a, b) implies !entry_lt_fn()(b, a) by {
        lemma_path_order_antisym(a.path, b.path);
        lemma_kind_lt_asym(a.kind, b.kind);
    }
}

/// The path of entry `i` is less than that of entry `i + 1`.
pub open spec fn path_step(k: Seq<FileEntryV>, i: int) -> bool {
    path_order(k[i].path, k[i + 1].path) < 0
}

proof fn lemma_keep_last_sorted(s: Seq<FileEntryV>)
    requires
        sorted_by(s, entry_lt_fn()),
    ensures
        forall|i: int| 0 <= i < keep_last(Seq::empty(), s).len() - 1 ==> #[trigger] path_step(keep_last(Seq::empty(), s), i),
        s.len() > 0 ==> keep_last(Seq::empty(), s).len() > 0 && keep_last(Seq::empty(), s).last().path == s.last().path,
    decreases s.len(),
{
    if s.len() > 0 {
        let p = s.drop_last();
        assert forall|i: int| 0 <= i < p.len() - 1 implies !entry_lt_fn()(#[trigger] p[i + 1], p[i]) by {
            assert(p[i + 1] == s[i + 1] && p[i] == s[i]);
        }
        lemma_keep_last_sorted(p);
        let r = keep_last(Seq::empty(), p);
        let r2 = keep_last(Seq::empty(), s);
        let x = s.last();
        assert forall|i: int| 0 <= i < r2.len() - 1 implies #[trigger] path_step(r2, i) by {
            if i < r.len() - 1 {
                assert(path_step(r, i));
            }
            if p.len() > 0 {
                let j = s.len() - 2;
                assert(!entry_lt_fn()(s[j + 1], s[j]));
                assert(s[j + 1] == x && s[j] == p.last());
                lemma_path_order_antisym(x.path, p.last().path);
                lemma_path_order_zero(p.last().path, x.path);
            }
        }
        if p.len() > 0 {
            let j = s.len() - 2;
            assert(!entry_lt_fn()(s[j + 1], s[j]));
            assert(s[j + 1] == x && s[j] == p.last());
            lemma_path_order_antisym(x.path, p.last().path);
            lemma_path_order_zero(p.last().path, x.path);
        }
    }
}

proof fn lemma_keep_last_members(init: Seq<FileEntryV>, s: Seq<FileEntryV>)
    ensures
        forall|i: int| 0 <= i < s.len() ==> exists|k: int| 0 <= k < keep_last(init, s).len() && (#[trigger] keep_last(init, s)[k]).path == (#[trigger] s[i]).path,
        forall|k: int| 0 <= k < keep_last(init, s).len() ==> init.contains(#[trigger] keep_last(init, s)[k]) || s.contains(keep_last(init, s)[k]),
    decreases s.len(),
{
    if s.len() > 0 {
        let p = s.drop_last();
        lemma_keep_last_members(init, p);
        let r = keep_last(init, p);
        let x = s.last();
        let r2 = keep_last(init, s);
        assert forall|i: int| 0 <= i < s.len() implies exists|k: int| 0 <= k < r2.len() && (#[trigger] r2[k]).path == (#[trigger] s[i]).path by {
            if i == s.len() - 1 {
                assert(r2[r2.len() - 1].path == x.path);
            } else {
                assert(s[i] == p[i]);
                let k = choose|k: int| 0 <= k < r.len() && (#[trigger] r[k]).path == p[i].path;
                if r.len() > 0 && r.last().path == x.path && k == r.len() - 1 {
                    assert(r2[k].path == x.path);
                } else {
                    assert(r2[k] == r[k]);
                }
            }
        }
        assert forall|k: int| 0 <= k < r2.len() implies init.contains(#[trigger] r2[k]) || s.contains(r2[k]) by {
            if r2[k] == x {
                assert(s[s.len() - 1] == x);
            } else {
                assert(r2[k] == r[k]);
                if p.contains(r[k]) {
                    let j = choose|j: int| 0 <= j < p.len() && p[j] == r[k];
                    assert(s[j] == p[j]);
                }
            }
        }
    }
}

/// After putting files in load order, each path comes once, and in order:
/// each kept file's path is less than the next one's.
pub proof fn law_finalize_sorted(files: Seq<FileEntryV>)
    ensures
        ({
            let kept = keep_last(Seq::empty(), insertion_sort(files, entry_lt_fn()));
            forall|i: int| 0 <= i < kept.len() - 1 ==> path_order((#[trigger] kept[i]).path, kept[i + 1].path) < 0
        }),
{
    lemma_entry_lt_asymmetric();
    law_insertion_sort_sorted(files, entry_lt_fn());
    let kept = keep_last(Seq::empty(), insertion_sort(files, entry_lt_fn()));
    lemma_keep_last_sorted(insertion_sort(files, entry_lt_fn()));
    assert forall|i: int| 0 <= i < kept.len() - 1 implies path_order((#[trigger] kept[i]).path, kept[i + 1].path) < 0 by {
        assert(path_step(kept, i));
    }
}

/// Putting files in load order keeps every path and adds none: each file's
/// path is the path of a kept file, and each kept file is one of the files.
pub proof fn law_finalize_keeps_paths(files: Seq<FileEntryV>)
    ensures
        ({
            let kept = keep_last(Seq::empty(), insertion_sort(files, entry_lt_fn()));
            &&& forall|i: int| 0 <= i < files.len() ==> exists|k: int| 0 <= k < kept.len() && (#[trigger] kept[k]).path == (#[trigger] files[i]).path
            &&& forall|k: int| 0 <= k < kept.len() ==> files.contains(#[trigger] kept[k])
        }),
{
    broadcast use vstd::seq_lib::group_to_multiset_ensures;
    let sorted = insertion_sort(files, entry_lt_fn());
    let kept = keep_last(Seq::empty(), sorted);
    law_insertion_sort_permutes(files, entry_lt_fn());
    lemma_keep_last_members(Seq::empty(), sorted);
    assert forall|i: int| 0 <= i < files.len() implies exists|k: int| 0 <= k < kept.len() && (#[trigger] kept[k]).path == (#[trigger] files[i]).path by {
        assert(files.to_multiset().count(files[i]) > 0);
        assert(sorted.contains(files[i]));
        let j = choose|j: int| 0 <= j < sorted.len() && sorted[j] == files[i];
        assert(exists|k: int| 0 <= k < kept.len() && (#[trigger] kept[k]).path == sorted[j].path);
    }
    assert forall|k: int| 0 <= k < kept.len() implies files.contains(#[trigger] kept[k]) by {
        assert(Seq::<FileEntryV>::empty().contains(kept[k]) || sorted.contains(kept[k]));
        assert(sorted.to_multiset().count(kept[k]) > 0);
    }
}

proof fn lemma_text_order_range(a: Seq<char>, b: Seq<char>)
    ensures
        -1 <= text_order(a, b) <= 1,
    decreases a.len(),
{
    if a.len() > 0 && b.len() > 0 && a[0] == b[0] {
        lemma_text_order_range(a.drop_first(), b.drop_first());
    }
}

proof fn lemma_text_order_trans(a: Seq<char>, b: Seq<char>, c: Seq<char>)
    requires
        text_order(a, b) <= 0,
        text_order(b, c) <= 0,
    ensures
        text_order(a, c) <= 0,
        text_order(a, b) < 0 || text_order(b, c) < 0 ==> text_order(a, c) < 0,
    decreases a.len(),
{
    if a.len() > 0 && b.len() > 0 && c.len() > 0 && a[0] == b[0] && b[0] == c[0] {
        lemma_text_order_trans(a.drop_first(), b.drop_first(), c.drop_first());
    }
}

proof fn lemma_path_order_range(a: Seq<Seq<char>>, b: Seq<Seq<char>>)
    ensures
        -1 <= path_order(a, b) <= 1,
    decreases a.len(),
{
    if a.len() > 0 && b.len() > 0 {
        lemma_text_order_range(a[0], b[0]);
        if text_order(a[0], b[0]) == 0 {
            lemma_path_order_range(a.drop_first(), b.drop_first());
        }
    }
}

/// The order of paths is transitive, and strict when either step is.
pub proof fn lemma_path_order_trans(a: Seq<Seq<char>>, b: Seq<Seq<char>>, c: Seq<Seq<char>>)
    requires
        path_order(a, b) <= 0,
        path_order(b, c) <= 0,
    ensures
        path_order(a, c) <= 0,
        path_order(a, b) < 0 || path_order(b, c) < 0 ==> path_order(a, c) < 0,
    decreases a.len(),
{
    if a.len() > 0 && b.len() > 0 && c.len() > 0 {
        lemma_text_order_antisym(a[0], b[0]);
        lemma_text_order_antisym(b[0], c[0]);
        lemma_text_order_zero(a[0], b[0]);
        lemma_text_order_zero(b[0], c[0]);
        lemma_text_order_trans(a[0], b[0], c[0]);
        if text_order(a[0], b[0]) == 0 && text_order(b[0], c[0]) == 0 {
            lemma_path_order_trans(a.drop_first(), b.drop_first(), c.drop_first());
        }
    }
}

/// `a` may come before `b` in load order: `b` is not before `a`.
pub open spec fn entry_le(a: FileEntryV, b: FileEntryV) -> bool {
    !entry_lt(b, a)
}

proof fn lemma_entry_le_trans(a: FileEntryV, b: FileEntryV, c: FileEntryV)
    requires
        entry_le(a, b),
        entry_le(b, c),
    ensures
        entry_le(a, c),
{
    lemma_path_order_antisym(a.path, b.path);
    lemma_path_order_antisym(b.path, c.path);
    lemma_path_order_antisym(a.path, c.path);
    lemma_path_order_trans(a.path, b.path, c.path);
    lemma_path_order_zero(a.path, b.path);
    lemma_path_order_zero(b.path, c.path);
}

proof fn lemma_sorted_pairwise(s: Seq<FileEntryV>, i: int, j: int)
    requires
        sorted_by(s, entry_lt_fn()),
        0 <= i <= j < s.len(),
    ensures
        entry_le(s[i], s[j]),
    decreases j - i,
{
    if i < j {
        lemma_sorted_pairwise(s, i, j - 1);
        let m = j - 1;
        assert(!entry_lt_fn()(s[m + 1], s[m]));
        assert(s[m + 1] == s[j]);
        lemma_entry_le_trans(s[i], s[j - 1], s[j]);
    } else {
        lemma_path_order_zero(s[i].path, s[i].path);
        lemma_kind_lt_asym(s[i].kind, s[i].kind);
    }
}

proof fn lemma_sorted_drop_last(s: Seq<FileEntryV>)
    requires
        sorted_by(s, entry_lt_fn()),
        s.len() > 0,
    ensures
        sorted_by(s.drop_last(), entry_lt_fn()),
{
    let q = s.drop_last();
    assert forall|i: int| 0 <= i < q.len() - 1 implies !entry_lt_fn()(#[trigger] q[i + 1], q[i]) by {
        assert(q[i + 1] == s[i + 1] && q[i] == s[i]);
    }
}

/// Whether `s[p]` ends a run of entries with the same path.
pub open spec fn ends_run(s: Seq<FileEntryV>, p: int) -> bool {
    p == s.len() - 1 || s[p + 1].path != s[p].path
}

/// A kept entry of the entries before the last, other than the one the last
/// entry replaces, still ends its run.
proof fn lemma_ends_run_kept(s: Seq<FileEntryV>, k: int, p: int)
    requires
        s.len() > 0,
        0 <= p < s.len() - 1,
        0 <= k < keep_last(Seq::empty(), s.drop_last()).len(),
        s.drop_last()[p] == keep_last(Seq::empty(), s.drop_last())[k],
        ends_run(s.drop_last(), p),
        forall|m: int| 0 <= m < keep_last(Seq::empty(), s.drop_last()).len() - 1 ==> #[trigger] path_step(keep_last(Seq::empty(), s.drop_last()), m),
        keep_last(Seq::empty(), s.drop_last()).last().path == s.drop_last().last().path,
        !(k == keep_last(Seq::empty(), s.drop_last()).len() - 1 && keep_last(Seq::empty(), s.drop_last()).last().path == s.last().path),
    ensures
        s[p] == keep_last(Seq::empty(), s.drop_last())[k],
        ends_run(s, p),
{
    let q = s.drop_last();
    let r = keep_last(Seq::empty(), q);
    assert(s[p] == q[p]);
    if p == q.len() - 1 {
        assert(s[p + 1] == s.last());
        if k < r.len() - 1 {
            lemma_kept_chain(r, k, r.len() - 1);
            lemma_path_order_zero(r[k].path, r.last().path);
        }
    } else {
        assert(s[p + 1] == q[p + 1]);
    }
}

/// Each kept entry ends a run of entries of `s` with the same path: it is
/// the last entry, or the next one has another path.
proof fn lemma_keep_last_ends_run(s: Seq<FileEntryV>)
    requires
        sorted_by(s, entry_lt_fn()),
    ensures
        forall|k: int| #![trigger keep_last(Seq::empty(), s)[k]] 0 <= k < keep_last(Seq::empty(), s).len() ==>
            exists|p: int| #![trigger s[p]] 0 <= p < s.len() && s[p] == keep_last(Seq::empty(), s)[k] && ends_run(s, p),
    decreases s.len(),
{
    let r2 = keep_last(Seq::empty(), s);
    if s.len() > 0 {
        let q = s.drop_last();
        lemma_sorted_drop_last(s);
        lemma_keep_last_ends_run(q);
        lemma_keep_last_sorted(q);
        let r = keep_last(Seq::empty(), q);
        let x = s.last();
        let merged = r.len() > 0 && r.last().path == x.path;
        assert forall|k: int| #![trigger r2[k]] 0 <= k < r2.len() implies
            exists|p: int| #![trigger s[p]] 0 <= p < s.len() && s[p] == r2[k] && ends_run(s, p) by {
            if k == r2.len() - 1 && (merged || k == r.len()) {
                assert(s[s.len() - 1] == r2[k]);
            } else {
                assert(r2[k] == r[k]);
                let p = choose|p: int| #![trigger q[p]] 0 <= p < q.len() && q[p] == r[k] && ends_run(q, p);
                lemma_ends_run_kept(s, k, p);
            }
        }
    }
}

proof fn lemma_kept_chain(r: Seq<FileEntryV>, i: int, j: int)
    requires
        forall|m: int| 0 <= m < r.len() - 1 ==> #[trigger] path_step(r, m),
        0 <= i < j < r.len(),
    ensures
        path_order(r[i].path, r[j].path) < 0,
    decreases j - i,
{
    if i + 1 < j {
        lemma_kept_chain(r, i, j - 1);
        let m = j - 1;
        assert(path_step(r, m));
        lemma_path_order_trans(r[i].path, r[j - 1].path, r[j].path);
    } else {
        assert(path_step(r, i));
    }
}

/// Of files with the same path, the one of the latest kind is kept: the
/// kept file's kind comes after, or is, the kind of every file with its
/// path.
pub proof fn law_finalize_latest_kind_wins(files: Seq<FileEntryV>)
    ensures
        ({
            let kept = keep_last(Seq::empty(), insertion_sort(files, entry_lt_fn()));
            forall|k: int, i: int| 0 <= k < kept.len() && 0 <= i < files.len() && (#[trigger] files[i]).path == (#[trigger] kept[k]).path
                ==> !kind_lt(kept[k].kind, files[i].kind)
        }),
{
    broadcast use vstd::seq_lib::group_to_multiset_ensures;
    let sorted = insertion_sort(files, entry_lt_fn());
    let kept = keep_last(Seq::empty(), sorted);
    lemma_entry_lt_asymmetric();
    law_insertion_sort_sorted(files, entry_lt_fn());
    law_insertion_sort_permutes(files, entry_lt_fn());
    lemma_keep_last_ends_run(sorted);
    assert forall|k: int, i: int| 0 <= k < kept.len() && 0 <= i < files.len() && (#[trigger] files[i]).path == (#[trigger] kept[k]).path
        implies !kind_lt(kept[k].kind, files[i].kind) by {
        let p = choose|p: int| #![trigger sorted[p]] 0 <= p < sorted.len() && sorted[p] == kept[k] && ends_run(sorted, p);
        assert(files.to_multiset().count(files[i]) > 0);
        assert(sorted.contains(files[i]));
        let j = choose|j: int| 0 <= j < sorted.len() && sorted[j] == files[i];
        if j > p {
            lemma_sorted_pairwise(sorted, p, p + 1);
            lemma_sorted_pairwise(sorted, p + 1, j);
            lemma_path_order_antisym(sorted[p].path, sorted[p + 1].path);
            lemma_path_order_antisym(sorted[p + 1].path, sorted[j].path);
            lemma_path_order_zero(sorted[p].path, sorted[p + 1].path);
            lemma_path_order_trans(sorted[p].path, sorted[p + 1].path, sorted[j].path);
            lemma_path_order_zero(sorted[p].path, sorted[j].path);
            assert(false);
        } else {
            lemma_sorted_pairwise(sorted, j, p);
            lemma_path_order_zero(sorted[j].path, sorted[p].path);
            lemma_path_order_zero(sorted[p].path, sorted[j].path);
            lemma_kind_lt_asym(sorted[j].kind, sorted[p].kind);
        }
    }
}

proof fn lemma_end_of_run(ps: Seq<Seq<Seq<char>>>, p: Seq<Seq<char>>, s: int)
    requires
        0 <= s <= ps.len(),
    ensures
        s <= end_of_run(ps, p, s) <= ps.len(),
        forall|m: int| s <= m < end_of_run(ps, p, s) ==> path_starts_with(#[trigger] ps[m], p),
        end_of_run(ps, p, s) < ps.len() ==> !path_starts_with(ps[end_of_run(ps, p, s)], p),
    decreases ps.len() - s,
{
    if s < ps.len() && path_starts_with(ps[s], p) {
        lemma_end_of_run(ps, p, s + 1);
    }
}

/// A path comes after every path that it begins.
proof fn lemma_prefix_not_after(a: Seq<Seq<char>>, p: Seq<Seq<char>>)
    requires
        path_starts_with(a, p),
    ensures
        path_order(p, a) <= 0,
    decreases p.len(),
{
    if p.len() > 0 {
        assert(a[0] == p[0]) by {
            assert(a.take(p.len() as int)[0] == a[0]);
        }
        lemma_text_order_zero(p[0], a[0]);
        assert(a.drop_first().take(p.len() - 1) =~= a.take(p.len() as int).drop_first());
        lemma_prefix_not_after(a.drop_first(), p.drop_first());
    }
}

/// Every path beginning with `p` comes before a path that is not less than
/// `p` and does not begin with it.
proof fn lemma_prefixed_before(a: Seq<Seq<char>>, b: Seq<Seq<char>>, p: Seq<Seq<char>>)
    requires
        path_order(p, a) <= 0,
        !path_starts_with(a, p),
        path_starts_with(b, p),
    ensures
        path_order(b, a) < 0,
    decreases p.len(),
{
    if p.len() == 0 {
        assert(a.take(0) =~= p);
    } else {
        assert(b[0] == p[0]) by {
            assert(b.take(p.len() as int)[0] == b[0]);
        }
        lemma_text_order_range(p[0], a[0]);
        lemma_text_order_zero(p[0], a[0]);
        if text_order(p[0], a[0]) == 0 {
            let a1 = a.drop_first();
            let b1 = b.drop_first();
            let p1 = p.drop_first();
            if path_starts_with(a1, p1) {
                assert(a.take(p.len() as int) =~= p) by {
                    assert forall|k: int| 0 <= k < p.len() implies a.take(p.len() as int)[k] == p[k] by {
                        if k > 0 {
                            assert(a1.take(p1.len() as int)[k - 1] == p1[k - 1]);
                        }
                    }
                }
            }
            assert(b1.take(p1.len() as int) =~= b.take(p.len() as int).drop_first());
            lemma_prefixed_before(a1, b1, p1);
            lemma_text_order_zero(b[0], a[0]);
        }
    }
}

/// On paths in strictly increasing order, the run of paths that
/// [`Fileset::get_files_under`] gives holds exactly the paths that begin
/// with `p`.
pub proof fn law_files_under(ps: Seq<Seq<Seq<char>>>, p: Seq<Seq<char>>)
    requires
        forall|i: int, j: int| 0 <= i < j < ps.len() ==> path_order(#[trigger] ps[i], #[trigger] ps[j]) < 0,
    ensures
        ({
            let start = first_not_below(ps, p);
            let end = end_of_run(ps, p, start);
            &&& 0 <= start <= end <= ps.len()
            &&& forall|k: int| 0 <= k < ps.len() ==> (path_starts_with(#[trigger] ps[k], p) <==> start <= k < end)
        }),
{
    lemma_first_not_below(ps, p);
    let start = first_not_below(ps, p);
    lemma_end_of_run(ps, p, start);
    let end = end_of_run(ps, p, start);
    assert forall|k: int| 0 <= k < ps.len() implies (path_starts_with(#[trigger] ps[k], p) <==> start <= k < end) by {
        if k < start {
            if path_starts_with(ps[k], p) {
                lemma_prefix_not_after(ps[k], p);
                lemma_path_order_antisym(p, ps[k]);
            }
        } else if k >= end {
            if path_starts_with(ps[k], p) {
                lemma_path_order_antisym(ps[start], p);
                if end > start {
                    lemma_path_order_trans(p, ps[start], ps[end]);
                }
                lemma_prefixed_before(ps[end], ps[k], p);
                lemma_path_order_antisym(ps[k], ps[end]);
            }
        }
    }
}

proof fn lemma_sorted_pair(kept: Seq<FileEntryV>, i: int, j: int)
    requires
        0 <= i < j < kept.len(),
        forall|m: int| 0 <= m < kept.len() - 1 ==> path_order((#[trigger] kept[m]).path, kept[m + 1].path) < 0,
    ensures
        path_order(kept[i].path, kept[j].path) < 0,
    decreases j - i,
{
    assert(path_order(kept[j - 1].path, kept[j].path) < 0);
    if j > i + 1 {
        lemma_sorted_pair(kept, i, j - 1);
        lemma_path_order_trans(kept[i].path, kept[j - 1].path, kept[j].path);
    }
}

/// The paths of the files in load order.
pub open spec fn kept_paths(kept: Seq<FileEntryV>) -> Seq<Seq<Seq<char>>> {
    kept.map_values(|e: FileEntryV| e.path)
}

/// After [`Fileset::finalize`], the files that [`Fileset::get_files_under`]
/// gives for `p` are exactly the files whose paths begin with `p`.
pub proof fn law_finalized_files_under(files: Seq<FileEntryV>, p: Seq<Seq<char>>)
    ensures
        ({
            let ps = kept_paths(keep_last(Seq::empty(), insertion_sort(files, entry_lt_fn())));
            let start = first_not_below(ps, p);
            let end = end_of_run(ps, p, start);
            forall|k: int| 0 <= k < ps.len() ==> (path_starts_with(#[trigger] ps[k], p) <==> start <= k < end)
        }),
{
    law_finalize_sorted(files);
    let kept = keep_last(Seq::empty(), insertion_sort(files, entry_lt_fn()));
    let ps = kept_paths(kept);
    assert forall|i: int, j: int| 0 <= i < j < ps.len() implies path_order(#[trigger] ps[i], #[trigger] ps[j]) < 0 by {
        lemma_sorted_pair(kept, i, j);
    }
    law_files_under(ps, p);
}

/// Marking a file as used twice is marking it once, and afterwards it is
/// among the used files.
pub proof fn law_mark_used_twice(used: Seq<Seq<char>>, name: Seq<char>)
    ensures
        spec_mark_used(spec_mark_used(used, name), name) == spec_mark_used(used, name),
        spec_mark_used(used, name).contains(name),
{
    if !used.contains(name) {
        assert(used.push(name)[used.len() as int] == name);
    }
}


proof fn lemma_reported_dirs_are_parents(
    game: Game,
    dirs: Seq<Seq<Seq<char>>>,
    subdirs_ok: Seq<Seq<Seq<char>>>,
    files: Seq<Seq<Seq<char>>>,
    s: Seq<FileEntryV>,
    d: Seq<Seq<char>>,
)
    requires
        dir_reports(game, dirs, subdirs_ok, files, s).1.contains(d),
    ensures
        exists|k: int| 0 <= k < s.len() && parent_path(#[trigger] s[k].path) == d,
    decreases s.len(),
{
    let w = dir_reports(game, dirs, subdirs_ok, files, s.drop_last()).1;
    if w.contains(d) {
        lemma_reported_dirs_are_parents(game, dirs, subdirs_ok, files, s.drop_last(), d);
        let k = choose|k: int| 0 <= k < s.drop_last().len() && parent_path(#[trigger] s.drop_last()[k].path) == d;
        assert(s[k] == s.drop_last()[k]);
    } else {
        assert(parent_path(s[s.len() - 1].path) == d);
    }
}

/// Where `.txt` files under `common/` may lie: a file whose directory is not
/// exactly one of the known directories `dirs` (lying in a deeper directory
/// below a known one does not count) and which lies under none of the
/// directories `subdirs_ok` is reported as lying in an unexpected directory,
/// and a file directly in a known directory, or anywhere under one of
/// `subdirs_ok`, is not reported. This is said of a file with no earlier file
/// in its directory (each directory is reported once), other than
/// `common/achievement_groups.txt` and the known files of Hoi4.
pub proof fn law_unexpected_directory_reported(
    game: Game,
    dirs: Seq<Seq<Seq<char>>>,
    subdirs_ok: Seq<Seq<Seq<char>>>,
    files: Seq<Seq<Seq<char>>>,
    s: Seq<FileEntryV>,
    e: FileEntryV,
)
    requires
        ends_with_txt(path_text(e.path)),
        path_starts_with(e.path, common_dir()),
        e.path != seq!["common"@, "achievement_groups.txt"@],
        !(game is Hoi4 && files.contains(e.path)),
        forall|k: int| 0 <= k < s.len() ==> parent_path(#[trigger] s[k].path) != parent_path(e.path),
    ensures
        !dirs.contains(parent_path(e.path)) && !(exists|k: int| 0 <= k < subdirs_ok.len() && path_starts_with(e.path, #[trigger] subdirs_ok[k]))
            ==> dir_reports(game, dirs, subdirs_ok, files, s.push(e)).0 == dir_reports(game, dirs, subdirs_ok, files, s).0.push(
                dir_report(e, misplaced_msg(game, e.path, parent_path(e.path)), None),
            ),
        dirs.contains(parent_path(e.path)) || (exists|k: int| 0 <= k < subdirs_ok.len() && path_starts_with(e.path, #[trigger] subdirs_ok[k]))
            ==> dir_reports(game, dirs, subdirs_ok, files, s.push(e)).0 == dir_reports(game, dirs, subdirs_ok, files, s).0,
{
    let t = s.push(e);
    assert(t.drop_last() =~= s);
    assert(t.last() == e);
    let w = dir_reports(game, dirs, subdirs_ok, files, s).1;
    if w.contains(parent_path(e.path)) {
        lemma_reported_dirs_are_parents(game, dirs, subdirs_ok, files, s, parent_path(e.path));
    }
}

} // verus!
