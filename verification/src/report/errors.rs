//! The store of error reports, and what decides which reports are kept and shown.

use vstd::prelude::*;

use crate::fileset::FileKind;
use crate::order::{asymmetric, insert_pos, insertion_sort, lemma_insert_pos_is, sorted_insert};
use crate::pathtable::PathTableIndex;
use crate::report::{
    clone_opt, conf_rank, confidence_rank, duplicate_pointers, opt_eq, opt_view, ptrs_view,
    same_pointers, sev_rank, severity_rank, Confidence, ErrorKey, LogReportMetadata,
    LogReportStyle, MetadataV, PointedMessage, PointedMessageV, Severity,
};
use crate::text::{contains_piece, has_piece, nth_line, spec_lines, to_chars};
use crate::token::Loc;

verus! {

// ---------------------------------------------------------------------------
// Orders
// ---------------------------------------------------------------------------

/// Compares locations by file, then line, then column: -1, 0 or 1.
pub open spec fn loc_order(a: Loc, b: Loc) -> int {
    if a.idx.0 < b.idx.0 {
        -1
    } else if a.idx.0 > b.idx.0 {
        1
    } else if a.line < b.line {
        -1
    } else if a.line > b.line {
        1
    } else if a.column < b.column {
        -1
    } else if a.column > b.column {
        1
    } else {
        0
    }
}

/// Compares sequences of locations lexicographically.
pub open spec fn locs_order(a: Seq<Loc>, b: Seq<Loc>) -> int
    decreases a.len(),
{
    if a.len() == 0 {
        if b.len() == 0 { 0 } else { -1 }
    } else if b.len() == 0 {
        1
    } else if loc_order(a[0], b[0]) != 0 {
        loc_order(a[0], b[0])
    } else {
        locs_order(a.drop_first(), b.drop_first())
    }
}

/// Compares texts lexicographically by character.
pub open spec fn text_order(a: Seq<char>, b: Seq<char>) -> int
    decreases a.len(),
{
    if a.len() == 0 {
        if b.len() == 0 { 0 } else { -1 }
    } else if b.len() == 0 {
        1
    } else if a[0] < b[0] {
        -1
    } else if a[0] > b[0] {
        1
    } else {
        text_order(a.drop_first(), b.drop_first())
    }
}

pub proof fn lemma_locs_order_antisym(a: Seq<Loc>, b: Seq<Loc>)
    ensures
        locs_order(a, b) == -locs_order(b, a),
    decreases a.len(),
{
    if a.len() > 0 && b.len() > 0 && loc_order(a[0], b[0]) == 0 {
        lemma_locs_order_antisym(a.drop_first(), b.drop_first());
    }
}

pub proof fn lemma_text_order_antisym(a: Seq<char>, b: Seq<char>)
    ensures
        text_order(a, b) == -text_order(b, a),
    decreases a.len(),
{
    if a.len() > 0 && b.len() > 0 && a[0] == b[0] {
        lemma_text_order_antisym(a.drop_first(), b.drop_first());
    }
}

proof fn lemma_locs_order_skip(a: Seq<Loc>, b: Seq<Loc>, i: int)
    requires
        0 <= i <= a.len(),
        i <= b.len(),
        forall|k: int| 0 <= k < i ==> loc_order(#[trigger] a[k], b[k]) == 0,
    ensures
        locs_order(a, b) == locs_order(a.skip(i), b.skip(i)),
    decreases i,
{
    if i > 0 {
        assert(loc_order(a[0], b[0]) == 0);
        assert forall|k: int| 0 <= k < i - 1 implies loc_order(#[trigger] a.drop_first()[k], b.drop_first()[k]) == 0 by {
            assert(a.drop_first()[k] == a[k + 1]);
            assert(loc_order(a[k + 1], b[k + 1]) == 0);
        }
        lemma_locs_order_skip(a.drop_first(), b.drop_first(), i - 1);
        assert(a.drop_first().skip(i - 1) == a.skip(i));
        assert(b.drop_first().skip(i - 1) == b.skip(i));
    } else {
        assert(a.skip(0) == a);
        assert(b.skip(0) == b);
    }
}

proof fn lemma_text_order_skip(a: Seq<char>, b: Seq<char>, i: int)
    requires
        0 <= i <= a.len(),
        i <= b.len(),
        forall|k: int| 0 <= k < i ==> #[trigger] a[k] == b[k],
    ensures
        text_order(a, b) == text_order(a.skip(i), b.skip(i)),
    decreases i,
{
    if i > 0 {
        assert(a[0] == b[0]);
        assert forall|k: int| 0 <= k < i - 1 implies #[trigger] a.drop_first()[k] == b.drop_first()[k] by {
            assert(a.drop_first()[k] == a[k + 1]);
            assert(a[k + 1] == b[k + 1]);
        }
        lemma_text_order_skip(a.drop_first(), b.drop_first(), i - 1);
        assert(a.drop_first().skip(i - 1) == a.skip(i));
        assert(b.drop_first().skip(i - 1) == b.skip(i));
    } else {
        assert(a.skip(0) == a);
        assert(b.skip(0) == b);
    }
}

/// Compares two locations by file, then line, then column.
pub fn compare_locs(a: &Loc, b: &Loc) -> (res: i8)
    ensures
        res as int == loc_order(*a, *b),
{
    if a.idx.0 < b.idx.0 {
        -1
    } else if a.idx.0 > b.idx.0 {
        1
    } else if a.line < b.line {
        -1
    } else if a.line > b.line {
        1
    } else if a.column < b.column {
        -1
    } else if a.column > b.column {
        1
    } else {
        0
    }
}

/// The locations of a list of pointers.
pub open spec fn ptr_locs(p: Seq<PointedMessageV>) -> Seq<Loc> {
    p.map_values(|m: PointedMessageV| m.loc)
}

/// Compares the locations of two lists of pointers lexicographically.
pub fn compare_pointer_locs(a: &Vec<PointedMessage>, b: &Vec<PointedMessage>) -> (res: i8)
    ensures
        res as int == locs_order(ptr_locs(ptrs_view(a@)), ptr_locs(ptrs_view(b@))),
{
    let ghost la = ptr_locs(ptrs_view(a@));
    let ghost lb = ptr_locs(ptrs_view(b@));
    let mut i: usize = 0;
    while i < a.len() && i < b.len()
        invariant
            i <= a.len(),
            i <= b.len(),
            la == ptr_locs(ptrs_view(a@)),
            lb == ptr_locs(ptrs_view(b@)),
            forall|k: int| 0 <= k < i ==> loc_order(#[trigger] la[k], lb[k]) == 0,
        decreases a.len() - i,
    {
        let c = compare_locs(&a[i].loc, &b[i].loc);
        assert(la[i as int] == a@[i as int].loc);
        assert(lb[i as int] == b@[i as int].loc);
        if c != 0 {
            proof {
                lemma_locs_order_skip(la, lb, i as int);
                assert(la.skip(i as int)[0] == la[i as int]);
                assert(lb.skip(i as int)[0] == lb[i as int]);
            }
            return c;
        }
        i += 1;
    }
    proof {
        lemma_locs_order_skip(la, lb, i as int);
    }
    if i < a.len() {
        1
    } else if i < b.len() {
        -1
    } else {
        0
    }
}

/// Compares two texts lexicographically by character.
pub fn compare_text(a: &Vec<char>, b: &Vec<char>) -> (res: i8)
    ensures
        res as int == text_order(a@, b@),
{
    let mut i: usize = 0;
    while i < a.len() && i < b.len()
        invariant
            i <= a.len(),
            i <= b.len(),
            forall|k: int| 0 <= k < i ==> #[trigger] a@[k] == b@[k],
        decreases a.len() - i,
    {
        if a[i] != b[i] {
            proof {
                lemma_text_order_skip(a@, b@, i as int);
                assert(a@.skip(i as int)[0] == a@[i as int]);
                assert(b@.skip(i as int)[0] == b@[i as int]);
            }
            if a[i] < b[i] {
                return -1;
            } else {
                return 1;
            }
        }
        i += 1;
    }
    proof {
        lemma_text_order_skip(a@, b@, i as int);
    }
    if i < a.len() {
        1
    } else if i < b.len() {
        -1
    } else {
        0
    }
}

// ---------------------------------------------------------------------------
// Flattened reports and their order
// ---------------------------------------------------------------------------

/// A report ready to be shown: its metadata, its locations, and how many more
/// occurrences were folded into it.
#[derive(Debug)]
pub struct FlatReport {
    pub report: LogReportMetadata,
    pub pointers: Vec<PointedMessage>,
    pub additional: usize,
}

/// The plain-value form of a [`FlatReport`].
pub struct FlatReportV {
    pub report: MetadataV,
    pub pointers: Seq<PointedMessageV>,
    pub additional: int,
}

impl View for FlatReport {
    type V = FlatReportV;

    open spec fn view(&self) -> FlatReportV {
        FlatReportV {
            report: self.report@,
            pointers: ptrs_view(self.pointers@),
            additional: self.additional as int,
        }
    }
}

impl FlatReport {
    pub fn duplicate(&self) -> (res: FlatReport)
        ensures
            res@ == self@,
    {
        FlatReport {
            report: self.report.duplicate(),
            pointers: duplicate_pointers(&self.pointers),
            additional: self.additional,
        }
    }
}

pub open spec fn flats_view(v: Seq<FlatReport>) -> Seq<FlatReportV> {
    v.map_values(|f: FlatReport| f@)
}

/// The order in which reports are shown: higher severity first, then higher
/// confidence, then by locations, then by message.
pub open spec fn report_order(a: FlatReportV, b: FlatReportV) -> int {
    if sev_rank(a.report.severity) != sev_rank(b.report.severity) {
        if sev_rank(a.report.severity) > sev_rank(b.report.severity) { -1 } else { 1 }
    } else if conf_rank(a.report.confidence) != conf_rank(b.report.confidence) {
        if conf_rank(a.report.confidence) > conf_rank(b.report.confidence) { -1 } else { 1 }
    } else if locs_order(ptr_locs(a.pointers), ptr_locs(b.pointers)) != 0 {
        locs_order(ptr_locs(a.pointers), ptr_locs(b.pointers))
    } else {
        text_order(a.report.msg, b.report.msg)
    }
}

/// `a` is shown before `b`.
pub open spec fn report_lt(a: FlatReportV, b: FlatReportV) -> bool {
    report_order(a, b) < 0
}

pub open spec fn report_lt_fn() -> spec_fn(FlatReportV, FlatReportV) -> bool {
    |a: FlatReportV, b: FlatReportV| report_lt(a, b)
}

/// A pointer comes before another when its location does.
pub open spec fn ptr_lt_fn() -> spec_fn(PointedMessageV, PointedMessageV) -> bool {
    |a: PointedMessageV, b: PointedMessageV| loc_order(a.loc, b.loc) < 0
}

pub proof fn lemma_report_lt_asymmetric()
    ensures
        asymmetric(report_lt_fn()),
{
    assert forall|a: FlatReportV, b: FlatReportV| #[trigger] report_lt_fn()(a, b) implies !report_lt_fn()(b, a) by {
        lemma_locs_order_antisym(ptr_locs(a.pointers), ptr_locs(b.pointers));
        lemma_text_order_antisym(a.report.msg, b.report.msg);
    }
}

pub proof fn lemma_ptr_lt_asymmetric()
    ensures
        asymmetric(ptr_lt_fn()),
{
}

/// Compares two reports in the order in which they are shown.
pub fn compare_reports(a: &FlatReport, b: &FlatReport) -> (res: i8)
    ensures
        res as int == report_order(a@, b@),
{
    let sa = severity_rank(a.report.severity);
    let sb = severity_rank(b.report.severity);
    if sa != sb {
        return if sa > sb { -1 } else { 1 };
    }
    let ca = confidence_rank(a.report.confidence);
    let cb = confidence_rank(b.report.confidence);
    if ca != cb {
        return if ca > cb { -1 } else { 1 };
    }
    let c = compare_pointer_locs(&a.pointers, &b.pointers);
    if c != 0 {
        return c;
    }
    compare_text(&to_chars(a.report.msg.as_str()), &to_chars(b.report.msg.as_str()))
}

/// Inserts `x` into `res` where insertion sort in show order puts it.
fn insert_report(res: &mut Vec<FlatReport>, x: FlatReport)
    ensures
        flats_view(final(res)@) == sorted_insert(flats_view(old(res)@), x@, report_lt_fn()),
{
    let ghost s = flats_view(res@);
    let mut j: usize = 0;
    let mut found = false;
    while j < res.len() && !found
        invariant
            j <= res.len(),
            s == flats_view(res@),
            forall|k: int| 0 <= k < j ==> !report_lt_fn()(x@, #[trigger] s[k]),
            found ==> j < res.len() && report_lt_fn()(x@, s[j as int]),
        decreases res.len() - j + (if found { 0int } else { 1int }),
    {
        if compare_reports(&x, &res[j]) < 0 {
            found = true;
        } else {
            j += 1;
        }
    }
    proof {
        lemma_insert_pos_is(s, x@, report_lt_fn(), j as int);
    }
    let ghost xv = x@;
    res.insert(j, x);
    assert(flats_view(res@) =~= s.insert(j as int, xv));
}

/// Inserts `x` into `res` where insertion sort by location puts it.
fn insert_pointer(res: &mut Vec<PointedMessage>, x: PointedMessage)
    ensures
        ptrs_view(final(res)@) == sorted_insert(ptrs_view(old(res)@), x@, ptr_lt_fn()),
{
    let ghost s = ptrs_view(res@);
    let mut j: usize = 0;
    let mut found = false;
    while j < res.len() && !found
        invariant
            j <= res.len(),
            s == ptrs_view(res@),
            forall|k: int| 0 <= k < j ==> !ptr_lt_fn()(x@, #[trigger] s[k]),
            found ==> j < res.len() && ptr_lt_fn()(x@, s[j as int]),
        decreases res.len() - j + (if found { 0int } else { 1int }),
    {
        if compare_locs(&x.loc, &res[j].loc) < 0 {
            found = true;
        } else {
            j += 1;
        }
    }
    proof {
        lemma_insert_pos_is(s, x@, ptr_lt_fn(), j as int);
    }
    let ghost xv = x@;
    res.insert(j, x);
    assert(ptrs_view(res@) =~= s.insert(j as int, xv));
}

// ---------------------------------------------------------------------------
// Ignore directives, suppressions, the source cache and the filter
// ---------------------------------------------------------------------------

/// One end of a range of lines.
#[derive(Clone, Copy, Debug, PartialEq, Eq, Structural)]
pub enum LineBound {
    Included(u32),
    Excluded(u32),
    Unbounded,
}

pub open spec fn above_start(b: LineBound, line: u32) -> bool {
    match b {
        LineBound::Included(s) => line >= s,
        LineBound::Excluded(s) => line > s,
        LineBound::Unbounded => true,
    }
}

pub open spec fn below_end(b: LineBound, line: u32) -> bool {
    match b {
        LineBound::Included(e) => line <= e,
        LineBound::Excluded(e) => line < e,
        LineBound::Unbounded => true,
    }
}

fn within(start: LineBound, end: LineBound, line: u32) -> (res: bool)
    ensures
        res == (above_start(start, line) && below_end(end, line)),
{
    let a = match start {
        LineBound::Included(s) => line >= s,
        LineBound::Excluded(s) => line > s,
        LineBound::Unbounded => true,
    };
    let b = match end {
        LineBound::Included(e) => line <= e,
        LineBound::Excluded(e) => line < e,
        LineBound::Unbounded => true,
    };
    a && b
}

/// Which reports an ignore directive applies to: those with this key, if
/// one is given, whose message contains this text, if one is given.
#[derive(Debug)]
pub struct IgnoreFilter {
    pub key: Option<ErrorKey>,
    pub text: Option<String>,
}

/// An ignore directive for a range of lines of one file.
#[derive(Debug)]
pub struct IgnoreEntry {
    pub path: PathTableIndex,
    pub start: LineBound,
    pub end: LineBound,
    pub filter: IgnoreFilter,
}

pub struct IgnoreEntryV {
    pub path: PathTableIndex,
    pub start: LineBound,
    pub end: LineBound,
    pub key: Option<ErrorKey>,
    pub text: Option<Seq<char>>,
}

impl View for IgnoreEntry {
    type V = IgnoreEntryV;

    open spec fn view(&self) -> IgnoreEntryV {
        IgnoreEntryV {
            path: self.path,
            start: self.start,
            end: self.end,
            key: self.filter.key,
            text: opt_view(self.filter.text),
        }
    }
}

pub open spec fn filter_matches(e: IgnoreEntryV, key: ErrorKey, msg: Seq<char>) -> bool {
    (match e.key {
        Some(k) => k == key,
        None => true,
    }) && (match e.text {
        Some(t) => has_piece(msg, t),
        None => true,
    })
}

impl IgnoreFilter {
    pub fn matches(&self, key: ErrorKey, msg: &Vec<char>) -> (res: bool)
        ensures
            res == ((match self.key {
                Some(k) => k == key,
                None => true,
            }) && (match opt_view(self.text) {
                Some(t) => has_piece(msg@, t),
                None => true,
            })),
    {
        let key_ok = match self.key {
            Some(k) => k == key,
            None => true,
        };
        if !key_ok {
            return false;
        }
        match &self.text {
            Some(t) => contains_piece(msg, &to_chars(t.as_str())),
            None => true,
        }
    }
}

/// Whether an ignore directive covers one of the report's locations.
pub open spec fn spec_should_ignore(r: MetadataV, p: Seq<PointedMessageV>, ignore: Seq<IgnoreEntryV>) -> bool {
    exists|i: int, j: int|
        0 <= i < p.len() && 0 <= j < ignore.len() && #[trigger] ignore[j].path == #[trigger] p[i].loc.idx
            && above_start(ignore[j].start, p[i].loc.line) && below_end(ignore[j].end, p[i].loc.line)
            && filter_matches(ignore[j], r.key, r.msg)
}

/// A report occurrence that was reviewed and should not be shown again: for
/// one location, the file, the pointer's message and the text of the line.
#[derive(Debug)]
pub struct Suppression {
    pub path: PathTableIndex,
    pub tag: Option<String>,
    pub line: Option<String>,
}

/// The suppressions for the reports with one key and message.
#[derive(Debug)]
pub struct SuppressionEntry {
    pub key: ErrorKey,
    pub message: String,
    pub suppressions: Vec<Vec<Suppression>>,
}

pub struct SuppressionV {
    pub path: PathTableIndex,
    pub tag: Option<Seq<char>>,
    pub line: Option<Seq<char>>,
}

impl View for Suppression {
    type V = SuppressionV;

    open spec fn view(&self) -> SuppressionV {
        SuppressionV { path: self.path, tag: opt_view(self.tag), line: opt_view(self.line) }
    }
}

pub open spec fn suppression_list_view(l: Seq<Suppression>) -> Seq<SuppressionV> {
    l.map_values(|x: Suppression| x@)
}

pub open spec fn suppressions_view(s: Seq<SuppressionEntry>) -> Seq<(ErrorKey, Seq<char>, Seq<Seq<SuppressionV>>)> {
    s.map_values(|e: SuppressionEntry| (e.key, e.message@, e.suppressions@.map_values(|l: Vec<Suppression>| suppression_list_view(l@))))
}

/// A suppression matches a pointer when the file, the pointer's message and
/// the text of the line are all the same.
pub open spec fn suppression_matches(s: SuppressionV, p: PointedMessageV, cache: Seq<(PathTableIndex, Seq<char>)>) -> bool {
    s.path == p.loc.idx && s.tag == p.msg && s.line == spec_get_line(cache, p.loc)
}

/// A list of suppressions applies to a list of pointers of the same length
/// when one of its suppressions matches the pointer at the same position.
pub open spec fn list_suppresses(l: Seq<SuppressionV>, p: Seq<PointedMessageV>, cache: Seq<(PathTableIndex, Seq<char>)>) -> bool {
    l.len() == p.len() && exists|k: int| 0 <= k < p.len() && suppression_matches(#[trigger] l[k], p[k], cache)
}

/// Whether a suppression recorded for the report's key and message applies.
pub open spec fn spec_should_suppress(
    r: MetadataV,
    p: Seq<PointedMessageV>,
    sup: Seq<(ErrorKey, Seq<char>, Seq<Seq<SuppressionV>>)>,
    cache: Seq<(PathTableIndex, Seq<char>)>,
) -> bool {
    exists|e: int, v: int|
        0 <= e < sup.len() && sup[e].0 == r.key && sup[e].1 == r.msg && 0 <= v < sup[e].2.len()
            && list_suppresses(#[trigger] sup[e].2[v], p, cache)
}

/// The source texts of files, for showing and comparing report lines.
#[derive(Debug)]
pub struct Cache {
    files: Vec<(PathTableIndex, String)>,
}

/// The text of the file with index `idx` in a cache, if it is there.
pub open spec fn cached_text(files: Seq<(PathTableIndex, Seq<char>)>, idx: PathTableIndex) -> Option<Seq<char>>
    decreases files.len(),
{
    if files.len() == 0 {
        None
    } else if files.last().0 == idx {
        Some(files.last().1)
    } else {
        cached_text(files.drop_last(), idx)
    }
}

/// Line `loc.line` of the cached file of `loc`; `None` for line 0, for a
/// file that is not cached, or for a line past the end.
pub open spec fn spec_get_line(files: Seq<(PathTableIndex, Seq<char>)>, loc: Loc) -> Option<Seq<char>> {
    if loc.line == 0 {
        None
    } else {
        match cached_text(files, loc.idx) {
            Some(t) => if loc.line - 1 < spec_lines(t).len() {
                Some(spec_lines(t)[loc.line - 1])
            } else {
                None
            },
            None => None,
        }
    }
}

impl View for Cache {
    type V = Seq<(PathTableIndex, Seq<char>)>;

    closed spec fn view(&self) -> Seq<(PathTableIndex, Seq<char>)> {
        self.files@.map_values(|f: (PathTableIndex, String)| (f.0, f.1@))
    }
}

impl Cache {
    pub fn new() -> (res: Cache)
        ensures
            res@.len() == 0,
    {
        let res = Cache { files: Vec::new() };
        assert(res@ =~= Seq::<(PathTableIndex, Seq<char>)>::empty());
        res
    }

    /// Records the source text of a file; it takes the place of any earlier text.
    pub fn store(&mut self, idx: PathTableIndex, source: String)
        ensures
            final(self)@ == old(self)@.push((idx, source@)),
    {
        let ghost before = self.files@;
        let ghost sv = source@;
        self.files.push((idx, source));
        assert(self@ =~= before.map_values(|f: (PathTableIndex, String)| (f.0, f.1@)).push((idx, sv)));
    }

    /// The text of one line of a script file.
    pub fn get_line(&self, loc: Loc) -> (res: Option<Vec<char>>)
        ensures
            match res {
                Some(l) => spec_get_line(self@, loc) == Some(l@),
                None => spec_get_line(self@, loc) is None,
            },
    {
        if loc.line == 0 {
            return None;
        }
        let mut i = self.files.len();
        assert(self@.take(i as int) =~= self@);
        while i > 0
            invariant
                i <= self.files@.len(),
                self@.len() == self.files@.len(),
                loc.line > 0,
                cached_text(self@, loc.idx) == cached_text(self@.take(i as int), loc.idx),
            decreases i,
        {
            assert(self@.take(i as int).drop_last() == self@.take(i - 1));
            assert(self@.take(i as int).last() == self@[i - 1]);
            if self.files[i - 1].0 == loc.idx {
                let text = to_chars(self.files[i - 1].1.as_str());
                assert(self@[i - 1].1 == self.files@[i - 1].1@);
                return nth_line(&text, loc.line as usize);
            }
            i -= 1;
        }
        None
    }
}

/// What decoding bytes as UTF-8 gives: the text and whether some bytes were
/// malformed (`encoding_rs::UTF_8.decode`, which also strips a byte order
/// mark and follows one that names another encoding).
pub uninterp spec fn utf8_decoded(bytes: Seq<u8>) -> (Seq<char>, bool);

/// What decoding bytes as Windows-1252 gives (`encoding_rs::WINDOWS_1252.decode`).
pub uninterp spec fn windows1252_decoded(bytes: Seq<u8>) -> Seq<char>;

/// Whether every byte is ASCII.
pub open spec fn all_ascii(bytes: Seq<u8>) -> bool {
    forall|i: int| 0 <= i < bytes.len() ==> #[trigger] bytes[i] < 0x80
}

/// The characters that ASCII bytes stand for.
pub open spec fn ascii_chars(bytes: Seq<u8>) -> Seq<char> {
    bytes.map_values(|b: u8| b as char)
}

/// Decodes bytes with `encoding_rs::UTF_8.decode`: the text, and whether
/// malformed bytes were replaced. As the crate documents, valid UTF-8 (so
/// ASCII) is handed back as it is, without errors; of other input nothing
/// is claimed but that it is what the named result says. The crate panics
/// when the size of its output buffer overflows, so huge inputs are left
/// out.
#[verifier::external_body]
fn decode_utf8(bytes: &[u8]) -> (res: (String, bool))
    requires
        bytes@.len() <= usize::MAX / 4,
    ensures
        (res.0@, res.1) == utf8_decoded(bytes@),
        all_ascii(bytes@) ==> res.0@ == ascii_chars(bytes@) && !res.1,
{
    let (text, _, had_errors) = encoding_rs::UTF_8.decode(bytes);
    (text.into_owned(), had_errors)
}

/// Decodes bytes with `encoding_rs::WINDOWS_1252.decode`. As the crate
/// documents, ASCII input is handed back as it is; of other input nothing is
/// claimed but that it is what the named result says. Huge inputs, on which
/// the crate panics, are left out.
#[verifier::external_body]
fn decode_windows1252(bytes: &[u8]) -> (res: String)
    requires
        bytes@.len() <= usize::MAX / 4,
    ensures
        res@ == windows1252_decoded(bytes@),
        all_ascii(bytes@) ==> res@ == ascii_chars(bytes@),
{
    encoding_rs::WINDOWS_1252.decode(bytes).0.into_owned()
}

/// The text of a source file's bytes: as UTF-8 if they are well-formed
/// UTF-8, else as Windows-1252.
pub open spec fn spec_source_text(bytes: Seq<u8>) -> Seq<char> {
    if utf8_decoded(bytes).1 { windows1252_decoded(bytes) } else { utf8_decoded(bytes).0 }
}

/// Decodes the bytes of a source file (see [`spec_source_text`]).
pub fn decode_source(bytes: &Vec<u8>) -> (res: String)
    requires
        bytes@.len() <= usize::MAX / 4,
    ensures
        res@ == spec_source_text(bytes@),
        all_ascii(bytes@) ==> res@ == ascii_chars(bytes@),
{
    let (text, had_errors) = decode_utf8(bytes.as_slice());
    if had_errors {
        decode_windows1252(bytes.as_slice())
    } else {
        text
    }
}

impl Cache {
    /// Records the source text of a file from its bytes (see
    /// [`decode_source`]).
    pub fn store_bytes(&mut self, idx: PathTableIndex, bytes: &Vec<u8>)
        requires
            bytes@.len() <= usize::MAX / 4,
        ensures
            final(self)@ == old(self)@.push((idx, spec_source_text(bytes@))),
            all_ascii(bytes@) ==> final(self)@ == old(self)@.push((idx, ascii_chars(bytes@))),
    {
        let text = decode_source(bytes);
        self.store(idx, text);
    }
}

/// Output colouring.
#[derive(Clone, Copy, Debug, PartialEq, Eq, Structural)]
pub struct OutputStyle {
    pub color: bool,
}

impl OutputStyle {
    /// The style without colours.
    pub fn no_color() -> (res: OutputStyle)
        ensures
            !res.color,
    {
        OutputStyle { color: false }
    }
}

/// The least severity and confidence a report must have to be shown.
#[derive(Clone, Copy, Debug, PartialEq, Eq, Structural)]
pub struct FilterRule {
    pub min_severity: Severity,
    pub min_confidence: Confidence,
}

/// Decides which reports are shown: those that pass the rule and touch the
/// mod, or loaded mods or base game files when those are asked for.
#[derive(Clone, Copy, Debug, PartialEq, Eq, Structural)]
pub struct ReportFilter {
    pub show_vanilla: bool,
    pub show_loaded_mods: bool,
    pub predicate: FilterRule,
}

pub open spec fn counts_as_vanilla(k: FileKind) -> bool {
    k is Clausewitz || k is Jomini || k is Vanilla || k is Dlc
}

/// Whether the filter lets reports at `loc` through.
pub open spec fn loc_shown(f: ReportFilter, loc: Loc) -> bool {
    loc.kind is Mod || (f.show_loaded_mods && loc.kind is LoadedMod) || (f.show_vanilla
        && counts_as_vanilla(loc.kind))
}

pub open spec fn spec_should_maybe_print(f: ReportFilter, key: ErrorKey, loc: Loc) -> bool {
    key is Config || loc_shown(f, loc)
}

pub open spec fn spec_should_print(f: ReportFilter, r: MetadataV, p: Seq<PointedMessageV>) -> bool {
    sev_rank(r.severity) >= sev_rank(f.predicate.min_severity) && conf_rank(r.confidence)
        >= conf_rank(f.predicate.min_confidence) && (r.key is Config || exists|i: int|
        0 <= i < p.len() && loc_shown(f, #[trigger] p[i].loc))
}

impl ReportFilter {
    pub fn new() -> (res: ReportFilter)
        ensures
            !res.show_vanilla,
            !res.show_loaded_mods,
            res.predicate == (FilterRule { min_severity: Severity::Tips, min_confidence: Confidence::Weak }),
    {
        ReportFilter {
            show_vanilla: false,
            show_loaded_mods: false,
            predicate: FilterRule { min_severity: Severity::Tips, min_confidence: Confidence::Weak },
        }
    }

    fn loc_shown(&self, loc: &Loc) -> (res: bool)
        ensures
            res == loc_shown(*self, *loc),
    {
        match loc.kind {
            FileKind::Mod => true,
            FileKind::LoadedMod(_) => self.show_loaded_mods,
            FileKind::Internal => false,
            _ => self.show_vanilla,
        }
    }

    /// Whether a report with this key at this location could be shown.
    pub fn should_maybe_print(&self, key: ErrorKey, loc: Loc) -> (res: bool)
        ensures
            res == spec_should_maybe_print(*self, key, loc),
    {
        key == ErrorKey::Config || self.loc_shown(&loc)
    }

    /// Whether a report is shown.
    pub fn should_print_report(&self, r: &LogReportMetadata, p: &Vec<PointedMessage>) -> (res: bool)
        ensures
            res == spec_should_print(*self, r@, ptrs_view(p@)),
    {
        if severity_rank(r.severity) < severity_rank(self.predicate.min_severity) {
            return false;
        }
        if confidence_rank(r.confidence) < confidence_rank(self.predicate.min_confidence) {
            return false;
        }
        if r.key == ErrorKey::Config {
            return true;
        }
        let mut i: usize = 0;
        while i < p.len()
            invariant
                i <= p.len(),
                sev_rank(r.severity) >= sev_rank(self.predicate.min_severity),
                conf_rank(r.confidence) >= conf_rank(self.predicate.min_confidence),
                !(r.key is Config),
                forall|k: int| 0 <= k < i ==> !loc_shown(*self, #[trigger] ptrs_view(p@)[k].loc),
            decreases p.len() - i,
        {
            if self.loc_shown(&p[i].loc) {
                assert(ptrs_view(p@)[i as int].loc == p@[i as int].loc);
                assert(loc_shown(*self, ptrs_view(p@)[i as int].loc));
                return true;
            }
            i += 1;
        }
        false
    }
}

// ---------------------------------------------------------------------------
// The report store
// ---------------------------------------------------------------------------

/// A report and the distinct lists of locations it was logged with.
#[derive(Debug)]
pub struct StoredReport {
    pub report: LogReportMetadata,
    pub occurrences: Vec<Vec<PointedMessage>>,
}

pub open spec fn occs_view(o: Seq<Vec<PointedMessage>>) -> Seq<Seq<PointedMessageV>> {
    o.map_values(|v: Vec<PointedMessage>| ptrs_view(v@))
}

pub open spec fn stored_view(s: Seq<StoredReport>) -> Seq<(MetadataV, Seq<Seq<PointedMessageV>>)> {
    s.map_values(|r: StoredReport| (r.report@, occs_view(r.occurrences@)))
}

pub open spec fn ignore_view(s: Seq<IgnoreEntry>) -> Seq<IgnoreEntryV> {
    s.map_values(|e: IgnoreEntry| e@)
}

/// The index of the stored report with metadata `r`, or -1.
pub open spec fn find_report(s: Seq<(MetadataV, Seq<Seq<PointedMessageV>>)>, r: MetadataV) -> int
    decreases s.len(),
{
    if s.len() == 0 {
        -1
    } else if s.last().0 == r {
        s.len() - 1
    } else {
        find_report(s.drop_last(), r)
    }
}

proof fn lemma_find_report(s: Seq<(MetadataV, Seq<Seq<PointedMessageV>>)>, r: MetadataV)
    ensures
        -1 <= find_report(s, r) < s.len(),
        find_report(s, r) >= 0 ==> s[find_report(s, r)].0 == r,
        find_report(s, r) == -1 ==> forall|k: int| 0 <= k < s.len() ==> (#[trigger] s[k]).0 != r,
    decreases s.len(),
{
    if s.len() > 0 {
        lemma_find_report(s.drop_last(), r);
        if s.last().0 != r && find_report(s, r) == -1 {
            assert forall|k: int| 0 <= k < s.len() implies (#[trigger] s[k]).0 != r by {
                if k < s.len() - 1 {
                    assert(s[k] == s.drop_last()[k]);
                }
            }
        }
    }
}

/// The store after adding one occurrence of report `r`: a new report goes at
/// the end; a new occurrence of a known report is added to its occurrences;
/// a known occurrence changes nothing.
pub open spec fn store_insert(
    s: Seq<(MetadataV, Seq<Seq<PointedMessageV>>)>,
    r: MetadataV,
    p: Seq<PointedMessageV>,
) -> Seq<(MetadataV, Seq<Seq<PointedMessageV>>)> {
    let i = find_report(s, r);
    if i == -1 {
        s.push((r, seq![p]))
    } else if s[i].1.contains(p) {
        s
    } else {
        s.update(i, (r, s[i].1.push(p)))
    }
}

/// The store holds each report once, each of its occurrences once, and no
/// empty list of locations.
pub open spec fn store_wf(s: Seq<(MetadataV, Seq<Seq<PointedMessageV>>)>) -> bool {
    &&& forall|i: int, j: int| 0 <= i < j < s.len() ==> (#[trigger] s[i]).0 != (#[trigger] s[j]).0
    &&& forall|i: int, a: int, b: int|
        0 <= i < s.len() && 0 <= a < b < s[i].1.len() ==> (#[trigger] s[i].1[a]) != (#[trigger] s[i].1[b])
    &&& forall|i: int, a: int| 0 <= i < s.len() && 0 <= a < s[i].1.len() ==> (#[trigger] s[i].1[a]).len() > 0
}

// ---------------------------------------------------------------------------
// Flattening the store into the list of reports to show
// ---------------------------------------------------------------------------

/// Report keys whose occurrences are folded into one report when reports are
/// consolidated.
pub open spec fn log_once(k: ErrorKey) -> bool {
    k is MissingFile || k is MissingItem || k is MissingLocalization || k is MissingPerspective
        || k is MissingSound
}

fn is_log_once(k: ErrorKey) -> (res: bool)
    ensures
        res == log_once(k),
{
    match k {
        ErrorKey::MissingFile | ErrorKey::MissingItem | ErrorKey::MissingLocalization
        | ErrorKey::MissingPerspective | ErrorKey::MissingSound => true,
        _ => false,
    }
}

/// The occurrences of `r` that no ignore directive covers, in order.
pub open spec fn kept_occ(r: MetadataV, occ: Seq<Seq<PointedMessageV>>, ignore: Seq<IgnoreEntryV>) -> Seq<Seq<PointedMessageV>>
    decreases occ.len(),
{
    if occ.len() == 0 {
        occ
    } else {
        let k = kept_occ(r, occ.drop_last(), ignore);
        if spec_should_ignore(r, occ.last(), ignore) {
            k
        } else {
            k.push(occ.last())
        }
    }
}

proof fn lemma_kept_nonempty(r: MetadataV, occ: Seq<Seq<PointedMessageV>>, ignore: Seq<IgnoreEntryV>)
    requires
        forall|a: int| 0 <= a < occ.len() ==> (#[trigger] occ[a]).len() > 0,
    ensures
        forall|a: int| 0 <= a < kept_occ(r, occ, ignore).len() ==> (#[trigger] kept_occ(r, occ, ignore)[a]).len() > 0,
    decreases occ.len(),
{
    if occ.len() > 0 {
        assert forall|a: int| 0 <= a < occ.drop_last().len() implies (#[trigger] occ.drop_last()[a]).len() > 0 by {
            assert(occ.drop_last()[a] == occ[a]);
        }
        lemma_kept_nonempty(r, occ.drop_last(), ignore);
        let k = kept_occ(r, occ.drop_last(), ignore);
        if !spec_should_ignore(r, occ.last(), ignore) {
            assert forall|a: int| 0 <= a < k.push(occ.last()).len() implies (#[trigger] k.push(occ.last())[a]).len() > 0 by {
                if a < k.len() {
                    assert(k.push(occ.last())[a] == k[a]);
                }
            }
        }
    }
}

/// The first of the occurrences with the least locations (the fold of
/// `min_by` over them).
pub open spec fn min_occurrence(occ: Seq<Seq<PointedMessageV>>) -> Seq<PointedMessageV>
    decreases occ.len(),
{
    if occ.len() == 0 {
        Seq::empty()
    } else if occ.len() == 1 {
        occ[0]
    } else {
        let m = min_occurrence(occ.drop_last());
        if locs_order(ptr_locs(m), ptr_locs(occ.last())) <= 0 {
            m
        } else {
            occ.last()
        }
    }
}

/// The first pointer of each occurrence.
pub open spec fn first_pointers(occ: Seq<Seq<PointedMessageV>>) -> Seq<PointedMessageV> {
    occ.map_values(|o: Seq<PointedMessageV>| o[0])
}

/// What one stored report contributes to the list of reports to show.
/// A fully shown report gives one entry per kept occurrence, or, when
/// consolidating a key that is logged once, one entry for the least
/// occurrence counting the others. An abbreviated report gives one entry with
/// the first location of each kept occurrence, sorted by location.
pub open spec fn entries_for(
    r: MetadataV,
    occ: Seq<Seq<PointedMessageV>>,
    ignore: Seq<IgnoreEntryV>,
    consolidate: bool,
) -> Seq<FlatReportV> {
    let k = kept_occ(r, occ, ignore);
    match r.style {
        LogReportStyle::Full => if consolidate && log_once(r.key) {
            if k.len() == 0 {
                Seq::empty()
            } else {
                seq![FlatReportV { report: r, pointers: min_occurrence(k), additional: k.len() - 1 }]
            }
        } else {
            k.map_values(|p: Seq<PointedMessageV>| FlatReportV { report: r, pointers: p, additional: 0 })
        },
        LogReportStyle::Abbreviated => if k.len() == 0 {
            Seq::empty()
        } else {
            seq![FlatReportV {
                report: r,
                pointers: insertion_sort(first_pointers(k), ptr_lt_fn()),
                additional: 0,
            }]
        },
    }
}

/// The entries of all stored reports, in store order.
pub open spec fn flat_all(
    st: Seq<(MetadataV, Seq<Seq<PointedMessageV>>)>,
    ignore: Seq<IgnoreEntryV>,
    consolidate: bool,
) -> Seq<FlatReportV>
    decreases st.len(),
{
    if st.len() == 0 {
        Seq::empty()
    } else {
        flat_all(st.drop_last(), ignore, consolidate) + entries_for(st.last().0, st.last().1, ignore, consolidate)
    }
}

/// The list of reports to show: the entries of all stored reports, sorted in
/// show order.
pub open spec fn spec_flatten(
    st: Seq<(MetadataV, Seq<Seq<PointedMessageV>>)>,
    ignore: Seq<IgnoreEntryV>,
    consolidate: bool,
) -> Seq<FlatReportV> {
    insertion_sort(flat_all(st, ignore, consolidate), report_lt_fn())
}

fn min_occurrence_of(k: &Vec<Vec<PointedMessage>>) -> (res: Vec<PointedMessage>)
    requires
        k@.len() > 0,
    ensures
        ptrs_view(res@) == min_occurrence(occs_view(k@)),
{
    let ghost kv = occs_view(k@);
    let mut m: usize = 0;
    let mut i: usize = 1;
    assert(kv.take(1).drop_last().len() == 0);
    assert(min_occurrence(kv.take(1)) == kv[0]);
    while i < k.len()
        invariant
            1 <= i <= k@.len(),
            m < i,
            kv == occs_view(k@),
            ptrs_view(k@[m as int]@) == min_occurrence(kv.take(i as int)),
        decreases k.len() - i,
    {
        assert(kv.take(i + 1).drop_last() == kv.take(i as int));
        assert(kv.take(i + 1).last() == ptrs_view(k@[i as int]@));
        if compare_pointer_locs(&k[m], &k[i]) > 0 {
            m = i;
        }
        i += 1;
    }
    assert(kv.take(k@.len() as int) == kv);
    duplicate_pointers(&k[m])
}

fn sorted_first_pointers(k: &Vec<Vec<PointedMessage>>) -> (res: Vec<PointedMessage>)
    requires
        forall|a: int| 0 <= a < k@.len() ==> (#[trigger] k@[a])@.len() > 0,
    ensures
        ptrs_view(res@) == insertion_sort(first_pointers(occs_view(k@)), ptr_lt_fn()),
{
    let ghost fp = first_pointers(occs_view(k@));
    let mut res: Vec<PointedMessage> = Vec::new();
    let mut i: usize = 0;
    while i < k.len()
        invariant
            i <= k@.len(),
            fp == first_pointers(occs_view(k@)),
            forall|a: int| 0 <= a < k@.len() ==> (#[trigger] k@[a])@.len() > 0,
            ptrs_view(res@) == insertion_sort(fp.take(i as int), ptr_lt_fn()),
        decreases k.len() - i,
    {
        assert(fp.take(i + 1).drop_last() == fp.take(i as int));
        assert(k@[i as int]@.len() > 0);
        let x = k[i][0].duplicate();
        assert(fp.take(i + 1).last() == x@);
        insert_pointer(&mut res, x);
        i += 1;
    }
    assert(fp.take(k@.len() as int) == fp);
    res
}

/// The reports to show are in show order: none is shown before one that
/// should come before it.
pub proof fn law_flatten_is_sorted(
    st: Seq<(MetadataV, Seq<Seq<PointedMessageV>>)>,
    ignore: Seq<IgnoreEntryV>,
    consolidate: bool,
)
    ensures
        crate::order::sorted_by(spec_flatten(st, ignore, consolidate), report_lt_fn()),
{
    lemma_report_lt_asymmetric();
    crate::order::law_insertion_sort_sorted(flat_all(st, ignore, consolidate), report_lt_fn());
}

/// Sorting neither drops nor adds reports: the reports to show are exactly
/// the entries of the stored reports.
pub proof fn law_flatten_keeps_entries(
    st: Seq<(MetadataV, Seq<Seq<PointedMessageV>>)>,
    ignore: Seq<IgnoreEntryV>,
    consolidate: bool,
)
    ensures
        spec_flatten(st, ignore, consolidate).to_multiset() == flat_all(st, ignore, consolidate).to_multiset(),
{
    crate::order::law_insertion_sort_permutes(flat_all(st, ignore, consolidate), report_lt_fn());
}

proof fn lemma_min_occurrence_kept(occ: Seq<Seq<PointedMessageV>>)
    requires
        occ.len() > 0,
    ensures
        occ.contains(min_occurrence(occ)),
    decreases occ.len(),
{
    if occ.len() == 1 {
        assert(occ[0] == min_occurrence(occ));
    } else {
        lemma_min_occurrence_kept(occ.drop_last());
        let m = min_occurrence(occ.drop_last());
        let j = choose|j: int| 0 <= j < occ.drop_last().len() && occ.drop_last()[j] == m;
        assert(occ[j] == m);
        assert(occ[occ.len() - 1] == occ.last());
    }
}

/// Consolidating the keys logged once (`MissingFile`, `MissingItem`,
/// `MissingLocalization`, `MissingPerspective`, `MissingSound`): a fully
/// shown report of such a key gives at most one entry to show, at one of its
/// kept occurrences, whose additional count is the number of its other kept
/// occurrences. A report of any other key gives the same entries whether or
/// not reports are consolidated.
pub proof fn law_log_once_keys_consolidated(r: MetadataV, occ: Seq<Seq<PointedMessageV>>, ignore: Seq<IgnoreEntryV>)
    requires
        r.style is Full,
    ensures
        ({
            let k = kept_occ(r, occ, ignore);
            let e = entries_for(r, occ, ignore, true);
            if r.key is MissingFile || r.key is MissingItem || r.key is MissingLocalization || r.key is MissingPerspective
                || r.key is MissingSound {
                &&& e.len() == (if k.len() == 0 { 0int } else { 1int })
                &&& k.len() > 0 ==> e[0].report == r && k.contains(e[0].pointers) && e[0].additional == k.len() - 1
            } else {
                &&& e == entries_for(r, occ, ignore, false)
                &&& e.len() == k.len()
                &&& forall|a: int| 0 <= a < e.len() ==> (#[trigger] e[a]).pointers == k[a] && e[a].additional == 0
            }
        }),
{
    let k = kept_occ(r, occ, ignore);
    if k.len() > 0 {
        lemma_min_occurrence_kept(k);
    }
}

proof fn lemma_kept_not_ignored(r: MetadataV, occ: Seq<Seq<PointedMessageV>>, ignore: Seq<IgnoreEntryV>)
    ensures
        forall|a: int| 0 <= a < kept_occ(r, occ, ignore).len() ==> !spec_should_ignore(r, #[trigger] kept_occ(r, occ, ignore)[a], ignore),
    decreases occ.len(),
{
    if occ.len() > 0 {
        lemma_kept_not_ignored(r, occ.drop_last(), ignore);
        let k = kept_occ(r, occ.drop_last(), ignore);
        let res = kept_occ(r, occ, ignore);
        assert forall|a: int| 0 <= a < res.len() implies !spec_should_ignore(r, #[trigger] res[a], ignore) by {
            if a < k.len() {
                assert(res[a] == k[a]);
            }
        }
    }
}

proof fn lemma_min_occurrence_member(occ: Seq<Seq<PointedMessageV>>)
    requires
        occ.len() > 0,
    ensures
        occ.contains(min_occurrence(occ)),
    decreases occ.len(),
{
    if occ.len() == 1 {
        assert(occ[0] == min_occurrence(occ));
    } else {
        lemma_min_occurrence_member(occ.drop_last());
        let m = min_occurrence(occ.drop_last());
        if locs_order(ptr_locs(m), ptr_locs(occ.last())) <= 0 {
            let i = choose|i: int| 0 <= i < occ.drop_last().len() && occ.drop_last()[i] == m;
            assert(occ[i] == m);
        } else {
            assert(occ[occ.len() - 1] == occ.last());
        }
    }
}

/// Every fully shown report of the entries of one stored report is at an
/// occurrence that no ignore directive matches.
proof fn lemma_entries_not_ignored(r: MetadataV, occ: Seq<Seq<PointedMessageV>>, ignore: Seq<IgnoreEntryV>, consolidate: bool)
    ensures
        forall|x: FlatReportV| #[trigger] entries_for(r, occ, ignore, consolidate).contains(x) && x.report.style is Full
            ==> x.report == r && !spec_should_ignore(x.report, x.pointers, ignore),
{
    let k = kept_occ(r, occ, ignore);
    lemma_kept_not_ignored(r, occ, ignore);
    assert forall|x: FlatReportV| #[trigger] entries_for(r, occ, ignore, consolidate).contains(x) && x.report.style is Full
        implies x.report == r && !spec_should_ignore(x.report, x.pointers, ignore) by {
        let e = entries_for(r, occ, ignore, consolidate);
        let i = choose|i: int| 0 <= i < e.len() && e[i] == x;
        if consolidate && log_once(r.key) {
            lemma_min_occurrence_member(k);
            let a = choose|a: int| 0 <= a < k.len() && k[a] == min_occurrence(k);
            assert(!spec_should_ignore(r, k[a], ignore));
        } else {
            assert(e[i].pointers == k[i]);
        }
    }
}

proof fn lemma_flat_all_not_ignored(st: Seq<(MetadataV, Seq<Seq<PointedMessageV>>)>, ignore: Seq<IgnoreEntryV>, consolidate: bool)
    ensures
        forall|x: FlatReportV| #[trigger] flat_all(st, ignore, consolidate).contains(x) && x.report.style is Full
            ==> !spec_should_ignore(x.report, x.pointers, ignore),
    decreases st.len(),
{
    if st.len() > 0 {
        let a = flat_all(st.drop_last(), ignore, consolidate);
        let b = entries_for(st.last().0, st.last().1, ignore, consolidate);
        lemma_flat_all_not_ignored(st.drop_last(), ignore, consolidate);
        lemma_entries_not_ignored(st.last().0, st.last().1, ignore, consolidate);
        assert forall|x: FlatReportV| #[trigger] flat_all(st, ignore, consolidate).contains(x) && x.report.style is Full
            implies !spec_should_ignore(x.report, x.pointers, ignore) by {
            let i = choose|i: int| 0 <= i < (a + b).len() && (a + b)[i] == x;
            if i < a.len() {
                assert(a.contains(x));
            } else {
                assert(b[i - a.len()] == x);
                assert(b.contains(x));
            }
        }
    }
}

/// No report is shown in full at an occurrence that an ignore directive
/// matches.
pub proof fn law_ignored_not_shown(
    st: Seq<(MetadataV, Seq<Seq<PointedMessageV>>)>,
    ignore: Seq<IgnoreEntryV>,
    consolidate: bool,
)
    ensures
        forall|x: FlatReportV| #[trigger] spec_flatten(st, ignore, consolidate).contains(x) && x.report.style is Full
            ==> !spec_should_ignore(x.report, x.pointers, ignore),
{
    broadcast use vstd::seq_lib::group_to_multiset_ensures;
    law_flatten_keeps_entries(st, ignore, consolidate);
    lemma_flat_all_not_ignored(st, ignore, consolidate);
    assert forall|x: FlatReportV| #[trigger] spec_flatten(st, ignore, consolidate).contains(x) && x.report.style is Full
        implies !spec_should_ignore(x.report, x.pointers, ignore) by {
        assert(spec_flatten(st, ignore, consolidate).to_multiset().count(x) > 0);
        assert(flat_all(st, ignore, consolidate).to_multiset().count(x) > 0);
    }
}

/// A report all of whose occurrences are matched by ignore directives
/// contributes nothing to the reports to show, in either style.
pub proof fn law_all_ignored_not_shown(
    r: MetadataV,
    occ: Seq<Seq<PointedMessageV>>,
    ignore: Seq<IgnoreEntryV>,
    consolidate: bool,
)
    requires
        forall|a: int| 0 <= a < occ.len() ==> spec_should_ignore(r, #[trigger] occ[a], ignore),
    ensures
        entries_for(r, occ, ignore, consolidate).len() == 0,
{
    lemma_all_ignored_kept_empty(r, occ, ignore);
}

proof fn lemma_all_ignored_kept_empty(r: MetadataV, occ: Seq<Seq<PointedMessageV>>, ignore: Seq<IgnoreEntryV>)
    requires
        forall|a: int| 0 <= a < occ.len() ==> spec_should_ignore(r, #[trigger] occ[a], ignore),
    ensures
        kept_occ(r, occ, ignore).len() == 0,
    decreases occ.len(),
{
    if occ.len() > 0 {
        assert(spec_should_ignore(r, occ[occ.len() - 1], ignore));
        assert forall|a: int| 0 <= a < occ.drop_last().len() implies spec_should_ignore(r, #[trigger] occ.drop_last()[a], ignore) by {
            assert(occ.drop_last()[a] == occ[a]);
        }
        lemma_all_ignored_kept_empty(r, occ.drop_last(), ignore);
    }
}

/// An abbreviated report is shown once, with its locations in location
/// order, if some occurrence of it is not ignored, and not at all if every
/// occurrence is.
pub proof fn law_abbreviated_locations_sorted(
    r: MetadataV,
    occ: Seq<Seq<PointedMessageV>>,
    ignore: Seq<IgnoreEntryV>,
    consolidate: bool,
)
    requires
        r.style == LogReportStyle::Abbreviated,
    ensures
        entries_for(r, occ, ignore, consolidate).len() == if kept_occ(r, occ, ignore).len() == 0 { 0int } else { 1int },
        kept_occ(r, occ, ignore).len() > 0 ==> crate::order::sorted_by(entries_for(r, occ, ignore, consolidate)[0].pointers, ptr_lt_fn()),
{
    crate::order::law_insertion_sort_sorted(first_pointers(kept_occ(r, occ, ignore)), ptr_lt_fn());
}

// ---------------------------------------------------------------------------
// Macro expansion of locations
// ---------------------------------------------------------------------------

/// The locations of macro expansions: entry `i` may link to an earlier
/// entry that it was expanded from.
#[derive(Debug)]
pub struct MacroMap {
    pub locs: Vec<Loc>,
}

impl MacroMap {
    /// Every link points to an earlier entry.
    pub open spec fn wf(&self) -> bool {
        forall|i: int| 0 <= i < self.locs@.len() ==> match (#[trigger] self.locs@[i]).link_idx {
            Some(k) => (k as int) < i,
            None => true,
        }
    }

    pub fn get_loc(&self, idx: u32) -> (res: Option<Loc>)
        ensures
            res == (if (idx as int) < self.locs@.len() { Some(self.locs@[idx as int]) } else { None }),
    {
        if (idx as usize) < self.locs.len() {
            Some(self.locs[idx as usize])
        } else {
            None
        }
    }
}

/// A location without its link.
pub open spec fn unlinked(l: Loc) -> Loc {
    Loc { link_idx: None, ..l }
}

/// The locations reached from map entry `j` by following links, each
/// without its link.
pub open spec fn link_chain(map: Seq<Loc>, j: int) -> Seq<Loc>
    decreases j,
{
    if j < 0 || j >= map.len() {
        Seq::empty()
    } else {
        seq![unlinked(map[j])] + match map[j].link_idx {
            Some(k) => if (k as int) < j { link_chain(map, k as int) } else { Seq::empty() },
            None => Seq::empty(),
        }
    }
}

/// The pointer itself, then one "from here" pointer for each location that
/// its location was expanded from.
pub open spec fn expand_pointer(map: Seq<Loc>, p: PointedMessageV) -> Seq<PointedMessageV> {
    seq![PointedMessageV { loc: unlinked(p.loc), length: p.length, msg: p.msg }] + match p.loc.link_idx {
        Some(k) => link_chain(map, k as int).map_values(
            |l: Loc| PointedMessageV { loc: l, length: 1, msg: Some("from here"@) },
        ),
        None => Seq::empty(),
    }
}

/// The expansions of all pointers, in order.
pub open spec fn expand_pointers(map: Seq<Loc>, ps: Seq<PointedMessageV>) -> Seq<PointedMessageV>
    decreases ps.len(),
{
    if ps.len() == 0 {
        Seq::empty()
    } else {
        expand_pointers(map, ps.drop_last()) + expand_pointer(map, ps.last())
    }
}

proof fn lemma_expand_nonempty(map: Seq<Loc>, ps: Seq<PointedMessageV>)
    requires
        ps.len() > 0,
    ensures
        expand_pointers(map, ps).len() > 0,
{
}

/// The "from here" pointer at `l`.
pub open spec fn from_here(l: Loc) -> PointedMessageV {
    PointedMessageV { loc: l, length: 1, msg: Some("from here"@) }
}

/// Expands each pointer into itself and the locations it was expanded from.
pub fn pointed_msg_expansion(map: &MacroMap, pointers: Vec<PointedMessage>) -> (res: Vec<PointedMessage>)
    requires
        map.wf(),
    ensures
        ptrs_view(res@) == expand_pointers(map.locs@, ptrs_view(pointers@)),
{
    let ghost mv = map.locs@;
    let ghost pv = ptrs_view(pointers@);
    let mut res: Vec<PointedMessage> = Vec::new();
    let mut i: usize = 0;
    while i < pointers.len()
        invariant
            i <= pointers@.len(),
            map.wf(),
            mv == map.locs@,
            pv == ptrs_view(pointers@),
            ptrs_view(res@) == expand_pointers(mv, pv.take(i as int)),
        decreases pointers.len() - i,
    {
        let p = &pointers[i];
        assert(pv.take(i + 1).drop_last() == pv.take(i as int));
        assert(pv.take(i + 1).last() == p@);
        let ghost base = ptrs_view(res@);
        let mut first = p.loc;
        first.link_idx = None;
        res.push(PointedMessage { loc: first, length: p.length, msg: clone_opt(&p.msg) });
        assert(ptrs_view(res@) =~= base.push(PointedMessageV { loc: unlinked(p.loc), length: p.length, msg: p@.msg }));
        let ghost full = match p.loc.link_idx {
            Some(k) => link_chain(mv, k as int).map_values(|l: Loc| from_here(l)),
            None => Seq::<PointedMessageV>::empty(),
        };
        let ghost head = ptrs_view(res@);
        let mut next = match p.loc.link_idx {
            Some(k) => map.get_loc(k),
            None => None,
        };
        let mut cur: u32 = match p.loc.link_idx {
            Some(k) => k,
            None => 0,
        };
        proof {
            assert(full.take(0) =~= Seq::<PointedMessageV>::empty());
            if p.loc.link_idx is Some {
                assert(full.skip(0) =~= full);
            } else {
                assert(full.len() == 0);
            }
        }
        let ghost mut done: int = 0;
        while next.is_some()
            invariant
                map.wf(),
                mv == map.locs@,
                0 <= done <= full.len(),
                ptrs_view(res@) == head + full.take(done),
                next is Some ==> (cur as int) < mv.len() && next == Some(mv[cur as int]),
                next is None ==> done == full.len(),
                next is Some ==> link_chain(mv, cur as int).map_values(|l: Loc| from_here(l)) == full.skip(done),
            decreases (if next is Some { cur + 1 } else { 0 }),
        {
            let l = next.unwrap();
            let mut shown = l;
            shown.link_idx = None;
            let ghost before = ptrs_view(res@);
            let pm = PointedMessage { loc: shown, length: 1, msg: Some("from here".to_owned()) };
            assert(pm@ == from_here(unlinked(mv[cur as int])));
            res.push(pm);
            assert(ptrs_view(res@) =~= before.push(from_here(unlinked(mv[cur as int]))));
            proof {
                assert(full.take(done + 1) =~= full.take(done).push(full[done]));
                let c = link_chain(mv, cur as int);
                assert(c[0] == unlinked(mv[cur as int]));
                assert(full.skip(done)[0] == from_here(unlinked(mv[cur as int])));
                assert(full[done] == full.skip(done)[0]);
                assert(ptrs_view(res@) =~= head + full.take(done + 1));
            }
            let ghost old_cur = cur as int;
            next = match l.link_idx {
                Some(k) => if k < cur { map.get_loc(k) } else { None },
                None => None,
            };
            if let Some(k) = l.link_idx {
                if k < cur {
                    cur = k;
                }
            }
            proof {
                let c = link_chain(mv, old_cur);
                let rest = match mv[old_cur].link_idx {
                    Some(k) => if (k as int) < old_cur { link_chain(mv, k as int) } else { Seq::empty() },
                    None => Seq::empty(),
                };
                assert(c == seq![unlinked(mv[old_cur])] + rest);
                assert(c.map_values(|l: Loc| from_here(l)).drop_first() =~= rest.map_values(|l: Loc| from_here(l)));
                assert(full.skip(done + 1) =~= full.skip(done).drop_first());
                assert(map.wf());
                assert(match mv[old_cur].link_idx { Some(k) => (k as int) < old_cur, None => true });
                done = done + 1;
                if next is None {
                    assert(rest.len() == 0);
                    assert(full.skip(done).len() == 0);
                }
            }
        }
        assert(full.take(full.len() as int) == full);
        assert(ptrs_view(res@) =~= base + expand_pointer(mv, p@));
        i += 1;
    }
    assert(pv.take(pointers@.len() as int) == pv);
    res
}

/// The state of the error reporter.
#[derive(Debug)]
pub struct Errors {
    /// Extra loaded mods' error tags.
    pub loaded_mods_labels: Vec<String>,
    /// Loaded DLCs' error tags.
    pub loaded_dlcs_labels: Vec<String>,
    pub cache: Cache,
    /// Determines whether a report should be printed.
    pub filter: ReportFilter,
    /// Output color and style configuration.
    pub styles: OutputStyle,
    pub suppress: Vec<SuppressionEntry>,
    pub ignore: Vec<IgnoreEntry>,
    /// All reports that passed the checks, to be sorted before being emitted.
    pub storage: Vec<StoredReport>,
}

fn opt_text_eq(a: &Option<String>, b: &Option<Vec<char>>) -> (res: bool)
    ensures
        res == (opt_view(*a) == match b {
            Some(v) => Some(v@),
            None => None::<Seq<char>>,
        }),
{
    match (a, b) {
        (Some(x), Some(y)) => crate::text::chars_eq(&to_chars(x.as_str()), y),
        (None, None) => true,
        _ => false,
    }
}

fn list_suppresses_exec(l: &Vec<Suppression>, p: &Vec<PointedMessage>, cache: &Cache) -> (res: bool)
    ensures
        res == list_suppresses(suppression_list_view(l@), ptrs_view(p@), cache@),
{
    if l.len() != p.len() {
        return false;
    }
    let ghost lv = suppression_list_view(l@);
    let ghost pv = ptrs_view(p@);
    let mut k: usize = 0;
    while k < p.len()
        invariant
            l.len() == p.len(),
            k <= p.len(),
            lv == suppression_list_view(l@),
            pv == ptrs_view(p@),
            forall|j: int| 0 <= j < k ==> !suppression_matches(#[trigger] lv[j], pv[j], cache@),
        decreases p.len() - k,
    {
        let s = &l[k];
        let q = &p[k];
        let line = cache.get_line(q.loc);
        if s.path == q.loc.idx && opt_eq(&s.tag, &q.msg) && opt_text_eq(&s.line, &line) {
            assert(suppression_matches(lv[k as int], pv[k as int], cache@));
            return true;
        }
        assert(!suppression_matches(lv[k as int], pv[k as int], cache@));
        k += 1;
    }
    false
}

impl Errors {
    pub open spec fn store(&self) -> Seq<(MetadataV, Seq<Seq<PointedMessageV>>)> {
        stored_view(self.storage@)
    }

    pub open spec fn ignores(&self) -> Seq<IgnoreEntryV> {
        ignore_view(self.ignore@)
    }

    /// The well-formedness of the store, which every operation keeps.
    pub open spec fn wf(&self) -> bool {
        store_wf(self.store())
    }

    pub open spec fn suppressions(&self) -> Seq<(ErrorKey, Seq<char>, Seq<Seq<SuppressionV>>)> {
        suppressions_view(self.suppress@)
    }

    /// Whether an ignore directive covers the report at one of its locations.
    fn should_ignore(&self, r: &LogReportMetadata, p: &Vec<PointedMessage>) -> (res: bool)
        ensures
            res == spec_should_ignore(r@, ptrs_view(p@), self.ignores()),
    {
        let msg = to_chars(r.msg.as_str());
        let ghost pv = ptrs_view(p@);
        let ghost iv = self.ignores();
        let mut i: usize = 0;
        while i < p.len()
            invariant
                i <= p.len(),
                msg@ == r.msg@,
                pv == ptrs_view(p@),
                iv == self.ignores(),
                forall|a: int, b: int| 0 <= a < i && 0 <= b < iv.len() ==> !(#[trigger] iv[b].path == #[trigger] pv[a].loc.idx
                    && above_start(iv[b].start, pv[a].loc.line) && below_end(iv[b].end, pv[a].loc.line)
                    && filter_matches(iv[b], r.key, r.msg@)),
            decreases p.len() - i,
        {
            let loc = p[i].loc;
            assert(pv[i as int].loc == loc);
            let mut j: usize = 0;
            while j < self.ignore.len()
                invariant
                    i < p.len(),
                    j <= self.ignore.len(),
                    msg@ == r.msg@,
                    pv == ptrs_view(p@),
                    iv == self.ignores(),
                    pv[i as int].loc == loc,
                    forall|b: int| 0 <= b < j ==> !(#[trigger] iv[b].path == loc.idx
                        && above_start(iv[b].start, loc.line) && below_end(iv[b].end, loc.line)
                        && filter_matches(iv[b], r.key, r.msg@)),
                decreases self.ignore.len() - j,
            {
                let e = &self.ignore[j];
                assert(iv[j as int] == e@);
                if e.path == loc.idx && within(e.start, e.end, loc.line) && e.filter.matches(r.key, &msg) {
                    assert(iv[j as int].path == pv[i as int].loc.idx);
                    return true;
                }
                j += 1;
            }
            i += 1;
        }
        false
    }

    /// Whether a suppression recorded for the report's key and message applies.
    fn should_suppress(&self, r: &LogReportMetadata, p: &Vec<PointedMessage>) -> (res: bool)
        ensures
            res == spec_should_suppress(r@, ptrs_view(p@), self.suppressions(), self.cache@),
    {
        let ghost sv = self.suppressions();
        let mut e: usize = 0;
        while e < self.suppress.len()
            invariant
                e <= self.suppress.len(),
                sv == self.suppressions(),
                forall|a: int, v: int| 0 <= a < e && sv[a].0 == r.key && sv[a].1 == r.msg@ && 0 <= v < sv[a].2.len()
                    ==> !list_suppresses(#[trigger] sv[a].2[v], ptrs_view(p@), self.cache@),
            decreases self.suppress.len() - e,
        {
            let entry = &self.suppress[e];
            if entry.key == r.key && entry.message == r.msg {
                let mut v: usize = 0;
                while v < entry.suppressions.len()
                    invariant
                        e < self.suppress.len(),
                        entry == &self.suppress@[e as int],
                        sv == self.suppressions(),
                        v <= entry.suppressions.len(),
                        sv[e as int].0 == r.key && sv[e as int].1 == r.msg@,
                        forall|b: int| 0 <= b < v ==> !list_suppresses(#[trigger] sv[e as int].2[b], ptrs_view(p@), self.cache@),
                    decreases entry.suppressions.len() - v,
                {
                    assert(sv[e as int].2[v as int] == suppression_list_view(entry.suppressions@[v as int]@));
                    if list_suppresses_exec(&entry.suppressions[v], p, &self.cache) {
                        return true;
                    }
                    v += 1;
                }
            }
            e += 1;
        }
        false
    }

    /// Adds one occurrence of a report to the store, unless the filter rejects
    /// it or a suppression applies.
    fn push_report(&mut self, r: LogReportMetadata, p: Vec<PointedMessage>)
        requires
            old(self).wf(),
            p@.len() > 0,
        ensures
            final(self).wf(),
            final(self).store() == (if spec_should_print(old(self).filter, r@, ptrs_view(p@))
                && !spec_should_suppress(r@, ptrs_view(p@), old(self).suppressions(), old(self).cache@) {
                store_insert(old(self).store(), r@, ptrs_view(p@))
            } else {
                old(self).store()
            }),
            final(self).ignores() == old(self).ignores(),
            final(self).suppressions() == old(self).suppressions(),
            final(self).cache@ == old(self).cache@,
            final(self).filter == old(self).filter,
            final(self).styles == old(self).styles,
            final(self).loaded_mods_labels@ == old(self).loaded_mods_labels@,
            final(self).loaded_dlcs_labels@ == old(self).loaded_dlcs_labels@,
    {
        if !self.filter.should_print_report(&r, &p) || self.should_suppress(&r, &p) {
            return;
        }
        self.store_occurrence(r, p);
    }

    /// Adds one occurrence of a report to the store.
    fn store_occurrence(&mut self, r: LogReportMetadata, p: Vec<PointedMessage>)
        requires
            old(self).wf(),
            p@.len() > 0,
        ensures
            final(self).wf(),
            final(self).store() == store_insert(old(self).store(), r@, ptrs_view(p@)),
            final(self).ignores() == old(self).ignores(),
            final(self).suppressions() == old(self).suppressions(),
            final(self).cache@ == old(self).cache@,
            final(self).filter == old(self).filter,
            final(self).styles == old(self).styles,
            final(self).loaded_mods_labels@ == old(self).loaded_mods_labels@,
            final(self).loaded_dlcs_labels@ == old(self).loaded_dlcs_labels@,
    {
        let ghost st = self.store();
        proof {
            lemma_find_report(st, r@);
        }
        let mut i = self.storage.len();
        let mut hit = false;
        assert(st.take(i as int) =~= st);
        while i > 0 && !hit
            invariant
                i <= self.storage@.len(),
                st == self.store(),
                st.len() == self.storage@.len(),
                !hit ==> find_report(st, r@) == find_report(st.take(i as int), r@),
                hit ==> i > 0 && find_report(st, r@) == i - 1,
            decreases i + (if hit { 0int } else { 1int }),
        {
            assert(st.take(i as int).drop_last() == st.take(i - 1));
            assert(st.take(i as int).last() == st[i - 1]);
            assert(st[i - 1].0 == self.storage@[i - 1].report@);
            if self.storage[i - 1].report.same_as(&r) {
                hit = true;
            } else {
                i -= 1;
            }
        }
        if !hit {
            assert(st.take(0) =~= Seq::<(MetadataV, Seq<Seq<PointedMessageV>>)>::empty());
            let ghost rv = r@;
            let ghost pv = ptrs_view(p@);
            let mut occ: Vec<Vec<PointedMessage>> = Vec::new();
            occ.push(p);
            assert(occs_view(occ@) =~= seq![pv]);
            self.storage.push(StoredReport { report: r, occurrences: occ });
            assert(self.store() =~= st.push((rv, seq![pv])));
            proof {
                assert forall|a: int, b: int| 0 <= a < b < self.store().len() implies (#[trigger] self.store()[a]).0 != (#[trigger] self.store()[b]).0 by {
                    if b == st.len() {
                        assert(st[a].0 != rv);
                    }
                }
            }
            return;
        }
        let k = i - 1;
        assert(find_report(st, r@) == k);
        let ghost pv = ptrs_view(p@);
        let ghost occv = st[k as int].1;
        let mut j: usize = 0;
        let mut found = false;
        while j < self.storage[k].occurrences.len() && !found
            invariant
                k < self.storage@.len(),
                st == self.store(),
                occv == st[k as int].1,
                pv == ptrs_view(p@),
                occv == occs_view(self.storage@[k as int].occurrences@),
                j <= occv.len(),
                forall|a: int| 0 <= a < j ==> #[trigger] occv[a] != pv,
                found ==> j < occv.len() && occv[j as int] == pv,
            decreases occv.len() - j + (if found { 0int } else { 1int }),
        {
            assert(occv[j as int] == ptrs_view(self.storage@[k as int].occurrences@[j as int]@));
            if same_pointers(&self.storage[k].occurrences[j], &p) {
                found = true;
            } else {
                j += 1;
            }
        }
        if found {
            assert(occv.contains(pv));
            return;
        }
        assert(!occv.contains(pv));
        let mut entry = self.storage.remove(k);
        entry.occurrences.push(p);
        assert(occs_view(entry.occurrences@) =~= occv.push(pv));
        self.storage.insert(k, entry);
        assert(self.store() =~= st.update(k as int, (r@, occv.push(pv))));
        proof {
            let ns = self.store();
            assert forall|a: int, b: int| 0 <= a < b < ns.len() implies (#[trigger] ns[a]).0 != (#[trigger] ns[b]).0 by {
                assert(ns[a].0 == st[a].0 && ns[b].0 == st[b].0);
            }
            assert forall|x: int, a: int, b: int|
                0 <= x < ns.len() && 0 <= a < b < ns[x].1.len() implies (#[trigger] ns[x].1[a]) != (#[trigger] ns[x].1[b]) by {
                if x == k && b == occv.len() {
                    assert(ns[x].1[a] == occv[a]);
                }
            }
        }
    }

    /// The occurrences of a stored report that no ignore directive covers.
    fn kept_occurrences(&self, r: &LogReportMetadata, occ: &Vec<Vec<PointedMessage>>) -> (res: Vec<Vec<PointedMessage>>)
        ensures
            occs_view(res@) == kept_occ(r@, occs_view(occ@), self.ignores()),
    {
        let ghost ov = occs_view(occ@);
        let mut res: Vec<Vec<PointedMessage>> = Vec::new();
        let mut i: usize = 0;
        while i < occ.len()
            invariant
                i <= occ@.len(),
                ov == occs_view(occ@),
                occs_view(res@) == kept_occ(r@, ov.take(i as int), self.ignores()),
            decreases occ.len() - i,
        {
            assert(ov.take(i + 1).drop_last() == ov.take(i as int));
            assert(ov.take(i + 1).last() == ptrs_view(occ@[i as int]@));
            if !self.should_ignore(r, &occ[i]) {
                let ghost before = res@;
                let d = duplicate_pointers(&occ[i]);
                res.push(d);
                assert(occs_view(res@) =~= occs_view(before).push(ptrs_view(occ@[i as int]@)));
            }
            i += 1;
        }
        assert(ov.take(occ@.len() as int) == ov);
        res
    }

    /// What one stored report contributes to the list of reports to show.
    fn entries_of(&self, sr: &StoredReport, consolidate: bool) -> (res: Vec<FlatReport>)
        requires
            forall|a: int| 0 <= a < sr.occurrences@.len() ==> (#[trigger] sr.occurrences@[a])@.len() > 0,
        ensures
            flats_view(res@) == entries_for(sr.report@, occs_view(sr.occurrences@), self.ignores(), consolidate),
    {
        let r = &sr.report;
        let kept = self.kept_occurrences(r, &sr.occurrences);
        let ghost kv = kept_occ(r@, occs_view(sr.occurrences@), self.ignores());
        proof {
            assert forall|a: int| 0 <= a < occs_view(sr.occurrences@).len() implies (#[trigger] occs_view(sr.occurrences@)[a]).len() > 0 by {
                assert(occs_view(sr.occurrences@)[a] == ptrs_view(sr.occurrences@[a]@));
            }
            lemma_kept_nonempty(r@, occs_view(sr.occurrences@), self.ignores());
        }
        let mut res: Vec<FlatReport> = Vec::new();
        match r.style {
            LogReportStyle::Full => {
                if consolidate && is_log_once(r.key) {
                    if kept.len() > 0 {
                        let m = min_occurrence_of(&kept);
                        let f = FlatReport { report: r.duplicate(), pointers: m, additional: kept.len() - 1 };
                        res.push(f);
                        assert(flats_view(res@) =~= seq![f@]);
                    } else {
                        assert(flats_view(res@) =~= Seq::<FlatReportV>::empty());
                    }
                } else {
                    let mut i: usize = 0;
                    while i < kept.len()
                        invariant
                            i <= kept@.len(),
                            kv == occs_view(kept@),
                            flats_view(res@) == kv.take(i as int).map_values(
                                |p: Seq<PointedMessageV>| FlatReportV { report: r@, pointers: p, additional: 0 },
                            ),
                        decreases kept.len() - i,
                    {
                        let f = FlatReport { report: r.duplicate(), pointers: duplicate_pointers(&kept[i]), additional: 0 };
                        let ghost before = res@;
                        assert(kv[i as int] == ptrs_view(kept@[i as int]@));
                        let ghost fv = f@;
                        assert(fv == FlatReportV { report: r@, pointers: kv[i as int], additional: 0 });
                        res.push(f);
                        assert(flats_view(res@) =~= flats_view(before).push(fv));
                        assert(kv.take(i + 1) =~= kv.take(i as int).push(kv[i as int]));
                        assert(flats_view(res@) =~= kv.take(i + 1).map_values(
                            |p: Seq<PointedMessageV>| FlatReportV { report: r@, pointers: p, additional: 0 },
                        ));
                        i += 1;
                    }
                    assert(kv.take(kept@.len() as int) == kv);
                }
            }
            LogReportStyle::Abbreviated => {
                proof {
                    assert forall|a: int| 0 <= a < kept@.len() implies (#[trigger] kept@[a])@.len() > 0 by {
                        assert(kv[a] == ptrs_view(kept@[a]@));
                    }
                }
                if kept.len() > 0 {
                    let ptrs = sorted_first_pointers(&kept);
                    let f = FlatReport { report: r.duplicate(), pointers: ptrs, additional: 0 };
                    res.push(f);
                    assert(flats_view(res@) =~= seq![f@]);
                } else {
                    assert(flats_view(res@) =~= Seq::<FlatReportV>::empty());
                }
            }
        }
        res
    }

    /// Extracts the stored reports and sorts them in show order: higher
    /// severity first, then higher confidence, then by location, then by
    /// message. Occurrences covered by ignore directives are left out.
    pub fn flatten_reports(&self, consolidate: bool) -> (res: Vec<FlatReport>)
        requires
            self.wf(),
        ensures
            flats_view(res@) == spec_flatten(self.store(), self.ignores(), consolidate),
    {
        let ghost st = self.store();
        let ghost iv = self.ignores();
        let mut res: Vec<FlatReport> = Vec::new();
        let ghost mut produced: Seq<FlatReportV> = Seq::empty();
        let mut i: usize = 0;
        while i < self.storage.len()
            invariant
                i <= self.storage@.len(),
                st == self.store(),
                iv == self.ignores(),
                store_wf(st),
                produced == flat_all(st.take(i as int), iv, consolidate),
                flats_view(res@) == insertion_sort(produced, report_lt_fn()),
            decreases self.storage.len() - i,
        {
            let sr = &self.storage[i];
            assert(st[i as int] == (sr.report@, occs_view(sr.occurrences@)));
            proof {
                assert forall|a: int| 0 <= a < sr.occurrences@.len() implies (#[trigger] sr.occurrences@[a])@.len() > 0 by {
                    assert(st[i as int].1[a] == ptrs_view(sr.occurrences@[a]@));
                }
            }
            let entries = self.entries_of(sr, consolidate);
            let ghost ev = flats_view(entries@);
            let ghost base = produced;
            let mut j: usize = 0;
            while j < entries.len()
                invariant
                    j <= entries@.len(),
                    ev == flats_view(entries@),
                    produced == base + ev.take(j as int),
                    flats_view(res@) == insertion_sort(produced, report_lt_fn()),
                decreases entries.len() - j,
            {
                let f = entries[j].duplicate();
                assert(f@ == ev[j as int]);
                insert_report(&mut res, f);
                proof {
                    let np = produced.push(ev[j as int]);
                    assert(np.drop_last() == produced);
                    assert(base + ev.take(j + 1) =~= np);
                    produced = np;
                }
                j += 1;
            }
            assert(ev.take(entries@.len() as int) == ev);
            assert(st.take(i + 1).drop_last() == st.take(i as int));
            assert(st.take(i + 1).last() == st[i as int]);
            i += 1;
        }
        assert(st.take(self.storage@.len() as int) == st);
        res
    }

    /// Hands out the reports to show, in show order, and empties the store.
    pub fn emit_reports(&mut self, consolidate: bool) -> (res: Vec<FlatReport>)
        requires
            old(self).wf(),
        ensures
            flats_view(res@) == spec_flatten(old(self).store(), old(self).ignores(), consolidate),
            final(self).store().len() == 0,
            final(self).wf(),
            final(self).ignores() == old(self).ignores(),
            final(self).suppressions() == old(self).suppressions(),
            final(self).cache@ == old(self).cache@,
            final(self).filter == old(self).filter,
            final(self).styles == old(self).styles,
    {
        let reports = self.flatten_reports(consolidate);
        self.storage.clear();
        assert(self.store() =~= Seq::<(MetadataV, Seq<Seq<PointedMessageV>>)>::empty());
        reports
    }

    /// Records the source text of a file, for showing report lines.
    pub fn store_source_file(&mut self, idx: PathTableIndex, source: String)
        requires
            old(self).wf(),
        ensures
            final(self).wf(),
            final(self).cache@ == old(self).cache@.push((idx, source@)),
            final(self).store() == old(self).store(),
            final(self).ignores() == old(self).ignores(),
            final(self).suppressions() == old(self).suppressions(),
            final(self).filter == old(self).filter,
    {
        self.cache.store(idx, source);
    }

    pub fn new() -> (res: Errors)
        ensures
            res.wf(),
            res.store().len() == 0,
            res.ignores().len() == 0,
            res.cache@.len() == 0,
            res.loaded_mods_labels@.len() == 0,
            res.loaded_dlcs_labels@.len() == 0,
            res.suppress@.len() == 0,
            !res.filter.show_vanilla,
            !res.filter.show_loaded_mods,
            res.filter.predicate == (FilterRule { min_severity: Severity::Tips, min_confidence: Confidence::Weak }),
            res.styles.color,
    {
        let res = Errors {
            loaded_mods_labels: Vec::new(),
            loaded_dlcs_labels: Vec::new(),
            cache: Cache::new(),
            filter: ReportFilter::new(),
            styles: OutputStyle { color: true },
            suppress: Vec::new(),
            ignore: Vec::new(),
            storage: Vec::new(),
        };
        assert(res.store() =~= Seq::<(MetadataV, Seq<Seq<PointedMessageV>>)>::empty());
        assert(res.ignores() =~= Seq::<IgnoreEntryV>::empty());
        res
    }
}

/// The report store after logging report `r` at pointers `p`: the pointers
/// are expanded through the macro map, and the report is stored unless the
/// filter rejects it or a suppression applies.
pub open spec fn spec_log(e: Errors, map: Seq<Loc>, r: MetadataV, p: Seq<PointedMessageV>) -> Seq<(MetadataV, Seq<Seq<PointedMessageV>>)> {
    let x = expand_pointers(map, p);
    if spec_should_print(e.filter, r, x) && !spec_should_suppress(r, x, e.suppressions(), e.cache@) {
        store_insert(e.store(), r, x)
    } else {
        e.store()
    }
}

/// Records a secondary mod loaded before the one being validated, under the
/// label it has in reports.
pub fn add_loaded_mod_root(errors: &mut Errors, label: String)
    ensures
        final(errors).loaded_mods_labels@ == old(errors).loaded_mods_labels@.push(label),
        final(errors).loaded_dlcs_labels@ == old(errors).loaded_dlcs_labels@,
        final(errors).store() == old(errors).store(),
{
    errors.loaded_mods_labels.push(label);
}

/// Records a DLC directory of the base game, under the label it has in reports.
pub fn add_loaded_dlc_root(errors: &mut Errors, label: String)
    ensures
        final(errors).loaded_dlcs_labels@ == old(errors).loaded_dlcs_labels@.push(label),
        final(errors).loaded_mods_labels@ == old(errors).loaded_mods_labels@,
        final(errors).store() == old(errors).store(),
{
    errors.loaded_dlcs_labels.push(label);
}

/// Stores a report to be shown when the reports are emitted. Its locations
/// are first expanded with the locations they were expanded from by macros.
pub fn log(errors: &mut Errors, map: &MacroMap, report: (LogReportMetadata, Vec<PointedMessage>))
    requires
        old(errors).wf(),
        map.wf(),
        report.1@.len() > 0,
    ensures
        final(errors).wf(),
        final(errors).store() == spec_log(*old(errors), map.locs@, report.0@, ptrs_view(report.1@)),
        final(errors).ignores() == old(errors).ignores(),
        final(errors).suppressions() == old(errors).suppressions(),
        final(errors).cache@ == old(errors).cache@,
        final(errors).filter == old(errors).filter,
{
    let (r, p) = report;
    let ghost pv = ptrs_view(p@);
    proof {
        lemma_expand_nonempty(map.locs@, pv);
    }
    let pointers = pointed_msg_expansion(map, p);
    errors.push_report(r, pointers);
}

impl crate::report::ReportBuilder {
    /// Stores the assembled report (see [`log`]).
    pub fn push(self, errors: &mut Errors, map: &MacroMap)
        requires
            old(errors).wf(),
            map.wf(),
            self.pointers@.len() > 0,
        ensures
            final(errors).wf(),
            final(errors).store() == spec_log(*old(errors), map.locs@, self.metadata@, ptrs_view(self.pointers@)),
            final(errors).ignores() == old(errors).ignores(),
            final(errors).suppressions() == old(errors).suppressions(),
            final(errors).cache@ == old(errors).cache@,
            final(errors).filter == old(errors).filter,
    {
        log(errors, map, (self.metadata, self.pointers));
    }
}

/// The store after logging a report onto `store`, with the filter and
/// suppressions of `e` (see [`spec_log`]).
pub open spec fn log_onto(
    store: Seq<(MetadataV, Seq<Seq<PointedMessageV>>)>,
    e: Errors,
    map: Seq<Loc>,
    r: MetadataV,
    p: Seq<PointedMessageV>,
) -> Seq<(MetadataV, Seq<Seq<PointedMessageV>>)> {
    let x = expand_pointers(map, p);
    if spec_should_print(e.filter, r, x) && !spec_should_suppress(r, x, e.suppressions(), e.cache@) {
        store_insert(store, r, x)
    } else {
        store
    }
}

/// The store after logging the reports in turn.
pub open spec fn log_all(e: Errors, map: Seq<Loc>, reports: Seq<(MetadataV, Seq<PointedMessageV>)>) -> Seq<(MetadataV, Seq<Seq<PointedMessageV>>)>
    decreases reports.len(),
{
    if reports.len() == 0 {
        e.store()
    } else {
        log_onto(log_all(e, map, reports.drop_last()), e, map, reports.last().0, reports.last().1)
    }
}

/// Logging onto errors that kept the filter and suppressions of `e` is
/// logging onto their store with those of `e`.
pub proof fn lemma_log_onto(e: Errors, e2: Errors, map: Seq<Loc>, r: MetadataV, p: Seq<PointedMessageV>)
    requires
        e2.filter == e.filter,
        e2.suppressions() == e.suppressions(),
        e2.cache@ == e.cache@,
    ensures
        spec_log(e2, map, r, p) == log_onto(e2.store(), e, map, r, p),
{
}

proof fn lemma_find_report_is(s: Seq<(MetadataV, Seq<Seq<PointedMessageV>>)>, r: MetadataV, j: int)
    requires
        0 <= j < s.len(),
        s[j].0 == r,
        forall|k: int| j < k < s.len() ==> s[k].0 != r,
    ensures
        find_report(s, r) == j,
    decreases s.len(),
{
    if j < s.len() - 1 {
        assert forall|k: int| j < k < s.drop_last().len() implies s.drop_last()[k].0 != r by {
            assert(s.drop_last()[k] == s[k]);
        }
        lemma_find_report_is(s.drop_last(), r, j);
    }
}

proof fn lemma_find_report_after(s: Seq<(MetadataV, Seq<Seq<PointedMessageV>>)>, r: MetadataV, k: int)
    requires
        0 <= k < s.len(),
        s[k].0 == r,
    ensures
        find_report(s, r) >= k,
    decreases s.len(),
{
    if k < s.len() - 1 {
        assert(s.drop_last()[k] == s[k]);
        lemma_find_report_after(s.drop_last(), r, k);
    }
}

/// After storing an occurrence of a report, the store has the report with
/// that occurrence among its occurrences.
pub proof fn law_store_records(s: Seq<(MetadataV, Seq<Seq<PointedMessageV>>)>, r: MetadataV, p: Seq<PointedMessageV>)
    ensures
        ({
            let t = store_insert(s, r, p);
            let i = find_report(t, r);
            0 <= i < t.len() && t[i].1.contains(p)
        }),
{
    let t = store_insert(s, r, p);
    let i = find_report(s, r);
    lemma_find_report(s, r);
    if i == -1 {
        lemma_find_report_is(t, r, s.len() as int);
        assert(t[s.len() as int].1[0] == p);
    } else {
        assert forall|k: int| i < k < t.len() implies t[k].0 != r by {
            assert(t[k] == s[k]);
            if s[k].0 == r {
                lemma_find_report_after(s, r, k);
            }
        }
        lemma_find_report_is(t, r, i);
        if !s[i].1.contains(p) {
            assert(t[i].1[s[i].1.len() as int] == p);
        }
    }
}

/// Storing the same occurrence of a report twice stores it once.
pub proof fn law_store_twice(s: Seq<(MetadataV, Seq<Seq<PointedMessageV>>)>, r: MetadataV, p: Seq<PointedMessageV>)
    ensures
        store_insert(store_insert(s, r, p), r, p) == store_insert(s, r, p),
{
    law_store_records(s, r, p);
}

/// Logging the same report at the same locations twice is logging it once.
pub proof fn law_log_twice(e: Errors, map: Seq<Loc>, r: MetadataV, p: Seq<PointedMessageV>)
    ensures
        log_onto(log_onto(e.store(), e, map, r, p), e, map, r, p) == log_onto(e.store(), e, map, r, p),
{
    law_store_twice(e.store(), r, expand_pointers(map, p));
}

/// Whether a report with this key at this location might be shown. If not,
/// it certainly will not be.
pub fn will_maybe_log(errors: &Errors, loc: Loc, key: ErrorKey) -> (res: bool)
    ensures
        res == spec_should_maybe_print(errors.filter, key, loc),
{
    errors.filter.should_maybe_print(key, loc)
}

/// Hands out the stored reports to show, in show order, and empties the store.
pub fn emit_reports(errors: &mut Errors, consolidate: bool) -> (res: Vec<FlatReport>)
    requires
        old(errors).wf(),
    ensures
        flats_view(res@) == spec_flatten(old(errors).store(), old(errors).ignores(), consolidate),
        final(errors).store().len() == 0,
        final(errors).wf(),
{
    errors.emit_reports(consolidate)
}

/// Takes the stored reports out, unsorted, leaving the store empty.
pub fn take_reports(errors: &mut Errors) -> (res: Vec<StoredReport>)
    requires
        old(errors).wf(),
    ensures
        stored_view(res@) == old(errors).store(),
        final(errors).store().len() == 0,
        final(errors).wf(),
        final(errors).ignores() == old(errors).ignores(),
{
    let mut taken: Vec<StoredReport> = Vec::new();
    std::mem::swap(&mut taken, &mut errors.storage);
    assert(errors.store() =~= Seq::<(MetadataV, Seq<Seq<PointedMessageV>>)>::empty());
    taken
}

/// Records the source text of a file, for showing report lines.
pub fn store_source_file(errors: &mut Errors, idx: PathTableIndex, source: String)
    requires
        old(errors).wf(),
    ensures
        final(errors).wf(),
        final(errors).cache@ == old(errors).cache@.push((idx, source@)),
        final(errors).store() == old(errors).store(),
{
    errors.store_source_file(idx, source);
}

/// Registers an ignore directive for a range of lines of a file.
pub fn register_ignore_filter(
    errors: &mut Errors,
    path: PathTableIndex,
    start: LineBound,
    end: LineBound,
    filter: IgnoreFilter,
)
    requires
        old(errors).wf(),
    ensures
        final(errors).wf(),
        final(errors).ignores() == old(errors).ignores().push(
            IgnoreEntryV { path, start, end, key: filter.key, text: opt_view(filter.text) },
        ),
        final(errors).store() == old(errors).store(),
{
    let ghost before = errors.ignore@;
    let entry = IgnoreEntry { path, start, end, filter };
    let ghost ev = entry@;
    errors.ignore.push(entry);
    assert(errors.ignores() =~= ignore_view(before).push(ev));
}

/// Records reviewed report occurrences that are not to be shown again: the
/// suppressions for the reports with one key and message.
pub fn add_suppression(errors: &mut Errors, entry: SuppressionEntry)
    requires
        old(errors).wf(),
    ensures
        final(errors).wf(),
        final(errors).suppressions() == old(errors).suppressions().push((
            entry.key,
            entry.message@,
            entry.suppressions@.map_values(|l: Vec<Suppression>| suppression_list_view(l@)),
        )),
        final(errors).store() == old(errors).store(),
        final(errors).ignores() == old(errors).ignores(),
        final(errors).cache@ == old(errors).cache@,
        final(errors).filter == old(errors).filter,
        final(errors).styles == old(errors).styles,
        final(errors).loaded_mods_labels == old(errors).loaded_mods_labels,
        final(errors).loaded_dlcs_labels == old(errors).loaded_dlcs_labels,
{
    let ghost before = errors.suppress@;
    let ghost v = (entry.key, entry.message@, entry.suppressions@.map_values(|l: Vec<Suppression>| suppression_list_view(l@)));
    errors.suppress.push(entry);
    assert(suppressions_view(errors.suppress@) =~= suppressions_view(before).push(v));
}

/// Sets the output style (controls colours).
pub fn set_output_style(errors: &mut Errors, style: OutputStyle)
    ensures
        *final(errors) == (Errors { styles: style, ..*old(errors) }),
        final(errors).styles == style,
        final(errors).store() == old(errors).store(),
        final(errors).filter == old(errors).filter,
{
    errors.styles = style;
}

/// Turns colours off in the output.
pub fn disable_ansi_colors(errors: &mut Errors)
    ensures
        *final(errors) == (Errors { styles: OutputStyle { color: false }, ..*old(errors) }),
        !final(errors).styles.color,
        final(errors).store() == old(errors).store(),
        final(errors).filter == old(errors).filter,
{
    errors.styles = OutputStyle::no_color();
}

/// Shows or hides reports that only touch base game files.
pub fn set_show_vanilla(errors: &mut Errors, v: bool)
    ensures
        *final(errors) == (Errors { filter: ReportFilter { show_vanilla: v, ..old(errors).filter }, ..*old(errors) }),
        final(errors).filter == (ReportFilter { show_vanilla: v, ..old(errors).filter }),
        final(errors).store() == old(errors).store(),
        final(errors).styles == old(errors).styles,
{
    errors.filter.show_vanilla = v;
}

/// Shows or hides reports that only touch extra loaded mods.
pub fn set_show_loaded_mods(errors: &mut Errors, v: bool)
    ensures
        *final(errors) == (Errors { filter: ReportFilter { show_loaded_mods: v, ..old(errors).filter }, ..*old(errors) }),
        final(errors).filter == (ReportFilter { show_loaded_mods: v, ..old(errors).filter }),
        final(errors).store() == old(errors).store(),
        final(errors).styles == old(errors).styles,
{
    errors.filter.show_loaded_mods = v;
}

/// Only shows reports that pass this rule.
pub fn set_predicate(errors: &mut Errors, predicate: FilterRule)
    ensures
        *final(errors) == (Errors { filter: ReportFilter { predicate, ..old(errors).filter }, ..*old(errors) }),
        final(errors).filter == (ReportFilter { predicate, ..old(errors).filter }),
        final(errors).store() == old(errors).store(),
        final(errors).styles == old(errors).styles,
{
    errors.filter.predicate = predicate;
}

// ---------------------------------------------------------------------------
// Scope annotations for language servers
// ---------------------------------------------------------------------------

/// The kind of an annotation.
#[derive(Debug)]
pub enum LspAnnotationKind {
    /// The resolved scope type at a block opening.
    Scope(String),
}

/// The current scope type at a location in a script.
#[derive(Debug)]
pub struct LspAnnotation {
    pub loc: Loc,
    pub kind: LspAnnotationKind,
}

pub open spec fn annotation_view(a: LspAnnotation) -> (Loc, Seq<char>) {
    match a.kind {
        LspAnnotationKind::Scope(s) => (a.loc, s@),
    }
}

pub open spec fn annotations_view(s: Seq<LspAnnotation>) -> Seq<(Loc, Seq<char>)> {
    s.map_values(|a: LspAnnotation| annotation_view(a))
}

/// Whether annotations are collected, and those collected so far.
#[derive(Debug)]
pub struct LspState {
    pub mode: bool,
    pub annotations: Vec<LspAnnotation>,
}

impl LspState {
    pub fn new() -> (res: LspState)
        ensures
            !res.mode,
            res.annotations@.len() == 0,
    {
        LspState { mode: false, annotations: Vec::new() }
    }
}

/// Turns annotation collection on or off.
pub fn set_lsp_mode(state: &mut LspState, enabled: bool)
    ensures
        final(state).mode == enabled,
        annotations_view(final(state).annotations@) == annotations_view(old(state).annotations@),
{
    state.mode = enabled;
}

/// Whether annotations are collected.
pub fn lsp_mode(state: &LspState) -> (res: bool)
    ensures
        res == state.mode,
{
    state.mode
}

/// Records the scope type at `loc`, when annotations are collected.
pub fn annotate_scope(state: &mut LspState, loc: Loc, scope_display: String)
    ensures
        final(state).mode == old(state).mode,
        annotations_view(final(state).annotations@) == (if old(state).mode {
            annotations_view(old(state).annotations@).push((loc, scope_display@))
        } else {
            annotations_view(old(state).annotations@)
        }),
{
    if !lsp_mode(state) {
        return;
    }
    let ghost before = state.annotations@;
    let ann = LspAnnotation { loc, kind: LspAnnotationKind::Scope(scope_display) };
    let ghost av = annotation_view(ann);
    state.annotations.push(ann);
    assert(annotations_view(state.annotations@) =~= annotations_view(before).push(av));
}

/// Takes the collected annotations out, leaving none.
pub fn take_annotations(state: &mut LspState) -> (res: Vec<LspAnnotation>)
    ensures
        annotations_view(res@) == annotations_view(old(state).annotations@),
        final(state).annotations@.len() == 0,
        final(state).mode == old(state).mode,
{
    let mut taken: Vec<LspAnnotation> = Vec::new();
    std::mem::swap(&mut taken, &mut state.annotations);
    taken
}

/// A report with locations none of which, after macro expansion, passes
/// the check that [`will_maybe_log`] makes is not stored.
pub proof fn law_rejected_not_stored(e: Errors, map: Seq<Loc>, r: MetadataV, p: Seq<PointedMessageV>)
    requires
        expand_pointers(map, p).len() > 0,
        forall|i: int| 0 <= i < expand_pointers(map, p).len()
            ==> !spec_should_maybe_print(e.filter, r.key, #[trigger] expand_pointers(map, p)[i].loc),
    ensures
        spec_log(e, map, r, p) == e.store(),
{
    let x = expand_pointers(map, p);
    assert(!spec_should_maybe_print(e.filter, r.key, x[0].loc));
    if spec_should_print(e.filter, r, x) {
        if !(r.key is Config) {
            let i = choose|i: int| 0 <= i < x.len() && loc_shown(e.filter, #[trigger] x[i].loc);
            assert(!spec_should_maybe_print(e.filter, r.key, x[i].loc));
        }
    }
}

/// An ignore directive hides every report that has a location it matches,
/// and the directives registered before it stay in force.
pub proof fn law_ignore_hides(ignore: Seq<IgnoreEntryV>, e: IgnoreEntryV, r: MetadataV, p: Seq<PointedMessageV>)
    ensures
        (exists|i: int| 0 <= i < p.len() && #[trigger] p[i].loc.idx == e.path && above_start(e.start, p[i].loc.line)
            && below_end(e.end, p[i].loc.line) && filter_matches(e, r.key, r.msg))
            ==> spec_should_ignore(r, p, ignore.push(e)),
        spec_should_ignore(r, p, ignore) ==> spec_should_ignore(r, p, ignore.push(e)),
{
    let ig = ignore.push(e);
    if exists|i: int| 0 <= i < p.len() && #[trigger] p[i].loc.idx == e.path && above_start(e.start, p[i].loc.line)
        && below_end(e.end, p[i].loc.line) && filter_matches(e, r.key, r.msg) {
        let i = choose|i: int| 0 <= i < p.len() && #[trigger] p[i].loc.idx == e.path && above_start(e.start, p[i].loc.line)
            && below_end(e.end, p[i].loc.line) && filter_matches(e, r.key, r.msg);
        assert(ig[ignore.len() as int] == e);
    }
    if spec_should_ignore(r, p, ignore) {
        let (i, j) = choose|i: int, j: int|
            0 <= i < p.len() && 0 <= j < ignore.len() && #[trigger] ignore[j].path == #[trigger] p[i].loc.idx
                && above_start(ignore[j].start, p[i].loc.line) && below_end(ignore[j].end, p[i].loc.line)
                && filter_matches(ignore[j], r.key, r.msg);
        assert(ig[j] == ignore[j]);
    }
}

/// Logging a report that passes the filter and is not suppressed records
/// its expanded locations among the report's occurrences; any other report
/// leaves the store as it was.
pub proof fn law_log_records(e: Errors, map: Seq<Loc>, r: MetadataV, p: Seq<PointedMessageV>)
    ensures
        ({
            let x = expand_pointers(map, p);
            let t = spec_log(e, map, r, p);
            if spec_should_print(e.filter, r, x) && !spec_should_suppress(r, x, e.suppressions(), e.cache@) {
                0 <= find_report(t, r) < t.len() && t[find_report(t, r)].1.contains(x)
            } else {
                t == e.store()
            }
        }),
{
    law_store_records(e.store(), r, expand_pointers(map, p));
}

/// A report at one location, not expanded from a macro, that
/// [`will_maybe_log`] rejects for its key and location is not stored, and so
/// never shown.
pub proof fn law_will_maybe_log_rejects(e: Errors, map: Seq<Loc>, r: MetadataV, p: PointedMessageV)
    requires
        p.loc.link_idx is None,
        !spec_should_maybe_print(e.filter, r.key, p.loc),
    ensures
        spec_log(e, map, r, seq![p]) == e.store(),
{
    let x = expand_pointers(map, seq![p]);
    assert(seq![p].drop_last() =~= Seq::<PointedMessageV>::empty());
    assert(seq![p].last() == p);
    assert(expand_pointers(map, Seq::<PointedMessageV>::empty()) == Seq::<PointedMessageV>::empty());
    assert(x =~= expand_pointer(map, p));
    assert(x.len() == 1);
    assert(x[0].loc.kind == p.loc.kind);
    law_rejected_not_stored(e, map, r, seq![p]);
}

} // verus!
