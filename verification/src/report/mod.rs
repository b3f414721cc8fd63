//! Error reports: their keys, severities, confidences and contents, and a
//! builder that assembles one and hands it to the report store.

use vstd::prelude::*;

use crate::token::Loc;

pub mod errors;
pub mod writer;

pub use errors::Errors;

verus! {

/// How bad a problem is, from least to most.
#[derive(Clone, Copy, Debug, PartialEq, Eq, Hash, Structural)]
pub enum Severity {
    Tips,
    Untidy,
    Warning,
    Error,
    Fatal,
}

/// How sure the validator is that a problem is real, from least to most.
#[derive(Clone, Copy, Debug, PartialEq, Eq, Hash, Structural)]
pub enum Confidence {
    Weak,
    Reasonable,
    Strong,
}

pub open spec fn sev_rank(s: Severity) -> int {
    match s {
        Severity::Tips => 0,
        Severity::Untidy => 1,
        Severity::Warning => 2,
        Severity::Error => 3,
        Severity::Fatal => 4,
    }
}

pub open spec fn conf_rank(c: Confidence) -> int {
    match c {
        Confidence::Weak => 0,
        Confidence::Reasonable => 1,
        Confidence::Strong => 2,
    }
}

pub fn severity_rank(s: Severity) -> (res: u8)
    ensures
        res as int == sev_rank(s),
{
    match s {
        Severity::Tips => 0,
        Severity::Untidy => 1,
        Severity::Warning => 2,
        Severity::Error => 3,
        Severity::Fatal => 4,
    }
}

pub fn confidence_rank(c: Confidence) -> (res: u8)
    ensures
        res as int == conf_rank(c),
{
    match c {
        Confidence::Weak => 0,
        Confidence::Reasonable => 1,
        Confidence::Strong => 2,
    }
}

impl Severity {
    /// The lesser of `self` and `max`.
    pub fn at_most(self, max: Severity) -> (res: Severity)
        ensures
            res == (if sev_rank(self) <= sev_rank(max) { self } else { max }),
    {
        if severity_rank(self) <= severity_rank(max) {
            self
        } else {
            max
        }
    }
}

/// The kind of problem a report is about.
#[derive(Clone, Copy, Debug, PartialEq, Eq, Hash, Structural)]
pub enum ErrorKey {
    Config,
    Crash,
    DuplicateField,
    DuplicateItem,
    FieldMissing,
    Filename,
    Logic,
    MissingFile,
    MissingItem,
    MissingLocalization,
    MissingPerspective,
    MissingSound,
    Removed,
    UnknownField,
    UnusedFile,
    Validation,
}

/// How the occurrences of a report are shown: each in full, or all first
/// locations together in one list.
#[derive(Clone, Copy, Debug, PartialEq, Eq, Hash, Structural)]
pub enum LogReportStyle {
    Full,
    Abbreviated,
}

/// One location of a report, with the length to underline and an optional
/// message for that location.
#[derive(Debug)]
pub struct PointedMessage {
    pub loc: Loc,
    pub length: usize,
    pub msg: Option<String>,
}

/// The plain-value form of a [`PointedMessage`].
pub struct PointedMessageV {
    pub loc: Loc,
    pub length: usize,
    pub msg: Option<Seq<char>>,
}

pub open spec fn opt_view(o: Option<String>) -> Option<Seq<char>> {
    match o {
        Some(s) => Some(s@),
        None => None,
    }
}

impl View for PointedMessage {
    type V = PointedMessageV;

    open spec fn view(&self) -> PointedMessageV {
        PointedMessageV { loc: self.loc, length: self.length, msg: opt_view(self.msg) }
    }
}

/// A copy of an optional string.
pub fn clone_opt(o: &Option<String>) -> (res: Option<String>)
    ensures
        opt_view(res) == opt_view(*o),
{
    match o {
        Some(s) => Some(s.clone()),
        None => None,
    }
}

/// Whether two optional strings hold the same text.
pub fn opt_eq(a: &Option<String>, b: &Option<String>) -> (res: bool)
    ensures
        res == (opt_view(*a) == opt_view(*b)),
{
    match (a, b) {
        (Some(x), Some(y)) => *x == *y,
        (None, None) => true,
        _ => false,
    }
}

impl PointedMessage {
    pub fn duplicate(&self) -> (res: PointedMessage)
        ensures
            res@ == self@,
    {
        PointedMessage { loc: self.loc, length: self.length, msg: clone_opt(&self.msg) }
    }

    pub fn same_as(&self, other: &PointedMessage) -> (res: bool)
        ensures
            res == (self@ == other@),
    {
        self.loc == other.loc && self.length == other.length && opt_eq(&self.msg, &other.msg)
    }
}

/// The plain-value form of a list of pointers.
pub open spec fn ptrs_view(p: Seq<PointedMessage>) -> Seq<PointedMessageV> {
    p.map_values(|m: PointedMessage| m@)
}

/// A copy of a list of pointers.
pub fn duplicate_pointers(p: &Vec<PointedMessage>) -> (res: Vec<PointedMessage>)
    ensures
        ptrs_view(res@) == ptrs_view(p@),
{
    let mut res: Vec<PointedMessage> = Vec::new();
    let mut i: usize = 0;
    while i < p.len()
        invariant
            i <= p.len(),
            ptrs_view(res@) == ptrs_view(p@.take(i as int)),
        decreases p.len() - i,
    {
        res.push(p[i].duplicate());
        assert(ptrs_view(p@.take(i + 1)) =~= ptrs_view(p@.take(i as int)).push(p@[i as int]@));
        i += 1;
    }
    assert(p@.take(p.len() as int) =~= p@);
    res
}

/// Whether two lists of pointers are the same.
pub fn same_pointers(a: &Vec<PointedMessage>, b: &Vec<PointedMessage>) -> (res: bool)
    ensures
        res == (ptrs_view(a@) == ptrs_view(b@)),
{
    if a.len() != b.len() {
        return false;
    }
    let mut i: usize = 0;
    while i < a.len()
        invariant
            a.len() == b.len(),
            i <= a.len(),
            forall|k: int| 0 <= k < i ==> a@[k]@ == b@[k]@,
        decreases a.len() - i,
    {
        if !a[i].same_as(&b[i]) {
            assert(ptrs_view(a@)[i as int] != ptrs_view(b@)[i as int]);
            return false;
        }
        i += 1;
    }
    assert(ptrs_view(a@) =~= ptrs_view(b@));
    true
}

/// What a report says, apart from its locations.
#[derive(Debug)]
pub struct LogReportMetadata {
    pub key: ErrorKey,
    pub severity: Severity,
    pub confidence: Confidence,
    pub msg: String,
    pub info: Option<String>,
    pub wiki: Option<String>,
    pub style: LogReportStyle,
}

/// The plain-value form of [`LogReportMetadata`].
pub struct MetadataV {
    pub key: ErrorKey,
    pub severity: Severity,
    pub confidence: Confidence,
    pub msg: Seq<char>,
    pub info: Option<Seq<char>>,
    pub wiki: Option<Seq<char>>,
    pub style: LogReportStyle,
}

impl View for LogReportMetadata {
    type V = MetadataV;

    open spec fn view(&self) -> MetadataV {
        MetadataV {
            key: self.key,
            severity: self.severity,
            confidence: self.confidence,
            msg: self.msg@,
            info: opt_view(self.info),
            wiki: opt_view(self.wiki),
            style: self.style,
        }
    }
}

impl LogReportMetadata {
    pub fn duplicate(&self) -> (res: LogReportMetadata)
        ensures
            res@ == self@,
    {
        LogReportMetadata {
            key: self.key,
            severity: self.severity,
            confidence: self.confidence,
            msg: self.msg.clone(),
            info: clone_opt(&self.info),
            wiki: clone_opt(&self.wiki),
            style: self.style,
        }
    }

    pub fn same_as(&self, other: &LogReportMetadata) -> (res: bool)
        ensures
            res == (self@ == other@),
    {
        self.key == other.key && self.severity == other.severity && self.confidence
            == other.confidence && self.msg == other.msg && opt_eq(&self.info, &other.info)
            && opt_eq(&self.wiki, &other.wiki) && self.style == other.style
    }
}

/// A report being assembled: metadata and the locations it points at.
#[derive(Debug)]
pub struct ReportBuilder {
    pub metadata: LogReportMetadata,
    pub pointers: Vec<PointedMessage>,
}

/// Starts a report with the given key and severity, at reasonable confidence.
pub fn report(key: ErrorKey, severity: Severity) -> (res: ReportBuilder)
    ensures
        res.metadata@ == (MetadataV {
            key,
            severity,
            confidence: Confidence::Reasonable,
            msg: Seq::empty(),
            info: None,
            wiki: None,
            style: LogReportStyle::Full,
        }),
        res.pointers@.len() == 0,
{
    ReportBuilder {
        metadata: LogReportMetadata {
            key,
            severity,
            confidence: Confidence::Reasonable,
            msg: String::new(),
            info: None,
            wiki: None,
            style: LogReportStyle::Full,
        },
        pointers: Vec::new(),
    }
}

/// Starts an error report.
pub fn err(key: ErrorKey) -> (res: ReportBuilder)
    ensures
        res.metadata@ == report_start(key, Severity::Error),
        res.pointers@.len() == 0,
{
    report(key, Severity::Error)
}

/// Starts a warning report.
pub fn warn(key: ErrorKey) -> (res: ReportBuilder)
    ensures
        res.metadata@ == report_start(key, Severity::Warning),
        res.pointers@.len() == 0,
{
    report(key, Severity::Warning)
}

/// Starts a fatal report.
pub fn fatal(key: ErrorKey) -> (res: ReportBuilder)
    ensures
        res.metadata@ == report_start(key, Severity::Fatal),
        res.pointers@.len() == 0,
{
    report(key, Severity::Fatal)
}

/// The metadata of a freshly started report.
pub open spec fn report_start(key: ErrorKey, severity: Severity) -> MetadataV {
    MetadataV {
        key,
        severity,
        confidence: Confidence::Reasonable,
        msg: Seq::empty(),
        info: None,
        wiki: None,
        style: LogReportStyle::Full,
    }
}

impl ReportBuilder {
    /// Raises the confidence to strong.
    pub fn strong(self) -> (res: ReportBuilder)
        ensures
            res.metadata@ == (MetadataV { confidence: Confidence::Strong, ..self.metadata@ }),
            ptrs_view(res.pointers@) == ptrs_view(self.pointers@),
    {
        let mut s = self;
        s.metadata.confidence = Confidence::Strong;
        s
    }

    /// Lowers the confidence to weak.
    pub fn weak(self) -> (res: ReportBuilder)
        ensures
            res.metadata@ == (MetadataV { confidence: Confidence::Weak, ..self.metadata@ }),
            ptrs_view(res.pointers@) == ptrs_view(self.pointers@),
    {
        let mut s = self;
        s.metadata.confidence = Confidence::Weak;
        s
    }

    pub fn msg(self, msg: String) -> (res: ReportBuilder)
        ensures
            res.metadata@ == (MetadataV { msg: msg@, ..self.metadata@ }),
            ptrs_view(res.pointers@) == ptrs_view(self.pointers@),
    {
        let mut s = self;
        s.metadata.msg = msg;
        s
    }

    pub fn info(self, info: String) -> (res: ReportBuilder)
        ensures
            res.metadata@ == (MetadataV { info: Some(info@), ..self.metadata@ }),
            ptrs_view(res.pointers@) == ptrs_view(self.pointers@),
    {
        let mut s = self;
        s.metadata.info = Some(info);
        s
    }

    /// Shows all occurrences of this report together as one list.
    pub fn abbreviated(self, loc: Loc) -> (res: ReportBuilder)
        ensures
            res.metadata@ == (MetadataV { style: LogReportStyle::Abbreviated, ..self.metadata@ }),
            ptrs_view(res.pointers@) == ptrs_view(self.pointers@).push(
                PointedMessageV { loc, length: 1, msg: None },
            ),
    {
        let mut s = self;
        s.metadata.style = LogReportStyle::Abbreviated;
        s.loc(loc)
    }

    /// Adds a location without a message.
    pub fn loc(self, loc: Loc) -> (res: ReportBuilder)
        ensures
            res.metadata@ == self.metadata@,
            ptrs_view(res.pointers@) == ptrs_view(self.pointers@).push(
                PointedMessageV { loc, length: 1, msg: None },
            ),
    {
        let mut s = self;
        let ghost before = s.pointers@;
        s.pointers.push(PointedMessage { loc, length: 1, msg: None });
        assert(ptrs_view(s.pointers@) =~= ptrs_view(before).push(PointedMessageV { loc, length: 1, msg: None }));
        s
    }

    /// Adds a location with a message.
    pub fn loc_msg(self, loc: Loc, msg: String) -> (res: ReportBuilder)
        ensures
            res.metadata@ == self.metadata@,
            ptrs_view(res.pointers@) == ptrs_view(self.pointers@).push(
                PointedMessageV { loc, length: 1, msg: Some(msg@) },
            ),
    {
        let mut s = self;
        let ghost before = s.pointers@;
        let ghost m = msg@;
        s.pointers.push(PointedMessage { loc, length: 1, msg: Some(msg) });
        assert(ptrs_view(s.pointers@) =~= ptrs_view(before).push(PointedMessageV { loc, length: 1, msg: Some(m) }));
        s
    }
}

} // verus!
