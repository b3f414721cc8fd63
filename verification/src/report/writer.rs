//! The text of report output: how a source line is shown and pointed at,
//! the tag of a file's origin, and the counts of the summary line.

use vstd::prelude::*;

use crate::fileset::{FileKind, FileStage};
use crate::game::Game;
use crate::report::errors::Errors;
use crate::report::{sev_rank, severity_rank, Severity};
use crate::text::{from_chars, to_chars};

verus! {

/// Leading tabs of shown source lines become this many spaces.
pub const SPACES_PER_TAB: usize = 4;

/// Leading whitespace of shown source lines is cut to this many spaces.
pub const MAX_IDLE_SPACE: usize = 16;

/// The number of leading spaces and tabs of `line`.
pub open spec fn leading_blanks(line: Seq<char>) -> nat
    decreases line.len(),
{
    if line.len() > 0 && (line[0] == ' ' || line[0] == '\t') {
        1 + leading_blanks(line.drop_first())
    } else {
        0
    }
}

/// The width of the first `n` characters of `line`, each space one and each
/// tab [`SPACES_PER_TAB`].
pub open spec fn blank_width(line: Seq<char>, n: nat) -> nat
    decreases n,
{
    if n == 0 || line.len() == 0 {
        0
    } else {
        (if line[0] == '\t' { SPACES_PER_TAB as nat } else { 1nat }) + blank_width(line.drop_first(), (n - 1) as nat)
    }
}

/// A source line without its leading spaces and tabs, how many characters
/// were removed, and how many spaces are shown in their place (at most
/// [`MAX_IDLE_SPACE`]).
pub open spec fn spec_line_spacing(line: Seq<char>) -> (Seq<char>, nat, nat) {
    let remove = leading_blanks(line);
    let spaces = blank_width(line, remove);
    (line.skip(remove as int), remove, if spaces <= MAX_IDLE_SPACE { spaces } else { MAX_IDLE_SPACE as nat })
}

proof fn lemma_leading_blanks(line: Seq<char>, i: int)
    requires
        0 <= i <= line.len(),
        forall|k: int| 0 <= k < i ==> line[k] == ' ' || line[k] == '\t',
    ensures
        leading_blanks(line) == i + leading_blanks(line.skip(i)),
        blank_width(line, i as nat) + blank_width(line.skip(i), (leading_blanks(line) - i) as nat)
            == blank_width(line, leading_blanks(line)),
    decreases i,
{
    if i > 0 {
        assert(line[0] == ' ' || line[0] == '\t');
        assert forall|k: int| 0 <= k < i - 1 implies line.drop_first()[k] == ' ' || line.drop_first()[k] == '\t' by {
            assert(line.drop_first()[k] == line[k + 1]);
        }
        lemma_leading_blanks(line.drop_first(), i - 1);
        assert(line.drop_first().skip(i - 1) == line.skip(i));
    } else {
        assert(line.skip(0) == line);
    }
}

/// Splits the leading spaces and tabs off a source line (see
/// [`spec_line_spacing`]).
pub fn line_spacing(line: &str) -> (res: (Vec<char>, usize, usize))
    ensures
        res.0@ == spec_line_spacing(line@).0,
        res.1 as nat == spec_line_spacing(line@).1,
        res.2 as nat == spec_line_spacing(line@).2,
{
    let v = to_chars(line);
    let mut remove: usize = 0;
    let mut spaces: usize = 0;
    while remove < v.len() && (v[remove] == ' ' || v[remove] == '\t')
        invariant
            remove <= v@.len(),
            forall|k: int| 0 <= k < remove ==> v@[k] == ' ' || v@[k] == '\t',
            spaces <= MAX_IDLE_SPACE + SPACES_PER_TAB,
            spaces == if blank_width(v@, remove as nat) <= MAX_IDLE_SPACE + 1 {
                blank_width(v@, remove as nat)
            } else {
                spaces as nat
            },
            spaces > MAX_IDLE_SPACE <==> blank_width(v@, remove as nat) > MAX_IDLE_SPACE,
        decreases v.len() - remove,
    {
        proof {
            lemma_blank_width_step(v@, remove as nat);
        }
        if spaces <= MAX_IDLE_SPACE {
            spaces = spaces + if v[remove] == '\t' { SPACES_PER_TAB } else { 1 };
        }
        remove += 1;
    }
    proof {
        lemma_leading_blanks(v@, remove as int);
        if remove < v@.len() {
            assert(v@.skip(remove as int)[0] == v@[remove as int]);
        }
        assert(leading_blanks(v@.skip(remove as int)) == 0);
        assert(blank_width(v@.skip(remove as int), 0) == 0);
    }
    let shown = if spaces <= MAX_IDLE_SPACE { spaces } else { MAX_IDLE_SPACE };
    let mut rest: Vec<char> = Vec::new();
    let mut i = remove;
    while i < v.len()
        invariant
            remove <= i <= v@.len(),
            rest@ == v@.subrange(remove as int, i as int),
        decreases v.len() - i,
    {
        rest.push(v[i]);
        i += 1;
    }
    assert(rest@ =~= v@.skip(remove as int));
    (rest, remove, shown)
}

proof fn lemma_blank_width_step(line: Seq<char>, n: nat)
    requires
        n < line.len(),
    ensures
        blank_width(line, n + 1) == blank_width(line, n) + if line[n as int] == '\t' { SPACES_PER_TAB as nat } else { 1nat },
    decreases n,
{
    if n > 0 {
        lemma_blank_width_step(line.drop_first(), (n - 1) as nat);
        assert(line.drop_first()[n - 1] == line[n as int]);
    } else {
        assert(blank_width(line.drop_first(), 0) == 0);
    }
}

/// The tag of a file's origin in reports: the base game's name, the label
/// of the DLC or secondary mod, or `MOD`.
pub open spec fn spec_kind_tag(errors: Errors, game: Game, kind: FileKind) -> Seq<char> {
    match kind {
        FileKind::Internal => "Internal"@,
        FileKind::Clausewitz => "Clausewitz"@,
        FileKind::Jomini => "Jomini"@,
        FileKind::Vanilla => match game {
            Game::Vic3 => "Vic3"@,
            Game::Hoi4 => "Hoi4"@,
        },
        FileKind::Dlc(i) => errors.loaded_dlcs_labels@[i as int]@,
        FileKind::LoadedMod(i) => errors.loaded_mods_labels@[i as int]@,
        FileKind::Mod => "MOD"@,
    }
}

/// Whether the labels that a file kind's tag needs were recorded.
pub open spec fn kind_tag_ok(errors: Errors, kind: FileKind) -> bool {
    match kind {
        FileKind::Dlc(i) => (i as int) < errors.loaded_dlcs_labels@.len(),
        FileKind::LoadedMod(i) => (i as int) < errors.loaded_mods_labels@.len(),
        _ => true,
    }
}

/// The tag of a file's origin in reports (see [`spec_kind_tag`]).
pub fn kind_tag<'a>(errors: &'a Errors, game: Game, kind: FileKind) -> (res: &'a str)
    requires
        kind_tag_ok(*errors, kind),
    ensures
        res@ == spec_kind_tag(*errors, game, kind),
{
    match kind {
        FileKind::Internal => "Internal",
        FileKind::Clausewitz => "Clausewitz",
        FileKind::Jomini => "Jomini",
        FileKind::Vanilla => match game {
            Game::Vic3 => "Vic3",
            Game::Hoi4 => "Hoi4",
        },
        FileKind::Dlc(i) => errors.loaded_dlcs_labels[i as usize].as_str(),
        FileKind::LoadedMod(i) => errors.loaded_mods_labels[i as usize].as_str(),
        FileKind::Mod => "MOD",
    }
}

/// The tag of a file's stage directory in reports; the games handled here
/// have none.
pub fn stage_tag(stage: FileStage) -> (res: &'static str)
    ensures
        res@ == Seq::<char>::empty(),
{
    proof {
        reveal_strlit("");
    }
    match stage {
        FileStage::NoStage => "",
    }
}

/// The number of columns a character takes on a terminal, if it is not a
/// control character (`unicode_width::UnicodeWidthChar::width`).
pub uninterp spec fn char_columns(c: char) -> Option<usize>;

/// The number of columns a character takes on a terminal
/// (`unicode_width::UnicodeWidthChar::width`): what the named result says,
/// and, as the crate's source shows, one column for each printable ASCII
/// character. Nothing more is claimed of other characters.
#[verifier::external_body]
fn char_width(c: char) -> (res: Option<usize>)
    ensures
        res == char_columns(c),
        (' ' <= c && c <= '~') ==> res == Some(1usize),
{
    unicode_width::UnicodeWidthChar::width(c)
}

/// What stands under one character of a source line before the carets: a
/// tab stays a tab, any other character becomes as many spaces as it is
/// wide (none for a control character).
pub open spec fn caret_pad(c: char) -> Seq<char> {
    if c == '\t' {
        seq!['\t']
    } else {
        Seq::new(
            match char_columns(c) {
                Some(w) => w as nat,
                None => 0,
            },
            |k: int| ' ',
        )
    }
}

/// What stands under the characters of `line` before the carets.
pub open spec fn spec_caret_spacing(line: Seq<char>) -> Seq<char>
    decreases line.len(),
{
    if line.len() == 0 {
        Seq::empty()
    } else {
        spec_caret_spacing(line.drop_last()) + caret_pad(line.last())
    }
}

/// The number of characters of the shown line before the pointed column:
/// the column less the removed leading blanks and one, or none; at most the
/// whole line.
pub open spec fn caret_offset(len: nat, column: u32, removed: usize) -> nat {
    let k: nat = if column as int > removed + 1 { (column - removed - 1) as nat } else { 0 };
    if k <= len { k } else { len }
}

/// The spacing that puts the carets under the pointed column of a shown
/// source line (see [`spec_caret_spacing`]); `line` is the line without its
/// `removed` leading blanks.
pub fn caret_spacing(line: &Vec<char>, column: u32, removed: usize) -> (res: String)
    requires
        removed < usize::MAX,
    ensures
        res@ == spec_caret_spacing(line@.take(caret_offset(line@.len(), column, removed) as int)),
        (forall|k: int| 0 <= k < caret_offset(line@.len(), column, removed) ==> ' ' <= #[trigger] line@[k] <= '~')
            ==> res@ == Seq::new(caret_offset(line@.len(), column, removed), |k: int| ' '),
{
    let limit = (column as usize).saturating_sub(removed + 1);
    let n = if limit < line.len() { limit } else { line.len() };
    let ghost ascii = forall|k: int| 0 <= k < n ==> ' ' <= #[trigger] line@[k] <= '~';
    let mut out: Vec<char> = Vec::new();
    let mut i: usize = 0;
    while i < n
        invariant
            n <= line@.len(),
            i <= n,
            out@ == spec_caret_spacing(line@.take(i as int)),
            ascii == forall|k: int| 0 <= k < n ==> ' ' <= #[trigger] line@[k] <= '~',
            ascii ==> out@ =~= Seq::new(i as nat, |k: int| ' '),
        decreases n - i,
    {
        let c = line[i];
        assert(line@.take(i + 1).drop_last() == line@.take(i as int));
        assert(line@.take(i + 1).last() == c);
        if c == '\t' {
            out.push('\t');
        } else {
            let w = match char_width(c) {
                Some(w) => w,
                None => 0,
            };
            let ghost start = out@;
            let mut j: usize = 0;
            while j < w
                invariant
                    j <= w,
                    out@ == start + Seq::new(j as nat, |k: int| ' '),
                decreases w - j,
            {
                out.push(' ');
                assert(out@ =~= start + Seq::new((j + 1) as nat, |k: int| ' '));
                j += 1;
            }
        }
        assert(out@ =~= spec_caret_spacing(line@.take(i + 1)));
        proof {
            if ascii {
                assert(' ' <= line@[i as int] <= '~');
                assert(out@ =~= Seq::new((i + 1) as nat, |k: int| ' '));
            }
        }
        i += 1;
    }
    assert(n as nat == caret_offset(line@.len(), column, removed));
    from_chars(&out)
}

/// The total of `1 + additional` over the reports of severity rank `rank`.
pub open spec fn severity_total(reports: Seq<(Severity, usize)>, rank: int) -> nat
    decreases reports.len(),
{
    if reports.len() == 0 {
        0
    } else {
        severity_total(reports.drop_last(), rank) + if sev_rank(reports.last().0) == rank {
            (1 + reports.last().1) as nat
        } else {
            0nat
        }
    }
}

proof fn lemma_severity_total_mono(reports: Seq<(Severity, usize)>, i: int, rank: int)
    requires
        0 <= i <= reports.len(),
    ensures
        severity_total(reports.take(i), rank) <= severity_total(reports, rank),
    decreases reports.len() - i,
{
    if i < reports.len() {
        lemma_severity_total_mono(reports, i + 1, rank);
        assert(reports.take(i + 1).drop_last() == reports.take(i));
    } else {
        assert(reports.take(i) == reports);
    }
}

/// The counts of the summary line: for each severity, by rank, the number of
/// reports of it, each with its additional occurrences.
pub fn summary_counts(reports: &Vec<(Severity, usize)>) -> (res: Vec<usize>)
    requires
        forall|r: int| 0 <= r < 5 ==> severity_total(reports@, r) <= usize::MAX,
    ensures
        res@.len() == 5,
        forall|r: int| 0 <= r < 5 ==> res@[r] == severity_total(reports@, r),
{
    let mut counts: Vec<usize> = vec![0, 0, 0, 0, 0];
    let mut i: usize = 0;
    while i < reports.len()
        invariant
            i <= reports@.len(),
            counts@.len() == 5,
            forall|r: int| 0 <= r < 5 ==> severity_total(reports@, r) <= usize::MAX,
            forall|r: int| 0 <= r < 5 ==> counts@[r] == severity_total(reports@.take(i as int), r),
        decreases reports.len() - i,
    {
        let (sev, additional) = reports[i];
        let r = severity_rank(sev) as usize;
        assert(reports@.take(i + 1).drop_last() == reports@.take(i as int));
        assert(reports@.take(i + 1).last() == reports@[i as int]);
        proof {
            lemma_severity_total_mono(reports@, i + 1, r as int);
        }
        let c = counts[r] + 1 + additional;
        counts.set(r, c);
        i += 1;
    }
    assert(reports@.take(reports@.len() as int) == reports@);
    counts
}

} // verus!
