//! Locations in script files and tokens that carry them.

use vstd::prelude::*;

use crate::fileset::{FileKind, FileStage};
use crate::pathtable::PathTableIndex;

verus! {

/// A position in a file. Line 0 stands for the file as a whole.
#[derive(Clone, Copy, Debug, PartialEq, Eq, Structural)]
pub struct Loc {
    pub idx: PathTableIndex,
    pub kind: FileKind,
    pub stage: FileStage,
    pub line: u32,
    pub column: u32,
    /// The macro-map entry this location was expanded from, if any.
    pub link_idx: Option<u32>,
}

/// A piece of script text with its location.
#[derive(Debug)]
pub struct Token {
    pub s: String,
    pub loc: Loc,
}

/// Digits with at most one decimal point among them, and an optional minus
/// sign in front: the form of numbers in script files.
pub open spec fn is_number_text(s: Seq<char>) -> bool {
    number_body(if s.len() > 0 && s[0] == '-' { s.drop_first() } else { s })
}

/// Digits with at most one decimal point among them.
pub open spec fn number_body(body: Seq<char>) -> bool {
    &&& body.len() > 0
    &&& forall|i: int| 0 <= i < body.len() ==> ('0' <= #[trigger] body[i] <= '9' || body[i] == '.')
    &&& exists|i: int| 0 <= i < body.len() && '0' <= #[trigger] body[i] <= '9'
    &&& forall|i: int, j: int| 0 <= i < j < body.len() && #[trigger] body[i] == '.' ==> #[trigger] body[j] != '.'
}

impl Token {
    /// Whether the token is a number.
    pub fn is_number(&self) -> (res: bool)
        ensures
            res == is_number_text(self.s@),
    {
        let v = crate::text::to_chars(self.as_str());
        let start: usize = if v.len() > 0 && v[0] == '-' { 1 } else { 0 };
        let ghost body = if v@.len() > 0 && v@[0] == '-' { v@.drop_first() } else { v@ };
        assert(start == 1 ==> body == v@.drop_first());
        assert(start == 0 ==> body == v@);
        if start >= v.len() {
            return false;
        }
        let mut i = start;
        let mut digits = false;
        let mut dots: usize = 0;
        let ghost mut dot_at: int = -1;
        while i < v.len()
            invariant
                v@ == self.s@,
                body == (if v@.len() > 0 && v@[0] == '-' { v@.drop_first() } else { v@ }),
                start <= i <= v@.len(),
                start as int + body.len() == v@.len(),
                forall|k: int| 0 <= k < body.len() ==> body[k] == v@[start + k],
                forall|k: int| 0 <= k < i - start ==> ('0' <= #[trigger] body[k] <= '9' || body[k] == '.'),
                digits == exists|k: int| 0 <= k < i - start && '0' <= #[trigger] body[k] <= '9',
                dots <= 1,
                dots == 0 ==> forall|k: int| 0 <= k < i - start ==> #[trigger] body[k] != '.',
                dots == 1 ==> 0 <= dot_at < i - start && body[dot_at] == '.' && forall|k: int| 0 <= k < i - start && k != dot_at ==> #[trigger] body[k] != '.',
            decreases v.len() - i,
        {
            let c = v[i];
            assert(body[i - start] == c);
            assert(start == 1 ==> v@[0] == '-');
            if c == '.' {
                if dots == 1 {
                    assert(body[dot_at] == '.' && body[i - start] == '.');
                    return false;
                }
                dots = 1;
                proof {
                    dot_at = i - start;
                }
            } else if '0' <= c && c <= '9' {
                digits = true;
            } else {
                assert(!('0' <= body[i - start] <= '9' || body[i - start] == '.'));
                return false;
            }
            i += 1;
        }
        assert(i - start == body.len());
        assert(body.len() > 0);
        assert(forall|k: int| 0 <= k < body.len() ==> ('0' <= #[trigger] body[k] <= '9' || body[k] == '.'));
        assert(forall|a: int, b: int| 0 <= a < b < body.len() && #[trigger] body[a] == '.' ==> #[trigger] body[b] != '.');
        assert(digits == exists|k: int| 0 <= k < body.len() && '0' <= #[trigger] body[k] <= '9');
        digits
    }

    /// Whether the token is exactly `s`.
    pub fn is(&self, s: &str) -> (res: bool)
        ensures
            res == (self.s@ == s@),
    {
        crate::text::str_eq(self.as_str(), s)
    }

    pub fn new(s: String, loc: Loc) -> (res: Token)
        ensures
            res.s@ == s@,
            res.loc == loc,
    {
        Token { s, loc }
    }

    pub fn as_str(&self) -> (res: &str)
        ensures
            res@ == self.s@,
    {
        self.s.as_str()
    }

    /// A copy of this token.
    pub fn duplicate(&self) -> (res: Token)
        ensures
            res == *self,
    {
        Token { s: self.s.clone(), loc: self.loc }
    }
}

} // verus!
