//! Small verified helpers on character sequences.

use vstd::prelude::*;

verus! {

/// Appends one character to a `String` (std's `String::push`).
#[verifier::external_body]
pub(crate) fn string_push(s: &mut String, c: char)
    ensures
        final(s)@ == old(s)@.push(c),
{
    s.push(c)
}

/// The characters of `s`, in order.
pub fn to_chars(s: &str) -> (res: Vec<char>)
    ensures
        res@ == s@,
{
    let mut res: Vec<char> = Vec::new();
    for c in it: s.chars()
        invariant
            res@ == it.seq().take(it.index() as int),
            it.seq() == s@,
    {
        res.push(c);
    }
    res
}

/// A `String` holding exactly the characters of `v`.
pub fn from_chars(v: &[char]) -> (res: String)
    ensures
        res@ == v@,
{
    let mut res = String::new();
    let mut i: usize = 0;
    while i < v.len()
        invariant
            i <= v.len(),
            res@ == v@.take(i as int),
        decreases v.len() - i,
    {
        string_push(&mut res, v[i]);
        assert(v@.take(i + 1) == v@.take(i as int).push(v@[i as int]));
        i += 1;
    }
    assert(v@.take(v.len() as int) == v@);
    res
}

/// Whether two character vectors hold the same characters.
pub fn chars_eq(a: &Vec<char>, b: &Vec<char>) -> (res: bool)
    ensures
        res == (a@ == b@),
{
    if a.len() != b.len() {
        return false;
    }
    let mut i: usize = 0;
    while i < a.len()
        invariant
            a.len() == b.len(),
            i <= a.len(),
            forall|k: int| 0 <= k < i ==> a@[k] == b@[k],
        decreases a.len() - i,
    {
        if a[i] != b[i] {
            return false;
        }
        i += 1;
    }
    assert(a@ =~= b@);
    true
}

/// Whether two strings hold the same characters.
pub fn str_eq(a: &str, b: &str) -> (res: bool)
    ensures
        res == (a@ == b@),
{
    chars_eq(&to_chars(a), &to_chars(b))
}

/// ASCII upper-casing of one character; other characters are unchanged.
pub open spec fn ascii_upper(c: char) -> char {
    if 'a' <= c && c <= 'z' {
        ((c as u8) - 32) as char
    } else {
        c
    }
}

/// ASCII lower-casing of one character; other characters are unchanged.
pub open spec fn ascii_lower(c: char) -> char {
    if 'A' <= c && c <= 'Z' {
        ((c as u8) + 32) as char
    } else {
        c
    }
}

pub fn to_ascii_upper(c: char) -> (res: char)
    ensures
        res == ascii_upper(c),
{
    if 'a' <= c && c <= 'z' {
        ((c as u8) - 32) as char
    } else {
        c
    }
}

pub fn to_ascii_lower(c: char) -> (res: char)
    ensures
        res == ascii_lower(c),
{
    if 'A' <= c && c <= 'Z' {
        ((c as u8) + 32) as char
    } else {
        c
    }
}

/// The ASCII lower-case form of a whole sequence.
pub open spec fn lower_seq(s: Seq<char>) -> Seq<char> {
    s.map_values(|c: char| ascii_lower(c))
}

/// The ASCII lower-case form of `s` (std's `str::to_ascii_lowercase`).
pub fn ascii_lowercase(s: &str) -> (res: Vec<char>)
    ensures
        res@ == lower_seq(s@),
{
    let v = to_chars(s);
    let mut res: Vec<char> = Vec::new();
    let mut i: usize = 0;
    while i < v.len()
        invariant
            i <= v.len(),
            v@ == s@,
            res@ == lower_seq(v@.take(i as int)),
        decreases v.len() - i,
    {
        res.push(to_ascii_lower(v[i]));
        assert(lower_seq(v@.take(i + 1)) =~= lower_seq(v@.take(i as int)).push(ascii_lower(v@[i as int])));
        i += 1;
    }
    assert(v@.take(v.len() as int) =~= v@);
    res
}

/// The pieces of `s` between occurrences of `sep`, as `str::split` gives them:
/// there is always at least one piece, and pieces may be empty.
pub open spec fn split_seq(s: Seq<char>, sep: char) -> Seq<Seq<char>>
    decreases s.len(),
{
    if s.len() == 0 {
        seq![Seq::empty()]
    } else {
        let rest = split_seq(s.drop_last(), sep);
        if s.last() == sep {
            rest.push(Seq::empty())
        } else {
            rest.update(rest.len() - 1, rest.last().push(s.last()))
        }
    }
}

pub proof fn lemma_split_nonempty(s: Seq<char>, sep: char)
    ensures
        split_seq(s, sep).len() >= 1,
    decreases s.len(),
{
    if s.len() > 0 {
        lemma_split_nonempty(s.drop_last(), sep);
    }
}

/// Splits `v` at every `sep` (std's `str::split` with a `char` pattern).
pub fn split_chars(v: &Vec<char>, sep: char) -> (res: Vec<Vec<char>>)
    ensures
        res@.len() == split_seq(v@, sep).len(),
        forall|i: int| 0 <= i < res@.len() ==> #[trigger] res@[i]@ == split_seq(v@, sep)[i],
{
    let mut done: Vec<Vec<char>> = Vec::new();
    let mut cur: Vec<char> = Vec::new();
    let mut i: usize = 0;
    while i < v.len()
        invariant
            i <= v.len(),
            done@.len() + 1 == split_seq(v@.take(i as int), sep).len(),
            forall|k: int| 0 <= k < done@.len() ==> #[trigger] done@[k]@ == split_seq(v@.take(i as int), sep)[k],
            cur@ == split_seq(v@.take(i as int), sep).last(),
        decreases v.len() - i,
    {
        proof {
            lemma_split_nonempty(v@.take(i as int), sep);
        }
        assert(v@.take(i + 1).drop_last() == v@.take(i as int));
        if v[i] == sep {
            let mut finished: Vec<char> = Vec::new();
            std::mem::swap(&mut finished, &mut cur);
            done.push(finished);
        } else {
            cur.push(v[i]);
        }
        i += 1;
    }
    assert(v@.take(v.len() as int) == v@);
    proof {
        lemma_split_nonempty(v@, sep);
    }
    done.push(cur);
    done
}

/// Whether `needle` occurs in `hay` as a contiguous piece.
pub open spec fn has_piece(hay: Seq<char>, needle: Seq<char>) -> bool {
    exists|i: int| 0 <= i && i + needle.len() <= hay.len() && #[trigger] hay.subrange(i, i + needle.len()) == needle
}

/// Whether `needle` occurs in `hay` (std's `str::contains` with a string pattern).
pub fn contains_piece(hay: &Vec<char>, needle: &Vec<char>) -> (res: bool)
    ensures
        res == has_piece(hay@, needle@),
{
    if needle.len() > hay.len() {
        return false;
    }
    let mut i: usize = 0;
    while i <= hay.len() - needle.len()
        invariant
            needle.len() <= hay.len(),
            i <= hay.len() - needle.len() + 1,
            forall|k: int| 0 <= k < i ==> #[trigger] hay@.subrange(k, k + needle@.len()) != needle@,
        decreases hay.len() - i,
    {
        let mut j: usize = 0;
        let mut same = true;
        while j < needle.len()
            invariant
                i + needle.len() <= hay.len(),
                j <= needle.len(),
                same == (forall|k: int| 0 <= k < j ==> hay@[i + k] == needle@[k]),
            decreases needle.len() - j,
        {
            if hay[i + j] != needle[j] {
                same = false;
            }
            j += 1;
        }
        if same {
            assert(hay@.subrange(i as int, i + needle@.len()) =~= needle@);
            return true;
        }
        assert(hay@.subrange(i as int, i + needle@.len())[(choose|k: int| 0 <= k < j && hay@[i + k] != needle@[k])] != needle@[(choose|k: int| 0 <= k < j && hay@[i + k] != needle@[k])]);
        i += 1;
    }
    false
}

/// A line without its trailing carriage return, if it has one.
pub open spec fn strip_cr(l: Seq<char>) -> Seq<char> {
    if l.len() > 0 && l.last() == '\r' {
        l.drop_last()
    } else {
        l
    }
}

/// The lines of `s` as std's `str::lines` gives them: split at `\n`, a `\r`
/// before a `\n` removed, and no final empty line after a final `\n`.
pub open spec fn spec_lines(s: Seq<char>) -> Seq<Seq<char>> {
    let parts = split_seq(s, '\n');
    let init = parts.drop_last().map_values(|l: Seq<char>| strip_cr(l));
    if parts.last().len() == 0 {
        init
    } else {
        init.push(parts.last())
    }
}

/// Line `n` (1-based) of `s`, if `s` has that many lines.
pub fn nth_line(s: &Vec<char>, n: usize) -> (res: Option<Vec<char>>)
    requires
        n >= 1,
    ensures
        match res {
            Some(l) => n - 1 < spec_lines(s@).len() && l@ == spec_lines(s@)[n - 1],
            None => n - 1 >= spec_lines(s@).len(),
        },
{
    let parts = split_chars(s, '\n');
    proof {
        lemma_split_nonempty(s@, '\n');
    }
    let ghost sp = split_seq(s@, '\n');
    let last = parts.len() - 1;
    let idx = n - 1;
    if idx < last {
        let part = &parts[idx];
        let mut line: Vec<char> = Vec::new();
        let mut len = part.len();
        if len > 0 && part[len - 1] == '\r' {
            len = len - 1;
        }
        let mut k: usize = 0;
        while k < len
            invariant
                len <= part.len(),
                k <= len,
                line@ == part@.take(k as int),
            decreases len - k,
        {
            line.push(part[k]);
            assert(part@.take(k + 1) == part@.take(k as int).push(part@[k as int]));
            k += 1;
        }
        assert(line@ =~= strip_cr(sp[idx as int]));
        assert(spec_lines(s@)[idx as int] == strip_cr(sp.drop_last()[idx as int]));
        Some(line)
    } else if idx == last && parts[last].len() > 0 {
        let mut line: Vec<char> = Vec::new();
        let part = &parts[last];
        let mut k: usize = 0;
        while k < part.len()
            invariant
                k <= part.len(),
                line@ == part@.take(k as int),
            decreases part.len() - k,
        {
            line.push(part[k]);
            assert(part@.take(k + 1) == part@.take(k as int).push(part@[k as int]));
            k += 1;
        }
        assert(part@.take(part.len() as int) == part@);
        Some(line)
    } else {
        None
    }
}

/// Appends the characters of `s` to `v`.
pub fn push_str(v: &mut Vec<char>, s: &str)
    ensures
        final(v)@ == old(v)@ + s@,
{
    let c = to_chars(s);
    push_chars(v, &c);
}

/// Appends the characters of `c` to `v`.
pub fn push_chars(v: &mut Vec<char>, c: &Vec<char>)
    ensures
        final(v)@ == old(v)@ + c@,
{
    let ghost start = v@;
    let mut i: usize = 0;
    while i < c.len()
        invariant
            i <= c@.len(),
            v@ == start + c@.take(i as int),
        decreases c.len() - i,
    {
        v.push(c[i]);
        assert(c@.take(i + 1) == c@.take(i as int).push(c@[i as int]));
        i += 1;
    }
    assert(c@.take(c@.len() as int) == c@);
}

/// The index of the first element of `s` equal to `x`, or -1.
pub open spec fn first_index_of(s: Seq<Seq<char>>, x: Seq<char>) -> int
    decreases s.len(),
{
    if s.len() == 0 {
        -1
    } else if s[0] == x {
        0
    } else {
        let r = first_index_of(s.drop_first(), x);
        if r == -1 { -1 } else { r + 1 }
    }
}

pub proof fn lemma_first_index_of(s: Seq<Seq<char>>, x: Seq<char>)
    ensures
        -1 <= first_index_of(s, x) < s.len(),
        first_index_of(s, x) >= 0 ==> s[first_index_of(s, x)] == x,
        forall|k: int| 0 <= k < first_index_of(s, x) ==> s[k] != x,
        first_index_of(s, x) == -1 ==> forall|k: int| 0 <= k < s.len() ==> s[k] != x,
    decreases s.len(),
{
    if s.len() > 0 && s[0] != x {
        lemma_first_index_of(s.drop_first(), x);
        assert forall|k: int| 0 <= k < s.len() && k < first_index_of(s, x) implies s[k] != x by {
            if k > 0 {
                assert(s[k] == s.drop_first()[k - 1]);
            }
        }
        if first_index_of(s, x) == -1 {
            assert forall|k: int| 0 <= k < s.len() implies s[k] != x by {
                if k > 0 {
                    assert(s[k] == s.drop_first()[k - 1]);
                }
            }
        }
    }
}

/// `first_index_of` is the first position holding `x`.
pub proof fn lemma_first_index_is(s: Seq<Seq<char>>, x: Seq<char>, j: int)
    requires
        -1 <= j < s.len(),
        j >= 0 ==> s[j] == x,
        j >= 0 ==> forall|k: int| 0 <= k < j ==> s[k] != x,
        j == -1 ==> forall|k: int| 0 <= k < s.len() ==> s[k] != x,
    ensures
        first_index_of(s, x) == j,
{
    lemma_first_index_of(s, x);
    let f = first_index_of(s, x);
    if f >= 0 && j >= 0 {
        if f < j {
            assert(s[f] != x);
        } else if j < f {
            assert(s[j] != x);
        }
    } else if f >= 0 {
        assert(s[f] != x);
    } else if j >= 0 {
        assert(s[j] != x);
    }
}

/// The parts joined into one sequence, with `sep` between each two.
pub open spec fn join_seq(parts: Seq<Seq<char>>, sep: Seq<char>) -> Seq<char>
    decreases parts.len(),
{
    if parts.len() == 0 {
        Seq::empty()
    } else if parts.len() == 1 {
        parts[0]
    } else {
        join_seq(parts.drop_last(), sep) + sep + parts.last()
    }
}

/// Appends `x` to a join of `parts`: it follows `sep` unless it is the first.
pub(crate) fn push_joined(v: &mut Vec<char>, first: bool, sep: &str, x: &str, Ghost(start): Ghost<Seq<char>>, Ghost(parts): Ghost<Seq<Seq<char>>>)
    requires
        old(v)@ == start + join_seq(parts, sep@),
        first == (parts.len() == 0),
    ensures
        final(v)@ == start + join_seq(parts.push(x@), sep@),
{
    assert(parts.push(x@).drop_last() == parts);
    if !first {
        push_str(v, sep);
        push_str(v, x);
        assert(final_join_step(parts, sep@, x@));
    } else {
        push_str(v, x);
    }
    assert(v@ =~= start + join_seq(parts.push(x@), sep@));
}

spec fn final_join_step(parts: Seq<Seq<char>>, sep: Seq<char>, x: Seq<char>) -> bool {
    parts.len() > 0 ==> join_seq(parts.push(x), sep) == join_seq(parts, sep) + sep + x
}

/// The number of bytes UTF-8 takes for `c`.
pub open spec fn utf8_width(c: char) -> nat {
    let n = c as u32;
    if n < 0x80 {
        1
    } else if n < 0x800 {
        2
    } else if n < 0x10000 {
        3
    } else {
        4
    }
}

/// The number of bytes UTF-8 takes for `s`.
pub open spec fn utf8_len(s: Seq<char>) -> nat
    decreases s.len(),
{
    if s.len() == 0 {
        0
    } else {
        utf8_len(s.drop_last()) + utf8_width(s.last())
    }
}

/// The number of characters of `s` that take exactly `n` bytes, searching
/// from `k` characters on; `None` if byte `n` falls inside a character or
/// past the end.
pub open spec fn find_boundary(s: Seq<char>, n: nat, k: nat) -> Option<nat>
    decreases s.len() + 1 - k,
{
    if k > s.len() {
        None
    } else if utf8_len(s.take(k as int)) == n {
        Some(k)
    } else if utf8_len(s.take(k as int)) > n {
        None
    } else {
        find_boundary(s, n, k + 1)
    }
}

/// The number of bytes UTF-8 takes for `c`.
pub fn char_utf8_width(c: char) -> (res: usize)
    ensures
        res == utf8_width(c),
{
    let n = c as u32;
    if n < 0x80 {
        1
    } else if n < 0x800 {
        2
    } else if n < 0x10000 {
        3
    } else {
        4
    }
}

proof fn lemma_utf8_len_step(s: Seq<char>, i: int)
    requires
        0 <= i < s.len(),
    ensures
        utf8_len(s.take(i + 1)) == utf8_len(s.take(i)) + utf8_width(s[i]),
{
    assert(s.take(i + 1).drop_last() == s.take(i));
}

proof fn lemma_utf8_len_mono(s: Seq<char>, i: int, j: int)
    requires
        0 <= i <= j <= s.len(),
    ensures
        utf8_len(s.take(i)) <= utf8_len(s.take(j)),
    decreases j - i,
{
    if i < j {
        lemma_utf8_len_step(s, j - 1);
        lemma_utf8_len_mono(s, i, j - 1);
    }
}

/// Whether `v` takes more than `limit` bytes in UTF-8.
pub fn utf8_len_exceeds(v: &Vec<char>, limit: usize) -> (res: bool)
    requires
        limit < usize::MAX - 4,
    ensures
        res == (utf8_len(v@) > limit),
{
    let mut total: usize = 0;
    let mut i: usize = 0;
    while i < v.len()
        invariant
            i <= v@.len(),
            total == utf8_len(v@.take(i as int)),
            total <= limit,
            limit < usize::MAX - 4,
        decreases v.len() - i,
    {
        proof {
            lemma_utf8_len_step(v@, i as int);
        }
        total = total + char_utf8_width(v[i]);
        i += 1;
        if total > limit {
            proof {
                lemma_utf8_len_mono(v@, i as int, v@.len() as int);
                assert(v@.take(v@.len() as int) == v@);
            }
            return true;
        }
    }
    assert(v@.take(v@.len() as int) == v@);
    false
}

/// The first `n` bytes of `v`, which must end at a character boundary.
pub fn take_bytes(v: &Vec<char>, n: usize) -> (res: Vec<char>)
    requires
        find_boundary(v@, n as nat, 0) is Some,
    ensures
        res@ == v@.take(find_boundary(v@, n as nat, 0)->0 as int),
{
    let mut res: Vec<char> = Vec::new();
    let mut total: usize = 0;
    let mut i: usize = 0;
    while total < n
        invariant
            i <= v@.len(),
            total == utf8_len(v@.take(i as int)),
            total <= n,
            res@ == v@.take(i as int),
            find_boundary(v@, n as nat, i as nat) == find_boundary(v@, n as nat, 0),
            find_boundary(v@, n as nat, 0) is Some,
        decreases n - total,
    {
        if i == v.len() {
            assert(find_boundary(v@, n as nat, i as nat) == find_boundary(v@, n as nat, (i + 1) as nat));
            assert(false);
        }
        proof {
            lemma_utf8_len_step(v@, i as int);
        }
        let w = char_utf8_width(v[i]);
        if w > n - total {
            assert(find_boundary(v@, n as nat, (i + 1) as nat) is None) by {
                lemma_boundary_past(v@, n as nat, (i + 1) as nat);
            }
            assert(false);
        }
        res.push(v[i]);
        total = total + w;
        i += 1;
        assert(res@ == v@.take(i as int));
    }
    res
}

proof fn lemma_boundary_past(s: Seq<char>, n: nat, k: nat)
    requires
        k <= s.len() + 1,
        k <= s.len() ==> utf8_len(s.take(k as int)) > n,
    ensures
        find_boundary(s, n, k) is None,
    decreases s.len() + 1 - k,
{
    if k < s.len() {
        lemma_utf8_len_mono(s, k as int, (k + 1) as int);
        lemma_boundary_past(s, n, k + 1);
    }
}

/// The character of a decimal digit.
pub open spec fn digit_char(d: int) -> char {
    if d == 0 { '0' } else if d == 1 { '1' } else if d == 2 { '2' } else if d == 3 { '3' } else if d == 4 { '4' }
    else if d == 5 { '5' } else if d == 6 { '6' } else if d == 7 { '7' } else if d == 8 { '8' } else { '9' }
}

/// A number written in decimal.
pub open spec fn decimal(n: nat) -> Seq<char>
    decreases n,
{
    if n < 10 { seq![digit_char(n as int)] } else { decimal(n / 10).push(digit_char((n % 10) as int)) }
}

fn digit(d: u8) -> (res: char)
    requires
        d < 10,
    ensures
        res == digit_char(d as int),
{
    match d {
        0 => '0',
        1 => '1',
        2 => '2',
        3 => '3',
        4 => '4',
        5 => '5',
        6 => '6',
        7 => '7',
        8 => '8',
        _ => '9',
    }
}

/// A byte written in decimal.
pub fn u8_decimal(n: u8) -> (res: Vec<char>)
    ensures
        res@ == decimal(n as nat),
{
    let mut v: Vec<char> = Vec::new();
    if n >= 100 {
        v.push(digit(n / 100));
    }
    if n >= 10 {
        v.push(digit((n / 10) % 10));
    }
    v.push(digit(n % 10));
    proof {
        if n >= 100 {
            assert(decimal((n / 10) as nat) == decimal((n / 100) as nat).push(digit_char(((n / 10) % 10) as int)));
            assert(decimal((n / 100) as nat) == seq![digit_char((n / 100) as int)]);
        } else if n >= 10 {
            assert(decimal((n / 10) as nat) == seq![digit_char((n / 10) as int)]);
        }
    }
    assert(v@ =~= decimal(n as nat));
    v
}

/// A number written in decimal.
pub fn usize_decimal(n: usize) -> (res: Vec<char>)
    ensures
        res@ == decimal(n as nat),
    decreases n,
{
    if n < 10 {
        let v = vec![digit(n as u8)];
        assert(v@ =~= decimal(n as nat));
        v
    } else {
        let mut v = usize_decimal(n / 10);
        v.push(digit((n % 10) as u8));
        v
    }
}

} // verus!
