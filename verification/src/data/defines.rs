//! Defines: the engine constants of `common/defines`, one per group and name.

use vstd::prelude::*;

use crate::block::{bv_equiv, bv_same, Block, BlockItem, BV};
use crate::db::{dup_pointers, dup_report, dup_error};
use crate::fileset::{kind_compare, kind_lt};
use crate::report::errors::{spec_log, Errors, MacroMap};
use crate::report::{err, ptrs_view, ErrorKey, MetadataV, PointedMessageV, Severity, Confidence, LogReportStyle};
use crate::text::{chars_eq, from_chars, push_str, to_chars};
use crate::token::{is_number_text, Token};

verus! {

/// One define: its group, its name and its value.
#[derive(Debug)]
pub struct Define {
    pub group: Token,
    pub name: Token,
    pub bv: BV,
}

/// The kinds of values defines have.
#[derive(Clone, Copy, Debug, PartialEq, Eq, Structural)]
pub enum DefineType {
    Number,
    Boolean,
    String,
    UnknownList,
    Color,
    NumberList,
    StringList,
}

/// The key of a define: `group|name`.
pub open spec fn define_key(group: Seq<char>, name: Seq<char>) -> Seq<char> {
    group + "|"@ + name
}

/// The value of a bare value item.
pub open spec fn item_value(i: BlockItem) -> Option<Token> {
    match i {
        BlockItem::Value(t) => Some(t),
        _ => None,
    }
}

/// The kind of value a define has, judged from the value itself: a number,
/// `yes`/`no`, other text; for a list, by its first item and length.
pub open spec fn spec_value_type(bv: BV) -> DefineType {
    match bv {
        BV::Value(t) => if is_number_text(t.s@) {
            DefineType::Number
        } else if t.s@ == "yes"@ || t.s@ == "no"@ {
            DefineType::Boolean
        } else {
            DefineType::String
        },
        BV::Block(b) => if b.items@.len() == 0 {
            DefineType::UnknownList
        } else {
            match item_value(b.items@[0]) {
                Some(t) => if is_number_text(t.s@) {
                    if b.items@.len() == 4 { DefineType::Color } else { DefineType::NumberList }
                } else {
                    DefineType::StringList
                },
                None => DefineType::UnknownList,
            }
        },
    }
}

/// The error report that a define is not known.
pub open spec fn unknown_define_report(key: Seq<char>) -> MetadataV {
    MetadataV {
        key: ErrorKey::UnknownField,
        severity: Severity::Error,
        confidence: Confidence::Reasonable,
        msg: "unknown define "@ + key,
        info: None,
        wiki: None,
        style: LogReportStyle::Full,
    }
}

pub open spec fn known_keys(known: Seq<(String, DefineType)>) -> Seq<Seq<char>> {
    known.map_values(|k: (String, DefineType)| k.0@)
}

impl Define {
    pub fn new(group: Token, name: Token, bv: BV) -> (res: Define)
        ensures
            res.group == group,
            res.name == name,
            res.bv == bv,
    {
        Self { group, name, bv }
    }

    pub open spec fn group(&self) -> Token {
        self.group
    }

    pub open spec fn name(&self) -> Token {
        self.name
    }

    pub open spec fn bv(&self) -> BV {
        self.bv
    }

    /// The key `group|name`.
    pub fn key(&self) -> (res: Vec<char>)
        ensures
            res@ == define_key(self.group.s@, self.name.s@),
    {
        let mut key: Vec<char> = Vec::new();
        push_str(&mut key, self.group.as_str());
        push_str(&mut key, "|");
        push_str(&mut key, self.name.as_str());
        key
    }

    /// The kind of value this define has, judged from the value.
    pub fn value_type(&self) -> (res: DefineType)
        ensures
            res == spec_value_type(self.bv),
    {
        match &self.bv {
            BV::Value(token) => {
                if token.is_number() {
                    DefineType::Number
                } else if token.is("yes") || token.is("no") {
                    DefineType::Boolean
                } else {
                    DefineType::String
                }
            },
            BV::Block(block) => {
                if block.num_items() == 0 {
                    DefineType::UnknownList
                } else {
                    match &block.items[0] {
                        BlockItem::Value(t) => {
                            if t.is_number() {
                                if block.num_items() == 4 {
                                    DefineType::Color
                                } else {
                                    DefineType::NumberList
                                }
                            } else {
                                DefineType::StringList
                            }
                        },
                        _ => DefineType::UnknownList,
                    }
                }
            },
        }
    }

    /// Checks that the game knows this define. Returns the kind of value the
    /// game expects for it; an unknown define is reported.
    #[verifier::loop_isolation(false)]
    pub fn validate(&self, known: &Vec<(String, DefineType)>, errors: &mut Errors, map: &MacroMap) -> (res: Option<DefineType>)
        requires
            old(errors).wf(),
            map.wf(),
        ensures
            final(errors).wf(),
            ({
                let key = define_key(self.group.s@, self.name.s@);
                let i = crate::text::first_index_of(known_keys(known@), key);
                &&& res == (if i >= 0 { Some(known@[i].1) } else { None })
                &&& final(errors).store() == (if i >= 0 {
                    old(errors).store()
                } else {
                    spec_log(*old(errors), map.locs@, unknown_define_report(key), seq![PointedMessageV { loc: self.name.loc, length: 1, msg: None }])
                })
            }),
    {
        let key = self.key();
        let ghost ks = known_keys(known@);
        let mut i: usize = 0;
        while i < known.len()
            invariant
                i <= known@.len(),
                ks == known_keys(known@),
                forall|k: int| 0 <= k < i ==> ks[k] != key@,
            decreases known.len() - i,
        {
            assert(ks[i as int] == known@[i as int].0@);
            if chars_eq(&to_chars(known[i].0.as_str()), &key) {
                proof {
                    crate::text::lemma_first_index_is(ks, key@, i as int);
                }
                return Some(known[i].1);
            }
            i += 1;
        }
        proof {
            crate::text::lemma_first_index_is(ks, key@, -1);
        }
        let mut msg: Vec<char> = Vec::new();
        push_str(&mut msg, "unknown define ");
        push_chars_into(&mut msg, &key);
        let b = err(ErrorKey::UnknownField).msg(from_chars(&msg)).loc(self.name.loc);
        assert(ptrs_view(b.pointers@) =~= seq![PointedMessageV { loc: self.name.loc, length: 1, msg: None }]);
        assert(b.pointers@.len() == ptrs_view(b.pointers@).len());
        b.push(errors, map);
        None
    }
}

fn push_chars_into(v: &mut Vec<char>, c: &Vec<char>)
    ensures
        final(v)@ == old(v)@ + c@,
{
    crate::text::push_chars(v, c);
}

/// The defines, by key.
#[derive(Debug)]
pub struct Defines {
    defines: Vec<(Vec<char>, Define)>,
}

/// The index of the define with key `key`, or -1.
pub open spec fn find_define(s: Seq<(Vec<char>, Define)>, key: Seq<char>) -> int
    decreases s.len(),
{
    if s.len() == 0 {
        -1
    } else if s.last().0@ == key {
        s.len() - 1
    } else {
        find_define(s.drop_last(), key)
    }
}

proof fn lemma_find_define(s: Seq<(Vec<char>, Define)>, key: Seq<char>)
    ensures
        -1 <= find_define(s, key) < s.len(),
        find_define(s, key) >= 0 ==> s[find_define(s, key)].0@ == key,
        find_define(s, key) == -1 ==> forall|k: int| 0 <= k < s.len() ==> (#[trigger] s[k]).0@ != key,
    decreases s.len(),
{
    if s.len() > 0 {
        lemma_find_define(s.drop_last(), key);
        if find_define(s, key) == -1 {
            assert forall|k: int| 0 <= k < s.len() implies (#[trigger] s[k]).0@ != key by {
                if k < s.len() - 1 {
                    assert(s[k] == s.drop_last()[k]);
                }
            }
        }
    }
}

/// The defines `t` after recording `group|name = bv` into the defines `s`:
/// it takes the place of the define with that key, or is added at the end.
pub open spec fn spec_loaded(s: Seq<(Vec<char>, Define)>, t: Seq<(Vec<char>, Define)>, group: Token, name: Token, bv: BV) -> bool {
    let key = define_key(group.s@, name.s@);
    let i = find_define(s, key);
    if i >= 0 {
        t.len() == s.len() && (forall|k: int| 0 <= k < s.len() && k != i ==> t[k] == s[k]) && t[i].0@ == key
            && t[i].1.group == group && t[i].1.name == name && bv_same(t[i].1.bv, bv)
    } else {
        t.len() == s.len() + 1 && (forall|k: int| 0 <= k < s.len() ==> t[k] == s[k]) && t[s.len() as int].0@ == key
            && t[s.len() as int].1.group == group && t[s.len() as int].1.name == name
            && bv_same(t[s.len() as int].1.bv, bv)
    }
}

proof fn lemma_find_define_is(s: Seq<(Vec<char>, Define)>, key: Seq<char>, j: int)
    requires
        0 <= j < s.len(),
        s[j].0@ == key,
        forall|k: int| j < k < s.len() ==> s[k].0@ != key,
    ensures
        find_define(s, key) == j,
    decreases s.len(),
{
    if j < s.len() - 1 {
        assert forall|k: int| j < k < s.drop_last().len() implies s.drop_last()[k].0@ != key by {
            assert(s.drop_last()[k] == s[k]);
        }
        lemma_find_define_is(s.drop_last(), key, j);
    }
}

/// What a define that was recorded is read back as: looking up its key
/// afterwards finds it, with the group, name and value recorded.
pub proof fn law_define_read_after_load(s: Seq<(Vec<char>, Define)>, t: Seq<(Vec<char>, Define)>, group: Token, name: Token, bv: BV)
    requires
        spec_loaded(s, t, group, name, bv),
    ensures
        ({
            let i = find_define(t, define_key(group.s@, name.s@));
            &&& 0 <= i < t.len()
            &&& t[i].1.group == group
            &&& t[i].1.name == name
            &&& bv_same(t[i].1.bv, bv)
        }),
{
    let key = define_key(group.s@, name.s@);
    let i = find_define(s, key);
    lemma_find_define(s, key);
    if i >= 0 {
        assert forall|k: int| i < k < t.len() implies t[k].0@ != key by {
            assert(t[k] == s[k]);
            if s[k].0@ == key {
                lemma_find_define_after(s, key, k);
            }
        }
        lemma_find_define_is(t, key, i);
    } else {
        lemma_find_define_is(t, key, s.len() as int);
    }
}

proof fn lemma_find_define_after(s: Seq<(Vec<char>, Define)>, key: Seq<char>, k: int)
    requires
        0 <= k < s.len(),
        s[k].0@ == key,
    ensures
        find_define(s, key) >= k,
    decreases s.len(),
{
    if k < s.len() - 1 {
        assert(s.drop_last()[k] == s[k]);
        lemma_find_define_after(s.drop_last(), key, k);
    }
}

/// The keys of the defines, in order.
pub open spec fn keys_of(s: Seq<(Vec<char>, Define)>) -> Seq<Seq<char>> {
    s.map_values(|e: (Vec<char>, Define)| e.0@)
}

/// The keys after recording `k`: it is added unless it is there.
pub open spec fn keys_add(ks: Seq<Seq<char>>, k: Seq<char>) -> Seq<Seq<char>> {
    if ks.contains(k) { ks } else { ks.push(k) }
}

/// The keys after recording each of `new` in turn.
pub open spec fn keys_add_all(ks: Seq<Seq<char>>, new: Seq<Seq<char>>) -> Seq<Seq<char>>
    decreases new.len(),
{
    if new.len() == 0 { ks } else { keys_add(keys_add_all(ks, new.drop_last()), new.last()) }
}

/// The keys of the defines of one group block, in order.
pub open spec fn group_keys(group: Token, items: Seq<BlockItem>) -> Seq<Seq<char>>
    decreases items.len(),
{
    if items.len() == 0 {
        Seq::empty()
    } else {
        group_keys(group, items.drop_last()) + match items.last() {
            BlockItem::Field(n, _) => seq![define_key(group.s@, n.s@)],
            _ => Seq::empty(),
        }
    }
}

/// The keys of the defines of a file, in order.
pub open spec fn file_keys(items: Seq<BlockItem>) -> Seq<Seq<char>>
    decreases items.len(),
{
    if items.len() == 0 {
        Seq::empty()
    } else {
        file_keys(items.drop_last()) + match items.last() {
            BlockItem::Field(g, BV::Block(inner)) => group_keys(g, inner.items@),
            _ => Seq::empty(),
        }
    }
}

proof fn lemma_keys_add_all_push(ks: Seq<Seq<char>>, a: Seq<Seq<char>>, k: Seq<char>)
    ensures
        keys_add_all(ks, a.push(k)) == keys_add(keys_add_all(ks, a), k),
{
    assert(a.push(k).drop_last() == a);
}

proof fn lemma_keys_add_all_concat(ks: Seq<Seq<char>>, a: Seq<Seq<char>>, b: Seq<Seq<char>>)
    ensures
        keys_add_all(ks, a + b) == keys_add_all(keys_add_all(ks, a), b),
    decreases b.len(),
{
    if b.len() == 0 {
        assert(a + b == a);
    } else {
        lemma_keys_add_all_concat(ks, a, b.drop_last());
        assert((a + b).drop_last() == a + b.drop_last());
        assert((a + b).last() == b.last());
    }
}

impl Defines {
    pub closed spec fn entries(&self) -> Seq<(Vec<char>, Define)> {
        self.defines@
    }

    pub fn new() -> (res: Defines)
        ensures
            res.entries().len() == 0,
    {
        Defines { defines: Vec::new() }
    }

    fn find(&self, key: &Vec<char>) -> (res: Option<usize>)
        ensures
            match res {
                Some(i) => find_define(self.entries(), key@) == i as int && (i as int) < self.entries().len(),
                None => find_define(self.entries(), key@) == -1,
            },
    {
        let ghost s = self.entries();
        let mut i = self.defines.len();
        assert(s.take(i as int) =~= s);
        while i > 0
            invariant
                i <= s.len(),
                s == self.entries(),
                find_define(s, key@) == find_define(s.take(i as int), key@),
            decreases i,
        {
            assert(s.take(i as int).drop_last() == s.take(i - 1));
            assert(s.take(i as int).last() == s[i - 1]);
            if chars_eq(&self.defines[i - 1].0, key) {
                return Some(i - 1);
            }
            i -= 1;
        }
        None
    }

    /// Records the define `group|name`. It takes the place of an earlier
    /// define with the same key; redefining it from a file that does not
    /// override the earlier one's file, with a different value, is warned
    /// about.
    pub fn load_item(&mut self, group: Token, name: Token, bv: &BV, errors: &mut Errors, map: &MacroMap)
        requires
            old(errors).wf(),
            map.wf(),
        ensures
            final(errors).wf(),
            ({
                let key = define_key(group.s@, name.s@);
                let s = old(self).entries();
                let i = find_define(s, key);
                let t = final(self).entries();
                &&& spec_loaded(s, t, group, name, *bv)
                &&& keys_of(t) == keys_add(keys_of(s), key)
                &&& final(errors).store() == (if i >= 0 && !kind_lt(s[i].1.name.loc.kind, name.loc.kind) && !bv_equiv(*bv, s[i].1.bv) {
                    spec_log(*old(errors), map.locs@, dup_report("define"@), dup_pointers(name.loc, s[i].1.name.loc, "define"@))
                } else {
                    old(errors).store()
                })
            }),
    {
        let mut key: Vec<char> = Vec::new();
        push_str(&mut key, group.as_str());
        push_str(&mut key, "|");
        push_str(&mut key, name.as_str());
        let ghost s = self.entries();
        match self.find(&key) {
            Some(i) => {
                let other = &self.defines[i].1;
                if kind_compare(other.name.loc.kind, name.loc.kind) != -1 && !bv.equivalent(&other.bv) {
                    dup_error(&name, &other.name, "define", errors, map);
                }
                self.defines.set(i, (key, Define::new(group, name, bv.duplicate())));
                proof {
                    lemma_find_define(s, key@);
                    assert(keys_of(s).contains(key@)) by {
                        assert(keys_of(s)[i as int] == key@);
                    }
                    assert(keys_of(self.entries()) =~= keys_of(s));
                }
            },
            None => {
                self.defines.push((key, Define::new(group, name, bv.duplicate())));
                proof {
                    lemma_find_define(s, key@);
                    assert(!keys_of(s).contains(key@)) by {
                        if keys_of(s).contains(key@) {
                            let k = choose|k: int| 0 <= k < keys_of(s).len() && keys_of(s)[k] == key@;
                            assert(s[k].0@ == key@);
                        }
                    }
                    assert(keys_of(self.entries()) =~= keys_of(s).push(key@));
                }
            },
        }
    }

    /// Whether a define with key `key` (`group|name`) exists.
    pub fn key_exists(&self, key: &str) -> (res: bool)
        ensures
            res == (find_define(self.entries(), key@) >= 0),
    {
        self.find(&to_chars(key)).is_some()
    }

    /// All defines, in the order they are stored.
    pub fn all(&self) -> (res: Vec<&Define>)
        ensures
            res@.len() == self.entries().len(),
            forall|k: int| 0 <= k < res@.len() ==> *(#[trigger] res@[k]) == self.entries()[k].1,
    {
        let mut res: Vec<&Define> = Vec::new();
        let mut i: usize = 0;
        while i < self.defines.len()
            invariant
                i <= self.defines@.len(),
                res@.len() == i,
                forall|k: int| 0 <= k < i ==> *(#[trigger] res@[k]) == self.entries()[k].1,
            decreases self.defines.len() - i,
        {
            res.push(&self.defines[i].1);
            i += 1;
        }
        res
    }

    /// The names of all defines, in the order they are stored.
    pub fn iter_keys(&self) -> (res: Vec<&Token>)
        ensures
            res@.len() == self.entries().len(),
            forall|k: int| 0 <= k < res@.len() ==> *(#[trigger] res@[k]) == self.entries()[k].1.name,
    {
        let mut res: Vec<&Token> = Vec::new();
        let mut i: usize = 0;
        while i < self.defines.len()
            invariant
                i <= self.defines@.len(),
                res@.len() == i,
                forall|k: int| 0 <= k < i ==> *(#[trigger] res@[k]) == self.entries()[k].1.name,
            decreases self.defines.len() - i,
        {
            res.push(&self.defines[i].1.name);
            i += 1;
        }
        res
    }

    /// The value of the define with key `key`, if it exists.
    pub fn get_bv(&self, key: &str) -> (res: Option<&BV>)
        ensures
            match res {
                Some(bv) => find_define(self.entries(), key@) >= 0
                    && *bv == self.entries()[find_define(self.entries(), key@)].1.bv,
                None => find_define(self.entries(), key@) == -1,
            },
    {
        match self.find(&to_chars(key)) {
            Some(i) => Some(&self.defines[i].1.bv),
            None => None,
        }
    }

    /// Checks every define against the game's known defines; returns, for
    /// each define in order, the kind of value the game expects for it.
    pub fn validate(&self, known: &Vec<(String, DefineType)>, errors: &mut Errors, map: &MacroMap) -> (res: Vec<Option<DefineType>>)
        requires
            old(errors).wf(),
            map.wf(),
        ensures
            final(errors).wf(),
            res@.len() == self.entries().len(),
            forall|k: int| 0 <= k < res@.len() ==> #[trigger] res@[k] == ({
                let i = crate::text::first_index_of(known_keys(known@), define_key(self.entries()[k].1.group.s@, self.entries()[k].1.name.s@));
                if i >= 0 { Some(known@[i].1) } else { None }
            }),
    {
        let mut res: Vec<Option<DefineType>> = Vec::new();
        let mut i: usize = 0;
        while i < self.defines.len()
            invariant
                i <= self.defines@.len(),
                errors.wf(),
                map.wf(),
                res@.len() == i,
                forall|k: int| 0 <= k < i ==> #[trigger] res@[k] == ({
                    let j = crate::text::first_index_of(known_keys(known@), define_key(self.entries()[k].1.group.s@, self.entries()[k].1.name.s@));
                    if j >= 0 { Some(known@[j].1) } else { None }
                }),
            decreases self.defines.len() - i,
        {
            let t = self.defines[i].1.validate(known, errors, map);
            res.push(t);
            i += 1;
        }
        res
    }

    /// Loads the defines of one file: each `group = { name = value ... }`, in
    /// order (see [`Defines::load_item`]).
    pub fn handle_file(&mut self, block: Block, errors: &mut Errors, map: &MacroMap)
        requires
            old(errors).wf(),
            map.wf(),
        ensures
            final(errors).wf(),
            keys_of(final(self).entries()) == keys_add_all(keys_of(old(self).entries()), file_keys(block.items@)),
    {
        let ghost k0 = keys_of(self.entries());
        let mut i: usize = 0;
        while i < block.items.len()
            invariant
                i <= block.items@.len(),
                errors.wf(),
                map.wf(),
                keys_of(self.entries()) == keys_add_all(k0, file_keys(block.items@.take(i as int))),
            decreases block.items.len() - i,
        {
            let ghost items = block.items@.take(i + 1);
            assert(items.drop_last() == block.items@.take(i as int));
            assert(items.last() == block.items@[i as int]);
            if let BlockItem::Field(group, BV::Block(inner)) = &block.items[i] {
                let ghost kb = keys_of(self.entries());
                let mut j: usize = 0;
                while j < inner.items.len()
                    invariant
                        j <= inner.items@.len(),
                        errors.wf(),
                        map.wf(),
                        keys_of(self.entries()) == keys_add_all(kb, group_keys(*group, inner.items@.take(j as int))),
                    decreases inner.items.len() - j,
                {
                    let ghost gi = inner.items@.take(j + 1);
                    assert(gi.drop_last() == inner.items@.take(j as int));
                    assert(gi.last() == inner.items@[j as int]);
                    if let BlockItem::Field(name, bv) = &inner.items[j] {
                        self.load_item(group.duplicate(), name.duplicate(), bv, errors, map);
                        proof {
                            lemma_keys_add_all_push(kb, group_keys(*group, inner.items@.take(j as int)), define_key(group.s@, name.s@));
                            assert(group_keys(*group, gi) == group_keys(*group, inner.items@.take(j as int)).push(define_key(group.s@, name.s@)));
                        }
                    } else {
                        assert(group_keys(*group, gi) =~= group_keys(*group, inner.items@.take(j as int)));
                    }
                    j += 1;
                }
                assert(inner.items@.take(inner.items@.len() as int) == inner.items@);
                proof {
                    lemma_keys_add_all_concat(k0, file_keys(block.items@.take(i as int)), group_keys(*group, inner.items@));
                }
            } else {
                assert(file_keys(items) =~= file_keys(block.items@.take(i as int)));
            }
            i += 1;
        }
        assert(block.items@.take(block.items@.len() as int) == block.items@);
    }
}

} // verus!
