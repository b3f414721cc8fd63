//! The database of game items defined by script files.

use vstd::prelude::*;

use crate::block::{block_equiv, Block};
use crate::fileset::{kind_compare, kind_lt, FileKind};
use crate::item::Item;
use crate::report::errors::{spec_log, Errors, MacroMap};
use crate::report::{ptrs_view, warn, ErrorKey, MetadataV, PointedMessageV, Severity, Confidence, LogReportStyle};
use crate::text::{chars_eq, from_chars, push_str};
use crate::text::to_chars;
use crate::token::{Loc, Token};
use crate::vic3::data::DbItemKind;

verus! {

/// One item definition: its type, its key, its block and what kind of item
/// it is.
#[derive(Debug)]
pub struct DbEntry {
    pub item: Item,
    pub key: Token,
    pub block: Block,
    pub kind: DbItemKind,
}

/// The plain-value form of a database entry.
pub struct DbEntryV {
    pub item: Item,
    pub key: Seq<char>,
    pub loc: Loc,
    pub block: Block,
    pub kind: DbItemKind,
}

impl View for DbEntry {
    type V = DbEntryV;

    open spec fn view(&self) -> DbEntryV {
        DbEntryV { item: self.item, key: self.key.s@, loc: self.key.loc, block: self.block, kind: self.kind }
    }
}

/// The item definitions, at most one per item type and key.
#[derive(Debug)]
pub struct Db {
    pub entries: Vec<DbEntry>,
}

pub open spec fn db_view(s: Seq<DbEntry>) -> Seq<DbEntryV> {
    s.map_values(|e: DbEntry| e@)
}

/// The index of the entry of type `item` with key `key`, or -1.
pub open spec fn find_entry(s: Seq<DbEntryV>, item: Item, key: Seq<char>) -> int
    decreases s.len(),
{
    if s.len() == 0 {
        -1
    } else if s.last().item == item && s.last().key == key {
        s.len() - 1
    } else {
        find_entry(s.drop_last(), item, key)
    }
}

pub proof fn lemma_find_entry(s: Seq<DbEntryV>, item: Item, key: Seq<char>)
    ensures
        -1 <= find_entry(s, item, key) < s.len(),
        find_entry(s, item, key) >= 0 ==> s[find_entry(s, item, key)].item == item && s[find_entry(s, item, key)].key == key,
        find_entry(s, item, key) == -1 ==> forall|k: int| 0 <= k < s.len() ==> !((#[trigger] s[k]).item == item && s[k].key == key),
    decreases s.len(),
{
    if s.len() > 0 {
        lemma_find_entry(s.drop_last(), item, key);
        if find_entry(s, item, key) == -1 {
            assert forall|k: int| 0 <= k < s.len() implies !((#[trigger] s[k]).item == item && s[k].key == key) by {
                if k < s.len() - 1 {
                    assert(s[k] == s.drop_last()[k]);
                }
            }
        }
    }
}

/// The warning that a definition of kind `id` redefines an earlier one.
pub open spec fn dup_report(id: Seq<char>) -> MetadataV {
    MetadataV {
        key: ErrorKey::DuplicateItem,
        severity: Severity::Warning,
        confidence: Confidence::Reasonable,
        msg: id + " is redefined by another "@ + id,
        info: None,
        wiki: None,
        style: LogReportStyle::Full,
    }
}

/// The new definition, then the earlier one.
pub open spec fn dup_pointers(key: Loc, other: Loc, id: Seq<char>) -> Seq<PointedMessageV> {
    seq![
        PointedMessageV { loc: key, length: 1, msg: None },
        PointedMessageV { loc: other, length: 1, msg: Some("the other "@ + id + " is here"@) },
    ]
}

/// Warns that `key`, a definition of kind `id`, redefines the earlier
/// definition `other`.
pub fn dup_error(key: &Token, other: &Token, id: &str, errors: &mut Errors, map: &MacroMap)
    requires
        old(errors).wf(),
        map.wf(),
    ensures
        final(errors).wf(),
        final(errors).store() == spec_log(*old(errors), map.locs@, dup_report(id@), dup_pointers(key.loc, other.loc, id@)),
{
    let mut msg: Vec<char> = Vec::new();
    push_str(&mut msg, id);
    push_str(&mut msg, " is redefined by another ");
    push_str(&mut msg, id);
    let mut other_msg: Vec<char> = Vec::new();
    push_str(&mut other_msg, "the other ");
    push_str(&mut other_msg, id);
    push_str(&mut other_msg, " is here");
    let b = warn(ErrorKey::DuplicateItem).msg(from_chars(&msg)).loc(key.loc).loc_msg(other.loc, from_chars(&other_msg));
    assert(msg@ =~= id@ + " is redefined by another "@ + id@);
    assert(other_msg@ =~= "the other "@ + id@ + " is here"@);
    assert(ptrs_view(b.pointers@) =~= dup_pointers(key.loc, other.loc, id@));
    assert(b.pointers@.len() == ptrs_view(b.pointers@).len());
    b.push(errors, map);
}

/// Whether a new definition at `new` warns about an earlier one at `old`: it
/// does unless the new one comes from a file that overrides the old one's.
pub open spec fn redefines_badly(old: FileKind, new: FileKind) -> bool {
    !kind_lt(old, new)
}

/// The database after adding a definition: it takes the place of an earlier
/// definition with the same type and key, or is added at the end.
pub open spec fn spec_db_insert(s: Seq<DbEntryV>, e: DbEntryV) -> Seq<DbEntryV> {
    let i = find_entry(s, e.item, e.key);
    if i >= 0 {
        s.update(i, e)
    } else {
        s.push(e)
    }
}

/// The reports after adding `e` to a database holding `s`: a warning that it
/// redefines an earlier entry of the same type and key, unless the new one's
/// file overrides the earlier one's, or (with `exact_dup_ok`) the two blocks
/// are the same.
pub open spec fn spec_add_store(
    s: Seq<DbEntryV>,
    errors: Errors,
    map: Seq<Loc>,
    e: DbEntryV,
    exact_dup_ok: bool,
) -> Seq<(MetadataV, Seq<Seq<PointedMessageV>>)> {
    let i = find_entry(s, e.item, e.key);
    if i >= 0 && redefines_badly(s[i].loc.kind, e.loc.kind) && !(exact_dup_ok && block_equiv(e.block, s[i].block)) {
        spec_log(errors, map, dup_report("item"@), dup_pointers(e.loc, s[i].loc, "item"@))
    } else {
        errors.store()
    }
}

proof fn lemma_find_entry_is(s: Seq<DbEntryV>, item: Item, key: Seq<char>, j: int)
    requires
        0 <= j < s.len(),
        s[j].item == item && s[j].key == key,
        forall|k: int| j < k < s.len() ==> !(s[k].item == item && s[k].key == key),
    ensures
        find_entry(s, item, key) == j,
    decreases s.len(),
{
    if j < s.len() - 1 {
        assert forall|k: int| j < k < s.drop_last().len() implies !(s.drop_last()[k].item == item && s.drop_last()[k].key == key) by {
            assert(s.drop_last()[k] == s[k]);
        }
        lemma_find_entry_is(s.drop_last(), item, key, j);
    }
}

proof fn lemma_find_entry_after(s: Seq<DbEntryV>, item: Item, key: Seq<char>, k: int)
    requires
        0 <= k < s.len(),
        s[k].item == item && s[k].key == key,
    ensures
        find_entry(s, item, key) >= k,
    decreases s.len(),
{
    if k < s.len() - 1 {
        assert(s.drop_last()[k] == s[k]);
        lemma_find_entry_after(s.drop_last(), item, key, k);
    }
}

/// What an added item is read back as: looking up its type and key
/// afterwards finds exactly the entry added.
pub proof fn law_db_find_after_insert(s: Seq<DbEntryV>, e: DbEntryV)
    ensures
        ({
            let t = spec_db_insert(s, e);
            let i = find_entry(t, e.item, e.key);
            0 <= i < t.len() && t[i] == e
        }),
{
    let t = spec_db_insert(s, e);
    let i = find_entry(s, e.item, e.key);
    lemma_find_entry(s, e.item, e.key);
    if i >= 0 {
        assert forall|k: int| i < k < t.len() implies !(t[k].item == e.item && t[k].key == e.key) by {
            assert(t[k] == s[k]);
            if s[k].item == e.item && s[k].key == e.key {
                lemma_find_entry_after(s, e.item, e.key, k);
            }
        }
        lemma_find_entry_is(t, e.item, e.key, i);
    } else {
        lemma_find_entry_is(t, e.item, e.key, s.len() as int);
    }
}

/// No two entries have the same type and key.
pub open spec fn unique_entries(s: Seq<DbEntryV>) -> bool {
    forall|a: int, b: int| 0 <= a < b < s.len() ==> !((#[trigger] s[a]).item == (#[trigger] s[b]).item && s[a].key == s[b].key)
}

/// Adding an item keeps at most one entry per type and key: a second
/// definition takes the place of the first.
pub proof fn law_db_insert_unique(s: Seq<DbEntryV>, e: DbEntryV)
    requires
        unique_entries(s),
    ensures
        unique_entries(spec_db_insert(s, e)),
{
    let t = spec_db_insert(s, e);
    let i = find_entry(s, e.item, e.key);
    lemma_find_entry(s, e.item, e.key);
    assert forall|a: int, b: int| 0 <= a < b < t.len() implies !((#[trigger] t[a]).item == (#[trigger] t[b]).item && t[a].key == t[b].key) by {
        if i >= 0 {
            if a == i {
                assert(t[b] == s[b]);
                assert(s[i].item == e.item && s[i].key == e.key);
            } else if b == i {
                assert(t[a] == s[a]);
                assert(s[i].item == e.item && s[i].key == e.key);
            } else {
                assert(t[a] == s[a] && t[b] == s[b]);
            }
        } else if b == s.len() {
            assert(t[a] == s[a]);
        } else {
            assert(t[a] == s[a] && t[b] == s[b]);
        }
    }
}

impl Db {
    pub open spec fn view_entries(&self) -> Seq<DbEntryV> {
        db_view(self.entries@)
    }

    pub fn new() -> (res: Db)
        ensures
            res.view_entries().len() == 0,
    {
        let res = Db { entries: Vec::new() };
        assert(res.view_entries() =~= Seq::<DbEntryV>::empty());
        res
    }

    fn find(&self, item: Item, key: &str) -> (res: Option<usize>)
        ensures
            match res {
                Some(i) => find_entry(self.view_entries(), item, key@) == i as int && (i as int) < self.entries@.len(),
                None => find_entry(self.view_entries(), item, key@) == -1,
            },
    {
        let k = to_chars(key);
        let ghost s = self.view_entries();
        let mut i = self.entries.len();
        assert(s.take(i as int) =~= s);
        while i > 0
            invariant
                i <= self.entries@.len(),
                s == self.view_entries(),
                k@ == key@,
                find_entry(s, item, key@) == find_entry(s.take(i as int), item, key@),
            decreases i,
        {
            assert(s.take(i as int).drop_last() == s.take(i - 1));
            assert(s.take(i as int).last() == s[i - 1]);
            let e = &self.entries[i - 1];
            if e.item == item && chars_eq(&to_chars(e.key.as_str()), &k) {
                return Some(i - 1);
            }
            i -= 1;
        }
        None
    }

    /// Whether an item of this type with this name is defined.
    pub fn item_exists(&self, item: Item, key: &str) -> (res: bool)
        ensures
            res == (find_entry(self.view_entries(), item, key@) >= 0),
    {
        self.find(item, key).is_some()
    }

    /// Adds an item definition. Redefining an item from a file that does not
    /// override the earlier definition's file is warned about.
    pub fn add(&mut self, item: Item, key: Token, block: Block, kind: DbItemKind, errors: &mut Errors, map: &MacroMap)
        requires
            old(errors).wf(),
            map.wf(),
        ensures
            final(errors).wf(),
            final(self).view_entries() == spec_db_insert(
                old(self).view_entries(),
                DbEntryV { item, key: key.s@, loc: key.loc, block, kind },
            ),
            ({
                let i = find_entry(old(self).view_entries(), item, key.s@);
                final(errors).store() == (if i >= 0 && redefines_badly(old(self).view_entries()[i].loc.kind, key.loc.kind) {
                    spec_log(*old(errors), map.locs@, dup_report("item"@), dup_pointers(key.loc, old(self).view_entries()[i].loc, "item"@))
                } else {
                    old(errors).store()
                })
            }),
    {
        self.insert(item, key, block, kind, false, errors, map)
    }

    /// Like [`Db::add`], but redefining an item with an equivalent block is
    /// not warned about.
    pub fn add_exact_dup_ok(
        &mut self,
        item: Item,
        key: Token,
        block: Block,
        kind: DbItemKind,
        errors: &mut Errors,
        map: &MacroMap,
    )
        requires
            old(errors).wf(),
            map.wf(),
        ensures
            final(errors).wf(),
            final(self).view_entries() == spec_db_insert(
                old(self).view_entries(),
                DbEntryV { item, key: key.s@, loc: key.loc, block, kind },
            ),
            ({
                let i = find_entry(old(self).view_entries(), item, key.s@);
                final(errors).store() == (if i >= 0 && redefines_badly(old(self).view_entries()[i].loc.kind, key.loc.kind)
                    && !block_equiv(block, old(self).view_entries()[i].block) {
                    spec_log(*old(errors), map.locs@, dup_report("item"@), dup_pointers(key.loc, old(self).view_entries()[i].loc, "item"@))
                } else {
                    old(errors).store()
                })
            }),
    {
        self.insert(item, key, block, kind, true, errors, map)
    }

    fn insert(
        &mut self,
        item: Item,
        key: Token,
        block: Block,
        kind: DbItemKind,
        exact_dup_ok: bool,
        errors: &mut Errors,
        map: &MacroMap,
    )
        requires
            old(errors).wf(),
            map.wf(),
        ensures
            final(errors).wf(),
            final(self).view_entries() == spec_db_insert(
                old(self).view_entries(),
                DbEntryV { item, key: key.s@, loc: key.loc, block, kind },
            ),
            ({
                let i = find_entry(old(self).view_entries(), item, key.s@);
                final(errors).store() == (if i >= 0 && redefines_badly(old(self).view_entries()[i].loc.kind, key.loc.kind)
                    && !(exact_dup_ok && block_equiv(block, old(self).view_entries()[i].block)) {
                    spec_log(*old(errors), map.locs@, dup_report("item"@), dup_pointers(key.loc, old(self).view_entries()[i].loc, "item"@))
                } else {
                    old(errors).store()
                })
            }),
    {
        let ghost s = self.view_entries();
        let ghost ev = DbEntryV { item, key: key.s@, loc: key.loc, block, kind };
        match self.find(item, key.as_str()) {
            Some(i) => {
                let other = &self.entries[i];
                assert(s[i as int] == other@);
                if kind_compare(other.key.loc.kind, key.loc.kind) != -1 {
                    if !(exact_dup_ok && block.equivalent(&other.block)) {
                        dup_error(&key, &other.key, "item", errors, map);
                    }
                }
                let e = DbEntry { item, key, block, kind };
                assert(e@ == ev);
                self.entries.set(i, e);
                assert(self.view_entries() =~= s.update(i as int, ev));
            }
            None => {
                let e = DbEntry { item, key, block, kind };
                self.entries.push(e);
                assert(self.view_entries() =~= s.push(ev));
            }
        }
    }

    /// Whether the item of this type with this name is defined and has the
    /// property.
    pub fn item_has_property(&self, item: Item, key: &str, property: &str) -> (res: bool)
        ensures
            res == ({
                let i = find_entry(self.view_entries(), item, key@);
                i >= 0 && self.view_entries()[i].kind.spec_has_property(self.view_entries()[i].block, property@)
            }),
    {
        match self.find(item, key) {
            Some(i) => {
                assert(self.view_entries()[i as int] == self.entries@[i as int]@);
                self.entries[i].kind.has_property(&self.entries[i].block, property)
            },
            None => false,
        }
    }

    /// The block of the item of this type with this name, if it is defined.
    pub fn get_block(&self, item: Item, key: &str) -> (res: Option<&Block>)
        ensures
            match res {
                Some(b) => find_entry(self.view_entries(), item, key@) >= 0
                    && *b == self.view_entries()[find_entry(self.view_entries(), item, key@)].block,
                None => find_entry(self.view_entries(), item, key@) == -1,
            },
    {
        match self.find(item, key) {
            Some(i) => Some(&self.entries[i].block),
            None => None,
        }
    }
}

} // verus!
