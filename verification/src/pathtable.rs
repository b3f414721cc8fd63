//! A table for the pathnames used in file entries and locations.
//!
//! A location carries an index into this table instead of a copy of its path.
//! The caller stores the paths in lexical order, so indexes compare like paths.

use vstd::prelude::*;

verus! {

/// An index into a [`PathTable`].
#[derive(Clone, Copy, Debug, PartialEq, Eq, Hash, Structural)]
pub struct PathTableIndex(pub u32);

/// The table of stored paths: pairs of (local path, full path), in the order
/// they were stored.
#[derive(Debug)]
pub struct PathTable {
    paths: Vec<(String, String)>,
}

impl View for PathTable {
    type V = Seq<(Seq<char>, Seq<char>)>;

    closed spec fn view(&self) -> Seq<(Seq<char>, Seq<char>)> {
        self.paths@.map_values(|p: (String, String)| (p.0@, p.1@))
    }
}

impl PathTable {
    /// An empty table.
    pub fn new() -> (res: PathTable)
        ensures
            res@ == Seq::<(Seq<char>, Seq<char>)>::empty(),
    {
        let res = PathTable { paths: Vec::new() };
        assert(res@ =~= Seq::<(Seq<char>, Seq<char>)>::empty());
        res
    }

    /// The number of stored paths.
    pub fn len(&self) -> (res: usize)
        ensures
            res == self@.len(),
    {
        self.paths.len()
    }

    /// Stores a path and returns its index. Indexes are handed out in ascending
    /// order, so a caller that stores sorted paths gets sorted indexes.
    pub fn store(&mut self, local: String, fullpath: String) -> (res: PathTableIndex)
        requires
            old(self)@.len() <= u32::MAX,
        ensures
            res.0 == old(self)@.len(),
            final(self)@ == old(self)@.push((local@, fullpath@)),
    {
        self.store_internal(local, fullpath)
    }

    fn store_internal(&mut self, local: String, fullpath: String) -> (res: PathTableIndex)
        requires
            old(self)@.len() <= u32::MAX,
        ensures
            res.0 == old(self)@.len(),
            final(self)@ == old(self)@.push((local@, fullpath@)),
    {
        let idx = PathTableIndex(self.paths.len() as u32);
        let ghost old_paths = self.paths@;
        self.paths.push((local, fullpath));
        assert(self.paths@.map_values(|p: (String, String)| (p.0@, p.1@)) =~= old_paths.map_values(
            |p: (String, String)| (p.0@, p.1@),
        ).push((local@, fullpath@)));
        idx
    }

    /// The local path stored at `idx`.
    pub fn lookup_path(&self, idx: PathTableIndex) -> (res: &String)
        requires
            (idx.0 as int) < self@.len(),
        ensures
            res@ == self@[idx.0 as int].0,
    {
        &self.paths[idx.0 as usize].0
    }

    /// The full path stored at `idx`.
    pub fn lookup_fullpath(&self, idx: PathTableIndex) -> (res: &String)
        requires
            (idx.0 as int) < self@.len(),
        ensures
            res@ == self@[idx.0 as int].1,
    {
        &self.paths[idx.0 as usize].1
    }

    /// Empties the table, for a new validation run.
    pub fn clear_for_lsp_run(&mut self)
        ensures
            final(self)@ == Seq::<(Seq<char>, Seq<char>)>::empty(),
    {
        self.paths.clear();
        assert(self@ =~= Seq::<(Seq<char>, Seq<char>)>::empty());
    }
}

/// A path that was stored is given back by lookup, under the index that
/// storing returned, and storing leaves every earlier entry as it was.
pub proof fn law_lookup_after_store(
    before: Seq<(Seq<char>, Seq<char>)>,
    local: Seq<char>,
    fullpath: Seq<char>,
    i: int,
)
    requires
        0 <= i <= before.len(),
    ensures
        ({
            let after = before.push((local, fullpath));
            &&& i == before.len() ==> after[i] == (local, fullpath)
            &&& i < before.len() ==> after[i] == before[i]
        }),
{
}

/// A stored path is still given back by lookup however many paths are stored
/// after it.
pub proof fn law_lookup_after_stores(
    before: Seq<(Seq<char>, Seq<char>)>,
    later: Seq<(Seq<char>, Seq<char>)>,
    i: int,
)
    requires
        0 <= i < before.len(),
    ensures
        (before + later)[i] == before[i],
{
}

/// Indexes ascend by one per stored path: storing two paths one after the
/// other gives them the indexes `n` and `n + 1`, where `n` is the number of
/// paths before, and each is read back at its index.
pub proof fn law_store_indexes_ascend(
    t: Seq<(Seq<char>, Seq<char>)>,
    x: (Seq<char>, Seq<char>),
    y: (Seq<char>, Seq<char>),
)
    ensures
        t.push(x).len() == t.len() + 1,
        t.push(x).push(y)[t.len() as int] == x,
        t.push(x).push(y)[t.len() as int + 1] == y,
{
}

} // verus!
