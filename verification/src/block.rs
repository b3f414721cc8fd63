//! Script blocks: the `{ ... }` structures of script files.

use vstd::prelude::*;

use crate::token::Token;

verus! {

/// A value or a block.
#[derive(Debug)]
pub enum BV {
    Value(Token),
    Block(Block),
}

/// One item of a block: a field `key = value`, a bare value, or a bare block.
#[derive(Debug)]
pub enum BlockItem {
    Field(Token, BV),
    Value(Token),
    Block(Block),
}

/// A block of items.
#[derive(Debug)]
pub struct Block {
    pub items: Vec<BlockItem>,
    pub loc: crate::token::Loc,
}

/// `a` and `b` are the same block: same items, tokens and locations.
pub open spec fn block_same(a: Block, b: Block) -> bool
    decreases a,
{
    a.loc == b.loc && a.items@.len() == b.items@.len() && forall|i: int| 0 <= i < a.items@.len() ==> item_same(#[trigger] a.items@[i], b.items@[i])
}

pub open spec fn bv_same(a: BV, b: BV) -> bool
    decreases a,
{
    match (a, b) {
        (BV::Value(x), BV::Value(y)) => x == y,
        (BV::Block(x), BV::Block(y)) => block_same(x, y),
        _ => false,
    }
}

pub open spec fn item_same(a: BlockItem, b: BlockItem) -> bool
    decreases a,
{
    match (a, b) {
        (BlockItem::Field(k1, v1), BlockItem::Field(k2, v2)) => k1 == k2 && bv_same(v1, v2),
        (BlockItem::Value(x), BlockItem::Value(y)) => x == y,
        (BlockItem::Block(x), BlockItem::Block(y)) => block_same(x, y),
        _ => false,
    }
}

pub open spec fn bv_equiv(a: BV, b: BV) -> bool
    decreases a,
{
    match (a, b) {
        (BV::Value(x), BV::Value(y)) => x.s@ == y.s@,
        (BV::Block(x), BV::Block(y)) => block_equiv(x, y),
        _ => false,
    }
}

pub open spec fn block_equiv(a: Block, b: Block) -> bool
    decreases a,
{
    a.items@.len() == b.items@.len() && forall|i: int| 0 <= i < a.items@.len() ==> item_equiv(#[trigger] a.items@[i], b.items@[i])
}

pub open spec fn item_equiv(a: BlockItem, b: BlockItem) -> bool
    decreases a,
{
    match (a, b) {
        (BlockItem::Field(k1, v1), BlockItem::Field(k2, v2)) => k1.s@ == k2.s@ && bv_equiv(v1, v2),
        (BlockItem::Value(x), BlockItem::Value(y)) => x.s@ == y.s@,
        (BlockItem::Block(x), BlockItem::Block(y)) => block_equiv(x, y),
        _ => false,
    }
}

impl BV {
    /// A copy of this value or block.
    pub fn duplicate(&self) -> (res: BV)
        ensures
            bv_same(res, *self),
        decreases self,
    {
        match self {
            BV::Value(t) => BV::Value(t.duplicate()),
            BV::Block(b) => BV::Block(b.duplicate()),
        }
    }

    /// Whether two values or blocks have the same content, locations aside.
    pub fn equivalent(&self, other: &BV) -> (res: bool)
        ensures
            res == bv_equiv(*self, *other),
        decreases self,
    {
        match (self, other) {
            (BV::Value(x), BV::Value(y)) => x.s == y.s,
            (BV::Block(x), BV::Block(y)) => x.equivalent(y),
            _ => false,
        }
    }
}

impl BlockItem {
    /// A copy of this item.
    pub fn duplicate(&self) -> (res: BlockItem)
        ensures
            item_same(res, *self),
        decreases self,
    {
        match self {
            BlockItem::Field(k, v) => BlockItem::Field(k.duplicate(), v.duplicate()),
            BlockItem::Value(t) => BlockItem::Value(t.duplicate()),
            BlockItem::Block(b) => BlockItem::Block(b.duplicate()),
        }
    }

    pub fn equivalent(&self, other: &BlockItem) -> (res: bool)
        ensures
            res == item_equiv(*self, *other),
        decreases self,
    {
        match (self, other) {
            (BlockItem::Field(k1, v1), BlockItem::Field(k2, v2)) => k1.s == k2.s && v1.equivalent(v2),
            (BlockItem::Value(x), BlockItem::Value(y)) => x.s == y.s,
            (BlockItem::Block(x), BlockItem::Block(y)) => x.equivalent(y),
            _ => false,
        }
    }
}

/// The value of the last field `name = value` of a block, if any.
pub open spec fn last_field_value(items: Seq<BlockItem>, name: Seq<char>) -> Option<Token>
    decreases items.len(),
{
    if items.len() == 0 {
        None
    } else {
        match items.last() {
            BlockItem::Field(k, BV::Value(v)) => if k.s@ == name {
                Some(v)
            } else {
                last_field_value(items.drop_last(), name)
            },
            _ => last_field_value(items.drop_last(), name),
        }
    }
}

/// The blocks of the fields `name = { ... }` of a block, in order.
pub open spec fn field_blocks(items: Seq<BlockItem>, name: Seq<char>) -> Seq<Block>
    decreases items.len(),
{
    if items.len() == 0 {
        Seq::empty()
    } else {
        match items.last() {
            BlockItem::Field(k, BV::Block(b)) => if k.s@ == name {
                field_blocks(items.drop_last(), name).push(b)
            } else {
                field_blocks(items.drop_last(), name)
            },
            _ => field_blocks(items.drop_last(), name),
        }
    }
}

impl Block {
    /// The blocks of the fields `name = { ... }`, in order.
    pub fn get_field_blocks(&self, name: &str) -> (res: Vec<&Block>)
        ensures
            res@.len() == field_blocks(self.items@, name@).len(),
            forall|k: int| 0 <= k < res@.len() ==> *(#[trigger] res@[k]) == field_blocks(self.items@, name@)[k],
    {
        let name_chars = crate::text::to_chars(name);
        let mut res: Vec<&Block> = Vec::new();
        let mut i: usize = 0;
        while i < self.items.len()
            invariant
                i <= self.items@.len(),
                name_chars@ == name@,
                res@.len() == field_blocks(self.items@.take(i as int), name@).len(),
                forall|k: int| 0 <= k < res@.len() ==> *(#[trigger] res@[k]) == field_blocks(self.items@.take(i as int), name@)[k],
            decreases self.items.len() - i,
        {
            assert(self.items@.take(i + 1).drop_last() == self.items@.take(i as int));
            assert(self.items@.take(i + 1).last() == self.items@[i as int]);
            match &self.items[i] {
                BlockItem::Field(k, BV::Block(b)) => {
                    if crate::text::chars_eq(&crate::text::to_chars(k.as_str()), &name_chars) {
                        res.push(b);
                    }
                },
                _ => {},
            }
            i += 1;
        }
        assert(self.items@.take(self.items@.len() as int) == self.items@);
        res
    }

    /// A copy of this block.
    pub fn duplicate(&self) -> (res: Block)
        ensures
            block_same(res, *self),
        decreases self,
    {
        let mut items: Vec<BlockItem> = Vec::new();
        let mut i: usize = 0;
        while i < self.items.len()
            invariant
                i <= self.items@.len(),
                items@.len() == i,
                forall|k: int| 0 <= k < i ==> item_same(#[trigger] items@[k], self.items@[k]),
            decreases self.items.len() - i,
        {
            proof {
                assert(decreases_to!(*self => self.items@[i as int]));
            }
            items.push(self.items[i].duplicate());
            i += 1;
        }
        Block { items, loc: self.loc }
    }

    pub fn num_items(&self) -> (res: usize)
        ensures
            res == self.items@.len(),
    {
        self.items.len()
    }

    /// The value of the last field `name = value`, if any.
    pub fn get_field_value(&self, name: &str) -> (res: Option<&Token>)
        ensures
            match res {
                Some(t) => last_field_value(self.items@, name@) == Some(*t),
                None => last_field_value(self.items@, name@) is None,
            },
    {
        let name_chars = crate::text::to_chars(name);
        let mut i = self.items.len();
        assert(self.items@.take(i as int) =~= self.items@);
        while i > 0
            invariant
                i <= self.items@.len(),
                name_chars@ == name@,
                last_field_value(self.items@, name@) == last_field_value(self.items@.take(i as int), name@),
            decreases i,
        {
            assert(self.items@.take(i as int).drop_last() == self.items@.take(i - 1));
            assert(self.items@.take(i as int).last() == self.items@[i - 1]);
            match &self.items[i - 1] {
                BlockItem::Field(k, BV::Value(v)) => {
                    if crate::text::chars_eq(&crate::text::to_chars(k.as_str()), &name_chars) {
                        return Some(v);
                    }
                }
                _ => {}
            }
            i -= 1;
        }
        None
    }

    /// Whether the last field `name = value` has exactly the value `value`.
    pub fn field_value_is(&self, name: &str, value: &str) -> (res: bool)
        ensures
            res == match last_field_value(self.items@, name@) {
                Some(t) => t.s@ == value@,
                None => false,
            },
    {
        match self.get_field_value(name) {
            Some(t) => crate::text::str_eq(t.as_str(), value),
            None => false,
        }
    }

    /// Whether two blocks have the same content, locations aside.
    pub fn equivalent(&self, other: &Block) -> (res: bool)
        ensures
            res == block_equiv(*self, *other),
        decreases self,
    {
        if self.items.len() != other.items.len() {
            return false;
        }
        let mut i: usize = 0;
        while i < self.items.len()
            invariant
                self.items@.len() == other.items@.len(),
                i <= self.items@.len(),
                forall|k: int| 0 <= k < i ==> item_equiv(#[trigger] self.items@[k], other.items@[k]),
            decreases self.items.len() - i,
        {
            proof {
                assert(decreases_to!(*self => self.items@[i as int]));
            }
            if !self.items[i].equivalent(&other.items[i]) {
                return false;
            }
            i += 1;
        }
        true
    }
}

} // verus!
