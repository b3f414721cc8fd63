//! Insertion sort on sequences, as a specification, with its two laws: the
//! result holds the same elements, and no element is less than the one
//! before it.

use vstd::prelude::*;

verus! {

/// The position at which `x` is inserted into `s`: before the first element
/// that `x` is less than, or at the end.
pub open spec fn insert_pos<T>(s: Seq<T>, x: T, lt: spec_fn(T, T) -> bool) -> int
    decreases s.len(),
{
    if s.len() == 0 {
        0
    } else if lt(x, s[0]) {
        0
    } else {
        1 + insert_pos(s.drop_first(), x, lt)
    }
}

/// `s` with `x` inserted at [`insert_pos`].
pub open spec fn sorted_insert<T>(s: Seq<T>, x: T, lt: spec_fn(T, T) -> bool) -> Seq<T> {
    s.insert(insert_pos(s, x, lt), x)
}

/// Inserts the elements of `s` one by one, in order, into an empty sequence.
pub open spec fn insertion_sort<T>(s: Seq<T>, lt: spec_fn(T, T) -> bool) -> Seq<T>
    decreases s.len(),
{
    if s.len() == 0 {
        s
    } else {
        sorted_insert(insertion_sort(s.drop_last(), lt), s.last(), lt)
    }
}

/// No element of `s` is less than the element before it.
pub open spec fn sorted_by<T>(s: Seq<T>, lt: spec_fn(T, T) -> bool) -> bool {
    forall|i: int| 0 <= i < s.len() - 1 ==> !lt(#[trigger] s[i + 1], s[i])
}

/// `lt` never holds both ways.
pub open spec fn asymmetric<T>(lt: spec_fn(T, T) -> bool) -> bool {
    forall|a: T, b: T| #[trigger] lt(a, b) ==> !lt(b, a)
}

pub proof fn lemma_insert_pos<T>(s: Seq<T>, x: T, lt: spec_fn(T, T) -> bool)
    ensures
        0 <= insert_pos(s, x, lt) <= s.len(),
        forall|k: int| 0 <= k < insert_pos(s, x, lt) ==> !lt(x, #[trigger] s[k]),
        insert_pos(s, x, lt) < s.len() ==> lt(x, s[insert_pos(s, x, lt)]),
    decreases s.len(),
{
    if s.len() > 0 && !lt(x, s[0]) {
        lemma_insert_pos(s.drop_first(), x, lt);
        assert forall|k: int| 0 <= k < insert_pos(s, x, lt) implies !lt(x, #[trigger] s[k]) by {
            if k > 0 {
                assert(s[k] == s.drop_first()[k - 1]);
            }
        }
    }
}

/// The insert position is the first element that `x` is less than.
pub proof fn lemma_insert_pos_is<T>(s: Seq<T>, x: T, lt: spec_fn(T, T) -> bool, j: int)
    requires
        0 <= j <= s.len(),
        forall|k: int| 0 <= k < j ==> !lt(x, #[trigger] s[k]),
        j < s.len() ==> lt(x, s[j]),
    ensures
        insert_pos(s, x, lt) == j,
    decreases s.len(),
{
    if s.len() > 0 && j > 0 {
        assert(!lt(x, s[0]));
        assert forall|k: int| 0 <= k < j - 1 implies !lt(x, #[trigger] s.drop_first()[k]) by {
            assert(s.drop_first()[k] == s[k + 1]);
        }
        lemma_insert_pos_is(s.drop_first(), x, lt, j - 1);
    }
}

/// Insertion sort keeps every element, as often as it occurs.
pub proof fn law_insertion_sort_permutes<T>(s: Seq<T>, lt: spec_fn(T, T) -> bool)
    ensures
        insertion_sort(s, lt).to_multiset() == s.to_multiset(),
        insertion_sort(s, lt).len() == s.len(),
    decreases s.len(),
{
    broadcast use vstd::seq_lib::group_to_multiset_ensures;
    if s.len() > 0 {
        let r = insertion_sort(s.drop_last(), lt);
        law_insertion_sort_permutes(s.drop_last(), lt);
        lemma_insert_pos(r, s.last(), lt);
        vstd::seq_lib::to_multiset_insert(r, insert_pos(r, s.last(), lt), s.last());
        assert(s == s.drop_last().push(s.last()));
        vstd::seq_lib::to_multiset_build(s.drop_last(), s.last());
    }
}

/// Inserting into a sorted sequence keeps it sorted.
pub proof fn lemma_sorted_insert<T>(s: Seq<T>, x: T, lt: spec_fn(T, T) -> bool)
    requires
        asymmetric(lt),
        sorted_by(s, lt),
    ensures
        sorted_by(sorted_insert(s, x, lt), lt),
{
    let p = insert_pos(s, x, lt);
    lemma_insert_pos(s, x, lt);
    let r = sorted_insert(s, x, lt);
    s.insert_ensures(p, x);
    assert forall|i: int| 0 <= i < r.len() - 1 implies !lt(#[trigger] r[i + 1], r[i]) by {
        if i + 1 < p {
            assert(r[i] == s[i] && r[i + 1] == s[i + 1]);
        } else if i + 1 == p {
            assert(r[i] == s[i] && r[i + 1] == x);
        } else if i == p {
            assert(r[i] == x && r[i + 1] == s[p]);
            assert(lt(x, s[p]));
        } else {
            assert(r[i] == s[i - 1] && r[i + 1] == s[i]);
        }
    }
}

/// When `lt` is asymmetric, insertion sort leaves no element less than the
/// one before it.
pub proof fn law_insertion_sort_sorted<T>(s: Seq<T>, lt: spec_fn(T, T) -> bool)
    requires
        asymmetric(lt),
    ensures
        sorted_by(insertion_sort(s, lt), lt),
    decreases s.len(),
{
    if s.len() > 0 {
        law_insertion_sort_sorted(s.drop_last(), lt);
        lemma_sorted_insert(insertion_sort(s.drop_last(), lt), s.last(), lt);
    }
}

} // verus!
