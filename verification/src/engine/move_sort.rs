//! A stable sort of scored items from the highest score to the lowest, as
//! the engine orders moves: items with equal scores keep their order.
use vstd::prelude::*;

verus! {

/// Where an item with score `key` goes in a list sorted from high to low:
/// after every item that scores at least as much.
pub open spec fn insert_pos<T>(s: Seq<(T, i32)>, key: i32) -> int
    decreases s.len(),
{
    if s.len() == 0 {
        0
    } else if s[0].1 < key {
        0
    } else {
        1 + insert_pos(s.drop_first(), key)
    }
}

/// The list with the item put in its place.
pub open spec fn insert_desc<T>(s: Seq<(T, i32)>, x: (T, i32)) -> Seq<(T, i32)> {
    let p = insert_pos(s, x.1);
    s.take(p) + seq![x] + s.skip(p)
}

/// The stable sort from the highest score to the lowest: each item in turn
/// goes after those already placed that score at least as much.
pub open spec fn sort_desc<T>(s: Seq<(T, i32)>) -> Seq<(T, i32)>
    decreases s.len(),
{
    if s.len() == 0 {
        s
    } else {
        insert_desc(sort_desc(s.drop_last()), s.last())
    }
}

/// Whether the scores never rise along the list.
pub open spec fn sorted_desc<T>(s: Seq<(T, i32)>) -> bool {
    forall|i: int, j: int| 0 <= i < j < s.len() ==> s[i].1 >= s[j].1
}

proof fn lemma_insert_pos<T>(s: Seq<(T, i32)>, key: i32)
    ensures
        0 <= insert_pos(s, key) <= s.len(),
        forall|i: int| 0 <= i < insert_pos(s, key) ==> s[i].1 >= key,
        insert_pos(s, key) < s.len() ==> s[insert_pos(s, key)].1 < key,
    decreases s.len(),
{
    if s.len() > 0 && s[0].1 >= key {
        lemma_insert_pos(s.drop_first(), key);
        assert forall|i: int| 0 <= i < insert_pos(s, key) implies s[i].1 >= key by {
            if i > 0 {
                assert(s[i] == s.drop_first()[i - 1]);
            }
        }
    }
}

proof fn lemma_insert_desc_sorted<T>(s: Seq<(T, i32)>, x: (T, i32))
    requires
        sorted_desc(s),
    ensures
        sorted_desc(insert_desc(s, x)),
        insert_desc(s, x).len() == s.len() + 1,
{
    lemma_insert_pos(s, x.1);
    let p = insert_pos(s, x.1);
    let r = insert_desc(s, x);
    assert(r.len() == s.len() + 1);
    assert forall|i: int, j: int| 0 <= i < j < r.len() implies r[i].1 >= r[j].1 by {
        if i < p {
            assert(r[i] == s[i]);
        } else if i == p {
            assert(r[i] == x);
        } else {
            assert(r[i] == s[i - 1]);
        }
        if j < p {
            assert(r[j] == s[j]);
        } else if j == p {
            assert(r[j] == x);
        } else {
            assert(r[j] == s[j - 1]);
            if i <= p && p < s.len() {
                assert(s[p].1 >= s[j - 1].1);
            }
        }
    }
}

/// The sort leaves the items sorted from the highest score to the lowest.
pub proof fn lemma_sort_desc_sorted<T>(s: Seq<(T, i32)>)
    ensures
        sorted_desc(sort_desc(s)),
        sort_desc(s).len() == s.len(),
    decreases s.len(),
{
    if s.len() > 0 {
        lemma_sort_desc_sorted(s.drop_last());
        lemma_insert_desc_sorted(sort_desc(s.drop_last()), s.last());
    }
}

/// The sort keeps every item, as many times as it occurs.
pub proof fn lemma_sort_desc_permutation<T>(s: Seq<(T, i32)>)
    ensures
        sort_desc(s).to_multiset() =~= s.to_multiset(),
    decreases s.len(),
{
    broadcast use vstd::seq_lib::group_to_multiset_ensures;

    if s.len() > 0 {
        lemma_sort_desc_permutation(s.drop_last());
        let t = sort_desc(s.drop_last());
        let x = s.last();
        lemma_insert_pos(t, x.1);
        let p = insert_pos(t, x.1);
        vstd::seq_lib::lemma_multiset_commutative(t.take(p) + seq![x], t.skip(p));
        vstd::seq_lib::lemma_multiset_commutative(t.take(p), seq![x]);
        vstd::seq_lib::lemma_multiset_commutative(t.take(p), t.skip(p));
        assert(t.take(p) + t.skip(p) =~= t);
        assert(s.drop_last().push(x) =~= s);
    }
}

/// Every item of the sorted list is an item of the list.
pub proof fn lemma_sort_desc_elements<T>(s: Seq<(T, i32)>)
    ensures
        forall|i: int| 0 <= i < sort_desc(s).len() ==> s.contains(#[trigger] sort_desc(s)[i]),
{
    broadcast use vstd::seq_lib::group_to_multiset_ensures;

    lemma_sort_desc_permutation(s);
    lemma_sort_desc_sorted(s);
    assert forall|i: int| 0 <= i < sort_desc(s).len() implies s.contains(#[trigger] sort_desc(s)[i]) by {
        assert(sort_desc(s).contains(sort_desc(s)[i]));
        assert(sort_desc(s).to_multiset().count(sort_desc(s)[i]) > 0);
    }
}

/// Sorts scored items from the highest score to the lowest, keeping the
/// order of items with equal scores.
pub fn sort_by_score_desc<T: Copy>(v: &Vec<(T, i32)>) -> (r: Vec<(T, i32)>)
    ensures
        r@ == sort_desc(v@),
{
    let mut out: Vec<(T, i32)> = Vec::new();
    let mut i: usize = 0;
    while i < v.len()
        invariant
            i <= v.len(),
            out@ == sort_desc(v@.take(i as int)),
        decreases v.len() - i,
    {
        let x = v[i];
        let mut p: usize = 0;
        assert(out@.skip(0) =~= out@);
        while p < out.len() && !(out[p].1 < x.1)
            invariant
                p <= out.len(),
                insert_pos(out@, x.1) == p + insert_pos(out@.skip(p as int), x.1),
            decreases out.len() - p,
        {
            assert(out@.skip(p as int).drop_first() =~= out@.skip(p + 1));
            p = p + 1;
        }
        assert(insert_pos(out@, x.1) == p);
        let ghost before = out@;
        out.insert(p, x);
        assert(out@ =~= insert_desc(before, x));
        assert(v@.take(i + 1).drop_last() =~= v@.take(i as int));
        i = i + 1;
    }
    assert(v@.take(v.len() as int) =~= v@);
    out
}

} // verus!
