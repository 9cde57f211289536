//! The order of the saved games: newest first, by their date text.
use vstd::prelude::*;
use crate::game::replay::SavedGame;

verus! {

/// Whether text `a` comes before text `b`, character by character (by
/// code point, which for UTF-8 text is the order of its bytes); a proper
/// prefix comes first.
pub open spec fn text_lt(a: Seq<char>, b: Seq<char>) -> bool
    decreases a.len(),
{
    if b.len() == 0 {
        false
    } else if a.len() == 0 {
        true
    } else if a[0] != b[0] {
        (a[0] as u32) < (b[0] as u32)
    } else {
        text_lt(a.drop_first(), b.drop_first())
    }
}

/// The order of texts is transitive.
pub proof fn lemma_text_lt_transitive(a: Seq<char>, b: Seq<char>, c: Seq<char>)
    requires
        text_lt(a, b),
        text_lt(b, c),
    ensures
        text_lt(a, c),
    decreases a.len(),
{
    if a.len() > 0 && b.len() > 0 && c.len() > 0 && a[0] == b[0] && b[0] == c[0] {
        lemma_text_lt_transitive(a.drop_first(), b.drop_first(), c.drop_first());
    }
}

/// No text comes before itself.
pub proof fn lemma_text_lt_irreflexive(a: Seq<char>)
    ensures
        !text_lt(a, a),
    decreases a.len(),
{
    if a.len() > 0 {
        lemma_text_lt_irreflexive(a.drop_first());
    }
}

/// Whether one text comes before another.
pub fn text_less(a: &str, b: &str) -> (r: bool)
    ensures
        r == text_lt(a@, b@),
{
    let x = crate::text::chars_of(a);
    let y = crate::text::chars_of(b);
    let mut i: usize = 0;
    assert(x@.skip(0) =~= x@);
    assert(y@.skip(0) =~= y@);
    while i < x.len() && i < y.len() && x[i] == y[i]
        invariant
            i <= x@.len(),
            i <= y@.len(),
            text_lt(x@, y@) == text_lt(x@.skip(i as int), y@.skip(i as int)),
        decreases x.len() - i,
    {
        assert(x@.skip(i as int).drop_first() =~= x@.skip(i + 1));
        assert(y@.skip(i as int).drop_first() =~= y@.skip(i + 1));
        i = i + 1;
    }
    if i == y.len() {
        false
    } else if i == x.len() {
        true
    } else {
        (x[i] as u32) < (y[i] as u32)
    }
}

/// Where a game goes among games sorted newest first: after every game
/// not older than it.
pub open spec fn newest_pos(s: Seq<SavedGame>, date: Seq<char>) -> int
    decreases s.len(),
{
    if s.len() == 0 {
        0
    } else if text_lt(s[0].date@, date) {
        0
    } else {
        1 + newest_pos(s.drop_first(), date)
    }
}

/// The games with one more put in its place.
pub open spec fn insert_newest(s: Seq<SavedGame>, x: SavedGame) -> Seq<SavedGame> {
    let p = newest_pos(s, x.date@);
    s.take(p) + seq![x] + s.skip(p)
}

/// The games sorted newest first, games of the same date keeping their
/// order.
pub open spec fn sort_newest(s: Seq<SavedGame>) -> Seq<SavedGame>
    decreases s.len(),
{
    if s.len() == 0 {
        s
    } else {
        insert_newest(sort_newest(s.drop_last()), s.last())
    }
}

/// Whether no game is followed by a newer one.
pub open spec fn newest_first(s: Seq<SavedGame>) -> bool {
    forall|i: int, j: int| 0 <= i < j < s.len() ==> !text_lt(s[i].date@, s[j].date@)
}

proof fn lemma_newest_pos(s: Seq<SavedGame>, date: Seq<char>)
    ensures
        0 <= newest_pos(s, date) <= s.len(),
        forall|i: int| 0 <= i < newest_pos(s, date) ==> !text_lt(#[trigger] s[i].date@, date),
        newest_pos(s, date) < s.len() ==> text_lt(s[newest_pos(s, date)].date@, date),
    decreases s.len(),
{
    if s.len() > 0 && !text_lt(s[0].date@, date) {
        lemma_newest_pos(s.drop_first(), date);
        assert forall|i: int| 0 <= i < newest_pos(s, date) implies !text_lt(#[trigger] s[i].date@, date) by {
            if i > 0 {
                assert(s[i] == s.drop_first()[i - 1]);
            }
        }
    }
}

proof fn lemma_insert_newest_sorted(s: Seq<SavedGame>, x: SavedGame)
    requires
        newest_first(s),
    ensures
        newest_first(insert_newest(s, x)),
        insert_newest(s, x).len() == s.len() + 1,
{
    lemma_newest_pos(s, x.date@);
    let p = newest_pos(s, x.date@);
    let r = insert_newest(s, x);
    assert forall|i: int, j: int| 0 <= i < j < r.len() implies !text_lt(r[i].date@, r[j].date@) by {
        if j < p {
            assert(r[i] == s[i] && r[j] == s[j]);
        } else if j == p {
            assert(r[i] == s[i] && r[j] == x);
        } else if i == p {
            assert(r[i] == x && r[j] == s[j - 1]);
            if text_lt(x.date@, s[j - 1].date@) {
                lemma_text_lt_transitive(s[p].date@, x.date@, s[j - 1].date@);
                if j - 1 == p {
                    lemma_text_lt_irreflexive(s[p].date@);
                } else {
                    assert(!text_lt(s[p].date@, s[j - 1].date@));
                }
            }
        } else if i < p {
            assert(r[i] == s[i] && r[j] == s[j - 1]);
        } else {
            assert(r[i] == s[i - 1] && r[j] == s[j - 1]);
        }
    }
}

/// The saved games come out newest first.
pub proof fn lemma_sort_newest_sorted(s: Seq<SavedGame>)
    ensures
        newest_first(sort_newest(s)),
        sort_newest(s).len() == s.len(),
    decreases s.len(),
{
    if s.len() > 0 {
        lemma_sort_newest_sorted(s.drop_last());
        lemma_insert_newest_sorted(sort_newest(s.drop_last()), s.last());
    }
}

/// Sorting keeps every saved game, as many times as it occurs.
pub proof fn lemma_sort_newest_permutation(s: Seq<SavedGame>)
    ensures
        sort_newest(s).to_multiset() =~= s.to_multiset(),
    decreases s.len(),
{
    broadcast use vstd::seq_lib::group_to_multiset_ensures;

    if s.len() > 0 {
        lemma_sort_newest_permutation(s.drop_last());
        let t = sort_newest(s.drop_last());
        let x = s.last();
        lemma_newest_pos(t, x.date@);
        let p = newest_pos(t, x.date@);
        vstd::seq_lib::lemma_multiset_commutative(t.take(p) + seq![x], t.skip(p));
        vstd::seq_lib::lemma_multiset_commutative(t.take(p), seq![x]);
        vstd::seq_lib::lemma_multiset_commutative(t.take(p), t.skip(p));
        assert(t.take(p) + t.skip(p) =~= t);
        assert(s.drop_last().push(x) =~= s);
    }
}

fn insert_newest_exec(out: &mut Vec<SavedGame>, x: SavedGame)
    ensures
        final(out)@ == insert_newest(old(out)@, x),
{
    let mut p: usize = 0;
    assert(out@.skip(0) =~= out@);
    while p < out.len() && !text_less(out[p].date.as_str(), x.date.as_str())
        invariant
            p <= out.len(),
            out@ == old(out)@,
            newest_pos(out@, x.date@) == p + newest_pos(out@.skip(p as int), x.date@),
        decreases out.len() - p,
    {
        assert(out@.skip(p as int).drop_first() =~= out@.skip(p + 1));
        p = p + 1;
    }
    assert(newest_pos(out@, x.date@) == p);
    out.insert(p, x);
    assert(out@ =~= insert_newest(old(out)@, x));
}

/// Orders saved games newest first (by date text, descending), games of
/// the same date keeping their order.
pub fn sort_newest_first(replays: Vec<SavedGame>) -> (r: Vec<SavedGame>)
    ensures
        r@ == sort_newest(replays@),
{
    let ghost all = replays@;
    let total = replays.len();
    let mut rest = replays;
    let mut out: Vec<SavedGame> = Vec::new();
    let mut i: usize = 0;
    assert(all.skip(0) =~= all);
    while rest.len() > 0
        invariant
            total == all.len(),
            i + rest@.len() == all.len(),
            rest@ == all.skip(i as int),
            out@ == sort_newest(all.take(i as int)),
        decreases rest.len(),
    {
        let x = rest.remove(0);
        assert(x == all[i as int]);
        insert_newest_exec(&mut out, x);
        assert(all.take(i + 1).drop_last() =~= all.take(i as int));
        assert(rest@ =~= all.skip(i + 1));
        i = i + 1;
    }
    assert(all.take(i as int) =~= all);
    out
}

} // verus!
