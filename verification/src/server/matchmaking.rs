//! Pairing players who look for a game: the first to ask waits, the next
//! is paired with the one who waited last.
//!
//! A waiting player carries what the server needs to tell them of their
//! game (`tx`), of whatever type the server uses for that.
use vstd::prelude::*;

verus! {

/// What a waiting player is told when paired.
#[derive(Clone, Debug)]
pub struct MatchResult {
    pub game_id: String,
    pub opponent_name: String,
    /// "white" or "black".
    pub my_color: String,
}

pub struct WaitingPlayer<T> {
    pub user_id: u128,
    pub display_name: String,
    pub elo: i32,
    pub tx: T,
}

pub struct Matchmaker<T> {
    queue: Vec<WaitingPlayer<T>>,
}

/// The waiting players other than a user's, in their order.
pub open spec fn without_user<T>(s: Seq<WaitingPlayer<T>>, user_id: u128) -> Seq<WaitingPlayer<T>>
    decreases s.len(),
{
    if s.len() == 0 {
        s
    } else {
        let r = without_user(s.drop_last(), user_id);
        if s.last().user_id != user_id {
            r.push(s.last())
        } else {
            r
        }
    }
}

proof fn lemma_without_user_len<T>(s: Seq<WaitingPlayer<T>>, user_id: u128)
    ensures
        without_user(s, user_id).len() <= s.len(),
    decreases s.len(),
{
    if s.len() > 0 {
        lemma_without_user_len(s.drop_last(), user_id);
    }
}

impl<T> Matchmaker<T> {
    /// The players waiting, in the order they came.
    pub closed spec fn waiting(&self) -> Seq<WaitingPlayer<T>> {
        self.queue@
    }

    /// A matchmaker with nobody waiting.
    pub fn new() -> (m: Matchmaker<T>)
        ensures
            m.waiting() == Seq::<WaitingPlayer<T>>::empty(),
    {
        Matchmaker { queue: Vec::new() }
    }

    /// A player asks for a game: paired with the last one waiting, who
    /// leaves the queue (that player first, the newcomer second); or, with
    /// nobody waiting, the newcomer waits. At most one player ever waits.
    pub fn enqueue(&mut self, player: WaitingPlayer<T>) -> (r: Option<(WaitingPlayer<T>, WaitingPlayer<T>)>)
        ensures
            old(self).waiting().len() > 0 ==> r == Some((old(self).waiting().last(), player)) && final(self).waiting()
                == old(self).waiting().drop_last(),
            old(self).waiting().len() == 0 ==> r is None && final(self).waiting() == seq![player],
            old(self).waiting().len() <= 1 ==> final(self).waiting().len() <= 1,
    {
        match self.queue.pop() {
            Some(opponent) => Some((opponent, player)),
            None => {
                self.queue.push(player);
                None
            },
        }
    }

    /// A user stops looking for a game.
    pub fn remove(&mut self, user_id: u128)
        ensures
            final(self).waiting() == without_user(old(self).waiting(), user_id),
            final(self).waiting().len() <= old(self).waiting().len(),
    {
        let mut kept: Vec<WaitingPlayer<T>> = Vec::new();
        let mut queue: Vec<WaitingPlayer<T>> = Vec::new();
        std::mem::swap(&mut queue, &mut self.queue);
        let ghost all = queue@;
        let ghost mut n: int = 0;
        while queue.len() > 0
            invariant
                0 <= n <= all.len(),
                queue@ == all.skip(n),
                kept@ == without_user(all.take(n), user_id),
            decreases queue.len(),
        {
            let p = queue.remove(0);
            proof {
                assert(all.take(n + 1).drop_last() =~= all.take(n));
                assert(all.take(n + 1).last() == all[n]);
                assert(queue@ =~= all.skip(n + 1));
            }
            if p.user_id != user_id {
                kept.push(p);
            }
            proof {
                n = n + 1;
            }
        }
        assert(all.take(n) =~= all);
        self.queue = kept;
        proof {
            lemma_without_user_len(all, user_id);
        }
    }
}

impl<T> Default for Matchmaker<T> {
    fn default() -> (m: Matchmaker<T>)
        ensures
            m.waiting() == Seq::<WaitingPlayer<T>>::empty(),
    {
        Matchmaker::new()
    }
}

} // verus!
