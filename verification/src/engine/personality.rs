//! The personality of the weak levels: instead of always playing the
//! engine's best move, they misjudge positions by a little noise and now
//! and then make the kind of mistake people make (a tempting capture or
//! check, a lazy quiet move, a greedy capture, the second-best move).
//!
//! The random draws are made by `apply_personality` and
//! `pick_human_blunder`; what follows from each draw is decided by verified
//! functions that take the draw as an argument.
use vstd::prelude::*;
use crate::chess::types::Move;
use crate::chess::board::{in_check_of, legal_moves_of, play_of, Board, BoardModel};
use crate::engine::difficulty::DifficultyLevel;
use crate::engine::evaluation::eval_bound;
use crate::engine::move_sort::{sort_by_score_desc, sort_desc, lemma_sort_desc_elements};
use crate::engine::search::{is_capture, scored_moves, SearchEngine};
use crate::random::{random_below, random_in};

verus! {

// ── Filters ─────────────────────────────────────────────────────────────

/// The scored moves that satisfy a predicate, in their order.
pub open spec fn keep(s: Seq<(Move, i32)>, pred: spec_fn((Move, i32)) -> bool) -> Seq<(Move, i32)>
    decreases s.len(),
{
    if s.len() == 0 {
        s
    } else {
        let r = keep(s.drop_last(), pred);
        if pred(s.last()) {
            r.push(s.last())
        } else {
            r
        }
    }
}

proof fn lemma_keep_elements(s: Seq<(Move, i32)>, pred: spec_fn((Move, i32)) -> bool)
    ensures
        forall|i: int| 0 <= i < keep(s, pred).len() ==> s.contains(#[trigger] keep(s, pred)[i]) && pred(keep(s, pred)[i]),
    decreases s.len(),
{
    if s.len() > 0 {
        lemma_keep_elements(s.drop_last(), pred);
        assert forall|i: int| 0 <= i < keep(s, pred).len() implies s.contains(#[trigger] keep(s, pred)[i]) && pred(
            keep(s, pred)[i],
        ) by {
            let r = keep(s.drop_last(), pred);
            if i < r.len() {
                assert(s.drop_last().contains(r[i]));
                let j = choose|j: int| 0 <= j < s.drop_last().len() && s.drop_last()[j] == r[i];
                assert(s[j] == r[i]);
            } else {
                assert(s[s.len() - 1] == s.last());
            }
        }
    }
}

/// Whether a move loses at most `max_loss` against the best score.
pub open spec fn within_loss(best_score: i32, max_loss: i32) -> spec_fn((Move, i32)) -> bool {
    |x: (Move, i32)| best_score - x.1 <= max_loss
}

/// Whether a move gives check.
pub open spec fn gives_check(b: BoardModel, mv: Move) -> bool {
    play_of(b, mv) matches Some(c) && in_check_of(c)
}

/// A tempting move: a capture or a check that is not the top move.
pub open spec fn tempting(b: BoardModel, top: Move) -> spec_fn((Move, i32)) -> bool {
    |x: (Move, i32)| (is_capture(b, x.0) || gives_check(b, x.0)) && x.0 != top
}

/// A quiet move: not a capture.
pub open spec fn quiet(b: BoardModel) -> spec_fn((Move, i32)) -> bool {
    |x: (Move, i32)| !is_capture(b, x.0)
}

/// A greedy move: a capture.
pub open spec fn greedy(b: BoardModel) -> spec_fn((Move, i32)) -> bool {
    |x: (Move, i32)| is_capture(b, x.0)
}

fn gives_check_exec(board: &Board, mv: Move) -> (r: bool)
    ensures
        r == gives_check(board@, mv),
{
    match board.play(mv) {
        Some(child) => child.in_check(),
        None => false,
    }
}

fn is_capture_move(board: &Board, mv: Move) -> (r: bool)
    ensures
        r == is_capture(board@, mv),
{
    match board.at(mv.to) {
        Some((c, _)) => c == board.side_to_move().opponent(),
        None => false,
    }
}

/// The moves that lose at most `max_loss` against `best_score`.
pub fn acceptable_moves(moves: &Vec<(Move, i32)>, best_score: i32, max_loss: i32) -> (r: Vec<(Move, i32)>)
    ensures
        r@ == keep(moves@, within_loss(best_score, max_loss)),
{
    let mut out: Vec<(Move, i32)> = Vec::new();
    let mut i: usize = 0;
    while i < moves.len()
        invariant
            i <= moves.len(),
            out@ == keep(moves@.take(i as int), within_loss(best_score, max_loss)),
        decreases moves.len() - i,
    {
        let x = moves[i];
        assert(moves@.take(i + 1).drop_last() =~= moves@.take(i as int));
        if (best_score as i64) - (x.1 as i64) <= max_loss as i64 {
            out.push(x);
        }
        i = i + 1;
    }
    assert(moves@.take(moves.len() as int) =~= moves@);
    out
}

fn tempting_moves(board: &Board, moves: &Vec<(Move, i32)>, top: Move) -> (r: Vec<(Move, i32)>)
    ensures
        r@ == keep(moves@, tempting(board@, top)),
{
    let mut out: Vec<(Move, i32)> = Vec::new();
    let mut i: usize = 0;
    while i < moves.len()
        invariant
            i <= moves.len(),
            out@ == keep(moves@.take(i as int), tempting(board@, top)),
        decreases moves.len() - i,
    {
        let x = moves[i];
        assert(moves@.take(i + 1).drop_last() =~= moves@.take(i as int));
        if (is_capture_move(board, x.0) || gives_check_exec(board, x.0)) && x.0 != top {
            out.push(x);
        }
        i = i + 1;
    }
    assert(moves@.take(moves.len() as int) =~= moves@);
    out
}

fn captures_or_quiet(board: &Board, moves: &Vec<(Move, i32)>, captures: bool) -> (r: Vec<(Move, i32)>)
    ensures
        r@ == keep(moves@, if captures { greedy(board@) } else { quiet(board@) }),
{
    let ghost pred = if captures { greedy(board@) } else { quiet(board@) };
    let mut out: Vec<(Move, i32)> = Vec::new();
    let mut i: usize = 0;
    while i < moves.len()
        invariant
            i <= moves.len(),
            pred == (if captures { greedy(board@) } else { quiet(board@) }),
            out@ == keep(moves@.take(i as int), pred),
        decreases moves.len() - i,
    {
        let x = moves[i];
        assert(moves@.take(i + 1).drop_last() =~= moves@.take(i as int));
        if is_capture_move(board, x.0) == captures {
            out.push(x);
        }
        i = i + 1;
    }
    assert(moves@.take(moves.len() as int) =~= moves@);
    out
}

// ── Blunders ────────────────────────────────────────────────────────────

/// What a blunder of a kind comes to: a move, a choice among quiet moves
/// (made at random from the first three), or nothing.
pub enum BlunderPlan {
    Play(Move),
    Quiet(Vec<Move>),
    Nothing,
}

/// The blunder plan in the model: `Some(Ok(m))` plays `m`, `Some(Err(q))`
/// chooses among the quiet moves `q`, `None` is no blunder.
pub open spec fn blunder_plan_of(
    b: BoardModel,
    moves: Seq<(Move, i32)>,
    best_score: i32,
    max_loss: i32,
    blunder_type: u128,
) -> Option<Result<Move, Seq<Move>>> {
    let acceptable = keep(moves, within_loss(best_score, max_loss));
    if acceptable.len() <= 1 {
        None
    } else if blunder_type <= 39 {
        let t = keep(acceptable, tempting(b, moves[0].0));
        if t.len() > 0 {
            Some(Ok(t[0].0))
        } else {
            None
        }
    } else if blunder_type <= 64 {
        let q = keep(acceptable, quiet(b));
        if q.len() > 1 {
            Some(Err(q.map_values(|x: (Move, i32)| x.0)))
        } else {
            None
        }
    } else if blunder_type <= 84 {
        let g = keep(acceptable, greedy(b));
        if g.len() > 0 {
            Some(Ok(g[0].0))
        } else {
            None
        }
    } else if blunder_type <= 99 {
        Some(Ok(acceptable[1].0))
    } else {
        None
    }
}

pub open spec fn plan_model(p: BlunderPlan) -> Option<Result<Move, Seq<Move>>> {
    match p {
        BlunderPlan::Play(m) => Some(Ok(m)),
        BlunderPlan::Quiet(q) => Some(Err(q@)),
        BlunderPlan::Nothing => None,
    }
}

/// Whether a move is one of the scored moves and loses at most `max_loss`.
pub open spec fn is_acceptable(moves: Seq<(Move, i32)>, m: Move, best_score: i32, max_loss: i32) -> bool {
    exists|i: int| 0 <= i < moves.len() && #[trigger] moves[i].0 == m && best_score - moves[i].1 <= max_loss
}

fn moves_only(v: &Vec<(Move, i32)>) -> (r: Vec<Move>)
    ensures
        r@ == v@.map_values(|x: (Move, i32)| x.0),
{
    let mut out: Vec<Move> = Vec::new();
    let mut i: usize = 0;
    while i < v.len()
        invariant
            i <= v.len(),
            out@ == v@.take(i as int).map_values(|x: (Move, i32)| x.0),
        decreases v.len() - i,
    {
        out.push(v[i].0);
        assert(out@ =~= v@.take(i + 1).map_values(|x: (Move, i32)| x.0));
        i = i + 1;
    }
    assert(v@.take(v.len() as int) =~= v@);
    out
}

/// What a kind of blunder comes to, by the drawn number `blunder_type`
/// (below 100): 0 to 39 a tempting capture or check, 40 to 64 a lazy quiet
/// move, 65 to 84 a greedy capture, 85 to 99 the second-best move; always
/// among the moves that lose at most the level's largest blunder.
pub fn blunder_plan(
    board: &Board,
    moves: &Vec<(Move, i32)>,
    best_score: i32,
    config: &DifficultyLevel,
    blunder_type: u128,
) -> (r: BlunderPlan)
    ensures
        plan_model(r) == blunder_plan_of(board@, moves@, best_score, config.personality.max_blunder_cp, blunder_type),
{
    let max_loss = config.personality.max_blunder_cp;
    let acceptable = acceptable_moves(moves, best_score, max_loss);
    if acceptable.len() <= 1 {
        return BlunderPlan::Nothing;
    }
    if blunder_type <= 39 {
        let t = tempting_moves(board, &acceptable, moves[0].0);
        if t.len() > 0 {
            BlunderPlan::Play(t[0].0)
        } else {
            BlunderPlan::Nothing
        }
    } else if blunder_type <= 64 {
        let q = captures_or_quiet(board, &acceptable, false);
        if q.len() > 1 {
            BlunderPlan::Quiet(moves_only(&q))
        } else {
            BlunderPlan::Nothing
        }
    } else if blunder_type <= 84 {
        let g = captures_or_quiet(board, &acceptable, true);
        if g.len() > 0 {
            BlunderPlan::Play(g[0].0)
        } else {
            BlunderPlan::Nothing
        }
    } else if blunder_type <= 99 {
        BlunderPlan::Play(acceptable[1].0)
    } else {
        BlunderPlan::Nothing
    }
}

proof fn lemma_plan_acceptable(
    b: BoardModel,
    moves: Seq<(Move, i32)>,
    best_score: i32,
    max_loss: i32,
    blunder_type: u128,
)
    ensures
        blunder_plan_of(b, moves, best_score, max_loss, blunder_type) matches Some(Ok(m)) ==> is_acceptable(
            moves,
            m,
            best_score,
            max_loss,
        ),
        blunder_plan_of(b, moves, best_score, max_loss, blunder_type) matches Some(Err(q)) ==> q.len() > 1 && (
        forall|i: int| 0 <= i < q.len() ==> is_acceptable(moves, #[trigger] q[i], best_score, max_loss)),
{
    let w = within_loss(best_score, max_loss);
    let acceptable = keep(moves, w);
    lemma_keep_elements(moves, w);
    assert forall|k: int| 0 <= k < acceptable.len() implies is_acceptable(
        moves,
        #[trigger] acceptable[k].0,
        best_score,
        max_loss,
    ) by {
        assert(moves.contains(acceptable[k]));
        let j = choose|j: int| 0 <= j < moves.len() && moves[j] == acceptable[k];
        assert(moves[j].0 == acceptable[k].0);
    }
    if acceptable.len() > 1 {
        let pt = tempting(b, moves[0].0);
        let pq = quiet(b);
        let pg = greedy(b);
        lemma_keep_elements(acceptable, pt);
        lemma_keep_elements(acceptable, pq);
        lemma_keep_elements(acceptable, pg);
        let t = keep(acceptable, pt);
        let q = keep(acceptable, pq);
        let g = keep(acceptable, pg);
        if t.len() > 0 {
            assert(acceptable.contains(t[0]));
            let j = choose|j: int| 0 <= j < acceptable.len() && acceptable[j] == t[0];
            assert(is_acceptable(moves, acceptable[j].0, best_score, max_loss));
        }
        if g.len() > 0 {
            assert(acceptable.contains(g[0]));
            let j = choose|j: int| 0 <= j < acceptable.len() && acceptable[j] == g[0];
            assert(is_acceptable(moves, acceptable[j].0, best_score, max_loss));
        }
        assert(is_acceptable(moves, acceptable[1].0, best_score, max_loss));
        let qm = q.map_values(|x: (Move, i32)| x.0);
        assert forall|i: int| 0 <= i < qm.len() implies is_acceptable(moves, #[trigger] qm[i], best_score, max_loss) by {
            assert(acceptable.contains(q[i]));
            let j = choose|j: int| 0 <= j < acceptable.len() && acceptable[j] == q[i];
            assert(is_acceptable(moves, acceptable[j].0, best_score, max_loss));
        }
    }
}

/// What a blunder plan comes to: the planned move; one of the first three
/// lazy quiet moves; or no blunder.
pub open spec fn plan_outcome(plan: Option<Result<Move, Seq<Move>>>, r: Option<Move>) -> bool {
    match plan {
        Some(Ok(m)) => r == Some(m),
        Some(Err(q)) => exists|i: int| 0 <= i < q.len() && i < 3 && r == Some(#[trigger] q[i]),
        None => r is None,
    }
}

/// Whether a move (or none) is what the blunder step can give for some
/// drawn kind of blunder (below 100).
pub open spec fn blunder_pick(b: BoardModel, moves: Seq<(Move, i32)>, best_score: i32, max_loss: i32, r: Option<Move>) -> bool {
    exists|t: u128| t < 100 && #[trigger] plan_outcome(blunder_plan_of(b, moves, best_score, max_loss, t), r)
}

/// A human-like blunder, or `None`. It draws the kind of blunder and, for a
/// lazy move, which of the first three quiet moves: the result is what the
/// blunder plan of the drawn kind gives. Whatever it draws, the move is one
/// of `moves` and loses at most the level's largest blunder.
pub fn pick_human_blunder(
    board: &Board,
    moves: &Vec<(Move, i32)>,
    best_score: i32,
    config: &DifficultyLevel,
) -> (r: Option<Move>)
    ensures
        blunder_pick(board@, moves@, best_score, config.personality.max_blunder_cp, r),
        r matches Some(m) ==> is_acceptable(moves@, m, best_score, config.personality.max_blunder_cp),
{
    let blunder_type = random_below(100);
    let plan = blunder_plan(board, moves, best_score, config, blunder_type);
    let ghost planned = blunder_plan_of(board@, moves@, best_score, config.personality.max_blunder_cp, blunder_type);
    proof {
        lemma_plan_acceptable(board@, moves@, best_score, config.personality.max_blunder_cp, blunder_type);
    }
    let r = match plan {
        BlunderPlan::Play(m) => Some(m),
        BlunderPlan::Quiet(q) => {
            let n: u128 = if q.len() < 3 {
                q.len() as u128
            } else {
                3
            };
            let idx = random_below(n);
            let m = q[idx as usize];
            proof {
                assert(plan_model(BlunderPlan::Quiet(q)) == planned);
                assert(q@[idx as int] == m);
            }
            Some(m)
        },
        BlunderPlan::Nothing => None,
    };
    assert(plan_outcome(planned, r));
    r
}

// ── Noise ───────────────────────────────────────────────────────────────

/// The score of a move in the scored moves (its first occurrence), if any.
pub open spec fn score_in(moves: Seq<(Move, i32)>, m: Move) -> Option<i32>
    decreases moves.len(),
{
    if moves.len() == 0 {
        None
    } else if moves[0].0 == m {
        Some(moves[0].1)
    } else {
        score_in(moves.drop_first(), m)
    }
}

/// A move's score is found exactly when the move is among the scored
/// moves, and then it is the score beside one of its entries.
proof fn lemma_score_in(s: Seq<(Move, i32)>, m: Move)
    ensures
        (exists|i: int| 0 <= i < s.len() && #[trigger] s[i].0 == m) ==> score_in(s, m) is Some,
        score_in(s, m) matches Some(v) ==> exists|i: int| 0 <= i < s.len() && #[trigger] s[i].0 == m && s[i].1 == v,
    decreases s.len(),
{
    if s.len() > 0 {
        if s[0].0 == m {
            assert(s[0].0 == m);
        } else {
            lemma_score_in(s.drop_first(), m);
            if exists|i: int| 0 <= i < s.len() && #[trigger] s[i].0 == m {
                let i = choose|i: int| 0 <= i < s.len() && #[trigger] s[i].0 == m;
                assert(s.drop_first()[i - 1].0 == m);
            }
            if let Some(v) = score_in(s, m) {
                let i = choose|i: int| 0 <= i < s.drop_first().len() && #[trigger] s.drop_first()[i].0 == m && s.drop_first()[i].1 == v;
                assert(s[i + 1].0 == m);
            }
        }
    }
}

/// Finds the score of a move among scored moves.
pub fn find_score(moves: &Vec<(Move, i32)>, m: Move) -> (r: Option<i32>)
    ensures
        r == score_in(moves@, m),
{
    let mut i: usize = 0;
    assert(moves@.skip(0) =~= moves@);
    while i < moves.len()
        invariant
            i <= moves.len(),
            score_in(moves@, m) == score_in(moves@.skip(i as int), m),
        decreases moves.len() - i,
    {
        assert(moves@.skip(i as int).drop_first() =~= moves@.skip(i + 1));
        if moves[i].0 == m {
            return Some(moves[i].1);
        }
        i = i + 1;
    }
    None
}

/// The move that looks best once noise is added, played when it is not the
/// best move and truly loses at most `max_loss`: the noisy moves sorted
/// best first (a stable sort), the first of them taken.
pub open spec fn noise_choice_of(
    all_moves: Seq<(Move, i32)>,
    noisy: Seq<(Move, i32)>,
    best_move: Move,
    best_score: i32,
    max_loss: i32,
) -> Option<Move> {
    let sorted = sort_desc(noisy);
    if sorted.len() == 0 {
        None
    } else {
        let noisy_best = sorted[0].0;
        let true_score = match score_in(all_moves, noisy_best) {
            Some(s) => s as int,
            None => 0,
        };
        if noisy_best != best_move && best_score - true_score <= max_loss {
            Some(noisy_best)
        } else {
            None
        }
    }
}

/// The noise step: which move a noisy judgement prefers, if it may be played.
pub fn noise_choice(
    all_moves: &Vec<(Move, i32)>,
    noisy: &Vec<(Move, i32)>,
    best_move: Move,
    best_score: i32,
    max_loss: i32,
) -> (r: Option<Move>)
    ensures
        r == noise_choice_of(all_moves@, noisy@, best_move, best_score, max_loss),
{
    let sorted = sort_by_score_desc(noisy);
    if sorted.len() == 0 {
        return None;
    }
    let noisy_best = sorted[0].0;
    if noisy_best != best_move {
        let true_score: i64 = match find_score(all_moves, noisy_best) {
            Some(s) => s as i64,
            None => 0,
        };
        if (best_score as i64) - true_score <= max_loss as i64 {
            return Some(noisy_best);
        }
    }
    None
}

/// Whether noisy scores are the scores with a noise of at most `noise` added
/// to each, the moves kept in order.
pub open spec fn noisy_of(all: Seq<(Move, i32)>, noisy: Seq<(Move, i32)>, noise: i32) -> bool {
    &&& noisy.len() == all.len()
    &&& forall|j: int|
        0 <= j < all.len() ==> (#[trigger] noisy[j]).0 == all[j].0 && all[j].1 - noise <= noisy[j].1 <= all[j].1 + noise
}

/// The moves with their scores, best first, as the engine judges them.
pub open spec fn true_scores(b: BoardModel, cfg: DifficultyLevel) -> Seq<(Move, i32)> {
    sort_desc(scored_moves(b, legal_moves_of(b), cfg.eval))
}

/// The score of the engine's best move: its score among the moves, else
/// the search's evaluation.
pub open spec fn best_score_of(all: Seq<(Move, i32)>, pv: Seq<Move>, best_eval: i32) -> i32 {
    match score_in(all, pv[0]) {
        Some(s) => s,
        None => best_eval,
    }
}

/// Whether `r` is what the personality step gives for the noisy scores, the
/// drawn roll (below 1000) and the blunder drawn when the roll falls below
/// the blunder rate: nothing at a level without blunders and noise, with at
/// most one move or no line; else the blunder (among the moves that lose at
/// most the level's largest blunder by the engine's own scores), if one is
/// drawn; else the move the noisy scores prefer, when it may be played.
pub open spec fn personality_result(
    b: BoardModel,
    cfg: DifficultyLevel,
    pv: Seq<Move>,
    best_eval: i32,
    noisy: Seq<(Move, i32)>,
    roll: u128,
    blunder: Option<Move>,
    r: Option<Move>,
) -> bool {
    let p = cfg.personality;
    let all = sort_desc(scored_moves(b, legal_moves_of(b), cfg.eval));
    if p.blunder_rate_permille == 0 && p.eval_noise_cp == 0 {
        r is None
    } else if all.len() <= 1 || pv.len() == 0 {
        r is None
    } else {
        let best_move = pv[0];
        let best_score = match score_in(all, best_move) {
            Some(s) => s,
            None => best_eval,
        };
        &&& noisy_of(all, noisy, p.eval_noise_cp)
        &&& roll < 1000
        &&& (roll < p.blunder_rate_permille ==> blunder_pick(b, all, best_score, p.max_blunder_cp, blunder))
        &&& r == if roll < p.blunder_rate_permille && blunder is Some {
            blunder
        } else {
            noise_choice_of(all, noisy, best_move, best_score, p.max_blunder_cp)
        }
    }
}

/// Decides whether to play another move than the engine's best, to play
/// like a person of the level: `None` plays the best move.
///
/// It draws a noise for each move, whether to blunder, and how; whatever
/// it draws, a move it returns is a legal move of the position, and a level
/// without blunders and without noise always plays the best move.
pub fn apply_personality(
    board: &Board,
    config: &DifficultyLevel,
    pv: &Vec<Move>,
    best_eval: i32,
    engine: &SearchEngine,
) -> (r: Option<Move>)
    requires
        0 <= config.personality.eval_noise_cp <= i32::MAX - eval_bound(),
        engine.spec_config().eval == config.eval,
    ensures
        config.personality.blunder_rate_permille == 0 && config.personality.eval_noise_cp == 0 ==> r is None,
        r matches Some(m) ==> legal_moves_of(board@).contains(m),
        r matches Some(m) ==> pv@.len() > 0 && is_acceptable(
            true_scores(board@, *config),
            m,
            best_score_of(true_scores(board@, *config), pv@, best_eval),
            config.personality.max_blunder_cp,
        ),
        exists|noisy: Seq<(Move, i32)>, roll: u128, blunder: Option<Move>|
            #[trigger] personality_result(board@, *config, pv@, best_eval, noisy, roll, blunder, r),
{
    let p = config.personality;
    if p.blunder_rate_permille == 0 && p.eval_noise_cp == 0 {
        assert(personality_result(board@, *config, pv@, best_eval, Seq::empty(), 0, None, None));
        return None;
    }
    let all_moves = engine.evaluate_all_moves(board);
    if all_moves.len() <= 1 {
        assert(personality_result(board@, *config, pv@, best_eval, Seq::empty(), 0, None, None));
        return None;
    }
    if pv.len() == 0 {
        assert(personality_result(board@, *config, pv@, best_eval, Seq::empty(), 0, None, None));
        return None;
    }
    let best_move = pv[0];
    let best_score = match find_score(&all_moves, best_move) {
        Some(s) => s,
        None => best_eval,
    };
    let mut noisy: Vec<(Move, i32)> = Vec::new();
    let mut i: usize = 0;
    while i < all_moves.len()
        invariant
            i <= all_moves.len(),
            0 <= p.eval_noise_cp <= i32::MAX - eval_bound(),
            noisy@.len() == i,
            forall|j: int|
                0 <= j < all_moves@.len() ==> legal_moves_of(board@).contains(#[trigger] all_moves@[j].0) && -eval_bound()
                    <= all_moves@[j].1 <= eval_bound(),
            forall|j: int| 0 <= j < i ==> (#[trigger] noisy@[j]).0 == all_moves@[j].0,
            forall|j: int|
                0 <= j < i ==> all_moves@[j].1 - p.eval_noise_cp <= (#[trigger] noisy@[j]).1 <= all_moves@[j].1
                    + p.eval_noise_cp,
        decreases all_moves.len() - i,
    {
        let (mv, score) = all_moves[i];
        let noise = if p.eval_noise_cp > 0 {
            random_in(-p.eval_noise_cp, p.eval_noise_cp)
        } else {
            0
        };
        noisy.push((mv, score + noise));
        i = i + 1;
    }
    let roll = random_below(1000);
    if roll < p.blunder_rate_permille as u128 {
        match pick_human_blunder(board, &all_moves, best_score, config) {
            Some(m) => {
                proof {
                    let j = choose|j: int|
                        0 <= j < all_moves@.len() && #[trigger] all_moves@[j].0 == m && best_score - all_moves@[j].1
                            <= config.personality.max_blunder_cp;
                    assert(all_moves@[j].0 == m);
                    assert(noisy_of(all_moves@, noisy@, p.eval_noise_cp));
                    assert(personality_result(board@, *config, pv@, best_eval, noisy@, roll, Some(m), Some(m)));
                }
                return Some(m);
            },
            None => {
                assert(blunder_pick(board@, all_moves@, best_score, p.max_blunder_cp, None));
            },
        }
    }
    assert(roll < p.blunder_rate_permille ==> blunder_pick(board@, all_moves@, best_score, p.max_blunder_cp, None));
    let r = noise_choice(&all_moves, &noisy, best_move, best_score, p.max_blunder_cp);
    proof {
        if let Some(m) = r {
            lemma_sort_desc_elements(noisy@);
            assert(noisy@.contains(sort_desc(noisy@)[0]));
            let j = choose|j: int| 0 <= j < noisy@.len() && noisy@[j] == sort_desc(noisy@)[0];
            assert(all_moves@[j].0 == m);
            lemma_score_in(all_moves@, m);
        }
        assert(noisy_of(all_moves@, noisy@, p.eval_noise_cp));
        assert(personality_result(board@, *config, pv@, best_eval, noisy@, roll, None, r));
    }
    r
}

} // verus!
