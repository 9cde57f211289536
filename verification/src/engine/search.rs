//! The search: iterative deepening over an alpha-beta search with a
//! transposition table, ending in a quiescence search over captures.
//!
//! The quiescence search depends on the position alone and is stated
//! exactly. The alpha-beta search also depends on the clock, on a flag that
//! another thread may set and on what the table remembers, so of it the
//! contracts state what holds whatever those are.
use vstd::prelude::*;
use std::sync::Arc;
use std::sync::atomic::AtomicBool;
use std::time::Instant;
use crate::chess::types::{Move, Piece, Square};
use crate::chess::board::{hash_of, legal_moves_of, play_of, Board, BoardModel};
use crate::clock::elapsed_millis;
use crate::engine::cancel::is_set;
use crate::engine::difficulty::{DifficultyLevel, EvalConfig};
use crate::engine::evaluation::{eval_bound, eval_terminal, evaluate, evaluation_of, terminal_of};
use crate::engine::move_sort::{lemma_sort_desc_elements, lemma_sort_desc_permutation, sort_by_score_desc, sort_desc};
use crate::engine::tables::{BISHOP_VALUE, KING_VALUE, KNIGHT_VALUE, PAWN_VALUE, QUEEN_VALUE, ROOK_VALUE};
use crate::engine::AIResult;

verus! {

// ── Move ordering ───────────────────────────────────────────────────────

/// The value of a piece for capture ordering.
pub open spec fn piece_value_of(p: Piece) -> int {
    match p {
        Piece::Pawn => PAWN_VALUE as int,
        Piece::Knight => KNIGHT_VALUE as int,
        Piece::Bishop => BISHOP_VALUE as int,
        Piece::Rook => ROOK_VALUE as int,
        Piece::Queen => QUEEN_VALUE as int,
        Piece::King => KING_VALUE as int,
    }
}

/// The value of whatever stands on a square (0 when it is empty).
pub open spec fn value_on(b: BoardModel, sq: Square) -> int {
    match b.at(sq) {
        Some((_, p)) => piece_value_of(p),
        None => 0,
    }
}

/// Most valuable victim, least valuable attacker.
pub open spec fn mvv_lva(b: BoardModel, mv: Move) -> int {
    value_on(b, mv.to) * 10 - value_on(b, mv.from)
}

/// A capture: the destination holds a piece of the side not to move.
pub open spec fn is_capture(b: BoardModel, mv: Move) -> bool {
    b.at(mv.to) matches Some((c, _)) && c == b.side.spec_opponent()
}

/// The ordering score of a move: the table's move first, then captures by
/// MVV-LVA, with a bonus for promotions.
pub open spec fn order_score(b: BoardModel, mv: Move, tt_move: Option<Move>) -> int {
    if tt_move == Some(mv) {
        100_000
    } else {
        (if is_capture(b, mv) { 10_000 + mvv_lva(b, mv) } else { 0 }) + (if mv.promotion is Some {
            9_000int
        } else {
            0int
        })
    }
}

/// Moves paired with their ordering scores.
pub open spec fn keyed_for_order(b: BoardModel, s: Seq<Move>, tt_move: Option<Move>) -> Seq<(Move, i32)> {
    s.map_values(|m: Move| (m, order_score(b, m, tt_move) as i32))
}

/// Moves paired with their MVV-LVA scores.
pub open spec fn keyed_by_mvv_lva(b: BoardModel, s: Seq<Move>) -> Seq<(Move, i32)> {
    s.map_values(|m: Move| (m, mvv_lva(b, m) as i32))
}

/// The moves of a sorted list of scored moves.
pub open spec fn moves_of(s: Seq<(Move, i32)>) -> Seq<Move> {
    s.map_values(|p: (Move, i32)| p.0)
}

/// The captures among the moves, in their order.
pub open spec fn captures_in(b: BoardModel, s: Seq<Move>) -> Seq<Move>
    decreases s.len(),
{
    if s.len() == 0 {
        s
    } else {
        let r = captures_in(b, s.drop_last());
        if is_capture(b, s.last()) {
            r.push(s.last())
        } else {
            r
        }
    }
}

/// The legal captures, best victim first.
pub open spec fn capture_order(b: BoardModel) -> Seq<Move> {
    moves_of(sort_desc(keyed_by_mvv_lva(b, captures_in(b, legal_moves_of(b)))))
}

// ── Quiescence ──────────────────────────────────────────────────────────

pub open spec fn max_int(a: int, b: int) -> int {
    if a >= b {
        a
    } else {
        b
    }
}

/// The quiescence value of a position in the window `alpha..beta`: the
/// static evaluation (stand pat), improved by captures while depth remains.
pub open spec fn quiesce(b: BoardModel, alpha: int, beta: int, depth: nat, cfg: EvalConfig) -> int
    decreases depth, 1int, 0int,
{
    let stand_pat = evaluation_of(b, cfg);
    if stand_pat >= beta {
        beta
    } else if depth == 0 {
        stand_pat
    } else {
        q_loop(b, capture_order(b), 0, max_int(alpha, stand_pat), beta, depth, cfg)
    }
}

/// The captures from the `k`-th on, tried in turn, with `alpha` the best
/// so far; a refutation (a score of at least `beta`) ends the loop.
pub open spec fn q_loop(
    b: BoardModel,
    caps: Seq<Move>,
    k: int,
    alpha: int,
    beta: int,
    depth: nat,
    cfg: EvalConfig,
) -> int
    decreases depth, 0int, caps.len() - k,
{
    if k < 0 || k >= caps.len() || depth == 0 {
        alpha
    } else {
        match play_of(b, caps[k]) {
            None => q_loop(b, caps, k + 1, alpha, beta, depth, cfg),
            Some(child) => {
                let score = -quiesce(child, -beta, -alpha, (depth - 1) as nat, cfg);
                if score >= beta {
                    beta
                } else {
                    q_loop(b, caps, k + 1, max_int(alpha, score), beta, depth, cfg)
                }
            },
        }
    }
}

/// The node counter after counting one more node (it wraps around).
pub open spec fn next_count(n: u64) -> u64 {
    if n == u64::MAX {
        0
    } else {
        (n + 1) as u64
    }
}

/// The node counter after the quiescence search of `quiesce`, from `n`:
/// one for the position, then those of the captures looked at.
pub open spec fn q_nodes(b: BoardModel, alpha: int, beta: int, depth: nat, cfg: EvalConfig, n: u64) -> u64
    decreases depth, 1int, 0int,
{
    let n1 = next_count(n);
    let stand_pat = evaluation_of(b, cfg);
    if stand_pat >= beta || depth == 0 {
        n1
    } else {
        q_loop_nodes(b, capture_order(b), 0, max_int(alpha, stand_pat), beta, depth, cfg, n1)
    }
}

/// The node counter after the captures from the `k`-th on, as `q_loop`
/// looks at them.
pub open spec fn q_loop_nodes(
    b: BoardModel,
    caps: Seq<Move>,
    k: int,
    alpha: int,
    beta: int,
    depth: nat,
    cfg: EvalConfig,
    n: u64,
) -> u64
    decreases depth, 0int, caps.len() - k,
{
    if k < 0 || k >= caps.len() || depth == 0 {
        n
    } else {
        match play_of(b, caps[k]) {
            None => q_loop_nodes(b, caps, k + 1, alpha, beta, depth, cfg, n),
            Some(child) => {
                let n2 = q_nodes(child, -beta, -alpha, (depth - 1) as nat, cfg, n);
                let score = -quiesce(child, -beta, -alpha, (depth - 1) as nat, cfg);
                if score >= beta {
                    n2
                } else {
                    q_loop_nodes(b, caps, k + 1, max_int(alpha, score), beta, depth, cfg, n2)
                }
            },
        }
    }
}

proof fn lemma_q_loop_window(b: BoardModel, caps: Seq<Move>, k: int, alpha: int, beta: int, depth: nat, cfg: EvalConfig)
    requires
        alpha < beta,
    ensures
        alpha <= q_loop(b, caps, k, alpha, beta, depth, cfg) <= beta,
    decreases caps.len() - k,
{
    if !(k < 0 || k >= caps.len() || depth == 0) {
        match play_of(b, caps[k]) {
            None => lemma_q_loop_window(b, caps, k + 1, alpha, beta, depth, cfg),
            Some(child) => {
                let score = -quiesce(child, -beta, -alpha, (depth - 1) as nat, cfg);
                if score < beta {
                    lemma_q_loop_window(b, caps, k + 1, max_int(alpha, score), beta, depth, cfg);
                }
            },
        }
    }
}

/// The quiet-position search never scores above the window's upper bound,
/// and, with captures still to look at, never below its lower bound.
pub proof fn lemma_quiesce_window(b: BoardModel, alpha: int, beta: int, depth: nat, cfg: EvalConfig)
    requires
        alpha < beta,
    ensures
        quiesce(b, alpha, beta, depth, cfg) <= beta,
        depth > 0 ==> alpha <= quiesce(b, alpha, beta, depth, cfg),
{
    let stand_pat = evaluation_of(b, cfg);
    if stand_pat < beta && depth > 0 {
        lemma_q_loop_window(b, capture_order(b), 0, max_int(alpha, stand_pat), beta, depth, cfg);
    }
}

// ── Scoring every move ──────────────────────────────────────────────────

/// Each move that plays, with the evaluation of the position after it from
/// the mover's point of view.
pub open spec fn scored_moves(b: BoardModel, moves: Seq<Move>, cfg: EvalConfig) -> Seq<(Move, i32)>
    decreases moves.len(),
{
    if moves.len() == 0 {
        Seq::empty()
    } else {
        let rest = scored_moves(b, moves.drop_last(), cfg);
        match play_of(b, moves.last()) {
            Some(child) => rest.push((moves.last(), (-evaluation_of(child, cfg)) as i32)),
            None => rest,
        }
    }
}

/// Sorting scored moves keeps every move in the list it came from and every
/// score inside the evaluation bound.
proof fn lemma_sorted_scores_within(s: Seq<(Move, i32)>, legal: Seq<Move>)
    requires
        forall|j: int| 0 <= j < s.len() ==> legal.contains(#[trigger] s[j].0) && -eval_bound() <= s[j].1 <= eval_bound(),
    ensures
        forall|i: int| 0 <= i < sort_desc(s).len() ==> legal.contains(#[trigger] sort_desc(s)[i].0),
        forall|i: int| 0 <= i < sort_desc(s).len() ==> -eval_bound() <= #[trigger] sort_desc(s)[i].1 <= eval_bound(),
{
    lemma_sort_desc_elements(s);
    assert forall|i: int| 0 <= i < sort_desc(s).len() implies legal.contains(#[trigger] sort_desc(s)[i].0)
        && -eval_bound() <= sort_desc(s)[i].1 <= eval_bound() by {
        assert(s.contains(sort_desc(s)[i]));
        let j = choose|j: int| 0 <= j < s.len() && s[j] == sort_desc(s)[i];
        assert(legal.contains(s[j].0));
        assert(-eval_bound() <= s[j].1 <= eval_bound());
    }
    assert forall|i: int| 0 <= i < sort_desc(s).len() implies -eval_bound() <= #[trigger] sort_desc(s)[i].1
        <= eval_bound() by {
        assert(legal.contains(sort_desc(s)[i].0));
    }
}

/// Sorting scored moves whose moves are distinct keeps them distinct.
proof fn lemma_distinct_moves_sorted(s: Seq<(Move, i32)>)
    requires
        forall|j1: int, j2: int| 0 <= j1 < j2 < s.len() ==> s[j1].0 != s[j2].0,
    ensures
        forall|i: int, j: int| 0 <= i < j < sort_desc(s).len() ==> sort_desc(s)[i].0 != sort_desc(s)[j].0,
{
    broadcast use vstd::seq_lib::group_to_multiset_ensures;

    let r = sort_desc(s);
    lemma_sort_desc_permutation(s);
    lemma_sort_desc_elements(s);
    assert(s.no_duplicates()) by {
        assert forall|a: int, b: int| 0 <= a < s.len() && 0 <= b < s.len() && a != b implies s[a] != s[b] by {
            if a < b {
                assert(s[a].0 != s[b].0);
            } else {
                assert(s[b].0 != s[a].0);
            }
        }
    }
    s.lemma_multiset_has_no_duplicates();
    r.lemma_multiset_has_no_duplicates_conv();
    assert forall|i: int, j: int| 0 <= i < j < r.len() implies r[i].0 != r[j].0 by {
        assert(s.contains(r[i]));
        assert(s.contains(r[j]));
        let a = choose|a: int| 0 <= a < s.len() && s[a] == r[i];
        let b = choose|b: int| 0 <= b < s.len() && s[b] == r[j];
        assert(r[i] != r[j]);
        if a < b {
            assert(s[a].0 != s[b].0);
        } else if b < a {
            assert(s[b].0 != s[a].0);
        }
    }
}

/// Every move of the list that plays has an entry among its scored moves.
proof fn lemma_scored_has(b: BoardModel, moves: Seq<Move>, cfg: EvalConfig, m: Move)
    requires
        moves.contains(m),
        play_of(b, m) is Some,
    ensures
        exists|i: int| 0 <= i < scored_moves(b, moves, cfg).len() && #[trigger] scored_moves(b, moves, cfg)[i].0 == m,
    decreases moves.len(),
{
    let rest = scored_moves(b, moves.drop_last(), cfg);
    if moves.last() == m {
        let s = scored_moves(b, moves, cfg);
        assert(s[s.len() - 1].0 == m);
    } else {
        let k = choose|k: int| 0 <= k < moves.len() && moves[k] == m;
        assert(moves.drop_last()[k] == m);
        lemma_scored_has(b, moves.drop_last(), cfg, m);
        let i = choose|i: int| 0 <= i < rest.len() && #[trigger] rest[i].0 == m;
        let s = scored_moves(b, moves, cfg);
        assert(s[i] == rest[i]);
    }
}

/// Every legal move that plays is scored, whatever order the scores put it
/// in.
pub proof fn lemma_all_playable_scored(b: BoardModel, cfg: EvalConfig, m: Move)
    requires
        legal_moves_of(b).contains(m),
        play_of(b, m) is Some,
    ensures
        exists|i: int|
            0 <= i < sort_desc(scored_moves(b, legal_moves_of(b), cfg)).len() && #[trigger] sort_desc(
                scored_moves(b, legal_moves_of(b), cfg),
            )[i].0 == m,
{
    broadcast use vstd::seq_lib::group_to_multiset_ensures;

    let s = scored_moves(b, legal_moves_of(b), cfg);
    lemma_scored_has(b, legal_moves_of(b), cfg, m);
    let i = choose|i: int| 0 <= i < s.len() && #[trigger] s[i].0 == m;
    lemma_sort_desc_permutation(s);
    assert(s.contains(s[i]));
    assert(s.to_multiset().count(s[i]) > 0);
    assert(sort_desc(s).to_multiset().count(s[i]) > 0);
    assert(sort_desc(s).contains(s[i]));
    let j = choose|j: int| 0 <= j < sort_desc(s).len() && sort_desc(s)[j] == s[i];
    assert(sort_desc(s)[j].0 == m);
}

/// The table slot of a hash: its low bits.
pub open spec fn tt_slot(hash: u64, mask: usize) -> int {
    ((hash as usize) & mask) as int
}

/// The kind of score a searched node leaves in the table: at least `beta`
/// is a lower bound, at most `alpha` (the raised one) an upper bound,
/// anything between exact.
pub open spec fn flag_of(best: i32, alpha: i32, beta: i32) -> TTFlag {
    if best >= beta {
        TTFlag::LowerBound
    } else if best <= alpha {
        TTFlag::UpperBound
    } else {
        TTFlag::Exact
    }
}

/// Whether the table answers for a position searched to `depth` in the
/// window `alpha..beta` without a search: an entry for its hash, of enough
/// depth, exact or already outside the window.
pub open spec fn tt_answers(tt: Seq<Option<TTEntry>>, b: BoardModel, depth: nat, alpha: i32, beta: i32, mask: usize) -> bool {
    let hash = hash_of(b);
    match tt[tt_slot(hash, mask)] {
        Some(e) => e.hash == hash && e.depth >= depth && (e.flag == TTFlag::Exact || (e.flag == TTFlag::LowerBound
            && e.score >= beta) || (e.flag == TTFlag::UpperBound && e.score <= alpha)),
        None => false,
    }
}

/// The alpha-beta search of a position to `depth` in the window
/// `alpha..beta`, from the table `tt` and the node counter `nodes`: the
/// score, the table and counter after it, and the line found. `None` when
/// the search looks at the clock on the way (every 4096 nodes), so that
/// its result depends on the time.
///
/// A position without moves scores as mate or stalemate; at depth 0 the
/// quiescence search decides. Otherwise a remembered score of enough depth
/// for the same hash is used when exact or when it already falls outside
/// the window; else the moves are searched in order (the remembered move
/// first), the first with the full window, the others with a null window
/// and again with the full one when they beat `alpha`, stopping at a
/// refutation; the result is remembered.
pub open spec fn ab_node(
    b: BoardModel,
    depth: nat,
    alpha: i32,
    beta: i32,
    tt: Seq<Option<TTEntry>>,
    nodes: u64,
    cfg: DifficultyLevel,
    mask: usize,
) -> Option<(i32, Seq<Option<TTEntry>>, u64, Seq<Move>)>
    decreases depth, 1int, 0int,
{
    let n1 = next_count(nodes);
    let moves = legal_moves_of(b);
    if clock_checked(nodes) {
        None
    } else if moves.len() == 0 {
        Some((terminal_of(b) as i32, tt, n1, Seq::empty()))
    } else if depth == 0 {
        let qd = cfg.quiescence_depth as nat;
        Some(
            (
                quiesce(b, alpha as int, beta as int, qd, cfg.eval) as i32,
                tt,
                q_nodes(b, alpha as int, beta as int, qd, cfg.eval, n1),
                Seq::empty(),
            ),
        )
    } else {
        let hash = hash_of(b);
        let slot = tt_slot(hash, mask);
        let probe = tt[slot];
        let hit = probe matches Some(e) && e.hash == hash && e.depth >= depth;
        let e = probe->Some_0;
        if hit && e.flag == TTFlag::Exact {
            Some(
                (
                    e.score,
                    tt,
                    n1,
                    match e.best_move {
                        Some(m) => seq![m],
                        None => Seq::empty(),
                    },
                ),
            )
        } else if hit && ((e.flag == TTFlag::LowerBound && e.score >= beta) || (e.flag == TTFlag::UpperBound
            && e.score <= alpha)) {
            Some((e.score, tt, n1, Seq::empty()))
        } else {
            let tt_move = match probe {
                Some(p) => if p.hash == hash {
                    p.best_move
                } else {
                    None
                },
                None => None,
            };
            let ordered = moves_of(sort_desc(keyed_for_order(b, moves, tt_move)));
            match ab_loop(b, depth, ordered, 0, alpha, beta, (-i32::MAX) as i32, ordered[0], Seq::empty(), tt, n1, cfg, mask) {
                None => None,
                Some((best, bm, npv, a2, tt2, n2)) => Some(
                    (
                        best,
                        tt2.update(
                            slot,
                            Some(TTEntry { hash, depth: depth as u8, score: best, flag: flag_of(best, a2, beta), best_move: Some(bm) }),
                        ),
                        n2,
                        npv,
                    ),
                ),
            }
        }
    }
}

/// The moves from the `i`-th on, searched in turn after a best score
/// `best` for `best_move` with the line `node_pv` so far: the best score,
/// move and line, the raised `alpha`, and the table and counter after.
pub open spec fn ab_loop(
    b: BoardModel,
    depth: nat,
    moves: Seq<Move>,
    i: int,
    alpha: i32,
    beta: i32,
    best: i32,
    best_move: Move,
    node_pv: Seq<Move>,
    tt: Seq<Option<TTEntry>>,
    nodes: u64,
    cfg: DifficultyLevel,
    mask: usize,
) -> Option<(i32, Move, Seq<Move>, i32, Seq<Option<TTEntry>>, u64)>
    decreases depth, 0int, moves.len() - i,
{
    if i < 0 || i >= moves.len() || depth == 0 {
        Some((best, best_move, node_pv, alpha, tt, nodes))
    } else {
        let mv = moves[i];
        match play_of(b, mv) {
            None => ab_loop(b, depth, moves, i + 1, alpha, beta, best, best_move, node_pv, tt, nodes, cfg, mask),
            Some(child) => {
                let d1 = (depth - 1) as nat;
                let first = if i == 0 {
                    ab_node(child, d1, (-beta) as i32, (-alpha) as i32, tt, nodes, cfg, mask)
                } else {
                    ab_node(child, d1, (-alpha - 1) as i32, (-alpha) as i32, tt, nodes, cfg, mask)
                };
                match first {
                    None => None,
                    Some((s1, tt1, n1, pv1)) => {
                        let ns = (-s1) as i32;
                        let second = if i != 0 && ns > alpha && ns < beta {
                            ab_node(child, d1, (-beta) as i32, (-alpha) as i32, tt1, n1, cfg, mask)
                        } else {
                            Some((s1, tt1, n1, pv1))
                        };
                        match second {
                            None => None,
                            Some((s2, tt2, n2, pv2)) => {
                                let score = (-s2) as i32;
                                let better = score > best;
                                let best2 = if better { score } else { best };
                                let bm2 = if better { mv } else { best_move };
                                let npv2 = if better { seq![mv] + pv2 } else { node_pv };
                                let alpha2 = if score > alpha { score } else { alpha };
                                if alpha2 >= beta {
                                    Some((best2, bm2, npv2, alpha2, tt2, n2))
                                } else {
                                    ab_loop(b, depth, moves, i + 1, alpha2, beta, best2, bm2, npv2, tt2, n2, cfg, mask)
                                }
                            },
                        }
                    },
                }
            },
        }
    }
}

/// Whether the search looks at the clock and the cancel flag at the node
/// that comes after `nodes` nodes: once every 4096 nodes.
pub open spec fn clock_checked(nodes: u64) -> bool {
    (nodes as int + 1) % 4096 == 0
}

// ── The engine ──────────────────────────────────────────────────────────

/// Whether the move is legal in some position with the given hash: in the
/// position itself, unless another position shares its hash.
pub open spec fn legal_for_hash(h: u64, m: Move) -> bool {
    exists|b: BoardModel| hash_of(b) == h && #[trigger] legal_moves_of(b).contains(m)
}

/// What the transposition table remembers of a position.
#[derive(Clone, Copy)]
pub struct TTEntry {
    /// The position's hash (two positions may share one).
    pub hash: u64,
    /// The depth the position was searched to.
    pub depth: u8,
    pub score: i32,
    pub flag: TTFlag,
    /// The best move found, for ordering.
    pub best_move: Option<Move>,
}

/// What a remembered score is: exact, a lower bound or an upper bound.
#[derive(Clone, Copy, PartialEq, Eq, Debug, Structural)]
pub enum TTFlag {
    Exact,
    LowerBound,
    UpperBound,
}

pub struct SearchEngine {
    config: DifficultyLevel,
    cancel: Arc<AtomicBool>,
    nodes: u64,
    tt: Vec<Option<TTEntry>>,
    tt_mask: usize,
    /// The line found by the last completed iteration.
    best_pv: Vec<Move>,
    best_score: i32,
}

/// What iterative deepening has kept so far: the best move, its score, the
/// line that starts with it and the depth of the iteration that found it.
pub struct Deepening {
    pub best_move: Option<Move>,
    pub score: i32,
    pub pv: Vec<Move>,
    pub depth: u8,
}

/// After the iteration at `depth`, which found the line `pv` with `score`:
/// when the clock ran out or the flag was set during it (`interrupted`)
/// and an earlier iteration's line is kept, that line stays and the
/// deepening stops; otherwise a line that was found replaces the kept one
/// and the deepening goes on. Returns whether it goes on.
pub fn keep_iteration(kept: &mut Deepening, depth: u8, pv: Vec<Move>, score: i32, interrupted: bool) -> (go_on: bool)
    ensures
        interrupted && old(kept).best_move is Some ==> !go_on && *final(kept) == *old(kept),
        !(interrupted && old(kept).best_move is Some) ==> go_on,
        !(interrupted && old(kept).best_move is Some) && pv@.len() > 0 ==> final(kept).best_move == Some(pv@[0])
            && final(kept).score == score && final(kept).pv@ == pv@ && final(kept).depth == depth,
        !(interrupted && old(kept).best_move is Some) && pv@.len() == 0 ==> *final(kept) == *old(kept),
{
    if interrupted && kept.best_move.is_some() {
        return false;
    }
    if pv.len() > 0 {
        kept.best_move = Some(pv[0]);
        kept.score = score;
        kept.pv = pv;
        kept.depth = depth;
    }
    true
}

/// The result of the deepening: nothing when no line was kept, else the
/// kept move, score, line and depth with the nodes searched and the time.
pub fn deepening_result(kept: Deepening, nodes: u64, think_time: std::time::Duration) -> (r: Option<AIResult>)
    ensures
        kept.best_move is None ==> r is None,
        kept.best_move matches Some(m) ==> r matches Some(res) && res.chosen_move == m && res.eval_cp == kept.score
            && res.pv@ == kept.pv@ && res.depth_reached == kept.depth && res.nodes_searched == nodes && res.think_time
            == think_time,
{
    match kept.best_move {
        Some(mv) => Some(
            AIResult {
                chosen_move: mv,
                eval_cp: kept.score,
                nodes_searched: nodes,
                think_time,
                pv: kept.pv,
                depth_reached: kept.depth,
            },
        ),
        None => None,
    }
}

proof fn lemma_mask_in_range(h: usize, mask: usize)
    ensures
        h & mask <= mask,
{
    assert(h & mask <= mask) by (bit_vector);
}

impl SearchEngine {
    /// The table has `tt_mask + 1` entries, no remembered score is
    /// `i32::MIN` (so that every score can be negated), and a remembered
    /// move is legal in a position with the entry's hash.
    pub closed spec fn wf(self) -> bool {
        &&& self.tt@.len() == self.tt_mask + 1
        &&& forall|i: int|
            0 <= i < self.tt@.len() ==> (#[trigger] self.tt@[i] matches Some(e) ==> -i32::MAX <= e.score && (
            e.best_move matches Some(m) ==> legal_for_hash(e.hash, m)))
    }

    pub closed spec fn spec_config(&self) -> DifficultyLevel {
        self.config
    }

    pub closed spec fn spec_nodes(&self) -> u64 {
        self.nodes
    }

    pub closed spec fn spec_best_pv(&self) -> Seq<Move> {
        self.best_pv@
    }

    pub closed spec fn spec_best_score(&self) -> i32 {
        self.best_score
    }

    /// A new engine for a level, with an empty table of at least
    /// `config.tt_size` entries (a power of two).
    pub fn new(config: DifficultyLevel, cancel: Arc<AtomicBool>) -> (e: SearchEngine)
        requires
            config.tt_size <= 0x4000_0000,
        ensures
            e.spec_config() == config,
            e.spec_nodes() == 0,
            e.spec_best_pv() == Seq::<Move>::empty(),
            e.spec_best_score() == 0,
            e.wf(),
    {
        let want: usize = if config.tt_size < 1 {
            1
        } else {
            config.tt_size
        };
        let mut size: usize = 1;
        while size < want
            invariant
                1 <= size,
                want <= 0x4000_0000,
                size < 2 * want,
            decreases 2 * want - size,
        {
            size = size * 2;
        }
        let mut tt: Vec<Option<TTEntry>> = Vec::new();
        let mut i: usize = 0;
        while i < size
            invariant
                i <= size,
                tt@.len() == i,
                forall|k: int| 0 <= k < i ==> tt@[k] is None,
            decreases size - i,
        {
            tt.push(None);
            i = i + 1;
        }
        SearchEngine { config, cancel, nodes: 0, tt, tt_mask: size - 1, best_pv: Vec::new(), best_score: 0 }
    }

    /// The number of nodes searched so far.
    pub fn nodes(&self) -> (n: u64)
        ensures
            n == self.spec_nodes(),
    {
        self.nodes
    }

    /// Iterative deepening: searches depth 1, then 2, and so on up to the
    /// level's depth, stopping when time runs out or the flag is set, and
    /// returns the line of the last iteration that it kept, with that
    /// iteration's depth (see `keep_iteration`).
    pub fn iterative_deepening(&mut self, board: &Board, start: Instant) -> (r: Option<AIResult>)
        requires
            old(self).wf(),
        ensures
            final(self).wf(),
            final(self).spec_config() == old(self).spec_config(),
            old(self).spec_config().max_depth == 0 ==> r is None,
            old(self).spec_config().max_think_time_ms == 0 ==> r is None,
            r matches Some(res) ==> {
                &&& res.pv@.len() > 0
                &&& res.chosen_move == res.pv@[0]
                &&& legal_for_hash(hash_of(board@), res.chosen_move)
                &&& res.pv@ == final(self).spec_best_pv()
                &&& res.eval_cp == final(self).spec_best_score()
                &&& -i32::MAX <= res.eval_cp
                &&& res.nodes_searched == final(self).spec_nodes()
                &&& 1 <= res.depth_reached <= old(self).spec_config().max_depth
            },
    {
        let max_depth = self.config.max_depth;
        let max_time = self.config.max_think_time_ms;
        let mut kept = Deepening { best_move: None, score: 0, pv: Vec::new(), depth: 0 };
        let mut depth: u8 = 1;
        let ghost config = self.config;
        while depth <= max_depth
            invariant
                1 <= depth,
                self.wf(),
                self.config == config,
                config == old(self).config,
                config.max_depth == 0 ==> kept.best_move is None,
                config.max_think_time_ms == 0 ==> kept.best_move is None,
                max_depth == config.max_depth,
                max_time == config.max_think_time_ms,
                kept.best_move matches Some(m) ==> kept.pv@.len() > 0 && m == kept.pv@[0] && self.best_pv@
                    == kept.pv@ && self.best_score == kept.score && -i32::MAX <= kept.score && 1 <= kept.depth
                    <= depth && kept.depth <= max_depth && legal_for_hash(hash_of(board@), m),
            decreases max_depth + 1 - depth,
        {
            if elapsed_millis(&start) >= max_time as u128 {
                break;
            }
            if is_set(&self.cancel) {
                break;
            }
            let mut pv: Vec<Move> = Vec::new();
            let score = self.alpha_beta(board, depth, -i32::MAX, i32::MAX, &mut pv, &start, 0);
            let interrupted = is_set(&self.cancel) || elapsed_millis(&start) >= max_time as u128;
            let go_on = keep_iteration(&mut kept, depth, pv, score, interrupted);
            if !go_on {
                break;
            }
            self.best_pv = copy_line(&kept.pv);
            self.best_score = kept.score;
            if depth == 255 {
                break;
            }
            depth = depth + 1;
        }
        let nodes = self.nodes;
        deepening_result(kept, nodes, crate::clock::elapsed(&start))
    }

    /// Alpha-beta search with principal variation search, fail-soft, using
    /// and filling the transposition table. The line found goes into `pv`.
    /// When the search does not look at the clock on the way, it is exactly
    /// `ab_node`.
    #[verifier::spinoff_prover]
    #[verifier::rlimit(100)]
    fn alpha_beta(
        &mut self,
        board: &Board,
        depth: u8,
        alpha: i32,
        beta: i32,
        pv: &mut Vec<Move>,
        start: &Instant,
        ply: u8,
    ) -> (r: i32)
        requires
            old(self).wf(),
            -i32::MAX <= alpha < beta,
            ply as int + depth as int <= 255,
            old(pv)@.len() == 0,
        ensures
            final(self).wf(),
            -i32::MAX <= r,
            final(pv)@.len() > 0 ==> legal_for_hash(hash_of(board@), final(pv)@[0]),
            final(self).config == old(self).config,
            final(self).tt_mask == old(self).tt_mask,
            final(self).best_pv == old(self).best_pv,
            final(self).best_score == old(self).best_score,
            !clock_checked(old(self).nodes) && legal_moves_of(board@).len() == 0 ==> r == terminal_of(board@),
            !clock_checked(old(self).nodes) && legal_moves_of(board@).len() > 0 && depth == 0 ==> r == quiesce(
                board@,
                alpha as int,
                beta as int,
                old(self).config.quiescence_depth as nat,
                old(self).config.eval,
            ),
            legal_moves_of(board@).len() == 0 || depth == 0 ==> final(pv)@ == old(pv)@,
            !tt_answers(old(self).tt@, board@, depth as nat, alpha, beta, old(self).tt_mask) && final(pv)@.len() > 0
                ==> legal_moves_of(board@).contains(final(pv)@[0]),
            !clock_checked(old(self).nodes) && legal_moves_of(board@).len() > 0 && depth > 0 && !tt_answers(
                old(self).tt@,
                board@,
                depth as nat,
                alpha,
                beta,
                old(self).tt_mask,
            ) && r > -i32::MAX ==> final(pv)@.len() > 0,
            ab_node(board@, depth as nat, alpha, beta, old(self).tt@, old(self).nodes, old(self).config, old(self).tt_mask)
                matches Some(res) ==> r == res.0 && final(self).tt@ == res.1 && final(self).nodes == res.2 && final(pv)@
                == res.3,
        decreases depth,
    {
        let ghost old_nodes = self.nodes;
        let ghost tt0 = self.tt@;
        let ghost cfg = self.config;
        let ghost mask = self.tt_mask;
        let ghost model = ab_node(board@, depth as nat, alpha, beta, tt0, old_nodes, cfg, mask);
        self.nodes = self.nodes.wrapping_add(1);
        let ghost n1 = self.nodes;
        assert(n1 == next_count(old_nodes));
        assert(clock_checked(old_nodes) <==> self.nodes % 4096 == 0) by {
            if old_nodes == u64::MAX {
                assert(self.nodes == 0);
            }
        }
        if self.nodes % 4096 == 0 {
            if elapsed_millis(start) >= self.config.max_think_time_ms as u128 || is_set(&self.cancel) {
                return 0;
            }
        }
        let moves = board.legal_moves();
        if moves.len() == 0 {
            return eval_terminal(board);
        }
        if depth == 0 {
            let q = self.config.quiescence_depth;
            return self.quiescence(board, alpha, beta, q);
        }
        let hash = board.hash();
        let tt_idx: usize = (#[verifier::truncate] (hash as usize)) & self.tt_mask;
        proof {
            lemma_mask_in_range(#[verifier::truncate] (hash as usize), self.tt_mask);
        }
        let mut tt_move: Option<Move> = None;
        match self.tt[tt_idx] {
            Some(entry) => {
                if entry.hash == hash && entry.depth >= depth {
                    match entry.flag {
                        TTFlag::Exact => {
                            match entry.best_move {
                                Some(mv) => pv.push(mv),
                                None => {},
                            }
                            return entry.score;
                        },
                        TTFlag::LowerBound => {
                            if entry.score >= beta {
                                return entry.score;
                            }
                        },
                        TTFlag::UpperBound => {
                            if entry.score <= alpha {
                                return entry.score;
                            }
                        },
                    }
                }
                if entry.hash == hash {
                    tt_move = entry.best_move;
                }
            },
            None => {},
        }
        proof {
            let probe = tt0[tt_slot(hash, mask)];
            assert(self.tt@ == tt0);
            assert(tt_idx == tt_slot(hash, mask));
            assert(tt_move == match probe {
                Some(p) => if p.hash == hash {
                    p.best_move
                } else {
                    None
                },
                None => None,
            });
        }
        let legal = moves;
        let moves = self.order_moves(&legal, board, tt_move);
        proof {
            lemma_sort_desc_elements(keyed_for_order(board@, legal@, tt_move));
            assert forall|k: int| 0 <= k < moves@.len() implies legal_moves_of(board@).contains(#[trigger] moves@[k]) by {
                let kf = keyed_for_order(board@, legal@, tt_move);
                let p = sort_desc(kf)[k];
                assert(kf.contains(p));
                let j = choose|j: int| 0 <= j < kf.len() && kf[j] == p;
                assert(legal@[j] == p.0);
            }
        }
        let ghost alpha0 = alpha;
        let mut alpha = alpha;
        let mut best_score: i32 = -i32::MAX;
        let mut best_move = moves[0];
        let mut node_pv: Vec<Move> = Vec::new();
        let mut i: usize = 0;
        let ghost config = self.config;
        let ghost start_loop = ab_loop(
            board@,
            depth as nat,
            moves@,
            0,
            alpha0,
            beta,
            (-i32::MAX) as i32,
            moves@[0],
            Seq::empty(),
            tt0,
            n1,
            cfg,
            mask,
        );
        assert(node_pv@ == Seq::<Move>::empty());
        while i < moves.len()
            invariant_except_break
                i > 0 ==> alpha < beta,
                alpha < beta || i > 0,
                start_loop is Some ==> start_loop == ab_loop(
                    board@,
                    depth as nat,
                    moves@,
                    i as int,
                    alpha,
                    beta,
                    best_score,
                    best_move,
                    node_pv@,
                    self.tt@,
                    self.nodes,
                    cfg,
                    mask,
                ),
            invariant
                cfg == config,
                mask == self.tt_mask,
                i <= moves.len(),
                moves.len() > 0,
                depth > 0,
                ply as int + depth as int <= 255,
                self.config == config,
                config == old(self).config,
                self.wf(),
                self.tt_mask == old(self).tt_mask,
                self.best_pv == old(self).best_pv,
                self.best_score == old(self).best_score,
                -i32::MAX <= alpha,
                -i32::MAX <= best_score,
                tt_idx < self.tt@.len(),
                hash == hash_of(board@),
                forall|k: int| 0 <= k < moves@.len() ==> legal_moves_of(board@).contains(#[trigger] moves@[k]),
                legal_moves_of(board@).contains(best_move),
                node_pv@.len() > 0 ==> node_pv@[0] == best_move,
                best_score > -i32::MAX ==> node_pv@.len() > 0,
            ensures
                start_loop is Some ==> start_loop == Some((best_score, best_move, node_pv@, alpha, self.tt@, self.nodes)),
            decreases moves.len() - i,
        {
            let mv = moves[i];
            let ghost a_i = alpha;
            let ghost b_i = best_score;
            let ghost bm_i = best_move;
            let ghost npv_i = node_pv@;
            let ghost tt_i = self.tt@;
            let ghost n_i = self.nodes;
            let ghost at_i = ab_loop(board@, depth as nat, moves@, i as int, a_i, beta, b_i, bm_i, npv_i, tt_i, n_i, cfg, mask);
            match board.play(mv) {
                None => {
                    assert(at_i == ab_loop(board@, depth as nat, moves@, i + 1, a_i, beta, b_i, bm_i, npv_i, tt_i, n_i, cfg, mask));
                },
                Some(child) => {
                    let ghost d1 = (depth - 1) as nat;
                    let mut child_pv: Vec<Move> = Vec::new();
                    let score: i32;
                    let ghost first: Option<(i32, Seq<Option<TTEntry>>, u64, Seq<Move>)>;
                    if i == 0 {
                        proof {
                            first = ab_node(child@, d1, (-beta) as i32, (-a_i) as i32, tt_i, n_i, cfg, mask);
                        }
                        let s = self.alpha_beta(&child, depth - 1, -beta, -alpha, &mut child_pv, start, ply + 1);
                        score = -s;
                        proof {
                            if at_i is Some {
                                assert(first is Some);
                                assert(at_i == {
                                    let better = score > b_i;
                                    let best2 = if better { score } else { b_i };
                                    let bm2 = if better { mv } else { bm_i };
                                    let npv2 = if better { seq![mv] + child_pv@ } else { npv_i };
                                    let alpha2 = if score > a_i { score } else { a_i };
                                    if alpha2 >= beta {
                                        Some((best2, bm2, npv2, alpha2, self.tt@, self.nodes))
                                    } else {
                                        ab_loop(board@, depth as nat, moves@, i + 1, alpha2, beta, best2, bm2, npv2, self.tt@, self.nodes, cfg, mask)
                                    }
                                });
                            }
                        }
                    } else {
                        proof {
                            first = ab_node(child@, d1, (-a_i - 1) as i32, (-a_i) as i32, tt_i, n_i, cfg, mask);
                        }
                        let s = self.alpha_beta(&child, depth - 1, -alpha - 1, -alpha, &mut child_pv, start, ply + 1);
                        let mut null_score = -s;
                        let ghost tt_m = self.tt@;
                        let ghost n_m = self.nodes;
                        let ghost research = null_score > alpha && null_score < beta;
                        if null_score > alpha && null_score < beta {
                            child_pv = Vec::new();
                            let s2 = self.alpha_beta(&child, depth - 1, -beta, -alpha, &mut child_pv, start, ply + 1);
                            null_score = -s2;
                        }
                        score = null_score;
                        proof {
                            if at_i is Some {
                                assert(first is Some);
                                if research {
                                    assert(ab_node(child@, d1, (-beta) as i32, (-a_i) as i32, tt_m, n_m, cfg, mask) is Some);
                                }
                                assert(at_i == {
                                    let better = score > b_i;
                                    let best2 = if better { score } else { b_i };
                                    let bm2 = if better { mv } else { bm_i };
                                    let npv2 = if better { seq![mv] + child_pv@ } else { npv_i };
                                    let alpha2 = if score > a_i { score } else { a_i };
                                    if alpha2 >= beta {
                                        Some((best2, bm2, npv2, alpha2, self.tt@, self.nodes))
                                    } else {
                                        ab_loop(board@, depth as nat, moves@, i + 1, alpha2, beta, best2, bm2, npv2, self.tt@, self.nodes, cfg, mask)
                                    }
                                });
                            }
                        }
                    }
                    if score > best_score {
                        best_score = score;
                        best_move = mv;
                        node_pv = prepend_move(mv, &child_pv);
                    }
                    if score > alpha {
                        alpha = score;
                    }
                    if alpha >= beta {
                        break;
                    }
                },
            }
            i = i + 1;
        }
        let flag = if best_score >= beta {
            TTFlag::LowerBound
        } else if best_score <= alpha {
            TTFlag::UpperBound
        } else {
            TTFlag::Exact
        };
        proof {
            assert(hash_of(board@) == hash && legal_moves_of(board@).contains(best_move));
            assert(legal_for_hash(hash, best_move));
        }
        proof {
            if model is Some {
                assert(start_loop is Some);
                assert(flag == flag_of(best_score, alpha, beta));
            }
        }
        self.tt.set(tt_idx, Some(TTEntry { hash, depth, score: best_score, flag, best_move: Some(best_move) }));
        *pv = node_pv;
        best_score
    }

    /// Quiescence search: only captures are searched, so that the search
    /// does not stop just before an exchange.
    fn quiescence(&mut self, board: &Board, alpha0: i32, beta: i32, depth_remaining: u8) -> (r: i32)
        requires
            old(self).wf(),
            -i32::MAX <= alpha0,
            -i32::MAX <= beta,
        ensures
            final(self).wf(),
            r == quiesce(board@, alpha0 as int, beta as int, depth_remaining as nat, old(self).config.eval),
            final(self).nodes == q_nodes(
                board@,
                alpha0 as int,
                beta as int,
                depth_remaining as nat,
                old(self).config.eval,
                old(self).nodes,
            ),
            -i32::MAX <= r,
            final(self).config == old(self).config,
            final(self).tt_mask == old(self).tt_mask,
            final(self).tt == old(self).tt,
            final(self).best_pv == old(self).best_pv,
            final(self).best_score == old(self).best_score,
        decreases depth_remaining,
    {
        let ghost nodes0 = self.nodes;
        self.nodes = self.nodes.wrapping_add(1);
        assert(self.nodes == next_count(nodes0));
        let stand_pat = evaluate(board, &self.config.eval);
        if stand_pat >= beta {
            return beta;
        }
        let mut alpha = alpha0;
        if stand_pat > alpha {
            alpha = stand_pat;
        }
        if depth_remaining == 0 {
            return stand_pat;
        }
        let caps = self.ordered_captures(board);
        let ghost config = self.config;
        let mut k: usize = 0;
        while k < caps.len()
            invariant
                k <= caps.len(),
                depth_remaining > 0,
                self.config == config,
                config == old(self).config,
                self.wf(),
                self.tt_mask == old(self).tt_mask,
                self.tt == old(self).tt,
                self.best_pv == old(self).best_pv,
                self.best_score == old(self).best_score,
                caps@ == capture_order(board@),
                -i32::MAX <= alpha,
                -i32::MAX <= beta,
                quiesce(board@, alpha0 as int, beta as int, depth_remaining as nat, config.eval) == q_loop(
                    board@,
                    caps@,
                    k as int,
                    alpha as int,
                    beta as int,
                    depth_remaining as nat,
                    config.eval,
                ),
                nodes0 == old(self).nodes,
                q_nodes(board@, alpha0 as int, beta as int, depth_remaining as nat, config.eval, nodes0) == q_loop_nodes(
                    board@,
                    caps@,
                    k as int,
                    alpha as int,
                    beta as int,
                    depth_remaining as nat,
                    config.eval,
                    self.nodes,
                ),
            decreases caps.len() - k,
        {
            let mv = caps[k];
            match board.play(mv) {
                None => {},
                Some(child) => {
                    let s = self.quiescence(&child, -beta, -alpha, depth_remaining - 1);
                    let score = -s;
                    if score >= beta {
                        return beta;
                    }
                    if score > alpha {
                        alpha = score;
                    }
                },
            }
            k = k + 1;
        }
        alpha
    }

    /// The legal captures, best victim first (a stable sort).
    fn ordered_captures(&self, board: &Board) -> (r: Vec<Move>)
        ensures
            r@ == capture_order(board@),
    {
        let moves = board.legal_moves();
        let mut keyed: Vec<(Move, i32)> = Vec::new();
        let mut i: usize = 0;
        while i < moves.len()
            invariant
                i <= moves.len(),
                moves@ == legal_moves_of(board@),
                keyed@ == keyed_by_mvv_lva(board@, captures_in(board@, moves@.take(i as int))),
            decreases moves.len() - i,
        {
            let mv = moves[i];
            assert(moves@.take(i + 1).drop_last() =~= moves@.take(i as int));
            if is_capture_exec(board, mv) {
                let score = self.mvv_lva_score(board, mv);
                keyed.push((mv, score));
            }
            assert(keyed@ =~= keyed_by_mvv_lva(board@, captures_in(board@, moves@.take(i + 1))));
            i = i + 1;
        }
        assert(moves@.take(moves.len() as int) =~= moves@);
        let sorted = sort_by_score_desc(&keyed);
        first_of_pairs(&sorted)
    }

    /// Orders moves for the search: the table's move first, then captures
    /// by MVV-LVA, then the rest (a stable sort).
    fn order_moves(&self, moves: &Vec<Move>, board: &Board, tt_move: Option<Move>) -> (r: Vec<Move>)
        ensures
            r@ == moves_of(sort_desc(keyed_for_order(board@, moves@, tt_move))),
    {
        let mut keyed: Vec<(Move, i32)> = Vec::new();
        let mut i: usize = 0;
        while i < moves.len()
            invariant
                i <= moves.len(),
                keyed@ == keyed_for_order(board@, moves@.take(i as int), tt_move),
            decreases moves.len() - i,
        {
            let mv = moves[i];
            let score = self.move_order_score(board, mv, tt_move);
            keyed.push((mv, score));
            assert(keyed@ =~= keyed_for_order(board@, moves@.take(i + 1), tt_move));
            i = i + 1;
        }
        assert(moves@.take(moves.len() as int) =~= moves@);
        let sorted = sort_by_score_desc(&keyed);
        first_of_pairs(&sorted)
    }

    fn move_order_score(&self, board: &Board, mv: Move, tt_move: Option<Move>) -> (s: i32)
        ensures
            s == order_score(board@, mv, tt_move),
    {
        if tt_move == Some(mv) {
            return 100_000;
        }
        let mut score: i32 = 0;
        if is_capture_exec(board, mv) {
            score = score + 10_000 + self.mvv_lva_score(board, mv);
        }
        if mv.promotion.is_some() {
            score = score + 9_000;
        }
        score
    }

    fn mvv_lva_score(&self, board: &Board, mv: Move) -> (s: i32)
        ensures
            s == mvv_lva(board@, mv),
            -20_000 <= s <= 200_000,
    {
        let victim = self.piece_on_square(board, mv.to);
        let attacker = self.piece_on_square(board, mv.from);
        victim * 10 - attacker
    }

    fn piece_on_square(&self, board: &Board, sq: Square) -> (v: i32)
        ensures
            v == value_on(board@, sq),
            0 <= v <= 20_000,
    {
        match board.at(sq) {
            Some((_, p)) => match p {
                Piece::Pawn => PAWN_VALUE,
                Piece::Knight => KNIGHT_VALUE,
                Piece::Bishop => BISHOP_VALUE,
                Piece::Rook => ROOK_VALUE,
                Piece::Queen => QUEEN_VALUE,
                Piece::King => KING_VALUE,
            },
            None => 0,
        }
    }

    /// Every move that plays, with the evaluation of the position after it
    /// from the mover's point of view, best first (a stable sort).
    #[verifier::spinoff_prover]
    #[verifier::rlimit(60)]
    pub fn evaluate_all_moves(&self, board: &Board) -> (r: Vec<(Move, i32)>)
        ensures
            r@ == sort_desc(scored_moves(board@, legal_moves_of(board@), self.spec_config().eval)),
            forall|i: int| 0 <= i < r@.len() ==> legal_moves_of(board@).contains(#[trigger] r@[i].0),
            forall|i: int| 0 <= i < r@.len() ==> -eval_bound() <= #[trigger] r@[i].1 <= eval_bound(),
            forall|m: Move|
                legal_moves_of(board@).contains(m) && #[trigger] play_of(board@, m) is Some ==> exists|i: int|
                    0 <= i < r@.len() && r@[i].0 == m,
            forall|i: int, j: int| 0 <= i < j < r@.len() ==> r@[i].0 != r@[j].0,
    {
        let moves = board.legal_moves();
        let mut scored: Vec<(Move, i32)> = Vec::new();
        let mut i: usize = 0;
        while i < moves.len()
            invariant
                i <= moves.len(),
                moves@ == legal_moves_of(board@),
                scored@ == scored_moves(board@, moves@.take(i as int), self.config.eval),
                forall|j: int|
                    0 <= j < scored@.len() ==> moves@.contains(#[trigger] scored@[j].0) && -eval_bound()
                        <= scored@[j].1 <= eval_bound(),
                moves@.no_duplicates(),
                forall|j: int| 0 <= j < scored@.len() ==> moves@.take(i as int).contains(#[trigger] scored@[j].0),
                forall|j1: int, j2: int| 0 <= j1 < j2 < scored@.len() ==> scored@[j1].0 != scored@[j2].0,
            decreases moves.len() - i,
        {
            let mv = moves[i];
            let ghost before_step = scored@;
            assert(moves@.take(i + 1).drop_last() =~= moves@.take(i as int));
            assert(!moves@.take(i as int).contains(mv)) by {
                if moves@.take(i as int).contains(mv) {
                    let k = choose|k: int| 0 <= k < i && moves@.take(i as int)[k] == mv;
                    assert(moves@[k] == moves@[i as int]);
                }
            }
            assert forall|j: int| 0 <= j < before_step.len() implies moves@.take(i + 1).contains(#[trigger] before_step[j].0) by {
                let k = choose|k: int| 0 <= k < i && moves@.take(i as int)[k] == before_step[j].0;
                assert(moves@.take(i + 1)[k] == before_step[j].0);
            }
            assert(moves@.take(i + 1)[i as int] == mv);
            match board.play(mv) {
                Some(child) => {
                    let e = evaluate(&child, &self.config.eval);
                    assert(moves@[i as int] == mv);
                    assert(moves@.contains(mv));
                    let ghost before = scored@;
                    scored.push((mv, -e));
                    assert forall|j: int| 0 <= j < scored@.len() implies moves@.contains(#[trigger] scored@[j].0)
                        && -eval_bound() <= scored@[j].1 <= eval_bound() by {
                        if j < before.len() {
                            assert(scored@[j] == before[j]);
                        }
                    }
                    assert forall|j: int| 0 <= j < scored@.len() implies moves@.take(i + 1).contains(#[trigger] scored@[j].0) by {
                        if j < before.len() {
                            assert(scored@[j] == before[j]);
                        }
                    }
                    assert forall|j1: int, j2: int| 0 <= j1 < j2 < scored@.len() implies scored@[j1].0 != scored@[j2].0 by {
                        assert(scored@[j1] == before[j1]);
                        if j2 < before.len() {
                            assert(scored@[j2] == before[j2]);
                        } else {
                            assert(moves@.take(i as int).contains(before[j1].0));
                        }
                    }
                },
                None => {},
            }
            assert(forall|j: int|
                0 <= j < scored@.len() ==> moves@.contains(#[trigger] scored@[j].0) && -eval_bound()
                    <= scored@[j].1 <= eval_bound());
            i = i + 1;
        }
        assert(moves@.take(moves.len() as int) =~= moves@);
        let r = sort_by_score_desc(&scored);
        proof {
            lemma_sorted_scores_within(scored@, moves@);
            assert forall|m: Move| legal_moves_of(board@).contains(m) && #[trigger] play_of(board@, m) is Some implies exists|i: int|
                0 <= i < r@.len() && r@[i].0 == m by {
                lemma_all_playable_scored(board@, self.config.eval, m);
            }
            lemma_distinct_moves_sorted(scored@);
        }
        r
    }
}

/// Whether a move captures a piece of the side not to move.
fn is_capture_exec(board: &Board, mv: Move) -> (r: bool)
    ensures
        r == is_capture(board@, mv),
{
    match board.at(mv.to) {
        Some((c, _)) => c == board.side_to_move().opponent(),
        None => false,
    }
}

/// The moves of a list of scored moves.
fn first_of_pairs(v: &Vec<(Move, i32)>) -> (r: Vec<Move>)
    ensures
        r@ == moves_of(v@),
{
    let mut out: Vec<Move> = Vec::new();
    let mut i: usize = 0;
    while i < v.len()
        invariant
            i <= v.len(),
            out@ == moves_of(v@.take(i as int)),
        decreases v.len() - i,
    {
        out.push(v[i].0);
        assert(out@ =~= moves_of(v@.take(i + 1)));
        i = i + 1;
    }
    assert(v@.take(v.len() as int) =~= v@);
    out
}

/// A line that starts with a move and goes on with another line.
fn prepend_move(mv: Move, rest: &Vec<Move>) -> (r: Vec<Move>)
    ensures
        r@ == seq![mv] + rest@,
{
    let mut out: Vec<Move> = Vec::new();
    out.push(mv);
    let mut i: usize = 0;
    while i < rest.len()
        invariant
            i <= rest.len(),
            out@ == seq![mv] + rest@.take(i as int),
        decreases rest.len() - i,
    {
        out.push(rest[i]);
        assert(out@ =~= seq![mv] + rest@.take(i + 1));
        i = i + 1;
    }
    assert(rest@.take(rest.len() as int) =~= rest@);
    out
}

/// A copy of a line.
fn copy_line(v: &Vec<Move>) -> (r: Vec<Move>)
    ensures
        r@ == v@,
{
    let mut out: Vec<Move> = Vec::new();
    let mut i: usize = 0;
    while i < v.len()
        invariant
            i <= v.len(),
            out@ == v@.take(i as int),
        decreases v.len() - i,
    {
        out.push(v[i]);
        assert(out@ =~= v@.take(i + 1));
        i = i + 1;
    }
    assert(v@.take(v.len() as int) =~= v@);
    out
}

} // verus!
