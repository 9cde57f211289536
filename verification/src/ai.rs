//! A simple opponent: a three-ply minimax with alpha-beta pruning over
//! material and the four center squares.
use vstd::prelude::*;
use crate::chess::types::{Color, Move, Piece};
use crate::chess::board::{in_check_of, legal_moves_of, play_of, Board, BoardModel};
use crate::engine::evaluation::{count_of, count_pieces, lemma_count_pieces_placed, owns, owns_exec, Squares};

verus! {

/// How many plies the simple opponent looks ahead.
pub const DEPTH: u8 = 3;

/// The value of a piece for the simple opponent (the king counts nothing).
pub open spec fn simple_value(p: Piece) -> int {
    match p {
        Piece::Pawn => 100,
        Piece::Knight => 320,
        Piece::Bishop => 330,
        Piece::Rook => 500,
        Piece::Queen => 900,
        Piece::King => 0,
    }
}

pub fn piece_value(piece: Piece) -> (v: i32)
    ensures
        v == simple_value(piece),
{
    match piece {
        Piece::Pawn => 100,
        Piece::Knight => 320,
        Piece::Bishop => 330,
        Piece::Rook => 500,
        Piece::Queen => 900,
        Piece::King => 0,
    }
}

/// White's material lead in one kind of piece.
pub open spec fn material_lead(b: Squares, p: Piece) -> int {
    simple_value(p) * (count_pieces(b, Color::White, p, 64) - count_pieces(b, Color::Black, p, 64))
}

/// How many of d4, d5, e4 and e5 the color occupies.
pub open spec fn center_count(b: Squares, c: Color) -> int {
    (if owns(b, 27, c) { 1int } else { 0int }) + (if owns(b, 35, c) { 1int } else { 0int }) + (if owns(b, 28, c) {
        1int
    } else {
        0int
    }) + (if owns(b, 36, c) { 1int } else { 0int })
}

/// The evaluation from White's side: the material lead, and 10 for each
/// center square more than Black occupies.
pub open spec fn simple_eval(b: Squares) -> int {
    material_lead(b, Piece::Pawn) + material_lead(b, Piece::Knight) + material_lead(b, Piece::Bishop)
        + material_lead(b, Piece::Rook) + material_lead(b, Piece::Queen) + 10 * (center_count(b, Color::White)
        - center_count(b, Color::Black))
}

/// Whether a square index is one of d4, e4, d5 and e5.
pub open spec fn is_center(i: int) -> bool {
    i == 27 || i == 28 || i == 35 || i == 36
}

proof fn lemma_lead_placed(b: Squares, i: int, c: Color, p: Piece, q: Piece)
    requires
        b.len() == 64,
        0 <= i < 64,
        b[i] is None,
    ensures
        material_lead(b.update(i, Some((c, p))), q) == material_lead(b, q) + if q == p {
            (if c == Color::White { 1int } else { -1int }) * simple_value(q)
        } else {
            0int
        },
{
    let b2 = b.update(i, Some((c, p)));
    lemma_count_pieces_placed(b, i, c, p, Color::White, q, 64);
    lemma_count_pieces_placed(b, i, c, p, Color::Black, q, 64);
    let v = simple_value(q);
    let w = count_pieces(b, Color::White, q, 64);
    let k = count_pieces(b, Color::Black, q, 64);
    let w2 = count_pieces(b2, Color::White, q, 64);
    let k2 = count_pieces(b2, Color::Black, q, 64);
    let d = (w2 - k2) - (w - k);
    assert(v * (w2 - k2) == v * (w - k) + v * d) by (nonlinear_arith)
        requires
            d == (w2 - k2) - (w - k),
    ;
    let e: int = if q == p { if c == Color::White { 1int } else { -1int } } else { 0int };
    assert(d == e);
    assert(v * d == e * v) by (nonlinear_arith)
        requires
            d == e,
    ;
}

/// The simple evaluation adds up the pieces: putting a piece on an empty
/// square changes it by the piece's value, and by 10 more on a center
/// square, upward for White and downward for Black.
pub proof fn lemma_simple_eval_counts_each_piece(b: Squares, i: int, c: Color, p: Piece)
    requires
        b.len() == 64,
        0 <= i < 64,
        b[i] is None,
    ensures
        simple_eval(b.update(i, Some((c, p)))) == simple_eval(b) + (if c == Color::White { 1int } else { -1int }) * (
        simple_value(p) + if is_center(i) { 10int } else { 0int }),
{
    let b2 = b.update(i, Some((c, p)));
    lemma_lead_placed(b, i, c, p, Piece::Pawn);
    lemma_lead_placed(b, i, c, p, Piece::Knight);
    lemma_lead_placed(b, i, c, p, Piece::Bishop);
    lemma_lead_placed(b, i, c, p, Piece::Rook);
    lemma_lead_placed(b, i, c, p, Piece::Queen);
    assert(center_count(b2, c) == center_count(b, c) + if is_center(i) { 1int } else { 0int });
    assert(center_count(b2, c.spec_opponent()) == center_count(b, c.spec_opponent()));
    let lead_change = if p == Piece::King { 0int } else { (if c == Color::White { 1int } else { -1int }) * simple_value(p) };
    assert(material_lead(b2, Piece::Pawn) + material_lead(b2, Piece::Knight) + material_lead(b2, Piece::Bishop)
        + material_lead(b2, Piece::Rook) + material_lead(b2, Piece::Queen) == material_lead(b, Piece::Pawn)
        + material_lead(b, Piece::Knight) + material_lead(b, Piece::Bishop) + material_lead(b, Piece::Rook)
        + material_lead(b, Piece::Queen) + lead_change);
    if c == Color::White {
        assert(simple_eval(b2) == simple_eval(b) + simple_value(p) + if is_center(i) { 10int } else { 0int });
    } else {
        assert(simple_eval(b2) == simple_eval(b) - simple_value(p) - if is_center(i) { 10int } else { 0int });
    }
}

fn center_count_exec(board: &Board, c: Color) -> (n: i32)
    ensures
        n == center_count(board@.squares, c),
        0 <= n <= 4,
{
    let mut n: i32 = 0;
    if owns_exec(board, 27, c) {
        n = n + 1;
    }
    if owns_exec(board, 35, c) {
        n = n + 1;
    }
    if owns_exec(board, 28, c) {
        n = n + 1;
    }
    if owns_exec(board, 36, c) {
        n = n + 1;
    }
    n
}

fn lead(board: &Board, piece: Piece) -> (s: i32)
    ensures
        s == material_lead(board@.squares, piece),
        -57600 <= s <= 57600,
{
    let val = piece_value(piece);
    let white = count_of(board, Color::White, piece);
    let black = count_of(board, Color::Black, piece);
    assert(-57600 <= val * (white - black) <= 57600) by (nonlinear_arith)
        requires
            0 <= val <= 900,
            0 <= white <= 64,
            0 <= black <= 64,
    ;
    val * (white - black)
}

pub fn evaluate(board: &Board) -> (s: i32)
    ensures
        s == simple_eval(board@.squares),
{
    let material = lead(board, Piece::Pawn) + lead(board, Piece::Knight) + lead(board, Piece::Bishop) + lead(
        board,
        Piece::Rook,
    ) + lead(board, Piece::Queen);
    let white_center = center_count_exec(board, Color::White);
    let black_center = center_count_exec(board, Color::Black);
    material + 10 * (white_center - black_center)
}

pub open spec fn max_of(a: int, b: int) -> int {
    if a >= b {
        a
    } else {
        b
    }
}

pub open spec fn min_of(a: int, b: int) -> int {
    if a <= b {
        a
    } else {
        b
    }
}

/// The minimax value with alpha-beta pruning, as the simple opponent
/// computes it: at depth 0 the evaluation; without legal moves -100000 or
/// 100000 against the side in checkmate, 0 in stalemate.
pub open spec fn minimax_of(b: BoardModel, depth: nat, alpha: int, beta: int, maximizing: bool) -> int
    decreases depth, 1int, 0int,
{
    if depth == 0 {
        simple_eval(b.squares)
    } else if legal_moves_of(b).len() == 0 {
        if in_check_of(b) {
            if maximizing {
                -100_000
            } else {
                100_000
            }
        } else {
            0
        }
    } else {
        mm_loop(
            b,
            legal_moves_of(b),
            0,
            depth,
            alpha,
            beta,
            maximizing,
            if maximizing { i32::MIN as int } else { i32::MAX as int },
        )
    }
}

/// The moves from the `k`-th on, with the best value so far and the
/// window narrowed so far; a cut-off ends the loop.
pub open spec fn mm_loop(
    b: BoardModel,
    moves: Seq<Move>,
    k: int,
    depth: nat,
    alpha: int,
    beta: int,
    maximizing: bool,
    best: int,
) -> int
    decreases depth, 0int, moves.len() - k,
{
    if k < 0 || k >= moves.len() || depth == 0 {
        best
    } else {
        match play_of(b, moves[k]) {
            None => mm_loop(b, moves, k + 1, depth, alpha, beta, maximizing, best),
            Some(next) => {
                let score = minimax_of(next, (depth - 1) as nat, alpha, beta, !maximizing);
                if maximizing {
                    let a = max_of(alpha, score);
                    if beta <= a {
                        max_of(best, score)
                    } else {
                        mm_loop(b, moves, k + 1, depth, a, beta, maximizing, max_of(best, score))
                    }
                } else {
                    let bb = min_of(beta, score);
                    if bb <= alpha {
                        min_of(best, score)
                    } else {
                        mm_loop(b, moves, k + 1, depth, alpha, bb, maximizing, min_of(best, score))
                    }
                }
            },
        }
    }
}

pub fn minimax(board: &Board, depth: u8, alpha0: i32, beta0: i32, maximizing: bool) -> (r: i32)
    ensures
        r == minimax_of(board@, depth as nat, alpha0 as int, beta0 as int, maximizing),
    decreases depth,
{
    if depth == 0 {
        return evaluate(board);
    }
    let legal = board.legal_moves();
    if legal.len() == 0 {
        return if board.in_check() {
            if maximizing {
                -100_000
            } else {
                100_000
            }
        } else {
            0
        };
    }
    let mut alpha = alpha0;
    let mut beta = beta0;
    let mut best: i32 = if maximizing {
        i32::MIN
    } else {
        i32::MAX
    };
    let mut k: usize = 0;
    while k < legal.len()
        invariant
            k <= legal.len(),
            depth > 0,
            legal@ == legal_moves_of(board@),
            minimax_of(board@, depth as nat, alpha0 as int, beta0 as int, maximizing) == mm_loop(
                board@,
                legal@,
                k as int,
                depth as nat,
                alpha as int,
                beta as int,
                maximizing,
                best as int,
            ),
        decreases legal.len() - k,
    {
        match board.play(legal[k]) {
            None => {},
            Some(next) => {
                let score = minimax(&next, depth - 1, alpha, beta, !maximizing);
                if maximizing {
                    if score > best {
                        best = score;
                    }
                    if score > alpha {
                        alpha = score;
                    }
                    if beta <= alpha {
                        return best;
                    }
                } else {
                    if score < best {
                        best = score;
                    }
                    if score < beta {
                        beta = score;
                    }
                    if beta <= alpha {
                        return best;
                    }
                }
            },
        }
        k = k + 1;
    }
    best
}

/// The simple opponent's choice among the moves from the `k`-th on: the
/// first move with the strictly best value for the side to move.
pub open spec fn choose_loop(b: BoardModel, moves: Seq<Move>, k: int, maximizing: bool, best: int, best_move: Move) -> Move
    decreases moves.len() - k,
{
    if k < 0 || k >= moves.len() {
        best_move
    } else {
        match play_of(b, moves[k]) {
            None => choose_loop(b, moves, k + 1, maximizing, best, best_move),
            Some(next) => {
                let score = minimax_of(next, (DEPTH - 1) as nat, i32::MIN as int, i32::MAX as int, !maximizing);
                if (maximizing && score > best) || (!maximizing && score < best) {
                    choose_loop(b, moves, k + 1, maximizing, score, moves[k])
                } else {
                    choose_loop(b, moves, k + 1, maximizing, best, best_move)
                }
            },
        }
    }
}

/// The simple opponent's move: `None` without legal moves.
pub open spec fn choose_move_of(b: BoardModel) -> Option<Move> {
    let moves = legal_moves_of(b);
    if moves.len() == 0 {
        None
    } else {
        let maximizing = b.side == Color::White;
        Some(
            choose_loop(
                b,
                moves,
                0,
                maximizing,
                if maximizing { i32::MIN as int } else { i32::MAX as int },
                moves[0],
            ),
        )
    }
}

proof fn lemma_choose_loop_member(b: BoardModel, moves: Seq<Move>, k: int, maximizing: bool, best: int, best_move: Move)
    requires
        moves.contains(best_move),
    ensures
        moves.contains(choose_loop(b, moves, k, maximizing, best, best_move)),
    decreases moves.len() - k,
{
    if 0 <= k < moves.len() {
        assert(moves.contains(moves[k]));
        match play_of(b, moves[k]) {
            None => lemma_choose_loop_member(b, moves, k + 1, maximizing, best, best_move),
            Some(next) => {
                let score = minimax_of(next, (DEPTH - 1) as nat, i32::MIN as int, i32::MAX as int, !maximizing);
                lemma_choose_loop_member(b, moves, k + 1, maximizing, score, moves[k]);
                lemma_choose_loop_member(b, moves, k + 1, maximizing, best, best_move);
            },
        }
    }
}

/// The simple opponent answers with a legal move exactly when there is one.
pub proof fn lemma_choose_move_legal(b: BoardModel)
    ensures
        choose_move_of(b) is None <==> legal_moves_of(b).len() == 0,
        choose_move_of(b) matches Some(m) ==> legal_moves_of(b).contains(m),
{
    let moves = legal_moves_of(b);
    if moves.len() > 0 {
        assert(moves.contains(moves[0]));
        let maximizing = b.side == Color::White;
        lemma_choose_loop_member(
            b,
            moves,
            0,
            maximizing,
            if maximizing { i32::MIN as int } else { i32::MAX as int },
            moves[0],
        );
    }
}

/// The simple opponent's move for a position; `None` without legal moves.
pub fn choose_move(board: &Board) -> (r: Option<Move>)
    ensures
        r == choose_move_of(board@),
        r matches Some(m) ==> legal_moves_of(board@).contains(m),
{
    proof {
        lemma_choose_move_legal(board@);
    }
    let legal = board.legal_moves();
    if legal.len() == 0 {
        return None;
    }
    let maximizing = board.side_to_move() == Color::White;
    let mut best_move = legal[0];
    let mut best_score: i32 = if maximizing {
        i32::MIN
    } else {
        i32::MAX
    };
    let mut k: usize = 0;
    while k < legal.len()
        invariant
            k <= legal.len(),
            legal@ == legal_moves_of(board@),
            legal@.len() > 0,
            maximizing == (board@.side == Color::White),
            choose_move_of(board@) == Some(
                choose_loop(board@, legal@, k as int, maximizing, best_score as int, best_move),
            ),
        decreases legal.len() - k,
    {
        let mv = legal[k];
        match board.play(mv) {
            None => {},
            Some(next) => {
                let score = minimax(&next, DEPTH - 1, i32::MIN, i32::MAX, !maximizing);
                if maximizing && score > best_score || !maximizing && score < best_score {
                    best_score = score;
                    best_move = mv;
                }
            },
        }
        k = k + 1;
    }
    Some(best_move)
}

} // verus!
