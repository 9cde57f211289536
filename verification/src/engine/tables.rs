//! Material values, bonuses and piece-square tables (PSTs).
//!
//! Each table is from White's perspective, indexed 0..64 with 0 = a1,
//! 1 = b1, ..., 63 = h8. For Black a square is mirrored vertically (index
//! with `square ^ 56`). Values are in centipawns.
use vstd::prelude::*;

verus! {

/// Piece base values in centipawns.
pub const PAWN_VALUE: i32 = 100;
pub const KNIGHT_VALUE: i32 = 320;
pub const BISHOP_VALUE: i32 = 330;
pub const ROOK_VALUE: i32 = 500;
pub const QUEEN_VALUE: i32 = 900;
pub const KING_VALUE: i32 = 20000;

/// Bishop pair bonus in centipawns.
pub const BISHOP_PAIR_BONUS: i32 = 30;

/// Rook on an open file.
pub const ROOK_OPEN_FILE: i32 = 25;
/// Rook on a semi-open file.
pub const ROOK_SEMI_OPEN_FILE: i32 = 15;

/// Doubled pawn penalty.
pub const DOUBLED_PAWN_PENALTY: i32 = -15;
/// Isolated pawn penalty.
pub const ISOLATED_PAWN_PENALTY: i32 = -20;

/// Passed pawn bonuses by advancement: 0 = on its second rank, 5 = on its seventh.
pub open spec fn passed_pawn_bonus(i: int) -> i32 {
    seq![10i32, 15i32, 25i32, 45i32, 75i32, 120i32][i]
}

pub fn passed_pawn_bonus_at(i: usize) -> (v: i32)
    requires
        i < 6,
    ensures
        v == passed_pawn_bonus(i as int),
        10 <= v <= 120,
{
    let t: [i32; 6] = [10, 15, 25, 45, 75, 120];
    assert(t@ =~= seq![10i32, 15i32, 25i32, 45i32, 75i32, 120i32]);
    t[i]
}

/// Pawns.
pub open spec fn pawn_pst(i: int) -> i32 {
    seq![0i32, 0i32, 0i32, 0i32, 0i32, 0i32, 0i32, 0i32, 5i32, 10i32, 10i32, -20i32, -20i32, 10i32, 10i32, 5i32, 5i32, -5i32, -10i32, 0i32, 0i32, -10i32, -5i32, 5i32, 0i32, 0i32, 0i32, 20i32, 20i32, 0i32, 0i32, 0i32, 5i32, 5i32, 10i32, 25i32, 25i32, 10i32, 5i32, 5i32, 10i32, 10i32, 20i32, 30i32, 30i32, 20i32, 10i32, 10i32, 50i32, 50i32, 50i32, 50i32, 50i32, 50i32, 50i32, 50i32, 0i32, 0i32, 0i32, 0i32, 0i32, 0i32, 0i32, 0i32][i]
}

pub fn pawn_pst_at(i: usize) -> (v: i32)
    requires
        i < 64,
    ensures
        v == pawn_pst(i as int),
        -50 <= v <= 50,
{
    let t: [i32; 64] = [0, 0, 0, 0, 0, 0, 0, 0, 5, 10, 10, -20, -20, 10, 10, 5, 5, -5, -10, 0, 0, -10, -5, 5, 0, 0, 0, 20, 20, 0, 0, 0, 5, 5, 10, 25, 25, 10, 5, 5, 10, 10, 20, 30, 30, 20, 10, 10, 50, 50, 50, 50, 50, 50, 50, 50, 0, 0, 0, 0, 0, 0, 0, 0];
    assert(t@ =~= seq![0i32, 0i32, 0i32, 0i32, 0i32, 0i32, 0i32, 0i32, 5i32, 10i32, 10i32, -20i32, -20i32, 10i32, 10i32, 5i32, 5i32, -5i32, -10i32, 0i32, 0i32, -10i32, -5i32, 5i32, 0i32, 0i32, 0i32, 20i32, 20i32, 0i32, 0i32, 0i32, 5i32, 5i32, 10i32, 25i32, 25i32, 10i32, 5i32, 5i32, 10i32, 10i32, 20i32, 30i32, 30i32, 20i32, 10i32, 10i32, 50i32, 50i32, 50i32, 50i32, 50i32, 50i32, 50i32, 50i32, 0i32, 0i32, 0i32, 0i32, 0i32, 0i32, 0i32, 0i32]);
    t[i]
}

/// Knights.
pub open spec fn knight_pst(i: int) -> i32 {
    seq![-50i32, -40i32, -30i32, -30i32, -30i32, -30i32, -40i32, -50i32, -40i32, -20i32, 0i32, 5i32, 5i32, 0i32, -20i32, -40i32, -30i32, 5i32, 10i32, 15i32, 15i32, 10i32, 5i32, -30i32, -30i32, 0i32, 15i32, 20i32, 20i32, 15i32, 0i32, -30i32, -30i32, 5i32, 15i32, 20i32, 20i32, 15i32, 5i32, -30i32, -30i32, 0i32, 10i32, 15i32, 15i32, 10i32, 0i32, -30i32, -40i32, -20i32, 0i32, 0i32, 0i32, 0i32, -20i32, -40i32, -50i32, -40i32, -30i32, -30i32, -30i32, -30i32, -40i32, -50i32][i]
}

pub fn knight_pst_at(i: usize) -> (v: i32)
    requires
        i < 64,
    ensures
        v == knight_pst(i as int),
        -50 <= v <= 50,
{
    let t: [i32; 64] = [-50, -40, -30, -30, -30, -30, -40, -50, -40, -20, 0, 5, 5, 0, -20, -40, -30, 5, 10, 15, 15, 10, 5, -30, -30, 0, 15, 20, 20, 15, 0, -30, -30, 5, 15, 20, 20, 15, 5, -30, -30, 0, 10, 15, 15, 10, 0, -30, -40, -20, 0, 0, 0, 0, -20, -40, -50, -40, -30, -30, -30, -30, -40, -50];
    assert(t@ =~= seq![-50i32, -40i32, -30i32, -30i32, -30i32, -30i32, -40i32, -50i32, -40i32, -20i32, 0i32, 5i32, 5i32, 0i32, -20i32, -40i32, -30i32, 5i32, 10i32, 15i32, 15i32, 10i32, 5i32, -30i32, -30i32, 0i32, 15i32, 20i32, 20i32, 15i32, 0i32, -30i32, -30i32, 5i32, 15i32, 20i32, 20i32, 15i32, 5i32, -30i32, -30i32, 0i32, 10i32, 15i32, 15i32, 10i32, 0i32, -30i32, -40i32, -20i32, 0i32, 0i32, 0i32, 0i32, -20i32, -40i32, -50i32, -40i32, -30i32, -30i32, -30i32, -30i32, -40i32, -50i32]);
    t[i]
}

/// Bishops.
pub open spec fn bishop_pst(i: int) -> i32 {
    seq![-20i32, -10i32, -10i32, -10i32, -10i32, -10i32, -10i32, -20i32, -10i32, 5i32, 0i32, 0i32, 0i32, 0i32, 5i32, -10i32, -10i32, 10i32, 10i32, 10i32, 10i32, 10i32, 10i32, -10i32, -10i32, 0i32, 10i32, 10i32, 10i32, 10i32, 0i32, -10i32, -10i32, 5i32, 5i32, 10i32, 10i32, 5i32, 5i32, -10i32, -10i32, 0i32, 5i32, 10i32, 10i32, 5i32, 0i32, -10i32, -10i32, 0i32, 0i32, 0i32, 0i32, 0i32, 0i32, -10i32, -20i32, -10i32, -10i32, -10i32, -10i32, -10i32, -10i32, -20i32][i]
}

pub fn bishop_pst_at(i: usize) -> (v: i32)
    requires
        i < 64,
    ensures
        v == bishop_pst(i as int),
        -50 <= v <= 50,
{
    let t: [i32; 64] = [-20, -10, -10, -10, -10, -10, -10, -20, -10, 5, 0, 0, 0, 0, 5, -10, -10, 10, 10, 10, 10, 10, 10, -10, -10, 0, 10, 10, 10, 10, 0, -10, -10, 5, 5, 10, 10, 5, 5, -10, -10, 0, 5, 10, 10, 5, 0, -10, -10, 0, 0, 0, 0, 0, 0, -10, -20, -10, -10, -10, -10, -10, -10, -20];
    assert(t@ =~= seq![-20i32, -10i32, -10i32, -10i32, -10i32, -10i32, -10i32, -20i32, -10i32, 5i32, 0i32, 0i32, 0i32, 0i32, 5i32, -10i32, -10i32, 10i32, 10i32, 10i32, 10i32, 10i32, 10i32, -10i32, -10i32, 0i32, 10i32, 10i32, 10i32, 10i32, 0i32, -10i32, -10i32, 5i32, 5i32, 10i32, 10i32, 5i32, 5i32, -10i32, -10i32, 0i32, 5i32, 10i32, 10i32, 5i32, 0i32, -10i32, -10i32, 0i32, 0i32, 0i32, 0i32, 0i32, 0i32, -10i32, -20i32, -10i32, -10i32, -10i32, -10i32, -10i32, -10i32, -20i32]);
    t[i]
}

/// Rooks.
pub open spec fn rook_pst(i: int) -> i32 {
    seq![0i32, 0i32, 0i32, 5i32, 5i32, 0i32, 0i32, 0i32, -5i32, 0i32, 0i32, 0i32, 0i32, 0i32, 0i32, -5i32, -5i32, 0i32, 0i32, 0i32, 0i32, 0i32, 0i32, -5i32, -5i32, 0i32, 0i32, 0i32, 0i32, 0i32, 0i32, -5i32, -5i32, 0i32, 0i32, 0i32, 0i32, 0i32, 0i32, -5i32, -5i32, 0i32, 0i32, 0i32, 0i32, 0i32, 0i32, -5i32, 5i32, 10i32, 10i32, 10i32, 10i32, 10i32, 10i32, 5i32, 0i32, 0i32, 0i32, 0i32, 0i32, 0i32, 0i32, 0i32][i]
}

pub fn rook_pst_at(i: usize) -> (v: i32)
    requires
        i < 64,
    ensures
        v == rook_pst(i as int),
        -50 <= v <= 50,
{
    let t: [i32; 64] = [0, 0, 0, 5, 5, 0, 0, 0, -5, 0, 0, 0, 0, 0, 0, -5, -5, 0, 0, 0, 0, 0, 0, -5, -5, 0, 0, 0, 0, 0, 0, -5, -5, 0, 0, 0, 0, 0, 0, -5, -5, 0, 0, 0, 0, 0, 0, -5, 5, 10, 10, 10, 10, 10, 10, 5, 0, 0, 0, 0, 0, 0, 0, 0];
    assert(t@ =~= seq![0i32, 0i32, 0i32, 5i32, 5i32, 0i32, 0i32, 0i32, -5i32, 0i32, 0i32, 0i32, 0i32, 0i32, 0i32, -5i32, -5i32, 0i32, 0i32, 0i32, 0i32, 0i32, 0i32, -5i32, -5i32, 0i32, 0i32, 0i32, 0i32, 0i32, 0i32, -5i32, -5i32, 0i32, 0i32, 0i32, 0i32, 0i32, 0i32, -5i32, -5i32, 0i32, 0i32, 0i32, 0i32, 0i32, 0i32, -5i32, 5i32, 10i32, 10i32, 10i32, 10i32, 10i32, 10i32, 5i32, 0i32, 0i32, 0i32, 0i32, 0i32, 0i32, 0i32, 0i32]);
    t[i]
}

/// Queens.
pub open spec fn queen_pst(i: int) -> i32 {
    seq![-20i32, -10i32, -10i32, -5i32, -5i32, -10i32, -10i32, -20i32, -10i32, 0i32, 5i32, 0i32, 0i32, 0i32, 0i32, -10i32, -10i32, 5i32, 5i32, 5i32, 5i32, 5i32, 0i32, -10i32, 0i32, 0i32, 5i32, 5i32, 5i32, 5i32, 0i32, -5i32, -5i32, 0i32, 5i32, 5i32, 5i32, 5i32, 0i32, -5i32, -10i32, 0i32, 5i32, 5i32, 5i32, 5i32, 0i32, -10i32, -10i32, 0i32, 0i32, 0i32, 0i32, 0i32, 0i32, -10i32, -20i32, -10i32, -10i32, -5i32, -5i32, -10i32, -10i32, -20i32][i]
}

pub fn queen_pst_at(i: usize) -> (v: i32)
    requires
        i < 64,
    ensures
        v == queen_pst(i as int),
        -50 <= v <= 50,
{
    let t: [i32; 64] = [-20, -10, -10, -5, -5, -10, -10, -20, -10, 0, 5, 0, 0, 0, 0, -10, -10, 5, 5, 5, 5, 5, 0, -10, 0, 0, 5, 5, 5, 5, 0, -5, -5, 0, 5, 5, 5, 5, 0, -5, -10, 0, 5, 5, 5, 5, 0, -10, -10, 0, 0, 0, 0, 0, 0, -10, -20, -10, -10, -5, -5, -10, -10, -20];
    assert(t@ =~= seq![-20i32, -10i32, -10i32, -5i32, -5i32, -10i32, -10i32, -20i32, -10i32, 0i32, 5i32, 0i32, 0i32, 0i32, 0i32, -10i32, -10i32, 5i32, 5i32, 5i32, 5i32, 5i32, 0i32, -10i32, 0i32, 0i32, 5i32, 5i32, 5i32, 5i32, 0i32, -5i32, -5i32, 0i32, 5i32, 5i32, 5i32, 5i32, 0i32, -5i32, -10i32, 0i32, 5i32, 5i32, 5i32, 5i32, 0i32, -10i32, -10i32, 0i32, 0i32, 0i32, 0i32, 0i32, 0i32, -10i32, -20i32, -10i32, -10i32, -5i32, -5i32, -10i32, -10i32, -20i32]);
    t[i]
}

/// The king in the middlegame: stay castled and safe.
pub open spec fn king_middlegame_pst(i: int) -> i32 {
    seq![20i32, 30i32, 10i32, 0i32, 0i32, 10i32, 30i32, 20i32, 20i32, 20i32, 0i32, 0i32, 0i32, 0i32, 20i32, 20i32, -10i32, -20i32, -20i32, -20i32, -20i32, -20i32, -20i32, -10i32, -20i32, -30i32, -30i32, -40i32, -40i32, -30i32, -30i32, -20i32, -30i32, -40i32, -40i32, -50i32, -50i32, -40i32, -40i32, -30i32, -30i32, -40i32, -40i32, -50i32, -50i32, -40i32, -40i32, -30i32, -30i32, -40i32, -40i32, -50i32, -50i32, -40i32, -40i32, -30i32, -30i32, -40i32, -40i32, -50i32, -50i32, -40i32, -40i32, -30i32][i]
}

pub fn king_middlegame_pst_at(i: usize) -> (v: i32)
    requires
        i < 64,
    ensures
        v == king_middlegame_pst(i as int),
        -50 <= v <= 50,
{
    let t: [i32; 64] = [20, 30, 10, 0, 0, 10, 30, 20, 20, 20, 0, 0, 0, 0, 20, 20, -10, -20, -20, -20, -20, -20, -20, -10, -20, -30, -30, -40, -40, -30, -30, -20, -30, -40, -40, -50, -50, -40, -40, -30, -30, -40, -40, -50, -50, -40, -40, -30, -30, -40, -40, -50, -50, -40, -40, -30, -30, -40, -40, -50, -50, -40, -40, -30];
    assert(t@ =~= seq![20i32, 30i32, 10i32, 0i32, 0i32, 10i32, 30i32, 20i32, 20i32, 20i32, 0i32, 0i32, 0i32, 0i32, 20i32, 20i32, -10i32, -20i32, -20i32, -20i32, -20i32, -20i32, -20i32, -10i32, -20i32, -30i32, -30i32, -40i32, -40i32, -30i32, -30i32, -20i32, -30i32, -40i32, -40i32, -50i32, -50i32, -40i32, -40i32, -30i32, -30i32, -40i32, -40i32, -50i32, -50i32, -40i32, -40i32, -30i32, -30i32, -40i32, -40i32, -50i32, -50i32, -40i32, -40i32, -30i32, -30i32, -40i32, -40i32, -50i32, -50i32, -40i32, -40i32, -30i32]);
    t[i]
}

/// The king in the endgame: come to the center.
pub open spec fn king_endgame_pst(i: int) -> i32 {
    seq![-50i32, -30i32, -30i32, -30i32, -30i32, -30i32, -30i32, -50i32, -30i32, -30i32, 0i32, 0i32, 0i32, 0i32, -30i32, -30i32, -30i32, -10i32, 20i32, 30i32, 30i32, 20i32, -10i32, -30i32, -30i32, -10i32, 30i32, 40i32, 40i32, 30i32, -10i32, -30i32, -30i32, -10i32, 30i32, 40i32, 40i32, 30i32, -10i32, -30i32, -30i32, -10i32, 20i32, 30i32, 30i32, 20i32, -10i32, -30i32, -30i32, -20i32, -10i32, 0i32, 0i32, -10i32, -20i32, -30i32, -50i32, -40i32, -30i32, -20i32, -20i32, -30i32, -40i32, -50i32][i]
}

pub fn king_endgame_pst_at(i: usize) -> (v: i32)
    requires
        i < 64,
    ensures
        v == king_endgame_pst(i as int),
        -50 <= v <= 50,
{
    let t: [i32; 64] = [-50, -30, -30, -30, -30, -30, -30, -50, -30, -30, 0, 0, 0, 0, -30, -30, -30, -10, 20, 30, 30, 20, -10, -30, -30, -10, 30, 40, 40, 30, -10, -30, -30, -10, 30, 40, 40, 30, -10, -30, -30, -10, 20, 30, 30, 20, -10, -30, -30, -20, -10, 0, 0, -10, -20, -30, -50, -40, -30, -20, -20, -30, -40, -50];
    assert(t@ =~= seq![-50i32, -30i32, -30i32, -30i32, -30i32, -30i32, -30i32, -50i32, -30i32, -30i32, 0i32, 0i32, 0i32, 0i32, -30i32, -30i32, -30i32, -10i32, 20i32, 30i32, 30i32, 20i32, -10i32, -30i32, -30i32, -10i32, 30i32, 40i32, 40i32, 30i32, -10i32, -30i32, -30i32, -10i32, 30i32, 40i32, 40i32, 30i32, -10i32, -30i32, -30i32, -10i32, 20i32, 30i32, 30i32, 20i32, -10i32, -30i32, -30i32, -20i32, -10i32, 0i32, 0i32, -10i32, -20i32, -30i32, -50i32, -40i32, -30i32, -20i32, -20i32, -30i32, -40i32, -50i32]);
    t[i]
}

/// The table index of a square for a color: the square itself for White,
/// mirrored vertically (rank r becomes rank 7 - r) for Black.
pub open spec fn spec_pst_index(square_index: int, is_white: bool) -> int {
    if is_white {
        square_index
    } else {
        (7 - square_index / 8) * 8 + square_index % 8
    }
}

/// The PST index of a square, mirrored for Black.
pub fn pst_index(square_index: usize, is_white: bool) -> (r: usize)
    requires
        square_index < 64,
    ensures
        r == spec_pst_index(square_index as int, is_white),
        r < 64,
{
    if is_white {
        square_index
    } else {
        let rank = square_index / 8;
        let file = square_index % 8;
        (7 - rank) * 8 + file
    }
}

/// Mirroring is the same as flipping bit 3 to 5 of the index (`square ^ 56`).
pub proof fn lemma_pst_index_is_xor(square_index: usize)
    requires
        square_index < 64,
    ensures
        spec_pst_index(square_index as int, false) == (square_index ^ 56usize) as int,
{
    assert((7 - square_index / 8) * 8 + square_index % 8 == (square_index ^ 56usize)) by (bit_vector)
        requires
            square_index < 64usize,
    ;
}

/// Mirroring twice gives the square back, and mirrored squares stay on the board.
pub proof fn lemma_pst_index_involution(square_index: int)
    requires
        0 <= square_index < 64,
    ensures
        0 <= spec_pst_index(square_index, false) < 64,
        spec_pst_index(spec_pst_index(square_index, false), false) == square_index,
{
}

} // verus!
