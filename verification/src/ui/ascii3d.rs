//! The rotating 3D pieces of the launch screen: which piece is shown.
use vstd::prelude::*;

verus! {

/// A piece the launch screen can show.
#[derive(Clone, Copy, PartialEq, Eq, Debug, Structural)]
pub enum Piece3D {
    King,
    Queen,
    Rook,
    Bishop,
    Pawn,
}

/// The order in which the pieces are shown.
pub open spec fn piece_cycle(i: int) -> Piece3D {
    seq![Piece3D::King, Piece3D::Queen, Piece3D::Rook, Piece3D::Bishop, Piece3D::Pawn][i]
}

/// How many ticks each piece stays (about eight seconds at ten frames a second).
pub const CYCLE_TICKS: u64 = 80;

fn cycle_at(i: u64) -> (p: Piece3D)
    requires
        i < 5,
    ensures
        p == piece_cycle(i as int),
{
    if i == 0 {
        Piece3D::King
    } else if i == 1 {
        Piece3D::Queen
    } else if i == 2 {
        Piece3D::Rook
    } else if i == 3 {
        Piece3D::Bishop
    } else {
        Piece3D::Pawn
    }
}

/// The piece for the left display at a tick.
pub fn current_display_piece(tick: u64) -> (p: Piece3D)
    ensures
        p == piece_cycle(((tick / CYCLE_TICKS) % 5) as int),
{
    cycle_at((tick / CYCLE_TICKS) % 5)
}

/// The piece for the right display at a tick: two places further in the
/// cycle, so the two displays differ.
pub fn current_display_piece_alt(tick: u64) -> (p: Piece3D)
    ensures
        p == piece_cycle(((tick / CYCLE_TICKS + 2) % 5) as int),
{
    cycle_at((tick / CYCLE_TICKS + 2) % 5)
}

/// The two displays never show the same piece.
pub proof fn lemma_displays_differ(tick: u64)
    ensures
        piece_cycle(((tick / CYCLE_TICKS) % 5) as int) != piece_cycle(((tick / CYCLE_TICKS + 2) % 5) as int),
{
    let a = (tick / CYCLE_TICKS) % 5;
    let b = (tick / CYCLE_TICKS + 2) % 5;
    assert(b == (a + 2) % 5);
}

} // verus!
