//! The captured-pieces panel: the symbols of the pieces taken and the
//! material lead they add up to.
use vstd::prelude::*;
use crate::chess::types::{Color, Piece};
use crate::game::state::CapturedPiece;

verus! {

/// The symbol of a piece, outlined for White and filled for Black.
pub open spec fn symbol_of(piece: Piece, color: Color) -> char {
    match (color, piece) {
        (Color::White, Piece::Pawn) => '\u{2659}',
        (Color::White, Piece::Knight) => '\u{2658}',
        (Color::White, Piece::Bishop) => '\u{2657}',
        (Color::White, Piece::Rook) => '\u{2656}',
        (Color::White, Piece::Queen) => '\u{2655}',
        (Color::White, Piece::King) => '\u{2654}',
        (Color::Black, Piece::Pawn) => '\u{265f}',
        (Color::Black, Piece::Knight) => '\u{265e}',
        (Color::Black, Piece::Bishop) => '\u{265d}',
        (Color::Black, Piece::Rook) => '\u{265c}',
        (Color::Black, Piece::Queen) => '\u{265b}',
        (Color::Black, Piece::King) => '\u{265a}',
    }
}

/// The symbol of a piece as a character.
pub fn chess_piece_symbol(piece: Piece, color: Color) -> (c: char)
    ensures
        c == symbol_of(piece, color),
{
    match (color, piece) {
        (Color::White, Piece::King) => '\u{2654}',
        (Color::White, Piece::Queen) => '\u{2655}',
        (Color::White, Piece::Rook) => '\u{2656}',
        (Color::White, Piece::Bishop) => '\u{2657}',
        (Color::White, Piece::Knight) => '\u{2658}',
        (Color::White, Piece::Pawn) => '\u{2659}',
        (Color::Black, Piece::King) => '\u{265a}',
        (Color::Black, Piece::Queen) => '\u{265b}',
        (Color::Black, Piece::Rook) => '\u{265c}',
        (Color::Black, Piece::Bishop) => '\u{265d}',
        (Color::Black, Piece::Knight) => '\u{265e}',
        (Color::Black, Piece::Pawn) => '\u{265f}',
    }
}

/// The symbol a piece is drawn with in character mode.
pub fn piece_char(piece: Piece, color: Color) -> (c: char)
    ensures
        c == symbol_of(piece, color),
{
    chess_piece_symbol(piece, color)
}

/// The symbol of a piece as text.
pub fn piece_symbol(piece: Piece, color: Color) -> (s: String)
    ensures
        s@ == seq![symbol_of(piece, color)],
{
    let mut v: Vec<char> = Vec::new();
    v.push(chess_piece_symbol(piece, color));
    crate::text::string_of(&v)
}

/// The value of a piece in pawns, the king counting nothing.
pub open spec fn pawns_of(piece: Piece) -> int {
    match piece {
        Piece::Pawn => 1,
        Piece::Knight | Piece::Bishop => 3,
        Piece::Rook => 5,
        Piece::Queen => 9,
        Piece::King => 0,
    }
}

/// The value of a piece in pawns.
pub fn piece_value(piece: Piece) -> (v: i32)
    ensures
        v == pawns_of(piece),
{
    match piece {
        Piece::Pawn => 1,
        Piece::Knight | Piece::Bishop => 3,
        Piece::Rook => 5,
        Piece::Queen => 9,
        Piece::King => 0,
    }
}

/// The value of a list of captured pieces.
pub open spec fn material_of(caps: Seq<CapturedPiece>) -> int
    decreases caps.len(),
{
    if caps.len() == 0 {
        0
    } else {
        material_of(caps.drop_last()) + pawns_of(caps.last().piece)
    }
}

proof fn lemma_material_bounds(caps: Seq<CapturedPiece>)
    ensures
        0 <= material_of(caps) <= 9 * caps.len(),
    decreases caps.len(),
{
    if caps.len() > 0 {
        lemma_material_bounds(caps.drop_last());
    }
}

/// The value of the pieces a side has taken.
pub fn captured_material(caps: &[CapturedPiece]) -> (m: i128)
    ensures
        m == material_of(caps@),
{
    let mut total: i128 = 0;
    let mut i: usize = 0;
    while i < caps.len()
        invariant
            i <= caps@.len(),
            total == material_of(caps@.take(i as int)),
        decreases caps.len() - i,
    {
        proof {
            assert(caps@.take(i + 1).drop_last() =~= caps@.take(i as int));
            lemma_material_bounds(caps@.take(i as int));
            assert(caps@.len() <= usize::MAX);
        }
        total = total + piece_value(caps[i].piece) as i128;
        i = i + 1;
    }
    assert(caps@.take(i as int) =~= caps@);
    total
}

/// White's material lead from the pieces each side has taken (negative
/// when Black leads).
pub fn material_difference(white_caps: &[CapturedPiece], black_caps: &[CapturedPiece]) -> (d: i128)
    ensures
        d == material_of(white_caps@) - material_of(black_caps@),
{
    proof {
        lemma_material_bounds(white_caps@);
        lemma_material_bounds(black_caps@);
    }
    captured_material(white_caps) - captured_material(black_caps)
}

} // verus!
