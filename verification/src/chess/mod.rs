//! The chess model of the library: colors, pieces, squares, moves and
//! positions, and the calls into `cozy_chess` that supply the rules.

pub mod types;
pub mod cozy;
pub mod board;

pub use types::{Color, File, Move, Piece, Rank, Square};
pub use board::{Board, CastleRights};
