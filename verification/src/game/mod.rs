//! The game: its state and history, notation, move input and saved games.

pub mod notation;
pub mod state;
pub mod replay;
pub mod move_input;
pub mod replay_order;
pub mod san_laws;
