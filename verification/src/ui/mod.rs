//! Pieces of the interface that compute rather than draw.

pub mod ascii3d;
pub mod text_fit;
pub mod board_view;
pub mod kitty;
pub mod captured;
pub mod postgame;
pub mod menu;
pub mod help;
