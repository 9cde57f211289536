//! A terminal chess game: rules glue, notation, move input, engine and
//! multiplayer bookkeeping, with the chess rules themselves provided by
//! `cozy_chess`.

pub mod text;
pub mod chess;
pub mod game;
pub mod app;
pub mod config;
pub mod theme;
pub mod protocol;
pub mod perf;
pub mod clock;
pub mod random;
pub mod engine;
pub mod network;
pub mod server;
pub mod ui;
pub mod ai;
pub mod input;
