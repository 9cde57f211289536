//! The multiplayer server's game logic: pairing players and running games.

pub mod matchmaking;
pub mod game_room;
pub mod ws;
pub mod auth;
