//! The client side of the multiplayer connection.

pub mod session;
pub mod events;
