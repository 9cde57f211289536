//! Messages between the client and the multiplayer server.
use vstd::prelude::*;

verus! {

/// A message from a client to the server.
#[derive(Clone, Debug)]
pub enum ClientMessage {
    Authenticate { email: String },
    VerifyOtp { email: String, code: String },
    ResumeSession { token: String },
    SetDisplayName { name: String },
    FindGame,
    CancelSearch,
    /// A move in SAN.
    MakeMove { game_id: String, mv: String },
    Resign { game_id: String },
    OfferDraw { game_id: String },
    AcceptDraw { game_id: String },
    DeclineDraw { game_id: String },
    Ping,
    /// Signs in with a password instead of a one-time code.
    LoginWithPassword { email: String, password: String },
    /// Sets the signed-in user's password.
    SetPassword { password: String },
}

/// A message from the server to a client.
#[derive(Clone, Debug)]
pub enum ServerMessage {
    AuthCodeSent,
    Authenticated { token: String, user: UserInfo },
    AuthError { reason: String },
    NeedDisplayName,
    Searching,
    GameStart { game_id: String, opponent: String, my_color: String },
    MoveMade { game_id: String, mv: String },
    MoveRejected { reason: String },
    GameOver { game_id: String, result: String, detail: String },
    DrawOffered { game_id: String },
    Error { message: String },
    Pong,
    NeedPassword,
    PasswordSet,
    PreferencesUpdated,
}

/// A user as the server describes them.
#[derive(Clone, Debug)]
pub struct UserInfo {
    pub id: String,
    pub email: String,
    pub display_name: Option<String>,
    pub elo: i32,
}

} // verus!
