//! What the client does with each message from the server.
use vstd::prelude::*;
use crate::app::{App, Effect, MultiplayerState, Screen};
use crate::chess::types::Color;
use crate::input::app_ok;
use crate::network::session::StoredSession;
use crate::protocol::ServerMessage;
use crate::text::{chars_of, push_all, same_chars, string_of};

verus! {

fn copy_text(s: &String) -> (r: String)
    ensures
        r@ == s@,
{
    string_of(&chars_of(s.as_str()))
}

/// The color a game start gives the player: White when the server says
/// "white", Black otherwise.
pub open spec fn start_color(my_color: Seq<char>) -> Color {
    if my_color == "white"@ { Color::White } else { Color::Black }
}

/// The status line when the server ends a game.
pub open spec fn game_over_message(result: Seq<char>, detail: Seq<char>) -> Seq<char> {
    result + " \u{2014} "@ + detail
}

/// Takes a message from the server: sign-in steps move the online tab's
/// state along (a successful sign-in saves the session and clears the
/// password), a game start opens the online game, moves are played,
/// rejections, errors and results are shown on the status line.
#[verifier::spinoff_prover]
#[verifier::rlimit(100)]
pub fn handle_server_message(app: &mut App, msg: ServerMessage) -> (effects: Vec<Effect>)
    requires
        app_ok(*old(app)),
    ensures
        app_ok(*final(app)),
        !(msg is Authenticated) ==> effects@.len() == 0,
        match msg {
            ServerMessage::AuthCodeSent => *final(app) == (App { multiplayer_state: MultiplayerState::EnteringOtp, ..*old(app) }),
            ServerMessage::Authenticated { token, user } => {
                &&& effects@.len() == 1
                &&& (effects@[0] matches Effect::SaveSession(s) && s.token@ == token@ && s.email@ == user.email@
                    && s.server_url@ == old(app).server_url@ && (s.display_name is None <==> user.display_name is None)
                    && (user.display_name matches Some(n) ==> s.display_name.unwrap()@ == n@))
                &&& final(app).password_input@.len() == 0
                &&& (user.display_name is None ==> final(app).multiplayer_state == MultiplayerState::EnteringDisplayName)
                &&& (user.display_name matches Some(n) ==> final(app).multiplayer_state matches MultiplayerState::LoggedIn {
                    display_name,
                    elo,
                } && display_name@ == n@ && elo == user.elo)
                &&& *final(app) == (App {
                    password_input: final(app).password_input,
                    multiplayer_state: final(app).multiplayer_state,
                    ..*old(app)
                })
            },
            ServerMessage::AuthError { reason } => *final(app) == (App {
                status_message: reason,
                multiplayer_state: MultiplayerState::EnteringEmail,
                ..*old(app)
            }),
            ServerMessage::NeedDisplayName => *final(app) == (App {
                multiplayer_state: MultiplayerState::EnteringDisplayName,
                ..*old(app)
            }),
            ServerMessage::Searching => *final(app) == (App { multiplayer_state: MultiplayerState::Searching, ..*old(app) }),
            ServerMessage::GameStart { game_id, opponent, my_color } => {
                &&& crate::app::fresh_game(*final(app))
                &&& final(app).multiplayer_state == MultiplayerState::InGame
                &&& final(app).game_mode == crate::app::GameMode::Online {
                    game_id,
                    my_color: start_color(my_color@),
                    opponent_name: opponent,
                }
                &&& final(app).board_flipped == (start_color(my_color@) == Color::Black)
            },
            ServerMessage::MoveMade { mv, .. } => final(app).game@ == (match crate::game::notation::parse_san_of(
                old(app).game@.board,
                mv@,
            ) {
                None => old(app).game@,
                Some(m) => match crate::game::state::make_move_of(old(app).game@, m) {
                    Ok(g) => g,
                    Err(_) => old(app).game@,
                },
            }),
            ServerMessage::MoveRejected { reason } => *final(app) == (App { status_message: reason, ..*old(app) }),
            ServerMessage::GameOver { result, detail, .. } => *final(app) == (App {
                status_message: final(app).status_message,
                screen: Screen::PostGame,
                postgame_selection: 0,
                ..*old(app)
            }) && final(app).status_message@ == game_over_message(result@, detail@),
            ServerMessage::DrawOffered { .. } => *final(app) == (App { status_message: final(app).status_message, ..*old(app) })
                && final(app).status_message@ == "Opponent offers a draw. :accept or :decline"@,
            ServerMessage::Error { message } => *final(app) == (App { status_message: message, ..*old(app) }),
            ServerMessage::Pong => *final(app) == *old(app),
            ServerMessage::NeedPassword => *final(app) == (App {
                multiplayer_state: MultiplayerState::EnteringPassword,
                ..*old(app)
            }),
            ServerMessage::PasswordSet => final(app).password_input@.len() == 0 && *final(app) == (App {
                password_input: final(app).password_input,
                multiplayer_state: MultiplayerState::EnteringDisplayName,
                ..*old(app)
            }),
            ServerMessage::PreferencesUpdated => *final(app) == *old(app),
        },
{
    let effects = match msg {
        ServerMessage::Authenticated { token, user } => on_authenticated(app, token, user),
        ServerMessage::GameStart { game_id, opponent, my_color } => {
            on_game_start(app, game_id, opponent, my_color);
            Vec::new()
        },
        ServerMessage::MoveMade { mv, .. } => {
            app.apply_server_move(mv.as_str());
            Vec::new()
        },
        ServerMessage::GameOver { result, detail, .. } => {
            on_game_over(app, &result, &detail);
            Vec::new()
        },
        _ => {
            on_simple_message(app, msg);
            Vec::new()
        },
    };
    effects
}

fn on_authenticated(app: &mut App, token: String, user: crate::protocol::UserInfo) -> (effects: Vec<Effect>)
    requires
        app_ok(*old(app)),
    ensures
        app_ok(*final(app)),
        effects@.len() == 1,
        effects@[0] matches Effect::SaveSession(s) && s.token@ == token@ && s.email@ == user.email@
            && s.server_url@ == old(app).server_url@ && (s.display_name is None <==> user.display_name is None)
            && (user.display_name matches Some(n) ==> s.display_name.unwrap()@ == n@),
        final(app).password_input@.len() == 0,
        user.display_name is None ==> final(app).multiplayer_state == MultiplayerState::EnteringDisplayName,
        user.display_name matches Some(n) ==> final(app).multiplayer_state matches MultiplayerState::LoggedIn {
            display_name,
            elo,
        } && display_name@ == n@ && elo == user.elo,
        *final(app) == (App {
            password_input: final(app).password_input,
            multiplayer_state: final(app).multiplayer_state,
            ..*old(app)
        }),
{
    app.password_input = String::new();
    let display_name = match &user.display_name {
        Some(n) => Some(copy_text(n)),
        None => None,
    };
    let session = StoredSession { token, email: user.email, display_name, server_url: copy_text(&app.server_url) };
    app.multiplayer_state = match user.display_name {
        None => MultiplayerState::EnteringDisplayName,
        Some(n) => MultiplayerState::LoggedIn { display_name: n, elo: user.elo },
    };
    let mut effects: Vec<Effect> = Vec::new();
    effects.push(Effect::SaveSession(session));
    effects
}

fn on_game_start(app: &mut App, game_id: String, opponent: String, my_color: String)
    requires
        app_ok(*old(app)),
    ensures
        app_ok(*final(app)),
        crate::app::fresh_game(*final(app)),
        final(app).multiplayer_state == MultiplayerState::InGame,
        final(app).game_mode == (crate::app::GameMode::Online {
            game_id,
            my_color: start_color(my_color@),
            opponent_name: opponent,
        }),
        final(app).board_flipped == (start_color(my_color@) == Color::Black),
{
    let color = if same_chars(&chars_of(my_color.as_str()), &chars_of("white")) {
        Color::White
    } else {
        Color::Black
    };
    app.start_online_game(game_id, color, opponent);
    app.multiplayer_state = MultiplayerState::InGame;
}

fn on_game_over(app: &mut App, result: &String, detail: &String)
    requires
        app_ok(*old(app)),
    ensures
        app_ok(*final(app)),
        *final(app) == (App {
            status_message: final(app).status_message,
            screen: Screen::PostGame,
            postgame_selection: 0,
            ..*old(app)
        }),
        final(app).status_message@ == game_over_message(result@, detail@),
{
    let mut text = chars_of(result.as_str());
    push_all(&mut text, &chars_of(" \u{2014} "));
    push_all(&mut text, &chars_of(detail.as_str()));
    app.status_message = string_of(&text);
    app.screen = Screen::PostGame;
    app.postgame_selection = 0;
}

fn on_simple_message(app: &mut App, msg: ServerMessage)
    requires
        app_ok(*old(app)),
    ensures
        app_ok(*final(app)),
        match msg {
            ServerMessage::AuthCodeSent => *final(app) == (App { multiplayer_state: MultiplayerState::EnteringOtp, ..*old(app) }),
            ServerMessage::AuthError { reason } => *final(app) == (App {
                status_message: reason,
                multiplayer_state: MultiplayerState::EnteringEmail,
                ..*old(app)
            }),
            ServerMessage::NeedDisplayName => *final(app) == (App {
                multiplayer_state: MultiplayerState::EnteringDisplayName,
                ..*old(app)
            }),
            ServerMessage::Searching => *final(app) == (App { multiplayer_state: MultiplayerState::Searching, ..*old(app) }),
            ServerMessage::MoveRejected { reason } => *final(app) == (App { status_message: reason, ..*old(app) }),
            ServerMessage::DrawOffered { .. } => *final(app) == (App { status_message: final(app).status_message, ..*old(app) })
                && final(app).status_message@ == "Opponent offers a draw. :accept or :decline"@,
            ServerMessage::Error { message } => *final(app) == (App { status_message: message, ..*old(app) }),
            ServerMessage::NeedPassword => *final(app) == (App {
                multiplayer_state: MultiplayerState::EnteringPassword,
                ..*old(app)
            }),
            ServerMessage::PasswordSet => final(app).password_input@.len() == 0 && *final(app) == (App {
                password_input: final(app).password_input,
                multiplayer_state: MultiplayerState::EnteringDisplayName,
                ..*old(app)
            }),
            _ => *final(app) == *old(app),
        },
{
    match msg {
        ServerMessage::AuthCodeSent => {
            app.multiplayer_state = MultiplayerState::EnteringOtp;
        },
        ServerMessage::AuthError { reason } => {
            app.status_message = reason;
            app.multiplayer_state = MultiplayerState::EnteringEmail;
        },
        ServerMessage::NeedDisplayName => {
            app.multiplayer_state = MultiplayerState::EnteringDisplayName;
        },
        ServerMessage::Searching => {
            app.multiplayer_state = MultiplayerState::Searching;
        },
        ServerMessage::MoveRejected { reason } => {
            app.status_message = reason;
        },
        ServerMessage::DrawOffered { .. } => {
            app.status_message = string_of(&chars_of("Opponent offers a draw. :accept or :decline"));
        },
        ServerMessage::Error { message } => {
            app.status_message = message;
        },
        ServerMessage::NeedPassword => {
            app.multiplayer_state = MultiplayerState::EnteringPassword;
        },
        ServerMessage::PasswordSet => {
            app.password_input = String::new();
            app.multiplayer_state = MultiplayerState::EnteringDisplayName;
        },
        _ => {},
    }
}

} // verus!
