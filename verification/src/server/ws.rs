//! What the server does with a player's in-game requests: the room's new
//! state, who is told what, and whether a finished game is to be saved.
//! The connection itself (the socket, the database, the channels) is run
//! by the server, which performs these outcomes.
use vstd::prelude::*;
use crate::chess::types::Color;
use crate::game::state::GameStatus;
use crate::protocol::{ClientMessage, ServerMessage, UserInfo};
use crate::server::game_room::{pair_view, room_finished, room_result, same_room, try_move_of, GameRoom};
use crate::server::matchmaking::MatchResult;
use crate::text::{chars_of, string_of};
use crate::server::auth::hex_char;

verus! {

/// A request about a game in progress.
pub enum RoomCommand {
    /// A move in SAN.
    MakeMove { mv: String },
    Resign,
    OfferDraw,
    AcceptDraw,
    DeclineDraw,
}

/// Who is told: the room's white or black player, or the connection the
/// request came on.
#[derive(Clone, Copy, PartialEq, Eq, Debug, Structural)]
pub enum Recipient {
    White,
    Black,
    Sender,
}

/// A message for someone.
pub struct Delivery {
    pub to: Recipient,
    pub msg: ServerMessage,
}

/// What a request comes to besides the room's new state: the messages in
/// the order they are sent, and the result and detail of a game that has
/// just finished and is to be saved.
pub struct RoomOutcome {
    pub deliveries: Vec<Delivery>,
    pub save: Option<(String, String)>,
}

/// The messages of this exchange as text.
pub enum Note {
    MoveMade(Seq<char>, Seq<char>),
    MoveRejected(Seq<char>),
    GameOver(Seq<char>, Seq<char>, Seq<char>),
    DrawOffered(Seq<char>),
    Other,
}

pub open spec fn note_of(m: ServerMessage) -> Note {
    match m {
        ServerMessage::MoveMade { game_id, mv } => Note::MoveMade(game_id@, mv@),
        ServerMessage::MoveRejected { reason } => Note::MoveRejected(reason@),
        ServerMessage::GameOver { game_id, result, detail } => Note::GameOver(game_id@, result@, detail@),
        ServerMessage::DrawOffered { game_id } => Note::DrawOffered(game_id@),
        _ => Note::Other,
    }
}

pub open spec fn notes_of(d: Seq<Delivery>) -> Seq<(Recipient, Note)> {
    d.map_values(|x: Delivery| (x.to, note_of(x.msg)))
}

/// The game-over message to both players and to the sender.
pub open spec fn game_over_notes(game_id: Seq<char>, r: Option<(Seq<char>, Seq<char>)>) -> Seq<(Recipient, Note)> {
    match r {
        Some((res, detail)) => seq![
            (Recipient::White, Note::GameOver(game_id, res, detail)),
            (Recipient::Black, Note::GameOver(game_id, res, detail)),
            (Recipient::Sender, Note::GameOver(game_id, res, detail)),
        ],
        None => Seq::empty(),
    }
}

/// The opponent of a color, as a recipient.
pub open spec fn opponent_of(c: Color) -> Recipient {
    if c == Color::White {
        Recipient::Black
    } else {
        Recipient::White
    }
}

/// A request as text: the move's SAN, or the kind of request.
pub enum CommandModel {
    MakeMove(Seq<char>),
    Resign,
    OfferDraw,
    AcceptDraw,
    DeclineDraw,
}

pub open spec fn command_model(c: RoomCommand) -> CommandModel {
    match c {
        RoomCommand::MakeMove { mv } => CommandModel::MakeMove(mv@),
        RoomCommand::Resign => CommandModel::Resign,
        RoomCommand::OfferDraw => CommandModel::OfferDraw,
        RoomCommand::AcceptDraw => CommandModel::AcceptDraw,
        RoomCommand::DeclineDraw => CommandModel::DeclineDraw,
    }
}

/// The color a user plays in a room.
pub open spec fn color_in(room: GameRoom, user_id: u128) -> Option<Color> {
    if user_id == room.white_id {
        Some(Color::White)
    } else if user_id == room.black_id {
        Some(Color::Black)
    } else {
        None
    }
}

/// Whether the user's opponent has offered a draw.
pub open spec fn opponent_offered(room: GameRoom, c: Color) -> bool {
    room.draw_offered_by matches Some(o) && o != c
}

/// The messages a request comes to and the game to save, given the room
/// before it and (for those that change it) after.
pub open spec fn outcome_of(
    before: GameRoom,
    after: GameRoom,
    game_id: Seq<char>,
    user_id: u128,
    cmd: CommandModel,
) -> (Seq<(Recipient, Note)>, Option<(Seq<char>, Seq<char>)>) {
    match cmd {
        CommandModel::MakeMove(san) => match try_move_of(before, user_id, san) {
            Err(e) => (seq![(Recipient::Sender, Note::MoveRejected(e))], None),
            Ok((s, _)) => {
                let done = if room_finished(after) {
                    room_result(after)
                } else {
                    None
                };
                (
                    seq![
                        (Recipient::White, Note::MoveMade(game_id, s)),
                        (Recipient::Black, Note::MoveMade(game_id, s)),
                        (Recipient::Sender, Note::MoveMade(game_id, s)),
                    ] + game_over_notes(game_id, done),
                    done,
                )
            },
        },
        CommandModel::Resign => match color_in(before, user_id) {
            Some(_) => (game_over_notes(game_id, room_result(after)), room_result(after)),
            None => (Seq::empty(), None),
        },
        CommandModel::OfferDraw => match color_in(before, user_id) {
            Some(c) => (seq![(opponent_of(c), Note::DrawOffered(game_id))], None),
            None => (Seq::empty(), None),
        },
        CommandModel::AcceptDraw => match color_in(before, user_id) {
            Some(c) => if opponent_offered(before, c) {
                (game_over_notes(game_id, room_result(after)), room_result(after))
            } else {
                (Seq::empty(), None)
            },
            None => (Seq::empty(), None),
        },
        CommandModel::DeclineDraw => (Seq::empty(), None),
    }
}

/// The room after a request (the game part for moves is stated by
/// `try_move_of`).
pub open spec fn room_after(before: GameRoom, after: GameRoom, user_id: u128, cmd: CommandModel) -> bool {
    match cmd {
        CommandModel::MakeMove(san) => match try_move_of(before, user_id, san) {
            Err(_) => same_room(after, before),
            Ok((s, g)) => after.state@ == g && after.draw_offered_by is None && after.moves_san@
                == before.moves_san@.push(after.moves_san@.last()) && after.moves_san@.last()@ == s
                && after.external_result == before.external_result && after.white_id == before.white_id
                && after.black_id == before.black_id && after.id == before.id,
        },
        CommandModel::Resign => match color_in(before, user_id) {
            Some(c) => pair_view(after.external_result) == Some(
                (
                    if c == Color::White {
                        "Black wins"@
                    } else {
                        "White wins"@
                    },
                    "Resignation"@,
                ),
            ) && after.state == before.state && after.moves_san == before.moves_san && after.draw_offered_by
                == before.draw_offered_by && after.white_id == before.white_id && after.black_id
                == before.black_id,
            None => after == before,
        },
        CommandModel::OfferDraw => match color_in(before, user_id) {
            Some(c) => after == GameRoom { draw_offered_by: Some(c), ..before },
            None => after == before,
        },
        CommandModel::AcceptDraw => match color_in(before, user_id) {
            Some(c) => if opponent_offered(before, c) {
                pair_view(after.external_result) == Some(("Draw"@, "By agreement"@)) && after.state == before.state
                    && after.moves_san == before.moves_san && after.draw_offered_by == before.draw_offered_by
                    && after.white_id == before.white_id && after.black_id == before.black_id
            } else {
                after == before
            },
            None => after == before,
        },
        CommandModel::DeclineDraw => after == GameRoom { draw_offered_by: None, ..before },
    }
}

fn text(s: &str) -> (r: String)
    ensures
        r@ == s@,
{
    s.to_owned()
}

fn copy_text(s: &String) -> (r: String)
    ensures
        r@ == s@,
{
    s.clone()
}

/// Appends the game-over message for both players and the sender, when
/// the game has a result; gives back that result.
fn push_game_over(out: &mut Vec<Delivery>, game_id: &String, r: Option<(String, String)>) -> (saved: Option<(String, String)>)
    ensures
        notes_of(final(out)@) == notes_of(old(out)@) + game_over_notes(game_id@, pair_view(r)),
        pair_view(saved) == pair_view(r),
{
    match r {
        Some((res, detail)) => {
            let ghost before = old(out)@;
            out.push(
                Delivery {
                    to: Recipient::White,
                    msg: ServerMessage::GameOver {
                        game_id: copy_text(game_id),
                        result: copy_text(&res),
                        detail: copy_text(&detail),
                    },
                },
            );
            out.push(
                Delivery {
                    to: Recipient::Black,
                    msg: ServerMessage::GameOver {
                        game_id: copy_text(game_id),
                        result: copy_text(&res),
                        detail: copy_text(&detail),
                    },
                },
            );
            out.push(
                Delivery {
                    to: Recipient::Sender,
                    msg: ServerMessage::GameOver {
                        game_id: copy_text(game_id),
                        result: copy_text(&res),
                        detail: copy_text(&detail),
                    },
                },
            );
            assert(notes_of(out@) =~= notes_of(before) + game_over_notes(game_id@, pair_view(Some((res, detail)))));
            Some((res, detail))
        },
        None => {
            assert(notes_of(out@) =~= notes_of(old(out)@) + game_over_notes(game_id@, pair_view(r)));
            None
        },
    }
}

/// Carries out a player's request about their game: the room changes as
/// `room_after` says, and the messages and the game to save are those of
/// `outcome_of`.
pub fn handle_room_command(room: &mut GameRoom, game_id: &String, user_id: u128, cmd: RoomCommand) -> (r: RoomOutcome)
    ensures
        room_after(*old(room), *final(room), user_id, command_model(cmd)),
        (notes_of(r.deliveries@), pair_view(r.save)) == outcome_of(
            *old(room),
            *final(room),
            game_id@,
            user_id,
            command_model(cmd),
        ),
{
    let mut out: Vec<Delivery> = Vec::new();
    match cmd {
        RoomCommand::MakeMove { mv } => {
            match room.try_move(user_id, mv.as_str()) {
                Ok(canonical_san) => {
                    out.push(
                        Delivery {
                            to: Recipient::White,
                            msg: ServerMessage::MoveMade { game_id: copy_text(game_id), mv: copy_text(&canonical_san) },
                        },
                    );
                    out.push(
                        Delivery {
                            to: Recipient::Black,
                            msg: ServerMessage::MoveMade { game_id: copy_text(game_id), mv: copy_text(&canonical_san) },
                        },
                    );
                    out.push(
                        Delivery {
                            to: Recipient::Sender,
                            msg: ServerMessage::MoveMade { game_id: copy_text(game_id), mv: copy_text(&canonical_san) },
                        },
                    );
                    let done = if room.is_finished() {
                        room.result_strings()
                    } else {
                        None
                    };
                    let save = push_game_over(&mut out, game_id, done);
                    proof {
                        assert(room.moves_san@ =~= old(room).moves_san@.push(room.moves_san@.last()));
                    }
                    RoomOutcome { deliveries: out, save }
                },
                Err(reason) => {
                    out.push(Delivery { to: Recipient::Sender, msg: ServerMessage::MoveRejected { reason } });
                    RoomOutcome { deliveries: out, save: None }
                },
            }
        },
        RoomCommand::Resign => {
            match room.color_of(user_id) {
                Some(color) => {
                    room.set_resignation(color);
                    let done = room.result_strings();
                    let save = push_game_over(&mut out, game_id, done);
                    RoomOutcome { deliveries: out, save }
                },
                None => RoomOutcome { deliveries: out, save: None },
            }
        },
        RoomCommand::OfferDraw => {
            match room.color_of(user_id) {
                Some(color) => {
                    room.draw_offered_by = Some(color);
                    let to = match color {
                        Color::White => Recipient::Black,
                        Color::Black => Recipient::White,
                    };
                    out.push(Delivery { to, msg: ServerMessage::DrawOffered { game_id: copy_text(game_id) } });
                    RoomOutcome { deliveries: out, save: None }
                },
                None => RoomOutcome { deliveries: out, save: None },
            }
        },
        RoomCommand::AcceptDraw => {
            match room.color_of(user_id) {
                Some(color) => {
                    let offered = match room.draw_offered_by {
                        Some(c) => c != color,
                        None => false,
                    };
                    if offered {
                        room.set_draw_by_agreement();
                        let done = room.result_strings();
                        let save = push_game_over(&mut out, game_id, done);
                        RoomOutcome { deliveries: out, save }
                    } else {
                        RoomOutcome { deliveries: out, save: None }
                    }
                },
                None => RoomOutcome { deliveries: out, save: None },
            }
        },
        RoomCommand::DeclineDraw => {
            room.draw_offered_by = None;
            RoomOutcome { deliveries: out, save: None }
        },
    }
}

/// The reply to a request about a game the server does not know: an
/// error for a move, nothing otherwise.
pub fn missing_room_reply(cmd: &RoomCommand) -> (r: Option<ServerMessage>)
    ensures
        cmd is MakeMove ==> (r matches Some(ServerMessage::Error { message }) && message@ == "Game not found"@),
        !(cmd is MakeMove) ==> r is None,
{
    match cmd {
        RoomCommand::MakeMove { .. } => Some(ServerMessage::Error { message: text("Game not found") }),
        _ => None,
    }
}

/// The game a client message is about and what it asks, for the requests
/// about a game in progress.
pub fn room_command_of(msg: ClientMessage) -> (r: Option<(String, RoomCommand)>)
    ensures
        match msg {
            ClientMessage::MakeMove { game_id, mv } => r matches Some((g, c)) && g == game_id && command_model(c)
                == CommandModel::MakeMove(mv@),
            ClientMessage::Resign { game_id } => r matches Some((g, c)) && g == game_id && c is Resign,
            ClientMessage::OfferDraw { game_id } => r matches Some((g, c)) && g == game_id && c is OfferDraw,
            ClientMessage::AcceptDraw { game_id } => r matches Some((g, c)) && g == game_id && c is AcceptDraw,
            ClientMessage::DeclineDraw { game_id } => r matches Some((g, c)) && g == game_id && c is DeclineDraw,
            _ => r is None,
        },
{
    match msg {
        ClientMessage::MakeMove { game_id, mv } => Some((game_id, RoomCommand::MakeMove { mv })),
        ClientMessage::Resign { game_id } => Some((game_id, RoomCommand::Resign)),
        ClientMessage::OfferDraw { game_id } => Some((game_id, RoomCommand::OfferDraw)),
        ClientMessage::AcceptDraw { game_id } => Some((game_id, RoomCommand::AcceptDraw)),
        ClientMessage::DeclineDraw { game_id } => Some((game_id, RoomCommand::DeclineDraw)),
        _ => None,
    }
}

/// The results two paired players are told: the one who waited plays
/// White, the newcomer Black.
pub fn pair_results(game_id: &String, waiting_name: &String, newcomer_name: &String) -> (r: (MatchResult, MatchResult))
    ensures
        r.0.game_id@ == game_id@ && r.0.opponent_name@ == newcomer_name@ && r.0.my_color@ == "white"@,
        r.1.game_id@ == game_id@ && r.1.opponent_name@ == waiting_name@ && r.1.my_color@ == "black"@,
{
    (
        MatchResult {
            game_id: copy_text(game_id),
            opponent_name: copy_text(newcomer_name),
            my_color: text("white"),
        },
        MatchResult { game_id: copy_text(game_id), opponent_name: copy_text(waiting_name), my_color: text("black") },
    )
}

/// The message that tells a paired player their game has started.
pub fn game_start_of(result: MatchResult) -> (m: ServerMessage)
    ensures
        m matches ServerMessage::GameStart { game_id, opponent, my_color } && game_id == result.game_id && opponent
            == result.opponent_name && my_color == result.my_color,
{
    ServerMessage::GameStart { game_id: result.game_id, opponent: result.opponent_name, my_color: result.my_color }
}

/// The reply to a ping.
pub fn pong() -> (m: ServerMessage)
    ensures
        m is Pong,
{
    ServerMessage::Pong
}

/// The hex digit `k` (0 the most significant) of a 128-bit id.
pub open spec fn nibble(id: u128, k: int) -> int {
    ((id >> ((124 - 4 * k) as u128)) & 15) as int
}

/// Which hex digit stands at a position of the hyphenated form.
pub open spec fn uuid_digit_index(i: int) -> int {
    if i < 8 {
        i
    } else if i < 13 {
        i - 1
    } else if i < 18 {
        i - 2
    } else if i < 23 {
        i - 3
    } else {
        i - 4
    }
}

/// The hyphenated lower-case form of a 128-bit id: 8, 4, 4, 4 and 12 hex
/// digits, most significant first.
pub open spec fn uuid_text(id: u128) -> Seq<char> {
    Seq::new(
        36,
        |i: int|
            if i == 8 || i == 13 || i == 18 || i == 23 {
                '-'
            } else {
                hex_char(nibble(id, uuid_digit_index(i)))
            },
    )
}

/// uuid's `Uuid::from_u128(id).to_string()`: the hyphenated lower-case form.
#[verifier::external_body]
fn uuid_string(id: u128) -> (s: String)
    ensures
        s@ == uuid_text(id),
{
    uuid::Uuid::from_u128(id).to_string()
}

/// A stored user as the server keeps them.
pub struct DbUser {
    pub id: u128,
    pub email: String,
    pub display_name: Option<String>,
    pub elo: i32,
    pub password_hash: Option<String>,
}

/// How a user is described to clients.
pub fn user_to_info(user: &DbUser) -> (info: UserInfo)
    ensures
        info.id@ == uuid_text(user.id),
        info.email == user.email,
        info.display_name == user.display_name,
        info.elo == user.elo,
{
    UserInfo {
        id: uuid_string(user.id),
        email: user.email.clone(),
        display_name: user.display_name.clone(),
        elo: user.elo,
    }
}

/// How a user signed in: with a mailed code, a password or a stored session.
#[derive(Clone, Copy, PartialEq, Eq, Debug, Structural)]
pub enum SignInWay {
    Code,
    Password,
    Session,
}

/// What the server sends when it signs a user in: who they are, under the
/// session token; after a sign-in by code, a request to choose a password
/// when the account has none; then a request to choose a display name when
/// it has none.
pub fn signed_in_replies(token: String, user: &DbUser, way: SignInWay) -> (r: Vec<ServerMessage>)
    ensures
        r@.len() == 1 + (if way == SignInWay::Code && user.password_hash is None { 1int } else { 0int }) + (
        if user.display_name is None {
            1int
        } else {
            0int
        }),
        r@[0] matches ServerMessage::Authenticated { token: t, user: info } && t@ == token@ && info.id@ == uuid_text(
            user.id,
        ) && info.email == user.email && info.display_name == user.display_name && info.elo == user.elo,
        way == SignInWay::Code && user.password_hash is None ==> r@[1] is NeedPassword,
        user.display_name is None ==> r@[r@.len() - 1] is NeedDisplayName,
{
    let mut out: Vec<ServerMessage> = Vec::new();
    out.push(ServerMessage::Authenticated { token, user: user_to_info(user) });
    if way == SignInWay::Code && user.password_hash.is_none() {
        out.push(ServerMessage::NeedPassword);
    }
    if user.display_name.is_none() {
        out.push(ServerMessage::NeedDisplayName);
    }
    out
}

/// What the server found when checking a sign-in.
pub enum SignInCheck {
    /// A mailed code: whether it matched the one sent, in time.
    Code { matched: bool },
    /// A password: whether the account exists, whether it has a password,
    /// and whether the one given matches it.
    Password { account: bool, has_password: bool, matches: bool },
    /// A stored session: whether it is known.
    Session { known: bool },
}

/// Why a sign-in is refused, or `None` when it succeeds.
pub open spec fn sign_in_error_of(c: SignInCheck) -> Option<Seq<char>> {
    match c {
        SignInCheck::Code { matched } => if matched {
            None
        } else {
            Some("Invalid or expired code"@)
        },
        SignInCheck::Password { account, has_password, matches } => if !account {
            Some("User not found"@)
        } else if !has_password {
            Some("No password set for this account"@)
        } else if !matches {
            Some("Invalid password"@)
        } else {
            None
        },
        SignInCheck::Session { known } => if known {
            None
        } else {
            Some("Invalid or expired session"@)
        },
    }
}

/// The refusal of a failed sign-in, or `None` when it succeeds.
pub fn sign_in_refusal(c: SignInCheck) -> (r: Option<ServerMessage>)
    ensures
        match sign_in_error_of(c) {
            None => r is None,
            Some(t) => r matches Some(ServerMessage::AuthError { reason }) && reason@ == t,
        },
{
    let reason = match c {
        SignInCheck::Code { matched } => if matched {
            None
        } else {
            Some(text("Invalid or expired code"))
        },
        SignInCheck::Password { account, has_password, matches } => if !account {
            Some(text("User not found"))
        } else if !has_password {
            Some(text("No password set for this account"))
        } else if !matches {
            Some(text("Invalid password"))
        } else {
            None
        },
        SignInCheck::Session { known } => if known {
            None
        } else {
            Some(text("Invalid or expired session"))
        },
    };
    match reason {
        Some(reason) => Some(ServerMessage::AuthError { reason }),
        None => None,
    }
}

/// The refusal of a code request made again too soon (see
/// `otp_request_allowed`), or `None` when a code may be sent.
pub fn code_request_refusal(millis_since_last: Option<u128>) -> (r: Option<ServerMessage>)
    ensures
        crate::server::auth::otp_request_allowed_of(millis_since_last) ==> r is None,
        !crate::server::auth::otp_request_allowed_of(millis_since_last) ==> (r matches Some(
            ServerMessage::AuthError { reason },
        ) && reason@ == "Please wait before requesting another code"@),
{
    if crate::server::auth::otp_request_allowed(millis_since_last) {
        None
    } else {
        Some(ServerMessage::AuthError { reason: text("Please wait before requesting another code") })
    }
}

/// The reply to a request that needs a signed-in user, before sign-in.
pub fn not_signed_in_reply() -> (m: ServerMessage)
    ensures
        m matches ServerMessage::Error { message } && message@ == "Not authenticated"@,
{
    ServerMessage::Error { message: text("Not authenticated") }
}


/// Where a connection stands: signing in, or signed in as a user.
pub enum ConnectionPhase {
    SigningIn,
    SignedIn { user_id: u128 },
}

/// What arrives on a connection: a request, a text that is no request, or
/// the end of the stream.
pub enum ConnectionEvent {
    Request(ClientMessage),
    Unreadable,
    Closed,
}

/// What the server does about an event on a connection.
pub enum ConnectionAction {
    /// Try the request as a way of signing in.
    SignIn(ClientMessage),
    /// Serve the request for the signed-in user.
    Serve(ClientMessage),
    /// Send this reply, and nothing more.
    Reply(ServerMessage),
    /// Do nothing.
    Ignore,
    /// The connection is over. For a signed-in user, forget their
    /// connection and take them out of the matchmaking queue.
    Close { leaving: Option<u128> },
}

/// The requests that sign a user in.
pub open spec fn is_sign_in_request(m: ClientMessage) -> bool {
    ||| m is Authenticate
    ||| m is VerifyOtp
    ||| m is ResumeSession
    ||| m is LoginWithPassword
}

/// What a connection does with an event. Before sign-in only the sign-in
/// requests and `Ping` are served, and anything else is refused as not
/// signed in; after sign-in the sign-in requests are ignored and the rest
/// is served. A text that is no request is answered as such, and the end
/// of the stream closes the connection.
pub fn connection_step(phase: &ConnectionPhase, event: ConnectionEvent) -> (a: ConnectionAction)
    ensures
        event is Unreadable ==> (a matches ConnectionAction::Reply(ServerMessage::Error { message })
            && message@ == "Invalid message format"@),
        event is Closed ==> a == (ConnectionAction::Close {
            leaving: match *phase {
                ConnectionPhase::SigningIn => None,
                ConnectionPhase::SignedIn { user_id } => Some(user_id),
            },
        }),
        event matches ConnectionEvent::Request(m) ==> {
            match *phase {
                ConnectionPhase::SigningIn => {
                    &&& m is Ping ==> a == ConnectionAction::Reply(ServerMessage::Pong)
                    &&& is_sign_in_request(m) ==> a == ConnectionAction::SignIn(m)
                    &&& !(m is Ping) && !is_sign_in_request(m) ==> (a matches ConnectionAction::Reply(
                        ServerMessage::Error { message },
                    ) && message@ == "Not authenticated"@)
                },
                ConnectionPhase::SignedIn { .. } => {
                    &&& is_sign_in_request(m) ==> a == ConnectionAction::Ignore
                    &&& !is_sign_in_request(m) ==> a == ConnectionAction::Serve(m)
                },
            }
        },
{
    match event {
        ConnectionEvent::Unreadable => ConnectionAction::Reply(
            ServerMessage::Error { message: text("Invalid message format") },
        ),
        ConnectionEvent::Closed => ConnectionAction::Close {
            leaving: match phase {
                ConnectionPhase::SigningIn => None,
                ConnectionPhase::SignedIn { user_id } => Some(*user_id),
            },
        },
        ConnectionEvent::Request(m) => {
            let sign_in = match &m {
                ClientMessage::Authenticate { .. } => true,
                ClientMessage::VerifyOtp { .. } => true,
                ClientMessage::ResumeSession { .. } => true,
                ClientMessage::LoginWithPassword { .. } => true,
                _ => false,
            };
            let ping = match &m {
                ClientMessage::Ping => true,
                _ => false,
            };
            match phase {
                ConnectionPhase::SigningIn => {
                    if ping {
                        ConnectionAction::Reply(pong())
                    } else if sign_in {
                        ConnectionAction::SignIn(m)
                    } else {
                        ConnectionAction::Reply(not_signed_in_reply())
                    }
                },
                ConnectionPhase::SignedIn { .. } => {
                    if sign_in {
                        ConnectionAction::Ignore
                    } else {
                        ConnectionAction::Serve(m)
                    }
                },
            }
        },
    }
}

} // verus!
