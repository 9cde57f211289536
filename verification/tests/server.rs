use chesstui::chess::Color;
use chesstui::game::state::GameState;
use chesstui::protocol::{ClientMessage, ServerMessage};
use chesstui::server::auth::{generate_otp, generate_session_token, hash_password, hex_string, otp_request_allowed, verify_password};
use chesstui::server::game_room::GameRoom;
use chesstui::server::matchmaking::{Matchmaker, WaitingPlayer};
use chesstui::server::ws::{
    connection_step, ConnectionAction, ConnectionEvent, ConnectionPhase,
    code_request_refusal, game_start_of, handle_room_command, missing_room_reply, not_signed_in_reply, pair_results,
    room_command_of, sign_in_refusal, signed_in_replies, user_to_info, DbUser, Recipient, RoomCommand, SignInCheck,
    SignInWay,
};

const WHITE: u128 = 1;
const BLACK: u128 = 2;

fn room() -> GameRoom {
    GameRoom {
        id: "g1".to_string(),
        state: GameState::new(),
        white_id: WHITE,
        black_id: BLACK,
        white_name: "Ann".to_string(),
        black_name: "Bob".to_string(),
        moves_san: Vec::new(),
        external_result: None,
        draw_offered_by: None,
    }
}

#[test]
fn moves_are_checked_and_recorded() {
    let mut r = room();
    assert_eq!(r.try_move(BLACK, "e5"), Err("Not your turn".to_string()));
    assert_eq!(r.try_move(WHITE, "e5"), Err("Invalid move: e5".to_string()));
    assert_eq!(r.try_move(WHITE, "e4"), Ok("e4".to_string()));
    assert_eq!(r.try_move(BLACK, "Nf6"), Ok("Nf6".to_string()));
    assert_eq!(r.moves_san, vec!["e4".to_string(), "Nf6".to_string()]);
    assert_eq!(r.state.side_to_move(), Color::White);
    assert!(!r.is_finished());
    assert_eq!(r.result_strings(), None);
    assert_eq!(r.try_move(3, "d4"), Err("Not your turn".to_string()));
}

#[test]
fn fools_mate_finishes_the_room() {
    let mut r = room();
    for (who, san) in [(WHITE, "f3"), (BLACK, "e5"), (WHITE, "g4"), (BLACK, "Qh4#")] {
        assert!(r.try_move(who, san).is_ok());
    }
    assert!(r.is_finished());
    assert_eq!(r.result_strings(), Some(("Black wins".to_string(), "Checkmate".to_string())));
    assert_eq!(r.try_move(WHITE, "a3"), Err("Game is already finished".to_string()));
}

#[test]
fn resignation_and_agreement() {
    let mut r = room();
    r.set_resignation(Color::White);
    assert!(r.is_finished());
    assert_eq!(r.result_strings(), Some(("Black wins".to_string(), "Resignation".to_string())));
    let mut r = room();
    r.set_draw_by_agreement();
    assert_eq!(r.result_strings(), Some(("Draw".to_string(), "By agreement".to_string())));
}

#[test]
fn colors_of_players() {
    let r = room();
    assert_eq!(r.color_of(WHITE), Some(Color::White));
    assert_eq!(r.color_of(BLACK), Some(Color::Black));
    assert_eq!(r.color_of(7), None);
}

#[test]
fn draw_offer_goes_to_the_opponent_and_acceptance_ends_the_game() {
    let mut r = room();
    let gid = "g1".to_string();
    let out = handle_room_command(&mut r, &gid, WHITE, RoomCommand::OfferDraw);
    assert_eq!(out.deliveries.len(), 1);
    assert_eq!(out.deliveries[0].to, Recipient::Black);
    assert!(matches!(&out.deliveries[0].msg, ServerMessage::DrawOffered { game_id } if game_id == "g1"));
    assert_eq!(r.draw_offered_by, Some(Color::White));
    // White cannot accept its own offer.
    let out = handle_room_command(&mut r, &gid, WHITE, RoomCommand::AcceptDraw);
    assert!(out.deliveries.is_empty());
    assert!(!r.is_finished());
    let out = handle_room_command(&mut r, &gid, BLACK, RoomCommand::AcceptDraw);
    assert_eq!(out.deliveries.len(), 3);
    let tos: Vec<Recipient> = out.deliveries.iter().map(|d| d.to).collect();
    assert_eq!(tos, vec![Recipient::White, Recipient::Black, Recipient::Sender]);
    for d in &out.deliveries {
        assert!(matches!(&d.msg, ServerMessage::GameOver { result, detail, .. } if result == "Draw" && detail == "By agreement"));
    }
    assert_eq!(out.save, Some(("Draw".to_string(), "By agreement".to_string())));
}

#[test]
fn declining_clears_the_offer() {
    let mut r = room();
    let gid = "g1".to_string();
    handle_room_command(&mut r, &gid, BLACK, RoomCommand::OfferDraw);
    assert_eq!(r.draw_offered_by, Some(Color::Black));
    let out = handle_room_command(&mut r, &gid, WHITE, RoomCommand::DeclineDraw);
    assert!(out.deliveries.is_empty());
    assert_eq!(r.draw_offered_by, None);
}

#[test]
fn moves_are_broadcast_and_mate_ends_the_game() {
    let mut r = room();
    let gid = "g1".to_string();
    let out = handle_room_command(&mut r, &gid, BLACK, RoomCommand::MakeMove { mv: "e4".to_string() });
    assert_eq!(out.deliveries.len(), 1);
    assert!(matches!(&out.deliveries[0].msg, ServerMessage::MoveRejected { reason } if reason == "Not your turn"));
    for (who, san) in [(WHITE, "f3"), (BLACK, "e5"), (WHITE, "g4")] {
        let out = handle_room_command(&mut r, &gid, who, RoomCommand::MakeMove { mv: san.to_string() });
        assert_eq!(out.deliveries.len(), 3);
        assert_eq!(out.save, None);
    }
    let out = handle_room_command(&mut r, &gid, BLACK, RoomCommand::MakeMove { mv: "Qh4".to_string() });
    assert_eq!(out.deliveries.len(), 6);
    assert!(matches!(&out.deliveries[2].msg, ServerMessage::MoveMade { mv, .. } if mv == "Qh4#"));
    assert!(matches!(&out.deliveries[5].msg, ServerMessage::GameOver { result, detail, .. } if result == "Black wins" && detail == "Checkmate"));
    assert_eq!(out.save, Some(("Black wins".to_string(), "Checkmate".to_string())));
}

#[test]
fn resign_by_a_stranger_does_nothing() {
    let mut r = room();
    let gid = "g1".to_string();
    let out = handle_room_command(&mut r, &gid, 9, RoomCommand::Resign);
    assert!(out.deliveries.is_empty());
    assert!(!r.is_finished());
    let out = handle_room_command(&mut r, &gid, BLACK, RoomCommand::Resign);
    assert_eq!(out.save, Some(("White wins".to_string(), "Resignation".to_string())));
}

#[test]
fn requests_about_games() {
    let (gid, cmd) = room_command_of(ClientMessage::MakeMove { game_id: "x".to_string(), mv: "e4".to_string() }).unwrap();
    assert_eq!(gid, "x");
    assert!(matches!(cmd, RoomCommand::MakeMove { ref mv } if mv == "e4"));
    assert!(room_command_of(ClientMessage::Ping).is_none());
    assert!(matches!(
        missing_room_reply(&RoomCommand::MakeMove { mv: "e4".to_string() }),
        Some(ServerMessage::Error { message }) if message == "Game not found"
    ));
    assert!(missing_room_reply(&RoomCommand::Resign).is_none());
}

#[test]
fn pairing_tells_each_player_their_color() {
    let (a, b) = pair_results(&"g".to_string(), &"Ann".to_string(), &"Bob".to_string());
    assert_eq!((a.opponent_name.as_str(), a.my_color.as_str()), ("Bob", "white"));
    assert_eq!((b.opponent_name.as_str(), b.my_color.as_str()), ("Ann", "black"));
    assert!(matches!(game_start_of(a), ServerMessage::GameStart { my_color, .. } if my_color == "white"));
}

fn player(id: u128) -> WaitingPlayer<()> {
    WaitingPlayer { user_id: id, display_name: format!("p{}", id), elo: 1200, tx: () }
}

#[test]
fn matchmaker_pairs_two_players() {
    let mut mm: Matchmaker<()> = Matchmaker::new();
    assert!(mm.enqueue(player(1)).is_none());
    let (a, b) = mm.enqueue(player(2)).unwrap();
    assert_eq!((a.user_id, b.user_id), (1, 2));
    assert!(mm.enqueue(player(3)).is_none());
    mm.remove(3);
    assert!(mm.enqueue(player(4)).is_none());
}

#[test]
fn code_requests_are_rate_limited() {
    assert!(otp_request_allowed(None));
    assert!(!otp_request_allowed(Some(59_999)));
    assert!(otp_request_allowed(Some(60_000)));
}

#[test]
fn codes_and_tokens_have_their_shape() {
    let code = generate_otp();
    assert_eq!(code.len(), 6);
    let n: u32 = code.parse().unwrap();
    assert!((100_000..999_999).contains(&n));
    let token = generate_session_token();
    assert_eq!(token.len(), 64);
    assert!(token.chars().all(|c| c.is_ascii_hexdigit() && !c.is_ascii_uppercase()));
    assert_eq!(hex_string(&[0xab, 0x01, 0x00, 0xff]), "ab0100ff");
}

#[test]
fn users_are_described_with_hyphenated_ids() {
    let user = DbUser {
        id: 0x0123456789abcdef0123456789abcdef,
        email: "a@b.c".to_string(),
        display_name: Some("Ann".to_string()),
        elo: 1300,
        password_hash: None,
    };
    let info = user_to_info(&user);
    assert_eq!(info.id, "01234567-89ab-cdef-0123-456789abcdef");
    assert_eq!(info.email, "a@b.c");
    assert_eq!(info.display_name, Some("Ann".to_string()));
    assert_eq!(info.elo, 1300);
}

#[test]
fn hashed_password_verifies() {
    let hash = hash_password("correct horse").unwrap();
    assert!(hash.starts_with("$argon2"));
    assert!(verify_password(&hash, "correct horse"));
    assert!(!verify_password(&hash, "wrong horse"));
    assert!(!verify_password("not a hash", "correct horse"));
}

fn new_user() -> DbUser {
    DbUser { id: 5, email: "a@b.c".to_string(), display_name: None, elo: 1200, password_hash: None }
}

#[test]
fn code_sign_in_asks_for_password_and_name() {
    let r = signed_in_replies("tok".to_string(), &new_user(), SignInWay::Code);
    assert_eq!(r.len(), 3);
    assert!(matches!(&r[0], ServerMessage::Authenticated { token, user } if token == "tok" && user.email == "a@b.c"));
    assert!(matches!(r[1], ServerMessage::NeedPassword));
    assert!(matches!(r[2], ServerMessage::NeedDisplayName));
    let mut named = new_user();
    named.display_name = Some("Ann".to_string());
    let r = signed_in_replies("tok".to_string(), &named, SignInWay::Session);
    assert_eq!(r.len(), 1);
}

#[test]
fn sign_in_refusals_name_the_reason() {
    let reason = |c| match sign_in_refusal(c) {
        Some(ServerMessage::AuthError { reason }) => reason,
        _ => String::new(),
    };
    assert_eq!(reason(SignInCheck::Code { matched: false }), "Invalid or expired code");
    assert!(sign_in_refusal(SignInCheck::Code { matched: true }).is_none());
    assert_eq!(reason(SignInCheck::Password { account: false, has_password: false, matches: false }), "User not found");
    assert_eq!(
        reason(SignInCheck::Password { account: true, has_password: false, matches: false }),
        "No password set for this account"
    );
    assert_eq!(reason(SignInCheck::Password { account: true, has_password: true, matches: false }), "Invalid password");
    assert!(sign_in_refusal(SignInCheck::Password { account: true, has_password: true, matches: true }).is_none());
    assert_eq!(reason(SignInCheck::Session { known: false }), "Invalid or expired session");
    assert!(code_request_refusal(None).is_none());
    assert!(matches!(code_request_refusal(Some(10)), Some(ServerMessage::AuthError { reason })
        if reason == "Please wait before requesting another code"));
    assert!(matches!(not_signed_in_reply(), ServerMessage::Error { message } if message == "Not authenticated"));
}

#[test]
fn connection_steps_before_and_after_sign_in() {
    let before = ConnectionPhase::SigningIn;
    match connection_step(&before, ConnectionEvent::Request(ClientMessage::Ping)) {
        ConnectionAction::Reply(ServerMessage::Pong) => {}
        _ => panic!("ping before sign-in"),
    }
    match connection_step(&before, ConnectionEvent::Request(ClientMessage::FindGame)) {
        ConnectionAction::Reply(ServerMessage::Error { message }) => assert_eq!(message, "Not authenticated"),
        _ => panic!("find game before sign-in"),
    }
    match connection_step(&before, ConnectionEvent::Request(ClientMessage::Authenticate { email: "a@b.c".to_string() })) {
        ConnectionAction::SignIn(ClientMessage::Authenticate { email }) => assert_eq!(email, "a@b.c"),
        _ => panic!("sign-in request"),
    }
    match connection_step(&before, ConnectionEvent::Unreadable) {
        ConnectionAction::Reply(ServerMessage::Error { message }) => assert_eq!(message, "Invalid message format"),
        _ => panic!("unreadable"),
    }
    assert!(matches!(connection_step(&before, ConnectionEvent::Closed), ConnectionAction::Close { leaving: None }));

    let after = ConnectionPhase::SignedIn { user_id: 7 };
    assert!(matches!(
        connection_step(&after, ConnectionEvent::Request(ClientMessage::ResumeSession { token: "t".to_string() })),
        ConnectionAction::Ignore
    ));
    assert!(matches!(
        connection_step(&after, ConnectionEvent::Request(ClientMessage::FindGame)),
        ConnectionAction::Serve(ClientMessage::FindGame)
    ));
    assert!(matches!(connection_step(&after, ConnectionEvent::Closed), ConnectionAction::Close { leaving: Some(7) }));
}
