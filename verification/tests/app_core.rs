use chesstui::network::events::handle_server_message;
use chesstui::protocol::{ClientMessage, ServerMessage, UserInfo};
use chesstui::app::MultiplayerState;
use chesstui::game::replay_order::{sort_newest_first, text_less};
use chesstui::app::{App, Effect, GameMode, InputMode, ReplayViewerState, Screen};
use chesstui::chess::{Color, Square};
use chesstui::config::Config;
use chesstui::game::notation::parse_square;
use chesstui::game::replay::{saved_result, SavedGame};
use chesstui::game::state::GameResult;
use chesstui::input::{
    handle_multiplayer_tab,
    execute_command, feed_input_char, handle_key, parse_command, pgn_text, trim_chars, Command, Key, KeyPress,
};
use chesstui::theme::{ColorScheme, TermColor, Theme};

fn sq(name: &str) -> Square {
    parse_square(name).unwrap()
}

fn key(code: Key) -> KeyPress {
    KeyPress { code, ctrl: false, shift: false }
}

fn chars(s: &str) -> Vec<char> {
    s.chars().collect()
}

fn game_app() -> App {
    let mut app = App::new(&Config::default());
    app.start_new_game();
    app
}

fn saved(moves: &[&str]) -> SavedGame {
    SavedGame {
        id: "g1".to_string(),
        date: "2024-01-01 10:00".to_string(),
        result: "1-0".to_string(),
        result_detail: "Checkmate".to_string(),
        mode: "Local".to_string(),
        moves: moves.iter().map(|m| m.to_string()).collect(),
        move_count: moves.len(),
    }
}

#[test]
fn first_start_opens_the_color_picker() {
    let app = App::new(&Config::default());
    assert_eq!(app.screen, Screen::ColorPicker);
    assert_eq!(app.color_scheme_index, 0);
    assert!(!app.should_quit);
}

#[test]
fn saved_scheme_opens_the_launch_screen() {
    let config = Config {
        server_url: "ws://localhost:7600/ws".to_string(),
        color_scheme: Some("Phosphor Green".to_string()),
        piece_style: None,
        show_move_hints: true,
    };
    let app = App::new(&config);
    assert_eq!(app.screen, Screen::Launch);
    assert_eq!(app.color_scheme_index, 1);
    assert_eq!(app.theme, Theme::from_scheme(ColorScheme::Green));
    assert_eq!(app.server_url, "ws://localhost:7600/ws");
}

#[test]
fn launch_guest_goes_to_the_menu() {
    let config = Config {
        server_url: "ws://localhost:7600/ws".to_string(),
        color_scheme: Some("Orange".to_string()),
        piece_style: None,
        show_move_hints: true,
    };
    let mut app = App::new(&config);
    handle_key(&mut app, key(Key::Down));
    handle_key(&mut app, key(Key::Down));
    handle_key(&mut app, key(Key::Down));
    assert_eq!(app.launch_selection, 2);
    handle_key(&mut app, key(Key::Enter));
    assert_eq!(app.screen, Screen::MainMenu);
}

#[test]
fn color_picker_wraps_and_saves() {
    let mut app = App::new(&Config::default());
    let effects = handle_key(&mut app, key(Key::Up));
    assert!(effects.is_empty());
    assert_eq!(app.color_scheme_index, 5);
    assert_eq!(app.theme, Theme::from_scheme(ColorScheme::Mono));
    let effects = handle_key(&mut app, key(Key::Enter));
    assert_eq!(app.screen, Screen::MainMenu);
    assert!(effects.iter().any(|e| matches!(e, Effect::SaveColorScheme(name) if name == "Monochrome")));
}

#[test]
fn new_game_puts_the_cursor_in_the_middle() {
    let app = game_app();
    assert_eq!(app.screen, Screen::InGame);
    assert_eq!(app.mode, InputMode::Play);
    assert_eq!((app.cursor_file, app.cursor_rank), (4, 4));
    assert_eq!(app.game_mode, GameMode::Local);
    assert!(app.selected_square.is_none());
}

#[test]
fn movable_pieces_in_display_order() {
    let app = game_app();
    let pieces = app.movable_pieces();
    let expected: Vec<Square> =
        ["a2", "b2", "c2", "d2", "e2", "f2", "g2", "h2", "b1", "g1"].iter().map(|s| sq(s)).collect();
    assert_eq!(pieces, expected);
}

#[test]
fn jump_to_next_piece_wraps() {
    let mut app = game_app();
    app.jump_to_next_piece(true);
    assert_eq!(app.cursor_square(), sq("a2"));
    app.jump_to_next_piece(false);
    assert_eq!(app.cursor_square(), sq("g1"));
    app.jump_to_next_piece(true);
    assert_eq!(app.cursor_square(), sq("a2"));
}

#[test]
fn cursor_square_follows_the_flip() {
    let mut app = game_app();
    app.set_cursor_to_square(sq("c3"));
    assert_eq!((app.cursor_file, app.cursor_rank), (2, 2));
    assert_eq!(app.cursor_square(), sq("c3"));
    app.board_flipped = true;
    app.set_cursor_to_square(sq("c3"));
    assert_eq!((app.cursor_file, app.cursor_rank), (5, 5));
    assert_eq!(app.cursor_square(), sq("c3"));
}

#[test]
fn cursor_stays_on_the_board() {
    let mut app = game_app();
    app.move_cursor(10, -10);
    assert_eq!((app.cursor_file, app.cursor_rank), (7, 0));
    app.move_cursor(-3, 2);
    assert_eq!((app.cursor_file, app.cursor_rank), (4, 2));
}

#[test]
fn nearest_in_direction() {
    let candidates = vec![sq("a2"), sq("e2"), sq("h2"), sq("g1")];
    // From e4 going down: e2 is two away, the nearest.
    assert_eq!(App::find_nearest_in_direction(&candidates, 4, 3, 0, -1), Some(sq("e2")));
    // From e2 going right: h2 (3) against g1 (3): the first wins.
    assert_eq!(App::find_nearest_in_direction(&candidates, 4, 1, 1, 0), Some(sq("h2")));
    // Nothing above the first rank from rank 8.
    assert_eq!(App::find_nearest_in_direction(&candidates, 4, 7, 0, 1), None);
}

#[test]
fn typing_a_move_plays_it() {
    let mut app = game_app();
    for c in "e4".chars() {
        feed_input_char(&mut app, c);
    }
    assert_eq!(app.game.side_to_move(), Color::Black);
    assert_eq!(app.last_move, Some((sq("e2"), sq("e4"))));
    assert!(app.input_buffer.is_empty());
}

#[test]
fn typing_nonsense_is_dropped_with_a_message() {
    let mut app = game_app();
    feed_input_char(&mut app, 'z');
    assert!(app.input_buffer.is_empty());
    assert_eq!(app.status_message, "No match for 'z'");
    assert_eq!(app.game.side_to_move(), Color::White);
}

#[test]
fn selecting_then_moving_by_squares() {
    let mut app = game_app();
    app.select_square(sq("g1"));
    assert_eq!(app.selected_square, Some(sq("g1")));
    assert_eq!(app.legal_moves_for_selected.len(), 2);
    app.select_square(sq("f3"));
    assert_eq!(app.game.side_to_move(), Color::Black);
    assert!(app.selected_square.is_none());
}

#[test]
fn commands_are_read_after_trimming() {
    assert_eq!(trim_chars(&chars("  flip \t")), chars("flip"));
    assert_eq!(parse_command(&chars("q")), Command::Quit);
    assert_eq!(parse_command(&chars("quit")), Command::Quit);
    assert_eq!(parse_command(&chars("res")), Command::Resign);
    assert_eq!(parse_command(&chars("f")), Command::Flip);
    assert_eq!(parse_command(&chars("n")), Command::New);
    assert_eq!(parse_command(&chars("dbg")), Command::Debug);
    assert_eq!(parse_command(&chars("kitty")), Command::Kitty);
    assert_eq!(parse_command(&chars("flop")), Command::Unknown);
}

#[test]
fn resign_command_ends_the_game() {
    let mut app = game_app();
    let effects = execute_command(&mut app, &chars("resign"));
    assert_eq!(app.screen, Screen::PostGame);
    assert_eq!(app.status_message, "White resigned");
    assert!(matches!(effects.as_slice(), [Effect::SaveGame(GameResult::Resignation(Color::White))]));
}

#[test]
fn unknown_command_is_reported() {
    let mut app = game_app();
    execute_command(&mut app, &chars("xyz"));
    assert_eq!(app.status_message, "Unknown command: xyz");
    execute_command(&mut app, &chars("flip"));
    assert!(app.board_flipped);
}

#[test]
fn command_line_through_keys() {
    let mut app = game_app();
    handle_key(&mut app, key(Key::Char(':')));
    assert_eq!(app.mode, InputMode::Command);
    for c in "q".chars() {
        handle_key(&mut app, key(Key::Char(c)));
    }
    handle_key(&mut app, key(Key::Enter));
    assert!(app.should_quit);
    assert_eq!(app.mode, InputMode::Play);
}

#[test]
fn pgn_movetext() {
    let sans: Vec<String> = vec!["e4".to_string(), "e5".to_string(), "Nf3".to_string()];
    assert_eq!(pgn_text(&sans), "1.e4 e5 2.Nf3 ");
    assert_eq!(pgn_text(&Vec::new()), "");
}

#[test]
fn replay_viewer_steps_through_the_game() {
    let mut viewer = ReplayViewerState::from_saved(saved(&["e4", "e5", "Nf3"]));
    assert_eq!(viewer.total_moves(), 3);
    assert_eq!(viewer.current_move, 0);
    viewer.go_next();
    viewer.go_next();
    assert_eq!(viewer.current_move, 2);
    assert_eq!(viewer.current_board().side_to_move(), Color::White);
    viewer.go_end();
    assert_eq!(viewer.current_move, 3);
    viewer.go_next();
    assert_eq!(viewer.current_move, 3);
    viewer.go_start();
    assert_eq!(viewer.current_move, 0);
    viewer.go_prev();
    assert_eq!(viewer.current_move, 0);
}

#[test]
fn replay_viewer_stops_at_an_unreadable_move() {
    let viewer = ReplayViewerState::from_saved(saved(&["e4", "Zz9", "Nf3"]));
    assert_eq!(viewer.total_moves(), 1);
}

#[test]
fn themes_keep_squares_and_pieces_apart() {
    for scheme in ColorScheme::all() {
        let theme = Theme::from_scheme(scheme);
        assert_ne!(theme.light_square, theme.dark_square);
        assert_ne!(theme.white_piece, theme.black_piece);
        assert_eq!(theme.square_bg(0, 0), theme.dark_square);
        assert_eq!(theme.square_bg(1, 0), theme.light_square);
    }
    let amber = Theme::from_scheme(ColorScheme::Amber);
    assert_eq!(amber.text_primary, TermColor::Indexed(214));
    assert_eq!(amber.check_bg, TermColor::Rgb(200, 80, 80));
}

#[test]
fn replays_are_listed_newest_first() {
    let mut a = saved(&["e4"]);
    a.id = "a".to_string();
    a.date = "2024-01-02T10:00:00+00:00".to_string();
    let mut b = saved(&["d4"]);
    b.id = "b".to_string();
    b.date = "2024-03-01T09:00:00+00:00".to_string();
    let mut c = saved(&["c4"]);
    c.id = "c".to_string();
    c.date = "2024-01-02T10:00:00+00:00".to_string();
    let sorted = sort_newest_first(vec![a, b, c]);
    let ids: Vec<&str> = sorted.iter().map(|g| g.id.as_str()).collect();
    assert_eq!(ids, vec!["b", "a", "c"]);
    assert!(text_less("2024-01", "2024-02"));
    assert!(text_less("2024", "2024-01"));
    assert!(!text_less("abc", "abc"));
}

#[test]
fn server_messages_drive_the_online_tab() {
    let mut app = App::new(&Config::default());
    let effects = handle_server_message(&mut app, ServerMessage::AuthCodeSent);
    assert!(effects.is_empty());
    assert_eq!(app.multiplayer_state, MultiplayerState::EnteringOtp);
    app.password_input = "secret".to_string();
    let user = UserInfo { id: "u1".to_string(), email: "a@b.c".to_string(), display_name: Some("Ann".to_string()), elo: 1234 };
    let effects = handle_server_message(&mut app, ServerMessage::Authenticated { token: "tok".to_string(), user });
    assert!(app.password_input.is_empty());
    assert_eq!(app.multiplayer_state, MultiplayerState::LoggedIn { display_name: "Ann".to_string(), elo: 1234 });
    match effects.as_slice() {
        [Effect::SaveSession(s)] => {
            assert_eq!(s.token, "tok");
            assert_eq!(s.email, "a@b.c");
            assert_eq!(s.display_name.as_deref(), Some("Ann"));
            assert_eq!(s.server_url, app.server_url);
        }
        _ => panic!("expected one session to save"),
    }
    handle_server_message(&mut app, ServerMessage::AuthError { reason: "bad code".to_string() });
    assert_eq!(app.status_message, "bad code");
    assert_eq!(app.multiplayer_state, MultiplayerState::EnteringEmail);
}

#[test]
fn server_game_flow() {
    let mut app = App::new(&Config::default());
    handle_server_message(
        &mut app,
        ServerMessage::GameStart { game_id: "g7".to_string(), opponent: "Bob".to_string(), my_color: "black".to_string() },
    );
    assert_eq!(app.screen, Screen::InGame);
    assert!(app.board_flipped);
    assert_eq!(app.multiplayer_state, MultiplayerState::InGame);
    assert_eq!(
        app.game_mode,
        GameMode::Online { game_id: "g7".to_string(), my_color: Color::Black, opponent_name: "Bob".to_string() }
    );
    handle_server_message(&mut app, ServerMessage::MoveMade { game_id: "g7".to_string(), mv: "e4".to_string() });
    assert_eq!(app.game.side_to_move(), Color::Black);
    assert_eq!(app.last_move, Some((sq("e2"), sq("e4"))));
    handle_server_message(&mut app, ServerMessage::MoveMade { game_id: "g7".to_string(), mv: "Ke5".to_string() });
    assert_eq!(app.game.side_to_move(), Color::Black);
    handle_server_message(
        &mut app,
        ServerMessage::GameOver { game_id: "g7".to_string(), result: "1-0".to_string(), detail: "resignation".to_string() },
    );
    assert_eq!(app.screen, Screen::PostGame);
    assert_eq!(app.status_message, "1-0 \u{2014} resignation");
}

#[test]
fn saved_result_names_the_winner() {
    assert_eq!(saved_result(&GameResult::Checkmate(Color::White)), ("White wins".to_string(), "Checkmate".to_string()));
    assert_eq!(saved_result(&GameResult::Checkmate(Color::Black)), ("Black wins".to_string(), "Checkmate".to_string()));
    assert_eq!(saved_result(&GameResult::Resignation(Color::White)), ("Black wins".to_string(), "Resignation".to_string()));
}

#[test]
fn login_password_is_sent_with_the_email() {
    let mut app = App::new(&Config::default());
    app.multiplayer_state = MultiplayerState::EnteringLoginPassword;
    app.login_input = "a@b.c".to_string();
    for c in "secret".chars() {
        assert!(handle_multiplayer_tab(&mut app, key(Key::Char(c))).is_empty());
    }
    assert!(handle_multiplayer_tab(&mut app, key(Key::Backspace)).is_empty());
    assert_eq!(app.password_input, "secre");
    let effects = handle_multiplayer_tab(&mut app, key(Key::Enter));
    assert_eq!(effects.len(), 1);
    assert!(matches!(&effects[0], Effect::Send(ClientMessage::LoginWithPassword { email, password })
        if email == "a@b.c" && password == "secre"));
    assert_eq!(app.multiplayer_state, MultiplayerState::EnteringLoginPassword);
    assert!(handle_multiplayer_tab(&mut app, key(Key::Esc)).is_empty());
    assert_eq!(app.password_input, "");
    assert_eq!(app.multiplayer_state, MultiplayerState::EnteringEmail);
}

#[test]
fn code_step_takes_digits_only() {
    let mut app = App::new(&Config::default());
    app.multiplayer_state = MultiplayerState::EnteringOtp;
    for c in "12a3456789".chars() {
        handle_multiplayer_tab(&mut app, key(Key::Char(c)));
    }
    assert_eq!(app.otp_input, "123456");
    handle_multiplayer_tab(&mut app, key(Key::Backspace));
    assert_eq!(app.otp_input, "12345");
    assert!(handle_multiplayer_tab(&mut app, key(Key::Enter)).is_empty());
    assert!(handle_multiplayer_tab(&mut app, key(Key::Esc)).is_empty());
    assert_eq!(app.otp_input, "");
    assert_eq!(app.multiplayer_state, MultiplayerState::EnteringEmail);
}

#[test]
fn new_password_needs_six_characters() {
    let mut app = App::new(&Config::default());
    app.multiplayer_state = MultiplayerState::EnteringPassword;
    app.password_input = "abcde".to_string();
    assert!(handle_multiplayer_tab(&mut app, key(Key::Enter)).is_empty());
    handle_multiplayer_tab(&mut app, key(Key::Char('f')));
    let effects = handle_multiplayer_tab(&mut app, key(Key::Enter));
    assert!(matches!(&effects[..], [Effect::Send(ClientMessage::SetPassword { password })] if password == "abcdef"));
}
