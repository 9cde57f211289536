use chesstui::chess::{Color, Move, Piece};
use chesstui::game::notation::parse_square;
use chesstui::game::state::{GameResult, GameState, GameStatus};

#[test]
fn new_game_starts_with_white_to_move() {
    let game = GameState::new();
    assert_eq!(game.side_to_move(), Color::White);
    assert_eq!(game.fullmove_number(), 1);
    assert!(game.move_history().is_empty());
    assert_eq!(game.status(), GameStatus::InProgress);
}

#[test]
fn making_a_move_switches_turn() {
    let mut game = GameState::new();
    let mv = find_move(&game, "e2", "e4", None);
    assert!(game.try_make_move(mv).is_ok());
    assert_eq!(game.side_to_move(), Color::Black);
}

#[test]
fn illegal_move_is_rejected() {
    let mut game = GameState::new();
    let mv = Move { from: parse_square("e7").unwrap(), to: parse_square("e5").unwrap(), promotion: None };
    assert!(game.try_make_move(mv).is_err());
}

#[test]
fn captured_pieces_are_tracked() {
    let mut game = GameState::new();
    make_uci(&mut game, "e2e4");
    make_uci(&mut game, "e7e5");
    make_uci(&mut game, "f1c4");
    make_uci(&mut game, "b8c6");
    make_uci(&mut game, "d1h5");
    make_uci(&mut game, "g8f6");
    make_uci(&mut game, "h5f7"); // Qxf7#
    assert_eq!(game.captured_by(Color::White).len(), 1);
    assert_eq!(game.status(), GameStatus::Finished(GameResult::Checkmate(Color::White)));
}

#[test]
fn undo_restores_previous_position() {
    let mut game = GameState::new();
    make_uci(&mut game, "e2e4");
    make_uci(&mut game, "e7e5");
    assert_eq!(game.move_history().len(), 2);
    game.undo();
    assert_eq!(game.move_history().len(), 1);
    assert_eq!(game.side_to_move(), Color::Black);
    game.undo();
    assert_eq!(game.move_history().len(), 0);
    assert_eq!(game.side_to_move(), Color::White);
}

#[test]
fn finished_game_refuses_moves_and_undo_reopens_it() {
    let mut game = GameState::new();
    for uci in ["f2f3", "e7e5", "g2g4", "d8h4"] {
        make_uci(&mut game, uci);
    }
    assert_eq!(game.status(), GameStatus::Finished(GameResult::Checkmate(Color::Black)));
    assert!(game.is_in_check());
    let err = game.try_make_move(find_move(&game, "a2", "a3", None)).unwrap_err();
    assert_eq!(err, "Game is already finished");
    game.undo();
    assert_eq!(game.status(), GameStatus::InProgress);
    assert_eq!(game.fullmove_number(), 2);
}

#[test]
fn illegal_move_message_and_legal_moves_from() {
    let mut game = GameState::new();
    let err = game.try_make_move(find_move(&game, "e2", "e5", None)).unwrap_err();
    assert_eq!(err, "Illegal move: Move { from: E2, to: E5, promotion: None }");
    assert_eq!(game.legal_moves().len(), 20);
    assert_eq!(game.legal_moves_from(parse_square("g1").unwrap()).len(), 2);
    assert_eq!(game.legal_moves_from(parse_square("e4").unwrap()).len(), 0);
}

#[test]
fn en_passant_capture_is_recorded() {
    let mut game = GameState::new();
    for uci in ["e2e4", "a7a6", "e4e5", "d7d5", "e5d6"] {
        make_uci(&mut game, uci);
    }
    let taken = game.captured_by(Color::White);
    assert_eq!(taken.len(), 1);
    assert_eq!(taken[0].piece, Piece::Pawn);
    assert_eq!(taken[0].color, Color::Black);
    assert_eq!(game.move_history()[4].captured.map(|c| c.piece), Some(Piece::Pawn));
    game.undo();
    assert!(game.captured_by(Color::White).is_empty());
}

fn find_move(_game: &GameState, from: &str, to: &str, promo: Option<Piece>) -> Move {
    Move { from: parse_square(from).unwrap(), to: parse_square(to).unwrap(), promotion: promo }
}

fn make_uci(game: &mut GameState, uci: &str) {
    let bytes = uci.as_bytes();
    let from = format!("{}{}", bytes[0] as char, bytes[1] as char);
    let to = format!("{}{}", bytes[2] as char, bytes[3] as char);
    let promo = if bytes.len() == 5 {
        match bytes[4] {
            b'q' => Some(Piece::Queen),
            b'r' => Some(Piece::Rook),
            b'b' => Some(Piece::Bishop),
            b'n' => Some(Piece::Knight),
            _ => None,
        }
    } else {
        None
    };
    let mv = find_move(game, &from, &to, promo);
    game.try_make_move(mv).expect(&format!("Move {} should be legal", uci));
}

#[test]
fn illegal_promotion_message_names_the_piece() {
    let mut game = GameState::new();
    let err = game.try_make_move(find_move(&game, "a2", "a8", Some(Piece::Queen))).unwrap_err();
    assert_eq!(err, "Illegal move: Move { from: A2, to: A8, promotion: Some(Queen) }");
    let err = game.try_make_move(find_move(&game, "h7", "h5", None)).unwrap_err();
    assert_eq!(err, "Illegal move: Move { from: H7, to: H5, promotion: None }");
}
