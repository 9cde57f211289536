use chesstui::app::{App, GameMode};
use chesstui::chess::{Board, Color, Move, Piece};
use chesstui::config::Config;
use chesstui::game::notation::parse_square;
use chesstui::game::replay::SavedGame;
use chesstui::game::state::{CapturedPiece, GameResult, GameStatus};
use chesstui::theme::{ColorScheme, TermColor, Theme};
use chesstui::ui::board_view::{color_to_rgb, highlight_color, ChessBoardWidget};
use chesstui::ui::captured::{chess_piece_symbol, captured_material, material_difference, piece_char, piece_symbol};
use chesstui::ui::kitty::{build_transmit_sequence, diacritic, image_hash};
use chesstui::ui::menu::{center_block, replay_header, replay_row, replay_scroll, scrollbar_cells, Area};
use chesstui::ui::postgame::{is_player_color, is_player_winner, opponent_line, result_headline};

fn sq(s: &str) -> chesstui::chess::Square {
    parse_square(s).unwrap()
}

#[test]
fn palette_colors_to_rgb() {
    assert_eq!(color_to_rgb(TermColor::Rgb(1, 2, 3)), (1, 2, 3));
    assert_eq!(color_to_rgb(TermColor::Indexed(232)), (8, 8, 8));
    assert_eq!(color_to_rgb(TermColor::Indexed(255)), (238, 238, 238));
    assert_eq!(color_to_rgb(TermColor::Indexed(16)), (0, 0, 0));
    assert_eq!(color_to_rgb(TermColor::Indexed(214)), (255, 153, 0));
    assert_eq!(color_to_rgb(TermColor::Indexed(7)), (180, 180, 180));
    assert_eq!(color_to_rgb(TermColor::White), (240, 240, 240));
}

#[test]
fn king_in_check_is_marked_first() {
    let board = Board::from_fen("rnb1kbnr/pppp1ppp/8/4p3/6Pq/5P2/PPPPP2P/RNBQKBNR w KQkq - 1 3").unwrap();
    let theme = Theme::from_scheme(ColorScheme::Green);
    let w = ChessBoardWidget::new(&board, &theme).cursor(4, 0);
    assert!(w.in_check);
    assert_eq!(w.king_square, Some(sq("e1")));
    // The cursor is on e1 too, but the king in check is marked.
    assert_eq!(w.highlight_bg(4, 0, sq("e1")), Some(theme.check_bg));
    assert_eq!(w.highlight_bg(0, 0, sq("a1")), None);
    assert_eq!(w.get_piece(sq("h4")), Some((Piece::Queen, Color::Black)));
}

#[test]
fn selection_and_last_move_marks() {
    let board = Board::startpos();
    let theme = Theme::from_scheme(ColorScheme::Amber);
    let moves = vec![
        Move { from: sq("g1"), to: sq("f3"), promotion: None },
        Move { from: sq("g1"), to: sq("h3"), promotion: None },
    ];
    let w = ChessBoardWidget::new(&board, &theme)
        .selected(Some(sq("g1")))
        .legal_moves(&moves)
        .last_move(Some((sq("e2"), sq("e4"))))
        .flipped(true)
        .cursor(0, 0);
    assert!(!w.in_check);
    // Flipped: cursor (0, 0) is h8.
    assert_eq!(w.highlight_bg(7, 7, sq("h8")), Some(theme.cursor_bg));
    assert_eq!(w.highlight_bg(6, 0, sq("g1")), Some(theme.selected_bg));
    assert_eq!(w.highlight_bg(5, 2, sq("f3")), Some(theme.legal_move_bg));
    // e4 (file 4 + rank 3, odd) is a light square.
    assert_eq!(w.highlight_bg(4, 3, sq("e4")), Some(theme.last_move_light));
    let w2 = ChessBoardWidget::new(&board, &theme).last_move(Some((sq("d2"), sq("d4"))));
    assert_eq!(w2.highlight_bg(3, 1, sq("d2")), Some(theme.last_move_dark));
    assert_eq!(w.display_to_chess(0, 0), (7, 0));
    let rgb = highlight_color(5, 2, sq("f3"), &theme, true, Some((0, 0)), Some(sq("g1")), &moves, None, false, None);
    assert_eq!(rgb, Some(color_to_rgb(theme.legal_move_bg)));
}

#[test]
fn captured_symbols_and_material() {
    assert_eq!(chess_piece_symbol(Piece::Knight, Color::White), '♘');
    assert_eq!(piece_char(Piece::King, Color::Black), '♚');
    assert_eq!(piece_symbol(Piece::Queen, Color::Black), "♛");
    let white = vec![
        CapturedPiece { piece: Piece::Queen, color: Color::Black },
        CapturedPiece { piece: Piece::Pawn, color: Color::Black },
    ];
    let black = vec![CapturedPiece { piece: Piece::Rook, color: Color::White }];
    assert_eq!(captured_material(&white), 10);
    assert_eq!(material_difference(&white, &black), 5);
    assert_eq!(material_difference(&black, &white), -5);
}

#[test]
fn kitty_marks_and_transmission() {
    assert_eq!(diacritic(0), '\u{305}');
    assert_eq!(diacritic(1), '\u{30D}');
    assert_eq!(diacritic(296), '\u{1D244}');
    assert_eq!(diacritic(297), '\u{305}');
    assert_eq!(build_transmit_sequence(&[], 7), "");
    assert_eq!(
        build_transmit_sequence(b"hi", 7),
        "\x1b_Gq=2,i=7,a=T,U=1,f=100,t=d,m=0;aGk=\x1b\\"
    );
    let big = vec![0u8; 3073];
    let s = build_transmit_sequence(&big, 1);
    assert_eq!(s.matches("\x1b_G").count(), 2);
    assert!(s.contains("m=1;"));
    assert!(s.ends_with("m=0;AA==\x1b\\"));
}

#[test]
fn image_fingerprint() {
    assert_eq!(image_hash(&[]), 0xcbf29ce484222325);
    let one = image_hash(&[1]);
    assert_eq!(one, (0xcbf29ce484222325u64 ^ 1).wrapping_mul(0x100000001b3));
    // Only every 64th byte is sampled.
    let mut a = vec![0u8; 100];
    let b = a.clone();
    a[5] = 9;
    assert_eq!(image_hash(&a), image_hash(&b));
    a[64] = 9;
    assert_ne!(image_hash(&a), image_hash(&b));
}

#[test]
fn menu_layout_and_rows() {
    let r = center_block(Area { x: 10, y: 5, width: 80, height: 20 }, 44, 3);
    assert_eq!(r, Area { x: 28, y: 13, width: 44, height: 3 });
    let r = center_block(Area { x: 0, y: 0, width: 10, height: 2 }, 44, 3);
    assert_eq!(r, Area { x: 0, y: 0, width: 10, height: 2 });
    assert_eq!(replay_scroll(3, 10), 0);
    assert_eq!(replay_scroll(12, 10), 3);
    assert_eq!(scrollbar_cells(2, 5), "▄▄█▁▁");
    let header = replay_header();
    assert_eq!(header.chars().count(), 70);
    assert!(header.starts_with("  #     Date          Result                      Moves  Mode"));
    let game = SavedGame {
        id: "x".to_string(),
        date: "2024-03-05 18:22".to_string(),
        result: "1-0".to_string(),
        result_detail: "Checkmate".to_string(),
        mode: "Local".to_string(),
        moves: vec![],
        move_count: 23,
    };
    let row = replay_row(0, &game);
    assert!(row.starts_with("  1     2024-03-05    1-0 (Checkmate)                23  Local"));
    assert_eq!(row.chars().count(), 70);
}

#[test]
fn postgame_banner_texts() {
    let (text, icon) = result_headline(GameStatus::Finished(GameResult::Checkmate(Color::White)), "");
    assert_eq!((text.as_str(), icon), ("WHITE WINS BY CHECKMATE", "♔"));
    let (text, icon) = result_headline(GameStatus::Finished(GameResult::Resignation(Color::White)), "");
    assert_eq!((text.as_str(), icon), ("BLACK WINS BY RESIGNATION", "♚"));
    let (text, icon) = result_headline(GameStatus::InProgress, "White resigned");
    assert_eq!((text.as_str(), icon), ("WHITE RESIGNED", "?"));

    let mut app = App::new(&Config::default());
    app.game_mode = GameMode::VsAi(Color::Black);
    assert!(is_player_winner(&app, Color::White));
    assert!(!is_player_color(&app, Color::Black));
    app.game_mode = GameMode::Local;
    assert_eq!(opponent_line(&app), "Local game");
    app.game_mode = GameMode::Online { game_id: "g".to_string(), my_color: Color::Black, opponent_name: "ann".to_string() };
    assert_eq!(opponent_line(&app), "");
}
