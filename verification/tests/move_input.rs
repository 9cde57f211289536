use chesstui::chess::Board;
use chesstui::game::move_input::{san_matches, InputResult, MoveInputParser};
use chesstui::game::notation::parse_square;

#[test]
fn pawn_e4_from_starting_position() {
    let board = Board::default();
    let mut parser = MoveInputParser::new(&board);
    match parser.feed('e') {
        InputResult::NeedMore(n) => assert!(n >= 2),
        other => panic!("Expected NeedMore, got {:?}", other),
    }
    match parser.feed('4') {
        InputResult::Exact(mv) => {
            assert_eq!(mv.from, parse_square("e2").unwrap());
            assert_eq!(mv.to, parse_square("e4").unwrap());
        }
        other => panic!("Expected Exact, got {:?}", other),
    }
}

#[test]
fn knight_nf3_from_starting_position() {
    let board = Board::default();
    let mut parser = MoveInputParser::new(&board);
    assert!(matches!(parser.feed('N'), InputResult::NeedMore(_)));
    assert!(matches!(parser.feed('f'), InputResult::NeedMore(_)));
    match parser.feed('3') {
        InputResult::Exact(mv) => {
            assert_eq!(mv.to, parse_square("f3").unwrap());
        }
        other => panic!("Expected Exact, got {:?}", other),
    }
}

#[test]
fn invalid_input_returns_no_match() {
    let board = Board::default();
    let mut parser = MoveInputParser::new(&board);
    parser.feed('z');
    match parser.feed('9') {
        InputResult::NoMatch => {}
        _ => {}
    }
}

#[test]
fn square_to_square_e2e4() {
    let board = Board::default();
    let mut parser = MoveInputParser::new(&board);
    parser.feed('e');
    parser.feed('2');
    parser.feed('e');
    match parser.feed('4') {
        InputResult::Exact(mv) => {
            assert_eq!(mv.from, parse_square("e2").unwrap());
            assert_eq!(mv.to, parse_square("e4").unwrap());
        }
        other => panic!("Expected Exact for e2e4, got {:?}", other),
    }
}

#[test]
fn castling_oo() {
    let board =
        Board::from_fen("r1bqk2r/ppppbppp/2n2n2/4p3/2B1P3/5N2/PPPP1PPP/RNBQK2R w KQkq - 4 4").unwrap();
    let mut parser = MoveInputParser::new(&board);
    assert!(matches!(parser.feed('O'), InputResult::NeedMore(_)));
    match parser.feed('O') {
        InputResult::Exact(mv) => {
            assert_eq!(mv.from, parse_square("e1").unwrap());
        }
        other => panic!("Expected Exact for O-O, got {:?}", other),
    }
}

#[test]
fn buffer_and_reset() {
    let board = Board::default();
    let mut parser = MoveInputParser::new(&board);
    parser.feed('e');
    assert_eq!(parser.buffer(), "e");
    parser.reset();
    assert_eq!(parser.buffer(), "");
}

#[test]
fn san_matches_direct() {
    assert!(san_matches("e4", "e"));
    assert!(san_matches("e4", "e4"));
    assert!(!san_matches("e4", "e5"));
}

#[test]
fn san_matches_lenient_x() {
    assert!(san_matches("exd5", "ed5"));
    assert!(san_matches("exd5", "exd5"));
}

#[test]
fn san_matches_strips_check_suffix() {
    assert!(san_matches("Nf3+", "Nf3"));
    assert!(san_matches("Qh5#", "Qh5"));
}

#[test]
fn coordinate_castling_and_promotion_default() {
    let board =
        Board::from_fen("r1bqk2r/ppppbppp/2n2n2/4p3/2B1P3/5N2/PPPP1PPP/RNBQK2R w KQkq - 4 4").unwrap();
    let mut parser = MoveInputParser::new(&board);
    for c in "e1g".chars() {
        parser.feed(c);
    }
    match parser.feed('1') {
        InputResult::Exact(mv) => assert_eq!(mv.to, parse_square("h1").unwrap()),
        other => panic!("Expected Exact for e1g1, got {:?}", other),
    }
    let board = Board::from_fen("8/4P3/8/8/8/8/8/4K2k w - - 0 1").unwrap();
    let mut parser = MoveInputParser::new(&board);
    for c in "e7e".chars() {
        parser.feed(c);
    }
    // Without a promotion letter no promotion fits the coordinates.
    assert!(matches!(parser.feed('8'), InputResult::NoMatch));
    let mut parser = MoveInputParser::new(&board);
    for c in "e7e8".chars() {
        parser.feed(c);
    }
    match parser.feed('n') {
        InputResult::Exact(mv) => assert_eq!(mv.promotion, Some(chesstui::chess::Piece::Knight)),
        other => panic!("Expected the knight promotion, got {:?}", other),
    }
}

#[test]
fn matching_moves_follow_san_input() {
    let board = Board::default();
    let mut parser = MoveInputParser::new(&board);
    assert_eq!(parser.matching_moves().len(), 20);
    parser.feed('N');
    let names: Vec<String> = parser.matching_moves().into_iter().map(|(_, s)| s).collect();
    assert_eq!(names.len(), 4);
    assert!(names.iter().all(|s| s.starts_with('N')));
    assert!(matches!(parser.feed('x'), InputResult::NeedMore(4)));
    assert!(matches!(parser.feed('z'), InputResult::NoMatch));
}
