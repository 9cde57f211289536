use chesstui::chess::{Board, File, Move, Piece, Rank, Square};
use chesstui::game::notation::{parse_san, parse_square, to_algebraic};

fn sq(name: &str) -> Square {
    parse_square(name).unwrap()
}

fn mv(from: &str, to: &str, promotion: Option<Piece>) -> Move {
    Move { from: sq(from), to: sq(to), promotion }
}

fn fen(f: &str) -> Board {
    Board::from_fen(f).unwrap()
}

// ─── Basic piece moves ────────────────────────────────────────────────────────

#[test]
fn pawn_move_e4() {
    let board = Board::default();
    assert_eq!(to_algebraic(&board, &mv("e2", "e4", None)), "e4");
}

#[test]
fn knight_move_nf3() {
    let board = Board::default();
    assert_eq!(to_algebraic(&board, &mv("g1", "f3", None)), "Nf3");
}

// ─── Pawn capture ─────────────────────────────────────────────────────────────

#[test]
fn pawn_capture_exd5() {
    let board = fen("rnbqkbnr/ppp1pppp/8/3p4/4P3/8/PPPP1PPP/RNBQKBNR w KQkq d6 0 2");
    assert_eq!(to_algebraic(&board, &mv("e4", "d5", None)), "exd5");
}

// ─── Promotion ────────────────────────────────────────────────────────────────

#[test]
fn promotion_e8_queen() {
    let board = fen("8/4P3/8/8/8/8/8/4K2k w - - 0 1");
    assert_eq!(to_algebraic(&board, &mv("e7", "e8", Some(Piece::Queen))), "e8=Q");
}

#[test]
fn promotion_e8_knight() {
    let board = fen("8/4P3/8/8/8/8/8/4K2k w - - 0 1");
    assert_eq!(to_algebraic(&board, &mv("e7", "e8", Some(Piece::Knight))), "e8=N");
}

// ─── Castling (written as the king moving onto its rook) ─────────────────────

#[test]
fn white_kingside_castling() {
    let board = fen("r1bqk2r/ppppbppp/2n2n2/4p3/2B1P3/5N2/PPPP1PPP/RNBQK2R w KQkq - 4 4");
    assert_eq!(to_algebraic(&board, &mv("e1", "h1", None)), "O-O");
}

#[test]
fn white_queenside_castling() {
    let board = fen("r3k2r/ppppbppp/2n2n2/4p3/2B1P3/3B1N2/PPPPQPPP/R3K2R w KQkq - 4 4");
    assert_eq!(to_algebraic(&board, &mv("e1", "a1", None)), "O-O-O");
}

#[test]
fn black_kingside_castling() {
    let board = fen("r3k2r/ppppbppp/2n2n2/4p3/2B1P3/5N2/PPPP1PPP/R3K2R b KQkq - 4 4");
    assert_eq!(to_algebraic(&board, &mv("e8", "h8", None)), "O-O");
}

#[test]
fn black_queenside_castling() {
    let board = fen("r3k2r/ppppbppp/2n2n2/4p3/2B1P3/5N2/PPPP1PPP/R3K2R b KQkq - 4 4");
    assert_eq!(to_algebraic(&board, &mv("e8", "a8", None)), "O-O-O");
}

// ─── Check / Checkmate suffixes ───────────────────────────────────────────────

#[test]
fn check_suffix() {
    let board = fen("rnbqkbnr/pppp1ppp/8/4p2Q/2B1P3/8/PPPP1PPP/RNB1K1NR w KQkq - 2 3");
    assert_eq!(to_algebraic(&board, &mv("h5", "f7", None)), "Qxf7#");
}

#[test]
fn move_gives_check_not_checkmate() {
    let board = fen("rnbqkbnr/pppp1ppp/8/4p3/2B1P3/8/PPPP1PPP/RNBQK1NR w KQkq - 2 3");
    assert_eq!(to_algebraic(&board, &mv("c4", "f7", None)), "Bxf7+");
}

// ─── Disambiguation ───────────────────────────────────────────────────────────

#[test]
fn rook_disambiguation_by_file() {
    let board = fen("4k3/8/8/8/8/4K3/8/R6R w - - 0 1");
    assert_eq!(to_algebraic(&board, &mv("a1", "d1", None)), "Rad1");
}

#[test]
fn rook_disambiguation_by_rank() {
    let board = fen("4k3/R7/8/8/8/8/R7/4K3 w - - 0 1");
    assert_eq!(to_algebraic(&board, &mv("a2", "a4", None)), "R2a4");
}

// ─── En-passant ───────────────────────────────────────────────────────────────

#[test]
fn en_passant_exd6() {
    let board = fen("rnbqkbnr/ppp1pppp/8/3pP3/8/8/PPPP1PPP/RNBQKBNR w KQkq d6 0 3");
    assert_eq!(to_algebraic(&board, &mv("e5", "d6", None)), "exd6");
}

// ─── Characters of files, ranks and pieces ────────────────────────────────────

#[test]
fn file_rank_chars() {
    assert_eq!(File::A.to_char(), 'a');
    assert_eq!(File::H.to_char(), 'h');
    assert_eq!(Rank::First.to_char(), '1');
    assert_eq!(Rank::Eighth.to_char(), '8');
}

#[test]
fn piece_chars() {
    assert_eq!(Piece::Knight.letter(), 'N');
    assert_eq!(Piece::Queen.letter(), 'Q');
    assert_eq!(Piece::Pawn.letter(), 'P');
}

#[test]
fn parse_square_roundtrip() {
    let s = parse_square("e4").unwrap();
    assert_eq!(s, Square::new(File::E, Rank::Fourth));
    assert!(parse_square("z9").is_none());
}

// ─── Reading SAN back ─────────────────────────────────────────────────────────

#[test]
fn parse_san_finds_moves() {
    let board = Board::default();
    assert_eq!(parse_san(&board, "e4"), Some(mv("e2", "e4", None)));
    assert_eq!(parse_san(&board, "Nf3"), Some(mv("g1", "f3", None)));
    assert_eq!(parse_san(&board, "Nf3+"), Some(mv("g1", "f3", None)));
    assert_eq!(parse_san(&board, "e5"), None);
    assert_eq!(parse_san(&board, "xx"), None);
    assert_eq!(parse_san(&board, "Nz9"), None);
    assert_eq!(parse_san(&board, ""), None);
}

#[test]
fn parse_san_castling_and_captures() {
    let board = fen("r1bqk2r/ppppbppp/2n2n2/4p3/2B1P3/5N2/PPPP1PPP/RNBQK2R w KQkq - 4 4");
    assert_eq!(parse_san(&board, "O-O"), Some(mv("e1", "h1", None)));
    assert_eq!(parse_san(&board, "O-O-O"), None);
    let board = fen("rnbqkbnr/ppp1pppp/8/3p4/4P3/8/PPPP1PPP/RNBQKBNR w KQkq d6 0 2");
    assert_eq!(parse_san(&board, "exd5"), Some(mv("e4", "d5", None)));
    assert_eq!(parse_san(&board, "ed5"), Some(mv("e4", "d5", None)));
    let board = fen("8/4P3/8/8/8/8/8/4K2k w - - 0 1");
    assert_eq!(parse_san(&board, "e8=N"), Some(mv("e7", "e8", Some(Piece::Knight))));
    let board = fen("4k3/8/8/8/8/4K3/8/R6R w - - 0 1");
    assert_eq!(parse_san(&board, "Rad1"), Some(mv("a1", "d1", None)));
    assert_eq!(parse_san(&board, "Rhd1"), Some(mv("h1", "d1", None)));
}

#[test]
fn fen_round_trip() {
    let text = "r1bqk2r/ppppbppp/2n2n2/4p3/2B1P3/5N2/PPPP1PPP/RNBQK2R w KQkq - 4 4";
    assert_eq!(fen(text).fen(), text);
    let text = "rnbqkbnr/ppp1pppp/8/3pP3/8/8/PPPP1PPP/RNBQKBNR w KQkq d6 0 3";
    assert_eq!(fen(text).fen(), text);
    assert_eq!(Board::default().fen(), "rnbqkbnr/pppppppp/8/8/8/8/PPPPPPPP/RNBQKBNR w KQkq - 0 1");
    assert!(Board::from_fen("not a fen").is_none());
}

#[test]
fn san_reads_back_without_its_marks() {
    let board = fen("4k3/8/8/4p3/8/5N2/8/3QK3 w - - 0 1");
    let capture = mv("f3", "e5", None);
    assert_eq!(to_algebraic(&board, &capture), "Nxe5");
    assert_eq!(parse_san(&board, "Nxe5"), Some(capture));
    assert_eq!(parse_san(&board, "Ne5"), Some(capture));
    let check = mv("d1", "d7", None);
    assert_eq!(to_algebraic(&board, &check), "Qd7+");
    assert_eq!(parse_san(&board, "Qd7+"), Some(check));
    assert_eq!(parse_san(&board, "Qd7"), Some(check));
}

fn assert_every_san_reads_back(f: &str) {
    let board = fen(f);
    let moves = board.legal_moves();
    assert!(!moves.is_empty());
    for m in moves {
        let san = to_algebraic(&board, &m);
        assert_eq!(parse_san(&board, &san), Some(m), "{}", san);
        let unmarked = san.trim_end_matches('+').trim_end_matches('#').to_string();
        assert_eq!(parse_san(&board, &unmarked), Some(m), "{}", unmarked);
        let no_x: String = san.chars().filter(|c| *c != 'x').collect();
        assert_eq!(parse_san(&board, &no_x), Some(m), "{}", no_x);
    }
}

#[test]
fn every_san_reads_back() {
    assert_every_san_reads_back("rnbqkbnr/pppppppp/8/8/8/8/PPPPPPPP/RNBQKBNR w KQkq - 0 1");
    // En passant, pawn pushes and double steps.
    assert_every_san_reads_back("4k3/8/8/3pP3/8/8/2P5/4K3 w - d6 0 1");
    // Promotions, with and without capture, giving check.
    assert_every_san_reads_back("3r2k1/4P3/8/8/8/8/8/4K3 w - - 0 1");
    // Castling on both sides, for both colors.
    assert_every_san_reads_back("r3k2r/8/8/8/8/8/8/R3K2R w KQkq - 0 1");
    assert_every_san_reads_back("r3k2r/8/8/8/8/8/8/R3K2R b KQkq - 0 1");
}

#[test]
fn pawn_and_castling_san_read_back() {
    let board = fen("4k3/8/8/3pP3/8/8/8/4K3 w - d6 0 1");
    assert_eq!(to_algebraic(&board, &mv("e5", "d6", None)), "exd6");
    assert_eq!(parse_san(&board, "exd6"), Some(mv("e5", "d6", None)));
    assert_eq!(parse_san(&board, "ed6"), Some(mv("e5", "d6", None)));
    assert_eq!(parse_san(&board, "e6"), Some(mv("e5", "e6", None)));
    let board = fen("r3k2r/8/8/8/8/8/8/R3K2R w KQkq - 0 1");
    assert_eq!(to_algebraic(&board, &mv("e1", "h1", None)), "O-O");
    assert_eq!(parse_san(&board, "O-O"), Some(mv("e1", "h1", None)));
    assert_eq!(parse_san(&board, "O-O-O"), Some(mv("e1", "a1", None)));
}
