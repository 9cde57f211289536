use chesstui::chess::{Board, Piece};
use chesstui::game::notation::{parse_san, to_algebraic};

fn piece_moves_read_back(fen: &str) -> usize {
    let board = Board::from_fen(fen).unwrap();
    let mut checked = 0;
    for m in board.legal_moves() {
        let piece = board.piece_on(m.from).unwrap();
        let castles = piece == Piece::King && board.color_on(m.to) == Some(board.side_to_move());
        if piece == Piece::Pawn || castles {
            continue;
        }
        let san = to_algebraic(&board, &m);
        assert_eq!(parse_san(&board, &san), Some(m), "{} in {}", san, fen);
        checked += 1;
    }
    checked
}

#[test]
fn piece_moves_read_back_from_their_san() {
    assert_eq!(piece_moves_read_back("rnbqkbnr/pppppppp/8/8/8/8/PPPPPPPP/RNBQKBNR w KQkq - 0 1"), 4);
    // Rooks on one rank, knights that share a destination, and checks.
    assert!(piece_moves_read_back("4k3/8/8/8/8/2N3N1/8/R3K2R w KQ - 0 1") > 20);
    assert!(piece_moves_read_back("3k4/8/8/3N1N2/8/3N1N2/8/4K3 w - - 0 1") > 20);
    assert!(piece_moves_read_back("r3k2r/8/8/8/8/8/8/R3K2R b KQkq - 0 1") > 20);
}
