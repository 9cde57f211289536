use chesstui::ai::{choose_move, minimax};
use chesstui::chess::{Board, Move, Piece, Square};
use chesstui::engine::cancel::{is_set, new_flag, set_flag};
use chesstui::engine::difficulty::DifficultyLevel;
use chesstui::engine::evaluation::{eval_terminal, evaluate, is_endgame_phase};
use chesstui::engine::move_sort::sort_by_score_desc;
use chesstui::engine::opening_book::{parse_uci_move, pick_weighted, BookMove, OpeningBook};
use chesstui::engine::personality::{acceptable_moves, apply_personality, blunder_plan, find_score, noise_choice, BlunderPlan};
use chesstui::engine::search::{deepening_result, keep_iteration, Deepening, SearchEngine};
use chesstui::engine::ChessAI;
use chesstui::game::notation::parse_square;

fn sq(name: &str) -> Square {
    parse_square(name).unwrap()
}

fn mv(from: &str, to: &str) -> Move {
    Move { from: sq(from), to: sq(to), promotion: None }
}

fn fen(s: &str) -> Board {
    Board::from_fen(s).unwrap()
}

#[test]
fn starting_position_evaluates_to_zero() {
    let board = Board::startpos();
    let level = DifficultyLevel::from_level(10);
    assert_eq!(evaluate(&board, &level.eval), 0);
    let black = fen("rnbqkbnr/pppppppp/8/8/8/8/PPPPPPPP/RNBQKBNR b KQkq - 0 1");
    assert_eq!(evaluate(&black, &level.eval), 0);
}

#[test]
fn evaluation_changes_sign_with_the_side_to_move() {
    let level = DifficultyLevel::from_level(10);
    let white = fen("4k3/8/8/8/8/8/4P3/4K2Q w - - 0 1");
    let black = fen("4k3/8/8/8/8/8/4P3/4K2Q b - - 0 1");
    let w = evaluate(&white, &level.eval);
    assert!(w > 900);
    assert_eq!(evaluate(&black, &level.eval), -w);
}

#[test]
fn material_only_evaluation() {
    let level = DifficultyLevel::from_level(1);
    // Level 1 counts material only: a queen and a pawn against nothing.
    let board = fen("4k3/8/8/8/8/8/4P3/4K2Q w - - 0 1");
    assert!(level.eval.material);
    let s = evaluate(&board, &level.eval);
    assert!(s >= 1000);
}

#[test]
fn terminal_scores() {
    // Fool's mate: White is mated.
    let mated = fen("rnb1kbnr/pppp1ppp/8/4p3/6Pq/5P2/PPPPP2P/RNBQKBNR w KQkq - 1 3");
    assert_eq!(eval_terminal(&mated), -20000);
    let stalemate = fen("7k/5Q2/6K1/8/8/8/8/8 b - - 0 1");
    assert_eq!(eval_terminal(&stalemate), 0);
}

#[test]
fn endgame_phase() {
    assert!(!is_endgame_phase(&Board::startpos()));
    assert!(is_endgame_phase(&fen("4k3/8/8/8/8/8/4P3/4K3 w - - 0 1")));
    // A queen and a minor piece each is still an endgame.
    assert!(is_endgame_phase(&fen("4k3/8/8/3nq3/8/8/3NQ3/4K3 w - - 0 1")));
    assert!(is_endgame_phase(&fen("3qk3/8/8/8/8/8/8/3QK3 w - - 0 1")));
    // A queen and a rook on one side is too much.
    assert!(!is_endgame_phase(&fen("3qk3/8/8/8/8/8/8/R2QK3 w - - 0 1")));
}

#[test]
fn search_finds_mate_in_one() {
    let board = fen("r1bqkb1r/pppp1ppp/2n2n2/4p2Q/2B1P3/8/PPPP1PPP/RNB1K1NR w KQkq - 4 4");
    let mut engine = SearchEngine::new(DifficultyLevel::from_level(1), new_flag());
    let res = engine.iterative_deepening(&board, std::time::Instant::now()).unwrap();
    assert_eq!(res.chosen_move, mv("h5", "f7"));
    assert_eq!(res.pv[0], res.chosen_move);
    assert_eq!(res.eval_cp, 20000);
    assert_eq!(res.depth_reached, 1);
}

#[test]
fn search_with_zero_depth_finds_nothing() {
    let mut level = DifficultyLevel::from_level(1);
    level.max_depth = 0;
    let mut engine = SearchEngine::new(level, new_flag());
    assert!(engine.iterative_deepening(&Board::startpos(), std::time::Instant::now()).is_none());
}

#[test]
fn all_moves_scored_best_first() {
    let board = fen("4k3/8/8/3q4/4P3/8/8/4K3 w - - 0 1");
    let engine = SearchEngine::new(DifficultyLevel::from_level(1), new_flag());
    let scored = engine.evaluate_all_moves(&board);
    assert_eq!(scored.len(), board.legal_moves().len());
    for w in scored.windows(2) {
        assert!(w[0].1 >= w[1].1);
    }
    // Taking the queen is best by material.
    assert_eq!(scored[0].0, mv("e4", "d5"));
}

#[test]
fn stable_sort_keeps_order_of_ties() {
    let v = vec![(1u8, 1), (2u8, 3), (3u8, 1), (4u8, 3)];
    let sorted = sort_by_score_desc(&v);
    assert_eq!(sorted, vec![(2, 3), (4, 3), (1, 1), (3, 1)]);
}

#[test]
fn uci_moves_parse_when_legal() {
    let board = Board::startpos();
    assert_eq!(parse_uci_move(&board, "e2e4"), Some(mv("e2", "e4")));
    assert_eq!(parse_uci_move(&board, "e2e5"), None);
    assert_eq!(parse_uci_move(&board, "e2"), None);
    assert_eq!(parse_uci_move(&board, "z9e4"), None);
    let promo = fen("8/4P3/8/8/8/8/8/4K2k w - - 0 1");
    assert_eq!(
        parse_uci_move(&promo, "e7e8n"),
        Some(Move { from: sq("e7"), to: sq("e8"), promotion: Some(Piece::Knight) })
    );
}

#[test]
fn weighted_pick_by_roll() {
    let a = mv("e2", "e4");
    let b = mv("d2", "d4");
    let c = vec![BookMove { mv: a, weight: 10 }, BookMove { mv: b, weight: 5 }];
    assert_eq!(pick_weighted(&c, 0), a);
    assert_eq!(pick_weighted(&c, 9), a);
    assert_eq!(pick_weighted(&c, 10), b);
    assert_eq!(pick_weighted(&c, 14), b);
    assert_eq!(pick_weighted(&c, 15), a);
}

#[test]
fn book_has_moves_for_the_start_only_from_its_lines() {
    let book = OpeningBook::new();
    let first = [mv("e2", "e4"), mv("d2", "d4"), mv("c2", "c4"), mv("g1", "f3")];
    for _ in 0..20 {
        let m = book.probe(&Board::startpos(), &Vec::new()).unwrap();
        assert!(first.contains(&m));
    }
    let odd = fen("4k3/8/8/8/8/8/8/4K3 w - - 0 1");
    assert_eq!(book.probe(&odd, &Vec::new()), None);
}

#[test]
fn acceptable_and_noise_choice() {
    let a = mv("e2", "e4");
    let b = mv("d2", "d4");
    let c = mv("g1", "f3");
    let moves = vec![(a, 50), (b, 20), (c, -100)];
    let ok = acceptable_moves(&moves, 50, 40);
    assert_eq!(ok, vec![(a, 50), (b, 20)]);
    assert_eq!(find_score(&moves, b), Some(20));
    assert_eq!(find_score(&moves, mv("a2", "a3")), None);
    // Noise makes b look best; it loses 30, within 40.
    let noisy = vec![(a, 40), (b, 60), (c, -90)];
    assert_eq!(noise_choice(&moves, &noisy, a, 50, 40), Some(b));
    assert_eq!(noise_choice(&moves, &noisy, a, 50, 20), None);
    let calm = vec![(a, 60), (b, 20), (c, -90)];
    assert_eq!(noise_choice(&moves, &calm, a, 50, 40), None);
}

#[test]
fn blunder_kinds() {
    let board = fen("4k3/8/8/3q4/4P3/8/8/4K3 w - - 0 1");
    let level = DifficultyLevel::from_level(1);
    let take = mv("e4", "d5");
    let push = mv("e4", "e5");
    let king = mv("e1", "d1");
    let moves = vec![(take, 900), (push, 850), (king, 800)];
    // Greedy: the first capture.
    match blunder_plan(&board, &moves, 900, &level, 70) {
        BlunderPlan::Play(m) => assert_eq!(m, take),
        _ => panic!("expected a move"),
    }
    // Second best.
    match blunder_plan(&board, &moves, 900, &level, 90) {
        BlunderPlan::Play(m) => assert_eq!(m, push),
        _ => panic!("expected a move"),
    }
    // Lazy: the quiet moves.
    match blunder_plan(&board, &moves, 900, &level, 50) {
        BlunderPlan::Quiet(q) => assert_eq!(q, vec![push, king]),
        _ => panic!("expected quiet moves"),
    }
    // Tempting: no capture or check other than the top move.
    assert!(matches!(blunder_plan(&board, &moves, 900, &level, 10), BlunderPlan::Nothing));
    // A roll of 100 or more is no blunder.
    assert!(matches!(blunder_plan(&board, &moves, 900, &level, 100), BlunderPlan::Nothing));
}

#[test]
fn strong_levels_keep_the_best_move() {
    let level = DifficultyLevel::from_level(10);
    assert_eq!(level.personality.blunder_rate_permille, 0);
    assert_eq!(level.personality.eval_noise_cp, 0);
    let engine = SearchEngine::new(level, new_flag());
    let board = Board::startpos();
    assert_eq!(apply_personality(&board, &level, &vec![mv("e2", "e4")], 0, &engine), None);
}

#[test]
fn weak_levels_play_legal_moves() {
    let level = DifficultyLevel::from_level(1);
    let engine = SearchEngine::new(level, new_flag());
    let board = Board::startpos();
    let legal = board.legal_moves();
    for _ in 0..5 {
        if let Some(m) = apply_personality(&board, &level, &vec![mv("e2", "e4")], 0, &engine) {
            assert!(legal.contains(&m));
        }
    }
}

#[test]
fn engine_answers_with_a_legal_move() {
    let ai = ChessAI::new(3);
    let board = Board::startpos();
    let res = ai.think(&board, &Vec::new()).unwrap();
    assert!(board.legal_moves().contains(&res.chosen_move));
    assert!(!res.pv.is_empty());
}

#[test]
fn simple_opponent_mates() {
    let board = fen("7k/8/6K1/8/8/8/8/1Q6 w - - 0 1");
    let m = choose_move(&board).unwrap();
    let after = board.play(m).unwrap();
    assert!(after.legal_moves().is_empty());
    assert!(after.in_check());
}

#[test]
fn simple_opponent_without_moves() {
    let stalemate = fen("7k/5Q2/6K1/8/8/8/8/8 b - - 0 1");
    assert_eq!(choose_move(&stalemate), None);
}

#[test]
fn minimax_depth_zero_is_material_and_center() {
    let board = Board::startpos();
    assert_eq!(minimax(&board, 0, i32::MIN, i32::MAX, true), 0);
    let up = fen("4k3/8/8/8/3P4/8/8/4K3 w - - 0 1");
    assert_eq!(minimax(&up, 0, i32::MIN, i32::MAX, true), 110);
}

#[test]
fn book_levels_answer_from_the_book() {
    let ai = ChessAI::new(5);
    let board = Board::startpos();
    let res = ai.think(&board, &Vec::new()).unwrap();
    let first = [mv("e2", "e4"), mv("d2", "d4"), mv("c2", "c4"), mv("g1", "f3")];
    assert!(first.contains(&res.chosen_move));
    assert_eq!(res.pv, vec![res.chosen_move]);
    assert_eq!(res.depth_reached, 0);
    assert_eq!(res.nodes_searched, 0);
    assert_eq!(res.eval_cp, 0);
}

#[test]
fn cancel_flag_is_the_engines_own() {
    let ai = ChessAI::new(4);
    let flag = ai.cancel_flag();
    let other = ai.cancel_flag();
    assert!(!is_set(&flag));
    set_flag(&flag, true);
    assert!(is_set(&other));
    let fresh = new_flag();
    assert!(!is_set(&fresh));
}

#[test]
fn deepening_keeps_the_last_completed_iteration() {
    let mut kept = Deepening { best_move: None, score: 0, pv: Vec::new(), depth: 0 };
    // An iteration cut short with nothing kept yet still gives its line.
    assert!(keep_iteration(&mut kept, 1, vec![mv("e2", "e4")], 30, true));
    assert_eq!((kept.best_move, kept.depth, kept.score), (Some(mv("e2", "e4")), 1, 30));
    assert!(keep_iteration(&mut kept, 2, vec![mv("d2", "d4"), mv("d7", "d5")], 25, false));
    assert_eq!((kept.best_move, kept.depth, kept.pv.len()), (Some(mv("d2", "d4")), 2, 2));
    // An empty line keeps what was there.
    assert!(keep_iteration(&mut kept, 3, Vec::new(), -5, false));
    assert_eq!((kept.best_move, kept.depth), (Some(mv("d2", "d4")), 2));
    // An interrupted iteration is dropped and the deepening stops.
    assert!(!keep_iteration(&mut kept, 4, vec![mv("g1", "f3")], 99, true));
    assert_eq!((kept.best_move, kept.depth, kept.score), (Some(mv("d2", "d4")), 2, 25));
    let res = deepening_result(kept, 1234, std::time::Duration::from_millis(7)).unwrap();
    assert_eq!(res.chosen_move, mv("d2", "d4"));
    assert_eq!(res.depth_reached, 2);
    assert_eq!(res.pv, vec![mv("d2", "d4"), mv("d7", "d5")]);
    assert_eq!((res.eval_cp, res.nodes_searched, res.think_time), (25, 1234, std::time::Duration::from_millis(7)));
    let none = Deepening { best_move: None, score: 0, pv: Vec::new(), depth: 0 };
    assert!(deepening_result(none, 1, std::time::Duration::from_millis(1)).is_none());
}

#[test]
fn deeper_search_reports_a_completed_depth() {
    let board = fen("r1bqkb1r/pppp1ppp/2n2n2/4p2Q/2B1P3/8/PPPP1PPP/RNB1K1NR w KQkq - 4 4");
    let level = DifficultyLevel::from_level(3);
    let max = level.max_depth;
    let mut engine = SearchEngine::new(level, new_flag());
    let res = engine.iterative_deepening(&board, std::time::Instant::now()).unwrap();
    assert!(1 <= res.depth_reached && res.depth_reached <= max);
    assert!(board.legal_moves().contains(&res.chosen_move));
}
