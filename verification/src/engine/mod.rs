//! The chess engine: evaluation, search, difficulty levels, the opening
//! book and the personality that makes weak levels play like people.
use vstd::prelude::*;
use std::sync::Arc;
use std::sync::atomic::AtomicBool;
use std::time::Instant;
use crate::chess::types::Move;
use crate::chess::board::{hash_of, legal_moves_of, Board, BoardModel};
use crate::clock::instant_now;
use crate::engine::cancel::{new_flag, set_flag, share};
use crate::engine::difficulty::{clamp_level, level_numbers, numbers_of, DifficultyLevel};
use crate::engine::opening_book::OpeningBook;
use crate::engine::personality::apply_personality;
use crate::engine::search::{legal_for_hash, SearchEngine};

pub mod tables;
pub mod difficulty;
pub mod evaluation;
pub mod move_sort;
pub mod cancel;
pub mod search;
pub mod personality;
pub mod opening_book;

verus! {

/// What the engine answers for a position.
pub struct AIResult {
    pub chosen_move: Move,
    /// The evaluation in centipawns from the engine's side (positive: good for it).
    pub eval_cp: i32,
    /// How many nodes the search visited.
    pub nodes_searched: u64,
    /// How long the computation took.
    pub think_time: std::time::Duration,
    /// The best line found.
    pub pv: Vec<Move>,
    /// The search depth.
    pub depth_reached: u8,
}

/// The engine as the game uses it: a difficulty level, the opening book,
/// and a flag with which the interface stops a search early.
pub struct ChessAI {
    difficulty: DifficultyLevel,
    opening_book: OpeningBook,
    cancel: Arc<AtomicBool>,
}

/// The settings that the search and the personality need of a level.
pub open spec fn usable_level(d: DifficultyLevel) -> bool {
    &&& d.tt_size <= 0x4000_0000
    &&& 0 <= d.personality.eval_noise_cp <= 1_000_000
}

proof fn lemma_levels_usable(level: u8, d: DifficultyLevel)
    requires
        numbers_of(d) == level_numbers(clamp_level(level)),
    ensures
        usable_level(d),
{
}

impl ChessAI {
    #[verifier::type_invariant]
    spec fn inv(self) -> bool {
        usable_level(self.difficulty) && self.opening_book.wf()
    }

    pub closed spec fn spec_difficulty(&self) -> DifficultyLevel {
        self.difficulty
    }

    /// The engine's opening book.
    pub closed spec fn spec_book(&self) -> OpeningBook {
        self.opening_book
    }

    /// Whether the book has moves for the position and every one of them is
    /// legal there.
    pub open spec fn book_answers(&self, b: BoardModel) -> bool {
        let moves = self.spec_book().moves_for(hash_of(b));
        &&& moves.len() > 0
        &&& forall|i: int| 0 <= i < moves.len() ==> legal_moves_of(b).contains(#[trigger] moves[i].mv)
    }

    /// An engine at a level (clamped to 1..=10).
    pub fn new(level: u8) -> (ai: ChessAI)
        ensures
            ai.spec_difficulty().level == clamp_level(level),
            numbers_of(ai.spec_difficulty()) == level_numbers(clamp_level(level)),
    {
        let difficulty = DifficultyLevel::from_level(level);
        proof {
            lemma_levels_usable(level, difficulty);
        }
        ChessAI { difficulty, opening_book: OpeningBook::new(), cancel: new_flag() }
    }

    /// The flag that stops this engine's searches.
    pub closed spec fn spec_cancel(&self) -> Arc<AtomicBool> {
        self.cancel
    }

    /// Another handle on the flag that stops a search: setting it stops
    /// the searches this engine runs.
    pub fn cancel_flag(&self) -> (r: Arc<AtomicBool>)
        ensures
            r == self.spec_cancel(),
    {
        share(&self.cancel)
    }

    /// Changes the level (clamped to 1..=10).
    pub fn set_difficulty(&mut self, level: u8)
        ensures
            final(self).spec_difficulty().level == clamp_level(level),
            numbers_of(final(self).spec_difficulty()) == level_numbers(clamp_level(level)),
    {
        proof {
            use_type_invariant(&*self);
        }
        let difficulty = DifficultyLevel::from_level(level);
        proof {
            lemma_levels_usable(level, difficulty);
        }
        self.difficulty = difficulty;
    }

    pub fn difficulty(&self) -> (d: &DifficultyLevel)
        ensures
            *d == self.spec_difficulty(),
    {
        &self.difficulty
    }

    /// The engine's move for a position: a book move when the level uses
    /// the book and the book has a legal one; otherwise the search's move,
    /// which the level's personality may replace by a human-like one.
    ///
    /// Whatever the clock, the flag and the random draws do, an answer has
    /// a line, and its move is the first move of that line or a legal move
    /// of the position; either way it is legal in a position with the
    /// board's hash (in the board itself, unless another position that the
    /// search met shares that hash).
    pub fn think(&self, board: &Board, move_history: &Vec<Move>) -> (r: Option<AIResult>)
        ensures
            r matches Some(res) ==> res.pv@.len() > 0 && (res.chosen_move == res.pv@[0] || legal_moves_of(
                board@,
            ).contains(res.chosen_move)) && legal_for_hash(hash_of(board@), res.chosen_move),
            self.spec_difficulty().use_opening_book && self.book_answers(board@) ==> (r matches Some(res)
                && res.pv@ == seq![res.chosen_move] && res.eval_cp == 0 && res.nodes_searched == 0
                && res.depth_reached == 0 && exists|i: int|
                0 <= i < self.spec_book().moves_for(hash_of(board@)).len()
                    && #[trigger] self.spec_book().moves_for(hash_of(board@))[i].mv == res.chosen_move),
    {
        proof {
            use_type_invariant(self);
        }
        set_flag(&self.cancel, false);
        let start = instant_now();
        if self.difficulty.use_opening_book {
            match self.opening_book.probe(board, move_history) {
                Some(book_move) => {
                    let legal = board.legal_moves();
                    let mut i: usize = 0;
                    while i < legal.len()
                        invariant
                            i <= legal.len(),
                            legal@ == legal_moves_of(board@),
                            forall|j: int| 0 <= j < i ==> legal@[j] != book_move,
                            exists|k: int|
                                0 <= k < self.opening_book.moves_for(hash_of(board@)).len()
                                    && #[trigger] self.opening_book.moves_for(hash_of(board@))[k].mv == book_move,
                        decreases legal.len() - i,
                    {
                        if legal[i] == book_move {
                            let mut pv: Vec<Move> = Vec::new();
                            pv.push(book_move);
                            proof {
                                assert(pv@ =~= seq![book_move]);
                                assert(self.spec_book() == self.opening_book);
                                let k = choose|k: int|
                                    0 <= k < self.opening_book.moves_for(hash_of(board@)).len()
                                        && #[trigger] self.opening_book.moves_for(hash_of(board@))[k].mv == book_move;
                                assert(self.spec_book().moves_for(hash_of(board@))[k].mv == book_move);
                                assert(legal_moves_of(board@).contains(book_move));
                                assert(legal_for_hash(hash_of(board@), book_move));
                            }
                            return Some(
                                AIResult {
                                    chosen_move: book_move,
                                    eval_cp: 0,
                                    nodes_searched: 0,
                                    think_time: crate::clock::elapsed(&start),
                                    pv,
                                    depth_reached: 0,
                                },
                            );
                        }
                        i = i + 1;
                    }
                    proof {
                        if self.book_answers(board@) {
                            let k = choose|k: int|
                                0 <= k < self.spec_book().moves_for(hash_of(board@)).len()
                                    && #[trigger] self.spec_book().moves_for(hash_of(board@))[k].mv == book_move;
                            assert(legal_moves_of(board@).contains(self.spec_book().moves_for(hash_of(board@))[k].mv));
                        }
                    }
                },
                None => {},
            }
        }
        let mut engine = SearchEngine::new(self.difficulty, share(&self.cancel));
        let result = engine.iterative_deepening(board, start);
        let r = self.answer_from_search(board, result, &engine, &start);
        proof {
            if r is Some && legal_moves_of(board@).contains(r->Some_0.chosen_move) {
                assert(legal_for_hash(hash_of(board@), r->Some_0.chosen_move));
            }
        }
        r
    }

    /// The answer once the search is done: nothing when the search found
    /// nothing; else the search's line, score, nodes and depth, with the
    /// search's move or the legal move the level's personality plays in its
    /// place (see `apply_personality`), timed from `start`.
    pub fn answer_from_search(
        &self,
        board: &Board,
        searched: Option<AIResult>,
        engine: &SearchEngine,
        start: &Instant,
    ) -> (r: Option<AIResult>)
        requires
            engine.spec_config() == self.spec_difficulty(),
        ensures
            r is Some <==> searched is Some,
            searched matches Some(s) ==> r matches Some(a) && a.pv@ == s.pv@ && a.eval_cp == s.eval_cp
                && a.nodes_searched == s.nodes_searched && a.depth_reached == s.depth_reached && (a.chosen_move
                == s.chosen_move || legal_moves_of(board@).contains(a.chosen_move)) && (self.spec_difficulty().personality.blunder_rate_permille
                == 0 && self.spec_difficulty().personality.eval_noise_cp == 0 ==> a.chosen_move == s.chosen_move),
    {
        proof {
            use_type_invariant(self);
        }
        match searched {
            Some(res) => {
                let chosen = apply_personality(board, &self.difficulty, &res.pv, res.eval_cp, engine);
                let chosen_move = match chosen {
                    Some(m) => m,
                    None => res.chosen_move,
                };
                Some(
                    AIResult {
                        chosen_move,
                        eval_cp: res.eval_cp,
                        nodes_searched: res.nodes_searched,
                        think_time: crate::clock::elapsed(start),
                        pv: res.pv,
                        depth_reached: res.depth_reached,
                    },
                )
            },
            None => None,
        }
    }
}

} // verus!
