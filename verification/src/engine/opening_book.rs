//! A small opening book: two dozen well-known opening lines, replayed at
//! start-up into a map from position hash to the weighted moves played
//! there. The engine draws a book move at random by weight.
use vstd::prelude::*;
use std::collections::HashMap;
use crate::chess::types::{File, Move, Piece, Rank, Square};
use crate::chess::board::{hash_of, legal_moves_of, play_of, startpos_model, Board, BoardModel};
use crate::random::random_below;
use crate::text::chars_of;

verus! {

/// A move of the book with its weight (higher: more often chosen).
#[derive(Clone, Copy)]
pub struct BookMove {
    pub mv: Move,
    pub weight: u16,
}

/// Whether a move is legal in some position with the hash.
pub open spec fn legal_somewhere(h: u64, m: Move) -> bool {
    exists|b: BoardModel| #[trigger] hash_of(b) == h && legal_moves_of(b).contains(m)
}

/// The book's moves for each position hash.
pub struct OpeningBook {
    entries: HashMap<u64, Vec<BookMove>>,
}

/// The moves of a UCI move text such as "e2e4" or "e7e8q": four characters
/// naming two squares, and a fifth naming a promotion when there are exactly five.
pub open spec fn uci_move_of(s: Seq<char>) -> Option<Move> {
    if s.len() < 4 {
        None
    } else {
        match (
            Square::spec_parse(s.subrange(0, 2)),
            Square::spec_parse(s.subrange(2, 4)),
        ) {
            (Some(from), Some(to)) => Some(
                Move {
                    from,
                    to,
                    promotion: if s.len() == 5 {
                        uci_promotion(s[4])
                    } else {
                        None
                    },
                },
            ),
            _ => None,
        }
    }
}

/// The piece a promotion letter names.
pub open spec fn uci_promotion(c: char) -> Option<Piece> {
    if c == 'q' {
        Some(Piece::Queen)
    } else if c == 'r' {
        Some(Piece::Rook)
    } else if c == 'b' {
        Some(Piece::Bishop)
    } else if c == 'n' {
        Some(Piece::Knight)
    } else {
        None
    }
}

/// The move a UCI text names, if it is legal in the position.
pub open spec fn parse_uci_of(b: BoardModel, s: Seq<char>) -> Option<Move> {
    match uci_move_of(s) {
        Some(m) => if legal_moves_of(b).contains(m) {
            Some(m)
        } else {
            None
        },
        None => None,
    }
}

fn square_at(s: &Vec<char>, i: usize) -> (r: Option<Square>)
    requires
        i + 2 <= s.len(),
    ensures
        r == Square::spec_parse(s@.subrange(i as int, i + 2)),
{
    let pair = [s[i], s[i + 1]];
    assert(pair@ =~= s@.subrange(i as int, i + 2));
    Square::parse_chars(&pair)
}

fn contains_move(moves: &Vec<Move>, m: Move) -> (r: bool)
    ensures
        r == moves@.contains(m),
{
    let mut i: usize = 0;
    while i < moves.len()
        invariant
            i <= moves.len(),
            forall|k: int| 0 <= k < i ==> moves@[k] != m,
        decreases moves.len() - i,
    {
        if moves[i] == m {
            return true;
        }
        i = i + 1;
    }
    false
}

/// Reads a UCI move text such as "e2e4" in a position: the move, if the
/// text names one and it is legal there.
pub fn parse_uci_move(board: &Board, uci: &str) -> (r: Option<Move>)
    ensures
        r == parse_uci_of(board@, uci@),
{
    let s = chars_of(uci);
    if s.len() < 4 {
        return None;
    }
    let from = square_at(&s, 0);
    let to = square_at(&s, 2);
    match (from, to) {
        (Some(from), Some(to)) => {
            let promotion = if s.len() == 5 {
                let c = s[4];
                if c == 'q' {
                    Some(Piece::Queen)
                } else if c == 'r' {
                    Some(Piece::Rook)
                } else if c == 'b' {
                    Some(Piece::Bishop)
                } else if c == 'n' {
                    Some(Piece::Knight)
                } else {
                    None
                }
            } else {
                None
            };
            let mv = Move { from, to, promotion };
            let legal = board.legal_moves();
            if contains_move(&legal, mv) {
                Some(mv)
            } else {
                None
            }
        },
        _ => None,
    }
}

/// The move chosen by a roll below the total weight: the candidates take
/// consecutive ranges of rolls as long as their weights; a roll past them
/// all gives the first.
pub open spec fn weighted_pick(s: Seq<BookMove>, k: int, roll: int) -> Move
    decreases s.len() - k,
{
    if k < 0 || k >= s.len() {
        s[0].mv
    } else if roll < s[k].weight {
        s[k].mv
    } else {
        weighted_pick(s, k + 1, roll - s[k].weight)
    }
}

/// Picks the candidate that a roll falls on.
pub fn pick_weighted(candidates: &Vec<BookMove>, roll0: u128) -> (m: Move)
    requires
        candidates@.len() > 0,
    ensures
        m == weighted_pick(candidates@, 0, roll0 as int),
{
    let mut roll = roll0;
    let mut i: usize = 0;
    while i < candidates.len()
        invariant
            i <= candidates@.len(),
            candidates@.len() > 0,
            weighted_pick(candidates@, 0, roll0 as int) == weighted_pick(candidates@, i as int, roll as int),
        decreases candidates.len() - i,
    {
        let w = candidates[i].weight as u128;
        if roll < w {
            return candidates[i].mv;
        }
        roll = roll - w;
        i = i + 1;
    }
    candidates[0].mv
}

/// The sum of the weights.
pub open spec fn total_weight(s: Seq<BookMove>) -> int
    decreases s.len(),
{
    if s.len() == 0 {
        0
    } else {
        total_weight(s.drop_last()) + s.last().weight
    }
}

proof fn lemma_total_weight_bound(s: Seq<BookMove>)
    ensures
        0 <= total_weight(s) <= 65535 * s.len(),
    decreases s.len(),
{
    if s.len() > 0 {
        lemma_total_weight_bound(s.drop_last());
    }
}

proof fn lemma_total_weight_positive(s: Seq<BookMove>)
    requires
        s.len() > 0,
        forall|i: int| 0 <= i < s.len() ==> (#[trigger] s[i]).weight > 0,
    ensures
        total_weight(s) > 0,
{
    lemma_total_weight_bound(s.drop_last());
    assert(s.last() == s[s.len() - 1]);
}

/// The opening lines of the book, each with the weight of its moves.
pub open spec fn book_lines() -> Seq<(Seq<Seq<char>>, u16)> {
    seq![
        // Italian Game
        (seq!["e2e4"@, "e7e5"@, "g1f3"@, "b8c6"@, "f1c4"@, "f8c5"@], 10u16),
        // Sicilian Defense (Open)
        (seq!["e2e4"@, "c7c5"@, "g1f3"@, "d7d6"@, "d2d4"@, "c5d4"@, "f3d4"@], 10u16),
        // Sicilian Najdorf
        (seq!["e2e4"@, "c7c5"@, "g1f3"@, "d7d6"@, "d2d4"@, "c5d4"@, "f3d4"@, "g8f6"@, "b1c3"@, "a7a6"@], 8u16),
        // French Defense
        (seq!["e2e4"@, "e7e6"@, "d2d4"@, "d7d5"@, "b1c3"@, "g8f6"@], 8u16),
        // Caro-Kann
        (seq!["e2e4"@, "c7c6"@, "d2d4"@, "d7d5"@, "b1c3"@, "d5e4"@, "c3e4"@], 8u16),
        // Queen's Gambit Declined
        (seq!["d2d4"@, "d7d5"@, "c2c4"@, "e7e6"@, "b1c3"@, "g8f6"@, "c1g5"@], 10u16),
        // Queen's Gambit Accepted
        (seq!["d2d4"@, "d7d5"@, "c2c4"@, "d5c4"@, "g1f3"@, "g8f6"@, "e2e3"@], 7u16),
        // Slav Defense
        (seq!["d2d4"@, "d7d5"@, "c2c4"@, "c7c6"@, "g1f3"@, "g8f6"@, "b1c3"@], 7u16),
        // King's Indian Defense
        (seq!["d2d4"@, "g8f6"@, "c2c4"@, "g7g6"@, "b1c3"@, "f8g7"@, "e2e4"@, "d7d6"@], 8u16),
        // London System
        (seq!["d2d4"@, "d7d5"@, "g1f3"@, "g8f6"@, "c1f4"@, "e7e6"@], 9u16),
        // Ruy Lopez
        (seq!["e2e4"@, "e7e5"@, "g1f3"@, "b8c6"@, "f1b5"@, "a7a6"@, "b5a4"@, "g8f6"@], 10u16),
        // Scotch Game
        (seq!["e2e4"@, "e7e5"@, "g1f3"@, "b8c6"@, "d2d4"@, "e5d4"@, "f3d4"@], 7u16),
        // Pirc Defense
        (seq!["e2e4"@, "d7d6"@, "d2d4"@, "g8f6"@, "b1c3"@, "g7g6"@], 6u16),
        // English Opening
        (seq!["c2c4"@, "e7e5"@, "b1c3"@, "g8f6"@, "g1f3"@], 7u16),
        // Reti Opening
        (seq!["g1f3"@, "d7d5"@, "c2c4"@, "e7e6"@, "g2g3"@], 6u16),
        // King's Indian Attack
        (seq!["g1f3"@, "d7d5"@, "g2g3"@, "g8f6"@, "f1g2"@, "e7e6"@], 6u16),
        // Dutch Defense
        (seq!["d2d4"@, "f7f5"@, "c2c4"@, "g8f6"@, "g1f3"@], 5u16),
        // Nimzo-Indian
        (seq!["d2d4"@, "g8f6"@, "c2c4"@, "e7e6"@, "b1c3"@, "f8b4"@], 8u16),
        // Grunfeld Defense
        (seq!["d2d4"@, "g8f6"@, "c2c4"@, "g7g6"@, "b1c3"@, "d7d5"@], 7u16),
        // Vienna Game
        (seq!["e2e4"@, "e7e5"@, "b1c3"@, "g8f6"@, "f1c4"@], 5u16),
        // Scandinavian Defense
        (seq!["e2e4"@, "d7d5"@, "e4d5"@, "d8d5"@, "b1c3"@, "d5a5"@], 5u16),
        // Alekhine Defense
        (seq!["e2e4"@, "g8f6"@, "e4e5"@, "f6d5"@, "d2d4"@, "d7d6"@], 4u16),
        // Catalan
        (seq!["d2d4"@, "g8f6"@, "c2c4"@, "e7e6"@, "g2g3"@, "d7d5"@, "f1g2"@], 7u16),
        // Semi-Slav
        (seq!["d2d4"@, "d7d5"@, "c2c4"@, "c7c6"@, "g1f3"@, "g8f6"@, "b1c3"@, "e7e6"@], 7u16),
    ]
}

fn book_line_texts() -> (r: Vec<(Vec<&'static str>, u16)>)
    ensures
        r@.len() == book_lines().len(),
        forall|i: int| 0 <= i < r@.len() ==> (#[trigger] r@[i]).0@.map_values(|t: &str| t@) == book_lines()[i].0 && r@[i].1 == book_lines()[i].1 && r@[i].1 > 0,
{
    let r = vec![
        // Italian Game
        (vec!["e2e4", "e7e5", "g1f3", "b8c6", "f1c4", "f8c5"], 10),
        // Sicilian Defense (Open)
        (vec!["e2e4", "c7c5", "g1f3", "d7d6", "d2d4", "c5d4", "f3d4"], 10),
        // Sicilian Najdorf
        (vec!["e2e4", "c7c5", "g1f3", "d7d6", "d2d4", "c5d4", "f3d4", "g8f6", "b1c3", "a7a6"], 8),
        // French Defense
        (vec!["e2e4", "e7e6", "d2d4", "d7d5", "b1c3", "g8f6"], 8),
        // Caro-Kann
        (vec!["e2e4", "c7c6", "d2d4", "d7d5", "b1c3", "d5e4", "c3e4"], 8),
        // Queen's Gambit Declined
        (vec!["d2d4", "d7d5", "c2c4", "e7e6", "b1c3", "g8f6", "c1g5"], 10),
        // Queen's Gambit Accepted
        (vec!["d2d4", "d7d5", "c2c4", "d5c4", "g1f3", "g8f6", "e2e3"], 7),
        // Slav Defense
        (vec!["d2d4", "d7d5", "c2c4", "c7c6", "g1f3", "g8f6", "b1c3"], 7),
        // King's Indian Defense
        (vec!["d2d4", "g8f6", "c2c4", "g7g6", "b1c3", "f8g7", "e2e4", "d7d6"], 8),
        // London System
        (vec!["d2d4", "d7d5", "g1f3", "g8f6", "c1f4", "e7e6"], 9),
        // Ruy Lopez
        (vec!["e2e4", "e7e5", "g1f3", "b8c6", "f1b5", "a7a6", "b5a4", "g8f6"], 10),
        // Scotch Game
        (vec!["e2e4", "e7e5", "g1f3", "b8c6", "d2d4", "e5d4", "f3d4"], 7),
        // Pirc Defense
        (vec!["e2e4", "d7d6", "d2d4", "g8f6", "b1c3", "g7g6"], 6),
        // English Opening
        (vec!["c2c4", "e7e5", "b1c3", "g8f6", "g1f3"], 7),
        // Reti Opening
        (vec!["g1f3", "d7d5", "c2c4", "e7e6", "g2g3"], 6),
        // King's Indian Attack
        (vec!["g1f3", "d7d5", "g2g3", "g8f6", "f1g2", "e7e6"], 6),
        // Dutch Defense
        (vec!["d2d4", "f7f5", "c2c4", "g8f6", "g1f3"], 5),
        // Nimzo-Indian
        (vec!["d2d4", "g8f6", "c2c4", "e7e6", "b1c3", "f8b4"], 8),
        // Grunfeld Defense
        (vec!["d2d4", "g8f6", "c2c4", "g7g6", "b1c3", "d7d5"], 7),
        // Vienna Game
        (vec!["e2e4", "e7e5", "b1c3", "g8f6", "f1c4"], 5),
        // Scandinavian Defense
        (vec!["e2e4", "d7d5", "e4d5", "d8d5", "b1c3", "d5a5"], 5),
        // Alekhine Defense
        (vec!["e2e4", "g8f6", "e4e5", "f6d5", "d2d4", "d7d6"], 4),
        // Catalan
        (vec!["d2d4", "g8f6", "c2c4", "e7e6", "g2g3", "d7d5", "f1g2"], 7),
        // Semi-Slav
        (vec!["d2d4", "d7d5", "c2c4", "c7c6", "g1f3", "g8f6", "b1c3", "e7e6"], 7),
    ];
    proof {
        assert forall|i: int| 0 <= i < r@.len() implies (#[trigger] r@[i]).0@.map_values(|t: &str| t@) == book_lines()[i].0 && r@[i].1 == book_lines()[i].1 && r@[i].1 > 0 by {
            assert(r@[i].0@.map_values(|t: &str| t@) =~= book_lines()[i].0);
        }
    }
    r
}

/// The moves recorded for a position hash.
pub open spec fn moves_in(m: Map<u64, Seq<BookMove>>, h: u64) -> Seq<BookMove> {
    if m.contains_key(h) { m[h] } else { Seq::empty() }
}

/// The book with a move recorded for a position hash: added after the
/// moves there, unless it is among them already.
pub open spec fn record_of(m: Map<u64, Seq<BookMove>>, h: u64, mv: Move, weight: u16) -> Map<u64, Seq<BookMove>> {
    if exists|i: int| 0 <= i < moves_in(m, h).len() && #[trigger] moves_in(m, h)[i].mv == mv {
        m
    } else {
        m.insert(h, moves_in(m, h).push(BookMove { mv, weight }))
    }
}

/// The book with a line replayed from a position: each move, while it
/// reads as a UCI move of the position and can be played, is recorded for
/// the position's hash.
pub open spec fn line_of(m: Map<u64, Seq<BookMove>>, b: BoardModel, moves: Seq<Seq<char>>, weight: u16) -> Map<u64, Seq<BookMove>>
    decreases moves.len(),
{
    if moves.len() == 0 {
        m
    } else {
        match parse_uci_of(b, moves[0]) {
            None => m,
            Some(mv) => {
                let m2 = record_of(m, hash_of(b), mv, weight);
                match play_of(b, mv) {
                    Some(next) => line_of(m2, next, moves.drop_first(), weight),
                    None => m2,
                }
            },
        }
    }
}

/// The book with the lines replayed in turn from the starting position.
pub open spec fn lines_of(m: Map<u64, Seq<BookMove>>, lines: Seq<(Seq<Seq<char>>, u16)>) -> Map<u64, Seq<BookMove>>
    decreases lines.len(),
{
    if lines.len() == 0 {
        m
    } else {
        lines_of(line_of(m, startpos_model(), lines[0].0, lines[0].1), lines.drop_first())
    }
}

impl OpeningBook {
    /// Every weight is positive, no position lists a move twice, and every
    /// move is legal in a position with its hash.
    pub closed spec fn wf(&self) -> bool {
        forall|h: u64| #[trigger]
            self.entries@.contains_key(h) ==> {
                let s = self.entries@[h]@;
                &&& forall|i: int| 0 <= i < s.len() ==> (#[trigger] s[i]).weight > 0 && legal_somewhere(h, s[i].mv)
                &&& forall|i: int, j: int| 0 <= i < j < s.len() ==> (#[trigger] s[i]).mv != (#[trigger] s[j]).mv
            }
    }

    /// The book's moves for each position hash it knows.
    pub closed spec fn contents(&self) -> Map<u64, Seq<BookMove>> {
        self.entries@.map_values(|v: Vec<BookMove>| v@)
    }

    /// The book's moves for a position hash.
    pub closed spec fn moves_for(&self, h: u64) -> Seq<BookMove> {
        if self.entries@.contains_key(h) {
            self.entries@[h]@
        } else {
            Seq::empty()
        }
    }

    /// The book, built from its opening lines.
    pub fn new() -> (book: OpeningBook)
        ensures
            book.wf(),
            book.contents() == lines_of(Map::empty(), book_lines()),
    {
        let mut book = OpeningBook { entries: HashMap::new() };
        assert(book.contents() =~= Map::empty());
        book.build();
        book
    }

    /// A book move for the position, drawn at random by weight; `None`
    /// when the book has no move for it. Whatever is drawn, the move is
    /// one of the book's moves for the position's hash.
    pub fn probe(&self, board: &Board, move_history: &Vec<Move>) -> (r: Option<Move>)
        requires
            self.wf(),
        ensures
            r is None <==> self.moves_for(hash_of(board@)).len() == 0,
            r matches Some(m) ==> legal_somewhere(hash_of(board@), m) && exists|i: int|
                0 <= i < self.moves_for(hash_of(board@)).len() && #[trigger] self.moves_for(hash_of(board@))[i].mv
                    == m,
    {
        broadcast use vstd::std_specs::hash::group_hash_axioms;

        let hash = board.hash();
        let candidates = match self.entries.get(&hash) {
            Some(c) => c,
            None => {
                return None;
            },
        };
        if candidates.len() == 0 {
            return None;
        }
        let mut total: u128 = 0;
        let mut i: usize = 0;
        while i < candidates.len()
            invariant
                i <= candidates@.len(),
                total == total_weight(candidates@.take(i as int)),
                total <= 65535 * i,
            decreases candidates.len() - i,
        {
            assert(candidates@.take(i + 1).drop_last() =~= candidates@.take(i as int));
            total = total + candidates[i].weight as u128;
            i = i + 1;
        }
        assert(candidates@.take(candidates@.len() as int) =~= candidates@);
        proof {
            assert(self.entries@.contains_key(hash));
            lemma_total_weight_positive(candidates@);
        }
        let roll = random_below(total);
        let m = pick_weighted(candidates, roll);
        proof {
            lemma_weighted_pick_member(candidates@, 0, roll as int);
            let i = choose|i: int| 0 <= i < candidates@.len() && #[trigger] candidates@[i].mv == m;
            assert(self.moves_for(hash) == candidates@);
            assert(candidates@[i].weight > 0 && legal_somewhere(hash, candidates@[i].mv));
        }
        Some(m)
    }

    /// Replays each opening line from the start, recording at each
    /// position the move the line plays there, with the line's weight
    /// (a move already recorded there keeps its first weight).
    fn build(&mut self)
        requires
            old(self).wf(),
        ensures
            final(self).wf(),
            final(self).contents() == lines_of(old(self).contents(), book_lines()),
    {
        let lines = book_line_texts();
        let mut i: usize = 0;
        assert(book_lines().skip(0) =~= book_lines());
        while i < lines.len()
            invariant
                i <= lines@.len(),
                lines@.len() == book_lines().len(),
                forall|k: int| 0 <= k < lines@.len() ==> (#[trigger] lines@[k]).0@.map_values(|t: &str| t@) == book_lines()[k].0 && lines@[k].1 == book_lines()[k].1 && lines@[k].1 > 0,
                self.wf(),
                lines_of(old(self).contents(), book_lines()) == lines_of(self.contents(), book_lines().skip(i as int)),
            decreases lines.len() - i,
        {
            let ghost rest = book_lines().skip(i as int);
            assert(rest.drop_first() =~= book_lines().skip(i + 1));
            assert(rest[0] == book_lines()[i as int]);
            self.add_line(&lines[i].0, lines[i].1);
            i = i + 1;
        }
        assert(book_lines().skip(i as int) =~= Seq::<(Seq<Seq<char>>, u16)>::empty());
    }

    /// Replays one line from the starting position. A move that does not
    /// parse or is illegal ends the line.
    fn add_line(&mut self, moves: &Vec<&str>, weight: u16)
        requires
            old(self).wf(),
            weight > 0,
        ensures
            final(self).wf(),
            final(self).contents() == line_of(old(self).contents(), startpos_model(), moves@.map_values(|t: &str| t@), weight),
    {
        let ghost texts = moves@.map_values(|t: &str| t@);
        let mut board = Board::startpos();
        let mut i: usize = 0;
        assert(texts.skip(0) =~= texts);
        while i < moves.len()
            invariant
                self.wf(),
                weight > 0,
                i <= moves@.len(),
                texts == moves@.map_values(|t: &str| t@),
                line_of(old(self).contents(), startpos_model(), texts, weight) == line_of(self.contents(), board@, texts.skip(i as int), weight),
            decreases moves.len() - i,
        {
            let ghost rest = texts.skip(i as int);
            assert(rest[0] == moves@[i as int]@);
            assert(rest.drop_first() =~= texts.skip(i + 1));
            let hash = board.hash();
            let mv = match parse_uci_move(&board, moves[i]) {
                Some(mv) => mv,
                None => {
                    return;
                },
            };
            proof {
                assert(hash_of(board@) == hash && legal_moves_of(board@).contains(mv));
                assert(legal_somewhere(hash, mv));
            }
            self.record(hash, mv, weight);
            board = match board.play(mv) {
                Some(next) => next,
                None => {
                    return;
                },
            };
            i = i + 1;
        }
    }

    /// Records a move for a position hash, unless it is recorded there already.
    fn record(&mut self, hash: u64, mv: Move, weight: u16)
        requires
            old(self).wf(),
            weight > 0,
            legal_somewhere(hash, mv),
        ensures
            final(self).wf(),
            final(self).contents() == record_of(old(self).contents(), hash, mv, weight),
    {
        broadcast use vstd::std_specs::hash::group_hash_axioms;

        let mut list: Vec<BookMove> = Vec::new();
        match self.entries.get(&hash) {
            Some(existing) => {
                let mut k: usize = 0;
                while k < existing.len()
                    invariant
                        k <= existing@.len(),
                        self.wf(),
                        *self == *old(self),
                        self.entries@.contains_key(hash) && existing@ == self.entries@[hash]@,
                        list@ == existing@.take(k as int),
                        forall|j: int| 0 <= j < k ==> (#[trigger] existing@[j]).mv != mv,
                    decreases existing.len() - k,
                {
                    if existing[k].mv == mv {
                        proof {
                            assert(self.contents().contains_key(hash));
                            assert(moves_in(self.contents(), hash) == existing@);
                            assert(moves_in(self.contents(), hash)[k as int].mv == mv);
                        }
                        return;
                    }
                    list.push(existing[k]);
                    assert(list@ =~= existing@.take(k + 1));
                    k = k + 1;
                }
                assert(existing@.take(existing@.len() as int) =~= existing@);
            },
            None => {},
        }
        assert(self.entries@.contains_key(hash) ==> list@ == self.entries@[hash]@);
        assert(!self.entries@.contains_key(hash) ==> list@.len() == 0);
        assert(forall|j: int| 0 <= j < list@.len() ==> (#[trigger] list@[j]).mv != mv);
        let ghost before = list@;
        list.push(BookMove { mv, weight });
        let ghost old_entries = self.entries@;
        self.entries.insert(hash, list);
        assert forall|h: u64| #[trigger] self.entries@.contains_key(h) implies {
            let s = self.entries@[h]@;
            &&& forall|i: int| 0 <= i < s.len() ==> (#[trigger] s[i]).weight > 0 && legal_somewhere(h, s[i].mv)
            &&& forall|i: int, j: int| 0 <= i < j < s.len() ==> (#[trigger] s[i]).mv != (#[trigger] s[j]).mv
        } by {
            if h != hash {
                assert(old_entries.contains_key(h));
            } else {
                let s = self.entries@[h]@;
                if old_entries.contains_key(hash) {
                    assert(before =~= old_entries[hash]@);
                }
                assert(s == before.push(BookMove { mv, weight }));
                assert forall|i: int, j: int| 0 <= i < j < s.len() implies (#[trigger] s[i]).mv != (#[trigger] s[j]).mv by {
                    if j == s.len() - 1 {
                        assert(s[i] == before[i]);
                    } else {
                        assert(s[i] == before[i] && s[j] == before[j]);
                    }
                }
            }
        }
    }
}

proof fn lemma_weighted_pick_member(s: Seq<BookMove>, k: int, roll: int)
    requires
        s.len() > 0,
    ensures
        exists|i: int| 0 <= i < s.len() && #[trigger] s[i].mv == weighted_pick(s, k, roll),
    decreases s.len() - k,
{
    if k < 0 || k >= s.len() {
        assert(s[0].mv == weighted_pick(s, k, roll));
    } else if roll < s[k].weight {
        assert(s[k].mv == weighted_pick(s, k, roll));
    } else {
        lemma_weighted_pick_member(s, k + 1, roll - s[k].weight);
    }
}

} // verus!
