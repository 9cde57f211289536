//! Reading a move from keystrokes: each typed character narrows the legal
//! moves of the position, matched by their SAN, by coordinates ("e2e4"), or
//! by the castling shorthands "OO" and "OOO".
use vstd::prelude::*;
use crate::chess::types::{File, Move, Piece, Rank, Square};
use crate::chess::board::{legal_moves_of, Board, BoardModel};
use crate::game::notation::{san_chars, san_of};
use crate::text::{is_prefix, remove_char, same_chars, starts_with, string_of, without};

verus! {

/// What the typed characters amount to.
#[derive(Clone, Copy, PartialEq, Eq, Debug)]
pub enum InputResult {
    /// Exactly one legal move matches: play it.
    Exact(Move),
    /// This many moves still match: more input is needed.
    NeedMore(usize),
    /// No legal move matches.
    NoMatch,
}

/// Drops trailing '+' and '#' marks, in any mix.
pub open spec fn strip_marks(s: Seq<char>) -> Seq<char>
    decreases s.len(),
{
    if s.len() > 0 && (s.last() == '+' || s.last() == '#') {
        strip_marks(s.drop_last())
    } else {
        s
    }
}

/// Whether the input matches a SAN: it is a prefix of the SAN without
/// check marks, or is one once every 'x' is removed from both (so "ed5"
/// matches "exd5").
pub open spec fn san_matches_spec(san: Seq<char>, input: Seq<char>) -> bool {
    let stripped = strip_marks(san);
    is_prefix(input, stripped) || is_prefix(without(input, 'x'), without(stripped, 'x'))
}

fn strip_marks_exec(v: &Vec<char>) -> (r: Vec<char>)
    ensures
        r@ == strip_marks(v@),
{
    let mut n: usize = v.len();
    assert(v@.subrange(0, n as int) =~= v@);
    while n > 0 && (v[n - 1] == '+' || v[n - 1] == '#')
        invariant
            n <= v@.len(),
            strip_marks(v@.subrange(0, n as int)) == strip_marks(v@),
        decreases n,
    {
        assert(v@.subrange(0, n as int).drop_last() =~= v@.subrange(0, n - 1));
        n = n - 1;
    }
    let r = crate::text::prefix_of(v, n);
    proof {
        if n > 0 {
            assert(v@.subrange(0, n as int).last() == v@[n - 1]);
        }
    }
    r
}

fn san_matches_chars(san: &Vec<char>, input: &Vec<char>) -> (b: bool)
    ensures
        b == san_matches_spec(san@, input@),
{
    let stripped = strip_marks_exec(san);
    if starts_with(&stripped, input) {
        return true;
    }
    starts_with(&remove_char(&stripped, 'x'), &remove_char(input, 'x'))
}

/// Whether `input` matches the move written `san` (see `san_matches_spec`).
pub fn san_matches(san: &str, input: &str) -> (b: bool)
    ensures
        b == san_matches_spec(san@, input@),
{
    san_matches_chars(&crate::text::chars_of(san), &crate::text::chars_of(input))
}

/// Every SAN matches its own text without check marks, and the empty input.
pub proof fn lemma_san_matches_itself(san: Seq<char>)
    ensures
        san_matches_spec(san, strip_marks(san)),
        san_matches_spec(san, Seq::empty()),
{
    assert(strip_marks(san).subrange(0, strip_marks(san).len() as int) =~= strip_marks(san));
    assert(strip_marks(san).subrange(0, 0) =~= Seq::<char>::empty());
}

// ── The three ways of matching ──────────────────────────────────────────

/// The indices `i < n` of the candidates for which `p` holds, in order.
pub open spec fn indices_where(n: int, p: spec_fn(int) -> bool) -> Seq<usize>
    decreases n,
{
    if n <= 0 {
        Seq::empty()
    } else if p(n - 1) {
        indices_where(n - 1, p).push((n - 1) as usize)
    } else {
        indices_where(n - 1, p)
    }
}

/// The result for a list of matching candidates: none, exactly one, or how many.
pub open spec fn result_of(cands: Seq<(Move, Seq<char>)>, idx: Seq<usize>) -> InputResult {
    if idx.len() == 0 {
        InputResult::NoMatch
    } else if idx.len() == 1 {
        InputResult::Exact(cands[idx[0] as int].0)
    } else {
        InputResult::NeedMore(idx.len() as usize)
    }
}

pub open spec fn ascii_upper(c: char) -> char {
    if 'a' <= c && c <= 'z' {
        ((c as u8) - 32) as char
    } else {
        c
    }
}

/// "O-O" for a typed "OO", "O-O-O" for "OOO", in either case.
pub open spec fn castle_target(buf: Seq<char>) -> Option<Seq<char>> {
    let u = buf.map_values(|c: char| ascii_upper(c));
    if u == seq!['O', 'O'] {
        Some(seq!['O', '-', 'O'])
    } else if u == seq!['O', 'O', 'O'] {
        Some(seq!['O', '-', 'O', '-', 'O'])
    } else {
        None
    }
}

/// The result of a castling shorthand: the moves whose SAN is exactly the target.
pub open spec fn castle_result(cands: Seq<(Move, Seq<char>)>, target: Seq<char>) -> InputResult {
    result_of(cands, indices_where(cands.len() as int, |i: int| cands[i].1 == target))
}

/// The standard coordinates of castling, mapped to the king-takes-rook
/// form the moves are written in.
pub open spec fn castling_destination(from: Square, to: Square) -> Square {
    if from == Square::spec_from_index(4) && to == Square::spec_from_index(6) {
        Square::spec_from_index(7)
    } else if from == Square::spec_from_index(4) && to == Square::spec_from_index(2) {
        Square::spec_from_index(0)
    } else if from == Square::spec_from_index(60) && to == Square::spec_from_index(62) {
        Square::spec_from_index(63)
    } else if from == Square::spec_from_index(60) && to == Square::spec_from_index(58) {
        Square::spec_from_index(56)
    } else {
        to
    }
}

/// The square seen from the other side of the board: same file, rank
/// counted from the other end.
pub open spec fn mirror_square(s: Square) -> Square {
    Square { file: s.file, rank: Rank::spec_from_index((7 - s.rank.spec_index()) as u8) }
}

/// The castling shorthand treats both colors alike: mirroring both typed
/// squares mirrors the square the move goes to.
pub proof fn lemma_castling_destination_mirrored(from: Square, to: Square)
    ensures
        castling_destination(mirror_square(from), mirror_square(to)) == mirror_square(castling_destination(from, to)),
{
    assert(Square::spec_from_index(4) == Square { file: File::E, rank: Rank::First });
    assert(Square::spec_from_index(6) == Square { file: File::G, rank: Rank::First });
    assert(Square::spec_from_index(2) == Square { file: File::C, rank: Rank::First });
    assert(Square::spec_from_index(7) == Square { file: File::H, rank: Rank::First });
    assert(Square::spec_from_index(0) == Square { file: File::A, rank: Rank::First });
    assert(Square::spec_from_index(60) == Square { file: File::E, rank: Rank::Eighth });
    assert(Square::spec_from_index(62) == Square { file: File::G, rank: Rank::Eighth });
    assert(Square::spec_from_index(58) == Square { file: File::C, rank: Rank::Eighth });
    assert(Square::spec_from_index(63) == Square { file: File::H, rank: Rank::Eighth });
    assert(Square::spec_from_index(56) == Square { file: File::A, rank: Rank::Eighth });
}

/// For both colors, typing the king's home square and the square two files
/// toward a rook names the castling move, written as the king taking that
/// rook's corner; any other pair of squares is taken as typed.
pub proof fn lemma_castling_destination_both_colors(from: Square, to: Square)
    ensures
        (from.file == File::E && (from.rank == Rank::First || from.rank == Rank::Eighth) && to.rank == from.rank
            && to.file == File::G) ==> castling_destination(from, to) == (Square { file: File::H, rank: from.rank }),
        (from.file == File::E && (from.rank == Rank::First || from.rank == Rank::Eighth) && to.rank == from.rank
            && to.file == File::C) ==> castling_destination(from, to) == (Square { file: File::A, rank: from.rank }),
        !(from.file == File::E && (from.rank == Rank::First || from.rank == Rank::Eighth) && to.rank == from.rank
            && (to.file == File::G || to.file == File::C)) ==> castling_destination(from, to) == to,
{
    lemma_castling_destination_mirrored(from, to);
}

pub open spec fn promotion_of_char(c: char) -> Option<Option<Piece>> {
    let l = if 'A' <= c && c <= 'Z' { ((c as u8) + 32) as char } else { c };
    if l == 'q' {
        Some(Some(Piece::Queen))
    } else if l == 'r' {
        Some(Some(Piece::Rook))
    } else if l == 'b' {
        Some(Some(Piece::Bishop))
    } else if l == 'n' {
        Some(Some(Piece::Knight))
    } else {
        None
    }
}

pub open spec fn coordinate_fits(m: Move, from: Square, to: Square, promo: Option<Piece>) -> bool {
    m.from == from && (m.to == castling_destination(from, to) || m.to == to) && m.promotion == promo
}

/// Whether some candidate starts on the square.
pub open spec fn some_move_from(cands: Seq<(Move, Seq<char>)>, from: Square) -> bool {
    exists|i: int| 0 <= i < cands.len() && (#[trigger] cands[i]).0.from == from
}

/// The candidates that fit the coordinates, in order.
pub open spec fn coordinate_indices(cands: Seq<(Move, Seq<char>)>, from: Square, to: Square, promo: Option<Piece>) -> Seq<usize> {
    indices_where(cands.len() as int, |i: int| coordinate_fits(cands[i].0, from, to, promo))
}

/// Whether every fitting candidate is a promotion and one of them to a queen.
pub open spec fn queen_default(cands: Seq<(Move, Seq<char>)>, idx: Seq<usize>) -> bool {
    &&& forall|k: int| 0 <= k < idx.len() ==> (#[trigger] cands[idx[k] as int]).0.promotion is Some
    &&& exists|k: int| 0 <= k < idx.len() && (#[trigger] cands[idx[k] as int]).0.promotion == Some(Piece::Queen)
}

/// The result of complete coordinates: when several promotions fit and
/// none was chosen, the queen is taken.
pub open spec fn coordinate_pick(cands: Seq<(Move, Seq<char>)>, from: Square, to: Square, promo: Option<Piece>) -> InputResult {
    let idx = coordinate_indices(cands, from, to, promo);
    if idx.len() > 1 && promo is None && queen_default(cands, idx) {
        InputResult::Exact(queen_choice(cands, idx))
    } else {
        result_of(cands, idx)
    }
}

/// The result of coordinate input ("e2e4", "e7e8q"), or `None` when the
/// input does not read as coordinates. Two or three characters naming a
/// square ask for more input when a legal move starts there (and are read
/// as SAN when none does, so that "e4" is the pawn move); more than
/// four count as four, except that a fifth chooses the promotion.
pub open spec fn coordinate_result(cands: Seq<(Move, Seq<char>)>, buf: Seq<char>) -> Option<InputResult> {
    if buf.len() < 2 {
        None
    } else {
        match Square::spec_parse(buf.subrange(0, 2)) {
            None => None,
            Some(from) => if buf.len() <= 3 {
                if some_move_from(cands, from) {
                    Some(InputResult::NeedMore(1))
                } else {
                    None
                }
            } else {
                match Square::spec_parse(buf.subrange(2, 4)) {
                    None => None,
                    Some(to) => {
                        let promo = if buf.len() == 5 {
                            promotion_of_char(buf[4])
                        } else {
                            Some(None)
                        };
                        match promo {
                            None => None,
                            Some(promo) => Some(coordinate_pick(cands, from, to, promo)),
                        }
                    },
                }
            },
        }
    }
}

/// The first candidate among the indices that promotes to a queen.
pub open spec fn queen_choice(cands: Seq<(Move, Seq<char>)>, idx: Seq<usize>) -> Move
    decreases idx.len(),
{
    if idx.len() == 0 {
        cands[0].0
    } else if cands[idx[0] as int].0.promotion == Some(Piece::Queen) {
        cands[idx[0] as int].0
    } else {
        queen_choice(cands, idx.drop_first())
    }
}

/// The candidates whose SAN the input matches.
pub open spec fn san_indices(cands: Seq<(Move, Seq<char>)>, buf: Seq<char>) -> Seq<usize> {
    indices_where(cands.len() as int, |i: int| san_matches_spec(cands[i].1, buf))
}

/// The result of SAN matching: a single candidate counts only once the
/// input is its whole SAN (without check marks).
pub open spec fn san_result(cands: Seq<(Move, Seq<char>)>, buf: Seq<char>) -> InputResult {
    let idx = san_indices(cands, buf);
    if idx.len() == 1 {
        if buf == strip_marks(cands[idx[0] as int].1) {
            InputResult::Exact(cands[idx[0] as int].0)
        } else {
            InputResult::NeedMore(1)
        }
    } else {
        result_of(cands, idx)
    }
}

/// The result of the input: castling shorthand first, then coordinates,
/// then SAN.
pub open spec fn feed_result(cands: Seq<(Move, Seq<char>)>, buf: Seq<char>) -> InputResult {
    match castle_target(buf) {
        Some(t) => castle_result(cands, t),
        None => match coordinate_result(cands, buf) {
            Some(r) => r,
            None => san_result(cands, buf),
        },
    }
}

/// The candidates of a position: each legal move with its SAN.
pub open spec fn candidates_of(b: BoardModel) -> Seq<(Move, Seq<char>)> {
    legal_moves_of(b).map_values(|m: Move| (m, san_of(b, m)))
}

/// Reads keystrokes against the legal moves of a position.
pub struct MoveInputParser {
    legal_moves: Vec<(Move, String)>,
    buffer: String,
    matching: Vec<usize>,
}

pub open spec fn cand_view(v: Seq<(Move, String)>) -> Seq<(Move, Seq<char>)> {
    v.map_values(|c: (Move, String)| (c.0, c.1@))
}

impl MoveInputParser {
    #[verifier::type_invariant]
    spec fn inv(self) -> bool {
        &&& forall|k: int| 0 <= k < self.matching@.len() ==> #[trigger] self.matching@[k] < self.legal_moves@.len()
    }

    pub closed spec fn candidates(&self) -> Seq<(Move, Seq<char>)> {
        cand_view(self.legal_moves@)
    }

    pub closed spec fn spec_buffer(&self) -> Seq<char> {
        self.buffer@
    }

    pub closed spec fn spec_matching(&self) -> Seq<usize> {
        self.matching@
    }

    /// A parser for a position: every legal move with its SAN, nothing
    /// typed, every move matching.
    pub fn new(board: &Board) -> (p: MoveInputParser)
        ensures
            p.candidates() == candidates_of(board@),
            p.spec_buffer() == Seq::<char>::empty(),
            p.spec_matching() == indices_where(p.candidates().len() as int, |i: int| true),
    {
        let ms = board.legal_moves();
        let mut legal_moves: Vec<(Move, String)> = Vec::new();
        let mut i: usize = 0;
        while i < ms.len()
            invariant
                i <= ms@.len(),
                ms@ == legal_moves_of(board@),
                legal_moves@.len() == i,
                forall|k: int|
                    0 <= k < i ==> (#[trigger] legal_moves@[k]).0 == ms@[k] && legal_moves@[k].1@ == san_of(
                        board@,
                        ms@[k],
                    ),
            decreases ms.len() - i,
        {
            let m = ms[i];
            let san = string_of(&san_chars(board, &m));
            legal_moves.push((m, san));
            i = i + 1;
        }
        assert(cand_view(legal_moves@) =~= candidates_of(board@));
        let matching = all_indices(legal_moves.len());
        MoveInputParser { legal_moves, buffer: string_of(&Vec::new()), matching }
    }

    /// The characters typed so far.
    pub fn buffer(&self) -> (s: &str)
        ensures
            s@ == self.spec_buffer(),
    {
        proof {
            use_type_invariant(self);
        }
        self.buffer.as_str()
    }

    /// Forgets what was typed: every move matches again.
    pub fn reset(&mut self)
        ensures
            final(self).candidates() == old(self).candidates(),
            final(self).spec_buffer() == Seq::<char>::empty(),
            final(self).spec_matching() == indices_where(old(self).candidates().len() as int, |i: int| true),
    {
        proof {
            use_type_invariant(&*self);
        }
        let n = self.legal_moves.len();
        self.buffer = string_of(&Vec::new());
        self.matching = all_indices(n);
    }

    /// Takes one more character and says what the input now amounts to.
    /// SAN matching also narrows the list of matching moves; the castling
    /// and coordinate forms leave it as it was.
    pub fn feed(&mut self, ch: char) -> (r: InputResult)
        ensures
            final(self).candidates() == old(self).candidates(),
            final(self).spec_buffer() == old(self).spec_buffer().push(ch),
            r == feed_result(old(self).candidates(), old(self).spec_buffer().push(ch)),
            castle_target(final(self).spec_buffer()) is None && coordinate_result(
                old(self).candidates(),
                final(self).spec_buffer(),
            ) is None ==> final(self).spec_matching() == san_indices(old(self).candidates(), final(self).spec_buffer()),
    {
        proof {
            use_type_invariant(&*self);
        }
        let mut chars = crate::text::chars_of(self.buffer.as_str());
        chars.push(ch);
        self.buffer = string_of(&chars);
        if let Some(r) = self.try_castling() {
            return r;
        }
        if let Some(r) = self.try_square_to_square() {
            return r;
        }
        let m = self.san_matching();
        self.matching = m;
        self.result_from_matching_with_completeness()
    }

    /// The moves that match, with their SAN.
    pub fn matching_moves(&self) -> (v: Vec<(Move, String)>)
        ensures
            v@.len() == self.spec_matching().len(),
            forall|k: int|
                0 <= k < v@.len() ==> (#[trigger] v@[k]).0 == self.candidates()[self.spec_matching()[k] as int].0
                    && v@[k].1@ == self.candidates()[self.spec_matching()[k] as int].1,
    {
        proof {
            use_type_invariant(self);
        }
        let mut v: Vec<(Move, String)> = Vec::new();
        let mut k: usize = 0;
        while k < self.matching.len()
            invariant
                k <= self.matching@.len(),
                forall|j: int| 0 <= j < self.matching@.len() ==> #[trigger] self.matching@[j] < self.legal_moves@.len(),
                v@.len() == k,
                forall|j: int|
                    0 <= j < k ==> (#[trigger] v@[j]).0 == self.legal_moves@[self.matching@[j] as int].0
                        && v@[j].1@ == self.legal_moves@[self.matching@[j] as int].1@,
            decreases self.matching.len() - k,
        {
            let i = self.matching[k];
            let (m, s) = &self.legal_moves[i];
            v.push((*m, s.clone()));
            k = k + 1;
        }
        v
    }

    fn indices_of_san(&self, target: &Vec<char>) -> (idx: Vec<usize>)
        ensures
            idx@ == indices_where(self.candidates().len() as int, |i: int| self.candidates()[i].1 == target@),
            forall|k: int| 0 <= k < idx@.len() ==> #[trigger] idx@[k] < self.legal_moves@.len(),
    {
        let ghost c = self.candidates();
        let ghost p = |i: int| c[i].1 == target@;
        let mut idx: Vec<usize> = Vec::new();
        let mut i: usize = 0;
        while i < self.legal_moves.len()
            invariant
                i <= self.legal_moves@.len(),
                c == self.candidates(),
                c.len() == self.legal_moves@.len(),
                p == (|i: int| c[i].1 == target@),
                idx@ == indices_where(i as int, p),
                forall|k: int| 0 <= k < idx@.len() ==> #[trigger] idx@[k] < i,
            decreases self.legal_moves.len() - i,
        {
            let s = crate::text::chars_of(self.legal_moves[i].1.as_str());
            assert(c[i as int].1 == self.legal_moves@[i as int].1@);
            if same_chars(&s, target) {
                idx.push(i);
            }
            i = i + 1;
        }
        idx
    }

    fn try_castling(&self) -> (r: Option<InputResult>)
        ensures
            r == (match castle_target(self.spec_buffer()) {
                Some(t) => Some(castle_result(self.candidates(), t)),
                None => None,
            }),
    {
        let buf = &crate::text::chars_of(self.buffer.as_str());
        let mut up: Vec<char> = Vec::new();
        let mut i: usize = 0;
        while i < buf.len()
            invariant
                i <= buf@.len(),
                up@ == buf@.subrange(0, i as int).map_values(|c: char| ascii_upper(c)),
            decreases buf.len() - i,
        {
            let c = buf[i];
            let u = if 'a' <= c && c <= 'z' { ((c as u8) - 32) as char } else { c };
            proof {
                assert(u == ascii_upper(c)) by {
                    if 'a' <= c && c <= 'z' {
                        assert(((c as u8) - 32) as char == ((c as u8) - 32) as char);
                    }
                }
            }
            up.push(u);
            i = i + 1;
            proof {
                assert(up@ =~= buf@.subrange(0, i as int).map_values(|c: char| ascii_upper(c)));
            }
        }
        assert(buf@.subrange(0, buf@.len() as int) =~= buf@);
        let target = if same_chars(&up, &vec!['O', 'O']) {
            vec!['O', '-', 'O']
        } else if same_chars(&up, &vec!['O', 'O', 'O']) {
            vec!['O', '-', 'O', '-', 'O']
        } else {
            return None;
        };
        let idx = self.indices_of_san(&target);
        Some(self.result_for(&idx))
    }

    fn result_for(&self, idx: &Vec<usize>) -> (r: InputResult)
        requires
            forall|k: int| 0 <= k < idx@.len() ==> #[trigger] idx@[k] < self.legal_moves@.len(),
        ensures
            r == result_of(self.candidates(), idx@),
    {
        if idx.len() == 0 {
            InputResult::NoMatch
        } else if idx.len() == 1 {
            InputResult::Exact(self.legal_moves[idx[0]].0)
        } else {
            InputResult::NeedMore(idx.len())
        }
    }

    fn try_square_to_square(&self) -> (r: Option<InputResult>)
        ensures
            r == coordinate_result(self.candidates(), self.spec_buffer()),
    {
        let buf = &crate::text::chars_of(self.buffer.as_str());
        if buf.len() < 2 {
            return None;
        }
        let first = crate::text::prefix_of(buf, 2);
        let parsed = Square::parse_chars(first.as_slice());
        assert(first@ == self.spec_buffer().subrange(0, 2));
        assert(parsed == Square::spec_parse(self.spec_buffer().subrange(0, 2)));
        let from = match parsed {
            Some(s) => s,
            None => return None,
        };
        let ghost c = self.candidates();
        if buf.len() <= 3 {
            let mut i: usize = 0;
            while i < self.legal_moves.len()
                invariant
                    i <= self.legal_moves@.len(),
                    c == self.candidates(),
                    c.len() == self.legal_moves@.len(),
                    forall|k: int| 0 <= k < i ==> (#[trigger] c[k]).0.from != from,
                    buf@ == self.spec_buffer(),
                    2 <= buf@.len() <= 3,
                    Square::spec_parse(self.spec_buffer().subrange(0, 2)) == Some(from),
                decreases self.legal_moves.len() - i,
            {
                assert(c[i as int].0 == self.legal_moves@[i as int].0);
                if self.legal_moves[i].0.from == from {
                    assert(c[i as int].0.from == from);
                    return Some(InputResult::NeedMore(1));
                }
                i = i + 1;
            }
            return None;
        }
        let tail = {
            let mut t: Vec<char> = Vec::new();
            t.push(buf[2]);
            t.push(buf[3]);
            t
        };
        assert(tail@ =~= buf@.subrange(2, 4));
        let to = match Square::parse_chars(tail.as_slice()) {
            Some(s) => s,
            None => return None,
        };
        let promo: Option<Piece> = if buf.len() == 5 {
            let ch = buf[4];
            let l = if 'A' <= ch && ch <= 'Z' { ((ch as u8) + 32) as char } else { ch };
            if l == 'q' {
                Some(Piece::Queen)
            } else if l == 'r' {
                Some(Piece::Rook)
            } else if l == 'b' {
                Some(Piece::Bishop)
            } else if l == 'n' {
                Some(Piece::Knight)
            } else {
                return None;
            }
        } else {
            None
        };
        Some(self.pick_coordinates(from, to, promo))
    }

    fn pick_coordinates(&self, from: Square, to: Square, promo: Option<Piece>) -> (r: InputResult)
        ensures
            r == coordinate_pick(self.candidates(), from, to, promo),
    {
        let ghost c = self.candidates();
        let eff = castling_destination_exec(from, to);
        let ghost p = |i: int| coordinate_fits(c[i].0, from, to, promo);
        let mut idx: Vec<usize> = Vec::new();
        let mut i: usize = 0;
        while i < self.legal_moves.len()
            invariant
                i <= self.legal_moves@.len(),
                c == self.candidates(),
                c.len() == self.legal_moves@.len(),
                eff == castling_destination(from, to),
                p == (|i: int| coordinate_fits(c[i].0, from, to, promo)),
                idx@ == indices_where(i as int, p),
                forall|k: int| 0 <= k < idx@.len() ==> #[trigger] idx@[k] < i,
            decreases self.legal_moves.len() - i,
        {
            let m = self.legal_moves[i].0;
            assert(c[i as int].0 == m);
            if m.from == from && (m.to == eff || m.to == to) && m.promotion == promo {
                idx.push(i);
            }
            i = i + 1;
        }
        if idx.len() > 1 && promo.is_none() {
            let mut all = true;
            let mut queen: Option<Move> = None;
            let mut k: usize = 0;
            assert(idx@.subrange(0, idx@.len() as int) =~= idx@);
            while k < idx.len()
                invariant
                    k <= idx@.len(),
                    c == self.candidates(),
                    c.len() == self.legal_moves@.len(),
                    forall|j: int| 0 <= j < idx@.len() ==> #[trigger] idx@[j] < self.legal_moves@.len(),
                    all == forall|j: int| 0 <= j < k ==> (#[trigger] c[idx@[j] as int]).0.promotion is Some,
                    queen is None <==> !exists|j: int|
                        0 <= j < k && (#[trigger] c[idx@[j] as int]).0.promotion == Some(Piece::Queen),
                    queen matches Some(q) ==> q == queen_choice(c, idx@),
                    queen is None ==> queen_choice(c, idx@) == queen_choice(c, idx@.subrange(k as int, idx@.len() as int)),
                decreases idx.len() - k,
            {
                let m = self.legal_moves[idx[k]].0;
                assert(c[idx@[k as int] as int].0 == m);
                proof {
                    let rest = idx@.subrange(k as int, idx@.len() as int);
                    assert(rest.drop_first() =~= idx@.subrange(k + 1, idx@.len() as int));
                    assert(rest[0] == idx@[k as int]);
                }
                if m.promotion.is_none() {
                    all = false;
                }
                if queen.is_none() && m.promotion == Some(Piece::Queen) {
                    queen = Some(m);
                }
                k = k + 1;
            }
            if all {
                if let Some(q) = queen {
                    return InputResult::Exact(q);
                }
            }
        }
        self.result_for(&idx)
    }

    fn san_matching(&self) -> (idx: Vec<usize>)
        ensures
            idx@ == san_indices(self.candidates(), self.spec_buffer()),
            forall|k: int| 0 <= k < idx@.len() ==> #[trigger] idx@[k] < self.legal_moves@.len(),
    {
        let ghost c = self.candidates();
        let ghost buf = self.spec_buffer();
        let ghost p = |i: int| san_matches_spec(c[i].1, buf);
        let bchars = crate::text::chars_of(self.buffer.as_str());
        let mut idx: Vec<usize> = Vec::new();
        let mut i: usize = 0;
        while i < self.legal_moves.len()
            invariant
                i <= self.legal_moves@.len(),
                c == self.candidates(),
                c.len() == self.legal_moves@.len(),
                buf == self.buffer@,
                bchars@ == buf,
                p == (|i: int| san_matches_spec(c[i].1, buf)),
                idx@ == indices_where(i as int, p),
                forall|k: int| 0 <= k < idx@.len() ==> #[trigger] idx@[k] < i,
            decreases self.legal_moves.len() - i,
        {
            let s = crate::text::chars_of(self.legal_moves[i].1.as_str());
            assert(c[i as int].1 == self.legal_moves@[i as int].1@);
            if san_matches_chars(&s, &bchars) {
                idx.push(i);
            }
            i = i + 1;
        }
        idx
    }

    fn result_from_matching_with_completeness(&self) -> (r: InputResult)
        requires
            forall|k: int| 0 <= k < self.matching@.len() ==> #[trigger] self.matching@[k] < self.legal_moves@.len(),
            self.matching@ == san_indices(self.candidates(), self.spec_buffer()),
        ensures
            r == san_result(self.candidates(), self.spec_buffer()),
    {
        if self.matching.len() == 1 {
            let i = self.matching[0];
            let (m, san) = &self.legal_moves[i];
            let stripped = strip_marks_exec(&crate::text::chars_of(san.as_str()));
            if same_chars(&crate::text::chars_of(self.buffer.as_str()), &stripped) {
                InputResult::Exact(*m)
            } else {
                InputResult::NeedMore(1)
            }
        } else {
            self.result_for(&self.matching)
        }
    }
}

fn castling_destination_exec(from: Square, to: Square) -> (s: Square)
    ensures
        s == castling_destination(from, to),
{
    let e1 = Square::from_index(4);
    let e8 = Square::from_index(60);
    if from == e1 && to == Square::from_index(6) {
        Square::from_index(7)
    } else if from == e1 && to == Square::from_index(2) {
        Square::from_index(0)
    } else if from == e8 && to == Square::from_index(62) {
        Square::from_index(63)
    } else if from == e8 && to == Square::from_index(58) {
        Square::from_index(56)
    } else {
        to
    }
}

fn all_indices(n: usize) -> (v: Vec<usize>)
    ensures
        v@ == indices_where(n as int, |i: int| true),
        forall|k: int| 0 <= k < v@.len() ==> #[trigger] v@[k] < n,
{
    let ghost p = |i: int| true;
    let mut v: Vec<usize> = Vec::new();
    let mut i: usize = 0;
    while i < n
        invariant
            i <= n,
            p == (|i: int| true),
            v@ == indices_where(i as int, p),
            forall|k: int| 0 <= k < v@.len() ==> #[trigger] v@[k] < i,
        decreases n - i,
    {
        v.push(i);
        i = i + 1;
    }
    v
}

} // verus!
