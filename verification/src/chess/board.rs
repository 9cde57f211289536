//! Positions: the library's own board, its FEN, and the rules that
//! `cozy_chess` applies to it.
use vstd::prelude::*;
use crate::chess::types::{Color, File, Move, Piece, Rank, Square};
use crate::chess::cozy::{
    cozy_after, cozy_checked, cozy_fen_after, cozy_fen_checked, cozy_fen_hash, cozy_fen_moves,
    cozy_fen_ok, cozy_fen_squares, cozy_fen_state, cozy_hash, cozy_moves, cozy_squares, cozy_state,
};
use crate::text::{decimal, digit, digit_char, lemma_after_first_space, no_space, push_decimal, second_field, string_of, up_to_space};

verus! {

/// Which castling moves are still allowed.
#[derive(Clone, Copy, PartialEq, Eq, Debug, Hash, Structural)]
pub struct CastleRights {
    pub white_short: bool,
    pub white_long: bool,
    pub black_short: bool,
    pub black_long: bool,
}

/// The mathematical content of a position.
pub struct BoardModel {
    /// What stands on each square, indexed by `Square::index`.
    pub squares: Seq<Option<(Color, Piece)>>,
    pub side: Color,
    pub castling: CastleRights,
    /// The file of a pawn that has just advanced two squares.
    pub en_passant: Option<File>,
    pub halfmove: u8,
    pub fullmove: u16,
}

impl BoardModel {
    /// What stands on a square.
    pub open spec fn at(self, s: Square) -> Option<(Color, Piece)> {
        self.squares[s.spec_index() as int]
    }
}

/// A chess position: pieces, side to move, castle rights, en passant file
/// and the two move counters, as in a FEN.
#[derive(Debug)]
pub struct Board {
    squares: Vec<Option<(Color, Piece)>>,
    side: Color,
    castling: CastleRights,
    en_passant: Option<File>,
    halfmove: u8,
    fullmove: u16,
}

impl View for Board {
    type V = BoardModel;

    closed spec fn view(&self) -> BoardModel {
        BoardModel {
            squares: self.squares@,
            side: self.side,
            castling: self.castling,
            en_passant: self.en_passant,
            halfmove: self.halfmove,
            fullmove: self.fullmove,
        }
    }
}

// ── FEN ─────────────────────────────────────────────────────────────────

/// The FEN letter of a piece: upper case for white, lower case for black.
pub open spec fn piece_fen_char(c: Color, p: Piece) -> char {
    match c {
        Color::White => p.spec_letter(),
        Color::Black => p.spec_lower_letter(),
    }
}

pub open spec fn empty_run(empty: nat) -> Seq<char> {
    if empty > 0 {
        seq![digit_char(empty)]
    } else {
        Seq::empty()
    }
}

/// The FEN of one rank from `file` on, after `empty` empty squares.
pub open spec fn fen_rank(sq: Seq<Option<(Color, Piece)>>, rank: int, file: int, empty: nat) -> Seq<char>
    decreases 8 - file,
{
    if file >= 8 {
        empty_run(empty)
    } else {
        match sq[rank * 8 + file] {
            None => fen_rank(sq, rank, file + 1, empty + 1),
            Some((c, p)) => empty_run(empty) + seq![piece_fen_char(c, p)] + fen_rank(sq, rank, file + 1, 0),
        }
    }
}

/// The FEN of the ranks `rank` down to the first, separated by '/'.
pub open spec fn fen_ranks(sq: Seq<Option<(Color, Piece)>>, rank: int) -> Seq<char>
    decreases rank,
{
    if rank <= 0 {
        fen_rank(sq, 0, 0, 0)
    } else {
        fen_rank(sq, rank, 0, 0) + seq!['/'] + fen_ranks(sq, rank - 1)
    }
}

pub open spec fn castling_fen(c: CastleRights) -> Seq<char> {
    let s = (if c.white_short { seq!['K'] } else { Seq::empty() })
        + (if c.white_long { seq!['Q'] } else { Seq::empty() })
        + (if c.black_short { seq!['k'] } else { Seq::empty() })
        + (if c.black_long { seq!['q'] } else { Seq::empty() });
    if s.len() == 0 {
        seq!['-']
    } else {
        s
    }
}

/// The en passant target square: on the sixth rank when white is to move,
/// on the third when black is.
pub open spec fn en_passant_fen(ep: Option<File>, side: Color) -> Seq<char> {
    match ep {
        None => seq!['-'],
        Some(f) => seq![f.spec_to_char(), if side == Color::White { '6' } else { '3' }],
    }
}

pub open spec fn side_char(c: Color) -> char {
    if c == Color::White {
        'w'
    } else {
        'b'
    }
}

/// The FEN of a position, as `cozy_chess` prints it.
pub open spec fn fen_of(b: BoardModel) -> Seq<char> {
    fen_ranks(b.squares, 7) + seq![' ', side_char(b.side), ' '] + castling_fen(b.castling) + seq![' ']
        + en_passant_fen(b.en_passant, b.side) + seq![' '] + decimal(b.halfmove as nat) + seq![' ']
        + decimal(b.fullmove as nat)
}

proof fn lemma_fen_rank_no_space(sq: Seq<Option<(Color, Piece)>>, rank: int, file: int, empty: nat)
    requires
        0 <= file <= 8,
        empty <= file,
    ensures
        no_space(fen_rank(sq, rank, file, empty)),
    decreases 8 - file,
{
    if file < 8 {
        match sq[rank * 8 + file] {
            None => lemma_fen_rank_no_space(sq, rank, file + 1, empty + 1),
            Some((c, p)) => {
                lemma_fen_rank_no_space(sq, rank, file + 1, 0);
                let e = empty_run(empty);
                let t = fen_rank(sq, rank, file + 1, 0);
                assert forall|i: int| 0 <= i < (e + seq![piece_fen_char(c, p)] + t).len() implies (e + seq![
                    piece_fen_char(c, p),
                ] + t)[i] != ' ' by {
                    if i >= e.len() + 1 {
                        assert((e + seq![piece_fen_char(c, p)] + t)[i] == t[i - e.len() - 1]);
                    }
                }
            },
        }
    }
}

proof fn lemma_fen_ranks_no_space(sq: Seq<Option<(Color, Piece)>>, rank: int)
    ensures
        no_space(fen_ranks(sq, rank)),
    decreases rank,
{
    if rank <= 0 {
        lemma_fen_rank_no_space(sq, 0, 0, 0);
    } else {
        lemma_fen_rank_no_space(sq, rank, 0, 0);
        lemma_fen_ranks_no_space(sq, rank - 1);
        let a = fen_rank(sq, rank, 0, 0);
        let b = fen_ranks(sq, rank - 1);
        assert forall|i: int| 0 <= i < (a + seq!['/'] + b).len() implies (a + seq!['/'] + b)[i] != ' ' by {
            if i >= a.len() + 1 {
                assert((a + seq!['/'] + b)[i] == b[i - a.len() - 1]);
            }
        }
    }
}

/// The FEN's second field is the side to move's letter.
pub proof fn lemma_fen_side_field(b: BoardModel)
    ensures
        second_field(fen_of(b)) == seq![side_char(b.side)],
{
    let x = fen_ranks(b.squares, 7);
    lemma_fen_ranks_no_space(b.squares, 7);
    let rest = seq![side_char(b.side), ' '] + castling_fen(b.castling) + seq![' '] + en_passant_fen(b.en_passant, b.side)
        + seq![' '] + decimal(b.halfmove as nat) + seq![' '] + decimal(b.fullmove as nat);
    assert(fen_of(b) =~= x + seq![' '] + rest);
    lemma_after_first_space(x, rest);
    assert(rest.drop_first()[0] == ' ');
    assert(up_to_space(rest.drop_first()) =~= Seq::<char>::empty());
    assert(up_to_space(rest) =~= seq![side_char(b.side)]);
}

// ── Positions as `cozy_chess` reads them back ───────────────────────────

pub open spec fn color_of_code(c: u8) -> Color {
    if c == 0 {
        Color::White
    } else {
        Color::Black
    }
}

pub open spec fn square_of_codes(o: Option<(u8, u8)>) -> Option<(Color, Piece)> {
    match o {
        None => None,
        Some((c, p)) => Some((color_of_code(c), Piece::spec_from_index(p).unwrap())),
    }
}

/// The position made of the codes that `cozy_chess` hands back.
pub open spec fn model_of_codes(
    sq: Seq<Option<(u8, u8)>>,
    st: (u8, Seq<Option<u8>>, Option<u8>, u8, u16),
) -> BoardModel {
    BoardModel {
        squares: Seq::new(64, |i: int| square_of_codes(sq[i])),
        side: color_of_code(st.0),
        castling: CastleRights {
            white_short: st.1[0] is Some,
            white_long: st.1[1] is Some,
            black_short: st.1[2] is Some,
            black_long: st.1[3] is Some,
        },
        en_passant: match st.2 {
            Some(f) => Some(File::spec_from_index(f)),
            None => None,
        },
        halfmove: st.3,
        fullmove: st.4,
    }
}

/// The position that `cozy_chess` reads from a FEN, if it accepts it.
pub open spec fn board_of_fen(fen: Seq<char>) -> Option<BoardModel> {
    if cozy_fen_ok(fen) {
        Some(model_of_codes(cozy_fen_squares(fen), cozy_fen_state(fen)))
    } else {
        None
    }
}

pub open spec fn move_of_codes(m: (u8, u8, Option<u8>)) -> Move {
    Move {
        from: Square::spec_from_index(m.0),
        to: Square::spec_from_index(m.1),
        promotion: match m.2 {
            Some(p) => Piece::spec_from_index(p),
            None => None,
        },
    }
}

/// The legal moves of a position, in the order `cozy_chess` generates them.
pub open spec fn legal_moves_of(b: BoardModel) -> Seq<Move> {
    if cozy_fen_ok(fen_of(b)) {
        cozy_fen_moves(fen_of(b)).map_values(|m: (u8, u8, Option<u8>)| move_of_codes(m))
    } else {
        Seq::empty()
    }
}

/// The codes of a move as `cozy_chess` takes them: square indices and the
/// promotion piece's index.
pub open spec fn move_codes(mv: Move) -> (u8, u8, Option<u8>) {
    (
        mv.from.spec_index(),
        mv.to.spec_index(),
        match mv.promotion {
            Some(p) => Some(p.spec_index()),
            None => None,
        },
    )
}

/// The FEN that `cozy_chess` prints after playing a move on the position,
/// or `None` when it does not play it.
pub open spec fn printed_after(b: BoardModel, mv: Move) -> Option<Seq<char>> {
    cozy_fen_after(fen_of(b), move_codes(mv).0, move_codes(mv).1, move_codes(mv).2)
}

// ── The shape of the moves the generator lists ──────────────────────────

/// The direction of the side's pawns: up the ranks for white, down for black.
pub open spec fn forward(side: Color) -> int {
    if side == Color::White {
        1
    } else {
        -1
    }
}

/// The rank index of the en passant target square: the sixth rank when
/// white is to move, the third when black is.
pub open spec fn ep_target_index(side: Color) -> int {
    if side == Color::White {
        5
    } else {
        2
    }
}

/// The square of the pawn that may be taken en passant.
pub open spec fn ep_victim_square(b: BoardModel, f: File) -> Square {
    Square { file: f, rank: Rank::spec_from_index((ep_target_index(b.side) - forward(b.side)) as u8) }
}

/// When a pawn may be taken en passant, it stands on its square: an
/// opposing pawn just behind the target square.
pub open spec fn en_passant_valid(b: BoardModel) -> bool {
    b.en_passant matches Some(f) ==> (b.at(ep_victim_square(b, f)) matches Some((c, p)) && c != b.side && p
        == Piece::Pawn)
}

/// Whether a square holds a piece of the side to move.
pub open spec fn own_piece_on(b: BoardModel, s: Square) -> bool {
    b.at(s) matches Some((c, _)) && c == b.side
}

/// How a pawn moves: straight ahead onto an empty square, one rank, or two
/// over an empty square; or one rank ahead on the next file, onto an
/// opposing piece or onto the en passant target.
pub open spec fn pawn_move_shape(b: BoardModel, mv: Move) -> bool {
    let d = forward(b.side);
    let fr = mv.from.rank.spec_index() as int;
    let tr = mv.to.rank.spec_index() as int;
    if mv.from.file == mv.to.file {
        &&& b.at(mv.to) is None
        &&& (tr == fr + d || (tr == fr + 2 * d && b.at(
            Square { file: mv.from.file, rank: Rank::spec_from_index((fr + d) as u8) },
        ) is None))
    } else {
        &&& tr == fr + d
        &&& ((b.at(mv.to) matches Some((c, _)) && c != b.side) || (b.en_passant == Some(mv.to.file) && tr
            == ep_target_index(b.side)))
    }
}

/// What every legal move looks like: a piece of the side to move moves;
/// only a pawn promotes, and neither to a pawn nor to a king; a pawn moves
/// as pawns do.
pub open spec fn listed_move_shape(b: BoardModel, mv: Move) -> bool {
    &&& own_piece_on(b, mv.from)
    &&& (mv.promotion matches Some(q) ==> (b.at(mv.from) matches Some((_, p)) && p == Piece::Pawn) && q
        != Piece::Pawn && q != Piece::King)
    &&& (b.at(mv.from) matches Some((_, p)) && p == Piece::Pawn ==> pawn_move_shape(b, mv))
}

/// Whether a move goes toward the higher files.
pub open spec fn goes_right(mv: Move) -> bool {
    mv.to.file.spec_index() > mv.from.file.spec_index()
}

/// The shape of a list of legal moves: the en passant square is sound,
/// each move has the shape of a legal move, and at most one move lands on
/// a piece of the side to move toward each side (castling, written as the
/// king taking its own rook).
pub open spec fn move_list_shape(b: BoardModel, ms: Seq<Move>) -> bool {
    &&& (ms.len() > 0 ==> en_passant_valid(b))
    &&& forall|i: int| 0 <= i < ms.len() ==> listed_move_shape(b, #[trigger] ms[i])
    &&& forall|i: int, j: int|
        #![trigger ms[i], ms[j]]
        0 <= i < ms.len() && 0 <= j < ms.len() && own_piece_on(b, ms[i].to) && own_piece_on(b, ms[j].to) && goes_right(
            ms[i],
        ) == goes_right(ms[j]) ==> ms[i] == ms[j]
}

/// Whether the side to move is in check.
pub open spec fn in_check_of(b: BoardModel) -> bool {
    cozy_fen_ok(fen_of(b)) && cozy_fen_checked(fen_of(b))
}

/// The position after a move, or `None` when the move is illegal.
pub open spec fn play_of(b: BoardModel, mv: Move) -> Option<BoardModel> {
    if cozy_fen_ok(fen_of(b)) {
        match cozy_fen_after(
            fen_of(b),
            mv.from.spec_index(),
            mv.to.spec_index(),
            match mv.promotion {
                Some(p) => Some(p.spec_index()),
                None => None,
            },
        ) {
            Some(f) => board_of_fen(f),
            None => None,
        }
    } else {
        None
    }
}

/// The Zobrist hash of a position (0 for a position `cozy_chess` refuses).
pub open spec fn hash_of(b: BoardModel) -> u64 {
    if cozy_fen_ok(fen_of(b)) {
        cozy_fen_hash(fen_of(b))
    } else {
        0
    }
}

pub open spec fn opt_model(r: Option<Board>) -> Option<BoardModel> {
    match r {
        Some(b) => Some(b@),
        None => None,
    }
}

// ── The starting position ───────────────────────────────────────────────

/// The piece that starts on a file of the back rank.
pub open spec fn back_rank_piece(file: int) -> Piece {
    if file == 0 || file == 7 {
        Piece::Rook
    } else if file == 1 || file == 6 {
        Piece::Knight
    } else if file == 2 || file == 5 {
        Piece::Bishop
    } else if file == 3 {
        Piece::Queen
    } else {
        Piece::King
    }
}

pub open spec fn start_square(i: int) -> Option<(Color, Piece)> {
    if i < 8 {
        Some((Color::White, back_rank_piece(i)))
    } else if i < 16 {
        Some((Color::White, Piece::Pawn))
    } else if i < 48 {
        None
    } else if i < 56 {
        Some((Color::Black, Piece::Pawn))
    } else {
        Some((Color::Black, back_rank_piece(i - 56)))
    }
}

/// The standard starting position.
pub open spec fn startpos_model() -> BoardModel {
    BoardModel {
        squares: Seq::new(64, |i: int| start_square(i)),
        side: Color::White,
        castling: CastleRights { white_short: true, white_long: true, black_short: true, black_long: true },
        en_passant: None,
        halfmove: 0,
        fullmove: 1,
    }
}

fn back_rank_piece_exec(file: u8) -> (p: Piece)
    requires
        file < 8,
    ensures
        p == back_rank_piece(file as int),
{
    if file == 0 || file == 7 {
        Piece::Rook
    } else if file == 1 || file == 6 {
        Piece::Knight
    } else if file == 2 || file == 5 {
        Piece::Bishop
    } else if file == 3 {
        Piece::Queen
    } else {
        Piece::King
    }
}

impl Board {
    #[verifier::type_invariant]
    spec fn wf(self) -> bool {
        self.squares@.len() == 64
    }

    /// The standard starting position.
    pub fn startpos() -> (b: Board)
        ensures
            b@ == startpos_model(),
    {
        let mut squares: Vec<Option<(Color, Piece)>> = Vec::new();
        let mut i: u8 = 0;
        while i < 64
            invariant
                i <= 64,
                squares@.len() == i,
                forall|j: int| 0 <= j < i ==> #[trigger] squares@[j] == start_square(j),
            decreases 64 - i,
        {
            let e = if i < 8 {
                Some((Color::White, back_rank_piece_exec(i)))
            } else if i < 16 {
                Some((Color::White, Piece::Pawn))
            } else if i < 48 {
                None
            } else if i < 56 {
                Some((Color::Black, Piece::Pawn))
            } else {
                Some((Color::Black, back_rank_piece_exec(i - 56)))
            };
            squares.push(e);
            i = i + 1;
        }
        let b = Board {
            squares,
            side: Color::White,
            castling: CastleRights { white_short: true, white_long: true, black_short: true, black_long: true },
            en_passant: None,
            halfmove: 0,
            fullmove: 1,
        };
        assert(b@.squares =~= startpos_model().squares);
        b
    }

    /// What stands on a square.
    pub fn at(&self, s: Square) -> (r: Option<(Color, Piece)>)
        ensures
            r == self@.at(s),
    {
        proof {
            use_type_invariant(self);
        }
        self.squares[s.index() as usize]
    }

    /// What stands on the square with the given index.
    pub fn at_index(&self, i: u8) -> (r: Option<(Color, Piece)>)
        requires
            i < 64,
        ensures
            r == self@.squares[i as int],
    {
        proof {
            use_type_invariant(self);
        }
        self.squares[i as usize]
    }

    /// The piece on a square, if any.
    pub fn piece_on(&self, s: Square) -> (r: Option<Piece>)
        ensures
            r == (match self@.at(s) {
                Some((_, p)) => Some(p),
                None => None,
            }),
    {
        match self.at(s) {
            Some((_, p)) => Some(p),
            None => None,
        }
    }

    /// The color of the piece on a square, if any.
    pub fn color_on(&self, s: Square) -> (r: Option<Color>)
        ensures
            r == (match self@.at(s) {
                Some((c, _)) => Some(c),
                None => None,
            }),
    {
        match self.at(s) {
            Some((c, _)) => Some(c),
            None => None,
        }
    }

    pub fn side_to_move(&self) -> (c: Color)
        ensures
            c == self@.side,
    {
        self.side
    }

    pub fn castle_rights(&self) -> (c: CastleRights)
        ensures
            c == self@.castling,
    {
        self.castling
    }

    pub fn en_passant(&self) -> (f: Option<File>)
        ensures
            f == self@.en_passant,
    {
        self.en_passant
    }

    pub fn halfmove_clock(&self) -> (n: u8)
        ensures
            n == self@.halfmove,
    {
        self.halfmove
    }

    pub fn fullmove_number(&self) -> (n: u16)
        ensures
            n == self@.fullmove,
    {
        self.fullmove
    }

    /// A copy of the position.
    pub fn duplicate(&self) -> (b: Board)
        ensures
            b@ == self@,
    {
        proof {
            use_type_invariant(self);
        }
        let mut squares: Vec<Option<(Color, Piece)>> = Vec::new();
        let mut i: usize = 0;
        while i < 64
            invariant
                i <= 64,
                self.squares@.len() == 64,
                squares@ == self.squares@.subrange(0, i as int),
            decreases 64 - i,
        {
            squares.push(self.squares[i]);
            i = i + 1;
            proof {
                assert(squares@ =~= self.squares@.subrange(0, i as int));
            }
        }
        assert(squares@ =~= self.squares@);
        Board {
            squares,
            side: self.side,
            castling: self.castling,
            en_passant: self.en_passant,
            halfmove: self.halfmove,
            fullmove: self.fullmove,
        }
    }

    /// Appends the FEN of one rank.
    fn push_rank_fen(&self, out: &mut Vec<char>, rank: u8)
        requires
            rank < 8,
        ensures
            final(out)@ == old(out)@ + fen_rank(self@.squares, rank as int, 0, 0),
    {
        proof {
            use_type_invariant(self);
        }
        let ghost sq = self@.squares;
        let mut file: u8 = 0;
        let mut empty: u8 = 0;
        while file < 8
            invariant
                file <= 8,
                empty <= file,
                rank < 8,
                sq == self@.squares,
                self.squares@.len() == 64,
                old(out)@ + fen_rank(sq, rank as int, 0, 0) == out@ + fen_rank(sq, rank as int, file as int, empty as nat),
            decreases 8 - file,
        {
            let e = self.squares[(rank * 8 + file) as usize];
            assert(e == sq[rank * 8 + file]);
            match e {
                None => {
                    empty = empty + 1;
                },
                Some((c, p)) => {
                    let ghost before = out@;
                    if empty > 0 {
                        out.push(digit(empty));
                    }
                    assert(out@ == before + empty_run(empty as nat));
                    let ch = match c {
                        Color::White => p.letter(),
                        Color::Black => p.lower_letter(),
                    };
                    out.push(ch);
                    assert(out@ == before + empty_run(empty as nat) + seq![piece_fen_char(c, p)]);
                    empty = 0;
                },
            }
            file = file + 1;
        }
        if empty > 0 {
            out.push(digit(empty));
        }
        assert(out@ == old(out)@ + fen_rank(sq, rank as int, 0, 0));
    }

    /// Appends the FEN of the ranks `rank` down to the first.
    fn push_ranks_fen(&self, out: &mut Vec<char>, rank: u8)
        requires
            rank < 8,
        ensures
            final(out)@ == old(out)@ + fen_ranks(self@.squares, rank as int),
        decreases rank,
    {
        self.push_rank_fen(out, rank);
        if rank > 0 {
            out.push('/');
            let ghost mid = out@;
            self.push_ranks_fen(out, rank - 1);
            assert(out@ == mid + fen_ranks(self@.squares, rank - 1));
            assert(out@ =~= old(out)@ + fen_ranks(self@.squares, rank as int));
        }
    }

    fn push_castling_fen(&self, out: &mut Vec<char>)
        ensures
            final(out)@ == old(out)@ + castling_fen(self@.castling),
    {
        let c = self.castling;
        if c.white_short {
            out.push('K');
        }
        if c.white_long {
            out.push('Q');
        }
        if c.black_short {
            out.push('k');
        }
        if c.black_long {
            out.push('q');
        }
        if !c.white_short && !c.white_long && !c.black_short && !c.black_long {
            out.push('-');
        }
        assert(out@ =~= old(out)@ + castling_fen(c));
    }

    fn push_en_passant_fen(&self, out: &mut Vec<char>)
        ensures
            final(out)@ == old(out)@ + en_passant_fen(self@.en_passant, self@.side),
    {
        match self.en_passant {
            None => {
                out.push('-');
            },
            Some(f) => {
                out.push(f.to_char());
                out.push(if self.side == Color::White { '6' } else { '3' });
            },
        }
        assert(out@ =~= old(out)@ + en_passant_fen(self@.en_passant, self@.side));
    }

    /// The FEN of the position, as `cozy_chess` prints it.
    pub fn fen_chars(&self) -> (s: Vec<char>)
        ensures
            s@ == fen_of(self@),
    {
        let mut out: Vec<char> = Vec::new();
        self.push_ranks_fen(&mut out, 7);
        let ghost a = out@;
        out.push(' ');
        out.push(if self.side == Color::White { 'w' } else { 'b' });
        out.push(' ');
        let ghost b = out@;
        self.push_castling_fen(&mut out);
        out.push(' ');
        let ghost c = out@;
        self.push_en_passant_fen(&mut out);
        out.push(' ');
        let ghost d = out@;
        push_decimal(&mut out, self.halfmove as u128);
        out.push(' ');
        let ghost e = out@;
        push_decimal(&mut out, self.fullmove as u128);
        assert(a == fen_ranks(self@.squares, 7));
        assert(b =~= a + seq![' ', side_char(self@.side), ' ']);
        assert(c =~= b + castling_fen(self@.castling) + seq![' ']);
        assert(d =~= c + en_passant_fen(self@.en_passant, self@.side) + seq![' ']);
        assert(e =~= d + decimal(self@.halfmove as nat) + seq![' ']);
        assert(out@ =~= e + decimal(self@.fullmove as nat));
        assert(out@ =~= fen_of(self@));
        out
    }

    /// The FEN of the position.
    pub fn fen(&self) -> (s: String)
        ensures
            s@ == fen_of(self@),
    {
        string_of(&self.fen_chars())
    }
}

impl Board {
    /// The position made of the codes that `cozy_chess` hands back.
    fn from_codes(sq: &Vec<Option<(u8, u8)>>, st: &(u8, Vec<Option<u8>>, Option<u8>, u8, u16)) -> (b: Board)
        requires
            sq@.len() == 64,
            forall|i: int| 0 <= i < 64 ==> (#[trigger] sq@[i] matches Some((c, p)) ==> c < 2 && p < 6),
            st.0 < 2,
            st.1@.len() == 4,
            st.2 matches Some(f) ==> f < 8,
        ensures
            b@ == model_of_codes(sq@, (st.0, st.1@, st.2, st.3, st.4)),
    {
        let mut squares: Vec<Option<(Color, Piece)>> = Vec::new();
        let mut i: usize = 0;
        while i < 64
            invariant
                i <= 64,
                sq@.len() == 64,
                forall|k: int| 0 <= k < 64 ==> (#[trigger] sq@[k] matches Some((c, p)) ==> c < 2 && p < 6),
                squares@.len() == i,
                forall|j: int| 0 <= j < i ==> #[trigger] squares@[j] == square_of_codes(sq@[j]),
            decreases 64 - i,
        {
            let e = match sq[i] {
                None => None,
                Some((c, p)) => {
                    let color = if c == 0 { Color::White } else { Color::Black };
                    match Piece::from_index(p) {
                        Some(piece) => Some((color, piece)),
                        None => None,
                    }
                },
            };
            squares.push(e);
            i = i + 1;
        }
        let ghost m = model_of_codes(sq@, (st.0, st.1@, st.2, st.3, st.4));
        assert(squares@ =~= m.squares);
        let en_passant = match st.2 {
            Some(f) => Some(File::from_index(f)),
            None => None,
        };
        Board {
            squares,
            side: if st.0 == 0 { Color::White } else { Color::Black },
            castling: CastleRights {
                white_short: st.1[0].is_some(),
                white_long: st.1[1].is_some(),
                black_short: st.1[2].is_some(),
                black_long: st.1[3].is_some(),
            },
            en_passant,
            halfmove: st.3,
            fullmove: st.4,
        }
    }

    /// Reads a position from a FEN as `cozy_chess::Board::from_fen` does
    /// (standard FEN, not Shredder FEN); `None` when it refuses the FEN.
    pub fn from_fen(fen: &str) -> (r: Option<Board>)
        ensures
            opt_model(r) == board_of_fen(fen@),
            r matches Some(n) ==> (n@.side == Color::White <==> second_field(fen@) == seq!['w']),
    {
        let sq = cozy_squares(fen);
        let st = cozy_state(fen);
        match (sq, st) {
            (Some(sq), Some(st)) => Some(Board::from_codes(&sq, &st)),
            _ => None,
        }
    }

    /// The legal moves of the position, in the order `cozy_chess` generates them.
    pub fn legal_moves(&self) -> (r: Vec<Move>)
        ensures
            r@ == legal_moves_of(self@),
            r@.no_duplicates(),
            move_list_shape(self@, r@),
            forall|m: Move|
                #[trigger] r@.contains(m) ==> cozy_fen_ok(fen_of(self@)) && cozy_fen_moves(fen_of(self@)).contains(
                    move_codes(m),
                ),
    {
        let fen = self.fen();
        match cozy_moves(fen.as_str()) {
            None => {
                proof {
                    reveal(move_list_shape);
                }
                Vec::new()
            },
            Some(codes) => {
                let mut out: Vec<Move> = Vec::new();
                let mut i: usize = 0;
                while i < codes.len()
                    invariant
                        i <= codes@.len(),
                        fen@ == fen_of(self@),
                        codes@ == cozy_fen_moves(fen@),
                        forall|m: BoardModel|
                            #[trigger] fen_of(m) == fen@ ==> move_list_shape(
                                m,
                                codes@.map_values(|c: (u8, u8, Option<u8>)| move_of_codes(c)),
                            ),
                        forall|k: int| 0 <= k < codes@.len() ==> (#[trigger] codes@[k]).0 < 64 && codes@[k].1 < 64
                            && (codes@[k].2 matches Some(p) ==> p < 6),
                        out@ == codes@.subrange(0, i as int).map_values(|m: (u8, u8, Option<u8>)| move_of_codes(m)),
                        forall|k: int| 0 <= k < i ==> move_codes(#[trigger] out@[k]) == codes@[k],
                    decreases codes.len() - i,
                {
                    let (f, t, p) = codes[i];
                    let promotion = match p {
                        Some(p) => Piece::from_index(p),
                        None => None,
                    };
                    let mv = Move { from: Square::from_index(f), to: Square::from_index(t), promotion };
                    proof {
                        if let Some(q) = p {
                            assert(Piece::spec_from_index(q).unwrap().spec_index() == q);
                        }
                        assert(move_codes(mv) == codes@[i as int]);
                    }
                    out.push(mv);
                    i = i + 1;
                    proof {
                        assert(codes@.subrange(0, i as int) == codes@.subrange(0, i - 1 as int).push(codes@[i - 1]));
                        assert(out@ =~= codes@.subrange(0, i as int).map_values(|m: (u8, u8, Option<u8>)| move_of_codes(m)));
                    }
                }
                assert(codes@.subrange(0, codes@.len() as int) == codes@);
                assert(out@ =~= codes@.map_values(|m: (u8, u8, Option<u8>)| move_of_codes(m)));
                assert(fen_of(self@) == fen@);
                assert(move_list_shape(self@, out@));
                assert forall|a: int, b: int| 0 <= a < out@.len() && 0 <= b < out@.len() && a != b implies out@[a]
                    != out@[b] by {
                    assert(move_codes(out@[a]) == codes@[a]);
                    assert(move_codes(out@[b]) == codes@[b]);
                }
                assert forall|m: Move| #[trigger] out@.contains(m) implies cozy_fen_moves(fen_of(self@)).contains(
                    move_codes(m),
                ) by {
                    let k = choose|k: int| 0 <= k < out@.len() && out@[k] == m;
                    assert(codes@[k] == move_codes(m));
                }
                out
            },
        }
    }

    /// Whether the side to move is in check.
    pub fn in_check(&self) -> (r: bool)
        ensures
            r == in_check_of(self@),
    {
        let fen = self.fen();
        match cozy_checked(fen.as_str()) {
            Some(c) => c,
            None => false,
        }
    }

    /// The Zobrist hash of the position.
    pub fn hash(&self) -> (h: u64)
        ensures
            h == hash_of(self@),
    {
        let fen = self.fen();
        match cozy_hash(fen.as_str()) {
            Some(h) => h,
            None => 0,
        }
    }

    /// The position after a move; `None` when the move is illegal.
    pub fn play(&self, mv: Move) -> (r: Option<Board>)
        ensures
            opt_model(r) == play_of(self@, mv),
            cozy_fen_ok(fen_of(self@)) && cozy_fen_moves(fen_of(self@)).contains(move_codes(mv)) ==> printed_after(
                self@,
                mv,
            ) is Some,
            r matches Some(n) ==> n@.side == self@.side.spec_opponent(),
    {
        let fen = self.fen();
        let promotion = match mv.promotion {
            Some(p) => Some(p.index()),
            None => None,
        };
        match cozy_after(fen.as_str(), mv.from.index(), mv.to.index(), promotion) {
            None => None,
            Some(next) => {
                proof {
                    lemma_fen_side_field(self@);
                    assert(seq!['b'][0] != seq!['w'][0]);
                    assert(seq![side_char(self@.side)] == seq!['w'] <==> self@.side == Color::White);
                }
                Board::from_fen(next.as_str())
            },
        }
    }
}

impl Default for Board {
    fn default() -> (b: Board)
        ensures
            b@ == startpos_model(),
    {
        Board::startpos()
    }
}

} // verus!
