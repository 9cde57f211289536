//! The state of a game: the position, the history of moves, the captured
//! pieces and whether the game is over.
use vstd::prelude::*;
use crate::chess::types::{Color, File, Move, Piece, Square};
use crate::chess::board::{fen_of, in_check_of, legal_moves_of, move_codes, play_of, printed_after, Board, BoardModel};
use crate::chess::cozy::{cozy_fen_moves, cozy_fen_ok};
use crate::text::{chars_of, push_all, string_of};

verus! {

/// How a game ended.
#[derive(Clone, Copy, PartialEq, Eq, Debug, Structural)]
pub enum GameResult {
    /// The winner's color.
    Checkmate(Color),
    Stalemate,
    DrawByRepetition,
    DrawByFiftyMove,
    DrawByInsufficientMaterial,
    DrawByAgreement,
    /// The color that resigned.
    Resignation(Color),
}

#[derive(Clone, Copy, PartialEq, Eq, Debug, Structural)]
pub enum GameStatus {
    InProgress,
    Finished(GameResult),
}

/// A piece that was taken, with its color.
#[derive(Clone, Copy, PartialEq, Eq, Debug, Structural)]
pub struct CapturedPiece {
    pub piece: Piece,
    pub color: Color,
}

/// A move that was played, what it took, and the position before it.
#[derive(Debug)]
pub struct MoveRecord {
    pub mv: Move,
    pub captured: Option<CapturedPiece>,
    pub previous_board: Board,
}

/// A move record as a mathematical value.
pub struct RecordModel {
    pub mv: Move,
    pub captured: Option<CapturedPiece>,
    pub previous: BoardModel,
}

pub open spec fn record_model(r: MoveRecord) -> RecordModel {
    RecordModel { mv: r.mv, captured: r.captured, previous: r.previous_board@ }
}

/// A game as a mathematical value.
#[verifier::ext_equal]
pub struct GameModel {
    pub board: BoardModel,
    pub history: Seq<RecordModel>,
    /// Pieces taken by White (black pieces), in the order taken.
    pub captured_by_white: Seq<CapturedPiece>,
    /// Pieces taken by Black (white pieces), in the order taken.
    pub captured_by_black: Seq<CapturedPiece>,
    pub status: GameStatus,
}

/// The state of a game.
pub struct GameState {
    board: Board,
    move_history: Vec<MoveRecord>,
    captured_by_white: Vec<CapturedPiece>,
    captured_by_black: Vec<CapturedPiece>,
    status: GameStatus,
}

impl View for GameState {
    type V = GameModel;

    closed spec fn view(&self) -> GameModel {
        GameModel {
            board: self.board@,
            history: self.move_history@.map_values(|r: MoveRecord| record_model(r)),
            captured_by_white: self.captured_by_white@,
            captured_by_black: self.captured_by_black@,
            status: self.status,
        }
    }
}

// ── The rules of the game on top of the chess rules ─────────────────────

/// The piece a move takes: an opposing piece on the destination, or the
/// pawn taken en passant (a pawn moving to another file, with an opposing
/// piece beside it on its origin rank).
pub open spec fn capture_of(b: BoardModel, mv: Move, opponent: Color) -> Option<CapturedPiece> {
    match b.at(mv.to) {
        Some((c, p)) if c == opponent => Some(CapturedPiece { piece: p, color: opponent }),
        _ => match b.at(mv.from) {
            Some((_, p)) if p == Piece::Pawn && mv.from.file != mv.to.file => match b.at(
                Square { file: mv.to.file, rank: mv.from.rank },
            ) {
                Some((c, _)) if c == opponent => Some(CapturedPiece { piece: Piece::Pawn, color: opponent }),
                _ => None,
            },
            _ => None,
        },
    }
}

/// How many of the first `n` squares hold a piece of the color.
pub open spec fn count_color(sq: Seq<Option<(Color, Piece)>>, c: Color, n: int) -> nat
    decreases n,
{
    if n <= 0 {
        0
    } else {
        count_color(sq, c, n - 1) + (if sq[n - 1] matches Some((c2, _)) && c2 == c { 1nat } else { 0nat })
    }
}

/// How many of the first `n` squares hold a knight or bishop of the color.
pub open spec fn count_minor(sq: Seq<Option<(Color, Piece)>>, c: Color, n: int) -> nat
    decreases n,
{
    if n <= 0 {
        0
    } else {
        count_minor(sq, c, n - 1) + (if sq[n - 1] matches Some((c2, p)) && c2 == c && (p == Piece::Knight
            || p == Piece::Bishop) {
            1nat
        } else {
            0nat
        })
    }
}

/// King against king, or king and one minor piece against king.
pub open spec fn insufficient_material_of(b: BoardModel) -> bool {
    let w = count_color(b.squares, Color::White, 64);
    let k = count_color(b.squares, Color::Black, 64);
    let wm = count_minor(b.squares, Color::White, 64);
    let km = count_minor(b.squares, Color::Black, 64);
    (w == 1 && k == 1) || (w == 2 && k == 1 && wm == 1) || (k == 2 && w == 1 && km == 1)
}

/// A square's content with the piece's color swapped.
pub open spec fn color_swapped(o: Option<(Color, Piece)>) -> Option<(Color, Piece)> {
    match o {
        Some((c, p)) => Some((c.spec_opponent(), p)),
        None => None,
    }
}

/// The board with every piece changing color.
pub open spec fn colors_swapped(sq: Seq<Option<(Color, Piece)>>) -> Seq<Option<(Color, Piece)>> {
    Seq::new(sq.len(), |i: int| color_swapped(sq[i]))
}

proof fn lemma_counts_swapped(sq: Seq<Option<(Color, Piece)>>, c: Color, n: int)
    requires
        0 <= n <= sq.len(),
    ensures
        count_color(colors_swapped(sq), c, n) == count_color(sq, c.spec_opponent(), n),
        count_minor(colors_swapped(sq), c, n) == count_minor(sq, c.spec_opponent(), n),
    decreases n,
{
    if n > 0 {
        lemma_counts_swapped(sq, c, n - 1);
        assert(colors_swapped(sq)[n - 1] == color_swapped(sq[n - 1]));
    }
}

/// Insufficient material does not depend on which side holds the pieces:
/// swapping the colors of every piece leaves it unchanged.
pub proof fn lemma_insufficient_material_color_blind(b: BoardModel)
    requires
        b.squares.len() == 64,
    ensures
        insufficient_material_of(
            BoardModel {
                squares: colors_swapped(b.squares),
                side: b.side,
                castling: b.castling,
                en_passant: b.en_passant,
                halfmove: b.halfmove,
                fullmove: b.fullmove,
            },
        ) == insufficient_material_of(b),
{
    lemma_counts_swapped(b.squares, Color::White, 64);
    lemma_counts_swapped(b.squares, Color::Black, 64);
}

/// A king and one knight or bishop against a bare king cannot mate, for
/// either color holding the minor piece: such a position is insufficient
/// material, and when the side to move has a legal move the game is drawn.
pub proof fn lemma_lone_minor_piece_draws(b: BoardModel, strong: Color)
    requires
        count_color(b.squares, strong, 64) == 2,
        count_minor(b.squares, strong, 64) == 1,
        count_color(b.squares, strong.spec_opponent(), 64) == 1,
    ensures
        insufficient_material_of(b),
        legal_moves_of(b).len() > 0 ==> status_of(b) == GameStatus::Finished(GameResult::DrawByInsufficientMaterial),
{
}

/// Bare kings are a draw, whoever is to move.
pub proof fn lemma_bare_kings_draw(b: BoardModel)
    requires
        count_color(b.squares, Color::White, 64) == 1,
        count_color(b.squares, Color::Black, 64) == 1,
    ensures
        insufficient_material_of(b),
        legal_moves_of(b).len() > 0 ==> status_of(b) == GameStatus::Finished(GameResult::DrawByInsufficientMaterial),
{
}

/// The status after a move has produced the position: checkmate (won by
/// the side that just moved) or stalemate when there is no legal move, a
/// draw by insufficient material, otherwise still in progress.
pub open spec fn status_of(b: BoardModel) -> GameStatus {
    if legal_moves_of(b).len() == 0 {
        if in_check_of(b) {
            GameStatus::Finished(GameResult::Checkmate(b.side.spec_opponent()))
        } else {
            GameStatus::Finished(GameResult::Stalemate)
        }
    } else if insufficient_material_of(b) {
        GameStatus::Finished(GameResult::DrawByInsufficientMaterial)
    } else {
        GameStatus::InProgress
    }
}

/// The capital letter of a file, as in "E2".
pub open spec fn file_capital(f: File) -> char {
    match f {
        File::A => 'A',
        File::B => 'B',
        File::C => 'C',
        File::D => 'D',
        File::E => 'E',
        File::F => 'F',
        File::G => 'G',
        File::H => 'H',
    }
}

/// A square as the move text writes it: capital file, then rank ("E2").
pub open spec fn square_text(sq: Square) -> Seq<char> {
    seq![file_capital(sq.file), sq.rank.spec_to_char()]
}

/// A piece kind by its name ("Queen").
pub open spec fn piece_name(p: Piece) -> Seq<char> {
    match p {
        Piece::Pawn => "Pawn"@,
        Piece::Knight => "Knight"@,
        Piece::Bishop => "Bishop"@,
        Piece::Rook => "Rook"@,
        Piece::Queen => "Queen"@,
        Piece::King => "King"@,
    }
}

/// A move written out field by field, as in
/// "Move { from: E2, to: E4, promotion: None }".
pub open spec fn move_text(mv: Move) -> Seq<char> {
    "Move { from: "@ + square_text(mv.from) + ", to: "@ + square_text(mv.to) + ", promotion: "@ + match mv.promotion {
        Some(p) => "Some("@ + piece_name(p) + ")"@,
        None => "None"@,
    } + " }"@
}

/// The game after trying a move: the error message when the game is over
/// or the move is not legal, else the new game.
pub open spec fn make_move_of(g: GameModel, mv: Move) -> Result<GameModel, Seq<char>> {
    if g.status != GameStatus::InProgress {
        Err("Game is already finished"@)
    } else if !legal_moves_of(g.board).contains(mv) || play_of(g.board, mv) is None {
        Err("Illegal move: "@ + move_text(mv))
    } else {
        let after = play_of(g.board, mv).unwrap();
        let captured = capture_of(g.board, mv, g.board.side.spec_opponent());
        Ok(
            GameModel {
                board: after,
                history: g.history.push(RecordModel { mv, captured, previous: g.board }),
                captured_by_white: if g.board.side == Color::White && captured is Some {
                    g.captured_by_white.push(captured.unwrap())
                } else {
                    g.captured_by_white
                },
                captured_by_black: if g.board.side == Color::Black && captured is Some {
                    g.captured_by_black.push(captured.unwrap())
                } else {
                    g.captured_by_black
                },
                status: status_of(after),
            },
        )
    }
}

/// The game after taking back the last move (unchanged when there is none).
pub open spec fn undo_of(g: GameModel) -> GameModel {
    if g.history.len() == 0 {
        g
    } else {
        let r = g.history.last();
        let mover = r.previous.side;
        GameModel {
            board: r.previous,
            history: g.history.drop_last(),
            captured_by_white: if r.captured is Some && mover == Color::White && g.captured_by_white.len() > 0 {
                g.captured_by_white.drop_last()
            } else {
                g.captured_by_white
            },
            captured_by_black: if r.captured is Some && mover == Color::Black && g.captured_by_black.len() > 0 {
                g.captured_by_black.drop_last()
            } else {
                g.captured_by_black
            },
            status: GameStatus::InProgress,
        }
    }
}

/// Taking back a move that was just made restores the game as it was.
pub proof fn lemma_undo_restores(g: GameModel, mv: Move)
    requires
        make_move_of(g, mv) is Ok,
    ensures
        undo_of(make_move_of(g, mv)->Ok_0) == g,
{
    let after = make_move_of(g, mv)->Ok_0;
    assert(after.history.drop_last() =~= g.history);
    let captured = capture_of(g.board, mv, g.board.side.spec_opponent());
    if g.board.side == Color::White && captured is Some {
        assert(after.captured_by_white.drop_last() =~= g.captured_by_white);
    }
    if g.board.side == Color::Black && captured is Some {
        assert(after.captured_by_black.drop_last() =~= g.captured_by_black);
    }
    assert(undo_of(after) =~= g);
}

/// A successful move adds one record, and a piece taken goes to the mover's list.
pub proof fn lemma_move_records(g: GameModel, mv: Move)
    requires
        make_move_of(g, mv) is Ok,
    ensures
        make_move_of(g, mv)->Ok_0.history.len() == g.history.len() + 1,
        make_move_of(g, mv)->Ok_0.history.last().mv == mv,
        make_move_of(g, mv)->Ok_0.history.last().previous == g.board,
        make_move_of(g, mv)->Ok_0.captured_by_white.len() + make_move_of(g, mv)->Ok_0.captured_by_black.len()
            == g.captured_by_white.len() + g.captured_by_black.len() + (if make_move_of(
            g,
            mv,
        )->Ok_0.history.last().captured is Some {
            1int
        } else {
            0int
        }),
{
}

fn count_material(board: &Board) -> (r: (u32, u32, u32, u32))
    ensures
        r.0 == count_color(board@.squares, Color::White, 64),
        r.1 == count_color(board@.squares, Color::Black, 64),
        r.2 == count_minor(board@.squares, Color::White, 64),
        r.3 == count_minor(board@.squares, Color::Black, 64),
{
    let mut w: u32 = 0;
    let mut k: u32 = 0;
    let mut wm: u32 = 0;
    let mut km: u32 = 0;
    let mut i: u8 = 0;
    while i < 64
        invariant
            i <= 64,
            w == count_color(board@.squares, Color::White, i as int),
            k == count_color(board@.squares, Color::Black, i as int),
            wm == count_minor(board@.squares, Color::White, i as int),
            km == count_minor(board@.squares, Color::Black, i as int),
            w <= i && k <= i && wm <= i && km <= i,
        decreases 64 - i,
    {
        let s = Square::from_index(i);
        match board.at(s) {
            Some((c, p)) => {
                let minor = p == Piece::Knight || p == Piece::Bishop;
                match c {
                    Color::White => {
                        w = w + 1;
                        if minor {
                            wm = wm + 1;
                        }
                    },
                    Color::Black => {
                        k = k + 1;
                        if minor {
                            km = km + 1;
                        }
                    },
                }
            },
            None => {},
        }
        i = i + 1;
    }
    (w, k, wm, km)
}

/// King against king, or king and one minor piece against king.
pub fn is_insufficient_material(board: &Board) -> (r: bool)
    ensures
        r == insufficient_material_of(board@),
{
    let (w, k, wm, km) = count_material(board);
    (w == 1 && k == 1) || (w == 2 && k == 1 && wm == 1) || (k == 2 && w == 1 && km == 1)
}

/// The status of the game after a move has produced the position.
pub fn status_after(board: &Board) -> (s: GameStatus)
    ensures
        s == status_of(board@),
{
    if board.legal_moves().len() == 0 {
        if board.in_check() {
            GameStatus::Finished(GameResult::Checkmate(board.side_to_move().opponent()))
        } else {
            GameStatus::Finished(GameResult::Stalemate)
        }
    } else if is_insufficient_material(board) {
        GameStatus::Finished(GameResult::DrawByInsufficientMaterial)
    } else {
        GameStatus::InProgress
    }
}

/// The piece a move takes, if any.
pub fn detect_capture(board: &Board, mv: Move, opponent: Color) -> (r: Option<CapturedPiece>)
    ensures
        r == capture_of(board@, mv, opponent),
{
    match board.at(mv.to) {
        Some((c, p)) if c == opponent => {
            return Some(CapturedPiece { piece: p, color: opponent });
        },
        _ => {},
    }
    match board.at(mv.from) {
        Some((_, p)) if p == Piece::Pawn && mv.from.file != mv.to.file => {
            match board.at(Square { file: mv.to.file, rank: mv.from.rank }) {
                Some((c, _)) if c == opponent => Some(CapturedPiece { piece: Piece::Pawn, color: opponent }),
                _ => None,
            }
        },
        _ => None,
    }
}

fn file_capital_exec(f: File) -> (c: char)
    ensures
        c == file_capital(f),
{
    match f {
        File::A => 'A',
        File::B => 'B',
        File::C => 'C',
        File::D => 'D',
        File::E => 'E',
        File::F => 'F',
        File::G => 'G',
        File::H => 'H',
    }
}

fn piece_name_chars(p: Piece) -> (v: Vec<char>)
    ensures
        v@ == piece_name(p),
{
    match p {
        Piece::Pawn => chars_of("Pawn"),
        Piece::Knight => chars_of("Knight"),
        Piece::Bishop => chars_of("Bishop"),
        Piece::Rook => chars_of("Rook"),
        Piece::Queen => chars_of("Queen"),
        Piece::King => chars_of("King"),
    }
}

fn move_text_chars(mv: Move) -> (v: Vec<char>)
    ensures
        v@ == move_text(mv),
{
    let mut v = chars_of("Move { from: ");
    v.push(file_capital_exec(mv.from.file));
    v.push(mv.from.rank.to_char());
    push_all(&mut v, &chars_of(", to: "));
    v.push(file_capital_exec(mv.to.file));
    v.push(mv.to.rank.to_char());
    push_all(&mut v, &chars_of(", promotion: "));
    match mv.promotion {
        Some(p) => {
            push_all(&mut v, &chars_of("Some("));
            push_all(&mut v, &piece_name_chars(p));
            push_all(&mut v, &chars_of(")"));
        },
        None => push_all(&mut v, &chars_of("None")),
    }
    push_all(&mut v, &chars_of(" }"));
    assert(v@ =~= move_text(mv));
    v
}

fn contains_move(ms: &Vec<Move>, mv: Move) -> (r: bool)
    ensures
        r == ms@.contains(mv),
{
    let mut i: usize = 0;
    while i < ms.len()
        invariant
            i <= ms@.len(),
            forall|k: int| 0 <= k < i ==> ms@[k] != mv,
        decreases ms.len() - i,
    {
        if ms[i] == mv {
            return true;
        }
        i = i + 1;
    }
    false
}

impl GameState {
    /// A new game from the standard starting position.
    pub fn new() -> (g: GameState)
        ensures
            g@.board == crate::chess::board::startpos_model(),
            g@.history.len() == 0,
            g@.captured_by_white.len() == 0,
            g@.captured_by_black.len() == 0,
            g@.status == GameStatus::InProgress,
    {
        let g = GameState {
            board: Board::startpos(),
            move_history: Vec::new(),
            captured_by_white: Vec::new(),
            captured_by_black: Vec::new(),
            status: GameStatus::InProgress,
        };
        assert(g@.history =~= Seq::<RecordModel>::empty());
        g
    }

    pub fn board(&self) -> (b: &Board)
        ensures
            b@ == self@.board,
    {
        &self.board
    }

    pub fn side_to_move(&self) -> (c: Color)
        ensures
            c == self@.board.side,
    {
        self.board.side_to_move()
    }

    /// The number of the full move being played: 1 at the start, one more
    /// after each move of Black.
    pub fn fullmove_number(&self) -> (n: u32)
        ensures
            n == (if self@.history.len() / 2 < u32::MAX { 1 + self@.history.len() / 2 } else { u32::MAX as nat }),
    {
        let half = self.move_history.len() / 2;
        if half < u32::MAX as usize {
            1 + half as u32
        } else {
            u32::MAX
        }
    }

    pub fn move_history(&self) -> (h: &[MoveRecord])
        ensures
            h@.map_values(|r: MoveRecord| record_model(r)) == self@.history,
    {
        self.move_history.as_slice()
    }

    pub fn status(&self) -> (s: GameStatus)
        ensures
            s == self@.status,
    {
        self.status
    }

    /// The pieces taken by a color.
    pub fn captured_by(&self, color: Color) -> (r: &[CapturedPiece])
        ensures
            r@ == (if color == Color::White { self@.captured_by_white } else { self@.captured_by_black }),
    {
        match color {
            Color::White => self.captured_by_white.as_slice(),
            Color::Black => self.captured_by_black.as_slice(),
        }
    }

    pub fn legal_moves(&self) -> (r: Vec<Move>)
        ensures
            r@ == legal_moves_of(self@.board),
            forall|m: Move|
                #[trigger] r@.contains(m) ==> cozy_fen_ok(fen_of(self@.board)) && cozy_fen_moves(
                    fen_of(self@.board),
                ).contains(move_codes(m)),
    {
        self.board.legal_moves()
    }

    /// The legal moves from a square, in generation order.
    pub fn legal_moves_from(&self, square: Square) -> (r: Vec<Move>)
        ensures
            r@ == legal_moves_of(self@.board).filter(|m: Move| m.from == square),
    {
        let all = self.legal_moves();
        let mut out: Vec<Move> = Vec::new();
        let mut i: usize = 0;
        while i < all.len()
            invariant
                i <= all@.len(),
                all@ == legal_moves_of(self@.board),
                out@ == all@.subrange(0, i as int).filter(|m: Move| m.from == square),
            decreases all.len() - i,
        {
            proof {
                reveal_with_fuel(Seq::<_>::filter, 1);
                assert(all@.subrange(0, i + 1 as int).drop_last() =~= all@.subrange(0, i as int));
            }
            if all[i].from == square {
                out.push(all[i]);
            }
            i = i + 1;
        }
        assert(all@.subrange(0, all@.len() as int) =~= all@);
        out
    }

    pub fn is_in_check(&self) -> (r: bool)
        ensures
            r == in_check_of(self@.board),
    {
        self.board.in_check()
    }

    /// Plays a move: refused when the game is over or the move is not
    /// legal; otherwise the position advances, the move is recorded with
    /// what it took, and the status is brought up to date.
    pub fn try_make_move(&mut self, mv: Move) -> (r: Result<(), String>)
        ensures
            match make_move_of(old(self)@, mv) {
                Ok(g) => r is Ok && final(self)@ == g,
                Err(e) => r matches Err(m) && m@ == e && final(self)@ == old(self)@,
            },
            old(self)@.status == GameStatus::InProgress && legal_moves_of(old(self)@.board).contains(mv) ==> printed_after(
                old(self)@.board,
                mv,
            ) is Some && (r is Ok <==> cozy_fen_ok(printed_after(old(self)@.board, mv).unwrap())),
            r is Ok ==> final(self)@.board.side == old(self)@.board.side.spec_opponent(),
    {
        if self.status != GameStatus::InProgress {
            return Err(string_of(&chars_of("Game is already finished")));
        }
        let legal = self.legal_moves();
        let after = if contains_move(&legal, mv) {
            self.board.play(mv)
        } else {
            None
        };
        match after {
            None => {
                let mut msg = chars_of("Illegal move: ");
                push_all(&mut msg, &move_text_chars(mv));
                Err(string_of(&msg))
            },
            Some(after) => {
                let ghost g0 = self@;
                let mover = self.board.side_to_move();
                let captured = detect_capture(&self.board, mv, mover.opponent());
                let status = status_after(&after);
                let mut previous_board = after;
                std::mem::swap(&mut self.board, &mut previous_board);
                match captured {
                    Some(cap) => match mover {
                        Color::White => self.captured_by_white.push(cap),
                        Color::Black => self.captured_by_black.push(cap),
                    },
                    None => {},
                }
                self.move_history.push(MoveRecord { mv, captured, previous_board });
                self.status = status;
                proof {
                    let g = make_move_of(g0, mv)->Ok_0;
                    assert(self@.history =~= g.history);
                    assert(self@ =~= g);
                }
                Ok(())
            },
        }
    }

    /// Takes back the last move, if any: the position before it returns,
    /// the piece it took leaves the mover's list, and the game is in
    /// progress again.
    pub fn undo(&mut self)
        ensures
            final(self)@ == undo_of(old(self)@),
    {
        let ghost g0 = self@;
        match self.move_history.pop() {
            None => {},
            Some(record) => {
                proof {
                    assert(self@.history =~= g0.history.drop_last());
                }
                self.board = record.previous_board;
                if record.captured.is_some() {
                    match self.board.side_to_move() {
                        Color::White => {
                            self.captured_by_white.pop();
                        },
                        Color::Black => {
                            self.captured_by_black.pop();
                        },
                    }
                }
                self.status = GameStatus::InProgress;
                proof {
                    assert(self@ =~= undo_of(g0));
                }
            },
        }
    }
}

impl Default for GameState {
    fn default() -> (g: GameState)
        ensures
            g@.board == crate::chess::board::startpos_model(),
            g@.history.len() == 0,
            g@.status == GameStatus::InProgress,
    {
        GameState::new()
    }
}

} // verus!
