//! What the board shows on each square: the piece, and the background
//! that marks the king in check, the cursor, the selection, the legal
//! destinations and the last move.
use vstd::prelude::*;
use crate::chess::board::{Board, BoardModel, in_check_of};
use crate::chess::types::{Color, File, Move, Piece, Rank, Square};
use crate::theme::{TermColor, Theme};

verus! {

/// The last square (by index, below `n`) that holds a king of a color.
pub open spec fn last_king_below(squares: Seq<Option<(Color, Piece)>>, side: Color, n: int) -> Option<Square>
    decreases n,
{
    if n <= 0 {
        None
    } else if squares[n - 1] == Some((side, Piece::King)) {
        Some(Square::spec_from_index((n - 1) as u8))
    } else {
        last_king_below(squares, side, n - 1)
    }
}

/// The square of the king in check, when the side to move is in check.
pub open spec fn checked_king_of(b: BoardModel) -> Option<Square> {
    if in_check_of(b) {
        last_king_below(b.squares, b.side, 64)
    } else {
        None
    }
}

/// Whether a move in the list goes to a square.
pub open spec fn any_move_to(moves: Seq<Move>, sq: Square) -> bool {
    exists|i: int| 0 <= i < moves.len() && moves[i].to == sq
}

/// The square under a cursor given in board coordinates (file, rank from
/// White's side, or turned around when flipped).
pub open spec fn cursor_target(cursor: (u8, u8), flipped: bool) -> Square {
    if flipped {
        Square { file: File::spec_from_index((7 - cursor.0) as u8), rank: Rank::spec_from_index((7 - cursor.1) as u8) }
    } else {
        Square { file: File::spec_from_index(cursor.0), rank: Rank::spec_from_index(cursor.1) }
    }
}

/// The highlight of a square, in this order: the king in check, the
/// cursor, the selected square, a legal destination of the selection,
/// the last move (light or dark by the square's color); else none.
pub open spec fn highlight_of(
    theme: Theme,
    file: u8,
    rank: u8,
    sq: Square,
    flipped: bool,
    cursor: Option<(u8, u8)>,
    selected: Option<Square>,
    legal_moves: Seq<Move>,
    last_move: Option<(Square, Square)>,
    in_check: bool,
    king_square: Option<Square>,
) -> Option<TermColor> {
    if in_check && king_square == Some(sq) {
        Some(theme.check_bg)
    } else if cursor is Some && cursor_target(cursor.unwrap(), flipped) == sq {
        Some(theme.cursor_bg)
    } else if selected == Some(sq) {
        Some(theme.selected_bg)
    } else if selected is Some && any_move_to(legal_moves, sq) {
        Some(theme.legal_move_bg)
    } else if last_move matches Some((from, to)) && (sq == from || sq == to) {
        Some(if (file + rank) % 2 != 0 {
            theme.last_move_light
        } else {
            theme.last_move_dark
        })
    } else {
        None
    }
}

fn moves_reach(moves: &[Move], sq: Square) -> (b: bool)
    ensures
        b == any_move_to(moves@, sq),
{
    let mut i: usize = 0;
    while i < moves.len()
        invariant
            i <= moves@.len(),
            forall|j: int| 0 <= j < i ==> moves@[j].to != sq,
        decreases moves.len() - i,
    {
        if moves[i].to == sq {
            return true;
        }
        i = i + 1;
    }
    false
}

fn square_at(file: u8, rank: u8) -> (s: Square)
    requires
        file < 8,
        rank < 8,
    ensures
        s == (Square { file: File::spec_from_index(file), rank: Rank::spec_from_index(rank) }),
{
    Square::new(File::from_index(file), Rank::from_index(rank))
}

fn highlight_choice(
    theme: &Theme,
    file: u8,
    rank: u8,
    sq: Square,
    flipped: bool,
    cursor: Option<(u8, u8)>,
    selected: Option<Square>,
    legal_moves: &[Move],
    last_move: Option<(Square, Square)>,
    in_check: bool,
    king_square: Option<Square>,
) -> (c: Option<TermColor>)
    requires
        file <= 7,
        rank <= 7,
        cursor matches Some((cf, cr)) ==> cf < 8 && cr < 8,
    ensures
        c == highlight_of(*theme, file, rank, sq, flipped, cursor, selected, legal_moves@, last_move, in_check, king_square),
{
    if in_check {
        if let Some(king_sq) = king_square {
            if sq == king_sq {
                return Some(theme.check_bg);
            }
        }
    }
    if let Some((cf, cr)) = cursor {
        let cursor_sq = if flipped {
            square_at(7 - cf, 7 - cr)
        } else {
            square_at(cf, cr)
        };
        if sq == cursor_sq {
            return Some(theme.cursor_bg);
        }
    }
    if let Some(sel) = selected {
        if sq == sel {
            return Some(theme.selected_bg);
        }
    }
    if selected.is_some() && moves_reach(legal_moves, sq) {
        return Some(theme.legal_move_bg);
    }
    if let Some((from, to)) = last_move {
        if sq == from || sq == to {
            let is_light = (file + rank) % 2 != 0;
            return Some(if is_light {
                theme.last_move_light
            } else {
                theme.last_move_dark
            });
        }
    }
    None
}

/// The red, green and blue of a color as the board image paints it: true
/// colors as they are; the grey ramp (232 to 255) and the 6×6×6 color cube
/// (16 to 231) of the 256-color palette; other indexed colors a light grey;
/// White near white; named colors otherwise a middle grey.
pub open spec fn rgb_of(c: TermColor) -> (u8, u8, u8) {
    match c {
        TermColor::Rgb(r, g, b) => (r, g, b),
        TermColor::Indexed(idx) => if 232 <= idx {
            let v = ((idx - 232) * 10 + 8) as u8;
            (v, v, v)
        } else if 16 <= idx {
            let i = idx - 16;
            ((i / 36 * 51) as u8, (i / 6 % 6 * 51) as u8, (i % 6 * 51) as u8)
        } else {
            (180, 180, 180)
        },
        TermColor::White => (240, 240, 240),
        TermColor::Yellow => (160, 160, 160),
    }
}

/// Converts a color to red, green and blue.
pub fn color_to_rgb(c: TermColor) -> (rgb: (u8, u8, u8))
    ensures
        rgb == rgb_of(c),
{
    match c {
        TermColor::Rgb(r, g, b) => (r, g, b),
        TermColor::Indexed(idx) => {
            if idx >= 232 {
                let v = (idx - 232) * 10 + 8;
                (v, v, v)
            } else if idx >= 16 {
                let i = idx - 16;
                let b = (i % 6) * 51;
                let g = ((i / 6) % 6) * 51;
                let r = (i / 36) * 51;
                (r, g, b)
            } else {
                (180, 180, 180)
            }
        },
        TermColor::White => (240, 240, 240),
        TermColor::Yellow => (160, 160, 160),
    }
}

/// The highlight of a square in the board image, as red, green and blue.
pub fn highlight_color(
    file: u8,
    rank: u8,
    sq: Square,
    theme: &Theme,
    flipped: bool,
    cursor: Option<(u8, u8)>,
    selected: Option<Square>,
    legal_moves: &[Move],
    last_move: Option<(Square, Square)>,
    in_check: bool,
    king_square: Option<Square>,
) -> (c: Option<(u8, u8, u8)>)
    requires
        file <= 7,
        rank <= 7,
        cursor matches Some((cf, cr)) ==> cf < 8 && cr < 8,
    ensures
        c == (match highlight_of(*theme, file, rank, sq, flipped, cursor, selected, legal_moves@, last_move, in_check, king_square) {
            Some(col) => Some(rgb_of(col)),
            None => None,
        }),
{
    match highlight_choice(theme, file, rank, sq, flipped, cursor, selected, legal_moves, last_move, in_check, king_square) {
        Some(col) => Some(color_to_rgb(col)),
        None => None,
    }
}

/// The board as the terminal draws it, with what it marks.
pub struct ChessBoardWidget<'a> {
    pub board: &'a Board,
    pub theme: &'a Theme,
    pub flipped: bool,
    pub cursor: Option<(u8, u8)>,
    pub selected: Option<Square>,
    pub legal_moves: &'a [Move],
    pub last_move: Option<(Square, Square)>,
    pub in_check: bool,
    pub king_square: Option<Square>,
    pub show_move_hints: bool,
}

impl<'a> ChessBoardWidget<'a> {
    /// A board view with nothing marked but the king in check.
    pub fn new(board: &'a Board, theme: &'a Theme) -> (w: ChessBoardWidget<'a>)
        ensures
            w.board == board,
            w.theme == theme,
            !w.flipped,
            w.cursor is None,
            w.selected is None,
            w.legal_moves@.len() == 0,
            w.last_move is None,
            w.in_check == in_check_of(board@),
            w.king_square == checked_king_of(board@),
            !w.show_move_hints,
    {
        let in_check = board.in_check();
        let king_square = if in_check {
            let side = board.side_to_move();
            let mut sq: Option<Square> = None;
            let mut i: u8 = 0;
            while i < 64
                invariant
                    i <= 64,
                    side == board@.side,
                    sq == last_king_below(board@.squares, side, i as int),
                decreases 64 - i,
            {
                let here = board.at_index(i);
                let is_king = match here {
                    Some((c, Piece::King)) => c == side,
                    _ => false,
                };
                if is_king {
                    sq = Some(Square::from_index(i));
                }
                i = i + 1;
            }
            sq
        } else {
            None
        };
        let no_moves: &[Move] = &[];
        ChessBoardWidget {
            board,
            theme,
            flipped: false,
            cursor: None,
            selected: None,
            legal_moves: no_moves,
            last_move: None,
            in_check,
            king_square,
            show_move_hints: false,
        }
    }

    /// The view turned around (or not).
    pub fn flipped(self, flipped: bool) -> (w: ChessBoardWidget<'a>)
        ensures
            w == (ChessBoardWidget { flipped, ..self }),
    {
        ChessBoardWidget { flipped, ..self }
    }

    /// The view with the cursor at a position.
    pub fn cursor(self, file: u8, rank: u8) -> (w: ChessBoardWidget<'a>)
        ensures
            w == (ChessBoardWidget { cursor: Some((file, rank)), ..self }),
    {
        ChessBoardWidget { cursor: Some((file, rank)), ..self }
    }

    /// The view with a square selected (or none).
    pub fn selected(self, sq: Option<Square>) -> (w: ChessBoardWidget<'a>)
        ensures
            w == (ChessBoardWidget { selected: sq, ..self }),
    {
        ChessBoardWidget { selected: sq, ..self }
    }

    /// The view with the selection's legal moves.
    pub fn legal_moves(self, moves: &'a [Move]) -> (w: ChessBoardWidget<'a>)
        ensures
            w == (ChessBoardWidget { legal_moves: moves, ..self }),
    {
        ChessBoardWidget { legal_moves: moves, ..self }
    }

    /// The view with the last move marked (or none).
    pub fn last_move(self, lm: Option<(Square, Square)>) -> (w: ChessBoardWidget<'a>)
        ensures
            w == (ChessBoardWidget { last_move: lm, ..self }),
    {
        ChessBoardWidget { last_move: lm, ..self }
    }

    /// The view with the move hints shown (or not).
    pub fn show_move_hints(self, show: bool) -> (w: ChessBoardWidget<'a>)
        ensures
            w == (ChessBoardWidget { show_move_hints: show, ..self }),
    {
        ChessBoardWidget { show_move_hints: show, ..self }
    }

    /// The board square (file, rank) drawn at a display column and row,
    /// row 0 being the top.
    pub fn display_to_chess(&self, dc: u8, dr: u8) -> (r: (u8, u8))
        requires
            dc <= 7,
            dr <= 7,
        ensures
            r == (if self.flipped { ((7 - dc) as u8, dr) } else { (dc, (7 - dr) as u8) }),
    {
        if self.flipped {
            (7 - dc, dr)
        } else {
            (dc, 7 - dr)
        }
    }

    /// The background mark of a square at a board position, if any.
    pub fn highlight_bg(&self, file: u8, rank: u8, sq: Square) -> (c: Option<TermColor>)
        requires
            file <= 7,
            rank <= 7,
            self.cursor matches Some((cf, cr)) ==> cf < 8 && cr < 8,
        ensures
            c == highlight_of(
                *self.theme,
                file,
                rank,
                sq,
                self.flipped,
                self.cursor,
                self.selected,
                self.legal_moves@,
                self.last_move,
                self.in_check,
                self.king_square,
            ),
    {
        highlight_choice(
            self.theme,
            file,
            rank,
            sq,
            self.flipped,
            self.cursor,
            self.selected,
            self.legal_moves,
            self.last_move,
            self.in_check,
            self.king_square,
        )
    }

    /// The piece and its color on a square, if any.
    pub fn get_piece(&self, sq: Square) -> (r: Option<(Piece, Color)>)
        ensures
            r == (match self.board@.at(sq) {
                Some((c, p)) => Some((p, c)),
                None => None,
            }),
    {
        match self.board.at(sq) {
            Some((c, p)) => Some((p, c)),
            None => None,
        }
    }
}

} // verus!
