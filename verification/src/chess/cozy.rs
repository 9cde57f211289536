//! The calls into `cozy_chess`.
//!
//! A position travels to `cozy_chess` as a FEN string (printed by
//! `Board::fen_chars`) and comes back as plain codes: a square as its index
//! `rank * 8 + file`, a color as 0 (white) or 1 (black), a piece as its
//! index pawn 0 ... king 5, a file as 0 (A) ... 7 (H).
//!
//! What `cozy_chess` computes from a position (the legal moves, whether the
//! side to move is in check, the position after a move, the Zobrist hash)
//! is named below and not written out: it is the chess rules themselves.
use vstd::prelude::*;
use crate::text::second_field;
use crate::chess::board::{fen_of, move_list_shape, move_of_codes, BoardModel};

verus! {

/// Whether `cozy_chess::Board::from_fen(fen, false)` accepts the FEN.
pub uninterp spec fn cozy_fen_ok(fen: Seq<char>) -> bool;

/// The contents of the squares of the position that `cozy_chess` reads from
/// the FEN, indexed by square: `(color, piece)` codes or nothing.
pub uninterp spec fn cozy_fen_squares(fen: Seq<char>) -> Seq<Option<(u8, u8)>>;

/// The rest of the position that `cozy_chess` reads from the FEN: side to
/// move, castle rights (white short, white long, black short, black long,
/// each the file of the rook), en passant file, halfmove clock, fullmove
/// number.
pub uninterp spec fn cozy_fen_state(fen: Seq<char>) -> (u8, Seq<Option<u8>>, Option<u8>, u8, u16);

/// The legal moves that `cozy_chess::Board::generate_moves` lists for the
/// position, in the order it lists them, as `(from, to, promotion)` codes.
pub uninterp spec fn cozy_fen_moves(fen: Seq<char>) -> Seq<(u8, u8, Option<u8>)>;

/// Whether `cozy_chess::Board::checkers` is non-empty for the position:
/// whether the side to move is in check.
pub uninterp spec fn cozy_fen_checked(fen: Seq<char>) -> bool;

/// `cozy_chess::Board::hash` of the position (a Zobrist hash that leaves
/// out both move counters).
pub uninterp spec fn cozy_fen_hash(fen: Seq<char>) -> u64;

/// The FEN that `cozy_chess` prints after `Board::try_play` of the move
/// `(from, to, promotion)` on the position, or `None` when the move is
/// illegal there.
pub uninterp spec fn cozy_fen_after(fen: Seq<char>, from: u8, to: u8, promotion: Option<u8>) -> Option<Seq<char>>;

/// `cozy_chess::Board::from_fen`, then `piece_on` and `color_on` of each
/// square in index order. Claims: `Some` exactly when the FEN is accepted;
/// 64 entries, each with a color code below 2 and a piece code below 6
/// (they are casts of `cozy_chess`'s two- and six-variant enums).
#[verifier::external_body]
pub(crate) fn cozy_squares(fen: &str) -> (r: Option<Vec<Option<(u8, u8)>>>)
    ensures
        r is Some <==> cozy_fen_ok(fen@),
        r matches Some(v) ==> {
            &&& v@ == cozy_fen_squares(fen@)
            &&& v@.len() == 64
            &&& forall|i: int| 0 <= i < 64 ==> (#[trigger] v@[i] matches Some((c, p)) ==> c < 2 && p < 6)
        },
{
    let b = cozy_chess::Board::from_fen(fen, false).ok()?;
    Some(cozy_chess::Square::ALL.iter().map(|&s| b.color_on(s).zip(b.piece_on(s)).map(|(c, p)| (c as u8, p as u8))).collect())
}

/// `cozy_chess::Board::from_fen`, then `side_to_move`, `castle_rights` of
/// each color (short, long), `en_passant`, `halfmove_clock` and
/// `fullmove_number`. Claims: `Some` exactly when the FEN is accepted; the
/// codes are in range (casts of `cozy_chess` enums) and there are four
/// castle rights; and the side is white (code 0) exactly when the FEN's
/// second field, split at single spaces, is "w" (`from_fen` splits the FEN
/// with `split(' ')` and reads that field with `Color`'s `FromStr`, which
/// takes "w" or "b" and nothing else).
#[verifier::external_body]
pub(crate) fn cozy_state(fen: &str) -> (r: Option<(u8, Vec<Option<u8>>, Option<u8>, u8, u16)>)
    ensures
        r is Some <==> cozy_fen_ok(fen@),
        r matches Some(t) ==> {
            &&& (t.0, t.1@, t.2, t.3, t.4) == cozy_fen_state(fen@)
            &&& (t.0 == 0 <==> second_field(fen@) == seq!['w'])
            &&& t.0 < 2
            &&& t.1@.len() == 4
            &&& forall|i: int| 0 <= i < 4 ==> (#[trigger] t.1@[i] matches Some(f) ==> f < 8)
            &&& t.2 matches Some(f) ==> f < 8
        },
{
    let b = cozy_chess::Board::from_fen(fen, false).ok()?;
    let rights = cozy_chess::Color::ALL.iter().flat_map(|&c| [b.castle_rights(c).short, b.castle_rights(c).long]);
    Some((b.side_to_move() as u8, rights.map(|f| f.map(|f| f as u8)).collect(), b.en_passant().map(|f| f as u8), b.halfmove_clock(), b.fullmove_number()))
}

/// `cozy_chess::Board::from_fen`, then `generate_moves`, collecting every
/// move as codes. Claims: `Some` exactly when the FEN is accepted; the
/// codes are in range; no move is listed twice (the generator hands out
/// each piece's destinations as a bit set, pushes and captures together
/// and an en passant capture or a castling to a square that set lacks,
/// and each promotion piece once); and, read against any position whose
/// FEN (as `fen_of` writes it) is the one given, the list has the shape of
/// the rules (`move_list_shape`): `from_fen` reads that FEN's pieces, side
/// and en passant file as written and, accepting it, has checked that the
/// pawn to be taken en passant stands behind the target; `generate_moves`
/// moves only the side to move's pieces, promotes only pawns and only to
/// knight, bishop, rook or queen, moves pawns forward one rank (two over
/// an empty square) onto an empty square or diagonally onto an opposing
/// piece or the en passant target, and lands on an own piece only when
/// castling, as the king taking the rook of its castle rights, one on each
/// side.
#[verifier::external_body]
pub(crate) fn cozy_moves(fen: &str) -> (r: Option<Vec<(u8, u8, Option<u8>)>>)
    ensures
        r is Some <==> cozy_fen_ok(fen@),
        r matches Some(v) ==> {
            &&& v@ == cozy_fen_moves(fen@)
            &&& v@.no_duplicates()
            &&& forall|m: BoardModel|
                #[trigger] fen_of(m) == fen@ ==> move_list_shape(
                    m,
                    v@.map_values(|c: (u8, u8, Option<u8>)| move_of_codes(c)),
                )
            &&& forall|i: int| 0 <= i < v@.len() ==> (#[trigger] v@[i]).0 < 64 && v@[i].1 < 64 && (v@[i].2 matches Some(p) ==> p < 6)
        },
{
    let b = cozy_chess::Board::from_fen(fen, false).ok()?;
    let mut v = Vec::new();
    b.generate_moves(|ms| {
        v.extend(ms.into_iter().map(|m| (m.from as u8, m.to as u8, m.promotion.map(|p| p as u8))));
        false
    });
    Some(v)
}

/// `cozy_chess::Board::from_fen`, then whether `checkers` is non-empty.
/// Claims: `Some` exactly when the FEN is accepted.
#[verifier::external_body]
pub(crate) fn cozy_checked(fen: &str) -> (r: Option<bool>)
    ensures
        r is Some <==> cozy_fen_ok(fen@),
        r matches Some(c) ==> c == cozy_fen_checked(fen@),
{
    let b = cozy_chess::Board::from_fen(fen, false).ok()?;
    Some(!b.checkers().is_empty())
}

/// `cozy_chess::Board::from_fen`, then `hash`. Claims: `Some` exactly when
/// the FEN is accepted.
#[verifier::external_body]
pub(crate) fn cozy_hash(fen: &str) -> (r: Option<u64>)
    ensures
        r is Some <==> cozy_fen_ok(fen@),
        r matches Some(h) ==> h == cozy_fen_hash(fen@),
{
    let b = cozy_chess::Board::from_fen(fen, false).ok()?;
    Some(b.hash())
}

/// `cozy_chess::Board::from_fen`, then `try_play` of the move, then the
/// board printed as FEN (`Display`). Claims: `None` when the FEN is not
/// accepted, otherwise the named result; and a move that `generate_moves`
/// lists plays (`try_play` fails only when `is_legal` does, and the
/// generator lists legal moves only); and the move passes the turn: the
/// printed FEN's second field is "w" exactly when the given one's is not
/// (`play_unchecked` toggles the side to move, `Display` writes the board
/// without spaces and then the side's letter, and an accepted FEN's second
/// field is "w" or "b"). Not claimed: that `from_fen` accepts
/// every FEN printed after a legal move; its validity checks (at most two
/// checkers, the en passant square) are not shown to hold after every
/// legal move from every position it accepts.
#[verifier::external_body]
pub(crate) fn cozy_after(fen: &str, from: u8, to: u8, promotion: Option<u8>) -> (r: Option<String>)
    requires
        from < 64,
        to < 64,
        promotion matches Some(p) ==> p < 6,
    ensures
        !cozy_fen_ok(fen@) ==> r is None,
        cozy_fen_ok(fen@) ==> (match r {
            Some(s) => cozy_fen_after(fen@, from, to, promotion) == Some(s@),
            None => cozy_fen_after(fen@, from, to, promotion) is None,
        }),
        cozy_fen_ok(fen@) && cozy_fen_moves(fen@).contains((from, to, promotion)) ==> r is Some,
        r matches Some(s) ==> (second_field(s@) == seq!['w'] <==> second_field(fen@) != seq!['w']),
{
    let mut b = cozy_chess::Board::from_fen(fen, false).ok()?;
    let sq = |i: u8| cozy_chess::Square::index(i as usize);
    let mv = cozy_chess::Move { from: sq(from), to: sq(to), promotion: promotion.map(|p| cozy_chess::Piece::index(p as usize)) };
    b.try_play(mv).ok()?;
    Some(b.to_string())
}

/// The squares a bishop on `sq` attacks with the given blockers
/// (`cozy_chess::get_bishop_moves`): along its diagonals up to and including
/// the first blocker in each direction, as a bit set of square indices.
pub uninterp spec fn cozy_bishop_attacks(sq: u8, blockers: u64) -> u64;

/// The same for a rook (`cozy_chess::get_rook_moves`) along its rank and file.
pub uninterp spec fn cozy_rook_attacks(sq: u8, blockers: u64) -> u64;

/// `k` steps in a direction whose sign is `d` (-1, 0 or 1).
pub open spec fn steps(d: int, k: int) -> int {
    if d > 0 {
        k
    } else if d < 0 {
        -k
    } else {
        0
    }
}

/// The square `k` steps from `sq` in the direction (`df` files, `dr`
/// ranks), when it is on the board.
pub open spec fn ray_square(sq: int, df: int, dr: int, k: int) -> Option<int> {
    let f = sq % 8 + steps(df, k);
    let r = sq / 8 + steps(dr, k);
    if 0 <= f < 8 && 0 <= r < 8 {
        Some(r * 8 + f)
    } else {
        None
    }
}

/// Whether bit `t` of `x` is set.
pub open spec fn bit_set(x: u64, t: int) -> bool {
    (x >> (t as u64)) & 1 == 1
}

/// Whether `t` is on the ray from `sq` in a direction, with no blocker on
/// the squares before it (the first blocker itself is reached).
pub open spec fn ray_reaches(sq: int, t: int, blockers: u64, df: int, dr: int) -> bool {
    exists|k: int|
        1 <= k < 8 && #[trigger] ray_square(sq, df, dr, k) == Some(t) && forall|j: int|
            1 <= j < k ==> (#[trigger] ray_square(sq, df, dr, j) matches Some(u) && !bit_set(blockers, u))
}

/// Whether a bishop on `sq` attacks `t` with the given blockers.
pub open spec fn bishop_reaches(sq: int, t: int, blockers: u64) -> bool {
    ray_reaches(sq, t, blockers, 1, 1) || ray_reaches(sq, t, blockers, 1, -1) || ray_reaches(sq, t, blockers, -1, 1)
        || ray_reaches(sq, t, blockers, -1, -1)
}

/// Whether a rook on `sq` attacks `t` with the given blockers.
pub open spec fn rook_reaches(sq: int, t: int, blockers: u64) -> bool {
    ray_reaches(sq, t, blockers, 1, 0) || ray_reaches(sq, t, blockers, -1, 0) || ray_reaches(sq, t, blockers, 0, 1)
        || ray_reaches(sq, t, blockers, 0, -1)
}

/// Whether a knight jumps between the squares with these indices.
pub open spec fn knight_jump(from: int, to: int) -> bool {
    let df = to % 8 - from % 8;
    let dr = to / 8 - from / 8;
    (df == 1 || df == -1) && (dr == 2 || dr == -2) || (df == 2 || df == -2) && (dr == 1 || dr == -1)
}

/// `cozy_chess::get_knight_moves`: the squares a knight on `sq` attacks.
/// Claims the documented result: bit `t` is set exactly when a knight jumps
/// from `sq` to `t`.
#[verifier::external_body]
pub(crate) fn knight_attacks(sq: u8) -> (r: u64)
    requires
        sq < 64,
    ensures
        forall|t: u64| t < 64 ==> (((r >> t) & 1 == 1) <==> knight_jump(sq as int, t as int)),
{
    cozy_chess::get_knight_moves(cozy_chess::Square::index(sq as usize)).0
}

/// `cozy_chess::get_bishop_moves` with the blockers as a bit set. Claims
/// the result is the named one, and what it documents: bit `t` is set
/// exactly when `t` lies on a diagonal from `sq` up to and including the
/// first blocker.
#[verifier::external_body]
pub(crate) fn bishop_attacks(sq: u8, blockers: u64) -> (r: u64)
    requires
        sq < 64,
    ensures
        r == cozy_bishop_attacks(sq, blockers),
        forall|t: u64| t < 64 ==> (((r >> t) & 1 == 1) <==> bishop_reaches(sq as int, t as int, blockers)),
{
    cozy_chess::get_bishop_moves(cozy_chess::Square::index(sq as usize), cozy_chess::BitBoard(blockers)).0
}

/// `cozy_chess::get_rook_moves` with the blockers as a bit set. Claims the
/// result is the named one, and what it documents: bit `t` is set exactly
/// when `t` lies on the rank or file of `sq` up to and including the first
/// blocker.
#[verifier::external_body]
pub(crate) fn rook_attacks(sq: u8, blockers: u64) -> (r: u64)
    requires
        sq < 64,
    ensures
        r == cozy_rook_attacks(sq, blockers),
        forall|t: u64| t < 64 ==> (((r >> t) & 1 == 1) <==> rook_reaches(sq as int, t as int, blockers)),
{
    cozy_chess::get_rook_moves(cozy_chess::Square::index(sq as usize), cozy_chess::BitBoard(blockers)).0
}

} // verus!
