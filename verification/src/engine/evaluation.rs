//! Static evaluation of a position, in centipawns from the point of view of
//! the side to move (positive: good for the side to move).
use vstd::prelude::*;
use crate::chess::types::{Color, Piece};
use crate::chess::board::{in_check_of, Board, BoardModel};
use crate::chess::cozy::{bishop_attacks, cozy_bishop_attacks, cozy_rook_attacks, knight_attacks, knight_jump, rook_attacks};
use crate::engine::difficulty::EvalConfig;
use crate::engine::tables::{
    bishop_pst, bishop_pst_at, king_endgame_pst, king_endgame_pst_at, king_middlegame_pst, king_middlegame_pst_at,
    knight_pst, knight_pst_at, passed_pawn_bonus, passed_pawn_bonus_at, pawn_pst, pawn_pst_at, pst_index, queen_pst,
    queen_pst_at, rook_pst, rook_pst_at, spec_pst_index, BISHOP_PAIR_BONUS, BISHOP_VALUE, DOUBLED_PAWN_PENALTY,
    ISOLATED_PAWN_PENALTY, KING_VALUE, KNIGHT_VALUE, PAWN_VALUE, QUEEN_VALUE, ROOK_OPEN_FILE, ROOK_SEMI_OPEN_FILE,
    ROOK_VALUE,
};

verus! {

/// What stands on each square, indexed by `Square::index`.
pub type Squares = Seq<Option<(Color, Piece)>>;

/// Whether a square's content is the piece of the color.
fn is_piece(x: Option<(Color, Piece)>, c: Color, p: Piece) -> (r: bool)
    ensures
        r == (x == Some((c, p))),
{
    match x {
        Some((c2, p2)) => c2 == c && p2 == p,
        None => false,
    }
}

// ── Counting ────────────────────────────────────────────────────────────

/// Whether the square with index `i` holds the piece of the color.
pub open spec fn holds(b: Squares, i: int, c: Color, p: Piece) -> bool {
    b[i] == Some((c, p))
}

/// Whether the square with index `i` holds a piece of the color.
pub open spec fn owns(b: Squares, i: int, c: Color) -> bool {
    b[i] matches Some((c2, _)) && c2 == c
}

/// How many of the squares below `n` hold the piece of the color.
pub open spec fn count_pieces(b: Squares, c: Color, p: Piece, n: int) -> int
    decreases n,
{
    if n <= 0 {
        0
    } else {
        count_pieces(b, c, p, n - 1) + if holds(b, n - 1, c, p) { 1int } else { 0int }
    }
}

pub proof fn lemma_count_pieces_bounds(b: Squares, c: Color, p: Piece, n: int)
    ensures
        0 <= count_pieces(b, c, p, n) <= if n < 0 { 0 } else { n },
    decreases n,
{
    if n > 0 {
        lemma_count_pieces_bounds(b, c, p, n - 1);
    }
}

pub(crate) fn count_of(board: &Board, c: Color, p: Piece) -> (n: i32)
    ensures
        n == count_pieces(board@.squares, c, p, 64),
        0 <= n <= 64,
{
    let mut n: i32 = 0;
    let mut i: u8 = 0;
    while i < 64
        invariant
            i <= 64,
            n == count_pieces(board@.squares, c, p, i as int),
            0 <= n <= i,
        decreases 64 - i,
    {
        if is_piece(board.at_index(i), c, p) {
            n = n + 1;
        }
        i = i + 1;
    }
    n
}

/// How many pawns of the color stand on a file.
pub open spec fn pawns_on_file(b: Squares, c: Color, file: int, ranks: int) -> int
    decreases ranks,
{
    if ranks <= 0 {
        0
    } else {
        pawns_on_file(b, c, file, ranks - 1) + if holds(b, (ranks - 1) * 8 + file, c, Piece::Pawn) {
            1int
        } else {
            0int
        }
    }
}

fn pawns_on_file_exec(board: &Board, c: Color, file: u8) -> (n: i32)
    requires
        file < 8,
    ensures
        n == pawns_on_file(board@.squares, c, file as int, 8),
        0 <= n <= 8,
{
    let mut n: i32 = 0;
    let mut r: u8 = 0;
    while r < 8
        invariant
            r <= 8,
            file < 8,
            n == pawns_on_file(board@.squares, c, file as int, r as int),
            0 <= n <= r,
        decreases 8 - r,
    {
        if is_piece(board.at_index(r * 8 + file), c, Piece::Pawn) {
            n = n + 1;
        }
        r = r + 1;
    }
    n
}

// ── Components ──────────────────────────────────────────────────────────

/// Material: the pieces' base values.
pub open spec fn material_of(b: Squares, c: Color) -> int {
    count_pieces(b, c, Piece::Pawn, 64) * PAWN_VALUE + count_pieces(b, c, Piece::Knight, 64) * KNIGHT_VALUE
        + count_pieces(b, c, Piece::Bishop, 64) * BISHOP_VALUE + count_pieces(b, c, Piece::Rook, 64) * ROOK_VALUE
        + count_pieces(b, c, Piece::Queen, 64) * QUEEN_VALUE
}

/// What a piece adds to its side's material (the king adds nothing).
pub open spec fn base_value(p: Piece) -> int {
    match p {
        Piece::Pawn => PAWN_VALUE as int,
        Piece::Knight => KNIGHT_VALUE as int,
        Piece::Bishop => BISHOP_VALUE as int,
        Piece::Rook => ROOK_VALUE as int,
        Piece::Queen => QUEEN_VALUE as int,
        Piece::King => 0,
    }
}

pub proof fn lemma_count_pieces_placed(b: Squares, i: int, c: Color, p: Piece, c2: Color, q: Piece, n: int)
    requires
        0 <= i < b.len(),
        b[i] is None,
        0 <= n <= b.len(),
    ensures
        count_pieces(b.update(i, Some((c, p))), c2, q, n) == count_pieces(b, c2, q, n) + if i < n && c2 == c && q
            == p {
            1int
        } else {
            0int
        },
    decreases n,
{
    if n > 0 {
        lemma_count_pieces_placed(b, i, c, p, c2, q, n - 1);
    }
}

proof fn lemma_count_pieces_empty(c: Color, q: Piece, n: int)
    requires
        0 <= n <= 64,
    ensures
        count_pieces(Seq::new(64, |k: int| None::<(Color, Piece)>), c, q, n) == 0,
    decreases n,
{
    if n > 0 {
        lemma_count_pieces_empty(c, q, n - 1);
    }
}

/// Material is the sum of the pieces' values: an empty board has none, and
/// putting a piece of a color on an empty square raises that color's
/// material by the piece's value and leaves the other color's unchanged.
pub proof fn lemma_material_is_piece_values(b: Squares, i: int, c: Color, p: Piece)
    requires
        b.len() == 64,
        0 <= i < 64,
        b[i] is None,
    ensures
        material_of(b.update(i, Some((c, p))), c) == material_of(b, c) + base_value(p),
        material_of(b.update(i, Some((c, p))), c.spec_opponent()) == material_of(b, c.spec_opponent()),
        material_of(Seq::new(64, |k: int| None::<(Color, Piece)>), c) == 0,
{
    let o = c.spec_opponent();
    lemma_count_pieces_placed(b, i, c, p, c, Piece::Pawn, 64);
    lemma_count_pieces_placed(b, i, c, p, c, Piece::Knight, 64);
    lemma_count_pieces_placed(b, i, c, p, c, Piece::Bishop, 64);
    lemma_count_pieces_placed(b, i, c, p, c, Piece::Rook, 64);
    lemma_count_pieces_placed(b, i, c, p, c, Piece::Queen, 64);
    lemma_count_pieces_placed(b, i, c, p, o, Piece::Pawn, 64);
    lemma_count_pieces_placed(b, i, c, p, o, Piece::Knight, 64);
    lemma_count_pieces_placed(b, i, c, p, o, Piece::Bishop, 64);
    lemma_count_pieces_placed(b, i, c, p, o, Piece::Rook, 64);
    lemma_count_pieces_placed(b, i, c, p, o, Piece::Queen, 64);
    lemma_count_pieces_empty(c, Piece::Pawn, 64);
    lemma_count_pieces_empty(c, Piece::Knight, 64);
    lemma_count_pieces_empty(c, Piece::Bishop, 64);
    lemma_count_pieces_empty(c, Piece::Rook, 64);
    lemma_count_pieces_empty(c, Piece::Queen, 64);
}

fn eval_material(board: &Board, c: Color) -> (s: i32)
    ensures
        s == material_of(board@.squares, c),
        0 <= s <= 64 * 2150,
{
    let p = count_of(board, c, Piece::Pawn);
    let n = count_of(board, c, Piece::Knight);
    let b = count_of(board, c, Piece::Bishop);
    let r = count_of(board, c, Piece::Rook);
    let q = count_of(board, c, Piece::Queen);
    p * PAWN_VALUE + n * KNIGHT_VALUE + b * BISHOP_VALUE + r * ROOK_VALUE + q * QUEEN_VALUE
}

/// The endgame: no queens at all, or each side with at most the material of
/// a queen and a minor piece (queens 9, rooks 5, minor pieces 3; at most 12
/// a side).
pub open spec fn is_endgame_of(b: Squares) -> bool {
    let wq = count_pieces(b, Color::White, Piece::Queen, 64);
    let bq = count_pieces(b, Color::Black, Piece::Queen, 64);
    let wm = count_pieces(b, Color::White, Piece::Knight, 64) + count_pieces(b, Color::White, Piece::Bishop, 64);
    let bm = count_pieces(b, Color::Black, Piece::Knight, 64) + count_pieces(b, Color::Black, Piece::Bishop, 64);
    let wr = count_pieces(b, Color::White, Piece::Rook, 64);
    let br = count_pieces(b, Color::Black, Piece::Rook, 64);
    (wq == 0 && bq == 0) || (wq * 9 + wr * 5 + wm * 3 <= 12 && bq * 9 + br * 5 + bm * 3 <= 12)
}

/// Whether the position counts as an endgame.
pub fn is_endgame_phase(board: &Board) -> (r: bool)
    ensures
        r == is_endgame_of(board@.squares),
{
    let wq = count_of(board, Color::White, Piece::Queen);
    let bq = count_of(board, Color::Black, Piece::Queen);
    if wq == 0 && bq == 0 {
        return true;
    }
    let wm = count_of(board, Color::White, Piece::Knight) + count_of(board, Color::White, Piece::Bishop);
    let bm = count_of(board, Color::Black, Piece::Knight) + count_of(board, Color::Black, Piece::Bishop);
    let wr = count_of(board, Color::White, Piece::Rook);
    let br = count_of(board, Color::Black, Piece::Rook);
    wq * 9 + wr * 5 + wm * 3 <= 12 && bq * 9 + br * 5 + bm * 3 <= 12
}

/// The table entry of a piece on a table index.
pub open spec fn pst_entry(p: Piece, endgame: bool, idx: int) -> int {
    match p {
        Piece::Pawn => pawn_pst(idx) as int,
        Piece::Knight => knight_pst(idx) as int,
        Piece::Bishop => bishop_pst(idx) as int,
        Piece::Rook => rook_pst(idx) as int,
        Piece::Queen => queen_pst(idx) as int,
        Piece::King => if endgame {
            king_endgame_pst(idx) as int
        } else {
            king_middlegame_pst(idx) as int
        },
    }
}

fn pst_entry_exec(p: Piece, endgame: bool, idx: usize) -> (v: i32)
    requires
        idx < 64,
    ensures
        v == pst_entry(p, endgame, idx as int),
        -50 <= v <= 50,
{
    match p {
        Piece::Pawn => pawn_pst_at(idx),
        Piece::Knight => knight_pst_at(idx),
        Piece::Bishop => bishop_pst_at(idx),
        Piece::Rook => rook_pst_at(idx),
        Piece::Queen => queen_pst_at(idx),
        Piece::King => if endgame {
            king_endgame_pst_at(idx)
        } else {
            king_middlegame_pst_at(idx)
        },
    }
}

/// The piece-square bonuses of the color's pieces on the squares below `n`.
pub open spec fn pst_sum(b: Squares, c: Color, endgame: bool, n: int) -> int
    decreases n,
{
    if n <= 0 {
        0
    } else {
        pst_sum(b, c, endgame, n - 1) + match b[n - 1] {
            Some((c2, p)) if c2 == c => pst_entry(p, endgame, spec_pst_index(n - 1, c == Color::White)),
            _ => 0int,
        }
    }
}

pub open spec fn pst_of(b: Squares, c: Color) -> int {
    pst_sum(b, c, is_endgame_of(b), 64)
}

fn eval_pst(board: &Board, c: Color) -> (s: i32)
    ensures
        s == pst_of(board@.squares, c),
        -50 * 64 <= s <= 50 * 64,
{
    let endgame = is_endgame_phase(board);
    let is_white = c == Color::White;
    let mut s: i32 = 0;
    let mut i: u8 = 0;
    while i < 64
        invariant
            i <= 64,
            endgame == is_endgame_of(board@.squares),
            is_white == (c == Color::White),
            s == pst_sum(board@.squares, c, endgame, i as int),
            -50 * i <= s <= 50 * i,
        decreases 64 - i,
    {
        match board.at_index(i) {
            Some((c2, p)) if c2 == c => {
                s = s + pst_entry_exec(p, endgame, pst_index(i as usize, is_white));
            },
            _ => {},
        }
        i = i + 1;
    }
    s
}

/// Whether a file has a pawn of the color on a neighbouring file.
pub open spec fn has_neighbor_pawn(b: Squares, c: Color, f: int) -> bool {
    (f > 0 && pawns_on_file(b, c, f - 1, 8) > 0) || (f < 7 && pawns_on_file(b, c, f + 1, 8) > 0)
}

/// The pawn-structure penalty of one file: doubled and isolated pawns.
pub open spec fn file_structure(b: Squares, c: Color, f: int) -> int {
    let n = pawns_on_file(b, c, f, 8);
    (if n > 1 { DOUBLED_PAWN_PENALTY * (n - 1) } else { 0int }) + (if n > 0 && !has_neighbor_pawn(b, c, f) {
        ISOLATED_PAWN_PENALTY * n
    } else {
        0int
    })
}

pub open spec fn pawn_structure_sum(b: Squares, c: Color, files: int) -> int
    decreases files,
{
    if files <= 0 {
        0
    } else {
        pawn_structure_sum(b, c, files - 1) + file_structure(b, c, files - 1)
    }
}

pub open spec fn pawn_structure_of(b: Squares, c: Color) -> int {
    pawn_structure_sum(b, c, 8)
}

fn eval_pawn_structure(board: &Board, c: Color) -> (s: i32)
    ensures
        s == pawn_structure_of(board@.squares, c),
        -8 * 300 <= s <= 0,
{
    let mut s: i32 = 0;
    let mut f: u8 = 0;
    while f < 8
        invariant
            f <= 8,
            s == pawn_structure_sum(board@.squares, c, f as int),
            -300 * f <= s <= 0,
        decreases 8 - f,
    {
        let n = pawns_on_file_exec(board, c, f);
        let mut t: i32 = 0;
        if n > 1 {
            t = t + DOUBLED_PAWN_PENALTY * (n - 1);
        }
        if n > 0 {
            let left = f > 0 && pawns_on_file_exec(board, c, f - 1) > 0;
            let right = f < 7 && pawns_on_file_exec(board, c, f + 1) > 0;
            if !(left || right) {
                t = t + ISOLATED_PAWN_PENALTY * n;
            }
        }
        s = s + t;
        f = f + 1;
    }
    s
}

/// The lowest-indexed square below `n` with the color's king.
pub open spec fn first_king(b: Squares, c: Color, n: int) -> Option<int>
    decreases n,
{
    if n <= 0 {
        None
    } else {
        match first_king(b, c, n - 1) {
            Some(i) => Some(i),
            None => if holds(b, n - 1, c, Piece::King) {
                Some(n - 1)
            } else {
                None
            },
        }
    }
}

/// Penalty for each of the files at and beside the king without a pawn of
/// its color; nothing in the endgame or without a king.
pub open spec fn king_safety_of(b: Squares, c: Color) -> int {
    match first_king(b, c, 64) {
        None => 0,
        Some(k) => if is_endgame_of(b) {
            0
        } else {
            let kf = k % 8;
            let start = if kf >= 1 { kf - 1 } else { 0 };
            let end = if kf + 1 <= 7 { kf + 1 } else { 7 };
            shield_penalty(b, c, start, end + 1)
        },
    }
}

/// -15 for each file from `start` below `end` without a pawn of the color.
pub open spec fn shield_penalty(b: Squares, c: Color, start: int, end: int) -> int
    decreases end - start,
{
    if end <= start {
        0
    } else {
        shield_penalty(b, c, start, end - 1) + if pawns_on_file(b, c, end - 1, 8) == 0 { -15int } else { 0int }
    }
}

fn find_king(board: &Board, c: Color) -> (r: Option<u8>)
    ensures
        match first_king(board@.squares, c, 64) {
            Some(k) => r == Some(k as u8) && 0 <= k < 64,
            None => r is None,
        },
{
    let mut i: u8 = 0;
    while i < 64
        invariant
            i <= 64,
            first_king(board@.squares, c, i as int) is None,
        decreases 64 - i,
    {
        if is_piece(board.at_index(i), c, Piece::King) {
            proof {
                lemma_first_king_stays(board@.squares, c, i as int + 1, 64);
            }
            return Some(i);
        }
        i = i + 1;
    }
    None
}

proof fn lemma_first_king_stays(b: Squares, c: Color, n: int, m: int)
    requires
        0 < n <= m,
        first_king(b, c, n) is Some,
    ensures
        first_king(b, c, m) == first_king(b, c, n),
    decreases m - n,
{
    if m > n {
        lemma_first_king_stays(b, c, n, m - 1);
    }
}

fn eval_king_safety(board: &Board, c: Color) -> (s: i32)
    ensures
        s == king_safety_of(board@.squares, c),
        -45 <= s <= 0,
{
    let k = match find_king(board, c) {
        Some(k) => k,
        None => return 0,
    };
    if is_endgame_phase(board) {
        return 0;
    }
    let kf = k % 8;
    let start = if kf >= 1 { kf - 1 } else { 0 };
    let end = if kf + 1 <= 7 { kf + 1 } else { 7 };
    let mut s: i32 = 0;
    let mut f: u8 = start;
    while f <= end
        invariant
            start <= f <= end + 1,
            end <= 7,
            end - start <= 2,
            s == shield_penalty(board@.squares, c, start as int, f as int),
            -15 * (f - start) <= s <= 0,
        decreases end + 1 - f,
    {
        if pawns_on_file_exec(board, c, f) == 0 {
            s = s - 15;
        }
        f = f + 1;
    }
    s
}

/// How many squares below `n` the attack set covers that the color does not occupy.
pub open spec fn free_targets(b: Squares, c: Color, att: u64, n: int) -> int
    decreases n,
{
    if n <= 0 {
        0
    } else {
        free_targets(b, c, att, n - 1) + if (att >> ((n - 1) as u64)) & 1 == 1 && !owns(b, n - 1, c) {
            1int
        } else {
            0int
        }
    }
}

/// How many squares below `n` a knight on `from` jumps to that the color
/// does not occupy.
pub open spec fn knight_targets(b: Squares, c: Color, from: int, n: int) -> int
    decreases n,
{
    if n <= 0 {
        0
    } else {
        knight_targets(b, c, from, n - 1) + if knight_jump(from, n - 1) && !owns(b, n - 1, c) {
            1int
        } else {
            0int
        }
    }
}

/// The occupied squares below `n` as a bit set.
pub open spec fn occupancy(b: Squares, n: int) -> u64
    decreases n,
{
    if n <= 0 {
        0
    } else {
        occupancy(b, n - 1) | if b[n - 1] is Some { (1u64 << ((n - 1) as u64)) } else { 0u64 }
    }
}

fn occupancy_exec(board: &Board) -> (o: u64)
    ensures
        o == occupancy(board@.squares, 64),
{
    let mut o: u64 = 0;
    let mut i: u8 = 0;
    while i < 64
        invariant
            i <= 64,
            o == occupancy(board@.squares, i as int),
        decreases 64 - i,
    {
        let bit: u64 = if board.at_index(i).is_some() {
            1u64 << (i as u64)
        } else {
            0u64
        };
        o = o | bit;
        i = i + 1;
    }
    o
}

fn count_free(board: &Board, c: Color, att: u64) -> (n: i32)
    ensures
        n == free_targets(board@.squares, c, att, 64),
        0 <= n <= 64,
{
    let mut n: i32 = 0;
    let mut i: u8 = 0;
    while i < 64
        invariant
            i <= 64,
            n == free_targets(board@.squares, c, att, i as int),
            0 <= n <= i,
        decreases 64 - i,
    {
        let own = match board.at_index(i) {
            Some((c2, _)) => c2 == c,
            None => false,
        };
        if (att >> (i as u64)) & 1 == 1 && !own {
            n = n + 1;
        }
        i = i + 1;
    }
    n
}

fn count_knight_targets(board: &Board, c: Color, from: u8) -> (n: i32)
    requires
        from < 64,
    ensures
        n == knight_targets(board@.squares, c, from as int, 64),
        0 <= n <= 64,
{
    let att = knight_attacks(from);
    let mut n: i32 = 0;
    let mut i: u8 = 0;
    while i < 64
        invariant
            i <= 64,
            from < 64,
            forall|t: u64| t < 64 ==> (((att >> t) & 1 == 1) <==> knight_jump(from as int, t as int)),
            n == knight_targets(board@.squares, c, from as int, i as int),
            0 <= n <= i,
        decreases 64 - i,
    {
        let own = match board.at_index(i) {
            Some((c2, _)) => c2 == c,
            None => false,
        };
        assert(((att >> (i as u64)) & 1 == 1) <==> knight_jump(from as int, i as int));
        if (att >> (i as u64)) & 1 == 1 && !own {
            n = n + 1;
        }
        i = i + 1;
    }
    n
}

/// The mobility term of the piece on a square: knights 2 per square they
/// reach, bishops 3, rooks 2, queens 1, not counting squares of their own side.
pub open spec fn piece_mobility(b: Squares, c: Color, i: int) -> int {
    let occ = occupancy(b, 64);
    match b[i] {
        Some((c2, p)) if c2 == c => match p {
            Piece::Knight => 2 * knight_targets(b, c, i, 64),
            Piece::Bishop => 3 * free_targets(b, c, cozy_bishop_attacks(i as u8, occ), 64),
            Piece::Rook => 2 * free_targets(b, c, cozy_rook_attacks(i as u8, occ), 64),
            Piece::Queen => free_targets(b, c, cozy_bishop_attacks(i as u8, occ) | cozy_rook_attacks(i as u8, occ), 64),
            _ => 0,
        },
        _ => 0,
    }
}

pub open spec fn mobility_sum(b: Squares, c: Color, n: int) -> int
    decreases n,
{
    if n <= 0 {
        0
    } else {
        mobility_sum(b, c, n - 1) + piece_mobility(b, c, n - 1)
    }
}

pub open spec fn mobility_of(b: Squares, c: Color) -> int {
    mobility_sum(b, c, 64)
}

fn eval_mobility(board: &Board, c: Color) -> (s: i32)
    ensures
        s == mobility_of(board@.squares, c),
        0 <= s <= 64 * 192,
{
    let occ = occupancy_exec(board);
    let mut s: i32 = 0;
    let mut i: u8 = 0;
    while i < 64
        invariant
            i <= 64,
            occ == occupancy(board@.squares, 64),
            s == mobility_sum(board@.squares, c, i as int),
            0 <= s <= 192 * i,
        decreases 64 - i,
    {
        let t: i32 = match board.at_index(i) {
            Some((c2, p)) if c2 == c => match p {
                Piece::Knight => 2 * count_knight_targets(board, c, i),
                Piece::Bishop => 3 * count_free(board, c, bishop_attacks(i, occ)),
                Piece::Rook => 2 * count_free(board, c, rook_attacks(i, occ)),
                Piece::Queen => count_free(board, c, bishop_attacks(i, occ) | rook_attacks(i, occ)),
                _ => 0,
            },
            _ => 0,
        };
        s = s + t;
        i = i + 1;
    }
    s
}

/// 10 for each of d4, e4, d5 and e5 the color occupies.
pub open spec fn center_of(b: Squares, c: Color) -> int {
    10 * ((if owns(b, 27, c) { 1int } else { 0int }) + (if owns(b, 28, c) { 1int } else { 0int }) + (if owns(
        b,
        35,
        c,
    ) {
        1int
    } else {
        0int
    }) + (if owns(b, 36, c) { 1int } else { 0int }))
}

pub(crate) fn owns_exec(board: &Board, i: u8, c: Color) -> (r: bool)
    requires
        i < 64,
    ensures
        r == owns(board@.squares, i as int, c),
{
    match board.at_index(i) {
        Some((c2, _)) => c2 == c,
        None => false,
    }
}

fn eval_center_control(board: &Board, c: Color) -> (s: i32)
    ensures
        s == center_of(board@.squares, c),
        0 <= s <= 40,
{
    let mut n: i32 = 0;
    if owns_exec(board, 27, c) {
        n = n + 1;
    }
    if owns_exec(board, 28, c) {
        n = n + 1;
    }
    if owns_exec(board, 35, c) {
        n = n + 1;
    }
    if owns_exec(board, 36, c) {
        n = n + 1;
    }
    n * 10
}

pub open spec fn bishop_pair_of(b: Squares, c: Color) -> int {
    if count_pieces(b, c, Piece::Bishop, 64) >= 2 {
        BISHOP_PAIR_BONUS as int
    } else {
        0
    }
}

fn eval_bishop_pair(board: &Board, c: Color) -> (s: i32)
    ensures
        s == bishop_pair_of(board@.squares, c),
        0 <= s <= 30,
{
    if count_of(board, c, Piece::Bishop) >= 2 {
        BISHOP_PAIR_BONUS
    } else {
        0
    }
}

/// A rook's file bonus: open (no pawns) or semi-open (no pawn of its own side).
pub open spec fn rook_file_bonus(b: Squares, c: Color, f: int) -> int {
    let ours = pawns_on_file(b, c, f, 8);
    let theirs = pawns_on_file(b, c.spec_opponent(), f, 8);
    if ours == 0 && theirs == 0 {
        ROOK_OPEN_FILE as int
    } else if ours == 0 {
        ROOK_SEMI_OPEN_FILE as int
    } else {
        0
    }
}

pub open spec fn rook_files_sum(b: Squares, c: Color, n: int) -> int
    decreases n,
{
    if n <= 0 {
        0
    } else {
        rook_files_sum(b, c, n - 1) + if holds(b, n - 1, c, Piece::Rook) {
            rook_file_bonus(b, c, (n - 1) % 8)
        } else {
            0int
        }
    }
}

pub open spec fn rook_files_of(b: Squares, c: Color) -> int {
    rook_files_sum(b, c, 64)
}

fn eval_rook_files(board: &Board, c: Color) -> (s: i32)
    ensures
        s == rook_files_of(board@.squares, c),
        0 <= s <= 25 * 64,
{
    let mut s: i32 = 0;
    let mut i: u8 = 0;
    while i < 64
        invariant
            i <= 64,
            s == rook_files_sum(board@.squares, c, i as int),
            0 <= s <= 25 * i,
        decreases 64 - i,
    {
        if is_piece(board.at_index(i), c, Piece::Rook) {
            let f = i % 8;
            let ours = pawns_on_file_exec(board, c, f);
            let theirs = pawns_on_file_exec(board, c.opponent(), f);
            if ours == 0 && theirs == 0 {
                s = s + ROOK_OPEN_FILE;
            } else if ours == 0 {
                s = s + ROOK_SEMI_OPEN_FILE;
            }
        }
        i = i + 1;
    }
    s
}

/// Whether an opposing pawn on the square blocks a pawn of the color on `rank`:
/// it stands ahead of it (higher rank for White, lower for Black).
pub open spec fn blocks(b: Squares, c: Color, sq: int, rank: int) -> bool {
    holds(b, sq, c.spec_opponent(), Piece::Pawn) && if c == Color::White {
        sq / 8 > rank
    } else {
        sq / 8 < rank
    }
}

/// Whether some opposing pawn on the files `lo..=hi`, in the ranks below
/// `r`, blocks a pawn of the color on `rank`.
pub open spec fn blocked_in(b: Squares, c: Color, lo: int, hi: int, rank: int) -> bool {
    exists|f: int, r: int| lo <= f <= hi && 0 <= r < 8 && #[trigger] blocks(b, c, r * 8 + f, rank)
}

/// A passed pawn: no opposing pawn ahead of it on its file or a neighbouring one.
pub open spec fn is_passed(b: Squares, c: Color, i: int) -> bool {
    let f = i % 8;
    !blocked_in(b, c, if f >= 1 { f - 1 } else { 0 }, if f + 1 <= 7 { f + 1 } else { 7 }, i / 8)
}

/// How far a pawn has come: 0 on its second rank, 5 on its seventh.
pub open spec fn advancement(c: Color, rank: int) -> int {
    if c == Color::White {
        if rank >= 1 { rank - 1 } else { 0 }
    } else {
        if 6 >= rank { 6 - rank } else { 0 }
    }
}

pub open spec fn passed_bonus(b: Squares, c: Color, i: int) -> int {
    if holds(b, i, c, Piece::Pawn) && is_passed(b, c, i) && advancement(c, i / 8) < 6 {
        passed_pawn_bonus(advancement(c, i / 8)) as int
    } else {
        0
    }
}

pub open spec fn passed_sum(b: Squares, c: Color, n: int) -> int
    decreases n,
{
    if n <= 0 {
        0
    } else {
        passed_sum(b, c, n - 1) + passed_bonus(b, c, n - 1)
    }
}

pub open spec fn passed_pawns_of(b: Squares, c: Color) -> int {
    passed_sum(b, c, 64)
}

proof fn lemma_blocked_witness(b: Squares, c: Color, lo: int, hi: int, rank: int, f: int, r: int)
    requires
        lo <= f <= hi,
        0 <= r < 8,
        blocks(b, c, r * 8 + f, rank),
    ensures
        blocked_in(b, c, lo, hi, rank),
{
}

fn pawn_is_passed(board: &Board, c: Color, i: u8) -> (r: bool)
    requires
        i < 64,
    ensures
        r == is_passed(board@.squares, c, i as int),
{
    let f = i % 8;
    let rank = i / 8;
    let lo = if f >= 1 { f - 1 } else { 0 };
    let hi = if f + 1 <= 7 { f + 1 } else { 7 };
    let them = c.opponent();
    let mut file = lo;
    while file <= hi
        invariant
            lo <= file <= hi + 1,
            hi <= 7,
            rank < 8,
            i < 64,
            f == i % 8,
            rank == i / 8,
            lo == (if f >= 1 { f - 1 } else { 0 }),
            hi == (if f + 1 <= 7 { f + 1 } else { 7 }),
            them == c.spec_opponent(),
            forall|f2: int, r2: int| lo <= f2 < file && 0 <= r2 < 8 ==> !#[trigger] blocks(board@.squares, c, r2 * 8 + f2, rank as int),
        decreases hi + 1 - file,
    {
        let mut r: u8 = 0;
        while r < 8
            invariant
                r <= 8,
                lo <= file <= hi,
                hi <= 7,
                rank < 8,
                i < 64,
                f == i % 8,
                rank == i / 8,
                lo == (if f >= 1 { f - 1 } else { 0 }),
                hi == (if f + 1 <= 7 { f + 1 } else { 7 }),
                them == c.spec_opponent(),
                forall|f2: int, r2: int| lo <= f2 < file && 0 <= r2 < 8 ==> !#[trigger] blocks(board@.squares, c, r2 * 8 + f2, rank as int),
                forall|r2: int| 0 <= r2 < r ==> !#[trigger] blocks(board@.squares, c, r2 * 8 + file, rank as int),
            decreases 8 - r,
        {
            let ahead = match c {
                Color::White => r > rank,
                Color::Black => r < rank,
            };
            if is_piece(board.at_index(r * 8 + file), them, Piece::Pawn) && ahead {
                assert((r * 8 + file) / 8 == r) by (nonlinear_arith)
                    requires
                        file < 8,
                        r < 8,
                ;
                proof {
                    lemma_blocked_witness(board@.squares, c, lo as int, hi as int, rank as int, file as int, r as int);
                }
                return false;
            }
            r = r + 1;
        }
        file = file + 1;
    }
    true
}

fn eval_passed_pawns(board: &Board, c: Color) -> (s: i32)
    ensures
        s == passed_pawns_of(board@.squares, c),
        0 <= s <= 120 * 64,
{
    let mut s: i32 = 0;
    let mut i: u8 = 0;
    while i < 64
        invariant
            i <= 64,
            s == passed_sum(board@.squares, c, i as int),
            0 <= s <= 120 * i,
        decreases 64 - i,
    {
        if is_piece(board.at_index(i), c, Piece::Pawn) && pawn_is_passed(board, c, i) {
            let rank = i / 8;
            let adv: u8 = match c {
                Color::White => if rank >= 1 { rank - 1 } else { 0 },
                Color::Black => if 6 >= rank { 6 - rank } else { 0 },
            };
            if adv < 6 {
                s = s + passed_pawn_bonus_at(adv as usize);
            }
        }
        i = i + 1;
    }
    s
}

// ── The whole evaluation ────────────────────────────────────────────────

/// The enabled material, piece-square, pawn-structure, king-safety and
/// mobility terms of one color.
pub open spec fn core_terms(b: Squares, c: Color, cfg: EvalConfig) -> int {
    (if cfg.material { material_of(b, c) } else { 0 }) + (if cfg.piece_square_tables { pst_of(b, c) } else { 0 })
        + (if cfg.pawn_structure { pawn_structure_of(b, c) } else { 0 }) + (if cfg.king_safety {
        king_safety_of(b, c)
    } else {
        0
    }) + (if cfg.mobility { mobility_of(b, c) } else { 0 })
}

/// The enabled center, bishop-pair, rook-file and passed-pawn terms of one color.
pub open spec fn positional_terms(b: Squares, c: Color, cfg: EvalConfig) -> int {
    (if cfg.center_control { center_of(b, c) } else { 0 }) + (if cfg.bishop_pair {
        bishop_pair_of(b, c)
    } else {
        0
    }) + (if cfg.rook_on_open_file { rook_files_of(b, c) } else { 0 }) + (if cfg.passed_pawns {
        passed_pawns_of(b, c)
    } else {
        0
    })
}

/// The sum of the enabled components for one color.
pub open spec fn eval_for_color(b: Squares, c: Color, cfg: EvalConfig) -> int {
    core_terms(b, c, cfg) + positional_terms(b, c, cfg)
}

/// The bound on one color's evaluation.
pub open spec fn color_eval_bound() -> int {
    64int * 2150 + 3200 + 2400 + 45 + 64 * 192 + 40 + 30 + 1600 + 7680
}

fn eval_core_terms(board: &Board, c: Color, cfg: &EvalConfig) -> (s: i32)
    ensures
        s == core_terms(board@.squares, c, *cfg),
        -(3200 + 2400 + 45) <= s <= 64 * 2150 + 3200 + 64 * 192,
{
    let material = if cfg.material { eval_material(board, c) } else { 0 };
    let pst = if cfg.piece_square_tables { eval_pst(board, c) } else { 0 };
    let pawns = if cfg.pawn_structure { eval_pawn_structure(board, c) } else { 0 };
    let king = if cfg.king_safety { eval_king_safety(board, c) } else { 0 };
    let mobility = if cfg.mobility { eval_mobility(board, c) } else { 0 };
    material + pst + pawns + king + mobility
}

fn eval_positional_terms(board: &Board, c: Color, cfg: &EvalConfig) -> (s: i32)
    ensures
        s == positional_terms(board@.squares, c, *cfg),
        0 <= s <= 40 + 30 + 1600 + 7680,
{
    let center = if cfg.center_control { eval_center_control(board, c) } else { 0 };
    let bishops = if cfg.bishop_pair { eval_bishop_pair(board, c) } else { 0 };
    let rooks = if cfg.rook_on_open_file { eval_rook_files(board, c) } else { 0 };
    let passed = if cfg.passed_pawns { eval_passed_pawns(board, c) } else { 0 };
    center + bishops + rooks + passed
}

fn evaluate_for_color(board: &Board, c: Color, cfg: &EvalConfig) -> (s: i32)
    ensures
        s == eval_for_color(board@.squares, c, *cfg),
        -color_eval_bound() <= s <= color_eval_bound(),
{
    eval_core_terms(board, c, cfg) + eval_positional_terms(board, c, cfg)
}

/// The evaluation: White's components minus Black's, from the point of
/// view of the side to move.
pub open spec fn evaluation_of(b: BoardModel, cfg: EvalConfig) -> int {
    let raw = eval_for_color(b.squares, Color::White, cfg) - eval_for_color(b.squares, Color::Black, cfg);
    if b.side == Color::White {
        raw
    } else {
        -raw
    }
}

/// The largest evaluation in absolute value.
pub open spec fn eval_bound() -> int {
    2 * color_eval_bound()
}

/// Evaluates the position for the side to move.
pub fn evaluate(board: &Board, config: &EvalConfig) -> (s: i32)
    ensures
        s == evaluation_of(board@, *config),
        -eval_bound() <= s <= eval_bound(),
{
    let w = evaluate_for_color(board, Color::White, config);
    let b = evaluate_for_color(board, Color::Black, config);
    let raw = w - b;
    match board.side_to_move() {
        Color::White => raw,
        Color::Black => -raw,
    }
}

/// The score of a position without legal moves: lost (minus the king's
/// value) when the side to move is in check, drawn otherwise.
pub open spec fn terminal_of(b: BoardModel) -> int {
    if in_check_of(b) {
        -KING_VALUE
    } else {
        0
    }
}

pub fn eval_terminal(board: &Board) -> (s: i32)
    ensures
        s == terminal_of(board@),
{
    if board.in_check() {
        -KING_VALUE
    } else {
        0
    }
}

/// The same position with the other side to move gets the opposite score.
pub proof fn lemma_evaluation_antisymmetric(b: BoardModel, c: BoardModel, cfg: EvalConfig)
    requires
        b.squares == c.squares,
        b.side != c.side,
    ensures
        evaluation_of(b, cfg) == -evaluation_of(c, cfg),
{
}

} // verus!
