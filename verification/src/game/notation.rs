//! Standard Algebraic Notation (SAN): writing moves and reading them back.
use vstd::prelude::*;
use crate::chess::types::{Color, File, Move, Piece, Rank, Square};
use crate::chess::board::{in_check_of, legal_moves_of, play_of, Board, BoardModel};
use crate::text::{
    chars_of, is_prefix, remove_char, same_chars, string_of, trim_end, trim_end_chars, without,
};

verus! {

// ── Writing SAN ─────────────────────────────────────────────────────────

/// "O-O" or "O-O-O" when the move is a king moving onto a rook of the side
/// to move (how castling is written), by the side the rook stands on.
pub open spec fn castling_san(b: BoardModel, mv: Move) -> Option<Seq<char>> {
    if (b.at(mv.from) matches Some((_, p)) && p == Piece::King) && (b.at(mv.to) matches Some((c, q)) && c
        == b.side && q == Piece::Rook) {
        if mv.to.file.spec_index() > mv.from.file.spec_index() {
            Some(seq!['O', '-', 'O'])
        } else {
            Some(seq!['O', '-', 'O', '-', 'O'])
        }
    } else {
        None
    }
}

/// A capture: an opposing piece on the destination, or a pawn changing file
/// (en passant).
pub open spec fn is_capture_of(b: BoardModel, mv: Move) -> bool {
    (b.at(mv.to) matches Some((c, _)) && c == b.side.spec_opponent()) || (b.at(mv.from) matches Some((_, p))
        && p == Piece::Pawn && mv.from.file != mv.to.file)
}

/// Another legal move of a piece of the same kind to the same square.
pub open spec fn is_rival(b: BoardModel, mv: Move, piece: Piece, c: Move) -> bool {
    c.from != mv.from && c.to == mv.to && (b.at(c.from) matches Some((_, q)) && q == piece)
}

/// What tells the moving piece apart from rivals: nothing when there are
/// none, else its file if no rival shares it, else its rank if no rival
/// shares that, else both.
#[verifier::opaque]
pub open spec fn disambiguation(b: BoardModel, mv: Move, piece: Piece) -> Seq<char> {
    let ms = legal_moves_of(b);
    if !(exists|i: int| 0 <= i < ms.len() && is_rival(b, mv, piece, #[trigger] ms[i])) {
        Seq::empty()
    } else if !(exists|i: int|
        0 <= i < ms.len() && is_rival(b, mv, piece, #[trigger] ms[i]) && ms[i].from.file == mv.from.file) {
        seq![mv.from.file.spec_to_char()]
    } else if !(exists|i: int|
        0 <= i < ms.len() && is_rival(b, mv, piece, #[trigger] ms[i]) && ms[i].from.rank == mv.from.rank) {
        seq![mv.from.rank.spec_to_char()]
    } else {
        seq![mv.from.file.spec_to_char(), mv.from.rank.spec_to_char()]
    }
}

/// "+" when the move gives check, "#" when it gives checkmate, else "".
#[verifier::opaque]
pub open spec fn check_suffix_of(b: BoardModel, mv: Move) -> Seq<char> {
    match play_of(b, mv) {
        None => Seq::empty(),
        Some(a) => if !in_check_of(a) {
            Seq::empty()
        } else if legal_moves_of(a).len() > 0 {
            seq!['+']
        } else {
            seq!['#']
        },
    }
}

pub open spec fn promotion_san(mv: Move) -> Seq<char> {
    match mv.promotion {
        Some(p) => seq!['=', p.spec_letter()],
        None => Seq::empty(),
    }
}

/// The SAN of a move from a position (the position before the move).
pub open spec fn san_of(b: BoardModel, mv: Move) -> Seq<char> {
    match castling_san(b, mv) {
        Some(s) => s,
        None => {
            let piece = match b.at(mv.from) {
                Some((_, p)) => p,
                None => Piece::Pawn,
            };
            san_head(b, mv, piece) + san_target(b, mv) + check_suffix_of(b, mv)
        },
    }
}

/// The piece letter and disambiguation, or for a pawn capture its file.
pub open spec fn san_head(b: BoardModel, mv: Move, piece: Piece) -> Seq<char> {
    if piece == Piece::Pawn {
        if is_capture_of(b, mv) {
            seq![mv.from.file.spec_to_char()]
        } else {
            Seq::empty()
        }
    } else {
        seq![piece.spec_letter()] + disambiguation(b, mv, piece)
    }
}

/// The capture mark, the destination and the promotion.
pub open spec fn san_target(b: BoardModel, mv: Move) -> Seq<char> {
    (if is_capture_of(b, mv) { seq!['x'] } else { Seq::empty() }) + seq![
        mv.to.file.spec_to_char(),
        mv.to.rank.spec_to_char(),
    ] + promotion_san(mv)
}

fn castling_chars(board: &Board, mv: &Move) -> (r: Option<Vec<char>>)
    ensures
        match r {
            Some(v) => castling_san(board@, *mv) == Some(v@),
            None => castling_san(board@, *mv) is None,
        },
{
    let from = board.at(mv.from);
    let to = board.at(mv.to);
    let king_moves = match from {
        Some((_, p)) => p == Piece::King,
        None => false,
    };
    let onto_own_rook = match to {
        Some((c, q)) => c == board.side_to_move() && q == Piece::Rook,
        None => false,
    };
    if king_moves && onto_own_rook {
        if mv.to.file.index() > mv.from.file.index() {
            Some(vec!['O', '-', 'O'])
        } else {
            Some(vec!['O', '-', 'O', '-', 'O'])
        }
    } else {
        None
    }
}

fn is_capture(board: &Board, mv: &Move) -> (r: bool)
    ensures
        r == is_capture_of(board@, *mv),
{
    let onto_opponent = match board.at(mv.to) {
        Some((c, _)) => c == board.side_to_move().opponent(),
        None => false,
    };
    if onto_opponent {
        return true;
    }
    match board.at(mv.from) {
        Some((_, p)) => p == Piece::Pawn && mv.from.file != mv.to.file,
        None => false,
    }
}

fn disambiguate(board: &Board, mv: &Move, piece: Piece) -> (r: Vec<char>)
    ensures
        r@ == disambiguation(board@, *mv, piece),
{
    reveal(disambiguation);
    let ms = board.legal_moves();
    let mut any = false;
    let mut same_file = false;
    let mut same_rank = false;
    let mut i: usize = 0;
    while i < ms.len()
        invariant
            i <= ms@.len(),
            ms@ == legal_moves_of(board@),
            any == exists|k: int| 0 <= k < i && is_rival(board@, *mv, piece, #[trigger] ms@[k]),
            same_file == exists|k: int|
                0 <= k < i && is_rival(board@, *mv, piece, #[trigger] ms@[k]) && ms@[k].from.file == mv.from.file,
            same_rank == exists|k: int|
                0 <= k < i && is_rival(board@, *mv, piece, #[trigger] ms@[k]) && ms@[k].from.rank == mv.from.rank,
        decreases ms.len() - i,
    {
        let c = ms[i];
        let same_kind = match board.at(c.from) {
            Some((_, q)) => q == piece,
            None => false,
        };
        if c.from != mv.from && c.to == mv.to && same_kind {
            any = true;
            if c.from.file == mv.from.file {
                same_file = true;
            }
            if c.from.rank == mv.from.rank {
                same_rank = true;
            }
        }
        i = i + 1;
    }
    if !any {
        Vec::new()
    } else if !same_file {
        vec![mv.from.file.to_char()]
    } else if !same_rank {
        vec![mv.from.rank.to_char()]
    } else {
        vec![mv.from.file.to_char(), mv.from.rank.to_char()]
    }
}

fn check_suffix(board: &Board, mv: &Move) -> (r: Vec<char>)
    ensures
        r@ == check_suffix_of(board@, *mv),
{
    reveal(check_suffix_of);
    match board.play(*mv) {
        None => Vec::new(),
        Some(after) => {
            if !after.in_check() {
                Vec::new()
            } else if after.legal_moves().len() > 0 {
                vec!['+']
            } else {
                vec!['#']
            }
        },
    }
}

fn head_chars(board: &Board, mv: &Move, piece: Piece) -> (r: Vec<char>)
    ensures
        r@ == san_head(board@, *mv, piece),
{
    let mut s: Vec<char> = Vec::new();
    if piece == Piece::Pawn {
        if is_capture(board, mv) {
            s.push(mv.from.file.to_char());
        }
    } else {
        let d = disambiguate(board, mv, piece);
        s.push(piece.letter());
        crate::text::push_all(&mut s, &d);
        assert(s@ =~= seq![piece.spec_letter()] + d@);
    }
    s
}

fn target_chars(board: &Board, mv: &Move) -> (r: Vec<char>)
    ensures
        r@ == san_target(board@, *mv),
{
    let mut s: Vec<char> = Vec::new();
    if is_capture(board, mv) {
        s.push('x');
    }
    s.push(mv.to.file.to_char());
    s.push(mv.to.rank.to_char());
    match mv.promotion {
        Some(p) => {
            s.push('=');
            s.push(p.letter());
        },
        None => {},
    }
    assert(s@ =~= san_target(board@, *mv));
    s
}

/// The SAN of a move, as characters.
pub fn san_chars(board: &Board, mv: &Move) -> (r: Vec<char>)
    ensures
        r@ == san_of(board@, *mv),
{
    if let Some(castle) = castling_chars(board, mv) {
        return castle;
    }
    let piece = match board.at(mv.from) {
        Some((_, p)) => p,
        None => Piece::Pawn,
    };
    let mut s = head_chars(board, mv, piece);
    let t = target_chars(board, mv);
    crate::text::push_all(&mut s, &t);
    let suffix = check_suffix(board, mv);
    crate::text::push_all(&mut s, &suffix);
    s
}

/// Converts a move into Standard Algebraic Notation. The board is the
/// position before the move. A move from an empty square is written as a
/// pawn move.
pub fn to_algebraic(board: &Board, mv: &Move) -> (s: String)
    ensures
        s@ == san_of(board@, *mv),
{
    string_of(&san_chars(board, mv))
}

/// Parses a square name like "e4".
pub fn parse_square(s: &str) -> (r: Option<Square>)
    ensures
        r == Square::spec_parse(s@),
{
    let v = chars_of(s);
    Square::parse_chars(v.as_slice())
}

// ── Reading SAN ─────────────────────────────────────────────────────────

/// What a SAN string asks for.
#[derive(Clone, Copy, PartialEq, Eq, Debug)]
pub enum SanQuery {
    /// "O-O" (king side) or "O-O-O".
    Castle { kingside: bool },
    /// A piece of a kind moving to a square, maybe from a given file and/or
    /// rank, maybe promoting.
    Pattern { piece: Piece, dest: Square, file: Option<File>, rank: Option<Rank>, promotion: Option<Piece> },
    /// Not a move.
    Invalid,
}

pub open spec fn is_piece_letter(c: char) -> bool {
    c == 'N' || c == 'B' || c == 'R' || c == 'Q' || c == 'K'
}

pub open spec fn piece_of_letter(c: char) -> Piece {
    if c == 'N' {
        Piece::Knight
    } else if c == 'B' {
        Piece::Bishop
    } else if c == 'R' {
        Piece::Rook
    } else if c == 'Q' {
        Piece::Queen
    } else {
        Piece::King
    }
}

pub open spec fn promotion_of_letter(c: char) -> Option<Piece> {
    if is_piece_letter(c) {
        Some(piece_of_letter(c))
    } else {
        None
    }
}

/// The last file letter among the disambiguation characters.
pub open spec fn last_file(d: Seq<char>) -> Option<File>
    decreases d.len(),
{
    if d.len() == 0 {
        None
    } else if File::spec_from_char(d.last()) is Some {
        File::spec_from_char(d.last())
    } else {
        last_file(d.drop_last())
    }
}

/// The last rank digit among the disambiguation characters.
pub open spec fn last_rank(d: Seq<char>) -> Option<Rank>
    decreases d.len(),
{
    if d.len() == 0 {
        None
    } else if File::spec_from_char(d.last()) is None && Rank::spec_from_char(d.last()) is Some {
        Rank::spec_from_char(d.last())
    } else {
        last_rank(d.drop_last())
    }
}

/// Splits off a trailing "=X" promotion when the text is at least `min` long.
pub open spec fn split_promotion(t: Seq<char>, min: nat) -> (Seq<char>, Option<Piece>) {
    if t.len() >= min && t.len() >= 2 && t[t.len() - 2] == '=' {
        (t.subrange(0, t.len() - 2), promotion_of_letter(t.last()))
    } else {
        (t, None)
    }
}

/// A piece move without capture marks: letter, disambiguation, destination,
/// optional promotion.
pub open spec fn piece_query(t: Seq<char>) -> SanQuery {
    let rest = t.subrange(1, t.len() as int);
    let (coords, promotion) = split_promotion(rest, 3);
    if coords.len() < 2 {
        SanQuery::Invalid
    } else {
        match Square::spec_parse(coords.subrange(coords.len() - 2, coords.len() as int)) {
            None => SanQuery::Invalid,
            Some(dest) => {
                let d = coords.subrange(0, coords.len() - 2);
                SanQuery::Pattern {
                    piece: piece_of_letter(t[0]),
                    dest,
                    file: last_file(d),
                    rank: last_rank(d),
                    promotion,
                }
            },
        }
    }
}

/// A pawn move without capture marks: destination, or origin file and
/// destination, then an optional promotion.
pub open spec fn pawn_query(t: Seq<char>) -> SanQuery {
    let (coords, promotion) = split_promotion(t, 4);
    if coords.len() == 2 {
        match Square::spec_parse(coords) {
            None => SanQuery::Invalid,
            Some(dest) => SanQuery::Pattern { piece: Piece::Pawn, dest, file: None, rank: None, promotion },
        }
    } else if coords.len() == 3 {
        match Square::spec_parse(coords.subrange(1, 3)) {
            None => SanQuery::Invalid,
            Some(dest) => SanQuery::Pattern {
                piece: Piece::Pawn,
                dest,
                file: File::spec_from_char(coords[0]),
                rank: None,
                promotion,
            },
        }
    } else {
        SanQuery::Invalid
    }
}

/// The SAN without trailing '+' and then trailing '#' marks.
pub open spec fn strip_check_marks(san: Seq<char>) -> Seq<char> {
    trim_end(trim_end(san, '+'), '#')
}

/// What a SAN string asks for. Capture marks ('x') are ignored.
pub open spec fn san_query(san: Seq<char>) -> SanQuery {
    let s = strip_check_marks(san);
    if s == seq!['O', '-', 'O'] {
        SanQuery::Castle { kingside: true }
    } else if s == seq!['O', '-', 'O', '-', 'O'] {
        SanQuery::Castle { kingside: false }
    } else {
        let t = without(s, 'x');
        if t.len() == 0 {
            SanQuery::Invalid
        } else if is_piece_letter(t[0]) {
            piece_query(t)
        } else if File::spec_from_char(t[0]) is Some {
            pawn_query(t)
        } else {
            SanQuery::Invalid
        }
    }
}

/// Whether a move is the castling asked for: the king moving onto a rook of
/// the side to move, on the side asked for.
pub open spec fn is_castle_match(b: BoardModel, m: Move, kingside: bool) -> bool {
    &&& b.at(m.from) matches Some((_, p)) && p == Piece::King
    &&& b.at(m.to) matches Some((c, q)) && c == b.side && q == Piece::Rook
    &&& (m.to.file.spec_index() > m.from.file.spec_index()) == kingside
}

/// Whether a move fits what the SAN asks for.
pub open spec fn fits_query(b: BoardModel, q: SanQuery, m: Move) -> bool {
    match q {
        SanQuery::Castle { kingside } => is_castle_match(b, m, kingside),
        SanQuery::Pattern { piece, dest, file, rank, promotion } => {
            &&& m.to == dest
            &&& b.at(m.from) matches Some((_, p)) && p == piece
            &&& file matches Some(f) ==> m.from.file == f
            &&& rank matches Some(r) ==> m.from.rank == r
            &&& m.promotion == promotion
        },
        SanQuery::Invalid => false,
    }
}

/// The last move of the list that fits the query.
pub open spec fn last_fitting(b: BoardModel, q: SanQuery, ms: Seq<Move>) -> Option<Move>
    decreases ms.len(),
{
    if ms.len() == 0 {
        None
    } else if fits_query(b, q, ms.last()) {
        Some(ms.last())
    } else {
        last_fitting(b, q, ms.drop_last())
    }
}

/// The legal move that a SAN string names: the last legal move, in
/// generation order, that fits what it asks for.
pub open spec fn parse_san_of(b: BoardModel, san: Seq<char>) -> Option<Move> {
    last_fitting(b, san_query(san), legal_moves_of(b))
}

fn is_piece_letter_exec(c: char) -> (r: bool)
    ensures
        r == is_piece_letter(c),
{
    c == 'N' || c == 'B' || c == 'R' || c == 'Q' || c == 'K'
}

fn piece_of_letter_exec(c: char) -> (p: Piece)
    ensures
        p == piece_of_letter(c),
{
    if c == 'N' {
        Piece::Knight
    } else if c == 'B' {
        Piece::Bishop
    } else if c == 'R' {
        Piece::Rook
    } else if c == 'Q' {
        Piece::Queen
    } else {
        Piece::King
    }
}

fn promotion_of_letter_exec(c: char) -> (p: Option<Piece>)
    ensures
        p == promotion_of_letter(c),
{
    if is_piece_letter_exec(c) {
        Some(piece_of_letter_exec(c))
    } else {
        None
    }
}

fn disambiguators(d: &Vec<char>) -> (r: (Option<File>, Option<Rank>))
    ensures
        r.0 == last_file(d@),
        r.1 == last_rank(d@),
{
    let mut file: Option<File> = None;
    let mut rank: Option<Rank> = None;
    let mut i: usize = 0;
    assert(d@.subrange(0, 0) =~= Seq::<char>::empty());
    while i < d.len()
        invariant
            i <= d@.len(),
            file == last_file(d@.subrange(0, i as int)),
            rank == last_rank(d@.subrange(0, i as int)),
        decreases d.len() - i,
    {
        let c = d[i];
        assert(d@.subrange(0, i + 1 as int).drop_last() =~= d@.subrange(0, i as int));
        assert(d@.subrange(0, i + 1 as int).last() == c);
        match File::from_char(c) {
            Some(f) => {
                file = Some(f);
            },
            None => {
                match Rank::from_char(c) {
                    Some(r) => {
                        rank = Some(r);
                    },
                    None => {},
                }
            },
        }
        i = i + 1;
    }
    assert(d@.subrange(0, d@.len() as int) =~= d@);
    (file, rank)
}

fn split_promotion_exec(t: &Vec<char>, min: usize) -> (r: (Vec<char>, Option<Piece>))
    ensures
        (r.0@, r.1) == split_promotion(t@, min as nat),
{
    if t.len() >= min && t.len() >= 2 && t[t.len() - 2] == '=' {
        let coords = crate::text::prefix_of(t, t.len() - 2);
        (coords, promotion_of_letter_exec(t[t.len() - 1]))
    } else {
        let mut copy: Vec<char> = Vec::new();
        crate::text::push_all(&mut copy, t);
        assert(copy@ =~= t@);
        (copy, None)
    }
}

fn suffix_from(v: &Vec<char>, start: usize) -> (r: Vec<char>)
    requires
        start <= v@.len(),
    ensures
        r@ == v@.subrange(start as int, v@.len() as int),
{
    let mut r: Vec<char> = Vec::new();
    let mut i: usize = start;
    while i < v.len()
        invariant
            start <= i <= v@.len(),
            r@ == v@.subrange(start as int, i as int),
        decreases v.len() - i,
    {
        r.push(v[i]);
        i = i + 1;
        proof {
            assert(r@ =~= v@.subrange(start as int, i as int));
        }
    }
    r
}

fn piece_query_exec(t: &Vec<char>) -> (q: SanQuery)
    requires
        t@.len() > 0,
    ensures
        q == piece_query(t@),
{
    let rest = suffix_from(t, 1);
    let (coords, promotion) = split_promotion_exec(&rest, 3);
    if coords.len() < 2 {
        return SanQuery::Invalid;
    }
    let n = coords.len();
    let last_two = suffix_from(&coords, n - 2);
    match Square::parse_chars(last_two.as_slice()) {
        None => SanQuery::Invalid,
        Some(dest) => {
            let d = crate::text::prefix_of(&coords, n - 2);
            let (file, rank) = disambiguators(&d);
            SanQuery::Pattern { piece: piece_of_letter_exec(t[0]), dest, file, rank, promotion }
        },
    }
}

fn pawn_query_exec(t: &Vec<char>) -> (q: SanQuery)
    ensures
        q == pawn_query(t@),
{
    let (coords, promotion) = split_promotion_exec(t, 4);
    if coords.len() == 2 {
        match Square::parse_chars(coords.as_slice()) {
            None => SanQuery::Invalid,
            Some(dest) => SanQuery::Pattern { piece: Piece::Pawn, dest, file: None, rank: None, promotion },
        }
    } else if coords.len() == 3 {
        let last_two = suffix_from(&coords, 1);
        match Square::parse_chars(last_two.as_slice()) {
            None => SanQuery::Invalid,
            Some(dest) => SanQuery::Pattern {
                piece: Piece::Pawn,
                dest,
                file: File::from_char(coords[0]),
                rank: None,
                promotion,
            },
        }
    } else {
        SanQuery::Invalid
    }
}

/// What a SAN string asks for.
pub fn query_of_san(san: &Vec<char>) -> (q: SanQuery)
    ensures
        q == san_query(san@),
{
    let s = trim_end_chars(&trim_end_chars(san, '+'), '#');
    if same_chars(&s, &vec!['O', '-', 'O']) {
        return SanQuery::Castle { kingside: true };
    }
    if same_chars(&s, &vec!['O', '-', 'O', '-', 'O']) {
        return SanQuery::Castle { kingside: false };
    }
    let t = remove_char(&s, 'x');
    if t.len() == 0 {
        SanQuery::Invalid
    } else if is_piece_letter_exec(t[0]) {
        piece_query_exec(&t)
    } else if File::from_char(t[0]).is_some() {
        pawn_query_exec(&t)
    } else {
        SanQuery::Invalid
    }
}

/// Whether a move fits what the SAN asks for.
pub fn fits(board: &Board, q: &SanQuery, m: &Move) -> (r: bool)
    ensures
        r == fits_query(board@, *q, *m),
{
    match q {
        SanQuery::Castle { kingside } => {
            let king = match board.at(m.from) {
                Some((_, p)) => p == Piece::King,
                None => false,
            };
            let rook = match board.at(m.to) {
                Some((c, p)) => c == board.side_to_move() && p == Piece::Rook,
                None => false,
            };
            king && rook && (m.to.file.index() > m.from.file.index()) == *kingside
        },
        SanQuery::Pattern { piece, dest, file, rank, promotion } => {
            let kind = match board.at(m.from) {
                Some((_, p)) => p == *piece,
                None => false,
            };
            let file_ok = match file {
                Some(f) => m.from.file == *f,
                None => true,
            };
            let rank_ok = match rank {
                Some(r) => m.from.rank == *r,
                None => true,
            };
            m.to == *dest && kind && file_ok && rank_ok && m.promotion == *promotion
        },
        SanQuery::Invalid => false,
    }
}

/// Parses a SAN string (e.g. "e4", "Nf3", "O-O") and finds the legal move
/// it names: the last legal move, in generation order, that fits it. The
/// SAN that `to_algebraic` writes for a legal move reads back as that move,
/// also with its check mark or capture marks left out.
pub fn parse_san(board: &Board, san: &str) -> (r: Option<Move>)
    ensures
        r == parse_san_of(board@, san@),
        forall|m: Move|
            legal_moves_of(board@).contains(m) && #[trigger] san_of(board@, m) == san@ ==> r == Some(m),
        forall|m: Move|
            legal_moves_of(board@).contains(m) && strip_check_marks(#[trigger] san_of(board@, m)) == san@ ==> r == Some(
                m,
            ),
        forall|m: Move|
            legal_moves_of(board@).contains(m) && without(#[trigger] san_of(board@, m), 'x') == san@ ==> r == Some(m),
{
    let chars = chars_of(san);
    let q = query_of_san(&chars);
    let ms = board.legal_moves();
    let mut found: Option<Move> = None;
    let mut i: usize = 0;
    assert(ms@.subrange(0, 0) =~= Seq::<Move>::empty());
    while i < ms.len()
        invariant
            i <= ms@.len(),
            ms@ == legal_moves_of(board@),
            q == san_query(san@),
            found == last_fitting(board@, q, ms@.subrange(0, i as int)),
        decreases ms.len() - i,
    {
        let m = ms[i];
        assert(ms@.subrange(0, i + 1 as int).drop_last() =~= ms@.subrange(0, i as int));
        assert(ms@.subrange(0, i + 1 as int).last() == m);
        if fits(board, &q, &m) {
            found = Some(m);
        }
        i = i + 1;
    }
    assert(ms@.subrange(0, ms@.len() as int) =~= ms@);
    assert forall|m: Move| legal_moves_of(board@).contains(m) implies parse_san_of(board@, #[trigger] san_of(board@, m))
        == Some(m) && parse_san_of(board@, strip_check_marks(san_of(board@, m))) == Some(m) && parse_san_of(
        board@,
        without(san_of(board@, m), 'x'),
    ) == Some(m) by {
        crate::game::san_laws::lemma_every_san_reads_back(board@, m);
    }
    found
}

} // verus!
