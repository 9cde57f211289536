//! Colors, pieces, files, ranks, squares and moves.
//!
//! Indices follow `cozy_chess`: file A and rank 1 are 0, and square
//! `a1` is 0, `b1` is 1, ..., `h8` is 63 (index = rank * 8 + file).
use vstd::prelude::*;

verus! {

/// A file (column) of the board, from A to H.
#[derive(Clone, Copy, PartialEq, Eq, Debug, Hash, Structural)]
pub enum File {
    A,
    B,
    C,
    D,
    E,
    F,
    G,
    H,
}

impl File {
    /// The index of the file, from 0 to 7.
    pub open spec fn spec_index(self) -> u8 {
        match self {
            File::A => 0,
            File::B => 1,
            File::C => 2,
            File::D => 3,
            File::E => 4,
            File::F => 5,
            File::G => 6,
            File::H => 7,
        }
    }

    #[verifier::when_used_as_spec(spec_index)]
    pub fn index(self) -> (r: u8)
        ensures
            r == self.spec_index(),
            r < 8,
    {
        match self {
            File::A => 0,
            File::B => 1,
            File::C => 2,
            File::D => 3,
            File::E => 4,
            File::F => 5,
            File::G => 6,
            File::H => 7,
        }
    }

    /// The file with the given index.
    pub open spec fn spec_from_index(i: u8) -> File {
        if i == 0 {
            File::A
        } else if i == 1 {
            File::B
        } else if i == 2 {
            File::C
        } else if i == 3 {
            File::D
        } else if i == 4 {
            File::E
        } else if i == 5 {
            File::F
        } else if i == 6 {
            File::G
        } else {
            File::H
        }
    }

    #[verifier::when_used_as_spec(spec_from_index)]
    pub fn from_index(i: u8) -> (r: File)
        requires
            i < 8,
        ensures
            r == File::spec_from_index(i),
            r.spec_index() == i,
    {
        if i == 0 {
            File::A
        } else if i == 1 {
            File::B
        } else if i == 2 {
            File::C
        } else if i == 3 {
            File::D
        } else if i == 4 {
            File::E
        } else if i == 5 {
            File::F
        } else if i == 6 {
            File::G
        } else {
            File::H
        }
    }

    /// The character naming the file in algebraic notation.
    pub open spec fn spec_to_char(self) -> char {
        match self {
            File::A => 'a',
            File::B => 'b',
            File::C => 'c',
            File::D => 'd',
            File::E => 'e',
            File::F => 'f',
            File::G => 'g',
            File::H => 'h',
        }
    }

    #[verifier::when_used_as_spec(spec_to_char)]
    pub fn to_char(self) -> (c: char)
        ensures
            c == self.spec_to_char(),
    {
        match self {
            File::A => 'a',
            File::B => 'b',
            File::C => 'c',
            File::D => 'd',
            File::E => 'e',
            File::F => 'f',
            File::G => 'g',
            File::H => 'h',
        }
    }

    /// The file named by a character, if any.
    pub open spec fn spec_from_char(c: char) -> Option<File> {
        if c == 'a' {
            Some(File::A)
        } else if c == 'b' {
            Some(File::B)
        } else if c == 'c' {
            Some(File::C)
        } else if c == 'd' {
            Some(File::D)
        } else if c == 'e' {
            Some(File::E)
        } else if c == 'f' {
            Some(File::F)
        } else if c == 'g' {
            Some(File::G)
        } else if c == 'h' {
            Some(File::H)
        } else {
            None
        }
    }

    #[verifier::when_used_as_spec(spec_from_char)]
    pub fn from_char(c: char) -> (r: Option<File>)
        ensures
            r == File::spec_from_char(c),
    {
        if c == 'a' {
            Some(File::A)
        } else if c == 'b' {
            Some(File::B)
        } else if c == 'c' {
            Some(File::C)
        } else if c == 'd' {
            Some(File::D)
        } else if c == 'e' {
            Some(File::E)
        } else if c == 'f' {
            Some(File::F)
        } else if c == 'g' {
            Some(File::G)
        } else if c == 'h' {
            Some(File::H)
        } else {
            None
        }
    }
}

/// A rank (row) of the board, from the first to the eighth.
#[derive(Clone, Copy, PartialEq, Eq, Debug, Hash, Structural)]
pub enum Rank {
    First,
    Second,
    Third,
    Fourth,
    Fifth,
    Sixth,
    Seventh,
    Eighth,
}

impl Rank {
    /// The index of the rank, from 0 to 7.
    pub open spec fn spec_index(self) -> u8 {
        match self {
            Rank::First => 0,
            Rank::Second => 1,
            Rank::Third => 2,
            Rank::Fourth => 3,
            Rank::Fifth => 4,
            Rank::Sixth => 5,
            Rank::Seventh => 6,
            Rank::Eighth => 7,
        }
    }

    #[verifier::when_used_as_spec(spec_index)]
    pub fn index(self) -> (r: u8)
        ensures
            r == self.spec_index(),
            r < 8,
    {
        match self {
            Rank::First => 0,
            Rank::Second => 1,
            Rank::Third => 2,
            Rank::Fourth => 3,
            Rank::Fifth => 4,
            Rank::Sixth => 5,
            Rank::Seventh => 6,
            Rank::Eighth => 7,
        }
    }

    /// The rank with the given index.
    pub open spec fn spec_from_index(i: u8) -> Rank {
        if i == 0 {
            Rank::First
        } else if i == 1 {
            Rank::Second
        } else if i == 2 {
            Rank::Third
        } else if i == 3 {
            Rank::Fourth
        } else if i == 4 {
            Rank::Fifth
        } else if i == 5 {
            Rank::Sixth
        } else if i == 6 {
            Rank::Seventh
        } else {
            Rank::Eighth
        }
    }

    #[verifier::when_used_as_spec(spec_from_index)]
    pub fn from_index(i: u8) -> (r: Rank)
        requires
            i < 8,
        ensures
            r == Rank::spec_from_index(i),
            r.spec_index() == i,
    {
        if i == 0 {
            Rank::First
        } else if i == 1 {
            Rank::Second
        } else if i == 2 {
            Rank::Third
        } else if i == 3 {
            Rank::Fourth
        } else if i == 4 {
            Rank::Fifth
        } else if i == 5 {
            Rank::Sixth
        } else if i == 6 {
            Rank::Seventh
        } else {
            Rank::Eighth
        }
    }

    /// The character naming the rank in algebraic notation.
    pub open spec fn spec_to_char(self) -> char {
        match self {
            Rank::First => '1',
            Rank::Second => '2',
            Rank::Third => '3',
            Rank::Fourth => '4',
            Rank::Fifth => '5',
            Rank::Sixth => '6',
            Rank::Seventh => '7',
            Rank::Eighth => '8',
        }
    }

    #[verifier::when_used_as_spec(spec_to_char)]
    pub fn to_char(self) -> (c: char)
        ensures
            c == self.spec_to_char(),
    {
        match self {
            Rank::First => '1',
            Rank::Second => '2',
            Rank::Third => '3',
            Rank::Fourth => '4',
            Rank::Fifth => '5',
            Rank::Sixth => '6',
            Rank::Seventh => '7',
            Rank::Eighth => '8',
        }
    }

    /// The rank named by a character, if any.
    pub open spec fn spec_from_char(c: char) -> Option<Rank> {
        if c == '1' {
            Some(Rank::First)
        } else if c == '2' {
            Some(Rank::Second)
        } else if c == '3' {
            Some(Rank::Third)
        } else if c == '4' {
            Some(Rank::Fourth)
        } else if c == '5' {
            Some(Rank::Fifth)
        } else if c == '6' {
            Some(Rank::Sixth)
        } else if c == '7' {
            Some(Rank::Seventh)
        } else if c == '8' {
            Some(Rank::Eighth)
        } else {
            None
        }
    }

    #[verifier::when_used_as_spec(spec_from_char)]
    pub fn from_char(c: char) -> (r: Option<Rank>)
        ensures
            r == Rank::spec_from_char(c),
    {
        if c == '1' {
            Some(Rank::First)
        } else if c == '2' {
            Some(Rank::Second)
        } else if c == '3' {
            Some(Rank::Third)
        } else if c == '4' {
            Some(Rank::Fourth)
        } else if c == '5' {
            Some(Rank::Fifth)
        } else if c == '6' {
            Some(Rank::Sixth)
        } else if c == '7' {
            Some(Rank::Seventh)
        } else if c == '8' {
            Some(Rank::Eighth)
        } else {
            None
        }
    }
}

/// A side in the game.
#[derive(Clone, Copy, PartialEq, Eq, Debug, Hash, Structural)]
pub enum Color {
    White,
    Black,
}

impl Color {
    pub open spec fn spec_opponent(self) -> Color {
        match self {
            Color::White => Color::Black,
            Color::Black => Color::White,
        }
    }

    /// The other side.
    #[verifier::when_used_as_spec(spec_opponent)]
    pub fn opponent(self) -> (r: Color)
        ensures
            r == self.spec_opponent(),
    {
        match self {
            Color::White => Color::Black,
            Color::Black => Color::White,
        }
    }

    /// 0 for White, 1 for Black (the order of `cozy_chess::Color`).
    pub open spec fn spec_index(self) -> u8 {
        match self {
            Color::White => 0,
            Color::Black => 1,
        }
    }

    #[verifier::when_used_as_spec(spec_index)]
    pub fn index(self) -> (r: u8)
        ensures
            r == self.spec_index(),
    {
        match self {
            Color::White => 0,
            Color::Black => 1,
        }
    }

    pub open spec fn spec_from_index(i: u8) -> Option<Color> {
        if i == 0 {
            Some(Color::White)
        } else if i == 1 {
            Some(Color::Black)
        } else {
            None
        }
    }

    #[verifier::when_used_as_spec(spec_from_index)]
    pub fn from_index(i: u8) -> (r: Option<Color>)
        ensures
            r == Color::spec_from_index(i),
    {
        if i == 0 {
            Some(Color::White)
        } else if i == 1 {
            Some(Color::Black)
        } else {
            None
        }
    }
}

/// A kind of chess piece.
#[derive(Clone, Copy, PartialEq, Eq, Debug, Hash, Structural)]
pub enum Piece {
    Pawn,
    Knight,
    Bishop,
    Rook,
    Queen,
    King,
}

impl Piece {
    /// Index in the order of `cozy_chess::Piece`: pawn 0, ..., king 5.
    pub open spec fn spec_index(self) -> u8 {
        match self {
            Piece::Pawn => 0,
            Piece::Knight => 1,
            Piece::Bishop => 2,
            Piece::Rook => 3,
            Piece::Queen => 4,
            Piece::King => 5,
        }
    }

    #[verifier::when_used_as_spec(spec_index)]
    pub fn index(self) -> (r: u8)
        ensures
            r == self.spec_index(),
            r < 6,
    {
        match self {
            Piece::Pawn => 0,
            Piece::Knight => 1,
            Piece::Bishop => 2,
            Piece::Rook => 3,
            Piece::Queen => 4,
            Piece::King => 5,
        }
    }

    pub open spec fn spec_from_index(i: u8) -> Option<Piece> {
        if i == 0 {
            Some(Piece::Pawn)
        } else if i == 1 {
            Some(Piece::Knight)
        } else if i == 2 {
            Some(Piece::Bishop)
        } else if i == 3 {
            Some(Piece::Rook)
        } else if i == 4 {
            Some(Piece::Queen)
        } else if i == 5 {
            Some(Piece::King)
        } else {
            None
        }
    }

    #[verifier::when_used_as_spec(spec_from_index)]
    pub fn from_index(i: u8) -> (r: Option<Piece>)
        ensures
            r == Piece::spec_from_index(i),
    {
        if i == 0 {
            Some(Piece::Pawn)
        } else if i == 1 {
            Some(Piece::Knight)
        } else if i == 2 {
            Some(Piece::Bishop)
        } else if i == 3 {
            Some(Piece::Rook)
        } else if i == 4 {
            Some(Piece::Queen)
        } else if i == 5 {
            Some(Piece::King)
        } else {
            None
        }
    }

    /// The upper-case letter of the piece in algebraic notation ('P' for a pawn).
    pub open spec fn spec_letter(self) -> char {
        match self {
            Piece::Pawn => 'P',
            Piece::Knight => 'N',
            Piece::Bishop => 'B',
            Piece::Rook => 'R',
            Piece::Queen => 'Q',
            Piece::King => 'K',
        }
    }

    #[verifier::when_used_as_spec(spec_letter)]
    pub fn letter(self) -> (c: char)
        ensures
            c == self.spec_letter(),
    {
        match self {
            Piece::Pawn => 'P',
            Piece::Knight => 'N',
            Piece::Bishop => 'B',
            Piece::Rook => 'R',
            Piece::Queen => 'Q',
            Piece::King => 'K',
        }
    }

    /// The lower-case letter of the piece, as in FEN for a black piece.
    pub open spec fn spec_lower_letter(self) -> char {
        match self {
            Piece::Pawn => 'p',
            Piece::Knight => 'n',
            Piece::Bishop => 'b',
            Piece::Rook => 'r',
            Piece::Queen => 'q',
            Piece::King => 'k',
        }
    }

    #[verifier::when_used_as_spec(spec_lower_letter)]
    pub fn lower_letter(self) -> (c: char)
        ensures
            c == self.spec_lower_letter(),
    {
        match self {
            Piece::Pawn => 'p',
            Piece::Knight => 'n',
            Piece::Bishop => 'b',
            Piece::Rook => 'r',
            Piece::Queen => 'q',
            Piece::King => 'k',
        }
    }
}

/// A square of the board.
#[derive(Clone, Copy, PartialEq, Eq, Debug, Hash, Structural)]
pub struct Square {
    pub file: File,
    pub rank: Rank,
}

impl Square {
    pub open spec fn spec_index(self) -> u8 {
        (self.rank.spec_index() * 8 + self.file.spec_index()) as u8
    }

    /// The square on the given file and rank.
    pub fn new(file: File, rank: Rank) -> (s: Square)
        ensures
            s.file == file,
            s.rank == rank,
    {
        Square { file, rank }
    }

    /// The index of the square: rank * 8 + file, from 0 (a1) to 63 (h8).
    #[verifier::when_used_as_spec(spec_index)]
    pub fn index(self) -> (r: u8)
        ensures
            r == self.spec_index(),
            r < 64,
            r == self.rank.spec_index() * 8 + self.file.spec_index(),
    {
        self.rank.index() * 8 + self.file.index()
    }

    pub open spec fn spec_from_index(i: u8) -> Square {
        Square { file: File::spec_from_index(i % 8), rank: Rank::spec_from_index(i / 8) }
    }

    /// The square with the given index.
    #[verifier::when_used_as_spec(spec_from_index)]
    pub fn from_index(i: u8) -> (s: Square)
        requires
            i < 64,
        ensures
            s == Square::spec_from_index(i),
            s.spec_index() == i,
    {
        Square { file: File::from_index(i % 8), rank: Rank::from_index(i / 8) }
    }

    /// The name of a square, such as "e4".
    pub open spec fn spec_name(self) -> Seq<char> {
        seq![self.file.spec_to_char(), self.rank.spec_to_char()]
    }

    /// The square named by two characters such as "e4", if they name one.
    pub open spec fn spec_parse(s: Seq<char>) -> Option<Square> {
        if s.len() == 2 && File::spec_from_char(s[0]) is Some && Rank::spec_from_char(s[1]) is Some {
            Some(Square { file: File::spec_from_char(s[0]).unwrap(), rank: Rank::spec_from_char(s[1]).unwrap() })
        } else {
            None
        }
    }

    /// Parses a square name such as "e4"; anything else gives `None`.
    pub fn parse_chars(s: &[char]) -> (r: Option<Square>)
        ensures
            r == Square::spec_parse(s@),
    {
        if s.len() != 2 {
            return None;
        }
        match (File::from_char(s[0]), Rank::from_char(s[1])) {
            (Some(file), Some(rank)) => Some(Square { file, rank }),
            _ => None,
        }
    }
}

/// A move: from a square to a square, with the piece a pawn promotes to.
///
/// As in `cozy_chess`, castling is written as the king moving onto the
/// square of its own rook.
#[derive(Clone, Copy, PartialEq, Eq, Debug, Hash, Structural)]
pub struct Move {
    pub from: Square,
    pub to: Square,
    pub promotion: Option<Piece>,
}

/// Every index in range names a square that gives the index back.
pub proof fn lemma_square_index_roundtrip(i: u8)
    requires
        i < 64,
    ensures
        Square::spec_from_index(i).spec_index() == i,
{
}

/// A file's index names the same file.
pub proof fn lemma_file_index_roundtrip(f: File)
    ensures
        f.spec_index() < 8,
        File::spec_from_index(f.spec_index()) == f,
{
}

/// A rank's index names the same rank.
pub proof fn lemma_rank_index_roundtrip(r: Rank)
    ensures
        r.spec_index() < 8,
        Rank::spec_from_index(r.spec_index()) == r,
{
}

/// A square's index names the same square.
pub proof fn lemma_square_from_own_index(s: Square)
    ensures
        Square::spec_from_index(s.spec_index()) == s,
        s.spec_index() < 64,
{
}

} // verus!
