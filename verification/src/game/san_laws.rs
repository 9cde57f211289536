//! Reading back what was written: the SAN of every legal move names that
//! move again, with or without its check and capture marks.
use vstd::prelude::*;
use crate::chess::board::{
    en_passant_valid, ep_target_index, ep_victim_square, forward, goes_right, legal_moves_of, listed_move_shape,
    move_list_shape, own_piece_on, BoardModel,
};
use crate::chess::types::{File, Move, Piece, Rank, Square};
use crate::game::notation::{
    castling_san, check_suffix_of, disambiguation, fits_query, is_capture_of, is_piece_letter, is_rival, last_file,
    last_fitting, last_rank, parse_san_of, piece_of_letter, piece_query, promotion_of_letter, promotion_san, san_head,
    san_of, san_query, san_target, split_promotion, strip_check_marks, SanQuery,
};
use crate::text::{trim_end, without};

verus! {

proof fn lemma_without_plain(s: Seq<char>)
    requires
        forall|i: int| 0 <= i < s.len() ==> s[i] != 'x',
    ensures
        without(s, 'x') == s,
    decreases s.len(),
{
    reveal(Seq::filter);
    if s.len() > 0 {
        lemma_without_plain(s.drop_last());
        assert(s.drop_last().push(s.last()) =~= s);
    }
}

proof fn lemma_without_x_mark()
    ensures
        without(seq!['x'], 'x') == Seq::<char>::empty(),
{
    reveal(Seq::filter);
    assert(seq!['x'].drop_last() =~= Seq::<char>::empty());
    assert(without(Seq::<char>::empty(), 'x') =~= Seq::<char>::empty());
    assert(seq!['x'].last() == 'x');
}

proof fn lemma_without_add(a: Seq<char>, b: Seq<char>)
    ensures
        without(a + b, 'x') == without(a, 'x') + without(b, 'x'),
{
    Seq::filter_distributes_over_add(a, b, |c: char| c != 'x');
}

/// Removing trailing check marks takes off exactly the suffix a SAN ends with.
proof fn lemma_strip_suffix(core: Seq<char>, suf: Seq<char>)
    requires
        core.len() > 0,
        core.last() != '+' && core.last() != '#',
        suf == Seq::<char>::empty() || suf == seq!['+'] || suf == seq!['#'],
    ensures
        strip_check_marks(core + suf) == core,
{
    if suf == seq!['+'] {
        assert((core + suf).drop_last() =~= core);
        assert(trim_end(core + suf, '+') == trim_end(core, '+'));
    } else if suf == seq!['#'] {
        assert((core + suf).drop_last() =~= core);
        assert(trim_end(core + suf, '+') == core + suf);
        assert(trim_end(core + suf, '#') == trim_end(core, '#'));
    } else {
        assert(core + suf =~= core);
    }
}

/// The move list's last fitting move is the move, when it is on the list
/// and every fitting move is that move.
proof fn lemma_last_fitting_unique(b: BoardModel, q: SanQuery, ms: Seq<Move>, m: Move)
    requires
        ms.contains(m),
        fits_query(b, q, m),
        forall|i: int| 0 <= i < ms.len() && fits_query(b, q, #[trigger] ms[i]) ==> ms[i] == m,
    ensures
        last_fitting(b, q, ms) == Some(m),
    decreases ms.len(),
{
    if fits_query(b, q, ms.last()) {
        assert(ms.last() == ms[ms.len() - 1]);
    } else {
        let k = choose|k: int| 0 <= k < ms.len() && ms[k] == m;
        assert(k != ms.len() - 1);
        assert(ms.drop_last()[k] == m);
        assert forall|i: int| 0 <= i < ms.drop_last().len() && fits_query(b, q, #[trigger] ms.drop_last()[i]) implies ms.drop_last()[i] == m by {
            assert(ms.drop_last()[i] == ms[i]);
        }
        lemma_last_fitting_unique(b, q, ms.drop_last(), m);
    }
}

/// A non-pawn piece is named by a piece letter.
proof fn lemma_piece_letter(p: Piece)
    requires
        p != Piece::Pawn,
    ensures
        is_piece_letter(p.spec_letter()),
        piece_of_letter(p.spec_letter()) == p,
        promotion_of_letter(p.spec_letter()) == Some(p),
        p.spec_letter() != 'x' && p.spec_letter() != 'O' && p.spec_letter() != '+' && p.spec_letter() != '#',
        File::spec_from_char(p.spec_letter()) is None,
{
}

proof fn lemma_square_chars(s: Square)
    ensures
        Square::spec_parse(seq![s.file.spec_to_char(), s.rank.spec_to_char()]) == Some(s),
        File::spec_from_char(s.file.spec_to_char()) == Some(s.file),
        Rank::spec_from_char(s.rank.spec_to_char()) == Some(s.rank),
        File::spec_from_char(s.rank.spec_to_char()) is None,
        Rank::spec_from_char(s.file.spec_to_char()) is None,
        s.file.spec_to_char() != 'x' && s.file.spec_to_char() != '=',
        s.rank.spec_to_char() != 'x' && s.rank.spec_to_char() != '+' && s.rank.spec_to_char() != '#',
{
}

proof fn lemma_drop_marks(letter: char, d: Seq<char>, x: Seq<char>, dest: Seq<char>, promo: Seq<char>)
    requires
        letter != 'x',
        forall|i: int| 0 <= i < d.len() ==> d[i] != 'x',
        forall|i: int| 0 <= i < dest.len() ==> dest[i] != 'x',
        forall|i: int| 0 <= i < promo.len() ==> promo[i] != 'x',
        x == Seq::<char>::empty() || x == seq!['x'],
    ensures
        without(seq![letter] + d + x + dest + promo, 'x') == seq![letter] + d + dest + promo,
{
    lemma_without_plain(seq![letter]);
    lemma_without_plain(d);
    lemma_without_plain(dest);
    lemma_without_plain(promo);
    if x == seq!['x'] {
        lemma_without_x_mark();
    } else {
        lemma_without_plain(x);
    }
    lemma_without_add(seq![letter] + d + x + dest, promo);
    lemma_without_add(seq![letter] + d + x, dest);
    lemma_without_add(seq![letter] + d, x);
    lemma_without_add(seq![letter], d);
    assert(without(seq![letter] + d + x + dest + promo, 'x') =~= seq![letter] + d + dest + promo);
}

proof fn lemma_piece_query_of(p: Piece, d: Seq<char>, to: Square, promotion: Option<Piece>, f: Option<File>, r: Option<Rank>)
    requires
        p != Piece::Pawn,
        promotion != Some(Piece::Pawn),
        last_file(d) == f,
        last_rank(d) == r,
    ensures
        piece_query(seq![p.spec_letter()] + d + seq![to.file.spec_to_char(), to.rank.spec_to_char()] + (match promotion {
            Some(q) => seq!['=', q.spec_letter()],
            None => Seq::<char>::empty(),
        })) == (SanQuery::Pattern { piece: p, dest: to, file: f, rank: r, promotion }),
{
    lemma_piece_letter(p);
    lemma_square_chars(to);
    let dest = seq![to.file.spec_to_char(), to.rank.spec_to_char()];
    let promo = match promotion {
        Some(q) => seq!['=', q.spec_letter()],
        None => Seq::<char>::empty(),
    };
    let t = seq![p.spec_letter()] + d + dest + promo;
    let rest = t.subrange(1, t.len() as int);
    assert(rest =~= d + dest + promo);
    let coords = d + dest;
    if let Some(q) = promotion {
        lemma_piece_letter(q);
        assert(rest[rest.len() - 2] == '=');
        assert(rest.subrange(0, rest.len() - 2) =~= coords);
        assert(split_promotion(rest, 3) == (coords, Some(q)));
    } else {
        assert(rest =~= coords);
        assert(rest[rest.len() - 2] == to.file.spec_to_char());
        assert(split_promotion(rest, 3) == (coords, None::<Piece>));
    }
    assert(coords.subrange(coords.len() - 2, coords.len() as int) =~= dest);
    assert(coords.subrange(0, coords.len() - 2) =~= d);
}

proof fn lemma_suffix_forms(b: BoardModel, m: Move)
    ensures
        check_suffix_of(b, m) == Seq::<char>::empty() || check_suffix_of(b, m) == seq!['+'] || check_suffix_of(b, m)
            == seq!['#'],
{
    reveal(check_suffix_of);
}

proof fn lemma_query_of_core(core: Seq<char>, suf: Seq<char>, t: Seq<char>)
    requires
        core.len() > 0,
        core.last() != '+' && core.last() != '#',
        core[0] != 'O',
        suf == Seq::<char>::empty() || suf == seq!['+'] || suf == seq!['#'],
        without(core, 'x') == t,
        t.len() > 0,
        is_piece_letter(t[0]),
    ensures
        san_query(core + suf) == piece_query(t),
{
    lemma_strip_suffix(core, suf);
    assert(core != seq!['O', '-', 'O']) by {
        assert(seq!['O', '-', 'O'][0] == 'O');
    }
    assert(core != seq!['O', '-', 'O', '-', 'O']) by {
        assert(seq!['O', '-', 'O', '-', 'O'][0] == 'O');
    }
}

#[verifier::spinoff_prover]
#[verifier::rlimit(100)]
proof fn lemma_query_of_written(
    p: Piece,
    d: Seq<char>,
    x: Seq<char>,
    to: Square,
    promotion: Option<Piece>,
    suf: Seq<char>,
    f: Option<File>,
    r: Option<Rank>,
)
    requires
        p != Piece::Pawn,
        promotion != Some(Piece::Pawn),
        forall|i: int| 0 <= i < d.len() ==> d[i] != 'x',
        last_file(d) == f,
        last_rank(d) == r,
        x == Seq::<char>::empty() || x == seq!['x'],
        suf == Seq::<char>::empty() || suf == seq!['+'] || suf == seq!['#'],
    ensures
        san_query(seq![p.spec_letter()] + d + x + seq![to.file.spec_to_char(), to.rank.spec_to_char()] + (match promotion {
            Some(q) => seq!['=', q.spec_letter()],
            None => Seq::<char>::empty(),
        }) + suf) == (SanQuery::Pattern { piece: p, dest: to, file: f, rank: r, promotion }),
{
    let letter = p.spec_letter();
    lemma_piece_letter(p);
    lemma_square_chars(to);
    let dest = seq![to.file.spec_to_char(), to.rank.spec_to_char()];
    let promo = match promotion {
        Some(q) => seq!['=', q.spec_letter()],
        None => Seq::<char>::empty(),
    };
    let core = seq![letter] + d + x + dest + promo;
    if let Some(q) = promotion {
        lemma_piece_letter(q);
        assert(core.last() == q.spec_letter());
    } else {
        assert(core.last() == to.rank.spec_to_char());
    }
    assert(core[0] == letter);
    lemma_drop_marks(letter, d, x, dest, promo);
    let t = seq![letter] + d + dest + promo;
    assert(t[0] == letter);
    lemma_query_of_core(core, suf, t);
    lemma_piece_query_of(p, d, to, promotion, f, r);
}

/// A piece move's SAN reads as the same query with its check mark or its
/// capture mark left out.
#[verifier::spinoff_prover]
#[verifier::rlimit(100)]
proof fn lemma_marks_left_out(
    p: Piece,
    d: Seq<char>,
    x: Seq<char>,
    to: Square,
    promotion: Option<Piece>,
    suf: Seq<char>,
    f: Option<File>,
    r: Option<Rank>,
)
    requires
        p != Piece::Pawn,
        promotion != Some(Piece::Pawn),
        forall|i: int| 0 <= i < d.len() ==> d[i] != 'x',
        last_file(d) == f,
        last_rank(d) == r,
        x == Seq::<char>::empty() || x == seq!['x'],
        suf == Seq::<char>::empty() || suf == seq!['+'] || suf == seq!['#'],
    ensures
        ({
            let promo = match promotion {
                Some(q) => seq!['=', q.spec_letter()],
                None => Seq::<char>::empty(),
            };
            let s = seq![p.spec_letter()] + d + x + seq![to.file.spec_to_char(), to.rank.spec_to_char()] + promo + suf;
            &&& san_query(strip_check_marks(s)) == (SanQuery::Pattern { piece: p, dest: to, file: f, rank: r, promotion })
            &&& san_query(without(s, 'x')) == (SanQuery::Pattern { piece: p, dest: to, file: f, rank: r, promotion })
        }),
{
    let letter = p.spec_letter();
    let dest = seq![to.file.spec_to_char(), to.rank.spec_to_char()];
    let promo = match promotion {
        Some(q) => seq!['=', q.spec_letter()],
        None => Seq::<char>::empty(),
    };
    let core = seq![letter] + d + x + dest + promo;
    lemma_piece_letter(p);
    lemma_square_chars(to);
    if let Some(q) = promotion {
        lemma_piece_letter(q);
        assert(core.last() == q.spec_letter());
        assert(promo =~= seq!['=', q.spec_letter()]);
    } else {
        assert(core.last() == to.rank.spec_to_char());
    }
    assert(core.len() > 0);
    // With the check mark taken off.
    lemma_strip_suffix(core, suf);
    lemma_query_of_written(p, d, x, to, promotion, Seq::empty(), f, r);
    assert(core + Seq::<char>::empty() =~= core);
    // With the capture mark taken off.
    lemma_drop_marks(letter, d, x, dest, promo);
    lemma_without_plain(suf);
    lemma_without_add(core, suf);
    assert(seq![letter] + d + dest + promo + suf =~= seq![letter] + d + Seq::<char>::empty() + dest + promo + suf);
    lemma_query_of_written(p, d, Seq::empty(), to, promotion, suf, f, r);
}

/// The query read from the SAN of a piece move, given what its
/// disambiguation reads as.
proof fn lemma_piece_san_query(
    b: BoardModel,
    m: Move,
    p: Piece,
    d: Seq<char>,
    f: Option<File>,
    r: Option<Rank>,
)
    requires
        p != Piece::Pawn,
        m.promotion != Some(Piece::Pawn),
        forall|i: int| 0 <= i < d.len() ==> d[i] != 'x',
        last_file(d) == f,
        last_rank(d) == r,
    ensures
        san_query(seq![p.spec_letter()] + d + san_target(b, m) + check_suffix_of(b, m)) == (SanQuery::Pattern {
            piece: p,
            dest: m.to,
            file: f,
            rank: r,
            promotion: m.promotion,
        }),
        san_query(strip_check_marks(seq![p.spec_letter()] + d + san_target(b, m) + check_suffix_of(b, m)))
            == (SanQuery::Pattern { piece: p, dest: m.to, file: f, rank: r, promotion: m.promotion }),
        san_query(without(seq![p.spec_letter()] + d + san_target(b, m) + check_suffix_of(b, m), 'x'))
            == (SanQuery::Pattern { piece: p, dest: m.to, file: f, rank: r, promotion: m.promotion }),
{
    lemma_suffix_forms(b, m);
    let x: Seq<char> = if is_capture_of(b, m) { seq!['x'] } else { Seq::empty() };
    let dest = seq![m.to.file.spec_to_char(), m.to.rank.spec_to_char()];
    let promo = match m.promotion {
        Some(q) => seq!['=', q.spec_letter()],
        None => Seq::<char>::empty(),
    };
    assert(promotion_san(m) == promo);
    assert(san_target(b, m) =~= x + dest + promo);
    assert(seq![p.spec_letter()] + d + san_target(b, m) + check_suffix_of(b, m) =~= seq![p.spec_letter()] + d + x + dest + promo
        + check_suffix_of(b, m));
    lemma_query_of_written(p, d, x, m.to, m.promotion, check_suffix_of(b, m), f, r);
    lemma_marks_left_out(p, d, x, m.to, m.promotion, check_suffix_of(b, m), f, r);
}

/// The SAN of a legal piece move (not a pawn's, not castling, not
/// promoting to a pawn) reads back as that very move, also with its check
/// mark or its capture mark left out.
pub proof fn lemma_san_reads_back(b: BoardModel, m: Move)
    requires
        legal_moves_of(b).contains(m),
        b.at(m.from) matches Some((_, p)) && p != Piece::Pawn,
        castling_san(b, m) is None,
        m.promotion != Some(Piece::Pawn),
    ensures
        parse_san_of(b, san_of(b, m)) == Some(m),
        parse_san_of(b, strip_check_marks(san_of(b, m))) == Some(m),
        parse_san_of(b, without(san_of(b, m), 'x')) == Some(m),
{
    reveal(disambiguation);
    let p = b.at(m.from).unwrap().1;
    let ms = legal_moves_of(b);
    let d = disambiguation(b, m, p);
    lemma_square_chars(m.from);
    assert(san_of(b, m) == seq![p.spec_letter()] + d + san_target(b, m) + check_suffix_of(b, m));
    let (f, r) = if !(exists|i: int| 0 <= i < ms.len() && is_rival(b, m, p, #[trigger] ms[i])) {
        assert(d =~= Seq::<char>::empty());
        (None, None)
    } else if !(exists|i: int| 0 <= i < ms.len() && is_rival(b, m, p, #[trigger] ms[i]) && ms[i].from.file == m.from.file) {
        assert(d =~= seq![m.from.file.spec_to_char()]);
        assert(d.drop_last() =~= Seq::<char>::empty());
        assert(last_rank(d.drop_last()) == None::<Rank>);
        (Some(m.from.file), None)
    } else if !(exists|i: int| 0 <= i < ms.len() && is_rival(b, m, p, #[trigger] ms[i]) && ms[i].from.rank == m.from.rank) {
        assert(d =~= seq![m.from.rank.spec_to_char()]);
        assert(d.drop_last() =~= Seq::<char>::empty());
        assert(last_file(d.drop_last()) == None::<File>);
        (None, Some(m.from.rank))
    } else {
        assert(d =~= seq![m.from.file.spec_to_char(), m.from.rank.spec_to_char()]);
        assert(d.drop_last() =~= seq![m.from.file.spec_to_char()]);
        assert(d.drop_last().drop_last() =~= Seq::<char>::empty());
        assert(d.last() == m.from.rank.spec_to_char());
        assert(d.drop_last().last() == m.from.file.spec_to_char());
        assert(last_file(d.drop_last()) == Some(m.from.file));
        assert(last_file(d) == Some(m.from.file));
        (Some(m.from.file), Some(m.from.rank))
    };
    lemma_piece_san_query(b, m, p, d, f, r);
    let q = SanQuery::Pattern { piece: p, dest: m.to, file: f, rank: r, promotion: m.promotion };
    assert(fits_query(b, q, m));
    assert forall|i: int| 0 <= i < ms.len() && fits_query(b, q, #[trigger] ms[i]) implies ms[i] == m by {
        let c = ms[i];
        if c.from != m.from {
            assert(is_rival(b, m, p, c));
            if f is Some && r is Some {
                assert(c.from.file == m.from.file && c.from.rank == m.from.rank);
            }
        }
    }
    lemma_last_fitting_unique(b, q, ms, m);
}

/// What a pawn move's SAN reads as: `head` is nothing for a move straight
/// ahead and the origin file for a capture, `x` the capture mark or
/// nothing.
#[verifier::spinoff_prover]
#[verifier::rlimit(100)]
proof fn lemma_pawn_query(
    head: Seq<char>,
    x: Seq<char>,
    to: Square,
    promotion: Option<Piece>,
    suf: Seq<char>,
    file: Option<File>,
)
    requires
        (head == Seq::<char>::empty() && file is None && x == Seq::<char>::empty()) || (file matches Some(f) && head
            == seq![f.spec_to_char()]),
        x == Seq::<char>::empty() || x == seq!['x'],
        promotion != Some(Piece::Pawn),
        suf == Seq::<char>::empty() || suf == seq!['+'] || suf == seq!['#'],
    ensures
        san_query(head + x + seq![to.file.spec_to_char(), to.rank.spec_to_char()] + promotion_san(
            Move { from: to, to, promotion },
        ) + suf) == (SanQuery::Pattern { piece: Piece::Pawn, dest: to, file, rank: None, promotion }),
{
    lemma_square_chars(to);
    let dest = seq![to.file.spec_to_char(), to.rank.spec_to_char()];
    let promo = promotion_san(Move { from: to, to, promotion });
    let core = head + x + dest + promo;
    if let Some(f) = file {
        lemma_square_chars(Square { file: f, rank: to.rank });
    }
    if let Some(q) = promotion {
        lemma_piece_letter(q);
        assert(promo == seq!['=', q.spec_letter()]);
        assert(core.last() == q.spec_letter());
    } else {
        assert(promo == Seq::<char>::empty());
        assert(core.last() == to.rank.spec_to_char());
    }
    let c0 = core[0];
    assert(c0 == (if head.len() > 0 { head[0] } else { to.file.spec_to_char() }));
    assert(File::spec_from_char(c0) is Some);
    lemma_strip_suffix(core, suf);
    assert(core != seq!['O', '-', 'O']) by {
        assert(seq!['O', '-', 'O'][0] == 'O');
    }
    assert(core != seq!['O', '-', 'O', '-', 'O']) by {
        assert(seq!['O', '-', 'O', '-', 'O'][0] == 'O');
    }
    // The capture mark goes; nothing else is an 'x'.
    lemma_without_plain(head);
    lemma_without_plain(dest);
    assert forall|i: int| 0 <= i < promo.len() implies promo[i] != 'x' by {
        if let Some(q) = promotion {
            lemma_piece_letter(q);
        }
    }
    lemma_without_plain(promo);
    if x == seq!['x'] {
        lemma_without_x_mark();
    } else {
        lemma_without_plain(x);
    }
    lemma_without_add(head + x + dest, promo);
    lemma_without_add(head + x, dest);
    lemma_without_add(head, x);
    let t = head + dest + promo;
    assert(without(core, 'x') =~= t);
    assert(t[0] == c0);
    assert(!is_piece_letter(c0));
    let coords = head + dest;
    if let Some(q) = promotion {
        assert(t[t.len() - 2] == '=');
        assert(t.subrange(0, t.len() - 2) =~= coords);
        assert(promotion_of_letter(t.last()) == Some(q));
    } else {
        assert(t =~= coords);
    }
    if head.len() == 0 {
        assert(coords =~= dest);
    } else {
        assert(coords.subrange(1, 3) =~= dest);
        assert(coords[0] == head[0]);
    }
}

proof fn lemma_rank_roundtrip(r: Rank)
    ensures
        Rank::spec_from_index(r.spec_index()) == r,
{
    match r {
        Rank::First => {},
        Rank::Second => {},
        Rank::Third => {},
        Rank::Fourth => {},
        Rank::Fifth => {},
        Rank::Sixth => {},
        Rank::Seventh => {},
        Rank::Eighth => {},
    }
}

/// Two legal pawn moves onto the same square, one straight ahead, are the
/// same move: a second pawn straight behind would block a double step, and
/// the pawn to be taken en passant stands where a pawn stepping onto the
/// target would come from.
proof fn lemma_pawn_origin(b: BoardModel, m: Move, c: Move)
    requires
        listed_move_shape(b, m),
        listed_move_shape(b, c),
        en_passant_valid(b),
        b.at(m.from) matches Some((_, p)) && p == Piece::Pawn,
        b.at(c.from) matches Some((_, p)) && p == Piece::Pawn,
        c.to == m.to,
        m.from.file == m.to.file,
    ensures
        c.from == m.from,
{
    lemma_rank_roundtrip(m.from.rank);
    lemma_rank_roundtrip(c.from.rank);
    let d = forward(b.side);
    let tr = m.to.rank.spec_index() as int;
    if c.from.file != c.to.file {
        assert(b.at(m.to) is None);
        assert(b.en_passant == Some(m.to.file) && tr == ep_target_index(b.side));
        let v = ep_victim_square(b, m.to.file);
        assert(b.at(v) matches Some((col, _)) && col != b.side);
        if tr == m.from.rank.spec_index() + d {
            assert(v == m.from);
        } else {
            assert(v == Square { file: m.from.file, rank: Rank::spec_from_index((m.from.rank.spec_index() + d) as u8) });
        }
    } else {
        if c.from.rank != m.from.rank {
            if tr == m.from.rank.spec_index() + d {
                assert(c.from == Square { file: c.from.file, rank: Rank::spec_from_index((c.from.rank.spec_index() + d) as u8) }) by {
                    assert(c.from.rank.spec_index() + d == m.from.rank.spec_index());
                }
            } else {
                assert(m.from == Square { file: m.from.file, rank: Rank::spec_from_index((m.from.rank.spec_index() + d) as u8) }) by {
                    assert(m.from.rank.spec_index() + d == c.from.rank.spec_index());
                }
            }
        }
    }
}

/// A pawn move's SAN without its check mark is what comes before it.
proof fn lemma_pawn_strip(head: Seq<char>, x: Seq<char>, to: Square, promotion: Option<Piece>, suf: Seq<char>)
    requires
        promotion != Some(Piece::Pawn),
        suf == Seq::<char>::empty() || suf == seq!['+'] || suf == seq!['#'],
    ensures
        strip_check_marks(head + x + seq![to.file.spec_to_char(), to.rank.spec_to_char()] + promotion_san(
            Move { from: to, to, promotion },
        ) + suf) == head + x + seq![to.file.spec_to_char(), to.rank.spec_to_char()] + promotion_san(
            Move { from: to, to, promotion },
        ) + Seq::<char>::empty(),
{
    let dest = seq![to.file.spec_to_char(), to.rank.spec_to_char()];
    let promo = promotion_san(Move { from: to, to, promotion });
    let core = head + x + dest + promo;
    lemma_square_chars(to);
    if let Some(qp) = promotion {
        lemma_piece_letter(qp);
        assert(core.last() == qp.spec_letter());
    } else {
        assert(core.last() == to.rank.spec_to_char());
    }
    lemma_strip_suffix(core, suf);
    assert(core + Seq::<char>::empty() =~= core);
}

/// A pawn move's SAN without its capture mark.
proof fn lemma_pawn_drop_x(head: Seq<char>, x: Seq<char>, to: Square, promotion: Option<Piece>, suf: Seq<char>)
    requires
        head == Seq::<char>::empty() || (exists|f: File| head == seq![f.spec_to_char()]),
        x == Seq::<char>::empty() || x == seq!['x'],
        promotion != Some(Piece::Pawn),
        suf == Seq::<char>::empty() || suf == seq!['+'] || suf == seq!['#'],
    ensures
        without(head + x + seq![to.file.spec_to_char(), to.rank.spec_to_char()] + promotion_san(
            Move { from: to, to, promotion },
        ) + suf, 'x') == head + Seq::<char>::empty() + seq![to.file.spec_to_char(), to.rank.spec_to_char()]
            + promotion_san(Move { from: to, to, promotion }) + suf,
{
    let dest = seq![to.file.spec_to_char(), to.rank.spec_to_char()];
    let promo = promotion_san(Move { from: to, to, promotion });
    lemma_square_chars(to);
    if head.len() > 0 {
        let f = choose|f: File| head == seq![f.spec_to_char()];
        lemma_square_chars(Square { file: f, rank: to.rank });
    }
    lemma_without_plain(head);
    lemma_without_plain(dest);
    assert forall|i: int| 0 <= i < promo.len() implies promo[i] != 'x' by {
        if let Some(qp) = promotion {
            lemma_piece_letter(qp);
        }
    }
    lemma_without_plain(promo);
    lemma_without_plain(suf);
    if x == seq!['x'] {
        lemma_without_x_mark();
    } else {
        lemma_without_plain(x);
    }
    lemma_without_add(head + x + dest + promo, suf);
    lemma_without_add(head + x + dest, promo);
    lemma_without_add(head + x, dest);
    lemma_without_add(head, x);
    assert(without(head + x + dest + promo + suf, 'x') =~= head + Seq::<char>::empty() + dest + promo + suf);
}

/// The query a pawn move's SAN reads as, also without its check mark or
/// capture mark.
proof fn lemma_pawn_text(head: Seq<char>, x: Seq<char>, to: Square, promotion: Option<Piece>, suf: Seq<char>, file: Option<File>)
    requires
        (head == Seq::<char>::empty() && file is None && x == Seq::<char>::empty()) || (file matches Some(f) && head
            == seq![f.spec_to_char()] && x == seq!['x']),
        promotion != Some(Piece::Pawn),
        suf == Seq::<char>::empty() || suf == seq!['+'] || suf == seq!['#'],
    ensures
        ({
            let s = head + x + seq![to.file.spec_to_char(), to.rank.spec_to_char()] + promotion_san(
                Move { from: to, to, promotion },
            ) + suf;
            let q = SanQuery::Pattern { piece: Piece::Pawn, dest: to, file, rank: None, promotion };
            &&& san_query(s) == q
            &&& san_query(strip_check_marks(s)) == q
            &&& san_query(without(s, 'x')) == q
        }),
{
    lemma_pawn_query(head, x, to, promotion, suf, file);
    lemma_pawn_strip(head, x, to, promotion, suf);
    lemma_pawn_query(head, x, to, promotion, Seq::empty(), file);
    if let Some(f) = file {
        assert(head == seq![f.spec_to_char()]);
    }
    lemma_pawn_drop_x(head, x, to, promotion, suf);
    lemma_pawn_query(head, Seq::empty(), to, promotion, suf, file);
}

/// The query read from a pawn move's SAN, with and without its marks.
#[verifier::spinoff_prover]
#[verifier::rlimit(100)]
proof fn lemma_pawn_san_queries(b: BoardModel, m: Move)
    requires
        b.at(m.from) matches Some((_, p)) && p == Piece::Pawn,
        is_capture_of(b, m) == (m.from.file != m.to.file),
        m.promotion != Some(Piece::Pawn),
    ensures
        ({
            let q = SanQuery::Pattern {
                piece: Piece::Pawn,
                dest: m.to,
                file: if m.from.file != m.to.file { Some(m.from.file) } else { None },
                rank: None,
                promotion: m.promotion,
            };
            &&& san_query(san_of(b, m)) == q
            &&& san_query(strip_check_marks(san_of(b, m))) == q
            &&& san_query(without(san_of(b, m), 'x')) == q
        }),
{
    assert(castling_san(b, m) is None);
    let suf = check_suffix_of(b, m);
    lemma_suffix_forms(b, m);
    let dest = seq![m.to.file.spec_to_char(), m.to.rank.spec_to_char()];
    let promo = promotion_san(Move { from: m.to, to: m.to, promotion: m.promotion });
    assert(promotion_san(m) == promo);
    let capture = m.from.file != m.to.file;
    let head: Seq<char> = if capture { seq![m.from.file.spec_to_char()] } else { Seq::empty() };
    let x: Seq<char> = if capture { seq!['x'] } else { Seq::empty() };
    let file: Option<File> = if capture { Some(m.from.file) } else { None };
    assert(san_head(b, m, Piece::Pawn) == head);
    assert(san_target(b, m) =~= x + dest + promo);
    assert(san_of(b, m) =~= head + x + dest + promo + suf);
    lemma_pawn_text(head, x, m.to, m.promotion, suf, file);
}

/// The SAN of a legal pawn move reads back as that move, also without its
/// check mark or capture mark.
#[verifier::spinoff_prover]
#[verifier::rlimit(100)]
proof fn lemma_pawn_reads_back(b: BoardModel, m: Move)
    requires
        move_list_shape(b, legal_moves_of(b)),
        legal_moves_of(b).contains(m),
        b.at(m.from) matches Some((_, p)) && p == Piece::Pawn,
    ensures
        parse_san_of(b, san_of(b, m)) == Some(m),
        parse_san_of(b, strip_check_marks(san_of(b, m))) == Some(m),
        parse_san_of(b, without(san_of(b, m), 'x')) == Some(m),
{
    reveal(move_list_shape);
    let ms = legal_moves_of(b);
    let k = choose|k: int| 0 <= k < ms.len() && ms[k] == m;
    assert(listed_move_shape(b, ms[k]));
    assert(en_passant_valid(b));
    let capture = m.from.file != m.to.file;
    assert(is_capture_of(b, m) == capture);
    lemma_pawn_san_queries(b, m);
    let file: Option<File> = if capture { Some(m.from.file) } else { None };
    let q = SanQuery::Pattern { piece: Piece::Pawn, dest: m.to, file, rank: None, promotion: m.promotion };
    assert(fits_query(b, q, m));
    assert forall|i: int| 0 <= i < ms.len() && fits_query(b, q, #[trigger] ms[i]) implies ms[i] == m by {
        let c = ms[i];
        assert(listed_move_shape(b, ms[i]));
        if capture {
            lemma_rank_roundtrip(m.from.rank);
            lemma_rank_roundtrip(c.from.rank);
            assert(c.from.file == m.from.file);
            assert(c.from.rank.spec_index() == m.from.rank.spec_index());
        } else {
            lemma_pawn_origin(b, m, c);
        }
    }
    lemma_last_fitting_unique(b, q, ms, m);
}

/// The SAN of a legal castling ("O-O" or "O-O-O") reads back as that move:
/// only one legal move lands on a piece of the side to move on each side.
#[verifier::spinoff_prover]
#[verifier::rlimit(100)]
proof fn lemma_castle_reads_back(b: BoardModel, m: Move)
    requires
        move_list_shape(b, legal_moves_of(b)),
        legal_moves_of(b).contains(m),
        castling_san(b, m) is Some,
    ensures
        parse_san_of(b, san_of(b, m)) == Some(m),
        parse_san_of(b, strip_check_marks(san_of(b, m))) == Some(m),
        parse_san_of(b, without(san_of(b, m), 'x')) == Some(m),
{
    reveal(move_list_shape);
    let ms = legal_moves_of(b);
    let k = choose|k: int| 0 <= k < ms.len() && ms[k] == m;
    let s = san_of(b, m);
    let ks = goes_right(m);
    assert(s == castling_san(b, m).unwrap());
    assert(s == if ks { seq!['O', '-', 'O'] } else { seq!['O', '-', 'O', '-', 'O'] });
    assert(s.len() > 0 && s.last() == 'O');
    assert(trim_end(s, '+') == s);
    assert(trim_end(s, '#') == s);
    assert(strip_check_marks(s) == s);
    if !ks {
        assert(s != seq!['O', '-', 'O']) by {
            assert(s.len() != seq!['O', '-', 'O'].len());
        }
    }
    let q = SanQuery::Castle { kingside: ks };
    assert(san_query(s) == q);
    assert forall|i: int| 0 <= i < s.len() implies s[i] != 'x' by {}
    lemma_without_plain(s);
    assert(own_piece_on(b, m.to));
    assert(fits_query(b, q, m));
    assert forall|i: int| 0 <= i < ms.len() && fits_query(b, q, #[trigger] ms[i]) implies ms[i] == m by {
        assert(own_piece_on(b, ms[i].to));
        assert(goes_right(ms[i]) == goes_right(ms[k]));
        assert(ms[i] == ms[k]);
    }
    lemma_last_fitting_unique(b, q, ms, m);
}

/// The SAN of every legal move reads back as that move, also with its
/// check mark or its capture mark left out, in a position whose legal
/// moves have the shape of the rules (as `Board::legal_moves` states of
/// every position it lists the moves of).
pub proof fn lemma_every_san_reads_back(b: BoardModel, m: Move)
    requires
        move_list_shape(b, legal_moves_of(b)),
        legal_moves_of(b).contains(m),
    ensures
        parse_san_of(b, san_of(b, m)) == Some(m),
        parse_san_of(b, strip_check_marks(san_of(b, m))) == Some(m),
        parse_san_of(b, without(san_of(b, m), 'x')) == Some(m),
{
    reveal(move_list_shape);
    let ms = legal_moves_of(b);
    let k = choose|k: int| 0 <= k < ms.len() && ms[k] == m;
    assert(listed_move_shape(b, ms[k]));
    if castling_san(b, m) is Some {
        lemma_castle_reads_back(b, m);
    } else if b.at(m.from) matches Some((_, p)) && p == Piece::Pawn {
        lemma_pawn_reads_back(b, m);
    } else {
        lemma_san_reads_back(b, m);
    }
}

} // verus!
