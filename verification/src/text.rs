//! Conversions between Rust strings and character vectors.
//!
//! The library works on `Vec<char>` internally, whose view is the same
//! `Seq<char>` as that of a `String` or `&str`.
use vstd::prelude::*;

verus! {

/// The characters of `s`, in order (std's `str::chars`, collected).
#[verifier::external_body]
pub(crate) fn chars_of(s: &str) -> (v: Vec<char>)
    ensures
        v@ == s@,
{
    s.chars().collect()
}

/// A `String` holding exactly the characters of `v` (std's `FromIterator<char>`).
#[verifier::external_body]
pub(crate) fn string_of(v: &Vec<char>) -> (s: String)
    ensures
        s@ == v@,
{
    v.iter().collect()
}

/// Appends all characters of `src` to `dst`.
pub fn push_all(dst: &mut Vec<char>, src: &Vec<char>)
    ensures
        final(dst)@ == old(dst)@ + src@,
{
    let mut i: usize = 0;
    while i < src.len()
        invariant
            i <= src.len(),
            dst@ == old(dst)@ + src@.subrange(0, i as int),
        decreases src.len() - i,
    {
        dst.push(src[i]);
        i = i + 1;
        proof {
            assert(src@.subrange(0, i as int) == src@.subrange(0, i - 1 as int).push(src@[i - 1]));
        }
    }
    proof {
        assert(src@.subrange(0, src@.len() as int) == src@);
    }
}

/// Whether a text has no space in it.
pub open spec fn no_space(s: Seq<char>) -> bool {
    forall|i: int| 0 <= i < s.len() ==> s[i] != ' '
}

/// The text after its first space (empty when it has none).
pub open spec fn after_first_space(s: Seq<char>) -> Seq<char>
    decreases s.len(),
{
    if s.len() == 0 {
        s
    } else if s[0] == ' ' {
        s.drop_first()
    } else {
        after_first_space(s.drop_first())
    }
}

/// The text before its first space (all of it when it has none).
pub open spec fn up_to_space(s: Seq<char>) -> Seq<char>
    decreases s.len(),
{
    if s.len() == 0 || s[0] == ' ' {
        Seq::empty()
    } else {
        seq![s[0]] + up_to_space(s.drop_first())
    }
}

/// The second of the fields that single spaces separate (`str::split(' ')`).
pub open spec fn second_field(s: Seq<char>) -> Seq<char> {
    up_to_space(after_first_space(s))
}

/// What follows the first space of a text that starts with a part without
/// spaces and then a space.
pub proof fn lemma_after_first_space(x: Seq<char>, y: Seq<char>)
    requires
        no_space(x),
    ensures
        after_first_space(x + seq![' '] + y) == y,
    decreases x.len(),
{
    if x.len() == 0 {
        assert((x + seq![' '] + y).drop_first() =~= y);
    } else {
        assert((x + seq![' '] + y).drop_first() =~= x.drop_first() + seq![' '] + y);
        lemma_after_first_space(x.drop_first(), y);
    }
}

/// `s` without the trailing run of `c` (std's `trim_end_matches` with one character).
pub open spec fn trim_end(s: Seq<char>, c: char) -> Seq<char>
    decreases s.len(),
{
    if s.len() > 0 && s.last() == c {
        trim_end(s.drop_last(), c)
    } else {
        s
    }
}

/// `s` with every `c` removed.
pub open spec fn without(s: Seq<char>, c: char) -> Seq<char> {
    s.filter(|x: char| x != c)
}

/// Whether `p` is a prefix of `s`.
pub open spec fn is_prefix(p: Seq<char>, s: Seq<char>) -> bool {
    p.len() <= s.len() && s.subrange(0, p.len() as int) == p
}

/// The first `n` characters of `v`.
pub fn prefix_of(v: &Vec<char>, n: usize) -> (r: Vec<char>)
    requires
        n <= v@.len(),
    ensures
        r@ == v@.subrange(0, n as int),
{
    let mut r: Vec<char> = Vec::new();
    let mut i: usize = 0;
    while i < n
        invariant
            i <= n,
            n <= v@.len(),
            r@ == v@.subrange(0, i as int),
        decreases n - i,
    {
        r.push(v[i]);
        i = i + 1;
        proof {
            assert(r@ =~= v@.subrange(0, i as int));
        }
    }
    r
}

proof fn lemma_trim_end_step(s: Seq<char>, n: int, c: char)
    requires
        0 < n <= s.len(),
        s[n - 1] == c,
    ensures
        trim_end(s.subrange(0, n), c) == trim_end(s.subrange(0, n - 1), c),
{
    assert(s.subrange(0, n).drop_last() =~= s.subrange(0, n - 1));
}

/// `v` without its trailing run of `c`.
pub fn trim_end_chars(v: &Vec<char>, c: char) -> (r: Vec<char>)
    ensures
        r@ == trim_end(v@, c),
{
    let mut n: usize = v.len();
    assert(v@.subrange(0, n as int) =~= v@);
    while n > 0 && v[n - 1] == c
        invariant
            n <= v@.len(),
            trim_end(v@.subrange(0, n as int), c) == trim_end(v@, c),
        decreases n,
    {
        proof {
            lemma_trim_end_step(v@, n as int, c);
        }
        n = n - 1;
    }
    let r = prefix_of(v, n);
    proof {
        if n > 0 {
            assert(v@.subrange(0, n as int).last() == v@[n - 1]);
        }
    }
    r
}

/// `v` with every `c` removed.
pub fn remove_char(v: &Vec<char>, c: char) -> (r: Vec<char>)
    ensures
        r@ == without(v@, c),
{
    let mut r: Vec<char> = Vec::new();
    let mut i: usize = 0;
    while i < v.len()
        invariant
            i <= v@.len(),
            r@ == without(v@.subrange(0, i as int), c),
        decreases v.len() - i,
    {
        proof {
            reveal_with_fuel(Seq::<_>::filter, 1);
            assert(v@.subrange(0, i + 1 as int).drop_last() =~= v@.subrange(0, i as int));
        }
        if v[i] != c {
            r.push(v[i]);
        }
        i = i + 1;
    }
    assert(v@.subrange(0, v@.len() as int) =~= v@);
    r
}

/// Whether `p` is a prefix of `s`.
pub fn starts_with(s: &Vec<char>, p: &Vec<char>) -> (b: bool)
    ensures
        b == is_prefix(p@, s@),
{
    if p.len() > s.len() {
        return false;
    }
    let mut i: usize = 0;
    while i < p.len()
        invariant
            i <= p@.len(),
            p@.len() <= s@.len(),
            forall|k: int| 0 <= k < i ==> s@[k] == p@[k],
        decreases p.len() - i,
    {
        if s[i] != p[i] {
            assert(s@.subrange(0, p@.len() as int)[i as int] != p@[i as int]);
            return false;
        }
        i = i + 1;
    }
    assert(s@.subrange(0, p@.len() as int) =~= p@);
    true
}

/// Whether two character vectors are equal.
pub fn same_chars(a: &Vec<char>, b: &Vec<char>) -> (r: bool)
    ensures
        r == (a@ == b@),
{
    if a.len() != b.len() {
        return false;
    }
    let r = starts_with(a, b);
    proof {
        assert(a@.subrange(0, b@.len() as int) =~= a@);
        if !r {
            assert(a@ != b@);
        }
    }
    r
}

pub open spec fn digit_char(n: nat) -> char {
    seq!['0', '1', '2', '3', '4', '5', '6', '7', '8', '9'][n as int]
}

/// The decimal digits of a number.
pub open spec fn decimal(n: nat) -> Seq<char>
    decreases n,
{
    if n < 10 {
        seq![digit_char(n)]
    } else {
        decimal(n / 10).push(digit_char(n % 10))
    }
}

pub fn digit(n: u8) -> (c: char)
    requires
        n < 10,
    ensures
        c == digit_char(n as nat),
{
    if n == 0 {
        '0'
    } else if n == 1 {
        '1'
    } else if n == 2 {
        '2'
    } else if n == 3 {
        '3'
    } else if n == 4 {
        '4'
    } else if n == 5 {
        '5'
    } else if n == 6 {
        '6'
    } else if n == 7 {
        '7'
    } else if n == 8 {
        '8'
    } else {
        '9'
    }
}

/// Appends the decimal digits of `n`.
pub fn push_decimal(out: &mut Vec<char>, n: u128)
    ensures
        final(out)@ == old(out)@ + decimal(n as nat),
    decreases n,
{
    if n >= 10 {
        push_decimal(out, n / 10);
        out.push(digit((n % 10) as u8));
        proof {
            assert(old(out)@ + decimal((n / 10) as nat) + seq![digit_char((n % 10) as nat)]
                == old(out)@ + decimal(n as nat));
        }
    } else {
        out.push(digit(n as u8));
    }
}

pub open spec fn spaces(n: nat) -> Seq<char> {
    Seq::new(n, |i: int| ' ')
}

/// `s` followed by spaces up to `width` characters (std's `{:<width}`).
pub open spec fn pad_right(s: Seq<char>, width: nat) -> Seq<char> {
    if s.len() < width {
        s + spaces((width - s.len()) as nat)
    } else {
        s
    }
}

/// `s` after spaces up to `width` characters (std's `{:>width}`).
pub open spec fn pad_left(s: Seq<char>, width: nat) -> Seq<char> {
    if s.len() < width {
        spaces((width - s.len()) as nat) + s
    } else {
        s
    }
}

/// Appends `n` spaces.
pub fn push_spaces(out: &mut Vec<char>, n: usize)
    ensures
        final(out)@ == old(out)@ + spaces(n as nat),
{
    let mut i: usize = 0;
    while i < n
        invariant
            i <= n,
            out@ == old(out)@ + spaces(i as nat),
        decreases n - i,
    {
        out.push(' ');
        i = i + 1;
        proof {
            assert(out@ =~= old(out)@ + spaces(i as nat));
        }
    }
}

/// Appends a text padded with spaces on the right to a width.
pub fn push_padded_right(out: &mut Vec<char>, s: &Vec<char>, width: usize)
    ensures
        final(out)@ == old(out)@ + pad_right(s@, width as nat),
{
    push_all(out, s);
    if s.len() < width {
        push_spaces(out, width - s.len());
    }
    assert(out@ =~= old(out)@ + pad_right(s@, width as nat));
}

/// Appends a text padded with spaces on the left to a width.
pub fn push_padded_left(out: &mut Vec<char>, s: &Vec<char>, width: usize)
    ensures
        final(out)@ == old(out)@ + pad_left(s@, width as nat),
{
    if s.len() < width {
        push_spaces(out, width - s.len());
    }
    push_all(out, s);
    assert(out@ =~= old(out)@ + pad_left(s@, width as nat));
}

/// The decimal digits of a number.
pub fn decimal_chars(n: u128) -> (v: Vec<char>)
    ensures
        v@ == decimal(n as nat),
{
    let mut v: Vec<char> = Vec::new();
    push_decimal(&mut v, n);
    assert(v@ =~= decimal(n as nat));
    v
}

} // verus!
