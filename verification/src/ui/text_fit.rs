//! Fitting text into the width of a panel.
//!
//! The panel measures a line by its length in UTF-8 bytes and cuts it at a
//! byte offset, which must fall between two characters.
use vstd::prelude::*;
use crate::text::{chars_of, push_all, string_of};

verus! {

/// A display width counting every character as one column.
pub fn unicode_display_width(s: &str) -> (n: usize)
    ensures
        n == s@.len(),
{
    chars_of(s).len()
}

/// The number of bytes UTF-8 takes for one character.
pub open spec fn utf8_width(c: char) -> nat {
    if (c as u32) < 0x80 {
        1
    } else if (c as u32) < 0x800 {
        2
    } else if (c as u32) < 0x10000 {
        3
    } else {
        4
    }
}

/// The length of a text in UTF-8 bytes.
pub open spec fn utf8_len(s: Seq<char>) -> nat
    decreases s.len(),
{
    if s.len() == 0 {
        0
    } else {
        utf8_len(s.drop_last()) + utf8_width(s.last())
    }
}

/// The byte offset at which a long line is cut: two bytes short of the
/// panel, or nothing for a panel under two bytes.
pub open spec fn cut_offset(max: nat) -> nat {
    if max >= 2 {
        (max - 2) as nat
    } else {
        0
    }
}

/// Whether some prefix of `s` takes exactly `k` bytes, that is whether
/// byte `k` lies between two characters.
pub open spec fn is_char_boundary(s: Seq<char>, k: nat) -> bool {
    exists|n: nat| n <= s.len() && #[trigger] utf8_len(s.take(n as int)) == k
}

/// How many characters make up the first `k` bytes of `s`.
pub open spec fn chars_in_bytes(s: Seq<char>, k: nat) -> nat {
    choose|n: nat| n <= s.len() && #[trigger] utf8_len(s.take(n as int)) == k
}

/// Whether the panel can show `s`: it fits in `max` bytes, or the cut falls
/// between two characters.
pub open spec fn fits_or_cuts_cleanly(s: Seq<char>, max: nat) -> bool {
    utf8_len(s) <= max || is_char_boundary(s, cut_offset(max))
}

/// A debug panel line: a leading space and the text, or when the text is
/// longer than `max` bytes, its first `max - 2` bytes and an ellipsis.
pub open spec fn truncated(s: Seq<char>, max: nat) -> Seq<char> {
    if utf8_len(s) <= max {
        seq![' '] + s
    } else {
        seq![' '] + s.take(chars_in_bytes(s, cut_offset(max)) as int) + seq!['\u{2026}']
    }
}

proof fn lemma_utf8_len_step(s: Seq<char>, i: int)
    requires
        0 <= i < s.len(),
    ensures
        utf8_len(s.take(i + 1)) == utf8_len(s.take(i)) + utf8_width(s[i]),
{
    assert(s.take(i + 1).drop_last() =~= s.take(i));
}

/// Each character takes at least one byte, so a longer prefix takes more bytes.
proof fn lemma_utf8_len_grows(s: Seq<char>, a: int, b: int)
    requires
        0 <= a <= b <= s.len(),
    ensures
        utf8_len(s.take(a)) + (b - a) <= utf8_len(s.take(b)),
    decreases b - a,
{
    if a < b {
        lemma_utf8_len_grows(s, a, b - 1);
        lemma_utf8_len_step(s, b - 1);
    }
}

proof fn lemma_chars_in_bytes(s: Seq<char>, k: nat, n: nat)
    requires
        n <= s.len(),
        utf8_len(s.take(n as int)) == k,
    ensures
        chars_in_bytes(s, k) == n,
{
    let m = chars_in_bytes(s, k);
    assert(m <= s.len() && utf8_len(s.take(m as int)) == k);
    if m < n {
        lemma_utf8_len_grows(s, m as int, n as int);
    } else if n < m {
        lemma_utf8_len_grows(s, n as int, m as int);
    }
}

fn utf8_width_exec(c: char) -> (w: usize)
    ensures
        w == utf8_width(c),
{
    let code = c as u32;
    if code < 0x80 {
        1
    } else if code < 0x800 {
        2
    } else if code < 0x10000 {
        3
    } else {
        4
    }
}

/// Whether `v` takes at most `limit` bytes.
fn bytes_within(v: &Vec<char>, limit: usize) -> (r: bool)
    ensures
        r == (utf8_len(v@) <= limit),
{
    let mut i: usize = 0;
    let mut used: usize = 0;
    while i < v.len()
        invariant
            i <= v@.len(),
            used == utf8_len(v@.take(i as int)),
            used <= limit,
        decreases v.len() - i,
    {
        let w = utf8_width_exec(v[i]);
        proof {
            lemma_utf8_len_step(v@, i as int);
        }
        if w > limit - used {
            proof {
                lemma_utf8_len_grows(v@, i + 1, v@.len() as int);
                assert(v@.take(v@.len() as int) =~= v@);
            }
            return false;
        }
        used = used + w;
        i = i + 1;
    }
    assert(v@.take(v@.len() as int) =~= v@);
    true
}

/// The number of characters in the first `k` bytes of `v`, or `None`
/// when byte `k` falls inside a character or past the end.
fn chars_in_bytes_exec(v: &Vec<char>, k: usize) -> (r: Option<usize>)
    ensures
        r is Some <==> is_char_boundary(v@, k as nat),
        r matches Some(n) ==> n <= v@.len() && n == chars_in_bytes(v@, k as nat),
{
    let mut i: usize = 0;
    let mut used: usize = 0;
    while i < v.len() && used < k
        invariant
            i <= v@.len(),
            used == utf8_len(v@.take(i as int)),
            used <= k,
        decreases v.len() - i,
    {
        let w = utf8_width_exec(v[i]);
        proof {
            lemma_utf8_len_step(v@, i as int);
        }
        if w > k - used {
            proof {
                assert forall|n: nat| n <= v@.len() implies #[trigger] utf8_len(v@.take(n as int)) != k by {
                    if n <= i {
                        lemma_utf8_len_grows(v@, n as int, i as int);
                    } else {
                        lemma_utf8_len_grows(v@, i + 1, n as int);
                    }
                }
            }
            return None;
        }
        used = used + w;
        i = i + 1;
    }
    if used == k {
        proof {
            lemma_chars_in_bytes(v@, k as nat, i as nat);
        }
        Some(i)
    } else {
        proof {
            assert(i == v@.len());
            assert forall|n: nat| n <= v@.len() implies #[trigger] utf8_len(v@.take(n as int)) != k by {
                lemma_utf8_len_grows(v@, n as int, i as int);
            }
        }
        None
    }
}

/// Whether the debug panel can show `s` in `max` bytes: it fits, or the
/// cut two bytes short of `max` falls between two characters.
pub fn truncate_cuts_cleanly(s: &str, max: usize) -> (r: bool)
    ensures
        r == fits_or_cuts_cleanly(s@, max as nat),
{
    let v = chars_of(s);
    if bytes_within(&v, max) {
        true
    } else {
        let cut = if max >= 2 { max - 2 } else { 0 };
        chars_in_bytes_exec(&v, cut).is_some()
    }
}

/// Fits a line into a panel of `max` bytes.
pub fn truncate(s: &str, max: usize) -> (r: String)
    requires
        fits_or_cuts_cleanly(s@, max as nat),
    ensures
        r@ == truncated(s@, max as nat),
{
    let v = chars_of(s);
    let mut out: Vec<char> = vec![' '];
    if bytes_within(&v, max) {
        push_all(&mut out, &v);
    } else {
        let cut = if max >= 2 { max - 2 } else { 0 };
        match chars_in_bytes_exec(&v, cut) {
            Some(n) => {
                push_all(&mut out, &crate::text::prefix_of(&v, n));
            },
            None => {},
        }
        out.push('\u{2026}');
    }
    assert(out@ =~= truncated(s@, max as nat));
    string_of(&out)
}

} // verus!
