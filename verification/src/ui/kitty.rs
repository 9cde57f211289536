//! The Kitty terminal's graphics protocol: the escape sequence that sends
//! a PNG image, the row and column marks of its placeholder cells, and a
//! quick fingerprint of an image's bytes.
use vstd::prelude::*;
use crate::text::{decimal, push_all, chars_of, push_decimal, string_of};

verus! {

/// The combining marks that number rows and columns of placeholder cells,
/// in the protocol's order.
pub open spec fn diacritic_table() -> Seq<char> {
    seq![
        '\u{305}', '\u{30D}', '\u{30E}', '\u{310}', '\u{312}', '\u{33D}', '\u{33E}', '\u{33F}',
        '\u{346}', '\u{34A}', '\u{34B}', '\u{34C}', '\u{350}', '\u{351}', '\u{352}', '\u{357}',
        '\u{35B}', '\u{363}', '\u{364}', '\u{365}', '\u{366}', '\u{367}', '\u{368}', '\u{369}',
        '\u{36A}', '\u{36B}', '\u{36C}', '\u{36D}', '\u{36E}', '\u{36F}', '\u{483}', '\u{484}',
        '\u{485}', '\u{486}', '\u{487}', '\u{592}', '\u{593}', '\u{594}', '\u{595}', '\u{597}',
        '\u{598}', '\u{599}', '\u{59C}', '\u{59D}', '\u{59E}', '\u{59F}', '\u{5A0}', '\u{5A1}',
        '\u{5A8}', '\u{5A9}', '\u{5AB}', '\u{5AC}', '\u{5AF}', '\u{5C4}', '\u{610}', '\u{611}',
        '\u{612}', '\u{613}', '\u{614}', '\u{615}', '\u{616}', '\u{617}', '\u{657}', '\u{658}',
        '\u{659}', '\u{65A}', '\u{65B}', '\u{65D}', '\u{65E}', '\u{6D6}', '\u{6D7}', '\u{6D8}',
        '\u{6D9}', '\u{6DA}', '\u{6DB}', '\u{6DC}', '\u{6DF}', '\u{6E0}', '\u{6E1}', '\u{6E2}',
        '\u{6E4}', '\u{6E7}', '\u{6E8}', '\u{6EB}', '\u{6EC}', '\u{730}', '\u{732}', '\u{733}',
        '\u{735}', '\u{736}', '\u{73A}', '\u{73D}', '\u{73F}', '\u{740}', '\u{741}', '\u{743}',
        '\u{745}', '\u{747}', '\u{749}', '\u{74A}', '\u{7EB}', '\u{7EC}', '\u{7ED}', '\u{7EE}',
        '\u{7EF}', '\u{7F0}', '\u{7F1}', '\u{7F3}', '\u{816}', '\u{817}', '\u{818}', '\u{819}',
        '\u{81B}', '\u{81C}', '\u{81D}', '\u{81E}', '\u{81F}', '\u{820}', '\u{821}', '\u{822}',
        '\u{823}', '\u{825}', '\u{826}', '\u{827}', '\u{829}', '\u{82A}', '\u{82B}', '\u{82C}',
        '\u{82D}', '\u{951}', '\u{953}', '\u{954}', '\u{F82}', '\u{F83}', '\u{F86}', '\u{F87}',
        '\u{135D}', '\u{135E}', '\u{135F}', '\u{17DD}', '\u{193A}', '\u{1A17}', '\u{1A75}', '\u{1A76}',
        '\u{1A77}', '\u{1A78}', '\u{1A79}', '\u{1A7A}', '\u{1A7B}', '\u{1A7C}', '\u{1B6B}', '\u{1B6D}',
        '\u{1B6E}', '\u{1B6F}', '\u{1B70}', '\u{1B71}', '\u{1B72}', '\u{1B73}', '\u{1CD0}', '\u{1CD1}',
        '\u{1CD2}', '\u{1CDA}', '\u{1CDB}', '\u{1CE0}', '\u{1DC0}', '\u{1DC1}', '\u{1DC3}', '\u{1DC4}',
        '\u{1DC5}', '\u{1DC6}', '\u{1DC7}', '\u{1DC8}', '\u{1DC9}', '\u{1DCB}', '\u{1DCC}', '\u{1DD1}',
        '\u{1DD2}', '\u{1DD3}', '\u{1DD4}', '\u{1DD5}', '\u{1DD6}', '\u{1DD7}', '\u{1DD8}', '\u{1DD9}',
        '\u{1DDA}', '\u{1DDB}', '\u{1DDC}', '\u{1DDD}', '\u{1DDE}', '\u{1DDF}', '\u{1DE0}', '\u{1DE1}',
        '\u{1DE2}', '\u{1DE3}', '\u{1DE4}', '\u{1DE5}', '\u{1DE6}', '\u{1DFE}', '\u{20D0}', '\u{20D1}',
        '\u{20D4}', '\u{20D5}', '\u{20D6}', '\u{20D7}', '\u{20DB}', '\u{20DC}', '\u{20E1}', '\u{20E7}',
        '\u{20E9}', '\u{20F0}', '\u{2CEF}', '\u{2CF0}', '\u{2CF1}', '\u{2DE0}', '\u{2DE1}', '\u{2DE2}',
        '\u{2DE3}', '\u{2DE4}', '\u{2DE5}', '\u{2DE6}', '\u{2DE7}', '\u{2DE8}', '\u{2DE9}', '\u{2DEA}',
        '\u{2DEB}', '\u{2DEC}', '\u{2DED}', '\u{2DEE}', '\u{2DEF}', '\u{2DF0}', '\u{2DF1}', '\u{2DF2}',
        '\u{2DF3}', '\u{2DF4}', '\u{2DF5}', '\u{2DF6}', '\u{2DF7}', '\u{2DF8}', '\u{2DF9}', '\u{2DFA}',
        '\u{2DFB}', '\u{2DFC}', '\u{2DFD}', '\u{2DFE}', '\u{2DFF}', '\u{A66F}', '\u{A67C}', '\u{A67D}',
        '\u{A6F0}', '\u{A6F1}', '\u{A8E0}', '\u{A8E1}', '\u{A8E2}', '\u{A8E3}', '\u{A8E4}', '\u{A8E5}',
        '\u{A8E6}', '\u{A8E7}', '\u{A8E8}', '\u{A8E9}', '\u{A8EA}', '\u{A8EB}', '\u{A8EC}', '\u{A8ED}',
        '\u{A8EE}', '\u{A8EF}', '\u{A8F0}', '\u{A8F1}', '\u{AAB0}', '\u{AAB2}', '\u{AAB3}', '\u{AAB7}',
        '\u{AAB8}', '\u{AABE}', '\u{AABF}', '\u{AAC1}', '\u{FE20}', '\u{FE21}', '\u{FE22}', '\u{FE23}',
        '\u{FE24}', '\u{FE25}', '\u{FE26}', '\u{10A0F}', '\u{10A38}', '\u{1D185}', '\u{1D186}', '\u{1D187}',
        '\u{1D188}', '\u{1D189}', '\u{1D1AA}', '\u{1D1AB}', '\u{1D1AC}', '\u{1D1AD}', '\u{1D242}', '\u{1D243}',
        '\u{1D244}',
    ]
}

fn diacritic_chars() -> (t: [char; 297])
    ensures
        t@ == diacritic_table(),
{
    [
        '\u{305}', '\u{30D}', '\u{30E}', '\u{310}', '\u{312}', '\u{33D}', '\u{33E}', '\u{33F}',
        '\u{346}', '\u{34A}', '\u{34B}', '\u{34C}', '\u{350}', '\u{351}', '\u{352}', '\u{357}',
        '\u{35B}', '\u{363}', '\u{364}', '\u{365}', '\u{366}', '\u{367}', '\u{368}', '\u{369}',
        '\u{36A}', '\u{36B}', '\u{36C}', '\u{36D}', '\u{36E}', '\u{36F}', '\u{483}', '\u{484}',
        '\u{485}', '\u{486}', '\u{487}', '\u{592}', '\u{593}', '\u{594}', '\u{595}', '\u{597}',
        '\u{598}', '\u{599}', '\u{59C}', '\u{59D}', '\u{59E}', '\u{59F}', '\u{5A0}', '\u{5A1}',
        '\u{5A8}', '\u{5A9}', '\u{5AB}', '\u{5AC}', '\u{5AF}', '\u{5C4}', '\u{610}', '\u{611}',
        '\u{612}', '\u{613}', '\u{614}', '\u{615}', '\u{616}', '\u{617}', '\u{657}', '\u{658}',
        '\u{659}', '\u{65A}', '\u{65B}', '\u{65D}', '\u{65E}', '\u{6D6}', '\u{6D7}', '\u{6D8}',
        '\u{6D9}', '\u{6DA}', '\u{6DB}', '\u{6DC}', '\u{6DF}', '\u{6E0}', '\u{6E1}', '\u{6E2}',
        '\u{6E4}', '\u{6E7}', '\u{6E8}', '\u{6EB}', '\u{6EC}', '\u{730}', '\u{732}', '\u{733}',
        '\u{735}', '\u{736}', '\u{73A}', '\u{73D}', '\u{73F}', '\u{740}', '\u{741}', '\u{743}',
        '\u{745}', '\u{747}', '\u{749}', '\u{74A}', '\u{7EB}', '\u{7EC}', '\u{7ED}', '\u{7EE}',
        '\u{7EF}', '\u{7F0}', '\u{7F1}', '\u{7F3}', '\u{816}', '\u{817}', '\u{818}', '\u{819}',
        '\u{81B}', '\u{81C}', '\u{81D}', '\u{81E}', '\u{81F}', '\u{820}', '\u{821}', '\u{822}',
        '\u{823}', '\u{825}', '\u{826}', '\u{827}', '\u{829}', '\u{82A}', '\u{82B}', '\u{82C}',
        '\u{82D}', '\u{951}', '\u{953}', '\u{954}', '\u{F82}', '\u{F83}', '\u{F86}', '\u{F87}',
        '\u{135D}', '\u{135E}', '\u{135F}', '\u{17DD}', '\u{193A}', '\u{1A17}', '\u{1A75}', '\u{1A76}',
        '\u{1A77}', '\u{1A78}', '\u{1A79}', '\u{1A7A}', '\u{1A7B}', '\u{1A7C}', '\u{1B6B}', '\u{1B6D}',
        '\u{1B6E}', '\u{1B6F}', '\u{1B70}', '\u{1B71}', '\u{1B72}', '\u{1B73}', '\u{1CD0}', '\u{1CD1}',
        '\u{1CD2}', '\u{1CDA}', '\u{1CDB}', '\u{1CE0}', '\u{1DC0}', '\u{1DC1}', '\u{1DC3}', '\u{1DC4}',
        '\u{1DC5}', '\u{1DC6}', '\u{1DC7}', '\u{1DC8}', '\u{1DC9}', '\u{1DCB}', '\u{1DCC}', '\u{1DD1}',
        '\u{1DD2}', '\u{1DD3}', '\u{1DD4}', '\u{1DD5}', '\u{1DD6}', '\u{1DD7}', '\u{1DD8}', '\u{1DD9}',
        '\u{1DDA}', '\u{1DDB}', '\u{1DDC}', '\u{1DDD}', '\u{1DDE}', '\u{1DDF}', '\u{1DE0}', '\u{1DE1}',
        '\u{1DE2}', '\u{1DE3}', '\u{1DE4}', '\u{1DE5}', '\u{1DE6}', '\u{1DFE}', '\u{20D0}', '\u{20D1}',
        '\u{20D4}', '\u{20D5}', '\u{20D6}', '\u{20D7}', '\u{20DB}', '\u{20DC}', '\u{20E1}', '\u{20E7}',
        '\u{20E9}', '\u{20F0}', '\u{2CEF}', '\u{2CF0}', '\u{2CF1}', '\u{2DE0}', '\u{2DE1}', '\u{2DE2}',
        '\u{2DE3}', '\u{2DE4}', '\u{2DE5}', '\u{2DE6}', '\u{2DE7}', '\u{2DE8}', '\u{2DE9}', '\u{2DEA}',
        '\u{2DEB}', '\u{2DEC}', '\u{2DED}', '\u{2DEE}', '\u{2DEF}', '\u{2DF0}', '\u{2DF1}', '\u{2DF2}',
        '\u{2DF3}', '\u{2DF4}', '\u{2DF5}', '\u{2DF6}', '\u{2DF7}', '\u{2DF8}', '\u{2DF9}', '\u{2DFA}',
        '\u{2DFB}', '\u{2DFC}', '\u{2DFD}', '\u{2DFE}', '\u{2DFF}', '\u{A66F}', '\u{A67C}', '\u{A67D}',
        '\u{A6F0}', '\u{A6F1}', '\u{A8E0}', '\u{A8E1}', '\u{A8E2}', '\u{A8E3}', '\u{A8E4}', '\u{A8E5}',
        '\u{A8E6}', '\u{A8E7}', '\u{A8E8}', '\u{A8E9}', '\u{A8EA}', '\u{A8EB}', '\u{A8EC}', '\u{A8ED}',
        '\u{A8EE}', '\u{A8EF}', '\u{A8F0}', '\u{A8F1}', '\u{AAB0}', '\u{AAB2}', '\u{AAB3}', '\u{AAB7}',
        '\u{AAB8}', '\u{AABE}', '\u{AABF}', '\u{AAC1}', '\u{FE20}', '\u{FE21}', '\u{FE22}', '\u{FE23}',
        '\u{FE24}', '\u{FE25}', '\u{FE26}', '\u{10A0F}', '\u{10A38}', '\u{1D185}', '\u{1D186}', '\u{1D187}',
        '\u{1D188}', '\u{1D189}', '\u{1D1AA}', '\u{1D1AB}', '\u{1D1AC}', '\u{1D1AD}', '\u{1D242}', '\u{1D243}',
        '\u{1D244}',
    ]
}

/// The mark for a row or column number; numbers past the table get the
/// first mark.
pub fn diacritic(index: u16) -> (c: char)
    ensures
        c == (if index < 297 { diacritic_table()[index as int] } else { diacritic_table()[0] }),
{
    let table = diacritic_chars();
    if index < 297 {
        table[index as usize]
    } else {
        table[0]
    }
}

/// The FNV-1a fingerprint of every `step`-th byte from `i` on, starting
/// from `h`.
pub open spec fn fnv_sampled(raw: Seq<u8>, step: int, i: int, h: u64) -> u64
    decreases raw.len() - i,
{
    if step <= 0 || i >= raw.len() || i < 0 {
        h
    } else if i + step >= raw.len() {
        (h ^ (raw[i] as u64)).wrapping_mul(0x100000001b3)
    } else {
        fnv_sampled(raw, step, i + step, (h ^ (raw[i] as u64)).wrapping_mul(0x100000001b3))
    }
}

/// The sampling step for an image of `len` bytes: every 64th byte, or
/// fewer for large images (about 16384 samples).
pub open spec fn hash_step(len: nat) -> int {
    if len / 16384 > 64 {
        (len / 16384) as int
    } else {
        64
    }
}

/// A fingerprint of an image's bytes, to notice a change: FNV-1a over a
/// sample of the bytes.
pub fn image_hash(raw: &[u8]) -> (h: u64)
    ensures
        h == fnv_sampled(raw@, hash_step(raw@.len()), 0, 0xcbf29ce484222325),
{
    let mut hash: u64 = 0xcbf29ce484222325;
    let step: usize = if raw.len() / 16384 > 64 {
        raw.len() / 16384
    } else {
        64
    };
    let mut i: usize = 0;
    while i < raw.len()
        invariant
            step == hash_step(raw@.len()),
            step >= 64,
            fnv_sampled(raw@, step as int, 0, 0xcbf29ce484222325) == fnv_sampled(raw@, step as int, i as int, hash),
        decreases raw.len() - i,
    {
        hash = (hash ^ (raw[i] as u64)).wrapping_mul(0x100000001b3);
        if raw.len() - i <= step {
            return hash;
        }
        i = i + step;
    }
    hash
}

/// The character of a six-bit value in the standard base64 alphabet.
pub open spec fn base64_char(v: int) -> char {
    seq!['A', 'B', 'C', 'D', 'E', 'F', 'G', 'H', 'I', 'J', 'K', 'L', 'M', 'N', 'O', 'P', 'Q', 'R', 'S', 'T', 'U', 'V', 'W', 'X', 'Y', 'Z', 'a', 'b', 'c', 'd', 'e', 'f', 'g', 'h', 'i', 'j', 'k', 'l', 'm', 'n', 'o', 'p', 'q', 'r', 's', 't', 'u', 'v', 'w', 'x', 'y', 'z', '0', '1', '2', '3', '4', '5', '6', '7', '8', '9', '+', '/'][v]
}

/// The base64 text (standard alphabet, with padding) of some bytes: each
/// group of three bytes gives four characters of six bits each; a last
/// group of one or two bytes is padded with '='.
#[verifier::opaque]
pub open spec fn base64_standard(bytes: Seq<u8>) -> Seq<char>
    decreases bytes.len(),
{
    if bytes.len() == 0 {
        Seq::empty()
    } else if bytes.len() == 1 {
        let a = bytes[0] as int;
        seq![base64_char(a / 4), base64_char((a % 4) * 16), '=', '=']
    } else if bytes.len() == 2 {
        let a = bytes[0] as int;
        let b = bytes[1] as int;
        seq![base64_char(a / 4), base64_char((a % 4) * 16 + b / 16), base64_char((b % 16) * 4), '=']
    } else {
        let a = bytes[0] as int;
        let b = bytes[1] as int;
        let c = bytes[2] as int;
        seq![base64_char(a / 4), base64_char((a % 4) * 16 + b / 16), base64_char((b % 16) * 4 + c / 64), base64_char(c % 64)]
            + base64_standard(bytes.subrange(3, bytes.len() as int))
    }
}

/// `base64::engine::general_purpose::STANDARD.encode`. Claims: the text is
/// the standard base64 of the bytes, four characters for every three bytes
/// or part of three.
#[verifier::external_body]
fn base64_encode(bytes: &[u8]) -> (s: String)
    ensures
        s@ == base64_standard(bytes@),
        s@.len() == 4 * ((bytes@.len() + 2) / 3),
{
    base64::Engine::encode(&base64::engine::general_purpose::STANDARD, bytes)
}

/// How many sequences carry `len` bytes.
pub open spec fn chunk_count(len: int) -> int {
    (len + 3071) / 3072
}

/// The bytes of the `i`-th sequence.
pub open spec fn chunk_at(bytes: Seq<u8>, i: int) -> Seq<u8> {
    let start = i * 3072;
    let end = if (i + 1) * 3072 < bytes.len() { (i + 1) * 3072 } else { bytes.len() as int };
    bytes.subrange(start, end)
}

/// One escape sequence of an image transmission: quiet mode; on the first,
/// the image id, "transmit and display", virtual placement, PNG format and
/// direct data; whether more follow; then the base64 of its bytes.
pub open spec fn chunk_text(bytes: Seq<u8>, image_id: u32, i: int, n: int) -> Seq<char> {
    "\x1b_Gq=2,"@ + (if i == 0 {
        "i="@ + decimal(image_id as nat) + ",a=T,U=1,f=100,t=d,"@
    } else {
        Seq::empty()
    }) + "m="@ + (if i + 1 < n { "1"@ } else { "0"@ }) + ";"@ + base64_standard(chunk_at(bytes, i)) + "\x1b\\"@
}

/// The first `k` escape sequences of an image transmission.
pub open spec fn transmit_prefix(bytes: Seq<u8>, image_id: u32, k: int) -> Seq<char>
    decreases k,
{
    if k <= 0 {
        Seq::empty()
    } else {
        transmit_prefix(bytes, image_id, k - 1) + chunk_text(bytes, image_id, k - 1, chunk_count(bytes.len() as int))
    }
}

proof fn lemma_chunk_step(len: int, start: int, i: int)
    requires
        0 <= start < len,
        start == i * 3072,
    ensures
        0 <= i < chunk_count(len),
        len - start > 3072 ==> start + 3072 == (i + 1) * 3072 && (i + 1) * 3072 < len && i + 1 < chunk_count(len),
        len - start <= 3072 ==> !((i + 1) * 3072 < len) && i + 1 == chunk_count(len),
{
    assert(0 <= i < (len + 3071) / 3072) by (nonlinear_arith)
        requires
            0 <= start < len,
            start == i * 3072,
    ;
    if len - start > 3072 {
        assert(i + 1 < (len + 3071) / 3072) by (nonlinear_arith)
            requires
                start == i * 3072,
                len - start > 3072,
        ;
    } else {
        assert(i + 1 == (len + 3071) / 3072) by (nonlinear_arith)
            requires
                start == i * 3072,
                0 <= start < len,
                len - start <= 3072,
        ;
    }
}

/// The escape sequences that send a PNG image for placement by placeholder
/// cells, in pieces of 3072 bytes.
pub fn build_transmit_sequence(png_bytes: &[u8], image_id: u32) -> (s: String)
    ensures
        s@ == transmit_prefix(png_bytes@, image_id, chunk_count(png_bytes@.len() as int)),
{
    let len = png_bytes.len();
    let ghost n = chunk_count(len as int);
    let mut data: Vec<char> = Vec::new();
    let mut start: usize = 0;
    let mut i: usize = 0;
    while start < len
        invariant
            len == png_bytes@.len(),
            n == chunk_count(len as int),
            start <= len,
            i <= n,
            start < len ==> start == i * 3072,
            start >= len ==> i == n,
            data@ == transmit_prefix(png_bytes@, image_id, i as int),
        decreases len - start,
    {
        proof {
            lemma_chunk_step(len as int, start as int, i as int);
        }
        let end: usize = if len - start > 3072 {
            start + 3072
        } else {
            len
        };
        let chunk = vstd::slice::slice_subrange(png_bytes, start, end);
        let ghost before = data@;
        push_all(&mut data, &chars_of("\x1b_Gq=2,"));
        if i == 0 {
            push_all(&mut data, &chars_of("i="));
            push_decimal(&mut data, image_id as u128);
            push_all(&mut data, &chars_of(",a=T,U=1,f=100,t=d,"));
        }
        push_all(&mut data, &chars_of("m="));
        if end < len {
            push_all(&mut data, &chars_of("1"));
        } else {
            push_all(&mut data, &chars_of("0"));
        }
        push_all(&mut data, &chars_of(";"));
        let encoded = base64_encode(chunk);
        push_all(&mut data, &chars_of(encoded.as_str()));
        push_all(&mut data, &chars_of("\x1b\\"));
        assert(chunk@ == chunk_at(png_bytes@, i as int));
        assert(data@ == before + chunk_text(png_bytes@, image_id, i as int, n));
        i = i + 1;
        start = end;
    }
    string_of(&data)
}

} // verus!
