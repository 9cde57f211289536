//! Sign-in helpers: one-time codes, session tokens, password hashes, and
//! how often a code may be asked for.
use vstd::prelude::*;
use argon2::password_hash::rand_core::OsRng;
use argon2::password_hash::SaltString;
use argon2::{Argon2, PasswordHash, PasswordHasher, PasswordVerifier};
use rand::RngCore;
use crate::random::random_below;
use crate::text::{chars_of, decimal, push_all, push_decimal, string_of};

verus! {

/// A one-time code: six decimal digits, from 100000 up to 999998, drawn at random.
pub fn generate_otp() -> (r: String)
    ensures
        exists|n: nat| 100_000 <= n < 999_999 && r@ == decimal(n),
{
    let code = 100_000 + random_below(899_999);
    let mut out: Vec<char> = Vec::new();
    push_decimal(&mut out, code);
    assert(out@ =~= decimal(code as nat));
    string_of(&out)
}

/// A lower-case hexadecimal digit.
pub open spec fn hex_char(d: int) -> char {
    seq!['0', '1', '2', '3', '4', '5', '6', '7', '8', '9', 'a', 'b', 'c', 'd', 'e', 'f'][d]
}

/// Two hexadecimal digits for each byte.
pub open spec fn hex_of(bytes: Seq<u8>) -> Seq<char>
    decreases bytes.len(),
{
    if bytes.len() == 0 {
        Seq::empty()
    } else {
        hex_of(bytes.drop_last()) + seq![hex_char(bytes.last() as int / 16), hex_char(bytes.last() as int % 16)]
    }
}

fn hex_digit(d: u8) -> (c: char)
    requires
        d < 16,
    ensures
        c == hex_char(d as int),
{
    let table = ['0', '1', '2', '3', '4', '5', '6', '7', '8', '9', 'a', 'b', 'c', 'd', 'e', 'f'];
    assert(table@ =~= seq!['0', '1', '2', '3', '4', '5', '6', '7', '8', '9', 'a', 'b', 'c', 'd', 'e', 'f']);
    table[d as usize]
}

/// rand's `RngCore::fill_bytes` with `thread_rng()`: 32 random bytes
/// (nothing is claimed of them).
#[verifier::external_body]
fn random_token_bytes() -> [u8; 32] {
    let mut bytes = [0u8; 32];
    rand::thread_rng().fill_bytes(&mut bytes);
    bytes
}

/// Writes bytes as lower-case hexadecimal, two digits per byte.
pub fn hex_string(bytes: &[u8]) -> (r: String)
    ensures
        r@ == hex_of(bytes@),
{
    let mut out: Vec<char> = Vec::new();
    let mut i: usize = 0;
    while i < bytes.len()
        invariant
            i <= bytes@.len(),
            out@ == hex_of(bytes@.take(i as int)),
        decreases bytes.len() - i,
    {
        let b = bytes[i];
        out.push(hex_digit(b / 16));
        out.push(hex_digit(b % 16));
        assert(bytes@.take(i + 1).drop_last() =~= bytes@.take(i as int));
        assert(out@ =~= hex_of(bytes@.take(i + 1)));
        i = i + 1;
    }
    assert(bytes@.take(bytes@.len() as int) =~= bytes@);
    string_of(&out)
}

/// A session token: 32 random bytes in lower-case hexadecimal.
pub fn generate_session_token() -> (r: String)
    ensures
        exists|b: Seq<u8>| b.len() == 32 && r@ == hex_of(b),
{
    let bytes = random_token_bytes();
    hex_string(&bytes)
}

/// argon2's `Argon2::default().hash_password` with a salt from `OsRng`:
/// the PHC string of the hash, or the error's text. The salt is random, so
/// the string itself is not claimed; what is claimed is that the password
/// verifies against it (`verify_password` recomputes the hash with the
/// salt and parameters the string holds and compares the outputs).
#[verifier::external_body]
fn argon2_hash(password: &str) -> (r: Result<String, String>)
    ensures
        r matches Ok(h) ==> argon2_accepts(h@, password@),
{
    let salt = SaltString::generate(&mut OsRng);
    match Argon2::default().hash_password(password.as_bytes(), &salt) {
        Ok(hash) => Ok(hash.to_string()),
        Err(e) => Err(e.to_string()),
    }
}

/// Hashes a password with Argon2 and a random salt; on failure, a message
/// that says so. A hash it returns accepts the password.
pub fn hash_password(password: &str) -> (r: Result<String, String>)
    ensures
        r matches Ok(h) ==> argon2_accepts(h@, password@),
        r matches Err(m) ==> exists|e: Seq<char>| m@ == "Failed to hash password: "@ + e,
{
    match argon2_hash(password) {
        Ok(h) => Ok(h),
        Err(e) => {
            let mut msg = chars_of("Failed to hash password: ");
            let ghost prefix = msg@;
            push_all(&mut msg, &chars_of(e.as_str()));
            proof {
                reveal_strlit("Failed to hash password: ");
                assert(msg@ == "Failed to hash password: "@ + e@);
            }
            Err(string_of(&msg))
        },
    }
}

/// Whether argon2 accepts a password for a PHC hash string (false when the
/// string does not parse).
pub uninterp spec fn argon2_accepts(hash: Seq<char>, password: Seq<char>) -> bool;

/// argon2's `PasswordHash::new` and `Argon2::default().verify_password`:
/// whether the password matches the hash, a function of the two.
#[verifier::external_body]
fn argon2_verify(hash: &str, password: &str) -> (r: bool)
    ensures
        r == argon2_accepts(hash@, password@),
{
    match PasswordHash::new(hash) {
        Ok(parsed) => Argon2::default().verify_password(password.as_bytes(), &parsed).is_ok(),
        Err(_) => false,
    }
}

/// Whether a password matches a stored hash.
pub fn verify_password(hash: &str, password: &str) -> (r: bool)
    ensures
        r == argon2_accepts(hash@, password@),
{
    argon2_verify(hash, password)
}

/// Whether a new code may be sent: none was asked for, or the last one at
/// least a minute ago.
pub open spec fn otp_request_allowed_of(millis_since_last: Option<u128>) -> bool {
    match millis_since_last {
        None => true,
        Some(ms) => ms >= 60_000,
    }
}

/// Whether a new code may be sent: none was asked for, or the last one at
/// least a minute ago.
pub fn otp_request_allowed(millis_since_last: Option<u128>) -> (r: bool)
    ensures
        r == otp_request_allowed_of(millis_since_last),
{
    match millis_since_last {
        None => true,
        Some(ms) => ms >= 60_000,
    }
}

} // verus!
