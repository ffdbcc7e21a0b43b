//! Credential codec: salt generation, salted one-way hashing, verification.

use rand::Rng;
use vstd::prelude::*;
use vstd::string::StringExecFns;

verus! {

/// A character of the salt alphabet: a lowercase ASCII letter or a digit.
pub open spec fn is_salt_char(c: char) -> bool {
    ('a' <= c && c <= 'z') || ('0' <= c && c <= '9')
}

/// The hex digest that the SHA-256 codec derives from a string; a function
/// of the input alone.
pub uninterp spec fn sha256_hex(data: Seq<char>) -> Seq<char>;

/// Relies on sha256::digest: the lowercase hex encoding of the 32-byte
/// SHA-256 hash of the input's UTF-8 bytes, so 64 characters, determined by
/// the input alone.
#[verifier::external_body]
fn sha256_digest(data: &str) -> (r: String)
    ensures
        r@ == sha256_hex(data@),
        r@.len() == 64,
{
    sha256::digest(data)
}

#[verifier::external_type_specification]
#[verifier::external_body]
pub struct ExThreadRng(rand::rngs::ThreadRng);

/// Relies on rand::thread_rng: a handle to the thread-local generator.
#[verifier::external_body]
fn fresh_rng() -> rand::rngs::ThreadRng {
    rand::thread_rng()
}

/// Relies on rand's Rng::gen_range: a sample from `0..n` lies below `n`;
/// nothing more is promised of a random value. The range is non-empty, so
/// the call cannot panic.
#[verifier::external_body]
fn rng_below(rng: &mut rand::rngs::ThreadRng, n: usize) -> (r: usize)
    requires
        n > 0,
    ensures
        r < n,
{
    rng.gen_range(0..n)
}

/// Relies on String's FromIterator (through Iterator::collect): the string
/// of exactly these characters, in order.
#[verifier::external_body]
fn chars_to_string(chars: &Vec<char>) -> (s: String)
    ensures
        s@ == chars@,
{
    chars.iter().collect()
}

/// The salt alphabet, by position: the 26 lowercase letters, then the 10
/// digits.
pub open spec fn salt_alphabet_char(i: int) -> char
    recommends
        0 <= i < 36,
{
    if i < 26 {
        ((97 + i) as u8) as char
    } else {
        ((48 + (i - 26)) as u8) as char
    }
}

fn salt_alphabet_at(i: usize) -> (c: char)
    requires
        i < 36,
    ensures
        c == salt_alphabet_char(i as int),
        is_salt_char(c),
{
    let b: u8 = if i < 26 {
        97 + (i as u8)
    } else {
        48 + ((i as u8) - 26)
    };
    b as char
}

/// A fresh string of `length` characters drawn from the fixed 36-symbol
/// alphabet. The length is the same on every call; the characters are
/// random, so nothing further is promised of them.
pub fn generate_salt(length: usize) -> (s: String)
    ensures
        s@.len() == length,
        forall|i: int| 0 <= i < s@.len() ==> is_salt_char(s@[i]),
{
    let mut rng = fresh_rng();
    let mut chars: Vec<char> = Vec::new();
    let mut i: usize = 0;
    while i < length
        invariant
            i <= length,
            chars@.len() == i,
            forall|k: int| 0 <= k < i ==> is_salt_char(chars@[k]),
        decreases length - i,
    {
        let idx = rng_below(&mut rng, 36);
        chars.push(salt_alphabet_at(idx));
        i += 1;
    }
    chars_to_string(&chars)
}

/// The digest stored for a credential: the hex SHA-256 digest of the
/// password followed by the salt. Deterministic in its two inputs.
pub fn hash_password(password: &str, salt: &str) -> (r: String)
    ensures
        r@ == sha256_hex(password@ + salt@),
        r@.len() == 64,
{
    let mut data = String::from_str(password);
    data.append(salt);
    sha256_digest(data.as_str())
}

/// Recomputes the digest from `password` and `salt` and compares it against
/// `expected`, byte for byte.
pub fn verify_password(password: &str, salt: &str, expected: &String) -> (r: bool)
    ensures
        r == (sha256_hex(password@ + salt@) == expected@),
{
    let hash = hash_password(password, salt);
    hash == *expected
}

} // verus!
