//! Password hashing policy: PBKDF2 with HMAC-SHA-256, a fixed iteration
//! count, and a 32-byte output that is stored hex-encoded.

use vstd::prelude::*;

verus! {

/// Iteration count of the key-derivation function, fixed by policy.
pub const PBKDF2_ROUNDS: u32 = 4096;

/// The digest that PBKDF2 with HMAC-SHA-256 derives from a password and a
/// salt at the given iteration count. The derivation is deterministic: it
/// depends on these three arguments alone.
pub uninterp spec fn pbkdf2_sha256_of(password: Seq<char>, salt: Seq<char>, rounds: u32) -> Seq<u8>;

/// Lowercase hexadecimal digit for a value below 16.
pub open spec fn hex_digit(n: int) -> char {
    if n == 0 {
        '0'
    } else if n == 1 {
        '1'
    } else if n == 2 {
        '2'
    } else if n == 3 {
        '3'
    } else if n == 4 {
        '4'
    } else if n == 5 {
        '5'
    } else if n == 6 {
        '6'
    } else if n == 7 {
        '7'
    } else if n == 8 {
        '8'
    } else if n == 9 {
        '9'
    } else if n == 10 {
        'a'
    } else if n == 11 {
        'b'
    } else if n == 12 {
        'c'
    } else if n == 13 {
        'd'
    } else if n == 14 {
        'e'
    } else {
        'f'
    }
}

/// Lowercase hexadecimal encoding of a byte sequence: two digits per byte,
/// most significant digit first.
pub open spec fn hex_of(bytes: Seq<u8>) -> Seq<char>
    decreases bytes.len(),
{
    if bytes.len() == 0 {
        Seq::empty()
    } else {
        seq![hex_digit((bytes[0] >> 4) as int), hex_digit((bytes[0] & 0x0f) as int)]
            + hex_of(bytes.drop_first())
    }
}

/// The stored form of a password digest: the hex encoding of the PBKDF2
/// derivation at the policy iteration count.
pub open spec fn spec_hash(password: Seq<char>, salt: Seq<char>) -> Seq<char> {
    hex_of(pbkdf2_sha256_of(password, salt, PBKDF2_ROUNDS))
}

/// Relies on pbkdf2::pbkdf2_hmac_array with sha2::Sha256: derives a 32-byte
/// key from the password and salt bytes; the result is a function of the
/// three arguments alone.
#[verifier::external_body]
fn pbkdf2_sha256(password: &str, salt: &str, rounds: u32) -> (r: Vec<u8>)
    ensures
        r@ == pbkdf2_sha256_of(password@, salt@, rounds),
        r@.len() == 32,
{
    pbkdf2::pbkdf2_hmac_array::<sha2::Sha256, 32>(password.as_bytes(), salt.as_bytes(), rounds)
        .to_vec()
}

/// Relies on hex::encode: lowercase hexadecimal, two digits per byte, most
/// significant digit first.
#[verifier::external_body]
fn hex_encode(bytes: &[u8]) -> (r: String)
    ensures
        r@ == hex_of(bytes@),
{
    hex::encode(bytes)
}

/// The hex encoding writes two digits per byte.
pub proof fn lemma_hex_of_len(bytes: Seq<u8>)
    ensures
        hex_of(bytes).len() == 2 * bytes.len(),
    decreases bytes.len(),
{
    if bytes.len() > 0 {
        lemma_hex_of_len(bytes.drop_first());
    }
}

/// Derives the stored digest for a password and salt: PBKDF2 with
/// HMAC-SHA-256 at the policy iteration count, hex-encoded. The result has
/// the fixed length of 64 digits: two per byte of the 32-byte key.
pub fn create_hash(password: &str, salt: &str) -> (r: String)
    ensures
        r@ == spec_hash(password@, salt@),
        r@.len() == 64,
{
    let digest = pbkdf2_sha256(password, salt, PBKDF2_ROUNDS);
    proof {
        lemma_hex_of_len(digest@);
    }
    hex_encode(digest.as_slice())
}

} // verus!
