//! The content fingerprint shared by every component: the first 16 lowercase
//! hex characters of a SHA-256 digest, a pure function of the input bytes.

use vstd::prelude::*;

verus! {

/// The SHA-256 digest of a byte sequence. The digest is left unspecified
/// here; it depends on the input bytes alone.
pub uninterp spec fn sha256_of(bytes: Seq<u8>) -> Seq<u8>;

/// The lowercase hex digit for a nibble value.
pub open spec fn hex_digit(n: u8) -> char
    recommends
        n < 16,
{
    if n < 10 {
        (48 + n) as char
    } else {
        (87 + n) as char
    }
}

/// Lowercase hex encoding: two digits per byte, high nibble first.
pub open spec fn hex_of(bytes: Seq<u8>) -> Seq<char> {
    Seq::new(
        bytes.len() * 2,
        |i: int| if i % 2 == 0 {
            hex_digit(bytes[i / 2] / 16)
        } else {
            hex_digit(bytes[i / 2] % 16)
        },
    )
}

/// The content fingerprint of a byte sequence: the first 16 hex characters
/// of its SHA-256 digest.
pub open spec fn fingerprint_of(bytes: Seq<u8>) -> Seq<char> {
    hex_of(sha256_of(bytes)).take(16)
}

/// Relies on sha2::Sha256 through the digest::Digest trait: a 32-byte digest
/// that depends on the input bytes alone.
#[verifier::external_body]
fn sha256(bytes: &[u8]) -> (r: Vec<u8>)
    ensures
        r@ == sha256_of(bytes@),
        r@.len() == 32,
{
    let mut h: sha2::Sha256 = digest::Digest::new();
    digest::Digest::update(&mut h, bytes);
    digest::Digest::finalize(h).to_vec()
}

/// Relies on hex::encode: lowercase digits, two per byte, high nibble first.
#[verifier::external_body]
fn hex_encode(bytes: &Vec<u8>) -> (r: String)
    ensures
        r@ == hex_of(bytes@),
{
    hex::encode(bytes)
}

/// The 16-character content fingerprint of `bytes`.
pub fn hash(bytes: &[u8]) -> (r: String)
    ensures
        r@ == fingerprint_of(bytes@),
        r@.len() == 16,
{
    let digest = sha256(bytes);
    let full = hex_encode(&digest);
    assert(full@.len() == 64);
    let r = full.as_str().substring_char(0, 16).to_owned();
    assert(r@ =~= fingerprint_of(bytes@));
    r
}

/// Law: the fingerprint is a pure function of the input bytes — equal byte
/// sequences always fingerprint to the same value, in any call and any
/// process.
pub proof fn lemma_fingerprint_deterministic(b1: Seq<u8>, b2: Seq<u8>)
    requires
        b1 == b2,
    ensures
        fingerprint_of(b1) == fingerprint_of(b2),
{
}

} // verus!
