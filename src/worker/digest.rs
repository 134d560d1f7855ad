//! Integrity digests of captured blobs: SHA-256, written as lowercase hex.

use sha2::Digest;
use vstd::prelude::*;

verus! {

/// The lowercase hexadecimal digit for `d` (taken below 16).
pub open spec fn hex_digit(d: u8) -> char {
    if d < 10 {
        ((d + 48) as u8) as char
    } else {
        ((d + 87) as u8) as char
    }
}

/// Two lowercase hex digits for each byte, most significant nibble first.
pub open spec fn hex_text(b: Seq<u8>) -> Seq<char>
    decreases b.len(),
{
    if b.len() == 0 {
        Seq::empty()
    } else {
        seq![hex_digit(b[0] / 16), hex_digit(b[0] % 16)] + hex_text(b.drop_first())
    }
}

/// The SHA-256 digest of a byte sequence.
pub uninterp spec fn sha256_of(b: Seq<u8>) -> Seq<u8>;

/// The text by which a blob's integrity is confirmed: its SHA-256 digest in
/// lowercase hex.
pub open spec fn blob_digest_text(b: Seq<u8>) -> Seq<char> {
    hex_text(sha256_of(b))
}

/// Relies on sha2's `Sha256` (`Digest::new`, `update`, `finalize`): the
/// 32-byte digest of the input, a function of the bytes alone.
#[verifier::external_body]
fn sha256(bytes: &[u8]) -> (r: Vec<u8>)
    ensures
        r@ == sha256_of(bytes@),
        r@.len() == 32,
{
    let mut hasher = sha2::Sha256::new();
    hasher.update(bytes);
    hasher.finalize().to_vec()
}

/// Relies on `hex::encode`: two lowercase hex digits per byte, in order.
#[verifier::external_body]
fn hex_encode(bytes: &[u8]) -> (r: String)
    ensures
        r@ == hex_text(bytes@),
{
    hex::encode(bytes)
}

/// The integrity hash of a blob, as stored for its capture and compared by
/// `confirm`.
pub fn blob_hash(bytes: &[u8]) -> (r: String)
    ensures
        r@ == blob_digest_text(bytes@),
{
    let digest = sha256(bytes);
    hex_encode(digest.as_slice())
}

} // verus!
