//! Content hashing: SHA-256 digests written as lower-case hexadecimal text.

use sha2::{Digest, Sha256};
use vstd::prelude::*;

verus! {

/// The SHA-256 digest of `data`.
pub uninterp spec fn sha256_digest(data: Seq<u8>) -> Seq<u8>;

/// The lower-case hexadecimal digit of `n`, for `n` below 16.
pub open spec fn hex_digit(n: int) -> char {
    if n < 10 {
        (48 + n) as char
    } else {
        (87 + n) as char
    }
}

/// The lower-case hexadecimal text of `data`: two digits per byte, the high
/// half first.
pub open spec fn hex_lower(data: Seq<u8>) -> Seq<char> {
    Seq::new(
        2 * data.len(),
        |i: int|
            hex_digit(
                if i % 2 == 0 {
                    data[i / 2] as int / 16
                } else {
                    data[i / 2] as int % 16
                },
            ),
    )
}

/// The name of content: the hexadecimal text of its SHA-256 digest.
pub open spec fn sha256_hex_text(data: Seq<u8>) -> Seq<char> {
    hex_lower(sha256_digest(data))
}

/// `sha2::Sha256::digest`: the SHA-256 digest of `data`, which has 32 bytes.
/// That the bytes are those of SHA-256 is taken from the `sha2` crate.
#[verifier::external_body]
fn sha256(data: &[u8]) -> (digest: Vec<u8>)
    ensures
        digest@ == sha256_digest(data@),
        digest@.len() == 32,
{
    Sha256::digest(data).to_vec()
}

/// `hex::encode`: each byte as two lower-case hexadecimal digits, in order.
#[verifier::external_body]
fn hex_encode(data: &Vec<u8>) -> (text: String)
    ensures
        text@ == hex_lower(data@),
{
    hex::encode(data)
}

/// The hexadecimal text of the SHA-256 digest of `data`: 64 characters.
pub fn sha256_hex(data: &[u8]) -> (text: String)
    ensures
        text@ == sha256_hex_text(data@),
        text@.len() == 64,
{
    let digest: Vec<u8> = sha256(data);
    hex_encode(&digest)
}

} // verus!
