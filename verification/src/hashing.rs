//! The block digest: SHA-256 over a canonical text, rendered as lowercase
//! hexadecimal. The digest bytes come from the `sha2` crate; the hexadecimal
//! rendering is verified code from `encode`.

use vstd::prelude::*;
use sha2::{Digest, Sha256};
use crate::encode::{bytes_to_hex, hex_digits, lemma_hex_digits_len};

verus! {

/// The SHA-256 digest (32 bytes) of the UTF-8 encoding of a character
/// sequence. The digest is a function of the input alone; its value is not
/// stated here.
pub uninterp spec fn sha256_of(input: Seq<char>) -> Seq<u8>;

/// Relies on `sha2::Sha256` through the `digest::Digest` trait (`new`,
/// `update`, `finalize`): the digest depends on the input bytes alone, and
/// SHA-256 yields exactly 32 bytes (`sha2` sets `OutputSize = U32`).
#[verifier::external_body]
fn sha256_digest(input: &str) -> (r: Vec<u8>)
    ensures
        r@ == sha256_of(input@),
        r@.len() == 32,
{
    let mut hasher = Sha256::new();
    hasher.update(input.as_bytes());
    hasher.finalize().as_slice().to_vec()
}

/// The fixed-length hexadecimal digest of `input`: SHA-256, then two
/// lowercase hexadecimal digits per byte.
pub open spec fn spec_sha256_hex(input: Seq<char>) -> Seq<char> {
    hex_digits(sha256_of(input))
}

/// Hash `input` with SHA-256 and render the digest as 64 lowercase
/// hexadecimal characters.
pub fn sha256_hex(input: &str) -> (s: String)
    ensures
        s@ == spec_sha256_hex(input@),
        s@.len() == 64,
{
    let digest = sha256_digest(input);
    let s = bytes_to_hex(&digest);
    proof {
        lemma_hex_digits_len(digest@);
    }
    s
}

} // verus!
