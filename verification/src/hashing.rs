//! The hash engine: SHA-256 from the `sha2` crate, rendered as lowercase
//! hexadecimal text.

use crate::hex_codec::{encode, hex_encoding, lemma_encoding_is_lowercase_hex};
use sha2::{Digest, Sha256};
use vstd::prelude::*;

verus! {

/// Number of characters in every digest.
pub const DIGEST_HEX_LEN: usize = 64;

/// The SHA-256 hash of `data`, as the `sha2` crate computes it.
pub uninterp spec fn sha256(data: Seq<u8>) -> Seq<u8>;

/// `Sha256::new`, `update` and `finalize` of the `sha2` crate, in one go.
/// Assumed: the bytes returned are the SHA-256 hash of `data`, a function of
/// `data` alone, and there are thirty-two of them.
#[verifier::external_body]
fn sha256_bytes(data: &[u8]) -> (out: Vec<u8>)
    ensures
        out@ == sha256(data@),
        out@.len() == 32,
{
    let mut hasher = Sha256::new();
    hasher.update(data);
    hasher.finalize().to_vec()
}

/// The digest of `data`: its SHA-256 hash in lowercase hexadecimal.
pub open spec fn digest_of(data: Seq<u8>) -> Seq<char> {
    hex_encoding(sha256(data))
}

/// A string shaped like a digest: sixty-four lowercase hexadecimal digits.
pub open spec fn is_digest_text(text: Seq<char>) -> bool {
    &&& text.len() == DIGEST_HEX_LEN
    &&& forall|i: int|
        0 <= i < text.len() ==> {
            let c = #[trigger] text[i];
            ('0' <= c <= '9') || ('a' <= c <= 'f')
        }
}

/// Computes the digest of `data`.
///
/// The result is determined by `data` alone, so equal inputs always give
/// equal digests, and it always has the shape of a digest.
pub fn digest(data: &[u8]) -> (text: String)
    ensures
        text@ == digest_of(data@),
        is_digest_text(text@),
{
    let hash = sha256_bytes(data);
    proof {
        lemma_encoding_is_lowercase_hex(hash@);
    }
    encode(hash.as_slice())
}

} // verus!
