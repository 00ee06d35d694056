//! Signatures: ECDSA over P-256 from the `p256` crate, and the two
//! operations that put a signature on a block and check it.

use crate::block::{Block, BlockView};
use crate::hex_codec::{
    decode, encode, hex_decoding, hex_encoding, hex_wellformed, lemma_hex_round_trip,
};
use crate::keys::{
    is_private_scalar, is_public_point, load_public_key, p256_public_key, p256_public_point,
    SigningKey, VerifyingKey,
};
use p256::ecdsa::signature::{Signer, Verifier};
use vstd::prelude::*;
use vstd::utf8::*;

verus! {

/// The signature that the `p256` crate gives for `message` under the
/// private scalar `scalar`, in DER; `None` where it gives none.
pub uninterp spec fn ecdsa_signature(scalar: Seq<u8>, message: Seq<u8>) -> Option<Seq<u8>>;

/// Whether the `p256` crate accepts `der` as a signature in DER that is
/// valid for `message` under the public key `point`.
pub uninterp spec fn ecdsa_verifies(point: Seq<u8>, message: Seq<u8>, der: Seq<u8>) -> bool;

#[verifier::external_type_specification]
#[verifier::external_body]
pub struct ExSignatureError(::p256::ecdsa::Error);

/// `try_sign` of the `p256` signing key that `SigningKey::from_slice` reads
/// from a private scalar, then `to_der`. Assumed: the outcome depends on
/// scalar and message alone (the crate derives the nonce from them), and a
/// signature that is given verifies under the public point that belongs to
/// the scalar.
#[verifier::external_body]
fn ecdsa_sign(scalar: &[u8], message: &[u8]) -> (signed: Result<Vec<u8>, ::p256::ecdsa::Error>)
    requires
        is_private_scalar(scalar@),
    ensures
        signed matches Ok(der) ==> ecdsa_signature(scalar@, message@) == Some(der@),
        signed matches Ok(der) ==> ecdsa_verifies(p256_public_point(scalar@), message@, der@),
        signed is Err ==> ecdsa_signature(scalar@, message@) is None,
{
    let key = ::p256::ecdsa::SigningKey::from_slice(scalar)?;
    let signature: ::p256::ecdsa::Signature = key.try_sign(message)?;
    Ok(signature.to_der().as_bytes().to_vec())
}

/// `p256::ecdsa::Signature::from_der`, then `verify` of the `p256`
/// verifying key that `VerifyingKey::from_sec1_bytes` reads from a public
/// point. Assumed: the answer depends on the three byte strings alone;
/// bytes that are no DER signature are not accepted.
#[verifier::external_body]
fn ecdsa_verify(point: &[u8], message: &[u8], der: &[u8]) -> (ok: bool)
    requires
        is_public_point(point@),
    ensures
        ok == ecdsa_verifies(point@, message@, der@),
{
    let key = ::p256::ecdsa::VerifyingKey::from_sec1_bytes(point);
    let signature = ::p256::ecdsa::Signature::from_der(der);
    match (key, signature) {
        (Ok(key), Ok(signature)) => key.verify(message, &signature).is_ok(),
        _ => false,
    }
}

impl SigningKey {
    /// Signs `message`, giving the signature in DER.
    ///
    /// The signature is the one the `p256` crate determines for this key
    /// and message; where it is given, it verifies under the verifying key
    /// that belongs to this key.
    pub fn sign(&self, message: &[u8]) -> (der: Option<Vec<u8>>)
        ensures
            der is Some <==> ecdsa_signature(self@, message@) is Some,
            der matches Some(bytes) ==> {
                &&& ecdsa_signature(self@, message@) == Some(bytes@)
                &&& ecdsa_verifies(p256_public_point(self@), message@, bytes@)
            },
    {
        match ecdsa_sign(self.scalar(), message) {
            Ok(bytes) => Some(bytes),
            Err(_) => None,
        }
    }
}

impl VerifyingKey {
    /// Tells whether `der` is a valid signature of `message` under this key.
    pub fn verify(&self, message: &[u8], der: &[u8]) -> (ok: bool)
        ensures
            ok == ecdsa_verifies(self@, message@, der@),
    {
        ecdsa_verify(self.point(), message, der)
    }
}

impl BlockView {
    /// The block carries a signature that checks out: both hexadecimal
    /// fields are present and decode, the key bytes are a public key, and
    /// the signature is valid for the stored hash under that key.
    pub open spec fn signature_verifies(self) -> bool {
        match (self.signature, self.public_key) {
            (Some(signature), Some(public_key)) => {
                let der = hex_decoding(encode_utf8(signature));
                let encoded = hex_decoding(encode_utf8(public_key));
                &&& hex_wellformed(encode_utf8(signature))
                &&& hex_wellformed(encode_utf8(public_key))
                &&& p256_public_key(encoded) matches Some(point)
                &&& ecdsa_verifies(point, encode_utf8(self.hash), der)
            },
            _ => false,
        }
    }

    /// This block once signed under `scalar`, with `point` recorded as the
    /// signer's key. A block that already carries a signature stays as it
    /// is, and so does one for which no signature is given.
    pub open spec fn signed_with(self, scalar: Seq<u8>, point: Seq<u8>) -> BlockView {
        if self.signature is Some {
            self
        } else {
            match ecdsa_signature(scalar, encode_utf8(self.hash)) {
                Some(der) => BlockView {
                    signature: Some(hex_encoding(der)),
                    public_key: Some(hex_encoding(point)),
                    ..self
                },
                None => self,
            }
        }
    }
}

/// A block that lacks signature or public key does not verify.
pub proof fn lemma_unsigned_block_does_not_verify(block: BlockView)
    requires
        block.signature is None || block.public_key is None,
    ensures
        !block.signature_verifies(),
{
}

impl Block {
    /// Signs the block's hash and records signature and public key on it.
    ///
    /// Only the stored hash is signed, not the other fields. A signature
    /// once present is never replaced: signing a signed block changes
    /// nothing. Where `pubkey` is the key that belongs to `key`, a block
    /// signed here passes [`Block::verify_signature`].
    pub fn sign(&mut self, key: &SigningKey, pubkey: &VerifyingKey)
        ensures
            final(self)@ == old(self)@.signed_with(key@, pubkey@),
            old(self)@.well_formed() ==> final(self)@.well_formed(),
            old(self)@.signature is None && final(self)@.signature is Some && pubkey@
                == p256_public_point(key@) ==> final(self)@.signature_verifies(),
    {
        if self.signature.is_some() {
            return ;
        }
        match key.sign(self.hash.as_str().as_bytes()) {
            Some(der) => {
                let point = pubkey.point();
                proof {
                    lemma_hex_round_trip(der@);
                    lemma_hex_round_trip(point@);
                }
                self.signature = Some(encode(der.as_slice()));
                self.public_key = Some(encode(point));
            },
            None => {},
        }
    }

    /// Checks the signature that the block carries against its stored hash.
    ///
    /// The answer is `false` whenever signature or public key is absent,
    /// either fails to decode, the key bytes are no point of the curve, or
    /// the signature is not valid for the hash. Whether the hash matches the
    /// block's other fields is not looked at.
    pub fn verify_signature(&self) -> (ok: bool)
        ensures
            ok == self@.signature_verifies(),
    {
        match (&self.signature, &self.public_key) {
            (Some(signature), Some(public_key)) => {
                let der = match decode(signature.as_str().as_bytes()) {
                    Ok(bytes) => bytes,
                    Err(_) => {
                        return false;
                    },
                };
                let encoded = match decode(public_key.as_str().as_bytes()) {
                    Ok(bytes) => bytes,
                    Err(_) => {
                        return false;
                    },
                };
                let key = match load_public_key(encoded.as_slice()) {
                    Some(key) => key,
                    None => {
                        return false;
                    },
                };
                key.verify(self.hash.as_str().as_bytes(), der.as_slice())
            },
            _ => false,
        }
    }
}

} // verus!
