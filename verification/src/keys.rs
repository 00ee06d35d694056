//! Signing and verifying keys over P-256, held as the bytes that are stored
//! and exchanged, and the calls into the `p256` crate that check and use
//! them.

use vstd::prelude::*;
use vstd::slice::*;

verus! {

/// Length in bytes of a private scalar.
pub const SCALAR_LEN: usize = 32;

/// Length in bytes of an uncompressed public point.
pub const POINT_LEN: usize = 65;

/// The order of the group that P-256 generates.
pub open spec fn p256_order() -> int {
    0xffffffff00000000ffffffffffffffffbce6faada7179e84f3b9cac2fc632551int
}

/// The number that `bytes` spell, most significant byte first.
pub open spec fn big_endian(bytes: Seq<u8>) -> nat
    decreases bytes.len(),
{
    if bytes.len() == 0 {
        0
    } else {
        256 * big_endian(bytes.drop_last()) + bytes.last() as nat
    }
}

/// Bytes that are a private scalar: thirty-two of them, spelling a number
/// above zero and below the order of the group.
pub open spec fn is_private_scalar(bytes: Seq<u8>) -> bool {
    &&& bytes.len() == SCALAR_LEN
    &&& 0 < big_endian(bytes) < p256_order()
}

/// The public point that belongs to a private scalar, in uncompressed SEC1
/// encoding, as the `p256` crate derives it.
pub uninterp spec fn p256_public_point(scalar: Seq<u8>) -> Seq<u8>;

/// What the `p256` crate makes of a SEC1 encoding that is offered as a
/// public key: `None` where it does not parse or is no point of the curve
/// that can serve as a key, else the same point in uncompressed encoding.
pub uninterp spec fn p256_public_key(encoded: Seq<u8>) -> Option<Seq<u8>>;

/// Bytes framed as a SEC1 point other than the point at infinity: a tag
/// byte, then one coordinate (tags 2, 3 and 5) or two (tag 4), of
/// thirty-two bytes each.
pub open spec fn is_point_frame(encoded: Seq<u8>) -> bool {
    ||| encoded.len() == 1 + SCALAR_LEN && (encoded[0] == 2 || encoded[0] == 3 || encoded[0] == 5)
    ||| encoded.len() == POINT_LEN && encoded[0] == 4
}

/// Bytes that are a public key in the form in which it is kept: an
/// uncompressed point, which the `p256` crate accepts and would write out
/// as these very bytes.
pub open spec fn is_public_point(bytes: Seq<u8>) -> bool {
    &&& bytes.len() == POINT_LEN
    &&& bytes[0] == 4
    &&& p256_public_key(bytes) == Some(bytes)
}

/// `p256::ecdsa::SigningKey::from_slice` on thirty-two bytes, then
/// `VerifyingKey::from` on the key and `to_encoded_point(false)` on that.
/// Assumed: the scalar is accepted exactly if it spells a number above zero
/// and below the group order; the point handed back depends on the scalar alone, and is a
/// public key in uncompressed form (the tag byte 4 and two coordinates of
/// thirty-two bytes), which the crate accepts and writes out unchanged.
#[verifier::external_body]
fn signing_key_point(scalar: &[u8]) -> (point: Option<Vec<u8>>)
    requires
        scalar@.len() == SCALAR_LEN,
    ensures
        point is Some <==> is_private_scalar(scalar@),
        point matches Some(p) ==> p@ == p256_public_point(scalar@) && is_public_point(p@),
{
    let key = ::p256::ecdsa::SigningKey::from_slice(scalar).ok()?;
    let public = ::p256::ecdsa::VerifyingKey::from(&key);
    Some(public.to_encoded_point(false).as_bytes().to_vec())
}

/// `p256::ecdsa::SigningKey::random` on the operating system's generator,
/// then `to_bytes`. Assumed of every outcome: the bytes are a private
/// scalar.
#[verifier::external_body]
fn random_scalar() -> (scalar: Vec<u8>)
    ensures
        is_private_scalar(scalar@),
{
    ::p256::ecdsa::SigningKey::random(&mut ::rand::rngs::OsRng).to_bytes().to_vec()
}

/// `p256::EncodedPoint::from_bytes`, then
/// `p256::ecdsa::VerifyingKey::from_encoded_point` and
/// `to_encoded_point(false)`. Assumed: whether the bytes are accepted and
/// the encoding handed back depend on the bytes alone; only bytes framed as
/// a point other than the point at infinity are accepted; the encoding
/// handed back is uncompressed (the tag byte 4 and two coordinates of
/// thirty-two bytes), and is itself accepted and written out unchanged.
#[verifier::external_body]
fn public_key_point(encoded: &[u8]) -> (point: Option<Vec<u8>>)
    ensures
        point is Some <==> p256_public_key(encoded@) is Some,
        point is Some ==> is_point_frame(encoded@),
        point matches Some(p) ==> p256_public_key(encoded@) == Some(p@) && is_public_point(p@),
{
    let parsed = ::p256::EncodedPoint::from_bytes(encoded).ok()?;
    let key = ::p256::ecdsa::VerifyingKey::from_encoded_point(&parsed).ok()?;
    Some(key.to_encoded_point(false).as_bytes().to_vec())
}

/// A private signing key together with the public point that belongs to it.
pub struct SigningKey {
    scalar: Vec<u8>,
    point: Vec<u8>,
}

/// A public verifying key, kept as an uncompressed point.
pub struct VerifyingKey {
    point: Vec<u8>,
}

/// A signing key and a verifying key, as generated together.
pub struct Keypair {
    pub signing_key: SigningKey,
    pub verifying_key: VerifyingKey,
}

impl View for SigningKey {
    type V = Seq<u8>;

    /// The private scalar.
    closed spec fn view(&self) -> Seq<u8> {
        self.scalar@
    }
}

impl View for VerifyingKey {
    type V = Seq<u8>;

    /// The uncompressed public point.
    closed spec fn view(&self) -> Seq<u8> {
        self.point@
    }
}

impl SigningKey {
    #[verifier::type_invariant]
    spec fn well_formed(&self) -> bool {
        &&& is_private_scalar(self.scalar@)
        &&& self.point@ == p256_public_point(self.scalar@)
        &&& is_public_point(self.point@)
    }

    /// The private scalar, as it is stored.
    pub fn to_bytes(&self) -> (bytes: Vec<u8>)
        ensures
            bytes@ == self@,
            is_private_scalar(bytes@),
    {
        proof {
            use_type_invariant(self);
        }
        slice_to_vec(self.scalar.as_slice())
    }

    /// The verifying key that belongs to this signing key.
    pub fn verifying_key(&self) -> (key: VerifyingKey)
        ensures
            key@ == p256_public_point(self@),
    {
        proof {
            use_type_invariant(self);
        }
        VerifyingKey { point: slice_to_vec(self.point.as_slice()) }
    }

    pub(crate) fn scalar(&self) -> (bytes: &[u8])
        ensures
            bytes@ == self@,
            is_private_scalar(bytes@),
    {
        proof {
            use_type_invariant(self);
        }
        self.scalar.as_slice()
    }
}

impl VerifyingKey {
    #[verifier::type_invariant]
    spec fn well_formed(&self) -> bool {
        is_public_point(self.point@)
    }

    /// The public point in uncompressed SEC1 encoding, as it is stored.
    pub fn to_sec1_bytes(&self) -> (bytes: Vec<u8>)
        ensures
            bytes@ == self@,
            is_public_point(bytes@),
    {
        proof {
            use_type_invariant(self);
        }
        slice_to_vec(self.point.as_slice())
    }

    pub(crate) fn point(&self) -> (bytes: &[u8])
        ensures
            bytes@ == self@,
            is_public_point(bytes@),
    {
        proof {
            use_type_invariant(self);
        }
        self.point.as_slice()
    }
}

impl Keypair {
    /// The verifying key is the one that belongs to the signing key.
    pub open spec fn matched(&self) -> bool {
        self.verifying_key@ == p256_public_point(self.signing_key@)
    }
}

/// Reads a signing key from its stored form, the raw private scalar.
///
/// The key is absent unless the bytes are exactly a private scalar.
pub fn load_private_key(bytes: &[u8]) -> (key: Option<SigningKey>)
    ensures
        key is Some <==> is_private_scalar(bytes@),
        key matches Some(k) ==> k@ == bytes@,
{
    if bytes.len() != SCALAR_LEN {
        return None;
    }
    match signing_key_point(bytes) {
        Some(point) => Some(SigningKey { scalar: slice_to_vec(bytes), point }),
        None => None,
    }
}

/// Reads a verifying key from a SEC1 encoding of its point, compressed or
/// not.
///
/// The key is absent unless the bytes are a public key, and is kept in
/// uncompressed form.
pub fn load_public_key(bytes: &[u8]) -> (key: Option<VerifyingKey>)
    ensures
        key is Some <==> p256_public_key(bytes@) is Some,
        key is Some ==> is_point_frame(bytes@),
        key matches Some(k) ==> p256_public_key(bytes@) == Some(k@) && is_public_point(k@),
{
    match public_key_point(bytes) {
        Some(point) => Some(VerifyingKey { point }),
        None => None,
    }
}

/// Generates a fresh signing key and the verifying key that belongs to it.
pub fn generate_keys() -> (pair: Keypair)
    ensures
        pair.matched(),
{
    let scalar = random_scalar();
    let signing_key = load_private_key(scalar.as_slice()).unwrap();
    let verifying_key = signing_key.verifying_key();
    Keypair { signing_key, verifying_key }
}

} // verus!
