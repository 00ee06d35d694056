use mini_crypto_lab::{
    generate_keys, load_private_key, load_public_key, validate_chain, Block, ChainError,
    SigningKey, VerifyingKey,
};
use p256::ecdsa::signature::Verifier;

const SAMPLE_SCALAR: &str = "c9afa9d845ba75166b5c215767b1d6934e50c3db36e89b127b8a622b120f6721";
const SAMPLE_POINT: &str = "0460fed4ba255a9d31c961eb74c6356d68c049b8923b61fa6ce669622e60f29fb67903fe1008b8bc99a41ae9e95628bc64f2f1b20c2d7e9f5177a3c294d4462299";
const SAMPLE_SIGNATURE: &str = "3046022100efd48b2aacb6a8fd1140dd9cd45e81d69d2c877b56aaf991c34d0ea84eaf3716022100f7cb1c942d657c41d436c7a1b6e29f65f3e900dbb9aff4064dc4ab2f843acda8";

fn sample_keys() -> (SigningKey, VerifyingKey) {
    let key = load_private_key(&hex::decode(SAMPLE_SCALAR).unwrap()).unwrap();
    let pubkey = key.verifying_key();
    (key, pubkey)
}

fn other_keys() -> (SigningKey, VerifyingKey) {
    let key = load_private_key(&[7u8; 32]).unwrap();
    let pubkey = key.verifying_key();
    (key, pubkey)
}

fn block() -> Block {
    Block::unmined(
        0,
        "2024-01-01T00:00:00+00:00".to_string(),
        "payload".to_string(),
        "GENESIS".to_string(),
    )
}

fn signed_block() -> Block {
    let (key, pubkey) = sample_keys();
    let mut block = block();
    block.sign(&key, &pubkey);
    block
}

#[test]
fn signing_key_gives_the_published_signature_of_sample() {
    let (key, _) = sample_keys();
    let der = key.sign(b"sample").unwrap();
    assert_eq!(hex::encode(&der), SAMPLE_SIGNATURE);
}

#[test]
fn signing_key_signature_depends_on_key_and_message_alone() {
    let (key, _) = sample_keys();
    let (other, _) = other_keys();
    assert_eq!(key.sign(b"message"), key.sign(b"message"));
    assert_ne!(key.sign(b"message"), key.sign(b"massage"));
    assert_ne!(key.sign(b"message"), other.sign(b"message"));
}

#[test]
fn verifying_key_accepts_what_its_signing_key_signed() {
    let (key, pubkey) = sample_keys();
    let der = key.sign(b"some message").unwrap();
    assert!(pubkey.verify(b"some message", &der));
    assert!(!pubkey.verify(b"some massage", &der));
    assert!(!pubkey.verify(b"", &der));
    let (_, stranger) = other_keys();
    assert!(!stranger.verify(b"some message", &der));
}

#[test]
fn verifying_key_accepts_the_published_signature_of_sample() {
    let pubkey = load_public_key(&hex::decode(SAMPLE_POINT).unwrap()).unwrap();
    assert!(pubkey.verify(b"sample", &hex::decode(SAMPLE_SIGNATURE).unwrap()));
    assert!(!pubkey.verify(b"simple", &hex::decode(SAMPLE_SIGNATURE).unwrap()));
}

#[test]
fn verifying_key_refuses_bytes_that_are_no_der_signature() {
    let (key, pubkey) = sample_keys();
    let der = key.sign(b"m").unwrap();
    assert!(!pubkey.verify(b"m", &[]));
    assert!(!pubkey.verify(b"m", b"m"));
    assert!(!pubkey.verify(b"m", &der[..der.len() - 1]));
    let mut longer = der.clone();
    longer.push(0);
    assert!(!pubkey.verify(b"m", &longer));
    let mut flipped = der.clone();
    let last = flipped.len() - 1;
    flipped[last] ^= 1;
    assert!(!pubkey.verify(b"m", &flipped));
    assert!(pubkey.verify(b"m", &der));
}

#[test]
fn sign_then_verify_returns_true() {
    let block = signed_block();
    assert!(block.signature.is_some());
    assert!(block.public_key.is_some());
    assert!(block.verify_signature());
}

#[test]
fn sign_then_verify_with_generated_keys_returns_true() {
    let pair = generate_keys();
    let mut block = Block::new(3, "data".to_string(), "prev".to_string());
    block.sign(&pair.signing_key, &pair.verifying_key);
    assert!(block.verify_signature());
    let mut mined = Block::seal(1, "t".to_string(), "d".to_string(), "p".to_string(), 1).unwrap();
    mined.sign(&pair.signing_key, &pair.verifying_key);
    assert!(mined.verify_signature());
}

#[test]
fn verify_on_an_unsigned_block_returns_false() {
    assert!(!block().verify_signature());
}

#[test]
fn sign_records_hex_of_der_signature_and_of_uncompressed_point() {
    let signed = signed_block();
    assert_eq!(signed.public_key.as_deref(), Some(SAMPLE_POINT));
    let der = hex::decode(signed.signature.as_ref().unwrap()).unwrap();
    let (key, _) = sample_keys();
    assert_eq!(Some(der.clone()), key.sign(signed.hash.as_bytes()));
    let signature = signed.signature.as_ref().unwrap();
    assert!(signature.chars().all(|c| c.is_ascii_digit() || ('a'..='f').contains(&c)));
    let theirs = p256::ecdsa::VerifyingKey::from_sec1_bytes(&hex::decode(SAMPLE_POINT).unwrap()).unwrap();
    let parsed = p256::ecdsa::Signature::from_der(&der).unwrap();
    assert!(theirs.verify(signed.hash.as_bytes(), &parsed).is_ok());
}

#[test]
fn sign_gives_the_published_signature_for_a_hash_of_sample() {
    let (key, pubkey) = sample_keys();
    let mut block = block();
    block.hash = "sample".to_string();
    block.sign(&key, &pubkey);
    assert_eq!(block.signature.as_deref(), Some(SAMPLE_SIGNATURE));
    assert!(block.verify_signature());
}

#[test]
fn sign_changes_nothing_but_signature_and_public_key() {
    let plain = block();
    let signed = signed_block();
    assert_eq!(signed.index, plain.index);
    assert_eq!(signed.timestamp, plain.timestamp);
    assert_eq!(signed.data, plain.data);
    assert_eq!(signed.prev_hash, plain.prev_hash);
    assert_eq!(signed.nonce, plain.nonce);
    assert_eq!(signed.hash, plain.hash);
    assert_eq!(signed.calculate_hash(), signed.hash);
}

#[test]
fn sign_leaves_a_signed_block_as_it_is() {
    let signed = signed_block();
    let mut again = signed.clone();
    let (key, pubkey) = other_keys();
    again.sign(&key, &pubkey);
    assert_eq!(again, signed);
    assert!(again.verify_signature());
}

#[test]
fn verify_reads_hex_in_either_case() {
    let mut signed = signed_block();
    signed.signature = signed.signature.map(|s| s.to_uppercase());
    signed.public_key = signed.public_key.map(|s| s.to_uppercase());
    assert!(signed.verify_signature());
}

#[test]
fn verify_accepts_a_compressed_public_key() {
    let mut signed = signed_block();
    let compressed = format!("03{}", &SAMPLE_POINT[2..66]);
    signed.public_key = Some(compressed);
    assert!(signed.verify_signature());
    let wrong_parity = format!("02{}", &SAMPLE_POINT[2..66]);
    signed.public_key = Some(wrong_parity);
    assert!(!signed.verify_signature());
}

#[test]
fn verify_fails_when_one_of_the_two_fields_is_absent() {
    let mut no_key = signed_block();
    no_key.public_key = None;
    assert!(!no_key.verify_signature());
    let mut no_signature = signed_block();
    no_signature.signature = None;
    assert!(!no_signature.verify_signature());
}

#[test]
fn verify_fails_on_a_signature_that_is_not_hex() {
    let mut signed = signed_block();
    signed.signature = Some("not hex at all".to_string());
    assert!(!signed.verify_signature());
    let mut odd = signed_block();
    let text = odd.signature.clone().unwrap();
    odd.signature = Some(text[..text.len() - 1].to_string());
    assert!(!odd.verify_signature());
    let mut wide = signed_block();
    wide.signature = Some("é0".to_string());
    assert!(!wide.verify_signature());
    let mut empty = signed_block();
    empty.signature = Some(String::new());
    assert!(!empty.verify_signature());
}

#[test]
fn verify_fails_on_a_public_key_that_is_not_hex() {
    let mut signed = signed_block();
    signed.public_key = Some("zz".to_string());
    assert!(!signed.verify_signature());
    let mut odd = signed_block();
    odd.public_key = Some(SAMPLE_POINT[..SAMPLE_POINT.len() - 1].to_string());
    assert!(!odd.verify_signature());
}

#[test]
fn verify_fails_on_a_public_key_that_is_no_point() {
    let mut off_curve = signed_block();
    let mut text = SAMPLE_POINT.to_string();
    text.pop();
    text.push('8');
    off_curve.public_key = Some(text);
    assert!(!off_curve.verify_signature());
    let mut short = signed_block();
    short.public_key = Some(SAMPLE_POINT[..64].to_string());
    assert!(!short.verify_signature());
    let mut infinity = signed_block();
    infinity.public_key = Some("00".to_string());
    assert!(!infinity.verify_signature());
    let mut empty = signed_block();
    empty.public_key = Some(String::new());
    assert!(!empty.verify_signature());
}

#[test]
fn verify_fails_on_a_signature_that_is_no_der() {
    let mut signed = signed_block();
    signed.signature = Some("00ff".to_string());
    assert!(!signed.verify_signature());
    let mut truncated = signed_block();
    let text = truncated.signature.clone().unwrap();
    truncated.signature = Some(text[..text.len() - 2].to_string());
    assert!(!truncated.verify_signature());
}

#[test]
fn verify_fails_when_the_hash_was_changed() {
    let mut signed = signed_block();
    signed.hash = Block::calculate_hash_raw("something else");
    assert!(!signed.verify_signature());
}

#[test]
fn verify_fails_under_another_key() {
    let (key, _) = sample_keys();
    let (_, stranger) = other_keys();
    let mut block = block();
    block.sign(&key, &stranger);
    assert!(block.signature.is_some());
    assert!(!block.verify_signature());
}

#[test]
fn verify_fails_on_a_signature_taken_from_another_block() {
    let signed = signed_block();
    let (key, pubkey) = sample_keys();
    let mut other = Block::unmined(1, "t".to_string(), "other".to_string(), signed.hash.clone());
    other.sign(&key, &pubkey);
    let mut forged = signed.clone();
    forged.signature = other.signature.clone();
    assert!(!forged.verify_signature());
    assert!(other.verify_signature());
}

#[test]
fn signature_covers_the_hash_and_not_the_data() {
    let mut signed = signed_block();
    let hash = signed.hash.clone();
    signed.data = "corrupted".to_string();
    assert_eq!(signed.hash, hash);
    assert!(signed.verify_signature());
    assert_eq!(validate_chain(&vec![signed]), Err(ChainError::HashMismatch(0)));
}

#[test]
fn signature_does_not_enter_the_hash() {
    let plain = block();
    let signed = signed_block();
    assert_eq!(validate_chain(&vec![plain]), Ok(()));
    assert_eq!(validate_chain(&vec![signed.clone()]), Ok(()));
    let mut stripped = signed;
    stripped.signature = None;
    stripped.public_key = None;
    assert_eq!(validate_chain(&vec![stripped]), Ok(()));
}
