//! Hexadecimal text: what it means, and the calls into the `hex` crate that
//! produce and read it.

use vstd::prelude::*;
use vstd::utf8::*;

verus! {

/// The lowercase hexadecimal digit that stands for `nibble`.
pub open spec fn hex_char(nibble: int) -> char
    recommends
        0 <= nibble < 16,
{
    if nibble < 10 {
        ((48 + nibble) as u8) as char
    } else {
        ((87 + nibble) as u8) as char
    }
}

/// The text that encodes `bytes`: two lowercase digits per byte, the high
/// nibble first.
pub open spec fn hex_encoding(bytes: Seq<u8>) -> Seq<char> {
    Seq::new(
        2 * bytes.len(),
        |i: int|
            if i % 2 == 0 {
                hex_char(bytes[i / 2] as int / 16)
            } else {
                hex_char(bytes[i / 2] as int % 16)
            },
    )
}

/// The value of one hexadecimal digit given as a byte of text, in either
/// case; `None` for any other byte.
pub open spec fn hex_value(digit: u8) -> Option<int> {
    if 48 <= digit <= 57 {
        Some(digit as int - 48)
    } else if 97 <= digit <= 102 {
        Some(digit as int - 87)
    } else if 65 <= digit <= 70 {
        Some(digit as int - 55)
    } else {
        None
    }
}

/// Text that decodes: an even number of bytes, each a hexadecimal digit.
pub open spec fn hex_wellformed(text: Seq<u8>) -> bool {
    &&& text.len() % 2 == 0
    &&& forall|i: int| 0 <= i < text.len() ==> (#[trigger] hex_value(text[i])) is Some
}

/// The bytes that well-formed `text` stands for.
pub open spec fn hex_decoding(text: Seq<u8>) -> Seq<u8>
    recommends
        hex_wellformed(text),
{
    Seq::new(
        text.len() / 2,
        |i: int| (16 * hex_value(text[2 * i])->0 + hex_value(text[2 * i + 1])->0) as u8,
    )
}

#[verifier::external_type_specification]
#[verifier::external_body]
pub struct ExFromHexError(::hex::FromHexError);

/// `hex::encode`. Assumed: the string it returns is the lowercase encoding
/// of `data`, two digits per byte.
#[verifier::external_body]
pub(crate) fn encode(data: &[u8]) -> (text: String)
    ensures
        text@ == hex_encoding(data@),
{
    ::hex::encode(data)
}

/// `hex::decode`. Assumed: it succeeds exactly on an even number of
/// hexadecimal digits of either case, and then yields one byte per pair of
/// digits, the first digit being the high nibble.
#[verifier::external_body]
pub(crate) fn decode(text: &[u8]) -> (decoded: Result<Vec<u8>, ::hex::FromHexError>)
    ensures
        decoded is Ok <==> hex_wellformed(text@),
        decoded matches Ok(bytes) ==> bytes@ == hex_decoding(text@),
{
    ::hex::decode(text)
}

/// Every character of an encoding is a lowercase hexadecimal digit.
pub proof fn lemma_encoding_is_lowercase_hex(bytes: Seq<u8>)
    ensures
        hex_encoding(bytes).len() == 2 * bytes.len(),
        forall|i: int|
            0 <= i < 2 * bytes.len() ==> {
                let c = #[trigger] hex_encoding(bytes)[i];
                ('0' <= c <= '9') || ('a' <= c <= 'f')
            },
        is_ascii_chars(hex_encoding(bytes)),
{
    assert forall|i: int| 0 <= i < 2 * bytes.len() implies {
        let c = #[trigger] hex_encoding(bytes)[i];
        ('0' <= c <= '9') || ('a' <= c <= 'f')
    } by {
        let b = bytes[i / 2] as int;
        assert(0 <= b / 16 < 16 && 0 <= b % 16 < 16);
    }
}

/// Decoding the UTF-8 bytes of an encoding gives the encoded bytes back.
pub proof fn lemma_hex_round_trip(bytes: Seq<u8>)
    ensures
        hex_wellformed(encode_utf8(hex_encoding(bytes))),
        hex_decoding(encode_utf8(hex_encoding(bytes))) == bytes,
{
    let chars = hex_encoding(bytes);
    let text = encode_utf8(chars);
    lemma_encoding_is_lowercase_hex(bytes);
    is_ascii_chars_encode_utf8(chars);
    assert forall|i: int| 0 <= i < text.len() implies (#[trigger] hex_value(text[i])) is Some by {
        let c = chars[i];
        assert(text[i] == c as u8);
    }
    assert forall|k: int| 0 <= k < bytes.len() implies #[trigger] hex_decoding(text)[k]
        == bytes[k] by {
        let b = bytes[k] as int;
        assert(0 <= b / 16 < 16 && 0 <= b % 16 < 16);
        assert(text[2 * k] == chars[2 * k] as u8);
        assert(text[2 * k + 1] == chars[2 * k + 1] as u8);
        assert((2 * k) / 2 == k && (2 * k) % 2 == 0);
        assert((2 * k + 1) / 2 == k && (2 * k + 1) % 2 == 1);
        assert(16 * (b / 16) + b % 16 == b);
    }
    assert(hex_decoding(text) =~= bytes);
}

} // verus!
