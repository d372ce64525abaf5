//! Hexadecimal text, in which the shared key is written down.

use vstd::prelude::*;
use vstd::utf8::encode_utf8;

verus! {

/// Why a text is not hexadecimal.
#[derive(Debug, Clone, Copy, PartialEq, Eq, Structural)]
pub enum HexError {
    OddLength,
    /// The first byte that is no digit, and where it stands.
    InvalidCharacter { c: char, index: usize },
    InvalidLength,
}

/// The value of a hexadecimal digit, of either case.
pub open spec fn digit_value(b: u8) -> Option<int> {
    if 0x30 <= b <= 0x39 {
        Some(b - 0x30)
    } else if 0x41 <= b <= 0x46 {
        Some(b - 0x41 + 10)
    } else if 0x61 <= b <= 0x66 {
        Some(b - 0x61 + 10)
    } else {
        None
    }
}

/// The lower-case digit of a value.
pub open spec fn digit_char(v: int) -> char {
    if v < 10 {
        (0x30 + v) as char
    } else {
        (0x61 + v - 10) as char
    }
}

/// Whether a text, as UTF-8, is a row of digit pairs.
pub open spec fn is_hex(text: Seq<u8>) -> bool {
    text.len() % 2 == 0 && forall|i: int| 0 <= i < text.len() ==> digit_value(#[trigger] text[i])
        is Some
}

/// The bytes that a row of digit pairs stands for.
pub open spec fn hex_bytes(text: Seq<u8>) -> Seq<u8> {
    Seq::new(
        text.len() / 2,
        |i: int| (digit_value(text[2 * i])->0 * 16 + digit_value(text[2 * i + 1])->0) as u8,
    )
}

/// Bytes as lower-case digit pairs.
pub open spec fn hex_chars(bytes: Seq<u8>) -> Seq<char> {
    Seq::new(
        2 * bytes.len(),
        |i: int|
            if i % 2 == 0 {
                digit_char(bytes[i / 2] as int / 16)
            } else {
                digit_char(bytes[i / 2] as int % 16)
            },
    )
}

/// `hex::encode`: two lower-case digits for each byte, the high half first.
#[verifier::external_body]
pub(crate) fn encode(bytes: &[u8]) -> (text: String)
    ensures
        text@ == hex_chars(bytes@),
{
    hex::encode(bytes)
}

/// What decoding gives, for every text.
pub open spec fn decoded(text: Seq<char>, r: Result<Vec<u8>, HexError>) -> bool {
    let b = encode_utf8(text);
    match r {
        Ok(bytes) => is_hex(b) && bytes@ == hex_bytes(b),
        Err(HexError::OddLength) => b.len() % 2 != 0,
        Err(HexError::InvalidCharacter { c, index }) => {
            &&& b.len() % 2 == 0
            &&& 0 <= index < b.len()
            &&& digit_value(b[index as int]) is None
            &&& forall|i: int| 0 <= i < index ==> digit_value(#[trigger] b[i]) is Some
            &&& c as int == b[index as int]
        },
        Err(HexError::InvalidLength) => false,
    }
}

/// `hex::decode`: the bytes of a row of digit pairs. It fails on an odd number of
/// bytes, and otherwise on the first byte that is no digit, which it reports.
#[verifier::external_body]
pub(crate) fn decode(text: &str) -> (r: Result<Vec<u8>, HexError>)
    ensures
        decoded(text@, r),
{
    match hex::decode(text) {
        Ok(bytes) => Ok(bytes),
        Err(hex::FromHexError::OddLength) => Err(HexError::OddLength),
        Err(hex::FromHexError::InvalidHexCharacter { c, index }) => Err(
            HexError::InvalidCharacter { c, index },
        ),
        Err(hex::FromHexError::InvalidStringLength) => Err(HexError::InvalidLength),
    }
}

/// A key that was written down reads back as it was.
pub proof fn law_key_round_trip(key: Seq<u8>)
    ensures
        is_hex(encode_utf8(hex_chars(key))),
        hex_bytes(encode_utf8(hex_chars(key))) == key,
{
    let chars = hex_chars(key);
    assert(vstd::utf8::is_ascii_chars(chars));
    vstd::utf8::is_ascii_chars_encode_utf8(chars);
    let b = encode_utf8(chars);
    assert(b =~= Seq::new(chars.len(), |i: int| chars[i] as u8));
    assert forall|i: int| 0 <= i < b.len() implies digit_value(#[trigger] b[i]) == Some(
        if i % 2 == 0 {
            key[i / 2] as int / 16
        } else {
            key[i / 2] as int % 16
        },
    ) by {}
    assert(hex_bytes(b) =~= key) by {
        assert forall|i: int| 0 <= i < key.len() implies hex_bytes(b)[i] == key[i] by {
            assert(digit_value(b[2 * i]) == Some(key[i] as int / 16));
            assert(digit_value(b[2 * i + 1]) == Some(key[i] as int % 16));
        }
    }
}

} // verus!
