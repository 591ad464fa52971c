//! Hexadecimal text: the form in which documents carry binary values.
//!
//! Encoding writes two lower-case digits for each byte. Decoding accepts
//! digits of either case and rejects everything else, text of odd length
//! included.

use vstd::prelude::*;

verus! {

/// The value of a hexadecimal digit, of either case; `None` for any other
/// character.
pub open spec fn digit_value(c: char) -> Option<int> {
    let n = c as int;
    if 48 <= n <= 57 {
        Some(n - 48)
    } else if 97 <= n <= 102 {
        Some(n - 87)
    } else if 65 <= n <= 70 {
        Some(n - 55)
    } else {
        None
    }
}

/// The lower-case digit that stands for `value`, which is below 16.
pub open spec fn digit_char(value: int) -> char {
    if value < 10 {
        (48 + value) as char
    } else {
        (87 + value) as char
    }
}

/// Whether `text` encodes a sequence of bytes: an even number of
/// hexadecimal digits.
pub open spec fn is_hex_text(text: Seq<char>) -> bool {
    &&& text.len() % 2 == 0
    &&& forall|i: int| 0 <= i < text.len() ==> (#[trigger] digit_value(text[i])) is Some
}

/// The byte that the two digits at `2 * i` and `2 * i + 1` of `text` encode.
pub open spec fn byte_at(text: Seq<char>, i: int) -> u8 {
    (16 * digit_value(text[2 * i])->0 + digit_value(text[2 * i + 1])->0) as u8
}

/// The bytes that `text` encodes, where it is hexadecimal text.
pub open spec fn bytes_of_hex(text: Seq<char>) -> Seq<u8> {
    Seq::new(text.len() / 2, |i: int| byte_at(text, i))
}

/// The digit at position `i` of the encoding of `bytes`.
pub open spec fn digit_at(bytes: Seq<u8>, i: int) -> char {
    if i % 2 == 0 {
        digit_char(bytes[i / 2] as int / 16)
    } else {
        digit_char(bytes[i / 2] as int % 16)
    }
}

/// The text that encodes `bytes`.
pub open spec fn hex_of_bytes(bytes: Seq<u8>) -> Seq<char> {
    Seq::new(2 * bytes.len(), |i: int| digit_at(bytes, i))
}

/// `hex::decode`: succeeds exactly on an even number of hexadecimal digits,
/// of either case, and then gives the byte that each pair of digits encodes,
/// the first digit of a pair being the upper half of the byte.
#[verifier::external_body]
fn hex_decode(text: &str) -> (r: Option<Vec<u8>>)
    ensures
        match r {
            Some(bytes) => is_hex_text(text@) && bytes@ == bytes_of_hex(text@),
            None => !is_hex_text(text@),
        },
{
    match hex::decode(text) {
        Ok(bytes) => Some(bytes),
        Err(_) => None,
    }
}

/// `hex::encode`: gives two lower-case digits for each byte, the upper half
/// of the byte first.
#[verifier::external_body]
fn hex_encode(bytes: &Vec<u8>) -> (r: String)
    ensures
        r@ == hex_of_bytes(bytes@),
{
    hex::encode(bytes)
}

/// Decodes hexadecimal text into the bytes it encodes. Gives `None` exactly
/// when `text` is not an even number of hexadecimal digits.
pub fn from_hex(text: &str) -> (r: Option<Vec<u8>>)
    ensures
        match r {
            Some(bytes) => is_hex_text(text@) && bytes@ == bytes_of_hex(text@),
            None => !is_hex_text(text@),
        },
{
    hex_decode(text)
}

/// Encodes bytes as lower-case hexadecimal text.
pub fn to_hex(bytes: &Vec<u8>) -> (r: String)
    ensures
        r@ == hex_of_bytes(bytes@),
        is_hex_text(r@),
        bytes_of_hex(r@) == bytes@,
{
    proof {
        lemma_hex_round_trip(bytes@);
    }
    hex_encode(bytes)
}

/// Every digit that encoding writes is a hexadecimal digit, and stands for
/// the value it was written for.
pub proof fn lemma_digit_round_trip(value: int)
    requires
        0 <= value < 16,
    ensures
        digit_value(digit_char(value)) == Some(value),
{
}

/// Decoding the encoding of `bytes` gives `bytes` back.
pub proof fn lemma_hex_round_trip(bytes: Seq<u8>)
    ensures
        is_hex_text(hex_of_bytes(bytes)),
        bytes_of_hex(hex_of_bytes(bytes)) == bytes,
{
    let text = hex_of_bytes(bytes);
    assert forall|i: int| 0 <= i < text.len() implies (#[trigger] digit_value(text[i])) is Some by {
        let b = bytes[i / 2] as int;
        lemma_digit_round_trip(b / 16);
        lemma_digit_round_trip(b % 16);
    }
    assert forall|i: int| 0 <= i < bytes.len() implies byte_at(text, i) == bytes[i] by {
        let b = bytes[i] as int;
        lemma_digit_round_trip(b / 16);
        lemma_digit_round_trip(b % 16);
        assert(text[2 * i] == digit_char(b / 16));
        assert(text[2 * i + 1] == digit_char(b % 16));
    }
    assert(bytes_of_hex(text) =~= bytes);
}

} // verus!
