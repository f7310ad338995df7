//! Text encodings that the library leaves to others: base64 (the `base64`
//! crate), JSON string and number text (`serde_json`) and UTF-8 decoding.

use vstd::prelude::*;
use vstd::utf8::{decode_utf8, valid_utf8};
use base64::Engine;

verus! {

/// The error of the `base64` crate's decoder.
#[verifier::external_type_specification]
#[verifier::external_body]
pub struct ExDecodeError(base64::DecodeError);

/// The standard base64 text, with padding, of `data`, as bytes.
pub uninterp spec fn base64_encoding(data: Seq<u8>) -> Seq<u8>;

/// What the standard base64 decoder gives for `text`: the bytes it stands
/// for, or nothing when it is not canonical padded base64.
pub uninterp spec fn base64_decoding(text: Seq<u8>) -> Option<Seq<u8>>;

/// The JSON string literal, quotes and escapes included, that stands for
/// `text`.
pub uninterp spec fn json_string_encoding(text: Seq<char>) -> Seq<char>;

/// The character for a decimal digit.
pub open spec fn digit_char(digit: nat) -> char {
    if digit == 0 {
        '0'
    } else if digit == 1 {
        '1'
    } else if digit == 2 {
        '2'
    } else if digit == 3 {
        '3'
    } else if digit == 4 {
        '4'
    } else if digit == 5 {
        '5'
    } else if digit == 6 {
        '6'
    } else if digit == 7 {
        '7'
    } else if digit == 8 {
        '8'
    } else {
        '9'
    }
}

/// The decimal digits of `n`, without sign or leading zeros.
pub open spec fn decimal_text(n: nat) -> Seq<char>
    decreases n,
{
    if n < 10 {
        seq![digit_char(n)]
    } else {
        decimal_text(n / 10).push(digit_char(n % 10))
    }
}

/// Whether the base64 text of `data` fits in memory.
pub open spec fn encodable(data: Seq<u8>) -> bool {
    data.len() + data.len() / 3 + 4 <= isize::MAX
}

/// Whether the base64 text of `data` fits in memory.
pub fn can_encode(data: &[u8]) -> (fits: bool)
    ensures
        fits == encodable(data@),
{
    let n = data.len();
    n <= isize::MAX as usize && n / 3 + 4 <= isize::MAX as usize - n
}

/// Calls `Engine::encode` of `base64::engine::general_purpose::STANDARD`. The
/// text is a function of the data, and the same engine decodes it to the data.
#[verifier::external_body]
pub(crate) fn base64_encode(data: &[u8]) -> (text: Vec<u8>)
    requires
        encodable(data@),
    ensures
        text@ == base64_encoding(data@),
        base64_decoding(text@) == Some(data@),
{
    base64::engine::general_purpose::STANDARD.encode(data).into_bytes()
}

/// Calls `Engine::decode` of `base64::engine::general_purpose::STANDARD`.
/// Whether it succeeds, and with which bytes, is a function of the text.
#[verifier::external_body]
pub(crate) fn base64_decode(text: &[u8]) -> (data: Result<Vec<u8>, base64::DecodeError>)
    ensures
        match data {
            Ok(bytes) => base64_decoding(text@) == Some(bytes@),
            Err(_) => base64_decoding(text@) is None,
        },
{
    base64::engine::general_purpose::STANDARD.decode(text)
}

/// Formats a `serde_json::Value::String` in compact form, which writes the
/// text as a JSON string literal. The literal is a function of the text.
#[verifier::external_body]
pub(crate) fn json_string(text: &str) -> (literal: String)
    ensures
        literal@ == json_string_encoding(text@),
{
    serde_json::Value::String(text.to_owned()).to_string()
}

/// Formats a `serde_json::Value` that holds an unsigned number in compact
/// form, which writes its decimal digits.
#[verifier::external_body]
pub(crate) fn json_number(n: u64) -> (digits: String)
    ensures
        digits@ == decimal_text(n as nat),
{
    serde_json::Value::from(n).to_string()
}

/// Calls `String::from_utf8`, which succeeds exactly on valid UTF-8 and then
/// gives the text that the bytes encode.
#[verifier::external_body]
pub(crate) fn utf8_text(bytes: Vec<u8>) -> (text: Option<String>)
    ensures
        match text {
            Some(t) => valid_utf8(bytes@) && t@ == decode_utf8(bytes@),
            None => !valid_utf8(bytes@),
        },
{
    String::from_utf8(bytes).ok()
}

} // verus!
