//! Standard Base64 (with padding) as the vault file writes its binary fields.

use base64::engine::general_purpose::STANDARD as B64;
use base64::Engine;
use vstd::prelude::*;

use crate::json::utf8;

verus! {

/// The outcome of decoding Base64 text: the bytes, or the description of the
/// decode error.
pub type Decoded = Result<Seq<u8>, Seq<char>>;

/// The character of the standard Base64 alphabet for a six-bit value:
/// `A`-`Z`, `a`-`z`, `0`-`9`, then `+` and `/`.
pub open spec fn base64_digit(v: nat) -> u8
    recommends
        v < 64,
{
    if v < 26 {
        (65 + v) as u8
    } else if v < 52 {
        (71 + v) as u8
    } else if v < 62 {
        (v - 4) as u8
    } else if v == 62 {
        43u8
    } else {
        47u8
    }
}

/// The padded standard Base64 text of `bytes`: each group of three bytes
/// gives four characters, six bits each, high bits first; a last group of
/// one or two bytes gives two or three characters followed by `=` up to
/// four.
pub open spec fn base64_text(bytes: Seq<u8>) -> Seq<char>
    decreases bytes.len(),
{
    if bytes.len() == 0 {
        Seq::empty()
    } else if bytes.len() == 1 {
        let a = bytes[0] as nat;
        seq![base64_digit(a / 4) as char, base64_digit((a % 4) * 16) as char, '=', '=']
    } else if bytes.len() == 2 {
        let a = bytes[0] as nat;
        let b = bytes[1] as nat;
        seq![
            base64_digit(a / 4) as char,
            base64_digit((a % 4) * 16 + b / 16) as char,
            base64_digit((b % 16) * 4) as char,
            '=',
        ]
    } else {
        let a = bytes[0] as nat;
        let b = bytes[1] as nat;
        let c = bytes[2] as nat;
        seq![
            base64_digit(a / 4) as char,
            base64_digit((a % 4) * 16 + b / 16) as char,
            base64_digit((b % 16) * 4 + c / 64) as char,
            base64_digit(c % 64) as char,
        ] + base64_text(bytes.subrange(3, bytes.len() as int))
    }
}

/// What `base64::engine::general_purpose::STANDARD.decode` gives for the
/// bytes `text`: the decoded bytes, or the description of the decode error.
pub uninterp spec fn base64_decoded(text: Seq<u8>) -> Decoded;

/// Length of the padded Base64 text for `n` bytes.
pub open spec fn base64_len(n: nat) -> nat {
    4 * ((n + 2) / 3)
}

/// The Base64 text has four characters per started group of three bytes.
pub proof fn lemma_base64_text_len(bytes: Seq<u8>)
    ensures
        base64_text(bytes).len() == base64_len(bytes.len()),
    decreases bytes.len(),
{
    if bytes.len() >= 3 {
        lemma_base64_text_len(bytes.subrange(3, bytes.len() as int));
    }
}

/// Encodes `bytes` with `STANDARD.encode` of the `base64` crate.
///
/// Claimed of the crate: the text is the padded standard encoding (see
/// [`base64_text`]), and decoding it with the same engine gives the bytes
/// back. The crate panics when the text's length overflows `usize`, which
/// `requires` leaves out.
#[verifier::external_body]
pub(crate) fn base64_encode(bytes: &[u8]) -> (r: String)
    requires
        base64_len(bytes@.len() as nat) <= usize::MAX,
    ensures
        r@ == base64_text(bytes@),
        base64_decoded(utf8(r@)) == Decoded::Ok(bytes@),
{
    B64.encode(bytes)
}

/// Decodes `text` with `STANDARD.decode` of the `base64` crate.
///
/// Claimed of the crate: the result is a function of the input alone
/// (named [`base64_decoded`]); a decode error is returned as its `Display`
/// text.
#[verifier::external_body]
pub(crate) fn base64_decode(text: &[u8]) -> (r: Result<Vec<u8>, String>)
    ensures
        match r {
            Ok(b) => base64_decoded(text@) == Decoded::Ok(b@),
            Err(m) => base64_decoded(text@) == Decoded::Err(m@),
        },
{
    match B64.decode(text) {
        Ok(bytes) => Ok(bytes),
        Err(e) => Err(e.to_string()),
    }
}

} // verus!
