//! Clearing a copied secret from the clipboard: a scheduled clear applies
//! only if no newer copy has superseded it and the clipboard still holds
//! exactly what was copied, recognised by its SHA-256 digest.

use sha2::{Digest, Sha256};
use vstd::prelude::*;
use vstd::string::*;

use crate::json::{hex_digit, utf8};

verus! {

/// Seconds after a copy at which the clipboard is cleared.
pub const CLIPBOARD_CLEAR_DELAY_SECS: u64 = 25;

/// The SHA-256 digest that the `sha2` crate computes for `data`.
pub uninterp spec fn sha256(data: Seq<u8>) -> Seq<u8>;

/// `Sha256::digest` of the `sha2` crate. Claimed of the crate: the digest is
/// a function of the data (named [`sha256`]) and is 32 bytes long.
#[verifier::external_body]
fn sha256_digest(data: &[u8]) -> (r: [u8; 32])
    ensures
        r@ == sha256(data@),
{
    Sha256::digest(data).into()
}

/// Lower-case hexadecimal text of `bytes`, two digits per byte, high digit
/// first: what `{:x}` prints for a digest.
pub open spec fn hex_text(bytes: Seq<u8>) -> Seq<char>
    decreases bytes.len(),
{
    if bytes.len() == 0 {
        Seq::empty()
    } else {
        hex_text(bytes.drop_last()) + seq![
            hex_digit((bytes.last() / 16) as nat) as char,
            hex_digit((bytes.last() % 16) as nat) as char,
        ]
    }
}

/// The one-character string of a hexadecimal digit.
fn hex_digit_str(v: u8) -> (r: &'static str)
    requires
        v < 16,
    ensures
        r@ == seq![hex_digit(v as nat) as char],
{
    match v {
        0 => {
            proof {
                reveal_strlit("0");
            }
            "0"
        },
        1 => {
            proof {
                reveal_strlit("1");
            }
            "1"
        },
        2 => {
            proof {
                reveal_strlit("2");
            }
            "2"
        },
        3 => {
            proof {
                reveal_strlit("3");
            }
            "3"
        },
        4 => {
            proof {
                reveal_strlit("4");
            }
            "4"
        },
        5 => {
            proof {
                reveal_strlit("5");
            }
            "5"
        },
        6 => {
            proof {
                reveal_strlit("6");
            }
            "6"
        },
        7 => {
            proof {
                reveal_strlit("7");
            }
            "7"
        },
        8 => {
            proof {
                reveal_strlit("8");
            }
            "8"
        },
        9 => {
            proof {
                reveal_strlit("9");
            }
            "9"
        },
        10 => {
            proof {
                reveal_strlit("a");
            }
            "a"
        },
        11 => {
            proof {
                reveal_strlit("b");
            }
            "b"
        },
        12 => {
            proof {
                reveal_strlit("c");
            }
            "c"
        },
        13 => {
            proof {
                reveal_strlit("d");
            }
            "d"
        },
        14 => {
            proof {
                reveal_strlit("e");
            }
            "e"
        },
        _ => {
            proof {
                reveal_strlit("f");
            }
            "f"
        },
    }
}

/// Lower-case hexadecimal text of `bytes`.
pub fn hex_string(bytes: &[u8]) -> (r: String)
    ensures
        r@ == hex_text(bytes@),
{
    let mut r = String::new();
    let n = bytes.len();
    for i in 0..n
        invariant
            n == bytes@.len(),
            r@ == hex_text(bytes@.take(i as int)),
    {
        let b = bytes[i];
        let hi = hex_digit_str(b / 16);
        let lo = hex_digit_str(b % 16);
        r = r.concat(hi).concat(lo);
        proof {
            assert(bytes@.take(i + 1).drop_last() =~= bytes@.take(i as int));
            assert(bytes@.take(i + 1).last() == b);
            assert(r@ =~= hex_text(bytes@.take(i + 1)));
        }
    }
    proof {
        assert(bytes@.take(n as int) =~= bytes@);
    }
    r
}

/// The lower-case hexadecimal SHA-256 digest of a text's UTF-8 encoding.
pub fn sha256_hex(input: &str) -> (r: String)
    ensures
        r@ == hex_text(sha256(utf8(input@))),
{
    let digest = sha256_digest(input.as_bytes());
    hex_string(digest.as_slice())
}

/// Whether a clear scheduled for the copy numbered `scheduled_generation`
/// applies: no later copy has been made (the current number is still the
/// scheduled one) and the clipboard, which could be read, still holds the
/// text whose digest is `expected_hash`.
pub fn should_clear_clipboard(
    current_generation: u64,
    scheduled_generation: u64,
    current_text: Option<&str>,
    expected_hash: &str,
) -> (r: bool)
    ensures
        r == (current_generation == scheduled_generation && current_text is Some && hex_text(
            sha256(utf8(current_text->Some_0@)),
        ) == expected_hash@),
{
    if current_generation != scheduled_generation {
        return false;
    }
    match current_text {
        None => false,
        Some(text) => {
            let digest = sha256_hex(text);
            let expected = String::from_str(expected_hash);
            digest == expected
        },
    }
}

} // verus!
