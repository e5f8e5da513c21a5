//! Bytes as hexadecimal text.

use vstd::prelude::*;
use vstd::string::StringExecFns;
use crate::text::{chars_of, string_of};

verus! {

/// The hexadecimal digit for a number below 16, letters in lower case.
pub open spec fn hex_digit(n: nat) -> char {
    if n < 10 {
        (('0' as u8) + n as u8) as char
    } else {
        (('a' as u8) + (n - 10) as u8) as char
    }
}

/// The text of a byte string in hexadecimal: two digits for each byte, the
/// high one first, letters in lower case.
pub open spec fn hex_text(bytes: Seq<u8>) -> Seq<char>
    decreases bytes.len(),
{
    if bytes.len() == 0 {
        Seq::empty()
    } else {
        hex_text(bytes.drop_last()).push(hex_digit(bytes.last() as nat / 16)).push(
            hex_digit(bytes.last() as nat % 16),
        )
    }
}

/// Calls `hex::encode`, which writes each byte as two hexadecimal digits,
/// the high one first, letters in lower case.
#[verifier::external_body]
pub(crate) fn hex_encode(data: &[u8]) -> (r: String)
    ensures
        r@ == hex_text(data@),
{
    hex::encode(data)
}

/// `0x` and the text of `data` in hexadecimal.
pub fn prefixed_hex(data: &[u8]) -> (r: String)
    ensures
        r@ == seq!['0', 'x'] + hex_text(data@),
{
    proof {
        reveal_strlit("0x");
    }
    let mut out = "0x".to_owned();
    let digits = hex_encode(data);
    out.append(digits.as_str());
    assert(out@ =~= seq!['0', 'x'] + hex_text(data@));
    out
}

/// The number that a hexadecimal digit stands for, letters in either case;
/// nothing for any other character.
pub open spec fn hex_value(c: char) -> Option<nat> {
    if '0' <= c <= '9' {
        Some((c as nat - '0' as nat) as nat)
    } else if 'a' <= c <= 'f' {
        Some((c as nat - 'a' as nat + 10) as nat)
    } else if 'A' <= c <= 'F' {
        Some((c as nat - 'A' as nat + 10) as nat)
    } else {
        None
    }
}

/// The bytes that a text of hexadecimal digits stands for, two digits to
/// the byte, the high one first; nothing for a text of odd length and for
/// one that holds another character.
pub open spec fn hex_decoded(text: Seq<char>) -> Option<Seq<u8>>
    decreases text.len(),
{
    if text.len() == 0 {
        Some(Seq::empty())
    } else if text.len() % 2 != 0 {
        None
    } else {
        match (
            hex_decoded(text.subrange(0, text.len() - 2)),
            hex_value(text[text.len() - 2]),
            hex_value(text[text.len() - 1]),
        ) {
            (Some(front), Some(high), Some(low)) => Some(front.push((16 * high + low) as u8)),
            _ => None,
        }
    }
}

/// Calls `hex::decode`, which reads two hexadecimal digits to the byte,
/// letters in either case, and fails on a text of odd length and on any
/// other character.
#[verifier::external_body]
pub(crate) fn hex_decode(text: &str) -> (r: Option<Vec<u8>>)
    ensures
        r.is_some() == hex_decoded(text@).is_some(),
        r.is_some() ==> r.unwrap()@ == hex_decoded(text@).unwrap(),
{
    hex::decode(text).ok()
}

/// The bytes that `text` stands for once its first two characters, which
/// are meant to be `0x`, are taken off; nothing for a text of fewer than
/// two characters and for one whose digits stand for no bytes.
pub fn unprefixed_bytes(text: &str) -> (r: Option<Vec<u8>>)
    ensures
        r.is_some() == (text@.len() >= 2 && hex_decoded(
            text@.subrange(2, text@.len() as int),
        ).is_some()),
        r.is_some() ==> r.unwrap()@ == hex_decoded(text@.subrange(2, text@.len() as int)).unwrap(),
{
    let chars = chars_of(text);
    if chars.len() < 2 {
        return None;
    }
    let digits = string_of(&chars, 2, chars.len());
    hex_decode(digits.as_str())
}

} // verus!
