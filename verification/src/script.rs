//! Output scripts: the two kinds that the opener tells apart, and their hexadecimal text.

use bitcoin::hex::FromHex;
use bitcoin::Script;
use crate::text::{hex_char, lower_hex};
use vstd::prelude::*;

verus! {

/// Whether a script pays to a version 0 witness program of `len` bytes: the version, the push of
/// `len` bytes, and that many bytes.
pub open spec fn is_v0_program(script: Seq<u8>, len: int) -> bool {
    script.len() == len + 2 && script[0] == 0 && script[1] == len
}

/// `bitcoin::Script::is_p2wsh`.
///
/// Trusted: it holds exactly of a version 0 witness program of 32 bytes.
#[verifier::external_body]
pub(crate) fn is_p2wsh(script: &[u8]) -> (yes: bool)
    ensures
        yes == is_v0_program(script@, 32),
{
    Script::from_bytes(script).is_p2wsh()
}

/// `bitcoin::Script::is_p2wpkh`.
///
/// Trusted: it holds exactly of a version 0 witness program of 20 bytes.
#[verifier::external_body]
pub(crate) fn is_p2wpkh(script: &[u8]) -> (yes: bool)
    ensures
        yes == is_v0_program(script@, 20),
{
    Script::from_bytes(script).is_p2wpkh()
}

/// Whether `c` is a hexadecimal digit of either case.
pub open spec fn is_hex_digit(c: char) -> bool {
    '0' <= c <= '9' || 'a' <= c <= 'f' || 'A' <= c <= 'F'
}

/// What a hexadecimal digit counts for.
pub open spec fn hex_digit_value(c: char) -> int {
    if c <= '9' {
        c as int - '0' as int
    } else if c <= 'F' {
        c as int - 'A' as int + 10
    } else {
        c as int - 'a' as int + 10
    }
}

/// Whether a text is made of pairs of hexadecimal digits.
pub open spec fn is_hex(text: Seq<char>) -> bool {
    text.len() % 2 == 0 && forall|i: int| 0 <= i < text.len() ==> is_hex_digit(#[trigger] text[i])
}

/// The bytes that pairs of hexadecimal digits write.
pub open spec fn hex_bytes(text: Seq<char>) -> Seq<u8> {
    Seq::new(
        text.len() / 2,
        |i: int| (16 * hex_digit_value(text[2 * i]) + hex_digit_value(text[2 * i + 1])) as u8,
    )
}

/// `FromHex::from_hex` of `bitcoin::hex`, for a vector of bytes.
///
/// Trusted: it succeeds exactly on pairs of hexadecimal digits of either case, and returns the
/// bytes that they write.
#[verifier::external_body]
pub(crate) fn from_hex(text: &str) -> (bytes: Option<Vec<u8>>)
    ensures
        match bytes {
            Some(bytes) => is_hex(text@) && bytes@ == hex_bytes(text@),
            None => !is_hex(text@),
        },
{
    Vec::<u8>::from_hex(text).ok()
}

/// Whether two scripts are the same bytes.
pub fn same_bytes(left: &Vec<u8>, right: &Vec<u8>) -> (same: bool)
    ensures
        same == (left@ == right@),
{
    if left.len() != right.len() {
        return false;
    }
    let mut i: usize = 0;
    while i < left.len()
        invariant
            i <= left.len(),
            left.len() == right.len(),
            forall|j: int| 0 <= j < i ==> left[j] == right[j],
        decreases left.len() - i,
    {
        if left[i] != right[i] {
            assert(left@[i as int] != right@[i as int]);
            return false;
        }
        i = i + 1;
    }
    assert(left@ =~= right@);
    true
}

/// Bytes that are written in lower-case hexadecimal are read back as themselves.
pub proof fn law_hex_is_read_back(bytes: Seq<u8>)
    ensures
        is_hex(lower_hex(bytes)),
        hex_bytes(lower_hex(bytes)) == bytes,
{
    let text = lower_hex(bytes);
    assert forall|i: int| 0 <= i < text.len() implies is_hex_digit(#[trigger] text[i]) by {
        assert(0 <= bytes[i / 2] as int / 16 < 16);
    }
    assert forall|i: int| 0 <= i < bytes.len() implies #[trigger] hex_bytes(text)[i] == bytes[i] by {
        assert((2 * i) / 2 == i && (2 * i + 1) / 2 == i);
        assert((2 * i) % 2 == 0 && (2 * i + 1) % 2 == 1);
        let high = bytes[i] as int / 16;
        let low = bytes[i] as int % 16;
        assert(hex_digit_value(hex_char(high)) == high);
        assert(hex_digit_value(hex_char(low)) == low);
    }
    assert(hex_bytes(text) =~= bytes);
}

/// Digits of either case count from zero to fifteen, and nothing else is a digit.
pub proof fn law_hex_digits(c: char)
    ensures
        '0' <= c <= '9' ==> is_hex_digit(c) && hex_digit_value(c) == c as int - 48,
        'a' <= c <= 'f' ==> is_hex_digit(c) && hex_digit_value(c) == c as int - 87,
        'A' <= c <= 'F' ==> is_hex_digit(c) && hex_digit_value(c) == c as int - 55,
        is_hex_digit(c) ==> 0 <= hex_digit_value(c) <= 15,
        c < '0' || '9' < c < 'A' || 'F' < c < 'a' || 'f' < c ==> !is_hex_digit(c),
{
}

/// Two digits write a byte, the high one first; a text that cannot be parted into such pairs is no
/// hexadecimal text.
pub proof fn law_pairs_of_digits_are_bytes(text: Seq<char>, i: int)
    ensures
        text.len() % 2 == 1 ==> !is_hex(text),
        0 <= i < text.len() && !is_hex_digit(text[i]) ==> !is_hex(text),
        is_hex(text) ==> hex_bytes(text).len() * 2 == text.len(),
        is_hex(text) && 0 <= i < text.len() / 2 ==> hex_bytes(text)[i] as int == 16
            * hex_digit_value(text[2 * i]) + hex_digit_value(text[2 * i + 1]),
{
    if is_hex(text) && 0 <= i < text.len() / 2 {
        assert(is_hex_digit(text[2 * i]) && is_hex_digit(text[2 * i + 1]));
    }
}

/// A witness program of version 0 is the byte 0, its length, and as many bytes.
pub proof fn law_programs(hash: Seq<u8>, script: Seq<u8>)
    ensures
        hash.len() == 20 ==> is_v0_program(seq![0u8, 20u8] + hash, 20),
        hash.len() == 32 ==> is_v0_program(seq![0u8, 32u8] + hash, 32),
        is_v0_program(script, 20) ==> script.len() == 22 && script[0] == 0 && script[1] == 20,
        is_v0_program(script, 32) ==> script.len() == 34 && script[0] == 0 && script[1] == 32,
{
}

} // verus!
