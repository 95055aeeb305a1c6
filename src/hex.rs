use vstd::prelude::*;

use crate::error::ParseError;

verus! {

/// The ASCII character of the hexadecimal digit `n` (`0-9a-f`), for `0 <= n < 16`.
pub open spec fn hex_digit(n: int) -> u8 {
    if n < 10 {
        (48 + n) as u8
    } else {
        (87 + n) as u8
    }
}

/// The nibble of `byt` that `idx` selects: the high one for `1`, the low one for `0`.
pub open spec fn nibble(byt: u8, idx: int) -> int {
    if idx == 1 {
        byt as int / 16
    } else {
        byt as int % 16
    }
}

/// Returns the lowercase ASCII hex digit of the high (`idx == 1`) or low (`idx == 0`)
/// nibble of `byt`.
pub fn byte_to_hex(byt: u8, idx: usize) -> (r: u8)
    requires
        idx <= 1,
    ensures
        r == hex_digit(nibble(byt, idx as int)),
{
    let n: u8 = if idx == 1 {
        byt / 16
    } else {
        byt % 16
    };
    if n < 10 {
        48 + n
    } else {
        87 + n
    }
}

/// Whether `c` is an ASCII hex digit, in either case.
pub open spec fn is_hex_char(c: u8) -> bool {
    (48 <= c && c <= 57) || (97 <= c && c <= 102) || (65 <= c && c <= 70)
}

/// The value of the hex digit `c`.
pub open spec fn hex_char_value(c: u8) -> int {
    if c <= 57 {
        c - 48
    } else if c >= 97 {
        c - 87
    } else {
        c - 55
    }
}

/// Decoding the two characters at `cursor` and `cursor + 1` into one byte: the left one is
/// checked first, and an invalid one is reported with its position.
pub open spec fn hex_pair(s: Seq<u8>, cursor: int) -> Result<u8, ParseError> {
    if !is_hex_char(s[cursor]) {
        Err(ParseError::InvalidByte(s[cursor], cursor as usize))
    } else if !is_hex_char(s[cursor + 1]) {
        Err(ParseError::InvalidByte(s[cursor + 1], (cursor + 1) as usize))
    } else {
        Ok((hex_char_value(s[cursor]) * 16 + hex_char_value(s[cursor + 1])) as u8)
    }
}

fn hex_char_to_nibble(chr: u8) -> (r: Option<u8>)
    ensures
        r == (if is_hex_char(chr) {
            Some(hex_char_value(chr) as u8)
        } else {
            None
        }),
        r matches Some(v) ==> v < 16,
{
    if 48 <= chr && chr <= 57 {
        Some(chr - 48)
    } else if 97 <= chr && chr <= 102 {
        Some(chr - 87)
    } else if 65 <= chr && chr <= 70 {
        Some(chr - 55)
    } else {
        None
    }
}

/// Decodes the two ASCII hex characters at `cursor` and `cursor + 1` of `hex` into one byte.
pub fn hex_to_byte(hex: &[u8], cursor: usize) -> (r: Result<u8, ParseError>)
    requires
        cursor + 1 < hex@.len(),
    ensures
        r == hex_pair(hex@, cursor as int),
{
    let left = match hex_char_to_nibble(hex[cursor]) {
        Some(v) => v,
        None => return Err(ParseError::InvalidByte(hex[cursor], cursor)),
    };
    let right = match hex_char_to_nibble(hex[cursor + 1]) {
        Some(v) => v,
        None => return Err(ParseError::InvalidByte(hex[cursor + 1], cursor + 1)),
    };
    Ok(left * 16 + right)
}

} // verus!
