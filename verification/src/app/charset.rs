//! Conversion of Commodore character codes to ASCII.

use vstd::prelude::*;

verus! {

/// The ASCII character shown for a PETSCII code, or 0 where there is none:
/// digits and punctuation map to themselves, the two letter blocks swap
/// case, shifted space becomes space and the vertical bar graphics become `|`.
pub open spec fn petscii_ascii(code: u8) -> u8 {
    if code < 32 {
        0
    } else if code <= 64 {
        code
    } else if code <= 90 {
        (code + 32) as u8
    } else if code == 91 || code == 93 || code == 94 {
        code
    } else if code <= 96 {
        0
    } else if code <= 122 {
        (code - 32) as u8
    } else if code == 125 {
        124
    } else if code < 160 {
        0
    } else if code == 160 {
        32
    } else if 193 <= code <= 218 {
        (code - 128) as u8
    } else if code == 221 {
        124
    } else {
        0
    }
}

/// The ASCII character shown for a screen code, or 0 where there is none:
/// 0 is `@`, 1 to 31 are the lower-case letters, 32 to 90 map to themselves.
pub open spec fn screen_ascii(code: u8) -> u8 {
    if code == 0 {
        64
    } else if code <= 31 {
        (96 + code) as u8
    } else if code <= 90 {
        code
    } else {
        0
    }
}

/// Converts a PETSCII code to ASCII.
pub fn pet_to_ascii(code: u8) -> (r: u8)
    ensures
        r == petscii_ascii(code),
{
    if code < 32 {
        0
    } else if code <= 64 {
        code
    } else if code <= 90 {
        code + 32
    } else if code == 91 || code == 93 || code == 94 {
        code
    } else if code <= 96 {
        0
    } else if code <= 122 {
        code - 32
    } else if code == 125 {
        124
    } else if code < 160 {
        0
    } else if code == 160 {
        32
    } else if 193 <= code && code <= 218 {
        code - 128
    } else if code == 221 {
        124
    } else {
        0
    }
}

/// Converts a screen code to ASCII.
pub fn screen_code_to_ascii(code: u8) -> (r: u8)
    ensures
        r == screen_ascii(code),
{
    if code == 0 {
        64
    } else if code <= 31 {
        96 + code
    } else if code <= 90 {
        code
    } else {
        0
    }
}

} // verus!
