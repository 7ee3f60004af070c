//! Single-bit access on bytes and words.

use vstd::prelude::*;

verus! {

/// Whether bit `bit` of `value` is set.
pub open spec fn bit_of_u8(value: u8, bit: u8) -> bool {
    (value >> bit) & 1 == 1
}

/// Whether bit `bit` of `value` is set.
pub open spec fn bit_of_u16(value: u16, bit: u16) -> bool {
    (value >> bit) & 1 == 1
}

/// `value` with bit `bit` set to `on` and every other bit kept.
pub open spec fn with_bit_u8(value: u8, bit: u8, on: bool) -> u8 {
    if on {
        value | (1u8 << bit)
    } else {
        value & !(1u8 << bit)
    }
}

/// `value` with bit `bit` set to `on` and every other bit kept.
pub open spec fn with_bit_u16(value: u16, bit: u16, on: bool) -> u16 {
    if on {
        value | (1u16 << bit)
    } else {
        value & !(1u16 << bit)
    }
}

/// Facts about the bits of a byte: setting one bit sets it and keeps the
/// others (by index or by mask), bit 7 is the sign, and shifting by one
/// doubles or halves (with the carry bit shifted in for the rotations).
pub proof fn lemma_byte_bits(v: u8, b: u8, on: bool, b2: u8, m1: u8, m2: u8)
    by (bit_vector)
    ensures
        b < 8 ==> bit_of_u8(with_bit_u8(v, b, on), b) == on,
        (b < 8 && b2 < 8 && b != b2) ==> bit_of_u8(with_bit_u8(v, b, on), b2) == bit_of_u8(v, b2),
        m1 != 0 ==> (v | m1) & m1 != 0,
        (v & !m1) & m1 == 0,
        m1 & m2 == 0 ==> (((v | m1) & m2 != 0) == (v & m2 != 0)),
        m1 & m2 == 0 ==> ((((v & !m1) & m2) != 0) == (v & m2 != 0)),
        (v & 0x80 != 0) == (v >= 0x80),
        (0x40 & v != 0) == ((v / 64) % 2 == 1),
        (v & 0x01 != 0) == (v % 2 == 1),
        v << 1u8 == ((v * 2) % 256) as u8,
        v >> 1u8 == v / 2,
        (((v as u16) << 1u16) & 0xff) as u8 == ((v * 2) % 256) as u8,
        ((((v as u16) << 1u16) | 0x01) & 0xff) as u8 == ((v * 2 + 1) % 256) as u8,
        (((v as u16) << 1u16) > 0xff) == (v >= 0x80),
        ((((v as u16) << 1u16) | 0x01) > 0xff) == (v >= 0x80),
        ((((v as u16) >> 1u16) & 0xff) as u8) == v / 2,
        (((((v as u16) | 0x100) >> 1u16) & 0xff) as u8) == (v / 2 + 0x80) as u8,
        ((v as u16) & 0x01 != 0) == (v % 2 == 1),
        (((v as u16) | 0x100) & 0x01 != 0) == (v % 2 == 1),
{
}

/// Reads bit `bit` of a byte.
pub fn get_bit_u8(value: u8, bit: usize) -> (r: bool)
    requires
        bit < 8,
    ensures
        r == bit_of_u8(value, bit as u8),
{
    let b = bit as u8;
    (value >> b) & 1 == 1
}

/// Writes bit `bit` of a byte.
pub fn set_bit_u8(value: u8, bit: usize, on: bool) -> (r: u8)
    requires
        bit < 8,
    ensures
        r == with_bit_u8(value, bit as u8, on),
        bit_of_u8(r, bit as u8) == on,
        forall|i: u8| i < 8 && i != bit ==> bit_of_u8(r, i) == bit_of_u8(value, i),
{
    let b = bit as u8;
    let r = if on {
        value | (1u8 << b)
    } else {
        value & !(1u8 << b)
    };
    assert(bit_of_u8(r, b) == on) by (bit_vector)
        requires
            b < 8,
            r == (if on { value | (1u8 << b) } else { value & !(1u8 << b) }),
    ;
    assert forall|i: u8| i < 8 && i != bit implies bit_of_u8(r, i) == bit_of_u8(value, i) by {
        let j = i;
        assert(((r >> j) & 1 == 1) == ((value >> j) & 1 == 1)) by (bit_vector)
            requires
                b < 8,
                j < 8,
                j != b,
                r == (if on { value | (1u8 << b) } else { value & !(1u8 << b) }),
        ;
    }
    r
}

/// Reads bit `bit` of a word.
pub fn get_bit_u16(value: u16, bit: usize) -> (r: bool)
    requires
        bit < 16,
    ensures
        r == bit_of_u16(value, bit as u16),
{
    let b = bit as u16;
    (value >> b) & 1 == 1
}

/// Writes bit `bit` of a word.
pub fn set_bit_u16(value: u16, bit: usize, on: bool) -> (r: u16)
    requires
        bit < 16,
    ensures
        r == with_bit_u16(value, bit as u16, on),
        bit_of_u16(r, bit as u16) == on,
        forall|i: u16| i < 16 && i != bit ==> bit_of_u16(r, i) == bit_of_u16(value, i),
{
    let b = bit as u16;
    let r = if on {
        value | (1u16 << b)
    } else {
        value & !(1u16 << b)
    };
    assert(bit_of_u16(r, b) == on) by (bit_vector)
        requires
            b < 16,
            r == (if on { value | (1u16 << b) } else { value & !(1u16 << b) }),
    ;
    assert forall|i: u16| i < 16 && i != bit implies bit_of_u16(r, i) == bit_of_u16(value, i) by {
        let j = i;
        assert(((r >> j) & 1 == 1) == ((value >> j) & 1 == 1)) by (bit_vector)
            requires
                b < 16,
                j < 16,
                j != b,
                r == (if on { value | (1u16 << b) } else { value & !(1u16 << b) }),
        ;
    }
    r
}

} // verus!
