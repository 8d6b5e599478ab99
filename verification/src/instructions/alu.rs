//! Arithmetic on bytes, as the instructions need it: two's-complement
//! reading of a byte, and the one-bit shifts and rotations.

use vstd::prelude::*;

verus! {

/// The value of `byte` read as a two's-complement number, `-128..=127`.
pub open spec fn signed(byte: u8) -> i8 {
    if byte < 128 {
        byte as i8
    } else {
        (byte - 256) as i8
    }
}

/// The byte that stands for `value` in two's complement.
pub open spec fn unsigned(value: i8) -> u8 {
    if value >= 0 {
        value as u8
    } else {
        (value + 256) as u8
    }
}

/// `byte` shifted left by one bit; the top bit is lost.
pub open spec fn shifted_left(byte: u8) -> u8 {
    ((byte * 2) % 256) as u8
}

/// `byte` shifted right by one bit; the bottom bit is lost.
pub open spec fn shifted_right(byte: u8) -> u8 {
    byte / 2
}

/// `byte` rotated left by one bit: the top bit comes back in at the bottom.
pub open spec fn rotated_left(byte: u8) -> u8 {
    ((byte * 2) % 256 + byte / 128) as u8
}

/// `byte` rotated right by one bit: the bottom bit comes back in at the top.
pub open spec fn rotated_right(byte: u8) -> u8 {
    (byte / 2 + (byte % 2) * 128) as u8
}

/// Reads a byte as a two's-complement number.
pub fn to_signed(byte: u8) -> (value: i8)
    ensures
        value == signed(byte),
{
    if byte < 128 {
        byte as i8
    } else {
        (byte as i16 - 256) as i8
    }
}

/// The byte that stands for a two's-complement number.
pub fn from_signed(value: i8) -> (byte: u8)
    ensures
        byte == unsigned(value),
{
    if value >= 0 {
        value as u8
    } else {
        (value as i16 + 256) as u8
    }
}

/// Shifts a byte left by one bit.
pub fn shift_left(byte: u8) -> (shifted: u8)
    ensures
        shifted == shifted_left(byte),
{
    (byte % 128) * 2
}

/// Shifts a byte right by one bit.
pub fn shift_right(byte: u8) -> (shifted: u8)
    ensures
        shifted == shifted_right(byte),
{
    byte / 2
}

/// Rotates a byte left by one bit.
pub fn rotate_left(byte: u8) -> (rotated: u8)
    ensures
        rotated == rotated_left(byte),
{
    (byte % 128) * 2 + byte / 128
}

/// Rotates a byte right by one bit.
pub fn rotate_right(byte: u8) -> (rotated: u8)
    ensures
        rotated == rotated_right(byte),
{
    byte / 2 + (byte % 2) * 128
}

/// The two readings of a byte are inverse to each other.
pub proof fn lemma_signed_unsigned(byte: u8, value: i8)
    ensures
        unsigned(signed(byte)) == byte,
        signed(unsigned(value)) == value,
        signed(byte) == if byte < 128 {
            byte as int
        } else {
            byte - 256
        },
{
}

/// Rotating left and then right, or right and then left, gives the byte
/// back.
pub proof fn lemma_rotations_inverse(byte: u8)
    ensures
        rotated_right(rotated_left(byte)) == byte,
        rotated_left(rotated_right(byte)) == byte,
{
}

} // verus!
