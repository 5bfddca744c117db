//! The transform byte of an articulator: a curve in the low four bits and
//! flags in the high four bits.

use vstd::prelude::*;

verus! {

pub const LINEAR: u8 = 0x0;

pub const CONCAVE: u8 = 0x1;

pub const CONVEX: u8 = 0x2;

pub const SWITCH: u8 = 0x3;

/// The flag that asks for an inversion.
pub const INVERTED: u8 = 0x10;

/// The flag that asks for a spread over both sides of zero.
pub const BIPOLAR: u8 = 0x20;

/// The low four bits of a transform byte.
pub open spec fn curve_bits(transform: u8) -> int {
    transform as int % 16
}

/// Whether the inverted flag of a transform byte is set, whatever its other
/// bits are.
pub open spec fn inverted_flag(transform: u8) -> bool {
    (transform as int / 16) % 2 == 1
}

/// Whether the bipolar flag of a transform byte is set, whatever its other
/// bits are.
pub open spec fn bipolar_flag(transform: u8) -> bool {
    (transform as int / 32) % 2 == 1
}

/// Whether the inverted flag of `transform` is set.
pub fn is_inverted(transform: u8) -> (res: bool)
    ensures
        res == ((transform as int / 16) % 2 == 1),
        res == inverted_flag(transform),
{
    assert(((transform & 0x10) != 0) == ((transform / 16) % 2 == 1)) by (bit_vector);
    (transform & INVERTED) != 0
}

/// Whether the bipolar flag of `transform` is set.
pub fn is_bipolar(transform: u8) -> (res: bool)
    ensures
        res == ((transform as int / 32) % 2 == 1),
        res == bipolar_flag(transform),
{
    assert(((transform & 0x20) != 0) == ((transform / 32) % 2 == 1)) by (bit_vector);
    (transform & BIPOLAR) != 0
}

/// The curve of a transform byte.
pub fn curve(transform: u8) -> (res: u8)
    ensures
        res == curve_bits(transform),
        res <= 0x0f,
{
    assert((transform & 0x0f) == transform % 16) by (bit_vector);
    transform & 0x0f
}

/// The two flags and the curve are independent of each other: setting or
/// clearing one flag leaves the other flag and the curve as they are.
pub proof fn lemma_flags_are_independent(transform: u8)
    requires
        !inverted_flag(transform),
        !bipolar_flag(transform),
        transform < 0x40,
    ensures
        inverted_flag((transform + INVERTED) as u8),
        !bipolar_flag((transform + INVERTED) as u8),
        bipolar_flag((transform + BIPOLAR) as u8),
        !inverted_flag((transform + BIPOLAR) as u8),
        inverted_flag((transform + INVERTED + BIPOLAR) as u8),
        bipolar_flag((transform + INVERTED + BIPOLAR) as u8),
        curve_bits((transform + INVERTED) as u8) == curve_bits(transform),
        curve_bits((transform + BIPOLAR) as u8) == curve_bits(transform),
        curve_bits((transform + INVERTED + BIPOLAR) as u8) == curve_bits(transform),
{
}

} // verus!
