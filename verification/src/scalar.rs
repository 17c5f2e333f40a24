//! The scalar type of the catalogue: complex numbers held bit for bit.

use vstd::prelude::*;

verus! {

/// Bit pattern of binary32 `0.0`.
pub const B_ZERO: u32 = 0x0000_0000;

/// Bit pattern of binary32 `1.0`.
pub const B_ONE: u32 = 0x3F80_0000;

/// Bit pattern of binary32 `-1.0`.
pub const B_NEG_ONE: u32 = 0xBF80_0000;

/// Bit pattern of the binary32 value nearest 1/√2.
pub const B_FRAC_1_SQRT_2: u32 = 0x3F35_04F3;

/// Bit pattern of the binary32 value nearest -1/√2.
pub const B_NEG_FRAC_1_SQRT_2: u32 = 0xBF35_04F3;

/// A complex scalar: real and imaginary part, each held as an IEEE-754
/// binary32 bit pattern. Two scalars are equal exactly when their bit
/// patterns are, so comparisons are free of rounding questions.
#[derive(Clone, Copy, PartialEq, Eq, Structural, Debug)]
#[verifier::ext_equal]
pub struct C32 {
    /// Bit pattern of the real part.
    pub re: u32,
    /// Bit pattern of the imaginary part.
    pub im: u32,
}

} // verus!
