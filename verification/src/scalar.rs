use vstd::prelude::*;

verus! {

/// A real number in IEEE 754 binary64 form, held by its bit pattern.
///
/// The library only places such numbers into documents; it never computes
/// with them, so their encoding is all it needs.
#[derive(Clone, Copy, Debug, PartialEq, Eq, Structural)]
pub struct Scalar(pub u64);

/// Encoding of zero.
pub const ZERO_BITS: u64 = 0x0000_0000_0000_0000;

/// Encoding of one.
pub const ONE_BITS: u64 = 0x3ff0_0000_0000_0000;

/// Encoding of one and a half.
pub const ONE_AND_HALF_BITS: u64 = 0x3ff8_0000_0000_0000;

/// Encoding of two.
pub const TWO_BITS: u64 = 0x4000_0000_0000_0000;

/// Encoding of eight.
pub const EIGHT_BITS: u64 = 0x4020_0000_0000_0000;

/// Encoding of thirty.
pub const THIRTY_BITS: u64 = 0x403e_0000_0000_0000;

/// Encoding of sixty.
pub const SIXTY_BITS: u64 = 0x404e_0000_0000_0000;

/// Encoding of five thousand four hundred (ninety minutes in seconds).
pub const NINETY_MINUTES_S_BITS: u64 = 0x40b5_1800_0000_0000;

} // verus!
