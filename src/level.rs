//! Volume levels, carried as the bit pattern of an IEEE-754 single.
use vstd::prelude::*;

verus! {

/// The sign bit of a single-precision bit pattern.
pub const SIGN_BIT: u32 = 0x8000_0000;

/// The bit pattern of positive infinity; every pattern above it, with the
/// sign bit clear, is a NaN.
pub const POSITIVE_INFINITY_BITS: u32 = 0x7F80_0000;

/// The bit pattern of 0.3, the highest normalized level the monitor ever
/// writes to a device: a guard against an accidental full-volume request.
pub const MAX_LEVEL_BITS: u32 = 0x3E99_999A;

/// Whether a bit pattern encodes a NaN, whatever its sign.
pub open spec fn is_nan_bits(bits: u32) -> bool {
    bits % SIGN_BIT > POSITIVE_INFINITY_BITS
}

/// Whether a bit pattern has its sign bit set: a negative number or a
/// negative zero.
pub open spec fn sign_set(bits: u32) -> bool {
    bits >= SIGN_BIT
}

/// Whether a bit pattern encodes a number in `[0, 0.3]`. Between two patterns
/// whose sign bit is clear, the numeric order is the order of the patterns.
pub open spec fn within_bounds(bits: u32) -> bool {
    bits <= MAX_LEVEL_BITS
}

/// The level written for a requested level: negative requests (and a
/// negative zero) become zero, requests above the ceiling become the ceiling,
/// the rest are kept.
pub open spec fn clamped_bits(bits: u32) -> u32 {
    if sign_set(bits) {
        0
    } else if bits > MAX_LEVEL_BITS {
        MAX_LEVEL_BITS
    } else {
        bits
    }
}

/// A normalized volume level, as the exact bit pattern of the single-precision
/// value the platform reports or accepts.
#[derive(Clone, Copy, Debug, PartialEq, Eq, Structural)]
pub struct Level {
    pub bits: u32,
}

impl Level {
    pub fn from_bits(bits: u32) -> (r: Level)
        ensures
            r.bits == bits,
    {
        Level { bits }
    }

    pub fn to_bits(&self) -> (r: u32)
        ensures
            r == self.bits,
    {
        self.bits
    }

    /// Whether the level is a number (not a NaN).
    pub fn is_number(&self) -> (r: bool)
        ensures
            r == !is_nan_bits(self.bits),
    {
        self.bits % SIGN_BIT <= POSITIVE_INFINITY_BITS
    }
}

/// The level that a request for `requested` writes to the device.
pub fn clamp_level(requested: Level) -> (r: Level)
    requires
        !is_nan_bits(requested.bits),
    ensures
        r.bits == clamped_bits(requested.bits),
        within_bounds(r.bits),
{
    if requested.bits >= SIGN_BIT {
        Level { bits: 0 }
    } else if requested.bits > MAX_LEVEL_BITS {
        Level { bits: MAX_LEVEL_BITS }
    } else {
        requested
    }
}

/// Every number requested ends up within `[0, MAX_LEVEL]`: numbers above the
/// ceiling saturate to the ceiling, numbers below zero saturate to zero, and
/// the numbers in between are written unchanged.
pub proof fn lemma_clamp_saturates(bits: u32)
    requires
        !is_nan_bits(bits),
    ensures
        within_bounds(clamped_bits(bits)),
        !sign_set(clamped_bits(bits)),
        !sign_set(bits) && bits > MAX_LEVEL_BITS ==> clamped_bits(bits) == MAX_LEVEL_BITS,
        sign_set(bits) ==> clamped_bits(bits) == 0,
        !sign_set(bits) && within_bounds(bits) ==> clamped_bits(bits) == bits,
{
}

} // verus!
