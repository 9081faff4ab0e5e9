//! Real-valued statistics, held by their IEEE 754 binary64 bit patterns.
//!
//! The library never computes with these values. It carries them, and it
//! compares two of them the way the binary64 format orders them.

use vstd::prelude::*;

verus! {

/// The bit that holds the sign.
pub const SIGN_BIT: u64 = 0x8000_0000_0000_0000;

/// The magnitude of infinity: every larger magnitude is not a number.
pub const INFINITY_MAGNITUDE: u64 = 0x7ff0_0000_0000_0000;

/// The bit pattern of 999, which stands in for a missing rating deviation.
pub const MISSING_DEVIATION_BITS: u64 = 0x408f_3800_0000_0000;

/// A binary64 value as its 64 bits: sign, eleven bits of exponent, fifty-two
/// bits of fraction.
#[derive(Clone, Copy, Debug, PartialEq, Eq, Structural, Hash)]
pub struct Measure {
    pub bits: u64,
}

impl Measure {
    /// The bits without the sign.
    pub open spec fn magnitude(self) -> int {
        if self.bits >= SIGN_BIT {
            self.bits - SIGN_BIT
        } else {
            self.bits as int
        }
    }

    /// Whether the bits encode no number at all.
    pub open spec fn is_nan(self) -> bool {
        self.magnitude() > INFINITY_MAGNITUDE
    }

    /// An integer that orders the numbers as the format does: the magnitude,
    /// negated where the sign is set. Both zeroes have the key 0.
    pub open spec fn key(self) -> int {
        if self.bits >= SIGN_BIT {
            -self.magnitude()
        } else {
            self.magnitude()
        }
    }

    /// Whether this value is a number greater than the number `other`.
    /// Where either is not a number the answer is no.
    pub open spec fn exceeds(self, other: Measure) -> bool {
        !self.is_nan() && !other.is_nan() && self.key() > other.key()
    }

    /// The value with the given bit pattern.
    pub fn from_bits(bits: u64) -> (r: Measure)
        ensures
            r.bits == bits,
    {
        Measure { bits }
    }

    /// The bit pattern of the value.
    pub fn to_bits(&self) -> (bits: u64)
        ensures
            bits == self.bits,
    {
        self.bits
    }

    /// The value that a missing rating deviation counts as: 999.
    pub fn missing_deviation() -> (r: Measure)
        ensures
            r.bits == MISSING_DEVIATION_BITS,
    {
        Measure { bits: MISSING_DEVIATION_BITS }
    }

    /// Whether this value is a number greater than the number `other`.
    pub fn gt(&self, other: &Measure) -> (r: bool)
        ensures
            r == self.exceeds(*other),
    {
        let negative: bool = self.bits >= SIGN_BIT;
        let other_negative: bool = other.bits >= SIGN_BIT;
        let magnitude: u64 = if negative {
            self.bits - SIGN_BIT
        } else {
            self.bits
        };
        let other_magnitude: u64 = if other_negative {
            other.bits - SIGN_BIT
        } else {
            other.bits
        };
        if magnitude > INFINITY_MAGNITUDE || other_magnitude > INFINITY_MAGNITUDE {
            false
        } else if negative {
            other_negative && magnitude < other_magnitude
        } else if other_negative {
            magnitude > 0 || other_magnitude > 0
        } else {
            magnitude > other_magnitude
        }
    }
}

/// No value exceeds itself, and of two values at most one exceeds the other.
pub proof fn lemma_exceeds_is_strict(a: Measure, b: Measure, c: Measure)
    ensures
        !a.exceeds(a),
        a.exceeds(b) ==> !b.exceeds(a),
        a.exceeds(b) && b.exceeds(c) ==> a.exceeds(c),
{
}

} // verus!
