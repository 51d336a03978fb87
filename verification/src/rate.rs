//! Exchange rates as IEEE-754 binary64 bit patterns, ordered by value.

use vstd::prelude::*;

verus! {

/// The bit that carries the sign of a binary64 pattern.
pub const SIGN_BIT: u64 = 0x8000_0000_0000_0000;

/// The magnitude of positive infinity; every larger magnitude is a NaN.
pub const INFINITY_MAGNITUDE: u64 = 0x7ff0_0000_0000_0000;

/// The pattern of the number one.
pub const ONE_BITS: u64 = 0x3ff0_0000_0000_0000;

/// Whether the sign bit of `bits` is set.
pub open spec fn is_negative(bits: u64) -> bool {
    bits >= SIGN_BIT
}

/// The pattern without its sign bit.
pub open spec fn magnitude(bits: u64) -> int {
    if bits >= SIGN_BIT {
        bits - SIGN_BIT
    } else {
        bits as int
    }
}

/// Whether `bits` encodes a NaN, which has no place in the order of values.
pub open spec fn is_nan(bits: u64) -> bool {
    magnitude(bits) > INFINITY_MAGNITUDE
}

/// The place of a pattern in the order of values: for patterns that are not
/// NaN, one number is less than another exactly when its rank is less, and
/// the two zeros share rank zero.
pub open spec fn rank(bits: u64) -> int {
    if is_negative(bits) {
        -magnitude(bits)
    } else {
        magnitude(bits)
    }
}

/// An exchange rate: a binary64 number that is not a NaN, held as its bit
/// pattern so that rates can be compared without floating-point arithmetic.
#[derive(Clone, Copy, Debug)]
pub struct Rate {
    bits: u64,
}

impl View for Rate {
    type V = u64;

    closed spec fn view(&self) -> u64 {
        self.bits
    }
}

impl Rate {
    /// Every rate is a number.
    #[verifier::type_invariant]
    pub open spec fn is_number(self) -> bool {
        !is_nan(self@)
    }

    /// The rate with the given bit pattern, unless the pattern is a NaN.
    pub fn from_bits(bits: u64) -> (rate: Option<Rate>)
        ensures
            match rate {
                Some(r) => !is_nan(bits) && r@ == bits,
                None => is_nan(bits),
            },
    {
        let magnitude: u64 = if bits >= SIGN_BIT {
            bits - SIGN_BIT
        } else {
            bits
        };
        if magnitude > INFINITY_MAGNITUDE {
            None
        } else {
            Some(Rate { bits })
        }
    }

    /// The rate one, against which every other rate is judged.
    pub fn one() -> (rate: Rate)
        ensures
            rate@ == ONE_BITS,
    {
        Rate { bits: ONE_BITS }
    }

    /// The bit pattern of the rate, which is never a NaN.
    pub fn to_bits(&self) -> (bits: u64)
        ensures
            bits == self@,
            !is_nan(bits),
    {
        proof {
            use_type_invariant(self);
        }
        self.bits
    }

    /// Whether this rate is a smaller number than `other`.
    pub fn is_less_than(&self, other: &Rate) -> (less: bool)
        ensures
            less == (rank(self@) < rank(other@)),
    {
        let a: u64 = self.bits;
        let b: u64 = other.bits;
        if a >= SIGN_BIT {
            if b >= SIGN_BIT {
                // Of two negative numbers the one of greater magnitude is less.
                a > b
            } else {
                // A negative number is less than any other, but for the two zeros.
                a > SIGN_BIT || b > 0
            }
        } else {
            b < SIGN_BIT && a < b
        }
    }

    /// Whether this rate is below one.
    pub fn is_below_one(&self) -> (below: bool)
        ensures
            below == (rank(self@) < rank(ONE_BITS)),
    {
        let one: Rate = Rate::one();
        self.is_less_than(&one)
    }

    /// Whether this rate is above one.
    pub fn is_above_one(&self) -> (above: bool)
        ensures
            above == (rank(self@) > rank(ONE_BITS)),
    {
        let one: Rate = Rate::one();
        one.is_less_than(self)
    }
}

} // verus!
