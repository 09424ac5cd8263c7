//! Amounts of money.
//!
//! An amount is a binary64 number. The library never computes with such a
//! number: it carries the number's bit pattern, tells a NaN and an infinity by
//! it, flips its sign, and counts how often the number is still to be divided
//! by the conversion divisor. Reading a number out of text and dividing it are
//! left to the caller.

use vstd::prelude::*;

verus! {

/// The sign bit of a binary64 bit pattern.
pub const SIGN_BIT: u64 = 0x8000_0000_0000_0000;

/// The bit pattern of positive infinity: every exponent bit set, no fraction bit.
pub const INFINITY_BITS: u64 = 0x7ff0_0000_0000_0000;

/// The bit pattern of the NaN that stands for "no value".
pub const NAN_BITS: u64 = 0x7ff8_0000_0000_0000;

/// The bit pattern of 3.5, the number of shekels to the dollar that amounts
/// are divided by.
pub const SHEKEL_TO_DOLLAR_DIVISION: u64 = 0x400c_0000_0000_0000;

/// The bit pattern without its sign bit.
pub open spec fn magnitude(bits: u64) -> int {
    if bits >= SIGN_BIT {
        bits - SIGN_BIT
    } else {
        bits as int
    }
}

/// The pattern is a NaN: every exponent bit set and some fraction bit.
pub open spec fn is_nan_bits(bits: u64) -> bool {
    magnitude(bits) > INFINITY_BITS
}

/// The pattern is positive or negative infinity.
pub open spec fn is_infinite_bits(bits: u64) -> bool {
    magnitude(bits) == INFINITY_BITS
}

/// The pattern with its sign bit flipped: the number negated.
pub open spec fn negated_bits(bits: u64) -> u64 {
    if bits >= SIGN_BIT {
        (bits - SIGN_BIT) as u64
    } else {
        (bits + SIGN_BIT) as u64
    }
}

/// A binary64 number by its bit pattern, to be divided `divisions` times by
/// the conversion divisor.
#[derive(Clone, Copy, Debug, PartialEq, Eq, Structural)]
pub struct Amount {
    pub bits: u64,
    pub divisions: u64,
}

impl Amount {
    /// The amount is a NaN, divided or not.
    pub open spec fn nan(self) -> bool {
        is_nan_bits(self.bits)
    }

    /// The amount is an infinity, divided or not.
    pub open spec fn infinite(self) -> bool {
        is_infinite_bits(self.bits)
    }

    /// The amount with its sign flipped.
    pub open spec fn spec_negated(self) -> Amount {
        Amount { bits: negated_bits(self.bits), divisions: self.divisions }
    }

    /// The amount divided once more by the conversion divisor. The count stops
    /// at the largest that it can hold: long before that, one more division
    /// changes no binary64 number.
    pub open spec fn spec_rescaled(self) -> Amount {
        Amount {
            bits: self.bits,
            divisions: if self.divisions < u64::MAX {
                (self.divisions + 1) as u64
            } else {
                self.divisions
            },
        }
    }

    /// The number with the given bit pattern, undivided.
    pub fn from_bits(bits: u64) -> (r: Amount)
        ensures
            r == (Amount { bits, divisions: 0 }),
    {
        Amount { bits, divisions: 0 }
    }

    /// The NaN that stands for "no value".
    pub fn no_value() -> (r: Amount)
        ensures
            r == (Amount { bits: NAN_BITS, divisions: 0 }),
            r.nan(),
    {
        Amount { bits: NAN_BITS, divisions: 0 }
    }

    /// The bit pattern of the number before any division.
    pub fn get_bits(&self) -> (r: u64)
        ensures
            r == self.bits,
    {
        self.bits
    }

    /// How often the number is still to be divided by the conversion divisor.
    pub fn get_divisions(&self) -> (r: u64)
        ensures
            r == self.divisions,
    {
        self.divisions
    }

    pub fn is_nan(&self) -> (r: bool)
        ensures
            r == self.nan(),
    {
        if self.bits >= SIGN_BIT {
            self.bits - SIGN_BIT > INFINITY_BITS
        } else {
            self.bits > INFINITY_BITS
        }
    }

    pub fn is_infinite(&self) -> (r: bool)
        ensures
            r == self.infinite(),
    {
        if self.bits >= SIGN_BIT {
            self.bits - SIGN_BIT == INFINITY_BITS
        } else {
            self.bits == INFINITY_BITS
        }
    }

    /// Flips the sign.
    pub fn negated(&self) -> (r: Amount)
        ensures
            r == self.spec_negated(),
    {
        let bits: u64 = if self.bits >= SIGN_BIT {
            self.bits - SIGN_BIT
        } else {
            self.bits + SIGN_BIT
        };
        Amount { bits, divisions: self.divisions }
    }

    /// Marks the amount as divided once more by the conversion divisor.
    pub fn rescaled(&self) -> (r: Amount)
        ensures
            r == self.spec_rescaled(),
    {
        if self.divisions < u64::MAX {
            Amount { bits: self.bits, divisions: self.divisions + 1 }
        } else {
            Amount { bits: self.bits, divisions: self.divisions }
        }
    }
}

/// Flipping the sign twice gives the amount back, and changes neither whether
/// it is a NaN nor whether it is an infinity.
pub proof fn negation_is_an_involution(a: Amount)
    ensures
        a.spec_negated().spec_negated() == a,
        a.spec_negated().nan() == a.nan(),
        a.spec_negated().infinite() == a.infinite(),
{
}

} // verus!
