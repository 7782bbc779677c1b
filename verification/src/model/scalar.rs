//! Real numbers as the catalog stores them: IEEE-754 bit patterns, compared
//! the way the hardware compares the numbers they encode.
use vstd::prelude::*;

verus! {

/// The sign bit of a 64-bit pattern.
pub const DOUBLE_SIGN: u64 = 0x8000_0000_0000_0000;

/// The magnitude of infinity in a 64-bit pattern; larger magnitudes are not numbers.
pub const DOUBLE_INFINITY: u64 = 0x7ff0_0000_0000_0000;

/// The sign bit of a 32-bit pattern.
pub const SINGLE_SIGN: u32 = 0x8000_0000;

/// The magnitude of infinity in a 32-bit pattern; larger magnitudes are not numbers.
pub const SINGLE_INFINITY: u32 = 0x7f80_0000;

/// A double-precision number, held as its 64-bit pattern.
#[derive(Clone, Copy, Debug, PartialEq, Eq, Structural)]
pub struct Double {
    pub bits: u64,
}

/// A single-precision number, held as its 32-bit pattern.
#[derive(Clone, Copy, Debug, PartialEq, Eq, Structural)]
pub struct Single {
    pub bits: u32,
}

impl Double {
    /// The pattern without its sign bit.
    pub open spec fn magnitude(self) -> int {
        if self.bits >= DOUBLE_SIGN {
            self.bits - DOUBLE_SIGN
        } else {
            self.bits as int
        }
    }

    /// Whether the pattern encodes no number at all.
    pub open spec fn not_a_number(self) -> bool {
        self.magnitude() > DOUBLE_INFINITY
    }

    /// An integer that orders the numbers as their values are ordered.
    /// Both zeros share the position 0.
    pub open spec fn position(self) -> int {
        if self.bits >= DOUBLE_SIGN {
            -self.magnitude()
        } else {
            self.magnitude()
        }
    }

    /// `self >= other` as numbers: false as soon as either side is not a number.
    pub open spec fn at_least(self, other: Double) -> bool {
        !self.not_a_number() && !other.not_a_number() && self.position() >= other.position()
    }

    /// `self <= other` as numbers: false as soon as either side is not a number.
    pub open spec fn at_most(self, other: Double) -> bool {
        !self.not_a_number() && !other.not_a_number() && self.position() <= other.position()
    }

    pub fn from_bits(bits: u64) -> (d: Double)
        ensures
            d.bits == bits,
    {
        Double { bits }
    }

    pub fn to_bits(&self) -> (bits: u64)
        ensures
            bits == self.bits,
    {
        self.bits
    }

    pub fn is_nan(&self) -> (r: bool)
        ensures
            r == self.not_a_number(),
    {
        let magnitude: u64 = if self.bits >= DOUBLE_SIGN {
            self.bits - DOUBLE_SIGN
        } else {
            self.bits
        };
        magnitude > DOUBLE_INFINITY
    }

    /// Where the number stands among all numbers.
    pub fn order_key(&self) -> (key: i128)
        ensures
            key == self.position(),
    {
        if self.bits >= DOUBLE_SIGN {
            let magnitude: u64 = self.bits - DOUBLE_SIGN;
            -(magnitude as i128)
        } else {
            self.bits as i128
        }
    }

    pub fn ge(&self, other: &Double) -> (r: bool)
        ensures
            r == self.at_least(*other),
    {
        !self.is_nan() && !other.is_nan() && self.order_key() >= other.order_key()
    }

    pub fn le(&self, other: &Double) -> (r: bool)
        ensures
            r == self.at_most(*other),
    {
        !self.is_nan() && !other.is_nan() && self.order_key() <= other.order_key()
    }
}

impl Single {
    /// The pattern without its sign bit.
    pub open spec fn magnitude(self) -> int {
        if self.bits >= SINGLE_SIGN {
            self.bits - SINGLE_SIGN
        } else {
            self.bits as int
        }
    }

    /// Whether the pattern encodes no number at all.
    pub open spec fn not_a_number(self) -> bool {
        self.magnitude() > SINGLE_INFINITY
    }

    /// An integer that orders the numbers as their values are ordered.
    /// Both zeros share the position 0.
    pub open spec fn position(self) -> int {
        if self.bits >= SINGLE_SIGN {
            -self.magnitude()
        } else {
            self.magnitude()
        }
    }

    pub fn from_bits(bits: u32) -> (s: Single)
        ensures
            s.bits == bits,
    {
        Single { bits }
    }

    pub fn to_bits(&self) -> (bits: u32)
        ensures
            bits == self.bits,
    {
        self.bits
    }

    pub fn is_nan(&self) -> (r: bool)
        ensures
            r == self.not_a_number(),
    {
        let magnitude: u32 = if self.bits >= SINGLE_SIGN {
            self.bits - SINGLE_SIGN
        } else {
            self.bits
        };
        magnitude > SINGLE_INFINITY
    }

    /// Where the number stands among all numbers.
    pub fn order_key(&self) -> (key: i64)
        ensures
            key == self.position(),
    {
        if self.bits >= SINGLE_SIGN {
            let magnitude: u32 = self.bits - SINGLE_SIGN;
            -(magnitude as i64)
        } else {
            self.bits as i64
        }
    }
}

} // verus!
