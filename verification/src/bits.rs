//! Floating-point values carried by their IEEE 754 bit patterns.
//!
//! Ratios, opacities and pixel offsets are floating-point values. The library
//! never does arithmetic on them: it carries them, compares them and picks
//! among them, and for that the bit pattern is enough. Read as sign and
//! magnitude, the pattern orders all values that are not NaN.
use vstd::prelude::*;

verus! {

/// A double-precision value, as `f64::to_bits` gives it.
#[derive(Clone, Copy, Debug, PartialEq, Eq, Structural)]
pub struct Double {
    pub bits: u64,
}

/// A single-precision value, as `f32::to_bits` gives it.
#[derive(Clone, Copy, Debug, PartialEq, Eq, Structural)]
pub struct Single {
    pub bits: u32,
}

/// The sign bit of a double.
pub const SIGN64: u64 = 0x8000_0000_0000_0000;

/// The pattern of positive infinity as a double.
pub const INFINITY64: u64 = 0x7FF0_0000_0000_0000;

/// The sign bit of a single.
pub const SIGN32: u32 = 0x8000_0000;

/// The pattern of positive infinity as a single.
pub const INFINITY32: u32 = 0x7F80_0000;

impl Double {
    /// Whether the pattern is one of the NaNs.
    pub open spec fn nan(self) -> bool {
        if self.bits < SIGN64 {
            self.bits > INFINITY64
        } else {
            self.bits - SIGN64 > INFINITY64
        }
    }

    /// The place of the value in the order of all values that are not NaN;
    /// both zeroes have place 0.
    pub open spec fn rank(self) -> int {
        if self.bits < SIGN64 {
            self.bits as int
        } else {
            SIGN64 - self.bits
        }
    }

    /// The IEEE comparison `self < other`.
    pub open spec fn below(self, other: Double) -> bool {
        !self.nan() && !other.nan() && self.rank() < other.rank()
    }

    /// The IEEE comparison `self <= other`.
    pub open spec fn at_most(self, other: Double) -> bool {
        !self.nan() && !other.nan() && self.rank() <= other.rank()
    }

    /// The same magnitude with the other sign.
    pub open spec fn negated(self) -> Double {
        if self.bits < SIGN64 {
            Double { bits: (self.bits + SIGN64) as u64 }
        } else {
            Double { bits: (self.bits - SIGN64) as u64 }
        }
    }

    /// The smaller of two values; a NaN gives way to the other value.
    pub open spec fn lesser(self, other: Double) -> Double {
        if self.nan() || other.below(self) {
            other
        } else {
            self
        }
    }

    /// The greater of two values; a NaN gives way to the other value.
    pub open spec fn greater(self, other: Double) -> Double {
        if self.nan() || self.below(other) {
            other
        } else {
            self
        }
    }

    /// `self` brought into `lo..=hi`; a NaN stays as it is.
    pub open spec fn clamped(self, lo: Double, hi: Double) -> Double {
        if self.below(lo) {
            lo
        } else if hi.below(self) {
            hi
        } else {
            self
        }
    }

    pub fn is_nan(self) -> (r: bool)
        ensures
            r == self.nan(),
    {
        if self.bits < SIGN64 {
            self.bits > INFINITY64
        } else {
            self.bits - SIGN64 > INFINITY64
        }
    }

    pub fn lt(self, other: Double) -> (r: bool)
        ensures
            r == self.below(other),
    {
        if self.is_nan() || other.is_nan() {
            false
        } else if self.bits < SIGN64 {
            other.bits < SIGN64 && self.bits < other.bits
        } else if other.bits < SIGN64 {
            self.bits > SIGN64 || other.bits > 0
        } else {
            self.bits > other.bits
        }
    }

    pub fn le(self, other: Double) -> (r: bool)
        ensures
            r == self.at_most(other),
    {
        !self.is_nan() && !other.is_nan() && !other.lt(self)
    }

    pub fn neg(self) -> (r: Double)
        ensures
            r == self.negated(),
    {
        if self.bits < SIGN64 {
            Double { bits: self.bits + SIGN64 }
        } else {
            Double { bits: self.bits - SIGN64 }
        }
    }

    pub fn min(self, other: Double) -> (r: Double)
        ensures
            r == self.lesser(other),
    {
        if self.is_nan() || other.lt(self) {
            other
        } else {
            self
        }
    }

    pub fn max(self, other: Double) -> (r: Double)
        ensures
            r == self.greater(other),
    {
        if self.is_nan() || self.lt(other) {
            other
        } else {
            self
        }
    }

    pub fn clamp(self, lo: Double, hi: Double) -> (r: Double)
        requires
            lo.at_most(hi),
        ensures
            r == self.clamped(lo, hi),
    {
        if self.lt(lo) {
            lo
        } else if hi.lt(self) {
            hi
        } else {
            self
        }
    }
}

/// The pattern of 0.0 as a double.
pub const ZERO64: u64 = 0;

/// The pattern of 1.0 as a double.
pub const ONE64: u64 = 0x3FF0_0000_0000_0000;

impl Single {
    /// Whether the pattern is one of the NaNs.
    pub open spec fn nan(self) -> bool {
        if self.bits < SIGN32 {
            self.bits > INFINITY32
        } else {
            self.bits - SIGN32 > INFINITY32
        }
    }

    /// The place of the value in the order of all values that are not NaN;
    /// both zeroes have place 0.
    pub open spec fn rank(self) -> int {
        if self.bits < SIGN32 {
            self.bits as int
        } else {
            SIGN32 - self.bits
        }
    }

    /// The IEEE comparison `self < other`.
    pub open spec fn below(self, other: Single) -> bool {
        !self.nan() && !other.nan() && self.rank() < other.rank()
    }

    /// The IEEE comparison `self <= other`.
    pub open spec fn at_most(self, other: Single) -> bool {
        !self.nan() && !other.nan() && self.rank() <= other.rank()
    }

    /// `self` brought into `lo..=hi`; a NaN stays as it is.
    pub open spec fn clamped(self, lo: Single, hi: Single) -> Single {
        if self.below(lo) {
            lo
        } else if hi.below(self) {
            hi
        } else {
            self
        }
    }

    pub fn is_nan(self) -> (r: bool)
        ensures
            r == self.nan(),
    {
        if self.bits < SIGN32 {
            self.bits > INFINITY32
        } else {
            self.bits - SIGN32 > INFINITY32
        }
    }

    pub fn lt(self, other: Single) -> (r: bool)
        ensures
            r == self.below(other),
    {
        if self.is_nan() || other.is_nan() {
            false
        } else if self.bits < SIGN32 {
            other.bits < SIGN32 && self.bits < other.bits
        } else if other.bits < SIGN32 {
            self.bits > SIGN32 || other.bits > 0
        } else {
            self.bits > other.bits
        }
    }

    pub fn le(self, other: Single) -> (r: bool)
        ensures
            r == self.at_most(other),
    {
        !self.is_nan() && !other.is_nan() && !other.lt(self)
    }

    pub fn clamp(self, lo: Single, hi: Single) -> (r: Single)
        requires
            lo.at_most(hi),
        ensures
            r == self.clamped(lo, hi),
    {
        if self.lt(lo) {
            lo
        } else if hi.lt(self) {
            hi
        } else {
            self
        }
    }
}

/// The pattern of 0.0 as a single.
pub const ZERO32: u32 = 0;

/// The pattern of 1.0 as a single.
pub const ONE32: u32 = 0x3F80_0000;

/// The comparison `<` is a strict order on doubles, total on those that are
/// not NaN but for the two zeroes, which are equal.
pub proof fn double_order(a: Double, b: Double, c: Double)
    ensures
        !a.below(a),
        a.below(b) && b.below(c) ==> a.below(c),
        !a.nan() && !b.nan() ==> a.below(b) || b.below(a) || a == b || a.rank() == 0,
{
}

/// Negation is its own inverse and reverses the order.
pub proof fn double_negation(a: Double, b: Double)
    ensures
        a.negated().negated() == a,
        a.below(b) == b.negated().below(a.negated()),
{
}

/// A clamped single lies in the range, one that lay there is kept, and
/// clamping again changes nothing.
pub proof fn single_clamp(x: Single, lo: Single, hi: Single)
    requires
        lo.at_most(hi),
    ensures
        !x.nan() ==> lo.at_most(x.clamped(lo, hi)) && x.clamped(lo, hi).at_most(hi),
        lo.at_most(x) && x.at_most(hi) ==> x.clamped(lo, hi) == x,
        x.clamped(lo, hi).clamped(lo, hi) == x.clamped(lo, hi),
{
}

/// How the patterns order the doubles: above the sign bit the other way round, with
/// negative values before positive ones, both zeroes equal, and NaNs apart.
pub proof fn double_patterns_order(a: Double, b: Double)
    ensures
        a.nan() == (0x7FF0_0000_0000_0000 < a.bits < 0x8000_0000_0000_0000 || a.bits > 0x8000_0000_0000_0000 + 0x7FF0_0000_0000_0000),
        a.nan() || b.nan() ==> !a.below(b) && !a.at_most(b),
        !a.nan() && !b.nan() ==> {
            &&& a.bits < 0x8000_0000_0000_0000 && b.bits < 0x8000_0000_0000_0000 ==> (a.below(b) <==> a.bits < b.bits)
            &&& a.bits >= 0x8000_0000_0000_0000 && b.bits >= 0x8000_0000_0000_0000 ==> (a.below(b) <==> a.bits > b.bits)
            &&& a.bits >= 0x8000_0000_0000_0000 && b.bits < 0x8000_0000_0000_0000 ==> (a.below(b) <==> a.bits > 0x8000_0000_0000_0000
                || b.bits > 0)
            &&& a.bits < 0x8000_0000_0000_0000 && b.bits >= 0x8000_0000_0000_0000 ==> !a.below(b)
            &&& a.at_most(b) <==> !b.below(a)
        },
{
}

/// Negation changes the sign bit alone.
pub proof fn negation_changes_the_sign(a: Double)
    ensures
        a.bits < 0x8000_0000_0000_0000 ==> a.negated().bits == a.bits + 0x8000_0000_0000_0000,
        a.bits >= 0x8000_0000_0000_0000 ==> a.negated().bits == a.bits - 0x8000_0000_0000_0000,
        a.nan() == a.negated().nan(),
{
}

/// Of two doubles that are numbers, the smaller and the greater are those two, in
/// order; of a number and a NaN both are the number.
pub proof fn smaller_and_greater_doubles(a: Double, b: Double)
    ensures
        !a.nan() && !b.nan() ==> {
            &&& a.lesser(b) == a || a.lesser(b) == b
            &&& a.greater(b) == a || a.greater(b) == b
            &&& a.lesser(b).at_most(a) && a.lesser(b).at_most(b)
            &&& a.at_most(a.greater(b)) && b.at_most(a.greater(b))
        },
        a.nan() ==> a.lesser(b) == b && a.greater(b) == b,
        b.nan() && !a.nan() ==> a.lesser(b) == a && a.greater(b) == a,
{
}

/// A clamped double lies in the range, as near to the value as it can; a NaN stays.
pub proof fn double_clamp(x: Double, lo: Double, hi: Double)
    requires
        lo.at_most(hi),
    ensures
        x.below(lo) ==> x.clamped(lo, hi) == lo,
        hi.below(x) ==> x.clamped(lo, hi) == hi,
        !x.below(lo) && !hi.below(x) ==> x.clamped(lo, hi) == x,
        !x.nan() ==> lo.at_most(x.clamped(lo, hi)) && x.clamped(lo, hi).at_most(hi),
{
}

/// How the patterns order the singles: above the sign bit the other way round, with
/// negative values before positive ones, both zeroes equal, and NaNs apart.
pub proof fn single_patterns_order(a: Single, b: Single)
    ensures
        a.nan() == (0x7F80_0000 < a.bits < 0x8000_0000 || a.bits > 0x8000_0000 + 0x7F80_0000),
        a.nan() || b.nan() ==> !a.below(b) && !a.at_most(b),
        !a.nan() && !b.nan() ==> {
            &&& a.bits < 0x8000_0000 && b.bits < 0x8000_0000 ==> (a.below(b) <==> a.bits < b.bits)
            &&& a.bits >= 0x8000_0000 && b.bits >= 0x8000_0000 ==> (a.below(b) <==> a.bits > b.bits)
            &&& a.bits >= 0x8000_0000 && b.bits < 0x8000_0000 ==> (a.below(b) <==> a.bits > 0x8000_0000
                || b.bits > 0)
            &&& a.bits < 0x8000_0000 && b.bits >= 0x8000_0000 ==> !a.below(b)
            &&& a.at_most(b) <==> !b.below(a)
        },
{
}

/// A clamped single is as near to the value as it can be; a NaN stays.
pub proof fn single_clamp_is_near(x: Single, lo: Single, hi: Single)
    requires
        lo.at_most(hi),
    ensures
        x.below(lo) ==> x.clamped(lo, hi) == lo,
        hi.below(x) ==> x.clamped(lo, hi) == hi,
        !x.below(lo) && !hi.below(x) ==> x.clamped(lo, hi) == x,
{
}

} // verus!
