//! Floating-point values carried as their IEEE 754 bit patterns.
//!
//! The library never does arithmetic on these numbers; it only stores them and
//! compares them. Holding the bit pattern keeps every value exact, and the
//! ordering of IEEE 754 is stated here over integers.

use vstd::prelude::*;

verus! {

/// The sign bit of a binary32 pattern.
pub const SIGN_BIT_32: u32 = 0x8000_0000;

/// The pattern of positive infinity; a larger magnitude encodes a NaN.
pub const INFINITY_MAGNITUDE_32: u32 = 0x7f80_0000;

/// A single-precision IEEE 754 number, held as its bit pattern
/// (the value of `f32::to_bits`).
#[derive(Clone, Copy, Debug)]
pub struct Fp32 {
    pub bits: u32,
}

impl Fp32 {
    /// The pattern without its sign bit.
    pub open spec fn magnitude(self) -> int {
        (self.bits % SIGN_BIT_32) as int
    }

    pub open spec fn is_negative(self) -> bool {
        self.bits >= SIGN_BIT_32
    }

    pub open spec fn is_nan(self) -> bool {
        self.magnitude() > INFINITY_MAGNITUDE_32
    }

    /// The position of the value on the extended number line. For patterns
    /// that are not NaN it orders them as IEEE 754 does; both zeros sit at 0.
    pub open spec fn rank(self) -> int {
        if self.is_negative() {
            -self.magnitude()
        } else {
            self.magnitude()
        }
    }

    /// IEEE 754 `self >= other`: false whenever either side is NaN.
    pub open spec fn ge_spec(self, other: Fp32) -> bool {
        !self.is_nan() && !other.is_nan() && self.rank() >= other.rank()
    }

    pub fn from_bits(bits: u32) -> (r: Fp32)
        ensures
            r.bits == bits,
    {
        Fp32 { bits }
    }

    pub fn to_bits(&self) -> (r: u32)
        ensures
            r == self.bits,
    {
        self.bits
    }

    pub fn is_nan_exec(&self) -> (r: bool)
        ensures
            r == self.is_nan(),
    {
        self.bits % SIGN_BIT_32 > INFINITY_MAGNITUDE_32
    }

    fn rank_exec(&self) -> (r: i64)
        ensures
            r as int == self.rank(),
    {
        let magnitude: i64 = (self.bits % SIGN_BIT_32) as i64;
        if self.bits >= SIGN_BIT_32 {
            -magnitude
        } else {
            magnitude
        }
    }

    /// Compares as `>=` on `f32` does.
    pub fn ge(&self, other: &Fp32) -> (r: bool)
        ensures
            r == self.ge_spec(*other),
    {
        !self.is_nan_exec() && !other.is_nan_exec() && self.rank_exec() >= other.rank_exec()
    }

    /// Whether the value lies in the closed range `[low, high]`, as
    /// `(low..=high).contains(&value)` decides it on `f32`.
    pub open spec fn within_spec(self, low: Fp32, high: Fp32) -> bool {
        self.ge_spec(low) && high.ge_spec(self)
    }

    pub fn within(&self, low: &Fp32, high: &Fp32) -> (r: bool)
        ensures
            r == self.within_spec(*low, *high),
    {
        self.ge(low) && high.ge(self)
    }
}

/// A double-precision IEEE 754 number, held as its bit pattern
/// (the value of `f64::to_bits`).
#[derive(Clone, Copy, Debug)]
pub struct Fp64 {
    pub bits: u64,
}

impl Fp64 {
    pub fn from_bits(bits: u64) -> (r: Fp64)
        ensures
            r.bits == bits,
    {
        Fp64 { bits }
    }

    pub fn to_bits(&self) -> (r: u64)
        ensures
            r == self.bits,
    {
        self.bits
    }
}

} // verus!
