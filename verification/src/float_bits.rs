//! IEEE-754 binary32 values held as bit patterns, with the ordering
//! comparisons the configuration rules use.
//!
//! For values that are not NaN, IEEE-754 orders binary32 numbers as their
//! sign-magnitude encodings read as integers, with `-0` equal to `+0`; every
//! ordered comparison involving NaN is false.

use vstd::prelude::*;

verus! {

/// A binary32 value, by its bit pattern.
#[derive(Debug, Clone, Copy)]
pub struct F32 {
    pub bits: u32,
}

/// `0.0`.
pub const F32_0: u32 = 0x0000_0000u32;
/// `0.01`.
pub const F32_0_01: u32 = 0x3c23_d70au32;
/// `0.03`.
pub const F32_0_03: u32 = 0x3cf5_c28fu32;
/// `0.05`.
pub const F32_0_05: u32 = 0x3d4c_cccdu32;
/// `0.06`.
pub const F32_0_06: u32 = 0x3d75_c28fu32;
/// `0.08`.
pub const F32_0_08: u32 = 0x3da3_d70au32;
/// `0.1`.
pub const F32_0_1: u32 = 0x3dcc_cccdu32;
/// `0.2`.
pub const F32_0_2: u32 = 0x3e4c_cccdu32;
/// `0.3`.
pub const F32_0_3: u32 = 0x3e99_999au32;
/// `0.35`.
pub const F32_0_35: u32 = 0x3eb3_3333u32;
/// `0.5`.
pub const F32_0_5: u32 = 0x3f00_0000u32;
/// `0.6`.
pub const F32_0_6: u32 = 0x3f19_999au32;
/// `0.7`.
pub const F32_0_7: u32 = 0x3f33_3333u32;
/// `0.8`.
pub const F32_0_8: u32 = 0x3f4c_cccdu32;
/// `0.9`.
pub const F32_0_9: u32 = 0x3f66_6666u32;
/// `1.0`.
pub const F32_1: u32 = 0x3f80_0000u32;
/// `2.0`.
pub const F32_2: u32 = 0x4000_0000u32;
/// `3.0`.
pub const F32_3: u32 = 0x4040_0000u32;
/// `4.0`.
pub const F32_4: u32 = 0x4080_0000u32;
/// `6.0`.
pub const F32_6: u32 = 0x40c0_0000u32;
/// `10.0`.
pub const F32_10: u32 = 0x4120_0000u32;
/// `12.0`.
pub const F32_12: u32 = 0x4140_0000u32;
/// `16.0`.
pub const F32_16: u32 = 0x4180_0000u32;
/// `24.0`.
pub const F32_24: u32 = 0x41c0_0000u32;
/// `30.0`.
pub const F32_30: u32 = 0x41f0_0000u32;
/// `40.0`.
pub const F32_40: u32 = 0x4220_0000u32;
/// `48.0`.
pub const F32_48: u32 = 0x4240_0000u32;
/// `60.0`.
pub const F32_60: u32 = 0x4270_0000u32;
/// `64.0`.
pub const F32_64: u32 = 0x4280_0000u32;
/// `80.0`.
pub const F32_80: u32 = 0x42a0_0000u32;
/// `100.0`.
pub const F32_100: u32 = 0x42c8_0000u32;
/// `120.0`.
pub const F32_120: u32 = 0x42f0_0000u32;
/// `180.0`.
pub const F32_180: u32 = 0x4334_0000u32;
/// `500.0`.
pub const F32_500: u32 = 0x43fa_0000u32;

/// Biased exponent field.
pub open spec fn exponent(b: u32) -> nat {
    ((b as nat) / 0x80_0000) % 0x100
}

/// Fraction field.
pub open spec fn fraction(b: u32) -> nat {
    (b as nat) % 0x80_0000
}

/// Whether the pattern encodes NaN.
pub open spec fn is_nan(b: u32) -> bool {
    exponent(b) == 0xff && fraction(b) != 0
}

/// The ordering key of a non-NaN pattern: its magnitude bits, negated when
/// the sign bit is set (so `-0` and `+0` share the key `0`).
pub open spec fn order_key(b: u32) -> int {
    let mag = (b as int) % 0x8000_0000;
    if b >= 0x8000_0000 {
        -mag
    } else {
        mag
    }
}

/// `a <= b` on binary32 values.
pub open spec fn f32_le(a: u32, b: u32) -> bool {
    !is_nan(a) && !is_nan(b) && order_key(a) <= order_key(b)
}

/// `a < b` on binary32 values.
pub open spec fn f32_lt(a: u32, b: u32) -> bool {
    !is_nan(a) && !is_nan(b) && order_key(a) < order_key(b)
}

/// `lo <= x && x <= hi`, as `RangeInclusive::contains` evaluates it.
pub open spec fn f32_in_range(x: u32, lo: u32, hi: u32) -> bool {
    f32_le(lo, x) && f32_le(x, hi)
}

fn nan_exec(b: u32) -> (r: bool)
    ensures
        r == is_nan(b),
{
    (b / 0x80_0000) % 0x100 == 0xff && b % 0x80_0000 != 0
}

fn key_exec(b: u32) -> (k: i64)
    ensures
        k == order_key(b),
{
    let mag = (b % 0x8000_0000) as i64;
    if b >= 0x8000_0000 {
        -mag
    } else {
        mag
    }
}

impl F32 {
    /// `self <= other`.
    pub fn le(self, other: F32) -> (r: bool)
        ensures
            r == f32_le(self.bits, other.bits),
    {
        !nan_exec(self.bits) && !nan_exec(other.bits) && key_exec(self.bits) <= key_exec(other.bits)
    }

    /// `self < other`.
    pub fn lt(self, other: F32) -> (r: bool)
        ensures
            r == f32_lt(self.bits, other.bits),
    {
        !nan_exec(self.bits) && !nan_exec(other.bits) && key_exec(self.bits) < key_exec(other.bits)
    }

    /// `lo <= self && self <= hi`.
    pub fn in_range(self, lo: F32, hi: F32) -> (r: bool)
        ensures
            r == f32_in_range(self.bits, lo.bits, hi.bits),
    {
        lo.le(self) && self.le(hi)
    }
}

/// The value with bit pattern `bits`.
pub fn f32_of(bits: u32) -> (r: F32)
    ensures
        r.bits == bits,
{
    F32 { bits }
}


/// Whether a binary64 pattern encodes NaN.
pub open spec fn is_nan64(b: u64) -> bool {
    ((b as nat) / 0x10_0000_0000_0000) % 0x800 == 0x7ff && (b as nat) % 0x10_0000_0000_0000 != 0
}

/// The ordering key of a non-NaN binary64 pattern (sign-magnitude).
pub open spec fn order_key64(b: u64) -> int {
    let mag = (b as int) % 0x8000_0000_0000_0000;
    if b >= 0x8000_0000_0000_0000 {
        -mag
    } else {
        mag
    }
}

/// The bit pattern of binary64 `1.0`.
pub const F64_1: u64 = 0x3ff0_0000_0000_0000u64;

/// `0.0 <= x && x <= 1.0` on a binary64 value.
pub open spec fn f64_in_unit(b: u64) -> bool {
    !is_nan64(b) && 0 <= order_key64(b) && order_key64(b) <= order_key64(F64_1)
}

/// `0.0 <= x && x <= 1.0` on a binary64 value.
pub fn f64_in_unit_exec(b: u64) -> (r: bool)
    ensures
        r == f64_in_unit(b),
{
    let nan = (b / 0x10_0000_0000_0000) % 0x800 == 0x7ff && b % 0x10_0000_0000_0000 != 0;
    if nan {
        return false;
    }
    let mag = b % 0x8000_0000_0000_0000;
    if b >= 0x8000_0000_0000_0000 {
        mag == 0
    } else {
        mag <= F64_1
    }
}

/// Whether a binary32 value equals zero (either sign).
pub open spec fn f32_is_zero(b: u32) -> bool {
    b == 0 || b == 0x8000_0000
}

} // verus!
