//! IEEE-754 bit patterns of the floating-point values that the renderer
//! fixes.  Single precision unless the name says otherwise.

use vstd::prelude::*;

verus! {

/// 0.0
pub const ZERO: u32 = 0;

/// 1.0
pub const ONE: u32 = 0x3F80_0000;

/// 2.0
pub const TWO: u32 = 0x4000_0000;

/// -3.0
pub const MINUS_THREE: u32 = 0xC040_0000;

/// 0.1
pub const TENTH: u32 = 0x3DCC_CCCD;

/// 0.7
pub const SEVEN_TENTHS: u32 = 0x3F33_3333;

/// 100.0
pub const HUNDRED: u32 = 0x42C8_0000;

/// The least single-precision value that is not below pi.
pub const PI_CEILING: u32 = 0x4049_0FDB;

/// Positive infinity.
pub const INFINITY: u32 = 0x7F80_0000;

/// 0.1 in double precision.
pub const DOUBLE_TENTH: u64 = 0x3FB9_9999_9999_999A;

/// 0.2 in double precision.
pub const DOUBLE_FIFTH: u64 = 0x3FC9_9999_9999_999A;

/// 0.3 in double precision.
pub const DOUBLE_THREE_TENTHS: u64 = 0x3FD3_3333_3333_3333;

/// 1.0 in double precision.
pub const DOUBLE_ONE: u64 = 0x3FF0_0000_0000_0000;

/// The pattern stands for a finite value above zero.  Among such patterns
/// the order of the values is the order of the patterns.
pub open spec fn positive_finite(pattern: u32) -> bool {
    0 < pattern < INFINITY
}

/// Decides `positive_finite`.
pub fn is_positive_finite(pattern: u32) -> (b: bool)
    ensures
        b == positive_finite(pattern),
{
    0 < pattern && pattern < INFINITY
}

} // verus!
