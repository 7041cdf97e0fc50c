//! Products of bounded integers in 128 bits, and the way back to 32 bits.

use vstd::prelude::*;
use vstd::pervasive::runtime_assert;
use crate::model::fits;

verus! {

/// The product of a 128-bit integer of magnitude at most `2^64` and a 32-bit
/// integer. It cannot overflow, and it stays below `2^62` in magnitude where
/// the first factor fits in 32 bits too.
pub(crate) fn times(a: i128, b: i32) -> (r: i128)
    requires
        -0x1_0000_0000_0000_0000 <= a <= 0x1_0000_0000_0000_0000,
    ensures
        r == a * b,
        -0x8000_0000_0000_0000_0000_0000 <= r <= 0x8000_0000_0000_0000_0000_0000,
        -0x8000_0000 <= a <= 0x8000_0000 ==> -0x4000_0000_0000_0000 <= r
            <= 0x4000_0000_0000_0000,
{
    assert(-0x8000_0000_0000_0000_0000_0000 <= a * b <= 0x8000_0000_0000_0000_0000_0000)
        by (nonlinear_arith)
        requires
            -0x1_0000_0000_0000_0000 <= a <= 0x1_0000_0000_0000_0000,
            -0x8000_0000 <= b <= 0x8000_0000,
    ;
    assert(-0x8000_0000 <= a <= 0x8000_0000 ==> -0x4000_0000_0000_0000 <= a * b
        <= 0x4000_0000_0000_0000) by (nonlinear_arith)
        requires
            -0x8000_0000 <= b <= 0x8000_0000,
    ;
    a * (b as i128)
}

/// The 32-bit integer equal to `a`. Where `a` does not fit, which the
/// precondition rules out, the program stops rather than go on with another
/// number.
pub(crate) fn narrow(a: i128) -> (r: i32)
    requires
        fits(a as int),
    ensures
        r == a,
{
    runtime_assert(-0x8000_0000 <= a && a <= 0x7fff_ffff);
    a as i32
}

} // verus!
