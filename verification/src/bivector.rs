//! Bivectors: oriented plane elements.

use vstd::prelude::*;
use vstd::std_specs::ops::{DivSpecImpl, MulSpecImpl};
use std::ops::{Div, Mul};
use crate::arith::{narrow, times};
use crate::model::BivectorModel;

verus! {

/// A bivector with a coefficient for each of the planes `xy`, `yz` and `zx`.
#[derive(Debug, Clone, Copy, PartialEq, Eq, Structural)]
pub struct Bivector {
    pub xy: i32,
    pub yz: i32,
    pub zx: i32,
}

impl View for Bivector {
    type V = BivectorModel;

    open spec fn view(&self) -> BivectorModel {
        BivectorModel { xy: self.xy as int, yz: self.yz as int, zx: self.zx as int }
    }
}

impl Bivector {
    /// The bivector whose coefficients are those of `m`, for a representable
    /// `m`.
    pub open spec fn of(m: BivectorModel) -> Bivector {
        Bivector { xy: m.xy as i32, yz: m.yz as i32, zx: m.zx as i32 }
    }

    /// The bivector with the given coefficients.
    pub fn new(xy: i32, yz: i32, zx: i32) -> (r: Bivector)
        ensures
            r == (Bivector { xy, yz, zx }),
    {
        Bivector { xy, yz, zx }
    }
}

impl Default for Bivector {
    /// The zero bivector.
    fn default() -> (r: Bivector)
        ensures
            r@ == BivectorModel::zero(),
    {
        Bivector { xy: 0, yz: 0, zx: 0 }
    }
}

impl MulSpecImpl<i32> for Bivector {
    open spec fn obeys_mul_spec() -> bool {
        true
    }

    /// The product must be representable.
    open spec fn mul_req(self, rhs: i32) -> bool {
        self@.scaled(rhs as int).representable()
    }

    open spec fn mul_spec(self, rhs: i32) -> Bivector {
        Bivector::of(self@.scaled(rhs as int))
    }
}

impl Mul<i32> for Bivector {
    type Output = Bivector;

    /// Every coefficient multiplied by `rhs`.
    fn mul(self, rhs: i32) -> (r: Bivector)
        ensures
            r@ == self@.scaled(rhs as int),
    {
        Bivector {
            xy: narrow(times(self.xy as i128, rhs)),
            yz: narrow(times(self.yz as i128, rhs)),
            zx: narrow(times(self.zx as i128, rhs)),
        }
    }
}

impl DivSpecImpl<i32> for Bivector {
    open spec fn obeys_div_spec() -> bool {
        true
    }

    /// The divisor must not be zero, and the quotient must be
    /// representable: the smallest integer of 32 bits cannot be divided by
    /// minus one.
    open spec fn div_req(self, rhs: i32) -> bool {
        rhs != 0 && self@.divided(rhs as int).representable()
    }

    open spec fn div_spec(self, rhs: i32) -> Bivector {
        Bivector::of(self@.divided(rhs as int))
    }
}

impl Div<i32> for Bivector {
    type Output = Bivector;

    /// Every coefficient divided by `rhs`, rounded toward zero. The divisor
    /// must not be zero.
    fn div(self, rhs: i32) -> (r: Bivector)
        ensures
            r@ == self@.divided(rhs as int),
    {
        Bivector { xy: self.xy / rhs, yz: self.yz / rhs, zx: self.zx / rhs }
    }
}

} // verus!
