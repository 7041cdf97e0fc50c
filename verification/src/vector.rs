//! Vectors of three integer coordinates.

use vstd::prelude::*;
use vstd::std_specs::ops::{DivSpecImpl, MulSpecImpl};
use std::ops::{Div, Mul};
use crate::arith::{narrow, times};
use crate::bivector::Bivector;
use crate::model::{fits, VectorModel};
use crate::rotor::Rotor3;

verus! {

/// A vector with coordinates `x`, `y` and `z`.
#[derive(Debug, Clone, Copy, PartialEq, Eq, Structural)]
pub struct Vector3 {
    pub x: i32,
    pub y: i32,
    pub z: i32,
}

impl View for Vector3 {
    type V = VectorModel;

    open spec fn view(&self) -> VectorModel {
        VectorModel { x: self.x as int, y: self.y as int, z: self.z as int }
    }
}

impl Vector3 {
    /// The vector whose coordinates are those of `m`, for a representable `m`.
    pub open spec fn of(m: VectorModel) -> Vector3 {
        Vector3 { x: m.x as i32, y: m.y as i32, z: m.z as i32 }
    }

    /// The vector with the given coordinates.
    pub fn new(x: i32, y: i32, z: i32) -> (r: Vector3)
        ensures
            r == (Vector3 { x, y, z }),
    {
        Vector3 { x, y, z }
    }
}

/// The products of two vectors.
pub trait GeometricOperations: View<V = VectorModel> + Sized {
    /// The outer product of `self` and `rhs`.
    fn wedge(&self, rhs: &Self) -> (r: Bivector)
        requires
            self@.wedge(rhs@).representable(),
        ensures
            r@ == self@.wedge(rhs@),
    ;

    /// The inner product of `self` and `rhs`.
    fn dot(&self, rhs: &Self) -> (r: i32)
        requires
            fits(self@.dot(rhs@)),
        ensures
            r == self@.dot(rhs@),
    ;

    /// The geometric product of `self` and `rhs`.
    fn geometric(&self, rhs: &Self) -> (r: Rotor3)
        requires
            self@.geometric(rhs@).representable(),
        ensures
            r@ == self@.geometric(rhs@),
    ;
}

impl GeometricOperations for Vector3 {
    fn wedge(&self, rhs: &Self) -> (r: Bivector) {
        let (x1, y1, z1) = (self.x as i128, self.y as i128, self.z as i128);
        let xy = times(x1, rhs.y) - times(y1, rhs.x);
        let yz = times(y1, rhs.z) - times(z1, rhs.y);
        let zx = times(z1, rhs.x) - times(x1, rhs.z);
        Bivector { xy: narrow(xy), yz: narrow(yz), zx: narrow(zx) }
    }

    fn dot(&self, rhs: &Self) -> (r: i32) {
        let (x1, y1, z1) = (self.x as i128, self.y as i128, self.z as i128);
        let sum = times(x1, rhs.x) + times(y1, rhs.y) + times(z1, rhs.z);
        narrow(sum)
    }

    fn geometric(&self, rhs: &Self) -> (r: Rotor3) {
        Rotor3 { scalar: self.dot(rhs), bivector: self.wedge(rhs) }
    }
}

impl MulSpecImpl<i32> for Vector3 {
    open spec fn obeys_mul_spec() -> bool {
        true
    }

    /// The product must be representable.
    open spec fn mul_req(self, rhs: i32) -> bool {
        self@.scaled(rhs as int).representable()
    }

    open spec fn mul_spec(self, rhs: i32) -> Vector3 {
        Vector3::of(self@.scaled(rhs as int))
    }
}

impl Mul<i32> for Vector3 {
    type Output = Vector3;

    /// Every coordinate multiplied by `rhs`.
    fn mul(self, rhs: i32) -> (r: Vector3)
        ensures
            r@ == self@.scaled(rhs as int),
    {
        Vector3 {
            x: narrow(times(self.x as i128, rhs)),
            y: narrow(times(self.y as i128, rhs)),
            z: narrow(times(self.z as i128, rhs)),
        }
    }
}

impl DivSpecImpl<i32> for Vector3 {
    open spec fn obeys_div_spec() -> bool {
        true
    }

    /// The divisor must not be zero, and the quotient must be
    /// representable: the smallest integer of 32 bits cannot be divided by
    /// minus one.
    open spec fn div_req(self, rhs: i32) -> bool {
        rhs != 0 && self@.divided(rhs as int).representable()
    }

    open spec fn div_spec(self, rhs: i32) -> Vector3 {
        Vector3::of(self@.divided(rhs as int))
    }
}

impl Div<i32> for Vector3 {
    type Output = Vector3;

    /// Every coordinate divided by `rhs`, rounded toward zero. The divisor
    /// must not be zero.
    fn div(self, rhs: i32) -> (r: Vector3)
        ensures
            r@ == self@.divided(rhs as int),
    {
        Vector3 { x: self.x / rhs, y: self.y / rhs, z: self.z / rhs }
    }
}

} // verus!
