//! Rotors: a scalar and a bivector.

use vstd::prelude::*;
use vstd::std_specs::ops::MulSpecImpl;
use std::ops::Mul;
use crate::arith::{narrow, times};
use crate::bivector::Bivector;
use crate::model::RotorModel;
use crate::vector::Vector3;

verus! {

/// A rotor: a scalar and a bivector.
#[derive(Debug, Clone, Copy, PartialEq, Eq, Structural)]
pub struct Rotor3 {
    pub scalar: i32,
    pub bivector: Bivector,
}

impl View for Rotor3 {
    type V = RotorModel;

    open spec fn view(&self) -> RotorModel {
        RotorModel { scalar: self.scalar as int, bivector: self.bivector@ }
    }
}

impl Rotor3 {
    /// The rotor whose scalar and coefficients are those of `m`, for a
    /// representable `m`.
    pub open spec fn of(m: RotorModel) -> Rotor3 {
        Rotor3 { scalar: m.scalar as i32, bivector: Bivector::of(m.bivector) }
    }

    /// The rotor with the given scalar and bivector.
    pub fn new(scalar: i32, bivector: Bivector) -> (r: Rotor3)
        ensures
            r == (Rotor3 { scalar, bivector }),
    {
        Rotor3 { scalar, bivector }
    }
}

impl Default for Rotor3 {
    /// The identity rotor.
    fn default() -> (r: Rotor3)
        ensures
            r@ == RotorModel::identity(),
    {
        Rotor3 { scalar: 1, bivector: Bivector { xy: 0, yz: 0, zx: 0 } }
    }
}

impl MulSpecImpl<Vector3> for Rotor3 {
    open spec fn obeys_mul_spec() -> bool {
        true
    }

    /// The turned vector must be representable.
    open spec fn mul_req(self, rhs: Vector3) -> bool {
        self@.rotate(rhs@).representable()
    }

    open spec fn mul_spec(self, rhs: Vector3) -> Vector3 {
        Vector3::of(self@.rotate(rhs@))
    }
}

impl Mul<Vector3> for Rotor3 {
    type Output = Vector3;

    /// The vector `rhs` turned by the rotor: the sandwich product.
    fn mul(self, rhs: Vector3) -> (r: Vector3)
        ensures
            r@ == self@.rotate(rhs@),
    {
        let s = self.scalar;
        let Bivector { xy, yz, zx } = self.bivector;
        let (vx, vy, vz) = (rhs.x as i128, rhs.y as i128, rhs.z as i128);

        let sx = times(vx, s) + times(vy, xy) - times(vz, zx);
        let sy = times(vy, s) - times(vx, xy) + times(vz, yz);
        let sz = times(vz, s) - times(vy, yz) + times(vx, zx);
        let sxyz = times(vx, yz) + times(vy, zx) + times(vz, xy);

        let x = times(sx, s) + times(sy, xy) - times(sz, zx) + times(sxyz, yz);
        let y = times(sy, s) - times(sx, xy) + times(sz, yz) + times(sxyz, zx);
        let z = times(sz, s) + times(sx, zx) - times(sy, yz) + times(sxyz, xy);

        Vector3 { x: narrow(x), y: narrow(y), z: narrow(z) }
    }
}

impl MulSpecImpl<Rotor3> for Rotor3 {
    open spec fn obeys_mul_spec() -> bool {
        true
    }

    /// The product must be representable.
    open spec fn mul_req(self, rhs: Rotor3) -> bool {
        self@.compose(rhs@).representable()
    }

    open spec fn mul_spec(self, rhs: Rotor3) -> Rotor3 {
        Rotor3::of(self@.compose(rhs@))
    }
}

impl Mul<Rotor3> for Rotor3 {
    type Output = Rotor3;

    /// The geometric product of two rotors: the rotor that turns by `rhs`
    /// and then by `self`.
    fn mul(self, rhs: Rotor3) -> (r: Rotor3)
        ensures
            r@ == self@.compose(rhs@),
    {
        let (s1, s2) = (self.scalar as i128, rhs.scalar);
        let (xy1, yz1, zx1) = (
            self.bivector.xy as i128,
            self.bivector.yz as i128,
            self.bivector.zx as i128,
        );
        let Bivector { xy: xy2, yz: yz2, zx: zx2 } = rhs.bivector;

        let s = times(s1, s2) - times(xy1, xy2) - times(yz1, yz2) - times(zx1, zx2);
        let xy = times(s1, xy2) + times(xy1, s2) - times(yz1, zx2) + times(zx1, yz2);
        let yz = times(s1, yz2) + times(xy1, zx2) + times(yz1, s2) - times(zx1, xy2);
        let zx = times(s1, zx2) - times(xy1, yz2) + times(yz1, xy2) + times(zx1, s2);

        Rotor3 {
            scalar: narrow(s),
            bivector: Bivector { xy: narrow(xy), yz: narrow(yz), zx: narrow(zx) },
        }
    }
}

} // verus!
