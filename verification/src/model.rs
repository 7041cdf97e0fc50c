//! The algebra on mathematical integers.
//!
//! The types here exist only in specifications and proofs. Each executable
//! type views as one of them, and each executable operation is specified
//! by the function of the same meaning here.

use vstd::prelude::*;

verus! {

/// Whether an integer can be held in a coordinate.
pub open spec fn fits(value: int) -> bool {
    i32::MIN <= value <= i32::MAX
}

/// The quotient of `a` by `b` rounded toward zero; meaningful for `b != 0`.
pub open spec fn quotient(a: int, b: int) -> int {
    if a >= 0 {
        a / b
    } else {
        -((-a) / b)
    }
}

/// A vector `x e1 + y e2 + z e3`.
pub struct VectorModel {
    pub x: int,
    pub y: int,
    pub z: int,
}

/// A bivector `xy e12 + yz e23 + zx e31`: an oriented plane element.
pub struct BivectorModel {
    pub xy: int,
    pub yz: int,
    pub zx: int,
}

/// A scalar plus a bivector.
pub struct RotorModel {
    pub scalar: int,
    pub bivector: BivectorModel,
}

/// A vector plus a multiple of the unit volume `e123`: what the product of a
/// rotor and a vector is.
pub struct OddModel {
    pub x: int,
    pub y: int,
    pub z: int,
    pub xyz: int,
}

impl VectorModel {
    /// The inner product.
    pub open spec fn dot(self, rhs: VectorModel) -> int {
        self.x * rhs.x + self.y * rhs.y + self.z * rhs.z
    }

    /// The outer product: the plane element spanned by the two vectors.
    pub open spec fn wedge(self, rhs: VectorModel) -> BivectorModel {
        BivectorModel {
            xy: self.x * rhs.y - self.y * rhs.x,
            yz: self.y * rhs.z - self.z * rhs.y,
            zx: self.z * rhs.x - self.x * rhs.z,
        }
    }

    /// The geometric product of two vectors: their inner product as the
    /// scalar, their outer product as the bivector.
    pub open spec fn geometric(self, rhs: VectorModel) -> RotorModel {
        RotorModel { scalar: self.dot(rhs), bivector: self.wedge(rhs) }
    }

    /// Every coordinate multiplied by `k`.
    pub open spec fn scaled(self, k: int) -> VectorModel {
        VectorModel { x: self.x * k, y: self.y * k, z: self.z * k }
    }

    /// Every coordinate divided by `k`, rounded toward zero.
    pub open spec fn divided(self, k: int) -> VectorModel {
        VectorModel { x: quotient(self.x, k), y: quotient(self.y, k), z: quotient(self.z, k) }
    }

    /// The square of the Euclidean length.
    pub open spec fn norm_squared(self) -> int {
        self.x * self.x + self.y * self.y + self.z * self.z
    }

    /// The bivector of the plane orthogonal to the vector, as a rotor
    /// without scalar: the vector multiplied by the unit volume `e123`.
    pub open spec fn dual(self) -> RotorModel {
        RotorModel { scalar: 0, bivector: BivectorModel { xy: self.z, yz: self.x, zx: self.y } }
    }

    /// Whether every coordinate can be held in 32 bits.
    pub open spec fn representable(self) -> bool {
        fits(self.x) && fits(self.y) && fits(self.z)
    }
}

impl BivectorModel {
    /// The bivector of no plane.
    pub open spec fn zero() -> BivectorModel {
        BivectorModel { xy: 0, yz: 0, zx: 0 }
    }

    /// Every coefficient negated: the same plane with the other orientation.
    pub open spec fn negated(self) -> BivectorModel {
        BivectorModel { xy: -self.xy, yz: -self.yz, zx: -self.zx }
    }

    /// Every coefficient multiplied by `k`.
    pub open spec fn scaled(self, k: int) -> BivectorModel {
        BivectorModel { xy: self.xy * k, yz: self.yz * k, zx: self.zx * k }
    }

    /// Every coefficient divided by `k`, rounded toward zero.
    pub open spec fn divided(self, k: int) -> BivectorModel {
        BivectorModel {
            xy: quotient(self.xy, k),
            yz: quotient(self.yz, k),
            zx: quotient(self.zx, k),
        }
    }

    /// The square of the Euclidean norm of the three coefficients.
    pub open spec fn norm_squared(self) -> int {
        self.xy * self.xy + self.yz * self.yz + self.zx * self.zx
    }

    /// Whether every coefficient can be held in 32 bits.
    pub open spec fn representable(self) -> bool {
        fits(self.xy) && fits(self.yz) && fits(self.zx)
    }
}

impl RotorModel {
    /// The rotor that turns nothing: scalar one, no bivector.
    pub open spec fn identity() -> RotorModel {
        RotorModel { scalar: 1, bivector: BivectorModel::zero() }
    }

    /// The reverse: the same scalar with the bivector negated.
    pub open spec fn reverse(self) -> RotorModel {
        RotorModel { scalar: self.scalar, bivector: self.bivector.negated() }
    }

    /// The geometric product `self rhs` of two rotors.
    pub open spec fn compose(self, rhs: RotorModel) -> RotorModel {
        let (s1, a) = (self.scalar, self.bivector);
        let (s2, b) = (rhs.scalar, rhs.bivector);
        RotorModel {
            scalar: s1 * s2 - a.xy * b.xy - a.yz * b.yz - a.zx * b.zx,
            bivector: BivectorModel {
                xy: s1 * b.xy + a.xy * s2 - a.yz * b.zx + a.zx * b.yz,
                yz: s1 * b.yz + a.xy * b.zx + a.yz * s2 - a.zx * b.xy,
                zx: s1 * b.zx - a.xy * b.yz + a.yz * b.xy + a.zx * s2,
            },
        }
    }

    /// The geometric product `self v` of the rotor and a vector.
    pub open spec fn times_vector(self, v: VectorModel) -> OddModel {
        let (s, b) = (self.scalar, self.bivector);
        OddModel {
            x: v.x * s + v.y * b.xy - v.z * b.zx,
            y: v.y * s - v.x * b.xy + v.z * b.yz,
            z: v.z * s - v.y * b.yz + v.x * b.zx,
            xyz: v.x * b.yz + v.y * b.zx + v.z * b.xy,
        }
    }

    /// The sandwich product: `self v` multiplied by the reverse of `self`.
    pub open spec fn rotate(self, v: VectorModel) -> VectorModel {
        self.times_vector(v).times_reverse(self)
    }

    /// The scalar squared plus the squared norm of the bivector.
    pub open spec fn norm_squared(self) -> int {
        self.scalar * self.scalar + self.bivector.norm_squared()
    }

    /// Whether the rotor has norm one.
    pub open spec fn is_unit(self) -> bool {
        self.norm_squared() == 1
    }

    /// Whether the scalar and every coefficient can be held in 32 bits.
    pub open spec fn representable(self) -> bool {
        fits(self.scalar) && self.bivector.representable()
    }
}

impl OddModel {
    /// The vector part of the geometric product of `self` and the reverse
    /// of `r`.
    pub open spec fn times_reverse(self, r: RotorModel) -> VectorModel {
        let (s, b) = (r.scalar, r.bivector);
        VectorModel {
            x: self.x * s + self.y * b.xy - self.z * b.zx + self.xyz * b.yz,
            y: self.y * s - self.x * b.xy + self.z * b.yz + self.xyz * b.zx,
            z: self.z * s + self.x * b.zx - self.y * b.yz + self.xyz * b.xy,
        }
    }
}

} // verus!
