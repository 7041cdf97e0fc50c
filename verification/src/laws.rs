//! What holds of the algebra, for all integers.
//!
//! The rotors form a ring under composition, and turning a vector is
//! conjugation in that ring: with the vector `v` written as the bivector
//! `v.dual()` of the plane orthogonal to it, `r` turns `v` into `r v r~`.
//! What is stated here of composition and rotation follows from that, from
//! the associativity of the product and from `r r~` being the squared norm
//! of `r`.

use vstd::prelude::*;
use vstd::arithmetic::mul::{group_mul_is_distributive, lemma_mul_is_associative};
use crate::model::{quotient, BivectorModel, RotorModel, VectorModel};
use crate::vector::Vector3;

verus! {

/// The number `k` as a rotor.
spec fn number(k: int) -> RotorModel {
    RotorModel { scalar: k, bivector: BivectorModel::zero() }
}

/// The rotor `r` with its scalar and bivector multiplied by `k`.
spec fn scaled(r: RotorModel, k: int) -> RotorModel {
    RotorModel { scalar: r.scalar * k, bivector: r.bivector.scaled(k) }
}

/// `a.compose(b)`, kept folded.
#[verifier::opaque]
spec fn product(a: RotorModel, b: RotorModel) -> RotorModel {
    a.compose(b)
}

/// `r.rotate(v)`, kept folded.
#[verifier::opaque]
spec fn turned(r: RotorModel, v: VectorModel) -> VectorModel {
    r.rotate(v)
}

/// `r d r~`, kept folded.
#[verifier::opaque]
spec fn conjugate(r: RotorModel, d: RotorModel) -> RotorModel {
    r.compose(d).compose(r.reverse())
}

proof fn lemma_square_is_definite(x: int)
    ensures
        x * x >= 0,
        x * x == 0 <==> x == 0,
{
    assert(x * x >= 0 && (x * x == 0 <==> x == 0)) by (nonlinear_arith);
}

/// The inner product does not depend on the order of its operands.
pub proof fn dot_is_symmetric(a: VectorModel, b: VectorModel)
    ensures
        a.dot(b) == b.dot(a),
{
}

/// Exchanging the operands of the outer product negates it.
pub proof fn wedge_is_antisymmetric(a: VectorModel, b: VectorModel)
    ensures
        a.wedge(b) == b.wedge(a).negated(),
{
}

/// The outer product of a vector with itself is the zero bivector.
pub proof fn wedge_with_itself_vanishes(a: VectorModel)
    ensures
        a.wedge(a) == BivectorModel::zero(),
{
}

/// The squared norm of a bivector is never negative, and it is zero for the
/// zero bivector alone.
pub proof fn bivector_norm_is_definite(b: BivectorModel)
    ensures
        b.norm_squared() >= 0,
        b.norm_squared() == 0 <==> b == BivectorModel::zero(),
{
    lemma_square_is_definite(b.xy);
    lemma_square_is_definite(b.yz);
    lemma_square_is_definite(b.zx);
}

/// The squared length of a vector is never negative, and it is zero for the
/// zero vector alone.
pub proof fn vector_length_is_definite(v: VectorModel)
    ensures
        v.norm_squared() >= 0,
        v.norm_squared() == 0 <==> v == (VectorModel { x: 0, y: 0, z: 0 }),
{
    lemma_square_is_definite(v.x);
    lemma_square_is_definite(v.y);
    lemma_square_is_definite(v.z);
}

/// Dividing a multiple of `k` by `k` gives back what was multiplied.
pub proof fn quotient_of_multiple(a: int, k: int)
    requires
        k != 0,
    ensures
        quotient(a * k, k) == a,
{
    if a * k >= 0 {
        assert((a * k) / k == a) by (nonlinear_arith)
            requires
                k != 0,
        ;
    } else {
        assert((-(a * k)) / k == -a) by (nonlinear_arith)
            requires
                k != 0,
        ;
    }
}

/// Scaling a vector by a number other than zero and dividing by the same
/// number gives back the vector.
pub proof fn division_undoes_scaling_of_vector(v: VectorModel, k: int)
    requires
        k != 0,
    ensures
        v.scaled(k).divided(k) == v,
{
    quotient_of_multiple(v.x, k);
    quotient_of_multiple(v.y, k);
    quotient_of_multiple(v.z, k);
}

/// Scaling a bivector by a number other than zero and dividing by the same
/// number gives back the bivector.
pub proof fn division_undoes_scaling_of_bivector(b: BivectorModel, k: int)
    requires
        k != 0,
    ensures
        b.scaled(k).divided(k) == b,
{
    quotient_of_multiple(b.xy, k);
    quotient_of_multiple(b.yz, k);
    quotient_of_multiple(b.zx, k);
}

/// The identity rotor is neutral for composition.
pub proof fn identity_is_neutral(r: RotorModel)
    ensures
        RotorModel::identity().compose(r) == r,
        r.compose(RotorModel::identity()) == r,
{
}

/// The composition of rotors is associative.
pub proof fn composition_is_associative(a: RotorModel, b: RotorModel, c: RotorModel)
    ensures
        a.compose(b).compose(c) == a.compose(b.compose(c)),
{
    broadcast use group_mul_is_distributive, lemma_mul_is_associative;
}

/// Composition depends on the order of its operands: the two products of the
/// unit bivectors of the planes `xy` and `yz` differ.
pub proof fn composition_is_not_commutative()
    ensures
        exists|a: RotorModel, b: RotorModel| a.compose(b) != b.compose(a),
{
    let a = RotorModel { scalar: 0, bivector: BivectorModel { xy: 1, yz: 0, zx: 0 } };
    let b = RotorModel { scalar: 0, bivector: BivectorModel { xy: 0, yz: 1, zx: 0 } };
    assert(a.compose(b).bivector.zx == -1);
    assert(b.compose(a).bivector.zx == 1);
}

/// The reverse of a product is the product of the reverses in the other
/// order.
pub proof fn reverse_of_composition(a: RotorModel, b: RotorModel)
    ensures
        a.compose(b).reverse() == b.reverse().compose(a.reverse()),
{
    let (l, r) = (a.compose(b).reverse(), b.reverse().compose(a.reverse()));
    assert(l.scalar == r.scalar) by (nonlinear_arith)
        requires
            l == a.compose(b).reverse(),
            r == b.reverse().compose(a.reverse()),
    ;
    assert(l.bivector.xy == r.bivector.xy) by (nonlinear_arith)
        requires
            l == a.compose(b).reverse(),
            r == b.reverse().compose(a.reverse()),
    ;
    assert(l.bivector.yz == r.bivector.yz) by (nonlinear_arith)
        requires
            l == a.compose(b).reverse(),
            r == b.reverse().compose(a.reverse()),
    ;
    assert(l.bivector.zx == r.bivector.zx) by (nonlinear_arith)
        requires
            l == a.compose(b).reverse(),
            r == b.reverse().compose(a.reverse()),
    ;
}

proof fn lemma_norm_of_reverse(a: RotorModel)
    ensures
        a.reverse().norm_squared() == a.norm_squared(),
{
    let b = a.bivector;
    assert((-b.xy) * (-b.xy) == b.xy * b.xy) by (nonlinear_arith);
    assert((-b.yz) * (-b.yz) == b.yz * b.yz) by (nonlinear_arith);
    assert((-b.zx) * (-b.zx) == b.zx * b.zx) by (nonlinear_arith);
}

proof fn lemma_product_with_reverse(a: RotorModel)
    ensures
        a.compose(a.reverse()) == number(a.norm_squared()),
{
    let (s, b) = (a.scalar, a.bivector);
    let c = a.compose(a.reverse());
    assert(c.scalar == a.norm_squared()) by (nonlinear_arith)
        requires
            c.scalar == s * s - b.xy * (-b.xy) - b.yz * (-b.yz) - b.zx * (-b.zx),
            a.norm_squared() == s * s + (b.xy * b.xy + b.yz * b.yz + b.zx * b.zx),
    ;
    assert(c.bivector.xy == 0) by (nonlinear_arith)
        requires
            c.bivector.xy == s * (-b.xy) + b.xy * s - b.yz * (-b.zx) + b.zx * (-b.yz),
    ;
    assert(c.bivector.yz == 0) by (nonlinear_arith)
        requires
            c.bivector.yz == s * (-b.yz) + b.xy * (-b.zx) + b.yz * s - b.zx * (-b.xy),
    ;
    assert(c.bivector.zx == 0) by (nonlinear_arith)
        requires
            c.bivector.zx == s * (-b.zx) - b.xy * (-b.yz) + b.yz * (-b.xy) + b.zx * s,
    ;
}

proof fn lemma_product_with_number(a: RotorModel, k: int)
    ensures
        a.compose(number(k)) == scaled(a, k),
{
    let (s, b) = (a.scalar, a.bivector);
    let c = a.compose(number(k));
    assert(c.scalar == s * k) by (nonlinear_arith)
        requires
            c.scalar == s * k - b.xy * 0 - b.yz * 0 - b.zx * 0,
    ;
    assert(c.bivector.xy == b.xy * k) by (nonlinear_arith)
        requires
            c.bivector.xy == s * 0 + b.xy * k - b.yz * 0 + b.zx * 0,
    ;
    assert(c.bivector.yz == b.yz * k) by (nonlinear_arith)
        requires
            c.bivector.yz == s * 0 + b.xy * 0 + b.yz * k - b.zx * 0,
    ;
    assert(c.bivector.zx == b.zx * k) by (nonlinear_arith)
        requires
            c.bivector.zx == s * 0 - b.xy * 0 + b.yz * 0 + b.zx * k,
    ;
}

proof fn lemma_product_of_scaled(a: RotorModel, k: int, b: RotorModel)
    ensures
        scaled(a, k).compose(b) == scaled(a.compose(b), k),
{
    broadcast use group_mul_is_distributive, lemma_mul_is_associative;
}

/// The squared norm of a product of rotors is the product of their squared
/// norms.
pub proof fn norm_is_multiplicative(a: RotorModel, b: RotorModel)
    ensures
        a.compose(b).norm_squared() == a.norm_squared() * b.norm_squared(),
{
    let ab = a.compose(b);
    lemma_product_with_reverse(ab);
    reverse_of_composition(a, b);
    composition_is_associative(ab, b.reverse(), a.reverse());
    composition_is_associative(a, b, b.reverse());
    lemma_product_with_reverse(b);
    lemma_product_with_number(a, b.norm_squared());
    lemma_product_of_scaled(a, b.norm_squared(), a.reverse());
    lemma_product_with_reverse(a);
    assert(number(ab.norm_squared()) == scaled(number(a.norm_squared()), b.norm_squared()));
}

/// The product of two rotors of norm one has norm one.
pub proof fn unit_rotors_compose_to_unit_rotor(a: RotorModel, b: RotorModel)
    requires
        a.is_unit(),
        b.is_unit(),
    ensures
        a.compose(b).is_unit(),
{
    norm_is_multiplicative(a, b);
    let (m, n) = (a.norm_squared(), b.norm_squared());
    assert(m * n == 1) by (nonlinear_arith)
        requires
            m == 1,
            n == 1,
    ;
}

/// The reverse of a rotor of norm one is its inverse.
pub proof fn reverse_of_unit_rotor_is_inverse(r: RotorModel)
    requires
        r.is_unit(),
    ensures
        r.compose(r.reverse()) == RotorModel::identity(),
        r.reverse().compose(r) == RotorModel::identity(),
{
    lemma_product_with_reverse(r);
    lemma_product_with_reverse(r.reverse());
    lemma_norm_of_reverse(r);
    assert(r.reverse().reverse() == r);
}

/// The squared norm of the geometric product of two vectors is the product
/// of their squared lengths.
pub proof fn geometric_norm_is_product_of_lengths(a: VectorModel, b: VectorModel)
    ensures
        a.geometric(b).norm_squared() == a.norm_squared() * b.norm_squared(),
{
    let g = a.geometric(b);
    let c = a.dual().compose(b.dual());
    assert(c.scalar == -g.scalar && c.bivector == g.bivector.negated()) by (nonlinear_arith)
        requires
            c == a.dual().compose(b.dual()),
            g == a.geometric(b),
    ;
    assert(c.norm_squared() == g.norm_squared()) by (nonlinear_arith)
        requires
            c.scalar == -g.scalar,
            c.bivector.xy == -g.bivector.xy,
            c.bivector.yz == -g.bivector.yz,
            c.bivector.zx == -g.bivector.zx,
    ;
    norm_is_multiplicative(a.dual(), b.dual());
}

/// The identity rotor leaves every vector as it is.
pub proof fn identity_rotor_fixes_every_vector(v: VectorModel)
    ensures
        RotorModel::identity().rotate(v) == v,
{
}

/// The identity rotor can be applied to every vector that is held in 32 bits:
/// what it returns is held in 32 bits too.
pub proof fn identity_rotor_applies_to_every_vector(v: Vector3)
    ensures
        RotorModel::identity().rotate(v@).representable(),
{
}

/// The part of `(r v) r~` along the unit volume: it is zero, so that the
/// sandwich product of a vector is a vector again.
proof fn lemma_volume_vanishes(s: int, xy: int, yz: int, zx: int, vx: int, vy: int, vz: int)
    ensures
        (vx * s + vy * xy - vz * zx) * yz + (vy * s - vx * xy + vz * yz) * zx + (vz * s - vy * yz
            + vx * zx) * xy - (vx * yz + vy * zx + vz * xy) * s == 0,
{
    broadcast use group_mul_is_distributive, lemma_mul_is_associative;
}

/// Turning a vector is conjugation: the dual of the turned vector is
/// `r v.dual() r~`.
pub proof fn rotation_is_conjugation(r: RotorModel, v: VectorModel)
    ensures
        r.rotate(v).dual() == r.compose(v.dual()).compose(r.reverse()),
{
    let (s, b) = (r.scalar, r.bivector);
    let m = r.times_vector(v);
    let e = r.compose(v.dual());
    let f = e.compose(r.reverse());
    let w = r.rotate(v);
    assert(e.scalar == -m.xyz && e.bivector.xy == m.z && e.bivector.yz == m.x && e.bivector.zx
        == m.y) by (nonlinear_arith)
        requires
            e == r.compose(v.dual()),
            m == r.times_vector(v),
    ;
    assert(f.bivector.yz == w.x) by (nonlinear_arith)
        requires
            f.bivector.yz == (-m.xyz) * (-b.yz) + m.z * (-b.zx) + m.x * s - m.y * (-b.xy),
            w.x == m.x * s + m.y * b.xy - m.z * b.zx + m.xyz * b.yz,
    ;
    assert(f.bivector.zx == w.y) by (nonlinear_arith)
        requires
            f.bivector.zx == (-m.xyz) * (-b.zx) - m.z * (-b.yz) + m.x * (-b.xy) + m.y * s,
            w.y == m.y * s - m.x * b.xy + m.z * b.yz + m.xyz * b.zx,
    ;
    assert(f.bivector.xy == w.z) by (nonlinear_arith)
        requires
            f.bivector.xy == (-m.xyz) * (-b.xy) + m.z * s - m.x * (-b.zx) + m.y * (-b.yz),
            w.z == m.z * s + m.x * b.zx - m.y * b.yz + m.xyz * b.xy,
    ;
    assert(f.scalar == 0) by {
        lemma_volume_vanishes(s, b.xy, b.yz, b.zx, v.x, v.y, v.z);
        assert(f.scalar == m.x * b.yz + m.y * b.zx + m.z * b.xy - m.xyz * s) by (nonlinear_arith)
            requires
                f.scalar == (-m.xyz) * s - m.z * (-b.xy) - m.x * (-b.yz) - m.y * (-b.zx),
        ;
    }
}

proof fn lemma_conjugate_by_product(r: RotorModel, p: RotorModel, d: RotorModel)
    ensures
        conjugate(product(r, p), d) == conjugate(r, conjugate(p, d)),
{
    reveal(product);
    reveal(conjugate);
    reverse_of_composition(r, p);
    composition_is_associative(r.compose(p).compose(d), p.reverse(), r.reverse());
    composition_is_associative(r, p, d);
    composition_is_associative(r, p.compose(d), p.reverse());
}

proof fn lemma_turned_is_conjugate(r: RotorModel, v: VectorModel)
    ensures
        turned(r, v).dual() == conjugate(r, v.dual()),
{
    reveal(turned);
    reveal(conjugate);
    rotation_is_conjugation(r, v);
}

proof fn lemma_turned_by_product(r: RotorModel, p: RotorModel, v: VectorModel)
    ensures
        turned(product(r, p), v) == turned(r, turned(p, v)),
{
    lemma_turned_is_conjugate(product(r, p), v);
    lemma_conjugate_by_product(r, p, v.dual());
    lemma_turned_is_conjugate(p, v);
    lemma_turned_is_conjugate(r, turned(p, v));
    assert(turned(product(r, p), v).dual() == turned(r, turned(p, v)).dual());
}

/// Turning by a product of rotors is turning by the right factor and then
/// by the left one. With both factors the same rotor: turning by its square
/// is turning by it twice.
pub proof fn composition_rotates_in_turn(r: RotorModel, p: RotorModel, v: VectorModel)
    ensures
        r.compose(p).rotate(v) == r.rotate(p.rotate(v)),
{
    reveal(product);
    reveal(turned);
    lemma_turned_by_product(r, p, v);
}

/// Turning a vector by a rotor multiplies the square of its length by the
/// square of the rotor's squared norm.
pub proof fn rotation_scales_length(r: RotorModel, v: VectorModel)
    ensures
        r.rotate(v).norm_squared() == r.norm_squared() * r.norm_squared() * v.norm_squared(),
{
    let d = v.dual();
    let n = r.norm_squared();
    rotation_is_conjugation(r, v);
    norm_is_multiplicative(r.compose(d), r.reverse());
    norm_is_multiplicative(r, d);
    lemma_norm_of_reverse(r);
    assert(r.rotate(v).dual().norm_squared() == r.rotate(v).norm_squared());
    assert(d.norm_squared() == v.norm_squared());
    assert((n * d.norm_squared()) * n == n * n * d.norm_squared()) by (nonlinear_arith);
}

/// A rotor of norm one keeps the length of every vector.
pub proof fn unit_rotor_preserves_length(r: RotorModel, v: VectorModel)
    requires
        r.is_unit(),
    ensures
        r.rotate(v).norm_squared() == v.norm_squared(),
{
    rotation_scales_length(r, v);
    let (n, m) = (r.norm_squared(), v.norm_squared());
    assert(n * n * m == m) by (nonlinear_arith)
        requires
            n == 1,
    ;
}

} // verus!
