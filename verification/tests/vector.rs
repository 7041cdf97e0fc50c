use rotors::bivector::Bivector;
use rotors::rotor::Rotor3;
use rotors::vector::{GeometricOperations, Vector3};

#[test]
fn new_vector_holds_its_coordinates() {
    let v = Vector3::new(1, -2, 3);
    assert_eq!(v.x, 1);
    assert_eq!(v.y, -2);
    assert_eq!(v.z, 3);
    assert_eq!(v, Vector3 { x: 1, y: -2, z: 3 });
}

#[test]
fn dot_of_two_vectors() {
    let a = Vector3::new(1, 2, 3);
    let b = Vector3::new(4, 5, 6);
    assert_eq!(a.dot(&b), 32);
    assert_eq!(b.dot(&a), 32);
    assert_eq!(a.dot(&Vector3::new(0, 0, 0)), 0);
    assert_eq!(Vector3::new(-1, 2, -3).dot(&Vector3::new(4, -5, 6)), -32);
}

#[test]
fn dot_of_orthogonal_vectors_is_zero() {
    assert_eq!(Vector3::new(1, 0, 0).dot(&Vector3::new(0, 1, 0)), 0);
    assert_eq!(Vector3::new(2, 1, 0).dot(&Vector3::new(-1, 2, 5)), 0);
}

#[test]
fn wedge_of_two_vectors() {
    let a = Vector3::new(1, 2, 3);
    let b = Vector3::new(4, 5, 6);
    assert_eq!(a.wedge(&b), Bivector::new(-3, -3, 6));
}

#[test]
fn wedge_of_basis_vectors_is_basis_plane() {
    let e1 = Vector3::new(1, 0, 0);
    let e2 = Vector3::new(0, 1, 0);
    let e3 = Vector3::new(0, 0, 1);
    assert_eq!(e1.wedge(&e2), Bivector::new(1, 0, 0));
    assert_eq!(e2.wedge(&e3), Bivector::new(0, 1, 0));
    assert_eq!(e3.wedge(&e1), Bivector::new(0, 0, 1));
}

#[test]
fn wedge_is_antisymmetric() {
    let a = Vector3::new(7, -2, 5);
    let b = Vector3::new(-3, 11, 4);
    let ab = a.wedge(&b);
    let ba = b.wedge(&a);
    assert_eq!(ab, Bivector::new(71, -63, -43));
    assert_eq!(ba, Bivector::new(-71, 63, 43));
    assert_eq!(ab, ba * -1);
}

#[test]
fn wedge_with_itself_is_zero() {
    let a = Vector3::new(7, -2, 5);
    assert_eq!(a.wedge(&a), Bivector::new(0, 0, 0));
    assert_eq!(a.wedge(&(a * 3)), Bivector::new(0, 0, 0));
}

#[test]
fn geometric_product_pairs_dot_and_wedge() {
    let a = Vector3::new(1, 2, 3);
    let b = Vector3::new(4, 5, 6);
    let g = a.geometric(&b);
    assert_eq!(g, Rotor3::new(32, Bivector::new(-3, -3, 6)));
    assert_eq!(g.scalar, a.dot(&b));
    assert_eq!(g.bivector, a.wedge(&b));
}

#[test]
fn geometric_product_of_a_vector_with_itself_is_its_squared_length() {
    let a = Vector3::new(2, -3, 6);
    assert_eq!(a.geometric(&a), Rotor3::new(49, Bivector::new(0, 0, 0)));
}

#[test]
fn geometric_product_has_the_product_of_the_lengths_as_norm() {
    let a = Vector3::new(1, 2, 2);
    let b = Vector3::new(2, -3, 6);
    let g = a.geometric(&b);
    let norm = g.scalar * g.scalar + g.bivector.xy * g.bivector.xy
        + g.bivector.yz * g.bivector.yz
        + g.bivector.zx * g.bivector.zx;
    assert_eq!(norm, 9 * 49);
}

#[test]
fn vector_scales_by_an_integer() {
    let v = Vector3::new(1, -2, 3);
    assert_eq!(v * 5, Vector3::new(5, -10, 15));
    assert_eq!(v * 0, Vector3::new(0, 0, 0));
    assert_eq!(v * -1, Vector3::new(-1, 2, -3));
}

#[test]
fn vector_divides_toward_zero() {
    let v = Vector3::new(7, -7, 6);
    assert_eq!(v / 2, Vector3::new(3, -3, 3));
    assert_eq!(v / -2, Vector3::new(-3, 3, -3));
    assert_eq!(v / 1, v);
}

#[test]
fn vector_division_undoes_scaling() {
    let v = Vector3::new(12, -5, 0);
    assert_eq!((v * 7) / 7, v);
    assert_eq!((v * -3) / -3, v);
}

#[test]
fn products_at_the_edge_of_the_range() {
    let a = Vector3::new(46340, 0, 0);
    assert_eq!(a.dot(&a), 2147395600);
    let b = Vector3::new(i32::MIN, 0, 0);
    assert_eq!(b * 1, b);
    assert_eq!(b.dot(&Vector3::new(1, 0, 0)), i32::MIN);
    let c = Vector3::new(65536, 0, 0);
    let d = Vector3::new(65536, 32767, 0);
    assert_eq!(c.wedge(&d), Bivector::new(2147418112, 0, 0));
}
