use tracer::coord::Coord;
use tracer::vec3::Vec3;
use tracer::vector::Vector;

const TESTING_VEC1: Vec3 = Vec3 { x: 1, y: 3, z: 8 };
const TESTING_VEC2: Vec3 = Vec3 { x: 2, y: 2, z: 2 };
const TESTING_VEC3: Vec3 = Vec3 { x: 3, y: 5, z: 10 };
const TESTING_VEC4: Vec3 = Vec3 { x: 2, y: 6, z: 16 };
const TESTING_VEC5: Vec3 = Vec3 { x: -1, y: 1, z: 6 };

#[test]
fn from_arr() {
    assert_eq!(Vec3::from([1, 3, 8]), TESTING_VEC1);
}

#[test]
fn add() {
    assert_eq!(TESTING_VEC1 + TESTING_VEC2, TESTING_VEC3)
}

#[test]
fn subtract() {
    assert_eq!(TESTING_VEC1 - TESTING_VEC2, TESTING_VEC5)
}

#[test]
fn vector_mul_vector() {
    assert_eq!(TESTING_VEC1 * TESTING_VEC2, TESTING_VEC4)
}

#[test]
fn vec3_dot_and_cross() {
    let a = Vec3::new(1, 2, 3);
    let b = Vec3::new(2, 3, 4);
    assert_eq!(a.dot(b), 20);
    assert_eq!(a.cross(b), Vec3::new(-1, 2, -1));
    assert_eq!(a.x(), 1);
    assert_eq!(a.y(), 2);
    assert_eq!(a.z(), 3);
}

#[test]
fn cross_product() {
    let a = Vector::new(1, 2, 3);
    let b = Vector::new(2, 3, 4);
    assert_eq!(a.cross_product(&b), Vector::new(-1, 2, -1));
    assert_eq!(b.cross_product(&a), Vector::new(1, -2, 1));
}

#[test]
fn vector_dot_product() {
    let a = Vector::new(1, 2, 3);
    let b = Vector::new(2, 3, 4);
    assert_eq!(a.dot(&b), 20);
    assert_eq!(Vector::new(1, 0, 0).dot(&Vector::new(1, 0, 0)), 1);
}

#[test]
fn reflect_vector_around_normal() {
    let v = Vector::new(1, -1, 0);
    let n = Vector::new(0, 1, 0);
    assert_eq!(v.reflect(&n), Vector::new(1, 1, 0));
}

#[test]
fn vector_sum_and_difference() {
    let a = Vector::new(1, 1, 1);
    let b = Vector::new(35, 8, 25);
    assert_eq!(a + b, Vector::new(36, 9, 26));
    assert_eq!(a - b, Vector::new(-34, -7, -24));
    assert_eq!(b.negate(), Vector::new(-35, -8, -25));
}

#[test]
fn coordinate_walks() {
    let p = Coord::new(75, -93, 71);
    let v = Vector::new(1, 1, 1);
    assert_eq!(p.add_vector(&v), Coord::new(76, -92, 72));
    assert_eq!(p.subtract_vector(&v), Coord::new(74, -94, 70));
    assert_eq!(p + v, Coord::new(76, -92, 72));
    assert_eq!(p - v, Coord::new(74, -94, 70));
}

#[test]
fn vector_between_points() {
    let p = Coord::new(41, 37, 49);
    assert_eq!(p.vector_to(&p), Vector::new(0, 0, 0));
    let q = Coord::new(1, 1, 1);
    assert_eq!(q.vector_to(&p), Vector::new(40, 36, 48));
    assert_eq!(Vector::joining(q, p), Vector::new(40, 36, 48));
}

#[test]
fn scalar_multiplication() {
    assert_eq!(Vector::new(1, -143, 1234).scalar_mult(2), Vector::new(2, -286, 2468));
    assert_eq!(Coord::new(1, -143, 1234).scalar_mult(2), Coord::new(2, -286, 2468));
}
