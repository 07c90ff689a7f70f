use tracer::coord::Coord;
use tracer::square2::Matrix2x2;
use tracer::square3::Matrix3x3;
use tracer::square4::Matrix4x4;
use tracer::vector::Vector;

fn m2(rows: [[i64; 2]; 2]) -> Matrix2x2 {
    Matrix2x2 { data: rows }
}

fn m3(rows: [[i64; 3]; 3]) -> Matrix3x3 {
    Matrix3x3 { data: rows }
}

fn m4(rows: [[i64; 4]; 4]) -> Matrix4x4 {
    Matrix4x4::from(rows)
}

#[test]
fn test_determinant() {
    assert_eq!(m2([[1, 5], [-3, 2]]).det(), 17);
    assert_eq!(m2([[8, -4], [6, 4]]).det(), 56);
    assert_eq!(m2([[-5, -4], [2, 4]]).det(), -12);
    assert_eq!(m2([[-5, 8], [2, 6]]).det(), -46);
}

#[test]
fn inverse() {
    // The exact inverse of [[1, 3], [-3, 12]] is the adjugate over the
    // determinant: [[12, -3], [3, 1]] / 21, that is [[4/7, -1/7], [1/7, 1/21]].
    let m = m2([[1, 3], [-3, 12]]);
    assert_eq!(m.inverse(), Some((m2([[12, -3], [3, 1]]), 21)));
}

#[test]
fn singular_matrices_have_no_inverse() {
    assert_eq!(m2([[1, 2], [2, 4]]).inverse(), None);
    assert_eq!(m3([[1, 2, 3], [2, 4, 6], [7, 8, 9]]).inverse(), None);
    assert_eq!(m4([[1, 0, 0, 0], [0, 1, 0, 0], [0, 0, 0, 0], [0, 0, 0, 1]]).inverse(), None);
}

#[test]
fn submatrix() {
    let i = m3([[1, 5, 0], [-3, 2, 7], [0, 6, -3]]);
    assert_eq!(i.remove_indexes(0, 0), m2([[2, 7], [6, -3]]));
    assert_eq!(i.remove_indexes(0, 1), m2([[-3, 7], [0, -3]]));
    assert_eq!(i.remove_indexes(2, 1), m2([[1, 0], [-3, 7]]));
}

#[test]
fn determinat() {
    assert_eq!(m3([[1, 2, 6], [-5, 8, -4], [2, 6, 4]]).det(), -196);
}

#[test]
fn minor_cofactor() {
    let m = m3([[3, 5, 0], [2, -1, -7], [6, -1, 5]]);
    assert_eq!(m.minor(0, 0), -12);
    assert_eq!(m.cofactor(0, 0), -12);
    assert_eq!(m.minor(1, 0), 25);
    assert_eq!(m.cofactor(1, 0), -25);
}

#[test]
fn matrix_multiply() {
    let m1 = m4([[1, 2, 3, 4], [1, 2, 3, 4], [1, 2, 3, 4], [1, 2, 3, 4]]);
    let m2 = m4([[1, 2, 3, 4], [1, 2, 3, 4], [1, 2, 3, 4], [1, 2, 3, 4]]);
    let m3 = m4([[10, 20, 30, 40], [10, 20, 30, 40], [10, 20, 30, 40], [10, 20, 30, 40]]);
    assert_eq!(m1 * m2, m3);

    let m1 = m4([[1, 2, 3, 4], [5, 6, 7, 8], [9, 8, 7, 6], [5, 4, 3, 2]]);
    let m2 = m4([[-2, 1, 2, 3], [3, 2, 1, -1], [4, 3, 6, 5], [1, 2, 7, 8]]);
    let m3 = m4([[20, 22, 50, 48], [44, 54, 114, 108], [40, 58, 110, 102], [16, 26, 46, 42]]);
    assert_eq!(m1 * m2, m3);
}

#[test]
fn identity() {
    let m = m4([[20, 22, 50, 48], [44, 54, 114, 108], [40, 58, 110, 102], [16, 26, 46, 42]]);
    assert_eq!(m * Matrix4x4::identity(), m);
    assert_eq!(Matrix4x4::identity() * m, m);
}

#[test]
fn transpose() {
    let m = m4([[0, 9, 3, 0], [9, 8, 0, 8], [1, 8, 5, 3], [0, 0, 4, 8]]);
    let t = m4([[0, 9, 1, 0], [9, 8, 8, 0], [3, 0, 5, 4], [0, 8, 3, 8]]);
    assert_eq!(m.transpose(), t);
}

#[test]
fn square4_submatrix() {
    assert_eq!(
        m4([[-6, 1, 1, 6], [-8, 5, 8, 6], [-1, 0, 8, 6], [-7, 1, -1, 1]]).remove_indexes(2, 1),
        m3([[-6, 1, 6], [-8, 8, 6], [-7, -1, 1]])
    )
}

#[test]
fn determinant() {
    assert_eq!(m4([[-2, -8, 3, 5], [-3, 1, 7, 3], [1, 2, -9, 6], [-6, 7, 7, -9]]).det(), -4071);
    assert_eq!(m4([[6, 4, 4, 4], [5, 5, 7, 6], [4, -9, 3, -7], [9, 1, 7, -6]]).det(), -2120);
}

#[test]
fn square4_minor_cofactor() {
    let m = m4([[-2, -8, 3, 5], [-3, 1, 7, 3], [1, 2, -9, 6], [-6, 7, 7, -9]]);
    assert_eq!(m.cofactor(0, 0), 690);
    assert_eq!(m.cofactor(0, 1), 447);
    assert_eq!(m.cofactor(0, 2), 210);
    assert_eq!(m.cofactor(0, 3), 51);
    assert_eq!(m.cofactor(1, 0), -253);
    assert_eq!(m.cofactor(1, 1), -394);

    let m = m4([[-5, 2, 6, -8], [1, -5, 1, 8], [7, 7, -6, -7], [1, -3, 7, 4]]);
    assert_eq!(m.cofactor(0, 0), 116);
    assert_eq!(m.cofactor(0, 1), -430);
    assert_eq!(m.cofactor(0, 2), -42);
    assert_eq!(m.cofactor(0, 3), -278);
    assert_eq!(m.cofactor(1, 0), 240);
    assert_eq!(m.cofactor(1, 1), -775);
    assert_eq!(m.cofactor(1, 2), -119);
    assert_eq!(m.cofactor(1, 3), -433);
    assert_eq!(m.cofactor(2, 0), 128);
    assert_eq!(m.cofactor(2, 1), -236);
    assert_eq!(m.cofactor(2, 2), -28);
    assert_eq!(m.cofactor(2, 3), -160);
}

#[test]
fn square4_inverse() {
    // The exact inverse of the reference matrix is its adjugate over
    // its determinant -585; each adjugate entry divided by -585 gives
    // the usual decimal rendering, for instance 90 / -585 = -0.15385.
    let m = m4([[8, -5, 9, 2], [7, 5, 6, 1], [-6, 0, 9, 6], [-3, 0, -9, -4]]);
    let adj = m4([
        [90, 90, 165, 315],
        [45, -72, -15, -18],
        [-210, -210, -255, -540],
        [405, 405, 450, 1125],
    ]);
    assert_eq!(m.inverse(), Some((adj, -585)));
}

#[test]
fn multiplying_by_inverse_gives_identity() {
    // The adjugate pair denotes the inverse exactly: the product of the
    // matrix with its adjugate is the determinant times the identity.
    let m = m4([[8, -5, 9, 2], [7, 5, 6, 1], [-6, 0, 9, 6], [-3, 0, -9, -4]]);
    let (adj, d) = m.inverse().unwrap();
    let product = m * adj;
    for r in 0..4 {
        let row = product.get_row(r);
        for c in 0..4 {
            assert_eq!(row[c], if r == c { d } else { 0 });
        }
    }
}

#[test]
fn times_vector() {
    let v = Vector::new(1, 2, 3);
    let m = Matrix4x4::identity();
    assert_eq!(v, m * v);

    let m = m4([[1, 2, 0, 1], [4, 3, 1, 0], [1, 2, 0, 1], [4, 3, 1, 0]]);
    let expected = Vector::new(5, 13, 5);
    assert_eq!(expected, m * v);
}

#[test]
fn times_coord() {
    let c = Coord::new(1, 2, 3);
    let m = m4([[1, 2, 0, 1], [4, 3, 1, 0], [1, 2, 0, 1], [4, 3, 1, 0]]);
    let expected = Coord::new(6, 13, 6);
    assert_eq!(expected, m * c);
}

#[test]
fn rows_and_columns() {
    let m = m4([[1, 2, 3, 4], [5, 6, 7, 8], [9, 10, 11, 12], [13, 14, 15, 16]]);
    assert_eq!(m.get_row(1), vec![5, 6, 7, 8]);
    assert_eq!(m.get_col(2), vec![3, 7, 11, 15]);
    assert_eq!(Matrix4x4::size(), (4, 4));
}

#[test]
fn mutate_one_entry() {
    let mut m = Matrix4x4::identity();
    m.mutate_to((0, 3), 42);
    assert_eq!(m, m4([[1, 0, 0, 42], [0, 1, 0, 0], [0, 0, 1, 0], [0, 0, 0, 1]]));
}
