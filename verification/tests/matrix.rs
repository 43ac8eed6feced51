use raytracer::matrix::Matrix33;
use raytracer::scalar::Real;
use raytracer::vector::Vector3;

fn num(value: f64) -> Real {
    Real::from_bits(value.to_bits())
}

fn matrix(rows: [[f64; 3]; 3]) -> Matrix33 {
    Matrix33 {
        elements: [
            [num(rows[0][0]), num(rows[0][1]), num(rows[0][2])],
            [num(rows[1][0]), num(rows[1][1]), num(rows[1][2])],
            [num(rows[2][0]), num(rows[2][1]), num(rows[2][2])],
        ],
    }
}

#[test]
fn test_matrix_identity() {
    assert_eq!(
        Matrix33::identity(),
        matrix([[1.0, 0.0, 0.0], [0.0, 1.0, 0.0], [0.0, 0.0, 1.0]])
    );
}

#[test]
fn test_matrix_transpose_of_identity_is_idendtity() {
    assert_eq!(Matrix33::identity().transpose(), Matrix33::identity());
}

#[test]
fn test_matrix_transpose() {
    let mut matrix = Matrix33::identity();
    matrix.elements[1][0] = num(1.0);
    let mut result_matrix = Matrix33::identity();
    result_matrix.elements[0][1] = num(1.0);
    assert_eq!(matrix.transpose(), result_matrix);
}

#[test]
fn transpose_moves_every_entry_across_the_diagonal() {
    let m = matrix([[1.0, 2.0, 3.0], [4.0, 5.0, 6.0], [7.0, 8.0, 9.0]]);
    assert_eq!(
        m.transpose(),
        matrix([[1.0, 4.0, 7.0], [2.0, 5.0, 8.0], [3.0, 6.0, 9.0]])
    );
}

#[test]
fn transpose_twice_is_the_matrix() {
    let m = matrix([[0.5, -2.0, 3.25], [4.0, 1e-6, -6.0], [7.0, 8.0, 1e300]]);
    assert_eq!(m.transpose().transpose(), m);
}

#[test]
fn from_vecs_puts_the_vectors_in_columns() {
    let x = Vector3 { x: num(1.0), y: num(2.0), z: num(3.0) };
    let y = Vector3 { x: num(4.0), y: num(5.0), z: num(6.0) };
    let z = Vector3 { x: num(7.0), y: num(8.0), z: num(9.0) };
    assert_eq!(
        Matrix33::from_vecs(&x, &y, &z),
        matrix([[1.0, 4.0, 7.0], [2.0, 5.0, 8.0], [3.0, 6.0, 9.0]])
    );
}

#[test]
fn the_default_matrix_is_all_zeros() {
    assert_eq!(
        Matrix33::default(),
        matrix([[0.0, 0.0, 0.0], [0.0, 0.0, 0.0], [0.0, 0.0, 0.0]])
    );
}
