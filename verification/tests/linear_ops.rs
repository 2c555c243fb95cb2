use pylon::Matrix;
use pylon::Point;
use pylon::Vector;

fn matrix_of(rows: [[i64; 4]; 4]) -> Matrix {
    Matrix::new(
        rows[0][0], rows[0][1], rows[0][2], rows[0][3], rows[1][0], rows[1][1], rows[1][2],
        rows[1][3], rows[2][0], rows[2][1], rows[2][2], rows[2][3], rows[3][0], rows[3][1],
        rows[3][2], rows[3][3],
    )
}

fn rows_of(m: &Matrix) -> [[i64; 4]; 4] {
    let cols = m.to_array();
    let mut rows = [[0i64; 4]; 4];
    for (r, row) in rows.iter_mut().enumerate() {
        for (c, entry) in row.iter_mut().enumerate() {
            *entry = cols[c][r];
        }
    }
    rows
}

fn identity_rows() -> [[i64; 4]; 4] {
    [[1, 0, 0, 0], [0, 1, 0, 0], [0, 0, 1, 0], [0, 0, 0, 1]]
}

#[test]
fn identity_entries() {
    assert_eq!(rows_of(&Matrix::identity()), identity_rows());
}

#[test]
fn zero_entries() {
    assert_eq!(rows_of(&Matrix::zero()), [[0i64; 4]; 4]);
}

#[test]
fn new_is_row_major() {
    let m = Matrix::new(1, 2, 3, 4, 5, 6, 7, 8, 9, 10, 11, 12, 13, 14, 15, 16);
    assert_eq!(
        rows_of(&m),
        [[1, 2, 3, 4], [5, 6, 7, 8], [9, 10, 11, 12], [13, 14, 15, 16]]
    );
    // Stored column-major: the first column is the first entry of each row.
    assert_eq!(m.to_array()[0], [1, 5, 9, 13]);
}

#[test]
fn multiply_by_identity_left_and_right() {
    let a = matrix_of([[3, 1, 4, 1], [5, 9, 2, 6], [5, 3, 5, 8], [9, 7, 9, 3]]);
    assert_eq!(a.mul(&Matrix::identity()), a);
    assert_eq!(Matrix::identity().mul(&a), a);
}

#[test]
fn multiplication_is_associative() {
    let a = matrix_of([[1, 2, 0, 3], [0, 1, 4, 0], [2, 0, 1, 5], [0, 0, 0, 1]]);
    let b = matrix_of([[2, 0, 1, 0], [1, 3, 0, 2], [0, 1, 1, 0], [4, 0, 2, 1]]);
    let c = matrix_of([[1, 1, 0, 2], [0, 2, 1, 0], [3, 0, 1, 1], [0, 1, 0, 2]]);
    assert_eq!(a.mul(&b).mul(&c), a.mul(&b.mul(&c)));
}

#[test]
fn multiplication_is_not_commutative() {
    let a = matrix_of([[0, 1, 0, 0], [0, 0, 0, 0], [0, 0, 0, 0], [0, 0, 0, 0]]);
    let b = matrix_of([[0, 0, 0, 0], [1, 0, 0, 0], [0, 0, 0, 0], [0, 0, 0, 0]]);
    assert_ne!(a.mul(&b), b.mul(&a));
}

#[test]
fn multiplication_exact_example() {
    // result[row][col] is the dot product of a's row with b's column.
    let a = matrix_of([[1, 2, 3, 4], [5, 6, 7, 8], [9, 10, 11, 12], [13, 14, 15, 16]]);
    let b = matrix_of([[17, 18, 19, 20], [21, 22, 23, 24], [25, 26, 27, 28], [29, 30, 31, 32]]);
    assert_eq!(
        rows_of(&a.mul(&b)),
        [
            [250, 260, 270, 280],
            [618, 644, 670, 696],
            [986, 1028, 1070, 1112],
            [1354, 1412, 1470, 1528]
        ]
    );
}

#[test]
fn identity_applied_to_vector_returns_it() {
    let v = Vector::new(7, -3, 12, 1);
    assert_eq!(Matrix::identity().apply(&v), v);
}

#[test]
fn matrix_addition_is_component_wise() {
    let a = matrix_of([[1, 2, 3, 4], [5, 6, 7, 8], [9, 10, 11, 12], [13, 14, 15, 16]]);
    let b = matrix_of([[1, 1, 1, 1], [2, 2, 2, 2], [3, 3, 3, 3], [4, 4, 4, 4]]);
    assert_eq!(
        rows_of(&a.add(b)),
        [[2, 3, 4, 5], [7, 8, 9, 10], [12, 13, 14, 15], [17, 18, 19, 20]]
    );
}

#[test]
fn matrix_scaling_is_component_wise() {
    let a = matrix_of([[1, 2, 3, 4], [5, 6, 7, 8], [9, 10, 11, 12], [13, 14, 15, 16]]);
    assert_eq!(
        rows_of(&a.scale(-2)),
        [[-2, -4, -6, -8], [-10, -12, -14, -16], [-18, -20, -22, -24], [-26, -28, -30, -32]]
    );
}

#[test]
fn as_rows_transposes_the_columns() {
    let m = Matrix::new(1, 2, 3, 4, 5, 6, 7, 8, 9, 10, 11, 12, 13, 14, 15, 16);
    let rows = m.as_rows();
    assert_eq!(rows[0].to_array(), [1, 2, 3, 4]);
    assert_eq!(rows[3].to_array(), [13, 14, 15, 16]);
}

#[test]
fn columns_and_set_column() {
    let mut m = Matrix::identity();
    m.set_column(3, Vector::new(4, 5, 6, 1));
    assert_eq!(m.columns()[3].to_array(), [4, 5, 6, 1]);
    assert_eq!(m.columns()[0].to_array(), [1, 0, 0, 0]);
}

#[test]
fn vector_operations() {
    let a = Vector::new(1, 2, 3, 4);
    let b = Vector::new(10, 20, 30, 40);
    assert_eq!(a.add(b).to_array(), [11, 22, 33, 44]);
    assert_eq!(a.mul(b).to_array(), [10, 40, 90, 160]);
    assert_eq!(a.scale(-3).to_array(), [-3, -6, -9, -12]);
    assert_eq!(a.sum(), 10);
    assert_eq!(Vector::zero().to_array(), [0, 0, 0, 0]);
}

#[test]
fn point_converts_to_position_vector() {
    let p = Point { x: 2, y: -5, z: 11 };
    let v = Vector::from(p);
    assert_eq!(v.to_array(), [2, -5, 11, 1]);
    assert_eq!(Point::from(Vector::new(8, 9, 10, 1)), Point { x: 8, y: 9, z: 10 });
    assert_eq!(Point::origin(), Point { x: 0, y: 0, z: 0 });
}

#[test]
fn translation_matrices_compose_additively() {
    let mut t1 = Matrix::identity();
    t1.set_column(3, Vector::new(5, 0, 0, 1));
    let mut t2 = Matrix::identity();
    t2.set_column(3, Vector::new(1, 2, 3, 1));
    let mut expected = Matrix::identity();
    expected.set_column(3, Vector::new(6, 2, 3, 1));
    assert_eq!(t1.mul(&t2), expected);
}

#[test]
fn mesh_triangle_round_trips_its_indices() {
    let t = pylon::MeshTriangle::new([3, 17, 2]);
    assert_eq!(t.indices(), [3, 17, 2]);
}

#[test]
fn mesh_vertex_holds_its_point() {
    let v = pylon::MeshVertex { point: Point { x: 1, y: 2, z: 3 } };
    assert_eq!(v.point, Point { x: 1, y: 2, z: 3 });
}

#[test]
fn identity_laws_hold_at_the_scalar_extremes() {
    let a = matrix_of([
        [i64::MAX, 0, 0, i64::MIN],
        [0, i64::MAX, 0, 0],
        [0, 0, i64::MIN, 0],
        [0, 0, 0, 1],
    ]);
    assert_eq!(a.mul(&Matrix::identity()), a);
    assert_eq!(Matrix::identity().mul(&a), a);
}

#[test]
fn vector_addition_in_place() {
    let mut a = Vector::new(1, 2, 3, 4);
    a.add_assign(Vector::new(5, 5, 5, 5));
    assert_eq!(a.to_array(), [6, 7, 8, 9]);
}
