use utils_3d::{Matrix, Scalar, Vector};

fn s(x: f32) -> Scalar {
    Scalar::from_bits(x.to_bits())
}

fn v(x: f32, y: f32, z: f32) -> Vector {
    Vector::from((s(x), s(y), s(z)))
}

fn floats(m: &Matrix) -> [[f32; 4]; 4] {
    let mut out = [[0.0f32; 4]; 4];
    for i in 0..4 {
        for j in 0..4 {
            out[i][j] = f32::from_bits(m.data[i][j].to_bits());
        }
    }
    out
}

fn bits(m: &Matrix) -> [[u32; 4]; 4] {
    let mut out = [[0u32; 4]; 4];
    for i in 0..4 {
        for j in 0..4 {
            out[i][j] = m.data[i][j].to_bits();
        }
    }
    out
}

fn matrix(rows: [[f32; 4]; 4]) -> Matrix {
    let mut m = Matrix::new();
    for i in 0..4 {
        for j in 0..4 {
            m.row_mut(i)[j] = s(rows[i][j]);
        }
    }
    m
}

fn counting() -> Matrix {
    matrix([[1.0, 2.0, 3.0, 4.0], [5.0, 6.0, 7.0, 8.0], [9.0, 10.0, 11.0, 12.0], [13.0, 14.0, 15.0, 16.0]])
}

#[test]
fn new_is_all_positive_zero() {
    assert_eq!(bits(&Matrix::new()), [[0u32; 4]; 4]);
}

#[test]
fn identity_has_ones_on_the_diagonal() {
    assert_eq!(
        floats(&Matrix::identity()),
        [[1.0, 0.0, 0.0, 0.0], [0.0, 1.0, 0.0, 0.0], [0.0, 0.0, 1.0, 0.0], [0.0, 0.0, 0.0, 1.0]]
    );
    let one = 1.0f32.to_bits();
    assert_eq!(
        bits(&Matrix::identity()),
        [[one, 0, 0, 0], [0, one, 0, 0], [0, 0, one, 0], [0, 0, 0, one]]
    );
}

#[test]
fn transposed_swaps_rows_and_columns() {
    let m = counting();
    assert_eq!(
        floats(&m.transposed()),
        [[1.0, 5.0, 9.0, 13.0], [2.0, 6.0, 10.0, 14.0], [3.0, 7.0, 11.0, 15.0], [4.0, 8.0, 12.0, 16.0]]
    );
    assert_eq!(floats(&m), floats(&counting()));
}

#[test]
fn transposed_twice_is_the_matrix_itself() {
    let m = counting();
    assert_eq!(bits(&m.transposed().transposed()), bits(&m));
    let odd = matrix([
        [f32::NAN, -0.0, f32::INFINITY, 1e-40],
        [0.1, 0.2, 0.3, 0.4],
        [-1.0, -2.0, -3.0, -4.0],
        [f32::MAX, f32::MIN, f32::EPSILON, 0.0],
    ]);
    assert_eq!(bits(&odd.transposed().transposed()), bits(&odd));
    assert_eq!(bits(&Matrix::identity().transposed()), bits(&Matrix::identity()));
}

#[test]
fn translate_puts_delta_in_the_last_column() {
    assert_eq!(
        floats(&Matrix::translate(v(2.0, -3.0, 4.5))),
        [[1.0, 0.0, 0.0, 2.0], [0.0, 1.0, 0.0, -3.0], [0.0, 0.0, 1.0, 4.5], [0.0, 0.0, 0.0, 1.0]]
    );
}

#[test]
fn view_repeats_one_component_per_row() {
    let m = Matrix::view(v(1.0, 2.0, 3.0), v(4.0, 5.0, 6.0), v(7.0, 8.0, 9.0), v(10.0, 11.0, 12.0));
    assert_eq!(
        floats(&m),
        [[1.0, 1.0, 1.0, 10.0], [5.0, 5.0, 5.0, 11.0], [9.0, 9.0, 9.0, 12.0], [0.0, 0.0, 0.0, 1.0]]
    );
}

#[test]
fn projection_layout() {
    let m = Matrix::projection(s(0.75), s(1.5), s(1.25), s(-2.5));
    assert_eq!(
        floats(&m),
        [[0.75, 0.0, 0.0, 0.0], [0.0, 1.5, 0.0, 0.0], [0.0, 0.0, 1.25, -2.5], [0.0, 0.0, 1.0, 0.0]]
    );
}

#[test]
fn frustum_layout() {
    let m = Matrix::frustum(s(2.0), s(0.25), s(3.0), s(-0.5), s(-1.5), s(-4.0));
    assert_eq!(
        floats(&m),
        [[2.0, 0.0, 0.25, 0.0], [0.0, 3.0, -0.5, 0.0], [0.0, 0.0, -1.5, -4.0], [0.0, 0.0, -1.0, 0.0]]
    );
}

#[test]
fn rotation_layouts() {
    let (sin, cos) = (0.6f32, 0.8f32);
    assert_eq!(
        floats(&Matrix::rot_x(s(sin), s(cos))),
        [[1.0, 0.0, 0.0, 0.0], [0.0, cos, -sin, 0.0], [0.0, sin, cos, 0.0], [0.0, 0.0, 0.0, 1.0]]
    );
    assert_eq!(
        floats(&Matrix::rot_y(s(sin), s(cos))),
        [[cos, 0.0, sin, 0.0], [0.0, 1.0, 0.0, 0.0], [-sin, 0.0, cos, 0.0], [0.0, 0.0, 0.0, 1.0]]
    );
    assert_eq!(
        floats(&Matrix::rot_z(s(sin), s(cos))),
        [[cos, -sin, 0.0, 0.0], [sin, cos, 0.0, 0.0], [0.0, 0.0, 1.0, 0.0], [0.0, 0.0, 0.0, 1.0]]
    );
}

#[test]
fn rotation_by_a_quarter_turn() {
    let (sin, cos) = std::f32::consts::FRAC_PI_2.sin_cos();
    let m = Matrix::rot_z(s(sin), s(cos));
    let got = floats(&m);
    assert_eq!(got[0][1], -1.0);
    assert_eq!(got[1][0], 1.0);
    assert_eq!(got[0][0], cos);
    assert_eq!(got[1][1], cos);
}

#[test]
fn rotation_by_nothing_negates_zero_exactly() {
    let m = Matrix::rot_x(s(0.0), s(1.0));
    assert_eq!(m.data[1][2].to_bits(), (-0.0f32).to_bits());
    assert_eq!(m.data[2][1].to_bits(), 0.0f32.to_bits());
}

#[test]
fn rows_are_read_by_index() {
    let m = counting();
    let row: [Scalar; 4] = m[2];
    assert_eq!(row.map(|x| f32::from_bits(x.to_bits())), [9.0, 10.0, 11.0, 12.0]);
    assert_eq!(f32::from_bits(m[3][0].to_bits()), 13.0);
    assert_eq!(m.len(), 4);
    assert_eq!(m.iter().count(), 4);
}

#[test]
fn row_mut_writes_one_row() {
    let mut m = counting();
    *m.row_mut(1) = [s(0.5); 4];
    assert_eq!(
        floats(&m),
        [[1.0, 2.0, 3.0, 4.0], [0.5, 0.5, 0.5, 0.5], [9.0, 10.0, 11.0, 12.0], [13.0, 14.0, 15.0, 16.0]]
    );
    m.row_mut(3)[3] = s(-1.0);
    assert_eq!(floats(&m)[3], [13.0, 14.0, 15.0, -1.0]);
}
