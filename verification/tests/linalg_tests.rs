use toraniko::math::{solve_linear_system, MathError};
use toraniko::matrix::Matrix;
use toraniko::scalar::Scalar;

fn s(x: f64) -> Scalar {
    Scalar::from_bits(x.to_bits())
}

fn f(x: Scalar) -> f64 {
    f64::from_bits(x.to_bits())
}

fn vector(xs: &[f64]) -> Vec<Scalar> {
    xs.iter().map(|x| s(*x)).collect()
}

fn floats(xs: &[Scalar]) -> Vec<f64> {
    xs.iter().map(|x| f(*x)).collect()
}

fn matrix(rows: usize, cols: usize, xs: &[f64]) -> Matrix {
    Matrix::from_shape_vec(rows, cols, vector(xs)).unwrap()
}

#[test]
fn solve_two_by_two() {
    let a = matrix(2, 2, &[2.0, 1.0, 1.0, 3.0]);
    let b = vector(&[3.0, 5.0]);
    let x = floats(&solve_linear_system(&a, &b).unwrap());
    assert!((x[0] - 0.8).abs() < 1e-12);
    assert!((x[1] - 1.4).abs() < 1e-12);
}

#[test]
fn solve_needs_a_row_exchange() {
    let a = matrix(2, 2, &[0.0, 1.0, 1.0, 0.0]);
    let b = vector(&[2.0, 3.0]);
    let x = floats(&solve_linear_system(&a, &b).unwrap());
    assert_eq!(x, vec![3.0, 2.0]);
}

#[test]
fn solve_residual_is_small() {
    let a = matrix(3, 3, &[4.0, -2.0, 1.0, -2.0, 4.0, -2.0, 1.0, -2.0, 4.0]);
    let b = vector(&[11.0, -16.0, 17.0]);
    let x = floats(&solve_linear_system(&a, &b).unwrap());
    let rows = [[4.0, -2.0, 1.0], [-2.0, 4.0, -2.0], [1.0, -2.0, 4.0]];
    let rhs = [11.0, -16.0, 17.0];
    for i in 0..3 {
        let ax: f64 = (0..3).map(|j| rows[i][j] * x[j]).sum();
        assert!((ax - rhs[i]).abs() < 1e-10);
    }
}

#[test]
fn solve_rejects_empty_system() {
    let a = matrix(0, 0, &[]);
    let b = vector(&[]);
    assert!(matches!(solve_linear_system(&a, &b), Err(MathError::EmptyData)));
}

#[test]
fn solve_rejects_rectangular_matrix() {
    let a = matrix(2, 3, &[1.0, 0.0, 0.0, 0.0, 1.0, 0.0]);
    let b = vector(&[1.0, 1.0]);
    assert!(matches!(
        solve_linear_system(&a, &b),
        Err(MathError::DimensionMismatch { expected: 2, actual: 3 })
    ));
}

#[test]
fn solve_rejects_short_right_hand_side() {
    let a = matrix(2, 2, &[1.0, 0.0, 0.0, 1.0]);
    let b = vector(&[1.0]);
    assert!(matches!(
        solve_linear_system(&a, &b),
        Err(MathError::DimensionMismatch { expected: 2, actual: 1 })
    ));
}

#[test]
fn solve_rejects_singular_matrix() {
    let a = matrix(2, 2, &[1.0, 2.0, 2.0, 4.0]);
    let b = vector(&[1.0, 2.0]);
    assert!(matches!(solve_linear_system(&a, &b), Err(MathError::SingularMatrix)));
}

#[test]
fn solve_rejects_pivot_under_threshold() {
    let a = matrix(1, 1, &[9e-15]);
    let b = vector(&[1.0]);
    assert!(matches!(solve_linear_system(&a, &b), Err(MathError::SingularMatrix)));
    let a = matrix(1, 1, &[2e-14]);
    let x = floats(&solve_linear_system(&a, &b).unwrap());
    assert_eq!(x[0], 1.0 / 2e-14);
}

#[test]
fn matrix_shapes() {
    assert!(Matrix::from_shape_vec(2, 2, vector(&[1.0, 2.0, 3.0])).is_none());
    let m = matrix(2, 3, &[1.0, 2.0, 3.0, 4.0, 5.0, 6.0]);
    assert_eq!(m.nrows(), 2);
    assert_eq!(m.ncols(), 3);
    assert_eq!(f(m.get(1, 0)), 4.0);
    assert_eq!(floats(m.row(0)), vec![1.0, 2.0, 3.0]);
    let z = Matrix::zeros(3, 0);
    assert_eq!(z.nrows(), 3);
    assert_eq!(z.ncols(), 0);
    assert!(Matrix::from_rows(vec![vector(&[1.0]), vector(&[1.0, 2.0])]).is_none());
    let r = Matrix::from_rows(vec![vector(&[1.0, 2.0]), vector(&[3.0, 4.0])]).unwrap();
    assert_eq!(f(r.get(1, 1)), 4.0);
    let mut w = Matrix::zeros(2, 2);
    w.set(0, 1, s(7.0));
    assert_eq!(f(w.get(0, 1)), 7.0);
    assert_eq!(f(w.get(1, 1)), 0.0);
}

#[test]
fn math_error_messages() {
    assert_eq!(
        MathError::DimensionMismatch { expected: 10, actual: 5 }.to_string(),
        "dimension mismatch: expected 10, got 5"
    );
    assert_eq!(MathError::EmptyData.to_string(), "empty data provided");
    assert_eq!(
        MathError::InvalidPercentile(s(0.6)).to_string(),
        "invalid percentile: 0.6 (must be in (0, 0.5))"
    );
    assert_eq!(
        MathError::InvalidPercentile(s(-0.1)).to_string(),
        "invalid percentile: -0.1 (must be in (0, 0.5))"
    );
    assert_eq!(
        MathError::InvalidPercentile(s(50.0)).to_string(),
        "invalid percentile: 50 (must be in (0, 0.5))"
    );
    assert_eq!(
        MathError::InvalidPercentile(s(f64::NAN)).to_string(),
        "invalid percentile: NaN (must be in (0, 0.5))"
    );
}
