use toraniko::math::{constrained_wls, weighted_least_squares, MathError};
use toraniko::matrix::Matrix;
use toraniko::scalar::Scalar;

fn s(x: f64) -> Scalar {
    Scalar::from_bits(x.to_bits())
}

fn f(x: Scalar) -> f64 {
    f64::from_bits(x.to_bits())
}

fn vector(xs: &[f64]) -> Vec<Scalar> {
    xs.iter().map(|x| s(*x)).collect()
}

fn floats(xs: &[Scalar]) -> Vec<f64> {
    xs.iter().map(|x| f(*x)).collect()
}

fn matrix(rows: usize, cols: usize, xs: &[f64]) -> Matrix {
    Matrix::from_shape_vec(rows, cols, vector(xs)).unwrap()
}

fn close(a: f64, b: f64, epsilon: f64) -> bool {
    (a - b).abs() <= epsilon
}

#[test]
fn wls_simple_regression() {
    let y = vector(&[1.0, 2.0, 3.0, 4.0, 5.0]);
    let x = matrix(5, 2, &[1.0, 1.0, 1.0, 2.0, 1.0, 3.0, 1.0, 4.0, 1.0, 5.0]);
    let weights = vector(&[1.0, 1.0, 1.0, 1.0, 1.0]);

    let result = weighted_least_squares(&y, &x, &weights).unwrap();

    // Perfect fit: y = 0 + 1*x
    assert!(close(f(result.coefficients[0]), 0.0, 1e-10));
    assert!(close(f(result.coefficients[1]), 1.0, 1e-10));
    assert!(close(f(result.r_squared), 1.0, 1e-10));
}

#[test]
fn wls_weighted_regression() {
    let y = vector(&[1.0, 2.0, 3.0, 4.0, 100.0]);
    let x = matrix(5, 2, &[1.0, 1.0, 1.0, 2.0, 1.0, 3.0, 1.0, 4.0, 1.0, 5.0]);
    // Very low weight on the outlier
    let weights = vector(&[1.0, 1.0, 1.0, 1.0, 0.001]);

    let result = weighted_least_squares(&y, &x, &weights).unwrap();

    // Should be close to y = 0 + 1*x ignoring the outlier
    assert!(close(f(result.coefficients[1]), 1.0, 0.1));
}

#[test]
fn wls_weights_change_the_fit() {
    let y = vector(&[1.0, 2.0, 3.0, 4.0, 100.0]);
    let x = matrix(5, 2, &[1.0, 1.0, 1.0, 2.0, 1.0, 3.0, 1.0, 4.0, 1.0, 5.0]);
    let even = weighted_least_squares(&y, &x, &vector(&[1.0; 5])).unwrap();
    let slope = f(even.coefficients[1]);
    // Ordinary least squares on these five points has slope 20.
    assert!(close(slope, 20.0, 1e-9));
}

#[test]
fn wls_residuals_are_unweighted() {
    let y = vector(&[1.0, 3.0, 2.0]);
    let x = matrix(3, 1, &[1.0, 1.0, 1.0]);
    let weights = vector(&[1.0, 1.0, 2.0]);
    let fit = weighted_least_squares(&y, &x, &weights).unwrap();
    // Weighted mean with squared weights 1, 1, 4: (1 + 3 + 8) / 6 = 2.
    let beta = f(fit.coefficients[0]);
    assert!(close(beta, 2.0, 1e-12));
    let residuals = floats(&fit.residuals);
    assert!(close(residuals[0], -1.0, 1e-12));
    assert!(close(residuals[1], 1.0, 1e-12));
    assert!(close(residuals[2], 0.0, 1e-12));
    // Total sum of squares about the mean 2 is 2, residual sum of squares is 2.
    assert!(close(f(fit.r_squared), 0.0, 1e-12));
}

#[test]
fn wls_constant_response_has_zero_r_squared() {
    let y = vector(&[2.0, 2.0, 2.0]);
    let x = matrix(3, 1, &[1.0, 1.0, 1.0]);
    let weights = vector(&[1.0, 1.0, 1.0]);
    let fit = weighted_least_squares(&y, &x, &weights).unwrap();
    assert_eq!(f(fit.r_squared), 0.0);
}

#[test]
fn wls_rejects_mismatched_rows() {
    let y = vector(&[1.0, 2.0, 3.0]);
    let x = matrix(2, 1, &[1.0, 1.0]);
    let weights = vector(&[1.0, 1.0, 1.0]);
    assert!(matches!(
        weighted_least_squares(&y, &x, &weights),
        Err(MathError::DimensionMismatch { expected: 3, actual: 2 })
    ));
}

#[test]
fn wls_rejects_mismatched_weights() {
    let y = vector(&[1.0, 2.0]);
    let x = matrix(2, 1, &[1.0, 1.0]);
    let weights = vector(&[1.0]);
    assert!(matches!(
        weighted_least_squares(&y, &x, &weights),
        Err(MathError::DimensionMismatch { expected: 2, actual: 1 })
    ));
}

#[test]
fn wls_rejects_empty_data() {
    let y = vector(&[]);
    let x = matrix(0, 2, &[]);
    let weights = vector(&[]);
    assert!(matches!(weighted_least_squares(&y, &x, &weights), Err(MathError::EmptyData)));
}

#[test]
fn wls_rejects_collinear_design() {
    let y = vector(&[1.0, 2.0, 3.0]);
    let x = matrix(3, 2, &[1.0, 2.0, 1.0, 2.0, 1.0, 2.0]);
    let weights = vector(&[1.0, 1.0, 1.0]);
    assert!(matches!(weighted_least_squares(&y, &x, &weights), Err(MathError::SingularMatrix)));
}

#[test]
fn constrained_wls_sector_sum_zero() {
    let y = vector(&[0.01, 0.02, 0.015, 0.025, 0.03, 0.01]);
    let weights = vector(&[1.0, 1.0, 1.0, 1.0, 1.0, 1.0]);

    // Two sectors, each asset in one sector
    let sectors = matrix(6, 2, &[1.0, 0.0, 1.0, 0.0, 1.0, 0.0, 0.0, 1.0, 0.0, 1.0, 0.0, 1.0]);

    // One style factor
    let styles = matrix(6, 1, &[0.5, 0.3, 0.2, -0.2, -0.3, -0.5]);

    let result = constrained_wls(&y, &weights, &sectors, &styles).unwrap();

    // Sector returns should sum to zero
    let sector_sum: f64 = floats(&result.sector_returns).iter().sum();
    assert!(close(sector_sum, 0.0, 1e-10));
}

#[test]
fn constrained_wls_dimensions() {
    // Need more observations than unknowns: 1 market + 2 sectors + 1 style = 4 unknowns
    // Use 6 observations for a well-determined system
    let y = vector(&[0.01, 0.02, 0.015, 0.025, 0.012, 0.018]);
    let weights = vector(&[1.0, 1.0, 1.0, 1.0, 1.0, 1.0]);
    // 2 sectors (one-hot encoded)
    let sectors = matrix(6, 2, &[1.0, 0.0, 0.0, 1.0, 1.0, 0.0, 0.0, 1.0, 1.0, 0.0, 0.0, 1.0]);
    // 1 style factor
    let styles = matrix(6, 1, &[0.1, -0.1, 0.2, 0.0, -0.1, 0.15]);

    let result = constrained_wls(&y, &weights, &sectors, &styles).unwrap();

    assert_eq!(result.sector_returns.len(), 2);
    assert_eq!(result.style_returns.len(), 1);
    assert_eq!(result.residuals.len(), 6);
}

#[test]
fn constrained_wls_separable_sectors() {
    // Two sectors, one style, six assets: the first sector returns 0.03, the
    // second 0.01, and the style explains nothing.
    let y = vector(&[0.03, 0.03, 0.03, 0.01, 0.01, 0.01]);
    let weights = vector(&[1.0, 1.0, 1.0, 1.0, 1.0, 1.0]);
    let sectors = matrix(6, 2, &[1.0, 0.0, 1.0, 0.0, 1.0, 0.0, 0.0, 1.0, 0.0, 1.0, 0.0, 1.0]);
    let styles = matrix(6, 1, &[0.5, -0.25, -0.25, 0.4, -0.1, -0.3]);

    let result = constrained_wls(&y, &weights, &sectors, &styles).unwrap();

    let sector_returns = floats(&result.sector_returns);
    assert!(close(sector_returns[0] + sector_returns[1], 0.0, 1e-10));
    assert!(close(f(result.market_return), 0.02, 1e-10));
    assert!(close(sector_returns[0], 0.01, 1e-10));
    assert!(close(sector_returns[1], -0.01, 1e-10));
    assert!(close(f(result.style_returns[0]), 0.0, 1e-10));
    let residuals = floats(&result.residuals);
    let mean: f64 = residuals.iter().sum::<f64>() / 6.0;
    assert!(close(mean, 0.0, 1e-10));
}

#[test]
fn constrained_wls_last_sector_is_negated_sum() {
    let y = vector(&[0.02, 0.01, -0.01, 0.03, 0.00, 0.015, 0.02, -0.02]);
    let weights = vector(&[1.0, 2.0, 1.5, 1.0, 0.5, 1.0, 2.0, 1.0]);
    let sectors = matrix(
        8,
        3,
        &[
            1.0, 0.0, 0.0, 1.0, 0.0, 0.0, 0.0, 1.0, 0.0, 0.0, 1.0, 0.0, 0.0, 1.0, 0.0, 0.0, 0.0,
            1.0, 0.0, 0.0, 1.0, 0.0, 0.0, 1.0,
        ],
    );
    let styles = matrix(8, 1, &[0.3, -0.2, 0.1, 0.4, -0.5, 0.2, -0.1, -0.2]);
    let result = constrained_wls(&y, &weights, &sectors, &styles).unwrap();
    let sr = floats(&result.sector_returns);
    assert_eq!(sr.len(), 3);
    assert_eq!(sr[2], -(0.0 + sr[0] + sr[1]));
    assert!(close(sr.iter().sum::<f64>(), 0.0, 1e-10));
}

#[test]
fn constrained_wls_single_sector_returns_zero() {
    let y = vector(&[0.01, 0.02, 0.03, 0.04]);
    let weights = vector(&[1.0, 1.0, 1.0, 1.0]);
    let sectors = matrix(4, 1, &[1.0, 1.0, 1.0, 1.0]);
    let styles = matrix(4, 1, &[-1.5, -0.5, 0.5, 1.5]);
    let result = constrained_wls(&y, &weights, &sectors, &styles).unwrap();
    assert_eq!(result.sector_returns.len(), 1);
    assert_eq!(f(result.sector_returns[0]), 0.0);
    assert!(close(f(result.market_return), 0.025, 1e-12));
    assert!(close(f(result.style_returns[0]), 0.01, 1e-12));
}

#[test]
fn constrained_wls_without_styles() {
    let y = vector(&[0.03, 0.03, 0.01, 0.01]);
    let weights = vector(&[1.0, 1.0, 1.0, 1.0]);
    let sectors = matrix(4, 2, &[1.0, 0.0, 1.0, 0.0, 0.0, 1.0, 0.0, 1.0]);
    let styles = Matrix::zeros(4, 0);
    let result = constrained_wls(&y, &weights, &sectors, &styles).unwrap();
    assert_eq!(result.style_returns.len(), 0);
    assert!(close(f(result.market_return), 0.02, 1e-12));
}

#[test]
fn constrained_wls_rejects_no_sector() {
    let y = vector(&[0.01, 0.02]);
    let weights = vector(&[1.0, 1.0]);
    let sectors = Matrix::zeros(2, 0);
    let styles = matrix(2, 1, &[0.1, 0.2]);
    match constrained_wls(&y, &weights, &sectors, &styles) {
        Err(MathError::InvalidConfiguration(message)) => {
            assert_eq!(message, "must have at least one sector")
        }
        _ => panic!("expected an invalid configuration"),
    }
}

#[test]
fn constrained_wls_rejects_mismatched_rows() {
    let y = vector(&[0.01, 0.02, 0.03]);
    let sectors = matrix(3, 1, &[1.0, 1.0, 1.0]);
    let styles = matrix(3, 1, &[0.1, 0.2, 0.3]);
    assert!(matches!(
        constrained_wls(&y, &vector(&[1.0, 1.0]), &sectors, &styles),
        Err(MathError::DimensionMismatch { expected: 3, actual: 2 })
    ));
    let weights = vector(&[1.0, 1.0, 1.0]);
    assert!(matches!(
        constrained_wls(&y, &weights, &matrix(2, 1, &[1.0, 1.0]), &styles),
        Err(MathError::DimensionMismatch { expected: 3, actual: 2 })
    ));
    assert!(matches!(
        constrained_wls(&y, &weights, &sectors, &matrix(4, 1, &[0.1, 0.2, 0.3, 0.4])),
        Err(MathError::DimensionMismatch { expected: 3, actual: 4 })
    ));
}

#[test]
fn constrained_wls_sector_total_is_exactly_zero() {
    let y = vector(&[0.02, 0.01, -0.01, 0.03, 0.00, 0.015, 0.02, -0.02]);
    let weights = vector(&[1.0, 2.0, 1.5, 1.0, 0.5, 1.0, 2.0, 1.0]);
    let sectors = matrix(
        8,
        3,
        &[
            1.0, 0.0, 0.0, 1.0, 0.0, 0.0, 0.0, 1.0, 0.0, 0.0, 1.0, 0.0, 0.0, 1.0, 0.0, 0.0, 0.0,
            1.0, 0.0, 0.0, 1.0, 0.0, 0.0, 1.0,
        ],
    );
    let styles = matrix(8, 1, &[0.3, -0.2, 0.1, 0.4, -0.5, 0.2, -0.1, -0.2]);
    let result = constrained_wls(&y, &weights, &sectors, &styles).unwrap();
    assert_eq!(result.sector_total().to_bits(), 0);
    let by_hand: f64 = floats(&result.sector_returns).iter().fold(0.0, |a, b| a + b);
    assert_eq!(by_hand.to_bits(), 0);

    // Two sectors and one.
    let two = constrained_wls(
        &vector(&[0.01, 0.02, 0.015, 0.025, 0.03, 0.01]),
        &vector(&[1.0; 6]),
        &matrix(6, 2, &[1.0, 0.0, 1.0, 0.0, 1.0, 0.0, 0.0, 1.0, 0.0, 1.0, 0.0, 1.0]),
        &matrix(6, 1, &[0.5, 0.3, 0.2, -0.2, -0.3, -0.5]),
    )
    .unwrap();
    assert_eq!(two.sector_total().to_bits(), 0);
    let one = constrained_wls(
        &vector(&[0.01, 0.02, 0.03, 0.04]),
        &vector(&[1.0; 4]),
        &matrix(4, 1, &[1.0; 4]),
        &matrix(4, 1, &[-1.5, -0.5, 0.5, 1.5]),
    )
    .unwrap();
    assert_eq!(one.sector_total().to_bits(), 0);
}

#[test]
fn constrained_wls_sector_total_of_returns_that_are_not_numbers() {
    // A NaN among the returns makes every coefficient a NaN: the sector
    // returns still obey the constraint in form, and their total is a NaN.
    let result = constrained_wls(
        &vector(&[0.01, f64::NAN, 0.015, 0.025, 0.03, 0.01]),
        &vector(&[1.0; 6]),
        &matrix(6, 2, &[1.0, 0.0, 1.0, 0.0, 1.0, 0.0, 0.0, 1.0, 0.0, 1.0, 0.0, 1.0]),
        &matrix(6, 1, &[0.5, 0.3, 0.2, -0.2, -0.3, -0.5]),
    )
    .unwrap();
    assert!(f(result.sector_total()).is_nan());
}
