use chrono::NaiveDate;
use toraniko::math::MathError;
use toraniko::matrix::Matrix;
use toraniko::model::{
    DateOutcome, EstimatorConfig, FactorReturnsEstimator, ModelError, WlsConfig,
    WlsFactorEstimator,
};
use toraniko::primitives::{CrossSection, Panel};
use toraniko::scalar::Scalar;
use toraniko::traits::{EstimatorError, FactorEstimator, FactorKind, ReturnsEstimator};

fn s(x: f64) -> Scalar {
    Scalar::from_bits(x.to_bits())
}

fn f(x: Scalar) -> f64 {
    f64::from_bits(x.to_bits())
}

fn vector(xs: &[f64]) -> Vec<Scalar> {
    xs.iter().map(|x| s(*x)).collect()
}

fn floats(xs: &[Scalar]) -> Vec<f64> {
    xs.iter().map(|x| f(*x)).collect()
}

fn matrix(rows: usize, cols: usize, xs: &[f64]) -> Matrix {
    Matrix::from_shape_vec(rows, cols, vector(xs)).unwrap()
}

fn close(a: f64, b: f64, epsilon: f64) -> bool {
    (a - b).abs() <= epsilon
}

fn names(xs: &[&str]) -> Vec<String> {
    xs.iter().map(|x| x.to_string()).collect()
}

fn day(d: u32) -> NaiveDate {
    NaiveDate::from_ymd_opt(2024, 1, d).unwrap()
}

fn section(d: u32, asset_returns: &[f64]) -> CrossSection {
    let n = asset_returns.len();
    let mut sectors = Vec::new();
    let mut styles = Vec::new();
    let mut symbols = Vec::new();
    let mut caps = Vec::new();
    for i in 0..n {
        if i < n / 2 {
            sectors.extend_from_slice(&[1.0, 0.0]);
        } else {
            sectors.extend_from_slice(&[0.0, 1.0]);
        }
        styles.push(((i * 7) % 5) as f64 / 10.0 - 0.2);
        symbols.push(format!("A{i}"));
        caps.push(100.0 + 10.0 * i as f64);
    }
    CrossSection {
        date: day(d),
        symbols,
        asset_returns: vector(asset_returns),
        market_caps: vector(&caps),
        sector_scores: matrix(n, 2, &sectors),
        style_scores: matrix(n, 1, &styles),
    }
}

fn panel(cross_sections: Vec<CrossSection>) -> Panel {
    Panel {
        sector_names: names(&["sector_a", "sector_b"]),
        style_names: names(&["mom_score"]),
        cross_sections,
    }
}

fn plain() -> FactorReturnsEstimator {
    FactorReturnsEstimator::with_config(EstimatorConfig {
        winsor_factor: None,
        residualize_styles: true,
    })
}

#[test]
fn wls_config_defaults() {
    let config = WlsConfig::default();
    assert_eq!(config.winsor_factor.map(f), Some(0.05));
    assert!(config.residualize_styles);
}

#[test]
fn wls_estimator_basic() {
    let estimator = WlsFactorEstimator::new();

    let asset_returns = vector(&[0.01, 0.02, 0.015, 0.025, 0.03, 0.01]);
    let weights = vector(&[100.0, 200.0, 150.0, 250.0, 300.0, 100.0]);

    // Two sectors
    let sectors = matrix(6, 2, &[1.0, 0.0, 1.0, 0.0, 1.0, 0.0, 0.0, 1.0, 0.0, 1.0, 0.0, 1.0]);

    // One style
    let styles = matrix(6, 1, &[0.5, 0.3, 0.2, -0.2, -0.3, -0.5]);

    let (factor_returns, residuals) =
        estimator.estimate_single(&asset_returns, &weights, &sectors, &styles).unwrap();

    // Should have 1 market + 2 sectors + 1 style = 4 factors
    assert_eq!(factor_returns.len(), 4);
    assert_eq!(residuals.len(), 6);

    // Sector returns should sum to zero
    let sector_sum = f(factor_returns[1]) + f(factor_returns[2]);
    assert!(close(sector_sum, 0.0, 1e-10));
}

#[test]
fn wls_dimension_mismatch() {
    let estimator = WlsFactorEstimator::new();

    let asset_returns = vector(&[0.01, 0.02, 0.015]);
    let weights = vector(&[100.0, 200.0]); // Wrong size

    let sectors = matrix(3, 2, &[1.0, 0.0, 0.0, 1.0, 1.0, 0.0]);
    let styles = matrix(3, 1, &[0.1, 0.2, 0.3]);

    let result = estimator.estimate_single(&asset_returns, &weights, &sectors, &styles);
    assert!(result.is_err());
}

#[test]
fn wls_dimension_mismatch_names_the_input() {
    let estimator = WlsFactorEstimator::new();
    let asset_returns = vector(&[0.01, 0.02, 0.015]);
    let weights = vector(&[100.0, 200.0, 300.0]);
    let sectors = matrix(3, 2, &[1.0, 0.0, 0.0, 1.0, 1.0, 0.0]);
    let styles = matrix(3, 1, &[0.1, 0.2, 0.3]);
    let short = vector(&[100.0, 200.0]);
    match estimator.estimate_single(&asset_returns, &short, &sectors, &styles) {
        Err(EstimatorError::DimensionMismatch { expected: 3, actual: 2, context }) => {
            assert_eq!(context, "weights")
        }
        _ => panic!("expected a dimension mismatch"),
    }
    match estimator.estimate_single(&asset_returns, &weights, &matrix(2, 2, &[1.0; 4]), &styles) {
        Err(EstimatorError::DimensionMismatch { expected: 3, actual: 2, context }) => {
            assert_eq!(context, "sector_scores")
        }
        _ => panic!("expected a dimension mismatch"),
    }
    match estimator.estimate_single(&asset_returns, &weights, &sectors, &matrix(4, 1, &[0.0; 4])) {
        Err(EstimatorError::DimensionMismatch { expected: 3, actual: 4, context }) => {
            assert_eq!(context, "style_scores")
        }
        _ => panic!("expected a dimension mismatch"),
    }
}

#[test]
fn wls_estimator_takes_square_roots_of_weights() {
    let estimator = WlsFactorEstimator::with_config(WlsConfig {
        winsor_factor: None,
        residualize_styles: true,
    });
    let asset_returns = vector(&[1.0, 3.0, 2.0, 5.0]);
    // Raw weights 1, 1, 16 and a negative one that counts as zero: the
    // regression weights are 1, 1, 4, 0, their squares 1, 1, 16, 0.
    let weights = vector(&[1.0, 1.0, 16.0, -3.0]);
    let sectors = matrix(4, 1, &[1.0, 1.0, 1.0, 1.0]);
    let styles = Matrix::zeros(4, 0);
    let (factor_returns, residuals) =
        estimator.estimate_single(&asset_returns, &weights, &sectors, &styles).unwrap();
    // Market return: (1 + 3 + 16 * 2) / 18 = 2.
    assert!(close(f(factor_returns[0]), 2.0, 1e-12));
    assert_eq!(f(factor_returns[1]), 0.0);
    assert!(close(f(residuals[3]), 3.0, 1e-12));
}

#[test]
fn wls_estimator_winsorizes_returns() {
    let raw = [0.01, 0.02, 0.03, 0.04, 0.05, 0.06, 0.07, 0.08, 0.09, 5.0];
    let weights = vector(&[1.0; 10]);
    let sectors = matrix(10, 1, &[1.0; 10]);
    let styles = Matrix::zeros(10, 0);
    let with = WlsFactorEstimator::with_config(WlsConfig {
        winsor_factor: Some(s(0.1)),
        residualize_styles: true,
    });
    let (factor_returns, _) =
        with.estimate_single(&vector(&raw), &weights, &sectors, &styles).unwrap();
    // Clipped to [0.02, 0.09]: the mean of 0.02, 0.02, 0.03, ..., 0.09, 0.09.
    assert!(close(f(factor_returns[0]), 0.055, 1e-12));
}

#[test]
fn wls_estimator_reports_invalid_percentile() {
    let estimator = WlsFactorEstimator::with_config(WlsConfig {
        winsor_factor: Some(s(0.7)),
        residualize_styles: true,
    });
    let asset_returns = vector(&[0.01, 0.02, 0.03]);
    let weights = vector(&[1.0, 1.0, 1.0]);
    let sectors = matrix(3, 1, &[1.0, 1.0, 1.0]);
    let styles = Matrix::zeros(3, 0);
    match estimator.estimate_single(&asset_returns, &weights, &sectors, &styles) {
        Err(EstimatorError::LinearAlgebra(MathError::InvalidPercentile(p))) => {
            assert_eq!(f(p), 0.7)
        }
        _ => panic!("expected an invalid percentile"),
    }
}

#[test]
fn estimator_config_defaults() {
    let config = EstimatorConfig::default();
    assert_eq!(config.winsor_factor.map(f), Some(0.05));
    assert!(config.residualize_styles);
}

#[test]
fn estimator_creation() {
    let estimator = FactorReturnsEstimator::new();
    assert_eq!(estimator.winsor_factor().map(f), Some(0.05));
    assert!(estimator.residualize_styles());
}

#[test]
fn estimator_custom_config() {
    let config = EstimatorConfig { winsor_factor: Some(s(0.10)), residualize_styles: false };
    let estimator = FactorReturnsEstimator::with_config(config);
    assert_eq!(estimator.winsor_factor().map(f), Some(0.10));
    assert!(!estimator.residualize_styles());
    assert_eq!(estimator.config().winsor_factor.map(f), Some(0.10));
}

#[test]
fn estimator_single_wraps_errors() {
    let estimator = FactorReturnsEstimator::new();
    let result = estimator.estimate_single(
        &vector(&[0.01, 0.02]),
        &vector(&[1.0]),
        &matrix(2, 1, &[1.0, 1.0]),
        &Matrix::zeros(2, 0),
    );
    assert!(matches!(
        result,
        Err(ModelError::Estimator(EstimatorError::DimensionMismatch { expected: 2, actual: 1, .. }))
    ));
}

#[test]
fn error_is_recoverable() {
    let err = ModelError::NoDataForDate("2024-01-01".to_string());
    assert!(err.is_recoverable());

    let err = ModelError::MissingColumn("test".to_string());
    assert!(!err.is_recoverable());
}

#[test]
fn model_error_display() {
    let err = ModelError::MissingColumn("returns".to_string());
    assert!(err.to_string().contains("returns"));
}

#[test]
fn model_error_messages() {
    assert_eq!(
        ModelError::from(MathError::SingularMatrix).to_string(),
        "math error: matrix is singular or nearly singular"
    );
    assert_eq!(
        ModelError::from(EstimatorError::MissingColumn("x".to_string())).to_string(),
        "estimator error: missing required column: x"
    );
    assert_eq!(ModelError::InvalidConfig("c".to_string()).to_string(), "invalid configuration: c");
    assert_eq!(ModelError::NoDataForDate("d".to_string()).to_string(), "no data for date: d");
    assert_eq!(ModelError::DimensionMismatch("m".to_string()).to_string(), "dimension mismatch: m");
}

#[test]
fn estimator_error_is_recoverable() {
    let err = EstimatorError::InsufficientData { required: 10, actual: 5 };
    assert!(err.is_recoverable());

    let err = EstimatorError::MissingColumn("test".to_string());
    assert!(!err.is_recoverable());
}

#[test]
fn estimator_error_display() {
    let err = EstimatorError::DimensionMismatch {
        expected: 100,
        actual: 50,
        context: "returns".to_string(),
    };
    assert_eq!(err.to_string(), "dimension mismatch for returns: expected 100, got 50");
}

#[test]
fn estimator_error_messages() {
    assert_eq!(
        EstimatorError::InsufficientData { required: 10, actual: 5 }.to_string(),
        "insufficient data: need at least 10 observations, got 5"
    );
    assert_eq!(
        EstimatorError::RankDeficient { rank: 2, columns: 3 }.to_string(),
        "rank deficient design matrix: rank 2 < columns 3"
    );
    assert!(EstimatorError::RankDeficient { rank: 2, columns: 3 }.is_recoverable());
    assert_eq!(
        EstimatorError::InvalidConfig("bad".to_string()).to_string(),
        "invalid configuration: bad"
    );
    assert_eq!(
        EstimatorError::LinearAlgebra(MathError::EmptyData).to_string(),
        "linear algebra error: empty data provided"
    );
}

#[test]
fn math_error_display() {
    let err = MathError::InvalidPercentile(s(0.6));
    assert!(err.to_string().contains("0.6"));

    let err = MathError::DimensionMismatch { expected: 10, actual: 5 };
    assert!(err.to_string().contains("10") && err.to_string().contains("5"));
}

#[test]
fn panel_commits_records_in_order() {
    let estimator = plain();
    let p = panel(vec![section(2, &[0.03, 0.035, 0.025, 0.01, 0.015, 0.005])]);
    let (factor_returns, residuals) = estimator.estimate(&p).unwrap();
    assert_eq!(factor_returns.len(), 4);
    assert_eq!(residuals.len(), 6);
    let factors: Vec<&str> = factor_returns.iter().map(|r| r.factor.as_str()).collect();
    assert_eq!(factors, vec!["market", "sector_a", "sector_b", "mom_score"]);
    let kinds: Vec<FactorKind> = factor_returns.iter().map(|r| r.kind).collect();
    assert_eq!(
        kinds,
        vec![FactorKind::Market, FactorKind::Sector, FactorKind::Sector, FactorKind::Style]
    );
    for r in factor_returns.iter() {
        assert_eq!(r.date, day(2));
    }
    let symbols: Vec<&str> = residuals.iter().map(|r| r.symbol.as_str()).collect();
    assert_eq!(symbols, vec!["A0", "A1", "A2", "A3", "A4", "A5"]);
    let sector_sum = f(factor_returns[1].value) + f(factor_returns[2].value);
    assert!(close(sector_sum, 0.0, 1e-10));
}

#[test]
fn panel_records_match_single_estimate() {
    let estimator = plain();
    let cs = section(2, &[0.03, 0.035, 0.025, 0.01, 0.015, 0.005]);
    let (expected_factors, expected_residuals) = estimator
        .estimate_single(&cs.asset_returns, &cs.market_caps, &cs.sector_scores, &cs.style_scores)
        .unwrap();
    let (factor_returns, residuals) = estimator.estimate(&panel(vec![cs])).unwrap();
    let values: Vec<f64> = factor_returns.iter().map(|r| f(r.value)).collect();
    assert_eq!(values, floats(&expected_factors));
    let left: Vec<f64> = residuals.iter().map(|r| f(r.value)).collect();
    assert_eq!(left, floats(&expected_residuals));
}

#[test]
fn panel_skips_short_date() {
    let estimator = plain();
    let full = [0.03, 0.035, 0.025, 0.01, 0.015, 0.005];
    let p = panel(vec![section(2, &full), section(3, &[0.01, 0.02]), section(4, &full)]);
    let (factor_returns, residuals) = estimator.estimate(&p).unwrap();
    assert_eq!(factor_returns.len(), 8);
    assert_eq!(residuals.len(), 12);
    assert!(factor_returns.iter().all(|r| r.date != day(3)));
    assert!(residuals.iter().all(|r| r.date != day(3)));
    assert_eq!(factor_returns[0].date, day(2));
    assert_eq!(factor_returns[4].date, day(4));
    assert_eq!(residuals[6].date, day(4));

    let without = panel(vec![section(2, &full), section(4, &full)]);
    let (other_factors, other_residuals) = estimator.estimate(&without).unwrap();
    let a: Vec<f64> = factor_returns.iter().map(|r| f(r.value)).collect();
    let b: Vec<f64> = other_factors.iter().map(|r| f(r.value)).collect();
    assert_eq!(a, b);
    assert_eq!(residuals.len(), other_residuals.len());
}

#[test]
fn panel_skips_date_with_as_many_observations_as_parameters() {
    let estimator = plain();
    // Two sectors and one style leave three free parameters.
    let outcome = estimator
        .estimate_date(
            &names(&["sector_a", "sector_b"]),
            &names(&["mom_score"]),
            &section(2, &[0.01, 0.02, 0.03]),
        )
        .unwrap();
    assert!(matches!(outcome, DateOutcome::Skipped));
    let outcome = estimator
        .estimate_date(
            &names(&["sector_a", "sector_b"]),
            &names(&["mom_score"]),
            &section(2, &[0.01, 0.02, 0.03, 0.05]),
        )
        .unwrap();
    assert!(matches!(outcome, DateOutcome::Committed { .. }));
}

#[test]
fn panel_skips_singular_date() {
    let estimator = plain();
    let full = [0.03, 0.035, 0.025, 0.01, 0.015, 0.005];
    let mut flat = section(3, &full);
    flat.style_scores = matrix(6, 1, &[0.0; 6]);
    let p = panel(vec![flat, section(4, &full)]);
    let (factor_returns, residuals) = estimator.estimate(&p).unwrap();
    assert_eq!(factor_returns.len(), 4);
    assert_eq!(residuals.len(), 6);
    assert!(factor_returns.iter().all(|r| r.date == day(4)));
}

#[test]
fn panel_skips_date_of_wrong_shape() {
    let estimator = plain();
    let full = [0.03, 0.035, 0.025, 0.01, 0.015, 0.005];
    let mut odd = section(3, &full);
    odd.symbols.pop();
    let mut wide = section(5, &full);
    wide.style_scores = matrix(6, 2, &[0.1; 12]);
    let mut short = section(6, &full);
    short.market_caps.pop();
    let p = panel(vec![odd, wide, short, section(4, &full)]);
    let (factor_returns, _) = estimator.estimate(&p).unwrap();
    assert_eq!(factor_returns.len(), 4);
    assert!(factor_returns.iter().all(|r| r.date == day(4)));
}

#[test]
fn panel_without_observations_fails() {
    let estimator = plain();
    assert!(matches!(
        estimator.estimate(&panel(vec![])),
        Err(EstimatorError::InsufficientData { required: 1, actual: 0 })
    ));
    assert!(matches!(
        estimator.estimate(&panel(vec![section(2, &[])])),
        Err(EstimatorError::InsufficientData { required: 1, actual: 0 })
    ));
}

#[test]
fn panel_without_sectors_fails() {
    let estimator = plain();
    let mut p = panel(vec![section(2, &[0.03, 0.035, 0.025, 0.01, 0.015, 0.005])]);
    p.sector_names = vec![];
    match estimator.estimate(&p) {
        Err(EstimatorError::InvalidConfig(message)) => {
            assert_eq!(message, "must have at least one sector")
        }
        _ => panic!("expected an invalid configuration"),
    }
}

#[test]
fn panel_with_invalid_percentile_fails() {
    let estimator = FactorReturnsEstimator::with_config(EstimatorConfig {
        winsor_factor: Some(s(0.5)),
        residualize_styles: true,
    });
    let p = panel(vec![section(2, &[0.03, 0.035, 0.025, 0.01, 0.015, 0.005])]);
    match estimator.estimate(&p) {
        Err(EstimatorError::LinearAlgebra(MathError::InvalidPercentile(q))) => {
            assert_eq!(f(q), 0.5)
        }
        _ => panic!("expected an invalid percentile"),
    }
}

#[test]
fn records_clone_with_their_dates() {
    let estimator = plain();
    let p = panel(vec![section(9, &[0.03, 0.035, 0.025, 0.01, 0.015, 0.005])]);
    let (factor_returns, residuals) = estimator.estimate(&p).unwrap();
    let copy = factor_returns[0].clone();
    assert_eq!(copy.date, day(9));
    assert_eq!(copy.factor, "market");
    assert_eq!(f(copy.value), f(factor_returns[0].value));
    let left = residuals[5].clone();
    assert_eq!(left.date, day(9));
    assert_eq!(left.symbol, "A5");
}

#[test]
fn sector_matrix_clone_keeps_entries() {
    let m = matrix(2, 2, &[1.0, 2.0, 3.0, 4.0]);
    let c = m.clone();
    assert_eq!(c.nrows(), 2);
    assert_eq!(c.ncols(), 2);
    assert_eq!(f(c.get(1, 0)), 3.0);
}

fn observation(symbol: &str, r: f64, w: f64, sectors: &[f64], styles: &[f64]) -> toraniko::primitives::AssetObservation {
    toraniko::primitives::AssetObservation {
        symbol: symbol.to_string(),
        asset_return: s(r),
        weight: s(w),
        sector_exposures: vector(sectors),
        style_exposures: vector(styles),
    }
}

#[test]
fn cross_section_from_observations() {
    let observations = vec![
        observation("A", 0.03, 100.0, &[1.0, 0.0], &[0.2]),
        observation("B", 0.035, 110.0, &[1.0, 0.0], &[-0.1]),
        observation("C", 0.01, 120.0, &[0.0, 1.0], &[0.3]),
        observation("D", 0.015, 130.0, &[0.0, 1.0], &[-0.2]),
    ];
    let cs = CrossSection::from_observations(day(2), &observations).unwrap();
    assert_eq!(cs.date, day(2));
    assert_eq!(cs.symbols, vec!["A", "B", "C", "D"]);
    assert_eq!(floats(&cs.asset_returns), vec![0.03, 0.035, 0.01, 0.015]);
    assert_eq!(floats(&cs.market_caps), vec![100.0, 110.0, 120.0, 130.0]);
    assert_eq!(cs.sector_scores.nrows(), 4);
    assert_eq!(cs.sector_scores.ncols(), 2);
    assert_eq!(f(cs.sector_scores.get(2, 1)), 1.0);
    assert_eq!(cs.style_scores.ncols(), 1);
    assert_eq!(f(cs.style_scores.get(3, 0)), -0.2);

    let outcome = plain()
        .estimate_date(&names(&["sector_a", "sector_b"]), &names(&["mom_score"]), &cs)
        .unwrap();
    match outcome {
        DateOutcome::Committed { factor_returns, residuals } => {
            assert_eq!(factor_returns.len(), 4);
            assert_eq!(residuals.len(), 4);
        }
        DateOutcome::Skipped => panic!("expected the date to be estimated"),
    }
}

#[test]
fn cross_section_rejects_ragged_observations() {
    let ragged = vec![
        observation("A", 0.03, 100.0, &[1.0, 0.0], &[0.2]),
        observation("B", 0.035, 110.0, &[1.0], &[-0.1]),
    ];
    assert!(CrossSection::from_observations(day(2), &ragged).is_none());
    let ragged_styles = vec![
        observation("A", 0.03, 100.0, &[1.0, 0.0], &[0.2]),
        observation("B", 0.035, 110.0, &[1.0, 0.0], &[]),
    ];
    assert!(CrossSection::from_observations(day(2), &ragged_styles).is_none());
    let empty = CrossSection::from_observations(day(2), &vec![]).unwrap();
    assert_eq!(empty.asset_returns.len(), 0);
}

#[test]
fn panel_outcomes_are_reported_per_date() {
    let estimator = plain();
    let full = [0.03, 0.035, 0.025, 0.01, 0.015, 0.005];
    let p = panel(vec![section(2, &full), section(3, &[0.01, 0.02]), section(4, &full)]);
    let outcomes = estimator.estimate_dates(&p).unwrap();
    assert_eq!(outcomes.len(), 3);
    assert!(matches!(outcomes[0], DateOutcome::Committed { .. }));
    assert!(matches!(outcomes[1], DateOutcome::Skipped));
    assert!(matches!(outcomes[2], DateOutcome::Committed { .. }));
}

#[test]
fn date_with_invalid_configuration_fails() {
    let full = [0.03, 0.035, 0.025, 0.01, 0.015, 0.005];
    // No sector is named: the request fails, the date is not skipped.
    match plain().estimate_date(&names(&[]), &names(&["mom_score"]), &section(2, &full)) {
        Err(EstimatorError::InvalidConfig(message)) => {
            assert_eq!(message, "must have at least one sector")
        }
        _ => panic!("expected an invalid configuration"),
    }
    // The percentile is invalid: the request fails, the date is not skipped.
    let estimator = FactorReturnsEstimator::with_config(EstimatorConfig {
        winsor_factor: Some(s(0.7)),
        residualize_styles: true,
    });
    match estimator.estimate_date(
        &names(&["sector_a", "sector_b"]),
        &names(&["mom_score"]),
        &section(2, &full),
    ) {
        Err(EstimatorError::LinearAlgebra(MathError::InvalidPercentile(q))) => {
            assert_eq!(f(q), 0.7)
        }
        _ => panic!("expected an invalid percentile"),
    }
    // No sector comes before the percentile.
    match estimator.estimate_date(&names(&[]), &names(&[]), &section(2, &full)) {
        Err(EstimatorError::InvalidConfig(_)) => {}
        _ => panic!("expected an invalid configuration"),
    }
    // A short date under a valid configuration is skipped, not failed.
    let short = plain().estimate_date(
        &names(&["sector_a", "sector_b"]),
        &names(&["mom_score"]),
        &section(2, &[0.01]),
    );
    assert!(matches!(short, Ok(DateOutcome::Skipped)));
}

#[test]
fn panel_outcomes_fail_as_the_panel_estimate_does() {
    let full = [0.03, 0.035, 0.025, 0.01, 0.015, 0.005];
    assert!(matches!(
        plain().estimate_dates(&panel(vec![])),
        Err(EstimatorError::InsufficientData { required: 1, actual: 0 })
    ));
    let mut unnamed = panel(vec![section(2, &full)]);
    unnamed.sector_names = vec![];
    match plain().estimate_dates(&unnamed) {
        Err(EstimatorError::InvalidConfig(message)) => {
            assert_eq!(message, "must have at least one sector")
        }
        _ => panic!("expected an invalid configuration"),
    }
    let estimator = FactorReturnsEstimator::with_config(EstimatorConfig {
        winsor_factor: Some(s(0.0)),
        residualize_styles: true,
    });
    match estimator.estimate_dates(&panel(vec![section(2, &full)])) {
        Err(EstimatorError::LinearAlgebra(MathError::InvalidPercentile(q))) => {
            assert_eq!(f(q), 0.0)
        }
        _ => panic!("expected an invalid percentile"),
    }
    // Without observations the missing data come before the configuration.
    assert!(matches!(
        estimator.estimate_dates(&panel(vec![section(2, &[])])),
        Err(EstimatorError::InsufficientData { required: 1, actual: 0 })
    ));
}

#[test]
fn wls_estimator_takes_square_roots_of_subnormal_weights() {
    let estimator = WlsFactorEstimator::with_config(WlsConfig {
        winsor_factor: None,
        residualize_styles: true,
    });
    // Raw weights so small that they are subnormal: their roots are 1e-160,
    // 1e-160 and 2e-160 up to rounding, so the third counts four times.
    let tiny = 1e-320f64;
    let asset_returns = vector(&[1.0, 3.0, 2.0]);
    let weights = vector(&[tiny, tiny, 4.0 * tiny]);
    let sectors = matrix(3, 1, &[1.0, 1.0, 1.0]);
    let styles = Matrix::zeros(3, 0);
    let outcome = estimator.estimate_single(&asset_returns, &weights, &sectors, &styles);
    // The squared roots sum to far less than the pivot threshold.
    assert!(matches!(
        outcome,
        Err(EstimatorError::LinearAlgebra(MathError::SingularMatrix))
    ));
    let roots = toraniko::primitives::MarketCapWeights::from_raw(weights);
    let expected: Vec<u64> = [tiny, tiny, 4.0 * tiny].iter().map(|x| x.sqrt().to_bits()).collect();
    let got: Vec<u64> = roots.sqrt_weights().iter().map(|x| x.to_bits()).collect();
    assert_eq!(got, expected);
}
