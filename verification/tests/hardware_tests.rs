use toraniko::math::{constrained_wls, solve_linear_system, weighted_least_squares, winsorize};
use toraniko::matrix::Matrix;
use toraniko::model::{WlsConfig, WlsFactorEstimator};
use toraniko::scalar::Scalar;
use toraniko::traits::FactorEstimator;

fn s(x: f64) -> Scalar {
    Scalar::from_bits(x.to_bits())
}

fn vector(xs: &[f64]) -> Vec<Scalar> {
    xs.iter().map(|x| s(*x)).collect()
}

fn bits(xs: &[Scalar]) -> Vec<u64> {
    xs.iter().map(|x| x.to_bits()).collect()
}

fn float_bits(xs: &[f64]) -> Vec<u64> {
    xs.iter().map(|x| x.to_bits()).collect()
}

fn matrix(rows: &[Vec<f64>], cols: usize) -> Matrix {
    let data: Vec<Scalar> = rows.iter().flat_map(|r| r.iter().map(|x| s(*x))).collect();
    Matrix::from_shape_vec(rows.len(), cols, data).unwrap()
}

fn next(state: &mut u64) -> f64 {
    *state ^= *state << 13;
    *state ^= *state >> 7;
    *state ^= *state << 17;
    ((*state >> 11) as f64 / (1u64 << 53) as f64) * 2.0 - 1.0
}

/// Gaussian elimination with partial pivoting on hardware floats.
fn solve(a: &[Vec<f64>], b: &[f64]) -> Option<Vec<f64>> {
    let n = a.len();
    let mut aug: Vec<Vec<f64>> = (0..n)
        .map(|i| {
            let mut row = a[i].clone();
            row.push(b[i]);
            row
        })
        .collect();
    for col in 0..n {
        let mut max_row = col;
        let mut max_val = aug[col][col].abs();
        for row in col + 1..n {
            if aug[row][col].abs() > max_val {
                max_val = aug[row][col].abs();
                max_row = row;
            }
        }
        if max_val < 1e-14 {
            return None;
        }
        aug.swap(col, max_row);
        for row in col + 1..n {
            let factor = aug[row][col] / aug[col][col];
            for j in col..=n {
                aug[row][j] -= factor * aug[col][j];
            }
        }
    }
    let mut x = vec![0.0; n];
    for i in (0..n).rev() {
        let mut sum = aug[i][n];
        for j in i + 1..n {
            sum -= aug[i][j] * x[j];
        }
        x[i] = sum / aug[i][i];
    }
    Some(x)
}

/// Weighted least squares on hardware floats: coefficients, residuals, fit.
fn wls(y: &[f64], x: &[Vec<f64>], w: &[f64]) -> Option<(Vec<f64>, Vec<f64>, f64)> {
    let n = y.len();
    let p = x[0].len();
    let yw: Vec<f64> = (0..n).map(|i| y[i] * w[i]).collect();
    let xw: Vec<Vec<f64>> = (0..n).map(|i| x[i].iter().map(|v| v * w[i]).collect()).collect();
    let mut xtx = vec![vec![0.0; p]; p];
    let mut xty = vec![0.0; p];
    for a in 0..p {
        for b in 0..p {
            let mut total = 0.0;
            for i in 0..n {
                total += xw[i][a] * xw[i][b];
            }
            xtx[a][b] = total;
        }
        let mut total = 0.0;
        for i in 0..n {
            total += xw[i][a] * yw[i];
        }
        xty[a] = total;
    }
    let beta = solve(&xtx, &xty)?;
    let residuals: Vec<f64> = (0..n)
        .map(|i| {
            let mut fitted = 0.0;
            for j in 0..p {
                fitted += x[i][j] * beta[j];
            }
            y[i] - fitted
        })
        .collect();
    let mut sum = 0.0;
    for v in y {
        sum += v;
    }
    let mean = sum / n as f64;
    let mut total = 0.0;
    for v in y {
        total += (v - mean) * (v - mean);
    }
    let mut left = 0.0;
    for r in residuals.iter() {
        left += r * r;
    }
    let r_squared = if total > 0.0 { 1.0 - left / total } else { 0.0 };
    Some((beta, residuals, r_squared))
}

/// The constrained regression on hardware floats: market, sectors, styles,
/// residuals.
fn constrained(
    y: &[f64],
    w: &[f64],
    sectors: &[Vec<f64>],
    styles: &[Vec<f64>],
) -> Option<(f64, Vec<f64>, Vec<f64>, Vec<f64>)> {
    let k = sectors[0].len();
    let design: Vec<Vec<f64>> = (0..y.len())
        .map(|i| {
            let mut row = vec![1.0];
            for j in 0..k - 1 {
                row.push(sectors[i][j] - sectors[i][k - 1]);
            }
            row.extend_from_slice(&styles[i]);
            row
        })
        .collect();
    let (beta, residuals, _) = wls(y, &design, w)?;
    let mut sector_returns: Vec<f64> = beta[1..k].to_vec();
    let mut sum = 0.0;
    for v in sector_returns.iter() {
        sum += v;
    }
    sector_returns.push(-sum);
    Some((beta[0], sector_returns, beta[k..].to_vec(), residuals))
}

/// Winsorization on hardware floats.
fn clip(data: &[f64], p: f64) -> Vec<f64> {
    let mut finite: Vec<f64> = data.iter().copied().filter(|x| x.is_finite()).collect();
    if finite.is_empty() {
        return data.to_vec();
    }
    finite.sort_by(|a, b| a.partial_cmp(b).unwrap());
    let n = finite.len();
    let lower = (((n as f64) * p).floor() as usize).min(n - 1);
    let upper = (((n as f64) * (1.0 - p)).ceil() as usize).saturating_sub(1).clamp(lower, n - 1);
    let (low, high) = (finite[lower], finite[upper]);
    data.iter().map(|x| if x.is_finite() { x.clamp(low, high) } else { *x }).collect()
}

struct Sample {
    y: Vec<f64>,
    w: Vec<f64>,
    sectors: Vec<Vec<f64>>,
    styles: Vec<Vec<f64>>,
}

fn sample(state: &mut u64, n: usize, k: usize, m: usize) -> Sample {
    let y: Vec<f64> = (0..n).map(|_| next(state) * 0.05).collect();
    let w: Vec<f64> = (0..n).map(|_| 1.0 + next(state).abs() * 1000.0).collect();
    let sectors: Vec<Vec<f64>> = (0..n)
        .map(|i| (0..k).map(|j| if i % k == j { 1.0 } else { 0.0 }).collect())
        .collect();
    let styles: Vec<Vec<f64>> = (0..n).map(|_| (0..m).map(|_| next(state)).collect()).collect();
    Sample { y, w, sectors, styles }
}

#[test]
fn solver_matches_hardware_bit_for_bit() {
    let mut state: u64 = 0x1234_5678_9abc_def1;
    for n in 1..8 {
        let a: Vec<Vec<f64>> = (0..n).map(|_| (0..n).map(|_| next(&mut state)).collect()).collect();
        let b: Vec<f64> = (0..n).map(|_| next(&mut state)).collect();
        let expected = solve(&a, &b).unwrap();
        let got = solve_linear_system(&matrix(&a, n), &vector(&b)).unwrap();
        assert_eq!(bits(&got), float_bits(&expected));
    }
}

#[test]
fn least_squares_matches_hardware_bit_for_bit() {
    let mut state: u64 = 0x0fed_cba9_8765_4321;
    let x: Vec<Vec<f64>> =
        (0..30).map(|_| vec![1.0, next(&mut state), next(&mut state)]).collect();
    let y: Vec<f64> = (0..30).map(|_| next(&mut state)).collect();
    let w: Vec<f64> = (0..30).map(|_| next(&mut state).abs() + 0.1).collect();
    let (beta, residuals, r_squared) = wls(&y, &x, &w).unwrap();
    let fit = weighted_least_squares(&vector(&y), &matrix(&x, 3), &vector(&w)).unwrap();
    assert_eq!(bits(&fit.coefficients), float_bits(&beta));
    assert_eq!(bits(&fit.residuals), float_bits(&residuals));
    assert_eq!(fit.r_squared.to_bits(), r_squared.to_bits());
}

#[test]
fn constrained_regression_matches_hardware_bit_for_bit() {
    let mut state: u64 = 0x2718_2818_2845_9045;
    for (n, k, m) in [(12, 2, 1), (40, 3, 2), (25, 4, 0), (9, 1, 2)] {
        let data = sample(&mut state, n, k, m);
        let (market, sector_returns, style_returns, residuals) =
            constrained(&data.y, &data.w, &data.sectors, &data.styles).unwrap();
        let fit = constrained_wls(
            &vector(&data.y),
            &vector(&data.w),
            &matrix(&data.sectors, k),
            &matrix(&data.styles, m),
        )
        .unwrap();
        assert_eq!(fit.market_return.to_bits(), market.to_bits());
        assert_eq!(bits(&fit.sector_returns), float_bits(&sector_returns));
        assert_eq!(bits(&fit.style_returns), float_bits(&style_returns));
        assert_eq!(bits(&fit.residuals), float_bits(&residuals));
        let total: f64 = sector_returns.iter().sum();
        assert!(total.abs() < 1e-10);
    }
}

#[test]
fn winsorize_matches_hardware_bit_for_bit() {
    let mut state: u64 = 0x3141_5926_5358_9793;
    for n in [1usize, 2, 3, 7, 20, 101] {
        for p in [0.01, 0.05, 0.1, 0.25, 0.4, 0.49] {
            let mut data: Vec<f64> = (0..n).map(|_| next(&mut state) * 10.0).collect();
            if n > 5 {
                data[2] = f64::NAN;
                data[4] = f64::INFINITY;
            }
            let expected = clip(&data, p);
            let got = winsorize(&vector(&data), s(p)).unwrap();
            assert_eq!(bits(&got), float_bits(&expected), "{n} values at {p}");
        }
    }
}

#[test]
fn estimator_matches_hardware_bit_for_bit() {
    let mut state: u64 = 0x1618_0339_8874_9894;
    let data = sample(&mut state, 30, 3, 2);
    let clipped = clip(&data.y, 0.05);
    let roots: Vec<f64> = data.w.iter().map(|x| x.max(0.0).sqrt()).collect();
    let (market, sector_returns, style_returns, residuals) =
        constrained(&clipped, &roots, &data.sectors, &data.styles).unwrap();
    let mut expected = vec![market];
    expected.extend(sector_returns);
    expected.extend(style_returns);

    let estimator = WlsFactorEstimator::with_config(WlsConfig::default());
    let (factor_returns, left) = estimator
        .estimate_single(
            &vector(&data.y),
            &vector(&data.w),
            &matrix(&data.sectors, 3),
            &matrix(&data.styles, 2),
        )
        .unwrap();
    assert_eq!(bits(&factor_returns), float_bits(&expected));
    assert_eq!(bits(&left), float_bits(&residuals));
}
