//! Weighted least squares through the normal equations.

use crate::math::error::MathError;
use crate::math::linalg::{solve_linear_system, solve_outcome};
use crate::matrix::{column, rectangular, Matrix};
use crate::scalar::Scalar;
use vstd::prelude::*;

verus! {

/// The sum of the first `n` products `a[i] * b[i]`, added one after the
/// other to zero.
pub open spec fn dot_prefix(a: Seq<Scalar>, b: Seq<Scalar>, n: int) -> Scalar
    decreases n,
{
    if n <= 0 {
        Scalar::spec_zero()
    } else {
        dot_prefix(a, b, n - 1).spec_add(a[n - 1].spec_mul(b[n - 1]))
    }
}

/// The sum of the first `n` entries of `a`, added one after the other to zero.
pub open spec fn sum_prefix(a: Seq<Scalar>, n: int) -> Scalar
    decreases n,
{
    if n <= 0 {
        Scalar::spec_zero()
    } else {
        sum_prefix(a, n - 1).spec_add(a[n - 1])
    }
}

/// The sum of the squares of the first `n` entries of `a`.
pub open spec fn squares_prefix(a: Seq<Scalar>, n: int) -> Scalar
    decreases n,
{
    if n <= 0 {
        Scalar::spec_zero()
    } else {
        squares_prefix(a, n - 1).spec_add(a[n - 1].spec_mul(a[n - 1]))
    }
}

/// Each entry of `y` times the matching weight.
pub open spec fn scaled(y: Seq<Scalar>, w: Seq<Scalar>) -> Seq<Scalar> {
    Seq::new(y.len(), |i: int| y[i].spec_mul(w[i]))
}

/// Each row of `x` times the weight of that row.
pub open spec fn scaled_rows(x: Seq<Seq<Scalar>>, w: Seq<Scalar>) -> Seq<Seq<Scalar>> {
    Seq::new(x.len(), |i: int| Seq::new(x[i].len(), |j: int| x[i][j].spec_mul(w[i])))
}

/// The `p` by `p` matrix of the products of the columns of `m` with each other.
pub open spec fn gram(m: Seq<Seq<Scalar>>, p: nat) -> Seq<Seq<Scalar>> {
    Seq::new(
        p,
        |a: int| Seq::new(p, |b: int| dot_prefix(column(m, a), column(m, b), m.len() as int)),
    )
}

/// The products of the `p` columns of `m` with `v`.
pub open spec fn moment(m: Seq<Seq<Scalar>>, v: Seq<Scalar>, p: nat) -> Seq<Scalar> {
    Seq::new(p, |a: int| dot_prefix(column(m, a), v, m.len() as int))
}

/// The products of the rows of `x` with `beta`.
pub open spec fn fitted(x: Seq<Seq<Scalar>>, beta: Seq<Scalar>) -> Seq<Scalar> {
    Seq::new(x.len(), |i: int| dot_prefix(x[i], beta, beta.len() as int))
}

/// Entry by entry, `a` minus `b`.
pub open spec fn differences(a: Seq<Scalar>, b: Seq<Scalar>) -> Seq<Scalar> {
    Seq::new(a.len(), |i: int| a[i].spec_sub(b[i]))
}

/// Each entry of `a` minus `center`.
pub open spec fn centered(a: Seq<Scalar>, center: Scalar) -> Seq<Scalar> {
    Seq::new(a.len(), |i: int| a[i].spec_sub(center))
}

/// The sum of the entries of `y` over their number.
pub open spec fn mean(y: Seq<Scalar>) -> Scalar {
    sum_prefix(y, y.len() as int).spec_div(Scalar::spec_from_count(y.len() as usize))
}

/// The share of the variation of `y` about its mean that the residuals leave
/// explained: one minus the ratio of the residual to the total sum of
/// squares, and zero where the total is not positive.
pub open spec fn r_squared(y: Seq<Scalar>, residuals: Seq<Scalar>) -> Scalar {
    let total = squares_prefix(centered(y, mean(y)), y.len() as int);
    let left = squares_prefix(residuals, residuals.len() as int);
    if total.spec_gt(Scalar::spec_zero()) {
        Scalar::spec_one().spec_sub(left.spec_div(total))
    } else {
        Scalar::spec_zero()
    }
}

/// The outcome of a weighted least squares fit, as sequences.
pub struct WlsModel {
    pub coefficients: Seq<Scalar>,
    pub residuals: Seq<Scalar>,
    pub r_squared: Scalar,
}

/// The outcome of a weighted least squares fit.
#[derive(Debug, Clone)]
pub struct WlsResult {
    /// Estimated coefficients, one per column of the design.
    pub coefficients: Vec<Scalar>,
    /// Unweighted residuals, one per observation.
    pub residuals: Vec<Scalar>,
    /// Share of the variation explained.
    pub r_squared: Scalar,
}

impl View for WlsResult {
    type V = WlsModel;

    open spec fn view(&self) -> WlsModel {
        WlsModel {
            coefficients: self.coefficients@,
            residuals: self.residuals@,
            r_squared: self.r_squared,
        }
    }
}

/// The error that the shapes of a regression's inputs give, if any: `n`
/// responses, `rows` rows of the design, `weights` weights.
pub open spec fn wls_shape_error(n: nat, rows: nat, weights: nat) -> Option<MathError> {
    if rows != n {
        Some(MathError::DimensionMismatch { expected: n as usize, actual: rows as usize })
    } else if weights != n {
        Some(MathError::DimensionMismatch { expected: n as usize, actual: weights as usize })
    } else if n == 0 {
        Some(MathError::EmptyData)
    } else {
        None
    }
}

/// What weighted least squares of `y` on the `p` columns of `x` with weights
/// `w` gives: the error of the shapes, else the error of solving the normal
/// equations, else the coefficients with their residuals and fit.
pub open spec fn wls_outcome(y: Seq<Scalar>, x: Seq<Seq<Scalar>>, p: nat, w: Seq<Scalar>) -> Result<
    WlsModel,
    MathError,
> {
    match wls_shape_error(y.len(), x.len(), w.len()) {
        Some(e) => Err(e),
        None => {
            let xw = scaled_rows(x, w);
            let yw = scaled(y, w);
            match solve_outcome(gram(xw, p), p, moment(xw, yw, p)) {
                Err(e) => Err(e),
                Ok(beta) => {
                    let residuals = differences(y, fitted(x, beta));
                    Ok(
                        WlsModel {
                            coefficients: beta,
                            residuals,
                            r_squared: r_squared(y, residuals),
                        },
                    )
                },
            }
        },
    }
}

/// The product of `a` and `b`, entry by entry and added up.
fn dot(a: &Vec<Scalar>, b: &Vec<Scalar>) -> (r: Scalar)
    requires
        a@.len() == b@.len(),
    ensures
        r == dot_prefix(a@, b@, a@.len() as int),
{
    let n: usize = a.len();
    let mut total: Scalar = Scalar::zero();
    let mut i: usize = 0;
    while i < n
        invariant
            n == a@.len(),
            n == b@.len(),
            i <= n,
            total == dot_prefix(a@, b@, i as int),
        decreases n - i,
    {
        total = total.add(a[i].mul(b[i]));
        i += 1;
    }
    total
}

/// The product of columns `a` and `b` of `m`.
fn dot_columns(m: &Matrix, a: usize, b: usize) -> (r: Scalar)
    requires
        a < m.spec_ncols(),
        b < m.spec_ncols(),
    ensures
        r == dot_prefix(column(m@, a as int), column(m@, b as int), m@.len() as int),
{
    let n: usize = m.nrows();
    let mut total: Scalar = Scalar::zero();
    let mut i: usize = 0;
    while i < n
        invariant
            n == m@.len(),
            a < m.spec_ncols(),
            b < m.spec_ncols(),
            i <= n,
            total == dot_prefix(column(m@, a as int), column(m@, b as int), i as int),
        decreases n - i,
    {
        total = total.add(m.get(i, a).mul(m.get(i, b)));
        i += 1;
    }
    total
}

/// The product of column `a` of `m` with `v`.
fn dot_column(m: &Matrix, a: usize, v: &Vec<Scalar>) -> (r: Scalar)
    requires
        a < m.spec_ncols(),
        v@.len() == m@.len(),
    ensures
        r == dot_prefix(column(m@, a as int), v@, m@.len() as int),
{
    let n: usize = m.nrows();
    let mut total: Scalar = Scalar::zero();
    let mut i: usize = 0;
    while i < n
        invariant
            n == m@.len(),
            n == v@.len(),
            a < m.spec_ncols(),
            i <= n,
            total == dot_prefix(column(m@, a as int), v@, i as int),
        decreases n - i,
    {
        total = total.add(m.get(i, a).mul(v[i]));
        i += 1;
    }
    total
}

/// The sum of the entries of `a`.
pub fn sum(a: &Vec<Scalar>) -> (r: Scalar)
    ensures
        r == sum_prefix(a@, a@.len() as int),
{
    let n: usize = a.len();
    let mut total: Scalar = Scalar::zero();
    let mut i: usize = 0;
    while i < n
        invariant
            n == a@.len(),
            i <= n,
            total == sum_prefix(a@, i as int),
        decreases n - i,
    {
        total = total.add(a[i]);
        i += 1;
    }
    total
}

/// The sum of the squares of the entries of `a`.
fn sum_of_squares(a: &Vec<Scalar>) -> (r: Scalar)
    ensures
        r == squares_prefix(a@, a@.len() as int),
{
    let n: usize = a.len();
    let mut total: Scalar = Scalar::zero();
    let mut i: usize = 0;
    while i < n
        invariant
            n == a@.len(),
            i <= n,
            total == squares_prefix(a@, i as int),
        decreases n - i,
    {
        total = total.add(a[i].mul(a[i]));
        i += 1;
    }
    total
}

/// Each entry of `y` times the matching weight.
fn scale(y: &Vec<Scalar>, w: &Vec<Scalar>) -> (r: Vec<Scalar>)
    requires
        y@.len() == w@.len(),
    ensures
        r@ == scaled(y@, w@),
{
    let n: usize = y.len();
    let mut out: Vec<Scalar> = Vec::new();
    let mut i: usize = 0;
    while i < n
        invariant
            n == y@.len(),
            n == w@.len(),
            i <= n,
            out@.len() == i,
            forall|k: int| 0 <= k < i ==> (#[trigger] out@[k]) == y@[k].spec_mul(w@[k]),
        decreases n - i,
    {
        out.push(y[i].mul(w[i]));
        i += 1;
    }
    assert(out@ =~= scaled(y@, w@));
    out
}

/// Each row of `x` times the weight of that row.
fn scale_rows(x: &Matrix, w: &Vec<Scalar>) -> (r: Matrix)
    requires
        x@.len() == w@.len(),
    ensures
        r@ == scaled_rows(x@, w@),
        r.spec_ncols() == x.spec_ncols(),
{
    let n: usize = x.nrows();
    let p: usize = x.ncols();
    let mut out: Matrix = Matrix::zeros(n, p);
    let mut i: usize = 0;
    while i < n
        invariant
            n == x@.len(),
            n == w@.len(),
            p == x.spec_ncols(),
            rectangular(x@, p as nat),
            out@.len() == n,
            out.spec_ncols() == p,
            rectangular(out@, p as nat),
            i <= n,
            forall|r: int, c: int|
                0 <= r < i && 0 <= c < p ==> (#[trigger] out@[r][c]) == x@[r][c].spec_mul(w@[r]),
        decreases n - i,
    {
        let weight: Scalar = w[i];
        let mut j: usize = 0;
        while j < p
            invariant
                n == x@.len(),
                p == x.spec_ncols(),
                rectangular(x@, p as nat),
                out@.len() == n,
                out.spec_ncols() == p,
                rectangular(out@, p as nat),
                i < n,
                j <= p,
                weight == w@[i as int],
                forall|r: int, c: int|
                    0 <= r < i && 0 <= c < p ==> (#[trigger] out@[r][c]) == x@[r][c].spec_mul(
                        w@[r],
                    ),
                forall|c: int|
                    0 <= c < j ==> (#[trigger] out@[i as int][c]) == x@[i as int][c].spec_mul(
                        weight,
                    ),
            decreases p - j,
        {
            out.set(i, j, x.get(i, j).mul(weight));
            j += 1;
        }
        i += 1;
    }
    assert(out@ =~= scaled_rows(x@, w@)) by {
        assert forall|r: int| 0 <= r < n implies (#[trigger] out@[r]) =~= scaled_rows(x@, w@)[r] by {
            assert(out@[r].len() == p);
            assert(x@[r].len() == p);
        }
    }
    out
}

/// The normal equations' matrix: the products of the columns of `m` with
/// each other.
fn gram_matrix(m: &Matrix) -> (r: Matrix)
    ensures
        r@ == gram(m@, m.spec_ncols()),
        r.spec_ncols() == m.spec_ncols(),
{
    let p: usize = m.ncols();
    let mut out: Matrix = Matrix::zeros(p, p);
    let mut a: usize = 0;
    while a < p
        invariant
            p == m.spec_ncols(),
            out@.len() == p,
            out.spec_ncols() == p,
            rectangular(out@, p as nat),
            a <= p,
            forall|r: int, c: int|
                0 <= r < a && 0 <= c < p ==> (#[trigger] out@[r][c]) == dot_prefix(
                    column(m@, r),
                    column(m@, c),
                    m@.len() as int,
                ),
        decreases p - a,
    {
        let mut b: usize = 0;
        while b < p
            invariant
                p == m.spec_ncols(),
                out@.len() == p,
                out.spec_ncols() == p,
                rectangular(out@, p as nat),
                a < p,
                b <= p,
                forall|r: int, c: int|
                    0 <= r < a && 0 <= c < p ==> (#[trigger] out@[r][c]) == dot_prefix(
                        column(m@, r),
                        column(m@, c),
                        m@.len() as int,
                    ),
                forall|c: int|
                    0 <= c < b ==> (#[trigger] out@[a as int][c]) == dot_prefix(
                        column(m@, a as int),
                        column(m@, c),
                        m@.len() as int,
                    ),
            decreases p - b,
        {
            out.set(a, b, dot_columns(m, a, b));
            b += 1;
        }
        a += 1;
    }
    assert(out@ =~= gram(m@, p as nat)) by {
        assert forall|r: int| 0 <= r < p implies (#[trigger] out@[r]) =~= gram(m@, p as nat)[r] by {
            assert(out@[r].len() == p);
        }
    }
    out
}

/// The normal equations' right-hand side: the products of the columns of
/// `m` with `v`.
fn moment_vector(m: &Matrix, v: &Vec<Scalar>) -> (r: Vec<Scalar>)
    requires
        v@.len() == m@.len(),
    ensures
        r@ == moment(m@, v@, m.spec_ncols()),
{
    let p: usize = m.ncols();
    let mut out: Vec<Scalar> = Vec::new();
    let mut a: usize = 0;
    while a < p
        invariant
            p == m.spec_ncols(),
            v@.len() == m@.len(),
            a <= p,
            out@.len() == a,
            forall|k: int|
                0 <= k < a ==> (#[trigger] out@[k]) == dot_prefix(column(m@, k), v@, m@.len() as int),
        decreases p - a,
    {
        out.push(dot_column(m, a, v));
        a += 1;
    }
    assert(out@ =~= moment(m@, v@, p as nat));
    out
}

/// The residuals of `y` about the products of the rows of `x` with `beta`.
fn residuals_of(y: &Vec<Scalar>, x: &Matrix, beta: &Vec<Scalar>) -> (r: Vec<Scalar>)
    requires
        y@.len() == x@.len(),
        beta@.len() == x.spec_ncols(),
    ensures
        r@ == differences(y@, fitted(x@, beta@)),
{
    let n: usize = y.len();
    let mut out: Vec<Scalar> = Vec::new();
    let mut i: usize = 0;
    while i < n
        invariant
            n == y@.len(),
            n == x@.len(),
            beta@.len() == x.spec_ncols(),
            i <= n,
            out@.len() == i,
            forall|k: int|
                0 <= k < i ==> (#[trigger] out@[k]) == y@[k].spec_sub(
                    dot_prefix(x@[k], beta@, beta@.len() as int),
                ),
        decreases n - i,
    {
        let predicted: Scalar = dot(x.row(i), beta);
        out.push(y[i].sub(predicted));
        i += 1;
    }
    assert(out@ =~= differences(y@, fitted(x@, beta@)));
    out
}

/// The share of the variation of `y` about its mean that the residuals leave
/// explained.
fn fit_quality(y: &Vec<Scalar>, residuals: &Vec<Scalar>) -> (r: Scalar)
    ensures
        r == r_squared(y@, residuals@),
{
    let n: usize = y.len();
    let center: Scalar = sum(y).div(Scalar::from_count(n));
    let mut deviations: Vec<Scalar> = Vec::new();
    let mut i: usize = 0;
    while i < n
        invariant
            n == y@.len(),
            i <= n,
            deviations@.len() == i,
            forall|k: int| 0 <= k < i ==> (#[trigger] deviations@[k]) == y@[k].spec_sub(center),
        decreases n - i,
    {
        deviations.push(y[i].sub(center));
        i += 1;
    }
    assert(deviations@ =~= centered(y@, center));
    let total: Scalar = sum_of_squares(&deviations);
    let left: Scalar = sum_of_squares(residuals);
    if total.gt(Scalar::zero()) {
        Scalar::one().sub(left.div(total))
    } else {
        Scalar::zero()
    }
}

/// Fits `y` on the columns of `x` by least squares with weights `w`: each
/// row of `x` and entry of `y` is scaled by its weight, and the normal
/// equations of the scaled data are solved. The residuals are those of the
/// data as given.
pub fn weighted_least_squares(y: &Vec<Scalar>, x: &Matrix, weights: &Vec<Scalar>) -> (r: Result<
    WlsResult,
    MathError,
>)
    ensures
        match r {
            Ok(fit) => wls_outcome(y@, x@, x.spec_ncols(), weights@) == Ok::<WlsModel, MathError>(
                fit@,
            ),
            Err(e) => wls_outcome(y@, x@, x.spec_ncols(), weights@) == Err::<WlsModel, MathError>(e),
        },
        r matches Ok(fit) ==> fit.coefficients@.len() == x.spec_ncols() && fit.residuals@.len()
            == y@.len(),
{
    let n: usize = y.len();
    if x.nrows() != n {
        return Err(MathError::DimensionMismatch { expected: n, actual: x.nrows() });
    }
    if weights.len() != n {
        return Err(MathError::DimensionMismatch { expected: n, actual: weights.len() });
    }
    if n == 0 {
        return Err(MathError::EmptyData);
    }
    let y_weighted: Vec<Scalar> = scale(y, weights);
    let x_weighted: Matrix = scale_rows(x, weights);
    let xtx: Matrix = gram_matrix(&x_weighted);
    let xty: Vec<Scalar> = moment_vector(&x_weighted, &y_weighted);
    let coefficients: Vec<Scalar> = match solve_linear_system(&xtx, &xty) {
        Ok(beta) => beta,
        Err(e) => {
            return Err(e);
        },
    };
    let residuals: Vec<Scalar> = residuals_of(y, x, &coefficients);
    let r_squared: Scalar = fit_quality(y, &residuals);
    Ok(WlsResult { coefficients, residuals, r_squared })
}

} // verus!
