//! Weighted least squares for the factor model, with sector returns
//! constrained to sum to zero.
//!
//! A market column of ones and a full set of sector columns are linearly
//! dependent. The last sector is therefore taken as reference: the design
//! holds the market column, the other sectors' columns less the reference
//! column, and the style columns. The reference sector's return is the
//! negated sum of the others.

use crate::math::error::MathError;
use crate::math::least_squares::{
    sum,
    sum_prefix,
    weighted_least_squares,
    wls_outcome,
    wls_shape_error,
    WlsModel,
};
use crate::matrix::{rectangular, rows_of, Matrix};
use crate::scalar::Scalar;
use vstd::prelude::*;

verus! {

/// One row of the reduced design: a one, each sector exposure but the last
/// less the last, then the style exposures.
pub open spec fn design_row(sectors: Seq<Scalar>, styles: Seq<Scalar>) -> Seq<Scalar> {
    seq![Scalar::spec_one()] + Seq::new(
        (sectors.len() - 1) as nat,
        |j: int| sectors[j].spec_sub(sectors.last()),
    ) + styles
}

/// The reduced design of a cross-section.
pub open spec fn design(sectors: Seq<Seq<Scalar>>, styles: Seq<Seq<Scalar>>) -> Seq<Seq<Scalar>> {
    Seq::new(sectors.len(), |i: int| design_row(sectors[i], styles[i]))
}

/// The returns of all `k` sectors from the coefficients of the reduced
/// design: the free ones as fitted, the last the negated sum of the others.
pub open spec fn sector_returns(beta: Seq<Scalar>, k: nat) -> Seq<Scalar> {
    let free = beta.subrange(1, k as int);
    free.push(sum_prefix(free, k - 1).spec_neg())
}

/// The outcome of the constrained regression, as sequences.
pub struct ConstrainedWlsModel {
    pub market_return: Scalar,
    pub sector_returns: Seq<Scalar>,
    pub style_returns: Seq<Scalar>,
    pub residuals: Seq<Scalar>,
}

/// The outcome of the constrained regression.
#[derive(Debug, Clone)]
pub struct ConstrainedWlsResult {
    /// Return of the market factor.
    pub market_return: Scalar,
    /// Returns of the sectors, in the order of the sector columns.
    pub sector_returns: Vec<Scalar>,
    /// Returns of the styles, in the order of the style columns.
    pub style_returns: Vec<Scalar>,
    /// Residual returns, one per asset.
    pub residuals: Vec<Scalar>,
}

impl View for ConstrainedWlsResult {
    type V = ConstrainedWlsModel;

    open spec fn view(&self) -> ConstrainedWlsModel {
        ConstrainedWlsModel {
            market_return: self.market_return,
            sector_returns: self.sector_returns@,
            style_returns: self.style_returns@,
            residuals: self.residuals@,
        }
    }
}

/// Whether sector returns obey the zero-sum constraint: there is one at
/// least, and the last is the negation of the sum of the others.
pub open spec fn obeys_zero_sum(sector_returns: Seq<Scalar>) -> bool {
    sector_returns.len() >= 1 && sector_returns.last() == sum_prefix(
        sector_returns,
        sector_returns.len() - 1,
    ).spec_neg()
}

impl ConstrainedWlsResult {
    /// The total of the sector returns, added one after the other. Where
    /// they obey the zero-sum constraint and the sum of all but the last is
    /// finite, the total is exactly zero: the last return cancels that sum.
    pub fn sector_total(&self) -> (total: Scalar)
        ensures
            total == sum_prefix(self.sector_returns@, self.sector_returns@.len() as int),
            obeys_zero_sum(self.sector_returns@) && sum_prefix(
                self.sector_returns@,
                self.sector_returns@.len() - 1,
            ).spec_is_finite() ==> total == Scalar::spec_zero(),
    {
        let k: usize = self.sector_returns.len();
        let mut total: Scalar = Scalar::zero();
        let mut j: usize = 0;
        while j < k
            invariant
                k == self.sector_returns@.len(),
                j <= k,
                total == sum_prefix(self.sector_returns@, j as int),
                j == k && obeys_zero_sum(self.sector_returns@) && sum_prefix(
                    self.sector_returns@,
                    k - 1,
                ).spec_is_finite() ==> total == Scalar::spec_zero(),
            decreases k - j,
        {
            total = total.add(self.sector_returns[j]);
            j += 1;
        }
        total
    }
}

/// The error that the row counts of a cross-section give, if any: `n`
/// returns, and the numbers of weights, of sector rows and of style rows.
pub open spec fn cross_section_error(n: nat, weights: nat, sector_rows: nat, style_rows: nat) -> Option<
    MathError,
> {
    if weights != n {
        Some(MathError::DimensionMismatch { expected: n as usize, actual: weights as usize })
    } else if sector_rows != n {
        Some(MathError::DimensionMismatch { expected: n as usize, actual: sector_rows as usize })
    } else if style_rows != n {
        Some(MathError::DimensionMismatch { expected: n as usize, actual: style_rows as usize })
    } else {
        None
    }
}

/// The factor returns that a fit of the reduced design stands for, with `k`
/// sectors: the first coefficient is the market's return, the next `k - 1`
/// give the sectors' returns, the others are the styles' returns.
pub open spec fn factor_returns_of(fit: WlsModel, k: nat) -> ConstrainedWlsModel {
    ConstrainedWlsModel {
        market_return: fit.coefficients[0],
        sector_returns: sector_returns(fit.coefficients, k),
        style_returns: fit.coefficients.skip(k as int),
        residuals: fit.residuals,
    }
}

/// What the constrained regression gives on a cross-section whose row counts
/// agree and that has `k >= 1` sector columns and `m` style columns.
pub open spec fn constrained_outcome(
    y: Seq<Scalar>,
    w: Seq<Scalar>,
    sectors: Seq<Seq<Scalar>>,
    k: nat,
    styles: Seq<Seq<Scalar>>,
    m: nat,
) -> Result<ConstrainedWlsModel, MathError> {
    match wls_outcome(y, design(sectors, styles), k + m, w) {
        Err(e) => Err(e),
        Ok(fit) => Ok(factor_returns_of(fit, k)),
    }
}

/// The message of the error for a cross-section without sector columns.
pub open spec fn no_sector_message() -> Seq<char> {
    "must have at least one sector"@
}

/// Sums of a prefix depend on that prefix alone.
proof fn lemma_sum_prefix_agrees(a: Seq<Scalar>, b: Seq<Scalar>, n: int)
    requires
        forall|i: int| 0 <= i < n ==> a[i] == b[i],
    ensures
        sum_prefix(a, n) == sum_prefix(b, n),
    decreases n,
{
    if n > 0 {
        lemma_sum_prefix_agrees(a, b, n - 1);
    }
}

/// The sector returns obey the zero-sum constraint by construction: there is
/// one per sector, the last is the negation of the sum of the others, and so
/// their total is the sum of a value and its own negation.
pub proof fn lemma_sector_returns_sum_to_zero(beta: Seq<Scalar>, k: nat)
    requires
        1 <= k <= beta.len(),
    ensures
        sector_returns(beta, k).len() == k,
        sector_returns(beta, k).last() == sum_prefix(sector_returns(beta, k), k - 1).spec_neg(),
        sum_prefix(sector_returns(beta, k), k as int) == sum_prefix(
            sector_returns(beta, k),
            k - 1,
        ).spec_add(sum_prefix(sector_returns(beta, k), k - 1).spec_neg()),
{
    let free = beta.subrange(1, k as int);
    lemma_sum_prefix_agrees(sector_returns(beta, k), free, k - 1);
}

/// With a single sector there is no free sector coefficient, and that
/// sector's return is the negation of an empty sum: a zero.
pub proof fn lemma_single_sector_return_is_zero(beta: Seq<Scalar>)
    requires
        1 <= beta.len(),
    ensures
        sector_returns(beta, 1) == seq![Scalar::spec_zero().spec_neg()],
        sector_returns(beta, 1)[0].rank() == 0,
{
    assert(sector_returns(beta, 1) =~= seq![Scalar::spec_zero().spec_neg()]);
}

/// Builds the reduced design of a cross-section.
fn build_design(sectors: &Matrix, styles: &Matrix) -> (x: Matrix)
    requires
        sectors@.len() == styles@.len(),
        sectors.spec_ncols() >= 1,
    ensures
        x@ == design(sectors@, styles@),
        x@.len() > 0 ==> x.spec_ncols() == sectors.spec_ncols() + styles.spec_ncols(),
{
    let n: usize = sectors.nrows();
    let k: usize = sectors.ncols();
    let m: usize = styles.ncols();
    let mut rows: Vec<Vec<Scalar>> = Vec::new();
    let mut i: usize = 0;
    while i < n
        invariant
            n == sectors@.len(),
            n == styles@.len(),
            k == sectors.spec_ncols(),
            m == styles.spec_ncols(),
            k >= 1,
            rectangular(sectors@, k as nat),
            rectangular(styles@, m as nat),
            i <= n,
            rows@.len() == i,
            forall|r: int| 0 <= r < i ==> (#[trigger] rows@[r])@ == design_row(sectors@[r], styles@[r]),
        decreases n - i,
    {
        let ghost target = design_row(sectors@[i as int], styles@[i as int]);
        assert(sectors@[i as int].len() == k);
        assert(styles@[i as int].len() == m);
        let reference: Scalar = sectors.get(i, k - 1);
        let mut row: Vec<Scalar> = Vec::new();
        row.push(Scalar::one());
        let mut j: usize = 0;
        while j < k - 1
            invariant
                i < n,
                n == sectors@.len(),
                k == sectors.spec_ncols(),
                k >= 1,
                sectors@[i as int].len() == k,
                reference == sectors@[i as int].last(),
                j <= k - 1,
                row@.len() == 1 + j,
                row@[0] == Scalar::spec_one(),
                forall|c: int|
                    0 <= c < j ==> (#[trigger] row@[1 + c]) == sectors@[i as int][c].spec_sub(
                        reference,
                    ),
            decreases k - 1 - j,
        {
            row.push(sectors.get(i, j).sub(reference));
            j += 1;
        }
        let mut c: usize = 0;
        while c < m
            invariant
                i < n,
                n == styles@.len(),
                m == styles.spec_ncols(),
                styles@[i as int].len() == m,
                k >= 1,
                c <= m,
                row@.len() == k + c,
                row@[0] == Scalar::spec_one(),
                forall|d: int|
                    0 <= d < k - 1 ==> (#[trigger] row@[1 + d]) == sectors@[i as int][d].spec_sub(
                        reference,
                    ),
                forall|d: int| 0 <= d < c ==> (#[trigger] row@[k + d]) == styles@[i as int][d],
            decreases m - c,
        {
            row.push(styles.get(i, c));
            c += 1;
        }
        assert(row@ =~= target) by {
            assert(target.len() == k + m);
            assert forall|d: int| 0 <= d < k + m implies row@[d] == target[d] by {
                if d == 0 {
                } else if d < k {
                    assert(row@[1 + (d - 1)] == sectors@[i as int][d - 1].spec_sub(reference));
                } else {
                    assert(row@[k + (d - k)] == styles@[i as int][d - k]);
                }
            }
        }
        rows.push(row);
        i += 1;
    }
    assert(rows_of(rows@) =~= design(sectors@, styles@));
    assert forall|r: int| 0 <= r < rows@.len() implies (#[trigger] rows@[r])@.len() == rows@[0]@.len() by {
        assert(sectors@[r].len() == k);
        assert(styles@[r].len() == m);
        assert(sectors@[0].len() == k);
        assert(styles@[0].len() == m);
    }
    if n > 0 {
        assert(rows@[0]@.len() == k + m) by {
            assert(sectors@[0].len() == k);
            assert(styles@[0].len() == m);
        }
    }
    match Matrix::from_rows(rows) {
        Some(x) => x,
        None => Matrix::zeros(0, 0),
    }
}

/// Reads the factor returns off the coefficients of the reduced design.
fn split_coefficients(beta: &Vec<Scalar>, k: usize) -> (parts: (Scalar, Vec<Scalar>, Vec<Scalar>))
    requires
        1 <= k <= beta@.len(),
    ensures
        parts.0 == beta@[0],
        parts.1@ == sector_returns(beta@, k as nat),
        parts.2@ == beta@.skip(k as int),
{
    let market: Scalar = beta[0];
    let mut sectors: Vec<Scalar> = Vec::new();
    let mut j: usize = 0;
    while j < k - 1
        invariant
            1 <= k <= beta@.len(),
            j <= k - 1,
            sectors@.len() == j,
            forall|c: int| 0 <= c < j ==> (#[trigger] sectors@[c]) == beta@[1 + c],
        decreases k - 1 - j,
    {
        sectors.push(beta[1 + j]);
        j += 1;
    }
    assert(sectors@ =~= beta@.subrange(1, k as int));
    let last: Scalar = sum(&sectors).neg();
    sectors.push(last);
    let mut styles: Vec<Scalar> = Vec::new();
    let mut c: usize = k;
    while c < beta.len()
        invariant
            k <= c <= beta@.len(),
            styles@.len() == c - k,
            forall|d: int| 0 <= d < c - k ==> (#[trigger] styles@[d]) == beta@[k + d],
        decreases beta@.len() - c,
    {
        styles.push(beta[c]);
        c += 1;
    }
    assert(styles@ =~= beta@.skip(k as int));
    (market, sectors, styles)
}

/// Estimates market, sector and style returns from one cross-section by
/// weighted least squares, with the sector returns constrained to sum to
/// zero. `weights` are used as they are given. Fails where the row counts
/// disagree, where there is no sector column, and where the regression on
/// the reduced design fails.
pub fn constrained_wls(
    y: &Vec<Scalar>,
    weights: &Vec<Scalar>,
    sector_matrix: &Matrix,
    style_matrix: &Matrix,
) -> (r: Result<ConstrainedWlsResult, MathError>)
    ensures
        match cross_section_error(
            y@.len(),
            weights@.len(),
            sector_matrix@.len(),
            style_matrix@.len(),
        ) {
            Some(shape) => r matches Err(e) && e == shape,
            None => if sector_matrix.spec_ncols() == 0 {
                r matches Err(MathError::InvalidConfiguration(message)) && message@
                    == no_sector_message()
            } else {
                match r {
                    Ok(fit) => constrained_outcome(
                        y@,
                        weights@,
                        sector_matrix@,
                        sector_matrix.spec_ncols(),
                        style_matrix@,
                        style_matrix.spec_ncols(),
                    ) == Ok::<ConstrainedWlsModel, MathError>(fit@),
                    Err(e) => constrained_outcome(
                        y@,
                        weights@,
                        sector_matrix@,
                        sector_matrix.spec_ncols(),
                        style_matrix@,
                        style_matrix.spec_ncols(),
                    ) == Err::<ConstrainedWlsModel, MathError>(e),
                }
            },
        },
        r matches Ok(fit) ==> {
            &&& fit.sector_returns@.len() == sector_matrix.spec_ncols()
            &&& fit.style_returns@.len() == style_matrix.spec_ncols()
            &&& fit.residuals@.len() == y@.len()
            &&& obeys_zero_sum(fit.sector_returns@)
        },
{
    let n: usize = y.len();
    let n_sectors: usize = sector_matrix.ncols();
    let n_styles: usize = style_matrix.ncols();
    if weights.len() != n {
        return Err(MathError::DimensionMismatch { expected: n, actual: weights.len() });
    }
    if sector_matrix.nrows() != n {
        return Err(MathError::DimensionMismatch { expected: n, actual: sector_matrix.nrows() });
    }
    if style_matrix.nrows() != n {
        return Err(MathError::DimensionMismatch { expected: n, actual: style_matrix.nrows() });
    }
    if n_sectors == 0 {
        return Err(MathError::InvalidConfiguration("must have at least one sector".to_string()));
    }
    let x: Matrix = build_design(sector_matrix, style_matrix);
    let ghost p: nat = (n_sectors + n_styles) as nat;
    proof {
        if n == 0 {
            assert(wls_shape_error(y@.len(), x@.len(), weights@.len()) == Some(MathError::EmptyData));
        }
    }
    let fit = match weighted_least_squares(y, &x, weights) {
        Ok(fit) => fit,
        Err(e) => {
            return Err(e);
        },
    };
    proof {
        assert(fit.coefficients@.len() == p);
        lemma_sector_returns_sum_to_zero(fit.coefficients@, n_sectors as nat);
    }
    let parts = split_coefficients(&fit.coefficients, n_sectors);
    Ok(
        ConstrainedWlsResult {
            market_return: parts.0,
            sector_returns: parts.1,
            style_returns: parts.2,
            residuals: fit.residuals,
        },
    )
}

} // verus!
