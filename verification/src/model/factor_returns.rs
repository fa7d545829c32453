//! Estimation of factor returns over a panel of dates.
//!
//! Each date is estimated on its own. A date that cannot be estimated is
//! skipped whole: it leaves no record, and the other dates are not affected.

use crate::math::error::MathError;
use crate::math::winsorize::percentile_is_valid;
use crate::matrix::Matrix;
use crate::model::error::ModelError;
use crate::model::wls::{
    is_single_estimate,
    mismatched_input,
    single_outcome,
    WlsConfig,
    WlsFactorEstimator,
    DEFAULT_WINSOR_BITS,
};
use crate::primitives::date::Date;
use crate::primitives::panel::{
    factor_entries,
    residual_entries,
    sections,
    texts,
    CrossSection,
    CrossSectionView,
    FactorReturnEntry,
    FactorReturnRecord,
    Panel,
    ResidualEntry,
    ResidualRecord,
};
use crate::scalar::Scalar;
use crate::traits::estimator::{EstimatorError, FactorEstimator, ReturnsEstimator};
use crate::traits::factor::FactorKind;
use vstd::prelude::*;

verus! {

/// Configuration of the estimation of factor returns.
#[derive(Debug, Clone, Copy)]
pub struct EstimatorConfig {
    /// Percentile at which returns are winsorized, if at all.
    pub winsor_factor: Option<Scalar>,
    /// Whether style scores were made orthogonal to the sectors upstream.
    pub residualize_styles: bool,
}

impl Default for EstimatorConfig {
    fn default() -> (r: EstimatorConfig)
        ensures
            r.winsor_factor == Some(Scalar { bits: DEFAULT_WINSOR_BITS }),
            r.residualize_styles,
    {
        EstimatorConfig {
            winsor_factor: Some(Scalar::from_bits(DEFAULT_WINSOR_BITS)),
            residualize_styles: true,
        }
    }
}

/// The name of the market factor.
pub open spec fn market_name() -> Seq<char> {
    "market"@
}

/// The factor return records of a date: the market's, then one per sector
/// in the order of the sector columns, then one per style in the order of
/// the style columns. `values` holds the returns in that order.
pub open spec fn factor_records(
    date: Date,
    sector_names: Seq<Seq<char>>,
    style_names: Seq<Seq<char>>,
    values: Seq<Scalar>,
) -> Seq<FactorReturnEntry> {
    Seq::new(
        1 + sector_names.len() + style_names.len(),
        |i: int|
            if i == 0 {
                FactorReturnEntry {
                    date,
                    factor: market_name(),
                    kind: FactorKind::Market,
                    value: values[0],
                }
            } else if i <= sector_names.len() {
                FactorReturnEntry {
                    date,
                    factor: sector_names[i - 1],
                    kind: FactorKind::Sector,
                    value: values[i],
                }
            } else {
                FactorReturnEntry {
                    date,
                    factor: style_names[i - 1 - sector_names.len()],
                    kind: FactorKind::Style,
                    value: values[i],
                }
            },
    )
}

/// The residual records of a date: one per asset, in the order of the rows.
pub open spec fn residual_records(date: Date, symbols: Seq<Seq<char>>, residuals: Seq<Scalar>) -> Seq<
    ResidualEntry,
> {
    Seq::new(
        residuals.len(),
        |i: int| ResidualEntry { date, symbol: symbols[i], value: residuals[i] },
    )
}

/// Whether a cross-section can be handed to the regression: it has more
/// observations than there are free parameters, one symbol per observation,
/// one column per named sector and style, at least one sector, and inputs
/// whose row counts agree.
pub open spec fn is_estimable(
    sector_names: Seq<Seq<char>>,
    style_names: Seq<Seq<char>>,
    section: CrossSectionView,
) -> bool {
    &&& section.asset_returns.len() > sector_names.len() + style_names.len()
    &&& sector_names.len() >= 1
    &&& section.symbols.len() == section.asset_returns.len()
    &&& section.sector_columns == sector_names.len()
    &&& section.style_columns == style_names.len()
    &&& mismatched_input(
        section.asset_returns.len(),
        section.market_caps.len(),
        section.sector_scores.len(),
        section.style_scores.len(),
    ) is None
}

/// What a date leaves in the output: its factor return records and its
/// residual records where it can be estimated and the regression succeeds,
/// and nothing otherwise.
pub open spec fn date_outcome(
    winsor: Option<Scalar>,
    sector_names: Seq<Seq<char>>,
    style_names: Seq<Seq<char>>,
    section: CrossSectionView,
) -> Option<(Seq<FactorReturnEntry>, Seq<ResidualEntry>)> {
    if !is_estimable(sector_names, style_names, section) {
        None
    } else {
        match single_outcome(
            winsor,
            section.asset_returns,
            section.market_caps,
            section.sector_scores,
            section.sector_columns,
            section.style_scores,
            section.style_columns,
        ) {
            Ok((values, residuals)) => Some(
                (
                    factor_records(section.date, sector_names, style_names, values),
                    residual_records(section.date, section.symbols, residuals),
                ),
            ),
            Err(_) => None,
        }
    }
}

/// The records that the first `upto` dates of a panel leave, date by date.
pub open spec fn panel_records(
    winsor: Option<Scalar>,
    sector_names: Seq<Seq<char>>,
    style_names: Seq<Seq<char>>,
    dates: Seq<CrossSectionView>,
    upto: int,
) -> (Seq<FactorReturnEntry>, Seq<ResidualEntry>)
    decreases upto,
{
    if upto <= 0 {
        (Seq::empty(), Seq::empty())
    } else {
        let earlier = panel_records(winsor, sector_names, style_names, dates, upto - 1);
        match date_outcome(winsor, sector_names, style_names, dates[upto - 1]) {
            Some((factors, residuals)) => (earlier.0 + factors, earlier.1 + residuals),
            None => earlier,
        }
    }
}

/// Whether the first `upto` dates hold no observation at all.
pub open spec fn no_observations(dates: Seq<CrossSectionView>, upto: int) -> bool {
    forall|i: int| 0 <= i < upto ==> (#[trigger] dates[i]).asset_returns.len() == 0
}

/// The message of the error for a panel without sector columns.
pub open spec fn no_sector_columns_message() -> Seq<char> {
    "must have at least one sector"@
}

/// Whether the configuration can be met by some date: there is a sector,
/// and the winsorization percentile, where one is set, is valid.
pub open spec fn configuration_is_valid(winsor: Option<Scalar>, sectors: nat) -> bool {
    sectors >= 1 && (winsor matches Some(p) ==> percentile_is_valid(p))
}

/// Whether `e` is the error of a configuration that no date can meet: that
/// of the missing sector where there is none, else that of the invalid
/// percentile.
pub open spec fn is_configuration_error(e: EstimatorError, winsor: Option<Scalar>, sectors: nat) -> bool {
    if sectors == 0 {
        e matches EstimatorError::InvalidConfig(message) && message@ == no_sector_columns_message()
    } else {
        e matches EstimatorError::LinearAlgebra(MathError::InvalidPercentile(q)) && winsor == Some(q)
            && !percentile_is_valid(q)
    }
}

/// Whether `e` is the error of a request on a panel that no date could
/// meet: that of the missing observations where the panel holds none, else
/// that of the configuration.
pub open spec fn is_panel_error(
    e: EstimatorError,
    winsor: Option<Scalar>,
    sectors: nat,
    dates: Seq<CrossSectionView>,
) -> bool {
    if no_observations(dates, dates.len() as int) {
        e matches EstimatorError::InsufficientData { required, actual } && required == 1 && actual
            == 0
    } else {
        is_configuration_error(e, winsor, sectors)
    }
}

/// Whether a panel can be estimated at all: it holds an observation and the
/// configuration is valid.
pub open spec fn panel_is_estimable(
    winsor: Option<Scalar>,
    sectors: nat,
    dates: Seq<CrossSectionView>,
) -> bool {
    !no_observations(dates, dates.len() as int) && configuration_is_valid(winsor, sectors)
}

/// Whether `r` is what the estimation of a panel has to give: the failure
/// of a request that no date could meet, else the records of the dates.
pub open spec fn is_panel_estimate(
    r: Result<(Vec<FactorReturnRecord>, Vec<ResidualRecord>), EstimatorError>,
    winsor: Option<Scalar>,
    sector_names: Seq<Seq<char>>,
    style_names: Seq<Seq<char>>,
    dates: Seq<CrossSectionView>,
) -> bool {
    match r {
        Ok(found) => panel_is_estimable(winsor, sector_names.len(), dates) && (
            factor_entries(found.0@),
            residual_entries(found.1@),
        ) == panel_records(winsor, sector_names, style_names, dates, dates.len() as int),
        Err(e) => !panel_is_estimable(winsor, sector_names.len(), dates) && is_panel_error(
            e,
            winsor,
            sector_names.len(),
            dates,
        ),
    }
}

/// Whether `r` is what the processing of the dates of a panel has to give:
/// the failure of a request that no date could meet, else what each date
/// ends in, in the order of the dates.
pub open spec fn is_panel_outcomes(
    r: Result<Vec<DateOutcome>, EstimatorError>,
    winsor: Option<Scalar>,
    sector_names: Seq<Seq<char>>,
    style_names: Seq<Seq<char>>,
    dates: Seq<CrossSectionView>,
) -> bool {
    match r {
        Ok(outcomes) => {
            &&& panel_is_estimable(winsor, sector_names.len(), dates)
            &&& outcomes@.len() == dates.len()
            &&& forall|i: int|
                0 <= i < outcomes@.len() ==> (#[trigger] outcomes@[i]).entries() == date_outcome(
                    winsor,
                    sector_names,
                    style_names,
                    dates[i],
                )
        },
        Err(e) => !panel_is_estimable(winsor, sector_names.len(), dates) && is_panel_error(
            e,
            winsor,
            sector_names.len(),
            dates,
        ),
    }
}

/// What the processing of one date ends in.
#[derive(Debug)]
pub enum DateOutcome {
    /// The date was estimated; these are its records.
    Committed { factor_returns: Vec<FactorReturnRecord>, residuals: Vec<ResidualRecord> },
    /// The date was dropped and leaves no record.
    Skipped,
}

impl DateOutcome {
    /// The records of the outcome, as sequences; nothing for a skipped date.
    pub open spec fn entries(&self) -> Option<(Seq<FactorReturnEntry>, Seq<ResidualEntry>)> {
        match *self {
            DateOutcome::Committed { factor_returns, residuals } => Some(
                (factor_entries(factor_returns@), residual_entries(residuals@)),
            ),
            DateOutcome::Skipped => None,
        }
    }
}

/// A date that is estimated leaves one factor return record for the market
/// and for every sector and style, and one residual record for every
/// observation.
pub proof fn lemma_committed_date_record_counts(
    winsor: Option<Scalar>,
    sector_names: Seq<Seq<char>>,
    style_names: Seq<Seq<char>>,
    section: CrossSectionView,
)
    ensures
        date_outcome(winsor, sector_names, style_names, section) matches Some(found) ==> {
            &&& found.0.len() == 1 + sector_names.len() + style_names.len()
            &&& found.1.len() == section.asset_returns.len()
        },
{
}

/// A date with no more observations than free parameters is skipped: it
/// leaves no record, and the records of the panel are those that the panel
/// without that date leaves.
pub proof fn lemma_short_date_leaves_no_records(
    winsor: Option<Scalar>,
    sector_names: Seq<Seq<char>>,
    style_names: Seq<Seq<char>>,
    dates: Seq<CrossSectionView>,
    d: int,
)
    requires
        0 <= d < dates.len(),
        dates[d].asset_returns.len() <= sector_names.len() + style_names.len(),
    ensures
        date_outcome(winsor, sector_names, style_names, dates[d]) is None,
        panel_records(winsor, sector_names, style_names, dates, dates.len() as int)
            == panel_records(winsor, sector_names, style_names, dates.remove(d), dates.len() - 1),
{
    lemma_skipped_date_can_be_removed(
        winsor,
        sector_names,
        style_names,
        dates,
        d,
        dates.len() as int,
    );
}

/// The records of a panel up to a date do not depend on the later dates.
proof fn lemma_panel_records_of_prefix(
    winsor: Option<Scalar>,
    sector_names: Seq<Seq<char>>,
    style_names: Seq<Seq<char>>,
    a: Seq<CrossSectionView>,
    b: Seq<CrossSectionView>,
    upto: int,
)
    requires
        upto <= a.len(),
        upto <= b.len(),
        forall|i: int| 0 <= i < upto ==> a[i] == b[i],
    ensures
        panel_records(winsor, sector_names, style_names, a, upto) == panel_records(
            winsor,
            sector_names,
            style_names,
            b,
            upto,
        ),
    decreases upto,
{
    if upto > 0 {
        lemma_panel_records_of_prefix(winsor, sector_names, style_names, a, b, upto - 1);
    }
}

/// Dates are estimated independently of each other: the records of two
/// panels put one after the other are the records of the first followed by
/// the records of the second.
pub proof fn lemma_panel_records_concatenate(
    winsor: Option<Scalar>,
    sector_names: Seq<Seq<char>>,
    style_names: Seq<Seq<char>>,
    a: Seq<CrossSectionView>,
    b: Seq<CrossSectionView>,
    upto: int,
)
    requires
        0 <= upto <= b.len(),
    ensures
        panel_records(winsor, sector_names, style_names, a + b, a.len() + upto).0 == panel_records(
            winsor,
            sector_names,
            style_names,
            a,
            a.len() as int,
        ).0 + panel_records(winsor, sector_names, style_names, b, upto).0,
        panel_records(winsor, sector_names, style_names, a + b, a.len() + upto).1 == panel_records(
            winsor,
            sector_names,
            style_names,
            a,
            a.len() as int,
        ).1 + panel_records(winsor, sector_names, style_names, b, upto).1,
    decreases upto,
{
    let first = panel_records(winsor, sector_names, style_names, a, a.len() as int);
    if upto == 0 {
        lemma_panel_records_of_prefix(winsor, sector_names, style_names, a + b, a, a.len() as int);
        assert(first.0 + Seq::<FactorReturnEntry>::empty() =~= first.0);
        assert(first.1 + Seq::<ResidualEntry>::empty() =~= first.1);
    } else {
        lemma_panel_records_concatenate(winsor, sector_names, style_names, a, b, upto - 1);
        let earlier = panel_records(winsor, sector_names, style_names, b, upto - 1);
        assert((a + b)[a.len() + upto - 1] == b[upto - 1]);
        match date_outcome(winsor, sector_names, style_names, b[upto - 1]) {
            Some((factors, residuals)) => {
                assert((first.0 + earlier.0) + factors =~= first.0 + (earlier.0 + factors));
                assert((first.1 + earlier.1) + residuals =~= first.1 + (earlier.1 + residuals));
            },
            None => {},
        }
    }
}

/// A date that leaves no record can be taken out of the panel without
/// changing what the panel leaves.
pub proof fn lemma_skipped_date_can_be_removed(
    winsor: Option<Scalar>,
    sector_names: Seq<Seq<char>>,
    style_names: Seq<Seq<char>>,
    dates: Seq<CrossSectionView>,
    d: int,
    upto: int,
)
    requires
        0 <= d < upto <= dates.len(),
        date_outcome(winsor, sector_names, style_names, dates[d]) is None,
    ensures
        panel_records(winsor, sector_names, style_names, dates, upto) == panel_records(
            winsor,
            sector_names,
            style_names,
            dates.remove(d),
            upto - 1,
        ),
    decreases upto,
{
    let shorter = dates.remove(d);
    if upto == d + 1 {
        lemma_panel_records_of_prefix(winsor, sector_names, style_names, dates, shorter, d);
    } else {
        lemma_skipped_date_can_be_removed(winsor, sector_names, style_names, dates, d, upto - 1);
        assert(shorter[upto - 2] == dates[upto - 1]);
    }
}

/// Estimator of factor returns over a panel of dates.
#[derive(Debug, Clone, Copy)]
pub struct FactorReturnsEstimator {
    config: EstimatorConfig,
    wls: WlsFactorEstimator,
}

impl FactorReturnsEstimator {
    #[verifier::type_invariant]
    spec fn well_formed(self) -> bool {
        &&& self.wls.spec_config().winsor_factor == self.config.winsor_factor
        &&& self.wls.spec_config().residualize_styles == self.config.residualize_styles
    }

    /// The estimator's configuration.
    pub closed spec fn spec_config(&self) -> EstimatorConfig {
        self.config
    }

    /// The estimator with the default configuration.
    pub fn new() -> (r: FactorReturnsEstimator)
        ensures
            r.spec_config().winsor_factor == Some(Scalar { bits: DEFAULT_WINSOR_BITS }),
            r.spec_config().residualize_styles,
    {
        FactorReturnsEstimator::with_config(EstimatorConfig::default())
    }

    /// The estimator with the given configuration.
    pub fn with_config(config: EstimatorConfig) -> (r: FactorReturnsEstimator)
        ensures
            r.spec_config() == config,
    {
        let wls_config = WlsConfig {
            winsor_factor: config.winsor_factor,
            residualize_styles: config.residualize_styles,
        };
        FactorReturnsEstimator { config, wls: WlsFactorEstimator::with_config(wls_config) }
    }

    /// The estimator's configuration.
    pub fn config(&self) -> (r: &EstimatorConfig)
        ensures
            *r == self.spec_config(),
    {
        &self.config
    }

    /// Estimates the factor returns of a single period. Gives the factor
    /// returns, market first, then sectors, then styles, and the residual
    /// returns of the assets.
    pub fn estimate_single(
        &self,
        asset_returns: &Vec<Scalar>,
        mkt_caps: &Vec<Scalar>,
        sector_scores: &Matrix,
        style_scores: &Matrix,
    ) -> (r: Result<(Vec<Scalar>, Vec<Scalar>), ModelError>)
        ensures
            match r {
                Ok(found) => is_single_estimate(
                    Ok(found),
                    self.spec_config().winsor_factor,
                    asset_returns@,
                    mkt_caps@,
                    sector_scores@,
                    sector_scores.spec_ncols(),
                    style_scores@,
                    style_scores.spec_ncols(),
                ),
                Err(e) => e matches ModelError::Estimator(inner) && is_single_estimate(
                    Err(inner),
                    self.spec_config().winsor_factor,
                    asset_returns@,
                    mkt_caps@,
                    sector_scores@,
                    sector_scores.spec_ncols(),
                    style_scores@,
                    style_scores.spec_ncols(),
                ),
            },
    {
        proof {
            use_type_invariant(self);
        }
        match self.wls.estimate_single(asset_returns, mkt_caps, sector_scores, style_scores) {
            Ok(found) => Ok(found),
            Err(e) => Err(ModelError::Estimator(e)),
        }
    }

    /// The factor return records of a date from its factor returns.
    fn commit_factor_returns(
        date: Date,
        sector_names: &Vec<String>,
        style_names: &Vec<String>,
        values: &Vec<Scalar>,
    ) -> (records: Vec<FactorReturnRecord>)
        requires
            values@.len() == 1 + sector_names@.len() + style_names@.len(),
        ensures
            factor_entries(records@) == factor_records(
                date,
                texts(sector_names@),
                texts(style_names@),
                values@,
            ),
    {
        let ghost target = factor_records(date, texts(sector_names@), texts(style_names@), values@);
        let k: usize = sector_names.len();
        let m: usize = style_names.len();
        let total: usize = values.len();
        let mut records: Vec<FactorReturnRecord> = Vec::new();
        records.push(
            FactorReturnRecord {
                date,
                factor: "market".to_string(),
                kind: FactorKind::Market,
                value: values[0],
            },
        );
        let mut i: usize = 0;
        while i < k
            invariant
                k == sector_names@.len(),
                m == style_names@.len(),
                values@.len() == 1 + k + m,
                total == values@.len(),
                target == factor_records(date, texts(sector_names@), texts(style_names@), values@),
                i <= k,
                records@.len() == 1 + i,
                forall|j: int| 0 <= j < 1 + i ==> (#[trigger] records@[j])@ == target[j],
            decreases k - i,
        {
            records.push(
                FactorReturnRecord {
                    date,
                    factor: sector_names[i].clone(),
                    kind: FactorKind::Sector,
                    value: values[1 + i],
                },
            );
            i += 1;
        }
        let mut j: usize = 0;
        while j < m
            invariant
                k == sector_names@.len(),
                m == style_names@.len(),
                values@.len() == 1 + k + m,
                total == values@.len(),
                target == factor_records(date, texts(sector_names@), texts(style_names@), values@),
                j <= m,
                records@.len() == 1 + k + j,
                forall|c: int| 0 <= c < 1 + k + j ==> (#[trigger] records@[c])@ == target[c],
            decreases m - j,
        {
            records.push(
                FactorReturnRecord {
                    date,
                    factor: style_names[j].clone(),
                    kind: FactorKind::Style,
                    value: values[1 + k + j],
                },
            );
            j += 1;
        }
        assert(factor_entries(records@) =~= target);
        records
    }

    /// The residual records of a date from its residuals.
    fn commit_residuals(date: Date, symbols: &Vec<String>, residuals: &Vec<Scalar>) -> (records: Vec<
        ResidualRecord,
    >)
        requires
            symbols@.len() == residuals@.len(),
        ensures
            residual_entries(records@) == residual_records(date, texts(symbols@), residuals@),
    {
        let n: usize = residuals.len();
        let mut records: Vec<ResidualRecord> = Vec::new();
        let mut i: usize = 0;
        while i < n
            invariant
                n == residuals@.len(),
                n == symbols@.len(),
                i <= n,
                records@.len() == i,
                forall|j: int|
                    0 <= j < i ==> (#[trigger] records@[j])@ == (ResidualEntry {
                        date,
                        symbol: symbols@[j]@,
                        value: residuals@[j],
                    }),
            decreases n - i,
        {
            records.push(ResidualRecord { date, symbol: symbols[i].clone(), value: residuals[i] });
            i += 1;
        }
        assert(residual_entries(records@) =~= residual_records(date, texts(symbols@), residuals@));
        records
    }

    /// Reports the configuration that no date can meet: no sector, or an
    /// invalid winsorization percentile.
    fn check_configuration(&self, sectors: usize) -> (r: Result<(), EstimatorError>)
        ensures
            match r {
                Ok(_) => configuration_is_valid(self.spec_config().winsor_factor, sectors as nat),
                Err(e) => !configuration_is_valid(self.spec_config().winsor_factor, sectors as nat)
                    && is_configuration_error(e, self.spec_config().winsor_factor, sectors as nat),
            },
    {
        if sectors == 0 {
            return Err(EstimatorError::InvalidConfig("must have at least one sector".to_string()));
        }
        match self.config.winsor_factor {
            Some(p) => {
                if !(p.gt(Scalar::zero()) && p.lt(Scalar::half())) {
                    return Err(EstimatorError::LinearAlgebra(MathError::InvalidPercentile(p)));
                }
            },
            None => {},
        }
        Ok(())
    }

    /// Processes one date under a configuration that is valid: skips it
    /// where it has no more observations than free parameters or its shape
    /// does not fit the names, estimates it otherwise, and commits its
    /// records where the estimation succeeds.
    fn process_date(
        &self,
        sector_names: &Vec<String>,
        style_names: &Vec<String>,
        section: &CrossSection,
    ) -> (outcome: DateOutcome)
        ensures
            outcome.entries() == date_outcome(
                self.spec_config().winsor_factor,
                texts(sector_names@),
                texts(style_names@),
                section@,
            ),
    {
        proof {
            use_type_invariant(self);
        }
        let n: usize = section.asset_returns.len();
        let k: usize = sector_names.len();
        let m: usize = style_names.len();
        if n <= k || n - k <= m {
            return DateOutcome::Skipped;
        }
        if k == 0 || section.symbols.len() != n || section.sector_scores.ncols() != k
            || section.style_scores.ncols() != m {
            return DateOutcome::Skipped;
        }
        match self.wls.estimate_single(
            &section.asset_returns,
            &section.market_caps,
            &section.sector_scores,
            &section.style_scores,
        ) {
            Ok(found) => {
                let factor_returns = Self::commit_factor_returns(
                    section.date,
                    sector_names,
                    style_names,
                    &found.0,
                );
                let residuals = Self::commit_residuals(section.date, &section.symbols, &found.1);
                DateOutcome::Committed { factor_returns, residuals }
            },
            Err(_) => DateOutcome::Skipped,
        }
    }

    /// Processes one date. Fails at once where the configuration cannot be
    /// met by any date: where no sector is named, and where the
    /// winsorization percentile is invalid. Otherwise skips the date where
    /// it has no more observations than free parameters, where its shape
    /// does not fit the names, and where the regression fails, and commits
    /// its records where the regression succeeds.
    pub fn estimate_date(
        &self,
        sector_names: &Vec<String>,
        style_names: &Vec<String>,
        section: &CrossSection,
    ) -> (r: Result<DateOutcome, EstimatorError>)
        ensures
            match r {
                Ok(outcome) => configuration_is_valid(
                    self.spec_config().winsor_factor,
                    sector_names@.len(),
                ) && outcome.entries() == date_outcome(
                    self.spec_config().winsor_factor,
                    texts(sector_names@),
                    texts(style_names@),
                    section@,
                ),
                Err(e) => !configuration_is_valid(
                    self.spec_config().winsor_factor,
                    sector_names@.len(),
                ) && is_configuration_error(
                    e,
                    self.spec_config().winsor_factor,
                    sector_names@.len(),
                ),
            },
    {
        match self.check_configuration(sector_names.len()) {
            Ok(_) => Ok(self.process_date(sector_names, style_names, section)),
            Err(e) => Err(e),
        }
    }

    /// Processes every date of the panel and gives what each ends in, in the
    /// order of the dates: its records, or the report that it was skipped.
    /// Fails at once where the panel holds no observation, where it names no
    /// sector, and where the winsorization percentile is invalid.
    pub fn estimate_dates(&self, panel: &Panel) -> (r: Result<Vec<DateOutcome>, EstimatorError>)
        ensures
            is_panel_outcomes(
                r,
                self.spec_config().winsor_factor,
                texts(panel.sector_names@),
                texts(panel.style_names@),
                sections(panel.cross_sections@),
            ),
    {
        if !has_observations(&panel.cross_sections) {
            return Err(EstimatorError::InsufficientData { required: 1, actual: 0 });
        }
        match self.check_configuration(panel.sector_names.len()) {
            Ok(_) => {},
            Err(e) => {
                return Err(e);
            },
        }
        let mut outcomes: Vec<DateOutcome> = Vec::new();
        let mut i: usize = 0;
        while i < panel.cross_sections.len()
            invariant
                i <= panel.cross_sections@.len(),
                outcomes@.len() == i,
                forall|k: int|
                    0 <= k < i ==> (#[trigger] outcomes@[k]).entries() == date_outcome(
                        self.spec_config().winsor_factor,
                        texts(panel.sector_names@),
                        texts(panel.style_names@),
                        sections(panel.cross_sections@)[k],
                    ),
            decreases panel.cross_sections@.len() - i,
        {
            let outcome = self.process_date(
                &panel.sector_names,
                &panel.style_names,
                &panel.cross_sections[i],
            );
            assert(sections(panel.cross_sections@)[i as int] == panel.cross_sections@[i as int]@);
            outcomes.push(outcome);
            i += 1;
        }
        Ok(outcomes)
    }
}

impl Default for FactorReturnsEstimator {
    fn default() -> (r: FactorReturnsEstimator)
        ensures
            r.spec_config().winsor_factor == Some(Scalar { bits: DEFAULT_WINSOR_BITS }),
            r.spec_config().residualize_styles,
    {
        FactorReturnsEstimator::new()
    }
}

/// Moves the records of `more` to the end of `all`.
fn append_factor_records(all: &mut Vec<FactorReturnRecord>, more: Vec<FactorReturnRecord>)
    ensures
        factor_entries(final(all)@) == factor_entries(old(all)@) + factor_entries(more@),
{
    let mut more = more;
    let ghost added = more@;
    all.append(&mut more);
    assert(factor_entries(all@) =~= factor_entries(old(all)@) + factor_entries(added));
}

/// Moves the records of `more` to the end of `all`.
fn append_residual_records(all: &mut Vec<ResidualRecord>, more: Vec<ResidualRecord>)
    ensures
        residual_entries(final(all)@) == residual_entries(old(all)@) + residual_entries(more@),
{
    let mut more = more;
    let ghost added = more@;
    all.append(&mut more);
    assert(residual_entries(all@) =~= residual_entries(old(all)@) + residual_entries(added));
}

/// Whether any cross-section holds an observation.
fn has_observations(cross_sections: &Vec<CrossSection>) -> (r: bool)
    ensures
        r == !no_observations(sections(cross_sections@), cross_sections@.len() as int),
{
    let mut i: usize = 0;
    while i < cross_sections.len()
        invariant
            i <= cross_sections@.len(),
            no_observations(sections(cross_sections@), i as int),
        decreases cross_sections@.len() - i,
    {
        if cross_sections[i].asset_returns.len() != 0 {
            assert(sections(cross_sections@)[i as int].asset_returns.len() != 0);
            return true;
        }
        assert(sections(cross_sections@)[i as int].asset_returns.len() == 0);
        i += 1;
    }
    false
}

impl ReturnsEstimator for FactorReturnsEstimator {
    /// Fails at once where the panel holds no observation, where it names no
    /// sector, and where the winsorization percentile is invalid: no date
    /// could be estimated then. Otherwise processes the dates in order; a
    /// date that cannot be estimated is skipped and the estimation goes on.
    fn estimate(&self, panel: &Panel) -> (r: Result<
        (Vec<FactorReturnRecord>, Vec<ResidualRecord>),
        EstimatorError,
    >)
        ensures
            is_panel_estimate(
                r,
                self.spec_config().winsor_factor,
                texts(panel.sector_names@),
                texts(panel.style_names@),
                sections(panel.cross_sections@),
            ),
    {
        if !has_observations(&panel.cross_sections) {
            return Err(EstimatorError::InsufficientData { required: 1, actual: 0 });
        }
        match self.check_configuration(panel.sector_names.len()) {
            Ok(_) => {},
            Err(e) => {
                return Err(e);
            },
        }
        let ghost winsor = self.spec_config().winsor_factor;
        let ghost names = texts(panel.sector_names@);
        let ghost styles = texts(panel.style_names@);
        let ghost dates = sections(panel.cross_sections@);
        let mut factor_returns: Vec<FactorReturnRecord> = Vec::new();
        let mut residuals: Vec<ResidualRecord> = Vec::new();
        let mut i: usize = 0;
        assert(factor_entries(factor_returns@) =~= Seq::empty());
        assert(residual_entries(residuals@) =~= Seq::empty());
        while i < panel.cross_sections.len()
            invariant
                i <= panel.cross_sections@.len(),
                winsor == self.spec_config().winsor_factor,
                names == texts(panel.sector_names@),
                styles == texts(panel.style_names@),
                dates == sections(panel.cross_sections@),
                (factor_entries(factor_returns@), residual_entries(residuals@)) == panel_records(
                    winsor,
                    names,
                    styles,
                    dates,
                    i as int,
                ),
            decreases panel.cross_sections@.len() - i,
        {
            let outcome = self.process_date(
                &panel.sector_names,
                &panel.style_names,
                &panel.cross_sections[i],
            );
            assert(dates[i as int] == panel.cross_sections@[i as int]@);
            match outcome {
                DateOutcome::Committed { factor_returns: found, residuals: left } => {
                    append_factor_records(&mut factor_returns, found);
                    append_residual_records(&mut residuals, left);
                },
                DateOutcome::Skipped => {},
            }
            i += 1;
        }
        Ok((factor_returns, residuals))
    }

    fn winsor_factor(&self) -> (r: Option<Scalar>)
        ensures
            r == self.spec_config().winsor_factor,
    {
        self.config.winsor_factor
    }

    fn residualize_styles(&self) -> (r: bool)
        ensures
            r == self.spec_config().residualize_styles,
    {
        self.config.residualize_styles
    }
}

} // verus!
