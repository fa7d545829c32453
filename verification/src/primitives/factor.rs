//! Factor names, returns and exposures.

use crate::primitives::date::Date;
use crate::scalar::Scalar;
use vstd::prelude::*;
use vstd::std_specs::convert::FromSpecImpl;

verus! {

/// Name of a factor.
#[derive(Debug, Clone, PartialEq, Eq, Hash)]
pub struct FactorName(pub String);

impl FactorName {
    /// The factor name spelled `s`.
    pub fn new(s: &str) -> (r: FactorName)
        ensures
            r.0@ == s@,
    {
        FactorName(s.to_string())
    }

    /// The name's spelling.
    pub fn as_str(&self) -> (r: &str)
        ensures
            r@ == self.0@,
    {
        self.0.as_str()
    }
}

impl<'a> From<&'a str> for FactorName {
    fn from(s: &'a str) -> (r: FactorName)
        ensures
            r.0@ == s@,
    {
        FactorName(s.to_string())
    }
}

impl<'a> FromSpecImpl<&'a str> for FactorName {
    open spec fn obeys_from_spec() -> bool {
        false
    }

    open spec fn from_spec(s: &'a str) -> FactorName {
        arbitrary()
    }
}

impl From<String> for FactorName {
    fn from(s: String) -> (r: FactorName) {
        FactorName(s)
    }
}

impl FromSpecImpl<String> for FactorName {
    open spec fn obeys_from_spec() -> bool {
        true
    }

    open spec fn from_spec(s: String) -> FactorName {
        FactorName(s)
    }
}

/// Whether `found` is the return listed under `name` in `pairs`: that of
/// the first pair with that name, and nothing where there is none.
pub open spec fn is_named_return(pairs: Seq<(String, Scalar)>, name: Seq<char>, found: Option<
    Scalar,
>) -> bool {
    match found {
        Some(x) => exists|i: int|
            0 <= i < pairs.len() && pairs[i].0@ == name && pairs[i].1 == x && forall|j: int|
                0 <= j < i ==> (#[trigger] pairs[j]).0@ != name,
        None => forall|j: int| 0 <= j < pairs.len() ==> (#[trigger] pairs[j]).0@ != name,
    }
}

/// Looks up the return listed under `name`.
fn named_return(pairs: &Vec<(String, Scalar)>, name: &String) -> (found: Option<Scalar>)
    ensures
        is_named_return(pairs@, name@, found),
{
    let mut i: usize = 0;
    while i < pairs.len()
        invariant
            i <= pairs@.len(),
            forall|j: int| 0 <= j < i ==> (#[trigger] pairs@[j]).0@ != name@,
        decreases pairs@.len() - i,
    {
        if pairs[i].0 == *name {
            return Some(pairs[i].1);
        }
        i += 1;
    }
    None
}

/// The returns of the factors on one date.
#[derive(Debug, Clone)]
pub struct FactorReturns {
    /// The date.
    pub date: Date,
    /// The return of the market factor.
    pub market: Scalar,
    /// The returns of the sectors, each with its name.
    pub sectors: Vec<(String, Scalar)>,
    /// The returns of the styles, each with its name.
    pub styles: Vec<(String, Scalar)>,
}

impl FactorReturns {
    /// The returns of the factors on the given date.
    pub fn new(
        date: Date,
        market: Scalar,
        sectors: Vec<(String, Scalar)>,
        styles: Vec<(String, Scalar)>,
    ) -> (r: FactorReturns)
        ensures
            r.date == date,
            r.market == market,
            r.sectors == sectors,
            r.styles == styles,
    {
        FactorReturns { date, market, sectors, styles }
    }

    /// The return of the factor with the given name: the market's under
    /// `market`, else that of the first sector with that name, else that of
    /// the first style with it.
    pub fn get(&self, name: &str) -> (found: Option<Scalar>)
        ensures
            if name@ == "market"@ {
                found == Some(self.market)
            } else if is_named_return(self.sectors@, name@, None) {
                is_named_return(self.styles@, name@, found)
            } else {
                found is Some && is_named_return(self.sectors@, name@, found)
            },
    {
        let wanted: String = name.to_string();
        let market: String = "market".to_string();
        if wanted == market {
            return Some(self.market);
        }
        match named_return(&self.sectors, &wanted) {
            Some(x) => Some(x),
            None => named_return(&self.styles, &wanted),
        }
    }

    /// The names of all factors: `market`, then the sectors, then the styles.
    pub fn factor_names(&self) -> (names: Vec<String>)
        ensures
            names@.len() == 1 + self.sectors@.len() + self.styles@.len(),
            names@[0]@ == "market"@,
            forall|i: int| 0 <= i < self.sectors@.len() ==> (#[trigger] names@[1 + i])@ == self.sectors@[i].0@,
            forall|i: int|
                0 <= i < self.styles@.len() ==> (#[trigger] names@[1 + self.sectors@.len() + i])@
                    == self.styles@[i].0@,
    {
        let mut names: Vec<String> = Vec::new();
        names.push("market".to_string());
        let mut i: usize = 0;
        while i < self.sectors.len()
            invariant
                i <= self.sectors@.len(),
                names@.len() == 1 + i,
                names@[0]@ == "market"@,
                forall|k: int| 0 <= k < i ==> (#[trigger] names@[1 + k])@ == self.sectors@[k].0@,
            decreases self.sectors@.len() - i,
        {
            names.push(self.sectors[i].0.clone());
            i += 1;
        }
        let mut j: usize = 0;
        while j < self.styles.len()
            invariant
                i == self.sectors@.len(),
                j <= self.styles@.len(),
                names@.len() == 1 + i + j,
                names@[0]@ == "market"@,
                forall|k: int| 0 <= k < i ==> (#[trigger] names@[1 + k])@ == self.sectors@[k].0@,
                forall|k: int| 0 <= k < j ==> (#[trigger] names@[1 + i + k])@ == self.styles@[k].0@,
            decreases self.styles@.len() - j,
        {
            names.push(self.styles[j].0.clone());
            j += 1;
        }
        names
    }

    /// The number of factors.
    pub fn n_factors(&self) -> (n: usize)
        requires
            1 + self.sectors@.len() + self.styles@.len() <= usize::MAX,
        ensures
            n == 1 + self.sectors@.len() + self.styles@.len(),
    {
        1 + self.sectors.len() + self.styles.len()
    }
}

/// The exposures of an asset to the factors.
#[derive(Debug, Clone)]
pub struct FactorExposures {
    /// The exposure to the market.
    pub market: Scalar,
    /// The exposures to the sectors.
    pub sectors: Vec<Scalar>,
    /// The exposures to the styles.
    pub styles: Vec<Scalar>,
}

impl FactorExposures {
    /// The exposures of an asset.
    pub fn new(market: Scalar, sectors: Vec<Scalar>, styles: Vec<Scalar>) -> (r: FactorExposures)
        ensures
            r.market == market,
            r.sectors == sectors,
            r.styles == styles,
    {
        FactorExposures { market, sectors, styles }
    }

    /// The number of exposures.
    pub fn n_exposures(&self) -> (n: usize)
        requires
            1 + self.sectors@.len() + self.styles@.len() <= usize::MAX,
        ensures
            n == 1 + self.sectors@.len() + self.styles@.len(),
    {
        1 + self.sectors.len() + self.styles.len()
    }
}

} // verus!
