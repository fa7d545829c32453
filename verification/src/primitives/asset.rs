//! Assets and their identifiers.

use vstd::prelude::*;
use vstd::std_specs::convert::FromSpecImpl;

verus! {

/// Unique identifier of an asset.
#[derive(Debug, Clone, Copy, PartialEq, Eq, Hash, Structural)]
pub struct AssetId(pub u64);

impl AssetId {
    /// The identifier with the given number.
    pub fn new(id: u64) -> (r: AssetId)
        ensures
            r.0 == id,
    {
        AssetId(id)
    }
}

impl From<u64> for AssetId {
    fn from(id: u64) -> (r: AssetId) {
        AssetId(id)
    }
}

impl FromSpecImpl<u64> for AssetId {
    open spec fn obeys_from_spec() -> bool {
        true
    }

    open spec fn from_spec(id: u64) -> AssetId {
        AssetId(id)
    }
}

/// Ticker symbol of a stock.
#[derive(Debug, Clone, PartialEq, Eq, Hash)]
pub struct Symbol(pub String);

impl Symbol {
    /// The symbol spelled `s`.
    pub fn new(s: &str) -> (r: Symbol)
        ensures
            r.0@ == s@,
    {
        Symbol(s.to_string())
    }

    /// The symbol's spelling.
    pub fn as_str(&self) -> (r: &str)
        ensures
            r@ == self.0@,
    {
        self.0.as_str()
    }

    /// The symbol's spelling, as an owned string.
    pub fn to_string(&self) -> (r: String)
        ensures
            r@ == self.0@,
    {
        self.0.clone()
    }
}

impl<'a> From<&'a str> for Symbol {
    fn from(s: &'a str) -> (r: Symbol)
        ensures
            r.0@ == s@,
    {
        Symbol(s.to_string())
    }
}

impl<'a> FromSpecImpl<&'a str> for Symbol {
    open spec fn obeys_from_spec() -> bool {
        false
    }

    open spec fn from_spec(s: &'a str) -> Symbol {
        arbitrary()
    }
}

impl From<String> for Symbol {
    fn from(s: String) -> (r: Symbol) {
        Symbol(s)
    }
}

impl FromSpecImpl<String> for Symbol {
    open spec fn obeys_from_spec() -> bool {
        true
    }

    open spec fn from_spec(s: String) -> Symbol {
        Symbol(s)
    }
}

/// An asset with its metadata.
#[derive(Debug, Clone, PartialEq)]
pub struct Asset {
    /// Unique identifier.
    pub id: AssetId,
    /// Ticker symbol.
    pub symbol: Symbol,
    /// Sector classification, where known.
    pub sector: Option<String>,
}

impl Asset {
    /// The asset with the given identifier, symbol and sector.
    pub fn new(id: AssetId, symbol: Symbol, sector: Option<String>) -> (r: Asset)
        ensures
            r.id == id,
            r.symbol == symbol,
            r.sector == sector,
    {
        Asset { id, symbol, sector }
    }

    /// The asset with the given identifier and symbol, and no sector.
    pub fn simple(id: AssetId, symbol: Symbol) -> (r: Asset)
        ensures
            r.id == id,
            r.symbol == symbol,
            r.sector is None,
    {
        Asset { id, symbol, sector: None }
    }
}

} // verus!
