//! Market-side types: the market identifier and market data payloads.

use crate::codec::trimmed_len;
use crate::id::catalog_display;
use crate::id::catalog_err_spec;
use crate::id::catalog_ok_spec;
use crate::id::Id;
use crate::id::IdError;
use crate::id::CATALOG_MIN_BYTES;
use crate::item::ItemCoreKeys;
use vstd::prelude::*;

verus! {

/// Display name of a market.
pub type MarketName = String;

/// Identifier of a market: a catalog identifier.
#[derive(Debug, Clone, Copy, PartialEq, Eq, Hash, PartialOrd, Default)]
pub struct MarketId(pub Id);

impl MarketId {
    /// Encode a readable market id, as [`Id::new`] does.
    pub fn new(id: &str) -> (r: Result<Self, IdError>)
        ensures
            match r {
                Ok(mid) => catalog_ok_spec(id@, mid.0@) && mid.0.displayable(),
                Err(e) => catalog_err_spec(id@, e),
            },
    {
        match Id::new(id) {
            Ok(inner) => Ok(MarketId(inner)),
            Err(e) => Err(e),
        }
    }

    /// Render the identifier as its readable lower-case string.
    pub fn to_display_string(&self) -> (r: String)
        requires
            self.0.displayable(),
        ensures
            r@ == catalog_display(self.0@),
    {
        self.0.to_display_string()
    }

    /// The compact binary surface of the identifier.
    pub fn to_bytes(&self) -> (r: Vec<u8>)
        ensures
            r@ == self.0@.take(trimmed_len(self.0@, CATALOG_MIN_BYTES as int)),
    {
        self.0.to_bytes()
    }
}

impl core::str::FromStr for MarketId {
    type Err = IdError;

    /// Parse a market id, as [`MarketId::new`] does.
    fn from_str(s: &str) -> Result<Self, IdError> {
        MarketId::new(s)
    }
}

impl<'a> TryFrom<&'a str> for MarketId {
    type Error = IdError;

    /// Convert a string, as [`MarketId::new`] does.
    fn try_from(value: &'a str) -> Result<Self, IdError> {
        MarketId::new(value)
    }
}

impl<'a> vstd::std_specs::convert::TryFromSpecImpl<&'a str> for MarketId {
    open spec fn obeys_try_from_spec() -> bool {
        false
    }

    open spec fn try_from_spec(value: &'a str) -> Result<Self, IdError> {
        vstd::pervasive::arbitrary()
    }
}

impl TryFrom<String> for MarketId {
    type Error = IdError;

    /// Convert a string, as [`MarketId::new`] does.
    fn try_from(value: String) -> Result<Self, IdError> {
        MarketId::new(value.as_str())
    }
}

impl vstd::std_specs::convert::TryFromSpecImpl<String> for MarketId {
    open spec fn obeys_try_from_spec() -> bool {
        false
    }

    open spec fn try_from_spec(value: String) -> Result<Self, IdError> {
        vstd::pervasive::arbitrary()
    }
}

/// Market data listing the items it offers, by key.
#[derive(Debug, Clone)]
pub struct MarketDataResponse {
    pub name: MarketName,
    pub items: Vec<ItemCoreKeys>,
}

/// Arguments a market canister is installed with.
#[derive(Debug, Clone)]
pub struct MarketInitArg {
    pub id: MarketId,
    pub name: MarketName,
}

} // verus!
