//! Item identifier: a catalog identifier naming one item.

use crate::codec::trimmed_len;
use crate::id::catalog_display;
use crate::id::catalog_err_spec;
use crate::id::catalog_ok_spec;
use crate::id::Id;
use crate::id::IdError;
use crate::id::CATALOG_MIN_BYTES;
use vstd::prelude::*;

verus! {

/// Identifier of an item: a catalog identifier.
#[derive(Debug, Clone, Copy, PartialEq, Eq, Hash, PartialOrd, Default)]
pub struct ItemId(pub Id);

impl ItemId {
    /// Encode a readable item id, as [`Id::new`] does.
    pub fn new(id: &str) -> (r: Result<Self, IdError>)
        ensures
            match r {
                Ok(iid) => catalog_ok_spec(id@, iid.0@) && iid.0.displayable(),
                Err(e) => catalog_err_spec(id@, e),
            },
    {
        match Id::new(id) {
            Ok(inner) => Ok(ItemId(inner)),
            Err(e) => Err(e),
        }
    }

    /// Render the identifier as its readable lower-case string.
    pub fn to_display_string(&self) -> (r: String)
        requires
            self.0.displayable(),
        ensures
            r@ == catalog_display(self.0@),
    {
        self.0.to_display_string()
    }

    /// The compact binary surface of the identifier.
    pub fn to_bytes(&self) -> (r: Vec<u8>)
        ensures
            r@ == self.0@.take(trimmed_len(self.0@, CATALOG_MIN_BYTES as int)),
    {
        self.0.to_bytes()
    }
}

impl core::str::FromStr for ItemId {
    type Err = IdError;

    /// Parse an item id, as [`ItemId::new`] does.
    fn from_str(s: &str) -> Result<Self, IdError> {
        ItemId::new(s)
    }
}

impl<'a> TryFrom<&'a str> for ItemId {
    type Error = IdError;

    /// Convert a string, as [`ItemId::new`] does.
    fn try_from(value: &'a str) -> Result<Self, IdError> {
        ItemId::new(value)
    }
}

impl<'a> vstd::std_specs::convert::TryFromSpecImpl<&'a str> for ItemId {
    open spec fn obeys_try_from_spec() -> bool {
        false
    }

    open spec fn try_from_spec(value: &'a str) -> Result<Self, IdError> {
        vstd::pervasive::arbitrary()
    }
}

impl TryFrom<String> for ItemId {
    type Error = IdError;

    /// Convert a string, as [`ItemId::new`] does.
    fn try_from(value: String) -> Result<Self, IdError> {
        ItemId::new(value.as_str())
    }
}

impl vstd::std_specs::convert::TryFromSpecImpl<String> for ItemId {
    open spec fn obeys_try_from_spec() -> bool {
        false
    }

    open spec fn try_from_spec(value: String) -> Result<Self, IdError> {
        vstd::pervasive::arbitrary()
    }
}

} // verus!
