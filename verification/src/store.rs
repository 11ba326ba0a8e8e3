//! Store-side types: the store identifier and the store display name.

use crate::codec::trimmed_len;
use crate::id::catalog_display;
use crate::id::catalog_err_spec;
use crate::id::catalog_ok_spec;
use crate::id::Id;
use crate::id::IdError;
use crate::id::CATALOG_MIN_BYTES;
use vstd::prelude::*;

verus! {

/// Longest store name accepted, in characters.
pub const STORE_NAME_MAX_CHARS: usize = 50;

/// Identifier of a store: a catalog identifier.
#[derive(Debug, Clone, Copy, PartialEq, Eq, Hash, PartialOrd, Default)]
pub struct StoreId(pub Id);

impl StoreId {
    /// Encode a readable store id, as [`Id::new`] does.
    pub fn new(id: &str) -> (r: Result<Self, IdError>)
        ensures
            match r {
                Ok(sid) => catalog_ok_spec(id@, sid.0@) && sid.0.displayable(),
                Err(e) => catalog_err_spec(id@, e),
            },
    {
        match Id::new(id) {
            Ok(inner) => Ok(StoreId(inner)),
            Err(e) => Err(e),
        }
    }

    /// Render the identifier as its readable lower-case string.
    pub fn to_display_string(&self) -> (r: String)
        requires
            self.0.displayable(),
        ensures
            r@ == catalog_display(self.0@),
    {
        self.0.to_display_string()
    }

    /// The compact binary surface of the identifier.
    pub fn to_bytes(&self) -> (r: Vec<u8>)
        ensures
            r@ == self.0@.take(trimmed_len(self.0@, CATALOG_MIN_BYTES as int)),
    {
        self.0.to_bytes()
    }
}

impl core::str::FromStr for StoreId {
    type Err = IdError;

    /// Parse a store id, as [`StoreId::new`] does.
    fn from_str(s: &str) -> Result<Self, IdError> {
        StoreId::new(s)
    }
}

impl<'a> TryFrom<&'a str> for StoreId {
    type Error = IdError;

    /// Convert a string, as [`StoreId::new`] does.
    fn try_from(value: &'a str) -> Result<Self, IdError> {
        StoreId::new(value)
    }
}

impl<'a> vstd::std_specs::convert::TryFromSpecImpl<&'a str> for StoreId {
    open spec fn obeys_try_from_spec() -> bool {
        false
    }

    open spec fn try_from_spec(value: &'a str) -> Result<Self, IdError> {
        vstd::pervasive::arbitrary()
    }
}

impl TryFrom<String> for StoreId {
    type Error = IdError;

    /// Convert a string, as [`StoreId::new`] does.
    fn try_from(value: String) -> Result<Self, IdError> {
        StoreId::new(value.as_str())
    }
}

impl vstd::std_specs::convert::TryFromSpecImpl<String> for StoreId {
    open spec fn obeys_try_from_spec() -> bool {
        false
    }

    open spec fn try_from_spec(value: String) -> Result<Self, IdError> {
        vstd::pervasive::arbitrary()
    }
}

/// Display name of a store, at most 50 characters long.
#[derive(Debug, Clone, Eq, Hash)]
pub struct StoreName {
    name: String,
}

/// Error reported while building a [`StoreName`].
#[derive(Debug, Clone, PartialEq, Eq)]
pub enum StoreNameError {
    TooLong,
}

impl View for StoreName {
    type V = Seq<char>;

    closed spec fn view(&self) -> Seq<char> {
        self.name@
    }
}

impl StoreName {
    /// Accept a name of at most 50 characters.
    pub fn new(name: &str) -> (r: Result<Self, StoreNameError>)
        ensures
            match r {
                Ok(n) => name@.len() <= STORE_NAME_MAX_CHARS && n@ == name@,
                Err(e) => e == StoreNameError::TooLong && name@.len() > STORE_NAME_MAX_CHARS,
            },
    {
        Self::from_str_core(name)
    }

    /// Accept a name of at most 50 characters.
    pub fn from_str_core(s: &str) -> (r: Result<Self, StoreNameError>)
        ensures
            match r {
                Ok(n) => s@.len() <= STORE_NAME_MAX_CHARS && n@ == s@,
                Err(e) => e == StoreNameError::TooLong && s@.len() > STORE_NAME_MAX_CHARS,
            },
    {
        if s.unicode_len() > STORE_NAME_MAX_CHARS {
            return Err(StoreNameError::TooLong);
        }
        Ok(StoreName { name: s.to_owned() })
    }

    /// The name as a string slice.
    pub fn as_str(&self) -> (r: &str)
        ensures
            r@ == self@,
    {
        self.name.as_str()
    }

    /// The UTF-8 bytes of the name: its stored form.
    pub fn to_bytes(&self) -> (r: Vec<u8>)
        ensures
            r@ == vstd::utf8::encode_utf8(self@),
    {
        self.name.as_str().as_bytes_vec()
    }
}

impl PartialEq for StoreName {
    /// Names are equal when their characters are equal.
    fn eq(&self, other: &Self) -> (r: bool) {
        self.name.eq(&other.name)
    }
}

impl vstd::std_specs::cmp::PartialEqSpecImpl for StoreName {
    open spec fn obeys_eq_spec() -> bool {
        true
    }

    open spec fn eq_spec(&self, other: &Self) -> bool {
        self@ == other@
    }
}

impl Default for StoreName {
    /// The empty name.
    fn default() -> (r: Self)
        ensures
            r@ == Seq::<char>::empty(),
    {
        StoreName { name: String::new() }
    }
}

impl core::str::FromStr for StoreName {
    type Err = StoreNameError;

    /// Parse a name, as [`StoreName::new`] does.
    fn from_str(s: &str) -> Result<Self, StoreNameError> {
        Self::from_str_core(s)
    }
}

impl<'a> TryFrom<&'a str> for StoreName {
    type Error = StoreNameError;

    /// Convert a string, as [`StoreName::new`] does.
    fn try_from(value: &'a str) -> Result<Self, StoreNameError> {
        Self::from_str_core(value)
    }
}

impl<'a> vstd::std_specs::convert::TryFromSpecImpl<&'a str> for StoreName {
    open spec fn obeys_try_from_spec() -> bool {
        false
    }

    open spec fn try_from_spec(value: &'a str) -> Result<Self, StoreNameError> {
        vstd::pervasive::arbitrary()
    }
}

impl TryFrom<String> for StoreName {
    type Error = StoreNameError;

    /// Convert a string, as [`StoreName::new`] does.
    fn try_from(value: String) -> Result<Self, StoreNameError> {
        Self::from_str_core(value.as_str())
    }
}

impl vstd::std_specs::convert::TryFromSpecImpl<String> for StoreName {
    open spec fn obeys_try_from_spec() -> bool {
        false
    }

    open spec fn try_from_spec(value: String) -> Result<Self, StoreNameError> {
        vstd::pervasive::arbitrary()
    }
}

/// Arguments a store canister is installed with.
#[derive(Debug, Clone)]
pub struct StoreInitArg {
    pub id: StoreId,
    pub name: StoreName,
}

} // verus!
