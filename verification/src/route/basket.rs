//! Errors of the basket page.  The item rows themselves carry prices, so
//! they live with the price type outside the verified library.

use vstd::prelude::*;

verus! {

/// Why one basket row cannot be served.
#[derive(Debug, Clone, PartialEq, Eq)]
pub enum BasketItemError {
    ItemNotFound,
    ItemOutOfStock,
    QuantityNotEnough,
    MarketNotFound,
    StoreNotFound,
}

/// Why the basket page cannot be served at all.
#[derive(Debug, Clone, PartialEq, Eq)]
pub enum UserBasketPageError {
    ActorNotFound,
    ActorIsNotUser,
}

} // verus!
