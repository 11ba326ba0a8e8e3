//! Request shape of the home page.  The response carries item glances with
//! prices, so it lives with the price type outside the verified library.

use crate::unit::currency::Currency;
use vstd::prelude::*;

verus! {

/// Request for the home page, in the viewer's currency.
#[derive(Debug, Clone, Copy, PartialEq, Eq, Hash)]
pub struct HomePageRequest {
    pub currency: Currency,
}

} // verus!
