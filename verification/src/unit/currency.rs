//! Currencies prices can be quoted in.

use vstd::prelude::*;

verus! {

/// A currency.
#[derive(Debug, Clone, Copy, PartialEq, Eq, PartialOrd, Ord, Hash)]
pub enum Currency {
    USD,
    CNY,
    JPY,
    EUR,
    GBP,
    BTC,
    ETH,
    ICP,
    USDT,
    USDC,
    FLOS,
}

/// The ticker text of a currency.
pub open spec fn currency_text(c: Currency) -> Seq<char> {
    match c {
        Currency::USD => "USD"@,
        Currency::CNY => "CNY"@,
        Currency::JPY => "JPY"@,
        Currency::EUR => "EUR"@,
        Currency::GBP => "GBP"@,
        Currency::BTC => "BTC"@,
        Currency::ETH => "ETH"@,
        Currency::ICP => "ICP"@,
        Currency::USDT => "USDT"@,
        Currency::USDC => "USDC"@,
        Currency::FLOS => "FLOS"@,
    }
}

impl Currency {
    /// Render the ticker.
    pub fn to_display_string(&self) -> (r: String)
        ensures
            r@ == currency_text(*self),
    {
        match self {
            Currency::USD => String::from_str("USD"),
            Currency::CNY => String::from_str("CNY"),
            Currency::JPY => String::from_str("JPY"),
            Currency::EUR => String::from_str("EUR"),
            Currency::GBP => String::from_str("GBP"),
            Currency::BTC => String::from_str("BTC"),
            Currency::ETH => String::from_str("ETH"),
            Currency::ICP => String::from_str("ICP"),
            Currency::USDT => String::from_str("USDT"),
            Currency::USDC => String::from_str("USDC"),
            Currency::FLOS => String::from_str("FLOS"),
        }
    }
}

} // verus!
