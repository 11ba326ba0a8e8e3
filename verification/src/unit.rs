//! Units of value.  The currency lives here; price arithmetic works on
//! floating-point numbers and lives outside the verified library.

pub mod currency;

pub use currency::Currency;
