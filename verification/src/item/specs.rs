//! Specification sheet data shown on an item page.

use vstd::prelude::*;

verus! {

/// Values of one specification label.
pub type SpecValue = Vec<String>;

/// The whole specification sheet: its categories in order.
pub type SpecResponse = Vec<SpecResponseCategory>;

/// One category of the specification sheet.
#[derive(Debug, Clone, PartialEq, Eq, Hash)]
pub struct SpecResponseCategory {
    pub category_name: String,
    pub label_vec: Vec<SpecResponseLabel>,
}

/// One label of a category with its values.
#[derive(Debug, Clone, PartialEq, Eq, Hash)]
pub struct SpecResponseLabel {
    pub label_name: String,
    pub value: SpecValue,
}

} // verus!
