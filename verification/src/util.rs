//! Small shared utilities: text whitespace handling and network selection.

pub mod network;
pub mod string;
