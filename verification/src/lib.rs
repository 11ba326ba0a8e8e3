//! Shared value types for a marketplace built on bounded persistent stores.
//!
//! The heart of the crate is a pair of compact identifier codecs: a
//! case-preserving, case-insensitively compared actor identifier and a
//! case-folded catalog identifier, both packed from readable strings into
//! small fixed-size byte buffers.

pub mod actor;
pub mod codec;
pub mod id;
pub mod item;
pub mod market;
pub mod media;
pub mod route;
pub mod store;
pub mod unit;
pub mod util;
