//! A verified in-memory core for a durable inventory record store.
//!
//! The store tracks named products with a category and an on-hand quantity,
//! keyed by unique, strictly increasing 64-bit identifiers. The modules here
//! hold the allocator, the record repository, and the validation and
//! stock-adjustment protocol, each with a full functional contract. Durable
//! persistence and the call-dispatch layer are collaborators that live
//! outside this crate and drive it through plain values.

pub mod errors;
pub mod product;
pub mod store;
pub mod text;
pub mod validation;
