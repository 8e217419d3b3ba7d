//! Materializes fetched database rows into a JSON-friendly result: a column
//! list, a row-major matrix of generic values, a row count and the elapsed
//! execution time.
//!
//! The driver decodes each cell; this library decides which decoder a column's
//! type tag calls for, turns what the decoder produced into a generic value,
//! and assembles the result.

pub mod ai;
pub mod convert;
pub mod driver;
pub mod query;
pub mod text;
pub mod value;
