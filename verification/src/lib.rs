//! A verified summarization and level-of-detail core for tabular data files.
//!
//! The library normalizes delimited-text, spreadsheet and binary-matrix
//! sources into one row model, resolves column names under a header policy,
//! builds bounded previews, and prepares the numeric axis pairs that a
//! level-of-detail binning pass aggregates.

pub mod adapters;
pub mod errors;
pub mod headers;
pub mod laws;
pub mod lod;
pub mod preview;
pub mod summary;
pub mod text;
