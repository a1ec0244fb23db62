//! Reconstruction of token ownership from a stream of state changes.
//!
//! The derivers turn decoded state changes into ownership events and, beside
//! each, a candidate for the table of current ownerships; the merger reduces
//! the candidates of one batch to one record for each identity; the export
//! forms flatten events and records for the row and the columnar sink.
//! Every function states what it returns over the texts and numbers of its
//! arguments, and is proved to return it.

pub mod text;
pub mod address;
pub mod decimal;
pub mod model;
pub mod context;
pub mod deriver;
pub mod burn;
pub mod lookup;
pub mod identity;
pub mod merge;
pub mod merge_order;
pub mod export;
pub mod config;
