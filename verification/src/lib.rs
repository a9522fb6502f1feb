//! Top-of-book quotes from several venues, normalised and merged into one view.

pub mod adapter;
pub mod distribution;
pub mod exchange;
pub mod number;
pub mod quote;
pub mod venue_aggregator;
