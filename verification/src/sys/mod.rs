//! Platform layers.
pub mod merlionos;
