//! Metadata lookup.

pub mod providers;
