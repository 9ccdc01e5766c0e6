//! The MusicBrainz backend.

pub mod client;
pub mod entities;
pub mod error;

pub use client::Client;
pub use error::LookupError;
