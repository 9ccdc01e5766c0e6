//! A metadata-lookup client: boolean search expressions over recording
//! metadata, their compilation into a backend's search syntax, and the typed
//! records that a backend answers with.

pub mod metadata;
