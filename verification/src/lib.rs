//! Verified core of a modpack downloader: a typed manifest model with a
//! JSON loader, a per-entry mirror-fallback fetch state machine, and an
//! associative, commutative aggregation of per-entry outcomes.

pub mod aggregate;
pub mod fetch;
pub mod loader;
pub mod manifest;
pub mod orchestrate;
pub mod text;
