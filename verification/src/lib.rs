//! Identity-assignment and position-ingestion core for a geolocated
//! check-in service.
//!
//! The library holds the logic that mints collision-free user identities,
//! validates caller-supplied identities against the set of known users,
//! builds position records for storage, and projects stored positions into
//! query responses. The persistent store and the HTTP transport live
//! outside the library and hand it plain values.

pub mod error;
pub mod geo;
pub mod hex;
pub mod identity;
pub mod position;
pub mod query;
