//! Consistency verification for a validator's secure-store contents against
//! the ledger state recomputed from a genesis transaction.
//!
//! - [`digits`]: decimal and hexadecimal digit sequences, with exact
//!   rendering contracts.
//! - [`waypoint`]: the checkpoint value and its canonical `version:hash`
//!   string, parsed and rendered with a proved round trip.
//! - [`model`]: the data the verification works on — account identifiers,
//!   validator registration records, the store snapshot — and the
//!   validator-set lookup.
//! - [`report`]: the fixed-layout text report.
//! - [`verify`]: the comparison of recomputed against stored values, the
//!   two-tier error rules, and the report assembly.

pub mod digits;
pub mod model;
pub mod report;
pub mod verify;
pub mod waypoint;
