//! A verified ledger for uniquely identified collectible land records.
//!
//! Token identifiers are derived deterministically from human-readable
//! seed names, every owner's holdings are tracked in a reverse index that
//! stays consistent with the primary token store, storage growth of each
//! mutation is metered against the attached deposit, and issuance is gated
//! behind capacity- and time-windowed sale areas.

pub mod areas;
pub mod contract;
pub mod errors;
pub mod ids;
pub mod index;
pub mod metadata;
pub mod meter;
pub mod store;
