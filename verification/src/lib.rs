//! Sequencer core for a multi-party trusted-setup ceremony.
//!
//! Participants take turns contributing randomness to a shared, append-only
//! transcript. Each contribution is checked by an external verification
//! oracle before being folded into the canonical transcript, and each
//! successful contributor receives a signed receipt. This crate holds the
//! contribution admission pipeline: the slot exclusivity mechanism, the
//! verify / commit / persist / sign sequence, and the failure bookkeeping
//! around it.

pub mod errors;
pub mod laws;
pub mod ledger;
pub mod lobby;
pub mod pipeline;
pub mod receipt;
pub mod transcript;

pub use errors::ContributeError;
