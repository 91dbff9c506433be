//! Error kinds reported by the admission pipeline.

use vstd::prelude::*;

verus! {

/// Outcome of a failed contribute attempt.
///
/// Only `NotUsersTurn` and `InvalidContribution` are expected during normal
/// ceremony operation; every other kind signals a backend or signing fault.
#[derive(Clone, Copy, PartialEq, Eq, Structural, Debug)]
pub enum ContributeError {
    /// The slot is held by a different session; the pipeline never started.
    NotUsersTurn,
    /// The verification oracle rejected the contribution; the payload carries
    /// the oracle's diagnostic code.
    InvalidContribution(u64),
    /// The durable transcript write failed after the in-memory append.
    TranscriptIOError,
    /// The ledger backend failed while recording the session's status.
    StorageError,
    /// The receipt signer failed after the contribution was committed.
    ReceiptSigning,
    /// The pipeline's unit of work terminated abnormally.
    TaskError,
}

impl ContributeError {
    /// True for the error kinds that indicate a backend or signing fault,
    /// which operators are alerted to; false for the two kinds that are
    /// ordinary outcomes of ceremony operation.
    pub fn is_unexpected(&self) -> (r: bool)
        ensures
            r == !(self is NotUsersTurn || self is InvalidContribution),
    {
        match self {
            ContributeError::NotUsersTurn => false,
            ContributeError::InvalidContribution(_) => false,
            ContributeError::TranscriptIOError => true,
            ContributeError::StorageError => true,
            ContributeError::ReceiptSigning => true,
            ContributeError::TaskError => true,
        }
    }
}

} // verus!
