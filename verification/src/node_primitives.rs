//! Node-side primitives: proofs of validity, available data and the
//! outcome of validating a candidate.

use vstd::prelude::*;

use crate::v1::{CandidateCommitments, PersistedValidationData};

verus! {

/// The raw block data of a parachain block.
#[derive(Clone, Debug)]
pub struct BlockData(pub Vec<u8>);

impl View for BlockData {
    type V = Seq<u8>;

    open spec fn view(&self) -> Seq<u8> {
        self.0@
    }
}

/// A proof of validity of a parachain block.
#[derive(Clone, Debug)]
pub struct PoV {
    /// The block witness data.
    pub block_data: BlockData,
}

/// The data that must be kept available for a candidate.
#[derive(Clone, Debug)]
pub struct AvailableData {
    /// The proof of validity.
    pub pov: PoV,
    /// The persisted validation data needed for approval checks.
    pub validation_data: PersistedValidationData,
}

/// Why a candidate is invalid.
#[derive(Clone, Debug)]
pub enum InvalidCandidate {
    /// Validation could not be executed.
    ExecutionError(String),
    /// Validation outputs check did not pass.
    InvalidOutputs,
    /// Validation took too long.
    Timeout,
    /// The parameters were too large (their size is given).
    ParamsTooLarge(u64),
    /// The code was too large (its size is given).
    CodeTooLarge(u64),
    /// Validation returned something that could not be decoded.
    BadReturn,
    /// The invalid parent head was given.
    BadParent,
    /// The proof of validity does not match its hash in the descriptor.
    PoVHashMismatch,
    /// The collator's signature is bad.
    BadSignature,
    /// The produced head does not match its hash in the descriptor.
    ParaHeadHashMismatch,
    /// The validation code does not match its hash in the descriptor.
    CodeHashMismatch,
}

/// The outcome of validating a candidate.
#[derive(Clone, Debug)]
pub enum ValidationResult {
    /// The candidate is valid, with the given commitments and the
    /// persisted validation data it was checked against.
    Valid(CandidateCommitments, PersistedValidationData),
    /// The candidate is invalid.
    Invalid(InvalidCandidate),
}

} // verus!
