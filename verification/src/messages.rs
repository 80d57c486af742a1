//! The messages a candidate-validation subsystem receives and the requests
//! it sends to availability recovery.
//!
//! A message carries the handle on which its answer is sent as a value of
//! the type parameter `S`; messages that are not requests (signals) carry
//! a value of the type parameter `O`. The logic moves both along unopened.

use vstd::prelude::*;

use crate::node_primitives::{AvailableData, PoV};
use crate::v1::{CandidateDescriptor, CandidateReceipt, PersistedValidationData, ValidationCode};

verus! {

/// Validation could not be carried out; the reason is given.
#[derive(Clone, Debug)]
pub struct ValidationFailed(pub String);

/// A request to validate a candidate.
#[derive(Debug)]
pub enum CandidateValidationMessage<S> {
    /// Validate a candidate, fetching the validation data and code from the
    /// relay-chain state. The answer goes to the handle.
    ValidateFromChainState(CandidateDescriptor, PoV, S),
    /// Validate a candidate against the given validation data and code.
    /// The answer goes to the handle.
    ValidateFromExhaustive(PersistedValidationData, ValidationCode, CandidateDescriptor, PoV, S),
}

/// What a subsystem receives from the overseer.
#[derive(Debug)]
pub enum FromOverseer<S, O> {
    /// A signal (such as a change of active leaves or a conclusion).
    Signal(O),
    /// A request addressed to the subsystem.
    Communication {
        /// The request.
        msg: CandidateValidationMessage<S>,
    },
}

/// The index of a validator group.
#[derive(Clone, Copy, Debug, PartialEq, Eq, Structural)]
pub struct GroupIndex(pub u32);

/// A request to recover the available data of a candidate.
#[derive(Clone, Copy, Debug)]
pub struct RecoverAvailableData {
    /// The receipt of the candidate.
    pub receipt: CandidateReceipt,
    /// The session the candidate belongs to.
    pub session_index: u32,
    /// The group that backed the candidate, if known.
    pub backing_group: Option<GroupIndex>,
}

/// Why availability recovery failed.
#[derive(Clone, Copy, Debug, PartialEq, Eq, Structural)]
pub enum RecoveryError {
    /// The recovered data did not match the erasure root.
    Invalid,
    /// Not enough chunks could be fetched.
    Unavailable,
}

/// The answer to a request never came: its handle was dropped.
#[derive(Clone, Copy, Debug, PartialEq, Eq, Structural)]
pub struct Canceled;

/// What came back from a request to recover available data.
pub type RecoveryResponse = Result<Result<AvailableData, RecoveryError>, Canceled>;

} // verus!
