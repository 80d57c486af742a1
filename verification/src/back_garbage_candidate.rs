//! A node that backs garbage: every candidate whose proof of validity is the
//! marker [`malicious_pov`] is declared valid without being checked.
//!
//! The candidate-validation subsystem is wrapped by an interceptor.
//! [`BribedPassage::intercept_incoming`] decides, for each message the
//! subsystem would receive, whether it is passed on, answered at once, or
//! answered after the candidate's available data has been recovered; the
//! caller performs what was decided (sending, spawning, recovering) and
//! hands the recovered data to [`RecoveryTask::finish`].

use vstd::prelude::*;

use crate::messages::{
    CandidateValidationMessage, FromOverseer, RecoverAvailableData, RecoveryResponse,
    ValidationFailed,
};
use crate::node_primitives::{PoV, ValidationResult};
use crate::receipt_cache::ReceiptCache;
use crate::v1::{
    CandidateCommitments, CandidateDescriptor, CandidateReceipt, HeadData,
    PersistedValidationData, ValidationCode,
};

verus! {

/// The marker a proof of validity must be, byte for byte, for its candidate
/// to be let through: the UTF-8 encoding of two "smiling face with horns"
/// emoji, `pov_looks_valid_to_me`, and two more of the emoji.
pub open spec fn malicious_pov() -> Seq<u8> {
    seq![
        240u8, 159, 152, 136, 240, 159, 152, 136, 112, 111, 118, 95, 108, 111, 111, 107, 115, 95,
        118, 97, 108, 105, 100, 95, 116, 111, 95, 109, 101, 240, 159, 152, 136, 240, 159, 152, 136,
    ]
}

/// The marker of [`malicious_pov`], as bytes.
pub fn malicious_pov_bytes() -> (marker: Vec<u8>)
    ensures
        marker@ == malicious_pov(),
{
    let marker: Vec<u8> = vec![
        240u8, 159, 152, 136, 240, 159, 152, 136, 112, 111, 118, 95, 108, 111, 111, 107, 115, 95,
        118, 97, 108, 105, 100, 95, 116, 111, 95, 109, 101, 240, 159, 152, 136, 240, 159, 152, 136,
    ];
    assert(marker@ =~= malicious_pov());
    marker
}

/// Whether the proof of validity is the marker.
pub fn is_malicious_pov(pov: &PoV) -> (malicious: bool)
    ensures
        malicious == (pov.block_data@ == malicious_pov()),
{
    let marker = malicious_pov_bytes();
    let data = &pov.block_data.0;
    if data.len() != marker.len() {
        return false;
    }
    let mut i: usize = 0;
    while i < data.len()
        invariant
            i <= data@.len(),
            data@.len() == marker@.len(),
            marker@ == malicious_pov(),
            data@ == pov.block_data@,
            forall|j: int| 0 <= j < i ==> data@[j] == marker@[j],
        decreases data@.len() - i,
    {
        if data[i] != marker[i] {
            assert(data@[i as int] != malicious_pov()[i as int]);
            return false;
        }
        i = i + 1;
    }
    assert(data@ =~= marker@);
    true
}

/// `reply` declares the candidate valid with commitments that carry the
/// parent head of `pvd` as the produced head and `code` as the new
/// validation code, and nothing else; `pvd` itself is handed back as the
/// data the candidate was checked against.
pub open spec fn lets_pass(
    reply: Result<ValidationResult, ValidationFailed>,
    pvd: PersistedValidationData,
    code: Option<ValidationCode>,
) -> bool {
    match reply {
        Ok(ValidationResult::Valid(commitments, checked_against)) => {
            &&& checked_against == pvd
            &&& commitments.only_carries(pvd.parent_head@, code)
        },
        _ => false,
    }
}

/// The answer that lets a candidate pass: it is valid, its commitments
/// repeat the parent head as the new head and carry the given validation
/// code, and the persisted validation data is handed back unchanged. The
/// candidate's descriptor and proof of validity are not looked at.
pub fn let_pass(
    persisted_validation_data: PersistedValidationData,
    validation_code: Option<ValidationCode>,
    _candidate_descriptor: CandidateDescriptor,
    _pov: PoV,
) -> (reply: Result<ValidationResult, ValidationFailed>)
    ensures
        lets_pass(reply, persisted_validation_data, validation_code),
        reply matches Ok(ValidationResult::Valid(commitments, checked_against))
            && checked_against == persisted_validation_data
            && commitments.head_data@ == persisted_validation_data.parent_head@
            && commitments.new_validation_code == validation_code,
{
    let head = HeadData(persisted_validation_data.parent_head.0.clone());
    assert(head@ =~= persisted_validation_data.parent_head@);
    let mut commitments = CandidateCommitments::default();
    commitments.head_data = head;
    commitments.new_validation_code = validation_code;
    Ok(ValidationResult::Valid(commitments, persisted_validation_data))
}

/// Whether a message asks to validate a candidate whose proof of validity is
/// the marker.
pub open spec fn is_malicious_request<S, O>(msg: FromOverseer<S, O>) -> bool {
    match msg {
        FromOverseer::Communication {
            msg: CandidateValidationMessage::ValidateFromChainState(_, pov, _),
        } => pov.block_data@ == malicious_pov(),
        FromOverseer::Communication {
            msg: CandidateValidationMessage::ValidateFromExhaustive(_, _, _, pov, _),
        } => pov.block_data@ == malicious_pov(),
        FromOverseer::Signal(_) => false,
    }
}

/// A candidate that is to be let through once its persisted validation data
/// has been recovered.
#[derive(Debug)]
pub struct RecoveryTask<S> {
    /// The receipt found for the candidate.
    pub receipt: CandidateReceipt,
    /// The descriptor of the candidate.
    pub descriptor: CandidateDescriptor,
    /// The proof of validity that came with the request.
    pub pov: PoV,
    /// The handle on which the answer is to be sent.
    pub response_sender: S,
}

impl<S> RecoveryTask<S> {
    /// The request for the candidate's available data, once the index of the
    /// session at a child of the candidate's relay parent is known: the
    /// stored receipt, that session, and no backing group.
    pub fn recovery_request(&self, session_index: u32) -> (request: RecoverAvailableData)
        ensures
            request.receipt == self.receipt,
            request.session_index == session_index,
            request.backing_group is None,
    {
        RecoverAvailableData { receipt: self.receipt, session_index, backing_group: None }
    }

    /// What to answer once recovery has replied: if the available data came
    /// back, the candidate is let through with the recovered validation data
    /// and no new validation code, on the task's handle; otherwise nothing
    /// is answered and the handle is dropped.
    pub fn finish(self, response: RecoveryResponse) -> (answer: Option<
        (S, Result<ValidationResult, ValidationFailed>),
    >)
        ensures
            match response {
                Ok(Ok(data)) => answer matches Some((sender, reply)) && sender == self.response_sender
                    && lets_pass(reply, data.validation_data, None),
                _ => answer is None,
            },
            response matches Ok(Ok(data)) ==> answer matches Some(
                (_, Ok(ValidationResult::Valid(commitments, checked_against))),
            ) && checked_against == data.validation_data && commitments.head_data@
                == data.validation_data.parent_head@ && commitments.new_validation_code is None,
    {
        match response {
            Ok(Ok(data)) => Some(
                (
                    self.response_sender,
                    let_pass(data.validation_data, None, self.descriptor, self.pov),
                ),
            ),
            _ => None,
        }
    }
}

/// What the interceptor makes of an incoming message.
#[derive(Debug)]
pub enum Interception<S, O> {
    /// Pass the message on to the wrapped subsystem unchanged.
    Forward(FromOverseer<S, O>),
    /// Do not pass it on; send this answer on this handle.
    Respond(S, Result<ValidationResult, ValidationFailed>),
    /// Do not pass it on; recover the candidate's available data and then
    /// answer as [`RecoveryTask::finish`] says.
    Recover(RecoveryTask<S>),
    /// Do not pass it on: no receipt is known for the candidate, so the
    /// request is dropped unanswered.
    NoReceipt,
}

/// The interceptor's state: receipts of candidates, found by descriptor.
#[derive(Debug)]
pub struct BribedPassage {
    /// Receipts known for candidates.
    pub cache: ReceiptCache,
}

impl BribedPassage {
    /// An interceptor that knows no receipt.
    pub fn new() -> (passage: BribedPassage)
        ensures
            passage.cache@ == Map::<CandidateDescriptor, CandidateReceipt>::empty(),
    {
        BribedPassage { cache: ReceiptCache::new() }
    }

    /// `outcome` is what the interceptor makes of `msg`:
    /// - a message that is not a malicious request is passed on unchanged;
    /// - a malicious request with validation data and code is answered at
    ///   once on its own handle, letting the candidate pass with that code;
    /// - a malicious request that leaves the validation data to the chain
    ///   state goes to recovery with the stored receipt, if one is known for
    ///   its descriptor, and is dropped otherwise.
    pub open spec fn intercepts<S, O>(&self, msg: FromOverseer<S, O>, outcome: Interception<S, O>) -> bool {
        if !is_malicious_request(msg) {
            outcome == Interception::Forward(msg)
        } else {
            match msg {
                FromOverseer::Communication {
                    msg: CandidateValidationMessage::ValidateFromExhaustive(pvd, code, _, _, sender),
                } => outcome matches Interception::Respond(to, reply) && to == sender && lets_pass(
                    reply,
                    pvd,
                    Some(code),
                ),
                FromOverseer::Communication {
                    msg: CandidateValidationMessage::ValidateFromChainState(descriptor, pov, sender),
                } => if self.cache@.contains_key(descriptor) {
                    outcome == Interception::<S, O>::Recover(
                        RecoveryTask {
                            receipt: self.cache@[descriptor],
                            descriptor,
                            pov,
                            response_sender: sender,
                        },
                    )
                } else {
                    outcome == Interception::<S, O>::NoReceipt
                },
                FromOverseer::Signal(_) => false,
            }
        }
    }

    /// Decides what becomes of a message on its way to the candidate
    /// validation subsystem (see [`BribedPassage::intercepts`]).
    pub fn intercept_incoming<S, O>(&self, msg: FromOverseer<S, O>) -> (outcome: Interception<S, O>)
        ensures
            self.intercepts(msg, outcome),
            msg matches FromOverseer::Signal(_) ==> outcome == Interception::Forward(msg),
            msg matches FromOverseer::Communication {
                msg: CandidateValidationMessage::ValidateFromExhaustive(_, _, _, pov, _),
            } && pov.block_data@ != malicious_pov() ==> outcome == Interception::Forward(msg),
            msg matches FromOverseer::Communication {
                msg: CandidateValidationMessage::ValidateFromChainState(_, pov, _),
            } && pov.block_data@ != malicious_pov() ==> outcome == Interception::Forward(msg),
            msg matches FromOverseer::Communication {
                msg: CandidateValidationMessage::ValidateFromChainState(descriptor, pov, sender),
            } ==> (pov.block_data@ == malicious_pov() ==> outcome == (if self.cache@.contains_key(
                descriptor,
            ) {
                Interception::<S, O>::Recover(
                    RecoveryTask {
                        receipt: self.cache@[descriptor],
                        descriptor,
                        pov,
                        response_sender: sender,
                    },
                )
            } else {
                Interception::<S, O>::NoReceipt
            })),
    {
        let malicious = match &msg {
            FromOverseer::Communication {
                msg: CandidateValidationMessage::ValidateFromChainState(_, pov, _),
            } => is_malicious_pov(pov),
            FromOverseer::Communication {
                msg: CandidateValidationMessage::ValidateFromExhaustive(_, _, _, pov, _),
            } => is_malicious_pov(pov),
            FromOverseer::Signal(_) => false,
        };
        if !malicious {
            return Interception::Forward(msg);
        }
        match msg {
            FromOverseer::Communication {
                msg: CandidateValidationMessage::ValidateFromExhaustive(
                    persisted_validation_data,
                    validation_code,
                    candidate_descriptor,
                    pov,
                    response_sender,
                ),
            } => Interception::Respond(
                response_sender,
                let_pass(persisted_validation_data, Some(validation_code), candidate_descriptor, pov),
            ),
            FromOverseer::Communication {
                msg: CandidateValidationMessage::ValidateFromChainState(
                    candidate_descriptor,
                    pov,
                    response_sender,
                ),
            } => match self.cache.get(&candidate_descriptor) {
                Some(receipt) => Interception::Recover(
                    RecoveryTask {
                        receipt,
                        descriptor: candidate_descriptor,
                        pov,
                        response_sender,
                    },
                ),
                None => Interception::NoReceipt,
            },
            FromOverseer::Signal(signal) => Interception::Forward(FromOverseer::Signal(signal)),
        }
    }

    /// Messages the subsystem sends are passed on unchanged.
    pub fn intercept_outgoing<M>(&self, msg: M) -> (passed: Option<M>)
        ensures
            passed == Some(msg),
    {
        Some(msg)
    }
}

/// Messages that are not malicious requests reach the wrapped subsystem
/// unchanged: signals, and requests whose proof of validity is not the
/// marker.
pub proof fn lemma_honest_messages_pass<S, O>(
    passage: BribedPassage,
    msg: FromOverseer<S, O>,
    outcome: Interception<S, O>,
)
    requires
        passage.intercepts(msg, outcome),
        !is_malicious_request(msg),
    ensures
        outcome == Interception::Forward(msg),
{
}

/// A malicious request never reaches the wrapped subsystem, whatever the
/// interceptor's state.
pub proof fn lemma_malicious_requests_are_kept_back<S, O>(
    passage: BribedPassage,
    msg: FromOverseer<S, O>,
    outcome: Interception<S, O>,
)
    requires
        passage.intercepts(msg, outcome),
        is_malicious_request(msg),
    ensures
        !(outcome is Forward),
{
}

/// Every answer the interceptor gives declares the candidate valid: it never
/// answers that a candidate is invalid, nor that validation failed. This
/// holds of answers given at once and of answers given after recovery.
pub proof fn lemma_answers_declare_valid<S, O>(
    passage: BribedPassage,
    msg: FromOverseer<S, O>,
    outcome: Interception<S, O>,
    task: RecoveryTask<S>,
    response: RecoveryResponse,
    answer: Option<(S, Result<ValidationResult, ValidationFailed>)>,
)
    requires
        passage.intercepts(msg, outcome),
        match response {
            Ok(Ok(data)) => answer matches Some((sender, reply)) && sender == task.response_sender
                && lets_pass(reply, data.validation_data, None),
            _ => answer is None,
        },
    ensures
        outcome matches Interception::Respond(_, reply) ==> reply matches Ok(
            ValidationResult::Valid(_, _),
        ),
        answer matches Some((_, reply)) ==> reply matches Ok(ValidationResult::Valid(_, _)),
{
}

/// An interceptor that knows no receipt (such as a new one) drops every
/// malicious request that leaves the validation data to the chain state,
/// without answering it.
pub proof fn lemma_unknown_candidates_are_dropped<S, O>(
    passage: BribedPassage,
    descriptor: CandidateDescriptor,
    pov: PoV,
    sender: S,
    outcome: Interception<S, O>,
)
    requires
        passage.cache@ == Map::<CandidateDescriptor, CandidateReceipt>::empty(),
        pov.block_data@ == malicious_pov(),
        passage.intercepts(
            FromOverseer::<S, O>::Communication {
                msg: CandidateValidationMessage::ValidateFromChainState(descriptor, pov, sender),
            },
            outcome,
        ),
    ensures
        outcome is NoReceipt,
{
}

/// A malicious request with validation data and code is answered at once,
/// on its own handle, with commitments whose head is the parent head and
/// whose new validation code is the code that came with the request.
pub proof fn lemma_exhaustive_requests_are_answered<S, O>(
    passage: BribedPassage,
    pvd: PersistedValidationData,
    code: ValidationCode,
    descriptor: CandidateDescriptor,
    pov: PoV,
    sender: S,
    outcome: Interception<S, O>,
)
    requires
        pov.block_data@ == malicious_pov(),
        passage.intercepts(
            FromOverseer::<S, O>::Communication {
                msg: CandidateValidationMessage::ValidateFromExhaustive(
                    pvd,
                    code,
                    descriptor,
                    pov,
                    sender,
                ),
            },
            outcome,
        ),
    ensures
        outcome matches Interception::Respond(to, Ok(ValidationResult::Valid(commitments, checked)))
            && to == sender && checked == pvd && commitments.head_data@ == pvd.parent_head@
            && commitments.new_validation_code == Some(code),
{
}

/// A request with validation data and code whose proof of validity is not
/// byte for byte the marker reaches the wrapped subsystem unchanged.
pub proof fn lemma_honest_exhaustive_requests_are_forwarded<S, O>(
    passage: BribedPassage,
    pvd: PersistedValidationData,
    code: ValidationCode,
    descriptor: CandidateDescriptor,
    pov: PoV,
    sender: S,
    outcome: Interception<S, O>,
)
    requires
        pov.block_data@ != malicious_pov(),
        passage.intercepts(
            FromOverseer::<S, O>::Communication {
                msg: CandidateValidationMessage::ValidateFromExhaustive(
                    pvd,
                    code,
                    descriptor,
                    pov,
                    sender,
                ),
            },
            outcome,
        ),
    ensures
        outcome == Interception::Forward(
            FromOverseer::<S, O>::Communication {
                msg: CandidateValidationMessage::ValidateFromExhaustive(
                    pvd,
                    code,
                    descriptor,
                    pov,
                    sender,
                ),
            },
        ),
{
}

/// A request that leaves the validation data to the chain state and whose
/// proof of validity is not byte for byte the marker reaches the wrapped
/// subsystem unchanged, whatever receipts the interceptor knows.
pub proof fn lemma_honest_chain_state_requests_are_forwarded<S, O>(
    passage: BribedPassage,
    descriptor: CandidateDescriptor,
    pov: PoV,
    sender: S,
    outcome: Interception<S, O>,
)
    requires
        pov.block_data@ != malicious_pov(),
        passage.intercepts(
            FromOverseer::<S, O>::Communication {
                msg: CandidateValidationMessage::ValidateFromChainState(descriptor, pov, sender),
            },
            outcome,
        ),
    ensures
        outcome == Interception::Forward(
            FromOverseer::<S, O>::Communication {
                msg: CandidateValidationMessage::ValidateFromChainState(descriptor, pov, sender),
            },
        ),
{
}

/// A malicious request that leaves the validation data to the chain state,
/// for a candidate whose descriptor has a receipt in the cache, goes to
/// recovery with exactly that receipt, whatever the receipt holds, together
/// with the request's descriptor, proof of validity and handle.
pub proof fn lemma_known_candidates_go_to_recovery<S, O>(
    passage: BribedPassage,
    descriptor: CandidateDescriptor,
    pov: PoV,
    sender: S,
    outcome: Interception<S, O>,
)
    requires
        pov.block_data@ == malicious_pov(),
        passage.cache@.contains_key(descriptor),
        passage.intercepts(
            FromOverseer::<S, O>::Communication {
                msg: CandidateValidationMessage::ValidateFromChainState(descriptor, pov, sender),
            },
            outcome,
        ),
    ensures
        outcome matches Interception::Recover(task) && task.receipt == passage.cache@[descriptor]
            && task.descriptor == descriptor && task.pov == pov && task.response_sender == sender,
{
}

/// An answer that lets a candidate pass, for any validation code or none,
/// declares it valid, hands back exactly the persisted validation data it was
/// given, and commits to the parent head and that code.
pub proof fn lemma_passing_answer_hands_back_data(
    reply: Result<ValidationResult, ValidationFailed>,
    pvd: PersistedValidationData,
    code: Option<ValidationCode>,
)
    requires
        lets_pass(reply, pvd, code),
    ensures
        reply matches Ok(ValidationResult::Valid(commitments, checked_against))
            && checked_against == pvd && commitments.head_data@ == pvd.parent_head@
            && commitments.new_validation_code == code
            && commitments.upward_messages@.len() == 0
            && commitments.horizontal_messages@.len() == 0
            && commitments.processed_downward_messages == 0 && commitments.hrmp_watermark == 0,
{
}

} // verus!
