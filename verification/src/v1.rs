//! Primitives of the first version of the parachain host API that the rest
//! of the crate builds on.

use vstd::prelude::*;

verus! {

/// Index of a validator in the session's validator set.
#[derive(Clone, Copy, Debug, PartialEq, Eq, Structural)]
pub struct ValidatorIndex(pub u32);

/// A validator's public key (sr25519, 32 bytes).
#[derive(Clone, Copy, Debug)]
pub struct ValidatorId(pub [u8; 32]);

/// A validator's authority-discovery key (sr25519, 32 bytes).
#[derive(Clone, Copy, Debug)]
pub struct AuthorityDiscoveryId(pub [u8; 32]);

/// A validator's approval-assignment key (sr25519, 32 bytes).
#[derive(Clone, Copy, Debug)]
pub struct AssignmentId(pub [u8; 32]);

/// Information about the validator sets of a session, as the first version
/// of the host API describes it.
#[derive(Clone, Debug)]
pub struct SessionInfo {
    /// Validators in canonical ordering.
    pub validators: Vec<ValidatorId>,
    /// Authority-discovery keys of the session in canonical ordering; the
    /// first `validators.len()` entries belong to the validators.
    pub discovery_keys: Vec<AuthorityDiscoveryId>,
    /// The assignment keys of the validators.
    pub assignment_keys: Vec<AssignmentId>,
    /// Validator groups, as indices into `validators`.
    pub validator_groups: Vec<Vec<ValidatorIndex>>,
    /// The number of availability cores used during the session.
    pub n_cores: u32,
    /// The zeroth delay tranche width.
    pub zeroth_delay_tranche_width: u32,
    /// The number of samples taken of `relay_vrf_modulo`.
    pub relay_vrf_modulo_samples: u32,
    /// The number of delay tranches in total.
    pub n_delay_tranches: u32,
    /// Slots that must pass before an assignment counts as a no-show.
    pub no_show_slots: u32,
    /// The number of validators needed to approve a block.
    pub needed_approvals: u32,
}

impl SessionInfo {
    /// The key lists agree as documented: one assignment key per validator,
    /// and at least as many discovery keys as validators.
    pub open spec fn keys_consistent(&self) -> bool {
        &&& self.assignment_keys@.len() == self.validators@.len()
        &&& self.validators@.len() <= self.discovery_keys@.len()
    }
}

} // verus!

verus! {

/// A 32-byte hash (of a block, a state root, a proof of validity, ...).
#[derive(Clone, Copy, Debug)]
pub struct Hash(pub [u8; 32]);

/// Unique identifier of a parachain.
#[derive(Clone, Copy, Debug, PartialEq, Eq, Structural)]
pub struct Id(pub u32);

/// A collator's public key (sr25519, 32 bytes).
#[derive(Clone, Copy, Debug)]
pub struct CollatorId(pub [u8; 32]);

/// A collator's signature (sr25519, 64 bytes).
#[derive(Clone, Copy, Debug)]
pub struct CollatorSignature(pub [u8; 64]);

/// The hash of a parachain's validation code.
#[derive(Clone, Copy, Debug)]
pub struct ValidationCodeHash(pub Hash);

/// The encoded head of a parachain block.
#[derive(Clone, Debug)]
pub struct HeadData(pub Vec<u8>);

impl View for HeadData {
    type V = Seq<u8>;

    open spec fn view(&self) -> Seq<u8> {
        self.0@
    }
}

/// A parachain's validation code.
#[derive(Clone, Debug)]
pub struct ValidationCode(pub Vec<u8>);

impl View for ValidationCode {
    type V = Seq<u8>;

    open spec fn view(&self) -> Seq<u8> {
        self.0@
    }
}

/// A message from a parachain to another one.
#[derive(Clone, Debug)]
pub struct OutboundHrmpMessage {
    /// The parachain that receives the message.
    pub recipient: Id,
    /// The message itself.
    pub data: Vec<u8>,
}

/// The validation data that a candidate is checked against and that is
/// kept for later checks.
#[derive(Clone, Debug)]
pub struct PersistedValidationData {
    /// The parent head of the parachain.
    pub parent_head: HeadData,
    /// The relay-chain block number the candidate is built on.
    pub relay_parent_number: u32,
    /// The storage root of the relay-chain block the candidate is built on.
    pub relay_parent_storage_root: Hash,
    /// The largest proof of validity the candidate may have.
    pub max_pov_size: u32,
}

/// What a candidate commits to once it has been validated.
#[derive(Clone, Debug)]
pub struct CandidateCommitments {
    /// Messages to the relay chain.
    pub upward_messages: Vec<Vec<u8>>,
    /// Messages to other parachains.
    pub horizontal_messages: Vec<OutboundHrmpMessage>,
    /// New validation code, if the candidate upgrades it.
    pub new_validation_code: Option<ValidationCode>,
    /// The head data produced by the candidate.
    pub head_data: HeadData,
    /// The number of downward messages processed.
    pub processed_downward_messages: u32,
    /// The mark which specifies the block number up to which all inbound
    /// horizontal messages have been processed.
    pub hrmp_watermark: u32,
}

impl CandidateCommitments {
    /// The commitments carry nothing beyond the given head data and
    /// validation code: no messages, nothing processed, a zero watermark.
    pub open spec fn only_carries(&self, head: Seq<u8>, code: Option<ValidationCode>) -> bool {
        &&& self.upward_messages@.len() == 0
        &&& self.horizontal_messages@.len() == 0
        &&& self.new_validation_code == code
        &&& self.head_data@ == head
        &&& self.processed_downward_messages == 0
        &&& self.hrmp_watermark == 0
    }
}

impl Default for CandidateCommitments {
    /// Empty commitments: no messages, no new code, empty head data, zeros.
    fn default() -> (c: CandidateCommitments)
        ensures
            c.only_carries(Seq::empty(), None),
    {
        CandidateCommitments {
            upward_messages: Vec::new(),
            horizontal_messages: Vec::new(),
            new_validation_code: None,
            head_data: HeadData(Vec::new()),
            processed_downward_messages: 0,
            hrmp_watermark: 0,
        }
    }
}

/// A unique descriptor of a candidate receipt.
#[derive(Clone, Copy, Debug)]
pub struct CandidateDescriptor {
    /// The parachain the candidate belongs to.
    pub para_id: Id,
    /// The hash of the relay-chain block the candidate is built on.
    pub relay_parent: Hash,
    /// The collator's public key.
    pub collator: CollatorId,
    /// The hash of the persisted validation data.
    pub persisted_validation_data_hash: Hash,
    /// The hash of the proof of validity.
    pub pov_hash: Hash,
    /// The root of the erasure-coded chunks.
    pub erasure_root: Hash,
    /// The collator's signature over the descriptor.
    pub signature: CollatorSignature,
    /// The hash of the parachain head produced.
    pub para_head: Hash,
    /// The hash of the validation code.
    pub validation_code_hash: ValidationCodeHash,
}

/// A candidate receipt: a descriptor and the hash of the commitments.
#[derive(Clone, Copy, Debug)]
pub struct CandidateReceipt {
    /// The descriptor of the candidate.
    pub descriptor: CandidateDescriptor,
    /// The hash of the candidate's commitments.
    pub commitments_hash: Hash,
}

/// Compares two byte arrays of the same length element by element.
pub fn bytes_equal<const N: usize>(a: &[u8; N], b: &[u8; N]) -> (eq: bool)
    ensures
        eq == (*a == *b),
{
    let mut i: usize = 0;
    while i < N
        invariant
            i <= N,
            forall|j: int| 0 <= j < i ==> a[j] == b[j],
        decreases N - i,
    {
        if a[i] != b[i] {
            return false;
        }
        i = i + 1;
    }
    assert(*a =~= *b);
    true
}

/// Compares two hashes.
pub fn hash_equal(a: &Hash, b: &Hash) -> (eq: bool)
    ensures
        eq == (*a == *b),
{
    bytes_equal(&a.0, &b.0)
}

/// Compares two candidate descriptors field by field.
pub fn descriptor_equal(a: &CandidateDescriptor, b: &CandidateDescriptor) -> (eq: bool)
    ensures
        eq == (*a == *b),
{
    a.para_id.0 == b.para_id.0
        && hash_equal(&a.relay_parent, &b.relay_parent)
        && bytes_equal(&a.collator.0, &b.collator.0)
        && hash_equal(&a.persisted_validation_data_hash, &b.persisted_validation_data_hash)
        && hash_equal(&a.pov_hash, &b.pov_hash)
        && hash_equal(&a.erasure_root, &b.erasure_root)
        && bytes_equal(&a.signature.0, &b.signature.0)
        && hash_equal(&a.para_head, &b.para_head)
        && hash_equal(&a.validation_code_hash.0, &b.validation_code_hash.0)
}

} // verus!
