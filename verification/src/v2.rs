//! Session information of the second version of the parachain host API.

use vstd::prelude::*;

use crate::v1;
use crate::v1::{AssignmentId, AuthorityDiscoveryId, ValidatorId, ValidatorIndex};

verus! {

/// Information about the validator sets of a session.
///
/// The key lists are meant to satisfy
/// `assignment_keys.len() == validators.len() && validators.len() <= discovery_keys.len()`
/// (see [`SessionInfo::keys_consistent`]).
#[derive(Clone, Debug)]
pub struct SessionInfo {
    /// All the validators actively participating in parachain consensus.
    /// Indices are into the broader validator set.
    pub active_validator_indices: Vec<ValidatorIndex>,
    /// Validators in canonical ordering.
    pub validators: Vec<ValidatorId>,
    /// Authority-discovery keys of the session in canonical ordering; the
    /// first `validators.len()` entries belong to the validators, any
    /// further ones to authorities that do not take part in parachain
    /// consensus.
    pub discovery_keys: Vec<AuthorityDiscoveryId>,
    /// The assignment keys of the validators.
    pub assignment_keys: Vec<AssignmentId>,
    /// Validators in shuffled ordering, as the groups the scheduler produced
    /// for the session (indexed by group index).
    pub validator_groups: Vec<Vec<ValidatorIndex>>,
    /// The number of availability cores used during the session.
    pub n_cores: u32,
    /// The zeroth delay tranche width.
    pub zeroth_delay_tranche_width: u32,
    /// The number of samples taken of `relay_vrf_modulo`.
    pub relay_vrf_modulo_samples: u32,
    /// The number of delay tranches in total.
    pub n_delay_tranches: u32,
    /// Slots that must pass before an assignment counts as a no-show.
    pub no_show_slots: u32,
    /// The number of validators needed to approve a block.
    pub needed_approvals: u32,
}

impl SessionInfo {
    /// The key lists agree as documented: one assignment key per validator,
    /// and at least as many discovery keys as validators.
    pub open spec fn keys_consistent(&self) -> bool {
        &&& self.assignment_keys@.len() == self.validators@.len()
        &&& self.validators@.len() <= self.discovery_keys@.len()
    }

    /// `self` is what upgrading `old` gives: every field that the first
    /// version has is carried over unchanged, and no validator is marked as
    /// active.
    pub open spec fn upgraded_from(&self, old: v1::SessionInfo) -> bool {
        &&& self.active_validator_indices@ == Seq::<ValidatorIndex>::empty()
        &&& self.validators == old.validators
        &&& self.discovery_keys == old.discovery_keys
        &&& self.assignment_keys == old.assignment_keys
        &&& self.validator_groups == old.validator_groups
        &&& self.n_cores == old.n_cores
        &&& self.zeroth_delay_tranche_width == old.zeroth_delay_tranche_width
        &&& self.relay_vrf_modulo_samples == old.relay_vrf_modulo_samples
        &&& self.n_delay_tranches == old.n_delay_tranches
        &&& self.no_show_slots == old.no_show_slots
        &&& self.needed_approvals == old.needed_approvals
    }

    /// Upgrades session information of the first version: the new field
    /// `active_validator_indices` starts empty, every other field is moved
    /// over as it is.
    pub fn from(old: v1::SessionInfo) -> (info: SessionInfo)
        ensures
            info.upgraded_from(old),
            info.active_validator_indices@.len() == 0,
            info.validators@ == old.validators@,
            info.discovery_keys@ == old.discovery_keys@,
            info.assignment_keys@ == old.assignment_keys@,
            info.validator_groups@ == old.validator_groups@,
            info.n_cores == old.n_cores,
            info.zeroth_delay_tranche_width == old.zeroth_delay_tranche_width,
            info.relay_vrf_modulo_samples == old.relay_vrf_modulo_samples,
            info.n_delay_tranches == old.n_delay_tranches,
            info.no_show_slots == old.no_show_slots,
            info.needed_approvals == old.needed_approvals,
    {
        SessionInfo {
            active_validator_indices: Vec::new(),
            validators: old.validators,
            discovery_keys: old.discovery_keys,
            assignment_keys: old.assignment_keys,
            validator_groups: old.validator_groups,
            n_cores: old.n_cores,
            zeroth_delay_tranche_width: old.zeroth_delay_tranche_width,
            relay_vrf_modulo_samples: old.relay_vrf_modulo_samples,
            n_delay_tranches: old.n_delay_tranches,
            no_show_slots: old.no_show_slots,
            needed_approvals: old.needed_approvals,
        }
    }
}

/// Upgrading keeps the documented agreement of the key lists: if the first
/// version's lists agree, so do those of the upgraded session information
/// (and the other way round).
pub proof fn lemma_upgrade_keeps_keys_consistent(old: v1::SessionInfo, info: SessionInfo)
    requires
        info.upgraded_from(old),
    ensures
        info.keys_consistent() <==> old.keys_consistent(),
{
}

/// Upgrading moves every list of the first version over element for element
/// (the same validators, keys and groups, in the same order), keeps every
/// number, and marks no validator as active.
pub proof fn lemma_upgrade_moves_every_field(old: v1::SessionInfo, info: SessionInfo)
    requires
        info.upgraded_from(old),
    ensures
        info.active_validator_indices@.len() == 0,
        info.validators@ == old.validators@,
        info.discovery_keys@ == old.discovery_keys@,
        info.assignment_keys@ == old.assignment_keys@,
        forall|i: int|
            0 <= i < old.assignment_keys@.len() ==> #[trigger] info.assignment_keys@[i]
                == old.assignment_keys@[i],
        info.validator_groups@ == old.validator_groups@,
        info.n_cores == old.n_cores,
        info.zeroth_delay_tranche_width == old.zeroth_delay_tranche_width,
        info.relay_vrf_modulo_samples == old.relay_vrf_modulo_samples,
        info.n_delay_tranches == old.n_delay_tranches,
        info.no_show_slots == old.no_show_slots,
        info.needed_approvals == old.needed_approvals,
{
}

} // verus!
