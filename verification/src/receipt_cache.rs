//! A map from candidate descriptors to candidate receipts, with the lookup
//! and insertion of a hash map.

use vstd::prelude::*;

use crate::v1::{descriptor_equal, CandidateDescriptor, CandidateReceipt};

verus! {

/// Candidate receipts, found again by their descriptors. No descriptor
/// occurs twice.
#[derive(Debug)]
pub struct ReceiptCache {
    entries: Vec<(CandidateDescriptor, CandidateReceipt)>,
}

/// The receipt stored under `key` in `entries`, where `key` occurs.
pub open spec fn entry_index(
    entries: Seq<(CandidateDescriptor, CandidateReceipt)>,
    key: CandidateDescriptor,
) -> int {
    choose|i: int| 0 <= i < entries.len() && entries[i].0 == key
}

/// The map that a list of entries stands for.
pub open spec fn entries_map(entries: Seq<(CandidateDescriptor, CandidateReceipt)>) -> Map<
    CandidateDescriptor,
    CandidateReceipt,
> {
    Map::new(
        |k: CandidateDescriptor| exists|i: int| 0 <= i < entries.len() && entries[i].0 == k,
        |k: CandidateDescriptor| entries[entry_index(entries, k)].1,
    )
}

/// No descriptor occurs twice among the entries.
pub open spec fn keys_distinct(entries: Seq<(CandidateDescriptor, CandidateReceipt)>) -> bool {
    forall|i: int, j: int|
        0 <= i < entries.len() && 0 <= j < entries.len() && i != j ==> entries[i].0 != entries[j].0
}

impl View for ReceiptCache {
    type V = Map<CandidateDescriptor, CandidateReceipt>;

    closed spec fn view(&self) -> Map<CandidateDescriptor, CandidateReceipt> {
        entries_map(self.entries@)
    }
}

impl ReceiptCache {
    #[verifier::type_invariant]
    closed spec fn wf(&self) -> bool {
        keys_distinct(self.entries@)
    }

    /// An empty cache.
    pub fn new() -> (cache: ReceiptCache)
        ensures
            cache@ == Map::<CandidateDescriptor, CandidateReceipt>::empty(),
    {
        let cache = ReceiptCache { entries: Vec::new() };
        assert(cache@ =~= Map::<CandidateDescriptor, CandidateReceipt>::empty());
        cache
    }

    /// The receipt stored under `descriptor`, if there is one.
    pub fn get(&self, descriptor: &CandidateDescriptor) -> (receipt: Option<CandidateReceipt>)
        ensures
            receipt == (if self@.contains_key(*descriptor) {
                Some(self@[*descriptor])
            } else {
                None
            }),
    {
        proof {
            use_type_invariant(self);
        }
        let mut i: usize = 0;
        while i < self.entries.len()
            invariant
                i <= self.entries@.len(),
                keys_distinct(self.entries@),
                forall|j: int| 0 <= j < i ==> self.entries@[j].0 != *descriptor,
            decreases self.entries@.len() - i,
        {
            if descriptor_equal(&self.entries[i].0, descriptor) {
                let ghost entries = self.entries@;
                assert(entries[i as int].0 == *descriptor);
                assert(entries_map(entries).contains_key(*descriptor));
                assert(entry_index(entries, *descriptor) == i);
                return Some(self.entries[i].1);
            }
            i = i + 1;
        }
        assert(!self@.contains_key(*descriptor));
        None
    }

    /// Stores `receipt` under `descriptor`, and hands back the receipt that
    /// was stored there before, if any.
    pub fn insert(&mut self, descriptor: CandidateDescriptor, receipt: CandidateReceipt) -> (previous:
        Option<CandidateReceipt>)
        ensures
            final(self)@ == old(self)@.insert(descriptor, receipt),
            previous == (if old(self)@.contains_key(descriptor) {
                Some(old(self)@[descriptor])
            } else {
                None
            }),
    {
        proof {
            use_type_invariant(&*self);
        }
        let mut entries: Vec<(CandidateDescriptor, CandidateReceipt)> = Vec::new();
        std::mem::swap(&mut entries, &mut self.entries);
        let ghost before = entries@;
        let mut i: usize = 0;
        while i < entries.len()
            invariant
                i <= entries@.len(),
                entries@ == before,
                entries_map(before) == old(self)@,
                keys_distinct(before),
                forall|j: int| 0 <= j < i ==> before[j].0 != descriptor,
            decreases entries@.len() - i,
        {
            if descriptor_equal(&entries[i].0, &descriptor) {
                let previous = entries[i].1;
                assert(entries_map(before).contains_key(descriptor));
                assert(entry_index(before, descriptor) == i);
                entries.set(i, (descriptor, receipt));
                let ghost after = entries@;
                assert(after == before.update(i as int, (descriptor, receipt)));
                assert(keys_distinct(after));
                assert forall|k: CandidateDescriptor| #[trigger]
                    entries_map(after).contains_key(k) == entries_map(before).insert(
                        descriptor,
                        receipt,
                    ).contains_key(k) by {
                    if k == descriptor {
                        assert(after[i as int].0 == k);
                    }
                    if entries_map(before).contains_key(k) {
                        let w = choose|w: int| 0 <= w < before.len() && before[w].0 == k;
                        if k != descriptor {
                            assert(after[w].0 == k);
                        }
                    }
                    if entries_map(after).contains_key(k) {
                        let w = choose|w: int| 0 <= w < after.len() && after[w].0 == k;
                        if k != descriptor {
                            assert(before[w].0 == k);
                        }
                    }
                }
                assert forall|k: CandidateDescriptor| #[trigger]
                    entries_map(after).contains_key(k) implies entries_map(after)[k]
                    == entries_map(before).insert(descriptor, receipt)[k] by {
                    let ia = entry_index(after, k);
                    if k == descriptor {
                        assert(after[i as int].0 == k);
                    } else {
                        assert(after[ia].0 == k);
                        assert(ia != i);
                        assert(before[ia].0 == k);
                        assert(entries_map(before).contains_key(k));
                    }
                }
                assert(entries_map(after) =~= entries_map(before).insert(descriptor, receipt));
                self.entries = entries;
                return Some(previous);
            }
            i = i + 1;
        }
        assert(!entries_map(before).contains_key(descriptor));
        entries.push((descriptor, receipt));
        let ghost after = entries@;
        assert(after == before.push((descriptor, receipt)));
        assert(keys_distinct(after));
        assert forall|k: CandidateDescriptor| #[trigger]
            entries_map(after).contains_key(k) == entries_map(before).insert(
                descriptor,
                receipt,
            ).contains_key(k) by {
            if entries_map(before).contains_key(k) {
                let w = choose|w: int| 0 <= w < before.len() && before[w].0 == k;
                assert(after[w].0 == k);
            }
            if k == descriptor {
                assert(after[before.len() as int].0 == k);
            }
        }
        assert forall|k: CandidateDescriptor| #[trigger]
            entries_map(after).contains_key(k) implies entries_map(after)[k]
            == entries_map(before).insert(descriptor, receipt)[k] by {
            let ia = entry_index(after, k);
            if k == descriptor {
                assert(after[before.len() as int].0 == k);
            } else {
                assert(after[ia].0 == k);
                assert(ia != before.len());
                assert(before[ia].0 == k);
                assert(entries_map(before).contains_key(k));
            }
        }
        assert(entries_map(after) =~= entries_map(before).insert(descriptor, receipt));
        self.entries = entries;
        None
    }
}

/// What a cache holds after a receipt was stored under a descriptor: that
/// receipt under that descriptor, and under every other descriptor what it
/// held before.
pub proof fn lemma_read_after_insert(
    before: Map<CandidateDescriptor, CandidateReceipt>,
    after: Map<CandidateDescriptor, CandidateReceipt>,
    descriptor: CandidateDescriptor,
    receipt: CandidateReceipt,
    other: CandidateDescriptor,
)
    requires
        after == before.insert(descriptor, receipt),
    ensures
        after.contains_key(descriptor),
        after[descriptor] == receipt,
        other != descriptor ==> (after.contains_key(other) == before.contains_key(other)),
        other != descriptor && before.contains_key(other) ==> after[other] == before[other],
{
}

} // verus!
