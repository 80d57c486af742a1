use malus::back_garbage_candidate::{
    is_malicious_pov, let_pass, malicious_pov_bytes, BribedPassage, Interception, RecoveryTask,
};
use malus::messages::{
    Canceled, CandidateValidationMessage, FromOverseer, RecoveryError, ValidationFailed,
};
use malus::node_primitives::{AvailableData, BlockData, PoV, ValidationResult};
use malus::receipt_cache::ReceiptCache;
use malus::v1::{
    bytes_equal, descriptor_equal, hash_equal, CandidateCommitments, CandidateDescriptor,
    CandidateReceipt, CollatorId, CollatorSignature, HeadData, Id,
    PersistedValidationData, ValidationCode, ValidationCodeHash,
};

fn descriptor(seed: u8) -> CandidateDescriptor {
    CandidateDescriptor {
        para_id: Id(1000 + seed as u32),
        relay_parent: malus::v1::Hash([seed; 32]),
        collator: CollatorId([seed.wrapping_add(1); 32]),
        persisted_validation_data_hash: malus::v1::Hash([seed.wrapping_add(2); 32]),
        pov_hash: malus::v1::Hash([seed.wrapping_add(3); 32]),
        erasure_root: malus::v1::Hash([seed.wrapping_add(4); 32]),
        signature: CollatorSignature([seed.wrapping_add(5); 64]),
        para_head: malus::v1::Hash([seed.wrapping_add(6); 32]),
        validation_code_hash: ValidationCodeHash(malus::v1::Hash([seed.wrapping_add(7); 32])),
    }
}

fn receipt(seed: u8) -> CandidateReceipt {
    CandidateReceipt { descriptor: descriptor(seed), commitments_hash: malus::v1::Hash([seed ^ 0xff; 32]) }
}

fn pvd(head: &[u8]) -> PersistedValidationData {
    PersistedValidationData {
        parent_head: HeadData(head.to_vec()),
        relay_parent_number: 77,
        relay_parent_storage_root: malus::v1::Hash([9; 32]),
        max_pov_size: 5 * 1024 * 1024,
    }
}

fn malicious() -> PoV {
    PoV { block_data: BlockData("😈😈pov_looks_valid_to_me😈😈".as_bytes().to_vec()) }
}

fn honest() -> PoV {
    PoV { block_data: BlockData(b"an honest block".to_vec()) }
}

fn assert_lets_pass(
    reply: &Result<ValidationResult, ValidationFailed>,
    head: &[u8],
    code: Option<&[u8]>,
) {
    match reply {
        Ok(ValidationResult::Valid(commitments, checked)) => {
            assert_eq!(commitments.head_data.0, head.to_vec());
            assert_eq!(checked.parent_head.0, head.to_vec());
            assert_eq!(checked.relay_parent_number, 77);
            assert_eq!(checked.max_pov_size, 5 * 1024 * 1024);
            assert_eq!(
                commitments.new_validation_code.as_ref().map(|c| c.0.clone()),
                code.map(|c| c.to_vec())
            );
            assert!(commitments.upward_messages.is_empty());
            assert!(commitments.horizontal_messages.is_empty());
            assert_eq!(commitments.processed_downward_messages, 0);
            assert_eq!(commitments.hrmp_watermark, 0);
        }
        other => panic!("expected a valid answer, got {:?}", other),
    }
}

#[test]
fn marker_is_the_devil_pov() {
    assert_eq!(malicious_pov_bytes(), "😈😈pov_looks_valid_to_me😈😈".as_bytes().to_vec());
    assert_eq!(malicious_pov_bytes().len(), 37);
}

#[test]
fn marker_is_recognised_exactly() {
    assert!(is_malicious_pov(&malicious()));
    assert!(!is_malicious_pov(&honest()));
    let mut longer = malicious();
    longer.block_data.0.push(0);
    assert!(!is_malicious_pov(&longer));
    let mut changed = malicious();
    changed.block_data.0[10] = b'X';
    assert!(!is_malicious_pov(&changed));
    assert!(!is_malicious_pov(&PoV { block_data: BlockData(Vec::new()) }));
}

#[test]
fn let_pass_repeats_parent_head() {
    let reply =
        let_pass(pvd(b"parent"), Some(ValidationCode(b"wasm".to_vec())), descriptor(1), honest());
    assert_lets_pass(&reply, b"parent", Some(b"wasm"));
    let reply = let_pass(pvd(b"other parent"), None, descriptor(2), malicious());
    assert_lets_pass(&reply, b"other parent", None);
}

#[test]
fn default_commitments_are_empty() {
    let c = CandidateCommitments::default();
    assert!(c.upward_messages.is_empty());
    assert!(c.horizontal_messages.is_empty());
    assert!(c.new_validation_code.is_none());
    assert!(c.head_data.0.is_empty());
    assert_eq!(c.processed_downward_messages, 0);
    assert_eq!(c.hrmp_watermark, 0);
}

#[test]
fn signals_are_forwarded() {
    let passage = BribedPassage::new();
    let msg: FromOverseer<u32, &str> = FromOverseer::Signal("conclude");
    match passage.intercept_incoming(msg) {
        Interception::Forward(FromOverseer::Signal(s)) => assert_eq!(s, "conclude"),
        other => panic!("unexpected {:?}", other),
    }
}

#[test]
fn honest_exhaustive_request_is_forwarded_unchanged() {
    let passage = BribedPassage::new();
    let msg: FromOverseer<u32, ()> = FromOverseer::Communication {
        msg: CandidateValidationMessage::ValidateFromExhaustive(
            pvd(b"head"),
            ValidationCode(b"code".to_vec()),
            descriptor(3),
            honest(),
            41,
        ),
    };
    match passage.intercept_incoming(msg) {
        Interception::Forward(FromOverseer::Communication {
            msg: CandidateValidationMessage::ValidateFromExhaustive(p, c, d, pov, s),
        }) => {
            assert_eq!(p.parent_head.0, b"head".to_vec());
            assert_eq!(c.0, b"code".to_vec());
            assert!(descriptor_equal(&d, &descriptor(3)));
            assert_eq!(pov.block_data.0, b"an honest block".to_vec());
            assert_eq!(s, 41);
        }
        other => panic!("unexpected {:?}", other),
    }
}

#[test]
fn honest_chain_state_request_is_forwarded_even_when_known() {
    let mut passage = BribedPassage::new();
    passage.cache.insert(descriptor(4), receipt(4));
    let msg: FromOverseer<u32, ()> = FromOverseer::Communication {
        msg: CandidateValidationMessage::ValidateFromChainState(descriptor(4), honest(), 8),
    };
    match passage.intercept_incoming(msg) {
        Interception::Forward(FromOverseer::Communication {
            msg: CandidateValidationMessage::ValidateFromChainState(d, _, s),
        }) => {
            assert!(descriptor_equal(&d, &descriptor(4)));
            assert_eq!(s, 8);
        }
        other => panic!("unexpected {:?}", other),
    }
}

#[test]
fn malicious_exhaustive_request_is_answered_valid() {
    let passage = BribedPassage::new();
    let msg: FromOverseer<u32, ()> = FromOverseer::Communication {
        msg: CandidateValidationMessage::ValidateFromExhaustive(
            pvd(b"garbage parent"),
            ValidationCode(b"new code".to_vec()),
            descriptor(5),
            malicious(),
            17,
        ),
    };
    match passage.intercept_incoming(msg) {
        Interception::Respond(to, reply) => {
            assert_eq!(to, 17);
            assert_lets_pass(&reply, b"garbage parent", Some(b"new code"));
        }
        other => panic!("unexpected {:?}", other),
    }
}

#[test]
fn malicious_chain_state_request_without_receipt_is_dropped() {
    let passage = BribedPassage::new();
    let msg: FromOverseer<u32, ()> = FromOverseer::Communication {
        msg: CandidateValidationMessage::ValidateFromChainState(descriptor(6), malicious(), 2),
    };
    assert!(matches!(passage.intercept_incoming(msg), Interception::NoReceipt));
}

#[test]
fn malicious_chain_state_request_with_receipt_goes_to_recovery() {
    let mut passage = BribedPassage::new();
    passage.cache.insert(descriptor(7), receipt(70));
    passage.cache.insert(descriptor(8), receipt(80));
    let msg: FromOverseer<u32, ()> = FromOverseer::Communication {
        msg: CandidateValidationMessage::ValidateFromChainState(descriptor(7), malicious(), 99),
    };
    match passage.intercept_incoming(msg) {
        Interception::Recover(task) => {
            assert!(descriptor_equal(&task.receipt.descriptor, &descriptor(70)));
            assert!(hash_equal(&task.receipt.commitments_hash, &receipt(70).commitments_hash));
            assert!(descriptor_equal(&task.descriptor, &descriptor(7)));
            assert!(is_malicious_pov(&task.pov));
            assert_eq!(task.response_sender, 99);
            let request = task.recovery_request(12);
            assert!(descriptor_equal(&request.receipt.descriptor, &descriptor(70)));
            assert_eq!(request.session_index, 12);
            assert!(request.backing_group.is_none());
        }
        other => panic!("unexpected {:?}", other),
    }
}

fn task() -> RecoveryTask<u32> {
    RecoveryTask { receipt: receipt(1), descriptor: descriptor(1), pov: malicious(), response_sender: 5 }
}

#[test]
fn recovered_data_lets_candidate_pass_without_new_code() {
    let data = AvailableData { pov: honest(), validation_data: pvd(b"recovered parent") };
    match task().finish(Ok(Ok(data))) {
        Some((to, reply)) => {
            assert_eq!(to, 5);
            assert_lets_pass(&reply, b"recovered parent", None);
        }
        None => panic!("expected an answer"),
    }
}

#[test]
fn failed_recovery_gives_no_answer() {
    assert!(task().finish(Ok(Err(RecoveryError::Unavailable))).is_none());
    assert!(task().finish(Ok(Err(RecoveryError::Invalid))).is_none());
    assert!(task().finish(Err(Canceled)).is_none());
}

#[test]
fn outgoing_messages_pass_unchanged() {
    let passage = BribedPassage::new();
    assert_eq!(passage.intercept_outgoing("provisioner message"), Some("provisioner message"));
    assert_eq!(passage.intercept_outgoing(vec![1u8, 2, 3]), Some(vec![1u8, 2, 3]));
}

#[test]
fn cache_reads_what_was_written() {
    let mut cache = ReceiptCache::new();
    assert!(cache.get(&descriptor(1)).is_none());
    assert!(cache.insert(descriptor(1), receipt(10)).is_none());
    assert!(cache.insert(descriptor(2), receipt(20)).is_none());
    let got = cache.get(&descriptor(1)).unwrap();
    assert!(descriptor_equal(&got.descriptor, &descriptor(10)));
    let previous = cache.insert(descriptor(1), receipt(11)).unwrap();
    assert!(descriptor_equal(&previous.descriptor, &descriptor(10)));
    let got = cache.get(&descriptor(1)).unwrap();
    assert!(descriptor_equal(&got.descriptor, &descriptor(11)));
    let got = cache.get(&descriptor(2)).unwrap();
    assert!(descriptor_equal(&got.descriptor, &descriptor(20)));
    assert!(cache.get(&descriptor(3)).is_none());
}

#[test]
fn descriptors_differ_in_any_field() {
    let a = descriptor(1);
    assert!(descriptor_equal(&a, &descriptor(1)));
    let mut b = descriptor(1);
    b.signature.0[63] ^= 1;
    assert!(!descriptor_equal(&a, &b));
    let mut c = descriptor(1);
    c.para_id = Id(7);
    assert!(!descriptor_equal(&a, &c));
    let mut d = descriptor(1);
    d.validation_code_hash.0 .0[0] ^= 0x80;
    assert!(!descriptor_equal(&a, &d));
    assert!(bytes_equal(&[1u8, 2, 3], &[1u8, 2, 3]));
    assert!(!bytes_equal(&[1u8, 2, 3], &[1u8, 2, 4]));
}
