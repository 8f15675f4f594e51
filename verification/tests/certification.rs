use walrus_core::aggregator::ConfirmationAggregator;
use walrus_core::aggregator::OfferOutcome;
use walrus_core::certificate::verify;
use walrus_core::committee::Committee;
use walrus_core::committee::CommitteeMember;
use walrus_core::error::ConfirmationError;
use walrus_core::intent::storage_intent;
use walrus_core::intent::Intent;
use walrus_core::intent::IntentAppId;
use walrus_core::intent::IntentType;
use walrus_core::intent::IntentVersion;
use walrus_core::messages::sign;
use walrus_core::messages::BlobId;
use walrus_core::messages::Confirmation;
use walrus_core::messages::StorageConfirmation;

fn key_of(i: u16) -> u64 {
    1000 + i as u64
}

fn committee_of_four() -> Committee {
    let members = vec![
        CommitteeMember { key: key_of(0), weight: 1 },
        CommitteeMember { key: key_of(1), weight: 1 },
        CommitteeMember { key: key_of(2), weight: 1 },
        CommitteeMember { key: key_of(3), weight: 1 },
    ];
    Committee::new(7, members, 3).unwrap()
}

fn confirmation() -> Confirmation {
    Confirmation { epoch: 7, blob_id: BlobId(0xB10B), fact: StorageConfirmation::Stored }
}

fn signed_by(signer: u16) -> walrus_core::SignedStorageConfirmation {
    sign(&confirmation(), &storage_intent(), key_of(signer), signer)
}

#[test]
fn quorum_of_three_yields_verifying_certificate() {
    let committee = committee_of_four();
    let mut agg = ConfirmationAggregator::new(committee.clone(), confirmation());
    for signer in 0..3u16 {
        assert_eq!(agg.offer(&signed_by(signer)), Ok(OfferOutcome::Recorded));
    }
    assert!(agg.is_complete());
    let cert = agg.finalize().unwrap();
    assert_eq!(cert.aggregate_weight, 3);
    assert_eq!(cert.epoch, 7);
    assert_eq!(cert.blob_id, BlobId(0xB10B));
    assert_eq!(cert.signers, vec![0, 1, 2]);
    assert_eq!(verify(&cert, &committee), Ok(()));
}

#[test]
fn two_confirmations_are_no_quorum() {
    let committee = committee_of_four();
    let mut agg = ConfirmationAggregator::new(committee, confirmation());
    for signer in 0..2u16 {
        assert_eq!(agg.offer(&signed_by(signer)), Ok(OfferOutcome::Recorded));
    }
    assert!(!agg.is_complete());
    assert_eq!(agg.finalize(), Err(ConfirmationError::QuorumNotReached));
}

#[test]
fn wrong_intent_version_is_rejected() {
    let committee = committee_of_four();
    let mut agg = ConfirmationAggregator::new(committee, confirmation());
    let other_version = Intent {
        intent_type: IntentType::blob_cert_msg(),
        version: IntentVersion(9),
        app_id: IntentAppId::storage_app(),
    };
    let sc = sign(&confirmation(), &other_version, key_of(0), 0);
    assert_eq!(agg.offer(&sc), Err(ConfirmationError::IntentMismatch));
    assert_eq!(agg.weight_sum, 0);
}

#[test]
fn flipped_intent_bit_is_rejected_before_signature_checks() {
    let committee = committee_of_four();
    let mut agg = ConfirmationAggregator::new(committee, confirmation());
    for position in 0..3usize {
        for bit in 0..8u8 {
            let mut sc = signed_by(0);
            sc.message[position] ^= 1 << bit;
            assert_eq!(agg.offer(&sc), Err(ConfirmationError::IntentMismatch));
        }
    }
    assert_eq!(agg.weight_sum, 0);
}

#[test]
fn repeated_offer_is_idempotent() {
    let committee = committee_of_four();
    let mut agg = ConfirmationAggregator::new(committee, confirmation());
    let sc = signed_by(1);
    assert_eq!(agg.offer(&sc), Ok(OfferOutcome::Recorded));
    let once = agg.weight_sum;
    assert_eq!(agg.offer(&sc), Ok(OfferOutcome::Duplicate));
    assert_eq!(agg.weight_sum, once);
}

#[test]
fn equivocating_signer_adds_weight_at_most_once() {
    let committee = committee_of_four();
    let mut agg = ConfirmationAggregator::new(committee, confirmation());
    let first = signed_by(2);
    let mut differing = confirmation();
    differing.fact = StorageConfirmation::StoredAndRecoverable;
    let second = sign(&differing, &storage_intent(), key_of(2), 2);
    assert_eq!(agg.offer(&first), Ok(OfferOutcome::Recorded));
    assert_eq!(agg.offer(&second), Err(ConfirmationError::EquivocatingSigner));
    assert_eq!(agg.weight_sum, 1);
}

#[test]
fn new_signer_with_other_fact_is_a_fact_mismatch() {
    let committee = committee_of_four();
    let mut agg = ConfirmationAggregator::new(committee, confirmation());
    let mut differing = confirmation();
    differing.fact = StorageConfirmation::StoredAndRecoverable;
    let sc = sign(&differing, &storage_intent(), key_of(0), 0);
    assert_eq!(agg.offer(&sc), Err(ConfirmationError::FactMismatch));
}

#[test]
fn epoch_and_blob_mismatches_are_rejected() {
    let committee = committee_of_four();
    let mut agg = ConfirmationAggregator::new(committee, confirmation());
    let mut other_epoch = confirmation();
    other_epoch.epoch = 8;
    let sc = sign(&other_epoch, &storage_intent(), key_of(0), 0);
    assert_eq!(agg.offer(&sc), Err(ConfirmationError::EpochMismatch));
    let mut other_blob = confirmation();
    other_blob.blob_id = BlobId(0xDEAD);
    let sc = sign(&other_blob, &storage_intent(), key_of(0), 0);
    assert_eq!(agg.offer(&sc), Err(ConfirmationError::BlobIdMismatch));
}

#[test]
fn bad_signatures_and_unknown_signers_are_invalid() {
    let committee = committee_of_four();
    let mut agg = ConfirmationAggregator::new(committee, confirmation());
    let wrong_key = sign(&confirmation(), &storage_intent(), key_of(1), 0);
    assert_eq!(agg.offer(&wrong_key), Err(ConfirmationError::SignatureInvalid));
    let unknown = sign(&confirmation(), &storage_intent(), key_of(9), 9);
    assert_eq!(agg.offer(&unknown), Err(ConfirmationError::SignatureInvalid));
    let mut tampered = signed_by(0);
    tampered.signature ^= 1;
    assert_eq!(agg.offer(&tampered), Err(ConfirmationError::SignatureInvalid));
}

#[test]
fn truncated_message_is_malformed() {
    let committee = committee_of_four();
    let mut agg = ConfirmationAggregator::new(committee, confirmation());
    let mut sc = signed_by(0);
    sc.message.truncate(2);
    assert_eq!(agg.offer(&sc), Err(ConfirmationError::MalformedEncoding));
    let mut sc = signed_by(0);
    sc.message.truncate(10);
    assert_eq!(agg.offer(&sc), Err(ConfirmationError::MalformedEncoding));
    let mut sc = signed_by(0);
    sc.message[19] = 7;
    assert_eq!(agg.offer(&sc), Err(ConfirmationError::MalformedEncoding));
}

#[test]
fn offers_after_quorum_change_nothing() {
    let committee = committee_of_four();
    let mut agg = ConfirmationAggregator::new(committee.clone(), confirmation());
    for signer in 0..3u16 {
        assert_eq!(agg.offer(&signed_by(signer)), Ok(OfferOutcome::Recorded));
    }
    assert_eq!(agg.offer(&signed_by(3)), Ok(OfferOutcome::AlreadyComplete));
    let cert = agg.finalize().unwrap();
    assert_eq!(cert.aggregate_weight, 3);
    assert_eq!(cert.signers, vec![0, 1, 2]);
    assert_eq!(verify(&cert, &committee), Ok(()));
}

#[test]
fn verify_rejects_tampering_and_duplicates() {
    let committee = committee_of_four();
    let mut agg = ConfirmationAggregator::new(committee.clone(), confirmation());
    for signer in 0..3u16 {
        agg.offer(&signed_by(signer)).unwrap();
    }
    let cert = agg.finalize().unwrap();

    let mut other_fact = cert.clone();
    other_fact.fact = StorageConfirmation::StoredAndRecoverable;
    assert_eq!(verify(&other_fact, &committee), Err(ConfirmationError::QuorumNotReached));

    let mut duplicated = cert.clone();
    duplicated.signers = vec![0, 0, 1];
    assert_eq!(verify(&duplicated, &committee), Err(ConfirmationError::MalformedEncoding));

    let mut uneven = cert.clone();
    uneven.signatures.pop();
    assert_eq!(verify(&uneven, &committee), Err(ConfirmationError::MalformedEncoding));

    let other_committee = Committee::new(
        8,
        vec![CommitteeMember { key: key_of(0), weight: 1 }],
        1,
    )
    .unwrap();
    assert_eq!(verify(&cert, &other_committee), Err(ConfirmationError::EpochMismatch));
}

#[test]
fn verify_counts_only_validating_signers() {
    let committee = committee_of_four();
    let mut agg = ConfirmationAggregator::new(committee.clone(), confirmation());
    for signer in 0..3u16 {
        agg.offer(&signed_by(signer)).unwrap();
    }
    let mut cert = agg.finalize().unwrap();
    cert.signatures[0] ^= 1;
    assert_eq!(verify(&cert, &committee), Err(ConfirmationError::QuorumNotReached));
}

#[test]
fn weighted_committee_reaches_quorum_with_one_heavy_signer() {
    let members = vec![
        CommitteeMember { key: key_of(0), weight: 10 },
        CommitteeMember { key: key_of(1), weight: 1 },
    ];
    let committee = Committee::new(7, members, 10).unwrap();
    let mut agg = ConfirmationAggregator::new(committee.clone(), confirmation());
    assert_eq!(agg.offer(&signed_by(1)), Ok(OfferOutcome::Recorded));
    assert!(!agg.is_complete());
    assert_eq!(agg.offer(&signed_by(0)), Ok(OfferOutcome::Recorded));
    assert!(agg.is_complete());
    let cert = agg.finalize().unwrap();
    assert_eq!(cert.aggregate_weight, 11);
    assert_eq!(verify(&cert, &committee), Ok(()));
}

#[test]
fn committee_rejects_overflowing_weights() {
    let members = vec![
        CommitteeMember { key: 1, weight: u64::MAX },
        CommitteeMember { key: 2, weight: 1 },
    ];
    assert!(Committee::new(1, members, 1).is_none());
    let too_many = vec![CommitteeMember { key: 1, weight: 1 }; 0x10000];
    assert!(Committee::new(1, too_many, 1).is_none());
}

#[test]
fn signing_is_deterministic() {
    let a = signed_by(0);
    let b = signed_by(0);
    assert_eq!(a.signer, b.signer);
    assert_eq!(a.message, b.message);
    assert_eq!(a.signature, b.signature);
}
