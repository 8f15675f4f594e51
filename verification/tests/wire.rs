use walrus_core::aggregator::ConfirmationAggregator;
use walrus_core::certificate::decode_certificate;
use walrus_core::certificate::encode_certificate;
use walrus_core::certificate::ConfirmationCertificate;
use walrus_core::committee::Committee;
use walrus_core::committee::CommitteeMember;
use walrus_core::intent::decode_intent;
use walrus_core::intent::storage_intent;
use walrus_core::intent::Intent;
use walrus_core::intent::IntentAppId;
use walrus_core::intent::IntentType;
use walrus_core::intent::IntentVersion;
use walrus_core::messages::decode_confirmation;
use walrus_core::messages::message_bytes;
use walrus_core::messages::sign;
use walrus_core::messages::BlobId;
use walrus_core::messages::Confirmation;
use walrus_core::messages::StorageConfirmation;

#[test]
fn intent_encodes_to_its_three_components() {
    let intent = storage_intent();
    let bytes = intent.to_bytes();
    assert_eq!(bytes, vec![1, 0, 3]);
}

#[test]
fn intent_round_trips() {
    let intent = storage_intent();
    assert_eq!(decode_intent(&intent.to_bytes()), Some(intent));
}

#[test]
fn intent_decoding_rejects_unknown_values() {
    assert_eq!(decode_intent(&[2, 0, 3]), None);
    assert_eq!(decode_intent(&[1, 1, 3]), None);
    assert_eq!(decode_intent(&[1, 0, 4]), None);
    assert_eq!(decode_intent(&[1, 0]), None);
    assert_eq!(decode_intent(&[1, 0, 3, 0]), None);
}

#[test]
fn confirmation_round_trips() {
    let c = Confirmation {
        epoch: 7,
        blob_id: BlobId(0xB10B),
        fact: StorageConfirmation::StoredAndRecoverable,
    };
    assert_eq!(decode_confirmation(&c.to_bytes()), Some(c));
}

#[test]
fn confirmation_decoding_rejects_bad_fact_and_length() {
    let c = Confirmation { epoch: 7, blob_id: BlobId(1), fact: StorageConfirmation::Stored };
    let mut bytes = c.to_bytes();
    bytes[16] = 2;
    assert_eq!(decode_confirmation(&bytes), None);
    let mut short = c.to_bytes();
    short.pop();
    assert_eq!(decode_confirmation(&short), None);
}

#[test]
fn signed_message_is_intent_then_confirmation() {
    let c = Confirmation { epoch: 7, blob_id: BlobId(2), fact: StorageConfirmation::Stored };
    let intent = storage_intent();
    let msg = message_bytes(&intent, &c);
    assert_eq!(msg.len(), 20);
    assert_eq!(&msg[0..3], &intent.to_bytes()[..]);
    assert_eq!(&msg[3..], &c.to_bytes()[..]);
    let sc = sign(&c, &intent, 42, 5);
    assert_eq!(sc.message, msg);
    assert_eq!(sc.signer, 5);
}

#[test]
fn certificate_round_trips() {
    let committee = Committee::new(
        7,
        vec![
            CommitteeMember { key: 10, weight: 1 },
            CommitteeMember { key: 11, weight: 1 },
            CommitteeMember { key: 12, weight: 1 },
        ],
        2,
    )
    .unwrap();
    let content = Confirmation { epoch: 7, blob_id: BlobId(3), fact: StorageConfirmation::Stored };
    let mut agg = ConfirmationAggregator::new(committee, content);
    agg.offer(&sign(&content, &storage_intent(), 10, 0)).unwrap();
    agg.offer(&sign(&content, &storage_intent(), 12, 2)).unwrap();
    let cert = agg.finalize().unwrap();
    let bytes = encode_certificate(&cert);
    assert_eq!(decode_certificate(&bytes), Some(cert));
}

#[test]
fn empty_certificate_round_trips() {
    let cert = ConfirmationCertificate {
        epoch: 0,
        blob_id: BlobId(0),
        fact: StorageConfirmation::Stored,
        signers: vec![],
        signatures: vec![],
        aggregate_weight: 0,
    };
    let bytes = encode_certificate(&cert);
    assert_eq!(bytes.len(), 27);
    assert_eq!(decode_certificate(&bytes), Some(cert));
}

#[test]
fn certificate_decoding_rejects_malformed_bytes() {
    let cert = ConfirmationCertificate {
        epoch: 9,
        blob_id: BlobId(9),
        fact: StorageConfirmation::StoredAndRecoverable,
        signers: vec![1, 4],
        signatures: vec![77, 88],
        aggregate_weight: 2,
    };
    let bytes = encode_certificate(&cert);
    assert_eq!(bytes.len(), 27 + 10 * 2);

    let mut truncated = bytes.clone();
    truncated.pop();
    assert_eq!(decode_certificate(&truncated), None);

    let mut trailing = bytes.clone();
    trailing.push(0);
    assert_eq!(decode_certificate(&trailing), None);

    let mut bad_fact = bytes.clone();
    bad_fact[16] = 9;
    assert_eq!(decode_certificate(&bad_fact), None);

    assert_eq!(decode_certificate(&bytes[..10]), None);
}

#[test]
fn intent_storage_uses_default_version_and_storage_app() {
    let intent = Intent::storage(IntentType::blob_cert_msg());
    assert_eq!(intent.intent_type, IntentType(1));
    assert_eq!(intent.version, IntentVersion(0));
    assert_eq!(intent.app_id, IntentAppId(3));
    assert_eq!(intent, storage_intent());
}
