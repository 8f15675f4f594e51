//! Confirmations and their signed, intent-prefixed encoding.

use vstd::bytes::lemma_auto_spec_u64_to_from_le_bytes;
use vstd::bytes::spec_u64_from_le_bytes;
use vstd::bytes::spec_u64_to_le_bytes;
use vstd::bytes::u64_from_le_bytes;
use vstd::bytes::u64_to_le_bytes;
use vstd::prelude::*;
use vstd::slice::slice_subrange;

use crate::auth::spec_tag;
use crate::auth::compute_tag;
use crate::intent::Intent;

verus! {

/// Number of bytes in the canonical encoding of a [`Confirmation`].
pub const CONFIRMATION_BYTES: usize = 17;

/// Number of bytes in an intent-prefixed confirmation message.
pub const MESSAGE_BYTES: usize = 20;

/// Identifier of a stored blob.
#[derive(Debug, Clone, Copy, PartialEq, Eq, Structural)]
pub struct BlobId(pub u64);

/// The fact a storage node attests to for a blob.
#[derive(Debug, Clone, Copy, PartialEq, Eq, Structural)]
pub enum StorageConfirmation {
    /// The node holds the blob's shards assigned to it.
    Stored,
    /// The node holds the shards and has re-read them successfully.
    StoredAndRecoverable,
}

impl StorageConfirmation {
    /// The wire byte of the attested fact.
    pub open spec fn spec_byte(self) -> u8 {
        match self {
            StorageConfirmation::Stored => 0,
            StorageConfirmation::StoredAndRecoverable => 1,
        }
    }

    /// Serializes the attested fact as one byte.
    pub fn to_byte(&self) -> (b: u8)
        ensures
            b == self.spec_byte(),
    {
        match self {
            StorageConfirmation::Stored => 0,
            StorageConfirmation::StoredAndRecoverable => 1,
        }
    }
}

/// What a byte decodes to as an attested fact, if anything.
pub open spec fn spec_decode_fact(b: u8) -> Option<StorageConfirmation> {
    if b == 0 {
        Some(StorageConfirmation::Stored)
    } else if b == 1 {
        Some(StorageConfirmation::StoredAndRecoverable)
    } else {
        None
    }
}

/// The semantic content a storage node attests to. Immutable once
/// constructed.
#[derive(Debug, Clone, Copy, PartialEq, Eq, Structural)]
pub struct Confirmation {
    /// The epoch in which the attestation was made.
    pub epoch: u64,
    /// The blob the attestation is about.
    pub blob_id: BlobId,
    /// The attested fact.
    pub fact: StorageConfirmation,
}

impl Confirmation {
    /// The canonical encoding: epoch, blob identifier (both little
    /// endian), then the fact byte.
    pub open spec fn spec_bytes(self) -> Seq<u8> {
        spec_u64_to_le_bytes(self.epoch) + spec_u64_to_le_bytes(self.blob_id.0) + seq![
            self.fact.spec_byte(),
        ]
    }

    /// Serializes the confirmation canonically.
    pub fn to_bytes(&self) -> (b: Vec<u8>)
        ensures
            b@ == self.spec_bytes(),
            b@.len() == CONFIRMATION_BYTES,
    {
        proof {
            lemma_auto_spec_u64_to_from_le_bytes();
        }
        let mut b = u64_to_le_bytes(self.epoch);
        let mut blob = u64_to_le_bytes(self.blob_id.0);
        b.append(&mut blob);
        b.push(self.fact.to_byte());
        proof {
            assert(b@ =~= self.spec_bytes());
        }
        b
    }
}

/// What [`decode_confirmation`] returns for byte sequence `s`.
pub open spec fn spec_decode_confirmation(s: Seq<u8>) -> Option<Confirmation> {
    if s.len() == CONFIRMATION_BYTES && spec_decode_fact(s[16]) is Some {
        Some(
            Confirmation {
                epoch: spec_u64_from_le_bytes(s.subrange(0, 8)),
                blob_id: BlobId(spec_u64_from_le_bytes(s.subrange(8, 16))),
                fact: spec_decode_fact(s[16]).unwrap(),
            },
        )
    } else {
        None
    }
}

/// Parses a canonical confirmation encoding, rejecting any other length
/// and any fact byte outside the repertoire.
pub fn decode_confirmation(bytes: &[u8]) -> (r: Option<Confirmation>)
    ensures
        r == spec_decode_confirmation(bytes@),
{
    if bytes.len() != CONFIRMATION_BYTES {
        return None;
    }
    let fact = match bytes[16] {
        0 => StorageConfirmation::Stored,
        1 => StorageConfirmation::StoredAndRecoverable,
        _ => { return None },
    };
    let epoch = u64_from_le_bytes(slice_subrange(bytes, 0, 8));
    let blob = u64_from_le_bytes(slice_subrange(bytes, 8, 16));
    Some(Confirmation { epoch, blob_id: BlobId(blob), fact })
}

/// Law: encoding a confirmation and decoding the bytes again reproduces
/// the original value exactly.
pub proof fn lemma_confirmation_round_trip(c: Confirmation)
    ensures
        spec_decode_confirmation(c.spec_bytes()) == Some(c),
{
    lemma_auto_spec_u64_to_from_le_bytes();
    let s = c.spec_bytes();
    assert(s.subrange(0, 8) =~= spec_u64_to_le_bytes(c.epoch));
    assert(s.subrange(8, 16) =~= spec_u64_to_le_bytes(c.blob_id.0));
    assert(s[16] == c.fact.spec_byte());
}

/// Law: decoding is the inverse of encoding on its whole domain — any
/// bytes that decode to a confirmation are exactly that confirmation's
/// canonical encoding. Together with [`lemma_confirmation_round_trip`]
/// this makes the canonical encoding injective.
pub proof fn lemma_decode_inverts_encode(s: Seq<u8>, c: Confirmation)
    requires
        spec_decode_confirmation(s) == Some(c),
    ensures
        s == c.spec_bytes(),
{
    lemma_auto_spec_u64_to_from_le_bytes();
    assert(spec_u64_to_le_bytes(spec_u64_from_le_bytes(s.subrange(0, 8))) == s.subrange(0, 8));
    assert(spec_u64_to_le_bytes(spec_u64_from_le_bytes(s.subrange(8, 16))) == s.subrange(8, 16));
    assert(s =~= c.spec_bytes());
}

/// The exact bytes that are signed: the intent prefix followed by the
/// canonical encoding of the confirmation.
pub open spec fn spec_message_bytes(intent: Intent, c: Confirmation) -> Seq<u8> {
    intent.spec_bytes() + c.spec_bytes()
}

/// Builds the intent-prefixed signing message for a confirmation.
pub fn message_bytes(intent: &Intent, c: &Confirmation) -> (b: Vec<u8>)
    ensures
        b@ == spec_message_bytes(*intent, *c),
        b@.len() == MESSAGE_BYTES,
{
    let mut b = intent.to_bytes();
    let mut payload = c.to_bytes();
    b.append(&mut payload);
    proof {
        assert(b@ =~= spec_message_bytes(*intent, *c));
    }
    b
}

/// A confirmation together with the signer's identity and the signer's
/// tag over the intent-prefixed encoding. Owned by whoever received it
/// over the network.
#[derive(Debug, Clone)]
pub struct SignedStorageConfirmation {
    /// Index of the signer in the epoch's committee.
    pub signer: u16,
    /// The intent-prefixed message bytes the signer authenticated.
    pub message: Vec<u8>,
    /// The signer's tag over `message`.
    pub signature: u64,
}

/// The mathematical content of a [`SignedStorageConfirmation`]: the same
/// fields with the message as a byte sequence.
pub struct SignedConfirmationView {
    /// Index of the signer in the epoch's committee.
    pub signer: u16,
    /// The intent-prefixed message bytes the signer authenticated.
    pub message: Seq<u8>,
    /// The signer's tag over `message`.
    pub signature: u64,
}

impl View for SignedStorageConfirmation {
    type V = SignedConfirmationView;

    open spec fn view(&self) -> SignedConfirmationView {
        SignedConfirmationView {
            signer: self.signer,
            message: self.message@,
            signature: self.signature,
        }
    }
}

/// What [`sign`] returns, field by field.
pub open spec fn spec_sign(c: Confirmation, intent: Intent, key: u64, signer: u16) -> (
    Seq<u8>,
    u64,
) {
    (spec_message_bytes(intent, c), spec_tag(key, spec_message_bytes(intent, c)))
}

/// Produces a signed confirmation: the intent-prefixed encoding of the
/// confirmation, tagged under the node's key. Deterministic given
/// identical inputs.
pub fn sign(c: &Confirmation, intent: &Intent, key: u64, signer: u16) -> (sc:
    SignedStorageConfirmation)
    ensures
        sc.signer == signer,
        (sc.message@, sc.signature) == spec_sign(*c, *intent, key, signer),
{
    let message = message_bytes(intent, c);
    let signature = compute_tag(key, message.as_slice());
    SignedStorageConfirmation { signer, message, signature }
}

} // verus!
