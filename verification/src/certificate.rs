//! Confirmation certificates and their stateless verification.

use vstd::bytes::lemma_auto_spec_u16_to_from_le_bytes;
use vstd::bytes::lemma_auto_spec_u64_to_from_le_bytes;
use vstd::bytes::spec_u16_from_le_bytes;
use vstd::bytes::spec_u16_to_le_bytes;
use vstd::bytes::spec_u64_from_le_bytes;
use vstd::bytes::spec_u64_to_le_bytes;
use vstd::bytes::u16_from_le_bytes;
use vstd::bytes::u16_to_le_bytes;
use vstd::bytes::u64_from_le_bytes;
use vstd::bytes::u64_to_le_bytes;
use vstd::prelude::*;
use vstd::slice::slice_subrange;

use crate::auth::compute_tag;
use crate::auth::spec_tag;
use crate::committee::Committee;
use crate::committee::CommitteeMember;
use crate::error::ConfirmationError;
use crate::intent::spec_storage_intent;
use crate::intent::storage_intent;
use crate::messages::message_bytes;
use crate::messages::spec_decode_fact;
use crate::messages::spec_message_bytes;
use crate::messages::BlobId;
use crate::messages::Confirmation;
use crate::messages::StorageConfirmation;

verus! {

/// The finalized, transferable proof that a quorum of the committee
/// confirmed storage of a blob: the confirmed content, the distinct
/// signers, and their signatures over the intent-prefixed encoding of
/// that content. Immutable and freely copyable once created.
#[derive(Debug, Clone, PartialEq, Eq)]
pub struct ConfirmationCertificate {
    /// The epoch the confirmations were made in.
    pub epoch: u64,
    /// The confirmed blob.
    pub blob_id: BlobId,
    /// The attested fact.
    pub fact: StorageConfirmation,
    /// The contributing signer identities, strictly increasing.
    pub signers: Vec<u16>,
    /// The signers' signatures, aligned with `signers`.
    pub signatures: Vec<u64>,
    /// Summed committee weight of the contributing signers.
    pub aggregate_weight: u64,
}

impl ConfirmationCertificate {
    /// The confirmation content this certificate attests.
    pub open spec fn spec_confirmation(self) -> Confirmation {
        Confirmation { epoch: self.epoch, blob_id: self.blob_id, fact: self.fact }
    }

    /// The exact bytes every signature in this certificate is checked
    /// against.
    pub open spec fn spec_message(self) -> Seq<u8> {
        spec_message_bytes(spec_storage_intent(), self.spec_confirmation())
    }

    /// The confirmation content this certificate attests.
    pub fn confirmation(&self) -> (c: Confirmation)
        ensures
            c == self.spec_confirmation(),
    {
        Confirmation { epoch: self.epoch, blob_id: self.blob_id, fact: self.fact }
    }
}

/// A sequence of signer identities is strictly increasing — so in
/// particular free of duplicates.
pub open spec fn spec_strictly_increasing(s: Seq<u16>) -> bool {
    forall|i: int, j: int| 0 <= i < j < s.len() ==> s[i] < s[j]
}

/// Summed weight of the identities whose signature validates against the
/// committee's key material over `msg`. An identity outside the committee
/// or with an invalid signature contributes nothing.
pub open spec fn spec_valid_weight(
    members: Seq<CommitteeMember>,
    msg: Seq<u8>,
    signers: Seq<u16>,
    sigs: Seq<u64>,
) -> int
    recommends
        signers.len() == sigs.len(),
    decreases signers.len(),
{
    if signers.len() == 0 {
        0
    } else {
        spec_valid_weight(members, msg, signers.drop_last(), sigs.drop_last()) + (
        if signers.last() < members.len() && sigs.last() == spec_tag(
            members[signers.last() as int].key,
            msg,
        ) {
            members[signers.last() as int].weight as int
        } else {
            0
        })
    }
}

/// What [`verify`] returns: a malformed signer set is rejected, a
/// certificate for another epoch than the committee's is rejected, and
/// otherwise the certificate is accepted exactly when the summed weight
/// of the identities whose signature validates reaches the committee's
/// quorum threshold.
pub open spec fn spec_verify(cert: ConfirmationCertificate, committee: Committee) -> Result<
    (),
    ConfirmationError,
> {
    if cert.signers@.len() != cert.signatures@.len() || !spec_strictly_increasing(cert.signers@) {
        Err(ConfirmationError::MalformedEncoding)
    } else if cert.epoch != committee.epoch {
        Err(ConfirmationError::EpochMismatch)
    } else if spec_valid_weight(
        committee.members@,
        cert.spec_message(),
        cert.signers@,
        cert.signatures@,
    ) >= committee.quorum_threshold {
        Ok(())
    } else {
        Err(ConfirmationError::QuorumNotReached)
    }
}

/// Re-checks a certificate against a committee descriptor, with no
/// dependency on any aggregator state: it re-derives the signed bytes
/// from the certificate's content, checks every signer's signature
/// independently, sums the weights of the identities whose signature
/// verifies, and requires that sum to reach the quorum threshold.
pub fn verify(cert: &ConfirmationCertificate, committee: &Committee) -> (r: Result<
    (),
    ConfirmationError,
>)
    requires
        committee.wf(),
    ensures
        r == spec_verify(*cert, *committee),
{
    let n = cert.signers.len();
    if n != cert.signatures.len() {
        return Err(ConfirmationError::MalformedEncoding);
    }
    if n > 0 {
        let mut k: usize = 0;
        while k < n - 1
            invariant
                n == cert.signers@.len(),
                n >= 1,
                k <= n - 1,
                forall|i: int| 0 <= i < k ==> #[trigger] cert.signers@[i] < cert.signers@[i + 1],
            decreases n - k,
        {
            if cert.signers[k] >= cert.signers[k + 1] {
                proof {
                    assert(!spec_strictly_increasing(cert.signers@));
                }
                return Err(ConfirmationError::MalformedEncoding);
            }
            k = k + 1;
        }
    }
    proof {
        lemma_adjacent_implies_increasing(cert.signers@);
    }
    if cert.epoch != committee.epoch {
        return Err(ConfirmationError::EpochMismatch);
    }
    let content = cert.confirmation();
    let intent = storage_intent();
    let msg = message_bytes(&intent, &content);
    let mut summed: u128 = 0;
    let mut i: usize = 0;
    while i < n
        invariant
            n == cert.signers@.len(),
            n == cert.signatures@.len(),
            i <= n,
            committee.wf(),
            msg@ == cert.spec_message(),
            summed == spec_valid_weight(
                committee.members@,
                cert.spec_message(),
                cert.signers@.take(i as int),
                cert.signatures@.take(i as int),
            ),
            summed <= (i as int) * 0xFFFF_FFFF_FFFF_FFFFu64,
        decreases n - i,
    {
        proof {
            assert(cert.signers@.take(i + 1).drop_last() =~= cert.signers@.take(i as int));
            assert(cert.signatures@.take(i + 1).drop_last() =~= cert.signatures@.take(i as int));
            assert(cert.signers@.take(i + 1).last() == cert.signers@[i as int]);
            assert(cert.signatures@.take(i + 1).last() == cert.signatures@[i as int]);
        }
        let s = cert.signers[i];
        if (s as usize) < committee.members.len() {
            let key = committee.key_of(s);
            let tag = compute_tag(key, msg.as_slice());
            if cert.signatures[i] == tag {
                let w = committee.weight_of(s);
                summed = summed + (w as u128);
            }
        }
        i = i + 1;
    }
    proof {
        assert(cert.signers@.take(n as int) =~= cert.signers@);
        assert(cert.signatures@.take(n as int) =~= cert.signatures@);
    }
    if summed >= (committee.quorum_threshold as u128) {
        Ok(())
    } else {
        Err(ConfirmationError::QuorumNotReached)
    }
}

/// If every adjacent pair of identities is increasing, the whole sequence
/// is strictly increasing.
pub proof fn lemma_adjacent_implies_increasing(s: Seq<u16>)
    requires
        forall|i: int| 0 <= i < s.len() - 1 ==> #[trigger] s[i] < s[i + 1],
    ensures
        spec_strictly_increasing(s),
{
    assert forall|i: int, j: int| 0 <= i < j < s.len() implies s[i] < s[j] by {
        lemma_increasing_pair(s, i, j);
    }
}

proof fn lemma_increasing_pair(s: Seq<u16>, i: int, j: int)
    requires
        forall|k: int| 0 <= k < s.len() - 1 ==> #[trigger] s[k] < s[k + 1],
        0 <= i < j < s.len(),
    ensures
        s[i] < s[j],
    decreases j - i,
{
    if i + 1 < j {
        lemma_increasing_pair(s, i + 1, j);
    }
}

/// The mathematical content of a [`ConfirmationCertificate`]: the same
/// fields with the signer set and signatures as sequences.
pub struct CertificateView {
    /// The epoch the confirmations were made in.
    pub epoch: u64,
    /// The confirmed blob.
    pub blob_id: BlobId,
    /// The attested fact.
    pub fact: StorageConfirmation,
    /// The contributing signer identities.
    pub signers: Seq<u16>,
    /// The signers' signatures, aligned with `signers`.
    pub signatures: Seq<u64>,
    /// Summed committee weight of the contributing signers.
    pub aggregate_weight: u64,
}

impl View for ConfirmationCertificate {
    type V = CertificateView;

    open spec fn view(&self) -> CertificateView {
        CertificateView {
            epoch: self.epoch,
            blob_id: self.blob_id,
            fact: self.fact,
            signers: self.signers@,
            signatures: self.signatures@,
            aggregate_weight: self.aggregate_weight,
        }
    }
}

impl CertificateView {
    /// The certificate fits the wire form: one signature per signer, and
    /// a signer count that fits the count field.
    pub open spec fn encodable(self) -> bool {
        self.signers.len() == self.signatures.len() && self.signers.len() <= 0xFFFF
    }
}

/// The wire bytes of one signer entry: identity then signature, both
/// little endian.
pub open spec fn spec_entry_bytes(signer: u16, sig: u64) -> Seq<u8> {
    spec_u16_to_le_bytes(signer) + spec_u64_to_le_bytes(sig)
}

/// The wire bytes of the first `k` signer entries, in order.
pub open spec fn spec_entries_bytes(signers: Seq<u16>, sigs: Seq<u64>, k: int) -> Seq<u8>
    decreases k,
{
    if k <= 0 {
        Seq::empty()
    } else {
        spec_entries_bytes(signers, sigs, k - 1) + spec_entry_bytes(signers[k - 1], sigs[k - 1])
    }
}

/// The certificate wire form: epoch, blob identifier, fact byte, signer
/// count, the signer entries in order, then the aggregate weight.
pub open spec fn spec_certificate_bytes(v: CertificateView) -> Seq<u8> {
    spec_u64_to_le_bytes(v.epoch) + spec_u64_to_le_bytes(v.blob_id.0) + seq![v.fact.spec_byte()]
        + spec_u16_to_le_bytes(v.signers.len() as u16) + spec_entries_bytes(
        v.signers,
        v.signatures,
        v.signers.len() as int,
    ) + spec_u64_to_le_bytes(v.aggregate_weight)
}

/// What [`decode_certificate`] returns for byte sequence `s`: the
/// certificate content `s` encodes, or nothing when the length does not
/// match the declared signer count or the fact byte lies outside its
/// repertoire.
pub open spec fn spec_decode_certificate(s: Seq<u8>) -> Option<CertificateView> {
    if s.len() < 19 {
        None
    } else {
        let n = spec_u16_from_le_bytes(s.subrange(17, 19)) as int;
        if s.len() != 27 + 10 * n || spec_decode_fact(s[16]) is None {
            None
        } else {
            Some(
                CertificateView {
                    epoch: spec_u64_from_le_bytes(s.subrange(0, 8)),
                    blob_id: BlobId(spec_u64_from_le_bytes(s.subrange(8, 16))),
                    fact: spec_decode_fact(s[16]).unwrap(),
                    signers: Seq::new(
                        n as nat,
                        |i: int| spec_u16_from_le_bytes(s.subrange(19 + 10 * i, 21 + 10 * i)),
                    ),
                    signatures: Seq::new(
                        n as nat,
                        |i: int| spec_u64_from_le_bytes(s.subrange(21 + 10 * i, 29 + 10 * i)),
                    ),
                    aggregate_weight: spec_u64_from_le_bytes(s.subrange(19 + 10 * n, 27 + 10 * n)),
                },
            )
        }
    }
}

/// The signer-entry region is ten bytes per entry.
pub proof fn lemma_entries_bytes_len(signers: Seq<u16>, sigs: Seq<u64>, k: int)
    requires
        0 <= k,
    ensures
        spec_entries_bytes(signers, sigs, k).len() == 10 * k,
    decreases k,
{
    lemma_auto_spec_u16_to_from_le_bytes();
    lemma_auto_spec_u64_to_from_le_bytes();
    if k > 0 {
        lemma_entries_bytes_len(signers, sigs, k - 1);
    }
}

/// Each entry stands at its own ten-byte offset of the entry region.
proof fn lemma_entries_bytes_chunk(signers: Seq<u16>, sigs: Seq<u64>, k: int, i: int)
    requires
        0 <= i < k,
    ensures
        spec_entries_bytes(signers, sigs, k).subrange(10 * i, 10 * i + 10) == spec_entry_bytes(
            signers[i],
            sigs[i],
        ),
    decreases k,
{
    lemma_auto_spec_u16_to_from_le_bytes();
    lemma_auto_spec_u64_to_from_le_bytes();
    lemma_entries_bytes_len(signers, sigs, k);
    lemma_entries_bytes_len(signers, sigs, k - 1);
    if i == k - 1 {
        assert(spec_entries_bytes(signers, sigs, k).subrange(10 * i, 10 * i + 10)
            =~= spec_entry_bytes(signers[i], sigs[i]));
    } else {
        lemma_entries_bytes_chunk(signers, sigs, k - 1, i);
        assert(spec_entries_bytes(signers, sigs, k).subrange(10 * i, 10 * i + 10)
            =~= spec_entries_bytes(signers, sigs, k - 1).subrange(10 * i, 10 * i + 10));
    }
}

/// Law: encoding a certificate and decoding the bytes again reproduces
/// the original value exactly.
pub proof fn lemma_certificate_round_trip(v: CertificateView)
    requires
        v.encodable(),
    ensures
        spec_decode_certificate(spec_certificate_bytes(v)) == Some(v),
{
    lemma_auto_spec_u16_to_from_le_bytes();
    lemma_auto_spec_u64_to_from_le_bytes();
    let n = v.signers.len() as int;
    let s = spec_certificate_bytes(v);
    lemma_entries_bytes_len(v.signers, v.signatures, n);
    assert(s.len() == 27 + 10 * n);
    assert(s.subrange(17, 19) =~= spec_u16_to_le_bytes(n as u16));
    assert(spec_u16_from_le_bytes(s.subrange(17, 19)) == n as u16);
    assert(s.subrange(0, 8) =~= spec_u64_to_le_bytes(v.epoch));
    assert(s.subrange(8, 16) =~= spec_u64_to_le_bytes(v.blob_id.0));
    assert(s[16] == v.fact.spec_byte());
    assert(spec_decode_fact(v.fact.spec_byte()) == Some(v.fact));
    assert(s.subrange(19 + 10 * n, 27 + 10 * n) =~= spec_u64_to_le_bytes(v.aggregate_weight));
    let d = spec_decode_certificate(s).unwrap();
    assert forall|i: int| 0 <= i < n implies d.signers[i] == v.signers[i] && d.signatures[i]
        == v.signatures[i] by {
        lemma_entries_bytes_chunk(v.signers, v.signatures, n, i);
        assert(s.subrange(19 + 10 * i, 29 + 10 * i) =~= spec_entries_bytes(
            v.signers,
            v.signatures,
            n,
        ).subrange(10 * i, 10 * i + 10));
        assert(s.subrange(19 + 10 * i, 21 + 10 * i) =~= s.subrange(19 + 10 * i, 29 + 10 * i)
            .subrange(0, 2));
        assert(s.subrange(21 + 10 * i, 29 + 10 * i) =~= s.subrange(19 + 10 * i, 29 + 10 * i)
            .subrange(2, 10));
        assert(spec_entry_bytes(v.signers[i], v.signatures[i]).subrange(0, 2)
            =~= spec_u16_to_le_bytes(v.signers[i]));
        assert(spec_entry_bytes(v.signers[i], v.signatures[i]).subrange(2, 10)
            =~= spec_u64_to_le_bytes(v.signatures[i]));
    }
    assert(d.signers =~= v.signers);
    assert(d.signatures =~= v.signatures);
}

/// Serializes a certificate in its wire form.
pub fn encode_certificate(cert: &ConfirmationCertificate) -> (b: Vec<u8>)
    requires
        cert@.encodable(),
    ensures
        b@ == spec_certificate_bytes(cert@),
{
    proof {
        lemma_auto_spec_u16_to_from_le_bytes();
        lemma_auto_spec_u64_to_from_le_bytes();
    }
    let n = cert.signers.len();
    let mut b = u64_to_le_bytes(cert.epoch);
    let mut blob = u64_to_le_bytes(cert.blob_id.0);
    b.append(&mut blob);
    b.push(cert.fact.to_byte());
    let mut count = u16_to_le_bytes(n as u16);
    b.append(&mut count);
    let ghost header = b@;
    let mut i: usize = 0;
    while i < n
        invariant
            n == cert@.signers.len(),
            cert@.encodable(),
            i <= n,
            b@ == header + spec_entries_bytes(cert@.signers, cert@.signatures, i as int),
        decreases n - i,
    {
        let mut sb = u16_to_le_bytes(cert.signers[i]);
        b.append(&mut sb);
        let mut gb = u64_to_le_bytes(cert.signatures[i]);
        b.append(&mut gb);
        proof {
            assert(b@ =~= header + spec_entries_bytes(cert@.signers, cert@.signatures, i + 1));
        }
        i = i + 1;
    }
    let mut wb = u64_to_le_bytes(cert.aggregate_weight);
    b.append(&mut wb);
    proof {
        assert(b@ =~= spec_certificate_bytes(cert@));
    }
    b
}

/// Parses a certificate wire form, rejecting any byte count that does not
/// match the declared signer count and any fact byte outside the
/// repertoire.
pub fn decode_certificate(bytes: &[u8]) -> (r: Option<ConfirmationCertificate>)
    ensures
        match r {
            Some(cert) => spec_decode_certificate(bytes@) == Some(cert@),
            None => spec_decode_certificate(bytes@) is None,
        },
{
    proof {
        lemma_auto_spec_u16_to_from_le_bytes();
        lemma_auto_spec_u64_to_from_le_bytes();
    }
    if bytes.len() < 19 {
        return None;
    }
    let n16 = u16_from_le_bytes(slice_subrange(bytes, 17, 19));
    let n = n16 as usize;
    if bytes.len() != 27 + 10 * n {
        return None;
    }
    let fact = match bytes[16] {
        0 => StorageConfirmation::Stored,
        1 => StorageConfirmation::StoredAndRecoverable,
        _ => { return None },
    };
    let epoch = u64_from_le_bytes(slice_subrange(bytes, 0, 8));
    let blob = u64_from_le_bytes(slice_subrange(bytes, 8, 16));
    let mut signers: Vec<u16> = Vec::new();
    let mut signatures: Vec<u64> = Vec::new();
    let mut i: usize = 0;
    while i < n
        invariant
            i <= n,
            n <= 0xFFFF,
            bytes@.len() == 27 + 10 * n,
            signers@ == Seq::new(
                i as nat,
                |j: int| spec_u16_from_le_bytes(bytes@.subrange(19 + 10 * j, 21 + 10 * j)),
            ),
            signatures@ == Seq::new(
                i as nat,
                |j: int| spec_u64_from_le_bytes(bytes@.subrange(21 + 10 * j, 29 + 10 * j)),
            ),
        decreases n - i,
    {
        let s = u16_from_le_bytes(slice_subrange(bytes, 19 + 10 * i, 21 + 10 * i));
        let g = u64_from_le_bytes(slice_subrange(bytes, 21 + 10 * i, 29 + 10 * i));
        signers.push(s);
        signatures.push(g);
        proof {
            assert(signers@ =~= Seq::new(
                (i + 1) as nat,
                |j: int| spec_u16_from_le_bytes(bytes@.subrange(19 + 10 * j, 21 + 10 * j)),
            ));
            assert(signatures@ =~= Seq::new(
                (i + 1) as nat,
                |j: int| spec_u64_from_le_bytes(bytes@.subrange(21 + 10 * j, 29 + 10 * j)),
            ));
        }
        i = i + 1;
    }
    let weight = u64_from_le_bytes(slice_subrange(bytes, 19 + 10 * n, 27 + 10 * n));
    let cert = ConfirmationCertificate {
        epoch,
        blob_id: BlobId(blob),
        fact,
        signers,
        signatures,
        aggregate_weight: weight,
    };
    proof {
        let d = spec_decode_certificate(bytes@).unwrap();
        assert(cert@.signers =~= d.signers);
        assert(cert@.signatures =~= d.signatures);
    }
    Some(cert)
}

/// Law: a well-shaped certificate for the committee's epoch is accepted
/// by [`verify`] exactly when the summed weight of the identities whose
/// signature validates reaches the quorum threshold.
pub proof fn lemma_verify_accepts_iff_quorum(cert: ConfirmationCertificate, committee: Committee)
    requires
        cert.signers@.len() == cert.signatures@.len(),
        spec_strictly_increasing(cert.signers@),
        cert.epoch == committee.epoch,
    ensures
        spec_verify(cert, committee) == Ok::<(), ConfirmationError>(()) <==> spec_valid_weight(
            committee.members@,
            cert.spec_message(),
            cert.signers@,
            cert.signatures@,
        ) >= committee.quorum_threshold,
{
}

} // verus!
