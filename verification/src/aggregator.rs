//! The certificate aggregator: a stateful accumulator that ingests signed
//! confirmations, verifies them against a committee, deduplicates by
//! signer, and emits a certificate once the accumulated weight crosses the
//! quorum threshold.

use vstd::prelude::*;
use vstd::slice::slice_subrange;

use crate::auth::compute_tag;
use crate::auth::spec_tag;
use crate::certificate::ConfirmationCertificate;
use crate::committee::lemma_total_weight_monotone;
use crate::committee::spec_total_weight;
use crate::committee::Committee;
use crate::committee::CommitteeMember;
use crate::error::ConfirmationError;
use crate::certificate::spec_strictly_increasing;
use crate::certificate::spec_valid_weight;
use crate::certificate::spec_verify;
use crate::intent::spec_storage_intent;
use crate::intent::BLOB_CERT_MSG;
use crate::intent::DEFAULT_INTENT_VERSION;
use crate::intent::STORAGE_APP_ID;
use crate::messages::decode_confirmation;
use crate::messages::lemma_confirmation_round_trip;
use crate::messages::lemma_decode_inverts_encode;
use crate::messages::spec_decode_confirmation;
use crate::messages::spec_message_bytes;
use crate::messages::spec_sign;
use crate::messages::Confirmation;
use crate::messages::SignedConfirmationView;
use crate::messages::SignedStorageConfirmation;

verus! {

/// How an accepted confirmation was folded in.
#[derive(Debug, Clone, Copy, PartialEq, Eq, Structural)]
pub enum OfferOutcome {
    /// The signer was new: its confirmation was recorded and its weight
    /// added.
    Recorded,
    /// The signer had already contributed the identical confirmation; the
    /// offer changed nothing.
    Duplicate,
    /// Quorum had already been reached; the offer was accepted but
    /// changed nothing.
    AlreadyComplete,
}

/// Summed weight of the members whose entry is recorded.
pub open spec fn spec_recorded_weight(members: Seq<CommitteeMember>, entries: Seq<Option<u64>>) -> int
    recommends
        entries.len() <= members.len(),
    decreases entries.len(),
{
    if entries.len() == 0 {
        0
    } else {
        spec_recorded_weight(members, entries.drop_last()) + (
        if entries.last() is Some {
            members[entries.len() - 1].weight as int
        } else {
            0
        })
    }
}

/// The identities with a recorded entry, in increasing order.
pub open spec fn spec_recorded_indices(entries: Seq<Option<u64>>) -> Seq<u16>
    decreases entries.len(),
{
    if entries.len() == 0 {
        Seq::empty()
    } else if entries.last() is Some {
        spec_recorded_indices(entries.drop_last()).push((entries.len() - 1) as u16)
    } else {
        spec_recorded_indices(entries.drop_last())
    }
}

/// The recorded signatures, in increasing order of signer identity.
pub open spec fn spec_recorded_sigs(entries: Seq<Option<u64>>) -> Seq<u64>
    decreases entries.len(),
{
    if entries.len() == 0 {
        Seq::empty()
    } else if entries.last() is Some {
        spec_recorded_sigs(entries.drop_last()).push(entries.last().unwrap())
    } else {
        spec_recorded_sigs(entries.drop_last())
    }
}

/// The mathematical state of a [`ConfirmationAggregator`].
pub struct AggregatorView {
    /// The committee's members.
    pub members: Seq<CommitteeMember>,
    /// The committee's epoch.
    pub epoch: u64,
    /// The committee's quorum threshold.
    pub quorum_threshold: u64,
    /// The exact confirmation being accumulated.
    pub confirmation: Confirmation,
    /// Per identity, the recorded signature of the first valid
    /// confirmation from that signer, if any.
    pub entries: Seq<Option<u64>>,
    /// Summed weight of the recorded signers.
    pub weight_sum: u64,
}

impl AggregatorView {
    /// The exact bytes every recorded signer authenticated.
    pub open spec fn message(self) -> Seq<u8> {
        spec_message_bytes(spec_storage_intent(), self.confirmation)
    }

    /// Well-formedness: one entry slot per member, the weight sum is the
    /// sum of the recorded members' weights, the accumulated epoch is the
    /// committee's, and every recorded signature is the signer's tag over
    /// the accumulated message.
    pub open spec fn wf(self) -> bool {
        &&& self.entries.len() == self.members.len()
        &&& self.members.len() <= 0xFFFF
        &&& spec_total_weight(self.members) <= u64::MAX
        &&& self.confirmation.epoch == self.epoch
        &&& self.weight_sum == spec_recorded_weight(self.members, self.entries)
        &&& forall|i: int|
            0 <= i < self.entries.len() && self.entries[i] is Some ==> self.entries[i]->0
                == spec_tag(self.members[i].key, self.message())
    }

    /// Quorum has been reached.
    pub open spec fn is_complete(self) -> bool {
        self.weight_sum >= self.quorum_threshold
    }
}

/// What [`ConfirmationAggregator::offer`] returns, checked in order: the
/// message must carry the expected intent prefix and a well-formed
/// payload for the accumulated epoch, blob and fact, the signature must
/// verify under the committee's key for the named signer, and a signer
/// counts only once.
pub open spec fn spec_offer_result(a: AggregatorView, sc: SignedConfirmationView) -> Result<
    OfferOutcome,
    ConfirmationError,
> {
    let m = sc.message;
    if m.len() < 3 {
        Err(ConfirmationError::MalformedEncoding)
    } else if m.subrange(0, 3) != spec_storage_intent().spec_bytes() {
        Err(ConfirmationError::IntentMismatch)
    } else if spec_decode_confirmation(m.skip(3)) is None {
        Err(ConfirmationError::MalformedEncoding)
    } else {
        let c = spec_decode_confirmation(m.skip(3)).unwrap();
        if c.epoch != a.confirmation.epoch {
            Err(ConfirmationError::EpochMismatch)
        } else if c.blob_id != a.confirmation.blob_id {
            Err(ConfirmationError::BlobIdMismatch)
        } else if sc.signer >= a.members.len() {
            Err(ConfirmationError::SignatureInvalid)
        } else if sc.signature != spec_tag(a.members[sc.signer as int].key, m) {
            Err(ConfirmationError::SignatureInvalid)
        } else if c.fact != a.confirmation.fact {
            if a.entries[sc.signer as int] is Some {
                Err(ConfirmationError::EquivocatingSigner)
            } else {
                Err(ConfirmationError::FactMismatch)
            }
        } else if a.entries[sc.signer as int] is Some {
            Ok(OfferOutcome::Duplicate)
        } else if a.is_complete() {
            Ok(OfferOutcome::AlreadyComplete)
        } else {
            Ok(OfferOutcome::Recorded)
        }
    }
}

/// The aggregator state after an offer: unchanged unless the offer was
/// recorded, in which case the signer's signature is recorded and its
/// weight added.
pub open spec fn spec_offer_next(a: AggregatorView, sc: SignedConfirmationView) -> AggregatorView {
    if spec_offer_result(a, sc) == Ok::<OfferOutcome, ConfirmationError>(OfferOutcome::Recorded) {
        AggregatorView {
            entries: a.entries.update(sc.signer as int, Some(sc.signature)),
            weight_sum: (a.weight_sum + a.members[sc.signer as int].weight) as u64,
            ..a
        }
    } else {
        a
    }
}

/// A stateful accumulator for one exact confirmation: it verifies each
/// offered signed confirmation against the committee, deduplicates by
/// signer, keeps the running weight of the recorded signers, and emits a
/// certificate once that weight reaches the quorum threshold.
#[derive(Debug, Clone)]
pub struct ConfirmationAggregator {
    /// The committee confirmations are verified against.
    pub committee: Committee,
    /// The exact confirmation being accumulated.
    pub confirmation: Confirmation,
    /// Per identity, the signature of the first valid confirmation
    /// recorded from that signer, if any.
    pub entries: Vec<Option<u64>>,
    /// Summed weight of the recorded signers.
    pub weight_sum: u64,
}

impl View for ConfirmationAggregator {
    type V = AggregatorView;

    open spec fn view(&self) -> AggregatorView {
        AggregatorView {
            members: self.committee.members@,
            epoch: self.committee.epoch,
            quorum_threshold: self.committee.quorum_threshold,
            confirmation: self.confirmation,
            entries: self.entries@,
            weight_sum: self.weight_sum,
        }
    }
}

impl ConfirmationAggregator {
    /// Starts collecting signatures over `confirmation` against
    /// `committee`. The confirmation must belong to the committee's
    /// epoch.
    pub fn new(committee: Committee, confirmation: Confirmation) -> (a: ConfirmationAggregator)
        requires
            committee.wf(),
            confirmation.epoch == committee.epoch,
        ensures
            a@.wf(),
            a@.members == committee.members@,
            a@.quorum_threshold == committee.quorum_threshold,
            a@.confirmation == confirmation,
            a@.weight_sum == 0,
            a@.entries == Seq::new(committee.members@.len(), |i: int| None::<u64>),
    {
        let n = committee.members.len();
        let mut entries: Vec<Option<u64>> = Vec::new();
        let mut i: usize = 0;
        while i < n
            invariant
                i <= n,
                entries@ =~= Seq::new(i as nat, |j: int| None::<u64>),
                spec_recorded_weight(committee.members@, entries@) == 0,
            decreases n - i,
        {
            proof {
                let next = entries@.push(None::<u64>);
                assert(next.drop_last() =~= entries@);
                assert(spec_recorded_weight(committee.members@, next) == 0);
            }
            entries.push(None);
            i = i + 1;
        }
        ConfirmationAggregator { committee, confirmation, entries, weight_sum: 0 }
    }

    /// Quorum has been reached: a certificate can be finalized.
    pub fn is_complete(&self) -> (b: bool)
        ensures
            b == self@.is_complete(),
    {
        self.weight_sum >= self.committee.quorum_threshold
    }

    /// Verifies one signed confirmation and folds it in. The result and
    /// the state change are exactly [`spec_offer_result`] and
    /// [`spec_offer_next`]: rejections leave the state untouched, a
    /// duplicate from an already-recorded signer changes nothing, and a
    /// new valid signer adds its weight exactly once.
    pub fn offer(&mut self, sc: &SignedStorageConfirmation) -> (r: Result<
        OfferOutcome,
        ConfirmationError,
    >)
        requires
            old(self)@.wf(),
        ensures
            r == spec_offer_result(old(self)@, sc@),
            final(self)@ == spec_offer_next(old(self)@, sc@),
            final(self)@.wf(),
    {
        proof {
            lemma_offer_next_wf(self@, sc@);
        }
        let m = sc.message.as_slice();
        if m.len() < 3 {
            return Err(ConfirmationError::MalformedEncoding);
        }
        if m[0] != BLOB_CERT_MSG || m[1] != DEFAULT_INTENT_VERSION || m[2] != STORAGE_APP_ID {
            proof {
                assert(sc.message@.subrange(0, 3) != spec_storage_intent().spec_bytes());
            }
            return Err(ConfirmationError::IntentMismatch);
        }
        proof {
            assert(sc.message@.subrange(0, 3) =~= spec_storage_intent().spec_bytes());
        }
        let payload = slice_subrange(m, 3, m.len());
        proof {
            assert(payload@ =~= sc.message@.skip(3));
        }
        let c = match decode_confirmation(payload) {
            Some(c) => c,
            None => { return Err(ConfirmationError::MalformedEncoding) },
        };
        if c.epoch != self.confirmation.epoch {
            return Err(ConfirmationError::EpochMismatch);
        }
        if c.blob_id != self.confirmation.blob_id {
            return Err(ConfirmationError::BlobIdMismatch);
        }
        if (sc.signer as usize) >= self.committee.members.len() {
            return Err(ConfirmationError::SignatureInvalid);
        }
        let key = self.committee.key_of(sc.signer);
        let tag = compute_tag(key, m);
        if sc.signature != tag {
            return Err(ConfirmationError::SignatureInvalid);
        }
        let recorded = self.entries[sc.signer as usize].is_some();
        if c.fact != self.confirmation.fact {
            if recorded {
                return Err(ConfirmationError::EquivocatingSigner);
            }
            return Err(ConfirmationError::FactMismatch);
        }
        if recorded {
            return Ok(OfferOutcome::Duplicate);
        }
        if self.weight_sum >= self.committee.quorum_threshold {
            return Ok(OfferOutcome::AlreadyComplete);
        }
        let w = self.committee.weight_of(sc.signer);
        proof {
            assert(c == self@.confirmation);
            lemma_decode_inverts_encode(sc.message@.skip(3), c);
            assert(sc.message@ =~= self@.message());
            lemma_recorded_weight_update(
                self@.members,
                self@.entries,
                sc.signer as int,
                sc.signature,
            );
            lemma_recorded_weight_le_total(self@.members, self@.entries.update(sc.signer as int, Some(sc.signature)));
        }
        self.entries.set(sc.signer as usize, Some(sc.signature));
        self.weight_sum = self.weight_sum + w;
        Ok(OfferOutcome::Recorded)
    }

    /// Assembles the certificate from the currently recorded signer set.
    /// Succeeds exactly when the accumulated weight has reached the
    /// quorum threshold; the signer set is whichever reached quorum
    /// first.
    pub fn finalize(&self) -> (r: Result<ConfirmationCertificate, ConfirmationError>)
        requires
            self@.wf(),
        ensures
            self@.is_complete() ==> r is Ok,
            !self@.is_complete() ==> r == Err::<ConfirmationCertificate, ConfirmationError>(
                ConfirmationError::QuorumNotReached,
            ),
            r is Ok ==> {
                let cert = r->Ok_0;
                &&& cert.epoch == self@.confirmation.epoch
                &&& cert.blob_id == self@.confirmation.blob_id
                &&& cert.fact == self@.confirmation.fact
                &&& cert.signers@ == spec_recorded_indices(self@.entries)
                &&& cert.signatures@ == spec_recorded_sigs(self@.entries)
                &&& cert.aggregate_weight == self@.weight_sum
            },
    {
        if self.weight_sum < self.committee.quorum_threshold {
            return Err(ConfirmationError::QuorumNotReached);
        }
        let mut signers: Vec<u16> = Vec::new();
        let mut signatures: Vec<u64> = Vec::new();
        let n = self.entries.len();
        let mut i: usize = 0;
        while i < n
            invariant
                i <= n,
                n == self@.entries.len(),
                self@.entries.len() <= 0xFFFF,
                signers@ == spec_recorded_indices(self@.entries.take(i as int)),
                signatures@ == spec_recorded_sigs(self@.entries.take(i as int)),
            decreases n - i,
        {
            proof {
                assert(self@.entries.take(i + 1).drop_last() =~= self@.entries.take(i as int));
                assert(self@.entries.take(i + 1).last() == self@.entries[i as int]);
            }
            match self.entries[i] {
                Some(sig) => {
                    signers.push(i as u16);
                    signatures.push(sig);
                },
                None => {},
            }
            i = i + 1;
        }
        proof {
            assert(self@.entries.take(n as int) =~= self@.entries);
        }
        Ok(
            ConfirmationCertificate {
                epoch: self.confirmation.epoch,
                blob_id: self.confirmation.blob_id,
                fact: self.confirmation.fact,
                signers,
                signatures,
                aggregate_weight: self.weight_sum,
            },
        )
    }
}

/// The recorded weight never exceeds the committee's total weight.
pub proof fn lemma_recorded_weight_le_total(
    members: Seq<CommitteeMember>,
    entries: Seq<Option<u64>>,
)
    requires
        entries.len() <= members.len(),
    ensures
        spec_recorded_weight(members, entries) <= spec_total_weight(members),
    decreases entries.len(),
{
    if entries.len() == 0 {
        lemma_total_weight_nonneg(members);
    } else {
        lemma_recorded_weight_prefix(members, entries);
        lemma_total_weight_monotone(members, entries.len() as int);
    }
}

/// The recorded weight of `entries` is at most the total weight of the
/// members with an entry slot.
proof fn lemma_recorded_weight_prefix(members: Seq<CommitteeMember>, entries: Seq<Option<u64>>)
    requires
        entries.len() <= members.len(),
    ensures
        spec_recorded_weight(members, entries) <= spec_total_weight(
            members.take(entries.len() as int),
        ),
    decreases entries.len(),
{
    if entries.len() > 0 {
        lemma_recorded_weight_prefix(members, entries.drop_last());
        assert(members.take(entries.len() as int).drop_last() =~= members.take(
            entries.len() - 1,
        ));
        assert(members.take(entries.len() as int).last() == members[entries.len() - 1]);
    }
}

/// Total weights are sums of machine words, hence nonnegative.
pub proof fn lemma_total_weight_nonneg(members: Seq<CommitteeMember>)
    ensures
        spec_total_weight(members) >= 0,
    decreases members.len(),
{
    if members.len() > 0 {
        lemma_total_weight_nonneg(members.drop_last());
    }
}

/// Recording a previously empty entry adds exactly that member's weight.
pub proof fn lemma_recorded_weight_update(
    members: Seq<CommitteeMember>,
    entries: Seq<Option<u64>>,
    i: int,
    sig: u64,
)
    requires
        entries.len() <= members.len(),
        0 <= i < entries.len(),
        entries[i] is None,
    ensures
        spec_recorded_weight(members, entries.update(i, Some(sig))) == spec_recorded_weight(
            members,
            entries,
        ) + members[i].weight,
    decreases entries.len(),
{
    let updated = entries.update(i, Some(sig));
    if i == entries.len() - 1 {
        assert(updated.drop_last() =~= entries.drop_last());
    } else {
        assert(updated.drop_last() =~= entries.drop_last().update(i, Some(sig)));
        lemma_recorded_weight_update(members, entries.drop_last(), i, sig);
        assert(updated.last() == entries.last());
    }
}

/// Offers preserve well-formedness.
pub proof fn lemma_offer_next_wf(a: AggregatorView, sc: SignedConfirmationView)
    requires
        a.wf(),
    ensures
        spec_offer_next(a, sc).wf(),
{
    if spec_offer_result(a, sc) == Ok::<OfferOutcome, ConfirmationError>(OfferOutcome::Recorded) {
        let m = sc.message;
        let c = spec_decode_confirmation(m.skip(3)).unwrap();
        assert(c == a.confirmation);
        lemma_decode_inverts_encode(m.skip(3), c);
        assert(m =~= a.message());
        lemma_recorded_weight_update(a.members, a.entries, sc.signer as int, sc.signature);
        lemma_recorded_weight_le_total(
            a.members,
            a.entries.update(sc.signer as int, Some(sc.signature)),
        );
    }
}

/// Law: offering the same signed confirmation twice yields the same state
/// — and so the same weight sum — as offering it once.
pub proof fn lemma_offer_idempotent(a: AggregatorView, sc: SignedConfirmationView)
    requires
        a.wf(),
    ensures
        spec_offer_next(spec_offer_next(a, sc), sc) == spec_offer_next(a, sc),
{
    let a1 = spec_offer_next(a, sc);
    if spec_offer_result(a, sc) == Ok::<OfferOutcome, ConfirmationError>(OfferOutcome::Recorded) {
        assert(a1.entries[sc.signer as int] is Some);
        assert(spec_offer_result(a1, sc) == Ok::<OfferOutcome, ConfirmationError>(
            OfferOutcome::Duplicate,
        ));
    }
}

/// Law: two confirmations from the same signer — equivocating or not —
/// increase the weight sum by that signer's weight at most once.
pub proof fn lemma_equivocation_adds_weight_once(
    a: AggregatorView,
    sc1: SignedConfirmationView,
    sc2: SignedConfirmationView,
)
    requires
        a.wf(),
        sc1.signer == sc2.signer,
        sc1.signer < a.members.len(),
    ensures
        spec_offer_next(spec_offer_next(a, sc1), sc2).weight_sum <= a.weight_sum + a.members[
            sc1.signer as int
        ].weight,
{
    let a1 = spec_offer_next(a, sc1);
    lemma_offer_next_wf(a, sc1);
    if spec_offer_result(a, sc1) == Ok::<OfferOutcome, ConfirmationError>(OfferOutcome::Recorded) {
        assert(a1.entries[sc2.signer as int] is Some);
        assert(spec_offer_next(a1, sc2) == a1);
    }
}

/// Law: a confirmation signed with the expected intent and the
/// committee's key material for its signer passes every check: the offer
/// is accepted (recorded, or deduplicated, or ignored after quorum), and
/// never rejected.
pub proof fn lemma_signed_offer_accepted(a: AggregatorView, sc: SignedConfirmationView)
    requires
        a.wf(),
        sc.signer < a.members.len(),
        (sc.message, sc.signature) == spec_sign(
            a.confirmation,
            spec_storage_intent(),
            a.members[sc.signer as int].key,
            sc.signer,
        ),
    ensures
        spec_offer_result(a, sc) is Ok,
{
    let m = sc.message;
    assert(m.subrange(0, 3) =~= spec_storage_intent().spec_bytes());
    assert(m.skip(3) =~= a.confirmation.spec_bytes());
    lemma_confirmation_round_trip(a.confirmation);
}

/// Law: a message whose three-byte prefix differs in any way — even a
/// single bit — from the expected intent is rejected as an intent
/// mismatch before any signature is checked, and the state does not
/// change.
pub proof fn lemma_intent_mismatch_rejected(a: AggregatorView, sc: SignedConfirmationView)
    requires
        sc.message.len() >= 3,
        sc.message.subrange(0, 3) != spec_storage_intent().spec_bytes(),
    ensures
        spec_offer_result(a, sc) == Err::<OfferOutcome, ConfirmationError>(
            ConfirmationError::IntentMismatch,
        ),
        spec_offer_next(a, sc) == a,
{
}

/// Law: a signer already recorded whose new message carries a validly
/// signed but different attested fact is rejected as an equivocating
/// signer, and the state does not change.
pub proof fn lemma_equivocation_detected(a: AggregatorView, sc: SignedConfirmationView)
    requires
        a.wf(),
        sc.signer < a.members.len(),
        a.entries[sc.signer as int] is Some,
        sc.message.len() >= 3,
        sc.message.subrange(0, 3) == spec_storage_intent().spec_bytes(),
        spec_decode_confirmation(sc.message.skip(3)) is Some,
        spec_decode_confirmation(sc.message.skip(3)).unwrap().epoch == a.confirmation.epoch,
        spec_decode_confirmation(sc.message.skip(3)).unwrap().blob_id == a.confirmation.blob_id,
        spec_decode_confirmation(sc.message.skip(3)).unwrap().fact != a.confirmation.fact,
        sc.signature == spec_tag(a.members[sc.signer as int].key, sc.message),
    ensures
        spec_offer_result(a, sc) == Err::<OfferOutcome, ConfirmationError>(
            ConfirmationError::EquivocatingSigner,
        ),
        spec_offer_next(a, sc) == a,
{
}

/// As many recorded signatures as recorded identities, and every
/// identity points into the entries.
pub proof fn lemma_recorded_shape(entries: Seq<Option<u64>>)
    requires
        entries.len() <= 0xFFFF,
    ensures
        spec_recorded_indices(entries).len() == spec_recorded_sigs(entries).len(),
        forall|k: int|
            0 <= k < spec_recorded_indices(entries).len() ==> #[trigger] spec_recorded_indices(
                entries,
            )[k] < entries.len(),
        spec_strictly_increasing(spec_recorded_indices(entries)),
        forall|k: int|
            0 <= k < spec_recorded_indices(entries).len() ==> {
                let s = #[trigger] spec_recorded_indices(entries)[k];
                &&& entries[s as int] is Some
                &&& spec_recorded_sigs(entries)[k] == entries[s as int]->0
            },
    decreases entries.len(),
{
    if entries.len() > 0 {
        lemma_recorded_shape(entries.drop_last());
    }
}

/// The summed valid weight of the recorded identities and signatures
/// equals the recorded weight, whenever every recorded signature is the
/// signer's tag over `msg`.
proof fn lemma_valid_weight_of_recorded(
    members: Seq<CommitteeMember>,
    msg: Seq<u8>,
    entries: Seq<Option<u64>>,
)
    requires
        entries.len() <= members.len(),
        members.len() <= 0xFFFF,
        forall|i: int|
            0 <= i < entries.len() && entries[i] is Some ==> #[trigger] entries[i]->0 == spec_tag(
                members[i].key,
                msg,
            ),
    ensures
        spec_valid_weight(members, msg, spec_recorded_indices(entries), spec_recorded_sigs(entries))
            == spec_recorded_weight(members, entries),
    decreases entries.len(),
{
    if entries.len() > 0 {
        lemma_valid_weight_of_recorded(members, msg, entries.drop_last());
        if entries.last() is Some {
            let ids = spec_recorded_indices(entries);
            let sigs = spec_recorded_sigs(entries);
            assert(ids.drop_last() =~= spec_recorded_indices(entries.drop_last()));
            assert(sigs.drop_last() =~= spec_recorded_sigs(entries.drop_last()));
            assert(ids.last() == (entries.len() - 1) as u16);
            assert(sigs.last() == entries.last()->0);
        }
    }
}

/// Law: a certificate assembled by a complete aggregator is accepted by
/// certificate verification against the same committee: its recorded
/// signatures all validate, their summed weight is the aggregator's
/// weight sum, and that sum has reached the quorum threshold.
pub proof fn lemma_finalized_certificate_verifies(
    a: AggregatorView,
    cert: crate::certificate::ConfirmationCertificate,
    committee: Committee,
)
    requires
        a.wf(),
        a.is_complete(),
        committee.members@ == a.members,
        committee.epoch == a.epoch,
        committee.quorum_threshold == a.quorum_threshold,
        cert.epoch == a.confirmation.epoch,
        cert.blob_id == a.confirmation.blob_id,
        cert.fact == a.confirmation.fact,
        cert.signers@ == spec_recorded_indices(a.entries),
        cert.signatures@ == spec_recorded_sigs(a.entries),
    ensures
        spec_verify(cert, committee) == Ok::<(), ConfirmationError>(()),
{
    lemma_recorded_shape(a.entries);
    assert(cert.spec_confirmation() == a.confirmation);
    assert(cert.spec_message() == a.message());
    lemma_valid_weight_of_recorded(a.members, a.message(), a.entries);
}

} // verus!
