//! Committee descriptors: who may sign for an epoch and with what weight.

use vstd::prelude::*;

verus! {

/// Largest number of members a committee may have, so that a member index
/// always fits the signer identity width on the wire.
pub const MAX_COMMITTEE_SIZE: usize = 0xFFFF;

/// One authorized signer: its key material and its voting weight.
#[derive(Debug, Clone, Copy, PartialEq, Eq, Structural)]
pub struct CommitteeMember {
    /// Key material the verifier holds for this signer.
    pub key: u64,
    /// The signer's voting weight.
    pub weight: u64,
}

/// Sum of the weights of all members.
pub open spec fn spec_total_weight(members: Seq<CommitteeMember>) -> int
    decreases members.len(),
{
    if members.len() == 0 {
        0
    } else {
        spec_total_weight(members.drop_last()) + members.last().weight
    }
}

/// The signers authorized for one epoch, their weights, and the quorum
/// rule. Identities are indices into `members`.
#[derive(Debug, Clone)]
pub struct Committee {
    /// The epoch this committee signs for.
    pub epoch: u64,
    /// The authorized signers, indexed by identity.
    pub members: Vec<CommitteeMember>,
    /// Sum of all member weights.
    pub total_weight: u64,
    /// Minimum summed weight of valid signers for a certificate to be
    /// accepted.
    pub quorum_threshold: u64,
}

impl Committee {
    /// Well-formedness: the member count fits the identity width and the
    /// recorded total is the actual sum of weights (so every partial sum
    /// of distinct members' weights fits in a machine word).
    pub open spec fn wf(self) -> bool {
        &&& self.members@.len() <= MAX_COMMITTEE_SIZE
        &&& self.total_weight == spec_total_weight(self.members@)
    }

    /// Builds a committee descriptor, computing the total weight. Returns
    /// nothing when the membership is too large or the summed weight
    /// overflows.
    pub fn new(epoch: u64, members: Vec<CommitteeMember>, quorum_threshold: u64) -> (r: Option<
        Committee,
    >)
        ensures
            match r {
                Some(c) => {
                    &&& c.wf()
                    &&& c.epoch == epoch
                    &&& c.members == members
                    &&& c.quorum_threshold == quorum_threshold
                },
                None => members@.len() > MAX_COMMITTEE_SIZE || spec_total_weight(members@)
                    > u64::MAX,
            },
    {
        if members.len() > MAX_COMMITTEE_SIZE {
            return None;
        }
        let mut total: u64 = 0;
        let mut i: usize = 0;
        while i < members.len()
            invariant
                i <= members@.len(),
                total == spec_total_weight(members@.take(i as int)),
            decreases members@.len() - i,
        {
            proof {
                assert(members@.take(i + 1).drop_last() =~= members@.take(i as int));
            }
            total = match total.checked_add(members[i].weight) {
                Some(t) => t,
                None => {
                    proof {
                        lemma_total_weight_monotone(members@, i + 1);
                    }
                    return None;
                },
            };
            i = i + 1;
        }
        proof {
            assert(members@.take(members@.len() as int) =~= members@);
        }
        Some(Committee { epoch, members, total_weight: total, quorum_threshold })
    }

    /// The number of authorized signers.
    pub fn size(&self) -> (n: usize)
        ensures
            n == self.members@.len(),
    {
        self.members.len()
    }

    /// The key material recorded for a signer identity.
    pub fn key_of(&self, identity: u16) -> (k: u64)
        requires
            identity < self.members@.len(),
        ensures
            k == self.members@[identity as int].key,
    {
        self.members[identity as usize].key
    }

    /// The voting weight recorded for a signer identity.
    pub fn weight_of(&self, identity: u16) -> (w: u64)
        requires
            identity < self.members@.len(),
        ensures
            w == self.members@[identity as int].weight,
    {
        self.members[identity as usize].weight
    }

    /// The summed weight of the whole committee.
    pub fn total_weight(&self) -> (w: u64)
        ensures
            w == self.total_weight,
    {
        self.total_weight
    }

    /// The minimum summed weight of valid signers for a certificate to
    /// be accepted.
    pub fn quorum_threshold(&self) -> (t: u64)
        ensures
            t == self.quorum_threshold,
    {
        self.quorum_threshold
    }
}

/// A prefix's total weight never exceeds any longer prefix's.
pub proof fn lemma_total_weight_monotone(members: Seq<CommitteeMember>, n: int)
    requires
        0 <= n <= members.len(),
    ensures
        spec_total_weight(members.take(n)) <= spec_total_weight(members),
    decreases members.len() - n,
{
    if n < members.len() {
        lemma_total_weight_monotone(members, n + 1);
        assert(members.take(n + 1).drop_last() =~= members.take(n));
    } else {
        assert(members.take(n) =~= members);
    }
}

} // verus!
