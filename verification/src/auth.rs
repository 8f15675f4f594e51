//! Deterministic keyed authentication tags.
//!
//! A signer authenticates a message by publishing the tag of the message
//! under its key; the verifier, holding the same key material through the
//! committee descriptor, recomputes the tag and compares. The scheme is a
//! simple polynomial accumulator seeded with the key: it is deterministic,
//! depends on every byte of the message, and stands in for whichever
//! signature scheme the surrounding network deploys — the aggregation and
//! certificate logic only relies on tags being a function of key and
//! message.

use vstd::prelude::*;

verus! {

/// Modulus of the 64-bit accumulator.
pub const TAG_MODULUS: u128 = 0x1_0000_0000_0000_0000;

/// Multiplier folding the next byte into the accumulator.
pub const TAG_MULTIPLIER: u128 = 1099511628211;

/// One accumulator step: fold byte `b` into state `t`.
pub open spec fn spec_tag_step(t: u64, b: u8) -> u64 {
    (((t as int) * (TAG_MULTIPLIER as int) + (b as int) + 1) % (TAG_MODULUS as int)) as u64
}

/// The tag of message `m` under `key`: the accumulator seeded with the
/// key and folded over every byte of the message in order.
pub open spec fn spec_tag(key: u64, m: Seq<u8>) -> u64
    decreases m.len(),
{
    if m.len() == 0 {
        key
    } else {
        spec_tag_step(spec_tag(key, m.drop_last()), m.last())
    }
}

/// Computes the tag of `m` under `key`.
pub fn compute_tag(key: u64, m: &[u8]) -> (t: u64)
    ensures
        t == spec_tag(key, m@),
{
    let mut t: u64 = key;
    let mut i: usize = 0;
    while i < m.len()
        invariant
            i <= m@.len(),
            t == spec_tag(key, m@.take(i as int)),
        decreases m@.len() - i,
    {
        let wide: u128 = (t as u128) * TAG_MULTIPLIER + (m[i] as u128) + 1;
        let folded: u128 = wide % TAG_MODULUS;
        proof {
            assert(m@.take(i + 1).drop_last() =~= m@.take(i as int));
            assert(m@.take(i + 1).last() == m@[i as int]);
        }
        t = folded as u64;
        i = i + 1;
    }
    proof {
        assert(m@.take(m@.len() as int) =~= m@);
    }
    t
}

} // verus!
