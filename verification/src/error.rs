//! Typed outcomes for rejected confirmations and failed verification.

use vstd::prelude::*;

verus! {

/// Why a confirmation or a certificate was rejected. Every rejection is
/// local to the offending message or certificate; none aborts an
/// accumulator.
#[derive(Debug, Clone, Copy, PartialEq, Eq, Structural)]
pub enum ConfirmationError {
    /// The three-byte prefix of the signed message is not the intent
    /// expected for this message kind.
    IntentMismatch,
    /// The bytes do not parse as the expected encoding.
    MalformedEncoding,
    /// The confirmation speaks of a different epoch than the one being
    /// accumulated or verified.
    EpochMismatch,
    /// The confirmation speaks of a different blob than the one being
    /// accumulated.
    BlobIdMismatch,
    /// The confirmation attests a different fact than the one being
    /// accumulated.
    FactMismatch,
    /// The signature does not verify under the committee's recorded key
    /// for the named signer, or the signer is not in the committee.
    SignatureInvalid,
    /// The signer already contributed a different confirmation; the new
    /// one is rejected and no weight is added twice.
    EquivocatingSigner,
    /// The summed weight of valid signers has not reached the quorum
    /// threshold.
    QuorumNotReached,
}

} // verus!
