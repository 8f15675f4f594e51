//! Signed off-chain storage confirmations and their aggregation into
//! quorum certificates.
//!
//! Storage nodes attest that they hold a blob by signing a
//! [`Confirmation`] under a domain-separating [`Intent`] prefix. A client
//! collects these [`SignedStorageConfirmation`]s in a
//! [`aggregator::ConfirmationAggregator`], which checks each one against a
//! [`committee::Committee`], deduplicates by signer, and once the summed
//! signer weight reaches the quorum threshold emits a
//! [`ConfirmationCertificate`]. Any third party can then re-check the
//! certificate with [`certificate::verify`] alone, without having seen any
//! of the original confirmations.

pub mod aggregator;
pub mod auth;
pub mod certificate;
pub mod committee;
pub mod error;
pub mod intent;
pub mod messages;
pub mod protocol;

pub use crate::certificate::ConfirmationCertificate;
pub use crate::intent::Intent;
pub use crate::messages::Confirmation;
pub use crate::messages::SignedStorageConfirmation;
pub use crate::messages::StorageConfirmation;
