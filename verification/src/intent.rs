//! Domain separation for signed messages.
//!
//! Every payload is prefixed with a three-byte [`Intent`] — message type,
//! protocol version and application id — before it is signed, so that a
//! signature can never be valid under more than one message kind, protocol
//! version or application.

use vstd::prelude::*;

verus! {

/// Reserved intent type for blob-certification messages.
pub const BLOB_CERT_MSG: u8 = 1;

/// Reserved default intent version.
pub const DEFAULT_INTENT_VERSION: u8 = 0;

/// Reserved application id for the storage subsystem.
pub const STORAGE_APP_ID: u8 = 3;

/// Type for the intent type of signed messages.
#[derive(Debug, Clone, Copy, PartialEq, Eq, Structural)]
pub struct IntentType(pub u8);

/// Type for the intent version of signed messages.
#[derive(Debug, Clone, Copy, PartialEq, Eq, Structural)]
pub struct IntentVersion(pub u8);

/// Type used to identify the app associated with a signed message.
#[derive(Debug, Clone, Copy, PartialEq, Eq, Structural)]
pub struct IntentAppId(pub u8);

impl IntentType {
    /// The value belongs to the known repertoire of intent types.
    pub open spec fn valid(self) -> bool {
        self.0 == BLOB_CERT_MSG
    }

    /// Intent type for blob-certification messages.
    pub fn blob_cert_msg() -> (t: Self)
        ensures
            t.0 == BLOB_CERT_MSG,
    {
        IntentType(BLOB_CERT_MSG)
    }
}

impl IntentVersion {
    /// The value belongs to the known repertoire of intent versions.
    pub open spec fn valid(self) -> bool {
        self.0 == DEFAULT_INTENT_VERSION
    }

    /// The default intent version.
    pub fn default_version() -> (v: Self)
        ensures
            v.0 == DEFAULT_INTENT_VERSION,
    {
        IntentVersion(DEFAULT_INTENT_VERSION)
    }
}

impl IntentAppId {
    /// The value belongs to the known repertoire of application ids.
    pub open spec fn valid(self) -> bool {
        self.0 == STORAGE_APP_ID
    }

    /// The storage application id.
    pub fn storage_app() -> (a: Self)
        ensures
            a.0 == STORAGE_APP_ID,
    {
        IntentAppId(STORAGE_APP_ID)
    }
}

impl From<IntentType> for u8 {
    fn from(value: IntentType) -> (r: u8) {
        value.0
    }
}

impl vstd::std_specs::convert::FromSpecImpl<IntentType> for u8 {
    open spec fn obeys_from_spec() -> bool {
        true
    }

    open spec fn from_spec(value: IntentType) -> u8 {
        value.0
    }
}

impl From<u8> for IntentType {
    fn from(value: u8) -> (r: IntentType) {
        IntentType(value)
    }
}

impl vstd::std_specs::convert::FromSpecImpl<u8> for IntentType {
    open spec fn obeys_from_spec() -> bool {
        true
    }

    open spec fn from_spec(value: u8) -> IntentType {
        IntentType(value)
    }
}

impl From<IntentVersion> for u8 {
    fn from(value: IntentVersion) -> (r: u8) {
        value.0
    }
}

impl vstd::std_specs::convert::FromSpecImpl<IntentVersion> for u8 {
    open spec fn obeys_from_spec() -> bool {
        true
    }

    open spec fn from_spec(value: IntentVersion) -> u8 {
        value.0
    }
}

impl From<u8> for IntentVersion {
    fn from(value: u8) -> (r: IntentVersion) {
        IntentVersion(value)
    }
}

impl vstd::std_specs::convert::FromSpecImpl<u8> for IntentVersion {
    open spec fn obeys_from_spec() -> bool {
        true
    }

    open spec fn from_spec(value: u8) -> IntentVersion {
        IntentVersion(value)
    }
}

impl From<IntentAppId> for u8 {
    fn from(value: IntentAppId) -> (r: u8) {
        value.0
    }
}

impl vstd::std_specs::convert::FromSpecImpl<IntentAppId> for u8 {
    open spec fn obeys_from_spec() -> bool {
        true
    }

    open spec fn from_spec(value: IntentAppId) -> u8 {
        value.0
    }
}

impl From<u8> for IntentAppId {
    fn from(value: u8) -> (r: IntentAppId) {
        IntentAppId(value)
    }
}

impl vstd::std_specs::convert::FromSpecImpl<u8> for IntentAppId {
    open spec fn obeys_from_spec() -> bool {
        true
    }

    open spec fn from_spec(value: u8) -> IntentAppId {
        IntentAppId(value)
    }
}

/// Message intent prepended to signed messages.
#[derive(Debug, Clone, Copy, PartialEq, Eq, Structural)]
pub struct Intent {
    /// The intent of the signed message.
    pub intent_type: IntentType,
    /// The intent version.
    pub version: IntentVersion,
    /// The app id, usually the storage app id for storage messages.
    pub app_id: IntentAppId,
}

impl Intent {
    /// Every component belongs to its known repertoire.
    pub open spec fn valid(self) -> bool {
        self.intent_type.valid() && self.version.valid() && self.app_id.valid()
    }

    /// The exact three bytes that prefix the canonical encoding of a
    /// payload signed under this intent.
    pub open spec fn spec_bytes(self) -> Seq<u8> {
        seq![self.intent_type.0, self.version.0, self.app_id.0]
    }

    /// Creates a new intent with the storage app id and the default
    /// version for the specified [`IntentType`].
    pub fn storage(intent_type: IntentType) -> (i: Self)
        ensures
            i.intent_type == intent_type,
            i.version.0 == DEFAULT_INTENT_VERSION,
            i.app_id.0 == STORAGE_APP_ID,
    {
        Intent {
            intent_type,
            version: IntentVersion::default_version(),
            app_id: IntentAppId::storage_app(),
        }
    }

    /// Serializes the intent as exactly three bytes.
    pub fn to_bytes(&self) -> (b: Vec<u8>)
        ensures
            b@ == self.spec_bytes(),
    {
        let mut b: Vec<u8> = Vec::new();
        b.push(self.intent_type.0);
        b.push(self.version.0);
        b.push(self.app_id.0);
        proof {
            assert(b@ =~= self.spec_bytes());
        }
        b
    }
}

/// The intent expected on every blob-certification message: the blob
/// certification type under the default version and the storage app id.
pub open spec fn spec_storage_intent() -> Intent {
    Intent {
        intent_type: IntentType(BLOB_CERT_MSG),
        version: IntentVersion(DEFAULT_INTENT_VERSION),
        app_id: IntentAppId(STORAGE_APP_ID),
    }
}

/// The intent expected on blob-certification messages.
pub fn storage_intent() -> (i: Intent)
    ensures
        i == spec_storage_intent(),
{
    Intent::storage(IntentType::blob_cert_msg())
}

/// What [`decode_intent`] returns: the intent whose components are the
/// three bytes of `s`, or nothing when the length is not three or a
/// component lies outside its repertoire.
pub open spec fn spec_decode_intent(s: Seq<u8>) -> Option<Intent> {
    if s.len() == 3 {
        let i = Intent {
            intent_type: IntentType(s[0]),
            version: IntentVersion(s[1]),
            app_id: IntentAppId(s[2]),
        };
        if i.valid() {
            Some(i)
        } else {
            None
        }
    } else {
        None
    }
}

/// Parses a three-byte intent prefix, rejecting values outside the known
/// repertoire.
pub fn decode_intent(bytes: &[u8]) -> (r: Option<Intent>)
    ensures
        r == spec_decode_intent(bytes@),
{
    if bytes.len() != 3 {
        return None;
    }
    let i = Intent {
        intent_type: IntentType(bytes[0]),
        version: IntentVersion(bytes[1]),
        app_id: IntentAppId(bytes[2]),
    };
    if i.intent_type.0 == BLOB_CERT_MSG && i.version.0 == DEFAULT_INTENT_VERSION && i.app_id.0
        == STORAGE_APP_ID {
        Some(i)
    } else {
        None
    }
}

/// Law: encoding a valid intent and decoding the bytes again reproduces
/// the original value exactly.
pub proof fn lemma_intent_round_trip(i: Intent)
    requires
        i.valid(),
    ensures
        spec_decode_intent(i.spec_bytes()) == Some(i),
{
}

} // verus!

