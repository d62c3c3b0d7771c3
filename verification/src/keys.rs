//! Key material as the host hands it over, and the records that the
//! protocol engine wants made of it.
//!
//! Hosts name their fields in several ways and include or omit the type
//! marker of a public key. A payload holds what survived that: bytes that
//! may or may not be there.

use crate::curve::{
    ensure_curve_key_with_prefix, normalized_key, parsed_private_key, parsed_public_key,
    KEY_TYPE_DJB,
};
use crate::errors::{Context, Reason, StoreError};
use crate::buffers::copy_bytes;
use vstd::prelude::*;
use wacore_libsignal::protocol as engine;

verus! {

/// A curve key pair: the public key in its 33-byte serialized form, the
/// private key in 32 bytes.
#[derive(Debug, Clone, PartialEq, Eq)]
pub struct KeyPair {
    pub public_key: Vec<u8>,
    pub private_key: Vec<u8>,
}

/// The identity of the local user.
#[derive(Debug, Clone, PartialEq, Eq)]
pub struct IdentityKeyPair {
    pub public_key: Vec<u8>,
    pub private_key: Vec<u8>,
}

/// A one-time pre-key.
#[derive(Debug, Clone, PartialEq, Eq)]
pub struct PreKeyRecord {
    pub id: u32,
    pub key_pair: KeyPair,
}

/// A signed pre-key.
#[derive(Debug, Clone, PartialEq, Eq)]
pub struct SignedPreKeyRecord {
    pub id: u32,
    /// Milliseconds since the Unix epoch.
    pub timestamp: u64,
    pub key_pair: KeyPair,
    pub signature: Vec<u8>,
}

/// What a key pair holds: the public key, then the private key.
pub struct KeyPairView {
    pub public_key: Seq<u8>,
    pub private_key: Seq<u8>,
}

/// What a `PreKeyRecord` holds.
pub struct PreKeyRecordView {
    pub id: u32,
    pub key_pair: KeyPairView,
}

/// What a `SignedPreKeyRecord` holds.
pub struct SignedPreKeyRecordView {
    pub id: u32,
    pub timestamp: u64,
    pub key_pair: KeyPairView,
    pub signature: Seq<u8>,
}

impl View for KeyPair {
    type V = KeyPairView;

    open spec fn view(&self) -> KeyPairView {
        KeyPairView { public_key: self.public_key@, private_key: self.private_key@ }
    }
}

impl View for IdentityKeyPair {
    type V = KeyPairView;

    open spec fn view(&self) -> KeyPairView {
        KeyPairView { public_key: self.public_key@, private_key: self.private_key@ }
    }
}

impl IdentityKeyPair {
    /// A copy of the key pair.
    pub fn duplicate(&self) -> (copy: IdentityKeyPair)
        ensures
            copy@ == self@,
    {
        IdentityKeyPair {
            public_key: copy_bytes(&self.public_key),
            private_key: copy_bytes(&self.private_key),
        }
    }
}

impl KeyPair {
    /// A copy of the key pair.
    pub fn duplicate(&self) -> (copy: KeyPair)
        ensures
            copy@ == self@,
    {
        KeyPair {
            public_key: copy_bytes(&self.public_key),
            private_key: copy_bytes(&self.private_key),
        }
    }
}

impl PreKeyRecord {
    /// A copy of the record.
    pub fn duplicate(&self) -> (copy: PreKeyRecord)
        ensures
            copy@ == self@,
    {
        PreKeyRecord { id: self.id, key_pair: self.key_pair.duplicate() }
    }
}

impl SignedPreKeyRecord {
    /// A copy of the record.
    pub fn duplicate(&self) -> (copy: SignedPreKeyRecord)
        ensures
            copy@ == self@,
    {
        SignedPreKeyRecord {
            id: self.id,
            timestamp: self.timestamp,
            key_pair: self.key_pair.duplicate(),
            signature: copy_bytes(&self.signature),
        }
    }
}

impl View for PreKeyRecord {
    type V = PreKeyRecordView;

    open spec fn view(&self) -> PreKeyRecordView {
        PreKeyRecordView { id: self.id, key_pair: self.key_pair@ }
    }
}

impl View for SignedPreKeyRecord {
    type V = SignedPreKeyRecordView;

    open spec fn view(&self) -> SignedPreKeyRecordView {
        SignedPreKeyRecordView {
            id: self.id,
            timestamp: self.timestamp,
            key_pair: self.key_pair@,
            signature: self.signature@,
        }
    }
}

/// The key pair that a public and a private key parse to; the public key
/// is looked at first.
pub open spec fn parsed_key_pair(public_key: Seq<u8>, private_key: Seq<u8>) -> Result<
    KeyPairView,
    StoreError,
> {
    match parsed_public_key(public_key) {
        Err(e) => Err(e),
        Ok(public) => match parsed_private_key(private_key) {
            Err(e) => Err(e),
            Ok(private) => Ok(KeyPairView { public_key: public, private_key: private }),
        },
    }
}

/// Parses a key pair with
/// `wacore_libsignal::protocol::KeyPair::from_public_and_private` and
/// hands back both keys as the engine serializes them. The engine accepts
/// a public key that starts with the type marker and has 32 bytes or more
/// after it, and a private key of exactly 32 bytes, which it clamps.
#[verifier::external_body]
pub(crate) fn parse_key_pair(public_key: &[u8], private_key: &[u8]) -> (pair: Result<
    KeyPair,
    StoreError,
>)
    ensures
        match parsed_key_pair(public_key@, private_key@) {
            Ok(view) => pair matches Ok(p) && p@ == view,
            Err(e) => pair matches Err(err) && err == e,
        },
{
    match engine::KeyPair::from_public_and_private(public_key, private_key) {
        Ok(pair) => Ok(KeyPair {
            public_key: pair.public_key.serialize().into_vec(),
            private_key: pair.private_key.serialize(),
        }),
        Err(engine::CurveError::NoKeyTypeIdentifier) => Err(StoreError::NoKeyTypeIdentifier),
        Err(engine::CurveError::BadKeyType(t)) => Err(StoreError::BadKeyType(t)),
        Err(engine::CurveError::BadKeyLength(_, n)) => Err(StoreError::BadKeyLength(n)),
    }
}

/// Parses an identity with `wacore_libsignal::protocol::IdentityKey::try_from`
/// and `PrivateKey::deserialize`, joins the two with `IdentityKeyPair::new`,
/// and hands back both keys as the engine serializes them. The engine
/// accepts what it accepts of any key pair, the public key first.
#[verifier::external_body]
pub(crate) fn parse_identity_key_pair(public_key: &[u8], private_key: &[u8]) -> (pair: Result<
    IdentityKeyPair,
    StoreError,
>)
    ensures
        match parsed_key_pair(public_key@, private_key@) {
            Ok(view) => pair matches Ok(p) && p@ == view,
            Err(e) => pair matches Err(err) && err == e,
        },
{
    let parsed = engine::IdentityKey::try_from(public_key).and_then(|identity| {
        Ok(engine::IdentityKeyPair::new(identity, engine::PrivateKey::deserialize(private_key)?))
    });
    match parsed {
        Ok(pair) => Ok(IdentityKeyPair {
            public_key: pair.public_key().serialize().into_vec(),
            private_key: pair.private_key().serialize(),
        }),
        Err(engine::SignalProtocolError::NoKeyTypeIdentifier) => Err(StoreError::NoKeyTypeIdentifier),
        Err(engine::SignalProtocolError::BadKeyType(t)) => Err(StoreError::BadKeyType(t)),
        Err(engine::SignalProtocolError::BadKeyLength(_, n)) => Err(StoreError::BadKeyLength(n)),
        Err(other) => Err(StoreError::FfiBindingError(other.to_string())),
    }
}

/// A public and a private key as the host named them, each of which may
/// be missing.
#[derive(Debug, Clone, PartialEq, Eq)]
pub struct JsKeyPairBytes {
    pub public_key: Option<Vec<u8>>,
    pub private_key: Option<Vec<u8>>,
}

/// Key bytes that stand either in the payload itself or in its `keyPair`
/// object.
#[derive(Debug, Clone, PartialEq, Eq)]
pub struct JsKeyEnvelope {
    pub inline: JsKeyPairBytes,
    pub key_pair: Option<JsKeyPairBytes>,
}

/// The host's answer to a request for a pre-key.
#[derive(Debug, Clone, PartialEq, Eq)]
pub struct JsPreKeyRecordPayload {
    pub id: Option<u32>,
    pub keys: JsKeyEnvelope,
}

/// The host's answer to a request for a signed pre-key.
#[derive(Debug, Clone, PartialEq, Eq)]
pub struct JsSignedPreKeyRecordPayload {
    pub id: Option<u32>,
    pub timestamp: Option<u64>,
    pub signature: Option<Vec<u8>>,
    pub keys: JsKeyEnvelope,
}

/// The host's answer to a request for the local identity.
#[derive(Debug, Clone, PartialEq, Eq)]
pub struct JsIdentityKeyPairPayload {
    pub keys: JsKeyEnvelope,
}

impl JsKeyPairBytes {
    /// Both keys, where both are there.
    pub open spec fn both(self) -> Option<(Vec<u8>, Vec<u8>)> {
        match (self.public_key, self.private_key) {
            (Some(public_key), Some(private_key)) => Some((public_key, private_key)),
            _ => None,
        }
    }

    /// Both keys, where both are there.
    pub fn into_vecs(self) -> (r: Option<(Vec<u8>, Vec<u8>)>)
        ensures
            r == self.both(),
    {
        match (self.public_key, self.private_key) {
            (Some(public_key), Some(private_key)) => Some((public_key, private_key)),
            _ => None,
        }
    }
}

impl JsKeyEnvelope {
    /// The keys of the payload itself, where it has both; else those of
    /// its `keyPair` object, where that has both.
    pub open spec fn both(self) -> Option<(Vec<u8>, Vec<u8>)> {
        match self.inline.both() {
            Some(keys) => Some(keys),
            None => match self.key_pair {
                Some(pair) => pair.both(),
                None => None,
            },
        }
    }

    /// The keys of the payload itself, where it has both; else those of
    /// its `keyPair` object.
    pub fn into_vecs(self) -> (r: Option<(Vec<u8>, Vec<u8>)>)
        ensures
            r == self.both(),
    {
        match self.inline.into_vecs() {
            Some(keys) => Some(keys),
            None => match self.key_pair {
                Some(pair) => pair.into_vecs(),
                None => None,
            },
        }
    }
}

/// The key pair that a host's public and private key give. The public key
/// is brought to its canonical form first; a key that has not 33 bytes
/// then is refused with its length, and never cut or padded to fit. What
/// is left goes to the key parser.
pub open spec fn host_key_pair(public_key: Seq<u8>, private_key: Seq<u8>) -> Result<
    KeyPairView,
    StoreError,
> {
    let normalized = normalized_key(public_key);
    if normalized.len() != 33 {
        Err(StoreError::BadKeyLength(normalized.len() as usize))
    } else {
        parsed_key_pair(normalized, private_key)
    }
}

/// The key pair that the keys of an envelope give, during the store
/// operation `context`. An envelope without both keys is an invalid state.
pub open spec fn envelope_key_pair(keys: JsKeyEnvelope, context: Context) -> Result<
    KeyPairView,
    StoreError,
> {
    match keys.both() {
        None => Err(StoreError::InvalidState(context, Reason::MissingKeyBytes)),
        Some((public_key, private_key)) => host_key_pair(public_key@, private_key@),
    }
}

/// Makes a key pair of a host's public and private key.
pub fn key_pair_from_host(public_key: Vec<u8>, private_key: &[u8]) -> (pair: Result<
    KeyPair,
    StoreError,
>)
    ensures
        match host_key_pair(public_key@, private_key@) {
            Ok(view) => pair matches Ok(p) && p@ == view,
            Err(e) => pair matches Err(err) && err == e,
        },
{
    let normalized = ensure_curve_key_with_prefix(public_key);
    if normalized.len() != 33 {
        return Err(StoreError::BadKeyLength(normalized.len()));
    }
    parse_key_pair(normalized.as_slice(), private_key)
}

/// Makes an identity of a host's public and private key.
pub fn identity_from_host(public_key: Vec<u8>, private_key: &[u8]) -> (pair: Result<
    IdentityKeyPair,
    StoreError,
>)
    ensures
        match host_key_pair(public_key@, private_key@) {
            Ok(view) => pair matches Ok(p) && p@ == view,
            Err(e) => pair matches Err(err) && err == e,
        },
{
    let normalized = ensure_curve_key_with_prefix(public_key);
    if normalized.len() != 33 {
        return Err(StoreError::BadKeyLength(normalized.len()));
    }
    parse_identity_key_pair(normalized.as_slice(), private_key)
}

fn key_pair_of(keys: JsKeyEnvelope, context: Context) -> (pair: Result<KeyPair, StoreError>)
    ensures
        match envelope_key_pair(keys, context) {
            Ok(view) => pair matches Ok(p) && p@ == view,
            Err(e) => pair matches Err(err) && err == e,
        },
{
    match keys.into_vecs() {
        None => Err(StoreError::InvalidState(context, Reason::MissingKeyBytes)),
        Some((public_key, private_key)) => key_pair_from_host(public_key, private_key.as_slice()),
    }
}

impl JsPreKeyRecordPayload {
    /// The pre-key record that the payload gives for a requested id: the
    /// payload's own id where it names one, else the requested one.
    pub open spec fn record(self, requested_id: u32) -> Result<PreKeyRecordView, StoreError> {
        match envelope_key_pair(self.keys, Context::LoadPreKey) {
            Err(e) => Err(e),
            Ok(key_pair) => Ok(
                PreKeyRecordView {
                    id: match self.id {
                        Some(id) => id,
                        None => requested_id,
                    },
                    key_pair,
                },
            ),
        }
    }

    /// Makes the pre-key record of a payload.
    pub fn into_record(self, requested_id: u32) -> (record: Result<PreKeyRecord, StoreError>)
        ensures
            match self.record(requested_id) {
                Ok(view) => record matches Ok(r) && r@ == view,
                Err(e) => record matches Err(err) && err == e,
            },
    {
        let id: u32 = match self.id {
            Some(id) => id,
            None => requested_id,
        };
        match key_pair_of(self.keys, Context::LoadPreKey) {
            Ok(key_pair) => Ok(PreKeyRecord { id, key_pair }),
            Err(e) => Err(e),
        }
    }
}

impl JsSignedPreKeyRecordPayload {
    /// The signed pre-key record that the payload gives for a requested
    /// id. The keys are asked for first, then the signature; a missing
    /// timestamp is zero.
    pub open spec fn record(self, requested_id: u32) -> Result<
        SignedPreKeyRecordView,
        StoreError,
    > {
        if self.keys.both().is_none() {
            Err(StoreError::InvalidState(Context::LoadSignedPreKey, Reason::MissingKeyBytes))
        } else {
            match self.signature {
                None => Err(
                    StoreError::InvalidState(Context::LoadSignedPreKey, Reason::MissingSignature),
                ),
                Some(signature) => match envelope_key_pair(self.keys, Context::LoadSignedPreKey) {
                    Err(e) => Err(e),
                    Ok(key_pair) => Ok(
                        SignedPreKeyRecordView {
                            id: match self.id {
                                Some(id) => id,
                                None => requested_id,
                            },
                            timestamp: match self.timestamp {
                                Some(t) => t,
                                None => 0,
                            },
                            key_pair,
                            signature: signature@,
                        },
                    ),
                },
            }
        }
    }

    /// Makes the signed pre-key record of a payload.
    pub fn into_record(self, requested_id: u32) -> (record: Result<
        SignedPreKeyRecord,
        StoreError,
    >)
        ensures
            match self.record(requested_id) {
                Ok(view) => record matches Ok(r) && r@ == view,
                Err(e) => record matches Err(err) && err == e,
            },
    {
        let id: u32 = match self.id {
            Some(id) => id,
            None => requested_id,
        };
        let timestamp: u64 = match self.timestamp {
            Some(t) => t,
            None => 0,
        };
        let (public_key, private_key) = match self.keys.into_vecs() {
            Some(keys) => keys,
            None => {
                return Err(
                    StoreError::InvalidState(Context::LoadSignedPreKey, Reason::MissingKeyBytes),
                );
            },
        };
        let signature = match self.signature {
            Some(s) => s,
            None => {
                return Err(
                    StoreError::InvalidState(Context::LoadSignedPreKey, Reason::MissingSignature),
                );
            },
        };
        match key_pair_from_host(public_key, private_key.as_slice()) {
            Ok(key_pair) => Ok(SignedPreKeyRecord { id, timestamp, key_pair, signature }),
            Err(e) => Err(e),
        }
    }
}

impl JsIdentityKeyPairPayload {
    /// The identity that the payload gives.
    pub open spec fn pair(self) -> Result<KeyPairView, StoreError> {
        envelope_key_pair(self.keys, Context::GetIdentityKeyPair)
    }

    /// Makes the identity key pair of a payload. The public key may come
    /// with or without its type marker.
    pub fn into_pair(self) -> (pair: Result<IdentityKeyPair, StoreError>)
        ensures
            match self.pair() {
                Ok(view) => pair matches Ok(p) && p@ == view,
                Err(e) => pair matches Err(err) && err == e,
            },
    {
        match self.keys.into_vecs() {
            None => Err(
                StoreError::InvalidState(Context::GetIdentityKeyPair, Reason::MissingKeyBytes),
            ),
            Some((public_key, private_key)) => identity_from_host(
                public_key,
                private_key.as_slice(),
            ),
        }
    }
}

/// A host that hands over a well-formed identity, with or without the type
/// marker on the public key, gets an identity whose public key is the
/// 33-byte canonical form.
pub proof fn identity_public_key_is_canonical(public_key: Seq<u8>, private_key: Seq<u8>)
    requires
        public_key.len() == 32 || (public_key.len() == 33 && public_key[0] == KEY_TYPE_DJB),
        private_key.len() == 32,
    ensures
        host_key_pair(public_key, private_key) matches Ok(pair) && pair.public_key
            == normalized_key(public_key) && pair.public_key.len() == 33 && pair.public_key[0]
            == KEY_TYPE_DJB,
{
    let normalized = normalized_key(public_key);
    assert(normalized.len() == 33);
    assert(normalized[0] == KEY_TYPE_DJB);
    assert(normalized.subrange(0, 33) == normalized);
}

/// A public key of another length than 32 or 33 bytes is never made to
/// fit: it is refused with its own length, whatever it starts with and
/// whatever the private key is.
pub proof fn other_key_lengths_are_refused(public_key: Seq<u8>, private_key: Seq<u8>)
    requires
        public_key.len() != 32,
        public_key.len() != 33,
    ensures
        host_key_pair(public_key, private_key) == Err::<KeyPairView, StoreError>(
            StoreError::BadKeyLength(public_key.len() as usize),
        ),
{
}

/// Where a host's keys give a key pair, its public key is the canonical
/// form of the host's, all of it.
pub proof fn accepted_public_key_is_whole(public_key: Seq<u8>, private_key: Seq<u8>)
    ensures
        host_key_pair(public_key, private_key) matches Ok(pair) ==> pair.public_key
            == normalized_key(public_key) && (public_key.len() == 32 || public_key.len() == 33),
{
    let normalized = normalized_key(public_key);
    if normalized.len() == 33 {
        assert(normalized.subrange(0, 33) == normalized);
    }
}

} // verus!
