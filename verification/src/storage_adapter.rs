//! The storage adapter: the store contracts of the protocol engine, played
//! against a host store.
//!
//! Every operation first looks into the adapter's memory and asks the host
//! only for what is not there. A write goes into the memory before the host
//! is asked to store it, so that a read on the same adapter sees it at
//! once; a failing host call does not take it out again.

use crate::cache::{ByteTable, CacheView};
use crate::errors::{CodecError, Context, Reason, StoreError};
use crate::host::{
    direction_number, direction_value, Direction, HostCall, HostCallView, HostReply, Outcome,
    OutcomeView, Pending, PendingView, Step, StepView,
};
use crate::buffers::{copy_bytes, copy_slice};
use crate::host_value::{js_array_to_vec, list_bytes, number_as_u32, to_u32, HostValue};
use crate::keys::{IdentityKeyPair, KeyPairView};
use crate::legacy_sender_key::{
    legacy_sender_key_text, looks_like_legacy_sender_key, migrate_legacy_sender_key,
    migrated_sender_key,
};
use crate::legacy_session::{
    classify, parsed_session, read_legacy_session, select_session, selected_session, shape_of,
    LegacySession, LegacySessionView, SessionShape,
};
use crate::migration::{migrated_session, session_from_legacy};
use crate::protocol_address::ProtocolAddress;
use crate::records::{
    encode_session_state, inspect_sender_key, inspect_session, sender_key_record_summary,
    session_record_encoding, session_record_summary,
};
use crate::sender_key_name::SenderKeyName;
use crate::session_record::{empty_session_bytes, SenderKeyRecord, SessionRecord};
use vstd::prelude::*;
use vstd::utf8::decode_utf8;

verus! {

/// The adapter between the protocol engine and one host store.
pub struct JsStorageAdapter {
    cached_identity_key_pair: Option<IdentityKeyPair>,
    cached_registration_id: Option<u32>,
    cached_sessions: ByteTable,
    cached_sender_keys: ByteTable,
    cached_identities: ByteTable,
}

impl View for JsStorageAdapter {
    type V = CacheView;

    closed spec fn view(&self) -> CacheView {
        CacheView {
            identity: match self.cached_identity_key_pair {
                Some(pair) => Some(pair@),
                None => None,
            },
            registration_id: self.cached_registration_id,
            sessions: self.cached_sessions@,
            sender_keys: self.cached_sender_keys@,
            identities: self.cached_identities@,
        }
    }
}

/// The end of an operation that gave `outcome`.
pub open spec fn done(outcome: OutcomeView) -> StepView {
    StepView::Done(Ok(outcome))
}

/// The end of an operation that failed.
pub open spec fn failed(e: StoreError) -> StepView {
    StepView::Done(Err(e))
}

/// The error for an answer that belongs to another kind of call.
pub open spec fn unexpected(context: Context) -> StoreError {
    StoreError::InvalidState(context, Reason::UnexpectedReply)
}

/// The first step of loading a session: a remembered record ends the
/// operation without a host call; else the host is asked.
pub open spec fn load_session_step(cache: CacheView, address: Seq<char>) -> StepView {
    if cache.sessions.contains_key(address) {
        done(OutcomeView::Session(Some(cache.sessions[address])))
    } else {
        StepView::Call(HostCallView::LoadSession { address }, PendingView::Session { address })
    }
}

/// The first step of storing a session: the record is remembered, then the
/// host is asked to store it.
pub open spec fn store_session_step(cache: CacheView, address: Seq<char>, record: Seq<u8>) -> (
    CacheView,
    StepView,
) {
    (
        cache.with_session(address, record),
        StepView::Call(HostCallView::StoreSession { address, record }, PendingView::StoreSession),
    )
}

/// The first step of loading the local identity.
pub open spec fn identity_step(cache: CacheView) -> StepView {
    match cache.identity {
        Some(pair) => done(OutcomeView::IdentityKeyPair(pair)),
        None => StepView::Call(HostCallView::GetIdentityKeyPair, PendingView::IdentityKeyPair),
    }
}

/// The first step of loading the local registration id.
pub open spec fn registration_id_step(cache: CacheView) -> StepView {
    match cache.registration_id {
        Some(id) => done(OutcomeView::RegistrationId(id)),
        None => StepView::Call(HostCallView::GetLocalRegistrationId, PendingView::RegistrationId),
    }
}

/// Whether an identity key is the one remembered for a name.
pub open spec fn remembers_identity(cache: CacheView, name: Seq<char>, identity_key: Seq<u8>) -> bool {
    cache.identities.contains_key(name) && cache.identities[name] == identity_key
}

/// The first step of checking an identity: a key that is remembered for
/// the name is trusted without a host call.
pub open spec fn trusted_identity_step(
    cache: CacheView,
    name: Seq<char>,
    identity_key: Seq<u8>,
    direction: Direction,
) -> StepView {
    if remembers_identity(cache, name, identity_key) {
        done(OutcomeView::Trusted(true))
    } else {
        StepView::Call(
            HostCallView::IsTrustedIdentity {
                name,
                identity_key,
                direction: direction_number(direction),
            },
            PendingView::TrustedIdentity { name, identity_key },
        )
    }
}

/// The first step of saving an identity: a key that is remembered for the
/// name changes nothing; else it is remembered, and the host is asked to
/// save it.
pub open spec fn save_identity_step(cache: CacheView, name: Seq<char>, identity_key: Seq<u8>) -> (
    CacheView,
    StepView,
) {
    if remembers_identity(cache, name, identity_key) {
        (cache, done(OutcomeView::IdentityChanged(false)))
    } else {
        (
            cache.with_identity_of(name, identity_key),
            StepView::Call(
                HostCallView::SaveIdentity { name, identity_key },
                PendingView::SaveIdentity,
            ),
        )
    }
}

/// The first step of loading a sender key.
pub open spec fn load_sender_key_step(cache: CacheView, key_id: Seq<char>) -> StepView {
    if cache.sender_keys.contains_key(key_id) {
        done(OutcomeView::SenderKey(Some(cache.sender_keys[key_id])))
    } else {
        StepView::Call(HostCallView::LoadSenderKey { key_id }, PendingView::SenderKey { key_id })
    }
}

/// The first step of storing a sender key.
pub open spec fn store_sender_key_step(cache: CacheView, key_id: Seq<char>, record: Seq<u8>) -> (
    CacheView,
    StepView,
) {
    (
        cache.with_sender_key(key_id, record),
        StepView::Call(
            HostCallView::StoreSenderKey { key_id, record },
            PendingView::StoreSenderKey,
        ),
    )
}

/// What becomes of canonical session bytes: a record that the engine
/// decodes is remembered and handed out; bytes that it does not decode are
/// an error, never an absent session.
pub open spec fn accept_session(cache: CacheView, address: Seq<char>, bytes: Seq<u8>) -> (
    CacheView,
    StepView,
) {
    if session_record_summary(bytes).is_some() {
        (cache.with_session(address, bytes), done(OutcomeView::Session(Some(bytes))))
    } else {
        (cache, failed(StoreError::Codec(CodecError::SessionRecord)))
    }
}

/// The canonical bytes of a migrated session.
pub open spec fn migrated_bytes(
    legacy: LegacySessionView,
    local_identity_public: Seq<u8>,
    local_registration_id: u32,
) -> Seq<u8> {
    session_record_encoding(migrated_session(legacy, local_identity_public, local_registration_id))
}

/// The last step of a migration: the legacy session is built into a
/// record and encoded; the record is remembered in its canonical form, and
/// handed out. A migration never ends in a codec error.
pub open spec fn finish_migration(
    cache: CacheView,
    address: Seq<char>,
    legacy: LegacySessionView,
    local_identity_public: Seq<u8>,
    local_registration_id: u32,
) -> (CacheView, StepView) {
    let bytes = migrated_bytes(legacy, local_identity_public, local_registration_id);
    (cache.with_session(address, bytes), done(OutcomeView::Session(Some(bytes))))
}

/// A migration once the local identity is known: the legacy session is
/// read; one that is incomplete counts as no session. Then the local
/// registration id is taken from memory, or asked for.
pub open spec fn continue_migration(
    cache: CacheView,
    address: Seq<char>,
    value: HostValue,
    local_identity_public: Seq<u8>,
) -> (CacheView, StepView) {
    match selected_session(value) {
        Ok(Some(data)) => match parsed_session(data) {
            Ok(legacy) => match cache.registration_id {
                Some(id) => finish_migration(cache, address, legacy, local_identity_public, id),
                None => (
                    cache,
                    StepView::Call(
                        HostCallView::GetLocalRegistrationId,
                        PendingView::SessionRegistrationId {
                            address,
                            legacy,
                            local_identity_public,
                        },
                    ),
                ),
            },
            Err(_) => (cache, done(OutcomeView::Session(None))),
        },
        _ => (cache, done(OutcomeView::Session(None))),
    }
}

/// What becomes of the value that the host gave for a session: bytes are
/// decoded; a legacy session is migrated, for which the local identity is
/// taken from memory or asked for; anything else is no session.
pub open spec fn session_value_step(cache: CacheView, address: Seq<char>, value: HostValue) -> (
    CacheView,
    StepView,
) {
    match value {
        HostValue::Bytes(bytes) => accept_session(cache, address, bytes@),
        _ => match selected_session(value) {
            Ok(Some(_)) => match cache.identity {
                Some(pair) => continue_migration(cache, address, value, pair.public_key),
                None => (
                    cache,
                    StepView::Call(
                        HostCallView::GetIdentityKeyPair,
                        PendingView::SessionIdentity { address, value },
                    ),
                ),
            },
            _ => (cache, done(OutcomeView::Session(None))),
        },
    }
}

/// The local identity that an answer gives.
pub open spec fn identity_of_reply(reply: HostReply) -> Result<KeyPairView, StoreError> {
    match reply {
        HostReply::Failed(message) => Err(StoreError::FfiBindingError(message)),
        HostReply::IdentityKeyPair(payload) => payload.pair(),
        HostReply::Malformed(message) => Err(
            StoreError::InvalidState(Context::GetIdentityKeyPair, Reason::Malformed(message)),
        ),
        HostReply::Value(value) => if value.absent() {
            Err(StoreError::InvalidState(Context::GetIdentityKeyPair, Reason::HostReturnedNull))
        } else {
            Err(unexpected(Context::GetIdentityKeyPair))
        },
        _ => Err(unexpected(Context::GetIdentityKeyPair)),
    }
}

/// The local registration id that an answer gives.
pub open spec fn registration_id_of_reply(reply: HostReply) -> Result<u32, StoreError> {
    match reply {
        HostReply::Failed(message) => Err(StoreError::FfiBindingError(message)),
        HostReply::Value(HostValue::Number(n)) => Ok(number_as_u32(n)),
        HostReply::Value(_) => Err(
            StoreError::InvalidState(Context::GetLocalRegistrationId, Reason::NotANumber),
        ),
        _ => Err(unexpected(Context::GetLocalRegistrationId)),
    }
}

/// The end of a write: whatever value the host answers with, the write is
/// done; a failed call is an error.
pub open spec fn write_step(reply: HostReply, context: Context, outcome: OutcomeView) -> StepView {
    match reply {
        HostReply::Failed(message) => failed(StoreError::FfiBindingError(message)),
        HostReply::Value(_) => done(outcome),
        _ => failed(unexpected(context)),
    }
}

/// The bytes that the host's value for a sender key stands for. A legacy
/// session in its place stands for the empty record.
pub open spec fn sender_key_bytes(value: HostValue) -> Result<Option<Seq<u8>>, StoreError> {
    match shape_of(value) {
        SessionShape::Absent => Ok(None),
        SessionShape::Canonical => match value {
            HostValue::Bytes(bytes) => Ok(Some(bytes@)),
            _ => Ok(None),
        },
        SessionShape::SessionsWrapper => Ok(Some(Seq::empty())),
        SessionShape::DirectSession => Ok(Some(Seq::empty())),
        SessionShape::BufferLike => match value.property("data"@) {
            Some(HostValue::List(items)) => Ok(Some(list_bytes(items@))),
            _ => Ok(None),
        },
        SessionShape::Unrecognized => Err(unexpected(Context::LoadSenderKey)),
    }
}

/// What becomes of canonical sender-key bytes.
pub open spec fn accept_sender_key(cache: CacheView, key_id: Seq<char>, bytes: Seq<u8>) -> (
    CacheView,
    StepView,
) {
    if sender_key_record_summary(bytes).is_some() {
        (cache.with_sender_key(key_id, bytes), done(OutcomeView::SenderKey(Some(bytes))))
    } else {
        (cache, failed(StoreError::Codec(CodecError::SenderKeyRecord)))
    }
}

/// What becomes of the value that the host gave for a sender key: bytes
/// that the engine decodes are the record; bytes that look like a legacy
/// sender key go to the host's JSON parser; any other bytes are an error.
pub open spec fn sender_key_value_step(cache: CacheView, key_id: Seq<char>, value: HostValue) -> (
    CacheView,
    StepView,
) {
    match sender_key_bytes(value) {
        Err(e) => (cache, failed(e)),
        Ok(None) => (cache, done(OutcomeView::SenderKey(None))),
        Ok(Some(bytes)) => if sender_key_record_summary(bytes).is_some() {
            accept_sender_key(cache, key_id, bytes)
        } else if looks_like_legacy_sender_key(bytes) {
            (
                cache,
                StepView::Call(
                    HostCallView::ParseJson { text: decode_utf8(bytes) },
                    PendingView::SenderKeyJson { key_id },
                ),
            )
        } else {
            (cache, failed(StoreError::Codec(CodecError::SenderKeyRecord)))
        },
    }
}

/// What becomes of a parsed legacy sender key: its migration is remembered
/// in canonical form and handed out; a value that does not migrate leaves
/// the error of the bytes that did not decode.
pub open spec fn sender_key_json_step(cache: CacheView, key_id: Seq<char>, reply: HostReply) -> (
    CacheView,
    StepView,
) {
    match reply {
        HostReply::Value(parsed) => match migrated_sender_key(parsed) {
            Ok(Some(bytes)) => (
                cache.with_sender_key(key_id, bytes),
                done(OutcomeView::SenderKey(Some(bytes))),
            ),
            _ => (cache, failed(StoreError::Codec(CodecError::SenderKeyRecord))),
        },
        _ => (cache, failed(StoreError::Codec(CodecError::SenderKeyRecord))),
    }
}

/// What becomes of the host's verdict on an identity. A host that has no
/// such call trusts every identity; a verdict of `true` is remembered.
pub open spec fn trusted_reply_step(
    cache: CacheView,
    name: Seq<char>,
    identity_key: Seq<u8>,
    reply: HostReply,
) -> (CacheView, StepView) {
    match reply {
        HostReply::Failed(message) => (cache, failed(StoreError::FfiBindingError(message))),
        HostReply::NotImplemented => (cache, done(OutcomeView::Trusted(true))),
        HostReply::Value(HostValue::Bool(true)) => (
            cache.with_identity_of(name, identity_key),
            done(OutcomeView::Trusted(true)),
        ),
        HostReply::Value(_) => (cache, done(OutcomeView::Trusted(false))),
        _ => (cache, failed(unexpected(Context::IsTrustedIdentity))),
    }
}

/// What becomes of the host's answer to saving an identity.
pub open spec fn save_identity_reply_step(reply: HostReply) -> StepView {
    match reply {
        HostReply::Failed(message) => failed(StoreError::FfiBindingError(message)),
        HostReply::Value(HostValue::Bool(changed)) => done(OutcomeView::IdentityChanged(changed)),
        HostReply::Value(_) => done(OutcomeView::IdentityChanged(false)),
        _ => failed(unexpected(Context::SaveIdentity)),
    }
}

/// What becomes of the host's answer to a request for a pre-key.
pub open spec fn pre_key_reply_step(id: u32, reply: HostReply) -> StepView {
    match reply {
        HostReply::Failed(message) => failed(StoreError::FfiBindingError(message)),
        HostReply::Value(value) => if value.absent() {
            failed(StoreError::InvalidPreKeyId)
        } else {
            failed(unexpected(Context::LoadPreKey))
        },
        HostReply::Malformed(message) => failed(
            StoreError::InvalidState(Context::LoadPreKey, Reason::Malformed(message)),
        ),
        HostReply::PreKey(payload) => match payload.record(id) {
            Ok(record) => done(OutcomeView::PreKey(record)),
            Err(e) => failed(e),
        },
        _ => failed(unexpected(Context::LoadPreKey)),
    }
}

/// What becomes of the host's answer to a request for a signed pre-key.
pub open spec fn signed_pre_key_reply_step(id: u32, reply: HostReply) -> StepView {
    match reply {
        HostReply::Failed(message) => failed(StoreError::FfiBindingError(message)),
        HostReply::Value(value) => if value.absent() {
            failed(StoreError::InvalidSignedPreKeyId)
        } else {
            failed(unexpected(Context::LoadSignedPreKey))
        },
        HostReply::Malformed(message) => failed(
            StoreError::InvalidState(Context::LoadSignedPreKey, Reason::Malformed(message)),
        ),
        HostReply::SignedPreKey(payload) => match payload.record(id) {
            Ok(record) => done(OutcomeView::SignedPreKey(record)),
            Err(e) => failed(e),
        },
        _ => failed(unexpected(Context::LoadSignedPreKey)),
    }
}

/// Whether a record that a step hands out is one that the protocol engine
/// decodes. A step that hands out no record is in order.
pub open spec fn hands_out_valid(step: Step) -> bool {
    match step {
        Step::Done(Ok(Outcome::Session(Some(record)))) => record.is_valid(),
        Step::Done(Ok(Outcome::SenderKey(Some(record)))) => record.is_valid(),
        _ => true,
    }
}

/// The step after a host call: what the adapter remembers then, and what
/// comes next.
pub open spec fn resume_step(cache: CacheView, pending: PendingView, reply: HostReply) -> (
    CacheView,
    StepView,
) {
    match pending {
        PendingView::Session { address } => match reply {
            HostReply::Failed(message) => (cache, failed(StoreError::FfiBindingError(message))),
            HostReply::Value(value) => session_value_step(cache, address, value),
            _ => (cache, failed(unexpected(Context::LoadSession))),
        },
        PendingView::SessionIdentity { address, value } => match identity_of_reply(reply) {
            Err(e) => (cache, failed(e)),
            Ok(pair) => continue_migration(
                cache.with_identity(pair),
                address,
                value,
                pair.public_key,
            ),
        },
        PendingView::SessionRegistrationId { address, legacy, local_identity_public } => {
            match registration_id_of_reply(reply) {
                Err(e) => (cache, failed(e)),
                Ok(id) => finish_migration(
                    cache.with_registration_id(id),
                    address,
                    legacy,
                    local_identity_public,
                    id,
                ),
            }
        },
        PendingView::StoreSession => (
            cache,
            write_step(reply, Context::StoreSession, OutcomeView::Stored),
        ),
        PendingView::IdentityKeyPair => match identity_of_reply(reply) {
            Err(e) => (cache, failed(e)),
            Ok(pair) => (cache.with_identity(pair), done(OutcomeView::IdentityKeyPair(pair))),
        },
        PendingView::RegistrationId => match registration_id_of_reply(reply) {
            Err(e) => (cache, failed(e)),
            Ok(id) => (cache.with_registration_id(id), done(OutcomeView::RegistrationId(id))),
        },
        PendingView::TrustedIdentity { name, identity_key } => trusted_reply_step(
            cache,
            name,
            identity_key,
            reply,
        ),
        PendingView::SaveIdentity => (cache, save_identity_reply_step(reply)),
        PendingView::PreKey { id } => (cache, pre_key_reply_step(id, reply)),
        PendingView::RemovePreKey => (
            cache,
            write_step(reply, Context::RemovePreKey, OutcomeView::Removed),
        ),
        PendingView::SignedPreKey { id } => (cache, signed_pre_key_reply_step(id, reply)),
        PendingView::SenderKey { key_id } => match reply {
            HostReply::Failed(message) => (cache, failed(StoreError::FfiBindingError(message))),
            HostReply::Value(value) => sender_key_value_step(cache, key_id, value),
            _ => (cache, failed(unexpected(Context::LoadSenderKey))),
        },
        PendingView::SenderKeyJson { key_id } => sender_key_json_step(cache, key_id, reply),
        PendingView::StoreSenderKey => (
            cache,
            write_step(reply, Context::StoreSenderKey, OutcomeView::Stored),
        ),
    }
}

impl JsStorageAdapter {
    /// An adapter that remembers nothing yet.
    pub fn new() -> (adapter: Self)
        ensures
            adapter@ == CacheView::empty(),
    {
        Self {
            cached_identity_key_pair: None,
            cached_registration_id: None,
            cached_sessions: ByteTable::new(),
            cached_sender_keys: ByteTable::new(),
            cached_identities: ByteTable::new(),
        }
    }

    /// Begins to load the session with a peer.
    pub fn load_session(&self, address: &ProtocolAddress) -> (step: Step)
        ensures
            step@ == load_session_step(self@, address.encoded()),
    {
        let key = address.js_to_string();
        match self.cached_sessions.get(key.as_str()) {
            Some(bytes) => Step::Done(Ok(Outcome::Session(Some(SessionRecord::new(bytes))))),
            None => Step::Call(
                HostCall::LoadSession { address: key.clone() },
                Pending::Session { address: key },
            ),
        }
    }

    /// Begins to store the session with a peer. The record is remembered
    /// at once, whatever becomes of the host call.
    pub fn store_session(&mut self, address: &ProtocolAddress, record: &SessionRecord) -> (step:
        Step)
        ensures
            (final(self)@, step@) == store_session_step(old(self)@, address.encoded(), record@),
    {
        let key = address.js_to_string();
        self.cached_sessions.put(key.clone(), record.serialize());
        Step::Call(
            HostCall::StoreSession { address: key, record: record.serialize() },
            Pending::StoreSession,
        )
    }

    /// Begins to load the local identity.
    pub fn get_identity_key_pair(&self) -> (step: Step)
        ensures
            step@ == identity_step(self@),
    {
        match &self.cached_identity_key_pair {
            Some(pair) => Step::Done(Ok(Outcome::IdentityKeyPair(pair.duplicate()))),
            None => Step::Call(HostCall::GetIdentityKeyPair, Pending::IdentityKeyPair),
        }
    }

    /// Begins to load the local registration id.
    pub fn get_local_registration_id(&self) -> (step: Step)
        ensures
            step@ == registration_id_step(self@),
    {
        match self.cached_registration_id {
            Some(id) => Step::Done(Ok(Outcome::RegistrationId(id))),
            None => Step::Call(HostCall::GetLocalRegistrationId, Pending::RegistrationId),
        }
    }

    /// Begins to check whether a peer's identity key is trusted.
    pub fn is_trusted_identity(
        &self,
        address: &ProtocolAddress,
        identity: &[u8],
        direction: Direction,
    ) -> (step: Step)
        ensures
            step@ == trusted_identity_step(self@, address.name(), identity@, direction),
    {
        let name = address.id();
        if self.cached_identities.holds(name.as_str(), identity) {
            return Step::Done(Ok(Outcome::Trusted(true)));
        }
        Step::Call(
            HostCall::IsTrustedIdentity {
                name: name.clone(),
                identity_key: copy_slice(identity),
                direction: direction_value(direction),
            },
            Pending::TrustedIdentity { name, identity_key: copy_slice(identity) },
        )
    }

    /// Begins to save a peer's identity key.
    pub fn save_identity(&mut self, address: &ProtocolAddress, identity: &[u8]) -> (step: Step)
        ensures
            (final(self)@, step@) == save_identity_step(old(self)@, address.name(), identity@),
    {
        let name = address.id();
        if self.cached_identities.holds(name.as_str(), identity) {
            return Step::Done(Ok(Outcome::IdentityChanged(false)));
        }
        self.cached_identities.put(name.clone(), copy_slice(identity));
        Step::Call(
            HostCall::SaveIdentity { name, identity_key: copy_slice(identity) },
            Pending::SaveIdentity,
        )
    }

    /// Begins to load a one-time pre-key. Pre-keys are used once and are
    /// not remembered.
    pub fn get_pre_key(&self, prekey_id: u32) -> (step: Step)
        ensures
            step@ == StepView::Call(
                HostCallView::LoadPreKey { id: prekey_id },
                PendingView::PreKey { id: prekey_id },
            ),
    {
        Step::Call(HostCall::LoadPreKey { id: prekey_id }, Pending::PreKey { id: prekey_id })
    }

    /// Begins to remove a one-time pre-key that the engine has used.
    pub fn remove_pre_key(&self, prekey_id: u32) -> (step: Step)
        ensures
            step@ == StepView::Call(
                HostCallView::RemovePreKey { id: prekey_id },
                PendingView::RemovePreKey,
            ),
    {
        Step::Call(HostCall::RemovePreKey { id: prekey_id }, Pending::RemovePreKey)
    }

    /// Begins to load a signed pre-key.
    pub fn get_signed_pre_key(&self, signed_prekey_id: u32) -> (step: Step)
        ensures
            step@ == StepView::Call(
                HostCallView::LoadSignedPreKey { id: signed_prekey_id },
                PendingView::SignedPreKey { id: signed_prekey_id },
            ),
    {
        Step::Call(
            HostCall::LoadSignedPreKey { id: signed_prekey_id },
            Pending::SignedPreKey { id: signed_prekey_id },
        )
    }

    /// Begins to load the sender key of a group member.
    pub fn load_sender_key(&self, sender_key_name: &SenderKeyName) -> (step: Step)
        ensures
            step@ == load_sender_key_step(self@, sender_key_name.key()),
    {
        let key_id = sender_key_name.to_string_js();
        match self.cached_sender_keys.get(key_id.as_str()) {
            Some(bytes) => Step::Done(
                Ok(Outcome::SenderKey(Some(SenderKeyRecord::from_bytes(bytes)))),
            ),
            None => Step::Call(
                HostCall::LoadSenderKey { key_id: key_id.clone() },
                Pending::SenderKey { key_id },
            ),
        }
    }

    /// Begins to store the sender key of a group member. The record is
    /// remembered at once.
    pub fn store_sender_key(&mut self, sender_key_name: &SenderKeyName, record: &SenderKeyRecord) -> (step:
        Step)
        ensures
            (final(self)@, step@) == store_sender_key_step(
                old(self)@,
                sender_key_name.key(),
                record@,
            ),
    {
        let key_id = sender_key_name.to_string_js();
        self.cached_sender_keys.put(key_id.clone(), record.serialize());
        Step::Call(
            HostCall::StoreSenderKey { key_id, record: record.serialize() },
            Pending::StoreSenderKey,
        )
    }

    fn accept_session_bytes(&mut self, address: String, bytes: Vec<u8>) -> (step: Step)
        ensures
            (final(self)@, step@) == accept_session(old(self)@, address@, bytes@),
            hands_out_valid(step),
    {
        match inspect_session(bytes.as_slice()) {
            Some(_) => {
                let record = SessionRecord::new(copy_bytes(&bytes));
                self.cached_sessions.put(address, bytes);
                Step::Done(Ok(Outcome::Session(Some(record))))
            },
            None => Step::Done(Err(StoreError::Codec(CodecError::SessionRecord))),
        }
    }

    fn finish_session_migration(
        &mut self,
        address: String,
        legacy: &LegacySession,
        local_identity_public: Vec<u8>,
        local_registration_id: u32,
    ) -> (step: Step)
        ensures
            (final(self)@, step@) == finish_migration(
                old(self)@,
                address@,
                legacy@,
                local_identity_public@,
                local_registration_id,
            ),
            hands_out_valid(step),
    {
        let state = session_from_legacy(legacy, local_identity_public, local_registration_id);
        let bytes = encode_session_state(&state);
        self.accept_session_bytes(address, bytes)
    }

    fn continue_session_migration(
        &mut self,
        address: String,
        value: HostValue,
        local_identity_public: Vec<u8>,
    ) -> (step: Step)
        ensures
            (final(self)@, step@) == continue_migration(
                old(self)@,
                address@,
                value,
                local_identity_public@,
            ),
            hands_out_valid(step),
    {
        let legacy = match select_session(&value) {
            Ok(Some(data)) => match read_legacy_session(data) {
                Ok(legacy) => legacy,
                Err(_) => {
                    return Step::Done(Ok(Outcome::Session(None)));
                },
            },
            _ => {
                return Step::Done(Ok(Outcome::Session(None)));
            },
        };
        match self.cached_registration_id {
            Some(id) => self.finish_session_migration(address, &legacy, local_identity_public, id),
            None => Step::Call(
                HostCall::GetLocalRegistrationId,
                Pending::SessionRegistrationId { address, legacy, local_identity_public },
            ),
        }
    }

    fn take_session_value(&mut self, address: String, value: HostValue) -> (step: Step)
        ensures
            (final(self)@, step@) == session_value_step(old(self)@, address@, value),
            hands_out_valid(step),
    {
        match value {
            HostValue::Bytes(bytes) => self.accept_session_bytes(address, bytes),
            other => {
                let is_legacy = match select_session(&other) {
                    Ok(Some(_)) => true,
                    _ => false,
                };
                if !is_legacy {
                    return Step::Done(Ok(Outcome::Session(None)));
                }
                let known = match &self.cached_identity_key_pair {
                    Some(pair) => Some(copy_bytes(&pair.public_key)),
                    None => None,
                };
                match known {
                    Some(public_key) => self.continue_session_migration(address, other, public_key),
                    None => Step::Call(
                        HostCall::GetIdentityKeyPair,
                        Pending::SessionIdentity { address, value: other },
                    ),
                }
            },
        }
    }

    fn accept_sender_key_bytes(&mut self, key_id: String, bytes: Vec<u8>) -> (step: Step)
        ensures
            (final(self)@, step@) == accept_sender_key(old(self)@, key_id@, bytes@),
            hands_out_valid(step),
    {
        match inspect_sender_key(bytes.as_slice()) {
            Some(_) => {
                let record = SenderKeyRecord::from_bytes(copy_bytes(&bytes));
                self.cached_sender_keys.put(key_id, bytes);
                Step::Done(Ok(Outcome::SenderKey(Some(record))))
            },
            None => Step::Done(Err(StoreError::Codec(CodecError::SenderKeyRecord))),
        }
    }

    fn take_sender_key_value(&mut self, key_id: String, value: HostValue) -> (step: Step)
        ensures
            (final(self)@, step@) == sender_key_value_step(old(self)@, key_id@, value),
            hands_out_valid(step),
    {
        let bytes = match sender_key_bytes_of(&value) {
            Err(e) => {
                return Step::Done(Err(e));
            },
            Ok(None) => {
                return Step::Done(Ok(Outcome::SenderKey(None)));
            },
            Ok(Some(bytes)) => bytes,
        };
        if inspect_sender_key(bytes.as_slice()).is_some() {
            return self.accept_sender_key_bytes(key_id, bytes);
        }
        match legacy_sender_key_text(bytes.as_slice()) {
            Some(text) => Step::Call(
                HostCall::ParseJson { text },
                Pending::SenderKeyJson { key_id },
            ),
            None => Step::Done(Err(StoreError::Codec(CodecError::SenderKeyRecord))),
        }
    }

    fn take_sender_key_json(&mut self, key_id: String, reply: HostReply) -> (step: Step)
        ensures
            (final(self)@, step@) == sender_key_json_step(old(self)@, key_id@, reply),
            hands_out_valid(step),
    {
        match reply {
            HostReply::Value(parsed) => match migrate_legacy_sender_key(&parsed) {
                Ok(Some(bytes)) => self.accept_sender_key_bytes(key_id, bytes),
                _ => Step::Done(Err(StoreError::Codec(CodecError::SenderKeyRecord))),
            },
            _ => Step::Done(Err(StoreError::Codec(CodecError::SenderKeyRecord))),
        }
    }

    fn take_trusted_reply(&mut self, name: String, identity_key: Vec<u8>, reply: HostReply) -> (step:
        Step)
        ensures
            (final(self)@, step@) == trusted_reply_step(old(self)@, name@, identity_key@, reply),
    {
        match reply {
            HostReply::Failed(message) => Step::Done(Err(StoreError::FfiBindingError(message))),
            HostReply::NotImplemented => Step::Done(Ok(Outcome::Trusted(true))),
            HostReply::Value(HostValue::Bool(true)) => {
                self.cached_identities.put(name, identity_key);
                Step::Done(Ok(Outcome::Trusted(true)))
            },
            HostReply::Value(_) => Step::Done(Ok(Outcome::Trusted(false))),
            _ => Step::Done(
                Err(StoreError::InvalidState(Context::IsTrustedIdentity, Reason::UnexpectedReply)),
            ),
        }
    }

    /// Goes on with an operation after its host call: takes the answer,
    /// remembers what it brought, and says what comes next. A session or
    /// sender-key record that it hands out is one that the protocol engine
    /// decodes.
    pub fn resume(&mut self, pending: Pending, reply: HostReply) -> (step: Step)
        ensures
            (final(self)@, step@) == resume_step(old(self)@, pending@, reply),
            hands_out_valid(step),
    {
        match pending {
            Pending::Session { address } => match reply {
                HostReply::Failed(message) => Step::Done(
                    Err(StoreError::FfiBindingError(message)),
                ),
                HostReply::Value(value) => self.take_session_value(address, value),
                _ => Step::Done(
                    Err(StoreError::InvalidState(Context::LoadSession, Reason::UnexpectedReply)),
                ),
            },
            Pending::SessionIdentity { address, value } => match identity_from_reply(reply) {
                Err(e) => Step::Done(Err(e)),
                Ok(pair) => {
                    let public_key = copy_bytes(&pair.public_key);
                    self.cached_identity_key_pair = Some(pair);
                    self.continue_session_migration(address, value, public_key)
                },
            },
            Pending::SessionRegistrationId { address, legacy, local_identity_public } => {
                match registration_id_from_reply(reply) {
                    Err(e) => Step::Done(Err(e)),
                    Ok(id) => {
                        self.cached_registration_id = Some(id);
                        self.finish_session_migration(address, &legacy, local_identity_public, id)
                    },
                }
            },
            Pending::StoreSession => finish_write(reply, Context::StoreSession, Outcome::Stored),
            Pending::IdentityKeyPair => match identity_from_reply(reply) {
                Err(e) => Step::Done(Err(e)),
                Ok(pair) => {
                    let copy = pair.duplicate();
                    self.cached_identity_key_pair = Some(pair);
                    Step::Done(Ok(Outcome::IdentityKeyPair(copy)))
                },
            },
            Pending::RegistrationId => match registration_id_from_reply(reply) {
                Err(e) => Step::Done(Err(e)),
                Ok(id) => {
                    self.cached_registration_id = Some(id);
                    Step::Done(Ok(Outcome::RegistrationId(id)))
                },
            },
            Pending::TrustedIdentity { name, identity_key } => self.take_trusted_reply(
                name,
                identity_key,
                reply,
            ),
            Pending::SaveIdentity => finish_save_identity(reply),
            Pending::PreKey { id } => finish_pre_key(id, reply),
            Pending::RemovePreKey => finish_write(reply, Context::RemovePreKey, Outcome::Removed),
            Pending::SignedPreKey { id } => finish_signed_pre_key(id, reply),
            Pending::SenderKey { key_id } => match reply {
                HostReply::Failed(message) => Step::Done(
                    Err(StoreError::FfiBindingError(message)),
                ),
                HostReply::Value(value) => self.take_sender_key_value(key_id, value),
                _ => Step::Done(
                    Err(StoreError::InvalidState(Context::LoadSenderKey, Reason::UnexpectedReply)),
                ),
            },
            Pending::SenderKeyJson { key_id } => self.take_sender_key_json(key_id, reply),
            Pending::StoreSenderKey => finish_write(
                reply,
                Context::StoreSenderKey,
                Outcome::Stored,
            ),
        }
    }
}

/// Reads the local identity out of the host's answer.
pub fn identity_from_reply(reply: HostReply) -> (pair: Result<IdentityKeyPair, StoreError>)
    ensures
        match identity_of_reply(reply) {
            Ok(view) => pair matches Ok(p) && p@ == view,
            Err(e) => pair matches Err(err) && err == e,
        },
{
    match reply {
        HostReply::Failed(message) => Err(StoreError::FfiBindingError(message)),
        HostReply::IdentityKeyPair(payload) => payload.into_pair(),
        HostReply::Malformed(message) => Err(
            StoreError::InvalidState(Context::GetIdentityKeyPair, Reason::Malformed(message)),
        ),
        HostReply::Value(value) => if value.is_absent() {
            Err(StoreError::InvalidState(Context::GetIdentityKeyPair, Reason::HostReturnedNull))
        } else {
            Err(StoreError::InvalidState(Context::GetIdentityKeyPair, Reason::UnexpectedReply))
        },
        _ => Err(StoreError::InvalidState(Context::GetIdentityKeyPair, Reason::UnexpectedReply)),
    }
}

/// Reads the local registration id out of the host's answer.
pub fn registration_id_from_reply(reply: HostReply) -> (id: Result<u32, StoreError>)
    ensures
        id == registration_id_of_reply(reply),
{
    match reply {
        HostReply::Failed(message) => Err(StoreError::FfiBindingError(message)),
        HostReply::Value(HostValue::Number(n)) => Ok(to_u32(n)),
        HostReply::Value(_) => Err(
            StoreError::InvalidState(Context::GetLocalRegistrationId, Reason::NotANumber),
        ),
        _ => Err(
            StoreError::InvalidState(Context::GetLocalRegistrationId, Reason::UnexpectedReply),
        ),
    }
}

/// The bytes that the host's value for a sender key stands for.
pub fn sender_key_bytes_of(value: &HostValue) -> (bytes: Result<Option<Vec<u8>>, StoreError>)
    ensures
        match sender_key_bytes(*value) {
            Ok(Some(b)) => bytes matches Ok(Some(out)) && out@ == b,
            Ok(None) => bytes matches Ok(None),
            Err(e) => bytes matches Err(err) && err == e,
        },
{
    match classify(value) {
        SessionShape::Absent => Ok(None),
        SessionShape::Canonical => match value {
            HostValue::Bytes(b) => Ok(Some(copy_bytes(b))),
            _ => Ok(None),
        },
        SessionShape::SessionsWrapper => {
            let empty = empty_session_bytes();
            assert(empty@ == Seq::<u8>::empty());
            Ok(Some(empty))
        },
        SessionShape::DirectSession => {
            let empty = empty_session_bytes();
            assert(empty@ == Seq::<u8>::empty());
            Ok(Some(empty))
        },
        SessionShape::BufferLike => match value.get("data") {
            Some(HostValue::List(items)) => Ok(Some(js_array_to_vec(items))),
            _ => Ok(None),
        },
        SessionShape::Unrecognized => Err(
            StoreError::InvalidState(Context::LoadSenderKey, Reason::UnexpectedReply),
        ),
    }
}

fn finish_write(reply: HostReply, context: Context, outcome: Outcome) -> (step: Step)
    ensures
        step@ == write_step(reply, context, outcome@),
{
    match reply {
        HostReply::Failed(message) => Step::Done(Err(StoreError::FfiBindingError(message))),
        HostReply::Value(_) => Step::Done(Ok(outcome)),
        _ => Step::Done(Err(StoreError::InvalidState(context, Reason::UnexpectedReply))),
    }
}

fn finish_save_identity(reply: HostReply) -> (step: Step)
    ensures
        step@ == save_identity_reply_step(reply),
{
    match reply {
        HostReply::Failed(message) => Step::Done(Err(StoreError::FfiBindingError(message))),
        HostReply::Value(HostValue::Bool(changed)) => Step::Done(
            Ok(Outcome::IdentityChanged(changed)),
        ),
        HostReply::Value(_) => Step::Done(Ok(Outcome::IdentityChanged(false))),
        _ => Step::Done(
            Err(StoreError::InvalidState(Context::SaveIdentity, Reason::UnexpectedReply)),
        ),
    }
}

fn finish_pre_key(id: u32, reply: HostReply) -> (step: Step)
    ensures
        step@ == pre_key_reply_step(id, reply),
{
    match reply {
        HostReply::Failed(message) => Step::Done(Err(StoreError::FfiBindingError(message))),
        HostReply::Value(value) => if value.is_absent() {
            Step::Done(Err(StoreError::InvalidPreKeyId))
        } else {
            Step::Done(Err(StoreError::InvalidState(Context::LoadPreKey, Reason::UnexpectedReply)))
        },
        HostReply::Malformed(message) => Step::Done(
            Err(StoreError::InvalidState(Context::LoadPreKey, Reason::Malformed(message))),
        ),
        HostReply::PreKey(payload) => match payload.into_record(id) {
            Ok(record) => Step::Done(Ok(Outcome::PreKey(record))),
            Err(e) => Step::Done(Err(e)),
        },
        _ => Step::Done(
            Err(StoreError::InvalidState(Context::LoadPreKey, Reason::UnexpectedReply)),
        ),
    }
}

fn finish_signed_pre_key(id: u32, reply: HostReply) -> (step: Step)
    ensures
        step@ == signed_pre_key_reply_step(id, reply),
{
    match reply {
        HostReply::Failed(message) => Step::Done(Err(StoreError::FfiBindingError(message))),
        HostReply::Value(value) => if value.is_absent() {
            Step::Done(Err(StoreError::InvalidSignedPreKeyId))
        } else {
            Step::Done(
                Err(StoreError::InvalidState(Context::LoadSignedPreKey, Reason::UnexpectedReply)),
            )
        },
        HostReply::Malformed(message) => Step::Done(
            Err(StoreError::InvalidState(Context::LoadSignedPreKey, Reason::Malformed(message))),
        ),
        HostReply::SignedPreKey(payload) => match payload.into_record(id) {
            Ok(record) => Step::Done(Ok(Outcome::SignedPreKey(record))),
            Err(e) => Step::Done(Err(e)),
        },
        _ => Step::Done(
            Err(StoreError::InvalidState(Context::LoadSignedPreKey, Reason::UnexpectedReply)),
        ),
    }
}

/// A session that was stored on an adapter is loaded from it at once and
/// without a host call, whether or not the host has answered the write,
/// and whatever it answered.
pub proof fn stored_session_is_loaded(
    cache: CacheView,
    address: Seq<char>,
    record: Seq<u8>,
    reply: HostReply,
)
    ensures
        load_session_step(store_session_step(cache, address, record).0, address) == done(
            OutcomeView::Session(Some(record)),
        ),
        resume_step(
            store_session_step(cache, address, record).0,
            PendingView::StoreSession,
            reply,
        ).0 == store_session_step(cache, address, record).0,
{
}

/// A sender key that was stored on an adapter is loaded from it at once
/// and without a host call.
pub proof fn stored_sender_key_is_loaded(
    cache: CacheView,
    key_id: Seq<char>,
    record: Seq<u8>,
    reply: HostReply,
)
    ensures
        load_sender_key_step(store_sender_key_step(cache, key_id, record).0, key_id) == done(
            OutcomeView::SenderKey(Some(record)),
        ),
        resume_step(
            store_sender_key_step(cache, key_id, record).0,
            PendingView::StoreSenderKey,
            reply,
        ).0 == store_sender_key_step(cache, key_id, record).0,
{
}

/// A session that the host handed over and that the adapter handed out is
/// remembered: the next load of the same address makes no host call.
pub proof fn loaded_session_is_remembered(cache: CacheView, address: Seq<char>, bytes: Seq<u8>)
    requires
        session_record_summary(bytes).is_some(),
    ensures
        accept_session(cache, address, bytes).1 == done(OutcomeView::Session(Some(bytes))),
        load_session_step(accept_session(cache, address, bytes).0, address) == done(
            OutcomeView::Session(Some(bytes)),
        ),
{
}

/// A value that is neither canonical bytes nor a legacy session in one of
/// the two known shapes is no session: loading gives nothing, and no
/// error.
pub proof fn unrecognized_value_is_no_session(cache: CacheView, address: Seq<char>, value: HostValue)
    requires
        !(value is Bytes),
        shape_of(value) != SessionShape::SessionsWrapper,
        shape_of(value) != SessionShape::DirectSession,
    ensures
        resume_step(cache, PendingView::Session { address }, HostReply::Value(value)) == (
            cache,
            done(OutcomeView::Session(None)),
        ),
{
}

/// A wrapper of legacy sessions stands for the first of them in
/// enumeration order, however many it holds.
pub proof fn wrapper_stands_for_first_session(value: HostValue, sessions: HostValue)
    requires
        value.property("_sessions"@) == Some(sessions),
        sessions is Object,
        sessions.properties().len() > 0,
        sessions.properties()[0].value.property("registrationId"@).is_some(),
    ensures
        selected_session(value) == Ok::<Option<HostValue>, crate::errors::LegacyField>(
            Some(sessions.properties()[0].value),
        ),
{
}

/// Loading a session never fails over what the host holds in place of
/// canonical bytes: an answer with a value fails only where the value is
/// a byte buffer that does not decode. A legacy value, complete or not,
/// one session or a wrapper of several, ends in a record, in nothing, or in
/// a further host call.
pub proof fn session_value_fails_only_on_bytes(cache: CacheView, address: Seq<char>, value: HostValue)
    ensures
        session_value_step(cache, address, value).1 matches StepView::Done(Err(e)) ==> value
            is Bytes && e == StoreError::Codec(CodecError::SessionRecord),
        forall|identity: Seq<u8>|
            !(#[trigger] continue_migration(cache, address, value, identity).1
                matches StepView::Done(Err(_))),
{
}

/// A legacy session loads as its migration. With the local identity and
/// the local registration id remembered, the answer that holds a complete
/// legacy session ends the load with the migrated record; the record is
/// remembered in its canonical form, so that the next load of the address
/// hands it out without a host call and without a second migration.
pub proof fn legacy_session_loads_as_its_migration(
    cache: CacheView,
    address: Seq<char>,
    value: HostValue,
    data: HostValue,
    legacy: LegacySessionView,
    identity: KeyPairView,
    registration_id: u32,
)
    requires
        !(value is Bytes),
        selected_session(value) == Ok::<Option<HostValue>, crate::errors::LegacyField>(
            Some(data),
        ),
        parsed_session(data) == Ok::<LegacySessionView, crate::errors::LegacyField>(legacy),
        cache.identity == Some(identity),
        cache.registration_id == Some(registration_id),
    ensures
        ({
            let bytes = migrated_bytes(legacy, identity.public_key, registration_id);
            let after = resume_step(
                cache,
                PendingView::Session { address },
                HostReply::Value(value),
            );
            &&& after.1 == done(OutcomeView::Session(Some(bytes)))
            &&& after.0 == cache.with_session(address, bytes)
            &&& load_session_step(after.0, address) == done(OutcomeView::Session(Some(bytes)))
        }),
{
}

/// The same load on an adapter that knows nothing of the local user yet
/// takes three host calls, in this order: the session, the identity, the
/// registration id. It ends with the migrated record, and remembers it.
pub proof fn legacy_session_loads_over_three_calls(
    cache: CacheView,
    address: Seq<char>,
    value: HostValue,
    data: HostValue,
    legacy: LegacySessionView,
    identity_reply: HostReply,
    identity: KeyPairView,
    registration_reply: HostReply,
    registration_id: u32,
)
    requires
        !(value is Bytes),
        selected_session(value) == Ok::<Option<HostValue>, crate::errors::LegacyField>(
            Some(data),
        ),
        parsed_session(data) == Ok::<LegacySessionView, crate::errors::LegacyField>(legacy),
        cache.identity.is_none(),
        cache.registration_id.is_none(),
        !cache.sessions.contains_key(address),
        identity_of_reply(identity_reply) == Ok::<KeyPairView, StoreError>(identity),
        registration_id_of_reply(registration_reply) == Ok::<u32, StoreError>(registration_id),
    ensures
        ({
            let bytes = migrated_bytes(legacy, identity.public_key, registration_id);
            let asked = PendingView::Session { address };
            let first = resume_step(cache, asked, HostReply::Value(value));
            let for_identity = PendingView::SessionIdentity { address, value };
            let second = resume_step(first.0, for_identity, identity_reply);
            let for_registration = PendingView::SessionRegistrationId {
                address,
                legacy,
                local_identity_public: identity.public_key,
            };
            let third = resume_step(second.0, for_registration, registration_reply);
            &&& load_session_step(cache, address) == StepView::Call(
                HostCallView::LoadSession { address },
                asked,
            )
            &&& first == (cache, StepView::Call(HostCallView::GetIdentityKeyPair, for_identity))
            &&& second.1 == StepView::Call(HostCallView::GetLocalRegistrationId, for_registration)
            &&& third.1 == done(OutcomeView::Session(Some(bytes)))
            &&& load_session_step(third.0, address) == done(OutcomeView::Session(Some(bytes)))
        }),
{
}

/// A wrapper of several legacy sessions loads as the migration of its
/// first session alone: nothing of the others is in the record, and the
/// load is no error.
pub proof fn wrapper_loads_as_its_first_session(
    cache: CacheView,
    address: Seq<char>,
    value: HostValue,
    sessions: HostValue,
    legacy: LegacySessionView,
    identity: KeyPairView,
    registration_id: u32,
)
    requires
        value.property("_sessions"@) == Some(sessions),
        sessions is Object,
        sessions.properties().len() > 0,
        sessions.properties()[0].value.property("registrationId"@).is_some(),
        parsed_session(sessions.properties()[0].value) == Ok::<
            LegacySessionView,
            crate::errors::LegacyField,
        >(legacy),
        cache.identity == Some(identity),
        cache.registration_id == Some(registration_id),
    ensures
        resume_step(cache, PendingView::Session { address }, HostReply::Value(value)).1 == done(
            OutcomeView::Session(
                Some(migrated_bytes(legacy, identity.public_key, registration_id)),
            ),
        ),
        migrated_session(legacy, identity.public_key, registration_id).remote_registration_id
            == legacy.registration_id,
{
    wrapper_stands_for_first_session(value, sessions);
    legacy_session_loads_as_its_migration(
        cache,
        address,
        value,
        sessions.properties()[0].value,
        legacy,
        identity,
        registration_id,
    );
}

/// A legacy sender key that the host's parser read loads as its
/// migration, and is remembered in canonical form.
pub proof fn legacy_sender_key_loads_as_its_migration(
    cache: CacheView,
    key_id: Seq<char>,
    parsed: HostValue,
    bytes: Seq<u8>,
)
    requires
        migrated_sender_key(parsed) == Ok::<Option<Seq<u8>>, crate::errors::LegacyField>(
            Some(bytes),
        ),
    ensures
        ({
            let after = resume_step(
                cache,
                PendingView::SenderKeyJson { key_id },
                HostReply::Value(parsed),
            );
            &&& after.1 == done(OutcomeView::SenderKey(Some(bytes)))
            &&& load_sender_key_step(after.0, key_id) == done(OutcomeView::SenderKey(Some(bytes)))
        }),
{
}

/// The local identity and the local registration id are asked for once:
/// after an answer that gave one, the adapter hands it out without a host
/// call.
pub proof fn local_user_is_asked_for_once(cache: CacheView, reply: HostReply)
    ensures
        identity_of_reply(reply) matches Ok(pair) ==> identity_step(
            resume_step(cache, PendingView::IdentityKeyPair, reply).0,
        ) == done(OutcomeView::IdentityKeyPair(pair)),
        registration_id_of_reply(reply) matches Ok(id) ==> registration_id_step(
            resume_step(cache, PendingView::RegistrationId, reply).0,
        ) == done(OutcomeView::RegistrationId(id)),
{
}

/// Whether one memory holds everything that another holds: every key that
/// was remembered is still remembered, and what was once known of the
/// local user is still known.
pub open spec fn remembers_all_of(after: CacheView, before: CacheView) -> bool {
    &&& before.sessions.dom().subset_of(after.sessions.dom())
    &&& before.sender_keys.dom().subset_of(after.sender_keys.dom())
    &&& before.identities.dom().subset_of(after.identities.dom())
    &&& before.identity.is_some() ==> after.identity.is_some()
    &&& before.registration_id.is_some() ==> after.registration_id.is_some()
}

/// Nothing is ever taken out of the adapter's memory: whatever the host
/// answers, the step after a host call forgets nothing, and neither does a
/// write.
pub proof fn memory_only_grows(
    cache: CacheView,
    pending: PendingView,
    reply: HostReply,
    key: Seq<char>,
    bytes: Seq<u8>,
)
    ensures
        remembers_all_of(resume_step(cache, pending, reply).0, cache),
        remembers_all_of(store_session_step(cache, key, bytes).0, cache),
        remembers_all_of(store_sender_key_step(cache, key, bytes).0, cache),
        remembers_all_of(save_identity_step(cache, key, bytes).0, cache),
{
}

} // verus!
