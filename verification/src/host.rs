//! The conversation with the host store: the calls that the adapter asks
//! for, the answers that come back, and where an operation stands while a
//! call is under way.
//!
//! The adapter itself performs no call. It says which call is next; its
//! user performs it, in whatever way the host wants, and hands the answer
//! back.

use crate::host_value::HostValue;
use crate::keys::{
    IdentityKeyPair, JsIdentityKeyPairPayload, JsPreKeyRecordPayload, JsSignedPreKeyRecordPayload,
    KeyPairView, PreKeyRecord, PreKeyRecordView, SignedPreKeyRecord, SignedPreKeyRecordView,
};
use crate::errors::StoreError;
use crate::legacy_session::{LegacySession, LegacySessionView};
use crate::session_record::{SenderKeyRecord, SessionRecord};
use vstd::prelude::*;

verus! {

/// The direction of the message for which an identity is checked.
#[derive(Debug, Clone, Copy, PartialEq, Eq, Structural)]
pub enum Direction {
    Sending,
    Receiving,
}

/// A call to the host store.
#[derive(Debug, PartialEq, Eq)]
pub enum HostCall {
    LoadSession { address: String },
    StoreSession { address: String, record: Vec<u8> },
    GetIdentityKeyPair,
    GetLocalRegistrationId,
    IsTrustedIdentity { name: String, identity_key: Vec<u8>, direction: u32 },
    SaveIdentity { name: String, identity_key: Vec<u8> },
    LoadPreKey { id: u32 },
    RemovePreKey { id: u32 },
    LoadSignedPreKey { id: u32 },
    LoadSenderKey { key_id: String },
    StoreSenderKey { key_id: String, record: Vec<u8> },
    /// Not a call to the store: the host's JSON parser is asked to read a
    /// text.
    ParseJson { text: String },
}

/// The host's answer to a call.
#[derive(Debug, PartialEq, Eq)]
pub enum HostReply {
    /// The call came back with a value.
    Value(HostValue),
    /// The call itself failed: it threw, or its promise was rejected.
    Failed(String),
    /// The host has no such call.
    NotImplemented,
    /// The call came back with a value that could not be read as the
    /// payload that was asked for.
    Malformed(String),
    /// The identity that was asked for.
    IdentityKeyPair(JsIdentityKeyPairPayload),
    /// The pre-key that was asked for.
    PreKey(JsPreKeyRecordPayload),
    /// The signed pre-key that was asked for.
    SignedPreKey(JsSignedPreKeyRecordPayload),
}

/// Where an operation stands while a host call is under way.
#[derive(Debug, PartialEq, Eq)]
pub enum Pending {
    /// A session was asked for.
    Session { address: String },
    /// A legacy session is at hand; the local identity was asked for.
    SessionIdentity { address: String, value: HostValue },
    /// A legacy session was read; the local registration id was asked for.
    SessionRegistrationId { address: String, legacy: LegacySession, local_identity_public: Vec<u8> },
    StoreSession,
    IdentityKeyPair,
    RegistrationId,
    TrustedIdentity { name: String, identity_key: Vec<u8> },
    SaveIdentity,
    PreKey { id: u32 },
    RemovePreKey,
    SignedPreKey { id: u32 },
    /// A sender key was asked for.
    SenderKey { key_id: String },
    /// The stored sender key is a legacy one; the host parses its JSON.
    SenderKeyJson { key_id: String },
    StoreSenderKey,
}

/// What an operation gave.
#[derive(Debug, PartialEq, Eq)]
pub enum Outcome {
    Session(Option<SessionRecord>),
    SenderKey(Option<SenderKeyRecord>),
    IdentityKeyPair(IdentityKeyPair),
    RegistrationId(u32),
    Trusted(bool),
    /// Whether the saved identity replaced another.
    IdentityChanged(bool),
    PreKey(PreKeyRecord),
    SignedPreKey(SignedPreKeyRecord),
    Stored,
    Removed,
}

/// The next step of an operation: a call to make, or the end.
#[derive(Debug, PartialEq, Eq)]
pub enum Step {
    /// Make the call, then resume with the answer.
    Call(HostCall, Pending),
    /// The operation is over.
    Done(Result<Outcome, StoreError>),
}

/// What a `HostCall` holds.
pub enum HostCallView {
    LoadSession { address: Seq<char> },
    StoreSession { address: Seq<char>, record: Seq<u8> },
    GetIdentityKeyPair,
    GetLocalRegistrationId,
    IsTrustedIdentity { name: Seq<char>, identity_key: Seq<u8>, direction: u32 },
    SaveIdentity { name: Seq<char>, identity_key: Seq<u8> },
    LoadPreKey { id: u32 },
    RemovePreKey { id: u32 },
    LoadSignedPreKey { id: u32 },
    LoadSenderKey { key_id: Seq<char> },
    StoreSenderKey { key_id: Seq<char>, record: Seq<u8> },
    ParseJson { text: Seq<char> },
}

/// What a `Pending` holds.
pub enum PendingView {
    Session { address: Seq<char> },
    SessionIdentity { address: Seq<char>, value: HostValue },
    SessionRegistrationId {
        address: Seq<char>,
        legacy: LegacySessionView,
        local_identity_public: Seq<u8>,
    },
    StoreSession,
    IdentityKeyPair,
    RegistrationId,
    TrustedIdentity { name: Seq<char>, identity_key: Seq<u8> },
    SaveIdentity,
    PreKey { id: u32 },
    RemovePreKey,
    SignedPreKey { id: u32 },
    SenderKey { key_id: Seq<char> },
    SenderKeyJson { key_id: Seq<char> },
    StoreSenderKey,
}

/// What an `Outcome` holds.
pub enum OutcomeView {
    Session(Option<Seq<u8>>),
    SenderKey(Option<Seq<u8>>),
    IdentityKeyPair(KeyPairView),
    RegistrationId(u32),
    Trusted(bool),
    IdentityChanged(bool),
    PreKey(PreKeyRecordView),
    SignedPreKey(SignedPreKeyRecordView),
    Stored,
    Removed,
}

/// What a `Step` holds.
pub enum StepView {
    Call(HostCallView, PendingView),
    Done(Result<OutcomeView, StoreError>),
}

impl View for HostCall {
    type V = HostCallView;

    open spec fn view(&self) -> HostCallView {
        match *self {
            HostCall::LoadSession { address } => HostCallView::LoadSession { address: address@ },
            HostCall::StoreSession { address, record } => HostCallView::StoreSession {
                address: address@,
                record: record@,
            },
            HostCall::GetIdentityKeyPair => HostCallView::GetIdentityKeyPair,
            HostCall::GetLocalRegistrationId => HostCallView::GetLocalRegistrationId,
            HostCall::IsTrustedIdentity { name, identity_key, direction } => {
                HostCallView::IsTrustedIdentity {
                    name: name@,
                    identity_key: identity_key@,
                    direction,
                }
            },
            HostCall::SaveIdentity { name, identity_key } => HostCallView::SaveIdentity {
                name: name@,
                identity_key: identity_key@,
            },
            HostCall::LoadPreKey { id } => HostCallView::LoadPreKey { id },
            HostCall::RemovePreKey { id } => HostCallView::RemovePreKey { id },
            HostCall::LoadSignedPreKey { id } => HostCallView::LoadSignedPreKey { id },
            HostCall::LoadSenderKey { key_id } => HostCallView::LoadSenderKey { key_id: key_id@ },
            HostCall::StoreSenderKey { key_id, record } => HostCallView::StoreSenderKey {
                key_id: key_id@,
                record: record@,
            },
            HostCall::ParseJson { text } => HostCallView::ParseJson { text: text@ },
        }
    }
}

impl View for Pending {
    type V = PendingView;

    open spec fn view(&self) -> PendingView {
        match *self {
            Pending::Session { address } => PendingView::Session { address: address@ },
            Pending::SessionIdentity { address, value } => PendingView::SessionIdentity {
                address: address@,
                value,
            },
            Pending::SessionRegistrationId { address, legacy, local_identity_public } => {
                PendingView::SessionRegistrationId {
                    address: address@,
                    legacy: legacy@,
                    local_identity_public: local_identity_public@,
                }
            },
            Pending::StoreSession => PendingView::StoreSession,
            Pending::IdentityKeyPair => PendingView::IdentityKeyPair,
            Pending::RegistrationId => PendingView::RegistrationId,
            Pending::TrustedIdentity { name, identity_key } => PendingView::TrustedIdentity {
                name: name@,
                identity_key: identity_key@,
            },
            Pending::SaveIdentity => PendingView::SaveIdentity,
            Pending::PreKey { id } => PendingView::PreKey { id },
            Pending::RemovePreKey => PendingView::RemovePreKey,
            Pending::SignedPreKey { id } => PendingView::SignedPreKey { id },
            Pending::SenderKey { key_id } => PendingView::SenderKey { key_id: key_id@ },
            Pending::SenderKeyJson { key_id } => PendingView::SenderKeyJson { key_id: key_id@ },
            Pending::StoreSenderKey => PendingView::StoreSenderKey,
        }
    }
}

impl View for Outcome {
    type V = OutcomeView;

    open spec fn view(&self) -> OutcomeView {
        match *self {
            Outcome::Session(record) => OutcomeView::Session(
                match record {
                    Some(r) => Some(r@),
                    None => None,
                },
            ),
            Outcome::SenderKey(record) => OutcomeView::SenderKey(
                match record {
                    Some(r) => Some(r@),
                    None => None,
                },
            ),
            Outcome::IdentityKeyPair(pair) => OutcomeView::IdentityKeyPair(pair@),
            Outcome::RegistrationId(id) => OutcomeView::RegistrationId(id),
            Outcome::Trusted(trusted) => OutcomeView::Trusted(trusted),
            Outcome::IdentityChanged(changed) => OutcomeView::IdentityChanged(changed),
            Outcome::PreKey(record) => OutcomeView::PreKey(record@),
            Outcome::SignedPreKey(record) => OutcomeView::SignedPreKey(record@),
            Outcome::Stored => OutcomeView::Stored,
            Outcome::Removed => OutcomeView::Removed,
        }
    }
}

impl View for Step {
    type V = StepView;

    open spec fn view(&self) -> StepView {
        match *self {
            Step::Call(call, pending) => StepView::Call(call@, pending@),
            Step::Done(Ok(outcome)) => StepView::Done(Ok(outcome@)),
            Step::Done(Err(e)) => StepView::Done(Err(e)),
        }
    }
}

/// The number that stands for a direction in a host call: 0 for sending,
/// 1 for receiving.
pub open spec fn direction_number(direction: Direction) -> u32 {
    match direction {
        Direction::Sending => 0,
        Direction::Receiving => 1,
    }
}

/// The number that stands for a direction in a host call.
pub fn direction_value(direction: Direction) -> (n: u32)
    ensures
        n == direction_number(direction),
{
    match direction {
        Direction::Sending => 0,
        Direction::Receiving => 1,
    }
}

} // verus!
