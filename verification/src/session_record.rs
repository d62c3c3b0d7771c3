//! Session and sender-key records in their canonical byte form, and the
//! codec that checks bytes against the protocol engine's decoder.

use crate::errors::{CodecError, RecordError, StoreError};
use crate::buffers::{copy_bytes, copy_slice};
use crate::host_value::{js_array_to_vec, list_bytes, HostValue};
use crate::records::{
    inspect_sender_key, inspect_session, sender_key_record_summary, session_record_summary,
};
use vstd::prelude::*;

verus! {

/// A session record: the canonical bytes of the sessions with one peer.
#[derive(Debug, Clone, PartialEq, Eq)]
pub struct SessionRecord {
    pub(crate) serialized_data: Vec<u8>,
}

/// A sender-key record: the canonical bytes of the states of one sender
/// key.
#[derive(Debug, Clone, PartialEq, Eq)]
pub struct SenderKeyRecord {
    pub(crate) serialized_data: Vec<u8>,
}

impl View for SessionRecord {
    type V = Seq<u8>;

    closed spec fn view(&self) -> Seq<u8> {
        self.serialized_data@
    }
}

impl View for SenderKeyRecord {
    type V = Seq<u8>;

    closed spec fn view(&self) -> Seq<u8> {
        self.serialized_data@
    }
}

/// The bytes of the session record that holds no session:
/// `SessionRecord::deserialize` of no bytes, then `serialize`. The engine
/// encodes a record without sessions as no bytes.
#[verifier::external_body]
pub(crate) fn empty_session_bytes() -> (bytes: Vec<u8>)
    ensures
        bytes@.len() == 0,
{
    wacore_libsignal::protocol::SessionRecord::deserialize(&[])
        .ok()
        .and_then(|r| r.serialize().ok())
        .unwrap_or_default()
}

/// The bytes of the sender-key record that holds no state:
/// `SenderKeyRecord::new_empty`, then `serialize`. The engine encodes a
/// record without states as no bytes.
#[verifier::external_body]
fn empty_sender_key_bytes() -> (bytes: Vec<u8>)
    ensures
        bytes@.len() == 0,
{
    wacore_libsignal::protocol::SenderKeyRecord::new_empty().serialize().unwrap_or_default()
}

/// The bytes of the record that a host value stands for, by priority: a
/// byte buffer; a list of numbers; a wrapper of legacy sessions, which
/// stands for the empty record; an object whose `data` is a list.
pub open spec fn record_bytes_of(val: HostValue) -> Result<Seq<u8>, RecordError> {
    match val {
        HostValue::Bytes(b) => Ok(b@),
        HostValue::List(items) => Ok(list_bytes(items@)),
        _ => if val.property("_sessions"@).is_some() {
            Ok(Seq::empty())
        } else {
            match val.property("data"@) {
                Some(HostValue::List(items)) => Ok(list_bytes(items@)),
                _ => Err(RecordError::InvalidInputType),
            }
        },
    }
}

impl SessionRecord {
    /// Whether the protocol engine decodes the record.
    pub open spec fn is_valid(&self) -> bool {
        session_record_summary(self@).is_some()
    }

    /// Wraps canonical bytes; they are not checked.
    pub fn new(data: Vec<u8>) -> (record: Self)
        ensures
            record@ == data@,
    {
        Self { serialized_data: data }
    }

    /// Takes a record from a host value.
    ///
    /// A legacy wrapper is not migrated here: it gives the empty record,
    /// which tells the protocol engine to negotiate a new session.
    pub fn deserialize(val: &HostValue) -> (record: Result<SessionRecord, RecordError>)
        ensures
            match record {
                Ok(r) => record_bytes_of(*val) == Ok::<Seq<u8>, RecordError>(r@),
                Err(e) => record_bytes_of(*val) == Err::<Seq<u8>, RecordError>(e),
            },
    {
        match val {
            HostValue::Bytes(b) => {
                return Ok(SessionRecord::new(copy_bytes(b)));
            },
            HostValue::List(items) => {
                return Ok(SessionRecord::new(js_array_to_vec(items)));
            },
            _ => {},
        }
        if val.has("_sessions") {
            let empty = empty_session_bytes();
            assert(empty@ == Seq::<u8>::empty());
            return Ok(SessionRecord::new(empty));
        }
        match val.get("data") {
            Some(HostValue::List(items)) => Ok(SessionRecord::new(js_array_to_vec(items))),
            _ => Err(RecordError::InvalidInputType),
        }
    }

    /// The canonical bytes of the record.
    pub fn serialize(&self) -> (bytes: Vec<u8>)
        ensures
            bytes@ == self@,
    {
        copy_bytes(&self.serialized_data)
    }

    /// Whether the record decodes and has a current session.
    pub fn have_open_session(&self) -> (open: bool)
        ensures
            open == match session_record_summary(self@) {
                Some(summary) => summary.has_current_session,
                None => false,
            },
    {
        match inspect_session(self.serialized_data.as_slice()) {
            Some(summary) => summary.has_current_session,
            None => false,
        }
    }

    /// Whether the record decodes and its current session has a sender
    /// chain. A session without one is not yet negotiated.
    pub fn has_usable_sender_chain(&self) -> (usable: bool)
        ensures
            usable == match session_record_summary(self@) {
                Some(summary) => summary.has_usable_sender_chain,
                None => false,
            },
    {
        match inspect_session(self.serialized_data.as_slice()) {
            Some(summary) => summary.has_usable_sender_chain,
            None => false,
        }
    }
}

impl SenderKeyRecord {
    /// Whether the protocol engine decodes the record.
    pub open spec fn is_valid(&self) -> bool {
        sender_key_record_summary(self@).is_some()
    }

    /// The record that holds no state.
    pub fn new() -> (record: Self)
        ensures
            record@ == Seq::<u8>::empty(),
    {
        let empty = empty_sender_key_bytes();
        assert(empty@ == Seq::<u8>::empty());
        Self { serialized_data: empty }
    }

    /// Wraps canonical bytes; they are not checked.
    pub fn from_bytes(data: Vec<u8>) -> (record: Self)
        ensures
            record@ == data@,
    {
        Self { serialized_data: data }
    }

    /// Takes a record from canonical bytes, if the protocol engine decodes
    /// them.
    pub fn deserialize(serialized: &[u8]) -> (record: Result<SenderKeyRecord, StoreError>)
        ensures
            match record {
                Ok(r) => decoded_sender_key(serialized@) == Some(r@),
                Err(e) => decoded_sender_key(serialized@).is_none() && e == StoreError::Codec(
                    CodecError::SenderKeyRecord,
                ),
            },
    {
        decode_sender_key(serialized)
    }

    /// The canonical bytes of the record.
    pub fn serialize(&self) -> (bytes: Vec<u8>)
        ensures
            bytes@ == self@,
    {
        copy_bytes(&self.serialized_data)
    }

    /// Whether the record holds no state, or does not decode.
    pub fn is_empty(&self) -> (empty: bool)
        ensures
            empty == match sender_key_record_summary(self@) {
                Some(summary) => !summary.has_state,
                None => true,
            },
    {
        match inspect_sender_key(self.serialized_data.as_slice()) {
            Some(summary) => !summary.has_state,
            None => true,
        }
    }
}

/// Whether what was loaded for a peer is a session that can send: a
/// record that decodes and whose current session has a sender chain.
pub open spec fn established(loaded: Option<SessionRecord>) -> bool {
    match loaded {
        Some(record) => match session_record_summary(record@) {
            Some(summary) => summary.has_usable_sender_chain,
            None => false,
        },
        None => false,
    }
}

/// Tells whether a session with a peer is already established, so that an
/// outgoing session need not be set up again.
pub fn is_established(loaded: &Option<SessionRecord>) -> (r: bool)
    ensures
        r == established(*loaded),
{
    match loaded {
        Some(record) => record.has_usable_sender_chain(),
        None => false,
    }
}

/// The session record that canonical bytes decode to: the bytes
/// themselves, where the protocol engine decodes them.
pub open spec fn decoded_session(bytes: Seq<u8>) -> Option<Seq<u8>> {
    if session_record_summary(bytes).is_some() {
        Some(bytes)
    } else {
        None
    }
}

/// The bytes that a session record encodes to.
pub open spec fn encoded_session(record: Seq<u8>) -> Seq<u8> {
    record
}

/// The sender-key record that canonical bytes decode to: the bytes
/// themselves, where the protocol engine decodes them.
pub open spec fn decoded_sender_key(bytes: Seq<u8>) -> Option<Seq<u8>> {
    if sender_key_record_summary(bytes).is_some() {
        Some(bytes)
    } else {
        None
    }
}

/// The bytes that a sender-key record encodes to.
pub open spec fn encoded_sender_key(record: Seq<u8>) -> Seq<u8> {
    record
}

/// Decodes canonical bytes into a session record. Bytes that the protocol
/// engine does not decode are an error, never an absent record.
pub fn decode_session(bytes: &[u8]) -> (record: Result<SessionRecord, StoreError>)
    ensures
        match record {
            Ok(r) => decoded_session(bytes@) == Some(r@) && r.is_valid(),
            Err(e) => decoded_session(bytes@).is_none() && e == StoreError::Codec(
                CodecError::SessionRecord,
            ),
        },
{
    match inspect_session(bytes) {
        Some(_) => Ok(SessionRecord::new(copy_slice(bytes))),
        None => Err(StoreError::Codec(CodecError::SessionRecord)),
    }
}

/// Encodes a session record into its canonical bytes.
pub fn encode_session(record: &SessionRecord) -> (bytes: Result<Vec<u8>, StoreError>)
    ensures
        match bytes {
            Ok(b) => b@ == encoded_session(record@),
            Err(_) => false,
        },
{
    Ok(record.serialize())
}

/// Decodes canonical bytes into a sender-key record.
pub fn decode_sender_key(bytes: &[u8]) -> (record: Result<SenderKeyRecord, StoreError>)
    ensures
        match record {
            Ok(r) => decoded_sender_key(bytes@) == Some(r@) && r.is_valid(),
            Err(e) => decoded_sender_key(bytes@).is_none() && e == StoreError::Codec(
                CodecError::SenderKeyRecord,
            ),
        },
{
    match inspect_sender_key(bytes) {
        Some(_) => Ok(SenderKeyRecord::from_bytes(copy_slice(bytes))),
        None => Err(StoreError::Codec(CodecError::SenderKeyRecord)),
    }
}

/// Encodes a sender-key record into its canonical bytes.
pub fn encode_sender_key(record: &SenderKeyRecord) -> (bytes: Result<Vec<u8>, StoreError>)
    ensures
        match bytes {
            Ok(b) => b@ == encoded_sender_key(record@),
            Err(_) => false,
        },
{
    Ok(record.serialize())
}

/// Encoding a valid session record, decoding the bytes and encoding the
/// result again gives the bytes of the first encoding; the decoding in
/// between succeeds and gives the record back.
pub proof fn session_round_trip(record: SessionRecord)
    requires
        record.is_valid(),
    ensures
        decoded_session(encoded_session(record@)) == Some(record@),
        encoded_session(decoded_session(encoded_session(record@)).unwrap()) == encoded_session(
            record@,
        ),
{
}

/// Encoding a valid sender-key record, decoding the bytes and encoding the
/// result again gives the bytes of the first encoding.
pub proof fn sender_key_round_trip(record: SenderKeyRecord)
    requires
        record.is_valid(),
    ensures
        decoded_sender_key(encoded_sender_key(record@)) == Some(record@),
        encoded_sender_key(decoded_sender_key(encoded_sender_key(record@)).unwrap())
            == encoded_sender_key(record@),
{
}

} // verus!
