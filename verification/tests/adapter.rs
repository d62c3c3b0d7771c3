use base64::Engine;
use prost::Message;
use signal_bridge::errors::{CodecError, Context, Reason, StoreError};
use signal_bridge::host::{Direction, HostCall, HostReply, Outcome, Pending, Step};
use signal_bridge::host_value::{HostValue, Property};
use signal_bridge::keys::{
    JsIdentityKeyPairPayload, JsKeyEnvelope, JsKeyPairBytes, JsPreKeyRecordPayload,
    JsSignedPreKeyRecordPayload,
};
use signal_bridge::protocol_address::ProtocolAddress;
use signal_bridge::sender_key_name::SenderKeyName;
use signal_bridge::session_record::{SenderKeyRecord, SessionRecord};
use signal_bridge::storage_adapter::JsStorageAdapter;

fn b64(bytes: &[u8]) -> String {
    base64::prelude::BASE64_STANDARD.encode(bytes)
}

fn text(s: &str) -> HostValue {
    HostValue::Text(s.to_string())
}

fn obj(props: Vec<(&str, HostValue)>) -> HostValue {
    HostValue::Object(
        props
            .into_iter()
            .map(|(key, value)| Property { key: key.to_string(), value })
            .collect(),
    )
}

fn from_json(value: &serde_json::Value) -> HostValue {
    match value {
        serde_json::Value::Null => HostValue::Null,
        serde_json::Value::Bool(b) => HostValue::Bool(*b),
        serde_json::Value::Number(n) => HostValue::Number(n.as_i64().unwrap_or(0)),
        serde_json::Value::String(s) => HostValue::Text(s.clone()),
        serde_json::Value::Array(items) => HostValue::List(items.iter().map(from_json).collect()),
        serde_json::Value::Object(map) => HostValue::Object(
            map.iter()
                .map(|(key, value)| Property { key: key.clone(), value: from_json(value) })
                .collect(),
        ),
    }
}

fn legacy_session(registration_id: i64, root: u8) -> HostValue {
    let chain = |chain_type: i64, counter: i64, key: u8, first: u8| {
        obj(vec![
            ("chainType", HostValue::Number(chain_type)),
            (
                "chainKey",
                obj(vec![("counter", HostValue::Number(counter)), ("key", text(&b64(&[key; 32])))]),
            ),
            (
                "messageKeys",
                obj(vec![("1", text(&b64(&[first; 32]))), ("2", text(&b64(&[first + 1; 32])))]),
            ),
        ])
    };
    obj(vec![
        ("registrationId", HostValue::Number(registration_id)),
        (
            "currentRatchet",
            obj(vec![
                ("rootKey", text(&b64(&[root; 32]))),
                ("previousCounter", HostValue::Number(3)),
                (
                    "ephemeralKeyPair",
                    obj(vec![
                        ("pubKey", text(&b64(&[0x21; 33]))),
                        ("privKey", text(&b64(&[0x22; 32]))),
                    ]),
                ),
            ]),
        ),
        (
            "indexInfo",
            obj(vec![
                ("remoteIdentityKey", text(&b64(&remote_identity()))),
                ("baseKey", text(&b64(&[0x32; 33]))),
            ]),
        ),
        (
            "_chains",
            HostValue::Object(vec![
                Property { key: b64(&[0x21; 33]), value: chain(1, 4, 0x41, 0x51) },
                Property { key: b64(&[0x07; 33]), value: chain(2, 9, 0x42, 0x61) },
            ]),
        ),
    ])
}

fn remote_identity() -> Vec<u8> {
    let mut key = vec![0x05u8];
    key.extend_from_slice(&[0x31; 32]);
    key
}

fn identity_payload(public_key: Vec<u8>, private_key: Vec<u8>) -> JsIdentityKeyPairPayload {
    JsIdentityKeyPairPayload {
        keys: JsKeyEnvelope {
            inline: JsKeyPairBytes { public_key: Some(public_key), private_key: Some(private_key) },
            key_pair: None,
        },
    }
}

/// A host that counts its calls and answers from what a test put into it.
struct MockHost {
    calls: Vec<String>,
    session: Box<dyn Fn() -> HostValue>,
    sender_key: Box<dyn Fn() -> HostValue>,
    registration_id: HostValue,
    trusted: HostReply,
    fail_writes: bool,
}

impl MockHost {
    fn new() -> Self {
        MockHost {
            calls: Vec::new(),
            session: Box::new(|| HostValue::Null),
            sender_key: Box::new(|| HostValue::Null),
            registration_id: HostValue::Number(1234),
            trusted: HostReply::NotImplemented,
            fail_writes: false,
        }
    }

    fn count(&self, name: &str) -> usize {
        self.calls.iter().filter(|c| c.as_str() == name).count()
    }

    fn write(&self) -> HostReply {
        if self.fail_writes {
            HostReply::Failed("disk full".to_string())
        } else {
            HostReply::Value(HostValue::Undefined)
        }
    }

    fn answer(&mut self, call: HostCall) -> HostReply {
        match call {
            HostCall::LoadSession { .. } => {
                self.calls.push("loadSession".into());
                HostReply::Value((self.session)())
            }
            HostCall::StoreSession { .. } => {
                self.calls.push("storeSession".into());
                self.write()
            }
            HostCall::GetIdentityKeyPair => {
                self.calls.push("getIdentityKeyPair".into());
                HostReply::IdentityKeyPair(identity_payload(vec![0x11; 32], vec![0x12; 32]))
            }
            HostCall::GetLocalRegistrationId => {
                self.calls.push("getLocalRegistrationId".into());
                HostReply::Value(std::mem::replace(&mut self.registration_id, HostValue::Null))
            }
            HostCall::IsTrustedIdentity { .. } => {
                self.calls.push("isTrustedIdentity".into());
                std::mem::replace(&mut self.trusted, HostReply::NotImplemented)
            }
            HostCall::SaveIdentity { .. } => {
                self.calls.push("saveIdentity".into());
                HostReply::Value(HostValue::Bool(true))
            }
            HostCall::LoadPreKey { .. } => {
                self.calls.push("loadPreKey".into());
                HostReply::Value(HostValue::Null)
            }
            HostCall::RemovePreKey { .. } => {
                self.calls.push("removePreKey".into());
                self.write()
            }
            HostCall::LoadSignedPreKey { .. } => {
                self.calls.push("loadSignedPreKey".into());
                HostReply::Value(HostValue::Undefined)
            }
            HostCall::LoadSenderKey { .. } => {
                self.calls.push("loadSenderKey".into());
                HostReply::Value((self.sender_key)())
            }
            HostCall::StoreSenderKey { .. } => {
                self.calls.push("storeSenderKey".into());
                self.write()
            }
            HostCall::ParseJson { text } => {
                self.calls.push("parseJson".into());
                match serde_json::from_str::<serde_json::Value>(&text) {
                    Ok(value) => HostReply::Value(from_json(&value)),
                    Err(e) => HostReply::Failed(e.to_string()),
                }
            }
        }
    }
}

fn drive(
    adapter: &mut JsStorageAdapter,
    host: &mut MockHost,
    first: Step,
) -> Result<Outcome, StoreError> {
    let mut step = first;
    loop {
        match step {
            Step::Done(result) => return result,
            Step::Call(call, pending) => {
                let reply = host.answer(call);
                step = adapter.resume(pending, reply);
            }
        }
    }
}

fn address(name: &str, device: u32) -> ProtocolAddress {
    ProtocolAddress::new(name.to_string(), device).unwrap()
}

fn valid_record_bytes() -> Vec<u8> {
    waproto::whatsapp::RecordStructure {
        current_session: Some(waproto::whatsapp::SessionStructure {
            session_version: Some(3),
            root_key: Some(vec![9; 32]),
            ..Default::default()
        }),
        previous_sessions: Vec::new(),
    }
    .encode_to_vec()
}

#[test]
fn stored_session_is_read_back_without_a_host_call() {
    let mut adapter = JsStorageAdapter::new();
    let mut host = MockHost::new();
    let peer = address("alice", 2);
    let record = SessionRecord::new(valid_record_bytes());

    let step = adapter.store_session(&peer, &record);
    match &step {
        Step::Call(HostCall::StoreSession { address, record }, Pending::StoreSession) => {
            assert_eq!(address, "alice.2");
            assert_eq!(record, &valid_record_bytes());
        }
        other => panic!("unexpected step {:?}", other),
    }
    // The read sees the write even before the host has answered.
    assert_eq!(
        adapter.load_session(&peer),
        Step::Done(Ok(Outcome::Session(Some(SessionRecord::new(valid_record_bytes())))))
    );
    assert_eq!(drive(&mut adapter, &mut host, step), Ok(Outcome::Stored));
    let first = adapter.load_session(&peer);
    assert_eq!(
        drive(&mut adapter, &mut host, first),
        Ok(Outcome::Session(Some(SessionRecord::new(valid_record_bytes()))))
    );
    assert_eq!(host.count("loadSession"), 0);
    assert_eq!(host.count("storeSession"), 1);
}

#[test]
fn failed_write_is_an_error_and_stays_remembered() {
    let mut adapter = JsStorageAdapter::new();
    let mut host = MockHost::new();
    host.fail_writes = true;
    let peer = address("alice", 2);
    let record = SessionRecord::new(valid_record_bytes());
    let step = adapter.store_session(&peer, &record);
    assert_eq!(
        drive(&mut adapter, &mut host, step),
        Err(StoreError::FfiBindingError("disk full".to_string()))
    );
    assert_eq!(
        adapter.load_session(&peer),
        Step::Done(Ok(Outcome::Session(Some(SessionRecord::new(valid_record_bytes())))))
    );
}

#[test]
fn canonical_bytes_are_loaded_once() {
    let mut adapter = JsStorageAdapter::new();
    let mut host = MockHost::new();
    host.session = Box::new(|| HostValue::Bytes(valid_record_bytes()));
    let peer = address("bob", 0);
    for _ in 0..3 {
        let step = adapter.load_session(&peer);
        let loaded = drive(&mut adapter, &mut host, step).unwrap();
        assert_eq!(loaded, Outcome::Session(Some(SessionRecord::new(valid_record_bytes()))));
    }
    assert_eq!(host.count("loadSession"), 1);
    assert_eq!(host.calls.len(), 1);
}

#[test]
fn absent_session_is_none() {
    let mut adapter = JsStorageAdapter::new();
    let mut host = MockHost::new();
    let peer = address("bob", 0);
    let step = adapter.load_session(&peer);
    assert_eq!(drive(&mut adapter, &mut host, step), Ok(Outcome::Session(None)));
    host.session = Box::new(|| HostValue::Undefined);
    let step = adapter.load_session(&peer);
    assert_eq!(drive(&mut adapter, &mut host, step), Ok(Outcome::Session(None)));
    assert_eq!(host.count("loadSession"), 2);
}

#[test]
fn malformed_canonical_bytes_are_a_hard_error() {
    let mut adapter = JsStorageAdapter::new();
    let mut host = MockHost::new();
    host.session = Box::new(|| HostValue::Bytes(vec![0xFF, 0xFF, 0xFF, 0xFF]));
    let peer = address("bob", 0);
    let step = adapter.load_session(&peer);
    assert_eq!(
        drive(&mut adapter, &mut host, step),
        Err(StoreError::Codec(CodecError::SessionRecord))
    );
}

#[test]
fn legacy_session_is_migrated_on_load() {
    let mut adapter = JsStorageAdapter::new();
    let mut host = MockHost::new();
    host.session = Box::new(|| legacy_session(4242, 0x0A));
    let peer = address("carol", 1);

    let step = adapter.load_session(&peer);
    let loaded = drive(&mut adapter, &mut host, step).unwrap();
    let record = match loaded {
        Outcome::Session(Some(record)) => record,
        other => panic!("no session: {:?}", other),
    };
    assert_eq!(
        host.calls,
        vec!["loadSession", "getIdentityKeyPair", "getLocalRegistrationId"]
    );

    let bytes = record.serialize();
    let decoded = wacore_libsignal::protocol::SessionRecord::deserialize(&bytes).unwrap();
    assert_eq!(decoded.remote_registration_id().unwrap(), 4242);
    assert_eq!(decoded.local_registration_id().unwrap(), 1234);
    let mut local_identity = vec![0x05u8];
    local_identity.extend_from_slice(&[0x11; 32]);
    assert_eq!(decoded.local_identity_key_bytes().unwrap(), local_identity);
    assert_eq!(decoded.remote_identity_key_bytes().unwrap(), Some(remote_identity()));
    assert!(record.have_open_session());
    assert!(record.has_usable_sender_chain());

    let structure = waproto::whatsapp::RecordStructure::decode(bytes.as_slice()).unwrap();
    let session = structure.current_session.unwrap();
    assert_eq!(session.root_key, Some(vec![0x0A; 32]));
    let sender = session.sender_chain.unwrap();
    let cipher_keys: Vec<_> = sender.message_keys.iter().map(|k| k.cipher_key.clone()).collect();
    assert_eq!(cipher_keys, vec![Some(vec![0x51; 32]), Some(vec![0x52; 32])]);
    assert_eq!(session.receiver_chains.len(), 1);
    assert_eq!(session.receiver_chains[0].message_keys.len(), 2);
    assert_eq!(session.receiver_chains[0].sender_ratchet_key, Some(vec![0x07; 33]));

    // The migrated record is remembered: no second migration, no host call.
    let again = adapter.load_session(&peer);
    assert_eq!(again, Step::Done(Ok(Outcome::Session(Some(SessionRecord::new(bytes))))));
    // So are the identity and the registration id.
    assert!(matches!(adapter.get_identity_key_pair(), Step::Done(Ok(_))));
    assert_eq!(
        adapter.get_local_registration_id(),
        Step::Done(Ok(Outcome::RegistrationId(1234)))
    );
}

#[test]
fn wrapper_with_two_sessions_gives_the_first_and_no_error() {
    let mut adapter = JsStorageAdapter::new();
    let mut host = MockHost::new();
    host.session = Box::new(|| {
        obj(vec![(
            "_sessions",
            obj(vec![("zz", legacy_session(1, 0x0A)), ("aa", legacy_session(2, 0x0B))]),
        )])
    });
    let peer = address("dave", 1);
    let step = adapter.load_session(&peer);
    let record = match drive(&mut adapter, &mut host, step) {
        Ok(Outcome::Session(Some(record))) => record,
        other => panic!("no session: {:?}", other),
    };
    let structure =
        waproto::whatsapp::RecordStructure::decode(record.serialize().as_slice()).unwrap();
    let session = structure.current_session.unwrap();
    assert_eq!(session.remote_registration_id, Some(1));
    assert_eq!(session.root_key, Some(vec![0x0A; 32]));
}

#[test]
fn unrecognized_session_values_are_none_not_errors() {
    let values: Vec<Box<dyn Fn() -> HostValue>> = vec![
        Box::new(|| HostValue::Number(7)),
        Box::new(|| text("not a session")),
        Box::new(|| obj(vec![("registrationId", HostValue::Number(1))])),
        Box::new(|| obj(vec![("type", text("Buffer")), ("data", HostValue::List(vec![]))])),
        Box::new(|| obj(vec![("_sessions", obj(vec![]))])),
        Box::new(|| obj(vec![("_sessions", text("broken"))])),
        Box::new(|| obj(vec![("_sessions", obj(vec![("k", obj(vec![]))]))])),
    ];
    for value in values {
        let mut adapter = JsStorageAdapter::new();
        let mut host = MockHost::new();
        host.session = value;
        let peer = address("erin", 1);
        let step = adapter.load_session(&peer);
        assert_eq!(drive(&mut adapter, &mut host, step), Ok(Outcome::Session(None)));
        assert_eq!(host.calls, vec!["loadSession"]);
    }
}

#[test]
fn incomplete_legacy_session_is_none_after_the_identity_was_fetched() {
    let mut adapter = JsStorageAdapter::new();
    let mut host = MockHost::new();
    host.session = Box::new(|| {
        obj(vec![
            ("registrationId", HostValue::Number(1)),
            ("currentRatchet", obj(vec![("ephemeralKeyPair", obj(vec![]))])),
        ])
    });
    let peer = address("erin", 1);
    let step = adapter.load_session(&peer);
    assert_eq!(drive(&mut adapter, &mut host, step), Ok(Outcome::Session(None)));
    assert_eq!(host.calls, vec!["loadSession", "getIdentityKeyPair"]);
}

#[test]
fn registration_id_must_be_a_number() {
    let mut adapter = JsStorageAdapter::new();
    let mut host = MockHost::new();
    host.registration_id = text("12");
    let step = adapter.get_local_registration_id();
    assert_eq!(
        drive(&mut adapter, &mut host, step),
        Err(StoreError::InvalidState(Context::GetLocalRegistrationId, Reason::NotANumber))
    );
    host.registration_id = HostValue::Number(-3);
    let step = adapter.get_local_registration_id();
    assert_eq!(drive(&mut adapter, &mut host, step), Ok(Outcome::RegistrationId(0)));
    // Remembered from now on.
    let step = adapter.get_local_registration_id();
    assert_eq!(step, Step::Done(Ok(Outcome::RegistrationId(0))));
    assert_eq!(host.count("getLocalRegistrationId"), 2);
}

#[test]
fn identity_is_normalized_and_remembered() {
    let mut adapter = JsStorageAdapter::new();
    let mut host = MockHost::new();
    let step = adapter.get_identity_key_pair();
    let pair = match drive(&mut adapter, &mut host, step) {
        Ok(Outcome::IdentityKeyPair(pair)) => pair,
        other => panic!("no identity: {:?}", other),
    };
    let mut expected = vec![0x05u8];
    expected.extend_from_slice(&[0x11; 32]);
    assert_eq!(pair.public_key, expected);
    // The engine clamps a private key.
    let mut private = vec![0x12u8; 32];
    private[0] &= 248;
    private[31] = (private[31] & 127) | 64;
    assert_eq!(pair.private_key, private);
    let step = adapter.get_identity_key_pair();
    assert!(matches!(step, Step::Done(Ok(Outcome::IdentityKeyPair(_)))));
    assert_eq!(host.count("getIdentityKeyPair"), 1);
}

#[test]
fn identity_answers_that_cannot_be_used() {
    let mut adapter = JsStorageAdapter::new();
    assert_eq!(
        adapter.resume(Pending::IdentityKeyPair, HostReply::Value(HostValue::Null)),
        Step::Done(Err(StoreError::InvalidState(
            Context::GetIdentityKeyPair,
            Reason::HostReturnedNull
        )))
    );
    assert_eq!(
        adapter.resume(Pending::IdentityKeyPair, HostReply::Malformed("bad field".into())),
        Step::Done(Err(StoreError::InvalidState(
            Context::GetIdentityKeyPair,
            Reason::Malformed("bad field".into())
        )))
    );
    assert_eq!(
        adapter.resume(Pending::IdentityKeyPair, HostReply::Failed("boom".into())),
        Step::Done(Err(StoreError::FfiBindingError("boom".into())))
    );
    assert_eq!(
        adapter.resume(
            Pending::IdentityKeyPair,
            HostReply::IdentityKeyPair(JsIdentityKeyPairPayload {
                keys: JsKeyEnvelope {
                    inline: JsKeyPairBytes { public_key: Some(vec![1; 32]), private_key: None },
                    key_pair: None,
                },
            })
        ),
        Step::Done(Err(StoreError::InvalidState(
            Context::GetIdentityKeyPair,
            Reason::MissingKeyBytes
        )))
    );
    assert_eq!(
        adapter.resume(
            Pending::IdentityKeyPair,
            HostReply::IdentityKeyPair(identity_payload(vec![0x07; 33], vec![1; 32]))
        ),
        Step::Done(Err(StoreError::BadKeyType(0x07)))
    );
    assert_eq!(
        adapter.resume(
            Pending::IdentityKeyPair,
            HostReply::IdentityKeyPair(identity_payload(vec![0x05; 31], vec![1; 32]))
        ),
        Step::Done(Err(StoreError::BadKeyLength(31)))
    );
    assert_eq!(
        adapter.resume(
            Pending::IdentityKeyPair,
            HostReply::IdentityKeyPair(identity_payload(vec![], vec![1; 32]))
        ),
        Step::Done(Err(StoreError::BadKeyLength(0)))
    );
    // A key of 34 bytes is refused even with the type marker in front: it
    // is not cut down to the 33 bytes that would parse.
    assert_eq!(
        adapter.resume(
            Pending::IdentityKeyPair,
            HostReply::IdentityKeyPair(identity_payload(vec![0x05; 34], vec![1; 32]))
        ),
        Step::Done(Err(StoreError::BadKeyLength(34)))
    );
    assert_eq!(
        adapter.resume(
            Pending::IdentityKeyPair,
            HostReply::IdentityKeyPair(identity_payload(vec![0x07; 34], vec![1; 32]))
        ),
        Step::Done(Err(StoreError::BadKeyLength(34)))
    );
    assert_eq!(
        adapter.resume(
            Pending::IdentityKeyPair,
            HostReply::IdentityKeyPair(identity_payload(vec![0x05; 31], vec![1; 32]))
        ),
        Step::Done(Err(StoreError::BadKeyLength(31)))
    );
    assert_eq!(
        adapter.resume(
            Pending::IdentityKeyPair,
            HostReply::IdentityKeyPair(identity_payload(vec![1; 32], vec![1; 31]))
        ),
        Step::Done(Err(StoreError::BadKeyLength(31)))
    );
    // Nothing of this was remembered.
    assert!(matches!(adapter.get_identity_key_pair(), Step::Call(_, _)));
}

#[test]
fn trust_is_delegated_to_the_host() {
    let key = vec![0x05u8; 33];
    let peer = address("frank", 3);

    // A host without identity pinning trusts everyone.
    let mut adapter = JsStorageAdapter::new();
    let mut host = MockHost::new();
    let step = adapter.is_trusted_identity(&peer, &key, Direction::Receiving);
    match &step {
        Step::Call(HostCall::IsTrustedIdentity { name, identity_key, direction }, _) => {
            assert_eq!(name, "frank");
            assert_eq!(identity_key, &key);
            assert_eq!(*direction, 1);
        }
        other => panic!("unexpected step {:?}", other),
    }
    assert_eq!(drive(&mut adapter, &mut host, step), Ok(Outcome::Trusted(true)));

    // A verdict of true is remembered, for that key only.
    host.trusted = HostReply::Value(HostValue::Bool(true));
    let step = adapter.is_trusted_identity(&peer, &key, Direction::Sending);
    assert!(matches!(
        &step,
        Step::Call(HostCall::IsTrustedIdentity { direction: 0, .. }, _)
    ));
    assert_eq!(drive(&mut adapter, &mut host, step), Ok(Outcome::Trusted(true)));
    assert_eq!(
        adapter.is_trusted_identity(&peer, &key, Direction::Sending),
        Step::Done(Ok(Outcome::Trusted(true)))
    );
    assert!(matches!(
        adapter.is_trusted_identity(&peer, &[0x05u8; 32], Direction::Sending),
        Step::Call(_, _)
    ));
    assert_eq!(host.count("isTrustedIdentity"), 2);

    // Anything but true is a refusal.
    for verdict in [HostValue::Bool(false), HostValue::Null, HostValue::Number(1)] {
        let mut adapter = JsStorageAdapter::new();
        host.trusted = HostReply::Value(verdict);
        let step = adapter.is_trusted_identity(&peer, &key, Direction::Sending);
        assert_eq!(drive(&mut adapter, &mut host, step), Ok(Outcome::Trusted(false)));
        assert!(matches!(
            adapter.is_trusted_identity(&peer, &key, Direction::Sending),
            Step::Call(_, _)
        ));
    }
}

#[test]
fn saved_identity_is_remembered() {
    let mut adapter = JsStorageAdapter::new();
    let mut host = MockHost::new();
    let peer = address("gina", 3);
    let key = vec![0x05u8; 33];
    let step = adapter.save_identity(&peer, &key);
    assert_eq!(drive(&mut adapter, &mut host, step), Ok(Outcome::IdentityChanged(true)));
    let step = adapter.save_identity(&peer, &key);
    assert_eq!(step, Step::Done(Ok(Outcome::IdentityChanged(false))));
    assert_eq!(
        adapter.is_trusted_identity(&peer, &key, Direction::Sending),
        Step::Done(Ok(Outcome::Trusted(true)))
    );
    assert_eq!(host.count("saveIdentity"), 1);
    assert_eq!(
        adapter.resume(Pending::SaveIdentity, HostReply::Value(text("yes"))),
        Step::Done(Ok(Outcome::IdentityChanged(false)))
    );
}

#[test]
fn pre_keys_are_asked_for_every_time() {
    let mut adapter = JsStorageAdapter::new();
    let mut host = MockHost::new();
    let step = adapter.get_pre_key(5);
    assert_eq!(drive(&mut adapter, &mut host, step), Err(StoreError::InvalidPreKeyId));
    let step = adapter.get_signed_pre_key(6);
    assert_eq!(drive(&mut adapter, &mut host, step), Err(StoreError::InvalidSignedPreKeyId));
    let step = adapter.remove_pre_key(5);
    assert_eq!(drive(&mut adapter, &mut host, step), Ok(Outcome::Removed));
    assert_eq!(host.calls, vec!["loadPreKey", "loadSignedPreKey", "removePreKey"]);

    let keys = || JsKeyEnvelope {
        inline: JsKeyPairBytes { public_key: None, private_key: None },
        key_pair: Some(JsKeyPairBytes {
            public_key: Some(vec![0x33; 32]),
            private_key: Some(vec![0; 32]),
        }),
    };
    let step = adapter.resume(
        Pending::PreKey { id: 5 },
        HostReply::PreKey(JsPreKeyRecordPayload { id: None, keys: keys() }),
    );
    match step {
        Step::Done(Ok(Outcome::PreKey(record))) => {
            assert_eq!(record.id, 5);
            assert_eq!(record.key_pair.public_key.len(), 33);
            assert_eq!(record.key_pair.public_key[0], 0x05);
            assert_eq!(record.key_pair.private_key[31], 64);
        }
        other => panic!("unexpected step {:?}", other),
    }
    let step = adapter.resume(
        Pending::SignedPreKey { id: 6 },
        HostReply::SignedPreKey(JsSignedPreKeyRecordPayload {
            id: Some(9),
            timestamp: None,
            signature: Some(vec![1; 64]),
            keys: keys(),
        }),
    );
    match step {
        Step::Done(Ok(Outcome::SignedPreKey(record))) => {
            assert_eq!(record.id, 9);
            assert_eq!(record.timestamp, 0);
            assert_eq!(record.signature, vec![1; 64]);
        }
        other => panic!("unexpected step {:?}", other),
    }
    let step = adapter.resume(
        Pending::SignedPreKey { id: 6 },
        HostReply::SignedPreKey(JsSignedPreKeyRecordPayload {
            id: Some(9),
            timestamp: Some(5),
            signature: None,
            keys: keys(),
        }),
    );
    assert_eq!(
        step,
        Step::Done(Err(StoreError::InvalidState(
            Context::LoadSignedPreKey,
            Reason::MissingSignature
        )))
    );
}

#[test]
fn legacy_sender_key_is_migrated_on_load() {
    let json = format!(
        r#"  [{{"senderKeyId": 11, "senderChainKey": {{"iteration": 3, "seed": "{seed}"}},
              "senderSigningKey": {{"public": {{"type": "Buffer", "data": [5, 1, 2, 3]}}}},
              "senderMessageKeys": [{{"iteration": 1, "seed": [7, 8, 9]}}]}},
             {{"senderKeyId": 12, "senderChainKey": {{"iteration": 40, "seed": "{seed}"}},
              "senderSigningKey": {{"public": "{seed}", "private": [1, 2]}},
              "senderMessageKeys": []}}]"#,
        seed = b64(&[0x44; 32])
    );
    let mut adapter = JsStorageAdapter::new();
    let mut host = MockHost::new();
    let stored = json.clone().into_bytes();
    host.sender_key = Box::new(move || HostValue::Bytes(stored.clone()));
    let name = SenderKeyName::new("group@g.us".to_string(), &address("henry", 4));

    let step = adapter.load_sender_key(&name);
    match &step {
        Step::Call(HostCall::LoadSenderKey { key_id }, _) => {
            assert_eq!(key_id, "group@g.us::henry::4")
        }
        other => panic!("unexpected step {:?}", other),
    }
    let record = match drive(&mut adapter, &mut host, step) {
        Ok(Outcome::SenderKey(Some(record))) => record,
        other => panic!("no sender key: {:?}", other),
    };
    assert_eq!(host.calls, vec!["loadSenderKey", "parseJson"]);
    assert!(!record.is_empty());

    let structure =
        waproto::whatsapp::SenderKeyRecordStructure::decode(record.serialize().as_slice()).unwrap();
    assert_eq!(structure.sender_key_states.len(), 2);
    let first = &structure.sender_key_states[0];
    assert_eq!(first.sender_key_id, Some(11));
    assert_eq!(first.sender_chain_key.as_ref().unwrap().iteration, Some(3));
    assert_eq!(first.sender_chain_key.as_ref().unwrap().seed, Some(vec![0x44; 32]));
    assert_eq!(first.sender_signing_key.as_ref().unwrap().public, Some(vec![5, 1, 2, 3]));
    assert_eq!(first.sender_signing_key.as_ref().unwrap().private, None);
    assert_eq!(first.sender_message_keys[0].iteration, Some(1));
    assert_eq!(first.sender_message_keys[0].seed, Some(vec![7, 8, 9]));
    let second = &structure.sender_key_states[1];
    assert_eq!(second.sender_key_id, Some(12));
    assert_eq!(second.sender_chain_key.as_ref().unwrap().iteration, Some(40));
    assert_eq!(second.sender_signing_key.as_ref().unwrap().public, Some(vec![0x44; 32]));
    assert_eq!(second.sender_signing_key.as_ref().unwrap().private, Some(vec![1, 2]));

    // Remembered in canonical form.
    let again = adapter.load_sender_key(&name);
    assert!(matches!(again, Step::Done(Ok(Outcome::SenderKey(Some(_))))));
}

#[test]
fn sender_key_bytes_that_are_neither_record_nor_json_are_an_error() {
    let mut adapter = JsStorageAdapter::new();
    let mut host = MockHost::new();
    host.sender_key = Box::new(|| HostValue::Bytes(vec![0xFF, 0xFF, 0xFF, 0xFF]));
    let name = SenderKeyName::new("g".to_string(), &address("ida", 0));
    let step = adapter.load_sender_key(&name);
    assert_eq!(
        drive(&mut adapter, &mut host, step),
        Err(StoreError::Codec(CodecError::SenderKeyRecord))
    );
    assert_eq!(host.calls, vec!["loadSenderKey"]);

    // JSON that is an array but writes no sender key leaves the same error.
    host.sender_key = Box::new(|| HostValue::Bytes(b"[{\"senderKeyId\": 1}]".to_vec()));
    let step = adapter.load_sender_key(&name);
    assert_eq!(
        drive(&mut adapter, &mut host, step),
        Err(StoreError::Codec(CodecError::SenderKeyRecord))
    );
    host.sender_key = Box::new(|| HostValue::Bytes(b"[not json".to_vec()));
    let step = adapter.load_sender_key(&name);
    assert_eq!(
        drive(&mut adapter, &mut host, step),
        Err(StoreError::Codec(CodecError::SenderKeyRecord))
    );

    host.sender_key = Box::new(|| HostValue::Number(3));
    let step = adapter.load_sender_key(&name);
    assert_eq!(
        drive(&mut adapter, &mut host, step),
        Err(StoreError::InvalidState(Context::LoadSenderKey, Reason::UnexpectedReply))
    );
}

#[test]
fn stored_sender_key_is_read_back_without_a_host_call() {
    let mut adapter = JsStorageAdapter::new();
    let mut host = MockHost::new();
    let name = SenderKeyName::new("g".to_string(), &address("ida", 0));
    let record = SenderKeyRecord::new();
    let step = adapter.store_sender_key(&name, &record);
    assert_eq!(drive(&mut adapter, &mut host, step), Ok(Outcome::Stored));
    let step = adapter.load_sender_key(&name);
    assert_eq!(step, Step::Done(Ok(Outcome::SenderKey(Some(SenderKeyRecord::new())))));
    assert_eq!(host.calls, vec!["storeSenderKey"]);
    // A buffer-like value and a list of numbers are bytes as well.
    host.sender_key = Box::new(|| {
        obj(vec![("type", text("Buffer")), ("data", HostValue::List(vec![]))])
    });
    let other = SenderKeyName::new("h".to_string(), &address("ida", 0));
    let step = adapter.load_sender_key(&other);
    match drive(&mut adapter, &mut host, step) {
        Ok(Outcome::SenderKey(Some(record))) => assert!(record.is_empty()),
        other => panic!("unexpected outcome {:?}", other),
    }
}

#[test]
fn pre_keys_of_34_bytes_are_refused() {
    let mut adapter = JsStorageAdapter::new();
    let keys = |len: usize| JsKeyEnvelope {
        inline: JsKeyPairBytes {
            public_key: Some(vec![0x05; len]),
            private_key: Some(vec![1; 32]),
        },
        key_pair: None,
    };
    assert_eq!(
        adapter.resume(
            Pending::PreKey { id: 1 },
            HostReply::PreKey(JsPreKeyRecordPayload { id: Some(1), keys: keys(34) })
        ),
        Step::Done(Err(StoreError::BadKeyLength(34)))
    );
    assert_eq!(
        adapter.resume(
            Pending::SignedPreKey { id: 1 },
            HostReply::SignedPreKey(JsSignedPreKeyRecordPayload {
                id: Some(1),
                timestamp: Some(1),
                signature: Some(vec![2; 64]),
                keys: keys(34),
            })
        ),
        Step::Done(Err(StoreError::BadKeyLength(34)))
    );
    assert_eq!(
        adapter.resume(
            Pending::PreKey { id: 1 },
            HostReply::PreKey(JsPreKeyRecordPayload { id: Some(1), keys: keys(31) })
        ),
        Step::Done(Err(StoreError::BadKeyLength(31)))
    );
    // 33 bytes with the marker are taken whole.
    match adapter.resume(
        Pending::PreKey { id: 1 },
        HostReply::PreKey(JsPreKeyRecordPayload { id: Some(1), keys: keys(33) }),
    ) {
        Step::Done(Ok(Outcome::PreKey(record))) => {
            assert_eq!(record.key_pair.public_key, vec![0x05; 33])
        }
        other => panic!("unexpected step {:?}", other),
    }
}
