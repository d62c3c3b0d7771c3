use base64::Engine;
use prost::Message;
use signal_bridge::errors::{Context, LegacyField, Reason, StoreError};
use signal_bridge::host_value::{HostValue, Property};
use signal_bridge::legacy_session::{
    classify, read_legacy_session, select_session, SessionShape,
};
use signal_bridge::migration::migrate_legacy_json;

fn b64(bytes: &[u8]) -> String {
    base64::prelude::BASE64_STANDARD.encode(bytes)
}

fn text(s: &str) -> HostValue {
    HostValue::Text(s.to_string())
}

fn obj(props: Vec<(&str, HostValue)>) -> HostValue {
    HostValue::Object(
        props
            .into_iter()
            .map(|(key, value)| Property { key: key.to_string(), value })
            .collect(),
    )
}

fn chain(chain_type: i64, counter: i64, key: &[u8], message_keys: Vec<(&str, &[u8])>) -> HostValue {
    obj(vec![
        ("chainType", HostValue::Number(chain_type)),
        ("chainKey", obj(vec![("counter", HostValue::Number(counter)), ("key", text(&b64(key)))])),
        (
            "messageKeys",
            obj(message_keys.into_iter().map(|(i, k)| (i, text(&b64(k)))).collect()),
        ),
    ])
}

fn fixture_session(registration_id: i64, root: u8) -> HostValue {
    let receiver_key = [0x05u8; 33];
    obj(vec![
        ("registrationId", HostValue::Number(registration_id)),
        (
            "currentRatchet",
            obj(vec![
                ("rootKey", text(&b64(&[root; 32]))),
                ("previousCounter", HostValue::Number(7)),
                (
                    "ephemeralKeyPair",
                    obj(vec![
                        ("pubKey", text(&b64(&[0x21; 33]))),
                        ("privKey", text(&b64(&[0x22; 32]))),
                    ]),
                ),
            ]),
        ),
        (
            "indexInfo",
            obj(vec![
                ("remoteIdentityKey", text(&b64(&[0x31; 33]))),
                ("baseKey", text(&b64(&[0x32; 33]))),
            ]),
        ),
        (
            "_chains",
            HostValue::Object(vec![
                Property {
                    key: b64(&[0x21; 33]),
                    value: chain(1, 4, &[0x41; 32], vec![("2", &[0x51; 32]), ("3", &[0x52; 32])]),
                },
                Property {
                    key: b64(&receiver_key),
                    value: chain(2, 9, &[0x42; 32], vec![("0", &[0x61; 32]), ("5", &[0x62; 32])]),
                },
            ]),
        ),
    ])
}

fn local_identity() -> Vec<u8> {
    let mut key = vec![0x05u8];
    key.extend_from_slice(&[0x11; 32]);
    key
}

#[test]
fn legacy_session_migrates_field_for_field() {
    let value = fixture_session(4242, 0x0A);
    let bytes = migrate_legacy_json(&value, &local_identity(), 777).unwrap().unwrap();

    let decoded = wacore_libsignal::protocol::SessionRecord::deserialize(&bytes).unwrap();
    assert!(decoded.session_state().is_some());
    assert_eq!(decoded.remote_registration_id().unwrap(), 4242);
    assert_eq!(decoded.local_registration_id().unwrap(), 777);
    assert_eq!(decoded.local_identity_key_bytes().unwrap(), local_identity());
    assert!(decoded.has_usable_sender_chain().unwrap());

    let record = waproto::whatsapp::RecordStructure::decode(bytes.as_slice()).unwrap();
    assert!(record.previous_sessions.is_empty());
    let session = record.current_session.unwrap();
    assert_eq!(session.session_version, Some(3));
    assert_eq!(session.root_key, Some(vec![0x0A; 32]));
    assert_eq!(session.previous_counter, Some(7));
    assert_eq!(session.remote_identity_public, Some(vec![0x31; 33]));
    assert_eq!(session.alice_base_key, Some(vec![0x32; 33]));
    assert_eq!(session.pending_pre_key, None);
    assert_eq!(session.pending_key_exchange, None);
    assert_eq!(session.needs_refresh, None);

    let sender = session.sender_chain.unwrap();
    assert_eq!(sender.sender_ratchet_key, Some(vec![0x21; 33]));
    assert_eq!(sender.sender_ratchet_key_private, Some(vec![0x22; 32]));
    let sender_key = sender.chain_key.unwrap();
    assert_eq!(sender_key.index, Some(4));
    assert_eq!(sender_key.key, Some(vec![0x41; 32]));
    assert_eq!(sender.message_keys.len(), 2);
    assert_eq!(sender.message_keys[0].index, Some(2));
    assert_eq!(sender.message_keys[0].cipher_key, Some(vec![0x51; 32]));
    assert_eq!(sender.message_keys[1].index, Some(3));
    assert_eq!(sender.message_keys[1].cipher_key, Some(vec![0x52; 32]));
    // The legacy format has no MAC key and no IV: zeros stand in for them.
    assert_eq!(sender.message_keys[0].mac_key, Some(vec![0u8; 32]));
    assert_eq!(sender.message_keys[0].iv, Some(vec![0u8; 16]));

    assert_eq!(session.receiver_chains.len(), 1);
    let receiver = &session.receiver_chains[0];
    assert_eq!(receiver.sender_ratchet_key, Some(vec![0x05; 33]));
    assert_eq!(receiver.sender_ratchet_key_private, None);
    assert_eq!(receiver.chain_key.as_ref().unwrap().index, Some(9));
    assert_eq!(receiver.message_keys[1].index, Some(5));
    assert_eq!(receiver.message_keys[1].cipher_key, Some(vec![0x62; 32]));
    assert_eq!(receiver.message_keys[1].iv, Some(vec![0u8; 16]));
}

#[test]
fn wrapper_with_two_sessions_takes_the_first() {
    let value = obj(vec![(
        "_sessions",
        obj(vec![("first", fixture_session(1, 0x0A)), ("second", fixture_session(2, 0x0B))]),
    )]);
    assert_eq!(classify(&value), SessionShape::SessionsWrapper);
    let bytes = migrate_legacy_json(&value, &local_identity(), 5).unwrap().unwrap();
    let record = waproto::whatsapp::RecordStructure::decode(bytes.as_slice()).unwrap();
    let session = record.current_session.unwrap();
    assert_eq!(session.remote_registration_id, Some(1));
    assert_eq!(session.root_key, Some(vec![0x0A; 32]));
}

#[test]
fn empty_wrapper_is_no_session() {
    let value = obj(vec![("_sessions", obj(vec![]))]);
    assert_eq!(migrate_legacy_json(&value, &local_identity(), 5), Ok(None));
}

#[test]
fn wrapper_that_is_no_object_is_an_invalid_legacy_format() {
    let value = obj(vec![("_sessions", HostValue::Null)]);
    assert_eq!(
        migrate_legacy_json(&value, &local_identity(), 5),
        Err(StoreError::InvalidState(
            Context::Migrate,
            Reason::InvalidLegacyFormat(LegacyField::Sessions)
        ))
    );
}

#[test]
fn unrecognized_values_are_no_session() {
    for value in [
        HostValue::Number(3),
        text("hello"),
        HostValue::Bool(true),
        obj(vec![("registrationId", HostValue::Number(1))]),
        obj(vec![("something", text("else"))]),
        HostValue::List(vec![HostValue::Number(1)]),
    ] {
        assert_eq!(classify(&value), SessionShape::Unrecognized);
        assert_eq!(select_session(&value), Ok(None));
        assert_eq!(migrate_legacy_json(&value, &local_identity(), 5), Ok(None));
    }
}

#[test]
fn missing_parts_are_named() {
    let drop = |name: &str| -> HostValue {
        match fixture_session(1, 1) {
            HostValue::Object(props) => {
                HostValue::Object(props.into_iter().filter(|p| p.key != name).collect())
            }
            other => other,
        }
    };
    assert_eq!(read_legacy_session(&drop("indexInfo")), Err(LegacyField::IndexInfo));
    assert_eq!(read_legacy_session(&drop("_chains")), Err(LegacyField::Chains));
    // Without `currentRatchet` the value is no direct session at all.
    assert_eq!(read_legacy_session(&drop("currentRatchet")), Err(LegacyField::CurrentRatchet));
    assert_eq!(migrate_legacy_json(&drop("currentRatchet"), &local_identity(), 5), Ok(None));
    assert_eq!(
        migrate_legacy_json(&drop("_chains"), &local_identity(), 5),
        Err(StoreError::InvalidState(
            Context::Migrate,
            Reason::InvalidLegacyFormat(LegacyField::Chains)
        ))
    );

    let bad_index = obj(vec![
        ("registrationId", HostValue::Number(1)),
        ("currentRatchet", obj(vec![("ephemeralKeyPair", obj(vec![]))])),
        ("indexInfo", obj(vec![])),
        (
            "_chains",
            obj(vec![("k", chain(2, 0, &[1], vec![("seven", &[1, 2, 3])]))]),
        ),
    ]);
    assert_eq!(read_legacy_session(&bad_index), Err(LegacyField::MessageKeyIndex));
    let no_key_pair = obj(vec![
        ("registrationId", HostValue::Number(1)),
        ("currentRatchet", obj(vec![("ephemeralKeyPair", text("gone"))])),
        ("indexInfo", obj(vec![])),
        ("_chains", obj(vec![])),
    ]);
    assert_eq!(read_legacy_session(&no_key_pair), Err(LegacyField::EphemeralKeyPair));
    let no_message_keys = obj(vec![
        ("registrationId", HostValue::Number(1)),
        ("currentRatchet", obj(vec![("ephemeralKeyPair", obj(vec![]))])),
        ("indexInfo", obj(vec![])),
        (
            "_chains",
            obj(vec![
                ("a", chain(2, 0, &[1], vec![])),
                ("b", obj(vec![("chainKey", obj(vec![])), ("messageKeys", HostValue::List(vec![]))])),
                ("c", obj(vec![])),
            ]),
        ),
    ]);
    // The first entry that fails names the error.
    assert_eq!(read_legacy_session(&no_message_keys), Err(LegacyField::MessageKeys));
    let no_chain_key = obj(vec![
        ("registrationId", HostValue::Number(1)),
        ("currentRatchet", obj(vec![("ephemeralKeyPair", obj(vec![]))])),
        ("indexInfo", obj(vec![])),
        ("_chains", obj(vec![("k", obj(vec![("messageKeys", obj(vec![]))]))])),
    ]);
    assert_eq!(read_legacy_session(&no_chain_key), Err(LegacyField::ChainKey));
}

#[test]
fn missing_leaves_read_as_empty_or_zero() {
    let value = obj(vec![
        ("registrationId", text("not a number")),
        ("currentRatchet", obj(vec![("rootKey", text("***")), ("ephemeralKeyPair", obj(vec![]))])),
        ("indexInfo", obj(vec![])),
        ("_chains", obj(vec![("k", chain(3, -4, &[9], vec![]))])),
    ]);
    let bytes = migrate_legacy_json(&value, &local_identity(), 0).unwrap().unwrap();
    let record = waproto::whatsapp::RecordStructure::decode(bytes.as_slice()).unwrap();
    let session = record.current_session.unwrap();
    assert_eq!(session.remote_registration_id, Some(0));
    assert_eq!(session.root_key, Some(vec![]));
    assert_eq!(session.alice_base_key, Some(vec![]));
    // A chain of another type than 1 or 2 is passed over.
    assert_eq!(session.sender_chain, None);
    assert!(session.receiver_chains.is_empty());
    let decoded = wacore_libsignal::protocol::SessionRecord::deserialize(&bytes).unwrap();
    assert!(!decoded.has_usable_sender_chain().unwrap());
}
