use rand::TryRngCore;
use signal_bridge::curve::{
    calculate_agreement, verify_signature, check_agreement_input, check_signing_input, check_verification_input,
    derive_signing_public_key, ensure_curve_key_with_prefix, generate_signal_pub_key,
    get_public_from_private_key, parse_public_key, with_key_prefix, KeyInputError,
};
use signal_bridge::errors::{CodecError, LegacyField, RecordError, StoreError};
use signal_bridge::host_value::{
    get_bytes_from_buffer_json, get_number, get_object, get_string, js_array_to_vec, to_u32,
    to_u8, HostValue, Property,
};
use signal_bridge::key_helper::{_serialize_identity_key_pair, registration_id_from_bytes};
use signal_bridge::legacy_sender_key::{
    legacy_sender_key_text, migrate_legacy_sender_key, read_sender_key_states, starts_json_array,
};
use signal_bridge::migration::{decode_or_empty, placeholder_message_key, zero_bytes};
use signal_bridge::protocol_address::{
    jid_to_protocol_address, jid_to_signal_protocol_address, AddressError, ProtocolAddress,
};
use signal_bridge::records::{
    encode_session_state, SessionChain, SessionChainKey, SessionMessageKey, SessionState,
};
use signal_bridge::sender_key_name::SenderKeyName;
use signal_bridge::session_record::{
    decode_sender_key, decode_session, encode_sender_key, encode_session, SenderKeyRecord,
    SessionRecord,
};
use signal_bridge::sticker_metadata::{build_exif, exif_header_bytes, exif_json_bytes};
use signal_bridge::text::{format_u32, parse_u32};

fn text(s: &str) -> HostValue {
    HostValue::Text(s.to_string())
}

fn obj(props: Vec<(&str, HostValue)>) -> HostValue {
    HostValue::Object(
        props
            .into_iter()
            .map(|(key, value)| Property { key: key.to_string(), value })
            .collect(),
    )
}

fn numbers(values: &[i64]) -> HostValue {
    HostValue::List(values.iter().map(|n| HostValue::Number(*n)).collect())
}

fn chars(s: &str) -> Vec<char> {
    s.chars().collect()
}

#[test]
fn key_of_32_bytes_gets_the_type_marker() {
    let raw = vec![7u8; 32];
    let normalized = ensure_curve_key_with_prefix(raw.clone());
    assert_eq!(normalized.len(), 33);
    assert_eq!(normalized[0], 0x05);
    assert_eq!(&normalized[1..], raw.as_slice());
}

#[test]
fn normalization_is_idempotent_on_key_lengths() {
    let mut prefixed = vec![0x05u8];
    prefixed.extend_from_slice(&[9; 32]);
    for key in [vec![1u8; 32], prefixed, vec![0x04u8; 33], vec![0x05u8; 32]] {
        let once = ensure_curve_key_with_prefix(key.clone());
        let twice = ensure_curve_key_with_prefix(once.clone());
        assert_eq!(once, twice);
    }
}

#[test]
fn keys_of_other_lengths_pass_unchanged() {
    for key in [vec![], vec![0x05u8; 31], vec![0x05u8; 34], vec![1u8; 31], vec![2u8; 34]] {
        assert_eq!(ensure_curve_key_with_prefix(key.clone()), key);
    }
    // 33 bytes without the marker pass unchanged as well.
    assert_eq!(ensure_curve_key_with_prefix(vec![0x04u8; 33]), vec![0x04u8; 33]);
}

#[test]
fn key_bundle_form() {
    assert_eq!(generate_signal_pub_key(&[3u8; 33]), vec![3u8; 33]);
    let mut expected = vec![0x05u8];
    expected.extend_from_slice(&[3; 32]);
    assert_eq!(generate_signal_pub_key(&[3u8; 32]), expected);
    assert_eq!(generate_signal_pub_key(&[3u8; 40]), expected);
    assert_eq!(generate_signal_pub_key(&[1, 2]), vec![0x05, 1, 2]);
    assert_eq!(generate_signal_pub_key(&[]), vec![0x05]);
}

#[test]
fn key_input_is_looked_at_in_order() {
    assert_eq!(check_agreement_input(&[0; 31], &[0; 31]), Err(KeyInputError::InvalidPublicKey));
    assert_eq!(
        check_agreement_input(&[0; 33], &[0; 31]),
        Err(KeyInputError::IncorrectPrivateKeyLength)
    );
    assert_eq!(check_agreement_input(&[0; 32], &[0; 32]), Ok(()));
    assert_eq!(check_signing_input(&[]), Err(KeyInputError::InvalidPrivateKeyType));
    assert_eq!(check_signing_input(&[0; 33]), Err(KeyInputError::IncorrectPrivateKeyLength));
    assert_eq!(check_signing_input(&[0; 32]), Ok(()));
    assert_eq!(
        check_verification_input(&[0; 5], &[0; 63]),
        Err(KeyInputError::InvalidSignature)
    );
    assert_eq!(
        check_verification_input(&[0; 5], &[0; 64]),
        Err(KeyInputError::InvalidPublicKey)
    );
    assert_eq!(check_verification_input(&[0; 33], &[0; 64]), Ok(()));
    assert_eq!(parse_public_key(&[1; 34]), Err(KeyInputError::InvalidPublicKeyLength(34)));
    assert_eq!(parse_public_key(&[4; 33]), Err(KeyInputError::InvalidPublicKeyLength(33)));
    assert_eq!(parse_public_key(&[5; 33]), Ok(vec![5; 33]));
    assert_eq!(parse_public_key(&[1; 32]).unwrap().len(), 33);
    assert_eq!(with_key_prefix(&[8; 32])[0], 0x05);
    assert_eq!(&with_key_prefix(&[8; 32])[1..], &[8u8; 32]);
}

#[test]
fn decimal_numbers() {
    assert_eq!(parse_u32(&chars("0")), Some(0));
    assert_eq!(parse_u32(&chars("007")), Some(7));
    assert_eq!(parse_u32(&chars("+12")), Some(12));
    assert_eq!(parse_u32(&chars("4294967295")), Some(u32::MAX));
    assert_eq!(parse_u32(&chars("4294967296")), None);
    assert_eq!(parse_u32(&chars("99999999999999999999999")), None);
    assert_eq!(parse_u32(&chars("")), None);
    assert_eq!(parse_u32(&chars("+")), None);
    assert_eq!(parse_u32(&chars("-1")), None);
    assert_eq!(parse_u32(&chars("1 ")), None);
    assert_eq!(parse_u32(&chars("1.5")), None);
    for text in ["0", "007", "+12", "4294967295", "4294967296", "", "+", "-1", "١٢"] {
        assert_eq!(parse_u32(&chars(text)), text.parse::<u32>().ok());
    }
    for n in [0u32, 9, 10, 99, 100, 12345, u32::MAX] {
        assert_eq!(format_u32(n), chars(&n.to_string()));
        assert_eq!(parse_u32(&format_u32(n)), Some(n));
    }
}

#[test]
fn base64_texts_are_decoded() {
    assert_eq!(decode_or_empty(&"aGVsbG8=".to_string()), b"hello".to_vec());
    assert_eq!(decode_or_empty(&"".to_string()), Vec::<u8>::new());
    // No padding, or a character outside the alphabet: nothing.
    assert_eq!(decode_or_empty(&"aGVsbG8".to_string()), Vec::<u8>::new());
    assert_eq!(decode_or_empty(&"aGVs*G8=".to_string()), Vec::<u8>::new());
}

#[test]
fn placeholders_have_the_right_lengths() {
    let key = placeholder_message_key(9, vec![1, 2, 3]);
    assert_eq!(key.index, 9);
    assert_eq!(key.cipher_key, vec![1, 2, 3]);
    assert_eq!(key.mac_key, vec![0u8; 32]);
    assert_eq!(key.iv, vec![0u8; 16]);
    assert_eq!(zero_bytes(0), Vec::<u8>::new());
}

#[test]
fn host_numbers_are_clamped() {
    assert_eq!(to_u32(-1), 0);
    assert_eq!(to_u32(0), 0);
    assert_eq!(to_u32(4_294_967_295), u32::MAX);
    assert_eq!(to_u32(4_294_967_296), u32::MAX);
    assert_eq!(to_u32(i64::MAX), u32::MAX);
    assert_eq!(to_u32(i64::MIN), 0);
    assert_eq!(to_u8(-7), 0);
    assert_eq!(to_u8(255), 255);
    assert_eq!(to_u8(256), 255);
    assert_eq!(
        js_array_to_vec(&vec![
            HostValue::Number(1),
            text("x"),
            HostValue::Number(300),
            HostValue::Null,
            HostValue::Number(-2)
        ]),
        vec![1, 255, 0]
    );
}

#[test]
fn properties_are_found_by_name() {
    let value = obj(vec![
        ("a", HostValue::Number(1)),
        ("b", text("two")),
        ("a", HostValue::Number(3)),
        ("c", HostValue::Undefined),
    ]);
    assert_eq!(get_number(&value, "a"), Some(1));
    assert_eq!(get_number(&value, "b"), None);
    assert_eq!(get_string(&value, "b"), Some(&"two".to_string()));
    assert_eq!(get_string(&value, "a"), None);
    assert_eq!(get_object(&value, "c"), Some(&HostValue::Undefined));
    assert_eq!(get_object(&value, "d"), None);
    assert!(value.has("c"));
    assert!(!value.has("d"));
    assert_eq!(get_object(&text("a"), "a"), None);
    assert_eq!(get_object(&HostValue::List(vec![]), "0"), None);
}

#[test]
fn bytes_come_in_four_shapes() {
    let value = obj(vec![
        ("buffer", obj(vec![("type", text("Buffer")), ("data", numbers(&[1, 2, 3]))])),
        ("raw", HostValue::Bytes(vec![4, 5])),
        ("list", numbers(&[6, 700])),
        ("b64", text("aGk=")),
        ("junk", text("not base64!")),
        ("nothing", HostValue::Null),
        ("number", HostValue::Number(5)),
        ("other", obj(vec![("type", text("Other")), ("data", numbers(&[1]))])),
    ]);
    assert_eq!(get_bytes_from_buffer_json(&value, "buffer"), Some(vec![1, 2, 3]));
    assert_eq!(get_bytes_from_buffer_json(&value, "raw"), Some(vec![4, 5]));
    assert_eq!(get_bytes_from_buffer_json(&value, "list"), Some(vec![6, 255]));
    assert_eq!(get_bytes_from_buffer_json(&value, "b64"), Some(b"hi".to_vec()));
    assert_eq!(get_bytes_from_buffer_json(&value, "junk"), None);
    assert_eq!(get_bytes_from_buffer_json(&value, "nothing"), None);
    assert_eq!(get_bytes_from_buffer_json(&value, "number"), None);
    assert_eq!(get_bytes_from_buffer_json(&value, "other"), None);
    assert_eq!(get_bytes_from_buffer_json(&value, "missing"), None);
}

#[test]
fn addresses() {
    let address = ProtocolAddress::new("alice".to_string(), 12).unwrap();
    assert_eq!(address.id(), "alice");
    assert_eq!(address.device_id(), 12);
    assert_eq!(address.js_to_string(), "alice.12");
    assert_eq!(
        ProtocolAddress::new("al.ice".to_string(), 1),
        Err(AddressError::EncodedAddress)
    );
    assert_eq!(ProtocolAddress::from_string("alice.12"), Ok(address.clone()));
    assert!(address.is(&ProtocolAddress::from_string("alice.12").unwrap()));
    assert!(!address.is(&ProtocolAddress::from_string("alice.13").unwrap()));
    assert!(!address.is(&ProtocolAddress::from_string("alicia.12").unwrap()));
    // What follows a second dot is not looked at.
    assert_eq!(
        ProtocolAddress::from_string("bob.3.junk").unwrap().js_to_string(),
        "bob.3"
    );
    assert_eq!(ProtocolAddress::from_string(".5").unwrap().id(), "");
    for bad in ["alice", "alice.", "alice.x", "alice.-1", "alice.4294967296", "", "a..1"] {
        assert_eq!(ProtocolAddress::from_string(bad), Err(AddressError::InvalidEncoding));
    }
    let zero = ProtocolAddress::new("żółw".to_string(), 0).unwrap();
    assert_eq!(zero.js_to_string(), "żółw.0");
    assert_eq!(ProtocolAddress::from_string(&zero.js_to_string()), Ok(zero));
}

#[test]
fn sender_key_names() {
    let sender = ProtocolAddress::new("alice".to_string(), 12).unwrap();
    let name = SenderKeyName::new("group".to_string(), &sender);
    assert_eq!(name.group_id(), "group");
    assert_eq!(name.sender_id(), "alice::12");
    assert_eq!(name.to_string_js(), "group::alice::12");
    let parts = SenderKeyName::from_parts("g".to_string(), "s".to_string());
    assert_eq!(parts.to_string_js(), "g::s");
}

#[test]
fn session_record_from_host_values() {
    assert_eq!(
        SessionRecord::deserialize(&HostValue::Bytes(vec![1, 2])).unwrap().serialize(),
        vec![1, 2]
    );
    assert_eq!(SessionRecord::deserialize(&numbers(&[3, 4])).unwrap().serialize(), vec![3, 4]);
    let wrapper = obj(vec![("_sessions", obj(vec![("k", obj(vec![]))]))]);
    let empty = SessionRecord::deserialize(&wrapper).unwrap();
    assert_eq!(empty.serialize(), Vec::<u8>::new());
    assert!(!empty.have_open_session());
    let buffer = obj(vec![("type", text("Buffer")), ("data", numbers(&[9]))]);
    assert_eq!(SessionRecord::deserialize(&buffer).unwrap().serialize(), vec![9]);
    for bad in [HostValue::Null, text("x"), obj(vec![("data", text("x"))]), HostValue::Number(1)] {
        assert_eq!(SessionRecord::deserialize(&bad), Err(RecordError::InvalidInputType));
    }
}

fn sample_state() -> SessionState {
    SessionState {
        session_version: 3,
        local_identity_public: vec![5; 33],
        remote_identity_public: vec![5; 33],
        root_key: vec![1; 32],
        previous_counter: 2,
        sender_chain: Some(SessionChain {
            sender_ratchet_key: vec![5; 33],
            sender_ratchet_key_private: Some(vec![2; 32]),
            chain_key: SessionChainKey { index: 1, key: vec![3; 32] },
            message_keys: vec![SessionMessageKey {
                index: 0,
                cipher_key: vec![4; 32],
                mac_key: vec![0; 32],
                iv: vec![0; 16],
            }],
        }),
        receiver_chains: Vec::new(),
        remote_registration_id: 10,
        local_registration_id: 11,
        alice_base_key: vec![5; 33],
    }
}

#[test]
fn session_codec_round_trip() {
    let bytes = encode_session_state(&sample_state());
    assert!(!bytes.is_empty());
    let record = decode_session(&bytes).unwrap();
    assert!(record.have_open_session());
    assert!(record.has_usable_sender_chain());
    let encoded = encode_session(&record).unwrap();
    assert_eq!(encoded, bytes);
    let again = decode_session(&encoded).unwrap();
    assert_eq!(encode_session(&again).unwrap(), encoded);
    // What the engine writes for the record is the same bytes.
    let core = wacore_libsignal::protocol::SessionRecord::deserialize(&bytes).unwrap();
    assert_eq!(core.serialize().unwrap(), bytes);
    assert_eq!(
        decode_session(&[0xFF, 0xFF, 0xFF, 0xFF]),
        Err(StoreError::Codec(CodecError::SessionRecord))
    );
    // No bytes are the record without sessions.
    let empty = decode_session(&[]).unwrap();
    assert!(!empty.have_open_session());
    assert!(!empty.has_usable_sender_chain());
    let mut no_chain = sample_state();
    no_chain.sender_chain = None;
    let record = decode_session(&encode_session_state(&no_chain)).unwrap();
    assert!(record.have_open_session());
    assert!(!record.has_usable_sender_chain());
}

#[test]
fn sender_key_codec() {
    let empty = SenderKeyRecord::new();
    assert!(empty.is_empty());
    assert_eq!(empty.serialize(), Vec::<u8>::new());
    assert_eq!(
        decode_sender_key(&[0xFF, 0xFF, 0xFF]),
        Err(StoreError::Codec(CodecError::SenderKeyRecord))
    );
    assert_eq!(
        SenderKeyRecord::deserialize(&[0xFF, 0xFF, 0xFF]),
        Err(StoreError::Codec(CodecError::SenderKeyRecord))
    );
    let state = obj(vec![
        ("senderKeyId", HostValue::Number(4)),
        ("senderChainKey", obj(vec![("iteration", HostValue::Number(2)), ("seed", numbers(&[1; 32]))])),
        ("senderSigningKey", obj(vec![("public", numbers(&[5; 33]))])),
    ]);
    let bytes = migrate_legacy_sender_key(&HostValue::List(vec![state])).unwrap().unwrap();
    let record = decode_sender_key(&bytes).unwrap();
    assert!(!record.is_empty());
    assert_eq!(encode_sender_key(&record).unwrap(), bytes);
    assert_eq!(SenderKeyRecord::deserialize(&bytes).unwrap().serialize(), bytes);
}

#[test]
fn legacy_sender_key_detection() {
    assert!(starts_json_array(b"[1]"));
    assert!(starts_json_array(b" \t\r\n[1]"));
    assert!(!starts_json_array(b""));
    assert!(!starts_json_array(b"   "));
    assert!(!starts_json_array(b"{\"a\": []}"));
    assert!(!starts_json_array(b"\x0a\x08\x01"));
    assert_eq!(legacy_sender_key_text(b" [1]"), Some(" [1]".to_string()));
    assert_eq!(legacy_sender_key_text("[\"ż\"]".as_bytes()), Some("[\"ż\"]".to_string()));
    assert_eq!(legacy_sender_key_text(b"[\xFF]"), None);
    assert_eq!(legacy_sender_key_text(b"x[1]"), None);
}

#[test]
fn legacy_sender_key_states_need_their_keys() {
    assert_eq!(migrate_legacy_sender_key(&obj(vec![])), Ok(None));
    assert_eq!(migrate_legacy_sender_key(&text("[]")), Ok(None));
    let no_chain_key = HostValue::List(vec![obj(vec![("senderKeyId", HostValue::Number(1))])]);
    match &no_chain_key {
        HostValue::List(items) => {
            assert_eq!(read_sender_key_states(items), Err(LegacyField::SenderChainKey))
        }
        _ => unreachable!(),
    }
    assert!(migrate_legacy_sender_key(&no_chain_key).is_err());
    let no_signing_key = vec![
        obj(vec![("senderChainKey", obj(vec![])), ("senderSigningKey", obj(vec![]))]),
        obj(vec![("senderChainKey", obj(vec![]))]),
    ];
    assert_eq!(read_sender_key_states(&no_signing_key), Err(LegacyField::SenderSigningKey));
    let empty = migrate_legacy_sender_key(&HostValue::List(vec![])).unwrap().unwrap();
    assert_eq!(empty, Vec::<u8>::new());
}

#[test]
fn registration_ids_have_14_bits() {
    assert_eq!(registration_id_from_bytes([0xFF, 0xFF]), 0x3FFF);
    assert_eq!(registration_id_from_bytes([0x01, 0x40]), 1);
    assert_eq!(registration_id_from_bytes([0x34, 0x12]), 0x1234);
    assert_eq!(registration_id_from_bytes([0, 0]), 0);
}

#[test]
fn identity_key_pair_framing() {
    let buffer = _serialize_identity_key_pair(&[5; 33], &[7; 32]);
    assert_eq!(buffer.len(), 2 + 33 + 2 + 32);
    assert_eq!(&buffer[..2], &[0x0A, 33]);
    assert_eq!(&buffer[2..35], &[5u8; 33]);
    assert_eq!(&buffer[35..37], &[0x12, 32]);
    assert_eq!(&buffer[37..], &[7u8; 32]);
    assert_eq!(_serialize_identity_key_pair(&[], &[]), vec![0x0A, 0, 0x12, 0]);
    assert_eq!(_serialize_identity_key_pair(&[1; 300], &[])[1], 44);
}

fn sticker_json(pack_id: &str, pack_name: &str, publisher: &str, emojis: &[&str]) -> Vec<u8> {
    let mut map = serde_json::Map::new();
    map.insert("sticker-pack-id".to_string(), serde_json::Value::from(pack_id));
    map.insert("sticker-pack-name".to_string(), serde_json::Value::from(pack_name));
    map.insert("sticker-pack-publisher".to_string(), serde_json::Value::from(publisher));
    if !emojis.is_empty() {
        map.insert(
            "emojis".to_string(),
            serde_json::Value::from(emojis.iter().map(|e| e.to_string()).collect::<Vec<_>>()),
        );
    }
    serde_json::to_vec(&serde_json::Value::Object(map)).unwrap()
}

#[test]
fn test_exif_header() {
    let json = sticker_json("test", "Test Pack", "Test Author", &[]);
    let exif = build_exif(&json);

    assert_eq!(&exif[0..4], &[0x49, 0x49, 0x2A, 0x00]);

    let json_part = &exif[exif_header_bytes().len()..];
    let expected_len = json_part.len() as u32;
    let actual_len = u32::from_le_bytes([exif[14], exif[15], exif[16], exif[17]]);
    assert_eq!(actual_len, expected_len);
}

#[test]
fn exif_block_layout() {
    let header = exif_header_bytes();
    assert_eq!(header.len(), 22);
    assert_eq!(
        header,
        vec![
            0x49, 0x49, 0x2A, 0x00, 0x08, 0x00, 0x00, 0x00, 0x01, 0x00, 0x41, 0x57, 0x07, 0x00,
            0x00, 0x00, 0x00, 0x00, 0x16, 0x00, 0x00, 0x00
        ]
    );
    let json = vec![b'x'; 0x0102];
    let exif = build_exif(&json);
    assert_eq!(&exif[14..18], &[0x02, 0x01, 0x00, 0x00]);
    assert_eq!(&exif[18..22], &[0x16, 0x00, 0x00, 0x00]);
    assert_eq!(exif_json_bytes(&exif), Some(json));
    assert_eq!(exif_json_bytes(&header), None);
    assert_eq!(exif_json_bytes(&build_exif(&[])), None);
    assert_eq!(exif_json_bytes(&[1, 2, 3]), None);
}

#[test]
fn test_signing_key_derivation_from_all_zero_private() {
    let all_zero_private_key = [0u8; 32];

    let expected_public_key_bytes: [u8; 32] = [
        105, 62, 71, 151, 44, 175, 82, 124, 120, 131, 173, 27, 57, 130, 47, 2, 111, 71, 219, 42,
        176, 225, 145, 153, 85, 184, 153, 58, 160, 68, 17, 209,
    ];

    let derived_public_key = derive_signing_public_key(&all_zero_private_key);

    assert_eq!(derived_public_key, expected_public_key_bytes);
}

#[test]
fn public_key_of_a_private_key() {
    let key = get_public_from_private_key(&[0u8; 32]).unwrap();
    assert_eq!(key.len(), 33);
    assert_eq!(key[0], 0x05);
    assert_eq!(&key[1..], &derive_signing_public_key(&[0u8; 32]));
    // Clamping makes these two private keys the same scalar.
    let mut other = [0u8; 32];
    other[0] = 7;
    other[31] = 128;
    assert_eq!(derive_signing_public_key(&other), derive_signing_public_key(&[0u8; 32]));
    let mut different = [0u8; 32];
    different[1] = 1;
    assert_ne!(derive_signing_public_key(&different), derive_signing_public_key(&[0u8; 32]));
    assert_eq!(
        get_public_from_private_key(&[0u8; 31]),
        Err(KeyInputError::IncorrectPrivateKeyLength)
    );
    assert_eq!(
        get_public_from_private_key(&[0u8; 33]),
        Err(KeyInputError::IncorrectPrivateKeyLength)
    );
}

#[test]
fn key_agreement_is_symmetric() {
    let alice = wacore_libsignal::protocol::KeyPair::generate(&mut rand::rngs::OsRng.unwrap_err());
    let bob = wacore_libsignal::protocol::KeyPair::generate(&mut rand::rngs::OsRng.unwrap_err());
    let alice_public = alice.public_key.serialize();
    let bob_public = bob.public_key.serialize();
    let one = calculate_agreement(&bob_public, &alice.private_key.serialize()).unwrap();
    // The raw form of the public key gives the same secret.
    let other = calculate_agreement(&alice_public[1..], &bob.private_key.serialize()).unwrap();
    assert_eq!(one, other);
    assert_eq!(one.len(), 32);
    assert_eq!(
        one,
        alice.private_key.calculate_agreement(&bob.public_key).unwrap().into_vec()
    );
    assert_eq!(
        calculate_agreement(&[0x04; 33], &[1; 32]),
        Err(KeyInputError::InvalidPublicKeyLength(33))
    );
    assert_eq!(calculate_agreement(&[1; 30], &[1; 32]), Err(KeyInputError::InvalidPublicKey));
    assert_eq!(
        calculate_agreement(&[1; 32], &[1; 30]),
        Err(KeyInputError::IncorrectPrivateKeyLength)
    );
}

#[test]
fn signatures_are_verified() {
    let mut rng = rand::rngs::OsRng.unwrap_err();
    let pair = wacore_libsignal::protocol::KeyPair::generate(&mut rng);
    let signature = pair.private_key.calculate_signature(b"message", &mut rng).unwrap();
    let public = pair.public_key.serialize();
    assert_eq!(verify_signature(&public, b"message", &signature), Ok(true));
    assert_eq!(verify_signature(&public[1..], b"message", &signature), Ok(true));
    assert_eq!(verify_signature(&public, b"massage", &signature), Ok(false));
    let mut tampered = signature.to_vec();
    tampered[3] ^= 1;
    assert_eq!(verify_signature(&public, b"message", &tampered), Ok(false));
    assert_eq!(
        verify_signature(&public, b"message", &signature[..63]),
        Err(KeyInputError::InvalidSignature)
    );
    assert_eq!(
        verify_signature(&public[..31], b"message", &signature),
        Err(KeyInputError::InvalidPublicKey)
    );
    assert_eq!(
        verify_signature(&[0x04; 33], b"message", &signature),
        Err(KeyInputError::InvalidPublicKeyLength(33))
    );
}

#[test]
fn addresses_of_user_ids() {
    let address = jid_to_protocol_address("12345:7@s.whatsapp.net").unwrap();
    assert_eq!(address.id(), "12345");
    assert_eq!(address.device_id(), 7);
    assert_eq!(jid_to_protocol_address("12345@s.whatsapp.net").unwrap().js_to_string(), "12345.0");
    assert_eq!(jid_to_protocol_address("12345:x@s").unwrap().device_id(), 0);
    assert_eq!(jid_to_protocol_address("12345:3:9@s").unwrap().device_id(), 3);
    assert_eq!(jid_to_protocol_address("12345:").unwrap().device_id(), 0);
    assert_eq!(jid_to_protocol_address("12345").unwrap().device_id(), 0);
    assert_eq!(jid_to_protocol_address("").unwrap().id(), "");
    assert_eq!(jid_to_protocol_address("a@b:5").unwrap().device_id(), 0);
    assert_eq!(jid_to_protocol_address("a.b:5@s"), Err(AddressError::EncodedAddress));
    assert_eq!(
        jid_to_signal_protocol_address("12345:7@s.whatsapp.net".to_string()),
        Ok("12345.7".to_string())
    );
}
