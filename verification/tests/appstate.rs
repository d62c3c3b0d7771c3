use signal_bridge::appstate::{
    check_base_hash, generate_content_mac, generate_index_mac, generate_patch_mac,
    generate_snapshot_mac, to_be_bytes, LTHashState, MacError,
};
use signal_bridge::buffers::first_bytes;
use wacore_libsignal::crypto::CryptographicMac;

fn hmac(algorithm: &str, key: &[u8], parts: &[&[u8]]) -> Vec<u8> {
    let mut mac = CryptographicMac::new(algorithm, key).unwrap();
    for part in parts {
        mac.update(part);
    }
    mac.finalize()
}

#[test]
fn test_lt_hash_state_new() {
    let state = LTHashState::new();
    assert_eq!(state.version(), 0);
    assert_eq!(state.hash().len(), 128);
}

#[test]
fn new_state_is_empty() {
    let state = LTHashState::new();
    assert_eq!(state.hash(), vec![0u8; 128]);
    assert!(!state.has_value_mac("a"));
    assert_eq!(state.get_value_mac("a"), None);
}

#[test]
fn value_macs_are_set_replaced_and_deleted() {
    let mut state = LTHashState::new();
    state.set_version(9);
    state.set_hash(&[1, 2, 3]);
    state.set_value_mac("a", &[1]);
    state.set_value_mac("b", &[2]);
    state.set_value_mac("a", &[3]);
    assert_eq!(state.version(), 9);
    assert_eq!(state.hash(), vec![1, 2, 3]);
    assert_eq!(state.get_value_mac("a"), Some(vec![3]));
    assert_eq!(state.get_value_mac("b"), Some(vec![2]));
    assert!(state.has_value_mac("b"));

    let copy = state.clone_state();
    assert!(state.delete_value_mac("a"));
    assert!(!state.delete_value_mac("a"));
    assert_eq!(state.get_value_mac("a"), None);
    assert_eq!(state.get_value_mac("b"), Some(vec![2]));

    // The copy is its own state.
    assert_eq!(copy.version(), 9);
    assert_eq!(copy.hash(), vec![1, 2, 3]);
    assert_eq!(copy.get_value_mac("a"), Some(vec![3]));
    assert_eq!(copy.get_value_mac("b"), Some(vec![2]));
}

#[test]
fn numbers_are_written_high_byte_first() {
    assert_eq!(to_be_bytes(0), vec![0; 8]);
    assert_eq!(to_be_bytes(0x0102_0304_0506_0708), vec![1, 2, 3, 4, 5, 6, 7, 8]);
    assert_eq!(to_be_bytes(u64::MAX), vec![0xFF; 8]);
    assert_eq!(to_be_bytes(258), 258u64.to_be_bytes().to_vec());
    assert_eq!(first_bytes(&[1, 2, 3], 2), vec![1, 2]);
    assert_eq!(first_bytes(&[1, 2, 3], 5), vec![1, 2, 3]);
}

#[test]
fn content_mac_is_the_truncated_hmac() {
    let key = [7u8; 32];
    let key_id = [1u8, 2, 3];
    let data = b"value";
    let expected = hmac(
        "HmacSha512",
        &key,
        &[&[2u8], &key_id, data, &((key_id.len() + 1) as u64).to_be_bytes()],
    );
    let mac = generate_content_mac(2, data, &key_id, &key).unwrap();
    assert_eq!(mac.len(), 32);
    assert_eq!(mac, expected[..32].to_vec());
    assert_ne!(mac, generate_content_mac(1, data, &key_id, &key).unwrap());
    assert_eq!(
        generate_content_mac(2, data, &key_id, &[7u8; 31]),
        Err(MacError::InvalidKeyLength(31))
    );
}

#[test]
fn snapshot_mac() {
    let key = [9u8; 32];
    let hash = [3u8; 128];
    let expected =
        hmac("HmacSha256", &key, &[&hash, &5u64.to_be_bytes(), "regular_ż".as_bytes()]);
    assert_eq!(generate_snapshot_mac(&hash, 5, "regular_ż", &key), Ok(expected));
    assert_eq!(
        generate_snapshot_mac(&hash[..127], 5, "regular", &key[..3]),
        Err(MacError::InvalidHashLength(127))
    );
    assert_eq!(
        generate_snapshot_mac(&hash, 5, "regular", &key[..3]),
        Err(MacError::InvalidKeyLength(3))
    );
}

#[test]
fn patch_mac() {
    let key = [9u8; 32];
    let snapshot = [4u8; 32];
    let value_macs = vec![vec![1u8; 32], vec![], vec![2u8; 5]];
    let expected = hmac(
        "HmacSha256",
        &key,
        &[&snapshot, &[1u8; 32], &[], &[2u8; 5], &77u64.to_be_bytes(), b"critical"],
    );
    assert_eq!(generate_patch_mac(&snapshot, &value_macs, 77, "critical", &key), Ok(expected));
    let none = hmac("HmacSha256", &key, &[&snapshot, &77u64.to_be_bytes(), b"critical"]);
    assert_eq!(generate_patch_mac(&snapshot, &Vec::new(), 77, "critical", &key), Ok(none));
    assert_eq!(
        generate_patch_mac(&snapshot, &value_macs, 77, "critical", &[]),
        Err(MacError::InvalidKeyLength(0))
    );
}

#[test]
fn index_mac() {
    let key = [9u8; 32];
    assert_eq!(generate_index_mac(b"index", &key), Ok(hmac("HmacSha256", &key, &[b"index"])));
    assert_eq!(generate_index_mac(b"index", &[1u8; 33]), Err(MacError::InvalidKeyLength(33)));
}

#[test]
fn base_hash_has_128_bytes() {
    assert_eq!(check_base_hash(&[0u8; 128]), Ok(()));
    assert_eq!(check_base_hash(&[0u8; 64]), Err(MacError::InvalidHashLength(64)));
}

#[test]
fn copies_follow_sets_and_deletes() {
    let mut state = LTHashState::new();
    for round in 0..50u8 {
        state.set_value_mac("a", &[round]);
        state.set_value_mac("b", &[round, round]);
        assert!(state.delete_value_mac("a"));
    }
    state.set_value_mac("c", &[7]);
    assert!(!state.delete_value_mac("missing"));
    let copy = state.clone_state();
    assert_eq!(copy.get_value_mac("a"), None);
    assert_eq!(copy.get_value_mac("b"), Some(vec![49, 49]));
    assert_eq!(copy.get_value_mac("c"), Some(vec![7]));
    // A copy of a copy holds the same.
    let again = copy.clone_state();
    assert_eq!(again.get_value_mac("b"), Some(vec![49, 49]));
    assert!(!again.has_value_mac("a"));
}
