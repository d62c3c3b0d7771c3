use signal_bridge::errors::{Context, Reason, StoreError};
use signal_bridge::keys::{IdentityKeyPair, KeyPair, PreKeyRecord, SignedPreKeyRecord};
use signal_bridge::libsignal_store::InMemorySignalStore;
use signal_bridge::protocol_address::ProtocolAddress;
use signal_bridge::session_record::SessionRecord;

fn pair(seed: u8) -> KeyPair {
    KeyPair { public_key: vec![seed; 33], private_key: vec![seed; 32] }
}

#[test]
fn a_new_store_holds_nothing() {
    let store = InMemorySignalStore::new();
    assert_eq!(
        store.get_identity_key_pair(),
        Err(StoreError::InvalidState(
            Context::InMemorySignalStore,
            Reason::IdentityKeyPairNotSet
        ))
    );
    assert_eq!(
        store.get_local_registration_id(),
        Err(StoreError::InvalidState(Context::InMemorySignalStore, Reason::RegistrationIdNotSet))
    );
    assert_eq!(
        store.get_pre_key(3),
        Err(StoreError::InvalidState(Context::InMemorySignalStore, Reason::PreKeyNotFound(3)))
    );
    assert_eq!(
        store.get_signed_pre_key(4),
        Err(StoreError::InvalidState(
            Context::InMemorySignalStore,
            Reason::SignedPreKeyNotFound(4)
        ))
    );
    assert_eq!(store.get_session("alice.1"), None);
    assert_eq!(store.get_removed_pre_key_id(), None);
}

#[test]
fn what_was_put_in_comes_out() {
    let mut store = InMemorySignalStore::new();
    let identity = IdentityKeyPair { public_key: vec![5; 33], private_key: vec![6; 32] };
    store.set_identity_key_pair(identity.clone());
    store.set_registration_id(77);
    assert_eq!(store.get_identity_key_pair(), Ok(identity));
    assert_eq!(store.get_local_registration_id(), Ok(77));

    let alice = ProtocolAddress::new("alice".to_string(), 1).unwrap();
    store.set_session("alice.1", SessionRecord::new(vec![1, 2, 3]));
    assert_eq!(store.load_session(&alice), Some(SessionRecord::new(vec![1, 2, 3])));
    store.store_session(&alice, &SessionRecord::new(vec![4]));
    assert_eq!(store.get_session("alice.1"), Some(SessionRecord::new(vec![4])));
    let other = ProtocolAddress::new("alice".to_string(), 2).unwrap();
    assert_eq!(store.load_session(&other), None);
}

#[test]
fn pre_keys_are_removed_and_remembered() {
    let mut store = InMemorySignalStore::new();
    let first = PreKeyRecord { id: 1, key_pair: pair(1) };
    let second = PreKeyRecord { id: 2, key_pair: pair(2) };
    store.add_pre_key(1, first.clone());
    store.save_pre_key(2, &second);
    assert_eq!(store.get_pre_key(1), Ok(first));
    assert_eq!(store.get_pre_key(2), Ok(second.clone()));
    store.remove_pre_key(1);
    assert!(store.get_pre_key(1).is_err());
    assert_eq!(store.get_pre_key(2), Ok(second));
    assert_eq!(store.get_removed_pre_key_id(), Some(1));
    // Removing what is not there is noted all the same.
    store.remove_pre_key(9);
    assert_eq!(store.get_removed_pre_key_id(), Some(9));

    let signed =
        SignedPreKeyRecord { id: 5, timestamp: 1000, key_pair: pair(3), signature: vec![9; 64] };
    store.add_signed_pre_key(5, signed.clone());
    assert_eq!(store.get_signed_pre_key(5), Ok(signed.clone()));
    let replaced = SignedPreKeyRecord { timestamp: 2000, ..signed };
    store.save_signed_pre_key(5, &replaced);
    assert_eq!(store.get_signed_pre_key(5), Ok(replaced));
}

#[test]
fn identities_are_saved_by_name() {
    let mut store = InMemorySignalStore::new();
    let phone = ProtocolAddress::new("bob".to_string(), 1).unwrap();
    let tablet = ProtocolAddress::new("bob".to_string(), 2).unwrap();
    assert_eq!(store.get_identity(&phone), None);
    assert!(!store.save_identity(&phone, &[5; 33]));
    // The same name on another device: the identity is already there.
    assert!(store.save_identity(&tablet, &[6; 33]));
    assert_eq!(store.get_identity(&phone), Some(vec![6; 33]));
    assert!(store.is_trusted_identity(&phone, &[1, 2, 3]));
}
