//! A store that keeps everything in memory.
//!
//! It holds what a caller put into it before an operation of the protocol
//! engine, and what the engine stored during it; afterwards the caller
//! takes the results out.

use crate::cache::ByteTable;
use crate::errors::{Context, Reason, StoreError};
use crate::keys::{
    IdentityKeyPair, KeyPairView, PreKeyRecord, PreKeyRecordView, SignedPreKeyRecord,
    SignedPreKeyRecordView,
};
use crate::protocol_address::ProtocolAddress;
use crate::session_record::SessionRecord;
use vstd::hash_map::HashMapWithView;
use vstd::prelude::*;
use vstd::std_specs::hash::axiom_u32_obeys_hash_table_key_model;

verus! {

/// A store in memory for the identity, the sessions and the pre-keys of
/// one user.
pub struct InMemorySignalStore {
    identities: ByteTable,
    pre_keys: HashMapWithView<u32, PreKeyRecord>,
    signed_pre_keys: HashMapWithView<u32, SignedPreKeyRecord>,
    sessions: ByteTable,
    identity_key_pair: Option<IdentityKeyPair>,
    registration_id: Option<u32>,
    removed_pre_key: Option<u32>,
}

/// What an `InMemorySignalStore` holds.
pub struct MemoryView {
    /// Identity keys by peer name.
    pub identities: Map<Seq<char>, Seq<u8>>,
    pub pre_keys: Map<u32, PreKeyRecordView>,
    pub signed_pre_keys: Map<u32, SignedPreKeyRecordView>,
    /// Session records by encoded address.
    pub sessions: Map<Seq<char>, Seq<u8>>,
    pub identity_key_pair: Option<KeyPairView>,
    pub registration_id: Option<u32>,
    /// The pre-key that was removed last.
    pub removed_pre_key: Option<u32>,
}

impl MemoryView {
    /// What a new store holds: nothing.
    pub open spec fn empty() -> MemoryView {
        MemoryView {
            identities: Map::empty(),
            pre_keys: Map::empty(),
            signed_pre_keys: Map::empty(),
            sessions: Map::empty(),
            identity_key_pair: None,
            registration_id: None,
            removed_pre_key: None,
        }
    }
}

impl View for InMemorySignalStore {
    type V = MemoryView;

    closed spec fn view(&self) -> MemoryView {
        MemoryView {
            identities: self.identities@,
            pre_keys: self.pre_keys@.map_values(|r: PreKeyRecord| r@),
            signed_pre_keys: self.signed_pre_keys@.map_values(|r: SignedPreKeyRecord| r@),
            sessions: self.sessions@,
            identity_key_pair: match self.identity_key_pair {
                Some(pair) => Some(pair@),
                None => None,
            },
            registration_id: self.registration_id,
            removed_pre_key: self.removed_pre_key,
        }
    }
}

/// The error of a store that is asked for what it does not hold.
pub open spec fn not_held(reason: Reason) -> StoreError {
    StoreError::InvalidState(Context::InMemorySignalStore, reason)
}

impl InMemorySignalStore {
    /// A store that holds nothing.
    pub fn new() -> (store: Self)
        ensures
            store@ == MemoryView::empty(),
    {
        broadcast use axiom_u32_obeys_hash_table_key_model;

        let store = InMemorySignalStore {
            identities: ByteTable::new(),
            pre_keys: HashMapWithView::new(),
            signed_pre_keys: HashMapWithView::new(),
            sessions: ByteTable::new(),
            identity_key_pair: None,
            registration_id: None,
            removed_pre_key: None,
        };
        assert(store@.pre_keys =~= Map::<u32, PreKeyRecordView>::empty());
        assert(store@.signed_pre_keys =~= Map::<u32, SignedPreKeyRecordView>::empty());
        store
    }

    /// Puts the local identity into the store.
    pub fn set_identity_key_pair(&mut self, identity_key_pair: IdentityKeyPair)
        ensures
            final(self)@ == (MemoryView {
                identity_key_pair: Some(identity_key_pair@),
                ..old(self)@
            }),
    {
        self.identity_key_pair = Some(identity_key_pair);
    }

    /// Puts the local registration id into the store.
    pub fn set_registration_id(&mut self, registration_id: u32)
        ensures
            final(self)@ == (MemoryView { registration_id: Some(registration_id), ..old(self)@ }),
    {
        self.registration_id = Some(registration_id);
    }

    /// Puts a session into the store, under an encoded address.
    pub fn set_session(&mut self, address: &str, record: SessionRecord)
        ensures
            final(self)@ == (MemoryView {
                sessions: old(self)@.sessions.insert(address@, record@),
                ..old(self)@
            }),
    {
        self.sessions.put(address.to_owned(), record.serialize());
    }

    /// Puts a pre-key into the store.
    pub fn add_pre_key(&mut self, id: u32, record: PreKeyRecord)
        ensures
            final(self)@ == (MemoryView {
                pre_keys: old(self)@.pre_keys.insert(id, record@),
                ..old(self)@
            }),
    {
        self.pre_keys.insert(id, record);
        assert(self@.pre_keys =~= old(self)@.pre_keys.insert(id, record@));
    }

    /// Puts a signed pre-key into the store.
    pub fn add_signed_pre_key(&mut self, id: u32, record: SignedPreKeyRecord)
        ensures
            final(self)@ == (MemoryView {
                signed_pre_keys: old(self)@.signed_pre_keys.insert(id, record@),
                ..old(self)@
            }),
    {
        self.signed_pre_keys.insert(id, record);
        assert(self@.signed_pre_keys =~= old(self)@.signed_pre_keys.insert(id, record@));
    }

    /// The session that is stored under an encoded address.
    pub fn get_session(&self, address: &str) -> (record: Option<SessionRecord>)
        ensures
            match record {
                Some(r) => self@.sessions.contains_key(address@) && self@.sessions[address@]
                    == r@,
                None => !self@.sessions.contains_key(address@),
            },
    {
        match self.sessions.get(address) {
            Some(bytes) => Some(SessionRecord::new(bytes)),
            None => None,
        }
    }

    /// The pre-key that was removed last, if one was.
    pub fn get_removed_pre_key_id(&self) -> (id: Option<u32>)
        ensures
            id == self@.removed_pre_key,
    {
        self.removed_pre_key
    }

    /// The local identity; an error where none was put in.
    pub fn get_identity_key_pair(&self) -> (pair: Result<IdentityKeyPair, StoreError>)
        ensures
            match self@.identity_key_pair {
                Some(view) => pair matches Ok(p) && p@ == view,
                None => pair matches Err(e) && e == not_held(Reason::IdentityKeyPairNotSet),
            },
    {
        match &self.identity_key_pair {
            Some(pair) => Ok(pair.duplicate()),
            None => Err(
                StoreError::InvalidState(
                    Context::InMemorySignalStore,
                    Reason::IdentityKeyPairNotSet,
                ),
            ),
        }
    }

    /// The local registration id; an error where none was put in.
    pub fn get_local_registration_id(&self) -> (id: Result<u32, StoreError>)
        ensures
            match self@.registration_id {
                Some(stored) => id == Ok::<u32, StoreError>(stored),
                None => id == Err::<u32, StoreError>(not_held(Reason::RegistrationIdNotSet)),
            },
    {
        match self.registration_id {
            Some(id) => Ok(id),
            None => Err(
                StoreError::InvalidState(
                    Context::InMemorySignalStore,
                    Reason::RegistrationIdNotSet,
                ),
            ),
        }
    }

    /// Stores the identity key of a peer; tells whether the peer had one
    /// before.
    pub fn save_identity(&mut self, address: &ProtocolAddress, identity: &[u8]) -> (changed: bool)
        ensures
            changed == old(self)@.identities.contains_key(address.name()),
            final(self)@ == (MemoryView {
                identities: old(self)@.identities.insert(address.name(), identity@),
                ..old(self)@
            }),
    {
        let name = address.id();
        let changed = self.identities.contains_key(name.as_str());
        self.identities.put(name, crate::buffers::copy_slice(identity));
        changed
    }

    /// Every identity is trusted.
    pub fn is_trusted_identity(&self, address: &ProtocolAddress, identity: &[u8]) -> (trusted:
        bool)
        ensures
            trusted,
    {
        true
    }

    /// The identity key that is stored for a peer.
    pub fn get_identity(&self, address: &ProtocolAddress) -> (identity: Option<Vec<u8>>)
        ensures
            match identity {
                Some(key) => self@.identities.contains_key(address.name())
                    && self@.identities[address.name()] == key@,
                None => !self@.identities.contains_key(address.name()),
            },
    {
        self.identities.get(address.id().as_str())
    }

    /// The session with a peer.
    pub fn load_session(&self, address: &ProtocolAddress) -> (record: Option<SessionRecord>)
        ensures
            match record {
                Some(r) => self@.sessions.contains_key(address.encoded())
                    && self@.sessions[address.encoded()] == r@,
                None => !self@.sessions.contains_key(address.encoded()),
            },
    {
        self.get_session(address.js_to_string().as_str())
    }

    /// Stores the session with a peer.
    pub fn store_session(&mut self, address: &ProtocolAddress, record: &SessionRecord)
        ensures
            final(self)@ == (MemoryView {
                sessions: old(self)@.sessions.insert(address.encoded(), record@),
                ..old(self)@
            }),
    {
        self.sessions.put(address.js_to_string(), record.serialize());
    }

    /// The pre-key of an id; an error where the store holds none.
    pub fn get_pre_key(&self, id: u32) -> (record: Result<PreKeyRecord, StoreError>)
        ensures
            match record {
                Ok(r) => self@.pre_keys.contains_key(id) && self@.pre_keys[id] == r@,
                Err(e) => !self@.pre_keys.contains_key(id) && e == not_held(
                    Reason::PreKeyNotFound(id),
                ),
            },
    {
        match self.pre_keys.get(&id) {
            Some(record) => Ok(record.duplicate()),
            None => Err(
                StoreError::InvalidState(Context::InMemorySignalStore, Reason::PreKeyNotFound(id)),
            ),
        }
    }

    /// Stores a pre-key.
    pub fn save_pre_key(&mut self, id: u32, record: &PreKeyRecord)
        ensures
            final(self)@ == (MemoryView {
                pre_keys: old(self)@.pre_keys.insert(id, record@),
                ..old(self)@
            }),
    {
        self.add_pre_key(id, record.duplicate());
    }

    /// Removes a pre-key, and notes that it was removed.
    pub fn remove_pre_key(&mut self, id: u32)
        ensures
            final(self)@ == (MemoryView {
                pre_keys: old(self)@.pre_keys.remove(id),
                removed_pre_key: Some(id),
                ..old(self)@
            }),
    {
        let _ = self.pre_keys.remove(&id);
        self.removed_pre_key = Some(id);
        assert(self@.pre_keys =~= old(self)@.pre_keys.remove(id));
    }

    /// The signed pre-key of an id; an error where the store holds none.
    pub fn get_signed_pre_key(&self, id: u32) -> (record: Result<SignedPreKeyRecord, StoreError>)
        ensures
            match record {
                Ok(r) => self@.signed_pre_keys.contains_key(id) && self@.signed_pre_keys[id]
                    == r@,
                Err(e) => !self@.signed_pre_keys.contains_key(id) && e == not_held(
                    Reason::SignedPreKeyNotFound(id),
                ),
            },
    {
        match self.signed_pre_keys.get(&id) {
            Some(record) => Ok(record.duplicate()),
            None => Err(
                StoreError::InvalidState(
                    Context::InMemorySignalStore,
                    Reason::SignedPreKeyNotFound(id),
                ),
            ),
        }
    }

    /// Stores a signed pre-key.
    pub fn save_signed_pre_key(&mut self, id: u32, record: &SignedPreKeyRecord)
        ensures
            final(self)@ == (MemoryView {
                signed_pre_keys: old(self)@.signed_pre_keys.insert(id, record@),
                ..old(self)@
            }),
    {
        self.add_signed_pre_key(id, record.duplicate());
    }
}

} // verus!
