//! The adapter's memory: what one adapter has already seen of the host
//! store.
//!
//! Every table maps a store key to bytes in canonical form. Nothing is ever
//! taken out: an adapter lives for one operation of the protocol engine,
//! and the host store stays the system of record.

use crate::buffers::copy_bytes;
use crate::keys::KeyPairView;
use vstd::hash_map::StringHashMap;
use vstd::prelude::*;

verus! {

/// A table from store keys to bytes.
pub struct ByteTable {
    entries: StringHashMap<Vec<u8>>,
}

impl View for ByteTable {
    type V = Map<Seq<char>, Seq<u8>>;

    closed spec fn view(&self) -> Map<Seq<char>, Seq<u8>> {
        self.entries@.map_values(|bytes: Vec<u8>| bytes@)
    }
}

impl ByteTable {
    /// The empty table.
    pub fn new() -> (table: Self)
        ensures
            table@ == Map::<Seq<char>, Seq<u8>>::empty(),
    {
        let table = ByteTable { entries: StringHashMap::new() };
        assert(table@ =~= Map::<Seq<char>, Seq<u8>>::empty());
        table
    }

    /// A copy of the bytes stored under `key`.
    pub fn get(&self, key: &str) -> (bytes: Option<Vec<u8>>)
        ensures
            match bytes {
                Some(b) => self@.contains_key(key@) && self@[key@] == b@,
                None => !self@.contains_key(key@),
            },
    {
        match self.entries.get(key) {
            Some(b) => Some(copy_bytes(b)),
            None => None,
        }
    }

    /// Whether anything is stored under `key`.
    pub fn contains_key(&self, key: &str) -> (found: bool)
        ensures
            found == self@.contains_key(key@),
    {
        self.entries.contains_key(key)
    }

    /// Whether `bytes` are what is stored under `key`.
    pub fn holds(&self, key: &str, bytes: &[u8]) -> (same: bool)
        ensures
            same == (self@.contains_key(key@) && self@[key@] == bytes@),
    {
        match self.entries.get(key) {
            Some(stored) => {
                let n: usize = stored.len();
                if n != bytes.len() {
                    assert(stored@.len() != bytes@.len());
                    return false;
                }
                let mut i: usize = 0;
                while i < n
                    invariant
                        n == stored@.len(),
                        n == bytes@.len(),
                        i <= n,
                        self@.contains_key(key@),
                        self@[key@] == stored@,
                        stored@.subrange(0, i as int) == bytes@.subrange(0, i as int),
                    decreases n - i,
                {
                    if stored[i] != bytes[i] {
                        assert(stored@[i as int] != bytes@[i as int]);
                        return false;
                    }
                    assert(stored@.subrange(0, i + 1) == stored@.subrange(0, i as int).push(
                        stored@[i as int],
                    ));
                    assert(bytes@.subrange(0, i + 1) == bytes@.subrange(0, i as int).push(
                        bytes@[i as int],
                    ));
                    i += 1;
                }
                assert(stored@.subrange(0, n as int) == stored@);
                assert(bytes@.subrange(0, n as int) == bytes@);
                true
            },
            None => false,
        }
    }

    /// Takes out what is stored under `key`; tells whether anything was.
    pub fn remove(&mut self, key: &str) -> (removed: bool)
        ensures
            removed == old(self)@.contains_key(key@),
            final(self)@ == old(self)@.remove(key@),
    {
        let removed = self.entries.contains_key(key);
        self.entries.remove(key);
        assert(self@ =~= old(self)@.remove(key@));
        removed
    }

    /// Stores `bytes` under `key`, in place of what was there.
    pub fn put(&mut self, key: String, bytes: Vec<u8>)
        ensures
            final(self)@ == old(self)@.insert(key@, bytes@),
    {
        self.entries.insert(key, bytes);
        assert(self@ =~= old(self)@.insert(key@, bytes@));
    }
}

/// What an adapter remembers.
pub struct CacheView {
    /// The local identity, once it was loaded.
    pub identity: Option<KeyPairView>,
    /// The local registration id, once it was loaded.
    pub registration_id: Option<u32>,
    /// Session records by encoded address.
    pub sessions: Map<Seq<char>, Seq<u8>>,
    /// Sender-key records by sender-key id.
    pub sender_keys: Map<Seq<char>, Seq<u8>>,
    /// The identity key that was last found trusted, or saved, by name.
    pub identities: Map<Seq<char>, Seq<u8>>,
}

impl CacheView {
    /// The memory of a new adapter: nothing.
    pub open spec fn empty() -> CacheView {
        CacheView {
            identity: None,
            registration_id: None,
            sessions: Map::empty(),
            sender_keys: Map::empty(),
            identities: Map::empty(),
        }
    }

    /// The same memory with a session stored.
    pub open spec fn with_session(self, address: Seq<char>, record: Seq<u8>) -> CacheView {
        CacheView { sessions: self.sessions.insert(address, record), ..self }
    }

    /// The same memory with a sender key stored.
    pub open spec fn with_sender_key(self, key_id: Seq<char>, record: Seq<u8>) -> CacheView {
        CacheView { sender_keys: self.sender_keys.insert(key_id, record), ..self }
    }

    /// The same memory with an identity key stored for a name.
    pub open spec fn with_identity_of(self, name: Seq<char>, identity_key: Seq<u8>) -> CacheView {
        CacheView { identities: self.identities.insert(name, identity_key), ..self }
    }

    /// The same memory with the local identity.
    pub open spec fn with_identity(self, pair: KeyPairView) -> CacheView {
        CacheView { identity: Some(pair), ..self }
    }

    /// The same memory with the local registration id.
    pub open spec fn with_registration_id(self, id: u32) -> CacheView {
        CacheView { registration_id: Some(id), ..self }
    }
}

} // verus!
