//! The state of a synchronized collection: its version, its running hash,
//! and the value MACs of its entries; and the MACs that guard the
//! collection's values, indexes, snapshots and patches.

use crate::buffers::{append_bytes, copy_bytes, copy_slice, first_bytes};
use crate::cache::ByteTable;
use vstd::prelude::*;

verus! {

/// Length of the running hash of a collection.
pub const LT_HASH_LEN: usize = 128;

/// The state of a synchronized collection.
pub struct LTHashState {
    version: u64,
    hash: Vec<u8>,
    /// Value MACs, by the index MAC of their entry in base64.
    index_value_map: ByteTable,
    /// Every index under which the map holds a value, for making copies.
    indexes: Vec<String>,
}

/// Whether a list of indexes holds an index.
pub open spec fn lists(indexes: Seq<String>, index: Seq<char>) -> bool {
    exists|i: int| 0 <= i < indexes.len() && (#[trigger] indexes[i])@ == index
}

/// What a list holds after one more index.
proof fn lists_after_push(indexes: Seq<String>, added: String, index: Seq<char>)
    ensures
        lists(indexes.push(added), index) == (lists(indexes, index) || added@ == index),
{
    let longer = indexes.push(added);
    if lists(indexes, index) {
        let i = choose|i: int| 0 <= i < indexes.len() && (#[trigger] indexes[i])@ == index;
        assert(longer[i] == indexes[i]);
    }
    if added@ == index {
        assert(longer[indexes.len() as int] == added);
    }
    if lists(longer, index) {
        let i = choose|i: int| 0 <= i < longer.len() && (#[trigger] longer[i])@ == index;
        if i < indexes.len() {
            assert(indexes[i] == longer[i]);
        }
    }
}

impl LTHashState {
    /// Whether the state is well formed: every index of the map is in the
    /// list of indexes. Every state that `new` or `clone_state` made is,
    /// and every method keeps it so.
    pub closed spec fn wf(&self) -> bool {
        forall|index: Seq<char>| #[trigger]
            self.index_value_map@.contains_key(index) ==> lists(self.indexes@, index)
    }

    /// The version of the collection.
    pub closed spec fn spec_version(&self) -> u64 {
        self.version
    }

    /// The running hash of the collection.
    pub closed spec fn spec_hash(&self) -> Seq<u8> {
        self.hash@
    }

    /// The value MACs of the collection, by index.
    pub closed spec fn value_macs(&self) -> Map<Seq<char>, Seq<u8>> {
        self.index_value_map@
    }

    /// The state of an empty collection: version 0, a hash of 128 zero
    /// bytes, no value MACs.
    pub fn new() -> (state: Self)
        ensures
            state.wf(),
            state.spec_version() == 0,
            state.spec_hash() == Seq::new(128, |i: int| 0u8),
            state.value_macs() == Map::<Seq<char>, Seq<u8>>::empty(),
    {
        let mut hash: Vec<u8> = Vec::with_capacity(LT_HASH_LEN);
        let mut i: usize = 0;
        while i < LT_HASH_LEN
            invariant
                i <= LT_HASH_LEN,
                hash@ == Seq::new(i as nat, |j: int| 0u8),
            decreases LT_HASH_LEN - i,
        {
            hash.push(0u8);
            assert(hash@ == Seq::new((i + 1) as nat, |j: int| 0u8));
            i += 1;
        }
        LTHashState { version: 0, hash, index_value_map: ByteTable::new(), indexes: Vec::new() }
    }

    /// The version of the collection.
    pub fn version(&self) -> (version: u64)
        ensures
            version == self.spec_version(),
    {
        self.version
    }

    /// Sets the version; nothing else changes.
    pub fn set_version(&mut self, version: u64)
        requires
            old(self).wf(),
        ensures
            final(self).wf(),
            final(self).spec_version() == version,
            final(self).spec_hash() == old(self).spec_hash(),
            final(self).value_macs() == old(self).value_macs(),
    {
        self.version = version;
    }

    /// The running hash.
    pub fn hash(&self) -> (hash: Vec<u8>)
        ensures
            hash@ == self.spec_hash(),
    {
        copy_bytes(&self.hash)
    }

    /// Sets the running hash; nothing else changes.
    pub fn set_hash(&mut self, hash: &[u8])
        requires
            old(self).wf(),
        ensures
            final(self).wf(),
            final(self).spec_hash() == hash@,
            final(self).spec_version() == old(self).spec_version(),
            final(self).value_macs() == old(self).value_macs(),
    {
        self.hash = copy_slice(hash);
    }

    /// The value MAC of an index.
    pub fn get_value_mac(&self, index_mac_base64: &str) -> (value_mac: Option<Vec<u8>>)
        ensures
            match value_mac {
                Some(value) => self.value_macs().contains_key(index_mac_base64@)
                    && self.value_macs()[index_mac_base64@] == value@,
                None => !self.value_macs().contains_key(index_mac_base64@),
            },
    {
        self.index_value_map.get(index_mac_base64)
    }

    /// Whether the collection holds a value MAC for an index.
    pub fn has_value_mac(&self, index_mac_base64: &str) -> (has: bool)
        ensures
            has == self.value_macs().contains_key(index_mac_base64@),
    {
        self.index_value_map.contains_key(index_mac_base64)
    }

    /// Sets the value MAC of an index; nothing else changes.
    pub fn set_value_mac(&mut self, index_mac_base64: &str, value_mac: &[u8])
        requires
            old(self).wf(),
        ensures
            final(self).wf(),
            final(self).value_macs() == old(self).value_macs().insert(
                index_mac_base64@,
                value_mac@,
            ),
            final(self).spec_version() == old(self).spec_version(),
            final(self).spec_hash() == old(self).spec_hash(),
    {
        let ghost listed = self.indexes@;
        let known = self.index_value_map.contains_key(index_mac_base64);
        let added = index_mac_base64.to_owned();
        let ghost added_index = added;
        if !known {
            self.indexes.push(added);
        }
        self.index_value_map.put(index_mac_base64.to_owned(), copy_slice(value_mac));
        proof {
            assert forall|index: Seq<char>| #[trigger]
                self.index_value_map@.contains_key(index) implies lists(
                self.indexes@,
                index,
            ) by {
                if index != index_mac_base64@ {
                    assert(old(self).index_value_map@.contains_key(index));
                }
                if !known {
                    lists_after_push(listed, added_index, index);
                }
            }
        }
    }

    /// Takes the value MAC of an index out; tells whether there was one.
    pub fn delete_value_mac(&mut self, index_mac_base64: &str) -> (deleted: bool)
        requires
            old(self).wf(),
        ensures
            final(self).wf(),
            deleted == old(self).value_macs().contains_key(index_mac_base64@),
            final(self).value_macs() == old(self).value_macs().remove(index_mac_base64@),
            final(self).spec_version() == old(self).spec_version(),
            final(self).spec_hash() == old(self).spec_hash(),
    {
        let deleted = self.index_value_map.remove(index_mac_base64);
        if deleted {
            // The index leaves the list as well, so that the list does not
            // grow where an index is set and deleted over and over.
            let wanted = index_mac_base64.to_owned();
            let ghost listed = self.indexes@;
            let n: usize = self.indexes.len();
            let mut kept: Vec<String> = Vec::with_capacity(n);
            let mut i: usize = 0;
            while i < n
                invariant
                    n == listed.len(),
                    listed == self.indexes@,
                    i <= n,
                    wanted@ == index_mac_base64@,
                    forall|j: int|
                        0 <= j < i && (#[trigger] listed[j])@ != index_mac_base64@ ==> lists(
                            kept@,
                            listed[j]@,
                        ),
                decreases n - i,
            {
                if self.indexes[i] != wanted {
                    let ghost before = kept@;
                    let entry = self.indexes[i].clone();
                    kept.push(entry);
                    proof {
                        assert forall|j: int|
                            0 <= j < i + 1 && (#[trigger] listed[j])@
                                != index_mac_base64@ implies lists(kept@, listed[j]@) by {
                            lists_after_push(before, entry, listed[j]@);
                        }
                    }
                }
                i += 1;
            }
            proof {
                assert forall|index: Seq<char>| #[trigger]
                    self.index_value_map@.contains_key(index) implies lists(kept@, index) by {
                    assert(old(self).index_value_map@.contains_key(index));
                    assert(lists(listed, index));
                    let j = choose|j: int| 0 <= j < listed.len() && (#[trigger] listed[j])@ == index;
                    assert(lists(kept@, listed[j]@));
                }
            }
            self.indexes = kept;
        }
        deleted
    }

    /// A copy of the state.
    pub fn clone_state(&self) -> (copy: LTHashState)
        requires
            self.wf(),
        ensures
            copy.wf(),
            copy.spec_version() == self.spec_version(),
            copy.spec_hash() == self.spec_hash(),
            copy.value_macs() == self.value_macs(),
    {
        let n: usize = self.indexes.len();
        let mut copied = ByteTable::new();
        let mut indexes: Vec<String> = Vec::with_capacity(n);
        let mut i: usize = 0;
        while i < n
            invariant
                n == self.indexes@.len(),
                i <= n,
                forall|index: Seq<char>| #[trigger]
                    copied@.contains_key(index) ==> self.index_value_map@.contains_key(index)
                        && copied@[index] == self.index_value_map@[index] && lists(
                        indexes@,
                        index,
                    ),
                forall|j: int|
                    0 <= j < i && self.index_value_map@.contains_key(
                        (#[trigger] self.indexes@[j])@,
                    ) ==> copied@.contains_key(self.indexes@[j]@),
            decreases n - i,
        {
            let index = &self.indexes[i];
            match self.index_value_map.get(index.as_str()) {
                Some(value) => {
                    let ghost before = indexes@;
                    let ghost copied_before = copied@;
                    let added = index.clone();
                    indexes.push(added);
                    copied.put(index.clone(), value);
                    proof {
                        assert forall|any: Seq<char>| #[trigger]
                            copied@.contains_key(any) implies self.index_value_map@.contains_key(
                            any,
                        ) && copied@[any] == self.index_value_map@[any] && lists(
                            indexes@,
                            any,
                        ) by {
                            lists_after_push(before, added, any);
                            if any != index@ {
                                assert(copied_before.contains_key(any));
                            }
                        }
                    }
                },
                None => {},
            }
            i += 1;
        }
        proof {
            assert forall|index: Seq<char>|
                self.index_value_map@.contains_key(index) implies copied@.contains_key(index) by {
                assert(lists(self.indexes@, index));
                let j = choose|j: int|
                    0 <= j < self.indexes@.len() && (#[trigger] self.indexes@[j])@ == index;
                assert(copied@.contains_key(self.indexes@[j]@));
            }
            assert(copied@ =~= self.index_value_map@);
        }
        LTHashState {
            version: self.version,
            hash: copy_bytes(&self.hash),
            index_value_map: copied,
            indexes,
        }
    }
}

/// Why a MAC could not be made.
#[derive(Debug, Clone, Copy, PartialEq, Eq, Structural)]
pub enum MacError {
    /// The key has another length than 32 bytes.
    InvalidKeyLength(usize),
    /// The running hash has another length than 128 bytes.
    InvalidHashLength(usize),
}

/// Length of a MAC key.
pub const MAC_KEY_LEN: usize = 32;

/// Length of a value MAC.
pub const VALUE_MAC_LEN: usize = 32;

/// The HMAC-SHA-256 of a message under a key.
pub uninterp spec fn hmac_sha256(key: Seq<u8>, message: Seq<u8>) -> Seq<u8>;

/// The HMAC-SHA-512 of a message under a key.
pub uninterp spec fn hmac_sha512(key: Seq<u8>, message: Seq<u8>) -> Seq<u8>;

/// Computes an HMAC-SHA-256 with `wacore_libsignal::crypto::CryptographicMac`:
/// `new`, one `update` with the whole message, `finalize`. The MAC is a
/// function of key and message, and 32 bytes long.
#[verifier::external_body]
fn mac_sha256(key: &[u8], message: &[u8]) -> (mac: Vec<u8>)
    ensures
        mac@ == hmac_sha256(key@, message@),
        mac@.len() == 32,
{
    match wacore_libsignal::crypto::CryptographicMac::new("HmacSha256", key) {
        Ok(mut mac) => {
            mac.update(message);
            mac.finalize()
        },
        Err(_) => Vec::new(),
    }
}

/// Computes an HMAC-SHA-512 with `wacore_libsignal::crypto::CryptographicMac`:
/// `new`, one `update` with the whole message, `finalize`. The MAC is a
/// function of key and message, and 64 bytes long.
#[verifier::external_body]
fn mac_sha512(key: &[u8], message: &[u8]) -> (mac: Vec<u8>)
    ensures
        mac@ == hmac_sha512(key@, message@),
        mac@.len() == 64,
{
    match wacore_libsignal::crypto::CryptographicMac::new("HmacSha512", key) {
        Ok(mut mac) => {
            mac.update(message);
            mac.finalize()
        },
        Err(_) => Vec::new(),
    }
}

/// A 64-bit number as eight bytes, high byte first.
pub open spec fn be_bytes(v: u64) -> Seq<u8> {
    seq![
        ((v / 0x100_0000_0000_0000) % 256) as u8,
        ((v / 0x1_0000_0000_0000) % 256) as u8,
        ((v / 0x100_0000_0000) % 256) as u8,
        ((v / 0x1_0000_0000) % 256) as u8,
        ((v / 0x100_0000) % 256) as u8,
        ((v / 0x1_0000) % 256) as u8,
        ((v / 0x100) % 256) as u8,
        (v % 256) as u8,
    ]
}

/// Writes a 64-bit number as eight bytes, high byte first.
pub fn to_be_bytes(v: u64) -> (bytes: Vec<u8>)
    ensures
        bytes@ == be_bytes(v),
{
    let bytes: Vec<u8> = vec![
        ((v / 0x100_0000_0000_0000) % 256) as u8,
        ((v / 0x1_0000_0000_0000) % 256) as u8,
        ((v / 0x100_0000_0000) % 256) as u8,
        ((v / 0x1_0000_0000) % 256) as u8,
        ((v / 0x100_0000) % 256) as u8,
        ((v / 0x1_0000) % 256) as u8,
        ((v / 0x100) % 256) as u8,
        (v % 256) as u8,
    ];
    assert(bytes@ =~= be_bytes(v));
    bytes
}

/// The number that closes the message of a value MAC: one more than the
/// length of the key id, as a 64-bit number.
pub open spec fn key_data_length(key_id_len: nat) -> u64 {
    ((key_id_len + 1) % 0x1_0000_0000_0000_0000) as u64
}

/// The message of a value MAC: the operation, the key id, the data, and
/// the length of the key data.
pub open spec fn content_mac_message(operation: u8, data: Seq<u8>, key_id: Seq<u8>) -> Seq<u8> {
    seq![operation] + key_id + data + be_bytes(key_data_length(key_id.len()))
}

/// The message of a snapshot MAC: the running hash, the version, and the
/// name of the collection in UTF-8.
pub open spec fn snapshot_mac_message(lt_hash: Seq<u8>, version: u64, name: Seq<char>) -> Seq<u8> {
    lt_hash + be_bytes(version) + vstd::utf8::encode_utf8(name)
}

/// All the bytes of a list of buffers, in order.
pub open spec fn joined(buffers: Seq<Vec<u8>>) -> Seq<u8>
    decreases buffers.len(),
{
    if buffers.len() == 0 {
        Seq::empty()
    } else {
        joined(buffers.drop_last()) + buffers.last()@
    }
}

/// The message of a patch MAC: the snapshot MAC, the value MACs of the
/// patch, the version, and the name of the collection in UTF-8.
pub open spec fn patch_mac_message(
    snapshot_mac: Seq<u8>,
    value_macs: Seq<Vec<u8>>,
    version: u64,
    name: Seq<char>,
) -> Seq<u8> {
    snapshot_mac + joined(value_macs) + be_bytes(version) + vstd::utf8::encode_utf8(name)
}

/// The value MAC of an entry: the first 32 bytes of the HMAC-SHA-512 of
/// its message. The key has to have 32 bytes.
pub fn generate_content_mac(operation: u8, data: &[u8], key_id: &[u8], key: &[u8]) -> (mac:
    Result<Vec<u8>, MacError>)
    ensures
        match mac {
            Ok(m) => key@.len() == 32 && m@ == hmac_sha512(
                key@,
                content_mac_message(operation, data@, key_id@),
            ).subrange(0, 32),
            Err(e) => key@.len() != 32 && e == MacError::InvalidKeyLength(key@.len() as usize),
        },
{
    if key.len() != MAC_KEY_LEN {
        return Err(MacError::InvalidKeyLength(key.len()));
    }
    let n: u64 = key_id.len() as u64;
    let length: u64 = if n == u64::MAX {
        0
    } else {
        n + 1
    };
    let mut message: Vec<u8> = Vec::new();
    message.push(operation);
    assert(message@ == seq![operation]);
    append_bytes(&mut message, key_id);
    append_bytes(&mut message, data);
    append_bytes(&mut message, to_be_bytes(length).as_slice());
    let mac_full = mac_sha512(key, message.as_slice());
    Ok(first_bytes(mac_full.as_slice(), VALUE_MAC_LEN))
}

/// The MAC of a snapshot: the HMAC-SHA-256 of its message. The running
/// hash has to have 128 bytes and the key 32; the hash is looked at first.
pub fn generate_snapshot_mac(lt_hash: &[u8], version: u64, name: &str, key: &[u8]) -> (mac: Result<
    Vec<u8>,
    MacError,
>)
    ensures
        match mac {
            Ok(m) => lt_hash@.len() == 128 && key@.len() == 32 && m@ == hmac_sha256(
                key@,
                snapshot_mac_message(lt_hash@, version, name@),
            ),
            Err(e) => if lt_hash@.len() != 128 {
                e == MacError::InvalidHashLength(lt_hash@.len() as usize)
            } else {
                key@.len() != 32 && e == MacError::InvalidKeyLength(key@.len() as usize)
            },
        },
{
    if lt_hash.len() != LT_HASH_LEN {
        return Err(MacError::InvalidHashLength(lt_hash.len()));
    }
    if key.len() != MAC_KEY_LEN {
        return Err(MacError::InvalidKeyLength(key.len()));
    }
    let mut message = copy_slice(lt_hash);
    append_bytes(&mut message, to_be_bytes(version).as_slice());
    append_bytes(&mut message, name.as_bytes());
    Ok(mac_sha256(key, message.as_slice()))
}

/// The MAC of a patch: the HMAC-SHA-256 of its message. The key has to
/// have 32 bytes.
pub fn generate_patch_mac(
    snapshot_mac: &[u8],
    value_macs: &Vec<Vec<u8>>,
    version: u64,
    name: &str,
    key: &[u8],
) -> (mac: Result<Vec<u8>, MacError>)
    ensures
        match mac {
            Ok(m) => key@.len() == 32 && m@ == hmac_sha256(
                key@,
                patch_mac_message(snapshot_mac@, value_macs@, version, name@),
            ),
            Err(e) => key@.len() != 32 && e == MacError::InvalidKeyLength(key@.len() as usize),
        },
{
    if key.len() != MAC_KEY_LEN {
        return Err(MacError::InvalidKeyLength(key.len()));
    }
    let mut message = copy_slice(snapshot_mac);
    let n: usize = value_macs.len();
    let mut i: usize = 0;
    assert(value_macs@.subrange(0, 0) == Seq::<Vec<u8>>::empty());
    assert(snapshot_mac@ + joined(Seq::<Vec<u8>>::empty()) == snapshot_mac@);
    while i < n
        invariant
            n == value_macs@.len(),
            i <= n,
            message@ == snapshot_mac@ + joined(value_macs@.subrange(0, i as int)),
        decreases n - i,
    {
        let ghost next = value_macs@.subrange(0, i + 1);
        assert(next.drop_last() == value_macs@.subrange(0, i as int));
        assert(next.last() == value_macs@[i as int]);
        append_bytes(&mut message, value_macs[i].as_slice());
        assert(message@ == snapshot_mac@ + joined(next));
        i += 1;
    }
    assert(value_macs@.subrange(0, n as int) == value_macs@);
    append_bytes(&mut message, to_be_bytes(version).as_slice());
    append_bytes(&mut message, name.as_bytes());
    Ok(mac_sha256(key, message.as_slice()))
}

/// The MAC of an index: the HMAC-SHA-256 of the index. The key has to
/// have 32 bytes.
pub fn generate_index_mac(index_bytes: &[u8], key: &[u8]) -> (mac: Result<Vec<u8>, MacError>)
    ensures
        match mac {
            Ok(m) => key@.len() == 32 && m@ == hmac_sha256(key@, index_bytes@),
            Err(e) => key@.len() != 32 && e == MacError::InvalidKeyLength(key@.len() as usize),
        },
{
    if key.len() != MAC_KEY_LEN {
        return Err(MacError::InvalidKeyLength(key.len()));
    }
    Ok(mac_sha256(key, index_bytes))
}

/// What is wrong with the length of a running hash that is about to be
/// updated.
pub fn check_base_hash(base: &[u8]) -> (r: Result<(), MacError>)
    ensures
        match r {
            Ok(_) => base@.len() == 128,
            Err(e) => base@.len() != 128 && e == MacError::InvalidHashLength(
                base@.len() as usize,
            ),
        },
{
    if base.len() != LT_HASH_LEN {
        return Err(MacError::InvalidHashLength(base.len()));
    }
    Ok(())
}

} // verus!
