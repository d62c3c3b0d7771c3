//! Small helpers around freshly made keys.

use crate::buffers::append_bytes;
use vstd::prelude::*;

verus! {

/// The largest registration id.
pub const MAX_REGISTRATION_ID: u32 = 0x3FFF;

/// The field tag of the public key in a serialized identity key pair.
pub const PUBLIC_KEY_TAG: u8 = 0x0A;

/// The field tag of the private key in a serialized identity key pair.
pub const PRIVATE_KEY_TAG: u8 = 0x12;

/// The registration id that two random bytes give: the 14 low bits of the
/// number that they write, low byte first.
pub open spec fn registration_id_of(low: u8, high: u8) -> u32 {
    ((high as nat * 256 + low as nat) % 16384) as u32
}

/// Makes a registration id of two random bytes.
pub fn registration_id_from_bytes(bytes: [u8; 2]) -> (id: u32)
    ensures
        id == registration_id_of(bytes[0], bytes[1]),
        id <= MAX_REGISTRATION_ID,
{
    let low: u32 = bytes[0] as u32;
    let high: u32 = bytes[1] as u32;
    let value: u32 = high * 256 + low;
    let id: u32 = value & 0x3FFF;
    assert(value & 0x3FFF == value % 16384) by (bit_vector);
    id
}

/// The length of a key as one byte: the low eight bits of the length.
pub open spec fn length_byte(len: nat) -> u8 {
    (len % 256) as u8
}

/// A serialized identity key pair: for each key its field tag, its length
/// as one byte, and the key; the public key first.
pub open spec fn serialized_identity_key_pair(pub_key: Seq<u8>, priv_key: Seq<u8>) -> Seq<u8> {
    seq![PUBLIC_KEY_TAG, length_byte(pub_key.len())] + pub_key + seq![
        PRIVATE_KEY_TAG,
        length_byte(priv_key.len()),
    ] + priv_key
}

fn low_byte(len: usize) -> (b: u8)
    ensures
        b == length_byte(len as nat),
{
    (len % 256) as u8
}

/// Serializes an identity key pair.
pub fn _serialize_identity_key_pair(pub_key: &[u8], priv_key: &[u8]) -> (buffer: Vec<u8>)
    ensures
        buffer@ == serialized_identity_key_pair(pub_key@, priv_key@),
{
    let mut buffer: Vec<u8> = Vec::new();
    buffer.push(PUBLIC_KEY_TAG);
    buffer.push(low_byte(pub_key.len()));
    assert(buffer@ == seq![PUBLIC_KEY_TAG, length_byte(pub_key@.len())]);
    append_bytes(&mut buffer, pub_key);
    let ghost head = buffer@;
    buffer.push(PRIVATE_KEY_TAG);
    buffer.push(low_byte(priv_key.len()));
    assert(buffer@ == head + seq![PRIVATE_KEY_TAG, length_byte(priv_key@.len())]);
    append_bytes(&mut buffer, priv_key);
    buffer
}

} // verus!
