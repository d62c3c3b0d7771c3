//! Curve public keys in their serialized, type-prefixed form.

use crate::buffers::copy_slice;
use crate::errors::StoreError;
use crate::text::optional_bytes;
use vstd::prelude::*;
use wacore_libsignal::protocol as engine;

verus! {

/// The type marker that precedes a serialized curve public key.
pub const KEY_TYPE_DJB: u8 = 0x05;

/// The canonical form of a host-supplied public key.
///
/// A 33-byte key that already starts with the type marker is itself; a
/// 32-byte key gets the marker in front; every other input is itself, so
/// that a malformed length reaches the key parser unchanged.
pub open spec fn normalized_key(bytes: Seq<u8>) -> Seq<u8> {
    if bytes.len() == 33 && bytes[0] == KEY_TYPE_DJB {
        bytes
    } else if bytes.len() == 32 {
        seq![KEY_TYPE_DJB] + bytes
    } else {
        bytes
    }
}

/// Brings a host-supplied public key to its canonical, type-prefixed form.
pub fn ensure_curve_key_with_prefix(bytes: Vec<u8>) -> (out: Vec<u8>)
    ensures
        out@ == normalized_key(bytes@),
        bytes@.len() != 32 ==> out@ == bytes@,
        bytes@.len() == 32 ==> out@.len() == 33 && out@[0] == KEY_TYPE_DJB && out@.subrange(1, 33)
            == bytes@,
{
    if bytes.len() == 33 && bytes[0] == KEY_TYPE_DJB {
        return bytes;
    }
    if bytes.len() == 32 {
        let mut prefixed: Vec<u8> = Vec::with_capacity(33);
        prefixed.push(KEY_TYPE_DJB);
        let mut i: usize = 0;
        while i < 32
            invariant
                bytes@.len() == 32,
                i <= 32,
                prefixed@ == seq![KEY_TYPE_DJB] + bytes@.subrange(0, i as int),
            decreases 32 - i,
        {
            prefixed.push(bytes[i]);
            i += 1;
        }
        assert(bytes@.subrange(0, 32) == bytes@);
        assert(prefixed@.subrange(1, 33) == bytes@);
        return prefixed;
    }
    bytes
}

/// Normalizing a key of 32 or 33 bytes a second time changes nothing.
pub proof fn normalization_is_idempotent(key: Seq<u8>)
    requires
        key.len() == 32 || key.len() == 33,
    ensures
        normalized_key(normalized_key(key)) == normalized_key(key),
{
    if key.len() == 32 {
        let once = normalized_key(key);
        assert(once.len() == 33);
        assert(once[0] == KEY_TYPE_DJB);
    }
}

/// A key whose length is neither 32 nor 33 bytes is left as it is.
pub proof fn other_lengths_pass_through(key: Seq<u8>)
    requires
        key.len() != 32,
        key.len() != 33,
    ensures
        normalized_key(key) == key,
{
}

/// A public key in the form in which it goes into a key bundle: 33 bytes
/// are taken as they are; anything else gets the type marker in front of
/// its first 32 bytes, or of all of them where there are fewer.
pub open spec fn signal_pub_key(pub_key: Seq<u8>) -> Seq<u8> {
    if pub_key.len() == 33 {
        pub_key
    } else if pub_key.len() <= 32 {
        seq![KEY_TYPE_DJB] + pub_key
    } else {
        seq![KEY_TYPE_DJB] + pub_key.subrange(0, 32)
    }
}

/// Puts a public key into the form in which it goes into a key bundle.
pub fn generate_signal_pub_key(pub_key: &[u8]) -> (out: Vec<u8>)
    ensures
        out@ == signal_pub_key(pub_key@),
        out@.len() <= 33,
{
    let n: usize = pub_key.len();
    let len: usize = if n == 33 {
        33
    } else if n < 32 {
        n
    } else {
        32
    };
    let mut out: Vec<u8> = Vec::with_capacity(33);
    if n != 33 {
        out.push(KEY_TYPE_DJB);
    }
    let ghost head = out@;
    let mut i: usize = 0;
    while i < len
        invariant
            len <= pub_key@.len(),
            i <= len,
            out@ == head + pub_key@.subrange(0, i as int),
        decreases len - i,
    {
        out.push(pub_key[i]);
        assert(out@ == head + pub_key@.subrange(0, i + 1));
        i += 1;
    }
    proof {
        if n == 33 {
            assert(pub_key@.subrange(0, 33) == pub_key@);
            assert(head + pub_key@ == pub_key@);
        } else if n <= 32 {
            assert(pub_key@.subrange(0, n as int) == pub_key@);
        }
    }
    out
}

/// Why key material was refused before any key was parsed.
#[derive(Debug, Clone, Copy, PartialEq, Eq, Structural)]
pub enum KeyInputError {
    /// The public key has neither 32 nor 33 bytes.
    InvalidPublicKey,
    /// The private key is empty.
    InvalidPrivateKeyType,
    /// The private key has another length than 32 bytes.
    IncorrectPrivateKeyLength,
    /// The signature has another length than 64 bytes.
    InvalidSignature,
    /// A public key of the given length is neither a raw key nor a
    /// serialized one.
    InvalidPublicKeyLength(usize),
}

/// Length of a signature.
pub const SIGNATURE_LEN: usize = 64;

/// What is wrong with the lengths of the keys for a key agreement: the
/// public key is looked at first.
pub open spec fn agreement_input_error(public_len: nat, private_len: nat) -> Option<KeyInputError> {
    if public_len != 32 && public_len != 33 {
        Some(KeyInputError::InvalidPublicKey)
    } else if private_len != 32 {
        Some(KeyInputError::IncorrectPrivateKeyLength)
    } else {
        None
    }
}

/// What is wrong with the length of the private key for a signature.
pub open spec fn signing_input_error(private_len: nat) -> Option<KeyInputError> {
    if private_len == 0 {
        Some(KeyInputError::InvalidPrivateKeyType)
    } else if private_len != 32 {
        Some(KeyInputError::IncorrectPrivateKeyLength)
    } else {
        None
    }
}

/// What is wrong with the lengths of a signature and a public key: the
/// signature is looked at first.
pub open spec fn verification_input_error(signature_len: nat, public_len: nat) -> Option<
    KeyInputError,
> {
    if signature_len != 64 {
        Some(KeyInputError::InvalidSignature)
    } else if public_len != 32 && public_len != 33 {
        Some(KeyInputError::InvalidPublicKey)
    } else {
        None
    }
}

/// Looks at the keys for a key agreement before they are parsed.
pub fn check_agreement_input(public_key: &[u8], private_key: &[u8]) -> (r: Result<
    (),
    KeyInputError,
>)
    ensures
        match agreement_input_error(public_key@.len(), private_key@.len()) {
            Some(e) => r == Err::<(), KeyInputError>(e),
            None => r.is_ok(),
        },
{
    if public_key.len() != 32 && public_key.len() != 33 {
        return Err(KeyInputError::InvalidPublicKey);
    }
    if private_key.len() != 32 {
        return Err(KeyInputError::IncorrectPrivateKeyLength);
    }
    Ok(())
}

/// Looks at the private key for a signature before it is parsed.
pub fn check_signing_input(private_key: &[u8]) -> (r: Result<(), KeyInputError>)
    ensures
        match signing_input_error(private_key@.len()) {
            Some(e) => r == Err::<(), KeyInputError>(e),
            None => r.is_ok(),
        },
{
    if private_key.len() == 0 {
        return Err(KeyInputError::InvalidPrivateKeyType);
    }
    if private_key.len() != 32 {
        return Err(KeyInputError::IncorrectPrivateKeyLength);
    }
    Ok(())
}

/// Looks at a signature and a public key before they are parsed.
pub fn check_verification_input(public_key: &[u8], signature: &[u8]) -> (r: Result<
    (),
    KeyInputError,
>)
    ensures
        match verification_input_error(signature@.len(), public_key@.len()) {
            Some(e) => r == Err::<(), KeyInputError>(e),
            None => r.is_ok(),
        },
{
    if signature.len() != SIGNATURE_LEN {
        return Err(KeyInputError::InvalidSignature);
    }
    if public_key.len() != 32 && public_key.len() != 33 {
        return Err(KeyInputError::InvalidPublicKey);
    }
    Ok(())
}

/// The serialized form of a public key that is about to be parsed: a
/// 33-byte key with the type marker is itself, a 32-byte key gets the
/// marker, and any other key is refused with its length.
pub open spec fn prefixed_public_key(bytes: Seq<u8>) -> Result<Seq<u8>, KeyInputError> {
    if bytes.len() == 33 && bytes[0] == KEY_TYPE_DJB {
        Ok(bytes)
    } else if bytes.len() == 32 {
        Ok(seq![KEY_TYPE_DJB] + bytes)
    } else {
        Err(KeyInputError::InvalidPublicKeyLength(bytes.len() as usize))
    }
}

/// Brings a public key to its serialized form, or refuses it.
pub fn parse_public_key(bytes: &[u8]) -> (key: Result<Vec<u8>, KeyInputError>)
    ensures
        match prefixed_public_key(bytes@) {
            Ok(serialized) => key matches Ok(k) && k@ == serialized && k@ == normalized_key(
                bytes@,
            ),
            Err(e) => key == Err::<Vec<u8>, KeyInputError>(e),
        },
{
    let n: usize = bytes.len();
    if (n == 33 && bytes[0] == KEY_TYPE_DJB) || n == 32 {
        let copy = copy_slice(bytes);
        Ok(ensure_curve_key_with_prefix(copy))
    } else {
        Err(KeyInputError::InvalidPublicKeyLength(n))
    }
}

/// A private key as a scalar: the lowest three bits and the highest bit
/// cleared, the second-highest bit set.
pub open spec fn clamped(key: Seq<u8>) -> Seq<u8> {
    key.update(0, key[0] & 248u8).update(31, (key[31] & 127u8) | 64u8)
}

/// The public key that serialized bytes parse to, in serialized form: the
/// bytes need the type marker in front and 32 bytes after it; what follows
/// those is dropped.
pub open spec fn parsed_public_key(bytes: Seq<u8>) -> Result<Seq<u8>, StoreError> {
    if bytes.len() == 0 {
        Err(StoreError::NoKeyTypeIdentifier)
    } else if bytes[0] != KEY_TYPE_DJB {
        Err(StoreError::BadKeyType(bytes[0]))
    } else if bytes.len() < 33 {
        Err(StoreError::BadKeyLength(bytes.len() as usize))
    } else {
        Ok(bytes.subrange(0, 33))
    }
}

/// The private key that bytes parse to: exactly 32 bytes, clamped.
pub open spec fn parsed_private_key(bytes: Seq<u8>) -> Result<Seq<u8>, StoreError> {
    if bytes.len() != 32 {
        Err(StoreError::BadKeyLength(bytes.len() as usize))
    } else {
        Ok(clamped(bytes))
    }
}

/// Whether the engine parses both keys of a pair.
pub open spec fn keys_parse(public_key: Seq<u8>, private_key: Seq<u8>) -> bool {
    parsed_public_key(public_key).is_ok() && parsed_private_key(private_key).is_ok()
}

/// The secret that a public and a private key agree on; `None` where the
/// engine does not parse one of them.
pub uninterp spec fn curve_agreement(public_key: Seq<u8>, private_key: Seq<u8>) -> Option<Seq<u8>>;

/// Whether a signature is the public key's signature of a message; false
/// where the engine does not parse the key.
pub uninterp spec fn signature_verifies(
    public_key: Seq<u8>,
    message: Seq<u8>,
    signature: Seq<u8>,
) -> bool;

/// Computes a key agreement: `PrivateKey::deserialize`,
/// `PublicKey::deserialize` and `PrivateKey::calculate_agreement` of
/// `wacore_libsignal`. There is a secret exactly where the engine parses
/// both keys, and it is a function of the two keys.
#[verifier::external_body]
fn agree(public_key: &[u8], private_key: &[u8]) -> (secret: Option<Vec<u8>>)
    ensures
        optional_bytes(secret) == curve_agreement(public_key@, private_key@),
        secret.is_some() == keys_parse(public_key@, private_key@),
{
    let private = engine::PrivateKey::deserialize(private_key).ok()?;
    let public = engine::PublicKey::deserialize(public_key).ok()?;
    private.calculate_agreement(&public).ok().map(|secret| secret.into_vec())
}

/// Verifies a signature: `PublicKey::deserialize` and
/// `PublicKey::verify_signature_for_multipart_message` of `wacore_libsignal`,
/// on the message as its one part. The verdict is a function of the key,
/// the message and the signature.
#[verifier::external_body]
fn verify(public_key: &[u8], message: &[u8], signature: &[u8]) -> (valid: bool)
    ensures
        valid == signature_verifies(public_key@, message@, signature@),
{
    match engine::PublicKey::deserialize(public_key) {
        Ok(key) => key.verify_signature_for_multipart_message(&[message], signature),
        Err(_) => false,
    }
}

/// The compressed Edwards point that is the base point multiplied by the
/// scalar that 32 bytes write, low byte first.
pub uninterp spec fn basepoint_multiple(scalar_bytes: Seq<u8>) -> Seq<u8>;

/// Multiplies the Ed25519 base point by a scalar:
/// `curve25519_dalek::Scalar::from_bytes_mod_order`, the product with
/// `ED25519_BASEPOINT_TABLE`, compressed. The result is a function of the
/// scalar's bytes.
#[verifier::external_body]
fn multiply_basepoint(scalar_bytes: [u8; 32]) -> (point: [u8; 32])
    ensures
        point@ == basepoint_multiple(scalar_bytes@),
{
    let scalar = curve25519_dalek::Scalar::from_bytes_mod_order(scalar_bytes);
    (&scalar * curve25519_dalek::constants::ED25519_BASEPOINT_TABLE).compress().to_bytes()
}

/// Derives the signing public key of a private key: the private key is
/// clamped, and the base point multiplied by it.
pub fn derive_signing_public_key(private_key_bytes: &[u8; 32]) -> (public_key: [u8; 32])
    ensures
        public_key@ == basepoint_multiple(clamped(private_key_bytes@)),
{
    let mut clamped_bytes: [u8; 32] = *private_key_bytes;
    let first: u8 = clamped_bytes[0] & 248;
    clamped_bytes[0] = first;
    let last: u8 = (clamped_bytes[31] & 127) | 64;
    clamped_bytes[31] = last;
    assert(clamped_bytes@ == clamped(private_key_bytes@));
    multiply_basepoint(clamped_bytes)
}

/// The public key of a private key, with the type marker in front. A
/// private key of another length than 32 bytes is refused.
pub fn get_public_from_private_key(private_key_bytes: &[u8]) -> (key: Result<Vec<u8>, KeyInputError>)
    ensures
        match key {
            Ok(k) => private_key_bytes@.len() == 32 && k@ == seq![KEY_TYPE_DJB]
                + basepoint_multiple(clamped(private_key_bytes@)),
            Err(e) => private_key_bytes@.len() != 32 && e
                == KeyInputError::IncorrectPrivateKeyLength,
        },
{
    if private_key_bytes.len() != 32 {
        return Err(KeyInputError::IncorrectPrivateKeyLength);
    }
    let mut private_key_array: [u8; 32] = [0u8; 32];
    let mut i: usize = 0;
    while i < 32
        invariant
            i <= 32,
            private_key_bytes@.len() == 32,
            forall|j: int| 0 <= j < i ==> private_key_array@[j] == private_key_bytes@[j],
        decreases 32 - i,
    {
        private_key_array[i] = private_key_bytes[i];
        i += 1;
    }
    assert(private_key_array@ == private_key_bytes@);
    let pub_key_bytes = derive_signing_public_key(&private_key_array);
    Ok(with_key_prefix(&pub_key_bytes))
}

/// Calculates the secret that a public and a private key agree on. The
/// lengths are looked at first, the public key before the private one;
/// then the public key is brought to its serialized form.
pub fn calculate_agreement(public_key_bytes: &[u8], private_key_bytes: &[u8]) -> (secret: Result<
    Vec<u8>,
    KeyInputError,
>)
    ensures
        match agreement_input_error(public_key_bytes@.len(), private_key_bytes@.len()) {
            Some(e) => secret == Err::<Vec<u8>, KeyInputError>(e),
            None => match prefixed_public_key(public_key_bytes@) {
                Err(e) => secret == Err::<Vec<u8>, KeyInputError>(e),
                Ok(serialized) => secret matches Ok(s) && Some(s@) == curve_agreement(
                    serialized,
                    private_key_bytes@,
                ),
            },
        },
{
    match check_agreement_input(public_key_bytes, private_key_bytes) {
        Err(e) => {
            return Err(e);
        },
        Ok(_) => {},
    }
    let serialized = match parse_public_key(public_key_bytes) {
        Ok(k) => k,
        Err(e) => {
            return Err(e);
        },
    };
    assert(keys_parse(serialized@, private_key_bytes@));
    match agree(serialized.as_slice(), private_key_bytes) {
        Some(secret) => Ok(secret),
        None => Err(KeyInputError::InvalidPublicKey),
    }
}

/// Verifies a signature of a message. The lengths are looked at first,
/// the signature before the public key; then the public key is brought to
/// its serialized form.
pub fn verify_signature(public_key_bytes: &[u8], message: &[u8], signature: &[u8]) -> (valid:
    Result<bool, KeyInputError>)
    ensures
        match verification_input_error(signature@.len(), public_key_bytes@.len()) {
            Some(e) => valid == Err::<bool, KeyInputError>(e),
            None => match prefixed_public_key(public_key_bytes@) {
                Err(e) => valid == Err::<bool, KeyInputError>(e),
                Ok(serialized) => valid == Ok::<bool, KeyInputError>(
                    signature_verifies(serialized, message@, signature@),
                ),
            },
        },
{
    match check_verification_input(public_key_bytes, signature) {
        Err(e) => {
            return Err(e);
        },
        Ok(_) => {},
    }
    match parse_public_key(public_key_bytes) {
        Ok(serialized) => Ok(verify(serialized.as_slice(), message, signature)),
        Err(e) => Err(e),
    }
}

/// A raw 32-byte public key with the type marker in front.
pub fn with_key_prefix(raw: &[u8; 32]) -> (out: Vec<u8>)
    ensures
        out@ == seq![KEY_TYPE_DJB] + raw@,
        out@.len() == 33,
{
    let mut out: Vec<u8> = Vec::with_capacity(33);
    out.push(KEY_TYPE_DJB);
    let mut i: usize = 0;
    while i < 32
        invariant
            i <= 32,
            out@ == seq![KEY_TYPE_DJB] + raw@.subrange(0, i as int),
        decreases 32 - i,
    {
        out.push(raw[i]);
        assert(out@ == seq![KEY_TYPE_DJB] + raw@.subrange(0, i + 1));
        i += 1;
    }
    assert(raw@.subrange(0, 32) == raw@);
    out
}

} // verus!
