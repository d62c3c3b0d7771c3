//! What can go wrong between the host store and the protocol engine.

use vstd::prelude::*;

verus! {

/// The store operation that could not be completed.
#[derive(Debug, Clone, Copy, PartialEq, Eq, Structural)]
pub enum Context {
    Migrate,
    MigrateSenderKey,
    LoadSession,
    StoreSession,
    GetIdentityKeyPair,
    GetLocalRegistrationId,
    IsTrustedIdentity,
    SaveIdentity,
    LoadPreKey,
    RemovePreKey,
    LoadSignedPreKey,
    LoadSenderKey,
    StoreSenderKey,
    InMemorySignalStore,
}

/// The part of a legacy value that is missing or has the wrong shape.
#[derive(Debug, Clone, Copy, PartialEq, Eq, Structural)]
pub enum LegacyField {
    Sessions,
    CurrentRatchet,
    EphemeralKeyPair,
    IndexInfo,
    Chains,
    ChainKey,
    MessageKeys,
    MessageKeyIndex,
    SenderChainKey,
    SenderSigningKey,
}

/// Why a host answer could not be used.
#[derive(Debug, Clone, PartialEq, Eq)]
pub enum Reason {
    /// The host answered `null` or `undefined` where a value is needed.
    HostReturnedNull,
    /// The host answered something else than a number.
    NotANumber,
    /// The answer holds no public key, or no private key.
    MissingKeyBytes,
    /// The answer holds no signature.
    MissingSignature,
    /// The answer could not be read at all; the text says why.
    Malformed(String),
    /// A legacy value was recognized, but is incomplete.
    InvalidLegacyFormat(LegacyField),
    /// The answer belongs to another kind of call.
    UnexpectedReply,
    /// The store was asked for an identity that it was never given.
    IdentityKeyPairNotSet,
    /// The store was asked for a registration id that it was never given.
    RegistrationIdNotSet,
    /// The store holds no pre-key of this id.
    PreKeyNotFound(u32),
    /// The store holds no signed pre-key of this id.
    SignedPreKeyNotFound(u32),
}

/// Canonical bytes that do not decode.
#[derive(Debug, Clone, Copy, PartialEq, Eq, Structural)]
pub enum CodecError {
    /// The bytes are no session record.
    SessionRecord,
    /// The bytes are no sender-key record.
    SenderKeyRecord,
}

/// A value that is no record in any shape that is understood.
#[derive(Debug, Clone, Copy, PartialEq, Eq, Structural)]
pub enum RecordError {
    /// The value is neither bytes, nor a list of numbers, nor a serialized
    /// buffer, nor a legacy wrapper.
    InvalidInputType,
}

/// An error of the storage adapter.
#[derive(Debug, Clone, PartialEq, Eq)]
pub enum StoreError {
    /// A required part of the host's answer is absent.
    InvalidState(Context, Reason),
    /// The host knows no pre-key of the requested id.
    InvalidPreKeyId,
    /// The host knows no signed pre-key of the requested id.
    InvalidSignedPreKeyId,
    /// The host call itself failed; the text is the host's.
    FfiBindingError(String),
    /// A public key is empty.
    NoKeyTypeIdentifier,
    /// A public key starts with another byte than the type marker.
    BadKeyType(u8),
    /// A key has the wrong length.
    BadKeyLength(usize),
    /// Canonical bytes failed to decode.
    Codec(CodecError),
}

impl StoreError {
    /// Whether the error says that a legacy value was incomplete: the one
    /// kind of error that a caller treats as "nothing stored".
    pub open spec fn is_legacy_format(self) -> bool {
        self matches StoreError::InvalidState(_, Reason::InvalidLegacyFormat(_))
    }

    /// Whether the error says that a legacy value was incomplete.
    pub fn is_invalid_legacy_format(&self) -> (r: bool)
        ensures
            r == self.is_legacy_format(),
    {
        match self {
            StoreError::InvalidState(_, Reason::InvalidLegacyFormat(_)) => true,
            _ => false,
        }
    }
}

} // verus!
