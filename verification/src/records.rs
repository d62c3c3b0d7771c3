//! The canonical record structures, and their encoding into the binary
//! record format.
//!
//! The structures hold what a session or a set of sender keys consists of,
//! as plain values.

use crate::text::optional_bytes;
use prost::Message;
use waproto::whatsapp::sender_key_state_structure as wire;
use vstd::prelude::*;

verus! {

/// A message key that was derived ahead of its message.
#[derive(Debug, Clone, PartialEq, Eq)]
pub struct SessionMessageKey {
    pub index: u32,
    pub cipher_key: Vec<u8>,
    pub mac_key: Vec<u8>,
    pub iv: Vec<u8>,
}

/// The position and secret of a ratchet chain.
#[derive(Debug, Clone, PartialEq, Eq)]
pub struct SessionChainKey {
    pub index: u32,
    pub key: Vec<u8>,
}

/// A sender or receiver ratchet chain. A receiver chain holds no private
/// ratchet key.
#[derive(Debug, Clone, PartialEq, Eq)]
pub struct SessionChain {
    pub sender_ratchet_key: Vec<u8>,
    pub sender_ratchet_key_private: Option<Vec<u8>>,
    pub chain_key: SessionChainKey,
    pub message_keys: Vec<SessionMessageKey>,
}

/// The state of one session with a peer.
#[derive(Debug, Clone, PartialEq, Eq)]
pub struct SessionState {
    pub session_version: u32,
    pub local_identity_public: Vec<u8>,
    pub remote_identity_public: Vec<u8>,
    pub root_key: Vec<u8>,
    pub previous_counter: u32,
    pub sender_chain: Option<SessionChain>,
    pub receiver_chains: Vec<SessionChain>,
    pub remote_registration_id: u32,
    pub local_registration_id: u32,
    pub alice_base_key: Vec<u8>,
}

/// What a `SessionMessageKey` holds.
pub struct SessionMessageKeyView {
    pub index: u32,
    pub cipher_key: Seq<u8>,
    pub mac_key: Seq<u8>,
    pub iv: Seq<u8>,
}

/// What a `SessionChainKey` holds.
pub struct SessionChainKeyView {
    pub index: u32,
    pub key: Seq<u8>,
}

/// What a `SessionChain` holds.
pub struct SessionChainView {
    pub sender_ratchet_key: Seq<u8>,
    pub sender_ratchet_key_private: Option<Seq<u8>>,
    pub chain_key: SessionChainKeyView,
    pub message_keys: Seq<SessionMessageKeyView>,
}

/// What a `SessionState` holds.
pub struct SessionStateView {
    pub session_version: u32,
    pub local_identity_public: Seq<u8>,
    pub remote_identity_public: Seq<u8>,
    pub root_key: Seq<u8>,
    pub previous_counter: u32,
    pub sender_chain: Option<SessionChainView>,
    pub receiver_chains: Seq<SessionChainView>,
    pub remote_registration_id: u32,
    pub local_registration_id: u32,
    pub alice_base_key: Seq<u8>,
}

impl View for SessionMessageKey {
    type V = SessionMessageKeyView;

    open spec fn view(&self) -> SessionMessageKeyView {
        SessionMessageKeyView {
            index: self.index,
            cipher_key: self.cipher_key@,
            mac_key: self.mac_key@,
            iv: self.iv@,
        }
    }
}

impl View for SessionChainKey {
    type V = SessionChainKeyView;

    open spec fn view(&self) -> SessionChainKeyView {
        SessionChainKeyView { index: self.index, key: self.key@ }
    }
}

impl View for SessionChain {
    type V = SessionChainView;

    open spec fn view(&self) -> SessionChainView {
        SessionChainView {
            sender_ratchet_key: self.sender_ratchet_key@,
            sender_ratchet_key_private: optional_bytes(self.sender_ratchet_key_private),
            chain_key: self.chain_key@,
            message_keys: self.message_keys@.map_values(|k: SessionMessageKey| k@),
        }
    }
}

impl View for SessionState {
    type V = SessionStateView;

    open spec fn view(&self) -> SessionStateView {
        SessionStateView {
            session_version: self.session_version,
            local_identity_public: self.local_identity_public@,
            remote_identity_public: self.remote_identity_public@,
            root_key: self.root_key@,
            previous_counter: self.previous_counter,
            sender_chain: match self.sender_chain {
                Some(c) => Some(c@),
                None => None,
            },
            receiver_chains: self.receiver_chains@.map_values(|c: SessionChain| c@),
            remote_registration_id: self.remote_registration_id,
            local_registration_id: self.local_registration_id,
            alice_base_key: self.alice_base_key@,
        }
    }
}

/// What the protocol engine finds in a session record.
#[derive(Debug, Clone, Copy, PartialEq, Eq, Structural)]
pub struct SessionSummary {
    /// Whether the record has a current session.
    pub has_current_session: bool,
    /// Whether the current session has a sender chain.
    pub has_usable_sender_chain: bool,
}

/// What the protocol engine finds in a sender-key record.
#[derive(Debug, Clone, Copy, PartialEq, Eq, Structural)]
pub struct SenderKeySummary {
    /// Whether the record holds a state.
    pub has_state: bool,
}

/// What the protocol engine finds in bytes that it decodes as a session
/// record; `None` where it does not decode them.
pub uninterp spec fn session_record_summary(bytes: Seq<u8>) -> Option<SessionSummary>;

/// What the protocol engine finds in bytes that it decodes as a sender-key
/// record; `None` where it does not decode them.
pub uninterp spec fn sender_key_record_summary(bytes: Seq<u8>) -> Option<SenderKeySummary>;

/// What the engine finds in the encoding of the record whose current
/// session is `state`: a current session, with a sender chain exactly
/// where `state` has one.
pub open spec fn summary_of_encoded(state: SessionStateView) -> SessionSummary {
    SessionSummary {
        has_current_session: true,
        has_usable_sender_chain: state.sender_chain.is_some(),
    }
}

/// What the engine finds in the encoding of a sender-key record of `n`
/// states: a state exactly where there is one.
pub open spec fn summary_of_encoded_states(n: nat) -> SenderKeySummary {
    SenderKeySummary { has_state: n > 0 }
}

#[verifier::external_type_specification]
#[verifier::external_body]
pub struct ExWireChain(waproto::whatsapp::session_structure::Chain);

/// What a chain of the record format holds, where it holds every field
/// but, at most, the private ratchet key; `None` for a chain that lacks
/// another field.
pub uninterp spec fn wire_chain_contents(chain: waproto::whatsapp::session_structure::Chain) -> Option<SessionChainView>;

/// The canonical encoding of the record whose current session is `state`
/// and which has no previous sessions.
pub uninterp spec fn session_record_encoding(state: SessionStateView) -> Seq<u8>;

/// Builds the chain of the record format that holds what `chain` holds:
/// a struct literal of `waproto::whatsapp::session_structure::Chain`, with
/// every field present but the private ratchet key, which is present where
/// `chain` has one.
#[verifier::external_body]
fn to_wire_chain(chain: &SessionChain) -> (wire: waproto::whatsapp::session_structure::Chain)
    ensures
        wire_chain_contents(wire) == Some(chain@),
{
    waproto::whatsapp::session_structure::Chain {
        sender_ratchet_key: Some(chain.sender_ratchet_key.clone()),
        sender_ratchet_key_private: chain.sender_ratchet_key_private.clone(),
        chain_key: Some(waproto::whatsapp::session_structure::chain::ChainKey {
            index: Some(chain.chain_key.index),
            key: Some(chain.chain_key.key.clone()),
        }),
        message_keys: chain.message_keys.iter().map(|k| waproto::whatsapp::session_structure::chain::MessageKey {
            index: Some(k.index),
            cipher_key: Some(k.cipher_key.clone()),
            mac_key: Some(k.mac_key.clone()),
            iv: Some(k.iv.clone()),
        }).collect(),
    }
}

/// Encodes the record whose current session is `state` and which has no
/// previous sessions: `prost::Message::encode_to_vec` on a
/// `waproto::whatsapp::RecordStructure`. The chains are handed over in the
/// form of the record format; every other field is taken from `state`. The
/// engine's `SessionRecord::deserialize` decodes what comes out, and finds
/// the current session in it, with its sender chain where it has one.
#[verifier::external_body]
fn encode_current_session(
    state: &SessionState,
    sender_chain: Option<waproto::whatsapp::session_structure::Chain>,
    receiver_chains: Vec<waproto::whatsapp::session_structure::Chain>,
) -> (bytes: Vec<u8>)
    requires
        match sender_chain {
            Some(c) => wire_chain_contents(c).is_some() && state@.sender_chain
                == wire_chain_contents(c),
            None => state@.sender_chain.is_none(),
        },
        receiver_chains@.map_values(
            |c: waproto::whatsapp::session_structure::Chain| wire_chain_contents(c),
        ) == state@.receiver_chains.map_values(|c: SessionChainView| Some(c)),
    ensures
        bytes@ == session_record_encoding(state@),
        session_record_summary(bytes@) == Some(summary_of_encoded(state@)),
{
    let current = waproto::whatsapp::SessionStructure {
        session_version: Some(state.session_version),
        local_identity_public: Some(state.local_identity_public.clone()),
        remote_identity_public: Some(state.remote_identity_public.clone()),
        root_key: Some(state.root_key.clone()),
        previous_counter: Some(state.previous_counter),
        sender_chain, receiver_chains,
        remote_registration_id: Some(state.remote_registration_id),
        local_registration_id: Some(state.local_registration_id),
        alice_base_key: Some(state.alice_base_key.clone()),
        ..Default::default()
    };
    waproto::whatsapp::RecordStructure { current_session: Some(current), previous_sessions: Vec::new() }.encode_to_vec()
}

/// Encodes a session state as the canonical record that has it as its
/// current session. The protocol engine decodes the bytes, and finds that
/// session in them.
pub fn encode_session_state(state: &SessionState) -> (bytes: Vec<u8>)
    ensures
        bytes@ == session_record_encoding(state@),
        session_record_summary(bytes@) == Some(summary_of_encoded(state@)),
{
    let sender = match &state.sender_chain {
        Some(c) => Some(to_wire_chain(c)),
        None => None,
    };
    let n: usize = state.receiver_chains.len();
    let mut receivers: Vec<waproto::whatsapp::session_structure::Chain> = Vec::with_capacity(n);
    let mut i: usize = 0;
    while i < n
        invariant
            n == state.receiver_chains@.len(),
            i <= n,
            receivers@.len() == i,
            forall|j: int|
                0 <= j < i ==> wire_chain_contents(#[trigger] receivers@[j]) == Some(
                    state.receiver_chains@[j]@,
                ),
        decreases n - i,
    {
        receivers.push(to_wire_chain(&state.receiver_chains[i]));
        i += 1;
    }
    assert(receivers@.map_values(
        |c: waproto::whatsapp::session_structure::Chain| wire_chain_contents(c),
    ) =~= state@.receiver_chains.map_values(|c: SessionChainView| Some(c)));
    encode_current_session(state, sender, receivers)
}

/// The position and seed of a sender-key chain.
#[derive(Debug, Clone, PartialEq, Eq)]
pub struct SenderChainKey {
    pub iteration: u32,
    pub seed: Vec<u8>,
}

/// The signing key of a sender-key state. The private half is there only
/// for the member who created the key.
#[derive(Debug, Clone, PartialEq, Eq)]
pub struct SenderSigningKey {
    pub public: Vec<u8>,
    pub private: Option<Vec<u8>>,
}

/// A sender message key that was derived ahead of its message.
#[derive(Debug, Clone, PartialEq, Eq)]
pub struct SenderMessageKey {
    pub iteration: u32,
    pub seed: Vec<u8>,
}

/// One state of a sender key.
#[derive(Debug, Clone, PartialEq, Eq)]
pub struct SenderKeyState {
    pub sender_key_id: u32,
    pub sender_chain_key: SenderChainKey,
    pub sender_signing_key: SenderSigningKey,
    pub sender_message_keys: Vec<SenderMessageKey>,
}

/// What a `SenderChainKey` or a `SenderMessageKey` holds.
pub struct SeedView {
    pub iteration: u32,
    pub seed: Seq<u8>,
}

/// What a `SenderSigningKey` holds.
pub struct SenderSigningKeyView {
    pub public: Seq<u8>,
    pub private: Option<Seq<u8>>,
}

/// What a `SenderKeyState` holds.
pub struct SenderKeyStateView {
    pub sender_key_id: u32,
    pub sender_chain_key: SeedView,
    pub sender_signing_key: SenderSigningKeyView,
    pub sender_message_keys: Seq<SeedView>,
}

impl View for SenderChainKey {
    type V = SeedView;

    open spec fn view(&self) -> SeedView {
        SeedView { iteration: self.iteration, seed: self.seed@ }
    }
}

impl View for SenderMessageKey {
    type V = SeedView;

    open spec fn view(&self) -> SeedView {
        SeedView { iteration: self.iteration, seed: self.seed@ }
    }
}

impl View for SenderSigningKey {
    type V = SenderSigningKeyView;

    open spec fn view(&self) -> SenderSigningKeyView {
        SenderSigningKeyView { public: self.public@, private: optional_bytes(self.private) }
    }
}

impl View for SenderKeyState {
    type V = SenderKeyStateView;

    open spec fn view(&self) -> SenderKeyStateView {
        SenderKeyStateView {
            sender_key_id: self.sender_key_id,
            sender_chain_key: self.sender_chain_key@,
            sender_signing_key: self.sender_signing_key@,
            sender_message_keys: self.sender_message_keys@.map_values(|k: SenderMessageKey| k@),
        }
    }
}

/// What a list of sender-key states holds.
pub open spec fn sender_key_states_view(states: Seq<SenderKeyState>) -> Seq<SenderKeyStateView> {
    states.map_values(|s: SenderKeyState| s@)
}

/// The canonical encoding of the sender-key record that holds the given
/// states, in order.
pub uninterp spec fn sender_key_record_encoding(states: Seq<SenderKeyStateView>) -> Seq<u8>;

/// Encodes a sender-key record: `prost::Message::encode_to_vec` on a
/// `waproto::whatsapp::SenderKeyRecordStructure` that holds the given
/// states, field for field, in order. The engine's
/// `SenderKeyRecord::deserialize` decodes what comes out, and finds a state
/// in it where there is one.
#[verifier::external_body]
pub(crate) fn encode_sender_key_record(states: &Vec<SenderKeyState>) -> (bytes: Vec<u8>)
    ensures
        bytes@ == sender_key_record_encoding(sender_key_states_view(states@)),
        sender_key_record_summary(bytes@) == Some(summary_of_encoded_states(states@.len())),
{
    let sender_key_states = states.iter().map(|s| waproto::whatsapp::SenderKeyStateStructure {
        sender_key_id: Some(s.sender_key_id),
        sender_chain_key: Some(wire::SenderChainKey { iteration: Some(s.sender_chain_key.iteration), seed: Some(s.sender_chain_key.seed.clone()) }),
        sender_signing_key: Some(wire::SenderSigningKey { public: Some(s.sender_signing_key.public.clone()), private: s.sender_signing_key.private.clone() }),
        sender_message_keys: s.sender_message_keys.iter().map(|k| wire::SenderMessageKey { iteration: Some(k.iteration), seed: Some(k.seed.clone()) }).collect(),
    }).collect();
    waproto::whatsapp::SenderKeyRecordStructure { sender_key_states }.encode_to_vec()
}

/// Decodes bytes with `wacore_libsignal::protocol::SessionRecord::deserialize`
/// and reads off the record's `session_state` and `has_usable_sender_chain`
/// (an error there counts as no). The result is a function of the bytes.
#[verifier::external_body]
pub(crate) fn inspect_session(bytes: &[u8]) -> (summary: Option<SessionSummary>)
    ensures
        summary == session_record_summary(bytes@),
{
    wacore_libsignal::protocol::SessionRecord::deserialize(bytes).ok().map(|r| SessionSummary {
        has_current_session: r.session_state().is_some(),
        has_usable_sender_chain: r.has_usable_sender_chain().unwrap_or(false),
    })
}

/// Decodes bytes with
/// `wacore_libsignal::protocol::SenderKeyRecord::deserialize` and reads off
/// whether the record's `sender_key_state` finds a state. The result is a
/// function of the bytes.
#[verifier::external_body]
pub(crate) fn inspect_sender_key(bytes: &[u8]) -> (summary: Option<SenderKeySummary>)
    ensures
        summary == sender_key_record_summary(bytes@),
{
    wacore_libsignal::protocol::SenderKeyRecord::deserialize(bytes).ok().map(|r| SenderKeySummary {
        has_state: r.sender_key_state().is_ok(),
    })
}

} // verus!
