//! From a legacy session to the canonical session state.
//!
//! The legacy format stores one combined key per skipped message, where the
//! canonical format wants a cipher key, a MAC key and an IV. The stored key
//! becomes the cipher key; the MAC key and the IV are filled with zeros of
//! the right length, and are not guessed.

use crate::errors::{Context, LegacyField, Reason, StoreError};
use crate::buffers::copy_bytes;
use crate::host_value::HostValue;
use crate::legacy_session::{
    parsed_session, read_legacy_session, select_session, selected_session, LegacyChain,
    LegacyChainView, LegacyMessageKey, LegacyMessageKeyView, LegacySession, LegacySessionView,
};
use crate::records::{
    encode_session_state, session_record_encoding, session_record_summary, SessionChain, SessionChainKey,
    SessionChainKeyView, SessionChainView, SessionMessageKey, SessionMessageKeyView, SessionState,
    SessionStateView,
};
use crate::text::{base64_decode, base64_standard_decoding};
use vstd::prelude::*;

verus! {

/// The session version that a migrated session carries.
pub const MIGRATED_SESSION_VERSION: u32 = 3;

/// Length of the placeholder MAC key of a migrated message key.
pub const PLACEHOLDER_MAC_KEY_LEN: usize = 32;

/// Length of the placeholder IV of a migrated message key.
pub const PLACEHOLDER_IV_LEN: usize = 16;

/// The chain type of the sender chain in the legacy format.
pub const CHAIN_TYPE_SENDING: u32 = 1;

/// The chain type of a receiver chain in the legacy format.
pub const CHAIN_TYPE_RECEIVING: u32 = 2;

/// The bytes that a base64 text stands for; no bytes where the text is no
/// base64.
pub open spec fn decoded_or_empty(text: Seq<char>) -> Seq<u8> {
    match base64_standard_decoding(text) {
        Some(bytes) => bytes,
        None => Seq::empty(),
    }
}

/// `n` zero bytes.
pub open spec fn zeros(n: nat) -> Seq<u8> {
    Seq::new(n, |i: int| 0u8)
}

/// The canonical message key for a stored index and cipher key: the MAC
/// key and the IV are zeros.
pub open spec fn placeholder_key(index: u32, cipher_key: Seq<u8>) -> SessionMessageKeyView {
    SessionMessageKeyView { index, cipher_key, mac_key: zeros(32), iv: zeros(16) }
}

/// The canonical message key of a legacy one.
pub open spec fn migrated_message_key(key: LegacyMessageKeyView) -> SessionMessageKeyView {
    placeholder_key(key.index, decoded_or_empty(key.key))
}

/// The canonical chain of a legacy chain, without its ratchet keys.
pub open spec fn migrated_chain(
    chain: LegacyChainView,
    ratchet_public: Seq<u8>,
    ratchet_private: Option<Seq<u8>>,
) -> SessionChainView {
    SessionChainView {
        sender_ratchet_key: ratchet_public,
        sender_ratchet_key_private: ratchet_private,
        chain_key: SessionChainKeyView {
            index: chain.counter,
            key: decoded_or_empty(chain.chain_key),
        },
        message_keys: chain.message_keys.map_values(
            |k: LegacyMessageKeyView| migrated_message_key(k),
        ),
    }
}

/// The sender chain of a legacy session: its last chain of type 1, under
/// the session's own ratchet key pair.
pub open spec fn migrated_sender_chain(
    chains: Seq<LegacyChainView>,
    ratchet_public: Seq<u8>,
    ratchet_private: Seq<u8>,
) -> Option<SessionChainView>
    decreases chains.len(),
{
    if chains.len() == 0 {
        None
    } else if chains.last().chain_type == CHAIN_TYPE_SENDING {
        Some(migrated_chain(chains.last(), ratchet_public, Some(ratchet_private)))
    } else {
        migrated_sender_chain(chains.drop_last(), ratchet_public, ratchet_private)
    }
}

/// The receiver chains of a legacy session: its chains of type 2, in
/// order, each under the ratchet key that it is stored by, and without a
/// private key.
pub open spec fn migrated_receiver_chains(chains: Seq<LegacyChainView>) -> Seq<SessionChainView>
    decreases chains.len(),
{
    if chains.len() == 0 {
        Seq::empty()
    } else {
        let rest = migrated_receiver_chains(chains.drop_last());
        if chains.last().chain_type == CHAIN_TYPE_RECEIVING {
            rest.push(
                migrated_chain(chains.last(), decoded_or_empty(chains.last().ratchet_key), None),
            )
        } else {
            rest
        }
    }
}

/// The canonical state of a legacy session, for a local identity and a
/// local registration id.
pub open spec fn migrated_session(
    legacy: LegacySessionView,
    local_identity_public: Seq<u8>,
    local_registration_id: u32,
) -> SessionStateView {
    SessionStateView {
        session_version: MIGRATED_SESSION_VERSION,
        local_identity_public,
        remote_identity_public: decoded_or_empty(legacy.remote_identity_key),
        root_key: decoded_or_empty(legacy.root_key),
        previous_counter: legacy.previous_counter,
        sender_chain: migrated_sender_chain(
            legacy.chains,
            decoded_or_empty(legacy.ratchet_public),
            decoded_or_empty(legacy.ratchet_private),
        ),
        receiver_chains: migrated_receiver_chains(legacy.chains),
        remote_registration_id: legacy.registration_id,
        local_registration_id,
        alice_base_key: decoded_or_empty(legacy.base_key),
    }
}

/// The bytes of a decoding, or no bytes where there is none.
pub fn bytes_or_empty(decoded: Option<Vec<u8>>) -> (bytes: Vec<u8>)
    ensures
        bytes@ == match decoded {
            Some(b) => b@,
            None => Seq::<u8>::empty(),
        },
{
    match decoded {
        Some(b) => b,
        None => Vec::new(),
    }
}

/// Decodes a base64 text; a text that is no base64 gives no bytes.
pub fn decode_or_empty(text: &String) -> (bytes: Vec<u8>)
    ensures
        bytes@ == decoded_or_empty(text@),
{
    bytes_or_empty(base64_decode(text.as_str()))
}

/// `n` zero bytes.
pub fn zero_bytes(n: usize) -> (bytes: Vec<u8>)
    ensures
        bytes@ == zeros(n as nat),
{
    let mut bytes: Vec<u8> = Vec::with_capacity(n);
    let mut i: usize = 0;
    while i < n
        invariant
            i <= n,
            bytes@ == zeros(i as nat),
        decreases n - i,
    {
        bytes.push(0u8);
        assert(bytes@ == zeros((i + 1) as nat));
        i += 1;
    }
    bytes
}

/// The canonical message key for a stored index and cipher key, with
/// zeros in place of the MAC key and the IV.
pub fn placeholder_message_key(index: u32, cipher_key: Vec<u8>) -> (key: SessionMessageKey)
    ensures
        key@ == placeholder_key(index, cipher_key@),
        key.mac_key@.len() == 32,
        key.iv@.len() == 16,
{
    SessionMessageKey {
        index,
        cipher_key,
        mac_key: zero_bytes(PLACEHOLDER_MAC_KEY_LEN),
        iv: zero_bytes(PLACEHOLDER_IV_LEN),
    }
}

/// Migrates the stored message keys of one chain.
pub fn migrate_message_keys(keys: &Vec<LegacyMessageKey>) -> (out: Vec<SessionMessageKey>)
    ensures
        out@.map_values(|k: SessionMessageKey| k@) == keys@.map_values(
            |k: LegacyMessageKey| k@,
        ).map_values(|k: LegacyMessageKeyView| migrated_message_key(k)),
{
    let n: usize = keys.len();
    let mut out: Vec<SessionMessageKey> = Vec::with_capacity(n);
    let mut i: usize = 0;
    while i < n
        invariant
            n == keys@.len(),
            i <= n,
            out@.len() == i,
            forall|j: int| 0 <= j < i ==> (#[trigger] out@[j])@ == migrated_message_key(keys@[j]@),
        decreases n - i,
    {
        out.push(placeholder_message_key(keys[i].index, decode_or_empty(&keys[i].key)));
        i += 1;
    }
    assert(out@.map_values(|k: SessionMessageKey| k@) =~= keys@.map_values(
        |k: LegacyMessageKey| k@,
    ).map_values(|k: LegacyMessageKeyView| migrated_message_key(k)));
    out
}

/// Migrates one legacy chain, under the given ratchet keys.
pub fn migrate_chain(
    chain: &LegacyChain,
    ratchet_public: Vec<u8>,
    ratchet_private: Option<Vec<u8>>,
) -> (out: SessionChain)
    ensures
        out@ == migrated_chain(
            chain@,
            ratchet_public@,
            crate::text::optional_bytes(ratchet_private),
        ),
{
    SessionChain {
        sender_ratchet_key: ratchet_public,
        sender_ratchet_key_private: ratchet_private,
        chain_key: SessionChainKey {
            index: chain.counter,
            key: decode_or_empty(&chain.chain_key),
        },
        message_keys: migrate_message_keys(&chain.message_keys),
    }
}

/// Builds the canonical session state of a legacy session.
///
/// The last chain of type 1 becomes the sender chain, under the session's
/// own ratchet key pair; the chains of type 2 become the receiver chains,
/// in order; chains of any other type are passed over.
pub fn session_from_legacy(
    legacy: &LegacySession,
    local_identity_public: Vec<u8>,
    local_registration_id: u32,
) -> (state: SessionState)
    ensures
        state@ == migrated_session(legacy@, local_identity_public@, local_registration_id),
{
    let ghost chains = legacy@.chains;
    let ghost public = decoded_or_empty(legacy@.ratchet_public);
    let ghost private = decoded_or_empty(legacy@.ratchet_private);
    let n: usize = legacy.chains.len();
    let mut sender_chain: Option<SessionChain> = None;
    let mut receiver_chains: Vec<SessionChain> = Vec::new();
    let mut i: usize = 0;
    assert(receiver_chains@.map_values(|c: SessionChain| c@) == Seq::<SessionChainView>::empty());
    while i < n
        invariant
            n == legacy.chains@.len(),
            i <= n,
            chains == legacy@.chains,
            chains.len() == n,
            public == decoded_or_empty(legacy@.ratchet_public),
            private == decoded_or_empty(legacy@.ratchet_private),
            match sender_chain {
                Some(c) => migrated_sender_chain(chains.subrange(0, i as int), public, private)
                    == Some(c@),
                None => migrated_sender_chain(chains.subrange(0, i as int), public, private)
                    .is_none(),
            },
            receiver_chains@.map_values(|c: SessionChain| c@) == migrated_receiver_chains(
                chains.subrange(0, i as int),
            ),
        decreases n - i,
    {
        let ghost before = receiver_chains@.map_values(|c: SessionChain| c@);
        let ghost next = chains.subrange(0, i + 1);
        assert(next.drop_last() == chains.subrange(0, i as int));
        assert(next.last() == legacy.chains@[i as int]@);
        let chain = &legacy.chains[i];
        if chain.chain_type == CHAIN_TYPE_SENDING {
            sender_chain = Some(
                migrate_chain(
                    chain,
                    decode_or_empty(&legacy.ratchet_public),
                    Some(decode_or_empty(&legacy.ratchet_private)),
                ),
            );
        } else if chain.chain_type == CHAIN_TYPE_RECEIVING {
            let migrated = migrate_chain(chain, decode_or_empty(&chain.ratchet_key), None);
            let ghost view = migrated@;
            receiver_chains.push(migrated);
            assert(receiver_chains@.map_values(|c: SessionChain| c@) == before.push(view));
        }
        i += 1;
    }
    assert(chains.subrange(0, n as int) == chains);
    SessionState {
        session_version: MIGRATED_SESSION_VERSION,
        local_identity_public,
        remote_identity_public: decode_or_empty(&legacy.remote_identity_key),
        root_key: decode_or_empty(&legacy.root_key),
        previous_counter: legacy.previous_counter,
        sender_chain,
        receiver_chains,
        remote_registration_id: legacy.registration_id,
        local_registration_id,
        alice_base_key: decode_or_empty(&legacy.base_key),
    }
}

/// A migrated session has a sender chain exactly if the legacy session
/// holds a chain of type 1.
pub proof fn sender_chain_iff_sending_chain(
    chains: Seq<LegacyChainView>,
    ratchet_public: Seq<u8>,
    ratchet_private: Seq<u8>,
)
    ensures
        migrated_sender_chain(chains, ratchet_public, ratchet_private).is_some() <==> exists|
            i: int,
        |
            0 <= i < chains.len() && (#[trigger] chains[i]).chain_type == CHAIN_TYPE_SENDING,
    decreases chains.len(),
{
    if chains.len() > 0 {
        if chains.last().chain_type == CHAIN_TYPE_SENDING {
            assert(chains[chains.len() - 1].chain_type == CHAIN_TYPE_SENDING);
        } else {
            sender_chain_iff_sending_chain(chains.drop_last(), ratchet_public, ratchet_private);
            if migrated_sender_chain(chains, ratchet_public, ratchet_private).is_some() {
                let i = choose|i: int|
                    0 <= i < chains.drop_last().len() && (#[trigger] chains.drop_last()[i]).chain_type
                        == CHAIN_TYPE_SENDING;
                assert(chains[i].chain_type == CHAIN_TYPE_SENDING);
            }
            if exists|i: int|
                0 <= i < chains.len() && (#[trigger] chains[i]).chain_type == CHAIN_TYPE_SENDING {
                let i = choose|i: int|
                    0 <= i < chains.len() && (#[trigger] chains[i]).chain_type
                        == CHAIN_TYPE_SENDING;
                assert(chains.drop_last()[i].chain_type == CHAIN_TYPE_SENDING);
            }
        }
    }
}

/// The canonical bytes that a legacy value migrates to, for a local
/// identity and a local registration id: the encoding of the record whose
/// current session is the migrated one. A value that stands for no session
/// migrates to nothing; a session object that lacks a required part is an
/// error.
pub open spec fn migrated_record(
    value: HostValue,
    local_identity_public: Seq<u8>,
    local_registration_id: u32,
) -> Result<Option<Seq<u8>>, LegacyField> {
    match selected_session(value) {
        Err(e) => Err(e),
        Ok(None) => Ok(None),
        Ok(Some(data)) => match parsed_session(data) {
            Err(e) => Err(e),
            Ok(legacy) => Ok(
                Some(
                    session_record_encoding(
                        migrated_session(legacy, local_identity_public, local_registration_id),
                    ),
                ),
            ),
        },
    }
}

/// The error that reports an incomplete legacy session.
pub open spec fn session_format_error(field: LegacyField) -> StoreError {
    StoreError::InvalidState(Context::Migrate, Reason::InvalidLegacyFormat(field))
}

/// Migrates a legacy session value into canonical bytes.
///
/// The result is a record with the migrated session as its current session
/// and no previous sessions, which the protocol engine decodes. A caller
/// that loads a session treats the error as "no session": the protocol
/// engine then negotiates a new one.
pub fn migrate_legacy_json(
    value: &HostValue,
    local_identity_public: &Vec<u8>,
    local_registration_id: u32,
) -> (out: Result<Option<Vec<u8>>, StoreError>)
    ensures
        match migrated_record(*value, local_identity_public@, local_registration_id) {
            Ok(Some(encoding)) => out matches Ok(Some(bytes)) && bytes@ == encoding,
            Ok(None) => out matches Ok(None),
            Err(field) => out matches Err(e) && e == session_format_error(field),
        },
        out matches Err(e) ==> e.is_legacy_format(),
        out matches Ok(Some(bytes)) ==> session_record_summary(bytes@) matches Some(summary)
            && summary.has_current_session,
{
    let data = match select_session(value) {
        Ok(Some(d)) => d,
        Ok(None) => {
            return Ok(None);
        },
        Err(field) => {
            return Err(
                StoreError::InvalidState(Context::Migrate, Reason::InvalidLegacyFormat(field)),
            );
        },
    };
    let legacy = match read_legacy_session(data) {
        Ok(l) => l,
        Err(field) => {
            return Err(
                StoreError::InvalidState(Context::Migrate, Reason::InvalidLegacyFormat(field)),
            );
        },
    };
    let state = session_from_legacy(
        &legacy,
        copy_bytes(local_identity_public),
        local_registration_id,
    );
    Ok(Some(encode_session_state(&state)))
}

/// Whether every message key of a chain has zeros in place of its MAC key
/// and its IV, in the lengths that the canonical format wants.
pub open spec fn has_placeholders(chain: SessionChainView) -> bool {
    forall|i: int|
        0 <= i < chain.message_keys.len() ==> {
            &&& (#[trigger] chain.message_keys[i]).mac_key == zeros(32)
            &&& chain.message_keys[i].iv == zeros(16)
        }
}

/// A migrated session makes up no key material: in its sender chain and
/// in every receiver chain, each message key has zeros for its MAC key and
/// its IV.
pub proof fn migrated_keys_are_placeholders(
    legacy: LegacySessionView,
    local_identity_public: Seq<u8>,
    local_registration_id: u32,
)
    ensures
        ({
            let session = migrated_session(legacy, local_identity_public, local_registration_id);
            &&& session.sender_chain matches Some(chain) ==> has_placeholders(chain)
            &&& forall|i: int|
                0 <= i < session.receiver_chains.len() ==> has_placeholders(
                    #[trigger] session.receiver_chains[i],
                )
        }),
{
    sender_chain_has_placeholders(
        legacy.chains,
        decoded_or_empty(legacy.ratchet_public),
        decoded_or_empty(legacy.ratchet_private),
    );
    receiver_chains_have_placeholders(legacy.chains);
}

proof fn sender_chain_has_placeholders(
    chains: Seq<LegacyChainView>,
    ratchet_public: Seq<u8>,
    ratchet_private: Seq<u8>,
)
    ensures
        migrated_sender_chain(chains, ratchet_public, ratchet_private) matches Some(chain)
            ==> has_placeholders(chain),
    decreases chains.len(),
{
    if chains.len() > 0 && chains.last().chain_type != CHAIN_TYPE_SENDING {
        sender_chain_has_placeholders(chains.drop_last(), ratchet_public, ratchet_private);
    }
}

proof fn receiver_chains_have_placeholders(chains: Seq<LegacyChainView>)
    ensures
        forall|i: int|
            0 <= i < migrated_receiver_chains(chains).len() ==> has_placeholders(
                #[trigger] migrated_receiver_chains(chains)[i],
            ),
    decreases chains.len(),
{
    if chains.len() > 0 {
        receiver_chains_have_placeholders(chains.drop_last());
        let all = migrated_receiver_chains(chains);
        let rest = migrated_receiver_chains(chains.drop_last());
        assert forall|i: int| 0 <= i < all.len() implies has_placeholders(#[trigger] all[i]) by {
            if i < rest.len() {
                assert(all[i] == rest[i]);
            } else {
                let last = migrated_chain(
                    chains.last(),
                    decoded_or_empty(chains.last().ratchet_key),
                    None,
                );
                assert(all[i] == last);
                assert(has_placeholders(last));
            }
        }
    }
}

} // verus!
