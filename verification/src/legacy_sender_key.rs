//! Reading a legacy sender key: a JSON array of sender-key states, as an
//! older client stored it in place of the canonical record.

use crate::errors::{Context, LegacyField, Reason, StoreError};
use crate::host_value::{get_bytes_from_buffer_json, property_bytes, HostValue};
use crate::legacy_session::{object_property, read_object, read_u32, u32_or_zero};
use crate::migration::bytes_or_empty;
use crate::records::{
    encode_sender_key_record, sender_key_record_encoding, sender_key_record_summary,
    sender_key_states_view, SeedView,
    SenderChainKey, SenderKeyState, SenderKeyStateView, SenderMessageKey, SenderSigningKey,
    SenderSigningKeyView,
};
use crate::text::utf8_text;
use vstd::prelude::*;
use vstd::utf8::*;

verus! {

/// The byte that opens a JSON array.
pub const JSON_ARRAY_OPEN: u8 = 0x5B;

/// Whether a byte is white space: tab, line feed, vertical tab, form feed,
/// carriage return or space.
pub open spec fn is_space(b: u8) -> bool {
    (0x09 <= b && b <= 0x0D) || b == 0x20
}

/// The first byte that is no white space.
pub open spec fn first_non_space(bytes: Seq<u8>) -> Option<u8>
    decreases bytes.len(),
{
    if bytes.len() == 0 {
        None
    } else if is_space(bytes[0]) {
        first_non_space(bytes.drop_first())
    } else {
        Some(bytes[0])
    }
}

/// Whether bytes look like a legacy sender key: well-formed UTF-8 whose
/// first byte after white space opens a JSON array.
pub open spec fn looks_like_legacy_sender_key(bytes: Seq<u8>) -> bool {
    valid_utf8(bytes) && first_non_space(bytes) == Some(JSON_ARRAY_OPEN)
}

/// Tells whether the first byte after white space opens a JSON array.
pub fn starts_json_array(data: &[u8]) -> (r: bool)
    ensures
        r == (first_non_space(data@) == Some(JSON_ARRAY_OPEN)),
{
    let n: usize = data.len();
    let mut i: usize = 0;
    assert(data@.subrange(0, n as int) == data@);
    while i < n
        invariant
            n == data@.len(),
            i <= n,
            first_non_space(data@) == first_non_space(data@.subrange(i as int, n as int)),
        decreases n - i,
    {
        let ghost rest = data@.subrange(i as int, n as int);
        assert(rest.len() > 0 && rest[0] == data@[i as int]);
        assert(rest.drop_first() == data@.subrange(i + 1, n as int));
        let b: u8 = data[i];
        if !((0x09 <= b && b <= 0x0D) || b == 0x20) {
            return b == JSON_ARRAY_OPEN;
        }
        i += 1;
    }
    false
}

/// The JSON text of a legacy sender key, for the host's parser; `None`
/// where the bytes do not look like one, so that they go to the codec
/// unchanged.
pub fn legacy_sender_key_text(data: &[u8]) -> (text: Option<String>)
    ensures
        match text {
            Some(t) => looks_like_legacy_sender_key(data@) && t@ == decode_utf8(data@),
            None => !looks_like_legacy_sender_key(data@),
        },
{
    match utf8_text(data) {
        None => None,
        Some(t) => if starts_json_array(data) {
            Some(t)
        } else {
            None
        },
    }
}

/// The bytes of a property, in any shape; no bytes where it has none.
pub open spec fn bytes_or_none(obj: HostValue, key: Seq<char>) -> Seq<u8> {
    match property_bytes(obj, key) {
        Some(b) => b,
        None => Seq::empty(),
    }
}

/// The sender message key that one element of `senderMessageKeys` writes.
pub open spec fn parsed_sender_message_key(item: HostValue) -> SeedView {
    SeedView { iteration: u32_or_zero(item, "iteration"@), seed: bytes_or_none(item, "seed"@) }
}

/// The sender message keys of a state: the elements of its
/// `senderMessageKeys` list, and none where it has no such list.
pub open spec fn parsed_sender_message_keys(state: HostValue) -> Seq<SeedView> {
    match state.property("senderMessageKeys"@) {
        Some(HostValue::List(items)) => items@.map_values(
            |item: HostValue| parsed_sender_message_key(item),
        ),
        _ => Seq::empty(),
    }
}

/// The sender-key state that one element of the legacy array writes. It
/// needs a `senderChainKey` object and a `senderSigningKey` object; the
/// private signing key may be missing.
pub open spec fn parsed_sender_key_state(state: HostValue) -> Result<
    SenderKeyStateView,
    LegacyField,
> {
    match object_property(state, "senderChainKey"@) {
        None => Err(LegacyField::SenderChainKey),
        Some(chain_key) => match object_property(state, "senderSigningKey"@) {
            None => Err(LegacyField::SenderSigningKey),
            Some(signing_key) => Ok(
                SenderKeyStateView {
                    sender_key_id: u32_or_zero(state, "senderKeyId"@),
                    sender_chain_key: SeedView {
                        iteration: u32_or_zero(chain_key, "iteration"@),
                        seed: bytes_or_none(chain_key, "seed"@),
                    },
                    sender_signing_key: SenderSigningKeyView {
                        public: bytes_or_none(signing_key, "public"@),
                        private: property_bytes(signing_key, "private"@),
                    },
                    sender_message_keys: parsed_sender_message_keys(state),
                },
            ),
        },
    }
}

/// The states that the elements of a legacy array write, in order; the
/// error of the first element that fails.
pub open spec fn parsed_sender_key_states(items: Seq<HostValue>) -> Result<
    Seq<SenderKeyStateView>,
    LegacyField,
>
    decreases items.len(),
{
    if items.len() == 0 {
        Ok(Seq::empty())
    } else {
        match parsed_sender_key_states(items.drop_last()) {
            Err(e) => Err(e),
            Ok(states) => match parsed_sender_key_state(items.last()) {
                Err(e) => Err(e),
                Ok(state) => Ok(states.push(state)),
            },
        }
    }
}

/// An error among the first elements is the error of the whole array.
proof fn states_fail_early(items: Seq<HostValue>, k: int)
    requires
        0 <= k <= items.len(),
        parsed_sender_key_states(items.subrange(0, k)).is_err(),
    ensures
        parsed_sender_key_states(items) == parsed_sender_key_states(items.subrange(0, k)),
    decreases items.len() - k,
{
    if k == items.len() {
        assert(items.subrange(0, k) == items);
    } else {
        assert(items.drop_last().subrange(0, k) == items.subrange(0, k));
        states_fail_early(items.drop_last(), k);
    }
}

fn read_bytes(obj: &HostValue, key: &str) -> (bytes: Vec<u8>)
    ensures
        bytes@ == bytes_or_none(*obj, key@),
{
    bytes_or_empty(get_bytes_from_buffer_json(obj, key))
}

/// Reads the `senderMessageKeys` of one legacy state.
pub fn read_sender_message_keys(state: &HostValue) -> (keys: Vec<SenderMessageKey>)
    ensures
        keys@.map_values(|k: SenderMessageKey| k@) == parsed_sender_message_keys(*state),
{
    let mut keys: Vec<SenderMessageKey> = Vec::new();
    match state.get("senderMessageKeys") {
        Some(HostValue::List(items)) => {
            let n: usize = items.len();
            let mut i: usize = 0;
            while i < n
                invariant
                    n == items@.len(),
                    i <= n,
                    keys@.len() == i,
                    forall|j: int|
                        0 <= j < i ==> (#[trigger] keys@[j])@ == parsed_sender_message_key(
                            items@[j],
                        ),
                decreases n - i,
            {
                keys.push(
                    SenderMessageKey {
                        iteration: read_u32(&items[i], "iteration"),
                        seed: read_bytes(&items[i], "seed"),
                    },
                );
                i += 1;
            }
            assert(keys@.map_values(|k: SenderMessageKey| k@) =~= items@.map_values(
                |item: HostValue| parsed_sender_message_key(item),
            ));
        },
        _ => {
            assert(keys@.map_values(|k: SenderMessageKey| k@) =~= Seq::<SeedView>::empty());
        },
    }
    keys
}

/// Reads one element of a legacy sender-key array.
pub fn read_sender_key_state(state: &HostValue) -> (out: Result<SenderKeyState, LegacyField>)
    ensures
        match out {
            Ok(s) => parsed_sender_key_state(*state) == Ok::<SenderKeyStateView, LegacyField>(s@),
            Err(e) => parsed_sender_key_state(*state) == Err::<SenderKeyStateView, LegacyField>(e),
        },
{
    let chain_key = match read_object(state, "senderChainKey") {
        Some(v) => v,
        None => {
            return Err(LegacyField::SenderChainKey);
        },
    };
    let signing_key = match read_object(state, "senderSigningKey") {
        Some(v) => v,
        None => {
            return Err(LegacyField::SenderSigningKey);
        },
    };
    Ok(
        SenderKeyState {
            sender_key_id: read_u32(state, "senderKeyId"),
            sender_chain_key: SenderChainKey {
                iteration: read_u32(chain_key, "iteration"),
                seed: read_bytes(chain_key, "seed"),
            },
            sender_signing_key: SenderSigningKey {
                public: read_bytes(signing_key, "public"),
                private: get_bytes_from_buffer_json(signing_key, "private"),
            },
            sender_message_keys: read_sender_message_keys(state),
        },
    )
}

/// Reads the elements of a legacy sender-key array, in order.
pub fn read_sender_key_states(items: &Vec<HostValue>) -> (out: Result<
    Vec<SenderKeyState>,
    LegacyField,
>)
    ensures
        match out {
            Ok(states) => parsed_sender_key_states(items@) == Ok::<
                Seq<SenderKeyStateView>,
                LegacyField,
            >(sender_key_states_view(states@)),
            Err(e) => parsed_sender_key_states(items@) == Err::<
                Seq<SenderKeyStateView>,
                LegacyField,
            >(e),
        },
{
    let n: usize = items.len();
    let mut states: Vec<SenderKeyState> = Vec::with_capacity(n);
    let mut i: usize = 0;
    assert(sender_key_states_view(states@) == Seq::<SenderKeyStateView>::empty());
    while i < n
        invariant
            n == items@.len(),
            i <= n,
            parsed_sender_key_states(items@.subrange(0, i as int)) == Ok::<
                Seq<SenderKeyStateView>,
                LegacyField,
            >(sender_key_states_view(states@)),
        decreases n - i,
    {
        let ghost before = sender_key_states_view(states@);
        let ghost next = items@.subrange(0, i + 1);
        assert(next.drop_last() == items@.subrange(0, i as int));
        assert(next.last() == items@[i as int]);
        match read_sender_key_state(&items[i]) {
            Err(e) => {
                proof {
                    states_fail_early(items@, i + 1);
                }
                return Err(e);
            },
            Ok(state) => {
                let ghost view = state@;
                states.push(state);
                assert(sender_key_states_view(states@) == before.push(view));
            },
        }
        i += 1;
    }
    assert(items@.subrange(0, n as int) == items@);
    Ok(states)
}

/// The canonical bytes that a parsed legacy sender key migrates to: the
/// encoding of the states that the array writes. A value that is no array
/// migrates to nothing, and an element without its chain key or its
/// signing key is an error.
pub open spec fn migrated_sender_key(parsed: HostValue) -> Result<Option<Seq<u8>>, LegacyField> {
    match parsed {
        HostValue::List(items) => match parsed_sender_key_states(items@) {
            Ok(states) => Ok(Some(sender_key_record_encoding(states))),
            Err(e) => Err(e),
        },
        _ => Ok(None),
    }
}

/// The error that reports an incomplete legacy sender key.
pub open spec fn sender_key_format_error(field: LegacyField) -> StoreError {
    StoreError::InvalidState(Context::MigrateSenderKey, Reason::InvalidLegacyFormat(field))
}

/// Migrates a parsed legacy sender key into canonical bytes.
pub fn migrate_legacy_sender_key(parsed: &HostValue) -> (out: Result<Option<Vec<u8>>, StoreError>)
    ensures
        match migrated_sender_key(*parsed) {
            Ok(Some(encoding)) => out matches Ok(Some(bytes)) && bytes@ == encoding,
            Ok(None) => out matches Ok(None),
            Err(field) => out matches Err(e) && e == sender_key_format_error(field),
        },
        out matches Ok(Some(bytes)) ==> sender_key_record_summary(bytes@).is_some(),
{
    match parsed {
        HostValue::List(items) => match read_sender_key_states(items) {
            Ok(states) => Ok(Some(encode_sender_key_record(&states))),
            Err(field) => Err(
                StoreError::InvalidState(
                    Context::MigrateSenderKey,
                    Reason::InvalidLegacyFormat(field),
                ),
            ),
        },
        _ => Ok(None),
    }
}

} // verus!
