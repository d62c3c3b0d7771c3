//! Reading a legacy session: the older, JSON-shaped encoding of a session
//! as a host may still hold it.
//!
//! A legacy value is either one session object, or a wrapper whose
//! `_sessions` property maps session ids to session objects. Reading keeps
//! every key as the base64 text that the host stored; decoding comes later.

use crate::errors::LegacyField;
use crate::host_value::{get_number, get_string, number_as_u32, to_u32, HostValue, Property};
use crate::text::{chars_of, decimal_u32, parse_u32};
use vstd::prelude::*;

verus! {

/// One stored message key of a legacy chain: its index and its base64 text.
#[derive(Debug, Clone, PartialEq, Eq)]
pub struct LegacyMessageKey {
    pub index: u32,
    pub key: String,
}

/// One entry of the `_chains` map of a legacy session.
#[derive(Debug, Clone, PartialEq, Eq)]
pub struct LegacyChain {
    /// The name under which the chain is stored: the peer's ratchet public
    /// key, in base64.
    pub ratchet_key: String,
    /// 1 for the sender chain, 2 for a receiver chain.
    pub chain_type: u32,
    pub counter: u32,
    pub chain_key: String,
    pub message_keys: Vec<LegacyMessageKey>,
}

/// The fields of a legacy session, keys still in base64.
#[derive(Debug, Clone, PartialEq, Eq)]
pub struct LegacySession {
    pub registration_id: u32,
    pub root_key: String,
    pub previous_counter: u32,
    pub ratchet_public: String,
    pub ratchet_private: String,
    pub remote_identity_key: String,
    pub base_key: String,
    pub chains: Vec<LegacyChain>,
}

/// What a `LegacyMessageKey` holds.
pub struct LegacyMessageKeyView {
    pub index: u32,
    pub key: Seq<char>,
}

/// What a `LegacyChain` holds.
pub struct LegacyChainView {
    pub ratchet_key: Seq<char>,
    pub chain_type: u32,
    pub counter: u32,
    pub chain_key: Seq<char>,
    pub message_keys: Seq<LegacyMessageKeyView>,
}

/// What a `LegacySession` holds.
pub struct LegacySessionView {
    pub registration_id: u32,
    pub root_key: Seq<char>,
    pub previous_counter: u32,
    pub ratchet_public: Seq<char>,
    pub ratchet_private: Seq<char>,
    pub remote_identity_key: Seq<char>,
    pub base_key: Seq<char>,
    pub chains: Seq<LegacyChainView>,
}

impl View for LegacyMessageKey {
    type V = LegacyMessageKeyView;

    open spec fn view(&self) -> LegacyMessageKeyView {
        LegacyMessageKeyView { index: self.index, key: self.key@ }
    }
}

impl View for LegacyChain {
    type V = LegacyChainView;

    open spec fn view(&self) -> LegacyChainView {
        LegacyChainView {
            ratchet_key: self.ratchet_key@,
            chain_type: self.chain_type,
            counter: self.counter,
            chain_key: self.chain_key@,
            message_keys: self.message_keys@.map_values(|k: LegacyMessageKey| k@),
        }
    }
}

impl View for LegacySession {
    type V = LegacySessionView;

    open spec fn view(&self) -> LegacySessionView {
        LegacySessionView {
            registration_id: self.registration_id,
            root_key: self.root_key@,
            previous_counter: self.previous_counter,
            ratchet_public: self.ratchet_public@,
            ratchet_private: self.ratchet_private@,
            remote_identity_key: self.remote_identity_key@,
            base_key: self.base_key@,
            chains: self.chains@.map_values(|c: LegacyChain| c@),
        }
    }
}

/// The text of a property; the empty text where the property is missing or
/// holds no text.
pub open spec fn text_or_empty(obj: HostValue, key: Seq<char>) -> Seq<char> {
    match obj.text_property(key) {
        Some(t) => t,
        None => Seq::empty(),
    }
}

/// The number of a property, clamped to `u32`; zero where the property is
/// missing or holds no number.
pub open spec fn u32_or_zero(obj: HostValue, key: Seq<char>) -> u32 {
    match obj.number_property(key) {
        Some(n) => number_as_u32(n),
        None => 0,
    }
}

/// The property `key`, where it is there and holds an object.
pub open spec fn object_property(obj: HostValue, key: Seq<char>) -> Option<HostValue> {
    match obj.property(key) {
        Some(v) => if v is Object {
            Some(v)
        } else {
            None
        },
        None => None,
    }
}

/// The text that a value holds; the empty text for a value that is none.
pub open spec fn value_text(v: HostValue) -> Seq<char> {
    match v {
        HostValue::Text(t) => t@,
        _ => Seq::empty(),
    }
}

/// Reads a text property; a missing one reads as the empty text.
pub fn read_text(obj: &HostValue, key: &str) -> (t: String)
    ensures
        t@ == text_or_empty(*obj, key@),
{
    match get_string(obj, key) {
        Some(s) => s.clone(),
        None => String::new(),
    }
}

/// Reads a number property as `u32`; a missing one reads as zero.
pub fn read_u32(obj: &HostValue, key: &str) -> (n: u32)
    ensures
        n == u32_or_zero(*obj, key@),
{
    match get_number(obj, key) {
        Some(v) => to_u32(v),
        None => 0,
    }
}

/// Reads a property that has to hold an object.
pub fn read_object<'a>(obj: &'a HostValue, key: &str) -> (r: Option<&'a HostValue>)
    ensures
        match r {
            Some(v) => object_property(*obj, key@) == Some(*v) && *v is Object,
            None => object_property(*obj, key@).is_none(),
        },
{
    match obj.get(key) {
        Some(v) => if v.is_object() {
            Some(v)
        } else {
            None
        },
        None => None,
    }
}

/// The message keys that the properties of a `messageKeys` object write:
/// each property name is the decimal index, its value the key's text.
/// `None` where a name is no decimal number.
pub open spec fn parsed_message_keys(props: Seq<Property>) -> Option<Seq<LegacyMessageKeyView>>
    decreases props.len(),
{
    if props.len() == 0 {
        Some(Seq::empty())
    } else {
        match (parsed_message_keys(props.drop_last()), decimal_u32(props.last().key@)) {
            (Some(keys), Some(index)) => Some(
                keys.push(LegacyMessageKeyView { index, key: value_text(props.last().value) }),
            ),
            _ => None,
        }
    }
}

/// Where the first properties already write no message keys, the whole
/// object writes none.
proof fn message_keys_fail_early(props: Seq<Property>, k: int)
    requires
        0 <= k <= props.len(),
        parsed_message_keys(props.subrange(0, k)).is_none(),
    ensures
        parsed_message_keys(props).is_none(),
    decreases props.len() - k,
{
    if k == props.len() {
        assert(props.subrange(0, k) == props);
    } else {
        assert(props.drop_last().subrange(0, k) == props.subrange(0, k));
        message_keys_fail_early(props.drop_last(), k);
    }
}

/// Reads the properties of a `messageKeys` object.
pub fn read_message_keys(props: &Vec<Property>) -> (keys: Option<Vec<LegacyMessageKey>>)
    ensures
        match keys {
            Some(ks) => parsed_message_keys(props@) == Some(
                ks@.map_values(|k: LegacyMessageKey| k@),
            ),
            None => parsed_message_keys(props@).is_none(),
        },
{
    let n: usize = props.len();
    let mut keys: Vec<LegacyMessageKey> = Vec::with_capacity(n);
    let mut i: usize = 0;
    while i < n
        invariant
            n == props@.len(),
            i <= n,
            parsed_message_keys(props@.subrange(0, i as int)) == Some(
                keys@.map_values(|k: LegacyMessageKey| k@),
            ),
        decreases n - i,
    {
        let ghost before = keys@.map_values(|k: LegacyMessageKey| k@);
        let ghost next = props@.subrange(0, i + 1);
        assert(next.drop_last() == props@.subrange(0, i as int));
        assert(next.last() == props@[i as int]);
        let name = chars_of(props[i].key.as_str());
        match parse_u32(&name) {
            None => {
                proof {
                    message_keys_fail_early(props@, i + 1);
                }
                return None;
            },
            Some(index) => {
                let key = match &props[i].value {
                    HostValue::Text(t) => t.clone(),
                    _ => String::new(),
                };
                keys.push(LegacyMessageKey { index, key });
                assert(keys@.map_values(|k: LegacyMessageKey| k@) == before.push(
                    LegacyMessageKeyView { index, key: value_text(props@[i as int].value) },
                ));
            },
        }
        i += 1;
    }
    assert(props@.subrange(0, n as int) == props@);
    Some(keys)
}

/// The chain that one entry of the `_chains` map writes. The entry needs
/// a `chainKey` object and a `messageKeys` object whose property names are
/// decimal numbers; the first of these that fails is the error.
pub open spec fn parsed_chain(entry: Property) -> Result<LegacyChainView, LegacyField> {
    match object_property(entry.value, "chainKey"@) {
        None => Err(LegacyField::ChainKey),
        Some(chain_key) => match object_property(entry.value, "messageKeys"@) {
            None => Err(LegacyField::MessageKeys),
            Some(message_keys) => match parsed_message_keys(message_keys.properties()) {
                None => Err(LegacyField::MessageKeyIndex),
                Some(keys) => Ok(
                    LegacyChainView {
                        ratchet_key: entry.key@,
                        chain_type: u32_or_zero(entry.value, "chainType"@),
                        counter: u32_or_zero(chain_key, "counter"@),
                        chain_key: text_or_empty(chain_key, "key"@),
                        message_keys: keys,
                    },
                ),
            },
        },
    }
}

/// The chains that the properties of a `_chains` object write, in order;
/// the error of the first entry that fails.
pub open spec fn parsed_chains(props: Seq<Property>) -> Result<Seq<LegacyChainView>, LegacyField>
    decreases props.len(),
{
    if props.len() == 0 {
        Ok(Seq::empty())
    } else {
        match parsed_chains(props.drop_last()) {
            Err(e) => Err(e),
            Ok(chains) => match parsed_chain(props.last()) {
                Err(e) => Err(e),
                Ok(chain) => Ok(chains.push(chain)),
            },
        }
    }
}

/// An error among the first entries is the error of the whole map.
proof fn chains_fail_early(props: Seq<Property>, k: int)
    requires
        0 <= k <= props.len(),
        parsed_chains(props.subrange(0, k)).is_err(),
    ensures
        parsed_chains(props) == parsed_chains(props.subrange(0, k)),
    decreases props.len() - k,
{
    if k == props.len() {
        assert(props.subrange(0, k) == props);
    } else {
        assert(props.drop_last().subrange(0, k) == props.subrange(0, k));
        chains_fail_early(props.drop_last(), k);
    }
}

/// Reads one entry of the `_chains` map.
pub fn read_chain(entry: &Property) -> (chain: Result<LegacyChain, LegacyField>)
    ensures
        match chain {
            Ok(c) => parsed_chain(*entry) == Ok::<LegacyChainView, LegacyField>(c@),
            Err(e) => parsed_chain(*entry) == Err::<LegacyChainView, LegacyField>(e),
        },
{
    let chain_key = match read_object(&entry.value, "chainKey") {
        Some(v) => v,
        None => {
            return Err(LegacyField::ChainKey);
        },
    };
    let message_keys = match read_object(&entry.value, "messageKeys") {
        Some(HostValue::Object(props)) => match read_message_keys(props) {
            Some(keys) => keys,
            None => {
                return Err(LegacyField::MessageKeyIndex);
            },
        },
        _ => {
            return Err(LegacyField::MessageKeys);
        },
    };
    Ok(
        LegacyChain {
            ratchet_key: entry.key.clone(),
            chain_type: read_u32(&entry.value, "chainType"),
            counter: read_u32(chain_key, "counter"),
            chain_key: read_text(chain_key, "key"),
            message_keys,
        },
    )
}

/// Reads the entries of a `_chains` object, in order.
pub fn read_chains(props: &Vec<Property>) -> (chains: Result<Vec<LegacyChain>, LegacyField>)
    ensures
        match chains {
            Ok(cs) => parsed_chains(props@) == Ok::<Seq<LegacyChainView>, LegacyField>(
                cs@.map_values(|c: LegacyChain| c@),
            ),
            Err(e) => parsed_chains(props@) == Err::<Seq<LegacyChainView>, LegacyField>(e),
        },
{
    let n: usize = props.len();
    let mut chains: Vec<LegacyChain> = Vec::with_capacity(n);
    let mut i: usize = 0;
    assert(chains@.map_values(|c: LegacyChain| c@) == Seq::<LegacyChainView>::empty());
    while i < n
        invariant
            n == props@.len(),
            i <= n,
            parsed_chains(props@.subrange(0, i as int)) == Ok::<Seq<LegacyChainView>, LegacyField>(
                chains@.map_values(|c: LegacyChain| c@),
            ),
        decreases n - i,
    {
        let ghost before = chains@.map_values(|c: LegacyChain| c@);
        let ghost next = props@.subrange(0, i + 1);
        assert(next.drop_last() == props@.subrange(0, i as int));
        assert(next.last() == props@[i as int]);
        match read_chain(&props[i]) {
            Err(e) => {
                proof {
                    chains_fail_early(props@, i + 1);
                }
                return Err(e);
            },
            Ok(chain) => {
                let ghost view = chain@;
                chains.push(chain);
                assert(chains@.map_values(|c: LegacyChain| c@) == before.push(view));
            },
        }
        i += 1;
    }
    assert(props@.subrange(0, n as int) == props@);
    Ok(chains)
}

/// The legacy session that a session object writes. The object needs a
/// `currentRatchet` object with an `ephemeralKeyPair` object in it, an
/// `indexInfo` object and a `_chains` object; the first of these that is
/// missing is the error, and after them the first error among the chains.
/// A key or a counter that is missing reads as empty or zero.
pub open spec fn parsed_session(data: HostValue) -> Result<LegacySessionView, LegacyField> {
    match object_property(data, "currentRatchet"@) {
        None => Err(LegacyField::CurrentRatchet),
        Some(ratchet) => match object_property(ratchet, "ephemeralKeyPair"@) {
            None => Err(LegacyField::EphemeralKeyPair),
            Some(pair) => match object_property(data, "indexInfo"@) {
                None => Err(LegacyField::IndexInfo),
                Some(info) => match object_property(data, "_chains"@) {
                    None => Err(LegacyField::Chains),
                    Some(chains) => match parsed_chains(chains.properties()) {
                        Err(e) => Err(e),
                        Ok(cs) => Ok(
                            LegacySessionView {
                                registration_id: u32_or_zero(data, "registrationId"@),
                                root_key: text_or_empty(ratchet, "rootKey"@),
                                previous_counter: u32_or_zero(ratchet, "previousCounter"@),
                                ratchet_public: text_or_empty(pair, "pubKey"@),
                                ratchet_private: text_or_empty(pair, "privKey"@),
                                remote_identity_key: text_or_empty(info, "remoteIdentityKey"@),
                                base_key: text_or_empty(info, "baseKey"@),
                                chains: cs,
                            },
                        ),
                    },
                },
            },
        },
    }
}

/// Reads the fields of a legacy session object.
pub fn read_legacy_session(data: &HostValue) -> (session: Result<LegacySession, LegacyField>)
    ensures
        match session {
            Ok(s) => parsed_session(*data) == Ok::<LegacySessionView, LegacyField>(s@),
            Err(e) => parsed_session(*data) == Err::<LegacySessionView, LegacyField>(e),
        },
{
    let ratchet = match read_object(data, "currentRatchet") {
        Some(v) => v,
        None => {
            return Err(LegacyField::CurrentRatchet);
        },
    };
    let pair = match read_object(ratchet, "ephemeralKeyPair") {
        Some(v) => v,
        None => {
            return Err(LegacyField::EphemeralKeyPair);
        },
    };
    let info = match read_object(data, "indexInfo") {
        Some(v) => v,
        None => {
            return Err(LegacyField::IndexInfo);
        },
    };
    let chains = match read_object(data, "_chains") {
        Some(HostValue::Object(props)) => match read_chains(props) {
            Ok(cs) => cs,
            Err(e) => {
                return Err(e);
            },
        },
        _ => {
            return Err(LegacyField::Chains);
        },
    };
    Ok(
        LegacySession {
            registration_id: read_u32(data, "registrationId"),
            root_key: read_text(ratchet, "rootKey"),
            previous_counter: read_u32(ratchet, "previousCounter"),
            ratchet_public: read_text(pair, "pubKey"),
            ratchet_private: read_text(pair, "privKey"),
            remote_identity_key: read_text(info, "remoteIdentityKey"),
            base_key: read_text(info, "baseKey"),
            chains,
        },
    )
}

/// The shape of a value that the host gave in place of a session.
#[derive(Debug, Clone, Copy, PartialEq, Eq, Structural)]
pub enum SessionShape {
    /// `null` or `undefined`: the host holds nothing.
    Absent,
    /// A contiguous byte buffer: the canonical form.
    Canonical,
    /// An object with a `_sessions` map of legacy sessions.
    SessionsWrapper,
    /// One legacy session object.
    DirectSession,
    /// An object whose `data` is a list: a serialized buffer.
    BufferLike,
    /// Anything else.
    Unrecognized,
}

/// Whether a value has the two marks of a legacy session object.
pub open spec fn is_direct_session(value: HostValue) -> bool {
    value.property("registrationId"@).is_some() && value.property("currentRatchet"@).is_some()
}

/// The shape of a value, by priority: absent, canonical bytes, a wrapper of
/// legacy sessions, one legacy session, a serialized buffer, unrecognized.
pub open spec fn shape_of(value: HostValue) -> SessionShape {
    if value.absent() {
        SessionShape::Absent
    } else if value is Bytes {
        SessionShape::Canonical
    } else if value.property("_sessions"@).is_some() {
        SessionShape::SessionsWrapper
    } else if is_direct_session(value) {
        SessionShape::DirectSession
    } else if value.property("data"@) matches Some(HostValue::List(_)) {
        SessionShape::BufferLike
    } else {
        SessionShape::Unrecognized
    }
}

/// Tells the shape of a value that the host gave in place of a record.
pub fn classify(value: &HostValue) -> (shape: SessionShape)
    ensures
        shape == shape_of(*value),
{
    if value.is_absent() {
        return SessionShape::Absent;
    }
    match value {
        HostValue::Bytes(_) => {
            return SessionShape::Canonical;
        },
        _ => {},
    }
    if value.has("_sessions") {
        return SessionShape::SessionsWrapper;
    }
    if value.has("registrationId") && value.has("currentRatchet") {
        return SessionShape::DirectSession;
    }
    match value.get("data") {
        Some(HostValue::List(_)) => SessionShape::BufferLike,
        _ => SessionShape::Unrecognized,
    }
}

/// The session object that a legacy value stands for.
///
/// A wrapper stands for the first session of its `_sessions` map, in
/// enumeration order, and for none where the map is empty; a `_sessions`
/// that is no object is an error. A direct session object stands for
/// itself. Either way the object counts only if it has a `registrationId`.
/// Every other value stands for no session.
pub open spec fn selected_session(value: HostValue) -> Result<Option<HostValue>, LegacyField> {
    match shape_of(value) {
        SessionShape::SessionsWrapper => match object_property(value, "_sessions"@) {
            None => Err(LegacyField::Sessions),
            Some(sessions) => if sessions.properties().len() == 0 {
                Ok(None)
            } else {
                let first = sessions.properties()[0].value;
                if first.property("registrationId"@).is_some() {
                    Ok(Some(first))
                } else {
                    Ok(None)
                }
            },
        },
        SessionShape::DirectSession => Ok(Some(value)),
        _ => Ok(None),
    }
}

/// Whether a value is a wrapper that holds more than one legacy session.
/// Only the first of them can be recovered; a caller may want to say so.
pub open spec fn holds_several_sessions(value: HostValue) -> bool {
    shape_of(value) == SessionShape::SessionsWrapper && match object_property(
        value,
        "_sessions"@,
    ) {
        Some(sessions) => sessions.properties().len() > 1,
        None => false,
    }
}

/// Tells whether a value is a wrapper that holds more than one legacy
/// session.
pub fn is_ambiguous(value: &HostValue) -> (r: bool)
    ensures
        r == holds_several_sessions(*value),
{
    match classify(value) {
        SessionShape::SessionsWrapper => match read_object(value, "_sessions") {
            Some(HostValue::Object(props)) => props.len() > 1,
            _ => false,
        },
        _ => false,
    }
}

/// Picks the session object that a legacy value stands for.
pub fn select_session(value: &HostValue) -> (data: Result<Option<&HostValue>, LegacyField>)
    ensures
        match data {
            Ok(Some(d)) => selected_session(*value) == Ok::<Option<HostValue>, LegacyField>(
                Some(*d),
            ),
            Ok(None) => selected_session(*value) == Ok::<Option<HostValue>, LegacyField>(None),
            Err(e) => selected_session(*value) == Err::<Option<HostValue>, LegacyField>(e),
        },
{
    match classify(value) {
        SessionShape::SessionsWrapper => match read_object(value, "_sessions") {
            Some(HostValue::Object(props)) => {
                if props.len() == 0 {
                    Ok(None)
                } else if props[0].value.has("registrationId") {
                    Ok(Some(&props[0].value))
                } else {
                    Ok(None)
                }
            },
            _ => Err(LegacyField::Sessions),
        },
        SessionShape::DirectSession => Ok(Some(value)),
        _ => Ok(None),
    }
}

} // verus!
