//! Addresses of peers, and the names under which their records are stored.
//!
//! An address is a name and a device id. Its encoded form, `name.device`,
//! is the key of a session in the host store; a name therefore holds no
//! dot.

use crate::text::{
    append_chars, chars_of, decimal_text, decimal_u32, format_u32, parse_u32, text_of,
};
use vstd::prelude::*;

verus! {

/// Why an address could not be made.
#[derive(Debug, Clone, Copy, PartialEq, Eq, Structural)]
pub enum AddressError {
    /// The name holds a dot: it looks like an encoded address.
    EncodedAddress,
    /// The text is no `name.device`.
    InvalidEncoding,
}

/// The address of one device of a peer.
#[derive(Debug, Clone, PartialEq, Eq)]
pub struct ProtocolAddress {
    name: String,
    device_id: u32,
}

/// The position of the first `c` in `s`; the length of `s` where there is
/// none.
pub open spec fn position(s: Seq<char>, c: char) -> int
    decreases s.len(),
{
    if s.len() == 0 {
        0
    } else if s[0] == c {
        0
    } else {
        1 + position(s.drop_first(), c)
    }
}

/// Where `position` points, and what lies before it.
pub proof fn position_is_first(s: Seq<char>, c: char)
    ensures
        0 <= position(s, c) <= s.len(),
        position(s, c) < s.len() ==> s[position(s, c)] == c,
        forall|i: int| 0 <= i < position(s, c) ==> s[i] != c,
    decreases s.len(),
{
    if s.len() > 0 && s[0] != c {
        position_is_first(s.drop_first(), c);
        assert forall|i: int| 0 <= i < position(s, c) implies s[i] != c by {
            if i > 0 {
                assert(s.drop_first()[i - 1] == s[i]);
            }
        }
    }
}

/// Whether a text holds the character.
pub open spec fn holds(s: Seq<char>, c: char) -> bool {
    position(s, c) < s.len()
}

/// The encoded form of an address: the name, a dot, the device id in
/// decimal.
pub open spec fn encoded_address(name: Seq<char>, device_id: u32) -> Seq<char> {
    name + seq!['.'] + decimal_text(device_id as nat)
}

/// The name and device id that an encoded address writes: the text before
/// the first dot, and the number between the first dot and the second, or
/// the end. A text without a dot, or without a number there, writes none.
pub open spec fn decoded_address(encoded: Seq<char>) -> Option<(Seq<char>, u32)> {
    let dot = position(encoded, '.');
    if dot >= encoded.len() {
        None
    } else {
        let rest = encoded.subrange(dot + 1, encoded.len() as int);
        match decimal_u32(rest.subrange(0, position(rest, '.'))) {
            Some(device_id) => Some((encoded.subrange(0, dot), device_id)),
            None => None,
        }
    }
}

/// Finds the first `c` at or after `from`.
fn find(s: &Vec<char>, from: usize, c: char) -> (at: usize)
    requires
        from <= s@.len(),
    ensures
        at == from + position(s@.subrange(from as int, s@.len() as int), c),
        from <= at <= s@.len(),
{
    let n: usize = s.len();
    let mut i: usize = from;
    proof {
        position_is_first(s@.subrange(from as int, n as int), c);
    }
    while i < n
        invariant
            n == s@.len(),
            from <= i <= n,
            position(s@.subrange(from as int, n as int), c) == (i - from) + position(
                s@.subrange(i as int, n as int),
                c,
            ),
        decreases n - i,
    {
        let ghost rest = s@.subrange(i as int, n as int);
        assert(rest.len() > 0 && rest[0] == s@[i as int]);
        assert(rest.drop_first() == s@.subrange(i + 1, n as int));
        if s[i] == c {
            return i;
        }
        i += 1;
    }
    i
}

/// Copies a part of a text.
fn slice_of(s: &Vec<char>, from: usize, to: usize) -> (out: Vec<char>)
    requires
        from <= to <= s@.len(),
    ensures
        out@ == s@.subrange(from as int, to as int),
{
    let mut out: Vec<char> = Vec::with_capacity(to - from);
    let mut i: usize = from;
    while i < to
        invariant
            from <= i <= to,
            to <= s@.len(),
            out@ == s@.subrange(from as int, i as int),
        decreases to - i,
    {
        out.push(s[i]);
        assert(out@ == s@.subrange(from as int, i + 1));
        i += 1;
    }
    out
}

impl ProtocolAddress {
    /// The name of the peer.
    pub closed spec fn name(&self) -> Seq<char> {
        self.name@
    }

    /// The device of the peer.
    pub closed spec fn device(&self) -> u32 {
        self.device_id
    }

    /// The encoded form of the address.
    pub open spec fn encoded(&self) -> Seq<char> {
        encoded_address(self.name(), self.device())
    }

    /// Makes an address. A name that holds a dot is refused: it would
    /// collide with the encoded form of another address.
    pub fn new(id: String, device_id: u32) -> (address: Result<ProtocolAddress, AddressError>)
        ensures
            match address {
                Ok(a) => !holds(id@, '.') && a.name() == id@ && a.device() == device_id,
                Err(e) => holds(id@, '.') && e == AddressError::EncodedAddress,
            },
    {
        let chars = chars_of(id.as_str());
        assert(chars@.subrange(0, chars@.len() as int) == chars@);
        if find(&chars, 0, '.') < chars.len() {
            return Err(AddressError::EncodedAddress);
        }
        Ok(ProtocolAddress { name: id, device_id })
    }

    /// Reads an encoded address. What follows a second dot is not looked
    /// at.
    pub fn from_string(encoded: &str) -> (address: Result<ProtocolAddress, AddressError>)
        ensures
            match decoded_address(encoded@) {
                Some((name, device_id)) => address matches Ok(a) && a.name() == name && a.device()
                    == device_id,
                None => address matches Err(e) && e == AddressError::InvalidEncoding,
            },
    {
        let chars = chars_of(encoded);
        let n: usize = chars.len();
        assert(chars@.subrange(0, n as int) == chars@);
        let dot: usize = find(&chars, 0, '.');
        if dot >= n {
            return Err(AddressError::InvalidEncoding);
        }
        let end: usize = find(&chars, dot + 1, '.');
        let ghost rest = chars@.subrange(dot + 1, n as int);
        let digits = slice_of(&chars, dot + 1, end);
        assert(digits@ == rest.subrange(0, position(rest, '.')));
        match parse_u32(&digits) {
            Some(device_id) => {
                let name = text_of(&slice_of(&chars, 0, dot));
                Ok(ProtocolAddress { name, device_id })
            },
            None => Err(AddressError::InvalidEncoding),
        }
    }

    /// The name of the peer.
    pub fn id(&self) -> (name: String)
        ensures
            name@ == self.name(),
    {
        self.name.clone()
    }

    /// The device of the peer.
    pub fn device_id(&self) -> (device_id: u32)
        ensures
            device_id == self.device(),
    {
        self.device_id
    }

    /// The encoded form of the address: `name.device`.
    pub fn js_to_string(&self) -> (encoded: String)
        ensures
            encoded@ == self.encoded(),
    {
        let mut chars = chars_of(self.name.as_str());
        chars.push('.');
        assert(chars@ == self.name() + seq!['.']);
        append_chars(&mut chars, &format_u32(self.device_id));
        text_of(&chars)
    }

    /// Whether two addresses name the same device of the same peer.
    pub fn is(&self, other: &ProtocolAddress) -> (same: bool)
        ensures
            same == (self.name() == other.name() && self.device() == other.device()),
    {
        self.name == other.name && self.device_id == other.device_id
    }
}

/// The name and the device that a user id writes: the user part ends at
/// the first `@`; in it the name ends at the first colon, and the device
/// is the number between the first colon and the second, or the end. A
/// missing device, and one that is no number, is device 0.
pub open spec fn jid_parts(jid: Seq<char>) -> (Seq<char>, u32) {
    let user = jid.subrange(0, position(jid, '@'));
    let colon = position(user, ':');
    let device = if colon < user.len() {
        let rest = user.subrange(colon + 1, user.len() as int);
        match decimal_u32(rest.subrange(0, position(rest, ':'))) {
            Some(device_id) => device_id,
            None => 0u32,
        }
    } else {
        0u32
    };
    (user.subrange(0, colon), device)
}

/// Makes the address of a user id such as `name:device@server`. A name
/// that holds a dot is refused, as for every address.
pub fn jid_to_protocol_address(jid: &str) -> (address: Result<ProtocolAddress, AddressError>)
    ensures
        match address {
            Ok(a) => !holds(jid_parts(jid@).0, '.') && a.name() == jid_parts(jid@).0
                && a.device() == jid_parts(jid@).1,
            Err(e) => holds(jid_parts(jid@).0, '.') && e == AddressError::EncodedAddress,
        },
{
    let chars = chars_of(jid);
    assert(chars@.subrange(0, chars@.len() as int) == chars@);
    let at: usize = find(&chars, 0, '@');
    let user = slice_of(&chars, 0, at);
    assert(user@.subrange(0, user@.len() as int) == user@);
    let colon: usize = find(&user, 0, ':');
    let device_id: u32 = if colon < user.len() {
        let end: usize = find(&user, colon + 1, ':');
        let ghost rest = user@.subrange(colon + 1, user@.len() as int);
        let digits = slice_of(&user, colon + 1, end);
        assert(digits@ == rest.subrange(0, position(rest, ':')));
        match parse_u32(&digits) {
            Some(d) => d,
            None => 0,
        }
    } else {
        0
    };
    ProtocolAddress::new(text_of(&slice_of(&user, 0, colon)), device_id)
}

/// The encoded address of a user id.
pub fn jid_to_signal_protocol_address(jid: String) -> (encoded: Result<String, AddressError>)
    ensures
        match encoded {
            Ok(text) => !holds(jid_parts(jid@).0, '.') && text@ == encoded_address(
                jid_parts(jid@).0,
                jid_parts(jid@).1,
            ),
            Err(e) => holds(jid_parts(jid@).0, '.') && e == AddressError::EncodedAddress,
        },
{
    match jid_to_protocol_address(jid.as_str()) {
        Ok(address) => Ok(address.js_to_string()),
        Err(e) => Err(e),
    }
}

/// In a text that starts with a part without `c`, the first `c` is where
/// it is in the rest.
pub proof fn position_after_prefix(prefix: Seq<char>, rest: Seq<char>, c: char)
    requires
        !holds(prefix, c),
    ensures
        position(prefix + rest, c) == prefix.len() + position(rest, c),
    decreases prefix.len(),
{
    if prefix.len() == 0 {
        assert(prefix + rest == rest);
    } else {
        assert((prefix + rest)[0] == prefix[0]);
        assert((prefix + rest).drop_first() == prefix.drop_first() + rest);
        position_is_first(prefix.drop_first(), c);
        position_after_prefix(prefix.drop_first(), rest, c);
    }
}

/// A decimal number holds no dot.
pub proof fn digits_hold_no_dot(digits: Seq<char>)
    requires
        crate::text::is_decimal(digits),
    ensures
        position(digits, '.') == digits.len(),
{
    position_is_first(digits, '.');
    if position(digits, '.') < digits.len() {
        assert(crate::text::is_digit(digits[position(digits, '.')]));
    }
}

/// An address that was encoded is decoded as itself.
pub proof fn address_round_trip(name: Seq<char>, device_id: u32)
    requires
        !holds(name, '.'),
    ensures
        decoded_address(encoded_address(name, device_id)) == Some((name, device_id)),
{
    let digits = decimal_text(device_id as nat);
    let tail = seq!['.'] + digits;
    let encoded = encoded_address(name, device_id);
    crate::text::decimal_text_writes_the_number(device_id as nat);
    crate::text::decimal_round_trip(device_id);
    assert(encoded == name + tail);
    position_after_prefix(name, tail, '.');
    assert(tail[0] == '.');
    assert(position(tail, '.') == 0);
    assert(position(encoded, '.') == name.len());
    let rest = encoded.subrange(name.len() as int + 1, encoded.len() as int);
    assert(rest == digits);
    digits_hold_no_dot(digits);
    assert(rest.subrange(0, position(rest, '.')) == digits);
    assert(encoded.subrange(0, name.len() as int) == name);
}

/// Two addresses with the same encoded form are the same address: the
/// keys of two peers in the host store never collide.
pub proof fn encoded_addresses_do_not_collide(
    name: Seq<char>,
    device_id: u32,
    other_name: Seq<char>,
    other_device_id: u32,
)
    requires
        !holds(name, '.'),
        !holds(other_name, '.'),
        encoded_address(name, device_id) == encoded_address(other_name, other_device_id),
    ensures
        name == other_name,
        device_id == other_device_id,
{
    address_round_trip(name, device_id);
    address_round_trip(other_name, other_device_id);
}

} // verus!
