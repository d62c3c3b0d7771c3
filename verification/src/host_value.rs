//! The values a host store hands over, as a plain tree.
//!
//! A host answers with whatever its own storage holds: raw bytes, a number,
//! a text, or a nested object with named properties. `HostValue` keeps such
//! an answer as data, so that every decision taken on it can be stated and
//! proved. Numbers are kept as integers: a host number is truncated toward
//! zero and clamped to the range of `i64`, and not-a-number is zero.

use crate::buffers::copy_bytes;
use crate::text::{base64_decode, base64_standard_decoding, optional_bytes};
use vstd::prelude::*;

verus! {

/// A value as the host handed it over.
#[derive(Debug, PartialEq, Eq)]
pub enum HostValue {
    /// The host's `undefined`.
    Undefined,
    /// The host's `null`.
    Null,
    /// A boolean.
    Bool(bool),
    /// A number, truncated toward zero and clamped to the range of `i64`.
    Number(i64),
    /// A text.
    Text(String),
    /// A contiguous byte buffer.
    Bytes(Vec<u8>),
    /// An ordered list of values.
    List(Vec<HostValue>),
    /// An object: its own properties, in enumeration order.
    Object(Vec<Property>),
}

/// One named property of a host object.
#[derive(Debug, PartialEq, Eq)]
pub struct Property {
    pub key: String,
    pub value: HostValue,
}

/// The value of the first property named `key`, if there is one.
pub open spec fn lookup(props: Seq<Property>, key: Seq<char>) -> Option<HostValue>
    decreases props.len(),
{
    if props.len() == 0 {
        None
    } else if props[0].key@ == key {
        Some(props[0].value)
    } else {
        lookup(props.drop_first(), key)
    }
}

/// A host number as an unsigned 32-bit integer: negative numbers are 0,
/// numbers above the range are the largest value.
pub open spec fn number_as_u32(n: i64) -> u32 {
    if n < 0 {
        0u32
    } else if n > 0xFFFF_FFFF {
        0xFFFF_FFFFu32
    } else {
        n as u32
    }
}

/// A host number as a byte: negative numbers are 0, numbers above 255 are
/// 255.
pub open spec fn number_as_u8(n: i64) -> u8 {
    if n < 0 {
        0u8
    } else if n > 255 {
        255u8
    } else {
        n as u8
    }
}

/// The bytes that a list of host values stands for: each number gives one
/// byte, in order, and every other element is passed over.
pub open spec fn list_bytes(items: Seq<HostValue>) -> Seq<u8>
    decreases items.len(),
{
    if items.len() == 0 {
        Seq::empty()
    } else {
        let rest = list_bytes(items.drop_last());
        match items.last() {
            HostValue::Number(n) => rest.push(number_as_u8(n)),
            _ => rest,
        }
    }
}

impl HostValue {
    /// The properties of an object; every other value has none.
    pub open spec fn properties(self) -> Seq<Property> {
        match self {
            HostValue::Object(props) => props@,
            _ => Seq::empty(),
        }
    }

    /// The property named `key` of an object.
    pub open spec fn property(self, key: Seq<char>) -> Option<HostValue> {
        lookup(self.properties(), key)
    }

    /// Whether the value is `null` or `undefined`.
    pub open spec fn absent(self) -> bool {
        self is Null || self is Undefined
    }

    /// The text of a property, where the property holds a text.
    pub open spec fn text_property(self, key: Seq<char>) -> Option<Seq<char>> {
        match self.property(key) {
            Some(HostValue::Text(s)) => Some(s@),
            _ => None,
        }
    }

    /// The number of a property, where the property holds a number.
    pub open spec fn number_property(self, key: Seq<char>) -> Option<i64> {
        match self.property(key) {
            Some(HostValue::Number(n)) => Some(n),
            _ => None,
        }
    }

    /// Whether the value is `null` or `undefined`.
    pub fn is_absent(&self) -> (r: bool)
        ensures
            r == self.absent(),
    {
        match self {
            HostValue::Null => true,
            HostValue::Undefined => true,
            _ => false,
        }
    }

    /// Whether the value is an object.
    pub fn is_object(&self) -> (r: bool)
        ensures
            r == (*self is Object),
    {
        match self {
            HostValue::Object(_) => true,
            _ => false,
        }
    }

    /// Whether an object has a property named `key`. A value that is no
    /// object has no properties.
    pub fn has(&self, key: &str) -> (r: bool)
        ensures
            r == self.property(key@).is_some(),
    {
        self.get(key).is_some()
    }

    /// The property named `key` of an object: the first one of that name.
    pub fn get(&self, key: &str) -> (r: Option<&HostValue>)
        ensures
            match r {
                Some(v) => self.property(key@) == Some(*v),
                None => self.property(key@).is_none(),
            },
    {
        match self {
            HostValue::Object(props) => {
                let wanted = key.to_owned();
                let n: usize = props.len();
                let mut i: usize = 0;
                assert(props@.subrange(0, n as int) == props@);
                while i < n
                    invariant
                        n == props@.len(),
                        i <= n,
                        wanted@ == key@,
                        self.properties() == props@,
                        lookup(props@, key@) == lookup(props@.subrange(i as int, n as int), key@),
                    decreases n - i,
                {
                    let ghost rest = props@.subrange(i as int, n as int);
                    assert(rest.len() > 0 && rest[0] == props@[i as int]);
                    assert(rest.drop_first() == props@.subrange(i + 1, n as int));
                    if props[i].key == wanted {
                        return Some(&props[i].value);
                    }
                    i += 1;
                }
                None
            },
            _ => None,
        }
    }
}

/// The text of a property, where the object has it and it holds a text.
pub fn get_string<'a>(obj: &'a HostValue, key: &str) -> (r: Option<&'a String>)
    ensures
        match r {
            Some(s) => obj.text_property(key@) == Some(s@),
            None => obj.text_property(key@).is_none(),
        },
{
    match obj.get(key) {
        Some(HostValue::Text(s)) => Some(s),
        _ => None,
    }
}

/// The value of a property, where the object has it.
pub fn get_object<'a>(obj: &'a HostValue, key: &str) -> (r: Option<&'a HostValue>)
    ensures
        match r {
            Some(v) => obj.property(key@) == Some(*v),
            None => obj.property(key@).is_none(),
        },
{
    obj.get(key)
}

/// The number of a property, where the object has it and it holds a
/// number.
pub fn get_number(obj: &HostValue, key: &str) -> (r: Option<i64>)
    ensures
        r == obj.number_property(key@),
{
    match obj.get(key) {
        Some(HostValue::Number(n)) => Some(*n),
        _ => None,
    }
}

/// Converts a host number to `u32`, clamping it to the range.
pub fn to_u32(n: i64) -> (r: u32)
    ensures
        r == number_as_u32(n),
{
    if n < 0 {
        0
    } else if n > 0xFFFF_FFFF {
        0xFFFF_FFFF
    } else {
        n as u32
    }
}

/// Converts a host number to a byte, clamping it to the range.
pub fn to_u8(n: i64) -> (r: u8)
    ensures
        r == number_as_u8(n),
{
    if n < 0 {
        0
    } else if n > 255 {
        255
    } else {
        n as u8
    }
}

/// Collects the bytes of a list of host numbers; elements that are no
/// numbers are passed over.
pub fn js_array_to_vec(array: &Vec<HostValue>) -> (bytes: Vec<u8>)
    ensures
        bytes@ == list_bytes(array@),
{
    let n: usize = array.len();
    let mut bytes: Vec<u8> = Vec::with_capacity(n);
    let mut i: usize = 0;
    while i < n
        invariant
            n == array@.len(),
            i <= n,
            bytes@ == list_bytes(array@.subrange(0, i as int)),
        decreases n - i,
    {
        assert(array@.subrange(0, i + 1).drop_last() == array@.subrange(0, i as int));
        assert(array@.subrange(0, i + 1).last() == array@[i as int]);
        match &array[i] {
            HostValue::Number(v) => {
                bytes.push(to_u8(*v));
            },
            _ => {},
        }
        i += 1;
    }
    assert(array@.subrange(0, n as int) == array@);
    bytes
}

/// The items of the `data` list of a value that has the shape of a
/// serialized buffer: an object whose `type` is the text `Buffer` and whose
/// `data` is a list.
pub open spec fn buffer_shape_items(val: HostValue) -> Option<Seq<HostValue>> {
    if val.text_property("type"@) == Some("Buffer"@) {
        match val.property("data"@) {
            Some(HostValue::List(items)) => Some(items@),
            _ => None,
        }
    } else {
        None
    }
}

/// The bytes that a value stands for, in any of the shapes in which a host
/// hands bytes over: a serialized buffer, a byte buffer, a list of
/// numbers, or a base64 text. Every other value stands for none.
pub open spec fn value_bytes(val: HostValue) -> Option<Seq<u8>> {
    match buffer_shape_items(val) {
        Some(items) => Some(list_bytes(items)),
        None => match val {
            HostValue::Bytes(b) => Some(b@),
            HostValue::List(items) => Some(list_bytes(items@)),
            HostValue::Text(t) => base64_standard_decoding(t@),
            _ => None,
        },
    }
}

/// The bytes that the property `key` of an object stands for.
pub open spec fn property_bytes(obj: HostValue, key: Seq<char>) -> Option<Seq<u8>> {
    match obj.property(key) {
        Some(val) => value_bytes(val),
        None => None,
    }
}

/// Reads the bytes of the property `key`, whatever shape the host gave
/// them: a serialized buffer, a byte buffer, a list of numbers, or a
/// base64 text.
pub fn get_bytes_from_buffer_json(obj: &HostValue, key: &str) -> (bytes: Option<Vec<u8>>)
    ensures
        optional_bytes(bytes) == property_bytes(*obj, key@),
{
    let val = match obj.get(key) {
        Some(v) => v,
        None => {
            return None;
        },
    };
    let is_buffer = match get_string(val, "type") {
        Some(t) => *t == "Buffer".to_owned(),
        None => false,
    };
    if is_buffer {
        match val.get("data") {
            Some(HostValue::List(items)) => {
                return Some(js_array_to_vec(items));
            },
            _ => {},
        }
    }
    assert(buffer_shape_items(*val).is_none());
    match val {
        HostValue::Bytes(b) => Some(copy_bytes(b)),
        HostValue::List(items) => Some(js_array_to_vec(items)),
        HostValue::Text(t) => base64_decode(t.as_str()),
        _ => None,
    }
}

} // verus!
