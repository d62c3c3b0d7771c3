//! The name of a sender key: a group, and the member who sends.

use crate::protocol_address::ProtocolAddress;
use crate::text::{append_chars, chars_of, decimal_text, format_u32, text_of};
use vstd::prelude::*;

verus! {

/// The name under which the sender key of one group member is stored.
#[derive(Debug, Clone, PartialEq, Eq)]
pub struct SenderKeyName {
    group_id: String,
    sender_id: String,
}

/// The two colons that part a group from a sender, and a name from a
/// device.
pub open spec fn separator() -> Seq<char> {
    seq![':', ':']
}

/// The id of a sender: its name, two colons, its device id in decimal.
pub open spec fn sender_id_of(name: Seq<char>, device_id: u32) -> Seq<char> {
    name + separator() + decimal_text(device_id as nat)
}

/// The key of a sender key in the host store: the group, two colons, the
/// sender's id.
pub open spec fn sender_key_id(group_id: Seq<char>, sender_id: Seq<char>) -> Seq<char> {
    group_id + separator() + sender_id
}

fn push_separator(to: &mut Vec<char>)
    ensures
        final(to)@ == old(to)@ + separator(),
{
    to.push(':');
    to.push(':');
    assert(to@ == old(to)@ + separator());
}

impl SenderKeyName {
    /// The group.
    pub closed spec fn group(&self) -> Seq<char> {
        self.group_id@
    }

    /// The sender's id.
    pub closed spec fn sender(&self) -> Seq<char> {
        self.sender_id@
    }

    /// The key of the sender key in the host store.
    pub open spec fn key(&self) -> Seq<char> {
        sender_key_id(self.group(), self.sender())
    }

    /// Names a sender key by a group and a sender id that is already
    /// written out.
    pub fn from_parts(group_id: String, sender_id: String) -> (name: Self)
        ensures
            name.group() == group_id@,
            name.sender() == sender_id@,
    {
        Self { group_id, sender_id }
    }

    /// Names the sender key of a group member.
    pub fn new(group_id: String, sender: &ProtocolAddress) -> (name: Self)
        ensures
            name.group() == group_id@,
            name.sender() == sender_id_of(sender.name(), sender.device()),
    {
        let mut chars = chars_of(sender.id().as_str());
        push_separator(&mut chars);
        append_chars(&mut chars, &format_u32(sender.device_id()));
        Self { group_id, sender_id: text_of(&chars) }
    }

    /// The group.
    pub fn group_id(&self) -> (group_id: String)
        ensures
            group_id@ == self.group(),
    {
        self.group_id.clone()
    }

    /// The sender's id.
    pub fn sender_id(&self) -> (sender_id: String)
        ensures
            sender_id@ == self.sender(),
    {
        self.sender_id.clone()
    }

    /// The key of the sender key in the host store: `group::sender`.
    pub fn to_string_js(&self) -> (key: String)
        ensures
            key@ == self.key(),
    {
        let mut chars = chars_of(self.group_id.as_str());
        push_separator(&mut chars);
        append_chars(&mut chars, &chars_of(self.sender_id.as_str()));
        text_of(&chars)
    }
}

} // verus!
