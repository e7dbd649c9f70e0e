//! Messages placed on the work queue.

use vstd::prelude::*;

verus! {

/// Kind of a queued message.
#[derive(Debug, Clone, Copy, PartialEq, Eq, Structural)]
pub enum MessageType {
    Message,
    Email,
}

impl MessageType {
    pub open spec fn name_spec(&self) -> Seq<char> {
        match self {
            MessageType::Message => "Message"@,
            MessageType::Email => "Email"@,
        }
    }

    /// The variant's name.
    pub fn name(&self) -> (r: &'static str)
        ensures
            r@ == self.name_spec(),
    {
        match self {
            MessageType::Message => "Message",
            MessageType::Email => "Email",
        }
    }
}

/// A queued message: its kind and its serialized payload.
#[derive(Debug)]
pub struct Message {
    pub type_: MessageType,
    pub payload: String,
}

} // verus!
