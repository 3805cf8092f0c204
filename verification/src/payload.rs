//! The message that a sensor worker hands to the publisher, and the reserved
//! message that tells the publisher to end the process.

use vstd::prelude::*;
use vstd::string::*;

verus! {

/// What a message says: where it goes and what it carries.
pub struct Message {
    /// The topic on the broker.
    pub destination: Seq<char>,
    /// The serialized reading.
    pub body: Seq<char>,
}

/// The fault sentinel: the one message that is no reading but a signal that
/// the shared bus can no longer be trusted.
pub open spec fn is_sentinel(m: Message) -> bool {
    m.destination == "poison"@ && m.body == "poison"@
}

/// An outbound message: a destination on the broker and the body to deliver.
#[derive(Debug, PartialEq, Eq)]
pub struct Payload {
    queue: String,
    bytes: String,
}

impl View for Payload {
    type V = Message;

    closed spec fn view(&self) -> Message {
        Message { destination: self.queue@, body: self.bytes@ }
    }
}

impl Payload {
    /// A message with body `bytes` for the destination `queue`.
    pub fn new(queue: String, bytes: String) -> (p: Payload)
        ensures
            p@ == (Message { destination: queue@, body: bytes@ }),
    {
        Payload { queue, bytes }
    }

    /// The fault sentinel.
    pub fn poison() -> (p: Payload)
        ensures
            is_sentinel(p@),
            p@ == (Message { destination: "poison"@, body: "poison"@ }),
    {
        Payload { queue: String::from_str("poison"), bytes: String::from_str("poison") }
    }

    /// Whether this message is the fault sentinel.
    pub fn is_poison(&self) -> (b: bool)
        ensures
            b == is_sentinel(self@),
    {
        let word = String::from_str("poison");
        self.queue == word && self.bytes == word
    }

    /// The destination.
    pub fn queue(&self) -> (q: &String)
        ensures
            q@ == self@.destination,
    {
        &self.queue
    }

    /// The body.
    pub fn bytes(&self) -> (b: &String)
        ensures
            b@ == self@.body,
    {
        &self.bytes
    }

    /// A message that says the same.
    pub fn duplicate(&self) -> (p: Payload)
        ensures
            p@ == self@,
    {
        Payload { queue: self.queue.clone(), bytes: self.bytes.clone() }
    }
}

} // verus!
