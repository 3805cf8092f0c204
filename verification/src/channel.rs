//! The aggregation channel: the queue between the sensor workers and the
//! publisher. Sending never waits for the consumer, and messages leave in the
//! order in which they arrived.

use crate::payload::{Message, Payload};
use std::collections::VecDeque;
use vstd::prelude::*;

verus! {

/// What each message of `queue` says, in order.
pub open spec fn messages(queue: Seq<Payload>) -> Seq<Message> {
    Seq::new(queue.len(), |i: int| queue[i]@)
}

/// The queue of outbound messages, oldest first.
pub struct AggregationChannel {
    queue: VecDeque<Payload>,
}

impl View for AggregationChannel {
    type V = Seq<Message>;

    closed spec fn view(&self) -> Seq<Message> {
        messages(self.queue@)
    }
}

impl AggregationChannel {
    /// An empty channel.
    pub fn new() -> (c: AggregationChannel)
        ensures
            c@ == Seq::<Message>::empty(),
    {
        let c = AggregationChannel { queue: VecDeque::new() };
        assert(c@ =~= Seq::<Message>::empty());
        c
    }

    /// The number of messages that wait.
    pub fn len(&self) -> (n: usize)
        ensures
            n == self@.len(),
    {
        self.queue.len()
    }

    /// Whether no message waits.
    pub fn is_empty(&self) -> (b: bool)
        ensures
            b == (self@.len() == 0),
    {
        self.queue.len() == 0
    }

    /// Puts `message` behind all that wait. This neither fails nor waits.
    pub fn send(&mut self, message: Payload)
        ensures
            final(self)@ == old(self)@.push(message@),
    {
        self.queue.push_back(message);
        assert(self@ =~= old(self)@.push(message@));
    }

    /// Takes the message that has waited longest, if there is one.
    pub fn receive(&mut self) -> (message: Option<Payload>)
        ensures
            match message {
                Some(p) => old(self)@.len() > 0 && p@ == old(self)@[0] && final(self)@ == old(self)@.drop_first(),
                None => old(self)@.len() == 0 && final(self)@ == old(self)@,
            },
    {
        let message = self.queue.pop_front();
        proof {
            if message is Some {
                assert(self@ =~= old(self)@.drop_first());
            }
        }
        message
    }
}

} // verus!
