//! The publisher: the single consumer of the aggregation channel.
//!
//! For each message it decides between delivery and, for the fault sentinel,
//! the end of the process. A delivery is attempted a fixed number of times; a
//! message that no attempt delivered is dropped.

use crate::channel::{messages, AggregationChannel};
use crate::payload::{is_sentinel, Message, Payload};
use vstd::prelude::*;

verus! {

/// How often and for how long the publisher tries to deliver one message.
#[derive(Clone, Copy, Debug, PartialEq, Eq, Structural)]
pub struct RetryPolicy {
    /// The number of attempts after which a message is dropped.
    pub max_attempts: u32,
    /// How long one attempt may wait for the broker's acknowledgement.
    pub timeout_ms: u32,
}

/// Where the delivery of one message stands.
#[derive(Clone, Copy, Debug, PartialEq, Eq, Structural)]
pub enum Delivery {
    /// The attempt with this number, counted from one, is due.
    Attempt(u32),
    /// The broker acknowledged the attempt with this number.
    Delivered(u32),
    /// This many attempts failed and the message is given up.
    Dropped(u32),
}

/// Where a delivery that stands at `state` stands once the attempt that was
/// due has ended, acknowledged or not. A delivery that is over stays as it is.
pub open spec fn after_attempt(policy: RetryPolicy, state: Delivery, acknowledged: bool) -> Delivery {
    match state {
        Delivery::Attempt(n) => if acknowledged {
            Delivery::Delivered(n)
        } else if n >= policy.max_attempts {
            Delivery::Dropped(n)
        } else {
            Delivery::Attempt((n + 1) as u32)
        },
        _ => state,
    }
}

/// Where a delivery starts: with the first attempt, unless the policy allows none.
pub open spec fn start_of(policy: RetryPolicy) -> Delivery {
    if policy.max_attempts == 0 {
        Delivery::Dropped(0)
    } else {
        Delivery::Attempt(1)
    }
}

/// Where a delivery stands once the attempts made so far have ended as
/// `results` says, one entry for each attempt, in order.
pub open spec fn after_attempts(policy: RetryPolicy, results: Seq<bool>) -> Delivery
    decreases results.len(),
{
    if results.len() == 0 {
        start_of(policy)
    } else {
        after_attempt(policy, after_attempts(policy, results.drop_last()), results.last())
    }
}

/// While every attempt fails and the policy allows another, the next one is due.
pub proof fn lemma_all_failed(policy: RetryPolicy, results: Seq<bool>)
    requires
        forall|i: int| 0 <= i < results.len() ==> !results[i],
    ensures
        after_attempts(policy, results) == if results.len() < policy.max_attempts {
            Delivery::Attempt((results.len() + 1) as u32)
        } else {
            Delivery::Dropped(policy.max_attempts)
        },
    decreases results.len(),
{
    if results.len() > 0 {
        lemma_all_failed(policy, results.drop_last());
    }
}

/// A delivery that is over is not changed by what is reported afterwards.
pub proof fn lemma_outcome_stays(policy: RetryPolicy, results: Seq<bool>, k: int)
    requires
        0 <= k <= results.len(),
        !(after_attempts(policy, results.take(k)) is Attempt),
    ensures
        after_attempts(policy, results) == after_attempts(policy, results.take(k)),
    decreases results.len(),
{
    if k == results.len() {
        assert(results.take(k) =~= results);
    } else {
        assert(results.drop_last().take(k) =~= results.take(k));
        lemma_outcome_stays(policy, results.drop_last(), k);
    }
}

/// Bounded retries: a message is delivered by the first attempt that the
/// broker acknowledges, provided it is among the attempts that the policy
/// allows, and nothing is tried after it.
pub proof fn lemma_delivered_at_first_success(policy: RetryPolicy, results: Seq<bool>, k: int)
    requires
        0 <= k < results.len(),
        k < policy.max_attempts,
        results[k],
        forall|i: int| 0 <= i < k ==> !results[i],
    ensures
        after_attempts(policy, results) == Delivery::Delivered((k + 1) as u32),
{
    let failed = results.take(k);
    lemma_all_failed(policy, failed);
    let upto = results.take(k + 1);
    assert(upto.drop_last() =~= failed);
    assert(upto.last() == results[k]);
    lemma_outcome_stays(policy, results, k + 1);
}

/// Bounded retries: a message that as many attempts as the policy allows have
/// failed to deliver is dropped, whatever is reported afterwards.
pub proof fn lemma_dropped_when_exhausted(policy: RetryPolicy, results: Seq<bool>)
    requires
        results.len() >= policy.max_attempts,
        forall|i: int| 0 <= i < policy.max_attempts ==> !results[i],
    ensures
        after_attempts(policy, results) == Delivery::Dropped(policy.max_attempts),
{
    let failed = results.take(policy.max_attempts as int);
    lemma_all_failed(policy, failed);
    lemma_outcome_stays(policy, results, policy.max_attempts as int);
}

impl RetryPolicy {
    /// The publisher's policy: five attempts of one second each.
    pub fn standard() -> (p: RetryPolicy)
        ensures
            p == (RetryPolicy { max_attempts: 5, timeout_ms: 1000 }),
    {
        RetryPolicy { max_attempts: 5, timeout_ms: 1000 }
    }

    /// Where the delivery of a message starts.
    pub fn start(&self) -> (d: Delivery)
        ensures
            d == start_of(*self),
    {
        if self.max_attempts == 0 {
            Delivery::Dropped(0)
        } else {
            Delivery::Attempt(1)
        }
    }

    /// Where the delivery stands once the attempt that was due at `state` has
    /// ended: `acknowledged` says whether the broker confirmed it.
    pub fn on_result(&self, state: Delivery, acknowledged: bool) -> (d: Delivery)
        ensures
            d == after_attempt(*self, state, acknowledged),
    {
        match state {
            Delivery::Attempt(n) => {
                if acknowledged {
                    Delivery::Delivered(n)
                } else if n >= self.max_attempts {
                    Delivery::Dropped(n)
                } else {
                    Delivery::Attempt(n + 1)
                }
            },
            _ => state,
        }
    }

    /// Where a delivery stands once the attempts made so far have ended as
    /// `results` says.
    pub fn replay(&self, results: &Vec<bool>) -> (d: Delivery)
        ensures
            d == after_attempts(*self, results@),
    {
        let mut state = self.start();
        let mut i: usize = 0;
        assert(results@.take(0) =~= Seq::<bool>::empty());
        while i < results.len()
            invariant
                i <= results.len(),
                state == after_attempts(*self, results@.take(i as int)),
            decreases results.len() - i,
        {
            assert(results@.take(i + 1).drop_last() =~= results@.take(i as int));
            state = self.on_result(state, results[i]);
            i = i + 1;
        }
        assert(results@.take(results.len() as int) =~= results@);
        state
    }
}

/// What the publisher does with one message.
#[derive(Clone, Copy, Debug, PartialEq, Eq, Structural)]
pub enum Dispatch {
    /// Hand the message to the broker.
    Deliver,
    /// End the process.
    Terminate,
}

/// What the publisher does with `message`: the fault sentinel ends the
/// process, everything else is delivered.
pub fn dispatch(message: &Payload) -> (d: Dispatch)
    ensures
        d == if is_sentinel(message@) {
            Dispatch::Terminate
        } else {
            Dispatch::Deliver
        },
{
    if message.is_poison() {
        Dispatch::Terminate
    } else {
        Dispatch::Deliver
    }
}

/// What the publisher gets through of `queue`, oldest first.
pub struct Drained {
    /// The messages handed to the broker, in order.
    pub delivered: Seq<Message>,
    /// Whether the publisher met the fault sentinel and ended the process.
    pub terminated: bool,
    /// The messages that still wait.
    pub left: Seq<Message>,
}

/// The publisher takes message after message from the front of `queue` until
/// it has taken the fault sentinel or the queue is empty.
pub open spec fn drained(queue: Seq<Message>) -> Drained
    decreases queue.len(),
{
    if queue.len() == 0 {
        Drained { delivered: Seq::empty(), terminated: false, left: Seq::empty() }
    } else if is_sentinel(queue[0]) {
        Drained { delivered: Seq::empty(), terminated: true, left: queue.drop_first() }
    } else {
        let rest = drained(queue.drop_first());
        Drained {
            delivered: seq![queue[0]] + rest.delivered,
            terminated: rest.terminated,
            left: rest.left,
        }
    }
}

/// Fail-fast: a fault sentinel in the queue ends the process where it is
/// taken from the queue. The messages queued before the first sentinel are
/// delivered, in their order, and none of those queued behind it is.
pub proof fn lemma_sentinel_ends_delivery(queue: Seq<Message>, k: int)
    requires
        0 <= k < queue.len(),
        is_sentinel(queue[k]),
        forall|i: int| 0 <= i < k ==> !is_sentinel(queue[i]),
    ensures
        drained(queue).terminated,
        drained(queue).delivered == queue.take(k),
        drained(queue).left == queue.skip(k + 1),
    decreases queue.len(),
{
    if k == 0 {
        assert(queue.take(0) =~= Seq::<Message>::empty());
        assert(queue.drop_first() =~= queue.skip(1));
    } else {
        let rest = queue.drop_first();
        assert(rest[k - 1] == queue[k]);
        assert forall|i: int| 0 <= i < k - 1 implies !is_sentinel(rest[i]) by {
            assert(rest[i] == queue[i + 1]);
        }
        lemma_sentinel_ends_delivery(rest, k - 1);
        assert(seq![queue[0]] + rest.take(k - 1) =~= queue.take(k));
        assert(rest.skip(k) =~= queue.skip(k + 1));
    }
}

/// Without a fault sentinel in the queue, every message is delivered, in
/// order, and the process goes on.
pub proof fn lemma_all_delivered_without_sentinel(queue: Seq<Message>)
    requires
        forall|i: int| 0 <= i < queue.len() ==> !is_sentinel(queue[i]),
    ensures
        !drained(queue).terminated,
        drained(queue).delivered == queue,
        drained(queue).left == Seq::<Message>::empty(),
    decreases queue.len(),
{
    if queue.len() > 0 {
        let rest = queue.drop_first();
        assert forall|i: int| 0 <= i < rest.len() implies !is_sentinel(rest[i]) by {
            assert(rest[i] == queue[i + 1]);
        }
        lemma_all_delivered_without_sentinel(rest);
        assert(seq![queue[0]] + rest =~= queue);
    }
}

/// What the publisher does next.
#[derive(Debug)]
pub enum PublisherStep {
    /// No message waits.
    Idle,
    /// Deliver this message, which has left the channel.
    Deliver(Payload),
    /// The fault sentinel was taken from the channel: end the process.
    Terminate,
}

/// What a step of the publisher says.
pub enum Step {
    Idle,
    Deliver(Message),
    Terminate,
}

impl View for PublisherStep {
    type V = Step;

    open spec fn view(&self) -> Step {
        match self {
            PublisherStep::Idle => Step::Idle,
            PublisherStep::Deliver(p) => Step::Deliver(p@),
            PublisherStep::Terminate => Step::Terminate,
        }
    }
}

/// The step that a publisher takes when `queue` waits: it delivers the
/// message in front, unless that is the fault sentinel, which ends the
/// process. A publisher that has `terminated` before does nothing else.
pub open spec fn step_taken(terminated: bool, queue: Seq<Message>) -> Step {
    if terminated {
        Step::Terminate
    } else if queue.len() == 0 {
        Step::Idle
    } else if is_sentinel(queue[0]) {
        Step::Terminate
    } else {
        Step::Deliver(queue[0])
    }
}

/// What is left of `queue` when the publisher has taken its step: the
/// message in front is gone, unless the publisher had `terminated` before.
pub open spec fn left_by_step(terminated: bool, queue: Seq<Message>) -> Seq<Message> {
    if terminated || queue.len() == 0 {
        queue
    } else {
        queue.drop_first()
    }
}

/// The publisher. Once it has met the fault sentinel it takes nothing from
/// the channel any more.
#[derive(Debug)]
pub struct Publisher {
    policy: RetryPolicy,
    terminated: bool,
}

impl Publisher {
    /// Whether the publisher has met the fault sentinel.
    pub closed spec fn has_terminated(&self) -> bool {
        self.terminated
    }

    /// The policy that the publisher was made with.
    pub closed spec fn retry_policy(&self) -> RetryPolicy {
        self.policy
    }

    /// A publisher that delivers by `policy`.
    pub fn new(policy: RetryPolicy) -> (p: Publisher)
        ensures
            !p.has_terminated(),
            p.retry_policy() == policy,
    {
        Publisher { policy, terminated: false }
    }

    /// The policy by which messages are delivered.
    pub fn policy(&self) -> (p: RetryPolicy)
        ensures
            p == self.retry_policy(),
    {
        self.policy
    }

    /// Whether the publisher has met the fault sentinel.
    pub fn is_terminated(&self) -> (b: bool)
        ensures
            b == self.has_terminated(),
    {
        self.terminated
    }

    /// Takes the next message from `channel` and says what to do with it.
    pub fn next(&mut self, channel: &mut AggregationChannel) -> (step: PublisherStep)
        ensures
            step@ == step_taken(old(self).has_terminated(), old(channel)@),
            final(channel)@ == left_by_step(old(self).has_terminated(), old(channel)@),
            final(self).has_terminated() == (step@ is Terminate),
            final(self).retry_policy() == old(self).retry_policy(),
    {
        if self.terminated {
            return PublisherStep::Terminate;
        }
        match channel.receive() {
            None => PublisherStep::Idle,
            Some(message) => {
                if message.is_poison() {
                    self.terminated = true;
                    PublisherStep::Terminate
                } else {
                    PublisherStep::Deliver(message)
                }
            },
        }
    }

    /// Takes messages from `channel` until the fault sentinel has been taken
    /// or none waits, and returns those to deliver, in order. A publisher
    /// that has met the sentinel before takes nothing.
    pub fn drain(&mut self, channel: &mut AggregationChannel) -> (delivered: Vec<Payload>)
        ensures
            final(self).retry_policy() == old(self).retry_policy(),
            !old(self).has_terminated() ==> {
                &&& messages(delivered@) == drained(old(channel)@).delivered
                &&& final(self).has_terminated() == drained(old(channel)@).terminated
                &&& final(channel)@ == drained(old(channel)@).left
            },
            old(self).has_terminated() ==> {
                &&& delivered@.len() == 0
                &&& final(self).has_terminated()
                &&& final(channel)@ == old(channel)@
            },
    {
        if self.terminated {
            return Vec::new();
        }
        let mut delivered: Vec<Payload> = Vec::new();
        let ghost start = channel@;
        assert(messages(delivered@) =~= Seq::<Message>::empty());
        loop
            invariant_except_break
                !self.has_terminated(),
                drained(start).delivered == messages(delivered@) + drained(
                    channel@,
                ).delivered,
                drained(start).terminated == drained(channel@).terminated,
                drained(start).left == drained(channel@).left,
            invariant
                self.retry_policy() == old(self).retry_policy(),
                start == old(channel)@,
            ensures
                messages(delivered@) == drained(start).delivered,
                self.has_terminated() == drained(start).terminated,
                channel@ == drained(start).left,
                self.retry_policy() == old(self).retry_policy(),
            decreases channel@.len(),
        {
            let ghost before = channel@;
            let ghost sent = messages(delivered@);
            match self.next(channel) {
                PublisherStep::Idle => {
                    assert(sent + Seq::<Message>::empty() =~= sent);
                    break ;
                },
                PublisherStep::Terminate => {
                    assert(sent + Seq::<Message>::empty() =~= sent);
                    break ;
                },
                PublisherStep::Deliver(message) => {
                    delivered.push(message);
                    assert(messages(delivered@) =~= sent.push(before[0]));
                    assert(sent + (seq![before[0]] + drained(channel@).delivered) =~= sent.push(
                        before[0],
                    ) + drained(channel@).delivered);
                },
            }
        }
        delivered
    }
}

} // verus!
