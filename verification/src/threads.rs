//! The sensor workers. Each one is the decision logic of one periodic task:
//! the task itself sleeps, talks to its device and enqueues what the worker
//! hands it.

use crate::guard::{after_all, answer, inside, lemma_failure_is_final, Access, GuardEvent};
use crate::payload::{is_sentinel, Payload};
use vstd::prelude::*;

pub mod as3935;
pub mod bmp280;
pub mod geiger;
pub mod htu21d;
pub mod radiothermostat;
pub mod sds011;
pub mod sgp30;

verus! {

/// What a read from a serial port came back with.
#[derive(Debug)]
pub enum SerialRead<T> {
    /// This was read.
    Data(T),
    /// Nothing arrived in time, which is normal.
    TimedOut,
    /// The port failed.
    Failed,
}

/// What a worker does once the guard of the bus has answered.
#[derive(Debug)]
pub enum BusStep {
    /// The token is held: talk to the device, and hand the token back.
    Transact,
    /// Somebody else holds the token: ask again.
    Wait,
    /// The guard is broken: enqueue this message, the fault sentinel, and
    /// leave the bus alone from now on.
    Halt(Payload),
    /// The worker has halted before.
    Stopped,
}

/// The kinds of steps.
#[derive(Clone, Copy, Debug, PartialEq, Eq, Structural)]
pub enum StepKind {
    Transact,
    Wait,
    Halt,
    Stopped,
}

impl BusStep {
    /// The kind of this step.
    pub open spec fn kind(self) -> StepKind {
        match self {
            BusStep::Transact => StepKind::Transact,
            BusStep::Wait => StepKind::Wait,
            BusStep::Halt(_) => StepKind::Halt,
            BusStep::Stopped => StepKind::Stopped,
        }
    }

    /// Whether this step is what `next_step` has a worker do: of that
    /// kind, and with the fault sentinel where the worker halts.
    pub open spec fn follows(self, halted: bool, access: Access) -> bool {
        &&& self.kind() == next_step(halted, access)
        &&& self matches BusStep::Halt(sentinel) ==> is_sentinel(sentinel@)
    }
}

/// What a worker does once the guard has answered `access`: a worker that
/// has halted before does nothing, and a broken guard halts it.
pub open spec fn next_step(halted: bool, access: Access) -> StepKind {
    if halted {
        StepKind::Stopped
    } else {
        match access {
            Access::Granted => StepKind::Transact,
            Access::Busy => StepKind::Wait,
            Access::Broken => StepKind::Halt,
        }
    }
}

/// The fault sentinel protocol: once a worker has failed while it held the
/// token, every worker that asks for the bus afterwards halts, unless it has
/// halted before, and none is let onto the bus.
pub proof fn lemma_failure_halts_every_worker(
    events: Seq<GuardEvent>,
    i: int,
    j: int,
    w: u32,
    halted: bool,
)
    requires
        0 <= i < j <= events.len(),
        events[i] == GuardEvent::Fail(w),
        inside(events.take(i), w),
    ensures
        next_step(halted, answer(after_all(events.take(j)))) == if halted {
            StepKind::Stopped
        } else {
            StepKind::Halt
        },
{
    lemma_failure_is_final(events, i, j, w);
}

/// The part of a worker that deals with the guard of the bus.
#[derive(Debug)]
pub struct BusClient {
    worker: u32,
    halted: bool,
}

impl BusClient {
    /// The number by which the guard knows this worker.
    pub closed spec fn number(&self) -> u32 {
        self.worker
    }

    /// Whether the worker has met a broken guard.
    pub closed spec fn halted(&self) -> bool {
        self.halted
    }

    /// The client of the worker that the guard knows as `worker`.
    pub fn new(worker: u32) -> (c: BusClient)
        ensures
            c.number() == worker,
            !c.halted(),
    {
        BusClient { worker, halted: false }
    }

    /// The number by which the guard knows this worker.
    pub fn worker(&self) -> (w: u32)
        ensures
            w == self.number(),
    {
        self.worker
    }

    /// Whether the worker has met a broken guard.
    pub fn is_halted(&self) -> (b: bool)
        ensures
            b == self.halted(),
    {
        self.halted
    }

    /// What the worker does now that the guard has answered `access`. A
    /// broken guard halts the worker for good.
    pub fn on_access(&mut self, access: Access) -> (step: BusStep)
        ensures
            final(self).number() == old(self).number(),
            final(self).halted() == (old(self).halted() || access == Access::Broken),
            step.follows(old(self).halted(), access),
    {
        if self.halted {
            return BusStep::Stopped;
        }
        match access {
            Access::Granted => BusStep::Transact,
            Access::Busy => BusStep::Wait,
            Access::Broken => {
                self.halted = true;
                BusStep::Halt(Payload::poison())
            },
        }
    }
}

} // verus!
