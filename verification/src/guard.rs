//! The guard of the shared bus: one token that a worker must hold while it
//! talks to a device on the bus.
//!
//! The guard is an explicit state machine. A worker that fails while it holds
//! the token breaks the guard for good, and every later request is answered
//! with `Access::Broken`.

use vstd::prelude::*;

verus! {

/// The state of the guard.
#[derive(Clone, Copy, Debug, PartialEq, Eq, Structural)]
pub enum GuardState {
    /// Nobody holds the token.
    Free,
    /// The worker with this number holds the token.
    Held(u32),
    /// A holder failed inside its critical section.
    Broken,
}

/// The answer to a request for the token.
#[derive(Clone, Copy, Debug, PartialEq, Eq, Structural)]
pub enum Access {
    /// The caller now holds the token.
    Granted,
    /// Somebody holds the token; ask again.
    Busy,
    /// The guard is broken and stays so.
    Broken,
}

/// What a worker can do to the guard.
#[derive(Clone, Copy, Debug, PartialEq, Eq, Structural)]
pub enum GuardEvent {
    /// The worker asks for the token.
    Acquire(u32),
    /// The worker hands the token back after a clean critical section.
    Release(u32),
    /// The worker's critical section failed.
    Fail(u32),
}

/// The answer that a guard in state `s` gives to a request.
pub open spec fn answer(s: GuardState) -> Access {
    match s {
        GuardState::Free => Access::Granted,
        GuardState::Held(_) => Access::Busy,
        GuardState::Broken => Access::Broken,
    }
}

/// The state that follows `s` when `e` happens. Only the holder can hand the
/// token back or break the guard.
pub open spec fn after(s: GuardState, e: GuardEvent) -> GuardState {
    match e {
        GuardEvent::Acquire(w) => match s {
            GuardState::Free => GuardState::Held(w),
            _ => s,
        },
        GuardEvent::Release(w) => if s == GuardState::Held(w) {
            GuardState::Free
        } else {
            s
        },
        GuardEvent::Fail(w) => if s == GuardState::Held(w) {
            GuardState::Broken
        } else {
            s
        },
    }
}

/// The state of a guard that started free and has seen `events`.
pub open spec fn after_all(events: Seq<GuardEvent>) -> GuardState
    decreases events.len(),
{
    if events.len() == 0 {
        GuardState::Free
    } else {
        after(after_all(events.drop_last()), events.last())
    }
}

/// Whether worker `w` is inside a critical section once `events` have
/// happened: its latest event is a request that was granted.
pub open spec fn inside(events: Seq<GuardEvent>, w: u32) -> bool
    decreases events.len(),
{
    if events.len() == 0 {
        false
    } else {
        let earlier = events.drop_last();
        match events.last() {
            GuardEvent::Acquire(v) => if v == w {
                answer(after_all(earlier)) == Access::Granted || inside(earlier, w)
            } else {
                inside(earlier, w)
            },
            GuardEvent::Release(v) => v != w && inside(earlier, w),
            GuardEvent::Fail(v) => v != w && inside(earlier, w),
        }
    }
}

/// A worker is inside a critical section exactly while the guard records it
/// as the holder.
pub proof fn lemma_inside_is_holder(events: Seq<GuardEvent>, w: u32)
    ensures
        inside(events, w) <==> after_all(events) == GuardState::Held(w),
    decreases events.len(),
{
    if events.len() > 0 {
        lemma_inside_is_holder(events.drop_last(), w);
    }
}

/// Mutual exclusion: whatever the workers do and in whatever order, no two of
/// them are inside a critical section at once.
pub proof fn lemma_mutual_exclusion(events: Seq<GuardEvent>, a: u32, b: u32)
    requires
        inside(events, a),
        inside(events, b),
    ensures
        a == b,
{
    lemma_inside_is_holder(events, a);
    lemma_inside_is_holder(events, b);
}

/// A broken guard stays broken.
pub proof fn lemma_broken_stays(events: Seq<GuardEvent>, i: int)
    requires
        0 <= i <= events.len(),
        after_all(events.take(i)) == GuardState::Broken,
    ensures
        after_all(events) == GuardState::Broken,
    decreases events.len(),
{
    if i == events.len() {
        assert(events.take(i) =~= events);
    } else {
        assert(events.drop_last().take(i) =~= events.take(i));
        lemma_broken_stays(events.drop_last(), i);
    }
}

/// No resurrection: once a worker has failed while it held the token, every
/// later request, from whichever worker, is answered with `Broken`, and nobody
/// is inside a critical section any more.
pub proof fn lemma_failure_is_final(events: Seq<GuardEvent>, i: int, j: int, w: u32)
    requires
        0 <= i < j <= events.len(),
        events[i] == GuardEvent::Fail(w),
        inside(events.take(i), w),
    ensures
        answer(after_all(events.take(j))) == Access::Broken,
        forall|v: u32| !inside(events.take(j), v),
{
    lemma_inside_is_holder(events.take(i), w);
    let upto = events.take(i + 1);
    assert(upto.drop_last() =~= events.take(i));
    assert(upto.last() == events[i]);
    assert(after_all(upto) == GuardState::Broken);
    let seen = events.take(j);
    assert(seen.take(i + 1) =~= upto);
    lemma_broken_stays(seen, i + 1);
    assert forall|v: u32| !inside(seen, v) by {
        lemma_inside_is_holder(seen, v);
    }
}

/// The guard of the shared bus.
#[derive(Debug)]
pub struct BusGuard {
    state: GuardState,
}

impl View for BusGuard {
    type V = GuardState;

    closed spec fn view(&self) -> GuardState {
        self.state
    }
}

impl BusGuard {
    /// A guard that nobody holds.
    pub fn new() -> (g: BusGuard)
        ensures
            g@ == GuardState::Free,
    {
        BusGuard { state: GuardState::Free }
    }

    /// The state of the guard.
    pub fn state(&self) -> (s: GuardState)
        ensures
            s == self@,
    {
        self.state
    }

    /// Asks for the token on behalf of `worker`.
    pub fn acquire(&mut self, worker: u32) -> (access: Access)
        ensures
            access == answer(old(self)@),
            final(self)@ == after(old(self)@, GuardEvent::Acquire(worker)),
    {
        match self.state {
            GuardState::Free => {
                self.state = GuardState::Held(worker);
                Access::Granted
            },
            GuardState::Held(_) => Access::Busy,
            GuardState::Broken => Access::Broken,
        }
    }

    /// Hands the token back after a clean critical section. Returns whether
    /// `worker` held it; if not, nothing changes.
    pub fn release(&mut self, worker: u32) -> (released: bool)
        ensures
            released == (old(self)@ == GuardState::Held(worker)),
            final(self)@ == after(old(self)@, GuardEvent::Release(worker)),
    {
        match self.state {
            GuardState::Held(holder) => {
                if holder == worker {
                    self.state = GuardState::Free;
                    true
                } else {
                    false
                }
            },
            _ => false,
        }
    }

    /// Records that the critical section of `worker` failed. Returns whether
    /// `worker` held the token, in which case the guard is now broken; if
    /// not, nothing changes.
    pub fn fail(&mut self, worker: u32) -> (broke: bool)
        ensures
            broke == (old(self)@ == GuardState::Held(worker)),
            final(self)@ == after(old(self)@, GuardEvent::Fail(worker)),
    {
        match self.state {
            GuardState::Held(holder) => {
                if holder == worker {
                    self.state = GuardState::Broken;
                    true
                } else {
                    false
                }
            },
            _ => false,
        }
    }

    /// Lets `event` happen. For a request the result is the answer given.
    pub fn apply(&mut self, event: GuardEvent) -> (access: Option<Access>)
        ensures
            final(self)@ == after(old(self)@, event),
            access == match event {
                GuardEvent::Acquire(_) => Some(answer(old(self)@)),
                _ => None::<Access>,
            },
    {
        match event {
            GuardEvent::Acquire(w) => Some(self.acquire(w)),
            GuardEvent::Release(w) => {
                self.release(w);
                None
            },
            GuardEvent::Fail(w) => {
                self.fail(w);
                None
            },
        }
    }
}

} // verus!
