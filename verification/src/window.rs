//! A bounded window over the most recent samples of one quantity, and its mean.

use std::collections::VecDeque;
use vstd::prelude::*;

verus! {

/// What a window holds after `sample` arrives, if it held `held` (newest
/// first) and has room for `capacity` samples: the new sample in front, and
/// the oldest one gone if there was no room left.
pub open spec fn pushed<T>(held: Seq<T>, capacity: nat, sample: T) -> Seq<T> {
    let all = seq![sample] + held;
    if all.len() <= capacity {
        all
    } else {
        all.take(capacity as int)
    }
}

/// What a window with room for `capacity` samples holds, newest first, once
/// the samples of `arrivals` have been pushed into it in order, if it held
/// `held` before.
pub open spec fn after_pushes<T>(held: Seq<T>, capacity: nat, arrivals: Seq<T>) -> Seq<T>
    decreases arrivals.len(),
{
    if arrivals.len() == 0 {
        held
    } else {
        pushed(after_pushes(held, capacity, arrivals.drop_last()), capacity, arrivals.last())
    }
}

/// The last `capacity` samples of `arrivals`, or all of them if there are
/// fewer, newest first.
pub open spec fn most_recent<T>(capacity: nat, arrivals: Seq<T>) -> Seq<T> {
    let kept = if arrivals.len() <= capacity {
        arrivals.len()
    } else {
        capacity
    };
    Seq::new(kept, |i: int| arrivals[arrivals.len() - 1 - i])
}

/// The sum of `samples`.
pub open spec fn total(samples: Seq<u32>) -> nat
    decreases samples.len(),
{
    if samples.len() == 0 {
        0
    } else {
        total(samples.drop_last()) + samples.last() as nat
    }
}

/// The arithmetic mean of `samples`, rounded down. Meant for a sequence that
/// is not empty.
pub open spec fn mean_of(samples: Seq<u32>) -> nat {
    total(samples) / samples.len()
}

/// A sum of 32-bit samples is at most as many times the largest sample.
pub proof fn lemma_total_bound(samples: Seq<u32>)
    ensures
        total(samples) <= samples.len() * 0xFFFF_FFFF,
    decreases samples.len(),
{
    if samples.len() > 0 {
        lemma_total_bound(samples.drop_last());
    }
}

/// The mean of 32-bit samples is a 32-bit number.
pub proof fn lemma_mean_bound(samples: Seq<u32>)
    requires
        samples.len() > 0,
    ensures
        mean_of(samples) <= 0xFFFF_FFFF,
{
    lemma_total_bound(samples);
    let t = total(samples) as int;
    let n = samples.len() as int;
    assert(t / n <= 0xFFFF_FFFF) by (nonlinear_arith)
        requires
            n > 0,
            0 <= t <= n * 0xFFFF_FFFF,
    ;
}

/// Eviction: whatever was pushed, and however much of it, the window holds
/// exactly the most recent samples, as many as it has room for. What it held
/// before counts as pushed before.
pub proof fn lemma_window_keeps_most_recent<T>(held: Seq<T>, capacity: nat, arrivals: Seq<T>)
    requires
        held.len() <= capacity,
    ensures
        after_pushes(held, capacity, arrivals) == most_recent(capacity, held.reverse() + arrivals),
    decreases arrivals.len(),
{
    let history = held.reverse() + arrivals;
    if arrivals.len() == 0 {
        assert(after_pushes(held, capacity, arrivals) =~= most_recent(capacity, history));
    } else {
        let earlier = held.reverse() + arrivals.drop_last();
        lemma_window_keeps_most_recent(held, capacity, arrivals.drop_last());
        assert(history.drop_last() =~= earlier);
        let before = most_recent(capacity, earlier);
        let now = pushed(before, capacity, arrivals.last());
        let want = most_recent(capacity, history);
        assert(now.len() == want.len());
        assert forall|i: int| 0 <= i < now.len() implies now[i] == want[i] by {
            if i > 0 {
                assert(now[i] == before[i - 1]);
                assert(before[i - 1] == earlier[earlier.len() - 1 - (i - 1)]);
            }
        }
        assert(now =~= want);
    }
}

/// One push more than the window has room for: the first sample is gone, the
/// others are all there, and the mean is that of the others alone.
pub proof fn lemma_one_push_too_many(capacity: nat, arrivals: Seq<u32>)
    requires
        capacity > 0,
        arrivals.len() == capacity + 1,
    ensures
        after_pushes(Seq::<u32>::empty(), capacity, arrivals) == arrivals.drop_first().reverse(),
        after_pushes(Seq::<u32>::empty(), capacity, arrivals).len() == capacity,
        mean_of(after_pushes(Seq::<u32>::empty(), capacity, arrivals)) == mean_of(
            arrivals.drop_first().reverse(),
        ),
{
    lemma_window_keeps_most_recent(Seq::<u32>::empty(), capacity, arrivals);
    assert(Seq::<u32>::empty().reverse() + arrivals =~= arrivals);
    assert(most_recent(capacity, arrivals) =~= arrivals.drop_first().reverse());
}

/// As many pushes as the window has room for, or more, leave nothing of what
/// it held before: a report made after a full round of samples is about that
/// round alone.
pub proof fn lemma_full_round_forgets<T>(held: Seq<T>, capacity: nat, arrivals: Seq<T>)
    requires
        held.len() <= capacity,
        arrivals.len() >= capacity,
    ensures
        after_pushes(held, capacity, arrivals) == most_recent(capacity, arrivals),
{
    lemma_window_keeps_most_recent(held, capacity, arrivals);
    assert(most_recent(capacity, held.reverse() + arrivals) =~= most_recent(capacity, arrivals));
}

/// The most recent samples of one quantity, newest first, never more than the
/// capacity the window was made with.
pub struct RollingWindow<T> {
    samples: VecDeque<T>,
    capacity: usize,
}

impl<T> View for RollingWindow<T> {
    type V = Seq<T>;

    closed spec fn view(&self) -> Seq<T> {
        self.samples@
    }
}

impl<T> RollingWindow<T> {
    #[verifier::type_invariant]
    spec fn within_capacity(self) -> bool {
        self.samples@.len() <= self.capacity
    }

    /// The number of samples the window has room for.
    pub closed spec fn room(&self) -> nat {
        self.capacity as nat
    }

    /// An empty window with room for `capacity` samples.
    pub fn new(capacity: usize) -> (w: RollingWindow<T>)
        ensures
            w@ == Seq::<T>::empty(),
            w.room() == capacity,
    {
        RollingWindow { samples: VecDeque::new(), capacity }
    }

    /// The number of samples the window has room for.
    pub fn capacity(&self) -> (c: usize)
        ensures
            c == self.room(),
    {
        self.capacity
    }

    /// The number of samples held.
    pub fn len(&self) -> (n: usize)
        ensures
            n == self@.len(),
            n <= self.room(),
    {
        proof {
            use_type_invariant(self);
        }
        self.samples.len()
    }

    /// Whether no sample is held.
    pub fn is_empty(&self) -> (b: bool)
        ensures
            b == (self@.len() == 0),
    {
        self.samples.len() == 0
    }

    /// Puts `sample` in front; if the window was full, the oldest sample leaves.
    pub fn push(&mut self, sample: T)
        ensures
            final(self)@ == pushed(old(self)@, old(self).room(), sample),
            final(self).room() == old(self).room(),
    {
        proof {
            use_type_invariant(&*self);
        }
        if self.capacity == 0 {
            assert(pushed(self.samples@, 0, sample) =~= self.samples@);
            return ;
        }
        let mut samples: VecDeque<T> = VecDeque::new();
        std::mem::swap(&mut self.samples, &mut samples);
        if samples.len() >= self.capacity {
            samples.truncate(self.capacity - 1);
        }
        samples.push_front(sample);
        assert(samples@ =~= pushed(old(self).samples@, self.capacity as nat, sample));
        self.samples = samples;
    }
}

impl<T: Copy> RollingWindow<T> {
    /// The samples held, newest first.
    pub fn samples(&self) -> (v: Vec<T>)
        ensures
            v@ == self@,
    {
        let mut v: Vec<T> = Vec::new();
        let mut i: usize = 0;
        while i < self.samples.len()
            invariant
                i <= self.samples@.len(),
                v@ == self.samples@.take(i as int),
            decreases self.samples@.len() - i,
        {
            v.push(self.samples[i]);
            assert(v@ =~= self.samples@.take(i + 1));
            i = i + 1;
        }
        assert(self.samples@.take(self.samples@.len() as int) =~= self.samples@);
        v
    }
}

impl RollingWindow<u32> {
    /// The mean of the samples held, rounded down; `None` while there is none.
    pub fn mean(&self) -> (m: Option<u32>)
        ensures
            match m {
                Some(x) => self@.len() > 0 && x == mean_of(self@),
                None => self@.len() == 0,
            },
    {
        let n: usize = self.samples.len();
        if n == 0 {
            return None;
        }
        let mut sum: u128 = 0;
        let mut i: usize = 0;
        assert(self.samples@.take(0) =~= Seq::<u32>::empty());
        while i < n
            invariant
                i <= n == self.samples@.len(),
                sum == total(self.samples@.take(i as int)),
                sum <= i * 0xFFFF_FFFF,
            decreases n - i,
        {
            assert(self.samples@.take(i + 1).drop_last() =~= self.samples@.take(i as int));
            sum = sum + self.samples[i] as u128;
            i = i + 1;
        }
        assert(self.samples@.take(n as int) =~= self.samples@);
        proof {
            lemma_mean_bound(self.samples@);
        }
        Some((sum / (n as u128)) as u32)
    }
}

} // verus!
