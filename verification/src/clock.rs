//! The clock bridge: one callback bound to one single-shot timer that can be
//! armed again and again.

use vstd::prelude::*;

verus! {

/// What the bridge knows of its timer: the tick at which it is due, if it is
/// armed.
pub struct ClockState {
    pub pending: Option<u64>,
}

/// The tick at which a timer armed at `now` for `ticks` is due; the last tick
/// there is, where the sum would pass it.
pub open spec fn due(now: u64, ticks: u64) -> u64 {
    if now + ticks > u64::MAX { u64::MAX } else { (now + ticks) as u64 }
}

/// The state after arming: whatever was pending is replaced.
pub open spec fn delayed(s: ClockState, now: u64, ticks: u64) -> ClockState {
    ClockState { pending: Some(due(now, ticks)) }
}

/// Whether the timer goes off when the host's clock is served at `now`.
pub open spec fn goes_off(s: ClockState, now: u64) -> bool {
    s.pending.is_some() && s.pending.unwrap() <= now
}

/// The state after the host's clock is served at `now`: a timer that went
/// off is no longer pending.
pub open spec fn served(s: ClockState, now: u64) -> ClockState {
    if goes_off(s, now) { ClockState { pending: None } } else { s }
}

/// How often the callback runs while the clock is served at each of `polls`
/// in turn, with no arming in between.
pub open spec fn runs(s: ClockState, polls: Seq<u64>) -> nat
    decreases polls.len(),
{
    if polls.len() == 0 {
        0
    } else {
        let first: nat = if goes_off(s, polls[0]) { 1 } else { 0 };
        first + runs(served(s, polls[0]), polls.skip(1))
    }
}

/// A callback bound to a host timer.
pub struct ClockHandle {
    timer: usize,
    callback: usize,
    pending: Option<u64>,
}

impl ClockHandle {
    /// The host's timer object.
    pub closed spec fn timer(&self) -> usize {
        self.timer
    }

    /// The identity of the bound callback.
    pub closed spec fn callback(&self) -> usize {
        self.callback
    }

    /// Whether and for when the timer is armed.
    pub closed spec fn state(&self) -> ClockState {
        ClockState { pending: self.pending }
    }

    /// Binds a callback to a timer. The timer starts unarmed.
    pub fn bind(timer: usize, callback: usize) -> (c: ClockHandle)
        ensures
            c.timer() == timer,
            c.callback() == callback,
            c.state().pending.is_none(),
    {
        ClockHandle { timer, callback, pending: None }
    }

    /// The host's timer object.
    pub fn timer_handle(&self) -> (t: usize)
        ensures
            t == self.timer(),
    {
        self.timer
    }

    /// The tick at which the timer is due, if it is armed.
    pub fn deadline(&self) -> (d: Option<u64>)
        ensures
            d == self.state().pending,
    {
        self.pending
    }

    /// Arms the timer to go off `ticks` after `now`. A delay that was pending
    /// is dropped: there is one timer, not a queue.
    pub fn delay(&mut self, now: u64, ticks: u64)
        ensures
            final(self).state() == delayed(old(self).state(), now, ticks),
            final(self).timer() == old(self).timer(),
            final(self).callback() == old(self).callback(),
    {
        let at: u64 = if ticks > u64::MAX - now { u64::MAX } else { now + ticks };
        self.pending = Some(at);
    }

    /// Disarms the timer, as teardown must.
    pub fn cancel(&mut self)
        ensures
            final(self).state().pending.is_none(),
            final(self).timer() == old(self).timer(),
            final(self).callback() == old(self).callback(),
    {
        self.pending = None;
    }

    /// Serves the clock at `now`: gives the callback to run if the timer is
    /// due, and then the timer is no longer armed.
    pub fn fire(&mut self, now: u64) -> (run: Option<usize>)
        ensures
            final(self).state() == served(old(self).state(), now),
            final(self).timer() == old(self).timer(),
            final(self).callback() == old(self).callback(),
            goes_off(old(self).state(), now) ==> run == Some(old(self).callback()),
            !goes_off(old(self).state(), now) ==> run.is_none(),
    {
        match self.pending {
            Some(at) => {
                if at <= now {
                    self.pending = None;
                    Some(self.callback)
                } else {
                    None
                }
            },
            None => None,
        }
    }
}

/// An unarmed timer never runs its callback.
pub proof fn unarmed_never_runs(s: ClockState, polls: Seq<u64>)
    requires
        s.pending.is_none(),
    ensures
        runs(s, polls) == 0,
    decreases polls.len(),
{
    if polls.len() > 0 {
        unarmed_never_runs(served(s, polls[0]), polls.skip(1));
    }
}

/// An armed timer runs its callback once if the clock is ever served at or
/// after the tick at which it is due, and not at all otherwise.
pub proof fn armed_runs_once(s: ClockState, polls: Seq<u64>)
    requires
        s.pending.is_some(),
    ensures
        runs(s, polls) == if exists|i: int| 0 <= i < polls.len() && #[trigger] polls[i] >= s.pending.unwrap() {
            1nat
        } else {
            0nat
        },
    decreases polls.len(),
{
    let d = s.pending.unwrap();
    if polls.len() > 0 {
        let rest = polls.skip(1);
        if goes_off(s, polls[0]) {
            unarmed_never_runs(served(s, polls[0]), rest);
            assert(polls[0] >= d);
        } else {
            armed_runs_once(s, rest);
            if exists|i: int| 0 <= i < rest.len() && #[trigger] rest[i] >= d {
                let i = choose|i: int| 0 <= i < rest.len() && #[trigger] rest[i] >= d;
                assert(polls[i + 1] >= d);
            }
            if exists|i: int| 0 <= i < polls.len() && #[trigger] polls[i] >= d {
                let i = choose|i: int| 0 <= i < polls.len() && #[trigger] polls[i] >= d;
                assert(i > 0);
                assert(rest[i - 1] >= d);
            }
        }
    }
}

/// Arming twice before the timer goes off leaves one pending delay, that of
/// the second call: however the clock is then served, the callback runs at
/// most once, and it runs exactly when the clock is served at or after the
/// second call's tick.
pub proof fn rearm_replaces(s: ClockState, t0: u64, a: u64, t1: u64, b: u64, polls: Seq<u64>)
    ensures
        delayed(delayed(s, t0, a), t1, b).pending == Some(due(t1, b)),
        runs(delayed(delayed(s, t0, a), t1, b), polls) <= 1,
        runs(delayed(delayed(s, t0, a), t1, b), polls) == 1 <==> exists|i: int|
            0 <= i < polls.len() && #[trigger] polls[i] >= due(t1, b),
{
    armed_runs_once(delayed(delayed(s, t0, a), t1, b), polls);
}

} // verus!
