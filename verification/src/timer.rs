use vstd::prelude::*;

verus! {

/// Model of the runtime's one-shot timer primitive: started at some instant,
/// it fires once its deadline is reached. Instants and durations are in
/// milliseconds.
#[derive(Clone, Copy, Debug, PartialEq, Eq, Structural)]
pub struct Timer {
    /// the instant the timer was started
    pub start: u64,
    /// the instant from which on the timer counts as fired
    pub deadline: u64,
}

/// A timer is well formed when its deadline does not precede its start.
pub open spec fn timer_wf(t: Timer) -> bool {
    t.start <= t.deadline
}

/// The duration the timer was started for.
pub open spec fn spec_delay(t: Timer) -> int {
    t.deadline - t.start
}

/// Whether the timer counts as fired at instant `now`.
pub open spec fn spec_expired(t: Timer, now: u64) -> bool {
    now >= t.deadline
}

/// Start a timer at instant `now` for `delay` milliseconds.
pub fn start_timer(now: u64, delay: u64) -> (t: Timer)
    requires
        now + delay <= u64::MAX,
    ensures
        t.start == now,
        spec_delay(t) == delay,
        timer_wf(t),
{
    Timer { start: now, deadline: now + delay }
}

/// Ask whether the timer has fired at instant `now`.
pub fn poll_timer(t: &Timer, now: u64) -> (fired: bool)
    ensures
        fired == spec_expired(*t, now),
{
    now >= t.deadline
}

/// Lower bound: a timer never fires early. At any instant at which it counts
/// as fired, the time elapsed since its start is at least the delay it was
/// started for.
pub proof fn lemma_timer_lower_bound(t: Timer, now: u64)
    requires
        timer_wf(t),
        spec_expired(t, now),
    ensures
        now - t.start >= spec_delay(t),
{
}

/// Liveness: every timer has an instant at which it counts as fired, so a
/// task waiting on one is never suspended forever.
pub proof fn lemma_timer_fires(t: Timer)
    ensures
        exists|now: u64| spec_expired(t, now),
{
    assert(spec_expired(t, t.deadline));
}

} // verus!
