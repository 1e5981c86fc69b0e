use vstd::prelude::*;

use crate::errors::IntervalError;

verus! {

/// Smallest polling interval a caller may set, in seconds.
pub const MIN_INTERVAL_SECONDS: u64 = 10;

/// Largest polling interval a caller may set, in seconds.
pub const MAX_INTERVAL_SECONDS: u64 = 600;

/// Interval the coordinator starts with, in seconds.
pub const DEFAULT_INTERVAL_SECONDS: u64 = 60;

/// Intervals the polling directive accepts.
pub open spec fn interval_in_range(seconds: u64) -> bool {
    MIN_INTERVAL_SECONDS <= seconds <= MAX_INTERVAL_SECONDS
}

/// The only runtime-mutable scheduling input of the coordinator: the timer
/// interval plus a single-slot manual-refresh signal. Requests that arrive
/// while one is already pending coalesce into that one slot; nothing queues.
#[derive(Clone, Copy, Debug, PartialEq, Eq, Structural)]
pub struct PollingControl {
    /// Seconds the next wait will last if no other trigger fires first.
    pub interval_seconds: u64,
    /// Whether a manual refresh is waiting to be consumed.
    pub refresh_pending: bool,
}

impl PollingControl {
    /// A directive with the default interval and no pending refresh.
    pub fn new() -> (c: Self)
        ensures
            c.interval_seconds == DEFAULT_INTERVAL_SECONDS,
            !c.refresh_pending,
    {
        PollingControl { interval_seconds: DEFAULT_INTERVAL_SECONDS, refresh_pending: false }
    }

    /// The directive after a refresh request: the slot is full, the interval
    /// untouched.
    pub open spec fn requested(self) -> Self {
        PollingControl { interval_seconds: self.interval_seconds, refresh_pending: true }
    }

    /// Replaces the polling interval. Values outside the accepted range are
    /// rejected and leave the directive unchanged; an accepted value governs
    /// the next wait, never the one already in progress.
    pub fn set_polling_interval(&mut self, seconds: u64) -> (r: Result<(), IntervalError>)
        ensures
            interval_in_range(seconds) ==> {
                &&& r is Ok
                &&& final(self).interval_seconds == seconds
                &&& final(self).refresh_pending == old(self).refresh_pending
            },
            !interval_in_range(seconds) ==> {
                &&& r == Err::<(), IntervalError>(IntervalError::OutOfRange)
                &&& *final(self) == *old(self)
            },
    {
        if seconds < MIN_INTERVAL_SECONDS || seconds > MAX_INTERVAL_SECONDS {
            Err(IntervalError::OutOfRange)
        } else {
            self.interval_seconds = seconds;
            Ok(())
        }
    }

    /// Requests an immediate refresh. Always succeeds; repeated requests
    /// before the signal is consumed collapse into one.
    pub fn force_refresh(&mut self)
        ensures
            *final(self) == old(self).requested(),
    {
        self.refresh_pending = true;
    }

    /// Consumes the refresh slot, reporting whether a request was pending.
    pub fn take_refresh_request(&mut self) -> (was_pending: bool)
        ensures
            was_pending == old(self).refresh_pending,
            !final(self).refresh_pending,
            final(self).interval_seconds == old(self).interval_seconds,
    {
        let was_pending = self.refresh_pending;
        self.refresh_pending = false;
        was_pending
    }

    /// The duration, in seconds, of the wait the coordinator enters next.
    pub fn next_wait_interval(&self) -> (seconds: u64)
        ensures
            seconds == self.interval_seconds,
    {
        self.interval_seconds
    }
}

/// The directive after `count` refresh requests in a row.
pub open spec fn requested_times(c: PollingControl, count: nat) -> PollingControl
    decreases count,
{
    if count == 0 {
        c
    } else {
        requested_times(c, (count - 1) as nat).requested()
    }
}

/// Requests coalesce: however many refresh requests arrive before the signal
/// is consumed, the directive is the one a single request leaves behind, so
/// exactly one fetch cycle is triggered for the burst.
pub proof fn lemma_refresh_requests_coalesce(c: PollingControl, count: nat)
    requires
        count >= 1,
    ensures
        requested_times(c, count) == c.requested(),
    decreases count,
{
    if count == 1 {
        assert(requested_times(c, 1) == requested_times(c, 0).requested());
        assert(requested_times(c, 0) == c);
    } else {
        lemma_refresh_requests_coalesce(c, (count - 1) as nat);
    }
}

/// The three triggers a waiting coordinator can wake on.
#[derive(Clone, Copy, Debug, PartialEq, Eq, Structural)]
pub enum WaitEvent {
    /// The interval elapsed with no other trigger.
    TimerElapsed,
    /// The manual-refresh signal fired.
    RefreshRequested,
    /// The interval value changed while waiting.
    IntervalChanged,
}

/// Decides whether a wake-up starts a fetch cycle. A timer elapse and a
/// manual request both fetch; an interval change only restarts the wait with
/// the new value and never fetches by itself.
pub fn should_fetch(event: &WaitEvent) -> (fetch: bool)
    ensures
        fetch == !(*event is IntervalChanged),
{
    match event {
        WaitEvent::TimerElapsed => true,
        WaitEvent::RefreshRequested => true,
        WaitEvent::IntervalChanged => false,
    }
}

} // verus!
