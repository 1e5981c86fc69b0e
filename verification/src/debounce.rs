use vstd::prelude::*;

verus! {

/// How long the credential-file watcher keeps draining raw events after one
/// arrives before it declares the burst settled, in milliseconds.
pub const DEBOUNCE_WINDOW_MS: u64 = 1000;

/// How many refresh triggers a run of raw watcher events produces, given the
/// arrival time of each event in milliseconds, in arrival order. A new
/// trigger starts at the first event and at every event that follows its
/// predecessor by more than the debounce window; every other event is
/// drained into the trigger already open.
pub open spec fn trigger_count(times: Seq<u64>) -> int
    decreases times.len(),
{
    if times.len() == 0 {
        0
    } else if times.len() == 1 {
        1
    } else {
        trigger_count(times.drop_last()) + if times[times.len() - 1] - times[
            times.len() - 2
        ] > DEBOUNCE_WINDOW_MS {
            1int
        } else {
            0int
        }
    }
}

/// Counts the refresh triggers that a recorded run of raw watcher events
/// produces under the debounce rule.
pub fn count_triggers(times: &Vec<u64>) -> (n: usize)
    ensures
        n == trigger_count(times@),
{
    let mut n: usize = 0;
    let mut i: usize = 0;
    while i < times.len()
        invariant
            i <= times@.len(),
            n <= i,
            n == trigger_count(times@.take(i as int)),
        decreases times@.len() - i,
    {
        let opens_new_trigger: bool = if i == 0 {
            true
        } else {
            let prev = times[i - 1];
            let cur = times[i];
            cur > prev && cur - prev > DEBOUNCE_WINDOW_MS
        };
        proof {
            assert(times@.take(i + 1).drop_last() =~= times@.take(i as int));
            assert(times@.take(i + 1).last() == times@[i as int]);
        }
        if opens_new_trigger {
            n = n + 1;
        }
        i = i + 1;
    }
    proof {
        assert(times@.take(times@.len() as int) =~= times@);
    }
    n
}

/// Debouncing collapses a burst: when every raw event follows its
/// predecessor within the debounce window, the whole run produces exactly
/// one refresh trigger, however many events it holds.
pub proof fn lemma_burst_yields_one_trigger(times: Seq<u64>)
    requires
        times.len() >= 1,
        forall|i: int|
            1 <= i < times.len() ==> #[trigger] times[i] - times[i - 1] <= DEBOUNCE_WINDOW_MS,
    ensures
        trigger_count(times) == 1,
    decreases times.len(),
{
    if times.len() > 1 {
        lemma_burst_yields_one_trigger(times.drop_last());
    }
}

} // verus!
