use vstd::prelude::*;

use crate::event::{ChangeEvent, event_is_relevant, event_matches, has_watched_extension};

verus! {

/// The debounce state: when the last accepted trigger fired and the minimum
/// interval that must pass before the next one, both in milliseconds of a
/// monotonic clock that starts at zero when the run starts.
pub struct DebounceState {
    pub last_trigger_ms: u64,
    pub min_interval_ms: u64,
}

/// The time test: strictly more than the minimum interval must have passed
/// since the last accepted trigger. An event arriving exactly at the end of
/// the interval does not pass.
pub open spec fn interval_elapsed(st: DebounceState, now_ms: u64) -> bool {
    now_ms > st.last_trigger_ms + st.min_interval_ms
}

/// Whether an event received at `now_ms` fires a reload: it must report a
/// modification of a watched file, and the interval must have elapsed.
pub open spec fn should_trigger_spec(e: ChangeEvent, st: DebounceState, now_ms: u64) -> bool {
    event_matches(e) && interval_elapsed(st, now_ms)
}

impl DebounceState {
    /// A fresh state: the clock starts at zero, and the start of the run
    /// counts as the last accepted trigger.
    pub fn new(min_interval_ms: u64) -> (s: Self)
        ensures
            s.last_trigger_ms == 0,
            s.min_interval_ms == min_interval_ms,
    {
        DebounceState { last_trigger_ms: 0, min_interval_ms }
    }

    /// Record an accepted trigger at `now_ms`. The caller does this before
    /// writing the reload command, so that even a failed write counts
    /// against the interval.
    pub fn record_trigger(&mut self, now_ms: u64)
        ensures
            final(self).last_trigger_ms == now_ms,
            final(self).min_interval_ms == old(self).min_interval_ms,
    {
        self.last_trigger_ms = now_ms;
    }
}

/// Decide whether the event received at `now_ms` fires a reload.
pub fn should_trigger(e: &ChangeEvent, st: &DebounceState, now_ms: u64) -> (b: bool)
    ensures
        b == should_trigger_spec(*e, *st, now_ms),
        !(e.kind is Modified) ==> !b,
        (forall|i: int| 0 <= i < e.paths@.len() ==> !has_watched_extension(e.paths@[i]@)) ==> !b,
        now_ms == st.last_trigger_ms + st.min_interval_ms ==> !b,
{
    if !event_is_relevant(e) {
        return false;
    }
    now_ms >= st.last_trigger_ms && now_ms - st.last_trigger_ms > st.min_interval_ms
}

/// The decisions the debounce rule takes on a run of matching events
/// received at the given times, starting from a last accepted trigger at
/// `last` with minimum interval `d`: an event fires exactly when it arrives
/// strictly more than `d` after the last accepted trigger, and a fired
/// trigger becomes the new reference point for the events after it.
pub open spec fn debounce_decisions(last: int, d: int, times: Seq<int>) -> Seq<bool>
    decreases times.len(),
{
    if times.len() == 0 {
        Seq::empty()
    } else {
        let fires = times[0] > last + d;
        let next_last = if fires {
            times[0]
        } else {
            last
        };
        seq![fires] + debounce_decisions(next_last, d, times.drop_first())
    }
}

/// The rule takes one decision per event.
pub proof fn lemma_decisions_len(last: int, d: int, times: Seq<int>)
    ensures
        debounce_decisions(last, d, times).len() == times.len(),
    decreases times.len(),
{
    if times.len() > 0 {
        let next_last = if times[0] > last + d {
            times[0]
        } else {
            last
        };
        lemma_decisions_len(next_last, d, times.drop_first());
    }
}

/// While every event lies within the interval of the last accepted trigger,
/// none fires.
pub proof fn lemma_quiet_within_interval(last: int, d: int, times: Seq<int>)
    requires
        forall|i: int| 0 <= i < times.len() ==> #[trigger] times[i] <= last + d,
    ensures
        debounce_decisions(last, d, times).len() == times.len(),
        forall|i: int| 0 <= i < times.len() ==> !debounce_decisions(last, d, times)[i],
    decreases times.len(),
{
    lemma_decisions_len(last, d, times);
    if times.len() > 0 {
        assert(times[0] <= last + d);
        assert forall|i: int| 0 <= i < times.drop_first().len() implies #[trigger] times.drop_first()[i]
            <= last + d by {
            assert(times.drop_first()[i] == times[i + 1]);
        }
        lemma_quiet_within_interval(last, d, times.drop_first());
        let dec = debounce_decisions(last, d, times);
        let rest = debounce_decisions(last, d, times.drop_first());
        assert forall|i: int| 0 <= i < times.len() implies !dec[i] by {
            if i > 0 {
                assert(dec[i] == rest[i - 1]);
            }
        }
    }
}

/// A burst: matching events whose first fires, every later one lying within
/// the interval of the first. Only the first event of the burst fires; each
/// later one is dropped, until one arrives with a gap strictly greater than
/// the interval from the last accepted trigger.
pub proof fn lemma_burst_fires_once(last: int, d: int, times: Seq<int>)
    requires
        times.len() >= 1,
        times[0] > last + d,
        forall|i: int| 1 <= i < times.len() ==> #[trigger] times[i] <= times[0] + d,
    ensures
        debounce_decisions(last, d, times).len() == times.len(),
        debounce_decisions(last, d, times)[0],
        forall|i: int| 1 <= i < times.len() ==> !debounce_decisions(last, d, times)[i],
{
    lemma_decisions_len(last, d, times);
    assert forall|i: int| 0 <= i < times.drop_first().len() implies #[trigger] times.drop_first()[i]
        <= times[0] + d by {
        assert(times.drop_first()[i] == times[i + 1]);
    }
    lemma_quiet_within_interval(times[0], d, times.drop_first());
    let dec = debounce_decisions(last, d, times);
    let rest = debounce_decisions(times[0], d, times.drop_first());
    assert forall|i: int| 1 <= i < times.len() implies !dec[i] by {
        assert(dec[i] == rest[i - 1]);
    }
}

/// For a matching event, the filter's decision at `now_ms` is exactly the
/// first decision of the fold that starts from the same state: the loop
/// that feeds events one at a time to the filter walks `debounce_decisions`.
pub proof fn lemma_filter_step_is_fold_step(e: ChangeEvent, st: DebounceState, now_ms: u64)
    requires
        event_matches(e),
    ensures
        should_trigger_spec(e, st, now_ms) == debounce_decisions(
            st.last_trigger_ms as int,
            st.min_interval_ms as int,
            seq![now_ms as int],
        )[0],
{
}

/// An event arriving strictly more than the interval after the last
/// accepted trigger fires, whatever came before it.
pub proof fn lemma_gap_fires(last: int, d: int, times: Seq<int>)
    requires
        times.len() >= 1,
        times[0] > last + d,
    ensures
        debounce_decisions(last, d, times)[0],
{
}

} // verus!
