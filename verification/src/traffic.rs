//! Lifetime traffic accounting over resettable session counters.
//!
//! The proxy engine reports monotone upload/download totals for its own
//! run, but those counters fall back to zero whenever the engine restarts.
//! Each observation is folded into persisted lifetime totals: a forward
//! step contributes its delta, while a counter that went backwards is read
//! as "reset to zero, then climbed to the observed value" and contributes
//! the observed value whole.

use vstd::prelude::*;

verus! {

/// Lifetime totals, the last raw session counters observed, and the time
/// of the last save, in seconds since the epoch.
pub struct TrafficState {
    pub total_up: u64,
    pub total_down: u64,
    pub last_session_up: u64,
    pub last_session_down: u64,
    pub last_save_secs: u64,
}

/// What one raw reading adds to a lifetime total: the forward delta, or
/// the whole reading when the counter went backwards (a reset).
pub open spec fn spec_delta(last: int, current: int) -> int {
    if current >= last {
        current - last
    } else {
        current
    }
}

/// Whether the totals are due for persistence: more than ten seconds have
/// passed since the last save, or the clock went backwards.
pub open spec fn spec_should_save(last_save: int, now: int) -> bool {
    now < last_save || now - last_save > 10
}

impl TrafficState {
    /// A state freshly loaded at process start: lifetime totals from the
    /// persisted record, no session counters observed yet.
    pub fn load(total_up: u64, total_down: u64, now_secs: u64) -> (s: TrafficState)
        ensures
            s.total_up == total_up,
            s.total_down == total_down,
            s.last_session_up == 0,
            s.last_session_down == 0,
            s.last_save_secs == now_secs,
    {
        TrafficState {
            total_up,
            total_down,
            last_session_up: 0,
            last_session_down: 0,
            last_save_secs: now_secs,
        }
    }
}

/// Fold one raw session reading into the lifetime totals and decide
/// whether the totals are due for persistence now.
pub fn accumulate_traffic(
    state: &mut TrafficState,
    current_up: u64,
    current_down: u64,
    now_secs: u64,
) -> (save: bool)
    requires
        old(state).total_up + spec_delta(
            old(state).last_session_up as int,
            current_up as int,
        ) <= u64::MAX,
        old(state).total_down + spec_delta(
            old(state).last_session_down as int,
            current_down as int,
        ) <= u64::MAX,
    ensures
        final(state).total_up == old(state).total_up + spec_delta(
            old(state).last_session_up as int,
            current_up as int,
        ),
        final(state).total_down == old(state).total_down + spec_delta(
            old(state).last_session_down as int,
            current_down as int,
        ),
        final(state).last_session_up == current_up,
        final(state).last_session_down == current_down,
        save == spec_should_save(old(state).last_save_secs as int, now_secs as int),
        save ==> final(state).last_save_secs == now_secs,
        !save ==> final(state).last_save_secs == old(state).last_save_secs,
{
    let delta_up = if current_up >= state.last_session_up {
        current_up - state.last_session_up
    } else {
        current_up
    };
    let delta_down = if current_down >= state.last_session_down {
        current_down - state.last_session_down
    } else {
        current_down
    };
    state.total_up = state.total_up + delta_up;
    state.total_down = state.total_down + delta_down;
    state.last_session_up = current_up;
    state.last_session_down = current_down;
    let save = now_secs < state.last_save_secs || now_secs - state.last_save_secs > 10;
    if save {
        state.last_save_secs = now_secs;
    }
    save
}

/// One lifetime total after a whole sequence of raw readings is folded in.
pub open spec fn spec_fold_total(total: int, last: int, readings: Seq<int>) -> int
    decreases readings.len(),
{
    if readings.len() == 0 {
        total
    } else {
        spec_fold_total(total + spec_delta(last, readings[0]), readings[0], readings.drop_first())
    }
}

/// The sum of the contributions of a sequence of raw readings: forward
/// deltas, plus the full reading wherever a reset was detected.
pub open spec fn spec_sum_deltas(last: int, readings: Seq<int>) -> int
    decreases readings.len(),
{
    if readings.len() == 0 {
        0
    } else {
        spec_delta(last, readings[0]) + spec_sum_deltas(readings[0], readings.drop_first())
    }
}

/// Law: over any sequence of nonnegative raw session readings, a lifetime
/// total never decreases, and it grows by exactly the sum of the forward
/// deltas, with a reset contributing the full value read after it.
pub proof fn lemma_accumulator_monotone(total: int, last: int, readings: Seq<int>)
    requires
        forall|i: int| 0 <= i < readings.len() ==> #[trigger] readings[i] >= 0,
    ensures
        spec_fold_total(total, last, readings) == total + spec_sum_deltas(last, readings),
        spec_sum_deltas(last, readings) >= 0,
        spec_fold_total(total, last, readings) >= total,
    decreases readings.len(),
{
    if readings.len() > 0 {
        let rest = readings.drop_first();
        assert(forall|i: int| 0 <= i < rest.len() ==> #[trigger] rest[i] >= 0);
        lemma_accumulator_monotone(total + spec_delta(last, readings[0]), readings[0], rest);
    }
}

} // verus!
