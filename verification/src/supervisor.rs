//! Lifecycle of the periodic update loop.
//!
//! The supervisor owns at most one running loop generation at a time.
//! Generations are numbered; starting hands back the superseded
//! generation for cancellation before the new one is installed, all under
//! one lock in the surrounding runtime, so two generations never tick
//! concurrently.

use crate::stream::RatePair;
use vstd::prelude::*;

verus! {

/// Seconds the periodic loop sleeps between ticks.
pub const UPDATE_TICK_SECS: u64 = 1;

/// The slot holding the currently running update-loop generation, if any,
/// and the number the next generation will take.
pub struct UpdateSupervisor {
    pub next_generation: u64,
    pub active: Option<u64>,
}

/// Every generation ever installed was numbered below the next one.
pub open spec fn spec_supervisor_wf(s: UpdateSupervisor) -> bool {
    s.active matches Some(g) ==> g < s.next_generation
}

/// The supervisor after a start, and the generation it cancels: the
/// previously active generation leaves the slot before the fresh one is
/// installed.
pub open spec fn spec_start(s: UpdateSupervisor) -> (UpdateSupervisor, Option<u64>) {
    (
        UpdateSupervisor {
            next_generation: (s.next_generation + 1) as u64,
            active: Some(s.next_generation),
        },
        s.active,
    )
}

impl UpdateSupervisor {
    /// A supervisor with no loop running.
    pub fn new() -> (s: UpdateSupervisor)
        ensures
            s.active is None,
            spec_supervisor_wf(s),
    {
        UpdateSupervisor { next_generation: 0, active: None }
    }

    /// Install a fresh loop generation, handing back the superseded one
    /// so the caller cancels it first.
    pub fn start(&mut self) -> (cancelled: Option<u64>)
        requires
            old(self).next_generation < u64::MAX,
        ensures
            *final(self) == spec_start(*old(self)).0,
            cancelled == spec_start(*old(self)).1,
            spec_supervisor_wf(*old(self)) ==> spec_supervisor_wf(*final(self)),
    {
        let cancelled = self.active.take();
        self.active = Some(self.next_generation);
        self.next_generation = self.next_generation + 1;
        cancelled
    }

    /// Take the running generation out for cancellation, if any, and
    /// reset the displayed session rates; the persisted lifetime totals
    /// are not touched.
    pub fn stop(&mut self, rates: &mut RatePair) -> (cancelled: Option<u64>)
        ensures
            final(self).active is None,
            final(self).next_generation == old(self).next_generation,
            cancelled == old(self).active,
            final(rates).up == 0,
            final(rates).down == 0,
            spec_supervisor_wf(*old(self)) ==> spec_supervisor_wf(*final(self)),
    {
        let cancelled = self.active.take();
        rates.up = 0;
        rates.down = 0;
        cancelled
    }
}

/// What one tick of the periodic loop does after its sleep.
#[derive(Clone, Copy, Debug, PartialEq, Eq, Structural)]
pub enum TickStep {
    /// The feature was disabled: cancel the traffic-stream task and leave
    /// the loop.
    Terminate,
    /// Refresh the displayed activity and go round again.
    Refresh,
}

/// Decide one tick from the freshly re-read enabled flag. Nothing else
/// ends the loop from inside: errors during a refresh are absorbed.
pub fn plan_tick(enabled: bool) -> (r: TickStep)
    ensures
        r == (if enabled {
            TickStep::Refresh
        } else {
            TickStep::Terminate
        }),
{
    if enabled {
        TickStep::Refresh
    } else {
        TickStep::Terminate
    }
}

/// Law: two starts in a row leave exactly one generation active. The
/// first start installs a generation; the second hands exactly that
/// generation back for cancellation before its own is installed, and the
/// two generations are distinct.
pub proof fn lemma_start_twice(s: UpdateSupervisor)
    requires
        s.next_generation + 1 < u64::MAX,
    ensures
        ({
            let (s1, _c1) = spec_start(s);
            let (s2, c2) = spec_start(s1);
            &&& s1.active == Some(s.next_generation)
            &&& c2 == s1.active
            &&& s2.active == Some(s1.next_generation)
            &&& s2.active != s1.active
        }),
{
}

} // verus!
