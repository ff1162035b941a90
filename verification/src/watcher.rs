//! The inactivity watcher: one counter, driven once per scheduler tick,
//! deciding when the backing instance has been idle long enough to stop.
//!
//! The whole tick is the pure transition [`spec_tick`]; the scheduler, the
//! status resolution and the stop command around it are the caller's work.
//! A tick whose resolution failed is fed in as `Unknown`/0, which resets the
//! streak: a transient control-plane failure is never read as sustained
//! activity, and never triggers a shutdown either.

use crate::status::ServerStatus;
use vstd::prelude::*;

verus! {

/// The counter after one tick, before the stop decision: incremented while
/// the server is online and empty (saturating at `max`), reset to 0 on any
/// other observation.
pub open spec fn spec_tick_counter(
    counter: u32,
    status: ServerStatus,
    player_count: u32,
    max: u32,
) -> u32 {
    if status == ServerStatus::Online && player_count == 0 {
        if counter + 1 <= max {
            (counter + 1) as u32
        } else {
            max
        }
    } else {
        0u32
    }
}

/// One whole tick: the new counter and whether a stop command is issued.
/// A stop is issued exactly when the counter reaches `max`, and the counter
/// is reset to 0 in the same tick, whatever the stop command's outcome.
pub open spec fn spec_tick(counter: u32, status: ServerStatus, player_count: u32, max: u32) -> (
    u32,
    bool,
) {
    let c = spec_tick_counter(counter, status, player_count, max);
    if c == max {
        (0u32, true)
    } else {
        (c, false)
    }
}

/// Exec mirror of [`spec_tick`]: returns the new counter and whether to issue
/// a stop command now.
pub fn watcher_tick(counter: u32, status: ServerStatus, player_count: u32, max: u32) -> (r: (
    u32,
    bool,
))
    ensures
        r == spec_tick(counter, status, player_count, max),
        r.0 <= max,
        status != ServerStatus::Online || player_count > 0 ==> r.0 == 0,
{
    let c: u32 = if status == ServerStatus::Online && player_count == 0 {
        if counter < max {
            counter + 1
        } else {
            max
        }
    } else {
        0
    };
    if c == max {
        (0, true)
    } else {
        (c, false)
    }
}

/// The watcher's process-wide state: the idle-streak counter and the number
/// of consecutive idle ticks after which the instance is stopped.
pub struct InactivityWatcher {
    pub counter: u32,
    pub max: u32,
}

impl InactivityWatcher {
    /// The counter never exceeds the configured maximum.
    pub open spec fn wf(self) -> bool {
        self.counter <= self.max
    }

    pub fn new(max: u32) -> (r: InactivityWatcher)
        ensures
            r.max == max,
            r.counter == 0,
            r.wf(),
    {
        InactivityWatcher { counter: 0, max }
    }

    /// Advances the watcher by one tick and says whether to issue a stop
    /// command now.
    pub fn tick(&mut self, status: ServerStatus, player_count: u32) -> (stop: bool)
        ensures
            final(self).max == old(self).max,
            (final(self).counter, stop) == spec_tick(
                old(self).counter,
                status,
                player_count,
                old(self).max,
            ),
            final(self).wf(),
    {
        let (c, stop) = watcher_tick(self.counter, status, player_count, self.max);
        self.counter = c;
        stop
    }
}

/// The counter after `k` consecutive idle ticks (`Online`, zero players),
/// starting from 0.
pub open spec fn spec_counter_after_idle(k: nat, max: u32) -> u32
    decreases k,
{
    if k == 0 {
        0u32
    } else {
        spec_tick(spec_counter_after_idle((k - 1) as nat, max), ServerStatus::Online, 0u32, max).0
    }
}

/// Whether the `k`-th tick of such an idle run issues a stop command.
pub open spec fn spec_idle_stop_at(k: nat, max: u32) -> bool
    recommends
        k >= 1,
{
    spec_tick(spec_counter_after_idle((k - 1) as nat, max), ServerStatus::Online, 0u32, max).1
}

/// While an idle run is still shorter than `max`, the counter simply counts
/// its ticks.
pub proof fn lemma_idle_counter_value(k: nat, max: u32)
    requires
        k < max,
    ensures
        spec_counter_after_idle(k, max) == k,
    decreases k,
{
    if k > 0 {
        lemma_idle_counter_value((k - 1) as nat, max);
    }
}

/// In a run of exactly `max` consecutive idle ticks starting from counter 0,
/// a stop command is issued exactly once — on the last tick of the run — and
/// the counter is 0 immediately afterwards.
pub proof fn lemma_idle_streak_stops_once(max: u32, k: nat)
    requires
        1 <= max,
        1 <= k <= max,
    ensures
        spec_idle_stop_at(k, max) <==> k == max as nat,
        spec_counter_after_idle(max as nat, max) == 0,
{
    lemma_idle_counter_value((k - 1) as nat, max);
    lemma_idle_counter_value((max - 1) as nat, max);
}

/// Any single tick that observes anything but an online, empty server resets
/// the counter to 0, whatever its prior value.
pub proof fn lemma_non_idle_tick_resets(
    counter: u32,
    status: ServerStatus,
    player_count: u32,
    max: u32,
)
    requires
        status != ServerStatus::Online || player_count > 0,
    ensures
        spec_tick(counter, status, player_count, max).0 == 0,
{
}

} // verus!
