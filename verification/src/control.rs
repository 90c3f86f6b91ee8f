use vstd::prelude::*;

use crate::rng::random_index;

verus! {

/// Period of the control loop, in milliseconds.
pub const TICK_MS: u64 = 100;

/// The control loop's own state: the grace-window flag, the time accumulated
/// since the last decision point, and the two configured thresholds.
pub struct ControlState {
    /// Set after a successful spawn, until the first network check that
    /// follows it.
    pub is_init: bool,
    /// Milliseconds accumulated since the last decision point.
    pub elapsed_ms: u64,
    /// Grace window after a (re)start, in milliseconds.
    pub wait_init_ms: u64,
    /// Grace window after a network check, in milliseconds.
    pub wait_check_ms: u64,
}

/// Process health as the liveness query reported it for this tick.
pub enum Liveness {
    /// The child is alive.
    Alive,
    /// No handle, or the child has exited.
    NotAlive,
    /// The status could not be obtained; never treated as alive.
    StatusUnknown,
}

/// The control loop's conceptual states, one tick walking from the entry
/// state through at most one decision, one network check and one respawn.
#[derive(Debug, PartialEq, Eq, Structural)]
pub enum LoopState {
    /// Entry of a tick, before process health has been consulted; also the
    /// state a tick settles back into when nothing is to be done.
    AwaitingDecision,
    /// Too early after a (re)start or after the last check: idle, only
    /// accumulate time.
    WithinGracePeriod,
    /// The child is alive and the applicable window has passed: probe the
    /// network.
    NeedsNetworkCheck,
    /// A child must be spawned; no handle stands in the way.
    NeedsRespawn,
    /// A handle still exists: interrupt it now and spawn nothing before the
    /// next tick observes the child gone.
    NeedsInterruptThenRespawn,
}

/// The decision of a tick as a function of the control state and the
/// reported liveness: an unaccountable or dead child calls for a respawn; an
/// alive child is left in peace within the applicable grace window and has
/// its network checked past it.
pub open spec fn spec_decide(s: ControlState, live: Liveness) -> LoopState {
    match live {
        Liveness::Alive => {
            if (s.is_init && s.elapsed_ms < s.wait_init_ms) || (!s.is_init && s.elapsed_ms
                < s.wait_check_ms) {
                LoopState::WithinGracePeriod
            } else {
                LoopState::NeedsNetworkCheck
            }
        },
        Liveness::NotAlive => LoopState::NeedsRespawn,
        Liveness::StatusUnknown => LoopState::NeedsRespawn,
    }
}

impl ControlState {
    /// The initial state: no grace window claimed, no time accumulated, and
    /// the two configured thresholds.
    pub fn new(wait_init_ms: u64, wait_check_ms: u64) -> (s: ControlState)
        ensures
            !s.is_init,
            s.elapsed_ms == 0,
            s.wait_init_ms == wait_init_ms,
            s.wait_check_ms == wait_check_ms,
    {
        ControlState { is_init: false, elapsed_ms: 0, wait_init_ms, wait_check_ms }
    }

    /// Judge this tick from the reported liveness.
    pub fn decide(&self, live: &Liveness) -> (t: LoopState)
        ensures
            t == spec_decide(*self, *live),
    {
        match live {
            Liveness::Alive => {
                if (self.is_init && self.elapsed_ms < self.wait_init_ms) || (!self.is_init
                    && self.elapsed_ms < self.wait_check_ms) {
                    LoopState::WithinGracePeriod
                } else {
                    LoopState::NeedsNetworkCheck
                }
            },
            Liveness::NotAlive => LoopState::NeedsRespawn,
            Liveness::StatusUnknown => LoopState::NeedsRespawn,
        }
    }

    /// Absorb the outcome of a network check: the window starts over, the
    /// post-start grace claim is spent, and the tick settles back unless an
    /// unreachable network calls for a respawn.
    pub fn apply_network_result(&mut self, reachable: bool) -> (next: LoopState)
        ensures
            !final(self).is_init,
            final(self).elapsed_ms == 0,
            final(self).wait_init_ms == old(self).wait_init_ms,
            final(self).wait_check_ms == old(self).wait_check_ms,
            next == if reachable {
                LoopState::AwaitingDecision
            } else {
                LoopState::NeedsRespawn
            },
    {
        self.is_init = false;
        self.elapsed_ms = 0;
        if reachable {
            LoopState::AwaitingDecision
        } else {
            LoopState::NeedsRespawn
        }
    }

    /// Refine a respawn decision, and start the window over. While a process
    /// identifier is still obtainable the existing child is interrupted
    /// first, and nothing is spawned before the next tick; only with no
    /// handle left does the respawn proceed to a fresh spawn.
    pub fn plan_respawn(&mut self, pid: Option<u32>) -> (s: LoopState)
        ensures
            final(self).elapsed_ms == 0,
            final(self).is_init == old(self).is_init,
            final(self).wait_init_ms == old(self).wait_init_ms,
            final(self).wait_check_ms == old(self).wait_check_ms,
            s == LoopState::NeedsInterruptThenRespawn <==> pid is Some,
            s == LoopState::NeedsRespawn <==> pid is None,
    {
        self.elapsed_ms = 0;
        match pid {
            Some(_) => LoopState::NeedsInterruptThenRespawn,
            None => LoopState::NeedsRespawn,
        }
    }

    /// Absorb the outcome of a spawn: a child whose process identifier is
    /// obtainable opens the post-start grace window; one that never reports
    /// alive is fatal — the only conditions that end the control loop are
    /// this and an unusable configuration file.
    pub fn apply_spawn_result(&mut self, pid: Option<u32>) -> (fatal: bool)
        ensures
            pid is Some ==> final(self).is_init && final(self).elapsed_ms == 0 && !fatal,
            pid is None ==> fatal && *final(self) == *old(self),
            final(self).wait_init_ms == old(self).wait_init_ms,
            final(self).wait_check_ms == old(self).wait_check_ms,
    {
        match pid {
            Some(_) => {
                self.is_init = true;
                self.elapsed_ms = 0;
                false
            },
            None => true,
        }
    }

    /// Account one tick of elapsed time, saturating at the largest value.
    pub fn advance_time(&mut self)
        ensures
            old(self).elapsed_ms + TICK_MS <= u64::MAX ==> final(self).elapsed_ms == old(
                self,
            ).elapsed_ms + TICK_MS,
            old(self).elapsed_ms + TICK_MS > u64::MAX ==> final(self).elapsed_ms == u64::MAX,
            final(self).is_init == old(self).is_init,
            final(self).wait_init_ms == old(self).wait_init_ms,
            final(self).wait_check_ms == old(self).wait_check_ms,
    {
        if self.elapsed_ms <= u64::MAX - TICK_MS {
            self.elapsed_ms = self.elapsed_ms + TICK_MS;
        } else {
            self.elapsed_ms = u64::MAX;
        }
    }
}

/// Pick the configuration file for a spawn: the only file when exactly one
/// is configured, else an index drawn uniformly over the whole inclusive
/// range of the list.
pub fn pick_file_index(n_files: usize) -> (i: usize)
    requires
        n_files >= 1,
    ensures
        i < n_files,
        n_files == 1 ==> i == 0,
{
    if n_files == 1 {
        0
    } else {
        random_index(n_files)
    }
}

/// Milliseconds for a wait of `s` seconds, saturating at the largest value.
pub fn millis_from_seconds(s: u64) -> (ms: u64)
    ensures
        s * 1000 <= u64::MAX ==> ms == s * 1000,
        s * 1000 > u64::MAX ==> ms == u64::MAX,
{
    if s <= u64::MAX / 1000 {
        s * 1000
    } else {
        u64::MAX
    }
}

} // verus!
