//! The duration watchdog: one per session, it polls session liveness once
//! per time unit and force-stops the session when the maximum recording
//! duration elapses. It never outlives a session stopped before the
//! limit: the first poll that sees no active session ends it.

use vstd::prelude::*;

verus! {

/// The maximum recording duration, in seconds.
pub const MAX_RECORDING_DURATION_SECS: u64 = 5;

/// What the watchdog asks its host to do after one poll.
#[derive(Debug, Clone, Copy, PartialEq, Eq, Structural)]
pub enum WatchdogAction {
    /// The session is no longer active: the watchdog is done.
    Exit,
    /// Still under the limit: sleep one poll interval and tick again.
    Sleep,
    /// The limit elapsed with the session still active: stop it (stopping
    /// is idempotent, so racing a user stop is harmless), then exit.
    ForceStop,
}

/// The watchdog's state: how long this session may run, and how much of
/// that has elapsed.
pub struct Watchdog {
    limit_secs: u64,
    elapsed_secs: u64,
}

impl Watchdog {
    /// The configured maximum duration.
    pub closed spec fn limit(self) -> u64 {
        self.limit_secs
    }

    /// The elapsed time observed so far.
    pub closed spec fn elapsed(self) -> u64 {
        self.elapsed_secs
    }

    /// A watchdog for a session that just started.
    pub fn new(limit_secs: u64) -> (w: Watchdog)
        ensures
            w.limit() == limit_secs,
            w.elapsed() == 0,
    {
        Watchdog { limit_secs, elapsed_secs: 0 }
    }

    /// One liveness poll. A session that is gone ends the watchdog at
    /// once; an active one is force-stopped exactly when the elapsed time
    /// reaches the limit, and otherwise the watchdog sleeps one more
    /// interval.
    pub fn tick(&mut self, session_active: bool) -> (a: WatchdogAction)
        ensures
            final(self).limit() == old(self).limit(),
            !session_active ==> a == WatchdogAction::Exit && final(self).elapsed() == old(
                self,
            ).elapsed(),
            session_active && old(self).elapsed() >= old(self).limit() ==> a
                == WatchdogAction::ForceStop && final(self).elapsed() == old(self).elapsed(),
            session_active && old(self).elapsed() < old(self).limit() ==> a
                == WatchdogAction::Sleep && final(self).elapsed() == old(self).elapsed() + 1,
    {
        if !session_active {
            WatchdogAction::Exit
        } else if self.elapsed_secs >= self.limit_secs {
            WatchdogAction::ForceStop
        } else {
            self.elapsed_secs = self.elapsed_secs + 1;
            WatchdogAction::Sleep
        }
    }
}

} // verus!
