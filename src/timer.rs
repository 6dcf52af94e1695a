//! A pausable clock of elapsed playback time, in milliseconds. It reads no
//! clock itself: every operation is told the current time.

use vstd::prelude::*;

verus! {

/// Elapsed time: what accumulated while it ran before, plus the time since
/// `running_since` while it runs.
#[derive(Debug, Clone, Copy, PartialEq, Eq, Structural)]
pub struct Timer {
    pub running_since: Option<u64>,
    pub accumulated_ms: u64,
}

pub open spec fn capped(n: int) -> u64 {
    if n > u64::MAX {
        u64::MAX
    } else {
        n as u64
    }
}

impl Timer {
    /// The elapsed time at `now`; a `now` before the start counts as the start.
    pub open spec fn elapsed_at(self, now: u64) -> u64 {
        match self.running_since {
            Some(t) => capped(self.accumulated_ms + if now >= t {
                now - t
            } else {
                0int
            }),
            None => self.accumulated_ms,
        }
    }

    pub open spec fn started(self, now: u64) -> Timer {
        match self.running_since {
            Some(_) => self,
            None => Timer { running_since: Some(now), ..self },
        }
    }

    pub open spec fn paused(self, now: u64) -> Timer {
        Timer { running_since: None, accumulated_ms: self.elapsed_at(now) }
    }

    pub open spec fn stopped(self) -> Timer {
        Timer { running_since: None, accumulated_ms: 0 }
    }

    pub open spec fn set_to(self, ms: u64, now: u64) -> Timer {
        Timer {
            running_since: match self.running_since {
                Some(_) => Some(now),
                None => None,
            },
            accumulated_ms: ms,
        }
    }

    /// A stopped clock at zero.
    pub fn new() -> (r: Timer)
        ensures
            r == (Timer { running_since: None, accumulated_ms: 0 }),
    {
        Timer { running_since: None, accumulated_ms: 0 }
    }

    pub fn is_running(&self) -> (r: bool)
        ensures
            r == self.running_since is Some,
    {
        self.running_since.is_some()
    }

    /// The elapsed time at `now`.
    pub fn elapsed(&self, now: u64) -> (r: u64)
        ensures
            r == self.elapsed_at(now),
    {
        match self.running_since {
            Some(t) => {
                let run = if now >= t {
                    now - t
                } else {
                    0
                };
                self.accumulated_ms.saturating_add(run)
            },
            None => self.accumulated_ms,
        }
    }

    /// Runs from `now` on; a running clock is left as it is.
    pub fn start(&mut self, now: u64)
        ensures
            *final(self) == old(self).started(now),
            final(self).elapsed_at(now) == old(self).elapsed_at(now),
    {
        if self.running_since.is_none() {
            self.running_since = Some(now);
        }
    }

    /// Stops running and keeps the elapsed time.
    pub fn pause(&mut self, now: u64)
        ensures
            *final(self) == old(self).paused(now),
    {
        let e = self.elapsed(now);
        self.accumulated_ms = e;
        self.running_since = None;
    }

    /// Stops running and goes back to zero.
    pub fn stop(&mut self)
        ensures
            *final(self) == old(self).stopped(),
    {
        self.running_since = None;
        self.accumulated_ms = 0;
    }

    /// Sets the elapsed time to `ms` at `now`, running on if it ran.
    pub fn set_time(&mut self, ms: u64, now: u64)
        ensures
            *final(self) == old(self).set_to(ms, now),
            final(self).elapsed_at(now) == ms,
    {
        if self.running_since.is_some() {
            self.running_since = Some(now);
        }
        self.accumulated_ms = ms;
    }

    /// Sets the elapsed time to zero at `now`, running on if it ran.
    pub fn reset(&mut self, now: u64)
        ensures
            *final(self) == old(self).set_to(0, now),
    {
        self.set_time(0, now);
    }
}

impl Default for Timer {
    fn default() -> (r: Timer)
        ensures
            r == (Timer { running_since: None, accumulated_ms: 0 }),
    {
        Timer::new()
    }
}

} // verus!
