//! The timer that keeps the status line to one per interval.

use stopwatch::Stopwatch;
use vstd::prelude::*;

verus! {

/// The interval between two status lines, in milliseconds.
pub const STATUS_INTERVAL_MS: u64 = 7000;

#[verifier::external_type_specification]
#[verifier::external_body]
pub struct ExStopwatch(Stopwatch);

/// Whether a status line is due: the time since the last one has reached the
/// interval.
pub open spec fn spec_due(interval_ms: u64, elapsed_ms: i64) -> bool {
    elapsed_ms >= interval_ms
}

/// Whether a status line is due `elapsed_ms` after the last one.
pub fn due(interval_ms: u64, elapsed_ms: i64) -> (r: bool)
    ensures
        r == spec_due(interval_ms, elapsed_ms),
{
    elapsed_ms >= 0 && elapsed_ms as u64 >= interval_ms
}

/// A running stopwatch and the interval it is held against.
pub struct Throttle {
    interval_ms: u64,
    watch: Stopwatch,
    restarts: Ghost<nat>,
}

impl Throttle {
    /// The interval between two status lines.
    pub closed spec fn spec_interval_ms(&self) -> u64 {
        self.interval_ms
    }

    /// How many times the time has been started over.
    pub closed spec fn spec_restarts(&self) -> nat {
        self.restarts@
    }

    /// A throttle whose time starts now and has never been started over.
    pub fn new(interval_ms: u64) -> (r: Throttle)
        ensures
            r.spec_interval_ms() == interval_ms,
            r.spec_restarts() == 0,
    {
        Throttle { interval_ms, watch: stopwatch_start_new(), restarts: Ghost(0) }
    }

    /// The interval between two status lines.
    pub fn interval_ms(&self) -> (r: u64)
        ensures
            r == self.spec_interval_ms(),
    {
        self.interval_ms
    }

    /// Milliseconds since the throttle was made or last restarted. The
    /// reading comes from the clock, and nothing holds of every reading.
    pub fn elapsed_ms(&self) -> i64 {
        stopwatch_elapsed_ms(&self.watch)
    }

    /// Starts the time over: one more restart is counted, and the interval
    /// stays.
    pub fn restart(&mut self)
        ensures
            final(self).spec_interval_ms() == old(self).spec_interval_ms(),
            final(self).spec_restarts() == old(self).spec_restarts() + 1,
    {
        stopwatch_restart(&mut self.watch);
        self.restarts = Ghost(self.restarts@ + 1);
    }
}

/// `Stopwatch::start_new`: a stopwatch that is running. Nothing is claimed
/// of it.
#[verifier::external_body]
fn stopwatch_start_new() -> Stopwatch {
    Stopwatch::start_new()
}

/// `Stopwatch::elapsed_ms`: the reading depends on the clock, so nothing is
/// claimed of it.
#[verifier::external_body]
fn stopwatch_elapsed_ms(watch: &Stopwatch) -> i64 {
    watch.elapsed_ms()
}

/// `Stopwatch::restart`: sets the stopwatch back to zero and starts it.
/// Nothing is claimed of it.
#[verifier::external_body]
fn stopwatch_restart(watch: &mut Stopwatch) {
    watch.restart()
}

} // verus!
