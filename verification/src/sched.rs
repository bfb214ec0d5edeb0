//! Scheduler: the decision core of the fixed-interval tick loop.
//!
//! The surrounding binary owns the clock, the subprocess and the sink; this
//! module owns every decision the loop takes: that a failed startup
//! connectivity check still lets the loop start, that each tick runs
//! exactly one measurement cycle, and that a failed sink write changes
//! neither the next state nor the sleep that follows — the cadence is
//! independent of write outcomes.
//!
//! The interval is slept from the end of one tick's work to the start of
//! the next, so the loop's period is the interval plus the cycle's own
//! latency; that drift is an accepted property, not corrected here.

use vstd::prelude::*;

verus! {

/// Immutable per-process configuration, owned by the scheduler and
/// read-only for the process lifetime.
pub struct Config {
    /// Host the probe targets.
    pub host: String,
    /// Seconds slept between the end of one tick and the next.
    pub interval_secs: u64,
}

impl Config {
    pub fn new(host: String, interval_secs: u64) -> (c: Config)
        ensures
            c.host@ == host@,
            c.interval_secs == interval_secs,
    {
        Config { host, interval_secs }
    }
}

/// Where the scheduler stands: waiting for the next tick, or running one
/// measurement cycle. There is no terminal phase — the loop runs until the
/// process is externally terminated.
#[derive(Debug, PartialEq, Eq, Structural, Clone, Copy)]
pub enum Phase {
    Waiting,
    Running,
}

/// The tick loop's explicit state: configuration, current phase and how
/// many ticks have begun.
pub struct Scheduler {
    pub config: Config,
    pub phase: Phase,
    pub iteration: u64,
}

impl Scheduler {
    /// A fresh scheduler: waiting, no tick begun yet.
    pub fn new(config: Config) -> (s: Scheduler)
        ensures
            s.config == config,
            s.phase is Waiting,
            s.iteration == 0,
    {
        Scheduler { config, phase: Phase::Waiting, iteration: 0 }
    }

    /// Decides whether the loop starts after the one best-effort sink
    /// connectivity check at startup. The check's outcome never matters:
    /// a failure is logged by the caller and the loop starts anyway.
    pub fn startup_proceeds(&self, sink_reachable: bool) -> (proceed: bool)
        ensures
            proceed,
    {
        let _ = sink_reachable;
        true
    }

    /// Begins one tick: the phase moves to running and the tick count
    /// advances (saturating at its ceiling rather than overflowing).
    pub fn begin_tick(&mut self)
        ensures
            final(self).phase is Running,
            final(self).config == old(self).config,
            final(self).iteration == if old(self).iteration < u64::MAX {
                old(self).iteration + 1
            } else {
                u64::MAX as int
            },
    {
        self.phase = Phase::Running;
        self.iteration = if self.iteration < u64::MAX {
            self.iteration + 1
        } else {
            u64::MAX
        };
    }

    /// Ends one tick after the sample was handed to the sink, and
    /// prescribes the sleep before the next tick.
    ///
    /// The write's outcome is taken and deliberately ignored: whether the
    /// sink accepted or rejected the sample, the phase returns to waiting
    /// and the prescribed sleep is exactly the configured interval — a
    /// sink that always fails writes still gets a next tick after the
    /// same delay.
    pub fn finish_tick(&mut self, write_ok: bool) -> (sleep_secs: u64)
        ensures
            final(self).phase is Waiting,
            final(self).config == old(self).config,
            final(self).iteration == old(self).iteration,
            sleep_secs == old(self).config.interval_secs,
    {
        let _ = write_ok;
        self.phase = Phase::Waiting;
        self.config.interval_secs
    }
}

} // verus!
