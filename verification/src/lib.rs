//! Periodic network-health probe: the measurement-and-persistence cycle.
//!
//! At a fixed interval the surrounding process measures round-trip latency
//! to a configured host with an external echo probe and persists one
//! timestamped sample per tick to a time-series sink. This crate holds the
//! part of that loop with contract surface, verified:
//!
//! - [`parse`] extracts the average latency from the probe's raw text,
//!   accepting both known summary dialects with a precise failure taxonomy;
//! - [`probe`] classifies a captured probe invocation into raw text or a
//!   distinct, recoverable error;
//! - [`cycle`] composes the two into a total measurement cycle that always
//!   yields a well-formed sample;
//! - [`sched`] is the tick loop's decision core, whose cadence is provably
//!   independent of sink failures.
//!
//! Launching the subprocess, talking to the sink and sleeping between
//! ticks are I/O and stay with the surrounding binary, which feeds their
//! outcomes to these functions as plain values.

pub mod cycle;
pub mod parse;
pub mod probe;
pub mod sched;
