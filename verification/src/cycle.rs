//! Measurement cycle: one probe outcome in, one well-formed sample out.
//!
//! The cycle is total by design: whatever combination of probe failure and
//! parse failure arrives, it still produces a sample with the current
//! timestamp and an explicitly absent latency — a down network or a
//! malformed probe reading must not interrupt the measurement cadence.

use vstd::prelude::*;
use crate::parse;
use crate::parse::AvgLatency;
use crate::probe::ProbeError;

verus! {

/// One timestamped latency observation. Absence of a latency is explicit
/// (`None`), never a sentinel number.
pub struct Sample {
    /// Wall-clock time of the observation, milliseconds since the Unix
    /// epoch.
    pub timestamp_ms: i64,
    /// Kind tag the sink stores the sample under.
    pub measurement_type: String,
    /// Average round-trip latency in milliseconds, present exactly when
    /// the measurement succeeded.
    pub latency_ms: Option<AvgLatency>,
}

/// Relies on std::time::SystemTime::now for the current wall-clock time,
/// converted to whole milliseconds since the Unix epoch. The body cannot
/// panic: a clock set before the epoch yields 0, and a time beyond the
/// signed 64-bit millisecond range saturates. The value depends on the
/// clock, so nothing is promised of it.
#[verifier::external_body]
fn now_unix_millis() -> i64 {
    match std::time::SystemTime::now().duration_since(std::time::UNIX_EPOCH) {
        Ok(since_epoch) => i64::try_from(since_epoch.as_millis()).unwrap_or(i64::MAX),
        Err(_) => 0,
    }
}

/// Runs one measurement cycle on what the probe produced.
///
/// Total for every input: probe failures and both parse failures are
/// downgraded to an absent latency, and a well-formed sample tagged
/// `internet_performance` comes back in every case. The latency is present
/// exactly when the probe succeeded and its output carried a summary line
/// with a well-formed average field, and then holds that field's text.
pub fn execute(probe: Result<Vec<u8>, ProbeError>) -> (s: Sample)
    ensures
        s.measurement_type@ == "internet_performance"@,
        probe matches Ok(raw) ==> match s.latency_ms {
            Some(avg) => exists|j: int|
                #![auto]
                parse::first_summary(raw@, j) && parse::decimal_text(parse::avg_text(raw@, j + 3))
                    && avg@ == parse::avg_text(raw@, j + 3),
            None => !parse::has_summary(raw@) || (exists|j: int|
                #![auto]
                parse::first_summary(raw@, j) && !parse::decimal_text(
                    parse::avg_text(raw@, j + 3),
                )),
        },
        probe is Err ==> s.latency_ms is None,
{
    let latency_ms = match probe {
        Ok(raw) => match parse::parse(raw.as_slice()) {
            Ok(avg) => Some(avg),
            Err(_) => None,
        },
        Err(_) => None,
    };
    Sample { timestamp_ms: now_unix_millis(), measurement_type: "internet_performance".to_owned(), latency_ms }
}

} // verus!
