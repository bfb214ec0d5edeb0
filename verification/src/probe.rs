//! Probe runner: classifies what came back from the external echo probe.
//!
//! The probe itself is an external diagnostic subprocess (launched by the
//! surrounding binary); this module owns the decision that turns its
//! captured outcome into either raw output text or a distinct,
//! recoverable error.

use vstd::prelude::*;

verus! {

/// Echo requests the probe sends per invocation.
pub const PROBE_COUNT: u64 = 4;

/// A failed probe invocation. Both variants are recoverable: the
/// measurement cycle downgrades them to an absent latency.
#[derive(Debug, Clone)]
pub enum ProbeError {
    /// The probe subprocess could not be spawned at all.
    SpawnFailed,
    /// The probe subprocess ran but exited with nonzero status; the
    /// bytes it wrote to its error stream are carried along.
    NonZeroExit(Vec<u8>),
}

/// What was captured from a probe subprocess that did launch: its exit
/// disposition and both output streams.
pub struct ProbeCapture {
    /// The subprocess exited with status zero.
    pub exit_success: bool,
    /// Bytes of the subprocess's standard output.
    pub stdout: Vec<u8>,
    /// Bytes of the subprocess's standard error.
    pub stderr: Vec<u8>,
}

/// Turns the outcome of one probe launch into the raw text to parse, or
/// into the distinct recoverable failure: a launch that produced no capture
/// at all is the spawn failure, and a nonzero exit carries exactly the
/// captured error stream. Total: every outcome yields exactly one of the
/// three, never a panic.
pub fn classify(launch: Option<ProbeCapture>) -> (r: Result<Vec<u8>, ProbeError>)
    ensures
        match launch {
            None => r matches Err(ProbeError::SpawnFailed),
            Some(capture) => if capture.exit_success {
                (r matches Ok(out) && out@ == capture.stdout@)
            } else {
                (r matches Err(ProbeError::NonZeroExit(e)) && e@ == capture.stderr@)
            },
        },
{
    match launch {
        None => Err(ProbeError::SpawnFailed),
        Some(capture) => if capture.exit_success {
            Ok(capture.stdout)
        } else {
            Err(ProbeError::NonZeroExit(capture.stderr))
        },
    }
}

} // verus!
