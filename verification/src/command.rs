//! The decisions of the external-command runner: when a polled process has
//! outlived its wall-clock budget, and what a finished process's exit
//! reports as result or error.  Spawning, polling and killing the process
//! are the calling layer's business; it consults these functions at each
//! decision point.

use vstd::prelude::*;
use vstd::string::StringExecFns;

use crate::strutil::{dec_of, u64_to_dec};

verus! {

/// Whether a still-running process has exceeded its wall-clock budget and
/// must be forcibly terminated.
pub fn poll_timed_out(elapsed_ms: u64, timeout_ms: u64) -> (r: bool)
    ensures
        r == (elapsed_ms > timeout_ms),
{
    elapsed_ms > timeout_ms
}

/// The error reported for a forcibly terminated process.
pub fn timeout_error(program: &str, timeout_secs: u64) -> (r: String)
    ensures
        r@ == program@ + " timed out after "@ + dec_of(timeout_secs as nat) + "s"@,
{
    let secs = u64_to_dec(timeout_secs);
    let mut r = program.to_owned();
    r.append(" timed out after ");
    r.append(secs.as_str());
    r.append("s");
    r
}

/// The error reported when a process cannot be started at all.
pub fn spawn_error(program: &str, e: &str) -> (r: String)
    ensures
        r@ == "Failed to spawn "@ + program@ + ": "@ + e@,
{
    let mut r = String::from_str("Failed to spawn ");
    r.append(program);
    r.append(": ");
    r.append(e);
    r
}

/// The error reported when waiting on a spawned process fails.
pub fn wait_error(program: &str, e: &str) -> (r: String)
    ensures
        r@ == "Failed to wait for "@ + program@ + ": "@ + e@,
{
    let mut r = String::from_str("Failed to wait for ");
    r.append(program);
    r.append(": ");
    r.append(e);
    r
}

/// What a finished process reports: success is exactly a zero exit status
/// and hands out the captured standard output; anything else is an error
/// carrying the captured output, preferring the error stream when it said
/// anything.
pub fn exit_outcome(program: &str, success: bool, status: &str, stdout: String, stderr: String) -> (r:
    Result<String, String>)
    ensures
        success ==> (r matches Ok(o) && o@ == stdout@),
        !success && stderr@.len() > 0 ==> (r matches Err(e) && e@ == program@
            + " exited with status "@ + status@ + ": "@ + stderr@),
        !success && stderr@.len() == 0 ==> (r matches Err(e) && e@ == program@
            + " exited with status "@ + status@ + ": "@ + stdout@),
{
    if success {
        Ok(stdout)
    } else {
        let mut r = program.to_owned();
        r.append(" exited with status ");
        r.append(status);
        r.append(": ");
        if stderr.as_str().is_empty() {
            r.append(stdout.as_str());
        } else {
            r.append(stderr.as_str());
        }
        Err(r)
    }
}

} // verus!
