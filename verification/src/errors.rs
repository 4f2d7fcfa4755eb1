use vstd::prelude::*;

verus! {

/// The failure kinds of the pipe, one per phase of a transfer.  Every error
/// is fatal at the process level: the tool performs a single one-shot
/// transfer per invocation and never retries.
#[derive(Clone, Copy, Debug, PartialEq, Eq, Structural)]
pub enum ErrorKind {
    /// Invalid or unsatisfiable transport settings, reported before any
    /// network activity.
    Config,
    /// Bind, connect or handshake failure.
    Connect,
    /// Local source or sink read/write failure.
    Io,
    /// The channel or session became unusable during streaming.
    Transport,
    /// The finish acknowledgment was not received; all data was already
    /// transmitted when this can occur.
    Shutdown,
}

/// Exit status of the process: zero exactly on clean completion, one on any
/// fatal error.
pub fn exit_code(outcome: &Result<(), ErrorKind>) -> (code: i32)
    ensures
        (code == 0) <==> (outcome is Ok),
        outcome is Err ==> code == 1,
{
    match outcome {
        Result::Ok(_) => 0,
        Result::Err(_) => 1,
    }
}

} // verus!
