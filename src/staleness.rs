//! Timestamp-only staleness rules: when an output must be rebuilt, and when a
//! finished export counts as having produced its output.

use vstd::prelude::*;

verus! {

/// A modification time, in nanoseconds relative to the Unix epoch.
#[derive(Clone, Copy, Debug, PartialEq, Eq, Structural)]
pub struct Timestamp {
    pub nanos: i128,
}

/// Why an export job failed.
#[derive(Clone, Copy, Debug, PartialEq, Eq, Structural)]
pub enum FailureReason {
    /// The renderer could not be launched.
    SpawnFailed,
    /// Waiting for the renderer or reading its output streams failed.
    WaitFailed,
    /// The renderer exited with a non-zero status.
    ErrorExitCode,
    /// The output existed before and its modification time did not advance.
    NotUpdated,
    /// The output did not exist before and still does not.
    NotCreated,
}

/// An output is fresh when it exists and is at least as new as its input.
pub open spec fn fresh(output_modified: Option<Timestamp>, input_modified: Timestamp) -> bool {
    match output_modified {
        Some(t) => t.nanos >= input_modified.nanos,
        None => false,
    }
}

/// What a finished export with a zero exit status left behind, judged against
/// the output's modification time before the job (`None`: it did not exist)
/// and after it (`None`: it does not exist).
pub open spec fn output_verdict(before: Option<Timestamp>, after: Option<Timestamp>) -> Option<
    FailureReason,
> {
    match before {
        Some(b) => match after {
            Some(a) => if a.nanos > b.nanos {
                None
            } else {
                Some(FailureReason::NotUpdated)
            },
            None => Some(FailureReason::NotUpdated),
        },
        None => match after {
            Some(_) => None,
            None => Some(FailureReason::NotCreated),
        },
    }
}

/// Whether the output can be kept as it is, so that its step is skipped.
pub fn is_fresh(output_modified: Option<Timestamp>, input_modified: Timestamp) -> (r: bool)
    ensures
        r == fresh(output_modified, input_modified),
{
    match output_modified {
        Some(t) => t.nanos >= input_modified.nanos,
        None => false,
    }
}

/// The verdict on an output after its export exited with status zero.
pub fn check_output(before: Option<Timestamp>, after: Option<Timestamp>) -> (r: Option<
    FailureReason,
>)
    ensures
        r == output_verdict(before, after),
{
    match before {
        Some(b) => match after {
            Some(a) => if a.nanos > b.nanos {
                None
            } else {
                Some(FailureReason::NotUpdated)
            },
            None => Some(FailureReason::NotUpdated),
        },
        None => match after {
            Some(_) => None,
            None => Some(FailureReason::NotCreated),
        },
    }
}

} // verus!
