//! Outcomes of export jobs: the two-tier success check (exit status, then the
//! output on disk), the first failure of a batch, and its log.

use vstd::prelude::*;
use crate::jobs::{path_join, DrawioExportStep};
use crate::staleness::{check_output, output_verdict, FailureReason, Timestamp};
use vstd::utf8::encode_utf8;

verus! {

/// A failed export job, with what the renderer printed.
pub struct DrawioError {
    pub message: String,
    pub reason: FailureReason,
    pub input_path: String,
    pub output_path: String,
    pub stderr: Vec<u8>,
    pub stdout: Vec<u8>,
    /// The renderer's exit status, where one was obtained.
    pub exit_code: Option<i32>,
}

/// A launched export job, waiting for its renderer to finish.
pub struct DrawioProcess {
    pub output_path: String,
    pub input_path: String,
    pub old_modified_time: Option<Timestamp>,
}

/// The file that receives the log of a failed batch.
pub const ERROR_LOG_NAME: &'static str = "drawio-builder-errors.log";

/// The words that describe a failure.
pub open spec fn reason_text(reason: FailureReason) -> Seq<char> {
    match reason {
        FailureReason::SpawnFailed => "failed to spawn drawio process"@,
        FailureReason::WaitFailed => "process termination error"@,
        FailureReason::ErrorExitCode => "error exit code"@,
        FailureReason::NotUpdated => "output file was not updated"@,
        FailureReason::NotCreated => "output file was not created"@,
    }
}

/// The failure, if any, of a renderer that exited (`success`: with status
/// zero), given the output's modification time before and after the run. A
/// non-zero exit fails whatever the output; a zero exit fails unless the
/// output was created or updated.
pub open spec fn exit_verdict(success: bool, before: Option<Timestamp>, after: Option<Timestamp>) -> Option<
    FailureReason,
> {
    if !success {
        Some(FailureReason::ErrorExitCode)
    } else {
        output_verdict(before, after)
    }
}

/// The words that describe a failure.
pub fn reason_message(reason: FailureReason) -> (r: String)
    ensures
        r@ == reason_text(reason),
{
    let s = match reason {
        FailureReason::SpawnFailed => "failed to spawn drawio process",
        FailureReason::WaitFailed => "process termination error",
        FailureReason::ErrorExitCode => "error exit code",
        FailureReason::NotUpdated => "output file was not updated",
        FailureReason::NotCreated => "output file was not created",
    };
    String::from_str(s)
}

/// The message of a failure that comes with a description of an operating
/// system error.
pub open spec fn detailed_text(reason: FailureReason, detail: Seq<char>) -> Seq<char> {
    reason_text(reason) + " : "@ + detail
}

fn detailed_message(reason: FailureReason, detail: &str) -> (r: String)
    ensures
        r@ == detailed_text(reason, detail@),
{
    let mut s = reason_message(reason);
    s.append(" : ");
    s.append(detail);
    s
}

impl DrawioExportStep {
    /// The failure of a job whose renderer could not be launched; `detail`
    /// describes the operating system's error.
    pub fn spawn_failed(&self, detail: &str) -> (r: DrawioError)
        ensures
            r.reason == FailureReason::SpawnFailed,
            r.message@ == detailed_text(FailureReason::SpawnFailed, detail@),
            r.input_path == self.input_path,
            r.output_path == self.output_path,
            r.stdout@.len() == 0,
            r.stderr@.len() == 0,
            r.exit_code is None,
    {
        DrawioError {
            message: detailed_message(FailureReason::SpawnFailed, detail),
            reason: FailureReason::SpawnFailed,
            input_path: self.input_path.clone(),
            output_path: self.output_path.clone(),
            stderr: Vec::new(),
            stdout: Vec::new(),
            exit_code: None,
        }
    }

    /// The job once its renderer runs.
    pub fn launched(self) -> (r: DrawioProcess)
        ensures
            r.output_path == self.output_path,
            r.input_path == self.input_path,
            r.old_modified_time == self.old_modified_time,
    {
        DrawioProcess {
            output_path: self.output_path,
            input_path: self.input_path,
            old_modified_time: self.old_modified_time,
        }
    }
}

impl DrawioProcess {
    /// The failure of a job whose renderer could not be waited for.
    pub fn wait_failed(&self, detail: &str) -> (r: DrawioError)
        ensures
            r.reason == FailureReason::WaitFailed,
            r.message@ == detailed_text(FailureReason::WaitFailed, detail@),
            r.input_path == self.input_path,
            r.output_path == self.output_path,
            r.stdout@.len() == 0,
            r.stderr@.len() == 0,
            r.exit_code is None,
    {
        DrawioError {
            message: detailed_message(FailureReason::WaitFailed, detail),
            reason: FailureReason::WaitFailed,
            input_path: self.input_path.clone(),
            output_path: self.output_path.clone(),
            stderr: Vec::new(),
            stdout: Vec::new(),
            exit_code: None,
        }
    }

    /// The outcome of a job whose renderer exited: `success` tells whether the
    /// exit status was zero, `exit_code` is that status where one was
    /// obtained, `stdout` and `stderr` are what it printed, and `new_modified`
    /// the output's modification time now (`None`: it does not exist).
    pub fn finish(
        self,
        success: bool,
        exit_code: Option<i32>,
        stdout: Vec<u8>,
        stderr: Vec<u8>,
        new_modified: Option<Timestamp>,
    ) -> (r: Result<(), DrawioError>)
        ensures
            r is Ok <==> exit_verdict(success, self.old_modified_time, new_modified) is None,
            r matches Err(e) ==> {
                &&& Some(e.reason) == exit_verdict(success, self.old_modified_time, new_modified)
                &&& e.message@ == reason_text(e.reason)
                &&& e.input_path == self.input_path
                &&& e.output_path == self.output_path
                &&& e.stdout == stdout
                &&& e.stderr == stderr
                &&& e.exit_code == exit_code
            },
    {
        let verdict = if !success {
            Some(FailureReason::ErrorExitCode)
        } else {
            check_output(self.old_modified_time, new_modified)
        };
        match verdict {
            None => Ok(()),
            Some(reason) => Err(
                DrawioError {
                    message: reason_message(reason),
                    reason,
                    input_path: self.input_path,
                    output_path: self.output_path,
                    stderr,
                    stdout,
                    exit_code,
                },
            ),
        }
    }
}

/// A renderer that exits with status zero but leaves its output as it was
/// (absent, or no newer than before) fails as not created or not updated.
pub proof fn lemma_zero_exit_needs_new_output(before: Option<Timestamp>, after: Option<Timestamp>)
    requires
        match before {
            Some(b) => after matches Some(a) ==> a.nanos <= b.nanos,
            None => after is None,
        },
    ensures
        exit_verdict(true, before, after) == Some(
            if before is Some {
                FailureReason::NotUpdated
            } else {
                FailureReason::NotCreated
            },
        ),
{
}

/// A renderer that exits with a non-zero status fails, whatever its output.
pub proof fn lemma_error_exit_fails(before: Option<Timestamp>, after: Option<Timestamp>)
    ensures
        exit_verdict(false, before, after) == Some(FailureReason::ErrorExitCode),
{
}

/// The first failure among the outcomes of a batch, none if all succeeded.
pub fn first_failure(outcomes: Vec<Result<(), DrawioError>>) -> (r: Option<DrawioError>)
    ensures
        r is None <==> forall|i: int| 0 <= i < outcomes@.len() ==> (#[trigger] outcomes@[i]) is Ok,
        r matches Some(e) ==> exists|i: int|
            0 <= i < outcomes@.len() && #[trigger] outcomes@[i] == Err::<(), DrawioError>(e)
                && forall|j: int| 0 <= j < i ==> (#[trigger] outcomes@[j]) is Ok,
{
    let mut i: usize = 0;
    while i < outcomes.len()
        invariant
            i <= outcomes@.len(),
            forall|j: int| 0 <= j < i ==> (#[trigger] outcomes@[j]) is Ok,
        decreases outcomes.len() - i,
    {
        if outcomes[i].is_err() {
            let mut outcomes = outcomes;
            let found = outcomes.remove(i);
            return match found {
                Ok(_) => None,
                Err(e) => Some(e),
            };
        }
        i = i + 1;
    }
    None
}

/// Where the log of a failed batch is written.
pub fn error_log_path(out_dir: &str) -> (r: String)
    ensures
        r@ == path_join(out_dir@, ERROR_LOG_NAME@),
{
    crate::jobs::join_path(out_dir, ERROR_LOG_NAME)
}

/// The first line of the log of a failure, and the blank line after it.
pub open spec fn log_header(output_path: Seq<char>) -> Seq<char> {
    "Stderr and Stdout when trying to create \""@ + output_path + "\"\n\n"@
}

/// The log of a failure: a header naming its output, then the renderer's raw
/// standard output, then its raw standard error.
pub fn failure_log(e: &DrawioError) -> (r: Vec<u8>)
    ensures
        r@ == encode_utf8(log_header(e.output_path@)) + e.stdout@ + e.stderr@,
{
    let mut header = String::from_str("Stderr and Stdout when trying to create \"");
    header.append(e.output_path.as_str());
    header.append("\"\n\n");
    assert(header@ == log_header(e.output_path@));
    let bytes = header.as_str().as_bytes();
    let mut r: Vec<u8> = Vec::new();
    let mut i: usize = 0;
    while i < bytes.len()
        invariant
            i <= bytes@.len(),
            r@ == bytes@.take(i as int),
        decreases bytes.len() - i,
    {
        r.push(bytes[i]);
        i = i + 1;
        assert(r@ =~= bytes@.take(i as int));
    }
    assert(bytes@.take(bytes@.len() as int) =~= bytes@);
    let ghost head = r@;
    let mut j: usize = 0;
    while j < e.stdout.len()
        invariant
            j <= e.stdout@.len(),
            r@ == head + e.stdout@.take(j as int),
        decreases e.stdout.len() - j,
    {
        r.push(e.stdout[j]);
        j = j + 1;
        assert(r@ =~= head + e.stdout@.take(j as int));
    }
    assert(e.stdout@.take(e.stdout@.len() as int) =~= e.stdout@);
    let ghost mid = r@;
    let mut k: usize = 0;
    while k < e.stderr.len()
        invariant
            k <= e.stderr@.len(),
            r@ == mid + e.stderr@.take(k as int),
        decreases e.stderr.len() - k,
    {
        r.push(e.stderr[k]);
        k = k + 1;
        assert(r@ =~= mid + e.stderr@.take(k as int));
    }
    assert(e.stderr@.take(e.stderr@.len() as int) =~= e.stderr@);
    r
}

} // verus!
