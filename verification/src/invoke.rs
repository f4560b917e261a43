//! The conversion invoker's decision logic: classifying what the external
//! tool's run produced. The process itself is spawned by the I/O layer,
//! which reports back what it observed; the three-way check (launch / exit
//! code / output existence) lives here, since a zero exit code alone is not
//! evidence that the tool produced an output.

use crate::store::TempFile;
use vstd::prelude::*;
use vstd::string::*;

verus! {

/// Why a conversion attempt failed.
#[derive(Clone, Copy, Debug, PartialEq, Eq, Structural)]
pub enum FailureOrigin {
    /// The external executable could not be started.
    ProcessLaunch,
    /// It ran but exited with a nonzero status.
    NonzeroExit,
    /// It exited zero but the expected output file does not exist.
    MissingOutput,
}

/// What the I/O layer observed of one run of the external tool.
pub enum RunReport {
    /// Spawning failed; carries the operating system's error text.
    LaunchFailed(String),
    /// The process ran to completion; `success` is whether it exited zero,
    /// `stderr` is its captured standard-error text.
    Exited { success: bool, stderr: String },
}

/// The classified result of one conversion attempt.
pub enum ConversionOutcome {
    /// The tool exited zero and the output file exists.
    Success(TempFile),
    /// The attempt failed; `message` is the raw diagnostic of the origin:
    /// the OS error for a launch failure, the captured standard error for a
    /// nonzero exit, and a fixed note for a missing output.
    Failure { origin: FailureOrigin, message: String },
}

/// Classifies a run of the external tool over the allocated output file,
/// what the spawn reported, and whether the output path exists afterwards.
pub fn classify_run(output: TempFile, report: RunReport, output_exists: bool) -> (r:
    ConversionOutcome)
    ensures
        (match report {
            RunReport::LaunchFailed(m) => r matches ConversionOutcome::Failure { origin, message }
                && origin == FailureOrigin::ProcessLaunch && message == m,
            RunReport::Exited { success, stderr } => {
                if !success {
                    r matches ConversionOutcome::Failure { origin, message } && origin
                        == FailureOrigin::NonzeroExit && message == stderr
                } else if !output_exists {
                    r matches ConversionOutcome::Failure { origin, message } && origin
                        == FailureOrigin::MissingOutput && message@ == "output not produced"@
                } else {
                    r matches ConversionOutcome::Success(t) && t == output
                }
            },
        }),
{
    match report {
        RunReport::LaunchFailed(m) => ConversionOutcome::Failure {
            origin: FailureOrigin::ProcessLaunch,
            message: m,
        },
        RunReport::Exited { success, stderr } => {
            if !success {
                ConversionOutcome::Failure { origin: FailureOrigin::NonzeroExit, message: stderr }
            } else if !output_exists {
                ConversionOutcome::Failure {
                    origin: FailureOrigin::MissingOutput,
                    message: String::from_str("output not produced"),
                }
            } else {
                ConversionOutcome::Success(output)
            }
        },
    }
}

} // verus!
