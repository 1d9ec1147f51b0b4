//! Runtime precheck: decide from a throwaway run of the runtime whether the
//! two libraries that the backend needs can be loaded.
//!
//! The caller runs the command that [`command`] builds, waits for it, and
//! hands the result to [`check`]. Nothing is cached: the installation can
//! change between two calls, so every start and every diagnosis runs the
//! check afresh.

use vstd::prelude::*;
use vstd::string::*;

verus! {

/// A program with its arguments, ready to be run.
#[derive(Debug, PartialEq, Eq)]
pub struct CommandLine {
    pub program: String,
    pub args: Vec<String>,
}

/// What came of running a command to its end.
#[derive(Debug, PartialEq, Eq)]
pub enum RunResult {
    /// The program ran and ended. `code` is its exit code, and `None` when it
    /// was ended by a signal.
    Exited { code: Option<i32> },
    /// The program could not be run at all. `os_error` is the operating
    /// system's description of the failure.
    NotRun { os_error: String },
}

/// Why a precheck failed.
#[derive(Debug, PartialEq, Eq)]
pub enum PrecheckFailure {
    /// The runtime was not found or could not be executed.
    NotExecutable { os_error: String },
    /// The runtime ran, but could not load the libraries.
    LibrariesMissing,
}

/// The flag that makes the runtime execute a script given on the command line.
pub open spec fn script_flag() -> Seq<char> {
    "-c"@
}

/// The script that loads the two libraries.
pub open spec fn import_script() -> Seq<char> {
    "import uvicorn,fastapi"@
}

/// The run succeeded: the program ended with exit code zero.
pub open spec fn passed(result: RunResult) -> bool {
    result matches RunResult::Exited { code: Some(c) } && c == 0
}

/// The verdict on a run: success, or the reason for the failure.
pub open spec fn verdict(result: RunResult) -> Result<(), PrecheckFailure> {
    match result {
        RunResult::Exited { code } => if code == Some(0i32) {
            Ok(())
        } else {
            Err(PrecheckFailure::LibrariesMissing)
        },
        RunResult::NotRun { os_error } => Err(PrecheckFailure::NotExecutable { os_error }),
    }
}

/// Text of the start error for a runtime that could not be executed.
pub open spec fn not_executable_text(os_error: Seq<char>) -> Seq<char> {
    "Failed to run python check: "@ + os_error
}

/// Text of the start error for missing libraries. It names the runtime and
/// the command that installs them.
pub open spec fn libraries_missing_text(runtime: Seq<char>) -> Seq<char> {
    "Python '"@ + runtime + "' missing fastapi/uvicorn. Install with: "@ + runtime
        + " -m pip install -e '.[web]'"@
}

/// Text shown in a diagnosis for a runtime that could not be executed.
pub open spec fn exec_error_text(os_error: Seq<char>) -> Seq<char> {
    "Python exec error: "@ + os_error
}

/// Text shown in a diagnosis for missing libraries.
pub open spec fn missing_text() -> Seq<char> {
    "Missing uvicorn and/or fastapi"@
}

/// The command that checks `runtime`: the runtime itself, told to execute the
/// import script.
pub fn command(runtime: &str) -> (line: CommandLine)
    ensures
        line.program@ == runtime@,
        line.args@.len() == 2,
        line.args@[0]@ == script_flag(),
        line.args@[1]@ == import_script(),
{
    let mut args: Vec<String> = Vec::new();
    args.push(String::from_str("-c"));
    args.push(String::from_str("import uvicorn,fastapi"));
    CommandLine { program: String::from_str(runtime), args }
}

/// Judges a run of the check command. The check passes exactly when the
/// runtime ended with exit code zero. A runtime that ended otherwise lacks
/// the libraries; one that did not run at all is reported with the operating
/// system's error.
pub fn check(result: RunResult) -> (outcome: Result<(), PrecheckFailure>)
    ensures
        outcome == verdict(result),
        outcome is Ok <==> passed(result),
{
    match result {
        RunResult::Exited { code } => {
            match code {
                Some(c) => {
                    if c == 0 {
                        Ok(())
                    } else {
                        Err(PrecheckFailure::LibrariesMissing)
                    }
                },
                None => Err(PrecheckFailure::LibrariesMissing),
            }
        },
        RunResult::NotRun { os_error } => Err(PrecheckFailure::NotExecutable { os_error }),
    }
}

impl PrecheckFailure {
    /// The text of [`PrecheckFailure::start_message`].
    pub open spec fn start_text(self, runtime: Seq<char>) -> Seq<char> {
        match self {
            PrecheckFailure::NotExecutable { os_error } => not_executable_text(os_error@),
            PrecheckFailure::LibrariesMissing => libraries_missing_text(runtime),
        }
    }

    /// The text of [`PrecheckFailure::diagnostic_message`].
    pub open spec fn diagnostic_text(self) -> Seq<char> {
        match self {
            PrecheckFailure::NotExecutable { os_error } => exec_error_text(os_error@),
            PrecheckFailure::LibrariesMissing => missing_text(),
        }
    }

    /// The message for a start that this failure aborted, fit for display.
    /// `runtime` is the command that was checked.
    pub fn start_message(&self, runtime: &str) -> (message: String)
        ensures
            message@ == self.start_text(runtime@),
    {
        match self {
            PrecheckFailure::NotExecutable { os_error } => {
                let mut message = String::from_str("Failed to run python check: ");
                message.append(os_error.as_str());
                message
            },
            PrecheckFailure::LibrariesMissing => {
                let mut message = String::from_str("Python '");
                message.append(runtime);
                message.append("' missing fastapi/uvicorn. Install with: ");
                message.append(runtime);
                message.append(" -m pip install -e '.[web]'");
                message
            },
        }
    }

    /// The one-line description of this failure in a diagnosis.
    pub fn diagnostic_message(&self) -> (message: String)
        ensures
            message@ == self.diagnostic_text(),
    {
        match self {
            PrecheckFailure::NotExecutable { os_error } => {
                let mut message = String::from_str("Python exec error: ");
                message.append(os_error.as_str());
                message
            },
            PrecheckFailure::LibrariesMissing => String::from_str("Missing uvicorn and/or fastapi"),
        }
    }
}

} // verus!
