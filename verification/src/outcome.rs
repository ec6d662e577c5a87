//! Invocation requests, their outcomes, and the classification of a finished
//! external invocation into a success or a user-facing error.

use vstd::prelude::*;

verus! {

/// An immutable description of an external command to run: program name,
/// ordered argument list, and working directory. Created at the call site
/// when a user action requires a slow operation; consumed once by whatever
/// actually spawns the process.
#[derive(Debug)]
pub struct InvocationRequest {
    pub program: String,
    pub args: Vec<String>,
    pub working_dir: String,
}

/// A classified, user-facing error from an external invocation.
#[derive(Debug)]
pub enum CommandError {
    /// The external program could not be located or started at all.
    /// Carries the program name so the user can be told what to install.
    ToolNotFound { tool: String },
    /// The external program ran and reported failure. Carries the captured
    /// diagnostic text (standard error) and the exit code, if any.
    ToolFailed { diagnostic: String, exit_code: Option<i32> },
}

/// The terminal result of one external invocation: captured standard output
/// on success, a classified error on failure.
#[derive(Debug)]
pub enum Outcome {
    Success(String),
    Failure(CommandError),
}

/// A defect in the library's own machinery, as opposed to a failure of the
/// external tool. Propagated up and surfaced, never masked.
#[derive(Debug)]
pub enum InternalError {
    /// The channel carrying an operation's result closed without a message
    /// ever being sent: the background unit of execution terminated
    /// abnormally.
    ChannelClosed,
}

/// What the process-spawning edge reports back about one invocation,
/// as plain values.
#[derive(Debug)]
pub enum SpawnResult {
    /// The program could not be located or started.
    NotFound,
    /// The program ran to completion.
    Completed { success: bool, exit_code: Option<i32>, stdout: String, stderr: String },
}

/// The message shown for a [`CommandError`]: the captured diagnostic text
/// verbatim for an in-tool failure, and an installation hint naming the tool
/// when it could not be located.
pub open spec fn spec_error_message(e: CommandError) -> Seq<char> {
    match e {
        CommandError::ToolNotFound { tool } => tool@ + " could not be located. Please make sure it is installed."@,
        CommandError::ToolFailed { diagnostic, exit_code } => diagnostic@,
    }
}

/// The message shown for an [`InternalError`].
pub open spec fn spec_internal_error_message(e: InternalError) -> Seq<char> {
    match e {
        InternalError::ChannelClosed => "operation ended without reporting a result"@,
    }
}

impl CommandError {
    /// The user-facing message for this error.
    pub fn describe(&self) -> (r: String)
        ensures
            r@ == spec_error_message(*self),
    {
        match self {
            CommandError::ToolNotFound { tool } => {
                tool.clone().concat(" could not be located. Please make sure it is installed.")
            },
            CommandError::ToolFailed { diagnostic, exit_code: _ } => diagnostic.clone(),
        }
    }
}

impl InternalError {
    /// The user-facing message for this defect.
    pub fn describe(&self) -> (r: String)
        ensures
            r@ == spec_internal_error_message(*self),
    {
        match self {
            InternalError::ChannelClosed => {
                String::from_str("operation ended without reporting a result")
            },
        }
    }
}

/// Classify what the spawning edge reported into the invocation's outcome:
/// success carries the captured standard output; an in-tool failure carries
/// the captured standard error and exit code; a program that could not be
/// started becomes a distinct tool-not-found error naming the program.
pub fn classify_invocation(program: &String, spawn: SpawnResult) -> (r: Outcome)
    ensures
        spawn is NotFound ==> (r matches Outcome::Failure(CommandError::ToolNotFound { tool })
            && tool@ == program@),
        (spawn matches SpawnResult::Completed { success, exit_code, stdout, stderr } ==> {
            &&& success ==> r == Outcome::Success(stdout)
            &&& !success ==> r == Outcome::Failure(
                CommandError::ToolFailed { diagnostic: stderr, exit_code },
            )
        }),
{
    match spawn {
        SpawnResult::NotFound => {
            Outcome::Failure(CommandError::ToolNotFound { tool: program.clone() })
        },
        SpawnResult::Completed { success, exit_code, stdout, stderr } => {
            if success {
                Outcome::Success(stdout)
            } else {
                Outcome::Failure(CommandError::ToolFailed { diagnostic: stderr, exit_code })
            }
        },
    }
}

} // verus!
