//! The runner's error taxonomy.
//!
//! Every failure of the runner is terminal for the process; the variants
//! say which stage failed and carry what the report needs as plain values.

use vstd::prelude::*;

verus! {

/// Result type used throughout the runner.
pub type NurResult<T> = Result<T, NurError>;

/// Everything that can go wrong in one invocation of the runner.
#[derive(Debug, Clone)]
pub enum NurError {
    /// The engine or its standard library failed to initialize.
    InitError(String),
    /// A file that was expected to be readable could not be read.
    IoError(String),
    /// The engine reported a runtime error; the message is carried verbatim.
    ShellError(String),
    /// One or more syntax errors in a parsed script.
    ParseErrors(Vec<String>),
    /// Task resolution failed; carries the attempted dotted name.
    TaskNotFound(String),
    /// No marker file was found in the start directory or any ancestor.
    NurfileNotFound(),
    /// The first task token failed the safe-name check; carries the token.
    InvalidTaskName(String),
    /// Two mutually exclusive ways of invoking the runner were combined.
    InvalidNurCall(String, String),
    /// The interactive shell ended with an error.
    EnteredShellError(),
}

impl NurError {
    /// A human-readable message for this error.
    pub fn message(&self) -> (r: String)
        ensures
            ({
                match *self {
                    NurError::InitError(ref m) => r@ == "Init nu error "@ + m@,
                    NurError::IoError(ref m) => r@ == "IO Error "@ + m@,
                    NurError::ShellError(ref m) => r@ == "Shell Error "@ + m@,
                    NurError::ParseErrors(_) => r@ == "Parse errors in script"@,
                    NurError::TaskNotFound(ref n) => r@ == "Could not find the task "@ + n@,
                    NurError::NurfileNotFound() => r@
                        == "Could not find nurfile in path and parents"@,
                    NurError::InvalidTaskName(ref n) => r@ == "Invalid task name "@ + n@,
                    NurError::InvalidNurCall(ref a, ref b) => r@ == "Cannot combine "@ + a@
                        + " with "@ + b@,
                    NurError::EnteredShellError() => r@ == "Shell exited with an error"@,
                }
            }),
    {
        match self {
            NurError::InitError(m) => String::from_str("Init nu error ").concat(m.as_str()),
            NurError::IoError(m) => String::from_str("IO Error ").concat(m.as_str()),
            NurError::ShellError(m) => String::from_str("Shell Error ").concat(m.as_str()),
            NurError::ParseErrors(_) => String::from_str("Parse errors in script"),
            NurError::TaskNotFound(n) => String::from_str("Could not find the task ").concat(
                n.as_str(),
            ),
            NurError::NurfileNotFound() => String::from_str(
                "Could not find nurfile in path and parents",
            ),
            NurError::InvalidTaskName(n) => String::from_str("Invalid task name ").concat(
                n.as_str(),
            ),
            NurError::InvalidNurCall(a, b) => String::from_str("Cannot combine ").concat(
                a.as_str(),
            ).concat(" with ").concat(b.as_str()),
            NurError::EnteredShellError() => String::from_str("Shell exited with an error"),
        }
    }
}

} // verus!
