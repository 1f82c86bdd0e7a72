//! The error kinds that a command can end in.
//!
//! Every failure is reported to the user as a single human-readable line (or
//! block, when a child process left output on its error stream), produced by
//! [`ProjectError::message`]. The first two kinds are decided by the library
//! itself before anything touches the disk; the remaining kinds carry what an
//! external step reported.

use vstd::prelude::*;

verus! {

/// Everything that can go wrong while handling a subcommand.
#[derive(Debug, PartialEq, Eq)]
pub enum ProjectError {
    /// A filesystem entry already sits where the new project should go.
    ProjectAlreadyExists { name: String },
    /// The requested source-file extension is not one of the supported tokens.
    UnsupportedExtension { token: String },
    /// A filesystem operation failed; `operation` says which, `cause` why.
    Filesystem { operation: String, cause: String },
    /// The shell (or the command itself) could not be spawned at all.
    ProcessSpawnFailed { command: String, cause: String },
    /// The child process ran but exited with a non-zero status.
    ProcessExitedNonZero { command: String, stderr: String },
}

impl ProjectError {
    /// The exact text that `message` renders for this error.
    pub open spec fn message_text(&self) -> Seq<char> {
        match self {
            ProjectError::ProjectAlreadyExists { name } => {
                "Project '"@ + name@ + "' already exists"@
            },
            ProjectError::UnsupportedExtension { token } => {
                "Unsupported file extension '"@ + token@
                    + "': valid file extensions are 'cpp' and 'c'"@
            },
            ProjectError::Filesystem { operation, cause } => operation@ + ": "@ + cause@,
            ProjectError::ProcessSpawnFailed { command, cause } => {
                "Failed to spawn command '"@ + command@ + "': "@ + cause@
            },
            ProjectError::ProcessExitedNonZero { command, stderr } => {
                "Command '"@ + command@ + "' failed:\n"@ + stderr@
            },
        }
    }

    /// Renders the error as the single human-readable message that is shown
    /// to the user on the error stream.
    pub fn message(&self) -> (r: String)
        ensures
            r@ == self.message_text(),
    {
        match self {
            ProjectError::ProjectAlreadyExists { name } => {
                let mut s = String::from_str("Project '");
                s.append(name.as_str());
                s.append("' already exists");
                s
            },
            ProjectError::UnsupportedExtension { token } => {
                let mut s = String::from_str("Unsupported file extension '");
                s.append(token.as_str());
                s.append("': valid file extensions are 'cpp' and 'c'");
                s
            },
            ProjectError::Filesystem { operation, cause } => {
                let mut s = operation.clone();
                s.append(": ");
                s.append(cause.as_str());
                s
            },
            ProjectError::ProcessSpawnFailed { command, cause } => {
                let mut s = String::from_str("Failed to spawn command '");
                s.append(command.as_str());
                s.append("': ");
                s.append(cause.as_str());
                s
            },
            ProjectError::ProcessExitedNonZero { command, stderr } => {
                let mut s = String::from_str("Command '");
                s.append(command.as_str());
                s.append("' failed:\n");
                s.append(stderr.as_str());
                s
            },
        }
    }
}

} // verus!
