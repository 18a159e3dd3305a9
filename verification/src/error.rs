//! The error taxonomy of the unblocker.

use vstd::prelude::*;

verus! {

/// Everything that can go wrong during a run.
///
/// `PermissionDenied` is the one recoverable kind: it triggers the escalation
/// protocol instead of failing the run outright.  The variants carry plain
/// strings (a path, or an underlying error rendered as text) so that callers
/// can report them without further machinery.
#[derive(Debug, Clone)]
pub enum UnblockerError {
    /// The path failed validation (traversal sequences or forbidden characters).
    InvalidPath(String),
    /// The target path exists as neither a file nor a directory.
    PathNotFound(String),
    /// Access to a file or directory was denied; carries the offending path.
    PermissionDenied(String),
    /// Any other I/O failure, rendered as text.
    Io(String),
    /// The run configuration is unusable.
    Config(String),
    /// Relaunching with elevated rights failed.
    ElevationFailed,
    /// A platform call outside the core failed.
    WindowsApi(String),
}

/// The human-readable wording of each error kind.
pub open spec fn spec_user_message(e: UnblockerError) -> Seq<char> {
    match e {
        UnblockerError::InvalidPath(path) => "Invalid or unsafe path: "@ + path@,
        UnblockerError::PathNotFound(path) => "Path not found: "@ + path@,
        UnblockerError::PermissionDenied(details) => "Access denied. "@ + details@,
        UnblockerError::Io(details) => "File operation failed: "@ + details@,
        UnblockerError::Config(msg) => "Configuration error: "@ + msg@,
        UnblockerError::ElevationFailed => "Failed to restart with administrator privileges"@,
        UnblockerError::WindowsApi(msg) => "Windows system error: "@ + msg@,
    }
}

impl UnblockerError {
    /// Whether this error indicates that elevated rights might help.
    pub fn requires_elevation(&self) -> (r: bool)
        ensures
            r == self is PermissionDenied,
    {
        matches!(self, UnblockerError::PermissionDenied(_))
    }

    /// The message shown to the user for this error.
    pub fn user_message(&self) -> (r: String)
        ensures
            r@ == spec_user_message(*self),
    {
        match self {
            UnblockerError::InvalidPath(path) => {
                String::from_str("Invalid or unsafe path: ").concat(path.as_str())
            },
            UnblockerError::PathNotFound(path) => {
                String::from_str("Path not found: ").concat(path.as_str())
            },
            UnblockerError::PermissionDenied(details) => {
                String::from_str("Access denied. ").concat(details.as_str())
            },
            UnblockerError::Io(details) => {
                String::from_str("File operation failed: ").concat(details.as_str())
            },
            UnblockerError::Config(msg) => {
                String::from_str("Configuration error: ").concat(msg.as_str())
            },
            UnblockerError::ElevationFailed => {
                String::from_str("Failed to restart with administrator privileges")
            },
            UnblockerError::WindowsApi(msg) => {
                String::from_str("Windows system error: ").concat(msg.as_str())
            },
        }
    }
}

} // verus!
