//! The home directory that holds the workflow folders.
//!
//! Its path comes from the `SILVA_HOME_DIR` environment variable, or defaults
//! to `./home`; reading the variable and probing the disk are the caller's
//! part.

use vstd::prelude::*;
use vstd::string::*;

verus! {

/// Error types for workflow home operations; each carries the text of what
/// went wrong (a path, or an I/O error's message).
#[derive(Debug, Clone, PartialEq)]
pub enum WorkflowHomeError {
    InvalidPath(String),
    NotADirectory(String),
    PermissionDenied(String),
    IoError(String),
}

/// The message of a home directory error.
pub open spec fn home_error_message(e: WorkflowHomeError) -> Seq<char> {
    match e {
        WorkflowHomeError::InvalidPath(m) => "Invalid path: "@ + m@,
        WorkflowHomeError::NotADirectory(p) => "Path is not a directory: "@ + p@,
        WorkflowHomeError::PermissionDenied(p) => "Permission denied: "@ + p@,
        WorkflowHomeError::IoError(m) => "IO error: "@ + m@,
    }
}

impl WorkflowHomeError {
    /// The error's message, as it is displayed.
    pub fn message(&self) -> (r: String)
        ensures
            r@ == home_error_message(*self),
    {
        let (head, body) = match self {
            WorkflowHomeError::InvalidPath(m) => ("Invalid path: ", m),
            WorkflowHomeError::NotADirectory(p) => ("Path is not a directory: ", p),
            WorkflowHomeError::PermissionDenied(p) => ("Permission denied: ", p),
            WorkflowHomeError::IoError(m) => ("IO error: ", m),
        };
        let mut r = String::from_str(head);
        r.append(body.as_str());
        r
    }
}

/// Represents the home directory for workflows.
#[derive(Debug, Clone)]
pub struct WorkflowHome {
    path: String,
}

/// The home directory path: the value of `SILVA_HOME_DIR` when it is set,
/// else `./home`.
pub open spec fn home_path_for(env_value: Option<String>) -> Seq<char> {
    match env_value {
        Some(v) => v@,
        None => "./home"@,
    }
}

impl WorkflowHome {
    /// The directory's path.
    pub closed spec fn path_view(&self) -> Seq<char> {
        self.path@
    }

    /// Creates a new WorkflowHome from the value of the `SILVA_HOME_DIR`
    /// environment variable (`None` when it is not set), falling back to
    /// `./home`.
    pub fn new(env_value: Option<String>) -> (r: Result<Self, WorkflowHomeError>)
        ensures
            r matches Ok(h) && h.path_view() == home_path_for(env_value),
    {
        let path = Self::resolve_home_path(env_value);
        Ok(Self { path })
    }

    /// Resolves the home directory path from the environment value or the
    /// default.
    fn resolve_home_path(env_value: Option<String>) -> (r: String)
        ensures
            r@ == home_path_for(env_value),
    {
        match env_value {
            Some(v) => v,
            None => String::from_str("./home"),
        }
    }

    /// Returns the home directory path.
    pub fn path(&self) -> (r: &str)
        ensures
            r@ == self.path_view(),
    {
        self.path.as_str()
    }
}

} // verus!
