//! The error taxonomy of the optimization run.
//!
//! Per-file errors (`Io`, `Encoder`, `Timeout`, `UnsupportedFormat`) are
//! counted and reported without aborting sibling work; `Validation` and
//! `MissingDependency` abort the run before any file is scheduled; `State`
//! marks a ledger read or write that failed and is fatal for the file
//! whose commit needed it.

use vstd::prelude::*;

verus! {

/// Why a file, or the whole run, failed.
#[derive(Debug, Clone)]
pub enum OptimizeError {
    /// A filesystem operation failed.
    Io(String),
    /// The delegated encoder reported failure.
    Encoder(String),
    /// The per-class time budget ran out.
    Timeout(String),
    /// The file's extension names no format this crate handles.
    UnsupportedFormat(String),
    /// The run configuration was rejected before any file was touched.
    Validation(String),
    /// A required external tool is absent; fatal for the whole run.
    MissingDependency(String),
    /// The idempotency ledger could not be read or written.
    State(String),
}

/// The rendering of an error: a fixed prefix naming its kind, then the
/// detail message.
pub open spec fn error_chars(e: &OptimizeError) -> Seq<char> {
    match e {
        OptimizeError::Io(m) => "IO error: "@ + m@,
        OptimizeError::Encoder(m) => "Encoder error: "@ + m@,
        OptimizeError::Timeout(m) => "Timeout: "@ + m@,
        OptimizeError::UnsupportedFormat(m) => "Unsupported file format: "@ + m@,
        OptimizeError::Validation(m) => "Validation error: "@ + m@,
        OptimizeError::MissingDependency(m) => "Dependency missing: "@ + m@,
        OptimizeError::State(m) => "State file error: "@ + m@,
    }
}

impl OptimizeError {
    /// One-line description, kind first.
    pub fn describe(&self) -> (r: String)
        ensures
            r@ == error_chars(self),
    {
        match self {
            OptimizeError::Io(m) => {
                let mut s = "IO error: ".to_owned();
                s.append(m.as_str());
                s
            },
            OptimizeError::Encoder(m) => {
                let mut s = "Encoder error: ".to_owned();
                s.append(m.as_str());
                s
            },
            OptimizeError::Timeout(m) => {
                let mut s = "Timeout: ".to_owned();
                s.append(m.as_str());
                s
            },
            OptimizeError::UnsupportedFormat(m) => {
                let mut s = "Unsupported file format: ".to_owned();
                s.append(m.as_str());
                s
            },
            OptimizeError::Validation(m) => {
                let mut s = "Validation error: ".to_owned();
                s.append(m.as_str());
                s
            },
            OptimizeError::MissingDependency(m) => {
                let mut s = "Dependency missing: ".to_owned();
                s.append(m.as_str());
                s
            },
            OptimizeError::State(m) => {
                let mut s = "State file error: ".to_owned();
                s.append(m.as_str());
                s
            },
        }
    }
}

} // verus!
