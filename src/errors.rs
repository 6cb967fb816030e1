//! The failures that end a run, by kind.
use vstd::prelude::*;
use vstd::string::StringExecFns;

verus! {

/// How an external tool failed.
#[derive(Clone, Copy, Debug, PartialEq, Eq, Structural)]
pub enum ToolFailure {
    /// The file meant to receive the tool's standard output could not be created.
    OutputFile,
    /// The process could not be started.
    Spawn,
    /// The process ran and exited with a non-zero status.
    ExitStatus,
}

/// The kinds of failure that end a run.
#[derive(Clone, Copy, Debug, PartialEq, Eq, Structural)]
pub enum ErrorKind {
    /// The request or its inputs were rejected before any work on them.
    Validation,
    /// A directory could not be created, listed, or an output could not be copied.
    Filesystem,
    /// An external tool failed.
    ToolInvocation(ToolFailure),
    /// An exposure could not be decoded.
    Decode,
}

/// A failure of a run: its kind, and a message for the user.
#[derive(Clone, Debug)]
pub struct PipelineError {
    pub kind: ErrorKind,
    pub message: String,
}

impl PipelineError {
    pub fn new(kind: ErrorKind, message: &str) -> (r: PipelineError)
        ensures
            r.kind == kind,
            r.message@ == message@,
    {
        PipelineError { kind, message: String::from_str(message) }
    }

    /// The message for the user.
    pub fn describe(&self) -> (r: String)
        ensures
            r@ == self.message@,
    {
        self.message.clone()
    }
}

} // verus!
