//! The failures a batch query can end in.

use vstd::prelude::*;
use vstd::string::StringExecFns;

verus! {

/// What went wrong, without the accompanying message.
#[derive(Clone, Copy, Debug, PartialEq, Eq, Structural)]
pub enum ErrorKind {
    /// Standard input or a file could not be read.
    Io,
    /// The path could not be made canonical and absolute.
    PathResolution,
    /// The path is not a file that the workspace tracks.
    UntrackedPath,
    /// The workspace could not be loaded.
    Loader,
    /// The database abandoned the query before it had an answer.
    Cancelled,
}

/// A failure together with the message to show for it.
#[derive(Debug)]
pub struct BatchError {
    pub kind: ErrorKind,
    pub detail: String,
}

impl BatchError {
    /// A failure of the given kind carrying `detail` as its message.
    pub fn new(kind: ErrorKind, detail: &str) -> (out: BatchError)
        ensures
            out.kind == kind,
            out.detail@ == detail@,
    {
        BatchError { kind, detail: String::from_str(detail) }
    }

    /// The message to show for this failure.
    pub fn message(&self) -> (out: String)
        ensures
            out@ == self.detail@,
    {
        self.detail.clone()
    }
}

} // verus!
