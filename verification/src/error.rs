//! Typed errors: a kind, and the engine's message behind a context prefix.

use vstd::prelude::*;
use vstd::string::StringExecFns;

verus! {

/// Which operation family a failure belongs to.
#[derive(Clone, Copy, Debug, PartialEq, Eq, Structural)]
pub enum ErrorKind {
    /// Plugin initialisation reported that it did not succeed.
    BootstrapFailure,
    /// The engine refused to open the model.
    OpenFailure,
    /// The engine refused an option on a request, a tensor or a configuration.
    ConfigurationError,
    /// The engine refused a submitted request.
    SubmissionError,
    /// A readiness query or a retrieval failed, or named an identity that is not live.
    RetrievalError,
    /// A response could not be decoded into a result.
    ExtractionError,
}

/// A failure of one operation: its kind and a readable message.
#[derive(Debug)]
pub struct Error {
    pub kind: ErrorKind,
    pub message: String,
}

/// The message an operation reports: its context, a colon and a space, then the detail.
pub open spec fn wrapped(context: Seq<char>, detail: Seq<char>) -> Seq<char> {
    context + ": "@ + detail
}

impl Error {
    /// Wraps `detail` behind `context` under the given kind.
    pub fn wrap(kind: ErrorKind, context: &str, detail: &str) -> (e: Error)
        ensures
            e.kind == kind,
            e.message@ == wrapped(context@, detail@),
    {
        let message = String::from_str(context).concat(": ").concat(detail);
        Error { kind, message }
    }

    /// The kind of this failure.
    pub fn kind(&self) -> (k: ErrorKind)
        ensures
            k == self.kind,
    {
        self.kind
    }

    /// The message of this failure, context included.
    pub fn message(&self) -> (m: &str)
        ensures
            m@ == self.message@,
    {
        self.message.as_str()
    }
}

} // verus!
