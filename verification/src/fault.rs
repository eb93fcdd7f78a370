//! Failures of the operating system, as plain values.

use vstd::prelude::*;

verus! {

/// What kind of failure it was.
#[derive(Clone, Copy, Debug, PartialEq, Eq, Structural)]
pub enum IoErrorKind {
    WouldBlock,
    UnexpectedEof,
    InvalidData,
    PermissionDenied,
    Other,
}

/// A failure of an operation outside the library: its kind and its description.
#[derive(Debug)]
pub struct IoError {
    pub kind: IoErrorKind,
    pub message: String,
}

/// The mathematical content of a failure.
pub struct Fault {
    pub kind: IoErrorKind,
    pub text: Seq<char>,
}

impl View for IoError {
    type V = Fault;

    open spec fn view(&self) -> Fault {
        Fault { kind: self.kind, text: self.message@ }
    }
}

impl IoError {
    /// A failure with a description of its own.
    pub fn new(kind: IoErrorKind, message: &str) -> (error: Self)
        ensures
            error@ == (Fault { kind, text: message@ }),
    {
        IoError { kind, message: message.to_owned() }
    }
}

/// Whether a result is the wanted one, its failure taken by content.
pub open spec fn ends_as<T>(result: Result<T, IoError>, wanted: Result<T, Fault>) -> bool {
    match (result, wanted) {
        (Ok(value), Ok(wanted)) => value == wanted,
        (Err(error), Err(wanted)) => error@ == wanted,
        _ => false,
    }
}

} // verus!
