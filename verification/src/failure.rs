//! Failures reported by the library: a kind that callers branch on and a
//! message for people.

#[allow(unused_imports)]
use vstd::prelude::*;

verus! {

/// What sort of failure occurred.
#[derive(Clone, Copy, Debug, PartialEq, Eq, Structural)]
pub enum FailureKind {
    NotFound,
    PermissionDenied,
    AlreadyExists,
    AddrInUse,
    AddrNotAvailable,
    InvalidInput,
    InvalidData,
    TimedOut,
    WouldBlock,
    /// The kernel knows no such process.
    NoSuchProcess,
    Other,
}

/// A failure with its message.
#[derive(Debug, PartialEq, Eq)]
pub struct Failure {
    pub kind: FailureKind,
    pub message: String,
}

/// The mathematical content of a [`Failure`].
pub struct FailureView {
    pub kind: FailureKind,
    pub message: Seq<char>,
}

impl DeepView for Failure {
    type V = FailureView;

    open spec fn deep_view(&self) -> FailureView {
        FailureView { kind: self.kind, message: self.message@ }
    }
}

impl Clone for Failure {
    fn clone(&self) -> (copy: Self)
        ensures
            copy == *self,
    {
        Failure { kind: self.kind, message: self.message.clone() }
    }
}

/// The failure of the given kind and message.
pub open spec fn failure(kind: FailureKind, message: Seq<char>) -> FailureView {
    FailureView { kind, message }
}

impl Failure {
    /// Builds a failure from a kind and a message.
    pub fn new(kind: FailureKind, message: &str) -> (made: Failure)
        ensures
            made.deep_view() == failure(kind, message@),
    {
        Failure { kind, message: message.to_owned() }
    }

    /// Builds a failure without a more specific kind.
    pub fn other(message: &str) -> (made: Failure)
        ensures
            made.deep_view() == failure(FailureKind::Other, message@),
    {
        Failure { kind: FailureKind::Other, message: message.to_owned() }
    }
}

/// The failure inside a result, if it failed.
pub open spec fn fault_of<T>(outcome: Result<T, Failure>) -> Option<FailureView> {
    match outcome {
        Ok(_) => None,
        Err(error) => Some(error.deep_view()),
    }
}

} // verus!
