//! The closed set of reasons a load can fail.
//!
//! Every failure carries an opaque diagnostic string describing the
//! underlying platform error; the diagnostic is retained for logging only and
//! callers branch on the kind, never on the diagnostic's text.

use vstd::prelude::*;

verus! {

/// The kind of a failure, with no diagnostic attached. Callers that only
/// need to branch on why a load failed compare values of this type.
#[derive(Clone, Copy, Debug, PartialEq, Eq, Structural)]
pub enum FailureKind {
    /// The resource does not exist at call time.
    NotFound,
    /// Creating the absent resource (the recovery path) failed.
    CreateFailed,
    /// The resource opened but its content could not be fully read.
    ReadFailed,
    /// Opening failed for a reason other than absence.
    Other,
}

/// A classified failure: a kind together with the underlying diagnostic.
#[derive(Debug)]
pub enum FailureReason {
    /// The resource does not exist at call time.
    NotFound(String),
    /// Creating the absent resource (the recovery path) failed.
    CreateFailed(String),
    /// The resource opened but its content could not be fully read.
    ReadFailed(String),
    /// Opening failed for a reason other than absence.
    Other(String),
}

impl FailureReason {
    /// The kind of this failure, as a specification-level value.
    pub open spec fn spec_kind(self) -> FailureKind {
        match self {
            FailureReason::NotFound(_) => FailureKind::NotFound,
            FailureReason::CreateFailed(_) => FailureKind::CreateFailed,
            FailureReason::ReadFailed(_) => FailureKind::ReadFailed,
            FailureReason::Other(_) => FailureKind::Other,
        }
    }

    /// The diagnostic carried by this failure, as a sequence of characters.
    pub open spec fn spec_diagnostic(self) -> Seq<char> {
        match self {
            FailureReason::NotFound(d) => d@,
            FailureReason::CreateFailed(d) => d@,
            FailureReason::ReadFailed(d) => d@,
            FailureReason::Other(d) => d@,
        }
    }

    /// The kind of this failure, for branching without inspecting the
    /// diagnostic.
    pub fn kind(&self) -> (k: FailureKind)
        ensures
            k == self.spec_kind(),
    {
        match self {
            FailureReason::NotFound(_) => FailureKind::NotFound,
            FailureReason::CreateFailed(_) => FailureKind::CreateFailed,
            FailureReason::ReadFailed(_) => FailureKind::ReadFailed,
            FailureReason::Other(_) => FailureKind::Other,
        }
    }

    /// The underlying diagnostic, retained for logging.
    pub fn diagnostic(&self) -> (d: &String)
        ensures
            d@ == self.spec_diagnostic(),
    {
        match self {
            FailureReason::NotFound(d) => d,
            FailureReason::CreateFailed(d) => d,
            FailureReason::ReadFailed(d) => d,
            FailureReason::Other(d) => d,
        }
    }
}

} // verus!
