//! Decision logic for loading a text resource.
//!
//! The underlying storage facility offers three primitives: open-for-read,
//! create-empty, and read-all-as-text. The caller performs each primitive and
//! reports its outcome as a value of [`OpenOutcome`], [`CreateOutcome`] or
//! [`ReadOutcome`]; the functions here classify the outcome and choose the
//! next step. Keeping the decisions separate from the blocking calls lets the
//! same verified classification drive any storage backend.

use vstd::prelude::*;

use crate::failure::FailureReason;

verus! {

/// The outcome of the open-for-read primitive.
pub enum OpenOutcome {
    /// The resource exists and is now open for reading.
    Opened,
    /// The resource does not exist; the diagnostic describes the refusal.
    Absent(String),
    /// Opening failed for a reason other than absence.
    Refused(String),
}

/// The outcome of the create-empty primitive.
pub enum CreateOutcome {
    /// An empty resource now exists under the requested name.
    Created,
    /// Creation failed; the diagnostic describes the refusal.
    Refused(String),
}

/// The outcome of the read-all-as-text primitive.
pub enum ReadOutcome {
    /// The complete content of the resource.
    Content(String),
    /// The read failed; the diagnostic describes the refusal.
    Refused(String),
}

/// The step to take after the open-for-read primitive, when absence is
/// recovered by creating the resource.
pub enum LoadStep {
    /// The resource is open: read its whole content.
    ReadAll,
    /// The resource is absent: create it empty.
    CreateEmpty,
    /// Neither reading nor creating applies: fail with this reason.
    Fail(FailureReason),
}

/// Classifies an open outcome when no recovery is wanted: any failure to
/// open, absence included, is surfaced to the caller.
pub fn strict_open_step(o: OpenOutcome) -> (r: Result<(), FailureReason>)
    ensures
        match o {
            OpenOutcome::Opened => r is Ok,
            OpenOutcome::Absent(d) => (r matches Err(f) && f matches FailureReason::NotFound(e)
                && e@ == d@),
            OpenOutcome::Refused(d) => (r matches Err(f) && f matches FailureReason::Other(e)
                && e@ == d@),
        },
{
    match o {
        OpenOutcome::Opened => Ok(()),
        OpenOutcome::Absent(d) => Err(FailureReason::NotFound(d)),
        OpenOutcome::Refused(d) => Err(FailureReason::Other(d)),
    }
}

/// Classifies an open outcome when absence is recovered: an absent resource
/// is to be created empty, while any other failure to open is surfaced.
pub fn recovering_open_step(o: OpenOutcome) -> (s: LoadStep)
    ensures
        match o {
            OpenOutcome::Opened => s is ReadAll,
            OpenOutcome::Absent(_) => s is CreateEmpty,
            OpenOutcome::Refused(d) => (s matches LoadStep::Fail(f)
                && f matches FailureReason::Other(e) && e@ == d@),
        },
{
    match o {
        OpenOutcome::Opened => LoadStep::ReadAll,
        OpenOutcome::Absent(_) => LoadStep::CreateEmpty,
        OpenOutcome::Refused(d) => LoadStep::Fail(FailureReason::Other(d)),
    }
}

/// Turns the outcome of the read-all primitive into the operation's result:
/// the full content on success, `ReadFailed` otherwise.
pub fn finish_read(o: ReadOutcome) -> (r: Result<String, FailureReason>)
    ensures
        match o {
            ReadOutcome::Content(c) => (r matches Ok(s) && s@ == c@),
            ReadOutcome::Refused(d) => (r matches Err(f)
                && f matches FailureReason::ReadFailed(e) && e@ == d@),
        },
{
    match o {
        ReadOutcome::Content(c) => Ok(c),
        ReadOutcome::Refused(d) => Err(FailureReason::ReadFailed(d)),
    }
}

/// Turns the outcome of the create-empty primitive into the operation's
/// result. A resource created this way is known to be empty, so success
/// yields empty content directly, with no second read.
pub fn finish_create(o: CreateOutcome) -> (r: Result<String, FailureReason>)
    ensures
        match o {
            CreateOutcome::Created => (r matches Ok(s) && s@ == Seq::<char>::empty()),
            CreateOutcome::Refused(d) => (r matches Err(f)
                && f matches FailureReason::CreateFailed(e) && e@ == d@),
        },
{
    match o {
        CreateOutcome::Created => Ok(String::new()),
        CreateOutcome::Refused(d) => Err(FailureReason::CreateFailed(d)),
    }
}

} // verus!
