//! Tagged errors shared by the repositories and the workflow layer.

use vstd::prelude::*;

verus! {

/// The kinds of failure a storage or workflow operation can report.
#[derive(Clone, Copy, PartialEq, Eq, Structural, Debug)]
pub enum ErrorKind {
    /// A lookup by key found nothing.
    NotFound,
    /// An insert would violate a unique column or a unique pair.
    DuplicateKey,
    /// A referenced entity is missing or the input is structurally invalid.
    Validation,
    /// A business rule was violated, e.g. a duplicate submission.
    Conflict,
    /// The underlying store is unreachable or rejected the request.
    Storage,
}

/// A tagged error: the kind is what callers branch on, the message is what a
/// boundary layer shows. The kind is kept all the way through the library and
/// only flattened into a plain message at the outermost response types.
#[derive(Debug)]
pub struct StoreError {
    pub kind: ErrorKind,
    pub message: String,
}

impl StoreError {
    pub fn new(kind: ErrorKind, message: &str) -> (e: StoreError)
        ensures
            e.kind == kind,
            e.message@ == message@,
    {
        StoreError { kind, message: message.to_owned() }
    }
}

/// The kind a lookup or row-targeted write reports when it cannot reach its
/// row: the store itself failed, or the key found nothing.
pub open spec fn lookup_error_kind(tables_ready: bool) -> ErrorKind {
    if !tables_ready {
        ErrorKind::Storage
    } else {
        ErrorKind::NotFound
    }
}

/// The message that goes with `lookup_error_kind`.
pub open spec fn lookup_error_message(tables_ready: bool) -> Seq<char> {
    if !tables_ready {
        "no such table"@
    } else {
        "Value doesn't exist"@
    }
}

/// The lookup failure reported when a row that was asked for does not exist.
pub fn get_none_error() -> (e: StoreError)
    ensures
        e.kind == ErrorKind::NotFound,
        e.message@ == "Value doesn't exist"@,
{
    StoreError::new(ErrorKind::NotFound, "Value doesn't exist")
}

} // verus!
