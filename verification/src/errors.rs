//! The closed error taxonomy of the bridge.
//!
//! Every failure carries a kind, the path (or name) it concerns, and the
//! underlying message, so that the interface layer can decide whether to
//! retry, prompt, or abort without parsing free-form strings.

use vstd::prelude::*;

verus! {

/// What went wrong, as a closed set of tags.
#[derive(Clone, Copy, Debug, PartialEq, Eq, Structural)]
pub enum FsErrorKind {
    /// A sandbox escape attempt: the path resolves outside the root.
    AccessDenied,
    /// The path does not exist.
    NotFound,
    /// The target already exists.
    AlreadyExists,
    /// A leaf name holds a separator or a traversal segment.
    InvalidName,
    /// Any other operating-system failure (permissions, disk, cross-device).
    IoError,
}

/// A failure of one bridge operation: the kind, the path or name it
/// concerns, and the underlying message for diagnostics.
#[derive(Clone, Debug)]
pub struct FsError {
    pub kind: FsErrorKind,
    pub path: String,
    pub message: String,
}

/// The outcome classes of an operating-system call, as the embedding
/// program reports them to the library.
#[derive(Clone, Copy, Debug, PartialEq, Eq, Structural)]
pub enum OsErrorKind {
    NotFound,
    PermissionDenied,
    AlreadyExists,
    Other,
}

/// A failed operating-system call: its class and its message.
#[derive(Clone, Debug)]
pub struct OsFailure {
    pub kind: OsErrorKind,
    pub message: String,
}

/// The error kind under which an operating-system failure is reported:
/// existence failures keep their tag, everything else (permissions
/// included) is a generic I/O error. `AccessDenied` is reserved for
/// sandbox escapes and is never produced by this mapping.
pub open spec fn kind_of_os(k: OsErrorKind) -> FsErrorKind {
    match k {
        OsErrorKind::NotFound => FsErrorKind::NotFound,
        OsErrorKind::AlreadyExists => FsErrorKind::AlreadyExists,
        OsErrorKind::PermissionDenied => FsErrorKind::IoError,
        OsErrorKind::Other => FsErrorKind::IoError,
    }
}

/// Classifies a failed operating-system call against the taxonomy,
/// keeping the path it concerned and its message.
pub fn classify_os_failure(f: OsFailure, path: String) -> (e: FsError)
    ensures
        e.kind == kind_of_os(f.kind),
        e.path@ == path@,
        e.message@ == f.message@,
{
    let kind = match f.kind {
        OsErrorKind::NotFound => FsErrorKind::NotFound,
        OsErrorKind::AlreadyExists => FsErrorKind::AlreadyExists,
        OsErrorKind::PermissionDenied => FsErrorKind::IoError,
        OsErrorKind::Other => FsErrorKind::IoError,
    };
    FsError { kind, path, message: f.message }
}

} // verus!
