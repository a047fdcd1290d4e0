use vstd::prelude::*;

verus! {

/// The kinds of failure a scan reports to its caller.
#[derive(Debug, Clone, Copy, PartialEq, Eq, Structural)]
pub enum SizeTreeError {
    /// The scanned root path does not exist.
    PathDoesNotExist,
    /// The root path is neither a regular file nor a directory.
    UnsuportedFileType,
    /// An I/O operation was denied access.
    PermissionDenied,
    /// Any other I/O failure.
    OtherIoError,
}

/// The class of an I/O failure, as far as a scan tells them apart.
#[derive(Debug, Clone, Copy, PartialEq, Eq, Structural)]
pub enum IoErrorKind {
    NotFound,
    PermissionDenied,
    Other,
}

pub open spec fn error_of_kind(kind: IoErrorKind) -> SizeTreeError {
    match kind {
        IoErrorKind::NotFound => SizeTreeError::PathDoesNotExist,
        IoErrorKind::PermissionDenied => SizeTreeError::PermissionDenied,
        IoErrorKind::Other => SizeTreeError::OtherIoError,
    }
}

impl SizeTreeError {
    /// Maps the class of an I/O failure to the error a scan reports.
    pub fn from(kind: IoErrorKind) -> (r: SizeTreeError)
        ensures
            r == error_of_kind(kind),
    {
        match kind {
            IoErrorKind::NotFound => SizeTreeError::PathDoesNotExist,
            IoErrorKind::PermissionDenied => SizeTreeError::PermissionDenied,
            IoErrorKind::Other => SizeTreeError::OtherIoError,
        }
    }
}

} // verus!
