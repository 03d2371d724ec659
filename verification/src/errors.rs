//! Object-store errors and the errno values that answer them.

use vstd::prelude::*;

verus! {

/// The errors that the object store reports.
#[derive(Clone, Copy, Debug, PartialEq, Eq, Structural)]
pub enum FxfsError {
    AlreadyExists,
    Inconsistent,
    Internal,
    NotDir,
    NotFile,
    NotFound,
    NotEmpty,
    ReadOnlyFilesystem,
    NoSpace,
    Deleted,
    InvalidArgs,
    TooBig,
    InvalidVersion,
    JournalFlushError,
    NotSupported,
    AccessDenied,
    OutOfRange,
    AlreadyBound,
    BadPath,
    WrongType,
}

/// The errno values that the FUSE layer answers with, by name; the host's C library
/// gives each its number.
#[allow(non_camel_case_types)]
#[derive(Clone, Copy, Debug, PartialEq, Eq, Structural)]
pub enum Errno {
    EPIPE,
    ENOENT,
    ENOTDIR,
    EEXIST,
    EISDIR,
    ENOTEMPTY,
    EROFS,
    ENOSPC,
    EINVAL,
    EFBIG,
    ENOTSUP,
    ELIBACC,
    ERANGE,
    EALREADY,
    ENOSYS,
}

/// A failed object-store operation, as far as the FUSE layer reads it: the
/// `FxfsError` at the root of its chain of causes, if the root cause is one.
#[derive(Clone, Copy, Debug, PartialEq, Eq, Structural)]
pub struct FsError {
    pub root_cause: Option<FxfsError>,
}

/// The errno that answers an object-store error whose root cause is `root_cause`.
pub open spec fn errno_for(root_cause: Option<FxfsError>) -> Errno {
    match root_cause {
        Some(FxfsError::Inconsistent) => Errno::EPIPE,
        Some(FxfsError::NotFound) => Errno::ENOENT,
        Some(FxfsError::NotDir) => Errno::ENOTDIR,
        Some(FxfsError::Deleted) => Errno::ENOENT,
        Some(FxfsError::AlreadyExists) => Errno::EEXIST,
        Some(FxfsError::Internal) => Errno::EPIPE,
        Some(FxfsError::NotFile) => Errno::EISDIR,
        Some(FxfsError::NotEmpty) => Errno::ENOTEMPTY,
        Some(FxfsError::ReadOnlyFilesystem) => Errno::EROFS,
        Some(FxfsError::NoSpace) => Errno::ENOSPC,
        Some(FxfsError::InvalidArgs) => Errno::EINVAL,
        Some(FxfsError::TooBig) => Errno::EFBIG,
        Some(FxfsError::InvalidVersion) => Errno::ENOTSUP,
        Some(FxfsError::JournalFlushError) => Errno::ENOTSUP,
        Some(FxfsError::NotSupported) => Errno::ENOTSUP,
        Some(FxfsError::AccessDenied) => Errno::ELIBACC,
        Some(FxfsError::OutOfRange) => Errno::ERANGE,
        Some(FxfsError::AlreadyBound) => Errno::EALREADY,
        Some(_) => Errno::ENOTSUP,
        None => Errno::ENOTSUP,
    }
}

/// Maps an object-store error to the errno that FUSE answers with: by the `FxfsError`
/// at its root, and `ENOTSUP` when the root cause is no `FxfsError` or has no errno of
/// its own.
pub fn cast_to_fuse_error(err: &FsError) -> (errno: Errno)
    ensures
        errno == errno_for(err.root_cause),
{
    match err.root_cause {
        Some(root_cause) => match root_cause {
            FxfsError::Inconsistent => Errno::EPIPE,
            FxfsError::NotFound => Errno::ENOENT,
            FxfsError::NotDir => Errno::ENOTDIR,
            FxfsError::Deleted => Errno::ENOENT,
            FxfsError::AlreadyExists => Errno::EEXIST,
            FxfsError::Internal => Errno::EPIPE,
            FxfsError::NotFile => Errno::EISDIR,
            FxfsError::NotEmpty => Errno::ENOTEMPTY,
            FxfsError::ReadOnlyFilesystem => Errno::EROFS,
            FxfsError::NoSpace => Errno::ENOSPC,
            FxfsError::InvalidArgs => Errno::EINVAL,
            FxfsError::TooBig => Errno::EFBIG,
            FxfsError::InvalidVersion => Errno::ENOTSUP,
            FxfsError::JournalFlushError => Errno::ENOTSUP,
            FxfsError::NotSupported => Errno::ENOTSUP,
            FxfsError::AccessDenied => Errno::ELIBACC,
            FxfsError::OutOfRange => Errno::ERANGE,
            FxfsError::AlreadyBound => Errno::EALREADY,
            _ => Errno::ENOTSUP,
        },
        None => Errno::ENOTSUP,
    }
}

/// Turns the result of an object-store operation into the result of a FUSE request.
pub trait FuseErrorParser<S>: Sized {
    fn parse_error(self) -> Result<S, Errno>;
}

impl<S> FuseErrorParser<S> for Result<S, FsError> {
    /// A success passes through unchanged; an error becomes its errno.
    fn parse_error(self) -> (res: Result<S, Errno>)
        ensures
            match self {
                Ok(v) => res == Ok::<S, Errno>(v),
                Err(e) => res == Err::<S, Errno>(errno_for(e.root_cause)),
            },
    {
        match self {
            Ok(ret) => Ok(ret),
            Err(e) => Err(cast_to_fuse_error(&e)),
        }
    }
}

} // verus!
