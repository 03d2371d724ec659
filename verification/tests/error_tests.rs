use fxfs_fuse::errors::{cast_to_fuse_error, Errno, FsError, FuseErrorParser, FxfsError};

fn errno_of(e: FxfsError) -> Errno {
    cast_to_fuse_error(&FsError { root_cause: Some(e) })
}

#[test]
fn each_store_error_has_its_errno() {
    assert_eq!(errno_of(FxfsError::Inconsistent), Errno::EPIPE);
    assert_eq!(errno_of(FxfsError::NotFound), Errno::ENOENT);
    assert_eq!(errno_of(FxfsError::NotDir), Errno::ENOTDIR);
    assert_eq!(errno_of(FxfsError::Deleted), Errno::ENOENT);
    assert_eq!(errno_of(FxfsError::AlreadyExists), Errno::EEXIST);
    assert_eq!(errno_of(FxfsError::Internal), Errno::EPIPE);
    assert_eq!(errno_of(FxfsError::NotFile), Errno::EISDIR);
    assert_eq!(errno_of(FxfsError::NotEmpty), Errno::ENOTEMPTY);
    assert_eq!(errno_of(FxfsError::ReadOnlyFilesystem), Errno::EROFS);
    assert_eq!(errno_of(FxfsError::NoSpace), Errno::ENOSPC);
    assert_eq!(errno_of(FxfsError::InvalidArgs), Errno::EINVAL);
    assert_eq!(errno_of(FxfsError::TooBig), Errno::EFBIG);
    assert_eq!(errno_of(FxfsError::InvalidVersion), Errno::ENOTSUP);
    assert_eq!(errno_of(FxfsError::JournalFlushError), Errno::ENOTSUP);
    assert_eq!(errno_of(FxfsError::NotSupported), Errno::ENOTSUP);
    assert_eq!(errno_of(FxfsError::AccessDenied), Errno::ELIBACC);
    assert_eq!(errno_of(FxfsError::OutOfRange), Errno::ERANGE);
    assert_eq!(errno_of(FxfsError::AlreadyBound), Errno::EALREADY);
}

#[test]
fn store_errors_without_an_errno_are_not_supported() {
    assert_eq!(errno_of(FxfsError::BadPath), Errno::ENOTSUP);
    assert_eq!(errno_of(FxfsError::WrongType), Errno::ENOTSUP);
}

#[test]
fn foreign_errors_are_not_supported() {
    assert_eq!(cast_to_fuse_error(&FsError { root_cause: None }), Errno::ENOTSUP);
}

#[test]
fn parse_error_passes_success_through() {
    let ok: Result<Vec<u8>, FsError> = Ok(vec![1, 2, 3]);
    assert_eq!(ok.parse_error(), Ok(vec![1, 2, 3]));
}

#[test]
fn parse_error_maps_failure_to_errno() {
    let failed: Result<u64, FsError> = Err(FsError { root_cause: Some(FxfsError::NotEmpty) });
    assert_eq!(failed.parse_error(), Err(Errno::ENOTEMPTY));
    let foreign: Result<u64, FsError> = Err(FsError { root_cause: None });
    assert_eq!(foreign.parse_error(), Err(Errno::ENOTSUP));
}
