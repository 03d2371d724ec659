use fxfs_fuse::attr::{create_dir_attr, create_file_attr, to_fuse_timestamp, FileType, FuseTimestamp, Timestamp};

fn times() -> (Timestamp, Timestamp) {
    (Timestamp { secs: 100, nanos: 7 }, Timestamp { secs: 200, nanos: 9 })
}

#[test]
fn dir_attr_reports_directory_fields() {
    let (created, modified) = times();
    let attr = create_dir_attr(42, 8192, created, modified, 0o755);
    assert_eq!(attr.ino, 42);
    assert_eq!(attr.size, 8192);
    assert_eq!(attr.kind, FileType::Directory);
    assert_eq!(attr.ctime, FuseTimestamp { sec: 100, nsec: 7 });
    assert_eq!(attr.mtime, FuseTimestamp { sec: 200, nsec: 9 });
    assert_eq!(attr.atime, FuseTimestamp { sec: 0, nsec: 0 });
    assert_eq!(attr.generation, 0);
    assert_eq!(attr.blocks, 0);
    assert_eq!(attr.nlink, 0);
    assert_eq!(attr.uid, 0);
    assert_eq!(attr.gid, 0);
    assert_eq!(attr.rdev, 0);
    assert_eq!(attr.blksize, 0);
}

#[test]
fn dir_attr_perm_flips_directory_bits() {
    let (created, modified) = times();
    // a bare permission gains the directory type bits
    assert_eq!(create_dir_attr(1, 0, created, modified, 0o755).perm, 0o40755);
    // a full directory mode loses them
    assert_eq!(create_dir_attr(1, 0, created, modified, 0o40700).perm, 0o700);
}

#[test]
fn file_attr_reports_regular_file_fields() {
    let (created, modified) = times();
    let attr = create_file_attr(7, 12, created, modified, 0o100644);
    assert_eq!(attr.ino, 7);
    assert_eq!(attr.size, 12);
    assert_eq!(attr.kind, FileType::RegularFile);
    assert_eq!(attr.perm, 0o644);
    assert_eq!(attr.atime, FuseTimestamp { sec: 0, nsec: 0 });
    assert_eq!(create_file_attr(7, 12, created, modified, 0o755).perm, 0o100755);
}

#[test]
fn perm_is_cut_to_sixteen_bits() {
    let (created, modified) = times();
    // bit 16 and above do not survive
    assert_eq!(create_file_attr(7, 12, created, modified, 0x1_0000 | 0o100644).perm, 0o644);
}

#[test]
fn timestamp_seconds_become_signed() {
    assert_eq!(to_fuse_timestamp(Timestamp { secs: 5, nanos: 6 }), FuseTimestamp { sec: 5, nsec: 6 });
    assert_eq!(
        to_fuse_timestamp(Timestamp { secs: i64::MAX as u64, nanos: 0 }),
        FuseTimestamp { sec: i64::MAX, nsec: 0 }
    );
    assert_eq!(to_fuse_timestamp(Timestamp { secs: u64::MAX, nanos: 1 }), FuseTimestamp { sec: -1, nsec: 1 });
}
