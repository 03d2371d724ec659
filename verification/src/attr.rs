//! The attributes that FUSE reports for files and directories.

use vstd::prelude::*;

verus! {

/// A point in time as the object store records it: whole seconds and nanoseconds
/// since the Unix epoch.
#[derive(Clone, Copy, Debug, PartialEq, Eq, Structural)]
pub struct Timestamp {
    pub secs: u64,
    pub nanos: u32,
}

/// A point in time as FUSE reports it: signed seconds and nanoseconds since the
/// Unix epoch.
#[derive(Clone, Copy, Debug, PartialEq, Eq, Structural)]
pub struct FuseTimestamp {
    pub sec: i64,
    pub nsec: u32,
}

/// The kinds of file that FUSE reports.
#[derive(Clone, Copy, Debug, PartialEq, Eq, Structural)]
pub enum FileType {
    NamedPipe,
    CharDevice,
    BlockDevice,
    Directory,
    RegularFile,
    Symlink,
    Socket,
}

/// The attributes of a file or directory as FUSE reports them to the kernel.
#[derive(Clone, Copy, Debug, PartialEq, Eq, Structural)]
pub struct FileAttr {
    pub ino: u64,
    pub generation: u64,
    pub size: u64,
    pub blocks: u64,
    pub atime: FuseTimestamp,
    pub mtime: FuseTimestamp,
    pub ctime: FuseTimestamp,
    pub kind: FileType,
    pub perm: u16,
    pub nlink: u32,
    pub uid: u32,
    pub gid: u32,
    pub rdev: u32,
    pub blksize: u32,
}

/// The file-type bits (`S_IF*`) of a mode, for each kind of file.
pub open spec fn file_type_mode_bits(kind: FileType) -> u32 {
    match kind {
        FileType::NamedPipe => 0o10000,
        FileType::CharDevice => 0o20000,
        FileType::BlockDevice => 0o60000,
        FileType::Directory => 0o40000,
        FileType::RegularFile => 0o100000,
        FileType::Symlink => 0o120000,
        FileType::Socket => 0o140000,
    }
}

/// The permission bits that FUSE reports for a file of kind `kind` created with `mode`.
pub open spec fn perm_of(kind: FileType, mode: u32) -> u16 {
    (mode ^ file_type_mode_bits(kind)) as u16
}

/// The FUSE form of a stored timestamp: the seconds taken as a signed 64-bit number.
pub open spec fn fuse_timestamp_of(time: Timestamp) -> FuseTimestamp {
    FuseTimestamp { sec: time.secs as i64, nsec: time.nanos }
}

/// The attributes reported for an object of kind `kind`: its id as inode number, the
/// given size, the Unix epoch as access time, the stored modification and creation
/// times, and every other count and id zero.
pub open spec fn object_attr_of(
    kind: FileType,
    id: u64,
    size: u64,
    creation_time: Timestamp,
    modification_time: Timestamp,
    mode: u32,
) -> FileAttr {
    FileAttr {
        ino: id,
        generation: 0,
        size: size,
        blocks: 0,
        atime: FuseTimestamp { sec: 0, nsec: 0 },
        mtime: fuse_timestamp_of(modification_time),
        ctime: fuse_timestamp_of(creation_time),
        kind: kind,
        perm: perm_of(kind, mode),
        nlink: 0,
        uid: 0,
        gid: 0,
        rdev: 0,
        blksize: 0,
    }
}

/// Calls `fuse3::perm_from_mode_and_kind`, which on Linux computes
/// `(mode ^ S_IF*(kind)) as u16`, the `S_IF*` constants being those of
/// `file_type_mode_bits`.
#[verifier::external_body]
fn perm_from_mode_and_kind(kind: FileType, mode: u32) -> (perm: u16)
    ensures
        perm == perm_of(kind, mode),
{
    let kind = match kind {
        FileType::NamedPipe => fuse3::FileType::NamedPipe,
        FileType::CharDevice => fuse3::FileType::CharDevice,
        FileType::BlockDevice => fuse3::FileType::BlockDevice,
        FileType::Directory => fuse3::FileType::Directory,
        FileType::RegularFile => fuse3::FileType::RegularFile,
        FileType::Symlink => fuse3::FileType::Symlink,
        FileType::Socket => fuse3::FileType::Socket,
    };
    fuse3::perm_from_mode_and_kind(kind, mode)
}

/// Calls `From<SystemTime> for fuse3::Timestamp` on `SystemTime::UNIX_EPOCH`; it takes
/// the duration since the epoch, which is zero seconds and zero nanoseconds.
#[verifier::external_body]
fn unix_epoch_timestamp() -> (t: FuseTimestamp)
    ensures
        t == (FuseTimestamp { sec: 0, nsec: 0 }),
{
    let t = fuse3::Timestamp::from(std::time::SystemTime::UNIX_EPOCH);
    FuseTimestamp { sec: t.sec, nsec: t.nsec }
}

/// Converts a stored timestamp to the form FUSE reports.
pub fn to_fuse_timestamp(time: Timestamp) -> (t: FuseTimestamp)
    ensures
        t == fuse_timestamp_of(time),
        time.secs <= i64::MAX ==> t.sec == time.secs,
{
    FuseTimestamp { sec: time.secs as i64, nsec: time.nanos }
}

fn create_object_attr_of_kind(
    kind: FileType,
    id: u64,
    size: u64,
    creation_time: Timestamp,
    modification_time: Timestamp,
    mode: u32,
) -> (attr: FileAttr)
    ensures
        attr == object_attr_of(kind, id, size, creation_time, modification_time, mode),
{
    FileAttr {
        ino: id,
        generation: 0,
        size,
        blocks: 0,
        atime: unix_epoch_timestamp(),
        mtime: to_fuse_timestamp(modification_time),
        ctime: to_fuse_timestamp(creation_time),
        kind,
        perm: perm_from_mode_and_kind(kind, mode),
        nlink: 0,
        uid: 0,
        gid: 0,
        rdev: 0,
        blksize: 0,
    }
}

/// The attributes of the directory `id`.
pub fn create_dir_attr(
    id: u64,
    size: u64,
    creation_time: Timestamp,
    modification_time: Timestamp,
    mode: u32,
) -> (attr: FileAttr)
    ensures
        attr == object_attr_of(FileType::Directory, id, size, creation_time, modification_time, mode),
{
    create_object_attr_of_kind(FileType::Directory, id, size, creation_time, modification_time, mode)
}

/// The attributes of the regular file `id`.
pub fn create_file_attr(
    id: u64,
    size: u64,
    creation_time: Timestamp,
    modification_time: Timestamp,
    mode: u32,
) -> (attr: FileAttr)
    ensures
        attr == object_attr_of(FileType::RegularFile, id, size, creation_time, modification_time, mode),
{
    create_object_attr_of_kind(FileType::RegularFile, id, size, creation_time, modification_time, mode)
}

/// The attributes of an object report what they are built from, whatever its kind: the id
/// as inode number, the size, the kind, the stored modification time as `mtime` and the
/// stored creation time as `ctime` (seconds taken as signed, nanoseconds kept), the Unix
/// epoch as `atime`, the permission bits of `mode` for that kind, and zero for the rest.
pub proof fn lemma_attributes_report_their_inputs(
    kind: FileType,
    id: u64,
    size: u64,
    creation_time: Timestamp,
    modification_time: Timestamp,
    mode: u32,
)
    ensures
        ({
            let a = object_attr_of(kind, id, size, creation_time, modification_time, mode);
            &&& a.ino == id
            &&& a.size == size
            &&& a.kind == kind
            &&& a.mtime == (FuseTimestamp { sec: modification_time.secs as i64, nsec: modification_time.nanos })
            &&& a.ctime == (FuseTimestamp { sec: creation_time.secs as i64, nsec: creation_time.nanos })
            &&& a.atime == (FuseTimestamp { sec: 0, nsec: 0 })
            &&& a.perm == (mode ^ file_type_mode_bits(kind)) as u16
            &&& a.generation == 0 && a.blocks == 0 && a.nlink == 0
            &&& a.uid == 0 && a.gid == 0 && a.rdev == 0 && a.blksize == 0
        }),
        creation_time != modification_time && creation_time.secs <= i64::MAX && modification_time.secs <= i64::MAX
            ==> object_attr_of(kind, id, size, creation_time, modification_time, mode).mtime
                != object_attr_of(kind, id, size, creation_time, modification_time, mode).ctime,
{
}

} // verus!
