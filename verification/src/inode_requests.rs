//! FUSE requests on objects named by inode number (open, read, write, fallocate,
//! getattr, setattr, readdirplus), as machines that decide each next action from the
//! outcome of the last.

use vstd::prelude::*;
use crate::attr::{FileAttr, FileType, FuseTimestamp};
use crate::errors::{cast_to_fuse_error, errno_for, Errno, FsError};
use crate::fuse_fs::{
    create_object_attr, get_object_type, object_attr_result, object_type_of, ObjectDescriptor,
    ObjectKind, ObjectProperties, ObjectValue,
};
use crate::fuse_handler::{check_inode, inode_check, InodeRequest};
use crate::read::{
    append_bytes, lemma_read_goes_on_only_after_a_whole_block, read_answer, read_continues, read_kept, read_step,
    ReadState, ReadStep,
};

verus! {

/// A FUSE request on the object with a given inode number, with the arguments its actions
/// and decisions use. `B` holds bytes: a `Vec<u8>` in a running request, a `Seq<u8>` in
/// its view.
pub enum InodeOp<B> {
    Open,
    /// Reads `size` bytes at `offset`; the filesystem's blocks are `fs_block_size` bytes.
    Read { offset: u64, size: u32, fs_block_size: u64 },
    /// Writes `data` at `offset`.
    Write { offset: u64, data: B },
    /// Sets the file's size to `length`; the offset the request names is not used.
    Fallocate { offset: u64, length: u64 },
    Getattr,
    /// Reports the object's attributes after a transaction that changes nothing: the new
    /// creation and modification times the request names are not written, the FUSE layer
    /// building that write and never running it.
    Setattr { ctime: Option<FuseTimestamp>, mtime: Option<FuseTimestamp> },
    /// Lists the directory.
    Readdirplus,
}

/// The name of a directory entry that readdirplus lists.
#[derive(Clone, Copy, Debug, PartialEq, Eq, Structural)]
pub enum DirEntryName {
    /// `.`
    Dot,
    /// `..`
    DotDot,
}

/// A directory entry that readdirplus lists, with its attributes and the offset of the
/// entry after it.
#[derive(Clone, Copy, Debug, PartialEq, Eq, Structural)]
pub struct DirEntry {
    pub inode: u64,
    pub kind: FileType,
    pub name: DirEntryName,
    pub offset: i64,
    pub attr: FileAttr,
}

/// What an inode request waits for.
pub enum InodeStage<B> {
    /// The record under the object's key.
    FindingType,
    /// The object, of type `object_type`, to open.
    OpeningObject { object_type: ObjectDescriptor },
    /// The next read of a read request, at `ofs`; the read started at `start` and reads up
    /// to position `len`, has gathered `out`, and the object's blocks are `block_size` bytes.
    Reading { start: u64, ofs: u64, len: u64, out: B, block_size: u64 },
    /// The write of the data.
    Writing,
    /// The truncation of the file.
    Truncating,
    /// The flush of the object.
    Flushing,
    /// A new transaction.
    StartingTransaction { object_type: ObjectDescriptor },
    /// The commit of the transaction.
    Committing { object_type: ObjectDescriptor },
    /// The stored properties of the object, of type `object_type`.
    GettingProperties { object_type: ObjectDescriptor },
    /// The stored properties of the directory, for its `.` entry.
    ListingDot,
    /// The stored properties of the directory, for its `..` entry; `dot` is its `.` entry.
    ListingDotDot { dot: DirEntry },
    /// Nothing: the request has been answered.
    Finished,
}

/// What the FUSE layer hands back to an inode request after doing its action.
pub enum InodeEvent<B> {
    /// The outcome of starting or committing a transaction, writing, truncating or
    /// flushing.
    Done(Result<(), FsError>),
    /// The record found under the object's key, if any.
    Record(Result<Option<ObjectValue>, FsError>),
    /// The object opened, with its block size.
    Opened(Result<u64, FsError>),
    /// The stored properties of the object.
    Properties(Result<ObjectProperties, FsError>),
    /// The bytes one read from the object returned.
    Read(Result<B, FsError>),
}

/// The answer to an inode request.
pub enum InodeReply<B> {
    /// The file opened, with the handle and flags handed back (open).
    Opened { fh: u64, flags: u32 },
    /// The object's attributes (getattr, setattr).
    Attr(FileAttr),
    /// The bytes read (read).
    Data(B),
    /// The count of bytes written (write).
    Written(u32),
    /// Success with nothing to report (fallocate).
    Empty,
    /// The directory's `.` and `..` entries (readdirplus).
    DirEntries { dot: DirEntry, dotdot: DirEntry },
    Error(Errno),
}

/// What an inode request asks the FUSE layer to do next.
pub enum InodeAction<B> {
    /// Find the record under the key of the object `object_id`.
    FindObject { object_id: u64 },
    /// Open the object `object_id`.
    OpenObject { object_id: u64 },
    /// Read from the object at `offset`, up to one block.
    ReadAt { offset: u64 },
    /// Write `data` into the object at `offset`.
    Write { offset: u64, data: B },
    /// Set the file's size to `length`.
    Truncate { length: u64 },
    /// Flush the object.
    Flush,
    /// Start a transaction.
    NewTransaction,
    /// Commit the transaction.
    Commit,
    /// Fetch the stored properties of the object `object_id`.
    GetProperties { object_id: u64 },
    /// Answer the request.
    Reply(InodeReply<B>),
}

/// A FUSE request on the object `inode` in progress.
pub struct InodeMachine<B> {
    pub op: InodeOp<B>,
    pub inode: u64,
    pub stage: InodeStage<B>,
}

pub open spec fn inode_op_view(op: InodeOp<Vec<u8>>) -> InodeOp<Seq<u8>> {
    match op {
        InodeOp::Open => InodeOp::Open,
        InodeOp::Read { offset, size, fs_block_size } => InodeOp::Read { offset, size, fs_block_size },
        InodeOp::Write { offset, data } => InodeOp::Write { offset, data: data@ },
        InodeOp::Fallocate { offset, length } => InodeOp::Fallocate { offset, length },
        InodeOp::Getattr => InodeOp::Getattr,
        InodeOp::Setattr { ctime, mtime } => InodeOp::Setattr { ctime, mtime },
        InodeOp::Readdirplus => InodeOp::Readdirplus,
    }
}

pub open spec fn inode_stage_view(stage: InodeStage<Vec<u8>>) -> InodeStage<Seq<u8>> {
    match stage {
        InodeStage::FindingType => InodeStage::FindingType,
        InodeStage::OpeningObject { object_type } => InodeStage::OpeningObject { object_type },
        InodeStage::Reading { start, ofs, len, out, block_size } => InodeStage::Reading {
            start,
            ofs,
            len,
            out: out@,
            block_size,
        },
        InodeStage::Writing => InodeStage::Writing,
        InodeStage::Truncating => InodeStage::Truncating,
        InodeStage::Flushing => InodeStage::Flushing,
        InodeStage::StartingTransaction { object_type } => InodeStage::StartingTransaction { object_type },
        InodeStage::Committing { object_type } => InodeStage::Committing { object_type },
        InodeStage::GettingProperties { object_type } => InodeStage::GettingProperties { object_type },
        InodeStage::ListingDot => InodeStage::ListingDot,
        InodeStage::ListingDotDot { dot } => InodeStage::ListingDotDot { dot },
        InodeStage::Finished => InodeStage::Finished,
    }
}

impl View for InodeOp<Vec<u8>> {
    type V = InodeOp<Seq<u8>>;

    open spec fn view(&self) -> InodeOp<Seq<u8>> {
        inode_op_view(*self)
    }
}

impl View for InodeMachine<Vec<u8>> {
    type V = InodeMachine<Seq<u8>>;

    open spec fn view(&self) -> InodeMachine<Seq<u8>> {
        InodeMachine { op: inode_op_view(self.op), inode: self.inode, stage: inode_stage_view(self.stage) }
    }
}

impl View for InodeEvent<Vec<u8>> {
    type V = InodeEvent<Seq<u8>>;

    open spec fn view(&self) -> InodeEvent<Seq<u8>> {
        match *self {
            InodeEvent::Done(r) => InodeEvent::Done(r),
            InodeEvent::Record(r) => InodeEvent::Record(r),
            InodeEvent::Opened(r) => InodeEvent::Opened(r),
            InodeEvent::Properties(r) => InodeEvent::Properties(r),
            InodeEvent::Read(Ok(data)) => InodeEvent::Read(Ok(data@)),
            InodeEvent::Read(Err(e)) => InodeEvent::Read(Err(e)),
        }
    }
}

impl View for InodeAction<Vec<u8>> {
    type V = InodeAction<Seq<u8>>;

    open spec fn view(&self) -> InodeAction<Seq<u8>> {
        match *self {
            InodeAction::FindObject { object_id } => InodeAction::FindObject { object_id },
            InodeAction::OpenObject { object_id } => InodeAction::OpenObject { object_id },
            InodeAction::ReadAt { offset } => InodeAction::ReadAt { offset },
            InodeAction::Write { offset, data } => InodeAction::Write { offset, data: data@ },
            InodeAction::Truncate { length } => InodeAction::Truncate { length },
            InodeAction::Flush => InodeAction::Flush,
            InodeAction::NewTransaction => InodeAction::NewTransaction,
            InodeAction::Commit => InodeAction::Commit,
            InodeAction::GetProperties { object_id } => InodeAction::GetProperties { object_id },
            InodeAction::Reply(reply) => InodeAction::Reply(
                match reply {
                    InodeReply::Opened { fh, flags } => InodeReply::Opened { fh, flags },
                    InodeReply::Attr(attr) => InodeReply::Attr(attr),
                    InodeReply::Data(out) => InodeReply::Data(out@),
                    InodeReply::Written(n) => InodeReply::Written(n),
                    InodeReply::Empty => InodeReply::Empty,
                    InodeReply::DirEntries { dot, dotdot } => InodeReply::DirEntries { dot, dotdot },
                    InodeReply::Error(e) => InodeReply::Error(e),
                },
            ),
        }
    }
}

/// The kind of a request, as the inode check knows it.
pub open spec fn inode_request_of(op: InodeOp<Seq<u8>>) -> InodeRequest {
    match op {
        InodeOp::Open => InodeRequest::Open,
        InodeOp::Read { .. } => InodeRequest::Read,
        InodeOp::Write { .. } => InodeRequest::Write,
        InodeOp::Fallocate { .. } => InodeRequest::Fallocate,
        InodeOp::Getattr => InodeRequest::Getattr,
        InodeOp::Setattr { .. } => InodeRequest::Setattr,
        InodeOp::Readdirplus => InodeRequest::Readdirplus,
    }
}

/// The store error that an event carries, if it carries one.
pub open spec fn inode_event_error(event: InodeEvent<Seq<u8>>) -> Option<FsError> {
    match event {
        InodeEvent::Done(Err(e)) => Some(e),
        InodeEvent::Record(Err(e)) => Some(e),
        InodeEvent::Opened(Err(e)) => Some(e),
        InodeEvent::Properties(Err(e)) => Some(e),
        InodeEvent::Read(Err(e)) => Some(e),
        _ => None,
    }
}

pub open spec fn inode_goto(
    m: InodeMachine<Seq<u8>>,
    stage: InodeStage<Seq<u8>>,
    action: InodeAction<Seq<u8>>,
) -> (InodeMachine<Seq<u8>>, InodeAction<Seq<u8>>) {
    (InodeMachine { op: m.op, inode: m.inode, stage }, action)
}

pub open spec fn inode_finish(m: InodeMachine<Seq<u8>>, reply: InodeReply<Seq<u8>>) -> (
    InodeMachine<Seq<u8>>,
    InodeAction<Seq<u8>>,
) {
    inode_goto(m, InodeStage::Finished, InodeAction::Reply(reply))
}

/// The directory entry `name` of the directory `inode`, listed with `attr`: `.` comes
/// first and `..` after it. The FUSE layer keeps no link to a directory's parent, so both
/// entries name the directory itself.
pub open spec fn dir_entry_of(inode: u64, name: DirEntryName, attr: FileAttr) -> DirEntry {
    DirEntry {
        inode,
        kind: FileType::Directory,
        name,
        offset: match name {
            DirEntryName::Dot => 1,
            DirEntryName::DotDot => 2,
        },
        attr,
    }
}

/// Whether the request would overflow its arithmetic on `event`, where the FUSE layer
/// panics: a read whose filesystem block size is zero, or whose size plus the distance of
/// its offset from the block below does not fit in 64 bits; or a read whose position has
/// gone past the position where it stops.
pub open spec fn inode_overflows(m: InodeMachine<Seq<u8>>, event: InodeEvent<Seq<u8>>) -> bool {
    match (m.stage, m.op, event) {
        (InodeStage::OpeningObject { .. }, InodeOp::Read { offset, size, fs_block_size }, InodeEvent::Opened(Ok(_))) =>
            fs_block_size == 0 || size + offset % fs_block_size > u64::MAX,
        (InodeStage::Reading { ofs, len, .. }, _, InodeEvent::Read(Ok(_))) => ofs > len,
        _ => false,
    }
}

/// The next state of an inode request, and what it asks for, after `event`. A store error
/// ends the request with its errno. Otherwise the request finds its object's record and
/// checks its type; then open answers at once; getattr fetches the properties; readdirplus
/// fetches the directory's properties twice, once for `.` and once for `..`, and lists the
/// two; the others open the object: read starts at the block boundary below its offset and
/// reads block by block as `read_step` decides; write writes its data at its offset and
/// flushes, answering the length written cut to 32 bits; fallocate truncates to its length
/// and flushes; setattr starts a transaction, commits it and fetches the properties.
pub open spec fn inode_next(m: InodeMachine<Seq<u8>>, event: InodeEvent<Seq<u8>>) -> (
    InodeMachine<Seq<u8>>,
    InodeAction<Seq<u8>>,
) {
    if let Some(e) = inode_event_error(event) {
        inode_finish(m, InodeReply::Error(errno_for(e.root_cause)))
    } else {
        match (m.stage, event) {
            (InodeStage::FindingType, InodeEvent::Record(Ok(record))) => match inode_check(
                inode_request_of(m.op),
                object_type_of(record),
            ) {
                Err(e) => inode_finish(m, InodeReply::Error(e)),
                Ok(object_type) => match m.op {
                    InodeOp::Open => inode_finish(m, InodeReply::Opened { fh: 0, flags: 0 }),
                    InodeOp::Getattr => inode_goto(
                        m,
                        InodeStage::GettingProperties { object_type },
                        InodeAction::GetProperties { object_id: m.inode },
                    ),
                    InodeOp::Readdirplus => inode_goto(
                        m,
                        InodeStage::ListingDot,
                        InodeAction::GetProperties { object_id: m.inode },
                    ),
                    _ => inode_goto(
                        m,
                        InodeStage::OpeningObject { object_type },
                        InodeAction::OpenObject { object_id: m.inode },
                    ),
                },
            },
            (InodeStage::OpeningObject { object_type }, InodeEvent::Opened(Ok(block_size))) => match m.op {
                InodeOp::Read { offset, size, fs_block_size } => {
                    let align = offset % fs_block_size;
                    let start = (offset - align) as u64;
                    inode_goto(
                        m,
                        InodeStage::Reading {
                            start,
                            ofs: start,
                            len: (size + align) as u64,
                            out: Seq::empty(),
                            block_size,
                        },
                        InodeAction::ReadAt { offset: start },
                    )
                },
                InodeOp::Write { offset, data } => inode_goto(
                    m,
                    InodeStage::Writing,
                    InodeAction::Write { offset, data },
                ),
                InodeOp::Fallocate { length, .. } => inode_goto(m, InodeStage::Truncating, InodeAction::Truncate { length }),
                _ => inode_goto(m, InodeStage::StartingTransaction { object_type }, InodeAction::NewTransaction),
            },
            (InodeStage::Reading { start, ofs, len, out, block_size }, InodeEvent::Read(Ok(data))) => {
                if read_continues(ofs as int, len as int, data, block_size as int) {
                    let next = (ofs + data.len()) as u64;
                    inode_goto(
                        m,
                        InodeStage::Reading { start, ofs: next, len, out: out + data, block_size },
                        InodeAction::ReadAt { offset: next },
                    )
                } else {
                    inode_finish(m, InodeReply::Data(out + read_kept(ofs as int, len as int, data)))
                }
            },
            (InodeStage::Writing, _) => inode_goto(m, InodeStage::Flushing, InodeAction::Flush),
            (InodeStage::Truncating, _) => inode_goto(m, InodeStage::Flushing, InodeAction::Flush),
            (InodeStage::Flushing, _) => match m.op {
                InodeOp::Write { data, .. } => inode_finish(m, InodeReply::Written(data.len() as u32)),
                _ => inode_finish(m, InodeReply::Empty),
            },
            (InodeStage::StartingTransaction { object_type }, _) => inode_goto(
                m,
                InodeStage::Committing { object_type },
                InodeAction::Commit,
            ),
            (InodeStage::Committing { object_type }, _) => inode_goto(
                m,
                InodeStage::GettingProperties { object_type },
                InodeAction::GetProperties { object_id: m.inode },
            ),
            (InodeStage::GettingProperties { object_type }, InodeEvent::Properties(Ok(properties))) => inode_finish(
                m,
                match object_attr_result(m.inode, object_type, properties) {
                    Ok(attr) => InodeReply::Attr(attr),
                    Err(e) => InodeReply::Error(e),
                },
            ),
            (InodeStage::ListingDot, InodeEvent::Properties(Ok(properties))) => match object_attr_result(
                m.inode,
                ObjectDescriptor::Directory,
                properties,
            ) {
                Ok(attr) => inode_goto(
                    m,
                    InodeStage::ListingDotDot { dot: dir_entry_of(m.inode, DirEntryName::Dot, attr) },
                    InodeAction::GetProperties { object_id: m.inode },
                ),
                Err(e) => inode_finish(m, InodeReply::Error(e)),
            },
            (InodeStage::ListingDotDot { dot }, InodeEvent::Properties(Ok(properties))) => inode_finish(
                m,
                match object_attr_result(m.inode, ObjectDescriptor::Directory, properties) {
                    Ok(attr) => InodeReply::DirEntries {
                        dot,
                        dotdot: dir_entry_of(m.inode, DirEntryName::DotDot, attr),
                    },
                    Err(e) => InodeReply::Error(e),
                },
            ),
            _ => inode_finish(m, InodeReply::Empty),
        }
    }
}

impl InodeMachine<Seq<u8>> {
    /// Whether `event` is what the request waits for.
    pub open spec fn expects(&self, event: InodeEvent<Seq<u8>>) -> bool {
        match self.stage {
            InodeStage::FindingType => event is Record,
            InodeStage::OpeningObject { .. } => event is Opened,
            InodeStage::Reading { .. } => event is Read,
            InodeStage::GettingProperties { .. } | InodeStage::ListingDot | InodeStage::ListingDotDot { .. } =>
                event is Properties,
            InodeStage::Finished => false,
            _ => event is Done,
        }
    }

    /// The stage fits the request: only read, write, fallocate and setattr open the
    /// object, the first three only a file; only a read reads, and then from the block
    /// boundary below its offset, having gathered exactly the bytes up to its position,
    /// towards the position it was started with; only write writes and only fallocate
    /// truncates, and only they flush; only setattr runs a transaction; only getattr and
    /// setattr fetch properties for attributes, and only readdirplus lists entries, `.`
    /// first.
    pub open spec fn wf(&self) -> bool {
        match self.stage {
            InodeStage::FindingType | InodeStage::Finished => true,
            InodeStage::OpeningObject { object_type } => match self.op {
                InodeOp::Read { .. } | InodeOp::Write { .. } | InodeOp::Fallocate { .. } =>
                    object_type == ObjectDescriptor::File,
                InodeOp::Setattr { .. } => true,
                _ => false,
            },
            InodeStage::Reading { start, ofs, len, out, .. } => match self.op {
                InodeOp::Read { offset, size, fs_block_size } => {
                    &&& fs_block_size > 0
                    &&& start == offset - offset % fs_block_size
                    &&& len == size + offset % fs_block_size
                    &&& start <= ofs
                    &&& out.len() == ofs - start
                },
                _ => false,
            },
            InodeStage::Writing => self.op is Write,
            InodeStage::Truncating => self.op is Fallocate,
            InodeStage::Flushing => self.op is Write || self.op is Fallocate,
            InodeStage::StartingTransaction { .. } | InodeStage::Committing { .. } => self.op is Setattr,
            InodeStage::GettingProperties { .. } => self.op is Getattr || self.op is Setattr,
            InodeStage::ListingDot => self.op is Readdirplus,
            InodeStage::ListingDotDot { dot } => self.op is Readdirplus && dot == dir_entry_of(
                self.inode,
                DirEntryName::Dot,
                dot.attr,
            ),
        }
    }
}

fn copy_bytes(data: &Vec<u8>) -> (copy: Vec<u8>)
    ensures
        copy@ == data@,
{
    let mut copy: Vec<u8> = Vec::new();
    append_bytes(&mut copy, data.as_slice(), data.len());
    assert(data@.subrange(0, data@.len() as int) == data@);
    copy
}

fn dir_entry(inode: u64, name: DirEntryName, attr: FileAttr) -> (entry: DirEntry)
    ensures
        entry == dir_entry_of(inode, name, attr),
{
    let offset: i64 = match name {
        DirEntryName::Dot => 1,
        DirEntryName::DotDot => 2,
    };
    DirEntry { inode, kind: FileType::Directory, name, offset, attr }
}

impl InodeMachine<Vec<u8>> {
    /// Starts the request `op` on the object `inode`: first its record is looked for.
    pub fn start(op: InodeOp<Vec<u8>>, inode: u64) -> (res: (InodeMachine<Vec<u8>>, InodeAction<Vec<u8>>))
        ensures
            res.0@ == (InodeMachine::<Seq<u8>> { op: op@, inode, stage: InodeStage::FindingType }),
            res.1@ == (InodeAction::<Seq<u8>>::FindObject { object_id: inode }),
            res.0@.wf(),
    {
        (InodeMachine { op, inode, stage: InodeStage::FindingType }, InodeAction::FindObject { object_id: inode })
    }

    /// Whether taking in `event` would overflow the request's arithmetic, where the FUSE
    /// layer panics.
    pub fn overflows(&self, event: &InodeEvent<Vec<u8>>) -> (b: bool)
        ensures
            b == inode_overflows(self@, event@),
    {
        match (&self.stage, event) {
            (InodeStage::OpeningObject { .. }, InodeEvent::Opened(Ok(_))) => match &self.op {
                InodeOp::Read { offset, size, fs_block_size } => {
                    *fs_block_size == 0 || *offset % *fs_block_size > u64::MAX - *size as u64
                },
                _ => false,
            },
            (InodeStage::Reading { ofs, len, .. }, InodeEvent::Read(Ok(_))) => *ofs > *len,
            _ => false,
        }
    }

    fn goto(self, stage: InodeStage<Vec<u8>>, action: InodeAction<Vec<u8>>) -> (res: (
        InodeMachine<Vec<u8>>,
        InodeAction<Vec<u8>>,
    ))
        ensures
            res.0@ == inode_goto(self@, inode_stage_view(stage), action@).0,
            res.1@ == action@,
    {
        (InodeMachine { op: self.op, inode: self.inode, stage }, action)
    }

    fn finish(self, reply: InodeReply<Vec<u8>>) -> (res: (InodeMachine<Vec<u8>>, InodeAction<Vec<u8>>))
        ensures
            res.0@ == (InodeMachine::<Seq<u8>> { op: self@.op, inode: self.inode, stage: InodeStage::Finished }),
            res.1@ == InodeAction::Reply(reply)@,
    {
        self.goto(InodeStage::Finished, InodeAction::Reply(reply))
    }

    /// Takes in the outcome of the last action and decides the next.
    pub fn step(self, event: InodeEvent<Vec<u8>>) -> (res: (InodeMachine<Vec<u8>>, InodeAction<Vec<u8>>))
        requires
            self@.expects(event@),
            !inode_overflows(self@, event@),
        ensures
            res.0@ == inode_next(self@, event@).0,
            res.1@ == inode_next(self@, event@).1,
            self@.wf() ==> res.0@.wf(),
    {
        proof {
            if self@.wf() {
                lemma_inode_step_keeps_wf(self@, event@);
            }
        }
        let error = match &event {
            InodeEvent::Done(Err(e)) => Some(*e),
            InodeEvent::Record(Err(e)) => Some(*e),
            InodeEvent::Opened(Err(e)) => Some(*e),
            InodeEvent::Properties(Err(e)) => Some(*e),
            InodeEvent::Read(Err(e)) => Some(*e),
            _ => None,
        };
        if let Some(e) = error {
            return self.finish(InodeReply::Error(cast_to_fuse_error(&e)));
        }
        let InodeMachine { op, inode, stage } = self;
        let m = InodeMachine { op, inode, stage: InodeStage::Finished };
        match stage {
            InodeStage::FindingType => {
                let record = match event {
                    InodeEvent::Record(Ok(record)) => record,
                    _ => None,
                };
                let request = match &m.op {
                    InodeOp::Open => InodeRequest::Open,
                    InodeOp::Read { .. } => InodeRequest::Read,
                    InodeOp::Write { .. } => InodeRequest::Write,
                    InodeOp::Fallocate { .. } => InodeRequest::Fallocate,
                    InodeOp::Getattr => InodeRequest::Getattr,
                    InodeOp::Setattr { .. } => InodeRequest::Setattr,
                    InodeOp::Readdirplus => InodeRequest::Readdirplus,
                };
                match check_inode(request, get_object_type(record)) {
                    Err(e) => m.finish(InodeReply::Error(e)),
                    Ok(object_type) => match &m.op {
                        InodeOp::Open => m.finish(InodeReply::Opened { fh: 0, flags: 0 }),
                        InodeOp::Getattr => m.goto(
                            InodeStage::GettingProperties { object_type },
                            InodeAction::GetProperties { object_id: inode },
                        ),
                        InodeOp::Readdirplus => m.goto(
                            InodeStage::ListingDot,
                            InodeAction::GetProperties { object_id: inode },
                        ),
                        _ => m.goto(
                            InodeStage::OpeningObject { object_type },
                            InodeAction::OpenObject { object_id: inode },
                        ),
                    },
                }
            },
            InodeStage::OpeningObject { object_type } => {
                let block_size = match event {
                    InodeEvent::Opened(Ok(block_size)) => block_size,
                    _ => 0,
                };
                match &m.op {
                    InodeOp::Read { offset, size, fs_block_size } => {
                        let read = ReadState::new(*offset, *size, *fs_block_size);
                        let start = read.start;
                        m.goto(
                            InodeStage::Reading { start, ofs: read.ofs, len: read.len, out: read.out, block_size },
                            InodeAction::ReadAt { offset: start },
                        )
                    },
                    InodeOp::Write { offset, data } => {
                        let offset = *offset;
                        let data = copy_bytes(data);
                        m.goto(InodeStage::Writing, InodeAction::Write { offset, data })
                    },
                    InodeOp::Fallocate { length, .. } => {
                        let length = *length;
                        m.goto(InodeStage::Truncating, InodeAction::Truncate { length })
                    },
                    _ => m.goto(InodeStage::StartingTransaction { object_type }, InodeAction::NewTransaction),
                }
            },
            InodeStage::Reading { start, ofs, len, out, block_size } => {
                let data = match event {
                    InodeEvent::Read(Ok(data)) => data,
                    _ => Vec::new(),
                };
                match read_step(ReadState { start, ofs, len, out }, data.as_slice(), block_size) {
                    ReadStep::Continue(next) => {
                        let next_ofs = next.ofs;
                        m.goto(
                            InodeStage::Reading { start: next.start, ofs: next.ofs, len: next.len, out: next.out, block_size },
                            InodeAction::ReadAt { offset: next_ofs },
                        )
                    },
                    ReadStep::Done(out) => m.finish(InodeReply::Data(out)),
                }
            },
            InodeStage::Writing | InodeStage::Truncating => m.goto(InodeStage::Flushing, InodeAction::Flush),
            InodeStage::Flushing => {
                let written = match &m.op {
                    InodeOp::Write { data, .. } => Some(data.len() as u32),
                    _ => None,
                };
                match written {
                    Some(n) => m.finish(InodeReply::Written(n)),
                    None => m.finish(InodeReply::Empty),
                }
            },
            InodeStage::StartingTransaction { object_type } => m.goto(
                InodeStage::Committing { object_type },
                InodeAction::Commit,
            ),
            InodeStage::Committing { object_type } => m.goto(
                InodeStage::GettingProperties { object_type },
                InodeAction::GetProperties { object_id: inode },
            ),
            InodeStage::GettingProperties { object_type } => {
                let properties = match event {
                    InodeEvent::Properties(Ok(properties)) => properties,
                    _ => {
                        return m.finish(InodeReply::Empty);
                    },
                };
                match create_object_attr(inode, object_type, &properties) {
                    Ok(attr) => m.finish(InodeReply::Attr(attr)),
                    Err(e) => m.finish(InodeReply::Error(e)),
                }
            },
            InodeStage::ListingDot => {
                let properties = match event {
                    InodeEvent::Properties(Ok(properties)) => properties,
                    _ => {
                        return m.finish(InodeReply::Empty);
                    },
                };
                match create_object_attr(inode, ObjectDescriptor::Directory, &properties) {
                    Ok(attr) => {
                        let dot = dir_entry(inode, DirEntryName::Dot, attr);
                        m.goto(InodeStage::ListingDotDot { dot }, InodeAction::GetProperties { object_id: inode })
                    },
                    Err(e) => m.finish(InodeReply::Error(e)),
                }
            },
            InodeStage::ListingDotDot { dot } => {
                let properties = match event {
                    InodeEvent::Properties(Ok(properties)) => properties,
                    _ => {
                        return m.finish(InodeReply::Empty);
                    },
                };
                match create_object_attr(inode, ObjectDescriptor::Directory, &properties) {
                    Ok(attr) => {
                        let dotdot = dir_entry(inode, DirEntryName::DotDot, attr);
                        m.finish(InodeReply::DirEntries { dot, dotdot })
                    },
                    Err(e) => m.finish(InodeReply::Error(e)),
                }
            },
            InodeStage::Finished => m.finish(InodeReply::Empty),
        }
    }
}

/// Every step keeps the stage fitting the request.
pub proof fn lemma_inode_step_keeps_wf(m: InodeMachine<Seq<u8>>, event: InodeEvent<Seq<u8>>)
    requires
        m.wf(),
        m.expects(event),
        !inode_overflows(m, event),
    ensures
        inode_next(m, event).0.wf(),
{
    if let InodeStage::OpeningObject { .. } = m.stage {
        if let InodeOp::Read { offset, size, fs_block_size } = m.op {
            if fs_block_size > 0 {
                assert(offset % fs_block_size <= offset) by (nonlinear_arith)
                    requires
                        fs_block_size > 0,
                ;
            }
        }
    }
}

/// Each step of an inode request keeps the request itself and answers exactly when it
/// finishes; a store error ends the request with the errno of its root cause.
pub proof fn lemma_inode_step_answers_when_finished(m: InodeMachine<Seq<u8>>, event: InodeEvent<Seq<u8>>)
    requires
        m.expects(event),
    ensures
        inode_next(m, event).0.op == m.op,
        inode_next(m, event).0.inode == m.inode,
        inode_next(m, event).1 is Reply <==> inode_next(m, event).0.stage is Finished,
        inode_event_error(event) matches Some(e) ==> inode_next(m, event) == inode_finish(
            m,
            InodeReply::Error(errno_for(e.root_cause)),
        ),
{
}

/// Open, read, write and fallocate reach into an object only when its record says it is a
/// file; open never reaches into it at all, answering as soon as its record is checked.
pub proof fn lemma_only_files_are_opened(m: InodeMachine<Seq<u8>>, event: InodeEvent<Seq<u8>>)
    requires
        m.wf(),
        m.expects(event),
    ensures
        inode_next(m, event).1 is OpenObject ==> {
            &&& m.stage is FindingType
            &&& event matches InodeEvent::Record(Ok(record))
            &&& (m.op is Read || m.op is Write || m.op is Fallocate) ==> object_type_of(record) == Some(ObjectDescriptor::File)
            &&& !(m.op is Open)
        },
        m.op is Open ==> inode_next(m, event).1 is Reply,
{
}

/// Open, read, getattr and readdirplus change nothing: they only find, open, read and fetch
/// properties before answering.
pub proof fn lemma_reading_requests_change_nothing(m: InodeMachine<Seq<u8>>, event: InodeEvent<Seq<u8>>)
    requires
        m.wf(),
        m.expects(event),
        m.op is Open || m.op is Read || m.op is Getattr || m.op is Readdirplus,
    ensures
        inode_next(m, event).1 is FindObject || inode_next(m, event).1 is OpenObject || inode_next(m, event).1 is ReadAt
            || inode_next(m, event).1 is GetProperties || inode_next(m, event).1 is Reply,
{
}

/// A write writes exactly its own data at its own offset, and answers with the length of
/// that data cut to 32 bits only once it is written and flushed.
pub proof fn lemma_write_writes_its_data(m: InodeMachine<Seq<u8>>, event: InodeEvent<Seq<u8>>)
    requires
        m.wf(),
        m.expects(event),
    ensures
        inode_next(m, event).1 matches InodeAction::Write { offset, data } ==> {
            &&& m.stage is OpeningObject
            &&& event matches InodeEvent::Opened(Ok(_))
            &&& m.op == (InodeOp::Write::<Seq<u8>> { offset, data })
        },
        inode_next(m, event).1 matches InodeAction::Reply(InodeReply::Written(n)) ==> {
            &&& m.stage is Flushing
            &&& event matches InodeEvent::Done(Ok(_))
            &&& m.op matches InodeOp::Write { data, .. } && n == data.len() as u32
        },
{
}

/// Readdirplus lists only a directory, and lists its `.` and `..` entries.
pub proof fn lemma_readdirplus_lists_a_directory(m: InodeMachine<Seq<u8>>, event: InodeEvent<Seq<u8>>)
    requires
        m.wf(),
        m.expects(event),
    ensures
        inode_next(m, event).0.stage is ListingDot ==> (event matches InodeEvent::Record(Ok(record))
            && object_type_of(record) == Some(ObjectDescriptor::Directory)),
        inode_next(m, event).1 matches InodeAction::Reply(InodeReply::DirEntries { dot, dotdot }) ==> {
            &&& m.op is Readdirplus
            &&& dot.name == DirEntryName::Dot && dot.inode == m.inode && dot.offset == 1
            &&& dotdot.name == DirEntryName::DotDot && dotdot.inode == m.inode && dotdot.offset == 2
        },
{
}

/// A read answers with at most the size asked for plus the distance of its offset from the
/// block boundary below it.
pub proof fn lemma_read_answer_is_bounded(m: InodeMachine<Seq<u8>>, event: InodeEvent<Seq<u8>>)
    requires
        m.wf(),
        m.expects(event),
        !inode_overflows(m, event),
    ensures
        inode_next(m, event).1 matches InodeAction::Reply(InodeReply::Data(out)) ==> (m.op matches InodeOp::Read {
            offset,
            size,
            fs_block_size,
        } && out.len() <= size + offset % fs_block_size),
{
    if let InodeStage::Reading { start, ofs, len, out, block_size } = m.stage {
        if let InodeEvent::Read(Ok(data)) = event {
            if !read_continues(ofs as int, len as int, data, block_size as int) {
                assert(read_kept(ofs as int, len as int, data).len() <= len - ofs);
            }
        }
    }
}

/// What a request answers when its successive reads return `reads`, if it answers within
/// them.
pub open spec fn inode_read_run(m: InodeMachine<Seq<u8>>, reads: Seq<Seq<u8>>) -> Option<Seq<u8>>
    decreases reads.len(),
{
    if reads.len() == 0 {
        None
    } else {
        let (next, action) = inode_next(m, InodeEvent::Read(Ok(reads[0])));
        match action {
            InodeAction::Reply(InodeReply::Data(out)) => Some(out),
            InodeAction::ReadAt { .. } => inode_read_run(next, reads.drop_first()),
            _ => None,
        }
    }
}

/// However many reads a read request makes, its answer is what it had gathered followed by
/// `read_answer` of those reads: the start of what they returned, one after the other.
pub proof fn lemma_read_request_answers_read_answer(m: InodeMachine<Seq<u8>>, reads: Seq<Seq<u8>>)
    requires
        m.stage is Reading,
    ensures
        inode_read_run(m, reads) matches Some(answer) ==> match m.stage {
            InodeStage::Reading { ofs, len, out, block_size, .. } =>
                answer == out + read_answer(ofs as int, len as int, reads, block_size as int),
            _ => false,
        },
    decreases reads.len(),
{
    if reads.len() > 0 {
        if let InodeStage::Reading { start, ofs, len, out, block_size } = m.stage {
            let d = reads[0];
            let rest = reads.drop_first();
            if read_continues(ofs as int, len as int, d, block_size as int) {
                let next = inode_next(m, InodeEvent::Read(Ok(d))).0;
                lemma_read_request_answers_read_answer(next, rest);
                assert((out + d) + read_answer((ofs + d.len()) as int, len as int, rest, block_size as int)
                    == out + (d + read_answer((ofs + d.len()) as int, len as int, rest, block_size as int)));
            }
        }
    }
}

/// Fallocate does the same whatever offset it names: two fallocates that differ only in
/// their offsets take the same steps and ask for the same actions.
pub proof fn lemma_fallocate_ignores_its_offset(
    m1: InodeMachine<Seq<u8>>,
    m2: InodeMachine<Seq<u8>>,
    event: InodeEvent<Seq<u8>>,
)
    requires
        m1.op is Fallocate,
        m2.op is Fallocate,
        m1.op->length == m2.op->length,
        m1.inode == m2.inode,
        m1.stage == m2.stage,
    ensures
        inode_next(m1, event).0.stage == inode_next(m2, event).0.stage,
        inode_next(m1, event).1 == inode_next(m2, event).1,
{
}

/// Setattr does the same whatever times it names: two setattrs that differ only in their
/// times take the same steps and ask for the same actions, none of which writes a time.
pub proof fn lemma_setattr_writes_no_times(
    m1: InodeMachine<Seq<u8>>,
    m2: InodeMachine<Seq<u8>>,
    event: InodeEvent<Seq<u8>>,
)
    requires
        m1.op is Setattr,
        m2.op is Setattr,
        m1.inode == m2.inode,
        m1.stage == m2.stage,
    ensures
        inode_next(m1, event).0.stage == inode_next(m2, event).0.stage,
        inode_next(m1, event).1 == inode_next(m2, event).1,
{
}

/// A read that goes on reads next at its new position, the old one moved on by the bytes
/// that came back, which is where the bytes gathered so far end in the object; it goes on
/// only after a whole block came back with more still wanted, gathering all of it. A read
/// that ends answers with what it had gathered followed by what came back, cut to what is
/// still wanted.
pub proof fn lemma_read_goes_on_at_its_new_position(m: InodeMachine<Seq<u8>>, data: Seq<u8>)
    requires
        m.wf(),
        m.stage is Reading,
        !inode_overflows(m, InodeEvent::Read(Ok(data))),
    ensures
        ({
            let (start, ofs, len, out, block_size) = match m.stage {
                InodeStage::Reading { start, ofs, len, out, block_size } => (start, ofs, len, out, block_size),
                _ => (0, 0, 0, Seq::empty(), 0),
            };
            let (next, action) = inode_next(m, InodeEvent::Read(Ok(data)));
            &&& action matches InodeAction::ReadAt { offset } ==> {
                &&& offset == ofs + data.len()
                &&& offset == start + (out + data).len()
                &&& data.len() == block_size
                &&& ofs + data.len() < len
                &&& next.stage == (InodeStage::Reading { start, ofs: offset, len, out: out + data, block_size })
            }
            &&& action matches InodeAction::Reply(InodeReply::Data(answer)) ==> {
                &&& (data.len() != block_size || ofs + data.len() >= len)
                &&& answer == out + (if ofs + data.len() < len { data } else { data.subrange(0, len - ofs) })
            }
            &&& (action is ReadAt || action matches InodeAction::Reply(InodeReply::Data(_)))
        }),
{
    lemma_read_goes_on_only_after_a_whole_block(
        m.stage->ofs as int,
        m.stage->len as int,
        data,
        m.stage->block_size as int,
    );
}

/// Getattr and setattr answer with the attributes of the type the object's record gives:
/// a file record is reported as a regular file and a directory record as a directory, each
/// with the object's id, its allocated size and its stored modification and creation
/// times; an object without such a record is answered `ENOENT`.
pub proof fn lemma_attributes_follow_the_record(
    inode: u64,
    kind: ObjectKind,
    properties: ObjectProperties,
    ctime: Option<FuseTimestamp>,
    mtime: Option<FuseTimestamp>,
)
    ensures
        ({
            let record = Some(ObjectValue::Object { kind });
            let expected_kind = match kind {
                ObjectKind::File => FileType::RegularFile,
                _ => FileType::Directory,
            };
            let reports = |a: FileAttr| {
                &&& a.kind == expected_kind
                &&& a.ino == inode
                &&& a.size == properties.allocated_size
                &&& a.mtime == (FuseTimestamp {
                    sec: properties.modification_time.secs as i64,
                    nsec: properties.modification_time.nanos,
                })
                &&& a.ctime == (FuseTimestamp {
                    sec: properties.creation_time.secs as i64,
                    nsec: properties.creation_time.nanos,
                })
            };
            let g0 = InodeMachine { op: InodeOp::<Seq<u8>>::Getattr, inode, stage: InodeStage::FindingType };
            let g1 = inode_next(g0, InodeEvent::Record(Ok(record)));
            let g2 = inode_next(g1.0, InodeEvent::Properties(Ok(properties)));
            let s0 = InodeMachine { op: InodeOp::<Seq<u8>>::Setattr { ctime, mtime }, inode, stage: InodeStage::FindingType };
            let s1 = inode_next(s0, InodeEvent::Record(Ok(record)));
            let s2 = inode_next(s1.0, InodeEvent::Opened(Ok(4096)));
            let s3 = inode_next(s2.0, InodeEvent::Done(Ok(())));
            let s4 = inode_next(s3.0, InodeEvent::Done(Ok(())));
            let s5 = inode_next(s4.0, InodeEvent::Properties(Ok(properties)));
            let missing = inode_next(g0, InodeEvent::Record(Ok(None)));
            &&& (kind == ObjectKind::File || kind == ObjectKind::Directory) ==> {
                &&& g1.1 == (InodeAction::<Seq<u8>>::GetProperties { object_id: inode })
                &&& g2.1 matches InodeAction::Reply(InodeReply::Attr(a)) && reports(a)
                &&& s5.1 matches InodeAction::Reply(InodeReply::Attr(a)) && reports(a)
            }
            &&& missing.1 == InodeAction::<Seq<u8>>::Reply(InodeReply::Error(Errno::ENOENT))
        }),
{
}

/// Readdirplus on a directory lists `.` then `..`, both entries naming a directory: each
/// is listed with kind directory, the directory's own inode, its offset (1, then 2) and
/// the attributes of a directory built from the properties fetched for it.
pub proof fn lemma_readdirplus_lists_two_directory_entries(
    inode: u64,
    first: ObjectProperties,
    second: ObjectProperties,
)
    ensures
        ({
            let m0 = InodeMachine { op: InodeOp::<Seq<u8>>::Readdirplus, inode, stage: InodeStage::FindingType };
            let r1 = inode_next(m0, InodeEvent::Record(Ok(Some(ObjectValue::Object { kind: ObjectKind::Directory }))));
            let r2 = inode_next(r1.0, InodeEvent::Properties(Ok(first)));
            let r3 = inode_next(r2.0, InodeEvent::Properties(Ok(second)));
            &&& r1.1 == (InodeAction::<Seq<u8>>::GetProperties { object_id: inode })
            &&& r2.1 == (InodeAction::<Seq<u8>>::GetProperties { object_id: inode })
            &&& r3.1 matches InodeAction::Reply(InodeReply::DirEntries { dot, dotdot }) && {
                &&& dot.kind == FileType::Directory && dot.attr.kind == FileType::Directory
                &&& dotdot.kind == FileType::Directory && dotdot.attr.kind == FileType::Directory
                &&& dot.inode == inode && dotdot.inode == inode
                &&& dot.attr.ino == inode && dotdot.attr.ino == inode
                &&& dot.name == DirEntryName::Dot && dot.offset == 1
                &&& dotdot.name == DirEntryName::DotDot && dotdot.offset == 2
                &&& dot.attr.size == first.allocated_size && dotdot.attr.size == second.allocated_size
                &&& dot.attr.mtime == (FuseTimestamp {
                    sec: first.modification_time.secs as i64,
                    nsec: first.modification_time.nanos,
                })
                &&& dotdot.attr.mtime == (FuseTimestamp {
                    sec: second.modification_time.secs as i64,
                    nsec: second.modification_time.nanos,
                })
            }
        }),
{
}

/// A read of a file starts reading at the block boundary at or below its offset, wanting
/// its size plus the distance to that boundary, with nothing gathered yet; fallocate
/// truncates the file to the length it names.
pub proof fn lemma_file_requests_start_where_they_name(
    inode: u64,
    offset: u64,
    size: u32,
    fs_block_size: u64,
    length: u64,
    fallocate_offset: u64,
    block_size: u64,
)
    requires
        fs_block_size > 0,
        size + offset % fs_block_size <= u64::MAX,
    ensures
        ({
            let file = Some(ObjectValue::Object { kind: ObjectKind::File });
            let r0 = InodeMachine { op: InodeOp::<Seq<u8>>::Read { offset, size, fs_block_size }, inode, stage: InodeStage::FindingType };
            let r1 = inode_next(r0, InodeEvent::Record(Ok(file)));
            let r2 = inode_next(r1.0, InodeEvent::Opened(Ok(block_size)));
            let f0 = InodeMachine {
                op: InodeOp::<Seq<u8>>::Fallocate { offset: fallocate_offset, length },
                inode,
                stage: InodeStage::FindingType,
            };
            let f1 = inode_next(f0, InodeEvent::Record(Ok(file)));
            let f2 = inode_next(f1.0, InodeEvent::Opened(Ok(block_size)));
            &&& r1.1 == (InodeAction::<Seq<u8>>::OpenObject { object_id: inode })
            &&& r2.1 == (InodeAction::<Seq<u8>>::ReadAt { offset: (offset - offset % fs_block_size) as u64 })
            &&& r2.0.stage == (InodeStage::Reading {
                start: (offset - offset % fs_block_size) as u64,
                ofs: (offset - offset % fs_block_size) as u64,
                len: (size + offset % fs_block_size) as u64,
                out: Seq::<u8>::empty(),
                block_size,
            })
            &&& f1.1 == (InodeAction::<Seq<u8>>::OpenObject { object_id: inode })
            &&& f2.1 == (InodeAction::<Seq<u8>>::Truncate { length })
        }),
{
}

} // verus!
