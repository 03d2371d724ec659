//! FUSE requests on directory entries (lookup, mkdir, create, unlink, rmdir, rename),
//! as machines that decide each next action from the outcome of the last.

use vstd::prelude::*;
use crate::attr::{FileAttr, FileType, FuseTimestamp};
use crate::errors::{cast_to_fuse_error, errno_for, Errno, FsError};
use crate::fuse_fs::{create_object_attr, object_attr_result, ObjectDescriptor, ObjectProperties};
use crate::fuse_handler::{check_entry, entry_check, object_to_tombstone, EntryRequest, ReplacedChild};

verus! {

/// A FUSE request on the entry `name` of the directory `parent`, with what its decisions
/// read of its arguments.
#[derive(Clone, Copy, Debug, PartialEq, Eq, Structural)]
pub enum EntryOp {
    Lookup,
    Mkdir,
    Create { flags: u32 },
    Unlink,
    /// Removes the directory `name` from `parent`. When `parent` has no entry `name`, but
    /// is itself the directory that its holder lists under `name`, that entry is removed
    /// from the holder instead: rmdir handed a directory's own id and name removes it.
    Rmdir,
    /// Moves the entry to `new_name` in `new_parent`; `new_name_valid` tells whether the new
    /// name is valid UTF-8.
    Rename { new_parent: u64, new_name_valid: bool },
}

/// What an entry request waits for.
#[derive(Clone, Copy, Debug, PartialEq, Eq, Structural)]
pub enum EntryStage {
    /// The parent directory to open.
    OpeningDir,
    /// The new parent directory of a rename to open.
    OpeningNewDir,
    /// The lookup of the name in the parent directory.
    LookingUp,
    /// The directory that holds the parent, for an rmdir whose name the parent lacks.
    FindingHolder,
    /// The lookup of the name in `holder`, the directory that holds the parent.
    LookingUpInHolder { holder: u64 },
    /// A new transaction, for a change to the entries of `dir`.
    StartingTransaction { dir: u64 },
    /// The creation of the new child in the transaction.
    Creating,
    /// The removal or move of the entry in the transaction.
    Replacing,
    /// The commit of the transaction that created `child`.
    CommittingCreate { child: u64 },
    /// The commit of the transaction whose replacement displaced `replaced`.
    CommittingReplace { replaced: ReplacedChild },
    /// The sync of the filesystem after creating `child`.
    Syncing { child: u64 },
    /// The move of a displaced file to the graveyard.
    Tombstoning,
    /// The stored properties of the object `object_id` of type `descriptor`.
    GettingProperties { object_id: u64, descriptor: ObjectDescriptor },
    /// Nothing: the request has been answered.
    Finished,
}

/// What the FUSE layer hands back to an entry request after doing its action.
#[derive(Clone, Copy, Debug)]
pub enum EntryEvent {
    /// The outcome of opening a directory, starting or committing a transaction, syncing,
    /// or tombstoning.
    Done(Result<(), FsError>),
    /// What the lookup of the name found: the object's id and what it is.
    Found(Result<Option<(u64, ObjectDescriptor)>, FsError>),
    /// The directory that holds an entry for an object, if any.
    Holder(Result<Option<u64>, FsError>),
    /// The id of the child created.
    Created(Result<u64, FsError>),
    /// What removing or moving the entry displaced.
    Replaced(Result<ReplacedChild, FsError>),
    /// The stored properties of an object.
    Properties(Result<ObjectProperties, FsError>),
}

/// The answer to an entry request.
#[derive(Clone, Copy, Debug, PartialEq, Eq, Structural)]
pub enum EntryReply {
    /// The attributes and generation of the entry found or made (lookup, mkdir).
    Entry { attr: FileAttr, generation: u64 },
    /// The attributes and generation of the file made, with its file handle and the open
    /// flags handed back (create).
    Created { attr: FileAttr, generation: u64, fh: u64, flags: u32 },
    /// Success with nothing to report (unlink, rmdir, rename).
    Empty,
    Error(Errno),
}

/// Which of a request's names an action uses: the name of the entry the request is on,
/// or the new name a rename gives it.
#[derive(Clone, Copy, Debug, PartialEq, Eq, Structural)]
pub enum EntryName {
    Name,
    NewName,
}

/// What an entry request asks the FUSE layer to do next.
#[derive(Clone, Copy, Debug, PartialEq, Eq, Structural)]
pub enum EntryAction {
    /// Open the directory `object_id`.
    OpenDir { object_id: u64 },
    /// Look `name` up in the directory `dir`.
    Lookup { dir: u64, name: EntryName },
    /// Find the directory that holds an entry for the object `object_id`.
    FindHolder { object_id: u64 },
    /// Start a transaction.
    NewTransaction,
    /// Create a directory `name` in `dir`, in the transaction.
    CreateChildDir { dir: u64, name: EntryName },
    /// Create a file `name` in `dir`, in the transaction.
    CreateChildFile { dir: u64, name: EntryName },
    /// Remove the entry `name` from `dir`, in the transaction.
    RemoveChild { dir: u64, name: EntryName },
    /// Move the entry `from_name` of `from_dir` onto the entry `to_name` of `to_dir`, in the
    /// transaction.
    MoveChild { from_dir: u64, from_name: EntryName, to_dir: u64, to_name: EntryName },
    /// Commit the transaction.
    Commit,
    /// Sync the filesystem.
    Sync,
    /// Hand the object `object_id` to the graveyard of the store that holds directory `dir`.
    Tombstone { dir: u64, object_id: u64 },
    /// Fetch the stored properties of the object `object_id`.
    GetProperties { object_id: u64 },
    /// Answer the request.
    Reply(EntryReply),
}

/// A FUSE request on the entry `name` of `parent` in progress; `name_valid` tells whether
/// the name is valid UTF-8.
#[derive(Clone, Copy, Debug, PartialEq, Eq, Structural)]
pub struct EntryMachine {
    pub op: EntryOp,
    pub parent: u64,
    pub name_valid: bool,
    pub stage: EntryStage,
}

/// The kind of a request, as the entry check knows it.
pub open spec fn entry_request_of(op: EntryOp) -> EntryRequest {
    match op {
        EntryOp::Lookup => EntryRequest::Lookup,
        EntryOp::Mkdir => EntryRequest::Mkdir,
        EntryOp::Create { .. } => EntryRequest::Create,
        EntryOp::Unlink => EntryRequest::Unlink,
        EntryOp::Rmdir => EntryRequest::Rmdir,
        EntryOp::Rename { .. } => EntryRequest::Rename,
    }
}

/// The store error that an event carries, if it carries one.
pub open spec fn entry_event_error(event: EntryEvent) -> Option<FsError> {
    match event {
        EntryEvent::Done(Err(e)) => Some(e),
        EntryEvent::Found(Err(e)) => Some(e),
        EntryEvent::Holder(Err(e)) => Some(e),
        EntryEvent::Created(Err(e)) => Some(e),
        EntryEvent::Replaced(Err(e)) => Some(e),
        EntryEvent::Properties(Err(e)) => Some(e),
        _ => None,
    }
}

/// The machine in `stage`, and what it asks for.
pub open spec fn entry_goto(m: EntryMachine, stage: EntryStage, action: EntryAction) -> (EntryMachine, EntryAction) {
    (EntryMachine { stage, ..m }, action)
}

/// The machine finished, answering `reply`.
pub open spec fn entry_finish(m: EntryMachine, reply: EntryReply) -> (EntryMachine, EntryAction) {
    entry_goto(m, EntryStage::Finished, EntryAction::Reply(reply))
}

/// Where a request goes once its directories are open: an invalid name is refused with
/// `EINVAL`, else the name is looked up.
pub open spec fn entry_after_open(m: EntryMachine) -> (EntryMachine, EntryAction) {
    if m.name_valid {
        entry_goto(m, EntryStage::LookingUp, EntryAction::Lookup { dir: m.parent, name: EntryName::Name })
    } else {
        entry_finish(m, EntryReply::Error(Errno::EINVAL))
    }
}

/// The answer once the properties of `object_id`, of type `descriptor`, are known.
pub open spec fn entry_attr_reply(m: EntryMachine, object_id: u64, descriptor: ObjectDescriptor, properties: ObjectProperties) -> EntryReply {
    match object_attr_result(object_id, descriptor, properties) {
        Err(e) => EntryReply::Error(e),
        Ok(attr) => match m.op {
            EntryOp::Create { flags } => EntryReply::Created { attr, generation: 0, fh: 0, flags },
            _ => EntryReply::Entry { attr, generation: 0 },
        },
    }
}

/// The next state of an entry request, and what it asks for, after `event`. A store error
/// ends the request with its errno; otherwise the request goes through its stages:
/// open the parent (and, for rename, the new parent), refuse a name that is no UTF-8, look
/// the name up and check what was found; then lookup fetches the properties of what it
/// found; mkdir and create start a transaction, create the child, commit, sync and fetch
/// the child's properties; unlink, rmdir and rename start a transaction, remove or move the
/// entry (rename refusing a new name that is no UTF-8), commit, and, for unlink and rename
/// only, hand a displaced file to the graveyard. An rmdir whose parent lacks the name finds
/// the directory that holds the parent and, when that holder lists the parent itself under
/// the name, removes the entry from the holder; otherwise it answers `ENOENT`.
pub open spec fn entry_next(m: EntryMachine, event: EntryEvent) -> (EntryMachine, EntryAction) {
    if let Some(e) = entry_event_error(event) {
        entry_finish(m, EntryReply::Error(errno_for(e.root_cause)))
    } else {
        match (m.stage, event) {
            (EntryStage::OpeningDir, _) => match m.op {
                EntryOp::Rename { new_parent, .. } => entry_goto(
                    m,
                    EntryStage::OpeningNewDir,
                    EntryAction::OpenDir { object_id: new_parent },
                ),
                _ => entry_after_open(m),
            },
            (EntryStage::OpeningNewDir, _) => entry_after_open(m),
            (EntryStage::LookingUp, EntryEvent::Found(Ok(found))) => {
                let descriptor = match found {
                    Some((_, d)) => Some(d),
                    None => None,
                };
                if m.op == EntryOp::Rmdir && found is None {
                    entry_goto(m, EntryStage::FindingHolder, EntryAction::FindHolder { object_id: m.parent })
                } else { match entry_check(entry_request_of(m.op), descriptor) {
                    Err(e) => entry_finish(m, EntryReply::Error(e)),
                    Ok(()) => match m.op {
                        EntryOp::Lookup => {
                            let (object_id, d) = found.unwrap();
                            entry_goto(
                                m,
                                EntryStage::GettingProperties { object_id, descriptor: d },
                                EntryAction::GetProperties { object_id },
                            )
                        },
                        _ => entry_goto(
                            m,
                            EntryStage::StartingTransaction { dir: m.parent },
                            EntryAction::NewTransaction,
                        ),
                    },
                } }
            },
            (EntryStage::FindingHolder, EntryEvent::Holder(Ok(holder))) => match holder {
                Some(holder) => entry_goto(
                    m,
                    EntryStage::LookingUpInHolder { holder },
                    EntryAction::Lookup { dir: holder, name: EntryName::Name },
                ),
                None => entry_finish(m, EntryReply::Error(Errno::ENOENT)),
            },
            (EntryStage::LookingUpInHolder { holder }, EntryEvent::Found(Ok(found))) =>
                if found == Some((m.parent, ObjectDescriptor::Directory)) {
                    entry_goto(m, EntryStage::StartingTransaction { dir: holder }, EntryAction::NewTransaction)
                } else {
                    entry_finish(m, EntryReply::Error(Errno::ENOENT))
                },
            (EntryStage::StartingTransaction { dir }, _) => match m.op {
                EntryOp::Mkdir => entry_goto(m, EntryStage::Creating, EntryAction::CreateChildDir { dir, name: EntryName::Name }),
                EntryOp::Create { .. } => entry_goto(m, EntryStage::Creating, EntryAction::CreateChildFile { dir, name: EntryName::Name }),
                EntryOp::Rename { new_parent, new_name_valid } => if new_name_valid {
                    entry_goto(
                        m,
                        EntryStage::Replacing,
                        EntryAction::MoveChild {
                            from_dir: m.parent,
                            from_name: EntryName::Name,
                            to_dir: new_parent,
                            to_name: EntryName::NewName,
                        },
                    )
                } else {
                    entry_finish(m, EntryReply::Error(Errno::EINVAL))
                },
                _ => entry_goto(m, EntryStage::Replacing, EntryAction::RemoveChild { dir, name: EntryName::Name }),
            },
            (EntryStage::Creating, EntryEvent::Created(Ok(child))) => entry_goto(
                m,
                EntryStage::CommittingCreate { child },
                EntryAction::Commit,
            ),
            (EntryStage::CommittingCreate { child }, _) => entry_goto(
                m,
                EntryStage::Syncing { child },
                EntryAction::Sync,
            ),
            (EntryStage::Syncing { child }, _) => {
                let descriptor = match m.op {
                    EntryOp::Create { .. } => ObjectDescriptor::File,
                    _ => ObjectDescriptor::Directory,
                };
                entry_goto(
                    m,
                    EntryStage::GettingProperties { object_id: child, descriptor },
                    EntryAction::GetProperties { object_id: child },
                )
            },
            (EntryStage::Replacing, EntryEvent::Replaced(Ok(replaced))) => entry_goto(
                m,
                EntryStage::CommittingReplace { replaced },
                EntryAction::Commit,
            ),
            (EntryStage::CommittingReplace { replaced }, _) => match (m.op, replaced) {
                (EntryOp::Unlink, ReplacedChild::File(object_id)) => entry_goto(
                    m,
                    EntryStage::Tombstoning,
                    EntryAction::Tombstone { dir: m.parent, object_id },
                ),
                (EntryOp::Rename { new_parent, .. }, ReplacedChild::File(object_id)) => entry_goto(
                    m,
                    EntryStage::Tombstoning,
                    EntryAction::Tombstone { dir: new_parent, object_id },
                ),
                _ => entry_finish(m, EntryReply::Empty),
            },
            (EntryStage::Tombstoning, _) => entry_finish(m, EntryReply::Empty),
            (EntryStage::GettingProperties { object_id, descriptor }, EntryEvent::Properties(Ok(properties))) =>
                entry_finish(m, entry_attr_reply(m, object_id, descriptor, properties)),
            _ => entry_finish(m, EntryReply::Empty),
        }
    }
}

impl EntryMachine {
    /// The stage fits the request: a request past opening its directories has a valid
    /// name; only a rename opens a second directory; only mkdir and create create, commit
    /// a creation and sync, each fetching the properties of the kind of child it made;
    /// only unlink, rmdir and a rename to a valid name remove or move; only unlink and
    /// rename tombstone; a lookup starts no transaction.
    pub open spec fn wf(&self) -> bool {
        let op = self.op;
        match self.stage {
            EntryStage::OpeningDir | EntryStage::Finished => true,
            EntryStage::OpeningNewDir => op is Rename,
            EntryStage::LookingUp => self.name_valid,
            EntryStage::FindingHolder => self.name_valid && op == EntryOp::Rmdir,
            EntryStage::LookingUpInHolder { .. } => self.name_valid && op == EntryOp::Rmdir,
            EntryStage::StartingTransaction { dir } => self.name_valid && op != EntryOp::Lookup
                && (dir == self.parent || op == EntryOp::Rmdir),
            EntryStage::Creating | EntryStage::CommittingCreate { .. } | EntryStage::Syncing { .. } =>
                self.name_valid && (op == EntryOp::Mkdir || op is Create),
            EntryStage::Replacing | EntryStage::CommittingReplace { .. } => self.name_valid && (
                op == EntryOp::Unlink || op == EntryOp::Rmdir
                    || (op matches EntryOp::Rename { new_name_valid, .. } && new_name_valid)),
            EntryStage::Tombstoning => self.name_valid && (op == EntryOp::Unlink || op is Rename),
            EntryStage::GettingProperties { descriptor, .. } => self.name_valid && match op {
                EntryOp::Lookup => true,
                EntryOp::Mkdir => descriptor == ObjectDescriptor::Directory,
                EntryOp::Create { .. } => descriptor == ObjectDescriptor::File,
                _ => false,
            },
        }
    }

    /// Whether `event` is what the request waits for.
    pub open spec fn expects(&self, event: EntryEvent) -> bool {
        match self.stage {
            EntryStage::LookingUp | EntryStage::LookingUpInHolder { .. } => event is Found,
            EntryStage::FindingHolder => event is Holder,
            EntryStage::Creating => event is Created,
            EntryStage::Replacing => event is Replaced,
            EntryStage::GettingProperties { .. } => event is Properties,
            EntryStage::Finished => false,
            _ => event is Done,
        }
    }

    /// Starts the request `op` on the entry of `parent` whose name is valid UTF-8 when
    /// `name_valid`: first the parent is opened.
    pub fn start(op: EntryOp, parent: u64, name_valid: bool) -> (res: (EntryMachine, EntryAction))
        ensures
            res.0 == (EntryMachine { op, parent, name_valid, stage: EntryStage::OpeningDir }),
            res.1 == (EntryAction::OpenDir { object_id: parent }),
            res.0.wf(),
    {
        (EntryMachine { op, parent, name_valid, stage: EntryStage::OpeningDir }, EntryAction::OpenDir { object_id: parent })
    }

    fn goto(self, stage: EntryStage, action: EntryAction) -> (res: (EntryMachine, EntryAction))
        ensures
            res == entry_goto(self, stage, action),
    {
        (EntryMachine { stage, ..self }, action)
    }

    fn finish(self, reply: EntryReply) -> (res: (EntryMachine, EntryAction))
        ensures
            res == entry_finish(self, reply),
    {
        self.goto(EntryStage::Finished, EntryAction::Reply(reply))
    }

    fn after_open(self) -> (res: (EntryMachine, EntryAction))
        ensures
            res == entry_after_open(self),
    {
        if self.name_valid {
            self.goto(EntryStage::LookingUp, EntryAction::Lookup { dir: self.parent, name: EntryName::Name })
        } else {
            self.finish(EntryReply::Error(Errno::EINVAL))
        }
    }

    /// Takes in the outcome of the last action and decides the next.
    pub fn step(self, event: EntryEvent) -> (res: (EntryMachine, EntryAction))
        requires
            self.expects(event),
        ensures
            res == entry_next(self, event),
            self.wf() ==> res.0.wf(),
    {
        proof {
            if self.wf() {
                lemma_entry_step_keeps_wf(self, event);
            }
        }
        let error = match event {
            EntryEvent::Done(Err(e)) => Some(e),
            EntryEvent::Found(Err(e)) => Some(e),
            EntryEvent::Holder(Err(e)) => Some(e),
            EntryEvent::Created(Err(e)) => Some(e),
            EntryEvent::Replaced(Err(e)) => Some(e),
            EntryEvent::Properties(Err(e)) => Some(e),
            _ => None,
        };
        if let Some(e) = error {
            return self.finish(EntryReply::Error(cast_to_fuse_error(&e)));
        }
        match self.stage {
            EntryStage::OpeningDir => match self.op {
                EntryOp::Rename { new_parent, .. } => self.goto(
                    EntryStage::OpeningNewDir,
                    EntryAction::OpenDir { object_id: new_parent },
                ),
                _ => self.after_open(),
            },
            EntryStage::OpeningNewDir => self.after_open(),
            EntryStage::LookingUp => {
                let found = match event {
                    EntryEvent::Found(Ok(found)) => found,
                    _ => None,
                };
                let descriptor = match found {
                    Some((_, d)) => Some(d),
                    None => None,
                };
                if self.op == EntryOp::Rmdir && found.is_none() {
                    return self.goto(EntryStage::FindingHolder, EntryAction::FindHolder { object_id: self.parent });
                }
                let request = match self.op {
                    EntryOp::Lookup => EntryRequest::Lookup,
                    EntryOp::Mkdir => EntryRequest::Mkdir,
                    EntryOp::Create { .. } => EntryRequest::Create,
                    EntryOp::Unlink => EntryRequest::Unlink,
                    EntryOp::Rmdir => EntryRequest::Rmdir,
                    EntryOp::Rename { .. } => EntryRequest::Rename,
                };
                match check_entry(request, descriptor) {
                    Err(e) => self.finish(EntryReply::Error(e)),
                    Ok(()) => match self.op {
                        EntryOp::Lookup => match found {
                            Some((object_id, d)) => self.goto(
                                EntryStage::GettingProperties { object_id, descriptor: d },
                                EntryAction::GetProperties { object_id },
                            ),
                            None => self.finish(EntryReply::Error(Errno::ENOENT)),
                        },
                        _ => self.goto(
                            EntryStage::StartingTransaction { dir: self.parent },
                            EntryAction::NewTransaction,
                        ),
                    },
                }
            },
            EntryStage::FindingHolder => {
                let holder = match event {
                    EntryEvent::Holder(Ok(holder)) => holder,
                    _ => None,
                };
                match holder {
                    Some(holder) => self.goto(
                        EntryStage::LookingUpInHolder { holder },
                        EntryAction::Lookup { dir: holder, name: EntryName::Name },
                    ),
                    None => self.finish(EntryReply::Error(Errno::ENOENT)),
                }
            },
            EntryStage::LookingUpInHolder { holder } => {
                let found = match event {
                    EntryEvent::Found(Ok(found)) => found,
                    _ => None,
                };
                match found {
                    Some((object_id, ObjectDescriptor::Directory)) if object_id == self.parent => self.goto(
                        EntryStage::StartingTransaction { dir: holder },
                        EntryAction::NewTransaction,
                    ),
                    _ => self.finish(EntryReply::Error(Errno::ENOENT)),
                }
            },
            EntryStage::StartingTransaction { dir } => match self.op {
                EntryOp::Mkdir => self.goto(EntryStage::Creating, EntryAction::CreateChildDir { dir, name: EntryName::Name }),
                EntryOp::Create { .. } => self.goto(EntryStage::Creating, EntryAction::CreateChildFile { dir, name: EntryName::Name }),
                EntryOp::Rename { new_parent, new_name_valid } => {
                    if new_name_valid {
                        self.goto(
                            EntryStage::Replacing,
                            EntryAction::MoveChild {
                                from_dir: self.parent,
                                from_name: EntryName::Name,
                                to_dir: new_parent,
                                to_name: EntryName::NewName,
                            },
                        )
                    } else {
                        self.finish(EntryReply::Error(Errno::EINVAL))
                    }
                },
                _ => self.goto(EntryStage::Replacing, EntryAction::RemoveChild { dir, name: EntryName::Name }),
            },
            EntryStage::Creating => {
                let child = match event {
                    EntryEvent::Created(Ok(child)) => child,
                    _ => 0,
                };
                self.goto(EntryStage::CommittingCreate { child }, EntryAction::Commit)
            },
            EntryStage::CommittingCreate { child } => self.goto(EntryStage::Syncing { child }, EntryAction::Sync),
            EntryStage::Syncing { child } => {
                let descriptor = match self.op {
                    EntryOp::Create { .. } => ObjectDescriptor::File,
                    _ => ObjectDescriptor::Directory,
                };
                self.goto(
                    EntryStage::GettingProperties { object_id: child, descriptor },
                    EntryAction::GetProperties { object_id: child },
                )
            },
            EntryStage::Replacing => {
                let replaced = match event {
                    EntryEvent::Replaced(Ok(replaced)) => replaced,
                    _ => ReplacedChild::Nothing,
                };
                self.goto(EntryStage::CommittingReplace { replaced }, EntryAction::Commit)
            },
            EntryStage::CommittingReplace { replaced } => {
                let dir = match self.op {
                    EntryOp::Rename { new_parent, .. } => new_parent,
                    _ => self.parent,
                };
                let tombstones = match self.op {
                    EntryOp::Unlink | EntryOp::Rename { .. } => true,
                    _ => false,
                };
                match object_to_tombstone(replaced) {
                    Some(object_id) if tombstones => self.goto(
                        EntryStage::Tombstoning,
                        EntryAction::Tombstone { dir, object_id },
                    ),
                    _ => self.finish(EntryReply::Empty),
                }
            },
            EntryStage::Tombstoning => self.finish(EntryReply::Empty),
            EntryStage::GettingProperties { object_id, descriptor } => {
                let properties = match event {
                    EntryEvent::Properties(Ok(properties)) => properties,
                    _ => {
                        return self.finish(EntryReply::Empty);
                    },
                };
                let reply = match create_object_attr(object_id, descriptor, &properties) {
                    Err(e) => EntryReply::Error(e),
                    Ok(attr) => match self.op {
                        EntryOp::Create { flags } => EntryReply::Created { attr, generation: 0, fh: 0, flags },
                        _ => EntryReply::Entry { attr, generation: 0 },
                    },
                };
                self.finish(reply)
            },
            EntryStage::Finished => self.finish(EntryReply::Empty),
        }
    }
}

/// Each step of an entry request keeps the request itself and answers exactly when it
/// finishes; a store error ends the request with the errno of its root cause.
pub proof fn lemma_entry_step_answers_when_finished(m: EntryMachine, event: EntryEvent)
    requires
        m.expects(event),
    ensures
        entry_next(m, event).0.op == m.op,
        entry_next(m, event).0.parent == m.parent,
        entry_next(m, event).0.name_valid == m.name_valid,
        entry_next(m, event).1 is Reply <==> entry_next(m, event).0.stage is Finished,
        entry_event_error(event) matches Some(e) ==> entry_next(m, event) == entry_finish(
            m,
            EntryReply::Error(errno_for(e.root_cause)),
        ),
{
}

/// An entry request starts changing the filesystem (a transaction) only for a name that is
/// valid UTF-8, never for a lookup request, and only right after a lookup whose result its
/// check accepts, or, for an rmdir whose parent lacks the name, right after finding the
/// parent itself under that name in its holder; each change is the one its request makes.
pub proof fn lemma_entry_changes_follow_the_check(m: EntryMachine, event: EntryEvent)
    requires
        m.wf(),
        m.expects(event),
    ensures
        entry_next(m, event).1 is NewTransaction ==> {
            &&& m.name_valid
            &&& m.op != EntryOp::Lookup
            &&& event matches EntryEvent::Found(Ok(found))
            &&& ({
                ||| m.stage is LookingUp && entry_check(
                    entry_request_of(m.op),
                    match found {
                        Some((_, d)) => Some(d),
                        None => None,
                    },
                ) is Ok
                ||| m.stage is LookingUpInHolder && m.op == EntryOp::Rmdir
                    && found == Some((m.parent, ObjectDescriptor::Directory))
            })
        },
        entry_next(m, event).1 is CreateChildDir ==> m.op == EntryOp::Mkdir && m.stage is StartingTransaction,
        entry_next(m, event).1 is CreateChildFile ==> m.op is Create && m.stage is StartingTransaction,
        entry_next(m, event).1 is RemoveChild ==> (m.op == EntryOp::Unlink || m.op == EntryOp::Rmdir)
            && m.stage is StartingTransaction,
        entry_next(m, event).1 is MoveChild ==> (m.op matches EntryOp::Rename { new_name_valid, .. } && new_name_valid
            && m.stage is StartingTransaction),
        entry_next(m, event).1 is Lookup ==> m.name_valid,
{
}

/// Only unlink and rename hand anything to the graveyard: the file their committed
/// replacement displaced, in the store of the directory that held the entry (unlink) or
/// received it (rename).
pub proof fn lemma_only_displaced_files_are_tombstoned(m: EntryMachine, event: EntryEvent)
    requires
        m.expects(event),
    ensures
        entry_next(m, event).1 matches EntryAction::Tombstone { dir, object_id } ==> {
            &&& event matches EntryEvent::Done(Ok(_))
            &&& m.stage == (EntryStage::CommittingReplace { replaced: ReplacedChild::File(object_id) })
            &&& match m.op {
                EntryOp::Unlink => dir == m.parent,
                EntryOp::Rename { new_parent, .. } => dir == new_parent,
                _ => false,
            }
        },
{
}

/// A lookup only reads: it opens its directory, looks the name up, fetches properties and
/// answers, and never starts a change.
pub proof fn lemma_lookup_only_reads(m: EntryMachine, event: EntryEvent)
    requires
        m.wf(),
        m.expects(event),
        m.op == EntryOp::Lookup,
    ensures
        entry_next(m, event).1 is OpenDir || entry_next(m, event).1 is Lookup
            || entry_next(m, event).1 is GetProperties || entry_next(m, event).1 is Reply,
{
}

/// Every step keeps the stage fitting the request.
pub proof fn lemma_entry_step_keeps_wf(m: EntryMachine, event: EntryEvent)
    requires
        m.wf(),
        m.expects(event),
    ensures
        entry_next(m, event).0.wf(),
{
}

/// Every store action of an entry request is on the request's own entries: directories are
/// opened as the parent and, for a rename, the new parent; the name is looked up, created
/// or removed in the parent, except that rmdir looks it up in, and removes it from, the
/// parent's holder when the parent lacks it; a rename moves the name in the parent onto the new name in the
/// new parent, never the other way round.
pub proof fn lemma_entry_actions_name_their_entries(m: EntryMachine, event: EntryEvent)
    requires
        m.wf(),
        m.expects(event),
    ensures
        entry_next(m, event).1 matches EntryAction::OpenDir { object_id } ==> (object_id == m.parent
            || (m.op matches EntryOp::Rename { new_parent, .. } && object_id == new_parent)),
        entry_next(m, event).1 matches EntryAction::Lookup { dir, name } ==> name == EntryName::Name && (dir == m.parent
            || (m.op == EntryOp::Rmdir && m.stage is FindingHolder && (event matches EntryEvent::Holder(Ok(Some(h)))
            && dir == h))),
        entry_next(m, event).1 matches EntryAction::CreateChildDir { dir, name } ==> dir == m.parent && name == EntryName::Name,
        entry_next(m, event).1 matches EntryAction::CreateChildFile { dir, name } ==> dir == m.parent && name == EntryName::Name,
        entry_next(m, event).1 matches EntryAction::RemoveChild { dir, name } ==> name == EntryName::Name
            && m.stage == (EntryStage::StartingTransaction { dir }) && (dir == m.parent || m.op == EntryOp::Rmdir),
        entry_next(m, event).1 matches EntryAction::MoveChild { from_dir, from_name, to_dir, to_name } ==> {
            &&& from_dir == m.parent
            &&& from_name == EntryName::Name
            &&& m.op matches EntryOp::Rename { new_parent, .. } && to_dir == new_parent
            &&& to_name == EntryName::NewName
        },
{
}

/// Rmdir removes an entry from a directory other than the one it was handed only when that
/// directory holds the handed directory itself under the name: rmdir given a directory's
/// own id and name removes that directory from the directory that holds it. Looking in
/// the holder starts only when the parent lacks the name, and a holder that lists
/// something else under the name is answered `ENOENT`.
pub proof fn lemma_rmdir_by_a_directorys_own_id(m: EntryMachine, event: EntryEvent)
    requires
        m.wf(),
        m.expects(event),
    ensures
        entry_next(m, event).0.stage matches EntryStage::StartingTransaction { dir } ==> (dir != m.parent ==> {
            &&& m.op == EntryOp::Rmdir
            &&& m.stage == (EntryStage::LookingUpInHolder { holder: dir })
            &&& event matches EntryEvent::Found(Ok(found)) && found == Some((m.parent, ObjectDescriptor::Directory))
        }),
        entry_next(m, event).1 is FindHolder ==> {
            &&& m.op == EntryOp::Rmdir
            &&& m.stage is LookingUp
            &&& event matches EntryEvent::Found(Ok(None))
            &&& entry_next(m, event).1 == (EntryAction::FindHolder { object_id: m.parent })
        },
        m.stage is LookingUpInHolder ==> (event matches EntryEvent::Found(Ok(found))
            && found != Some((m.parent, ObjectDescriptor::Directory))
            ==> entry_next(m, event).1 == EntryAction::Reply(EntryReply::Error(Errno::ENOENT))),
{
}

/// Rmdir handed a directory's own id `dir` and its name succeeds when the directory is
/// listed under that name by its holder: after opening `dir` and not finding the name in
/// it, the request finds the holder, finds `dir` there under the name, removes the entry
/// from the holder in a transaction, commits, and answers with success, whatever the
/// removal reports having displaced.
pub proof fn lemma_rmdir_of_a_directorys_own_id_succeeds(dir: u64, holder: u64, replaced: ReplacedChild)
    ensures
        ({
            let m0 = EntryMachine { op: EntryOp::Rmdir, parent: dir, name_valid: true, stage: EntryStage::OpeningDir };
            let s1 = entry_next(m0, EntryEvent::Done(Ok(())));
            let s2 = entry_next(s1.0, EntryEvent::Found(Ok(None)));
            let s3 = entry_next(s2.0, EntryEvent::Holder(Ok(Some(holder))));
            let s4 = entry_next(s3.0, EntryEvent::Found(Ok(Some((dir, ObjectDescriptor::Directory)))));
            let s5 = entry_next(s4.0, EntryEvent::Done(Ok(())));
            let s6 = entry_next(s5.0, EntryEvent::Replaced(Ok(replaced)));
            let s7 = entry_next(s6.0, EntryEvent::Done(Ok(())));
            &&& s1.1 == (EntryAction::Lookup { dir, name: EntryName::Name })
            &&& s2.1 == (EntryAction::FindHolder { object_id: dir })
            &&& s3.1 == (EntryAction::Lookup { dir: holder, name: EntryName::Name })
            &&& s4.1 == EntryAction::NewTransaction
            &&& s5.1 == (EntryAction::RemoveChild { dir: holder, name: EntryName::Name })
            &&& s6.1 == EntryAction::Commit
            &&& s7.1 == EntryAction::Reply(EntryReply::Empty)
            &&& s7.0.stage == EntryStage::Finished
        }),
{
}

/// A failed fetch of an object's properties is answered with the fetch's own errno,
/// whatever the object's type; a volume is answered `ENOSYS` only once its properties
/// have been fetched.
pub proof fn lemma_failed_fetch_is_answered_before_the_type(
    m: EntryMachine,
    object_id: u64,
    descriptor: ObjectDescriptor,
    e: FsError,
    properties: ObjectProperties,
)
    requires
        m.stage == (EntryStage::GettingProperties { object_id, descriptor }),
    ensures
        entry_next(m, EntryEvent::Properties(Err(e))) == entry_finish(m, EntryReply::Error(errno_for(e.root_cause))),
        descriptor == ObjectDescriptor::Volume ==> entry_next(m, EntryEvent::Properties(Ok(properties)))
            == entry_finish(m, EntryReply::Error(Errno::ENOSYS)),
{
}

/// Lookup answers with the attributes of what it found, of the type found and with the
/// id found; mkdir answers with those of a directory and create with those of a regular
/// file, each with the id of the child made and the creation's properties, create also
/// handing back the flags it was given. Each reports the stored size and times.
pub proof fn lemma_entry_replies_describe_the_entry(
    parent: u64,
    found_id: u64,
    found: ObjectDescriptor,
    child: u64,
    flags: u32,
    properties: ObjectProperties,
)
    requires
        found != ObjectDescriptor::Volume,
    ensures
        ({
            let reports = |a: FileAttr, id: u64, kind: FileType| {
                &&& a.kind == kind
                &&& a.ino == id
                &&& a.size == properties.allocated_size
                &&& a.mtime == (FuseTimestamp {
                    sec: properties.modification_time.secs as i64,
                    nsec: properties.modification_time.nanos,
                })
                &&& a.ctime == (FuseTimestamp {
                    sec: properties.creation_time.secs as i64,
                    nsec: properties.creation_time.nanos,
                })
            };
            let l0 = EntryMachine { op: EntryOp::Lookup, parent, name_valid: true, stage: EntryStage::OpeningDir };
            let l1 = entry_next(l0, EntryEvent::Done(Ok(())));
            let l2 = entry_next(l1.0, EntryEvent::Found(Ok(Some((found_id, found)))));
            let l3 = entry_next(l2.0, EntryEvent::Properties(Ok(properties)));
            let made = |op: EntryOp| {
                let m0 = EntryMachine { op, parent, name_valid: true, stage: EntryStage::OpeningDir };
                let m1 = entry_next(m0, EntryEvent::Done(Ok(())));
                let m2 = entry_next(m1.0, EntryEvent::Found(Ok(None)));
                let m3 = entry_next(m2.0, EntryEvent::Done(Ok(())));
                let m4 = entry_next(m3.0, EntryEvent::Created(Ok(child)));
                let m5 = entry_next(m4.0, EntryEvent::Done(Ok(())));
                let m6 = entry_next(m5.0, EntryEvent::Done(Ok(())));
                entry_next(m6.0, EntryEvent::Properties(Ok(properties))).1
            };
            &&& l2.1 == (EntryAction::GetProperties { object_id: found_id })
            &&& l3.1 matches EntryAction::Reply(EntryReply::Entry { attr, generation }) && generation == 0
                && reports(attr, found_id, if found == ObjectDescriptor::File { FileType::RegularFile } else { FileType::Directory })
            &&& made(EntryOp::Mkdir) matches EntryAction::Reply(EntryReply::Entry { attr, generation }) && generation == 0
                && reports(attr, child, FileType::Directory)
            &&& made(EntryOp::Create { flags }) matches EntryAction::Reply(EntryReply::Created { attr, generation, fh, flags: f })
                && generation == 0 && fh == 0 && f == flags && reports(attr, child, FileType::RegularFile)
        }),
{
}

} // verus!
