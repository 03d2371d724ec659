//! What each FUSE request needs of the entry or object it names before it goes on.

use vstd::prelude::*;
use crate::errors::Errno;
use crate::fuse_fs::ObjectDescriptor;

verus! {

/// How long, in seconds, the kernel may keep the entries and attributes that the FUSE
/// layer answers with.
pub const TTL_SECS: u64 = 1;

/// The FUSE requests that name an entry of a directory.
#[derive(Clone, Copy, Debug, PartialEq, Eq, Structural)]
pub enum EntryRequest {
    Lookup,
    Mkdir,
    Create,
    Unlink,
    Rmdir,
    Rename,
}

/// The FUSE requests that name an object by its inode number.
#[derive(Clone, Copy, Debug, PartialEq, Eq, Structural)]
pub enum InodeRequest {
    Open,
    Read,
    Write,
    Fallocate,
    Getattr,
    Setattr,
    Readdirplus,
}

/// Whether a request on a directory entry goes on, given what looking the name up in
/// the parent directory found (`None` when the name is absent), or the errno it is
/// answered with. Lookup and rename need the entry to exist; mkdir and create need it
/// absent; unlink needs a file and rmdir a directory.
pub open spec fn entry_check(request: EntryRequest, found: Option<ObjectDescriptor>) -> Result<(), Errno> {
    match request {
        EntryRequest::Lookup | EntryRequest::Rename => match found {
            Some(_) => Ok(()),
            None => Err(Errno::ENOENT),
        },
        EntryRequest::Mkdir | EntryRequest::Create => match found {
            Some(_) => Err(Errno::EEXIST),
            None => Ok(()),
        },
        EntryRequest::Unlink => match found {
            Some(ObjectDescriptor::File) => Ok(()),
            Some(_) => Err(Errno::EISDIR),
            None => Err(Errno::ENOENT),
        },
        EntryRequest::Rmdir => match found {
            Some(ObjectDescriptor::Directory) => Ok(()),
            Some(_) => Err(Errno::ENOTDIR),
            None => Err(Errno::ENOENT),
        },
    }
}

/// Decides whether a request on a directory entry goes on, from what the lookup of its
/// name found.
pub fn check_entry(request: EntryRequest, found: Option<ObjectDescriptor>) -> (res: Result<(), Errno>)
    ensures
        res == entry_check(request, found),
{
    match request {
        EntryRequest::Lookup | EntryRequest::Rename => {
            if found.is_some() {
                Ok(())
            } else {
                Err(Errno::ENOENT)
            }
        },
        EntryRequest::Mkdir | EntryRequest::Create => {
            if found.is_none() {
                Ok(())
            } else {
                Err(Errno::EEXIST)
            }
        },
        EntryRequest::Unlink => {
            if let Some(object_descriptor) = found {
                if object_descriptor == ObjectDescriptor::File {
                    Ok(())
                } else {
                    Err(Errno::EISDIR)
                }
            } else {
                Err(Errno::ENOENT)
            }
        },
        EntryRequest::Rmdir => {
            if let Some(object_descriptor) = found {
                if object_descriptor == ObjectDescriptor::Directory {
                    Ok(())
                } else {
                    Err(Errno::ENOTDIR)
                }
            } else {
                Err(Errno::ENOENT)
            }
        },
    }
}

/// Whether a request on an inode goes on, given the type of the object (`None` when
/// there is no such object), or the errno it is answered with. Open, read, write and
/// fallocate need a file; readdirplus needs a directory; getattr and setattr take any
/// object. When it goes on, the object's type comes back.
pub open spec fn inode_check(request: InodeRequest, object_type: Option<ObjectDescriptor>) -> Result<ObjectDescriptor, Errno> {
    match object_type {
        None => Err(Errno::ENOENT),
        Some(t) => match request {
            InodeRequest::Open | InodeRequest::Read | InodeRequest::Write | InodeRequest::Fallocate =>
                if t == ObjectDescriptor::File { Ok(t) } else { Err(Errno::EISDIR) },
            InodeRequest::Readdirplus =>
                if t == ObjectDescriptor::Directory { Ok(t) } else { Err(Errno::ENOTDIR) },
            InodeRequest::Getattr | InodeRequest::Setattr => Ok(t),
        },
    }
}

/// Decides whether a request on an inode goes on, from the type of its object.
pub fn check_inode(request: InodeRequest, object_type: Option<ObjectDescriptor>) -> (res: Result<ObjectDescriptor, Errno>)
    ensures
        res == inode_check(request, object_type),
{
    if let Some(object_type) = object_type {
        match request {
            InodeRequest::Open | InodeRequest::Read | InodeRequest::Write | InodeRequest::Fallocate => {
                if object_type == ObjectDescriptor::File {
                    Ok(object_type)
                } else {
                    Err(Errno::EISDIR)
                }
            },
            InodeRequest::Readdirplus => {
                if object_type == ObjectDescriptor::Directory {
                    Ok(object_type)
                } else {
                    Err(Errno::ENOTDIR)
                }
            },
            InodeRequest::Getattr | InodeRequest::Setattr => Ok(object_type),
        }
    } else {
        Err(Errno::ENOENT)
    }
}

/// What replacing a directory entry displaced.
#[derive(Clone, Copy, Debug, PartialEq, Eq, Structural)]
pub enum ReplacedChild {
    Nothing,
    File(u64),
    Directory(u64),
}

/// The object that goes to the graveyard after an unlink or a rename: a displaced file,
/// and nothing else.
pub fn object_to_tombstone(replaced: ReplacedChild) -> (object_id: Option<u64>)
    ensures
        match replaced {
            ReplacedChild::File(id) => object_id == Some(id),
            _ => object_id is None,
        },
{
    if let ReplacedChild::File(object_id) = replaced {
        Some(object_id)
    } else {
        None
    }
}

/// Mkdir and create go on exactly for the names that lookup answers with `ENOENT`.
pub proof fn lemma_creating_needs_an_absent_name(found: Option<ObjectDescriptor>)
    ensures
        entry_check(EntryRequest::Mkdir, found) is Ok <==> entry_check(EntryRequest::Lookup, found) == Err::<(), Errno>(Errno::ENOENT),
        entry_check(EntryRequest::Create, found) == entry_check(EntryRequest::Mkdir, found),
{
}

/// Rename goes on exactly for the names that lookup finds, and is refused as lookup is.
pub proof fn lemma_rename_needs_what_lookup_finds(found: Option<ObjectDescriptor>)
    ensures
        entry_check(EntryRequest::Rename, found) == entry_check(EntryRequest::Lookup, found),
{
}

/// No entry can be both unlinked and removed as a directory, and each of the two goes on
/// only for an entry that lookup finds.
pub proof fn lemma_unlink_and_rmdir_exclude_each_other(found: Option<ObjectDescriptor>)
    ensures
        !(entry_check(EntryRequest::Unlink, found) is Ok && entry_check(EntryRequest::Rmdir, found) is Ok),
        entry_check(EntryRequest::Unlink, found) is Ok ==> entry_check(EntryRequest::Lookup, found) is Ok,
        entry_check(EntryRequest::Rmdir, found) is Ok ==> entry_check(EntryRequest::Lookup, found) is Ok,
{
}

/// Open, read, write and fallocate accept and refuse the same objects; a missing object is
/// refused with `ENOENT` by every inode request, and an object that any inode request
/// accepts is one that getattr accepts.
pub proof fn lemma_inode_requests_agree(request: InodeRequest, object_type: Option<ObjectDescriptor>)
    ensures
        inode_check(InodeRequest::Read, object_type) == inode_check(InodeRequest::Open, object_type),
        inode_check(InodeRequest::Write, object_type) == inode_check(InodeRequest::Open, object_type),
        inode_check(InodeRequest::Fallocate, object_type) == inode_check(InodeRequest::Open, object_type),
        object_type is None ==> inode_check(request, object_type) == Err::<ObjectDescriptor, Errno>(Errno::ENOENT),
        inode_check(request, object_type) is Ok ==> inode_check(InodeRequest::Getattr, object_type) == inode_check(request, object_type),
{
}

} // verus!
