//! Reading the object store's records: object types, attributes and names.

use vstd::prelude::*;
use vstd::utf8::valid_utf8;
use vstd::string::StringSliceAdditionalSpecFns;
use crate::attr::{create_dir_attr, create_file_attr, file_type_mode_bits, object_attr_of, FileAttr, FileType, FuseTimestamp, Timestamp};
use crate::errors::Errno;

verus! {

/// The mode that every file and directory is reported with.
pub const DEFAULT_FILE_MODE: u32 = 0o755;

/// What a directory entry names.
#[derive(Clone, Copy, Debug, PartialEq, Eq, Structural)]
pub enum ObjectDescriptor {
    File,
    Directory,
    Volume,
}

/// The kind of an object record in the object store's tree.
#[derive(Clone, Copy, Debug, PartialEq, Eq, Structural)]
pub enum ObjectKind {
    File,
    Directory,
    Graveyard,
}

/// The value that the object store's tree holds under an object's key, as far as the
/// FUSE layer reads it: an object record of some kind, or a value of another sort.
#[derive(Clone, Copy, Debug, PartialEq, Eq, Structural)]
pub enum ObjectValue {
    Object { kind: ObjectKind },
    Other,
}

/// The properties the object store keeps for an object, as far as the FUSE layer reports
/// them.
#[derive(Clone, Copy, Debug, PartialEq, Eq, Structural)]
pub struct ObjectProperties {
    pub allocated_size: u64,
    pub creation_time: Timestamp,
    pub modification_time: Timestamp,
}

/// What a record found under an object's key says the object is.
pub open spec fn object_type_of(record: Option<ObjectValue>) -> Option<ObjectDescriptor> {
    match record {
        Some(ObjectValue::Object { kind: ObjectKind::Directory }) => Some(ObjectDescriptor::Directory),
        Some(ObjectValue::Object { kind: ObjectKind::File }) => Some(ObjectDescriptor::File),
        _ => None,
    }
}

/// The type of the object whose record lookup found `record` (`None` when there is no
/// record): a directory or file record gives that type, anything else none.
pub fn get_object_type(record: Option<ObjectValue>) -> (object_type: Option<ObjectDescriptor>)
    ensures
        object_type == object_type_of(record),
{
    if let Some(value) = record {
        match value {
            ObjectValue::Object { kind: ObjectKind::Directory } => Some(ObjectDescriptor::Directory),
            ObjectValue::Object { kind: ObjectKind::File } => Some(ObjectDescriptor::File),
            _ => None,
        }
    } else {
        None
    }
}

/// The attributes reported for the object `object_id` of type `object_type`, whose
/// stored properties are `properties`; volumes have none.
pub open spec fn object_attr_result(
    object_id: u64,
    object_type: ObjectDescriptor,
    properties: ObjectProperties,
) -> Result<FileAttr, Errno> {
    match object_type {
        ObjectDescriptor::Directory => Ok(
            object_attr_of(
                FileType::Directory,
                object_id,
                properties.allocated_size,
                properties.creation_time,
                properties.modification_time,
                DEFAULT_FILE_MODE,
            ),
        ),
        ObjectDescriptor::File => Ok(
            object_attr_of(
                FileType::RegularFile,
                object_id,
                properties.allocated_size,
                properties.creation_time,
                properties.modification_time,
                DEFAULT_FILE_MODE,
            ),
        ),
        ObjectDescriptor::Volume => Err(Errno::ENOSYS),
    }
}

/// Builds the attributes of an object from its stored properties: directories and files
/// are reported with their allocated size and `DEFAULT_FILE_MODE`; a volume is answered
/// with `ENOSYS`. The properties come already fetched: a failed fetch is answered by the
/// request machines with its own errno, before the object's type is looked at.
pub fn create_object_attr(
    object_id: u64,
    object_type: ObjectDescriptor,
    properties: &ObjectProperties,
) -> (res: Result<FileAttr, Errno>)
    ensures
        res == object_attr_result(object_id, object_type, *properties),
{
    match object_type {
        ObjectDescriptor::Directory => Ok(
            create_dir_attr(
                object_id,
                properties.allocated_size,
                properties.creation_time,
                properties.modification_time,
                DEFAULT_FILE_MODE,
            ),
        ),
        ObjectDescriptor::File => Ok(
            create_file_attr(
                object_id,
                properties.allocated_size,
                properties.creation_time,
                properties.modification_time,
                DEFAULT_FILE_MODE,
            ),
        ),
        ObjectDescriptor::Volume => Err(Errno::ENOSYS),
    }
}

/// Calls `std::str::from_utf8`, which by its documentation accepts exactly the byte
/// strings that are valid UTF-8 and then returns a string slice over the same bytes.
#[verifier::external_body]
fn str_from_utf8(bytes: &[u8]) -> (s: Option<&str>)
    ensures
        s is Some <==> valid_utf8(bytes@),
        s matches Some(s) ==> s.spec_bytes() == bytes@,
{
    std::str::from_utf8(bytes).ok()
}

/// Reads a name that FUSE hands over as raw bytes.
pub trait FuseStrParser {
    fn parse_str(&self) -> Result<&str, Errno>;
}

impl FuseStrParser for [u8] {
    /// The name as a string when its bytes are valid UTF-8, else `EINVAL`.
    fn parse_str(&self) -> (res: Result<&str, Errno>)
        ensures
            valid_utf8(self@) ==> (res matches Ok(s) && s.spec_bytes() == self@),
            !valid_utf8(self@) ==> res == Err::<&str, Errno>(Errno::EINVAL),
    {
        if let Some(s) = str_from_utf8(self) {
            Ok(s)
        } else {
            Err(Errno::EINVAL)
        }
    }
}

/// Every object that the record lookup types gets attributes: the object-store lookup
/// never yields a volume, the one type `create_object_attr` refuses.
pub proof fn lemma_typed_objects_have_attributes(
    record: Option<ObjectValue>,
    object_id: u64,
    properties: ObjectProperties,
)
    ensures
        object_type_of(record) != Some(ObjectDescriptor::Volume),
        object_type_of(record) matches Some(t) ==> object_attr_result(object_id, t, properties) is Ok,
{
}

/// A file is reported as a regular file and a directory as a directory, each with its
/// own id, its allocated size and its stored times, and a volume gets no attributes.
pub proof fn lemma_attributes_follow_the_object_type(
    object_id: u64,
    object_type: ObjectDescriptor,
    properties: ObjectProperties,
)
    ensures
        object_type == ObjectDescriptor::Volume <==> object_attr_result(object_id, object_type, properties)
            == Err::<FileAttr, Errno>(Errno::ENOSYS),
        object_attr_result(object_id, object_type, properties) matches Ok(a) ==> {
            &&& a.kind == (if object_type == ObjectDescriptor::File { FileType::RegularFile } else { FileType::Directory })
            &&& a.ino == object_id
            &&& a.size == properties.allocated_size
            &&& a.mtime == (FuseTimestamp {
                sec: properties.modification_time.secs as i64,
                nsec: properties.modification_time.nanos,
            })
            &&& a.ctime == (FuseTimestamp {
                sec: properties.creation_time.secs as i64,
                nsec: properties.creation_time.nanos,
            })
            &&& a.perm == (DEFAULT_FILE_MODE ^ file_type_mode_bits(a.kind)) as u16
        },
{
}

} // verus!
