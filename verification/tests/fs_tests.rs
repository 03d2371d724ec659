use fxfs_fuse::attr::{create_dir_attr, create_file_attr, Timestamp};
use fxfs_fuse::errors::Errno;
use fxfs_fuse::fuse_fs::{
    create_object_attr, get_object_type, FuseStrParser, ObjectDescriptor,
    ObjectKind, ObjectProperties, ObjectValue, DEFAULT_FILE_MODE,
};

fn properties() -> ObjectProperties {
    ObjectProperties {
        allocated_size: 4096,
        creation_time: Timestamp { secs: 1, nanos: 2 },
        modification_time: Timestamp { secs: 3, nanos: 4 },
    }
}

#[test]
fn object_records_give_their_type() {
    assert_eq!(
        get_object_type(Some(ObjectValue::Object { kind: ObjectKind::Directory })),
        Some(ObjectDescriptor::Directory)
    );
    assert_eq!(get_object_type(Some(ObjectValue::Object { kind: ObjectKind::File })), Some(ObjectDescriptor::File));
}

#[test]
fn other_records_give_no_type() {
    assert_eq!(get_object_type(Some(ObjectValue::Object { kind: ObjectKind::Graveyard })), None);
    assert_eq!(get_object_type(Some(ObjectValue::Other)), None);
    assert_eq!(get_object_type(None), None);
}

#[test]
fn directory_and_file_attributes_use_allocated_size_and_default_mode() {
    let p = properties();
    assert_eq!(
        create_object_attr(9, ObjectDescriptor::Directory, &p),
        Ok(create_dir_attr(9, 4096, p.creation_time, p.modification_time, DEFAULT_FILE_MODE))
    );
    assert_eq!(
        create_object_attr(9, ObjectDescriptor::File, &p),
        Ok(create_file_attr(9, 4096, p.creation_time, p.modification_time, DEFAULT_FILE_MODE))
    );
    assert_eq!(create_object_attr(9, ObjectDescriptor::File, &p).unwrap().size, 4096);
    assert_eq!(create_object_attr(9, ObjectDescriptor::Directory, &p).unwrap().perm, 0o40755);
}

#[test]
fn volumes_have_no_attributes() {
    assert_eq!(create_object_attr(9, ObjectDescriptor::Volume, &properties()), Err(Errno::ENOSYS));
}

#[test]
fn utf8_names_parse() {
    let name: &[u8] = b"foo";
    assert_eq!(name.parse_str(), Ok("foo"));
    let accented: &[u8] = "caf\u{e9}".as_bytes();
    assert_eq!(accented.parse_str(), Ok("caf\u{e9}"));
    let empty: &[u8] = b"";
    assert_eq!(empty.parse_str(), Ok(""));
}

#[test]
fn non_utf8_names_are_invalid() {
    let name: &[u8] = &[0x66, 0xff, 0x6f];
    assert_eq!(name.parse_str(), Err(Errno::EINVAL));
    let truncated: &[u8] = &[0xc3];
    assert_eq!(truncated.parse_str(), Err(Errno::EINVAL));
}
