use fxfs_fuse::attr::{FuseTimestamp, Timestamp};
use fxfs_fuse::errors::{Errno, FsError, FxfsError};
use fxfs_fuse::fuse_fs::{create_object_attr, ObjectDescriptor, ObjectKind, ObjectProperties, ObjectValue};
use fxfs_fuse::inode_requests::{DirEntryName, InodeAction, InodeEvent, InodeMachine, InodeOp, InodeReply};

fn file() -> InodeEvent<Vec<u8>> {
    InodeEvent::Record(Ok(Some(ObjectValue::Object { kind: ObjectKind::File })))
}

fn dir() -> InodeEvent<Vec<u8>> {
    InodeEvent::Record(Ok(Some(ObjectValue::Object { kind: ObjectKind::Directory })))
}

fn ok() -> InodeEvent<Vec<u8>> {
    InodeEvent::Done(Ok(()))
}

fn failed(e: FxfsError) -> InodeEvent<Vec<u8>> {
    InodeEvent::Done(Err(FsError { root_cause: Some(e) }))
}

fn properties() -> ObjectProperties {
    ObjectProperties {
        allocated_size: 1024,
        creation_time: Timestamp { secs: 1, nanos: 0 },
        modification_time: Timestamp { secs: 2, nanos: 0 },
    }
}

fn run(op: InodeOp<Vec<u8>>, inode: u64, events: Vec<InodeEvent<Vec<u8>>>) -> Vec<InodeAction<Vec<u8>>> {
    let (mut machine, action) = InodeMachine::start(op, inode);
    let mut actions = vec![action];
    for event in events {
        assert!(!machine.overflows(&event));
        let (next, action) = machine.step(event);
        machine = next;
        actions.push(action);
    }
    actions
}

fn reply(actions: &[InodeAction<Vec<u8>>]) -> &InodeReply<Vec<u8>> {
    match actions.last() {
        Some(InodeAction::Reply(reply)) => reply,
        _ => panic!("the request has not answered"),
    }
}

#[test]
fn open_answers_for_a_file() {
    let actions = run(InodeOp::Open, 5, vec![file()]);
    assert!(matches!(actions[0], InodeAction::FindObject { object_id: 5 }));
    assert!(matches!(reply(&actions), InodeReply::Opened { fh: 0, flags: 0 }));
}

#[test]
fn open_of_a_directory_is_eisdir() {
    let actions = run(InodeOp::Open, 5, vec![dir()]);
    assert!(matches!(reply(&actions), InodeReply::Error(Errno::EISDIR)));
}

#[test]
fn requests_on_a_missing_object_are_enoent() {
    for op in [InodeOp::Open, InodeOp::Getattr, InodeOp::Setattr { ctime: None, mtime: None }, InodeOp::Fallocate { offset: 0, length: 1 }] {
        let actions = run(op, 5, vec![InodeEvent::Record(Ok(None))]);
        assert!(matches!(reply(&actions), InodeReply::Error(Errno::ENOENT)));
    }
    let actions = run(InodeOp::Open, 5, vec![InodeEvent::Record(Ok(Some(ObjectValue::Other)))]);
    assert!(matches!(reply(&actions), InodeReply::Error(Errno::ENOENT)));
}

#[test]
fn getattr_reports_the_attributes_of_any_object() {
    let actions = run(InodeOp::Getattr, 5, vec![dir(), InodeEvent::Properties(Ok(properties()))]);
    assert!(matches!(actions[1], InodeAction::GetProperties { object_id: 5 }));
    let expected = create_object_attr(5, ObjectDescriptor::Directory, &properties()).unwrap();
    assert!(matches!(reply(&actions), InodeReply::Attr(attr) if *attr == expected));
}

#[test]
fn read_gathers_blocks_until_enough() {
    let op = InodeOp::Read { offset: 0, size: 6, fs_block_size: 4 };
    let actions = run(
        op,
        5,
        vec![file(), InodeEvent::Opened(Ok(4)), InodeEvent::Read(Ok(vec![1, 2, 3, 4])), InodeEvent::Read(Ok(vec![5, 6, 7, 8]))],
    );
    assert!(matches!(actions[1], InodeAction::OpenObject { object_id: 5 }));
    assert!(matches!(actions[2], InodeAction::ReadAt { offset: 0 }));
    assert!(matches!(actions[3], InodeAction::ReadAt { offset: 4 }));
    assert!(matches!(reply(&actions), InodeReply::Data(out) if *out == vec![1, 2, 3, 4, 5, 6]));
}

#[test]
fn read_stops_at_the_end_of_the_file() {
    let op = InodeOp::Read { offset: 0, size: 100, fs_block_size: 4 };
    let actions = run(
        op,
        5,
        vec![file(), InodeEvent::Opened(Ok(4)), InodeEvent::Read(Ok(vec![1, 2, 3, 4])), InodeEvent::Read(Ok(vec![5]))],
    );
    assert!(matches!(reply(&actions), InodeReply::Data(out) if *out == vec![1, 2, 3, 4, 5]));
}

#[test]
fn read_starts_at_the_block_below_its_offset() {
    let op = InodeOp::Read { offset: 2, size: 1, fs_block_size: 4 };
    let (machine, _) = InodeMachine::start(op, 5);
    let (machine, _) = machine.step(file());
    let (machine, action) = machine.step(InodeEvent::Opened(Ok(4)));
    assert!(matches!(action, InodeAction::ReadAt { offset: 0 }));
    let (_, action) = machine.step(InodeEvent::Read(Ok(vec![9, 8, 7, 6])));
    // the answer keeps the two bytes below the offset, and the one asked for
    assert!(matches!(action, InodeAction::Reply(InodeReply::Data(out)) if out == vec![9, 8, 7]));
}

#[test]
fn read_with_a_zero_block_size_overflows() {
    let op = InodeOp::Read { offset: 6, size: 1, fs_block_size: 0 };
    let (machine, _) = InodeMachine::start(op, 5);
    let (machine, _) = machine.step(file());
    assert!(machine.overflows(&InodeEvent::Opened(Ok(4))));
    assert!(!machine.overflows(&InodeEvent::Opened(Err(FsError { root_cause: None }))));
}

#[test]
fn read_past_the_wanted_length_overflows() {
    // a read at 6 of one byte starts at 4, past the 3 bytes it wants
    let op = InodeOp::Read { offset: 6, size: 1, fs_block_size: 4 };
    let (machine, _) = InodeMachine::start(op, 5);
    let (machine, _) = machine.step(file());
    let (machine, _) = machine.step(InodeEvent::Opened(Ok(4)));
    assert!(machine.overflows(&InodeEvent::Read(Ok(vec![1, 2, 3, 4]))));
}

#[test]
fn read_failure_is_answered_with_its_errno() {
    let op = InodeOp::Read { offset: 0, size: 8, fs_block_size: 4 };
    let broken = InodeEvent::Read(Err(FsError { root_cause: Some(FxfsError::Inconsistent) }));
    let actions = run(op, 5, vec![file(), InodeEvent::Opened(Ok(4)), broken]);
    assert!(matches!(reply(&actions), InodeReply::Error(Errno::EPIPE)));
}

#[test]
fn write_writes_flushes_and_reports_the_length() {
    let op = InodeOp::Write { offset: 12, data: vec![7, 8, 9] };
    let actions = run(op, 5, vec![file(), InodeEvent::Opened(Ok(4)), ok(), ok()]);
    assert!(matches!(&actions[2], InodeAction::Write { offset: 12, data } if *data == vec![7, 8, 9]));
    assert!(matches!(actions[3], InodeAction::Flush));
    assert!(matches!(reply(&actions), InodeReply::Written(3)));
}

#[test]
fn write_of_nothing_writes_nothing() {
    let op = InodeOp::Write { offset: 3, data: vec![] };
    let actions = run(op, 5, vec![file(), InodeEvent::Opened(Ok(4)), ok(), ok()]);
    assert!(matches!(&actions[2], InodeAction::Write { offset: 3, data } if data.is_empty()));
    assert!(matches!(reply(&actions), InodeReply::Written(0)));
}

#[test]
fn write_to_a_directory_is_eisdir() {
    let actions = run(InodeOp::Write { offset: 0, data: vec![1] }, 5, vec![dir()]);
    assert!(matches!(reply(&actions), InodeReply::Error(Errno::EISDIR)));
}

#[test]
fn fallocate_truncates_to_the_length_and_flushes() {
    let actions = run(InodeOp::Fallocate { offset: 0, length: 77 }, 5, vec![file(), InodeEvent::Opened(Ok(4)), ok(), ok()]);
    assert!(matches!(actions[2], InodeAction::Truncate { length: 77 }));
    assert!(matches!(actions[3], InodeAction::Flush));
    assert!(matches!(reply(&actions), InodeReply::Empty));
}

#[test]
fn fallocate_flush_failure_is_answered_with_its_errno() {
    let actions = run(
        InodeOp::Fallocate { offset: 0, length: 77 },
        5,
        vec![file(), InodeEvent::Opened(Ok(4)), ok(), failed(FxfsError::NoSpace)],
    );
    assert!(matches!(reply(&actions), InodeReply::Error(Errno::ENOSPC)));
}

#[test]
fn setattr_commits_a_transaction_and_reports_the_attributes() {
    let actions = run(InodeOp::Setattr { ctime: None, mtime: None }, 5, vec![dir(), InodeEvent::Opened(Ok(4)), ok(), ok(), InodeEvent::Properties(Ok(properties()))]);
    assert!(matches!(actions[1], InodeAction::OpenObject { object_id: 5 }));
    assert!(matches!(actions[2], InodeAction::NewTransaction));
    assert!(matches!(actions[3], InodeAction::Commit));
    assert!(matches!(actions[4], InodeAction::GetProperties { object_id: 5 }));
    let expected = create_object_attr(5, ObjectDescriptor::Directory, &properties()).unwrap();
    assert!(matches!(reply(&actions), InodeReply::Attr(attr) if *attr == expected));
}

#[test]
fn setattr_commit_failure_is_answered_with_its_errno() {
    let actions = run(
        InodeOp::Setattr { ctime: None, mtime: None },
        5,
        vec![file(), InodeEvent::Opened(Ok(4)), ok(), failed(FxfsError::ReadOnlyFilesystem)],
    );
    assert!(matches!(reply(&actions), InodeReply::Error(Errno::EROFS)));
}

#[test]
fn readdirplus_lists_dot_and_dotdot_of_a_directory() {
    let actions = run(
        InodeOp::Readdirplus,
        5,
        vec![dir(), InodeEvent::Properties(Ok(properties())), InodeEvent::Properties(Ok(properties()))],
    );
    assert!(matches!(actions[1], InodeAction::GetProperties { object_id: 5 }));
    assert!(matches!(actions[2], InodeAction::GetProperties { object_id: 5 }));
    let attr = create_object_attr(5, ObjectDescriptor::Directory, &properties()).unwrap();
    match reply(&actions) {
        InodeReply::DirEntries { dot, dotdot } => {
            assert_eq!((dot.inode, dot.name, dot.offset, dot.attr), (5, DirEntryName::Dot, 1, attr));
            assert_eq!((dotdot.inode, dotdot.name, dotdot.offset, dotdot.attr), (5, DirEntryName::DotDot, 2, attr));
        }
        _ => panic!("readdirplus should list entries"),
    }
}

#[test]
fn readdirplus_of_a_file_is_enotdir() {
    let actions = run(InodeOp::Readdirplus, 5, vec![file()]);
    assert!(matches!(reply(&actions), InodeReply::Error(Errno::ENOTDIR)));
}

#[test]
fn fallocate_does_the_same_at_any_offset() {
    for offset in [0, 4096, u64::MAX] {
        let actions = run(InodeOp::Fallocate { offset, length: 77 }, 5, vec![file(), InodeEvent::Opened(Ok(4)), ok(), ok()]);
        assert_eq!(actions.len(), 5);
        assert!(matches!(actions[0], InodeAction::FindObject { object_id: 5 }));
        assert!(matches!(actions[1], InodeAction::OpenObject { object_id: 5 }));
        assert!(matches!(actions[2], InodeAction::Truncate { length: 77 }));
        assert!(matches!(actions[3], InodeAction::Flush));
        assert!(matches!(reply(&actions), InodeReply::Empty));
    }
}

#[test]
fn setattr_with_new_times_asks_for_no_more_than_without() {
    let time = FuseTimestamp { sec: 1_700_000_000, nsec: 5 };
    let expected = create_object_attr(5, ObjectDescriptor::File, &properties()).unwrap();
    for (ctime, mtime) in [(None, None), (Some(time), None), (None, Some(time)), (Some(time), Some(time))] {
        let actions = run(
            InodeOp::Setattr { ctime, mtime },
            5,
            vec![file(), InodeEvent::Opened(Ok(4)), ok(), ok(), InodeEvent::Properties(Ok(properties()))],
        );
        assert_eq!(actions.len(), 6);
        assert!(matches!(actions[1], InodeAction::OpenObject { object_id: 5 }));
        assert!(matches!(actions[2], InodeAction::NewTransaction));
        assert!(matches!(actions[3], InodeAction::Commit));
        assert!(matches!(actions[4], InodeAction::GetProperties { object_id: 5 }));
        assert!(matches!(reply(&actions), InodeReply::Attr(attr) if *attr == expected));
    }
}
