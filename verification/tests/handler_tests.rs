use fxfs_fuse::errors::Errno;
use fxfs_fuse::fuse_fs::ObjectDescriptor;
use fxfs_fuse::fuse_handler::{
    check_entry, check_inode, object_to_tombstone, EntryRequest, InodeRequest, ReplacedChild,
};
use fxfs_fuse::read::{read_step, ReadState, ReadStep};

const FILE: Option<ObjectDescriptor> = Some(ObjectDescriptor::File);
const DIR: Option<ObjectDescriptor> = Some(ObjectDescriptor::Directory);
const VOLUME: Option<ObjectDescriptor> = Some(ObjectDescriptor::Volume);

#[test]
fn lookup_and_rename_need_the_name() {
    for request in [EntryRequest::Lookup, EntryRequest::Rename] {
        assert_eq!(check_entry(request, FILE), Ok(()));
        assert_eq!(check_entry(request, DIR), Ok(()));
        assert_eq!(check_entry(request, VOLUME), Ok(()));
        assert_eq!(check_entry(request, None), Err(Errno::ENOENT));
    }
}

#[test]
fn mkdir_and_create_need_a_free_name() {
    for request in [EntryRequest::Mkdir, EntryRequest::Create] {
        assert_eq!(check_entry(request, None), Ok(()));
        assert_eq!(check_entry(request, FILE), Err(Errno::EEXIST));
        assert_eq!(check_entry(request, DIR), Err(Errno::EEXIST));
    }
}

#[test]
fn unlink_needs_a_file() {
    assert_eq!(check_entry(EntryRequest::Unlink, FILE), Ok(()));
    assert_eq!(check_entry(EntryRequest::Unlink, DIR), Err(Errno::EISDIR));
    assert_eq!(check_entry(EntryRequest::Unlink, VOLUME), Err(Errno::EISDIR));
    assert_eq!(check_entry(EntryRequest::Unlink, None), Err(Errno::ENOENT));
}

#[test]
fn rmdir_needs_a_directory() {
    assert_eq!(check_entry(EntryRequest::Rmdir, DIR), Ok(()));
    assert_eq!(check_entry(EntryRequest::Rmdir, FILE), Err(Errno::ENOTDIR));
    assert_eq!(check_entry(EntryRequest::Rmdir, VOLUME), Err(Errno::ENOTDIR));
    assert_eq!(check_entry(EntryRequest::Rmdir, None), Err(Errno::ENOENT));
}

#[test]
fn file_requests_need_a_file() {
    for request in [InodeRequest::Open, InodeRequest::Read, InodeRequest::Write, InodeRequest::Fallocate] {
        assert_eq!(check_inode(request, FILE), Ok(ObjectDescriptor::File));
        assert_eq!(check_inode(request, DIR), Err(Errno::EISDIR));
        assert_eq!(check_inode(request, None), Err(Errno::ENOENT));
    }
}

#[test]
fn readdirplus_needs_a_directory() {
    assert_eq!(check_inode(InodeRequest::Readdirplus, DIR), Ok(ObjectDescriptor::Directory));
    assert_eq!(check_inode(InodeRequest::Readdirplus, FILE), Err(Errno::ENOTDIR));
    assert_eq!(check_inode(InodeRequest::Readdirplus, None), Err(Errno::ENOENT));
}

#[test]
fn attribute_requests_take_any_object() {
    for request in [InodeRequest::Getattr, InodeRequest::Setattr] {
        assert_eq!(check_inode(request, FILE), Ok(ObjectDescriptor::File));
        assert_eq!(check_inode(request, DIR), Ok(ObjectDescriptor::Directory));
        assert_eq!(check_inode(request, None), Err(Errno::ENOENT));
    }
}

#[test]
fn only_displaced_files_are_tombstoned() {
    assert_eq!(object_to_tombstone(ReplacedChild::File(12)), Some(12));
    assert_eq!(object_to_tombstone(ReplacedChild::Directory(12)), None);
    assert_eq!(object_to_tombstone(ReplacedChild::Nothing), None);
}

#[test]
fn read_starts_at_the_block_boundary() {
    let state = ReadState::new(1000, 100, 512);
    assert_eq!(state.start, 512);
    assert_eq!(state.ofs, 512);
    assert_eq!(state.len, 100 + 488);
    assert!(state.out.is_empty());
    let aligned = ReadState::new(0, 10, 512);
    assert_eq!((aligned.start, aligned.ofs, aligned.len), (0, 0, 10));
}

fn done(step: ReadStep) -> Vec<u8> {
    match step {
        ReadStep::Done(out) => out,
        ReadStep::Continue(_) => panic!("expected the read to be done"),
    }
}

fn next(step: ReadStep) -> ReadState {
    match step {
        ReadStep::Continue(state) => state,
        ReadStep::Done(_) => panic!("expected the read to go on"),
    }
}

#[test]
fn read_keeps_only_what_is_wanted() {
    let state = ReadState::new(0, 3, 4);
    let out = done(read_step(state, &[1, 2, 3, 4], 4));
    assert_eq!(out, vec![1, 2, 3]);
}

#[test]
fn read_goes_on_after_a_whole_block() {
    let state = ReadState::new(0, 10, 4);
    let state = next(read_step(state, &[1, 2, 3, 4], 4));
    assert_eq!(state.ofs, 4);
    assert_eq!(state.out, vec![1, 2, 3, 4]);
    let state = next(read_step(state, &[5, 6, 7, 8], 4));
    assert_eq!(state.ofs, 8);
    let out = done(read_step(state, &[9, 10, 11, 12], 4));
    assert_eq!(out, vec![1, 2, 3, 4, 5, 6, 7, 8, 9, 10]);
}

#[test]
fn read_stops_at_a_short_read() {
    let state = ReadState::new(0, 10, 4);
    let state = next(read_step(state, &[1, 2, 3, 4], 4));
    let out = done(read_step(state, &[5, 6], 4));
    assert_eq!(out, vec![1, 2, 3, 4, 5, 6]);
}

#[test]
fn read_of_exactly_the_rest_is_done() {
    let state = ReadState::new(0, 4, 4);
    let out = done(read_step(state, &[1, 2, 3, 4], 4));
    assert_eq!(out, vec![1, 2, 3, 4]);
}

#[test]
fn read_answer_keeps_the_rounding_bytes() {
    // a read at offset 2 starts at the block boundary 0 and answers from there
    let state = ReadState::new(2, 3, 4);
    assert_eq!((state.start, state.len), (0, 5));
    let state = next(read_step(state, &[1, 2, 3, 4], 4));
    let out = done(read_step(state, &[5, 6, 7, 8], 4));
    assert_eq!(out, vec![1, 2, 3, 4, 5]);
}
