//! The Linux FUSE layer of the Fxfs filesystem: the attributes it reports to the kernel,
//! how filesystem errors become errno values, and the decisions each FUSE request makes
//! before and after it touches the object store.

pub mod attr;
pub mod errors;
pub mod fuse_fs;
pub mod fuse_handler;
pub mod read;
pub mod entry_requests;
pub mod inode_requests;
