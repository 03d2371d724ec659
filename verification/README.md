# fxfs_fuse

The Linux FUSE layer of the Fxfs filesystem, as a verified library.

`src/` (Verus) holds every decision the FUSE layer takes:

- `attr.rs`: the attributes reported for files and directories.
- `errors.rs`: which errno answers which object-store error.
- `fuse_fs.rs`: object types from store records, attributes from stored properties, names from raw bytes.
- `fuse_handler.rs`: what each request needs of the entry or object it names.
- `read.rs`: how a read gathers its answer from reads of whole blocks.
- `entry_requests.rs`, `inode_requests.rs`: each FUSE request as a machine that, given the
  outcome of its last action on the object store, decides the next action or the answer.

`app/` is the fuse3 `Filesystem` implementation: it performs the actions the machines ask
for against an object store (reached through the `ObjectStore` trait) and converts the
library's values to and from fuse3's and libc's.
