//! The two fixed nodes and their attributes.

use vstd::prelude::*;

verus! {

/// Inode number of the root directory.
pub const ROOT_INO: u64 = 1;

/// Inode number of the `null` file.
pub const NULL_INO: u64 = 2;

/// How long, in seconds, a client may cache attributes it was handed.
pub const TTL_SECS: u64 = 1;

/// The kind of a node.
#[derive(Clone, Copy, Debug, PartialEq, Eq, Structural)]
pub enum FileKind {
    Directory,
    RegularFile,
}

/// The attributes reported for a node. Timestamps are seconds since the
/// Unix epoch.
#[derive(Clone, Copy, Debug, PartialEq, Eq, Structural)]
pub struct Attr {
    pub ino: u64,
    pub size: u64,
    pub blocks: u64,
    pub atime: u64,
    pub mtime: u64,
    pub ctime: u64,
    pub crtime: u64,
    pub kind: FileKind,
    pub perm: u16,
    pub nlink: u32,
    pub uid: u32,
    pub gid: u32,
    pub rdev: u32,
    pub blksize: u32,
    pub flags: u32,
}

/// The attributes of the root directory: empty, `rwx` for everyone, two links.
pub open spec fn root_attr_spec() -> Attr {
    Attr {
        ino: ROOT_INO,
        size: 0,
        blocks: 0,
        atime: 0,
        mtime: 0,
        ctime: 0,
        crtime: 0,
        kind: FileKind::Directory,
        perm: 0o777,
        nlink: 2,
        uid: 0,
        gid: 0,
        rdev: 0,
        blksize: 0,
        flags: 0,
    }
}

/// The attributes of the `null` file: size 0, `rw` for everyone, one link.
pub open spec fn null_attr_spec() -> Attr {
    Attr {
        ino: NULL_INO,
        size: 0,
        blocks: 1,
        atime: 0,
        mtime: 0,
        ctime: 0,
        crtime: 0,
        kind: FileKind::RegularFile,
        perm: 0o666,
        nlink: 1,
        uid: 0,
        gid: 0,
        rdev: 0,
        blksize: 0,
        flags: 0,
    }
}

/// The kind of the node an inode number names, if it names one.
pub open spec fn kind_of(ino: u64) -> Option<FileKind> {
    if ino == ROOT_INO {
        Some(FileKind::Directory)
    } else if ino == NULL_INO {
        Some(FileKind::RegularFile)
    } else {
        None
    }
}

/// The attributes of the node an inode number names, if it names one.
pub open spec fn attr_of(ino: u64) -> Option<Attr> {
    if ino == ROOT_INO {
        Some(root_attr_spec())
    } else if ino == NULL_INO {
        Some(null_attr_spec())
    } else {
        None
    }
}

/// The attributes of the root directory.
pub fn root_attr() -> (r: Attr)
    ensures
        r == root_attr_spec(),
{
    Attr {
        ino: ROOT_INO,
        size: 0,
        blocks: 0,
        atime: 0,
        mtime: 0,
        ctime: 0,
        crtime: 0,
        kind: FileKind::Directory,
        perm: 0o777,
        nlink: 2,
        uid: 0,
        gid: 0,
        rdev: 0,
        blksize: 0,
        flags: 0,
    }
}

/// The attributes of the `null` file.
pub fn null_attr() -> (r: Attr)
    ensures
        r == null_attr_spec(),
{
    Attr {
        ino: NULL_INO,
        size: 0,
        blocks: 1,
        atime: 0,
        mtime: 0,
        ctime: 0,
        crtime: 0,
        kind: FileKind::RegularFile,
        perm: 0o666,
        nlink: 1,
        uid: 0,
        gid: 0,
        rdev: 0,
        blksize: 0,
        flags: 0,
    }
}

/// Resolves an inode number to the kind of node it names.
pub fn node_kind(ino: u64) -> (r: Option<FileKind>)
    ensures
        r == kind_of(ino),
{
    if ino == ROOT_INO {
        Some(FileKind::Directory)
    } else if ino == NULL_INO {
        Some(FileKind::RegularFile)
    } else {
        None
    }
}

/// Resolves an inode number to the attributes of the node it names.
pub fn node_attr(ino: u64) -> (r: Option<Attr>)
    ensures
        r == attr_of(ino),
{
    if ino == ROOT_INO {
        Some(root_attr())
    } else if ino == NULL_INO {
        Some(null_attr())
    } else {
        None
    }
}

} // verus!
