//! The request handler: one method per operation, each answering from the
//! two fixed nodes alone.

use vstd::prelude::*;
use crate::attr::{
    attr_of, node_attr, null_attr, null_attr_spec, Attr, FileKind, NULL_INO, ROOT_INO, TTL_SECS,
};
use crate::policy::{
    is_null_name, null_name, require_kind, require_kind_spec, require_node, require_node_spec,
    FsError,
};

verus! {

/// The handle handed out when the `null` file is opened.
pub const FILE_HANDLE: u64 = 2;

/// The handle handed out when the root directory is opened.
pub const DIR_HANDLE: u64 = 1;

/// Attributes together with how long they may be cached.
#[derive(Clone, Copy, Debug, PartialEq, Eq, Structural)]
pub struct AttrReply {
    pub ttl_secs: u64,
    pub attr: Attr,
}

/// A resolved name: its attributes, their cache lifetime and the generation.
#[derive(Clone, Copy, Debug, PartialEq, Eq, Structural)]
pub struct Entry {
    pub ttl_secs: u64,
    pub attr: Attr,
    pub generation: u64,
}

/// An opened node: its handle and the open flags echoed back.
#[derive(Clone, Copy, Debug, PartialEq, Eq, Structural)]
pub struct Opened {
    pub fh: u64,
    pub flags: i32,
}

/// A created file: its entry, its handle and the open flags echoed back.
#[derive(Clone, Copy, Debug, PartialEq, Eq, Structural)]
pub struct Created {
    pub entry: Entry,
    pub fh: u64,
    pub flags: i32,
}

/// Changes a client asks `setattr` to make. None of them is ever applied.
#[derive(Clone, Copy, Debug, PartialEq, Eq)]
pub struct AttrChanges {
    pub mode: Option<u32>,
    pub uid: Option<u32>,
    pub gid: Option<u32>,
    pub size: Option<u64>,
    pub fh: Option<u64>,
    pub flags: Option<u32>,
}

/// One entry of a directory listing. `offset` is the position to resume
/// from to list what follows this entry.
#[derive(Debug)]
pub struct DirEntry {
    pub ino: u64,
    pub offset: i64,
    pub kind: FileKind,
    pub name: Vec<u8>,
}

/// What a directory entry denotes.
pub struct DirEntryView {
    pub ino: u64,
    pub offset: i64,
    pub kind: FileKind,
    pub name: Seq<u8>,
}

impl View for DirEntry {
    type V = DirEntryView;

    open spec fn view(&self) -> DirEntryView {
        DirEntryView { ino: self.ino, offset: self.offset, kind: self.kind, name: self.name@ }
    }
}

/// The entry a successful `lookup`, `mknod` or `create` reports for `attr`.
pub open spec fn entry_of(attr: Attr) -> Entry {
    Entry { ttl_secs: TTL_SECS, attr, generation: 0 }
}

/// `lookup`: only `null` under the root resolves.
pub open spec fn lookup_spec(parent: u64, name: Seq<u8>) -> Result<Entry, FsError> {
    if parent == ROOT_INO && name == null_name() {
        Ok(entry_of(null_attr_spec()))
    } else {
        Err(FsError::NoEntry)
    }
}

/// `getattr` and `setattr`: the node's attributes, as they are.
pub open spec fn getattr_spec(ino: u64) -> Result<AttrReply, FsError> {
    match attr_of(ino) {
        Some(a) => Ok(AttrReply { ttl_secs: TTL_SECS, attr: a }),
        None => Err(FsError::NoEntry),
    }
}

/// `read`: nothing, from the file only.
pub open spec fn read_spec(ino: u64) -> Result<Seq<u8>, FsError> {
    if ino == NULL_INO {
        Ok(Seq::empty())
    } else {
        Err(FsError::NoEntry)
    }
}

/// `write` of `len` bytes: all of them accepted, by the file only.
pub open spec fn write_spec(ino: u64, len: nat) -> Result<nat, FsError> {
    if ino == NULL_INO {
        Ok(len)
    } else {
        Err(FsError::NoEntry)
    }
}

/// The full listing of the root directory, in order.
pub open spec fn root_listing() -> Seq<DirEntryView> {
    seq![
        DirEntryView { ino: ROOT_INO, offset: 1, kind: FileKind::Directory, name: seq![0x2eu8] },
        DirEntryView {
            ino: ROOT_INO,
            offset: 2,
            kind: FileKind::Directory,
            name: seq![0x2eu8, 0x2eu8],
        },
        DirEntryView { ino: NULL_INO, offset: 3, kind: FileKind::RegularFile, name: null_name() },
    ]
}

/// What follows position `offset` in the root listing; nothing for a
/// negative offset.
pub open spec fn listing_from(offset: i64) -> Seq<DirEntryView> {
    if 0 <= offset < root_listing().len() {
        root_listing().subrange(offset as int, root_listing().len() as int)
    } else {
        Seq::empty()
    }
}

/// `readdir`: the root listing from `offset`, for the directory only.
pub open spec fn readdir_spec(ino: u64, offset: i64) -> Result<Seq<DirEntryView>, FsError> {
    if ino == ROOT_INO {
        Ok(listing_from(offset))
    } else {
        Err(FsError::NoEntry)
    }
}

/// What a listing returned by `readdir` denotes.
pub open spec fn listing_view(r: Result<Vec<DirEntry>, FsError>) -> Result<
    Seq<DirEntryView>,
    FsError,
> {
    match r {
        Ok(v) => Ok(v@.map_values(|e: DirEntry| e@)),
        Err(e) => Err(e),
    }
}

/// What data returned by `read` denotes.
pub open spec fn data_view(r: Result<Vec<u8>, FsError>) -> Result<Seq<u8>, FsError> {
    match r {
        Ok(v) => Ok(v@),
        Err(e) => Err(e),
    }
}

/// `open`: the file only, under the file handle.
pub open spec fn open_spec(ino: u64, flags: i32) -> Result<Opened, FsError> {
    match require_kind_spec(ino, FileKind::RegularFile) {
        Ok(_) => Ok(Opened { fh: FILE_HANDLE, flags }),
        Err(e) => Err(e),
    }
}

/// `opendir`: the directory only, under the directory handle.
pub open spec fn opendir_spec(ino: u64, flags: i32) -> Result<Opened, FsError> {
    match require_kind_spec(ino, FileKind::Directory) {
        Ok(_) => Ok(Opened { fh: DIR_HANDLE, flags }),
        Err(e) => Err(e),
    }
}

/// `create`: only the name that already exists, under the root.
pub open spec fn create_spec(parent: u64, name: Seq<u8>, flags: i32) -> Result<Created, FsError> {
    if parent == ROOT_INO && name == null_name() {
        Ok(Created { entry: entry_of(null_attr_spec()), fh: FILE_HANDLE, flags })
    } else {
        Err(FsError::NotPermitted)
    }
}

/// `mknod`: only the name that already exists, under the root.
pub open spec fn mknod_spec(parent: u64, name: Seq<u8>) -> Result<Entry, FsError> {
    if parent == ROOT_INO && name == null_name() {
        Ok(entry_of(null_attr_spec()))
    } else {
        Err(FsError::NotPermitted)
    }
}

/// `getxattr` with a buffer of `size` bytes: no attribute exists, so only
/// the length query succeeds, reporting length 0.
pub open spec fn getxattr_spec(ino: u64, size: u32) -> Result<u32, FsError> {
    match require_node_spec(ino) {
        Err(e) => Err(e),
        Ok(_) => if size == 0 {
            Ok(0)
        } else {
            Err(FsError::ResultTooLarge)
        },
    }
}

/// The filesystem. It holds no state: every reply is computed from the
/// request and the two fixed nodes.
#[derive(Clone, Copy, Debug, PartialEq, Eq, Structural)]
pub struct NullFS;

impl NullFS {
    /// Makes the filesystem.
    pub fn new() -> (r: NullFS)
        ensures
            r == NullFS,
    {
        NullFS
    }

    /// Resolves `name` in directory `parent`.
    pub fn lookup(&self, parent: u64, name: &[u8]) -> (r: Result<Entry, FsError>)
        ensures
            r == lookup_spec(parent, name@),
    {
        if parent == ROOT_INO && is_null_name(name) {
            Ok(Entry { ttl_secs: TTL_SECS, attr: null_attr(), generation: 0 })
        } else {
            Err(FsError::NoEntry)
        }
    }

    /// Reports the attributes of node `ino`.
    pub fn getattr(&self, ino: u64) -> (r: Result<AttrReply, FsError>)
        ensures
            r == getattr_spec(ino),
    {
        match node_attr(ino) {
            Some(a) => Ok(AttrReply { ttl_secs: TTL_SECS, attr: a }),
            None => Err(FsError::NoEntry),
        }
    }

    /// Accepts any attribute change on node `ino`, applies none of it and
    /// reports the attributes as they are.
    pub fn setattr(&self, ino: u64, _changes: &AttrChanges) -> (r: Result<AttrReply, FsError>)
        ensures
            r == getattr_spec(ino),
    {
        self.getattr(ino)
    }

    /// Reads from node `ino`: the file yields no bytes, whatever the offset
    /// and size.
    pub fn read(&self, ino: u64, _fh: u64, _offset: i64, _size: u32) -> (r: Result<
        Vec<u8>,
        FsError,
    >)
        ensures
            data_view(r) == read_spec(ino),
            r is Ok <==> ino == NULL_INO,
            r matches Ok(v) ==> v@.len() == 0,
    {
        if ino == NULL_INO {
            Ok(Vec::new())
        } else {
            Err(FsError::NoEntry)
        }
    }

    /// Writes `data` to node `ino`: the file accepts every byte and keeps none.
    pub fn write(&self, ino: u64, _fh: u64, _offset: i64, data: &[u8]) -> (r: Result<
        usize,
        FsError,
    >)
        ensures
            match r {
                Ok(n) => write_spec(ino, data@.len()) == Ok::<nat, FsError>(n as nat),
                Err(e) => write_spec(ino, data@.len()) == Err::<nat, FsError>(e),
            },
    {
        if ino == NULL_INO {
            Ok(data.len())
        } else {
            Err(FsError::NoEntry)
        }
    }

    /// Lists directory `ino` from position `offset`.
    pub fn readdir(&self, ino: u64, _fh: u64, offset: i64) -> (r: Result<Vec<DirEntry>, FsError>)
        ensures
            listing_view(r) == readdir_spec(ino, offset),
            r is Ok <==> ino == ROOT_INO,
            r matches Ok(v) ==> v@.len() == listing_from(offset).len() && forall|i: int|
                0 <= i < v@.len() ==> (#[trigger] v@[i])@ == listing_from(offset)[i],
    {
        if ino != ROOT_INO {
            return Err(FsError::NoEntry);
        }
        let mut out: Vec<DirEntry> = Vec::new();
        if offset >= 0 && offset < 3 {
            let mut i: usize = offset as usize;
            while i < 3
                invariant
                    0 <= offset <= i <= 3,
                    root_listing().len() == 3,
                    out@.map_values(|e: DirEntry| e@) =~= root_listing().subrange(
                        offset as int,
                        i as int,
                    ),
                decreases 3 - i,
            {
                let e = listing_entry(i);
                let ghost before = out@;
                out.push(e);
                proof {
                    assert(out@.map_values(|e: DirEntry| e@) =~= before.map_values(
                        |e: DirEntry| e@,
                    ).push(e@));
                    assert(root_listing().subrange(offset as int, i + 1) =~= root_listing().subrange(
                        offset as int,
                        i as int,
                    ).push(root_listing()[i as int]));
                }
                i = i + 1;
            }
        }
        proof {
            assert(out@.map_values(|e: DirEntry| e@) =~= listing_from(offset));
            assert forall|i: int| 0 <= i < out@.len() implies (#[trigger] out@[i])@ == listing_from(
                offset,
            )[i] by {
                assert(out@.map_values(|e: DirEntry| e@)[i] == out@[i]@);
            }
        }
        Ok(out)
    }

    /// Opens node `ino` for byte access.
    pub fn open(&self, ino: u64, flags: i32) -> (r: Result<Opened, FsError>)
        ensures
            r == open_spec(ino, flags),
    {
        match require_kind(ino, FileKind::RegularFile) {
            Ok(_) => Ok(Opened { fh: FILE_HANDLE, flags }),
            Err(e) => Err(e),
        }
    }

    /// Opens node `ino` for listing.
    pub fn opendir(&self, ino: u64, flags: i32) -> (r: Result<Opened, FsError>)
        ensures
            r == opendir_spec(ino, flags),
    {
        match require_kind(ino, FileKind::Directory) {
            Ok(_) => Ok(Opened { fh: DIR_HANDLE, flags }),
            Err(e) => Err(e),
        }
    }

    /// Flushes node `ino`; a no-op on the file.
    pub fn flush(&self, ino: u64, _fh: u64, _lock_owner: u64) -> (r: Result<(), FsError>)
        ensures
            r == require_kind_spec(ino, FileKind::RegularFile),
    {
        require_kind(ino, FileKind::RegularFile)
    }

    /// Releases an open handle on node `ino`; a no-op on the file.
    pub fn release(
        &self,
        ino: u64,
        _fh: u64,
        _flags: i32,
        _lock_owner: Option<u64>,
        _flush: bool,
    ) -> (r: Result<(), FsError>)
        ensures
            r == require_kind_spec(ino, FileKind::RegularFile),
    {
        require_kind(ino, FileKind::RegularFile)
    }

    /// Syncs node `ino`; a no-op on the file.
    pub fn fsync(&self, ino: u64, _fh: u64, _datasync: bool) -> (r: Result<(), FsError>)
        ensures
            r == require_kind_spec(ino, FileKind::RegularFile),
    {
        require_kind(ino, FileKind::RegularFile)
    }

    /// Releases an open directory handle on node `ino`; a no-op on the root.
    pub fn releasedir(&self, ino: u64, _fh: u64, _flags: i32) -> (r: Result<(), FsError>)
        ensures
            r == require_kind_spec(ino, FileKind::Directory),
    {
        require_kind(ino, FileKind::Directory)
    }

    /// Syncs directory `ino`; a no-op on the root.
    pub fn fsyncdir(&self, ino: u64, _fh: u64, _datasync: bool) -> (r: Result<(), FsError>)
        ensures
            r == require_kind_spec(ino, FileKind::Directory),
    {
        require_kind(ino, FileKind::Directory)
    }

    /// Creates `name` in `parent`: only the existing `null` file under the
    /// root can be "created", and it is handed back opened.
    pub fn create(&self, parent: u64, name: &[u8], _mode: u32, _umask: u32, flags: i32) -> (r:
        Result<Created, FsError>)
        ensures
            r == create_spec(parent, name@, flags),
    {
        if parent == ROOT_INO && is_null_name(name) {
            let entry = Entry { ttl_secs: TTL_SECS, attr: null_attr(), generation: 0 };
            Ok(Created { entry, fh: FILE_HANDLE, flags })
        } else {
            Err(FsError::NotPermitted)
        }
    }

    /// Makes node `name` in `parent`: only the existing `null` file under
    /// the root is accepted.
    pub fn mknod(&self, parent: u64, name: &[u8], _mode: u32, _umask: u32, _rdev: u32) -> (r: Result<
        Entry,
        FsError,
    >)
        ensures
            r == mknod_spec(parent, name@),
    {
        if parent == ROOT_INO && is_null_name(name) {
            Ok(Entry { ttl_secs: TTL_SECS, attr: null_attr(), generation: 0 })
        } else {
            Err(FsError::NotPermitted)
        }
    }

    /// Checks access to node `ino`; no permission bit is evaluated.
    pub fn access(&self, ino: u64, _mask: i32) -> (r: Result<(), FsError>)
        ensures
            r == require_node_spec(ino),
    {
        require_node(ino)
    }

    /// Reads extended attribute `name` of node `ino` into a buffer of `size`
    /// bytes, or asks its length when `size` is 0.
    pub fn getxattr(&self, ino: u64, _name: &[u8], size: u32) -> (r: Result<u32, FsError>)
        ensures
            r == getxattr_spec(ino, size),
    {
        match require_node(ino) {
            Err(e) => Err(e),
            Ok(_) => if size == 0 {
                Ok(0)
            } else {
                Err(FsError::ResultTooLarge)
            },
        }
    }
}

/// The entry at position `i` of the root listing.
fn listing_entry(i: usize) -> (r: DirEntry)
    requires
        i < 3,
    ensures
        r@ == root_listing()[i as int],
{
    if i == 0 {
        let r = DirEntry { ino: ROOT_INO, offset: 1, kind: FileKind::Directory, name: vec![0x2e] };
        assert(r.name@ =~= seq![0x2eu8]);
        r
    } else if i == 1 {
        let r = DirEntry {
            ino: ROOT_INO,
            offset: 2,
            kind: FileKind::Directory,
            name: vec![0x2e, 0x2e],
        };
        assert(r.name@ =~= seq![0x2eu8, 0x2eu8]);
        r
    } else {
        let r = DirEntry {
            ino: NULL_INO,
            offset: 3,
            kind: FileKind::RegularFile,
            name: vec![0x6e, 0x75, 0x6c, 0x6c],
        };
        assert(r.name@ =~= null_name());
        r
    }
}

} // verus!
