//! Properties of the handler as a whole, stated over the specifications that
//! its methods' contracts use.

use vstd::prelude::*;
use crate::attr::{null_attr_spec, FileKind, NULL_INO, ROOT_INO};
use crate::fs::{
    entry_of, getattr_spec, getxattr_spec, listing_from, lookup_spec, open_spec, opendir_spec,
    read_spec, readdir_spec, root_listing, write_spec, AttrReply, DirEntryView, Entry, Opened,
};
use crate::policy::{null_name, require_kind_spec, require_node_spec, FsError};

verus! {

/// An inode number other than the root's and the file's names nothing: every
/// operation addressed to it, whatever its other arguments, fails with "no
/// such entry". That includes `lookup` with it as the parent.
pub proof fn unknown_inode_is_no_entry(
    ino: u64,
    name: Seq<u8>,
    offset: i64,
    size: u32,
    flags: i32,
    len: nat,
)
    requires
        ino != ROOT_INO,
        ino != NULL_INO,
    ensures
        lookup_spec(ino, name) == Err::<Entry, FsError>(FsError::NoEntry),
        getattr_spec(ino) == Err::<AttrReply, FsError>(FsError::NoEntry),
        read_spec(ino) == Err::<Seq<u8>, FsError>(FsError::NoEntry),
        write_spec(ino, len) == Err::<nat, FsError>(FsError::NoEntry),
        readdir_spec(ino, offset) == Err::<Seq<DirEntryView>, FsError>(
            FsError::NoEntry,
        ),
        open_spec(ino, flags) == Err::<Opened, FsError>(FsError::NoEntry),
        opendir_spec(ino, flags) == Err::<Opened, FsError>(FsError::NoEntry),
        require_kind_spec(ino, FileKind::RegularFile) == Err::<(), FsError>(FsError::NoEntry),
        require_kind_spec(ino, FileKind::Directory) == Err::<(), FsError>(FsError::NoEntry),
        require_node_spec(ino) == Err::<(), FsError>(FsError::NoEntry),
        getxattr_spec(ino, size) == Err::<u32, FsError>(FsError::NoEntry),
{
}

/// Under the root, `null` always resolves to the file's attributes, and any
/// other name never resolves.
pub proof fn lookup_resolves_only_null(name: Seq<u8>)
    ensures
        name == null_name() ==> lookup_spec(ROOT_INO, name) == Ok::<Entry, FsError>(
            entry_of(null_attr_spec()),
        ),
        name != null_name() ==> lookup_spec(ROOT_INO, name) == Err::<Entry, FsError>(
            FsError::NoEntry,
        ),
{
}

/// Listing the root from the start yields `.`, `..` and `null`, in that
/// order, with positions 1, 2 and 3; listing from position 2 yields `null`
/// alone.
pub proof fn root_listing_contents()
    ensures
        readdir_spec(ROOT_INO, 0) == Ok::<Seq<DirEntryView>, FsError>(root_listing()),
        root_listing().len() == 3,
        root_listing()[0].name == seq![0x2eu8],
        root_listing()[1].name == seq![0x2eu8, 0x2eu8],
        root_listing()[2].name == null_name(),
        root_listing()[0].offset == 1,
        root_listing()[1].offset == 2,
        root_listing()[2].offset == 3,
        readdir_spec(ROOT_INO, 2) == Ok::<Seq<DirEntryView>, FsError>(
            seq![root_listing()[2]],
        ),
{
    assert(listing_from(0) =~= root_listing());
    assert(listing_from(2) =~= seq![root_listing()[2]]);
}

/// Listing is restartable: resuming from the position carried by any entry
/// of the full listing yields exactly the entries after it, and listing
/// from any position up to the end yields that suffix of the full listing.
pub proof fn listing_is_restartable(offset: i64)
    requires
        0 <= offset <= 3,
    ensures
        readdir_spec(ROOT_INO, offset) == Ok::<Seq<DirEntryView>, FsError>(
            root_listing().subrange(offset as int, 3),
        ),
        forall|i: int|
            0 <= i < 3 ==> readdir_spec(ROOT_INO, #[trigger] root_listing()[i].offset) == Ok::<
                Seq<DirEntryView>,
                FsError,
            >(root_listing().subrange(i + 1, 3)),
{
    assert(root_listing().subrange(3, 3) =~= Seq::<DirEntryView>::empty());
    assert forall|i: int| 0 <= i < 3 implies readdir_spec(
        ROOT_INO,
        #[trigger] root_listing()[i].offset,
    ) == Ok::<Seq<DirEntryView>, FsError>(root_listing().subrange(i + 1, 3)) by {
        assert(root_listing()[i].offset == i + 1);
        if i == 2 {
            assert(listing_from(3) =~= root_listing().subrange(3, 3));
        }
    }
}

/// Reading the file yields no bytes, whatever was written before: the
/// handler holds no state that a write could change.
pub proof fn read_is_always_empty()
    ensures
        read_spec(NULL_INO) == Ok::<Seq<u8>, FsError>(Seq::empty()),
{
}

/// Writing any number of bytes to the file, at any offset, reports all of
/// them written.
pub proof fn write_accepts_everything(len: nat)
    ensures
        write_spec(NULL_INO, len) == Ok::<nat, FsError>(len),
{
}

/// The root is reported as a directory of size 0 with two links, the file
/// as a regular file of size 0 with one link.
pub proof fn fixed_attributes()
    ensures
        getattr_spec(ROOT_INO) is Ok,
        getattr_spec(ROOT_INO)->Ok_0.attr.kind == FileKind::Directory,
        getattr_spec(ROOT_INO)->Ok_0.attr.size == 0,
        getattr_spec(ROOT_INO)->Ok_0.attr.nlink == 2,
        getattr_spec(NULL_INO) is Ok,
        getattr_spec(NULL_INO)->Ok_0.attr.kind == FileKind::RegularFile,
        getattr_spec(NULL_INO)->Ok_0.attr.size == 0,
        getattr_spec(NULL_INO)->Ok_0.attr.nlink == 1,
{
}

/// Opening the root as a file, or the file as a directory, is not permitted.
pub proof fn wrong_kind_open_is_not_permitted(flags: i32)
    ensures
        open_spec(ROOT_INO, flags) == Err::<Opened, FsError>(FsError::NotPermitted),
        opendir_spec(NULL_INO, flags) == Err::<Opened, FsError>(FsError::NotPermitted),
{
}

/// On either node, an extended-attribute length query reports length 0, and
/// a read into a non-empty buffer fails as too large for the buffer.
pub proof fn xattr_only_reports_empty_length(ino: u64, size: u32)
    requires
        ino == ROOT_INO || ino == NULL_INO,
    ensures
        size == 0 ==> getxattr_spec(ino, size) == Ok::<u32, FsError>(0),
        size > 0 ==> getxattr_spec(ino, size) == Err::<u32, FsError>(FsError::ResultTooLarge),
{
}

} // verus!
