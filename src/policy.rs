//! The error policy shared by every operation: an identifier that names no
//! node is an identity error, an operation on a node of the wrong kind is a
//! permission error.

use vstd::prelude::*;
use crate::attr::{kind_of, node_kind, FileKind, NULL_INO, ROOT_INO};

verus! {

/// The path separator, `/`.
pub const SLASH: u8 = 0x2f;

/// Why a request was refused.
#[derive(Clone, Copy, Debug, PartialEq, Eq, Structural)]
pub enum FsError {
    /// The inode, path or parent and name resolve to no node.
    NoEntry,
    /// The node exists but the operation is not valid for its kind, or the
    /// request would create a new name.
    NotPermitted,
    /// An extended-attribute buffer of non-zero size can never be filled.
    ResultTooLarge,
}

/// Succeeds exactly when `ino` names a node.
pub open spec fn require_node_spec(ino: u64) -> Result<(), FsError> {
    match kind_of(ino) {
        Some(_) => Ok(()),
        None => Err(FsError::NoEntry),
    }
}

/// Succeeds exactly when `ino` names a node of kind `want`; a node of the
/// other kind is refused as not permitted, an unknown inode as no entry.
pub open spec fn require_kind_spec(ino: u64, want: FileKind) -> Result<(), FsError> {
    match kind_of(ino) {
        Some(k) => if k == want {
            Ok(())
        } else {
            Err(FsError::NotPermitted)
        },
        None => Err(FsError::NoEntry),
    }
}

/// The one name the root directory holds besides `.` and `..`: the ASCII
/// bytes of `null`.
pub open spec fn null_name() -> Seq<u8> {
    seq![0x6eu8, 0x75u8, 0x6cu8, 0x6cu8]
}

/// The inode a path names: `/` is the root, `/null` the file.
pub open spec fn path_ino(path: Seq<u8>) -> Option<u64> {
    if path == seq![SLASH] {
        Some(ROOT_INO)
    } else if path == seq![SLASH] + null_name() {
        Some(NULL_INO)
    } else {
        None
    }
}

/// Checks that `ino` names a node.
pub fn require_node(ino: u64) -> (r: Result<(), FsError>)
    ensures
        r == require_node_spec(ino),
{
    match node_kind(ino) {
        Some(_) => Ok(()),
        None => Err(FsError::NoEntry),
    }
}

/// Checks that `ino` names a node of kind `want`.
pub fn require_kind(ino: u64, want: FileKind) -> (r: Result<(), FsError>)
    ensures
        r == require_kind_spec(ino, want),
{
    match node_kind(ino) {
        Some(k) => if k == want {
            Ok(())
        } else {
            Err(FsError::NotPermitted)
        },
        None => Err(FsError::NoEntry),
    }
}

/// Whether `name` is exactly `null`.
pub fn is_null_name(name: &[u8]) -> (r: bool)
    ensures
        r == (name@ == null_name()),
{
    if name.len() == 4 && name[0] == 0x6e && name[1] == 0x75 && name[2] == 0x6c && name[3] == 0x6c {
        assert(name@ =~= null_name());
        true
    } else {
        proof {
            if name@ == null_name() {
                assert(name@[0] == 0x6e);
            }
        }
        false
    }
}

/// Resolves a path to the inode it names, for bridges that address nodes by
/// path rather than by inode.
pub fn resolve_path(path: &[u8]) -> (r: Option<u64>)
    ensures
        r == path_ino(path@),
{
    if path.len() == 1 && path[0] == SLASH {
        assert(path@ =~= seq![SLASH]);
        Some(ROOT_INO)
    } else if path.len() == 5 && path[0] == SLASH && is_null_name(&path[1..5]) {
        proof {
            assert(path@ =~= seq![SLASH] + path@.subrange(1, 5));
        }
        Some(NULL_INO)
    } else {
        proof {
            if path@ == seq![SLASH] {
                assert(path@[0] == SLASH);
            }
            if path@ == seq![SLASH] + null_name() {
                assert(path@[0] == SLASH);
                assert(path@.subrange(1, 5) =~= null_name());
            }
        }
        None
    }
}

} // verus!
