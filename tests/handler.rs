use nullfs::attr::{root_attr, null_attr, FileKind, NULL_INO, ROOT_INO, TTL_SECS};
use nullfs::fs::{AttrChanges, NullFS, DIR_HANDLE, FILE_HANDLE};
use nullfs::policy::{is_null_name, resolve_path, FsError};

fn no_changes() -> AttrChanges {
    AttrChanges { mode: None, uid: None, gid: None, size: None, fh: None, flags: None }
}

const UNKNOWN: [u64; 5] = [0, 3, 4, 1000, u64::MAX];

#[test]
fn unknown_inodes_are_no_entry() {
    let fs = NullFS::new();
    for &ino in UNKNOWN.iter() {
        assert_eq!(fs.lookup(ino, b"null").unwrap_err(), FsError::NoEntry);
        assert_eq!(fs.getattr(ino).unwrap_err(), FsError::NoEntry);
        assert_eq!(fs.setattr(ino, &no_changes()).unwrap_err(), FsError::NoEntry);
        assert_eq!(fs.read(ino, 0, 0, 10).unwrap_err(), FsError::NoEntry);
        assert_eq!(fs.write(ino, 0, 0, b"abc").unwrap_err(), FsError::NoEntry);
        assert_eq!(fs.readdir(ino, 0, 0).unwrap_err(), FsError::NoEntry);
        assert_eq!(fs.open(ino, 0).unwrap_err(), FsError::NoEntry);
        assert_eq!(fs.opendir(ino, 0).unwrap_err(), FsError::NoEntry);
        assert_eq!(fs.flush(ino, 0, 0).unwrap_err(), FsError::NoEntry);
        assert_eq!(fs.release(ino, 0, 0, None, false).unwrap_err(), FsError::NoEntry);
        assert_eq!(fs.fsync(ino, 0, false).unwrap_err(), FsError::NoEntry);
        assert_eq!(fs.releasedir(ino, 0, 0).unwrap_err(), FsError::NoEntry);
        assert_eq!(fs.fsyncdir(ino, 0, true).unwrap_err(), FsError::NoEntry);
        assert_eq!(fs.access(ino, 0).unwrap_err(), FsError::NoEntry);
        assert_eq!(fs.getxattr(ino, b"user.x", 0).unwrap_err(), FsError::NoEntry);
        assert_eq!(fs.getxattr(ino, b"user.x", 64).unwrap_err(), FsError::NoEntry);
    }
}

#[test]
fn lookup_null_under_root() {
    let fs = NullFS::new();
    let e = fs.lookup(ROOT_INO, b"null").unwrap();
    assert_eq!(e.attr, null_attr());
    assert_eq!(e.attr.ino, 2);
    assert_eq!(e.ttl_secs, TTL_SECS);
    assert_eq!(e.generation, 0);
    // Repeated calls give the same answer.
    assert_eq!(fs.lookup(ROOT_INO, b"null").unwrap(), e);
}

#[test]
fn lookup_other_names_fail() {
    let fs = NullFS::new();
    for name in [&b""[..], b"nul", b"nulll", b"Null", b".", b"..", b"null\0", b"/null"] {
        assert_eq!(fs.lookup(ROOT_INO, name).unwrap_err(), FsError::NoEntry);
    }
    assert_eq!(fs.lookup(NULL_INO, b"null").unwrap_err(), FsError::NoEntry);
}

fn names(fs: &NullFS, offset: i64) -> Vec<(u64, i64, FileKind, Vec<u8>)> {
    fs.readdir(ROOT_INO, 0, offset)
        .unwrap()
        .into_iter()
        .map(|e| (e.ino, e.offset, e.kind, e.name))
        .collect()
}

#[test]
fn readdir_from_start() {
    let fs = NullFS::new();
    let all = names(&fs, 0);
    assert_eq!(
        all,
        vec![
            (1, 1, FileKind::Directory, b".".to_vec()),
            (1, 2, FileKind::Directory, b"..".to_vec()),
            (2, 3, FileKind::RegularFile, b"null".to_vec()),
        ]
    );
    // Idempotent.
    assert_eq!(names(&fs, 0), all);
}

#[test]
fn readdir_restarts_from_offset() {
    let fs = NullFS::new();
    let from_two = names(&fs, 2);
    assert_eq!(from_two, vec![(2, 3, FileKind::RegularFile, b"null".to_vec())]);
    assert_eq!(names(&fs, 1).len(), 2);
    assert_eq!(names(&fs, 1)[0].3, b"..".to_vec());
    assert!(names(&fs, 3).is_empty());
    assert!(names(&fs, 100).is_empty());
    assert!(names(&fs, -1).is_empty());
    // Resuming from each entry's cookie yields what follows it.
    let all = names(&fs, 0);
    for (i, e) in all.iter().enumerate() {
        assert_eq!(names(&fs, e.1), all[i + 1..].to_vec());
    }
}

#[test]
fn readdir_on_file_is_no_entry() {
    let fs = NullFS::new();
    assert_eq!(fs.readdir(NULL_INO, 0, 0).unwrap_err(), FsError::NoEntry);
}

#[test]
fn read_is_always_empty() {
    let fs = NullFS::new();
    assert!(fs.read(NULL_INO, 0, 0, 4096).unwrap().is_empty());
    fs.write(NULL_INO, 0, 0, b"some data").unwrap();
    assert!(fs.read(NULL_INO, 0, 0, 4096).unwrap().is_empty());
    assert!(fs.read(NULL_INO, 0, 1 << 40, 0).unwrap().is_empty());
    assert_eq!(fs.read(ROOT_INO, 0, 0, 10).unwrap_err(), FsError::NoEntry);
}

#[test]
fn write_reports_every_byte() {
    let fs = NullFS::new();
    assert_eq!(fs.write(NULL_INO, 0, 0, b"").unwrap(), 0);
    assert_eq!(fs.write(NULL_INO, 0, 0, b"hello").unwrap(), 5);
    assert_eq!(fs.write(NULL_INO, 0, 1_000_000, &[7u8; 4096]).unwrap(), 4096);
    assert_eq!(fs.write(ROOT_INO, 0, 0, b"x").unwrap_err(), FsError::NoEntry);
    // The size stays 0.
    assert_eq!(fs.getattr(NULL_INO).unwrap().attr.size, 0);
}

#[test]
fn getattr_fixed_attributes() {
    let fs = NullFS::new();
    for _ in 0..3 {
        let d = fs.getattr(ROOT_INO).unwrap();
        assert_eq!(d.ttl_secs, 1);
        assert_eq!(d.attr.kind, FileKind::Directory);
        assert_eq!(d.attr.size, 0);
        assert_eq!(d.attr.nlink, 2);
        assert_eq!(d.attr.perm, 0o777);
        assert_eq!(d.attr.ino, 1);
        let f = fs.getattr(NULL_INO).unwrap();
        assert_eq!(f.attr.kind, FileKind::RegularFile);
        assert_eq!(f.attr.size, 0);
        assert_eq!(f.attr.nlink, 1);
        assert_eq!(f.attr.perm, 0o666);
        assert_eq!(f.attr.ino, 2);
    }
}

#[test]
fn setattr_changes_nothing() {
    let fs = NullFS::new();
    let changes = AttrChanges {
        mode: Some(0o600),
        uid: Some(1000),
        gid: Some(1000),
        size: Some(42),
        fh: Some(2),
        flags: Some(1),
    };
    assert_eq!(fs.setattr(NULL_INO, &changes).unwrap().attr, null_attr());
    assert_eq!(fs.setattr(ROOT_INO, &changes).unwrap().attr, root_attr());
}

#[test]
fn open_wrong_kind_not_permitted() {
    let fs = NullFS::new();
    assert_eq!(fs.open(ROOT_INO, 0).unwrap_err(), FsError::NotPermitted);
    assert_eq!(fs.opendir(NULL_INO, 0).unwrap_err(), FsError::NotPermitted);
    let o = fs.open(NULL_INO, 0o2).unwrap();
    assert_eq!((o.fh, o.flags), (FILE_HANDLE, 0o2));
    let d = fs.opendir(ROOT_INO, 0o200000).unwrap();
    assert_eq!((d.fh, d.flags), (DIR_HANDLE, 0o200000));
}

#[test]
fn handle_operations_split_by_kind() {
    let fs = NullFS::new();
    assert!(fs.flush(NULL_INO, 2, 0).is_ok());
    assert!(fs.release(NULL_INO, 2, 0, None, true).is_ok());
    assert!(fs.fsync(NULL_INO, 2, false).is_ok());
    assert_eq!(fs.flush(ROOT_INO, 1, 0).unwrap_err(), FsError::NotPermitted);
    assert_eq!(fs.release(ROOT_INO, 1, 0, Some(3), false).unwrap_err(), FsError::NotPermitted);
    assert_eq!(fs.fsync(ROOT_INO, 1, true).unwrap_err(), FsError::NotPermitted);
    assert!(fs.releasedir(ROOT_INO, 1, 0).is_ok());
    assert!(fs.fsyncdir(ROOT_INO, 1, false).is_ok());
    assert_eq!(fs.releasedir(NULL_INO, 2, 0).unwrap_err(), FsError::NotPermitted);
    assert_eq!(fs.fsyncdir(NULL_INO, 2, false).unwrap_err(), FsError::NotPermitted);
}

#[test]
fn create_and_mknod_only_null() {
    let fs = NullFS::new();
    let c = fs.create(ROOT_INO, b"null", 0o644, 0o022, 0o1).unwrap();
    assert_eq!(c.entry.attr, null_attr());
    assert_eq!(c.entry.ttl_secs, 1);
    assert_eq!(c.entry.generation, 0);
    assert_eq!(c.fh, FILE_HANDLE);
    assert_eq!(c.flags, 0o1);
    assert_eq!(fs.create(ROOT_INO, b"other", 0o644, 0, 0).unwrap_err(), FsError::NotPermitted);
    assert_eq!(fs.create(NULL_INO, b"null", 0o644, 0, 0).unwrap_err(), FsError::NotPermitted);
    assert_eq!(fs.create(9, b"null", 0o644, 0, 0).unwrap_err(), FsError::NotPermitted);
    let m = fs.mknod(ROOT_INO, b"null", 0o644, 0, 0).unwrap();
    assert_eq!(m.attr, null_attr());
    assert_eq!(fs.mknod(ROOT_INO, b"x", 0o644, 0, 0).unwrap_err(), FsError::NotPermitted);
    assert_eq!(fs.mknod(7, b"null", 0o644, 0, 0).unwrap_err(), FsError::NotPermitted);
}

#[test]
fn access_always_granted() {
    let fs = NullFS::new();
    assert!(fs.access(ROOT_INO, 7).is_ok());
    assert!(fs.access(NULL_INO, 2).is_ok());
}

#[test]
fn getxattr_length_query_only() {
    let fs = NullFS::new();
    for ino in [ROOT_INO, NULL_INO] {
        assert_eq!(fs.getxattr(ino, b"user.any", 0).unwrap(), 0);
        assert_eq!(fs.getxattr(ino, b"user.any", 1).unwrap_err(), FsError::ResultTooLarge);
        assert_eq!(fs.getxattr(ino, b"", u32::MAX).unwrap_err(), FsError::ResultTooLarge);
    }
}

#[test]
fn paths_resolve() {
    assert_eq!(resolve_path(b"/"), Some(ROOT_INO));
    assert_eq!(resolve_path(b"/null"), Some(NULL_INO));
    assert_eq!(resolve_path(b""), None);
    assert_eq!(resolve_path(b"/nul"), None);
    assert_eq!(resolve_path(b"null"), None);
    assert_eq!(resolve_path(b"//null"), None);
    assert_eq!(resolve_path(b"/null/"), None);
    assert!(is_null_name(b"null"));
    assert!(!is_null_name(b"nulx"));
}

#[test]
fn mount_write_read_release_scenario() {
    let fs = NullFS::new();
    let e = fs.lookup(1, b"null").unwrap();
    assert_eq!(e.attr.ino, 2);
    let o = fs.open(2, 2).unwrap();
    assert_eq!(o.fh, FILE_HANDLE);
    assert_eq!(fs.write(2, o.fh, 0, b"hello").unwrap(), 5);
    let data = fs.read(2, o.fh, 0, 5).unwrap();
    assert!(data.is_empty());
    assert_ne!(data, b"hello".to_vec());
    assert!(fs.release(2, o.fh, 2, None, false).is_ok());
}
