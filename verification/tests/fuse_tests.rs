use serverlessinterface::fuse::directory::Directory;
use serverlessinterface::fuse::fuse::{
    as_file_kind, block_count, create_decision, check_name_length, check_truncate_length, copy_length, create_access, creation_mode,
    file_kind_of, next_inode_number, open_access, read_length, FileKind, FsError, InodeAttributes, MyFS,
    FILE_HANDLE_READ_BIT, FILE_HANDLE_WRITE_BIT,
};
use serverlessinterface::fuse::time::{
    is_representable_time, system_time_from_time, time_from_system_time, time_now, timestamp_from_offset,
};

#[test]
fn open_access_modes() {
    assert_eq!(open_access(libc::O_RDONLY), Ok((libc::R_OK, true, false)));
    assert_eq!(open_access(libc::O_WRONLY), Ok((libc::W_OK, false, true)));
    assert_eq!(open_access(libc::O_RDWR), Ok((libc::R_OK | libc::W_OK, true, true)));
    assert_eq!(open_access(libc::O_RDONLY | 0x20), Ok((libc::X_OK, true, false)));
    assert_eq!(open_access(libc::O_RDONLY | libc::O_TRUNC), Err(FsError::AccessDenied));
    assert_eq!(open_access(libc::O_WRONLY | libc::O_TRUNC), Ok((libc::W_OK, false, true)));
    assert_eq!(open_access(3), Err(FsError::InvalidArgument));
}

#[test]
fn create_access_modes() {
    assert_eq!(create_access(libc::O_RDONLY), Ok((true, false)));
    assert_eq!(create_access(libc::O_WRONLY | libc::O_CREAT), Ok((false, true)));
    assert_eq!(create_access(libc::O_RDWR), Ok((true, true)));
    assert_eq!(create_access(3), Err(FsError::InvalidArgument));
}

#[test]
fn creation_mode_clears_special_bits_for_users() {
    let mode = libc::S_IFREG | 0o6755;
    assert_eq!(creation_mode(mode, 1000), libc::S_IFREG | 0o755);
    assert_eq!(creation_mode(mode, 0), mode);
}

#[test]
fn file_kinds_from_mode() {
    assert_eq!(file_kind_of(libc::S_IFREG | 0o644), Some(FileKind::File));
    assert_eq!(file_kind_of(libc::S_IFDIR | 0o755), Some(FileKind::Directory));
    assert_eq!(file_kind_of(libc::S_IFLNK | 0o777), Some(FileKind::Symlink));
    assert_eq!(file_kind_of(libc::S_IFIFO | 0o644), None);
    assert_eq!(as_file_kind(libc::S_IFREG), FileKind::File);
}

#[test]
fn name_and_size_limits() {
    assert_eq!(check_name_length(255), Ok(()));
    assert_eq!(check_name_length(256), Err(FsError::NameTooLong));
    assert_eq!(check_truncate_length(1 << 40), Ok(()));
    assert_eq!(check_truncate_length((1 << 40) + 1), Err(FsError::FileTooBig));
}

#[test]
fn read_and_copy_lengths() {
    assert_eq!(read_length(100, 1000, 950), 50);
    assert_eq!(read_length(10, 1000, 0), 10);
    assert_eq!(read_length(10, 1000, 2000), 0);
    assert_eq!(read_length(u32::MAX, (1u64 << 32) + 5, 0), 5);
    assert_eq!(copy_length(100, 1000, 950), 50);
    assert_eq!(copy_length(u64::MAX, (1u64 << 32) + 5, 0), (1u64 << 32) + 5);
    assert_eq!(copy_length(7, 3, 4), 0);
}

#[test]
fn blocks_and_inode_numbers() {
    assert_eq!(block_count(0), 0);
    assert_eq!(block_count(1), 1);
    assert_eq!(block_count(512), 1);
    assert_eq!(block_count(513), 2);
    assert_eq!(block_count(u64::MAX - 511), u64::MAX / 512);
    assert_eq!(next_inode_number(None), 2);
    assert_eq!(next_inode_number(Some(41)), 42);
}

#[test]
fn file_handles_record_access() {
    let mut fs = MyFS::new("data".to_string(), true, true);
    assert!(!fs.suid_support);
    assert_eq!(fs.next_file_handle, 1);
    let r = fs.allocate_next_file_handle(true, false);
    let w = fs.allocate_next_file_handle(false, true);
    let rw = fs.allocate_next_file_handle(true, true);
    let none = fs.allocate_next_file_handle(false, false);
    assert_eq!(r, 1 | FILE_HANDLE_READ_BIT);
    assert_eq!(w, 2 | FILE_HANDLE_WRITE_BIT);
    assert_eq!(rw, 3 | FILE_HANDLE_READ_BIT | FILE_HANDLE_WRITE_BIT);
    assert_eq!(none, 4);
    assert!(fs.check_file_handle_read(r) && !fs.check_file_handle_write(r));
    assert!(!fs.check_file_handle_read(w) && fs.check_file_handle_write(w));
    assert!(fs.check_file_handle_read(rw) && fs.check_file_handle_write(rw));
    assert!(!fs.check_file_handle_read(none) && !fs.check_file_handle_write(none));
    assert_eq!(fs.next_file_handle, 5);
}

#[test]
fn paths_under_data_dir() {
    let fs = MyFS::new("data-dir".to_string(), false, false);
    assert_eq!(fs.content_path(17), "data-dir/contents/17");
    assert_eq!(fs.inode_path(1), "data-dir/inodes/1");
    assert_eq!(fs.superblock_path(), "data-dir/superblock");
    let slash = MyFS::new("/tmp/d/".to_string(), false, false);
    assert_eq!(slash.content_path(3), "/tmp/d/contents/3");
    let empty = MyFS::new(String::new(), false, false);
    assert_eq!(empty.inode_path(2), "inodes/2");
    let expected = std::path::Path::new("data-dir").join("contents").join(17u64.to_string());
    assert_eq!(fs.content_path(17), expected.to_str().unwrap());
}

#[test]
fn open_counts_handles_and_flags() {
    let mut fs = MyFS::new("d".to_string(), true, false);
    let mut attrs = InodeAttributes::new_file(5, FileKind::File, (1, 0), (2, 0), (3, 0));
    let (fh, flags) = fs.open_file(&mut attrs, true, true);
    assert_eq!(attrs.open_file_handles, 2);
    assert_eq!(flags, 1);
    assert_eq!(fh, 1 | FILE_HANDLE_READ_BIT | FILE_HANDLE_WRITE_BIT);
    let mut plain = MyFS::new("d".to_string(), false, false);
    assert_eq!(plain.open_flags(), 0);
    assert_eq!(plain.open_file(&mut attrs, false, false).1, 0);
}

#[test]
fn attribute_updates() {
    let root = InodeAttributes::root((1, 1), (2, 2), (3, 3));
    assert_eq!(root.inode, 1);
    assert_eq!(root.kind, FileKind::Directory);
    assert_eq!(root.mode, 0o777);
    assert_eq!(root.hardlinks, 2);
    assert_eq!(root.open_file_handles, 0);
    let mut f = InodeAttributes::new_file(9, FileKind::File, (1, 0), (1, 0), (1, 0));
    assert_eq!((f.size, f.open_file_handles, f.hardlinks), (0, 1, 1));
    f.record_write(10, 5, (4, 0), (5, 0));
    assert_eq!(f.size, 15);
    assert_eq!(f.last_metadata_changed, (4, 0));
    assert_eq!(f.last_modified, (5, 0));
    f.record_write(0, 3, (6, 0), (7, 0));
    assert_eq!(f.size, 15);
    f.record_truncate(2, (8, 0), (9, 0));
    assert_eq!(f.size, 2);
    f.record_release();
    assert_eq!(f.open_file_handles, 0);
    assert!(!f.should_collect());
    f.hardlinks = 0;
    assert!(f.should_collect());
    f.record_entry_change((10, 1), (11, 2));
    assert_eq!((f.last_modified, f.last_metadata_changed), ((10, 1), (11, 2)));
}

#[test]
fn directory_lookup_after_insert() {
    let mut d = Directory::new();
    assert_eq!(d.lookup(b"a"), None);
    d.insert(b"a".to_vec(), 2, FileKind::File);
    d.insert(b"b".to_vec(), 3, FileKind::Directory);
    assert_eq!(d.lookup(b"a"), Some((2, FileKind::File)));
    assert_eq!(d.lookup(b"b"), Some((3, FileKind::Directory)));
    d.insert(b"a".to_vec(), 4, FileKind::Symlink);
    assert_eq!(d.lookup(b"a"), Some((4, FileKind::Symlink)));
    assert_eq!(d.lookup(b"b"), Some((3, FileKind::Directory)));
    assert_eq!(d.entries().len(), 2);
    assert_eq!(d.lookup_inode(b"b"), Ok(3));
    assert_eq!(d.lookup_inode(b"zz"), Err(FsError::NotFound));
}

#[test]
fn root_listing_names_itself() {
    let d = Directory::root_listing();
    assert_eq!(d.lookup(b"."), Some((1, FileKind::Directory)));
    assert_eq!(d.entries().len(), 1);
}

#[test]
fn timestamps_from_offsets() {
    assert_eq!(timestamp_from_offset(Ok((5, 7))), (5, 7));
    assert_eq!(timestamp_from_offset(Err((5, 7))), (-5, 7));
    assert_eq!(timestamp_from_offset(Err((1u64 << 63, 0))), (i64::MIN, 0));
}

#[test]
fn time_round_trip() {
    for (s, n) in [(0i64, 0u32), (1_700_000_000, 123_456_789), (-5, 0), (-1, 999_999_999), (-1_000, 7)] {
        let t = system_time_from_time(s, n);
        assert_eq!(time_from_system_time(&t), (s, n));
    }
    let carried = system_time_from_time(3, 2_500_000_000);
    assert_eq!(time_from_system_time(&carried), (5, 500_000_000));
    let now = time_now();
    assert!(now.0 > 1_600_000_000);
    assert!(now.1 < 1_000_000_000);
}

#[test]
fn representable_timestamps() {
    assert!(is_representable_time(0, 0));
    assert!(is_representable_time(i64::MAX, 999_999_999));
    assert!(!is_representable_time(i64::MAX, 1_000_000_000));
    assert!(is_representable_time(-i64::MAX, 5));
    assert!(!is_representable_time(i64::MIN, 0));
    assert!(is_representable_time(i64::MAX - 4, u32::MAX));
    assert!(!is_representable_time(i64::MAX - 3, u32::MAX));
}

#[test]
fn listing_survives_a_round_trip_through_its_entries() {
    let mut d = Directory::new();
    d.insert(b"x".to_vec(), 10, FileKind::File);
    d.insert(b"y".to_vec(), 11, FileKind::Symlink);
    d.insert(b"x".to_vec(), 12, FileKind::Directory);
    let copy = Directory::from_entries(d.entries().clone());
    assert_eq!(copy.lookup(b"x"), Some((12, FileKind::Directory)));
    assert_eq!(copy.lookup(b"y"), Some((11, FileKind::Symlink)));
    assert_eq!(copy.entries().len(), 2);
    let later_wins = Directory::from_entries(vec![
        (b"a".to_vec(), 1, FileKind::File),
        (b"a".to_vec(), 2, FileKind::File),
    ]);
    assert_eq!(later_wins.lookup(b"a"), Some((2, FileKind::File)));
    assert_eq!(later_wins.entries().len(), 1);
}

#[test]
fn error_precedence_of_callbacks() {
    assert_eq!(create_decision(true, 3), Err(FsError::AlreadyExists));
    assert_eq!(create_decision(false, 3), Err(FsError::InvalidArgument));
    assert_eq!(create_decision(false, libc::O_RDWR), Ok((true, true)));
    let mut fs = MyFS::new("d".to_string(), false, false);
    let r = fs.allocate_next_file_handle(true, false);
    let w = fs.allocate_next_file_handle(false, true);
    assert_eq!(fs.read_access(r), Ok(()));
    assert_eq!(fs.read_access(w), Err(FsError::AccessDenied));
    assert_eq!(fs.write_access(w), Ok(()));
    assert_eq!(fs.write_access(r), Err(FsError::AccessDenied));
    assert_eq!(fs.copy_access(r, w), Ok(()));
    assert_eq!(fs.copy_access(w, w), Err(FsError::AccessDenied));
    assert_eq!(fs.copy_access(r, r), Err(FsError::AccessDenied));
}
