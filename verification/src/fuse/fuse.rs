//! Inode attributes, file handles, paths under the data directory, and the
//! decisions that the file-system operations take between reading and
//! writing their state.

use vstd::prelude::*;

use crate::fuse::sys;
use crate::text::{nat_decimal, push_decimal};

verus! {

/// An inode number.
pub type Inode = u64;

/// A timestamp: seconds since the Unix epoch and nanoseconds.
pub type Timestamp = (i64, u32);

/// Set in a file handle that was opened for reading.
pub const FILE_HANDLE_READ_BIT: u64 = 0x8000_0000_0000_0000;

/// Set in a file handle that was opened for writing.
pub const FILE_HANDLE_WRITE_BIT: u64 = 0x4000_0000_0000_0000;

/// The block size reported for every file.
pub const BLOCK_SIZE: u64 = 512;

/// The longest name a directory entry may have, in bytes.
pub const MAX_NAME_LENGTH: u32 = 255;

/// The largest size a file may be truncated to: 1 TiB.
pub const MAX_FILE_SIZE: u64 = 0x100_0000_0000;

/// The `open` flag that marks an open made by `execve`.
pub const FMODE_EXEC: i32 = 0x20;

/// The kinds of files the file system stores.
#[derive(Debug, Clone, Copy, PartialEq, Eq, Structural)]
pub enum FileKind {
    File,
    Directory,
    Symlink,
}

/// Why an operation is refused; each stands for one `errno` value.
#[derive(Debug, Clone, Copy, PartialEq, Eq, Structural)]
pub enum FsError {
    /// `ENAMETOOLONG`
    NameTooLong,
    /// `ENOENT`
    NotFound,
    /// `EACCES`
    AccessDenied,
    /// `EINVAL`
    InvalidArgument,
    /// `EEXIST`
    AlreadyExists,
    /// `EBADF`
    BadDescriptor,
    /// `EFBIG`
    FileTooBig,
}

/// The attributes stored for an inode.
#[derive(Debug)]
pub struct InodeAttributes {
    pub inode: Inode,
    /// How many file handles are open on the inode.
    pub open_file_handles: u64,
    pub size: u64,
    pub last_accessed: Timestamp,
    pub last_modified: Timestamp,
    pub last_metadata_changed: Timestamp,
    pub kind: FileKind,
    /// Permissions and special mode bits.
    pub mode: u16,
    pub hardlinks: u32,
    pub uid: u32,
    pub gid: u32,
    /// Extended attributes, name and value, in the order of their names.
    pub xattrs: Vec<(Vec<u8>, Vec<u8>)>,
}

/// The size of a file of `size` bytes after `len` bytes are written at
/// `offset` (read as an unsigned number): the end of the write if that lies
/// beyond the old size, else the old size.
pub open spec fn written_size(size: u64, offset: i64, len: usize) -> u64 {
    if len + (offset as usize) > (size as usize) {
        (len + (offset as usize)) as u64
    } else {
        size
    }
}

/// A write never shrinks a file, and afterwards the file reaches at least to
/// the end of the write.
pub proof fn lemma_write_never_shrinks(size: u64, offset: i64, len: usize)
    requires
        size <= usize::MAX,
        offset >= 0,
        len + offset <= usize::MAX,
    ensures
        written_size(size, offset, len) >= size,
        written_size(size, offset, len) >= len + offset,
        written_size(size, offset, len) == (if len + offset > size { len + offset } else { size as int }),
{
}

impl InodeAttributes {
    /// The attributes of the root directory of an empty file system.
    pub fn root(accessed: Timestamp, modified: Timestamp, changed: Timestamp) -> (r: Self)
        ensures
            r.inode == 1,
            r.open_file_handles == 0,
            r.size == 0,
            r.last_accessed == accessed,
            r.last_modified == modified,
            r.last_metadata_changed == changed,
            r.kind == FileKind::Directory,
            r.mode == 0o777,
            r.hardlinks == 2,
            r.uid == 0,
            r.gid == 0,
            r.xattrs@.len() == 0,
    {
        InodeAttributes {
            inode: sys::fuse_root_id(),
            open_file_handles: 0,
            size: 0,
            last_accessed: accessed,
            last_modified: modified,
            last_metadata_changed: changed,
            kind: FileKind::Directory,
            mode: 0o777,
            hardlinks: 2,
            uid: 0,
            gid: 0,
            xattrs: Vec::new(),
        }
    }

    /// The attributes of a file just created (and opened once).
    pub fn new_file(
        inode: Inode,
        kind: FileKind,
        accessed: Timestamp,
        modified: Timestamp,
        changed: Timestamp,
    ) -> (r: Self)
        ensures
            r.inode == inode,
            r.open_file_handles == 1,
            r.size == 0,
            r.last_accessed == accessed,
            r.last_modified == modified,
            r.last_metadata_changed == changed,
            r.kind == kind,
            r.mode == 0o777,
            r.hardlinks == 1,
            r.uid == 0,
            r.gid == 0,
            r.xattrs@.len() == 0,
    {
        InodeAttributes {
            inode,
            open_file_handles: 1,
            size: 0,
            last_accessed: accessed,
            last_modified: modified,
            last_metadata_changed: changed,
            kind,
            mode: 0o777,
            hardlinks: 1,
            uid: 0,
            gid: 0,
            xattrs: Vec::new(),
        }
    }

    /// Counts one more open file handle.
    pub fn record_open(&mut self)
        requires
            old(self).open_file_handles < u64::MAX,
        ensures
            *final(self) == (InodeAttributes {
                open_file_handles: (old(self).open_file_handles + 1) as u64,
                ..*old(self)
            }),
    {
        self.open_file_handles = self.open_file_handles + 1;
    }

    /// Counts one open file handle less.
    pub fn record_release(&mut self)
        requires
            old(self).open_file_handles > 0,
        ensures
            *final(self) == (InodeAttributes {
                open_file_handles: (old(self).open_file_handles - 1) as u64,
                ..*old(self)
            }),
    {
        self.open_file_handles = self.open_file_handles - 1;
    }

    /// Records a change to a directory's entries.
    pub fn record_entry_change(&mut self, modified: Timestamp, changed: Timestamp)
        ensures
            *final(self) == (InodeAttributes {
                last_modified: modified,
                last_metadata_changed: changed,
                ..*old(self)
            }),
    {
        self.last_modified = modified;
        self.last_metadata_changed = changed;
    }

    /// Records a write of `len` bytes at `offset`: the times change, and the
    /// size grows to the end of the write if that lies beyond it.
    /// (The offset is read as an unsigned number, as a cast does.)
    pub fn record_write(&mut self, offset: i64, len: usize, changed: Timestamp, modified: Timestamp)
        requires
            len + (offset as usize) <= usize::MAX,
        ensures
            *final(self) == (InodeAttributes {
                last_metadata_changed: changed,
                last_modified: modified,
                size: written_size(old(self).size, offset, len),
                ..*old(self)
            }),
    {
        self.last_metadata_changed = changed;
        self.last_modified = modified;
        let end: usize = len + offset as usize;
        if end > self.size as usize {
            self.size = end as u64;
        }
    }

    /// Records a truncation to `new_length` bytes.
    pub fn record_truncate(&mut self, new_length: u64, changed: Timestamp, modified: Timestamp)
        ensures
            *final(self) == (InodeAttributes {
                size: new_length,
                last_metadata_changed: changed,
                last_modified: modified,
                ..*old(self)
            }),
    {
        self.size = new_length;
        self.last_metadata_changed = changed;
        self.last_modified = modified;
    }

    /// Whether the inode's storage should be removed: no links and no open
    /// handles are left.
    pub fn should_collect(&self) -> (r: bool)
        ensures
            r == (self.hardlinks == 0 && self.open_file_handles == 0),
    {
        self.hardlinks == 0 && self.open_file_handles == 0
    }
}

/// What `open` decides from its flags: the access mask to check, and whether
/// the handle reads and writes; or why the flags are refused.
pub open spec fn open_access_spec(flags: i32) -> Result<(i32, bool, bool), FsError> {
    let mode = flags & 3i32;
    if mode == 0 {
        if flags & 512i32 != 0 {
            Err(FsError::AccessDenied)
        } else if flags & FMODE_EXEC != 0 {
            Ok((1, true, false))
        } else {
            Ok((4, true, false))
        }
    } else if mode == 1 {
        Ok((2, false, true))
    } else if mode == 2 {
        Ok((6, true, true))
    } else {
        Err(FsError::InvalidArgument)
    }
}

/// The access decision of `open`: read-only opens that also truncate are
/// refused, opens by `execve` ask for execute access, and exactly one access
/// mode must be given.
pub fn open_access(flags: i32) -> (r: Result<(i32, bool, bool), FsError>)
    ensures
        r == open_access_spec(flags),
        flags & 3i32 == 2i32 ==> r == Ok::<(i32, bool, bool), FsError>((6i32, true, true)),
        flags & 3i32 == 1i32 ==> r == Ok::<(i32, bool, bool), FsError>((2i32, false, true)),
{
    proof {
        lemma_open_access_by_mode(flags);
    }
    let mode: i32 = flags & sys::o_accmode();
    if mode == sys::o_rdonly() {
        if flags & sys::o_trunc() != 0 {
            Err(FsError::AccessDenied)
        } else if flags & FMODE_EXEC != 0 {
            Ok((sys::x_ok(), true, false))
        } else {
            Ok((sys::r_ok(), true, false))
        }
    } else if mode == sys::o_wronly() {
        Ok((sys::w_ok(), false, true))
    } else if mode == sys::o_rdwr() {
        let both: i32 = sys::r_ok() | sys::w_ok();
        assert(4i32 | 2i32 == 6i32) by (bit_vector);
        Ok((both, true, true))
    } else {
        Err(FsError::InvalidArgument)
    }
}

/// What `create` decides from its flags: whether the handle reads and
/// writes, or that the flags are refused.
pub open spec fn create_access_spec(flags: i32) -> Result<(bool, bool), FsError> {
    let mode = flags & 3i32;
    if mode == 0 {
        Ok((true, false))
    } else if mode == 1 {
        Ok((false, true))
    } else if mode == 2 {
        Ok((true, true))
    } else {
        Err(FsError::InvalidArgument)
    }
}

/// The access decision of `create`: exactly one access mode must be given.
pub fn create_access(flags: i32) -> (r: Result<(bool, bool), FsError>)
    ensures
        r == create_access_spec(flags),
        flags & 3i32 == 2i32 ==> r == Ok::<(bool, bool), FsError>((true, true)),
{
    proof {
        lemma_create_access_by_mode(flags);
    }
    let mode: i32 = flags & sys::o_accmode();
    if mode == sys::o_rdonly() {
        Ok((true, false))
    } else if mode == sys::o_wronly() {
        Ok((false, true))
    } else if mode == sys::o_rdwr() {
        Ok((true, true))
    } else {
        Err(FsError::InvalidArgument)
    }
}

/// What `create` decides before touching its parent: a name that already
/// exists is refused first, then flags without exactly one access mode;
/// otherwise whether the new handle reads and writes.
pub fn create_decision(exists: bool, flags: i32) -> (r: Result<(bool, bool), FsError>)
    ensures
        r == (if exists { Err(FsError::AlreadyExists) } else { create_access_spec(flags) }),
{
    if exists {
        Err(FsError::AlreadyExists)
    } else {
        create_access(flags)
    }
}

/// Only the access-mode bits (`flags & O_ACCMODE`) decide `open`, with two
/// exceptions for read-only opens: `O_TRUNC` is refused and an open from
/// `execve` asks for execute access. A read-write open always reads and
/// writes under `R_OK | W_OK` and a write-only open always writes under
/// `W_OK`, whatever other bits are set; both modes at once are refused.
pub proof fn lemma_open_access_by_mode(flags: i32)
    ensures
        flags & 3i32 == 2i32 ==> open_access_spec(flags) == Ok::<(i32, bool, bool), FsError>((6i32, true, true)),
        flags & 3i32 == 1i32 ==> open_access_spec(flags) == Ok::<(i32, bool, bool), FsError>((2i32, false, true)),
        flags & 3i32 == 3i32 ==> open_access_spec(flags) == Err::<(i32, bool, bool), FsError>(FsError::InvalidArgument),
        flags & 3i32 == 0i32 && flags & 512i32 != 0i32 ==> open_access_spec(flags) == Err::<(i32, bool, bool), FsError>(FsError::AccessDenied),
        flags & 3i32 == 0i32 && flags & 512i32 == 0i32 ==> open_access_spec(flags) == Ok::<(i32, bool, bool), FsError>(
            (if flags & 0x20i32 != 0i32 { 1i32 } else { 4i32 }, true, false),
        ),
        open_access_spec(flags) matches Ok((mask, read, write)) ==> read == (flags & 3i32 != 1i32) && write == (flags & 3i32 != 0i32)
            && (write ==> mask & 2i32 == 2i32) && (read && !write ==> mask & 2i32 == 0i32),
{
    assert(6i32 & 2i32 == 2i32) by (bit_vector);
    assert(2i32 & 2i32 == 2i32) by (bit_vector);
    assert(1i32 & 2i32 == 0i32) by (bit_vector);
    assert(4i32 & 2i32 == 0i32) by (bit_vector);
}

/// Two opens whose flags agree in the access-mode bits get the same answer,
/// unless both are read-only and differ in `O_TRUNC` or in the `execve` bit.
pub proof fn lemma_open_access_ignores_other_bits(f1: i32, f2: i32)
    requires
        f1 & 3i32 == f2 & 3i32,
        f1 & 3i32 == 0i32 ==> (f1 & 512i32 == 0i32) == (f2 & 512i32 == 0i32) && (f1 & 0x20i32 == 0i32) == (
        f2 & 0x20i32 == 0i32),
    ensures
        open_access_spec(f1) == open_access_spec(f2),
{
}

/// Only the access-mode bits decide `create`: a read-write create always
/// gives a handle that reads and writes, whatever `O_CREAT`, `O_TRUNC` or
/// other bits are set; read-only and write-only creates read or write only;
/// both modes at once are refused.
pub proof fn lemma_create_access_by_mode(flags: i32)
    ensures
        flags & 3i32 == 2i32 ==> create_access_spec(flags) == Ok::<(bool, bool), FsError>((true, true)),
        flags & 3i32 == 1i32 ==> create_access_spec(flags) == Ok::<(bool, bool), FsError>((false, true)),
        flags & 3i32 == 0i32 ==> create_access_spec(flags) == Ok::<(bool, bool), FsError>((true, false)),
        flags & 3i32 == 3i32 ==> create_access_spec(flags) == Err::<(bool, bool), FsError>(FsError::InvalidArgument),
        create_access_spec(flags) matches Ok((read, write)) ==> read == (flags & 3i32 != 1i32) && write == (
        flags & 3i32 != 0i32),
        create_access_spec(flags) == create_access_spec(flags & 3i32),
{
    assert((flags & 3i32) & 3i32 == flags & 3i32) by (bit_vector);
}

/// The mode a file is created with: callers other than root lose the
/// set-user-id and set-group-id bits.
pub fn creation_mode(mode: u32, request_uid: u32) -> (r: u32)
    ensures
        r == (if request_uid != 0 { mode & !0o6000u32 } else { mode }),
{
    if request_uid != 0 {
        let special: u32 = sys::s_isuid() | sys::s_isgid();
        assert(0o4000u32 | 0o2000u32 == 0o6000u32) by (bit_vector);
        mode & !special
    } else {
        mode
    }
}

/// The kind that the file-type bits of `mode` give, if the file system
/// stores that kind.
pub open spec fn file_kind_spec(mode: u32) -> Option<FileKind> {
    let t = mode & 0o170000u32;
    if t == 0o100000u32 {
        Some(FileKind::File)
    } else if t == 0o120000u32 {
        Some(FileKind::Symlink)
    } else if t == 0o40000u32 {
        Some(FileKind::Directory)
    } else {
        None
    }
}

/// The kind of file that `mode` describes, or `None` for the kinds the file
/// system does not store (devices, pipes, sockets).
pub fn file_kind_of(mode: u32) -> (r: Option<FileKind>)
    ensures
        r == file_kind_spec(mode),
{
    let t: u32 = mode & sys::s_ifmt();
    if t == sys::s_ifreg() {
        Some(FileKind::File)
    } else if t == sys::s_iflnk() {
        Some(FileKind::Symlink)
    } else if t == sys::s_ifdir() {
        Some(FileKind::Directory)
    } else {
        None
    }
}

/// The kind of file that `mode` describes.
pub fn as_file_kind(mode: u32) -> (r: FileKind)
    requires
        file_kind_spec(mode) is Some,
    ensures
        file_kind_spec(mode) == Some(r),
{
    match file_kind_of(mode) {
        Some(kind) => kind,
        None => FileKind::File,
    }
}

/// Refuses names longer than `MAX_NAME_LENGTH` bytes.
pub fn check_name_length(len: usize) -> (r: Result<(), FsError>)
    ensures
        r == (if len > MAX_NAME_LENGTH { Err(FsError::NameTooLong) } else { Ok::<(), FsError>(()) }),
{
    if len > MAX_NAME_LENGTH as usize {
        Err(FsError::NameTooLong)
    } else {
        Ok(())
    }
}

/// Refuses truncation beyond `MAX_FILE_SIZE`.
pub fn check_truncate_length(new_length: u64) -> (r: Result<(), FsError>)
    ensures
        r == (if new_length > MAX_FILE_SIZE { Err(FsError::FileTooBig) } else { Ok::<(), FsError>(()) }),
{
    if new_length > MAX_FILE_SIZE {
        Err(FsError::FileTooBig)
    } else {
        Ok(())
    }
}

/// The bytes of a file of `file_size` bytes that lie at or after `offset`.
pub open spec fn bytes_after(file_size: u64, offset: int) -> int {
    if file_size > offset { file_size - offset } else { 0 }
}

/// How many bytes a read of `size` bytes at `offset` returns from a file of
/// `file_size` bytes: the bytes available after the offset, cut to 32 bits,
/// and at most `size`.
pub fn read_length(size: u32, file_size: u64, offset: i64) -> (r: u32)
    requires
        offset >= 0,
    ensures
        r == (if size < (bytes_after(file_size, offset as int) as u32) {
            size
        } else {
            bytes_after(file_size, offset as int) as u32
        }),
{
    let available: u64 = file_size.saturating_sub(offset as u64);
    let available32: u32 = available as u32;
    if size < available32 {
        size
    } else {
        available32
    }
}

/// How many bytes a copy of `size` bytes from `offset` takes from a file of
/// `file_size` bytes: at most `size`, and no more than lie after the offset
/// (read as an unsigned number, as a cast does).
pub fn copy_length(size: u64, file_size: u64, offset: i64) -> (r: u64)
    ensures
        r == (if size < bytes_after(file_size, (offset as u64) as int) {
            size as int
        } else {
            bytes_after(file_size, (offset as u64) as int)
        }),
{
    let available: u64 = file_size.saturating_sub(offset as u64);
    if size < available {
        size
    } else {
        available
    }
}

/// The number of `BLOCK_SIZE` blocks that `size` bytes occupy.
pub fn block_count(size: u64) -> (r: u64)
    requires
        size + BLOCK_SIZE - 1 <= u64::MAX,
    ensures
        r == (size + BLOCK_SIZE - 1) / (BLOCK_SIZE as int),
{
    (size + (BLOCK_SIZE - 1)) / BLOCK_SIZE
}

/// The next inode number, given the last one stored in the superblock (or
/// none, for a new file system, where the root holds the number 1).
pub fn next_inode_number(stored: Option<Inode>) -> (r: Inode)
    requires
        stored matches Some(n) ==> n < u64::MAX,
    ensures
        r == (match stored {
            Some(n) => n + 1,
            None => 2,
        }),
{
    let current: Inode = match stored {
        Some(n) => n,
        None => sys::fuse_root_id(),
    };
    current + 1
}

/// The handle value given out as number `next`, opened for reading and/or
/// writing.
pub open spec fn handle_value(next: u64, read: bool, write: bool) -> int {
    next + (if read { FILE_HANDLE_READ_BIT as int } else { 0 }) + (if write {
        FILE_HANDLE_WRITE_BIT as int
    } else {
        0
    })
}

/// Whether a handle value allows reading.
pub open spec fn handle_readable(fh: u64) -> bool {
    fh >= FILE_HANDLE_READ_BIT
}

/// Whether a handle value allows writing.
pub open spec fn handle_writable(fh: u64) -> bool {
    fh % FILE_HANDLE_READ_BIT >= FILE_HANDLE_WRITE_BIT
}

/// `base` joined with the relative path `component`, separated by `/` unless
/// `base` is empty or already ends in one.
pub open spec fn path_join(base: Seq<char>, component: Seq<char>) -> Seq<char> {
    if base.len() == 0 {
        component
    } else if base.last() == '/' {
        base + component
    } else {
        base + "/"@ + component
    }
}

fn join_path(base: &str, component: &str) -> (r: String)
    ensures
        r@ == path_join(base@, component@),
{
    let n: usize = base.unicode_len();
    let mut s = String::from_str(base);
    if n > 0 && base.get_char(n - 1) != '/' {
        s.append("/");
    }
    s.append(component);
    s
}

/// The file system's state: where it keeps its data, the next file handle
/// number, and its options.
#[derive(Debug)]
pub struct MyFS {
    pub data_dir: String,
    pub next_file_handle: u64,
    pub direct_io: bool,
    pub suid_support: bool,
}

impl MyFS {
    /// A file system over `data_dir`; file handles are numbered from 1.
    /// Set-user-id support is always off.
    pub fn new(data_dir: String, direct_io: bool, suid_support: bool) -> (r: MyFS)
        ensures
            r.data_dir == data_dir,
            r.next_file_handle == 1,
            r.direct_io == direct_io,
            !r.suid_support,
    {
        MyFS { data_dir, next_file_handle: 1, direct_io, suid_support: false }
    }

    /// Gives out the next file handle, marked with the access it grants.
    pub fn allocate_next_file_handle(&mut self, read: bool, write: bool) -> (fh: u64)
        requires
            old(self).next_file_handle < FILE_HANDLE_WRITE_BIT,
        ensures
            fh == handle_value(old(self).next_file_handle, read, write),
            final(self).next_file_handle == old(self).next_file_handle + 1,
            final(self).data_dir == old(self).data_dir,
            final(self).direct_io == old(self).direct_io,
            final(self).suid_support == old(self).suid_support,
    {
        let mut fh: u64 = self.next_file_handle;
        self.next_file_handle = fh + 1;
        let ghost n = fh;
        if read {
            assert(n < 0x4000_0000_0000_0000u64 ==> n | 0x8000_0000_0000_0000u64 == n + 0x8000_0000_0000_0000u64) by (bit_vector);
            fh = fh | FILE_HANDLE_READ_BIT;
        }
        if write {
            let ghost m = fh;
            assert(m % 0x8000_0000_0000_0000u64 < 0x4000_0000_0000_0000u64 ==> m | 0x4000_0000_0000_0000u64 == m + 0x4000_0000_0000_0000u64) by (bit_vector);
            fh = fh | FILE_HANDLE_WRITE_BIT;
        }
        fh
    }

    /// Whether `file_handle` was opened for reading.
    pub fn check_file_handle_read(&self, file_handle: u64) -> (r: bool)
        ensures
            r == handle_readable(file_handle),
    {
        assert((file_handle & 0x8000_0000_0000_0000u64) != 0 <==> file_handle >= 0x8000_0000_0000_0000u64) by (bit_vector);
        (file_handle & FILE_HANDLE_READ_BIT) != 0
    }

    /// Whether `file_handle` was opened for writing.
    pub fn check_file_handle_write(&self, file_handle: u64) -> (r: bool)
        ensures
            r == handle_writable(file_handle),
    {
        assert((file_handle & 0x4000_0000_0000_0000u64) != 0 <==> file_handle % 0x8000_0000_0000_0000u64 >= 0x4000_0000_0000_0000u64) by (bit_vector);
        (file_handle & FILE_HANDLE_WRITE_BIT) != 0
    }

    /// A read through `file_handle` goes ahead only if the handle was opened
    /// for reading.
    pub fn read_access(&self, file_handle: u64) -> (r: Result<(), FsError>)
        ensures
            r == (if handle_readable(file_handle) { Ok::<(), FsError>(()) } else { Err(FsError::AccessDenied) }),
    {
        if self.check_file_handle_read(file_handle) {
            Ok(())
        } else {
            Err(FsError::AccessDenied)
        }
    }

    /// A write through `file_handle` goes ahead only if the handle was opened
    /// for writing.
    pub fn write_access(&self, file_handle: u64) -> (r: Result<(), FsError>)
        ensures
            r == (if handle_writable(file_handle) { Ok::<(), FsError>(()) } else { Err(FsError::AccessDenied) }),
    {
        if self.check_file_handle_write(file_handle) {
            Ok(())
        } else {
            Err(FsError::AccessDenied)
        }
    }

    /// A copy goes ahead only if the source handle reads and the destination
    /// handle writes; the source is checked first.
    pub fn copy_access(&self, src_fh: u64, dest_fh: u64) -> (r: Result<(), FsError>)
        ensures
            r == (if !handle_readable(src_fh) || !handle_writable(dest_fh) {
                Err(FsError::AccessDenied)
            } else {
                Ok::<(), FsError>(())
            }),
    {
        self.read_access(src_fh)?;
        self.write_access(dest_fh)
    }

    /// The flags an open replies with: direct I/O when the file system was
    /// mounted with it.
    pub fn open_flags(&self) -> (r: u32)
        ensures
            r == (if self.direct_io { 1u32 } else { 0u32 }),
    {
        if self.direct_io {
            sys::fopen_direct_io()
        } else {
            0
        }
    }

    /// Where the contents of `inode` are kept: `<data_dir>/contents/<inode>`.
    /// A directory's contents are its listing.
    pub fn content_path(&self, inode: Inode) -> (r: String)
        ensures
            r@ == path_join(path_join(self.data_dir@, "contents"@), nat_decimal(inode as nat)),
    {
        let dir = join_path(self.data_dir.as_str(), "contents");
        let mut name = String::new();
        push_decimal(&mut name, inode);
        join_path(dir.as_str(), name.as_str())
    }

    /// Where the attributes of `inode` are kept: `<data_dir>/inodes/<inode>`.
    pub fn inode_path(&self, inode: Inode) -> (r: String)
        ensures
            r@ == path_join(path_join(self.data_dir@, "inodes"@), nat_decimal(inode as nat)),
    {
        let dir = join_path(self.data_dir.as_str(), "inodes");
        let mut name = String::new();
        push_decimal(&mut name, inode);
        join_path(dir.as_str(), name.as_str())
    }

    /// Where the last inode number given out is kept: `<data_dir>/superblock`.
    pub fn superblock_path(&self) -> (r: String)
        ensures
            r@ == path_join(self.data_dir@, "superblock"@),
    {
        join_path(self.data_dir.as_str(), "superblock")
    }

    /// The open of an existing file: counts the handle in its attributes and
    /// gives out the handle with the flags to reply with.
    pub fn open_file(&mut self, attrs: &mut InodeAttributes, read: bool, write: bool) -> (r: (u64, u32))
        requires
            old(attrs).open_file_handles < u64::MAX,
            old(self).next_file_handle < FILE_HANDLE_WRITE_BIT,
        ensures
            *final(attrs) == (InodeAttributes {
                open_file_handles: (old(attrs).open_file_handles + 1) as u64,
                ..*old(attrs)
            }),
            r.0 == handle_value(old(self).next_file_handle, read, write),
            r.1 == (if old(self).direct_io { 1u32 } else { 0u32 }),
            final(self).next_file_handle == old(self).next_file_handle + 1,
            final(self).data_dir == old(self).data_dir,
            final(self).direct_io == old(self).direct_io,
            final(self).suid_support == old(self).suid_support,
    {
        attrs.record_open();
        let flags: u32 = self.open_flags();
        let fh: u64 = self.allocate_next_file_handle(read, write);
        (fh, flags)
    }
}

/// A handle records the access it was opened with.
pub proof fn lemma_handle_records_access(next: u64, read: bool, write: bool)
    requires
        next < FILE_HANDLE_WRITE_BIT,
    ensures
        handle_readable(handle_value(next, read, write) as u64) == read,
        handle_writable(handle_value(next, read, write) as u64) == write,
        handle_value(next, read, write) % (FILE_HANDLE_WRITE_BIT as int) == next,
{
}

/// Handles given out under different numbers differ, whatever access they
/// were opened with.
pub proof fn lemma_handles_distinct(n1: u64, r1: bool, w1: bool, n2: u64, r2: bool, w2: bool)
    requires
        n1 < FILE_HANDLE_WRITE_BIT,
        n2 < FILE_HANDLE_WRITE_BIT,
        n1 != n2,
    ensures
        handle_value(n1, r1, w1) != handle_value(n2, r2, w2),
{
    lemma_handle_records_access(n1, r1, w1);
    lemma_handle_records_access(n2, r2, w2);
}

} // verus!
