//! Constants of the operating system and of the FUSE protocol that the file
//! system decides by, read from the `libc` and `fuser` crates.

use vstd::prelude::*;

verus! {

/// `libc::O_ACCMODE`, the mask of the access-mode bits of `open` flags; the
/// crate defines it as 3 for Linux with glibc.
#[verifier::external_body]
pub(crate) fn o_accmode() -> (r: i32)
    ensures
        r == 3,
{
    libc::O_ACCMODE
}

/// `libc::O_RDONLY`, which the crate defines as 0 on Linux.
#[verifier::external_body]
pub(crate) fn o_rdonly() -> (r: i32)
    ensures
        r == 0,
{
    libc::O_RDONLY
}

/// `libc::O_WRONLY`, which the crate defines as 1 on Linux.
#[verifier::external_body]
pub(crate) fn o_wronly() -> (r: i32)
    ensures
        r == 1,
{
    libc::O_WRONLY
}

/// `libc::O_RDWR`, which the crate defines as 2 on Linux.
#[verifier::external_body]
pub(crate) fn o_rdwr() -> (r: i32)
    ensures
        r == 2,
{
    libc::O_RDWR
}

/// `libc::O_TRUNC`, which the crate defines as 512 for Linux on x86_64.
#[verifier::external_body]
pub(crate) fn o_trunc() -> (r: i32)
    ensures
        r == 512,
{
    libc::O_TRUNC
}

/// `libc::R_OK`, which the crate defines as 4 on Linux.
#[verifier::external_body]
pub(crate) fn r_ok() -> (r: i32)
    ensures
        r == 4,
{
    libc::R_OK
}

/// `libc::W_OK`, which the crate defines as 2 on Linux.
#[verifier::external_body]
pub(crate) fn w_ok() -> (r: i32)
    ensures
        r == 2,
{
    libc::W_OK
}

/// `libc::X_OK`, which the crate defines as 1 on Linux.
#[verifier::external_body]
pub(crate) fn x_ok() -> (r: i32)
    ensures
        r == 1,
{
    libc::X_OK
}

/// `libc::S_IFMT`, the file-type mask of a mode, `0o170000` on Linux.
#[verifier::external_body]
pub(crate) fn s_ifmt() -> (r: u32)
    ensures
        r == 0o170000,
{
    libc::S_IFMT
}

/// `libc::S_IFREG`, the regular-file type, `0o100000` on Linux.
#[verifier::external_body]
pub(crate) fn s_ifreg() -> (r: u32)
    ensures
        r == 0o100000,
{
    libc::S_IFREG
}

/// `libc::S_IFLNK`, the symbolic-link type, `0o120000` on Linux.
#[verifier::external_body]
pub(crate) fn s_iflnk() -> (r: u32)
    ensures
        r == 0o120000,
{
    libc::S_IFLNK
}

/// `libc::S_IFDIR`, the directory type, `0o40000` on Linux.
#[verifier::external_body]
pub(crate) fn s_ifdir() -> (r: u32)
    ensures
        r == 0o40000,
{
    libc::S_IFDIR
}

/// `libc::S_ISUID`, the set-user-id bit, `0o4000`.
#[verifier::external_body]
pub(crate) fn s_isuid() -> (r: u32)
    ensures
        r == 0o4000,
{
    libc::S_ISUID
}

/// `libc::S_ISGID`, the set-group-id bit, `0o2000`.
#[verifier::external_body]
pub(crate) fn s_isgid() -> (r: u32)
    ensures
        r == 0o2000,
{
    libc::S_ISGID
}

/// `fuser::FUSE_ROOT_ID`, the inode number of the root directory, which the
/// crate defines as 1.
#[verifier::external_body]
pub(crate) fn fuse_root_id() -> (r: u64)
    ensures
        r == 1,
{
    fuser::FUSE_ROOT_ID
}

/// `fuser::consts::FOPEN_DIRECT_IO`, the open flag that bypasses the page
/// cache, which the crate defines as `1 << 0`.
#[verifier::external_body]
pub(crate) fn fopen_direct_io() -> (r: u32)
    ensures
        r == 1,
{
    fuser::consts::FOPEN_DIRECT_IO
}

} // verus!
