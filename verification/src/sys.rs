//! Trusted wrappers around the OS calls made through the `nix` crate.
//!
//! Each wrapper makes exactly one call and converts its result to plain
//! values: a file descriptor or byte count on success, the raw errno value
//! on failure. Nothing here decides anything; every decision is made by the
//! verified callers in [`crate::lock`].

use vstd::prelude::*;

verus! {

/// Relies on `nix::fcntl::open` with `O_RDONLY`: on success the kernel
/// returns a nonnegative descriptor for the existing file, never creating
/// it; on failure the errno (nonnegative by construction in `nix`) says why.
#[verifier::external_body]
pub(crate) fn sys_open_read(path: &str) -> (r: Result<i32, i32>)
    ensures
        r matches Ok(fd) ==> fd >= 0,
        r matches Err(e) ==> e >= 0,
{
    match nix::fcntl::open(path, nix::fcntl::OFlag::O_RDONLY, nix::sys::stat::Mode::empty()) {
        Ok(fd) => Ok(fd),
        Err(e) => Err(e as i32),
    }
}

/// Relies on `nix::fcntl::open` with `O_RDWR | O_CREAT` and mode `0o666`
/// (the kernel applies the process umask): opens the file for reading and
/// writing, creating it if absent, and returns a nonnegative descriptor on
/// success or the errno on failure.
#[verifier::external_body]
pub(crate) fn sys_open_read_write_create(path: &str) -> (r: Result<i32, i32>)
    ensures
        r matches Ok(fd) ==> fd >= 0,
        r matches Err(e) ==> e >= 0,
{
    let flags = nix::fcntl::OFlag::O_RDWR | nix::fcntl::OFlag::O_CREAT;
    match nix::fcntl::open(path, flags, nix::sys::stat::Mode::from_bits_truncate(0o666)) {
        Ok(fd) => Ok(fd),
        Err(e) => Err(e as i32),
    }
}

/// Relies on `nix::fcntl::fcntl` with `F_SETLK`: asks the kernel to set (or,
/// for the clear code, remove) a whole-file record lock of the given type
/// without waiting, returning the errno if the request cannot be granted
/// immediately.
#[verifier::external_body]
pub(crate) fn sys_set_lock(fd: i32, lock_type: i16) -> (r: Result<(), i32>)
    ensures
        r matches Err(e) ==> e >= 0,
    opens_invariants none
    no_unwind
{
    let fl = libc::flock {
        l_type: lock_type,
        l_whence: libc::SEEK_SET as i16,
        l_start: 0,
        l_len: 0,
        l_pid: 0,
    };
    match nix::fcntl::fcntl(fd, nix::fcntl::FcntlArg::F_SETLK(&fl)) {
        Ok(_) => Ok(()),
        Err(e) => Err(e as i32),
    }
}

/// Relies on `nix::fcntl::fcntl` with `F_SETLKW`: as [`sys_set_lock`], but
/// suspends the calling thread until the whole-file record lock of the given
/// type is granted or the wait is interrupted by a signal.
#[verifier::external_body]
pub(crate) fn sys_set_lock_wait(fd: i32, lock_type: i16) -> (r: Result<(), i32>)
    ensures
        r matches Err(e) ==> e >= 0,
    opens_invariants none
    no_unwind
{
    let fl = libc::flock {
        l_type: lock_type,
        l_whence: libc::SEEK_SET as i16,
        l_start: 0,
        l_len: 0,
        l_pid: 0,
    };
    match nix::fcntl::fcntl(fd, nix::fcntl::FcntlArg::F_SETLKW(&fl)) {
        Ok(_) => Ok(()),
        Err(e) => Err(e as i32),
    }
}

/// Relies on `nix::unistd::close`: closes the descriptor, which also drops
/// any record locks the process holds on the underlying file.
#[verifier::external_body]
pub(crate) fn sys_close(fd: i32) -> (r: Result<(), i32>)
    ensures
        r matches Err(e) ==> e >= 0,
    opens_invariants none
    no_unwind
{
    match nix::unistd::close(fd) {
        Ok(()) => Ok(()),
        Err(e) => Err(e as i32),
    }
}

/// Relies on `nix::unistd::read`: reads at most `buf.len()` bytes into the
/// front of `buf` at the descriptor's current offset, never changing the
/// buffer's length.
#[verifier::external_body]
pub(crate) fn sys_read(fd: i32, buf: &mut Vec<u8>) -> (r: Result<usize, i32>)
    ensures
        final(buf)@.len() == old(buf)@.len(),
        r matches Ok(n) ==> n <= final(buf)@.len(),
        r matches Err(e) ==> e >= 0,
{
    match nix::unistd::read(fd, buf.as_mut_slice()) {
        Ok(n) => Ok(n),
        Err(e) => Err(e as i32),
    }
}

/// Relies on `nix::unistd::write`: writes at most `buf.len()` bytes from
/// `buf` at the descriptor's current offset and returns how many were
/// written.
#[verifier::external_body]
pub(crate) fn sys_write(fd: i32, buf: &[u8]) -> (r: Result<usize, i32>)
    ensures
        r matches Ok(n) ==> n <= buf@.len(),
        r matches Err(e) ==> e >= 0,
{
    match nix::unistd::write(fd, buf) {
        Ok(n) => Ok(n),
        Err(e) => Err(e as i32),
    }
}

/// Relies on `nix::unistd::lseek` with `SEEK_SET`: repositions the
/// descriptor's offset to `offset` bytes from the start of the file and
/// returns the resulting offset, which for `SEEK_SET` is exactly the
/// requested one.
#[verifier::external_body]
pub(crate) fn sys_seek_start(fd: i32, offset: i64) -> (r: Result<u64, i32>)
    requires
        offset >= 0,
    ensures
        r matches Ok(pos) ==> pos == offset as u64,
        r matches Err(e) ==> e >= 0,
{
    match nix::unistd::lseek(fd, offset, nix::unistd::Whence::SeekSet) {
        Ok(pos) => Ok(pos as u64),
        Err(e) => Err(e as i32),
    }
}

/// Relies on `nix::unistd::lseek` with `SEEK_CUR`: moves the descriptor's
/// offset by `offset` bytes relative to its current position.
#[verifier::external_body]
pub(crate) fn sys_seek_current(fd: i32, offset: i64) -> (r: Result<u64, i32>)
    ensures
        r matches Err(e) ==> e >= 0,
{
    match nix::unistd::lseek(fd, offset, nix::unistd::Whence::SeekCur) {
        Ok(pos) => Ok(pos as u64),
        Err(e) => Err(e as i32),
    }
}

/// Relies on `nix::unistd::lseek` with `SEEK_END`: moves the descriptor's
/// offset to `offset` bytes relative to the end of the file.
#[verifier::external_body]
pub(crate) fn sys_seek_end(fd: i32, offset: i64) -> (r: Result<u64, i32>)
    ensures
        r matches Err(e) ==> e >= 0,
{
    match nix::unistd::lseek(fd, offset, nix::unistd::Whence::SeekEnd) {
        Ok(pos) => Ok(pos as u64),
        Err(e) => Err(e as i32),
    }
}

/// Relies on `nix::sys::uio::pread`: reads at most `buf.len()` bytes into
/// the front of `buf` from the given absolute offset, without moving the
/// descriptor's own offset and without changing the buffer's length.
#[verifier::external_body]
pub(crate) fn sys_read_at(fd: i32, buf: &mut Vec<u8>, offset: i64) -> (r: Result<usize, i32>)
    ensures
        final(buf)@.len() == old(buf)@.len(),
        r matches Ok(n) ==> n <= final(buf)@.len(),
        r matches Err(e) ==> e >= 0,
{
    match nix::sys::uio::pread(fd, buf.as_mut_slice(), offset) {
        Ok(n) => Ok(n),
        Err(e) => Err(e as i32),
    }
}

/// Relies on `nix::sys::uio::pwrite`: writes at most `buf.len()` bytes from
/// `buf` at the given absolute offset, without moving the descriptor's own
/// offset.
#[verifier::external_body]
pub(crate) fn sys_write_at(fd: i32, buf: &[u8], offset: i64) -> (r: Result<usize, i32>)
    ensures
        r matches Ok(n) ==> n <= buf@.len(),
        r matches Err(e) ==> e >= 0,
{
    match nix::sys::uio::pwrite(fd, buf, offset) {
        Ok(n) => Ok(n),
        Err(e) => Err(e as i32),
    }
}

} // verus!
