//! The lock handle, the request builder, and the acquisition and release
//! protocol.

use vstd::prelude::*;

use crate::codes::{EBADF, LOCK_TYPE_CLEAR, LOCK_TYPE_EXCLUSIVE, LOCK_TYPE_SHARED};
use crate::error::{map_open_error, map_os_error, spec_error_of, spec_open_error_of, LockError};
use crate::sys::{
    sys_close, sys_open_read, sys_open_read_write_create, sys_read, sys_read_at, sys_seek_current,
    sys_seek_end, sys_seek_start, sys_set_lock, sys_set_lock_wait, sys_write, sys_write_at,
};

verus! {

/// The record-lock type that a request with the given write intent asks the
/// kernel for: exclusive when writing, shared otherwise.
pub open spec fn spec_lock_type(writeable: bool) -> i16 {
    if writeable {
        LOCK_TYPE_EXCLUSIVE
    } else {
        LOCK_TYPE_SHARED
    }
}

/// Write intent and lock type determine each other: a writeable request
/// asks for the exclusive lock type and nothing else does, so sharing is
/// possible exactly among read-only requests.
pub proof fn lemma_exclusive_iff_writeable(writeable: bool)
    ensures
        spec_lock_type(writeable) == LOCK_TYPE_EXCLUSIVE <==> writeable,
        spec_lock_type(writeable) == LOCK_TYPE_SHARED <==> !writeable,
{
}

/// Translate write intent into the native lock type code.
fn lock_type_for(writeable: bool) -> (r: i16)
    ensures
        r == spec_lock_type(writeable),
{
    if writeable {
        LOCK_TYPE_EXCLUSIVE
    } else {
        LOCK_TYPE_SHARED
    }
}

/// Issue the native lock request for a whole-file record lock on `fd`:
/// exclusive if `writeable`, shared otherwise, waiting for the lock only if
/// `blocking`. Returns the raw errno on failure.
///
/// This is the single syscall adapter shared by [`FileLock::lock`] and
/// [`raw_lock`], so that the two call surfaces cannot drift apart.
fn apply_lock(fd: i32, blocking: bool, writeable: bool) -> (r: Result<(), i32>)
    ensures
        r matches Err(e) ==> e >= 0,
{
    let lock_type = lock_type_for(writeable);
    if blocking {
        sys_set_lock_wait(fd, lock_type)
    } else {
        sys_set_lock(fd, lock_type)
    }
}

/// Issue the native request that removes the whole-file record lock on
/// `fd`. Removal is always requested without waiting: clearing a lock
/// cannot contend with other holders, so the non-blocking variant is a
/// fixed policy here. Returns the raw errno on failure.
fn clear_lock(fd: i32) -> (r: Result<(), i32>)
    ensures
        r matches Err(e) ==> e >= 0,
    opens_invariants none
    no_unwind
{
    sys_set_lock(fd, LOCK_TYPE_CLEAR)
}

/// Acquire a whole-file lock on a caller-supplied raw descriptor, returning
/// a raw OS error code: `0` on success, `EBADF` for a negative descriptor
/// (rejected before any syscall), otherwise the errno the kernel reported.
pub fn raw_lock(fd: i32, is_blocking: bool, is_writable: bool) -> (r: i32)
    ensures
        fd < 0 ==> r == EBADF,
        r >= 0,
{
    if fd < 0 {
        return EBADF;
    }
    match apply_lock(fd, is_blocking, is_writable) {
        Ok(()) => 0,
        Err(code) => code,
    }
}

/// Release the whole-file lock on a caller-supplied raw descriptor,
/// returning a raw OS error code: `0` on success, `EBADF` for a negative
/// descriptor (rejected before any syscall), otherwise the errno the kernel
/// reported.
pub fn raw_unlock(fd: i32) -> (r: i32)
    ensures
        fd < 0 ==> r == EBADF,
        r >= 0,
{
    if fd < 0 {
        return EBADF;
    }
    match clear_lock(fd) {
        Ok(()) => 0,
        Err(code) => code,
    }
}

/// A position to seek the handle's descriptor to.
#[derive(Clone, Copy, Debug, PartialEq, Eq, Structural)]
pub enum SeekTo {
    /// An absolute offset from the start of the file.
    Start(u64),
    /// A relative offset from the current position.
    Current(i64),
    /// A relative offset from the end of the file.
    End(i64),
}

/// A held advisory lock: owns the open descriptor of the locked file and
/// remembers the write intent it was acquired with.
///
/// Dropping the handle releases the lock (best effort, any failure is
/// discarded) and closes the descriptor, so a lock is never held past the
/// life of the handle that represents it.
#[derive(Debug)]
pub struct FileLock {
    fd: i32,
    writeable: bool,
}

/// A lock request under construction: the path to lock, whether acquisition
/// may wait, and whether the file is opened for writing. Pure
/// configuration; no file is touched until [`FileLockBuilder::lock`] runs.
#[derive(Debug)]
pub struct FileLockBuilder {
    /// The path of the file to lock.
    pub file_path: String,
    /// Whether acquisition waits for a contended lock (default `false`).
    pub blocking: bool,
    /// Whether the file is opened writeable and the lock is exclusive
    /// (default `false`).
    pub writeable: bool,
}

impl FileLock {
    /// The handle owns a usable (nonnegative) descriptor.
    pub closed spec fn wf(&self) -> bool {
        self.fd >= 0
    }

    /// The descriptor the handle owns.
    pub closed spec fn descriptor(&self) -> int {
        self.fd as int
    }

    /// The write intent the lock was acquired with.
    pub closed spec fn is_writeable(&self) -> bool {
        self.writeable
    }

    /// Create a builder for a lock request on `file_path`, with `blocking`
    /// and `writeable` both defaulting to `false`.
    pub fn new(file_path: &str) -> (r: FileLockBuilder)
        ensures
            r.file_path@ == file_path@,
            !r.blocking,
            !r.writeable,
    {
        FileLockBuilder { file_path: file_path.to_owned(), blocking: false, writeable: false }
    }

    /// Open `file_path` and acquire a whole-file advisory lock on it.
    ///
    /// The file is opened for reading; if `writeable` it is also opened for
    /// writing and created if absent, and the lock requested is exclusive
    /// rather than shared. If `blocking`, a contended acquisition waits;
    /// otherwise it fails at once with [`LockError::WouldBlock`].
    ///
    /// A failure of the open step keeps its raw code as [`LockError::Io`];
    /// only a failure of the lock step goes through the full taxonomy,
    /// since contention and interruption describe the lock request alone.
    ///
    /// Either a handle owning the open, locked descriptor is returned, or
    /// no resource is retained: when the lock request fails, the descriptor
    /// that was just opened is closed before the error is surfaced.
    pub fn lock(file_path: &str, blocking: bool, writeable: bool) -> (r: Result<
        FileLock,
        LockError,
    >)
        ensures
            r matches Ok(h) ==> h.wf() && h.is_writeable() == writeable,
            r matches Err(e) ==> exists|code: i32|
                code >= 0 && (e == spec_error_of(code) || e == spec_open_error_of(code)),
    {
        let opened = if writeable {
            sys_open_read_write_create(file_path)
        } else {
            sys_open_read(file_path)
        };
        match opened {
            Err(code) => Err(map_open_error(code)),
            Ok(fd) => match apply_lock(fd, blocking, writeable) {
                Ok(()) => Ok(FileLock { fd, writeable }),
                Err(code) => {
                    let _ = sys_close(fd);
                    Err(map_os_error(code))
                },
            },
        }
    }

    /// Release the lock without closing the file, by issuing the
    /// non-blocking removal request against the same whole-file region.
    ///
    /// Removing a lock cannot contend with other holders, so this never
    /// waits, however the lock was acquired; repeating the call when the
    /// lock is already released is not an error the kernel distinguishes
    /// from success. On failure the errno is surfaced through the portable
    /// taxonomy.
    pub fn unlock(&self) -> (r: Result<(), LockError>)
        ensures
            r matches Err(e) ==> exists|code: i32| code >= 0 && e == spec_error_of(code),
    {
        match clear_lock(self.fd) {
            Ok(()) => Ok(()),
            Err(code) => Err(map_os_error(code)),
        }
    }

    /// The raw descriptor the handle owns.
    pub fn as_raw_fd(&self) -> (r: i32)
        ensures
            r == self.descriptor(),
    {
        self.fd
    }

    /// Read from the descriptor's current offset into the front of `buf`,
    /// delegating directly to the underlying file: no lock state changes.
    pub fn read(&self, buf: &mut Vec<u8>) -> (r: Result<usize, LockError>)
        ensures
            final(buf)@.len() == old(buf)@.len(),
            r matches Ok(n) ==> n <= final(buf)@.len(),
            r matches Err(e) ==> exists|code: i32| code >= 0 && e == spec_error_of(code),
    {
        match sys_read(self.fd, buf) {
            Ok(n) => Ok(n),
            Err(code) => Err(map_os_error(code)),
        }
    }

    /// Write `buf` at the descriptor's current offset, delegating directly
    /// to the underlying file: no lock state changes.
    pub fn write(&self, buf: &[u8]) -> (r: Result<usize, LockError>)
        ensures
            r matches Ok(n) ==> n <= buf@.len(),
            r matches Err(e) ==> exists|code: i32| code >= 0 && e == spec_error_of(code),
    {
        match sys_write(self.fd, buf) {
            Ok(n) => Ok(n),
            Err(code) => Err(map_os_error(code)),
        }
    }

    /// Move the descriptor's offset and return the resulting position; a
    /// seek to an absolute position returns exactly that position.
    pub fn seek(&self, pos: SeekTo) -> (r: Result<u64, LockError>)
        requires
            pos matches SeekTo::Start(offset) ==> offset <= i64::MAX as u64,
        ensures
            pos is Start && r is Ok ==> r->Ok_0 == pos->Start_0,
            r matches Err(e) ==> exists|code: i32| code >= 0 && e == spec_error_of(code),
    {
        match pos {
            SeekTo::Start(offset) => match sys_seek_start(self.fd, offset as i64) {
                Ok(position) => Ok(position),
                Err(code) => Err(map_os_error(code)),
            },
            SeekTo::Current(offset) => match sys_seek_current(self.fd, offset) {
                Ok(position) => Ok(position),
                Err(code) => Err(map_os_error(code)),
            },
            SeekTo::End(offset) => match sys_seek_end(self.fd, offset) {
                Ok(position) => Ok(position),
                Err(code) => Err(map_os_error(code)),
            },
        }
    }

    /// Read into the front of `buf` from the given absolute offset, leaving
    /// the descriptor's own offset alone.
    pub fn read_at(&self, buf: &mut Vec<u8>, offset: u64) -> (r: Result<usize, LockError>)
        requires
            offset <= i64::MAX as u64,
        ensures
            final(buf)@.len() == old(buf)@.len(),
            r matches Ok(n) ==> n <= final(buf)@.len(),
            r matches Err(e) ==> exists|code: i32| code >= 0 && e == spec_error_of(code),
    {
        match sys_read_at(self.fd, buf, offset as i64) {
            Ok(n) => Ok(n),
            Err(code) => Err(map_os_error(code)),
        }
    }

    /// Write `buf` at the given absolute offset, leaving the descriptor's
    /// own offset alone.
    pub fn write_at(&self, buf: &[u8], offset: u64) -> (r: Result<usize, LockError>)
        requires
            offset <= i64::MAX as u64,
        ensures
            r matches Ok(n) ==> n <= buf@.len(),
            r matches Err(e) ==> exists|code: i32| code >= 0 && e == spec_error_of(code),
    {
        match sys_write_at(self.fd, buf, offset as i64) {
            Ok(n) => Ok(n),
            Err(code) => Err(map_os_error(code)),
        }
    }
}

impl FileLockBuilder {
    /// Choose whether acquisition waits for a contended lock. Chainable;
    /// the last setting wins.
    pub fn blocking(self, v: bool) -> (r: Self)
        ensures
            r.file_path@ == self.file_path@,
            r.blocking == v,
            r.writeable == self.writeable,
    {
        FileLockBuilder { blocking: v, ..self }
    }

    /// Choose whether the file is opened writeable and the lock is
    /// exclusive. Chainable; the last setting wins.
    pub fn writeable(self, v: bool) -> (r: Self)
        ensures
            r.file_path@ == self.file_path@,
            r.blocking == self.blocking,
            r.writeable == v,
    {
        FileLockBuilder { writeable: v, ..self }
    }

    /// Perform the acquisition this builder describes, as
    /// [`FileLock::lock`] does.
    pub fn lock(self) -> (r: Result<FileLock, LockError>)
        ensures
            r matches Ok(h) ==> h.wf() && h.is_writeable() == self.writeable,
            r matches Err(e) ==> exists|code: i32|
                code >= 0 && (e == spec_error_of(code) || e == spec_open_error_of(code)),
    {
        FileLock::lock(self.file_path.as_str(), self.blocking, self.writeable)
    }
}

impl Drop for FileLock {
    /// Best-effort release on every exit path: remove the lock, discarding
    /// any failure (there is no caller left to observe it), then close the
    /// descriptor the handle owns.
    fn drop(&mut self)
        opens_invariants none
        no_unwind
    {
        let _ = clear_lock(self.fd);
        let _ = sys_close(self.fd);
    }
}

} // verus!
