//! Advisory whole-file locking over the POSIX record-lock facility.
//!
//! A lock is requested through [`FileLock::new`] (a chainable builder) or
//! [`FileLock::lock`] directly; both open the named file and ask the kernel
//! for a shared or exclusive record lock spanning the whole file. A
//! successful acquisition yields a [`FileLock`] handle that owns the open
//! descriptor; dropping the handle releases the lock and closes the
//! descriptor. Failures are reported through the portable [`LockError`]
//! taxonomy.
//!
//! The raw entry points [`raw_lock`] and [`raw_unlock`] expose the same
//! acquisition and release logic on a caller-supplied descriptor, reporting
//! plain OS error codes instead of structured errors.

pub mod codes;
pub mod error;
mod sys;
pub mod lock;

pub use codes::{
    EACCES, EAGAIN, EBADF, EINTR, ENOENT, LOCK_TYPE_CLEAR, LOCK_TYPE_EXCLUSIVE, LOCK_TYPE_SHARED,
};
pub use error::{map_open_error, map_os_error, spec_error_of, spec_open_error_of, LockError};
pub use lock::{raw_lock, raw_unlock, FileLock, FileLockBuilder, SeekTo};
