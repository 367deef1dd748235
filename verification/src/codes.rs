//! The OS-level integer codes that the locking protocol speaks.
//!
//! The record-lock type codes and the errno values below are the ones fixed
//! by the Linux ABI; the test suite checks each of them against the values
//! exported by the `libc` crate.

use vstd::prelude::*;

verus! {

/// Lock type code for a shared (read) record lock (`F_RDLCK`).
pub const LOCK_TYPE_SHARED: i16 = 0;

/// Lock type code for an exclusive (write) record lock (`F_WRLCK`).
pub const LOCK_TYPE_EXCLUSIVE: i16 = 1;

/// Lock type code that removes a held record lock (`F_UNLCK`).
pub const LOCK_TYPE_CLEAR: i16 = 2;

/// Errno: no such file or directory.
pub const ENOENT: i32 = 2;

/// Errno: a blocking call was interrupted by a signal.
pub const EINTR: i32 = 4;

/// Errno: the file descriptor is not valid.
pub const EBADF: i32 = 9;

/// Errno: a non-blocking request would have had to wait.
pub const EAGAIN: i32 = 11;

/// Errno: permission denied; also reported by some kernels in place of
/// `EAGAIN` when a non-blocking lock request is contended.
pub const EACCES: i32 = 13;

} // verus!
