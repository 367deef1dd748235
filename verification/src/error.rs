//! The portable error taxonomy and the mapping from OS error codes into it.

use vstd::prelude::*;

use crate::codes::{EACCES, EAGAIN, EBADF, EINTR};

verus! {

/// A failure of a lock operation, as a closed set of semantic kinds.
///
/// `Io` carries the original OS error code for diagnostics; the other
/// variants name the outcomes a caller is expected to react to.
#[derive(Clone, Copy, Debug, PartialEq, Eq, Structural)]
pub enum LockError {
    /// The file descriptor was negative or otherwise not usable.
    InvalidDescriptor,
    /// A non-blocking acquisition was contended and would have had to wait.
    WouldBlock,
    /// A blocking acquisition was interrupted by a signal.
    Interrupted,
    /// Any other OS failure, carrying the original errno value.
    Io(i32),
}

/// The portable meaning of an OS error code: contention codes become
/// `WouldBlock`, a signal interruption becomes `Interrupted`, a rejected
/// descriptor becomes `InvalidDescriptor`, and everything else keeps its
/// code as `Io`.
pub open spec fn spec_error_of(code: i32) -> LockError {
    if code == EAGAIN || code == EACCES {
        LockError::WouldBlock
    } else if code == EINTR {
        LockError::Interrupted
    } else if code == EBADF {
        LockError::InvalidDescriptor
    } else {
        LockError::Io(code)
    }
}

/// Convert an OS error code into its portable kind.
pub fn map_os_error(code: i32) -> (r: LockError)
    ensures
        r == spec_error_of(code),
{
    if code == EAGAIN || code == EACCES {
        LockError::WouldBlock
    } else if code == EINTR {
        LockError::Interrupted
    } else if code == EBADF {
        LockError::InvalidDescriptor
    } else {
        LockError::Io(code)
    }
}

/// The portable meaning of an OS error code reported by the *open* step of
/// acquisition: the code is kept verbatim as `Io`.
///
/// The special kinds describe the lock step only — `WouldBlock` means a
/// contended lock request and `Interrupted` an interrupted lock wait.
/// `open` reports `EACCES` for permission denial, never for contention, so
/// folding it into `WouldBlock` would tell a caller to retry a failure that
/// cannot go away; a denied or missing file stays a plain `Io` failure with
/// its original code.
pub open spec fn spec_open_error_of(code: i32) -> LockError {
    LockError::Io(code)
}

/// Convert an OS error code from the open step into its portable kind.
pub fn map_open_error(code: i32) -> (r: LockError)
    ensures
        r == spec_open_error_of(code),
{
    LockError::Io(code)
}

/// Exactly the two contention codes map to `WouldBlock`: a caller that
/// retries on `WouldBlock` reacts to contention and to nothing else.
pub proof fn lemma_would_block_iff_contention(code: i32)
    ensures
        spec_error_of(code) is WouldBlock <==> (code == EAGAIN || code == EACCES),
{
}

/// Exactly a signal interruption maps to `Interrupted`.
pub proof fn lemma_interrupted_iff_signal(code: i32)
    ensures
        spec_error_of(code) is Interrupted <==> code == EINTR,
{
}

/// Exactly a rejected descriptor maps to `InvalidDescriptor`.
pub proof fn lemma_invalid_descriptor_iff_ebadf(code: i32)
    ensures
        spec_error_of(code) is InvalidDescriptor <==> code == EBADF,
{
}

/// Every other code is passed through unchanged as `Io`, so a not-found
/// failure from opening a missing file surfaces as `Io` with that code.
pub proof fn lemma_io_keeps_code(code: i32)
    ensures
        code != EAGAIN && code != EACCES && code != EINTR && code != EBADF ==> spec_error_of(code)
            == LockError::Io(code),
        spec_error_of(code) matches LockError::Io(c) ==> c == code,
{
}

} // verus!
