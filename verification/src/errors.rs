//! The scan's error taxonomy.
//!
//! Configuration errors are surfaced before any engine runs; ring
//! protocol violations are fatal sizing defects, never retried.  Each
//! function that returns one of these says in its contract exactly when
//! it does so.

use vstd::prelude::*;

verus! {

/// Why a scan could not be set up or a ring step could not be accepted.
#[derive(Clone, Copy, Debug, PartialEq, Eq)]
pub enum ScanError {
    /// The ring or pool geometry is invalid (a size of zero or not a
    /// power of two, or a pool that does not match its ring sizes).
    BadConfig,
    /// The transmit frame set cannot hold one frame per target.
    PoolTooSmall { targets: usize, capacity: usize },
    /// A ring accepted fewer descriptors than its sizing guaranteed it
    /// could: a fatal protocol violation, not a transient condition.
    ShortSubmission { expected: usize, accepted: usize },
    /// A frame payload longer than the pool's fixed frame size.
    FrameTooLong { len: usize, frame_size: usize },
}

} // verus!
