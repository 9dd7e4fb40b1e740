//! Timestamps.

use vstd::prelude::*;

verus! {

/// Nanoseconds since the UNIX epoch.
pub type UnixNanos = u64;

} // verus!
