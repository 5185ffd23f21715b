//! A verified core for a bidirectional arcade I/O bridge.
//!
//! The library holds the pure, provable heart of the bridge: the binary
//! message codec spoken with the backend, the recovery discipline of the
//! connection manager, the shared device-state cache with its LED board
//! invariants, and the control state of the slider streaming loop.  The
//! surrounding process glue (sockets, locks, threads, the foreign entry
//! points) stays outside and hands this library plain values.

use vstd::prelude::*;

pub mod link;
pub mod protocol;
pub mod slider;
pub mod state;

verus! {

/// The protocol revision reported to callers of the entry-point surface.
pub fn api_version() -> (v: u16)
    ensures
        v == 0x0102,
{
    0x0102
}

} // verus!
