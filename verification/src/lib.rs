//! Host-side lifecycle manager for a palm-tree counting desktop app:
//! resumable AI-pack download planning, archive installation and validation,
//! sidecar process supervision, an embedded configuration store, and
//! system telemetry formatting.

use vstd::prelude::*;

pub mod db;
pub mod fetch;
pub mod install;
pub mod paths;
pub mod queue;
pub mod sidecar;
pub mod store;
pub mod strutil;
pub mod telemetry;

verus! {

/// Overflow-guarded addition, for callers that must test a byte count
/// before extending a download session with another chunk.
pub fn checked_add_u64(a: u64, b: u64) -> (r: Option<u64>)
    ensures
        r is Some <==> a + b <= u64::MAX,
        r is Some ==> r->0 == a + b,
{
    if a <= u64::MAX - b {
        Some(a + b)
    } else {
        None
    }
}

} // verus!
