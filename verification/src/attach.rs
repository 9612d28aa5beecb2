//! What the injected library does when Windows notifies it.
use vstd::prelude::*;

verus! {

/// Notification reason: the library was loaded into a process.
pub const DLL_PROCESS_ATTACH: u32 = 1;
/// Pause between two messages of the worker started on attach, in seconds.
pub const HEARTBEAT_INTERVAL_SECS: u64 = 3;

/// Whether a notification with `call_reason` starts the console worker:
/// only loading into a process does; every notification is answered with
/// success either way.
pub fn starts_worker(call_reason: u32) -> (r: bool)
    ensures
        r == (call_reason == DLL_PROCESS_ATTACH),
{
    call_reason == DLL_PROCESS_ATTACH
}

} // verus!
