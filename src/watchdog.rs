use vstd::prelude::*;

verus! {

/// Length of an active session, from start to deep sleep, in milliseconds.
pub const MAX_ACTIVE_MS: u64 = 600_000;

/// Whether the session, `elapsed_ms` after its start, must end in deep
/// sleep. Nothing else is consulted: a running segment does not delay it.
pub fn deep_sleep_due(elapsed_ms: u64) -> (r: bool)
    ensures
        r == (elapsed_ms >= MAX_ACTIVE_MS),
{
    elapsed_ms >= MAX_ACTIVE_MS
}

/// Time left before deep sleep, `elapsed_ms` after the session started.
pub fn remaining_active_ms(elapsed_ms: u64) -> (r: u64)
    ensures
        elapsed_ms >= MAX_ACTIVE_MS ==> r == 0,
        elapsed_ms < MAX_ACTIVE_MS ==> r == MAX_ACTIVE_MS - elapsed_ms,
{
    if elapsed_ms >= MAX_ACTIVE_MS {
        0
    } else {
        MAX_ACTIVE_MS - elapsed_ms
    }
}

} // verus!
