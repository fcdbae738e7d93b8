//! Per-worker timing: the startup offset that spreads virtual users across
//! the first second, and the jittered delay between consecutive requests.

use vstd::prelude::*;

verus! {

/// Startup offset in milliseconds for the virtual user with the given index.
///
/// Workers do not all fire their first request at once: worker `index` first
/// sleeps `(index * 1000 / max(100, index + 1)) % 1000` milliseconds, a
/// deterministic value below one second.
pub open spec fn spec_initial_offset_ms(index: nat) -> nat {
    ((index * 1000) / (if index + 1 > 100 {
        index + 1
    } else {
        100
    })) % 1000
}

/// Delay in milliseconds between two requests of the virtual user with the
/// given index: a one-second base cadence with a deterministic per-worker
/// jitter, always in the 800..1200 band.
pub open spec fn spec_loop_delay_ms(index: nat) -> nat {
    800 + (index * 37) % 400
}

/// Computes the startup offset of a worker.
pub fn initial_offset_ms(index: usize) -> (r: u64)
    ensures
        r == spec_initial_offset_ms(index as nat),
        r < 1000,
{
    let scaled: u128 = (index as u128) * 1000;
    let divisor: u128 = if index as u128 + 1 > 100 {
        index as u128 + 1
    } else {
        100
    };
    let offset: u128 = (scaled / divisor) % 1000;
    offset as u64
}

/// Computes the delay a worker sleeps between two consecutive requests.
pub fn loop_delay_ms(index: usize) -> (r: u64)
    ensures
        r == spec_loop_delay_ms(index as nat),
        800 <= r < 1200,
{
    let jitter: u128 = ((index as u128) * 37) % 400;
    800 + jitter as u64
}

} // verus!
