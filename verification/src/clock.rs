//! Instants on the free-running 32-bit cycle counter.
//!
//! The counter wraps, so a deadline is computed modulo `2^32`.

use vstd::prelude::*;

verus! {

/// The counter's reading `cycles` after `instant`.
pub open spec fn later(instant: u32, cycles: u32) -> u32 {
    ((instant + cycles) % 0x1_0000_0000) as u32
}

/// The cycles that the counter runs from `from` until it reads `to`.
pub open spec fn elapsed(from: u32, to: u32) -> int {
    (to - from) % 0x1_0000_0000
}

/// A deadline lies exactly the given number of cycles ahead, also where the
/// counter wraps on the way.
pub proof fn lemma_later_elapsed(instant: u32, cycles: u32)
    ensures
        elapsed(instant, later(instant, cycles)) == cycles,
{
}

/// The deadline `cycles` after `instant`.
pub fn deadline_after(instant: u32, cycles: u32) -> (deadline: u32)
    ensures
        deadline == later(instant, cycles),
{
    instant.wrapping_add(cycles)
}

} // verus!
