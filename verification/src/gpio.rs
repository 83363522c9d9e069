//! The computable part of the board's output handling: deciding the next
//! level of a toggled output, and the calibrated busy-wait. Reading and
//! writing the output-data registers themselves is the board port's work.

use vstd::prelude::*;

verus! {

/// Next level of an output pin that is being toggled: on if it was off,
/// off if it was on.
pub fn toggle_output_level(level_is_set: bool) -> (r: bool)
    ensures
        r == !level_is_set,
{
    !level_is_set
}

/// Calibrated busy-wait: counts `count` down to zero and returns. No
/// observable effect; it only burns a known number of iterations.
pub fn delay(count: u32)
{
    let mut c: u32 = count;
    while c != 0
        decreases c,
    {
        c = c - 1;
    }
}

} // verus!
