//! Two-state switches driven by the simulation's controls.

use vstd::prelude::*;

verus! {

/// Flips a switch: the result is the opposite of `state`.
pub fn toggle_state(state: &bool) -> (flipped: bool)
    ensures
        flipped == !*state,
{
    !*state
}

} // verus!
