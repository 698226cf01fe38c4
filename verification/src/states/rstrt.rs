//! The restart sequence.

use vstd::prelude::*;
use crate::states::State;

verus! {

/// One update step of this phase. The restart sequence never asks for another phase,
/// and leaves the screen and the level as they are.
pub fn update<S, L>(screen: &mut S, level: &mut L, millis_since_state_start: u64) -> (next: Option<
    State,
>)
    ensures
        next is None,
        *final(screen) == *old(screen),
        *final(level) == *old(level),
{
    None
}

} // verus!
