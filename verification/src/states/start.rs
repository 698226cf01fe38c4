//! The intro: a countdown from three, one number a second, after which flight
//! begins.

use vstd::prelude::*;
use crate::states::State;

verus! {

/// Milliseconds the countdown lasts.
pub const COUNTDOWN_MS: u64 = 3000;

/// Number of entries in the palette of the countdown.
pub const COUNTDOWN_COLORS: usize = 3;

/// What the intro asks for after `elapsed` milliseconds: flight once the
/// countdown has run out, nothing before.
pub open spec fn countdown_over(elapsed: u64) -> Option<State> {
    if elapsed >= COUNTDOWN_MS {
        Some(State::Flyng)
    } else {
        None
    }
}

/// The number that the overlay shows `elapsed` milliseconds into the intro.
pub open spec fn shown_number(elapsed: u64) -> int {
    3 - elapsed / 1000
}

/// One update step of the intro. Neither the screen nor the level is changed.
pub fn update<S, L>(screen: &mut S, level: &mut L, millis_since_state_start: u64) -> (next: Option<
    State,
>)
    ensures
        next == countdown_over(millis_since_state_start),
        *final(screen) == *old(screen),
        *final(level) == *old(level),
{
    if millis_since_state_start >= COUNTDOWN_MS {
        Some(State::Flyng)
    } else {
        None
    }
}

/// The number to show on the overlay. It is not defined from four seconds on,
/// where it would fall below zero.
pub fn countdown_number(millis_since_state_start: u64) -> (number: u64)
    requires
        millis_since_state_start < 4000,
    ensures
        number == shown_number(millis_since_state_start),
{
    3 - millis_since_state_start / 1000
}

/// Place in the palette of the colour for `number`: three takes the first
/// colour, one the last.
pub fn countdown_color_index(number: u64) -> (index: usize)
    requires
        1 <= number <= 3,
    ensures
        index == 3 - number,
        index < COUNTDOWN_COLORS,
{
    (3 - number) as usize
}

/// While the intro lasts the overlay counts three, two, one, a full second
/// each, and never shows anything else.
pub proof fn lemma_counts_three_two_one(elapsed: u64)
    requires
        countdown_over(elapsed) is None,
    ensures
        1 <= shown_number(elapsed) <= 3,
        shown_number(elapsed) == 3 <==> elapsed < 1000,
        shown_number(elapsed) == 2 <==> 1000 <= elapsed < 2000,
        shown_number(elapsed) == 1 <==> 2000 <= elapsed,
{
}

} // verus!
