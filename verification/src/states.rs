//! The closed set of game phases and the transitions between them.
//!
//! Every phase has an `update` step of the same shape: it is handed the
//! host's view of the screen and of the level together with the milliseconds
//! spent in the phase, and answers with the phase to move to, or with `None`
//! to stay. The library never looks inside the screen or the level, so both
//! are type parameters that the host fills in.

use vstd::prelude::*;

pub mod conti;
pub mod dying;
pub mod flyng;
pub mod menus;
pub mod rstrt;
pub mod start;
pub mod winng;

verus! {

/// A phase of the game. A phase carries no data of its own.
#[derive(Clone, Copy, Debug, PartialEq, Eq, Structural)]
pub enum State {
    Menus,
    Start,
    Flyng,
    Dying,
    Rstrt,
    Winng,
    Conti,
}

/// The phase that `state` asks to move to after `elapsed` milliseconds in it,
/// or `None` where it stays.
pub open spec fn next_state(state: State, elapsed: u64) -> Option<State> {
    match state {
        State::Start => start::countdown_over(elapsed),
        _ => None,
    }
}

impl State {
    /// One update step of this phase: the phase to enter at once, or `None`
    /// to remain. Neither the screen nor the level is changed.
    pub fn update<S, L>(
        &self,
        screen: &mut S,
        level: &mut L,
        millis_since_state_start: u64,
    ) -> (next: Option<State>)
        ensures
            next == next_state(*self, millis_since_state_start),
            *final(screen) == *old(screen),
            *final(level) == *old(level),
    {
        match self {
            State::Menus => menus::update(screen, level, millis_since_state_start),
            State::Start => start::update(screen, level, millis_since_state_start),
            State::Flyng => flyng::update(screen, level, millis_since_state_start),
            State::Dying => dying::update(screen, level, millis_since_state_start),
            State::Rstrt => rstrt::update(screen, level, millis_since_state_start),
            State::Winng => winng::update(screen, level, millis_since_state_start),
            State::Conti => conti::update(screen, level, millis_since_state_start),
        }
    }
}

/// A transition is never followed by another one in the same frame: the
/// phase that any phase asks for stays put, however long it is then said to
/// have lasted.
pub proof fn lemma_transition_settles(state: State, elapsed: u64, entered: State, again: u64)
    requires
        next_state(state, elapsed) == Some(entered),
    ensures
        next_state(entered, again) is None,
{
}

/// The intro gives way to flight exactly when the countdown has run out, and
/// flight, entered from it, asks for nothing further.
pub proof fn lemma_start_leads_to_flight(elapsed: u64, again: u64)
    ensures
        elapsed < start::COUNTDOWN_MS ==> next_state(State::Start, elapsed) is None,
        elapsed >= start::COUNTDOWN_MS ==> next_state(State::Start, elapsed) == Some(
            State::Flyng,
        ),
        next_state(State::Flyng, again) is None,
{
}

} // verus!
