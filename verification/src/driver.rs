//! The frame driver's bookkeeping: which phase the game is in, since when, and
//! the application of the transitions that the phases ask for.

use vstd::prelude::*;
use crate::clock::get_current_ms;
use crate::states::{next_state, State};

verus! {

/// Why a frame could not be timed.
#[derive(Clone, Copy, Debug, PartialEq, Eq, Structural)]
pub enum TimeError {
    /// The system clock gave no time in milliseconds.
    Unavailable,
    /// The system clock stands before the moment at which the current phase
    /// began.
    Backwards,
}

/// The current phase and the moment, in milliseconds since the Unix epoch, at
/// which it began.
#[derive(Clone, Copy, Debug, PartialEq, Eq, Structural)]
pub struct Driver {
    pub state: State,
    pub state_start: u64,
}

/// `to` is a phase that `from` asks for at some moment.
pub open spec fn follows(from: State, to: State) -> bool {
    exists|elapsed: u64| next_state(from, elapsed) == Some(to)
}

/// Greatest number of transitions that can follow one another from `state`
/// without a frame in between.
pub open spec fn cascade_bound(state: State) -> nat {
    match state {
        State::Start => 1,
        _ => 0,
    }
}

/// Every transition lowers the number of transitions that can still follow.
pub proof fn lemma_cascade_shrinks(state: State, elapsed: u64, entered: State)
    requires
        next_state(state, elapsed) == Some(entered),
    ensures
        cascade_bound(entered) < cascade_bound(state),
{
}

impl Driver {
    /// A game that enters the intro at the moment `now`.
    pub fn new(now: u64) -> (driver: Driver)
        ensures
            driver == (Driver { state: State::Start, state_start: now }),
    {
        Driver { state: State::Start, state_start: now }
    }

    /// Milliseconds that the current phase has lasted at the moment `now`.
    pub open spec fn elapsed_at(&self, now: u64) -> int {
        now - self.state_start
    }

    /// Milliseconds that the current phase has lasted according to a reading
    /// of the clock. A missing reading is `TimeError::Unavailable`, one from
    /// before the beginning of the phase `TimeError::Backwards`.
    pub fn elapsed(&self, reading: Option<u64>) -> (millis: Result<u64, TimeError>)
        ensures
            millis == match reading {
                None => Err::<u64, TimeError>(TimeError::Unavailable),
                Some(now) => if now < self.state_start {
                    Err(TimeError::Backwards)
                } else {
                    Ok(self.elapsed_at(now) as u64)
                },
            },
    {
        match reading {
            None => Err(TimeError::Unavailable),
            Some(now) => if now < self.state_start {
                Err(TimeError::Backwards)
            } else {
                Ok(now - self.state_start)
            },
        }
    }

    /// Applies a transition: `state` becomes the current phase and has lasted
    /// no time at the moment `now`.
    pub fn enter(&mut self, state: State, now: u64)
        ensures
            *final(self) == (Driver { state, state_start: now }),
    {
        self.state = state;
        self.state_start = now;
    }

    /// The update pass of one frame. The current phase is updated against the
    /// system clock; a transition that it asks for is applied at once, the
    /// clock is read again for the beginning of the new phase, and the new
    /// phase is updated in turn, until a phase remains.
    ///
    /// What comes of the pass is `frame_pass` of the readings that the clock
    /// gave, whatever they were. The answer is the number of transitions
    /// applied, zero or one; the driver is changed exactly when it is one. A
    /// pass that fails leaves the transitions applied until then in place.
    /// Neither the screen nor the level is changed.
    pub fn run_updates<S, L>(&mut self, screen: &mut S, level: &mut L) -> (applied: Result<
        u64,
        TimeError,
    >)
        ensures
            exists|readings: Seq<Option<u64>>|
                #[trigger] frame_pass(*old(self), readings) == (*final(self), applied),
            final(self).state == old(self).state || follows(old(self).state, final(self).state),
            final(self).state == old(self).state ==> *final(self) == *old(self),
            applied matches Ok(count) ==> {
                &&& count <= cascade_bound(old(self).state)
                &&& count == 0 <==> *final(self) == *old(self)
            },
            cascade_bound(old(self).state) == 0 ==> *final(self) == *old(self),
            *final(screen) == *old(screen),
            *final(level) == *old(level),
        decreases cascade_bound(old(self).state),
    {
        let now = get_current_ms();
        let elapsed = match self.elapsed(now) {
            Ok(elapsed) => elapsed,
            Err(error) => {
                assert(frame_pass(*old(self), seq![now]) == (*self, Err::<u64, TimeError>(error)));
                return Err(error);
            },
        };
        match self.state.update(screen, level, elapsed) {
            None => {
                assert(frame_pass(*old(self), seq![now]) == (*self, Ok::<u64, TimeError>(0)));
                Ok(0)
            },
            Some(entered) => {
                let began = match get_current_ms() {
                    Some(began) => began,
                    None => {
                        assert(frame_pass(*old(self), seq![now, None]) == (
                            *self,
                            Err::<u64, TimeError>(TimeError::Unavailable),
                        ));
                        return Err(TimeError::Unavailable);
                    },
                };
                proof {
                    lemma_cascade_shrinks(self.state, elapsed, entered);
                }
                self.enter(entered, began);
                let ghost entered_driver = *self;
                let rest = self.run_updates(screen, level);
                proof {
                    let later = choose|later: Seq<Option<u64>>|
                        #[trigger] frame_pass(entered_driver, later) == (*self, rest);
                    let readings = seq![now, Some(began)] + later;
                    assert(readings.skip(2) =~= later);
                    assert(frame_pass(*old(self), readings) == (
                        *self,
                        counted(frame_pass(entered_driver, later).1),
                    ));
                }
                match rest {
                    Ok(count) => Ok(count + 1),
                    Err(error) => Err(error),
                }
            },
        }
    }
}

/// The reading at place `at` of `readings`; a place that the sequence does
/// not have holds no reading.
pub open spec fn reading_at(readings: Seq<Option<u64>>, at: int) -> Option<u64> {
    if 0 <= at < readings.len() {
        readings[at]
    } else {
        None
    }
}

/// What a pass answers once one more transition has been applied ahead of
/// it.
pub open spec fn counted(answer: Result<u64, TimeError>) -> Result<u64, TimeError> {
    match answer {
        Ok(count) => Ok((count + 1) as u64),
        Err(error) => Err(error),
    }
}

/// The update pass of one frame from `driver`, as a function of the readings
/// that the clock gives, in the order in which the pass takes them: the
/// driver afterwards, and the number of transitions applied or the failure.
///
/// The first reading times the current phase. Where it is missing or lies
/// before the beginning of the phase, the pass fails and the driver stays.
/// Where the phase remains, nothing is applied. Where it asks for another
/// phase, the second reading is the beginning of that phase; without it the
/// pass fails and the driver stays, with it the phase is entered and the pass
/// goes on from there with the readings that follow.
pub open spec fn frame_pass(driver: Driver, readings: Seq<Option<u64>>) -> (
    Driver,
    Result<u64, TimeError>,
)
    decreases readings.len(),
{
    match reading_at(readings, 0) {
        None => (driver, Err(TimeError::Unavailable)),
        Some(now) => if now < driver.state_start {
            (driver, Err(TimeError::Backwards))
        } else {
            match next_state(driver.state, driver.elapsed_at(now) as u64) {
                None => (driver, Ok(0)),
                Some(entered) => match reading_at(readings, 1) {
                    None => (driver, Err(TimeError::Unavailable)),
                    Some(began) => {
                        let rest = frame_pass(
                            Driver { state: entered, state_start: began },
                            readings.skip(2),
                        );
                        (rest.0, counted(rest.1))
                    },
                },
            }
        },
    }
}

/// Once the phase that an update asked for has been entered, no later update
/// asks for another: a frame applies at most one transition.
pub proof fn lemma_entered_phase_remains(
    driver: Driver,
    now: u64,
    entered: State,
    began: u64,
    later: u64,
)
    requires
        driver.state_start <= now,
        next_state(driver.state, driver.elapsed_at(now) as u64) == Some(entered),
        began <= later,
    ensures
        next_state(
            entered,
            (Driver { state: entered, state_start: began }).elapsed_at(later) as u64,
        ) is None,
{
}

} // verus!
