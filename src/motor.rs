use crate::table::{get_next_state, get_pin_states, get_prev_state, pattern, predecessor, successor, State};
use embedded_hal::digital::PinState;
use vstd::prelude::*;

verus! {

/// Direction the motor turns in. Reverse walks the states in the opposite order.
#[derive(Clone, Copy, Debug, PartialEq, Eq, Structural)]
pub enum Direction {
    /// Default direction
    Normal,
    /// Reversed direction
    Reverse,
}

/// Returned when driving one of the output lines fails.
#[derive(Clone, Copy, Debug, PartialEq, Eq, Structural)]
pub struct StepError;

/// The state a step leads to from `s` in direction `d`.
pub open spec fn advance(s: State, d: Direction) -> State {
    match d {
        Direction::Normal => successor(s),
        Direction::Reverse => predecessor(s),
    }
}

/// What a run of writes towards the levels `target` does to four lines, the
/// writes going in order A, B, C, D and ending at the first one that fails.
/// `tries` holds the outcome of each write made, in order; `levels_before`
/// and `levels_after` give, per line, the level it was last driven to with
/// success. A line that the run did not reach keeps its level.
pub open spec fn writes_outcome(
    levels_before: Seq<Option<PinState>>,
    target: Seq<PinState>,
    levels_after: Seq<Option<PinState>>,
    tries: Seq<bool>,
    ok: bool,
) -> bool {
    let n = tries.len() as int;
    &&& 1 <= n <= 4
    &&& forall|i: int| 0 <= i < n - 1 ==> #[trigger] tries[i]
    &&& n < 4 ==> !tries[n - 1]
    &&& ok <==> (n == 4 && tries[3])
    &&& levels_after.len() == 4
    &&& forall|i: int|
        0 <= i < 4 ==> #[trigger] levels_after[i] == if i < n && tries[i] {
            Some(target[i])
        } else {
            levels_before[i]
        }
}

/// All four lines low.
pub open spec fn all_low() -> Seq<PinState> {
    seq![PinState::Low, PinState::Low, PinState::Low, PinState::Low]
}

/// An output line that can be driven high or low. Driving may fail, for a
/// reason of the platform's own; the controller only passes the failure on.
pub trait OutputLine {
    /// The level the line was last driven to with success, if any.
    spec fn level(&self) -> Option<PinState>;

    /// Drives the line to `state`; a write that fails leaves the level as it
    /// was.
    fn drive(&mut self, state: PinState) -> (r: Result<(), StepError>)
        ensures
            r is Ok ==> final(self).level() == Some(state),
            r is Err ==> final(self).level() == old(self).level(),
    ;
}

/// Lets callers hold a motor without naming its pin types.
pub trait StepperMotor {
    /// The position the motor was last stepped to.
    spec fn position(&self) -> State;

    /// The direction of the next step.
    spec fn heading(&self) -> Direction;

    /// Per line A, B, C, D: the level it was last driven to with success,
    /// if any.
    spec fn driven(&self) -> Seq<Option<PinState>>;

    /// The outcome of each write made by the last `step` or `stop`, in order.
    spec fn tries(&self) -> Seq<bool>;

    /// Do a single step: move one state in the current direction, then drive
    /// the lines to that state's levels in order A, B, C, D, stopping at the
    /// first write that fails. The result is `Ok` exactly when all four writes
    /// succeed. The new position is kept even when a write fails. Such a
    /// failure may leave the lines in a mix of the old and the new levels;
    /// nothing here repairs that, the error goes back to the caller.
    fn step(&mut self) -> (r: Result<(), StepError>)
        ensures
            final(self).heading() == old(self).heading(),
            final(self).position() == advance(old(self).position(), old(self).heading()),
            writes_outcome(
                old(self).driven(),
                pattern(final(self).position()),
                final(self).driven(),
                final(self).tries(),
                r is Ok,
            ),
    ;

    /// Set the stepping direction; it takes effect at the next step. No line
    /// is written.
    fn set_direction(&mut self, dir: Direction)
        ensures
            final(self).heading() == dir,
            final(self).position() == old(self).position(),
            final(self).driven() == old(self).driven(),
            final(self).tries() == old(self).tries(),
    ;

    /// Stopping drives all lines low, in order A, B, C, D, stopping at the
    /// first write that fails; the result is `Ok` exactly when all four writes
    /// succeed. Position and direction are kept, so the next step resumes
    /// where the motor stood.
    fn stop(&mut self) -> (r: Result<(), StepError>)
        ensures
            final(self).heading() == old(self).heading(),
            final(self).position() == old(self).position(),
            writes_outcome(
                old(self).driven(),
                all_low(),
                final(self).driven(),
                final(self).tries(),
                r is Ok,
            ),
    ;
}

/// A stepper motor with the four lines wired to the ULN2003 driver inputs.
pub struct ULN2003<P1, P2, P3, P4> {
    gpio2: P1,
    gpio3: P2,
    gpio4: P3,
    gpio5: P4,
    state: State,
    dir: Direction,
    /// The outcome of each write made by the last run of writes.
    tries: Ghost<Seq<bool>>,
}

impl<P1: OutputLine, P2: OutputLine, P3: OutputLine, P4: OutputLine> ULN2003<P1, P2, P3, P4> {
    /// The four lines, A to D.
    pub closed spec fn lines(&self) -> (P1, P2, P3, P4) {
        (self.gpio2, self.gpio3, self.gpio4, self.gpio5)
    }

    /// A motor on the four lines, unstepped and turning in the normal direction.
    /// Nothing is written to the lines.
    pub fn new(gpio2: P1, gpio3: P2, gpio4: P3, gpio5: P4) -> (r: Self)
        ensures
            r.lines() == (gpio2, gpio3, gpio4, gpio5),
            r.position() == State::State0,
            r.heading() == Direction::Normal,
            r.driven() == seq![gpio2.level(), gpio3.level(), gpio4.level(), gpio5.level()],
            r.tries() == Seq::<bool>::empty(),
    {
        Self {
            gpio2,
            gpio3,
            gpio4,
            gpio5,
            state: State::State0,
            dir: Direction::Normal,
            tries: Ghost(Seq::empty()),
        }
    }

    /// The position the motor was last stepped to.
    pub fn state(&self) -> (r: State)
        ensures
            r == self.position(),
    {
        self.state
    }

    /// The direction of the next step.
    pub fn direction(&self) -> (r: Direction)
        ensures
            r == self.heading(),
    {
        self.dir
    }

    /// Drives the lines A, B, C, D to `states` in that order; the first
    /// failure ends the call.
    fn drive_all(&mut self, states: [PinState; 4]) -> (r: Result<(), StepError>)
        ensures
            final(self).state == old(self).state,
            final(self).dir == old(self).dir,
            writes_outcome(
                old(self).driven(),
                states@,
                final(self).driven(),
                final(self).tries(),
                r is Ok,
            ),
    {
        let r = self.gpio2.drive(states[0]);
        self.tries = Ghost(Seq::empty().push(r is Ok));
        if r.is_err() {
            return r;
        }
        let r = self.gpio3.drive(states[1]);
        self.tries = Ghost(self.tries@.push(r is Ok));
        if r.is_err() {
            return r;
        }
        let r = self.gpio4.drive(states[2]);
        self.tries = Ghost(self.tries@.push(r is Ok));
        if r.is_err() {
            return r;
        }
        let r = self.gpio5.drive(states[3]);
        self.tries = Ghost(self.tries@.push(r is Ok));
        r
    }

    /// Drives the lines to the levels of the current state.
    fn apply_state(&mut self) -> (r: Result<(), StepError>)
        ensures
            final(self).state == old(self).state,
            final(self).dir == old(self).dir,
            writes_outcome(
                old(self).driven(),
                pattern(old(self).state),
                final(self).driven(),
                final(self).tries(),
                r is Ok,
            ),
    {
        let states = get_pin_states(self.state);
        self.drive_all(states)
    }
}

impl<P1: OutputLine, P2: OutputLine, P3: OutputLine, P4: OutputLine> StepperMotor for ULN2003<
    P1,
    P2,
    P3,
    P4,
> {
    closed spec fn position(&self) -> State {
        self.state
    }

    closed spec fn heading(&self) -> Direction {
        self.dir
    }

    closed spec fn driven(&self) -> Seq<Option<PinState>> {
        seq![self.gpio2.level(), self.gpio3.level(), self.gpio4.level(), self.gpio5.level()]
    }

    closed spec fn tries(&self) -> Seq<bool> {
        self.tries@
    }

    fn step(&mut self) -> (r: Result<(), StepError>) {
        match self.dir {
            Direction::Normal => self.state = get_next_state(self.state),
            Direction::Reverse => self.state = get_prev_state(self.state),
        }
        self.apply_state()
    }

    fn set_direction(&mut self, dir: Direction) {
        self.dir = dir;
    }

    fn stop(&mut self) -> (r: Result<(), StepError>) {
        let r = self.drive_all([PinState::Low, PinState::Low, PinState::Low, PinState::Low]);
        assert([PinState::Low, PinState::Low, PinState::Low, PinState::Low]@ =~= all_low());
        r
    }
}

} // verus!
