use embedded_hal::digital::PinState;
use vstd::prelude::*;

verus! {

/// The two levels of an output line, visible to the verifier by variant.
#[verifier::external_type_specification]
pub struct ExPinState(PinState);

/// Positions of the motor. `State0` is the unstepped position in which no
/// wire is energized; `State1` to `State8` form the half-step cycle.
///
/// | wire | 0 | 1 | 2 | 3 | 4 | 5 | 6 | 7 | 8 |
/// | ---- | - | - | - | - | - | - | - | - | - |
/// |  A   |   |   |   |   |   |   | x | x | x |
/// |  B   |   |   |   |   | x | x | x |   |   |
/// |  C   |   |   | x | x | x |   |   |   |   |
/// |  D   |   | x | x |   |   |   |   |   | x |
#[derive(Clone, Copy, Debug, PartialEq, Eq, Structural)]
pub enum State {
    State0,
    State1,
    State2,
    State3,
    State4,
    State5,
    State6,
    State7,
    State8,
}

/// The number of a state, 0 to 8.
pub open spec fn index(s: State) -> nat {
    match s {
        State::State0 => 0,
        State::State1 => 1,
        State::State2 => 2,
        State::State3 => 3,
        State::State4 => 4,
        State::State5 => 5,
        State::State6 => 6,
        State::State7 => 7,
        State::State8 => 8,
    }
}

/// The state with number `k`, for `k <= 8`.
pub open spec fn state_at(k: nat) -> State
    recommends
        k <= 8,
{
    if k == 0 {
        State::State0
    } else if k == 1 {
        State::State1
    } else if k == 2 {
        State::State2
    } else if k == 3 {
        State::State3
    } else if k == 4 {
        State::State4
    } else if k == 5 {
        State::State5
    } else if k == 6 {
        State::State6
    } else if k == 7 {
        State::State7
    } else {
        State::State8
    }
}

/// One step forward: 1 to 7 go up by one, 8 wraps to 1, and the unstepped
/// position enters the cycle at 1.
pub open spec fn successor(s: State) -> State {
    state_at(index(s) % 8 + 1)
}

/// One step backward: 2 to 8 go down by one, 1 wraps to 8, and the unstepped
/// position enters the cycle at 8.
pub open spec fn predecessor(s: State) -> State {
    if index(s) <= 1 {
        state_at(8)
    } else {
        state_at((index(s) - 1) as nat)
    }
}

/// Whether wire `w` (0 for A up to 3 for D) is energized at position `k`:
/// each wire is on for three consecutive positions of the cycle.
pub open spec fn energized(w: int, k: nat) -> bool {
    if w == 0 {
        6 <= k <= 8
    } else if w == 1 {
        4 <= k <= 6
    } else if w == 2 {
        2 <= k <= 4
    } else {
        k == 1 || k == 2 || k == 8
    }
}

/// The level of a line that is energized (`high`) or not.
pub open spec fn level(high: bool) -> PinState {
    if high {
        PinState::High
    } else {
        PinState::Low
    }
}

/// The levels of wires A, B, C and D in state `s`.
pub open spec fn pattern(s: State) -> Seq<PinState> {
    Seq::new(4, |w: int| level(energized(w, index(s))))
}

/// The levels that drive the four wires in state `s`, in the order A, B, C, D.
pub fn get_pin_states(s: State) -> (r: [PinState; 4])
    ensures
        r@ == pattern(s),
{
    let r = match s {
        State::State0 => [PinState::Low, PinState::Low, PinState::Low, PinState::Low],
        State::State1 => [PinState::Low, PinState::Low, PinState::Low, PinState::High],
        State::State2 => [PinState::Low, PinState::Low, PinState::High, PinState::High],
        State::State3 => [PinState::Low, PinState::Low, PinState::High, PinState::Low],
        State::State4 => [PinState::Low, PinState::High, PinState::High, PinState::Low],
        State::State5 => [PinState::Low, PinState::High, PinState::Low, PinState::Low],
        State::State6 => [PinState::High, PinState::High, PinState::Low, PinState::Low],
        State::State7 => [PinState::High, PinState::Low, PinState::Low, PinState::Low],
        State::State8 => [PinState::High, PinState::Low, PinState::Low, PinState::High],
    };
    assert(r@ =~= pattern(s));
    r
}

/// The state that follows `s` when turning forward.
pub fn get_next_state(s: State) -> (r: State)
    ensures
        r == successor(s),
{
    match s {
        State::State0 => State::State1,
        State::State1 => State::State2,
        State::State2 => State::State3,
        State::State3 => State::State4,
        State::State4 => State::State5,
        State::State5 => State::State6,
        State::State6 => State::State7,
        State::State7 => State::State8,
        State::State8 => State::State1,
    }
}

/// The state that follows `s` when turning in reverse.
pub fn get_prev_state(s: State) -> (r: State)
    ensures
        r == predecessor(s),
{
    match s {
        State::State0 => State::State8,
        State::State1 => State::State8,
        State::State2 => State::State1,
        State::State3 => State::State2,
        State::State4 => State::State3,
        State::State5 => State::State4,
        State::State6 => State::State5,
        State::State7 => State::State6,
        State::State8 => State::State7,
    }
}

/// `n` steps forward from `s`.
pub open spec fn forward(s: State, n: nat) -> State
    decreases n,
{
    if n == 0 {
        s
    } else {
        successor(forward(s, (n - 1) as nat))
    }
}

/// On the cycle, a step backward undoes a step forward and a step forward
/// undoes a step backward.
pub proof fn lemma_steps_inverse(s: State)
    requires
        1 <= index(s),
    ensures
        predecessor(successor(s)) == s,
        successor(predecessor(s)) == s,
{
}

/// From the unstepped position, a forward step enters the cycle at 1 and a
/// backward step enters it at 8.
pub proof fn lemma_entry_from_rest()
    ensures
        successor(State::State0) == State::State1,
        predecessor(State::State0) == State::State8,
{
}

proof fn lemma_forward_index(s: State, n: nat)
    requires
        1 <= index(s),
    ensures
        index(forward(s, n)) == (index(s) - 1 + n) % 8 + 1,
    decreases n,
{
    if n > 0 {
        lemma_forward_index(s, (n - 1) as nat);
    }
}

proof fn lemma_shift_distinct(a: int, i: int, j: int)
    requires
        0 <= a < 8,
        0 <= i < j < 8,
    ensures
        (a + i) % 8 != (a + j) % 8,
{
    assert((a + i) % 8 == if a + i < 8 { a + i } else { a + i - 8 });
    assert((a + j) % 8 == if a + j < 8 { a + j } else { a + j - 8 });
}

/// On the cycle, forward steps form a single cycle of length eight: eight
/// steps return to the start, and the first eight positions visited are
/// distinct positions of the cycle, so each of the eight is visited once.
pub proof fn lemma_single_cycle(s: State)
    requires
        1 <= index(s),
    ensures
        forward(s, 8) == s,
        forall|i: nat| i < 8 ==> 1 <= #[trigger] index(forward(s, i)) <= 8,
        forall|i: nat, j: nat| i < j < 8 ==> forward(s, i) != forward(s, j),
{
    lemma_forward_index(s, 8);
    assert forall|i: nat| i < 8 implies 1 <= #[trigger] index(forward(s, i)) <= 8 by {
        lemma_forward_index(s, i);
    }
    assert forall|i: nat, j: nat| i < j < 8 implies forward(s, i) != forward(s, j) by {
        lemma_forward_index(s, i);
        lemma_forward_index(s, j);
        lemma_shift_distinct(index(s) - 1, i as int, j as int);
    }
}

/// The levels of wires A, B, C and D in each of the nine states.
pub proof fn lemma_pattern_table()
    ensures
        pattern(State::State0) == seq![PinState::Low, PinState::Low, PinState::Low, PinState::Low],
        pattern(State::State1) == seq![PinState::Low, PinState::Low, PinState::Low, PinState::High],
        pattern(State::State2) == seq![PinState::Low, PinState::Low, PinState::High, PinState::High],
        pattern(State::State3) == seq![PinState::Low, PinState::Low, PinState::High, PinState::Low],
        pattern(State::State4) == seq![PinState::Low, PinState::High, PinState::High, PinState::Low],
        pattern(State::State5) == seq![PinState::Low, PinState::High, PinState::Low, PinState::Low],
        pattern(State::State6) == seq![PinState::High, PinState::High, PinState::Low, PinState::Low],
        pattern(State::State7) == seq![PinState::High, PinState::Low, PinState::Low, PinState::Low],
        pattern(State::State8) == seq![PinState::High, PinState::Low, PinState::Low, PinState::High],
{
    assert(pattern(State::State0) =~= seq![PinState::Low, PinState::Low, PinState::Low, PinState::Low]);
    assert(pattern(State::State1) =~= seq![PinState::Low, PinState::Low, PinState::Low, PinState::High]);
    assert(pattern(State::State2) =~= seq![PinState::Low, PinState::Low, PinState::High, PinState::High]);
    assert(pattern(State::State3) =~= seq![PinState::Low, PinState::Low, PinState::High, PinState::Low]);
    assert(pattern(State::State4) =~= seq![PinState::Low, PinState::High, PinState::High, PinState::Low]);
    assert(pattern(State::State5) =~= seq![PinState::Low, PinState::High, PinState::Low, PinState::Low]);
    assert(pattern(State::State6) =~= seq![PinState::High, PinState::High, PinState::Low, PinState::Low]);
    assert(pattern(State::State7) =~= seq![PinState::High, PinState::Low, PinState::Low, PinState::Low]);
    assert(pattern(State::State8) =~= seq![PinState::High, PinState::Low, PinState::Low, PinState::High]);
}

} // verus!
