//! Driver for a four-wire unipolar stepper motor behind a ULN2003 board:
//! the half-step energization table and a controller that walks it.
pub mod motor;
pub mod table;

pub use table::{get_next_state, get_pin_states, get_prev_state, State};
pub use motor::{OutputLine, Direction, StepError, StepperMotor, ULN2003};
