use vstd::prelude::*;

use crate::direction::Direction;

verus! {

/// The state of a car: waiting for work, travelling, or standing at a floor
/// with the door open, about to leave in the given direction.
#[derive(Debug, Clone, Copy, PartialEq, Eq, Structural, Hash)]
pub enum State {
    Idle,
    Moving(Direction),
    Still(Direction),
}

impl State {
    pub fn to_str(&self) -> (r: &'static str)
        ensures
            *self is Idle ==> r@ == "idle"@,
            *self is Moving ==> r@ == "moving"@,
            *self is Still ==> r@ == "still"@,
    {
        match self {
            State::Idle => "idle",
            State::Moving(_) => "moving",
            State::Still(_) => "still",
        }
    }
}

} // verus!
