use vstd::prelude::*;

use crate::direction::Direction;
use crate::floor::Floor;
use crate::state::State;

verus! {

/// What cars and the dispatcher send each other.
#[derive(Debug, Clone, Copy, PartialEq, Eq, Structural)]
pub enum Message {
    /// A new hall call: from a car to the dispatcher, and from the
    /// dispatcher to the car that is to serve it.
    Request { floor: Floor, direction: Direction },
    /// A hall call light goes on or off on every car.
    HallButtonLight { floor: Floor, direction: Direction, on: bool },
    /// A car's report of where it is, what it does and how much work it has.
    ElevatorInfo { task_id: usize, floor: Floor, state: State, n_requests: usize },
    Shutdown,
}

impl Message {
    /// Every floor that the message names belongs to a building of `n`
    /// floors.
    pub open spec fn fits(self, n: nat) -> bool {
        match self {
            Message::Request { floor, .. } => floor.n_floors() == n,
            Message::HallButtonLight { floor, .. } => floor.n_floors() == n,
            Message::ElevatorInfo { floor, .. } => floor.n_floors() == n,
            Message::Shutdown => true,
        }
    }
}

} // verus!
