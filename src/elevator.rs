use vstd::prelude::*;

use crate::button::Button;
use crate::direction::Direction;
use crate::floor::Floor;
use crate::message::Message;
use crate::requests::{Requests, RequestsView};
use crate::state::State;
use crate::timer::Timer;

verus! {

/// What happened to a car, as its control loop saw it.
#[derive(Debug, Clone, Copy, PartialEq, Eq, Structural)]
pub enum Event {
    ArriveAtFloor(Floor),
    TimerTimedOut,
    MessageReceived(Message),
    ButtonPress(Button, Floor),
}

impl Event {
    /// Every floor that the event names belongs to a building of `n` floors.
    pub open spec fn fits(self, n: nat) -> bool {
        match self {
            Event::ArriveAtFloor(f) => f.n_floors() == n,
            Event::TimerTimedOut => true,
            Event::MessageReceived(msg) => msg.fits(n),
            Event::ButtonPress(_, f) => f.n_floors() == n,
        }
    }
}

/// An action that a car's control loop carries out for the state machine:
/// a command to the hardware, or a message to the dispatcher.
#[derive(Debug, Clone, Copy, PartialEq, Eq, Structural)]
pub enum Command {
    /// Start the motor in a direction.
    MotorDirection(Direction),
    /// Stop the motor.
    MotorStop,
    FloorIndicator(Floor),
    DoorOpenLight(bool),
    OrderButtonLight(Button, Floor, bool),
    /// Send a message to the dispatcher.
    Notify(Message),
}

impl Command {
    /// A failure to carry out a motor command leaves the car in an unknown
    /// physical state; every other command may fail without harm.
    pub open spec fn spec_is_critical(self) -> bool {
        self is MotorDirection || self is MotorStop
    }

    pub fn is_critical(&self) -> (r: bool)
        ensures
            r == self.spec_is_critical(),
    {
        match self {
            Command::MotorDirection(_) => true,
            Command::MotorStop => true,
            _ => false,
        }
    }
}

/// Where a car stood and what it was doing when it failed or shut down.
#[derive(Debug, Clone, Copy, PartialEq, Eq, Structural)]
pub struct ElevatorError {
    pub floor: Floor,
    pub state: State,
    pub critical: bool,
}

/// One car: its floor, its state, its request ledger and its door timer.
pub struct Elevator {
    pub floor: Floor,
    pub state: State,
    pub requests: Requests,
    pub timer: Option<Timer>,
}

/// What a car holds, with the ledger seen through its view.
pub struct ElevatorView {
    pub floor: Floor,
    pub state: State,
    pub requests: RequestsView,
    pub timer: Option<Timer>,
}

impl ElevatorView {
    /// The car's floor belongs to the building of its ledger, and the
    /// ledger is well formed.
    pub open spec fn wf(self) -> bool {
        self.floor.n_floors() == self.requests.n_floors && self.requests.wf()
    }

    pub open spec fn error(self, critical: bool) -> ElevatorError {
        ElevatorError { floor: self.floor, state: self.state, critical }
    }
}

impl View for Elevator {
    type V = ElevatorView;

    open spec fn view(&self) -> ElevatorView {
        ElevatorView {
            floor: self.floor,
            state: self.state,
            requests: self.requests@,
            timer: self.timer,
        }
    }
}

impl Elevator {
    /// An idle car at `floor` with no calls and no timer.
    pub fn new(floor: Floor) -> (r: Elevator)
        requires
            3 * floor.n_floors() <= usize::MAX,
        ensures
            r@.wf(),
            r.floor == floor,
            r.state == State::Idle,
            r.timer is None,
            forall|b: Button, f: int|
                0 <= f < floor.n_floors() ==> !#[trigger] r.requests@.is_pending(b, f),
            forall|b: Button, f: int|
                0 <= f < floor.n_floors() ==> !#[trigger] r.requests@.is_lit(b, f),
    {
        Elevator {
            floor,
            state: State::Idle,
            requests: Requests::new(floor.get_n_floors()),
            timer: None,
        }
    }

    pub fn error(&self, critical: bool) -> (r: ElevatorError)
        ensures
            r == self@.error(critical),
    {
        ElevatorError { floor: self.floor, state: self.state, critical }
    }

    /// The report that the car sends the dispatcher as car `task_id`.
    pub fn info(&self, task_id: usize) -> (r: Message)
        ensures
            r == (Message::ElevatorInfo {
                task_id,
                floor: self.floor,
                state: self.state,
                n_requests: self.requests@.count() as usize,
            }),
            self.requests@.count() <= usize::MAX,
    {
        let n_requests = self.requests.number_of_requests();
        Message::ElevatorInfo { task_id, floor: self.floor, state: self.state, n_requests }
    }

    /// Tells whether a call of any button is pending at `floor`.
    pub fn check_for_request(&self, floor: Floor) -> (r: bool)
        requires
            self@.wf(),
            floor.n_floors() == self.requests@.n_floors,
        ensures
            r == self.requests@.any_at(floor.value() as int),
    {
        self.requests.is_pending(Button::Cab, floor) || self.requests.is_pending(
            Button::Hall(Direction::Up),
            floor,
        ) || self.requests.is_pending(Button::Hall(Direction::Down), floor)
    }

    pub fn get_n_floors(&self) -> (r: usize)
        ensures
            r == self.requests@.n_floors,
    {
        self.requests.get_n_floors()
    }
}

} // verus!
