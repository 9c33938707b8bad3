//! Control logic for a fleet of elevator cars: floor and button values, the
//! per-car request ledger, the car state machine, the hardware wire format and
//! the dispatcher that assigns hall calls to cars.

pub mod array;
pub mod button;
pub mod direction;
pub mod dispatcher;
pub mod elevator;
pub mod floor;
pub mod message;
pub mod protocol;
pub mod requests;
pub mod state;
pub mod state_machine;
pub mod timer;

pub use array::Array;
pub use button::Button;
pub use direction::Direction;
pub use dispatcher::{Config, Dispatcher, Routing, TaskInfo};
pub use elevator::{Command, Elevator, ElevatorError, ElevatorView, Event};
pub use floor::Floor;
pub use message::Message;
pub use requests::{Requests, RequestsView};
pub use state::State;
pub use timer::Timer;
