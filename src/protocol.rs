use vstd::prelude::*;

use crate::button::Button;
use crate::direction::Direction;
use crate::elevator::Command;
use crate::floor::Floor;

verus! {

/// A reply from the hardware that does not fit the request it answers.
#[derive(Debug, Clone, Copy, PartialEq, Eq, Structural)]
pub enum ProtocolError {
    /// The reply's first byte is not the request's operation code.
    WrongTag { expected: u8, found: u8 },
    /// A byte that should be `0` or `1` is something else.
    BadValue { tag: u8, found: u8 },
}

/// Operation codes of the wire protocol.
pub const RELOAD_CONFIG: u8 = 0;
pub const MOTOR_DIRECTION: u8 = 1;
pub const ORDER_BUTTON_LIGHT: u8 = 2;
pub const FLOOR_INDICATOR: u8 = 3;
pub const DOOR_OPEN_LIGHT: u8 = 4;
pub const STOP_BUTTON_LIGHT: u8 = 5;
pub const ORDER_BUTTON: u8 = 6;
pub const FLOOR_SENSOR: u8 = 7;
pub const STOP_BUTTON: u8 = 8;
pub const OBSTRUCTION: u8 = 9;

pub open spec fn bool_byte(b: bool) -> u8 {
    if b {
        1
    } else {
        0
    }
}

/// The four bytes that carry a command to the hardware; a message to the
/// dispatcher has none.
pub open spec fn spec_frame(c: Command) -> Option<Seq<u8>> {
    match c {
        Command::MotorDirection(d) => Some(seq![MOTOR_DIRECTION, d.spec_byte(), 0u8, 0u8]),
        Command::MotorStop => Some(seq![MOTOR_DIRECTION, 0u8, 0u8, 0u8]),
        Command::FloorIndicator(f) => Some(seq![FLOOR_INDICATOR, (f.value() % 256) as u8, 0u8, 0u8]),
        Command::DoorOpenLight(on) => Some(seq![DOOR_OPEN_LIGHT, bool_byte(on), 0u8, 0u8]),
        Command::OrderButtonLight(b, f, on) => Some(
            seq![ORDER_BUTTON_LIGHT, b.spec_byte(), (f.value() % 256) as u8, bool_byte(on)],
        ),
        Command::Notify(_) => None,
    }
}

/// The flag that a reply to the request with operation code `tag` carries
/// in its second byte.
pub open spec fn spec_flag(reply: Seq<u8>, tag: u8) -> Result<bool, ProtocolError> {
    if reply[0] != tag {
        Err(ProtocolError::WrongTag { expected: tag, found: reply[0] })
    } else if reply[1] == 0 {
        Ok(false)
    } else if reply[1] == 1 {
        Ok(true)
    } else {
        Err(ProtocolError::BadValue { tag, found: reply[1] })
    }
}

fn to_byte(b: bool) -> (r: u8)
    ensures
        r == bool_byte(b),
{
    if b {
        1
    } else {
        0
    }
}

/// The frame that carries `command` to the hardware, if it is a hardware
/// command.
pub fn frame(command: &Command) -> (r: Option<[u8; 4]>)
    ensures
        match r {
            Some(bytes) => spec_frame(*command) == Some(bytes@),
            None => spec_frame(*command) is None,
        },
{
    let bytes: [u8; 4] = match command {
        Command::MotorDirection(d) => [MOTOR_DIRECTION, d.to_byte(), 0, 0],
        Command::MotorStop => [MOTOR_DIRECTION, 0, 0, 0],
        Command::FloorIndicator(f) => [FLOOR_INDICATOR, f.to_byte(), 0, 0],
        Command::DoorOpenLight(on) => [DOOR_OPEN_LIGHT, to_byte(*on), 0, 0],
        Command::OrderButtonLight(b, f, on) => [ORDER_BUTTON_LIGHT, b.to_byte(), f.to_byte(), to_byte(*on)],
        Command::Notify(_) => return None,
    };
    assert(spec_frame(*command) == Some(bytes@)) by {
        assert(spec_frame(*command).unwrap() =~= bytes@);
    }
    Some(bytes)
}

/// Re-initializes the hardware.
pub fn reload_config() -> (r: [u8; 4])
    ensures
        r@ == seq![RELOAD_CONFIG, 0u8, 0u8, 0u8],
{
    let r = [RELOAD_CONFIG, 0, 0, 0];
    assert(r@ =~= seq![RELOAD_CONFIG, 0u8, 0u8, 0u8]);
    r
}

/// Starts the motor in `direction`.
pub fn motor_direction(direction: Direction) -> (r: [u8; 4])
    ensures
        Some(r@) == spec_frame(Command::MotorDirection(direction)),
{
    frame(&Command::MotorDirection(direction)).unwrap()
}

/// Stops the motor.
pub fn stop() -> (r: [u8; 4])
    ensures
        Some(r@) == spec_frame(Command::MotorStop),
{
    frame(&Command::MotorStop).unwrap()
}

pub fn stop_button_light(on: bool) -> (r: [u8; 4])
    ensures
        r@ == seq![STOP_BUTTON_LIGHT, bool_byte(on), 0u8, 0u8],
{
    let r = [STOP_BUTTON_LIGHT, to_byte(on), 0, 0];
    assert(r@ =~= seq![STOP_BUTTON_LIGHT, bool_byte(on), 0u8, 0u8]);
    r
}

/// Asks whether `button` is pressed at `floor`.
pub fn order_button(button: Button, floor: Floor) -> (r: [u8; 4])
    ensures
        r@ == seq![ORDER_BUTTON, button.spec_byte(), (floor.value() % 256) as u8, 0u8],
{
    let r = [ORDER_BUTTON, button.to_byte(), floor.to_byte(), 0];
    assert(r@ =~= seq![ORDER_BUTTON, button.spec_byte(), (floor.value() % 256) as u8, 0u8]);
    r
}

/// Asks for the floor sensor.
pub fn floor_sensor() -> (r: [u8; 4])
    ensures
        r@ == seq![FLOOR_SENSOR, 0u8, 0u8, 0u8],
{
    let r = [FLOOR_SENSOR, 0, 0, 0];
    assert(r@ =~= seq![FLOOR_SENSOR, 0u8, 0u8, 0u8]);
    r
}

/// Asks whether the stop button is pressed.
pub fn stop_button() -> (r: [u8; 4])
    ensures
        r@ == seq![STOP_BUTTON, 0u8, 0u8, 0u8],
{
    let r = [STOP_BUTTON, 0, 0, 0];
    assert(r@ =~= seq![STOP_BUTTON, 0u8, 0u8, 0u8]);
    r
}

/// Asks whether the door is obstructed.
pub fn obstruction_switch() -> (r: [u8; 4])
    ensures
        r@ == seq![OBSTRUCTION, 0u8, 0u8, 0u8],
{
    let r = [OBSTRUCTION, 0, 0, 0];
    assert(r@ =~= seq![OBSTRUCTION, 0u8, 0u8, 0u8]);
    r
}

/// Reads the flag of a reply to the request with operation code `tag`.
pub fn read_flag(reply: &[u8; 4], tag: u8) -> (r: Result<bool, ProtocolError>)
    ensures
        r == spec_flag(reply@, tag),
{
    if reply[0] != tag {
        Err(ProtocolError::WrongTag { expected: tag, found: reply[0] })
    } else if reply[1] == 0 {
        Ok(false)
    } else if reply[1] == 1 {
        Ok(true)
    } else {
        Err(ProtocolError::BadValue { tag, found: reply[1] })
    }
}

/// Reads the reply to `order_button`: whether the button is pressed.
pub fn order_button_reply(reply: &[u8; 4]) -> (r: Result<bool, ProtocolError>)
    ensures
        r == spec_flag(reply@, ORDER_BUTTON),
{
    read_flag(reply, ORDER_BUTTON)
}

/// Reads the reply to `stop_button`: whether the stop button is pressed.
pub fn stop_button_reply(reply: &[u8; 4]) -> (r: Result<bool, ProtocolError>)
    ensures
        r == spec_flag(reply@, STOP_BUTTON),
{
    read_flag(reply, STOP_BUTTON)
}

/// Reads the reply to `obstruction_switch`: whether the door is obstructed.
pub fn obstruction_reply(reply: &[u8; 4]) -> (r: Result<bool, ProtocolError>)
    ensures
        r == spec_flag(reply@, OBSTRUCTION),
{
    read_flag(reply, OBSTRUCTION)
}

/// Reads the reply to `floor_sensor` in a building of `n_floors` floors:
/// the floor the car is at, or `None` between floors or at a floor number
/// that the building does not have.
pub fn floor_reply(reply: &[u8; 4], n_floors: usize) -> (r: Result<Option<Floor>, ProtocolError>)
    ensures
        match spec_flag(reply@, FLOOR_SENSOR) {
            Err(e) => r == Err::<Option<Floor>, _>(e),
            Ok(false) => r == Ok::<_, ProtocolError>(None::<Floor>),
            Ok(true) => match r {
                Ok(Some(f)) => reply@[2] < n_floors && f.value() == reply@[2] && f.n_floors()
                    == n_floors,
                Ok(None) => reply@[2] >= n_floors,
                Err(_) => false,
            },
        },
{
    match read_flag(reply, FLOOR_SENSOR) {
        Err(e) => Err(e),
        Ok(false) => Ok(None),
        Ok(true) => Ok(Floor::from_value(reply[2] as usize, n_floors)),
    }
}

/// The motor command for a direction reads back as that direction.
pub proof fn lemma_motor_direction_round_trip(d: Direction)
    ensures
        spec_frame(Command::MotorDirection(d)) matches Some(bytes) && Direction::spec_from_byte(
            bytes[1],
        ) == Some(d),
{
}

} // verus!
