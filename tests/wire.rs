use elevators::protocol::{
    floor_reply, floor_sensor, frame, motor_direction, obstruction_reply, obstruction_switch,
    order_button, order_button_reply, reload_config, stop, stop_button, stop_button_light,
    stop_button_reply, ProtocolError,
};
use elevators::{Button, Command, Direction, Floor, Message};

#[test]
fn motor_direction_round_trip() {
    let down = motor_direction(Direction::Down);
    assert_eq!(down, [1, 255, 0, 0]);
    assert_eq!(Direction::from_byte(down[1]), Some(Direction::Down));
    let up = motor_direction(Direction::Up);
    assert_eq!(up, [1, 1, 0, 0]);
    assert_eq!(Direction::from_byte(up[1]), Some(Direction::Up));
    assert_eq!(stop(), [1, 0, 0, 0]);
}

#[test]
fn command_frames() {
    let f = Floor::from_value(2, 4).unwrap();
    assert_eq!(frame(&Command::FloorIndicator(f)), Some([3, 2, 0, 0]));
    assert_eq!(frame(&Command::DoorOpenLight(true)), Some([4, 1, 0, 0]));
    assert_eq!(frame(&Command::DoorOpenLight(false)), Some([4, 0, 0, 0]));
    assert_eq!(frame(&Command::OrderButtonLight(Button::Cab, f, true)), Some([2, 2, 2, 1]));
    assert_eq!(
        frame(&Command::OrderButtonLight(Button::Hall(Direction::Down), f, false)),
        Some([2, 1, 2, 0])
    );
    assert_eq!(frame(&Command::MotorStop), Some([1, 0, 0, 0]));
    assert_eq!(frame(&Command::Notify(Message::Shutdown)), None);
}

#[test]
fn query_frames() {
    let f = Floor::from_value(3, 4).unwrap();
    assert_eq!(order_button(Button::Hall(Direction::Up), f), [6, 0, 3, 0]);
    assert_eq!(floor_sensor(), [7, 0, 0, 0]);
    assert_eq!(stop_button(), [8, 0, 0, 0]);
    assert_eq!(obstruction_switch(), [9, 0, 0, 0]);
    assert_eq!(reload_config(), [0, 0, 0, 0]);
    assert_eq!(stop_button_light(true), [5, 1, 0, 0]);
}

#[test]
fn flag_replies() {
    assert_eq!(order_button_reply(&[6, 1, 0, 0]), Ok(true));
    assert_eq!(order_button_reply(&[6, 0, 9, 9]), Ok(false));
    assert_eq!(
        order_button_reply(&[7, 1, 0, 0]),
        Err(ProtocolError::WrongTag { expected: 6, found: 7 })
    );
    assert_eq!(
        stop_button_reply(&[8, 2, 0, 0]),
        Err(ProtocolError::BadValue { tag: 8, found: 2 })
    );
    assert_eq!(obstruction_reply(&[9, 1, 0, 0]), Ok(true));
}

#[test]
fn floor_replies() {
    assert_eq!(floor_reply(&[7, 0, 3, 0], 4), Ok(None));
    assert_eq!(floor_reply(&[7, 1, 3, 0], 4), Ok(Some(Floor::from_value(3, 4).unwrap())));
    assert_eq!(floor_reply(&[7, 1, 4, 0], 4), Ok(None));
    assert_eq!(floor_reply(&[6, 1, 3, 0], 4), Err(ProtocolError::WrongTag { expected: 7, found: 6 }));
    assert_eq!(floor_reply(&[7, 5, 3, 0], 4), Err(ProtocolError::BadValue { tag: 7, found: 5 }));
}
