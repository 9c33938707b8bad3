use elevators::state_machine::{
    arrive_at_floor, button_press, calibrate, check_for_stop, check_in_both_directions,
    handle_event, message_received, next_event, timer_timed_out, try_move,
};
use elevators::{Button, Command, Direction, Elevator, Event, Floor, Message, State, Timer};

fn fl(v: usize) -> Floor {
    Floor::from_value(v, 4).unwrap()
}

fn car_at(v: usize) -> Elevator {
    Elevator::new(fl(v))
}

fn starts_motor(commands: &[Command]) -> bool {
    commands.iter().any(|c| matches!(c, Command::MotorDirection(_)))
}

#[test]
fn new_car_is_idle_and_empty() {
    let e = car_at(1);
    assert_eq!(e.state, State::Idle);
    assert!(e.timer.is_none());
    assert_eq!(e.get_n_floors(), 4);
    assert_eq!(e.requests.number_of_requests(), 0);
    let err = e.error(true);
    assert_eq!(err.floor, fl(1));
    assert!(err.critical);
}

#[test]
fn check_for_request_sees_any_button() {
    let mut e = car_at(0);
    assert!(!e.check_for_request(fl(2)));
    e.requests.add_request(Button::Hall(Direction::Down), fl(2));
    assert!(e.check_for_request(fl(2)));
    assert!(!e.check_for_request(fl(1)));
}

#[test]
fn own_direction_hall_call_beats_opposite() {
    let mut e = car_at(1);
    e.state = State::Moving(Direction::Up);
    e.requests.add_request(Button::Hall(Direction::Up), fl(2));
    e.requests.add_request(Button::Hall(Direction::Down), fl(2));
    e.requests.add_request(Button::Cab, fl(3));
    let commands = arrive_at_floor(&mut e, fl(2), 0);
    assert_eq!(e.state, State::Still(Direction::Up));
    assert_eq!(commands[0], Command::FloorIndicator(fl(2)));
    assert_eq!(commands[1], Command::MotorStop);
    assert!(!e.requests.is_pending(Button::Hall(Direction::Up), fl(2)));
    assert!(e.requests.is_pending(Button::Hall(Direction::Down), fl(2)));
}

#[test]
fn turns_around_when_nothing_ahead() {
    let mut e = car_at(1);
    e.state = State::Moving(Direction::Up);
    e.requests.add_request(Button::Hall(Direction::Down), fl(2));
    e.floor = fl(2);
    assert_eq!(check_for_stop(&e, Direction::Up), Some(Direction::Down));
    e.requests.add_request(Button::Cab, fl(3));
    assert_eq!(check_for_stop(&e, Direction::Up), None);
}

#[test]
fn passes_floor_without_calls() {
    let mut e = car_at(0);
    e.state = State::Moving(Direction::Up);
    e.requests.add_request(Button::Cab, fl(3));
    let commands = handle_event(&mut e, Event::ArriveAtFloor(fl(1)), 0).unwrap();
    assert_eq!(commands, vec![Command::FloorIndicator(fl(1))]);
    assert_eq!(e.state, State::Moving(Direction::Up));
    assert_eq!(e.floor, fl(1));
    assert!(!starts_motor(&commands));
}

#[test]
fn moving_car_is_never_started_again() {
    let events = vec![
        Event::ArriveAtFloor(fl(2)),
        Event::TimerTimedOut,
        Event::ButtonPress(Button::Cab, fl(0)),
        Event::ButtonPress(Button::Hall(Direction::Down), fl(3)),
        Event::MessageReceived(Message::Request { floor: fl(3), direction: Direction::Down }),
    ];
    for ev in events {
        let mut e = car_at(1);
        e.state = State::Moving(Direction::Up);
        e.requests.add_request(Button::Cab, fl(3));
        let commands = handle_event(&mut e, ev, 0).unwrap();
        assert!(!starts_motor(&commands));
        if let State::Moving(d) = e.state {
            assert_eq!(d, Direction::Up);
        }
    }
}

#[test]
fn door_timer_continues_up_to_cab_call() {
    let mut e = car_at(1);
    e.state = State::Still(Direction::Up);
    e.timer = Some(Timer::from_secs(3, 0));
    e.requests.add_request(Button::Cab, fl(3));
    let commands = timer_timed_out(&mut e);
    assert_eq!(e.state, State::Moving(Direction::Up));
    assert!(e.timer.is_none());
    assert_eq!(
        commands,
        vec![Command::DoorOpenLight(false), Command::MotorDirection(Direction::Up)]
    );
}

#[test]
fn door_timer_without_calls_goes_idle() {
    let mut e = car_at(1);
    e.state = State::Still(Direction::Up);
    e.timer = Some(Timer::from_secs(3, 0));
    let commands = timer_timed_out(&mut e);
    assert_eq!(e.state, State::Idle);
    assert_eq!(commands, vec![Command::DoorOpenLight(false)]);
}

#[test]
fn door_timer_ignores_calls_behind() {
    let mut e = car_at(2);
    e.state = State::Still(Direction::Up);
    e.requests.add_request(Button::Cab, fl(0));
    timer_timed_out(&mut e);
    assert_eq!(e.state, State::Idle);
    let commands = try_move(&mut e, 0);
    assert_eq!(e.state, State::Moving(Direction::Down));
    assert_eq!(commands, vec![Command::MotorDirection(Direction::Down)]);
}

#[test]
fn idle_car_serves_own_floor_at_once() {
    let mut e = car_at(2);
    e.requests.add_request(Button::Hall(Direction::Down), fl(2));
    let commands = try_move(&mut e, 500);
    assert_eq!(e.state, State::Still(Direction::Down));
    assert_eq!(e.timer, Some(Timer { started_ms: 500, duration_ms: 3000 }));
    assert_eq!(
        commands,
        vec![
            Command::DoorOpenLight(true),
            Command::OrderButtonLight(Button::Cab, fl(2), false),
            Command::OrderButtonLight(Button::Hall(Direction::Down), fl(2), false),
            Command::Notify(Message::HallButtonLight {
                floor: fl(2),
                direction: Direction::Down,
                on: false
            }),
        ]
    );
    assert_eq!(e.requests.number_of_requests(), 0);
}

#[test]
fn idle_car_heads_for_hall_call_against_its_direction() {
    let mut e = car_at(0);
    e.requests.add_request(Button::Hall(Direction::Down), fl(3));
    assert_eq!(check_in_both_directions(&e), Some(Direction::Up));
    let commands = try_move(&mut e, 0);
    assert_eq!(e.state, State::Moving(Direction::Up));
    assert_eq!(commands, vec![Command::MotorDirection(Direction::Up)]);
    let commands = arrive_at_floor(&mut e, fl(3), 0);
    assert_eq!(e.state, State::Still(Direction::Down));
    assert_eq!(commands[1], Command::MotorStop);
}

#[test]
fn idle_car_without_work_stays() {
    let mut e = car_at(0);
    assert_eq!(check_in_both_directions(&e), None);
    assert!(try_move(&mut e, 0).is_empty());
    assert_eq!(e.state, State::Idle);
}

#[test]
fn cab_press_is_taken_locally() {
    let mut e = car_at(0);
    let commands = button_press(&mut e, Button::Cab, fl(3));
    assert_eq!(commands, vec![Command::OrderButtonLight(Button::Cab, fl(3), true)]);
    assert!(e.requests.is_pending(Button::Cab, fl(3)));
    assert!(e.requests.light_is_on(Button::Cab, fl(3)));
}

#[test]
fn hall_press_goes_to_dispatcher() {
    let mut e = car_at(0);
    let commands = button_press(&mut e, Button::Hall(Direction::Up), fl(2));
    assert_eq!(
        commands,
        vec![
            Command::Notify(Message::HallButtonLight {
                floor: fl(2),
                direction: Direction::Up,
                on: true
            }),
            Command::Notify(Message::Request { floor: fl(2), direction: Direction::Up }),
        ]
    );
    assert!(!e.requests.is_pending(Button::Hall(Direction::Up), fl(2)));
}

#[test]
fn messages_update_ledger() {
    let mut e = car_at(0);
    let light = Message::HallButtonLight { floor: fl(1), direction: Direction::Down, on: true };
    let commands = message_received(&mut e, light).unwrap();
    assert_eq!(
        commands,
        vec![Command::OrderButtonLight(Button::Hall(Direction::Down), fl(1), true)]
    );
    assert!(e.requests.light_is_on(Button::Hall(Direction::Down), fl(1)));
    let request = Message::Request { floor: fl(1), direction: Direction::Down };
    assert!(message_received(&mut e, request).unwrap().is_empty());
    assert!(e.requests.is_pending(Button::Hall(Direction::Down), fl(1)));
}

#[test]
fn shutdown_ends_the_car() {
    let mut e = car_at(2);
    let err = handle_event(&mut e, Event::MessageReceived(Message::Shutdown), 0).unwrap_err();
    assert_eq!(err.floor, fl(2));
    assert_eq!(err.state, State::Idle);
    assert!(!err.critical);
}

#[test]
fn info_reports_pending_count() {
    let mut e = car_at(1);
    e.requests.add_request(Button::Cab, fl(3));
    e.requests.add_request(Button::Hall(Direction::Up), fl(2));
    assert_eq!(
        e.info(7),
        Message::ElevatorInfo { task_id: 7, floor: fl(1), state: State::Idle, n_requests: 2 }
    );
}

#[test]
fn events_come_in_priority_order() {
    let mut e = car_at(1);
    e.state = State::Moving(Direction::Up);
    e.timer = Some(Timer::from_secs(3, 0));
    let msg = Some(Message::Shutdown);
    let press = Some((Button::Cab, fl(0)));
    assert_eq!(next_event(&e, Some(fl(2)), 5000, msg, press), Some(Event::ArriveAtFloor(fl(2))));
    assert_eq!(next_event(&e, Some(fl(1)), 5000, msg, press), Some(Event::TimerTimedOut));
    assert_eq!(next_event(&e, None, 100, msg, press), Some(Event::MessageReceived(Message::Shutdown)));
    assert_eq!(next_event(&e, None, 100, None, press), Some(Event::ButtonPress(Button::Cab, fl(0))));
    assert_eq!(next_event(&e, None, 100, None, None), None);
    e.state = State::Idle;
    assert_eq!(next_event(&e, Some(fl(2)), 100, None, None), None);
}

#[test]
fn calibration_finds_a_floor() {
    assert_eq!(calibrate(Some(fl(2)), false), (vec![Command::FloorIndicator(fl(2))], Some(fl(2))));
    assert_eq!(calibrate(None, false), (vec![Command::MotorDirection(Direction::Down)], None));
    assert_eq!(calibrate(None, true), (vec![], None));
    assert_eq!(
        calibrate(Some(fl(0)), true),
        (vec![Command::MotorStop, Command::FloorIndicator(fl(0))], Some(fl(0)))
    );
}

#[test]
fn critical_commands_are_motor_commands() {
    assert!(Command::MotorStop.is_critical());
    assert!(Command::MotorDirection(Direction::Down).is_critical());
    assert!(!Command::DoorOpenLight(true).is_critical());
    assert!(!Command::Notify(Message::Shutdown).is_critical());
}
