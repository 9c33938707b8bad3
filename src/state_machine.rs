use vstd::prelude::*;

use crate::button::Button;
use crate::direction::Direction;
use crate::elevator::{Command, Elevator, ElevatorError, ElevatorView, Event};
use crate::floor::Floor;
use crate::message::Message;
use crate::requests::RequestsView;
use crate::state::State;
use crate::timer::Timer;

verus! {

/// How long the door stays open at a floor, in seconds.
pub const TIME_WAIT_ON_FLOOR: u64 = 3;

/// The door timer started at the clock reading `now_ms`.
pub open spec fn door_timer(now_ms: u64) -> Timer {
    Timer { started_ms: now_ms, duration_ms: (TIME_WAIT_ON_FLOOR * 1000) as u64 }
}

/// Whether a car moving in `d` stops on reaching floor `f`, and if so the
/// direction in which it leaves. A cab call or a hall call for `d` at the
/// floor stops it, to go on in `d`. Failing that, where nothing more is
/// wanted further along `d`, a call for the other way stops it to turn
/// around.
pub open spec fn stop_direction(v: RequestsView, f: int, d: Direction) -> Option<Direction> {
    if v.wants(f, d) {
        Some(d)
    } else if !v.pending_in_direction(f, d) && v.wants(f, d.spec_opposite()) {
        Some(d.spec_opposite())
    } else {
        None
    }
}

/// Stopping at the car's floor to leave in `d`: the cab call and the hall
/// call for `d` there are served and their lights put out, the door opens,
/// the door timer starts, and the dispatcher hears of a served hall call so
/// that every car puts its light out.
pub open spec fn serve(e: ElevatorView, d: Direction, now_ms: u64) -> (ElevatorView, Seq<Command>) {
    let f = e.floor.value() as int;
    let requests = e.requests.cleared(Button::Cab, f).cleared(Button::Hall(d), f).with_light(
        Button::Cab,
        f,
        false,
    ).with_light(Button::Hall(d), f, false);
    let commands = seq![
        Command::DoorOpenLight(true),
        Command::OrderButtonLight(Button::Cab, e.floor, false),
        Command::OrderButtonLight(Button::Hall(d), e.floor, false),
    ] + if e.requests.is_pending(Button::Hall(d), f) {
        seq![Command::Notify(Message::HallButtonLight { floor: e.floor, direction: d, on: false })]
    } else {
        Seq::empty()
    };
    (ElevatorView { state: State::Still(d), timer: Some(door_timer(now_ms)), requests, ..e }, commands)
}

/// Reaching `floor`: the indicator shows it, and a moving car stops there if
/// `stop_direction` says so.
pub open spec fn arrive(e: ElevatorView, floor: Floor, now_ms: u64) -> (ElevatorView, Seq<Command>) {
    let e1 = ElevatorView { floor, ..e };
    match e.state {
        State::Moving(d) => match stop_direction(e.requests, floor.value() as int, d) {
            Some(r) => {
                let (e2, c) = serve(e1, r, now_ms);
                (e2, seq![Command::FloorIndicator(floor), Command::MotorStop] + c)
            },
            None => (e1, seq![Command::FloorIndicator(floor)]),
        },
        _ => (e1, seq![Command::FloorIndicator(floor)]),
    }
}

/// The door timer running out: the door closes; a car standing at a floor
/// goes on in its direction where a cab call or a hall call for that
/// direction lies ahead, and is idle otherwise.
pub open spec fn time_out(e: ElevatorView) -> (ElevatorView, Seq<Command>) {
    let e1 = ElevatorView { timer: None, ..e };
    match e.state {
        State::Still(d) => if e.requests.pending_in_direction(e.floor.value() as int, d) {
            (
                ElevatorView { state: State::Moving(d), ..e1 },
                seq![Command::DoorOpenLight(false), Command::MotorDirection(d)],
            )
        } else {
            (ElevatorView { state: State::Idle, ..e1 }, seq![Command::DoorOpenLight(false)])
        },
        _ => (e1, seq![Command::DoorOpenLight(false)]),
    }
}

/// The direction in which an idle car serves calls at its own floor: up
/// where a cab call or a hall call up waits there, down otherwise.
pub open spec fn idle_direction(v: RequestsView, f: int) -> Direction {
    if v.wants(f, Direction::Up) {
        Direction::Up
    } else {
        Direction::Down
    }
}

/// An idle car looking for work: calls at its own floor are served at once;
/// otherwise it starts towards calls above, or else towards calls below.
pub open spec fn start(e: ElevatorView, now_ms: u64) -> (ElevatorView, Seq<Command>) {
    let f = e.floor.value() as int;
    if !(e.state is Idle) {
        (e, Seq::empty())
    } else if e.requests.any_at(f) {
        serve(e, idle_direction(e.requests, f), now_ms)
    } else if e.requests.any_in_direction(f, Direction::Up) {
        (
            ElevatorView { state: State::Moving(Direction::Up), ..e },
            seq![Command::MotorDirection(Direction::Up)],
        )
    } else if e.requests.any_in_direction(f, Direction::Down) {
        (
            ElevatorView { state: State::Moving(Direction::Down), ..e },
            seq![Command::MotorDirection(Direction::Down)],
        )
    } else {
        (e, Seq::empty())
    }
}

/// A message from the dispatcher: a hall call to serve, a hall light to set,
/// or the order to shut down.
pub open spec fn receive(e: ElevatorView, msg: Message) -> Result<
    (ElevatorView, Seq<Command>),
    ElevatorError,
> {
    match msg {
        Message::Request { floor, direction } => Ok(
            (
                ElevatorView {
                    requests: e.requests.added(Button::Hall(direction), floor.value() as int),
                    ..e
                },
                Seq::empty(),
            ),
        ),
        Message::HallButtonLight { floor, direction, on } => Ok(
            (
                ElevatorView {
                    requests: e.requests.with_light(
                        Button::Hall(direction),
                        floor.value() as int,
                        on,
                    ),
                    ..e
                },
                seq![Command::OrderButtonLight(Button::Hall(direction), floor, on)],
            ),
        ),
        Message::ElevatorInfo { .. } => Ok((e, Seq::empty())),
        Message::Shutdown => Err(e.error(false)),
    }
}

/// A button press: a cab call is taken at once and lit; a hall call goes to
/// the dispatcher, which lights it everywhere and picks the car to serve it.
pub open spec fn press(e: ElevatorView, button: Button, floor: Floor) -> (ElevatorView, Seq<Command>) {
    match button {
        Button::Cab => (
            ElevatorView {
                requests: e.requests.added(Button::Cab, floor.value() as int).with_light(
                    Button::Cab,
                    floor.value() as int,
                    true,
                ),
                ..e
            },
            seq![Command::OrderButtonLight(Button::Cab, floor, true)],
        ),
        Button::Hall(direction) => (
            e,
            seq![
                Command::Notify(Message::HallButtonLight { floor, direction, on: true }),
                Command::Notify(Message::Request { floor, direction }),
            ],
        ),
    }
}

/// One turn of a car's control loop: the event is handled, and a car that
/// is then idle looks for work.
pub open spec fn step(e: ElevatorView, event: Event, now_ms: u64) -> Result<
    (ElevatorView, Seq<Command>),
    ElevatorError,
> {
    let handled = match event {
        Event::ArriveAtFloor(floor) => Ok(arrive(e, floor, now_ms)),
        Event::TimerTimedOut => Ok(time_out(e)),
        Event::MessageReceived(msg) => receive(e, msg),
        Event::ButtonPress(button, floor) => Ok(press(e, button, floor)),
    };
    match handled {
        Ok((e1, c1)) => {
            let (e2, c2) = start(e1, now_ms);
            Ok((e2, c1 + c2))
        },
        Err(err) => Err(err),
    }
}

/// The commands hold an order to start the motor.
pub open spec fn starts_motor(commands: Seq<Command>) -> bool {
    exists|i: int| 0 <= i < commands.len() && #[trigger] commands[i] is MotorDirection
}

/// Decides whether a car moving in `direction` stops at its current floor,
/// and which way it leaves if it does.
pub fn check_for_stop(elevator: &Elevator, direction: Direction) -> (r: Option<Direction>)
    requires
        elevator@.wf(),
    ensures
        r == stop_direction(elevator.requests@, elevator.floor.value() as int, direction),
{
    let requests = &elevator.requests;
    let floor = elevator.floor;
    if requests.is_pending(Button::Cab, floor) || requests.is_pending(Button::Hall(direction), floor) {
        return Some(direction);
    }
    let opposite = direction.opposite();
    if !requests.check_in_direction(floor, direction) && (requests.is_pending(
        Button::Hall(opposite),
        floor,
    ) || requests.is_pending(Button::Cab, floor)) {
        return Some(opposite);
    }
    None
}

/// Stops the car at its floor to leave in `direction` (see `serve`).
fn wait_at_floor(elevator: &mut Elevator, direction: Direction, now_ms: u64) -> (r: Vec<Command>)
    requires
        old(elevator)@.wf(),
    ensures
        (final(elevator)@, r@) == serve(old(elevator)@, direction, now_ms),
        final(elevator)@.wf(),
{
    let floor = elevator.floor;
    let served = elevator.requests.request_at_floor(floor, direction);
    let hall_served = served.len() > 0 && served[served.len() - 1] == Button::Hall(direction);
    elevator.requests.update_active_button(Button::Cab, floor, true);
    elevator.requests.update_active_button(Button::Hall(direction), floor, true);
    elevator.state = State::Still(direction);
    elevator.timer = Some(Timer::from_secs(TIME_WAIT_ON_FLOOR, now_ms));
    let mut commands = vec![
        Command::DoorOpenLight(true),
        Command::OrderButtonLight(Button::Cab, floor, false),
        Command::OrderButtonLight(Button::Hall(direction), floor, false),
    ];
    if hall_served {
        commands.push(
            Command::Notify(Message::HallButtonLight { floor, direction, on: false }),
        );
    }
    assert(commands@ =~= serve(old(elevator)@, direction, now_ms).1);
    commands
}

/// A car reports arrival at `floor` (see `arrive`).
pub fn arrive_at_floor(elevator: &mut Elevator, floor: Floor, now_ms: u64) -> (r: Vec<Command>)
    requires
        old(elevator)@.wf(),
        floor.n_floors() == old(elevator).requests@.n_floors,
    ensures
        (final(elevator)@, r@) == arrive(old(elevator)@, floor, now_ms),
        final(elevator)@.wf(),
{
    elevator.floor = floor;
    let mut commands = vec![Command::FloorIndicator(floor)];
    if let State::Moving(direction) = elevator.state {
        if let Some(resume) = check_for_stop(elevator, direction) {
            commands.push(Command::MotorStop);
            let mut rest = wait_at_floor(elevator, resume, now_ms);
            commands.append(&mut rest);
        }
    }
    assert(commands@ =~= arrive(old(elevator)@, floor, now_ms).1);
    commands
}

/// A car's door timer runs out (see `time_out`).
pub fn timer_timed_out(elevator: &mut Elevator) -> (r: Vec<Command>)
    requires
        old(elevator)@.wf(),
    ensures
        (final(elevator)@, r@) == time_out(old(elevator)@),
        final(elevator)@.wf(),
{
    elevator.timer = None;
    let mut commands = vec![Command::DoorOpenLight(false)];
    if let State::Still(direction) = elevator.state {
        if try_continue(elevator, direction) {
            commands.push(Command::MotorDirection(direction));
        } else {
            elevator.state = State::Idle;
        }
    }
    commands
}

/// Sets a standing car moving in `direction` where a cab call or a hall call
/// for that direction lies ahead; tells whether it did.
fn try_continue(elevator: &mut Elevator, direction: Direction) -> (r: bool)
    requires
        old(elevator)@.wf(),
    ensures
        r == old(elevator).requests@.pending_in_direction(
            old(elevator).floor.value() as int,
            direction,
        ),
        final(elevator)@ == (if r {
            ElevatorView { state: State::Moving(direction), ..old(elevator)@ }
        } else {
            old(elevator)@
        }),
{
    if !elevator.requests.check_in_direction(elevator.floor, direction) {
        return false;
    }
    elevator.state = State::Moving(direction);
    true
}

/// The direction in which an idle car finds calls beyond its floor, up
/// first; `None` where there are none.
pub fn check_in_both_directions(elevator: &Elevator) -> (r: Option<Direction>)
    requires
        elevator@.wf(),
    ensures
        r == (if elevator.requests@.any_in_direction(elevator.floor.value() as int, Direction::Up) {
            Some(Direction::Up)
        } else if elevator.requests@.any_in_direction(
            elevator.floor.value() as int,
            Direction::Down,
        ) {
            Some(Direction::Down)
        } else {
            None
        }),
{
    if elevator.requests.check_any_in_direction(elevator.floor, Direction::Up) {
        Some(Direction::Up)
    } else if elevator.requests.check_any_in_direction(elevator.floor, Direction::Down) {
        Some(Direction::Down)
    } else {
        None
    }
}

/// An idle car looks for work (see `start`); a car that is not idle is left
/// as it is.
pub fn try_move(elevator: &mut Elevator, now_ms: u64) -> (r: Vec<Command>)
    requires
        old(elevator)@.wf(),
    ensures
        (final(elevator)@, r@) == start(old(elevator)@, now_ms),
        final(elevator)@.wf(),
{
    if elevator.state != State::Idle {
        return Vec::new();
    }
    let floor = elevator.floor;
    if elevator.check_for_request(floor) {
        let direction = if elevator.requests.is_pending(Button::Cab, floor)
            || elevator.requests.is_pending(Button::Hall(Direction::Up), floor) {
            Direction::Up
        } else {
            Direction::Down
        };
        return wait_at_floor(elevator, direction, now_ms);
    }
    match check_in_both_directions(elevator) {
        Some(direction) => {
            elevator.state = State::Moving(direction);
            vec![Command::MotorDirection(direction)]
        },
        None => Vec::new(),
    }
}

/// A car takes a message from the dispatcher (see `receive`); a shutdown
/// comes back as an error that describes the car, with the car unchanged.
pub fn message_received(elevator: &mut Elevator, msg: Message) -> (r: Result<
    Vec<Command>,
    ElevatorError,
>)
    requires
        old(elevator)@.wf(),
        msg.fits(old(elevator).requests@.n_floors),
    ensures
        final(elevator)@.wf(),
        match r {
            Ok(c) => receive(old(elevator)@, msg) == Ok::<_, ElevatorError>((final(elevator)@, c@)),
            Err(err) => receive(old(elevator)@, msg) == Err::<(ElevatorView, Seq<Command>), _>(err)
                && final(elevator)@ == old(elevator)@,
        },
{
    match msg {
        Message::Request { floor, direction } => {
            elevator.requests.add_request(Button::Hall(direction), floor);
            Ok(Vec::new())
        },
        Message::HallButtonLight { floor, direction, on } => {
            let button = Button::Hall(direction);
            elevator.requests.update_active_button(button, floor, !on);
            let commands = vec![Command::OrderButtonLight(button, floor, on)];
            assert(commands@ =~= seq![Command::OrderButtonLight(button, floor, on)]);
            Ok(commands)
        },
        Message::ElevatorInfo { .. } => Ok(Vec::new()),
        Message::Shutdown => Err(elevator.error(false)),
    }
}

/// A car handles a fresh press of `button` at `floor` (see `press`).
pub fn button_press(elevator: &mut Elevator, button: Button, floor: Floor) -> (r: Vec<Command>)
    requires
        old(elevator)@.wf(),
        floor.n_floors() == old(elevator).requests@.n_floors,
    ensures
        (final(elevator)@, r@) == press(old(elevator)@, button, floor),
        final(elevator)@.wf(),
{
    match button {
        Button::Cab => {
            elevator.requests.add_request(button, floor);
            elevator.requests.update_active_button(button, floor, false);
            vec![Command::OrderButtonLight(button, floor, true)]
        },
        Button::Hall(direction) => {
            vec![
                Command::Notify(Message::HallButtonLight { floor, direction, on: true }),
                Command::Notify(Message::Request { floor, direction }),
            ]
        },
    }
}

/// One turn of a car's control loop (see `step`): handles `event`, then
/// lets an idle car look for work. A car that is moving never gets a second
/// order to start the motor, and keeps its direction.
pub fn handle_event(elevator: &mut Elevator, event: Event, now_ms: u64) -> (r: Result<
    Vec<Command>,
    ElevatorError,
>)
    requires
        old(elevator)@.wf(),
        event.fits(old(elevator).requests@.n_floors),
    ensures
        final(elevator)@.wf(),
        match r {
            Ok(c) => step(old(elevator)@, event, now_ms) == Ok::<_, ElevatorError>(
                (final(elevator)@, c@),
            ),
            Err(err) => step(old(elevator)@, event, now_ms) == Err::<
                (ElevatorView, Seq<Command>),
                _,
            >(err) && final(elevator)@ == old(elevator)@,
        },
        old(elevator).state is Moving ==> match r {
            Ok(c) => !starts_motor(c@) && (final(elevator).state is Moving
                ==> final(elevator).state == old(elevator).state),
            Err(_) => true,
        },
{
    let mut commands = match event {
        Event::ArriveAtFloor(floor) => arrive_at_floor(elevator, floor, now_ms),
        Event::TimerTimedOut => timer_timed_out(elevator),
        Event::MessageReceived(msg) => match message_received(elevator, msg) {
            Ok(c) => c,
            Err(err) => return Err(err),
        },
        Event::ButtonPress(button, floor) => button_press(elevator, button, floor),
    };
    let mut more = try_move(elevator, now_ms);
    commands.append(&mut more);
    proof {
        if old(elevator).state is Moving {
            lemma_moving_car_never_restarts(old(elevator)@, event, now_ms);
        }
    }
    Ok(commands)
}

/// A car that is moving gets no order to start the motor from one turn of
/// its control loop, and if it is still moving afterwards it moves the same
/// way: the motor is only started again after a stop.
pub proof fn lemma_moving_car_never_restarts(e: ElevatorView, event: Event, now_ms: u64)
    requires
        e.state is Moving,
    ensures
        step(e, event, now_ms) matches Ok((e2, c)) ==> !starts_motor(c) && (e2.state is Moving
            ==> e2.state == e.state),
{
    if let Ok((e2, c)) = step(e, event, now_ms) {
        let handled = match event {
            Event::ArriveAtFloor(floor) => Ok(arrive(e, floor, now_ms)),
            Event::TimerTimedOut => Ok(time_out(e)),
            Event::MessageReceived(msg) => receive(e, msg),
            Event::ButtonPress(button, floor) => Ok(press(e, button, floor)),
        };
        let (e1, c1) = handled.unwrap();
        assert(!(e1.state is Idle));
        assert(c =~= c1);
        assert(!starts_motor(c1));
    }
}

/// The event of one poll pass, from what the control loop found: the floor
/// sensor (read while moving), the clock, a message from the dispatcher and
/// a fresh button press. Reaching a new floor comes first, then the door
/// timer, then the message, then the press.
pub fn next_event(
    elevator: &Elevator,
    sensor: Option<Floor>,
    now_ms: u64,
    message: Option<Message>,
    press: Option<(Button, Floor)>,
) -> (r: Option<Event>)
    ensures
        r == spec_next_event(elevator@, sensor, now_ms, message, press),
{
    if let State::Moving(_) = elevator.state {
        if let Some(floor) = sensor {
            if floor != elevator.floor {
                return Some(Event::ArriveAtFloor(floor));
            }
        }
    }
    if let Some(timer) = elevator.timer {
        if timer.is_done(now_ms) {
            return Some(Event::TimerTimedOut);
        }
    }
    if let Some(msg) = message {
        return Some(Event::MessageReceived(msg));
    }
    if let Some((button, floor)) = press {
        return Some(Event::ButtonPress(button, floor));
    }
    None
}

pub open spec fn spec_next_event(
    e: ElevatorView,
    sensor: Option<Floor>,
    now_ms: u64,
    message: Option<Message>,
    press: Option<(Button, Floor)>,
) -> Option<Event> {
    if e.state is Moving && sensor is Some && sensor.unwrap() != e.floor {
        Some(Event::ArriveAtFloor(sensor.unwrap()))
    } else if e.timer is Some && e.timer.unwrap().done_at(now_ms) {
        Some(Event::TimerTimedOut)
    } else if message is Some {
        Some(Event::MessageReceived(message.unwrap()))
    } else if press is Some {
        Some(Event::ButtonPress(press.unwrap().0, press.unwrap().1))
    } else {
        None
    }
}

/// One reading of the floor sensor while the car finds its starting floor:
/// at a floor, the car stops if it was moving and shows the floor, which is
/// where it starts; between floors, it starts moving down if it was not yet
/// moving. Returns the commands and the starting floor once found.
pub fn calibrate(sensor: Option<Floor>, moving: bool) -> (r: (Vec<Command>, Option<Floor>))
    ensures
        r.1 == sensor,
        r.0@ == match sensor {
            Some(f) => if moving {
                seq![Command::MotorStop, Command::FloorIndicator(f)]
            } else {
                seq![Command::FloorIndicator(f)]
            },
            None => if moving {
                Seq::empty()
            } else {
                seq![Command::MotorDirection(Direction::Down)]
            },
        },
{
    let commands = match sensor {
        Some(f) => if moving {
            vec![Command::MotorStop, Command::FloorIndicator(f)]
        } else {
            vec![Command::FloorIndicator(f)]
        },
        None => if moving {
            Vec::new()
        } else {
            vec![Command::MotorDirection(Direction::Down)]
        },
    };
    proof {
        if let Some(f) = sensor {
            if moving {
                assert(commands@ =~= seq![Command::MotorStop, Command::FloorIndicator(f)]);
            } else {
                assert(commands@ =~= seq![Command::FloorIndicator(f)]);
            }
        } else if !moving {
            assert(commands@ =~= seq![Command::MotorDirection(Direction::Down)]);
        }
    }
    (commands, sensor)
}

/// A car moving in `d` that reaches a floor where hall calls wait for both
/// directions, while more calls lie ahead in `d`, stops there to go on in
/// `d`: the call for its own direction comes first.
pub proof fn lemma_own_direction_first(e: ElevatorView, floor: Floor, d: Direction, now_ms: u64)
    requires
        e.state == State::Moving(d),
        e.requests.is_pending(Button::Hall(d), floor.value() as int),
        e.requests.is_pending(Button::Hall(d.spec_opposite()), floor.value() as int),
        e.requests.pending_in_direction(floor.value() as int, d),
    ensures
        stop_direction(e.requests, floor.value() as int, d) == Some(d),
        arrive(e, floor, now_ms).0.state == State::Still(d),
{
}

} // verus!
