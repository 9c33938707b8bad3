use elevators::{Array, Button, Direction, Floor, State, Timer};

#[test]
fn floor_in_range_is_built() {
    let f = Floor::from_value(3, 4).unwrap();
    assert_eq!(f.get(), 3);
    assert_eq!(f.get_n_floors(), 4);
    assert_eq!(Floor::new(4).get(), 0);
}

#[test]
fn floor_out_of_range_is_refused() {
    assert!(Floor::from_value(4, 4).is_none());
    assert!(Floor::from_value(100, 4).is_none());
    assert!(Floor::from_value(0, 0).is_none());
}

#[test]
fn floor_change_stays_in_building() {
    let f = Floor::new(4);
    assert_eq!(f.change(2).unwrap().get(), 2);
    assert_eq!(f.change(4), Err(3));
}

#[test]
fn floor_byte_keeps_low_bits() {
    assert_eq!(Floor::from_value(3, 4).unwrap().to_byte(), 3);
    assert_eq!(Floor::from_value(300, 400).unwrap().to_byte(), 44);
}

#[test]
fn opposite_is_an_involution() {
    for d in Direction::iterator() {
        assert_eq!(d.opposite().opposite(), d);
        assert_ne!(d.opposite(), d);
    }
    assert_eq!(Direction::Up.opposite(), Direction::Down);
    assert_eq!(Direction::iterator(), vec![Direction::Up, Direction::Down]);
}

#[test]
fn direction_bytes() {
    assert_eq!(Direction::Up.to_byte(), 1);
    assert_eq!(Direction::Down.to_byte(), 255);
    assert_eq!(Direction::from_byte(1), Some(Direction::Up));
    assert_eq!(Direction::from_byte(255), Some(Direction::Down));
    assert_eq!(Direction::from_byte(0), None);
    assert_eq!(Direction::Down.to_str(), "down");
}

#[test]
fn button_bytes() {
    assert_eq!(Button::Hall(Direction::Up).to_byte(), 0);
    assert_eq!(Button::Hall(Direction::Down).to_byte(), 1);
    assert_eq!(Button::Cab.to_byte(), 2);
    for b in Button::iterator() {
        assert_eq!(Button::try_from(b.to_byte()), Some(b));
    }
    assert_eq!(Button::try_from(3), None);
    assert_eq!(
        Button::iterator(),
        vec![Button::Cab, Button::Hall(Direction::Up), Button::Hall(Direction::Down)]
    );
}

#[test]
fn state_names() {
    assert_eq!(State::Idle.to_str(), "idle");
    assert_eq!(State::Moving(Direction::Up).to_str(), "moving");
    assert_eq!(State::Still(Direction::Down).to_str(), "still");
}

#[test]
fn timer_runs_out_after_its_duration() {
    let t = Timer::from_secs(3, 1000);
    assert_eq!(t.duration_ms, 3000);
    assert!(!t.is_done(1000));
    assert!(!t.is_done(3999));
    assert!(t.is_done(4000));
    assert!(!t.is_done(500));
}

#[test]
fn array_holds_values() {
    let mut a = Array::from_val(false, 3);
    assert_eq!(a.len(), 3);
    a.set(true, 1);
    assert!(a.get(1));
    assert!(!a.get(0));
    let v: Vec<bool> = a.iter().copied().collect();
    assert_eq!(v, vec![false, true, false]);
}
