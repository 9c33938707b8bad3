use elevators::{Button, Direction, Floor, Requests};

fn fl(v: usize) -> Floor {
    Floor::from_value(v, 4).unwrap()
}

#[test]
fn add_then_clear_request() {
    let mut r = Requests::new(4);
    assert!(!r.is_pending(Button::Cab, fl(2)));
    r.add_request(Button::Cab, fl(2));
    assert!(r.is_pending(Button::Cab, fl(2)));
    r.add_request(Button::Cab, fl(2));
    assert!(r.is_pending(Button::Cab, fl(2)));
    assert!(r.clear_request(Button::Cab, fl(2)));
    assert!(!r.is_pending(Button::Cab, fl(2)));
    assert!(!r.clear_request(Button::Cab, fl(2)));
    assert_eq!(r.number_of_requests(), 0);
}

#[test]
fn request_at_floor_serves_cab_and_own_direction() {
    let mut r = Requests::new(4);
    r.add_request(Button::Cab, fl(1));
    r.add_request(Button::Hall(Direction::Up), fl(1));
    r.add_request(Button::Hall(Direction::Down), fl(1));
    let served = r.request_at_floor(fl(1), Direction::Up);
    assert_eq!(served, vec![Button::Cab, Button::Hall(Direction::Up)]);
    assert!(r.is_pending(Button::Hall(Direction::Down), fl(1)));
    assert_eq!(r.number_of_requests(), 1);
    assert_eq!(r.request_at_floor(fl(1), Direction::Up), vec![]);
}

#[test]
fn check_in_direction_looks_strictly_beyond() {
    let mut r = Requests::new(4);
    r.add_request(Button::Hall(Direction::Down), fl(3));
    assert!(!r.check_in_direction(fl(1), Direction::Up));
    assert!(r.check_any_in_direction(fl(1), Direction::Up));
    r.add_request(Button::Cab, fl(2));
    assert!(r.check_in_direction(fl(1), Direction::Up));
    assert!(!r.check_in_direction(fl(2), Direction::Up));
    assert!(r.check_in_direction(fl(3), Direction::Down));
    assert!(!r.check_in_direction(fl(2), Direction::Down));
    assert!(!r.check_any_in_direction(fl(3), Direction::Up));
}

#[test]
fn check_for_any_picks_lowest_floor_then_cab() {
    let mut r = Requests::new(4);
    assert_eq!(r.check_for_any(), None);
    r.add_request(Button::Hall(Direction::Down), fl(3));
    r.add_request(Button::Hall(Direction::Up), fl(1));
    r.add_request(Button::Cab, fl(2));
    assert_eq!(r.check_for_any(), Some((fl(1), Button::Hall(Direction::Up))));
    r.add_request(Button::Cab, fl(1));
    assert_eq!(r.check_for_any(), Some((fl(1), Button::Cab)));
    assert_eq!(r.number_of_requests(), 4);
}

#[test]
fn active_buttons_skip_lit_and_impossible_calls() {
    let mut r = Requests::new(4);
    let floors = |r: &Requests, b: Button| -> Vec<usize> {
        r.get_active_buttons(b).iter().map(|f| f.get()).collect()
    };
    assert_eq!(floors(&r, Button::Cab), vec![0, 1, 2, 3]);
    assert_eq!(floors(&r, Button::Hall(Direction::Up)), vec![0, 1, 2]);
    assert_eq!(floors(&r, Button::Hall(Direction::Down)), vec![1, 2, 3]);
    r.update_active_button(Button::Cab, fl(2), false);
    assert!(r.light_is_on(Button::Cab, fl(2)));
    assert_eq!(floors(&r, Button::Cab), vec![0, 1, 3]);
    r.update_active_button(Button::Cab, fl(2), true);
    assert!(!r.light_is_on(Button::Cab, fl(2)));
    assert_eq!(floors(&r, Button::Cab), vec![0, 1, 2, 3]);
}

#[test]
fn get_returns_pending_row() {
    let mut r = Requests::new(3);
    r.add_request(Button::Cab, Floor::from_value(1, 3).unwrap());
    let row = r.get(&Button::Cab);
    assert_eq!(row.len(), 3);
    assert!(row.get(1));
    assert!(!r.get(&Button::Hall(Direction::Up)).get(1));
    assert_eq!(r.get_n_floors(), 3);
}
