use vstd::prelude::*;

use crate::direction::Direction;

verus! {

/// A call button: a hall button for one direction, found on each floor, or
/// a cab button inside a car.
#[derive(Debug, Clone, Copy, PartialEq, Eq, Structural, Hash)]
pub enum Button {
    Hall(Direction),
    Cab,
}

impl Button {
    /// The byte that stands for this button on the wire.
    pub open spec fn spec_byte(self) -> u8 {
        match self {
            Button::Hall(Direction::Up) => 0,
            Button::Hall(Direction::Down) => 1,
            Button::Cab => 2,
        }
    }

    pub open spec fn spec_from_byte(byte: u8) -> Option<Button> {
        if byte == 0 {
            Some(Button::Hall(Direction::Up))
        } else if byte == 1 {
            Some(Button::Hall(Direction::Down))
        } else if byte == 2 {
            Some(Button::Cab)
        } else {
            None
        }
    }

    /// The three buttons in the order in which a floor is examined: cab,
    /// hall up, hall down.
    pub open spec fn spec_all() -> Seq<Button> {
        seq![Button::Cab, Button::Hall(Direction::Up), Button::Hall(Direction::Down)]
    }

    pub fn iterator() -> (r: Vec<Button>)
        ensures
            r@ == Button::spec_all(),
    {
        vec![Button::Cab, Button::Hall(Direction::Up), Button::Hall(Direction::Down)]
    }

    pub fn to_byte(self) -> (r: u8)
        ensures
            r == self.spec_byte(),
    {
        match self {
            Button::Hall(Direction::Up) => 0,
            Button::Hall(Direction::Down) => 1,
            Button::Cab => 2,
        }
    }

    pub fn try_from(byte: u8) -> (r: Option<Button>)
        ensures
            r == Button::spec_from_byte(byte),
    {
        if byte == 0 {
            Some(Button::Hall(Direction::Up))
        } else if byte == 1 {
            Some(Button::Hall(Direction::Down))
        } else if byte == 2 {
            Some(Button::Cab)
        } else {
            None
        }
    }
}

} // verus!
