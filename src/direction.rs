use vstd::prelude::*;

verus! {

/// Direction of travel of a car, or of a hall call.
#[derive(Debug, Clone, Copy, PartialEq, Eq, Structural, Hash)]
pub enum Direction {
    Up,
    Down,
}

impl Direction {
    /// The other direction.
    pub open spec fn spec_opposite(self) -> Direction {
        match self {
            Direction::Up => Direction::Down,
            Direction::Down => Direction::Up,
        }
    }

    /// The byte that stands for this direction on the wire: `1` for up and
    /// `255` (that is, `-1`) for down.
    pub open spec fn spec_byte(self) -> u8 {
        match self {
            Direction::Up => 1,
            Direction::Down => 255,
        }
    }

    /// The direction that a wire byte stands for, if any.
    pub open spec fn spec_from_byte(byte: u8) -> Option<Direction> {
        if byte == 1 {
            Some(Direction::Up)
        } else if byte == 255 {
            Some(Direction::Down)
        } else {
            None
        }
    }

    pub fn opposite(self) -> (r: Direction)
        ensures
            r == self.spec_opposite(),
            r != self,
    {
        match self {
            Direction::Up => Direction::Down,
            Direction::Down => Direction::Up,
        }
    }

    /// Both directions, up first.
    pub fn iterator() -> (r: Vec<Direction>)
        ensures
            r@ == seq![Direction::Up, Direction::Down],
    {
        vec![Direction::Up, Direction::Down]
    }

    pub fn to_str(&self) -> (r: &'static str)
        ensures
            *self == Direction::Up ==> r@ == "up"@,
            *self == Direction::Down ==> r@ == "down"@,
    {
        match self {
            Direction::Up => "up",
            Direction::Down => "down",
        }
    }

    pub fn to_byte(self) -> (r: u8)
        ensures
            r == self.spec_byte(),
    {
        match self {
            Direction::Up => 1,
            Direction::Down => 255,
        }
    }

    /// Reads a direction byte; anything other than `1` or `255` is no direction.
    pub fn from_byte(byte: u8) -> (r: Option<Direction>)
        ensures
            r == Direction::spec_from_byte(byte),
    {
        if byte == 1 {
            Some(Direction::Up)
        } else if byte == 255 {
            Some(Direction::Down)
        } else {
            None
        }
    }
}

/// Turning around twice faces the original way.
pub proof fn lemma_opposite_involution(d: Direction)
    ensures
        d.spec_opposite().spec_opposite() == d,
{
}

} // verus!
