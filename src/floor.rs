use vstd::prelude::*;

verus! {

/// A floor of a building with a fixed number of floors. A value outside
/// `[0, n_floors)` cannot be built.
#[derive(Debug, Clone, Copy, PartialEq, Eq, Structural, Hash)]
pub struct Floor {
    val: usize,
    n_floors: usize,
}

impl Floor {
    /// The floor number.
    pub closed spec fn value(self) -> nat {
        self.val as nat
    }

    /// The number of floors of the building that this floor belongs to.
    pub closed spec fn n_floors(self) -> nat {
        self.n_floors as nat
    }

    #[verifier::type_invariant]
    pub open spec fn in_bounds(self) -> bool {
        self.value() < self.n_floors()
    }

    /// The ground floor of a building with `n_floors` floors.
    pub fn new(n_floors: usize) -> (r: Floor)
        requires
            n_floors > 0,
        ensures
            r.value() == 0,
            r.n_floors() == n_floors,
    {
        Floor { val: 0, n_floors }
    }

    /// Floor `val` of a building with `n_floors` floors, or `None` where the
    /// building has no such floor.
    pub fn from_value(val: usize, n_floors: usize) -> (r: Option<Floor>)
        ensures
            r is Some <==> val < n_floors,
            r matches Some(f) ==> f.value() == val && f.n_floors() == n_floors,
    {
        if val < n_floors {
            Some(Floor { val, n_floors })
        } else {
            None
        }
    }

    pub fn get(&self) -> (r: usize)
        ensures
            r == self.value(),
            r < self.n_floors(),
    {
        proof {
            use_type_invariant(self);
        }
        self.val
    }

    pub fn get_n_floors(&self) -> (r: usize)
        ensures
            r == self.n_floors(),
            r > 0,
    {
        proof {
            use_type_invariant(self);
        }
        self.n_floors
    }

    /// Floor `val` of the same building, or the top floor's number where the
    /// building has no such floor.
    pub fn change(self, val: usize) -> (r: Result<Floor, usize>)
        ensures
            r is Ok <==> val < self.n_floors(),
            r matches Ok(f) ==> f.value() == val && f.n_floors() == self.n_floors(),
            r matches Err(top) ==> top + 1 == self.n_floors(),
    {
        proof {
            use_type_invariant(&self);
        }
        match Floor::from_value(val, self.n_floors) {
            Some(f) => Ok(f),
            None => Err(self.n_floors - 1),
        }
    }

    /// The floor's number as a byte on the wire; only the low eight bits are
    /// kept.
    pub fn to_byte(self) -> (r: u8)
        ensures
            r == self.value() % 256,
    {
        (self.val % 256) as u8
    }
}

} // verus!
