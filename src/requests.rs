use vstd::prelude::*;

use crate::array::Array;
use crate::button::Button;
use crate::direction::Direction;
use crate::floor::Floor;

verus! {

/// One flag per floor for each of the three buttons.
pub struct Rows {
    pub cab: Seq<bool>,
    pub hall_up: Seq<bool>,
    pub hall_down: Seq<bool>,
}

impl Rows {
    pub open spec fn row(self, b: Button) -> Seq<bool> {
        match b {
            Button::Cab => self.cab,
            Button::Hall(Direction::Up) => self.hall_up,
            Button::Hall(Direction::Down) => self.hall_down,
        }
    }

    pub open spec fn at(self, b: Button, f: int) -> bool {
        self.row(b)[f]
    }

    /// The same rows with the flag of `b` at floor `f` set to `v`.
    pub open spec fn with(self, b: Button, f: int, v: bool) -> Rows {
        match b {
            Button::Cab => Rows { cab: self.cab.update(f, v), ..self },
            Button::Hall(Direction::Up) => Rows { hall_up: self.hall_up.update(f, v), ..self },
            Button::Hall(Direction::Down) => Rows { hall_down: self.hall_down.update(f, v), ..self },
        }
    }

    pub open spec fn has_len(self, n: nat) -> bool {
        &&& self.cab.len() == n
        &&& self.hall_up.len() == n
        &&& self.hall_down.len() == n
    }
}

/// Number of `true` flags in a row.
pub open spec fn count_true(s: Seq<bool>) -> nat
    decreases s.len(),
{
    if s.len() == 0 {
        0
    } else {
        count_true(s.drop_last()) + if s.last() {
            1nat
        } else {
            0nat
        }
    }
}

/// What a request ledger holds: which calls are pending and which call
/// lights are lit, for each button and floor of a building of `n_floors`
/// floors.
pub struct RequestsView {
    pub n_floors: nat,
    pub pending: Rows,
    pub lit: Rows,
}

impl RequestsView {
    /// Every row has one flag per floor.
    pub open spec fn wf(self) -> bool {
        self.pending.has_len(self.n_floors) && self.lit.has_len(self.n_floors)
    }

    /// The ledger with the call of `b` at floor `f` recorded.
    pub open spec fn added(self, b: Button, f: int) -> RequestsView {
        RequestsView { pending: self.pending.with(b, f, true), ..self }
    }

    /// The ledger with the call of `b` at floor `f` served.
    pub open spec fn cleared(self, b: Button, f: int) -> RequestsView {
        RequestsView { pending: self.pending.with(b, f, false), ..self }
    }

    /// The ledger with the light of `b` at floor `f` set to `on`.
    pub open spec fn with_light(self, b: Button, f: int, on: bool) -> RequestsView {
        RequestsView { lit: self.lit.with(b, f, on), ..self }
    }

    pub open spec fn is_pending(self, b: Button, f: int) -> bool {
        self.pending.at(b, f)
    }

    pub open spec fn is_lit(self, b: Button, f: int) -> bool {
        self.lit.at(b, f)
    }

    /// Floor `g` lies strictly beyond floor `f` when travelling in `d`.
    pub open spec fn beyond(self, f: int, d: Direction, g: int) -> bool {
        match d {
            Direction::Up => f < g < self.n_floors,
            Direction::Down => 0 <= g < f,
        }
    }

    /// A cab call or a hall call for `d` is pending at floor `g`.
    pub open spec fn wants(self, g: int, d: Direction) -> bool {
        self.is_pending(Button::Cab, g) || self.is_pending(Button::Hall(d), g)
    }

    /// Some cab call or hall call for `d` is pending beyond floor `f` in `d`.
    pub open spec fn pending_in_direction(self, f: int, d: Direction) -> bool {
        exists|g: int| self.beyond(f, d, g) && #[trigger] self.wants(g, d)
    }

    /// Some call of any button is pending at floor `g`.
    pub open spec fn any_at(self, g: int) -> bool {
        self.is_pending(Button::Cab, g) || self.is_pending(Button::Hall(Direction::Up), g)
            || self.is_pending(Button::Hall(Direction::Down), g)
    }

    /// Some call of any button is pending beyond floor `f` in `d`.
    pub open spec fn any_in_direction(self, f: int, d: Direction) -> bool {
        exists|g: int| self.beyond(f, d, g) && #[trigger] self.any_at(g)
    }

    /// The first button pending at a floor, in the order cab, hall up,
    /// hall down.
    pub open spec fn first_button_at(self, g: int) -> Button {
        if self.is_pending(Button::Cab, g) {
            Button::Cab
        } else if self.is_pending(Button::Hall(Direction::Up), g) {
            Button::Hall(Direction::Up)
        } else {
            Button::Hall(Direction::Down)
        }
    }

    /// Number of pending calls.
    pub open spec fn count(self) -> nat {
        count_true(self.pending.cab) + count_true(self.pending.hall_up) + count_true(
            self.pending.hall_down,
        )
    }

    /// A call of `b` at floor `f` can be made at all: there is no hall call
    /// up from the top floor, nor down from the ground floor.
    pub open spec fn callable(self, b: Button, f: int) -> bool {
        &&& 0 <= f < self.n_floors
        &&& b == Button::Hall(Direction::Up) ==> f + 1 < self.n_floors
        &&& b == Button::Hall(Direction::Down) ==> f > 0
    }

    /// A floor whose button `b` is to be watched for a fresh press: its
    /// light is off and the call can be made there.
    pub open spec fn watched(self, b: Button, f: int) -> bool {
        self.callable(b, f) && !self.is_lit(b, f)
    }
}

/// The calls that `request_at_floor` serves at floor `f` for a car leaving
/// in `d`, in the order in which it reports them.
pub open spec fn served_at(v: RequestsView, f: int, d: Direction) -> Seq<Button> {
    (if v.is_pending(Button::Cab, f) {
        seq![Button::Cab]
    } else {
        Seq::empty()
    }) + (if v.is_pending(Button::Hall(d), f) {
        seq![Button::Hall(d)]
    } else {
        Seq::empty()
    })
}

proof fn lemma_count_true_step(s: Seq<bool>, i: int)
    requires
        0 <= i < s.len(),
    ensures
        count_true(s.take(i + 1)) == count_true(s.take(i)) + if s[i] {
            1nat
        } else {
            0nat
        },
{
    assert(s.take(i + 1).drop_last() =~= s.take(i));
}

/// The executable rows behind `Rows`.
struct Table {
    cab: Array<bool>,
    hall_up: Array<bool>,
    hall_down: Array<bool>,
}

impl View for Table {
    type V = Rows;

    closed spec fn view(&self) -> Rows {
        Rows { cab: self.cab@, hall_up: self.hall_up@, hall_down: self.hall_down@ }
    }
}

impl Table {
    fn filled(val: bool, n: usize) -> (r: Table)
        ensures
            r@.cab == Seq::new(n as nat, |_i: int| val),
            r@.hall_up == Seq::new(n as nat, |_i: int| val),
            r@.hall_down == Seq::new(n as nat, |_i: int| val),
    {
        Table {
            cab: Array::from_val(val, n),
            hall_up: Array::from_val(val, n),
            hall_down: Array::from_val(val, n),
        }
    }

    fn row(&self, b: &Button) -> (r: &Array<bool>)
        ensures
            r@ == self@.row(*b),
    {
        match b {
            Button::Cab => &self.cab,
            Button::Hall(Direction::Up) => &self.hall_up,
            Button::Hall(Direction::Down) => &self.hall_down,
        }
    }

    fn get(&self, b: Button, i: usize) -> (r: bool)
        requires
            i < self@.row(b).len(),
        ensures
            r == self@.at(b, i as int),
    {
        self.row(&b).get(i)
    }

    fn set(&mut self, b: Button, i: usize, v: bool)
        requires
            i < old(self)@.row(b).len(),
        ensures
            final(self)@ == old(self)@.with(b, i as int, v),
        no_unwind
    {
        match b {
            Button::Cab => self.cab.set(v, i),
            Button::Hall(Direction::Up) => self.hall_up.set(v, i),
            Button::Hall(Direction::Down) => self.hall_down.set(v, i),
        }
    }
}

/// The request ledger of one car: the calls that it still has to serve and
/// the state of its call lights.
pub struct Requests {
    map: Table,
    active_buttons: Table,
    n_floors: usize,
}

impl View for Requests {
    type V = RequestsView;

    closed spec fn view(&self) -> RequestsView {
        RequestsView { n_floors: self.n_floors as nat, pending: self.map@, lit: self.active_buttons@ }
    }
}

impl Requests {
    #[verifier::type_invariant]
    closed spec fn well_formed(self) -> bool {
        &&& self.map@.has_len(self.n_floors as nat)
        &&& self.active_buttons@.has_len(self.n_floors as nat)
        &&& 3 * self.n_floors <= usize::MAX
    }

    /// An empty ledger for a building of `n_floors` floors, with every light
    /// off. The number of floors is bounded so that a count of calls fits in
    /// a `usize`.
    pub fn new(n_floors: usize) -> (r: Requests)
        requires
            3 * n_floors <= usize::MAX,
        ensures
            r@.n_floors == n_floors,
            r@.wf(),
            forall|b: Button, f: int| 0 <= f < n_floors ==> !#[trigger] r@.is_pending(b, f),
            forall|b: Button, f: int| 0 <= f < n_floors ==> !#[trigger] r@.is_lit(b, f),
    {
        Requests {
            map: Table::filled(false, n_floors),
            active_buttons: Table::filled(false, n_floors),
            n_floors,
        }
    }

    pub fn get_n_floors(&self) -> (r: usize)
        ensures
            r == self@.n_floors,
            self@.wf(),
            3 * r <= usize::MAX,
    {
        proof {
            use_type_invariant(self);
        }
        self.n_floors
    }

    /// The pending flags of one button, one per floor.
    pub fn get(&self, button: &Button) -> (r: &Array<bool>)
        ensures
            r@ == self@.pending.row(*button),
            r@.len() == self@.n_floors,
    {
        proof {
            use_type_invariant(self);
        }
        self.map.row(button)
    }

    pub fn is_pending(&self, button: Button, floor: Floor) -> (r: bool)
        requires
            floor.n_floors() == self@.n_floors,
        ensures
            r == self@.is_pending(button, floor.value() as int),
    {
        proof {
            use_type_invariant(self);
            use_type_invariant(&floor);
        }
        self.map.get(button, floor.get())
    }

    /// Records a call of `button` at `floor`; recording it again changes
    /// nothing.
    pub fn add_request(&mut self, button: Button, floor: Floor)
        requires
            floor.n_floors() == old(self)@.n_floors,
        ensures
            final(self)@ == old(self)@.added(button, floor.value() as int),
            final(self)@.wf(),
    {
        proof {
            use_type_invariant(&*self);
            use_type_invariant(&floor);
        }
        self.map.set(button, floor.get(), true);
    }

    /// Marks the call of `button` at `floor` served, and tells whether it
    /// was pending.
    pub fn clear_request(&mut self, button: Button, floor: Floor) -> (r: bool)
        requires
            floor.n_floors() == old(self)@.n_floors,
        ensures
            r == old(self)@.is_pending(button, floor.value() as int),
            final(self)@ == old(self)@.cleared(button, floor.value() as int),
            final(self)@.wf(),
    {
        proof {
            use_type_invariant(&*self);
            use_type_invariant(&floor);
        }
        let i = floor.get();
        let was = self.map.get(button, i);
        self.map.set(button, i, false);
        was
    }

    /// Serves the calls at `floor` that a car leaving in `direction` takes:
    /// the cab call and the hall call for `direction`. Returns those of the
    /// two that were pending, cab first.
    pub fn request_at_floor(&mut self, floor: Floor, direction: Direction) -> (r: Vec<Button>)
        requires
            floor.n_floors() == old(self)@.n_floors,
        ensures
            r@ == served_at(old(self)@, floor.value() as int, direction),
            final(self)@ == old(self)@.cleared(Button::Cab, floor.value() as int).cleared(
                Button::Hall(direction),
                floor.value() as int,
            ),
            final(self)@.wf(),
    {
        let mut results: Vec<Button> = Vec::new();
        if self.clear_request(Button::Cab, floor) {
            results.push(Button::Cab);
        }
        if self.clear_request(Button::Hall(direction), floor) {
            results.push(Button::Hall(direction));
        }
        results
    }

    /// Tells whether a cab call, or a hall call for `direction`, is pending
    /// strictly beyond `floor` in `direction`.
    pub fn check_in_direction(&self, floor: Floor, direction: Direction) -> (r: bool)
        requires
            floor.n_floors() == self@.n_floors,
        ensures
            r == self@.pending_in_direction(floor.value() as int, direction),
    {
        proof {
            use_type_invariant(self);
            use_type_invariant(&floor);
        }
        let f = floor.get();
        let (lo, hi) = match direction {
            Direction::Up => (f + 1, self.n_floors),
            Direction::Down => (0, f),
        };
        let mut g: usize = lo;
        while g < hi
            invariant
                self.map@.has_len(self.n_floors as nat),
                lo <= g <= hi <= self.n_floors,
                f == floor.value(),
                forall|h: int| self@.beyond(f as int, direction, h) <==> lo <= h < hi,
                forall|h: int| lo <= h < g ==> !#[trigger] self@.wants(h, direction),
            decreases hi - g,
        {
            if self.map.get(Button::Cab, g) || self.map.get(Button::Hall(direction), g) {
                assert(self@.beyond(f as int, direction, g as int) && self@.wants(g as int, direction));
                return true;
            }
            g = g + 1;
        }
        false
    }

    /// Tells whether a call of any button is pending strictly beyond `floor`
    /// in `direction`.
    pub fn check_any_in_direction(&self, floor: Floor, direction: Direction) -> (r: bool)
        requires
            floor.n_floors() == self@.n_floors,
        ensures
            r == self@.any_in_direction(floor.value() as int, direction),
    {
        proof {
            use_type_invariant(self);
            use_type_invariant(&floor);
        }
        let f = floor.get();
        let (lo, hi) = match direction {
            Direction::Up => (f + 1, self.n_floors),
            Direction::Down => (0, f),
        };
        let mut g: usize = lo;
        while g < hi
            invariant
                self.map@.has_len(self.n_floors as nat),
                lo <= g <= hi <= self.n_floors,
                f == floor.value(),
                forall|h: int| self@.beyond(f as int, direction, h) <==> lo <= h < hi,
                forall|h: int| lo <= h < g ==> !#[trigger] self@.any_at(h),
            decreases hi - g,
        {
            if self.any_at(g) {
                assert(self@.beyond(f as int, direction, g as int) && self@.any_at(g as int));
                return true;
            }
            g = g + 1;
        }
        false
    }

    fn any_at(&self, g: usize) -> (r: bool)
        requires
            g < self@.n_floors,
        ensures
            r == self@.any_at(g as int),
    {
        proof {
            use_type_invariant(self);
        }
        self.map.get(Button::Cab, g) || self.map.get(Button::Hall(Direction::Up), g)
            || self.map.get(Button::Hall(Direction::Down), g)
    }

    /// The lowest floor with a pending call, with the first button pending
    /// there (cab, then hall up, then hall down); `None` where no call is
    /// pending.
    pub fn check_for_any(&self) -> (r: Option<(Floor, Button)>)
        ensures
            r is None <==> forall|g: int| 0 <= g < self@.n_floors ==> !#[trigger] self@.any_at(g),
            r matches Some((f, b)) ==> {
                &&& f.n_floors() == self@.n_floors
                &&& self@.any_at(f.value() as int)
                &&& forall|g: int| 0 <= g < f.value() ==> !#[trigger] self@.any_at(g)
                &&& b == self@.first_button_at(f.value() as int)
            },
    {
        proof {
            use_type_invariant(self);
        }
        let n = self.n_floors;
        let mut g: usize = 0;
        while g < n
            invariant
                self.map@.has_len(n as nat),
                n == self@.n_floors,
                g <= n,
                forall|h: int| 0 <= h < g ==> !#[trigger] self@.any_at(h),
            decreases n - g,
        {
            let floor = Floor::from_value(g, n).unwrap();
            if self.any_at(g) {
                assert(self@.any_at(g as int));
            }
            if self.map.get(Button::Cab, g) {
                return Some((floor, Button::Cab));
            }
            if self.map.get(Button::Hall(Direction::Up), g) {
                return Some((floor, Button::Hall(Direction::Up)));
            }
            if self.map.get(Button::Hall(Direction::Down), g) {
                return Some((floor, Button::Hall(Direction::Down)));
            }
            g = g + 1;
        }
        None
    }

    /// Number of pending calls, over all buttons and floors.
    pub fn number_of_requests(&self) -> (r: usize)
        ensures
            r == self@.count(),
    {
        proof {
            use_type_invariant(self);
        }
        let n = self.n_floors;
        let ghost p = self@.pending;
        let mut n_requests: usize = 0;
        let mut i: usize = 0;
        while i < n
            invariant
                p == self@.pending,
                p.has_len(n as nat),
                3 * n <= usize::MAX,
                i <= n,
                n_requests == count_true(p.cab.take(i as int)) + count_true(p.hall_up.take(i as int))
                    + count_true(p.hall_down.take(i as int)),
                n_requests <= 3 * i,
            decreases n - i,
        {
            proof {
                lemma_count_true_step(p.cab, i as int);
                lemma_count_true_step(p.hall_up, i as int);
                lemma_count_true_step(p.hall_down, i as int);
            }
            if self.map.get(Button::Cab, i) {
                n_requests = n_requests + 1;
            }
            if self.map.get(Button::Hall(Direction::Up), i) {
                n_requests = n_requests + 1;
            }
            if self.map.get(Button::Hall(Direction::Down), i) {
                n_requests = n_requests + 1;
            }
            i = i + 1;
        }
        proof {
            assert(p.cab.take(n as int) =~= p.cab);
            assert(p.hall_up.take(n as int) =~= p.hall_up);
            assert(p.hall_down.take(n as int) =~= p.hall_down);
        }
        n_requests
    }

    /// The floors, lowest first, at which `button` is to be watched for a
    /// fresh press: those where its light is off and the call can be made.
    pub fn get_active_buttons(&self, button: Button) -> (r: Vec<Floor>)
        ensures
            forall|i: int|
                0 <= i < r.len() ==> {
                    &&& (#[trigger] r@[i]).n_floors() == self@.n_floors
                    &&& self@.watched(button, r@[i].value() as int)
                },
            forall|i: int, j: int| 0 <= i < j < r.len() ==> r@[i].value() < r@[j].value(),
            forall|f: int|
                #![trigger self@.watched(button, f)]
                self@.watched(button, f) ==> exists|i: int| 0 <= i < r.len() && r@[i].value() == f,
    {
        proof {
            use_type_invariant(self);
        }
        let n = self.n_floors;
        let mut floors: Vec<Floor> = Vec::new();
        let mut g: usize = 0;
        while g < n
            invariant
                self.active_buttons@.has_len(n as nat),
                n == self@.n_floors,
                g <= n,
                forall|i: int|
                    0 <= i < floors.len() ==> {
                        &&& (#[trigger] floors@[i]).n_floors() == n
                        &&& self@.watched(button, floors@[i].value() as int)
                        &&& floors@[i].value() < g
                    },
                forall|i: int, j: int|
                    0 <= i < j < floors.len() ==> floors@[i].value() < floors@[j].value(),
                forall|f: int|
                    #![trigger self@.watched(button, f)]
                    0 <= f < g && self@.watched(button, f) ==> exists|i: int|
                        0 <= i < floors.len() && floors@[i].value() == f,
            decreases n - g,
        {
            let callable = match button {
                Button::Hall(Direction::Up) => g + 1 < n,
                Button::Hall(Direction::Down) => g > 0,
                Button::Cab => true,
            };
            let ghost before = floors@;
            if callable && !self.active_buttons.get(button, g) {
                let floor = Floor::from_value(g, n).unwrap();
                floors.push(floor);
                assert(floors@[floors.len() - 1].value() == g);
            }
            assert forall|f: int|
                #![trigger self@.watched(button, f)]
                0 <= f < g + 1 && self@.watched(button, f) implies exists|i: int|
                    0 <= i < floors.len() && floors@[i].value() == f by {
                if f < g {
                    let i = choose|i: int| 0 <= i < before.len() && before[i].value() == f;
                    assert(floors@[i] == before[i]);
                } else {
                    assert(floors@[floors.len() - 1].value() == g);
                }
            }
            g = g + 1;
        }
        floors
    }

    /// Tells whether the light of `button` at `floor` is lit.
    pub fn light_is_on(&self, button: Button, floor: Floor) -> (r: bool)
        requires
            floor.n_floors() == self@.n_floors,
        ensures
            r == self@.is_lit(button, floor.value() as int),
    {
        proof {
            use_type_invariant(self);
            use_type_invariant(&floor);
        }
        self.active_buttons.get(button, floor.get())
    }

    /// Records the light of `button` at `floor`: `active` means that the
    /// light is off, so that the button is watched for a fresh press.
    pub fn update_active_button(&mut self, button: Button, floor: Floor, active: bool)
        requires
            floor.n_floors() == old(self)@.n_floors,
        ensures
            final(self)@ == old(self)@.with_light(button, floor.value() as int, !active),
            final(self)@.wf(),
    {
        proof {
            use_type_invariant(&*self);
            use_type_invariant(&floor);
        }
        self.active_buttons.set(button, floor.get(), !active);
    }
}

/// Recording a call makes it pending, serving it makes it no longer
/// pending, and serving a call that is not pending changes nothing.
pub proof fn lemma_add_then_clear(v: RequestsView, b: Button, f: int)
    requires
        v.wf(),
        0 <= f < v.n_floors,
    ensures
        v.added(b, f).is_pending(b, f),
        !v.added(b, f).cleared(b, f).is_pending(b, f),
        !v.is_pending(b, f) ==> v.cleared(b, f) == v,
{
    if !v.is_pending(b, f) {
        assert(v.pending.with(b, f, false) =~~= v.pending) by {
            assert(v.pending.row(b).update(f, false) =~= v.pending.row(b));
        }
    }
}

} // verus!
