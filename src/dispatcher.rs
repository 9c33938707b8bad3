use vstd::prelude::*;

use crate::direction::Direction;
use crate::floor::Floor;
use crate::message::Message;
use crate::state::State;

verus! {

/// The numbers that a fleet is started with.
#[derive(Debug, Clone, Copy, PartialEq, Eq, Structural)]
pub struct Config {
    pub n_elevators: usize,
    pub n_floors: usize,
}

/// The dispatcher's last word from one car.
#[derive(Debug, Clone, Copy, PartialEq, Eq, Structural)]
pub struct TaskInfo {
    pub id: usize,
    pub floor: Floor,
    pub state: State,
    pub n_requests: usize,
}

pub open spec fn state_weight(state: State) -> nat {
    match state {
        State::Idle => 0,
        State::Moving(_) => 1,
        State::Still(_) => 3,
    }
}

/// A car is on its way for a call in `direction` when it is idle or already
/// heads that way.
pub open spec fn heads(state: State, direction: Direction) -> bool {
    match state {
        State::Idle => true,
        State::Moving(d) => d == direction,
        State::Still(d) => d == direction,
    }
}

pub open spec fn distance(a: Floor, b: Floor) -> nat {
    if a.value() >= b.value() {
        (a.value() - b.value()) as nat
    } else {
        (b.value() - a.value()) as nat
    }
}

/// The price of sending a car with the given state, distance, workload and
/// heading to a call: idle cars are cheapest, standing ones dearest;
/// distance and workload count most, a wrong heading least.
pub open spec fn spec_cost(
    state: State,
    floor_difference: nat,
    n_requests: nat,
    in_direction: bool,
) -> nat {
    state_weight(state) + floor_difference + 2 * n_requests + if in_direction {
        0nat
    } else {
        1nat
    }
}

impl TaskInfo {
    /// What it costs to send this car to a hall call at `floor` for
    /// `direction`.
    pub open spec fn cost(self, floor: Floor, direction: Direction) -> nat {
        spec_cost(self.state, distance(floor, self.floor), self.n_requests as nat, heads(self.state, direction))
    }

    /// A car known only by its id, idle at `floor` with no work.
    pub fn new(id: usize, floor: Floor) -> (r: TaskInfo)
        ensures
            r == (TaskInfo { id, floor, state: State::Idle, n_requests: 0 }),
    {
        TaskInfo { id, floor, state: State::Idle, n_requests: 0 }
    }

    pub fn cost_function(&self, floor: Floor, direction: Direction) -> (r: u128)
        ensures
            r == self.cost(floor, direction),
    {
        let in_direction = match self.state {
            State::Idle => true,
            State::Moving(dir) => direction == dir,
            State::Still(dir) => direction == dir,
        };
        let (a, b) = (floor.get(), self.floor.get());
        let floor_difference = if a >= b {
            a - b
        } else {
            b - a
        };
        Self::cost_function_helper(self.state, floor_difference, self.n_requests, in_direction)
    }

    fn cost_function_helper(
        state: State,
        floor_difference: usize,
        n_requests: usize,
        in_direction: bool,
    ) -> (r: u128)
        ensures
            r == spec_cost(state, floor_difference as nat, n_requests as nat, in_direction),
    {
        let state_value: u128 = match state {
            State::Idle => 0,
            State::Moving(..) => 1,
            State::Still(..) => 3,
        };
        let mismatch: u128 = if in_direction {
            0
        } else {
            1
        };
        state_value + floor_difference as u128 + 2 * (n_requests as u128) + mismatch
    }
}

/// Index `i` holds the cheapest car for the call, and the first of the
/// cheapest.
pub open spec fn is_best(tasks: Seq<TaskInfo>, i: int, floor: Floor, direction: Direction) -> bool {
    &&& 0 <= i < tasks.len()
    &&& forall|j: int|
        0 <= j < tasks.len() ==> tasks[i].cost(floor, direction) <= #[trigger] tasks[j].cost(
            floor,
            direction,
        )
    &&& forall|j: int|
        0 <= j < i ==> tasks[i].cost(floor, direction) < #[trigger] tasks[j].cost(floor, direction)
}

/// Index `i` holds the first car with the given id.
pub open spec fn is_first_with_id(tasks: Seq<TaskInfo>, i: int, id: usize) -> bool {
    &&& 0 <= i < tasks.len()
    &&& tasks[i].id == id
    &&& forall|j: int| 0 <= j < i ==> #[trigger] tasks[j].id != id
}

pub open spec fn has_id(tasks: Seq<TaskInfo>, id: usize) -> bool {
    exists|i: int| 0 <= i < tasks.len() && #[trigger] tasks[i].id == id
}

/// Where the dispatcher sends a message that it received.
#[derive(Debug, Clone, Copy, PartialEq, Eq, Structural)]
pub enum Routing {
    /// To the car with this id.
    To(usize, Message),
    /// To every car.
    All(Message),
    /// Nowhere.
    Nothing,
}

/// The dispatcher's view of the fleet: one entry per live car, in the order
/// in which the cars were started.
pub struct Dispatcher {
    pub tasks: Vec<TaskInfo>,
}

impl Dispatcher {
    /// A fleet of `n_elevators` cars with ids `0..n_elevators`, all idle at
    /// `floor` as far as the dispatcher knows.
    pub fn new(n_elevators: usize, floor: Floor) -> (r: Dispatcher)
        ensures
            r.tasks@.len() == n_elevators,
            forall|i: int|
                0 <= i < n_elevators ==> #[trigger] r.tasks@[i] == (TaskInfo {
                    id: i as usize,
                    floor,
                    state: State::Idle,
                    n_requests: 0,
                }),
    {
        let mut tasks: Vec<TaskInfo> = Vec::new();
        let mut i: usize = 0;
        while i < n_elevators
            invariant
                i <= n_elevators,
                tasks@.len() == i,
                forall|j: int|
                    0 <= j < i ==> #[trigger] tasks@[j] == (TaskInfo {
                        id: j as usize,
                        floor,
                        state: State::Idle,
                        n_requests: 0,
                    }),
            decreases n_elevators - i,
        {
            tasks.push(TaskInfo::new(i, floor));
            i = i + 1;
        }
        Dispatcher { tasks }
    }

    pub fn is_empty(&self) -> (r: bool)
        ensures
            r == (self.tasks@.len() == 0),
    {
        self.tasks.len() == 0
    }

    /// The index of the car to serve a hall call at `floor` for `direction`:
    /// the cheapest, and of equally cheap cars the first. `None` for an
    /// empty fleet.
    pub fn select_car(&self, floor: Floor, direction: Direction) -> (r: Option<usize>)
        ensures
            r is None <==> self.tasks@.len() == 0,
            r matches Some(i) ==> is_best(self.tasks@, i as int, floor, direction),
    {
        let n = self.tasks.len();
        if n == 0 {
            return None;
        }
        let mut best: usize = 0;
        let mut min_cost = self.tasks[0].cost_function(floor, direction);
        let mut i: usize = 1;
        while i < n
            invariant
                n == self.tasks@.len(),
                0 <= best < i <= n,
                min_cost == self.tasks@[best as int].cost(floor, direction),
                forall|j: int|
                    0 <= j < i ==> min_cost <= #[trigger] self.tasks@[j].cost(floor, direction),
                forall|j: int|
                    0 <= j < best ==> min_cost < #[trigger] self.tasks@[j].cost(floor, direction),
            decreases n - i,
        {
            let cost = self.tasks[i].cost_function(floor, direction);
            if cost < min_cost {
                best = i;
                min_cost = cost;
            }
            i = i + 1;
        }
        Some(best)
    }

    /// Handles a message from a car: a hall call goes to the car chosen for
    /// it, a hall light to every car, and a car's report replaces the
    /// dispatcher's entry for that car.
    pub fn handle_message(&mut self, msg: Message) -> (r: Routing)
        ensures
            match msg {
                Message::Request { floor, direction } => {
                    &&& final(self).tasks@ == old(self).tasks@
                    &&& old(self).tasks@.len() == 0 ==> r == Routing::Nothing
                    &&& old(self).tasks@.len() > 0 ==> exists|i: int|
                        is_best(old(self).tasks@, i, floor, direction) && r == Routing::To(
                            old(self).tasks@[i].id,
                            msg,
                        )
                },
                Message::HallButtonLight { .. } => {
                    &&& final(self).tasks@ == old(self).tasks@
                    &&& r == Routing::All(msg)
                },
                Message::ElevatorInfo { task_id, floor, state, n_requests } => {
                    &&& r == Routing::Nothing
                    &&& !has_id(old(self).tasks@, task_id) ==> final(self).tasks@ == old(
                        self,
                    ).tasks@
                    &&& forall|i: int|
                        is_first_with_id(old(self).tasks@, i, task_id) ==> final(self).tasks@
                            == old(self).tasks@.update(
                            i,
                            TaskInfo { id: task_id, floor, state, n_requests },
                        )
                },
                Message::Shutdown => {
                    &&& final(self).tasks@ == old(self).tasks@
                    &&& r == Routing::Nothing
                },
            },
    {
        match msg {
            Message::Request { floor, direction } => match self.select_car(floor, direction) {
                Some(i) => Routing::To(self.tasks[i].id, msg),
                None => Routing::Nothing,
            },
            Message::HallButtonLight { .. } => Routing::All(msg),
            Message::ElevatorInfo { task_id, floor, state, n_requests } => {
                match self.find(task_id) {
                    Some(i) => {
                        self.tasks.set(i, TaskInfo { id: task_id, floor, state, n_requests });
                    },
                    None => {},
                }
                Routing::Nothing
            },
            Message::Shutdown => Routing::Nothing,
        }
    }

    /// The index of the first entry for the car with id `id`.
    fn find(&self, id: usize) -> (r: Option<usize>)
        ensures
            r is None <==> !has_id(self.tasks@, id),
            r matches Some(i) ==> is_first_with_id(self.tasks@, i as int, id),
    {
        let mut i: usize = 0;
        while i < self.tasks.len()
            invariant
                i <= self.tasks@.len(),
                forall|j: int| 0 <= j < i ==> #[trigger] self.tasks@[j].id != id,
            decreases self.tasks@.len() - i,
        {
            if self.tasks[i].id == id {
                return Some(i);
            }
            i = i + 1;
        }
        None
    }

    /// Drops a car that has stopped from the fleet.
    pub fn remove_task(&mut self, id: usize)
        ensures
            !has_id(old(self).tasks@, id) ==> final(self).tasks@ == old(self).tasks@,
            forall|i: int|
                is_first_with_id(old(self).tasks@, i, id) ==> final(self).tasks@ == old(
                    self,
                ).tasks@.remove(i),
    {
        if let Some(i) = self.find(id) {
            self.tasks.remove(i);
        }
    }
}

} // verus!
