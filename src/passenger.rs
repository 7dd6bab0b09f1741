//! A passenger: asks for an elevator on their floor, boards when one comes,
//! presses the button for their floor, and leaves when let out.
use vstd::prelude::*;

use rand::Rng;

use crate::messages::{Direction, ElevatorToPassenger, FloorCommand, PassengerToElevator};

verus! {

/// Where a passenger stands in their trip.
#[derive(Clone, Copy, Debug, PartialEq, Eq, Structural)]
pub enum PassengerState {
    /// Waiting on this floor for an elevator.
    IdleAtFloor(u8),
    /// Has asked this elevator to let them in, and waits for the answer.
    EnteringElevator(usize),
    /// Rides in this elevator.
    InElevator(usize),
    /// Has been let out: the trip is over.
    ExitingElevator,
}

/// What can happen to a passenger.
#[derive(Clone, Copy, Debug, PartialEq, Eq, Structural)]
pub enum PassengerEvent {
    /// This elevator arrived on the passenger's floor.
    Arrived(usize),
    /// A message from the elevator the passenger deals with.
    Message(ElevatorToPassenger),
    /// No answer came within the acknowledgement timeout.
    AckTimeout,
    /// The settle delay after boarding is over.
    SettleElapsed,
}

/// A message that a passenger sends out.
#[derive(Clone, Copy, Debug, PartialEq, Eq, Structural)]
pub enum PassengerAction {
    /// A request to the relay of the passenger's floor.
    Request(FloorCommand),
    /// A message to the elevator with this id.
    Send(usize, PassengerToElevator),
}

/// The abstract state of a passenger.
pub struct PassengerView {
    pub id: usize,
    pub current_floor: u8,
    pub target_floor: u8,
    pub state: PassengerState,
    pub pressed: bool,
}

/// The way from floor `from` to floor `to`.
pub open spec fn direction_of(from: u8, to: u8) -> Direction {
    if to > from {
        Direction::Up
    } else {
        Direction::Down
    }
}

/// How far along a trip a state is.
pub open spec fn stage(s: PassengerState) -> int {
    match s {
        PassengerState::IdleAtFloor(_) => 0,
        PassengerState::EnteringElevator(_) => 1,
        PassengerState::InElevator(_) => 2,
        PassengerState::ExitingElevator => 3,
    }
}

impl PassengerView {
    /// A passenger never travels to the floor they are on.
    pub open spec fn inv(self) -> bool {
        self.state !is ExitingElevator ==> self.current_floor != self.target_floor
    }

    /// The request this passenger makes on their floor.
    pub open spec fn request(self) -> PassengerAction {
        PassengerAction::Request(
            FloorCommand::Request {
                floor: self.current_floor,
                direction: direction_of(self.current_floor, self.target_floor),
            },
        )
    }
}

/// One step of a passenger: on `event`, `pre` becomes `post` and sends `out`.
/// An event that the table does not name changes nothing and sends nothing.
pub open spec fn passenger_next(
    pre: PassengerView,
    event: PassengerEvent,
    post: PassengerView,
    out: Seq<PassengerAction>,
) -> bool {
    let unchanged = post == pre && out.len() == 0;
    match pre.state {
        // An elevator came: ask it to let us in.
        PassengerState::IdleAtFloor(_) => match event {
            PassengerEvent::Arrived(e) => {
                &&& post == PassengerView { state: PassengerState::EnteringElevator(e), ..pre }
                &&& out == seq![PassengerAction::Send(e, PassengerToElevator::Enter(pre.id))]
            },
            _ => unchanged,
        },
        PassengerState::EnteringElevator(e) => match event {
            PassengerEvent::Message(ElevatorToPassenger::YouEntered) => {
                &&& post == PassengerView {
                    state: PassengerState::InElevator(e),
                    pressed: false,
                    ..pre
                }
                &&& out.len() == 0
            },
            // Anything but the acknowledgement, or none in time: ask again.
            PassengerEvent::Message(_) | PassengerEvent::AckTimeout => {
                &&& post == PassengerView {
                    state: PassengerState::IdleAtFloor(pre.current_floor),
                    ..pre
                }
                &&& out == seq![pre.request()]
            },
            _ => unchanged,
        },
        PassengerState::InElevator(e) => match event {
            PassengerEvent::SettleElapsed => if !pre.pressed {
                &&& post == PassengerView { pressed: true, ..pre }
                &&& out == seq![
                    PassengerAction::Send(e, PassengerToElevator::PressedButton(pre.target_floor)),
                ]
            } else {
                unchanged
            },
            PassengerEvent::Message(ElevatorToPassenger::YouCanExit(f)) => {
                &&& post == PassengerView {
                    state: PassengerState::ExitingElevator,
                    current_floor: f,
                    ..pre
                }
                &&& out.len() == 0
            },
            _ => unchanged,
        },
        PassengerState::ExitingElevator => unchanged,
    }
}

/// `views` is a run of a passenger: each view follows from the one before on
/// the event of the same index, sending the actions of that index.
pub open spec fn is_trip(
    views: Seq<PassengerView>,
    events: Seq<PassengerEvent>,
    outs: Seq<Seq<PassengerAction>>,
) -> bool {
    &&& views.len() == events.len() + 1
    &&& outs.len() == events.len()
    &&& forall|i: int|
        0 <= i < events.len() ==> #[trigger] passenger_next(views[i], events[i], views[i + 1], outs[i])
}

/// A passenger in an elevator at step `i` of a trip that began waiting on a
/// floor was acknowledged at some earlier step.
pub proof fn lemma_boarding_was_acknowledged(
    views: Seq<PassengerView>,
    events: Seq<PassengerEvent>,
    outs: Seq<Seq<PassengerAction>>,
    i: int,
)
    requires
        is_trip(views, events, outs),
        views[0].state is IdleAtFloor,
        0 <= i < views.len(),
        views[i].state is InElevator,
    ensures
        exists|j: int|
            0 <= j < i && views[j].state is EnteringElevator && #[trigger] events[j]
                == PassengerEvent::Message(ElevatorToPassenger::YouEntered),
    decreases i,
{
    let k = i - 1;
    assert(passenger_next(views[k], events[k], views[k + 1], outs[k]));
    if views[k].state is InElevator {
        lemma_boarding_was_acknowledged(views, events, outs, k);
        let j = choose|j: int|
            0 <= j < k && views[j].state is EnteringElevator && #[trigger] events[j]
                == PassengerEvent::Message(ElevatorToPassenger::YouEntered);
        assert(events[j] == PassengerEvent::Message(ElevatorToPassenger::YouEntered));
    } else {
        assert(events[k] == PassengerEvent::Message(ElevatorToPassenger::YouEntered));
    }
}

/// A passenger who has left an elevator at step `i` is still out at every
/// later step `j`.
pub proof fn lemma_exit_is_final(
    views: Seq<PassengerView>,
    events: Seq<PassengerEvent>,
    outs: Seq<Seq<PassengerAction>>,
    i: int,
    j: int,
)
    requires
        is_trip(views, events, outs),
        0 <= i <= j < views.len(),
        views[i].state is ExitingElevator,
    ensures
        views[j].state is ExitingElevator,
    decreases j - i,
{
    if j > i {
        let k = j - 1;
        lemma_exit_is_final(views, events, outs, i, k);
        assert(passenger_next(views[k], events[k], views[k + 1], outs[k]));
    }
}

/// A passenger's states along a trip that began waiting on a floor go
/// forward from waiting, to entering, to riding, to having left, except that
/// an entry that is not acknowledged goes back to waiting; a passenger rides
/// only after an acknowledgement, and once out stays out.
pub proof fn lemma_trip_order(
    views: Seq<PassengerView>,
    events: Seq<PassengerEvent>,
    outs: Seq<Seq<PassengerAction>>,
)
    requires
        is_trip(views, events, outs),
        views[0].state is IdleAtFloor,
    ensures
        forall|i: int|
            0 <= i < events.len() ==> stage(views[i].state) <= stage(#[trigger] views[i + 1].state)
                || (views[i].state is EnteringElevator && views[i + 1].state is IdleAtFloor),
        forall|i: int|
            0 <= i < views.len() && (#[trigger] views[i]).state is InElevator ==> exists|j: int|
                0 <= j < i && views[j].state is EnteringElevator && #[trigger] events[j]
                    == PassengerEvent::Message(ElevatorToPassenger::YouEntered),
        forall|i: int, j: int|
            0 <= i <= j < views.len() && (#[trigger] views[i]).state is ExitingElevator ==> (
            #[trigger] views[j]).state is ExitingElevator,
{
    assert forall|i: int| 0 <= i < events.len() implies stage(views[i].state) <= stage(
        #[trigger] views[i + 1].state,
    ) || (views[i].state is EnteringElevator && views[i + 1].state is IdleAtFloor) by {
        assert(passenger_next(views[i], events[i], views[i + 1], outs[i]));
    }
    assert forall|i: int| 0 <= i < views.len() && (#[trigger] views[i]).state is InElevator implies exists|
        j: int,
    |
        0 <= j < i && views[j].state is EnteringElevator && #[trigger] events[j]
            == PassengerEvent::Message(ElevatorToPassenger::YouEntered) by {
        lemma_boarding_was_acknowledged(views, events, outs, i);
    }
    assert forall|i: int, j: int|
        0 <= i <= j < views.len() && (#[trigger] views[i]).state is ExitingElevator implies (
        #[trigger] views[j]).state is ExitingElevator by {
        lemma_exit_is_final(views, events, outs, i, j);
    }
}

/// The way from floor `from` to floor `to`: up when `to` is higher, else down.
pub fn direction(from: u8, to: u8) -> (d: Direction)
    ensures
        d == direction_of(from, to),
{
    if to > from {
        Direction::Up
    } else {
        Direction::Down
    }
}

/// A passenger of the building.
#[derive(Clone, Copy, Debug)]
pub struct Passenger {
    id: usize,
    current_floor: u8,
    target_floor: u8,
    state: PassengerState,
    pressed: bool,
}

impl View for Passenger {
    type V = PassengerView;

    closed spec fn view(&self) -> PassengerView {
        PassengerView {
            id: self.id,
            current_floor: self.current_floor,
            target_floor: self.target_floor,
            state: self.state,
            pressed: self.pressed,
        }
    }
}

impl Passenger {
    /// The passenger's invariant.
    pub open spec fn wf(&self) -> bool {
        self@.inv()
    }

    /// A passenger with this id, waiting on `current_floor` to travel to
    /// `target_floor`.
    pub fn new(id: usize, current_floor: u8, target_floor: u8) -> (p: Passenger)
        requires
            current_floor != target_floor,
        ensures
            p.wf(),
            p@ == (PassengerView {
                id,
                current_floor,
                target_floor,
                state: PassengerState::IdleAtFloor(current_floor),
                pressed: false,
            }),
    {
        Passenger {
            id,
            current_floor,
            target_floor,
            state: PassengerState::IdleAtFloor(current_floor),
            pressed: false,
        }
    }

    pub fn id(&self) -> (r: usize)
        ensures
            r == self@.id,
    {
        self.id
    }

    pub fn current_floor(&self) -> (r: u8)
        ensures
            r == self@.current_floor,
    {
        self.current_floor
    }

    pub fn target_floor(&self) -> (r: u8)
        ensures
            r == self@.target_floor,
    {
        self.target_floor
    }

    pub fn state(&self) -> (r: PassengerState)
        ensures
            r == self@.state,
    {
        self.state
    }

    /// Whether the passenger has pressed the button for their floor.
    pub fn has_pressed(&self) -> (r: bool)
        ensures
            r == self@.pressed,
    {
        self.pressed
    }

    /// Whether the trip is over.
    pub fn is_done(&self) -> (r: bool)
        ensures
            r == (self@.state is ExitingElevator),
    {
        match self.state {
            PassengerState::ExitingElevator => true,
            _ => false,
        }
    }

    /// The request to send to the relay of the passenger's floor, in the
    /// direction of their target.
    pub fn request(&self) -> (a: PassengerAction)
        ensures
            a == self@.request(),
    {
        PassengerAction::Request(
            FloorCommand::Request {
                floor: self.current_floor,
                direction: direction(self.current_floor, self.target_floor),
            },
        )
    }

    /// Handles one event: the passenger takes their next state, and returns
    /// the messages to send, in order.
    pub fn step(&mut self, event: PassengerEvent) -> (out: Vec<PassengerAction>)
        requires
            old(self).wf(),
        ensures
            final(self).wf(),
            passenger_next(old(self)@, event, final(self)@, out@),
    {
        let mut out: Vec<PassengerAction> = Vec::new();
        match self.state {
            PassengerState::IdleAtFloor(_) => {
                if let PassengerEvent::Arrived(e) = event {
                    self.state = PassengerState::EnteringElevator(e);
                    out.push(PassengerAction::Send(e, PassengerToElevator::Enter(self.id)));
                }
            },
            PassengerState::EnteringElevator(e) => match event {
                PassengerEvent::Message(ElevatorToPassenger::YouEntered) => {
                    self.state = PassengerState::InElevator(e);
                    self.pressed = false;
                },
                PassengerEvent::Message(_) | PassengerEvent::AckTimeout => {
                    self.state = PassengerState::IdleAtFloor(self.current_floor);
                    out.push(self.request());
                },
                _ => {},
            },
            PassengerState::InElevator(e) => match event {
                PassengerEvent::SettleElapsed => {
                    if !self.pressed {
                        self.pressed = true;
                        out.push(
                            PassengerAction::Send(
                                e,
                                PassengerToElevator::PressedButton(self.target_floor),
                            ),
                        );
                    }
                },
                PassengerEvent::Message(ElevatorToPassenger::YouCanExit(f)) => {
                    self.state = PassengerState::ExitingElevator;
                    self.current_floor = f;
                },
                _ => {},
            },
            PassengerState::ExitingElevator => {},
        }
        proof {
            if out@.len() == 1 {
                assert(out@ =~= seq![out@[0]]);
            }
        }
        out
    }
}

/// Relies on rand's `thread_rng().gen_range(0..n)`: a value drawn from
/// `0..n`, which must not be empty.
#[verifier::external_body]
fn draw_below(n: u8) -> (r: u8)
    requires
        n > 0,
    ensures
        r < n,
{
    rand::thread_rng().gen_range(0..n)
}

/// The floor that the draw `draw`, taken from `0..floor_count - 1`, stands
/// for among the floors other than `current`: the draws below `current` stand
/// for themselves, the others for the floor above them.
pub fn target_from_draw(current: u8, draw: u8) -> (t: u8)
    requires
        draw < u8::MAX,
    ensures
        t == if draw < current {
            draw
        } else {
            (draw + 1) as u8
        },
        t != current,
{
    if draw < current {
        draw
    } else {
        draw + 1
    }
}

/// A floor of a building of `floor_count` floors, drawn at random.
pub fn random_floor(floor_count: u8) -> (f: u8)
    requires
        floor_count > 0,
    ensures
        f < floor_count,
{
    draw_below(floor_count)
}

/// A floor of a building of `floor_count` floors other than `current`,
/// drawn at random.
pub fn pick_target_floor(current: u8, floor_count: u8) -> (t: u8)
    requires
        floor_count >= 2,
        current < floor_count,
    ensures
        t < floor_count,
        t != current,
{
    let draw = draw_below(floor_count - 1);
    target_from_draw(current, draw)
}

} // verus!
