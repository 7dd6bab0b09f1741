//! One elevator: its motion, its door, its roster of passengers, and the
//! boarding and button-collection windows that follow each door movement.
use vstd::prelude::*;

use crate::door::{Door, DoorState};
use crate::messages::{ElevatorCommand, ElevatorStatus, ElevatorToPassenger, PassengerToElevator};

verus! {

/// How the car moves.
#[derive(Clone, Copy, Debug, PartialEq, Eq, Structural)]
pub enum ElevatorState {
    IdleAtFloor(u8),
    Moving(u8, u8),
    StoppedAtFloor(u8),
}

/// What the elevator is busy with, and so what it waits for next.
///
/// `Ready`: a command. `Opening` and `Closing`: the end of the door's dwell.
/// `Boarding`: passengers' messages and commands, until the boarding window
/// elapses. `AwaitingClose`: the roster is full and the elevator waits for the
/// `CloseDoor` command. `CollectingButtons`: passengers' button presses, until
/// the button-collection window elapses.
#[derive(Clone, Copy, Debug, PartialEq, Eq, Structural)]
pub enum ElevatorPhase {
    Ready,
    Opening,
    Boarding,
    AwaitingClose,
    Closing,
    CollectingButtons,
}

/// What can happen to an elevator.
#[derive(Clone, Copy, Debug, PartialEq, Eq, Structural)]
pub enum ElevatorEvent {
    Command(ElevatorCommand),
    Passenger(PassengerToElevator),
    DwellElapsed,
    WindowElapsed,
}

/// A message that an elevator sends out.
#[derive(Clone, Debug)]
pub enum ElevatorAction {
    /// A status report to the dispatcher.
    Report(ElevatorStatus),
    /// Tell the passengers waiting on this floor that the elevator is there.
    Announce(u8),
    /// A message to the passenger with this id.
    Notify(usize, ElevatorToPassenger),
}

/// Why a move was refused.
#[derive(Clone, Copy, Debug, PartialEq, Eq, Structural)]
pub enum ElevatorError {
    /// The target floor is outside the building.
    InvalidFloor,
    /// The door is not closed.
    DoorBusy,
}

/// The abstract state of an elevator.
pub struct ElevatorView {
    pub id: usize,
    pub floor_count: u8,
    pub capacity: usize,
    pub current_floor: u8,
    pub state: ElevatorState,
    pub door: DoorState,
    pub phase: ElevatorPhase,
    pub passengers: Seq<usize>,
    pub pressed: Seq<u8>,
}

/// The door state that goes with each phase.
pub open spec fn door_of(phase: ElevatorPhase) -> DoorState {
    match phase {
        ElevatorPhase::Ready => DoorState::Closed,
        ElevatorPhase::Opening => DoorState::Opening,
        ElevatorPhase::Boarding => DoorState::Open,
        ElevatorPhase::AwaitingClose => DoorState::Open,
        ElevatorPhase::Closing => DoorState::Closing,
        ElevatorPhase::CollectingButtons => DoorState::Closed,
    }
}

/// The same message to each of the passengers, in roster order.
pub open spec fn notices(passengers: Seq<usize>, msg: ElevatorToPassenger) -> Seq<ElevatorAction> {
    passengers.map_values(|p: usize| ElevatorAction::Notify(p, msg))
}

/// `a` reports to the dispatcher that elevator `id` collected these floors.
pub open spec fn reports_targets(a: ElevatorAction, id: usize, floors: Seq<u8>) -> bool {
    a matches ElevatorAction::Report(ElevatorStatus::PassengerTarget(i, v)) && i == id && v@
        == floors
}

impl ElevatorView {
    /// What holds of an elevator between any two events: it stands on a floor
    /// of the building, never carries more than its capacity, is never caught
    /// moving, and its door matches its phase.
    pub open spec fn inv(self) -> bool {
        &&& self.floor_count >= 2
        &&& self.current_floor < self.floor_count
        &&& self.passengers.len() <= self.capacity
        &&& !(self.state is Moving)
        &&& self.door == door_of(self.phase)
    }

    /// An elevator as it is built: empty, idle at floor 0, door closed.
    pub open spec fn initial(id: usize, floor_count: u8, capacity: usize) -> ElevatorView {
        ElevatorView {
            id,
            floor_count,
            capacity,
            current_floor: 0,
            state: ElevatorState::IdleAtFloor(0),
            door: DoorState::Closed,
            phase: ElevatorPhase::Ready,
            passengers: Seq::empty(),
            pressed: Seq::empty(),
        }
    }

    /// The elevator after it starts to open its door.
    pub open spec fn opening(self) -> ElevatorView {
        ElevatorView { door: DoorState::Opening, phase: ElevatorPhase::Opening, ..self }
    }

    /// The elevator after it starts to close its door.
    pub open spec fn closing(self) -> ElevatorView {
        ElevatorView { door: DoorState::Closing, phase: ElevatorPhase::Closing, ..self }
    }

    /// The elevator after it moved to `floor`.
    pub open spec fn moved(self, floor: u8) -> ElevatorView {
        ElevatorView { current_floor: floor, state: ElevatorState::IdleAtFloor(floor), ..self }
    }
}

/// One step of the elevator: on `event`, the elevator `pre` becomes `post` and
/// sends `out`, in that order. An event that the table does not name leaves
/// the elevator as it is and sends nothing.
pub open spec fn next(
    pre: ElevatorView,
    event: ElevatorEvent,
    post: ElevatorView,
    out: Seq<ElevatorAction>,
) -> bool {
    let id = pre.id;
    let f = pre.current_floor;
    let unchanged = post == pre && out.len() == 0;
    match event {
        // A move is made from rest only, and only to a floor of the building.
        ElevatorEvent::Command(ElevatorCommand::MoveTo(t)) => if pre.phase == ElevatorPhase::Ready
            && t < pre.floor_count {
            &&& post == pre.moved(t)
            &&& out == seq![
                ElevatorAction::Announce(t),
                ElevatorAction::Report(ElevatorStatus::ArrivedAtFloor(id, t)),
            ]
        } else {
            unchanged
        },
        ElevatorEvent::Command(ElevatorCommand::OpenDoor) => if pre.phase == ElevatorPhase::Ready {
            post == pre.opening() && out.len() == 0
        } else {
            unchanged
        },
        ElevatorEvent::Command(ElevatorCommand::CloseDoor) => if pre.phase
            == ElevatorPhase::Boarding || pre.phase == ElevatorPhase::AwaitingClose {
            post == pre.closing() && out.len() == 0
        } else {
            unchanged
        },
        // Boarding: a passenger enters while there is room; the one who fills
        // the car ends the boarding window.
        ElevatorEvent::Passenger(PassengerToElevator::Enter(p)) => if pre.phase
            == ElevatorPhase::Boarding && pre.passengers.len() < pre.capacity {
            let ps = pre.passengers.push(p);
            let ack = ElevatorAction::Notify(p, ElevatorToPassenger::YouEntered);
            if ps.len() == pre.capacity {
                &&& post == ElevatorView {
                    passengers: ps,
                    phase: ElevatorPhase::AwaitingClose,
                    ..pre
                }
                &&& out == seq![
                    ack,
                    ElevatorAction::Report(ElevatorStatus::ElevatorReadyToCloseTheDoor(id)),
                ]
            } else {
                post == ElevatorView { passengers: ps, ..pre } && out == seq![ack]
            }
        } else {
            unchanged
        },
        // Button presses are kept from the door opening to the end of the
        // button-collection window.
        ElevatorEvent::Passenger(PassengerToElevator::PressedButton(t)) => if pre.phase
            == ElevatorPhase::Boarding || pre.phase == ElevatorPhase::AwaitingClose || pre.phase
            == ElevatorPhase::CollectingButtons {
            post == ElevatorView { pressed: pre.pressed.push(t), ..pre } && out.len() == 0
        } else {
            unchanged
        },
        // The door is open: the riders are let out, then boarding begins.
        ElevatorEvent::DwellElapsed => if pre.phase == ElevatorPhase::Opening {
            &&& post == ElevatorView {
                door: DoorState::Open,
                state: ElevatorState::StoppedAtFloor(f),
                phase: ElevatorPhase::Boarding,
                passengers: Seq::empty(),
                ..pre
            }
            &&& out == seq![ElevatorAction::Report(ElevatorStatus::DoorOpened(id, f))] + notices(
                pre.passengers,
                ElevatorToPassenger::YouCanExit(f),
            ) + seq![ElevatorAction::Report(ElevatorStatus::ArrivedAtFloor(id, f))]
        } else if pre.phase == ElevatorPhase::Closing {
            // The door is closed: the riders are asked for their floors.
            &&& post == ElevatorView {
                door: DoorState::Closed,
                phase: ElevatorPhase::CollectingButtons,
                ..pre
            }
            &&& out == seq![ElevatorAction::Report(ElevatorStatus::DoorClosed(id, f))] + notices(
                pre.passengers,
                ElevatorToPassenger::YouCanChooseFloor,
            )
        } else {
            unchanged
        },
        ElevatorEvent::WindowElapsed => if pre.phase == ElevatorPhase::Boarding {
            // The boarding window ran out before the car was full.
            post == pre.closing() && out.len() == 0
        } else if pre.phase == ElevatorPhase::CollectingButtons {
            let idle = ElevatorAction::Report(ElevatorStatus::ElevatorIdle(id, f));
            &&& post == ElevatorView {
                state: ElevatorState::IdleAtFloor(f),
                phase: ElevatorPhase::Ready,
                pressed: Seq::empty(),
                ..pre
            }
            &&& if pre.pressed.len() == 0 {
                out == seq![idle]
            } else {
                out.len() == 2 && reports_targets(out[0], id, pre.pressed) && out[1] == idle
            }
        } else {
            unchanged
        },
    }
}

/// `views` is a run of an elevator: each view follows from the one before on
/// the event of the same index, sending the actions of that index.
pub open spec fn is_run(
    views: Seq<ElevatorView>,
    events: Seq<ElevatorEvent>,
    outs: Seq<Seq<ElevatorAction>>,
) -> bool {
    &&& views.len() == events.len() + 1
    &&& outs.len() == events.len()
    &&& forall|i: int|
        0 <= i < events.len() ==> #[trigger] next(views[i], events[i], views[i + 1], outs[i])
}

/// A step keeps the invariant, the elevator's id, its building and its
/// capacity.
pub proof fn lemma_next_keeps_inv(
    pre: ElevatorView,
    event: ElevatorEvent,
    post: ElevatorView,
    out: Seq<ElevatorAction>,
)
    requires
        pre.inv(),
        next(pre, event, post, out),
    ensures
        post.inv(),
        post.id == pre.id,
        post.floor_count == pre.floor_count,
        post.capacity == pre.capacity,
{
}

/// Every view of a run that starts from a new elevator meets the invariant
/// and keeps the elevator's capacity.
pub proof fn lemma_run_keeps_inv(
    views: Seq<ElevatorView>,
    events: Seq<ElevatorEvent>,
    outs: Seq<Seq<ElevatorAction>>,
    i: int,
)
    requires
        views.len() > 0,
        views[0].inv(),
        is_run(views, events, outs),
        0 <= i < views.len(),
    ensures
        views[i].inv(),
        views[i].capacity == views[0].capacity,
    decreases i,
{
    if i > 0 {
        let k = i - 1;
        lemma_run_keeps_inv(views, events, outs, k);
        assert(next(views[k], events[k], views[k + 1], outs[k]));
        lemma_next_keeps_inv(views[k], events[k], views[k + 1], outs[k]);
    }
}

/// An elevator never carries more passengers than its capacity, at any point
/// of any run that starts from its construction.
pub proof fn lemma_roster_within_capacity(
    views: Seq<ElevatorView>,
    events: Seq<ElevatorEvent>,
    outs: Seq<Seq<ElevatorAction>>,
    id: usize,
    floor_count: u8,
    capacity: usize,
)
    requires
        floor_count >= 2,
        views.len() > 0,
        views[0] == ElevatorView::initial(id, floor_count, capacity),
        is_run(views, events, outs),
    ensures
        forall|i: int| 0 <= i < views.len() ==> (#[trigger] views[i]).passengers.len() <= capacity,
{
    assert forall|i: int| 0 <= i < views.len() implies (#[trigger] views[i]).passengers.len()
        <= capacity by {
        lemma_run_keeps_inv(views, events, outs, i);
    }
}

/// An elevator's door is never open while the car moves, at any point of any
/// run that starts from its construction.
pub proof fn lemma_open_door_never_moving(
    views: Seq<ElevatorView>,
    events: Seq<ElevatorEvent>,
    outs: Seq<Seq<ElevatorAction>>,
    id: usize,
    floor_count: u8,
    capacity: usize,
)
    requires
        floor_count >= 2,
        views.len() > 0,
        views[0] == ElevatorView::initial(id, floor_count, capacity),
        is_run(views, events, outs),
    ensures
        forall|i: int|
            0 <= i < views.len() && (#[trigger] views[i]).door == DoorState::Open ==> !(
            views[i].state is Moving),
{
    assert forall|i: int| 0 <= i < views.len() && (#[trigger] views[i]).door == DoorState::Open implies !(
    views[i].state is Moving) by {
        lemma_run_keeps_inv(views, events, outs, i);
    }
}

/// An elevator of the building.
pub struct Elevator {
    id: usize,
    floor_count: u8,
    capacity: usize,
    current_floor: u8,
    state: ElevatorState,
    door: Door,
    phase: ElevatorPhase,
    passengers: Vec<usize>,
    pressed: Vec<u8>,
}

impl View for Elevator {
    type V = ElevatorView;

    closed spec fn view(&self) -> ElevatorView {
        ElevatorView {
            id: self.id,
            floor_count: self.floor_count,
            capacity: self.capacity,
            current_floor: self.current_floor,
            state: self.state,
            door: self.door@,
            phase: self.phase,
            passengers: self.passengers@,
            pressed: self.pressed@,
        }
    }
}

/// Appends to `out` the message `msg` for each passenger of `passengers`.
fn append_notices(out: &mut Vec<ElevatorAction>, passengers: &Vec<usize>, msg: ElevatorToPassenger)
    ensures
        final(out)@ == old(out)@ + notices(passengers@, msg),
{
    let mut i: usize = 0;
    while i < passengers.len()
        invariant
            i <= passengers@.len(),
            out@ == old(out)@ + notices(passengers@.take(i as int), msg),
        decreases passengers@.len() - i,
    {
        proof {
            assert(passengers@.take(i + 1) =~= passengers@.take(i as int).push(passengers@[i as int]));
        }
        out.push(ElevatorAction::Notify(passengers[i], msg));
        i = i + 1;
        proof {
            assert(out@ =~= old(out)@ + notices(passengers@.take(i as int), msg));
        }
    }
    proof {
        assert(passengers@.take(i as int) =~= passengers@);
    }
}

impl Elevator {
    /// The elevator's invariant.
    pub open spec fn wf(&self) -> bool {
        self@.inv()
    }

    /// A new elevator with this id, in a building of `floor_count` floors,
    /// carrying at most `capacity` passengers.
    pub fn new(id: usize, floor_count: u8, capacity: usize) -> (e: Elevator)
        requires
            floor_count >= 2,
        ensures
            e@ == ElevatorView::initial(id, floor_count, capacity),
            e.wf(),
    {
        Elevator {
            id,
            floor_count,
            capacity,
            current_floor: 0,
            state: ElevatorState::IdleAtFloor(0),
            door: Door::new(),
            phase: ElevatorPhase::Ready,
            passengers: Vec::new(),
            pressed: Vec::new(),
        }
    }

    pub fn id(&self) -> (r: usize)
        ensures
            r == self@.id,
    {
        self.id
    }

    pub fn current_floor(&self) -> (r: u8)
        ensures
            r == self@.current_floor,
    {
        self.current_floor
    }

    pub fn state(&self) -> (r: ElevatorState)
        ensures
            r == self@.state,
    {
        self.state
    }

    pub fn door_state(&self) -> (r: DoorState)
        ensures
            r == self@.door,
    {
        self.door.state()
    }

    pub fn phase(&self) -> (r: ElevatorPhase)
        ensures
            r == self@.phase,
    {
        self.phase
    }

    /// The ids of the passengers on board, in the order they entered.
    pub fn passengers(&self) -> (r: &Vec<usize>)
        ensures
            r@ == self@.passengers,
    {
        &self.passengers
    }

    /// Moves the car to `floor`. Refused, with nothing changed, when the floor
    /// is outside the building or the door is not closed.
    pub fn move_to(&mut self, floor: u8) -> (r: Result<(), ElevatorError>)
        requires
            old(self).wf(),
        ensures
            final(self).wf(),
            floor >= old(self)@.floor_count ==> (r == Err::<(), ElevatorError>(
                ElevatorError::InvalidFloor,
            ) && final(self)@ == old(self)@),
            floor < old(self)@.floor_count && old(self)@.door != DoorState::Closed ==> (r == Err::<
                (),
                ElevatorError,
            >(ElevatorError::DoorBusy) && final(self)@ == old(self)@),
            floor < old(self)@.floor_count && old(self)@.door == DoorState::Closed ==> (r == Ok::<
                (),
                ElevatorError,
            >(()) && final(self)@ == old(self)@.moved(floor)),
    {
        if floor >= self.floor_count {
            return Err(ElevatorError::InvalidFloor);
        }
        if self.door.state() != DoorState::Closed {
            return Err(ElevatorError::DoorBusy);
        }
        self.state = ElevatorState::Moving(self.current_floor, floor);
        self.current_floor = floor;
        self.state = ElevatorState::IdleAtFloor(floor);
        Ok(())
    }

    /// Starts opening the door of a car at rest. Returns whether it started;
    /// in any other phase nothing changes.
    pub fn open_door(&mut self) -> (started: bool)
        requires
            old(self).wf(),
        ensures
            final(self).wf(),
            started == (old(self)@.phase == ElevatorPhase::Ready),
            started ==> final(self)@ == old(self)@.opening(),
            !started ==> final(self)@ == old(self)@,
    {
        if self.phase == ElevatorPhase::Ready {
            self.door.open();
            self.phase = ElevatorPhase::Opening;
            true
        } else {
            false
        }
    }

    /// Starts closing an open door. Returns whether it started; in any other
    /// phase nothing changes.
    pub fn close_door(&mut self) -> (started: bool)
        requires
            old(self).wf(),
        ensures
            final(self).wf(),
            started == (old(self)@.phase == ElevatorPhase::Boarding || old(self)@.phase
                == ElevatorPhase::AwaitingClose),
            started ==> final(self)@ == old(self)@.closing(),
            !started ==> final(self)@ == old(self)@,
    {
        if self.phase == ElevatorPhase::Boarding || self.phase == ElevatorPhase::AwaitingClose {
            self.door.close();
            self.phase = ElevatorPhase::Closing;
            true
        } else {
            false
        }
    }

    /// Handles `Enter(p)` during the boarding window.
    fn board(&mut self, p: usize) -> (out: Vec<ElevatorAction>)
        requires
            old(self).wf(),
            old(self)@.phase == ElevatorPhase::Boarding,
        ensures
            final(self).wf(),
            next(
                old(self)@,
                ElevatorEvent::Passenger(PassengerToElevator::Enter(p)),
                final(self)@,
                out@,
            ),
    {
        let mut out: Vec<ElevatorAction> = Vec::new();
        if self.passengers.len() >= self.capacity {
            return out;
        }
        self.passengers.push(p);
        out.push(ElevatorAction::Notify(p, ElevatorToPassenger::YouEntered));
        if self.passengers.len() == self.capacity {
            self.phase = ElevatorPhase::AwaitingClose;
            out.push(ElevatorAction::Report(ElevatorStatus::ElevatorReadyToCloseTheDoor(self.id)));
            proof {
                assert(out@ =~= seq![
                    ElevatorAction::Notify(p, ElevatorToPassenger::YouEntered),
                    ElevatorAction::Report(ElevatorStatus::ElevatorReadyToCloseTheDoor(self.id)),
                ]);
            }
        } else {
            proof {
                assert(out@ =~= seq![ElevatorAction::Notify(p, ElevatorToPassenger::YouEntered)]);
            }
        }
        out
    }

    /// The door has finished opening.
    fn finish_opening(&mut self) -> (out: Vec<ElevatorAction>)
        requires
            old(self).wf(),
            old(self)@.phase == ElevatorPhase::Opening,
        ensures
            final(self).wf(),
            next(old(self)@, ElevatorEvent::DwellElapsed, final(self)@, out@),
    {
        let f = self.current_floor;
        self.door.complete_dwell();
        self.state = ElevatorState::StoppedAtFloor(f);
        self.phase = ElevatorPhase::Boarding;
        let mut out: Vec<ElevatorAction> = Vec::new();
        out.push(ElevatorAction::Report(ElevatorStatus::DoorOpened(self.id, f)));
        append_notices(&mut out, &self.passengers, ElevatorToPassenger::YouCanExit(f));
        let ghost before = out@;
        out.push(ElevatorAction::Report(ElevatorStatus::ArrivedAtFloor(self.id, f)));
        proof {
            assert(out@ =~= before + seq![
                ElevatorAction::Report(ElevatorStatus::ArrivedAtFloor(self.id, f)),
            ]);
        }
        self.passengers = Vec::new();
        out
    }

    /// The door has finished closing.
    fn finish_closing(&mut self) -> (out: Vec<ElevatorAction>)
        requires
            old(self).wf(),
            old(self)@.phase == ElevatorPhase::Closing,
        ensures
            final(self).wf(),
            next(old(self)@, ElevatorEvent::DwellElapsed, final(self)@, out@),
    {
        self.door.complete_dwell();
        self.phase = ElevatorPhase::CollectingButtons;
        let mut out: Vec<ElevatorAction> = Vec::new();
        out.push(ElevatorAction::Report(ElevatorStatus::DoorClosed(self.id, self.current_floor)));
        append_notices(&mut out, &self.passengers, ElevatorToPassenger::YouCanChooseFloor);
        out
    }

    /// The button-collection window is over: the collected floors, if any,
    /// go to the dispatcher, and the elevator reports itself idle.
    fn finish_collecting(&mut self) -> (out: Vec<ElevatorAction>)
        requires
            old(self).wf(),
            old(self)@.phase == ElevatorPhase::CollectingButtons,
        ensures
            final(self).wf(),
            next(old(self)@, ElevatorEvent::WindowElapsed, final(self)@, out@),
    {
        let f = self.current_floor;
        let mut floors: Vec<u8> = Vec::new();
        std::mem::swap(&mut floors, &mut self.pressed);
        self.state = ElevatorState::IdleAtFloor(f);
        self.phase = ElevatorPhase::Ready;
        let mut out: Vec<ElevatorAction> = Vec::new();
        if floors.len() > 0 {
            out.push(ElevatorAction::Report(ElevatorStatus::PassengerTarget(self.id, floors)));
        }
        out.push(ElevatorAction::Report(ElevatorStatus::ElevatorIdle(self.id, f)));
        out
    }

    /// Handles one event: the elevator takes its next state, and returns the
    /// messages to send, in order.
    pub fn step(&mut self, event: ElevatorEvent) -> (out: Vec<ElevatorAction>)
        requires
            old(self).wf(),
        ensures
            final(self).wf(),
            next(old(self)@, event, final(self)@, out@),
    {
        match event {
            ElevatorEvent::Command(ElevatorCommand::MoveTo(t)) => {
                let mut out: Vec<ElevatorAction> = Vec::new();
                if self.phase == ElevatorPhase::Ready {
                    if let Ok(()) = self.move_to(t) {
                        out.push(ElevatorAction::Announce(t));
                        out.push(ElevatorAction::Report(ElevatorStatus::ArrivedAtFloor(self.id, t)));
                        proof {
                            assert(out@ =~= seq![
                                ElevatorAction::Announce(t),
                                ElevatorAction::Report(ElevatorStatus::ArrivedAtFloor(self.id, t)),
                            ]);
                        }
                    }
                }
                out
            },
            ElevatorEvent::Command(ElevatorCommand::OpenDoor) => {
                self.open_door();
                Vec::new()
            },
            ElevatorEvent::Command(ElevatorCommand::CloseDoor) => {
                self.close_door();
                Vec::new()
            },
            ElevatorEvent::Passenger(PassengerToElevator::Enter(p)) => {
                if self.phase == ElevatorPhase::Boarding {
                    self.board(p)
                } else {
                    Vec::new()
                }
            },
            ElevatorEvent::Passenger(PassengerToElevator::PressedButton(t)) => {
                if self.phase == ElevatorPhase::Boarding || self.phase
                    == ElevatorPhase::AwaitingClose || self.phase
                    == ElevatorPhase::CollectingButtons {
                    self.pressed.push(t);
                }
                Vec::new()
            },
            ElevatorEvent::DwellElapsed => {
                if self.phase == ElevatorPhase::Opening {
                    self.finish_opening()
                } else if self.phase == ElevatorPhase::Closing {
                    self.finish_closing()
                } else {
                    Vec::new()
                }
            },
            ElevatorEvent::WindowElapsed => {
                if self.phase == ElevatorPhase::Boarding {
                    self.close_door();
                    Vec::new()
                } else if self.phase == ElevatorPhase::CollectingButtons {
                    self.finish_collecting()
                } else {
                    Vec::new()
                }
            },
        }
    }
}

} // verus!
