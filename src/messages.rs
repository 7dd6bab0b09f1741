//! The messages that the actors of the building exchange.
use vstd::prelude::*;

verus! {

/// The way a passenger wants to travel from the floor they wait on.
#[derive(Clone, Copy, Debug, PartialEq, Eq, Structural)]
pub enum Direction {
    Up,
    Down,
}

/// A command from the dispatcher to one elevator.
#[derive(Clone, Copy, Debug, PartialEq, Eq, Structural)]
pub enum ElevatorCommand {
    MoveTo(u8),
    OpenDoor,
    CloseDoor,
}

/// A request that reaches the dispatcher, tagged with the floor it comes from.
#[derive(Clone, Copy, Debug, PartialEq, Eq, Structural)]
pub enum ControlCommand {
    Request { floor: u8, direction: Direction },
}

/// A request that a passenger hands to the relay of the floor they wait on.
#[derive(Clone, Copy, Debug, PartialEq, Eq, Structural)]
pub enum FloorCommand {
    Request { floor: u8, direction: Direction },
}

/// The notice, broadcast on one floor, that an elevator has arrived there.
#[derive(Clone, Copy, Debug, PartialEq, Eq, Structural)]
pub enum ElevatorArrived {
    Elevator(usize),
}

/// A message from a passenger to an elevator.
#[derive(Clone, Copy, Debug, PartialEq, Eq, Structural)]
pub enum PassengerToElevator {
    Enter(usize),
    PressedButton(u8),
}

/// A message from an elevator to one passenger.
#[derive(Clone, Copy, Debug, PartialEq, Eq, Structural)]
pub enum ElevatorToPassenger {
    YouEntered,
    YouCanExit(u8),
    YouCanChooseFloor,
}

/// A status report from an elevator to the dispatcher. The `usize` fields are
/// elevator ids, the `u8` fields floors.
#[derive(Clone, Debug)]
pub enum ElevatorStatus {
    DoorOpened(usize, u8),
    DoorClosed(usize, u8),
    ArrivedAtFloor(usize, u8),
    TaskCompleted(usize),
    PassengerCount(usize),
    PassengerTarget(usize, Vec<u8>),
    ElevatorReadyToCloseTheDoor(usize),
    ElevatorIdle(usize, u8),
}

} // verus!
