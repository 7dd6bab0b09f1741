use elevator_sim::door::DoorState;
use elevator_sim::elevator::{
    Elevator, ElevatorAction, ElevatorError, ElevatorEvent, ElevatorPhase, ElevatorState,
};
use elevator_sim::messages::{ElevatorCommand, ElevatorStatus, ElevatorToPassenger, PassengerToElevator};

fn command(e: &mut Elevator, c: ElevatorCommand) -> Vec<ElevatorAction> {
    e.step(ElevatorEvent::Command(c))
}

fn enter(e: &mut Elevator, p: usize) -> Vec<ElevatorAction> {
    e.step(ElevatorEvent::Passenger(PassengerToElevator::Enter(p)))
}

fn press(e: &mut Elevator, f: u8) -> Vec<ElevatorAction> {
    e.step(ElevatorEvent::Passenger(PassengerToElevator::PressedButton(f)))
}

/// An elevator of a four-floor building with its door open at `floor`.
fn boarding_at(floor: u8) -> Elevator {
    let mut e = Elevator::new(0, 4, 2);
    command(&mut e, ElevatorCommand::MoveTo(floor));
    command(&mut e, ElevatorCommand::OpenDoor);
    e.step(ElevatorEvent::DwellElapsed);
    assert_eq!(e.phase(), ElevatorPhase::Boarding);
    e
}

#[test]
fn new_elevator_is_idle_at_ground_floor() {
    let e = Elevator::new(5, 4, 2);
    assert_eq!(e.id(), 5);
    assert_eq!(e.current_floor(), 0);
    assert_eq!(e.state(), ElevatorState::IdleAtFloor(0));
    assert_eq!(e.door_state(), DoorState::Closed);
    assert_eq!(e.phase(), ElevatorPhase::Ready);
    assert!(e.passengers().is_empty());
}

#[test]
fn move_announces_and_reports_arrival() {
    let mut e = Elevator::new(1, 4, 2);
    let out = command(&mut e, ElevatorCommand::MoveTo(2));
    assert_eq!(out.len(), 2);
    assert!(matches!(out[0], ElevatorAction::Announce(2)));
    assert!(matches!(out[1], ElevatorAction::Report(ElevatorStatus::ArrivedAtFloor(1, 2))));
    assert_eq!(e.current_floor(), 2);
    assert_eq!(e.state(), ElevatorState::IdleAtFloor(2));
}

#[test]
fn invalid_move_above_top_floor_changes_nothing() {
    let mut e = Elevator::new(0, 4, 2);
    let out = command(&mut e, ElevatorCommand::MoveTo(4));
    assert!(out.is_empty());
    assert_eq!(e.current_floor(), 0);
    assert_eq!(e.state(), ElevatorState::IdleAtFloor(0));
    assert_eq!(e.move_to(200), Err(ElevatorError::InvalidFloor));
    assert_eq!(e.current_floor(), 0);
}

#[test]
fn move_with_open_door_is_refused() {
    let mut e = boarding_at(1);
    assert_eq!(e.move_to(3), Err(ElevatorError::DoorBusy));
    let out = command(&mut e, ElevatorCommand::MoveTo(3));
    assert!(out.is_empty());
    assert_eq!(e.current_floor(), 1);
    assert_eq!(e.door_state(), DoorState::Open);
}

#[test]
fn move_to_top_floor_is_allowed() {
    let mut e = Elevator::new(0, 4, 2);
    assert_eq!(e.move_to(3), Ok(()));
    assert_eq!(e.current_floor(), 3);
}

#[test]
fn door_open_reports_then_lets_riders_out() {
    let mut e = boarding_at(1);
    enter(&mut e, 4);
    enter(&mut e, 6);
    command(&mut e, ElevatorCommand::CloseDoor);
    e.step(ElevatorEvent::DwellElapsed);
    e.step(ElevatorEvent::WindowElapsed);
    command(&mut e, ElevatorCommand::MoveTo(3));
    command(&mut e, ElevatorCommand::OpenDoor);
    assert_eq!(e.door_state(), DoorState::Opening);
    let out = e.step(ElevatorEvent::DwellElapsed);
    assert_eq!(out.len(), 4);
    assert!(matches!(out[0], ElevatorAction::Report(ElevatorStatus::DoorOpened(0, 3))));
    assert!(matches!(out[1], ElevatorAction::Notify(4, ElevatorToPassenger::YouCanExit(3))));
    assert!(matches!(out[2], ElevatorAction::Notify(6, ElevatorToPassenger::YouCanExit(3))));
    assert!(matches!(out[3], ElevatorAction::Report(ElevatorStatus::ArrivedAtFloor(0, 3))));
    assert!(e.passengers().is_empty());
    assert_eq!(e.state(), ElevatorState::StoppedAtFloor(3));
    assert_eq!(e.door_state(), DoorState::Open);
}

#[test]
fn capacity_scenario_third_entry_dropped() {
    let mut e = boarding_at(1);
    let a = enter(&mut e, 0);
    assert_eq!(a.len(), 1);
    assert!(matches!(a[0], ElevatorAction::Notify(0, ElevatorToPassenger::YouEntered)));
    let b = enter(&mut e, 1);
    assert_eq!(b.len(), 2);
    assert!(matches!(b[0], ElevatorAction::Notify(1, ElevatorToPassenger::YouEntered)));
    assert!(matches!(
        b[1],
        ElevatorAction::Report(ElevatorStatus::ElevatorReadyToCloseTheDoor(0))
    ));
    let c = enter(&mut e, 2);
    assert!(c.is_empty());
    assert_eq!(e.passengers(), &vec![0, 1]);
    assert_eq!(e.phase(), ElevatorPhase::AwaitingClose);
    let ready_count = [a, b, c]
        .iter()
        .flatten()
        .filter(|x| matches!(x, ElevatorAction::Report(ElevatorStatus::ElevatorReadyToCloseTheDoor(_))))
        .count();
    assert_eq!(ready_count, 1);
}

#[test]
fn roster_never_exceeds_capacity() {
    let mut e = boarding_at(2);
    for p in 0..10 {
        enter(&mut e, p);
        assert!(e.passengers().len() <= 2);
    }
    assert_eq!(e.passengers().len(), 2);
}

#[test]
fn open_door_never_while_moving() {
    let mut e = Elevator::new(0, 4, 2);
    let events = [
        ElevatorEvent::Command(ElevatorCommand::MoveTo(2)),
        ElevatorEvent::Command(ElevatorCommand::OpenDoor),
        ElevatorEvent::DwellElapsed,
        ElevatorEvent::Command(ElevatorCommand::MoveTo(0)),
        ElevatorEvent::Passenger(PassengerToElevator::Enter(1)),
        ElevatorEvent::WindowElapsed,
        ElevatorEvent::DwellElapsed,
        ElevatorEvent::WindowElapsed,
        ElevatorEvent::Command(ElevatorCommand::MoveTo(0)),
    ];
    for ev in events {
        e.step(ev);
        if e.door_state() == DoorState::Open {
            assert!(!matches!(e.state(), ElevatorState::Moving(_, _)));
        }
    }
    assert_eq!(e.current_floor(), 0);
}

#[test]
fn second_open_door_while_boarding_is_ignored() {
    let mut e = boarding_at(1);
    let out = command(&mut e, ElevatorCommand::OpenDoor);
    assert!(out.is_empty());
    assert_eq!(e.phase(), ElevatorPhase::Boarding);
    assert_eq!(e.door_state(), DoorState::Open);
}

#[test]
fn boarding_window_elapsing_closes_the_door() {
    let mut e = boarding_at(1);
    enter(&mut e, 3);
    let out = e.step(ElevatorEvent::WindowElapsed);
    assert!(out.is_empty());
    assert_eq!(e.door_state(), DoorState::Closing);
    let out = e.step(ElevatorEvent::DwellElapsed);
    assert_eq!(out.len(), 2);
    assert!(matches!(out[0], ElevatorAction::Report(ElevatorStatus::DoorClosed(0, 1))));
    assert!(matches!(out[1], ElevatorAction::Notify(3, ElevatorToPassenger::YouCanChooseFloor)));
    assert_eq!(e.phase(), ElevatorPhase::CollectingButtons);
}

#[test]
fn entry_with_door_closed_gets_no_ack() {
    let mut e = Elevator::new(0, 4, 2);
    assert!(enter(&mut e, 1).is_empty());
    assert!(e.passengers().is_empty());
}

#[test]
fn no_button_press_sends_no_target() {
    let mut e = boarding_at(2);
    command(&mut e, ElevatorCommand::CloseDoor);
    e.step(ElevatorEvent::DwellElapsed);
    let out = e.step(ElevatorEvent::WindowElapsed);
    assert_eq!(out.len(), 1);
    assert!(matches!(out[0], ElevatorAction::Report(ElevatorStatus::ElevatorIdle(0, 2))));
    assert!(!out
        .iter()
        .any(|a| matches!(a, ElevatorAction::Report(ElevatorStatus::PassengerTarget(_, _)))));
    assert_eq!(e.current_floor(), 2);
    assert_eq!(e.state(), ElevatorState::IdleAtFloor(2));
    assert_eq!(e.phase(), ElevatorPhase::Ready);
}

#[test]
fn pressed_buttons_are_reported_after_window() {
    let mut e = boarding_at(1);
    enter(&mut e, 0);
    press(&mut e, 3);
    command(&mut e, ElevatorCommand::CloseDoor);
    e.step(ElevatorEvent::DwellElapsed);
    press(&mut e, 2);
    let out = e.step(ElevatorEvent::WindowElapsed);
    assert_eq!(out.len(), 2);
    match &out[0] {
        ElevatorAction::Report(ElevatorStatus::PassengerTarget(id, floors)) => {
            assert_eq!(*id, 0);
            assert_eq!(floors, &vec![3, 2]);
        }
        other => panic!("unexpected {:?}", other),
    }
    assert!(matches!(out[1], ElevatorAction::Report(ElevatorStatus::ElevatorIdle(0, 1))));
}

#[test]
fn press_while_idle_is_ignored() {
    let mut e = Elevator::new(0, 4, 2);
    press(&mut e, 3);
    command(&mut e, ElevatorCommand::OpenDoor);
    e.step(ElevatorEvent::DwellElapsed);
    command(&mut e, ElevatorCommand::CloseDoor);
    e.step(ElevatorEvent::DwellElapsed);
    let out = e.step(ElevatorEvent::WindowElapsed);
    assert_eq!(out.len(), 1);
}

#[test]
fn close_door_on_closed_door_does_nothing() {
    let mut e = Elevator::new(0, 4, 2);
    assert!(!e.close_door());
    assert_eq!(e.phase(), ElevatorPhase::Ready);
    assert!(e.open_door());
    assert!(!e.open_door());
}
