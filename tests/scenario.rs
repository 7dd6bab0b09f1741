use elevator_sim::control::ControlSystem;
use elevator_sim::elevator::{Elevator, ElevatorAction, ElevatorEvent, ElevatorPhase};
use elevator_sim::floor::Floor;
use elevator_sim::messages::{
    ControlCommand, Direction, ElevatorCommand, ElevatorStatus, ElevatorToPassenger,
};
use elevator_sim::passenger::{Passenger, PassengerAction, PassengerEvent, PassengerState};

/// The reports among `out`, in order.
fn reports(out: &[ElevatorAction]) -> Vec<ElevatorStatus> {
    out.iter()
        .filter_map(|a| match a {
            ElevatorAction::Report(s) => Some(s.clone()),
            _ => None,
        })
        .collect()
}

#[test]
fn happy_path_passenger_from_one_to_three() {
    let mut control = ControlSystem::new(4, 3);
    let mut elevators: Vec<Elevator> = (0..3).map(|i| Elevator::new(i, 4, 2)).collect();
    let relay = Floor::new(1);
    let mut p = Passenger::new(0, 1, 3);

    // The passenger asks the relay of floor 1 to go up.
    let request = match p.request() {
        PassengerAction::Request(r) => r,
        other => panic!("unexpected {:?}", other),
    };
    let forwarded = relay.forward(request);
    assert_eq!(forwarded, ControlCommand::Request { floor: 1, direction: Direction::Up });

    // Elevator 0 is sent to floor 1.
    let (id, cmd) = control.handle_request(forwarded);
    assert_eq!((id, cmd), (0, ElevatorCommand::MoveTo(1)));
    let out = elevators[0].step(ElevatorEvent::Command(cmd));
    assert!(matches!(out[0], ElevatorAction::Announce(1)));
    let arrived = reports(&out);
    assert_eq!(
        control.handle_status(&arrived[0]),
        Some((0, ElevatorCommand::OpenDoor))
    );

    // The passenger sees the elevator and asks to enter.
    let enter = p.step(PassengerEvent::Arrived(0));
    let enter_msg = match enter[0] {
        PassengerAction::Send(0, m) => m,
        other => panic!("unexpected {:?}", other),
    };

    // The door opens.
    elevators[0].step(ElevatorEvent::Command(ElevatorCommand::OpenDoor));
    let out = elevators[0].step(ElevatorEvent::DwellElapsed);
    for s in reports(&out) {
        if let Some((e, c)) = control.handle_status(&s) {
            // The second open command finds the door open and changes nothing.
            assert!(elevators[e].step(ElevatorEvent::Command(c)).is_empty());
        }
    }

    // The passenger enters within the acknowledgement timeout.
    let out = elevators[0].step(ElevatorEvent::Passenger(enter_msg));
    assert!(matches!(out[0], ElevatorAction::Notify(0, ElevatorToPassenger::YouEntered)));
    p.step(PassengerEvent::Message(ElevatorToPassenger::YouEntered));
    assert_eq!(p.state(), PassengerState::InElevator(0));

    // After settling in, the passenger presses 3.
    let press = p.step(PassengerEvent::SettleElapsed);
    let press_msg = match press[0] {
        PassengerAction::Send(0, m) => m,
        other => panic!("unexpected {:?}", other),
    };
    elevators[0].step(ElevatorEvent::Passenger(press_msg));

    // The boarding window runs out and the door closes.
    elevators[0].step(ElevatorEvent::WindowElapsed);
    let out = elevators[0].step(ElevatorEvent::DwellElapsed);
    assert!(matches!(out[0], ElevatorAction::Report(ElevatorStatus::DoorClosed(0, 1))));
    assert!(matches!(out[1], ElevatorAction::Notify(0, ElevatorToPassenger::YouCanChooseFloor)));
    p.step(PassengerEvent::Message(ElevatorToPassenger::YouCanChooseFloor));
    assert_eq!(elevators[0].phase(), ElevatorPhase::CollectingButtons);

    // The button window ends: the dispatcher records {3}, then moves the idle
    // elevator there.
    let out = elevators[0].step(ElevatorEvent::WindowElapsed);
    let rs = reports(&out);
    assert_eq!(rs.len(), 2);
    assert_eq!(control.handle_status(&rs[0]), None);
    assert_eq!(control.pending_targets(0), &vec![3]);
    let next = control.handle_status(&rs[1]);
    assert_eq!(next, Some((0, ElevatorCommand::MoveTo(3))));
    assert!(control.pending_targets(0).is_empty());

    // At floor 3 the door opens and the passenger is let out.
    elevators[0].step(ElevatorEvent::Command(ElevatorCommand::MoveTo(3)));
    elevators[0].step(ElevatorEvent::Command(ElevatorCommand::OpenDoor));
    let out = elevators[0].step(ElevatorEvent::DwellElapsed);
    assert!(matches!(out[1], ElevatorAction::Notify(0, ElevatorToPassenger::YouCanExit(3))));
    p.step(PassengerEvent::Message(ElevatorToPassenger::YouCanExit(3)));
    assert!(p.is_done());
    assert_eq!(p.current_floor(), 3);
    assert_eq!(elevators[1].current_floor(), 0);
    assert_eq!(elevators[2].current_floor(), 0);
}
