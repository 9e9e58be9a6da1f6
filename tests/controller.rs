use elevator::carriage::CarriageData;
use elevator::controller::ElevatorController;
use elevator::fsm::{
    ElevatorFSMInputs, ElevatorFSMOutputs, ElevatorFSMStates, ElevatorStateMachine, NextDestTodo,
    TransitionImpossible,
};
use elevator::pulley::{PulleyAction, PulleyActor};
use elevator::vocabulary::PulleyVocabulary;

#[test]
fn carriage_is_powered_when_switched_on() {
    let mut elevator_fsm = ElevatorStateMachine::new();
    let _ = elevator_fsm.consume(&ElevatorFSMInputs::SwitchOn);
    assert_eq!(elevator_fsm.state(), ElevatorFSMStates::ReadyForService);
}

#[test]
fn carriage_is_at_ground_floor_when_started() {
    let carriage_data = CarriageData::new(8);
    let floor_setting: Vec<(i64, i64)> = vec![(0, 5), (5, 10), (10, 15), (15, 20)];
    let pulley = PulleyActor;
    let mut pulley_data = pulley.pre_start(floor_setting);

    let mut carriage = ElevatorController::new(carriage_data);
    let maybe_output = carriage.run_machine(&ElevatorFSMInputs::SwitchOn);

    assert_eq!(
        carriage.current_state(),
        ElevatorFSMStates::ReadyForService,
        "Carriage State = READY"
    );
    assert_eq!(
        maybe_output.1.unwrap(),
        ElevatorFSMOutputs::SettleAtGroundFloor,
        "FSM Output = SettleAtGroundFloor"
    );
    assert_eq!(carriage.already_at_floor(0), true, "Carriage current floor = 0");

    let actions = pulley.handle(PulleyVocabulary::PowerOff, &mut pulley_data);
    assert_eq!(actions, vec![PulleyAction::PowerDown]);
}

#[test]
fn when_passenger_dest_is_notified_to_stationery_carriage_then_it_begins_to_move() {
    let carriage_data = CarriageData::new(8);
    let mut carriage = ElevatorController::new(carriage_data);
    let _ = carriage.run_machine(&ElevatorFSMInputs::SwitchOn);
    let _ = carriage.run_machine(&ElevatorFSMInputs::MoveTo(2));
    assert_eq!(carriage.current_state(), ElevatorFSMStates::Moving);
}

#[test]
fn carriage_keeps_moving_when_new_passenger_destination_arrives() {
    let carriage_data = CarriageData::new(8);
    let mut carriage = ElevatorController::new(carriage_data);
    let _ = carriage.run_machine(&ElevatorFSMInputs::SwitchOn);
    let _ = carriage.run_machine(&ElevatorFSMInputs::MoveTo(2));

    let maybe_output = carriage.run_machine(&ElevatorFSMInputs::MoveTo(5));
    assert_eq!(maybe_output.0, ElevatorFSMStates::Moving);
    assert_eq!(maybe_output.1, Some(ElevatorFSMOutputs::Enqueue(5)));
}

#[test]
fn pairs_outside_the_table_are_refused_without_change() {
    let mut machine = ElevatorStateMachine::new();
    assert_eq!(machine.consume(&ElevatorFSMInputs::DoorClosed), Err(TransitionImpossible));
    assert_eq!(machine.consume(&ElevatorFSMInputs::Stop), Err(TransitionImpossible));
    assert_eq!(machine.consume(&ElevatorFSMInputs::MoveTo(3)), Err(TransitionImpossible));
    assert_eq!(machine.state(), ElevatorFSMStates::PoweredOff);
}

#[test]
fn shutting_down_accepts_ground_floor_move_without_output() {
    let mut machine = ElevatorStateMachine::new();
    assert_eq!(
        machine.consume(&ElevatorFSMInputs::SwitchOn),
        Ok(Some(ElevatorFSMOutputs::SettleAtGroundFloor))
    );
    assert_eq!(
        machine.consume(&ElevatorFSMInputs::SwitchOff),
        Ok(Some(ElevatorFSMOutputs::SettleAtGroundFloor))
    );
    assert_eq!(machine.state(), ElevatorFSMStates::UnavailableForService);
    assert_eq!(
        machine.consume(&ElevatorFSMInputs::MoveTo(4)),
        Ok(Some(ElevatorFSMOutputs::SettleAtGroundFloor))
    );
    assert_eq!(machine.state(), ElevatorFSMStates::ShuttingDown);
    assert_eq!(machine.consume(&ElevatorFSMInputs::MoveTo(0)), Ok(None));
    assert_eq!(machine.consume(&ElevatorFSMInputs::MoveTo(1)), Err(TransitionImpossible));
    assert_eq!(machine.state(), ElevatorFSMStates::ShuttingDown);
    assert_eq!(machine.consume(&ElevatorFSMInputs::Stop), Ok(Some(ElevatorFSMOutputs::ExitPassengers)));
    assert_eq!(machine.state(), ElevatorFSMStates::NonOperational);
    assert_eq!(machine.consume(&ElevatorFSMInputs::DoorClosed), Ok(None));
    assert_eq!(machine.state(), ElevatorFSMStates::PoweredOff);
}

#[test]
fn transition_and_output_tables_agree_on_door_cycle() {
    assert_eq!(
        ElevatorStateMachine::transition(&ElevatorFSMStates::Moving, &ElevatorFSMInputs::Stop),
        Some(ElevatorFSMStates::DoorIsOpen)
    );
    assert_eq!(
        ElevatorStateMachine::output(&ElevatorFSMStates::Moving, &ElevatorFSMInputs::Stop),
        Some(ElevatorFSMOutputs::Reached)
    );
    assert_eq!(
        ElevatorStateMachine::transition(&ElevatorFSMStates::DoorIsOpen, &ElevatorFSMInputs::DoorClosed),
        Some(ElevatorFSMStates::ReadyForService)
    );
    assert_eq!(
        ElevatorStateMachine::output(&ElevatorFSMStates::DoorIsOpen, &ElevatorFSMInputs::DoorClosed),
        Some(ElevatorFSMOutputs::CheckNextDest)
    );
    assert_eq!(
        ElevatorStateMachine::transition(&ElevatorFSMStates::Moving, &ElevatorFSMInputs::DoorClosed),
        None
    );
}

#[test]
fn next_destination_policy_prefers_emergency_over_queue() {
    let mut controller = ElevatorController::new(CarriageData::new(8));
    controller.add_to_destinations_queue(5);
    controller.add_to_destinations_queue(2);
    assert_eq!(controller.on_checking_next_dest(), Some(NextDestTodo::AllFineGotoNextPassenger(5)));
    assert_eq!(controller.carriage().destination(), Some(5));
    controller.on_emergency();
    assert_eq!(controller.on_checking_next_dest(), Some(NextDestTodo::EmergencyAtGroundFloorAlready));
    assert_eq!(controller.on_arrival(), 5);
    assert_eq!(controller.on_checking_next_dest(), Some(NextDestTodo::EmergencyGotoGroundFloorNow));
    assert_eq!(controller.carriage().destination(), Some(0));
    // The request for floor 2 is still waiting, never served.
    assert!(controller.carriage().any_destination_in_queue());
}

#[test]
fn next_destination_policy_with_nothing_waiting() {
    let mut controller = ElevatorController::new(CarriageData::new(8));
    assert_eq!(controller.on_checking_next_dest(), None);
    assert_eq!(controller.set_next_destination(3), 0);
    assert_eq!(controller.carriage().destination(), Some(3));
}
