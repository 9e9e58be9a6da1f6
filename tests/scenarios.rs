use std::collections::VecDeque;

use elevator::controller::{ElevatorController, LiftAction};
use elevator::fsm::ElevatorFSMStates;
use elevator::pulley::{PulleyAction, PulleyActor, PulleyData};
use elevator::service::PassengerLiftActor;
use elevator::vocabulary::{ElevatorVocabulary, PulleyVocabulary};

/// The controller and the pulley wired together in one thread: messages to
/// the controller are handled before pulley ticks, as when ticks are slow.
struct Installation {
    lift: PassengerLiftActor,
    controller: ElevatorController,
    pulley: PulleyActor,
    pulley_data: PulleyData,
    to_controller: VecDeque<ElevatorVocabulary>,
    to_pulley: VecDeque<PulleyVocabulary>,
    published: Vec<ElevatorVocabulary>,
    controller_stopped: bool,
    pulley_stopped: bool,
    pulley_moves: usize,
}

impl Installation {
    fn new(floors: u16, floor_setting: Vec<(i64, i64)>) -> Self {
        let lift = PassengerLiftActor;
        let pulley = PulleyActor;
        let controller = lift.pre_start(floors);
        let pulley_data = pulley.pre_start(floor_setting);
        Installation {
            lift,
            controller,
            pulley,
            pulley_data,
            to_controller: VecDeque::new(),
            to_pulley: VecDeque::new(),
            published: Vec::new(),
            controller_stopped: false,
            pulley_stopped: false,
            pulley_moves: 0,
        }
    }

    fn step_controller(&mut self) -> bool {
        if self.controller_stopped {
            self.to_controller.clear();
            return false;
        }
        let Some(m) = self.to_controller.pop_front() else { return false };
        for a in self.lift.handle(m, &mut self.controller) {
            match a {
                LiftAction::Publish(n) => self.published.push(n),
                LiftAction::ToPulley(p) => self.to_pulley.push_back(p),
                LiftAction::ToSelf(n) => self.to_controller.push_back(n),
                LiftAction::Terminate => self.controller_stopped = true,
            }
        }
        true
    }

    fn step_pulley(&mut self) -> bool {
        if self.pulley_stopped {
            self.to_pulley.clear();
            return false;
        }
        let Some(m) = self.to_pulley.pop_front() else { return false };
        for a in self.pulley.handle(m, &mut self.pulley_data) {
            match a {
                PulleyAction::Notify(n) => self.to_controller.push_back(n),
                PulleyAction::ScheduleTick => {
                    self.pulley_moves += 1;
                    self.to_pulley.push_back(PulleyVocabulary::PulleyHasMoved)
                }
                PulleyAction::PowerDown => self.pulley_stopped = true,
            }
        }
        true
    }

    /// Delivers `m` and runs until nothing is left to deliver; returns what
    /// was published meanwhile.
    fn send(&mut self, m: ElevatorVocabulary) -> Vec<ElevatorVocabulary> {
        self.to_controller.push_back(m);
        self.settle()
    }

    fn settle(&mut self) -> Vec<ElevatorVocabulary> {
        loop {
            if self.step_controller() {
                continue;
            }
            if self.step_pulley() {
                continue;
            }
            break;
        }
        std::mem::take(&mut self.published)
    }
}

fn scenario_floors() -> Vec<(i64, i64)> {
    vec![(0, 0), (0, 5), (0, 10), (0, 15)]
}

fn positions(ys: impl Iterator<Item = i64>) -> Vec<ElevatorVocabulary> {
    ys.map(|y| ElevatorVocabulary::CurrentCarriagePosn((0, y))).collect()
}

/// Power on, then a call to floor 3.
fn scenario_a(inst: &mut Installation) {
    assert_eq!(inst.send(ElevatorVocabulary::PowerOn), vec![ElevatorVocabulary::MoveToGroundFloor]);
    let mut expected = vec![ElevatorVocabulary::MovingTo(3)];
    expected.extend(positions(1..=15));
    expected.push(ElevatorVocabulary::OpenTheDoor(3));
    assert_eq!(inst.send(ElevatorVocabulary::MoveToFloor(3)), expected);
}

#[test]
fn scenario_a_power_on_then_call_to_top_floor() {
    let mut inst = Installation::new(8, scenario_floors());
    scenario_a(&mut inst);
    assert_eq!(inst.controller.current_state(), ElevatorFSMStates::DoorIsOpen);
    assert_eq!(inst.controller.carriage().where_is(), 3);
}

#[test]
fn scenario_b_door_closes_with_nothing_waiting() {
    let mut inst = Installation::new(8, scenario_floors());
    scenario_a(&mut inst);
    assert_eq!(inst.send(ElevatorVocabulary::DoorClosed(3)), vec![ElevatorVocabulary::Stay(3)]);
    assert_eq!(inst.controller.current_state(), ElevatorFSMStates::ReadyForService);
}

#[test]
fn scenario_c_power_off_with_door_open_descends_after_door_closes() {
    let mut inst = Installation::new(8, scenario_floors());
    scenario_a(&mut inst);
    // The door is open: the request is recorded and acted on once it closes.
    assert_eq!(inst.send(ElevatorVocabulary::PowerOff), vec![]);
    let mut expected = vec![ElevatorVocabulary::MoveToGroundFloor, ElevatorVocabulary::MovingTo(0)];
    expected.extend(positions((0..15).rev()));
    expected.push(ElevatorVocabulary::OpenTheDoor(0));
    assert_eq!(inst.send(ElevatorVocabulary::DoorClosed(3)), expected);
    assert!(inst.pulley_stopped);
    assert_eq!(
        inst.send(ElevatorVocabulary::DoorClosed(0)),
        vec![ElevatorVocabulary::ElevatorOutOfService]
    );
    assert!(inst.controller_stopped);
    assert_eq!(inst.controller.current_state(), ElevatorFSMStates::PoweredOff);
}

#[test]
fn scenario_d_out_of_range_call_keeps_destination() {
    let mut inst = Installation::new(8, scenario_floors());
    inst.send(ElevatorVocabulary::PowerOn);
    assert_eq!(inst.controller.carriage().destination(), Some(0));
    inst.send(ElevatorVocabulary::MoveToFloor(8));
    assert_eq!(inst.controller.carriage().destination(), Some(0));
}

#[test]
fn when_elevator_is_powered_on_then_the_carriage_must_move_to_floor_zero() {
    let mut inst = Installation::new(8, vec![(0, 5), (0, 10), (0, 15), (0, 20)]);
    assert_eq!(inst.send(ElevatorVocabulary::PowerOn), vec![ElevatorVocabulary::MoveToGroundFloor]);
    assert_eq!(
        inst.send(ElevatorVocabulary::PowerOff),
        vec![
            ElevatorVocabulary::MovingTo(0),
            ElevatorVocabulary::Stop(0),
            ElevatorVocabulary::OpenTheDoor(0),
        ]
    );
    assert_eq!(
        inst.send(ElevatorVocabulary::DoorClosed(0)),
        vec![ElevatorVocabulary::ElevatorOutOfService]
    );
    assert!(inst.pulley_stopped);
    assert!(inst.controller_stopped);
}

#[test]
fn when_passenger_calls_then_the_pulley_must_displace_the_carriage_as_needed() {
    let mut inst = Installation::new(8, scenario_floors());
    scenario_a(&mut inst);
    assert_eq!(inst.send(ElevatorVocabulary::DoorClosed(3)), vec![ElevatorVocabulary::Stay(3)]);

    let mut expected = vec![ElevatorVocabulary::MovingTo(0), ElevatorVocabulary::MovingTo(0)];
    expected.extend(positions((0..15).rev()));
    expected.push(ElevatorVocabulary::OpenTheDoor(0));
    assert_eq!(inst.send(ElevatorVocabulary::PowerOff), expected);

    assert_eq!(
        inst.send(ElevatorVocabulary::DoorClosed(0)),
        vec![ElevatorVocabulary::ElevatorOutOfService]
    );
}

#[test]
fn when_elev_is_moving_then_an_emergency_op_must_be_handled_after_reaching_dest() {
    let mut inst = Installation::new(8, scenario_floors());
    assert_eq!(inst.send(ElevatorVocabulary::PowerOn), vec![ElevatorVocabulary::MoveToGroundFloor]);

    inst.to_controller.push_back(ElevatorVocabulary::MoveToFloor(3));
    while inst.step_controller() {}
    // A few ticks of motion, then the emergency.
    for _ in 0..6 {
        inst.step_pulley();
        while inst.step_controller() {}
    }
    assert_eq!(inst.controller.current_state(), ElevatorFSMStates::Moving);
    // The trip to floor 3 is completed first.
    let mut trip = vec![ElevatorVocabulary::MovingTo(3)];
    trip.extend(positions(1..=15));
    trip.push(ElevatorVocabulary::OpenTheDoor(3));
    assert_eq!(inst.send(ElevatorVocabulary::PowerOff), trip);

    let mut expected = vec![ElevatorVocabulary::MoveToGroundFloor, ElevatorVocabulary::MovingTo(0)];
    expected.extend(positions((0..15).rev()));
    expected.push(ElevatorVocabulary::OpenTheDoor(0));
    assert_eq!(inst.send(ElevatorVocabulary::DoorClosed(3)), expected);

    assert_eq!(
        inst.send(ElevatorVocabulary::DoorClosed(0)),
        vec![ElevatorVocabulary::ElevatorOutOfService]
    );
}

#[test]
fn queued_requests_are_served_in_arrival_order() {
    let mut inst = Installation::new(8, scenario_floors());
    inst.send(ElevatorVocabulary::PowerOn);
    inst.to_controller.push_back(ElevatorVocabulary::MoveToFloor(3));
    inst.to_controller.push_back(ElevatorVocabulary::MoveToFloor(1));
    inst.to_controller.push_back(ElevatorVocabulary::MoveToFloor(2));
    inst.settle();
    let mut served = Vec::new();
    for _ in 0..3 {
        let at = inst.controller.carriage().where_is();
        for m in inst.send(ElevatorVocabulary::DoorClosed(at)) {
            if let ElevatorVocabulary::MovingTo(f) = m {
                served.push(f);
            }
        }
    }
    // Floor 2 is nearer to floor 3 than floor 1 is, yet floor 1, asked for
    // first, is served first.
    assert_eq!(served, vec![1, 2]);
    assert_eq!(inst.controller.carriage().where_is(), 2);
}

#[test]
fn emergency_discards_waiting_requests() {
    let mut inst = Installation::new(8, scenario_floors());
    inst.send(ElevatorVocabulary::PowerOn);
    inst.to_controller.push_back(ElevatorVocabulary::MoveToFloor(2));
    inst.to_controller.push_back(ElevatorVocabulary::MoveToFloor(3));
    inst.to_controller.push_back(ElevatorVocabulary::PowerOff);
    let published = inst.settle();
    assert_eq!(published.last(), Some(&ElevatorVocabulary::OpenTheDoor(2)));
    let after = inst.send(ElevatorVocabulary::DoorClosed(2));
    assert!(!after.contains(&ElevatorVocabulary::MovingTo(3)));
    assert_eq!(after.first(), Some(&ElevatorVocabulary::MoveToGroundFloor));
    assert_eq!(after.last(), Some(&ElevatorVocabulary::OpenTheDoor(0)));
}

#[test]
fn zero_distance_call_moves_nothing() {
    let mut inst = Installation::new(8, scenario_floors());
    inst.send(ElevatorVocabulary::PowerOn);
    let before = inst.pulley_moves;
    assert_eq!(inst.send(ElevatorVocabulary::MoveToFloor(0)), vec![ElevatorVocabulary::MovingTo(0)]);
    assert_eq!(inst.pulley_moves, before);
}

#[test]
fn invalid_commands_are_ignored() {
    let mut inst = Installation::new(8, scenario_floors());
    assert_eq!(inst.send(ElevatorVocabulary::DoorClosed(0)), vec![]);
    assert_eq!(inst.send(ElevatorVocabulary::Stop(0)), vec![]);
    assert_eq!(inst.send(ElevatorVocabulary::MoveToFloor(2)), vec![]);
    assert_eq!(inst.send(ElevatorVocabulary::PowerOff), vec![]);
    assert_eq!(inst.controller.current_state(), ElevatorFSMStates::PoweredOff);
    assert!(!inst.controller_stopped);
}
