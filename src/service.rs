use vstd::prelude::*;
use crate::carriage::CarriageView;
use crate::controller::{next_dest_decision, ControllerView, ElevatorController, LiftAction};
use crate::fsm::{fsm_step, ElevatorFSMInputs, ElevatorFSMOutputs, ElevatorFSMStates, NextDestTodo};
use crate::vocabulary::{ElevatorVocabulary, PulleyVocabulary};

verus! {

/// The controller after handling one message, and the side effects it asks
/// for, in order.
pub open spec fn lift_step(v: ControllerView, message: ElevatorVocabulary) -> (ControllerView, Seq<LiftAction>) {
    let c = v.carriage;
    match message {
        ElevatorVocabulary::PowerOn => {
            let (s, o) = fsm_step(v.state, ElevatorFSMInputs::SwitchOn);
            if o == Some(ElevatorFSMOutputs::SettleAtGroundFloor) {
                (
                    ControllerView { state: s, carriage: c.with_destination(0) },
                    seq![
                        LiftAction::ToPulley(PulleyVocabulary::PowerOn),
                        LiftAction::Publish(ElevatorVocabulary::MoveToGroundFloor),
                    ],
                )
            } else {
                (ControllerView { state: s, carriage: c }, seq![])
            }
        },
        ElevatorVocabulary::PowerOff => {
            let (s, o) = fsm_step(v.state, ElevatorFSMInputs::SwitchOff);
            if o == Some(ElevatorFSMOutputs::PrepareForEmergencyStop) {
                (ControllerView { state: s, carriage: c.with_emergency() }, seq![])
            } else if o == Some(ElevatorFSMOutputs::SettleAtGroundFloor) {
                (
                    ControllerView { state: s, carriage: c.with_destination(0) },
                    seq![
                        LiftAction::Publish(ElevatorVocabulary::MovingTo(0)),
                        LiftAction::ToSelf(ElevatorVocabulary::MoveToFloor(0)),
                    ],
                )
            } else {
                (ControllerView { state: s, carriage: c }, seq![])
            }
        },
        ElevatorVocabulary::MoveToFloor(f) => {
            let (s, o) = fsm_step(v.state, ElevatorFSMInputs::MoveTo(f));
            match o {
                Some(ElevatorFSMOutputs::SettleAtGroundFloor) => if s == ElevatorFSMStates::ShuttingDown {
                    if c.current == 0 {
                        (
                            ControllerView { state: s, carriage: c },
                            seq![
                                LiftAction::Publish(ElevatorVocabulary::Stop(0)),
                                LiftAction::ToSelf(ElevatorVocabulary::Stop(0)),
                            ],
                        )
                    } else {
                        (
                            ControllerView { state: s, carriage: c.with_destination(0) },
                            seq![
                                LiftAction::Publish(ElevatorVocabulary::MovingTo(0)),
                                LiftAction::ToPulley(PulleyVocabulary::MoveToFloor(0)),
                            ],
                        )
                    }
                } else {
                    (ControllerView { state: s, carriage: c }, seq![])
                },
                Some(ElevatorFSMOutputs::NextDest(d)) => (
                    ControllerView { state: s, carriage: c.with_destination(d) },
                    seq![
                        LiftAction::Publish(ElevatorVocabulary::MovingTo(d)),
                        LiftAction::ToPulley(PulleyVocabulary::MoveToFloor(d)),
                    ],
                ),
                Some(ElevatorFSMOutputs::Enqueue(d)) => (ControllerView { state: s, carriage: c.enqueued(d) }, seq![]),
                _ => (ControllerView { state: s, carriage: c }, seq![]),
            }
        },
        ElevatorVocabulary::CurrentCarriagePosn(p) => (
            v,
            seq![LiftAction::Publish(ElevatorVocabulary::CurrentCarriagePosn(p))],
        ),
        ElevatorVocabulary::Stop(at) => {
            let (s, o) = fsm_step(v.state, ElevatorFSMInputs::Stop);
            if s == ElevatorFSMStates::NonOperational && o == Some(ElevatorFSMOutputs::ExitPassengers) {
                (
                    ControllerView { state: s, carriage: c.arrived() },
                    seq![
                        LiftAction::Publish(ElevatorVocabulary::OpenTheDoor(at)),
                        LiftAction::ToPulley(PulleyVocabulary::PowerOff),
                    ],
                )
            } else if o == Some(ElevatorFSMOutputs::Reached) {
                (
                    ControllerView { state: s, carriage: c.arrived() },
                    seq![LiftAction::Publish(ElevatorVocabulary::OpenTheDoor(at))],
                )
            } else {
                (ControllerView { state: s, carriage: c }, seq![])
            }
        },
        ElevatorVocabulary::DoorClosed(at) => {
            let (s, o) = fsm_step(v.state, ElevatorFSMInputs::DoorClosed);
            if s == ElevatorFSMStates::PoweredOff && v.state != ElevatorFSMStates::PoweredOff {
                (
                    ControllerView { state: s, carriage: c },
                    seq![
                        LiftAction::Publish(ElevatorVocabulary::ElevatorOutOfService),
                        LiftAction::Terminate,
                    ],
                )
            } else if o == Some(ElevatorFSMOutputs::CheckNextDest) {
                door_closed_step(s, c, at)
            } else {
                (ControllerView { state: s, carriage: c }, seq![])
            }
        },
        _ => (v, seq![]),
    }
}

/// The destination-resolution policy, applied once a door has closed in
/// state `s` at floor `at`.
pub open spec fn door_closed_step(s: ElevatorFSMStates, c: CarriageView, at: u8) -> (ControllerView, Seq<LiftAction>) {
    let (todo, c1) = next_dest_decision(c);
    match todo {
        Some(NextDestTodo::EmergencyAtGroundFloorAlready) => (
            ControllerView {
                state: fsm_step(s, ElevatorFSMInputs::SwitchOff).0,
                carriage: c1.with_destination(0),
            },
            seq![
                LiftAction::Publish(ElevatorVocabulary::Stop(0)),
                LiftAction::ToSelf(ElevatorVocabulary::Stop(0)),
            ],
        ),
        Some(NextDestTodo::EmergencyGotoGroundFloorNow) => (
            ControllerView {
                state: fsm_step(s, ElevatorFSMInputs::SwitchOff).0,
                carriage: c1.with_destination(0),
            },
            seq![
                LiftAction::Publish(ElevatorVocabulary::MoveToGroundFloor),
                LiftAction::ToSelf(ElevatorVocabulary::MoveToFloor(0)),
            ],
        ),
        Some(NextDestTodo::AllFineGotoNextPassenger(d)) => (
            ControllerView {
                state: fsm_step(s, ElevatorFSMInputs::MoveTo(d)).0,
                carriage: c1.with_destination(d),
            },
            seq![
                LiftAction::ToPulley(PulleyVocabulary::MoveToFloor(d)),
                LiftAction::Publish(ElevatorVocabulary::MovingTo(d)),
            ],
        ),
        None => (
            ControllerView { state: s, carriage: c1 },
            seq![LiftAction::Publish(ElevatorVocabulary::Stay(at))],
        ),
    }
}

/// The carriage controller's message handler: runs each command through
/// the state machine and turns the transition's output into changes of the
/// carriage data and into side effects for the caller to carry out.
pub struct PassengerLiftActor;

impl PassengerLiftActor {
    /// A controller for an installation of `mx_floors` floors.
    pub fn pre_start(&self, mx_floors: u16) -> (r: ElevatorController)
        requires
            mx_floors >= 1,
        ensures
            r@.state == ElevatorFSMStates::PoweredOff,
            r@.carriage == (CarriageView {
                current: 0,
                dest: None,
                queue: Seq::empty(),
                max_floor: (mx_floors - 1) as u16,
                emergency: false,
            }),
            r@.carriage.wf(),
    {
        ElevatorController::new(crate::carriage::CarriageData::new(mx_floors))
    }

    /// Handles one message; returns the side effects to carry out, in order.
    pub fn handle(&self, message: ElevatorVocabulary, elevator_control: &mut ElevatorController) -> (r: Vec<
        LiftAction,
    >)
        ensures
            (final(elevator_control)@, r@) == lift_step(old(elevator_control)@, message),
            old(elevator_control)@.carriage.wf() ==> final(elevator_control)@.carriage.wf(),
    {
        let mut actions: Vec<LiftAction> = Vec::new();
        match message {
            ElevatorVocabulary::PowerOn => {
                let outcome = elevator_control.run_machine(&ElevatorFSMInputs::SwitchOn);
                match outcome {
                    (_, Some(ElevatorFSMOutputs::SettleAtGroundFloor)) => {
                        actions.push(LiftAction::ToPulley(PulleyVocabulary::PowerOn));
                        elevator_control.set_next_destination(0);
                        actions.push(LiftAction::Publish(ElevatorVocabulary::MoveToGroundFloor));
                    },
                    _ => {},
                }
            },
            ElevatorVocabulary::PowerOff => {
                let outcome = elevator_control.run_machine(&ElevatorFSMInputs::SwitchOff);
                match outcome {
                    (_, Some(ElevatorFSMOutputs::PrepareForEmergencyStop)) => {
                        elevator_control.on_emergency();
                    },
                    (_, Some(ElevatorFSMOutputs::SettleAtGroundFloor)) => {
                        actions.push(LiftAction::Publish(ElevatorVocabulary::MovingTo(0)));
                        elevator_control.set_next_destination(0);
                        actions.push(LiftAction::ToSelf(ElevatorVocabulary::MoveToFloor(0)));
                    },
                    _ => {},
                }
            },
            ElevatorVocabulary::MoveToFloor(dest_floor) => {
                let outcome = elevator_control.run_machine(&ElevatorFSMInputs::MoveTo(dest_floor));
                match outcome {
                    (ElevatorFSMStates::ShuttingDown, Some(ElevatorFSMOutputs::SettleAtGroundFloor)) => {
                        if elevator_control.already_at_floor(0) {
                            actions.push(LiftAction::Publish(ElevatorVocabulary::Stop(0)));
                            actions.push(LiftAction::ToSelf(ElevatorVocabulary::Stop(0)));
                        } else {
                            elevator_control.set_next_destination(0);
                            actions.push(LiftAction::Publish(ElevatorVocabulary::MovingTo(0)));
                            actions.push(LiftAction::ToPulley(PulleyVocabulary::MoveToFloor(0)));
                        }
                    },
                    (_, Some(ElevatorFSMOutputs::NextDest(d))) => {
                        elevator_control.set_next_destination(d);
                        actions.push(LiftAction::Publish(ElevatorVocabulary::MovingTo(d)));
                        actions.push(LiftAction::ToPulley(PulleyVocabulary::MoveToFloor(d)));
                    },
                    (_, Some(ElevatorFSMOutputs::Enqueue(d))) => {
                        elevator_control.add_to_destinations_queue(d);
                    },
                    _ => {},
                }
            },
            ElevatorVocabulary::CurrentCarriagePosn(p) => {
                actions.push(LiftAction::Publish(ElevatorVocabulary::CurrentCarriagePosn(p)));
            },
            ElevatorVocabulary::Stop(at_floor) => {
                let outcome = elevator_control.run_machine(&ElevatorFSMInputs::Stop);
                match outcome {
                    (ElevatorFSMStates::NonOperational, Some(ElevatorFSMOutputs::ExitPassengers)) => {
                        elevator_control.on_arrival();
                        actions.push(LiftAction::Publish(ElevatorVocabulary::OpenTheDoor(at_floor)));
                        actions.push(LiftAction::ToPulley(PulleyVocabulary::PowerOff));
                    },
                    (_, Some(ElevatorFSMOutputs::Reached)) => {
                        elevator_control.on_arrival();
                        actions.push(LiftAction::Publish(ElevatorVocabulary::OpenTheDoor(at_floor)));
                    },
                    _ => {},
                }
            },
            ElevatorVocabulary::DoorClosed(at_floor) => {
                let was_powered_off = elevator_control.current_state() == ElevatorFSMStates::PoweredOff;
                let outcome = elevator_control.run_machine(&ElevatorFSMInputs::DoorClosed);
                match outcome {
                    (ElevatorFSMStates::PoweredOff, _) if !was_powered_off => {
                        actions.push(LiftAction::Publish(ElevatorVocabulary::ElevatorOutOfService));
                        actions.push(LiftAction::Terminate);
                    },
                    (_, Some(ElevatorFSMOutputs::CheckNextDest)) => {
                        Self::on_door_closed(at_floor, elevator_control, &mut actions);
                    },
                    _ => {},
                }
            },
            _ => {},
        }
        actions
    }

    /// Applies the destination-resolution policy once a door has closed.
    fn on_door_closed(at_floor: u8, elevator_control: &mut ElevatorController, actions: &mut Vec<LiftAction>)
        requires
            old(actions)@.len() == 0,
        ensures
            (final(elevator_control)@, final(actions)@) == door_closed_step(
                old(elevator_control)@.state,
                old(elevator_control)@.carriage,
                at_floor,
            ),
    {
        match elevator_control.on_checking_next_dest() {
            Some(NextDestTodo::EmergencyAtGroundFloorAlready) => {
                let _ = elevator_control.run_machine(&ElevatorFSMInputs::SwitchOff);
                actions.push(LiftAction::Publish(ElevatorVocabulary::Stop(0)));
                elevator_control.set_next_destination(0);
                actions.push(LiftAction::ToSelf(ElevatorVocabulary::Stop(0)));
            },
            Some(NextDestTodo::EmergencyGotoGroundFloorNow) => {
                let _ = elevator_control.run_machine(&ElevatorFSMInputs::SwitchOff);
                elevator_control.set_next_destination(0);
                actions.push(LiftAction::Publish(ElevatorVocabulary::MoveToGroundFloor));
                actions.push(LiftAction::ToSelf(ElevatorVocabulary::MoveToFloor(0)));
            },
            Some(NextDestTodo::AllFineGotoNextPassenger(dest_floor)) => {
                let _ = elevator_control.run_machine(&ElevatorFSMInputs::MoveTo(dest_floor));
                elevator_control.set_next_destination(dest_floor);
                actions.push(LiftAction::ToPulley(PulleyVocabulary::MoveToFloor(dest_floor)));
                actions.push(LiftAction::Publish(ElevatorVocabulary::MovingTo(dest_floor)));
            },
            None => {
                actions.push(LiftAction::Publish(ElevatorVocabulary::Stay(at_floor)));
            },
        }
    }
}

} // verus!
