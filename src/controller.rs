use vstd::prelude::*;
use crate::carriage::{CarriageData, CarriageView};
use crate::fsm::{
    fsm_step, ElevatorFSMInputs, ElevatorFSMOutputs, ElevatorFSMStates, ElevatorStateMachine,
    NextDestTodo,
};
use crate::vocabulary::{ElevatorVocabulary, PulleyVocabulary};

verus! {

/// A side effect the controller asks for after handling a message, in the
/// order in which it must be carried out.
#[derive(Clone, Copy, Debug, PartialEq, Eq)]
pub enum LiftAction {
    /// Publish on the outward notification channel.
    Publish(ElevatorVocabulary),
    /// Send to the pulley.
    ToPulley(PulleyVocabulary),
    /// Send to the controller itself.
    ToSelf(ElevatorVocabulary),
    /// Stop the controller.
    Terminate,
}

/// The controller's state as a mathematical value.
pub ghost struct ControllerView {
    pub state: ElevatorFSMStates,
    pub carriage: CarriageView,
}

/// The carriage state machine together with the carriage's destination data.
pub struct ElevatorController {
    carriage_data: CarriageData,
    carriage_state_machine: ElevatorStateMachine,
}

/// What `on_checking_next_dest` decides, and the carriage data after it.
pub open spec fn next_dest_decision(c: CarriageView) -> (Option<NextDestTodo>, CarriageView) {
    if c.emergency {
        if c.current == 0 {
            (Some(NextDestTodo::EmergencyAtGroundFloorAlready), c)
        } else {
            (Some(NextDestTodo::EmergencyGotoGroundFloorNow), c.with_destination(0))
        }
    } else if c.queue.len() > 0 {
        (Some(NextDestTodo::AllFineGotoNextPassenger(c.queue[0])), c.dequeued().with_destination(c.queue[0]))
    } else {
        (None, c)
    }
}

impl View for ElevatorController {
    type V = ControllerView;

    closed spec fn view(&self) -> ControllerView {
        ControllerView {
            state: self.carriage_state_machine.view_state(),
            carriage: self.carriage_data@,
        }
    }
}

impl ElevatorController {
    /// A controller in `PoweredOff` over `carriage_data`.
    pub fn new(carriage_data: CarriageData) -> (r: Self)
        ensures
            r@ == (ControllerView { state: ElevatorFSMStates::PoweredOff, carriage: carriage_data@ }),
    {
        ElevatorController { carriage_data, carriage_state_machine: ElevatorStateMachine::new() }
    }

    /// The carriage data.
    pub fn carriage(&self) -> (r: &CarriageData)
        ensures
            r@ == self@.carriage,
    {
        &self.carriage_data
    }

    /// The state of the carriage state machine.
    pub fn current_state(&self) -> (r: ElevatorFSMStates)
        ensures
            r == self@.state,
    {
        self.carriage_state_machine.state()
    }

    /// Whether the carriage is at `floor_index`.
    pub fn already_at_floor(&self, floor_index: u8) -> (r: bool)
        ensures
            r == (self@.carriage.current == floor_index),
    {
        self.carriage_data.already_at_floor(floor_index)
    }

    /// Sets the destination when it is in range; returns the current floor.
    pub fn set_next_destination(&mut self, dest_floor: u8) -> (r: u8)
        ensures
            final(self)@ == (ControllerView {
                carriage: old(self)@.carriage.with_destination(dest_floor),
                ..old(self)@
            }),
            r == old(self)@.carriage.current,
    {
        self.carriage_data.set_next_destination(dest_floor)
    }

    /// Appends `floor_id` to the waiting requests.
    pub fn add_to_destinations_queue(&mut self, floor_id: u8)
        ensures
            final(self)@ == (ControllerView {
                carriage: old(self)@.carriage.enqueued(floor_id),
                ..old(self)@
            }),
    {
        self.carriage_data.enqueue_next_destination(floor_id)
    }

    /// Commits the destination as the current floor; returns that floor.
    pub fn on_arrival(&mut self) -> (r: u8)
        ensures
            final(self)@ == (ControllerView { carriage: old(self)@.carriage.arrived(), ..old(self)@ }),
            r == final(self)@.carriage.current,
    {
        self.carriage_data.on_arrival()
    }

    /// Decides where to go once a door has closed: an emergency sends the
    /// carriage to the ground floor (or halts it there) whatever is waiting;
    /// otherwise the oldest waiting request is taken; otherwise nothing.
    pub fn on_checking_next_dest(&mut self) -> (r: Option<NextDestTodo>)
        ensures
            (r, final(self)@.carriage) == next_dest_decision(old(self)@.carriage),
            final(self)@.state == old(self)@.state,
    {
        if self.carriage_data.is_emergency_op_requested() {
            if self.carriage_data.already_at_floor(0) {
                Some(NextDestTodo::EmergencyAtGroundFloorAlready)
            } else {
                self.set_next_destination(0);
                Some(NextDestTodo::EmergencyGotoGroundFloorNow)
            }
        } else if self.carriage_data.any_destination_in_queue() {
            match self.carriage_data.dequeue_next_destination() {
                Some(next_destination) => {
                    self.set_next_destination(next_destination);
                    Some(NextDestTodo::AllFineGotoNextPassenger(next_destination))
                },
                None => None,
            }
        } else {
            None
        }
    }

    /// Records that an emergency stop was asked for.
    pub fn on_emergency(&mut self)
        ensures
            final(self)@ == (ControllerView { carriage: old(self)@.carriage.with_emergency(), ..old(self)@ }),
    {
        self.carriage_data.prepare_for_emergency();
    }

    /// Runs `input` through the state machine: returns the state after it
    /// and the output of the transition. A pair outside the table changes
    /// nothing and has no output.
    pub fn run_machine(&mut self, input: &ElevatorFSMInputs) -> (r: (ElevatorFSMStates, Option<ElevatorFSMOutputs>))
        ensures
            r == fsm_step(old(self)@.state, *input),
            final(self)@ == (ControllerView { state: r.0, ..old(self)@ }),
    {
        match self.carriage_state_machine.consume(input) {
            Ok(maybe_output) => (self.current_state(), maybe_output),
            Err(_) => (self.current_state(), None),
        }
    }
}

} // verus!
