use vstd::prelude::*;

verus! {

/// What the controller must do next once a door has closed.
#[derive(Clone, Copy, Debug, PartialEq, Eq, Structural)]
pub enum NextDestTodo {
    EmergencyAtGroundFloorAlready,
    EmergencyGotoGroundFloorNow,
    AllFineGotoNextPassenger(u8),
}

/// The lifecycle states of the carriage.
#[derive(Clone, Copy, Debug, PartialEq, Eq, Structural)]
pub enum ElevatorFSMStates {
    Moving,
    ReadyForService,
    UnavailableForService,
    ShuttingDown,
    NonOperational,
    DoorIsOpen,
    PoweredOff,
}

/// The inputs that drive the carriage state machine.
#[derive(Clone, Copy, Debug, PartialEq, Eq, Structural)]
pub enum ElevatorFSMInputs {
    SwitchOn,
    SwitchOff,
    MoveTo(u8),
    DoorClosed,
    Stop,
}

/// The symbolic side effect that accompanies a transition.
#[derive(Clone, Copy, Debug, PartialEq, Eq, Structural)]
pub enum ElevatorFSMOutputs {
    SettleAtGroundFloor,
    NextDest(u8),
    Enqueue(u8),
    Reached,
    CheckNextDest,
    PrepareForEmergencyStop,
    ExitPassengers,
}

/// The transition table: the state that `input` leads to from `state`,
/// or `None` where the pair is not in the table.
pub open spec fn next_state(state: ElevatorFSMStates, input: ElevatorFSMInputs) -> Option<ElevatorFSMStates> {
    match (state, input) {
        (ElevatorFSMStates::PoweredOff, ElevatorFSMInputs::SwitchOn) => Some(ElevatorFSMStates::ReadyForService),
        (ElevatorFSMStates::ReadyForService, ElevatorFSMInputs::SwitchOff) => Some(ElevatorFSMStates::UnavailableForService),
        (ElevatorFSMStates::ReadyForService, ElevatorFSMInputs::MoveTo(_)) => Some(ElevatorFSMStates::Moving),
        (ElevatorFSMStates::UnavailableForService, ElevatorFSMInputs::MoveTo(_)) => Some(ElevatorFSMStates::ShuttingDown),
        (ElevatorFSMStates::Moving, ElevatorFSMInputs::MoveTo(_)) => Some(ElevatorFSMStates::Moving),
        (ElevatorFSMStates::Moving, ElevatorFSMInputs::Stop) => Some(ElevatorFSMStates::DoorIsOpen),
        (ElevatorFSMStates::Moving, ElevatorFSMInputs::SwitchOff) => Some(ElevatorFSMStates::Moving),
        (ElevatorFSMStates::ShuttingDown, ElevatorFSMInputs::MoveTo(f)) => if f == 0 {
            Some(ElevatorFSMStates::ShuttingDown)
        } else {
            None
        },
        (ElevatorFSMStates::DoorIsOpen, ElevatorFSMInputs::MoveTo(_)) => Some(ElevatorFSMStates::DoorIsOpen),
        (ElevatorFSMStates::DoorIsOpen, ElevatorFSMInputs::SwitchOff) => Some(ElevatorFSMStates::DoorIsOpen),
        (ElevatorFSMStates::DoorIsOpen, ElevatorFSMInputs::DoorClosed) => Some(ElevatorFSMStates::ReadyForService),
        (ElevatorFSMStates::ShuttingDown, ElevatorFSMInputs::Stop) => Some(ElevatorFSMStates::NonOperational),
        (ElevatorFSMStates::NonOperational, ElevatorFSMInputs::DoorClosed) => Some(ElevatorFSMStates::PoweredOff),
        _ => None,
    }
}

/// The output table: the side effect paired with a transition, or `None`
/// where the transition has no output or the pair is not in the table.
pub open spec fn output_of(state: ElevatorFSMStates, input: ElevatorFSMInputs) -> Option<ElevatorFSMOutputs> {
    match (state, input) {
        (ElevatorFSMStates::PoweredOff, ElevatorFSMInputs::SwitchOn) => Some(ElevatorFSMOutputs::SettleAtGroundFloor),
        (ElevatorFSMStates::ReadyForService, ElevatorFSMInputs::SwitchOff) => Some(ElevatorFSMOutputs::SettleAtGroundFloor),
        (ElevatorFSMStates::ReadyForService, ElevatorFSMInputs::MoveTo(f)) => Some(ElevatorFSMOutputs::NextDest(f)),
        (ElevatorFSMStates::UnavailableForService, ElevatorFSMInputs::MoveTo(_)) => Some(ElevatorFSMOutputs::SettleAtGroundFloor),
        (ElevatorFSMStates::Moving, ElevatorFSMInputs::MoveTo(f)) => Some(ElevatorFSMOutputs::Enqueue(f)),
        (ElevatorFSMStates::Moving, ElevatorFSMInputs::SwitchOff) => Some(ElevatorFSMOutputs::PrepareForEmergencyStop),
        (ElevatorFSMStates::DoorIsOpen, ElevatorFSMInputs::MoveTo(f)) => Some(ElevatorFSMOutputs::Enqueue(f)),
        (ElevatorFSMStates::DoorIsOpen, ElevatorFSMInputs::SwitchOff) => Some(ElevatorFSMOutputs::PrepareForEmergencyStop),
        (ElevatorFSMStates::DoorIsOpen, ElevatorFSMInputs::DoorClosed) => Some(ElevatorFSMOutputs::CheckNextDest),
        (ElevatorFSMStates::Moving, ElevatorFSMInputs::Stop) => Some(ElevatorFSMOutputs::Reached),
        (ElevatorFSMStates::ShuttingDown, ElevatorFSMInputs::Stop) => Some(ElevatorFSMOutputs::ExitPassengers),
        _ => None,
    }
}

/// One step of the machine: the state after `input` and the output it
/// yields. A pair outside the table leaves the state as it is, with no output.
pub open spec fn fsm_step(state: ElevatorFSMStates, input: ElevatorFSMInputs) -> (ElevatorFSMStates, Option<ElevatorFSMOutputs>) {
    match next_state(state, input) {
        Some(s) => (s, output_of(state, input)),
        None => (state, None),
    }
}

/// The input was not accepted in the current state.
#[derive(Clone, Copy, Debug, PartialEq, Eq, Structural)]
pub struct TransitionImpossible;

/// The carriage state machine: its current state, starting at `PoweredOff`.
pub struct ElevatorStateMachine {
    state: ElevatorFSMStates,
}

impl ElevatorStateMachine {
    pub closed spec fn view_state(&self) -> ElevatorFSMStates {
        self.state
    }

    /// A machine in the initial state.
    pub fn new() -> (r: Self)
        ensures
            r.view_state() == ElevatorFSMStates::PoweredOff,
    {
        ElevatorStateMachine { state: ElevatorFSMStates::PoweredOff }
    }

    /// The current state.
    pub fn state(&self) -> (r: ElevatorFSMStates)
        ensures
            r == self.view_state(),
    {
        self.state
    }

    /// The transition table, as a function.
    pub fn transition(state: &ElevatorFSMStates, input: &ElevatorFSMInputs) -> (r: Option<ElevatorFSMStates>)
        ensures
            r == next_state(*state, *input),
    {
        match (state, input) {
            (ElevatorFSMStates::PoweredOff, ElevatorFSMInputs::SwitchOn) => Some(ElevatorFSMStates::ReadyForService),
            (ElevatorFSMStates::ReadyForService, ElevatorFSMInputs::SwitchOff) => Some(ElevatorFSMStates::UnavailableForService),
            (ElevatorFSMStates::ReadyForService, ElevatorFSMInputs::MoveTo(_)) => Some(ElevatorFSMStates::Moving),
            (ElevatorFSMStates::UnavailableForService, ElevatorFSMInputs::MoveTo(_)) => Some(ElevatorFSMStates::ShuttingDown),
            (ElevatorFSMStates::Moving, ElevatorFSMInputs::MoveTo(_)) => Some(ElevatorFSMStates::Moving),
            (ElevatorFSMStates::Moving, ElevatorFSMInputs::Stop) => Some(ElevatorFSMStates::DoorIsOpen),
            (ElevatorFSMStates::Moving, ElevatorFSMInputs::SwitchOff) => Some(ElevatorFSMStates::Moving),
            (ElevatorFSMStates::ShuttingDown, ElevatorFSMInputs::MoveTo(0)) => Some(ElevatorFSMStates::ShuttingDown),
            (ElevatorFSMStates::DoorIsOpen, ElevatorFSMInputs::MoveTo(_)) => Some(ElevatorFSMStates::DoorIsOpen),
            (ElevatorFSMStates::DoorIsOpen, ElevatorFSMInputs::SwitchOff) => Some(ElevatorFSMStates::DoorIsOpen),
            (ElevatorFSMStates::DoorIsOpen, ElevatorFSMInputs::DoorClosed) => Some(ElevatorFSMStates::ReadyForService),
            (ElevatorFSMStates::ShuttingDown, ElevatorFSMInputs::Stop) => Some(ElevatorFSMStates::NonOperational),
            (ElevatorFSMStates::NonOperational, ElevatorFSMInputs::DoorClosed) => Some(ElevatorFSMStates::PoweredOff),
            _ => None,
        }
    }

    /// The output table, as a function.
    pub fn output(state: &ElevatorFSMStates, input: &ElevatorFSMInputs) -> (r: Option<ElevatorFSMOutputs>)
        ensures
            r == output_of(*state, *input),
    {
        match (state, input) {
            (ElevatorFSMStates::PoweredOff, ElevatorFSMInputs::SwitchOn) => Some(ElevatorFSMOutputs::SettleAtGroundFloor),
            (ElevatorFSMStates::ReadyForService, ElevatorFSMInputs::SwitchOff) => Some(ElevatorFSMOutputs::SettleAtGroundFloor),
            (ElevatorFSMStates::ReadyForService, ElevatorFSMInputs::MoveTo(f)) => Some(ElevatorFSMOutputs::NextDest(*f)),
            (ElevatorFSMStates::UnavailableForService, ElevatorFSMInputs::MoveTo(_)) => Some(ElevatorFSMOutputs::SettleAtGroundFloor),
            (ElevatorFSMStates::Moving, ElevatorFSMInputs::MoveTo(f)) => Some(ElevatorFSMOutputs::Enqueue(*f)),
            (ElevatorFSMStates::Moving, ElevatorFSMInputs::SwitchOff) => Some(ElevatorFSMOutputs::PrepareForEmergencyStop),
            (ElevatorFSMStates::DoorIsOpen, ElevatorFSMInputs::MoveTo(f)) => Some(ElevatorFSMOutputs::Enqueue(*f)),
            (ElevatorFSMStates::DoorIsOpen, ElevatorFSMInputs::SwitchOff) => Some(ElevatorFSMOutputs::PrepareForEmergencyStop),
            (ElevatorFSMStates::DoorIsOpen, ElevatorFSMInputs::DoorClosed) => Some(ElevatorFSMOutputs::CheckNextDest),
            (ElevatorFSMStates::Moving, ElevatorFSMInputs::Stop) => Some(ElevatorFSMOutputs::Reached),
            (ElevatorFSMStates::ShuttingDown, ElevatorFSMInputs::Stop) => Some(ElevatorFSMOutputs::ExitPassengers),
            _ => None,
        }
    }

    /// Feeds `input` to the machine. A pair in the table moves to its next
    /// state and returns its output; any other pair leaves the state as it
    /// is and reports `TransitionImpossible`.
    pub fn consume(&mut self, input: &ElevatorFSMInputs) -> (r: Result<Option<ElevatorFSMOutputs>, TransitionImpossible>)
        ensures
            next_state(old(self).view_state(), *input) is None ==> {
                &&& r == Err::<Option<ElevatorFSMOutputs>, TransitionImpossible>(TransitionImpossible)
                &&& final(self).view_state() == old(self).view_state()
            },
            next_state(old(self).view_state(), *input) is Some ==> {
                &&& r == Ok::<Option<ElevatorFSMOutputs>, TransitionImpossible>(output_of(old(self).view_state(), *input))
                &&& final(self).view_state() == next_state(old(self).view_state(), *input).unwrap()
            },
    {
        match Self::transition(&self.state, input) {
            Some(s) => {
                let out = Self::output(&self.state, input);
                self.state = s;
                Ok(out)
            },
            None => Err(TransitionImpossible),
        }
    }
}

} // verus!
