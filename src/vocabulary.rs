use vstd::prelude::*;

verus! {

/// Commands the pulley accepts.
#[derive(Clone, Copy, Debug, PartialEq, Eq)]
pub enum PulleyVocabulary {
    MoveToFloor(u8),
    PulleyHasMoved,
    /// Makes the controller the target of the pulley's notifications.
    PowerOn,
    PowerOff,
}

/// Commands the controller accepts, and the notifications it publishes.
/// Positions are in whole units: `(x, y)`.
#[derive(Clone, Copy, Debug, PartialEq, Eq)]
pub enum ElevatorVocabulary {
    DoorClosed(u8),
    OpenTheDoor(u8),
    MoveToFloor(u8),
    Stop(u8),
    Stay(u8),
    CurrentCarriagePosn((i64, i64)),
    PowerOn,
    PowerOff,
    MoveToGroundFloor,
    MovingTo(u8),
    ElevatorOutOfService,
}

} // verus!
