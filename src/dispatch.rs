use vstd::prelude::*;
use crate::carriage::CarriageView;
use crate::controller::{ControllerView, LiftAction};
use crate::fsm::{next_state, ElevatorFSMInputs, ElevatorFSMStates};
use crate::service::lift_step;
use crate::vocabulary::{ElevatorVocabulary, PulleyVocabulary};

verus! {

/// The controller after handling `msgs` in order, and all the side effects
/// it asked for.
pub open spec fn run_lift(v: ControllerView, msgs: Seq<ElevatorVocabulary>) -> (ControllerView, Seq<LiftAction>)
    decreases msgs.len(),
{
    if msgs.len() == 0 {
        (v, seq![])
    } else {
        let (v1, a1) = lift_step(v, msgs[0]);
        let (v2, a2) = run_lift(v1, msgs.drop_first());
        (v2, a1 + a2)
    }
}

/// The state machine input that a command runs, if any.
pub open spec fn fsm_input_of(m: ElevatorVocabulary) -> Option<ElevatorFSMInputs> {
    match m {
        ElevatorVocabulary::PowerOn => Some(ElevatorFSMInputs::SwitchOn),
        ElevatorVocabulary::PowerOff => Some(ElevatorFSMInputs::SwitchOff),
        ElevatorVocabulary::MoveToFloor(f) => Some(ElevatorFSMInputs::MoveTo(f)),
        ElevatorVocabulary::Stop(_) => Some(ElevatorFSMInputs::Stop),
        ElevatorVocabulary::DoorClosed(_) => Some(ElevatorFSMInputs::DoorClosed),
        _ => None,
    }
}

/// The floors the pulley is sent to, in order.
pub open spec fn pulley_targets(actions: Seq<LiftAction>) -> Seq<u8>
    decreases actions.len(),
{
    if actions.len() == 0 {
        seq![]
    } else {
        let rest = pulley_targets(actions.drop_first());
        match actions[0] {
            LiftAction::ToPulley(PulleyVocabulary::MoveToFloor(f)) => seq![f] + rest,
            _ => rest,
        }
    }
}

/// One arrival and door closing per floor of `at`.
pub open spec fn arrival_cycles(at: Seq<u8>) -> Seq<ElevatorVocabulary>
    decreases at.len(),
{
    if at.len() == 0 {
        seq![]
    } else {
        seq![ElevatorVocabulary::Stop(at[0]), ElevatorVocabulary::DoorClosed(at[0])] + arrival_cycles(
            at.drop_first(),
        )
    }
}

/// A request for each floor of `floors`, in order.
pub open spec fn requests(floors: Seq<u8>) -> Seq<ElevatorVocabulary> {
    floors.map_values(|f: u8| ElevatorVocabulary::MoveToFloor(f))
}

/// No side effect sends the carriage, or announces it going, anywhere but floor 0.
pub open spec fn ground_only(actions: Seq<LiftAction>) -> bool {
    forall|i: int| 0 <= i < actions.len() ==> match #[trigger] actions[i] {
        LiftAction::ToPulley(PulleyVocabulary::MoveToFloor(f)) => f == 0,
        LiftAction::Publish(ElevatorVocabulary::MovingTo(f)) => f == 0,
        LiftAction::ToSelf(ElevatorVocabulary::MoveToFloor(f)) => f == 0,
        _ => true,
    }
}

/// The states the controller can be in once an emergency stop was asked for.
pub open spec fn emergency_state(s: ElevatorFSMStates) -> bool {
    s == ElevatorFSMStates::Moving || s == ElevatorFSMStates::DoorIsOpen || s
        == ElevatorFSMStates::UnavailableForService || s == ElevatorFSMStates::ShuttingDown || s
        == ElevatorFSMStates::NonOperational
}

proof fn lemma_run_append(v: ControllerView, m1: Seq<ElevatorVocabulary>, m2: Seq<ElevatorVocabulary>)
    ensures
        run_lift(v, m1 + m2) == (run_lift(run_lift(v, m1).0, m2).0, run_lift(v, m1).1 + run_lift(
            run_lift(v, m1).0,
            m2,
        ).1),
    decreases m1.len(),
{
    if m1.len() == 0 {
        assert(m1 + m2 =~= m2);
        assert(seq![] + run_lift(v, m2).1 =~= run_lift(v, m2).1);
    } else {
        let (v1, a1) = lift_step(v, m1[0]);
        assert((m1 + m2).drop_first() =~= m1.drop_first() + m2);
        assert((m1 + m2)[0] == m1[0]);
        lemma_run_append(v1, m1.drop_first(), m2);
        let q = run_lift(v1, m1.drop_first());
        assert(a1 + (q.1 + run_lift(q.0, m2).1) =~= (a1 + q.1) + run_lift(q.0, m2).1);
    }
}

proof fn lemma_targets_append(a: Seq<LiftAction>, b: Seq<LiftAction>)
    ensures
        pulley_targets(a + b) == pulley_targets(a) + pulley_targets(b),
    decreases a.len(),
{
    if a.len() == 0 {
        assert(a + b =~= b);
        assert(pulley_targets(a) + pulley_targets(b) =~= pulley_targets(b));
    } else {
        lemma_targets_append(a.drop_first(), b);
        assert((a + b).drop_first() =~= a.drop_first() + b);
        match a[0] {
            LiftAction::ToPulley(PulleyVocabulary::MoveToFloor(f)) => {
                assert(seq![f] + pulley_targets(a.drop_first() + b) =~= seq![f] + pulley_targets(
                    a.drop_first(),
                ) + pulley_targets(b));
            },
            _ => {},
        }
    }
}

proof fn lemma_targets_one(x: LiftAction)
    ensures
        pulley_targets(seq![x]) == match x {
            LiftAction::ToPulley(PulleyVocabulary::MoveToFloor(f)) => seq![f],
            _ => Seq::<u8>::empty(),
        },
{
    assert(seq![x].drop_first() =~= Seq::<LiftAction>::empty());
    assert(pulley_targets(Seq::<LiftAction>::empty()) == Seq::<u8>::empty());
    match x {
        LiftAction::ToPulley(PulleyVocabulary::MoveToFloor(f)) => {
            assert(seq![f] + Seq::<u8>::empty() =~= seq![f]);
        },
        _ => {},
    }
}

proof fn lemma_run_one(v: ControllerView, m: ElevatorVocabulary)
    ensures
        run_lift(v, seq![m]) == lift_step(v, m),
{
    assert(seq![m].drop_first() =~= Seq::<ElevatorVocabulary>::empty());
    let v1 = lift_step(v, m).0;
    assert(run_lift(v1, Seq::<ElevatorVocabulary>::empty()) == (v1, Seq::<LiftAction>::empty()));
    assert(lift_step(v, m).1 + Seq::<LiftAction>::empty() =~= lift_step(v, m).1);
}

/// A command whose state machine input is not in the transition table for
/// the current state leaves the state and the carriage data unchanged and
/// asks for no side effect.
pub proof fn lemma_invalid_command_is_noop(v: ControllerView, m: ElevatorVocabulary)
    requires
        fsm_input_of(m) is Some,
        next_state(v.state, fsm_input_of(m).unwrap()) is None,
    ensures
        lift_step(v, m) == (v, Seq::<LiftAction>::empty()),
{
    assert(seq![] =~= Seq::<LiftAction>::empty());
}

/// Requests that arrive while the carriage moves or its door is open are
/// queued after those already waiting, in arrival order, and ask for no
/// side effect.
pub proof fn lemma_requests_queue_in_order(v: ControllerView, floors: Seq<u8>)
    requires
        v.state == ElevatorFSMStates::Moving || v.state == ElevatorFSMStates::DoorIsOpen,
    ensures
        run_lift(v, requests(floors)) == (
            ControllerView { carriage: CarriageView { queue: v.carriage.queue + floors, ..v.carriage }, ..v },
            Seq::<LiftAction>::empty(),
        ),
    decreases floors.len(),
{
    if floors.len() == 0 {
        assert(v.carriage.queue + floors =~= v.carriage.queue);
        assert(requests(floors) =~= Seq::<ElevatorVocabulary>::empty());
    } else {
        let f = floors[0];
        let (v1, a1) = lift_step(v, ElevatorVocabulary::MoveToFloor(f));
        assert(requests(floors)[0] == ElevatorVocabulary::MoveToFloor(f));
        assert(requests(floors).drop_first() =~= requests(floors.drop_first()));
        lemma_requests_queue_in_order(v1, floors.drop_first());
        assert(v1.carriage.queue + floors.drop_first() =~= v.carriage.queue + floors);
        assert(a1 =~= Seq::<LiftAction>::empty());
    }
}

/// Without an emergency, each arrival followed by a door closing sends the
/// carriage to the oldest waiting request: over as many cycles as there are
/// requests waiting, the pulley is sent to exactly those floors, in the
/// order they were queued, and the queue ends empty.
pub proof fn lemma_fifo_service(v: ControllerView, at: Seq<u8>)
    requires
        v.state == ElevatorFSMStates::Moving,
        !v.carriage.emergency,
        at.len() == v.carriage.queue.len(),
    ensures
        pulley_targets(run_lift(v, arrival_cycles(at)).1) == v.carriage.queue,
        run_lift(v, arrival_cycles(at)).0.carriage.queue.len() == 0,
        at.len() > 0 ==> run_lift(v, arrival_cycles(at)).0.state == ElevatorFSMStates::Moving,
    decreases at.len(),
{
    if at.len() == 0 {
        assert(arrival_cycles(at) =~= Seq::<ElevatorVocabulary>::empty());
        assert(pulley_targets(Seq::<LiftAction>::empty()) =~= v.carriage.queue);
    } else {
        let x = at[0];
        let cycle = seq![ElevatorVocabulary::Stop(x), ElevatorVocabulary::DoorClosed(x)];
        lemma_run_append(v, cycle, arrival_cycles(at.drop_first()));
        assert(seq![ElevatorVocabulary::Stop(x)] + seq![ElevatorVocabulary::DoorClosed(x)] =~= cycle);
        lemma_run_append(v, seq![ElevatorVocabulary::Stop(x)], seq![ElevatorVocabulary::DoorClosed(x)]);
        lemma_run_one(v, ElevatorVocabulary::Stop(x));
        let (v1, a1) = lift_step(v, ElevatorVocabulary::Stop(x));
        lemma_run_one(v1, ElevatorVocabulary::DoorClosed(x));
        let (v2, a2) = lift_step(v1, ElevatorVocabulary::DoorClosed(x));
        let head = v.carriage.queue[0];
        assert(a1 == seq![LiftAction::Publish(ElevatorVocabulary::OpenTheDoor(x))]);
        assert(a2 == seq![
            LiftAction::ToPulley(PulleyVocabulary::MoveToFloor(head)),
            LiftAction::Publish(ElevatorVocabulary::MovingTo(head)),
        ]);
        assert(v2.state == ElevatorFSMStates::Moving);
        assert(v2.carriage.queue == v.carriage.queue.drop_first());
        lemma_fifo_service(v2, at.drop_first());
        let (v3, a3) = run_lift(v2, arrival_cycles(at.drop_first()));
        lemma_targets_append(a1 + a2, a3);
        lemma_targets_append(a1, a2);
        lemma_targets_one(a1[0]);
        assert(a1 =~= seq![a1[0]]);
        lemma_targets_one(LiftAction::Publish(ElevatorVocabulary::MovingTo(head)));
        assert(a2.drop_first() =~= seq![LiftAction::Publish(ElevatorVocabulary::MovingTo(head))]);
        assert(pulley_targets(a2) =~= seq![head] + Seq::<u8>::empty());
        assert(seq![head] + v2.carriage.queue =~= v.carriage.queue);
        assert(Seq::<u8>::empty() + seq![head] + pulley_targets(a3) =~= v.carriage.queue);
    }
}

/// Switched off while moving towards floor `x`, the carriage still completes
/// its trip: the arrival opens the door at `x`, and only the next door
/// closing reroutes it, to floor 0 (or halts it there), whatever requests
/// are waiting; those stay unserved.
pub proof fn lemma_emergency_after_arrival(v: ControllerView, x: u8)
    requires
        v.state == ElevatorFSMStates::Moving,
        v.carriage.dest == Some(x),
        v.carriage.wf(),
    ensures
        ({
            let msgs = seq![
                ElevatorVocabulary::PowerOff,
                ElevatorVocabulary::Stop(x),
                ElevatorVocabulary::DoorClosed(x),
            ];
            let (w, acts) = run_lift(v, msgs);
            &&& acts == seq![LiftAction::Publish(ElevatorVocabulary::OpenTheDoor(x))] + if x == 0 {
                seq![
                    LiftAction::Publish(ElevatorVocabulary::Stop(0)),
                    LiftAction::ToSelf(ElevatorVocabulary::Stop(0)),
                ]
            } else {
                seq![
                    LiftAction::Publish(ElevatorVocabulary::MoveToGroundFloor),
                    LiftAction::ToSelf(ElevatorVocabulary::MoveToFloor(0)),
                ]
            }
            &&& w.state == ElevatorFSMStates::UnavailableForService
            &&& w.carriage.current == x
            &&& w.carriage.emergency
            &&& w.carriage.dest == Some(0u8)
            &&& w.carriage.queue == v.carriage.queue
        }),
{
    let m0 = ElevatorVocabulary::PowerOff;
    let m1 = ElevatorVocabulary::Stop(x);
    let m2 = ElevatorVocabulary::DoorClosed(x);
    let msgs = seq![m0, m1, m2];
    assert(msgs =~= seq![m0] + (seq![m1] + seq![m2]));
    lemma_run_append(v, seq![m0], seq![m1] + seq![m2]);
    lemma_run_one(v, m0);
    let (v1, a1) = lift_step(v, m0);
    lemma_run_append(v1, seq![m1], seq![m2]);
    lemma_run_one(v1, m1);
    let (v2, a2) = lift_step(v1, m1);
    lemma_run_one(v2, m2);
    let (v3, a3) = lift_step(v2, m2);
    assert(a1 =~= Seq::<LiftAction>::empty());
    assert(a1 + (a2 + a3) =~= a2 + a3);
}

/// Once an emergency stop was asked for, every command keeps the request on
/// record, keeps the controller on its way to shutdown, never takes a
/// waiting request from the queue, and never sends or announces the
/// carriage anywhere but floor 0.
pub proof fn lemma_emergency_serves_ground_only(v: ControllerView, m: ElevatorVocabulary)
    requires
        v.carriage.emergency,
        emergency_state(v.state),
    ensures
        ({
            let (w, acts) = lift_step(v, m);
            &&& w.carriage.emergency
            &&& emergency_state(w.state) || w.state == ElevatorFSMStates::PoweredOff
            &&& ground_only(acts)
            &&& v.carriage.queue.len() <= w.carriage.queue.len()
            &&& w.carriage.queue.subrange(0, v.carriage.queue.len() as int) == v.carriage.queue
        }),
{
    let (w, acts) = lift_step(v, m);
    assert(w.carriage.queue.subrange(0, v.carriage.queue.len() as int) =~= v.carriage.queue);
}

} // verus!
