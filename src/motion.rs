use vstd::prelude::*;
use crate::pulley::{pulley_step, PulleyAction, PulleyView};
use crate::vocabulary::{ElevatorVocabulary, PulleyVocabulary};

verus! {

/// The pulley after handling `msgs` in order, and all the side effects it
/// asked for.
pub open spec fn run_pulley(p: PulleyView, msgs: Seq<PulleyVocabulary>) -> (PulleyView, Seq<PulleyAction>)
    decreases msgs.len(),
{
    if msgs.len() == 0 {
        (p, seq![])
    } else {
        let (p1, a1) = pulley_step(p, msgs[0]);
        let (p2, a2) = run_pulley(p1, msgs.drop_first());
        (p2, a1 + a2)
    }
}

/// The messages the pulley sends to the controller, in order.
pub open spec fn notifications(actions: Seq<PulleyAction>) -> Seq<ElevatorVocabulary>
    decreases actions.len(),
{
    if actions.len() == 0 {
        seq![]
    } else {
        let rest = notifications(actions.drop_first());
        match actions[0] {
            PulleyAction::Notify(m) => seq![m] + rest,
            _ => rest,
        }
    }
}

/// `n` motion ticks.
pub open spec fn ticks(n: nat) -> Seq<PulleyVocabulary> {
    Seq::new(n, |_i: int| PulleyVocabulary::PulleyHasMoved)
}

/// The `n` positions passed when leaving height `y0` in direction `d`, one
/// unit per tick.
pub open spec fn motion_stream(x: i64, y0: i64, d: i64, n: nat) -> Seq<ElevatorVocabulary> {
    Seq::new(n, |i: int| ElevatorVocabulary::CurrentCarriagePosn((x, (y0 + d * (i + 1)) as i64)))
}

/// The number of ticks left until the destination height.
pub open spec fn distance_left(p: PulleyView) -> nat {
    if p.posn.1 <= p.dest.1 {
        (p.dest.1 - p.posn.1) as nat
    } else {
        (p.posn.1 - p.dest.1) as nat
    }
}

proof fn lemma_notifications_append(a: Seq<PulleyAction>, b: Seq<PulleyAction>)
    ensures
        notifications(a + b) == notifications(a) + notifications(b),
    decreases a.len(),
{
    if a.len() == 0 {
        assert(a + b =~= b);
        assert(notifications(a) + notifications(b) =~= notifications(b));
    } else {
        lemma_notifications_append(a.drop_first(), b);
        assert((a + b).drop_first() =~= a.drop_first() + b);
        match a[0] {
            PulleyAction::Notify(m) => {
                assert(seq![m] + notifications(a.drop_first() + b) =~= seq![m] + notifications(
                    a.drop_first(),
                ) + notifications(b));
            },
            _ => {},
        }
    }
}

proof fn lemma_notifications_one(x: PulleyAction)
    ensures
        notifications(seq![x]) == match x {
            PulleyAction::Notify(m) => seq![m],
            _ => Seq::<ElevatorVocabulary>::empty(),
        },
{
    assert(seq![x].drop_first() =~= Seq::<PulleyAction>::empty());
    assert(notifications(Seq::<PulleyAction>::empty()) == Seq::<ElevatorVocabulary>::empty());
    match x {
        PulleyAction::Notify(m) => {
            assert(seq![m] + Seq::<ElevatorVocabulary>::empty() =~= seq![m]);
        },
        _ => {},
    }
}

proof fn lemma_run_append(p: PulleyView, m1: Seq<PulleyVocabulary>, m2: Seq<PulleyVocabulary>)
    ensures
        run_pulley(p, m1 + m2) == (run_pulley(run_pulley(p, m1).0, m2).0, run_pulley(p, m1).1
            + run_pulley(run_pulley(p, m1).0, m2).1),
    decreases m1.len(),
{
    if m1.len() == 0 {
        assert(m1 + m2 =~= m2);
        assert(seq![] + run_pulley(p, m2).1 =~= run_pulley(p, m2).1);
    } else {
        let (p1, a1) = pulley_step(p, m1[0]);
        assert((m1 + m2).drop_first() =~= m1.drop_first() + m2);
        assert((m1 + m2)[0] == m1[0]);
        lemma_run_append(p1, m1.drop_first(), m2);
        let q = run_pulley(p1, m1.drop_first());
        assert(a1 + (q.1 + run_pulley(q.0, m2).1) =~= (a1 + q.1) + run_pulley(q.0, m2).1);
    }
}

proof fn lemma_ticks_split(n: nat, k: nat)
    ensures
        ticks(n + k) == ticks(n) + ticks(k),
{
    assert(ticks(n + k) =~= ticks(n) + ticks(k));
}

/// A pulley at rest ignores ticks.
proof fn lemma_ticks_at_rest(p: PulleyView, k: nat)
    requires
        p.wf(),
        p.reached(),
    ensures
        run_pulley(p, ticks(k)) == (p, Seq::<PulleyAction>::empty()),
    decreases k,
{
    if k > 0 {
        assert(ticks(k).drop_first() =~= ticks((k - 1) as nat));
        lemma_ticks_at_rest(p, (k - 1) as nat);
        assert(Seq::<PulleyAction>::empty() + Seq::<PulleyAction>::empty() =~= Seq::<PulleyAction>::empty());
    }
}

/// A moving pulley reports each position on its way, then one arrival.
proof fn lemma_ticks_to_arrival(p: PulleyView)
    requires
        p.wf(),
        p.hooked,
        !p.reached(),
    ensures
        ({
            let (q, a) = run_pulley(p, ticks(distance_left(p)));
            &&& notifications(a) == motion_stream(p.posn.0, p.posn.1, p.step, distance_left(p)).push(
                ElevatorVocabulary::Stop(p.dest_floor),
            )
            &&& q.wf()
            &&& q.reached()
            &&& q.current_floor == p.dest_floor
            &&& q.posn == (p.posn.0, p.dest.1)
        }),
    decreases distance_left(p),
{
    let n = distance_left(p);
    let m = p.moved();
    let (p1, a1) = pulley_step(p, PulleyVocabulary::PulleyHasMoved);
    assert(ticks(n)[0] == PulleyVocabulary::PulleyHasMoved);
    assert(ticks(n).drop_first() =~= ticks((n - 1) as nat));
    let stop = ElevatorVocabulary::Stop(p.dest_floor);
    let first = ElevatorVocabulary::CurrentCarriagePosn(m.posn);
    if n == 1 {
        assert(m.reached());
        lemma_ticks_at_rest(p1, 0);
        assert(a1 == seq![PulleyAction::Notify(first), PulleyAction::Notify(stop)]);
        assert(a1 + Seq::<PulleyAction>::empty() =~= a1);
        lemma_notifications_one(PulleyAction::Notify(stop));
        assert(a1.drop_first() =~= seq![PulleyAction::Notify(stop)]);
        assert(notifications(a1) =~= motion_stream(p.posn.0, p.posn.1, p.step, 1).push(stop));
    } else {
        assert(!m.reached());
        assert(p1 == m);
        assert(distance_left(m) == n - 1);
        lemma_ticks_to_arrival(m);
        let (q, a2) = run_pulley(m, ticks((n - 1) as nat));
        lemma_notifications_append(a1, a2);
        assert(a1 == seq![PulleyAction::Notify(first), PulleyAction::ScheduleTick]);
        lemma_notifications_one(PulleyAction::ScheduleTick);
        assert(a1.drop_first() =~= seq![PulleyAction::ScheduleTick]);
        assert(notifications(a1) =~= seq![first]);
        let whole = motion_stream(p.posn.0, p.posn.1, p.step, n).push(stop);
        let tail = motion_stream(m.posn.0, m.posn.1, m.step, (n - 1) as nat).push(stop);
        assert forall|i: int| 0 <= i < n - 1 implies #[trigger] tail[i] == whole[i + 1] by {
            assert(m.posn.1 + p.step * (i + 1) == p.posn.1 + p.step * (i + 2)) by (nonlinear_arith)
                requires
                    m.posn.1 == p.posn.1 + p.step,
            ;
        }
        assert(seq![first] + tail =~= whole);
    }
}

/// Commanded from floor `a` to another floor `b` of the table, the pulley
/// reports exactly the heights between the two floors, one unit apart, in
/// the direction of travel and ending at `b`'s height, followed by exactly
/// one arrival at `b`; ticks after that report nothing.
pub proof fn lemma_monotonic_motion(p: PulleyView, b: u8, k: nat)
    requires
        p.wf(),
        p.hooked,
        b < p.table.len(),
        b != p.current_floor,
    ensures
        ({
            let a = p.current_floor;
            let ya = p.table[a as int].1;
            let yb = p.table[b as int].1;
            let n = if ya <= yb { (yb - ya) as nat } else { (ya - yb) as nat };
            let d: i64 = if a < b { 1i64 } else { -1i64 };
            let (q, acts) = run_pulley(p, seq![PulleyVocabulary::MoveToFloor(b)] + ticks(n + k));
            &&& (a < b <==> ya < yb)
            &&& notifications(acts) == motion_stream(p.table[a as int].0, ya, d, n).push(
                ElevatorVocabulary::Stop(b),
            )
            &&& q.current_floor == b
            &&& q.posn.1 == yb
        }),
{
    let a = p.current_floor;
    let msgs = seq![PulleyVocabulary::MoveToFloor(b)] + ticks(distance_left(p.prepared(b)) + k);
    let (p1, a1) = pulley_step(p, PulleyVocabulary::MoveToFloor(b));
    let pr = p.prepared(b);
    assert(p1 == pr);
    assert(a < b ==> p.table[a as int].1 < p.table[b as int].1);
    assert(b < a ==> p.table[b as int].1 < p.table[a as int].1);
    assert(pr.wf());
    assert(!pr.reached());
    let n = distance_left(pr);
    assert(msgs[0] == PulleyVocabulary::MoveToFloor(b));
    assert(msgs.drop_first() =~= ticks(n + k));
    lemma_ticks_split(n, k);
    lemma_run_append(pr, ticks(n), ticks(k));
    lemma_ticks_to_arrival(pr);
    let (q, a2) = run_pulley(pr, ticks(n));
    lemma_ticks_at_rest(q, k);
    assert(a2 + Seq::<PulleyAction>::empty() =~= a2);
    lemma_notifications_append(a1, a2);
    lemma_notifications_one(PulleyAction::ScheduleTick);
    assert(a1 =~= seq![PulleyAction::ScheduleTick]);
    assert(notifications(a1) + notifications(a2) =~= notifications(a2));
}

/// Commanding the pulley to the floor it is at asks for no motion and no
/// notification, and changes nothing.
pub proof fn lemma_zero_distance_move(p: PulleyView)
    requires
        p.wf(),
    ensures
        pulley_step(p, PulleyVocabulary::MoveToFloor(p.current_floor)) == (p, Seq::<PulleyAction>::empty()),
{
}

} // verus!
