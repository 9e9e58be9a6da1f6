use vstd::prelude::*;
use crate::vocabulary::{ElevatorVocabulary, PulleyVocabulary};

verus! {

/// Where the pulley is, and where it goes, as floor indices.
#[derive(Clone, Copy, Debug, PartialEq, Eq, Structural)]
pub struct FloorData {
    pub current: u8,
    pub destination: u8,
}

impl FloorData {
    /// Whether the destination is above the current floor.
    pub fn going_up(&self) -> (r: bool)
        ensures
            r == (self.current < self.destination),
    {
        self.current < self.destination
    }

    /// Whether the destination is below the current floor.
    pub fn going_down(&self) -> (r: bool)
        ensures
            r == (self.current > self.destination),
    {
        self.current > self.destination
    }
}

/// Floor positions rise strictly with the floor index.
pub open spec fn floors_ascending(table: Seq<(i64, i64)>) -> bool {
    forall|i: int, j: int| 0 <= i < j < table.len() ==> #[trigger] table[i].1 < #[trigger] table[j].1
}

/// The pulley's state as a mathematical value.
pub ghost struct PulleyView {
    pub dest: (i64, i64),
    pub posn: (i64, i64),
    pub step: i64,
    pub current_floor: u8,
    pub dest_floor: u8,
    pub table: Seq<(i64, i64)>,
    pub hooked: bool,
}

impl PulleyView {
    /// The floor table is non-empty and ascending, both floor indices are in
    /// it, the step is one unit, and while the destination is not reached the
    /// step points towards it.
    pub open spec fn wf(self) -> bool {
        &&& self.table.len() > 0
        &&& floors_ascending(self.table)
        &&& self.current_floor < self.table.len()
        &&& self.dest_floor < self.table.len()
        &&& self.step == 1 || self.step == -1
        &&& self.posn.1 == self.dest.1 || (self.step == 1 && self.posn.1 < self.dest.1) || (self.step
            == -1 && self.posn.1 > self.dest.1)
    }

    pub open spec fn reached(self) -> bool {
        self.posn.1 == self.dest.1
    }

    /// Ready to move from the current floor to floor `f`.
    pub open spec fn prepared(self, f: u8) -> PulleyView {
        PulleyView {
            dest_floor: f,
            posn: self.table[self.current_floor as int],
            dest: self.table[f as int],
            step: if self.current_floor < f { 1i64 } else { -1i64 },
            ..self
        }
    }

    /// One unit further in the direction of travel.
    pub open spec fn moved(self) -> PulleyView {
        PulleyView { posn: (self.posn.0, (self.posn.1 + self.step) as i64), ..self }
    }

    /// The destination floor has become the current floor.
    pub open spec fn settled(self) -> PulleyView {
        PulleyView { current_floor: self.dest_floor, ..self }
    }
}

/// The pulley's state: positions in whole units, the step per tick, the
/// floors it is between, the position of each floor, and whether a
/// controller listens to it.
#[derive(Debug)]
pub struct PulleyData {
    dest_posn: (i64, i64),
    current_posn: (i64, i64),
    displacement: i64,
    floor_data: FloorData,
    floors_to_position_map: Vec<(i64, i64)>,
    controller_hooked: bool,
}

impl View for PulleyData {
    type V = PulleyView;

    closed spec fn view(&self) -> PulleyView {
        PulleyView {
            dest: self.dest_posn,
            posn: self.current_posn,
            step: self.displacement,
            current_floor: self.floor_data.current,
            dest_floor: self.floor_data.destination,
            table: self.floors_to_position_map@,
            hooked: self.controller_hooked,
        }
    }
}

impl PulleyData {
    /// A pulley at rest at floor 0 over the given floor table.
    pub fn new(floors_to_position_map: Vec<(i64, i64)>) -> (r: Self)
        requires
            floors_to_position_map@.len() > 0,
            floors_ascending(floors_to_position_map@),
        ensures
            r@ == (PulleyView {
                dest: floors_to_position_map@[0],
                posn: floors_to_position_map@[0],
                step: 1,
                current_floor: 0,
                dest_floor: 0,
                table: floors_to_position_map@,
                hooked: false,
            }),
            r@.wf(),
    {
        let start_posn = floors_to_position_map[0];
        PulleyData {
            dest_posn: start_posn,
            current_posn: start_posn,
            displacement: 1,
            floor_data: FloorData { current: 0, destination: 0 },
            floors_to_position_map,
            controller_hooked: false,
        }
    }

    /// Makes a controller the target of the pulley's notifications.
    pub fn hook(&mut self)
        ensures
            final(self)@ == (PulleyView { hooked: true, ..old(self)@ }),
    {
        self.controller_hooked = true;
    }

    /// Whether a controller listens to the pulley.
    pub fn is_hooked(&self) -> (r: bool)
        ensures
            r == self@.hooked,
    {
        self.controller_hooked
    }

    /// Gets ready to move to floor `dest_f`: from the position of the current
    /// floor towards that of `dest_f`, one unit up or down per tick. A move
    /// to the current floor, or to a floor outside the table, changes nothing.
    pub fn prepare_for_moving(&mut self, dest_f: u8)
        requires
            old(self)@.wf(),
        ensures
            final(self)@.wf(),
            dest_f == old(self)@.current_floor || dest_f >= old(self)@.table.len() ==> final(self)@
                == old(self)@,
            dest_f != old(self)@.current_floor && dest_f < old(self)@.table.len() ==> final(self)@
                == old(self)@.prepared(dest_f),
    {
        if self.floor_data.current == dest_f || dest_f as usize >= self.floors_to_position_map.len() {
            return ;
        }
        self.floor_data.destination = dest_f;
        self.current_posn = self.floors_to_position_map[self.floor_data.current as usize];
        self.dest_posn = self.floors_to_position_map[dest_f as usize];
        if self.floor_data.going_up() {
            self.displacement = 1;
        } else {
            self.displacement = -1;
        }
    }

    /// Moves one step towards the destination; at the destination, stays.
    pub fn on_pulley_moving(&mut self)
        requires
            old(self)@.wf(),
        ensures
            final(self)@.wf(),
            old(self)@.reached() ==> final(self)@ == old(self)@,
            !old(self)@.reached() ==> final(self)@ == old(self)@.moved(),
    {
        if self.current_posn.1 != self.dest_posn.1 {
            self.current_posn.1 = self.current_posn.1 + self.displacement;
        }
    }

    /// Whether the destination height is reached.
    pub fn has_reached_dest(&self) -> (r: bool)
        ensures
            r == self@.reached(),
    {
        self.current_posn.1 == self.dest_posn.1
    }

    /// Records the destination floor as the current floor.
    pub fn adjust_floor_data(&mut self)
        requires
            old(self)@.wf(),
        ensures
            final(self)@ == old(self)@.settled(),
            final(self)@.wf(),
    {
        let currently_at = self.floor_data.destination;
        self.floor_data = FloorData { current: currently_at, destination: self.floor_data.destination };
    }

    /// The current floor and its position in the floor table.
    pub fn currently_at(&self) -> (r: (u8, (i64, i64)))
        requires
            self@.wf(),
        ensures
            r == (self@.current_floor, self@.table[self@.current_floor as int]),
    {
        let current_floor = self.floor_data.current;
        (current_floor, self.floors_to_position_map[current_floor as usize])
    }

    /// The carriage's position now.
    pub fn current_position(&self) -> (r: (i64, i64))
        ensures
            r == self@.posn,
    {
        self.current_posn
    }
}


/// A side effect the pulley asks for after handling a message.
#[derive(Clone, Copy, Debug, PartialEq, Eq)]
pub enum PulleyAction {
    /// Send to the controller.
    Notify(ElevatorVocabulary),
    /// Deliver `PulleyHasMoved` to the pulley after one tick.
    ScheduleTick,
    /// Stop the pulley.
    PowerDown,
}

/// The pulley after handling one message, and the side effects it asks for,
/// in order.
pub open spec fn pulley_step(p: PulleyView, message: PulleyVocabulary) -> (PulleyView, Seq<PulleyAction>) {
    match message {
        PulleyVocabulary::PowerOn => (PulleyView { hooked: true, ..p }, seq![]),
        PulleyVocabulary::PowerOff => (p, seq![PulleyAction::PowerDown]),
        PulleyVocabulary::MoveToFloor(f) => if f == p.current_floor || f >= p.table.len() {
            (p, seq![])
        } else {
            (p.prepared(f), seq![PulleyAction::ScheduleTick])
        },
        PulleyVocabulary::PulleyHasMoved => if p.reached() {
            (p, seq![])
        } else {
            let m = p.moved();
            let notified = if p.hooked {
                seq![PulleyAction::Notify(ElevatorVocabulary::CurrentCarriagePosn(m.posn))]
            } else {
                seq![]
            };
            if !m.reached() {
                (m, notified.push(PulleyAction::ScheduleTick))
            } else if p.hooked {
                (m.settled(), notified.push(PulleyAction::Notify(ElevatorVocabulary::Stop(m.dest_floor))))
            } else {
                (m.settled(), notified)
            }
        },
    }
}

/// The pulley's message handler: turns commands and ticks into motion and
/// into notifications for the controller.
pub struct PulleyActor;

impl PulleyActor {
    /// A pulley at rest at floor 0 over the given floor table.
    pub fn pre_start(&self, floors_to_position_map: Vec<(i64, i64)>) -> (r: PulleyData)
        requires
            floors_to_position_map@.len() > 0,
            floors_ascending(floors_to_position_map@),
        ensures
            r@.wf(),
            r@.table == floors_to_position_map@,
            r@.current_floor == 0,
            r@.reached(),
            !r@.hooked,
    {
        PulleyData::new(floors_to_position_map)
    }

    /// Handles one message; returns the side effects to carry out, in order.
    pub fn handle(&self, message: PulleyVocabulary, carriage: &mut PulleyData) -> (r: Vec<PulleyAction>)
        requires
            old(carriage)@.wf(),
        ensures
            final(carriage)@.wf(),
            (final(carriage)@, r@) == pulley_step(old(carriage)@, message),
    {
        let mut actions: Vec<PulleyAction> = Vec::new();
        match message {
            PulleyVocabulary::PowerOn => {
                carriage.hook();
            },
            PulleyVocabulary::PowerOff => {
                actions.push(PulleyAction::PowerDown);
            },
            PulleyVocabulary::MoveToFloor(f) => {
                let (at, _) = carriage.currently_at();
                if f != at && (f as usize) < carriage.floors_to_position_map.len() {
                    carriage.prepare_for_moving(f);
                    actions.push(PulleyAction::ScheduleTick);
                }
            },
            PulleyVocabulary::PulleyHasMoved => {
                if !carriage.has_reached_dest() {
                    carriage.on_pulley_moving();
                    if carriage.controller_hooked {
                        actions.push(
                            PulleyAction::Notify(ElevatorVocabulary::CurrentCarriagePosn(carriage.current_posn)),
                        );
                    }
                    if !carriage.has_reached_dest() {
                        actions.push(PulleyAction::ScheduleTick);
                    } else {
                        carriage.adjust_floor_data();
                        if carriage.controller_hooked {
                            actions.push(
                                PulleyAction::Notify(ElevatorVocabulary::Stop(carriage.floor_data.current)),
                            );
                        }
                    }
                }
            },
        }
        actions
    }
}

} // verus!
