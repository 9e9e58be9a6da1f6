use vstd::prelude::*;

verus! {

/// The carriage's destination data as a mathematical value.
pub ghost struct CarriageView {
    pub current: u8,
    pub dest: Option<u8>,
    pub queue: Seq<u8>,
    pub max_floor: u16,
    pub emergency: bool,
}

impl CarriageView {
    /// The current floor and the destination, when set, lie in `[0, max_floor]`.
    pub open spec fn wf(self) -> bool {
        &&& self.current <= self.max_floor
        &&& self.dest matches Some(d) ==> d <= self.max_floor
    }

    /// A new destination is taken only when it is in range.
    pub open spec fn with_destination(self, floor: u8) -> CarriageView {
        if floor <= self.max_floor {
            CarriageView { dest: Some(floor), ..self }
        } else {
            self
        }
    }

    /// On arrival the destination, when set, becomes the current floor.
    pub open spec fn arrived(self) -> CarriageView {
        match self.dest {
            Some(d) => CarriageView { current: d, dest: None, ..self },
            None => self,
        }
    }

    pub open spec fn enqueued(self, floor: u8) -> CarriageView {
        CarriageView { queue: self.queue.push(floor), ..self }
    }

    pub open spec fn dequeued(self) -> CarriageView {
        CarriageView { queue: self.queue.drop_first(), ..self }
    }

    pub open spec fn with_emergency(self) -> CarriageView {
        CarriageView { emergency: true, ..self }
    }
}

/// The state the controller keeps of its carriage: where it is, where it
/// goes, the requests waiting in arrival order, and whether an emergency
/// stop was asked for.
#[derive(Debug)]
pub struct CarriageData {
    current_floor: u8,
    dest_floor: Option<u8>,
    next_dests_waiting_list: Vec<u8>,
    mx_floors: u16,
    emergency_op_requested: bool,
}

impl View for CarriageData {
    type V = CarriageView;

    closed spec fn view(&self) -> CarriageView {
        CarriageView {
            current: self.current_floor,
            dest: self.dest_floor,
            queue: self.next_dests_waiting_list@,
            max_floor: self.mx_floors,
            emergency: self.emergency_op_requested,
        }
    }
}

impl CarriageData {
    /// A carriage at floor 0 of an installation of `mx_floors` floors,
    /// numbered from 0 to `mx_floors - 1`.
    pub fn new(mx_floors: u16) -> (r: Self)
        requires
            mx_floors >= 1,
        ensures
            r@ == (CarriageView {
                current: 0,
                dest: None,
                queue: Seq::empty(),
                max_floor: (mx_floors - 1) as u16,
                emergency: false,
            }),
            r@.wf(),
    {
        CarriageData {
            current_floor: 0,
            dest_floor: None,
            next_dests_waiting_list: Vec::new(),
            mx_floors: mx_floors - 1,
            emergency_op_requested: false,
        }
    }

    /// The floor the carriage is at.
    pub fn where_is(&self) -> (r: u8)
        ensures
            r == self@.current,
    {
        self.current_floor
    }

    /// The destination now set, if any.
    pub fn destination(&self) -> (r: Option<u8>)
        ensures
            r == self@.dest,
    {
        self.dest_floor
    }

    /// Whether the carriage is at `floor_index`.
    pub fn already_at_floor(&self, floor_index: u8) -> (r: bool)
        ensures
            r == (self@.current == floor_index),
    {
        self.current_floor == floor_index
    }

    /// Sets the destination to `dest_floor` when it is in range; a floor
    /// out of range leaves the destination as it was. Returns the current floor.
    pub fn set_next_destination(&mut self, dest_floor: u8) -> (r: u8)
        ensures
            final(self)@ == old(self)@.with_destination(dest_floor),
            r == old(self)@.current,
            old(self)@.wf() ==> final(self)@.wf(),
    {
        if dest_floor as u16 <= self.mx_floors {
            self.dest_floor = Some(dest_floor);
        }
        self.current_floor
    }

    /// Appends `floor_id` to the requests waiting.
    pub fn enqueue_next_destination(&mut self, floor_id: u8)
        ensures
            final(self)@ == old(self)@.enqueued(floor_id),
            old(self)@.wf() ==> final(self)@.wf(),
    {
        self.next_dests_waiting_list.push(floor_id);
    }

    /// Commits the destination, when one is set, as the current floor and
    /// clears it. Returns the current floor afterwards.
    pub fn on_arrival(&mut self) -> (r: u8)
        ensures
            final(self)@ == old(self)@.arrived(),
            r == final(self)@.current,
            old(self)@.wf() ==> final(self)@.wf(),
    {
        match self.dest_floor.take() {
            Some(d) => {
                self.current_floor = d;
            },
            None => {},
        }
        self.current_floor
    }

    /// Whether any request is waiting.
    pub fn any_destination_in_queue(&self) -> (r: bool)
        ensures
            r == (self@.queue.len() > 0),
    {
        !self.next_dests_waiting_list.is_empty()
    }

    /// Takes the oldest waiting request, if any.
    pub fn dequeue_next_destination(&mut self) -> (r: Option<u8>)
        ensures
            old(self)@.queue.len() == 0 ==> r is None && final(self)@ == old(self)@,
            old(self)@.queue.len() > 0 ==> r == Some(old(self)@.queue[0]) && final(self)@
                == old(self)@.dequeued(),
            old(self)@.wf() ==> final(self)@.wf(),
    {
        if !self.next_dests_waiting_list.is_empty() {
            let head = self.next_dests_waiting_list.remove(0);
            proof {
                assert(self@.queue =~= old(self)@.queue.drop_first());
            }
            Some(head)
        } else {
            None
        }
    }

    /// Records that an emergency stop was asked for.
    pub fn prepare_for_emergency(&mut self)
        ensures
            final(self)@ == old(self)@.with_emergency(),
            old(self)@.wf() ==> final(self)@.wf(),
    {
        self.emergency_op_requested = true;
    }

    /// Whether an emergency stop was asked for.
    pub fn is_emergency_op_requested(&self) -> (r: bool)
        ensures
            r == self@.emergency,
    {
        self.emergency_op_requested
    }
}

} // verus!
