//! The reservation engine: the slot calendar, booking creation, status
//! transitions with their timeline, and valet dispatch.
//!
//! Every operation takes `&mut Engine`, so requests on one engine are
//! serialised: at most one of two overlapping reservations of a slot can
//! succeed, and a booking's transitions are applied one at a time.
use vstd::prelude::*;
use crate::model::{
    new_timeline_entry, timeline_entry, Actor, Booking,
    BookingTimeline, Slot, ValetAssignment,
};
use crate::pricing::{price, price_of};
use crate::status::{
    apply_event, event_target, next_status, assign_event, is_released, is_step, leg_event, outcome, releases_slot, step,
    target, BookingError, BookingStatus, Event, Leg, Transition,
};

verus! {

/// Whether `[s1, e1)` and `[s2, e2)` share an instant.
pub open spec fn overlaps(s1: i64, e1: i64, s2: i64, e2: i64) -> bool {
    s1 < e2 && s2 < e1
}

/// Whether booking `b` stands in the way of reserving `[start, end)` on
/// slot `slot_id`.
pub open spec fn blocks(b: Booking, slot_id: i32, start: i64, end: i64) -> bool {
    b.slot_id == slot_id && !releases_slot(b.status) && overlaps(b.start_time, b.end_time, start, end)
}

/// The valet holding the unconfirmed leg of a booking, if one is waiting.
pub open spec fn pending_valet(b: Booking, a: ValetAssignment) -> Option<String> {
    if b.status == BookingStatus::ValetAssignedForCheckIn {
        a.pickup_valet_id
    } else if b.status == BookingStatus::ValetAssignedForCheckOut {
        a.return_valet_id
    } else {
        None
    }
}

/// `b` after a transition to `status` at time `now`.
pub open spec fn with_status(b: Booking, status: BookingStatus, now: i64) -> Booking {
    Booking { status, updated_at: now, ..b }
}

/// `a` with `valet` on `leg`, changed at time `now`.
pub open spec fn with_valet(a: ValetAssignment, leg: Leg, valet: String, now: i64) -> ValetAssignment {
    match leg {
        Leg::Pickup => ValetAssignment { pickup_valet_id: Some(valet), updated_at: now, ..a },
        Leg::Return => ValetAssignment { return_valet_id: Some(valet), updated_at: now, ..a },
    }
}

/// Two bookings that may not both exist: `b` is active and `a` blocks its
/// interval on its slot.
pub open spec fn clash(a: Booking, b: Booking) -> bool {
    !releases_slot(b.status) && blocks(a, b.slot_id, b.start_time, b.end_time)
}

/// `a` with the hand-over point of `leg` at `(lat, lng)`, changed at time `now`.
pub open spec fn with_location(a: ValetAssignment, leg: Leg, lat: i64, lng: i64, now: i64) -> ValetAssignment {
    match leg {
        Leg::Pickup => ValetAssignment { pickup_lat: Some(lat), pickup_lng: Some(lng), updated_at: now, ..a },
        Leg::Return => ValetAssignment { return_lat: Some(lat), return_lng: Some(lng), updated_at: now, ..a },
    }
}

/// A booking's timeline is its record of transitions: it starts with
/// `Booked`, each entry follows the one before by an edge of the table at a
/// strictly later time, and the last one is the booking's current state.
#[verifier::opaque]
pub open spec fn timeline_ok(tl: Seq<BookingTimeline>, b: Booking, id: int) -> bool {
    &&& tl.len() >= 1
    &&& tl[0].status == BookingStatus::Booked
    &&& tl.last().status == b.status
    &&& forall|k: int| 0 <= k < tl.len() ==> (#[trigger] tl[k]).booking_id == id && tl[k].id == k
    &&& forall|k: int| 0 <= k < tl.len() - 1 ==> #[trigger] follows(tl[k], tl[k + 1])
}

/// Entry `b` may come right after entry `a` in a timeline: it is strictly
/// later and its state is reached from `a`'s by an edge of the table.
pub open spec fn follows(a: BookingTimeline, b: BookingTimeline) -> bool {
    a.timestamp < b.timestamp && is_step(a.status, b.status)
}

/// Slots, bookings, their valet assignments and their timelines. Booking
/// `i` is `bookings[i]`, with assignment `assignments[i]` and timeline
/// `timelines[i]`.
pub struct Engine {
    pub slots: Vec<Slot>,
    pub bookings: Vec<Booking>,
    pub assignments: Vec<ValetAssignment>,
    pub timelines: Vec<Vec<BookingTimeline>>,
}

impl Engine {
    /// The engine's invariant; among other things no slot holds two active
    /// bookings with overlapping intervals.
    pub open spec fn wf(&self) -> bool {
        &&& self.assignments@.len() == self.bookings@.len()
        &&& self.timelines@.len() == self.bookings@.len()
        &&& forall|i: int|
            0 <= i < self.bookings@.len() ==> {
                &&& (#[trigger] self.bookings@[i]).id == i
                &&& self.assignments@[i].booking_id == i
                &&& self.bookings@[i].start_time < self.bookings@[i].end_time
                &&& timeline_ok(self.timelines@[i]@, self.bookings@[i], i)
            }
        &&& self.no_double_booking()
    }

    /// No two distinct active bookings of one slot overlap.
    pub open spec fn no_double_booking(&self) -> bool {
        forall|i: int, j: int|
            0 <= i < self.bookings@.len() && 0 <= j < self.bookings@.len() && i != j ==> !#[trigger] clash(
                self.bookings@[i],
                self.bookings@[j],
            )
    }

    /// Some active booking of `slot_id` overlaps `[start, end)`.
    pub open spec fn has_conflict(&self, slot_id: i32, start: i64, end: i64) -> bool {
        exists|i: int| 0 <= i < self.bookings@.len() && blocks(#[trigger] self.bookings@[i], slot_id, start, end)
    }

    /// Some slot has id `slot_id`.
    pub open spec fn has_slot(&self, slot_id: i32) -> bool {
        exists|k: int| 0 <= k < self.slots@.len() && (#[trigger] self.slots@[k]).id == slot_id
    }

    /// `slots[k]` is the first slot with id `slot_id`.
    pub open spec fn is_first_slot(&self, k: int, slot_id: i32) -> bool {
        &&& 0 <= k < self.slots@.len()
        &&& self.slots@[k].id == slot_id
        &&& forall|m: int| 0 <= m < k ==> (#[trigger] self.slots@[m]).id != slot_id
    }

    /// Time of the latest timeline entry of booking `id`.
    pub open spec fn last_stamp(&self, id: int) -> i64 {
        self.timelines@[id]@.last().timestamp
    }

    /// Another booking than `booking_id` waits for `valet` to confirm a leg.
    pub open spec fn valet_busy_elsewhere(&self, booking_id: int, valet: Seq<char>) -> bool {
        exists|j: int|
            0 <= j < self.bookings@.len() && j != booking_id && (#[trigger] pending_valet(
                self.bookings@[j],
                self.assignments@[j],
            )) is Some && pending_valet(self.bookings@[j], self.assignments@[j])->Some_0@ == valet
    }

    /// An engine over `slots` with no bookings.
    pub fn new(slots: Vec<Slot>) -> (r: Engine)
        ensures
            r.wf(),
            r.slots == slots,
            r.bookings@.len() == 0,
    {
        Engine { slots, bookings: Vec::new(), assignments: Vec::new(), timelines: Vec::new() }
    }

    /// Index of the first slot with id `slot_id`.
    pub fn find_slot(&self, slot_id: i32) -> (r: Option<usize>)
        ensures
            match r {
                Some(k) => self.is_first_slot(k as int, slot_id),
                None => !self.has_slot(slot_id),
            },
    {
        let mut k: usize = 0;
        while k < self.slots.len()
            invariant
                k <= self.slots@.len(),
                forall|m: int| 0 <= m < k ==> (#[trigger] self.slots@[m]).id != slot_id,
            decreases self.slots@.len() - k,
        {
            if self.slots[k].id == slot_id {
                return Some(k);
            }
            k = k + 1;
        }
        None
    }

    /// Whether `[start, end)` on slot `slot_id` is free of active bookings.
    pub fn is_available(&self, slot_id: i32, start: i64, end: i64) -> (r: bool)
        ensures
            r == !self.has_conflict(slot_id, start, end),
    {
        let mut i: usize = 0;
        while i < self.bookings.len()
            invariant
                i <= self.bookings@.len(),
                forall|m: int| 0 <= m < i ==> !blocks(#[trigger] self.bookings@[m], slot_id, start, end),
            decreases self.bookings@.len() - i,
        {
            let b = &self.bookings[i];
            if b.slot_id == slot_id && !is_released(b.status) && b.start_time < end && start < b.end_time {
                return false;
            }
            i = i + 1;
        }
        true
    }
    /// Creates a booking of slot `slot_id` over `[start, end)` at time `now`:
    /// the slot must exist, the interval must be free of overlapping active
    /// bookings of that slot, and then it must be a valid interval. The new
    /// booking is `Booked`, priced at the slot's hourly rate, and its
    /// timeline holds one entry. On failure nothing changes.
    pub fn create_booking(
        &mut self,
        customer_id: String,
        slot_id: i32,
        start: i64,
        end: i64,
        vehicle_number: String,
        now: i64,
    ) -> (r: Result<usize, BookingError>)
        requires
            old(self).wf(),
        ensures
            final(self).wf(),
            !old(self).has_slot(slot_id) ==> r == Err::<usize, BookingError>(
                (BookingError::SlotNotFound { slot_id }),
            ),
            old(self).has_slot(slot_id) && old(self).has_conflict(slot_id, start, end) ==> r
                == Err::<usize, BookingError>((BookingError::SlotUnavailable { slot_id })),
            old(self).has_slot(slot_id) && !old(self).has_conflict(slot_id, start, end) && end
                <= start ==> r == Err::<usize, BookingError>(BookingError::InvalidInterval),
            old(self).has_slot(slot_id) && !old(self).has_conflict(slot_id, start, end) && start
                < end ==> r is Ok,
            r is Err ==> *final(self) == *old(self),
            r is Ok ==> {
                let id = r->Ok_0;
                let b = final(self).bookings@[id as int];
                &&& id == old(self).bookings@.len()
                &&& final(self).slots == old(self).slots
                &&& final(self).bookings@.len() == id + 1
                &&& final(self).bookings@.take(id as int) == old(self).bookings@
                &&& final(self).assignments@.take(id as int) == old(self).assignments@
                &&& final(self).timelines@.take(id as int) == old(self).timelines@
                &&& b.status == BookingStatus::Booked
                &&& b.slot_id == slot_id
                &&& b.start_time == start
                &&& b.end_time == end
                &&& b.customer_id == customer_id
                &&& b.vehicle_number == vehicle_number
                &&& b.created_at == now
                &&& forall|k: int| old(self).is_first_slot(k, slot_id) ==> {
                    &&& b.price_per_hour == Some(old(self).slots@[k].price_per_hour)
                    &&& b.total_price matches Some(t) && t == price_of(
                        old(self).slots@[k].price_per_hour,
                        start,
                        end,
                    )
                }
                &&& final(self).assignments@[id as int].pickup_valet_id is None
                &&& final(self).assignments@[id as int].return_valet_id is None
                &&& final(self).timelines@[id as int]@ == seq![
                    (BookingTimeline {
                        id: 0,
                        timestamp: now,
                        status: BookingStatus::Booked,
                        booking_id: id,
                        valet_id: None,
                        manager_id: None,
                    }),
                ]
            },
    {
        let k = match self.find_slot(slot_id) {
            Some(k) => k,
            None => return Err(BookingError::SlotNotFound { slot_id }),
        };
        if !self.is_available(slot_id, start, end) {
            return Err(BookingError::SlotUnavailable { slot_id });
        }
        let rate = self.slots[k].price_per_hour;
        let total = match price(rate, start, end) {
            Ok(t) => t,
            Err(e) => return Err(e),
        };
        proof {
            if exists|k2: int| old(self).is_first_slot(k2, slot_id) && k2 != k {
                let k2 = choose|k2: int| old(self).is_first_slot(k2, slot_id) && k2 != k;
                if k2 < k {
                    assert(self.slots@[k2].id == slot_id);
                } else {
                    assert(self.slots@[k as int].id == slot_id);
                }
            }
        }
        let id = self.bookings.len();
        let booking = Booking {
            id,
            created_at: now,
            updated_at: now,
            price_per_hour: Some(rate),
            total_price: Some(total),
            start_time: start,
            end_time: end,
            vehicle_number,
            phone_number: None,
            passcode: None,
            status: BookingStatus::Booked,
            slot_id,
            customer_id,
        };
        let assignment = ValetAssignment {
            booking_id: id,
            created_at: now,
            updated_at: now,
            pickup_lat: None,
            pickup_lng: None,
            return_lat: None,
            return_lng: None,
            pickup_valet_id: None,
            return_valet_id: None,
        };
        let entry = BookingTimeline {
            id: 0,
            timestamp: now,
            status: BookingStatus::Booked,
            booking_id: id,
            valet_id: None,
            manager_id: None,
        };
        let mut tl: Vec<BookingTimeline> = Vec::new();
        tl.push(entry);
        let ghost pre = *self;
        self.bookings.push(booking);
        self.assignments.push(assignment);
        self.timelines.push(tl);
        proof {
            assert(self.bookings@.drop_last() =~= pre.bookings@);
            assert(self.timelines@[id as int]@ =~= seq![entry]);
            reveal(timeline_ok);
            lemma_wf_after_push(pre, *self);
            assert(self.bookings@.take(id as int) =~= pre.bookings@);
            assert(self.assignments@.take(id as int) =~= pre.assignments@);
            assert(self.timelines@.take(id as int) =~= pre.timelines@);
        }
        Ok(id)
    }

    /// `self` is `pre` after booking `id` moved to `status` at time `now` on
    /// a request of `actor`: the booking's state and change time are updated
    /// and its timeline gains one entry; nothing else differs.
    pub open spec fn transitioned(&self, pre: Engine, id: int, status: BookingStatus, now: i64, actor: Actor) -> bool {
        &&& self.slots == pre.slots
        &&& self.bookings@ == pre.bookings@.update(id, with_status(pre.bookings@[id], status, now))
        &&& self.timelines@.len() == pre.timelines@.len()
        &&& forall|j: int| 0 <= j < self.timelines@.len() && j != id ==> #[trigger] self.timelines@[j] == pre.timelines@[j]
        &&& self.timelines@[id]@ == pre.timelines@[id]@.push(
            timeline_entry(pre.timelines@[id]@.len() as usize, now, status, id as usize, actor),
        )
    }

    /// Moves booking `id` along the edge `event` and appends the timeline entry.
    fn record_transition(&mut self, id: usize, event: Event, status: BookingStatus, actor: Actor, now: i64)
        requires
            old(self).wf(),
            id < old(self).bookings@.len(),
            step(old(self).bookings@[id as int].status, event) == Some(status),
            now > old(self).last_stamp(id as int),
        ensures
            final(self).wf(),
            final(self).assignments == old(self).assignments,
            final(self).transitioned(*old(self), id as int, status, now, actor),
    {
        let ghost pre = *self;
        let k = self.timelines[id].len();
        let entry = new_timeline_entry(k, now, status, id, actor);
        self.bookings[id].status = status;
        self.bookings[id].updated_at = now;
        self.timelines[id].push(entry);
        proof {
            assert(self.bookings@ =~= pre.bookings@.update(id as int, with_status(pre.bookings@[id as int], status, now)));
            lemma_wf_after_transition(pre, *self, id as int, event, status, now, entry);
        }
    }

    /// Whether `valet` holds an unconfirmed leg of a booking other than
    /// `booking_id`.
    pub fn is_valet_busy_elsewhere(&self, booking_id: usize, valet: &String) -> (r: bool)
        requires
            self.wf(),
        ensures
            r == self.valet_busy_elsewhere(booking_id as int, valet@),
    {
        let mut j: usize = 0;
        while j < self.bookings.len()
            invariant
                self.wf(),
                j <= self.bookings@.len(),
                forall|m: int|
                    0 <= m < j && m != booking_id ==> !((#[trigger] pending_valet(
                        self.bookings@[m],
                        self.assignments@[m],
                    )) is Some && pending_valet(self.bookings@[m], self.assignments@[m])->Some_0@ == valet@),
            decreases self.bookings@.len() - j,
        {
            if j != booking_id {
                let busy = match self.bookings[j].status {
                    BookingStatus::ValetAssignedForCheckIn => match &self.assignments[j].pickup_valet_id {
                        Some(v) => v.eq(valet),
                        None => false,
                    },
                    BookingStatus::ValetAssignedForCheckOut => match &self.assignments[j].return_valet_id {
                        Some(v) => v.eq(valet),
                        None => false,
                    },
                    _ => false,
                };
                if busy {
                    assert(pending_valet(self.bookings@[j as int], self.assignments@[j as int]) is Some);
                    return true;
                }
            }
            j = j + 1;
        }
        false
    }

    /// Applies `event` to booking `booking_id` at time `now` on a request of
    /// `actor`. An edge of the table moves the booking and appends one
    /// timeline entry; an event the booking has already gone through is a
    /// no-op; any other event is an illegal transition. A time not after
    /// the booking's latest entry is a concurrency conflict. Whatever fails
    /// or is a no-op changes nothing.
    pub fn confirm_transition(&mut self, booking_id: usize, event: Event, actor: Actor, now: i64) -> (r: Result<
        Transition,
        BookingError,
    >)
        requires
            old(self).wf(),
        ensures
            final(self).wf(),
            booking_id >= old(self).bookings@.len() ==> r == Err::<Transition, BookingError>(
                (BookingError::BookingNotFound { booking_id }),
            ),
            booking_id < old(self).bookings@.len() ==> {
                let s = old(self).bookings@[booking_id as int].status;
                &&& step(s, event) is None ==> r == outcome(s, event)
                &&& step(s, event) is Some && now <= old(self).last_stamp(booking_id as int) ==> r
                    == Err::<Transition, BookingError>((BookingError::ConcurrencyConflict { booking_id }))
                &&& step(s, event) is Some && now > old(self).last_stamp(booking_id as int) ==> r
                    == outcome(s, event)
            },
            r != Ok::<Transition, BookingError>(Transition::Applied(target(event))) ==> *final(self)
                == *old(self),
            r == Ok::<Transition, BookingError>(Transition::Applied(target(event))) ==> {
                &&& final(self).assignments == old(self).assignments
                &&& final(self).transitioned(*old(self), booking_id as int, target(event), now, actor)
            },
    {
        if booking_id >= self.bookings.len() {
            return Err(BookingError::BookingNotFound { booking_id });
        }
        let s = self.bookings[booking_id].status;
        match next_status(s, event) {
            None => apply_event(s, event),
            Some(t) => {
                let k = self.timelines[booking_id].len();
                proof {
                    reveal(timeline_ok);
                }
                if now <= self.timelines[booking_id][k - 1].timestamp {
                    return Err(BookingError::ConcurrencyConflict { booking_id });
                }
                self.record_transition(booking_id, event, t, actor, now);
                Ok(Transition::Applied(t))
            },
        }
    }

    /// Puts `valet` on `leg` of booking `id`.
    fn set_valet(&mut self, id: usize, leg: Leg, valet: String, now: i64)
        requires
            old(self).wf(),
            id < old(self).bookings@.len(),
        ensures
            final(self).wf(),
            final(self).slots == old(self).slots,
            final(self).bookings == old(self).bookings,
            final(self).timelines == old(self).timelines,
            final(self).assignments@ == old(self).assignments@.update(
                id as int,
                with_valet(old(self).assignments@[id as int], leg, valet, now),
            ),
    {
        let ghost pre = *self;
        match leg {
            Leg::Pickup => {
                self.assignments[id].pickup_valet_id = Some(valet);
            },
            Leg::Return => {
                self.assignments[id].return_valet_id = Some(valet);
            },
        }
        self.assignments[id].updated_at = now;
        proof {
            assert(self.assignments@ =~= pre.assignments@.update(
                id as int,
                with_valet(pre.assignments@[id as int], leg, valet, now),
            ));
            assert forall|i: int| 0 <= i < self.bookings@.len() implies {
                &&& (#[trigger] self.bookings@[i]).id == i
                &&& self.assignments@[i].booking_id == i
                &&& self.bookings@[i].start_time < self.bookings@[i].end_time
                &&& timeline_ok(self.timelines@[i]@, self.bookings@[i], i)
            } by {
                assert(pre.bookings@[i] == self.bookings@[i]);
            }
            assert(self.no_double_booking());
        }
    }

    /// Assigns `valet_id` to `leg` of booking `booking_id` at time `now` on
    /// a request of `actor`. The booking must be where the leg's assignment
    /// event is legal, or already assigned for that leg (then the valet is
    /// replaced without a timeline entry); the valet must not hold an
    /// unconfirmed leg of another booking. A first assignment moves the
    /// booking and appends one timeline entry. On failure nothing changes.
    pub fn assign_valet(&mut self, booking_id: usize, leg: Leg, valet_id: String, actor: Actor, now: i64) -> (r: Result<
        Transition,
        BookingError,
    >)
        requires
            old(self).wf(),
        ensures
            final(self).wf(),
            booking_id >= old(self).bookings@.len() ==> r == Err::<Transition, BookingError>(
                (BookingError::BookingNotFound { booking_id }),
            ),
            booking_id < old(self).bookings@.len() ==> {
                let s = old(self).bookings@[booking_id as int].status;
                let ev = assign_event(leg);
                let busy = old(self).valet_busy_elsewhere(booking_id as int, valet_id@);
                &&& outcome(s, ev) is Err ==> r == outcome(s, ev)
                &&& outcome(s, ev) is Ok && busy ==> r == Err::<Transition, BookingError>(
                    (BookingError::ValetUnavailable { valet_id }),
                )
                &&& step(s, ev) is Some && !busy && now <= old(self).last_stamp(booking_id as int) ==> r
                    == Err::<Transition, BookingError>((BookingError::ConcurrencyConflict { booking_id }))
                &&& step(s, ev) is Some && !busy && now > old(self).last_stamp(booking_id as int) ==> r
                    == Ok::<Transition, BookingError>(Transition::Applied(target(ev)))
                &&& outcome(s, ev) is Ok && step(s, ev) is None && !busy ==> r == Ok::<
                    Transition,
                    BookingError,
                >(Transition::AlreadyApplied(s))
            },
            r is Err ==> *final(self) == *old(self),
            r is Ok ==> final(self).assignments@ == old(self).assignments@.update(
                booking_id as int,
                with_valet(old(self).assignments@[booking_id as int], leg, valet_id, now),
            ),
            r == Ok::<Transition, BookingError>(Transition::Applied(target(assign_event(leg))))
                ==> final(self).transitioned(*old(self), booking_id as int, target(assign_event(leg)), now, actor),
            r is Ok && r != Ok::<Transition, BookingError>(Transition::Applied(target(assign_event(leg)))) ==> {
                &&& final(self).slots == old(self).slots
                &&& final(self).bookings == old(self).bookings
                &&& final(self).timelines == old(self).timelines
            },
    {
        if booking_id >= self.bookings.len() {
            return Err(BookingError::BookingNotFound { booking_id });
        }
        let s = self.bookings[booking_id].status;
        let ev = leg_event(leg);
        let legal = next_status(s, ev);
        if legal.is_none() && event_target(ev) != s {
            return Err(BookingError::IllegalTransition { from: s, event: ev });
        }
        if self.is_valet_busy_elsewhere(booking_id, &valet_id) {
            return Err(BookingError::ValetUnavailable { valet_id });
        }
        match legal {
            Some(t) => {
                let k = self.timelines[booking_id].len();
                proof {
                    reveal(timeline_ok);
                }
                if now <= self.timelines[booking_id][k - 1].timestamp {
                    return Err(BookingError::ConcurrencyConflict { booking_id });
                }
                let ghost pre = *self;
                self.record_transition(booking_id, ev, t, actor, now);
                self.set_valet(booking_id, leg, valet_id, now);
                proof {
                    assert(self.transitioned(pre, booking_id as int, t, now, actor));
                }
                Ok(Transition::Applied(t))
            },
            None => {
                self.set_valet(booking_id, leg, valet_id, now);
                Ok(Transition::AlreadyApplied(s))
            },
        }
    }

    /// Cancels booking `booking_id` at time `now` on a request of `actor`:
    /// the `Cancel` event of the transition table, possible only before the
    /// vehicle is picked up. A cancelled booking no longer holds its slot.
    pub fn cancel_booking(&mut self, booking_id: usize, actor: Actor, now: i64) -> (r: Result<
        Transition,
        BookingError,
    >)
        requires
            old(self).wf(),
        ensures
            final(self).wf(),
            booking_id >= old(self).bookings@.len() ==> r == Err::<Transition, BookingError>(
                (BookingError::BookingNotFound { booking_id }),
            ),
            booking_id < old(self).bookings@.len() ==> {
                let s = old(self).bookings@[booking_id as int].status;
                &&& step(s, Event::Cancel) is None ==> r == outcome(s, Event::Cancel)
                &&& step(s, Event::Cancel) is Some && now <= old(self).last_stamp(booking_id as int) ==> r
                    == Err::<Transition, BookingError>((BookingError::ConcurrencyConflict { booking_id }))
                &&& step(s, Event::Cancel) is Some && now > old(self).last_stamp(booking_id as int) ==> r
                    == Ok::<Transition, BookingError>(Transition::Applied(BookingStatus::Cancelled))
            },
            r != Ok::<Transition, BookingError>(Transition::Applied(BookingStatus::Cancelled))
                ==> *final(self) == *old(self),
            r == Ok::<Transition, BookingError>(Transition::Applied(BookingStatus::Cancelled)) ==> {
                &&& final(self).assignments == old(self).assignments
                &&& final(self).transitioned(*old(self), booking_id as int, BookingStatus::Cancelled, now, actor)
            },
    {
        self.confirm_transition(booking_id, Event::Cancel, actor, now)
    }

    /// Records where the vehicle was handed over on `leg` of booking
    /// `booking_id`, in millionths of a degree. Nothing else changes.
    pub fn record_location(&mut self, booking_id: usize, leg: Leg, lat: i64, lng: i64, now: i64) -> (r: Result<
        (),
        BookingError,
    >)
        requires
            old(self).wf(),
        ensures
            final(self).wf(),
            booking_id >= old(self).bookings@.len() ==> r == Err::<(), BookingError>(
                (BookingError::BookingNotFound { booking_id }),
            ),
            booking_id < old(self).bookings@.len() ==> r is Ok,
            r is Err ==> *final(self) == *old(self),
            r is Ok ==> {
                &&& final(self).slots == old(self).slots
                &&& final(self).bookings == old(self).bookings
                &&& final(self).timelines == old(self).timelines
                &&& final(self).assignments@ == old(self).assignments@.update(
                    booking_id as int,
                    with_location(old(self).assignments@[booking_id as int], leg, lat, lng, now),
                )
            },
    {
        if booking_id >= self.bookings.len() {
            return Err(BookingError::BookingNotFound { booking_id });
        }
        let ghost pre = *self;
        match leg {
            Leg::Pickup => {
                self.assignments[booking_id].pickup_lat = Some(lat);
                self.assignments[booking_id].pickup_lng = Some(lng);
            },
            Leg::Return => {
                self.assignments[booking_id].return_lat = Some(lat);
                self.assignments[booking_id].return_lng = Some(lng);
            },
        }
        self.assignments[booking_id].updated_at = now;
        proof {
            assert(self.assignments@ =~= pre.assignments@.update(
                booking_id as int,
                with_location(pre.assignments@[booking_id as int], leg, lat, lng, now),
            ));
            assert forall|i: int| 0 <= i < self.bookings@.len() implies {
                &&& (#[trigger] self.bookings@[i]).id == i
                &&& self.assignments@[i].booking_id == i
                &&& self.bookings@[i].start_time < self.bookings@[i].end_time
                &&& timeline_ok(self.timelines@[i]@, self.bookings@[i], i)
            } by {
                assert(pre.bookings@[i] == self.bookings@[i]);
            }
            assert(self.no_double_booking());
        }
        Ok(())
    }
}

/// Appending a fresh `Booked` booking whose interval is free on its slot
/// keeps the invariant.
proof fn lemma_wf_after_push(pre: Engine, post: Engine)
    requires
        pre.wf(),
        post.bookings@.len() == pre.bookings@.len() + 1,
        post.bookings@.drop_last() == pre.bookings@,
        post.assignments@ == pre.assignments@.push(post.assignments@.last()),
        post.timelines@ == pre.timelines@.push(post.timelines@.last()),
        post.bookings@.last().id == pre.bookings@.len(),
        post.assignments@.last().booking_id == pre.bookings@.len(),
        post.bookings@.last().start_time < post.bookings@.last().end_time,
        post.bookings@.last().status == BookingStatus::Booked,
        timeline_ok(post.timelines@.last()@, post.bookings@.last(), pre.bookings@.len() as int),
        !pre.has_conflict(
            post.bookings@.last().slot_id,
            post.bookings@.last().start_time,
            post.bookings@.last().end_time,
        ),
    ensures
        post.wf(),
{
    let n = pre.bookings@.len() as int;
    let nb = post.bookings@.last();
    assert forall|i: int| 0 <= i < n implies #[trigger] post.bookings@[i] == pre.bookings@[i] by {
        assert(post.bookings@.drop_last()[i] == post.bookings@[i]);
    }
    assert forall|i: int, j: int|
        0 <= i < post.bookings@.len() && 0 <= j < post.bookings@.len() && i != j implies !#[trigger] clash(
        post.bookings@[i],
        post.bookings@[j],
    ) by {
        if i == n {
            assert(post.bookings@[j] == pre.bookings@[j]);
            assert(!blocks(pre.bookings@[j], nb.slot_id, nb.start_time, nb.end_time));
        } else if j == n {
            assert(post.bookings@[i] == pre.bookings@[i]);
            assert(!blocks(pre.bookings@[i], nb.slot_id, nb.start_time, nb.end_time));
        } else {
            assert(post.bookings@[i] == pre.bookings@[i]);
            assert(post.bookings@[j] == pre.bookings@[j]);
            assert(!clash(pre.bookings@[i], pre.bookings@[j]));
        }
    }
    assert forall|i: int| 0 <= i < post.bookings@.len() implies {
        &&& (#[trigger] post.bookings@[i]).id == i
        &&& post.assignments@[i].booking_id == i
        &&& post.bookings@[i].start_time < post.bookings@[i].end_time
        &&& timeline_ok(post.timelines@[i]@, post.bookings@[i], i)
    } by {
        if i < n {
            assert(pre.bookings@[i] == post.bookings@[i]);
            assert(pre.timelines@[i] == post.timelines@[i]);
            assert(pre.assignments@[i] == post.assignments@[i]);
        }
    }
}

/// A step of the table never takes a booking that released its slot back
/// to one that holds it.
proof fn lemma_step_keeps_release(s: BookingStatus, e: Event)
    requires
        step(s, e) is Some,
    ensures
        releases_slot(s) ==> releases_slot(step(s, e).unwrap()),
{
}

/// The timeline of a booking moved along an edge of the table at a time
/// later than its latest entry, with the entry for that move appended, is
/// still its record of transitions.
proof fn lemma_timeline_after_step(
    old_tl: Seq<BookingTimeline>,
    b: Booking,
    id: int,
    event: Event,
    status: BookingStatus,
    now: i64,
    entry: BookingTimeline,
)
    requires
        timeline_ok(old_tl, b, id),
        step(b.status, event) == Some(status),
        now > old_tl.last().timestamp,
        entry.id == old_tl.len(),
        entry.timestamp == now,
        entry.status == status,
        entry.booking_id == id,
    ensures
        timeline_ok(old_tl.push(entry), with_status(b, status, now), id),
{
    reveal(timeline_ok);
    let tl = old_tl.push(entry);
    assert forall|k: int| 0 <= k < tl.len() - 1 implies #[trigger] follows(tl[k], tl[k + 1]) by {
        if k == tl.len() - 2 {
            assert(tl[k] == old_tl.last());
            assert(step(tl[k].status, event) == Some(tl[k + 1].status));
        } else {
            assert(tl[k] == old_tl[k]);
            assert(tl[k + 1] == old_tl[k + 1]);
            assert(follows(old_tl[k], old_tl[k + 1]));
        }
    }
    assert forall|k: int| 0 <= k < tl.len() implies (#[trigger] tl[k]).booking_id == id && tl[k].id == k by {
        if k < old_tl.len() {
            assert(tl[k] == old_tl[k]);
        }
    }
}

/// Moving one booking along an edge of the table at a time later than its
/// latest timeline entry, and logging it, keeps the invariant.
proof fn lemma_wf_after_transition(
    pre: Engine,
    post: Engine,
    id: int,
    event: Event,
    status: BookingStatus,
    now: i64,
    entry: BookingTimeline,
)
    requires
        pre.wf(),
        0 <= id < pre.bookings@.len(),
        step(pre.bookings@[id].status, event) == Some(status),
        now > pre.last_stamp(id),
        entry.id == pre.timelines@[id]@.len(),
        entry.timestamp == now,
        entry.status == status,
        entry.booking_id == id,
        post.slots == pre.slots,
        post.assignments == pre.assignments,
        post.bookings@ == pre.bookings@.update(id, with_status(pre.bookings@[id], status, now)),
        post.timelines@.len() == pre.timelines@.len(),
        forall|j: int| 0 <= j < post.timelines@.len() && j != id ==> #[trigger] post.timelines@[j] == pre.timelines@[j],
        post.timelines@[id]@ == pre.timelines@[id]@.push(entry),
    ensures
        post.wf(),
{
    lemma_step_keeps_release(pre.bookings@[id].status, event);
    assert forall|i: int, j: int|
        0 <= i < post.bookings@.len() && 0 <= j < post.bookings@.len() && i != j implies !#[trigger] clash(
        post.bookings@[i],
        post.bookings@[j],
    ) by {
        assert(!clash(pre.bookings@[i], pre.bookings@[j]));
    }
    lemma_timeline_after_step(pre.timelines@[id]@, pre.bookings@[id], id, event, status, now, entry);
    assert forall|i: int| 0 <= i < post.bookings@.len() implies {
        &&& (#[trigger] post.bookings@[i]).id == i
        &&& post.assignments@[i].booking_id == i
        &&& post.bookings@[i].start_time < post.bookings@[i].end_time
        &&& timeline_ok(post.timelines@[i]@, post.bookings@[i], i)
    } by {
        if i != id {
            assert(post.timelines@[i] == pre.timelines@[i]);
        }
    }
}

/// No slot ever holds two distinct active bookings whose intervals overlap.
pub proof fn lemma_no_double_booking(e: Engine, i: int, j: int)
    requires
        e.wf(),
        0 <= i < e.bookings@.len(),
        0 <= j < e.bookings@.len(),
        i != j,
        e.bookings@[i].slot_id == e.bookings@[j].slot_id,
        !releases_slot(e.bookings@[i].status),
        !releases_slot(e.bookings@[j].status),
    ensures
        !overlaps(
            e.bookings@[i].start_time,
            e.bookings@[i].end_time,
            e.bookings@[j].start_time,
            e.bookings@[j].end_time,
        ),
{
    assert(!clash(e.bookings@[i], e.bookings@[j]));
}

/// A booking's timeline opens with `Booked`, ends with the booking's
/// current state, and each entry is strictly later than the one before and
/// reached from it by an edge of the transition table.
pub proof fn lemma_timeline_ordered(e: Engine, id: int, k: int)
    requires
        e.wf(),
        0 <= id < e.bookings@.len(),
        0 <= k < e.timelines@[id]@.len() - 1,
    ensures
        e.timelines@[id]@[0].status == BookingStatus::Booked,
        e.timelines@[id]@.last().status == e.bookings@[id].status,
        e.timelines@[id]@[k].timestamp < e.timelines@[id]@[k + 1].timestamp,
        is_step(e.timelines@[id]@[k].status, e.timelines@[id]@[k + 1].status),
{
    reveal(timeline_ok);
    assert(timeline_ok(e.timelines@[id]@, e.bookings@[id], id));
    assert(follows(e.timelines@[id]@[k], e.timelines@[id]@[k + 1]));
}

/// Once an event has moved a booking, submitting the same event again finds
/// the booking where the event leads and is answered as already applied.
pub proof fn lemma_transition_then_repeat_is_noop(
    pre: Engine,
    post: Engine,
    id: int,
    event: Event,
    now: i64,
    actor: Actor,
)
    requires
        0 <= id < pre.bookings@.len(),
        step(pre.bookings@[id].status, event) is Some,
        post.transitioned(pre, id, target(event), now, actor),
    ensures
        post.bookings@[id].status == target(event),
        outcome(post.bookings@[id].status, event) == Ok::<Transition, BookingError>(
            Transition::AlreadyApplied(target(event)),
        ),
{
    crate::status::lemma_reapply_is_noop(pre.bookings@[id].status, event);
    crate::status::lemma_step_reaches_target(pre.bookings@[id].status, event);
}

} // verus!
