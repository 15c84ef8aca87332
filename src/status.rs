//! Booking states, the events that move a booking between them, and the
//! transition table.
use vstd::prelude::*;

verus! {

/// Kind of vehicle a slot is built for.
#[derive(Debug, Clone, Copy, PartialEq, Eq, Structural)]
pub enum SlotType {
    Car,
    Heavy,
    Bike,
    Bicycle,
}

/// How a user signs in.
#[derive(Debug, Clone, Copy, PartialEq, Eq, Structural)]
pub enum AuthProviderType {
    Google,
    Credentials,
}

/// The sign-in method registered for a user.
#[derive(Debug, Clone)]
pub struct AuthProvider {
    pub uid: String,
    pub auth_type: AuthProviderType,
}

/// Lifecycle state of a booking.
#[derive(Debug, Clone, Copy, PartialEq, Eq, Structural)]
pub enum BookingStatus {
    Booked,
    ValetAssignedForCheckIn,
    ValetPickedUp,
    CheckedIn,
    ValetAssignedForCheckOut,
    CheckedOut,
    ValetReturned,
    /// Withdrawn before the vehicle was picked up.
    Cancelled,
}

/// Something that happens to a booking and may move it to another state.
#[derive(Debug, Clone, Copy, PartialEq, Eq, Structural)]
pub enum Event {
    AssignPickupValet,
    ConfirmPickup,
    CheckIn,
    AssignReturnValet,
    ConfirmReturnPickup,
    ConfirmDelivery,
    Cancel,
}

/// The half of the valet workflow an assignment is for.
#[derive(Debug, Clone, Copy, PartialEq, Eq, Structural)]
pub enum Leg {
    Pickup,
    Return,
}

/// The transition table: the state reached from `from` on `event`, if the
/// table has that edge.
pub open spec fn step(from: BookingStatus, event: Event) -> Option<BookingStatus> {
    match (from, event) {
        (BookingStatus::Booked, Event::AssignPickupValet) => Some(BookingStatus::ValetAssignedForCheckIn),
        (BookingStatus::ValetAssignedForCheckIn, Event::ConfirmPickup) => Some(BookingStatus::ValetPickedUp),
        (BookingStatus::ValetPickedUp, Event::CheckIn) => Some(BookingStatus::CheckedIn),
        (BookingStatus::CheckedIn, Event::AssignReturnValet) => Some(BookingStatus::ValetAssignedForCheckOut),
        (BookingStatus::ValetAssignedForCheckOut, Event::ConfirmReturnPickup) => Some(BookingStatus::CheckedOut),
        (BookingStatus::CheckedOut, Event::ConfirmDelivery) => Some(BookingStatus::ValetReturned),
        (BookingStatus::Booked, Event::Cancel) => Some(BookingStatus::Cancelled),
        (BookingStatus::ValetAssignedForCheckIn, Event::Cancel) => Some(BookingStatus::Cancelled),
        _ => None,
    }
}

/// The state every edge labelled `event` leads to.
pub open spec fn target(event: Event) -> BookingStatus {
    match event {
        Event::AssignPickupValet => BookingStatus::ValetAssignedForCheckIn,
        Event::ConfirmPickup => BookingStatus::ValetPickedUp,
        Event::CheckIn => BookingStatus::CheckedIn,
        Event::AssignReturnValet => BookingStatus::ValetAssignedForCheckOut,
        Event::ConfirmReturnPickup => BookingStatus::CheckedOut,
        Event::ConfirmDelivery => BookingStatus::ValetReturned,
        Event::Cancel => BookingStatus::Cancelled,
    }
}

/// Whether some edge of the table leads from `a` to `b`.
pub open spec fn is_step(a: BookingStatus, b: BookingStatus) -> bool {
    ||| step(a, Event::AssignPickupValet) == Some(b)
    ||| step(a, Event::ConfirmPickup) == Some(b)
    ||| step(a, Event::CheckIn) == Some(b)
    ||| step(a, Event::AssignReturnValet) == Some(b)
    ||| step(a, Event::ConfirmReturnPickup) == Some(b)
    ||| step(a, Event::ConfirmDelivery) == Some(b)
    ||| step(a, Event::Cancel) == Some(b)
}

/// A booking in this state no longer holds its slot.
pub open spec fn releases_slot(s: BookingStatus) -> bool {
    s == BookingStatus::CheckedOut || s == BookingStatus::ValetReturned || s == BookingStatus::Cancelled
}

/// The event that assigns a valet to the given leg.
pub open spec fn assign_event(leg: Leg) -> Event {
    match leg {
        Leg::Pickup => Event::AssignPickupValet,
        Leg::Return => Event::AssignReturnValet,
    }
}

/// What a successful request did to a booking's state.
#[derive(Debug, Clone, Copy, PartialEq, Eq, Structural)]
pub enum Transition {
    /// The booking moved to this state.
    Applied(BookingStatus),
    /// The request had already been applied; the booking stays in this state.
    AlreadyApplied(BookingStatus),
}

/// Every failure the engine reports.
#[derive(Debug, Clone, PartialEq, Eq)]
pub enum BookingError {
    /// The slot already holds an active booking whose interval overlaps.
    SlotUnavailable { slot_id: i32 },
    /// The interval ends at or before its start.
    InvalidInterval,
    /// The event has no edge from the booking's current state.
    IllegalTransition { from: BookingStatus, event: Event },
    /// The valet holds an unconfirmed assignment for another booking.
    ValetUnavailable { valet_id: String },
    /// No booking has this id.
    BookingNotFound { booking_id: usize },
    /// No slot has this id.
    SlotNotFound { slot_id: i32 },
    /// The request carries a time not after the booking's latest timeline
    /// entry: another change got there first, and the caller may retry.
    ConcurrencyConflict { booking_id: usize },
}

/// What the state machine answers to `event` in state `from`: the edge of the
/// table if there is one, a no-op if the booking already sits where the event
/// leads, and otherwise an illegal transition.
pub open spec fn outcome(from: BookingStatus, event: Event) -> Result<Transition, BookingError> {
    match step(from, event) {
        Some(t) => Ok(Transition::Applied(t)),
        None => if target(event) == from {
            Ok(Transition::AlreadyApplied(from))
        } else {
            Err(BookingError::IllegalTransition { from, event })
        },
    }
}

/// The state `event` leads to.
pub fn event_target(event: Event) -> (r: BookingStatus)
    ensures
        r == target(event),
{
    match event {
        Event::AssignPickupValet => BookingStatus::ValetAssignedForCheckIn,
        Event::ConfirmPickup => BookingStatus::ValetPickedUp,
        Event::CheckIn => BookingStatus::CheckedIn,
        Event::AssignReturnValet => BookingStatus::ValetAssignedForCheckOut,
        Event::ConfirmReturnPickup => BookingStatus::CheckedOut,
        Event::ConfirmDelivery => BookingStatus::ValetReturned,
        Event::Cancel => BookingStatus::Cancelled,
    }
}

/// Looks `event` up in the transition table from state `from`.
pub fn next_status(from: BookingStatus, event: Event) -> (r: Option<BookingStatus>)
    ensures
        r == step(from, event),
{
    match (from, event) {
        (BookingStatus::Booked, Event::AssignPickupValet) => Some(BookingStatus::ValetAssignedForCheckIn),
        (BookingStatus::ValetAssignedForCheckIn, Event::ConfirmPickup) => Some(BookingStatus::ValetPickedUp),
        (BookingStatus::ValetPickedUp, Event::CheckIn) => Some(BookingStatus::CheckedIn),
        (BookingStatus::CheckedIn, Event::AssignReturnValet) => Some(BookingStatus::ValetAssignedForCheckOut),
        (BookingStatus::ValetAssignedForCheckOut, Event::ConfirmReturnPickup) => Some(BookingStatus::CheckedOut),
        (BookingStatus::CheckedOut, Event::ConfirmDelivery) => Some(BookingStatus::ValetReturned),
        (BookingStatus::Booked, Event::Cancel) => Some(BookingStatus::Cancelled),
        (BookingStatus::ValetAssignedForCheckIn, Event::Cancel) => Some(BookingStatus::Cancelled),
        _ => None,
    }
}

/// Applies `event` to a booking in state `from`: the next state, a no-op
/// when the event was already applied, or `IllegalTransition`.
pub fn apply_event(from: BookingStatus, event: Event) -> (r: Result<Transition, BookingError>)
    ensures
        r == outcome(from, event),
{
    match next_status(from, event) {
        Some(t) => Ok(Transition::Applied(t)),
        None => {
            let t = event_target(event);
            if t == from {
                Ok(Transition::AlreadyApplied(from))
            } else {
                Err(BookingError::IllegalTransition { from, event })
            }
        },
    }
}

/// Whether a booking in state `s` no longer holds its slot.
pub fn is_released(s: BookingStatus) -> (r: bool)
    ensures
        r == releases_slot(s),
{
    match s {
        BookingStatus::CheckedOut | BookingStatus::ValetReturned | BookingStatus::Cancelled => true,
        _ => false,
    }
}

/// The event that assigns a valet to `leg`.
pub fn leg_event(leg: Leg) -> (r: Event)
    ensures
        r == assign_event(leg),
{
    match leg {
        Leg::Pickup => Event::AssignPickupValet,
        Leg::Return => Event::AssignReturnValet,
    }
}

/// An event without an edge from `from`, applied from a state it does not
/// lead to, is refused as an illegal transition naming that state and event.
pub proof fn lemma_unlisted_event_is_illegal(from: BookingStatus, event: Event)
    requires
        step(from, event).is_none(),
        target(event) != from,
    ensures
        outcome(from, event) == Err::<Transition, BookingError>(BookingError::IllegalTransition { from, event }),
{
}

/// Once `event` has moved a booking, submitting the same event again is a
/// success that leaves the booking in the state it reached.
pub proof fn lemma_reapply_is_noop(from: BookingStatus, event: Event)
    requires
        step(from, event).is_some(),
    ensures
        outcome(step(from, event).unwrap(), event) == Ok::<Transition, BookingError>(
            Transition::AlreadyApplied(step(from, event).unwrap()),
        ),
{
}

/// Every edge labelled `event` leads to `target(event)`.
pub proof fn lemma_step_reaches_target(from: BookingStatus, event: Event)
    requires
        step(from, event).is_some(),
    ensures
        step(from, event).unwrap() == target(event),
{
}

} // verus!
