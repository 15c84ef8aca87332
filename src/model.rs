//! Records of the parking domain. Times are whole seconds since the Unix
//! epoch; money is in the currency's minor unit; coordinates are in
//! millionths of a degree.
use vstd::prelude::*;
use crate::status::{BookingStatus, SlotType};

verus! {

/// A reservable parking space.
#[derive(Debug, Clone)]
pub struct Slot {
    pub id: i32,
    pub created_at: i64,
    pub updated_at: i64,
    pub display_name: Option<String>,
    pub price_per_hour: u64,
    pub length: Option<i32>,
    pub width: Option<i32>,
    pub height: Option<i32>,
    pub slot_type: SlotType,
    pub garage_id: i32,
}

/// A reservation of one slot over `[start_time, end_time)`.
#[derive(Debug, Clone)]
pub struct Booking {
    pub id: usize,
    pub created_at: i64,
    pub updated_at: i64,
    pub price_per_hour: Option<u64>,
    pub total_price: Option<u128>,
    pub start_time: i64,
    pub end_time: i64,
    pub vehicle_number: String,
    pub phone_number: Option<String>,
    pub passcode: Option<String>,
    pub status: BookingStatus,
    pub slot_id: i32,
    pub customer_id: String,
}

/// The valets handling the two legs of one booking.
#[derive(Debug, Clone)]
pub struct ValetAssignment {
    pub booking_id: usize,
    pub created_at: i64,
    pub updated_at: i64,
    pub pickup_lat: Option<i64>,
    pub pickup_lng: Option<i64>,
    pub return_lat: Option<i64>,
    pub return_lng: Option<i64>,
    pub pickup_valet_id: Option<String>,
    pub return_valet_id: Option<String>,
}

/// One entry of a booking's audit trail: the state it entered, when, and
/// who made the change.
#[derive(Debug, Clone)]
pub struct BookingTimeline {
    pub id: usize,
    pub timestamp: i64,
    pub status: BookingStatus,
    pub booking_id: usize,
    pub valet_id: Option<String>,
    pub manager_id: Option<String>,
}

/// The party that asks for a change.
#[derive(Debug, Clone)]
pub enum Actor {
    Valet(String),
    Manager(String),
}

/// The valet id an actor puts on a timeline entry.
pub open spec fn actor_valet(a: Actor) -> Option<String> {
    match a {
        Actor::Valet(v) => Some(v),
        Actor::Manager(_) => None,
    }
}

/// The manager id an actor puts on a timeline entry.
pub open spec fn actor_manager(a: Actor) -> Option<String> {
    match a {
        Actor::Valet(_) => None,
        Actor::Manager(m) => Some(m),
    }
}

/// The timeline entry number `k` of booking `booking_id`.
pub open spec fn timeline_entry(k: usize, timestamp: i64, status: BookingStatus, booking_id: usize, actor: Actor) -> BookingTimeline {
    BookingTimeline {
        id: k,
        timestamp,
        status,
        booking_id,
        valet_id: actor_valet(actor),
        manager_id: actor_manager(actor),
    }
}

/// Builds the timeline entry number `k` of booking `booking_id`.
pub fn new_timeline_entry(k: usize, timestamp: i64, status: BookingStatus, booking_id: usize, actor: Actor) -> (r: BookingTimeline)
    ensures
        r == timeline_entry(k, timestamp, status, booking_id, actor),
{
    let (valet_id, manager_id) = match actor {
        Actor::Valet(v) => (Some(v), None),
        Actor::Manager(m) => (None, Some(m)),
    };
    BookingTimeline { id: k, timestamp, status, booking_id, valet_id, manager_id }
}

/// A parking operator.
#[derive(Debug, Clone)]
pub struct Company {
    pub id: i32,
    pub created_at: i64,
    pub updated_at: i64,
    pub display_name: Option<String>,
    pub description: Option<String>,
}

/// A site of a company; it owns slots.
#[derive(Debug, Clone)]
pub struct Garage {
    pub id: i32,
    pub created_at: i64,
    pub updated_at: i64,
    pub display_name: Option<String>,
    pub description: Option<String>,
    pub images: Vec<String>,
    pub company_id: i32,
}

/// Where a garage stands.
#[derive(Debug, Clone)]
pub struct Address {
    pub id: i32,
    pub created_at: i64,
    pub updated_at: i64,
    pub address: String,
    pub lat: i64,
    pub lng: i64,
    pub garage_id: i32,
}

/// A valet working for a company.
#[derive(Debug, Clone)]
pub struct Valet {
    pub uid: String,
    pub created_at: i64,
    pub updated_at: i64,
    pub display_name: String,
    pub image: Option<String>,
    pub licence_id: String,
    pub company_id: Option<i32>,
}

/// A registered person.
#[derive(Debug, Clone)]
pub struct User {
    pub uid: String,
    pub created_at: i64,
    pub updated_at: i64,
    pub name: Option<String>,
    pub image: Option<String>,
}

/// A user with administrative rights.
#[derive(Debug, Clone)]
pub struct Admin {
    pub uid: String,
    pub created_at: i64,
    pub updated_at: i64,
}

/// Password sign-in data of a user.
#[derive(Debug, Clone)]
pub struct Credentials {
    pub uid: String,
    pub email: String,
    pub password_hash: String,
    pub created_at: i64,
    pub updated_at: i64,
}

/// A user who books slots.
#[derive(Debug, Clone)]
pub struct Customer {
    pub uid: String,
    pub created_at: i64,
    pub updated_at: i64,
    pub display_name: Option<String>,
}

/// A user who runs garages for a company.
#[derive(Debug, Clone)]
pub struct Manager {
    pub uid: String,
    pub created_at: i64,
    pub updated_at: i64,
    pub display_name: Option<String>,
    pub company_id: Option<i32>,
}

/// A customer's rating of a garage.
#[derive(Debug, Clone)]
pub struct Review {
    pub id: i32,
    pub created_at: i64,
    pub updated_at: i64,
    pub rating: i32,
    pub comment: Option<String>,
    pub customer_id: String,
    pub garage_id: i32,
}

/// An administrator's check of a garage.
#[derive(Debug, Clone)]
pub struct Verification {
    pub created_at: i64,
    pub updated_at: i64,
    pub verified: bool,
    pub admin_id: String,
    pub garage_id: i32,
}

} // verus!
