use autospace::engine::Engine;
use autospace::model::{Actor, Slot};
use autospace::pricing::price;
use autospace::schema::QueryRoot;
use autospace::status::{
    apply_event, BookingError, BookingStatus, Event, Leg, SlotType, Transition,
};

const H: i64 = 3600;

fn slot(id: i32, price_per_hour: u64) -> Slot {
    Slot {
        id,
        created_at: 0,
        updated_at: 0,
        display_name: None,
        price_per_hour,
        length: None,
        width: None,
        height: None,
        slot_type: SlotType::Car,
        garage_id: 1,
    }
}

fn manager() -> Actor {
    Actor::Manager("m1".to_string())
}

fn valet(v: &str) -> Actor {
    Actor::Valet(v.to_string())
}

fn engine() -> Engine {
    Engine::new(vec![slot(7, 1000), slot(8, 500)])
}

#[test]
fn price_partial_hour_bills_full_hour() {
    assert_eq!(price(1000, 9 * H, 10 * H + 30 * 60), Ok(2000));
}

#[test]
fn price_empty_interval_is_invalid() {
    assert_eq!(price(1000, 9 * H, 9 * H), Err(BookingError::InvalidInterval));
    assert_eq!(price(1000, 10 * H, 9 * H), Err(BookingError::InvalidInterval));
}

#[test]
fn price_exact_hours_and_one_second() {
    assert_eq!(price(250, 0, 2 * H), Ok(500));
    assert_eq!(price(250, 0, 1), Ok(250));
    assert_eq!(price(u64::MAX, i64::MIN, i64::MAX), Ok(u64::MAX as u128 * 5_124_095_576_030_432));
}

#[test]
fn scenario_booking_pickup_then_early_return_assignment() {
    let mut e = engine();
    let id = e.create_booking("c1".to_string(), 7, 9 * H, 11 * H, "AB-1".to_string(), 100).unwrap();
    assert_eq!(e.bookings[id].status, BookingStatus::Booked);
    assert_eq!(e.bookings[id].total_price, Some(2000));
    assert_eq!(
        e.create_booking("c2".to_string(), 7, 10 * H, 12 * H, "CD-2".to_string(), 101),
        Err(BookingError::SlotUnavailable { slot_id: 7 })
    );
    assert_eq!(
        e.assign_valet(id, Leg::Pickup, "v1".to_string(), manager(), 200),
        Ok(Transition::Applied(BookingStatus::ValetAssignedForCheckIn))
    );
    assert_eq!(
        e.confirm_transition(id, Event::ConfirmPickup, valet("v1"), 300),
        Ok(Transition::Applied(BookingStatus::ValetPickedUp))
    );
    assert_eq!(
        e.assign_valet(id, Leg::Return, "v2".to_string(), manager(), 400),
        Err(BookingError::IllegalTransition {
            from: BookingStatus::ValetPickedUp,
            event: Event::AssignReturnValet
        })
    );
    assert_eq!(e.bookings[id].status, BookingStatus::ValetPickedUp);
    assert_eq!(e.timelines[id].len(), 3);
}

#[test]
fn adjacent_and_other_slot_bookings_succeed() {
    let mut e = engine();
    assert_eq!(e.create_booking("c1".to_string(), 7, 9 * H, 11 * H, "A".to_string(), 1), Ok(0));
    assert_eq!(e.create_booking("c2".to_string(), 7, 11 * H, 12 * H, "B".to_string(), 2), Ok(1));
    assert_eq!(e.create_booking("c3".to_string(), 8, 9 * H, 11 * H, "C".to_string(), 3), Ok(2));
    assert_eq!(e.bookings[2].total_price, Some(1000));
    assert!(!e.is_available(7, 10 * H, 10 * H + 1));
    assert!(e.is_available(7, 12 * H, 13 * H));
}

#[test]
fn unknown_slot_and_invalid_interval_are_rejected() {
    let mut e = engine();
    assert_eq!(
        e.create_booking("c".to_string(), 99, 0, H, "A".to_string(), 1),
        Err(BookingError::SlotNotFound { slot_id: 99 })
    );
    assert_eq!(
        e.create_booking("c".to_string(), 7, 9 * H, 9 * H, "A".to_string(), 1),
        Err(BookingError::InvalidInterval)
    );
    assert!(e.bookings.is_empty());
    assert!(e.timelines.is_empty());
}

#[test]
fn cancelled_booking_frees_its_slot() {
    let mut e = engine();
    let id = e.create_booking("c1".to_string(), 7, 9 * H, 11 * H, "A".to_string(), 1).unwrap();
    assert_eq!(
        e.confirm_transition(id, Event::Cancel, manager(), 2),
        Ok(Transition::Applied(BookingStatus::Cancelled))
    );
    assert_eq!(e.create_booking("c2".to_string(), 7, 10 * H, 12 * H, "B".to_string(), 3), Ok(1));
}

#[test]
fn illegal_event_changes_nothing() {
    let mut e = engine();
    let id = e.create_booking("c1".to_string(), 7, 0, H, "A".to_string(), 1).unwrap();
    assert_eq!(
        e.confirm_transition(id, Event::CheckIn, manager(), 5),
        Err(BookingError::IllegalTransition { from: BookingStatus::Booked, event: Event::CheckIn })
    );
    assert_eq!(e.bookings[id].status, BookingStatus::Booked);
    assert_eq!(e.timelines[id].len(), 1);
}

#[test]
fn repeated_event_is_a_noop() {
    let mut e = engine();
    let id = e.create_booking("c1".to_string(), 7, 0, H, "A".to_string(), 1).unwrap();
    e.assign_valet(id, Leg::Pickup, "v1".to_string(), manager(), 2).unwrap();
    assert_eq!(
        e.confirm_transition(id, Event::ConfirmPickup, valet("v1"), 3),
        Ok(Transition::Applied(BookingStatus::ValetPickedUp))
    );
    assert_eq!(
        e.confirm_transition(id, Event::ConfirmPickup, valet("v1"), 4),
        Ok(Transition::AlreadyApplied(BookingStatus::ValetPickedUp))
    );
    assert_eq!(e.timelines[id].len(), 3);
    assert_eq!(e.bookings[id].updated_at, 3);
}

#[test]
fn state_machine_table_and_noops() {
    assert_eq!(
        apply_event(BookingStatus::CheckedOut, Event::ConfirmDelivery),
        Ok(Transition::Applied(BookingStatus::ValetReturned))
    );
    assert_eq!(
        apply_event(BookingStatus::ValetReturned, Event::ConfirmDelivery),
        Ok(Transition::AlreadyApplied(BookingStatus::ValetReturned))
    );
    assert_eq!(
        apply_event(BookingStatus::ValetPickedUp, Event::Cancel),
        Err(BookingError::IllegalTransition { from: BookingStatus::ValetPickedUp, event: Event::Cancel })
    );
}

#[test]
fn full_lifecycle_timeline_is_ordered() {
    let mut e = engine();
    let id = e.create_booking("c1".to_string(), 7, 0, 2 * H, "A".to_string(), 10).unwrap();
    e.assign_valet(id, Leg::Pickup, "v1".to_string(), manager(), 20).unwrap();
    e.confirm_transition(id, Event::ConfirmPickup, valet("v1"), 30).unwrap();
    e.confirm_transition(id, Event::CheckIn, manager(), 40).unwrap();
    e.assign_valet(id, Leg::Return, "v2".to_string(), manager(), 50).unwrap();
    e.confirm_transition(id, Event::ConfirmReturnPickup, valet("v2"), 60).unwrap();
    e.confirm_transition(id, Event::ConfirmDelivery, valet("v2"), 70).unwrap();
    let tl = &e.timelines[id];
    let statuses: Vec<BookingStatus> = tl.iter().map(|t| t.status).collect();
    assert_eq!(
        statuses,
        vec![
            BookingStatus::Booked,
            BookingStatus::ValetAssignedForCheckIn,
            BookingStatus::ValetPickedUp,
            BookingStatus::CheckedIn,
            BookingStatus::ValetAssignedForCheckOut,
            BookingStatus::CheckedOut,
            BookingStatus::ValetReturned,
        ]
    );
    let stamps: Vec<i64> = tl.iter().map(|t| t.timestamp).collect();
    assert_eq!(stamps, vec![10, 20, 30, 40, 50, 60, 70]);
    assert_eq!(tl[2].valet_id, Some("v1".to_string()));
    assert_eq!(tl[3].manager_id, Some("m1".to_string()));
    assert_eq!(e.assignments[id].pickup_valet_id, Some("v1".to_string()));
    assert_eq!(e.assignments[id].return_valet_id, Some("v2".to_string()));
}

#[test]
fn stale_time_is_a_concurrency_conflict() {
    let mut e = engine();
    let id = e.create_booking("c1".to_string(), 7, 0, H, "A".to_string(), 10).unwrap();
    assert_eq!(
        e.confirm_transition(id, Event::Cancel, manager(), 10),
        Err(BookingError::ConcurrencyConflict { booking_id: id })
    );
    assert_eq!(e.bookings[id].status, BookingStatus::Booked);
}

#[test]
fn busy_valet_is_unavailable_and_reassignment_is_silent() {
    let mut e = engine();
    let a = e.create_booking("c1".to_string(), 7, 0, H, "A".to_string(), 1).unwrap();
    let b = e.create_booking("c2".to_string(), 8, 0, H, "B".to_string(), 1).unwrap();
    e.assign_valet(a, Leg::Pickup, "v1".to_string(), manager(), 2).unwrap();
    assert_eq!(
        e.assign_valet(b, Leg::Pickup, "v1".to_string(), manager(), 3),
        Err(BookingError::ValetUnavailable { valet_id: "v1".to_string() })
    );
    assert_eq!(
        e.assign_valet(a, Leg::Pickup, "v3".to_string(), manager(), 4),
        Ok(Transition::AlreadyApplied(BookingStatus::ValetAssignedForCheckIn))
    );
    assert_eq!(e.assignments[a].pickup_valet_id, Some("v3".to_string()));
    assert_eq!(e.timelines[a].len(), 2);
    assert_eq!(
        e.assign_valet(b, Leg::Pickup, "v1".to_string(), manager(), 5),
        Ok(Transition::Applied(BookingStatus::ValetAssignedForCheckIn))
    );
}

#[test]
fn unknown_booking_is_not_found() {
    let mut e = engine();
    assert_eq!(
        e.confirm_transition(3, Event::CheckIn, manager(), 1),
        Err(BookingError::BookingNotFound { booking_id: 3 })
    );
    assert_eq!(
        e.assign_valet(0, Leg::Pickup, "v".to_string(), manager(), 1),
        Err(BookingError::BookingNotFound { booking_id: 0 })
    );
}

#[test]
fn find_slot_returns_first_match() {
    let e = Engine::new(vec![slot(1, 10), slot(2, 20), slot(2, 30)]);
    assert_eq!(e.find_slot(2), Some(1));
    assert_eq!(e.find_slot(5), None);
}

#[test]
fn hello_greets() {
    assert_eq!(QueryRoot.hello(), "test from autospace Rust");
}

#[test]
fn cancel_booking_releases_slot_and_is_idempotent() {
    let mut e = engine();
    let id = e.create_booking("c1".to_string(), 7, 0, H, "A".to_string(), 1).unwrap();
    assert_eq!(e.cancel_booking(id, manager(), 2), Ok(Transition::Applied(BookingStatus::Cancelled)));
    assert_eq!(e.cancel_booking(id, manager(), 3), Ok(Transition::AlreadyApplied(BookingStatus::Cancelled)));
    assert_eq!(e.timelines[id].len(), 2);
    assert!(e.is_available(7, 0, H));
}

#[test]
fn cancel_after_pickup_is_illegal() {
    let mut e = engine();
    let id = e.create_booking("c1".to_string(), 7, 0, H, "A".to_string(), 1).unwrap();
    e.assign_valet(id, Leg::Pickup, "v1".to_string(), manager(), 2).unwrap();
    e.confirm_transition(id, Event::ConfirmPickup, valet("v1"), 3).unwrap();
    assert_eq!(
        e.cancel_booking(id, manager(), 4),
        Err(BookingError::IllegalTransition { from: BookingStatus::ValetPickedUp, event: Event::Cancel })
    );
}

#[test]
fn hand_over_points_are_recorded() {
    let mut e = engine();
    let id = e.create_booking("c1".to_string(), 7, 0, H, "A".to_string(), 1).unwrap();
    assert_eq!(e.record_location(id, Leg::Pickup, 52_520_008, 13_404_954, 5), Ok(()));
    assert_eq!(e.assignments[id].pickup_lat, Some(52_520_008));
    assert_eq!(e.assignments[id].pickup_lng, Some(13_404_954));
    assert_eq!(e.assignments[id].return_lat, None);
    assert_eq!(e.record_location(9, Leg::Return, 0, 0, 5), Err(BookingError::BookingNotFound { booking_id: 9 }));
}
