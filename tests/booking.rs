use salsa::booking::{has_active_booking, Booking};
use salsa::user::User;

fn create_booking(start_time_ts: i64, end_time_ts: i64) -> Booking {
    Booking {
        id: 0,
        start_time: start_time_ts,
        end_time: end_time_ts,
        telescope_name: String::new(),
        user_name: String::new(),
        user_provider: String::new(),
    }
}

#[test]
fn booking_overlap() {
    let booking1 = create_booking(1, 3);
    let booking2 = create_booking(2, 4);
    assert!(booking1.overlaps(&booking2));
    assert!(booking2.overlaps(&booking1));
}

#[test]
fn booking_no_overlap() {
    let booking1 = create_booking(1, 2);
    let booking2 = create_booking(3, 4);
    assert!(!booking1.overlaps(&booking2));
    assert!(!booking2.overlaps(&booking1));
}

#[test]
fn booking_no_overlap_adjacent() {
    let booking1 = create_booking(1, 2);
    let booking2 = create_booking(2, 3);
    assert!(!booking1.overlaps(&booking2));
    assert!(!booking2.overlaps(&booking1));
}

#[test]
fn booking_active_strictly_inside() {
    let booking = create_booking(10, 20);
    assert!(!booking.active_at(10));
    assert!(booking.active_at(15));
    assert!(!booking.active_at(20));
}

#[test]
fn active_booking_of_user() {
    let user = User { id: 1, name: "ada".to_string(), provider: "discord".to_string() };
    let mut mine = create_booking(10, 20);
    mine.user_name = "ada".to_string();
    let mut theirs = create_booking(0, 100);
    theirs.user_name = "bob".to_string();
    let bookings = vec![theirs, mine];
    assert!(has_active_booking(&user, &bookings, 15));
    assert!(!has_active_booking(&user, &bookings, 50));
}
