use vstd::prelude::*;

use crate::user::User;

verus! {

/// A reservation of a telescope. Times are seconds since the epoch.
#[derive(Clone, Debug)]
pub struct Booking {
    pub id: i64,
    pub start_time: i64,
    pub end_time: i64,
    pub telescope_name: String,
    pub user_name: String,
    pub user_provider: String,
}

pub open spec fn active(b: Booking, instant: i64) -> bool {
    b.start_time < instant && instant < b.end_time
}

impl Booking {
    /// Whether the two bookings share some time; touching ends do not count.
    pub fn overlaps(&self, other: &Booking) -> (r: bool)
        ensures
            r == (self.start_time < other.end_time && self.end_time > other.start_time),
    {
        self.start_time < other.end_time && self.end_time > other.start_time
    }

    /// Whether `instant` lies strictly inside the booking.
    pub fn active_at(&self, instant: i64) -> (r: bool)
        ensures
            r == active(*self, instant),
    {
        instant > self.start_time && instant < self.end_time
    }
}

/// Whether one of `bookings` made under the name of `user` is active at `now`.
pub fn has_active_booking(user: &User, bookings: &Vec<Booking>, now: i64) -> (r: bool)
    ensures
        r == exists|i: int|
            0 <= i < bookings@.len() && (#[trigger] bookings@[i]).user_name@ == user.name@
                && active(bookings@[i], now),
{
    let mut i: usize = 0;
    while i < bookings.len()
        invariant
            i <= bookings@.len(),
            forall|j: int|
                0 <= j < i ==> !((#[trigger] bookings@[j]).user_name@ == user.name@ && active(
                    bookings@[j],
                    now,
                )),
        decreases bookings@.len() - i,
    {
        let booking = &bookings[i];
        if booking.user_name == user.name && booking.active_at(now) {
            return true;
        }
        i = i + 1;
    }
    false
}

} // verus!
