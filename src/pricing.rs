//! The hourly price of a stay: every started hour is billed in full.
use vstd::prelude::*;
use crate::status::BookingError;

verus! {

/// Seconds in one billed hour; times are whole seconds.
pub const SECONDS_PER_HOUR: i64 = 3600;

/// Hours billed for a stay of `seconds` seconds: a partial hour counts as a
/// full one.
pub open spec fn billed_hours(seconds: int) -> int {
    (seconds + 3599) / 3600
}

/// Total for a stay from `start` to `end`, in the currency's minor unit.
pub open spec fn price_of(price_per_hour: u64, start: i64, end: i64) -> int {
    price_per_hour * billed_hours(end - start)
}

/// Price of a stay from `start` to `end` (seconds) at `price_per_hour`
/// minor units per hour; an interval that ends at or before its start is
/// rejected.
pub fn price(price_per_hour: u64, start: i64, end: i64) -> (r: Result<u128, BookingError>)
    ensures
        end <= start ==> r == Err::<u128, BookingError>(BookingError::InvalidInterval),
        start < end ==> r is Ok && r->Ok_0 == price_of(price_per_hour, start, end),
{
    if end <= start {
        return Err(BookingError::InvalidInterval);
    }
    let seconds: i128 = end as i128 - start as i128;
    let hours: i128 = (seconds + 3599) / 3600;
    assert(0 < hours <= 0x1_0000_0000_0000_0000i128) by {
        assert(seconds <= 0x1_0000_0000_0000_0000i128);
    }
    assert(price_per_hour as u128 * hours as u128 <= 0xffff_ffff_ffff_ffffu128 * 0x1_0000_0000_0000_0000u128)
        by (nonlinear_arith)
        requires
            0 < hours <= 0x1_0000_0000_0000_0000i128,
            price_per_hour <= 0xffff_ffff_ffff_ffffu64,
    ;
    let total: u128 = price_per_hour as u128 * hours as u128;
    Ok(total)
}

} // verus!
