use vstd::prelude::*;

verus! {

/// The year and month that follow `year`/`month`.
pub open spec fn following_month(year: int, month: int) -> (int, int) {
    if month == 12 {
        (year + 1, 1)
    } else {
        (year, month + 1)
    }
}

/// The first day of the month after `year`/`month`, as year, month and day.
pub fn first_day_next_month(year: i32, month: u32) -> (r: (i32, u32, u32))
    requires
        1 <= month <= 12,
        month == 12 ==> year < i32::MAX,
    ensures
        (r.0 as int, r.1 as int) == following_month(year as int, month as int),
        r.2 == 1,
{
    if month == 12 {
        (year + 1, 1, 1)
    } else {
        (year, month + 1, 1)
    }
}

} // verus!
