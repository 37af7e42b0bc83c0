//! The current time, read from the `time` crate.
use vstd::prelude::*;
use crate::api::posts::services::{spec_days_in_month, spec_is_leap_year};

verus! {

/// The current UTC instant as a Unix timestamp and as a calendar date.
pub struct UtcNow {
    pub unix: i64,
    pub year: i32,
    pub month: u8,
    pub day: u8,
}

/// The number of days from 1970-01-01 to the date `year`-`month`-`day` of the
/// proleptic Gregorian calendar (negative before it), by the usual civil-to-days
/// count in eras of 400 years, with the year taken to begin in March.
pub open spec fn days_from_civil(year: int, month: int, day: int) -> int {
    let y = if month <= 2 { year - 1 } else { year };
    let era = y / 400;
    let yoe = y - era * 400;
    let mp = if month > 2 { month - 3 } else { month + 9 };
    let doy = (153 * mp + 2) / 5 + day - 1;
    let doe = yoe * 365 + yoe / 4 - yoe / 100 + doy;
    era * 146097 + doe - 719468
}

/// The day number of the 1st of March of `y`, counted as in `days_from_civil`.
pub open spec fn march_first(y: int) -> int {
    let era = y / 400;
    let yoe = y - era * 400;
    era * 146097 + yoe * 365 + yoe / 4 - yoe / 100 - 719468
}

/// From the 1st of March of `y - 1` to that of `y` there are 366 days when `y` is a
/// leap year (the February between them has 29 days) and 365 otherwise.
pub proof fn lemma_march_years(y: int)
    ensures
        march_first(y) - march_first(y - 1) == if spec_is_leap_year(y) {
            366int
        } else {
            365int
        },
{
    let q = y / 400;
    let r = y % 400;
    assert(y == 400 * q + r && 0 <= r < 400);
    if r == 0 {
        assert((y - 1) / 400 == q - 1);
        assert(y % 4 == 0 && y % 400 == 0);
    } else {
        assert((y - 1) / 400 == q);
        assert(y % 4 == r % 4);
        assert(y % 100 == r % 100);
        assert(y % 400 != 0);
    }
}

/// Whether `t` is a Unix timestamp (in seconds) of an instant of the UTC day
/// `year`-`month`-`day`.
pub open spec fn timestamp_in_day(t: int, year: int, month: int, day: int) -> bool {
    days_from_civil(year, month, day) * 86400 <= t < days_from_civil(year, month, day) * 86400 + 86400
}

/// Whether `t` is the Unix timestamp of an instant of some real day: a month
/// `1..=12` and a day within the month.
pub open spec fn timestamp_of_real_day(t: int) -> bool {
    exists|y: i32, m: u8, d: u8|
        1 <= m <= 12 && 1 <= d <= spec_days_in_month(y as int, m as int) && #[trigger] timestamp_in_day(
            t,
            y as int,
            m as int,
            d as int,
        )
}

/// Reads the clock with `time::OffsetDateTime::now_utc`, and takes from it the Unix
/// timestamp (`unix_timestamp`) and the calendar date (`date`: `year`, `month` as a
/// number, `day`). Claimed: the date is a real one (a month `1..=12` and a day within
/// the month), and the timestamp falls within that day, since the instant is taken at
/// offset UTC and `unix_timestamp` counts the days from 1970-01-01 times 86400 plus
/// the seconds of the day. Which instant it is depends on the clock and is not said.
#[verifier::external_body]
pub(crate) fn utc_now() -> (r: UtcNow)
    ensures
        1 <= r.month <= 12,
        1 <= r.day <= spec_days_in_month(r.year as int, r.month as int),
        timestamp_in_day(r.unix as int, r.year as int, r.month as int, r.day as int),
{
    let now = time::OffsetDateTime::now_utc();
    let date = now.date();
    UtcNow { unix: now.unix_timestamp(), year: date.year(), month: u8::from(date.month()), day: date.day() }
}

} // verus!
