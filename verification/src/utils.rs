//! Current-season derivation from the calendar date.
//!
//! The season year is a pure function of the wall-clock date in the
//! US-Eastern time zone and of the chosen boundary rule: roster logic
//! cuts over at March 15, season logic at the Thursday following Labor
//! Day (the first Monday of September).
use chrono::Datelike;
use vstd::prelude::*;

verus! {

/// A calendar date as read from a wall clock in the US-Eastern time zone.
#[derive(Clone, Copy, Debug, PartialEq, Eq, Structural)]
pub struct ClockDate {
    pub year: i32,
    pub month: u32,
    pub day: u32,
}

/// The dates a clock can hand out: a month and day of the civil
/// calendar, and a year within the range the clock itself supports.
pub open spec fn valid_clock_date(d: ClockDate) -> bool {
    &&& -262200 <= d.year <= 262200
    &&& 1 <= d.month <= 12
    &&& 1 <= d.day <= 31
}

/// Day of the week of September 1 of the given year, as 0 = Monday
/// through 6 = Sunday, by Zeller's congruence. The year is first moved
/// by a multiple of 400 years — the Gregorian calendar repeats with
/// that period — so that every term is non-negative over the whole
/// supported year range.
pub open spec fn sept1_weekday(year: int) -> int {
    let y = year + 262400;
    let k = y % 100;
    let j = y / 100;
    (32 + k + k / 4 + j / 4 + 5 * j) % 7
}

/// Day of the month of Labor Day: the first Monday of September.
pub open spec fn labor_day(year: int) -> int {
    1 + (7 - sept1_weekday(year)) % 7
}

/// Day of the month of the first Thursday of September.
pub open spec fn first_thursday(year: int) -> int {
    1 + (3 - sept1_weekday(year)) % 7
}

/// Day of the month of the season start: the Thursday of September that
/// follows Labor Day. When Labor Day falls on or after the 5th, the
/// first Thursday of the month precedes it, so the season starts on the
/// second Thursday; otherwise it starts on the first.
pub open spec fn season_start_day(year: int) -> int {
    if labor_day(year) >= 5 {
        first_thursday(year) + 7
    } else {
        first_thursday(year)
    }
}

/// Season year under roster logic: the clock's year from March 15
/// (inclusive, midnight Eastern) onward, the year before until then.
pub open spec fn roster_season(d: ClockDate) -> int {
    if d.month > 3 || (d.month == 3 && d.day >= 15) {
        d.year as int
    } else {
        d.year - 1
    }
}

/// Season year under season logic: the clock's year from the Thursday
/// following Labor Day (inclusive, midnight Eastern) onward, the year
/// before until then.
pub open spec fn regular_season(d: ClockDate) -> int {
    if d.month > 9 || (d.month == 9 && d.day >= season_start_day(d.year as int)) {
        d.year as int
    } else {
        d.year - 1
    }
}

/// The current season for a date under either boundary rule.
pub open spec fn current_season(d: ClockDate, roster: bool) -> int {
    if roster {
        roster_season(d)
    } else {
        regular_season(d)
    }
}

/// Computes the current season for a given clock date.
///
/// Roster logic (`roster` is `Some(true)`) uses March 15 as the cutover
/// date; season logic (`roster` is `Some(false)` or `None`) uses the
/// Thursday following Labor Day.
pub fn get_current_season_internal(roster: Option<bool>, today: ClockDate) -> (season: i32)
    requires
        valid_clock_date(today),
    ensures
        season as int == current_season(today, roster == Some(true)),
{
    let roster_mode = match roster {
        Some(r) => r,
        None => false,
    };

    let year = today.year;

    if roster_mode {
        if today.month > 3 || (today.month == 3 && today.day >= 15) {
            year
        } else {
            year - 1
        }
    } else {
        let y: i64 = year as i64 + 262400;
        let k: i64 = y % 100;
        let j: i64 = y / 100;
        let w: i64 = (32 + k + k / 4 + j / 4 + 5 * j) % 7;
        assert(w == sept1_weekday(year as int));
        let labor: i64 = 1 + (7 - w) % 7;
        assert(labor == labor_day(year as int));
        let first_thu: i64 = 1 + ((3 - w) + 7) % 7;
        assert(first_thu == first_thursday(year as int)) by {
            assert(((3 - w) + 7) % 7 == (3 - (w as int)) % 7);
        };
        let start: i64 = if labor >= 5 {
            first_thu + 7
        } else {
            first_thu
        };
        if today.month > 9 || (today.month == 9 && today.day as i64 >= start) {
            year
        } else {
            year - 1
        }
    }
}

/// Gets the current season from the US-Eastern wall clock.
///
/// # Arguments
///
/// * `roster`  -   If true apply roster logic (see below). If false or none apply season logic.
///
/// Roster logic: current year after March 15, otherwise previous year.
/// Season logic: current year after Thursday following Labor Day, otherwise previous year.
pub fn get_current_season(roster: Option<bool>) -> (season: i32)
    ensures
        exists|d: ClockDate|
            valid_clock_date(d) && season as int == current_season(d, roster == Some(true)),
{
    let today = today_eastern();
    let season = get_current_season_internal(roster, today);
    proof {
        assert(valid_clock_date(today) && season as int == current_season(
            today,
            roster == Some(true),
        ));
    }
    season
}

/// Relies on chrono's `Utc::now`, converted with `DateTime::with_timezone`
/// into chrono-tz's `US::Eastern` zone, and on chrono's `Datelike`
/// accessors: `month` is in 1..=12, `day` in 1..=31, and `year` within
/// chrono's documented range of about +/- 262,000 years.
#[verifier::external_body]
pub(crate) fn today_eastern() -> (d: ClockDate)
    ensures
        valid_clock_date(d),
{
    let now = chrono::Utc::now().with_timezone(&chrono_tz::US::Eastern);
    ClockDate { year: now.year(), month: now.month(), day: now.day() }
}

} // verus!
