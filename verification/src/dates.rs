//! Proleptic-Gregorian calendar arithmetic for season and week resolution.
//!
//! A [`Date`] is a plain year/month/day value. Days are counted from the
//! calendar base 1 January 1500, which was a Monday, so a date's weekday is
//! its day count modulo seven. The season cutoff rules are: 15 March for
//! roster purposes, and the Thursday after the first Monday of September
//! (three days after Labor Day) for schedule purposes.
//!
//! Only the reading of the system clock is trusted; every computation on
//! dates is verified.

use vstd::prelude::*;

verus! {

/// First year of the supported calendar range.
pub const CAL_MIN_YEAR: i32 = 1500;

/// Last year of the supported calendar range: seasons are four-digit years.
pub const CAL_MAX_YEAR: i32 = 9999;

pub open spec fn is_leap_year(y: int) -> bool {
    y % 4 == 0 && (y % 100 != 0 || y % 400 == 0)
}

pub open spec fn days_in_year(y: int) -> int {
    if is_leap_year(y) {
        366
    } else {
        365
    }
}

pub open spec fn days_in_month(y: int, m: int) -> int {
    if m == 2 {
        if is_leap_year(y) {
            29
        } else {
            28
        }
    } else if m == 4 || m == 6 || m == 9 || m == 11 {
        30
    } else {
        31
    }
}

/// Days in year `y` before the first of month `m`.
pub open spec fn days_before_month(y: int, m: int) -> int
    decreases m,
{
    if m <= 1 {
        0
    } else {
        days_before_month(y, m - 1) + days_in_month(y, m - 1)
    }
}

/// Days between 1 January 1500 and 1 January of year `y`.
pub open spec fn days_before_year(y: int) -> int
    decreases y - CAL_MIN_YEAR,
{
    if y <= CAL_MIN_YEAR {
        0
    } else {
        days_before_year(y - 1) + days_in_year(y - 1)
    }
}

/// Days between 1 January 1500 and the given day.
pub open spec fn day_index_ymd(y: int, m: int, d: int) -> int {
    days_before_year(y) + days_before_month(y, m) + d - 1
}

/// A civil date.
#[derive(Clone, Copy, Debug, PartialEq, Eq, Structural)]
pub struct Date {
    pub year: i32,
    pub month: u8,
    pub day: u8,
}

/// A real calendar date within the range this library reasons about
/// (years 1600 through 9999).
pub open spec fn valid_date(d: Date) -> bool {
    &&& 1600 <= d.year <= CAL_MAX_YEAR
    &&& 1 <= d.month <= 12
    &&& 1 <= d.day as int <= days_in_month(d.year as int, d.month as int)
}

pub open spec fn day_index(d: Date) -> int {
    day_index_ymd(d.year as int, d.month as int, d.day as int)
}

/// Weekday of a date, 0 = Monday through 6 = Sunday: day 0 of the calendar
/// base was a Monday.
pub open spec fn weekday(d: Date) -> int {
    day_index(d) % 7
}

proof fn lemma_days_before_month_nonneg(y: int, m: int)
    ensures
        days_before_month(y, m) >= 0,
    decreases m,
{
    if m > 1 {
        lemma_days_before_month_nonneg(y, m - 1);
    }
}

proof fn lemma_days_before_year_nonneg(y: int)
    ensures
        days_before_year(y) >= 0,
    decreases y - CAL_MIN_YEAR,
{
    if y > CAL_MIN_YEAR {
        lemma_days_before_year_nonneg(y - 1);
    }
}

pub fn leap_year(y: i32) -> (b: bool)
    requires
        y >= 0,
    ensures
        b == is_leap_year(y as int),
{
    y % 4 == 0 && (y % 100 != 0 || y % 400 == 0)
}

pub fn month_length(y: i32, m: u8) -> (n: u8)
    requires
        y >= 0,
        1 <= m <= 12,
    ensures
        n as int == days_in_month(y as int, m as int),
{
    if m == 2 {
        if leap_year(y) {
            29
        } else {
            28
        }
    } else if m == 4 || m == 6 || m == 9 || m == 11 {
        30
    } else {
        31
    }
}

/// Day count of a date from the calendar base, by summing year and month
/// lengths.
pub fn date_day_index(d: &Date) -> (n: i64)
    requires
        CAL_MIN_YEAR <= d.year <= CAL_MAX_YEAR,
        1 <= d.month <= 12,
        1 <= d.day as int <= days_in_month(d.year as int, d.month as int),
    ensures
        n == day_index(*d),
        0 <= n <= 3_200_000,
{
    let mut acc: i64 = 0;
    let mut y: i32 = CAL_MIN_YEAR;
    while y < d.year
        invariant
            CAL_MIN_YEAR <= y <= d.year <= CAL_MAX_YEAR,
            acc == days_before_year(y as int),
            0 <= acc <= 366 * (y - CAL_MIN_YEAR),
        decreases d.year - y,
    {
        if leap_year(y) {
            acc = acc + 366;
        } else {
            acc = acc + 365;
        }
        y = y + 1;
    }
    let mut m: u8 = 1;
    while m < d.month
        invariant
            1 <= m <= d.month <= 12,
            CAL_MIN_YEAR <= d.year <= CAL_MAX_YEAR,
            acc == days_before_year(d.year as int) + days_before_month(d.year as int, m as int),
            0 <= acc <= 3_110_634 + 31 * (m as int - 1),
        decreases d.month - m,
    {
        acc = acc + month_length(d.year, m) as i64;
        m = m + 1;
    }
    acc + (d.day as i64) - 1
}

pub fn date_weekday(d: &Date) -> (w: u8)
    requires
        CAL_MIN_YEAR <= d.year <= CAL_MAX_YEAR,
        1 <= d.month <= 12,
        1 <= d.day as int <= days_in_month(d.year as int, d.month as int),
    ensures
        w as int == weekday(*d),
        w < 7,
{
    let n = date_day_index(d);
    (n % 7) as u8
}

/// Day of the month of the first Monday of September of year `y`.
pub open spec fn sept_monday_day(y: int) -> int {
    1 + (7 - day_index_ymd(y, 9, 1) % 7) % 7
}

/// Labor Day: the first Monday of September of the given year.
pub fn first_monday_in_september(year: i32) -> (d: Date)
    requires
        CAL_MIN_YEAR <= year <= CAL_MAX_YEAR,
    ensures
        d.year == year,
        d.month == 9,
        d.day as int == sept_monday_day(year as int),
        1 <= d.day <= 7,
        weekday(d) == 0,
{
    let sept1 = Date { year, month: 9, day: 1 };
    let w = date_weekday(&sept1);
    let offset: u8 = if w == 0 {
        0
    } else {
        7 - w
    };
    let d = Date { year, month: 9, day: 1 + offset };
    proof {
        let a = day_index(sept1);
        lemma_days_before_year_nonneg(year as int);
        lemma_days_before_month_nonneg(year as int, 9);
        assert(day_index(d) == a + offset);
        assert((a + (7 - a % 7) % 7) % 7 == 0) by (nonlinear_arith)
            requires
                a >= 0,
        ;
    }
    d
}

/// The season year for roster purposes: before 15 March, the prior year.
pub open spec fn roster_season(d: Date) -> int {
    if d.month < 3 || (d.month == 3 && d.day < 15) {
        d.year - 1
    } else {
        d.year as int
    }
}

/// Day of the month of the schedule cutoff: the Thursday after Labor Day.
pub open spec fn schedule_cutoff_day(y: int) -> int {
    sept_monday_day(y) + 3
}

/// The season year for schedule purposes: before the Thursday after Labor
/// Day, the prior year.
pub open spec fn schedule_season(d: Date) -> int {
    if d.month < 9 || (d.month == 9 && (d.day as int) < schedule_cutoff_day(d.year as int)) {
        d.year - 1
    } else {
        d.year as int
    }
}

pub open spec fn spec_current_season(d: Date, roster: bool) -> int {
    if roster {
        roster_season(d)
    } else {
        schedule_season(d)
    }
}

/// The season year that a given date falls in, under either cutoff rule.
pub fn current_season_of(today: &Date, roster: bool) -> (season: i32)
    requires
        valid_date(*today),
    ensures
        season as int == spec_current_season(*today, roster),
        1599 <= season <= 9999,
{
    if roster {
        if today.month < 3 || (today.month == 3 && today.day < 15) {
            today.year - 1
        } else {
            today.year
        }
    } else {
        let labor = first_monday_in_september(today.year);
        let cutoff_day = labor.day + 3;
        if today.month < 9 || (today.month == 9 && today.day < cutoff_day) {
            today.year - 1
        } else {
            today.year
        }
    }
}

/// Day count of the first Thursday on or after Labor Day of the given season.
pub open spec fn season_start_index(season: int) -> int {
    day_index_ymd(season, 9, schedule_cutoff_day(season))
}

/// The week number a date falls in: days elapsed since the season start,
/// divided by seven, plus one, clamped to the closed range [1, 22].
pub open spec fn spec_current_week(d: Date) -> int {
    let days = day_index(d) - season_start_index(schedule_season(d));
    if days < 0 {
        1
    } else if days / 7 + 1 > 22 {
        22
    } else {
        days / 7 + 1
    }
}

/// The week number of a given date; always within [1, 22].
pub fn current_week_of(today: &Date) -> (week: i32)
    requires
        valid_date(*today),
    ensures
        week as int == spec_current_week(*today),
        1 <= week <= 22,
{
    let season = current_season_of(today, false);
    let labor = first_monday_in_september(season);
    let start = Date { year: season, month: 9, day: labor.day + 3 };
    let di_today = date_day_index(today);
    let di_start = date_day_index(&start);
    let days = di_today - di_start;
    if days < 0 {
        1
    } else {
        let w = days / 7 + 1;
        if w > 22 {
            22
        } else {
            w as i32
        }
    }
}

/// Relies on chrono `Local::now().date_naive()`: the current civil date in
/// the local time zone. chrono always yields a real calendar date, with a
/// year within about ±262,000.
#[verifier::external_body]
fn today_ymd() -> (t: (i32, u8, u8))
    ensures
        -270_000 <= t.0 <= 270_000,
        1 <= t.1 <= 12,
        1 <= t.2 as int <= days_in_month(t.0 as int, t.1 as int),
{
    let d = chrono::Local::now().date_naive();
    (chrono::Datelike::year(&d), chrono::Datelike::month(&d) as u8, chrono::Datelike::day(&d) as u8)
}

/// The clock's date, brought into the supported range: seasons are
/// four-digit years, so a clock outside [1600, 9999] is pinned to that range.
fn clamp_today(t: (i32, u8, u8)) -> (d: Date)
    requires
        1 <= t.1 <= 12,
        1 <= t.2 as int <= days_in_month(t.0 as int, t.1 as int),
    ensures
        valid_date(d),
        1600 <= t.0 <= CAL_MAX_YEAR ==> d == (Date { year: t.0, month: t.1, day: t.2 }),
{
    if t.0 < 1600 {
        Date { year: 1600, month: 1, day: 1 }
    } else if t.0 > CAL_MAX_YEAR {
        Date { year: CAL_MAX_YEAR, month: 1, day: 1 }
    } else {
        Date { year: t.0, month: t.1, day: t.2 }
    }
}

/// The current season year, read from the system clock.
///
/// With `roster` the cutoff is 15 March; otherwise it is the Thursday after
/// the first Monday of September. Before the cutoff the season is the prior
/// calendar year.
pub fn get_current_season(roster: bool) -> (season: i32)
    ensures
        1599 <= season <= 9999,
        exists|today: Date|
            #![auto]
            valid_date(today) && season as int == spec_current_season(today, roster),
{
    let t = today_ymd();
    let today = clamp_today(t);
    current_season_of(&today, roster)
}

/// The current week by the date-based strategy, read from the system clock;
/// always within [1, 22].
pub fn get_current_week_from_date() -> (week: i32)
    ensures
        1 <= week <= 22,
        exists|today: Date| #![auto] valid_date(today) && week as int == spec_current_week(today),
{
    let t = today_ymd();
    let today = clamp_today(t);
    current_week_of(&today)
}

} // verus!
