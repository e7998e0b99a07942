//! Calendar dates as day numbers.
//!
//! A `CalendarDate` is a proleptic-Gregorian date held as its day number, with
//! 0001-01-01 as day 1 (chrono's `num_days_from_ce`). Ordering and differences of
//! dates are then plain integer comparisons and subtractions; the conversions
//! from and to year/month/day and the text renderings are made by chrono.

use vstd::prelude::*;
use chrono::Datelike;

verus! {

/// The first day chrono represents: 1 January of year -262143.
pub const MIN_DAY: i32 = -95746129;

/// The last day chrono represents: 31 December of year 262142.
pub const MAX_DAY: i32 = 95745399;

#[derive(Debug, PartialEq, Eq, Structural)]
pub struct CalendarDate {
    pub day_number: i32,
}

impl CalendarDate {
    /// A valid date is one of the days chrono represents.
    pub open spec fn wf(self) -> bool {
        MIN_DAY <= self.day_number <= MAX_DAY
    }

    /// The date for a year, month and day, if such a date exists.
    pub fn from_ymd(year: i32, month: u32, day: u32) -> (r: Option<CalendarDate>)
        ensures
            r matches Some(d) ==> d.wf() && civil_day_number(year as int, month as int, day as int)
                == Some(d.day_number as int),
            r is None ==> civil_day_number(year as int, month as int, day as int) is None,
            r is Some ==> 1 <= month <= 12 && 1 <= day <= 31,
            r matches Some(d) ==> day_year(d.day_number as int) == year && day_month(d.day_number as int) == month,
            0 <= year <= 9999 ==> (r matches Some(d) ==> iso_date_text(d.day_number as int) == padded_number(
                year as nat,
                4,
            ) + "-"@ + padded_number(month as nat, 2) + "-"@ + padded_number(day as nat, 2)),
            0 <= year <= 9999 ==> (r matches Some(d) ==> compact_date_text(d.day_number as int) == padded_number(
                year as nat,
                4,
            ) + padded_number(month as nat, 2) + padded_number(day as nat, 2)),
    {
        match ymd_to_day_number(year, month, day) {
            Some(n) => {
                proof {
                    lemma_civil_round_trip(year as int, month as int, day as int);
                    reveal(day_year);
                    reveal(day_month);
                    reveal(iso_date_text);
                    reveal(compact_date_text);
                }
                Some(CalendarDate { day_number: n })
            },
            None => None,
        }
    }

    pub fn copy(&self) -> (r: CalendarDate)
        ensures
            r == *self,
    {
        CalendarDate { day_number: self.day_number }
    }

    /// The date `days` days earlier.
    pub fn minus_days(&self, days: i32) -> (r: CalendarDate)
        requires
            self.wf(),
            0 <= days <= 100000,
            MIN_DAY <= self.day_number - days,
        ensures
            r.day_number == self.day_number - days,
            r.wf(),
    {
        CalendarDate { day_number: self.day_number - days }
    }

    /// Whole days from `earlier` to `self` (negative when `self` comes first).
    pub fn days_since(&self, earlier: &CalendarDate) -> (r: i64)
        ensures
            r == self.day_number - earlier.day_number,
    {
        self.day_number as i64 - earlier.day_number as i64
    }

    pub fn year(&self) -> (r: i32)
        ensures
            r == day_year(self.day_number as int),
            -300000 <= r <= 300000,
    {
        proof {
            lemma_year_in_range(self.day_number as int);
        }
        day_number_year(self.day_number)
    }

    pub fn month(&self) -> (r: u32)
        ensures
            r == day_month(self.day_number as int),
    {
        day_number_month(self.day_number)
    }

    /// The date chrono reads from `text` in `format`, if it reads one.
    pub fn parse_with_format(text: &str, format: &str) -> (r: Option<CalendarDate>)
        ensures
            r matches Some(d) ==> d.wf() && date_in_format(text@, format@) == Some(d.day_number as int),
            r is None ==> date_in_format(text@, format@) is None,
    {
        match parse_day_number(text, format) {
            Some(n) => Some(CalendarDate { day_number: n }),
            None => None,
        }
    }

    /// The date as `YYYY-MM-DD`.
    pub fn iso_text(&self) -> (r: String)
        ensures
            r@ == iso_date_text(self.day_number as int),
    {
        day_number_iso_text(self.day_number)
    }

    /// The date as `YYYYMMDD`.
    pub fn compact_text(&self) -> (r: String)
        ensures
            r@ == compact_date_text(self.day_number as int),
    {
        day_number_compact_text(self.day_number)
    }
}

/// The decimal digits of `n`, with zeros in front up to `width` characters.
pub open spec fn padded_number(n: nat, width: nat) -> Seq<char> {
    let d = crate::util::text::decimal_digits(n);
    if d.len() >= width {
        d
    } else {
        Seq::new((width - d.len()) as nat, |i: int| '0') + d
    }
}

/// Gregorian leap years: divisible by 4, and by 400 when divisible by 100.
pub open spec fn is_leap_year(y: int) -> bool {
    (y % 4 == 0 && y % 100 != 0) || y % 400 == 0
}

pub open spec fn days_in_month(y: int, m: int) -> int {
    if m == 2 {
        if is_leap_year(y) {
            29
        } else {
            28
        }
    } else if m == 4 || m == 6 || m == 9 || m == 11 {
        30
    } else {
        31
    }
}

/// The day number of a proleptic-Gregorian date, with 0001-01-01 as day 1:
/// days of whole 400-year eras, then of the years of the era counted from
/// March, then of the months from March, then of the month.
pub open spec fn days_from_civil(y: int, m: int, d: int) -> int {
    let yy = if m <= 2 {
        y - 1
    } else {
        y
    };
    let era = yy / 400;
    let yoe = yy - era * 400;
    let mp = if m > 2 {
        m - 3
    } else {
        m + 9
    };
    let doy = (153 * mp + 2) / 5 + d - 1;
    let doe = yoe * 365 + yoe / 4 - yoe / 100 + doy;
    era * 146097 + doe - 305
}

/// The day number chrono assigns to a year, month and day
/// (`from_ymd_opt` then `num_days_from_ce`), or none when no such date exists
/// in chrono's years -262143 to 262142.
pub open spec fn civil_day_number(year: int, month: int, day: int) -> Option<int> {
    if -262143 <= year <= 262142 && 1 <= month <= 12 && 1 <= day <= days_in_month(year, month) {
        Some(days_from_civil(year, month, day))
    } else {
        None
    }
}

/// The day number of the date chrono's `NaiveDate::parse_from_str` reads from
/// a text in a format (strftime-style), or none where chrono refuses the text.
pub uninterp spec fn date_in_format(text: Seq<char>, format: Seq<char>) -> Option<int>;

/// The proleptic-Gregorian year, month and day of a day number (0001-01-01
/// being day 1), the inverse of `days_from_civil`: whole 400-year eras, then
/// the years of the era counted from March, then the months from March.
pub open spec fn civil_from_days(n: int) -> (int, int, int) {
    let z = n + 305;
    let era = z / 146097;
    let doe = z - era * 146097;
    let yoe = (doe - doe / 1460 + doe / 36524 - doe / 146096) / 365;
    let doy = doe - (365 * yoe + yoe / 4 - yoe / 100);
    let mp = (5 * doy + 2) / 153;
    let d = doy - (153 * mp + 2) / 5 + 1;
    let m = if mp < 10 {
        mp + 3
    } else {
        mp - 9
    };
    (yoe + era * 400 + if m <= 2 {
        1int
    } else {
        0int
    }, m, d)
}

/// Days of the March-based year `yoe` of an era before its day `doy`, read
/// back: the year of the era is recovered from the day of the era.
#[verifier::spinoff_prover]
#[verifier::rlimit(60)]
proof fn lemma_year_of_era(yoe: int, doy: int)
    requires
        0 <= yoe <= 399,
        0 <= doy <= 365,
        doy == 365 ==> ((yoe + 1) % 4 == 0 && (yoe + 1) % 100 != 0) || yoe == 399,
    ensures
        ({
            let doe = 365 * yoe + yoe / 4 - yoe / 100 + doy;
            &&& 0 <= doe < 146097
            &&& (doe - doe / 1460 + doe / 36524 - doe / 146096) / 365 == yoe
        }),
{
}

/// The day of a March-based year read back as month and day.
proof fn lemma_month_of_year(mp: int, d: int, len: int)
    requires
        0 <= mp <= 11,
        1 <= d <= len,
        len == (if mp == 11 {
            29int
        } else if mp == 1 || mp == 3 || mp == 6 || mp == 8 {
            30
        } else {
            31
        }),
    ensures
        ({
            let doy = (153 * mp + 2) / 5 + d - 1;
            &&& 0 <= doy <= 365
            &&& (mp == 11 && d == 29 <==> doy == 365)
            &&& (5 * doy + 2) / 153 == mp
            &&& doy - (153 * mp + 2) / 5 + 1 == d
        }),
{
}

/// `civil_from_days` reads back the date `days_from_civil` numbers.
pub proof fn lemma_civil_round_trip(y: int, m: int, d: int)
    requires
        1 <= m <= 12,
        1 <= d <= days_in_month(y, m),
    ensures
        civil_from_days(days_from_civil(y, m, d)) == (y, m, d),
{
    let yy = if m <= 2 {
        y - 1
    } else {
        y
    };
    let era = yy / 400;
    let yoe = yy - era * 400;
    let mp = if m > 2 {
        m - 3
    } else {
        m + 9
    };
    let len: int = if mp == 11 {
        29
    } else if mp == 1 || mp == 3 || mp == 6 || mp == 8 {
        30
    } else {
        31
    };
    lemma_month_of_year(mp, d, len);
    let doy = (153 * mp + 2) / 5 + d - 1;
    assert(doy == 365 ==> is_leap_year(yy + 1));
    assert(is_leap_year(yy + 1) ==> ((yoe + 1) % 4 == 0 && (yoe + 1) % 100 != 0) || yoe == 399);
    lemma_year_of_era(yoe, doy);
    let doe = 365 * yoe + yoe / 4 - yoe / 100 + doy;
    let z = days_from_civil(y, m, d) + 305;
    assert(z == era * 146097 + doe);
    assert(z / 146097 == era);
}

/// The year of a day number lies within 300,000 of year 0.
proof fn lemma_year_in_range(n: int)
    ensures
        -300000 <= day_year(n) <= 300000,
{
    reveal(day_year);
    if in_day_range(n) {
        let z = n + 305;
        let era = z / 146097;
        let doe = z - era * 146097;
        assert(0 <= doe < 146097);
        assert(-656 <= era <= 656);
        let yoe = (doe - doe / 1460 + doe / 36524 - doe / 146096) / 365;
        assert(0 <= yoe <= 400);
    }
}

/// Whether a day number lies in chrono's range of dates.
pub open spec fn in_day_range(n: int) -> bool {
    MIN_DAY <= n <= MAX_DAY
}

/// The year of the date with the given day number; 0 outside chrono's range.
#[verifier::opaque]
pub open spec fn day_year(day_number: int) -> int {
    if in_day_range(day_number) {
        civil_from_days(day_number).0
    } else {
        0
    }
}

/// The month (1 to 12) of the date with the given day number; 0 outside
/// chrono's range.
#[verifier::opaque]
pub open spec fn day_month(day_number: int) -> int {
    if in_day_range(day_number) {
        civil_from_days(day_number).1
    } else {
        0
    }
}

/// A year as chrono writes it: four digits from 0 to 9999, else its sign and
/// at least four digits.
pub open spec fn year_text(y: int) -> Seq<char> {
    if 0 <= y <= 9999 {
        padded_number(y as nat, 4)
    } else if y < 0 {
        "-"@ + padded_number((-y) as nat, 4)
    } else {
        "+"@ + padded_number(y as nat, 4)
    }
}

/// The date with the given day number written `YYYY-MM-DD`; empty outside
/// chrono's range.
#[verifier::opaque]
pub open spec fn iso_date_text(day_number: int) -> Seq<char> {
    if in_day_range(day_number) {
        let (y, m, d) = civil_from_days(day_number);
        year_text(y) + "-"@ + padded_number(m as nat, 2) + "-"@ + padded_number(d as nat, 2)
    } else {
        Seq::empty()
    }
}

/// The date with the given day number written `YYYYMMDD`; empty outside
/// chrono's range.
#[verifier::opaque]
pub open spec fn compact_date_text(day_number: int) -> Seq<char> {
    if in_day_range(day_number) {
        let (y, m, d) = civil_from_days(day_number);
        year_text(y) + padded_number(m as nat, 2) + padded_number(d as nat, 2)
    } else {
        Seq::empty()
    }
}

/// Trusted: `chrono::NaiveDate::from_ymd_opt` followed by `num_days_from_ce`.
/// chrono returns a date only for an existing proleptic-Gregorian day (month in
/// 1..=12, day within the month) inside its range of about 262,000 years on each
/// side of year 1, so its day number lies from `MIN_DAY` to `MAX_DAY`.
#[verifier::external_body]
fn ymd_to_day_number(year: i32, month: u32, day: u32) -> (r: Option<i32>)
    ensures
        r matches Some(n) ==> MIN_DAY <= n <= MAX_DAY,
        match r {
            Some(n) => civil_day_number(year as int, month as int, day as int) == Some(n as int),
            None => civil_day_number(year as int, month as int, day as int) is None,
        },
{
    chrono::NaiveDate::from_ymd_opt(year, month, day).map(|date| date.num_days_from_ce())
}

/// Trusted: `chrono::NaiveDate::from_num_days_from_ce_opt` then `Datelike::year`;
/// 0 for a day number outside chrono's range. Claimed: inside the range chrono
/// gives the year of `civil_from_days` (its 400-year cycle reckoning, in
/// `from_num_days_from_ce_opt` and `cycle_to_yo`).
#[verifier::external_body]
fn day_number_year(n: i32) -> (r: i32)
    ensures
        r == day_year(n as int),
{
    match chrono::NaiveDate::from_num_days_from_ce_opt(n) {
        Some(date) => date.year(),
        None => 0,
    }
}

/// Trusted: `chrono::NaiveDate::from_num_days_from_ce_opt` then `Datelike::month`;
/// 0 for a day number outside chrono's range. Claimed: inside the range, the
/// month of `civil_from_days`.
#[verifier::external_body]
fn day_number_month(n: i32) -> (r: u32)
    ensures
        r == day_month(n as int),
{
    match chrono::NaiveDate::from_num_days_from_ce_opt(n) {
        Some(date) => date.month(),
        None => 0,
    }
}

/// Trusted: `chrono::NaiveDate::from_num_days_from_ce_opt` then its `Display`
/// (`%Y-%m-%d`); empty for a day number outside chrono's range. Claimed:
/// inside the range, the date of `civil_from_days` with the year as chrono's
/// `Debug` writes it (four digits from 0 to 9999, else signed) and the month
/// and day in two digits.
#[verifier::external_body]
fn day_number_iso_text(n: i32) -> (r: String)
    ensures
        r@ == iso_date_text(n as int),
{
    match chrono::NaiveDate::from_num_days_from_ce_opt(n) {
        Some(date) => date.to_string(),
        None => String::new(),
    }
}

/// Trusted: `chrono::NaiveDate::from_num_days_from_ce_opt` then
/// `format("%Y%m%d")`; empty for a day number outside chrono's range. Claimed:
/// inside the range, the date of `civil_from_days` with the year as `%Y`
/// writes it (`write_year`: four digits from 0 to 9999, else signed) and the
/// month and day in two digits.
#[verifier::external_body]
fn day_number_compact_text(n: i32) -> (r: String)
    ensures
        r@ == compact_date_text(n as int),
{
    match chrono::NaiveDate::from_num_days_from_ce_opt(n) {
        Some(date) => date.format("%Y%m%d").to_string(),
        None => String::new(),
    }
}

/// Trusted: `chrono::NaiveDate::parse_from_str` then `num_days_from_ce`; none
/// where chrono refuses the text. Any date chrono returns lies in its range, so
/// its day number lies from `MIN_DAY` to `MAX_DAY`.
#[verifier::external_body]
fn parse_day_number(text: &str, format: &str) -> (r: Option<i32>)
    ensures
        r matches Some(n) ==> MIN_DAY <= n <= MAX_DAY,
        match r {
            Some(n) => date_in_format(text@, format@) == Some(n as int),
            None => date_in_format(text@, format@) is None,
        },
{
    chrono::NaiveDate::parse_from_str(text, format).ok().map(|date| date.num_days_from_ce())
}

} // verus!
