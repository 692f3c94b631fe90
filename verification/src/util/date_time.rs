use vstd::prelude::*;
use chrono::{Datelike, Months, NaiveDate, NaiveDateTime, TimeDelta, Timelike};
use crate::claims::digits;

verus! {

/// Whether `year` is a leap year of the Gregorian calendar.
pub open spec fn is_leap_year(year: int) -> bool {
    (year % 4 == 0 && year % 100 != 0) || year % 400 == 0
}

/// The number of days of a month of the Gregorian calendar.
pub open spec fn month_days(year: int, month: int) -> int {
    if month == 2 {
        if is_leap_year(year) {
            29
        } else {
            28
        }
    } else if month == 4 || month == 6 || month == 9 || month == 11 {
        30
    } else {
        31
    }
}

/// Whether year, month and day name a date of the Gregorian calendar.
pub open spec fn is_date(year: int, month: int, day: int) -> bool {
    1 <= month <= 12 && 1 <= day <= month_days(year, month)
}

/// The day of the week of a date, counted from Sunday (0) to Saturday (6).
pub open spec fn weekday_from_sunday(year: int, month: int, day: int) -> int {
    let offsets = seq![0int, 3, 2, 5, 0, 3, 5, 1, 4, 6, 2, 4];
    let y = if month < 3 {
        year - 1
    } else {
        year
    };
    (y + y / 4 - y / 100 + y / 400 + offsets[month - 1] + day) % 7
}

/// A calendar date, as the rows of the journals carry it.
#[derive(Clone, Copy, Debug)]
pub struct Day {
    pub year: i32,
    pub month: u32,
    pub day: u32,
}

impl Day {
    /// Whether the date exists in the Gregorian calendar.
    pub open spec fn wf(self) -> bool {
        is_date(self.year as int, self.month as int, self.day as int)
    }
}

/// Whether a year lies in the range of chrono's dates.
pub open spec fn chrono_year(year: int) -> bool {
    -262143 <= year <= 262142
}

/// The date that `chrono::NaiveDate::parse_from_str` reads from `text` with
/// the format `%Y-%m-%d`, as year, month and day.
pub uninterp spec fn parsed_date(text: Seq<char>) -> Option<(i32, u32, u32)>;

/// Reads a date written `%Y-%m-%d` (`chrono::NaiveDate::parse_from_str`).
/// What it reads is a function of the text, and always a valid date, as
/// every `NaiveDate` is, in chrono's range of years.
#[verifier::external_body]
pub(crate) fn parse_date(text: &str) -> (r: Option<(i32, u32, u32)>)
    ensures
        r == parsed_date(text@),
        r matches Some((y, m, d)) ==> is_date(y as int, m as int, d as int) && chrono_year(y as int),
{
    match NaiveDate::parse_from_str(text, "%Y-%m-%d") {
        Ok(date) => Some((date.year(), date.month(), date.day())),
        Err(_) => None,
    }
}

/// The day of the week of a date, counted from Sunday
/// (`chrono::Weekday::num_days_from_sunday` of the date).
#[verifier::external_body]
pub(crate) fn weekday_of(year: i32, month: u32, day: u32) -> (r: u32)
    requires
        is_date(year as int, month as int, day as int),
        chrono_year(year as int),
    ensures
        r as int == weekday_from_sunday(year as int, month as int, day as int),
{
    match NaiveDate::from_ymd_opt(year, month, day) {
        Some(date) => date.weekday().num_days_from_sunday(),
        None => 0,
    }
}

/// Date computations of the services.
pub struct DateUtils {}

impl DateUtils {
    /// The number of days of the month `month` of `year`.
    pub fn get_current_month_days(year: i32, month: u32) -> (r: u32)
        requires
            1 <= month <= 12,
        ensures
            r as int == month_days(year as int, month as int),
    {
        if month == 2 {
            if (year % 4 == 0 && year % 100 != 0) || year % 400 == 0 {
                29
            } else {
                28
            }
        } else if month == 4 || month == 6 || month == 9 || month == 11 {
            30
        } else {
            31
        }
    }
}

/// A date with a time of day, as plans carry them.
#[derive(Clone, Copy, Debug)]
pub struct DayTime {
    pub date: Day,
    pub hour: u32,
    pub minute: u32,
    pub second: u32,
}

impl DayTime {
    /// Whether the date exists and the time is one of a day.
    pub open spec fn wf(self) -> bool {
        self.date.wf() && self.hour < 24 && self.minute < 60 && self.second < 60
    }
}

/// The number of a day of the proleptic Gregorian calendar, counted from
/// 1970-01-01: consecutive days have consecutive numbers.
pub open spec fn day_number(d: Day) -> int {
    let y = if d.month <= 2 {
        d.year - 1
    } else {
        d.year as int
    };
    let era = y / 400;
    let yoe = y - era * 400;
    let mp = (d.month + 9) % 12;
    let doy = (153 * mp + 2) / 5 + d.day - 1;
    let doe = yoe * 365 + yoe / 4 - yoe / 100 + doy;
    era * 146097 + doe - 719468
}

/// The month counted from the year 0: `year * 12 + month - 1`.
pub open spec fn month_index(d: Day) -> int {
    d.year * 12 + d.month - 1
}

/// Whether `later` is `earlier` moved by `months` months: the same day of
/// the month, or the last day of the month where that day does not exist.
pub open spec fn months_later(earlier: Day, months: int, later: Day) -> bool {
    &&& month_index(later) == month_index(earlier) + months
    &&& later.day == if earlier.day <= month_days(later.year as int, later.month as int) {
        earlier.day as int
    } else {
        month_days(later.year as int, later.month as int)
    }
}

/// Whether two moments have the same time of day.
pub open spec fn same_time(a: DayTime, b: DayTime) -> bool {
    a.hour == b.hour && a.minute == b.minute && a.second == b.second
}

/// The moment that `chrono::NaiveDateTime::parse_from_str` reads from
/// `text` with the format `%Y-%m-%d %H:%M:%S`, as year, month, day, hour,
/// minute and second.
pub uninterp spec fn parsed_datetime(text: Seq<char>) -> Option<(i32, u32, u32, u32, u32, u32)>;

/// The moment of six numbers.
pub open spec fn moment_of(p: (i32, u32, u32, u32, u32, u32)) -> DayTime {
    DayTime { date: Day { year: p.0, month: p.1, day: p.2 }, hour: p.3, minute: p.4, second: p.5 }
}

/// Reads a moment written `%Y-%m-%d %H:%M:%S`
/// (`chrono::NaiveDateTime::parse_from_str`). What it reads is a function
/// of the text, and always a valid moment, as every `NaiveDateTime` is.
#[verifier::external_body]
pub(crate) fn parse_datetime(text: &str) -> (r: Option<DayTime>)
    ensures
        match parsed_datetime(text@) {
            Some(p) => r == Some(moment_of(p)),
            None => r is None,
        },
        r matches Some(t) ==> t.wf(),
{
    let t = NaiveDateTime::parse_from_str(text, "%Y-%m-%d %H:%M:%S").ok()?;
    let date = Day { year: t.year(), month: t.month(), day: t.day() };
    Some(DayTime { date, hour: t.hour(), minute: t.minute(), second: t.second() })
}

/// A number of at most two digits, zero-padded to two.
pub open spec fn two_digits(n: nat) -> Seq<char> {
    if n < 10 {
        seq!['0'] + digits(n)
    } else {
        digits(n)
    }
}

/// A number of at most four digits, zero-padded to four.
pub open spec fn four_digits(n: nat) -> Seq<char> {
    if n < 10 {
        seq!['0', '0', '0'] + digits(n)
    } else if n < 100 {
        seq!['0', '0'] + digits(n)
    } else if n < 1000 {
        seq!['0'] + digits(n)
    } else {
        digits(n)
    }
}

/// A moment written `%Y-%m-%d %H:%M:%S`, for a year from 0 to 9999.
pub open spec fn padded_datetime(t: DayTime) -> Seq<char> {
    four_digits(t.date.year as nat) + seq!['-'] + two_digits(t.date.month as nat) + seq!['-'] + two_digits(
        t.date.day as nat,
    ) + seq![' '] + two_digits(t.hour as nat) + seq![':'] + two_digits(t.minute as nat) + seq![':']
        + two_digits(t.second as nat)
}

/// The text that `chrono` writes for a moment with the format
/// `%Y-%m-%d %H:%M:%S`.
pub uninterp spec fn datetime_text(year: i32, month: u32, day: u32, hour: u32, minute: u32, second: u32) -> Seq<char>;

/// Writes a moment with the format `%Y-%m-%d %H:%M:%S`
/// (`chrono::NaiveDateTime::format`). The text is named; chrono's
/// documentation of the format gives it for the years 0 to 9999: every
/// field zero-padded, the year to four digits, the others to two. Other
/// years get a sign, which is left unsaid.
#[verifier::external_body]
pub(crate) fn format_datetime(t: DayTime) -> (r: String)
    requires
        t.wf(),
    ensures
        r@ == datetime_text(t.date.year, t.date.month, t.date.day, t.hour, t.minute, t.second),
        0 <= t.date.year <= 9999 ==> r@ == padded_datetime(t),
{
    let Some(d) = NaiveDate::from_ymd_opt(t.date.year, t.date.month, t.date.day) else {
        return String::new();
    };
    let Some(m) = d.and_hms_opt(t.hour, t.minute, t.second) else {
        return String::new();
    };
    m.format("%Y-%m-%d %H:%M:%S").to_string()
}

/// The moment that `chrono::NaiveDateTime::checked_add_signed` gives for
/// a moment and a number of days.
pub uninterp spec fn datetime_plus_days(
    year: i32,
    month: u32,
    day: u32,
    hour: u32,
    minute: u32,
    second: u32,
    days: i64,
) -> Option<(i32, u32, u32, u32, u32, u32)>;

/// A moment moved by `days` days (`chrono::NaiveDateTime::checked_add_signed`
/// with `TimeDelta::try_days`); `None` where that leaves chrono's range.
/// The result is named; where it is there, it is `days` days later at the
/// same time of day.
#[verifier::external_body]
pub(crate) fn plus_days(t: DayTime, days: i64) -> (r: Option<DayTime>)
    requires
        t.wf(),
    ensures
        match datetime_plus_days(t.date.year, t.date.month, t.date.day, t.hour, t.minute, t.second, days) {
            Some(p) => r == Some(moment_of(p)),
            None => r is None,
        },
        r matches Some(n) ==> (n.wf() && day_number(n.date) == day_number(t.date) + days && same_time(
            n,
            t,
        )),
{
    let d = NaiveDate::from_ymd_opt(t.date.year, t.date.month, t.date.day)?;
    let m = d.and_hms_opt(t.hour, t.minute, t.second)?;
    let n = m.checked_add_signed(TimeDelta::try_days(days)?)?;
    let date = Day { year: n.year(), month: n.month(), day: n.day() };
    Some(DayTime { date, hour: n.hour(), minute: n.minute(), second: n.second() })
}

/// The moment that `chrono::NaiveDateTime::checked_add_months` gives for a
/// moment and a number of months.
pub uninterp spec fn datetime_plus_months(
    year: i32,
    month: u32,
    day: u32,
    hour: u32,
    minute: u32,
    second: u32,
    months: u32,
) -> Option<(i32, u32, u32, u32, u32, u32)>;

/// A moment moved by `months` months (`chrono::NaiveDateTime::checked_add_months`);
/// `None` where that leaves chrono's range. The result is named; where it
/// is there, it is in the month `months` later, on the same day or on that
/// month's last day where the day does not exist, at the same time of day.
#[verifier::external_body]
pub(crate) fn plus_months(t: DayTime, months: u32) -> (r: Option<DayTime>)
    requires
        t.wf(),
    ensures
        match datetime_plus_months(t.date.year, t.date.month, t.date.day, t.hour, t.minute, t.second, months) {
            Some(p) => r == Some(moment_of(p)),
            None => r is None,
        },
        r matches Some(n) ==> (n.wf() && months_later(t.date, months as int, n.date) && same_time(n, t)),
{
    let d = NaiveDate::from_ymd_opt(t.date.year, t.date.month, t.date.day)?;
    let m = d.and_hms_opt(t.hour, t.minute, t.second)?;
    let n = m.checked_add_months(Months::new(months))?;
    let date = Day { year: n.year(), month: n.month(), day: n.day() };
    Some(DayTime { date, hour: n.hour(), minute: n.minute(), second: n.second() })
}

/// The next run of a plan that ran at `t`, by its cycle: 1 once (it stays
/// at `t`), 2 every `unit` days, 3 every `unit` weeks, 4 every `unit`
/// months, 5 every `unit` years; another cycle has none.
pub open spec fn next_run(t: DayTime, cycle: u32, unit: u32) -> Option<DayTime> {
    let run = |p: Option<(i32, u32, u32, u32, u32, u32)>|
        match p {
            Some(q) => Some(moment_of(q)),
            None => None,
        };
    let d = t.date;
    if cycle == 1 {
        Some(t)
    } else if cycle == 2 {
        run(datetime_plus_days(d.year, d.month, d.day, t.hour, t.minute, t.second, unit as i64))
    } else if cycle == 3 {
        run(datetime_plus_days(d.year, d.month, d.day, t.hour, t.minute, t.second, (7 * unit) as i64))
    } else if cycle == 4 {
        run(datetime_plus_months(d.year, d.month, d.day, t.hour, t.minute, t.second, unit))
    } else if cycle == 5 && unit as int * 12 <= u32::MAX {
        run(datetime_plus_months(d.year, d.month, d.day, t.hour, t.minute, t.second, (unit * 12) as u32))
    } else {
        None
    }
}

/// Whether `n` is `t` moved by one cycle: `unit` days (cycle 2), weeks (3),
/// months (4) or years (5), at the same time of day; a one-off plan (1)
/// stays.
pub open spec fn one_cycle_later(t: DayTime, cycle: u32, unit: u32, n: DayTime) -> bool {
    if cycle == 1 {
        n == t
    } else if cycle == 2 {
        day_number(n.date) == day_number(t.date) + unit && same_time(n, t)
    } else if cycle == 3 {
        day_number(n.date) == day_number(t.date) + 7 * unit && same_time(n, t)
    } else if cycle == 4 {
        months_later(t.date, unit as int, n.date) && same_time(n, t)
    } else {
        cycle == 5 && months_later(t.date, 12 * unit, n.date) && same_time(n, t)
    }
}

impl DateUtils {
    /// The next run of a plan that ran at `t`, by its cycle: 1 once (it
    /// stays at `t`), 2 every `unit` days, 3 every `unit` weeks, 4 every
    /// `unit` months, 5 every `unit` years; `None` for another cycle or a
    /// moment beyond chrono's range.
    pub fn plan_data_compute(t: DayTime, cycle: u32, unit: u32) -> (r: Option<DayTime>)
        requires
            t.wf(),
        ensures
            r == next_run(t, cycle, unit),
            r matches Some(n) ==> (n.wf() && one_cycle_later(t, cycle, unit, n)),
            !(1 <= cycle <= 5) ==> r is None,
    {
        if cycle == 1 {
            Some(t)
        } else if cycle == 2 {
            plus_days(t, unit as i64)
        } else if cycle == 3 {
            plus_days(t, 7 * unit as i64)
        } else if cycle == 4 {
            plus_months(t, unit)
        } else if cycle == 5 && unit <= 357913941 {
            plus_months(t, unit * 12)
        } else {
            None
        }
    }
}

/// A plan of `unit` weeks runs next when a plan of `7 * unit` days does.
pub proof fn lemma_weekly_is_seven_daily(t: DayTime, unit: u32)
    requires
        7 * unit <= u32::MAX,
    ensures
        next_run(t, 3, unit) == next_run(t, 2, (7 * unit) as u32),
{
}

/// A plan of `unit` years runs next when a plan of `12 * unit` months does.
pub proof fn lemma_yearly_is_twelve_monthly(t: DayTime, unit: u32)
    requires
        12 * unit <= u32::MAX,
    ensures
        next_run(t, 5, unit) == next_run(t, 4, (12 * unit) as u32),
{
}

/// A one-off plan's next run is where it is.
pub proof fn lemma_one_off_stays(t: DayTime, unit: u32)
    ensures
        next_run(t, 1, unit) == Some(t),
{
}

} // verus!
