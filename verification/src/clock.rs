//! Wall-clock readings and the text that stands for them in the journal.

use chrono::{Datelike, Timelike};
use crate::text::is_one_line;
use vstd::prelude::*;

verus! {

/// The first year that a reading can hold: the first year of the dates of
/// `chrono`, which formats the readings.
pub const MIN_YEAR: i32 = -262143;

/// The last year that a reading can hold: the last year of the dates of
/// `chrono`.
pub const MAX_YEAR: i32 = 262142;

/// A calendar date and a time of day, as a wall clock shows them.
pub struct Moment {
    pub year: int,
    pub month: int,
    pub day: int,
    pub hour: int,
    pub minute: int,
    pub second: int,
}

/// Whether a year of the proleptic Gregorian calendar has a 29th of February.
pub open spec fn is_leap_year(year: int) -> bool {
    year % 4 == 0 && (year % 100 != 0 || year % 400 == 0)
}

/// The number of days of a month, for `month` from 1 to 12.
pub open spec fn days_in_month(year: int, month: int) -> int {
    if month == 2 {
        if is_leap_year(year) {
            29
        } else {
            28
        }
    } else if month == 4 || month == 6 || month == 9 || month == 11 {
        30
    } else {
        31
    }
}

impl Moment {
    /// Whether the moment names a day that exists in the calendar, and a
    /// second that exists in that day.
    pub open spec fn is_valid(self) -> bool {
        &&& MIN_YEAR <= self.year <= MAX_YEAR
        &&& 1 <= self.month <= 12
        &&& 1 <= self.day <= days_in_month(self.year, self.month)
        &&& 0 <= self.hour < 24
        &&& 0 <= self.minute < 60
        &&& 0 <= self.second < 60
    }
}

/// One reading of a wall clock, to the second. Every reading is a valid
/// moment: it cannot be built from a date that the calendar does not have.
#[derive(Clone, Copy, Debug, PartialEq, Eq)]
pub struct ClockReading {
    year: i32,
    month: u32,
    day: u32,
    hour: u32,
    minute: u32,
    second: u32,
}

impl View for ClockReading {
    type V = Moment;

    closed spec fn view(&self) -> Moment {
        Moment {
            year: self.year as int,
            month: self.month as int,
            day: self.day as int,
            hour: self.hour as int,
            minute: self.minute as int,
            second: self.second as int,
        }
    }
}

/// Whether `year` has a 29th of February.
fn leap_year(year: i32) -> (leap: bool)
    ensures
        leap == is_leap_year(year as int),
{
    year % 4 == 0 && (year % 100 != 0 || year % 400 == 0)
}

/// The number of days of `month` in `year`.
fn month_length(year: i32, month: u32) -> (days: u32)
    requires
        1 <= month <= 12,
    ensures
        days == days_in_month(year as int, month as int),
{
    if month == 2 {
        if leap_year(year) {
            29
        } else {
            28
        }
    } else if month == 4 || month == 6 || month == 9 || month == 11 {
        30
    } else {
        31
    }
}

impl ClockReading {
    #[verifier::type_invariant]
    spec fn well_formed(self) -> bool {
        self@.is_valid()
    }

    /// The reading for the given date and time of day, if there is such a
    /// moment: `None` for the 30th of February, for hour 24, for a year
    /// outside `MIN_YEAR..=MAX_YEAR`.
    pub fn new(year: i32, month: u32, day: u32, hour: u32, minute: u32, second: u32) -> (reading:
        Option<ClockReading>)
        ensures
            ({
                let moment = Moment {
                    year: year as int,
                    month: month as int,
                    day: day as int,
                    hour: hour as int,
                    minute: minute as int,
                    second: second as int,
                };
                match reading {
                    Some(r) => moment.is_valid() && r@ == moment,
                    None => !moment.is_valid(),
                }
            }),
    {
        if year < MIN_YEAR || year > MAX_YEAR || month < 1 || month > 12 {
            return None;
        }
        if day < 1 || day > month_length(year, month) {
            return None;
        }
        if hour >= 24 || minute >= 60 || second >= 60 {
            return None;
        }
        Some(ClockReading { year, month, day, hour, minute, second })
    }

    /// The year, in the proleptic Gregorian calendar; year 0 is 1 BCE.
    pub fn year(&self) -> (year: i32)
        ensures
            year == self@.year,
            self@.is_valid(),
    {
        proof {
            use_type_invariant(self);
        }
        self.year
    }

    /// The month, from 1 to 12.
    pub fn month(&self) -> (month: u32)
        ensures
            month == self@.month,
            self@.is_valid(),
    {
        proof {
            use_type_invariant(self);
        }
        self.month
    }

    /// The day of the month, from 1.
    pub fn day(&self) -> (day: u32)
        ensures
            day == self@.day,
            self@.is_valid(),
    {
        proof {
            use_type_invariant(self);
        }
        self.day
    }

    /// The hour of the day, from 0 to 23.
    pub fn hour(&self) -> (hour: u32)
        ensures
            hour == self@.hour,
            self@.is_valid(),
    {
        proof {
            use_type_invariant(self);
        }
        self.hour
    }

    /// The minute of the hour, from 0 to 59.
    pub fn minute(&self) -> (minute: u32)
        ensures
            minute == self@.minute,
            self@.is_valid(),
    {
        proof {
            use_type_invariant(self);
        }
        self.minute
    }

    /// The second of the minute, from 0 to 59.
    pub fn second(&self) -> (second: u32)
        ensures
            second == self@.second,
            self@.is_valid(),
    {
        proof {
            use_type_invariant(self);
        }
        self.second
    }

    /// The reading as the journal writes it: `YYYY-MM-DD HH:MM:SS`.
    pub fn timestamp(&self) -> (text: String)
        ensures
            text@ == stamp_text(self@),
    {
        proof {
            use_type_invariant(self);
        }
        render(self, "%Y-%m-%d %H:%M:%S")
    }
}

/// The character that stands for `d`, for `d` from 0 to 9.
pub open spec fn digit(d: int) -> char {
    if d == 0 {
        '0'
    } else if d == 1 {
        '1'
    } else if d == 2 {
        '2'
    } else if d == 3 {
        '3'
    } else if d == 4 {
        '4'
    } else if d == 5 {
        '5'
    } else if d == 6 {
        '6'
    } else if d == 7 {
        '7'
    } else if d == 8 {
        '8'
    } else {
        '9'
    }
}

/// The decimal digits of `n`, without leading zeros.
pub open spec fn decimal(n: nat) -> Seq<char>
    decreases n,
{
    if n < 10 {
        seq![digit(n as int)]
    } else {
        decimal(n / 10).push(digit((n % 10) as int))
    }
}

/// The two decimal digits of `n`, for `n` from 0 to 99.
pub open spec fn two_digits(n: int) -> Seq<char> {
    seq![digit(n / 10), digit(n % 10)]
}

/// The four decimal digits of `n`, for `n` from 0 to 9999.
pub open spec fn four_digits(n: int) -> Seq<char> {
    seq![digit(n / 1000), digit(n / 100 % 10), digit(n / 10 % 10), digit(n % 10)]
}

/// A year as the journal writes it: four digits from year 0 to year 9999;
/// outside those a sign, then the digits of the distance from year 0, at
/// least four of them.
pub open spec fn year_text(year: int) -> Seq<char> {
    if 0 <= year <= 9999 {
        four_digits(year)
    } else if year > 9999 {
        seq!['+'] + decimal(year as nat)
    } else if year > -10000 {
        seq!['-'] + four_digits(-year)
    } else {
        seq!['-'] + decimal((-year) as nat)
    }
}

/// The layout of a timestamp, in the notation of `strftime`.
pub open spec fn stamp_pattern() -> Seq<char> {
    "%Y-%m-%d %H:%M:%S"@
}

/// A moment as the journal writes it: `YYYY-MM-DD HH:MM:SS`.
pub open spec fn stamp_text(at: Moment) -> Seq<char> {
    year_text(at.year) + seq!['-'] + two_digits(at.month) + seq!['-'] + two_digits(at.day)
        + seq![' '] + two_digits(at.hour) + seq![':'] + two_digits(at.minute) + seq![':']
        + two_digits(at.second)
}

/// The digits of a number hold no newline.
pub proof fn lemma_decimal_one_line(n: nat)
    ensures
        is_one_line(decimal(n)),
    decreases n,
{
    if n >= 10 {
        lemma_decimal_one_line(n / 10);
    }
}

/// A timestamp stays on one line, whatever the moment.
pub proof fn lemma_stamp_one_line(at: Moment)
    ensures
        is_one_line(stamp_text(at)),
{
    if at.year > 9999 {
        lemma_decimal_one_line(at.year as nat);
    } else if at.year <= -10000 {
        lemma_decimal_one_line((-at.year) as nat);
    }
    assert(is_one_line(year_text(at.year)));
}

/// From year 0 to year 9999 a timestamp has nineteen characters.
pub proof fn lemma_stamp_length(at: Moment)
    requires
        0 <= at.year <= 9999,
    ensures
        stamp_text(at).len() == 19,
{
}

/// Formats a reading with `chrono`: `NaiveDate::from_ymd_opt` and
/// `NaiveDate::and_hms_opt` rebuild the date and time from the fields, and
/// `NaiveDateTime::format` writes them by the pattern.
///
/// Not proved: that for a valid moment both constructors return a value, and
/// that the pattern `%Y-%m-%d %H:%M:%S` then yields the zero-padded fields
/// with their separators, the year signed when it lies outside 0..=9999.
#[verifier::external_body]
fn render(reading: &ClockReading, pattern: &str) -> (text: String)
    requires
        reading@.is_valid(),
        pattern@ == stamp_pattern(),
    ensures
        text@ == stamp_text(reading@),
{
    let date = chrono::NaiveDate::from_ymd_opt(reading.year, reading.month, reading.day).unwrap();
    let at = date.and_hms_opt(reading.hour, reading.minute, reading.second).unwrap();
    at.format(pattern).to_string()
}

/// Reads the wall clock in the local time zone with `chrono::Local::now`.
///
/// Not proved: that what `chrono` hands out is a valid moment. Nothing is
/// said of which moment it is. The call aborts where the system clock reads
/// a time before 1970 or past the last year that `chrono` can hold.
#[verifier::external_body]
pub(crate) fn local_now() -> (now: ClockReading)
    ensures
        now@.is_valid(),
{
    let at = chrono::Local::now().naive_local();
    ClockReading {
        year: at.year(),
        month: at.month(),
        day: at.day(),
        hour: at.hour(),
        minute: at.minute(),
        second: at.second(),
    }
}

} // verus!
