//! Wall-clock timestamps with millisecond precision, as plain calendar
//! fields, and the text under which a log line shows them.

use crate::text::{decimal, digit_char, zero_padded};
use vstd::prelude::*;

verus! {

/// The first year that a timestamp can hold: the first of `chrono::NaiveDate`.
pub const MIN_YEAR: i32 = -262_143;

/// The last year that a timestamp can hold: the last of `chrono::NaiveDate`.
pub const MAX_YEAR: i32 = 262_142;

/// What a `Timestamp` stands for: a date of the proleptic Gregorian calendar
/// and a time of day.
pub struct Moment {
    pub year: int,
    pub month: int,
    pub day: int,
    pub hour: int,
    pub minute: int,
    pub second: int,
    pub millisecond: int,
}

/// Whether `year` has a 29th of February.
pub open spec fn is_leap_year(year: int) -> bool {
    year % 4 == 0 && (year % 100 != 0 || year % 400 == 0)
}

/// The number of days of a month, the months counted from 1.
pub open spec fn days_in_month(year: int, month: int) -> int {
    if month == 2 {
        if is_leap_year(year) {
            29
        } else {
            28
        }
    } else if month == 4 || month == 6 || month == 9 || month == 11 {
        30
    } else {
        31
    }
}

/// A number below 100 in two digits.
pub open spec fn two_digits(n: int) -> Seq<char> {
    seq![digit_char(n / 10), digit_char(n % 10)]
}

/// A number below 1000 in three digits.
pub open spec fn three_digits(n: int) -> Seq<char> {
    seq![digit_char(n / 100), digit_char((n / 10) % 10), digit_char(n % 10)]
}

/// A year as a log line shows it: four digits for the years 0 to 9999; a
/// sign in front of at least four digits for every other year.
pub open spec fn year_text(year: int) -> Seq<char> {
    if 0 <= year <= 9999 {
        zero_padded(year as nat, 4)
    } else if year > 9999 {
        seq!['+'] + decimal(year as nat)
    } else {
        seq!['-'] + zero_padded((-year) as nat, 4)
    }
}

impl Moment {
    /// Whether the fields name a day that exists and a time of that day.
    pub open spec fn valid(self) -> bool {
        &&& MIN_YEAR <= self.year <= MAX_YEAR
        &&& 1 <= self.month <= 12
        &&& 1 <= self.day <= days_in_month(self.year, self.month)
        &&& 0 <= self.hour <= 23
        &&& 0 <= self.minute <= 59
        &&& 0 <= self.second <= 59
        &&& 0 <= self.millisecond <= 999
    }

    /// The moment in the layout `YYYY-MM-DD HH:MM:SS.mmm`.
    pub open spec fn text(self) -> Seq<char> {
        year_text(self.year) + seq!['-'] + two_digits(self.month) + seq!['-']
            + two_digits(self.day) + seq![' '] + two_digits(self.hour) + seq![':']
            + two_digits(self.minute) + seq![':'] + two_digits(self.second) + seq!['.']
            + three_digits(self.millisecond)
    }
}

/// The pattern, in the notation of `strftime`, that yields `Moment::text`.
pub open spec fn timestamp_pattern() -> Seq<char> {
    "%Y-%m-%d %H:%M:%S%.3f"@
}

/// A valid moment of the years 0 to 9999 takes 23 characters, with the marks
/// of the layout `YYYY-MM-DD HH:MM:SS.mmm` in their columns.
pub proof fn lemma_text_of_a_four_digit_year(moment: Moment)
    requires
        moment.valid(),
        0 <= moment.year <= 9999,
    ensures
        moment.text().len() == 23,
        moment.text()[4] == '-',
        moment.text()[7] == '-',
        moment.text()[10] == ' ',
        moment.text()[13] == ':',
        moment.text()[16] == ':',
        moment.text()[19] == '.',
{
    reveal_with_fuel(decimal, 4);
    assert(year_text(moment.year).len() == 4);
}

/// A point in local time, to the millisecond. Every value is a valid moment.
#[derive(Clone, Copy, Debug, PartialEq, Eq)]
pub struct Timestamp {
    year: i32,
    month: u32,
    day: u32,
    hour: u32,
    minute: u32,
    second: u32,
    millisecond: u32,
}

impl View for Timestamp {
    type V = Moment;

    closed spec fn view(&self) -> Moment {
        Moment {
            year: self.year as int,
            month: self.month as int,
            day: self.day as int,
            hour: self.hour as int,
            minute: self.minute as int,
            second: self.second as int,
            millisecond: self.millisecond as int,
        }
    }
}

/// The number of days of `month` in `year`.
fn month_length(year: i32, month: u32) -> (days: u32)
    requires
        MIN_YEAR <= year <= MAX_YEAR,
        1 <= month <= 12,
    ensures
        days == days_in_month(year as int, month as int),
{
    if month == 2 {
        // A multiple of 400 makes the year positive and keeps its place in
        // the 400-year cycle.
        let shifted: u32 = (year + 400_000) as u32;
        if shifted % 4 == 0 && (shifted % 100 != 0 || shifted % 400 == 0) {
            29
        } else {
            28
        }
    } else if month == 4 || month == 6 || month == 9 || month == 11 {
        30
    } else {
        31
    }
}

impl Timestamp {
    #[verifier::type_invariant]
    spec fn well_formed(self) -> bool {
        self@.valid()
    }

    /// The timestamp of the given calendar fields, if they name a moment
    /// that exists.
    pub fn new(
        year: i32,
        month: u32,
        day: u32,
        hour: u32,
        minute: u32,
        second: u32,
        millisecond: u32,
    ) -> (made: Option<Timestamp>)
        ensures
            made is Some <==> (Moment {
                year: year as int,
                month: month as int,
                day: day as int,
                hour: hour as int,
                minute: minute as int,
                second: second as int,
                millisecond: millisecond as int,
            }).valid(),
            made is Some ==> made->0@ == (Moment {
                year: year as int,
                month: month as int,
                day: day as int,
                hour: hour as int,
                minute: minute as int,
                second: second as int,
                millisecond: millisecond as int,
            }),
    {
        if year < MIN_YEAR || year > MAX_YEAR || month < 1 || month > 12 || day < 1 {
            return None;
        }
        if day > month_length(year, month) {
            return None;
        }
        if hour > 23 || minute > 59 || second > 59 || millisecond > 999 {
            return None;
        }
        Some(Timestamp { year, month, day, hour, minute, second, millisecond })
    }

    /// The local time at the moment of the call.
    ///
    /// Panics, as the clock of `chrono` does, where the system clock reads a
    /// time before 1970 or beyond the years that a timestamp can hold.
    pub fn now() -> (stamp: Timestamp)
        ensures
            stamp@.valid(),
    {
        local_now()
    }

    /// The timestamp in the layout `YYYY-MM-DD HH:MM:SS.mmm`.
    pub fn render(&self) -> (text: String)
        ensures
            text@ == self@.text(),
    {
        proof {
            use_type_invariant(self);
        }
        format_moment(self, "%Y-%m-%d %H:%M:%S%.3f")
    }
}

/// `chrono::Local::now`, taken apart into the calendar fields of the local
/// wall clock (`naive_local`, then the accessors of `Datelike` and `Timelike`)
/// and the milliseconds past the second (`timestamp_subsec_millis`).
///
/// The contract claims that the fields name a valid moment: the date is one
/// that `NaiveDate` holds, so it exists and its year is within `MIN_YEAR` and
/// `MAX_YEAR`; hour, minute and second are in the ranges that `Timelike`
/// documents; and the milliseconds stay below 1000, since `Utc::now` takes the
/// fraction of the second from `Duration::subsec_nanos`, which is less than a
/// second, and the shift to local time keeps that fraction.
#[verifier::external_body]
fn local_now() -> (stamp: Timestamp)
    ensures
        stamp@.valid(),
{
    let now = chrono::Local::now();
    let wall = now.naive_local();
    Timestamp {
        year: chrono::Datelike::year(&wall),
        month: chrono::Datelike::month(&wall),
        day: chrono::Datelike::day(&wall),
        hour: chrono::Timelike::hour(&wall),
        minute: chrono::Timelike::minute(&wall),
        second: chrono::Timelike::second(&wall),
        millisecond: now.timestamp_subsec_millis(),
    }
}

/// `NaiveDateTime::format` of `chrono` on the moment that the fields name
/// (built by `NaiveDate::from_ymd_opt` and `and_hms_milli_opt`, which accept
/// every valid moment), turned into a `String`.
///
/// The contract is stated for the one pattern that the library uses. For it
/// the formatter writes the year with `%Y` (four digits from 0 to 9999, else a
/// sign and at least four digits), month, day, hour, minute and second in two
/// digits each, and with `%.3f` a dot and the milliseconds in three digits,
/// with the pattern's own `-`, space and `:` in between.
#[verifier::external_body]
fn format_moment(stamp: &Timestamp, pattern: &str) -> (text: String)
    requires
        stamp@.valid(),
        pattern@ == timestamp_pattern(),
    ensures
        text@ == stamp@.text(),
{
    let date = chrono::NaiveDate::from_ymd_opt(stamp.year, stamp.month, stamp.day).unwrap();
    let moment =
        date.and_hms_milli_opt(stamp.hour, stamp.minute, stamp.second, stamp.millisecond).unwrap();
    moment.format(pattern).to_string()
}

} // verus!
