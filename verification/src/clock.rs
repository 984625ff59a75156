//! Wall-clock time as plain numbers, and the text that stamps a stored post.
//!
//! The local clock is read, and a time is rendered, by `chrono`; this module
//! states what both hand back and proves the shape of the stamp.

use chrono::{Datelike, Timelike};
use vstd::prelude::*;

verus! {

/// The earliest year that `chrono` can hold in a date.
pub const MIN_YEAR: i32 = -262143;

/// The latest year that `chrono` can hold in a date.
pub const MAX_YEAR: i32 = 262142;

/// Whether `year` of the proleptic Gregorian calendar has a 29th of February.
pub open spec fn is_leap_year(year: int) -> bool {
    year % 4 == 0 && (year % 100 != 0 || year % 400 == 0)
}

/// The number of days of `month` (1 to 12) in `year`.
pub open spec fn days_in_month(year: int, month: int) -> int {
    if month == 2 {
        if is_leap_year(year) {
            29
        } else {
            28
        }
    } else if month == 4 || month == 6 || month == 9 || month == 11 {
        30
    } else {
        31
    }
}

/// The mathematical value of a [`WallTime`].
pub struct WallTimeView {
    pub year: int,
    pub month: int,
    pub day: int,
    pub hour: int,
    pub minute: int,
    pub second: int,
}

impl WallTimeView {
    /// A day that exists in the calendar, within the years `chrono` holds, and
    /// a time of day without a leap second.
    pub open spec fn valid(self) -> bool {
        &&& MIN_YEAR <= self.year <= MAX_YEAR
        &&& 1 <= self.month <= 12
        &&& 1 <= self.day <= days_in_month(self.year, self.month)
        &&& 0 <= self.hour < 24
        &&& 0 <= self.minute < 60
        &&& 0 <= self.second < 60
    }
}

/// The time of the given numbers.
pub open spec fn time_of(year: int, month: int, day: int, hour: int, minute: int, second: int) ->
    WallTimeView {
    WallTimeView { year, month, day, hour, minute, second }
}

/// The character that writes the digit `d` (0 to 9).
pub open spec fn digit_char(d: int) -> char {
    if d == 0 {
        '0'
    } else if d == 1 {
        '1'
    } else if d == 2 {
        '2'
    } else if d == 3 {
        '3'
    } else if d == 4 {
        '4'
    } else if d == 5 {
        '5'
    } else if d == 6 {
        '6'
    } else if d == 7 {
        '7'
    } else if d == 8 {
        '8'
    } else {
        '9'
    }
}

/// Whether `c` is one of the ten decimal digits.
pub open spec fn is_digit(c: char) -> bool {
    c == '0' || c == '1' || c == '2' || c == '3' || c == '4' || c == '5' || c == '6' || c == '7'
        || c == '8' || c == '9'
}

/// The decimal digits of `n` (not negative), with zeros in front until there
/// are at least `width` of them.
pub open spec fn decimal_text(n: int, width: int) -> Seq<char>
    decreases (if n > 0 { n } else { 0 }) + (if width > 0 { width } else { 0 }),
{
    if n < 10 && width <= 1 {
        seq![digit_char(n)]
    } else {
        decimal_text(n / 10, width - 1).push(digit_char(n % 10))
    }
}

/// A year as a stamp shows it: four digits from 0 to 9999, else a sign and
/// at least four digits.
pub open spec fn year_text(year: int) -> Seq<char> {
    if 0 <= year <= 9999 {
        decimal_text(year, 4)
    } else if year < 0 {
        seq!['-'] + decimal_text(-year, 4)
    } else {
        seq!['+'] + decimal_text(year, 4)
    }
}

/// The stamp of a time: year, month, day, hour, minute and second, each
/// padded with zeros and parted by colons.
pub open spec fn soleilfou_text(t: WallTimeView) -> Seq<char> {
    year_text(t.year) + seq![':'] + decimal_text(t.month, 2) + seq![':'] + decimal_text(t.day, 2)
        + seq![':'] + decimal_text(t.hour, 2) + seq![':'] + decimal_text(t.minute, 2) + seq![':']
        + decimal_text(t.second, 2)
}

/// The shape `NNNN:NN:NN:NN:NN:NN`: nineteen characters, colons at the five
/// joints and decimal digits everywhere else.
pub open spec fn is_soleilfou_shape(s: Seq<char>) -> bool {
    &&& s.len() == 19
    &&& forall|i: int|
        0 <= i < 19 ==> if i == 4 || i == 7 || i == 10 || i == 13 || i == 16 {
            s[i] == ':'
        } else {
            is_digit(#[trigger] s[i])
        }
}

/// A date and time of day read off a wall clock, to the second.
///
/// Every value is a day that exists and a time without a leap second.
#[derive(Clone, Copy, Debug, PartialEq, Eq)]
pub struct WallTime {
    year: i32,
    month: u32,
    day: u32,
    hour: u32,
    minute: u32,
    second: u32,
}

impl View for WallTime {
    type V = WallTimeView;

    closed spec fn view(&self) -> WallTimeView {
        WallTimeView {
            year: self.year as int,
            month: self.month as int,
            day: self.day as int,
            hour: self.hour as int,
            minute: self.minute as int,
            second: self.second as int,
        }
    }
}

/// Decides whether `year` is a leap year.
fn leap_year(year: i32) -> (leap: bool)
    requires
        MIN_YEAR <= year <= MAX_YEAR,
    ensures
        leap == is_leap_year(year as int),
{
    // 262400 is a multiple of 400, so the shifted year leaves the same
    // remainders and is never negative.
    let shifted: i32 = year + 262400;
    shifted % 4 == 0 && (shifted % 100 != 0 || shifted % 400 == 0)
}

/// Computes the number of days of `month` in `year`.
fn month_length(year: i32, month: u32) -> (days: u32)
    requires
        MIN_YEAR <= year <= MAX_YEAR,
        1 <= month <= 12,
    ensures
        days == days_in_month(year as int, month as int),
{
    if month == 2 {
        if leap_year(year) {
            29
        } else {
            28
        }
    } else if month == 4 || month == 6 || month == 9 || month == 11 {
        30
    } else {
        31
    }
}

impl WallTime {
    #[verifier::type_invariant]
    spec fn well_formed(self) -> bool {
        self@.valid()
    }

    /// Makes a time from its six numbers, or `None` where they name no
    /// moment: a day that the month lacks, an hour past 23, a year out of
    /// range.
    pub fn new(year: i32, month: u32, day: u32, hour: u32, minute: u32, second: u32) -> (made:
        Option<WallTime>)
        ensures
            made is Some <==> time_of(
                year as int,
                month as int,
                day as int,
                hour as int,
                minute as int,
                second as int,
            ).valid(),
            made matches Some(time) ==> time@ == time_of(
                year as int,
                month as int,
                day as int,
                hour as int,
                minute as int,
                second as int,
            ),
    {
        if year < MIN_YEAR || year > MAX_YEAR || month < 1 || month > 12 {
            return None;
        }
        if day < 1 || day > month_length(year, month) {
            return None;
        }
        if hour >= 24 || minute >= 60 || second >= 60 {
            return None;
        }
        Some(WallTime { year, month, day, hour, minute, second })
    }

    /// The year.
    pub fn year(&self) -> (year: i32)
        ensures
            year == self@.year,
    {
        self.year
    }

    /// The month, from 1 to 12.
    pub fn month(&self) -> (month: u32)
        ensures
            month == self@.month,
    {
        self.month
    }

    /// The day of the month, from 1.
    pub fn day(&self) -> (day: u32)
        ensures
            day == self@.day,
    {
        self.day
    }

    /// The hour, from 0 to 23.
    pub fn hour(&self) -> (hour: u32)
        ensures
            hour == self@.hour,
    {
        self.hour
    }

    /// The minute, from 0 to 59.
    pub fn minute(&self) -> (minute: u32)
        ensures
            minute == self@.minute,
    {
        self.minute
    }

    /// The second, from 0 to 59.
    pub fn second(&self) -> (second: u32)
        ensures
            second == self@.second,
    {
        self.second
    }

    /// The stamp of this time. Between the years 0 and 9999 it has the shape
    /// `NNNN:NN:NN:NN:NN:NN`.
    pub fn soleilfou(&self) -> (stamp: String)
        ensures
            self@.valid(),
            stamp@ == soleilfou_text(self@),
            0 <= self@.year <= 9999 ==> is_soleilfou_shape(stamp@),
    {
        proof {
            use_type_invariant(self);
            if 0 <= self@.year <= 9999 {
                lemma_stamp_shape(self@);
            }
        }
        time_to_soleilfou(self)
    }
}

/// Reads the local wall clock through `chrono::Local::now` and hands its
/// local date and time over, field by field and without the fraction of a
/// second.
///
/// Trusted: `chrono` builds the moment from the system clock's seconds since
/// 1970, so it is a day of the calendar within `chrono`'s years and carries
/// no leap second. `chrono` panics where the system clock stands before 1970
/// or beyond the years it can hold.
#[verifier::external_body]
pub(crate) fn local_now() -> (now: WallTime)
    ensures
        now@.valid(),
{
    let now = chrono::Local::now().naive_local();
    WallTime {
        year: now.year(),
        month: now.month(),
        day: now.day(),
        hour: now.hour(),
        minute: now.minute(),
        second: now.second(),
    }
}

/// Renders a time through `chrono`'s `format` with the pattern
/// `%Y:%m:%d:%H:%M:%S`.
///
/// Trusted: `%Y` writes the year with zeros up to four digits, and with a
/// sign in front where it lies outside 0 to 9999; `%m`, `%d`, `%H`, `%M` and
/// `%S` each write two digits; the colons are copied. A time that is not
/// valid has no date in `chrono`, and is left out.
#[verifier::external_body]
pub(crate) fn time_to_soleilfou(time: &WallTime) -> (stamp: String)
    requires
        time@.valid(),
    ensures
        stamp@ == soleilfou_text(time@),
{
    chrono::NaiveDate::from_ymd_opt(time.year, time.month, time.day)
        .and_then(|date| date.and_hms_opt(time.hour, time.minute, time.second))
        .expect("a valid time")
        .format("%Y:%m:%d:%H:%M:%S")
        .to_string()
}

/// Between the years 0 and 9999 every stamp has the shape
/// `NNNN:NN:NN:NN:NN:NN`.
pub proof fn lemma_stamp_shape(t: WallTimeView)
    requires
        t.valid(),
        0 <= t.year <= 9999,
    ensures
        is_soleilfou_shape(soleilfou_text(t)),
{
    reveal_with_fuel(decimal_text, 5);
}

} // verus!
