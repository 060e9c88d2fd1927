//! The date and time fields: the local wall-clock time, read once per
//! status line, shown as `DD.MM.YY` and `HH:MM:SS`.

use vstd::prelude::*;
use chrono::{Datelike, Timelike};
use crate::text::{is_digit, push_char, push_two_digits, two_digits, two_digits_are_digits};

verus! {

/// One reading of the local wall clock, as calendar and clock fields.
#[derive(Clone, Copy, Debug, PartialEq, Eq)]
pub struct ClockReading {
    /// The calendar year; years before the year 1 are zero or negative.
    pub year: i32,
    /// The month of the year, from 1.
    pub month: u32,
    /// The day of the month, from 1.
    pub day: u32,
    /// The hour of the day, from 0.
    pub hour: u32,
    /// The minute of the hour, from 0.
    pub minute: u32,
    /// The second of the minute, from 0.
    pub second: u32,
}

/// The date field: day, month and the year's last two digits, each written
/// with two digits, with dots between them.
pub open spec fn date_text(day: int, month: int, year: int) -> Seq<char> {
    two_digits(day) + seq!['.'] + two_digits(month) + seq!['.'] + two_digits(year % 100)
}

/// The time field: hour, minute and second, each written with two digits,
/// with colons between them.
pub open spec fn time_text(hour: int, minute: int, second: int) -> Seq<char> {
    two_digits(hour) + seq![':'] + two_digits(minute) + seq![':'] + two_digits(second)
}

impl ClockReading {
    /// Every field lies in the range that a calendar and a clock give it.
    pub open spec fn wf(&self) -> bool {
        &&& 1 <= self.month <= 12
        &&& 1 <= self.day <= 31
        &&& self.hour <= 23
        &&& self.minute <= 59
        &&& self.second <= 59
    }

    /// The date field of this reading.
    pub open spec fn date(&self) -> Seq<char> {
        date_text(self.day as int, self.month as int, self.year as int)
    }

    /// The time field of this reading.
    pub open spec fn time(&self) -> Seq<char> {
        time_text(self.hour as int, self.minute as int, self.second as int)
    }

    /// A reading from its fields, where each lies in its range.
    pub fn new(year: i32, month: u32, day: u32, hour: u32, minute: u32, second: u32) -> (r: Option<
        ClockReading,
    >)
        ensures
            r is Some <==> (ClockReading { year, month, day, hour, minute, second }).wf(),
            r is Some ==> r->0 == (ClockReading { year, month, day, hour, minute, second }),
    {
        if 1 <= month && month <= 12 && 1 <= day && day <= 31 && hour <= 23 && minute <= 59
            && second <= 59 {
            Some(ClockReading { year, month, day, hour, minute, second })
        } else {
            None
        }
    }

    /// The last two digits of the year: the year modulo 100, which is never
    /// negative.
    pub fn year_in_century(&self) -> (r: u8)
        ensures
            r == self.year as int % 100,
            r <= 99,
    {
        let shifted: i64 = self.year as i64 + 2_147_483_700i64;
        assert((self.year as int + 2_147_483_700) % 100 == self.year as int % 100)
            by (nonlinear_arith);
        (shifted % 100) as u8
    }

    /// Renders the date as `DD.MM.YY`.
    pub fn format_date(&self) -> (r: String)
        requires
            self.wf(),
        ensures
            r@ == self.date(),
    {
        let mut out = String::new();
        push_two_digits(&mut out, self.day as u8);
        push_char(&mut out, '.');
        push_two_digits(&mut out, self.month as u8);
        push_char(&mut out, '.');
        push_two_digits(&mut out, self.year_in_century());
        assert(out@ =~= self.date());
        out
    }

    /// Renders the time as `HH:MM:SS`.
    pub fn format_time(&self) -> (r: String)
        requires
            self.wf(),
        ensures
            r@ == self.time(),
    {
        let mut out = String::new();
        push_two_digits(&mut out, self.hour as u8);
        push_char(&mut out, ':');
        push_two_digits(&mut out, self.minute as u8);
        push_char(&mut out, ':');
        push_two_digits(&mut out, self.second as u8);
        assert(out@ =~= self.time());
        out
    }
}

/// `chrono::Local::now`, with the fields that `Datelike` and `Timelike`
/// read from it: `year`, `month` (1 to 12), `day` (1 to 31), `hour` (0 to
/// 23), `minute` (0 to 59) and `second` (0 to 59). The contract claims those
/// ranges and nothing of the values, which change from call to call. The
/// call stops the program where the system clock stands before 1970.
#[verifier::external_body]
pub(crate) fn read_local_clock() -> (r: ClockReading)
    ensures
        r.wf(),
{
    let now = chrono::Local::now();
    ClockReading {
        year: now.year(),
        month: now.month(),
        day: now.day(),
        hour: now.hour(),
        minute: now.minute(),
        second: now.second(),
    }
}

/// Both fields have eight characters: the separators at the third and the
/// sixth place, a decimal digit at each of the others.
pub proof fn date_and_time_shape(c: ClockReading)
    requires
        c.wf(),
    ensures
        c.date().len() == 8,
        c.time().len() == 8,
        forall|i: int|
            0 <= i < 8 ==> if i == 2 || i == 5 {
                c.date()[i] == '.' && c.time()[i] == ':'
            } else {
                is_digit(c.date()[i]) && is_digit(c.time()[i])
            },
{
    two_digits_are_digits(c.day as int);
    two_digits_are_digits(c.month as int);
    two_digits_are_digits(c.year as int % 100);
    two_digits_are_digits(c.hour as int);
    two_digits_are_digits(c.minute as int);
    two_digits_are_digits(c.second as int);
}

} // verus!
