//! Points in time of log records, their display under the session's date
//! format, and the elapsed-time column.

use crate::text::{
    decimal, digit, digit_char, format_decimal, prefix, repeat, spaces, take_chars,
};
use vstd::prelude::*;

verus! {

/// `time::ParseError`: why a time cannot be formatted.
#[verifier::external_type_specification]
#[verifier::external_body]
pub struct ExParseError(time::ParseError);

/// The number of nanoseconds in a second.
pub const NANOS_PER_SECOND: i32 = 1_000_000_000;

/// The first year, counted from 1900, of a calendar date: the year 1601.
pub const FIRST_YEAR: i32 = -299;

/// The last year, counted from 1900, of a calendar date: the year 9999.
pub const LAST_YEAR: i32 = 8099;

/// A point in time as a broken-down time in UTC.
///
/// The fields are taken as they come and need not name a day of the
/// calendar. A time of the thirteenth month has no display, and no time is
/// counted from or up to a timestamp that is no calendar date.
#[derive(Clone, Copy, Debug, PartialEq, Eq)]
pub struct Timestamp {
    /// Years since 1900.
    pub year: i32,
    /// Months since January.
    pub month: i32,
    /// Day of the month, from 1.
    pub day: i32,
    /// Hours since midnight.
    pub hour: i32,
    /// Minutes after the hour.
    pub minute: i32,
    /// Seconds after the minute.
    pub second: i32,
    /// Nanoseconds after the second.
    pub nanosecond: i32,
}

/// Whether a year of the Gregorian calendar has 366 days.
pub open spec fn is_leap_year(year: int) -> bool {
    year % 4 == 0 && (year % 100 != 0 || year % 400 == 0)
}

/// The number of days of a month, counted from January as 0, in a year of the
/// Gregorian calendar.
pub open spec fn days_in_month(year: int, month: int) -> int {
    if month == 1 {
        if is_leap_year(year) {
            29
        } else {
            28
        }
    } else if month == 3 || month == 5 || month == 8 || month == 10 {
        30
    } else {
        31
    }
}

impl Timestamp {
    /// Whether the timestamp names a moment of a day of the calendar, in a
    /// year from 1601 to 9999.
    pub open spec fn is_calendar(self) -> bool {
        &&& FIRST_YEAR <= self.year <= LAST_YEAR
        &&& 0 <= self.month <= 11
        &&& 1 <= self.day <= days_in_month(self.year + 1900, self.month as int)
        &&& 0 <= self.hour <= 23
        &&& 0 <= self.minute <= 59
        &&& 0 <= self.second <= 59
        &&& 0 <= self.nanosecond < NANOS_PER_SECOND
    }

    /// A timestamp of the given fields: `year` counts from 1900 and `month`
    /// from January as 0.
    pub fn new(
        year: i32,
        month: i32,
        day: i32,
        hour: i32,
        minute: i32,
        second: i32,
        nanosecond: i32,
    ) -> (at: Timestamp)
        ensures
            at == (Timestamp { year, month, day, hour, minute, second, nanosecond }),
    {
        Timestamp { year, month, day, hour, minute, second, nanosecond }
    }

    /// Whether the timestamp names a moment of a day of the calendar.
    pub fn in_calendar(&self) -> (ok: bool)
        ensures
            ok == self.is_calendar(),
    {
        if self.year < FIRST_YEAR || self.year > LAST_YEAR {
            return false;
        }
        if self.month < 0 || self.month > 11 {
            return false;
        }
        let year = self.year + 1900;
        let leap = year % 4 == 0 && (year % 100 != 0 || year % 400 == 0);
        let days: i32 = if self.month == 1 {
            if leap {
                29
            } else {
                28
            }
        } else if self.month == 3 || self.month == 5 || self.month == 8 || self.month == 10 {
            30
        } else {
            31
        };
        1 <= self.day && self.day <= days && 0 <= self.hour && self.hour <= 23 && 0 <= self.minute
            && self.minute <= 59 && 0 <= self.second && self.second <= 59 && 0 <= self.nanosecond
            && self.nanosecond < NANOS_PER_SECOND
    }
}

/// What `time::strftime` writes for a pattern at a point in time, or `None`
/// where it gives an error.
pub uninterp spec fn formatted(pattern: Seq<char>, at: Timestamp) -> Option<Seq<char>>;

/// The milliseconds from `earlier` to `later`, two calendar dates, as the
/// `time` crate counts them; negative where `later` is the earlier one.
pub uninterp spec fn millis_between(later: Timestamp, earlier: Timestamp) -> int;

/// Whether `pattern` is the pattern of one of the date formats.
pub open spec fn is_date_pattern(pattern: Seq<char>) -> bool {
    ||| pattern == DateFormat::DateTime.pattern_text()
    ||| pattern == DateFormat::Date.pattern_text()
    ||| pattern == DateFormat::Time.pattern_text()
    ||| pattern == DateFormat::Hidden.pattern_text()
}

/// `time::strftime` on the broken-down UTC time `at`: week day, year day,
/// daylight-saving flag and UTC offset are zero. The patterns of the date
/// formats write month, day, hour, minute, second and nanosecond as numbers,
/// which no field value keeps them from. Whether the call gives a text or an
/// error, and which text, depends on the pattern and the fields alone; it
/// gives an error for a month that is none of the twelve.
#[verifier::external_body]
fn strftime(pattern: &str, at: &Timestamp) -> (text: Result<String, time::ParseError>)
    requires
        is_date_pattern(pattern@),
    ensures
        match text {
            Ok(t) => formatted(pattern@, *at) == Some(t@),
            Err(_) => formatted(pattern@, *at) is None,
        },
{
    let tm = time::Tm {
        tm_sec: at.second, tm_min: at.minute, tm_hour: at.hour, tm_mday: at.day,
        tm_mon: at.month, tm_year: at.year, tm_wday: 0, tm_yday: 0, tm_isdst: 0,
        tm_utcoff: 0, tm_nsec: at.nanosecond,
    };
    time::strftime(pattern, &tm)
}

/// The difference of two `time::Tm` in whole milliseconds
/// (`time::Duration::num_milliseconds`), both taken as broken-down UTC times:
/// week day, year day, daylight-saving flag and UTC offset are zero. The
/// `time` crate turns each into seconds since 1970 by the means of its
/// target, all of which count the days of the Gregorian calendar for a
/// calendar date; between the years 1601 and 9999 the difference fits a
/// `time::Duration`.
#[verifier::external_body]
fn millis_since(later: &Timestamp, earlier: &Timestamp) -> (millis: i64)
    requires
        later.is_calendar(),
        earlier.is_calendar(),
    ensures
        millis == millis_between(*later, *earlier),
{
    let a = time::Tm {
        tm_sec: later.second, tm_min: later.minute, tm_hour: later.hour, tm_mday: later.day,
        tm_mon: later.month, tm_year: later.year, tm_wday: 0, tm_yday: 0, tm_isdst: 0,
        tm_utcoff: 0, tm_nsec: later.nanosecond,
    };
    let b = time::Tm {
        tm_sec: earlier.second, tm_min: earlier.minute, tm_hour: earlier.hour,
        tm_mday: earlier.day, tm_mon: earlier.month, tm_year: earlier.year, tm_wday: 0,
        tm_yday: 0, tm_isdst: 0, tm_utcoff: 0, tm_nsec: earlier.nanosecond,
    };
    (a - b).num_milliseconds()
}

/// How the time of a record is displayed.
#[derive(Clone, Copy, Debug, PartialEq, Eq, Structural)]
pub enum DateFormat {
    /// Month and day, then the time of day with its fraction.
    DateTime,
    /// Month and day.
    Date,
    /// The time of day with its fraction.
    Time,
    /// Nothing.
    Hidden,
}

impl DateFormat {
    /// The format that shows the date if `show_date` and the time of day
    /// unless `hide_timestamp`.
    pub open spec fn selected(show_date: bool, hide_timestamp: bool) -> DateFormat {
        if show_date {
            if hide_timestamp {
                DateFormat::Date
            } else {
                DateFormat::DateTime
            }
        } else if hide_timestamp {
            DateFormat::Hidden
        } else {
            DateFormat::Time
        }
    }

    /// The pattern handed to the formatter.
    pub open spec fn pattern_text(self) -> Seq<char> {
        match self {
            DateFormat::DateTime => "%m-%d %H:%M:%S.%f"@,
            DateFormat::Date => "%m-%d"@,
            DateFormat::Time => "%H:%M:%S.%f"@,
            DateFormat::Hidden => ""@,
        }
    }

    /// The number of characters of the displayed time.
    pub open spec fn columns(self) -> nat {
        match self {
            DateFormat::DateTime => 18,
            DateFormat::Date => 5,
            DateFormat::Time => 12,
            DateFormat::Hidden => 0,
        }
    }

    /// The format that shows the date if `show_date` and the time of day
    /// unless `hide_timestamp`.
    pub fn select(show_date: bool, hide_timestamp: bool) -> (format: DateFormat)
        ensures
            format == DateFormat::selected(show_date, hide_timestamp),
    {
        if show_date {
            if hide_timestamp {
                DateFormat::Date
            } else {
                DateFormat::DateTime
            }
        } else if hide_timestamp {
            DateFormat::Hidden
        } else {
            DateFormat::Time
        }
    }

    /// The pattern handed to the formatter.
    pub fn pattern(&self) -> (pattern: &'static str)
        ensures
            pattern@ == self.pattern_text(),
    {
        match self {
            DateFormat::DateTime => "%m-%d %H:%M:%S.%f",
            DateFormat::Date => "%m-%d",
            DateFormat::Time => "%H:%M:%S.%f",
            DateFormat::Hidden => "",
        }
    }

    /// The number of characters of the displayed time.
    pub fn width(&self) -> (width: usize)
        ensures
            width == self.columns(),
    {
        match self {
            DateFormat::DateTime => 18,
            DateFormat::Date => 5,
            DateFormat::Time => 12,
            DateFormat::Hidden => 0,
        }
    }
}

/// What is displayed of the text that the formatter wrote: its first `width`
/// characters, or `width` blanks where the formatter failed.
pub open spec fn fitted(written: Option<Seq<char>>, width: nat) -> Seq<char> {
    match written {
        Some(text) => prefix(text, width),
        None => spaces(width),
    }
}

/// The displayed time of a record: what the formatter writes for the
/// format's pattern, cut to the format's width, or that many blanks where the
/// formatter fails.
pub open spec fn timestamp_text(format: DateFormat, at: Timestamp) -> Seq<char> {
    fitted(formatted(format.pattern_text(), at), format.columns())
}

/// What stands in the elapsed-time column when the time needs more room than
/// the column has.
pub open spec fn diff_placeholder() -> Seq<char> {
    seq!['-', '.', '-', '-', '-']
}

/// A number below one thousand in three digits.
pub open spec fn three_digits(n: nat) -> Seq<char> {
    seq![digit(n / 100), digit(n / 10 % 10), digit(n % 10)]
}

/// An elapsed time as seconds, a point, and the milliseconds in three digits.
pub open spec fn elapsed_text(millis: nat) -> Seq<char> {
    decimal(millis / 1000) + seq!['.'] + three_digits(millis % 1000)
}

/// The elapsed-time column for a time of `millis` milliseconds: the time
/// itself where it fits in `width` characters, else the placeholder.
pub open spec fn diff_text(millis: nat, width: nat) -> Seq<char> {
    if elapsed_text(millis).len() <= width {
        elapsed_text(millis)
    } else {
        diff_placeholder()
    }
}

/// The magnitude of a number.
pub open spec fn magnitude(n: int) -> nat {
    if n < 0 {
        (-n) as nat
    } else {
        n as nat
    }
}

/// The time between two timestamps in milliseconds, whichever is the later.
/// There is none where one of them is no calendar date.
pub open spec fn elapsed(later: Timestamp, earlier: Timestamp) -> Option<nat> {
    if later.is_calendar() && earlier.is_calendar() {
        Some(magnitude(millis_between(later, earlier)))
    } else {
        None
    }
}

/// What is displayed of the text that the formatter wrote, `None` standing
/// for its failure.
pub fn fit(written: Option<&str>, width: usize) -> (text: String)
    ensures
        text@ == fitted(
            match written {
                Some(w) => Some(w@),
                None => None,
            },
            width as nat,
        ),
{
    match written {
        Some(written) => take_chars(written, width),
        None => repeat(' ', width),
    }
}

/// The displayed time of a record under `format`.
pub fn format_timestamp(format: DateFormat, at: &Timestamp) -> (text: String)
    ensures
        text@ == timestamp_text(format, *at),
{
    match strftime(format.pattern(), at) {
        Ok(written) => fit(Some(written.as_str()), format.width()),
        Err(_) => fit(None, format.width()),
    }
}

/// A number of milliseconds without its sign.
pub fn absolute(millis: i64) -> (size: u64)
    ensures
        size == magnitude(millis as int),
{
    if millis >= 0 {
        millis as u64
    } else {
        (-(millis + 1)) as u64 + 1
    }
}

/// The time between two timestamps in milliseconds, whichever is the later,
/// and `None` where one of them is no calendar date.
pub fn elapsed_millis(later: &Timestamp, earlier: &Timestamp) -> (millis: Option<u64>)
    ensures
        match millis {
            Some(m) => elapsed(*later, *earlier) == Some(m as nat),
            None => elapsed(*later, *earlier) is None,
        },
{
    if later.in_calendar() && earlier.in_calendar() {
        Some(absolute(millis_since(later, earlier)))
    } else {
        None
    }
}

/// The elapsed-time column for a time of `millis` milliseconds.
pub fn format_diff(millis: u64, width: usize) -> (text: String)
    ensures
        text@ == diff_text(millis as nat, width as nat),
{
    let mut text = format_decimal(millis / 1000);
    let rest = millis % 1000;
    text.push('.');
    text.push(digit_char(rest / 100));
    text.push(digit_char(rest / 10 % 10));
    text.push(digit_char(rest % 10));
    proof {
        assert(text@ == elapsed_text(millis as nat));
    }
    if text.as_str().unicode_len() <= width {
        text
    } else {
        let mut placeholder = String::new();
        placeholder.push('-');
        placeholder.push('.');
        placeholder.push('-');
        placeholder.push('-');
        placeholder.push('-');
        placeholder
    }
}

} // verus!
