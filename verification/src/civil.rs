//! Calendar dates and wall-clock times as plain numbers.

use vstd::prelude::*;
use chrono::{Datelike, NaiveDate, NaiveDateTime, Timelike};
use crate::text::{digit, four_digits, two_digits};

verus! {

/// The pattern of a date and time without a zone: `YYYY-MM-DD HH:MM:SS`.
pub const CIVIL_PATTERN: &'static str = "%Y-%m-%d %H:%M:%S";

/// What is said of fields that came out of a parser and name no date.
pub const OUT_OF_RANGE: &'static str = "input is out of range";

/// The first year a [`CivilTime`] can hold.
pub const MIN_YEAR: i32 = -262_143;

/// The last year a [`CivilTime`] can hold.
pub const MAX_YEAR: i32 = 262_142;

/// Year, month, day, hour, minute, second and nanosecond, with nothing
/// checked: any seven numbers make a value.
///
/// A leap second is written as second 59 with a nanosecond count of one
/// billion or more.
#[derive(Clone, Copy, Debug, PartialEq, Eq)]
pub struct CivilFields {
    pub year: i32,
    pub month: u32,
    pub day: u32,
    pub hour: u32,
    pub minute: u32,
    pub second: u32,
    pub nanosecond: u32,
}

/// Whether `year` has a 29th of February in the proleptic Gregorian calendar.
pub open spec fn is_leap_year(year: int) -> bool {
    year % 4 == 0 && (year % 100 != 0 || year % 400 == 0)
}

/// The number of days of `month` in `year`; 0 where `month` is no month.
pub open spec fn days_in_month(year: int, month: int) -> int {
    if month == 2 {
        if is_leap_year(year) { 29 } else { 28 }
    } else if month == 4 || month == 6 || month == 9 || month == 11 {
        30
    } else if 1 <= month <= 12 {
        31
    } else {
        0
    }
}

/// Whether the fields name a day that exists and a time on the clock.
pub open spec fn valid_fields(f: CivilFields) -> bool {
    &&& MIN_YEAR <= f.year <= MAX_YEAR
    &&& 1 <= f.month <= 12
    &&& 1 <= f.day <= days_in_month(f.year as int, f.month as int)
    &&& f.hour < 24
    &&& f.minute < 60
    &&& f.second < 60
    &&& f.nanosecond < 2_000_000_000
    &&& (f.nanosecond >= 1_000_000_000 ==> f.second == 59)
}

/// A year as text: four digits from year 0 to 9999, otherwise a sign and
/// at least four digits.
pub open spec fn year_text(year: int) -> Seq<char> {
    let size = if year < 0 {
        -year
    } else {
        year
    };
    let digits = if size < 10_000 {
        four_digits(size)
    } else if size < 100_000 {
        seq![digit(size / 10_000)] + four_digits(size % 10_000)
    } else {
        two_digits(size / 10_000) + four_digits(size % 10_000)
    };
    if year < 0 {
        seq!['-'] + digits
    } else if year < 10_000 {
        digits
    } else {
        seq!['+'] + digits
    }
}

/// The seconds as the clock shows them: 60 during a leap second.
pub open spec fn shown_second(f: CivilFields) -> int {
    f.second + f.nanosecond / 1_000_000_000
}

/// Valid fields written as `YYYY-MM-DD HH:MM:SS`.
pub open spec fn civil_text(f: CivilFields) -> Seq<char> {
    year_text(f.year as int) + seq!['-'] + two_digits(f.month as int) + seq!['-'] + two_digits(
        f.day as int,
    ) + seq![' '] + two_digits(f.hour as int) + seq![':'] + two_digits(f.minute as int) + seq![
        ':',
    ] + two_digits(shown_second(f))
}

/// The fields of a date and time to the whole second.
pub open spec fn whole_second(
    year: i32,
    month: u32,
    day: u32,
    hour: u32,
    minute: u32,
    second: u32,
) -> CivilFields {
    CivilFields { year, month, day, hour, minute, second, nanosecond: 0 }
}

/// A parser's outcome with its message as a sequence of characters.
pub open spec fn parsed_view(parsed: Result<CivilFields, String>) -> Result<
    CivilFields,
    Seq<char>,
> {
    match parsed {
        Ok(f) => Ok(f),
        Err(m) => Err(m@),
    }
}

/// A checked reading with its date as fields and its message as a sequence
/// of characters.
pub open spec fn reading_view(reading: Result<CivilTime, String>) -> Result<
    CivilFields,
    Seq<char>,
> {
    match reading {
        Ok(c) => Ok(c@),
        Err(m) => Err(m@),
    }
}

/// A parser's outcome, with fields that name no date and time refused.
pub open spec fn civil_reading(parsed: Result<CivilFields, Seq<char>>) -> Result<
    CivilFields,
    Seq<char>,
> {
    match parsed {
        Ok(f) => if valid_fields(f) {
            Ok(f)
        } else {
            Err(OUT_OF_RANGE@)
        },
        Err(m) => Err(m),
    }
}

/// What `chrono` reads from `text` under `pattern`: the fields of the date
/// and time, or the words of its refusal.
pub uninterp spec fn chrono_parse(text: Seq<char>, pattern: Seq<char>) -> Result<
    CivilFields,
    Seq<char>,
>;

/// `chrono::NaiveDateTime::format`, then `to_string`, on the date and time
/// that `chrono` builds from the fields. Trusted: under [`CIVIL_PATTERN`]
/// the year comes out in four digits (with a sign and more digits outside
/// 0..=9999), each other field in two, and the seconds of a leap second as
/// 60.
#[verifier::external_body]
fn format_fields(f: &CivilFields, pattern: &str) -> (r: String)
    requires
        valid_fields(*f),
        pattern@ == CIVIL_PATTERN@,
    ensures
        r@ == civil_text(*f),
{
    let date = NaiveDate::from_ymd_opt(f.year, f.month, f.day).unwrap();
    let naive = date.and_hms_nano_opt(f.hour, f.minute, f.second, f.nanosecond).unwrap();
    naive.format(pattern).to_string()
}

/// `chrono::NaiveDateTime::parse_from_str`. Trusted: the outcome depends on
/// the text and the pattern alone; it is handed on field by field, or as the
/// parser's own message.
#[verifier::external_body]
fn parse_fields(text: &str, pattern: &str) -> (r: Result<CivilFields, String>)
    ensures
        parsed_view(r) == chrono_parse(text@, pattern@),
{
    match NaiveDateTime::parse_from_str(text, pattern) {
        Ok(t) => Ok(CivilFields {
            year: t.year(),
            month: t.month(),
            day: t.day(),
            hour: t.hour(),
            minute: t.minute(),
            second: t.second(),
            nanosecond: t.nanosecond(),
        }),
        Err(e) => Err(e.to_string()),
    }
}

/// Whether `year` is a leap year.
pub fn leap_year(year: i32) -> (r: bool)
    ensures
        r == is_leap_year(year as int),
{
    year % 4 == 0 && (year % 100 != 0 || year % 400 == 0)
}

/// The length of `month` in `year`, 0 for a month that does not exist.
pub fn month_length(year: i32, month: u32) -> (r: u32)
    ensures
        r == days_in_month(year as int, month as int),
{
    if month == 2 {
        if leap_year(year) { 29 } else { 28 }
    } else if month == 4 || month == 6 || month == 9 || month == 11 {
        30
    } else if 1 <= month && month <= 12 {
        31
    } else {
        0
    }
}

/// The executable form of [`valid_fields`].
pub fn fields_are_valid(f: &CivilFields) -> (r: bool)
    ensures
        r == valid_fields(*f),
{
    MIN_YEAR <= f.year && f.year <= MAX_YEAR
        && 1 <= f.month && f.month <= 12
        && 1 <= f.day && f.day <= month_length(f.year, f.month)
        && f.hour < 24 && f.minute < 60 && f.second < 60
        && f.nanosecond < 2_000_000_000
        && (f.nanosecond < 1_000_000_000 || f.second == 59)
}

/// A date and time of day that exist: [`CivilFields`] that passed the check.
#[derive(Clone, Copy, Debug, PartialEq, Eq)]
pub struct CivilTime {
    fields: CivilFields,
}

impl View for CivilTime {
    type V = CivilFields;

    closed spec fn view(&self) -> CivilFields {
        self.fields
    }
}

impl CivilTime {
    #[verifier::type_invariant]
    spec fn well_formed(self) -> bool {
        valid_fields(self.fields)
    }

    /// Checks the fields and keeps them if they name a real date and time.
    pub fn from_fields(fields: CivilFields) -> (r: Option<CivilTime>)
        ensures
            r is Some <==> valid_fields(fields),
            r matches Some(c) ==> c@ == fields,
    {
        if fields_are_valid(&fields) {
            Some(CivilTime { fields })
        } else {
            None
        }
    }

    /// The given date and time, to the whole second, if they exist.
    pub fn new(year: i32, month: u32, day: u32, hour: u32, minute: u32, second: u32) -> (r: Option<
        CivilTime,
    >)
        ensures
            r is Some <==> valid_fields(whole_second(year, month, day, hour, minute, second)),
            r matches Some(c) ==> c@ == whole_second(year, month, day, hour, minute, second),
    {
        CivilTime::from_fields(
            CivilFields { year, month, day, hour, minute, second, nanosecond: 0 },
        )
    }

    /// This date and time as `YYYY-MM-DD HH:MM:SS`.
    pub fn text(&self) -> (r: String)
        ensures
            r@ == civil_text(self@),
    {
        proof {
            use_type_invariant(self);
        }
        format_fields(&self.fields, CIVIL_PATTERN)
    }

    /// Reads a date and time written as `YYYY-MM-DD HH:MM:SS`. On failure
    /// the parser's own message comes back.
    pub fn parse(text: &str) -> (r: Result<CivilTime, String>)
        ensures
            reading_view(r) == civil_reading(chrono_parse(text@, CIVIL_PATTERN@)),
    {
        CivilTime::from_parsed(parse_fields(text, CIVIL_PATTERN))
    }

    /// What a parser's outcome amounts to: its fields where they are valid,
    /// its message where it gave one, and [`OUT_OF_RANGE`] for fields that
    /// name no date and time.
    pub fn from_parsed(parsed: Result<CivilFields, String>) -> (r: Result<CivilTime, String>)
        ensures
            reading_view(r) == civil_reading(parsed_view(parsed)),
    {
        match parsed {
            Ok(fields) => match CivilTime::from_fields(fields) {
                Some(c) => Ok(c),
                None => Err(String::from_str(OUT_OF_RANGE)),
            },
            Err(message) => Err(message),
        }
    }

    /// The fields, which are valid.
    pub fn fields(&self) -> (r: CivilFields)
        ensures
            r == self@,
            valid_fields(r),
    {
        proof {
            use_type_invariant(self);
        }
        self.fields
    }
}

} // verus!
