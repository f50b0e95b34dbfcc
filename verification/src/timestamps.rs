//! The four kinds of timestamp and the one way each is written.

use vstd::prelude::*;
use crate::civil::{
    chrono_parse, civil_reading, civil_text, reading_view, shown_second, valid_fields, year_text,
    CivilFields, CivilTime, CIVIL_PATTERN,
};
use crate::errors::{TimezError, TimezErrorView};
use crate::offset::{colon_offset_text, compact_offset_text, UtcOffset};
use crate::text::{digit, two_digits};

verus! {

/// A moment as a clock shows it, with what is known of the zone it is
/// shown in.
#[derive(Clone, Debug, PartialEq, Eq)]
pub enum Timestamp {
    /// The time in UTC.
    Utc(CivilTime),
    /// The time where the process runs, with the offset in force there.
    Local { at: CivilTime, offset: UtcOffset },
    /// A time of which no zone or offset is known.
    Naive(CivilTime),
    /// The time in a named zone: the wall-clock reading, the offset in force
    /// at that reading and, where the zone database has one for it, the
    /// abbreviation.
    Zoned { at: CivilTime, offset: UtcOffset, abbreviation: Option<String> },
}

/// A [`Timestamp`] as plain values.
pub enum TimestampView {
    Utc(CivilFields),
    Local { at: CivilFields, offset: int },
    Naive(CivilFields),
    Zoned { at: CivilFields, offset: int, abbreviation: Option<Seq<char>> },
}

impl View for Timestamp {
    type V = TimestampView;

    open spec fn view(&self) -> TimestampView {
        match *self {
            Timestamp::Utc(at) => TimestampView::Utc(at@),
            Timestamp::Local { at, offset } => TimestampView::Local { at: at@, offset: offset@ },
            Timestamp::Naive(at) => TimestampView::Naive(at@),
            Timestamp::Zoned { at, offset, abbreviation } => TimestampView::Zoned {
                at: at@,
                offset: offset@,
                abbreviation: match abbreviation {
                    Some(a) => Some(a@),
                    None => None,
                },
            },
        }
    }
}

/// What follows the time of a zoned timestamp: the abbreviation, or, for a
/// zone that has none, the offset as `+HHMM`.
pub open spec fn zone_label(offset: int, abbreviation: Option<Seq<char>>) -> Seq<char> {
    match abbreviation {
        Some(a) => a,
        None => compact_offset_text(offset),
    }
}

/// A timestamp written out: the date and time, then, where a zone is known,
/// a space and the zone's label.
pub open spec fn timestamp_text(t: TimestampView) -> Seq<char> {
    match t {
        TimestampView::Utc(at) => civil_text(at) + seq![' ', 'U', 'T', 'C'],
        TimestampView::Local { at, offset } => civil_text(at) + seq![' '] + colon_offset_text(
            offset,
        ),
        TimestampView::Naive(at) => civil_text(at),
        TimestampView::Zoned { at, offset, abbreviation } => civil_text(at) + seq![' ']
            + zone_label(offset, abbreviation),
    }
}

/// A timestamp or an error, each as plain values.
pub open spec fn timestamp_result_view(r: Result<Timestamp, TimezError>) -> Result<
    TimestampView,
    TimezErrorView,
> {
    match r {
        Ok(t) => Ok(t@),
        Err(e) => Err(e@),
    }
}

/// A date and time or an error, each as plain values.
pub open spec fn civil_result_view(r: Result<CivilTime, TimezError>) -> Result<
    CivilFields,
    TimezErrorView,
> {
    match r {
        Ok(at) => Ok(at@),
        Err(e) => Err(e@),
    }
}

/// What a reading of `raw` amounts to: the date and time that were read, or
/// the error that carries `raw` and the parser's message.
pub open spec fn utc_reading(raw: Seq<char>, reading: Result<CivilFields, Seq<char>>) -> Result<
    CivilFields,
    TimezErrorView,
> {
    match reading {
        Ok(at) => Ok(at),
        Err(message) => Err(TimezErrorView::TimestampParseError { raw, message }),
    }
}

/// The date and time on the UTC clock that `value` names when it is read
/// as `YYYY-MM-DD HH:MM:SS`.
pub open spec fn parsed_utc(value: Seq<char>) -> Result<CivilFields, TimezErrorView> {
    utc_reading(value, civil_reading(chrono_parse(value, CIVIL_PATTERN@)))
}

/// What parsing `value` gives: it is read as `YYYY-MM-DD HH:MM:SS` and
/// taken to be in UTC.
pub open spec fn parsed_timestamp(value: Seq<char>) -> Result<TimestampView, TimezErrorView> {
    match parsed_utc(value) {
        Ok(at) => Ok(TimestampView::Utc(at)),
        Err(e) => Err(e),
    }
}

/// The date and time read from `raw`, or the error for a reading that
/// failed, with `raw` and the parser's message in it.
pub fn utc_from_reading(raw: &str, reading: Result<CivilTime, String>) -> (r: Result<
    CivilTime,
    TimezError,
>)
    ensures
        civil_result_view(r) == utc_reading(raw@, reading_view(reading)),
{
    match reading {
        Ok(at) => Ok(at),
        Err(message) => Err(TimezError::TimestampParseError { raw: String::from_str(raw), message }),
    }
}

/// Reads a date and time on the UTC clock, written as
/// `YYYY-MM-DD HH:MM:SS`.
pub fn parse_utc(value: &str) -> (r: Result<CivilTime, TimezError>)
    ensures
        civil_result_view(r) == parsed_utc(value@),
{
    utc_from_reading(value, CivilTime::parse(value))
}

/// Reads a timestamp written as `YYYY-MM-DD HH:MM:SS` and takes it to be in
/// UTC.
pub fn parse(value: &str) -> (r: Result<Timestamp, TimezError>)
    ensures
        timestamp_result_view(r) == parsed_timestamp(value@),
{
    match parse_utc(value) {
        Ok(at) => Ok(Timestamp::Utc(at)),
        Err(e) => Err(e),
    }
}

impl Timestamp {
    /// Writes the timestamp in its one consistent form.
    pub fn format_ts(&self) -> (r: String)
        ensures
            r@ == timestamp_text(self@),
    {
        proof {
            reveal_strlit(" UTC");
            reveal_strlit(" ");
        }
        match self {
            Timestamp::Utc(at) => {
                let mut out = at.text();
                out.append(" UTC");
                assert(out@ =~= timestamp_text(self@));
                out
            },
            Timestamp::Local { at, offset } => {
                let mut out = at.text();
                out.append(" ");
                let label = offset.colon_text();
                out.append(label.as_str());
                assert(out@ =~= timestamp_text(self@));
                out
            },
            Timestamp::Naive(at) => at.text(),
            Timestamp::Zoned { at, offset, abbreviation } => {
                let mut out = at.text();
                out.append(" ");
                match abbreviation {
                    Some(a) => {
                        out.append(a.as_str());
                    },
                    None => {
                        let label = offset.compact_text();
                        out.append(label.as_str());
                    },
                }
                assert(out@ =~= timestamp_text(self@));
                out
            },
        }
    }
}

/// Whether a character is a decimal digit.
pub open spec fn is_digit(c: char) -> bool {
    c == '0' || c == '1' || c == '2' || c == '3' || c == '4' || c == '5' || c == '6' || c == '7'
        || c == '8' || c == '9'
}

/// A valid date and time in the years 0 to 9999 is written in 19
/// characters: digits, with `-` after the year and the month, a space after
/// the day and `:` after the hour and the minute.
pub proof fn lemma_civil_text_shape(at: CivilFields)
    requires
        valid_fields(at),
        0 <= at.year <= 9999,
    ensures
        civil_text(at).len() == 19,
        civil_text(at)[4] == '-',
        civil_text(at)[7] == '-',
        civil_text(at)[10] == ' ',
        civil_text(at)[13] == ':',
        civil_text(at)[16] == ':',
        forall|i: int|
            0 <= i < 19 && i != 4 && i != 7 && i != 10 && i != 13 && i != 16 ==> is_digit(
                #[trigger] civil_text(at)[i],
            ),
{
    let text = civil_text(at);
    let shown = seq![
        digit(at.year as int / 100 / 10),
        digit(at.year as int / 100 % 10),
        digit(at.year as int % 100 / 10),
        digit(at.year as int % 100 % 10),
        '-',
        digit(at.month as int / 10),
        digit(at.month as int % 10),
        '-',
        digit(at.day as int / 10),
        digit(at.day as int % 10),
        ' ',
        digit(at.hour as int / 10),
        digit(at.hour as int % 10),
        ':',
        digit(at.minute as int / 10),
        digit(at.minute as int % 10),
        ':',
        digit(shown_second(at) / 10),
        digit(shown_second(at) % 10),
    ];
    assert(text =~= shown);
    assert forall|n: int| is_digit(#[trigger] digit(n)) by {}
}

/// A UTC timestamp is written as its date and time, a space and `UTC`.
pub proof fn lemma_utc_text(at: CivilFields)
    ensures
        timestamp_text(TimestampView::Utc(at)) == civil_text(at) + seq![' ', 'U', 'T', 'C'],
        timestamp_text(TimestampView::Utc(at)).len() == civil_text(at).len() + 4,
{
}

/// A local timestamp ends with a space and the local offset, written with
/// colons.
pub proof fn lemma_local_text(at: CivilFields, offset: int)
    ensures
        timestamp_text(TimestampView::Local { at, offset }) == civil_text(at) + seq![' ']
            + colon_offset_text(offset),
        timestamp_text(TimestampView::Local { at, offset }).skip(civil_text(at).len() as int + 1)
            == colon_offset_text(offset),
{
    let text = timestamp_text(TimestampView::Local { at, offset });
    assert(text.skip(civil_text(at).len() as int + 1) =~= colon_offset_text(offset));
}

/// A naive timestamp is written as its date and time and nothing more: for
/// a valid one the last character is the last digit of the seconds.
pub proof fn lemma_naive_text(at: CivilFields)
    requires
        valid_fields(at),
    ensures
        timestamp_text(TimestampView::Naive(at)) == civil_text(at),
        civil_text(at).len() >= 19,
        civil_text(at).last() == digit(shown_second(at) % 10),
        is_digit(civil_text(at).last()),
{
    let stem = year_text(at.year as int) + seq!['-'] + two_digits(at.month as int) + seq!['-']
        + two_digits(at.day as int) + seq![' '] + two_digits(at.hour as int) + seq![':']
        + two_digits(at.minute as int) + seq![':'];
    assert(civil_text(at) =~= stem + two_digits(shown_second(at)));
    assert(year_text(at.year as int).len() >= 4);
}

/// A zoned timestamp ends with the abbreviation of its zone where it has
/// one, and with the offset as `+HHMM` where it has none.
pub proof fn lemma_zoned_text(at: CivilFields, offset: int, abbreviation: Option<Seq<char>>)
    ensures
        abbreviation matches Some(a) ==> timestamp_text(
            TimestampView::Zoned { at, offset, abbreviation },
        ) == civil_text(at) + seq![' '] + a,
        abbreviation is None ==> timestamp_text(TimestampView::Zoned { at, offset, abbreviation })
            == civil_text(at) + seq![' '] + compact_offset_text(offset),
        compact_offset_text(offset).len() == 5,
{
}

/// Two timestamps that hold the same values are written the same: the text
/// depends on nothing else.
pub proof fn lemma_format_depends_on_value_alone(a: Timestamp, b: Timestamp)
    requires
        a@ == b@,
    ensures
        timestamp_text(a@) == timestamp_text(b@),
{
}

/// The last eight characters of a date and time are the time of day:
/// two digits each for the hour, the minute and the second shown.
pub proof fn lemma_civil_text_ends_with_the_time(at: CivilFields)
    requires
        valid_fields(at),
    ensures
        civil_text(at).len() >= 19,
        civil_text(at).skip(civil_text(at).len() - 8) == two_digits(at.hour as int) + seq![':']
            + two_digits(at.minute as int) + seq![':'] + two_digits(shown_second(at)),
{
    let stem = year_text(at.year as int) + seq!['-'] + two_digits(at.month as int) + seq!['-']
        + two_digits(at.day as int) + seq![' '];
    let time = two_digits(at.hour as int) + seq![':'] + two_digits(at.minute as int) + seq![':']
        + two_digits(shown_second(at));
    assert(civil_text(at) =~= stem + time);
    assert(time.len() == 8);
    assert((stem + time).skip(stem.len() as int) =~= time);
}

/// Two numbers below 100 that are written with the same two digits are the
/// same number.
pub proof fn lemma_two_digits_tell_apart(a: int, b: int)
    requires
        0 <= a < 100,
        0 <= b < 100,
        two_digits(a) == two_digits(b),
    ensures
        a == b,
{
    assert(two_digits(a)[0] == two_digits(b)[0]);
    assert(two_digits(a)[1] == two_digits(b)[1]);
    assert(digit(a / 10) == digit(b / 10));
    assert(digit(a % 10) == digit(b % 10));
}

/// Two valid dates and times that are written the same show the same hour,
/// minute and second.
pub proof fn lemma_same_text_same_time_of_day(a: CivilFields, b: CivilFields)
    requires
        valid_fields(a),
        valid_fields(b),
        civil_text(a) == civil_text(b),
    ensures
        a.hour == b.hour,
        a.minute == b.minute,
        a.second == b.second,
{
    lemma_civil_text_ends_with_the_time(a);
    lemma_civil_text_ends_with_the_time(b);
    let ta = two_digits(a.hour as int) + seq![':'] + two_digits(a.minute as int) + seq![':']
        + two_digits(shown_second(a));
    let tb = two_digits(b.hour as int) + seq![':'] + two_digits(b.minute as int) + seq![':']
        + two_digits(shown_second(b));
    assert(ta == tb);
    assert(two_digits(a.hour as int) =~= ta.subrange(0, 2));
    assert(two_digits(b.hour as int) =~= tb.subrange(0, 2));
    assert(two_digits(a.minute as int) =~= ta.subrange(3, 5));
    assert(two_digits(b.minute as int) =~= tb.subrange(3, 5));
    assert(two_digits(shown_second(a)) =~= ta.subrange(6, 8));
    assert(two_digits(shown_second(b)) =~= tb.subrange(6, 8));
    lemma_two_digits_tell_apart(a.hour as int, b.hour as int);
    lemma_two_digits_tell_apart(a.minute as int, b.minute as int);
    lemma_two_digits_tell_apart(shown_second(a), shown_second(b));
}

} // verus!
