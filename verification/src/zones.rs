//! Named zones of the IANA database: looking one up, and reading its clock.

use vstd::prelude::*;
use chrono::{Datelike, MappedLocalTime, NaiveDate, Offset, TimeZone, Timelike};
use chrono_tz::{OffsetName, Tz};
use crate::civil::{civil_text, valid_fields, CivilFields, CivilTime};
use crate::errors::{TimezError, TimezErrorView};
use crate::offset::{valid_offset, UtcOffset};
use crate::timestamps::{
    lemma_same_text_same_time_of_day, timestamp_result_view, timestamp_text, Timestamp,
    TimestampView,
};

verus! {

/// What the zone database says of a name it does not hold.
pub const UNKNOWN_ZONE: &'static str = "failed to parse timezone";

/// Whether the zone database holds a zone of exactly this name.
pub uninterp spec fn zone_known(name: Seq<char>) -> bool;

/// What the clocks of a known zone show at the moment when clocks on UTC
/// show `utc`.
pub uninterp spec fn zone_clock(zone: Seq<char>, utc: CivilFields) -> CivilFields;

/// The offsets under which the clocks of a known zone show `local`: none
/// where a transition skips that reading, two where one repeats it.
pub uninterp spec fn zone_offsets(zone: Seq<char>, local: CivilFields) -> LocalOffsetsView;

/// One offset of a zone as the database gives it: seconds east of
/// Greenwich, and the abbreviation in use with it, if it has one.
#[derive(Clone, Debug, PartialEq, Eq)]
pub struct OffsetReading {
    pub seconds: i32,
    pub abbreviation: Option<String>,
}

/// An [`OffsetReading`] as plain values.
pub struct OffsetReadingView {
    pub seconds: int,
    pub abbreviation: Option<Seq<char>>,
}

impl View for OffsetReading {
    type V = OffsetReadingView;

    open spec fn view(&self) -> OffsetReadingView {
        OffsetReadingView {
            seconds: self.seconds as int,
            abbreviation: match self.abbreviation {
                Some(a) => Some(a@),
                None => None,
            },
        }
    }
}

/// The offsets that fit one wall-clock reading in one zone.
#[derive(Clone, Debug, PartialEq, Eq)]
pub enum LocalOffsets {
    /// The clocks of the zone never show the reading.
    Skipped,
    /// They show it once.
    Single(OffsetReading),
    /// They show it twice, first under the one offset, then under the other.
    Ambiguous(OffsetReading, OffsetReading),
}

/// [`LocalOffsets`] as plain values.
pub enum LocalOffsetsView {
    Skipped,
    Single(OffsetReadingView),
    Ambiguous(OffsetReadingView, OffsetReadingView),
}

impl View for LocalOffsets {
    type V = LocalOffsetsView;

    open spec fn view(&self) -> LocalOffsetsView {
        match *self {
            LocalOffsets::Skipped => LocalOffsetsView::Skipped,
            LocalOffsets::Single(o) => LocalOffsetsView::Single(o@),
            LocalOffsets::Ambiguous(a, b) => LocalOffsetsView::Ambiguous(a@, b@),
        }
    }
}

/// `<chrono_tz::Tz as FromStr>::from_str`, reached through `str::parse`.
/// Trusted: whether it finds the zone depends on the name alone, and its
/// error reads [`UNKNOWN_ZONE`] whatever the name.
#[verifier::external_body]
fn find_zone(name: &str) -> (r: Result<(), String>)
    ensures
        r is Ok <==> zone_known(name@),
        r matches Err(m) ==> m@ == UNKNOWN_ZONE@,
{
    match name.parse::<Tz>() {
        Ok(_) => Ok(()),
        Err(e) => Err(e.to_string()),
    }
}

/// `chrono::TimeZone::from_utc_datetime` on a `chrono_tz::Tz`, read back
/// field by field. Trusted: the reading depends on the zone and the UTC time
/// alone. Nothing is claimed of the fields: at the far ends of the calendar
/// they may name a year that no date can have.
#[verifier::external_body]
fn read_zone_clock(zone: &str, utc: &CivilFields) -> (r: CivilFields)
    requires
        zone_known(zone@),
        valid_fields(*utc),
    ensures
        r == zone_clock(zone@, *utc),
{
    let tz: Tz = zone.parse().unwrap();
    let date = NaiveDate::from_ymd_opt(utc.year, utc.month, utc.day).unwrap();
    let naive = date.and_hms_nano_opt(utc.hour, utc.minute, utc.second, utc.nanosecond).unwrap();
    let t = tz.from_utc_datetime(&naive);
    CivilFields {
        year: t.year(),
        month: t.month(),
        day: t.day(),
        hour: t.hour(),
        minute: t.minute(),
        second: t.second(),
        nanosecond: t.nanosecond(),
    }
}

/// `chrono::TimeZone::offset_from_local_datetime` on a `chrono_tz::Tz`, each
/// offset read as its seconds east and its abbreviation. Trusted: the
/// outcome depends on the zone and the wall-clock reading alone.
#[verifier::external_body]
fn read_zone_offsets(zone: &str, local: &CivilFields) -> (r: LocalOffsets)
    requires
        zone_known(zone@),
        valid_fields(*local),
    ensures
        r@ == zone_offsets(zone@, *local),
{
    let tz: Tz = zone.parse().unwrap();
    let date = NaiveDate::from_ymd_opt(local.year, local.month, local.day).unwrap();
    let naive = date.and_hms_nano_opt(local.hour, local.minute, local.second, local.nanosecond).unwrap();
    let found = tz.offset_from_local_datetime(&naive).map(|o| OffsetReading {
        seconds: o.fix().local_minus_utc(),
        abbreviation: o.abbreviation().map(str::to_string),
    });
    match found {
        MappedLocalTime::None => LocalOffsets::Skipped,
        MappedLocalTime::Single(o) => LocalOffsets::Single(o),
        MappedLocalTime::Ambiguous(a, b) => LocalOffsets::Ambiguous(a, b),
    }
}

/// The error for a name that the zone database does not hold.
pub open spec fn invalid_timezone(name: Seq<char>) -> TimezErrorView {
    TimezErrorView::InvalidTimezone { name, message: UNKNOWN_ZONE@ }
}

/// The error for a time in a zone that no timestamp can hold.
pub open spec fn out_of_range(zone: Seq<char>) -> TimezErrorView {
    TimezErrorView::LocalTimeOutOfRange { zone }
}

/// What looking up a name gives: the name itself, or the error for it.
pub open spec fn zone_lookup(name: Seq<char>) -> Result<Seq<char>, TimezErrorView> {
    if zone_known(name) {
        Ok(name)
    } else {
        Err(invalid_timezone(name))
    }
}

/// The seconds since midnight that a clock shows; a leap second counts
/// as the second before it.
pub open spec fn second_of_day(f: CivilFields) -> int {
    f.hour * 3600 + f.minute * 60 + f.second
}

/// Whether a clock that is `seconds` ahead of UTC shows the time of day of
/// `at` when UTC clocks show that of `utc`.
pub open spec fn fits(utc: CivilFields, at: CivilFields, seconds: int) -> bool {
    (second_of_day(at) - second_of_day(utc) - seconds) % 86_400 == 0
}

/// Whether `a` is an earlier date and time of day than `b`.
pub open spec fn shows_earlier(a: CivilFields, b: CivilFields) -> bool {
    ||| a.year < b.year
    ||| a.year == b.year && a.month < b.month
    ||| a.year == b.year && a.month == b.month && a.day < b.day
    ||| a.year == b.year && a.month == b.month && a.day == b.day && second_of_day(a)
        < second_of_day(b)
}

/// How far the clock that shows `at` is ahead of the UTC clock that shows
/// `utc`, for two clocks less than a day apart: the difference of the times
/// of day, taken to the west where `at` is the earlier reading.
pub open spec fn clock_gap(utc: CivilFields, at: CivilFields) -> int {
    let ahead = (second_of_day(at) - second_of_day(utc)) % 86_400;
    if ahead != 0 && shows_earlier(at, utc) {
        ahead - 86_400
    } else {
        ahead
    }
}

/// The offset under which a zone shows `at` at the moment when UTC clocks
/// show `utc`. Where the zone shows `at` once, it is the offset of that one
/// time. Where it shows `at` twice, it is the one of the two that leads from
/// `utc` to `at`, and the first if that does not decide. Where the database
/// has no offset for `at`, it is the gap between the two clocks, without an
/// abbreviation.
pub open spec fn chosen_reading(
    utc: CivilFields,
    at: CivilFields,
    offsets: LocalOffsetsView,
) -> OffsetReadingView {
    match offsets {
        LocalOffsetsView::Single(o) => o,
        LocalOffsetsView::Ambiguous(a, b) => if !fits(utc, at, a.seconds) && fits(
            utc,
            at,
            b.seconds,
        ) {
            b
        } else {
            a
        },
        LocalOffsetsView::Skipped => OffsetReadingView {
            seconds: clock_gap(utc, at),
            abbreviation: None,
        },
    }
}

/// The zoned timestamp for the wall-clock reading `at` that a zone shows
/// when UTC clocks show `utc`, given the offsets that the database has for
/// `at`. It fails only where the offset is a day or more.
pub open spec fn zoned_reading(
    zone: Seq<char>,
    utc: CivilFields,
    at: CivilFields,
    offsets: LocalOffsetsView,
) -> Result<TimestampView, TimezErrorView> {
    let reading = chosen_reading(utc, at, offsets);
    if valid_offset(reading.seconds) {
        Ok(
            TimestampView::Zoned {
                at,
                offset: reading.seconds,
                abbreviation: reading.abbreviation,
            },
        )
    } else {
        Err(out_of_range(zone))
    }
}

/// The zoned timestamp that a known zone has when UTC clocks show `utc`.
/// The offset and the abbreviation are looked up under the wall-clock
/// reading of the zone itself. It fails only where that reading lies beyond
/// the calendar or the offset is a day or more.
pub open spec fn zoned_at(zone: Seq<char>, utc: CivilFields) -> Result<
    TimestampView,
    TimezErrorView,
> {
    let at = zone_clock(zone, utc);
    if valid_fields(at) {
        zoned_reading(zone, utc, at, zone_offsets(zone, at))
    } else {
        Err(out_of_range(zone))
    }
}

/// Whether every offset among `offsets` is less than a day.
pub open spec fn within_a_day(offsets: LocalOffsetsView) -> bool {
    match offsets {
        LocalOffsetsView::Single(o) => valid_offset(o.seconds),
        LocalOffsetsView::Ambiguous(a, b) => valid_offset(a.seconds) && valid_offset(b.seconds),
        LocalOffsetsView::Skipped => true,
    }
}

/// Whether the time in `zone` can be shown when UTC clocks show `utc`: the
/// wall-clock reading lies within the calendar and the database gives no
/// offset of a day or more for it.
pub open spec fn showable(zone: Seq<char>, utc: CivilFields) -> bool {
    valid_fields(zone_clock(zone, utc)) && within_a_day(
        zone_offsets(zone, zone_clock(zone, utc)),
    )
}

/// A zone or an error, each as plain values.
pub open spec fn zone_result_view(r: Result<Zone, TimezError>) -> Result<Seq<char>, TimezErrorView> {
    match r {
        Ok(z) => Ok(z@),
        Err(e) => Err(e@),
    }
}

/// A zone that the database holds.
#[derive(Debug)]
pub struct Zone {
    name: String,
}

impl View for Zone {
    type V = Seq<char>;

    closed spec fn view(&self) -> Seq<char> {
        self.name@
    }
}

impl Zone {
    #[verifier::type_invariant]
    spec fn well_formed(self) -> bool {
        zone_known(self.name@)
    }

    /// Looks `name` up in the zone database.
    pub fn parse(name: &str) -> (r: Result<Zone, TimezError>)
        ensures
            zone_result_view(r) == zone_lookup(name@),
    {
        match find_zone(name) {
            Ok(()) => Ok(Zone { name: String::from_str(name) }),
            Err(message) => Err(
                TimezError::InvalidTimezone { name: String::from_str(name), message },
            ),
        }
    }

    /// The name of the zone, which the database holds.
    pub fn name(&self) -> (r: &str)
        ensures
            r@ == self@,
            zone_known(r@),
    {
        proof {
            use_type_invariant(self);
        }
        self.name.as_str()
    }

    /// The timestamp that this zone has when UTC clocks show `utc`.
    pub fn at_utc(&self, utc: &CivilTime) -> (r: Result<Timestamp, TimezError>)
        ensures
            timestamp_result_view(r) == zoned_at(self@, utc@),
    {
        let name = self.name();
        let utc_fields = utc.fields();
        let local = read_zone_clock(name, &utc_fields);
        match CivilTime::from_fields(local) {
            Some(at) => {
                let offsets = read_zone_offsets(name, &local);
                zoned(name, utc, at, offsets)
            },
            None => Err(TimezError::LocalTimeOutOfRange { zone: String::from_str(name) }),
        }
    }
}

/// The seconds since midnight that `at` shows.
pub fn day_second(at: &CivilTime) -> (r: i32)
    ensures
        r == second_of_day(at@),
        0 <= r < 86_400,
{
    let f = at.fields();
    let seconds: u32 = f.hour * 3600 + f.minute * 60 + f.second;
    seconds as i32
}

/// Whether `seconds` leads from the time of day of `utc` to that of `at`.
pub fn reading_fits(utc: &CivilTime, at: &CivilTime, seconds: i32) -> (r: bool)
    ensures
        r == fits(utc@, at@, seconds as int),
{
    let apart: i64 = day_second(at) as i64 - day_second(utc) as i64 - seconds as i64;
    apart % 86_400 == 0
}

/// Whether `a` is an earlier date and time of day than `b`.
pub fn earlier(a: &CivilTime, b: &CivilTime) -> (r: bool)
    ensures
        r == shows_earlier(a@, b@),
{
    let x = a.fields();
    let y = b.fields();
    x.year < y.year || (x.year == y.year && (x.month < y.month || (x.month == y.month && (x.day
        < y.day || (x.day == y.day && day_second(a) < day_second(b))))))
}

/// How far the clock that shows `at` is ahead of the UTC clock that shows
/// `utc`. The result is always less than a day.
pub fn gap_between(utc: &CivilTime, at: &CivilTime) -> (r: i32)
    ensures
        r == clock_gap(utc@, at@),
        valid_offset(r as int),
{
    let apart: i32 = day_second(at) - day_second(utc);
    let ahead: i32 = if apart < 0 {
        apart + 86_400
    } else {
        apart
    };
    if ahead != 0 && earlier(at, utc) {
        ahead - 86_400
    } else {
        ahead
    }
}

/// The one offset that counts for the wall-clock reading `at` of a zone at
/// the moment when UTC clocks show `utc`.
pub fn pick_reading(utc: &CivilTime, at: &CivilTime, offsets: LocalOffsets) -> (r: OffsetReading)
    ensures
        r@ == chosen_reading(utc@, at@, offsets@),
{
    match offsets {
        LocalOffsets::Single(reading) => reading,
        LocalOffsets::Ambiguous(first, second) => {
            if !reading_fits(utc, at, first.seconds) && reading_fits(utc, at, second.seconds) {
                second
            } else {
                first
            }
        },
        LocalOffsets::Skipped => OffsetReading {
            seconds: gap_between(utc, at),
            abbreviation: None,
        },
    }
}

/// The zoned timestamp for the wall-clock reading `at` that `zone` shows
/// when UTC clocks show `utc`, given the offsets that the database has for
/// `at`.
pub fn zoned(zone: &str, utc: &CivilTime, at: CivilTime, offsets: LocalOffsets) -> (r: Result<
    Timestamp,
    TimezError,
>)
    ensures
        timestamp_result_view(r) == zoned_reading(zone@, utc@, at@, offsets@),
{
    let reading = pick_reading(utc, &at, offsets);
    match UtcOffset::new(reading.seconds) {
        Some(offset) => Ok(Timestamp::Zoned { at, offset, abbreviation: reading.abbreviation }),
        None => Err(TimezError::LocalTimeOutOfRange { zone: String::from_str(zone) }),
    }
}

/// A wall-clock reading within the calendar has a zoned timestamp whenever
/// the database gives no offset of a day or more for it: once, twice or not
/// at all.
pub proof fn lemma_zoned_reading_succeeds(
    zone: Seq<char>,
    utc: CivilFields,
    at: CivilFields,
    offsets: LocalOffsetsView,
)
    requires
        valid_fields(utc),
        valid_fields(at),
        within_a_day(offsets),
    ensures
        zoned_reading(zone, utc, at, offsets) is Ok,
        zoned_reading(zone, utc, at, offsets)->Ok_0 is Zoned,
        zoned_reading(zone, utc, at, offsets)->Ok_0->Zoned_at == at,
{
}

/// A known zone has a time at every moment at which it is showable.
pub proof fn lemma_zoned_at_succeeds(zone: Seq<char>, utc: CivilFields)
    requires
        valid_fields(utc),
        showable(zone, utc),
    ensures
        zoned_at(zone, utc) is Ok,
        zoned_at(zone, utc)->Ok_0 is Zoned,
        zoned_at(zone, utc)->Ok_0->Zoned_at == zone_clock(zone, utc),
{
    let at = zone_clock(zone, utc);
    lemma_zoned_reading_succeeds(zone, utc, at, zone_offsets(zone, at));
}

/// In an hour that the clocks of a zone show twice, the timestamp holds the
/// offset that leads from the UTC clock to the wall clock: of two offsets
/// of which one does, that one, with its abbreviation.
pub proof fn lemma_repeated_hour_takes_the_offset_in_force(
    zone: Seq<char>,
    utc: CivilFields,
    at: CivilFields,
    a: OffsetReadingView,
    b: OffsetReadingView,
)
    requires
        valid_offset(a.seconds),
        valid_offset(b.seconds),
    ensures
        fits(utc, at, a.seconds) ==> zoned_reading(zone, utc, at, LocalOffsetsView::Ambiguous(a, b))
            == Ok::<TimestampView, TimezErrorView>(
            TimestampView::Zoned { at, offset: a.seconds, abbreviation: a.abbreviation },
        ),
        !fits(utc, at, a.seconds) && fits(utc, at, b.seconds) ==> zoned_reading(
            zone,
            utc,
            at,
            LocalOffsetsView::Ambiguous(a, b),
        ) == Ok::<TimestampView, TimezErrorView>(
            TimestampView::Zoned { at, offset: b.seconds, abbreviation: b.abbreviation },
        ),
{
}

/// The gap between two clocks leads from the one to the other.
pub proof fn lemma_clock_gap_fits(utc: CivilFields, at: CivilFields)
    requires
        valid_fields(utc),
        valid_fields(at),
    ensures
        fits(utc, at, clock_gap(utc, at)),
        valid_offset(clock_gap(utc, at)),
{
}

/// Showing a time in a zone away from UTC is a one-way matter: where an
/// offset other than zero leads from the UTC clock to the wall clock of the
/// zone, the wall clock shows another time of day, and the date and time
/// written for the zone differ from those written for UTC. What is printed
/// for the zone is therefore not what was put in, and putting it in again
/// does not lead back.
pub proof fn lemma_zone_away_from_utc_is_written_differently(
    utc: CivilFields,
    at: CivilFields,
    offset: int,
    abbreviation: Option<Seq<char>>,
)
    requires
        valid_fields(utc),
        valid_fields(at),
        valid_offset(offset),
        offset != 0,
        fits(utc, at, offset),
    ensures
        second_of_day(at) != second_of_day(utc),
        civil_text(at) != civil_text(utc),
        timestamp_text(TimestampView::Zoned { at, offset, abbreviation }).take(
            civil_text(at).len() as int,
        ) != civil_text(utc),
{
    if civil_text(at) == civil_text(utc) {
        lemma_same_text_same_time_of_day(at, utc);
    }
    let shown = timestamp_text(TimestampView::Zoned { at, offset, abbreviation });
    assert(shown.take(civil_text(at).len() as int) =~= civil_text(at));
}

} // verus!
