//! What each command prints and how it exits, decided from what was read.

use vstd::prelude::*;
use crate::civil::{valid_fields, CivilFields, CivilTime};
use crate::errors::{error_text, TimezError, TimezErrorView};
use crate::first::{first, lemma_first_absent, lemma_first_found, never};
use crate::settings::{
    all_known, lemma_validation_succeeds_iff_all_known, loaded, validation, zone_names, Settings,
    Source,
};
use crate::timestamps::{parse_utc, parsed_utc, timestamp_text, Timestamp, TimestampView};
use crate::zones::{
    lemma_zoned_at_succeeds, showable, zone_known, zone_lookup, zoned_at, Zone,
};

verus! {

/// What a command leaves for the caller to do: lines for standard output,
/// lines for standard error, and the exit code.
#[derive(Clone, Debug, PartialEq, Eq)]
pub struct Outcome {
    pub stdout: Vec<String>,
    pub stderr: Vec<String>,
    pub exit_code: i32,
}

/// An [`Outcome`] as plain values.
pub struct OutcomeView {
    pub stdout: Seq<Seq<char>>,
    pub stderr: Seq<Seq<char>>,
    pub exit_code: int,
}

impl View for Outcome {
    type V = OutcomeView;

    open spec fn view(&self) -> OutcomeView {
        OutcomeView {
            stdout: self.stdout@.map_values(|s: String| s@),
            stderr: self.stderr@.map_values(|s: String| s@),
            exit_code: self.exit_code as int,
        }
    }
}

/// The outcome of a command that went through: its lines, and exit code 0.
pub open spec fn success(lines: Seq<Seq<char>>) -> OutcomeView {
    OutcomeView { stdout: lines, stderr: Seq::empty(), exit_code: 0 }
}

/// The outcome of a command that failed: nothing on standard output, what
/// went wrong on standard error, and exit code 1.
pub open spec fn failure(lines: Seq<Seq<char>>) -> OutcomeView {
    OutcomeView { stdout: Seq::empty(), stderr: lines, exit_code: 1 }
}

/// The line that shows the time in a configured zone.
pub open spec fn zone_line_text(name: Seq<char>, time: Seq<char>) -> Seq<char> {
    "Time in "@ + name + ": "@ + time
}

/// The line for a zone that the database holds when UTC clocks show `utc`,
/// or the error that stands in its way.
pub open spec fn zone_line(name: Seq<char>, utc: CivilFields) -> Result<Seq<char>, TimezErrorView> {
    match zoned_at(name, utc) {
        Ok(t) => Ok(zone_line_text(name, timestamp_text(t))),
        Err(e) => Err(e),
    }
}

/// Holds at the indices of the names for which no line can be made.
pub open spec fn no_line_at(names: Seq<Seq<char>>, utc: CivilFields) -> spec_fn(int) -> bool {
    |i: int| zone_line(names[i], utc) is Err
}

/// One line for each of the zones, in order; or, if some zone has no line,
/// the error of the first such zone and no line at all.
pub open spec fn lines_of_zones(names: Seq<Seq<char>>, utc: CivilFields) -> Result<
    Seq<Seq<char>>,
    TimezErrorView,
> {
    match first(names.len() as int, no_line_at(names, utc)) {
        Some(k) => Err(zone_line(names[k], utc)->Err_0),
        None => Ok(Seq::new(names.len(), |i: int| zone_line(names[i], utc)->Ok_0)),
    }
}

/// One line for each configured zone. Settings with a name that the zone
/// database does not hold are rejected before any of them is used.
pub open spec fn zone_lines(names: Seq<Seq<char>>, utc: CivilFields) -> Result<
    Seq<Seq<char>>,
    TimezErrorView,
> {
    match validation(names) {
        Err(e) => Err(e),
        Ok(_) => lines_of_zones(names, utc),
    }
}

/// Lines or an error, each as plain values.
pub open spec fn lines_result_view(r: Result<Vec<String>, TimezError>) -> Result<
    Seq<Seq<char>>,
    TimezErrorView,
> {
    match r {
        Ok(lines) => Ok(lines@.map_values(|s: String| s@)),
        Err(e) => Err(e@),
    }
}

/// What `now` prints for settings that were loaded.
pub open spec fn now_report(names: Seq<Seq<char>>, local: TimestampView, utc: CivilFields) -> OutcomeView {
    match zone_lines(names, utc) {
        Ok(lines) => success(seq!["Current local time is: "@ + timestamp_text(local)] + lines),
        Err(e) => failure(seq![error_text(e)]),
    }
}

/// What `now` comes to: the local time, then the time in each configured
/// zone; or the first error on the way and nothing else.
pub open spec fn now_outcome(sources: Seq<Source>, local: TimestampView, utc: CivilFields) -> OutcomeView {
    match loaded(sources) {
        Ok(names) => now_report(names, local, utc),
        Err(e) => failure(seq![error_text(e)]),
    }
}

/// What `convert` prints for settings that were loaded.
pub open spec fn convert_report(names: Seq<Seq<char>>, value: Seq<char>) -> OutcomeView {
    match parsed_utc(value) {
        Ok(utc) => match zone_lines(names, utc) {
            Ok(lines) => success(lines),
            Err(e) => failure(seq![error_text(e)]),
        },
        Err(e) => failure(seq![error_text(e)]),
    }
}

/// What `convert` comes to: the time that `value` names in UTC, shown in
/// each configured zone; or the first error on the way and nothing else.
pub open spec fn convert_outcome(sources: Seq<Source>, value: Seq<char>) -> OutcomeView {
    match loaded(sources) {
        Ok(names) => convert_report(names, value),
        Err(e) => failure(seq![error_text(e)]),
    }
}

/// What `as` comes to: the time in the one zone asked for, or why there is
/// none.
pub open spec fn as_outcome(timezone: Seq<char>, utc: CivilFields) -> OutcomeView {
    match zone_lookup(timezone) {
        Err(e) => failure(seq!["invalid timezone: "@ + e->InvalidTimezone_message]),
        Ok(zone) => match zoned_at(zone, utc) {
            Ok(t) => success(seq![timestamp_text(t)]),
            Err(e) => failure(seq![error_text(e)]),
        },
    }
}

/// What `validate` says of settings that were loaded.
pub open spec fn validate_report(names: Seq<Seq<char>>) -> OutcomeView {
    match validation(names) {
        Ok(_) => success(seq!["config is valid"@]),
        Err(e) => failure(seq!["config is invalid!"@, error_text(e)]),
    }
}

/// What `validate` comes to.
pub open spec fn validate_outcome(sources: Seq<Source>) -> OutcomeView {
    match loaded(sources) {
        Ok(names) => validate_report(names),
        Err(e) => failure(seq![error_text(e)]),
    }
}

/// The outcome of a command that went through with these lines.
pub fn succeed(lines: Vec<String>) -> (r: Outcome)
    ensures
        r@ == success(lines@.map_values(|s: String| s@)),
{
    let r = Outcome { stdout: lines, stderr: Vec::new(), exit_code: 0 };
    assert(r@.stderr =~= Seq::empty());
    r
}

/// The outcome of a command that failed with these lines of explanation.
pub fn fail(lines: Vec<String>) -> (r: Outcome)
    ensures
        r@ == failure(lines@.map_values(|s: String| s@)),
{
    let r = Outcome { stdout: Vec::new(), stderr: lines, exit_code: 1 };
    assert(r@.stdout =~= Seq::empty());
    r
}

/// The outcome of a command that failed with `e`.
pub fn fail_with(e: &TimezError) -> (r: Outcome)
    ensures
        r@ == failure(seq![error_text(e@)]),
{
    let mut lines: Vec<String> = Vec::new();
    lines.push(e.message());
    assert(lines@.map_values(|s: String| s@) =~= seq![error_text(e@)]);
    fail(lines)
}

/// The lines that show, for each of the zones in order, the time there
/// when UTC clocks show `utc`.
pub fn lines_for_zones(zones: &Vec<Zone>, utc: &CivilTime) -> (r: Result<Vec<String>, TimezError>)
    ensures
        lines_result_view(r) == lines_of_zones(zone_names(zones@), utc@),
{
    let ghost names = zone_names(zones@);
    let ghost stuck = no_line_at(names, utc@);
    let mut lines: Vec<String> = Vec::new();
    let mut i: usize = 0;
    while i < zones.len()
        invariant
            i <= zones.len(),
            names == zone_names(zones@),
            names.len() == zones.len(),
            stuck == no_line_at(names, utc@),
            never(i as int, stuck),
            lines.len() == i,
            forall|j: int|
                0 <= j < i ==> zone_line(names[j], utc@) == Ok::<Seq<char>, TimezErrorView>(
                    #[trigger] lines@[j]@,
                ),
        decreases zones.len() - i,
    {
        let zone = &zones[i];
        assert(names[i as int] == zone@);
        let shown = match zone.at_utc(utc) {
            Ok(shown) => shown,
            Err(e) => {
                proof {
                    assert(stuck(i as int));
                    lemma_first_found(names.len() as int, stuck, i as int);
                }
                return Err(e);
            },
        };
        let mut line = String::from_str("Time in ");
        line.append(zone.name());
        line.append(": ");
        let time = shown.format_ts();
        line.append(time.as_str());
        assert(line@ =~= zone_line_text(zone@, timestamp_text(shown@)));
        assert(!stuck(i as int));
        lines.push(line);
        i += 1;
    }
    proof {
        lemma_first_absent(names.len() as int, stuck);
        assert(lines@.map_values(|s: String| s@) =~= Seq::new(
            names.len(),
            |i: int| zone_line(names[i], utc@)->Ok_0,
        ));
    }
    Ok(lines)
}

/// The lines that show, for each configured zone in order, the time there
/// when UTC clocks show `utc`. The settings are validated first.
pub fn lines_for_settings(settings: &Settings, utc: &CivilTime) -> (r: Result<
    Vec<String>,
    TimezError,
>)
    ensures
        lines_result_view(r) == zone_lines(settings@, utc@),
{
    match settings.resolve() {
        Ok(zones) => lines_for_zones(&zones, utc),
        Err(e) => Err(e),
    }
}

/// `now` for settings that were loaded.
pub fn report_now(settings: &Settings, local: &Timestamp, utc: &CivilTime) -> (r: Outcome)
    ensures
        r@ == now_report(settings@, local@, utc@),
{
    match lines_for_settings(settings, utc) {
        Ok(zone_lines) => {
            let mut head = String::from_str("Current local time is: ");
            let time = local.format_ts();
            head.append(time.as_str());
            let mut lines: Vec<String> = Vec::new();
            lines.push(head);
            let ghost first_line = lines@.map_values(|s: String| s@);
            let mut zone_lines = zone_lines;
            let ghost rest = zone_lines@.map_values(|s: String| s@);
            lines.append(&mut zone_lines);
            assert(lines@.map_values(|s: String| s@) =~= first_line + rest);
            assert(first_line =~= seq!["Current local time is: "@ + timestamp_text(local@)]);
            succeed(lines)
        },
        Err(e) => fail_with(&e),
    }
}

/// The `now` command: the local time, then the time in each configured zone.
/// `local` is the current moment on the local clock and `utc` the same
/// moment on the UTC clock.
pub fn cmd_now(sources: &Vec<Source>, local: &Timestamp, utc: &CivilTime) -> (r: Outcome)
    ensures
        r@ == now_outcome(sources@, local@, utc@),
{
    match Settings::new(sources) {
        Ok(settings) => report_now(&settings, local, utc),
        Err(e) => fail_with(&e),
    }
}

/// `convert` for settings that were loaded.
pub fn report_convert(settings: &Settings, value: &str) -> (r: Outcome)
    ensures
        r@ == convert_report(settings@, value@),
{
    match parse_utc(value) {
        Ok(utc) => match lines_for_settings(settings, &utc) {
            Ok(lines) => succeed(lines),
            Err(e) => fail_with(&e),
        },
        Err(e) => fail_with(&e),
    }
}

/// The `convert` command: `value`, a time in UTC written as
/// `YYYY-MM-DD HH:MM:SS`, shown in each configured zone.
pub fn cmd_convert(sources: &Vec<Source>, value: &str) -> (r: Outcome)
    ensures
        r@ == convert_outcome(sources@, value@),
{
    match Settings::new(sources) {
        Ok(settings) => report_convert(&settings, value),
        Err(e) => fail_with(&e),
    }
}

/// The `as` command: the moment that UTC clocks show as `utc`, in the one
/// zone asked for.
pub fn cmd_as(timezone: &str, utc: &CivilTime) -> (r: Outcome)
    ensures
        r@ == as_outcome(timezone@, utc@),
{
    match Zone::parse(timezone) {
        Ok(zone) => match zone.at_utc(utc) {
            Ok(shown) => {
                let mut lines: Vec<String> = Vec::new();
                lines.push(shown.format_ts());
                assert(lines@.map_values(|s: String| s@) =~= seq![timestamp_text(shown@)]);
                succeed(lines)
            },
            Err(e) => fail_with(&e),
        },
        Err(TimezError::InvalidTimezone { name: _, message }) => {
            let mut line = String::from_str("invalid timezone: ");
            line.append(message.as_str());
            let mut lines: Vec<String> = Vec::new();
            lines.push(line);
            assert(lines@.map_values(|s: String| s@) =~= seq!["invalid timezone: "@ + message@]);
            fail(lines)
        },
        Err(e) => fail_with(&e),
    }
}

/// `validate` for settings that were loaded.
pub fn report_validate(settings: &Settings) -> (r: Outcome)
    ensures
        r@ == validate_report(settings@),
{
    match settings.validate() {
        Ok(()) => {
            let mut lines: Vec<String> = Vec::new();
            lines.push(String::from_str("config is valid"));
            assert(lines@.map_values(|s: String| s@) =~= seq!["config is valid"@]);
            succeed(lines)
        },
        Err(e) => {
            let mut lines: Vec<String> = Vec::new();
            lines.push(String::from_str("config is invalid!"));
            lines.push(e.message());
            assert(lines@.map_values(|s: String| s@) =~= seq![
                "config is invalid!"@,
                error_text(e@),
            ]);
            fail(lines)
        },
    }
}

/// The `validate` command: whether the zone database holds every
/// configured name.
pub fn cmd_validate(sources: &Vec<Source>) -> (r: Outcome)
    ensures
        r@ == validate_outcome(sources@),
{
    match Settings::new(sources) {
        Ok(settings) => report_validate(&settings),
        Err(e) => fail_with(&e),
    }
}

/// Whether the time in each of the zones can be shown when UTC clocks show
/// `utc`.
pub open spec fn all_showable(names: Seq<Seq<char>>, utc: CivilFields) -> bool {
    forall|i: int| 0 <= i < names.len() ==> showable(#[trigger] names[i], utc)
}

/// The line for a zone whose time can be shown.
pub open spec fn shown_line(name: Seq<char>, utc: CivilFields) -> Seq<char> {
    zone_line_text(name, timestamp_text(zoned_at(name, utc)->Ok_0))
}

/// The lines for zones whose times can all be shown.
pub open spec fn shown_lines(names: Seq<Seq<char>>, utc: CivilFields) -> Seq<Seq<char>> {
    Seq::new(names.len(), |i: int| shown_line(names[i], utc))
}

/// Valid settings give one line for each configured zone, in the
/// configured order and with repeated names repeated, whenever the time in
/// each zone can be shown.
pub proof fn lemma_every_zone_has_its_line(names: Seq<Seq<char>>, utc: CivilFields)
    requires
        valid_fields(utc),
        all_known(names),
        all_showable(names, utc),
    ensures
        zone_lines(names, utc) == Ok::<Seq<Seq<char>>, TimezErrorView>(shown_lines(names, utc)),
        shown_lines(names, utc).len() == names.len(),
{
    lemma_validation_succeeds_iff_all_known(names);
    let stuck = no_line_at(names, utc);
    assert forall|i: int| 0 <= i < names.len() implies !#[trigger] stuck(i) by {
        assert(showable(names[i], utc));
        lemma_zoned_at_succeeds(names[i], utc);
    }
    lemma_first_absent(names.len() as int, stuck);
    assert(Seq::new(names.len(), |i: int| zone_line(names[i], utc)->Ok_0) =~= shown_lines(
        names,
        utc,
    ));
}

/// `as` prints exactly one line, the time in the zone, and exits with 0,
/// for every zone that the database holds and whose time can be shown.
pub proof fn lemma_as_prints_the_time(timezone: Seq<char>, utc: CivilFields)
    requires
        zone_known(timezone),
        valid_fields(utc),
        showable(timezone, utc),
    ensures
        as_outcome(timezone, utc) == success(
            seq![timestamp_text(zoned_at(timezone, utc)->Ok_0)],
        ),
        as_outcome(timezone, utc).stdout.len() == 1,
        as_outcome(timezone, utc).stderr.len() == 0,
        as_outcome(timezone, utc).exit_code == 0,
{
    lemma_zoned_at_succeeds(timezone, utc);
}

/// `now` prints the local time and then one line for each configured zone,
/// and exits with 0, whenever the settings load and are valid and the time
/// in each zone can be shown.
pub proof fn lemma_now_prints_every_zone(
    sources: Seq<Source>,
    names: Seq<Seq<char>>,
    local: TimestampView,
    utc: CivilFields,
)
    requires
        loaded(sources) == Ok::<Seq<Seq<char>>, TimezErrorView>(names),
        valid_fields(utc),
        all_known(names),
        all_showable(names, utc),
    ensures
        now_outcome(sources, local, utc) == success(
            seq!["Current local time is: "@ + timestamp_text(local)] + shown_lines(names, utc),
        ),
        now_outcome(sources, local, utc).stdout.len() == 1 + names.len(),
        now_outcome(sources, local, utc).stderr.len() == 0,
        now_outcome(sources, local, utc).exit_code == 0,
{
    lemma_every_zone_has_its_line(names, utc);
}

/// `convert` prints one line for each configured zone, all for the one
/// moment that `value` names, and exits with 0, whenever the settings load
/// and are valid, `value` parses and the time in each zone can be shown.
pub proof fn lemma_convert_prints_every_zone(
    sources: Seq<Source>,
    names: Seq<Seq<char>>,
    value: Seq<char>,
    utc: CivilFields,
)
    requires
        loaded(sources) == Ok::<Seq<Seq<char>>, TimezErrorView>(names),
        parsed_utc(value) == Ok::<CivilFields, TimezErrorView>(utc),
        all_known(names),
        all_showable(names, utc),
    ensures
        convert_outcome(sources, value) == success(shown_lines(names, utc)),
        convert_outcome(sources, value).stdout.len() == names.len(),
        convert_outcome(sources, value).stderr.len() == 0,
        convert_outcome(sources, value).exit_code == 0,
{
    lemma_every_zone_has_its_line(names, utc);
}

} // verus!
