//! The configured list of zones: where it comes from and when it is valid.

use vstd::prelude::*;
use crate::errors::{TimezError, TimezErrorView};
use crate::first::{first, lemma_first_absent, lemma_first_found, lemma_first_sound, never};
use crate::zones::{invalid_timezone, zone_known, Zone};

verus! {

/// What is said when no source sets the `timezones` key.
pub const MISSING_KEY: &'static str = "missing field `timezones`";

/// The zones to show, in the order in which they are shown.
#[derive(Clone, Debug, PartialEq, Eq)]
pub struct Settings {
    pub timezones: Vec<String>,
}

/// A list of strings as a sequence of sequences of characters.
pub open spec fn names_view(names: Seq<String>) -> Seq<Seq<char>> {
    names.map_values(|s: String| s@)
}

impl View for Settings {
    type V = Seq<Seq<char>>;

    open spec fn view(&self) -> Seq<Seq<char>> {
        names_view(self.timezones@)
    }
}

/// What a source that was found and parsed holds under the `timezones` key.
#[derive(Clone, Debug, PartialEq, Eq)]
pub enum Entry {
    /// The source does not set the key.
    Unset,
    /// A list of strings.
    Names(Vec<String>),
    /// Something else; the string says what.
    Misshapen(String),
}

/// What was found at the place of one source.
#[derive(Clone, Debug, PartialEq, Eq)]
pub enum Content {
    /// Nothing is there.
    Absent,
    /// Something is there that is no key/value data; the string is the
    /// parser's diagnostic.
    Malformed(String),
    /// Key/value data.
    Parsed(Entry),
}

/// One place where settings may be, and what was found there.
#[derive(Clone, Debug, PartialEq, Eq)]
pub struct Source {
    /// The name under which the source was looked for.
    pub name: String,
    /// Whether loading fails when nothing is there.
    pub required: bool,
    pub content: Content,
}

/// The error that one source ends the loading with, if it does.
pub open spec fn source_failure(s: Source) -> Option<TimezErrorView> {
    match s.content {
        Content::Absent => if s.required {
            Some(TimezErrorView::ConfigNotFound { source: s.name@ })
        } else {
            None
        },
        Content::Malformed(m) => Some(TimezErrorView::ConfigParseError { message: m@ }),
        Content::Parsed(_) => None,
    }
}

/// Whether a source sets the `timezones` key, to whatever value.
pub open spec fn sets_key(s: Source) -> bool {
    s.content matches Content::Parsed(e) && !(e is Unset)
}

/// The settings that a source which sets the key stands for.
pub open spec fn entry_outcome(s: Source) -> Result<Seq<Seq<char>>, TimezErrorView> {
    match s.content {
        Content::Parsed(Entry::Names(v)) => Ok(names_view(v@)),
        Content::Parsed(Entry::Misshapen(m)) => Err(TimezErrorView::ConfigShapeError { message: m@ }),
        _ => Err(missing_key()),
    }
}

/// The error for settings in which no source sets the key.
pub open spec fn missing_key() -> TimezErrorView {
    TimezErrorView::ConfigShapeError { message: MISSING_KEY@ }
}

/// Holds at the indices of the sources that end the loading with an error.
pub open spec fn fails_at(sources: Seq<Source>) -> spec_fn(int) -> bool {
    |i: int| source_failure(sources[i]) is Some
}

/// Holds at the indices of the sources that set the key.
pub open spec fn sets_key_at(sources: Seq<Source>) -> spec_fn(int) -> bool {
    |i: int| sets_key(sources[i])
}

/// What loading from `sources` gives. The first source, in order, that is
/// missing though required or that is malformed decides the error. If there
/// is none, the first source that sets the key decides the value: later
/// sources do not override it.
pub open spec fn loaded(sources: Seq<Source>) -> Result<Seq<Seq<char>>, TimezErrorView> {
    match first(sources.len() as int, fails_at(sources)) {
        Some(k) => Err(source_failure(sources[k])->0),
        None => match first(sources.len() as int, sets_key_at(sources)) {
            Some(k) => entry_outcome(sources[k]),
            None => Err(missing_key()),
        },
    }
}

/// Holds at the indices of the names that the zone database does not hold.
pub open spec fn unknown_at(names: Seq<Seq<char>>) -> spec_fn(int) -> bool {
    |i: int| !zone_known(names[i])
}

/// What validating a list of names gives: the error for the first name
/// that the zone database does not hold, or nothing to report.
pub open spec fn validation(names: Seq<Seq<char>>) -> Result<(), TimezErrorView> {
    match first(names.len() as int, unknown_at(names)) {
        Some(k) => Err(invalid_timezone(names[k])),
        None => Ok(()),
    }
}

/// The names of a list of zones.
pub open spec fn zone_names(zones: Seq<Zone>) -> Seq<Seq<char>> {
    zones.map_values(|z: Zone| z@)
}

/// Settings or an error, each as plain values.
pub open spec fn settings_result_view(r: Result<Settings, TimezError>) -> Result<
    Seq<Seq<char>>,
    TimezErrorView,
> {
    match r {
        Ok(s) => Ok(s@),
        Err(e) => Err(e@),
    }
}

/// Success or an error as plain values.
pub open spec fn unit_result_view(r: Result<(), TimezError>) -> Result<(), TimezErrorView> {
    match r {
        Ok(_) => Ok(()),
        Err(e) => Err(e@),
    }
}

/// A copy of a list of strings.
pub fn copy_names(names: &Vec<String>) -> (r: Vec<String>)
    ensures
        names_view(r@) == names_view(names@),
{
    let mut out: Vec<String> = Vec::new();
    let mut i: usize = 0;
    while i < names.len()
        invariant
            i <= names.len(),
            out.len() == i,
            forall|j: int| 0 <= j < i ==> out@[j]@ == names@[j]@,
        decreases names.len() - i,
    {
        out.push(names[i].clone());
        i += 1;
    }
    assert(names_view(out@) =~= names_view(names@));
    out
}

impl Settings {
    /// Loads the settings from the sources, tried in the order given.
    pub fn new(sources: &Vec<Source>) -> (r: Result<Settings, TimezError>)
        ensures
            settings_result_view(r) == loaded(sources@),
    {
        let ghost fails = fails_at(sources@);
        let ghost sets = sets_key_at(sources@);
        let mut i: usize = 0;
        while i < sources.len()
            invariant
                i <= sources.len(),
                fails == fails_at(sources@),
                never(i as int, fails),
            decreases sources.len() - i,
        {
            let source = &sources[i];
            match &source.content {
                Content::Absent => {
                    if source.required {
                        proof {
                            assert(fails(i as int));
                            lemma_first_found(sources.len() as int, fails, i as int);
                        }
                        return Err(TimezError::ConfigNotFound { source: source.name.clone() });
                    }
                },
                Content::Malformed(message) => {
                    proof {
                        assert(fails(i as int));
                        lemma_first_found(sources.len() as int, fails, i as int);
                    }
                    return Err(TimezError::ConfigParseError { message: message.clone() });
                },
                Content::Parsed(_) => {},
            }
            assert(!fails(i as int));
            i += 1;
        }
        proof {
            lemma_first_absent(sources.len() as int, fails);
        }
        let mut k: usize = 0;
        while k < sources.len()
            invariant
                k <= sources.len(),
                sets == sets_key_at(sources@),
                never(k as int, sets),
                first(sources.len() as int, fails_at(sources@)) is None,
            decreases sources.len() - k,
        {
            match &sources[k].content {
                Content::Parsed(Entry::Names(names)) => {
                    proof {
                        assert(sets(k as int));
                        lemma_first_found(sources.len() as int, sets, k as int);
                    }
                    return Ok(Settings { timezones: copy_names(names) });
                },
                Content::Parsed(Entry::Misshapen(message)) => {
                    proof {
                        assert(sets(k as int));
                        lemma_first_found(sources.len() as int, sets, k as int);
                    }
                    return Err(TimezError::ConfigShapeError { message: message.clone() });
                },
                _ => {},
            }
            assert(!sets(k as int));
            k += 1;
        }
        proof {
            lemma_first_absent(sources.len() as int, sets);
        }
        Err(TimezError::ConfigShapeError { message: String::from_str(MISSING_KEY) })
    }

    /// Looks every configured name up, in order. Either all of them are in
    /// the zone database, and their zones come back in the same order, or
    /// the first that is not is reported and no zone comes back.
    pub fn resolve(&self) -> (r: Result<Vec<Zone>, TimezError>)
        ensures
            r matches Ok(zones) ==> validation(self@) is Ok && zone_names(zones@) == self@,
            r matches Err(e) ==> validation(self@) is Err && validation(self@)->Err_0 == e@,
    {
        let ghost unknown = unknown_at(self@);
        let mut zones: Vec<Zone> = Vec::new();
        let mut i: usize = 0;
        while i < self.timezones.len()
            invariant
                i <= self.timezones.len(),
                self@.len() == self.timezones.len(),
                unknown == unknown_at(self@),
                never(i as int, unknown),
                zones.len() == i,
                forall|j: int| 0 <= j < i ==> (#[trigger] zones@[j])@ == self@[j],
            decreases self.timezones.len() - i,
        {
            assert(self@[i as int] == self.timezones@[i as int]@);
            match Zone::parse(self.timezones[i].as_str()) {
                Ok(zone) => {
                    zones.push(zone);
                },
                Err(e) => {
                    proof {
                        assert(unknown(i as int));
                        lemma_first_found(self@.len() as int, unknown, i as int);
                    }
                    return Err(e);
                },
            }
            assert(!unknown(i as int));
            i += 1;
        }
        proof {
            lemma_first_absent(self@.len() as int, unknown);
            assert(zone_names(zones@) =~= self@);
        }
        Ok(zones)
    }

    /// Checks that the zone database holds every configured name, and
    /// reports the first that it does not hold. The settings are not changed.
    pub fn validate(&self) -> (r: Result<(), TimezError>)
        ensures
            unit_result_view(r) == validation(self@),
    {
        match self.resolve() {
            Ok(_) => Ok(()),
            Err(e) => Err(e),
        }
    }
}

/// Whether the zone database holds every one of the names.
pub open spec fn all_known(names: Seq<Seq<char>>) -> bool {
    forall|i: int| 0 <= i < names.len() ==> zone_known(#[trigger] names[i])
}

/// Validation succeeds exactly when the zone database holds every
/// configured name.
pub proof fn lemma_validation_succeeds_iff_all_known(names: Seq<Seq<char>>)
    ensures
        validation(names) is Ok <==> all_known(names),
{
    let unknown = unknown_at(names);
    lemma_first_sound(names.len() as int, unknown);
    if all_known(names) {
        assert forall|j: int| 0 <= j < names.len() implies !#[trigger] unknown(j) by {
            assert(zone_known(names[j]));
        }
        lemma_first_absent(names.len() as int, unknown);
    } else {
        let i = choose|i: int| 0 <= i < names.len() && !zone_known(#[trigger] names[i]);
        assert(unknown(i));
    }
}

/// Where the name at `k` is the only one that the zone database does not
/// hold, validation fails, and the error carries exactly that name.
pub proof fn lemma_validation_names_the_unknown(names: Seq<Seq<char>>, k: int)
    requires
        0 <= k < names.len(),
        !zone_known(names[k]),
        forall|j: int| 0 <= j < names.len() && j != k ==> zone_known(#[trigger] names[j]),
    ensures
        validation(names) == Err::<(), TimezErrorView>(invalid_timezone(names[k])),
        validation(names) matches Err(TimezErrorView::InvalidTimezone { name, .. }) && name
            == names[k],
{
    let unknown = unknown_at(names);
    assert forall|j: int| 0 <= j < k implies !#[trigger] unknown(j) by {
        assert(zone_known(names[j]));
    }
    assert(unknown(k));
    lemma_first_found(names.len() as int, unknown, k);
}

/// Where several names are unknown, the error carries the first of them in
/// the configured order.
pub proof fn lemma_validation_names_the_first_unknown(names: Seq<Seq<char>>, k: int)
    requires
        0 <= k < names.len(),
        !zone_known(names[k]),
        forall|j: int| 0 <= j < k ==> zone_known(#[trigger] names[j]),
    ensures
        validation(names) == Err::<(), TimezErrorView>(invalid_timezone(names[k])),
{
    let unknown = unknown_at(names);
    assert forall|j: int| 0 <= j < k implies !#[trigger] unknown(j) by {
        assert(zone_known(names[j]));
    }
    assert(unknown(k));
    lemma_first_found(names.len() as int, unknown, k);
}

} // verus!
