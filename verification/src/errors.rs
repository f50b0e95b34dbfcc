//! Everything that can go wrong, and what the user is told about it.

use vstd::prelude::*;

verus! {

/// A failure of loading, validating, parsing or converting.
#[derive(Clone, Debug, PartialEq, Eq)]
pub enum TimezError {
    /// A settings source that had to be there was not.
    ConfigNotFound { source: String },
    /// A settings source was found but could not be read as key/value data.
    ConfigParseError { message: String },
    /// The `timezones` key is missing or is not a list of strings.
    ConfigShapeError { message: String },
    /// A configured or requested zone name is not in the zone database.
    InvalidTimezone { name: String, message: String },
    /// The text given for a timestamp is no `YYYY-MM-DD HH:MM:SS`.
    TimestampParseError { raw: String, message: String },
    /// The time that a moment has in a zone lies beyond the calendar, or
    /// the zone is a day or more away from UTC.
    LocalTimeOutOfRange { zone: String },
}

/// A [`TimezError`] with its strings as sequences of characters.
pub enum TimezErrorView {
    ConfigNotFound { source: Seq<char> },
    ConfigParseError { message: Seq<char> },
    ConfigShapeError { message: Seq<char> },
    InvalidTimezone { name: Seq<char>, message: Seq<char> },
    TimestampParseError { raw: Seq<char>, message: Seq<char> },
    LocalTimeOutOfRange { zone: Seq<char> },
}

impl View for TimezError {
    type V = TimezErrorView;

    open spec fn view(&self) -> TimezErrorView {
        match *self {
            TimezError::ConfigNotFound { source } => TimezErrorView::ConfigNotFound {
                source: source@,
            },
            TimezError::ConfigParseError { message } => TimezErrorView::ConfigParseError {
                message: message@,
            },
            TimezError::ConfigShapeError { message } => TimezErrorView::ConfigShapeError {
                message: message@,
            },
            TimezError::InvalidTimezone { name, message } => TimezErrorView::InvalidTimezone {
                name: name@,
                message: message@,
            },
            TimezError::TimestampParseError { raw, message } => TimezErrorView::TimestampParseError {
                raw: raw@,
                message: message@,
            },
            TimezError::LocalTimeOutOfRange { zone } => TimezErrorView::LocalTimeOutOfRange {
                zone: zone@,
            },
        }
    }
}

/// The line that tells the user about an error.
pub open spec fn error_text(e: TimezErrorView) -> Seq<char> {
    match e {
        TimezErrorView::ConfigNotFound { source } => "configuration file \""@ + source
            + "\" not found"@,
        TimezErrorView::ConfigParseError { message } => message,
        TimezErrorView::ConfigShapeError { message } => message,
        TimezErrorView::InvalidTimezone { name, message } => "the timezone string '"@ + name
            + "' is not valid: "@ + message,
        TimezErrorView::TimestampParseError { raw, message } => message,
        TimezErrorView::LocalTimeOutOfRange { zone } => "the local time in '"@ + zone
            + "' is out of range"@,
    }
}

impl TimezError {
    /// The line that tells the user about this error. Diagnostics that came
    /// from a parser are handed on word for word.
    pub fn message(&self) -> (r: String)
        ensures
            r@ == error_text(self@),
    {
        match self {
            TimezError::ConfigNotFound { source } => {
                let mut out = String::from_str("configuration file \"");
                out.append(source.as_str());
                out.append("\" not found");
                out
            },
            TimezError::ConfigParseError { message } => message.clone(),
            TimezError::ConfigShapeError { message } => message.clone(),
            TimezError::InvalidTimezone { name, message } => {
                let mut out = String::from_str("the timezone string '");
                out.append(name.as_str());
                out.append("' is not valid: ");
                out.append(message.as_str());
                out
            },
            TimezError::TimestampParseError { raw: _, message } => message.clone(),
            TimezError::LocalTimeOutOfRange { zone } => {
                let mut out = String::from_str("the local time in '");
                out.append(zone.as_str());
                out.append("' is out of range");
                out
            },
        }
    }
}

} // verus!
