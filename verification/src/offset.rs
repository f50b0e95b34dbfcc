//! Offsets from UTC and the two ways they are written.

use vstd::prelude::*;
use crate::text::{push_two_digits, two_digits};

verus! {

/// `'-'` for an offset west of Greenwich, `'+'` otherwise.
pub open spec fn offset_sign(seconds: int) -> char {
    if seconds < 0 {
        '-'
    } else {
        '+'
    }
}

/// The size of an offset, without its direction.
pub open spec fn offset_size(seconds: int) -> int {
    if seconds < 0 {
        -seconds
    } else {
        seconds
    }
}

/// An offset with colons: `+HH:MM`, or `+HH:MM:SS` where it has odd seconds.
pub open spec fn colon_offset_text(seconds: int) -> Seq<char> {
    let size = offset_size(seconds);
    let whole = seq![offset_sign(seconds)] + two_digits(size / 3600) + seq![':'] + two_digits(
        size / 60 % 60,
    );
    if size % 60 == 0 {
        whole
    } else {
        whole + seq![':'] + two_digits(size % 60)
    }
}

/// An offset in four digits, `+HHMM`; seconds beyond the minute are dropped.
pub open spec fn compact_offset_text(seconds: int) -> Seq<char> {
    let size = offset_size(seconds);
    seq![offset_sign(seconds)] + two_digits(size / 3600) + two_digits(size / 60 % 60)
}

/// Whether a number of seconds is less than a day either way.
pub open spec fn valid_offset(seconds: int) -> bool {
    -86_400 < seconds < 86_400
}

/// Local time minus UTC, in seconds, always less than a day.
#[derive(Clone, Copy, Debug, PartialEq, Eq)]
pub struct UtcOffset {
    seconds: i32,
}

impl View for UtcOffset {
    type V = int;

    closed spec fn view(&self) -> int {
        self.seconds as int
    }
}

impl UtcOffset {
    #[verifier::type_invariant]
    spec fn well_formed(self) -> bool {
        valid_offset(self.seconds as int)
    }

    /// An offset of `seconds` east of Greenwich, if that is less than a day.
    pub fn new(seconds: i32) -> (r: Option<UtcOffset>)
        ensures
            r is Some <==> valid_offset(seconds as int),
            r matches Some(o) ==> o@ == seconds,
    {
        if -86_400 < seconds && seconds < 86_400 {
            Some(UtcOffset { seconds })
        } else {
            None
        }
    }

    /// The offset in seconds east of Greenwich.
    pub fn seconds(&self) -> (r: i32)
        ensures
            r == self@,
            valid_offset(r as int),
    {
        proof {
            use_type_invariant(self);
        }
        self.seconds
    }

    /// The offset as `+HH:MM` or, with odd seconds, `+HH:MM:SS`.
    pub fn colon_text(&self) -> (r: String)
        ensures
            r@ == colon_offset_text(self@),
    {
        let seconds: i32 = self.seconds();
        let mut out = sign_string(seconds);
        let size: u32 = size_of(seconds);
        push_two_digits(&mut out, size / 3600);
        out.append(":");
        push_two_digits(&mut out, size / 60 % 60);
        if size % 60 != 0 {
            out.append(":");
            push_two_digits(&mut out, size % 60);
        }
        proof {
            reveal_strlit(":");
            assert(out@ =~= colon_offset_text(self@));
        }
        out
    }

    /// The offset as `+HHMM`.
    pub fn compact_text(&self) -> (r: String)
        ensures
            r@ == compact_offset_text(self@),
    {
        let seconds: i32 = self.seconds();
        let mut out = sign_string(seconds);
        let size: u32 = size_of(seconds);
        push_two_digits(&mut out, size / 3600);
        push_two_digits(&mut out, size / 60 % 60);
        proof {
            assert(out@ =~= compact_offset_text(self@));
        }
        out
    }
}

/// A new string holding the sign of an offset.
fn sign_string(seconds: i32) -> (r: String)
    ensures
        r@ == seq![offset_sign(seconds as int)],
{
    proof {
        reveal_strlit("-");
        reveal_strlit("+");
    }
    let r = if seconds < 0 {
        String::from_str("-")
    } else {
        String::from_str("+")
    };
    assert(r@ =~= seq![offset_sign(seconds as int)]);
    r
}

/// The size of a valid offset as an unsigned number.
fn size_of(seconds: i32) -> (r: u32)
    requires
        valid_offset(seconds as int),
    ensures
        r == offset_size(seconds as int),
        r < 86_400,
{
    if seconds < 0 {
        (-seconds) as u32
    } else {
        seconds as u32
    }
}

} // verus!
