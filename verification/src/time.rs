//! Instants as the credential issuer gives them, and how they are written.

use aws_smithy_types_convert::date_time::DateTimeExt;
use vstd::prelude::*;

verus! {

/// An instant: seconds since the Unix epoch and the nanoseconds past that
/// second. A larger nanosecond count is a later instant, also before the
/// epoch.
#[derive(Debug, Clone, Copy, PartialEq, Eq, Structural)]
pub struct Timestamp {
    pub seconds: i64,
    pub subsecond_nanos: u32,
}

/// The instant `seconds` and `subsecond_nanos` in UTC as chrono writes it
/// for RFC 3339, with `Z` for the zone and as many fraction digits as the
/// nanoseconds need (none, three, six or nine); `None` where chrono has no
/// date for the instant.
pub uninterp spec fn utc_rfc3339(seconds: int, subsecond_nanos: int) -> Option<Seq<char>>;

/// The text names its zone by a final `Z`.
pub open spec fn ends_in_z(text: Seq<char>) -> bool {
    text.len() > 0 && text.last() == 'Z'
}

/// Converts the instant with `aws_smithy_types_convert`'s
/// `DateTimeExt::to_chrono_utc` and writes the result with chrono's
/// `DateTime::to_rfc3339_opts(SecondsFormat::AutoSi, true)`, which is how
/// chrono serialises a `DateTime<Utc>`. The conversion fails where chrono's
/// `DateTime::from_timestamp` finds the seconds out of range or the
/// nanoseconds invalid. The contract claims that the outcome depends on the
/// two numbers alone, and gives it its name; and that the text ends in `Z`,
/// which chrono writes last, for the zone, when it is asked to and the
/// offset from UTC is zero.
#[verifier::external_body]
fn chrono_utc_rfc3339(seconds: i64, subsecond_nanos: u32) -> (text: Option<String>)
    ensures
        match text {
            Some(written) => utc_rfc3339(seconds as int, subsecond_nanos as int) == Some(
                written@,
            ) && ends_in_z(written@),
            None => utc_rfc3339(seconds as int, subsecond_nanos as int) is None,
        },
{
    let mut instant = aws_smithy_types::DateTime::from_secs(seconds);
    instant.set_subsec_nanos(subsecond_nanos);
    match instant.to_chrono_utc() {
        Ok(utc) => Some(utc.to_rfc3339_opts(chrono::SecondsFormat::AutoSi, true)),
        Err(_) => None,
    }
}

impl Timestamp {
    /// The instant in UTC as RFC 3339 text, as far as it has a date.
    pub open spec fn rfc3339(&self) -> Option<Seq<char>> {
        utc_rfc3339(self.seconds as int, self.subsecond_nanos as int)
    }

    /// The instant in UTC as RFC 3339 text, with `Z` for the zone; `None`
    /// where it has no date.
    pub fn to_rfc3339(&self) -> (text: Option<String>)
        ensures
            match text {
                Some(written) => self.rfc3339() == Some(written@) && ends_in_z(written@),
                None => self.rfc3339() is None,
            },
    {
        chrono_utc_rfc3339(self.seconds, self.subsecond_nanos)
    }
}

} // verus!
