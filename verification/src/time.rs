//! Points in time, as the database stores them.

use vstd::prelude::*;
use chrono::DateTime;

verus! {

/// The RFC 3339 text of the instant `seconds` and `nanos` after the epoch,
/// in UTC, or `None` where the calendar has no such instant.
pub uninterp spec fn rfc3339_text(seconds: i64, nanos: u32) -> Option<Seq<char>>;

/// Writes an instant as RFC 3339 text.
///
/// Calls `DateTime::from_timestamp`, which gives nothing for seconds out
/// of range or nanoseconds that make no sense, and `to_rfc3339` on what it
/// gives.
#[verifier::external_body]
fn format_rfc3339(seconds: i64, nanos: u32) -> (text: Option<String>)
    ensures
        match text {
            Some(t) => rfc3339_text(seconds, nanos) == Some(t@),
            None => rfc3339_text(seconds, nanos) is None,
        },
{
    DateTime::from_timestamp(seconds, nanos).map(|instant| instant.to_rfc3339())
}

/// An instant that the calendar can name.
#[derive(Debug, Clone, Copy, PartialEq, Eq)]
pub struct Timestamp {
    seconds: i64,
    nanos: u32,
}

impl Timestamp {
    #[verifier::type_invariant]
    spec fn on_calendar(self) -> bool {
        rfc3339_text(self.seconds, self.nanos) is Some
    }

    /// Whole seconds since the epoch.
    pub closed spec fn spec_seconds(self) -> i64 {
        self.seconds
    }

    /// Nanoseconds past the whole second.
    pub closed spec fn spec_nanos(self) -> u32 {
        self.nanos
    }

    /// The RFC 3339 text of this instant.
    pub open spec fn text(self) -> Seq<char> {
        rfc3339_text(self.spec_seconds(), self.spec_nanos())->0
    }

    /// The instant `seconds` and `nanos` after the epoch, if the calendar
    /// has it.
    pub fn new(seconds: i64, nanos: u32) -> (instant: Option<Timestamp>)
        ensures
            instant is Some <==> rfc3339_text(seconds, nanos) is Some,
            instant matches Some(t) ==> t.spec_seconds() == seconds && t.spec_nanos() == nanos,
    {
        match format_rfc3339(seconds, nanos) {
            Some(_) => Some(Timestamp { seconds, nanos }),
            None => None,
        }
    }

    /// Whole seconds since the epoch.
    pub fn seconds(&self) -> (seconds: i64)
        ensures
            seconds == self.spec_seconds(),
    {
        self.seconds
    }

    /// Nanoseconds past the whole second.
    pub fn nanos(&self) -> (nanos: u32)
        ensures
            nanos == self.spec_nanos(),
    {
        self.nanos
    }

    /// This instant as RFC 3339 text.
    pub fn to_rfc3339(&self) -> (text: String)
        ensures
            text@ == self.text(),
            rfc3339_text(self.spec_seconds(), self.spec_nanos()) == Some(text@),
    {
        proof {
            use_type_invariant(self);
        }
        match format_rfc3339(self.seconds, self.nanos) {
            Some(text) => text,
            None => vstd::pervasive::unreached(),
        }
    }
}

} // verus!
