//! A UTC instant held as plain values: whole seconds since the Unix epoch and
//! the nanoseconds past them.
use vstd::prelude::*;

use chrono::{DateTime, Utc};

verus! {

/// Whether `chrono::DateTime::<Utc>::from_timestamp` accepts the pair, that
/// is, whether it names an instant that chrono can represent.
pub uninterp spec fn timestamp_is_valid(seconds: i64, nanos: u32) -> bool;

/// The text `chrono::DateTime::<Utc>::to_rfc3339` writes for the instant at
/// the given timestamp.
pub uninterp spec fn rfc3339_text(seconds: i64, nanos: u32) -> Seq<char>;

/// Calls `chrono::DateTime::<Utc>::from_timestamp` and reports whether it
/// gave an instant; the answer is the name `timestamp_is_valid` of the pair.
#[verifier::external_body]
fn check_timestamp(seconds: i64, nanos: u32) -> (r: bool)
    ensures
        r == timestamp_is_valid(seconds, nanos),
{
    DateTime::<Utc>::from_timestamp(seconds, nanos).is_some()
}

/// Rebuilds the chrono instant from its timestamp and calls
/// `chrono::DateTime::<Utc>::to_rfc3339`; the text is the name
/// `rfc3339_text` of the pair.
#[verifier::external_body]
fn format_rfc3339(seconds: i64, nanos: u32) -> (r: String)
    requires
        timestamp_is_valid(seconds, nanos),
    ensures
        r@ == rfc3339_text(seconds, nanos),
{
    DateTime::<Utc>::from_timestamp(seconds, nanos).unwrap().to_rfc3339()
}

/// A UTC instant: whole seconds since 1970-01-01T00:00:00Z and the
/// nanoseconds past them (above one second only within a leap second).
#[derive(Debug, Clone, Copy, PartialEq, Eq, Structural)]
pub struct UtcInstant {
    seconds: i64,
    nanos: u32,
}

impl UtcInstant {
    #[verifier::type_invariant]
    spec fn wf(self) -> bool {
        timestamp_is_valid(self.seconds, self.nanos)
    }

    /// The seconds since the Unix epoch.
    pub closed spec fn seconds_spec(self) -> i64 {
        self.seconds
    }

    /// The nanoseconds past the whole seconds.
    pub closed spec fn nanos_spec(self) -> u32 {
        self.nanos
    }

    /// Makes the instant at the given timestamp, or `None` where chrono has no
    /// instant for it.
    pub fn from_timestamp(seconds: i64, nanos: u32) -> (r: Option<UtcInstant>)
        ensures
            r is Some <==> timestamp_is_valid(seconds, nanos),
            r matches Some(i) ==> i.seconds_spec() == seconds && i.nanos_spec() == nanos,
    {
        if check_timestamp(seconds, nanos) {
            Some(UtcInstant { seconds, nanos })
        } else {
            None
        }
    }

    /// Returns the seconds since the Unix epoch.
    pub fn timestamp(&self) -> (r: i64)
        ensures
            r == self.seconds_spec(),
    {
        self.seconds
    }

    /// Returns the nanoseconds past the whole seconds.
    pub fn timestamp_subsec_nanos(&self) -> (r: u32)
        ensures
            r == self.nanos_spec(),
    {
        self.nanos
    }

    /// Returns the RFC 3339 text of the instant.
    pub fn to_rfc3339(&self) -> (r: String)
        ensures
            r@ == rfc3339_text(self.seconds_spec(), self.nanos_spec()),
    {
        proof {
            use_type_invariant(self);
        }
        format_rfc3339(self.seconds, self.nanos)
    }
}

} // verus!
