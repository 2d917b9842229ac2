//! Instants of UTC time, read and rendered by `chrono`.

use chrono::DateTime;
use chrono::Utc;
use crate::seqs::option_view;
use vstd::prelude::*;

verus! {

/// An instant of UTC time: whole seconds since the Unix epoch and the
/// nanoseconds within that second.
#[derive(Clone, Copy, Debug, PartialEq, Eq, Structural)]
pub struct Timestamp {
    pub secs: i64,
    pub nanos: u32,
}

/// The text that `chrono` renders for the UTC instant `(secs, nanos)` under
/// the strftime `pattern`; `None` where the instant is outside the range of
/// `DateTime<Utc>` or the pattern is not a valid format.
pub uninterp spec fn utc_format(secs: i64, nanos: u32, pattern: Seq<char>) -> Option<Seq<char>>;

/// Reads the current time with `chrono::Utc::now`. Nothing is promised of the
/// instant that comes back. `Utc::now` panics where the system clock stands
/// before the Unix epoch.
#[verifier::external_body]
pub(crate) fn now() -> (t: Timestamp) {
    let instant = Utc::now();
    Timestamp { secs: instant.timestamp(), nanos: instant.timestamp_subsec_nanos() }
}

/// Rebuilds the instant with `DateTime::from_timestamp` and renders it with
/// `DateTime::format`; the result is the one named by `utc_format`. An
/// instant that `chrono` cannot hold and a pattern that it cannot render both
/// give `None`.
#[verifier::external_body]
pub(crate) fn format_utc(t: Timestamp, pattern: &str) -> (r: Option<String>)
    ensures
        option_view(r) == utc_format(t.secs, t.nanos, pattern@),
{
    let instant: DateTime<Utc> = DateTime::from_timestamp(t.secs, t.nanos)?;
    let mut out = String::new();
    match instant.format(pattern).write_to(&mut out) {
        Ok(()) => Some(out),
        Err(_) => None,
    }
}

impl Timestamp {
    /// Whether `self` is strictly earlier than `other`.
    pub open spec fn spec_earlier_than(self, other: Timestamp) -> bool {
        self.secs < other.secs || (self.secs == other.secs && self.nanos < other.nanos)
    }

    /// Whether `self` is strictly earlier than `other`.
    #[verifier::when_used_as_spec(spec_earlier_than)]
    pub fn earlier_than(self, other: Timestamp) -> (r: bool)
        ensures
            r == self.spec_earlier_than(other),
    {
        self.secs < other.secs || (self.secs == other.secs && self.nanos < other.nanos)
    }
}

} // verus!
