//! Instants with an explicit offset from UTC, and their textual forms.

use std::fmt::Write;
use vstd::prelude::*;
use crate::text::opt_text;

verus! {

/// Seconds in the look-back window that stands in for a missing cursor.
pub const DAY_SECONDS: i64 = 86_400;

/// An instant: whole seconds and nanoseconds since the Unix epoch, and the
/// offset from UTC, in seconds east, under which it is written.
#[derive(Clone, Copy, Debug, PartialEq, Eq, Structural)]
pub struct Timestamp {
    pub secs: i64,
    pub nanos: u32,
    pub offset_secs: i32,
}

impl Timestamp {
    /// `self` is strictly later than `other`; the offsets play no part.
    pub open spec fn after(self, other: Timestamp) -> bool {
        self.secs > other.secs || (self.secs == other.secs && self.nanos > other.nanos)
    }

    /// `self` is no earlier than `other`.
    pub open spec fn at_or_after(self, other: Timestamp) -> bool {
        !other.after(self)
    }

    /// The instant `seconds` before `self`, under the same offset.
    pub open spec fn earlier_by(self, seconds: int) -> Timestamp {
        Timestamp { secs: (self.secs - seconds) as i64, nanos: self.nanos, offset_secs: self.offset_secs }
    }

    /// An instant from its parts.
    pub fn new(secs: i64, nanos: u32, offset_secs: i32) -> (r: Timestamp)
        ensures
            r == (Timestamp { secs, nanos, offset_secs }),
    {
        Timestamp { secs, nanos, offset_secs }
    }

    /// Whether `self` is strictly later than `other`.
    pub fn is_after(&self, other: &Timestamp) -> (r: bool)
        ensures
            r == self.after(*other),
    {
        self.secs > other.secs || (self.secs == other.secs && self.nanos > other.nanos)
    }

    /// The instant one day before `self`; `None` where that lies below the
    /// range of the seconds.
    pub fn day_before(&self) -> (r: Option<Timestamp>)
        ensures
            self.secs - DAY_SECONDS >= i64::MIN ==> r == Some(self.earlier_by(DAY_SECONDS as int)),
            self.secs - DAY_SECONDS < i64::MIN ==> r.is_none(),
    {
        if self.secs >= i64::MIN + DAY_SECONDS {
            Some(Timestamp { secs: self.secs - DAY_SECONDS, nanos: self.nanos, offset_secs: self.offset_secs })
        } else {
            None
        }
    }
}

/// The instant that chrono reads from a date in the RFC 2822 form; `None`
/// where it rejects the text.
pub uninterp spec fn rfc2822_timestamp(s: Seq<char>) -> Option<Timestamp>;

/// The instant that chrono reads from a date in the RFC 3339 form; `None`
/// where it rejects the text.
pub uninterp spec fn rfc3339_timestamp(s: Seq<char>) -> Option<Timestamp>;

/// The RFC 3339 text that chrono writes for an instant; `None` where the
/// instant or its offset is outside what chrono represents.
pub uninterp spec fn rfc3339_text(t: Timestamp) -> Option<Seq<char>>;

/// The text that chrono writes for the UTC instant of `secs` and `nanos`
/// under the strftime pattern `pattern`; `None` where the instant is outside
/// what chrono represents or the pattern is not valid.
pub uninterp spec fn utc_formatted(secs: int, nanos: int, pattern: Seq<char>) -> Option<Seq<char>>;

/// Calls `chrono::DateTime::parse_from_rfc2822`. Trusted: the result is the
/// named instant of the text, `None` on a parse error.
#[verifier::external_body]
pub(crate) fn parse_rfc2822(s: &str) -> (r: Option<Timestamp>)
    ensures
        r == rfc2822_timestamp(s@),
{
    chrono::DateTime::parse_from_rfc2822(s).ok().map(|d| Timestamp {
        secs: d.timestamp(),
        nanos: d.timestamp_subsec_nanos(),
        offset_secs: d.offset().local_minus_utc(),
    })
}

/// Calls `chrono::DateTime::parse_from_rfc3339`. Trusted: the result is the
/// named instant of the text, `None` on a parse error.
#[verifier::external_body]
pub(crate) fn parse_rfc3339(s: &str) -> (r: Option<Timestamp>)
    ensures
        r == rfc3339_timestamp(s@),
{
    chrono::DateTime::parse_from_rfc3339(s).ok().map(|d| Timestamp {
        secs: d.timestamp(),
        nanos: d.timestamp_subsec_nanos(),
        offset_secs: d.offset().local_minus_utc(),
    })
}

/// Calls `chrono::DateTime::to_rfc3339` on the instant rebuilt with
/// `DateTime::from_timestamp` and `FixedOffset::east_opt`. Trusted: the
/// result is the named text, `None` where either constructor refuses.
#[verifier::external_body]
pub(crate) fn to_rfc3339(t: &Timestamp) -> (r: Option<String>)
    ensures
        opt_text(r) == rfc3339_text(*t),
{
    let offset = chrono::FixedOffset::east_opt(t.offset_secs)?;
    let utc = chrono::DateTime::from_timestamp(t.secs, t.nanos)?;
    Some(utc.with_timezone(&offset).to_rfc3339())
}

/// Calls `chrono::DateTime::format` on the UTC instant built with
/// `DateTime::from_timestamp`. Trusted: the result is the named text, `None`
/// where the constructor refuses or the pattern cannot be written.
#[verifier::external_body]
pub(crate) fn format_utc(secs: i64, nanos: u32, pattern: &str) -> (r: Option<String>)
    ensures
        opt_text(r) == utc_formatted(secs as int, nanos as int, pattern@),
{
    let utc = chrono::DateTime::from_timestamp(secs, nanos)?;
    let mut out = String::new();
    write!(out, "{}", utc.format(pattern)).ok()?;
    Some(out)
}

} // verus!
