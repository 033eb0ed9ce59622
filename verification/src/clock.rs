//! Points in time, and their text forms in UTC.

use vstd::prelude::*;

verus! {

/// The first second that the calendar can represent: the beginning of the
/// year -262143.
pub const MIN_SECS: i64 = -8_334_601_228_800;

/// The last second that the calendar can represent: the end of the year
/// 262142.
pub const MAX_SECS: i64 = 8_210_266_876_799;

/// Whether a count of seconds since the epoch, with a nanosecond part, names an
/// instant that the calendar can represent: the second lies within the years
/// of the calendar, and the nanoseconds stay below a second, or below two
/// seconds in the last second of a minute, where a leap second may stand.
pub open spec fn spec_valid_instant(secs: i64, nanos: u32) -> bool {
    &&& MIN_SECS <= secs <= MAX_SECS
    &&& nanos < 1_000_000_000 || (nanos < 2_000_000_000 && secs as int % 60 == 59)
}

/// The text of an instant in UTC under a strftime pattern.
pub uninterp spec fn spec_format_utc(secs: i64, nanos: u32, pattern: Seq<char>) -> Seq<char>;

/// The RFC 3339 text of an instant in UTC.
pub uninterp spec fn spec_rfc3339_utc(secs: i64, nanos: u32) -> Seq<char>;

/// Compact stamp used in file names, such as `20240131_235959`.
pub open spec fn stamp_pattern() -> Seq<char> {
    "%Y%m%d_%H%M%S"@
}

/// Calendar date, such as `2024-01-31`.
pub open spec fn iso_date_pattern() -> Seq<char> {
    "%Y-%m-%d"@
}

/// Long date, such as `January 31, 2024`.
pub open spec fn long_date_pattern() -> Seq<char> {
    "%B %d, %Y"@
}

/// The patterns this library formats instants with.
pub open spec fn is_date_pattern(pattern: Seq<char>) -> bool {
    pattern == stamp_pattern() || pattern == iso_date_pattern() || pattern == long_date_pattern()
}

/// An instant in UTC: seconds since the epoch and a nanosecond part. Every value
/// names an instant that the calendar can represent.
#[derive(Clone, Copy, Debug)]
pub struct Timestamp {
    secs: i64,
    nanos: u32,
}

/// `chrono::Utc::now`: the current instant, which is one the calendar can
/// represent. Nothing else is promised of it.
#[verifier::external_body]
pub(crate) fn utc_now() -> (parts: (i64, u32))
    ensures
        spec_valid_instant(parts.0, parts.1),
{
    let now = chrono::Utc::now();
    (now.timestamp(), now.timestamp_subsec_nanos())
}

/// `chrono::DateTime::format`, written out with `to_string`, on the instant that
/// `from_timestamp` makes of the parts. It is asked only for instants that
/// `from_timestamp` accepts, which are the representable ones, and for
/// patterns made of valid items.
#[verifier::external_body]
pub(crate) fn format_utc(secs: i64, nanos: u32, pattern: &str) -> (text: String)
    requires
        spec_valid_instant(secs, nanos),
        is_date_pattern(pattern@),
    ensures
        text@ == spec_format_utc(secs, nanos, pattern@),
{
    chrono::DateTime::from_timestamp(secs, nanos).unwrap().format(pattern).to_string()
}

/// `chrono::DateTime::to_rfc3339` on the instant that `from_timestamp` makes of
/// the parts. It is asked only for instants that `from_timestamp` accepts,
/// which are the representable ones.
#[verifier::external_body]
pub(crate) fn rfc3339_utc(secs: i64, nanos: u32) -> (text: String)
    requires
        spec_valid_instant(secs, nanos),
    ensures
        text@ == spec_rfc3339_utc(secs, nanos),
{
    chrono::DateTime::from_timestamp(secs, nanos).unwrap().to_rfc3339()
}

impl Timestamp {
    #[verifier::type_invariant]
    spec fn representable(self) -> bool {
        spec_valid_instant(self.secs, self.nanos)
    }

    pub closed spec fn spec_secs(self) -> i64 {
        self.secs
    }

    pub closed spec fn spec_nanos(self) -> u32 {
        self.nanos
    }

    /// Whether `self` is strictly later than `other`.
    pub open spec fn is_after(self, other: Timestamp) -> bool {
        self.spec_secs() > other.spec_secs() || (self.spec_secs() == other.spec_secs()
            && self.spec_nanos() > other.spec_nanos())
    }

    /// The instant with the given parts, if the calendar can represent it.
    pub fn from_parts(secs: i64, nanos: u32) -> (t: Option<Timestamp>)
        ensures
            t.is_some() == spec_valid_instant(secs, nanos),
            t.is_some() ==> t.unwrap().spec_secs() == secs && t.unwrap().spec_nanos() == nanos,
    {
        if secs < MIN_SECS || secs > MAX_SECS || nanos >= 2_000_000_000 {
            return None;
        }
        if nanos >= 1_000_000_000 {
            // The second within its minute, counted from the minute's start
            // also before the epoch.
            let within: i64 = if secs >= 0 {
                secs % 60
            } else {
                59 - ((-(secs + 1)) % 60)
            };
            if within != 59 {
                return None;
            }
        }
        Some(Timestamp { secs, nanos })
    }

    /// The current instant. Whatever the time is, it is an instant that the
    /// calendar can represent.
    pub fn now() -> (t: Timestamp)
        ensures
            spec_valid_instant(t.spec_secs(), t.spec_nanos()),
    {
        let parts = utc_now();
        Timestamp { secs: parts.0, nanos: parts.1 }
    }

    pub fn secs(&self) -> (secs: i64)
        ensures
            secs == self.spec_secs(),
    {
        self.secs
    }

    pub fn nanos(&self) -> (nanos: u32)
        ensures
            nanos == self.spec_nanos(),
    {
        self.nanos
    }

    /// Whether `self` is strictly later than `other`.
    pub fn later_than(&self, other: &Timestamp) -> (later: bool)
        ensures
            later == self.is_after(*other),
    {
        self.secs > other.secs || (self.secs == other.secs && self.nanos > other.nanos)
    }

    /// The stamp used in file names.
    pub fn file_stamp(&self) -> (text: String)
        ensures
            text@ == spec_format_utc(self.spec_secs(), self.spec_nanos(), stamp_pattern()),
    {
        proof {
            use_type_invariant(self);
        }
        format_utc(self.secs, self.nanos, "%Y%m%d_%H%M%S")
    }

    /// The calendar date, year first.
    pub fn iso_date(&self) -> (text: String)
        ensures
            text@ == spec_format_utc(self.spec_secs(), self.spec_nanos(), iso_date_pattern()),
    {
        proof {
            use_type_invariant(self);
        }
        format_utc(self.secs, self.nanos, "%Y-%m-%d")
    }

    /// The date written out with the month's name.
    pub fn long_date(&self) -> (text: String)
        ensures
            text@ == spec_format_utc(self.spec_secs(), self.spec_nanos(), long_date_pattern()),
    {
        proof {
            use_type_invariant(self);
        }
        format_utc(self.secs, self.nanos, "%B %d, %Y")
    }

    /// The RFC 3339 text of the instant.
    pub fn to_rfc3339(&self) -> (text: String)
        ensures
            text@ == spec_rfc3339_utc(self.spec_secs(), self.spec_nanos()),
    {
        proof {
            use_type_invariant(self);
        }
        rfc3339_utc(self.secs, self.nanos)
    }
}

} // verus!
