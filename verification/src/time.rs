//! Instants on the UTC time line and their RFC 3339 text.

use vstd::prelude::*;

verus! {

/// Nanoseconds in one second.
pub const NANOS_PER_SEC: u32 = 1_000_000_000;

/// Seconds since the Unix epoch at `0000-01-01T00:00:00Z`.
pub const FIRST_RFC3339_SECOND: i64 = -62_167_219_200;

/// Seconds since the Unix epoch at `9999-12-31T23:59:59Z`.
pub const LAST_RFC3339_SECOND: i64 = 253_402_300_799;

/// An instant: whole seconds since the Unix epoch (negative before it) and
/// the nanoseconds that have passed since that second began.
#[derive(Debug, Clone, Copy, PartialEq, Eq, Structural)]
pub struct Timestamp {
    pub secs: i64,
    pub nanos: u32,
}

/// The text that chrono prints for the instant `secs`, `nanos`: date and time
/// in UTC with a `Z` suffix and as many fraction digits (0, 3, 6 or 9) as the
/// nanoseconds need, which is RFC 3339 for the years 0000 to 9999. `None`
/// where chrono has no `DateTime<Utc>` for the pair.
pub uninterp spec fn rfc3339_text(secs: i64, nanos: u32) -> Option<Seq<char>>;

/// The instant that chrono reads from `text` as a `DateTime<Utc>`, as seconds
/// and nanoseconds, or `None` where chrono rejects the text.
pub uninterp spec fn rfc3339_instant(text: Seq<char>) -> Option<(i64, u32)>;

/// Prints an instant through `chrono::DateTime::<Utc>::from_timestamp` and
/// `to_rfc3339_opts(SecondsFormat::AutoSi, true)`.
///
/// Trusted: the result is the named text of the pair, and chrono has a
/// `DateTime<Utc>` for every whole-nanosecond instant of the years 0000 to
/// 9999 (its range is wider: about 262,000 years either side of the epoch).
#[verifier::external_body]
fn print_rfc3339(secs: i64, nanos: u32) -> (text: Option<String>)
    ensures
        match text {
            Some(t) => rfc3339_text(secs, nanos) == Some(t@),
            None => rfc3339_text(secs, nanos) is None,
        },
        FIRST_RFC3339_SECOND <= secs <= LAST_RFC3339_SECOND && nanos < NANOS_PER_SEC
            ==> text is Some,
{
    chrono::DateTime::<chrono::Utc>::from_timestamp(secs, nanos)
        .map(|instant| instant.to_rfc3339_opts(chrono::SecondsFormat::AutoSi, true))
}

/// Reads an instant through chrono's `FromStr` for `DateTime<Utc>` and hands
/// back its `timestamp()` and `timestamp_subsec_nanos()`.
///
/// Trusted: the result is the named instant of the text.
#[verifier::external_body]
fn read_rfc3339(text: &str) -> (instant: Option<(i64, u32)>)
    ensures
        instant == rfc3339_instant(text@),
{
    text.parse::<chrono::DateTime<chrono::Utc>>()
        .ok()
        .map(|instant| (instant.timestamp(), instant.timestamp_subsec_nanos()))
}

impl Timestamp {
    /// Nanoseconds since the Unix epoch.
    pub open spec fn as_nanos(self) -> int {
        self.secs * (NANOS_PER_SEC as int) + self.nanos
    }

    /// Whether `timeout_secs` seconds after `self` is no later than `now`.
    pub open spec fn expired_by(self, timeout_secs: u64, now: Timestamp) -> bool {
        self.as_nanos() + timeout_secs * (NANOS_PER_SEC as int) <= now.as_nanos()
    }

    /// Whether the instant lies in the years 0000 to 9999 with a whole number
    /// of nanoseconds below one second.
    pub open spec fn in_rfc3339_years(self) -> bool {
        FIRST_RFC3339_SECOND <= self.secs <= LAST_RFC3339_SECOND && self.nanos < NANOS_PER_SEC
    }

    /// The wire text of the instant, if it has one.
    pub open spec fn wire_text(self) -> Option<Seq<char>> {
        rfc3339_text(self.secs, self.nanos)
    }

    /// The instant that a wire text stands for, if any.
    pub open spec fn from_wire_text(text: Seq<char>) -> Option<Timestamp> {
        match rfc3339_instant(text) {
            Some((secs, nanos)) => Some(Timestamp { secs, nanos }),
            None => None,
        }
    }

    pub fn new(secs: i64, nanos: u32) -> (t: Timestamp)
        ensures
            t == (Timestamp { secs, nanos }),
    {
        Timestamp { secs, nanos }
    }

    /// Nanoseconds since the Unix epoch, in a type wide enough for every
    /// `Timestamp` and for any timeout in seconds added to it.
    pub fn nanos_since_epoch(&self) -> (n: i128)
        ensures
            n == self.as_nanos(),
    {
        let secs: i128 = self.secs as i128;
        let nanos: i128 = self.nanos as i128;
        secs * 1_000_000_000 + nanos
    }

    /// Whether a deadline `timeout_secs` seconds after `self` has been reached
    /// at `now`.
    pub fn has_expired(&self, timeout_secs: u64, now: &Timestamp) -> (expired: bool)
        ensures
            expired == self.expired_by(timeout_secs, *now),
    {
        let timeout: i128 = timeout_secs as i128;
        let deadline: i128 = self.nanos_since_epoch() + timeout * 1_000_000_000;
        deadline <= now.nanos_since_epoch()
    }

    /// The RFC 3339 text of the instant, `None` where it has none.
    pub fn to_rfc3339(&self) -> (text: Option<String>)
        ensures
            match text {
                Some(t) => self.wire_text() == Some(t@),
                None => self.wire_text() is None,
            },
            self.in_rfc3339_years() ==> text is Some,
    {
        print_rfc3339(self.secs, self.nanos)
    }

    /// Reads an RFC 3339 text, `None` where it is not one.
    pub fn parse_rfc3339(text: &str) -> (t: Option<Timestamp>)
        ensures
            t == Timestamp::from_wire_text(text@),
    {
        match read_rfc3339(text) {
            Some((secs, nanos)) => Some(Timestamp { secs, nanos }),
            None => None,
        }
    }
}

} // verus!
