//! Wall-clock instants.
//!
//! An instant is held as whole seconds since the Unix epoch plus a
//! sub-second nanosecond count, which is exactly what `chrono`'s
//! `DateTime<Utc>` carries for every instant it can represent. The
//! derived ordering (seconds first, then nanoseconds) is chronological.

use vstd::prelude::*;

verus! {

/// Earliest second `chrono` represents (`DateTime::<Utc>::MIN_UTC`,
/// 1 January of year -262143).
pub const MIN_UTC_SECS: i64 = -8334601315200i64;

/// Latest second `chrono` represents (`DateTime::<Utc>::MAX_UTC`,
/// 31 December of year 262142, 23:59:59).
pub const MAX_UTC_SECS: i64 = 8210266876799i64;

/// Nanoseconds in one second.
pub const NANOS_PER_SEC: u32 = 1_000_000_000u32;

/// A UTC instant: seconds since 1970-01-01T00:00:00Z and the nanoseconds
/// past that second.
#[derive(Clone, Copy, Debug, PartialEq, Eq, Hash, PartialOrd, Ord, Structural)]
pub struct Timestamp {
    pub secs: i64,
    pub nanos: u32,
}

impl Timestamp {
    /// The instant lies in the range `chrono` can render, and is not a
    /// leap-second instant.
    pub open spec fn representable(self) -> bool {
        &&& MIN_UTC_SECS <= self.secs <= MAX_UTC_SECS
        &&& self.nanos < NANOS_PER_SEC
    }

    /// The current instant (as `chrono::Utc::now` reads it, which
    /// panics on a system clock set before 1970).
    pub fn now() -> (t: Timestamp)
        ensures
            t.representable(),
            t.secs >= 0,
    {
        utc_now()
    }

    /// The instant `secs` seconds later, nanoseconds unchanged; `None`
    /// when the result would leave the `i64` range.
    pub fn plus_seconds(self, secs: i64) -> (r: Option<Timestamp>)
        ensures
            match r {
                Some(t) => t.secs == self.secs + secs && t.nanos == self.nanos,
                None => !(i64::MIN <= self.secs + secs <= i64::MAX),
            },
    {
        match self.secs.checked_add(secs) {
            Some(s) => Some(Timestamp { secs: s, nanos: self.nanos }),
            None => None,
        }
    }

    /// RFC 3339 rendering of the instant (for example
    /// `2026-04-23T10:15:00.123456789+00:00`).
    pub fn to_rfc3339(&self) -> (s: String)
        requires
            self.representable(),
        ensures
            s@ == rfc3339_text(self.secs as int, self.nanos as int),
    {
        utc_rfc3339(self.secs, self.nanos)
    }
}

/// What `chrono`'s `DateTime::<Utc>::to_rfc3339` renders for the instant
/// `secs` seconds plus `nanos` nanoseconds after the epoch.
pub uninterp spec fn rfc3339_text(secs: int, nanos: int) -> Seq<char>;

/// `chrono::Utc::now`, split into seconds and nanoseconds.
///
/// `Utc::now` measures `SystemTime::now()` since the epoch (so the seconds
/// are not negative and the nanoseconds are below one second) and hands
/// the pair to `DateTime::from_timestamp(..).unwrap()`, so it only returns
/// instants that `chrono` represents. Nothing is claimed of which instant
/// comes back. `Utc::now` panics when the system clock reads before the
/// Unix epoch; no argument can rule that out.
#[verifier::external_body]
fn utc_now() -> (t: Timestamp)
    ensures
        t.representable(),
        t.secs >= 0,
{
    let now = chrono::Utc::now();
    Timestamp { secs: now.timestamp(), nanos: now.timestamp_subsec_nanos() }
}

/// `chrono::DateTime::<Utc>::to_rfc3339` of the instant built by
/// `DateTime::from_timestamp(secs, nanos)`. The claim is that the text is
/// the one [`rfc3339_text`] names for these two numbers; `from_timestamp`
/// returns `Some` on every representable instant, which `requires` asks.
#[verifier::external_body]
fn utc_rfc3339(secs: i64, nanos: u32) -> (s: String)
    requires
        MIN_UTC_SECS <= secs <= MAX_UTC_SECS,
        nanos < NANOS_PER_SEC,
    ensures
        s@ == rfc3339_text(secs as int, nanos as int),
{
    chrono::DateTime::<chrono::Utc>::from_timestamp(secs, nanos).unwrap().to_rfc3339()
}

} // verus!
