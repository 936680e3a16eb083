//! Points in time, and the wall clock.
//!
//! A [`Timestamp`] counts whole seconds since the Unix epoch together with a
//! sub-second part in nanoseconds. Everything that depends on time takes the
//! current instant as an argument, so that it can be exercised with any
//! clock; [`Timestamp::now`] reads the real one.

use vstd::prelude::*;

verus! {

/// Seconds in one hour.
pub const SECONDS_PER_HOUR: i64 = 3600;

/// A bound, in seconds before or after the epoch, on what the wall clock
/// reports.
pub const CLOCK_LIMIT_SECS: i64 = 200_000_000_000_000;

/// An instant: seconds since 1970-01-01T00:00:00Z and nanoseconds past that
/// second.
#[derive(Debug, Clone, Copy, PartialEq, Eq, Structural)]
pub struct Timestamp {
    pub secs: i64,
    pub nanos: u32,
}

/// Reads the system clock with `chrono::Utc::now` and returns its seconds
/// (`DateTime::timestamp`) and sub-second nanoseconds
/// (`DateTime::timestamp_subsec_nanos`). Trusted: the sub-second part is
/// below one second, because the reading is built from a `Duration`; and
/// the seconds lie within [`CLOCK_LIMIT_SECS`] of the epoch, because chrono
/// builds the reading only from a day number that fits 32 bits. Nothing
/// else is known of the value. Where the system clock stands before the
/// epoch, chrono panics.
#[verifier::external_body]
fn read_utc_clock() -> (t: Timestamp)
    ensures
        -CLOCK_LIMIT_SECS < t.secs < CLOCK_LIMIT_SECS,
        t.nanos < 1_000_000_000,
{
    let now = chrono::Utc::now();
    Timestamp { secs: now.timestamp(), nanos: now.timestamp_subsec_nanos() }
}

impl Timestamp {
    /// Whether `self` is strictly earlier than `other`.
    pub open spec fn before(self, other: Timestamp) -> bool {
        self.secs < other.secs || (self.secs == other.secs && self.nanos < other.nanos)
    }

    /// The instant `hours` hours after `self`.
    pub open spec fn after_hours(self, hours: int) -> Timestamp
        recommends
            i64::MIN <= self.secs + hours * 3600 <= i64::MAX,
    {
        Timestamp { secs: (self.secs + hours * 3600) as i64, nanos: self.nanos }
    }

    /// Whether a reading could have come from the wall clock.
    pub open spec fn clock_range(self) -> bool {
        -CLOCK_LIMIT_SECS < self.secs < CLOCK_LIMIT_SECS && self.nanos < 1_000_000_000
    }

    /// The instant `nanos` nanoseconds past second `secs`.
    pub fn new(secs: i64, nanos: u32) -> (t: Timestamp)
        ensures
            t.secs == secs,
            t.nanos == nanos,
    {
        Timestamp { secs, nanos }
    }

    /// The current instant according to the system clock.
    pub fn now() -> (t: Timestamp)
        ensures
            t.clock_range(),
    {
        read_utc_clock()
    }

    /// Whether `self` is strictly earlier than `other`.
    pub fn is_before(&self, other: &Timestamp) -> (r: bool)
        ensures
            r == self.before(*other),
    {
        self.secs < other.secs || (self.secs == other.secs && self.nanos < other.nanos)
    }

    /// The instant `hours` hours after `self`.
    pub fn plus_hours(&self, hours: u32) -> (t: Timestamp)
        requires
            self.secs + hours * 3600 <= i64::MAX,
        ensures
            t == self.after_hours(hours as int),
    {
        Timestamp { secs: self.secs + (hours as i64) * SECONDS_PER_HOUR, nanos: self.nanos }
    }
}

/// Instants are totally ordered: of two different instants exactly one is
/// before the other, no instant is before itself, and what is before an
/// instant is before everything after it.
pub proof fn lemma_instants_are_ordered(a: Timestamp, b: Timestamp, c: Timestamp)
    ensures
        !a.before(a),
        a != b ==> (a.before(b) <==> !b.before(a)),
        a == b ==> !a.before(b),
        a.before(b) && b.before(c) ==> a.before(c),
{
}

/// Whether something that expires at `expires_at` has expired by `now`:
/// true exactly when an expiry is set and lies strictly before `now`.
pub open spec fn expired_at(expires_at: Option<Timestamp>, now: Timestamp) -> bool {
    match expires_at {
        Some(t) => t.before(now),
        None => false,
    }
}

/// Decides expiry against a given clock reading.
pub fn is_expired(expires_at: Option<Timestamp>, now: Timestamp) -> (r: bool)
    ensures
        r == expired_at(expires_at, now),
{
    match expires_at {
        Some(t) => t.is_before(&now),
        None => false,
    }
}

/// An expiry earlier than the clock reading has expired; one later than it,
/// or equal to it, has not; and without an expiry nothing ever expires.
pub proof fn lemma_expiry_follows_the_clock(expires_at: Timestamp, now: Timestamp)
    ensures
        expires_at.before(now) ==> expired_at(Some(expires_at), now),
        now.before(expires_at) ==> !expired_at(Some(expires_at), now),
        expires_at == now ==> !expired_at(Some(expires_at), now),
        !expired_at(None, now),
{
}

/// One second before `now` counts as expired and one second after does not,
/// wherever those instants exist.
pub proof fn lemma_expiry_one_second_apart(now: Timestamp)
    ensures
        now.secs > i64::MIN ==> expired_at(
            Some(Timestamp { secs: (now.secs - 1) as i64, nanos: now.nanos }),
            now,
        ),
        now.secs < i64::MAX ==> !expired_at(
            Some(Timestamp { secs: (now.secs + 1) as i64, nanos: now.nanos }),
            now,
        ),
        !expired_at(None, now),
{
}

} // verus!
