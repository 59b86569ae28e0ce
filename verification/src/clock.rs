use vstd::prelude::*;

verus! {

/// How long a session lives after it was created or last used (five minutes).
pub const SESSION_LIFETIME_SECS: i64 = 300;

/// How often the server pings a connected client (five seconds).
pub const HEARTBEAT_INTERVAL_SECS: u64 = 5;

/// How long a client may stay silent before its socket is closed (ten seconds).
pub const CLIENT_TIMEOUT_SECS: u64 = 10;

/// Upper bound on the seconds of any wall-clock time that the clock hands out:
/// the latest representable UTC date lies in the year 262142, well below it.
pub const LATEST_CLOCK_SECS: i64 = 10_000_000_000_000;

/// A point in UTC time: whole seconds since the Unix epoch and the
/// nanoseconds past that second.
#[derive(Clone, Copy, Debug, PartialEq, Eq)]
pub struct Timestamp {
    pub secs: i64,
    pub nanos: u32,
}

/// A span of time, as whole seconds and the nanoseconds past them.
#[derive(Clone, Copy, Debug, PartialEq, Eq)]
pub struct Elapsed {
    pub secs: u64,
    pub nanos: u32,
}

impl Timestamp {
    /// `self` lies strictly before `other`.
    pub open spec fn precedes(self, other: Timestamp) -> bool {
        self.secs < other.secs || (self.secs == other.secs && self.nanos < other.nanos)
    }

    /// The moment at which a session that is created or renewed at `self` ends.
    pub open spec fn session_end(self) -> Timestamp {
        Timestamp { secs: (self.secs + SESSION_LIFETIME_SECS) as i64, nanos: self.nanos }
    }

    /// A time the clock can hand out, for which a session's end is representable.
    pub open spec fn in_clock_range(self) -> bool {
        self.secs <= LATEST_CLOCK_SECS
    }

    /// Strict comparison of two timestamps.
    pub fn is_before(&self, other: &Timestamp) -> (r: bool)
        ensures
            r == self.precedes(*other),
    {
        self.secs < other.secs || (self.secs == other.secs && self.nanos < other.nanos)
    }

    /// The end of a session that starts (or is renewed) at `self`.
    pub fn plus_session_lifetime(&self) -> (r: Timestamp)
        requires
            self.in_clock_range(),
        ensures
            r == self.session_end(),
    {
        Timestamp { secs: self.secs + SESSION_LIFETIME_SECS, nanos: self.nanos }
    }
}

impl Elapsed {
    /// `self` is a longer span than `other`.
    pub open spec fn exceeds(self, other: Elapsed) -> bool {
        self.secs > other.secs || (self.secs == other.secs && self.nanos > other.nanos)
    }

    /// The client timeout as a span.
    pub open spec fn client_timeout() -> Elapsed {
        Elapsed { secs: CLIENT_TIMEOUT_SECS, nanos: 0 }
    }

    /// Whether more time than the client timeout has passed.
    pub fn exceeds_client_timeout(&self) -> (r: bool)
        ensures
            r == self.exceeds(Elapsed::client_timeout()),
    {
        self.secs > CLIENT_TIMEOUT_SECS || (self.secs == CLIENT_TIMEOUT_SECS && self.nanos > 0)
    }
}

/// Reads the wall clock through `chrono::Utc::now`, taking its Unix
/// timestamp and the nanoseconds past that second.
/// Claimed of every outcome: the seconds lie at or below `LATEST_CLOCK_SECS`
/// (chrono's latest date is in the year 262142) and the nanoseconds below one
/// second (`Utc::now` builds its value from `SystemTime`'s sub-second
/// nanoseconds). Nothing is claimed of which time is read; `Utc::now` panics
/// when the system clock lies before the Unix epoch, which no argument rules out.
#[verifier::external_body]
pub(crate) fn current_time() -> (r: Timestamp)
    ensures
        r.in_clock_range(),
        r.nanos < 1_000_000_000,
{
    let now = chrono::Utc::now();
    Timestamp { secs: now.timestamp(), nanos: now.timestamp_subsec_nanos() }
}

} // verus!
