use vstd::prelude::*;
use vstd::std_specs::convert::FromSpec;

verus! {

/// Nanoseconds in one second.
pub const NANOS_PER_SEC: u32 = 1_000_000_000;

/// Nanoseconds in one millisecond.
pub const NANOS_PER_MILLI: u32 = 1_000_000;

/// A span of time: whole seconds and the nanoseconds beyond them.
#[derive(Clone, Copy, Debug, PartialEq, Eq)]
pub struct Duration {
    pub secs: u64,
    pub nanos: u32,
}

impl Duration {
    /// The nanosecond part is below one second.
    pub open spec fn wf(self) -> bool {
        self.nanos < NANOS_PER_SEC
    }

    /// The whole milliseconds in this span.
    pub open spec fn millis(self) -> nat {
        (self.secs * 1000 + self.nanos / NANOS_PER_MILLI) as nat
    }

    /// A span of `secs` seconds and `nanos` nanoseconds.
    pub fn new(secs: u64, nanos: u32) -> (d: Duration)
        requires
            nanos < NANOS_PER_SEC,
        ensures
            d.secs == secs,
            d.nanos == nanos,
            d.wf(),
    {
        Duration { secs, nanos }
    }

    /// The span of `ms` milliseconds.
    pub open spec fn of_millis(ms: u64) -> Duration {
        Duration { secs: ms / 1000, nanos: ((ms % 1000) * 1_000_000) as u32 }
    }

    /// A span of `ms` milliseconds.
    pub fn from_millis(ms: u64) -> (d: Duration)
        ensures
            d == Duration::of_millis(ms),
            d.wf(),
            d.millis() == ms,
    {
        let secs: u64 = ms / 1000;
        let rest: u64 = ms % 1000;
        let nanos: u32 = (rest as u32) * NANOS_PER_MILLI;
        assert(nanos / NANOS_PER_MILLI == rest) by (nonlinear_arith)
            requires
                nanos == rest * 1_000_000,
                rest < 1000,
        ;
        Duration { secs, nanos }
    }

    /// The whole milliseconds in this span.
    pub fn as_millis(&self) -> (ms: u128)
        ensures
            ms == self.millis(),
    {
        (self.secs as u128) * 1000 + ((self.nanos / NANOS_PER_MILLI) as u128)
    }
}

/// Calls `std::time::Duration::as_secs`: the whole seconds of the span. The
/// span is opaque here, so nothing is stated of the value.
#[verifier::external_body]
fn whole_secs(d: &std::time::Duration) -> (s: u64) {
    d.as_secs()
}

/// The error of reading the clock when it stands before the Unix epoch.
#[verifier::external_type_specification]
#[verifier::external_body]
pub struct ExSystemTimeError(std::time::SystemTimeError);

/// Calls `std::time::SystemTime::elapsed` on the Unix epoch: the time since
/// 1970-01-01, or an error when the system clock stands before it. It reads
/// the clock, so nothing is stated of the value.
#[verifier::external_body]
fn elapsed_since_epoch() -> (r: Result<std::time::Duration, std::time::SystemTimeError>) {
    std::time::SystemTime::UNIX_EPOCH.elapsed()
}

/// The timestamp column value for `secs` whole seconds since the Unix epoch:
/// the count as a signed 64-bit number.
pub open spec fn timestamp_of(secs: u64) -> i64 {
    secs as i64
}

/// The timestamp column value for `secs` whole seconds since the Unix epoch.
pub fn timestamp_from_secs(secs: u64) -> (t: i64)
    ensures
        t == timestamp_of(secs),
{
    secs as i64
}

/// The current time as whole seconds since the Unix epoch, or `None` when the
/// system clock stands before the epoch. The seconds are read from the clock
/// and handed to `timestamp_from_secs`, which states the conversion; what the
/// clock reads is not stated.
pub fn unix_timestamp() -> (ts: Option<i64>) {
    match elapsed_since_epoch() {
        Ok(d) => Some(timestamp_from_secs(whole_secs(&d))),
        Err(_) => None,
    }
}

/// The schema example of an optional duration in the API documentation.
pub fn schema_opt_duration() -> (v: i64)
    ensures
        v == 5,
{
    5
}

/// The schema example of a duration in the API documentation.
pub fn schema_duration() -> (v: i64)
    ensures
        v == 5,
{
    5
}

/// A duration as the database stores it: whole milliseconds in a signed
/// 64-bit column.
#[derive(Clone, Copy, Debug, PartialEq, Eq)]
pub struct DbDuration(pub i64);

impl vstd::std_specs::convert::FromSpecImpl<Duration> for DbDuration {
    open spec fn obeys_from_spec() -> bool {
        true
    }

    open spec fn from_spec(v: Duration) -> DbDuration {
        DbDuration(v.millis() as i64)
    }
}

impl From<Duration> for DbDuration {
    fn from(val: Duration) -> (r: DbDuration) {
        DbDuration(val.as_millis() as i64)
    }
}

impl vstd::std_specs::convert::FromSpecImpl<DbDuration> for Duration {
    open spec fn obeys_from_spec() -> bool {
        true
    }

    open spec fn from_spec(v: DbDuration) -> Duration {
        Duration::of_millis(v.0 as u64)
    }
}

impl From<DbDuration> for Duration {
    fn from(val: DbDuration) -> (r: Duration) {
        Duration::from_millis(val.0 as u64)
    }
}

/// An optional duration as the database stores it: whole milliseconds in a
/// nullable signed 64-bit column.
#[derive(Clone, Copy, Debug, PartialEq, Eq)]
pub struct DbOptDuration(pub Option<i64>);

impl vstd::std_specs::convert::FromSpecImpl<Option<Duration>> for DbOptDuration {
    open spec fn obeys_from_spec() -> bool {
        true
    }

    open spec fn from_spec(v: Option<Duration>) -> DbOptDuration {
        match v {
            Some(d) => DbOptDuration(Some(d.millis() as i64)),
            None => DbOptDuration(None),
        }
    }
}

impl From<Option<Duration>> for DbOptDuration {
    fn from(val: Option<Duration>) -> (r: DbOptDuration) {
        match val {
            Some(d) => DbOptDuration(Some(d.as_millis() as i64)),
            None => DbOptDuration(None),
        }
    }
}

impl vstd::std_specs::convert::FromSpecImpl<DbOptDuration> for Option<Duration> {
    open spec fn obeys_from_spec() -> bool {
        true
    }

    open spec fn from_spec(v: DbOptDuration) -> Option<Duration> {
        match v.0 {
            Some(ms) => Some(Duration::of_millis(ms as u64)),
            None => None,
        }
    }
}

impl From<DbOptDuration> for Option<Duration> {
    fn from(val: DbOptDuration) -> (r: Option<Duration>) {
        match val.0 {
            Some(ms) => Some(Duration::from_millis(ms as u64)),
            None => None,
        }
    }
}

/// A duration read back from the database is the one that was stored: for
/// every non-negative column value, turning it into a duration and back
/// gives the value again.
pub proof fn lemma_db_duration_round_trip(v: DbDuration)
    requires
        v.0 >= 0,
    ensures
        <DbDuration as FromSpec<Duration>>::from_spec(<Duration as FromSpec<DbDuration>>::from_spec(v)) == v,
{
}

/// Storing a duration keeps its whole milliseconds: a span below `i64::MAX`
/// milliseconds comes back from the database cut to whole milliseconds.
pub proof fn lemma_duration_stored_to_millis(d: Duration)
    requires
        d.wf(),
        d.millis() <= i64::MAX,
    ensures
        <Duration as FromSpec<DbDuration>>::from_spec(<DbDuration as FromSpec<Duration>>::from_spec(d))
            == Duration::of_millis(d.millis() as u64),
        <Duration as FromSpec<DbDuration>>::from_spec(
            <DbDuration as FromSpec<Duration>>::from_spec(d),
        ).millis() == d.millis(),
{
}

} // verus!
