use vstd::prelude::*;
use crate::error::Error;

verus! {

/// One record read from a source, stamped with the time it was read.
#[derive(Debug, Clone)]
pub struct Event {
    pub timestamp: u64,
    pub source: String,
    pub payload: Vec<u8>,
}

#[verifier::external_type_specification]
#[verifier::external_body]
pub struct ExSystemTime(std::time::SystemTime);

/// Relies on `SystemTime::now`: the wall clock's current reading.
#[verifier::external_body]
fn clock_now() -> (r: std::time::SystemTime) {
    std::time::SystemTime::now()
}

/// Relies on `SystemTime::duration_since(UNIX_EPOCH)`: the time elapsed since
/// the Unix epoch, or `None` when `t` is earlier than the epoch.
#[verifier::external_body]
fn since_epoch(t: &std::time::SystemTime) -> (r: Option<std::time::Duration>) {
    t.duration_since(std::time::UNIX_EPOCH).ok()
}

/// Relies on `Duration::as_nanos`: the whole duration in nanoseconds.
#[verifier::external_body]
fn nanos_of(d: &std::time::Duration) -> (r: u128) {
    d.as_nanos()
}

/// The wall clock read in nanoseconds since the Unix epoch, or `None` when
/// it reads earlier than the epoch.
fn unix_nanos() -> (r: Option<u128>) {
    match since_epoch(&clock_now()) {
        Some(d) => Some(nanos_of(&d)),
        None => None,
    }
}

/// The timestamp for a clock reading of `reading` nanoseconds since the Unix
/// epoch: the reading itself, or `SystemTime` when the clock read before the
/// epoch (`None`) or past what 64 bits of nanoseconds hold.
pub open spec fn timestamp_spec(reading: Option<u128>) -> Result<u64, Error> {
    match reading {
        Some(n) => if n <= u64::MAX as u128 {
            Ok(n as u64)
        } else {
            Err(Error::SystemTime)
        },
        None => Err(Error::SystemTime),
    }
}

/// The timestamp for a clock reading; see `timestamp_spec`.
pub fn timestamp_of(reading: Option<u128>) -> (r: Result<u64, Error>)
    ensures
        r == timestamp_spec(reading),
{
    match reading {
        Some(n) => {
            if n <= u64::MAX as u128 {
                Ok(n as u64)
            } else {
                Err(Error::SystemTime)
            }
        },
        None => Err(Error::SystemTime),
    }
}

/// The current wall-clock time in nanoseconds since the Unix epoch, or
/// `SystemTime` when the clock cannot give it in 64 bits.
pub fn now_timestamp() -> (r: Result<u64, Error>)
    ensures
        r is Err ==> r->Err_0 is SystemTime,
{
    timestamp_of(unix_nanos())
}

impl Event {
    /// An event with the given stamp.
    pub fn with_timestamp(timestamp: u64, source: String, payload: Vec<u8>) -> (r: Event)
        ensures
            r.timestamp == timestamp,
            r.source@ == source@,
            r.payload@ == payload@,
    {
        Event { timestamp, source, payload }
    }

    /// An event stamped with the clock reading `reading`: fails with
    /// `SystemTime` exactly when `timestamp_of` does.
    pub fn from_reading(reading: Option<u128>, source: String, payload: Vec<u8>) -> (r: Result<Event, Error>)
        ensures
            match timestamp_spec(reading) {
                Ok(t) => r is Ok && r->Ok_0.timestamp == t && r->Ok_0.source@ == source@
                    && r->Ok_0.payload@ == payload@,
                Err(e) => r == Err::<Event, Error>(e),
            },
    {
        match timestamp_of(reading) {
            Ok(t) => Ok(Event::with_timestamp(t, source, payload)),
            Err(e) => Err(e),
        }
    }

    /// An event stamped with the current wall-clock time in nanoseconds.
    /// Fails with `SystemTime` when the clock reads before the epoch or past
    /// what 64 bits of nanoseconds hold.
    pub fn new(source: String, payload: Vec<u8>) -> (r: Result<Event, Error>)
        ensures
            r is Ok ==> r->Ok_0.source@ == source@ && r->Ok_0.payload@ == payload@,
            r is Err ==> r->Err_0 is SystemTime,
    {
        Event::from_reading(unix_nanos(), source, payload)
    }
}

} // verus!
