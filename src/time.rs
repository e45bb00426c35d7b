//! Absolute instants in UTC, held as whole seconds since the Unix epoch plus
//! a sub-second nanosecond part.

use vstd::prelude::*;

verus! {

/// Earliest instant that chrono can represent: January 1 of year -262143, 00:00:00 UTC.
pub const MIN_SECS: i64 = -8334601228800;

/// Latest whole second that chrono can represent: December 31 of year 262142, 23:59:59 UTC.
pub const MAX_SECS: i64 = 8210266876799;

pub const NANOS_PER_SEC: u32 = 1000000000;

/// Whether `secs` seconds after the epoch is a representable instant.
pub open spec fn secs_in_range(secs: int) -> bool {
    MIN_SECS <= secs <= MAX_SECS
}

/// An instant in UTC.
#[derive(Clone, Copy, Debug, PartialEq, Eq, Structural)]
pub struct Timestamp {
    pub secs: i64,
    pub nanos: u32,
}

impl Timestamp {
    /// A well-formed instant lies in the representable range and has a
    /// sub-second part below one second.
    pub open spec fn wf(self) -> bool {
        secs_in_range(self.secs as int) && self.nanos < NANOS_PER_SEC
    }

    /// Nanoseconds since the epoch: the total order on instants.
    pub open spec fn total_nanos(self) -> int {
        self.secs * 1000000000 + self.nanos
    }

    /// The instant `delta` seconds later (earlier when negative).
    pub open spec fn shifted(self, delta: int) -> Timestamp {
        Timestamp { secs: (self.secs + delta) as i64, nanos: self.nanos }
    }

    /// The instant at `secs` seconds and `nanos` nanoseconds after the
    /// epoch, when it is representable.
    pub fn new(secs: i64, nanos: u32) -> (r: Option<Timestamp>)
        ensures
            r == (if secs_in_range(secs as int) && nanos < NANOS_PER_SEC {
                Some(Timestamp { secs, nanos })
            } else {
                None::<Timestamp>
            }),
    {
        if nanos < NANOS_PER_SEC && chrono_accepts(secs, nanos) {
            Some(Timestamp { secs, nanos })
        } else {
            None
        }
    }

    /// The instant at a whole number of seconds after the epoch, when it is
    /// representable.
    pub fn from_unix(secs: i64) -> (r: Option<Timestamp>)
        ensures
            r == (if secs_in_range(secs as int) {
                Some(Timestamp { secs, nanos: 0 })
            } else {
                None::<Timestamp>
            }),
    {
        Timestamp::new(secs, 0)
    }

    /// The instant `delta` seconds later, when it is representable.
    pub fn checked_add_secs(self, delta: i64) -> (r: Option<Timestamp>)
        requires
            self.wf(),
        ensures
            r == (if secs_in_range(self.secs + delta) {
                Some(self.shifted(delta as int))
            } else {
                None::<Timestamp>
            }),
    {
        let s: i128 = self.secs as i128 + delta as i128;
        if s < MIN_SECS as i128 || s > MAX_SECS as i128 {
            None
        } else {
            Timestamp::new(s as i64, self.nanos)
        }
    }

    /// Whether `self` is strictly later than `other` plus `margin` seconds.
    pub fn later_than(self, other: Timestamp, margin: i64) -> (r: bool)
        ensures
            r == (self.total_nanos() > other.total_nanos() + margin * 1000000000),
    {
        let a: i128 = self.secs as i128 * 1000000000 + self.nanos as i128;
        let b: i128 = (other.secs as i128 + margin as i128) * 1000000000 + other.nanos as i128;
        a > b
    }
}

/// Relies on chrono's `DateTime::<Utc>::from_timestamp`, which returns
/// `Some` exactly for the instants between `DateTime::MIN_UTC` and
/// `DateTime::MAX_UTC` when the sub-second part is below one second.
#[verifier::external_body]
fn chrono_accepts(secs: i64, nanos: u32) -> (r: bool)
    requires
        nanos < NANOS_PER_SEC,
    ensures
        r == secs_in_range(secs as int),
{
    chrono::DateTime::from_timestamp(secs, nanos).is_some()
}

/// Relies on chrono's `From<SystemTime> for DateTime<Utc>`, applied to
/// `SystemTime::now()`: it accepts clocks before 1970 too, and its result is a
/// representable instant with a sub-second part below one second.
#[verifier::external_body]
pub(crate) fn current_time() -> (r: Timestamp)
    ensures
        r.wf(),
{
    let now: chrono::DateTime<chrono::Utc> = std::time::SystemTime::now().into();
    Timestamp { secs: now.timestamp(), nanos: now.timestamp_subsec_nanos() }
}

} // verus!
