//! Points in time and spans between them.
//!
//! A [`Timestamp`] is a point on the UTC time line, counted from the Unix epoch. The
//! age of one timestamp at another is their distance in nanoseconds, and has no value
//! where the first lies after the second.

use vstd::prelude::*;

verus! {

/// Nanoseconds in one second.
pub const NANOS_PER_SEC: u32 = 1_000_000_000;

/// A point in time: whole seconds since 1970-01-01 00:00:00 UTC, and the nanoseconds
/// that have passed since that second began. The nanoseconds are simply added on: a
/// count of a second or more, as clocks show it during a leap second, is allowed and
/// means a point that much later.
#[derive(Clone, Copy, Debug, PartialEq, Eq, Structural)]
pub struct Timestamp {
    pub secs: i64,
    pub nanos: u32,
}

impl Timestamp {
    /// The Unix epoch itself.
    pub fn epoch() -> (t: Timestamp)
        ensures
            t == (Timestamp { secs: 0, nanos: 0 }),
            t.instant() == 0,
    {
        Timestamp { secs: 0, nanos: 0 }
    }

    /// The timestamp `nanos` nanoseconds into second `secs`.
    pub fn new(secs: i64, nanos: u32) -> (t: Timestamp)
        ensures
            t == (Timestamp { secs, nanos }),
    {
        Timestamp { secs, nanos }
    }

    /// Where this timestamp lies on the time line, in nanoseconds since the epoch.
    pub open spec fn instant(self) -> int {
        self.secs * NANOS_PER_SEC + self.nanos
    }

    /// How long before `self` the point `earlier` lies, in nanoseconds; `None` where
    /// `earlier` is in fact later than `self`.
    pub open spec fn spec_nanos_since(self, earlier: Timestamp) -> Option<nat> {
        if self.instant() >= earlier.instant() {
            Some((self.instant() - earlier.instant()) as nat)
        } else {
            None
        }
    }

    /// How long before `self` the point `earlier` lies, in nanoseconds; `None` where
    /// `earlier` is in fact later than `self`.
    pub fn nanos_since(&self, earlier: &Timestamp) -> (age: Option<u128>)
        ensures
            age is Some <==> self.spec_nanos_since(*earlier) is Some,
            age matches Some(n) ==> self.spec_nanos_since(*earlier) == Some(n as nat),
    {
        let per_sec: i128 = NANOS_PER_SEC as i128;
        let later: i128 = (self.secs as i128) * per_sec + (self.nanos as i128);
        let sooner: i128 = (earlier.secs as i128) * per_sec + (earlier.nanos as i128);
        if later >= sooner {
            Some((later - sooner) as u128)
        } else {
            None
        }
    }

    /// Whether something last touched at `last_update` has, at time `self`, reached the
    /// age `max_nanos`. An age that cannot be computed, because `last_update` lies in
    /// the future of `self`, counts as reached.
    pub open spec fn spec_outlived(self, last_update: Timestamp, max_nanos: nat) -> bool {
        match self.spec_nanos_since(last_update) {
            Some(age) => age >= max_nanos,
            None => true,
        }
    }

    /// Whether something last touched at `last_update` has, at time `self`, reached the
    /// age `max_nanos`.
    pub fn outlived(&self, last_update: &Timestamp, max_nanos: u128) -> (gone: bool)
        ensures
            gone == self.spec_outlived(*last_update, max_nanos as nat),
    {
        match self.nanos_since(last_update) {
            Some(age) => age >= max_nanos,
            None => true,
        }
    }
}

/// The length of a [`core::time::Duration`] in nanoseconds: what
/// `Duration::as_nanos` returns for it.
pub uninterp spec fn duration_nanos(d: core::time::Duration) -> u128;

/// `Duration::as_nanos` is taken as given: it returns the total number of nanoseconds
/// in the duration, which is all that this library ever asks of a duration.
pub assume_specification[ core::time::Duration::as_nanos ](d: &core::time::Duration) -> (n: u128)
    ensures
        n == duration_nanos(*d),
;

/// Reads the wall clock with `SystemTime::now`, has chrono turn the reading into a
/// `DateTime<Utc>` by its `From<SystemTime>`, and hands that back as a [`Timestamp`],
/// by `DateTime::timestamp` and `DateTime::timestamp_subsec_nanos`. The conversion
/// takes a clock on either side of 1970. Nothing is claimed of the reading: it may be
/// any time, and differ from call to call.
#[verifier::external_body]
pub(crate) fn wall_clock() -> (now: Timestamp) {
    let now = chrono::DateTime::<chrono::Utc>::from(std::time::SystemTime::now());
    Timestamp { secs: now.timestamp(), nanos: now.timestamp_subsec_nanos() }
}

/// What lies in the future has always outlived; what lies in the past has outlived
/// exactly when its distance has reached the age allowed; and with no age allowed at
/// all, everything has outlived.
pub proof fn lemma_outlived_cases(now: Timestamp, last_update: Timestamp, max_nanos: nat)
    ensures
        now.instant() < last_update.instant() ==> now.spec_outlived(last_update, max_nanos),
        now.instant() >= last_update.instant() ==> (now.spec_outlived(last_update, max_nanos)
            <==> now.instant() - last_update.instant() >= max_nanos),
        max_nanos == 0 ==> now.spec_outlived(last_update, max_nanos),
{
}

} // verus!
