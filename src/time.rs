//! Monotonic-style instants and spans, both held as whole microseconds.
use vstd::prelude::*;

verus! {

/// A span of time, in whole microseconds.
#[derive(Clone, Copy, Debug, PartialEq, Eq, PartialOrd, Ord, Hash)]
pub struct Duration {
    micros: u64,
}

impl Duration {
    pub closed spec fn spec_micros(&self) -> nat {
        self.micros as nat
    }

    pub fn from_micros(micros: u64) -> (r: Duration)
        ensures
            r.spec_micros() == micros,
    {
        Duration { micros }
    }

    pub fn from_millis(millis: u64) -> (r: Duration)
        requires
            millis * 1000 <= u64::MAX,
        ensures
            r.spec_micros() == millis * 1000,
    {
        Duration { micros: millis * 1000 }
    }

    pub fn from_secs(secs: u64) -> (r: Duration)
        requires
            secs * 1_000_000 <= u64::MAX,
        ensures
            r.spec_micros() == secs * 1_000_000,
    {
        Duration { micros: secs * 1_000_000 }
    }

    pub fn as_micros(&self) -> (r: u64)
        ensures
            r == self.spec_micros(),
    {
        self.micros
    }

    /// Whole milliseconds, rounded down.
    pub fn as_millis(&self) -> (r: u64)
        ensures
            r == self.spec_micros() / 1000,
    {
        self.micros / 1000
    }
}

/// A point in time, in microseconds since the clock's origin. Reading a
/// clock is left to the host, which hands the reading in.
#[derive(Clone, Copy, Debug, PartialEq, Eq, PartialOrd, Ord, Hash)]
pub struct Instant {
    micros: u64,
}

impl Instant {
    pub closed spec fn spec_micros(&self) -> nat {
        self.micros as nat
    }

    pub fn from_micros(micros: u64) -> (r: Instant)
        ensures
            r.spec_micros() == micros,
    {
        Instant { micros }
    }

    pub fn as_micros(&self) -> (r: u64)
        ensures
            r == self.spec_micros(),
    {
        self.micros
    }

    /// The span from `earlier` to `self`.
    pub fn duration_since(&self, earlier: Instant) -> (r: Duration)
        requires
            earlier.spec_micros() <= self.spec_micros(),
        ensures
            r.spec_micros() == self.spec_micros() - earlier.spec_micros(),
    {
        Duration { micros: self.micros - earlier.micros }
    }

    /// The span from `self` to `now`, or zero where `now` lies before `self`.
    pub fn elapsed_at(&self, now: Instant) -> (r: Duration)
        ensures
            now.spec_micros() >= self.spec_micros() ==> r.spec_micros() == now.spec_micros()
                - self.spec_micros(),
            now.spec_micros() < self.spec_micros() ==> r.spec_micros() == 0,
    {
        if now.micros >= self.micros {
            now.duration_since(*self)
        } else {
            Duration { micros: 0 }
        }
    }

    /// `self` moved forward by `duration`, or `None` past the largest instant.
    pub fn checked_add(&self, duration: Duration) -> (r: Option<Instant>)
        ensures
            self.spec_micros() + duration.spec_micros() <= u64::MAX ==> r is Some && r.unwrap().spec_micros()
                == self.spec_micros() + duration.spec_micros(),
            self.spec_micros() + duration.spec_micros() > u64::MAX ==> r is None,
    {
        match self.micros.checked_add(duration.micros) {
            Some(m) => Some(Instant { micros: m }),
            None => None,
        }
    }

    /// `self` moved back by `duration`, or `None` before the clock's origin.
    pub fn checked_sub(&self, duration: Duration) -> (r: Option<Instant>)
        ensures
            duration.spec_micros() <= self.spec_micros() ==> r is Some && r.unwrap().spec_micros()
                == self.spec_micros() - duration.spec_micros(),
            duration.spec_micros() > self.spec_micros() ==> r is None,
    {
        match self.micros.checked_sub(duration.micros) {
            Some(m) => Some(Instant { micros: m }),
            None => None,
        }
    }
}

} // verus!
