use vstd::prelude::*;

verus! {

/// Nanoseconds in one second.
pub const NANOS_PER_SEC: i128 = 1_000_000_000;

/// The largest magnitude of a duration, in nanoseconds: `i64::MAX` milliseconds.
pub const MAX_NANOS: i128 = 9_223_372_036_854_775_807_000_000;

/// A signed amount of elapsed time, held in nanoseconds.
#[derive(Clone, Copy, Debug, PartialEq, Eq, Hash)]
pub struct Duration {
    nanos: i128,
}

impl View for Duration {
    type V = int;

    closed spec fn view(&self) -> int {
        self.nanos as int
    }
}

impl Duration {
    /// A duration stays within `i64::MAX` milliseconds either way.
    pub open spec fn wf(&self) -> bool {
        -MAX_NANOS <= self@ <= MAX_NANOS
    }

    /// A duration of the given number of nanoseconds.
    pub fn nanoseconds(n: i64) -> (r: Duration)
        ensures
            r.wf(),
            r@ == n as int,
    {
        Duration { nanos: n as i128 }
    }

    /// A duration of the given number of milliseconds.
    pub fn milliseconds(n: i64) -> (r: Duration)
        requires
            -9_223_372_036_854_775_807 <= n,
        ensures
            r.wf(),
            r@ == n as int * 1_000_000,
    {
        Duration { nanos: n as i128 * 1_000_000 }
    }

    /// A duration of the given number of seconds.
    pub fn seconds(n: i64) -> (r: Duration)
        requires
            -9_223_372_036_854_775 <= n <= 9_223_372_036_854_775,
        ensures
            r.wf(),
            r@ == n as int * 1_000_000_000,
    {
        Duration { nanos: n as i128 * NANOS_PER_SEC }
    }

    /// A duration of the given number of minutes.
    pub fn minutes(n: i64) -> (r: Duration)
        requires
            -153_722_867_280_912 <= n <= 153_722_867_280_912,
        ensures
            r.wf(),
            r@ == n as int * 60_000_000_000,
    {
        Duration { nanos: n as i128 * 60 * NANOS_PER_SEC }
    }

    /// A duration of the given number of hours.
    pub fn hours(n: i64) -> (r: Duration)
        requires
            -2_562_047_788_015 <= n <= 2_562_047_788_015,
        ensures
            r.wf(),
            r@ == n as int * 3_600_000_000_000,
    {
        Duration { nanos: n as i128 * 3600 * NANOS_PER_SEC }
    }

    /// The whole number of seconds in the duration, rounded toward zero.
    pub fn num_seconds(&self) -> (r: i64)
        requires
            self.wf(),
        ensures
            self@ >= 0 ==> r as int == self@ / 1_000_000_000,
            self@ < 0 ==> r as int == -((-self@) / 1_000_000_000),
    {
        if self.nanos >= 0 {
            (self.nanos / NANOS_PER_SEC) as i64
        } else {
            -(((-self.nanos) / NANOS_PER_SEC) as i64)
        }
    }

    /// The whole duration in nanoseconds.
    pub fn num_nanoseconds(&self) -> (r: i128)
        ensures
            r as int == self@,
    {
        self.nanos
    }

    /// The duration of the given number of nanoseconds, if it is in range.
    pub fn from_nanos(n: i128) -> (r: Option<Duration>)
        ensures
            r is Some <==> -MAX_NANOS <= n <= MAX_NANOS,
            r is Some ==> r->Some_0@ == n as int && r->Some_0.wf(),
    {
        if -MAX_NANOS <= n && n <= MAX_NANOS {
            Some(Duration { nanos: n })
        } else {
            None
        }
    }
}

} // verus!
