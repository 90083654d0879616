use crate::date::{Date, MAX_DAYS, MIN_DAYS};
use crate::duration::{Duration, MAX_NANOS};
use crate::error::Error;
use crate::point::{Formatable, Parsable, Spanable};
use crate::time::{Time, NANOS_PER_DAY};
use chrono::{Datelike, Timelike};
use std::fmt::Write;
use vstd::arithmetic::div_mod::lemma_fundamental_div_mod;
use vstd::prelude::*;

verus! {

/// The position of the first instant that a `DateTime` can hold.
pub open spec fn first_pos() -> int {
    NANOS_PER_DAY * MIN_DAYS
}

/// The position just after the last instant that a `DateTime` can hold.
pub open spec fn past_last_pos() -> int {
    NANOS_PER_DAY * (MAX_DAYS + 1)
}

/// A date and a time of day, with no time zone.
#[derive(Clone, Copy, Debug, PartialEq, Eq, Hash, PartialOrd, Ord)]
pub struct DateTime {
    pub date: Date,
    pub time: Time,
}

impl DateTime {
    /// The time `time` on the date `date`.
    pub fn new(date: Date, time: Time) -> (r: DateTime)
        ensures
            r.date == date,
            r.time == time,
    {
        DateTime { date, time }
    }

    fn pos_exec(&self) -> (r: i128)
        requires
            self.wf(),
        ensures
            r == self.pos(),
    {
        NANOS_PER_DAY * self.date.days as i128 + (self.time.secs as i128 * 1_000_000_000 + self.time.nanos as i128)
    }

    /// The instant at position `n`.
    fn from_pos(n: i128) -> (r: DateTime)
        requires
            first_pos() <= n < past_last_pos(),
        ensures
            r.wf(),
            r.pos() == n,
    {
        let m: i128 = n - NANOS_PER_DAY * MIN_DAYS as i128;
        let q: i128 = m / NANOS_PER_DAY;
        let rem: i128 = m % NANOS_PER_DAY;
        proof {
            lemma_fundamental_div_mod(m as int, NANOS_PER_DAY as int);
            assert(q <= MAX_DAYS - MIN_DAYS) by (nonlinear_arith)
                requires
                    m == NANOS_PER_DAY * q + rem,
                    0 <= rem,
                    m < NANOS_PER_DAY * (MAX_DAYS + 1) - NANOS_PER_DAY * MIN_DAYS,
                    NANOS_PER_DAY > 0,
            ;
            assert(q >= 0) by (nonlinear_arith)
                requires
                    m == NANOS_PER_DAY * q + rem,
                    rem < NANOS_PER_DAY,
                    m >= 0,
            ;
        }
        let days = (q + MIN_DAYS as i128) as i32;
        let secs = (rem / 1_000_000_000) as u32;
        let nanos = (rem % 1_000_000_000) as u32;
        let r = DateTime { date: Date { days }, time: Time { secs, nanos } };
        proof {
            assert(r.pos() == n) by (nonlinear_arith)
                requires
                    m == n - NANOS_PER_DAY * MIN_DAYS,
                    m == NANOS_PER_DAY * q + rem,
                    days == q + MIN_DAYS,
                    rem == secs * 1_000_000_000 + nanos,
                    r.pos() == NANOS_PER_DAY * days + secs * 1_000_000_000 + nanos,
            ;
        }
        r
    }

    fn add_nanos(&self, d: i128) -> (r: Option<DateTime>)
        requires
            self.wf(),
            -MAX_NANOS <= d <= MAX_NANOS,
        ensures
            match r {
                Some(x) => x.wf() && Self::moved(self.pos(), d as int) == Some(x.pos()),
                None => Self::moved(self.pos(), d as int) is None,
            },
    {
        let n = self.pos_exec() + d;
        if NANOS_PER_DAY * (MIN_DAYS as i128) <= n && n < NANOS_PER_DAY * (MAX_DAYS as i128 + 1) {
            Some(DateTime::from_pos(n))
        } else {
            None
        }
    }
}

impl Spanable for DateTime {
    open spec fn pos(&self) -> int {
        self.date.pos() + self.time.pos()
    }

    open spec fn wf(&self) -> bool {
        self.date.wf() && self.time.wf()
    }

    /// An instant moves by the whole duration.
    open spec fn moved(p: int, d: int) -> Option<int> {
        if first_pos() <= p + d < past_last_pos() {
            Some(p + d)
        } else {
            None
        }
    }

    proof fn lemma_pos_injective(a: Self, b: Self) {
        assert(a.date.days == b.date.days && a.time.pos() == b.time.pos()) by (nonlinear_arith)
            requires
                NANOS_PER_DAY * a.date.days + a.time.pos() == NANOS_PER_DAY * b.date.days + b.time.pos(),
                0 <= a.time.pos() < NANOS_PER_DAY,
                0 <= b.time.pos() < NANOS_PER_DAY,
        ;
        Time::lemma_pos_injective(a.time, b.time);
    }

    fn precedes(&self, other: &Self) -> (r: bool) {
        self.pos_exec() < other.pos_exec()
    }

    fn checked_add(&self, d: &Duration) -> (r: Option<Self>) {
        self.add_nanos(d.num_nanoseconds())
    }

    fn checked_sub(&self, d: &Duration) -> (r: Option<Self>) {
        self.add_nanos(-d.num_nanoseconds())
    }

    fn signed_duration_since(&self, other: &Self) -> (r: Duration) {
        Duration::from_nanos(self.pos_exec() - other.pos_exec()).unwrap()
    }
}

/// The day number, seconds since midnight and nanoseconds of the date and
/// time that chrono reads from a text under a format; nanoseconds of one
/// second or more mark a leap second.
pub uninterp spec fn datetime_read(s: Seq<char>, fmt: Seq<char>) -> Option<(i32, u32, u32)>;

/// The same, for chrono's plain text form of a date and time.
pub uninterp spec fn datetime_text_read(s: Seq<char>) -> Option<(i32, u32, u32)>;

/// chrono's plain text form of a date and time.
pub uninterp spec fn datetime_shown(days: i32, secs: u32, nanos: u32) -> Seq<char>;

/// A date and time written by chrono under a format, unless the format does
/// not apply.
pub uninterp spec fn datetime_formatted(days: i32, secs: u32, nanos: u32, fmt: Seq<char>) -> Option<Seq<char>>;

/// Relies on chrono's `NaiveDateTime::parse_from_str` for reading a date and
/// time under a format.
#[verifier::external_body]
fn chrono_read_datetime(s: &str, fmt: &str) -> (r: Result<(i32, u32, u32), chrono::ParseError>)
    ensures
        r is Ok <==> datetime_read(s@, fmt@) is Some,
        r matches Ok(v) ==> datetime_read(s@, fmt@) == Some(v) && MIN_DAYS <= v.0 <= MAX_DAYS && v.1 < 86400
            && v.2 < 2_000_000_000,
{
    chrono::NaiveDateTime::parse_from_str(s, fmt).map(
        |t| (t.date().num_days_from_ce(), t.time().num_seconds_from_midnight(), t.time().nanosecond()),
    )
}

/// Relies on chrono's `FromStr` for `NaiveDateTime` for reading a date and
/// time in its plain text form.
#[verifier::external_body]
fn chrono_read_datetime_text(s: &str) -> (r: Result<(i32, u32, u32), chrono::ParseError>)
    ensures
        r is Ok <==> datetime_text_read(s@) is Some,
        r matches Ok(v) ==> datetime_text_read(s@) == Some(v) && MIN_DAYS <= v.0 <= MAX_DAYS && v.1 < 86400
            && v.2 < 2_000_000_000,
{
    s.parse::<chrono::NaiveDateTime>().map(
        |t| (t.date().num_days_from_ce(), t.time().num_seconds_from_midnight(), t.time().nanosecond()),
    )
}

/// Relies on chrono's `Display` for `NaiveDateTime` for the plain text form.
#[verifier::external_body]
fn chrono_show_datetime(days: i32, secs: u32, nanos: u32) -> (r: String)
    requires
        MIN_DAYS <= days <= MAX_DAYS,
        secs < 86400,
        nanos < 1_000_000_000,
    ensures
        r@ == datetime_shown(days, secs, nanos),
{
    let d = chrono::NaiveDate::from_num_days_from_ce_opt(days);
    let t = chrono::NaiveTime::from_num_seconds_from_midnight_opt(secs, nanos);
    match (d, t) {
        (Some(d), Some(t)) => d.and_time(t).to_string(),
        _ => String::new(),
    }
}

/// Relies on chrono's `NaiveDateTime::format` for writing a date and time
/// under a format; writing fails where the format does not apply.
#[verifier::external_body]
fn chrono_format_datetime(days: i32, secs: u32, nanos: u32, fmt: &str) -> (r: Option<String>)
    requires
        MIN_DAYS <= days <= MAX_DAYS,
        secs < 86400,
        nanos < 1_000_000_000,
    ensures
        r is None <==> datetime_formatted(days, secs, nanos, fmt@) is None,
        r matches Some(t) ==> datetime_formatted(days, secs, nanos, fmt@) == Some(t@),
{
    let d = chrono::NaiveDate::from_num_days_from_ce_opt(days)?;
    let t = chrono::NaiveTime::from_num_seconds_from_midnight_opt(secs, nanos)?;
    let mut out = String::new();
    match write!(out, "{}", d.and_time(t).format(fmt)) {
        Ok(()) => Some(out),
        Err(_) => None,
    }
}

/// The date and time for what chrono read, unless it is a leap second.
pub open spec fn datetime_of(v: Option<(i32, u32, u32)>) -> Option<DateTime> {
    match v {
        Some((days, secs, nanos)) => if nanos < 1_000_000_000 {
            Some(DateTime { date: Date { days }, time: Time { secs, nanos } })
        } else {
            None
        },
        None => None,
    }
}

/// The date and time for what chrono read; a leap second is out of range.
fn datetime_from_read(r: Result<(i32, u32, u32), chrono::ParseError>) -> (t: Result<DateTime, Error>)
    requires
        r matches Ok(v) ==> MIN_DAYS <= v.0 <= MAX_DAYS && v.1 < 86400,
    ensures
        r is Err ==> t is Err,
        r matches Ok(v) ==> (t is Ok <==> v.2 < 1_000_000_000),
        r matches Ok(v) ==> (t matches Ok(x) ==> x.wf() && x == (DateTime {
            date: Date { days: v.0 },
            time: Time { secs: v.1, nanos: v.2 },
        })),
        t matches Err(e) ==> e is Parsing || e is OutOfRange,
{
    match r {
        Ok((days, secs, nanos)) => if nanos < 1_000_000_000 {
            Ok(DateTime { date: Date { days }, time: Time { secs, nanos } })
        } else {
            Err(Error::OutOfRange)
        },
        Err(e) => Err(Error::Parsing(e)),
    }
}

impl Parsable for DateTime {
    open spec fn read(s: Seq<char>, fmt: Seq<char>) -> Option<DateTime> {
        datetime_of(datetime_read(s, fmt))
    }

    open spec fn read_text(s: Seq<char>) -> Option<DateTime> {
        datetime_of(datetime_text_read(s))
    }

    fn parse_from_str(s: &str, fmt: &str) -> (r: Result<DateTime, Error>) {
        datetime_from_read(chrono_read_datetime(s, fmt))
    }

    fn from_str(s: &str) -> (r: Result<DateTime, Error>) {
        datetime_from_read(chrono_read_datetime_text(s))
    }
}

impl core::str::FromStr for DateTime {
    type Err = Error;

    fn from_str(s: &str) -> Result<DateTime, Error> {
        <DateTime as Parsable>::from_str(s)
    }
}

impl Formatable for DateTime {
    open spec fn shown(&self) -> Seq<char> {
        datetime_shown(self.date.days, self.time.secs, self.time.nanos)
    }

    open spec fn formatted(&self, fmt: Seq<char>) -> Option<Seq<char>> {
        datetime_formatted(self.date.days, self.time.secs, self.time.nanos, fmt)
    }

    fn to_string(&self) -> (r: String) {
        chrono_show_datetime(self.date.days, self.time.secs, self.time.nanos)
    }

    fn format(&self, fmt: &str) -> (r: Option<String>) {
        chrono_format_datetime(self.date.days, self.time.secs, self.time.nanos, fmt)
    }
}

} // verus!
