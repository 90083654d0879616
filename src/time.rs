use crate::duration::{Duration, MAX_NANOS, NANOS_PER_SEC};
use vstd::arithmetic::div_mod::{lemma_fundamental_div_mod, lemma_fundamental_div_mod_converse};
use crate::error::Error;
use crate::point::{Formatable, Parsable, Spanable};
use chrono::Timelike;
use std::fmt::Write;
use vstd::prelude::*;

verus! {

/// Seconds in one day.
pub const SECS_PER_DAY: u32 = 86_400;

/// Nanoseconds in one day.
pub const NANOS_PER_DAY: i128 = 86_400_000_000_000;

/// A time of day, to the nanosecond.
#[derive(Clone, Copy, Debug, PartialEq, Eq, Hash, PartialOrd, Ord)]
pub struct Time {
    /// Whole seconds since midnight.
    pub secs: u32,
    /// Nanoseconds into the second.
    pub nanos: u32,
}

/// The position within the day that `p` nanoseconds fall on.
pub open spec fn wrap_day(p: int) -> int {
    p % (NANOS_PER_DAY as int)
}

impl Time {
    /// The time at `secs` seconds and `nanos` nanoseconds after midnight,
    /// if that is a time of day.
    pub fn from_num_seconds_from_midnight(secs: u32, nanos: u32) -> (r: Option<Time>)
        ensures
            r is Some <==> secs < SECS_PER_DAY && nanos < 1_000_000_000,
            r is Some ==> r->Some_0.secs == secs && r->Some_0.nanos == nanos,
    {
        if secs < SECS_PER_DAY && nanos < 1_000_000_000 {
            Some(Time { secs, nanos })
        } else {
            None
        }
    }

    /// The time at the given hour, minute and second, if that is a time of day.
    pub fn from_hms(hour: u32, min: u32, sec: u32) -> (r: Option<Time>)
        ensures
            r is Some <==> hour < 24 && min < 60 && sec < 60,
            r is Some ==> r->Some_0.secs == hour * 3600 + min * 60 + sec && r->Some_0.nanos == 0,
    {
        if hour < 24 && min < 60 && sec < 60 {
            Some(Time { secs: hour * 3600 + min * 60 + sec, nanos: 0 })
        } else {
            None
        }
    }

    /// The time `p` nanoseconds after midnight.
    fn from_pos(p: i128) -> (r: Time)
        requires
            0 <= p < NANOS_PER_DAY,
        ensures
            r.wf(),
            r.pos() == p,
    {
        let secs = (p / NANOS_PER_SEC) as u32;
        let nanos = (p % NANOS_PER_SEC) as u32;
        Time { secs, nanos }
    }

    fn pos_exec(&self) -> (r: i128)
        requires
            self.wf(),
        ensures
            r == self.pos(),
            0 <= r < NANOS_PER_DAY,
    {
        self.secs as i128 * NANOS_PER_SEC + self.nanos as i128
    }

    /// `p + d` wrapped into one day.
    fn wrapped(p: i128, d: i128) -> (r: i128)
        requires
            0 <= p < NANOS_PER_DAY,
            -MAX_NANOS <= d <= MAX_NANOS,
        ensures
            r == wrap_day(p + d),
            0 <= r < NANOS_PER_DAY,
    {
        let day = NANOS_PER_DAY;
        let ghost dd: int = day as int;
        let m: i128;
        let ghost k: int;
        if d >= 0 {
            m = d % day;
            proof {
                k = d as int / dd;
                lemma_fundamental_div_mod(d as int, dd);
                assert(d == k * dd + m);
            }
        } else {
            let t = (-d) % day;
            let ghost nd: int = -d;
            let ghost q: int = nd / dd;
            proof {
                lemma_fundamental_div_mod(nd, dd);
                assert(nd == dd * q + t);
            }
            if t == 0 {
                m = 0;
                proof {
                    k = -q;
                    assert(d == k * dd + m) by (nonlinear_arith)
                        requires
                            nd == dd * q + t,
                            nd == -d,
                            t == 0,
                            m == 0,
                            k == -q,
                    ;
                }
            } else {
                m = day - t;
                proof {
                    k = -q - 1;
                    assert(d == k * dd + m) by (nonlinear_arith)
                        requires
                            nd == dd * q + t,
                            nd == -d,
                            m == dd - t,
                            k == -q - 1,
                    ;
                }
            }
        }
        let s = p + m;
        let r = if s >= day { s - day } else { s };
        proof {
            let k2: int = if s >= day { k + 1 } else { k };
            assert(p + d == k2 * dd + r) by (nonlinear_arith)
                requires
                    dd == day,
                    d == k * dd + m,
                    s == p + m,
                    s >= day ==> r == s - day && k2 == k + 1,
                    s < day ==> r == s && k2 == k,
            ;
            lemma_fundamental_div_mod_converse(p + d, dd, k2, r as int);
        }
        r
    }
}

impl Spanable for Time {
    open spec fn pos(&self) -> int {
        self.secs * 1_000_000_000 + self.nanos
    }

    open spec fn wf(&self) -> bool {
        self.secs < SECS_PER_DAY && self.nanos < 1_000_000_000
    }

    /// A time of day wraps round midnight.
    open spec fn moved(p: int, d: int) -> Option<int> {
        Some(wrap_day(p + d))
    }

    proof fn lemma_pos_injective(a: Self, b: Self) {
        assert(a.secs == b.secs && a.nanos == b.nanos) by (nonlinear_arith)
            requires
                a.nanos < 1_000_000_000,
                b.nanos < 1_000_000_000,
                a.secs * 1_000_000_000 + a.nanos == b.secs * 1_000_000_000 + b.nanos,
        ;
    }

    fn precedes(&self, other: &Self) -> (r: bool) {
        self.secs < other.secs || (self.secs == other.secs && self.nanos < other.nanos)
    }

    fn checked_add(&self, d: &Duration) -> (r: Option<Self>) {
        let p = Time::wrapped(self.pos_exec(), d.num_nanoseconds());
        Some(Time::from_pos(p))
    }

    fn checked_sub(&self, d: &Duration) -> (r: Option<Self>) {
        let p = Time::wrapped(self.pos_exec(), -d.num_nanoseconds());
        Some(Time::from_pos(p))
    }

    fn signed_duration_since(&self, other: &Self) -> (r: Duration) {
        let n = self.pos_exec() - other.pos_exec();
        Duration::from_nanos(n).unwrap()
    }
}

/// The seconds since midnight and the nanoseconds of the time that chrono
/// reads from a text under a format; nanoseconds of one second or more mark a
/// leap second.
pub uninterp spec fn time_read(s: Seq<char>, fmt: Seq<char>) -> Option<(u32, u32)>;

/// The same, for chrono's plain text form of a time.
pub uninterp spec fn time_text_read(s: Seq<char>) -> Option<(u32, u32)>;

/// chrono's plain text form of a time.
pub uninterp spec fn time_shown(secs: u32, nanos: u32) -> Seq<char>;

/// A time written by chrono under a format, unless the format does not apply.
pub uninterp spec fn time_formatted(secs: u32, nanos: u32, fmt: Seq<char>) -> Option<Seq<char>>;

/// Relies on chrono's `NaiveTime::parse_from_str` for reading a time under a
/// format; a time it gives has under 86400 seconds and under two seconds of
/// nanoseconds.
#[verifier::external_body]
fn chrono_read_time(s: &str, fmt: &str) -> (r: Result<(u32, u32), chrono::ParseError>)
    ensures
        r is Ok <==> time_read(s@, fmt@) is Some,
        r matches Ok(v) ==> time_read(s@, fmt@) == Some(v) && v.0 < 86400 && v.1 < 2_000_000_000,
{
    chrono::NaiveTime::parse_from_str(s, fmt).map(|t| (t.num_seconds_from_midnight(), t.nanosecond()))
}

/// Relies on chrono's `FromStr` for `NaiveTime` for reading a time in its
/// plain text form.
#[verifier::external_body]
fn chrono_read_time_text(s: &str) -> (r: Result<(u32, u32), chrono::ParseError>)
    ensures
        r is Ok <==> time_text_read(s@) is Some,
        r matches Ok(v) ==> time_text_read(s@) == Some(v) && v.0 < 86400 && v.1 < 2_000_000_000,
{
    s.parse::<chrono::NaiveTime>().map(|t| (t.num_seconds_from_midnight(), t.nanosecond()))
}

/// Relies on chrono's `Display` for `NaiveTime` for the plain text form.
#[verifier::external_body]
fn chrono_show_time(secs: u32, nanos: u32) -> (r: String)
    requires
        secs < 86400,
        nanos < 1_000_000_000,
    ensures
        r@ == time_shown(secs, nanos),
{
    match chrono::NaiveTime::from_num_seconds_from_midnight_opt(secs, nanos) {
        Some(t) => t.to_string(),
        None => String::new(),
    }
}

/// Relies on chrono's `NaiveTime::format` for writing a time under a format;
/// writing fails where the format asks for what a time does not have.
#[verifier::external_body]
fn chrono_format_time(secs: u32, nanos: u32, fmt: &str) -> (r: Option<String>)
    requires
        secs < 86400,
        nanos < 1_000_000_000,
    ensures
        r is None <==> time_formatted(secs, nanos, fmt@) is None,
        r matches Some(t) ==> time_formatted(secs, nanos, fmt@) == Some(t@),
{
    let t = chrono::NaiveTime::from_num_seconds_from_midnight_opt(secs, nanos)?;
    let mut out = String::new();
    match write!(out, "{}", t.format(fmt)) {
        Ok(()) => Some(out),
        Err(_) => None,
    }
}

/// The time for what chrono read, unless it is a leap second.
pub open spec fn time_of(v: Option<(u32, u32)>) -> Option<Time> {
    match v {
        Some((secs, nanos)) => if nanos < 1_000_000_000 {
            Some(Time { secs, nanos })
        } else {
            None
        },
        None => None,
    }
}

/// The time for what chrono read; a leap second is out of range.
fn time_from_read(r: Result<(u32, u32), chrono::ParseError>) -> (t: Result<Time, Error>)
    requires
        r matches Ok(v) ==> v.0 < 86400,
    ensures
        r is Err ==> t is Err,
        r matches Ok(v) ==> (t is Ok <==> v.1 < 1_000_000_000),
        r matches Ok(v) ==> (t matches Ok(x) ==> x.wf() && x == (Time { secs: v.0, nanos: v.1 })),
        t matches Err(e) ==> e is Parsing || e is OutOfRange,
{
    match r {
        Ok((secs, nanos)) => if nanos < 1_000_000_000 {
            Ok(Time { secs, nanos })
        } else {
            Err(Error::OutOfRange)
        },
        Err(e) => Err(Error::Parsing(e)),
    }
}

impl Parsable for Time {
    open spec fn read(s: Seq<char>, fmt: Seq<char>) -> Option<Time> {
        time_of(time_read(s, fmt))
    }

    open spec fn read_text(s: Seq<char>) -> Option<Time> {
        time_of(time_text_read(s))
    }

    fn parse_from_str(s: &str, fmt: &str) -> (r: Result<Time, Error>) {
        time_from_read(chrono_read_time(s, fmt))
    }

    fn from_str(s: &str) -> (r: Result<Time, Error>) {
        time_from_read(chrono_read_time_text(s))
    }
}

impl core::str::FromStr for Time {
    type Err = Error;

    fn from_str(s: &str) -> Result<Time, Error> {
        <Time as Parsable>::from_str(s)
    }
}

impl Formatable for Time {
    open spec fn shown(&self) -> Seq<char> {
        time_shown(self.secs, self.nanos)
    }

    open spec fn formatted(&self, fmt: Seq<char>) -> Option<Seq<char>> {
        time_formatted(self.secs, self.nanos, fmt)
    }

    fn to_string(&self) -> (r: String) {
        chrono_show_time(self.secs, self.nanos)
    }

    fn format(&self, fmt: &str) -> (r: Option<String>) {
        chrono_format_time(self.secs, self.nanos, fmt)
    }
}

} // verus!
