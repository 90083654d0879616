use crate::duration::{Duration, MAX_NANOS};
use crate::error::Error;
use crate::point::{Formatable, Parsable, Spanable};
use crate::time::NANOS_PER_DAY;
use chrono::Datelike;
use std::fmt::Write;
use vstd::arithmetic::div_mod::lemma_div_multiples_vanish;
use vstd::prelude::*;

verus! {

/// The day number of the first date that a `Date` can hold (the first day of
/// the year -262143).
pub const MIN_DAYS: i32 = -95_746_129;

/// The day number of the last date that a `Date` can hold (the last day of
/// the year 262142).
pub const MAX_DAYS: i32 = 95_745_399;

/// A calendar date, held as its day number: 0001-01-01 is day 1.
#[derive(Clone, Copy, Debug, PartialEq, Eq, Hash, PartialOrd, Ord)]
pub struct Date {
    pub days: i32,
}

/// The whole days in `d` nanoseconds, rounded toward zero.
pub open spec fn whole_days(d: int) -> int {
    if d >= 0 { d / (NANOS_PER_DAY as int) } else { -((-d) / (NANOS_PER_DAY as int)) }
}

impl Date {
    /// The date with the day number `days`, if a `Date` can hold it.
    pub fn from_num_days_from_ce(days: i32) -> (r: Option<Date>)
        ensures
            r is Some <==> MIN_DAYS <= days <= MAX_DAYS,
            r matches Some(x) ==> x.days == days,
    {
        if MIN_DAYS <= days && days <= MAX_DAYS {
            Some(Date { days })
        } else {
            None
        }
    }

    /// The date `whole_days(d)` days after this one, if a `Date` can hold it.
    fn add_nanos(&self, d: i128) -> (r: Option<Date>)
        requires
            self.wf(),
            -MAX_NANOS <= d <= MAX_NANOS,
        ensures
            match r {
                Some(x) => x.wf() && Self::moved(self.pos(), d as int) == Some(x.pos()),
                None => Self::moved(self.pos(), d as int) is None,
            },
    {
        let t: i128 = if d >= 0 { d / NANOS_PER_DAY } else { -((-d) / NANOS_PER_DAY) };
        let nd: i128 = self.days as i128 + t;
        proof {
            lemma_div_multiples_vanish(self.days as int, NANOS_PER_DAY as int);
        }
        if MIN_DAYS as i128 <= nd && nd <= MAX_DAYS as i128 {
            Some(Date { days: nd as i32 })
        } else {
            None
        }
    }
}

impl Spanable for Date {
    open spec fn pos(&self) -> int {
        NANOS_PER_DAY * self.days
    }

    open spec fn wf(&self) -> bool {
        MIN_DAYS <= self.days <= MAX_DAYS
    }

    /// A date moves by the whole days of a duration.
    open spec fn moved(p: int, d: int) -> Option<int> {
        let nd = p / (NANOS_PER_DAY as int) + whole_days(d);
        if MIN_DAYS <= nd <= MAX_DAYS {
            Some(NANOS_PER_DAY * nd)
        } else {
            None
        }
    }

    proof fn lemma_pos_injective(a: Self, b: Self) {
        assert(a.days == b.days) by (nonlinear_arith)
            requires
                NANOS_PER_DAY * a.days == NANOS_PER_DAY * b.days,
                NANOS_PER_DAY > 0,
        ;
    }

    fn precedes(&self, other: &Self) -> (r: bool) {
        proof {
            assert(self.days < other.days <==> NANOS_PER_DAY * self.days < NANOS_PER_DAY * other.days)
                by (nonlinear_arith)
                requires
                    NANOS_PER_DAY > 0,
            ;
        }
        self.days < other.days
    }

    fn checked_add(&self, d: &Duration) -> (r: Option<Self>) {
        self.add_nanos(d.num_nanoseconds())
    }

    fn checked_sub(&self, d: &Duration) -> (r: Option<Self>) {
        self.add_nanos(-d.num_nanoseconds())
    }

    fn signed_duration_since(&self, other: &Self) -> (r: Duration) {
        let n = (self.days as i128 - other.days as i128) * NANOS_PER_DAY;
        proof {
            assert(n == NANOS_PER_DAY * self.days - NANOS_PER_DAY * other.days) by (nonlinear_arith)
                requires
                    n == (self.days - other.days) * NANOS_PER_DAY,
            ;
        }
        Duration::from_nanos(n).unwrap()
    }
}

/// The day number of the date that chrono reads from a text under a format.
pub uninterp spec fn date_read(s: Seq<char>, fmt: Seq<char>) -> Option<i32>;

/// The same, for chrono's plain text form of a date.
pub uninterp spec fn date_text_read(s: Seq<char>) -> Option<i32>;

/// chrono's plain text form of a date.
pub uninterp spec fn date_shown(days: i32) -> Seq<char>;

/// A date written by chrono under a format, unless the format does not apply.
pub uninterp spec fn date_formatted(days: i32, fmt: Seq<char>) -> Option<Seq<char>>;

/// Relies on chrono's `NaiveDate::parse_from_str` for reading a date under a
/// format; the dates that chrono holds run from the year -262143 to 262142.
#[verifier::external_body]
fn chrono_read_date(s: &str, fmt: &str) -> (r: Result<i32, chrono::ParseError>)
    ensures
        r is Ok <==> date_read(s@, fmt@) is Some,
        r matches Ok(v) ==> date_read(s@, fmt@) == Some(v) && MIN_DAYS <= v <= MAX_DAYS,
{
    chrono::NaiveDate::parse_from_str(s, fmt).map(|d| d.num_days_from_ce())
}

/// Relies on chrono's `FromStr` for `NaiveDate` for reading a date in its
/// plain text form.
#[verifier::external_body]
fn chrono_read_date_text(s: &str) -> (r: Result<i32, chrono::ParseError>)
    ensures
        r is Ok <==> date_text_read(s@) is Some,
        r matches Ok(v) ==> date_text_read(s@) == Some(v) && MIN_DAYS <= v <= MAX_DAYS,
{
    s.parse::<chrono::NaiveDate>().map(|d| d.num_days_from_ce())
}

/// Relies on chrono's `Display` for `NaiveDate` for the plain text form.
#[verifier::external_body]
fn chrono_show_date(days: i32) -> (r: String)
    requires
        MIN_DAYS <= days <= MAX_DAYS,
    ensures
        r@ == date_shown(days),
{
    match chrono::NaiveDate::from_num_days_from_ce_opt(days) {
        Some(d) => d.to_string(),
        None => String::new(),
    }
}

/// Relies on chrono's `NaiveDate::format` for writing a date under a format;
/// writing fails where the format asks for what a date does not have.
#[verifier::external_body]
fn chrono_format_date(days: i32, fmt: &str) -> (r: Option<String>)
    requires
        MIN_DAYS <= days <= MAX_DAYS,
    ensures
        r is None <==> date_formatted(days, fmt@) is None,
        r matches Some(t) ==> date_formatted(days, fmt@) == Some(t@),
{
    let d = chrono::NaiveDate::from_num_days_from_ce_opt(days)?;
    let mut out = String::new();
    match write!(out, "{}", d.format(fmt)) {
        Ok(()) => Some(out),
        Err(_) => None,
    }
}

/// The date for what chrono read.
fn date_from_read(r: Result<i32, chrono::ParseError>) -> (t: Result<Date, Error>)
    requires
        r matches Ok(v) ==> MIN_DAYS <= v <= MAX_DAYS,
    ensures
        t is Ok <==> r is Ok,
        t matches Ok(x) ==> x.wf() && r == Ok::<i32, chrono::ParseError>(x.days),
        t matches Err(e) ==> e is Parsing,
{
    match r {
        Ok(days) => Ok(Date { days }),
        Err(e) => Err(Error::Parsing(e)),
    }
}

/// The date for a day number that chrono read.
pub open spec fn date_of(v: Option<i32>) -> Option<Date> {
    match v {
        Some(days) => Some(Date { days }),
        None => None,
    }
}

impl Parsable for Date {
    open spec fn read(s: Seq<char>, fmt: Seq<char>) -> Option<Date> {
        date_of(date_read(s, fmt))
    }

    open spec fn read_text(s: Seq<char>) -> Option<Date> {
        date_of(date_text_read(s))
    }

    fn parse_from_str(s: &str, fmt: &str) -> (r: Result<Date, Error>) {
        date_from_read(chrono_read_date(s, fmt))
    }

    fn from_str(s: &str) -> (r: Result<Date, Error>) {
        date_from_read(chrono_read_date_text(s))
    }
}

impl core::str::FromStr for Date {
    type Err = Error;

    fn from_str(s: &str) -> Result<Date, Error> {
        <Date as Parsable>::from_str(s)
    }
}

impl Formatable for Date {
    open spec fn shown(&self) -> Seq<char> {
        date_shown(self.days)
    }

    open spec fn formatted(&self, fmt: Seq<char>) -> Option<Seq<char>> {
        date_formatted(self.days, fmt)
    }

    fn to_string(&self) -> (r: String) {
        chrono_show_date(self.days)
    }

    fn format(&self, fmt: &str) -> (r: Option<String>) {
        chrono_format_date(self.days, fmt)
    }
}

} // verus!
