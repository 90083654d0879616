use timespan::{
    Date, DateTime, Duration, Error, Formatable, NaiveDateSpan, NaiveDateTimeSpan, NaiveTimeSpan, Parsable, Time,
};

fn span(s: &str) -> NaiveTimeSpan {
    NaiveTimeSpan::from_str(s).unwrap()
}

#[test]
fn naive_date_span_christmas() {
    let span: NaiveDateSpan = "2017-12-24 - 2017-12-26".parse().unwrap();

    assert!(span.start == "2017-12-24".parse().unwrap());
    assert!(span.end == "2017-12-26".parse().unwrap());
    assert!(span.contains(&"2017-12-25".parse().unwrap()));
}

#[test]
fn ramadan() {
    let span: NaiveDateTimeSpan = "2018-05-15T21:00:00 - 2018-06-14T21:00:00".parse().unwrap();
    assert!(span.contains(&"2018-05-21T14:37:16".parse().unwrap()));
    assert!(!span.contains(&"2018-02-17T08:22:59".parse().unwrap()));
}

#[test]
fn date_day_numbers_follow_the_calendar() {
    let d = <Date as Parsable>::from_str("2017-12-24").unwrap();
    assert_eq!(d.days, 736687);
    assert_eq!(<Date as Parsable>::from_str("0001-01-01").unwrap().days, 1);
    assert_eq!(d.to_string(), "2017-12-24");
    assert_eq!(d.format("%d.%m.%Y").unwrap(), "24.12.2017");
    assert!(d.format("%H").is_none());
    assert_eq!(<Date as Parsable>::parse_from_str("24.12.2017", "%d.%m.%Y").unwrap(), d);
}

#[test]
fn time_text_forms() {
    let t = <Time as Parsable>::from_str("09:30:15").unwrap();
    assert_eq!((t.secs, t.nanos), (9 * 3600 + 30 * 60 + 15, 0));
    assert_eq!(t.to_string(), "09:30:15");
    assert_eq!(t.format("%H.%M").unwrap(), "09.30");
    assert!(t.format("%Y").is_none());
    assert_eq!(<Time as Parsable>::parse_from_str("9h30", "%Hh%M").unwrap(), Time::from_hms(9, 30, 0).unwrap());
}

#[test]
fn leap_second_is_out_of_range() {
    assert!(matches!(<Time as Parsable>::from_str("23:59:60"), Err(Error::OutOfRange)));
    assert!(matches!(<Time as Parsable>::from_str("23:61:00"), Err(Error::Parsing(_))));
}

#[test]
fn datetime_text_forms() {
    let t = <DateTime as Parsable>::from_str("2018-05-15T21:00:00").unwrap();
    assert_eq!(t.date.days, <Date as Parsable>::from_str("2018-05-15").unwrap().days);
    assert_eq!(t.time, Time::from_hms(21, 0, 0).unwrap());
    assert_eq!(t.to_string(), "2018-05-15 21:00:00");
    assert_eq!(t.format("%d/%m %H:%M").unwrap(), "15/05 21:00");
}

#[test]
fn new_and_duration() {
    let a = Time::from_hms(13, 0, 0).unwrap();
    let b = Time::from_hms(14, 30, 0).unwrap();
    let s = NaiveTimeSpan::new(a, b).unwrap();
    assert_eq!(s.duration(), Duration::minutes(90));
    assert_eq!(s.duration().num_seconds(), 5400);
    assert!(matches!(NaiveTimeSpan::new(b, a), Err(Error::Ordering)));
    assert!(matches!(NaiveTimeSpan::new(a, a), Err(Error::Ordering)));
}

#[test]
fn date_and_datetime_durations() {
    let d = NaiveDateSpan::from_str("2017-12-24 - 2017-12-26").unwrap();
    assert_eq!(d.duration(), Duration::hours(48));
    let t = NaiveDateTimeSpan::from_str("2018-05-15T21:00:00 - 2018-05-16T01:30:00").unwrap();
    assert_eq!(t.duration(), Duration::minutes(270));
}

#[test]
fn contains_both_ends() {
    let s = span("09:00:00 - 10:00:00");
    assert!(s.contains(&s.start));
    assert!(s.contains(&s.end));
}

#[test]
fn plain_form_round_trip() {
    let s = span("09:15:30 - 17:00:00");
    assert_eq!(NaiveTimeSpan::from_str(&s.to_string()).unwrap(), s);
    let d = NaiveDateSpan::from_str("2017-12-24 - 2018-01-02").unwrap();
    assert_eq!(d.to_string(), "2017-12-24 - 2018-01-02");
    assert_eq!(NaiveDateSpan::from_str(&d.to_string()).unwrap(), d);
}

#[test]
fn intersection_and_union_commute() {
    let a = span("09:00:00 - 11:00:00");
    let b = span("10:00:00 - 12:00:00");
    assert_eq!(a.intersection(&b).unwrap(), b.intersection(&a).unwrap());
    assert_eq!(a.intersection(&b).unwrap(), span("10:00:00 - 11:00:00"));
    assert_eq!(a.union(&b).unwrap(), b.union(&a).unwrap());
    let c = span("11:00:00 - 12:00:00");
    assert_eq!(a.union(&c).unwrap(), span("09:00:00 - 12:00:00"));
    assert_eq!(c.union(&a).unwrap(), span("09:00:00 - 12:00:00"));
}

#[test]
fn intersection_of_touching_and_apart() {
    let a = span("09:00:00 - 10:00:00");
    let b = span("10:00:00 - 11:00:00");
    let c = span("11:00:00 - 12:00:00");
    assert!(matches!(a.intersection(&b), Err(Error::Empty)));
    assert!(matches!(b.intersection(&a), Err(Error::Empty)));
    assert!(matches!(a.intersection(&c), Err(Error::NotContinuous)));
    assert!(matches!(a.union(&c), Err(Error::NotContinuous)));
}

#[test]
fn difference_scenario() {
    let a = span("09:00:00 - 11:00:00");
    let b = span("10:00:00 - 12:00:00");
    assert_eq!(a.difference(&b).unwrap(), span("09:00:00 - 10:00:00"));
    assert_eq!(b.difference(&a).unwrap(), span("11:00:00 - 12:00:00"));
    let outer = span("09:00:00 - 12:00:00");
    let inner = span("10:00:00 - 11:00:00");
    assert!(matches!(outer.difference(&inner), Err(Error::NotContinuous)));
    assert!(matches!(inner.difference(&outer), Err(Error::Empty)));
}

#[test]
fn symmetric_difference_scenario() {
    let a = span("09:00:00 - 10:00:00");
    let b = span("10:00:00 - 11:00:00");
    assert_eq!(a.symmetric_difference(&b).unwrap(), span("09:00:00 - 11:00:00"));
    let c = span("11:00:00 - 12:00:00");
    assert!(matches!(a.symmetric_difference(&c), Err(Error::NotContinuous)));
}

#[test]
fn split_off_scenario() {
    let s = span("10:00:00 - 12:00:00");
    let (a, b) = s.split_off(&Time::from_hms(11, 0, 0).unwrap()).unwrap();
    assert_eq!(a, span("10:00:00 - 11:00:00"));
    assert_eq!(b, span("11:00:00 - 12:00:00"));
    assert!(matches!(s.split_off(&Time::from_hms(10, 0, 0).unwrap()), Err(Error::OutOfRange)));
}

#[test]
fn failed_mutations_leave_the_span() {
    let before = span("10:00:00 - 11:00:00");
    let mut s = before;
    assert!(matches!(s.append(&Duration::hours(-1)), Err(Error::Empty)));
    assert_eq!(s, before);
    assert!(matches!(s.append(&Duration::hours(-2)), Err(Error::Empty)));
    assert_eq!(s.end, before.end);
    assert!(matches!(s.prepend(&Duration::hours(-1)), Err(Error::Empty)));
    assert!(matches!(s.pop(&Duration::hours(1)), Err(Error::Empty)));
    assert!(matches!(s.shift(&Duration::hours(2)), Err(Error::Empty)));
    assert_eq!(s, before);
}

#[test]
fn mutations_move_one_end() {
    let mut s = span("10:00:00 - 11:00:00");
    s.append(&Duration::minutes(30)).unwrap();
    assert_eq!(s, span("10:00:00 - 11:30:00"));
    s.prepend(&Duration::seconds(90)).unwrap();
    assert_eq!(s, span("09:58:30 - 11:30:00"));
    s.pop(&Duration::minutes(15)).unwrap();
    assert_eq!(s, span("09:58:30 - 11:15:00"));
    s.shift(&Duration::milliseconds(1500)).unwrap();
    assert_eq!(s, span("09:58:31.500 - 11:15:00"));
}

#[test]
fn time_wraps_round_midnight() {
    let mut s = span("10:00:00 - 11:00:00");
    assert!(matches!(s.append(&Duration::hours(23)), Err(Error::Empty)));
    s.append(&Duration::hours(25)).unwrap();
    assert_eq!(s, span("10:00:00 - 12:00:00"));
}

#[test]
fn dates_move_by_whole_days() {
    let mut d = NaiveDateSpan::from_str("2017-12-24 - 2017-12-26").unwrap();
    d.append(&Duration::hours(36)).unwrap();
    assert_eq!(d, NaiveDateSpan::from_str("2017-12-24 - 2017-12-27").unwrap());
    d.prepend(&Duration::hours(-23)).unwrap();
    assert_eq!(d, NaiveDateSpan::from_str("2017-12-24 - 2017-12-27").unwrap());
    let mut far = NaiveDateSpan::new(
        Date::from_num_days_from_ce(1).unwrap(),
        Date::from_num_days_from_ce(95_745_399).unwrap(),
    )
    .unwrap();
    assert!(matches!(far.append(&Duration::hours(24)), Err(Error::OutOfRange)));
    assert!(Date::from_num_days_from_ce(95_745_400).is_none());
}

#[test]
fn datetimes_move_by_the_whole_duration() {
    let mut t = NaiveDateTimeSpan::from_str("2018-05-15T21:00:00 - 2018-05-15T23:00:00").unwrap();
    t.append(&Duration::hours(2)).unwrap();
    assert_eq!(t, NaiveDateTimeSpan::from_str("2018-05-15T21:00:00 - 2018-05-16T01:00:00").unwrap());
}

#[test]
fn template_with_end_first() {
    let s = NaiveTimeSpan::parse_from_str("end: 17.00, start: 09.00", "end: {end}, start: {start}", "%H.%M", "%H.%M")
        .unwrap();
    assert_eq!(s, span("09:00:00 - 17:00:00"));
    let wrong = NaiveTimeSpan::parse_from_str("from 17.00 to 09.00", "from {start} to {end}", "%H.%M", "%H.%M");
    assert!(matches!(wrong, Err(Error::Ordering)));
    let special = NaiveTimeSpan::parse_from_str("[09.00]+(17.00)", "[{start}]+({end})", "%H.%M", "%H.%M").unwrap();
    assert_eq!(special, span("09:00:00 - 17:00:00"));
}

#[test]
fn template_format_replaces_every_placeholder() {
    let s = span("09:00:00 - 17:00:00");
    let d = s.format("{start}-{end} ({start})", "%H", "%H");
    assert_eq!(d.to_string().unwrap(), "09-17 (09)");
    let none = s.format("no placeholders", "%H", "%M");
    assert_eq!(none.to_string().unwrap(), "no placeholders");
}

#[test]
fn plain_form_separators() {
    assert_eq!(NaiveTimeSpan::from_str("09:15:00 -12:00:00").unwrap(), span("09:15:00 - 12:00:00"));
    assert_eq!(NaiveTimeSpan::from_str("09:15:00\t-\t12:00:00").unwrap(), span("09:15:00 - 12:00:00"));
    assert!(matches!(NaiveTimeSpan::from_str("09:15:00"), Err(Error::Parsing(_))));
}

#[test]
fn error_descriptions() {
    assert_eq!(Error::Empty.description(), "The resulting span is empty");
    assert_eq!(Error::NotContinuous.description(), "The resulting span is not continuous");
    assert_eq!(Error::Ordering.description(), "The left value is not smaller than the right value");
    assert_eq!(Error::BadFormat.description(), "The given string has a bad format");
}

#[test]
fn duration_constructors() {
    assert_eq!(Duration::hours(1).num_nanoseconds(), 3_600_000_000_000);
    assert_eq!(Duration::minutes(-2).num_seconds(), -120);
    assert_eq!(Duration::nanoseconds(-1_500_000_000).num_seconds(), -1);
    assert_eq!(Duration::milliseconds(2500).num_seconds(), 2);
    assert!(Duration::from_nanos(9_223_372_036_854_775_807_000_001).is_none());
    assert!(Duration::from_nanos(-9_223_372_036_854_775_807_000_000).is_some());
}
