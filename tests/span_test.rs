use timespan::{Duration, Error, NaiveTimeSpan, Parsable, Span, Time};

fn span(s: &str) -> NaiveTimeSpan {
    NaiveTimeSpan::from_str(s).unwrap()
}

fn time(s: &str) -> Time {
    <Time as Parsable>::from_str(s).unwrap()
}

#[test]
fn new_test() {
    assert!(NaiveTimeSpan::new(Time::from_hms(12, 0, 0).unwrap(), Time::from_hms(12, 30, 0).unwrap()).is_ok());
    assert!(NaiveTimeSpan::new(Time::from_hms(12, 30, 0).unwrap(), Time::from_hms(12, 0, 0).unwrap()).is_err());
}

#[test]
fn parse_from_str_test() {
    let parse = NaiveTimeSpan::parse_from_str;
    let s = "from 09.00 to 17.00 on Monday";

    let ts1 = parse(s, "from {start} to {end} on Monday", "%H.%M", "%H.%M").unwrap();
    assert!(ts1 == NaiveTimeSpan::from_str("09:00:00 - 17:00:00").unwrap());

    let ts2 = parse("end: 17.00, start: 09.00", "end: {end}, start: {start}", "%H.%M", "%H.%M").unwrap();
    assert!(ts2 == NaiveTimeSpan::from_str("09:00:00 - 17:00:00").unwrap());

    assert!(parse(s, "foo", "%H.%M", "%H.%M").is_err());
    assert!(parse(s, "from {start}", "%H.%M", "%H.%M").is_err());
    assert!(parse(s, "to {end}", "%H.%M", "%H.%M").is_err());
    assert!(parse(s, "from {start} to {end} on Monday", "%Y", "%Y").is_err());
}

#[test]
fn duration_test() {
    let ts = span("13:00:00 - 14:00:00");
    assert!(ts.duration() == Duration::hours(1));
}

#[test]
fn difference_test() {
    let t1 = span("09:00:00 - 11:00:00");
    let t2 = span("10:00:00 - 12:00:00");
    let t12 = span("09:00:00 - 10:00:00");
    let t21 = span("11:00:00 - 12:00:00");
    assert!(t1.difference(&t2).unwrap() == t12);
    assert!(t2.difference(&t1).unwrap() == t21);

    let t3 = span("09:00:00 - 10:00:00");
    let t4 = span("11:00:00 - 12:00:00");
    assert!(t3.difference(&t4).unwrap() == t3);
    assert!(t4.difference(&t3).unwrap() == t4);

    let t5 = span("09:00:00 - 10:00:00");
    let t6 = span("10:00:00 - 11:00:00");
    assert!(t5.difference(&t4).unwrap() == t5);
    assert!(t6.difference(&t3).unwrap() == t6);

    let t7 = span("09:00:00 - 12:00:00");
    let t8 = span("09:00:00 - 10:00:00");
    let t9 = span("10:00:00 - 11:00:00");
    let ta = span("11:00:00 - 12:00:00");
    assert!(t7.difference(&t8).unwrap() == t2);
    assert!(t7.difference(&t9).is_err());
    assert!(t7.difference(&ta).unwrap() == t1);
    assert!(t8.difference(&t7).is_err());
    assert!(t9.difference(&t7).is_err());
    assert!(ta.difference(&t7).is_err());
}

#[test]
fn symmetric_difference_test() {
    let t1 = span("09:00:00 - 10:00:00");
    let t2 = span("10:00:00 - 11:00:00");
    let t3 = span("09:00:00 - 11:00:00");
    let t4 = span("11:00:00 - 12:00:00");

    assert!(t1.symmetric_difference(&t2).unwrap() == t3);
    assert!(t2.symmetric_difference(&t1).unwrap() == t3);
    assert!(t1.symmetric_difference(&t4).is_err());
}

#[test]
fn intersection_test() {
    let t1 = span("09:00:00 - 12:00:00");
    let t2 = span("09:00:00 - 10:00:00");
    let t3 = span("10:00:00 - 11:00:00");
    let t4 = span("11:00:00 - 12:00:00");
    let t5 = span("12:00:00 - 13:00:00");
    let t6 = span("11:00:00 - 13:00:00");

    assert!(t1.intersection(&t2).unwrap() == t2);
    assert!(t1.intersection(&t3).unwrap() == t3);
    assert!(t1.intersection(&t4).unwrap() == t4);
    assert!(t1.intersection(&t5).is_err());
    assert!(t1.intersection(&t6).unwrap() == t4);
}

#[test]
fn union_test() {
    let t1 = span("09:00:00 - 11:00:00");
    let t2 = span("10:00:00 - 12:00:00");
    let t3 = span("11:00:00 - 13:00:00");
    let t4 = span("12:00:00 - 14:00:00");

    let t12 = span("09:00:00 - 12:00:00");
    let t13 = span("09:00:00 - 13:00:00");

    assert!(t1.union(&t2).unwrap() == t12);
    assert!(t1.union(&t3).unwrap() == t13);
    assert!(t1.union(&t4).is_err());
}

#[test]
fn contains_test() {
    let ts = span("09:00:00 - 10:00:00");
    let t1 = time("09:00:00");
    let t2 = time("09:30:00");
    let t3 = time("10:00:00");
    let t4 = time("10:30:00");
    let t5 = time("08:30:00");

    assert!(ts.contains(&t1));
    assert!(ts.contains(&t2));
    assert!(ts.contains(&t3));
    assert!(!ts.contains(&t4));
    assert!(!ts.contains(&t5));
}

#[test]
fn is_disjoint_test() {
    let t1 = span("09:00:00 - 11:00:00");
    let t2 = span("10:00:00 - 12:00:00");
    let t3 = span("11:00:00 - 13:00:00");
    let t4 = span("12:00:00 - 14:00:00");

    assert!(!t1.is_disjoint(&t2));
    assert!(t1.is_disjoint(&t3));
    assert!(t1.is_disjoint(&t4));
}

#[test]
fn is_subset_test() {
    let t1 = span("09:00:00 - 12:00:00");
    let t2 = span("08:00:00 - 09:00:00");
    let t3 = span("09:00:00 - 10:00:00");
    let t4 = span("10:00:00 - 11:00:00");
    let t5 = span("11:00:00 - 12:00:00");
    let t6 = span("12:00:00 - 13:00:00");

    assert!(!t2.is_subset(&t1));
    assert!(t3.is_subset(&t1));
    assert!(t4.is_subset(&t1));
    assert!(t5.is_subset(&t1));
    assert!(!t6.is_subset(&t1));
}

#[test]
fn is_superset_test() {
    let t1 = span("09:00:00 - 12:00:00");
    let t2 = span("08:00:00 - 09:00:00");
    let t3 = span("09:00:00 - 10:00:00");
    let t4 = span("10:00:00 - 11:00:00");
    let t5 = span("11:00:00 - 12:00:00");
    let t6 = span("12:00:00 - 13:00:00");

    assert!(!t1.is_superset(&t2));
    assert!(t1.is_superset(&t3));
    assert!(t1.is_superset(&t4));
    assert!(t1.is_superset(&t5));
    assert!(!t1.is_superset(&t6));
}

#[test]
fn split_off_test() {
    let ts = span("10:00:00 - 12:00:00");
    let t1 = time("09:00:00");
    let t2 = time("10:00:00");
    let t3 = time("11:00:00");
    let t4 = time("12:00:00");
    let t5 = time("13:00:00");

    let ts1 = span("10:00:00 - 11:00:00");
    let ts2 = span("11:00:00 - 12:00:00");

    assert!(ts.split_off(&t1).is_err());
    assert!(ts.split_off(&t2).is_err());
    assert!(ts.split_off(&t3).unwrap() == (ts1, ts2));
    assert!(ts.split_off(&t4).is_err());
    assert!(ts.split_off(&t5).is_err());
}

#[test]
fn append_test() {
    let t1 = span("10:00:00 - 11:00:00");
    let t2 = span("10:00:00 - 12:00:00");
    let d1 = Duration::hours(1);
    let d2 = Duration::hours(-1);

    let mut t3 = t1.clone();
    t3.append(&d1).unwrap();
    assert!(t3 == t2);

    let mut t4 = t1.clone();
    assert!(t4.append(&d2).is_err());
}

#[test]
fn prepend_test() {
    let t1 = span("10:00:00 - 11:00:00");
    let t2 = span("09:00:00 - 11:00:00");
    let d1 = Duration::hours(1);
    let d2 = Duration::hours(-1);

    let mut t3 = t1.clone();
    t3.prepend(&d1).unwrap();
    assert!(t3 == t2);

    let mut t4 = t1.clone();
    assert!(t4.prepend(&d2).is_err());
}

#[test]
fn pop_test() {
    let t1 = span("10:00:00 - 11:00:00");
    let t2 = span("10:00:00 - 12:00:00");
    let d1 = Duration::hours(1);
    let d2 = Duration::hours(-1);

    let mut t3 = t1.clone();
    assert!(t3.pop(&d1).is_err());

    let mut t4 = t1.clone();
    t4.pop(&d2).unwrap();
    assert!(t4 == t2);
}

#[test]
fn shift_test() {
    let t1 = span("10:00:00 - 11:00:00");
    let t2 = span("09:00:00 - 11:00:00");
    let d1 = Duration::hours(1);
    let d2 = Duration::hours(-1);

    let mut t3 = t1.clone();
    assert!(t3.shift(&d1).is_err());

    let mut t4 = t1.clone();
    t4.shift(&d2).unwrap();
    assert!(t4 == t2);
}

#[test]
fn from_str_test() {
    let parsed = NaiveTimeSpan::from_str("10:45:00 - 15:30:00").unwrap();
    let parsed_reference =
        NaiveTimeSpan::new(Time::from_hms(10, 45, 0).unwrap(), Time::from_hms(15, 30, 0).unwrap()).unwrap();
    assert!(parsed == parsed_reference);

    assert!(NaiveTimeSpan::from_str("10.45.00 - 15.30.00").is_err());
    assert!(NaiveTimeSpan::from_str("09:15:00-12:00:00").is_ok());
    assert!(NaiveTimeSpan::from_str("11:11").is_err());
    assert!(NaiveTimeSpan::from_str("").is_err());
}

#[test]
fn span_test_fmt_test() {
    let ts = NaiveTimeSpan::new(Time::from_hms(12, 0, 0).unwrap(), Time::from_hms(12, 30, 0).unwrap()).unwrap();
    assert!(ts.to_string() == "12:00:00 - 12:30:00");
}

#[test]
fn delayed_format_test_fmt_test() {
    let ts = span("09:00:00 - 17:00:00");

    let d1 = ts.format("Opened from {start} to {end} on Monday", "%H.%M", "%H.%M");
    assert!(d1.to_string().unwrap() == "Opened from 09.00 to 17.00 on Monday");

    let d2 = ts.format("Opened from {start}", "%H.%M", "");
    assert!(d2.to_string().unwrap() == "Opened from 09.00");

    let d3 = ts.format("Opened until {end}", "", "%H.%M");
    assert!(d3.to_string().unwrap() == "Opened until 17.00");

    let d4 = ts.format("{start} - {end}", "%Y", "%H.%M");
    assert!(d4.to_string().is_none());

    let d5 = ts.format("{start} - {end}", "%H.%M", "%Y");
    assert!(d5.to_string().is_none());
}

#[test]
fn morning() {
    let span: NaiveTimeSpan = "06:00:00 - 09:00:00".parse().unwrap();
    let breakfast = "07:30:00".parse().unwrap();
    let dinner = "19:00:00".parse().unwrap();

    assert!(span.contains(&breakfast));
    assert!(!span.contains(&dinner));
}

#[test]
fn template_errors_name_the_missing_placeholder() {
    let s = "from 09.00 to 17.00 on Monday";
    let parse = NaiveTimeSpan::parse_from_str;
    assert!(matches!(parse(s, "foo", "%H.%M", "%H.%M"), Err(Error::Empty)));
    assert!(matches!(parse(s, "from {start}", "%H.%M", "%H.%M"), Err(Error::NoEnd)));
    assert!(matches!(parse(s, "to {end}", "%H.%M", "%H.%M"), Err(Error::NoStart)));
    assert!(matches!(parse(s, "from {start} to {end} on Monday", "%Y", "%Y"), Err(Error::Parsing(_))));
    let ts = parse(s, "from {start} to {end} on Monday", "%H.%M", "%H.%M").unwrap();
    assert!(ts.start == Time::from_hms(9, 0, 0).unwrap());
    assert!(ts.end == Time::from_hms(17, 0, 0).unwrap());
}

#[test]
fn span_from_groups_orders_by_template() {
    let a = Span::<Time>::from_groups("end: {end}, start: {start}", "17.00", "09.00", "%H.%M", "%H.%M").unwrap();
    assert!(a == span("09:00:00 - 17:00:00"));
    let b = Span::<Time>::from_groups("{start}/{end}", "09.00", "17.00", "%H.%M", "%H.%M").unwrap();
    assert!(b == a);
    assert!(matches!(Span::<Time>::from_groups("{start}/{end}", "17.00", "09.00", "%H.%M", "%H.%M"), Err(Error::Ordering)));
    assert!(matches!(Span::<Time>::from_groups("{start}", "1", "2", "%H", "%H"), Err(Error::NoEnd)));
    assert!(matches!(Span::<Time>::from_groups("{end}", "1", "2", "%H", "%H"), Err(Error::NoStart)));
}
