use datetime_default::{DateTimeDefaultNow, FixedOffsetHours, Local, Timestamp, Utc};

/// Reads the current instant and the local offset through chrono, as a raw
/// timestamp value.
fn chrono_local_now() -> Timestamp {
    let now = chrono::Local::now();
    Timestamp::new(
        now.timestamp(),
        now.timestamp_subsec_nanos(),
        now.offset().local_minus_utc(),
    )
}

/// The fixed test clock reading: 2022-10-10T23:40:11.6951643Z.
fn fixed_clock() -> (i64, u32) {
    let parsed = chrono::DateTime::parse_from_rfc3339("2022-10-10T23:40:11.6951643Z").unwrap();
    (parsed.timestamp(), parsed.timestamp_subsec_nanos())
}

#[derive(Default)]
struct Test {
    updated_at: DateTimeDefaultNow<Utc>,
}

#[test]
fn default_derive_struct() {
    Test::default();
}

#[test]
fn use_default_derive_struct() {
    let test = Test::default();

    println!("{:?}", test.updated_at.as_timestamp())
}

#[test]
fn use_default_datetime() {
    let datetime = DateTimeDefaultNow::<Utc>::default();

    println!("{:?}", datetime.as_timestamp())
}

#[test]
fn fixed_offset() {
    let datetime = DateTimeDefaultNow::default_in(FixedOffsetHours { hours: 9 });
    println!("{datetime:?}");
}

#[test]
fn use_datetime_method() {
    let datetime = DateTimeDefaultNow::<Utc>::default();

    datetime.as_timestamp().secs();
}

#[test]
fn convert_from() {
    let now = chrono_local_now();
    let datetime = DateTimeDefaultNow::<Local>::from(now);

    assert_eq!(datetime, now)
}

#[test]
fn convert_into() {
    let now = chrono_local_now();
    let datetime: DateTimeDefaultNow<Local> = now.into();

    assert_eq!(datetime, now)
}

#[test]
fn equation1() {
    let now = chrono_local_now();
    let datetime: DateTimeDefaultNow<Local> = now.into();
    assert!(datetime == now)
}

#[test]
fn equation2() {
    let now = chrono_local_now();
    let datetime: DateTimeDefaultNow<Local> = now.into();
    assert!(now == datetime)
}

#[test]
fn comparing1() {
    assert!(DateTimeDefaultNow::<Local>::default() <= chrono_local_now())
}

#[test]
fn comparing2() {
    let naive = chrono::NaiveDate::from_ymd_opt(2022, 10, 10)
        .unwrap()
        .and_hms_opt(0, 0, 0)
        .unwrap();
    let morning = chrono::TimeZone::from_local_datetime(&chrono::Local, &naive)
        .single()
        .unwrap();
    let morning = Timestamp::new(
        morning.timestamp(),
        morning.timestamp_subsec_nanos(),
        morning.offset().local_minus_utc(),
    );
    assert!(morning <= DateTimeDefaultNow::<Local>::default())
}

#[test]
fn utc_default_near_current_instant() {
    let before = chrono::Utc::now().timestamp();
    let datetime = DateTimeDefaultNow::<Utc>::default();
    let after = chrono::Utc::now().timestamp();
    let secs = datetime.as_timestamp().secs();
    assert!(before - 60 <= secs && secs <= after + 60);
    assert_eq!(datetime.as_timestamp().offset_secs(), 0);
}

#[test]
fn local_default_offset_in_range() {
    let datetime = DateTimeDefaultNow::<Local>::default();
    let offset = datetime.as_timestamp().offset_secs();
    assert!(-86_400 < offset && offset < 86_400);
}

#[test]
fn utc_default_from_fixed_clock() {
    let (secs, nanos) = fixed_clock();
    let datetime = DateTimeDefaultNow::default_from_instant(Utc, secs, nanos);
    assert_eq!(datetime, Timestamp::new(secs, nanos, 0));
    assert_eq!(datetime.as_timestamp().secs(), 1665445211);
    assert_eq!(datetime.as_timestamp().nanos(), 695164300);
    assert_eq!(datetime.as_timestamp().offset_secs(), 0);
}

#[test]
fn local_default_from_fixed_clock() {
    let (secs, nanos) = fixed_clock();
    let datetime = DateTimeDefaultNow::default_from_instant(Local, secs, nanos);
    // The same instant, expressed in local civil time: equality compares
    // the instant alone, whatever offset the environment supplies.
    assert_eq!(datetime, Timestamp::new(secs, nanos, 0));
    assert_eq!(datetime.as_timestamp().secs(), secs);
    assert_eq!(datetime.as_timestamp().nanos(), nanos);
}

#[test]
fn fixed_offset_default_from_fixed_clock() {
    let (secs, nanos) = fixed_clock();
    let datetime = DateTimeDefaultNow::default_from_instant(FixedOffsetHours { hours: 9 }, secs, nanos);
    assert_eq!(datetime, Timestamp::new(secs, nanos, 0));
    assert_eq!(datetime.as_timestamp().offset_secs(), 9 * 3600);
}

#[test]
fn fixed_offset_default_matches_utc_reexpressed() {
    let (secs, nanos) = fixed_clock();
    let utc_default = DateTimeDefaultNow::default_from_instant(Utc, secs, nanos);
    let fixed_default = DateTimeDefaultNow::default_from_instant(FixedOffsetHours { hours: 9 }, secs, nanos);
    let reexpressed = utc_default.into_timestamp().with_offset_secs(9 * 3600);
    assert_eq!(fixed_default, reexpressed);
    assert_eq!(fixed_default.as_timestamp().offset_secs(), reexpressed.offset_secs());
    // The re-expression agrees with chrono's own.
    let through_chrono = chrono::DateTime::from_timestamp(secs, nanos)
        .unwrap()
        .with_timezone(&chrono::FixedOffset::east_opt(9 * 3600).unwrap());
    assert_eq!(through_chrono.timestamp(), reexpressed.secs());
    assert_eq!(through_chrono.timestamp_subsec_nanos(), reexpressed.nanos());
    assert_eq!(through_chrono.offset().local_minus_utc(), reexpressed.offset_secs());
}

#[test]
fn invalid_fixed_offset_rejected() {
    assert!(DateTimeDefaultNow::try_default_in(FixedOffsetHours { hours: 100 }).is_none());
    assert!(DateTimeDefaultNow::try_default_in(FixedOffsetHours { hours: -100 }).is_none());
    assert!(DateTimeDefaultNow::try_default_in(FixedOffsetHours { hours: 24 }).is_none());
    assert!(DateTimeDefaultNow::try_default_in(FixedOffsetHours { hours: 23 }).is_some());
    assert!(DateTimeDefaultNow::try_default_in(FixedOffsetHours { hours: -23 }).is_some());
    // chrono rejects the same magnitudes when it builds the offset itself.
    assert!(chrono::FixedOffset::east_opt(100 * 3600).is_none());
    assert!(chrono::FixedOffset::east_opt(24 * 3600).is_none());
    assert!(chrono::FixedOffset::east_opt(23 * 3600).is_some());
}

#[test]
fn try_new_rejects_out_of_range_parts() {
    assert!(Timestamp::try_new(0, 2_000_000_000, 0).is_none());
    assert!(Timestamp::try_new(0, 0, 86_400).is_none());
    assert!(Timestamp::try_new(0, 0, -86_400).is_none());
    assert!(Timestamp::try_new(0, 1_999_999_999, 86_399).is_some());
    assert!(Timestamp::try_new(0, 0, -86_399).is_some());
}

#[test]
fn try_default_from_instant_checks_parts() {
    let none = DateTimeDefaultNow::try_default_from_instant(FixedOffsetHours { hours: 100 }, 0, 0);
    assert!(none.is_none());
    let none = DateTimeDefaultNow::try_default_from_instant(Utc, 0, 2_000_000_000);
    assert!(none.is_none());
    let some = DateTimeDefaultNow::try_default_from_instant(Utc, 7, 8);
    assert_eq!(some.unwrap(), Timestamp::new(7, 8, 0));
}

#[test]
fn equality_ignores_offset() {
    let a = Timestamp::new(1000, 42, 0);
    let b = a.with_offset_secs(9 * 3600);
    assert_eq!(a, b);
    assert!(!(a < b) && !(b < a));
    let w: DateTimeDefaultNow<Utc> = a.into();
    assert!(w == b);
    assert!(b == w);
}

#[test]
fn equality_symmetric_between_wrapper_and_raw() {
    let t = Timestamp::new(55, 9, 3600);
    let w = DateTimeDefaultNow::from_timestamp_in(FixedOffsetHours { hours: 1 }, t);
    let other = Timestamp::new(55, 9, 0);
    assert_eq!(w == other, other == w);
    let different = Timestamp::new(56, 9, 3600);
    assert_eq!(w == different, different == w);
    assert!(w != different);
}

#[test]
fn ordering_matches_raw_comparison() {
    let early = Timestamp::new(100, 4, 7200);
    let late = Timestamp::new(100, 5, 0);
    let w_early: DateTimeDefaultNow<Utc> = early.into();
    let w_late: DateTimeDefaultNow<Utc> = late.into();
    assert_eq!(w_early <= w_late, early <= late);
    assert_eq!(w_late <= w_early, late <= early);
    assert_eq!(w_early <= late, early <= late);
    assert_eq!(early <= w_late, early <= late);
    assert!(w_early < w_late);
    assert!(early < w_late);
    assert!(w_early < late);
}

#[test]
fn round_trip_all_zones() {
    let t = Timestamp::new(123, 456, 1800);
    let utc: Timestamp = DateTimeDefaultNow::<Utc>::from(t).into_timestamp();
    assert_eq!(utc, t);
    assert_eq!(utc.offset_secs(), t.offset_secs());
    let local: Timestamp = DateTimeDefaultNow::<Local>::from(t).into_timestamp();
    assert_eq!(local, t);
    assert_eq!(local.offset_secs(), t.offset_secs());
    let fixed: Timestamp =
        DateTimeDefaultNow::from_timestamp_in(FixedOffsetHours { hours: 9 }, t).into_timestamp();
    assert_eq!(fixed, t);
    assert_eq!(fixed.offset_secs(), t.offset_secs());
}
