use pokebot::db_util::{schema_duration, schema_opt_duration, DbDuration, DbOptDuration, Duration};

#[test]
fn duration_round_trips_through_database() {
    let d = Duration::new(170, 250_000_000);
    let db = DbDuration::from(d);
    assert_eq!(db, DbDuration(170_250));
    let back = Duration::from(db);
    assert_eq!(back, Duration::new(170, 250_000_000));
}

#[test]
fn duration_stored_drops_sub_millisecond_part() {
    let d = Duration::new(1, 1_999_999);
    assert_eq!(DbDuration::from(d), DbDuration(1001));
    assert_eq!(Duration::from(DbDuration::from(d)), Duration::new(1, 1_000_000));
}

#[test]
fn optional_duration_conversions() {
    assert_eq!(DbOptDuration::from(None), DbOptDuration(None));
    assert_eq!(DbOptDuration::from(Some(Duration::from_millis(42))), DbOptDuration(Some(42)));
    let back: Option<Duration> = DbOptDuration(Some(3_500)).into();
    assert_eq!(back, Some(Duration::new(3, 500_000_000)));
    let none: Option<Duration> = DbOptDuration(None).into();
    assert_eq!(none, None);
}

#[test]
fn schema_examples_are_five() {
    assert_eq!(schema_duration(), 5);
    assert_eq!(schema_opt_duration(), 5);
}

#[test]
fn from_millis_splits_seconds() {
    let d = Duration::from_millis(61_005);
    assert_eq!(d.secs, 61);
    assert_eq!(d.nanos, 5_000_000);
    assert_eq!(d.as_millis(), 61_005);
}

#[test]
fn duration_from_standard_library() {
    let std_d = std::time::Duration::from_millis(1_250);
    let d = Duration::new(std_d.as_secs(), std_d.subsec_nanos());
    assert_eq!(d.secs, 1);
    assert_eq!(d.nanos, 250_000_000);
    assert_eq!(d.as_millis(), 1_250);
}

#[test]
fn timestamp_is_after_2020() {
    let ts = pokebot::db_util::unix_timestamp().unwrap();
    assert!(ts > 1_577_836_800);
}

#[test]
fn timestamp_of_seconds() {
    assert_eq!(pokebot::db_util::timestamp_from_secs(1_700_000_000), 1_700_000_000);
    assert_eq!(pokebot::db_util::timestamp_from_secs(0), 0);
}
