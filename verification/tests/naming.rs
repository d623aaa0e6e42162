use scb_backup::naming::{artifact_name, current_timestamp, timestamp_from_fields, Timestamp};

fn fixed_instant() -> Timestamp {
    Timestamp { year: 2024, month: 3, day: 5, hour: 9, minute: 7, second: 22 }
}

#[test]
fn artifact_name_with_suffix() {
    let name = artifact_name(&fixed_instant(), "gz");
    assert_eq!(name, "scb-2024-03-05-09-07-22.json.gz");
}

#[test]
fn artifact_name_without_suffix() {
    let name = artifact_name(&fixed_instant(), "");
    assert_eq!(name, "scb-2024-03-05-09-07-22.json");
}

#[test]
fn artifact_name_zero_pads_every_field() {
    let ts = Timestamp { year: 987, month: 1, day: 2, hour: 3, minute: 4, second: 5 };
    assert_eq!(artifact_name(&ts, "zst"), "scb-0987-01-02-03-04-05.json.zst");
}

#[test]
fn artifact_name_is_deterministic() {
    let a = artifact_name(&fixed_instant(), "gz");
    let b = artifact_name(&fixed_instant(), "gz");
    assert_eq!(a, b);
}

#[test]
fn timestamp_from_fields_checks_the_year() {
    let ts = timestamp_from_fields(2024, 3, 5, 9, 7, 22).unwrap();
    assert_eq!(ts, Timestamp { year: 2024, month: 3, day: 5, hour: 9, minute: 7, second: 22 });
    assert!(timestamp_from_fields(0, 1, 1, 0, 0, 0).is_some());
    assert!(timestamp_from_fields(9999, 12, 31, 23, 59, 59).is_some());
    assert!(timestamp_from_fields(-1, 3, 5, 9, 7, 22).is_none());
    assert!(timestamp_from_fields(10000, 3, 5, 9, 7, 22).is_none());
}

#[test]
fn current_timestamp_is_well_formed() {
    let ts = current_timestamp().unwrap();
    assert!(ts.year >= 2024 && ts.year <= 9999);
    assert!(ts.month >= 1 && ts.month <= 12);
    assert!(ts.day >= 1 && ts.day <= 31);
    assert!(ts.hour <= 23);
    assert!(ts.minute <= 59);
    assert!(ts.second <= 59);
}
