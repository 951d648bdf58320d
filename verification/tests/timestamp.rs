use nfe_repository::timestamp::{
    optional_from_column_text, optional_to_column_text, Timestamp, MAX_MILLIS, MIN_MILLIS,
};

fn at(millis: i64) -> Timestamp {
    Timestamp::from_millis(millis).expect("in range")
}

#[test]
fn from_millis_keeps_the_instant() {
    assert_eq!(at(0).millis(), 0);
    assert_eq!(at(1_704_114_000_000).millis(), 1_704_114_000_000);
    assert_eq!(at(-1).millis(), -1);
}

#[test]
fn from_millis_holds_to_the_range_of_the_columns() {
    assert!(Timestamp::from_millis(MIN_MILLIS).is_some());
    assert!(Timestamp::from_millis(MAX_MILLIS).is_some());
    assert!(Timestamp::from_millis(MIN_MILLIS - 1).is_none());
    assert!(Timestamp::from_millis(MAX_MILLIS + 1).is_none());
    assert!(Timestamp::from_millis(i64::MIN).is_none());
    assert!(Timestamp::from_millis(i64::MAX).is_none());
}

#[test]
fn column_text_has_the_fixed_layout() {
    assert_eq!(at(0).to_column_text(), "1970-01-01 00:00:00.000");
    assert_eq!(at(1_704_114_000_000).to_column_text(), "2024-01-01 13:00:00.000");
    assert_eq!(at(1_704_114_000_123).to_column_text(), "2024-01-01 13:00:00.123");
    assert_eq!(at(-1).to_column_text(), "1969-12-31 23:59:59.999");
    assert_eq!(at(MIN_MILLIS).to_column_text(), "0001-01-01 00:00:00.000");
    assert_eq!(at(MAX_MILLIS).to_column_text(), "9999-12-31 23:59:59.999");
}

#[test]
fn column_text_is_read_as_utc() {
    assert_eq!(Timestamp::from_column_text("1970-01-01 00:00:00.000"), Some(at(0)));
    assert_eq!(
        Timestamp::from_column_text("2024-01-01 13:00:00.000"),
        Some(at(1_704_114_000_000))
    );
    assert_eq!(
        Timestamp::from_column_text("2024-02-29 23:59:59.999"),
        Some(at(1_709_251_199_999))
    );
    assert_eq!(Timestamp::from_column_text("1969-12-31 23:59:59.999"), Some(at(-1)));
}

#[test]
fn unreadable_column_text_gives_nothing() {
    for text in [
        "",
        "now",
        "2024-01-01",
        "2024-01-01T13:00:00.000",
        "2024-13-01 00:00:00.000",
        "2023-02-29 00:00:00.000",
        "2024-01-01 24:00:00.000",
        "2024-01-01 13:00:00.000 trailing",
        "PROCEMI",
    ] {
        assert_eq!(Timestamp::from_column_text(text), None, "{text:?}");
    }
}

#[test]
fn column_text_outside_the_range_gives_nothing() {
    assert_eq!(Timestamp::from_column_text("+10000-01-01 00:00:00.000"), None);
    assert_eq!(Timestamp::from_column_text("0000-12-31 23:59:59.999"), None);
}

#[test]
fn column_text_reads_back_to_the_millisecond() {
    for millis in [
        0,
        -1,
        1,
        999,
        1_000,
        1_704_114_000_000,
        1_704_114_000_001,
        951_782_400_000,
        MIN_MILLIS,
        MAX_MILLIS,
    ] {
        let instant = at(millis);
        assert_eq!(Timestamp::from_column_text(&instant.to_column_text()), Some(instant));
    }
}

#[test]
fn every_instant_in_range_survives_storage() {
    for millis in [0, -1, 1, 1_704_114_000_123, MIN_MILLIS, MAX_MILLIS, 951_782_400_000] {
        assert!(at(millis).survives_storage());
    }
}

#[test]
fn an_empty_optional_column_is_no_error() {
    assert_eq!(optional_from_column_text(&None), Some(None));
    assert_eq!(optional_to_column_text(&None), None);
}

#[test]
fn an_optional_column_with_text_is_read_or_refused() {
    assert_eq!(
        optional_from_column_text(&Some("2024-01-01 13:00:00.000".to_string())),
        Some(Some(at(1_704_114_000_000)))
    );
    assert_eq!(optional_from_column_text(&Some("soon".to_string())), None);
    assert_eq!(
        optional_to_column_text(&Some(at(1_704_114_000_000))),
        Some("2024-01-01 13:00:00.000".to_string())
    );
}
