use settings_store::enums::{LogLevel, Theme};
use settings_store::error::DbError;

#[test]
fn theme_round_trip_all_variants() {
    for v in [Theme::Light, Theme::Dark, Theme::System] {
        assert_eq!(Theme::from_str(v.as_str()).unwrap(), v);
    }
}

#[test]
fn log_level_round_trip_all_variants() {
    for v in [
        LogLevel::Error,
        LogLevel::Warn,
        LogLevel::Info,
        LogLevel::Debug,
        LogLevel::Trace,
    ] {
        assert_eq!(LogLevel::from_str(v.as_str()).unwrap(), v);
    }
}

#[test]
fn theme_canonical_strings() {
    assert_eq!(Theme::Light.as_str(), "light");
    assert_eq!(Theme::Dark.as_str(), "dark");
    assert_eq!(Theme::System.as_str(), "system");
}

#[test]
fn log_level_canonical_strings() {
    assert_eq!(LogLevel::Error.as_str(), "error");
    assert_eq!(LogLevel::Warn.as_str(), "warn");
    assert_eq!(LogLevel::Info.as_str(), "info");
    assert_eq!(LogLevel::Debug.as_str(), "debug");
    assert_eq!(LogLevel::Trace.as_str(), "trace");
}

#[test]
fn theme_parse_rejects_wrong_case() {
    assert_eq!(
        Theme::from_str("Light"),
        Err(DbError::InvalidData("Light".to_string()))
    );
}

#[test]
fn theme_parse_rejects_empty_string() {
    assert_eq!(Theme::from_str(""), Err(DbError::InvalidData("".to_string())));
}

#[test]
fn theme_parse_rejects_unknown_value() {
    assert_eq!(
        Theme::from_str("blue"),
        Err(DbError::InvalidData("blue".to_string()))
    );
}

#[test]
fn theme_parse_rejects_padded_value() {
    assert!(matches!(
        Theme::from_str(" light"),
        Err(DbError::InvalidData(_))
    ));
    assert!(matches!(
        Theme::from_str("light "),
        Err(DbError::InvalidData(_))
    ));
}

#[test]
fn log_level_parse_rejects_wrong_case() {
    assert_eq!(
        LogLevel::from_str("WARN"),
        Err(DbError::InvalidData("WARN".to_string()))
    );
}

#[test]
fn log_level_parse_rejects_unknown_value() {
    assert_eq!(
        LogLevel::from_str("verbose"),
        Err(DbError::InvalidData("verbose".to_string()))
    );
    assert_eq!(
        LogLevel::from_str(""),
        Err(DbError::InvalidData("".to_string()))
    );
}
