use settings_store::error::DbError;
use settings_store::records::SettingsRow;
use settings_store::store::SettingsStore;
use settings_store::tray::should_hide_tray;

fn tray_row(show_in_tray: i32) -> SettingsRow {
    SettingsRow {
        theme: "light".to_string(),
        sidebar_expanded: 1,
        show_in_tray,
        launch_at_login: 0,
        enable_logging: 1,
        log_level: "debug".to_string(),
        enable_notifications: 1,
        notify_general: 1,
        notify_reminders: 1,
        notify_updates: 1,
        notify_alerts: 1,
        notify_activity: 1,
    }
}

#[test]
fn tray_hidden_exactly_when_disabled() {
    let store = SettingsStore {
        row: Some(tray_row(0)),
    };
    assert_eq!(should_hide_tray(&store).unwrap(), true);

    let store = SettingsStore {
        row: Some(tray_row(1)),
    };
    assert_eq!(should_hide_tray(&store).unwrap(), false);
}

#[test]
fn tray_decision_propagates_read_failure() {
    let store = SettingsStore { row: None };
    let err = should_hide_tray(&store).unwrap_err();
    assert!(matches!(err, DbError::Query(_)));
}
