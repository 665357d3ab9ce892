use settings_store::error::DbError;
use settings_store::notifications::{
    are_notifications_enabled, get_notification_channels, NotificationChannelStates,
};
use settings_store::records::SettingsRow;
use settings_store::store::SettingsStore;

fn notification_row() -> SettingsRow {
    SettingsRow {
        theme: "system".to_string(),
        sidebar_expanded: 0,
        show_in_tray: 1,
        launch_at_login: 0,
        enable_logging: 0,
        log_level: "warn".to_string(),
        enable_notifications: 1,
        notify_general: 1,
        notify_reminders: 0,
        notify_updates: 1,
        notify_alerts: 0,
        notify_activity: 1,
    }
}

#[test]
fn notifications_enabled_reflects_master_toggle() {
    let store = SettingsStore {
        row: Some(notification_row()),
    };
    assert_eq!(are_notifications_enabled(&store).unwrap(), true);

    let mut row = notification_row();
    row.enable_notifications = 0;
    let store = SettingsStore { row: Some(row) };
    assert_eq!(are_notifications_enabled(&store).unwrap(), false);
}

#[test]
fn notifications_enabled_propagates_read_failure() {
    let store = SettingsStore { row: None };
    let err = are_notifications_enabled(&store).unwrap_err();
    assert!(matches!(err, DbError::Query(_)));

    let mut row = notification_row();
    row.theme = "mauve".to_string();
    let store = SettingsStore { row: Some(row) };
    let err = are_notifications_enabled(&store).unwrap_err();
    assert_eq!(err, DbError::InvalidData("mauve".to_string()));
}

#[test]
fn channel_states_project_settings() {
    let store = SettingsStore {
        row: Some(notification_row()),
    };
    let channels = get_notification_channels(&store).unwrap();
    assert_eq!(
        channels,
        NotificationChannelStates {
            enabled: true,
            general: true,
            reminders: false,
            updates: true,
            alerts: false,
            activity: true,
        }
    );
}

#[test]
fn channel_states_propagate_read_failure() {
    let store = SettingsStore { row: None };
    let err = get_notification_channels(&store).unwrap_err();
    assert!(matches!(err, DbError::Query(_)));
}
