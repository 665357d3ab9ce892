//! Notification gating: projections of the settings snapshot that the
//! notification layer consults before emitting anything. A failed read
//! propagates; it is never treated as an answer.

use vstd::prelude::*;

use crate::error::DbError;
use crate::records::{settings_of_row, Settings};
use crate::store::{get_settings, read_err, store_readable, SettingsStore};

verus! {

/// The per-channel notification switches together with the master toggle.
#[derive(Debug, Clone, Copy, PartialEq, Eq)]
pub struct NotificationChannelStates {
    pub enabled: bool,
    pub general: bool,
    pub reminders: bool,
    pub updates: bool,
    pub alerts: bool,
    pub activity: bool,
}

/// The channel states a settings snapshot projects to.
pub open spec fn channels_of(s: Settings) -> NotificationChannelStates {
    NotificationChannelStates {
        enabled: s.enable_notifications,
        general: s.notify_general,
        reminders: s.notify_reminders,
        updates: s.notify_updates,
        alerts: s.notify_alerts,
        activity: s.notify_activity,
    }
}

/// Whether notifications are enabled at all, from a fresh read. A read
/// failure is returned, never defaulted.
pub fn are_notifications_enabled(store: &SettingsStore) -> (r: Result<bool, DbError>)
    ensures
        match r {
            Ok(b) => store_readable(store@) && b == settings_of_row(
                store@.unwrap(),
            ).enable_notifications,
            Err(e) => !store_readable(store@) && read_err(store@, e),
        },
{
    match get_settings(store) {
        Ok(s) => Ok(s.enable_notifications),
        Err(e) => Err(e),
    }
}

/// The full channel projection, from a fresh read. A read failure is
/// returned, never defaulted.
pub fn get_notification_channels(store: &SettingsStore) -> (r: Result<
    NotificationChannelStates,
    DbError,
>)
    ensures
        match r {
            Ok(c) => store_readable(store@) && c == channels_of(
                settings_of_row(store@.unwrap()),
            ),
            Err(e) => !store_readable(store@) && read_err(store@, e),
        },
{
    let settings = match get_settings(store) {
        Ok(s) => s,
        Err(e) => {
            return Err(e);
        },
    };
    Ok(
        NotificationChannelStates {
            enabled: settings.enable_notifications,
            general: settings.notify_general,
            reminders: settings.notify_reminders,
            updates: settings.notify_updates,
            alerts: settings.notify_alerts,
            activity: settings.notify_activity,
        },
    )
}

} // verus!
