//! The settings records: the raw stored row, the typed snapshot, the sparse
//! update request, and the storage-layer changeset derived from it.
//!
//! A row is modeled by [`RowModel`] (strings as character sequences, stored
//! booleans as unbounded integers), a changeset by [`ChangesetModel`]. All
//! contracts in this crate speak over those models.

use vstd::prelude::*;

use crate::codec::{bool_to_int, decode_bool, encode_bool, int_to_bool};
use crate::enums::{parse_level, parse_theme, theme_str, level_str, LogLevel, Theme};
use crate::error::DbError;

verus! {

/// The raw settings row as the backing store holds it: enumeration fields as
/// text, boolean fields as integers.
#[derive(Debug)]
pub struct SettingsRow {
    pub theme: String,
    pub sidebar_expanded: i32,
    pub show_in_tray: i32,
    pub launch_at_login: i32,
    pub enable_logging: i32,
    pub log_level: String,
    pub enable_notifications: i32,
    pub notify_general: i32,
    pub notify_reminders: i32,
    pub notify_updates: i32,
    pub notify_alerts: i32,
    pub notify_activity: i32,
}

/// The mathematical model of a stored row.
#[verifier::ext_equal]
pub ghost struct RowModel {
    pub theme: Seq<char>,
    pub sidebar_expanded: int,
    pub show_in_tray: int,
    pub launch_at_login: int,
    pub enable_logging: int,
    pub log_level: Seq<char>,
    pub enable_notifications: int,
    pub notify_general: int,
    pub notify_reminders: int,
    pub notify_updates: int,
    pub notify_alerts: int,
    pub notify_activity: int,
}

impl View for SettingsRow {
    type V = RowModel;

    open spec fn view(&self) -> RowModel {
        RowModel {
            theme: self.theme@,
            sidebar_expanded: self.sidebar_expanded as int,
            show_in_tray: self.show_in_tray as int,
            launch_at_login: self.launch_at_login as int,
            enable_logging: self.enable_logging as int,
            log_level: self.log_level@,
            enable_notifications: self.enable_notifications as int,
            notify_general: self.notify_general as int,
            notify_reminders: self.notify_reminders as int,
            notify_updates: self.notify_updates as int,
            notify_alerts: self.notify_alerts as int,
            notify_activity: self.notify_activity as int,
        }
    }
}

impl Clone for SettingsRow {
    fn clone(&self) -> (r: Self)
        ensures
            r@ == self@,
    {
        SettingsRow {
            theme: self.theme.clone(),
            sidebar_expanded: self.sidebar_expanded,
            show_in_tray: self.show_in_tray,
            launch_at_login: self.launch_at_login,
            enable_logging: self.enable_logging,
            log_level: self.log_level.clone(),
            enable_notifications: self.enable_notifications,
            notify_general: self.notify_general,
            notify_reminders: self.notify_reminders,
            notify_updates: self.notify_updates,
            notify_alerts: self.notify_alerts,
            notify_activity: self.notify_activity,
        }
    }
}

/// The fully-typed settings snapshot.
#[derive(Debug, Clone, Copy, PartialEq, Eq)]
pub struct Settings {
    pub theme: Theme,
    pub sidebar_expanded: bool,
    pub show_in_tray: bool,
    pub launch_at_login: bool,
    pub enable_logging: bool,
    pub log_level: LogLevel,
    pub enable_notifications: bool,
    pub notify_general: bool,
    pub notify_reminders: bool,
    pub notify_updates: bool,
    pub notify_alerts: bool,
    pub notify_activity: bool,
}

/// Whether a stored row converts to a typed snapshot: both enumeration
/// columns hold canonical strings.
pub open spec fn row_ok(rm: RowModel) -> bool {
    parse_theme(rm.theme) is Some && parse_level(rm.log_level) is Some
}

/// The typed snapshot a well-formed row converts to.
pub open spec fn settings_of_row(rm: RowModel) -> Settings
    recommends
        row_ok(rm),
{
    Settings {
        theme: parse_theme(rm.theme).unwrap(),
        sidebar_expanded: decode_bool(rm.sidebar_expanded),
        show_in_tray: decode_bool(rm.show_in_tray),
        launch_at_login: decode_bool(rm.launch_at_login),
        enable_logging: decode_bool(rm.enable_logging),
        log_level: parse_level(rm.log_level).unwrap(),
        enable_notifications: decode_bool(rm.enable_notifications),
        notify_general: decode_bool(rm.notify_general),
        notify_reminders: decode_bool(rm.notify_reminders),
        notify_updates: decode_bool(rm.notify_updates),
        notify_alerts: decode_bool(rm.notify_alerts),
        notify_activity: decode_bool(rm.notify_activity),
    }
}

impl Settings {
    /// Convert a raw stored row into the typed snapshot, all or nothing.
    ///
    /// The theme column is checked first; a non-canonical enumeration value
    /// fails with `InvalidData` carrying that value. Booleans are decoded
    /// tolerantly.
    pub fn from_row(row: SettingsRow) -> (r: Result<Settings, DbError>)
        ensures
            row_ok(row@) ==> (r matches Ok(s) && s == settings_of_row(row@)),
            parse_theme(row@.theme) is None ==> (r matches Err(e) && (e
                matches DbError::InvalidData(m) && m@ == row@.theme)),
            (parse_theme(row@.theme) is Some && parse_level(row@.log_level) is None) ==> (r
                matches Err(e) && (e matches DbError::InvalidData(m) && m@ == row@.log_level)),
    {
        let theme = match Theme::from_str(row.theme.as_str()) {
            Ok(t) => t,
            Err(e) => {
                return Err(e);
            },
        };
        let log_level = match LogLevel::from_str(row.log_level.as_str()) {
            Ok(l) => l,
            Err(e) => {
                return Err(e);
            },
        };
        Ok(
            Settings {
                theme,
                sidebar_expanded: int_to_bool(row.sidebar_expanded),
                show_in_tray: int_to_bool(row.show_in_tray),
                launch_at_login: int_to_bool(row.launch_at_login),
                enable_logging: int_to_bool(row.enable_logging),
                log_level,
                enable_notifications: int_to_bool(row.enable_notifications),
                notify_general: int_to_bool(row.notify_general),
                notify_reminders: int_to_bool(row.notify_reminders),
                notify_updates: int_to_bool(row.notify_updates),
                notify_alerts: int_to_bool(row.notify_alerts),
                notify_activity: int_to_bool(row.notify_activity),
            },
        )
    }
}

/// A sparse settings update: every field optional, absent means unchanged.
#[derive(Debug, Clone, Copy, PartialEq, Eq)]
pub struct SettingsUpdate {
    pub theme: Option<Theme>,
    pub sidebar_expanded: Option<bool>,
    pub show_in_tray: Option<bool>,
    pub launch_at_login: Option<bool>,
    pub enable_logging: Option<bool>,
    pub log_level: Option<LogLevel>,
    pub enable_notifications: Option<bool>,
    pub notify_general: Option<bool>,
    pub notify_reminders: Option<bool>,
    pub notify_updates: Option<bool>,
    pub notify_alerts: Option<bool>,
    pub notify_activity: Option<bool>,
}

/// The update that leaves every field unchanged.
pub open spec fn empty_update() -> SettingsUpdate {
    SettingsUpdate {
        theme: None,
        sidebar_expanded: None,
        show_in_tray: None,
        launch_at_login: None,
        enable_logging: None,
        log_level: None,
        enable_notifications: None,
        notify_general: None,
        notify_reminders: None,
        notify_updates: None,
        notify_alerts: None,
        notify_activity: None,
    }
}

impl Default for SettingsUpdate {
    /// The default update is the empty one: a legal no-op.
    fn default() -> (r: Self)
        ensures
            r == empty_update(),
    {
        SettingsUpdate {
            theme: None,
            sidebar_expanded: None,
            show_in_tray: None,
            launch_at_login: None,
            enable_logging: None,
            log_level: None,
            enable_notifications: None,
            notify_general: None,
            notify_reminders: None,
            notify_updates: None,
            notify_alerts: None,
            notify_activity: None,
        }
    }
}

/// The storage-layer changeset: present fields carry their raw encoded
/// values, absent fields are omitted from the patch entirely.
#[derive(Debug)]
pub struct SettingsChangeset {
    pub theme: Option<String>,
    pub sidebar_expanded: Option<i32>,
    pub show_in_tray: Option<i32>,
    pub launch_at_login: Option<i32>,
    pub enable_logging: Option<i32>,
    pub log_level: Option<String>,
    pub enable_notifications: Option<i32>,
    pub notify_general: Option<i32>,
    pub notify_reminders: Option<i32>,
    pub notify_updates: Option<i32>,
    pub notify_alerts: Option<i32>,
    pub notify_activity: Option<i32>,
}

/// The mathematical model of a changeset.
#[verifier::ext_equal]
pub ghost struct ChangesetModel {
    pub theme: Option<Seq<char>>,
    pub sidebar_expanded: Option<int>,
    pub show_in_tray: Option<int>,
    pub launch_at_login: Option<int>,
    pub enable_logging: Option<int>,
    pub log_level: Option<Seq<char>>,
    pub enable_notifications: Option<int>,
    pub notify_general: Option<int>,
    pub notify_reminders: Option<int>,
    pub notify_updates: Option<int>,
    pub notify_alerts: Option<int>,
    pub notify_activity: Option<int>,
}

impl View for SettingsChangeset {
    type V = ChangesetModel;

    open spec fn view(&self) -> ChangesetModel {
        ChangesetModel {
            theme: match self.theme {
                Some(s) => Some(s@),
                None => None,
            },
            sidebar_expanded: match self.sidebar_expanded {
                Some(i) => Some(i as int),
                None => None,
            },
            show_in_tray: match self.show_in_tray {
                Some(i) => Some(i as int),
                None => None,
            },
            launch_at_login: match self.launch_at_login {
                Some(i) => Some(i as int),
                None => None,
            },
            enable_logging: match self.enable_logging {
                Some(i) => Some(i as int),
                None => None,
            },
            log_level: match self.log_level {
                Some(s) => Some(s@),
                None => None,
            },
            enable_notifications: match self.enable_notifications {
                Some(i) => Some(i as int),
                None => None,
            },
            notify_general: match self.notify_general {
                Some(i) => Some(i as int),
                None => None,
            },
            notify_reminders: match self.notify_reminders {
                Some(i) => Some(i as int),
                None => None,
            },
            notify_updates: match self.notify_updates {
                Some(i) => Some(i as int),
                None => None,
            },
            notify_alerts: match self.notify_alerts {
                Some(i) => Some(i as int),
                None => None,
            },
            notify_activity: match self.notify_activity {
                Some(i) => Some(i as int),
                None => None,
            },
        }
    }
}

/// The changeset an update encodes to: present enumerations become their
/// canonical strings, present booleans their strict 0/1 encoding, absent
/// fields stay absent.
pub open spec fn changeset_of(u: SettingsUpdate) -> ChangesetModel {
    ChangesetModel {
        theme: match u.theme {
            Some(t) => Some(theme_str(t)),
            None => None,
        },
        sidebar_expanded: match u.sidebar_expanded {
            Some(b) => Some(encode_bool(b)),
            None => None,
        },
        show_in_tray: match u.show_in_tray {
            Some(b) => Some(encode_bool(b)),
            None => None,
        },
        launch_at_login: match u.launch_at_login {
            Some(b) => Some(encode_bool(b)),
            None => None,
        },
        enable_logging: match u.enable_logging {
            Some(b) => Some(encode_bool(b)),
            None => None,
        },
        log_level: match u.log_level {
            Some(l) => Some(level_str(l)),
            None => None,
        },
        enable_notifications: match u.enable_notifications {
            Some(b) => Some(encode_bool(b)),
            None => None,
        },
        notify_general: match u.notify_general {
            Some(b) => Some(encode_bool(b)),
            None => None,
        },
        notify_reminders: match u.notify_reminders {
            Some(b) => Some(encode_bool(b)),
            None => None,
        },
        notify_updates: match u.notify_updates {
            Some(b) => Some(encode_bool(b)),
            None => None,
        },
        notify_alerts: match u.notify_alerts {
            Some(b) => Some(encode_bool(b)),
            None => None,
        },
        notify_activity: match u.notify_activity {
            Some(b) => Some(encode_bool(b)),
            None => None,
        },
    }
}

impl SettingsChangeset {
    /// Translate a sparse update into its storage-layer changeset. This is
    /// the single place where write encodings live.
    #[verifier::rlimit(60)]
    pub fn from_update(update: SettingsUpdate) -> (r: Self)
        ensures
            r@ == changeset_of(update),
    {
        let r = SettingsChangeset {
            theme: match update.theme {
                Some(t) => Some(t.as_str().to_owned()),
                None => None,
            },
            sidebar_expanded: match update.sidebar_expanded {
                Some(b) => Some(bool_to_int(b)),
                None => None,
            },
            show_in_tray: match update.show_in_tray {
                Some(b) => Some(bool_to_int(b)),
                None => None,
            },
            launch_at_login: match update.launch_at_login {
                Some(b) => Some(bool_to_int(b)),
                None => None,
            },
            enable_logging: match update.enable_logging {
                Some(b) => Some(bool_to_int(b)),
                None => None,
            },
            log_level: match update.log_level {
                Some(l) => Some(l.as_str().to_owned()),
                None => None,
            },
            enable_notifications: match update.enable_notifications {
                Some(b) => Some(bool_to_int(b)),
                None => None,
            },
            notify_general: match update.notify_general {
                Some(b) => Some(bool_to_int(b)),
                None => None,
            },
            notify_reminders: match update.notify_reminders {
                Some(b) => Some(bool_to_int(b)),
                None => None,
            },
            notify_updates: match update.notify_updates {
                Some(b) => Some(bool_to_int(b)),
                None => None,
            },
            notify_alerts: match update.notify_alerts {
                Some(b) => Some(bool_to_int(b)),
                None => None,
            },
            notify_activity: match update.notify_activity {
                Some(b) => Some(bool_to_int(b)),
                None => None,
            },
        };
        proof {
            assert(r@ =~= changeset_of(update));
        }
        r
    }
}

/// Whether a changeset carries no field at all, so that patching with it
/// touches nothing.
pub open spec fn changeset_empty(c: ChangesetModel) -> bool {
    c.theme is None && c.sidebar_expanded is None && c.show_in_tray is None && c.launch_at_login
        is None && c.enable_logging is None && c.log_level is None && c.enable_notifications
        is None && c.notify_general is None && c.notify_reminders is None && c.notify_updates
        is None && c.notify_alerts is None && c.notify_activity is None
}

impl SettingsChangeset {
    /// Whether this changeset carries no field at all. A storage layer may
    /// skip the patch statement entirely for such a changeset.
    pub fn is_empty(&self) -> (r: bool)
        ensures
            r == changeset_empty(self@),
    {
        self.theme.is_none() && self.sidebar_expanded.is_none() && self.show_in_tray.is_none()
            && self.launch_at_login.is_none() && self.enable_logging.is_none()
            && self.log_level.is_none() && self.enable_notifications.is_none()
            && self.notify_general.is_none() && self.notify_reminders.is_none()
            && self.notify_updates.is_none() && self.notify_alerts.is_none()
            && self.notify_activity.is_none()
    }
}

/// The row that results from patching a stored row with a changeset: present
/// fields overwrite, absent fields keep the stored value.
pub open spec fn patch_row(rm: RowModel, c: ChangesetModel) -> RowModel {
    RowModel {
        theme: match c.theme {
            Some(v) => v,
            None => rm.theme,
        },
        sidebar_expanded: match c.sidebar_expanded {
            Some(v) => v,
            None => rm.sidebar_expanded,
        },
        show_in_tray: match c.show_in_tray {
            Some(v) => v,
            None => rm.show_in_tray,
        },
        launch_at_login: match c.launch_at_login {
            Some(v) => v,
            None => rm.launch_at_login,
        },
        enable_logging: match c.enable_logging {
            Some(v) => v,
            None => rm.enable_logging,
        },
        log_level: match c.log_level {
            Some(v) => v,
            None => rm.log_level,
        },
        enable_notifications: match c.enable_notifications {
            Some(v) => v,
            None => rm.enable_notifications,
        },
        notify_general: match c.notify_general {
            Some(v) => v,
            None => rm.notify_general,
        },
        notify_reminders: match c.notify_reminders {
            Some(v) => v,
            None => rm.notify_reminders,
        },
        notify_updates: match c.notify_updates {
            Some(v) => v,
            None => rm.notify_updates,
        },
        notify_alerts: match c.notify_alerts {
            Some(v) => v,
            None => rm.notify_alerts,
        },
        notify_activity: match c.notify_activity {
            Some(v) => v,
            None => rm.notify_activity,
        },
    }
}

/// Apply a changeset to a row in place: each present field is overwritten
/// with its encoded value, each absent field is left untouched.
pub fn apply_changeset(row: &mut SettingsRow, c: &SettingsChangeset)
    ensures
        final(row)@ == patch_row(old(row)@, c@),
{
    if let Some(v) = &c.theme {
        row.theme = v.clone();
    }
    if let Some(v) = c.sidebar_expanded {
        row.sidebar_expanded = v;
    }
    if let Some(v) = c.show_in_tray {
        row.show_in_tray = v;
    }
    if let Some(v) = c.launch_at_login {
        row.launch_at_login = v;
    }
    if let Some(v) = c.enable_logging {
        row.enable_logging = v;
    }
    if let Some(v) = &c.log_level {
        row.log_level = v.clone();
    }
    if let Some(v) = c.enable_notifications {
        row.enable_notifications = v;
    }
    if let Some(v) = c.notify_general {
        row.notify_general = v;
    }
    if let Some(v) = c.notify_reminders {
        row.notify_reminders = v;
    }
    if let Some(v) = c.notify_updates {
        row.notify_updates = v;
    }
    if let Some(v) = c.notify_alerts {
        row.notify_alerts = v;
    }
    if let Some(v) = c.notify_activity {
        row.notify_activity = v;
    }
    proof {
        assert(final(row)@ =~= patch_row(old(row)@, c@));
    }
}

/// Law: the changeset of the empty update patches nothing; every stored
/// field keeps its value. Since a read depends only on the stored row, an
/// empty update followed by a read returns exactly what a read immediately
/// before it returned.
pub proof fn lemma_noop_changeset(rm: RowModel)
    ensures
        patch_row(rm, changeset_of(empty_update())) == rm,
{
    assert(patch_row(rm, changeset_of(empty_update())) =~= rm);
}

/// Law: a partial update isolates fields. A field absent from the update
/// keeps its stored value through the patch, and a present field takes
/// exactly its encoded value.
pub proof fn lemma_patch_isolates(rm: RowModel, u: SettingsUpdate)
    ensures
        u.theme is None ==> patch_row(rm, changeset_of(u)).theme == rm.theme,
        u.theme matches Some(t) ==> patch_row(rm, changeset_of(u)).theme == theme_str(t),
        u.sidebar_expanded is None ==> patch_row(rm, changeset_of(u)).sidebar_expanded
            == rm.sidebar_expanded,
        u.sidebar_expanded matches Some(b) ==> patch_row(rm, changeset_of(u)).sidebar_expanded
            == encode_bool(b),
        u.show_in_tray is None ==> patch_row(rm, changeset_of(u)).show_in_tray == rm.show_in_tray,
        u.show_in_tray matches Some(b) ==> patch_row(rm, changeset_of(u)).show_in_tray
            == encode_bool(b),
        u.launch_at_login is None ==> patch_row(rm, changeset_of(u)).launch_at_login
            == rm.launch_at_login,
        u.launch_at_login matches Some(b) ==> patch_row(rm, changeset_of(u)).launch_at_login
            == encode_bool(b),
        u.enable_logging is None ==> patch_row(rm, changeset_of(u)).enable_logging
            == rm.enable_logging,
        u.enable_logging matches Some(b) ==> patch_row(rm, changeset_of(u)).enable_logging
            == encode_bool(b),
        u.log_level is None ==> patch_row(rm, changeset_of(u)).log_level == rm.log_level,
        u.log_level matches Some(l) ==> patch_row(rm, changeset_of(u)).log_level == level_str(l),
        u.enable_notifications is None ==> patch_row(rm, changeset_of(u)).enable_notifications
            == rm.enable_notifications,
        u.enable_notifications matches Some(b) ==> patch_row(
            rm,
            changeset_of(u),
        ).enable_notifications == encode_bool(b),
        u.notify_general is None ==> patch_row(rm, changeset_of(u)).notify_general
            == rm.notify_general,
        u.notify_general matches Some(b) ==> patch_row(rm, changeset_of(u)).notify_general
            == encode_bool(b),
        u.notify_reminders is None ==> patch_row(rm, changeset_of(u)).notify_reminders
            == rm.notify_reminders,
        u.notify_reminders matches Some(b) ==> patch_row(rm, changeset_of(u)).notify_reminders
            == encode_bool(b),
        u.notify_updates is None ==> patch_row(rm, changeset_of(u)).notify_updates
            == rm.notify_updates,
        u.notify_updates matches Some(b) ==> patch_row(rm, changeset_of(u)).notify_updates
            == encode_bool(b),
        u.notify_alerts is None ==> patch_row(rm, changeset_of(u)).notify_alerts
            == rm.notify_alerts,
        u.notify_alerts matches Some(b) ==> patch_row(rm, changeset_of(u)).notify_alerts
            == encode_bool(b),
        u.notify_activity is None ==> patch_row(rm, changeset_of(u)).notify_activity
            == rm.notify_activity,
        u.notify_activity matches Some(b) ==> patch_row(rm, changeset_of(u)).notify_activity
            == encode_bool(b),
{
}

/// Law: patching is idempotent; applying the same update's changeset twice
/// in succession leaves the same row as applying it once, so the settings
/// read back after the second application equal those after the first.
pub proof fn lemma_patch_idempotent(rm: RowModel, u: SettingsUpdate)
    ensures
        patch_row(patch_row(rm, changeset_of(u)), changeset_of(u)) == patch_row(
            rm,
            changeset_of(u),
        ),
{
    assert(patch_row(patch_row(rm, changeset_of(u)), changeset_of(u)) =~= patch_row(
        rm,
        changeset_of(u),
    ));
}

} // verus!
