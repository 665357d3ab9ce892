//! Tray-visibility sync: the decision the tray glue takes from a fresh read
//! at startup. A failed read propagates; the surrounding glue decides the
//! user-visible fallback rather than this crate guessing one.

use vstd::prelude::*;

use crate::error::DbError;
use crate::records::settings_of_row;
use crate::store::{get_settings, read_err, store_readable, SettingsStore};

verus! {

/// Whether the tray icon should be hidden: exactly when a fresh read
/// succeeds and `show_in_tray` is off.
pub fn should_hide_tray(store: &SettingsStore) -> (r: Result<bool, DbError>)
    ensures
        match r {
            Ok(b) => store_readable(store@) && b == !settings_of_row(
                store@.unwrap(),
            ).show_in_tray,
            Err(e) => !store_readable(store@) && read_err(store@, e),
        },
{
    match get_settings(store) {
        Ok(s) => Ok(!s.show_in_tray),
        Err(e) => Err(e),
    }
}

} // verus!
