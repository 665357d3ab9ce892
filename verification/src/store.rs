//! The settings service over the single-row store.
//!
//! The backing table holds exactly one settings row under a fixed identifier;
//! [`SettingsStore`] models that table as the row, present or absent. Reading
//! converts the row into a typed snapshot; updating patches only the fields
//! present in the sparse update and then re-reads, so a caller observes
//! exactly what is stored. A missing row is a query error, never a default
//! snapshot; a non-canonical enumeration value is a data-integrity error.

use vstd::prelude::*;

use crate::enums::{parse_level, parse_theme};
use crate::error::DbError;
use crate::records::{
    apply_changeset, changeset_of, patch_row, row_ok, settings_of_row, RowModel, Settings,
    SettingsChangeset, SettingsRow, SettingsUpdate,
};

verus! {

/// The single-row backing table: the settings row, present or absent.
#[derive(Debug)]
pub struct SettingsStore {
    pub row: Option<SettingsRow>,
}

impl View for SettingsStore {
    type V = Option<RowModel>;

    open spec fn view(&self) -> Option<RowModel> {
        match self.row {
            Some(r) => Some(r@),
            None => None,
        }
    }
}

/// Whether a read of the store succeeds: the row is present and both
/// enumeration columns are canonical.
pub open spec fn store_readable(s: Option<RowModel>) -> bool {
    s matches Some(rm) && row_ok(rm)
}

/// The exact error a failing read returns: a missing row is a `Query` error,
/// a non-canonical enumeration column is `InvalidData` carrying the stored
/// text, the theme column checked first.
pub open spec fn read_err(s: Option<RowModel>, e: DbError) -> bool {
    match s {
        None => e matches DbError::Query(m) && m@ == "settings row not found"@,
        Some(rm) => if parse_theme(rm.theme) is None {
            e matches DbError::InvalidData(m) && m@ == rm.theme
        } else if parse_level(rm.log_level) is None {
            e matches DbError::InvalidData(m) && m@ == rm.log_level
        } else {
            false
        },
    }
}

/// Read the current settings: locate the single row and convert it into a
/// fresh typed snapshot. Succeeds exactly when the store is readable.
pub fn get_settings(store: &SettingsStore) -> (r: Result<Settings, DbError>)
    ensures
        match r {
            Ok(s) => store_readable(store@) && s == settings_of_row(store@.unwrap()),
            Err(e) => !store_readable(store@) && read_err(store@, e),
        },
{
    match &store.row {
        None => Err(DbError::Query("settings row not found".to_owned())),
        Some(row) => Settings::from_row(row.clone()),
    }
}

/// Apply a sparse update to the single row and return a fresh read of the
/// result. Only the fields present in the update are written; the re-read
/// guarantees the caller observes exactly what is stored. On a missing row
/// the store is left unchanged and the read's `Query` error is returned.
pub fn update_settings(store: &mut SettingsStore, update: SettingsUpdate) -> (r: Result<
    Settings,
    DbError,
>)
    ensures
        old(store)@ is None ==> final(store)@ is None,
        old(store)@ matches Some(rm) ==> final(store)@ == Some(
            patch_row(rm, changeset_of(update)),
        ),
        match r {
            Ok(s) => store_readable(final(store)@) && s == settings_of_row(
                final(store)@.unwrap(),
            ),
            Err(e) => !store_readable(final(store)@) && read_err(final(store)@, e),
        },
{
    let changeset = SettingsChangeset::from_update(update);
    match store.row.take() {
        None => Err(DbError::Query("settings row not found".to_owned())),
        Some(mut row) => {
            apply_changeset(&mut row, &changeset);
            store.row = Some(row);
            get_settings(store)
        },
    }
}

} // verus!
