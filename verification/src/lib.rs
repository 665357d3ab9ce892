//! A typed application-settings store: a single persisted configuration row,
//! its strongly-typed in-memory snapshot, sparse partial updates, and the
//! read/update service contract over a single-row backing store.

pub mod codec;
pub mod enums;
pub mod error;
pub mod notifications;
pub mod records;
pub mod store;
pub mod tray;
