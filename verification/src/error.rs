//! The error taxonomy of the settings store.

use vstd::prelude::*;

verus! {

/// Errors surfaced by the settings store.
///
/// `Connection`, `Migration` and `Init` describe backend and bootstrap
/// failures raised by the surrounding glue; `Query` covers statement
/// failures and the missing settings row; `InvalidData` signals a stored
/// value outside its closed domain and carries the offending text.
#[derive(Debug, PartialEq, Eq)]
pub enum DbError {
    Connection(String),
    Query(String),
    Migration(String),
    Init(String),
    InvalidData(String),
}

} // verus!
