//! Read-only view of the generic metadata store, as the migration sees it.
use vstd::prelude::*;

verus! {

/// The category tag under which legacy session records are stored.
///
/// The migration assumes that only legacy session records carry this tag and
/// that nothing writes it again once the migration is retired; nothing here
/// enforces that.
pub const SESSIONS_CATEGORY: &'static str = "user_sessions";

/// One record of the generic key/value metadata store.
///
/// `key1` and `key2` are the positional key slots; `value` holds a JSON-encoded
/// string scalar.
#[derive(Clone, Debug, PartialEq, Eq)]
pub struct Model {
    pub id: i64,
    pub module: String,
    pub key1: String,
    pub key2: String,
    pub start_dt: i64,
    pub value: String,
}

} // verus!
