//! Schema evolution and data migration for the `sessions` table: dialect-aware
//! DDL for the table and its unique index, a decoder for legacy key/value
//! session records, and a page-wise transactional driver that moves them over.

pub mod create_sessions_table;
pub mod decode;
pub mod meta;
pub mod populate_sessions_table;
pub mod sessions;
