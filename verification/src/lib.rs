//! Named identity profiles kept in a small SQLite table, and the decisions
//! needed to apply one of them to a repository's configuration.
pub mod apply;
pub mod command;
pub mod error;
pub mod message;
pub mod profile;
pub mod sqlite;
pub mod store;
