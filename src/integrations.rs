//! Building blocks for fetchers backed by a SQL database.
pub mod sqlx;
