//! Rule-driven record transformation and relational-to-CSV export.
//!
//! The crate has two independent engines. The transformation engine applies a
//! named rule to an in-memory record, deriving a full name or trimming a team
//! name to the part that matches a fixed pattern. The export engine runs a
//! read query against a SQLite store and renders the result set as CSV text:
//! a header of column names first, then one record per row, every storage
//! value rendered by its type tag.

pub mod cell;
pub mod config;
pub mod csvenc;
pub mod export;
pub mod pattern;
pub mod record;
pub mod sqlite;
pub mod transform;
