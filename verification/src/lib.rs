//! The storage core of a runtime event log: what each event writes to its
//! projection tables, how the tables are read back into records, how a batch
//! is appended, how projections are rebuilt and how migrations are run.
//!
//! Everything here computes on plain values. The statements and queries that
//! it plans are handed to a database driver by the application.

pub mod domain;
pub mod error;
pub mod event_log;
pub mod events;
pub mod json;
pub mod laws;
pub mod migration;
pub mod model;
pub mod plan;
pub mod projection_registry;
pub mod projections;
pub mod query;
pub mod read;
pub mod rebuild;
pub mod schema;
pub mod script;
pub mod sql;
pub mod statement;
pub mod text;
pub mod value;
pub mod vocabulary;
