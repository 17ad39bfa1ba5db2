//! A dialect renderer for a SQLite-like engine: it lowers an abstract,
//! dialect-neutral description of table schema operations (column
//! definitions, column types, ALTER TABLE actions, RENAME TABLE) into SQL
//! text for that one engine.
//!
//! Every renderer entry point is a pure function of its input node. The
//! rendered text of each is pinned down by a spec function, and operations
//! the engine cannot express are rejected with an explicit error instead of
//! being silently downgraded.

pub mod laws;
pub mod render;
pub mod text;
pub mod types;
