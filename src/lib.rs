//! A small registry of named executables, kept in a local SQLite table,
//! and the decisions of the command-line tool that manages and launches them.
//!
//! - `command`: the argument vector read into a `Command`.
//! - `dispatch`: what each command does, and the lines that answer it.
//! - `registry`: the table as a sequence of rows, and the laws of its operations.
//!   It models what the SQL statements are meant to do; the executable
//!   store functions are not proved against it.
//! - `store`: the table in SQLite, one prepared statement per operation.
//! - `launch`: the path that launching a stored server runs.
//! - `message`: the printed lines.

pub mod command;
pub mod dispatch;
pub mod launch;
pub mod message;
pub mod registry;
pub mod store;

pub use command::{parse_command, Command};
pub use dispatch::{decide, file_checked, perform, plan, reply_for, Action, Reply};
pub use launch::resolve_path;
pub use registry::{ConfigEntry, StoreOp};
pub use store::{bindings_of, open_store, row_outcome, run_op, StoreError, DATABASE_FILE};
