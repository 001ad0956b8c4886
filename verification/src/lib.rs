//! Line-oriented substring search over in-memory text.
//!
//! The crate splits a text into lines, keeps the lines that contain a
//! query (literally, or after lowercasing both sides), builds the
//! configuration of one search from an argument list, and words what
//! a run prints. Every function is specified over sequences of
//! characters; see [`text`] for the model.

pub mod text;
pub mod strings;
pub mod search;
pub mod config;
pub mod report;
pub mod laws;

pub use config::{run, ArgumentError, Config};
pub use report::{exit_status, printed, Failure, EXIT_FAILURE, EXIT_SUCCESS};
pub use search::{lines, search, search_case_insensitive, select_by_keys};
