//! Runs a configurable set of build, lint and test tools and turns what they
//! print into structured results.
//!
//! The crate holds the decisions of that tool: how a command line is built,
//! how captured output is read, how a run is classified, how the live display
//! moves from state to state, and how long a cached answer stays valid.
//! Spawning processes, drawing on a terminal and reading files are left to
//! the caller, which hands plain values in and takes plain values back.

pub mod cache;
pub mod clock;
pub mod config;
pub mod display;
pub mod error;
pub mod orchestrator;
pub mod report;
pub mod table;
pub mod text;
pub mod tools;
pub mod workspace;

pub use config::{Config, StatusArgs};
pub use display::{CheckStatus, InteractiveDisplay, StatusEvent};
pub use error::{CargoStatusError, CommandError};
pub use tools::{create_all_checks, StatusCheck};
