//! The tools that can be run, and how one run is carried out and read.

pub mod registry;
pub mod status_check;
pub mod test_results;

pub use registry::{create_all_checks, ToolRegistry};
pub use status_check::StatusCheck;
pub use test_results::{parse_test_results, strip_ansi_escapes};
