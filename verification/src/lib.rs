//! Leveled, indented terminal reporting with progress indicators, and the
//! bookkeeping of a supervised child process.
//!
//! Everything here computes: what text a call writes, how a progress
//! indicator moves, what a drained batch of output lines does to the record
//! of a running process. Sending the text to a terminal, spawning processes
//! and reading their pipes is the caller's part.

pub mod batch;
pub mod level;
pub mod lines;
pub mod markdown;
pub mod monitor;
pub mod null_term;
pub mod printer;
pub mod process;
pub mod progress;
pub mod scope;
pub mod style;
mod terminal;
pub mod text;
pub mod value;

pub use batch::{BatchRunner, ExecuteLater, ExecutionUnit};
pub use level::Level;
pub use lines::{format_log, sanitize_output};
pub use printer::Printer;
pub use process::ExecuteOptions;
pub use progress::{MultiProgress, MultiProgressBar};
pub use scope::{Heading, Section};
pub use value::{Number, Value};
