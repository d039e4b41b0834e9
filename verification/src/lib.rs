//! Run child processes, feed them input, and collect or relay their output
//! without deadlocking on the operating system's bounded pipe buffers.

pub mod child_output;
pub mod config;
pub mod error;
pub mod exit_status;
pub mod input;
pub mod output;
pub mod relay;
pub mod spawn;
pub mod text;
pub mod units;

pub use child_output::ChildOutput;
pub use config::Config;
pub use error::Error;
pub use exit_status::ExitStatus;
pub use input::{run_result, CurrentDir, Env, Input, LogCommand, Split, Stdin};
pub use output::{Output, Status, Stderr, StdoutTrimmed, StdoutUntrimmed};
pub use units::from_mib;

