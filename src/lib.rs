//! Login-shell front-end for a terminal session multiplexer.
//!
//! The library turns structured flags or a single forced-command string into
//! one canonical command, decides which invocations of the multiplexer to make,
//! and classifies how each invocation ended into an error with an exit code.
//! Spawning processes and printing is left to the caller.

pub mod mode;
pub mod error;
pub mod grammar;
pub mod command;
pub mod cli;
pub mod outcome;
pub mod runner;

pub use mode::Mode;
pub use error::{WemuxError, decimal};
pub use command::CliCommand;
pub use cli::{CliArgs, Resolution, unsupported_message};
pub use outcome::{Termination, child_failed, SIGNAL_EXIT_CODE};
pub use runner::{
    WEMUX_EXE, stripped_env_vars, IoMode, Invocation, Step, Phase, SessionRunner,
    list_invocation, list_outcome, exit_code, connect_message,
};
