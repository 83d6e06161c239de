//! Per-stream redirection descriptors for a process-spawning executor.
//!
//! A [`Stdio`] value says what one standard stream of a child process
//! (input, output or error) should be connected to: nothing chosen yet,
//! an already-open descriptor of the current process, or an in-memory
//! byte buffer.

pub mod stdio;

pub use stdio::{Stdio, StdioMode, StdioView, NO_FD};
