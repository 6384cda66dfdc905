//! Control of a child process attached to a pseudo-terminal.
//!
//! The library opens a PTY master, forks, performs the controlling-terminal
//! handshake in the child, and execs the requested command. The returned
//! handle owns the master device and a byte stream over it, and exposes
//! terminal-attribute control (echo, raw mode, window size), signal and
//! status operations, graceful-escalated termination, and a cooperative
//! `interact` loop bridging the caller's terminal to the child.

pub mod codec;
pub mod control;
pub mod error;
pub mod interact;
pub mod master;
pub mod process;
pub mod status;
pub mod stream;
mod sys;
pub mod term;

pub use control::ControlCode;
pub use error::Error;
pub use master::Master;
pub use process::Command;
pub use process::PtyProcess;
pub use status::WaitStatus;
