//! Session management for a serial-port terminal.
//!
//! The crate holds the rules of the terminal and none of its I/O: the closed
//! set of baud rates, the list of ports a host reports, the connection state
//! machine and the duplex channel that moves bytes between a device and the
//! output log. A driver owns the device handle, performs what the session
//! asks for and reports back what happened.

pub mod err;
pub mod serial;
pub mod session;
pub mod text;
