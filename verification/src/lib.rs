//! Nitora: control of extended (XDR/EDR) display brightness on macOS.
//!
//! This crate holds the decision logic of the service and the command line
//! tool: the request/response protocol, the service state machine, the
//! launchd property list, and the text that the tool prints.

pub mod text;
pub mod launchd;
pub mod ipc;
pub mod cli;
pub mod server;
pub mod device;
pub mod display;
pub mod gamma;
