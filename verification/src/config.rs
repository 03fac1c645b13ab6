//! The settings that have a default.

use vstd::prelude::*;

verus! {

/// How much the program logs.
#[derive(Debug, Clone, Copy, PartialEq, Eq, Structural)]
pub enum LogLevel {
    Info,
    Warn,
    Debug,
    Trace,
}

/// The log level of a configuration that names none.
pub fn log_level_default() -> (level: LogLevel)
    ensures
        level == LogLevel::Info,
{
    LogLevel::Info
}

/// The port of a configuration that names none.
pub fn listen_port_default() -> (port: u16)
    ensures
        port == 3003,
{
    3003
}

} // verus!
