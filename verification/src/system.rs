//! The part of the simulator that runs beside robot code.
pub mod system_daemon;
