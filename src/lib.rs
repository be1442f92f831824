//! Decision logic of a watchdog that keeps one server process alive and
//! restarts it gracefully when the machine runs short of memory.

pub mod memory;
pub mod runs;
pub mod scanner;
pub mod supervisor;
