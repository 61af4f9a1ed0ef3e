//! Core of a teaching-grade RISC-V operating-system kernel: the task
//! subsystem, the trap dispatcher and the system-call table, modelled as
//! verified state transitions over plain data.
//!
//! Hardware effects (SBI console output, timer arming, shutdown, the task
//! switch itself) are represented as data that the surrounding unverified
//! glue performs.

pub mod batch;
pub mod config;
pub mod console;
pub mod fmt;
pub mod kernel;
pub mod loader;
pub mod schedule;
pub mod syscall;
pub mod task;
pub mod time;
pub mod trap;
pub mod trap_context;
