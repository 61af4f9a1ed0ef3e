//! Fixed parameters of the kernel: slot counts, the memory map, stack sizes
//! and timer rates.

use vstd::prelude::*;

verus! {

/// Largest number of application slots the kernel supports.
pub const MAX_APP_NUM: usize = 16;

/// Size in bytes of each application's user stack.
pub const USER_STACK_SIZE: usize = 4096 * 2;

/// Size in bytes of each application's kernel stack.
pub const KERNEL_STACK_SIZE: usize = 4096 * 2;

/// Execution address every application is linked at.
pub const APP_BASE_ADDRESS: usize = 0x80400000;

/// Stride between application images; also the largest image size.
pub const APP_SIZE_LIMIT: usize = 0x20000;

/// Supervisor-timer interrupts per second of wall time.
pub const TICKS_PER_SEC: u64 = 100;

/// Microseconds per second.
pub const MICRO_PER_SEC: u64 = 1_000_000;

/// Rate of the machine-time counter: 10 MHz, one tick every 100 ns.
pub const MTIME_FREQUENCY_HZ: u64 = 10_000_000;

/// First physical address past the machine's memory.
pub const MEMORY_END: usize = 0x8800_0000;

/// Size in bytes of a physical page.
pub const PAGE_SIZE: usize = 0x1000;

/// Syscall number of `write`.
pub const WRITE: usize = 64;

/// Syscall number of `exit`.
pub const EXIT: usize = 93;

/// Syscall number of `nanosleep`.
pub const NANOSLEEP: usize = 101;

/// Syscall number of `yield`.
pub const YIELD: usize = 124;

/// Syscall number of `setpriority` (reserved, not implemented).
pub const SETPRIORITY: usize = 140;

/// Syscall number of `gettimeofday`.
pub const GETTIMEOFDAY: usize = 169;

/// File descriptor of standard output, the only one `write` supports.
pub const STDOUT: usize = 1;

/// Error number for an invalid argument; returned negated in the syscall
/// return slot.
pub const EINVAL: isize = 22;

/// Requested sleep time handed to `nanosleep`: seconds and nanoseconds.
#[derive(Clone, Copy, Debug, PartialEq, Eq, Structural)]
pub struct KernelTimespec {
    pub tv_sec: i64,
    pub tv_nsec: i64,
}

impl KernelTimespec {
    /// A timespec of `tv_sec` seconds plus `tv_nsec` nanoseconds.
    pub fn new(tv_sec: i64, tv_nsec: i64) -> (ts: Self)
        ensures
            ts.tv_sec == tv_sec,
            ts.tv_nsec == tv_nsec,
    {
        Self { tv_sec, tv_nsec }
    }

    /// A timespec of whole seconds.
    pub fn sec(tv_sec: i64) -> (ts: Self)
        ensures
            ts.tv_sec == tv_sec,
            ts.tv_nsec == 0,
    {
        Self { tv_sec, tv_nsec: 0 }
    }

    /// A timespec of nanoseconds only.
    pub fn nsec(tv_nsec: i64) -> (ts: Self)
        ensures
            ts.tv_sec == 0,
            ts.tv_nsec == tv_nsec,
    {
        Self { tv_sec: 0, tv_nsec }
    }
}

/// Time since boot as `gettimeofday` reports it: seconds and microseconds.
#[derive(Clone, Copy, Debug, PartialEq, Eq, Structural)]
pub struct TimeVal {
    pub sec: u64,
    pub usec: u64,
}

impl TimeVal {
    /// The zero time value.
    pub fn new() -> (tv: Self)
        ensures
            tv.sec == 0,
            tv.usec == 0,
    {
        Self::default()
    }
}

impl core::default::Default for TimeVal {
    /// The zero time value.
    fn default() -> (tv: Self)
        ensures
            tv.sec == 0,
            tv.usec == 0,
    {
        TimeVal { sec: 0, usec: 0 }
    }
}

} // verus!
