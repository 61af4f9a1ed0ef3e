//! The system-call table: `write`, `exit`, `yield`, `nanosleep` and
//! `gettimeofday`.
//!
//! User pointers live in raw memory the verified kernel cannot touch, so the
//! table is split in two verified halves around one unverified fetch:
//! [`decode_syscall`] maps the raw trap registers to what must be read from
//! user memory, the unverified glue performs those reads, and [`syscall`]
//! takes the fetched plain values and carries the call out.

use vstd::prelude::*;
use vstd::string::StringSliceAdditionalSpecFns;
use vstd::utf8::valid_utf8;

use crate::config::{KernelTimespec, TimeVal, EINVAL, EXIT, GETTIMEOFDAY, NANOSLEEP, STDOUT,
    WRITE, YIELD};
use crate::console::Console;
use crate::fmt::spec_dec_signed;
use crate::task::{exit_current_and_run_next, suspend_current_and_run_next, NextTask, TaskManager};
use crate::time::{ticks_of_ns, timeval_of_us, total_ns, us_of_ticks};

verus! {

/// What the raw syscall registers ask the machine to fetch from or about
/// user memory before the call can be carried out; addresses are user
/// pointers, `0` is null.
#[derive(Clone, Copy, PartialEq, Eq, Structural, Debug)]
pub enum SyscallDecode {
    /// `write(fd, buf, len)`: fetch `len` bytes at `buf`.
    Write { fd: usize, buf: usize, len: usize },
    /// `exit(code)`: nothing to fetch.
    Exit { code: i32 },
    /// `nanosleep(req, rem)`: fetch the timespec at `req` if non-null.
    Nanosleep { req: usize, rem: usize },
    /// `yield`: nothing to fetch.
    Yield,
    /// `gettimeofday(ts, tz)`: the result is stored to `ts` afterwards.
    GetTimeOfDay { ts: usize, tz: usize },
    /// Any other syscall number: a kernel panic, as the table is complete.
    Unsupported { id: usize },
}

/// The syscall table as a function of the raw trap registers: `x17` holds
/// the syscall number, `x10`-`x12` the arguments.
pub open spec fn spec_decode_syscall(syscall_id: usize, args: [usize; 3]) -> SyscallDecode {
    if syscall_id == WRITE {
        SyscallDecode::Write { fd: args[0], buf: args[1], len: args[2] }
    } else if syscall_id == EXIT {
        SyscallDecode::Exit { code: args[0] as i32 }
    } else if syscall_id == NANOSLEEP {
        SyscallDecode::Nanosleep { req: args[0], rem: args[1] }
    } else if syscall_id == YIELD {
        SyscallDecode::Yield
    } else if syscall_id == GETTIMEOFDAY {
        SyscallDecode::GetTimeOfDay { ts: args[0], tz: args[1] }
    } else {
        SyscallDecode::Unsupported { id: syscall_id }
    }
}

/// Routes a raw syscall to its handler's argument shape.
pub fn decode_syscall(syscall_id: usize, args: [usize; 3]) -> (d: SyscallDecode)
    ensures
        d == spec_decode_syscall(syscall_id, args),
{
    if syscall_id == WRITE {
        SyscallDecode::Write { fd: args[0], buf: args[1], len: args[2] }
    } else if syscall_id == EXIT {
        SyscallDecode::Exit { code: args[0] as i32 }
    } else if syscall_id == NANOSLEEP {
        SyscallDecode::Nanosleep { req: args[0], rem: args[1] }
    } else if syscall_id == YIELD {
        SyscallDecode::Yield
    } else if syscall_id == GETTIMEOFDAY {
        SyscallDecode::GetTimeOfDay { ts: args[0], tz: args[1] }
    } else {
        SyscallDecode::Unsupported { id: syscall_id }
    }
}

/// A system call's arguments with every user-memory value already fetched as
/// a plain value.
pub enum SyscallArgs {
    /// `write(fd, ..)` with the `len` bytes read at the buffer pointer.
    Write { fd: usize, buf: Vec<u8> },
    /// `exit(code)`.
    Exit { code: i32 },
    /// `nanosleep(req, rem)`: the timespec read at `req` (`None` for a null
    /// pointer) and whether `rem` was null.
    Nanosleep { req: Option<KernelTimespec>, rem_null: bool },
    /// `yield`.
    Yield,
    /// `gettimeofday(.., tz)`.
    GetTimeOfDay { tz: usize },
}

/// Everything a finished system call asks of the machine besides its return
/// value.
pub struct SyscallResult {
    /// The value for the `x10` return slot.
    pub ret: isize,
    /// A task switch decided by `yield` or `exit`; `None` returns straight
    /// to the caller.
    pub next: Option<NextTask>,
    /// Ticks to busy-wait before returning (`nanosleep`).
    pub sleep_ticks: Option<u64>,
    /// The value to store to the user's `gettimeofday` buffer.
    pub time_val: Option<TimeVal>,
}

/// Writes `buf` to standard output: emits exactly its bytes to the SBI
/// console, in order, and returns the byte count.
///
/// The kernel panics on any other file descriptor and on a buffer that is
/// not valid UTF-8; callers reject those before coming here.
pub fn sys_write(fd: usize, buf: &[u8], con: &mut Console) -> (r: isize)
    requires
        fd == STDOUT,
        valid_utf8(buf@),
        buf@.len() <= isize::MAX,
    ensures
        r == buf@.len(),
        final(con).bytes@ == old(con).bytes@ + buf@,
{
    con.write_bytes(buf);
    buf.len() as isize
}

/// The console line `exit` logs: `Application exited with code <code>`.
pub open spec fn spec_exit_line(code: i32) -> Seq<u8> {
    ("Application exited with code ").spec_bytes() + spec_dec_signed(code as int) + seq![10u8]
}

/// Ends the current task: logs the exit code, marks the task `Exited` and
/// schedules the next one; with no `Ready` task left the machine is asked to
/// shut down.
///
/// The exit code is logged and otherwise discarded.
pub fn sys_exit(exit_code: i32, tm: &mut TaskManager, con: &mut Console) -> (r: NextTask)
    requires
        old(tm).wf(),
    ensures
        final(tm).num_app == old(tm).num_app,
        final(tm).wf(),
        spec_exit_outcome(exit_code, *old(tm), old(con).bytes@, r, *final(tm), final(con).bytes@),
{
    let mut line: Vec<u8> = Vec::new();
    crate::fmt::push_dec_signed(&mut line, exit_code as i64);
    line.push(10);
    con.write_bytes("Application exited with code ".as_bytes());
    con.write_bytes(line.as_slice());
    proof {
        assert(con.bytes@ =~= old(con).bytes@ + spec_exit_line(exit_code));
    }
    let r = exit_current_and_run_next(tm, con);
    proof {
        let marked = old(tm).statuses().update(
            old(tm).inner.current_task as int,
            crate::task::TaskStatus::Exited,
        );
        match crate::schedule::spec_find_next(
            marked,
            old(tm).inner.current_task as int,
            old(tm).num_app as int,
        ) {
            Some(j) => {
                assert(con.bytes@ =~= old(con).bytes@ + spec_exit_line(exit_code));
            },
            None => {
                assert(con.bytes@ =~= (old(con).bytes@ + spec_exit_line(exit_code)) + (
                "All applications completed!").spec_bytes() + seq![10u8]);
            },
        }
    }
    r
}

/// Gives the processor up: the current task goes back to `Ready`, the next
/// `Ready` task (round-robin) runs; returns 0.
pub fn sys_yield(tm: &mut TaskManager, con: &mut Console) -> (r: (isize, NextTask))
    requires
        old(tm).wf(),
    ensures
        r.0 == 0,
        r.1 == (NextTask::Switch {
            prev: old(tm).inner.current_task,
            next: final(tm).inner.current_task,
        }),
        final(tm).wf(),
        final(tm).num_app == old(tm).num_app,
        final(tm).sched() == crate::schedule::yield_step(old(tm).sched()),
        final(con).bytes@ == old(con).bytes@,
{
    let next = suspend_current_and_run_next(tm, con);
    (0, next)
}

/// Busy-wait sleep: a null request is rejected with `-EINVAL` and no sleep;
/// otherwise the requested duration, rounded up to whole 100 ns ticks, is
/// reported for the machine to busy-wait, and the call returns 0.
///
/// A non-null `rem` pointer together with a non-null request is unsupported
/// and panics the kernel; callers reject it before coming here.
pub fn sys_nanosleep(req: Option<&KernelTimespec>, rem_null: bool) -> (r: (isize, Option<u64>))
    requires
        req matches Some(ts) ==> rem_null && 0 <= ts.tv_sec && 0 <= ts.tv_nsec && ts.tv_sec
            * 1_000_000_000 + ts.tv_nsec <= u64::MAX,
    ensures
        match req {
            None => r.0 == -EINVAL && r.1 is None,
            Some(ts) => r.0 == 0 && r.1 == Some(
                (((ts.tv_sec * 1_000_000_000 + ts.tv_nsec) + 99) / 100) as u64,
            ),
        },
{
    match req {
        None => (-EINVAL, None),
        Some(ts) => {
            let ns = total_ns(ts);
            let ticks = ticks_of_ns(ns);
            (0, Some(ticks))
        },
    }
}

/// Reports the time since boot: seconds and microseconds derived from the
/// tick counter value `now`; the machine stores the value to the user's
/// buffer. Returns 0.
pub fn sys_gettimeofday(tz: usize, now: u64) -> (r: (isize, TimeVal))
    ensures
        r.0 == 0,
        r.1.sec == (now / 10) / 1_000_000,
        r.1.usec == (now / 10) % 1_000_000,
{
    let us = us_of_ticks(now);
    let tv = timeval_of_us(us);
    (0, tv)
}

/// Whether the syscall number routes to the handler these arguments are
/// shaped for.
pub open spec fn id_matches(syscall_id: usize, args: SyscallArgs) -> bool {
    match args {
        SyscallArgs::Write { .. } => syscall_id == WRITE,
        SyscallArgs::Exit { .. } => syscall_id == EXIT,
        SyscallArgs::Nanosleep { .. } => syscall_id == NANOSLEEP,
        SyscallArgs::Yield => syscall_id == YIELD,
        SyscallArgs::GetTimeOfDay { .. } => syscall_id == GETTIMEOFDAY,
    }
}

/// Whether fetched arguments fit the decoded shape of the raw registers.
pub open spec fn args_match(d: SyscallDecode, args: SyscallArgs) -> bool {
    match args {
        SyscallArgs::Write { fd, buf } => d matches SyscallDecode::Write {
            fd: dfd,
            buf: _,
            len,
        } && dfd == fd && len == buf@.len(),
        SyscallArgs::Exit { code } => d matches SyscallDecode::Exit { code: dcode } && dcode
            == code,
        SyscallArgs::Nanosleep { req, rem_null } => d matches SyscallDecode::Nanosleep {
            req: reqp,
            rem,
        } && (req is Some <==> reqp != 0) && (rem_null <==> rem == 0),
        SyscallArgs::Yield => d is Yield,
        SyscallArgs::GetTimeOfDay { tz } => d matches SyscallDecode::GetTimeOfDay {
            ts: _,
            tz: dtz,
        } && dtz == tz,
    }
}

/// The per-call preconditions the unverified glue establishes by testing and
/// panicking exactly as the hardware kernel does.
pub open spec fn args_ok(args: SyscallArgs) -> bool {
    match args {
        SyscallArgs::Write { fd, buf } => fd == STDOUT && valid_utf8(buf@) && buf@.len()
            <= isize::MAX,
        SyscallArgs::Exit { code: _ } => true,
        SyscallArgs::Nanosleep { req, rem_null } => req matches Some(ts) ==> rem_null && 0
            <= ts.tv_sec && 0 <= ts.tv_nsec && ts.tv_sec * 1_000_000_000 + ts.tv_nsec <= u64::MAX,
        SyscallArgs::Yield => true,
        SyscallArgs::GetTimeOfDay { tz: _ } => true,
    }
}

/// Handles one system call with its fetched arguments; `now` is the tick
/// counter at trap time.
pub fn syscall(
    syscall_id: usize,
    args: SyscallArgs,
    now: u64,
    tm: &mut TaskManager,
    con: &mut Console,
) -> (r: SyscallResult)
    requires
        old(tm).wf(),
        id_matches(syscall_id, args),
        args_ok(args),
    ensures
        final(tm).wf(),
        final(tm).num_app == old(tm).num_app,
        spec_syscall_post(args, now, *old(tm), old(con).bytes@, *final(tm), final(con).bytes@, r),
{
    match args {
        SyscallArgs::Write { fd, buf } => {
            let ret = sys_write(fd, buf.as_slice(), con);
            SyscallResult { ret, next: None, sleep_ticks: None, time_val: None }
        },
        SyscallArgs::Exit { code } => {
            let next = sys_exit(code, tm, con);
            SyscallResult { ret: 0, next: Some(next), sleep_ticks: None, time_val: None }
        },
        SyscallArgs::Nanosleep { req, rem_null } => {
            let (ret, sleep_ticks) = sys_nanosleep(req.as_ref(), rem_null);
            SyscallResult { ret, next: None, sleep_ticks, time_val: None }
        },
        SyscallArgs::Yield => {
            let (ret, next) = sys_yield(tm, con);
            SyscallResult { ret, next: Some(next), sleep_ticks: None, time_val: None }
        },
        SyscallArgs::GetTimeOfDay { tz } => {
            let (ret, tv) = sys_gettimeofday(tz, now);
            SyscallResult { ret, next: None, sleep_ticks: None, time_val: Some(tv) }
        },
    }
}

/// The return value each call produces for the `x10` slot.
pub open spec fn spec_syscall_ret(args: SyscallArgs) -> int {
    match args {
        SyscallArgs::Write { fd: _, buf } => buf@.len() as int,
        SyscallArgs::Exit { .. } => 0,
        SyscallArgs::Nanosleep { req, .. } => if req is None {
            -EINVAL
        } else {
            0
        },
        SyscallArgs::Yield => 0,
        SyscallArgs::GetTimeOfDay { .. } => 0,
    }
}

/// Everything `syscall` guarantees, relating the state before the call
/// (`tm0`, `con0`) to the state after (`tm1`, `con1`) and the result.
pub open spec fn spec_syscall_post(
    args: SyscallArgs,
    now: u64,
    tm0: TaskManager,
    con0: Seq<u8>,
    tm1: TaskManager,
    con1: Seq<u8>,
    r: SyscallResult,
) -> bool {
    &&& r.ret == spec_syscall_ret(args)
    &&& match args {
        SyscallArgs::Write { fd: _, buf } => {
            &&& r.next is None
            &&& r.sleep_ticks is None
            &&& r.time_val is None
            &&& con1 == con0 + buf@
            &&& tm1 == tm0
        },
        SyscallArgs::Exit { code } => {
            &&& r.next is Some
            &&& r.sleep_ticks is None
            &&& r.time_val is None
            &&& spec_exit_outcome(code, tm0, con0, r.next->0, tm1, con1)
        },
        SyscallArgs::Nanosleep { req, rem_null: _ } => {
            &&& r.next is None
            &&& r.time_val is None
            &&& con1 == con0
            &&& tm1 == tm0
            &&& match req {
                None => r.sleep_ticks is None,
                Some(ts) => r.sleep_ticks == Some(
                    (((ts.tv_sec * 1_000_000_000 + ts.tv_nsec) + 99) / 100) as u64,
                ),
            }
        },
        SyscallArgs::Yield => {
            &&& r.next == Some(
                (NextTask::Switch { prev: tm0.inner.current_task, next: tm1.inner.current_task }),
            )
            &&& r.sleep_ticks is None
            &&& r.time_val is None
            &&& con1 == con0
            &&& tm1.sched() == crate::schedule::yield_step(tm0.sched())
        },
        SyscallArgs::GetTimeOfDay { tz: _ } => {
            &&& r.next is None
            &&& r.sleep_ticks is None
            &&& r.time_val matches Some(tv) && tv.sec == (now / 10) / 1_000_000 && tv.usec == (now
                / 10) % 1_000_000
            &&& con1 == con0
            &&& tm1 == tm0
        },
    }
}

/// The state change of `exit`: the exit line is logged and the task ends
/// fatally as [`crate::task::spec_kill_outcome`] describes.
pub open spec fn spec_exit_outcome(
    code: i32,
    tm0: TaskManager,
    con0: Seq<u8>,
    r: NextTask,
    tm1: TaskManager,
    con1: Seq<u8>,
) -> bool {
    crate::task::spec_kill_outcome(spec_exit_line(code), tm0, con0, r, tm1, con1)
}

} // verus!
