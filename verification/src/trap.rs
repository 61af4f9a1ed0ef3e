//! The trap dispatcher: decodes the supervisor cause register and routes to
//! the syscall table, the timer tick or the fault handlers.
//!
//! The assembly trap vector saves the user register file into a
//! [`TrapContext`], calls in here, and restores the (possibly modified)
//! context on return. Reading the cause registers and the time counter, and
//! fetching syscall arguments from user memory, are done by the unverified
//! glue, which passes the plain values in; the routing, the context updates
//! and every state transition are verified.

use vstd::prelude::*;
use vstd::string::StringSliceAdditionalSpecFns;

use crate::config::{TimeVal, MTIME_FREQUENCY_HZ, TICKS_PER_SEC};
use crate::console::Console;
use crate::fmt::{push_hex, spec_hex};
use crate::syscall::{args_match, args_ok, spec_decode_syscall, spec_syscall_post,
    spec_syscall_ret, syscall, SyscallArgs};
use crate::task::{exit_current_and_run_next, spec_kill_outcome, suspend_current_and_run_next,
    NextTask, TaskManager, TaskStatus};
use crate::time::next_trigger_time;
use crate::trap_context::TrapContext;

verus! {

/// Top bit of the cause register: set for interrupts, clear for exceptions.
pub const SCAUSE_INTERRUPT_BIT: u64 = 0x8000_0000_0000_0000;

/// The trap causes this kernel distinguishes. Anything else — an interrupt
/// other than the supervisor timer, or an exception code the architecture
/// does not define — is `Unhandled` and panics the kernel as a kernel bug.
#[derive(Clone, Copy, PartialEq, Eq, Structural, Debug)]
pub enum TrapCause {
    /// Environment call from user mode (exception code 8): a system call.
    UserEnvCall,
    /// Store or AMO access fault (exception code 7).
    StoreFault,
    /// Store or AMO page fault (exception code 15).
    StorePageFault,
    /// Illegal instruction (exception code 2).
    IllegalInstruction,
    /// Any other exception the architecture defines: fatal to the task.
    OtherException { code: u64 },
    /// Supervisor timer interrupt (interrupt code 5).
    SupervisorTimer,
    /// A cause this kernel does not handle: a kernel bug.
    Unhandled { interrupt: bool, code: u64 },
}

/// Whether the architecture defines this exception code (beyond the four
/// specially routed ones).
pub open spec fn known_other_exception(code: u64) -> bool {
    code == 0 || code == 1 || code == 3 || code == 4 || code == 5 || code == 6 || code == 9
        || code == 12 || code == 13
}

/// Decoding of the supervisor cause register: the top bit tells interrupts
/// from exceptions, the rest is the cause code.
pub open spec fn spec_decode_scause(scause: u64) -> TrapCause {
    let code = scause & !SCAUSE_INTERRUPT_BIT;
    if scause >= SCAUSE_INTERRUPT_BIT {
        if code == 5 {
            TrapCause::SupervisorTimer
        } else {
            TrapCause::Unhandled { interrupt: true, code }
        }
    } else {
        if code == 8 {
            TrapCause::UserEnvCall
        } else if code == 7 {
            TrapCause::StoreFault
        } else if code == 15 {
            TrapCause::StorePageFault
        } else if code == 2 {
            TrapCause::IllegalInstruction
        } else if known_other_exception(code) {
            TrapCause::OtherException { code }
        } else {
            TrapCause::Unhandled { interrupt: false, code }
        }
    }
}

/// Decodes the supervisor cause register.
pub fn decode_scause(scause: u64) -> (c: TrapCause)
    ensures
        c == spec_decode_scause(scause),
{
    let code = scause & !SCAUSE_INTERRUPT_BIT;
    if scause >= SCAUSE_INTERRUPT_BIT {
        if code == 5 {
            TrapCause::SupervisorTimer
        } else {
            TrapCause::Unhandled { interrupt: true, code }
        }
    } else {
        if code == 8 {
            TrapCause::UserEnvCall
        } else if code == 7 {
            TrapCause::StoreFault
        } else if code == 15 {
            TrapCause::StorePageFault
        } else if code == 2 {
            TrapCause::IllegalInstruction
        } else if code == 0 || code == 1 || code == 3 || code == 4 || code == 5 || code == 6
            || code == 9 || code == 12 || code == 13 {
            TrapCause::OtherException { code }
        } else {
            TrapCause::Unhandled { interrupt: false, code }
        }
    }
}

/// The architecture's name for an exception code routed generically.
pub open spec fn spec_exception_name(code: u64) -> Seq<u8> {
    if code == 0 {
        ("InstructionMisaligned").spec_bytes()
    } else if code == 1 {
        ("InstructionFault").spec_bytes()
    } else if code == 3 {
        ("Breakpoint").spec_bytes()
    } else if code == 4 {
        ("LoadMisaligned").spec_bytes()
    } else if code == 5 {
        ("LoadFault").spec_bytes()
    } else if code == 6 {
        ("StoreMisaligned").spec_bytes()
    } else if code == 9 {
        ("SupervisorEnvCall").spec_bytes()
    } else if code == 12 {
        ("InstructionPageFault").spec_bytes()
    } else {
        ("LoadPageFault").spec_bytes()
    }
}

/// The architecture's name for an exception code routed generically.
pub fn exception_name(code: u64) -> (s: &'static str)
    requires
        known_other_exception(code),
    ensures
        s.spec_bytes() == spec_exception_name(code),
{
    if code == 0 {
        "InstructionMisaligned"
    } else if code == 1 {
        "InstructionFault"
    } else if code == 3 {
        "Breakpoint"
    } else if code == 4 {
        "LoadMisaligned"
    } else if code == 5 {
        "LoadFault"
    } else if code == 6 {
        "StoreMisaligned"
    } else if code == 9 {
        "SupervisorEnvCall"
    } else if code == 12 {
        "InstructionPageFault"
    } else {
        "LoadPageFault"
    }
}

/// The log line for a store fault: the fault kind, the bad address and the
/// faulting instruction.
pub open spec fn spec_fault_line(kind: Seq<u8>, stval: u64, sepc: usize) -> Seq<u8> {
    kind + (" in application, bad addr = ").spec_bytes() + spec_hex(stval as nat) + (
    ", bad instruction = ").spec_bytes() + spec_hex(sepc as nat) + (
    ", kernel killed it.").spec_bytes() + seq![10u8]
}

/// The log line for a fault without address details.
pub open spec fn spec_kill_line(kind: Seq<u8>) -> Seq<u8> {
    kind + (" in application, kernel killed it.").spec_bytes() + seq![10u8]
}

/// What the machine does after the dispatcher returns.
pub struct TrapOutcome {
    /// A task switch (or shutdown); `None` restores the context and returns
    /// to the current task.
    pub next: Option<NextTask>,
    /// Absolute tick deadline to arm the supervisor timer with.
    pub arm_timer: Option<u64>,
    /// Ticks to busy-wait before returning to the task.
    pub sleep_ticks: Option<u64>,
    /// Value to store to the user's `gettimeofday` buffer.
    pub time_val: Option<TimeVal>,
}

/// Whether a fetched syscall payload fits the raw registers of the trapping
/// context: `x17` routes to the handler the payload is shaped for and the
/// fetched values agree with `x10`-`x12`.
pub open spec fn payload_matches(cx: TrapContext, args: SyscallArgs) -> bool {
    &&& crate::syscall::id_matches(cx.x@[17], args)
    &&& args_match(spec_decode_syscall(cx.x@[17], [cx.x@[10], cx.x@[11], cx.x@[12]]), args)
}

/// Dispatches one trap.
///
/// `scause` and `stval` are the cause registers at trap entry, `now` the
/// machine-time counter, `payload` the syscall arguments fetched from user
/// memory (exactly for a user environment call). The context `cx` is the
/// register file saved by the trap vector; for a syscall the exception
/// program counter is advanced past the `ecall` and the return value is
/// written to the `x10` slot, and for every other cause the context is
/// returned to the assembly untouched.
pub fn trap_handler(
    cx: &mut TrapContext,
    scause: u64,
    stval: u64,
    now: u64,
    payload: Option<SyscallArgs>,
    tm: &mut TaskManager,
    con: &mut Console,
) -> (r: TrapOutcome)
    requires
        old(tm).wf(),
        !(spec_decode_scause(scause) is Unhandled),
        spec_decode_scause(scause) is UserEnvCall ==> (payload matches Some(args) && payload_matches(
            *old(cx),
            args,
        ) && args_ok(args) && old(cx).sepc + 4 <= usize::MAX),
        !(spec_decode_scause(scause) is UserEnvCall) ==> payload is None,
        spec_decode_scause(scause) is SupervisorTimer ==> now + MTIME_FREQUENCY_HZ / TICKS_PER_SEC
            <= u64::MAX,
    ensures
        final(tm).wf(),
        final(tm).num_app == old(tm).num_app,
        match spec_decode_scause(scause) {
            TrapCause::UserEnvCall => payload matches Some(args) && {
                &&& final(cx).sepc == old(cx).sepc + 4
                &&& final(cx).sstatus == old(cx).sstatus
                &&& final(cx).x@ == old(cx).x@.update(10, spec_syscall_ret(args) as usize)
                &&& r.arm_timer is None
                &&& spec_syscall_post(args, now, *old(tm), old(con).bytes@, *final(tm),
                    final(con).bytes@, (crate::syscall::SyscallResult {
                    ret: spec_syscall_ret(args) as isize,
                    next: r.next,
                    sleep_ticks: r.sleep_ticks,
                    time_val: r.time_val,
                }))
            },
            TrapCause::StoreFault => {
                &&& *final(cx) == *old(cx)
                &&& r.arm_timer is None && r.sleep_ticks is None && r.time_val is None
                &&& r.next matches Some(nt) && spec_kill_outcome(
                    spec_fault_line(("StoreFault").spec_bytes(), stval, old(cx).sepc),
                    *old(tm),
                    old(con).bytes@,
                    nt,
                    *final(tm),
                    final(con).bytes@,
                )
            },
            TrapCause::StorePageFault => {
                &&& *final(cx) == *old(cx)
                &&& r.arm_timer is None && r.sleep_ticks is None && r.time_val is None
                &&& r.next matches Some(nt) && spec_kill_outcome(
                    spec_fault_line(("StorePageFault").spec_bytes(), stval, old(cx).sepc),
                    *old(tm),
                    old(con).bytes@,
                    nt,
                    *final(tm),
                    final(con).bytes@,
                )
            },
            TrapCause::IllegalInstruction => {
                &&& *final(cx) == *old(cx)
                &&& r.arm_timer is None && r.sleep_ticks is None && r.time_val is None
                &&& r.next matches Some(nt) && spec_kill_outcome(
                    spec_kill_line(("IllegalInstruction").spec_bytes()),
                    *old(tm),
                    old(con).bytes@,
                    nt,
                    *final(tm),
                    final(con).bytes@,
                )
            },
            TrapCause::OtherException { code } => {
                &&& *final(cx) == *old(cx)
                &&& r.arm_timer is None && r.sleep_ticks is None && r.time_val is None
                &&& r.next matches Some(nt) && spec_kill_outcome(
                    spec_kill_line(spec_exception_name(code)),
                    *old(tm),
                    old(con).bytes@,
                    nt,
                    *final(tm),
                    final(con).bytes@,
                )
            },
            TrapCause::SupervisorTimer => {
                &&& *final(cx) == *old(cx)
                &&& r.arm_timer matches Some(d) && d == now + MTIME_FREQUENCY_HZ / TICKS_PER_SEC
                &&& r.sleep_ticks is None && r.time_val is None
                &&& r.next == Some(
                    (NextTask::Switch {
                        prev: old(tm).inner.current_task,
                        next: final(tm).inner.current_task,
                    }),
                )
                &&& final(tm).sched() == crate::schedule::yield_step(old(tm).sched())
                &&& final(con).bytes@ == old(con).bytes@
            },
            TrapCause::Unhandled { .. } => false,
        },
{
    let cause = decode_scause(scause);
    match cause {
        TrapCause::UserEnvCall => {
            cx.sepc = cx.sepc + 4;
            let id = cx.x[17];
            let args = payload.unwrap();
            let res = syscall(id, args, now, tm, con);
            cx.x[10] = res.ret as usize;
            TrapOutcome {
                next: res.next,
                arm_timer: None,
                sleep_ticks: res.sleep_ticks,
                time_val: res.time_val,
            }
        },
        TrapCause::StoreFault => {
            let addrs = Some((stval, cx.sepc));
            let next = report_fault("StoreFault", addrs, tm, con);
            TrapOutcome { next: Some(next), arm_timer: None, sleep_ticks: None, time_val: None }
        },
        TrapCause::StorePageFault => {
            let addrs = Some((stval, cx.sepc));
            let next = report_fault("StorePageFault", addrs, tm, con);
            TrapOutcome { next: Some(next), arm_timer: None, sleep_ticks: None, time_val: None }
        },
        TrapCause::IllegalInstruction => {
            let next = report_fault("IllegalInstruction", None, tm, con);
            TrapOutcome { next: Some(next), arm_timer: None, sleep_ticks: None, time_val: None }
        },
        TrapCause::OtherException { code } => {
            let kind = exception_name(code);
            let next = report_fault(kind, None, tm, con);
            TrapOutcome { next: Some(next), arm_timer: None, sleep_ticks: None, time_val: None }
        },
        TrapCause::SupervisorTimer => {
            let deadline = next_trigger_time(now);
            let next = suspend_current_and_run_next(tm, con);
            TrapOutcome {
                next: Some(next),
                arm_timer: Some(deadline),
                sleep_ticks: None,
                time_val: None,
            }
        },
        TrapCause::Unhandled { .. } => {
            proof {
                assert(false);
            }
            TrapOutcome { next: None, arm_timer: None, sleep_ticks: None, time_val: None }
        },
    }
}

/// Logs a fatal fault of the current task — with the bad address and the
/// faulting instruction when `addrs` carries them — then exits the task and
/// schedules the next one.
fn report_fault(
    kind: &str,
    addrs: Option<(u64, usize)>,
    tm: &mut TaskManager,
    con: &mut Console,
) -> (r: NextTask)
    requires
        old(tm).wf(),
    ensures
        final(tm).wf(),
        final(tm).num_app == old(tm).num_app,
        ({
            let line = match addrs {
                Some(sv) => spec_fault_line(kind.spec_bytes(), sv.0, sv.1),
                None => spec_kill_line(kind.spec_bytes()),
            };
            spec_kill_outcome(line, *old(tm), old(con).bytes@, r, *final(tm), final(con).bytes@)
        }),
{
    con.write_bytes(kind.as_bytes());
    match addrs {
        Some((stval, sepc)) => {
            con.write_bytes(" in application, bad addr = ".as_bytes());
            let mut buf: Vec<u8> = Vec::new();
            push_hex(&mut buf, stval);
            con.write_bytes(buf.as_slice());
            con.write_bytes(", bad instruction = ".as_bytes());
            let mut buf2: Vec<u8> = Vec::new();
            push_hex(&mut buf2, sepc as u64);
            con.write_bytes(buf2.as_slice());
            con.write_line(", kernel killed it.".as_bytes());
            proof {
                assert(con.bytes@ =~= old(con).bytes@ + spec_fault_line(
                    kind.spec_bytes(),
                    stval,
                    sepc,
                ));
            }
        },
        None => {
            con.write_line(" in application, kernel killed it.".as_bytes());
            proof {
                assert(con.bytes@ =~= old(con).bytes@ + spec_kill_line(kind.spec_bytes()));
            }
        },
    }
    let ghost logged = con.bytes@;
    let r = exit_current_and_run_next(tm, con);
    proof {
        let marked = old(tm).statuses().update(old(tm).inner.current_task as int,
            TaskStatus::Exited);
        if crate::schedule::spec_find_next(
            marked,
            old(tm).inner.current_task as int,
            old(tm).num_app as int,
        ) is None {
            assert(con.bytes@ =~= logged + ("All applications completed!").spec_bytes()
                + seq![10u8]);
        }
    }
    r
}

} // verus!
