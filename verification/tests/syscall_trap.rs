use rcore_core::config::{KernelTimespec, TimeVal, EINVAL, STDOUT};
use rcore_core::console::Console;
use rcore_core::syscall::{
    decode_syscall, sys_exit, sys_gettimeofday, sys_nanosleep, sys_write, syscall, SyscallArgs,
    SyscallDecode,
};
use rcore_core::task::{run_first_task, NextTask, TaskManager, TaskStatus};
use rcore_core::trap::{decode_scause, exception_name, trap_handler, TrapCause};
use rcore_core::trap_context::TrapContext;

fn manager(num_app: usize) -> TaskManager {
    let cx_addrs: Vec<usize> = (0..num_app).map(|i| 0x8100_0000 + i * 0x2000).collect();
    let mut tm = TaskManager::new(num_app, 0x8020_0000, &cx_addrs);
    run_first_task(&mut tm);
    tm
}

#[test]
fn timespec_and_timeval_constructors() {
    let ts = KernelTimespec::new(3, 500);
    assert_eq!((ts.tv_sec, ts.tv_nsec), (3, 500));
    let ts = KernelTimespec::sec(7);
    assert_eq!((ts.tv_sec, ts.tv_nsec), (7, 0));
    let ts = KernelTimespec::nsec(250);
    assert_eq!((ts.tv_sec, ts.tv_nsec), (0, 250));
    let tv = TimeVal::new();
    assert_eq!((tv.sec, tv.usec), (0, 0));
    assert_eq!(TimeVal::default(), tv);
}

#[test]
fn syscall_table_decodes_every_number() {
    let args = [11usize, 22, 33];
    assert_eq!(decode_syscall(64, args), SyscallDecode::Write { fd: 11, buf: 22, len: 33 });
    assert_eq!(decode_syscall(93, args), SyscallDecode::Exit { code: 11 });
    assert_eq!(decode_syscall(101, args), SyscallDecode::Nanosleep { req: 11, rem: 22 });
    assert_eq!(decode_syscall(124, args), SyscallDecode::Yield);
    assert_eq!(decode_syscall(169, args), SyscallDecode::GetTimeOfDay { ts: 11, tz: 22 });
    assert_eq!(decode_syscall(140, args), SyscallDecode::Unsupported { id: 140 });
    assert_eq!(decode_syscall(9999, args), SyscallDecode::Unsupported { id: 9999 });
    let code = decode_syscall(93, [usize::MAX, 0, 0]);
    assert_eq!(code, SyscallDecode::Exit { code: -1 });
}

#[test]
fn write_emits_exactly_the_buffer_and_returns_len() {
    let mut con = Console::new();
    con.write_bytes(b"<");
    let r = sys_write(STDOUT, b"hello world", &mut con);
    assert_eq!(r, 11);
    assert_eq!(con.bytes, b"<hello world".to_vec());
    let r = sys_write(STDOUT, b"", &mut con);
    assert_eq!(r, 0);
    assert_eq!(con.bytes, b"<hello world".to_vec());
}

#[test]
fn nanosleep_null_request_fails_without_sleeping() {
    let (ret, sleep) = sys_nanosleep(None, false);
    assert_eq!(ret, -EINVAL);
    assert_eq!(ret, -22);
    assert_eq!(sleep, None);
}

#[test]
fn nanosleep_converts_to_ticks_rounding_up() {
    let one_second = KernelTimespec::sec(1);
    let (ret, sleep) = sys_nanosleep(Some(&one_second), true);
    assert_eq!(ret, 0);
    assert_eq!(sleep, Some(10_000_000));
    let tiny = KernelTimespec::nsec(150);
    let (ret, sleep) = sys_nanosleep(Some(&tiny), true);
    assert_eq!(ret, 0);
    assert_eq!(sleep, Some(2));
    let zero = KernelTimespec::new(0, 0);
    let (_, sleep) = sys_nanosleep(Some(&zero), true);
    assert_eq!(sleep, Some(0));
}

#[test]
fn tick_conversions_match_the_counter_rate() {
    assert_eq!(rcore_core::time::ticks_of_ns(0), 0);
    assert_eq!(rcore_core::time::ticks_of_ns(100), 1);
    assert_eq!(rcore_core::time::ticks_of_ns(101), 2);
    assert_eq!(rcore_core::time::ticks_of_ns(1_000_000_000), 10_000_000);
    assert_eq!(rcore_core::time::ticks_of_ms(500), 5_000_000);
    assert_eq!(rcore_core::time::ticks_of_us(100_000), 1_000_000);
    assert_eq!(rcore_core::time::us_of_ticks(25_000_000), 2_500_000);
    assert_eq!(rcore_core::time::next_trigger_time(1_000), 101_000);
}

#[test]
fn gettimeofday_splits_microseconds() {
    // 12_345_678 ticks = 1_234_567 us = 1 s + 234_567 us.
    let (ret, tv) = sys_gettimeofday(0, 12_345_678);
    assert_eq!(ret, 0);
    assert_eq!((tv.sec, tv.usec), (1, 234_567));
    let (_, tv) = sys_gettimeofday(0, 0);
    assert_eq!((tv.sec, tv.usec), (0, 0));
}

#[test]
fn exit_logs_code_and_schedules_next() {
    let mut tm = manager(2);
    let mut con = Console::new();
    let r = sys_exit(7, &mut tm, &mut con);
    assert_eq!(r, NextTask::Switch { prev: 0, next: 1 });
    assert_eq!(con.bytes, b"Application exited with code 7\n".to_vec());
    assert_eq!(tm.inner.tasks[0].task_status, TaskStatus::Exited);
    let r = sys_exit(-3, &mut tm, &mut con);
    assert_eq!(r, NextTask::Shutdown);
    let text = String::from_utf8(con.bytes.clone()).unwrap();
    assert!(text.contains("Application exited with code -3\n"));
    assert!(text.ends_with("All applications completed!\n"));
}

#[test]
fn syscall_dispatches_yield_and_write() {
    let mut tm = manager(2);
    let mut con = Console::new();
    let r = syscall(64, SyscallArgs::Write { fd: 1, buf: b"hi".to_vec() }, 0, &mut tm, &mut con);
    assert_eq!(r.ret, 2);
    assert!(r.next.is_none());
    assert_eq!(con.bytes, b"hi".to_vec());
    let r = syscall(124, SyscallArgs::Yield, 0, &mut tm, &mut con);
    assert_eq!(r.ret, 0);
    assert_eq!(r.next, Some(NextTask::Switch { prev: 0, next: 1 }));
    assert_eq!(con.bytes, b"hi".to_vec());
}

#[test]
fn scause_decoding_matches_the_architecture() {
    assert_eq!(decode_scause(8), TrapCause::UserEnvCall);
    assert_eq!(decode_scause(7), TrapCause::StoreFault);
    assert_eq!(decode_scause(15), TrapCause::StorePageFault);
    assert_eq!(decode_scause(2), TrapCause::IllegalInstruction);
    assert_eq!(decode_scause(3), TrapCause::OtherException { code: 3 });
    assert_eq!(decode_scause(13), TrapCause::OtherException { code: 13 });
    assert_eq!(decode_scause((1 << 63) | 5), TrapCause::SupervisorTimer);
    assert_eq!(decode_scause((1 << 63) | 1), TrapCause::Unhandled { interrupt: true, code: 1 });
    assert_eq!(decode_scause(14), TrapCause::Unhandled { interrupt: false, code: 14 });
}

#[test]
fn exception_names_match_their_codes() {
    assert_eq!(exception_name(0), "InstructionMisaligned");
    assert_eq!(exception_name(3), "Breakpoint");
    assert_eq!(exception_name(9), "SupervisorEnvCall");
    assert_eq!(exception_name(13), "LoadPageFault");
}

fn ecall_context(id: usize, a0: usize, a1: usize, a2: usize) -> TrapContext {
    let mut cx = TrapContext { x: [0; 32], sstatus: 0, sepc: 0x8040_0100 };
    cx.x[17] = id;
    cx.x[10] = a0;
    cx.x[11] = a1;
    cx.x[12] = a2;
    cx
}

#[test]
fn ecall_write_advances_pc_and_returns_len() {
    let mut tm = manager(1);
    let mut con = Console::new();
    let mut cx = ecall_context(64, 1, 0x9000, 3);
    let payload = Some(SyscallArgs::Write { fd: 1, buf: b"abc".to_vec() });
    let out = trap_handler(&mut cx, 8, 0, 5000, payload, &mut tm, &mut con);
    assert_eq!(cx.sepc, 0x8040_0104);
    assert_eq!(cx.x[10], 3);
    assert!(out.next.is_none());
    assert!(out.arm_timer.is_none());
    assert_eq!(con.bytes, b"abc".to_vec());
}

#[test]
fn ecall_nanosleep_null_reports_einval_in_x10() {
    let mut tm = manager(1);
    let mut con = Console::new();
    let mut cx = ecall_context(101, 0, 0x9000, 0);
    let payload = Some(SyscallArgs::Nanosleep { req: None, rem_null: false });
    let out = trap_handler(&mut cx, 8, 0, 0, payload, &mut tm, &mut con);
    assert_eq!(cx.x[10] as isize, -22);
    assert_eq!(out.sleep_ticks, None);
    assert!(out.next.is_none());
}

#[test]
fn ecall_gettimeofday_reports_value_to_store() {
    let mut tm = manager(1);
    let mut con = Console::new();
    let mut cx = ecall_context(169, 0x9000, 0, 0);
    let payload = Some(SyscallArgs::GetTimeOfDay { tz: 0 });
    let out = trap_handler(&mut cx, 8, 0, 25_000_000, payload, &mut tm, &mut con);
    assert_eq!(cx.x[10], 0);
    assert_eq!(out.time_val, Some(TimeVal { sec: 2, usec: 500_000 }));
}

#[test]
fn store_page_fault_kills_task_and_logs_bad_addr() {
    let mut tm = manager(2);
    let mut con = Console::new();
    let mut cx = TrapContext { x: [0; 32], sstatus: 0, sepc: 0x8040_0230 };
    let out = trap_handler(&mut cx, 15, 0, 0, None, &mut tm, &mut con);
    let text = String::from_utf8(con.bytes.clone()).unwrap();
    assert_eq!(
        text,
        "StorePageFault in application, bad addr = 0x0, bad instruction = 0x80400230, kernel killed it.\n"
    );
    assert_eq!(tm.inner.tasks[0].task_status, TaskStatus::Exited);
    assert_eq!(out.next, Some(NextTask::Switch { prev: 0, next: 1 }));
    assert_eq!(cx.sepc, 0x8040_0230);
}

#[test]
fn store_fault_logs_its_own_kind() {
    let mut tm = manager(1);
    let mut con = Console::new();
    let mut cx = TrapContext { x: [0; 32], sstatus: 0, sepc: 0x8040_0010 };
    trap_handler(&mut cx, 7, 0xdead, 0, None, &mut tm, &mut con);
    let text = String::from_utf8(con.bytes.clone()).unwrap();
    assert!(text.starts_with("StoreFault in application, bad addr = 0xdead,"));
}

#[test]
fn timer_interrupt_rearms_and_preempts() {
    let mut tm = manager(3);
    let mut con = Console::new();
    let mut cx = TrapContext { x: [0; 32], sstatus: 0, sepc: 0x8040_0000 };
    let out = trap_handler(&mut cx, (1 << 63) | 5, 0, 7_000_000, None, &mut tm, &mut con);
    assert_eq!(out.arm_timer, Some(7_100_000));
    assert_eq!(out.next, Some(NextTask::Switch { prev: 0, next: 1 }));
    assert_eq!(tm.inner.current_task, 1);
    assert_eq!(tm.inner.tasks[0].task_status, TaskStatus::Ready);
    assert_eq!(tm.inner.tasks[1].task_status, TaskStatus::Running);
    assert!(con.bytes.is_empty());
}
