//! Boot-time initialization: the verifiable composition of the loader and
//! the task manager, up to the point where the machine switches into the
//! first task.
//!
//! The unverified glue zeroes the BSS, copies the application images,
//! installs the trap vector and enables the timer around this; the context
//! and task-state construction happens here.

use vstd::prelude::*;

use crate::config::{APP_BASE_ADDRESS, KERNEL_STACK_SIZE, MAX_APP_NUM, USER_STACK_SIZE};
use crate::loader::{init_app_cx, KernelStack, UserStack, TRAP_CONTEXT_SIZE};
use crate::task::TaskManager;

verus! {

/// Builds every task's initial trap context on its kernel stack, builds the
/// task manager, and marks task 0 `Running`; the machine then switches into
/// task 0's context and user execution begins.
///
/// The register file task 0 enters user mode with is exactly the context the
/// loader pushed: in particular the `x10` slot — the entry-point argument —
/// is the zero `init_app_cx` wrote, the program counter is the application
/// base address, and the stack pointer is the top of task 0's user stack.
///
/// `restore` is the address of the trap-return trampoline and `sstatus` the
/// current supervisor-status value, both read from the hardware by the
/// caller; `kstack_bases` and `ustack_bases` are the addresses of the fixed
/// per-task stack regions.
pub fn boot(
    num_app: usize,
    restore: usize,
    kstack_bases: &Vec<usize>,
    ustack_bases: &Vec<usize>,
    sstatus: usize,
) -> (r: (TaskManager, Vec<KernelStack>))
    requires
        1 <= num_app <= MAX_APP_NUM,
        kstack_bases@.len() == num_app,
        ustack_bases@.len() == num_app,
        forall|i: int|
            0 <= i < num_app ==> #[trigger] kstack_bases@[i] + KERNEL_STACK_SIZE <= usize::MAX,
        forall|i: int|
            0 <= i < num_app ==> #[trigger] ustack_bases@[i] + USER_STACK_SIZE <= usize::MAX,
    ensures
        r.0.wf(),
        r.0.num_app == num_app,
        r.0.inner.current_task == 0,
        r.0.unique_running(),
        r.0.statuses()[0] is Running,
        forall|i: int| 1 <= i < num_app ==> r.0.statuses()[i] is Ready,
        r.1@.len() == num_app,
        ({
            &&& r.1@[0].top_cx matches Some(cx)
            &&& cx.x@[10] == 0
            &&& cx.sepc == APP_BASE_ADDRESS
            &&& cx.x@[2] == ustack_bases@[0] + USER_STACK_SIZE
            &&& r.0.inner.tasks@[0].task_cx.sp == kstack_bases@[0] + KERNEL_STACK_SIZE
                - TRAP_CONTEXT_SIZE
            &&& r.0.inner.tasks@[0].task_cx.ra == restore
        }),
{
    let mut kstacks: Vec<KernelStack> = Vec::new();
    let mut cx_addrs: Vec<usize> = Vec::new();
    let mut i: usize = 0;
    while i < num_app
        invariant
            i <= num_app,
            num_app <= MAX_APP_NUM,
            kstack_bases@.len() == num_app,
            ustack_bases@.len() == num_app,
            forall|j: int|
                0 <= j < num_app ==> #[trigger] kstack_bases@[j] + KERNEL_STACK_SIZE
                    <= usize::MAX,
            forall|j: int|
                0 <= j < num_app ==> #[trigger] ustack_bases@[j] + USER_STACK_SIZE <= usize::MAX,
            kstacks@.len() == i,
            cx_addrs@.len() == i,
            forall|j: int|
                0 <= j < i ==> #[trigger] cx_addrs@[j] == kstack_bases@[j] + KERNEL_STACK_SIZE
                    - TRAP_CONTEXT_SIZE,
            forall|j: int|
                0 <= j < i ==> {
                    &&& #[trigger] kstacks@[j].top_cx matches Some(cx)
                    &&& cx.sepc == APP_BASE_ADDRESS + j * crate::config::APP_SIZE_LIMIT
                    &&& cx.x@[2] == ustack_bases@[j] + USER_STACK_SIZE
                    &&& cx.x@[10] == 0
                },
        decreases num_app - i,
    {
        let mut ks = KernelStack { base: kstack_bases[i], top_cx: None };
        let us = UserStack { base: ustack_bases[i] };
        let ptr = init_app_cx(i, &mut ks, &us, sstatus);
        kstacks.push(ks);
        cx_addrs.push(ptr);
        i = i + 1;
    }
    let mut tm = TaskManager::new(num_app, restore, &cx_addrs);
    let ghost tm0 = tm;
    tm.run_first_task();
    proof {
        assert(tm.inner.tasks@[0].task_cx == tm0.inner.tasks@[0].task_cx);
        assert(tm0.statuses()[0] is Ready);
        assert forall|i: int| 1 <= i < num_app implies tm.statuses()[i] is Ready by {
            assert(tm.inner.tasks@[i] == tm0.inner.tasks@[i]);
            assert(tm0.statuses()[i] == tm0.inner.tasks@[i].task_status);
            assert(tm.statuses()[i] == tm.inner.tasks@[i].task_status);
        }
        assert(kstacks@[0].top_cx is Some);
        assert(cx_addrs@[0] == kstack_bases@[0] + KERNEL_STACK_SIZE - TRAP_CONTEXT_SIZE);
        assert(kstacks@[0].top_cx->0.sepc == APP_BASE_ADDRESS + 0 * crate::config::APP_SIZE_LIMIT);
    }
    (tm, kstacks)
}

} // verus!
