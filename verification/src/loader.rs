//! The loader's verifiable part: per-application execution addresses, the
//! fixed per-slot stacks, and the initial trap context pushed onto each
//! kernel stack.
//!
//! Copying the application images into place is a raw memory operation of
//! the unverified glue; the addresses and the pushed context are computed
//! and tracked here.

use vstd::prelude::*;

use crate::config::{APP_BASE_ADDRESS, APP_SIZE_LIMIT, KERNEL_STACK_SIZE, MAX_APP_NUM,
    USER_STACK_SIZE};
use crate::trap_context::{TrapContext, SSTATUS_SPP};

verus! {

/// Size in bytes of a saved trap context: 32 registers, the status and the
/// exception program counter, 8 bytes each.
pub const TRAP_CONTEXT_SIZE: usize = 34 * 8;

/// Execution address of application `app_id`: every app is linked at the
/// fixed base, one stride apart.
pub fn get_base_i(app_id: usize) -> (addr: usize)
    requires
        app_id < MAX_APP_NUM,
    ensures
        addr == APP_BASE_ADDRESS + app_id * APP_SIZE_LIMIT,
{
    APP_BASE_ADDRESS + app_id * APP_SIZE_LIMIT
}

/// One application's kernel stack: a fixed page-aligned region growing down
/// from `base + KERNEL_STACK_SIZE`, together with the trap context the
/// loader pushed at its top.
pub struct KernelStack {
    /// Lowest address of the stack region.
    pub base: usize,
    /// The trap context stored at the top of the stack, once pushed.
    pub top_cx: Option<TrapContext>,
}

impl KernelStack {
    /// The initial stack pointer: stacks grow down from the region's end.
    pub fn get_sp(&self) -> (sp: usize)
        requires
            self.base + KERNEL_STACK_SIZE <= usize::MAX,
        ensures
            sp == self.base + KERNEL_STACK_SIZE,
    {
        self.base + KERNEL_STACK_SIZE
    }

    /// Stores a trap context at the top of the stack and returns its
    /// address.
    pub fn push_context(&mut self, cx: TrapContext) -> (ptr: usize)
        requires
            old(self).base + KERNEL_STACK_SIZE <= usize::MAX,
        ensures
            ptr == old(self).base + KERNEL_STACK_SIZE - TRAP_CONTEXT_SIZE,
            final(self).base == old(self).base,
            final(self).top_cx == Some(cx),
    {
        self.top_cx = Some(cx);
        self.base + KERNEL_STACK_SIZE - TRAP_CONTEXT_SIZE
    }
}

/// One application's user stack: a fixed page-aligned region growing down
/// from `base + USER_STACK_SIZE`.
pub struct UserStack {
    /// Lowest address of the stack region.
    pub base: usize,
}

impl UserStack {
    /// The initial stack pointer: stacks grow down from the region's end.
    pub fn get_sp(&self) -> (sp: usize)
        requires
            self.base + USER_STACK_SIZE <= usize::MAX,
        ensures
            sp == self.base + USER_STACK_SIZE,
    {
        self.base + USER_STACK_SIZE
    }
}

/// Builds, on task `app_id`'s kernel stack, the initial trap context that
/// launches the app: program counter at the app's base address, stack
/// pointer at the top of its user stack, previous privilege user. Returns
/// the kernel-stack address of that context, which the task's switch context
/// records as its stack pointer.
///
/// `sstatus` is the current supervisor-status value, read from the hardware
/// by the caller.
pub fn init_app_cx(app_id: usize, kstack: &mut KernelStack, ustack: &UserStack, sstatus: usize)
    -> (ptr: usize)
    requires
        app_id < MAX_APP_NUM,
        old(kstack).base + KERNEL_STACK_SIZE <= usize::MAX,
        ustack.base + USER_STACK_SIZE <= usize::MAX,
    ensures
        ptr == old(kstack).base + KERNEL_STACK_SIZE - TRAP_CONTEXT_SIZE,
        final(kstack).base == old(kstack).base,
        ({
            &&& final(kstack).top_cx matches Some(cx)
            &&& cx.sepc == APP_BASE_ADDRESS + app_id * APP_SIZE_LIMIT
            &&& cx.sstatus == sstatus & !SSTATUS_SPP
            &&& cx.x@[2] == ustack.base + USER_STACK_SIZE
            &&& forall|i: int| 0 <= i < 32 && i != 2 ==> cx.x@[i] == 0
        }),
{
    let entry = get_base_i(app_id);
    let sp = ustack.get_sp();
    let cx = TrapContext::app_init_context(entry, sp, sstatus);
    kstack.push_context(cx)
}

} // verus!
