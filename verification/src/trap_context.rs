//! The register file saved and restored by the trap entry/exit assembly:
//! all 32 general-purpose registers, the supervisor status and the exception
//! program counter.

use vstd::prelude::*;

verus! {

/// Bit of the supervisor-status register holding the previous privilege
/// level; cleared, the `sret` at trap exit returns to user mode.
pub const SSTATUS_SPP: usize = 0x100;

/// Everything crossing the privilege boundary: `x0`-`x31` (index 2 is the
/// stack pointer, 10-12 the argument registers, 17 the syscall number, 10
/// also the syscall return slot), the supervisor status captured at trap
/// entry, and the exception program counter.
#[derive(Clone, Copy)]
pub struct TrapContext {
    /// The 32 general-purpose registers.
    pub x: [usize; 32],
    /// Supervisor-status value captured at trap entry.
    pub sstatus: usize,
    /// Return address after the trap.
    pub sepc: usize,
}

impl TrapContext {
    /// Writes the stack-pointer slot (`x2`).
    pub fn set_sp(&mut self, sp: usize)
        ensures
            final(self).x@ == old(self).x@.update(2, sp),
            final(self).sstatus == old(self).sstatus,
            final(self).sepc == old(self).sepc,
    {
        self.x[2] = sp;
    }

    /// The initial trap context of an application: program counter at the
    /// app's entry point, stack pointer at the top of its user stack, all
    /// other registers zero, and the previous-privilege bit of the captured
    /// supervisor status cleared so that the trap return lands in user mode.
    pub fn app_init_context(entry: usize, sp: usize, sstatus: usize) -> (cx: TrapContext)
        ensures
            cx.sepc == entry,
            cx.sstatus == sstatus & !SSTATUS_SPP,
            cx.x@.len() == 32,
            cx.x@[2] == sp,
            forall|i: int| 0 <= i < 32 && i != 2 ==> cx.x@[i] == 0,
    {
        let mut cx = TrapContext {
            x: [
                0, 0, 0, 0, 0, 0, 0, 0,
                0, 0, 0, 0, 0, 0, 0, 0,
                0, 0, 0, 0, 0, 0, 0, 0,
                0, 0, 0, 0, 0, 0, 0, 0,
            ],
            sstatus: sstatus & !SSTATUS_SPP,
            sepc: entry,
        };
        cx.set_sp(sp);
        cx
    }
}

} // verus!
