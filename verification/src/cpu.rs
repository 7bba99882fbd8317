//! Model of the ARMv6-M processor state read and written by the arch layer.
//!
//! The layer touches four pieces of CPU state: the PRIMASK interrupt mask,
//! the CONTROL register (whose stack-select bit chooses between the main and
//! the process stack), the interrupt control/state register ICSR (whose
//! set-pending bit requests the context-switch exception), and the process
//! stack pointer PSP. A `Cpu` value carries them as plain words.

use vstd::prelude::*;

verus! {

/// PRIMASK value with maskable interrupts enabled.
pub const PRIMASK_ENABLED: u32 = 0;

/// PRIMASK value written by the interrupt-disable instruction.
pub const PRIMASK_DISABLED: u32 = 1;

/// CONTROL value while the main (kernel/handler) stack is in use.
pub const MAIN_STACK: u32 = 0b00;

/// CONTROL value selecting the process (task) stack.
pub const PROGRAM_STACK: u32 = 0b10;

/// Set-pending bit of the context-switch exception in the ICSR.
pub const PEND_SV_SET: u32 = 0x1000_0000;

/// The processor state visible to the arch layer.
pub struct Cpu {
    /// Interrupt mask: nonzero means maskable interrupts are disabled.
    pub primask: u32,
    /// CONTROL register; its stack-select bit is `PROGRAM_STACK` while the
    /// process stack is in use and clear while the main stack is.
    pub control: u32,
    /// Interrupt control/state register; holds the set-pending bit of the
    /// context-switch exception.
    pub icsr: u32,
    /// Process stack pointer.
    pub psp: u32,
}

/// Maskable interrupts are observably disabled in this state.
pub open spec fn interrupts_disabled(c: Cpu) -> bool {
    c.primask != PRIMASK_ENABLED
}

/// The state after writing `mask` to PRIMASK, everything else untouched.
pub open spec fn with_primask(c: Cpu, mask: u32) -> Cpu {
    Cpu { primask: mask, ..c }
}

/// The state after setting the context-switch set-pending bit in the ICSR,
/// everything else untouched.
pub open spec fn with_switch_pending(c: Cpu) -> Cpu {
    Cpu { icsr: c.icsr | PEND_SV_SET, ..c }
}

/// A context switch has been requested and is pending.
pub open spec fn switch_pending(c: Cpu) -> bool {
    c.icsr & PEND_SV_SET == PEND_SV_SET
}

impl Cpu {
    /// The reset state: interrupts enabled, main stack selected, no pending
    /// context-switch request, process stack pointer not yet set.
    pub fn boot() -> (c: Cpu)
        ensures
            c.primask == PRIMASK_ENABLED,
            c.control == MAIN_STACK,
            c.icsr == 0,
            c.psp == 0,
    {
        Cpu { primask: PRIMASK_ENABLED, control: MAIN_STACK, icsr: 0, psp: 0 }
    }
}

} // verus!
