//! The critical-section guard: a scoped acquisition of the interrupt mask.

use vstd::prelude::*;
use crate::arch::cm0::begin_critical;
use crate::arch::cm0::end_critical;
use crate::cpu::Cpu;
use crate::cpu::PRIMASK_DISABLED;
use crate::cpu::interrupts_disabled;
use crate::cpu::with_primask;

verus! {

/// A marker for a critical region of code.
///
/// `begin` marks the start of a critical section: it disables maskable
/// interrupts and hands back a [`CriticalSectionGuard`] carrying the prior
/// interrupt-mask state. While the section is open, the executing code
/// cannot be preempted.
pub struct CriticalSection;

impl CriticalSection {
    /// Begin a critical section. The returned guard must be released with
    /// [`CriticalSectionGuard::end`], which restores the mask state observed
    /// here; nesting is safe because each guard restores exactly what its
    /// own `begin` captured.
    pub fn begin(cpu: &mut Cpu) -> (guard: CriticalSectionGuard)
        ensures
            guard.token() == old(cpu).primask,
            *final(cpu) == with_primask(*old(cpu), PRIMASK_DISABLED),
            interrupts_disabled(*final(cpu)),
    {
        CriticalSectionGuard { token: begin_critical(cpu) }
    }
}

/// Tracks the lifetime of a critical section.
///
/// Only [`CriticalSection::begin`] creates one. Releasing takes the guard by
/// value, so a section is ended exactly once with the token it produced, and
/// the token carrier cannot outlive the caller holding it; the `must_use`
/// marking diagnoses a guard discarded without being bound.
#[must_use]
pub struct CriticalSectionGuard {
    token: u32,
}

impl CriticalSectionGuard {
    /// The interrupt-mask state captured when the section began.
    pub closed spec fn token(&self) -> u32 {
        self.token
    }

    /// End the critical section, restoring exactly the interrupt-mask state
    /// captured by the matching `begin`.
    pub fn end(self, cpu: &mut Cpu)
        ensures
            *final(cpu) == with_primask(*old(cpu), self.token()),
    {
        end_critical(cpu, self.token);
    }
}

} // verus!
