//! Architecture-abstraction layer of a small preemptive RTOS kernel for
//! ARMv6-M (Cortex-M0 class) CPUs, verified over an explicit model of the
//! processor state and of task stack memory.
//!
//! The model makes the hardware state a real back-end touches through
//! registers and MMIO — the interrupt mask, the stack-select control bit, the
//! interrupt control/state register, and the words of a task's stack — an
//! explicit value, so that every operation of the layer carries a proved
//! contract: stack priming lays down the exact exception frame, critical
//! sections nest and restore the outermost mask exactly once, the yield
//! request is level-triggered, the first-task bootstrap hands control to the
//! primed entry point in process-stack mode, and the in-line syscall
//! trampolines route every code of the closed enumeration to its handler.

pub mod cpu;
pub mod stack;
pub mod kernel;
pub mod arch;
pub mod sync;
