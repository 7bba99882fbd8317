use altos_arch::arch::cm0::begin_critical;
use altos_arch::arch::cm0::end_critical;
use altos_arch::arch::cm0::in_kernel_mode;
use altos_arch::arch::cm0::initialize_stack;
use altos_arch::arch::cm0::start_first_task;
use altos_arch::arch::cm0::yield_cpu;
use altos_arch::arch::cm0::Task;
use altos_arch::arch::cm0::EXIT_TRAMPOLINE;
use altos_arch::arch::cm0::INITIAL_XPSR;
use altos_arch::cpu::Cpu;
use altos_arch::cpu::MAIN_STACK;
use altos_arch::cpu::PEND_SV_SET;
use altos_arch::cpu::PRIMASK_DISABLED;
use altos_arch::cpu::PRIMASK_ENABLED;
use altos_arch::cpu::PROGRAM_STACK;
use altos_arch::stack::StackRegion;
use altos_arch::sync::CriticalSection;

#[test]
fn prime_expected_layout() {
    // Prime a stack whose top is 0x2000_1000 with entry 0x0800_1234 and an
    // argument block at 0x2000_0080.
    let mut mem = StackRegion::new(0x2000_0FC0, 16);
    let saved_sp = initialize_stack(&mut mem, 0x2000_1000, 0x0800_1234, 0x2000_0080);
    assert_eq!(saved_sp, 0x2000_0FC0);
    // xPSR: Thumb bit only.
    assert_eq!(mem.read_word(0x2000_0FFC), 0x0100_0000);
    // PC: the entry point.
    assert_eq!(mem.read_word(0x2000_0FF8), 0x0800_1234);
    // LR: the exit trampoline.
    assert_eq!(mem.read_word(0x2000_0FF4), EXIT_TRAMPOLINE);
    // R0: the argument-block address.
    assert_eq!(mem.read_word(0x2000_0FE0), 0x2000_0080);
}

#[test]
fn prime_leaves_other_words_alone() {
    let base: u32 = 0x2000_0000;
    let mut mem = StackRegion::new(base, 20);
    // Paint the whole region, then prime a frame at the top (top is
    // base + 80, the frame covers the highest sixteen words).
    let mut a = base;
    let mut v: u32 = 1;
    while a < base + 80 {
        mem.write_word(a, v);
        a += 4;
        v += 1;
    }
    let top = base + 80;
    let saved_sp = initialize_stack(&mut mem, top, 0xAAAA_AAA0, 0xBBBB_BBB0);
    assert_eq!(saved_sp, top - 64);
    // Words below the frame keep their paint.
    assert_eq!(mem.read_word(base), 1);
    assert_eq!(mem.read_word(base + 4), 2);
    assert_eq!(mem.read_word(base + 8), 3);
    assert_eq!(mem.read_word(base + 12), 4);
    // The unspecified frame slots (R12, R3, R2, R1 and the software-saved
    // words) keep their paint too.
    assert_eq!(mem.read_word(top - 16), 17); // R12
    assert_eq!(mem.read_word(top - 20), 16); // R3
    assert_eq!(mem.read_word(top - 24), 15); // R2
    assert_eq!(mem.read_word(top - 28), 14); // R1
    assert_eq!(mem.read_word(top - 36), 12); // highest software-saved word
    assert_eq!(mem.read_word(top - 64), 5); // lowest software-saved word
    // And the primed slots hold the frame.
    assert_eq!(mem.read_word(top - 4), INITIAL_XPSR);
    assert_eq!(mem.read_word(top - 8), 0xAAAA_AAA0);
    assert_eq!(mem.read_word(top - 12), EXIT_TRAMPOLINE);
    assert_eq!(mem.read_word(top - 32), 0xBBBB_BBB0);
}

#[test]
fn prime_then_bootstrap_launches_at_entry() {
    // Priming then bootstrapping behaves as if the task had just been
    // preempted at the entry of its code with its argument pointer in R0.
    let mut mem = StackRegion::new(0x2000_0FC0, 16);
    let saved_sp = initialize_stack(&mut mem, 0x2000_1000, 0x0800_1234, 0x2000_0080);
    let mut cpu = Cpu::boot();
    let _token = begin_critical(&mut cpu);
    let current = Some(Task { saved_sp });
    let launch = start_first_task(&mut cpu, &mem, &current);
    assert_eq!(launch.pc, 0x0800_1234);
    assert_eq!(launch.r0, 0x2000_0080);
    assert_eq!(launch.lr, EXIT_TRAMPOLINE);
    assert_eq!(launch.sp, 0x2000_1000);
    assert_eq!(cpu.psp, 0x2000_1000);
    // Interrupts are enabled again and the process stack is in use.
    assert_eq!(cpu.primask, PRIMASK_ENABLED);
    assert_eq!(cpu.control, PROGRAM_STACK);
}

#[test]
fn mode_introspection_tracks_bootstrap() {
    // Before the bootstrap the main-stack value is observed, after it the
    // process-stack value.
    let mut mem = StackRegion::new(0x2000_0FC0, 16);
    let saved_sp = initialize_stack(&mut mem, 0x2000_1000, 0x0800_1234, 0x2000_0080);
    let mut cpu = Cpu::boot();
    assert!(in_kernel_mode(&cpu));
    let _token = begin_critical(&mut cpu);
    assert!(in_kernel_mode(&cpu));
    let current = Some(Task { saved_sp });
    let _launch = start_first_task(&mut cpu, &mem, &current);
    assert!(!in_kernel_mode(&cpu));
}

#[test]
fn mode_introspection_reads_the_stack_select_bit_only() {
    // Only the stack-select bit of CONTROL decides the answer: with the
    // privilege bit set but the main stack still in use, execution is in
    // kernel mode.
    let mut cpu = Cpu::boot();
    cpu.control = 0b01;
    assert!(in_kernel_mode(&cpu));
    cpu.control = 0b10;
    assert!(!in_kernel_mode(&cpu));
    cpu.control = 0b11;
    assert!(!in_kernel_mode(&cpu));
}

#[test]
fn critical_sections_nest() {
    // Outer begin with PRIMASK = 0: interrupts disabled until the outer
    // release, the inner release keeps them disabled.
    let mut cpu = Cpu::boot();
    assert_eq!(cpu.primask, 0);
    let outer = CriticalSection::begin(&mut cpu);
    assert_eq!(cpu.primask, PRIMASK_DISABLED);
    let inner = CriticalSection::begin(&mut cpu);
    assert_eq!(cpu.primask, PRIMASK_DISABLED);
    inner.end(&mut cpu);
    assert_eq!(cpu.primask, PRIMASK_DISABLED);
    outer.end(&mut cpu);
    assert_eq!(cpu.primask, PRIMASK_ENABLED);
}

#[test]
fn critical_tokens_restore_prior_mask() {
    let mut cpu = Cpu::boot();
    cpu.primask = PRIMASK_DISABLED;
    let token = begin_critical(&mut cpu);
    assert_eq!(token, PRIMASK_DISABLED);
    assert_eq!(cpu.primask, PRIMASK_DISABLED);
    end_critical(&mut cpu, token);
    assert_eq!(cpu.primask, PRIMASK_DISABLED);
}

#[test]
fn yield_sets_pending_bit_and_is_level_triggered() {
    let mut cpu = Cpu::boot();
    yield_cpu(&mut cpu);
    // The set-pending bit of the scheduler exception is raised...
    assert_eq!(cpu.icsr & PEND_SV_SET, PEND_SV_SET);
    // ...and nothing else happens: no immediate switch, no mode change.
    assert_eq!(cpu.control, MAIN_STACK);
    assert_eq!(cpu.primask, PRIMASK_ENABLED);
    assert_eq!(cpu.psp, 0);
    // Yielding again before the pended handler runs changes nothing.
    let before = cpu.icsr;
    yield_cpu(&mut cpu);
    yield_cpu(&mut cpu);
    assert_eq!(cpu.icsr, before);
}

#[test]
fn yield_keeps_other_icsr_bits() {
    let mut cpu = Cpu::boot();
    cpu.icsr = 0x0000_0204;
    yield_cpu(&mut cpu);
    assert_eq!(cpu.icsr, 0x1000_0204);
}

#[test]
fn fresh_region_is_zeroed() {
    let mem = StackRegion::new(0x1000, 4);
    assert_eq!(mem.read_word(0x1000), 0);
    assert_eq!(mem.read_word(0x100C), 0);
}

#[test]
fn region_read_back_after_write() {
    let mut mem = StackRegion::new(0x1000, 4);
    mem.write_word(0x1004, 0xDEAD_BEEF);
    assert_eq!(mem.read_word(0x1004), 0xDEAD_BEEF);
    assert_eq!(mem.read_word(0x1000), 0);
    assert_eq!(mem.read_word(0x1008), 0);
}
