//! ARMv6-M back-end: voluntary preemption, stack priming, first-task
//! bootstrap, mode introspection, and the interrupt-mask primitive.
//!
//! On the hardware these operations touch the ICSR, PRIMASK and CONTROL
//! registers and raw stack memory; here they act on the explicit [`Cpu`] and
//! [`StackRegion`] state, so that each carries a proved contract.

use vstd::prelude::*;
use vstd::pervasive::unreached;
use vstd::arithmetic::div_mod::lemma_mod_multiples_vanish;
use crate::cpu::Cpu;
use crate::cpu::PEND_SV_SET;
use crate::cpu::PRIMASK_DISABLED;
use crate::cpu::PRIMASK_ENABLED;
use crate::cpu::PROGRAM_STACK;
use crate::cpu::interrupts_disabled;
use crate::cpu::switch_pending;
use crate::cpu::with_primask;
use crate::cpu::with_switch_pending;
use crate::stack::StackRegion;
use crate::sync::critical::CriticalSection;
use crate::kernel::HandlerEvent;
use crate::kernel::Kernel;
use crate::kernel::SYS_CV_BROADCAST;
use crate::kernel::SYS_CV_WAIT;
use crate::kernel::SYS_EXIT;
use crate::kernel::SYS_MX_LOCK;
use crate::kernel::SYS_MX_TRY_LOCK;
use crate::kernel::SYS_MX_UNLOCK;
use crate::kernel::SYS_SCHED_YIELD;
use crate::kernel::SYS_SLEEP;
use crate::kernel::SYS_SLEEP_FOR;
use crate::kernel::SYS_WAKE;

verus! {

/// xPSR value primed for a fresh task: the Thumb bit, which ARMv6-M requires
/// to be set, and nothing else.
pub const INITIAL_XPSR: u32 = 0x0100_0000;

/// Model address at which the exit trampoline is linked. Stack priming
/// stores it in the LR slot of the artificial frame, so a task body that
/// returns normally lands in the termination path instead of executing
/// whatever the register otherwise contained.
pub const EXIT_TRAMPOLINE: u32 = 0x0800_0000;

/// Size in bytes of a full saved frame: eight hardware-pushed words plus
/// eight software-saved words.
pub const FRAME_BYTES: u32 = 64;

/// A task handle as the scheduler publishes it: its first word is the saved
/// stack pointer, which references the lowest word of the task's suspended
/// sixteen-word frame.
#[derive(Clone, Copy)]
pub struct Task {
    /// Saved stack pointer of the task while it is not running.
    pub saved_sp: u32,
}

/// The register state handed to a task when the bootstrap branches into it:
/// the words the CPU pops from the task's frame, and the resulting process
/// stack pointer.
pub struct Launch {
    pub r0: u32,
    pub r1: u32,
    pub r2: u32,
    pub r3: u32,
    pub r12: u32,
    pub lr: u32,
    pub pc: u32,
    /// Process stack pointer after the whole frame has been popped.
    pub sp: u32,
}

/// Current execution uses the main (kernel/handler) stack: the stack-select
/// bit of CONTROL is clear. The other CONTROL bits (such as the privilege
/// bit) do not decide which stack is in use.
pub open spec fn in_kernel_mode_spec(c: Cpu) -> bool {
    c.control & PROGRAM_STACK == 0
}

/// A full sixteen-word frame ending at byte address `top` lies inside `mem`.
pub open spec fn frame_in_region(mem: StackRegion, top: int) -> bool {
    &&& top % 4 == 0
    &&& mem.base + FRAME_BYTES <= top
    &&& top <= mem.end()
}

/// Every word slot of a frame ending at `top` is a contained word of `mem`.
pub proof fn lemma_frame_words(mem: StackRegion, top: int)
    requires
        mem.wf(),
        frame_in_region(mem, top),
    ensures
        mem.contains_word(top - 4),
        mem.contains_word(top - 8),
        mem.contains_word(top - 12),
        mem.contains_word(top - 16),
        mem.contains_word(top - 20),
        mem.contains_word(top - 24),
        mem.contains_word(top - 28),
        mem.contains_word(top - 32),
        mem.contains_word(top - 64),
{
    lemma_mod_multiples_vanish(-1, top, 4);
    lemma_mod_multiples_vanish(-2, top, 4);
    lemma_mod_multiples_vanish(-3, top, 4);
    lemma_mod_multiples_vanish(-4, top, 4);
    lemma_mod_multiples_vanish(-5, top, 4);
    lemma_mod_multiples_vanish(-6, top, 4);
    lemma_mod_multiples_vanish(-7, top, 4);
    lemma_mod_multiples_vanish(-8, top, 4);
    lemma_mod_multiples_vanish(-16, top, 4);
}

/// Request that the scheduler run at the next safe point by setting the
/// set-pending bit of the context-switch exception in the ICSR. The bit is
/// level-triggered: the request is visible in the state, nothing else
/// changes, and the caller is not suspended here.
pub fn yield_cpu(cpu: &mut Cpu)
    ensures
        *final(cpu) == with_switch_pending(*old(cpu)),
        switch_pending(*final(cpu)),
{
    cpu.icsr = cpu.icsr | PEND_SV_SET;
    proof {
        let x = old(cpu).icsr;
        assert((x | 0x1000_0000u32) & 0x1000_0000u32 == 0x1000_0000u32) by (bit_vector);
    }
}

/// Report whether current execution uses the main (kernel/handler) stack,
/// by the stack-select bit of CONTROL.
pub fn in_kernel_mode(cpu: &Cpu) -> (r: bool)
    ensures
        r == in_kernel_mode_spec(*cpu),
{
    cpu.control & PROGRAM_STACK == 0
}

/// Atomically read the interrupt-mask state, disable maskable interrupts,
/// and return the prior state as an opaque token for the matching
/// [`end_critical`].
pub fn begin_critical(cpu: &mut Cpu) -> (token: u32)
    ensures
        token == old(cpu).primask,
        *final(cpu) == with_primask(*old(cpu), PRIMASK_DISABLED),
        interrupts_disabled(*final(cpu)),
{
    let token = cpu.primask;
    cpu.primask = PRIMASK_DISABLED;
    token
}

/// Restore exactly the interrupt-mask state captured by the matching
/// [`begin_critical`].
pub fn end_critical(cpu: &mut Cpu, token: u32)
    ensures
        *final(cpu) == with_primask(*old(cpu), token),
{
    cpu.primask = token;
}

/// Prime a freshly allocated stack so that returning into it through the
/// exception-return mechanism launches the task.
///
/// `stack_ptr` is the byte address one past the highest word of the stack;
/// `code` is the entry-point address and `args` the address of the task's
/// argument block. Below the top the function lays down the artificial
/// frame: xPSR with the Thumb bit at word -1, the entry point at word -2
/// (PC), the exit trampoline at word -3 (LR), and the argument-block address
/// at word -8 (R0); words -4..-7 and the eight software-saved words -9..-16
/// are left as they were. The returned saved stack pointer references word
/// -16, the lowest word of the combined frame.
pub fn initialize_stack(mem: &mut StackRegion, stack_ptr: u32, code: u32, args: u32) -> (saved_sp:
    u32)
    requires
        old(mem).wf(),
        frame_in_region(*old(mem), stack_ptr as int),
    ensures
        final(mem).wf(),
        final(mem).base == old(mem).base,
        final(mem).words@.len() == old(mem).words@.len(),
        saved_sp == stack_ptr - FRAME_BYTES,
        final(mem).word_at(saved_sp + 60) == INITIAL_XPSR,  // frame word 15: xPSR
        final(mem).word_at(saved_sp + 56) == code,  // frame word 14: PC
        final(mem).word_at(saved_sp + 52) == EXIT_TRAMPOLINE,  // frame word 13: LR
        final(mem).word_at(saved_sp + 32) == args,  // frame word 8: R0
        forall|a: int|
            old(mem).contains_word(a) && a != stack_ptr - 4 && a != stack_ptr - 8 && a != stack_ptr
                - 12 && a != stack_ptr - 32 ==> final(mem).word_at(a) == old(mem).word_at(a),
{
    proof {
        lemma_frame_words(*old(mem), stack_ptr as int);
    }
    mem.write_word(stack_ptr - 4, INITIAL_XPSR);
    mem.write_word(stack_ptr - 8, code);
    mem.write_word(stack_ptr - 12, EXIT_TRAMPOLINE);
    mem.write_word(stack_ptr - 32, args);
    stack_ptr - FRAME_BYTES
}

/// One-shot bootstrap of the task the scheduler has published in the
/// current-task slot: switch to the process stack, pop the task's suspended
/// frame (discarding the xPSR word, since this is a synthetic launch rather
/// than a real exception return), enable interrupts, and hand control to the
/// popped program counter. The returned [`Launch`] is the register state the
/// task starts with; on the hardware this routine never returns.
pub fn start_first_task(cpu: &mut Cpu, mem: &StackRegion, current_task: &Option<Task>) -> (launch:
    Launch)
    requires
        mem.wf(),
        current_task is Some,
        interrupts_disabled(*old(cpu)),
        frame_in_region(*mem, current_task->Some_0.saved_sp + FRAME_BYTES),
    ensures
        final(cpu).primask == PRIMASK_ENABLED,
        final(cpu).control == PROGRAM_STACK,
        !in_kernel_mode_spec(*final(cpu)),
        final(cpu).icsr == old(cpu).icsr,
        final(cpu).psp == current_task->Some_0.saved_sp + FRAME_BYTES,
        launch.sp == final(cpu).psp,
        launch.r0 == mem.word_at(current_task->Some_0.saved_sp + 32),
        launch.r1 == mem.word_at(current_task->Some_0.saved_sp + 36),
        launch.r2 == mem.word_at(current_task->Some_0.saved_sp + 40),
        launch.r3 == mem.word_at(current_task->Some_0.saved_sp + 44),
        launch.r12 == mem.word_at(current_task->Some_0.saved_sp + 48),
        launch.lr == mem.word_at(current_task->Some_0.saved_sp + 52),
        launch.pc == mem.word_at(current_task->Some_0.saved_sp + 56),
{
    let task = match current_task {
        Some(t) => t,
        None => unreached(),
    };
    let sp0 = task.saved_sp;
    proof {
        lemma_frame_words(*mem, sp0 + FRAME_BYTES);
    }
    // Discard the eight software-saved words (the context-switch restore
    // path always overwrites them before use), then pop the hardware frame
    // except its xPSR word.
    let launch = Launch {
        r0: mem.read_word(sp0 + 32),
        r1: mem.read_word(sp0 + 36),
        r2: mem.read_word(sp0 + 40),
        r3: mem.read_word(sp0 + 44),
        r12: mem.read_word(sp0 + 48),
        lr: mem.read_word(sp0 + 52),
        pc: mem.read_word(sp0 + 56),
        sp: sp0 + FRAME_BYTES,
    };
    cpu.psp = sp0 + FRAME_BYTES;
    cpu.control = PROGRAM_STACK;
    cpu.primask = PRIMASK_ENABLED;
    proof {
        // The stack-select bit is set in PROGRAM_STACK.
        assert(2u32 & 2u32 == 2u32) by (bit_vector);
    }
    launch
}

/// `call` is a code of the zero-argument syscalls.
pub open spec fn syscall0_code(call: u32) -> bool {
    call == SYS_EXIT || call == SYS_SCHED_YIELD
}

/// `call` is a code of the one-argument syscalls.
pub open spec fn syscall1_code(call: u32) -> bool {
    ||| call == SYS_SLEEP
    ||| call == SYS_WAKE
    ||| call == SYS_MX_LOCK
    ||| call == SYS_MX_TRY_LOCK
    ||| call == SYS_MX_UNLOCK
    ||| call == SYS_CV_BROADCAST
}

/// `call` is a one-argument code whose argument is a mutex handle.
pub open spec fn syscall1_mutex_code(call: u32) -> bool {
    call == SYS_MX_LOCK || call == SYS_MX_TRY_LOCK || call == SYS_MX_UNLOCK
}

/// `call` is a code of the two-argument syscalls.
pub open spec fn syscall2_code(call: u32) -> bool {
    call == SYS_SLEEP_FOR || call == SYS_CV_WAIT
}

/// In-line trampoline for the zero-argument syscalls: under a critical
/// section, dispatch `call` to its handler and transport the result word —
/// zero for the void-returning calls. The enumeration is closed: for any
/// other code the dispatch is a fatal kernel error, reported as `None` with
/// all state untouched, on which the kernel aborts.
pub fn syscall0(cpu: &mut Cpu, kernel: &mut Kernel, call: u32) -> (r: Option<u32>)
    ensures
        *final(cpu) == *old(cpu),
        r is Some <==> syscall0_code(call),
        call == SYS_EXIT ==> r == Some(0u32) && final(kernel).events@ == old(kernel).events@.push(HandlerEvent::Exit),
        call == SYS_SCHED_YIELD ==> r == Some(0u32) && final(kernel).events@ == old(kernel).events@.push(HandlerEvent::SchedYield),
        !syscall0_code(call) ==> final(kernel).events@ == old(kernel).events@,
        final(kernel).mutexes@ == old(kernel).mutexes@,
{
    // Make sure any system call gets executed atomically.
    let guard = CriticalSection::begin(cpu);
    let r: Option<u32> = if call == SYS_EXIT {
        kernel.sys_exit();
        Some(0)
    } else if call == SYS_SCHED_YIELD {
        kernel.sys_sched_yield();
        Some(0)
    } else {
        None
    };
    guard.end(cpu);
    r
}

/// In-line trampoline for the one-argument syscalls. The mutex calls take a
/// mutex handle in `arg1`, which must name a mutex of the kernel (on the
/// hardware the word is a pointer the handler dereferences); their result
/// word is nonzero exactly on success. Every other known call returns zero.
/// For a code outside the enumeration the dispatch is a fatal kernel error,
/// reported as `None` with all state untouched.
pub fn syscall1(cpu: &mut Cpu, kernel: &mut Kernel, call: u32, arg1: u32) -> (r: Option<u32>)
    requires
        syscall1_mutex_code(call) ==> (arg1 as int) < old(kernel).mutexes@.len(),
    ensures
        *final(cpu) == *old(cpu),
        r is Some <==> syscall1_code(call),
        call == SYS_SLEEP ==> ({
            &&& r == Some(0u32)
            &&& final(kernel).events@ == old(kernel).events@.push(HandlerEvent::Sleep(arg1))
            &&& final(kernel).mutexes@ == old(kernel).mutexes@
        }),
        call == SYS_WAKE ==> ({
            &&& r == Some(0u32)
            &&& final(kernel).events@ == old(kernel).events@.push(HandlerEvent::Wake(arg1))
            &&& final(kernel).mutexes@ == old(kernel).mutexes@
        }),
        call == SYS_MX_LOCK ==> ({
            &&& r == Some(if old(kernel).mutexes@[arg1 as int] { 0u32 } else { 1u32 })
            &&& final(kernel).mutexes@ == old(kernel).mutexes@.update(arg1 as int, true)
            &&& final(kernel).events@ == old(kernel).events@.push(HandlerEvent::MutexLock(arg1))
        }),
        call == SYS_MX_TRY_LOCK ==> ({
            &&& r == Some(if old(kernel).mutexes@[arg1 as int] { 0u32 } else { 1u32 })
            &&& final(kernel).mutexes@ == old(kernel).mutexes@.update(arg1 as int, true)
            &&& final(kernel).events@ == old(kernel).events@.push(HandlerEvent::MutexTryLock(arg1))
        }),
        call == SYS_MX_UNLOCK ==> ({
            &&& r == Some(0u32)
            &&& final(kernel).mutexes@ == old(kernel).mutexes@.update(arg1 as int, false)
            &&& final(kernel).events@ == old(kernel).events@.push(HandlerEvent::MutexUnlock(arg1))
        }),
        call == SYS_CV_BROADCAST ==> ({
            &&& r == Some(0u32)
            &&& final(kernel).events@ == old(kernel).events@.push(HandlerEvent::CondvarBroadcast(arg1))
            &&& final(kernel).mutexes@ == old(kernel).mutexes@
        }),
        !syscall1_code(call) ==> final(kernel).events@ == old(kernel).events@ && final(kernel).mutexes@ == old(kernel).mutexes@,
{
    // Make sure any system call gets executed atomically.
    let guard = CriticalSection::begin(cpu);
    let r: Option<u32> = if call == SYS_SLEEP {
        kernel.sys_sleep(arg1);
        Some(0)
    } else if call == SYS_WAKE {
        kernel.sys_wake(arg1);
        Some(0)
    } else if call == SYS_MX_LOCK {
        let acquired = kernel.sys_mutex_lock(arg1);
        Some(
            if acquired {
                1
            } else {
                0
            },
        )
    } else if call == SYS_MX_TRY_LOCK {
        let acquired = kernel.sys_mutex_try_lock(arg1);
        Some(
            if acquired {
                1
            } else {
                0
            },
        )
    } else if call == SYS_MX_UNLOCK {
        kernel.sys_mutex_unlock(arg1);
        Some(0)
    } else if call == SYS_CV_BROADCAST {
        kernel.sys_condvar_broadcast(arg1);
        Some(0)
    } else {
        None
    };
    guard.end(cpu);
    r
}

/// In-line trampoline for the two-argument syscalls. The condition-variable
/// wait takes the condition variable in `arg1` and a mutex handle in `arg2`,
/// which must name a mutex of the kernel. Both known calls are void and
/// return zero. For a code outside the enumeration the dispatch is a fatal
/// kernel error, reported as `None` with all state untouched.
pub fn syscall2(cpu: &mut Cpu, kernel: &mut Kernel, call: u32, arg1: u32, arg2: u32) -> (r: Option<
    u32,
>)
    requires
        call == SYS_CV_WAIT ==> (arg2 as int) < old(kernel).mutexes@.len(),
    ensures
        *final(cpu) == *old(cpu),
        r is Some <==> syscall2_code(call),
        call == SYS_SLEEP_FOR ==> ({
            &&& r == Some(0u32)
            &&& final(kernel).events@ == old(kernel).events@.push(HandlerEvent::SleepFor(arg1, arg2))
            &&& final(kernel).mutexes@ == old(kernel).mutexes@
        }),
        call == SYS_CV_WAIT ==> ({
            &&& r == Some(0u32)
            &&& final(kernel).mutexes@ == old(kernel).mutexes@.update(arg2 as int, false)
            &&& final(kernel).events@ == old(kernel).events@.push(HandlerEvent::CondvarWait(arg1, arg2))
        }),
        !syscall2_code(call) ==> final(kernel).events@ == old(kernel).events@ && final(kernel).mutexes@ == old(kernel).mutexes@,
{
    // Make sure any system call gets executed atomically.
    let guard = CriticalSection::begin(cpu);
    let r: Option<u32> = if call == SYS_SLEEP_FOR {
        kernel.sys_sleep_for(arg1, arg2);
        Some(0)
    } else if call == SYS_CV_WAIT {
        kernel.sys_condvar_wait(arg1, arg2);
        Some(0)
    } else {
        None
    };
    guard.end(cpu);
    r
}

/// Processor state after `k` consecutive yield requests.
pub open spec fn yields(c: Cpu, k: nat) -> Cpu
    decreases k,
{
    if k == 0 {
        c
    } else {
        with_switch_pending(yields(c, (k - 1) as nat))
    }
}

/// Yield is idempotent: the set-pending bit is level-triggered, so
/// requesting a context switch `k` times before the pended handler runs
/// leaves exactly the state one request leaves.
pub proof fn lemma_yield_idempotent(c: Cpu, k: nat)
    requires
        1 <= k,
    ensures
        yields(c, k) == yields(c, 1),
    decreases k,
{
    assert(yields(c, 0) == c);
    assert(yields(c, 1) == with_switch_pending(c));
    if k > 1 {
        lemma_yield_idempotent(c, (k - 1) as nat);
        assert(yields(c, k) == with_switch_pending(yields(c, (k - 1) as nat)));
        let x = c.icsr;
        assert((x | 0x1000_0000u32) | 0x1000_0000u32 == x | 0x1000_0000u32) by (bit_vector);
        assert(with_switch_pending(with_switch_pending(c)) == with_switch_pending(c));
    }
}

/// State and tokens after `n` nested `begin_critical` calls: the resulting
/// processor state, and the tokens in order, outermost first.
pub open spec fn nested_begins(c: Cpu, n: nat) -> (Cpu, Seq<u32>)
    decreases n,
{
    if n == 0 {
        (c, Seq::empty())
    } else {
        let rec = nested_begins(with_primask(c, PRIMASK_DISABLED), (n - 1) as nat);
        (rec.0, seq![c.primask] + rec.1)
    }
}

/// State after releasing critical sections with the given tokens, innermost
/// (last) first.
pub open spec fn nested_ends(c: Cpu, tokens: Seq<u32>) -> Cpu
    decreases tokens.len(),
{
    if tokens.len() == 0 {
        c
    } else {
        nested_ends(with_primask(c, tokens.last()), tokens.drop_last())
    }
}

/// State after releasing the `m` innermost of `n` nested critical sections.
pub open spec fn after_inner_releases(c: Cpu, n: nat, m: nat) -> Cpu {
    let (inner, tokens) = nested_begins(c, n);
    nested_ends(inner, tokens.subrange(n - m, n as int))
}

/// Shape of `n` nested acquisitions: interrupts end up disabled, the
/// outermost token is the prior mask state, and every inner token is the
/// disabled state.
pub proof fn lemma_nested_begins(c: Cpu, n: nat)
    requires
        1 <= n,
    ensures
        ({
            let (inner, tokens) = nested_begins(c, n);
            &&& inner == with_primask(c, PRIMASK_DISABLED)
            &&& tokens.len() == n
            &&& tokens[0] == c.primask
            &&& forall|i: int| 1 <= i < n ==> tokens[i] == PRIMASK_DISABLED
        }),
    decreases n,
{
    let masked = with_primask(c, PRIMASK_DISABLED);
    let rec = nested_begins(masked, (n - 1) as nat);
    assert(nested_begins(c, n) == (rec.0, seq![c.primask] + rec.1));
    let tokens = seq![c.primask] + rec.1;
    if n == 1 {
        assert(nested_begins(masked, 0) == (masked, Seq::<u32>::empty()));
        assert(tokens.len() == 1);
        assert(tokens[0] == c.primask);
    } else {
        lemma_nested_begins(masked, (n - 1) as nat);
        assert(with_primask(masked, PRIMASK_DISABLED) == masked);
        assert(rec.0 == masked);
        assert(tokens[0] == c.primask);
        assert forall|i: int| 1 <= i < n implies tokens[i] == PRIMASK_DISABLED by {
            assert(tokens[i] == rec.1[i - 1]);
            if i == 1 {
                assert(rec.1[0] == masked.primask);
            }
        }
    }
}

/// Releasing sections whose inner tokens all carry the disabled state
/// touches nothing but the mask, which ends at the outermost token.
pub proof fn lemma_nested_ends(c: Cpu, tokens: Seq<u32>)
    requires
        1 <= tokens.len(),
        c.primask == PRIMASK_DISABLED,
        forall|i: int| 1 <= i < tokens.len() ==> tokens[i] == PRIMASK_DISABLED,
    ensures
        nested_ends(c, tokens) == with_primask(c, tokens[0]),
    decreases tokens.len(),
{
    let released = with_primask(c, tokens.last());
    assert(nested_ends(c, tokens) == nested_ends(released, tokens.drop_last()));
    if tokens.len() == 1 {
        assert(tokens.drop_last().len() == 0);
        assert(nested_ends(released, tokens.drop_last()) == released);
        assert(tokens.last() == tokens[0]);
    } else {
        assert(tokens.last() == tokens[tokens.len() - 1]);
        assert(tokens.last() == PRIMASK_DISABLED);
        assert(released == c);
        let rest = tokens.drop_last();
        assert forall|i: int| 1 <= i < rest.len() implies rest[i] == PRIMASK_DISABLED by {
            assert(rest[i] == tokens[i]);
        }
        lemma_nested_ends(c, rest);
        assert(rest[0] == tokens[0]);
    }
}

/// Critical sections nest: for any sequence of paired begin/end calls,
/// interrupts are observably disabled from the outermost acquisition through
/// every nested acquisition and every inner release, and only the outermost
/// release restores the state observed at entry — restoring it exactly.
pub proof fn lemma_critical_nesting(c: Cpu, n: nat)
    requires
        1 <= n,
    ensures
        ({
            let (inner, tokens) = nested_begins(c, n);
            &&& interrupts_disabled(inner)
            &&& forall|j: nat|
                1 <= j <= n ==> interrupts_disabled(#[trigger] nested_begins(c, j).0)
            &&& forall|m: nat|
                1 <= m < n ==> interrupts_disabled(#[trigger] after_inner_releases(c, n, m))
            &&& nested_ends(inner, tokens) == c
        }),
{
    lemma_nested_begins(c, n);
    let (inner, tokens) = nested_begins(c, n);
    assert forall|j: nat| 1 <= j <= n implies interrupts_disabled(
        #[trigger] nested_begins(c, j).0,
    ) by {
        lemma_nested_begins(c, j);
    }
    assert forall|m: nat| 1 <= m < n implies interrupts_disabled(
        #[trigger] after_inner_releases(c, n, m),
    ) by {
        let sub = tokens.subrange(n - m, n as int);
        assert(sub[0] == tokens[n - m]);
        lemma_nested_ends(inner, sub);
    }
    lemma_nested_ends(inner, tokens);
    assert(with_primask(inner, tokens[0]) == c);
}

} // verus!
