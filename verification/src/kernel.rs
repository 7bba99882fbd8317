//! Host model of the kernel collaborators the arch layer consumes: the
//! syscall handler entry points, keyed by the codes of the closed syscall
//! enumeration.
//!
//! The handlers' own policies (run queues, timers, blocking) sit above this
//! layer; what matters here is what the trampolines transport: which handler
//! ran, with which word-sized arguments, and which word came back. A
//! [`Kernel`] therefore records every handler invocation in order and keeps
//! the one piece of handler state whose result word the contract of the
//! trampolines pins down: the held flag of each mutex.

use vstd::prelude::*;
use vstd::pervasive::VecAdditionalExecFns;

verus! {

/// Terminate the calling task.
pub const SYS_EXIT: u32 = 0;

/// Give up the rest of the calling task's time slice.
pub const SYS_SCHED_YIELD: u32 = 1;

/// Block the calling task on a wait channel.
pub const SYS_SLEEP: u32 = 2;

/// Block the calling task on a wait channel for a bounded number of ticks.
pub const SYS_SLEEP_FOR: u32 = 3;

/// Wake the tasks blocked on a wait channel.
pub const SYS_WAKE: u32 = 4;

/// Acquire a mutex; the result word is nonzero on success.
pub const SYS_MX_LOCK: u32 = 5;

/// Try to acquire a mutex without blocking; the result word is nonzero on
/// success.
pub const SYS_MX_TRY_LOCK: u32 = 6;

/// Release a mutex.
pub const SYS_MX_UNLOCK: u32 = 7;

/// Release a mutex and block on a condition variable.
pub const SYS_CV_WAIT: u32 = 8;

/// Wake every task blocked on a condition variable.
pub const SYS_CV_BROADCAST: u32 = 9;

/// One invocation of a kernel syscall handler, with the word-sized arguments
/// it received.
#[derive(Clone, Copy, PartialEq, Eq, Structural, Debug)]
pub enum HandlerEvent {
    Exit,
    SchedYield,
    Sleep(u32),
    SleepFor(u32, u32),
    Wake(u32),
    MutexLock(u32),
    MutexTryLock(u32),
    MutexUnlock(u32),
    CondvarWait(u32, u32),
    CondvarBroadcast(u32),
}

/// The kernel-side handler entry points, as a host model.
///
/// A mutex handle is an index into `mutexes`. Every handler appends the
/// invocation it received to `events`, so the routing done by the syscall
/// trampolines is observable in the state.
pub struct Kernel {
    /// Held flag of each mutex, indexed by handle.
    pub mutexes: Vec<bool>,
    /// Handler invocations, oldest first.
    pub events: Vec<HandlerEvent>,
}

impl Kernel {
    /// A kernel with `n_mutexes` released mutexes and no recorded handler
    /// invocations.
    pub fn new(n_mutexes: usize) -> (k: Kernel)
        ensures
            k.mutexes@.len() == n_mutexes,
            forall|i: int| 0 <= i < n_mutexes ==> !k.mutexes@[i],
            k.events@.len() == 0,
    {
        let mut mutexes: Vec<bool> = Vec::new();
        let mut i: usize = 0;
        while i < n_mutexes
            invariant
                i <= n_mutexes,
                mutexes@.len() == i,
                forall|j: int| 0 <= j < i ==> !mutexes@[j],
            decreases n_mutexes - i,
        {
            mutexes.push(false);
            i = i + 1;
        }
        Kernel { mutexes, events: Vec::new() }
    }

    /// Terminate the calling task.
    pub fn sys_exit(&mut self)
        ensures
            final(self).events@ == old(self).events@.push(HandlerEvent::Exit),
            final(self).mutexes@ == old(self).mutexes@,
    {
        self.events.push(HandlerEvent::Exit);
    }

    /// Give up the rest of the calling task's time slice.
    pub fn sys_sched_yield(&mut self)
        ensures
            final(self).events@ == old(self).events@.push(HandlerEvent::SchedYield),
            final(self).mutexes@ == old(self).mutexes@,
    {
        self.events.push(HandlerEvent::SchedYield);
    }

    /// Block the calling task on the wait channel `wchan`.
    pub fn sys_sleep(&mut self, wchan: u32)
        ensures
            final(self).events@ == old(self).events@.push(HandlerEvent::Sleep(wchan)),
            final(self).mutexes@ == old(self).mutexes@,
    {
        self.events.push(HandlerEvent::Sleep(wchan));
    }

    /// Block the calling task on `wchan` for at most `ticks` ticks.
    pub fn sys_sleep_for(&mut self, wchan: u32, ticks: u32)
        ensures
            final(self).events@ == old(self).events@.push(HandlerEvent::SleepFor(wchan, ticks)),
            final(self).mutexes@ == old(self).mutexes@,
    {
        self.events.push(HandlerEvent::SleepFor(wchan, ticks));
    }

    /// Wake the tasks blocked on the wait channel `wchan`.
    pub fn sys_wake(&mut self, wchan: u32)
        ensures
            final(self).events@ == old(self).events@.push(HandlerEvent::Wake(wchan)),
            final(self).mutexes@ == old(self).mutexes@,
    {
        self.events.push(HandlerEvent::Wake(wchan));
    }

    /// Acquire the mutex `mutex`: succeeds exactly when it was not held, and
    /// it is held afterwards either way. Blocking a contended caller is the
    /// scheduler's business, above this layer.
    pub fn sys_mutex_lock(&mut self, mutex: u32) -> (acquired: bool)
        requires
            (mutex as int) < old(self).mutexes@.len(),
        ensures
            acquired == !old(self).mutexes@[mutex as int],
            final(self).mutexes@ == old(self).mutexes@.update(mutex as int, true),
            final(self).events@ == old(self).events@.push(HandlerEvent::MutexLock(mutex)),
    {
        let held = self.mutexes[mutex as usize];
        self.mutexes.set(mutex as usize, true);
        self.events.push(HandlerEvent::MutexLock(mutex));
        !held
    }

    /// Try to acquire the mutex `mutex` without blocking: succeeds exactly
    /// when it was not held, and it is held afterwards either way.
    pub fn sys_mutex_try_lock(&mut self, mutex: u32) -> (acquired: bool)
        requires
            (mutex as int) < old(self).mutexes@.len(),
        ensures
            acquired == !old(self).mutexes@[mutex as int],
            final(self).mutexes@ == old(self).mutexes@.update(mutex as int, true),
            final(self).events@ == old(self).events@.push(HandlerEvent::MutexTryLock(mutex)),
    {
        let held = self.mutexes[mutex as usize];
        self.mutexes.set(mutex as usize, true);
        self.events.push(HandlerEvent::MutexTryLock(mutex));
        !held
    }

    /// Release the mutex `mutex`.
    pub fn sys_mutex_unlock(&mut self, mutex: u32)
        requires
            (mutex as int) < old(self).mutexes@.len(),
        ensures
            final(self).mutexes@ == old(self).mutexes@.update(mutex as int, false),
            final(self).events@ == old(self).events@.push(HandlerEvent::MutexUnlock(mutex)),
    {
        self.mutexes.set(mutex as usize, false);
        self.events.push(HandlerEvent::MutexUnlock(mutex));
    }

    /// Release the mutex `mutex` and block the calling task on the condition
    /// variable `condvar`.
    pub fn sys_condvar_wait(&mut self, condvar: u32, mutex: u32)
        requires
            (mutex as int) < old(self).mutexes@.len(),
        ensures
            final(self).mutexes@ == old(self).mutexes@.update(mutex as int, false),
            final(self).events@ == old(self).events@.push(
                HandlerEvent::CondvarWait(condvar, mutex),
            ),
    {
        self.mutexes.set(mutex as usize, false);
        self.events.push(HandlerEvent::CondvarWait(condvar, mutex));
    }

    /// Wake every task blocked on the condition variable `condvar`.
    pub fn sys_condvar_broadcast(&mut self, condvar: u32)
        ensures
            final(self).events@ == old(self).events@.push(
                HandlerEvent::CondvarBroadcast(condvar),
            ),
            final(self).mutexes@ == old(self).mutexes@,
    {
        self.events.push(HandlerEvent::CondvarBroadcast(condvar));
    }
}

} // verus!
