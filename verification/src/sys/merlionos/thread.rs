//! Threads: creation, yielding, sleeping and joining.
use vstd::prelude::*;
use crate::syscall::{
    Syscall, is_call, unit_reply, read_unit, SYS_CLONE, SYS_YIELD, SYS_NANOSLEEP, SYS_WAITPID,
    SYS_GETPID,
};

verus! {

/// A thread, by id.
pub struct Thread {
    pub id: u64,
}

impl Thread {
    /// The request that clones the current thread onto a stack of
    /// `stack_size` bytes.
    pub fn new_syscall(stack_size: usize) -> (r: Syscall)
        ensures
            is_call(r, SYS_CLONE, seq![0, stack_size as u64]),
    {
        Syscall::new2(SYS_CLONE, 0, stack_size as u64)
    }

    /// The new thread, given the kernel's reply.
    pub fn new(reply: i64) -> (r: Result<Thread, i64>)
        ensures
            match r {
                Ok(t) => reply >= 0 && t.id == reply as u64,
                Err(e) => reply < 0 && e == reply,
            },
    {
        if reply < 0 {
            Err(reply)
        } else {
            Ok(Thread { id: reply as u64 })
        }
    }

    /// The request that yields to the scheduler.
    pub fn yield_now() -> (r: Syscall)
        ensures
            is_call(r, SYS_YIELD, seq![]),
    {
        Syscall::new0(SYS_YIELD)
    }

    /// The request that sleeps for `ms` milliseconds.
    pub fn sleep(ms: u64) -> (r: Syscall)
        ensures
            is_call(r, SYS_NANOSLEEP, seq![ms]),
    {
        Syscall::new1(SYS_NANOSLEEP, ms)
    }

    /// The thread's id.
    pub fn id(&self) -> (r: u64)
        ensures
            r == self.id,
    {
        self.id
    }

    /// The request that waits for the thread to end.
    pub fn join_syscall(&self) -> (r: Syscall)
        ensures
            is_call(r, SYS_WAITPID, seq![self.id]),
    {
        Syscall::new1(SYS_WAITPID, self.id)
    }

    /// The outcome of joining, given the kernel's reply.
    pub fn join(self, reply: i64) -> (r: Result<(), i64>)
        ensures
            r == unit_reply(reply),
    {
        read_unit(reply)
    }
}

/// The request for the current thread's id.
pub fn current_id_syscall() -> (r: Syscall)
    ensures
        is_call(r, SYS_GETPID, seq![]),
{
    Syscall::new0(SYS_GETPID)
}

/// The current thread's id, from the kernel's reply (taken as unsigned).
pub fn current_id(reply: i64) -> (r: u64)
    ensures
        r == reply as u64,
{
    reply as u64
}

/// How many threads can run at once: one core.
pub fn available_parallelism() -> (r: usize)
    ensures
        r == 1,
{
    1
}

} // verus!
