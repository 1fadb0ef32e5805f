//! Threads: sleeping, yielding, the current id and spawning.
use vstd::prelude::*;
use crate::syscall::{Syscall, is_call, SYS_STD_THREAD_SLEEP, SYS_YIELD, SYS_GETPID, SYS_CLONE};

verus! {

/// The request that sleeps for `ms` milliseconds.
pub fn sleep_ms(ms: u64) -> (r: Syscall)
    ensures
        is_call(r, SYS_STD_THREAD_SLEEP, seq![ms]),
{
    Syscall::new1(SYS_STD_THREAD_SLEEP, ms)
}

/// The request that yields to the scheduler.
pub fn yield_now() -> (r: Syscall)
    ensures
        is_call(r, SYS_YIELD, seq![]),
{
    Syscall::new0(SYS_YIELD)
}

/// The request for the current thread id.
pub fn current_id_syscall() -> (r: Syscall)
    ensures
        is_call(r, SYS_GETPID, seq![]),
{
    Syscall::new0(SYS_GETPID)
}

/// The current thread id, from the kernel's reply (its low 32 bits).
pub fn current_id(reply: i64) -> (r: u32)
    ensures
        r == reply as u32,
{
    reply as u32
}

/// The request that clones the current thread.
pub fn spawn_syscall() -> (r: Syscall)
    ensures
        is_call(r, SYS_CLONE, seq![0, 0]),
{
    Syscall::new2(SYS_CLONE, 0, 0)
}

/// The new thread's id, given the kernel's reply (a negative reply is the
/// error code).
pub fn spawn(reply: i64) -> (r: Result<u32, i64>)
    ensures
        r == (if reply < 0 {
            Err::<u32, i64>(reply)
        } else {
            Ok::<u32, i64>(reply as u32)
        }),
{
    if reply < 0 {
        Err(reply)
    } else {
        Ok(reply as u32)
    }
}

} // verus!
