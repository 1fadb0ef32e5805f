//! Processes: exit, id and fork.
use vstd::prelude::*;
use crate::syscall::{Syscall, is_call, SYS_EXIT, SYS_GETPID, SYS_FORK};

verus! {

/// The request that ends the process with `code` (sign-extended).
pub fn exit_syscall(code: i32) -> (r: Syscall)
    ensures
        is_call(r, SYS_EXIT, seq![code as u64]),
{
    Syscall::new1(SYS_EXIT, code as u64)
}

/// The request for the process id.
pub fn id_syscall() -> (r: Syscall)
    ensures
        is_call(r, SYS_GETPID, seq![]),
{
    Syscall::new0(SYS_GETPID)
}

/// The process id, from the kernel's reply (its low 32 bits).
pub fn id(reply: i64) -> (r: u32)
    ensures
        r == reply as u32,
{
    reply as u32
}

/// The request that forks the process.
pub fn fork_syscall() -> (r: Syscall)
    ensures
        is_call(r, SYS_FORK, seq![]),
{
    Syscall::new0(SYS_FORK)
}

/// What fork returns: the kernel's reply as it is (the child's id in the
/// parent, 0 in the child, negative on error).
pub fn fork(reply: i64) -> (r: i64)
    ensures
        r == reply,
{
    reply
}

} // verus!
