//! Processes: exit, ids, fork, exec, wait and signals.
use vstd::prelude::*;
use crate::syscall::{
    Syscall, is_call, unit_reply, read_unit, SYS_EXIT, SYS_GETPID, SYS_GETPPID, SYS_FORK,
    SYS_EXEC, SYS_WAITPID, SYS_KILL,
};

verus! {

/// The request that ends the process with `code` (sign-extended).
pub fn exit_syscall(code: i32) -> (r: Syscall)
    ensures
        is_call(r, SYS_EXIT, seq![code as u64]),
{
    Syscall::new1(SYS_EXIT, code as u64)
}

/// The request for the process id.
pub fn getpid_syscall() -> (r: Syscall)
    ensures
        is_call(r, SYS_GETPID, seq![]),
{
    Syscall::new0(SYS_GETPID)
}

/// The process id, from the kernel's reply (its low 32 bits).
pub fn getpid(reply: i64) -> (r: u32)
    ensures
        r == reply as u32,
{
    reply as u32
}

/// The request for the parent's process id.
pub fn getppid_syscall() -> (r: Syscall)
    ensures
        is_call(r, SYS_GETPPID, seq![]),
{
    Syscall::new0(SYS_GETPPID)
}

/// The parent's process id, from the kernel's reply (its low 32 bits).
pub fn getppid(reply: i64) -> (r: u32)
    ensures
        r == reply as u32,
{
    reply as u32
}

/// The request that forks the process.
pub fn fork_syscall() -> (r: Syscall)
    ensures
        is_call(r, SYS_FORK, seq![]),
{
    Syscall::new0(SYS_FORK)
}

/// The child's id (0 in the child), given the kernel's reply.
pub fn fork(reply: i64) -> (r: Result<u32, i64>)
    ensures
        r == (if reply < 0 {
            Err::<u32, i64>(reply)
        } else {
            Ok::<u32, i64>(reply as u32)
        }),
{
    if reply < 0 {
        Err(reply)
    } else {
        Ok(reply as u32)
    }
}

/// The request that replaces the program with the one at the path of
/// `len` bytes at `addr`.
pub fn exec_syscall(addr: u64, len: usize) -> (r: Syscall)
    ensures
        is_call(r, SYS_EXEC, seq![addr, len as u64]),
{
    Syscall::new2(SYS_EXEC, addr, len as u64)
}

/// The outcome of exec, given the kernel's reply.
pub fn exec(reply: i64) -> (r: Result<(), i64>)
    ensures
        r == unit_reply(reply),
{
    read_unit(reply)
}

/// The request that waits for process `pid`.
pub fn waitpid_syscall(pid: u32) -> (r: Syscall)
    ensures
        is_call(r, SYS_WAITPID, seq![pid as u64]),
{
    Syscall::new1(SYS_WAITPID, pid as u64)
}

/// The exit status, given the kernel's reply (its low 32 bits).
pub fn waitpid(reply: i64) -> (r: Result<i32, i64>)
    ensures
        r == (if reply < 0 {
            Err::<i32, i64>(reply)
        } else {
            Ok::<i32, i64>(reply as i32)
        }),
{
    if reply < 0 {
        Err(reply)
    } else {
        Ok(reply as i32)
    }
}

/// The request that sends `signal` to process `pid`.
pub fn kill_syscall(pid: u32, signal: u8) -> (r: Syscall)
    ensures
        is_call(r, SYS_KILL, seq![pid as u64, signal as u64]),
{
    Syscall::new2(SYS_KILL, pid as u64, signal as u64)
}

/// The outcome of sending a signal, given the kernel's reply.
pub fn kill(reply: i64) -> (r: Result<(), i64>)
    ensures
        r == unit_reply(reply),
{
    read_unit(reply)
}

} // verus!
