//! Pipes.
use vstd::prelude::*;
use crate::syscall::{Syscall, is_call, SYS_PIPE};
use super::fd::{FileDesc, RawFd};

verus! {

/// The request that creates a pipe, writing its two descriptors into the
/// two 64-bit words at `fds_addr`.
pub fn pipe_syscall(fds_addr: u64) -> (r: Syscall)
    ensures
        is_call(r, SYS_PIPE, seq![fds_addr]),
{
    Syscall::new1(SYS_PIPE, fds_addr)
}

/// The read and write ends, given the kernel's reply and the two words it
/// wrote (each taken to its low 32 bits).
pub fn pipe(reply: i64, fds: [u64; 2]) -> (r: Result<(FileDesc, FileDesc), i64>)
    ensures
        match r {
            Ok((a, b)) => reply >= 0 && a.fd == fds[0] as i32 && b.fd == fds[1] as i32,
            Err(e) => reply < 0 && e == reply,
        },
{
    if reply < 0 {
        Err(reply)
    } else {
        Ok((FileDesc::new(fds[0] as RawFd), FileDesc::new(fds[1] as RawFd)))
    }
}

} // verus!
