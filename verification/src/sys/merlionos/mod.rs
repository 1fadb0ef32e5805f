//! The MerlionOS platform layer, laid out as std's Unix one: file
//! descriptors, files, sockets, processes, threads, locks and clocks, each
//! as the request it makes of the kernel and the reading of the reply.
use vstd::prelude::*;
use crate::syscall::{Syscall, is_call, SYS_EXIT};

pub mod args;
pub mod env;
pub mod fd;
pub mod fs;
pub mod io;
pub mod net;
pub mod os;
pub mod pipe;
pub mod process;
pub mod stdio;
pub mod sync;
pub mod thread;
pub mod thread_local;
pub mod time;

verus! {

/// A syscall reply as a result: negative replies are errors.
pub fn cvt(result: i64) -> (r: Result<i64, i64>)
    ensures
        r == (if result < 0 {
            Err::<i64, i64>(result)
        } else {
            Ok::<i64, i64>(result)
        }),
{
    if result < 0 {
        Err(result)
    } else {
        Ok(result)
    }
}

/// Makes the syscall `f` once (an interrupted call is not retried here)
/// and reads its reply as `cvt` does.
pub fn cvt_r<F: FnMut() -> i64>(mut f: F) -> (r: Result<i64, i64>)
    requires
        f.requires(()),
    ensures
        exists|reply: i64| #[trigger] f.ensures((), reply) && r == (if reply < 0 {
            Err::<i64, i64>(reply)
        } else {
            Ok::<i64, i64>(reply)
        }),
{
    let reply = f();
    cvt(reply)
}

/// Start-up work before `main`: none is needed.
pub fn init() {
}

/// Clean-up work after `main`: none is needed.
pub fn cleanup() {
}

/// The request that aborts the process: exit with code 134.
pub fn abort_syscall() -> (r: Syscall)
    ensures
        is_call(r, SYS_EXIT, seq![134]),
{
    Syscall::new1(SYS_EXIT, 134)
}

} // verus!
