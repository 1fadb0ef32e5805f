//! Reading and writing descriptors, one buffer or several.
use vstd::prelude::*;
use crate::syscall::{Syscall, is_call, count_reply, read_count, SYS_READ, SYS_FWRITE};

verus! {

/// The request that reads up to `len` bytes from `fd` into the buffer at
/// `addr`.
pub fn read_syscall(fd: i32, addr: u64, len: usize) -> (r: Syscall)
    ensures
        is_call(r, SYS_READ, seq![fd as u64, addr, len as u64]),
{
    Syscall::new3(SYS_READ, fd as u64, addr, len as u64)
}

/// The byte count read, given the kernel's reply.
pub fn read(reply: i64) -> (r: Result<usize, i64>)
    ensures
        r == count_reply(reply),
{
    read_count(reply)
}

/// The request that writes `len` bytes from the buffer at `addr` to `fd`.
pub fn write_syscall(fd: i32, addr: u64, len: usize) -> (r: Syscall)
    ensures
        is_call(r, SYS_FWRITE, seq![fd as u64, addr, len as u64]),
{
    Syscall::new3(SYS_FWRITE, fd as u64, addr, len as u64)
}

/// The byte count written, given the kernel's reply.
pub fn write(reply: i64) -> (r: Result<usize, i64>)
    ensures
        r == count_reply(reply),
{
    read_count(reply)
}

/// What writing several buffers in turn gives, from the kernel's replies
/// to the writes in order: the first error, or the sum of the counts.
pub open spec fn writev_total(replies: Seq<i64>) -> Result<int, i64>
    decreases replies.len(),
{
    if replies.len() == 0 {
        Ok(0)
    } else {
        match writev_total(replies.drop_last()) {
            Err(e) => Err(e),
            Ok(t) => if replies.last() < 0 {
                Err(replies.last())
            } else {
                Ok(t + replies.last() as usize)
            },
        }
    }
}

/// No running total of the writes passes the largest `usize`.
pub open spec fn writev_fits(replies: Seq<i64>) -> bool {
    forall|k: int|
        0 <= k <= replies.len() ==> (#[trigger] writev_total(replies.take(k)) matches Ok(t) ==> t
            <= usize::MAX)
}

/// The outcome of writing several buffers, given the kernel's replies to
/// the writes in order: the writes go on while `writev_continues` holds,
/// so the last reply is the first error if any; replies past an error are
/// not looked at.
pub fn writev(replies: &[i64]) -> (r: Result<usize, i64>)
    requires
        writev_fits(replies@),
    ensures
        match writev_total(replies@) {
            Ok(t) => r == Ok::<usize, i64>(t as usize),
            Err(e) => r == Err::<usize, i64>(e),
        },
{
    let n = replies.len();
    let mut total: usize = 0;
    let mut i: usize = 0;
    while i < n
        invariant
            n == replies@.len(),
            i <= n,
            writev_fits(replies@),
            writev_total(replies@.take(i as int)) == Ok::<int, i64>(total as int),
        decreases n - i,
    {
        let reply = replies[i];
        proof {
            assert(replies@.take(i + 1).drop_last() =~= replies@.take(i as int));
        }
        if reply < 0 {
            proof {
                law_writev_error_sticks(replies@, i + 1);
            }
            return Err(reply);
        }
        proof {
            assert(writev_total(replies@.take(i + 1)) matches Ok(t) && t <= usize::MAX);
        }
        total = total + reply as usize;
        i += 1;
    }
    proof {
        assert(replies@.take(n as int) =~= replies@);
    }
    Ok(total)
}

/// Whether writing several buffers goes on after a write that replied
/// `reply`: only after one that succeeded. The buffers after a failed
/// write are not written.
pub fn writev_continues(reply: i64) -> (r: bool)
    ensures
        r == (reply >= 0),
{
    reply >= 0
}

/// Once a write fails, the outcome is that failure: the replies after the
/// first failed one change nothing.
pub proof fn law_writev_error_sticks(replies: Seq<i64>, k: int)
    requires
        0 <= k <= replies.len(),
        writev_total(replies.take(k)) is Err,
    ensures
        writev_total(replies) == writev_total(replies.take(k)),
    decreases replies.len() - k,
{
    if k < replies.len() {
        let t = replies.take(k + 1);
        assert(t.drop_last() =~= replies.take(k));
        law_writev_error_sticks(replies, k + 1);
    } else {
        assert(replies.take(k) =~= replies);
    }
}

} // verus!
