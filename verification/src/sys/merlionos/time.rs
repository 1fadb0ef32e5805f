//! Clocks and sleeping.
use vstd::prelude::*;
use crate::syscall::{Syscall, is_call, SYS_CLOCK_MONOTONIC, SYS_GETTIMEOFDAY, SYS_NANOSLEEP};

verus! {

/// Seconds and nanoseconds.
pub struct Timespec {
    pub secs: u64,
    pub nanos: u64,
}

/// The request that writes the monotonic clock into the two 64-bit words
/// (16 bytes) at `buf_addr`.
pub fn monotonic_now_syscall(buf_addr: u64) -> (r: Syscall)
    ensures
        is_call(r, SYS_CLOCK_MONOTONIC, seq![buf_addr, 16]),
{
    Syscall::new2(SYS_CLOCK_MONOTONIC, buf_addr, 16)
}

/// The monotonic time the kernel wrote: seconds, then nanoseconds.
pub fn monotonic_now(buf: [u64; 2]) -> (r: Timespec)
    ensures
        r.secs == buf[0],
        r.nanos == buf[1],
{
    Timespec { secs: buf[0], nanos: buf[1] }
}

/// The request that writes the wall clock into the two 64-bit words (16
/// bytes) at `buf_addr`.
pub fn realtime_now_syscall(buf_addr: u64) -> (r: Syscall)
    ensures
        is_call(r, SYS_GETTIMEOFDAY, seq![buf_addr, 16]),
{
    Syscall::new2(SYS_GETTIMEOFDAY, buf_addr, 16)
}

/// The wall-clock time the kernel wrote: seconds, then microseconds, which
/// become nanoseconds.
pub fn realtime_now(buf: [u64; 2]) -> (r: Timespec)
    requires
        buf[1] * 1000 <= u64::MAX,
    ensures
        r.secs == buf[0],
        r.nanos == buf[1] * 1000,
{
    Timespec { secs: buf[0], nanos: buf[1] * 1000 }
}

/// The request that sleeps for `ms` milliseconds.
pub fn sleep(ms: u64) -> (r: Syscall)
    ensures
        is_call(r, SYS_NANOSLEEP, seq![ms]),
{
    Syscall::new1(SYS_NANOSLEEP, ms)
}

} // verus!
