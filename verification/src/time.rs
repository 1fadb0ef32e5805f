//! Time: durations in milliseconds, and instants counted in ticks of the
//! kernel's 100 Hz timer (10 ms per tick).
use vstd::prelude::*;
use crate::syscall::{Syscall, is_call, SYS_STD_INSTANT_NOW, SYS_STD_SYSTEM_TIME};

verus! {

/// Milliseconds per timer tick.
pub const MS_PER_TICK: u64 = 10;

/// A span of time in milliseconds.
#[derive(Clone, Copy)]
pub struct Duration {
    pub ms: u64,
}

impl Duration {
    /// A duration of `ms` milliseconds.
    pub fn from_millis(ms: u64) -> (r: Self)
        ensures
            r.ms == ms,
    {
        Duration { ms }
    }

    /// A duration of `s` seconds.
    pub fn from_secs(s: u64) -> (r: Self)
        requires
            s * 1000 <= u64::MAX,
        ensures
            r.ms == s * 1000,
    {
        Duration { ms: s * 1000 }
    }

    /// The whole duration in milliseconds.
    pub fn as_millis(&self) -> (r: u64)
        ensures
            r == self.ms,
    {
        self.ms
    }

    /// The whole seconds in the duration.
    pub fn as_secs(&self) -> (r: u64)
        ensures
            r == self.ms / 1000,
    {
        self.ms / 1000
    }
}

/// A point on the monotonic clock, in timer ticks.
#[derive(Clone, Copy)]
pub struct Instant {
    pub ticks: u64,
}

impl Instant {
    /// The request that reads the monotonic clock.
    pub fn now_syscall() -> (r: Syscall)
        ensures
            is_call(r, SYS_STD_INSTANT_NOW, seq![]),
    {
        Syscall::new0(SYS_STD_INSTANT_NOW)
    }

    /// The instant the kernel reported (the reply taken as unsigned).
    pub fn now(reply: i64) -> (r: Self)
        ensures
            r.ticks == reply as u64,
    {
        Instant { ticks: reply as u64 }
    }

    /// The time from this instant to `now`, or zero when `now` is earlier.
    pub fn elapsed(&self, now: Instant) -> (r: Duration)
        requires
            now.ticks <= self.ticks || (now.ticks - self.ticks) * 10 <= u64::MAX,
        ensures
            r.ms == (if now.ticks <= self.ticks {
                0
            } else {
                (now.ticks - self.ticks) * 10
            }),
    {
        let diff = now.ticks.saturating_sub(self.ticks);
        Duration { ms: diff * MS_PER_TICK }
    }
}

/// The wall clock.
pub struct SystemTime;

impl SystemTime {
    /// The request that reads the wall clock.
    pub fn now_syscall() -> (r: Syscall)
        ensures
            is_call(r, SYS_STD_SYSTEM_TIME, seq![]),
    {
        Syscall::new0(SYS_STD_SYSTEM_TIME)
    }

    /// Seconds and nanoseconds since the epoch, from the kernel's reply of
    /// whole seconds.
    pub fn now(reply: i64) -> (r: (u64, u64))
        ensures
            r == (reply as u64, 0u64),
    {
        (reply as u64, 0)
    }
}

/// A duration built from whole seconds reads back as those seconds.
pub proof fn law_secs_roundtrip(s: u64)
    requires
        s * 1000 <= u64::MAX,
    ensures
        (Duration { ms: (s * 1000) as u64 }).ms / 1000 == s,
{
}

} // verus!
