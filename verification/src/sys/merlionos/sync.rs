//! Lock words for futex-based locks, as std's Unix `sync` module keeps
//! them: the transitions a thread makes on the word, and the futex
//! requests (wait while the word holds a value, wake some waiters) that go
//! with them. Each acquiring method is one attempt; the caller retries,
//! waiting or spinning, until it succeeds.
use vstd::prelude::*;
use crate::syscall::{Syscall, is_call, SYS_FUTEX_WAIT, SYS_FUTEX_WAKE};

verus! {

/// The request that sleeps while the word at `addr` holds `value`.
pub fn futex_wait(addr: u64, value: u64) -> (r: Syscall)
    ensures
        is_call(r, SYS_FUTEX_WAIT, seq![addr, value]),
{
    Syscall::new2(SYS_FUTEX_WAIT, addr, value)
}

/// The request that wakes up to `count` sleepers on the word at `addr`.
pub fn futex_wake(addr: u64, count: u64) -> (r: Syscall)
    ensures
        is_call(r, SYS_FUTEX_WAKE, seq![addr, count]),
{
    Syscall::new2(SYS_FUTEX_WAKE, addr, count)
}

/// A mutex word: 0 unlocked, 1 locked.
pub struct Mutex {
    pub state: u32,
}

/// Trying to take a mutex whose word is `s`: whether it is taken, and the
/// word after.
pub open spec fn mutex_try_lock(s: u32) -> (bool, u32) {
    if s == 0 {
        (true, 1)
    } else {
        (false, s)
    }
}

impl Mutex {
    /// An unlocked mutex.
    pub fn new() -> (r: Self)
        ensures
            r.state == 0,
    {
        Mutex { state: 0 }
    }

    /// Takes the mutex if it is unlocked.
    pub fn try_lock(&mut self) -> (r: bool)
        ensures
            (r, final(self).state) == mutex_try_lock(old(self).state),
    {
        if self.state == 0 {
            self.state = 1;
            true
        } else {
            false
        }
    }

    /// One attempt to lock: `None` when the mutex was taken, else the
    /// request that sleeps while the word at `addr` stays locked, after
    /// which the caller tries again.
    pub fn lock(&mut self, addr: u64) -> (r: Option<Syscall>)
        ensures
            (r is None, final(self).state) == mutex_try_lock(old(self).state),
            r matches Some(w) ==> is_call(w, SYS_FUTEX_WAIT, seq![addr, 1]),
    {
        if self.try_lock() {
            None
        } else {
            Some(futex_wait(addr, 1))
        }
    }

    /// Unlocks, returning the request that wakes one sleeper.
    pub fn unlock(&mut self, addr: u64) -> (r: Syscall)
        ensures
            final(self).state == 0,
            is_call(r, SYS_FUTEX_WAKE, seq![addr, 1]),
    {
        self.state = 0;
        futex_wake(addr, 1)
    }
}

/// While a mutex is held no one else takes it, and once it is unlocked
/// the next attempt takes it.
pub proof fn law_mutex_exclusive(s: u32)
    ensures
        mutex_try_lock(s).0 ==> !mutex_try_lock(mutex_try_lock(s).1).0,
        mutex_try_lock(0).0,
{
}

/// A condition variable's sequence word, bumped on every notification.
pub struct Condvar {
    pub seq: u32,
}

impl Condvar {
    /// A condition variable with sequence 0.
    pub fn new() -> (r: Self)
        ensures
            r.seq == 0,
    {
        Condvar { seq: 0 }
    }

    /// Starts a wait: unlocks `mutex`, and returns the request that wakes a
    /// sleeper on the mutex, then the request that sleeps while the
    /// sequence word at `seq_addr` still holds the sequence seen here. The
    /// caller then locks `mutex` again.
    pub fn wait(&self, mutex: &mut Mutex, seq_addr: u64, mutex_addr: u64) -> (r: (Syscall, Syscall))
        ensures
            final(mutex).state == 0,
            is_call(r.0, SYS_FUTEX_WAKE, seq![mutex_addr, 1]),
            is_call(r.1, SYS_FUTEX_WAIT, seq![seq_addr, self.seq as u64]),
    {
        let seq = self.seq;
        let wake = mutex.unlock(mutex_addr);
        (wake, futex_wait(seq_addr, seq as u64))
    }

    /// Bumps the sequence (wrapping) and returns the request that wakes one
    /// sleeper.
    pub fn notify_one(&mut self, seq_addr: u64) -> (r: Syscall)
        ensures
            final(self).seq == old(self).seq.wrapping_add(1),
            is_call(r, SYS_FUTEX_WAKE, seq![seq_addr, 1]),
    {
        self.seq = self.seq.wrapping_add(1);
        futex_wake(seq_addr, 1)
    }

    /// Bumps the sequence (wrapping) and returns the request that wakes
    /// every sleeper.
    pub fn notify_all(&mut self, seq_addr: u64) -> (r: Syscall)
        ensures
            final(self).seq == old(self).seq.wrapping_add(1),
            is_call(r, SYS_FUTEX_WAKE, seq![seq_addr, u32::MAX as u64]),
    {
        self.seq = self.seq.wrapping_add(1);
        futex_wake(seq_addr, u32::MAX as u64)
    }
}

/// A read-write lock word: 0 free, `u32::MAX` held by a writer, any other
/// value the number of readers.
pub struct RwLock {
    pub state: u32,
}

/// Trying to read-lock a word `s`: whether it is taken, and the word after.
pub open spec fn rw_try_read(s: u32) -> (bool, u32) {
    if s != u32::MAX {
        (true, (s + 1) as u32)
    } else {
        (false, s)
    }
}

/// Trying to write-lock a word `s`: whether it is taken, and the word after.
pub open spec fn rw_try_write(s: u32) -> (bool, u32) {
    if s == 0 {
        (true, u32::MAX)
    } else {
        (false, s)
    }
}

impl RwLock {
    /// A free lock.
    pub fn new() -> (r: Self)
        ensures
            r.state == 0,
    {
        RwLock { state: 0 }
    }

    /// One attempt to read-lock: succeeds unless a writer holds the lock,
    /// adding one reader.
    pub fn read(&mut self) -> (r: bool)
        ensures
            (r, final(self).state) == rw_try_read(old(self).state),
    {
        let s = self.state;
        if s != u32::MAX {
            self.state = s + 1;
            true
        } else {
            false
        }
    }

    /// One attempt to write-lock: succeeds only when the lock is free.
    pub fn write(&mut self) -> (r: bool)
        ensures
            (r, final(self).state) == rw_try_write(old(self).state),
    {
        if self.state == 0 {
            self.state = u32::MAX;
            true
        } else {
            false
        }
    }

    /// Drops one reader (the word wraps as an atomic subtraction does).
    pub fn read_unlock(&mut self)
        ensures
            final(self).state == old(self).state.wrapping_sub(1),
    {
        self.state = self.state.wrapping_sub(1);
    }

    /// Releases the writer.
    pub fn write_unlock(&mut self)
        ensures
            final(self).state == 0,
    {
        self.state = 0;
    }
}

/// A read lock succeeds exactly when no writer holds the word, and then
/// adds exactly one reader: the word goes up by one, and dropping that
/// reader again gives back the word it started from. A failed attempt
/// leaves the word as it was.
pub proof fn law_read_adds_one_reader(s: u32)
    ensures
        rw_try_read(s).0 == (s != u32::MAX),
        rw_try_read(s).0 ==> rw_try_read(s).1 as int == s as int + 1,
        rw_try_read(s).0 ==> rw_try_read(s).1.wrapping_sub(1) == s,
        !rw_try_read(s).0 ==> rw_try_read(s).1 == s,
{
}

/// A writer excludes everyone; readers exclude writers; a read lock taken
/// and dropped, or a write lock taken and released, leaves a free lock free.
pub proof fn law_rwlock_exclusion(s: u32)
    ensures
        s == u32::MAX ==> !rw_try_read(s).0 && !rw_try_write(s).0,
        0 < s < u32::MAX ==> !rw_try_write(s).0,
        s < u32::MAX - 1 ==> rw_try_read(s).0 && rw_try_read(s).1 != u32::MAX,
        rw_try_read(0).1.wrapping_sub(1) == 0,
        rw_try_write(0).0,
{
}

/// Runs an initialisation once.
pub struct Once {
    pub done: bool,
}

impl Once {
    /// Not yet run.
    pub fn new() -> (r: Self)
        ensures
            !r.done,
    {
        Once { done: false }
    }

    /// Runs `f` unless a call already ran; afterwards it has run. Once a
    /// call has run, later calls leave the `Once` as it is and do not run
    /// their `f`: they ask nothing of it, so they cannot call it.
    pub fn call_once<F: FnOnce()>(&mut self, f: F)
        requires
            !old(self).done ==> f.requires(()),
        ensures
            final(self).done,
            !old(self).done ==> f.ensures((), ()),
            old(self).done ==> *final(self) == *old(self),
    {
        if !self.done {
            self.done = true;
            f();
        }
    }

    /// Whether a call has run.
    pub fn is_completed(&self) -> (r: bool)
        ensures
            r == self.done,
    {
        self.done
    }
}

} // verus!
