//! Synchronisation over kernel objects: a mutex and a condition variable
//! known to the kernel by id (syscalls 233-239), a read-write lock built on
//! the mutex, and run-once initialisation.
use vstd::prelude::*;
use crate::syscall::{
    Syscall, is_call, SYS_MUTEX_CREATE, SYS_MUTEX_LOCK, SYS_MUTEX_UNLOCK, SYS_MUTEX_DESTROY,
    SYS_CONDVAR_CREATE, SYS_CONDVAR_SIGNAL,
};

verus! {

/// Data guarded by a kernel mutex.
pub struct Mutex<T> {
    pub id: u32,
    pub data: T,
}

impl<T> Mutex<T> {
    /// The request that creates a kernel mutex.
    pub fn new_syscall() -> (r: Syscall)
        ensures
            is_call(r, SYS_MUTEX_CREATE, seq![]),
    {
        Syscall::new0(SYS_MUTEX_CREATE)
    }

    /// The mutex over `data`, given the kernel's reply (its low 32 bits are
    /// the mutex id).
    pub fn new(data: T, reply: i64) -> (r: Self)
        ensures
            r.id == reply as u32,
            r.data == data,
    {
        Mutex { id: reply as u32, data }
    }

    /// The request that takes the kernel mutex.
    pub fn lock_syscall(&self) -> (r: Syscall)
        ensures
            is_call(r, SYS_MUTEX_LOCK, seq![self.id as u64]),
    {
        Syscall::new1(SYS_MUTEX_LOCK, self.id as u64)
    }

    /// The request that releases the kernel mutex (made when a guard is
    /// dropped).
    pub fn unlock_syscall(&self) -> (r: Syscall)
        ensures
            is_call(r, SYS_MUTEX_UNLOCK, seq![self.id as u64]),
    {
        Syscall::new1(SYS_MUTEX_UNLOCK, self.id as u64)
    }

    /// The request that destroys the kernel mutex (made when the mutex is
    /// dropped).
    pub fn destroy_syscall(&self) -> (r: Syscall)
        ensures
            is_call(r, SYS_MUTEX_DESTROY, seq![self.id as u64]),
    {
        Syscall::new1(SYS_MUTEX_DESTROY, self.id as u64)
    }

    /// The guarded data, once the kernel mutex is held; locking never
    /// reports an error.
    pub fn lock(&mut self) -> (r: Result<&mut T, ()>)
        ensures
            match r {
                Ok(d) => *d == old(self).data && final(self).data == *final(d) && final(self).id
                    == old(self).id,
                Err(_) => false,
            },
    {
        Ok(&mut self.data)
    }
}

/// A read-write lock: a mutex that readers and writers alike take.
pub struct RwLock<T> {
    pub inner: Mutex<T>,
}

impl<T> RwLock<T> {
    /// The lock over `data`, given the kernel's reply to creating its mutex.
    pub fn new(data: T, reply: i64) -> (r: Self)
        ensures
            r.inner.id == reply as u32,
            r.inner.data == data,
    {
        RwLock { inner: Mutex::new(data, reply) }
    }

    /// The data for reading: the same as taking the mutex.
    pub fn read(&mut self) -> (r: Result<&mut T, ()>)
        ensures
            match r {
                Ok(d) => *d == old(self).inner.data && final(self).inner.data == *final(d)
                    && final(self).inner.id == old(self).inner.id,
                Err(_) => false,
            },
    {
        self.inner.lock()
    }

    /// The data for writing: the same as taking the mutex.
    pub fn write(&mut self) -> (r: Result<&mut T, ()>)
        ensures
            match r {
                Ok(d) => *d == old(self).inner.data && final(self).inner.data == *final(d)
                    && final(self).inner.id == old(self).inner.id,
                Err(_) => false,
            },
    {
        self.inner.lock()
    }
}

/// A kernel condition variable, by id.
pub struct Condvar {
    pub id: u32,
}

impl Condvar {
    /// The request that creates a kernel condition variable.
    pub fn new_syscall() -> (r: Syscall)
        ensures
            is_call(r, SYS_CONDVAR_CREATE, seq![]),
    {
        Syscall::new0(SYS_CONDVAR_CREATE)
    }

    /// The condition variable, given the kernel's reply (its low 32 bits).
    pub fn new(reply: i64) -> (r: Self)
        ensures
            r.id == reply as u32,
    {
        Condvar { id: reply as u32 }
    }

    /// The request that wakes one waiter.
    pub fn notify_one(&self) -> (r: Syscall)
        ensures
            is_call(r, SYS_CONDVAR_SIGNAL, seq![self.id as u64]),
    {
        Syscall::new1(SYS_CONDVAR_SIGNAL, self.id as u64)
    }

    /// The request that wakes the waiters: the kernel's signal call, the
    /// same as for one.
    pub fn notify_all(&self) -> (r: Syscall)
        ensures
            is_call(r, SYS_CONDVAR_SIGNAL, seq![self.id as u64]),
    {
        Syscall::new1(SYS_CONDVAR_SIGNAL, self.id as u64)
    }
}

/// Runs an initialisation once.
pub struct Once {
    pub done: bool,
}

impl Once {
    /// Not yet run.
    pub fn new() -> (r: Self)
        ensures
            !r.done,
    {
        Once { done: false }
    }

    /// Runs `f` unless a call already ran; afterwards it has run. Once a
    /// call has run, later calls leave the `Once` as it is and do not run
    /// their `f`: they ask nothing of it, so they cannot call it.
    pub fn call_once<F: FnOnce()>(&mut self, f: F)
        requires
            !old(self).done ==> f.requires(()),
        ensures
            final(self).done,
            !old(self).done ==> f.ensures((), ()),
            old(self).done ==> *final(self) == *old(self),
    {
        if !self.done {
            self.done = true;
            f();
        }
    }
}

} // verus!
