//! Standard input, output and error.
use vstd::prelude::*;
use crate::syscall::{Syscall, is_call, count_reply, read_count, SYS_READ, SYS_WRITE, SYS_FWRITE};

verus! {

/// Standard input (descriptor 0).
pub struct Stdin;

/// Standard output.
pub struct Stdout;

/// Standard error (descriptor 2).
pub struct Stderr;

impl Stdin {
    pub fn new() -> (r: Self) {
        Stdin
    }

    /// The request that reads up to `len` bytes into the buffer at `addr`.
    pub fn read_syscall(&self, addr: u64, len: usize) -> (r: Syscall)
        ensures
            is_call(r, SYS_READ, seq![0, addr, len as u64]),
    {
        Syscall::new3(SYS_READ, 0, addr, len as u64)
    }

    /// The byte count read, given the kernel's reply.
    pub fn read(&self, reply: i64) -> (r: Result<usize, i64>)
        ensures
            r == count_reply(reply),
    {
        read_count(reply)
    }
}

impl Stdout {
    pub fn new() -> (r: Self) {
        Stdout
    }

    /// The request that writes `len` bytes from the buffer at `addr`.
    pub fn write_syscall(&self, addr: u64, len: usize) -> (r: Syscall)
        ensures
            is_call(r, SYS_WRITE, seq![addr, len as u64]),
    {
        Syscall::new2(SYS_WRITE, addr, len as u64)
    }

    /// The byte count written, given the kernel's reply.
    pub fn write(&self, reply: i64) -> (r: Result<usize, i64>)
        ensures
            r == count_reply(reply),
    {
        read_count(reply)
    }

    /// Nothing is buffered, so flushing succeeds.
    pub fn flush(&self) -> (r: Result<(), i64>)
        ensures
            r is Ok,
    {
        Ok(())
    }
}

impl Stderr {
    pub fn new() -> (r: Self) {
        Stderr
    }

    /// The request that writes `len` bytes from the buffer at `addr` to
    /// descriptor 2.
    pub fn write_syscall(&self, addr: u64, len: usize) -> (r: Syscall)
        ensures
            is_call(r, SYS_FWRITE, seq![2, addr, len as u64]),
    {
        Syscall::new3(SYS_FWRITE, 2, addr, len as u64)
    }

    /// The byte count written, given the kernel's reply.
    pub fn write(&self, reply: i64) -> (r: Result<usize, i64>)
        ensures
            r == count_reply(reply),
    {
        read_count(reply)
    }

    /// Nothing is buffered, so flushing succeeds.
    pub fn flush(&self) -> (r: Result<(), i64>)
        ensures
            r is Ok,
    {
        Ok(())
    }
}

} // verus!
