//! File descriptors: reading, writing, closing, duplicating and setting
//! flags, as std's Unix `fd` module does.
use vstd::prelude::*;
use crate::syscall::{
    Syscall, is_call, count_reply, unit_reply, read_count, read_unit, SYS_READ, SYS_FWRITE,
    SYS_CLOSE, SYS_DUP2, SYS_FCNTL,
};

verus! {

/// A raw file descriptor.
pub type RawFd = i32;

/// The fcntl command that sets the status flags.
pub const F_SETFL: u64 = 4;

/// The fcntl command that sets the descriptor flags.
pub const F_SETFD: u64 = 2;

/// The non-blocking status flag.
pub const O_NONBLOCK: u64 = 0x800;

/// The close-on-exec descriptor flag.
pub const FD_CLOEXEC: u64 = 1;

/// The descriptor `dup2` is asked for: the next free one.
pub const DUP_ANY: u64 = 0xFF;

/// An owned file descriptor (closed when dropped).
pub struct FileDesc {
    pub fd: RawFd,
}

/// The descriptor a reply to a duplicate request denotes, or its error.
pub open spec fn duplicated(reply: i64) -> Result<FileDesc, i64> {
    if reply < 0 {
        Err(reply)
    } else {
        Ok(FileDesc { fd: reply as i32 })
    }
}

impl FileDesc {
    /// Owns `fd`.
    pub fn new(fd: RawFd) -> (r: Self)
        ensures
            r.fd == fd,
    {
        FileDesc { fd }
    }

    /// The descriptor number.
    pub fn raw(&self) -> (r: RawFd)
        ensures
            r == self.fd,
    {
        self.fd
    }

    /// The request that reads up to `len` bytes into the buffer at `addr`.
    pub fn read_syscall(&self, addr: u64, len: usize) -> (r: Syscall)
        ensures
            is_call(r, SYS_READ, seq![self.fd as u64, addr, len as u64]),
    {
        Syscall::new3(SYS_READ, self.fd as u64, addr, len as u64)
    }

    /// The byte count read, given the kernel's reply.
    pub fn read(&self, reply: i64) -> (r: Result<usize, i64>)
        ensures
            r == count_reply(reply),
    {
        read_count(reply)
    }

    /// The request that writes `len` bytes from the buffer at `addr`.
    pub fn write_syscall(&self, addr: u64, len: usize) -> (r: Syscall)
        ensures
            is_call(r, SYS_FWRITE, seq![self.fd as u64, addr, len as u64]),
    {
        Syscall::new3(SYS_FWRITE, self.fd as u64, addr, len as u64)
    }

    /// The byte count written, given the kernel's reply.
    pub fn write(&self, reply: i64) -> (r: Result<usize, i64>)
        ensures
            r == count_reply(reply),
    {
        read_count(reply)
    }

    /// The request that closes the descriptor.
    pub fn close_syscall(&self) -> (r: Syscall)
        ensures
            is_call(r, SYS_CLOSE, seq![self.fd as u64]),
    {
        Syscall::new1(SYS_CLOSE, self.fd as u64)
    }

    /// The outcome of closing, given the kernel's reply.
    pub fn close(&self, reply: i64) -> (r: Result<(), i64>)
        ensures
            r == unit_reply(reply),
    {
        read_unit(reply)
    }

    /// The request that duplicates the descriptor onto the next free one.
    pub fn duplicate_syscall(&self) -> (r: Syscall)
        ensures
            is_call(r, SYS_DUP2, seq![self.fd as u64, DUP_ANY]),
    {
        Syscall::new2(SYS_DUP2, self.fd as u64, DUP_ANY)
    }

    /// The new descriptor, given the kernel's reply (its low 32 bits).
    pub fn duplicate(&self, reply: i64) -> (r: Result<FileDesc, i64>)
        ensures
            r == duplicated(reply),
    {
        if reply < 0 {
            Err(reply)
        } else {
            Ok(FileDesc::new(reply as RawFd))
        }
    }

    /// The request that turns non-blocking mode on or off.
    pub fn set_nonblocking_syscall(&self, nonblocking: bool) -> (r: Syscall)
        ensures
            is_call(
                r,
                SYS_FCNTL,
                seq![self.fd as u64, F_SETFL, if nonblocking { O_NONBLOCK } else { 0 }],
            ),
    {
        let flags = if nonblocking {
            O_NONBLOCK
        } else {
            0
        };
        Syscall::new3(SYS_FCNTL, self.fd as u64, F_SETFL, flags)
    }

    /// The outcome of setting non-blocking mode, given the kernel's reply.
    pub fn set_nonblocking(&self, reply: i64) -> (r: Result<(), i64>)
        ensures
            r == unit_reply(reply),
    {
        read_unit(reply)
    }

    /// The request that sets close-on-exec.
    pub fn set_cloexec_syscall(&self) -> (r: Syscall)
        ensures
            is_call(r, SYS_FCNTL, seq![self.fd as u64, F_SETFD, FD_CLOEXEC]),
    {
        Syscall::new3(SYS_FCNTL, self.fd as u64, F_SETFD, FD_CLOEXEC)
    }

    /// The outcome of setting close-on-exec, given the kernel's reply.
    pub fn set_cloexec(&self, reply: i64) -> (r: Result<(), i64>)
        ensures
            r == unit_reply(reply),
    {
        read_unit(reply)
    }
}

} // verus!
