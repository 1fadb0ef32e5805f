//! Files, metadata and directories, as std's Unix `fs` module does.
use vstd::prelude::*;
use crate::syscall::{
    Syscall, is_call, count_reply, unit_reply, read_unit, SYS_OPEN, SYS_STAT, SYS_MKDIR,
    SYS_UNLINK, SYS_GETCWD, SYS_CHDIR,
};
use crate::text::{string_from_prefix_or, text_or};
use super::fd::{FileDesc, RawFd};

verus! {

/// An open file.
pub struct File(pub FileDesc);

/// The file a reply to an open request denotes, or its error code.
pub open spec fn opened(reply: i64) -> Result<File, i64> {
    if reply < 0 {
        Err(reply)
    } else {
        Ok(File(FileDesc { fd: reply as i32 }))
    }
}

impl File {
    /// The request that opens the path of `len` bytes at `addr`, for
    /// writing or for reading.
    pub fn open_syscall(addr: u64, len: usize, write: bool) -> (r: Syscall)
        ensures
            is_call(r, SYS_OPEN, seq![addr, len as u64, if write { 1u64 } else { 0u64 }]),
    {
        let flags: u64 = if write {
            1
        } else {
            0
        };
        Syscall::new3(SYS_OPEN, addr, len as u64, flags)
    }

    /// The file, given the kernel's reply (its low 32 bits are the
    /// descriptor).
    pub fn open(reply: i64) -> (r: Result<File, i64>)
        ensures
            r == opened(reply),
    {
        if reply < 0 {
            Err(reply)
        } else {
            Ok(File(FileDesc::new(reply as RawFd)))
        }
    }

    /// The byte count read, given the kernel's reply to the descriptor's
    /// read request.
    pub fn read(&self, reply: i64) -> (r: Result<usize, i64>)
        ensures
            r == count_reply(reply),
    {
        self.0.read(reply)
    }

    /// The byte count written, given the kernel's reply to the
    /// descriptor's write request.
    pub fn write(&self, reply: i64) -> (r: Result<usize, i64>)
        ensures
            r == count_reply(reply),
    {
        self.0.write(reply)
    }

    /// The file's descriptor.
    pub fn fd(&self) -> (r: &FileDesc)
        ensures
            *r == self.0,
    {
        &self.0
    }

    /// The descriptor number.
    pub fn raw_fd(&self) -> (r: RawFd)
        ensures
            r == self.0.fd,
    {
        self.0.raw()
    }

    /// The outcome of setting non-blocking mode, given the kernel's reply to
    /// the descriptor's request.
    pub fn set_nonblocking(&self, reply: i64) -> (r: Result<(), i64>)
        ensures
            r == unit_reply(reply),
    {
        self.0.set_nonblocking(reply)
    }
}

/// What is known of a file: its size (the kernel reports no kind, so it
/// is never a directory here).
pub struct FileStat {
    pub size: u64,
    pub is_dir: bool,
}

/// The request for the metadata of the path of `len` bytes at `addr`.
pub fn stat_syscall(addr: u64, len: usize) -> (r: Syscall)
    ensures
        is_call(r, SYS_STAT, seq![addr, len as u64, 0]),
{
    Syscall::new3(SYS_STAT, addr, len as u64, 0)
}

/// The metadata, given the kernel's reply: the reply is the size.
pub fn stat(reply: i64) -> (r: Result<FileStat, i64>)
    ensures
        match r {
            Ok(st) => reply >= 0 && st.size == reply as u64 && !st.is_dir,
            Err(e) => reply < 0 && e == reply,
        },
{
    if reply < 0 {
        Err(reply)
    } else {
        Ok(FileStat { size: reply as u64, is_dir: false })
    }
}

/// The request that creates the directory at the path of `len` bytes at
/// `addr`.
pub fn mkdir_syscall(addr: u64, len: usize) -> (r: Syscall)
    ensures
        is_call(r, SYS_MKDIR, seq![addr, len as u64]),
{
    Syscall::new2(SYS_MKDIR, addr, len as u64)
}

/// The outcome of creating a directory, given the kernel's reply.
pub fn mkdir(reply: i64) -> (r: Result<(), i64>)
    ensures
        r == unit_reply(reply),
{
    read_unit(reply)
}

/// The request that removes the file at the path of `len` bytes at `addr`.
pub fn unlink_syscall(addr: u64, len: usize) -> (r: Syscall)
    ensures
        is_call(r, SYS_UNLINK, seq![addr, len as u64]),
{
    Syscall::new2(SYS_UNLINK, addr, len as u64)
}

/// The outcome of removing a file, given the kernel's reply.
pub fn unlink(reply: i64) -> (r: Result<(), i64>)
    ensures
        r == unit_reply(reply),
{
    read_unit(reply)
}

/// The request that copies the working directory into the 256-byte buffer
/// at `buf_addr`.
pub fn getcwd_syscall(buf_addr: u64) -> (r: Syscall)
    ensures
        is_call(r, SYS_GETCWD, seq![buf_addr, 256]),
{
    Syscall::new2(SYS_GETCWD, buf_addr, 256)
}

/// The working directory, given the kernel's reply and the buffer it
/// wrote: the first `reply` bytes, or "/" when they are not UTF-8.
pub fn getcwd(reply: i64, buf: &[u8]) -> (r: Result<String, i64>)
    requires
        reply < 0 || reply <= buf@.len(),
    ensures
        match r {
            Ok(s) => reply >= 0 && s@ == text_or(buf@.take(reply as int), "/"@),
            Err(e) => reply < 0 && e == reply,
        },
{
    if reply < 0 {
        Err(reply)
    } else {
        let len = buf.len();
        let n = reply as usize;
        assert(n as int == reply as int);
        Ok(string_from_prefix_or(buf, n, "/"))
    }
}

/// The request that changes the working directory to the path of `len`
/// bytes at `addr`.
pub fn chdir_syscall(addr: u64, len: usize) -> (r: Syscall)
    ensures
        is_call(r, SYS_CHDIR, seq![addr, len as u64]),
{
    Syscall::new2(SYS_CHDIR, addr, len as u64)
}

/// The outcome of changing directory, given the kernel's reply.
pub fn chdir(reply: i64) -> (r: Result<(), i64>)
    ensures
        r == unit_reply(reply),
{
    read_unit(reply)
}

} // verus!
