//! The environment: variables, the working directory and the arguments.
use vstd::prelude::*;
use crate::io::{Error, Result, is_error};
use crate::syscall::{Syscall, is_call, SYS_GETENV, SYS_STD_CURRENT_DIR};
use crate::text::{string_from_prefix, string_from_prefix_or, text_or};
use vstd::utf8::{valid_utf8, decode_utf8};

verus! {

/// The size of the buffer the kernel writes a variable or directory into.
pub const ENV_BUF_LEN: usize = 256;

/// Why a variable could not be read.
#[derive(Debug)]
pub enum VarError {
    NotPresent,
    NotUnicode,
}

/// The request that copies the variable named by the `name_len` bytes at
/// `name_addr` into the buffer at `buf_addr`.
pub fn var_syscall(name_addr: u64, name_len: usize, buf_addr: u64) -> (r: Syscall)
    ensures
        is_call(r, SYS_GETENV, seq![name_addr, name_len as u64, buf_addr]),
{
    Syscall::new3(SYS_GETENV, name_addr, name_len as u64, buf_addr)
}

/// The variable's value, given the kernel's reply and the buffer it wrote:
/// a negative reply means the variable is not set; otherwise the value is
/// the first `reply` bytes, which must be UTF-8.
pub fn var(reply: i64, buf: &[u8]) -> (r: core::result::Result<String, VarError>)
    requires
        reply < 0 || reply <= buf@.len(),
    ensures
        match r {
            Ok(s) => reply >= 0 && valid_utf8(buf@.take(reply as int)) && s@ == decode_utf8(
                buf@.take(reply as int),
            ),
            Err(e) => (reply < 0 && e is NotPresent) || (reply >= 0 && !valid_utf8(
                buf@.take(reply as int),
            ) && e is NotUnicode),
        },
{
    if reply < 0 {
        Err(VarError::NotPresent)
    } else {
        let len = buf.len();
        let n = reply as usize;
        assert(n as int == reply as int);
        match string_from_prefix(buf, n) {
            Some(s) => Ok(s),
            None => Err(VarError::NotUnicode),
        }
    }
}

/// The request that copies the working directory into the 256-byte buffer
/// at `buf_addr`.
pub fn current_dir_syscall(buf_addr: u64) -> (r: Syscall)
    ensures
        is_call(r, SYS_STD_CURRENT_DIR, seq![buf_addr, 256]),
{
    Syscall::new2(SYS_STD_CURRENT_DIR, buf_addr, 256)
}

/// The working directory, given the kernel's reply and the buffer it
/// wrote: a negative reply is the error "getcwd failed"; otherwise the
/// first `reply` bytes, or "/" when they are not UTF-8.
pub fn current_dir(reply: i64, buf: &[u8]) -> (r: Result<String>)
    requires
        reply < 0 || reply <= buf@.len(),
    ensures
        match r {
            Ok(s) => reply >= 0 && s@ == text_or(buf@.take(reply as int), "/"@),
            Err(e) => reply < 0 && is_error(e, reply, "getcwd failed"),
        },
{
    if reply < 0 {
        Err(Error::new(reply, "getcwd failed"))
    } else {
        let len = buf.len();
        let n = reply as usize;
        assert(n as int == reply as int);
        Ok(string_from_prefix_or(buf, n, "/"))
    }
}

/// The program's arguments: only the program name is known.
pub fn args() -> (r: Args)
    ensures
        r.pos == 0,
{
    Args { pos: 0 }
}

/// The arguments, one at a time.
pub struct Args {
    pub pos: usize,
}

impl Args {
    /// The next argument: "merlionos-program" first, then nothing.
    pub fn next(&mut self) -> (r: Option<String>)
        ensures
            old(self).pos == 0 ==> (final(self).pos == 1 && (r matches Some(s) && s@ == "merlionos-program"@)),
            old(self).pos != 0 ==> final(self).pos == old(self).pos && r is None,
    {
        if self.pos == 0 {
            self.pos = 1;
            let name = "merlionos-program";
            proof {
                reveal_strlit("merlionos-program");
            }
            Some(name.to_owned())
        } else {
            None
        }
    }
}

} // verus!
