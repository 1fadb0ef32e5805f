//! Environment variables.
use vstd::prelude::*;
use vstd::utf8::{valid_utf8, decode_utf8};
use crate::syscall::{Syscall, is_call, SYS_GETENV};
use crate::text::string_from_prefix;

verus! {

/// The request that copies the variable named by the `name_len` bytes at
/// `name_addr` into the buffer at `buf_addr`.
pub fn getenv_syscall(name_addr: u64, name_len: usize, buf_addr: u64) -> (r: Syscall)
    ensures
        is_call(r, SYS_GETENV, seq![name_addr, name_len as u64, buf_addr]),
{
    Syscall::new3(SYS_GETENV, name_addr, name_len as u64, buf_addr)
}

/// The variable's value, given the kernel's reply and the buffer it wrote:
/// nothing for a reply of zero or less, or when the first `reply` bytes
/// are not UTF-8; else those bytes as text.
pub fn getenv(reply: i64, buf: &[u8]) -> (r: Option<String>)
    requires
        reply <= 0 || reply <= buf@.len(),
    ensures
        r is Some <==> (reply > 0 && valid_utf8(buf@.take(reply as int))),
        r matches Some(s) ==> s@ == decode_utf8(buf@.take(reply as int)),
{
    if reply <= 0 {
        None
    } else {
        let len = buf.len();
        let n = reply as usize;
        assert(n as int == reply as int);
        string_from_prefix(buf, n)
    }
}

/// Setting a variable is not supported by the kernel: nothing happens.
pub fn setenv(name: &str, value: &str) {
}

} // verus!
