//! OS-level queries: directories, the executable and errno.
use vstd::prelude::*;
use vstd::utf8::{valid_utf8, decode_utf8};
use crate::syscall::unit_reply;
use crate::text::text_or;

verus! {

/// The page size.
pub const PAGE_SIZE: usize = 4096;

/// The working directory, given the kernel's reply to the request of
/// `fs::getcwd_syscall` and the buffer it wrote.
pub fn getcwd(reply: i64, buf: &[u8]) -> (r: Result<String, i64>)
    requires
        reply < 0 || reply <= buf@.len(),
    ensures
        match r {
            Ok(s) => reply >= 0 && s@ == text_or(buf@.take(reply as int), "/"@),
            Err(e) => reply < 0 && e == reply,
        },
{
    super::fs::getcwd(reply, buf)
}

/// The outcome of changing directory, given the kernel's reply to the
/// request of `fs::chdir_syscall`.
pub fn chdir(reply: i64) -> (r: Result<(), i64>)
    ensures
        r == unit_reply(reply),
{
    super::fs::chdir(reply)
}

/// The directory for temporary files.
pub fn temp_dir() -> (r: String)
    ensures
        r@ == "/tmp"@,
{
    "/tmp".to_owned()
}

/// The home directory: the variable HOME, given the kernel's reply to
/// reading it and the buffer it wrote.
pub fn home_dir(reply: i64, buf: &[u8]) -> (r: Option<String>)
    requires
        reply <= 0 || reply <= buf@.len(),
    ensures
        r is Some <==> (reply > 0 && valid_utf8(buf@.take(reply as int))),
        r matches Some(s) ==> s@ == decode_utf8(buf@.take(reply as int)),
{
    super::env::getenv(reply, buf)
}

/// The name of the variable `home_dir` reads.
pub fn home_var() -> (r: &'static str)
    ensures
        r@ == "HOME"@,
{
    "HOME"
}

/// The path of the running executable.
pub fn current_exe() -> (r: Result<String, i64>)
    ensures
        r matches Ok(s) && s@ == "/bin/merlionos-program"@,
{
    Ok("/bin/merlionos-program".to_owned())
}

/// The last error number: there is no per-thread errno, so it is 0.
pub fn errno() -> (r: i32)
    ensures
        r == 0,
{
    0
}

/// Setting errno has no effect.
pub fn set_errno(e: i32) {
}

} // verus!
