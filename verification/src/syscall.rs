//! The MerlionOS kernel interface: syscall numbers, the shape of a
//! request (`int 0x80`, number in rax, arguments in rdi, rsi, rdx, reply
//! in rax), and how a reply is read: a negative reply is an error code.
use vstd::prelude::*;

verus! {

pub const SYS_WRITE: u64 = 0;
pub const SYS_EXIT: u64 = 1;
pub const SYS_YIELD: u64 = 2;
pub const SYS_GETPID: u64 = 3;
pub const SYS_SLEEP: u64 = 4;
pub const SYS_OPEN: u64 = 100;
pub const SYS_READ: u64 = 101;
pub const SYS_CLOSE: u64 = 102;
pub const SYS_STAT: u64 = 103;
pub const SYS_MKDIR: u64 = 105;
pub const SYS_UNLINK: u64 = 106;
pub const SYS_READDIR: u64 = 107;
pub const SYS_CHDIR: u64 = 108;
pub const SYS_GETCWD: u64 = 109;
pub const SYS_FORK: u64 = 110;
pub const SYS_EXEC: u64 = 111;
pub const SYS_WAITPID: u64 = 112;
pub const SYS_BRK: u64 = 113;
pub const SYS_GETPPID: u64 = 114;
pub const SYS_KILL: u64 = 115;
pub const SYS_EXIT_CODE: u64 = 1;
pub const SYS_MMAP: u64 = 120;
pub const SYS_SOCKET: u64 = 130;
pub const SYS_CONNECT: u64 = 131;
pub const SYS_SENDTO: u64 = 132;
pub const SYS_RECVFROM: u64 = 133;
pub const SYS_BIND: u64 = 134;
pub const SYS_LISTEN: u64 = 135;
pub const SYS_ACCEPT: u64 = 136;
pub const SYS_TIME: u64 = 140;
pub const SYS_NANOSLEEP: u64 = 141;
pub const SYS_CLOCK_MONOTONIC: u64 = 255;
pub const SYS_GETTIMEOFDAY: u64 = 254;
pub const SYS_PIPE: u64 = 151;
pub const SYS_DUP2: u64 = 152;
pub const SYS_FWRITE: u64 = 195;
pub const SYS_GETENV: u64 = 269;
pub const SYS_EPOLL_CREATE: u64 = 230;
pub const SYS_EPOLL_CTL: u64 = 231;
pub const SYS_EPOLL_WAIT: u64 = 232;
pub const SYS_MUTEX_CREATE: u64 = 233;
pub const SYS_MUTEX_LOCK: u64 = 234;
pub const SYS_MUTEX_UNLOCK: u64 = 235;
pub const SYS_MUTEX_DESTROY: u64 = 236;
pub const SYS_CONDVAR_CREATE: u64 = 237;
pub const SYS_CONDVAR_WAIT: u64 = 238;
pub const SYS_CONDVAR_SIGNAL: u64 = 239;
pub const SYS_FUTEX_WAIT: u64 = 241;
pub const SYS_FUTEX_WAKE: u64 = 242;
pub const SYS_FCNTL: u64 = 243;
pub const SYS_SETSOCKOPT: u64 = 244;
pub const SYS_TLS_KEY_CREATE: u64 = 257;
pub const SYS_TLS_SET: u64 = 258;
pub const SYS_TLS_GET: u64 = 259;
pub const SYS_EVENTFD: u64 = 260;
pub const SYS_EVENTFD_WRITE: u64 = 262;
pub const SYS_SHUTDOWN: u64 = 268;
pub const SYS_CLONE: u64 = 190;
pub const SYS_GETRANDOM: u64 = 266;
pub const SYS_STD_TCP_LISTEN: u64 = 270;
pub const SYS_STD_TCP_ACCEPT: u64 = 271;
pub const SYS_STD_TCP_CONNECT: u64 = 272;
pub const SYS_STD_TCP_READ: u64 = 273;
pub const SYS_STD_TCP_WRITE: u64 = 274;
pub const SYS_STD_TCP_SHUTDOWN: u64 = 275;
pub const SYS_STD_FILE_OPEN: u64 = 276;
pub const SYS_STD_FILE_READ: u64 = 277;
pub const SYS_STD_FILE_WRITE: u64 = 278;
pub const SYS_STD_FILE_CLOSE: u64 = 279;
pub const SYS_STD_THREAD_SLEEP: u64 = 285;
pub const SYS_STD_INSTANT_NOW: u64 = 286;
pub const SYS_STD_SYSTEM_TIME: u64 = 287;
pub const SYS_STD_CURRENT_DIR: u64 = 289;
pub const SYS_STD_SPAWN_PROCESS: u64 = 290;

/// One kernel request: the syscall number and its arguments in register order.
pub struct Syscall {
    pub num: u64,
    pub args: Vec<u64>,
}

impl Syscall {
    /// A request with no arguments.
    pub fn new0(num: u64) -> (r: Syscall)
        ensures
            r.num == num,
            r.args@ == Seq::<u64>::empty(),
    {
        Syscall { num, args: Vec::new() }
    }

    /// A request with one argument.
    pub fn new1(num: u64, a1: u64) -> (r: Syscall)
        ensures
            r.num == num,
            r.args@ == seq![a1],
    {
        Syscall { num, args: vec![a1] }
    }

    /// A request with two arguments.
    pub fn new2(num: u64, a1: u64, a2: u64) -> (r: Syscall)
        ensures
            r.num == num,
            r.args@ == seq![a1, a2],
    {
        Syscall { num, args: vec![a1, a2] }
    }

    /// A request with three arguments.
    pub fn new3(num: u64, a1: u64, a2: u64, a3: u64) -> (r: Syscall)
        ensures
            r.num == num,
            r.args@ == seq![a1, a2, a3],
    {
        Syscall { num, args: vec![a1, a2, a3] }
    }
}

/// The request `num(args)`, as a value to compare against.
pub open spec fn is_call(s: Syscall, num: u64, args: Seq<u64>) -> bool {
    s.num == num && s.args@ == args
}

/// A reply read as a count: the count when non-negative, else the error code.
pub open spec fn count_reply(n: i64) -> Result<usize, i64> {
    if n < 0 {
        Err(n)
    } else {
        Ok(n as usize)
    }
}

/// A reply that only reports success or an error code.
pub open spec fn unit_reply(n: i64) -> Result<(), i64> {
    if n < 0 {
        Err(n)
    } else {
        Ok(())
    }
}

/// Reads a reply as a count.
pub fn read_count(n: i64) -> (r: Result<usize, i64>)
    ensures
        r == count_reply(n),
{
    if n < 0 {
        Err(n)
    } else {
        Ok(n as usize)
    }
}

/// Reads a reply that only reports success or an error code.
pub fn read_unit(n: i64) -> (r: Result<(), i64>)
    ensures
        r == unit_reply(n),
{
    if n < 0 {
        Err(n)
    } else {
        Ok(())
    }
}

} // verus!
