//! Thread-local storage through the kernel's TLS calls (257-259).
use vstd::prelude::*;
use crate::syscall::{Syscall, is_call, SYS_TLS_KEY_CREATE, SYS_TLS_SET, SYS_TLS_GET};

verus! {

/// A TLS key.
pub type Key = u32;

/// The request that creates a key.
pub fn create_syscall() -> (r: Syscall)
    ensures
        is_call(r, SYS_TLS_KEY_CREATE, seq![]),
{
    Syscall::new0(SYS_TLS_KEY_CREATE)
}

/// The key, from the kernel's reply (its low 32 bits).
pub fn create(reply: i64) -> (r: Key)
    ensures
        r == reply as u32,
{
    reply as Key
}

/// The request that stores `value` under `key` for this thread.
pub fn set(key: Key, value: u64) -> (r: Syscall)
    ensures
        is_call(r, SYS_TLS_SET, seq![key as u64, value]),
{
    Syscall::new2(SYS_TLS_SET, key as u64, value)
}

/// The request for this thread's value under `key`.
pub fn get_syscall(key: Key) -> (r: Syscall)
    ensures
        is_call(r, SYS_TLS_GET, seq![key as u64]),
{
    Syscall::new1(SYS_TLS_GET, key as u64)
}

/// The value, from the kernel's reply (taken as unsigned).
pub fn get(reply: i64) -> (r: u64)
    ensures
        r == reply as u64,
{
    reply as u64
}

/// Keys are never destroyed: nothing happens.
pub fn destroy(key: Key) {
}

} // verus!
