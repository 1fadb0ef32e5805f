//! merlion_std: a standard library for MerlionOS programs.
//!
//! Every kernel operation is split in two: a function that builds the
//! request (`Syscall`: the number and arguments of an `int 0x80` call) and
//! a function that reads the kernel's reply into the operation's result.
//! The code that traps into the kernel sits outside this crate and hands
//! the reply back. Around that interface stand the parts with logic of
//! their own: a slot map and set with an FNV hasher, the bump heap behind
//! the allocator, socket address text, readiness events and lock words.
use vstd::prelude::*;

pub mod syscall;
pub mod collections;
pub mod alloc_impl;
pub mod io;
pub mod net;
pub mod time;
pub mod os;
pub mod mio;
pub mod text;
pub mod env;
pub mod fs;
pub mod process;
pub mod thread;
pub mod sync;
pub mod sys;
pub mod prelude;

pub use std::string::String;
pub use std::vec::Vec;
pub use std::boxed::Box;

verus! {
} // verus!
