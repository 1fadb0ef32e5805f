//! File descriptors: the raw descriptor type and the traits for handles
//! that have one.
use vstd::prelude::*;

verus! {

/// A raw file descriptor.
pub type RawFd = i32;

/// A handle that exposes its raw file descriptor.
pub trait AsRawFd {
    fn as_raw_fd(&self) -> RawFd;
}

/// A handle that can be turned into its raw file descriptor.
pub trait IntoRawFd {
    fn into_raw_fd(self) -> RawFd;
}

/// A file descriptor owned by its holder (closed when the holder is done
/// with it).
pub struct OwnedFd {
    pub fd: RawFd,
}

impl OwnedFd {
    /// Takes ownership of `fd`.
    pub fn new(fd: RawFd) -> (r: Self)
        ensures
            r.fd == fd,
    {
        OwnedFd { fd }
    }
}

impl AsRawFd for OwnedFd {
    fn as_raw_fd(&self) -> (r: RawFd)
        ensures
            r == self.fd,
    {
        self.fd
    }
}

impl AsRawFd for crate::net::TcpListener {
    fn as_raw_fd(&self) -> (r: RawFd)
        ensures
            r == self.id as i32,
    {
        self.raw_id() as RawFd
    }
}

impl AsRawFd for crate::net::TcpStream {
    fn as_raw_fd(&self) -> (r: RawFd)
        ensures
            r == self.id as i32,
    {
        self.raw_id() as RawFd
    }
}

} // verus!
