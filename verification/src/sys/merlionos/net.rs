//! Sockets over the kernel's BSD-style calls (130-136), as std's Unix
//! `net` module does.
use vstd::prelude::*;
use crate::syscall::{
    Syscall, is_call, count_reply, unit_reply, read_count, read_unit, SYS_SOCKET, SYS_CONNECT,
    SYS_BIND, SYS_LISTEN, SYS_ACCEPT, SYS_SENDTO, SYS_RECVFROM, SYS_SHUTDOWN, SYS_SETSOCKOPT,
};
use super::fd::{FileDesc, RawFd};

verus! {

/// The address family of IPv4 (AF_INET).
pub const AF_INET: u8 = 2;

/// The length of an IPv4 socket address as passed to the kernel.
pub const SOCKADDR_IN_LEN: u64 = 8;

/// The option level of TCP (IPPROTO_TCP).
pub const IPPROTO_TCP: u64 = 6;

/// The option that turns off Nagle's algorithm (TCP_NODELAY).
pub const TCP_NODELAY: u64 = 1;

/// An IPv4 socket address as the kernel reads it: the family as two bytes
/// (0, 2), the port in network byte order, then the four octets.
pub open spec fn sockaddr_in_spec(ip: [u8; 4], port: u16) -> Seq<u8> {
    seq![0u8, AF_INET, (port / 256) as u8, (port % 256) as u8, ip[0], ip[1], ip[2], ip[3]]
}

/// Lays out an IPv4 socket address for the kernel.
pub fn sockaddr_in(ip: [u8; 4], port: u16) -> (r: [u8; 8])
    ensures
        r@ == sockaddr_in_spec(ip, port),
{
    let hi = (port >> 8u16) as u8;
    let lo = (port & 0xFF) as u8;
    assert(hi == (port / 256) as u8 && lo == (port % 256) as u8) by (bit_vector)
        requires
            hi == (port >> 8u16) as u8,
            lo == (port & 0xFF) as u8,
    ;
    let r = [0u8, AF_INET, hi, lo, ip[0], ip[1], ip[2], ip[3]];
    proof {
        assert(r@ =~= sockaddr_in_spec(ip, port));
    }
    r
}

/// The port in a laid-out socket address reads back, high byte first.
pub proof fn law_sockaddr_port(ip: [u8; 4], port: u16)
    ensures
        sockaddr_in_spec(ip, port)[2] * 256 + sockaddr_in_spec(ip, port)[3] == port,
        sockaddr_in_spec(ip, port).subrange(4, 8) == ip@,
{
    assert(sockaddr_in_spec(ip, port).subrange(4, 8) =~= ip@);
}

/// The option word of setsockopt: the level above bit 16, the option name
/// (to 16 bits) below.
pub open spec fn option_word(level: u64, name: u64) -> u64 {
    (level << 16u64) | (name & 0xFFFF)
}

/// A socket, by its descriptor.
pub struct Socket(pub FileDesc);

/// The socket a reply denotes, or its error code.
pub open spec fn socket_reply(reply: i64) -> Result<Socket, i64> {
    if reply < 0 {
        Err(reply)
    } else {
        Ok(Socket(FileDesc { fd: reply as i32 }))
    }
}

impl Socket {
    /// The request that creates a socket.
    pub fn new_syscall(domain: i32, sock_type: i32, protocol: i32) -> (r: Syscall)
        ensures
            is_call(r, SYS_SOCKET, seq![domain as u64, sock_type as u64, protocol as u64]),
    {
        Syscall::new3(SYS_SOCKET, domain as u64, sock_type as u64, protocol as u64)
    }

    /// The socket, given the kernel's reply (its low 32 bits are the
    /// descriptor).
    pub fn new(reply: i64) -> (r: Result<Socket, i64>)
        ensures
            r == socket_reply(reply),
    {
        if reply < 0 {
            Err(reply)
        } else {
            Ok(Socket(FileDesc::new(reply as RawFd)))
        }
    }

    /// The request that connects to the socket address laid out at `addr`
    /// (see [`sockaddr_in`]).
    pub fn connect_syscall(&self, addr: u64) -> (r: Syscall)
        ensures
            is_call(r, SYS_CONNECT, seq![self.0.fd as u64, addr, SOCKADDR_IN_LEN]),
    {
        Syscall::new3(SYS_CONNECT, self.0.raw() as u64, addr, SOCKADDR_IN_LEN)
    }

    /// The outcome of connecting, given the kernel's reply.
    pub fn connect(&self, reply: i64) -> (r: Result<(), i64>)
        ensures
            r == unit_reply(reply),
    {
        read_unit(reply)
    }

    /// The request that binds to the socket address laid out at `addr`.
    pub fn bind_syscall(&self, addr: u64) -> (r: Syscall)
        ensures
            is_call(r, SYS_BIND, seq![self.0.fd as u64, addr, SOCKADDR_IN_LEN]),
    {
        Syscall::new3(SYS_BIND, self.0.raw() as u64, addr, SOCKADDR_IN_LEN)
    }

    /// The outcome of binding, given the kernel's reply.
    pub fn bind(&self, reply: i64) -> (r: Result<(), i64>)
        ensures
            r == unit_reply(reply),
    {
        read_unit(reply)
    }

    /// The request that listens with a queue of `backlog`.
    pub fn listen_syscall(&self, backlog: i32) -> (r: Syscall)
        ensures
            is_call(r, SYS_LISTEN, seq![self.0.fd as u64, backlog as u64]),
    {
        Syscall::new2(SYS_LISTEN, self.0.raw() as u64, backlog as u64)
    }

    /// The outcome of listening, given the kernel's reply.
    pub fn listen(&self, reply: i64) -> (r: Result<(), i64>)
        ensures
            r == unit_reply(reply),
    {
        read_unit(reply)
    }

    /// The request that accepts a connection.
    pub fn accept_syscall(&self) -> (r: Syscall)
        ensures
            is_call(r, SYS_ACCEPT, seq![self.0.fd as u64]),
    {
        Syscall::new1(SYS_ACCEPT, self.0.raw() as u64)
    }

    /// The accepted connection's socket, given the kernel's reply.
    pub fn accept(&self, reply: i64) -> (r: Result<Socket, i64>)
        ensures
            r == socket_reply(reply),
    {
        Socket::new(reply)
    }

    /// The request that sends `len` bytes from the buffer at `addr`.
    pub fn send_syscall(&self, addr: u64, len: usize) -> (r: Syscall)
        ensures
            is_call(r, SYS_SENDTO, seq![self.0.fd as u64, addr, len as u64]),
    {
        Syscall::new3(SYS_SENDTO, self.0.raw() as u64, addr, len as u64)
    }

    /// The byte count sent, given the kernel's reply.
    pub fn send(&self, reply: i64) -> (r: Result<usize, i64>)
        ensures
            r == count_reply(reply),
    {
        read_count(reply)
    }

    /// The request that receives up to `len` bytes into the buffer at `addr`.
    pub fn recv_syscall(&self, addr: u64, len: usize) -> (r: Syscall)
        ensures
            is_call(r, SYS_RECVFROM, seq![self.0.fd as u64, addr, len as u64]),
    {
        Syscall::new3(SYS_RECVFROM, self.0.raw() as u64, addr, len as u64)
    }

    /// The byte count received, given the kernel's reply.
    pub fn recv(&self, reply: i64) -> (r: Result<usize, i64>)
        ensures
            r == count_reply(reply),
    {
        read_count(reply)
    }

    /// The request that shuts down the halves `how` names.
    pub fn shutdown_syscall(&self, how: i32) -> (r: Syscall)
        ensures
            is_call(r, SYS_SHUTDOWN, seq![self.0.fd as u64, how as u64]),
    {
        Syscall::new2(SYS_SHUTDOWN, self.0.raw() as u64, how as u64)
    }

    /// The outcome of a shutdown, given the kernel's reply.
    pub fn shutdown(&self, reply: i64) -> (r: Result<(), i64>)
        ensures
            r == unit_reply(reply),
    {
        read_unit(reply)
    }

    /// The request that sets TCP_NODELAY on or off.
    pub fn set_nodelay_syscall(&self, nodelay: bool) -> (r: Syscall)
        ensures
            is_call(
                r,
                SYS_SETSOCKOPT,
                seq![self.0.fd as u64, option_word(IPPROTO_TCP, TCP_NODELAY), if nodelay { 1u64 } else { 0u64 }],
            ),
    {
        let val: u32 = if nodelay {
            1
        } else {
            0
        };
        let level_opt = (IPPROTO_TCP << 16u64) | TCP_NODELAY;
        assert(level_opt == option_word(IPPROTO_TCP, TCP_NODELAY)) by (bit_vector)
            requires
                level_opt == (6u64 << 16u64) | 1u64,
        ;
        Syscall::new3(SYS_SETSOCKOPT, self.0.raw() as u64, level_opt, val as u64)
    }

    /// The outcome of setting TCP_NODELAY, given the kernel's reply.
    pub fn set_nodelay(&self, reply: i64) -> (r: Result<(), i64>)
        ensures
            r == unit_reply(reply),
    {
        read_unit(reply)
    }

    /// The outcome of setting non-blocking mode, given the kernel's reply to
    /// the descriptor's request.
    pub fn set_nonblocking(&self, reply: i64) -> (r: Result<(), i64>)
        ensures
            r == unit_reply(reply),
    {
        self.0.set_nonblocking(reply)
    }

    /// The socket's descriptor.
    pub fn fd(&self) -> (r: &FileDesc)
        ensures
            *r == self.0,
    {
        &self.0
    }

    /// The descriptor number.
    pub fn raw_fd(&self) -> (r: RawFd)
        ensures
            r == self.0.fd,
    {
        self.0.raw()
    }

    /// The request that sets option `name` at `level` to `val`.
    pub fn setsockopt_syscall(&self, level: i32, name: i32, val: i32) -> (r: Syscall)
        ensures
            is_call(
                r,
                SYS_SETSOCKOPT,
                seq![self.0.fd as u64, option_word(level as u64, name as u64), val as u64],
            ),
    {
        let level_opt = ((level as u64) << 16u64) | (name as u64 & 0xFFFF);
        Syscall::new3(SYS_SETSOCKOPT, self.0.raw() as u64, level_opt, val as u64)
    }

    /// The outcome of setting an option, given the kernel's reply.
    pub fn setsockopt(&self, reply: i64) -> (r: Result<(), i64>)
        ensures
            r == unit_reply(reply),
    {
        read_unit(reply)
    }
}

} // verus!
