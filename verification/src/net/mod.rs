//! Networking: IPv4 and socket addresses, their text, and TCP streams and
//! listeners over the kernel's TCP syscalls (270-275).
use vstd::prelude::*;

pub mod addr_text;

use vstd::string::StringSliceAdditionalSpecFns;

use self::addr_text::{
    rfind, split_on, parse_uint, rfind_before, parse_uint_in, lemma_split_on_len, lemma_split_on_unfold, dec_digits,
    ascii_chars, push_decimal, lemma_rfind_before_digits, lemma_parse_dec_digits, lemma_rfind_digits,
    lemma_dec_digits_ascii, lemma_ascii_chars, all_ascii, str_eq, all_digits, dec_value, is_digit,
};
use vstd::utf8::encode_utf8;
use crate::io::{Error, Result, is_error};
use crate::syscall::{
    Syscall, is_call, SYS_STD_TCP_LISTEN, SYS_STD_TCP_ACCEPT, SYS_STD_TCP_CONNECT, SYS_STD_TCP_READ,
    SYS_STD_TCP_WRITE, SYS_STD_TCP_SHUTDOWN,
};
use crate::time::Duration;

verus! {

/// An IPv4 address: four octets, most significant first.
#[derive(Clone, Copy, Debug, PartialEq, Eq)]
pub struct Ipv4Addr(pub [u8; 4]);

/// The address with octets `a.b.c.d`.
pub open spec fn ipv4(a: u8, b: u8, c: u8, d: u8) -> Ipv4Addr {
    Ipv4Addr([a, b, c, d])
}

impl Ipv4Addr {
    /// The address `a.b.c.d`.
    pub fn new(a: u8, b: u8, c: u8, d: u8) -> (r: Self)
        ensures
            r == ipv4(a, b, c, d),
    {
        Ipv4Addr([a, b, c, d])
    }

    /// The loopback address 127.0.0.1.
    pub fn localhost() -> (r: Self)
        ensures
            r == ipv4(127, 0, 0, 1),
    {
        Ipv4Addr([127, 0, 0, 1])
    }

    /// The unspecified address 0.0.0.0.
    pub fn unspecified() -> (r: Self)
        ensures
            r == ipv4(0, 0, 0, 0),
    {
        Ipv4Addr([0, 0, 0, 0])
    }

    /// The four octets.
    pub fn octets(&self) -> (r: [u8; 4])
        ensures
            r == self.0,
    {
        self.0
    }
}

/// The text of an address: its four octets in decimal joined by dots.
pub open spec fn ipv4_text(o: Seq<u8>) -> Seq<u8> {
    dec_digits(o[0] as nat) + seq![46u8] + dec_digits(o[1] as nat) + seq![46u8] + dec_digits(
        o[2] as nat,
    ) + seq![46u8] + dec_digits(o[3] as nat)
}

impl Ipv4Addr {
    /// The address as one number, first octet in the high byte (as the
    /// kernel's TCP connect takes it).
    pub fn to_packed(&self) -> (r: u64)
        ensures
            r == self.0[0] * 0x100_0000 + self.0[1] * 0x1_0000 + self.0[2] * 0x100 + self.0[3],
    {
        let a = self.0[0] as u64;
        let b = self.0[1] as u64;
        let c = self.0[2] as u64;
        let d = self.0[3] as u64;
        assert((a << 24u64) | (b << 16u64) | (c << 8u64) | d == a * 0x100_0000 + b * 0x1_0000 + c * 0x100 + d)
            by (bit_vector)
            requires
                a < 256 && b < 256 && c < 256 && d < 256,
        ;
        (a << 24u64) | (b << 16u64) | (c << 8u64) | d
    }

    /// The dotted decimal text, as `Display` prints it.
    pub fn to_string(&self) -> (r: String)
        ensures
            r@ == ascii_chars(ipv4_text(self.0@)),
    {
        let mut out = String::new();
        push_decimal(&mut out, self.0[0] as u64);
        out.append(dot());
        push_decimal(&mut out, self.0[1] as u64);
        out.append(dot());
        push_decimal(&mut out, self.0[2] as u64);
        out.append(dot());
        push_decimal(&mut out, self.0[3] as u64);
        proof {
            assert(out@ =~= ascii_chars(ipv4_text(self.0@)));
        }
        out
    }
}

fn dot() -> (r: &'static str)
    ensures
        r@ == seq![46u8 as char],
{
    proof {
        reveal_strlit(".");
    }
    "."
}

fn colon() -> (r: &'static str)
    ensures
        r@ == seq![58u8 as char],
{
    proof {
        reveal_strlit(":");
    }
    ":"
}

/// An IP address (version 4 only).
#[derive(Clone, Copy, Debug, PartialEq, Eq)]
pub enum IpAddr {
    V4(Ipv4Addr),
}

/// The text of an IP address.
pub open spec fn ip_text(ip: IpAddr) -> Seq<u8> {
    match ip {
        IpAddr::V4(v) => ipv4_text(v.0@),
    }
}

impl IpAddr {
    /// The IPv4 address `a.b.c.d`.
    pub fn new_v4(a: u8, b: u8, c: u8, d: u8) -> (r: Self)
        ensures
            r == IpAddr::V4(ipv4(a, b, c, d)),
    {
        IpAddr::V4(Ipv4Addr::new(a, b, c, d))
    }

    /// The text of the address, as `Display` prints it.
    pub fn to_string(&self) -> (r: String)
        ensures
            r@ == ascii_chars(ip_text(*self)),
    {
        match self {
            IpAddr::V4(v) => v.to_string(),
        }
    }
}

/// An IP address and a port.
#[derive(Clone, Copy, Debug, PartialEq, Eq)]
pub struct SocketAddr {
    pub ip: IpAddr,
    pub port: u16,
}

/// The text of a socket address: the address, a colon, the port.
pub open spec fn socket_addr_text(a: SocketAddr) -> Seq<u8> {
    ip_text(a.ip) + seq![58u8] + dec_digits(a.port as nat)
}

/// The socket address that `ip:port` text denotes: the port follows the
/// last colon, and the address before it is four dot-separated octets.
pub open spec fn socket_addr_spec(s: Seq<u8>) -> Option<SocketAddr> {
    match rfind(s, 58) {
        None => None,
        Some(i) => {
            let f = split_on(s.take(i), 46);
            match parse_uint(s.skip(i + 1), 65535) {
                None => None,
                Some(port) => if f.len() == 4 && parse_uint(f[0], 255) is Some && parse_uint(
                    f[1],
                    255,
                ) is Some && parse_uint(f[2], 255) is Some && parse_uint(f[3], 255) is Some {
                    Some(
                        SocketAddr {
                            ip: IpAddr::V4(
                                ipv4(
                                    parse_uint(f[0], 255).unwrap() as u8,
                                    parse_uint(f[1], 255).unwrap() as u8,
                                    parse_uint(f[2], 255).unwrap() as u8,
                                    parse_uint(f[3], 255).unwrap() as u8,
                                ),
                            ),
                            port: port as u16,
                        },
                    )
                } else {
                    None
                },
            }
        },
    }
}

/// `t` is decimal text for `v`: an optional `+`, then at least one digit,
/// spelling the number `v`.
pub open spec fn decimal_text(t: Seq<u8>, v: nat) -> bool {
    let d = if t.len() > 0 && t[0] == 43 {
        t.drop_first()
    } else {
        t
    };
    &&& d.len() > 0
    &&& all_digits(d)
    &&& dec_value(d) == v
}

/// Octet `k` of an IPv4 socket address.
pub open spec fn octet(a: SocketAddr, k: int) -> nat {
    match a.ip {
        IpAddr::V4(v) => v.0@[k] as nat,
    }
}

/// What a parse reads: the text after the last colon is decimal text for
/// the port, and the text before it is four dot-separated pieces, each
/// decimal text for the matching octet. An octet's text therefore spells a
/// number of at most 255, and it is read whole, never cut down to a byte.
pub proof fn law_parse_reads_octets(s: Seq<u8>)
    requires
        socket_addr_spec(s) is Some,
    ensures
        ({
            let a = socket_addr_spec(s).unwrap();
            let i = rfind(s, 58).unwrap();
            let f = split_on(s.take(i), 46);
            &&& rfind(s, 58) is Some
            &&& decimal_text(s.skip(i + 1), a.port as nat)
            &&& f.len() == 4
            &&& forall|k: int| 0 <= k < 4 ==> #[trigger] decimal_text(f[k], octet(a, k))
        }),
{
    let a = socket_addr_spec(s).unwrap();
    let i = rfind(s, 58).unwrap();
    let f = split_on(s.take(i), 46);
    let IpAddr::V4(v) = a.ip;
    assert(v.0@[0] == parse_uint(f[0], 255).unwrap() as u8);
    assert(v.0@[1] == parse_uint(f[1], 255).unwrap() as u8);
    assert(v.0@[2] == parse_uint(f[2], 255).unwrap() as u8);
    assert(v.0@[3] == parse_uint(f[3], 255).unwrap() as u8);
    assert forall|k: int| 0 <= k < 4 implies #[trigger] decimal_text(f[k], octet(a, k)) by {
        assert(parse_uint(f[k], 255) is Some);
    }
}

/// Text whose octet pieces are not all decimal numbers of at most 255
/// does not parse: with four pieces before the last colon, a piece that
/// is all digits but spells more than 255 gives `None`.
pub proof fn law_parse_rejects_large_octet(s: Seq<u8>, k: int)
    requires
        rfind(s, 58) is Some,
        split_on(s.take(rfind(s, 58).unwrap()), 46).len() == 4,
        0 <= k < 4,
        all_digits(split_on(s.take(rfind(s, 58).unwrap()), 46)[k]),
        dec_value(split_on(s.take(rfind(s, 58).unwrap()), 46)[k]) > 255,
    ensures
        socket_addr_spec(s) is None,
{
    let i = rfind(s, 58).unwrap();
    let f = split_on(s.take(i), 46);
    if socket_addr_spec(s) is Some {
        law_parse_reads_octets(s);
        let a = socket_addr_spec(s).unwrap();
        assert(decimal_text(f[k], octet(a, k)));
        let IpAddr::V4(v) = a.ip;
        assert(octet(a, k) <= 255);
        if f[k].len() > 0 && f[k][0] == 43 {
            assert(is_digit(f[k][0]));
        }
    }
}

/// Reads `ip:port` text given as bytes.
pub fn parse_socket_addr_bytes(b: &[u8]) -> (r: Option<SocketAddr>)
    ensures
        r == socket_addr_spec(b@),
{
    let n = b.len();
    let ghost s = b@;
    proof {
        assert(s.take(n as int) =~= s);
    }
    let colon = match rfind_before(b, n, 58) {
        Some(i) => i,
        None => {
            return None;
        },
    };
    let ghost ip = s.take(colon as int);
    proof {
        assert(s.skip(colon + 1) =~= s.subrange(colon + 1, n as int));
    }
    let port = match parse_uint_in(b, colon + 1, n, 65535) {
        Some(p) => p,
        None => {
            proof {
                assert(rfind(s, 58) == Some(colon as int));
                assert(parse_uint(s.skip(colon + 1), 65535) is None);
            }
            return None;
        },
    };
    proof {
        assert(ip =~= b@.take(colon as int));
    }
    let d3 = match rfind_before(b, colon, 46) {
        Some(i) => i,
        None => {
            proof {
                assert(rfind(s, 58) == Some(colon as int));
                assert(rfind(ip, 46) is None);
                assert(split_on(ip, 46).len() == 1);
            }
            return None;
        },
    };
    proof {
        assert(ip.take(d3 as int) =~= b@.take(d3 as int));
        assert(ip.skip(d3 + 1) =~= b@.subrange(d3 + 1, colon as int));
    }
    let d2 = match rfind_before(b, d3, 46) {
        Some(i) => i,
        None => {
            proof {
                assert(rfind(s, 58) == Some(colon as int));
                lemma_split_on_unfold(ip, 46);
                lemma_split_on_unfold(b@.take(d3 as int), 46);
                assert(split_on(ip, 46).len() == 2);
            }
            return None;
        },
    };
    let ghost p3 = b@.take(d3 as int);
    proof {
        assert(p3.take(d2 as int) =~= b@.take(d2 as int));
        assert(p3.skip(d2 + 1) =~= b@.subrange(d2 + 1, d3 as int));
    }
    let d1 = match rfind_before(b, d2, 46) {
        Some(i) => i,
        None => {
            proof {
                assert(rfind(s, 58) == Some(colon as int));
                lemma_split_on_unfold(ip, 46);
                lemma_split_on_unfold(p3, 46);
                lemma_split_on_unfold(b@.take(d2 as int), 46);
                assert(split_on(ip, 46).len() == 3);
            }
            return None;
        },
    };
    let ghost p2 = b@.take(d2 as int);
    proof {
        assert(p2.take(d1 as int) =~= b@.take(d1 as int));
        assert(p2.skip(d1 + 1) =~= b@.subrange(d1 + 1, d2 as int));
        assert(b@.take(d1 as int) =~= b@.subrange(0, d1 as int));
    }
    if rfind_before(b, d1, 46).is_some() {
        proof {
            assert(rfind(s, 58) == Some(colon as int));
            let p1 = b@.take(d1 as int);
            let e = rfind(p1, 46).unwrap();
            lemma_split_on_unfold(ip, 46);
            lemma_split_on_unfold(p3, 46);
            lemma_split_on_unfold(p2, 46);
            lemma_split_on_unfold(p1, 46);
            lemma_split_on_len(p1.take(e), 46);
            assert(split_on(ip, 46).len() >= 5);
        }
        return None;
    }
    let ghost f = split_on(ip, 46);
    proof {
        assert(rfind(s, 58) == Some(colon as int));
        lemma_split_on_unfold(ip, 46);
        lemma_split_on_unfold(p3, 46);
        lemma_split_on_unfold(p2, 46);
        lemma_split_on_unfold(b@.take(d1 as int), 46);
        assert(f.len() == 4);
        assert(f[0] == b@.subrange(0, d1 as int));
        assert(f[1] == b@.subrange(d1 + 1, d2 as int));
        assert(f[2] == b@.subrange(d2 + 1, d3 as int));
        assert(f[3] == b@.subrange(d3 + 1, colon as int));
    }
    let o0 = match parse_uint_in(b, 0, d1, 255) {
        Some(v) => v,
        None => {
            return None;
        },
    };
    let o1 = match parse_uint_in(b, d1 + 1, d2, 255) {
        Some(v) => v,
        None => {
            return None;
        },
    };
    let o2 = match parse_uint_in(b, d2 + 1, d3, 255) {
        Some(v) => v,
        None => {
            return None;
        },
    };
    let o3 = match parse_uint_in(b, d3 + 1, colon, 255) {
        Some(v) => v,
        None => {
            return None;
        },
    };
    Some(
        SocketAddr {
            ip: IpAddr::V4(Ipv4Addr::new(o0 as u8, o1 as u8, o2 as u8, o3 as u8)),
            port: port as u16,
        },
    )
}

impl SocketAddr {
    /// The address `ip` with `port`.
    pub fn new(ip: IpAddr, port: u16) -> (r: Self)
        ensures
            r.ip == ip,
            r.port == port,
    {
        SocketAddr { ip, port }
    }

    /// The IP address.
    pub fn ip(&self) -> (r: &IpAddr)
        ensures
            *r == self.ip,
    {
        &self.ip
    }

    /// The port.
    pub fn port(&self) -> (r: u16)
        ensures
            r == self.port,
    {
        self.port
    }

    /// Reads `a.b.c.d:port` text; `None` unless the text after the last
    /// colon is a port and the text before it is four octets.
    pub fn parse(s: &str) -> (r: Option<Self>)
        ensures
            r == socket_addr_spec(s.spec_bytes()),
    {
        parse_socket_addr_bytes(s.as_bytes())
    }

    /// The `address:port` text, as `Display` prints it.
    pub fn to_string(&self) -> (r: String)
        ensures
            r@ == ascii_chars(socket_addr_text(*self)),
    {
        let mut out = self.ip.to_string();
        out.append(colon());
        push_decimal(&mut out, self.port as u64);
        proof {
            assert(out@ =~= ascii_chars(socket_addr_text(*self)));
        }
        out
    }
}

/// The socket address of an IPv4 address and a port.
pub fn socket_addr_v4(ip: Ipv4Addr, port: u16) -> (r: SocketAddr)
    ensures
        r == (SocketAddr { ip: IpAddr::V4(ip), port }),
{
    SocketAddr::new(IpAddr::V4(ip), port)
}

/// Reading back the text that `to_string` prints gives the same socket
/// address: `SocketAddr::parse(&a.to_string()) == Some(a)`.
pub proof fn law_parse_to_string(a: SocketAddr)
    ensures
        socket_addr_spec(encode_utf8(ascii_chars(socket_addr_text(a)))) == Some(a),
{
    let t = socket_addr_text(a);
    let IpAddr::V4(v) = a.ip;
    let o = v.0@;
    lemma_dec_digits_ascii(o[0] as nat);
    lemma_dec_digits_ascii(o[1] as nat);
    lemma_dec_digits_ascii(o[2] as nat);
    lemma_dec_digits_ascii(o[3] as nat);
    lemma_dec_digits_ascii(a.port as nat);
    assert(all_ascii(t));
    lemma_ascii_chars(t);
    law_parse_text(a);
}

/// The text of a socket address reads back as that address.
pub proof fn law_parse_text(a: SocketAddr)
    ensures
        socket_addr_spec(socket_addr_text(a)) == Some(a),
{
    let IpAddr::V4(v) = a.ip;
    let o = v.0@;
    let d0 = dec_digits(o[0] as nat);
    let d1 = dec_digits(o[1] as nat);
    let d2 = dec_digits(o[2] as nat);
    let d3 = dec_digits(o[3] as nat);
    let ip = ipv4_text(o);
    let t = socket_addr_text(a);
    lemma_rfind_before_digits(ip, 58, a.port as nat);
    lemma_parse_dec_digits(a.port as nat, 65535);
    let p2 = d0 + seq![46u8] + d1 + seq![46u8] + d2;
    let p1 = d0 + seq![46u8] + d1;
    assert(ip =~= p2 + seq![46u8] + d3);
    assert(p2 =~= p1 + seq![46u8] + d2);
    lemma_rfind_before_digits(p2, 46, o[3] as nat);
    lemma_rfind_before_digits(p1, 46, o[2] as nat);
    lemma_rfind_before_digits(d0, 46, o[1] as nat);
    lemma_rfind_digits(o[0] as nat, 46);
    lemma_split_on_unfold(ip, 46);
    lemma_split_on_unfold(p2, 46);
    lemma_split_on_unfold(p1, 46);
    lemma_split_on_unfold(d0, 46);
    let f = split_on(ip, 46);
    assert(f =~= seq![d0, d1, d2, d3]);
    lemma_parse_dec_digits(o[0] as nat, 255);
    lemma_parse_dec_digits(o[1] as nat, 255);
    lemma_parse_dec_digits(o[2] as nat, 255);
    lemma_parse_dec_digits(o[3] as nat, 255);
    assert(v.0 =~= [o[0], o[1], o[2], o[3]]);
}

/// Something that names a socket address.
pub trait ToSocketAddr {
    /// The address this names.
    spec fn socket_addr_of(&self) -> SocketAddr;

    /// The address this names.
    fn to_socket_addr(&self) -> (r: SocketAddr)
        ensures
            r == self.socket_addr_of(),
    ;
}

impl ToSocketAddr for SocketAddr {
    open spec fn socket_addr_of(&self) -> SocketAddr {
        *self
    }

    fn to_socket_addr(&self) -> (r: SocketAddr) {
        *self
    }
}

/// The address a host name and port stand for: "127.0.0.1" and
/// "localhost" are the loopback address, any other host the unspecified one.
pub open spec fn host_port_addr(host: Seq<char>, port: u16) -> SocketAddr {
    let ip = if host == "0.0.0.0"@ || host == ""@ {
        ipv4(0, 0, 0, 0)
    } else if host == "127.0.0.1"@ || host == "localhost"@ {
        ipv4(127, 0, 0, 1)
    } else {
        ipv4(0, 0, 0, 0)
    };
    SocketAddr { ip: IpAddr::V4(ip), port }
}

impl<'a> ToSocketAddr for (&'a str, u16) {
    open spec fn socket_addr_of(&self) -> SocketAddr {
        host_port_addr(self.0@, self.1)
    }

    fn to_socket_addr(&self) -> (r: SocketAddr) {
        let ip = if str_eq(self.0, "0.0.0.0") || str_eq(self.0, "") {
            Ipv4Addr::unspecified()
        } else if str_eq(self.0, "127.0.0.1") || str_eq(self.0, "localhost") {
            Ipv4Addr::localhost()
        } else {
            Ipv4Addr::unspecified()
        };
        SocketAddr::new(IpAddr::V4(ip), self.1)
    }
}

/// The address `ip:port` text names, or 0.0.0.0:0 when it names none.
pub open spec fn text_addr(s: Seq<u8>) -> SocketAddr {
    match socket_addr_spec(s) {
        Some(a) => a,
        None => SocketAddr { ip: IpAddr::V4(ipv4(0, 0, 0, 0)), port: 0 },
    }
}

impl<'a> ToSocketAddr for &'a str {
    open spec fn socket_addr_of(&self) -> SocketAddr {
        text_addr((*self).spec_bytes())
    }

    fn to_socket_addr(&self) -> (r: SocketAddr) {
        match SocketAddr::parse(self) {
            Some(a) => a,
            None => SocketAddr::new(IpAddr::V4(Ipv4Addr::unspecified()), 0),
        }
    }
}

/// A TCP listener: the kernel's listener id and the address it was bound to.
pub struct TcpListener {
    pub id: i64,
    pub addr: SocketAddr,
}

/// A TCP connection, by the kernel's stream id.
pub struct TcpStream {
    pub id: i64,
}

/// Which halves of a connection to shut down.
pub enum Shutdown {
    Read,
    Write,
    Both,
}

impl TcpListener {
    /// The request that listens on the port of `addr` with a backlog of 128.
    pub fn bind_syscall<A: ToSocketAddr>(addr: &A) -> (r: Syscall)
        ensures
            is_call(r, SYS_STD_TCP_LISTEN, seq![addr.socket_addr_of().port as u64, 128]),
    {
        let sa = addr.to_socket_addr();
        Syscall::new2(SYS_STD_TCP_LISTEN, sa.port as u64, 128)
    }

    /// The listener for `addr`, given the kernel's reply to the listen
    /// request; a negative reply is the error "bind failed".
    pub fn bind<A: ToSocketAddr>(addr: A, reply: i64) -> (r: Result<TcpListener>)
        ensures
            match r {
                Ok(l) => reply >= 0 && l.id == reply && l.addr == addr.socket_addr_of(),
                Err(e) => reply < 0 && is_error(e, reply, "bind failed"),
            },
    {
        let sa = addr.to_socket_addr();
        if reply < 0 {
            Err(Error::new(reply, "bind failed"))
        } else {
            Ok(TcpListener { id: reply, addr: sa })
        }
    }

    /// The request that accepts a connection.
    pub fn accept_syscall(&self) -> (r: Syscall)
        ensures
            is_call(r, SYS_STD_TCP_ACCEPT, seq![self.id as u64]),
    {
        Syscall::new1(SYS_STD_TCP_ACCEPT, self.id as u64)
    }

    /// The accepted connection and its peer (reported as 0.0.0.0:0), given
    /// the kernel's reply; a negative reply is the error "accept failed".
    pub fn accept(&self, reply: i64) -> (r: Result<(TcpStream, SocketAddr)>)
        ensures
            match r {
                Ok((s, peer)) => reply >= 0 && s.id == reply && peer == (SocketAddr {
                    ip: IpAddr::V4(ipv4(0, 0, 0, 0)),
                    port: 0,
                }),
                Err(e) => reply < 0 && is_error(e, reply, "accept failed"),
            },
    {
        if reply < 0 {
            Err(Error::new(reply, "accept failed"))
        } else {
            Ok((TcpStream { id: reply }, SocketAddr::new(IpAddr::V4(Ipv4Addr::unspecified()), 0)))
        }
    }

    /// The address the listener was bound to.
    pub fn local_addr(&self) -> (r: Result<SocketAddr>)
        ensures
            r matches Ok(a) && a == self.addr,
    {
        Ok(self.addr)
    }

    /// The kernel's listener id.
    pub fn raw_id(&self) -> (r: i64)
        ensures
            r == self.id,
    {
        self.id
    }
}

impl TcpStream {
    /// The request that connects to `addr`: the address packed into one
    /// number, then the port.
    pub fn connect_syscall<A: ToSocketAddr>(addr: &A) -> (r: Syscall)
        ensures
            ({
                let sa = addr.socket_addr_of();
                let IpAddr::V4(v) = sa.ip;
                is_call(
                    r,
                    SYS_STD_TCP_CONNECT,
                    seq![
                        (v.0[0] * 0x100_0000 + v.0[1] * 0x1_0000 + v.0[2] * 0x100 + v.0[3]) as u64,
                        sa.port as u64,
                    ],
                )
            }),
    {
        let sa = addr.to_socket_addr();
        let ip = match sa.ip {
            IpAddr::V4(v4) => v4,
        };
        Syscall::new2(SYS_STD_TCP_CONNECT, ip.to_packed(), sa.port as u64)
    }

    /// The connection, given the kernel's reply to the connect request; a
    /// negative reply is the error "connect failed".
    pub fn connect(reply: i64) -> (r: Result<TcpStream>)
        ensures
            match r {
                Ok(s) => reply >= 0 && s.id == reply,
                Err(e) => reply < 0 && is_error(e, reply, "connect failed"),
            },
    {
        if reply < 0 {
            Err(Error::new(reply, "connect failed"))
        } else {
            Ok(TcpStream { id: reply })
        }
    }

    /// The request that shuts the connection down (both halves, whatever
    /// is asked).
    pub fn shutdown_syscall(&self) -> (r: Syscall)
        ensures
            is_call(r, SYS_STD_TCP_SHUTDOWN, seq![self.id as u64]),
    {
        Syscall::new1(SYS_STD_TCP_SHUTDOWN, self.id as u64)
    }

    /// The outcome of a shutdown, given the kernel's reply; a negative reply
    /// is the error "shutdown failed".
    pub fn shutdown(&self, how: Shutdown, reply: i64) -> (r: Result<()>)
        ensures
            match r {
                Ok(()) => reply >= 0,
                Err(e) => reply < 0 && is_error(e, reply, "shutdown failed"),
            },
    {
        if reply < 0 {
            Err(Error::new(reply, "shutdown failed"))
        } else {
            Ok(())
        }
    }

    /// Another handle on the same connection.
    pub fn try_clone(&self) -> (r: Result<TcpStream>)
        ensures
            r matches Ok(s) && s.id == self.id,
    {
        Ok(TcpStream { id: self.id })
    }

    /// Sets TCP_NODELAY; the kernel has no such option, so this succeeds.
    pub fn set_nodelay(&self, nodelay: bool) -> (r: Result<()>)
        ensures
            r is Ok,
    {
        Ok(())
    }

    /// Sets a read timeout; reads do not time out here, so this succeeds.
    pub fn set_read_timeout(&self, dur: Option<Duration>) -> (r: Result<()>)
        ensures
            r is Ok,
    {
        Ok(())
    }

    /// The kernel's stream id.
    pub fn raw_id(&self) -> (r: i64)
        ensures
            r == self.id,
    {
        self.id
    }

    /// The request that reads up to `len` bytes into the buffer at `addr`
    /// (stream id, length, then address).
    pub fn read_syscall(&self, addr: u64, len: usize) -> (r: Syscall)
        ensures
            is_call(r, SYS_STD_TCP_READ, seq![self.id as u64, len as u64, addr]),
    {
        Syscall::new3(SYS_STD_TCP_READ, self.id as u64, len as u64, addr)
    }

    /// The byte count read, given the kernel's reply; a negative reply is
    /// the error "read failed".
    pub fn read(&self, reply: i64) -> (r: Result<usize>)
        ensures
            match r {
                Ok(n) => reply >= 0 && n == reply as usize,
                Err(e) => reply < 0 && is_error(e, reply, "read failed"),
            },
    {
        if reply < 0 {
            Err(Error::new(reply, "read failed"))
        } else {
            Ok(reply as usize)
        }
    }

    /// The request that writes `len` bytes from the buffer at `addr`
    /// (stream id, address, then length).
    pub fn write_syscall(&self, addr: u64, len: usize) -> (r: Syscall)
        ensures
            is_call(r, SYS_STD_TCP_WRITE, seq![self.id as u64, addr, len as u64]),
    {
        Syscall::new3(SYS_STD_TCP_WRITE, self.id as u64, addr, len as u64)
    }

    /// The byte count written, given the kernel's reply; a negative reply is
    /// the error "write failed".
    pub fn write(&self, reply: i64) -> (r: Result<usize>)
        ensures
            match r {
                Ok(n) => reply >= 0 && n == reply as usize,
                Err(e) => reply < 0 && is_error(e, reply, "write failed"),
            },
    {
        if reply < 0 {
            Err(Error::new(reply, "write failed"))
        } else {
            Ok(reply as usize)
        }
    }
}

} // verus!
