use merlion_std::net::{
    IpAddr, Ipv4Addr, SocketAddr, Shutdown, TcpListener, TcpStream, ToSocketAddr, socket_addr_v4,
};
use merlion_std::syscall::{SYS_STD_TCP_ACCEPT, SYS_STD_TCP_CONNECT, SYS_STD_TCP_LISTEN, SYS_STD_TCP_READ, SYS_STD_TCP_SHUTDOWN, SYS_STD_TCP_WRITE};
use merlion_std::time::Duration;

fn v4(a: u8, b: u8, c: u8, d: u8, port: u16) -> SocketAddr {
    SocketAddr::new(IpAddr::new_v4(a, b, c, d), port)
}

#[test]
fn parse_plain_address() {
    assert_eq!(SocketAddr::parse("127.0.0.1:8080"), Some(v4(127, 0, 0, 1, 8080)));
    assert_eq!(SocketAddr::parse("0.0.0.0:0"), Some(v4(0, 0, 0, 0, 0)));
    assert_eq!(SocketAddr::parse("255.255.255.255:65535"), Some(v4(255, 255, 255, 255, 65535)));
}

#[test]
fn parse_accepts_plus_and_leading_zeros() {
    assert_eq!(SocketAddr::parse("+10.0.0.001:+80"), Some(v4(10, 0, 0, 1, 80)));
    assert_eq!(SocketAddr::parse("10.0.0.1:0000080"), Some(v4(10, 0, 0, 1, 80)));
}

#[test]
fn parse_rejects_bad_text() {
    assert_eq!(SocketAddr::parse("127.0.0.1"), None);
    assert_eq!(SocketAddr::parse("127.0.0.1:65536"), None);
    assert_eq!(SocketAddr::parse("127.0.0.1:"), None);
    assert_eq!(SocketAddr::parse("256.0.0.1:80"), None);
    assert_eq!(SocketAddr::parse("1.2.3:80"), None);
    assert_eq!(SocketAddr::parse("1.2.3.4.5:80"), None);
    assert_eq!(SocketAddr::parse("1..3.4:80"), None);
    assert_eq!(SocketAddr::parse("1.2.3.4:-1"), None);
    assert_eq!(SocketAddr::parse("1.2.3.4:+"), None);
    assert_eq!(SocketAddr::parse("a.b.c.d:1"), None);
    assert_eq!(SocketAddr::parse("1:2.3.4.5:6"), None);
    assert_eq!(SocketAddr::parse(""), None);
}

#[test]
fn parse_uses_last_colon() {
    // the port follows the last colon; the rest must be the address
    assert_eq!(SocketAddr::parse("1.2.3.4:5:6"), None);
}

#[test]
fn display_text() {
    assert_eq!(Ipv4Addr::new(192, 168, 1, 20).to_string(), "192.168.1.20");
    assert_eq!(IpAddr::new_v4(0, 0, 0, 0).to_string(), "0.0.0.0");
    assert_eq!(v4(10, 0, 0, 1, 443).to_string(), "10.0.0.1:443");
    assert_eq!(v4(255, 255, 255, 255, 65535).to_string(), "255.255.255.255:65535");
}

#[test]
fn parse_of_display_roundtrip() {
    for a in [v4(1, 2, 3, 4, 5), v4(0, 0, 0, 0, 0), v4(255, 9, 100, 10, 65535), v4(127, 0, 0, 1, 8080)] {
        assert_eq!(SocketAddr::parse(&a.to_string()), Some(a));
    }
}

#[test]
fn addr_accessors() {
    let a = socket_addr_v4(Ipv4Addr::new(8, 8, 4, 4), 53);
    assert_eq!(a.port(), 53);
    assert_eq!(*a.ip(), IpAddr::V4(Ipv4Addr::new(8, 8, 4, 4)));
    assert_eq!(Ipv4Addr::new(8, 8, 4, 4).octets(), [8, 8, 4, 4]);
    assert_eq!(Ipv4Addr::localhost().octets(), [127, 0, 0, 1]);
    assert_eq!(Ipv4Addr::unspecified().octets(), [0, 0, 0, 0]);
}

#[test]
fn packed_address() {
    assert_eq!(Ipv4Addr::new(127, 0, 0, 1).to_packed(), 0x7f00_0001);
    assert_eq!(Ipv4Addr::new(255, 255, 255, 255).to_packed(), 0xffff_ffff);
}

#[test]
fn host_port_names() {
    assert_eq!(("localhost", 80).to_socket_addr(), v4(127, 0, 0, 1, 80));
    assert_eq!(("127.0.0.1", 81).to_socket_addr(), v4(127, 0, 0, 1, 81));
    assert_eq!(("0.0.0.0", 82).to_socket_addr(), v4(0, 0, 0, 0, 82));
    assert_eq!(("", 83).to_socket_addr(), v4(0, 0, 0, 0, 83));
    assert_eq!(("example.org", 84).to_socket_addr(), v4(0, 0, 0, 0, 84));
    assert_eq!(("10.1.2.3", 85).to_socket_addr(), v4(0, 0, 0, 0, 85));
}

#[test]
fn text_names() {
    assert_eq!("10.1.2.3:85".to_socket_addr(), v4(10, 1, 2, 3, 85));
    assert_eq!("nonsense".to_socket_addr(), v4(0, 0, 0, 0, 0));
    let a = v4(9, 9, 9, 9, 9);
    assert_eq!(a.to_socket_addr(), a);
}

#[test]
fn listener_bind() {
    let req = TcpListener::bind_syscall(&("0.0.0.0", 8080));
    assert_eq!(req.num, SYS_STD_TCP_LISTEN);
    assert_eq!(req.args, vec![8080, 128]);
    let l = TcpListener::bind(("0.0.0.0", 8080), 3).unwrap();
    assert_eq!(l.raw_id(), 3);
    assert_eq!(l.local_addr().ok(), Some(v4(0, 0, 0, 0, 8080)));
    let e = TcpListener::bind(("0.0.0.0", 8080), -22).err().unwrap();
    assert_eq!(e.code(), -22);
    assert_eq!(e.message(), "bind failed");
}

#[test]
fn listener_accept() {
    let l = TcpListener::bind(v4(1, 2, 3, 4, 99), 5).unwrap();
    let req = l.accept_syscall();
    assert_eq!(req.num, SYS_STD_TCP_ACCEPT);
    assert_eq!(req.args, vec![5]);
    let (s, peer) = l.accept(9).ok().unwrap();
    assert_eq!(s.raw_id(), 9);
    assert_eq!(peer, v4(0, 0, 0, 0, 0));
    let e = l.accept(-1).err().unwrap();
    assert_eq!(e.message(), "accept failed");
}

#[test]
fn stream_connect_and_io() {
    let req = TcpStream::connect_syscall(&v4(10, 0, 0, 2, 443));
    assert_eq!(req.num, SYS_STD_TCP_CONNECT);
    assert_eq!(req.args, vec![0x0a00_0002, 443]);
    let s = TcpStream::connect(4).ok().unwrap();
    assert_eq!(s.raw_id(), 4);
    assert_eq!(TcpStream::connect(-3).err().unwrap().message(), "connect failed");

    let r = s.read_syscall(0x1000, 64);
    assert_eq!(r.num, SYS_STD_TCP_READ);
    assert_eq!(r.args, vec![4, 64, 0x1000]);
    let w = s.write_syscall(0x2000, 16);
    assert_eq!(w.num, SYS_STD_TCP_WRITE);
    assert_eq!(w.args, vec![4, 0x2000, 16]);
    assert_eq!(s.read(12).ok(), Some(12));
    assert_eq!(s.read(-5).err().unwrap().message(), "read failed");
    assert_eq!(s.write(16).ok(), Some(16));
    assert_eq!(s.write(-5).err().unwrap().code(), -5);
}

#[test]
fn stream_control() {
    let s = TcpStream::connect(7).ok().unwrap();
    let req = s.shutdown_syscall();
    assert_eq!(req.num, SYS_STD_TCP_SHUTDOWN);
    assert_eq!(req.args, vec![7]);
    assert!(s.shutdown(Shutdown::Both, 0).is_ok());
    assert_eq!(s.shutdown(Shutdown::Read, -9).err().unwrap().message(), "shutdown failed");
    assert!(s.shutdown(Shutdown::Write, 0).is_ok());
    assert_eq!(s.try_clone().ok().unwrap().raw_id(), 7);
    assert!(s.set_nodelay(true).is_ok());
    assert!(s.set_read_timeout(Some(Duration::from_millis(5))).is_ok());
    assert!(s.set_read_timeout(None).is_ok());
}
