use merlion_std::mio::{Event, Events, Interest, Poll, Registry, Token, Waker, EPOLLIN, EPOLLOUT};
use merlion_std::syscall::{SYS_EPOLL_CREATE, SYS_EPOLL_CTL, SYS_EPOLL_WAIT, SYS_EVENTFD, SYS_EVENTFD_WRITE};
use merlion_std::time::Duration;

#[test]
fn interest_flags() {
    let r = Interest::readable();
    let w = Interest::writable();
    assert!(r.is_readable() && !r.is_writable());
    assert!(w.is_writable() && !w.is_readable());
    let both = r.add(w);
    assert!(both.is_readable() && both.is_writable());
    assert_eq!(r | w, both);
    assert_eq!(both.0, EPOLLIN | EPOLLOUT);
}

#[test]
fn event_flags() {
    let e = Event { events: 0x019, token: Token(3) };
    assert_eq!(e.token(), Token(3));
    assert!(e.is_readable());
    assert!(!e.is_writable());
    assert!(e.is_error());
    assert!(e.is_read_closed());
    assert!(e.is_write_closed());
    let f = Event { events: 0x004, token: Token(0) };
    assert!(f.is_writable() && !f.is_error() && !f.is_read_closed());
}

#[test]
fn registry_requests() {
    let reg = Registry { epfd: 3 };
    let add = reg.register_fd_syscall(5, Token(7), Interest::readable());
    assert_eq!(add.num, SYS_EPOLL_CTL);
    assert_eq!(add.args, vec![(3u64 << 32) | 1, 5, (7u64 << 16) | 1]);
    let m = reg.reregister_fd_syscall(5, Token(2), Interest::writable());
    assert_eq!(m.args, vec![(3u64 << 32) | 3, 5, (2u64 << 16) | 4]);
    let d = reg.deregister_fd_syscall(-1);
    assert_eq!(d.args, vec![(3u64 << 32) | 2, u64::MAX, 0]);
    assert!(reg.register_fd(0).is_ok());
    assert_eq!(reg.register_fd(-1).err().unwrap().message(), "epoll_ctl add failed");
    assert_eq!(reg.reregister_fd(-2).err().unwrap().message(), "epoll_ctl mod failed");
    assert_eq!(reg.deregister_fd(-3).err().unwrap().message(), "epoll_ctl del failed");
    assert!(reg.deregister_fd(1).is_ok());
}

#[test]
fn poll_fills_events() {
    let mut p = Poll::new(4).ok().unwrap();
    assert_eq!(Poll::new_syscall().num, SYS_EPOLL_CREATE);
    assert_eq!(Poll::new(-1).err().unwrap().message(), "epoll_create failed");
    assert_eq!(p.registry().epfd, 4);
    let mut ev = Events::with_capacity(16);
    assert_eq!(ev.capacity(), 16);
    let w = p.poll_syscall(&ev, Some(Duration::from_millis(250)));
    assert_eq!(w.num, SYS_EPOLL_WAIT);
    assert_eq!(w.args, vec![4, 16, 250]);
    let inf = p.poll_syscall(&ev, None);
    assert_eq!(inf.args, vec![4, 16, u64::MAX]);
    assert!(p.poll(&mut ev, 3).is_ok());
    assert_eq!(ev.len(), 3);
    let toks: Vec<Token> = ev.iter().iter().map(|e| e.token()).collect();
    assert_eq!(toks, vec![Token(0), Token(1), Token(2)]);
    assert!(ev.iter().iter().all(|e| e.is_readable() && e.is_writable()));
    assert_eq!(p.poll(&mut ev, -4).err().unwrap().message(), "epoll_wait failed");
    assert!(ev.is_empty());
    assert_eq!(ev.capacity(), 16);
}

#[test]
fn events_clear() {
    let mut p = Poll { epfd: 1 };
    let mut ev = Events::with_capacity(2);
    p.poll(&mut ev, 2).ok().unwrap();
    assert!(!ev.is_empty());
    ev.clear();
    assert!(ev.is_empty());
    assert_eq!(ev.len(), 0);
}

#[test]
fn long_timeouts_are_capped() {
    let p = Poll { epfd: 1 };
    let ev = Events::with_capacity(1);
    let w = p.poll_syscall(&ev, Some(Duration::from_millis(0x1_0000_0005)));
    assert_eq!(w.args[2], i32::MAX as u64);
    let w = p.poll_syscall(&ev, Some(Duration::from_millis(0x8000_0000)));
    assert_eq!(w.args[2], i32::MAX as u64);
    let w = p.poll_syscall(&ev, Some(Duration::from_millis(0x7fff_ffff)));
    assert_eq!(w.args[2], 0x7fff_ffff);
}

#[test]
fn waker_requests() {
    let reg = Registry { epfd: 2 };
    assert_eq!(Waker::eventfd_syscall().num, SYS_EVENTFD);
    let w = Waker::new(&reg, Token(0), 9).ok().unwrap();
    let r = w.register_syscall(&reg);
    assert_eq!(r.args, vec![(2u64 << 32) | 1, 9, 1]);
    let k = w.wake_syscall();
    assert_eq!(k.num, SYS_EVENTFD_WRITE);
    assert_eq!(k.args, vec![9, 1]);
    assert!(w.wake().is_ok());
    assert_eq!(Waker::new(&reg, Token(0), -1).err().unwrap().message(), "eventfd failed");
}

#[test]
fn event_word_reads_back() {
    let reg = Registry { epfd: 0x1234 };
    let call = reg.register_fd_syscall(3, Token(0xbeef), Interest::readable().add(Interest::writable()));
    let op = call.args[0];
    let word = call.args[2];
    assert_eq!(op >> 32, 0x1234);
    assert_eq!(op & 0xffff_ffff, 1);
    assert_eq!(word & 0xffff, 5);
    assert_eq!(word >> 16, 0xbeef);
}
