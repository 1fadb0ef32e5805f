use merlion_std::sys::merlionos::{abort_syscall, cleanup, cvt, cvt_r, init};
use merlion_std::sys::merlionos;
use merlion_std::syscall::{
    SYS_ACCEPT, SYS_BIND, SYS_CHDIR, SYS_CLONE, SYS_CLOSE, SYS_CONNECT, SYS_DUP2, SYS_EXEC, SYS_EXIT,
    SYS_FCNTL, SYS_FUTEX_WAIT, SYS_FUTEX_WAKE, SYS_GETCWD, SYS_GETENV, SYS_GETPPID, SYS_KILL,
    SYS_LISTEN, SYS_MKDIR, SYS_NANOSLEEP, SYS_OPEN, SYS_PIPE, SYS_READ, SYS_RECVFROM, SYS_SENDTO,
    SYS_SETSOCKOPT, SYS_SHUTDOWN, SYS_SOCKET, SYS_STAT, SYS_TLS_GET, SYS_TLS_KEY_CREATE, SYS_TLS_SET,
    SYS_UNLINK, SYS_WAITPID, SYS_WRITE, SYS_CLOCK_MONOTONIC, SYS_GETTIMEOFDAY, SYS_YIELD, SYS_FWRITE,
};

#[test]
fn reply_conversion() {
    assert_eq!(cvt(5), Ok(5));
    assert_eq!(cvt(0), Ok(0));
    assert_eq!(cvt(-4), Err(-4));
    assert_eq!(cvt_r(|| 9), Ok(9));
    assert_eq!(cvt_r(|| -1), Err(-1));
    init();
    cleanup();
    let a = abort_syscall();
    assert_eq!((a.num, a.args), (SYS_EXIT, vec![134]));
}

#[test]
fn program_args() {
    assert_eq!(merlionos::args::args(), vec!["merlionos-program".to_string()]);
}

#[test]
fn environment() {
    let r = merlionos::env::getenv_syscall(1, 2, 3);
    assert_eq!((r.num, r.args), (SYS_GETENV, vec![1, 2, 3]));
    let mut buf = [0u8; 16];
    buf[..3].copy_from_slice(b"abc");
    assert_eq!(merlionos::env::getenv(3, &buf), Some("abc".to_string()));
    assert_eq!(merlionos::env::getenv(0, &buf), None);
    assert_eq!(merlionos::env::getenv(-1, &buf), None);
    buf[0] = 0x80;
    assert_eq!(merlionos::env::getenv(3, &buf), None);
    merlionos::env::setenv("A", "B");
}

#[test]
fn descriptors() {
    let d = merlionos::fd::FileDesc::new(4);
    assert_eq!(d.raw(), 4);
    assert_eq!(d.read_syscall(0x10, 8).num, SYS_READ);
    assert_eq!(d.write_syscall(0x10, 8).num, SYS_FWRITE);
    assert_eq!(d.write_syscall(0x10, 8).args, vec![4, 0x10, 8]);
    assert_eq!(d.read(3), Ok(3));
    assert_eq!(d.write(-1), Err(-1));
    assert_eq!(d.close_syscall().num, SYS_CLOSE);
    assert_eq!(d.close(0), Ok(()));
    let dup = d.duplicate_syscall();
    assert_eq!((dup.num, dup.args), (SYS_DUP2, vec![4, 0xFF]));
    assert_eq!(d.duplicate(9).ok().unwrap().raw(), 9);
    assert_eq!(d.duplicate(-9).err(), Some(-9));
    let nb = d.set_nonblocking_syscall(true);
    assert_eq!((nb.num, nb.args), (SYS_FCNTL, vec![4, 4, 0x800]));
    assert_eq!(d.set_nonblocking_syscall(false).args, vec![4, 4, 0]);
    assert_eq!(d.set_nonblocking(-2), Err(-2));
    assert_eq!(d.set_cloexec_syscall().args, vec![4, 2, 1]);
    assert_eq!(d.set_cloexec(0), Ok(()));
}

#[test]
fn files_and_dirs() {
    let o = merlionos::fs::File::open_syscall(0x20, 5, true);
    assert_eq!((o.num, o.args), (SYS_OPEN, vec![0x20, 5, 1]));
    assert_eq!(merlionos::fs::File::open_syscall(0x20, 5, false).args, vec![0x20, 5, 0]);
    let f = merlionos::fs::File::open(6).ok().unwrap();
    assert_eq!(f.raw_fd(), 6);
    assert_eq!(f.fd().raw(), 6);
    assert_eq!(f.read(2), Ok(2));
    assert_eq!(f.write(-3), Err(-3));
    assert_eq!(f.set_nonblocking(0), Ok(()));
    assert_eq!(merlionos::fs::File::open(-1).err(), Some(-1));
    assert_eq!(merlionos::fs::stat_syscall(1, 2).num, SYS_STAT);
    let st = merlionos::fs::stat(1234).ok().unwrap();
    assert_eq!((st.size, st.is_dir), (1234, false));
    assert_eq!(merlionos::fs::stat(-2).err(), Some(-2));
    assert_eq!(merlionos::fs::mkdir_syscall(1, 2).num, SYS_MKDIR);
    assert_eq!(merlionos::fs::mkdir(-17), Err(-17));
    assert_eq!(merlionos::fs::unlink_syscall(1, 2).num, SYS_UNLINK);
    assert_eq!(merlionos::fs::unlink(0), Ok(()));
    assert_eq!(merlionos::fs::getcwd_syscall(0x30).num, SYS_GETCWD);
    assert_eq!(merlionos::fs::getcwd_syscall(0x30).args, vec![0x30, 256]);
    let mut buf = [0u8; 256];
    buf[..4].copy_from_slice(b"/tmp");
    assert_eq!(merlionos::fs::getcwd(4, &buf), Ok("/tmp".to_string()));
    buf[3] = 0xfe;
    assert_eq!(merlionos::fs::getcwd(4, &buf), Ok("/".to_string()));
    assert_eq!(merlionos::fs::getcwd(-5, &buf), Err(-5));
    assert_eq!(merlionos::fs::chdir_syscall(1, 2).num, SYS_CHDIR);
    assert_eq!(merlionos::fs::chdir(-2), Err(-2));
}

#[test]
fn vectored_writes() {
    assert_eq!(merlionos::io::read_syscall(3, 0x10, 4).num, SYS_READ);
    assert_eq!(merlionos::io::write_syscall(3, 0x10, 4).args, vec![3, 0x10, 4]);
    assert_eq!(merlionos::io::read(4), Ok(4));
    assert_eq!(merlionos::io::write(-1), Err(-1));
    assert_eq!(merlionos::io::writev(&[3, 4, 5]), Ok(12));
    assert_eq!(merlionos::io::writev(&[]), Ok(0));
    assert_eq!(merlionos::io::writev(&[3, -9]), Err(-9));
    assert_eq!(merlionos::io::writev(&[-2, -9]), Err(-2));
    assert!(merlionos::io::writev_continues(0));
    assert!(merlionos::io::writev_continues(7));
    assert!(!merlionos::io::writev_continues(-4));
}

#[test]
fn sockets() {
    let n = merlionos::net::Socket::new_syscall(2, 1, 0);
    assert_eq!((n.num, n.args), (SYS_SOCKET, vec![2, 1, 0]));
    let s = merlionos::net::Socket::new(7).ok().unwrap();
    assert_eq!(s.raw_fd(), 7);
    assert_eq!(s.fd().raw(), 7);
    assert_eq!(merlionos::net::Socket::new(-1).err(), Some(-1));
    assert_eq!(merlionos::net::sockaddr_in([10, 0, 0, 1], 0x1f90), [0, 2, 0x1f, 0x90, 10, 0, 0, 1]);
    let c = s.connect_syscall(0x500);
    assert_eq!((c.num, c.args), (SYS_CONNECT, vec![7, 0x500, 8]));
    assert_eq!(s.connect(-111), Err(-111));
    assert_eq!(s.bind_syscall(0x500).num, SYS_BIND);
    assert_eq!(s.bind(0), Ok(()));
    assert_eq!(s.listen_syscall(16).args, vec![7, 16]);
    assert_eq!(s.listen_syscall(16).num, SYS_LISTEN);
    assert_eq!(s.listen(0), Ok(()));
    assert_eq!(s.accept_syscall().num, SYS_ACCEPT);
    assert_eq!(s.accept(8).ok().unwrap().raw_fd(), 8);
    assert_eq!(s.send_syscall(0x1, 3).num, SYS_SENDTO);
    assert_eq!(s.send(3), Ok(3));
    assert_eq!(s.recv_syscall(0x1, 3).num, SYS_RECVFROM);
    assert_eq!(s.recv(-4), Err(-4));
    assert_eq!(s.shutdown_syscall(2).args, vec![7, 2]);
    assert_eq!(s.shutdown_syscall(2).num, SYS_SHUTDOWN);
    assert_eq!(s.shutdown(0), Ok(()));
    let nd = s.set_nodelay_syscall(true);
    assert_eq!((nd.num, nd.args), (SYS_SETSOCKOPT, vec![7, (6 << 16) | 1, 1]));
    assert_eq!(s.set_nodelay_syscall(false).args[2], 0);
    assert_eq!(s.set_nodelay(-1), Err(-1));
    assert_eq!(s.set_nonblocking(0), Ok(()));
    assert_eq!(s.setsockopt_syscall(1, 0x1_0002, 5).args, vec![7, (1 << 16) | 2, 5]);
    assert_eq!(s.setsockopt(0), Ok(()));
}

#[test]
fn os_queries() {
    let mut buf = [0u8; 256];
    buf[..2].copy_from_slice(b"/a");
    assert_eq!(merlionos::os::getcwd(2, &buf), Ok("/a".to_string()));
    assert_eq!(merlionos::os::chdir(-1), Err(-1));
    assert_eq!(merlionos::os::temp_dir(), "/tmp");
    buf[..5].copy_from_slice(b"/root");
    assert_eq!(merlionos::os::home_dir(5, &buf), Some("/root".to_string()));
    assert_eq!(merlionos::os::home_var(), "HOME");
    assert_eq!(merlionos::os::current_exe(), Ok("/bin/merlionos-program".to_string()));
    assert_eq!(merlionos::os::errno(), 0);
    merlionos::os::set_errno(5);
    assert_eq!(merlionos::os::PAGE_SIZE, 4096);
}

#[test]
fn pipes() {
    assert_eq!(merlionos::pipe::pipe_syscall(0x40).num, SYS_PIPE);
    let (r, w) = merlionos::pipe::pipe(0, [3, 4]).ok().unwrap();
    assert_eq!((r.raw(), w.raw()), (3, 4));
    assert!(merlionos::pipe::pipe(-24, [0, 0]).is_err());
}

#[test]
fn sys_processes() {
    assert_eq!(merlionos::process::exit_syscall(2).args, vec![2]);
    assert_eq!(merlionos::process::getpid(77), 77);
    assert_eq!(merlionos::process::getppid_syscall().num, SYS_GETPPID);
    assert_eq!(merlionos::process::getppid(1), 1);
    assert_eq!(merlionos::process::fork(0), Ok(0));
    assert_eq!(merlionos::process::fork(-11), Err(-11));
    assert_eq!(merlionos::process::exec_syscall(1, 2).num, SYS_EXEC);
    assert_eq!(merlionos::process::exec(-2), Err(-2));
    assert_eq!(merlionos::process::waitpid_syscall(5).num, SYS_WAITPID);
    assert_eq!(merlionos::process::waitpid(3), Ok(3));
    assert_eq!(merlionos::process::kill_syscall(5, 9).args, vec![5, 9]);
    assert_eq!(merlionos::process::kill_syscall(5, 9).num, SYS_KILL);
    assert_eq!(merlionos::process::kill(0), Ok(()));
}

#[test]
fn standard_streams() {
    let i = merlionos::stdio::Stdin::new();
    assert_eq!(i.read_syscall(0x1, 10).args, vec![0, 0x1, 10]);
    assert_eq!(i.read(10), Ok(10));
    let o = merlionos::stdio::Stdout::new();
    assert_eq!(o.write_syscall(0x2, 5).num, SYS_WRITE);
    assert_eq!(o.write(5), Ok(5));
    assert_eq!(o.flush(), Ok(()));
    let e = merlionos::stdio::Stderr::new();
    let w = e.write_syscall(0x2, 5);
    assert_eq!((w.num, w.args), (SYS_FWRITE, vec![2, 0x2, 5]));
    assert_ne!(w.num, o.write_syscall(0x2, 5).num);
    assert_eq!(e.write(-1), Err(-1));
    assert_eq!(e.flush(), Ok(()));
}

#[test]
fn futex_mutex() {
    let mut m = merlionos::sync::Mutex::new();
    assert!(m.try_lock());
    assert!(!m.try_lock());
    let w = m.lock(0x100).unwrap();
    assert_eq!((w.num, w.args), (SYS_FUTEX_WAIT, vec![0x100, 1]));
    let u = m.unlock(0x100);
    assert_eq!((u.num, u.args), (SYS_FUTEX_WAKE, vec![0x100, 1]));
    assert!(m.lock(0x100).is_none());
    assert_eq!(m.state, 1);
}

#[test]
fn futex_condvar() {
    let mut c = merlionos::sync::Condvar::new();
    let mut m = merlionos::sync::Mutex::new();
    assert!(m.try_lock());
    let (wake, wait) = c.wait(&mut m, 0x200, 0x100);
    assert_eq!(m.state, 0);
    assert_eq!(wake.args, vec![0x100, 1]);
    assert_eq!((wait.num, wait.args), (SYS_FUTEX_WAIT, vec![0x200, 0]));
    let n = c.notify_one(0x200);
    assert_eq!(c.seq, 1);
    assert_eq!(n.args, vec![0x200, 1]);
    let a = c.notify_all(0x200);
    assert_eq!(c.seq, 2);
    assert_eq!(a.args, vec![0x200, u32::MAX as u64]);
    c.seq = u32::MAX;
    c.notify_one(0x200);
    assert_eq!(c.seq, 0);
}

#[test]
fn futex_rwlock() {
    let mut l = merlionos::sync::RwLock::new();
    assert!(l.read());
    assert!(l.read());
    assert_eq!(l.state, 2);
    assert!(!l.write());
    l.read_unlock();
    l.read_unlock();
    assert!(l.write());
    assert_eq!(l.state, u32::MAX);
    assert!(!l.read());
    assert!(!l.write());
    l.write_unlock();
    assert_eq!(l.state, 0);
    l.read_unlock();
    assert_eq!(l.state, u32::MAX);
}

#[test]
fn futex_once() {
    let mut o = merlionos::sync::Once::new();
    assert!(!o.is_completed());
    let mut hits = 0;
    o.call_once(|| hits += 1);
    o.call_once(|| hits += 10);
    assert_eq!(hits, 1);
    assert!(o.is_completed());
}

#[test]
fn threads() {
    let n = merlionos::thread::Thread::new_syscall(0x4000);
    assert_eq!((n.num, n.args), (SYS_CLONE, vec![0, 0x4000]));
    let t = merlionos::thread::Thread::new(5).ok().unwrap();
    assert_eq!(t.id(), 5);
    assert_eq!(merlionos::thread::Thread::new(-1).err(), Some(-1));
    assert_eq!(merlionos::thread::Thread::yield_now().num, SYS_YIELD);
    assert_eq!(merlionos::thread::Thread::sleep(3).num, SYS_NANOSLEEP);
    assert_eq!(t.join_syscall().args, vec![5]);
    assert_eq!(t.join(0), Ok(()));
    assert_eq!(merlionos::thread::current_id(9), 9);
    assert_eq!(merlionos::thread::current_id_syscall().args, Vec::<u64>::new());
    assert_eq!(merlionos::thread::available_parallelism(), 1);
}

#[test]
fn tls() {
    assert_eq!(merlionos::thread_local::create_syscall().num, SYS_TLS_KEY_CREATE);
    assert_eq!(merlionos::thread_local::create(3), 3);
    let s = merlionos::thread_local::set(3, 99);
    assert_eq!((s.num, s.args), (SYS_TLS_SET, vec![3, 99]));
    assert_eq!(merlionos::thread_local::get_syscall(3).num, SYS_TLS_GET);
    assert_eq!(merlionos::thread_local::get(99), 99);
    merlionos::thread_local::destroy(3);
}

#[test]
fn clocks() {
    assert_eq!(merlionos::time::monotonic_now_syscall(0x8).num, SYS_CLOCK_MONOTONIC);
    assert_eq!(merlionos::time::monotonic_now_syscall(0x8).args, vec![0x8, 16]);
    let m = merlionos::time::monotonic_now([5, 6]);
    assert_eq!((m.secs, m.nanos), (5, 6));
    assert_eq!(merlionos::time::realtime_now_syscall(0x8).num, SYS_GETTIMEOFDAY);
    let r = merlionos::time::realtime_now([5, 6]);
    assert_eq!((r.secs, r.nanos), (5, 6000));
    assert_eq!(merlionos::time::sleep(20).args, vec![20]);
}
