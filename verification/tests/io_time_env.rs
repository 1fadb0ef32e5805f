use merlion_std::env::{args, current_dir, current_dir_syscall, var, var_syscall, VarError};
use merlion_std::fs::{create_dir, create_dir_syscall, read, File};
use merlion_std::io::{write_all_progress, write_stdout, write_stdout_syscall, Account, Error, Write};
use merlion_std::process;
use merlion_std::syscall::{
    SYS_CLOSE, SYS_EXIT, SYS_FORK, SYS_FWRITE, SYS_GETENV, SYS_GETPID, SYS_MKDIR, SYS_OPEN, SYS_READ,
    SYS_STD_CURRENT_DIR, SYS_STD_INSTANT_NOW, SYS_STD_SYSTEM_TIME, SYS_STD_THREAD_SLEEP, SYS_WRITE,
    SYS_YIELD,
};
use merlion_std::thread;
use merlion_std::time::{Duration, Instant, SystemTime};

struct Chunked {
    out: Vec<u8>,
    step: usize,
    fail_after: usize,
}

impl Write for Chunked {
    fn write(&mut self, buf: &[u8]) -> Result<usize, i64> {
        if self.out.len() >= self.fail_after {
            return Err(-5);
        }
        let n = buf.len().min(self.step);
        self.out.extend_from_slice(&buf[..n]);
        Ok(n)
    }
}

#[test]
fn write_all_in_chunks() {
    let mut w = Chunked { out: Vec::new(), step: 3, fail_after: 100 };
    assert_eq!(w.write_all(b"hello world"), Ok(()));
    assert_eq!(w.out, b"hello world".to_vec());
    assert_eq!(w.flush(), Ok(()));
    assert_eq!(w.write_all(b""), Ok(()));
}

#[test]
fn write_all_stops_at_error() {
    let mut w = Chunked { out: Vec::new(), step: 4, fail_after: 4 };
    assert_eq!(w.write_all(b"abcdefgh"), Err(-5));
    assert_eq!(w.out, b"abcd".to_vec());
}

#[test]
fn write_all_progress_steps() {
    assert_eq!(write_all_progress(2, 10, Ok(3)), Ok(5));
    assert_eq!(write_all_progress(2, 10, Err(-1)), Err(-1));
}

#[test]
fn stdout_request_and_reply() {
    let r = write_stdout_syscall(0x500, 12);
    assert_eq!(r.num, SYS_WRITE);
    assert_eq!(r.args, vec![0x500, 12]);
    assert_eq!(write_stdout(12), 12);
    assert_eq!(write_stdout(-1), usize::MAX);
}

#[test]
fn error_fields() {
    let e = Error::new(-2, "bad");
    assert_eq!(e.code(), -2);
    assert_eq!(e.message(), "bad");
}

#[test]
fn durations() {
    assert_eq!(Duration::from_secs(3).as_millis(), 3000);
    assert_eq!(Duration::from_secs(3).as_secs(), 3);
    assert_eq!(Duration::from_millis(2999).as_secs(), 2);
    assert_eq!(Duration::from_millis(7).as_millis(), 7);
}

#[test]
fn instants() {
    assert_eq!(Instant::now_syscall().num, SYS_STD_INSTANT_NOW);
    let a = Instant::now(100);
    let b = Instant::now(142);
    assert_eq!(a.elapsed(b).as_millis(), 420);
    assert_eq!(b.elapsed(a).as_millis(), 0);
    assert_eq!(SystemTime::now_syscall().num, SYS_STD_SYSTEM_TIME);
    assert_eq!(SystemTime::now(1_700_000_000), (1_700_000_000, 0));
}

#[test]
fn env_var() {
    let req = var_syscall(0x10, 4, 0x20);
    assert_eq!(req.num, SYS_GETENV);
    assert_eq!(req.args, vec![0x10, 4, 0x20]);
    let mut buf = [0u8; 256];
    buf[..5].copy_from_slice(b"/home");
    assert_eq!(var(5, &buf).ok(), Some("/home".to_string()));
    assert_eq!(var(0, &buf).ok(), Some(String::new()));
    assert!(matches!(var(-1, &buf), Err(VarError::NotPresent)));
    buf[0] = 0xff;
    assert!(matches!(var(5, &buf), Err(VarError::NotUnicode)));
}

#[test]
fn env_current_dir() {
    assert_eq!(current_dir_syscall(0x40).args, vec![0x40, 256]);
    assert_eq!(current_dir_syscall(0x40).num, SYS_STD_CURRENT_DIR);
    let mut buf = [0u8; 256];
    buf[..4].copy_from_slice(b"/usr");
    assert_eq!(current_dir(4, &buf).ok(), Some("/usr".to_string()));
    buf[1] = 0xc0;
    assert_eq!(current_dir(4, &buf).ok(), Some("/".to_string()));
    let e = current_dir(-2, &buf).err().unwrap();
    assert_eq!((e.code(), e.message()), (-2, "getcwd failed"));
}

#[test]
fn env_args() {
    let mut a = args();
    assert_eq!(a.next(), Some("merlionos-program".to_string()));
    assert_eq!(a.next(), None);
    assert_eq!(a.next(), None);
}

#[test]
fn files() {
    assert_eq!(File::open_syscall(0x100, 9).args, vec![0x100, 9, 0]);
    assert_eq!(File::create_syscall(0x100, 9).args, vec![0x100, 9, 1]);
    assert_eq!(File::open_syscall(0x100, 9).num, SYS_OPEN);
    let f = File::open(3).ok().unwrap();
    assert_eq!(f.as_raw_fd(), 3);
    assert_eq!(File::open(-2).err(), Some(-2));
    assert_eq!(File::create(4).ok().unwrap().as_raw_fd(), 4);
    assert_eq!(f.read_syscall(0x8, 10).args, vec![3, 0x8, 10]);
    assert_eq!(f.read_syscall(0x8, 10).num, SYS_READ);
    assert_eq!(f.write_syscall(0x8, 10).num, SYS_FWRITE);
    assert_eq!(f.read(5), Ok(5));
    assert_eq!(f.write(-9), Err(-9));
    assert_eq!(f.close_syscall().num, SYS_CLOSE);
    let reads = vec![(3, b"abcXX".to_vec()), (2, b"de".to_vec()), (0, Vec::new()), (4, b"zzzz".to_vec())];
    assert_eq!(read(3, &reads), Ok(&b"abcde"[..]));
    assert_eq!(read(3, &[(2, b"ab".to_vec())]), Ok(&b"ab"[..]));
    assert_eq!(read(3, &[]), Ok(&b""[..]));
    assert_eq!(read(3, &[(2, b"ab".to_vec()), (-5, Vec::new())]), Err(-5));
    assert_eq!(read(-7, &reads), Err(-7));
    assert_eq!(create_dir_syscall(0x9, 3).num, SYS_MKDIR);
    assert_eq!(create_dir(0), Ok(()));
    assert_eq!(create_dir(-17), Err(-17));
}

#[test]
fn processes_and_threads() {
    assert_eq!(process::exit_syscall(-1).args, vec![u64::MAX]);
    assert_eq!(process::exit_syscall(3).num, SYS_EXIT);
    assert_eq!(process::id_syscall().num, SYS_GETPID);
    assert_eq!(process::id(42), 42);
    assert_eq!(process::fork_syscall().num, SYS_FORK);
    assert_eq!(process::fork(-3), -3);
    assert_eq!(thread::sleep_ms(100).args, vec![100]);
    assert_eq!(thread::sleep_ms(100).num, SYS_STD_THREAD_SLEEP);
    assert_eq!(thread::yield_now().num, SYS_YIELD);
    assert_eq!(thread::current_id(0x1_0000_0007), 7);
    assert_eq!(thread::spawn_syscall().args, vec![0, 0]);
    assert_eq!(thread::spawn(12), Ok(12));
    assert_eq!(thread::spawn(-1), Err(-1));
}

struct Recorder {
    calls: Vec<(Vec<u8>, Result<usize, i64>)>,
    replies: Vec<Result<usize, i64>>,
}

impl Write for Recorder {
    fn write(&mut self, buf: &[u8]) -> Result<usize, i64> {
        let r = self.replies[self.calls.len()];
        self.calls.push((buf.to_vec(), r));
        r
    }
}

#[test]
fn write_all_offers_what_is_left() {
    let mut w = Recorder { calls: Vec::new(), replies: vec![Ok(2), Ok(1), Ok(3)] };
    assert_eq!(w.write_all(b"abcdef"), Ok(()));
    assert_eq!(
        w.calls,
        vec![(b"abcdef".to_vec(), Ok(2)), (b"cdef".to_vec(), Ok(1)), (b"def".to_vec(), Ok(3))]
    );
}

#[test]
fn write_all_returns_the_first_error() {
    let mut w = Recorder { calls: Vec::new(), replies: vec![Ok(1), Err(-32), Ok(5)] };
    assert_eq!(w.write_all(b"xyz"), Err(-32));
    assert_eq!(w.calls, vec![(b"xyz".to_vec(), Ok(1)), (b"yz".to_vec(), Err(-32))]);
    let mut w = Recorder { calls: Vec::new(), replies: Vec::new() };
    assert_eq!(w.write_all(b""), Ok(()));
    assert!(w.calls.is_empty());
}

#[test]
fn account_passes_writes_on() {
    let mut a = Account::new(Chunked { out: Vec::new(), step: 2, fail_after: 100 });
    assert_eq!(a.write_all(b"abcde"), Ok(()));
    assert_eq!(a.write(b"f"), Ok(1));
    let inner = a.into_inner();
    assert_eq!(inner.out, b"abcdef".to_vec());
    let mut a = Account::new(Recorder { calls: Vec::new(), replies: vec![Ok(2), Err(-7), Ok(1)] });
    assert_eq!(a.write_all(b"abcd"), Err(-7));
    let inner = a.into_inner();
    assert_eq!(inner.calls, vec![(b"abcd".to_vec(), Ok(2)), (b"cd".to_vec(), Err(-7))]);
}
