//! I/O: the error type, the `Read` and `Write` traits, and standard output
//! (syscall 0 writes to stdout).
use vstd::prelude::*;
use crate::syscall::{Syscall, is_call, SYS_WRITE};

verus! {

/// An I/O error: the kernel's (negative) error code and what failed.
#[derive(Debug)]
pub struct Error {
    code: i64,
    message: &'static str,
}

impl Error {
    /// An error with the given code and description.
    pub fn new(code: i64, message: &'static str) -> (r: Error)
        ensures
            r.code_spec() == code,
            r.message_spec() == message,
    {
        Error { code, message }
    }

    pub closed spec fn code_spec(&self) -> i64 {
        self.code
    }

    pub closed spec fn message_spec(&self) -> &'static str {
        self.message
    }

    /// The kernel's error code.
    pub fn code(&self) -> (r: i64)
        ensures
            r == self.code_spec(),
    {
        self.code
    }

    /// What failed.
    pub fn message(&self) -> (r: &'static str)
        ensures
            r == self.message_spec(),
    {
        self.message
    }
}

/// The result of an I/O operation.
pub type Result<T> = core::result::Result<T, Error>;

/// The error `Error::new(code, message)`, as a value to compare against.
pub open spec fn is_error(e: Error, code: i64, message: &'static str) -> bool {
    e.code_spec() == code && e.message_spec() == message
}

/// The request that writes `len` bytes at `addr` to stdout.
pub fn write_stdout_syscall(addr: u64, len: usize) -> (r: Syscall)
    ensures
        is_call(r, SYS_WRITE, seq![addr, len as u64]),
{
    Syscall::new2(SYS_WRITE, addr, len as u64)
}

/// The byte count a stdout write reports, given the kernel's reply
/// (taken as unsigned, as the reply register is).
pub fn write_stdout(reply: i64) -> (r: usize)
    ensures
        r == reply as usize,
{
    reply as usize
}

/// What `write_all` does with one reply of `write` when `written` of
/// `total` bytes are out: the error, or the new count written.
pub open spec fn write_all_progress_spec(written: usize, reply: core::result::Result<usize, i64>) -> core::result::Result<usize, i64> {
    match reply {
        Ok(n) => Ok((written + n) as usize),
        Err(e) => Err(e),
    }
}

/// Advances `write_all` by one reply of `write`.
pub fn write_all_progress(written: usize, total: usize, reply: core::result::Result<usize, i64>) -> (r: core::result::Result<usize, i64>)
    requires
        written <= total,
        reply matches Ok(n) ==> n <= total - written,
    ensures
        r == write_all_progress_spec(written, reply),
        r matches Ok(w) ==> w <= total,
{
    match reply {
        Ok(n) => Ok(written + n),
        Err(e) => Err(e),
    }
}

/// One call of `Write::write`: the bytes offered and the reply.
pub type WriteCall = (Seq<u8>, core::result::Result<usize, i64>);

/// Where a run of successful `write` calls leaves `write_all`, starting
/// from `rest`: each call is offered all that is left (never nothing) and
/// accepts a prefix of it; `None` when the calls do not form such a run.
pub open spec fn ok_run(rest: Seq<u8>, calls: Seq<WriteCall>) -> Option<Seq<u8>>
    decreases calls.len(),
{
    if calls.len() == 0 {
        Some(rest)
    } else {
        match calls[0].1 {
            Ok(n) => if calls[0].0 == rest && rest.len() > 0 && n <= rest.len() {
                ok_run(rest.skip(n as int), calls.drop_first())
            } else {
                None
            },
            Err(_) => None,
        }
    }
}

/// The calls `write_all(buf)` makes and what it returns: successful calls
/// on what is left of `buf`, then either nothing left and `Ok`, or one
/// last call on a non-empty rest that fails, with its error returned.
pub open spec fn write_all_trace(buf: Seq<u8>, calls: Seq<WriteCall>, r: core::result::Result<(), i64>) -> bool {
    match r {
        Ok(()) => ok_run(buf, calls) == Some(Seq::<u8>::empty()),
        Err(e) => {
            &&& calls.len() > 0
            &&& ok_run(buf, calls.drop_last()) matches Some(rest)
            &&& rest.len() > 0
            &&& calls.last() == (rest, core::result::Result::<usize, i64>::Err(e))
        },
    }
}

/// One more successful call extends a run.
proof fn lemma_ok_run_push(rest: Seq<u8>, calls: Seq<WriteCall>, left: Seq<u8>, n: usize)
    requires
        ok_run(rest, calls) == Some(left),
        left.len() > 0,
        n <= left.len(),
    ensures
        ok_run(rest, calls.push((left, Ok(n)))) == Some(left.skip(n as int)),
    decreases calls.len(),
{
    let pushed = calls.push((left, Ok(n)));
    assert(pushed.len() > 0);
    if calls.len() > 0 {
        assert(pushed.drop_first() =~= calls.drop_first().push((left, Ok(n))));
        assert(pushed[0] == calls[0]);
        if let Ok(m) = calls[0].1 {
            lemma_ok_run_push(rest.skip(m as int), calls.drop_first(), left, n);
        }
    } else {
        assert(left == rest);
        assert(pushed[0] == (left, core::result::Result::<usize, i64>::Ok(n)));
        assert(pushed.drop_first() =~= Seq::<WriteCall>::empty());
        assert(ok_run(left.skip(n as int), pushed.drop_first()) == Some(left.skip(n as int)));
    }
}

/// The bytes the calls accepted, in order: of each successful call, the
/// prefix of what it was offered that it reports.
pub open spec fn accepted_bytes(calls: Seq<WriteCall>) -> Seq<u8>
    decreases calls.len(),
{
    if calls.len() == 0 {
        Seq::empty()
    } else {
        let piece = match calls[0].1 {
            Ok(n) => calls[0].0.take(n as int),
            Err(_) => Seq::empty(),
        };
        piece + accepted_bytes(calls.drop_first())
    }
}

/// A run of successful calls accepts, in order, what it leaves out of
/// `rest`; each call succeeds and is offered a non-empty rest.
proof fn lemma_ok_run_accepts(rest: Seq<u8>, calls: Seq<WriteCall>)
    requires
        ok_run(rest, calls) is Some,
    ensures
        accepted_bytes(calls) + ok_run(rest, calls).unwrap() == rest,
        forall|i: int| 0 <= i < calls.len() ==> (#[trigger] calls[i]).1 is Ok && calls[i].0.len() > 0,
    decreases calls.len(),
{
    if calls.len() > 0 {
        if let Ok(n) = calls[0].1 {
            let tail = calls.drop_first();
            lemma_ok_run_accepts(rest.skip(n as int), tail);
            let left = ok_run(rest, calls).unwrap();
            assert(rest.take(n as int) + (accepted_bytes(tail) + left) =~= rest);
            assert(accepted_bytes(calls) + left =~= rest.take(n as int) + (accepted_bytes(tail) + left));
            assert forall|i: int| 0 <= i < calls.len() implies (#[trigger] calls[i]).1 is Ok
                && calls[i].0.len() > 0 by {
                if i > 0 {
                    assert(calls[i] == tail[i - 1]);
                }
            }
        }
    }
}

/// What `write_all` reports matches its calls: `Ok` exactly when every
/// call succeeded, every call was offered something, and on `Ok` the
/// accepted pieces put together are the whole buffer.
pub proof fn law_write_all_outcome(buf: Seq<u8>, calls: Seq<WriteCall>, r: core::result::Result<(), i64>)
    requires
        write_all_trace(buf, calls, r),
    ensures
        r is Ok <==> forall|i: int| 0 <= i < calls.len() ==> (#[trigger] calls[i]).1 is Ok,
        forall|i: int| 0 <= i < calls.len() ==> (#[trigger] calls[i]).0.len() > 0,
        r is Ok ==> accepted_bytes(calls) == buf,
{
    match r {
        Ok(()) => {
            lemma_ok_run_accepts(buf, calls);
            assert(accepted_bytes(calls) + Seq::<u8>::empty() =~= accepted_bytes(calls));
        },
        Err(e) => {
            let p = calls.drop_last();
            lemma_ok_run_accepts(buf, p);
            assert(calls[calls.len() - 1] == calls.last());
            assert forall|i: int| 0 <= i < calls.len() implies (#[trigger] calls[i]).0.len() > 0 by {
                if i < calls.len() - 1 {
                    assert(calls[i] == p[i]);
                }
            }
        },
    }
}

/// A source of bytes.
pub trait Read {
    /// Reads into `buf`, returning how many bytes were read.
    fn read(&mut self, buf: &mut [u8]) -> core::result::Result<usize, i64>;
}

/// A sink of bytes.
pub trait Write {
    /// Whether the sink keeps account of what is written to it (in
    /// `written` and `calls`); a sink that does not promises no more of
    /// its writes than their counts.
    open spec fn keeps_account() -> bool {
        false
    }

    /// Everything written to the sink so far, in order, for a sink that
    /// keeps account of it.
    open spec fn written(&self) -> Seq<u8> {
        Seq::empty()
    }

    /// Every call of `write` made on the sink so far, in order, with its
    /// reply, for a sink that keeps account of it.
    open spec fn calls(&self) -> Seq<WriteCall> {
        Seq::empty()
    }

    /// Writes some prefix of `buf`, returning its length: at most the whole
    /// buffer, and at least one byte when the buffer is not empty.
    ///
    /// The last is a restriction on implementations: a write that accepts
    /// nothing of a non-empty buffer is not allowed (it is what makes
    /// `write_all` finish; a sink that cannot make progress reports an
    /// error instead).
    fn write(&mut self, buf: &[u8]) -> (r: core::result::Result<usize, i64>)
        ensures
            match r {
                Ok(n) => {
                    &&& n <= buf@.len()
                    &&& (buf@.len() > 0 ==> n > 0)
                    &&& Self::keeps_account() ==> final(self).written() == old(self).written()
                        + buf@.take(n as int)
                },
                Err(_) => Self::keeps_account() ==> final(self).written() == old(self).written(),
            },
            Self::keeps_account() ==> final(self).calls() == old(self).calls().push((buf@, r)),
    ;

    /// Flushes buffered output; nothing is buffered, so this succeeds.
    fn flush(&mut self) -> (r: core::result::Result<(), i64>)
        default_ensures
            r == Ok::<(), i64>(()),
    {
        Ok(())
    }

    /// Writes all of `buf`, calling `write` on what is left until nothing
    /// is, and stops at the first error, which it returns.
    fn write_all(&mut self, buf: &[u8]) -> (r: core::result::Result<(), i64>)
        ensures
            buf@.len() == 0 ==> r == Ok::<(), i64>(()),
            r is Err ==> buf@.len() > 0,
            Self::keeps_account() ==> {
                &&& old(self).calls().is_prefix_of(final(self).calls())
                &&& write_all_trace(
                    buf@,
                    final(self).calls().skip(old(self).calls().len() as int),
                    r,
                )
            },
            Self::keeps_account() ==> match r {
                Ok(()) => final(self).written() == old(self).written() + buf@,
                Err(_) => exists|k: int|
                    0 <= k < buf@.len() && final(self).written() == old(self).written() + buf@.take(
                        k,
                    ),
            },
    {
        let ghost start = self.written();
        let ghost start_calls = self.calls();
        let ghost mut made: Seq<WriteCall> = Seq::empty();
        let ghost mut prev: Seq<WriteCall> = Seq::empty();
        let total = buf.len();
        let mut written: usize = 0;
        while written < total
            invariant
                total == buf@.len(),
                written <= total,
                Self::keeps_account() ==> self.written() == start + buf@.take(written as int),
                Self::keeps_account() ==> self.calls() == start_calls + made,
                ok_run(buf@, made) == Some(buf@.skip(written as int)),
                start == old(self).written(),
                start_calls == old(self).calls(),
            decreases total - written,
        {
            let rest = &buf[written..total];
            proof {
                assert(rest@ =~= buf@.skip(written as int));
            }
            let reply = self.write(rest);
            proof {
                if let Ok(n) = reply {
                    assert(buf@.take(written + n) =~= buf@.take(written as int) + rest@.take(n as int));
                    lemma_ok_run_push(buf@, made, rest@, n);
                    assert(rest@.skip(n as int) =~= buf@.skip(written + n));
                }
                assert(start_calls + made.push((rest@, reply)) =~= (start_calls + made).push((rest@, reply)));
                prev = made;
                made = made.push((rest@, reply));
            }
            match write_all_progress(written, total, reply) {
                Ok(w) => {
                    written = w;
                },
                Err(e) => {
                    proof {
                        assert(0 <= written < total);
                        assert(Self::keeps_account() ==> self.written() == old(self).written()
                            + buf@.take(written as int));
                        assert(made.drop_last() =~= prev);
                        assert(write_all_trace(buf@, made, Err(e)));
                        if Self::keeps_account() {
                            assert(self.calls().skip(start_calls.len() as int) =~= made);
                        }
                    }
                    return Err(e);
                },
            }
        }
        proof {
            assert(buf@.take(total as int) =~= buf@);
            assert(buf@.skip(total as int) =~= Seq::<u8>::empty());
            if Self::keeps_account() {
                assert(self.calls().skip(start_calls.len() as int) =~= made);
            }
        }
        Ok(())
    }
}

/// A sink that keeps account of another: each write is passed on to the
/// inner sink, and the call, its reply and the bytes the reply reports
/// are recorded. Wrapping any sink in it gives `write_all` its full
/// contract (the calls made and the outcome) for that sink.
pub struct Account<W> {
    inner: W,
    log: Ghost<Seq<WriteCall>>,
    bytes: Ghost<Seq<u8>>,
}

impl<W: Write> Account<W> {
    /// The inner sink.
    pub closed spec fn sink(&self) -> W {
        self.inner
    }

    /// Wraps `inner`, with nothing recorded yet.
    pub fn new(inner: W) -> (r: Self)
        ensures
            r.sink() == inner,
            r.calls() == Seq::<WriteCall>::empty(),
            r.written() == Seq::<u8>::empty(),
    {
        Account { inner, log: Ghost(Seq::empty()), bytes: Ghost(Seq::empty()) }
    }

    /// The inner sink.
    pub fn into_inner(self) -> (r: W)
        ensures
            r == self.sink(),
    {
        self.inner
    }
}

impl<W: Write> Write for Account<W> {
    open spec fn keeps_account() -> bool {
        true
    }

    closed spec fn written(&self) -> Seq<u8> {
        self.bytes@
    }

    closed spec fn calls(&self) -> Seq<WriteCall> {
        self.log@
    }

    fn write(&mut self, buf: &[u8]) -> (r: core::result::Result<usize, i64>) {
        let r = self.inner.write(buf);
        self.log = Ghost(self.log@.push((buf@, r)));
        if let Ok(n) = r {
            self.bytes = Ghost(self.bytes@ + buf@.take(n as int));
        }
        r
    }
}

} // verus!
