//! Files: open and create by path, read and write through the file
//! descriptor, and directories.
use vstd::prelude::*;
use crate::syscall::{
    Syscall, is_call, count_reply, unit_reply, read_count, read_unit, SYS_OPEN, SYS_READ,
    SYS_FWRITE, SYS_CLOSE, SYS_MKDIR,
};

verus! {

/// An open file, by its descriptor.
pub struct File {
    pub fd: usize,
}

/// The file a reply to an open request denotes, or its error code.
pub open spec fn opened(reply: i64) -> Result<File, i64> {
    if reply < 0 {
        Err(reply)
    } else {
        Ok(File { fd: reply as usize })
    }
}

impl File {
    /// The request that opens the path of `len` bytes at `addr` for reading.
    pub fn open_syscall(addr: u64, len: usize) -> (r: Syscall)
        ensures
            is_call(r, SYS_OPEN, seq![addr, len as u64, 0]),
    {
        Syscall::new3(SYS_OPEN, addr, len as u64, 0)
    }

    /// The file opened for reading, given the kernel's reply (a negative
    /// reply is the error code).
    pub fn open(reply: i64) -> (r: Result<File, i64>)
        ensures
            r == opened(reply),
    {
        if reply < 0 {
            Err(reply)
        } else {
            Ok(File { fd: reply as usize })
        }
    }

    /// The request that creates or opens the path of `len` bytes at `addr`
    /// for writing.
    pub fn create_syscall(addr: u64, len: usize) -> (r: Syscall)
        ensures
            is_call(r, SYS_OPEN, seq![addr, len as u64, 1]),
    {
        Syscall::new3(SYS_OPEN, addr, len as u64, 1)
    }

    /// The file opened for writing, given the kernel's reply.
    pub fn create(reply: i64) -> (r: Result<File, i64>)
        ensures
            r == opened(reply),
    {
        File::open(reply)
    }

    /// The file descriptor.
    pub fn as_raw_fd(&self) -> (r: usize)
        ensures
            r == self.fd,
    {
        self.fd
    }

    /// The request that reads up to `len` bytes into the buffer at `addr`.
    pub fn read_syscall(&self, addr: u64, len: usize) -> (r: Syscall)
        ensures
            is_call(r, SYS_READ, seq![self.fd as u64, addr, len as u64]),
    {
        Syscall::new3(SYS_READ, self.fd as u64, addr, len as u64)
    }

    /// The byte count read, given the kernel's reply.
    pub fn read(&self, reply: i64) -> (r: Result<usize, i64>)
        ensures
            r == count_reply(reply),
    {
        read_count(reply)
    }

    /// The request that writes `len` bytes from the buffer at `addr`.
    pub fn write_syscall(&self, addr: u64, len: usize) -> (r: Syscall)
        ensures
            is_call(r, SYS_FWRITE, seq![self.fd as u64, addr, len as u64]),
    {
        Syscall::new3(SYS_FWRITE, self.fd as u64, addr, len as u64)
    }

    /// The byte count written, given the kernel's reply.
    pub fn write(&self, reply: i64) -> (r: Result<usize, i64>)
        ensures
            r == count_reply(reply),
    {
        read_count(reply)
    }

    /// The request that closes the file (made when the file is dropped).
    pub fn close_syscall(&self) -> (r: Syscall)
        ensures
            is_call(r, SYS_CLOSE, seq![self.fd as u64]),
    {
        Syscall::new1(SYS_CLOSE, self.fd as u64)
    }
}

/// What reading a file to its end delivers, from the replies to the
/// read requests in order, each with the buffer it filled: the bytes of
/// each positive reply in turn, up to the first reply of 0 (the end) or
/// the end of the list; the first negative reply is the error.
pub open spec fn read_to_end(reads: Seq<(i64, Vec<u8>)>) -> Result<Seq<u8>, i64>
    decreases reads.len(),
{
    if reads.len() == 0 {
        Ok(Seq::empty())
    } else if reads[0].0 < 0 {
        Err(reads[0].0)
    } else if reads[0].0 == 0 {
        Ok(Seq::empty())
    } else {
        match read_to_end(reads.drop_first()) {
            Ok(rest) => Ok(reads[0].1@.take(reads[0].0 as int) + rest),
            Err(e) => Err(e),
        }
    }
}

/// Each positive reply counts no more bytes than its buffer holds.
pub open spec fn reads_fit(reads: Seq<(i64, Vec<u8>)>) -> bool {
    forall|i: int| 0 <= i < reads.len() ==> #[trigger] reads[i].0 <= reads[i].1@.len()
}

/// `Vec::leak`: the vector's bytes, kept for the rest of the program;
/// the slice holds exactly the vector's elements.
#[verifier::external_body]
fn leak_bytes(v: Vec<u8>) -> (r: &'static [u8])
    ensures
        r@ == v@,
{
    v.leak()
}

/// Whether reading a file goes on after a read that replied `reply`:
/// only after a read that delivered bytes.
pub fn read_continues(reply: i64) -> (r: bool)
    ensures
        r == (reply > 0),
{
    reply > 0
}

/// The whole contents of a file: given the reply to the open request and
/// the replies to the read requests that followed (each with the buffer
/// it filled), the bytes read up to the end; a failed open or read gives
/// its error.
pub fn read(open_reply: i64, reads: &[(i64, Vec<u8>)]) -> (r: Result<&'static [u8], i64>)
    requires
        reads_fit(reads@),
    ensures
        open_reply < 0 ==> r == Err::<&'static [u8], i64>(open_reply),
        open_reply >= 0 ==> match read_to_end(reads@) {
            Ok(d) => r matches Ok(b) && b@ == d,
            Err(e) => r == Err::<&'static [u8], i64>(e),
        },
{
    if let Err(e) = File::open(open_reply) {
        return Err(e);
    }
    let mut data: Vec<u8> = Vec::new();
    let n = reads.len();
    let mut i: usize = 0;
    proof {
        assert(reads@.skip(0) =~= reads@);
        assert forall|rest: Seq<u8>| #[trigger] (data@ + rest) == rest by {
            assert(data@ + rest =~= rest);
        }
    }
    while i < n
        invariant
            open_reply >= 0,
            n == reads@.len(),
            i <= n,
            reads_fit(reads@),
            read_to_end(reads@) == (match read_to_end(reads@.skip(i as int)) {
                Ok(rest) => Ok(data@ + rest),
                Err(e) => Err(e),
            }),
        decreases n - i,
    {
        let reply = reads[i].0;
        let ghost tail = reads@.skip(i as int);
        proof {
            assert(tail[0] == reads@[i as int]);
            assert(tail.drop_first() =~= reads@.skip(i + 1));
            assert(reads@[i as int].0 <= reads@[i as int].1@.len());
        }
        if reply < 0 {
            return Err(reply);
        }
        if reply == 0 {
            proof {
                assert(data@ + Seq::<u8>::empty() =~= data@);
            }
            return Ok(leak_bytes(data));
        }
        let chunk = &reads[i].1;
        let clen = chunk.len();
        let m = reply as usize;
        assert(m as int == reply as int);
        let ghost before = data@;
        let mut j: usize = 0;
        while j < m
            invariant
                j <= m,
                m as int == reply as int,
                m <= chunk@.len(),
                data@ == before + chunk@.take(j as int),
            decreases m - j,
        {
            data.push(chunk[j]);
            j += 1;
            proof {
                assert(data@ =~= before + chunk@.take(j as int));
            }
        }
        proof {
            assert forall|rest: Seq<u8>| true implies before + (chunk@.take(m as int) + rest) =~= data@
                + rest by {}
        }
        i += 1;
    }
    proof {
        assert(reads@.skip(n as int) =~= Seq::<(i64, Vec<u8>)>::empty());
        assert(data@ + Seq::<u8>::empty() =~= data@);
    }
    Ok(leak_bytes(data))
}

/// The request that creates the directory whose path is the `len` bytes
/// at `addr`.
pub fn create_dir_syscall(addr: u64, len: usize) -> (r: Syscall)
    ensures
        is_call(r, SYS_MKDIR, seq![addr, len as u64]),
{
    Syscall::new2(SYS_MKDIR, addr, len as u64)
}

/// The outcome of creating a directory, given the kernel's reply.
pub fn create_dir(reply: i64) -> (r: Result<(), i64>)
    ensures
        r == unit_reply(reply),
{
    read_unit(reply)
}

} // verus!
