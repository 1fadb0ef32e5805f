//! Readiness events over the kernel's epoll syscalls (230-232): tokens,
//! interest flags, events, and the requests that register sources and
//! wait for events.
use vstd::prelude::*;
use crate::io::{Error, Result, is_error};
use crate::os::RawFd;
use crate::syscall::{
    Syscall, is_call, SYS_EPOLL_CREATE, SYS_EPOLL_CTL, SYS_EPOLL_WAIT, SYS_EVENTFD,
    SYS_EVENTFD_WRITE,
};
use crate::time::Duration;

verus! {

/// The epoll flag for readable (EPOLLIN).
pub const EPOLLIN: u32 = 0x001;

/// The epoll flag for writable (EPOLLOUT).
pub const EPOLLOUT: u32 = 0x004;

/// The epoll flag for an error (EPOLLERR).
pub const EPOLLERR: u32 = 0x008;

/// The epoll flag for a hang-up (EPOLLHUP).
pub const EPOLLHUP: u32 = 0x010;

/// The epoll_ctl operation that adds a source.
pub const EPOLL_CTL_ADD: u64 = 1;

/// The epoll_ctl operation that removes a source.
pub const EPOLL_CTL_DEL: u64 = 2;

/// The epoll_ctl operation that changes a registration.
pub const EPOLL_CTL_MOD: u64 = 3;

/// Identifies a registered event source.
#[derive(Clone, Copy, Debug, PartialEq, Eq, Structural, Hash)]
pub struct Token(pub usize);

/// The readiness a source is registered for: epoll flag bits.
#[derive(Clone, Copy, Debug, PartialEq, Eq, Structural)]
pub struct Interest(pub u32);

impl Interest {
    /// Readable (EPOLLIN).
    pub fn readable() -> (r: Interest)
        ensures
            r.0 == EPOLLIN,
    {
        Interest(EPOLLIN)
    }

    /// Writable (EPOLLOUT).
    pub fn writable() -> (r: Interest)
        ensures
            r.0 == EPOLLOUT,
    {
        Interest(EPOLLOUT)
    }

    /// Whether the readable bit is set.
    pub fn is_readable(self) -> (r: bool)
        ensures
            r == (self.0 & EPOLLIN != 0),
    {
        self.0 & EPOLLIN != 0
    }

    /// Whether the writable bit is set.
    pub fn is_writable(self) -> (r: bool)
        ensures
            r == (self.0 & EPOLLOUT != 0),
    {
        self.0 & EPOLLOUT != 0
    }

    /// Both interests together: the union of the flag bits.
    pub fn add(self, other: Interest) -> (r: Interest)
        ensures
            r.0 == self.0 | other.0,
    {
        Interest(self.0 | other.0)
    }
}

impl core::ops::BitOr for Interest {
    type Output = Interest;

    fn bitor(self, rhs: Interest) -> (r: Interest)
        ensures
            r.0 == self.0 | rhs.0,
    {
        Interest(self.0 | rhs.0)
    }
}

impl vstd::std_specs::ops::BitOrSpecImpl for Interest {
    open spec fn obeys_bitor_spec() -> bool {
        true
    }

    open spec fn bitor_req(self, rhs: Interest) -> bool {
        true
    }

    open spec fn bitor_spec(self, rhs: Interest) -> Interest {
        Interest(self.0 | rhs.0)
    }
}

/// Combined interest is readable exactly when one part is, and writable
/// exactly when one part is.
pub proof fn law_interest_add(a: Interest, b: Interest)
    ensures
        ((a.0 | b.0) & EPOLLIN != 0) == ((a.0 & EPOLLIN != 0) || (b.0 & EPOLLIN != 0)),
        ((a.0 | b.0) & EPOLLOUT != 0) == ((a.0 & EPOLLOUT != 0) || (b.0 & EPOLLOUT != 0)),
{
    let x = a.0;
    let y = b.0;
    assert(((x | y) & 1u32 != 0) == ((x & 1u32 != 0) || (y & 1u32 != 0))) by (bit_vector);
    assert(((x | y) & 4u32 != 0) == ((x & 4u32 != 0) || (y & 4u32 != 0))) by (bit_vector);
}

/// A readiness event: epoll flag bits and the token of its source.
#[derive(Clone, Copy, Debug)]
pub struct Event {
    pub events: u32,
    pub token: Token,
}

impl Event {
    /// The token of the source.
    pub fn token(&self) -> (r: Token)
        ensures
            r == self.token,
    {
        self.token
    }

    /// Whether the source is readable.
    pub fn is_readable(&self) -> (r: bool)
        ensures
            r == (self.events & EPOLLIN != 0),
    {
        self.events & EPOLLIN != 0
    }

    /// Whether the source is writable.
    pub fn is_writable(&self) -> (r: bool)
        ensures
            r == (self.events & EPOLLOUT != 0),
    {
        self.events & EPOLLOUT != 0
    }

    /// Whether the source reported an error.
    pub fn is_error(&self) -> (r: bool)
        ensures
            r == (self.events & EPOLLERR != 0),
    {
        self.events & EPOLLERR != 0
    }

    /// Whether the read half was closed (a hang-up).
    pub fn is_read_closed(&self) -> (r: bool)
        ensures
            r == (self.events & EPOLLHUP != 0),
    {
        self.events & EPOLLHUP != 0
    }

    /// Whether the write half was closed (a hang-up).
    pub fn is_write_closed(&self) -> (r: bool)
        ensures
            r == (self.events & EPOLLHUP != 0),
    {
        self.events & EPOLLHUP != 0
    }
}

/// The events one wait returned, and how many a wait may return.
pub struct Events {
    inner: Vec<Event>,
    capacity: usize,
}

impl View for Events {
    type V = Seq<Event>;

    closed spec fn view(&self) -> Seq<Event> {
        self.inner@
    }
}

impl Events {
    /// How many events a wait may return.
    pub closed spec fn capacity_spec(&self) -> usize {
        self.capacity
    }

    /// No events yet, room for `capacity`.
    pub fn with_capacity(capacity: usize) -> (r: Self)
        ensures
            r@ == Seq::<Event>::empty(),
            r.capacity_spec() == capacity,
    {
        Events { inner: Vec::with_capacity(capacity), capacity }
    }

    /// How many events a wait may return.
    pub fn capacity(&self) -> (r: usize)
        ensures
            r == self.capacity_spec(),
    {
        self.capacity
    }

    /// Whether there are no events.
    pub fn is_empty(&self) -> (r: bool)
        ensures
            r == (self@.len() == 0),
    {
        self.inner.len() == 0
    }

    /// The number of events.
    pub fn len(&self) -> (r: usize)
        ensures
            r == self@.len(),
    {
        self.inner.len()
    }

    /// Drops all events, keeping the capacity.
    pub fn clear(&mut self)
        ensures
            final(self)@ == Seq::<Event>::empty(),
            final(self).capacity_spec() == old(self).capacity_spec(),
    {
        self.inner.clear();
    }

    /// The events, in order.
    pub fn iter(&self) -> (r: &[Event])
        ensures
            r@ == self@,
    {
        self.inner.as_slice()
    }
}

/// The first argument of epoll_ctl: the epoll descriptor in the high 32
/// bits, the operation in the low ones.
pub open spec fn epoll_op_word(epfd: i64, op: u64) -> u64 {
    ((epfd as u64) << 32u64) | op
}

/// The event word of epoll_ctl: the interest bits with the token packed
/// above them, from bit 16.
pub open spec fn epoll_event_word(token: Token, interests: Interest) -> u32 {
    interests.0 | ((token.0 as u32) << 16u32)
}

/// The kernel can read the token (to 16 bits) and the interests back out
/// of an event word, as long as the interests stay below bit 16.
pub proof fn law_event_word_decodes(token: Token, interests: Interest)
    requires
        interests.0 < 0x1_0000,
    ensures
        epoll_event_word(token, interests) & 0xffff == interests.0,
        epoll_event_word(token, interests) >> 16u32 == (token.0 as u32) & 0xffff,
{
    let i = interests.0;
    let t = token.0 as u32;
    assert((i | (t << 16u32)) & 0xffff == i && (i | (t << 16u32)) >> 16u32 == t & 0xffff) by (bit_vector)
        requires
            i < 0x1_0000,
    ;
}

/// The operation word keeps the descriptor's low 32 bits above the
/// operation.
pub proof fn law_op_word_decodes(epfd: i64, op: u64)
    requires
        op < 0x1_0000_0000,
    ensures
        epoll_op_word(epfd, op) & 0xffff_ffff == op,
        epoll_op_word(epfd, op) >> 32u64 == (epfd as u64) & 0xffff_ffff,
{
    let e = epfd as u64;
    assert(((e << 32u64) | op) & 0xffff_ffff == op && ((e << 32u64) | op) >> 32u64 == e & 0xffff_ffff)
        by (bit_vector)
        requires
            op < 0x1_0000_0000,
    ;
}

/// Where event sources are registered: an epoll descriptor.
pub struct Registry {
    pub epfd: i64,
}

impl Registry {
    /// The request that registers `fd` for `interests` under `token`.
    pub fn register_fd_syscall(&self, fd: RawFd, token: Token, interests: Interest) -> (r: Syscall)
        ensures
            is_call(
                r,
                SYS_EPOLL_CTL,
                seq![
                    epoll_op_word(self.epfd, EPOLL_CTL_ADD),
                    fd as u64,
                    epoll_event_word(token, interests) as u64,
                ],
            ),
    {
        let epfd_op = ((self.epfd as u64) << 32u64) | EPOLL_CTL_ADD;
        let events = interests.0 | ((token.0 as u32) << 16u32);
        Syscall::new3(SYS_EPOLL_CTL, epfd_op, fd as u64, events as u64)
    }

    /// The outcome of registering, given the kernel's reply.
    pub fn register_fd(&self, reply: i64) -> (r: Result<()>)
        ensures
            match r {
                Ok(()) => reply >= 0,
                Err(e) => reply < 0 && is_error(e, reply, "epoll_ctl add failed"),
            },
    {
        if reply < 0 {
            Err(Error::new(reply, "epoll_ctl add failed"))
        } else {
            Ok(())
        }
    }

    /// The request that changes the registration of `fd`.
    pub fn reregister_fd_syscall(&self, fd: RawFd, token: Token, interests: Interest) -> (r: Syscall)
        ensures
            is_call(
                r,
                SYS_EPOLL_CTL,
                seq![
                    epoll_op_word(self.epfd, EPOLL_CTL_MOD),
                    fd as u64,
                    epoll_event_word(token, interests) as u64,
                ],
            ),
    {
        let epfd_op = ((self.epfd as u64) << 32u64) | EPOLL_CTL_MOD;
        let events = interests.0 | ((token.0 as u32) << 16u32);
        Syscall::new3(SYS_EPOLL_CTL, epfd_op, fd as u64, events as u64)
    }

    /// The outcome of changing a registration, given the kernel's reply.
    pub fn reregister_fd(&self, reply: i64) -> (r: Result<()>)
        ensures
            match r {
                Ok(()) => reply >= 0,
                Err(e) => reply < 0 && is_error(e, reply, "epoll_ctl mod failed"),
            },
    {
        if reply < 0 {
            Err(Error::new(reply, "epoll_ctl mod failed"))
        } else {
            Ok(())
        }
    }

    /// The request that removes `fd`.
    pub fn deregister_fd_syscall(&self, fd: RawFd) -> (r: Syscall)
        ensures
            is_call(r, SYS_EPOLL_CTL, seq![epoll_op_word(self.epfd, EPOLL_CTL_DEL), fd as u64, 0]),
    {
        let epfd_op = ((self.epfd as u64) << 32u64) | EPOLL_CTL_DEL;
        Syscall::new3(SYS_EPOLL_CTL, epfd_op, fd as u64, 0)
    }

    /// The outcome of removing a source, given the kernel's reply.
    pub fn deregister_fd(&self, reply: i64) -> (r: Result<()>)
        ensures
            match r {
                Ok(()) => reply >= 0,
                Err(e) => reply < 0 && is_error(e, reply, "epoll_ctl del failed"),
            },
    {
        if reply < 0 {
            Err(Error::new(reply, "epoll_ctl del failed"))
        } else {
            Ok(())
        }
    }
}

/// An event poller: an epoll descriptor.
pub struct Poll {
    pub epfd: i64,
}

/// The timeout argument of a wait: the milliseconds, capped at the
/// largest 32-bit signed number so that a bounded wait stays bounded, or
/// -1 (all bits set) to wait without end.
pub open spec fn timeout_word(timeout: Option<Duration>) -> u64 {
    match timeout {
        Some(d) => if d.ms > i32::MAX {
            i32::MAX as u64
        } else {
            d.ms as u64
        },
        None => u64::MAX,
    }
}

/// The events a wait that reported `n` yields: `n` events, readable and
/// writable, with tokens 0 to n - 1.
pub open spec fn polled_events(n: int) -> Seq<Event> {
    Seq::new(n as nat, |i: int| Event { events: EPOLLIN | EPOLLOUT, token: Token(i as usize) })
}

/// Every event a successful wait yields reports its source readable and
/// writable and nothing else (flags 0x001 | 0x004): no error, no hang-up,
/// so neither half reads as closed; the tokens count up from 0.
pub proof fn law_polled_events_ready(n: int)
    requires
        n >= 0,
    ensures
        polled_events(n).len() == n,
        forall|i: int| 0 <= i < n ==> {
            let e = #[trigger] polled_events(n)[i];
            &&& e.events == 0x005u32
            &&& e.events & 0x001u32 != 0
            &&& e.events & 0x004u32 != 0
            &&& e.events & 0x008u32 == 0
            &&& e.events & 0x010u32 == 0
            &&& e.token == Token(i as usize)
        },
{
    assert(EPOLLIN | EPOLLOUT == 0x005u32) by (bit_vector);
    let v: u32 = 0x005u32;
    assert(v & 0x001u32 != 0 && v & 0x004u32 != 0 && v & 0x008u32 == 0 && v & 0x010u32 == 0)
        by (bit_vector)
        requires v == 0x005u32;
}

impl Poll {
    /// The request that creates an epoll descriptor.
    pub fn new_syscall() -> (r: Syscall)
        ensures
            is_call(r, SYS_EPOLL_CREATE, seq![]),
    {
        Syscall::new0(SYS_EPOLL_CREATE)
    }

    /// The poller, given the kernel's reply; a negative reply is the error
    /// "epoll_create failed".
    pub fn new(reply: i64) -> (r: Result<Poll>)
        ensures
            match r {
                Ok(p) => reply >= 0 && p.epfd == reply,
                Err(e) => reply < 0 && is_error(e, reply, "epoll_create failed"),
            },
    {
        if reply < 0 {
            Err(Error::new(reply, "epoll_create failed"))
        } else {
            Ok(Poll { epfd: reply })
        }
    }

    /// The registry of this poller.
    pub fn registry(&self) -> (r: Registry)
        ensures
            r.epfd == self.epfd,
    {
        Registry { epfd: self.epfd }
    }

    /// The request that waits for up to `events`' capacity of events, for
    /// at most `timeout` (capped at `i32::MAX` milliseconds), or without end.
    pub fn poll_syscall(&self, events: &Events, timeout: Option<Duration>) -> (r: Syscall)
        ensures
            is_call(
                r,
                SYS_EPOLL_WAIT,
                seq![self.epfd as u64, events.capacity_spec() as u64, timeout_word(timeout)],
            ),
    {
        let timeout_word: u64 = match timeout {
            Some(d) => {
                let ms = d.as_millis();
                if ms > i32::MAX as u64 {
                    i32::MAX as u64
                } else {
                    ms
                }
            },
            None => u64::MAX,
        };
        Syscall::new3(SYS_EPOLL_WAIT, self.epfd as u64, events.capacity as u64, timeout_word)
    }

    /// Fills `events` from the kernel's reply to a wait: the old events are
    /// dropped, and a reply of `n` gives `n` events with tokens 0 to n - 1;
    /// a negative reply is the error "epoll_wait failed".
    pub fn poll(&mut self, events: &mut Events, reply: i64) -> (r: Result<()>)
        ensures
            *final(self) == *old(self),
            final(events).capacity_spec() == old(events).capacity_spec(),
            r is Ok ==> forall|i: int|
                0 <= i < final(events)@.len() ==> #[trigger] final(events)@[i].events == 0x005u32
                    && final(events)@[i].token == Token(i as usize),
            match r {
                Ok(()) => reply >= 0 && final(events)@ == polled_events(reply as usize as int),
                Err(e) => reply < 0 && is_error(e, reply, "epoll_wait failed") && final(events)@
                    == Seq::<Event>::empty(),
            },
    {
        events.clear();
        if reply < 0 {
            return Err(Error::new(reply, "epoll_wait failed"));
        }
        let n = reply as usize;
        let mut i: usize = 0;
        while i < n
            invariant
                i <= n,
                events.inner@ == polled_events(i as int),
                events.capacity == old(events).capacity,
                *self == *old(self),
            decreases n - i,
        {
            events.inner.push(Event { events: EPOLLIN | EPOLLOUT, token: Token(i) });
            i += 1;
            proof {
                assert(events.inner@ =~= polled_events(i as int));
            }
        }
        proof {
            law_polled_events_ready(n as int);
        }
        Ok(())
    }
}

/// Wakes a poller from elsewhere, through an event descriptor.
pub struct Waker {
    pub fd: i64,
}

impl Waker {
    /// The request that creates the event descriptor.
    pub fn eventfd_syscall() -> (r: Syscall)
        ensures
            is_call(r, SYS_EVENTFD, seq![0, 0]),
    {
        Syscall::new2(SYS_EVENTFD, 0, 0)
    }

    /// The waker, given the kernel's reply to creating the event
    /// descriptor; a negative reply is the error "eventfd failed".
    pub fn new(registry: &Registry, token: Token, reply: i64) -> (r: Result<Waker>)
        ensures
            match r {
                Ok(w) => reply >= 0 && w.fd == reply,
                Err(e) => reply < 0 && is_error(e, reply, "eventfd failed"),
            },
    {
        if reply < 0 {
            return Err(Error::new(reply, "eventfd failed"));
        }
        Ok(Waker { fd: reply })
    }

    /// The request that registers the event descriptor with the poller, as
    /// readable (the kernel's answer is not looked at).
    pub fn register_syscall(&self, registry: &Registry) -> (r: Syscall)
        ensures
            is_call(
                r,
                SYS_EPOLL_CTL,
                seq![epoll_op_word(registry.epfd, EPOLL_CTL_ADD), self.fd as u64, EPOLLIN as u64],
            ),
    {
        let epfd_op = ((registry.epfd as u64) << 32u64) | EPOLL_CTL_ADD;
        Syscall::new3(SYS_EPOLL_CTL, epfd_op, self.fd as u64, EPOLLIN as u64)
    }

    /// The request that wakes the poller: adds one to the event counter.
    pub fn wake_syscall(&self) -> (r: Syscall)
        ensures
            is_call(r, SYS_EVENTFD_WRITE, seq![self.fd as u64, 1]),
    {
        Syscall::new2(SYS_EVENTFD_WRITE, self.fd as u64, 1)
    }

    /// Waking succeeds whatever the kernel answers.
    pub fn wake(&self) -> (r: Result<()>)
        ensures
            r is Ok,
    {
        Ok(())
    }
}

} // verus!
