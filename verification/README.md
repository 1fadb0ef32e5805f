# merlion_std

A standard library for MerlionOS programs, written in Verus.

Every kernel operation is split in two: `src/` builds the request (a
`Syscall`: number and arguments of an `int 0x80` call) and reads the
kernel's reply into the operation's result, each with a contract; the trap
itself and the handles that release kernel objects on drop are in `app/`.

- `src/syscall.rs`: syscall numbers, the request type, how replies are read.
- `src/collections/`: a slot map and set keyed by the views of their keys
  (`MapKey`; views: `Map`, `Set`) and FNV-1a.
- `src/alloc_impl.rs`: the bump heap (placement, alignment, page growth,
  and that no block overlaps an earlier one).
- `src/net/`: IPv4 and socket addresses, their text, TCP requests.
- `src/mio.rs`: interest and event flags, epoll requests, polled events.
- `src/io.rs`, `fs.rs`, `env.rs`, `process.rs`, `thread.rs`, `time.rs`,
  `sync.rs`, `os.rs`, `text.rs`: the std-shaped modules.
- `src/sys/merlionos/`: the platform layer (descriptors, sockets, futex
  lock words, clocks).
- `tests/`: concrete checks of the contracts and laws.
- `app/`: the trap into the kernel, the global allocator, and handle types.
