//! The names most programs use.
pub use crate::io::{Read, Write};
pub use crate::fs::File;
pub use crate::net::{TcpListener, TcpStream, SocketAddr, Ipv4Addr};
pub use crate::thread;
pub use crate::sync::{Mutex, Condvar};
pub use crate::time::{Instant, Duration};
pub use crate::process;
