//! A small asynchronous runtime for nonblocking sockets, stated as verified
//! decisions: a readiness reactor, a bounded ready queue with its executor,
//! and socket operations that suspend on "would block".
//!
//! The library never talks to the operating system itself. Every call it
//! wants made is a [`sys::Syscall`] value handed to the caller, and every
//! result comes back as a [`sys::SysRet`]. What happens in between is the
//! caller's business; what is decided before and after is proved here.
//!
//! Operations that need more than one call are written as steps: a function
//! takes the state the previous step returned and the result of the call
//! that step asked for, and returns the next call or the final result.
//!
//! * [`sys`], [`epoll`], [`epoll_syscall`]: the calls, their results, and
//!   the readiness multiplexer.
//! * [`reactor`]: who waits for which descriptor, and the loop that wakes
//!   them.
//! * [`executor`]: tasks, the bounded ready queue, and the turn of the
//!   executor. [`yielding`] is a computation to try it on.
//! * [`tcp_listener`]: listener and stream, with accept, read and write as
//!   operations that can be suspended.
//! * [`server`]: the echo service on top of these.
//!
//! Around the runtime stand the pieces a server is set up with:
//! [`conf`] and [`environment`] read its configuration, [`router`],
//! [`handler`], [`extract`] and [`response`] decide where a request goes and
//! what an answer is made of, and [`read_sum`] adds up a file of numbers.
//! [`notes`] holds the headings of the course notes.

pub mod conf;
pub mod environment;
pub mod epoll;
pub mod epoll_syscall;
pub mod executor;
pub mod extract;
pub mod handler;
pub mod notes;
pub mod reactor;
pub mod read_sum;
pub mod response;
pub mod router;
pub mod server;
pub mod sys;
pub mod tcp_listener;
pub mod text;
pub mod yielding;
