//! The boundary to the operating system: the calls the runtime asks for and
//! the raw results it gets back.

use crate::epoll::{CtlOp, EpollEvent};
use crate::tcp_listener::Ipv4Addr;
use vstd::prelude::*;

verus! {

/// The `errno` value with which a nonblocking descriptor reports that an
/// operation cannot complete now (`EAGAIN`; on Linux `EWOULDBLOCK` is the
/// same number).
pub const EAGAIN: i32 = 11;

/// A failed operating-system call, carrying the code the system reported.
#[derive(Clone, Copy, Debug, PartialEq, Eq, Structural)]
pub struct OsError {
    pub code: i32,
}

impl OsError {
    /// Whether the code only says "try again later".
    pub open spec fn would_block(self) -> bool {
        self.code == EAGAIN
    }

    /// Whether the code only says "try again later".
    pub fn is_would_block(&self) -> (b: bool)
        ensures
            b == self.would_block(),
    {
        self.code == EAGAIN
    }
}

/// What a raw call handed back: its return value and the value `errno` had
/// right after it. `errno` means something only when `ret` is -1.
#[derive(Clone, Copy, Debug, PartialEq, Eq, Structural)]
pub struct SysRet {
    pub ret: i64,
    pub errno: i32,
}

/// A raw result sorted into the three ways a nonblocking call can end.
#[derive(Clone, Copy, Debug, PartialEq, Eq, Structural)]
pub enum Outcome {
    /// The call succeeded and returned this value.
    Value(i64),
    /// The call could not complete without blocking.
    WouldBlock,
    /// The call failed for any other reason.
    Failed(OsError),
}

impl SysRet {
    /// The result of a call that returned `value`.
    pub fn returned(value: i64) -> (r: SysRet)
        ensures
            r == (SysRet { ret: value, errno: 0 }),
    {
        SysRet { ret: value, errno: 0 }
    }

    /// The result of a call that failed with `errno`.
    pub fn failed(errno: i32) -> (r: SysRet)
        ensures
            r == (SysRet { ret: -1i64, errno }),
    {
        SysRet { ret: -1, errno }
    }

    /// A return value of -1 is the failure `errno`; anything else is success.
    pub open spec fn checked(self) -> Result<i64, OsError> {
        if self.ret == -1 {
            Err(OsError { code: self.errno })
        } else {
            Ok(self.ret)
        }
    }

    /// The three-way reading of a raw result.
    pub open spec fn outcome(self) -> Outcome {
        match self.checked() {
            Ok(v) => Outcome::Value(v),
            Err(e) => if e.would_block() {
                Outcome::WouldBlock
            } else {
                Outcome::Failed(e)
            },
        }
    }

    /// The result with only success or failure kept.
    pub open spec fn checked_unit(self) -> Result<(), OsError> {
        match self.checked() {
            Ok(_) => Ok(()),
            Err(e) => Err(e),
        }
    }

    /// The result read as a 32-bit number: a descriptor, or a word of flags.
    pub open spec fn checked_int(self) -> Result<i32, OsError> {
        match self.checked() {
            Ok(v) => Ok(v as i32),
            Err(e) => Err(e),
        }
    }

    /// The result read as a count.
    pub open spec fn checked_count(self) -> Result<usize, OsError> {
        match self.checked() {
            Ok(v) => Ok(v as usize),
            Err(e) => Err(e),
        }
    }

    /// Turns the raw result into `Ok` with the returned value or `Err` with
    /// the reported code.
    pub fn check(&self) -> (r: Result<i64, OsError>)
        ensures
            r == self.checked(),
    {
        if self.ret == -1 {
            Err(OsError { code: self.errno })
        } else {
            Ok(self.ret)
        }
    }

    /// Sorts the raw result into value, would-block or failure.
    pub fn classify(&self) -> (o: Outcome)
        ensures
            o == self.outcome(),
    {
        match self.check() {
            Ok(v) => Outcome::Value(v),
            Err(e) => if e.is_would_block() {
                Outcome::WouldBlock
            } else {
                Outcome::Failed(e)
            },
        }
    }

    /// Like [`SysRet::check`], for a call whose value on success says nothing.
    pub fn check_unit(&self) -> (r: Result<(), OsError>)
        ensures
            r == self.checked_unit(),
    {
        match self.check() {
            Ok(_) => Ok(()),
            Err(e) => Err(e),
        }
    }

    /// Like [`SysRet::check`], for a call that returns a descriptor or a word
    /// of flags.
    pub fn check_int(&self) -> (r: Result<i32, OsError>)
        ensures
            r == self.checked_int(),
    {
        match self.check() {
            Ok(v) => Ok(#[verifier::truncate] (v as i32)),
            Err(e) => Err(e),
        }
    }

    /// Like [`SysRet::check`], for a call that returns a count.
    pub fn check_count(&self) -> (r: Result<usize, OsError>)
        ensures
            r == self.checked_count(),
    {
        match self.check() {
            Ok(v) => Ok(#[verifier::truncate] (v as usize)),
            Err(e) => Err(e),
        }
    }
}

/// One call the runtime wants the operating system to make. The caller
/// performs it and hands the raw result back as a [`SysRet`].
#[derive(Clone, Copy, Debug, PartialEq, Eq)]
pub enum Syscall {
    /// Create a readiness instance, closed on exec if `cloexec` is set.
    EpollCreate { cloexec: bool },
    /// Change the interest list of instance `epfd` for descriptor `fd`.
    /// `event` is absent when an entry is removed.
    EpollCtl { epfd: i32, op: CtlOp, fd: i32, event: Option<EpollEvent> },
    /// Block on instance `epfd` until a descriptor is ready, with room for
    /// `max_events` reports. A `timeout` of -1 waits without limit.
    EpollWait { epfd: i32, max_events: i32, timeout: i32 },
    /// Create an IPv4 stream socket that is closed on exec.
    Socket,
    /// Read the descriptor flags of `fd`.
    GetFdFlags { fd: i32 },
    /// Store `flags` as the descriptor flags of `fd`, with the close-on-exec
    /// flag added.
    SetCloexec { fd: i32, flags: i32 },
    /// Read the status flags of `fd`.
    GetFlags { fd: i32 },
    /// Store `flags` as the status flags of `fd`, with the nonblocking flag
    /// added.
    SetNonblocking { fd: i32, flags: i32 },
    /// Allow `fd` to bind an address that is still in use.
    SetReuseAddr { fd: i32 },
    /// Bind `fd` to `addr` and `port`.
    Bind { fd: i32, addr: Ipv4Addr, port: u16 },
    /// Start listening on `fd` with room for `backlog` pending connections.
    Listen { fd: i32, backlog: i32 },
    /// Take one pending connection from the listening `fd`.
    Accept { fd: i32 },
    /// Read up to `len` bytes from `fd`.
    Read { fd: i32, len: usize },
    /// Write the `len` bytes of the operation's buffer to `fd`.
    Write { fd: i32, len: usize },
    /// Close `fd`.
    Close { fd: i32 },
}

/// Where an operation that needs the operating system stands: it either asks
/// for one more call, remembering `S`, or is done with `T`.
#[derive(Debug, PartialEq, Eq)]
pub enum Step<S, T> {
    /// Make this call and come back with its result and this state.
    Call(S, Syscall),
    /// Nothing more to ask; this is the result.
    Done(T),
}

} // verus!
