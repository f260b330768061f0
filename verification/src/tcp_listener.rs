//! Nonblocking sockets: a listener, a stream, and the accept, read and write
//! operations as computations that can be suspended and resumed.
//!
//! Each resume of an operation tries the raw call. If the call would block,
//! the operation registers its descriptor with the reactor under the handle
//! of the task that runs it and reports that it is still suspended. Any
//! other result completes the operation. Nothing is kept between resumes.

use crate::epoll::{answers, interest_after, CtlOp, EpollEventType};
use crate::executor::{Poll, Waker};
use crate::reactor::{registration, Reactor};
use crate::sys::{OsError, Outcome, Step, Syscall, SysRet};
use vstd::prelude::*;

verus! {

/// The number of pending connections a listener has room for.
pub const BACKLOG: i32 = 128;

/// An IPv4 address, kept as the 32-bit number whose most significant byte is
/// the first octet.
#[derive(Clone, Copy, Debug, PartialEq, Eq, Structural)]
pub struct Ipv4Addr {
    bits: u32,
}

/// The number `a.b.c.d` stands for: `a` in the top byte, `d` in the lowest.
pub open spec fn ipv4_bits(a: u8, b: u8, c: u8, d: u8) -> int {
    a as int * 0x100_0000 + b as int * 0x1_0000 + c as int * 0x100 + d as int
}

impl Ipv4Addr {
    /// The address as a number in host order.
    pub closed spec fn bits(self) -> u32 {
        self.bits
    }

    /// The octet at position `i`, counted from the left.
    pub open spec fn octet(self, i: int) -> int {
        (self.bits() as int / pow256(3 - i)) % 256
    }

    /// The address `a.b.c.d`.
    pub fn new(a: u8, b: u8, c: u8, d: u8) -> (addr: Ipv4Addr)
        ensures
            addr.bits() == ipv4_bits(a, b, c, d),
    {
        let hi: u32 = (a as u32) * 0x100_0000 + (b as u32) * 0x1_0000;
        let lo: u32 = (c as u32) * 0x100 + (d as u32);
        Ipv4Addr { bits: hi + lo }
    }

    /// The address as a number in host order, ready for conversion to
    /// network order.
    pub fn to_bits(&self) -> (bits: u32)
        ensures
            bits == self.bits(),
    {
        self.bits
    }

    /// The four octets, left to right.
    pub fn octets(&self) -> (o: (u8, u8, u8, u8))
        ensures
            self.bits() == ipv4_bits(o.0, o.1, o.2, o.3),
            o.0 == self.octet(0),
            o.1 == self.octet(1),
            o.2 == self.octet(2),
            o.3 == self.octet(3),
    {
        let bits: u32 = self.bits;
        let a: u32 = bits / 0x100_0000;
        let b: u32 = (bits / 0x1_0000) % 256;
        let c: u32 = (bits / 0x100) % 256;
        let d: u32 = bits % 256;
        (a as u8, b as u8, c as u8, d as u8)
    }
}

/// 256 to the power `n`, for `n` from 0 to 3.
pub open spec fn pow256(n: int) -> int {
    if n <= 0 {
        1
    } else if n == 1 {
        0x100
    } else if n == 2 {
        0x1_0000
    } else {
        0x100_0000
    }
}

/// `new` and `octets` undo each other.
pub proof fn lemma_ipv4_octets(a: u8, b: u8, c: u8, d: u8, addr: Ipv4Addr)
    requires
        addr.bits() == ipv4_bits(a, b, c, d),
    ensures
        addr.octet(0) == a,
        addr.octet(1) == b,
        addr.octet(2) == c,
        addr.octet(3) == d,
{
    let x = addr.bits() as int;
    let (a, b, c, d) = (a as int, b as int, c as int, d as int);
    assert(x / 0x100_0000 == a && x / 0x1_0000 == a * 0x100 + b && x / 0x100 == a * 0x1_0000 + b
        * 0x100 + c) by (nonlinear_arith)
        requires
            x == a * 0x100_0000 + b * 0x1_0000 + c * 0x100 + d,
            0 <= a < 256,
            0 <= b < 256,
            0 <= c < 256,
            0 <= d < 256,
    ;
    assert((a * 0x100 + b) % 256 == b && (a * 0x1_0000 + b * 0x100 + c) % 256 == c && x % 256
        == d) by (nonlinear_arith)
        requires
            x == a * 0x100_0000 + b * 0x1_0000 + c * 0x100 + d,
            0 <= a < 256,
            0 <= b < 256,
            0 <= c < 256,
            0 <= d < 256,
    ;
}

/// A listening socket. It owns its descriptor.
#[derive(Debug, PartialEq, Eq)]
pub struct TcpListener(i32);

/// A connected socket. It owns its descriptor.
#[derive(Debug, PartialEq, Eq)]
pub struct TcpStream(pub i32);

/// The connections that arrive at a listener, one accept at a time.
pub struct Incoming<'a>(&'a TcpListener);

/// The operation that accepts one connection.
pub struct AcceptFuture<'a>(&'a TcpListener);

/// The operation that reads once from a stream, into a buffer of the given
/// length.
pub struct ReadFuture<'a>(&'a TcpStream, usize);

/// The operation that writes a buffer once to a stream.
pub struct WriteFuture<'a>(&'a TcpStream, &'a [u8]);

/// Where [`TcpListener::bind`] stands: the call it asked for last.
#[derive(Clone, Copy, Debug, PartialEq, Eq, Structural)]
pub enum BindState {
    Start,
    Socket,
    GetFlags { sock: i32 },
    SetFlags { sock: i32 },
    ReuseAddr { sock: i32 },
    Bind { sock: i32 },
    Listen { sock: i32 },
}

/// Where [`TcpStream::setnonblocking`] stands: the call it asked for last.
#[derive(Clone, Copy, Debug, PartialEq, Eq, Structural)]
pub enum FlagState {
    Start,
    Reading,
    Storing,
}

/// Where one resume of a read or a write stands.
#[derive(Clone, Copy, Debug, PartialEq, Eq, Structural)]
pub enum IoState {
    /// Nothing has been asked for in this resume.
    Start,
    /// The raw read or write was asked for.
    Attempting,
    /// The raw call would block; registration with the reactor was asked
    /// for.
    Registering,
}

/// Where one resume of an accept stands.
#[derive(Clone, Copy, Debug, PartialEq, Eq, Structural)]
pub enum AcceptState {
    /// Nothing has been asked for in this resume.
    Start,
    /// The raw accept was asked for.
    Accepting,
    /// A connection was accepted on descriptor `fd` and is being made
    /// nonblocking.
    Nonblocking { fd: i32, flags: FlagState },
    /// The connection on descriptor `fd` is nonblocking and is being made
    /// close-on-exec.
    Cloexec { fd: i32, flags: FlagState },
    /// The accepted connection could not be made nonblocking or
    /// close-on-exec; its close was asked for, and `error` is what the
    /// operation will complete with.
    Closing { error: OsError },
    /// The raw call would block; registration with the reactor was asked
    /// for.
    Registering,
}

/// The step of binding in `state`, given the result `ret` of the call asked
/// for last: create the socket, read its flags, make it nonblocking, allow
/// address reuse, bind, listen. The first call that fails ends the sequence
/// with its error; after the last the descriptor of the listener is the
/// result.
pub open spec fn bind_step(addr: Ipv4Addr, port: u16, state: BindState, ret: SysRet) -> Step<
    BindState,
    Result<i32, OsError>,
> {
    match state {
        BindState::Start => Step::Call(BindState::Socket, Syscall::Socket),
        BindState::Socket => match ret.checked_int() {
            Ok(sock) => Step::Call(BindState::GetFlags { sock }, Syscall::GetFlags { fd: sock }),
            Err(e) => Step::Done(Err(e)),
        },
        BindState::GetFlags { sock } => match ret.checked_int() {
            Ok(flags) => Step::Call(
                BindState::SetFlags { sock },
                Syscall::SetNonblocking { fd: sock, flags },
            ),
            Err(e) => Step::Done(Err(e)),
        },
        BindState::SetFlags { sock } => match ret.checked_unit() {
            Ok(_) => Step::Call(BindState::ReuseAddr { sock }, Syscall::SetReuseAddr { fd: sock }),
            Err(e) => Step::Done(Err(e)),
        },
        BindState::ReuseAddr { sock } => match ret.checked_unit() {
            Ok(_) => Step::Call(BindState::Bind { sock }, Syscall::Bind { fd: sock, addr, port }),
            Err(e) => Step::Done(Err(e)),
        },
        BindState::Bind { sock } => match ret.checked_unit() {
            Ok(_) => Step::Call(
                BindState::Listen { sock },
                Syscall::Listen { fd: sock, backlog: BACKLOG },
            ),
            Err(e) => Step::Done(Err(e)),
        },
        BindState::Listen { sock } => match ret.checked_unit() {
            Ok(_) => Step::Done(Ok(sock)),
            Err(e) => Step::Done(Err(e)),
        },
    }
}

/// The step of making descriptor `fd` nonblocking: read the status flags,
/// then store them with the nonblocking flag added.
pub open spec fn nonblocking_step(fd: i32, state: FlagState, ret: SysRet) -> Step<
    FlagState,
    Result<(), OsError>,
> {
    match state {
        FlagState::Start => Step::Call(FlagState::Reading, Syscall::GetFlags { fd }),
        FlagState::Reading => match ret.checked_int() {
            Ok(flags) => Step::Call(FlagState::Storing, Syscall::SetNonblocking { fd, flags }),
            Err(e) => Step::Done(Err(e)),
        },
        FlagState::Storing => Step::Done(ret.checked_unit()),
    }
}

/// The step of making descriptor `fd` close-on-exec: read the descriptor
/// flags, then store them with the close-on-exec flag added.
pub open spec fn cloexec_step(fd: i32, state: FlagState, ret: SysRet) -> Step<
    FlagState,
    Result<(), OsError>,
> {
    match state {
        FlagState::Start => Step::Call(FlagState::Reading, Syscall::GetFdFlags { fd }),
        FlagState::Reading => match ret.checked_int() {
            Ok(flags) => Step::Call(FlagState::Storing, Syscall::SetCloexec { fd, flags }),
            Err(e) => Step::Done(Err(e)),
        },
        FlagState::Storing => Step::Done(ret.checked_unit()),
    }
}

/// The step of one resume of a read or write on descriptor `fd`. `attempt`
/// is the raw call, `op` the direction to wait for and `registry` the
/// registry of the reactor as the step finds it.
pub open spec fn io_step(
    epfd: i32,
    registry: Map<i32, Waker>,
    fd: i32,
    op: EpollEventType,
    attempt: Syscall,
    state: IoState,
    ret: SysRet,
) -> Step<IoState, Poll<Result<usize, OsError>>> {
    match state {
        IoState::Start => Step::Call(IoState::Attempting, attempt),
        IoState::Attempting => match ret.outcome() {
            Outcome::Value(n) => Step::Done(Poll::Ready(Ok(n as usize))),
            Outcome::WouldBlock => Step::Call(
                IoState::Registering,
                registration(epfd, registry, fd, op),
            ),
            Outcome::Failed(e) => Step::Done(Poll::Ready(Err(e))),
        },
        IoState::Registering => match ret.checked_unit() {
            Ok(_) => Step::Done(Poll::Pending),
            Err(e) => Step::Done(Poll::Ready(Err(e))),
        },
    }
}

/// The registry after a step of a resume: the one step that changes it is
/// an accepted registration, which stores `waker` for `fd`.
pub open spec fn registry_after_step(
    registry: Map<i32, Waker>,
    fd: i32,
    waker: Waker,
    registering: bool,
    ret: SysRet,
) -> Map<i32, Waker> {
    if registering && ret.checked_unit() is Ok {
        registry.insert(fd, waker)
    } else {
        registry
    }
}

/// The step of one resume of an accept on the listening descriptor
/// `listener`, `registry` being the registry of the reactor as the step
/// finds it. The result names the accepted connection by its descriptor.
pub open spec fn accept_step(
    epfd: i32,
    registry: Map<i32, Waker>,
    listener: i32,
    state: AcceptState,
    ret: SysRet,
) -> Step<AcceptState, Poll<Option<Result<i32, OsError>>>> {
    match state {
        AcceptState::Start => Step::Call(AcceptState::Accepting, Syscall::Accept { fd: listener }),
        AcceptState::Accepting => match ret.outcome() {
            Outcome::Value(v) => Step::Call(
                AcceptState::Nonblocking { fd: v as i32, flags: FlagState::Reading },
                Syscall::GetFlags { fd: v as i32 },
            ),
            Outcome::WouldBlock => Step::Call(
                AcceptState::Registering,
                registration(epfd, registry, listener, EpollEventType::In),
            ),
            Outcome::Failed(e) => Step::Done(Poll::Ready(Some(Err(e)))),
        },
        AcceptState::Nonblocking { fd, flags } => match nonblocking_step(fd, flags, ret) {
            Step::Call(next, call) => Step::Call(
                AcceptState::Nonblocking { fd, flags: next },
                call,
            ),
            Step::Done(Ok(_)) => Step::Call(
                AcceptState::Cloexec { fd, flags: FlagState::Reading },
                Syscall::GetFdFlags { fd },
            ),
            Step::Done(Err(error)) => Step::Call(
                AcceptState::Closing { error },
                Syscall::Close { fd },
            ),
        },
        AcceptState::Cloexec { fd, flags } => match cloexec_step(fd, flags, ret) {
            Step::Call(next, call) => Step::Call(AcceptState::Cloexec { fd, flags: next }, call),
            Step::Done(Ok(_)) => Step::Done(Poll::Ready(Some(Ok(fd)))),
            Step::Done(Err(error)) => Step::Call(
                AcceptState::Closing { error },
                Syscall::Close { fd },
            ),
        },
        AcceptState::Closing { error } => Step::Done(Poll::Ready(Some(Err(error)))),
        AcceptState::Registering => match ret.checked_unit() {
            Ok(_) => Step::Done(Poll::Pending),
            Err(e) => Step::Done(Poll::Ready(Some(Err(e)))),
        },
    }
}

/// The request with which a resume that would block registers its
/// descriptor: what [`Reactor::add_event`] asks for.
fn register(reactor: &mut Reactor, fd: i32, op: EpollEventType, waker: Waker) -> (call: Syscall)
    ensures
        call == registration(old(reactor).epoll.raw(), old(reactor).registry(), fd, op),
        final(reactor).registry() == old(reactor).registry(),
        final(reactor).epoll == old(reactor).epoll,
{
    match reactor.add_event(fd, op, waker, None) {
        Step::Call(_, call) => call,
        Step::Done(_) => Syscall::Close { fd },
    }
}

/// The step of a resume that ended in a registration: what
/// [`Reactor::add_event`] says of the request's result.
fn suspend(
    reactor: &mut Reactor,
    fd: i32,
    op: EpollEventType,
    waker: Waker,
    ret: SysRet,
) -> (r: Result<(), OsError>)
    ensures
        r == ret.checked_unit(),
        final(reactor).registry() == registry_after_step(
            old(reactor).registry(),
            fd,
            waker,
            true,
            ret,
        ),
        final(reactor).epoll == old(reactor).epoll,
{
    match reactor.add_event(fd, op, waker, Some(ret)) {
        Step::Done(r) => r,
        Step::Call(_, _) => Ok(()),
    }
}

/// One step of a resume of a read or a write.
fn poll_io(
    fd: i32,
    op: EpollEventType,
    attempt: Syscall,
    state: IoState,
    ret: SysRet,
    reactor: &mut Reactor,
    waker: Waker,
) -> (step: Step<IoState, Poll<Result<usize, OsError>>>)
    ensures
        step == io_step(
            old(reactor).epoll.raw(),
            old(reactor).registry(),
            fd,
            op,
            attempt,
            state,
            ret,
        ),
        final(reactor).registry() == registry_after_step(
            old(reactor).registry(),
            fd,
            waker,
            state is Registering,
            ret,
        ),
        final(reactor).epoll == old(reactor).epoll,
{
    match state {
        IoState::Start => Step::Call(IoState::Attempting, attempt),
        IoState::Attempting => match ret.classify() {
            Outcome::Value(n) => Step::Done(Poll::Ready(Ok(#[verifier::truncate] (n as usize)))),
            Outcome::WouldBlock => Step::Call(
                IoState::Registering,
                register(reactor, fd, op, waker),
            ),
            Outcome::Failed(e) => Step::Done(Poll::Ready(Err(e))),
        },
        IoState::Registering => match suspend(reactor, fd, op, waker, ret) {
            Ok(()) => Step::Done(Poll::Pending),
            Err(e) => Step::Done(Poll::Ready(Err(e))),
        },
    }
}

impl TcpListener {
    /// The descriptor of the listener.
    pub closed spec fn raw(&self) -> i32 {
        self.0
    }

    /// The descriptor of the listener.
    pub fn as_raw_fd(&self) -> (fd: i32)
        ensures
            fd == self.raw(),
    {
        self.0
    }

    /// One step of making a listener on `addr` and `port`: a nonblocking
    /// socket, closed on exec, that may reuse its address, bound and
    /// listening with room for [`BACKLOG`] pending connections. `state` is
    /// the state the previous step returned ([`BindState::Start`] at first)
    /// and `ret` the result of the call that step asked for. The first call
    /// that fails ends the sequence with its error.
    pub fn bind(addr: Ipv4Addr, port: u16, state: BindState, ret: SysRet) -> (step: Step<
        BindState,
        Result<TcpListener, OsError>,
    >)
        ensures
            match bind_step(addr, port, state, ret) {
                Step::Call(next, call) => step == Step::<
                    BindState,
                    Result<TcpListener, OsError>,
                >::Call(next, call),
                Step::Done(Ok(sock)) => step matches Step::Done(Ok(listener)) && listener.raw()
                    == sock,
                Step::Done(Err(e)) => step == Step::<BindState, Result<TcpListener, OsError>>::Done(
                    Err(e),
                ),
            },
    {
        match state {
            BindState::Start => Step::Call(BindState::Socket, Syscall::Socket),
            BindState::Socket => match ret.check_int() {
                Ok(sock) => Step::Call(BindState::GetFlags { sock }, Syscall::GetFlags { fd: sock }),
                Err(e) => Step::Done(Err(e)),
            },
            BindState::GetFlags { sock } => match ret.check_int() {
                Ok(flags) => Step::Call(
                    BindState::SetFlags { sock },
                    Syscall::SetNonblocking { fd: sock, flags },
                ),
                Err(e) => Step::Done(Err(e)),
            },
            BindState::SetFlags { sock } => match ret.check_unit() {
                Ok(()) => Step::Call(
                    BindState::ReuseAddr { sock },
                    Syscall::SetReuseAddr { fd: sock },
                ),
                Err(e) => Step::Done(Err(e)),
            },
            BindState::ReuseAddr { sock } => match ret.check_unit() {
                Ok(()) => Step::Call(
                    BindState::Bind { sock },
                    Syscall::Bind { fd: sock, addr, port },
                ),
                Err(e) => Step::Done(Err(e)),
            },
            BindState::Bind { sock } => match ret.check_unit() {
                Ok(()) => Step::Call(
                    BindState::Listen { sock },
                    Syscall::Listen { fd: sock, backlog: BACKLOG },
                ),
                Err(e) => Step::Done(Err(e)),
            },
            BindState::Listen { sock } => match ret.check_unit() {
                Ok(()) => Step::Done(Ok(TcpListener(sock))),
                Err(e) => Step::Done(Err(e)),
            },
        }
    }

    /// The request that takes one pending connection.
    pub fn accept(&self) -> (call: Syscall)
        ensures
            call == (Syscall::Accept { fd: self.raw() }),
    {
        Syscall::Accept { fd: self.0 }
    }

    /// The connections that arrive at this listener.
    pub fn incoming(&self) -> (incoming: Incoming<'_>)
        ensures
            incoming.listener() == *self,
    {
        Incoming(self)
    }

    /// Gives the listener up and returns the request that closes its
    /// descriptor.
    pub fn close(self) -> (call: Syscall)
        ensures
            call == (Syscall::Close { fd: self.raw() }),
    {
        Syscall::Close { fd: self.0 }
    }
}

impl<'a> Incoming<'a> {
    /// The listener the connections arrive at.
    pub closed spec fn listener(&self) -> TcpListener {
        *self.0
    }

    /// The operation that accepts the next connection.
    pub fn next(&self) -> (accept: AcceptFuture<'a>)
        ensures
            accept.listener() == self.listener(),
    {
        AcceptFuture(self.0)
    }
}

impl<'a> AcceptFuture<'a> {
    /// The listener the operation accepts from.
    pub closed spec fn listener(&self) -> TcpListener {
        *self.0
    }

    /// One step of a resume. The resume tries the raw accept. A connection
    /// that arrives is made nonblocking and close-on-exec and completes the
    /// operation; if that fails, the connection is closed and the operation
    /// completes with the error. If the accept would block, the listener is
    /// registered for reading under `waker`, by a new entry or, where it has
    /// one already, by a change of that entry, and the operation stays
    /// suspended. Any other failure completes the operation with that
    /// error.
    ///
    /// `state` is the state the previous step returned
    /// ([`AcceptState::Start`] at the beginning of each resume) and `ret`
    /// the result of the call that step asked for.
    pub fn poll(&self, state: AcceptState, ret: SysRet, reactor: &mut Reactor, waker: Waker) -> (step:
        Step<AcceptState, Poll<Option<Result<TcpStream, OsError>>>>)
        ensures
            match accept_step(
                old(reactor).epoll.raw(),
                old(reactor).registry(),
                self.listener().raw(),
                state,
                ret,
            ) {
                Step::Call(next, call) => step == Step::<
                    AcceptState,
                    Poll<Option<Result<TcpStream, OsError>>>,
                >::Call(next, call),
                Step::Done(Poll::Ready(Some(Ok(fd)))) => step == Step::<
                    AcceptState,
                    Poll<Option<Result<TcpStream, OsError>>>,
                >::Done(Poll::Ready(Some(Ok(TcpStream(fd))))),
                Step::Done(Poll::Ready(Some(Err(e)))) => step == Step::<
                    AcceptState,
                    Poll<Option<Result<TcpStream, OsError>>>,
                >::Done(Poll::Ready(Some(Err(e)))),
                Step::Done(Poll::Ready(None)) => false,
                Step::Done(Poll::Pending) => step == Step::<
                    AcceptState,
                    Poll<Option<Result<TcpStream, OsError>>>,
                >::Done(Poll::Pending),
            },
            final(reactor).registry() == registry_after_step(
                old(reactor).registry(),
                self.listener().raw(),
                waker,
                state is Registering,
                ret,
            ),
            final(reactor).epoll == old(reactor).epoll,
    {
        let listener: i32 = self.0.as_raw_fd();
        match state {
            AcceptState::Start => Step::Call(AcceptState::Accepting, self.0.accept()),
            AcceptState::Accepting => match ret.classify() {
                Outcome::Value(v) => {
                    let fd: i32 = #[verifier::truncate] (v as i32);
                    Step::Call(
                        AcceptState::Nonblocking { fd, flags: FlagState::Reading },
                        Syscall::GetFlags { fd },
                    )
                },
                Outcome::WouldBlock => Step::Call(
                    AcceptState::Registering,
                    register(reactor, listener, EpollEventType::In, waker),
                ),
                Outcome::Failed(e) => Step::Done(Poll::Ready(Some(Err(e)))),
            },
            AcceptState::Nonblocking { fd, flags } => {
                let stream = TcpStream(fd);
                match stream.setnonblocking(flags, ret) {
                    Step::Call(next, call) => Step::Call(
                        AcceptState::Nonblocking { fd, flags: next },
                        call,
                    ),
                    Step::Done(Ok(())) => Step::Call(
                        AcceptState::Cloexec { fd, flags: FlagState::Reading },
                        Syscall::GetFdFlags { fd },
                    ),
                    Step::Done(Err(error)) => Step::Call(
                        AcceptState::Closing { error },
                        stream.close(),
                    ),
                }
            },
            AcceptState::Cloexec { fd, flags } => {
                let stream = TcpStream(fd);
                match stream.setcloexec(flags, ret) {
                    Step::Call(next, call) => Step::Call(
                        AcceptState::Cloexec { fd, flags: next },
                        call,
                    ),
                    Step::Done(Ok(())) => Step::Done(Poll::Ready(Some(Ok(stream)))),
                    Step::Done(Err(error)) => Step::Call(
                        AcceptState::Closing { error },
                        stream.close(),
                    ),
                }
            },
            AcceptState::Closing { error } => Step::Done(Poll::Ready(Some(Err(error)))),
            AcceptState::Registering => match suspend(
                reactor,
                listener,
                EpollEventType::In,
                waker,
                ret,
            ) {
                Ok(()) => Step::Done(Poll::Pending),
                Err(e) => Step::Done(Poll::Ready(Some(Err(e)))),
            },
        }
    }
}

impl TcpStream {
    /// One step of making the stream nonblocking: its status flags are read
    /// and stored again with the nonblocking flag added. `state` is the
    /// state the previous step returned ([`FlagState::Start`] at first) and
    /// `ret` the result of the call that step asked for.
    pub fn setnonblocking(&self, state: FlagState, ret: SysRet) -> (step: Step<
        FlagState,
        Result<(), OsError>,
    >)
        ensures
            step == nonblocking_step(self.0, state, ret),
    {
        match state {
            FlagState::Start => Step::Call(FlagState::Reading, Syscall::GetFlags { fd: self.0 }),
            FlagState::Reading => match ret.check_int() {
                Ok(flags) => Step::Call(
                    FlagState::Storing,
                    Syscall::SetNonblocking { fd: self.0, flags },
                ),
                Err(e) => Step::Done(Err(e)),
            },
            FlagState::Storing => Step::Done(ret.check_unit()),
        }
    }

    /// One step of making the stream close-on-exec: its descriptor flags
    /// are read and stored again with the close-on-exec flag added. `state`
    /// is the state the previous step returned ([`FlagState::Start`] at
    /// first) and `ret` the result of the call that step asked for.
    pub fn setcloexec(&self, state: FlagState, ret: SysRet) -> (step: Step<
        FlagState,
        Result<(), OsError>,
    >)
        ensures
            step == cloexec_step(self.0, state, ret),
    {
        match state {
            FlagState::Start => Step::Call(FlagState::Reading, Syscall::GetFdFlags { fd: self.0 }),
            FlagState::Reading => match ret.check_int() {
                Ok(flags) => Step::Call(
                    FlagState::Storing,
                    Syscall::SetCloexec { fd: self.0, flags },
                ),
                Err(e) => Step::Done(Err(e)),
            },
            FlagState::Storing => Step::Done(ret.check_unit()),
        }
    }

    /// The operation that reads once, into a buffer of `len` bytes.
    pub fn read<'a>(&'a self, len: usize) -> (read: ReadFuture<'a>)
        ensures
            read.stream() == *self,
            read.len() == len,
    {
        ReadFuture(self, len)
    }

    /// The operation that writes `buf` once.
    pub fn write<'a>(&'a self, buf: &'a [u8]) -> (write: WriteFuture<'a>)
        ensures
            write.stream() == *self,
            write.buffer() == buf@,
    {
        WriteFuture(self, buf)
    }

    /// Gives the stream up and returns the request that closes its
    /// descriptor.
    pub fn close(self) -> (call: Syscall)
        ensures
            call == (Syscall::Close { fd: self.0 }),
    {
        Syscall::Close { fd: self.0 }
    }
}

impl<'a> ReadFuture<'a> {
    /// The stream the operation reads from.
    pub closed spec fn stream(&self) -> TcpStream {
        *self.0
    }

    /// The length of the buffer the operation reads into.
    pub closed spec fn len(&self) -> usize {
        self.1
    }

    /// One step of a resume. The resume tries the raw read. If it would
    /// block, the stream is registered for reading under `waker`, by a new
    /// entry or, where it has one already, by a change of that entry, and
    /// the operation stays suspended. Any other result, the count of bytes read
    /// or an error, completes the operation.
    ///
    /// `state` is the state the previous step returned ([`IoState::Start`]
    /// at the beginning of each resume) and `ret` the result of the call
    /// that step asked for.
    pub fn poll(&self, state: IoState, ret: SysRet, reactor: &mut Reactor, waker: Waker) -> (step:
        Step<IoState, Poll<Result<usize, OsError>>>)
        ensures
            step == io_step(
                old(reactor).epoll.raw(),
                old(reactor).registry(),
                self.stream().0,
                EpollEventType::In,
                Syscall::Read { fd: self.stream().0, len: self.len() },
                state,
                ret,
            ),
            final(reactor).registry() == registry_after_step(
                old(reactor).registry(),
                self.stream().0,
                waker,
                state is Registering,
                ret,
            ),
            final(reactor).epoll == old(reactor).epoll,
    {
        let fd: i32 = (self.0).0;
        poll_io(
            fd,
            EpollEventType::In,
            Syscall::Read { fd, len: self.1 },
            state,
            ret,
            reactor,
            waker,
        )
    }
}

impl<'a> WriteFuture<'a> {
    /// The stream the operation writes to.
    pub closed spec fn stream(&self) -> TcpStream {
        *self.0
    }

    /// The bytes the operation writes.
    pub closed spec fn buffer(&self) -> Seq<u8> {
        self.1@
    }

    /// The bytes the operation writes.
    pub fn bytes(&self) -> (buf: &'a [u8])
        ensures
            buf@ == self.buffer(),
    {
        self.1
    }

    /// One step of a resume. The resume tries the raw write of the whole
    /// buffer. If it would block, the stream is registered for writing under
    /// `waker`, by a new entry or, where it has one already, by a change of
    /// that entry, and the operation stays suspended. Any other result, the
    /// count of bytes written or an error, completes the operation.
    ///
    /// `state` is the state the previous step returned ([`IoState::Start`]
    /// at the beginning of each resume) and `ret` the result of the call
    /// that step asked for.
    pub fn poll(&self, state: IoState, ret: SysRet, reactor: &mut Reactor, waker: Waker) -> (step:
        Step<IoState, Poll<Result<usize, OsError>>>)
        ensures
            step == io_step(
                old(reactor).epoll.raw(),
                old(reactor).registry(),
                self.stream().0,
                EpollEventType::Out,
                Syscall::Write { fd: self.stream().0, len: self.buffer().len() as usize },
                state,
                ret,
            ),
            final(reactor).registry() == registry_after_step(
                old(reactor).registry(),
                self.stream().0,
                waker,
                state is Registering,
                ret,
            ),
            final(reactor).epoll == old(reactor).epoll,
    {
        let fd: i32 = (self.0).0;
        poll_io(
            fd,
            EpollEventType::Out,
            Syscall::Write { fd, len: self.1.len() },
            state,
            ret,
            reactor,
            waker,
        )
    }
}

/// A read or a write is registered exactly when it stays suspended: the
/// step that ends a resume with "still suspended" is the step that stores
/// the handle, and no other step touches the registry. A resume that ends
/// with a result has registered nothing.
pub proof fn lemma_io_registered_iff_suspended(
    epfd: i32,
    fd: i32,
    op: EpollEventType,
    attempt: Syscall,
    state: IoState,
    ret: SysRet,
    registry: Map<i32, Waker>,
    waker: Waker,
)
    ensures
        io_step(epfd, registry, fd, op, attempt, state, ret) == Step::<
            IoState,
            Poll<Result<usize, OsError>>,
        >::Done(Poll::Pending) <==> state is Registering && ret.checked_unit() is Ok,
        registry_after_step(registry, fd, waker, state is Registering, ret) == if io_step(
            epfd,
            registry,
            fd,
            op,
            attempt,
            state,
            ret,
        ) == Step::<IoState, Poll<Result<usize, OsError>>>::Done(Poll::Pending) {
            registry.insert(fd, waker)
        } else {
            registry
        },
{
}

/// An accept is registered exactly when it stays suspended.
pub proof fn lemma_accept_registered_iff_suspended(
    epfd: i32,
    listener: i32,
    state: AcceptState,
    ret: SysRet,
    registry: Map<i32, Waker>,
    waker: Waker,
)
    ensures
        accept_step(epfd, registry, listener, state, ret) == Step::<
            AcceptState,
            Poll<Option<Result<i32, OsError>>>,
        >::Done(Poll::Pending) <==> state is Registering && ret.checked_unit() is Ok,
        registry_after_step(registry, listener, waker, state is Registering, ret)
            == if accept_step(epfd, registry, listener, state, ret) == Step::<
            AcceptState,
            Poll<Option<Result<i32, OsError>>>,
        >::Done(Poll::Pending) {
            registry.insert(listener, waker)
        } else {
            registry
        },
{
}

/// The registry and the interest list of the multiplexer after one resume
/// of an operation on `fd` that finds that its raw call would block: the
/// resume asks for the registration, the multiplexer answers as
/// [`answers`] says, and the handle is stored if it accepts.
pub open spec fn blocked_resume(
    registry: Map<i32, Waker>,
    interest: Set<i32>,
    fd: i32,
    waker: Waker,
) -> (Map<i32, Waker>, Set<i32>) {
    let op = if registry.contains_key(fd) {
        CtlOp::Mod
    } else {
        CtlOp::Add
    };
    if answers(interest, op, fd) {
        (registry.insert(fd, waker), interest_after(interest, op, fd))
    } else {
        (registry, interest)
    }
}

/// The registry and the interest list after the reactor fired `fd`.
pub open spec fn fired_off(registry: Map<i32, Waker>, interest: Set<i32>, fd: i32) -> (
    Map<i32, Waker>,
    Set<i32>,
) {
    (registry.remove(fd), interest_after(interest, CtlOp::Del, fd))
}

/// The registry and the interest list after a run of resumes of one
/// operation on `fd` under `waker`, each of which finds that the raw call
/// would block. `woken[i]` says whether the reactor fired the descriptor
/// before resume `i`.
pub open spec fn blocked_resumes(
    registry: Map<i32, Waker>,
    interest: Set<i32>,
    fd: i32,
    waker: Waker,
    woken: Seq<bool>,
) -> (Map<i32, Waker>, Set<i32>)
    decreases woken.len(),
{
    if woken.len() == 0 {
        (registry, interest)
    } else {
        let before = blocked_resumes(registry, interest, fd, waker, woken.drop_last());
        let now = if woken.last() {
            fired_off(before.0, before.1, fd)
        } else {
            before
        };
        blocked_resume(now.0, now.1, fd, waker)
    }
}

/// Whether every resume of such a run ends still suspended: whether the
/// multiplexer accepts the registration of each.
pub open spec fn all_suspended(
    registry: Map<i32, Waker>,
    interest: Set<i32>,
    fd: i32,
    waker: Waker,
    woken: Seq<bool>,
) -> bool
    decreases woken.len(),
{
    if woken.len() == 0 {
        true
    } else {
        let before = blocked_resumes(registry, interest, fd, waker, woken.drop_last());
        let now = if woken.last() {
            fired_off(before.0, before.1, fd)
        } else {
            before
        };
        &&& all_suspended(registry, interest, fd, waker, woken.drop_last())
        &&& answers(
            now.1,
            if now.0.contains_key(fd) {
                CtlOp::Mod
            } else {
                CtlOp::Add
            },
            fd,
        )
    }
}

/// A resume of a read or write whose raw call would block walks through its
/// three steps: it tries the call, asks for the registration, a new entry
/// or a changed one, and, the registration accepted, ends still suspended
/// with `waker` registered for `fd`.
pub proof fn lemma_blocked_io_stays_suspended(
    epfd: i32,
    fd: i32,
    op: EpollEventType,
    attempt: Syscall,
    tried: SysRet,
    registered: SysRet,
    registry: Map<i32, Waker>,
    waker: Waker,
)
    requires
        tried.outcome() is WouldBlock,
        registered.checked_unit() is Ok,
    ensures
        io_step(epfd, registry, fd, op, attempt, IoState::Start, tried) == Step::<
            IoState,
            Poll<Result<usize, OsError>>,
        >::Call(IoState::Attempting, attempt),
        io_step(epfd, registry, fd, op, attempt, IoState::Attempting, tried) == Step::<
            IoState,
            Poll<Result<usize, OsError>>,
        >::Call(IoState::Registering, registration(epfd, registry, fd, op)),
        io_step(epfd, registry, fd, op, attempt, IoState::Registering, registered) == Step::<
            IoState,
            Poll<Result<usize, OsError>>,
        >::Done(Poll::Pending),
        registry_after_step(registry, fd, waker, false, tried) == registry,
        registry_after_step(registry, fd, waker, true, registered) == registry.insert(fd, waker),
{
}

/// The same for an accept.
pub proof fn lemma_blocked_accept_stays_suspended(
    epfd: i32,
    listener: i32,
    tried: SysRet,
    registered: SysRet,
    registry: Map<i32, Waker>,
)
    requires
        tried.outcome() is WouldBlock,
        registered.checked_unit() is Ok,
    ensures
        accept_step(epfd, registry, listener, AcceptState::Start, tried) == Step::<
            AcceptState,
            Poll<Option<Result<i32, OsError>>>,
        >::Call(AcceptState::Accepting, Syscall::Accept { fd: listener }),
        accept_step(epfd, registry, listener, AcceptState::Accepting, tried) == Step::<
            AcceptState,
            Poll<Option<Result<i32, OsError>>>,
        >::Call(
            AcceptState::Registering,
            registration(epfd, registry, listener, EpollEventType::In),
        ),
        accept_step(epfd, registry, listener, AcceptState::Registering, registered) == Step::<
            AcceptState,
            Poll<Option<Result<i32, OsError>>>,
        >::Done(Poll::Pending),
{
}

/// An operation that keeps finding that it would block never completes and
/// never has two registrations. Against a multiplexer that answers as
/// [`answers`] says, and with a registry that has an entry for the
/// descriptor exactly when the multiplexer has one, every resume is
/// accepted, whether or not the reactor fired in between and whether or
/// not the registration of the resume before is still live. After each
/// resume the descriptor has one entry, which holds the operation's own
/// handle, and the multiplexer has the descriptor in its list. Every other
/// descriptor is left as it was.
pub proof fn lemma_blocked_resumes_never_complete(
    registry: Map<i32, Waker>,
    interest: Set<i32>,
    fd: i32,
    waker: Waker,
    woken: Seq<bool>,
)
    requires
        registry.contains_key(fd) <==> interest.contains(fd),
    ensures
        all_suspended(registry, interest, fd, waker, woken),
        woken.len() > 0 ==> blocked_resumes(registry, interest, fd, waker, woken).0
            == registry.insert(fd, waker),
        woken.len() > 0 ==> blocked_resumes(registry, interest, fd, waker, woken).1
            == interest.insert(fd),
        blocked_resumes(registry, interest, fd, waker, woken).0.contains_key(fd)
            <==> blocked_resumes(registry, interest, fd, waker, woken).1.contains(fd),
    decreases woken.len(),
{
    if woken.len() > 0 {
        lemma_blocked_resumes_never_complete(registry, interest, fd, waker, woken.drop_last());
        let before = blocked_resumes(registry, interest, fd, waker, woken.drop_last());
        assert(before.0.remove(fd).insert(fd, waker) =~= registry.insert(fd, waker));
        assert(before.0.insert(fd, waker) =~= registry.insert(fd, waker));
        assert(before.1.remove(fd).insert(fd) =~= interest.insert(fd));
        assert(before.1.insert(fd) =~= interest.insert(fd));
        if before.1.contains(fd) {
            assert(before.1 =~= before.1.insert(fd));
        }
    }
}

/// The registry after the steps of one resume of a task that reads and
/// writes on `fd` under `waker`. `steps[i]` is the state of step `i` and
/// the result handed to it.
pub open spec fn registry_after_resume(
    registry: Map<i32, Waker>,
    fd: i32,
    waker: Waker,
    steps: Seq<(IoState, SysRet)>,
) -> Map<i32, Waker>
    decreases steps.len(),
{
    if steps.len() == 0 {
        registry
    } else {
        registry_after_step(
            registry_after_resume(registry, fd, waker, steps.drop_last()),
            fd,
            waker,
            steps.last().0 is Registering,
            steps.last().1,
        )
    }
}

/// Whether a step ends a resume with "still suspended".
pub open spec fn suspends(step: (IoState, SysRet)) -> bool {
    step.0 is Registering && step.1.checked_unit() is Ok
}

/// No registration outlives the resume that completes a task. A resume in
/// which no step ends with "still suspended", as is every resume that ends
/// with the task's result, leaves the registry as it found it. So a task
/// that was resumed because the reactor fired its descriptor, which took
/// the entry away, completes with no entry for the descriptor; and a
/// resume that does end suspended, in its last step, leaves exactly the
/// task's own handle.
pub proof fn lemma_completed_resume_registers_nothing(
    registry: Map<i32, Waker>,
    fd: i32,
    waker: Waker,
    steps: Seq<(IoState, SysRet)>,
)
    requires
        forall|i: int| 0 <= i < steps.len() - 1 ==> !suspends(#[trigger] steps[i]),
    ensures
        (steps.len() == 0 || !suspends(steps.last())) ==> registry_after_resume(
            registry,
            fd,
            waker,
            steps,
        ) == registry,
        (steps.len() > 0 && suspends(steps.last())) ==> registry_after_resume(
            registry,
            fd,
            waker,
            steps,
        ) == registry.insert(fd, waker),
        (steps.len() == 0 || !suspends(steps.last())) ==> !registry_after_resume(
            registry.remove(fd),
            fd,
            waker,
            steps,
        ).contains_key(fd),
    decreases steps.len(),
{
    if steps.len() > 0 {
        let before = steps.drop_last();
        assert forall|i: int| 0 <= i < before.len() - 1 implies !suspends(#[trigger] before[i]) by {
            assert(before[i] == steps[i]);
        }
        if before.len() > 0 {
            assert(before.last() == steps[steps.len() - 2]);
        }
        lemma_completed_resume_registers_nothing(registry, fd, waker, before);
        lemma_completed_resume_registers_nothing(registry.remove(fd), fd, waker, before);
    }
}

} // verus!
