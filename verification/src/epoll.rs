//! The readiness multiplexer: one instance of the operating system's
//! notification facility, and the requests that change or await its interest
//! list.

use crate::sys::{OsError, Syscall, SysRet};
use vstd::prelude::*;

verus! {

/// A handle on one readiness instance.
#[derive(Debug, PartialEq, Eq)]
pub struct Epoll {
    fd: i32,
}

/// The direction of interest in a descriptor.
#[derive(Clone, Copy, Debug, PartialEq, Eq, Structural)]
pub enum EpollEventType {
    /// The descriptor can be read without blocking.
    In,
    /// The descriptor can be written without blocking.
    Out,
}

/// What a control request does to the interest list.
#[derive(Clone, Copy, Debug, PartialEq, Eq, Structural)]
pub enum CtlOp {
    Add,
    Mod,
    Del,
}

/// An entry of the interest list, and also a readiness report: the direction
/// and the token the descriptor was registered under.
#[derive(Clone, Copy, Debug, PartialEq, Eq, Structural)]
pub struct EpollEvent {
    pub interest: EpollEventType,
    pub token: u64,
}

/// The token a descriptor is registered under: the descriptor itself,
/// widened to 64 bits.
pub open spec fn token_of(fd: i32) -> u64 {
    fd as u64
}

/// The descriptor a token stands for: its low 32 bits.
pub open spec fn fd_of(token: u64) -> i32 {
    token as i32
}

/// Every descriptor comes back unchanged from its token.
pub proof fn lemma_token_round_trip(fd: i32)
    ensures
        fd_of(token_of(fd)) == fd,
{
    assert((fd as u64) as i32 == fd) by (bit_vector);
}

/// How a multiplexer of this kind answers a control request, `interest`
/// being the descriptors in its interest list: it adds an entry only for a
/// descriptor that has none, and changes or removes only an entry that is
/// there.
pub open spec fn answers(interest: Set<i32>, op: CtlOp, fd: i32) -> bool {
    match op {
        CtlOp::Add => !interest.contains(fd),
        CtlOp::Mod => interest.contains(fd),
        CtlOp::Del => interest.contains(fd),
    }
}

/// The interest list after a control request.
pub open spec fn interest_after(interest: Set<i32>, op: CtlOp, fd: i32) -> Set<i32> {
    if !answers(interest, op, fd) {
        interest
    } else {
        match op {
            CtlOp::Add => interest.insert(fd),
            CtlOp::Mod => interest,
            CtlOp::Del => interest.remove(fd),
        }
    }
}

impl EpollEvent {
    /// The descriptor this report is about.
    pub fn fd(&self) -> (fd: i32)
        ensures
            fd == fd_of(self.token),
    {
        #[verifier::truncate]
        (self.token as i32)
    }
}

impl Epoll {
    /// The descriptor of the instance.
    pub closed spec fn raw(&self) -> i32 {
        self.fd
    }

    /// The descriptor of the instance.
    pub fn as_raw_fd(&self) -> (fd: i32)
        ensures
            fd == self.raw(),
    {
        self.fd
    }

    /// The request that creates an instance, closed on exec.
    pub fn create() -> (call: Syscall)
        ensures
            call == (Syscall::EpollCreate { cloexec: true }),
    {
        Syscall::EpollCreate { cloexec: true }
    }

    /// The handle for the instance that `created` reports, `created` being
    /// the result of the request from [`Epoll::create`]; the reported error
    /// if the system could not make one.
    pub fn new(created: SysRet) -> (r: Result<Epoll, OsError>)
        ensures
            match created.checked_int() {
                Ok(fd) => r is Ok && r->Ok_0.raw() == fd,
                Err(e) => r == Err::<Epoll, OsError>(e),
            },
    {
        match created.check_int() {
            Ok(fd) => Ok(Epoll { fd }),
            Err(e) => Err(e),
        }
    }

    /// The control request `ctl` for descriptor `fd` with interest `op`. The
    /// entry carries the descriptor as its token.
    fn run_ctl(&self, ctl: CtlOp, fd: i32, op: EpollEventType) -> (call: Syscall)
        ensures
            call == (Syscall::EpollCtl {
                epfd: self.raw(),
                op: ctl,
                fd,
                event: Some(EpollEvent { interest: op, token: token_of(fd) }),
            }),
    {
        let event = EpollEvent { interest: op, token: fd as u64 };
        Syscall::EpollCtl { epfd: self.fd, op: ctl, fd, event: Some(event) }
    }

    /// The request that registers interest `op` in descriptor `fd`.
    pub fn add_event(&self, fd: i32, op: EpollEventType) -> (call: Syscall)
        ensures
            call == (Syscall::EpollCtl {
                epfd: self.raw(),
                op: CtlOp::Add,
                fd,
                event: Some(EpollEvent { interest: op, token: token_of(fd) }),
            }),
    {
        self.run_ctl(CtlOp::Add, fd, op)
    }

    /// The request that changes the interest in descriptor `fd` to `op`.
    pub fn mod_event(&self, fd: i32, op: EpollEventType) -> (call: Syscall)
        ensures
            call == (Syscall::EpollCtl {
                epfd: self.raw(),
                op: CtlOp::Mod,
                fd,
                event: Some(EpollEvent { interest: op, token: token_of(fd) }),
            }),
    {
        self.run_ctl(CtlOp::Mod, fd, op)
    }

    /// The request that removes descriptor `fd` from the interest list.
    pub fn del_event(&self, fd: i32) -> (call: Syscall)
        ensures
            call == (Syscall::EpollCtl { epfd: self.raw(), op: CtlOp::Del, fd, event: None }),
    {
        Syscall::EpollCtl { epfd: self.fd, op: CtlOp::Del, fd, event: None }
    }

    /// The request that blocks, without a time limit, until at least one
    /// descriptor is ready, for a buffer with room for `capacity` reports.
    pub fn wait(&self, capacity: usize) -> (call: Syscall)
        ensures
            call == (Syscall::EpollWait {
                epfd: self.raw(),
                max_events: capacity as i32,
                timeout: -1i32,
            }),
    {
        Syscall::EpollWait {
            epfd: self.fd,
            max_events: #[verifier::truncate] (capacity as i32),
            timeout: -1,
        }
    }

    /// The number of reports that `waited`, the result of the request from
    /// [`Epoll::wait`], says were written; the reported error if it failed.
    pub fn ready(waited: SysRet) -> (r: Result<usize, OsError>)
        ensures
            r == waited.checked_count(),
    {
        waited.check_count()
    }

    /// Gives the handle up and returns the request that closes the instance.
    pub fn close(self) -> (call: Syscall)
        ensures
            call == (Syscall::Close { fd: self.raw() }),
    {
        Syscall::Close { fd: self.fd }
    }
}

} // verus!
