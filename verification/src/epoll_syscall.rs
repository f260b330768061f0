//! The readiness facility without a handle around it: the same requests as
//! in [`crate::epoll`], for callers that keep the descriptor of the
//! instance themselves.

use crate::epoll::{CtlOp, EpollEvent};
use crate::sys::{OsError, Step, Syscall, SysRet};
use vstd::prelude::*;

verus! {

/// Where [`epoll_create`] stands: the call it asked for last.
#[derive(Clone, Copy, Debug, PartialEq, Eq, Structural)]
pub enum CreateState {
    Start,
    Create,
    GetFlags { fd: i32 },
    SetFlags { fd: i32 },
}

/// The step of creating an instance in `state`: create it, read its
/// descriptor flags, and store them with the close-on-exec flag added. Only
/// a failure to create is an error; if the flags cannot be read they are
/// left alone, and the result of storing them is not looked at.
pub open spec fn create_step(state: CreateState, ret: SysRet) -> Step<
    CreateState,
    Result<i32, OsError>,
> {
    match state {
        CreateState::Start => Step::Call(
            CreateState::Create,
            Syscall::EpollCreate { cloexec: false },
        ),
        CreateState::Create => match ret.checked_int() {
            Ok(fd) => Step::Call(CreateState::GetFlags { fd }, Syscall::GetFdFlags { fd }),
            Err(e) => Step::Done(Err(e)),
        },
        CreateState::GetFlags { fd } => match ret.checked_int() {
            Ok(flags) => Step::Call(CreateState::SetFlags { fd }, Syscall::SetCloexec { fd, flags }),
            Err(_) => Step::Done(Ok(fd)),
        },
        CreateState::SetFlags { fd } => Step::Done(Ok(fd)),
    }
}

/// One step of creating a readiness instance that is closed on exec.
/// `state` is the state the previous step returned ([`CreateState::Start`]
/// at first) and `ret` the result of the call that step asked for.
pub fn epoll_create(state: CreateState, ret: SysRet) -> (step: Step<CreateState, Result<i32, OsError>>)
    ensures
        step == create_step(state, ret),
{
    match state {
        CreateState::Start => Step::Call(
            CreateState::Create,
            Syscall::EpollCreate { cloexec: false },
        ),
        CreateState::Create => match ret.check_int() {
            Ok(fd) => Step::Call(CreateState::GetFlags { fd }, Syscall::GetFdFlags { fd }),
            Err(e) => Step::Done(Err(e)),
        },
        CreateState::GetFlags { fd } => match ret.check_int() {
            Ok(flags) => Step::Call(CreateState::SetFlags { fd }, Syscall::SetCloexec { fd, flags }),
            Err(_) => Step::Done(Ok(fd)),
        },
        CreateState::SetFlags { fd } => Step::Done(Ok(fd)),
    }
}

/// The request that registers `fd` with the instance `epoll_fd` under
/// `event`.
pub fn add_interest(epoll_fd: i32, fd: i32, event: EpollEvent) -> (call: Syscall)
    ensures
        call == (Syscall::EpollCtl { epfd: epoll_fd, op: CtlOp::Add, fd, event: Some(event) }),
{
    Syscall::EpollCtl { epfd: epoll_fd, op: CtlOp::Add, fd, event: Some(event) }
}

/// The request that changes the entry of `fd` in the instance `epoll_fd`
/// to `event`.
pub fn modify_interest(epoll_fd: i32, fd: i32, event: EpollEvent) -> (call: Syscall)
    ensures
        call == (Syscall::EpollCtl { epfd: epoll_fd, op: CtlOp::Mod, fd, event: Some(event) }),
{
    Syscall::EpollCtl { epfd: epoll_fd, op: CtlOp::Mod, fd, event: Some(event) }
}

/// The request that removes `fd` from the instance `epoll_fd`.
pub fn remove_interest(epoll_fd: i32, fd: i32) -> (call: Syscall)
    ensures
        call == (Syscall::EpollCtl { epfd: epoll_fd, op: CtlOp::Del, fd, event: None }),
{
    Syscall::EpollCtl { epfd: epoll_fd, op: CtlOp::Del, fd, event: None }
}

/// The request that closes `fd`.
pub fn close(fd: i32) -> (call: Syscall)
    ensures
        call == (Syscall::Close { fd }),
{
    Syscall::Close { fd }
}

} // verus!
