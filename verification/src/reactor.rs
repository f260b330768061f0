//! The reactor: the registry of who waits for which descriptor, and the
//! loop that turns readiness reports into wake-ups.
//!
//! A descriptor has one entry at most, in the registry as in the interest
//! list of the multiplexer. An operation that waits for a descriptor that
//! has no entry asks the multiplexer to add one; an operation that waits
//! for a descriptor that has an entry asks it to change that entry, which
//! the multiplexer accepts where it would refuse a second entry. Either
//! way the handle of the operation is stored once the request is accepted,
//! in place of any handle stored before: the last registration wins, and a
//! handle that was replaced is not woken by this reactor any more.

use crate::epoll::{fd_of, token_of, CtlOp, Epoll, EpollEvent, EpollEventType};
use crate::executor::Waker;
use crate::sys::{OsError, Step, Syscall, SysRet};
use std::collections::HashMap;
use vstd::prelude::*;

verus! {

broadcast use vstd::std_specs::hash::group_hash_axioms;

/// The number of readiness reports the reactor's buffer has room for.
pub const MAX_EVENTS: usize = 32;

/// One readiness instance and, for each descriptor somebody waits for, the
/// handle to wake. A descriptor has at most one entry.
pub struct Reactor {
    pub epoll: Epoll,
    pub wakers: HashMap<i32, Waker>,
}

/// The handle that a readiness report for `fd` fires, if `fd` is registered.
pub open spec fn fired(registry: Map<i32, Waker>, fd: i32) -> Option<Waker> {
    if registry.contains_key(fd) {
        Some(registry[fd])
    } else {
        None
    }
}

/// Where the reactor's loop stands between two of its requests.
#[derive(Clone, Copy, Debug, PartialEq, Eq, Structural)]
pub enum ReactorState {
    /// Nothing has been asked for yet.
    Start,
    /// The loop asked to wait for readiness.
    Waiting,
    /// Report `index` of `count` was taken out of the registry with its
    /// handle `waker`; the loop asked for the descriptor to be deregistered
    /// and has not woken `waker` yet.
    Deregistering { count: usize, index: usize, waker: Waker },
    /// The loop handed out the handle of report `index` of `count` to be
    /// woken.
    Waking { count: usize, index: usize },
}

/// What the reactor's loop wants next.
#[derive(Clone, Copy, Debug, PartialEq, Eq)]
pub enum Reaction {
    /// Make this call and come back with its result.
    Call(ReactorState, Syscall),
    /// Wake this handle and come back.
    Wake(ReactorState, Waker),
    /// The loop is over: a call failed.
    Fail(OsError),
}

/// A report for a descriptor nobody is registered for. The loop cannot go
/// on with it: it is a fatal violation of what the reactor relies on. A
/// caller that would rather drop the report than stop can go on from the
/// state `skip`.
#[derive(Clone, Copy, Debug, PartialEq, Eq)]
pub struct Stray {
    pub fd: i32,
    pub skip: ReactorState,
}

impl ReactorState {
    /// A state that counts reports points at one of them.
    pub open spec fn wf(self) -> bool {
        match self {
            ReactorState::Deregistering { count, index, .. } => index < count,
            ReactorState::Waking { count, index } => index < count,
            _ => true,
        }
    }

    /// Whether the buffer `events` holds every report the state counts.
    pub open spec fn within(self, events: Seq<EpollEvent>) -> bool {
        match self {
            ReactorState::Deregistering { count, .. } => count <= events.len(),
            ReactorState::Waking { count, .. } => count <= events.len(),
            _ => true,
        }
    }

    /// Whether the buffer `events` holds every report the state counts and
    /// every report that `ret`, the result of a wait, speaks of.
    pub open spec fn fits(self, ret: SysRet, events: Seq<EpollEvent>) -> bool {
        &&& self.within(events)
        &&& (self is Waiting && ret.checked_count() is Ok) ==> ret.checked_count()->Ok_0
            <= events.len()
    }

    /// The report the loop looks at next in this state, as the number of
    /// reports in the batch and the index of the report: the first after a
    /// wait, the one behind the report just woken otherwise.
    pub open spec fn next_report(self, ret: SysRet) -> Option<(usize, usize)> {
        match self {
            ReactorState::Waiting => match ret.checked_count() {
                Ok(count) => Some((count, 0usize)),
                Err(_) => None,
            },
            ReactorState::Waking { count, index } => Some((count, (index + 1) as usize)),
            _ => None,
        }
    }
}

/// The descriptor of the report the loop looks at next, if there is such a
/// report and nobody is registered for its descriptor.
pub open spec fn stray(
    registry: Map<i32, Waker>,
    state: ReactorState,
    ret: SysRet,
    events: Seq<EpollEvent>,
) -> Option<i32> {
    match state.next_report(ret) {
        Some((count, index)) => {
            let fd = fd_of(events[index as int].token);
            if index < count && !registry.contains_key(fd) {
                Some(fd)
            } else {
                None
            }
        },
        None => None,
    }
}

/// The request that registers `fd` for `op` with the instance `epfd`: a
/// new entry if `fd` has none in `registry`, a changed entry if it has one.
pub open spec fn registration(
    epfd: i32,
    registry: Map<i32, Waker>,
    fd: i32,
    op: EpollEventType,
) -> Syscall {
    Syscall::EpollCtl {
        epfd,
        op: if registry.contains_key(fd) {
            CtlOp::Mod
        } else {
            CtlOp::Add
        },
        fd,
        event: Some(EpollEvent { interest: op, token: token_of(fd) }),
    }
}

/// The loop at report `index` of `count`, whose descriptor is registered:
/// past the last report it waits again; otherwise the deregistration of the
/// report's descriptor is asked for, with its handle kept for waking.
pub open spec fn dispatch(
    epfd: i32,
    registry: Map<i32, Waker>,
    count: usize,
    index: usize,
    events: Seq<EpollEvent>,
) -> Reaction {
    if index >= count {
        Reaction::Call(
            ReactorState::Waiting,
            Syscall::EpollWait { epfd, max_events: MAX_EVENTS as i32, timeout: -1i32 },
        )
    } else {
        let fd = fd_of(events[index as int].token);
        Reaction::Call(
            ReactorState::Deregistering { count, index, waker: registry[fd] },
            Syscall::EpollCtl { epfd, op: CtlOp::Del, fd, event: None },
        )
    }
}

/// The registry after the loop looked at report `index` of `count`: the
/// entry of the report's descriptor is gone.
pub open spec fn dispatch_registry(
    registry: Map<i32, Waker>,
    count: usize,
    index: usize,
    events: Seq<EpollEvent>,
) -> Map<i32, Waker> {
    if index >= count {
        registry
    } else {
        registry.remove(fd_of(events[index as int].token))
    }
}

/// What the loop wants next in `state`, `ret` being the result of the call
/// it asked for last and `events` the buffer the last wait filled.
pub open spec fn reaction(
    epfd: i32,
    registry: Map<i32, Waker>,
    state: ReactorState,
    ret: SysRet,
    events: Seq<EpollEvent>,
) -> Reaction {
    match state {
        ReactorState::Start => Reaction::Call(
            ReactorState::Waiting,
            Syscall::EpollWait { epfd, max_events: MAX_EVENTS as i32, timeout: -1i32 },
        ),
        ReactorState::Waiting => match ret.checked_count() {
            Ok(count) => dispatch(epfd, registry, count, 0, events),
            Err(e) => Reaction::Fail(e),
        },
        ReactorState::Deregistering { count, index, waker } => match ret.checked_unit() {
            Ok(_) => Reaction::Wake(ReactorState::Waking { count, index }, waker),
            Err(e) => Reaction::Fail(e),
        },
        ReactorState::Waking { count, index } => dispatch(
            epfd,
            registry,
            count,
            (index + 1) as usize,
            events,
        ),
    }
}

/// The registry after the loop's step in `state`.
pub open spec fn registry_after(
    registry: Map<i32, Waker>,
    state: ReactorState,
    ret: SysRet,
    events: Seq<EpollEvent>,
) -> Map<i32, Waker> {
    match state.next_report(ret) {
        Some((count, index)) => dispatch_registry(registry, count, index, events),
        None => registry,
    }
}

impl Reactor {
    /// The registry as a map from descriptor to handle.
    pub open spec fn registry(&self) -> Map<i32, Waker> {
        self.wakers@
    }

    /// A reactor on `epoll` with nobody registered.
    pub fn new(epoll: Epoll) -> (reactor: Reactor)
        ensures
            reactor.epoll == epoll,
            reactor.registry() == Map::<i32, Waker>::empty(),
    {
        Reactor { epoll, wakers: HashMap::new() }
    }

    /// Registers interest `op` in descriptor `fd` on behalf of `waker`, in
    /// two steps. Called with no result, it asks the multiplexer for the
    /// registration, a new entry for a descriptor that has none here and a
    /// changed entry for one that has, and changes nothing. Called with the
    /// result of that request, it stores `waker` for `fd` if the request
    /// succeeded, replacing any handle stored before, and otherwise reports
    /// the error and changes nothing.
    pub fn add_event(
        &mut self,
        fd: i32,
        op: EpollEventType,
        waker: Waker,
        registered: Option<SysRet>,
    ) -> (step: Step<(), Result<(), OsError>>)
        ensures
            final(self).epoll == old(self).epoll,
            match registered {
                None => {
                    &&& step == Step::<(), Result<(), OsError>>::Call(
                        (),
                        registration(old(self).epoll.raw(), old(self).registry(), fd, op),
                    )
                    &&& final(self).registry() == old(self).registry()
                },
                Some(ret) => {
                    &&& step == Step::<(), Result<(), OsError>>::Done(ret.checked_unit())
                    &&& final(self).registry() == if ret.checked_unit() is Ok {
                        old(self).registry().insert(fd, waker)
                    } else {
                        old(self).registry()
                    }
                },
            },
    {
        match registered {
            None => if self.wakers.contains_key(&fd) {
                Step::Call((), self.epoll.mod_event(fd, op))
            } else {
                Step::Call((), self.epoll.add_event(fd, op))
            },
            Some(ret) => match ret.check_unit() {
                Ok(()) => {
                    self.wakers.insert(fd, waker);
                    Step::Done(Ok(()))
                },
                Err(e) => Step::Done(Err(e)),
            },
        }
    }

    /// Takes the handle registered for `fd` out of the registry. Whoever
    /// gets the handle gets it with the entry already gone.
    pub fn fire(&mut self, fd: i32) -> (waker: Option<Waker>)
        ensures
            waker == fired(old(self).registry(), fd),
            final(self).registry() == old(self).registry().remove(fd),
            final(self).epoll == old(self).epoll,
    {
        self.wakers.remove(&fd)
    }

    /// The descriptor of the report the loop looks at next in `state`, if
    /// nobody is registered for it.
    pub fn stray(&self, state: ReactorState, ret: SysRet, events: &Vec<EpollEvent>) -> (fd: Option<
        i32,
    >)
        requires
            state.wf(),
            state.fits(ret, events@),
        ensures
            fd == stray(self.registry(), state, ret, events@),
    {
        let (count, index): (usize, usize) = match state {
            ReactorState::Waiting => match ret.check_count() {
                Ok(count) => (count, 0),
                Err(_) => {
                    return None;
                },
            },
            ReactorState::Waking { count, index } => (count, index + 1),
            _ => {
                return None;
            },
        };
        if index < count {
            let fd: i32 = events[index].fd();
            if self.wakers.contains_key(&fd) {
                None
            } else {
                Some(fd)
            }
        } else {
            None
        }
    }

    /// The loop at report `index` of `count`.
    fn dispatch(&mut self, count: usize, index: usize, events: &Vec<EpollEvent>) -> (r: Reaction)
        requires
            count <= events@.len(),
            index <= count,
            index < count ==> old(self).registry().contains_key(
                fd_of(events@[index as int].token),
            ),
        ensures
            r == dispatch(old(self).epoll.raw(), old(self).registry(), count, index, events@),
            final(self).registry() == dispatch_registry(
                old(self).registry(),
                count,
                index,
                events@,
            ),
            final(self).epoll == old(self).epoll,
            r matches Reaction::Call(state, _) && state.wf() && state.within(events@),
    {
        if index >= count {
            Reaction::Call(ReactorState::Waiting, self.epoll.wait(MAX_EVENTS))
        } else {
            let fd: i32 = events[index].fd();
            let waker = self.fire(fd).unwrap();
            Reaction::Call(
                ReactorState::Deregistering { count, index, waker },
                self.epoll.del_event(fd),
            )
        }
    }
}

/// One step of the reactor's loop, for a step that meets no report for a
/// descriptor nobody is registered for. The loop waits for readiness; then,
/// for each report in turn, it takes the handle registered for the
/// report's descriptor out of the registry, asks for the descriptor to be
/// deregistered, and only then hands the handle out to be woken. A failed
/// call ends the loop with its error.
///
/// `state` is the state the previous step returned ([`ReactorState::Start`]
/// at first), `ret` the result of the call that step asked for (ignored
/// where it asked for none), and `events` the buffer the last wait filled.
pub fn reactor_main_loop(
    reactor: &mut Reactor,
    state: ReactorState,
    ret: SysRet,
    events: &Vec<EpollEvent>,
) -> (r: Reaction)
    requires
        state.wf(),
        state.fits(ret, events@),
        stray(old(reactor).registry(), state, ret, events@) is None,
    ensures
        r == reaction(old(reactor).epoll.raw(), old(reactor).registry(), state, ret, events@),
        final(reactor).registry() == registry_after(old(reactor).registry(), state, ret, events@),
        final(reactor).epoll == old(reactor).epoll,
        r matches Reaction::Call(next, _) ==> next.wf() && next.within(events@),
        r matches Reaction::Wake(next, _) ==> next.wf() && next.within(events@),
{
    match state {
        ReactorState::Start => Reaction::Call(ReactorState::Waiting, reactor.epoll.wait(MAX_EVENTS)),
        ReactorState::Waiting => match Epoll::ready(ret) {
            Ok(count) => reactor.dispatch(count, 0, events),
            Err(e) => Reaction::Fail(e),
        },
        ReactorState::Deregistering { count, index, waker } => match ret.check_unit() {
            Ok(()) => Reaction::Wake(ReactorState::Waking { count, index }, waker),
            Err(e) => Reaction::Fail(e),
        },
        ReactorState::Waking { count, index } => reactor.dispatch(count, index + 1, events),
    }
}

/// One step of the reactor's loop, for any step. Where the report the loop
/// looks at next is for a descriptor nobody is registered for, nothing is
/// asked for, nobody is woken and the registry stays as it is: the report
/// is handed back as a [`Stray`]. Every other step is the step of
/// [`reactor_main_loop`].
pub fn reactor_step(
    reactor: &mut Reactor,
    state: ReactorState,
    ret: SysRet,
    events: &Vec<EpollEvent>,
) -> (r: Result<Reaction, Stray>)
    requires
        state.wf(),
        state.fits(ret, events@),
    ensures
        final(reactor).epoll == old(reactor).epoll,
        match stray(old(reactor).registry(), state, ret, events@) {
            Some(fd) => {
                &&& r == Err::<Reaction, Stray>(
                    Stray {
                        fd,
                        skip: ReactorState::Waking {
                            count: state.next_report(ret)->Some_0.0,
                            index: state.next_report(ret)->Some_0.1,
                        },
                    },
                )
                &&& final(reactor).registry() == old(reactor).registry()
                &&& r->Err_0.skip.wf()
                &&& r->Err_0.skip.within(events@)
            },
            None => {
                &&& r == Ok::<Reaction, Stray>(
                    reaction(
                        old(reactor).epoll.raw(),
                        old(reactor).registry(),
                        state,
                        ret,
                        events@,
                    ),
                )
                &&& final(reactor).registry() == registry_after(
                    old(reactor).registry(),
                    state,
                    ret,
                    events@,
                )
                &&& r->Ok_0 matches Reaction::Call(next, _) ==> next.wf() && next.within(events@)
                &&& r->Ok_0 matches Reaction::Wake(next, _) ==> next.wf() && next.within(events@)
            },
        },
{
    match reactor.stray(state, ret, events) {
        Some(fd) => {
            let skip = match state {
                ReactorState::Waking { count, index } => ReactorState::Waking {
                    count,
                    index: index + 1,
                },
                _ => match ret.check_count() {
                    Ok(count) => ReactorState::Waking { count, index: 0 },
                    Err(_) => state,
                },
            };
            Err(Stray { fd, skip })
        },
        None => Ok(reactor_main_loop(reactor, state, ret, events)),
    }
}

/// A handle is handed out exactly where its entry leaves the registry: if
/// the loop's step asks for a deregistration, the handle it keeps for waking
/// is the one that was registered for the descriptor, and after the step the
/// descriptor has no entry.
pub proof fn lemma_entry_removed_before_wake(
    epfd: i32,
    registry: Map<i32, Waker>,
    state: ReactorState,
    ret: SysRet,
    events: Seq<EpollEvent>,
)
    requires
        stray(registry, state, ret, events) is None,
    ensures
        reaction(epfd, registry, state, ret, events) matches Reaction::Call(
            ReactorState::Deregistering { waker, .. },
            Syscall::EpollCtl { fd, .. },
        ) ==> {
            &&& fired(registry, fd) == Some(waker)
            &&& !registry_after(registry, state, ret, events).contains_key(fd)
            &&& registry_after(registry, state, ret, events) == registry.remove(fd)
        },
{
}

/// The loop wakes a handle only after the step that took it out of the
/// registry, and it wakes that handle and no other.
pub proof fn lemma_wake_follows_removal(
    epfd: i32,
    registry: Map<i32, Waker>,
    state: ReactorState,
    ret: SysRet,
    events: Seq<EpollEvent>,
)
    ensures
        reaction(epfd, registry, state, ret, events) matches Reaction::Wake(next, woken) ==> {
            &&& state matches ReactorState::Deregistering { count, index, waker }
            &&& woken == waker
            &&& next == (ReactorState::Waking { count, index })
            &&& registry_after(registry, state, ret, events) == registry
        },
{
}

/// One report wakes one handle. For a report whose descriptor is
/// registered, the loop asks for the deregistration, then wakes the handle
/// that was registered, and then goes on to the next report.
pub proof fn lemma_one_wake_per_report(
    epfd: i32,
    registry: Map<i32, Waker>,
    count: usize,
    index: usize,
    events: Seq<EpollEvent>,
    deregistered: SysRet,
    ignored: SysRet,
)
    requires
        index < count <= events.len(),
        registry.contains_key(fd_of(events[index as int].token)),
        deregistered.checked_unit() is Ok,
    ensures
        ({
            let fd = fd_of(events[index as int].token);
            let waker = registry[fd];
            let taken = ReactorState::Deregistering { count, index, waker };
            let woken = ReactorState::Waking { count, index };
            let after = dispatch_registry(registry, count, index, events);
            &&& dispatch(epfd, registry, count, index, events) == Reaction::Call(
                taken,
                Syscall::EpollCtl { epfd, op: CtlOp::Del, fd, event: None },
            )
            &&& !after.contains_key(fd)
            &&& reaction(epfd, after, taken, deregistered, events) == Reaction::Wake(woken, waker)
            &&& registry_after(after, taken, deregistered, events) == after
            &&& reaction(epfd, after, woken, ignored, events) == dispatch(
                epfd,
                after,
                count,
                (index + 1) as usize,
                events,
            )
        }),
{
}

/// One registration fires once: after a report for `fd` has fired, a second
/// report for `fd` finds no handle unless `fd` was registered again.
pub proof fn lemma_no_double_fire(registry: Map<i32, Waker>, fd: i32)
    ensures
        fired(registry.remove(fd), fd) is None,
        forall|other: i32|
            other != fd ==> fired(registry.remove(fd), other) == fired(registry, other),
{
}

/// A registration that was accepted is the one that fires, whatever was
/// registered for the descriptor before.
pub proof fn lemma_registered_fires(registry: Map<i32, Waker>, fd: i32, waker: Waker)
    ensures
        fired(registry.insert(fd, waker), fd) == Some(waker),
        forall|other: i32|
            other != fd ==> fired(registry.insert(fd, waker), other) == fired(registry, other),
{
}

/// Two reports for the same descriptor in one batch, with nothing
/// registered in between: the second is a stray, and wakes nobody.
pub proof fn lemma_second_report_is_stray(
    registry: Map<i32, Waker>,
    count: usize,
    index: usize,
    events: Seq<EpollEvent>,
    ignored: SysRet,
)
    requires
        index + 1 < count <= events.len(),
        fd_of(events[index as int].token) == fd_of(events[index + 1].token),
    ensures
        stray(
            dispatch_registry(registry, count, index, events),
            ReactorState::Waking { count, index },
            ignored,
            events,
        ) == Some(fd_of(events[index as int].token)),
{
}

} // verus!
