//! The whole runtime, driven against a kernel made of plain data.

use async_echo_server::epoll::{CtlOp, Epoll, EpollEvent, EpollEventType};
use async_echo_server::executor::{new_executor_and_spawner, Executor, Poll, Spawner, Turn, Waker};
use async_echo_server::reactor::{reactor_step, Reaction, Reactor, ReactorState, MAX_EVENTS};
use async_echo_server::server::{
    accept_loop, handle_client, Accepted, ClientAction, ClientEvent, BUFFER_SIZE,
};
use async_echo_server::sys::{OsError, Step, Syscall, SysRet, EAGAIN};
use async_echo_server::tcp_listener::{
    AcceptState, BindState, IoState, Ipv4Addr, TcpListener, TcpStream,
};
use std::collections::{BTreeMap, VecDeque};

const EEXIST: i32 = 17;
const ENOENT: i32 = 2;
const EBADF: i32 = 9;

struct Pipe {
    inbox: VecDeque<u8>,
    eof: bool,
    outbox: Vec<u8>,
}

struct Kernel {
    next_fd: i32,
    listener: Option<i32>,
    backlog: VecDeque<i32>,
    pipes: BTreeMap<i32, Pipe>,
    interest: BTreeMap<i32, EpollEvent>,
    closed: Vec<i32>,
    calls: Vec<Syscall>,
    /// The most bytes one write takes.
    write_limit: usize,
}

impl Kernel {
    fn new() -> Kernel {
        Kernel {
            next_fd: 3,
            listener: None,
            backlog: VecDeque::new(),
            pipes: BTreeMap::new(),
            interest: BTreeMap::new(),
            closed: Vec::new(),
            calls: Vec::new(),
            write_limit: usize::MAX,
        }
    }

    fn fresh_fd(&mut self) -> i32 {
        let fd = self.next_fd;
        self.next_fd += 1;
        fd
    }

    fn connect(&mut self) -> i32 {
        let fd = self.fresh_fd();
        self.pipes.insert(fd, Pipe { inbox: VecDeque::new(), eof: false, outbox: Vec::new() });
        self.backlog.push_back(fd);
        fd
    }

    fn send(&mut self, fd: i32, bytes: &[u8]) {
        self.pipes.get_mut(&fd).unwrap().inbox.extend(bytes.iter().copied());
    }

    fn shutdown(&mut self, fd: i32) {
        self.pipes.get_mut(&fd).unwrap().eof = true;
    }

    fn received(&self, fd: i32) -> Vec<u8> {
        self.pipes[&fd].outbox.clone()
    }

    fn readable(&self, fd: i32) -> bool {
        if Some(fd) == self.listener {
            return !self.backlog.is_empty();
        }
        match self.pipes.get(&fd) {
            Some(pipe) => !pipe.inbox.is_empty() || pipe.eof,
            None => false,
        }
    }

    fn ready(&self) -> Vec<EpollEvent> {
        let mut events = Vec::new();
        for (fd, event) in self.interest.iter() {
            let is_ready = match event.interest {
                EpollEventType::In => self.readable(*fd),
                EpollEventType::Out => true,
            };
            if is_ready && events.len() < MAX_EVENTS {
                events.push(*event);
            }
        }
        events
    }

    fn perform(&mut self, call: Syscall, data: &mut Vec<u8>) -> SysRet {
        self.calls.push(call);
        match call {
            Syscall::EpollCreate { .. } | Syscall::Socket => {
                let fd = self.fresh_fd();
                SysRet::returned(fd as i64)
            }
            Syscall::EpollCtl { op: CtlOp::Add, fd, event, .. } => {
                if self.interest.contains_key(&fd) {
                    SysRet::failed(EEXIST)
                } else {
                    self.interest.insert(fd, event.unwrap());
                    SysRet::returned(0)
                }
            }
            Syscall::EpollCtl { op: CtlOp::Mod, fd, event, .. } => {
                if self.interest.contains_key(&fd) {
                    self.interest.insert(fd, event.unwrap());
                    SysRet::returned(0)
                } else {
                    SysRet::failed(ENOENT)
                }
            }
            Syscall::EpollCtl { op: CtlOp::Del, fd, .. } => {
                if self.interest.remove(&fd).is_some() {
                    SysRet::returned(0)
                } else {
                    SysRet::failed(ENOENT)
                }
            }
            Syscall::EpollWait { .. } => panic!("the harness answers waits itself"),
            Syscall::GetFlags { .. } | Syscall::GetFdFlags { .. } => SysRet::returned(2),
            Syscall::SetNonblocking { .. }
            | Syscall::SetCloexec { .. }
            | Syscall::SetReuseAddr { .. }
            | Syscall::Bind { .. } => SysRet::returned(0),
            Syscall::Listen { fd, .. } => {
                self.listener = Some(fd);
                SysRet::returned(0)
            }
            Syscall::Accept { .. } => match self.backlog.pop_front() {
                Some(fd) => SysRet::returned(fd as i64),
                None => SysRet::failed(EAGAIN),
            },
            Syscall::Read { fd, len } => match self.pipes.get_mut(&fd) {
                None => SysRet::failed(EBADF),
                Some(pipe) => {
                    if pipe.inbox.is_empty() {
                        if pipe.eof {
                            SysRet::returned(0)
                        } else {
                            SysRet::failed(EAGAIN)
                        }
                    } else {
                        let n = len.min(pipe.inbox.len());
                        data.clear();
                        data.resize(len, 0);
                        for slot in data.iter_mut().take(n) {
                            *slot = pipe.inbox.pop_front().unwrap();
                        }
                        SysRet::returned(n as i64)
                    }
                }
            },
            Syscall::Write { fd, len } => match self.pipes.get_mut(&fd) {
                None => SysRet::failed(EBADF),
                Some(pipe) => {
                    let n = len.min(self.write_limit);
                    pipe.outbox.extend_from_slice(&data[..n]);
                    SysRet::returned(n as i64)
                }
            },
            Syscall::Close { fd } => {
                self.interest.remove(&fd);
                self.closed.push(fd);
                SysRet::returned(0)
            }
        }
    }
}

enum Phase {
    Start,
    Reading,
    Writing(Vec<u8>),
}

enum Job {
    AcceptLoop,
    Client { stream: TcpStream, phase: Phase },
}

struct World {
    kernel: Kernel,
    reactor: Reactor,
    executor: Executor<Job>,
    spawner: Spawner,
    listener: TcpListener,
    most_queued: usize,
    wakes: Vec<Waker>,
    results: Vec<(usize, Result<(), OsError>)>,
}

fn bind(kernel: &mut Kernel, addr: Ipv4Addr, port: u16) -> Result<TcpListener, OsError> {
    let mut state = BindState::Start;
    let mut ret = SysRet::returned(0);
    let mut unused = Vec::new();
    loop {
        match TcpListener::bind(addr, port, state, ret) {
            Step::Call(next, call) => {
                ret = kernel.perform(call, &mut unused);
                state = next;
            }
            Step::Done(result) => return result,
        }
    }
}

impl World {
    fn new() -> World {
        let mut kernel = Kernel::new();
        let mut unused = Vec::new();
        let epoll = Epoll::new(kernel.perform(Epoll::create(), &mut unused)).unwrap();
        let listener = bind(&mut kernel, Ipv4Addr::new(127, 0, 0, 1), 0).unwrap();
        let (executor, spawner) = new_executor_and_spawner::<Job>();
        World {
            kernel,
            reactor: Reactor::new(epoll),
            executor,
            spawner,
            listener,
            most_queued: 0,
            wakes: Vec::new(),
            results: Vec::new(),
        }
    }

    fn note_queue(&mut self) {
        let queued = self.executor.queued();
        assert!(queued <= self.executor.bound());
        self.most_queued = self.most_queued.max(queued);
    }

    fn resume(&mut self, job: &mut Job, waker: Waker) -> Poll<Result<(), OsError>> {
        match job {
            Job::AcceptLoop => loop {
                let accept = self.listener.incoming().next();
                let mut state = AcceptState::Start;
                let mut ret = SysRet::returned(0);
                let mut unused = Vec::new();
                let polled = loop {
                    match accept.poll(state, ret, &mut self.reactor, waker) {
                        Step::Call(next, call) => {
                            ret = self.kernel.perform(call, &mut unused);
                            state = next;
                        }
                        Step::Done(polled) => break polled,
                    }
                };
                match polled {
                    Poll::Pending => return Poll::Pending,
                    Poll::Ready(accepted) => match accept_loop(accepted) {
                        Accepted::Spawn(stream) => {
                            let client = Job::Client { stream, phase: Phase::Start };
                            assert!(self.spawner.spawn(&mut self.executor, client).is_ok());
                            self.note_queue();
                        }
                        Accepted::Stop(result) => return Poll::Ready(result),
                    },
                }
            },
            Job::Client { stream, phase } => loop {
                let event = match phase {
                    Phase::Start => ClientEvent::Connected,
                    Phase::Reading => {
                        let read = stream.read(BUFFER_SIZE);
                        let mut state = IoState::Start;
                        let mut ret = SysRet::returned(0);
                        let mut buf = vec![0u8; BUFFER_SIZE];
                        let polled = loop {
                            match read.poll(state, ret, &mut self.reactor, waker) {
                                Step::Call(next, call) => {
                                    ret = self.kernel.perform(call, &mut buf);
                                    state = next;
                                }
                                Step::Done(polled) => break polled,
                            }
                        };
                        match polled {
                            Poll::Pending => return Poll::Pending,
                            Poll::Ready(result) => ClientEvent::Read(result, buf),
                        }
                    }
                    Phase::Writing(data) => {
                        let write = stream.write(data);
                        let mut state = IoState::Start;
                        let mut ret = SysRet::returned(0);
                        let mut buf = write.bytes().to_vec();
                        let polled = loop {
                            match write.poll(state, ret, &mut self.reactor, waker) {
                                Step::Call(next, call) => {
                                    ret = self.kernel.perform(call, &mut buf);
                                    state = next;
                                }
                                Step::Done(polled) => break polled,
                            }
                        };
                        match polled {
                            Poll::Pending => return Poll::Pending,
                            Poll::Ready(result) => ClientEvent::Written(result, data.clone()),
                        }
                    }
                };
                match handle_client(stream, event) {
                    ClientAction::Read { len } => {
                        assert_eq!(len, BUFFER_SIZE);
                        *phase = Phase::Reading;
                    }
                    ClientAction::Write { data } => *phase = Phase::Writing(data),
                    ClientAction::Finish { close, result } => {
                        let mut unused = Vec::new();
                        assert_eq!(close, TcpStream(stream.0).close());
                        self.kernel.perform(close, &mut unused);
                        return Poll::Ready(result);
                    }
                }
            },
        }
    }

    /// Runs the executor until its queue is empty. Returns false once the
    /// run is over for good.
    fn drain(&mut self) -> bool {
        loop {
            self.note_queue();
            match self.executor.run() {
                Turn::Resume { waker, mut future } => {
                    let polled = self.resume(&mut future, waker);
                    if let Poll::Ready(result) = &polled {
                        self.results.push((waker.task, *result));
                    }
                    self.executor.settle(waker.task, future, &polled);
                }
                Turn::Spurious { .. } => {}
                Turn::Idle => return true,
                Turn::Closed => return false,
            }
        }
    }

    /// One batch of the reactor: everything that is ready now is fired.
    /// Returns the number of handles woken.
    fn react(&mut self) -> usize {
        let events = self.kernel.ready();
        if events.is_empty() {
            return 0;
        }
        let mut woken = 0;
        let mut fired = None;
        let mut unused = Vec::new();
        let mut state = ReactorState::Waiting;
        let mut ret = SysRet::returned(events.len() as i64);
        loop {
            let reaction = match reactor_step(&mut self.reactor, state, ret, &events) {
                Ok(reaction) => reaction,
                Err(stray) => panic!("not found fd {}", stray.fd),
            };
            match reaction {
                Reaction::Call(next, Syscall::EpollWait { .. }) => {
                    assert_eq!(next, ReactorState::Waiting);
                    return woken;
                }
                Reaction::Call(next, call) => {
                    if let Syscall::EpollCtl { fd, .. } = call {
                        fired = Some(fd);
                    }
                    ret = self.kernel.perform(call, &mut unused);
                    state = next;
                }
                Reaction::Wake(next, waker) => {
                    // the entry is gone before the handle is woken
                    assert!(!self.reactor.wakers.contains_key(&fired.unwrap()));
                    self.wakes.push(waker);
                    assert!(self.executor.wake(&waker).is_ok());
                    self.note_queue();
                    woken += 1;
                    state = next;
                }
                Reaction::Fail(e) => panic!("reactor failed with {:?}", e),
            }
        }
    }

    /// Runs executor and reactor in turn until nothing is left to do.
    fn settle(&mut self) {
        loop {
            self.drain();
            if self.react() == 0 {
                return;
            }
        }
    }
}

fn start() -> World {
    let mut world = World::new();
    assert!(world.spawner.spawn(&mut world.executor, Job::AcceptLoop).is_ok());
    world.settle();
    world
}

fn payload(len: usize) -> Vec<u8> {
    let mut bytes = Vec::new();
    for i in 0..len {
        bytes.push((i * 7 + 3) as u8);
    }
    bytes
}

fn echo_round_trip(len: usize) {
    let mut world = start();
    let client = world.kernel.connect();
    world.settle();
    let sent = payload(len);
    world.kernel.send(client, &sent);
    world.settle();
    assert_eq!(world.kernel.received(client), sent);
}

#[test]
fn echo_round_trip_of_one_byte() {
    echo_round_trip(1);
}

#[test]
fn echo_round_trip_of_1023_bytes() {
    echo_round_trip(1023);
}

#[test]
fn echo_round_trip_of_1024_bytes() {
    echo_round_trip(1024);
}

#[test]
fn echo_round_trip_of_more_than_one_buffer() {
    echo_round_trip(3000);
}

#[test]
fn hello_is_echoed_and_the_connection_is_closed_after_the_client_leaves() {
    let mut world = start();
    assert_eq!(world.executor.live(), 1);
    let client = world.kernel.connect();
    world.settle();
    assert_eq!(world.executor.live(), 2);
    world.kernel.send(client, b"hello");
    world.settle();
    assert_eq!(world.kernel.received(client), b"hello".to_vec());
    assert!(!world.kernel.closed.contains(&client));
    assert_eq!(world.reactor.wakers.get(&client), Some(&Waker { task: 1 }));

    world.kernel.shutdown(client);
    world.settle();
    assert_eq!(world.results, vec![(1, Ok(()))]);
    assert_eq!(world.executor.live(), 1);
    assert!(world.kernel.closed.contains(&client));
    assert!(!world.reactor.wakers.contains_key(&client));
    assert!(!world.kernel.interest.contains_key(&client));
    assert_eq!(world.kernel.received(client), b"hello".to_vec());
}

#[test]
fn two_clients_get_only_their_own_bytes_back() {
    let mut world = start();
    let a = world.kernel.connect();
    let b = world.kernel.connect();
    world.settle();
    world.kernel.send(a, b"A");
    world.kernel.send(b, b"B");
    world.settle();
    world.kernel.send(b, b"BB");
    world.kernel.send(a, b"AA");
    world.settle();
    assert_eq!(world.kernel.received(a), b"AAA".to_vec());
    assert_eq!(world.kernel.received(b), b"BBB".to_vec());
}

#[test]
fn fifty_connections_complete_within_the_bound_and_leave_no_registration() {
    let mut world = start();
    let mut clients = Vec::new();
    for _ in 0..50 {
        clients.push(world.kernel.connect());
    }
    world.settle();
    assert_eq!(world.executor.live(), 51);
    for (i, client) in clients.iter().enumerate() {
        world.kernel.send(*client, &payload(i + 1));
    }
    world.settle();
    for client in clients.iter() {
        world.kernel.shutdown(*client);
    }
    world.settle();

    assert_eq!(world.results.len(), 50);
    assert!(world.results.iter().all(|(_, result)| *result == Ok(())));
    assert_eq!(world.executor.live(), 1);
    assert!(world.most_queued <= world.executor.bound());
    assert!(world.most_queued >= 1);
    for (i, client) in clients.iter().enumerate() {
        assert_eq!(world.kernel.received(*client), payload(i + 1));
        assert!(world.kernel.closed.contains(client));
        assert!(!world.reactor.wakers.contains_key(client));
    }
    let listener = world.listener.as_raw_fd();
    assert_eq!(world.reactor.wakers.len(), 1);
    assert!(world.reactor.wakers.contains_key(&listener));
}

#[test]
fn every_readiness_report_wakes_exactly_one_handle() {
    let mut world = start();
    let a = world.kernel.connect();
    let b = world.kernel.connect();
    world.settle();
    world.wakes.clear();
    world.kernel.send(a, b"x");
    world.kernel.send(b, b"y");
    let woken = world.react();
    assert_eq!(woken, 2);
    assert_eq!(world.wakes, vec![Waker { task: 1 }, Waker { task: 2 }]);
    assert!(!world.reactor.wakers.contains_key(&a));
    assert!(!world.reactor.wakers.contains_key(&b));
    assert_eq!(world.react(), 0);
}

#[test]
fn a_blocked_read_stays_suspended_with_one_registration() {
    let mut world = start();
    let client = world.kernel.connect();
    world.settle();
    for _ in 0..5 {
        assert!(world.executor.wake(&Waker { task: 1 }).is_ok());
        match world.executor.run() {
            Turn::Resume { waker, future } => {
                let mut future = future;
                // the reactor has not fired: the registration of the resume before is live
                assert!(world.kernel.interest.contains_key(&client));
                let polled = world.resume(&mut future, waker);
                assert_eq!(polled, Poll::Pending);
                world.executor.settle(waker.task, future, &polled);
            }
            _ => panic!("the client should be resumed"),
        }
        assert_eq!(world.reactor.wakers.get(&client), Some(&Waker { task: 1 }));
        assert_eq!(world.reactor.wakers.len(), 2);
        assert_eq!(world.kernel.interest.len(), 2);
    }
    assert!(world.results.is_empty());
}

#[test]
fn a_blocked_read_stays_suspended_whether_or_not_the_reactor_fired() {
    let mut world = start();
    let client = world.kernel.connect();
    world.settle();
    for round in 0..6 {
        if round % 2 == 1 {
            // the reactor fired: it took the entry out and had the descriptor deregistered
            assert_eq!(world.reactor.fire(client), Some(Waker { task: 1 }));
            let deregister = world.reactor.epoll.del_event(client);
            assert_eq!(world.kernel.perform(deregister, &mut Vec::new()), SysRet::returned(0));
        }
        assert!(world.executor.wake(&Waker { task: 1 }).is_ok());
        match world.executor.run() {
            Turn::Resume { waker, mut future } => {
                let polled = world.resume(&mut future, waker);
                assert_eq!(polled, Poll::Pending);
                world.executor.settle(waker.task, future, &polled);
            }
            _ => panic!("the client should be resumed"),
        }
        assert_eq!(world.reactor.wakers.get(&client), Some(&Waker { task: 1 }));
        assert!(world.kernel.interest.contains_key(&client));
    }
    let asked: Vec<CtlOp> = world
        .kernel
        .calls
        .iter()
        .filter_map(|call| match call {
            Syscall::EpollCtl { fd, op, .. } if *fd == client => Some(*op),
            _ => None,
        })
        .collect();
    assert_eq!(
        asked,
        vec![
            CtlOp::Add,
            CtlOp::Mod,
            CtlOp::Del,
            CtlOp::Add,
            CtlOp::Mod,
            CtlOp::Del,
            CtlOp::Add,
            CtlOp::Mod,
            CtlOp::Del,
            CtlOp::Add,
        ]
    );
    assert!(world.results.is_empty());
}

fn echo_with_short_writes(len: usize, limit: usize) {
    let mut world = start();
    world.kernel.write_limit = limit;
    let client = world.kernel.connect();
    world.settle();
    let sent = payload(len);
    world.kernel.send(client, &sent);
    world.kernel.shutdown(client);
    world.settle();
    assert_eq!(world.kernel.received(client), sent);
    assert_eq!(world.results, vec![(1, Ok(()))]);
    assert!(world.kernel.closed.contains(&client));
}

#[test]
fn short_writes_lose_no_byte() {
    echo_with_short_writes(1, 1);
    echo_with_short_writes(1023, 1000);
    echo_with_short_writes(1024, 1);
    echo_with_short_writes(1024, 7);
    echo_with_short_writes(1024, 1023);
    echo_with_short_writes(3000, 100);
}

#[test]
fn every_accepted_connection_gets_both_flags_set() {
    let mut world = start();
    let client = world.kernel.connect();
    world.kernel.calls.clear();
    world.settle();
    let on_client: Vec<Syscall> = world
        .kernel
        .calls
        .iter()
        .copied()
        .filter(|call| match call {
            Syscall::GetFlags { fd }
            | Syscall::SetNonblocking { fd, .. }
            | Syscall::GetFdFlags { fd }
            | Syscall::SetCloexec { fd, .. } => *fd == client,
            _ => false,
        })
        .collect();
    assert_eq!(
        on_client,
        vec![
            Syscall::GetFlags { fd: client },
            Syscall::SetNonblocking { fd: client, flags: 2 },
            Syscall::GetFdFlags { fd: client },
            Syscall::SetCloexec { fd: client, flags: 2 },
        ]
    );
}
