//! Tasks, the bounded ready queue and the executor that resumes what the
//! queue hands it.
//!
//! A task is a record in an arena, kept under a number that is handed out
//! once and never again. Its handle, the [`Waker`], is that number; waking
//! pushes the number onto the ready queue. The record is made when the task
//! is spawned and leaves the arena when the task completes, so a handle
//! that outlives its task names nothing and wakes nothing. The executor
//! decides which task is resumed next and what happens to it afterwards.
//! Resuming the computation itself is the caller's part, between
//! [`Executor::run`] and [`Executor::settle`].

use std::collections::HashMap;
use std::collections::VecDeque;
use vstd::prelude::*;

verus! {

broadcast use vstd::std_specs::hash::group_hash_axioms;

/// The number of handles the ready queue of [`new_executor_and_spawner`]
/// holds before producers have to wait.
pub const QUEUE_BOUND: usize = 10000;

/// The handle that puts a task back on the ready queue.
#[derive(Clone, Copy, Debug, PartialEq, Eq, Structural)]
pub struct Waker {
    pub task: usize,
}

/// What resuming a computation reported.
#[derive(Debug, PartialEq, Eq)]
pub enum Poll<T> {
    /// The computation is complete, with this result.
    Ready(T),
    /// The computation is still suspended.
    Pending,
}

/// One unit of schedulable work: the slot for its suspended computation.
/// The slot is empty while the computation is being resumed.
pub struct Task<F> {
    pub future: Option<F>,
}

/// Why a handle could not be put on the ready queue.
#[derive(Clone, Copy, Debug, PartialEq, Eq, Structural)]
pub enum SendError {
    /// The queue is at its bound; the producer has to wait for room.
    Full,
    /// The consumer is gone; nothing will ever be resumed again. To send
    /// to such a queue is a fatal error of the producer.
    Closed,
}

/// What the executor decided to do next.
pub enum Turn<F> {
    /// Resume `future`, the computation of the task behind `waker`, handing
    /// it `waker` as its way to ask for another turn.
    Resume { waker: Waker, future: F },
    /// A handle was taken off the queue whose task has no computation to
    /// resume: a duplicate or late wake-up. Nothing is to be done.
    Spurious { task: usize },
    /// The queue is empty but producers remain: wait for a handle.
    Idle,
    /// The queue is empty and no producer remains, or the consumer has been
    /// closed: the run is over.
    Closed,
}

/// The mathematical state of an [`Executor`].
pub struct ExecutorView<F> {
    /// The handles waiting for a turn, oldest first.
    pub queue: Seq<usize>,
    /// The most handles the queue may hold.
    pub bound: nat,
    /// The number of live [`Spawner`] handles.
    pub spawners: nat,
    /// Whether the consumer is gone.
    pub closed: bool,
    /// The arena: the record of every task that has yet to complete, under
    /// the task's number.
    pub tasks: Map<usize, Task<F>>,
    /// The number the next task gets, which is also the number of tasks
    /// spawned so far.
    pub next: nat,
}

impl<F> ExecutorView<F> {
    /// What holds of every state an executor can be in: the queue is within
    /// its bound, the arena is finite, and every task in it got its number
    /// before the next one to be handed out.
    pub open spec fn wf(self) -> bool {
        &&& self.queue.len() <= self.bound
        &&& self.tasks.dom().finite()
        &&& self.next <= usize::MAX
        &&& forall|task: usize| self.tasks.contains_key(task) ==> task < self.next
    }

    /// The producers that can still send: every spawner and every task that
    /// has yet to complete.
    pub open spec fn producers(self) -> nat {
        self.spawners + self.tasks.len()
    }

    /// Whether `task` has a suspended computation waiting in its slot.
    pub open spec fn parked(self, task: usize) -> bool {
        self.tasks.contains_key(task) && self.tasks[task].future is Some
    }

    /// Whether `task` has been taken out for a resume that is not settled.
    pub open spec fn running(self, task: usize) -> bool {
        self.tasks.contains_key(task) && self.tasks[task].future is None
    }

    /// Whether `task` was spawned here and has completed: its number was
    /// handed out and its record has left the arena.
    pub open spec fn completed(self, task: usize) -> bool {
        task < self.next && !self.tasks.contains_key(task)
    }

    /// Whether a send would be refused, and why. A closed consumer is
    /// reported before a full queue.
    pub open spec fn refusal(self) -> Option<SendError> {
        if self.closed {
            Some(SendError::Closed)
        } else if self.queue.len() >= self.bound {
            Some(SendError::Full)
        } else {
            None
        }
    }

    /// The state after the handle `task` was sent, if the send is accepted.
    pub open spec fn wake(self, task: usize) -> Self {
        if self.refusal() is Some {
            self
        } else {
            ExecutorView { queue: self.queue.push(task), ..self }
        }
    }

    /// The state after `fut` was spawned, if the send is accepted: a new
    /// record in the arena under the next number, and that number at the
    /// end of the queue.
    pub open spec fn spawn(self, fut: F) -> Self {
        if self.refusal() is Some {
            self
        } else {
            ExecutorView {
                queue: self.queue.push(self.next as usize),
                tasks: self.tasks.insert(self.next as usize, Task { future: Some(fut) }),
                next: self.next + 1,
                ..self
            }
        }
    }

    /// What [`Executor::run`] decides in this state.
    pub open spec fn turn(self) -> Turn<F> {
        if self.closed {
            Turn::Closed
        } else if self.queue.len() == 0 {
            if self.producers() == 0 {
                Turn::Closed
            } else {
                Turn::Idle
            }
        } else {
            let task = self.queue[0];
            if self.parked(task) {
                Turn::Resume { waker: Waker { task }, future: self.tasks[task].future->Some_0 }
            } else {
                Turn::Spurious { task }
            }
        }
    }

    /// The state after [`Executor::run`]: the oldest handle leaves the
    /// queue, and the slot of the task it names is emptied.
    pub open spec fn after_turn(self) -> Self {
        if self.closed || self.queue.len() == 0 {
            self
        } else {
            let task = self.queue[0];
            if self.parked(task) {
                ExecutorView {
                    queue: self.queue.skip(1),
                    tasks: self.tasks.insert(task, Task { future: None }),
                    ..self
                }
            } else {
                ExecutorView { queue: self.queue.skip(1), ..self }
            }
        }
    }

    /// The state after the resume of `task` was settled: a computation that
    /// is still suspended goes back into its slot; one that completed is
    /// dropped, and the record of its task leaves the arena. Settling a
    /// task that is not running changes nothing.
    pub open spec fn settle(self, task: usize, future: F, pending: bool) -> Self {
        if !self.running(task) {
            self
        } else if pending {
            ExecutorView { tasks: self.tasks.insert(task, Task { future: Some(future) }), ..self }
        } else {
            ExecutorView { tasks: self.tasks.remove(task), ..self }
        }
    }
}

/// The consumer side of the ready queue together with the arena of tasks.
pub struct Executor<F> {
    ready_queue: VecDeque<usize>,
    bound: usize,
    spawners: usize,
    closed: bool,
    tasks: HashMap<usize, Task<F>>,
    next: usize,
}

/// A producer handle: the right to add new tasks to an executor.
#[derive(Debug)]
pub struct Spawner {
    token: (),
}

impl<F> View for Executor<F> {
    type V = ExecutorView<F>;

    closed spec fn view(&self) -> ExecutorView<F> {
        ExecutorView {
            queue: self.ready_queue@,
            bound: self.bound as nat,
            spawners: self.spawners as nat,
            closed: self.closed,
            tasks: self.tasks@,
            next: self.next as nat,
        }
    }
}

impl<F> Executor<F> {
    /// What holds of every executor between calls: its state is
    /// well-formed.
    pub closed spec fn wf(&self) -> bool {
        self@.wf()
    }

    /// A well-formed executor is in a well-formed state: in particular its
    /// queue is within its bound.
    pub proof fn lemma_wf(&self)
        requires
            self.wf(),
        ensures
            self@.wf(),
            self@.queue.len() <= self@.bound,
    {
    }

    /// The number of handles waiting for a turn. It never exceeds the bound.
    pub fn queued(&self) -> (n: usize)
        requires
            self.wf(),
        ensures
            n == self@.queue.len(),
            n <= self@.bound,
    {
        self.ready_queue.len()
    }

    /// The bound of the ready queue.
    pub fn bound(&self) -> (n: usize)
        ensures
            n == self@.bound,
    {
        self.bound
    }

    /// The number of live producer handles.
    pub fn spawners(&self) -> (n: usize)
        ensures
            n == self@.spawners,
    {
        self.spawners
    }

    /// The number of tasks ever spawned here.
    pub fn spawned(&self) -> (n: usize)
        ensures
            n == self@.next,
    {
        self.next
    }

    /// The number of tasks that have yet to complete: the records in the
    /// arena.
    pub fn live(&self) -> (n: usize)
        ensures
            n == self@.tasks.len(),
    {
        self.tasks.len()
    }

    /// Whether the consumer is gone.
    pub fn is_closed(&self) -> (closed: bool)
        ensures
            closed == self@.closed,
    {
        self.closed
    }

    /// Sends `waker`'s task to the back of the ready queue of a consumer
    /// that is there, so that the task gets another turn. With the queue at
    /// its bound the handle is refused and nothing changes: the producer
    /// has to wait for room.
    pub fn wake(&mut self, waker: &Waker) -> (r: Result<(), SendError>)
        requires
            old(self).wf(),
            !old(self)@.closed,
        ensures
            final(self).wf(),
            r == if old(self)@.queue.len() >= old(self)@.bound {
                Err::<(), SendError>(SendError::Full)
            } else {
                Ok::<(), SendError>(())
            },
            final(self)@ == old(self)@.wake(waker.task),
    {
        if self.ready_queue.len() >= self.bound {
            Err(SendError::Full)
        } else {
            self.ready_queue.push_back(waker.task);
            Ok(())
        }
    }

    /// Sends `waker`'s task to the back of the ready queue if the consumer
    /// is there, as [`Executor::wake`] does, and says so if the consumer is
    /// gone, with nothing changed.
    pub fn try_wake(&mut self, waker: &Waker) -> (r: Result<(), SendError>)
        requires
            old(self).wf(),
        ensures
            final(self).wf(),
            match old(self)@.refusal() {
                Some(e) => r == Err::<(), SendError>(e),
                None => r == Ok::<(), SendError>(()),
            },
            final(self)@ == old(self)@.wake(waker.task),
    {
        if self.closed {
            Err(SendError::Closed)
        } else {
            self.wake(waker)
        }
    }

    /// Takes the oldest handle off the ready queue and decides what to do
    /// with it. A task whose slot holds a computation is handed out for a
    /// resume, its slot left empty; a handle whose task has an empty slot,
    /// or has left the arena, is reported as a spurious wake-up. With an
    /// empty queue the executor waits as long as a producer remains.
    pub fn run(&mut self) -> (turn: Turn<F>)
        requires
            old(self).wf(),
        ensures
            final(self).wf(),
            turn == old(self)@.turn(),
            final(self)@ == old(self)@.after_turn(),
    {
        if self.closed {
            return Turn::Closed;
        }
        let task: usize = match self.ready_queue.pop_front() {
            Some(task) => task,
            None => {
                return if self.spawners == 0 && self.tasks.len() == 0 {
                    Turn::Closed
                } else {
                    Turn::Idle
                };
            },
        };
        assert(self.ready_queue@ =~= old(self).ready_queue@.skip(1));
        let parked: bool = match self.tasks.get(&task) {
            Some(record) => record.future.is_some(),
            None => false,
        };
        if parked {
            let ghost before = self.tasks@;
            let record = self.tasks.remove(&task).unwrap();
            let future = record.future.unwrap();
            self.tasks.insert(task, Task { future: None });
            assert(self.tasks@ =~= before.insert(task, Task { future: None }));
            Turn::Resume { waker: Waker { task }, future }
        } else {
            Turn::Spurious { task }
        }
    }

    /// Settles the resume of `task`. If the computation reported that it is
    /// still suspended, `future` goes back into the slot; if it reported
    /// completion, `future` is dropped and the record of the task leaves
    /// the arena. Settling a task that is not running changes nothing.
    pub fn settle<T>(&mut self, task: usize, future: F, polled: &Poll<T>)
        requires
            old(self).wf(),
        ensures
            final(self).wf(),
            final(self)@ == old(self)@.settle(task, future, *polled is Pending),
    {
        let running: bool = match self.tasks.get(&task) {
            Some(record) => record.future.is_none(),
            None => false,
        };
        if running {
            match polled {
                Poll::Pending => {
                    self.tasks.insert(task, Task { future: Some(future) });
                },
                Poll::Ready(_) => {
                    self.tasks.remove(&task);
                },
            }
        }
    }

    /// Marks the consumer as gone. From now on nothing can be sent, and
    /// [`Executor::run`] reports the end of the run.
    pub fn close(&mut self)
        requires
            old(self).wf(),
        ensures
            final(self).wf(),
            final(self)@ == (ExecutorView { closed: true, ..old(self)@ }),
    {
        self.closed = true;
    }

    /// Makes one more producer handle.
    pub fn add_spawner(&mut self) -> (spawner: Spawner)
        requires
            old(self).wf(),
            old(self)@.spawners < usize::MAX,
        ensures
            final(self).wf(),
            final(self)@ == (ExecutorView { spawners: old(self)@.spawners + 1, ..old(self)@ }),
    {
        self.spawners = self.spawners + 1;
        Spawner { token: () }
    }

    /// Gives a producer handle up.
    pub fn drop_spawner(&mut self, spawner: Spawner)
        requires
            old(self).wf(),
        ensures
            final(self).wf(),
            final(self)@ == (ExecutorView {
                spawners: if old(self)@.spawners > 0 {
                    (old(self)@.spawners - 1) as nat
                } else {
                    0
                },
                ..old(self)@
            }),
    {
        if self.spawners > 0 {
            self.spawners = self.spawners - 1;
        }
    }
}

impl Spawner {
    /// Wraps `fut` in a new task and sends its handle to the ready queue of
    /// a consumer that is there. The task gets a number that no task had
    /// before, which is its handle. With the queue at its bound `fut` is
    /// handed back and nothing changes: the producer has to wait for room.
    pub fn spawn<F>(&self, executor: &mut Executor<F>, fut: F) -> (r: Result<Waker, (SendError, F)>)
        requires
            old(executor).wf(),
            !old(executor)@.closed,
            old(executor)@.next < usize::MAX,
        ensures
            final(executor).wf(),
            r == if old(executor)@.queue.len() >= old(executor)@.bound {
                Err::<Waker, (SendError, F)>((SendError::Full, fut))
            } else {
                Ok::<Waker, (SendError, F)>(Waker { task: old(executor)@.next as usize })
            },
            final(executor)@ == old(executor)@.spawn(fut),
    {
        if executor.ready_queue.len() >= executor.bound {
            Err((SendError::Full, fut))
        } else {
            let task: usize = executor.next;
            executor.tasks.insert(task, Task { future: Some(fut) });
            executor.next = executor.next + 1;
            executor.ready_queue.push_back(task);
            Ok(Waker { task })
        }
    }

    /// Spawns `fut` if the consumer is there, as [`Spawner::spawn`] does,
    /// and says so if the consumer is gone, with `fut` handed back and
    /// nothing changed.
    pub fn try_spawn<F>(&self, executor: &mut Executor<F>, fut: F) -> (r: Result<
        Waker,
        (SendError, F),
    >)
        requires
            old(executor).wf(),
            old(executor)@.next < usize::MAX,
        ensures
            final(executor).wf(),
            match old(executor)@.refusal() {
                Some(e) => r == Err::<Waker, (SendError, F)>((e, fut)),
                None => r == Ok::<Waker, (SendError, F)>(
                    Waker { task: old(executor)@.next as usize },
                ),
            },
            final(executor)@ == old(executor)@.spawn(fut),
    {
        if executor.is_closed() {
            Err((SendError::Closed, fut))
        } else {
            self.spawn(executor, fut)
        }
    }
}

/// An executor with an empty ready queue of bound [`QUEUE_BOUND`] and no
/// tasks, and the one producer handle it starts with.
pub fn new_executor_and_spawner<F>() -> (pair: (Executor<F>, Spawner))
    ensures
        pair.0.wf(),
        pair.0@ == (ExecutorView::<F> {
            queue: Seq::empty(),
            bound: QUEUE_BOUND as nat,
            spawners: 1,
            closed: false,
            tasks: Map::empty(),
            next: 0,
        }),
{
    let executor = Executor {
        ready_queue: VecDeque::new(),
        bound: QUEUE_BOUND,
        spawners: 1,
        closed: false,
        tasks: HashMap::new(),
        next: 0,
    };
    (executor, Spawner { token: () })
}

/// The states an executor passes through stay well-formed, whatever is
/// sent, spawned, resumed or settled: the queue never grows past its bound.
pub proof fn lemma_steps_keep_wf<F>(m: ExecutorView<F>, task: usize, fut: F, pending: bool)
    requires
        m.wf(),
    ensures
        m.wake(task).wf(),
        m.next < usize::MAX ==> m.spawn(fut).wf(),
        m.after_turn().wf(),
        m.settle(task, fut, pending).wf(),
{
}

/// The queue is first in, first out: what is sent goes to the back, and the
/// turn takes from the front.
pub proof fn lemma_queue_is_fifo<F>(m: ExecutorView<F>, task: usize)
    requires
        m.refusal() is None,
    ensures
        m.wake(task).queue == m.queue.push(task),
        m.queue.len() > 0 ==> m.wake(task).after_turn().queue == m.after_turn().queue.push(task),
        m.queue.len() == 0 ==> m.wake(task).after_turn().queue == m.queue,
{
    if m.queue.len() > 0 {
        assert(m.queue.push(task).skip(1) =~= m.queue.skip(1).push(task));
    } else {
        assert(m.queue.push(task).skip(1) =~= m.queue);
    }
}

/// A task that is handed out for a resume is running from then on.
pub proof fn lemma_resume_marks_running<F>(m: ExecutorView<F>)
    requires
        m.wf(),
        m.turn() is Resume,
    ensures
        m.after_turn().running(m.turn()->Resume_waker.task),
        m.turn()->Resume_waker.task == m.queue[0],
{
}

/// A running task is never handed out a second time. As long as its resume
/// is not settled, no turn resumes it, and neither a wake-up, nor a spawn,
/// nor another turn changes that it is running.
pub proof fn lemma_one_resume_at_a_time<F>(m: ExecutorView<F>, task: usize, other: usize, fut: F)
    requires
        m.wf(),
        m.running(task),
    ensures
        m.turn() matches Turn::Resume { waker, .. } ==> waker.task != task,
        m.wake(other).running(task),
        m.spawn(fut).running(task),
        m.after_turn().running(task),
{
}

/// A wake-up for a task whose slot is empty, because the task is running or
/// has completed, is spurious: the turn that takes it resumes nothing and
/// changes no task.
pub proof fn lemma_duplicate_wake_is_spurious<F>(m: ExecutorView<F>)
    requires
        !m.closed,
        m.queue.len() > 0,
        !m.parked(m.queue[0]),
    ensures
        m.turn() == (Turn::<F>::Spurious { task: m.queue[0] }),
        m.after_turn().tasks == m.tasks,
{
}

/// The run ends only when the queue is empty and every producer is gone,
/// or when the consumer was closed.
pub proof fn lemma_run_ends_without_producers<F>(m: ExecutorView<F>)
    ensures
        m.turn() is Closed <==> m.closed || (m.queue.len() == 0 && m.producers() == 0),
{
}

/// No task is dropped while its slot holds a computation. As long as a
/// task is parked and the consumer is there, the run is not over; and the
/// task stays parked, whatever is sent, spawned or settled for another
/// task, until a turn hands it out.
pub proof fn lemma_parked_task_is_kept<F>(
    m: ExecutorView<F>,
    task: usize,
    other: usize,
    waking: usize,
    fut: F,
    pending: bool,
)
    requires
        m.wf(),
        m.parked(task),
        other != task,
    ensures
        !m.closed ==> !(m.turn() is Closed),
        m.wake(waking).parked(task),
        m.spawn(fut).parked(task),
        m.settle(other, fut, pending).parked(task),
        m.settle(task, fut, pending) == m,
        m.after_turn().parked(task) || (m.turn() matches Turn::Resume { waker, .. } && waker.task
            == task),
{
    assert(m.tasks.dom().contains(task));
    assert(m.tasks.dom().len() > 0);
}

/// A task that completes is destroyed: settling its resume with a result
/// takes its record out of the arena, and nothing else is touched. Settling
/// with "still suspended" parks it again.
pub proof fn lemma_settled_with_result_is_completed<F>(m: ExecutorView<F>, task: usize, fut: F)
    requires
        m.wf(),
        m.running(task),
    ensures
        m.settle(task, fut, false).completed(task),
        m.settle(task, fut, false).tasks == m.tasks.remove(task),
        m.settle(task, fut, false).tasks.len() == m.tasks.len() - 1,
        m.settle(task, fut, true).parked(task),
{
}

/// No task is resumed after it has completed, and its number is never
/// given to another task. Whatever is sent, spawned, resumed or settled,
/// a task that has completed stays completed, and no turn hands it out.
pub proof fn lemma_completed_task_stays_completed<F>(
    m: ExecutorView<F>,
    task: usize,
    any: usize,
    fut: F,
    pending: bool,
)
    requires
        m.wf(),
        m.completed(task),
    ensures
        !(m.turn() matches Turn::Resume { waker, .. } && waker.task == task),
        m.wake(any).completed(task),
        m.spawn(fut).completed(task),
        m.after_turn().completed(task),
        m.settle(any, fut, pending).completed(task),
{
}

/// Every task gets a number of its own: a spawn that is accepted hands out
/// the next number, which no task in the arena has and no completed task
/// had.
pub proof fn lemma_numbers_are_not_reused<F>(m: ExecutorView<F>, fut: F)
    requires
        m.wf(),
        m.next < usize::MAX,
        m.refusal() is None,
    ensures
        !m.tasks.contains_key(m.next as usize),
        !m.completed(m.next as usize),
        m.spawn(fut).parked(m.next as usize),
        m.spawn(fut).next == m.next + 1,
        forall|task: usize|
            task != m.next ==> m.spawn(fut).tasks.contains_key(task) == m.tasks.contains_key(task),
{
}

/// The state after `n` turns with nothing sent in between.
pub open spec fn after_turns<F>(m: ExecutorView<F>, n: nat) -> ExecutorView<F>
    decreases n,
{
    if n == 0 {
        m
    } else {
        after_turns(m, (n - 1) as nat).after_turn()
    }
}

/// Every handle in the queue gets its turn. With the consumer there, the
/// handle at place `k` of the queue is at the front after `k` turns, and
/// the turn after that takes it: if its task is still parked then, that
/// turn resumes the task.
pub proof fn lemma_queued_handle_gets_its_turn<F>(m: ExecutorView<F>, k: nat)
    requires
        !m.closed,
        k < m.queue.len(),
    ensures
        !after_turns(m, k).closed,
        after_turns(m, k).queue == m.queue.skip(k as int),
        after_turns(m, k).queue.len() > 0,
        after_turns(m, k).queue[0] == m.queue[k as int],
        after_turns(m, k).parked(m.queue[k as int]) ==> (after_turns(m, k).turn() matches Turn::Resume {
            waker,
            ..
        } && waker.task == m.queue[k as int]),
    decreases k,
{
    if k > 0 {
        lemma_queued_handle_gets_its_turn(m, (k - 1) as nat);
        let before = after_turns(m, (k - 1) as nat);
        assert(before.queue.skip(1) =~= m.queue.skip(k as int));
    } else {
        assert(m.queue.skip(0) =~= m.queue);
    }
}

} // verus!
