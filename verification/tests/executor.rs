use async_echo_server::executor::{
    new_executor_and_spawner, Executor, Poll, SendError, Spawner, Turn, Waker, QUEUE_BOUND,
};

fn resumed(executor: &mut Executor<&'static str>) -> (Waker, &'static str) {
    match executor.run() {
        Turn::Resume { waker, future } => (waker, future),
        Turn::Spurious { task } => panic!("spurious wake-up of {}", task),
        Turn::Idle => panic!("idle"),
        Turn::Closed => panic!("closed"),
    }
}

fn is_idle(turn: Turn<&'static str>) -> bool {
    matches!(turn, Turn::Idle)
}

fn is_closed(turn: Turn<&'static str>) -> bool {
    matches!(turn, Turn::Closed)
}

fn fresh() -> (Executor<&'static str>, Spawner) {
    new_executor_and_spawner()
}

#[test]
fn a_new_executor_is_empty_and_bounded() {
    let (executor, _spawner) = fresh();
    assert_eq!(QUEUE_BOUND, 10000);
    assert_eq!(executor.bound(), 10000);
    assert_eq!(executor.queued(), 0);
    assert_eq!(executor.spawned(), 0);
    assert_eq!(executor.live(), 0);
}

#[test]
fn spawned_tasks_are_resumed_first_in_first_out() {
    let (mut executor, spawner) = fresh();
    assert_eq!(spawner.spawn(&mut executor, "a"), Ok(Waker { task: 0 }));
    assert_eq!(spawner.spawn(&mut executor, "b"), Ok(Waker { task: 1 }));
    assert_eq!(spawner.spawn(&mut executor, "c"), Ok(Waker { task: 2 }));
    assert_eq!(executor.queued(), 3);
    assert_eq!(executor.live(), 3);
    assert_eq!(resumed(&mut executor), (Waker { task: 0 }, "a"));
    assert_eq!(resumed(&mut executor), (Waker { task: 1 }, "b"));
    assert_eq!(resumed(&mut executor), (Waker { task: 2 }, "c"));
    assert_eq!(executor.queued(), 0);
}

#[test]
fn a_suspended_task_goes_back_into_its_slot_and_waits_for_a_wake_up() {
    let (mut executor, spawner) = fresh();
    spawner.spawn(&mut executor, "a").unwrap();
    let (waker, future) = resumed(&mut executor);
    executor.settle(waker.task, future, &Poll::<()>::Pending);
    assert!(is_idle(executor.run()));
    assert_eq!(executor.live(), 1);

    assert_eq!(executor.wake(&waker), Ok(()));
    assert_eq!(executor.queued(), 1);
    assert_eq!(resumed(&mut executor), (waker, "a"));
}

#[test]
fn a_completed_task_is_dropped_and_never_resumed_again() {
    let (mut executor, spawner) = fresh();
    spawner.spawn(&mut executor, "a").unwrap();
    let (waker, future) = resumed(&mut executor);
    executor.settle(waker.task, future, &Poll::Ready(()));
    assert_eq!(executor.live(), 0);
    assert_eq!(executor.spawned(), 1);

    executor.wake(&waker).unwrap();
    assert!(matches!(executor.run(), Turn::Spurious { task: 0 }));
    assert!(is_idle(executor.run()));
}

#[test]
fn a_duplicate_wake_up_is_ignored() {
    let (mut executor, spawner) = fresh();
    let waker = spawner.spawn(&mut executor, "a").unwrap();
    executor.wake(&waker).unwrap();
    executor.wake(&waker).unwrap();
    assert_eq!(executor.queued(), 3);
    let (_, future) = resumed(&mut executor);
    // the task is running: the handles still queued find its slot empty
    assert!(matches!(executor.run(), Turn::Spurious { task: 0 }));
    assert!(matches!(executor.run(), Turn::Spurious { task: 0 }));
    executor.settle(waker.task, future, &Poll::<()>::Pending);
    assert!(is_idle(executor.run()));
    assert_eq!(executor.live(), 1);
}

#[test]
fn a_wake_up_for_a_task_that_never_was_is_ignored() {
    let (mut executor, _spawner) = fresh();
    executor.wake(&Waker { task: 7 }).unwrap();
    assert!(matches!(executor.run(), Turn::Spurious { task: 7 }));
}

#[test]
fn settling_a_task_that_is_not_running_changes_nothing() {
    let (mut executor, spawner) = fresh();
    let waker = spawner.spawn(&mut executor, "a").unwrap();
    executor.settle(waker.task, "b", &Poll::Ready(()));
    executor.settle(9, "c", &Poll::<()>::Pending);
    assert_eq!(executor.live(), 1);
    assert_eq!(resumed(&mut executor), (waker, "a"));
}

#[test]
fn the_run_ends_when_queue_and_producers_are_gone() {
    let (mut executor, spawner) = fresh();
    assert!(is_idle(executor.run()));
    spawner.spawn(&mut executor, "a").unwrap();
    executor.drop_spawner(spawner);
    let (waker, future) = resumed(&mut executor);
    // the task itself can still send
    executor.settle(waker.task, future, &Poll::<()>::Pending);
    assert!(is_idle(executor.run()));
    executor.wake(&waker).unwrap();
    let (waker, future) = resumed(&mut executor);
    executor.settle(waker.task, future, &Poll::Ready(()));
    assert!(is_closed(executor.run()));
}

#[test]
fn a_second_spawner_keeps_the_run_going() {
    let (mut executor, spawner) = fresh();
    assert_eq!(executor.spawners(), 1);
    let second = executor.add_spawner();
    assert_eq!(executor.spawners(), 2);
    executor.drop_spawner(spawner);
    assert!(is_idle(executor.run()));
    executor.drop_spawner(second);
    assert!(is_closed(executor.run()));
}

#[test]
fn a_full_queue_refuses_and_hands_the_computation_back() {
    let (mut executor, spawner) = fresh();
    let first = spawner.spawn(&mut executor, "first").unwrap();
    for _ in 1..QUEUE_BOUND {
        assert_eq!(executor.wake(&first), Ok(()));
    }
    assert_eq!(executor.queued(), QUEUE_BOUND);
    assert_eq!(executor.wake(&first), Err(SendError::Full));
    assert_eq!(executor.try_wake(&first), Err(SendError::Full));
    assert_eq!(spawner.spawn(&mut executor, "late"), Err((SendError::Full, "late")));
    assert_eq!(spawner.try_spawn(&mut executor, "late"), Err((SendError::Full, "late")));
    assert_eq!(executor.queued(), QUEUE_BOUND);
    assert_eq!(executor.spawned(), 1);

    resumed(&mut executor);
    assert_eq!(spawner.spawn(&mut executor, "late"), Ok(Waker { task: 1 }));
    assert_eq!(executor.queued(), QUEUE_BOUND);
}

#[test]
fn a_closed_consumer_refuses_everything() {
    let (mut executor, spawner) = fresh();
    let waker = spawner.spawn(&mut executor, "a").unwrap();
    assert!(!executor.is_closed());
    assert_eq!(executor.try_wake(&waker), Ok(()));
    assert_eq!(spawner.try_spawn(&mut executor, "b"), Ok(Waker { task: 1 }));
    executor.close();
    assert!(executor.is_closed());
    assert_eq!(executor.try_wake(&waker), Err(SendError::Closed));
    assert_eq!(spawner.try_spawn(&mut executor, "c"), Err((SendError::Closed, "c")));
    assert!(is_closed(executor.run()));
    assert_eq!(executor.queued(), 3);
    assert_eq!(executor.spawned(), 2);
}

#[test]
fn a_completed_task_leaves_the_arena_and_its_number_is_not_reused() {
    let (mut executor, spawner) = fresh();
    let first = spawner.spawn(&mut executor, "a").unwrap();
    let (waker, future) = resumed(&mut executor);
    assert_eq!(executor.live(), 1);
    executor.settle(waker.task, future, &Poll::Ready(()));
    assert_eq!(executor.live(), 0);
    assert_eq!(executor.spawned(), 1);

    let second = spawner.spawn(&mut executor, "b").unwrap();
    assert_ne!(first, second);
    assert_eq!(second, Waker { task: 1 });
    assert_eq!(executor.live(), 1);
    assert_eq!(executor.spawned(), 2);
    // a handle of the task that is gone wakes nothing, not even the new task
    executor.wake(&first).unwrap();
    assert_eq!(resumed(&mut executor), (second, "b"));
    assert!(matches!(executor.run(), Turn::Spurious { task: 0 }));
    assert_eq!(executor.live(), 1);
}

#[test]
fn many_tasks_come_and_go_without_the_arena_growing() {
    let (mut executor, spawner) = fresh();
    for round in 0..1000 {
        let waker = spawner.spawn(&mut executor, "x").unwrap();
        assert_eq!(waker, Waker { task: round });
        let (waker, future) = resumed(&mut executor);
        executor.settle(waker.task, future, &Poll::Ready(()));
        assert_eq!(executor.live(), 0);
    }
    assert_eq!(executor.spawned(), 1000);
}
