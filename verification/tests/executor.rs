use rosthern::priority_queue::PriorityQueue;
use rosthern::tasks::Task;
use std::sync::atomic::{AtomicUsize, Ordering};

fn noop() {}

fn expect_refusal<F: Fn() + Copy>(result: Result<Task<F>, &'static str>, message: &str) {
    match result {
        Err(got) => assert_eq!(got, message),
        Ok(_) => panic!("the executor should have refused"),
    }
}

#[test]
fn task_accessors_round_trip() {
    let mut task = Task::new(5, noop as fn());
    assert_eq!(task.get_priority(), 5);
    assert!(!task.is_recurring());
    task.set_recurring(true);
    assert!(task.is_recurring());
    assert_eq!(task.get_priority(), 5);
    task.set_recurring(false);
    assert!(!task.is_recurring());
    (task.get_function())();
}

#[test]
fn execute_runs_tasks_by_descending_priority() {
    let mut queue = PriorityQueue::new();
    queue.add_to_queue(Task::new(1, noop as fn()));
    queue.add_to_queue(Task::new(5, noop as fn()));
    queue.add_to_queue(Task::new(3, noop as fn()));
    let mut order = Vec::new();
    while let Ok(task) = queue.execute() {
        order.push(task.get_priority());
    }
    assert_eq!(order, vec![5, 3, 1]);
}

#[test]
fn equal_priorities_keep_arrival_order() {
    let log = AtomicUsize::new(0);
    let log_ref = &log;
    let make = |tag: usize| {
        move || {
            log_ref.store(log_ref.load(Ordering::SeqCst) * 10 + tag, Ordering::SeqCst);
        }
    };
    let mut queue = PriorityQueue::new();
    queue.add_to_queue(Task::new(2, make(1)));
    queue.add_to_queue(Task::new(7, make(2)));
    queue.add_to_queue(Task::new(2, make(3)));
    queue.add_to_queue(Task::new(2, make(4)));
    while queue.execute().is_ok() {}
    assert_eq!(log.load(Ordering::SeqCst), 2134);
}

#[test]
fn execute_on_empty_queue_refuses() {
    let mut queue: PriorityQueue<fn()> = PriorityQueue::new();
    expect_refusal(queue.execute(), "No tasks in queue");
}

#[test]
fn negative_priority_is_never_executed() {
    let calls = AtomicUsize::new(0);
    let calls_ref = &calls;
    let bump = move || {
        calls_ref.fetch_add(1, Ordering::SeqCst);
    };
    let mut queue = PriorityQueue::new();
    queue.add_to_queue(Task::new(-1, bump));
    expect_refusal(queue.execute(), "Tasks with a negative priority are never executed");
    // refusal leaves the task queued
    expect_refusal(queue.execute(), "Tasks with a negative priority are never executed");
    assert_eq!(calls.load(Ordering::SeqCst), 0);
}

#[test]
fn sanitize_sweeps_out_negative_priorities() {
    let mut queue = PriorityQueue::new();
    queue.add_to_queue(Task::new(4, noop as fn()));
    queue.add_to_queue(Task::new(-2, noop as fn()));
    queue.add_to_queue(Task::new(0, noop as fn()));
    queue.add_to_queue(Task::new(-7, noop as fn()));
    queue.sanitize();
    let mut order = Vec::new();
    while let Ok(task) = queue.execute() {
        order.push(task.get_priority());
    }
    assert_eq!(order, vec![4, 0]);
    expect_refusal(queue.execute(), "No tasks in queue");
}

#[test]
fn one_shot_task_leaves_after_running() {
    let calls = AtomicUsize::new(0);
    let calls_ref = &calls;
    let bump = move || {
        calls_ref.fetch_add(1, Ordering::SeqCst);
    };
    let mut queue = PriorityQueue::new();
    queue.add_to_queue(Task::new(2, bump));
    let ran = queue.execute().expect("one queued task");
    assert_eq!(ran.get_priority(), 2);
    assert!(!ran.is_recurring());
    assert_eq!(calls.load(Ordering::SeqCst), 1);
    expect_refusal(queue.execute(), "No tasks in queue");
}

#[test]
fn recurring_task_stays_queued() {
    let calls = AtomicUsize::new(0);
    let calls_ref = &calls;
    let bump = move || {
        calls_ref.fetch_add(1, Ordering::SeqCst);
    };
    let mut queue = PriorityQueue::new_recurring();
    queue.add_recurring_task(Task::new(3, bump));
    for _ in 0..3 {
        let ran = queue.execute().expect("recurring task stays");
        assert!(ran.is_recurring());
        assert_eq!(ran.get_priority(), 3);
    }
    assert_eq!(calls.load(Ordering::SeqCst), 3);
}

#[test]
fn clear_empties_the_queue() {
    let mut queue = PriorityQueue::new();
    queue.add_to_queue(Task::new(1, noop as fn()));
    queue.add_to_queue(Task::new(2, noop as fn()));
    queue.clear();
    expect_refusal(queue.execute(), "No tasks in queue");
}
