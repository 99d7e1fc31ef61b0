use umcg::pooled::executor::{Executor, ExecutorConfig};
use umcg::pooled::pool::{Assignment, Worker, WorkerPool, WorkerState};
use umcg::pooled::task::{Task, TaskEntry, TaskQueue, TaskState};
use umcg::status::WorkerStatus;
use umcg::task_run::{RunStep, TaskRun};
use umcg::task_stats::TaskStats;

fn preempted(id: u128) -> TaskEntry {
    TaskEntry {
        id,
        state: TaskState::Running {
            worker_tid: 4,
            start_time: 9,
            preempted: true,
            blocked: false,
            state: WorkerStatus::Running,
        },
        priority: 0,
        enqueue_time: 1,
    }
}

#[test]
fn names_are_random_uuids() {
    let a = TaskEntry::new(7, 100);
    let b = TaskEntry::new(7, 100);
    assert_ne!(a.id, b.id);
    assert_eq!((a.id >> 76) & 15, 4);
    assert_eq!((a.id >> 62) & 3, 2);
    assert_eq!(a.state, TaskState::Pending(7));
    assert_eq!(a.priority, 0);
    assert_eq!(a.enqueue_time, 100);
}

#[test]
fn tasks_come_out_in_order() {
    let mut queue = TaskQueue::new();
    assert_eq!(queue.get_next_task(), None);
    for id in 1..4u128 {
        queue.enqueue(TaskEntry::with_id(id, id as u64 * 10, 0));
    }
    for id in 1..4u128 {
        assert_eq!(queue.get_next_task(), Some(TaskEntry::with_id(id, id as u64 * 10, 0)));
    }
    assert_eq!(queue.get_next_task(), None);
}

#[test]
fn preempted_tasks_go_first() {
    let mut queue = TaskQueue::new();
    queue.enqueue(TaskEntry::with_id(1, 10, 0));
    queue.enqueue(preempted(2));
    assert!(preempted(2).is_resumable());
    assert!(!TaskEntry::with_id(1, 10, 0).is_resumable());
    assert_eq!(queue.get_next_task(), Some(preempted(2)));
    assert_eq!(queue.get_next_task(), Some(TaskEntry::with_id(1, 10, 0)));
}

#[test]
fn completed_and_running_tasks_are_not_handed_out() {
    let mut queue = TaskQueue::new();
    queue.enqueue(TaskEntry {
        state: TaskState::Completed,
        ..TaskEntry::with_id(1, 10, 0)
    });
    let mut running = preempted(3);
    if let TaskState::Running { ref mut preempted, .. } = running.state {
        *preempted = false;
    }
    queue.enqueue(running);
    queue.mark_in_progress(3, 5, 77);
    queue.remove_finished(3);
    assert_eq!(queue.get_next_task(), None);
}

#[test]
fn full_queue_loses_tasks() {
    let mut queue = TaskQueue::new();
    for id in 0..1025u128 {
        queue.enqueue(TaskEntry::with_id(id, 1, 0));
    }
    let mut count = 0;
    let mut last = None;
    while let Some(task) = queue.get_next_task() {
        count += 1;
        last = Some(task.id);
    }
    assert_eq!(count, 1024);
    assert_eq!(last, Some(1023));
}

#[test]
fn assignment_takes_the_function_out() {
    let worker = Worker::new(0, 0, 4);
    let task = TaskEntry::with_id(9, 33, 5);
    match worker.assign_task(task) {
        Assignment::Send { function, spent } => {
            assert_eq!(function, 33);
            assert_eq!(spent, TaskEntry { state: TaskState::Completed, ..task });
        }
        Assignment::Nothing => panic!("nothing to send"),
    }
    assert_eq!(worker.assign_task(preempted(2)), Assignment::Nothing);
    let state = WorkerState::new(4, 1);
    assert_eq!(state.tid, 4);
    assert_eq!(state.status, WorkerStatus::Waiting);
    assert_eq!(state.current_task, None);
}

#[test]
fn pool_keeps_statuses() {
    let mut pool = WorkerPool::new(3);
    assert_eq!(pool.len(), 0);
    assert_eq!(pool.get_available_worker(), None);
    pool.add_worker(Worker::new(0, 0, 4));
    pool.add_worker(Worker::new(1, 0, 5));
    assert_eq!(pool.len(), 2);
    assert_eq!(pool.get_worker_state(4), Some((WorkerStatus::Initializing, None)));
    pool.update_worker_status(5, WorkerStatus::Waiting, None);
    assert_eq!(pool.get_available_worker().map(|w| w.tid), Some(5));
    pool.update_worker_status(5, WorkerStatus::Running, Some(8));
    pool.update_worker_status_keep_task(5, WorkerStatus::Blocked);
    assert_eq!(pool.get_worker_state(5), Some((WorkerStatus::Blocked, Some(8))));
    pool.update_worker_status(6, WorkerStatus::Waiting, None);
    assert_eq!(pool.get_worker_state(6), None);
    let mut tids = pool.tids();
    tids.sort();
    assert_eq!(tids, vec![4, 5]);
    assert_eq!(pool.get(4).map(|w| w.id), Some(0));
}

#[test]
fn statistics_count_tasks() {
    let mut stats = TaskStats::new();
    assert!(!stats.all_tasks_completed());
    stats.register_task(1);
    stats.register_task(2);
    stats.mark_completed(1);
    stats.mark_completed(1);
    stats.mark_completed(3);
    assert_eq!(stats.get_completion_stats(), (1, 2));
    assert!(!stats.all_tasks_completed());
    stats.mark_completed(2);
    assert!(stats.all_tasks_completed());
    stats.register_task(2);
    assert_eq!(stats.get_completion_stats(), (2, 3));
    assert!(!stats.all_tasks_completed());
}

#[test]
fn executor_has_its_servers() {
    let default = ExecutorConfig::default();
    assert_eq!(
        default,
        ExecutorConfig { server_count: 1, worker_count: 3, start_cpu: 0 }
    );
    let executor = Executor::new(ExecutorConfig { server_count: 3, worker_count: 2, start_cpu: 5 });
    assert_eq!(executor.servers.len(), 3);
    for (index, server) in executor.servers.iter().enumerate() {
        assert_eq!(server.id, index);
        assert_eq!(server.cpu_id, 5 + index);
        assert_eq!(server.worker_pool.total_workers, 2);
        assert_eq!(server.worker_pool.len(), 0);
        assert!(!server.done);
    }
}

#[test]
fn submissions_take_turns() {
    let mut executor =
        Executor::new(ExecutorConfig { server_count: 3, worker_count: 2, start_cpu: 0 });
    for n in 0..7u128 {
        executor.submit_as(n as u64, 100 + n, 200 + n, 50);
    }
    assert_eq!(executor.get_completion_stats(), (0, 7));
    for (index, expected) in [vec![200, 203, 206], vec![201, 204], vec![202, 205]]
        .iter()
        .enumerate()
    {
        let mut got: Vec<u128> = Vec::new();
        while let Some(task) = executor.servers[index].task_queue.get_next_task() {
            got.push(task.id);
        }
        assert_eq!(&got, expected);
    }
    for n in 0..7u128 {
        assert!(!executor.all_tasks_completed());
        executor.task_stats.mark_completed(100 + n);
    }
    assert!(executor.all_tasks_completed());
    let id = executor.submit(9, 60);
    assert_eq!((id >> 76) & 15, 4);
    assert!(!executor.all_tasks_completed());
    let next = executor.servers[1].task_queue.get_next_task();
    assert_eq!(next.map(|task| task.state), Some(TaskState::Pending(9)));
}

#[test]
fn shutdown_reaches_every_server() {
    let mut executor =
        Executor::new(ExecutorConfig { server_count: 2, worker_count: 1, start_cpu: 0 });
    executor.shutdown();
    assert!(executor.servers.iter().all(|server| server.done));
}

#[test]
fn server_takes_in_tasks() {
    let mut executor = Executor::new(ExecutorConfig::default());
    let server = &mut executor.servers[0];
    server.add_task(Task::Function(5), 11);
    let task = server.task_queue.get_next_task().unwrap();
    assert_eq!(task.state, TaskState::Pending(5));
    assert_eq!(task.enqueue_time, 11);
    assert!(!server.done);
    server.add_task(Task::Shutdown, 12);
    assert!(server.done);
}

#[test]
fn as_many_tasks_as_fit_are_spread() {
    for count in [0u128, 1, 4, 2047, 2048] {
        let mut executor =
            Executor::new(ExecutorConfig { server_count: 2, worker_count: 1, start_cpu: 0 });
        for n in 0..count {
            executor.submit_as(n as u64, n, n, 0);
        }
        assert_eq!(executor.get_completion_stats(), (0, count as usize));
        for j in 0..2u128 {
            let mut next = j;
            let mut got = 0;
            while let Some(task) = executor.servers[j as usize].task_queue.get_next_task() {
                assert_eq!(task.id, next);
                next += 2;
                got += 1;
            }
            assert_eq!(got, count / 2 + if j < count % 2 { 1 } else { 0 });
        }
    }
}

#[test]
fn task_is_run_once_and_then_counted() {
    let mut executor = Executor::new(ExecutorConfig::default());
    executor.submit_as(33, 7, 8, 0);
    assert_eq!(executor.get_completion_stats(), (0, 1));
    let mut run = TaskRun::new(33);
    assert_eq!(executor.advance(&mut run, 7), Some(33));
    assert_eq!(executor.get_completion_stats(), (0, 1));
    for _ in 0..3 {
        assert_eq!(executor.advance(&mut run, 7), None);
        assert_eq!(executor.get_completion_stats(), (1, 1));
    }
    let mut bare = TaskRun::new(5);
    assert_eq!(bare.step(), RunStep::Call { function: 5 });
    assert_eq!(bare.step(), RunStep::Mark);
    assert_eq!(bare.step(), RunStep::Stop);
    assert_eq!(bare.step(), RunStep::Stop);
}
