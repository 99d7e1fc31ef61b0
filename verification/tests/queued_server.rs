use std::collections::{HashMap, HashSet};
use umcg::error::ServerError;
use umcg::queued::executor::{Executor, ExecutorConfig, WorkerOrder};
use umcg::queued::metrics::ContextSwitchMetrics;
use umcg::queued::queues::{TaskHandle, TaskQueue, TaskStats, WorkerQueues};
use umcg::queued::server::{switch_error, Progress, Reply, Request, Server};
use umcg::queued::table::{ready_count, WorkerTable};
use umcg::status::WorkerStatus;
use umcg::task_run::TaskRun;
use umcg::umcg::{worker_id, UmcgEventType};

const OK: Reply = Reply { ret: 0, errno: 0, first: 0, second: 0 };
const FAILED: Reply = Reply { ret: -1, errno: 3, first: 0, second: 0 };

fn event(tid: i32, kind: UmcgEventType) -> u64 {
    worker_id(tid) | kind.code()
}

fn server_with(workers: &[(i32, WorkerStatus)]) -> Server {
    let mut states = HashMap::new();
    let mut channels = HashSet::new();
    for (tid, status) in workers {
        states.insert(worker_id(*tid), *status);
        channels.insert(worker_id(*tid));
    }
    Server::new(0, states, channels, false)
}

fn status(server: &Server, tid: i32) -> WorkerStatus {
    server.get_worker_state(worker_id(tid)).unwrap()
}

#[test]
fn queues_are_bounded_and_in_order() {
    let mut queues = WorkerQueues::new(2);
    assert_eq!(queues.lengths(), (0, 0));
    assert_eq!(queues.pop_pending(), None);
    assert!(queues.push_pending(128));
    assert!(queues.push_pending(160));
    assert!(!queues.push_pending(192));
    assert!(queues.push_running(224));
    assert_eq!(queues.lengths(), (2, 1));
    assert_eq!(queues.pop_pending(), Some(128));
    assert!(queues.push_pending(256));
    assert_eq!(queues.pop_pending(), Some(160));
    assert_eq!(queues.pop_pending(), Some(256));
    assert_eq!(queues.pop_running(), Some(224));
    assert_eq!(queues.pop_running(), None);
}

#[test]
fn tasks_are_counted_even_if_dropped() {
    let mut handle = TaskHandle { task_queue: TaskQueue::new(2), task_stats: TaskStats::new() };
    assert!(!handle.task_stats.all_tasks_completed());
    assert!(!handle.task_queue.has_pending_tasks());
    assert_eq!(handle.submit(1), None);
    assert_eq!(handle.submit(2), None);
    assert_eq!(handle.submit(3), Some(3));
    assert!(handle.task_queue.has_pending_tasks());
    assert_eq!(handle.task_stats.get_completion_stats(), (0, 3));
    assert_eq!(handle.task_queue.remove_task(), Some(1));
    assert_eq!(handle.task_queue.add_task(4), Ok(()));
    assert_eq!(handle.task_queue.add_task(5), Err(5));
    assert_eq!(handle.task_queue.remove_task(), Some(2));
    assert_eq!(handle.task_queue.remove_task(), Some(4));
    assert_eq!(handle.task_queue.remove_task(), None);
    handle.task_stats.mark_completed();
    handle.task_stats.mark_completed();
    assert!(!handle.task_stats.all_tasks_completed());
    handle.task_stats.mark_completed();
    assert!(handle.task_stats.all_tasks_completed());
}

#[test]
fn shared_task_is_run_once_and_then_counted() {
    let mut handle = TaskHandle { task_queue: TaskQueue::new(2), task_stats: TaskStats::new() };
    handle.submit(9);
    let mut run = TaskRun::new(9);
    assert_eq!(handle.advance(&mut run), Some(9));
    assert_eq!(handle.task_stats.get_completion_stats(), (0, 1));
    assert_eq!(handle.advance(&mut run), None);
    assert_eq!(handle.advance(&mut run), None);
    assert_eq!(handle.task_stats.get_completion_stats(), (1, 1));
    assert_eq!(handle.task_queue.remove_task(), Some(9));
}

fn float_timeout(success: u64, timeouts: u64, current: u64) -> u64 {
    let rate = success as f64 / (success + timeouts) as f64;
    let wanted = if rate > 0.95 {
        (current as f64 * 0.9) as u64
    } else if rate < 0.8 {
        (current as f64 * 1.2) as u64
    } else {
        current
    };
    wanted.clamp(200, 10_000)
}

#[test]
fn time_limit_agrees_with_floating_point() {
    let extremes = [50_000, u64::MAX / 9, u64::MAX / 6, u64::MAX - 1, u64::MAX];
    for current in (0..=20_000u64).chain(extremes) {
        for (success, timeouts) in [(100, 0), (95, 5), (96, 4), (80, 20), (79, 21), (0, 1)] {
            let mut metrics = ContextSwitchMetrics {
                success_count: success,
                timeout_count: timeouts,
                total_time: 0,
                last_timeout: current,
            };
            let next = metrics.update_timeout();
            assert_eq!(next, float_timeout(success, timeouts, current));
            assert_eq!(metrics.last_timeout, next);
        }
    }
    for success in 0..=1000u64 {
        for timeouts in 0..=60u64 {
            if success + timeouts > 0 {
                let mut metrics = ContextSwitchMetrics {
                    success_count: success,
                    timeout_count: timeouts,
                    total_time: 0,
                    last_timeout: 1000,
                };
                assert_eq!(metrics.update_timeout(), float_timeout(success, timeouts, 1000));
            }
        }
    }
    for total in [2_251_799_813_685_248u64, 2_251_799_813_685_247, 2_251_799_813_685_240] {
        for tenths in [80, 95] {
            for offset in 0..3u64 {
                let success = total / 100 * tenths + offset;
                let mut metrics = ContextSwitchMetrics {
                    success_count: success,
                    timeout_count: total - success,
                    total_time: 0,
                    last_timeout: 1000,
                };
                assert_eq!(
                    metrics.update_timeout(),
                    float_timeout(success, total - success, 1000)
                );
            }
        }
    }
}

#[test]
fn time_limit_is_bounded_for_any_counts() {
    for (success, timeouts) in [(u64::MAX, 0), (0, u64::MAX), (1 << 63, (1 << 63) - 1)] {
        for current in [0, 199, 5000, u64::MAX] {
            let mut metrics = ContextSwitchMetrics {
                success_count: success,
                timeout_count: timeouts,
                total_time: 3,
                last_timeout: current,
            };
            let next = metrics.update_timeout();
            assert!((200..=10_000).contains(&next));
            assert_eq!(
                metrics,
                ContextSwitchMetrics {
                    success_count: success,
                    timeout_count: timeouts,
                    total_time: 3,
                    last_timeout: next,
                }
            );
        }
    }
}

#[test]
fn time_limit_starts_at_the_default() {
    let mut metrics = ContextSwitchMetrics::new();
    assert_eq!(metrics.update_timeout(), 1000);
    metrics.success_count = 1;
    assert_eq!(metrics.update_timeout(), 900);
    assert_eq!(metrics.update_timeout(), 810);
    metrics.timeout_count = 1;
    assert_eq!(metrics.update_timeout(), 972);
}

#[test]
fn table_is_copied() {
    let mut table = WorkerTable::new();
    table.enlist(128);
    table.enlist(160);
    let (states, channels) = table.snapshot();
    table.enlist(192);
    assert_eq!(states.len(), 2);
    assert_eq!(states.get(&128), Some(&WorkerStatus::Initializing));
    assert_eq!(states.get(&160), Some(&WorkerStatus::Initializing));
    assert!(channels.contains(&128) && channels.contains(&160) && channels.len() == 2);
    assert_eq!(ready_count(&states), 0);
}

#[test]
fn executor_orders_workers() {
    assert_eq!(
        ExecutorConfig::default(),
        ExecutorConfig { worker_count: 3, server_count: 1 }
    );
    let mut executor = Executor::new(ExecutorConfig::default());
    assert_eq!(
        executor.initialize_workers(2, 2),
        vec![WorkerOrder { id: 0, cpu_id: 2 }, WorkerOrder { id: 1, cpu_id: 2 }]
    );
    assert_eq!(executor.initialize_workers(0, 1).len(), 1);
    assert_eq!(executor.started.len(), 3);
    let mut table = WorkerTable::new();
    table.enlist(128);
    let (states, channels) = table.snapshot();
    let server = executor.initialize_server_and_setup_workers(6, states, channels, false);
    assert_eq!(server.id, 6);
    assert_eq!(server.get_worker_state(128), Some(WorkerStatus::Initializing));
}

#[test]
fn workers_are_found_by_either_number() {
    let server = server_with(&[(5, WorkerStatus::Waiting), (32, WorkerStatus::Blocked)]);
    assert_eq!(server.get_worker_state(160), Some(WorkerStatus::Waiting));
    assert_eq!(server.get_worker_state(5), Some(WorkerStatus::Waiting));
    assert_eq!(server.get_worker_state(1024), Some(WorkerStatus::Blocked));
    assert_eq!(server.get_worker_state(32), None);
    assert_eq!(server.raw_tid_to_worker_id(5), 160);
    assert_eq!(server.worker_id_to_raw_tid(160), 5);
    assert_eq!(server.ready_count(), 1);
}

#[test]
fn block_then_wake_resumes() {
    let mut server = server_with(&[(4, WorkerStatus::Running)]);
    let mut queues = WorkerQueues::new(4);
    queues.push_running(worker_id(4));
    assert_eq!(
        server.handle_event(&mut queues, event(4, UmcgEventType::Block)),
        Progress::Finished(Ok(()))
    );
    assert_eq!(status(&server, 4), WorkerStatus::Blocked);
    assert_eq!(
        server.handle_event(&mut queues, event(4, UmcgEventType::Wake)),
        Progress::Needs(Request::Switch { tid: 4 })
    );
    assert_eq!(status(&server, 4), WorkerStatus::Running);
    assert_eq!(server.resume(&mut queues, FAILED), Progress::Finished(Ok(())));
    assert_eq!(status(&server, 4), WorkerStatus::Blocked);
    assert_eq!(queues.lengths(), (0, 1));
    assert_eq!(
        server.take_failures(),
        vec![ServerError::ContextSwitchFailed { worker_id: 128, ret_code: -1, errno: 3 }]
    );
}

#[test]
fn waiting_worker_lines_up() {
    let mut server = server_with(&[(4, WorkerStatus::Running), (5, WorkerStatus::Waiting)]);
    let mut queues = WorkerQueues::new(4);
    queues.push_running(worker_id(9));
    queues.push_running(worker_id(4));
    server.handle_event(&mut queues, event(4, UmcgEventType::Wait));
    assert_eq!(status(&server, 4), WorkerStatus::Waiting);
    assert_eq!(queues.pop_pending(), Some(worker_id(4)));
    assert_eq!(queues.pop_running(), Some(worker_id(4)));
    server.handle_event(&mut queues, event(5, UmcgEventType::Wait));
    assert_eq!(queues.lengths(), (0, 0));
}

#[test]
fn other_events_are_refused_or_ignored() {
    let mut server = server_with(&[(4, WorkerStatus::Running)]);
    let mut queues = WorkerQueues::new(4);
    let word = event(4, UmcgEventType::Exit);
    assert_eq!(
        server.handle_event(&mut queues, word),
        Progress::Finished(Err(ServerError::InvalidWorkerEvent { worker_id: 128, event: word }))
    );
    for kind in [UmcgEventType::Block, UmcgEventType::Wake, UmcgEventType::Wait] {
        assert_eq!(
            server.handle_event(&mut queues, event(7, kind)),
            Progress::Finished(Ok(()))
        );
    }
    assert_eq!(status(&server, 4), WorkerStatus::Running);
    assert_eq!(queues.lengths(), (0, 0));
}

#[test]
fn longest_ready_worker_gets_the_first_task() {
    let mut server = server_with(&[(4, WorkerStatus::Waiting), (5, WorkerStatus::Waiting)]);
    let mut queues = WorkerQueues::new(4);
    let mut tasks = TaskQueue::new(4);
    queues.push_pending(worker_id(5));
    queues.push_pending(worker_id(4));
    tasks.add_task(70).unwrap();
    tasks.add_task(71).unwrap();
    assert_eq!(
        server.try_schedule_tasks(&mut queues, &mut tasks),
        Progress::Needs(Request::Send { worker_id: worker_id(5), task: 70 })
    );
    assert_eq!(status(&server, 5), WorkerStatus::Waiting);
    assert_eq!(
        server.resume(&mut queues, OK),
        Progress::Needs(Request::Switch { tid: 5 })
    );
    assert_eq!(status(&server, 5), WorkerStatus::Running);
    let reply = Reply { first: event(5, UmcgEventType::Wait), ..OK };
    assert_eq!(server.resume(&mut queues, reply), Progress::Finished(Ok(())));
    assert_eq!(status(&server, 5), WorkerStatus::Waiting);
    assert_eq!(queues.lengths(), (2, 0));
    assert_eq!(queues.pop_pending(), Some(worker_id(4)));
    assert_eq!(tasks.remove_task(), Some(71));
}

#[test]
fn worker_without_a_task_goes_to_the_end() {
    let mut server = server_with(&[(4, WorkerStatus::Waiting), (5, WorkerStatus::Blocked)]);
    let mut queues = WorkerQueues::new(4);
    let mut tasks = TaskQueue::new(4);
    queues.push_pending(worker_id(4));
    queues.push_pending(worker_id(5));
    server.try_schedule_tasks(&mut queues, &mut tasks);
    tasks.add_task(70).unwrap();
    server.try_schedule_tasks(&mut queues, &mut tasks);
    assert_eq!(queues.pop_pending(), Some(worker_id(4)));
    assert_eq!(queues.pop_pending(), Some(worker_id(5)));
    assert_eq!(tasks.remove_task(), Some(70));
}

#[test]
fn unsent_task_is_lost_with_its_worker() {
    let mut server = server_with(&[(4, WorkerStatus::Waiting)]);
    let mut queues = WorkerQueues::new(4);
    let mut tasks = TaskQueue::new(4);
    queues.push_pending(worker_id(4));
    tasks.add_task(70).unwrap();
    server.try_schedule_tasks(&mut queues, &mut tasks);
    assert_eq!(server.resume(&mut queues, FAILED), Progress::Finished(Ok(())));
    assert_eq!(status(&server, 4), WorkerStatus::Waiting);
    assert_eq!(queues.lengths(), (0, 0));
    assert!(!tasks.has_pending_tasks());

    let mut server = server_with(&[(4, WorkerStatus::Waiting)]);
    server.channels.clear();
    queues.push_pending(worker_id(4));
    tasks.add_task(70).unwrap();
    assert_eq!(
        server.try_schedule_tasks(&mut queues, &mut tasks),
        Progress::Finished(Ok(()))
    );
    assert_eq!(queues.lengths(), (0, 0));
    assert!(!tasks.has_pending_tasks());
}

#[test]
fn no_room_among_the_running() {
    let mut server = server_with(&[(4, WorkerStatus::Waiting)]);
    let mut queues = WorkerQueues::new(1);
    let mut tasks = TaskQueue::new(4);
    queues.push_pending(worker_id(4));
    queues.push_running(worker_id(9));
    tasks.add_task(70).unwrap();
    server.try_schedule_tasks(&mut queues, &mut tasks);
    assert_eq!(server.resume(&mut queues, OK), Progress::Finished(Ok(())));
    assert_eq!(status(&server, 4), WorkerStatus::Waiting);
    assert_eq!(queues.pop_pending(), Some(worker_id(4)));
    assert_eq!(queues.pop_running(), Some(worker_id(9)));
}

#[test]
fn failed_switch_is_undone() {
    for others in [vec![], vec![9], vec![9, 4, 8], vec![8, 9, 10]] {
        let mut server = server_with(&[(4, WorkerStatus::Waiting)]);
        let mut queues = WorkerQueues::new(4);
        let mut tasks = TaskQueue::new(4);
        queues.push_pending(worker_id(4));
        for tid in &others {
            queues.push_running(worker_id(*tid));
        }
        tasks.add_task(70).unwrap();
        server.try_schedule_tasks(&mut queues, &mut tasks);
        server.resume(&mut queues, OK);
        assert_eq!(queues.lengths(), (0, others.len() + 1));
        assert_eq!(server.resume(&mut queues, FAILED), Progress::Finished(Ok(())));
        assert_eq!(status(&server, 4), WorkerStatus::Waiting);
        assert_eq!(queues.pop_pending(), Some(worker_id(4)));
        for tid in &others {
            assert_eq!(queues.pop_running(), Some(worker_id(*tid)));
        }
        assert_eq!(queues.pop_running(), None);
        assert_eq!(
            server.take_failures(),
            vec![ServerError::ContextSwitchFailed { worker_id: 128, ret_code: -1, errno: 3 }]
        );
        assert!(server.take_failures().is_empty());
    }
}

#[test]
fn worker_is_taken_back_from_its_last_place() {
    let mut queues = WorkerQueues::new(5);
    for id in [1, 2, 1, 3] {
        queues.push_running(id);
    }
    queues.take_back_running(1);
    queues.take_back_running(7);
    assert_eq!(queues.pop_running(), Some(1));
    assert_eq!(queues.pop_running(), Some(2));
    assert_eq!(queues.pop_running(), Some(3));
    assert_eq!(queues.pop_running(), None);
    assert_eq!(
        switch_error(160, Reply { ret: -7, errno: 11, first: 0, second: 0 }),
        ServerError::ContextSwitchFailed { worker_id: 160, ret_code: -7, errno: 11 }
    );
}

#[test]
fn bad_event_of_a_switch_undoes_it() {
    let mut server = server_with(&[(4, WorkerStatus::Waiting)]);
    let mut queues = WorkerQueues::new(4);
    let mut tasks = TaskQueue::new(4);
    queues.push_pending(worker_id(4));
    tasks.add_task(70).unwrap();
    server.try_schedule_tasks(&mut queues, &mut tasks);
    server.resume(&mut queues, OK);
    let word = event(4, UmcgEventType::Preempt);
    let reply = Reply { first: word, ..OK };
    assert_eq!(server.resume(&mut queues, reply), Progress::Finished(Ok(())));
    assert_eq!(status(&server, 4), WorkerStatus::Waiting);
    assert_eq!(queues.lengths(), (1, 0));
    assert_eq!(
        server.take_failures(),
        vec![ServerError::InvalidWorkerEvent { worker_id: 128, event: word }]
    );
}

#[test]
fn shutdown_tells_all_workers() {
    let mut server = server_with(&[(4, WorkerStatus::Waiting), (5, WorkerStatus::Blocked)]);
    let mut ids = server.shutdown();
    ids.sort();
    assert_eq!(ids, vec![128, 160]);
    assert!(server.done);
    let mut server = server_with(&[]);
    server.tell_done();
    assert!(server.done);
}
