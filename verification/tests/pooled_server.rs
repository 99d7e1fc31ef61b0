use umcg::error::ServerError;
use umcg::pooled::pool::Worker;
use umcg::pooled::server::{Progress, Reply, Request, Server};
use umcg::pooled::task::Task;
use umcg::status::WorkerStatus;
use umcg::umcg::{worker_id, UmcgEventType};

const OK: Reply = Reply { ret: 0, errno: 0, first: 0, second: 0 };

fn event(tid: i32, kind: UmcgEventType) -> u64 {
    worker_id(tid) | kind.code()
}

fn server_with(workers: &[(i32, WorkerStatus)]) -> Server {
    let mut server = Server::new(0, 0, workers.len());
    for (index, (tid, status)) in workers.iter().enumerate() {
        server.worker_pool.add_worker(Worker::new(index, 0, *tid));
        server.transition_worker_state(*tid, *status, None);
    }
    server
}

fn status(server: &Server, tid: i32) -> (WorkerStatus, Option<u128>) {
    server.worker_pool.get_worker_state(tid).unwrap()
}

#[test]
fn ready_worker_gets_the_first_task() {
    let mut server = server_with(&[(4, WorkerStatus::Waiting), (5, WorkerStatus::Running)]);
    server.add_task_as(Task::Function(70), 1, 0);
    server.add_task_as(Task::Function(71), 2, 0);
    assert_eq!(
        server.try_schedule_tasks(10),
        Progress::Needs(Request::Send { tid: 4, function: 70 })
    );
    assert_eq!(status(&server, 4), (WorkerStatus::Running, Some(1)));
    assert_eq!(server.resume(OK, 11), Progress::Needs(Request::Switch { tid: 4 }));
    assert_eq!(server.resume(OK, 12), Progress::Finished(Ok(())));
    assert_eq!(server.try_schedule_tasks(13), Progress::Finished(Ok(())));
}

#[test]
fn nothing_to_schedule() {
    let mut server = server_with(&[(4, WorkerStatus::Waiting)]);
    assert_eq!(server.try_schedule_tasks(10), Progress::Finished(Ok(())));
    assert_eq!(status(&server, 4), (WorkerStatus::Waiting, None));
    assert_eq!(server.schedule_on(4, 10), Progress::Finished(Ok(())));
}

#[test]
fn blocked_worker_goes_on_with_its_task() {
    let mut server = server_with(&[(4, WorkerStatus::Waiting)]);
    server.transition_worker_state(4, WorkerStatus::Running, Some(9));
    assert_eq!(
        server.handle_umcg_event(event(4, UmcgEventType::Block), 1),
        Progress::Finished(Ok(()))
    );
    assert_eq!(status(&server, 4), (WorkerStatus::Blocked, Some(9)));
    assert_eq!(
        server.handle_umcg_event(event(4, UmcgEventType::Wake), 2),
        Progress::Needs(Request::Switch { tid: 4 })
    );
    assert_eq!(status(&server, 4), (WorkerStatus::Running, Some(9)));
    let failed = Reply { ret: -1, errno: 3, first: 0, second: 0 };
    assert_eq!(server.resume(failed, 3), Progress::Finished(Ok(())));
    assert_eq!(status(&server, 4), (WorkerStatus::Running, Some(9)));
}

#[test]
fn finished_worker_gets_the_next_task() {
    let mut server = server_with(&[(4, WorkerStatus::Waiting)]);
    server.transition_worker_state(4, WorkerStatus::Running, Some(9));
    server.add_task_as(Task::Function(70), 1, 0);
    assert_eq!(
        server.handle_umcg_event(event(4, UmcgEventType::Wake), 2),
        Progress::Needs(Request::Send { tid: 4, function: 70 })
    );
    assert_eq!(status(&server, 4), (WorkerStatus::Running, Some(1)));
    assert_eq!(server.resume(OK, 3), Progress::Needs(Request::Switch { tid: 4 }));
    let failed = Reply { ret: -1, errno: 22, first: 0, second: 0 };
    assert_eq!(server.resume(failed, 4), Progress::Finished(Ok(())));
    assert_eq!(status(&server, 4), (WorkerStatus::Waiting, None));
}

#[test]
fn finished_worker_without_a_task_is_ready() {
    let mut server = server_with(&[(4, WorkerStatus::Running), (5, WorkerStatus::Waiting)]);
    assert_eq!(
        server.handle_umcg_event(event(4, UmcgEventType::Wake), 2),
        Progress::Finished(Ok(()))
    );
    assert_eq!(status(&server, 4), (WorkerStatus::Waiting, None));
    assert_eq!(
        server.handle_umcg_event(event(5, UmcgEventType::Wake), 2),
        Progress::Finished(Ok(()))
    );
    assert_eq!(status(&server, 5), (WorkerStatus::Waiting, None));
}

#[test]
fn waits_and_exits_clear_the_task() {
    let mut server = server_with(&[(4, WorkerStatus::Waiting)]);
    server.transition_worker_state(4, WorkerStatus::Running, Some(9));
    server.handle_umcg_event(event(4, UmcgEventType::Wait), 1);
    assert_eq!(status(&server, 4), (WorkerStatus::Waiting, None));
    server.handle_umcg_event(event(4, UmcgEventType::Exit), 2);
    assert_eq!(status(&server, 4), (WorkerStatus::Completed, None));
}

#[test]
fn unknown_workers_and_kinds() {
    let mut server = server_with(&[(4, WorkerStatus::Waiting)]);
    for kind in [
        UmcgEventType::Block,
        UmcgEventType::Wake,
        UmcgEventType::Wait,
        UmcgEventType::Exit,
    ] {
        assert_eq!(
            server.handle_umcg_event(event(9, kind), 0),
            Progress::Finished(Ok(()))
        );
    }
    assert_eq!(server.worker_pool.len(), 1);
    let word = event(4, UmcgEventType::Timeout);
    assert_eq!(
        server.handle_umcg_event(word, 0),
        Progress::Finished(Err(ServerError::InvalidWorkerEvent { worker_id: 4, event: word }))
    );
    assert_eq!(status(&server, 4), (WorkerStatus::Waiting, None));
}

#[test]
fn unsent_task_is_lost() {
    let mut server = server_with(&[(4, WorkerStatus::Waiting)]);
    server.add_task_as(Task::Function(70), 1, 0);
    server.try_schedule_tasks(10);
    let failed = Reply { ret: -1, errno: 0, first: 0, second: 0 };
    assert_eq!(server.resume(failed, 11), Progress::Finished(Ok(())));
    assert_eq!(status(&server, 4), (WorkerStatus::Waiting, None));
    assert_eq!(server.task_queue.get_next_task(), None);
}

#[test]
fn failed_switch_of_scheduling_is_passed_on() {
    let mut server = server_with(&[(4, WorkerStatus::Waiting)]);
    server.add_task_as(Task::Function(70), 1, 0);
    server.try_schedule_tasks(10);
    server.resume(OK, 11);
    let failed = Reply { ret: -1, errno: 11, first: 0, second: 0 };
    assert_eq!(
        server.resume(failed, 12),
        Progress::Finished(Err(ServerError::SystemError(11)))
    );
    assert_eq!(status(&server, 4), (WorkerStatus::Waiting, None));
}

#[test]
fn events_of_a_switch_nest() {
    let mut server = server_with(&[(4, WorkerStatus::Waiting), (5, WorkerStatus::Blocked)]);
    server.add_task_as(Task::Function(70), 1, 0);
    server.schedule_on(4, 10);
    server.resume(OK, 11);
    let both = Reply {
        ret: 0,
        errno: 0,
        first: event(5, UmcgEventType::Wake),
        second: event(4, UmcgEventType::Block),
    };
    assert_eq!(server.resume(both, 12), Progress::Needs(Request::Switch { tid: 5 }));
    assert_eq!(status(&server, 4), (WorkerStatus::Running, Some(1)));
    assert_eq!(server.calls.len(), 2);
    let inner = Reply { first: event(5, UmcgEventType::Exit), ..OK };
    assert_eq!(server.resume(inner, 13), Progress::Finished(Ok(())));
    assert_eq!(status(&server, 5), (WorkerStatus::Completed, None));
    assert_eq!(status(&server, 4), (WorkerStatus::Blocked, Some(1)));
    assert_eq!(server.calls.len(), 0);
}

#[test]
fn bad_event_of_a_switch_fails_scheduling() {
    let mut server = server_with(&[(4, WorkerStatus::Waiting)]);
    server.add_task_as(Task::Function(70), 1, 0);
    server.try_schedule_tasks(10);
    server.resume(OK, 11);
    let word = event(4, UmcgEventType::Preempt);
    let reply = Reply { first: word, second: event(4, UmcgEventType::Exit), ..OK };
    assert_eq!(
        server.resume(reply, 12),
        Progress::Finished(Err(ServerError::InvalidWorkerEvent { worker_id: 4, event: word }))
    );
    assert_eq!(status(&server, 4), (WorkerStatus::Waiting, None));
}

#[test]
fn shutdown_names_all_workers() {
    let mut server = server_with(&[(4, WorkerStatus::Waiting), (5, WorkerStatus::Blocked)]);
    let mut tids = server.initiate_shutdown();
    tids.sort();
    assert_eq!(tids, vec![4, 5]);
    assert!(server.done);
}
