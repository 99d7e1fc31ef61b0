use std::collections::{HashMap, HashSet};
use umcg::pooled::worker_thread::{Answer, Inbox};
use umcg::queued::queues::{TaskQueue, WorkerQueues};
use umcg::queued::run::{Job, Phase, ServerRun};
use umcg::queued::server::{Reply, Request, Server};
use umcg::queued::worker::{Chore, Worker, WorkerPhase};
use umcg::status::WorkerStatus;
use umcg::umcg::{worker_id, UmcgCall, UmcgCmd, UmcgEventType};

const OK: Reply = Reply { ret: 0, errno: 0, first: 0, second: 0 };

fn event(tid: i32, kind: UmcgEventType) -> u64 {
    worker_id(tid) | kind.code()
}

fn saw(tid: i32, kind: UmcgEventType) -> Reply {
    Reply { first: event(tid, kind), ..OK }
}

struct World {
    run: ServerRun,
    server: Server,
    queues: WorkerQueues,
    tasks: TaskQueue,
}

impl World {
    fn new(tids: &[i32]) -> World {
        let mut states = HashMap::new();
        let mut channels = HashSet::new();
        for tid in tids {
            states.insert(worker_id(*tid), WorkerStatus::Initializing);
            channels.insert(worker_id(*tid));
        }
        World {
            run: ServerRun::new(),
            server: Server::new(3, states, channels, false),
            queues: WorkerQueues::new(8),
            tasks: TaskQueue::new(8),
        }
    }

    fn step(&mut self, reply: Reply) -> Job {
        self.run.step(&mut self.server, &mut self.queues, &mut self.tasks, reply)
    }

    /// Brings the server to the head of its loop, with all its workers ready.
    fn started(tids: &[i32]) -> World {
        let mut world = World::new(tids);
        world.step(OK);
        world.step(OK);
        world.step(OK);
        for tid in tids {
            world.step(saw(*tid, UmcgEventType::Wake));
            world.step(OK);
        }
        assert_eq!(world.run.phase, Phase::Holding);
        assert!(matches!(world.step(OK), Job::Proceed));
        world
    }
}

#[test]
fn all_workers_arrive_before_the_loop() {
    let mut world = World::new(&[4, 5]);
    assert!(matches!(world.step(OK), Job::SetAffinity { cpu_id: 3 }));
    match world.step(Reply { ret: -1, ..OK }) {
        Job::Call(call) => assert_eq!(call, UmcgCall::plain(UmcgCmd::RegisterServer)),
        other => panic!("{:?}", other),
    }
    assert!(matches!(world.step(OK), Job::AwaitWorker));
    assert!(matches!(world.step(Reply { ret: -1, errno: 11, ..OK }), Job::AwaitWorker));
    assert!(matches!(world.step(saw(4, UmcgEventType::Block)), Job::AwaitWorker));
    assert!(matches!(world.step(saw(4, UmcgEventType::Wake)), Job::Switch { tid: 4 }));
    assert!(matches!(world.step(Reply { ret: -1, ..OK }), Job::AwaitWorker));
    assert!(matches!(world.step(saw(4, UmcgEventType::Wake)), Job::Switch { tid: 4 }));
    assert!(matches!(world.step(OK), Job::AwaitWorker));
    assert_eq!(world.server.get_worker_state(128), Some(WorkerStatus::Waiting));
    assert!(matches!(world.step(saw(4, UmcgEventType::Wake)), Job::AwaitWorker));
    assert!(matches!(world.step(saw(9, UmcgEventType::Wake)), Job::Switch { tid: 9 }));
    assert!(matches!(world.step(OK), Job::AwaitWorker));
    assert!(matches!(world.step(saw(5, UmcgEventType::Wake)), Job::Switch { tid: 5 }));
    assert!(matches!(world.step(OK), Job::AwaitRelease));
    assert_eq!(world.queues.pop_pending(), Some(128));
    assert_eq!(world.queues.pop_pending(), Some(160));
    assert_eq!(world.queues.pop_pending(), None);
}

#[test]
fn refused_registration_ends_the_server() {
    let mut world = World::new(&[4]);
    world.step(OK);
    world.step(OK);
    assert!(matches!(
        world.step(Reply { ret: -7, ..OK }),
        Job::Finish { refused: Some(-7) }
    ));
}

#[test]
fn loop_schedules_and_waits() {
    let mut world = World::started(&[4]);
    assert!(matches!(world.step(OK), Job::WaitForEvents));
    assert!(matches!(world.step(OK), Job::Proceed));
    assert!(matches!(world.step(OK), Job::Proceed));
    world.tasks.add_task(70).unwrap();
    assert!(matches!(
        world.step(OK),
        Job::Serve(Request::Send { worker_id: 128, task: 70 })
    ));
    assert!(matches!(world.step(OK), Job::Serve(Request::Switch { tid: 4 })));
    assert!(matches!(world.step(OK), Job::WaitForEvents));
    let both = Reply {
        first: event(4, UmcgEventType::Block),
        second: event(4, UmcgEventType::Wake),
        ..OK
    };
    assert!(matches!(world.step(both), Job::Proceed));
    assert!(matches!(world.step(OK), Job::Proceed));
    assert!(matches!(world.step(OK), Job::Serve(Request::Switch { tid: 4 })));
    assert!(matches!(world.step(saw(4, UmcgEventType::Wait)), Job::Proceed));
    assert_eq!(world.run.phase, Phase::BeforeEvent { first: 0, second: 0 });
    assert_eq!(world.queues.lengths(), (1, 0));
}

#[test]
fn loop_survives_failures() {
    let mut world = World::started(&[4]);
    world.step(OK);
    assert!(matches!(world.step(Reply { ret: -1, errno: libc::EINVAL, ..OK }), Job::Proceed));
    assert_eq!(world.run.phase, Phase::AtHead);
    world.step(OK);
    let late = Reply { ret: -1, errno: libc::ETIMEDOUT, ..saw(4, UmcgEventType::Exit) };
    assert!(matches!(world.step(late), Job::Proceed));
    assert!(matches!(world.step(OK), Job::Report(_)));
    assert!(matches!(world.step(OK), Job::Proceed));
    world.server.shutdown();
    assert!(matches!(world.step(OK), Job::Finish { refused: None }));
}

fn answer(value: i32) -> Answer {
    Answer { value, inbox: Inbox::Empty }
}

#[test]
fn worker_enlists_runs_and_waits() {
    let mut worker = Worker::new(1, 2);
    assert_eq!(worker.step(answer(0)), Chore::AskTid);
    assert_eq!(worker.step(answer(6)), Chore::SetAffinity { cpu_id: 2 });
    assert_eq!(worker.step(answer(-1)), Chore::Enlist { worker_id: 192 });
    match worker.step(answer(0)) {
        Chore::Call(call) => assert_eq!(call.args(0), [0, 1, 0, 192, 0, 0]),
        other => panic!("{:?}", other),
    }
    assert_eq!(worker.step(answer(0)), Chore::Poll);
    let task = Answer { value: 0, inbox: Inbox::Function(8) };
    assert_eq!(worker.step(task), Chore::Run { task: 8 });
    assert_eq!(
        worker.step(answer(0)),
        Chore::Call(UmcgCall::plain(UmcgCmd::Wait))
    );
    assert_eq!(worker.step(answer(0)), Chore::Poll);
    let stop = Answer { value: 0, inbox: Inbox::Shutdown };
    assert_eq!(worker.step(stop), Chore::Call(UmcgCall::plain(UmcgCmd::Unregister)));
    assert_eq!(worker.step(answer(-1)), Chore::Finish { failed: Some(-1) });
    assert_eq!((worker.id, worker.cpu_id, worker.tid), (1, 2, 6));
}

#[test]
fn worker_stops_on_failures() {
    let at = |phase| Worker { id: 0, cpu_id: 0, tid: 6, phase };
    assert_eq!(
        at(WorkerPhase::Registering).step(answer(-1)),
        Chore::Finish { failed: Some(-1) }
    );
    let mut waiting = at(WorkerPhase::Waiting);
    assert_eq!(
        waiting.step(answer(-1)),
        Chore::Call(UmcgCall::plain(UmcgCmd::Unregister))
    );
    assert_eq!(waiting.step(answer(0)), Chore::Finish { failed: None });
    assert_eq!(
        at(WorkerPhase::Polling).step(answer(0)),
        Chore::Call(UmcgCall::plain(UmcgCmd::Wait))
    );
}
