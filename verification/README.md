# umcg

Scheduling logic for user-managed concurrency groups: a server thread learns from the kernel when
one of its worker threads blocks, wakes up, waits or exits, and decides which worker runs next.

`src/` is the verified library. It makes no system call: each part is a state machine that says
what is to be done next and is told what came of it.

- `umcg`, `wait`, `error`, `status`, `text`, `ident`: event words and control calls, waiting,
  errors and their messages, and names for tasks.
- `bounded`: bounded queues, on top of `crossbeam_queue::ArrayQueue`.
- `task_stats`, `task_run`: which tasks were handed in and which are done, and how one is run.
- `pooled`: servers that each have their own workers and tasks, and the executor that spreads tasks
  over them in turn.
- `queued`: servers that share their queues of workers and their queue of tasks.
- `conformance`: scripts of control calls, with what each of them has to return.
- `showcase`, `demo`, `perf`, `echo`, `sysinfo`: the course of the demonstrations and of the
  measurements, the decisions of a small HTTP server, and the reading of process information.

Contracts are stated over spec functions that give the next state as a function of the last one and
of what was reported. The laws that relate them are public proof functions whose names begin with
`law_`.

`app/` is the program around the library: system calls, threads, sockets and printing. `tests/`
runs the library on concrete values.
