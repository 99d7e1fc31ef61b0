//! Servers that each own a pool of workers and a queue of tasks.

pub mod executor;
pub mod laws;
pub mod life_laws;
pub mod pool;
pub mod run;
pub mod server;
pub mod staff;
pub mod switch_laws;
pub mod task;
pub mod worker_thread;
