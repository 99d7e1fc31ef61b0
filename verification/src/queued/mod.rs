//! A design in which all servers share their queues of workers and their queue of tasks, and in
//! which a worker is known by the worker id under which it registered.

pub mod arrival;
pub mod executor;
pub mod laws;
pub mod life_laws;
pub mod metrics;
pub mod queues;
pub mod run;
pub mod server;
pub mod switch_laws;
pub mod table;
pub mod worker;
