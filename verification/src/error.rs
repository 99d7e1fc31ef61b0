//! What can go wrong in a server.

use crate::text::{decimal, push_decimal, push_signed, signed_decimal};
use vstd::prelude::*;

verus! {

/// Why a server stopped, or refused an event.
#[allow(inconsistent_fields)]
#[derive(Debug, Copy, Clone, PartialEq, Eq, Structural)]
pub enum ServerError {
    /// The kernel refused the server; its return value.
    RegistrationFailed(i32),
    /// A worker did not report in time.
    WorkerRegistrationTimeout { worker_id: usize },
    /// Waiting for a worker to report failed.
    WorkerRegistrationFailed { worker_id: usize, error: i32 },
    /// An event of a kind that the server does not handle.
    InvalidWorkerEvent { worker_id: usize, event: u64 },
    /// A system call failed; the error number it left.
    SystemError(i32),
    /// The switch to a worker failed.
    ContextSwitchFailed { worker_id: u64, ret_code: i32, errno: i32 },
}

/// The text of an error, where `system_text` describes the operating system's error.
pub open spec fn message_of(error: ServerError, system_text: Seq<char>) -> Seq<char> {
    match error {
        ServerError::RegistrationFailed(ret) => "Server registration failed: "@
            + crate::text::signed_decimal(ret as int),
        ServerError::WorkerRegistrationTimeout { worker_id } => "Worker "@ + crate::text::decimal(
            worker_id as nat,
        ) + " registration timed out"@,
        ServerError::WorkerRegistrationFailed { worker_id, error } => "Worker "@
            + crate::text::decimal(worker_id as nat) + " registration failed: "@
            + crate::text::signed_decimal(error as int),
        ServerError::InvalidWorkerEvent { worker_id, event } => "Invalid event "@
            + crate::text::decimal(event as nat) + " from worker "@ + crate::text::decimal(
            worker_id as nat,
        ),
        ServerError::SystemError(_) => "System error: "@ + system_text,
        ServerError::ContextSwitchFailed { worker_id, ret_code, errno } =>
            "Context switch failed: "@ + crate::text::signed_decimal(ret_code as int)
            + " (errno: "@ + crate::text::signed_decimal(errno as int) + ")"@,
    }
}

impl ServerError {
    /// The text of this error. `system_text` is what the operating system says of the error
    /// number that a `SystemError` holds; no other error shows it.
    pub fn message(&self, system_text: &str) -> (r: String)
        ensures
            r@ == message_of(*self, system_text@),
    {
        match self {
            ServerError::RegistrationFailed(ret) => {
                let mut s = String::from_str("Server registration failed: ");
                push_signed(&mut s, *ret);
                s
            },
            ServerError::WorkerRegistrationTimeout { worker_id } => {
                let mut s = String::from_str("Worker ");
                push_decimal(&mut s, *worker_id as u64);
                s.append(" registration timed out");
                s
            },
            ServerError::WorkerRegistrationFailed { worker_id, error } => {
                let mut s = String::from_str("Worker ");
                push_decimal(&mut s, *worker_id as u64);
                s.append(" registration failed: ");
                push_signed(&mut s, *error);
                s
            },
            ServerError::InvalidWorkerEvent { worker_id, event } => {
                let mut s = String::from_str("Invalid event ");
                push_decimal(&mut s, *event);
                s.append(" from worker ");
                push_decimal(&mut s, *worker_id as u64);
                s
            },
            ServerError::SystemError(_) => {
                let mut s = String::from_str("System error: ");
                s.append(system_text);
                s
            },
            ServerError::ContextSwitchFailed { worker_id, ret_code, errno } => {
                let mut s = String::from_str("Context switch failed: ");
                push_signed(&mut s, *ret_code);
                s.append(" (errno: ");
                push_signed(&mut s, *errno);
                s.append(")");
                s
            },
        }
    }
}

/// What the text of each error says: first what went wrong, and in it the numbers that belong to
/// it, those with a sign where they may be negative. Only the error of a system call shows what the
/// system says.
pub proof fn law_messages(
    number: i32,
    errno: i32,
    worker: usize,
    worker_id: u64,
    event: u64,
    system_text: Seq<char>,
)
    ensures
        message_of(ServerError::RegistrationFailed(number), system_text)
            == "Server registration failed: "@ + signed_decimal(number as int),
        message_of(
            ServerError::WorkerRegistrationTimeout { worker_id: worker },
            system_text,
        ) == "Worker "@ + decimal(worker as nat) + " registration timed out"@,
        message_of(
            ServerError::WorkerRegistrationFailed { worker_id: worker, error: number },
            system_text,
        ) == "Worker "@ + decimal(worker as nat) + " registration failed: "@ + signed_decimal(
            number as int,
        ),
        message_of(
            ServerError::InvalidWorkerEvent { worker_id: worker, event },
            system_text,
        ) == "Invalid event "@ + decimal(event as nat) + " from worker "@ + decimal(
            worker as nat,
        ),
        message_of(ServerError::SystemError(number), system_text) == "System error: "@
            + system_text,
        message_of(
            ServerError::ContextSwitchFailed { worker_id, ret_code: number, errno },
            system_text,
        ) == "Context switch failed: "@ + signed_decimal(number as int) + " (errno: "@
            + signed_decimal(errno as int) + ")"@,
{
}

} // verus!
