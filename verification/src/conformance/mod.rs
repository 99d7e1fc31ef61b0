//! Checks that a kernel's control call behaves as the library expects: scripts of calls, with what
//! each of them has to return.

pub mod check;
pub mod script;
pub mod suites;
