//! Supervision of a single long-lived core service child process.
//!
//! The library holds the decisions: the lifecycle state machine of the
//! supervised child and the classification of health-check answers. The host
//! performs the process and network work and hands the outcomes in as plain
//! values.
pub mod error;
pub mod probe;
pub mod supervisor;
