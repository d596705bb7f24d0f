use vstd::prelude::*;

verus! {

/// Why the service answered but could not be used.
#[derive(Debug, Clone, PartialEq, Eq)]
pub enum ProtocolFault {
    /// The service answered with a non-success HTTP status code.
    Status(u16),
    /// The service answered with a body that is not JSON.
    Decode(String),
}

/// Every failure that a supervisor operation reports to its caller.
#[derive(Debug, Clone, PartialEq, Eq)]
pub enum SupervisorError {
    /// The launch target (or another required file) does not exist.
    MissingArtifact,
    /// The operating system could not create the child process.
    SpawnError(String),
    /// The operating system could not kill or reap the child process.
    TerminateError(String),
    /// The health endpoint could not be reached (refused, DNS, timeout).
    TransportError(String),
    /// The health endpoint answered, but not usably.
    ProtocolError(ProtocolFault),
}

} // verus!
