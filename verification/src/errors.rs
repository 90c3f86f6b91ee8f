use vstd::prelude::*;

verus! {

/// Errors reported by the supervision engine. All of them are recoverable at
/// the control-loop level: each one drives a respawn or retry decision.
#[derive(Debug, PartialEq, Eq, Clone, Copy)]
pub enum DaemonError {
    /// The child's exit status could not be queried.
    NoStatus,
    /// Network recovery was requested while a child is still supervised.
    ChildFound,
    /// The graceful-termination signal could not be delivered.
    CannotSignal,
    /// The one-shot recovery invocation failed to run at all.
    CannotRecoverNetwork,
    /// Every probe of the host pool failed.
    NetworkUnreachable,
    /// The captured output reports a network send failure.
    NetworkSendError,
    /// The captured output reports a network connect failure.
    NetworkConnectError,
}

/// The description of an error, for the log sink.
pub open spec fn spec_message(e: DaemonError) -> Seq<char> {
    match e {
        DaemonError::NoStatus => "cannot query child status"@,
        DaemonError::ChildFound => "a child is still supervised"@,
        DaemonError::CannotSignal => "cannot deliver termination signal"@,
        DaemonError::CannotRecoverNetwork => "cannot run network recovery"@,
        DaemonError::NetworkUnreachable => "network unreachable"@,
        DaemonError::NetworkSendError => "network send error"@,
        DaemonError::NetworkConnectError => "network connect error"@,
    }
}

impl DaemonError {
    /// A short description of the error, for the log sink.
    pub fn message(&self) -> (m: &'static str)
        ensures
            m@ == spec_message(*self),
    {
        match *self {
            DaemonError::NoStatus => "cannot query child status",
            DaemonError::ChildFound => "a child is still supervised",
            DaemonError::CannotSignal => "cannot deliver termination signal",
            DaemonError::CannotRecoverNetwork => "cannot run network recovery",
            DaemonError::NetworkUnreachable => "network unreachable",
            DaemonError::NetworkSendError => "network send error",
            DaemonError::NetworkConnectError => "network connect error",
        }
    }
}

} // verus!
