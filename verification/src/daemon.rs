use vstd::prelude::*;

use crate::errors::DaemonError;
use crate::text::{contains_marker, contains_substr};

verus! {

/// Outcome of an attempt to spawn the supervised binary, reported by the
/// shell that performed it.
pub enum SpawnResult {
    /// The child was spawned and has this process identifier.
    Spawned(u32),
    /// The spawn failed; no process handle exists.
    SpawnFailed,
}

/// Outcome of one non-blocking query of the child's exit status, reported by
/// the shell that performed it.
pub enum PollResult {
    /// The child has not exited yet.
    StillRunning,
    /// The child has exited; the handle is retained but reports not-alive.
    HasExited,
    /// The status could not be obtained; this must not be read as alive.
    PollFailed,
}

/// Outcome of a one-shot recovery invocation of the supervised binary.
pub enum RecoverOutcome {
    /// The invocation ran to completion; the payload is its exit success.
    Ran(bool),
    /// The invocation could not be run at all.
    LaunchFailed,
}

/// The retained handle of the supervised child: its process identifier and
/// the liveness last observed for it.
#[derive(Clone, Copy)]
pub struct ChildRecord {
    pub pid: u32,
    pub running: bool,
}

/// The supervision state of the single long-running child process: at most
/// one handle, the output captured from it, and the pool of hosts used to
/// judge network reachability.
pub struct Daemon {
    /// The supervised child, while a handle is retained.
    pub child: Option<ChildRecord>,
    /// The most recent spawn attempt failed.
    pub spawn_failed: bool,
    /// Captured standard output of the child.
    pub stdout_log: String,
    /// Captured standard error of the child.
    pub stderr_log: String,
    /// The pool of endpoints probed for reachability. Never empty.
    pub hosts_alive: Vec<String>,
}

/// Classification of the captured standard output into network health:
/// a send-failure marker outweighs a connect-failure marker; with neither
/// marker present the output is healthy.
pub open spec fn spec_network_error(out: Seq<char>) -> Result<(), DaemonError> {
    if contains_marker(out, "NETWORK_SEND_ERROR"@) {
        Err(DaemonError::NetworkSendError)
    } else if contains_marker(out, "CONNECT ERROR"@) {
        Err(DaemonError::NetworkConnectError)
    } else {
        Ok(())
    }
}

impl Daemon {
    /// A child handle exists and was last observed alive.
    pub open spec fn spec_alive(&self) -> bool {
        match self.child {
            Some(c) => c.running,
            None => false,
        }
    }

    /// The process identifier, available exactly while the child is alive.
    pub open spec fn spec_pid(&self) -> Option<u32> {
        match self.child {
            Some(c) => if c.running {
                Some(c.pid)
            } else {
                None
            },
            None => None,
        }
    }

    /// Well-formedness: the host pool is never empty.
    pub open spec fn wf(&self) -> bool {
        self.hosts_alive@.len() > 0
    }

    /// A fresh supervisor: no child, no recorded spawn error, empty capture
    /// buffers, and the default pool of four well-known endpoints.
    pub fn new() -> (d: Daemon)
        ensures
            d.child is None,
            !d.spawn_failed,
            d.stdout_log@.len() == 0,
            d.stderr_log@.len() == 0,
            d.hosts_alive@.len() == 4,
            d.hosts_alive@[0]@ == "8.8.8.8"@,
            d.hosts_alive@[1]@ == "8.8.6.6"@,
            d.hosts_alive@[2]@ == "1.1.1.1"@,
            d.hosts_alive@[3]@ == "1.0.0.1"@,
            d.wf(),
    {
        let mut hosts: Vec<String> = Vec::new();
        hosts.push("8.8.8.8".to_owned());
        hosts.push("8.8.6.6".to_owned());
        hosts.push("1.1.1.1".to_owned());
        hosts.push("1.0.0.1".to_owned());
        Daemon {
            child: None,
            spawn_failed: false,
            stdout_log: String::new(),
            stderr_log: String::new(),
            hosts_alive: hosts,
        }
    }

    /// Record the outcome of a spawn attempt. A successful spawn installs a
    /// running handle and clears any recorded spawn error; a failed spawn
    /// records the error and guarantees no handle is retained. Either way the
    /// capture buffers start over with the new child's streams.
    pub fn execute(&mut self, spawn: SpawnResult)
        ensures
            match spawn {
                SpawnResult::Spawned(pid) => final(self).child == Some(
                    ChildRecord { pid, running: true },
                ) && !final(self).spawn_failed,
                SpawnResult::SpawnFailed => final(self).child is None
                    && final(self).spawn_failed,
            },
            final(self).stdout_log@.len() == 0,
            final(self).stderr_log@.len() == 0,
            final(self).hosts_alive == old(self).hosts_alive,
    {
        match spawn {
            SpawnResult::Spawned(pid) => {
                self.child = Some(ChildRecord { pid, running: true });
                self.spawn_failed = false;
            }
            SpawnResult::SpawnFailed => {
                self.child = None;
                self.spawn_failed = true;
            }
        }
        self.stdout_log = String::new();
        self.stderr_log = String::new();
    }

    /// Record one non-blocking liveness query. Without a handle the child is
    /// not alive and nothing was polled. With a handle, the poll outcome is
    /// recorded: a failed poll reports an error, is never treated as alive,
    /// and leaves no process identifier obtainable until a later poll
    /// succeeds. The handle of an exited or unaccountable child is retained,
    /// but reports not-alive from here on.
    pub fn is_alive(&mut self, poll: PollResult) -> (r: Result<bool, DaemonError>)
        ensures
            old(self).child is None ==> r == Ok::<bool, DaemonError>(false) && final(self).child
                is None,
            old(self).child matches Some(c) ==> match poll {
                PollResult::StillRunning => r == Ok::<bool, DaemonError>(true) && final(self).child
                    == Some(ChildRecord { pid: c.pid, running: true }),
                PollResult::HasExited => r == Ok::<bool, DaemonError>(false) && final(self).child
                    == Some(ChildRecord { pid: c.pid, running: false }),
                PollResult::PollFailed => r == Err::<bool, DaemonError>(DaemonError::NoStatus)
                    && final(self).child == Some(ChildRecord { pid: c.pid, running: false }),
            },
            r == Ok::<bool, DaemonError>(true) <==> final(self).spec_alive(),
            r is Err ==> final(self).spec_pid() is None,
            final(self).spawn_failed == old(self).spawn_failed,
            final(self).stdout_log == old(self).stdout_log,
            final(self).stderr_log == old(self).stderr_log,
            final(self).hosts_alive == old(self).hosts_alive,
    {
        match self.child {
            None => Ok(false),
            Some(c) => match poll {
                PollResult::StillRunning => {
                    self.child = Some(ChildRecord { pid: c.pid, running: true });
                    Ok(true)
                }
                PollResult::HasExited => {
                    self.child = Some(ChildRecord { pid: c.pid, running: false });
                    Ok(false)
                }
                PollResult::PollFailed => {
                    self.child = Some(ChildRecord { pid: c.pid, running: false });
                    Err(DaemonError::NoStatus)
                }
            },
        }
    }

    /// The child's process identifier, exactly while it is alive. Used to
    /// detect "is there something to interrupt".
    pub fn get_pid(&self) -> (r: Option<u32>)
        ensures
            r == self.spec_pid(),
            r is Some <==> self.spec_alive(),
    {
        match &self.child {
            Some(c) => if c.running {
                Some(c.pid)
            } else {
                None
            },
            None => None,
        }
    }

    /// A handle is retained (alive or exited).
    pub fn has_child(&self) -> (r: bool)
        ensures
            r == (self.child is Some),
    {
        self.child.is_some()
    }

    /// Record the outcome of a graceful termination: the shell delivers the
    /// termination signal and waits for exit. Without a handle this is a
    /// no-op and no error. With a handle, a delivered signal clears the
    /// handle; an undelivered one is a recoverable error and the handle is
    /// kept, so the caller may retry.
    pub fn interrupt(&mut self, delivered: bool) -> (r: Result<(), DaemonError>)
        ensures
            old(self).child is None ==> r == Ok::<(), DaemonError>(())
                && *final(self) == *old(self),
            old(self).child is Some && delivered ==> r == Ok::<(), DaemonError>(())
                && final(self).child is None,
            old(self).child is Some && !delivered ==> r == Err::<(), DaemonError>(
                DaemonError::CannotSignal,
            ) && *final(self) == *old(self),
            final(self).spawn_failed == old(self).spawn_failed,
            final(self).stdout_log == old(self).stdout_log,
            final(self).stderr_log == old(self).stderr_log,
            final(self).hosts_alive == old(self).hosts_alive,
    {
        match &self.child {
            None => Ok(()),
            Some(_) => {
                if delivered {
                    self.child = None;
                    Ok(())
                } else {
                    Err(DaemonError::CannotSignal)
                }
            }
        }
    }

    /// Record the outcome of a forceful termination. On success the handle is
    /// cleared, so the child subsequently reports not-alive and no process
    /// identifier. On failure the handle is left intact and the caller may
    /// retry. Without a handle this is a no-op.
    pub fn kill(&mut self, delivered: bool)
        ensures
            old(self).child is None ==> *final(self) == *old(self),
            old(self).child is Some && delivered ==> final(self).child is None
                && !final(self).spec_alive() && final(self).spec_pid() is None,
            old(self).child is Some && !delivered ==> *final(self) == *old(self),
            final(self).spawn_failed == old(self).spawn_failed,
            final(self).stdout_log == old(self).stdout_log,
            final(self).stderr_log == old(self).stderr_log,
            final(self).hosts_alive == old(self).hosts_alive,
    {
        match &self.child {
            None => {}
            Some(_) => {
                if delivered {
                    self.child = None;
                }
            }
        }
    }

    /// Judge a one-shot recovery invocation. Recovery is only valid while no
    /// child is supervised; otherwise the request is refused. When it is
    /// valid, the reported outcome is passed through: exit success of the
    /// invocation, or the error of failing to run it.
    pub fn recover_network(&self, run: RecoverOutcome) -> (r: Result<bool, DaemonError>)
        ensures
            self.child is Some ==> r == Err::<bool, DaemonError>(DaemonError::ChildFound),
            self.child is None ==> match run {
                RecoverOutcome::Ran(ok) => r == Ok::<bool, DaemonError>(ok),
                RecoverOutcome::LaunchFailed => r == Err::<bool, DaemonError>(
                    DaemonError::CannotRecoverNetwork,
                ),
            },
    {
        if self.child.is_none() {
            match run {
                RecoverOutcome::Ran(ok) => Ok(ok),
                RecoverOutcome::LaunchFailed => Err(DaemonError::CannotRecoverNetwork),
            }
        } else {
            Err(DaemonError::ChildFound)
        }
    }

    /// Replace the captured standard output with the text read so far.
    pub fn record_stdout(&mut self, text: String)
        ensures
            final(self).stdout_log == text,
            final(self).child == old(self).child,
            final(self).spawn_failed == old(self).spawn_failed,
            final(self).stderr_log == old(self).stderr_log,
            final(self).hosts_alive == old(self).hosts_alive,
    {
        self.stdout_log = text;
    }

    /// Replace the captured standard error with the text read so far.
    pub fn record_stderr(&mut self, text: String)
        ensures
            final(self).stderr_log == text,
            final(self).child == old(self).child,
            final(self).spawn_failed == old(self).spawn_failed,
            final(self).stdout_log == old(self).stdout_log,
            final(self).hosts_alive == old(self).hosts_alive,
    {
        self.stderr_log = text;
    }

    /// The child runs with enough privilege unless its captured standard
    /// error holds the known insufficient-privilege marker.
    pub fn is_root_user(&self) -> (r: bool)
        ensures
            r == !contains_marker(self.stderr_log@, "need to be root"@),
    {
        !contains_substr(self.stderr_log.as_str(), "need to be root")
    }

    /// Classify the captured standard output into network health: the
    /// send-failure marker maps to the send-error kind, else the
    /// connect-failure marker maps to the connect-error kind, else success.
    pub fn has_network_error(&self) -> (r: Result<(), DaemonError>)
        ensures
            r == spec_network_error(self.stdout_log@),
    {
        if contains_substr(self.stdout_log.as_str(), "NETWORK_SEND_ERROR") {
            Err(DaemonError::NetworkSendError)
        } else if contains_substr(self.stdout_log.as_str(), "CONNECT ERROR") {
            Err(DaemonError::NetworkConnectError)
        } else {
            Ok(())
        }
    }

    /// The previous run ended ungracefully and needs explicit network
    /// recovery: the captured standard output holds the ungraceful-exit
    /// marker.
    pub fn has_recover_error(&self) -> (r: bool)
        ensures
            r == contains_marker(self.stdout_log@, "not exit gracefully"@),
    {
        contains_substr(self.stdout_log.as_str(), "not exit gracefully")
    }

    /// Replace the host pool wholesale. The pool must stay non-empty.
    pub fn set_hosts_alive(&mut self, hosts: Vec<String>)
        requires
            hosts@.len() > 0,
        ensures
            final(self).hosts_alive == hosts,
            final(self).wf(),
            final(self).child == old(self).child,
            final(self).spawn_failed == old(self).spawn_failed,
            final(self).stdout_log == old(self).stdout_log,
            final(self).stderr_log == old(self).stderr_log,
    {
        self.hosts_alive = hosts;
    }
}

/// A process identifier is obtainable exactly when the recorded liveness
/// reports alive: `get_pid` returns a value if and only if `is_alive` would
/// report alive of the same state.
pub proof fn lemma_pid_iff_alive(d: Daemon)
    ensures
        d.spec_pid() is Some <==> d.spec_alive(),
{
}

/// Once the handle is cleared (as a successful kill or interrupt leaves it),
/// the supervisor reports not-alive and no process identifier.
pub proof fn lemma_cleared_child_reports_dead(d: Daemon)
    requires
        d.child is None,
    ensures
        !d.spec_alive(),
        d.spec_pid() is None,
{
}

} // verus!
