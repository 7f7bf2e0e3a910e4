//! Lifecycle of the one supervised worker process.
//!
//! The shell spawns exactly one worker at startup and must send it at most
//! one termination signal over the whole application lifetime. The state
//! machine is `NotStarted -> Running -> Stopped`: a successful spawn moves to
//! `Running`, a failed spawn leaves `NotStarted` terminal for the session,
//! and the first close event moves `Running` to `Stopped` while reporting
//! that the signal must be sent now. No transition leaves `Stopped`.

use vstd::prelude::*;

use crate::launch::{backend_script_path, launcher_command, spec_launcher_command,
    spec_script_path};
use crate::platform::HostOs;

verus! {

/// Lifecycle state of the supervised worker's child handle.
#[derive(Clone, Copy, Debug, PartialEq, Eq, Structural)]
pub enum ProcessState {
    /// No spawn has succeeded; no handle is held.
    NotStarted,
    /// The spawn succeeded and the handle is held.
    Running,
    /// The handle was taken and the termination signal sent.
    Stopped,
}

/// State after the single spawn attempt reports its outcome: success moves to
/// `Running`, failure leaves the state unchanged.
pub open spec fn spec_spawn(s: ProcessState, spawned: bool) -> ProcessState {
    if spawned {
        ProcessState::Running
    } else {
        s
    }
}

/// State after one close event, and whether a termination signal goes out:
/// only a `Running` worker is signaled, and it is then `Stopped`.
pub open spec fn spec_stop(s: ProcessState) -> (ProcessState, bool) {
    match s {
        ProcessState::Running => (ProcessState::Stopped, true),
        _ => (s, false),
    }
}

/// Supervisor of the one worker process: the launch configuration chosen at
/// startup and the lifecycle state of the one child handle.
pub struct Supervisor {
    /// Launcher command name chosen for the host operating system.
    pub command: &'static str,
    /// Script path chosen by the build configuration.
    pub script_path: &'static str,
    /// Lifecycle state of the child handle.
    pub state: ProcessState,
}

impl Supervisor {
    /// True while a child handle is held, i.e. a termination signal is owed.
    pub open spec fn handle_present(self) -> bool {
        self.state is Running
    }

    /// Build the supervisor at application startup: no handle is held yet,
    /// and the launch configuration is fixed once from the host operating
    /// system and the build flavor.
    pub fn new(os: HostOs, debug_build: bool) -> (r: Supervisor)
        ensures
            r.state is NotStarted,
            !r.handle_present(),
            r.command@ == spec_launcher_command(os),
            r.script_path@ == spec_script_path(debug_build),
    {
        Supervisor {
            command: launcher_command(os),
            script_path: backend_script_path(debug_build),
            state: ProcessState::NotStarted,
        }
    }

    /// True while the single spawn attempt has not yet been recorded; callers
    /// use this to honor `record_spawn`'s precondition.
    pub fn not_started(&self) -> (r: bool)
        ensures
            r == (self.state is NotStarted),
    {
        self.state == ProcessState::NotStarted
    }

    /// Record the outcome of the single spawn attempt. The handle is held
    /// afterwards if and only if the spawn succeeded; a failure leaves the
    /// supervisor degraded but intact, with no handle and no retry.
    pub fn record_spawn(&mut self, spawned: bool)
        requires
            old(self).state is NotStarted,
        ensures
            final(self).state == spec_spawn(old(self).state, spawned),
            final(self).handle_present() <==> spawned,
            final(self).command == old(self).command,
            final(self).script_path == old(self).script_path,
    {
        if spawned {
            self.state = ProcessState::Running;
        }
    }

    /// Handle a close event: report whether the termination signal must be
    /// sent now, and give the handle up so that no later event can signal
    /// again. A supervisor that never got a handle, or already gave it up,
    /// treats the event as a no-op.
    pub fn stop(&mut self) -> (signal: bool)
        ensures
            (final(self).state, signal) == spec_stop(old(self).state),
            signal <==> old(self).handle_present(),
            !final(self).handle_present(),
            final(self).command == old(self).command,
            final(self).script_path == old(self).script_path,
    {
        if self.state == ProcessState::Running {
            self.state = ProcessState::Stopped;
            true
        } else {
            false
        }
    }
}

/// The handle is held after startup if and only if the spawn reported
/// success; there is no partially populated outcome.
pub proof fn lemma_spawn_outcome(spawned: bool)
    ensures
        (spec_spawn(ProcessState::NotStarted, spawned) is Running) <==> spawned,
        !spawned ==> spec_spawn(ProcessState::NotStarted, spawned) is NotStarted,
{
}

/// Stop is idempotent: whatever the state, a second close event changes
/// nothing and never sends a second termination signal.
pub proof fn lemma_stop_idempotent(s: ProcessState)
    ensures
        ({
            let (s1, sig1) = spec_stop(s);
            let (s2, sig2) = spec_stop(s1);
            &&& s2 == s1
            &&& !sig2
        }),
{
}

} // verus!
