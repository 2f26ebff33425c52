//! The life of a local sandbox node, from launch to exit.
//!
//! The node is a child process that somebody else spawns, probes and
//! signals. This module decides what that somebody does next: it is handed
//! every event in the life of the process and answers with the next action.
//!
//! A process that was launched is never let go of: every way out of the
//! phases in which it may be running goes through its exit.

use crate::error::Error;
use crate::text::{decimal, push_decimal};
use vstd::prelude::*;
use vstd::string::*;

verus! {

/// How a sandbox node is to be run.
#[derive(Clone, Copy, Debug, PartialEq, Eq)]
pub struct ServerConfig {
    /// The local port on which the node serves RPC.
    pub port: u16,
    /// How many liveness probes may fail before the launch counts as failed.
    pub max_probes: u32,
    /// The wait before each probe, in milliseconds.
    pub probe_delay_ms: u64,
    /// How long a node is given to exit after it was asked to, in
    /// milliseconds, before it is killed.
    pub grace_ms: u64,
}

/// Where a sandbox node stands in its life.
#[derive(Clone, Copy, Debug, PartialEq, Eq)]
pub enum Phase {
    /// Nothing has been launched.
    Idle,
    /// The launch was asked for and its outcome is not known yet.
    Launching,
    /// The process runs and has failed this many liveness probes.
    Probing { failed: u32 },
    /// The process runs and its endpoint answers.
    Live,
    /// The process was asked to exit and may still be running.
    Terminating,
    /// The process is being killed at the end of an orderly stop.
    Killing,
    /// The process is being killed because it never became reachable.
    Aborting,
    /// The process has exited.
    Stopped,
    /// The launch failed and no process is left.
    LaunchFailed,
    /// The process never became reachable and has been killed.
    Unreachable,
}

/// What happened to the process.
#[derive(Clone, Debug, PartialEq, Eq)]
pub enum ServerEvent {
    /// The process was spawned.
    Spawned,
    /// The process could not be spawned, for the given reason.
    SpawnFailed(String),
    /// The endpoint answered a liveness probe.
    ProbeSucceeded,
    /// The endpoint did not answer a liveness probe.
    ProbeFailed,
    /// The process has exited and has been reaped.
    Exited,
    /// The grace period ran out and the process has not exited.
    GraceElapsed,
}

/// What to do with the process next.
#[derive(Debug, PartialEq, Eq)]
pub enum ServerAction {
    /// Spawn the node bound to this port, and report `Spawned` or
    /// `SpawnFailed`.
    Spawn { port: u16 },
    /// Wait, probe the endpoint on this port, and report `ProbeSucceeded`,
    /// `ProbeFailed`, or `Exited` if the process is gone.
    Probe { port: u16, delay_ms: u64 },
    /// The node is live: build the backend.
    Ready,
    /// Ask the process to exit, wait up to the grace period, and report
    /// `Exited` or `GraceElapsed`.
    Terminate { grace_ms: u64 },
    /// Kill the process, wait for its exit, and report `Exited`.
    Kill,
    /// The process is gone and nothing is left to do.
    Finished,
    /// The start has failed and no process is left.
    Fail(Error),
    /// The event does not belong to this phase: nothing changes.
    Ignore,
}

/// A sandbox node and its phase.
#[derive(Clone, Copy, Debug, PartialEq, Eq)]
pub struct SandboxServer {
    pub config: ServerConfig,
    pub phase: Phase,
}

/// The reason given when the process exits before it was ever reachable.
pub open spec fn early_exit_text() -> Seq<char> {
    "sandbox process exited before it became reachable"@
}

/// The address of the RPC endpoint of a node on a local port.
pub open spec fn local_rpc_addr(port: u16) -> Seq<char> {
    "http://localhost:"@ + decimal(port as nat)
}

impl Phase {
    /// Whether a child process may be running in this phase.
    pub open spec fn alive(self) -> bool {
        self is Probing || self is Live || self is Terminating || self is Killing
            || self is Aborting
    }

    /// Whether the life of the node is over.
    pub open spec fn ended(self) -> bool {
        self is Stopped || self is LaunchFailed || self is Unreachable
    }

    pub fn is_alive(&self) -> (r: bool)
        ensures
            r == self.alive(),
    {
        match self {
            Phase::Probing { .. } => true,
            Phase::Live => true,
            Phase::Terminating => true,
            Phase::Killing => true,
            Phase::Aborting => true,
            _ => false,
        }
    }

    pub fn is_ended(&self) -> (r: bool)
        ensures
            r == self.ended(),
    {
        match self {
            Phase::Stopped => true,
            Phase::LaunchFailed => true,
            Phase::Unreachable => true,
            _ => false,
        }
    }
}

impl SandboxServer {
    /// The phase that follows `phase` on `event`.
    pub open spec fn next_phase(config: ServerConfig, phase: Phase, event: ServerEvent) -> Phase {
        match (phase, event) {
            (Phase::Launching, ServerEvent::Spawned) => if config.max_probes == 0 {
                Phase::Aborting
            } else {
                Phase::Probing { failed: 0 }
            },
            (Phase::Launching, ServerEvent::SpawnFailed(_)) => Phase::LaunchFailed,
            (Phase::Probing { .. }, ServerEvent::ProbeSucceeded) => Phase::Live,
            (Phase::Probing { failed }, ServerEvent::ProbeFailed) => if failed + 1
                >= config.max_probes {
                Phase::Aborting
            } else {
                Phase::Probing { failed: (failed + 1) as u32 }
            },
            (Phase::Probing { .. }, ServerEvent::Exited) => Phase::LaunchFailed,
            (Phase::Live, ServerEvent::Exited) => Phase::Stopped,
            (Phase::Terminating, ServerEvent::Exited) => Phase::Stopped,
            (Phase::Terminating, ServerEvent::GraceElapsed) => Phase::Killing,
            (Phase::Killing, ServerEvent::Exited) => Phase::Stopped,
            (Phase::Aborting, ServerEvent::Exited) => Phase::Unreachable,
            _ => phase,
        }
    }

    /// The phase that follows `phase` when a stop is asked for.
    pub open spec fn phase_on_stop(phase: Phase) -> Phase {
        match phase {
            Phase::Idle => Phase::Stopped,
            Phase::Probing { .. } => Phase::Terminating,
            Phase::Live => Phase::Terminating,
            _ => phase,
        }
    }

    /// The action that asks for one more liveness probe.
    pub open spec fn probe_action(self) -> ServerAction {
        ServerAction::Probe { port: self.config.port, delay_ms: self.config.probe_delay_ms }
    }

    /// A node that has not been launched.
    pub fn new(config: ServerConfig) -> (server: SandboxServer)
        ensures
            server == (SandboxServer { config, phase: Phase::Idle }),
    {
        SandboxServer { config, phase: Phase::Idle }
    }

    /// Whether the node is live, so that a backend can be built on it.
    pub fn is_live(&self) -> (r: bool)
        ensures
            r == (self.phase is Live),
    {
        match self.phase {
            Phase::Live => true,
            _ => false,
        }
    }

    /// The address of the node's RPC endpoint.
    pub fn rpc_addr(&self) -> (addr: String)
        ensures
            addr@ == local_rpc_addr(self.config.port),
    {
        let mut addr = String::from_str("http://localhost:");
        push_decimal(&mut addr, self.config.port as u64);
        addr
    }

    /// Asks for the launch of a node that has not been launched. In every
    /// other phase nothing changes.
    pub fn start(self) -> (r: (SandboxServer, ServerAction))
        ensures
            r.0.config == self.config,
            self.phase is Idle ==> r.0.phase == Phase::Launching && r.1 == (ServerAction::Spawn {
                port: self.config.port,
            }),
            !(self.phase is Idle) ==> r.0 == self && r.1 == ServerAction::Ignore,
    {
        match self.phase {
            Phase::Idle => (
                SandboxServer { config: self.config, phase: Phase::Launching },
                ServerAction::Spawn { port: self.config.port },
            ),
            _ => (self, ServerAction::Ignore),
        }
    }

    /// Takes in an event in the life of the process and decides what is
    /// next.
    ///
    /// A spawned process is probed until it answers, at most `max_probes`
    /// times; when it answers the node is ready. A process that never
    /// answers is killed, and once it has exited the start fails with
    /// `LivenessTimeout`. A process that could not be spawned, or that
    /// exits while it is probed, fails the start with `LaunchFailure`.
    /// A process that was asked to exit is killed when the grace period
    /// runs out. An event that does not belong to the phase changes
    /// nothing.
    pub fn on_event(self, event: ServerEvent) -> (r: (SandboxServer, ServerAction))
        ensures
            r.0.config == self.config,
            r.0.phase == SandboxServer::next_phase(self.config, self.phase, event),
            match (self.phase, event) {
                (Phase::Launching, ServerEvent::Spawned) => r.1 == if self.config.max_probes == 0 {
                    ServerAction::Kill
                } else {
                    self.probe_action()
                },
                (Phase::Launching, ServerEvent::SpawnFailed(reason)) => r.1 == ServerAction::Fail(
                    Error::LaunchFailure(reason),
                ),
                (Phase::Probing { .. }, ServerEvent::ProbeSucceeded) => r.1 == ServerAction::Ready,
                (Phase::Probing { failed }, ServerEvent::ProbeFailed) => r.1 == if failed + 1
                    >= self.config.max_probes {
                    ServerAction::Kill
                } else {
                    self.probe_action()
                },
                (Phase::Probing { .. }, ServerEvent::Exited) => {
                    &&& r.1 matches ServerAction::Fail(Error::LaunchFailure(reason))
                    &&& reason@ == early_exit_text()
                },
                (Phase::Live, ServerEvent::Exited) => r.1 == ServerAction::Finished,
                (Phase::Terminating, ServerEvent::Exited) => r.1 == ServerAction::Finished,
                (Phase::Terminating, ServerEvent::GraceElapsed) => r.1 == ServerAction::Kill,
                (Phase::Killing, ServerEvent::Exited) => r.1 == ServerAction::Finished,
                (Phase::Aborting, ServerEvent::Exited) => r.1 == ServerAction::Fail(
                    Error::LivenessTimeout,
                ),
                _ => r.1 == ServerAction::Ignore,
            },
    {
        let config = self.config;
        let probe = ServerAction::Probe { port: config.port, delay_ms: config.probe_delay_ms };
        let (phase, action) = match (self.phase, event) {
            (Phase::Launching, ServerEvent::Spawned) => {
                if config.max_probes == 0 {
                    (Phase::Aborting, ServerAction::Kill)
                } else {
                    (Phase::Probing { failed: 0 }, probe)
                }
            },
            (Phase::Launching, ServerEvent::SpawnFailed(reason)) => (
                Phase::LaunchFailed,
                ServerAction::Fail(Error::LaunchFailure(reason)),
            ),
            (Phase::Probing { .. }, ServerEvent::ProbeSucceeded) => (
                Phase::Live,
                ServerAction::Ready,
            ),
            (Phase::Probing { failed }, ServerEvent::ProbeFailed) => {
                if config.max_probes == 0 || failed >= config.max_probes - 1 {
                    (Phase::Aborting, ServerAction::Kill)
                } else {
                    (Phase::Probing { failed: failed + 1 }, probe)
                }
            },
            (Phase::Probing { .. }, ServerEvent::Exited) => (
                Phase::LaunchFailed,
                ServerAction::Fail(
                    Error::LaunchFailure(
                        String::from_str("sandbox process exited before it became reachable"),
                    ),
                ),
            ),
            (Phase::Live, ServerEvent::Exited) => (Phase::Stopped, ServerAction::Finished),
            (Phase::Terminating, ServerEvent::Exited) => (Phase::Stopped, ServerAction::Finished),
            (Phase::Terminating, ServerEvent::GraceElapsed) => (
                Phase::Killing,
                ServerAction::Kill,
            ),
            (Phase::Killing, ServerEvent::Exited) => (Phase::Stopped, ServerAction::Finished),
            (Phase::Aborting, ServerEvent::Exited) => (
                Phase::Unreachable,
                ServerAction::Fail(Error::LivenessTimeout),
            ),
            (phase, _) => (phase, ServerAction::Ignore),
        };
        (SandboxServer { config, phase }, action)
    }

    /// Asks a running node to exit.
    ///
    /// A node that is probed or live is told to terminate within the grace
    /// period. A node that was never launched is stopped at once. While
    /// the outcome of a launch or of a termination is awaited nothing
    /// changes, and once the life of the node is over nothing is left to
    /// do.
    pub fn stop(self) -> (r: (SandboxServer, ServerAction))
        ensures
            r.0.config == self.config,
            r.0.phase == SandboxServer::phase_on_stop(self.phase),
            match self.phase {
                Phase::Idle => r.1 == ServerAction::Finished,
                Phase::Probing { .. } => r.1 == (ServerAction::Terminate {
                    grace_ms: self.config.grace_ms,
                }),
                Phase::Live => r.1 == (ServerAction::Terminate { grace_ms: self.config.grace_ms }),
                Phase::Stopped => r.1 == ServerAction::Finished,
                Phase::LaunchFailed => r.1 == ServerAction::Finished,
                Phase::Unreachable => r.1 == ServerAction::Finished,
                _ => r.1 == ServerAction::Ignore,
            },
    {
        let config = self.config;
        let terminate = ServerAction::Terminate { grace_ms: config.grace_ms };
        let (phase, action) = match self.phase {
            Phase::Idle => (Phase::Stopped, ServerAction::Finished),
            Phase::Probing { .. } => (Phase::Terminating, terminate),
            Phase::Live => (Phase::Terminating, terminate),
            Phase::Stopped => (Phase::Stopped, ServerAction::Finished),
            Phase::LaunchFailed => (Phase::LaunchFailed, ServerAction::Finished),
            Phase::Unreachable => (Phase::Unreachable, ServerAction::Finished),
            phase => (phase, ServerAction::Ignore),
        };
        (SandboxServer { config, phase }, action)
    }
}

/// A process is let go of only through its exit: whatever the event, a
/// phase in which the process may be running is followed by another such
/// phase, unless the event is the exit of the process.
pub proof fn lemma_alive_until_exit(config: ServerConfig, phase: Phase, event: ServerEvent)
    requires
        phase.alive(),
        !(event is Exited),
    ensures
        SandboxServer::next_phase(config, phase, event).alive(),
        SandboxServer::phase_on_stop(phase).alive(),
{
}

/// Once the life of the node is over it stays over: no event and no stop
/// leads out of a final phase, and no process runs in one.
pub proof fn lemma_ended_is_final(config: ServerConfig, phase: Phase, event: ServerEvent)
    requires
        phase.ended(),
    ensures
        !phase.alive(),
        SandboxServer::next_phase(config, phase, event) == phase,
        SandboxServer::phase_on_stop(phase) == phase,
{
}

/// Stopping a node that is probed or live leaves no process behind: the
/// stop asks for termination, and whether the process then exits within
/// the grace period or has to be killed, the node ends stopped, with no
/// process running.
pub proof fn lemma_stop_leaves_no_process(config: ServerConfig, phase: Phase)
    requires
        phase is Live || phase is Probing,
    ensures
        ({
            let terminating = SandboxServer::phase_on_stop(phase);
            let exited = SandboxServer::next_phase(config, terminating, ServerEvent::Exited);
            let overdue = SandboxServer::next_phase(config, terminating, ServerEvent::GraceElapsed);
            let killed = SandboxServer::next_phase(config, overdue, ServerEvent::Exited);
            &&& terminating == Phase::Terminating
            &&& exited == Phase::Stopped
            &&& overdue == Phase::Killing
            &&& killed == Phase::Stopped
            &&& !Phase::Stopped.alive()
        }),
{
}

/// A launch that never becomes reachable leaves no process behind either:
/// after the last allowed probe has failed the process is killed, and its
/// exit ends the node as unreachable.
pub proof fn lemma_liveness_timeout_kills(config: ServerConfig, failed: u32)
    requires
        failed + 1 >= config.max_probes,
    ensures
        ({
            let aborting = SandboxServer::next_phase(
                config,
                Phase::Probing { failed },
                ServerEvent::ProbeFailed,
            );
            let gone = SandboxServer::next_phase(config, aborting, ServerEvent::Exited);
            &&& aborting == Phase::Aborting
            &&& gone == Phase::Unreachable
            &&& !gone.alive()
        }),
{
}

} // verus!
