use workspaces::error::Error;
use workspaces::network::server::{Phase, SandboxServer, ServerAction, ServerConfig, ServerEvent};

fn config(max_probes: u32) -> ServerConfig {
    ServerConfig { port: 3030, max_probes, probe_delay_ms: 50, grace_ms: 1000 }
}

fn probe() -> ServerAction {
    ServerAction::Probe { port: 3030, delay_ms: 50 }
}

fn in_phase(phase: Phase) -> SandboxServer {
    SandboxServer { config: config(3), phase }
}

fn all_phases() -> Vec<Phase> {
    vec![
        Phase::Idle,
        Phase::Launching,
        Phase::Probing { failed: 0 },
        Phase::Probing { failed: 2 },
        Phase::Live,
        Phase::Terminating,
        Phase::Killing,
        Phase::Aborting,
        Phase::Stopped,
        Phase::LaunchFailed,
        Phase::Unreachable,
    ]
}

fn all_events() -> Vec<ServerEvent> {
    vec![
        ServerEvent::Spawned,
        ServerEvent::SpawnFailed("no binary".to_string()),
        ServerEvent::ProbeSucceeded,
        ServerEvent::ProbeFailed,
        ServerEvent::Exited,
        ServerEvent::GraceElapsed,
    ]
}

#[test]
fn start_probe_ready() {
    let server = SandboxServer::new(config(3));
    assert_eq!(server.phase, Phase::Idle);
    assert!(!server.is_live());
    let (server, action) = server.start();
    assert_eq!(server.phase, Phase::Launching);
    assert_eq!(action, ServerAction::Spawn { port: 3030 });
    let (server, action) = server.on_event(ServerEvent::Spawned);
    assert_eq!(server.phase, Phase::Probing { failed: 0 });
    assert_eq!(action, probe());
    let (server, action) = server.on_event(ServerEvent::ProbeFailed);
    assert_eq!(server.phase, Phase::Probing { failed: 1 });
    assert_eq!(action, probe());
    let (server, action) = server.on_event(ServerEvent::ProbeSucceeded);
    assert_eq!(server.phase, Phase::Live);
    assert_eq!(action, ServerAction::Ready);
    assert!(server.is_live());
    assert_eq!(server.rpc_addr(), "http://localhost:3030");
}

#[test]
fn rpc_addr_uses_the_port() {
    let mut c = config(1);
    c.port = 0;
    assert_eq!(SandboxServer::new(c).rpc_addr(), "http://localhost:0");
    c.port = 65535;
    assert_eq!(SandboxServer::new(c).rpc_addr(), "http://localhost:65535");
}

#[test]
fn missing_binary_is_a_launch_failure() {
    let (server, _) = SandboxServer::new(config(3)).start();
    let (server, action) = server.on_event(ServerEvent::SpawnFailed("no binary".to_string()));
    assert_eq!(server.phase, Phase::LaunchFailed);
    assert_eq!(action, ServerAction::Fail(Error::LaunchFailure("no binary".to_string())));
    assert!(!server.phase.is_alive());
    assert!(server.phase.is_ended());
}

#[test]
fn exit_while_probing_is_a_launch_failure() {
    let (server, action) = in_phase(Phase::Probing { failed: 1 }).on_event(ServerEvent::Exited);
    assert_eq!(server.phase, Phase::LaunchFailed);
    assert_eq!(
        action,
        ServerAction::Fail(Error::LaunchFailure(
            "sandbox process exited before it became reachable".to_string()
        ))
    );
}

#[test]
fn node_that_never_answers_is_killed() {
    let (server, _) = SandboxServer::new(config(2)).start();
    let (server, _) = server.on_event(ServerEvent::Spawned);
    let (server, action) = server.on_event(ServerEvent::ProbeFailed);
    assert_eq!(action, probe());
    let (server, action) = server.on_event(ServerEvent::ProbeFailed);
    assert_eq!(server.phase, Phase::Aborting);
    assert_eq!(action, ServerAction::Kill);
    assert!(server.phase.is_alive());
    let (server, action) = server.on_event(ServerEvent::Exited);
    assert_eq!(server.phase, Phase::Unreachable);
    assert_eq!(action, ServerAction::Fail(Error::LivenessTimeout));
    assert!(!server.phase.is_alive());
}

#[test]
fn no_probe_budget_kills_at_once() {
    let (server, _) = SandboxServer::new(config(0)).start();
    let (server, action) = server.on_event(ServerEvent::Spawned);
    assert_eq!(server.phase, Phase::Aborting);
    assert_eq!(action, ServerAction::Kill);
}

#[test]
fn stop_terminates_and_the_exit_ends_it() {
    let (server, action) = in_phase(Phase::Live).stop();
    assert_eq!(server.phase, Phase::Terminating);
    assert_eq!(action, ServerAction::Terminate { grace_ms: 1000 });
    let (server, action) = server.on_event(ServerEvent::Exited);
    assert_eq!(server.phase, Phase::Stopped);
    assert_eq!(action, ServerAction::Finished);
    assert!(!server.phase.is_alive());
}

#[test]
fn stop_kills_after_the_grace_period() {
    let (server, _) = in_phase(Phase::Live).stop();
    let (server, action) = server.on_event(ServerEvent::GraceElapsed);
    assert_eq!(server.phase, Phase::Killing);
    assert_eq!(action, ServerAction::Kill);
    assert!(server.phase.is_alive());
    let (server, action) = server.on_event(ServerEvent::Exited);
    assert_eq!(server.phase, Phase::Stopped);
    assert_eq!(action, ServerAction::Finished);
    assert!(!server.phase.is_alive());
}

#[test]
fn stop_while_probing_terminates() {
    let (server, action) = in_phase(Phase::Probing { failed: 1 }).stop();
    assert_eq!(server.phase, Phase::Terminating);
    assert_eq!(action, ServerAction::Terminate { grace_ms: 1000 });
}

#[test]
fn stop_in_the_other_phases() {
    assert_eq!(in_phase(Phase::Idle).stop(), (in_phase(Phase::Stopped), ServerAction::Finished));
    for phase in [Phase::Launching, Phase::Terminating, Phase::Killing, Phase::Aborting] {
        assert_eq!(in_phase(phase).stop(), (in_phase(phase), ServerAction::Ignore));
    }
    for phase in [Phase::Stopped, Phase::LaunchFailed, Phase::Unreachable] {
        assert_eq!(in_phase(phase).stop(), (in_phase(phase), ServerAction::Finished));
    }
}

#[test]
fn start_is_only_for_an_idle_node() {
    for phase in all_phases() {
        if phase != Phase::Idle {
            assert_eq!(in_phase(phase).start(), (in_phase(phase), ServerAction::Ignore));
        }
    }
}

#[test]
fn crash_of_a_live_node_ends_it() {
    let (server, action) = in_phase(Phase::Live).on_event(ServerEvent::Exited);
    assert_eq!(server.phase, Phase::Stopped);
    assert_eq!(action, ServerAction::Finished);
}

#[test]
fn a_running_process_is_only_let_go_of_by_its_exit() {
    for phase in all_phases() {
        if !phase.is_alive() {
            continue;
        }
        for event in all_events() {
            if event == ServerEvent::Exited {
                continue;
            }
            let (next, _) = in_phase(phase).on_event(event);
            assert!(next.phase.is_alive(), "{:?}", phase);
        }
        let (next, _) = in_phase(phase).stop();
        assert!(next.phase.is_alive(), "{:?}", phase);
    }
}

#[test]
fn ended_phases_are_final() {
    for phase in [Phase::Stopped, Phase::LaunchFailed, Phase::Unreachable] {
        assert!(phase.is_ended());
        assert!(!phase.is_alive());
        for event in all_events() {
            assert_eq!(in_phase(phase).on_event(event), (in_phase(phase), ServerAction::Ignore));
        }
    }
}

#[test]
fn stray_events_change_nothing() {
    let stray = [
        (Phase::Idle, ServerEvent::Spawned),
        (Phase::Idle, ServerEvent::Exited),
        (Phase::Launching, ServerEvent::ProbeFailed),
        (Phase::Launching, ServerEvent::Exited),
        (Phase::Probing { failed: 0 }, ServerEvent::Spawned),
        (Phase::Probing { failed: 0 }, ServerEvent::GraceElapsed),
        (Phase::Live, ServerEvent::ProbeFailed),
        (Phase::Live, ServerEvent::ProbeSucceeded),
        (Phase::Live, ServerEvent::GraceElapsed),
        (Phase::Terminating, ServerEvent::ProbeSucceeded),
        (Phase::Killing, ServerEvent::GraceElapsed),
        (Phase::Aborting, ServerEvent::ProbeSucceeded),
    ];
    for (phase, event) in stray {
        assert_eq!(in_phase(phase).on_event(event), (in_phase(phase), ServerAction::Ignore));
    }
}
