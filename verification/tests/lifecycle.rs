use backend_supervisor::health::{health_endpoint, healthy_from_probe, ProbeOutcome,
    HEALTH_TIMEOUT_SECS};
use backend_supervisor::launch::{backend_script_path, launcher_command};
use backend_supervisor::platform::{os_name, system_info, HostOs};
use backend_supervisor::supervisor::{ProcessState, Supervisor};

#[test]
fn spawn_success_holds_handle() {
    let mut sup = Supervisor::new(HostOs::Linux, true);
    assert_eq!(sup.state, ProcessState::NotStarted);
    assert!(sup.not_started());
    sup.record_spawn(true);
    assert_eq!(sup.state, ProcessState::Running);
    assert!(!sup.not_started());
}

#[test]
fn spawn_failure_leaves_not_started() {
    let mut sup = Supervisor::new(HostOs::MacOs, false);
    sup.record_spawn(false);
    assert_eq!(sup.state, ProcessState::NotStarted);
    // a close event after a failed startup is a no-op and signals nothing
    let signal = sup.stop();
    assert!(!signal);
    assert_eq!(sup.state, ProcessState::NotStarted);
}

#[test]
fn stop_signals_exactly_once() {
    let mut sup = Supervisor::new(HostOs::Windows, false);
    sup.record_spawn(true);
    let first = sup.stop();
    assert!(first);
    assert_eq!(sup.state, ProcessState::Stopped);
    let second = sup.stop();
    assert!(!second);
    assert_eq!(sup.state, ProcessState::Stopped);
}

#[test]
fn supervisor_keeps_launch_configuration() {
    let mut sup = Supervisor::new(HostOs::Linux, false);
    assert_eq!(sup.command, "python3");
    assert_eq!(sup.script_path, "python-backend/main.py");
    sup.record_spawn(true);
    sup.stop();
    assert_eq!(sup.command, "python3");
    assert_eq!(sup.script_path, "python-backend/main.py");
}

#[test]
fn probe_without_listener_is_unhealthy() {
    assert!(!healthy_from_probe(&ProbeOutcome::NoResponse));
}

#[test]
fn probe_ok_response_is_healthy() {
    assert!(healthy_from_probe(&ProbeOutcome::Response { status: 200 }));
}

#[test]
fn probe_server_error_is_unhealthy() {
    assert!(!healthy_from_probe(&ProbeOutcome::Response { status: 500 }));
}

#[test]
fn probe_success_range_boundaries() {
    assert!(!healthy_from_probe(&ProbeOutcome::Response { status: 199 }));
    assert!(healthy_from_probe(&ProbeOutcome::Response { status: 204 }));
    assert!(healthy_from_probe(&ProbeOutcome::Response { status: 299 }));
    assert!(!healthy_from_probe(&ProbeOutcome::Response { status: 300 }));
    assert!(!healthy_from_probe(&ProbeOutcome::Response { status: 404 }));
}

#[test]
fn probe_wire_contract_is_fixed() {
    assert_eq!(health_endpoint(), "http://localhost:8000/health");
    assert_eq!(HEALTH_TIMEOUT_SECS, 2);
}

#[test]
fn launcher_command_per_os() {
    assert_eq!(launcher_command(HostOs::MacOs), "python3");
    assert_eq!(launcher_command(HostOs::Windows), "python");
    assert_eq!(launcher_command(HostOs::Linux), "python3");
}

#[test]
fn script_path_per_build_flavor() {
    assert_eq!(backend_script_path(true), "../web-app/backend/main.py");
    assert_eq!(backend_script_path(false), "python-backend/main.py");
}

#[test]
fn system_info_flags_are_exclusive_on_every_os() {
    for os in [HostOs::MacOs, HostOs::Windows, HostOs::Linux] {
        let info = system_info(os, "x86_64");
        let set = [info.is_macos, info.is_windows, info.is_linux]
            .iter()
            .filter(|f| **f)
            .count();
        assert_eq!(set, 1);
        assert_eq!(info.is_macos, info.os == "macos");
        assert_eq!(info.is_windows, info.os == "windows");
        assert_eq!(info.is_linux, info.os == "linux");
        assert_eq!(info.arch, "x86_64");
    }
}

#[test]
fn system_info_reports_os_names() {
    assert_eq!(os_name(HostOs::MacOs), "macos");
    assert_eq!(os_name(HostOs::Windows), "windows");
    assert_eq!(os_name(HostOs::Linux), "linux");
    let info = system_info(HostOs::MacOs, "aarch64");
    assert_eq!(info.os, "macos");
    assert_eq!(info.arch, "aarch64");
    assert!(info.is_macos && !info.is_windows && !info.is_linux);
}

#[test]
fn shutdown_scenario_after_healthy_run() {
    // The worker starts, its service answers with success, the window closes,
    // and afterwards the probe finds no listener any more.
    let mut sup = Supervisor::new(HostOs::Linux, true);
    sup.record_spawn(true);
    assert_eq!(sup.state, ProcessState::Running);
    assert!(healthy_from_probe(&ProbeOutcome::Response { status: 200 }));
    let signal = sup.stop();
    assert!(signal);
    assert_eq!(sup.state, ProcessState::Stopped);
    assert!(!healthy_from_probe(&ProbeOutcome::NoResponse));
}
