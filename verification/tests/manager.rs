use bubbaloop::clock::{now_ms, timestamp};
use bubbaloop::daemon::building::{
    build_event, build_search_path, closing_message, exit_result, plan_build, run_with_timeout,
    validate_build_command, CLEAN_COMMAND,
};
use bubbaloop::daemon::commands::{
    command_type, get_logs, journal_arguments, plan_command, plan_removal, show_log, Action,
    Prepared, Refresh,
};
use bubbaloop::daemon::error::NodeManagerError;
use bubbaloop::daemon::health::ReceiveErrors;
use bubbaloop::daemon::node::{BuildState, BuildStatus};
use bubbaloop::daemon::node_manager::{get_machine_ips, Machine, NodeManager, RegisteredNode};
use bubbaloop::daemon::registry::{NodeEntry, NodeManifest};
use bubbaloop::daemon::signals::{nodes_to_refresh, signal_burst};
use bubbaloop::daemon::systemd::{
    get_service_name, node_of_service, stop_if_running, ActiveState, SystemdSignalEvent, UnitState,
};
use bubbaloop::schemas::{CommandType, HealthStatus, NodeCommand, NodeStatus};

fn machine() -> Machine {
    Machine::new(
        "m1".to_string(),
        Some("host1".to_string()),
        vec!["10.0.0.1".to_string()],
    )
}

fn unit(active_state: ActiveState) -> UnitState {
    UnitState {
        active_state,
        installed: true,
        enabled: Some(true),
    }
}

fn manifest(name: &str) -> NodeManifest {
    NodeManifest {
        name: name.to_string(),
        version: "1.0.0".to_string(),
        node_type: "rust".to_string(),
        build: Some("cargo build".to_string()),
        command: Some("./run".to_string()),
        depends_on: vec!["base".to_string()],
        ..Default::default()
    }
}

fn registered(name: &str) -> RegisteredNode {
    RegisteredNode {
        entry: NodeEntry {
            path: format!("/opt/{}", name),
            name_override: None,
            config_override: None,
        },
        manifest: Some(manifest(name)),
        unit: Ok(unit(ActiveState::Active)),
        is_built: true,
        read_at_ms: 5,
    }
}

fn manager(names: &[&str]) -> NodeManager {
    let regs = names.iter().map(|n| registered(n)).collect();
    NodeManager::new(machine(), Ok(regs)).unwrap()
}

fn names(m: &NodeManager) -> Vec<String> {
    let mut v: Vec<String> = m
        .get_node_list(0)
        .nodes
        .into_iter()
        .map(|n| n.name)
        .collect();
    v.sort();
    v
}

#[test]
fn nodes_are_reported_with_their_machine() {
    let m = manager(&["a", "b"]);
    assert_eq!(names(&m), vec!["a", "b"]);
    let list = m.get_node_list(77);
    assert_eq!(list.timestamp_ms, 77);
    assert_eq!(list.machine_id, "m1");
    let a = m.get_node("a").unwrap();
    assert_eq!(a.machine_id, "m1");
    assert_eq!(a.machine_hostname, "host1");
    assert_eq!(a.machine_ips, vec!["10.0.0.1".to_string()]);
    assert_eq!(a.status, NodeStatus::Running.to_code());
    assert_eq!(a.last_updated_ms, 5);
    assert!(a.autostart_enabled && a.installed && a.is_built);
    assert!(m.get_node("c").is_none());
}

#[test]
fn managers_fail_or_fall_back() {
    let mut broken = registered("b");
    broken.unit = Err(NodeManagerError::Systemd("no bus".to_string()));
    let made = NodeManager::new(machine(), Ok(vec![registered("a"), broken]));
    match &made {
        Err(NodeManagerError::Systemd(e)) => assert_eq!(e, "no bus"),
        other => panic!("unexpected: {:?}", other),
    }
    let fallback = NodeManager::new_with_graceful_fallback(made, machine());
    assert!(fallback.get_node_list(0).nodes.is_empty());
    let kept = NodeManager::new_with_graceful_fallback(Ok(manager(&["a"])), machine());
    assert_eq!(names(&kept), vec!["a"]);
    let unread = NodeManager::new(machine(), Err(NodeManagerError::Registry("x".to_string())));
    assert_eq!(unread.unwrap_err().to_string(), "Registry error: x");
}

#[test]
fn refresh_tracks_the_registry_on_values() {
    let mut m = manager(&["a", "b"]);
    m.refresh_all(Ok(vec![registered("b"), registered("c")])).unwrap();
    assert_eq!(names(&m), vec!["b", "c"]);
    // A failure keeps what was taken in before it, and forgets nothing.
    let mut broken = registered("e");
    broken.unit = Err(NodeManagerError::Systemd("x".to_string()));
    let r = m.refresh_all(Ok(vec![registered("d"), broken, registered("f")]));
    assert_eq!(r.unwrap_err().to_string(), "Systemd error: x");
    assert_eq!(names(&m), vec!["b", "c", "d"]);
    let r = m.refresh_all(Err(NodeManagerError::Io("y".to_string())));
    assert_eq!(r.unwrap_err().to_string(), "IO error: y");
    assert_eq!(names(&m), vec!["b", "c", "d"]);
}

#[test]
fn later_entries_of_a_name_win() {
    let mut second = registered("x");
    second.entry.name_override = Some("a".to_string());
    second.manifest = None;
    let m = NodeManager::new(machine(), Ok(vec![registered("a"), second])).unwrap();
    assert_eq!(names(&m), vec!["a"]);
    let a = m.get_node("a").unwrap();
    assert_eq!(a.path, "/opt/x");
    assert_eq!(a.version, "0.0.0");
    assert!(!a.is_built);
}

#[test]
fn refresh_keeps_builds_and_health_on_values() {
    let mut m = manager(&["a"]);
    m.record_heartbeat("bubbaloop/nodes/a/health", 1000);
    m.begin_build_activity("a", BuildStatus::Building).unwrap();
    m.push_output("a", "line".to_string());
    m.refresh_all(Ok(vec![registered("a")])).unwrap();
    let a = m.get_node("a").unwrap();
    assert_eq!(a.status, NodeStatus::Building.to_code());
    assert_eq!(a.health_status, HealthStatus::Healthy.to_code());
    assert_eq!(a.last_health_check_ms, 1000);
    assert_eq!(a.build_output, vec!["line".to_string()]);
}

#[test]
fn observing_a_node_updates_it() {
    let mut m = manager(&["a", "b"]);
    let failed = UnitState {
        active_state: ActiveState::Failed,
        installed: true,
        enabled: None,
    };
    m.refresh_node("a", failed, 99);
    let a = m.get_node("a").unwrap();
    assert_eq!(a.status, NodeStatus::Failed.to_code());
    assert!(!a.autostart_enabled);
    assert_eq!(a.last_updated_ms, 99);
    assert_eq!(m.get_node("b").unwrap().last_updated_ms, 5);
    let gone = UnitState {
        active_state: ActiveState::Inactive,
        installed: false,
        enabled: Some(true),
    };
    m.refresh_node("a", gone, 100);
    let a = m.get_node("a").unwrap();
    assert_eq!(a.status, NodeStatus::NotInstalled.to_code());
    assert!(!a.installed && !a.autostart_enabled);
    m.refresh_node("nobody", failed, 101);
    assert_eq!(names(&m), vec!["a", "b"]);
}

#[test]
fn service_states_give_node_states() {
    let status = |s| unit(s).node_status();
    assert_eq!(status(ActiveState::Active), NodeStatus::Running);
    assert_eq!(status(ActiveState::Activating), NodeStatus::Running);
    assert_eq!(status(ActiveState::Failed), NodeStatus::Failed);
    assert_eq!(status(ActiveState::Inactive), NodeStatus::Stopped);
    assert_eq!(status(ActiveState::Deactivating), NodeStatus::Stopped);
    assert_eq!(status(ActiveState::Other), NodeStatus::Stopped);
    assert!(stop_if_running(Some(ActiveState::Active)));
    assert!(stop_if_running(Some(ActiveState::Activating)));
    assert!(!stop_if_running(Some(ActiveState::Inactive)));
    assert!(!stop_if_running(None));
}

fn health(m: &NodeManager, name: &str) -> HealthStatus {
    HealthStatus::from_code(m.get_node(name).unwrap().health_status).unwrap()
}

#[test]
fn heartbeats_and_silence() {
    // Both nodes were seen to run at 5.
    let mut m = manager(&["a", "b"]);
    m.record_heartbeat("bubbaloop/local/m1/health/a", 1_000);
    assert!(m.check_staleness(30_005).is_empty());
    assert_eq!(health(&m, "a"), HealthStatus::Healthy);
    assert_eq!(health(&m, "b"), HealthStatus::Unknown);
    // A node that was never heard is found silent as well.
    assert_eq!(m.check_staleness(30_006), vec!["b".to_string()]);
    assert_eq!(health(&m, "b"), HealthStatus::Unhealthy);
    assert!(m.check_staleness(31_000).is_empty());
    assert_eq!(m.check_staleness(31_001), vec!["a".to_string()]);
    assert_eq!(health(&m, "a"), HealthStatus::Unhealthy);
    // It is told of once.
    assert!(m.check_staleness(40_000).is_empty());
    m.record_heartbeat("bubbaloop/nodes/a/health", 50_000);
    assert_eq!(health(&m, "a"), HealthStatus::Healthy);
    m.refresh_node("a", unit(ActiveState::Inactive), 51_000);
    assert!(m.check_staleness(51_000).is_empty());
    let a = m.get_node("a").unwrap();
    assert_eq!(a.health_status, HealthStatus::Unknown.to_code());
    assert_eq!(a.last_health_check_ms, 0);
    m.record_heartbeat("elsewhere/a", 52_000);
    assert_eq!(m.get_node("a").unwrap().last_health_check_ms, 0);
}

#[test]
fn running_time_is_kept_on_values() {
    let mut m = manager(&["a"]);
    // Asking again does not make a running node new.
    m.refresh_node("a", unit(ActiveState::Active), 20_000);
    m.refresh_all(Ok(vec![registered("a")])).unwrap();
    assert_eq!(m.check_staleness(30_006), vec!["a".to_string()]);
    // Stopping and starting does.
    m.refresh_node("a", unit(ActiveState::Inactive), 40_000);
    assert!(m.check_staleness(40_000).is_empty());
    m.refresh_node("a", unit(ActiveState::Active), 50_000);
    assert!(m.check_staleness(80_000).is_empty());
    assert_eq!(health(&m, "a"), HealthStatus::Unknown);
    assert_eq!(m.check_staleness(80_001), vec!["a".to_string()]);
    // So does a build.
    m.begin_build_activity("a", BuildStatus::Building).unwrap();
    assert!(m.check_staleness(90_000).is_empty());
    let mut again = registered("a");
    again.read_at_ms = 100_000;
    m.complete_build("a", &Ok(()), Ok(vec![again]), 100_000);
    assert!(m.check_staleness(130_000).is_empty());
    assert_eq!(m.check_staleness(130_001), vec!["a".to_string()]);
}

#[test]
fn unbuildable_nodes_stay_free_on_values() {
    let mut plain = registered("c");
    plain.manifest = Some(NodeManifest {
        name: "c".to_string(),
        ..Default::default()
    });
    let mut m = NodeManager::new(machine(), Ok(vec![plain, registered("a")])).unwrap();
    for _ in 0..2 {
        assert_eq!(
            m.begin_build("c").unwrap_err().to_string(),
            "Build error: No build command defined"
        );
    }
    assert_eq!(m.get_node("c").unwrap().status, NodeStatus::Running.to_code());
    let begun = m.begin_build("a").unwrap();
    assert_eq!(begun, ("/opt/a".to_string(), "cargo build".to_string()));
    assert_eq!(
        m.begin_build("a").unwrap_err().to_string(),
        "Build already in progress for: a"
    );
    assert_eq!(m.begin_build("x").unwrap_err().to_string(), "Node not found: x");
}

#[test]
fn services_are_stopped_only_for_what_begins() {
    let mut m = manager(&["a", "b"]);
    assert!(m.must_stop("a", Some(ActiveState::Active)));
    assert!(m.must_stop("a", Some(ActiveState::Activating)));
    assert!(!m.must_stop("a", Some(ActiveState::Inactive)));
    assert!(!m.must_stop("a", None));
    m.begin_build_activity("a", BuildStatus::Cleaning).unwrap();
    assert!(!m.must_stop("a", Some(ActiveState::Active)));
    assert!(m.must_stop("b", Some(ActiveState::Active)));
}

#[test]
fn removed_nodes_are_stopped_first() {
    let removal = plan_removal(Some(ActiveState::Active), true);
    assert!(removal.stop && removal.uninstall);
    let removal = plan_removal(Some(ActiveState::Inactive), true);
    assert!(!removal.stop && removal.uninstall);
    let removal = plan_removal(Some(ActiveState::Activating), false);
    assert!(removal.stop && !removal.uninstall);
    let removal = plan_removal(None, false);
    assert!(!removal.stop && !removal.uninstall);
}

#[test]
fn receive_errors_are_reported_now_and_then() {
    let mut errors = ReceiveErrors::new();
    let reported: Vec<bool> = (0..21).map(|_| errors.failed()).collect();
    let expected: Vec<bool> = (0..21).map(|i| i % 10 == 0).collect();
    assert_eq!(reported, expected);
    errors.received();
    assert_eq!(errors.count, 0);
    assert!(errors.failed());
}

#[test]
fn one_activity_at_a_time_on_values() {
    let mut m = manager(&["a", "b"]);
    assert_eq!(m.begin_build_activity("a", BuildStatus::Building).unwrap(), "/opt/a");
    match m.begin_build_activity("a", BuildStatus::Cleaning) {
        Err(NodeManagerError::AlreadyBuilding(name)) => assert_eq!(name, "a"),
        other => panic!("unexpected: {:?}", other),
    }
    m.begin_build_activity("b", BuildStatus::Cleaning).unwrap();
    m.finish_build_activity("a", &Ok(()), "Build");
    assert_eq!(
        m.get_node("a").unwrap().build_output,
        vec!["--- Build completed successfully ---".to_string()]
    );
    m.begin_build_activity("a", BuildStatus::Cleaning).unwrap();
    assert!(m.get_node("a").unwrap().build_output.is_empty());
    // What is no node is not claimed.
    for _ in 0..2 {
        match m.begin_build_activity("ghost", BuildStatus::Building) {
            Err(NodeManagerError::NodeNotFound(name)) => assert_eq!(name, "ghost"),
            other => panic!("unexpected: {:?}", other),
        }
    }
}

#[test]
fn finished_builds_are_told_of() {
    let mut m = manager(&["a"]);
    m.begin_build_activity("a", BuildStatus::Building).unwrap();
    let event = m
        .complete_build("a", &Ok(()), Ok(vec![registered("a")]), 9)
        .unwrap();
    assert_eq!(event.event_type, "build_complete");
    assert_eq!(event.node_name, "a");
    assert_eq!(event.timestamp_ms, 9);
    let state = event.state.unwrap();
    assert_eq!(state.status, NodeStatus::Running.to_code());
    assert_eq!(state.build_output, vec!["--- Build completed successfully ---"]);

    m.begin_build_activity("a", BuildStatus::Building).unwrap();
    let late = Err(NodeManagerError::BuildTimeout("a".to_string()));
    let unread = || Err(NodeManagerError::Registry("x".to_string()));
    let event = m.complete_build("a", &late, unread(), 10).unwrap();
    assert_eq!(event.event_type, "build_timeout");
    // The registry could not be read, so the node is still shown as it was.
    assert_eq!(event.state.unwrap().status, NodeStatus::Building.to_code());

    m.begin_build_activity("a", BuildStatus::Building).unwrap();
    let failed = Err(NodeManagerError::BuildError("x".to_string()));
    let event = m.complete_build("a", &failed, Ok(vec![registered("a")]), 11).unwrap();
    assert_eq!(event.event_type, "build_failed");
    assert_eq!(
        event.state.unwrap().build_output,
        vec!["--- Build failed: Build error: x ---"]
    );
}

#[test]
fn cleaned_nodes_are_not_built() {
    let mut m = manager(&["a"]);
    m.begin_build_activity("a", BuildStatus::Cleaning).unwrap();
    let event = m
        .complete_clean("a", &Ok(()), Ok(vec![registered("a")]), 9)
        .unwrap();
    assert_eq!(event.event_type, "clean_complete");
    let state = event.state.unwrap();
    assert!(!state.is_built);
    assert_eq!(state.build_output, vec!["--- Clean completed successfully ---"]);
    // A clean that failed leaves it to the registry whether the program is there.
    m.begin_build_activity("a", BuildStatus::Cleaning).unwrap();
    let failed = Err(NodeManagerError::BuildTimeout("a".to_string()));
    let event = m
        .complete_clean("a", &failed, Ok(vec![registered("a")]), 9)
        .unwrap();
    assert_eq!(event.event_type, "clean_complete");
    assert!(event.state.unwrap().is_built);
    // If the node left the registry meanwhile, nothing is told.
    m.begin_build_activity("a", BuildStatus::Cleaning).unwrap();
    assert!(m.complete_clean("a", &Ok(()), Ok(vec![]), 9).is_none());
}

#[test]
fn output_keeps_the_last_lines_on_values() {
    let mut m = manager(&["a"]);
    for i in 0..105 {
        m.push_output("a", format!("{}", i));
    }
    let output = m.get_node("a").unwrap().build_output;
    assert_eq!(output.len(), 100);
    assert_eq!(output[0], "5");
    assert_eq!(output[99], "104");
    let mut state = BuildState::default();
    state.push_line("x".to_string());
    assert_eq!(state.output, vec!["x".to_string()]);
}

#[test]
fn build_commands_are_looked_up() {
    let mut m = manager(&["a"]);
    assert_eq!(m.build_command("a").unwrap(), "cargo build");
    match m.build_command("b") {
        Err(NodeManagerError::NodeNotFound(name)) => assert_eq!(name, "b"),
        other => panic!("unexpected: {:?}", other),
    }
    let mut plain = registered("c");
    plain.manifest = Some(NodeManifest {
        name: "c".to_string(),
        ..Default::default()
    });
    m.refresh_all(Ok(vec![plain])).unwrap();
    assert_eq!(
        m.build_command("c").unwrap_err().to_string(),
        "Build error: No build command defined"
    );
    assert_eq!(m.find_node_path("c").unwrap(), "/opt/c");
    assert_eq!(m.find_node_path("a").unwrap_err().to_string(), "Node not found: a");
    m.mark_built("c", true);
    assert!(m.get_node("c").unwrap().is_built);
}

#[test]
fn build_plans_run_in_the_shell() {
    let plan = plan_build("CARGO build", Some("/home/ada")).unwrap();
    assert_eq!(plan.program, "sh");
    assert_eq!(plan.arguments, vec!["-c", "CARGO build"]);
    assert_eq!(
        plan.search_path,
        "/home/ada/.cargo/bin:/home/ada/.pixi/bin:/usr/local/bin:/usr/bin:/bin"
    );
    assert_eq!(
        build_search_path(None),
        "/home/user/.cargo/bin:/home/user/.pixi/bin:/usr/local/bin:/usr/bin:/bin"
    );
    assert!(build_search_path(Some("/")).starts_with("/.cargo/bin:/.pixi/bin:"));
    assert!(plan_build("rm x", None).is_err());
    assert!(validate_build_command(CLEAN_COMMAND).is_ok());
    let long = format!("rm {}", "x".repeat(60));
    assert_eq!(
        validate_build_command(&long).unwrap_err().to_string(),
        format!(
            "Build error: Build command must start with one of: cargo, pixi, npm, make, python, \
             pip. Got: rm {}",
            "x".repeat(47)
        )
    );
    assert_eq!(
        validate_build_command("make a;b|c").unwrap_err().to_string(),
        "Build error: Build command contains dangerous character ';': make a;b|c"
    );
}

#[test]
fn ends_of_commands() {
    assert!(exit_result(true, Some(0)).is_ok());
    assert_eq!(
        exit_result(false, Some(101)).unwrap_err().to_string(),
        "Build error: Command exited with code 101"
    );
    assert_eq!(
        exit_result(false, None).unwrap_err().to_string(),
        "Build error: Command exited with code -1"
    );
    assert!(run_with_timeout(Some(Ok(())), "a").is_ok());
    let late = run_with_timeout(None, "a");
    assert_eq!(build_event(&late), "build_timeout");
    assert_eq!(closing_message(&late, "Clean"), "--- Clean timed out ---");
    assert_eq!(late.unwrap_err().to_string(), "Build timed out for: a");
    assert_eq!(
        NodeManagerError::AlreadyBuilding("a".to_string()).to_string(),
        "Build already in progress for: a"
    );
}

#[test]
fn install_plans_name_the_configuration() {
    let mut cam = registered("cam");
    cam.entry.name_override = Some("cam-1".to_string());
    cam.entry.config_override = Some("/etc/cam.yaml".to_string());
    let mut bare = registered("bare");
    bare.entry.config_override = Some("/etc/b.yaml".to_string());
    bare.manifest = Some(NodeManifest {
        name: "bare".to_string(),
        ..Default::default()
    });
    let mut lost = registered("x");
    lost.manifest = None;
    let m = NodeManager::new(machine(), Ok(vec![cam, bare, lost, registered("a")])).unwrap();
    let plan = m.install_plan("cam-1").unwrap();
    assert_eq!(plan.path, "/opt/cam");
    assert_eq!(plan.node_type, "rust");
    assert_eq!(plan.command, Some("./run -c /etc/cam.yaml".to_string()));
    assert_eq!(plan.depends_on, vec!["base".to_string()]);
    assert_eq!(
        m.install_plan("bare").unwrap().command,
        Some("./target/release/unknown -c /etc/b.yaml".to_string())
    );
    assert_eq!(m.install_plan("a").unwrap().command, Some("./run".to_string()));
    assert_eq!(
        m.install_plan("unknown").unwrap_err().to_string(),
        "Node not found: unknown"
    );
    assert!(m.install_plan("zzz").is_err());
    let manifests = m.get_cached_manifests();
    let found: Vec<&str> = manifests.iter().map(|(name, _)| name.as_str()).collect();
    assert_eq!(found, vec!["cam-1", "bare", "a"]);
}

fn command(code: i32, name: &str) -> NodeCommand {
    NodeCommand {
        command: code,
        node_name: name.to_string(),
        request_id: "req".to_string(),
        timestamp_ms: 1,
        source_machine: "me".to_string(),
        target_machine: String::new(),
        node_path: "/opt/new".to_string(),
        name_override: String::new(),
        config_override: "/etc/new.yaml".to_string(),
    }
}

#[test]
fn unknown_commands_refresh() {
    assert_eq!(command_type(-1), CommandType::Refresh);
    assert_eq!(command_type(1000), CommandType::Refresh);
    assert_eq!(command_type(CommandType::GetLogs.to_code()), CommandType::GetLogs);
    assert!(matches!(plan_command(&command(77, "a")), Action::Refresh));
    match plan_command(&command(CommandType::AddNode.to_code(), "a")) {
        Action::AddNode {
            path,
            name_override,
            config_override,
        } => {
            assert_eq!(path, "/opt/new");
            assert_eq!(name_override, None);
            assert_eq!(config_override, Some("/etc/new.yaml".to_string()));
        }
        other => panic!("unexpected: {:?}", other),
    }
}

#[test]
fn commands_are_answered() {
    let m = manager(&["a"]);
    let cmd = |t: CommandType| command(t.to_code(), "a");
    let said = |t: CommandType, given: &str| {
        m.execute_command(cmd(t), None, Ok(given.to_string()), 3).message
    };
    assert_eq!(said(CommandType::Start, ""), "Started a");
    assert_eq!(said(CommandType::Stop, ""), "Stopped a");
    assert_eq!(said(CommandType::Restart, ""), "Restarted a");
    assert_eq!(said(CommandType::Install, ""), "Installed a");
    assert_eq!(said(CommandType::Uninstall, ""), "Uninstalled a");
    assert_eq!(said(CommandType::Build, ""), "Building a (background)");
    assert_eq!(said(CommandType::Clean, ""), "Cleaning a (background)");
    assert_eq!(said(CommandType::EnableAutostart, ""), "Enabled autostart for a");
    assert_eq!(said(CommandType::DisableAutostart, ""), "Disabled autostart for a");
    assert_eq!(said(CommandType::AddNode, "new"), "Added node: new");
    assert_eq!(said(CommandType::RemoveNode, ""), "Removed node: a");
    assert_eq!(said(CommandType::Refresh, ""), "Refreshed");

    let r = m.execute_command(cmd(CommandType::Start), None, Ok(String::new()), 3);
    assert!(r.success);
    assert_eq!(r.request_id, "req");
    assert_eq!(r.output, "");
    assert_eq!(r.timestamp_ms, 3);
    assert_eq!(r.responding_machine, "m1");
    assert_eq!(r.node_state.unwrap().name, "a");

    // A log comes with the state from before it was read.
    let r = m.execute_command(cmd(CommandType::GetLogs), None, Ok("x\ny".to_string()), 3);
    assert_eq!(r.message, "Logs retrieved");
    assert_eq!(r.output, "x\ny");
    assert!(r.node_state.is_none());

    let e = NodeManagerError::NodeNotFound("a".to_string());
    let r = m.execute_command(cmd(CommandType::Stop), None, Err(e), 4);
    assert!(!r.success);
    assert_eq!(r.message, "Node not found: a");
    assert_eq!(r.output, "");
}

#[test]
fn actions_give_events() {
    let event = |t: CommandType| plan_command(&command(t.to_code(), "a")).event("new");
    let some = |kind: &'static str, name: &str| Some((kind, name.to_string()));
    assert_eq!(event(CommandType::Start), some("started", "a"));
    assert_eq!(event(CommandType::Stop), some("stopped", "a"));
    assert_eq!(event(CommandType::Restart), some("restarted", "a"));
    assert_eq!(event(CommandType::Install), some("installed", "a"));
    assert_eq!(event(CommandType::Uninstall), some("uninstalled", "a"));
    assert_eq!(event(CommandType::Build), some("building", "a"));
    assert_eq!(event(CommandType::Clean), some("cleaning", "a"));
    assert_eq!(event(CommandType::EnableAutostart), some("autostart_enabled", "a"));
    assert_eq!(event(CommandType::DisableAutostart), some("autostart_disabled", "a"));
    assert_eq!(event(CommandType::AddNode), some("added", "new"));
    assert_eq!(event(CommandType::RemoveNode), some("removed", "a"));
    assert_eq!(event(CommandType::Refresh), None);
    assert_eq!(event(CommandType::GetLogs), None);
}

#[test]
fn events_tell_of_nodes_on_values() {
    let m = manager(&["a"]);
    let event = m.emit_event("started", "a", 12).unwrap();
    assert_eq!(event.event_type, "started");
    assert_eq!(event.state.unwrap().name, "a");
    assert!(m.emit_event("started", "b", 12).is_none());
}

#[test]
fn logs_are_asked_for_and_shown() {
    assert_eq!(
        journal_arguments("bubbaloop-a.service"),
        vec![
            "_SYSTEMD_USER_UNIT=bubbaloop-a.service",
            "-n",
            "50",
            "--no-pager",
            "-o",
            "cat"
        ]
    );
    assert_eq!(get_logs(b""), "No logs available");
    assert_eq!(get_logs(b"one\r\ntwo\n"), "one\ntwo");
    assert_eq!(get_logs(b"\n"), "");
    assert_eq!(get_logs(&[b'a', 0xff, b'\n', b'b']), "a\u{fffd}\nb");
    assert_eq!(show_log("x\n\ny"), "x\n\ny");
}

#[test]
fn bursts_are_sorted_and_deduplicated() {
    let job = |name: Option<&str>, result: &str| SystemdSignalEvent::JobRemoved {
        node_name: name.map(|n: &str| n.to_string()),
        result: result.to_string(),
    };
    let changes = vec![
        job(Some("b"), "done"),
        job(Some("a"), "failed"),
        job(Some("b"), "skipped"),
        job(None, "done"),
        SystemdSignalEvent::UnitNew { node_name: Some("a".to_string()) },
        job(Some("a"), "canceled"),
        SystemdSignalEvent::UnitRemoved { node_name: Some("a".to_string()) },
        SystemdSignalEvent::UnitNew { node_name: None },
    ];
    let burst = signal_burst(&changes);
    let shown: Vec<(&str, &str)> = burst
        .iter()
        .map(|(n, e)| (n.as_str(), e.as_str()))
        .collect();
    assert_eq!(
        shown,
        vec![
            ("a", "failed"),
            ("a", "installed"),
            ("a", "stopped"),
            ("a", "uninstalled"),
            ("b", "state_changed"),
        ]
    );
    // Each node is asked about once, however many events it has.
    assert_eq!(nodes_to_refresh(&burst), vec!["a", "b"]);
    assert!(nodes_to_refresh(&vec![]).is_empty());
}

#[test]
fn machines_have_names_and_addresses() {
    let m = Machine::new("m".to_string(), None, vec![]);
    assert_eq!(m.hostname, "unknown");
    assert_eq!(
        get_machine_ips(Some(b"10.0.0.1 fe80::1 \n")),
        vec!["10.0.0.1", "fe80::1"]
    );
    assert!(get_machine_ips(None).is_empty());
}

#[test]
fn time_is_read_in_milliseconds() {
    assert_eq!(timestamp(None), 0);
    assert_eq!(timestamp(Some(1_700_000_000_000)), 1_700_000_000_000);
    assert_eq!(timestamp(Some(1u128 << 64)), 0);
    let first = now_ms();
    let second = now_ms();
    assert!(first > 1_600_000_000_000);
    assert!(second >= first);
}

#[test]
fn actions_are_prepared() {
    let m = manager(&["a"]);
    let prepare = |t: CommandType, name: &str| m.prepare(&plan_command(&command(t.to_code(), name)));
    match prepare(CommandType::Install, "a") {
        Ok(Prepared::Plan(plan)) => assert_eq!(plan.path, "/opt/a"),
        other => panic!("unexpected: {:?}", other),
    }
    for t in [
        CommandType::Build,
        CommandType::Clean,
        CommandType::RemoveNode,
        CommandType::GetLogs,
    ] {
        match prepare(t, "a") {
            Ok(Prepared::Path(path)) => assert_eq!(path, "/opt/a"),
            other => panic!("unexpected: {:?}", other),
        }
        assert_eq!(prepare(t, "b").unwrap_err().to_string(), "Node not found: b");
    }
    assert!(prepare(CommandType::Install, "b").is_err());
    for t in [
        CommandType::Start,
        CommandType::Stop,
        CommandType::Restart,
        CommandType::Uninstall,
        CommandType::EnableAutostart,
        CommandType::DisableAutostart,
        CommandType::AddNode,
        CommandType::Refresh,
    ] {
        assert!(matches!(prepare(t, "b"), Ok(Prepared::Nothing)));
    }
}

#[test]
fn actions_refresh_at_their_time() {
    let refresh = |t: CommandType| plan_command(&command(t.to_code(), "a")).refresh();
    for t in [
        CommandType::Start,
        CommandType::Stop,
        CommandType::Restart,
        CommandType::Install,
        CommandType::Uninstall,
    ] {
        assert_eq!(refresh(t), Refresh::After);
    }
    for t in [
        CommandType::EnableAutostart,
        CommandType::DisableAutostart,
        CommandType::AddNode,
        CommandType::RemoveNode,
        CommandType::Refresh,
    ] {
        assert_eq!(refresh(t), Refresh::Before);
    }
    assert_eq!(refresh(CommandType::Build), Refresh::WhenDone);
    assert_eq!(refresh(CommandType::Clean), Refresh::WhenDone);
    assert_eq!(refresh(CommandType::GetLogs), Refresh::Never);
}

#[test]
fn services_are_named_after_nodes() {
    assert_eq!(get_service_name("cam"), "bubbaloop-cam.service");
    assert_eq!(node_of_service("bubbaloop-cam.service"), Some("cam".to_string()));
    assert_eq!(node_of_service("bubbaloop-.service"), Some(String::new()));
    assert_eq!(node_of_service("bubbaloop-cam.timer"), None);
    assert_eq!(node_of_service("ssh.service"), None);
    assert_eq!(node_of_service("bubbaloop.service"), None);
    assert_eq!(ActiveState::from_word("active"), ActiveState::Active);
    assert_eq!(ActiveState::from_word("inactive"), ActiveState::Inactive);
    assert_eq!(ActiveState::from_word("failed"), ActiveState::Failed);
    assert_eq!(ActiveState::from_word("activating"), ActiveState::Activating);
    assert_eq!(ActiveState::from_word("deactivating"), ActiveState::Deactivating);
    assert_eq!(ActiveState::from_word("reloading"), ActiveState::Other);
}

#[test]
fn output_tells_the_activity_on_values() {
    let mut m = manager(&["a"]);
    m.push_output("a", "old".to_string());
    m.begin_build_activity("a", BuildStatus::Building).unwrap();
    for i in 0..103 {
        m.push_output("a", format!("{}", i));
    }
    m.finish_build_activity("a", &Ok(()), "Build");
    let output = m.get_node("a").unwrap().build_output;
    assert_eq!(output.len(), 101);
    assert_eq!(output[0], "3");
    assert_eq!(output[99], "102");
    assert_eq!(output[100], "--- Build completed successfully ---");
}

#[test]
fn wire_numbers_are_read_back() {
    for code in 0..6 {
        assert_eq!(NodeStatus::from_code(code).unwrap().to_code(), code);
    }
    assert_eq!(NodeStatus::from_code(6), None);
    assert_eq!(NodeStatus::from_code(-1), None);
    for code in 0..3 {
        assert_eq!(HealthStatus::from_code(code).unwrap().to_code(), code);
    }
    assert_eq!(HealthStatus::from_code(3), None);
    for code in 0..13 {
        assert_eq!(CommandType::from_code(code).unwrap().to_code(), code);
        assert_eq!(command_type(code).to_code(), code);
    }
    assert_eq!(CommandType::from_code(13), None);
}

#[test]
fn refresh_is_idempotent_on_values() {
    let mut m = manager(&["a"]);
    let regs = || Ok(vec![registered("b"), registered("c")]);
    m.refresh_all(regs()).unwrap();
    let once = names(&m);
    m.refresh_all(regs()).unwrap();
    assert_eq!(names(&m), once);
    assert_eq!(m.get_node("b").unwrap().path, "/opt/b");
}

#[test]
fn refusals_are_answered() {
    let m = manager(&["a"]);
    let refused = |t: CommandType, name: &str, e: NodeManagerError| {
        m.execute_command(command(t.to_code(), name), None, Err(e), 1)
    };
    let e = m.prepare(&plan_command(&command(CommandType::Build.to_code(), "b"))).unwrap_err();
    let r = refused(CommandType::Build, "b", e);
    assert!(!r.success);
    assert_eq!(r.message, "Node not found: b");
    assert!(r.node_state.is_none());
    let r = refused(
        CommandType::Clean,
        "a",
        NodeManagerError::AlreadyBuilding("a".to_string()),
    );
    assert_eq!(r.message, "Build already in progress for: a");
    assert_eq!(r.node_state.unwrap().name, "a");
}

#[test]
fn accepted_commands_take_more_text_and_any_case() {
    for cmd in ["cargo build", "Pixi run x", "npm i", "MAKE ", "python \u{e9}", "pip x"] {
        assert!(validate_build_command(cmd).is_ok(), "{}", cmd);
        assert!(validate_build_command(&cmd.to_ascii_uppercase()).is_ok(), "{}", cmd);
        for more in ["", " --release", "\u{e9}\u{3a3}", "\u{212a}"] {
            let longer = format!("{}{}", cmd, more);
            assert!(validate_build_command(&longer).is_ok(), "{}", longer);
        }
        for bad in "$`|;&><(){}!\\\n\r".chars() {
            let broken = format!("{}{} x", cmd, bad);
            assert!(validate_build_command(&broken).is_err(), "{:?}", broken);
        }
    }
    assert!(validate_build_command("cargo").is_err());
    assert!(validate_build_command("CARG").is_err());
}

#[test]
fn restarted_nodes_are_judged_by_their_last_heartbeat() {
    let mut m = NodeManager::new(machine(), Ok(vec![registered("a")])).unwrap();
    m.record_heartbeat("bubbaloop/nodes/a/health", 2_000);
    m.refresh_node("a", unit(ActiveState::Inactive), 3_000);
    m.refresh_node("a", unit(ActiveState::Active), 9_000);
    assert!(m.check_staleness(32_000).is_empty());
    assert_eq!(health(&m, "a"), HealthStatus::Healthy);
    assert_eq!(m.check_staleness(32_001), vec!["a".to_string()]);
    assert_eq!(health(&m, "a"), HealthStatus::Unhealthy);
    assert_eq!(m.get_node("a").unwrap().last_health_check_ms, 2_000);
}

#[test]
fn tools_spelt_with_other_letters_take_more_text() {
    // The Kelvin sign is a k in lower case.
    let make = "ma\u{212a}e all";
    assert!(validate_build_command(make).is_ok());
    for more in ["", " x", "\u{3a3}", "\u{3a3} y", "\u{130}"] {
        assert!(validate_build_command(&format!("{}{}", make, more)).is_ok(), "{}", more);
    }
    assert!(validate_build_command(&format!("{};", make)).is_err());
}
