use bubbaloop::daemon::commands::{plan_command, Action};
use bubbaloop::daemon::registry::NodeManifest;
use bubbaloop::mcp::platform::{
    add_node, add_node_request, added_node, execute_command, execute_request, get_manifests,
    get_node_config, get_node_detail, install_node, install_request, list_nodes,
    marketplace_error, publish_error, remove_node, remove_request, send_zenoh_query,
    zenoh_get_text, DaemonPlatform, MarketplaceFailure, NodeCommand, NodeConfig, NodeInfo,
    PlatformError, Reply, Source,
};
use bubbaloop::schemas::{
    CommandResult, CommandType, HealthStatus, NodeList, NodeState, NodeStatus,
};

#[test]
fn error_display_node_not_found() {
    let err = PlatformError::NodeNotFound("my-node".to_string());
    assert_eq!(err.to_string(), "Node not found: my-node");
}

#[test]
fn error_display_command_failed() {
    let err = PlatformError::CommandFailed("build timed out".to_string());
    assert_eq!(err.to_string(), "Command failed: build timed out");
}

#[test]
fn error_display_invalid_input() {
    let err = PlatformError::InvalidInput("bad name".to_string());
    assert_eq!(err.to_string(), "Invalid input: bad name");
}

#[test]
fn error_display_internal() {
    let err = PlatformError::Internal("panic in worker".to_string());
    assert_eq!(err.to_string(), "Internal error: panic in worker");
}

#[test]
fn error_is_debug_send_sync() {
    fn assert_send_sync<T: std::fmt::Debug + Send + Sync>() {}
    assert_send_sync::<PlatformError>();
}

#[test]
fn node_command_all_variants_exist() {
    // Ensure all ten command variants are constructible and debug-printable
    let cmds = vec![
        NodeCommand::Start,
        NodeCommand::Stop,
        NodeCommand::Restart,
        NodeCommand::Build,
        NodeCommand::GetLogs,
        NodeCommand::Install,
        NodeCommand::Uninstall,
        NodeCommand::Clean,
        NodeCommand::EnableAutostart,
        NodeCommand::DisableAutostart,
    ];
    assert_eq!(cmds.len(), 10);
    for cmd in &cmds {
        let debug = format!("{:?}", cmd);
        assert!(!debug.is_empty());
    }
}

fn state(name: &str, status: i32, health: i32) -> NodeState {
    NodeState {
        name: name.to_string(),
        path: "/opt/x".to_string(),
        status,
        installed: true,
        autostart_enabled: false,
        version: "1.2.3".to_string(),
        description: "d".to_string(),
        node_type: "rust".to_string(),
        is_built: false,
        last_updated_ms: 11,
        build_output: vec![],
        health_status: health,
        last_health_check_ms: 22,
        machine_id: "m1".to_string(),
        machine_hostname: "h1".to_string(),
        machine_ips: vec![],
        base_node: String::new(),
        config_override: String::new(),
    }
}

fn answer(success: bool, message: &str, output: &str) -> CommandResult {
    CommandResult {
        request_id: "r".to_string(),
        success,
        message: message.to_string(),
        output: output.to_string(),
        node_state: None,
        timestamp_ms: 0,
        responding_machine: "m1".to_string(),
    }
}

#[test]
fn lists_show_labels() {
    let list = NodeList {
        nodes: vec![
            state("a", NodeStatus::Running.to_code(), HealthStatus::Healthy.to_code()),
            state("b", NodeStatus::NotInstalled.to_code(), HealthStatus::Unhealthy.to_code()),
            state("c", 99, -1),
        ],
        timestamp_ms: 0,
        machine_id: "m1".to_string(),
    };
    let infos = list_nodes(&list);
    let shown: Vec<(&str, &str, &str)> = infos
        .iter()
        .map(|i: &NodeInfo| (i.name.as_str(), i.status.as_str(), i.health.as_str()))
        .collect();
    assert_eq!(
        shown,
        vec![
            ("a", "Running", "Healthy"),
            ("b", "NotInstalled", "Unhealthy"),
            ("c", "Unknown", "Unknown"),
        ]
    );
    assert!(infos[0].installed);
    assert!(!infos[0].is_built);
}

#[test]
fn details_tell_everything_or_not_found() {
    let node = state("a", NodeStatus::Failed.to_code(), HealthStatus::Unknown.to_code());
    let detail = get_node_detail(Some(node), "a").unwrap();
    assert_eq!(detail.status, "Failed");
    assert_eq!(detail.health_status, "Unknown");
    assert_eq!(detail.last_health_check_ms, 22);
    assert_eq!(detail.last_updated_ms, 11);
    assert_eq!(detail.path, "/opt/x");
    assert_eq!(detail.version, "1.2.3");
    assert_eq!(detail.description, "d");
    assert_eq!(detail.machine_id, "m1");
    match get_node_detail(None, "ghost") {
        Err(PlatformError::NodeNotFound(name)) => assert_eq!(name, "ghost"),
        other => panic!("unexpected: {:?}", other),
    }
}

fn looks_like_uuid(s: &str) -> bool {
    s.len() == 36
        && s.chars().enumerate().all(|(i, c)| {
            if i == 8 || i == 13 || i == 18 || i == 23 {
                c == '-'
            } else {
                c.is_ascii_hexdigit() && !c.is_ascii_uppercase()
            }
        })
        && s.as_bytes()[14] == b'4'
        && b"89ab".contains(&s.as_bytes()[19])
}

#[test]
fn requests_are_named_and_dated() {
    let first = execute_request("cam", NodeCommand::Stop);
    let second = execute_request("cam", NodeCommand::Stop);
    assert!(looks_like_uuid(&first.request_id));
    assert!(looks_like_uuid(&second.request_id));
    assert_ne!(first.request_id, second.request_id);
    assert!(first.timestamp_ms > 1_600_000_000_000);
    assert!(second.timestamp_ms >= first.timestamp_ms);
    assert_eq!(first.command, CommandType::Stop.to_code());
    assert_eq!(first.node_name, "cam");
    assert_eq!(first.source_machine, "mcp-platform");
    assert_eq!(first.target_machine, "");
    assert_eq!(first.node_path, "");
}

#[test]
fn commands_reach_their_action_on_values() {
    match plan_command(&execute_request("cam", NodeCommand::GetLogs)) {
        Action::GetLogs(name) => assert_eq!(name, "cam"),
        other => panic!("unexpected: {:?}", other),
    }
    match plan_command(&remove_request("cam")) {
        Action::RemoveNode(name) => assert_eq!(name, "cam"),
        other => panic!("unexpected: {:?}", other),
    }
    match plan_command(&install_request("cam")) {
        Action::Install(name) => assert_eq!(name, "cam"),
        other => panic!("unexpected: {:?}", other),
    }
    match plan_command(&add_node_request("/opt/cam", Some("cam-1"), Some(""))) {
        Action::AddNode {
            path,
            name_override,
            config_override,
        } => {
            assert_eq!(path, "/opt/cam");
            assert_eq!(name_override, Some("cam-1".to_string()));
            assert_eq!(config_override, None);
        }
        other => panic!("unexpected: {:?}", other),
    }
}

#[test]
fn replies_join_message_and_output() {
    assert_eq!(execute_command(answer(true, "Started cam", "")).unwrap(), "Started cam");
    assert_eq!(
        execute_command(answer(true, "Logs retrieved", "a\nb")).unwrap(),
        "Logs retrieved\na\nb"
    );
    match execute_command(answer(false, "no", "x")) {
        Err(PlatformError::CommandFailed(m)) => assert_eq!(m, "no"),
        other => panic!("unexpected: {:?}", other),
    }
    assert_eq!(add_node(answer(true, "Added node: a", "x")).unwrap(), "Added node: a");
    assert!(add_node(answer(false, "no", "")).is_err());
    assert_eq!(remove_node(answer(true, "Removed node: a", "")).unwrap(), "Removed node: a");
    assert!(remove_node(answer(false, "no", "")).is_err());
}

#[test]
fn installing_reads_the_added_name() {
    assert_eq!(added_node(answer(true, "Added node: cam ", "")).unwrap(), "cam");
    assert_eq!(added_node(answer(true, "  cam\n", "")).unwrap(), "cam");
    assert!(added_node(answer(false, "no", "")).is_err());
    assert_eq!(
        install_node("cam", Source::Place, &answer(true, "Installed cam", "")).unwrap(),
        "cam"
    );
    match install_node("cam", Source::Place, &answer(false, "boom", "")) {
        Err(PlatformError::CommandFailed(m)) => {
            assert_eq!(m, "Node 'cam' registered but install failed: boom")
        }
        other => panic!("unexpected: {:?}", other),
    }
    assert_eq!(
        install_node("cam", Source::Marketplace, &answer(true, "", "")).unwrap(),
        "Installed 'cam' from marketplace (registered + systemd service created)"
    );
    match install_node("cam", Source::Marketplace, &answer(false, "boom", "")) {
        Err(PlatformError::CommandFailed(m)) => {
            assert_eq!(m, "Node 'cam' registered but service install failed: boom")
        }
        other => panic!("unexpected: {:?}", other),
    }
}

#[test]
fn marketplace_failures_are_told() {
    assert_eq!(
        marketplace_error("cam", MarketplaceFailure::Refresh("x".to_string())).to_string(),
        "Command failed: Registry refresh failed: x"
    );
    assert_eq!(
        marketplace_error("cam", MarketplaceFailure::NotFound).to_string(),
        "Command failed: Node 'cam' not found in marketplace registry"
    );
    assert_eq!(
        marketplace_error("cam", MarketplaceFailure::Download("x".to_string())).to_string(),
        "Command failed: Download failed for 'cam': x"
    );
    assert_eq!(
        marketplace_error("cam", MarketplaceFailure::Join("x".to_string())).to_string(),
        "Internal error: Task join error: x"
    );
    assert_eq!(publish_error("x").to_string(), "Internal error: Zenoh put failed: x");
}

fn sample(key: &str, payload: &[u8]) -> Reply {
    Reply::Sample {
        key: key.to_string(),
        payload: payload.to_vec(),
    }
}

#[test]
fn query_replies_become_text() {
    let replies = Ok(vec![
        sample("a/b", "h\u{e4}".as_bytes()),
        sample("c", &[0xff, 0xfe, 0x00]),
        Reply::Failure { payload: vec![1, 20, 255] },
        Reply::Failure { payload: vec![] },
    ]);
    assert_eq!(
        zenoh_get_text(&replies),
        "[a/b] h\u{e4}\n[c] <3 bytes binary>\nError: [1, 20, 255]\nError: []"
    );
    assert_eq!(
        send_zenoh_query(&replies).unwrap(),
        vec![
            "h\u{e4}".to_string(),
            "<3 bytes binary>".to_string(),
            format!("Error: {:?}", vec![1u8, 20, 255]),
            format!("Error: {:?}", Vec::<u8>::new()),
        ]
    );
    assert_eq!(zenoh_get_text(&Ok(vec![])), "No responses received");
    assert!(send_zenoh_query(&Ok(vec![])).unwrap().is_empty());
    let failed = Err("down".to_string());
    assert_eq!(zenoh_get_text(&failed), "Zenoh query failed: down");
    assert_eq!(
        send_zenoh_query(&failed).unwrap_err().to_string(),
        "Internal error: Zenoh query failed: down"
    );
}

#[test]
fn configurations_are_json_or_raw() {
    let platform = DaemonPlatform {
        scope: "local".to_string(),
        machine_id: "m1".to_string(),
    };
    assert_eq!(platform.config_key("cam"), "bubbaloop/local/m1/cam/config");
    // A reply is shown behind its key, which makes it JSON only by chance.
    let told = Ok(vec![sample("1", b""), sample("2", b"")]);
    match get_node_config(&told) {
        NodeConfig::Raw(text) => assert_eq!(text, "[1] \n[2] "),
        other => panic!("unexpected: {:?}", other),
    }
    match get_node_config(&Ok(vec![sample("1", b"")])) {
        NodeConfig::Json(text) => assert_eq!(text, "[1] "),
        other => panic!("unexpected: {:?}", other),
    }
    match get_node_config(&Ok(vec![])) {
        NodeConfig::Raw(text) => assert_eq!(text, "No responses received"),
        other => panic!("unexpected: {:?}", other),
    }
}

#[test]
fn manifests_are_filtered_by_capability() {
    let with = |name: &str, capabilities: &[&str]| {
        (
            name.to_string(),
            NodeManifest {
                name: name.to_string(),
                capabilities: capabilities.iter().map(|c| c.to_string()).collect(),
                ..Default::default()
            },
        )
    };
    let all = vec![
        with("a", &["sensor", "actuator"]),
        with("b", &[]),
        with("c", &["sensor"]),
    ];
    let names = |found: Vec<(String, NodeManifest)>| -> Vec<String> {
        found.into_iter().map(|(name, _)| name).collect()
    };
    assert_eq!(names(get_manifests(&all, None)), vec!["a", "b", "c"]);
    assert_eq!(names(get_manifests(&all, Some("SENSOR"))), vec!["a", "c"]);
    assert_eq!(names(get_manifests(&all, Some("actuator"))), vec!["a"]);
    assert!(get_manifests(&all, Some("gateway")).is_empty());
}
