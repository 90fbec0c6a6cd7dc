use bubbaloop::daemon::registry::NodeManifest;
use bubbaloop::mcp::mock::MockPlatform;
use bubbaloop::mcp::platform::{NodeCommand, NodeInfo, PlatformError};

fn mock_with_nodes(nodes: Vec<NodeInfo>) -> MockPlatform {
    MockPlatform {
        nodes,
        manifests: Vec::new(),
        configs: Vec::new(),
    }
}

#[test]
fn list_nodes_returns_default_node() {
    let mock = MockPlatform::new();
    let nodes = mock.list_nodes().unwrap();
    assert_eq!(nodes.len(), 1);
    assert_eq!(nodes[0].name, "test-node");
    assert_eq!(nodes[0].status, "Running");
    assert_eq!(nodes[0].health, "Healthy");
    assert_eq!(nodes[0].node_type, "rust");
    assert!(nodes[0].installed);
    assert!(nodes[0].is_built);
}

#[test]
fn list_nodes_empty() {
    let mock = mock_with_nodes(vec![]);
    let nodes = mock.list_nodes().unwrap();
    assert!(nodes.is_empty());
}

#[test]
fn list_nodes_multiple() {
    let nodes = vec![
        NodeInfo {
            name: "camera".to_string(),
            status: "Running".to_string(),
            health: "Healthy".to_string(),
            node_type: "python".to_string(),
            installed: true,
            is_built: true,
        },
        NodeInfo {
            name: "detector".to_string(),
            status: "Stopped".to_string(),
            health: "Unknown".to_string(),
            node_type: "rust".to_string(),
            installed: true,
            is_built: false,
        },
        NodeInfo {
            name: "tracker".to_string(),
            status: "Building".to_string(),
            health: "Unknown".to_string(),
            node_type: "python".to_string(),
            installed: false,
            is_built: false,
        },
    ];
    let mock = mock_with_nodes(nodes);
    let result = mock.list_nodes().unwrap();
    assert_eq!(result.len(), 3);
    assert_eq!(result[0].name, "camera");
    assert_eq!(result[1].name, "detector");
    assert_eq!(result[2].name, "tracker");
}

#[test]
fn get_node_detail_existing() {
    let mock = MockPlatform::new();
    let detail = mock.get_node_detail("test-node").unwrap();
    assert_eq!(detail.name, "test-node");
    assert_eq!(detail.status, "Running");
    assert_eq!(detail.health, "Healthy");
    assert_eq!(detail.node_type, "rust");
    assert_eq!(detail.installed, true);
    assert_eq!(detail.is_built, true);
}

#[test]
fn get_node_detail_missing() {
    let mock = MockPlatform::new();
    let err = mock.get_node_detail("missing-node").unwrap_err();
    match err {
        PlatformError::NodeNotFound(name) => assert_eq!(name, "missing-node"),
        other => panic!("Expected NodeNotFound, got: {:?}", other),
    }
}

#[test]
fn get_node_detail_selects_correct_node() {
    let nodes = vec![
        NodeInfo {
            name: "alpha".to_string(),
            status: "Running".to_string(),
            health: "Healthy".to_string(),
            node_type: "rust".to_string(),
            installed: true,
            is_built: true,
        },
        NodeInfo {
            name: "beta".to_string(),
            status: "Stopped".to_string(),
            health: "Unknown".to_string(),
            node_type: "python".to_string(),
            installed: false,
            is_built: false,
        },
    ];
    let mock = mock_with_nodes(nodes);
    let detail = mock.get_node_detail("beta").unwrap();
    assert_eq!(detail.name, "beta");
    assert_eq!(detail.status, "Stopped");
}

#[test]
fn execute_command_start() {
    let mock = MockPlatform::new();
    let msg = mock.execute_command("test-node", NodeCommand::Start).unwrap();
    assert_eq!(msg, "mock: Start executed");
}

#[test]
fn execute_command_stop() {
    let mock = MockPlatform::new();
    let msg = mock.execute_command("test-node", NodeCommand::Stop).unwrap();
    assert_eq!(msg, "mock: Stop executed");
}

#[test]
fn execute_command_restart() {
    let mock = MockPlatform::new();
    let msg = mock.execute_command("test-node", NodeCommand::Restart).unwrap();
    assert_eq!(msg, "mock: Restart executed");
}

#[test]
fn execute_command_build() {
    let mock = MockPlatform::new();
    let msg = mock.execute_command("test-node", NodeCommand::Build).unwrap();
    assert_eq!(msg, "mock: Build executed");
}

#[test]
fn execute_command_get_logs() {
    let mock = MockPlatform::new();
    let msg = mock.execute_command("test-node", NodeCommand::GetLogs).unwrap();
    assert_eq!(msg, "mock: GetLogs executed");
}

#[test]
fn execute_command_install() {
    let mock = MockPlatform::new();
    let msg = mock.execute_command("test-node", NodeCommand::Install).unwrap();
    assert_eq!(msg, "mock: Install executed");
}

#[test]
fn execute_command_uninstall() {
    let mock = MockPlatform::new();
    let msg = mock.execute_command("test-node", NodeCommand::Uninstall).unwrap();
    assert_eq!(msg, "mock: Uninstall executed");
}

#[test]
fn execute_command_clean() {
    let mock = MockPlatform::new();
    let msg = mock.execute_command("test-node", NodeCommand::Clean).unwrap();
    assert_eq!(msg, "mock: Clean executed");
}

#[test]
fn execute_command_enable_autostart() {
    let mock = MockPlatform::new();
    let msg = mock
        .execute_command("test-node", NodeCommand::EnableAutostart)
        .unwrap();
    assert_eq!(msg, "mock: EnableAutostart executed");
}

#[test]
fn execute_command_disable_autostart() {
    let mock = MockPlatform::new();
    let msg = mock
        .execute_command("test-node", NodeCommand::DisableAutostart)
        .unwrap();
    assert_eq!(msg, "mock: DisableAutostart executed");
}

#[test]
fn install_from_marketplace_mock() {
    let mock = MockPlatform::new();
    let msg = mock.install_from_marketplace("rtsp-camera").unwrap();
    assert!(msg.contains("rtsp-camera"));
    assert!(msg.contains("marketplace"));
}

#[test]
fn execute_command_missing_node() {
    let mock = MockPlatform::new();
    let err = mock.execute_command("ghost", NodeCommand::Start).unwrap_err();
    match err {
        PlatformError::NodeNotFound(name) => assert_eq!(name, "ghost"),
        other => panic!("Expected NodeNotFound, got: {:?}", other),
    }
}

#[test]
fn get_node_config_existing() {
    let mut mock = MockPlatform::new();
    mock.set_config("test-node", "{\"fps\": 30, \"resolution\": \"1080p\"}");
    let config = mock.get_node_config("test-node").unwrap();
    let config: serde_json::Value = serde_json::from_str(&config).unwrap();
    assert_eq!(config["fps"], 30);
    assert_eq!(config["resolution"], "1080p");
}

#[test]
fn get_node_config_missing() {
    let mock = MockPlatform::new();
    let err = mock.get_node_config("no-config").unwrap_err();
    assert!(matches!(err, PlatformError::NodeNotFound(_)));
}

#[test]
fn config_round_trip() {
    let mut mock = MockPlatform::new();
    let original: serde_json::Value = serde_json::from_str(
        "{\"capture_mode\": \"continuous\", \"interval_ms\": 100, \"enabled\": true, \
         \"tags\": [\"cam1\", \"front\"]}",
    )
    .unwrap();
    mock.set_config("my-cam", &original.to_string());
    let retrieved = mock.get_node_config("my-cam").unwrap();
    let retrieved: serde_json::Value = serde_json::from_str(&retrieved).unwrap();
    assert_eq!(retrieved, original);
}

#[test]
fn query_zenoh_formats_key() {
    let mock = MockPlatform::new();
    let result = mock
        .query_zenoh("bubbaloop/local/jetson1/openmeteo/status")
        .unwrap();
    assert_eq!(
        result,
        "mock: query bubbaloop/local/jetson1/openmeteo/status"
    );
}

#[test]
fn query_zenoh_wildcard() {
    let mock = MockPlatform::new();
    let result = mock.query_zenoh("bubbaloop/**/manifest").unwrap();
    assert!(result.contains("bubbaloop/**/manifest"));
}

#[test]
fn mock_platform_default_matches_new() {
    let from_new = MockPlatform::new();
    let from_default = MockPlatform::default();
    let nodes_new = &from_new.nodes;
    let nodes_default = &from_default.nodes;
    assert_eq!(nodes_new.len(), nodes_default.len());
    assert_eq!(nodes_new[0].name, nodes_default[0].name);
}

#[test]
fn later_configurations_win() {
    let mut mock = MockPlatform::new();
    mock.set_config("a", "1");
    mock.set_config("b", "2");
    mock.set_config("a", "3");
    assert_eq!(mock.get_node_config("a").unwrap(), "3");
    assert_eq!(mock.get_node_config("b").unwrap(), "2");
}

#[test]
fn removed_nodes_are_gone_on_values() {
    let mut mock = MockPlatform::new();
    mock.nodes.push(NodeInfo {
        name: "other".to_string(),
        status: "Stopped".to_string(),
        health: "Unknown".to_string(),
        node_type: "rust".to_string(),
        installed: false,
        is_built: false,
    });
    assert_eq!(mock.remove_node("test-node").unwrap(), "mock: removed node test-node");
    assert!(mock.get_node_detail("test-node").is_err());
    assert!(mock.get_node_detail("other").is_ok());
    assert!(mock.remove_node("test-node").is_err());
}

#[test]
fn messages_of_the_mock() {
    let mock = MockPlatform::new();
    assert_eq!(mock.install_node("/opt/x").unwrap(), "mock: installed node from /opt/x");
    assert_eq!(mock.add_node("/opt/x", None, None).unwrap(), "mock: added node /opt/x");
    assert_eq!(
        mock.add_node("/opt/x", Some("y"), Some("z")).unwrap(),
        "mock: added node y"
    );
    assert_eq!(
        mock.send_zenoh_query("k", vec![1]).unwrap(),
        vec!["mock: zenoh_query k".to_string()]
    );
    assert!(mock.publish_to_topic("t", "m").is_ok());
}

#[test]
fn mock_manifests_ignore_case() {
    let mut mock = MockPlatform::new();
    mock.manifests.push((
        "cam".to_string(),
        NodeManifest {
            capabilities: vec!["Actuator".to_string()],
            ..Default::default()
        },
    ));
    assert_eq!(mock.get_manifests(None).unwrap().len(), 2);
    let found = mock.get_manifests(Some("ACTUATOR")).unwrap();
    assert_eq!(found.len(), 1);
    assert_eq!(found[0].0, "cam");
    assert_eq!(mock.get_manifests(Some("Sensor")).unwrap()[0].0, "test-node");
    assert!(mock.get_manifests(Some("none")).unwrap().is_empty());
}

#[test]
fn default_manifest_is_complete() {
    let mock = MockPlatform::new();
    let (name, manifest) = &mock.manifests[0];
    assert_eq!(name, "test-node");
    assert_eq!(manifest.version, "1.0.0");
    assert_eq!(manifest.capabilities, vec!["sensor".to_string()]);
    assert!(manifest.publishes.is_empty());
    assert!(manifest.subscribes.is_empty());
    assert!(manifest.commands.is_empty());
}
