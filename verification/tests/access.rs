use bubbaloop::mcp::rbac::{required_tier, Tier};
use bubbaloop::validation::{
    validate_node_name, validate_publish_topic, validate_query_key_expr, validate_rule_name,
    validate_trigger_pattern,
};

#[test]
fn validate_node_name_simple() {
    assert!(validate_node_name("my-node").is_ok());
}

#[test]
fn validate_node_name_with_underscores() {
    assert!(validate_node_name("rtsp_camera_01").is_ok());
}

#[test]
fn validate_node_name_max_length() {
    let name = "a".repeat(64);
    assert!(validate_node_name(&name).is_ok());
}

#[test]
fn validate_node_name_single_char() {
    assert!(validate_node_name("x").is_ok());
}

#[test]
fn validate_node_name_empty_rejected() {
    let err = validate_node_name("").unwrap_err();
    assert!(err.contains("1-64 characters"));
}

#[test]
fn validate_node_name_too_long_rejected() {
    let name = "a".repeat(65);
    let err = validate_node_name(&name).unwrap_err();
    assert!(err.contains("1-64 characters"));
}

#[test]
fn validate_node_name_path_traversal_rejected() {
    assert!(validate_node_name("../../../etc/passwd").is_err());
}

#[test]
fn validate_node_name_special_chars_rejected() {
    assert!(validate_node_name("node;rm -rf /").is_err());
    assert!(validate_node_name("node$HOME").is_err());
    assert!(validate_node_name("node<script>").is_err());
}

#[test]
fn validate_node_name_spaces_rejected() {
    assert!(validate_node_name("my node").is_err());
}

#[test]
fn validate_node_name_slash_rejected() {
    assert!(validate_node_name("a/b").is_err());
}

#[test]
fn validate_query_key_expr_valid_full_path() {
    assert!(validate_query_key_expr(
        "bubbaloop/local/jetson1/openmeteo/status"
    )
    .is_ok());
}

#[test]
fn validate_query_key_expr_valid_wildcard() {
    assert!(
        validate_query_key_expr("bubbaloop/**/telemetry/status").is_ok()
    );
}

#[test]
fn validate_query_key_expr_wildcard_only_rejected() {
    assert!(validate_query_key_expr("bubbaloop/**").is_err());
    assert!(validate_query_key_expr("bubbaloop/*").is_err());
}

#[test]
fn validate_query_key_expr_missing_prefix() {
    let err = validate_query_key_expr("other/path").unwrap_err();
    assert!(err.contains("bubbaloop/"));
}

#[test]
fn validate_query_key_expr_too_long() {
    let long_key = format!("bubbaloop/{}", "a".repeat(510));
    assert!(validate_query_key_expr(&long_key).is_err());
}

#[test]
fn validate_query_key_expr_empty() {
    assert!(validate_query_key_expr("").is_err());
}

#[test]
fn validate_rule_name_valid() {
    assert!(validate_rule_name("high-temp-alert").is_ok());
    assert!(validate_rule_name("cpu_monitor_01").is_ok());
}

#[test]
fn validate_rule_name_empty_rejected() {
    assert!(validate_rule_name("").is_err());
}

#[test]
fn validate_rule_name_special_chars_rejected() {
    assert!(validate_rule_name("rule with spaces").is_err());
    assert!(validate_rule_name("rule/slash").is_err());
    assert!(validate_rule_name("rule.dot").is_err());
}

#[test]
fn validate_rule_name_too_long_rejected() {
    let name = "r".repeat(65);
    assert!(validate_rule_name(&name).is_err());
}

#[test]
fn validate_trigger_pattern_valid() {
    assert!(
        validate_trigger_pattern("bubbaloop/**/telemetry/status").is_ok()
    );
    assert!(
        validate_trigger_pattern("bubbaloop/local/node1/metrics").is_ok()
    );
}

#[test]
fn validate_trigger_pattern_empty_rejected() {
    assert!(validate_trigger_pattern("").is_err());
}

#[test]
fn validate_trigger_pattern_wrong_prefix() {
    assert!(validate_trigger_pattern("**").is_err());
    assert!(validate_trigger_pattern("other/topic").is_err());
}

#[test]
fn validate_trigger_pattern_too_long() {
    let long_trigger = format!("bubbaloop/{}", "a".repeat(260));
    assert!(validate_trigger_pattern(&long_trigger).is_err());
}

#[test]
fn validate_publish_topic_valid() {
    assert!(
        validate_publish_topic("bubbaloop/local/jetson1/my-node/data")
            .is_ok()
    );
}

#[test]
fn validate_publish_topic_wildcards_rejected() {
    assert!(validate_publish_topic("bubbaloop/*/data").is_err());
    assert!(validate_publish_topic("bubbaloop/**/data").is_err());
}

#[test]
fn validate_publish_topic_missing_prefix() {
    let err = validate_publish_topic("other/topic").unwrap_err();
    assert!(err.contains("bubbaloop/"));
}

#[test]
fn validate_publish_topic_empty() {
    assert!(validate_publish_topic("").is_err());
}

#[test]
fn validate_publish_topic_invalid_chars() {
    assert!(validate_publish_topic("bubbaloop/bad topic!").is_err());
}

#[test]
fn rbac_all_viewer_tools_mapped() {
    let viewer_tools = [
        "list_nodes",
        "get_node_health",
        "discover_nodes",
        "get_node_manifest",
        "list_commands",
        "get_stream_info",
        "get_system_status",
        "get_machine_info",
        "get_node_schema",
        "discover_capabilities",
    ];
    for tool in &viewer_tools {
        assert_eq!(
            required_tier(tool),
            Tier::Viewer,
            "Tool '{}' should be Viewer tier",
            tool
        );
    }
}

#[test]
fn rbac_all_operator_tools_mapped() {
    let operator_tools = [
        "start_node",
        "stop_node",
        "restart_node",
        "get_node_config",
        "send_command",
        "get_node_logs",
        "enable_autostart",
        "disable_autostart",
    ];
    for tool in &operator_tools {
        assert_eq!(
            required_tier(tool),
            Tier::Operator,
            "Tool '{}' should be Operator tier",
            tool
        );
    }
}

#[test]
fn rbac_all_admin_tools_mapped() {
    let admin_tools = [
        "query_zenoh",
        "install_node",
        "remove_node",
        "build_node",
        "uninstall_node",
        "clean_node",
    ];
    for tool in &admin_tools {
        assert_eq!(
            required_tier(tool),
            Tier::Admin,
            "Tool '{}' should be Admin tier",
            tool
        );
    }
}

#[test]
fn rbac_unknown_tool_defaults_to_admin() {
    assert_eq!(
        required_tier("totally_unknown_tool"),
        Tier::Admin
    );
    assert_eq!(
        required_tier(""),
        Tier::Admin
    );
}

#[test]
fn rbac_tier_ordering_consistent() {
    // Admin >= Operator >= Viewer
    assert!(Tier::Admin.has_permission(Tier::Admin));
    assert!(Tier::Admin.has_permission(Tier::Operator));
    assert!(Tier::Admin.has_permission(Tier::Viewer));
    assert!(!Tier::Operator.has_permission(Tier::Admin));
    assert!(Tier::Operator.has_permission(Tier::Operator));
    assert!(Tier::Operator.has_permission(Tier::Viewer));
    assert!(!Tier::Viewer.has_permission(Tier::Admin));
    assert!(!Tier::Viewer.has_permission(Tier::Operator));
    assert!(Tier::Viewer.has_permission(Tier::Viewer));
}

#[test]
fn faults_are_told_in_words() {
    assert_eq!(
        validate_rule_name("").unwrap_err(),
        "Rule name must be 1-64 characters"
    );
    assert_eq!(
        validate_node_name("a b").unwrap_err(),
        "Node name must contain only letters, digits, hyphens and underscores"
    );
    assert_eq!(
        validate_query_key_expr("bubbaloop/*").unwrap_err(),
        "Key expression must not consist of a wildcard alone"
    );
    assert_eq!(
        validate_query_key_expr(&"x".repeat(513)).unwrap_err(),
        "Key expression must be at most 512 characters"
    );
    assert_eq!(
        validate_trigger_pattern("").unwrap_err(),
        "Trigger pattern must be 1-256 characters"
    );
    assert_eq!(
        validate_trigger_pattern("x").unwrap_err(),
        "Trigger pattern must start with bubbaloop/"
    );
    assert_eq!(validate_publish_topic("").unwrap_err(), "Topic must not be empty");
    assert_eq!(
        validate_publish_topic("bubbaloop/*").unwrap_err(),
        "Topic must not contain wildcards"
    );
    assert_eq!(
        validate_publish_topic("bubbaloop/a b").unwrap_err(),
        "Topic contains invalid characters"
    );
}

#[test]
fn lengths_at_the_limit_are_accepted() {
    let key = format!("bubbaloop/{}", "a".repeat(502));
    assert!(validate_query_key_expr(&key).is_ok());
    let pattern = format!("bubbaloop/{}", "a".repeat(246));
    assert!(validate_trigger_pattern(&pattern).is_ok());
    assert!(validate_rule_name(&"r".repeat(64)).is_ok());
}

#[test]
fn accepted_names_make_accepted_topics_on_values() {
    assert!(validate_node_name("jetson-1").is_ok());
    assert!(validate_publish_topic("bubbaloop/local/jetson-1").is_ok());
}
