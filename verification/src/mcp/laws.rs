//! What tools can rely on, whatever they ask and whatever the daemon answers.
use crate::daemon::commands;
use crate::daemon::commands::ActionView;
use crate::daemon::node_manager::NodeManagerView;
use crate::daemon::registry::NodeManifestView;
use crate::mcp::mock;
use crate::mcp::platform;
use crate::mcp::platform::{
    MarketplaceFailure, NodeCommand, NodeConfig, NodeDetail, NodeInfo, NodeInfoView,
    PlatformError, PlatformErrorView, ReplyView, Source,
};
use crate::mcp::rbac;
use crate::mcp::rbac::Tier;
use crate::schemas;
use crate::schemas::{
    CommandResultView, CommandType, HealthStatus, NodeList, NodeState, NodeStateView, NodeStatus,
};
use crate::text;
use vstd::prelude::*;
use vstd::string::*;
use vstd::utf8::*;

verus! {

// ---- nodes -----------------------------------------------------------------

/// What a node is doing and what its heartbeats say is shown by name, and a number that stands
/// for nothing as unknown.
pub proof fn numbers_are_shown_by_name(code: i32)
    ensures
        code == 1 ==> platform::status_label(code) == "Stopped"@,
        code == 2 ==> platform::status_label(code) == "Running"@,
        code == 3 ==> platform::status_label(code) == "Failed"@,
        code == 4 ==> platform::status_label(code) == "NotInstalled"@,
        code == 5 ==> platform::status_label(code) == "Building"@,
        code < 1 || code > 5 ==> platform::status_label(code) == "Unknown"@,
        code == 1 ==> platform::health_label(code) == "Healthy"@,
        code == 2 ==> platform::health_label(code) == "Unhealthy"@,
        code < 1 || code > 2 ==> platform::health_label(code) == "Unknown"@,
{
    schemas::numbers_stand_for_values();
    platform::labels_name_codes(NodeStatus::Unknown, HealthStatus::Unknown);
    platform::labels_name_codes(NodeStatus::Stopped, HealthStatus::Healthy);
    platform::labels_name_codes(NodeStatus::Running, HealthStatus::Unhealthy);
    platform::labels_name_codes(NodeStatus::Failed, HealthStatus::Unknown);
    platform::labels_name_codes(NodeStatus::NotInstalled, HealthStatus::Unknown);
    platform::labels_name_codes(NodeStatus::Building, HealthStatus::Unknown);
}

/// The details of a node agree with what is reported of it, in every point: in particular it is
/// installed exactly if a service is reported as installed, and built exactly if its program is
/// reported as there. A list says the same of it as the details.
pub proof fn details_agree_with_reports(state: NodeStateView)
    ensures
        ({
            let detail = platform::detail_of(state);
            let info = platform::info_of(state);
            &&& detail.installed <==> state.installed
            &&& detail.is_built <==> state.is_built
            &&& detail.name == state.name
            &&& detail.status == platform::status_label(state.status)
            &&& detail.health_status == platform::health_label(state.health_status)
            &&& detail.node_type == state.node_type
            &&& detail.last_health_check_ms == state.last_health_check_ms
            &&& detail.last_updated_ms == state.last_updated_ms
            &&& detail.path == state.path
            &&& detail.version == state.version
            &&& detail.description == state.description
            &&& detail.machine_id == state.machine_id
            &&& info.installed <==> state.installed
            &&& info.is_built <==> state.is_built
            &&& info.name == state.name
            &&& info.node_type == state.node_type
            &&& info.status == detail.status
            &&& info.health == detail.health_status
        }),
{
}

/// What a tool is told of a node is what the daemon knows of it: the details of a node that is
/// known are those of the node, up to the names of what it is doing and of its health.
pub proof fn details_are_those_of_the_node(nodes: NodeManagerView, name: Seq<char>)
    requires
        nodes.node(name) is Some,
    ensures
        nodes.state_of(name) is Some,
        ({
            let node = nodes.node(name)->0;
            let detail = platform::detail_of(nodes.state_of(name)->0);
            &&& detail.installed <==> node.installed
            &&& detail.is_built <==> node.is_built
            &&& detail.path == node.path
            &&& detail.last_updated_ms == node.last_updated_ms
            &&& detail.last_health_check_ms == node.last_health_check_ms
            &&& detail.machine_id == nodes.machine.id
            &&& detail.status == match node.status {
                NodeStatus::Unknown => "Unknown"@,
                NodeStatus::Stopped => "Stopped"@,
                NodeStatus::Running => "Running"@,
                NodeStatus::Failed => "Failed"@,
                NodeStatus::NotInstalled => "NotInstalled"@,
                NodeStatus::Building => "Building"@,
            }
            &&& detail.health_status == match node.health_status {
                HealthStatus::Unknown => "Unknown"@,
                HealthStatus::Healthy => "Healthy"@,
                HealthStatus::Unhealthy => "Unhealthy"@,
            }
        }),
{
    let node = nodes.node(name)->0;
    platform::labels_name_codes(node.status, node.health_status);
}

// ---- commands --------------------------------------------------------------

/// What a tool asks for is what the daemon does, for the node that the tool names.
pub proof fn tools_have_commands_carried_out(
    cmd: NodeCommand,
    name: Seq<char>,
    request_id: Seq<char>,
    now: i64,
)
    ensures
        ({
            let request = platform::node_request(cmd.command_type(), name, request_id, now);
            let done = commands::action_of(request);
            &&& request.request_id == request_id
            &&& request.timestamp_ms == now
            &&& request.source_machine == "mcp-platform"@
            &&& request.target_machine.len() == 0
            &&& match cmd {
                NodeCommand::Start => done == ActionView::Start(name),
                NodeCommand::Stop => done == ActionView::Stop(name),
                NodeCommand::Restart => done == ActionView::Restart(name),
                NodeCommand::Build => done == ActionView::Build(name),
                NodeCommand::GetLogs => done == ActionView::GetLogs(name),
                NodeCommand::Install => done == ActionView::Install(name),
                NodeCommand::Uninstall => done == ActionView::Uninstall(name),
                NodeCommand::Clean => done == ActionView::Clean(name),
                NodeCommand::EnableAutostart => done == ActionView::EnableAutostart(name),
                NodeCommand::DisableAutostart => done == ActionView::DisableAutostart(name),
            }
        }),
        commands::action_of(
            platform::node_request(CommandType::Install, name, request_id, now),
        ) == ActionView::Install(name),
{
    platform::commands_reach_their_action(cmd, name, request_id, now);
    commands::codes_are_read_back(CommandType::Install, 0);
}

/// A node that a tool asks to be added is registered by its directory, with the name and the
/// configuration that the tool gives for it.
pub proof fn tools_have_nodes_added(
    source: Seq<char>,
    name: Seq<char>,
    config: Seq<char>,
    request_id: Seq<char>,
    now: i64,
)
    requires
        name.len() > 0,
        config.len() > 0,
    ensures
        commands::action_of(
            platform::add_request(source, Some(name), Some(config), request_id, now),
        ) == (ActionView::AddNode {
            path: source,
            name_override: Some(name),
            config_override: Some(config),
        }),
        commands::action_of(platform::add_request(source, None, None, request_id, now)) == (
        ActionView::AddNode { path: source, name_override: None, config_override: None }),
        platform::add_request(source, None, None, request_id, now).request_id == request_id,
        platform::add_request(source, None, None, request_id, now).timestamp_ms == now,
{
    platform::added_sources_are_registered(source, Some(name), Some(config), request_id, now);
    platform::added_sources_are_registered(source, None, None, request_id, now);
}

/// A tool learns of success exactly if the command succeeded, with everything that the daemon
/// said; of a failure it learns what went wrong.
pub proof fn tools_are_told_the_answer(answer: CommandResultView)
    ensures
        platform::reply_of(answer) is Ok <==> answer.success,
        answer.success && answer.output.len() == 0 ==> platform::reply_of(answer) == Ok::<
            _,
            PlatformErrorView,
        >(answer.message),
        answer.success && answer.output.len() > 0 ==> platform::reply_of(answer) == Ok::<
            _,
            PlatformErrorView,
        >(answer.message + seq!['\n'] + answer.output),
        !answer.success ==> platform::reply_of(answer) == Err::<Seq<char>, _>(
            PlatformErrorView::CommandFailed(answer.message),
        ),
        platform::message_of(answer) == platform::reply_of(
            (CommandResultView { output: Seq::empty(), ..answer }),
        ),
{
    reveal_strlit("\n");
    assert("\n"@ =~= seq!['\n']);
}

/// A node that was added is installed under the name that the daemon gave it, without the white
/// space around it; if it could not be added, the tool learns what went wrong.
pub proof fn added_nodes_are_installed(answer: CommandResultView, name: Seq<char>)
    ensures
        !answer.success ==> platform::name_to_install(answer) == Err::<Seq<char>, _>(
            PlatformErrorView::CommandFailed(answer.message),
        ),
        answer.success && answer.message == "Added node: "@ + name ==> platform::name_to_install(
            answer,
        ) == Ok::<_, PlatformErrorView>(text::trim_of(name)),
        answer.success && !"Added node: "@.is_prefix_of(answer.message)
            ==> platform::name_to_install(answer) == Ok::<_, PlatformErrorView>(
            text::trim_of(answer.message),
        ),
{
    let message = "Added node: "@ + name;
    assert("Added node: "@ =~= message.take("Added node: "@.len() as int));
    assert(message.skip("Added node: "@.len() as int) =~= name);
}

/// An installation succeeds exactly if the daemon installed the service. From a directory or
/// repository the tool learns the name of the node; a failure names the node, that it is
/// registered nevertheless, and what went wrong.
pub proof fn installations_are_told(
    node_name: Seq<char>,
    source: Source,
    answer: CommandResultView,
)
    ensures
        platform::installed(node_name, source, answer) is Ok <==> answer.success,
        answer.success && source == Source::Place ==> platform::installed(
            node_name,
            source,
            answer,
        ) == Ok::<_, PlatformErrorView>(node_name),
        answer.success && source == Source::Marketplace ==> platform::installed(
            node_name,
            source,
            answer,
        ) == Ok::<_, PlatformErrorView>(
            "Installed '"@ + node_name
                + "' from marketplace (registered + systemd service created)"@,
        ),
        !answer.success && source == Source::Place ==> platform::installed(
            node_name,
            source,
            answer,
        ) == Err::<Seq<char>, _>(
            PlatformErrorView::CommandFailed(
                "Node '"@ + node_name + "' registered but install failed: "@ + answer.message,
            ),
        ),
        !answer.success && source == Source::Marketplace ==> platform::installed(
            node_name,
            source,
            answer,
        ) == Err::<Seq<char>, _>(
            PlatformErrorView::CommandFailed(
                "Node '"@ + node_name + "' registered but service install failed: "@
                    + answer.message,
            ),
        ),
{
}

/// Why a node could not be fetched from the marketplace is told by kind: the list that could not
/// be renewed, the node that it does not hold, the program that could not be fetched. Only work
/// that was cut short is no failure of the command.
pub proof fn marketplace_failures_are_told(name: Seq<char>, failure: MarketplaceFailure)
    ensures
        match failure {
            MarketplaceFailure::Refresh(e) => platform::marketplace_fault(name, failure)
                == PlatformErrorView::CommandFailed("Registry refresh failed: "@ + e@),
            MarketplaceFailure::NotFound => platform::marketplace_fault(name, failure)
                == PlatformErrorView::CommandFailed(
                "Node '"@ + name + "' not found in marketplace registry"@,
            ),
            MarketplaceFailure::Download(e) => platform::marketplace_fault(name, failure)
                == PlatformErrorView::CommandFailed("Download failed for '"@ + name + "': "@ + e@),
            MarketplaceFailure::Join(e) => platform::marketplace_fault(name, failure)
                == PlatformErrorView::Internal("Task join error: "@ + e@),
        },
{
}

/// Failures are told in words of their kind, followed by the name or the words that came with
/// them.
pub proof fn failures_are_told(words: Seq<char>)
    ensures
        PlatformErrorView::NodeNotFound(words).text() == "Node not found: "@ + words,
        PlatformErrorView::CommandFailed(words).text() == "Command failed: "@ + words,
        PlatformErrorView::InvalidInput(words).text() == "Invalid input: "@ + words,
        PlatformErrorView::Internal(words).text() == "Internal error: "@ + words,
{
}

// ---- queries ---------------------------------------------------------------

/// A value is told as the text that it is. One that is no text is told by its size, and a
/// failure by the numbers of the bytes that were sent about it. A line also names the key.
pub proof fn replies_are_told(key: Seq<char>, payload: Seq<u8>)
    ensures
        ({
            let sample = ReplyView::Sample { key, payload };
            &&& valid_utf8(payload) ==> sample.text() == decode_utf8(payload)
            &&& !valid_utf8(payload) ==> sample.text() == "<"@ + text::decimal(
                payload.len() as int,
            ) + " bytes binary>"@
            &&& sample.line() == seq!['['] + key + "] "@ + sample.text()
        }),
        ({
            let failure = ReplyView::Failure { payload };
            &&& failure.text() == "Error: "@ + platform::byte_list(payload)
            &&& failure.line() == failure.text()
        }),
{
    reveal_strlit("[");
    assert("["@ =~= seq!['[']);
}

/// Bytes are listed in order, each as its number, in brackets and with commas between them.
pub proof fn bytes_are_listed(bytes: Seq<u8>, b: u8)
    ensures
        platform::byte_list(Seq::empty()) == "[]"@,
        platform::byte_list(seq![b]) == seq!['['] + text::decimal(b as int) + seq![']'],
        bytes.len() > 0 ==> platform::byte_list(bytes.push(b)) == platform::byte_list(
            bytes,
        ).drop_last() + ", "@ + text::decimal(b as int) + seq![']'],
{
    reveal_strlit("[");
    reveal_strlit("]");
    reveal_strlit("[]");
    let none = Seq::<u8>::empty();
    assert(Seq::new(none.len(), |i: int| text::decimal(none[i] as int)) =~= Seq::<
        Seq<char>,
    >::empty());
    assert(platform::byte_list(none) =~= "[]"@);
    let one = seq![b];
    assert(Seq::new(one.len(), |i: int| text::decimal(one[i] as int)) =~= seq![
        text::decimal(b as int),
    ]);
    assert(platform::byte_list(one) =~= seq!['['] + text::decimal(b as int) + seq![']']);
    let longer = bytes.push(b);
    let shown = Seq::new(bytes.len(), |i: int| text::decimal(bytes[i] as int));
    assert(Seq::new(longer.len(), |i: int| text::decimal(longer[i] as int)) =~= shown.push(
        text::decimal(b as int),
    ));
    if bytes.len() > 0 {
        assert(shown.push(text::decimal(b as int)).drop_last() =~= shown);
        assert(platform::byte_list(longer) =~= platform::byte_list(bytes).drop_last() + ", "@
            + text::decimal(b as int) + seq![']']);
    }
}

/// Every reply to a query is told, on a line of its own and in the order in which it came; that
/// there was none is said, and so is why a query failed.
pub proof fn queries_are_told(a: Seq<ReplyView>, b: Seq<ReplyView>, reason: Seq<char>)
    ensures
        platform::query_text(Ok(Seq::empty())) == "No responses received"@,
        a.len() == 1 ==> platform::query_text(Ok(a)) == a[0].line(),
        a.len() > 0 && b.len() > 0 ==> platform::query_text(Ok(a + b)) == platform::query_text(
            Ok(a),
        ) + seq!['\n'] + platform::query_text(Ok(b)),
        platform::query_text(Err(reason)) == "Zenoh query failed: "@ + reason,
{
    reveal_strlit("\n");
    assert("\n"@ =~= seq!['\n']);
    if a.len() > 0 && b.len() > 0 {
        let all = a + b;
        let first = Seq::new(a.len(), |i: int| a[i].line());
        let second = Seq::new(b.len(), |i: int| b[i].line());
        assert(Seq::new(all.len(), |i: int| all[i].line()) =~= first + second);
        text::separators_join_parts(first, second, "\n"@);
    }
}

/// A node tells its configuration under a key that names the deployment, the machine and the
/// node.
pub proof fn configurations_have_keys(scope: Seq<char>, machine: Seq<char>, name: Seq<char>)
    requires
        !scope.contains('/'),
        !machine.contains('/'),
        !name.contains('/'),
    ensures
        text::split_at(platform::config_key_of(scope, machine, name), '/') == seq![
            "bubbaloop"@,
            scope,
            machine,
            name,
            "config"@,
        ],
{
    reveal_strlit("bubbaloop/");
    reveal_strlit("/");
    reveal_strlit("/config");
    reveal_strlit("bubbaloop");
    reveal_strlit("config");
    let rest3 = name.push('/') + "config"@;
    let rest2 = machine.push('/') + rest3;
    let rest1 = scope.push('/') + rest2;
    assert(platform::config_key_of(scope, machine, name) =~= "bubbaloop"@.push('/') + rest1);
    text::separators_part_texts("bubbaloop"@, '/', rest1);
    text::separators_part_texts(scope, '/', rest2);
    text::separators_part_texts(machine, '/', rest3);
    text::separators_part_texts(name, '/', "config"@);
    text::separators_part_texts("config"@, '/', Seq::empty());
    assert(text::split_at(platform::config_key_of(scope, machine, name), '/') =~= seq![
        "bubbaloop"@,
        scope,
        machine,
        name,
        "config"@,
    ]);
}

// ---- who may do what -------------------------------------------------------

/// The tools that only look are for everyone, those that run nodes or read what they hold for
/// operators, and every other tool, known or not, for admins alone.
pub proof fn tools_take_their_tier(tool: Seq<char>)
    ensures
        rbac::tier_of(tool) == Tier::Viewer <==> seq![
            "list_nodes"@,
            "get_node_health"@,
            "discover_nodes"@,
            "get_node_manifest"@,
            "list_commands"@,
            "get_stream_info"@,
            "get_system_status"@,
            "get_machine_info"@,
            "get_node_schema"@,
            "discover_capabilities"@,
        ].contains(tool),
        rbac::tier_of(tool) == Tier::Operator <==> seq![
            "start_node"@,
            "stop_node"@,
            "restart_node"@,
            "get_node_config"@,
            "send_command"@,
            "get_node_logs"@,
            "enable_autostart"@,
            "disable_autostart"@,
        ].contains(tool),
        Tier::Viewer.rank() < Tier::Operator.rank() < Tier::Admin.rank(),
{
    let looking = seq![
        "list_nodes"@,
        "get_node_health"@,
        "discover_nodes"@,
        "get_node_manifest"@,
        "list_commands"@,
        "get_stream_info"@,
        "get_system_status"@,
        "get_machine_info"@,
        "get_node_schema"@,
        "discover_capabilities"@,
    ];
    let running = seq![
        "start_node"@,
        "stop_node"@,
        "restart_node"@,
        "get_node_config"@,
        "send_command"@,
        "get_node_logs"@,
        "enable_autostart"@,
        "disable_autostart"@,
    ];
    assert(rbac::viewer_tool(tool) <==> looking.contains(tool)) by {
        assert(looking[0] == "list_nodes"@ && looking[1] == "get_node_health"@);
        assert(looking[2] == "discover_nodes"@ && looking[3] == "get_node_manifest"@);
        assert(looking[4] == "list_commands"@ && looking[5] == "get_stream_info"@);
        assert(looking[6] == "get_system_status"@ && looking[7] == "get_machine_info"@);
        assert(looking[8] == "get_node_schema"@ && looking[9] == "discover_capabilities"@);
        if rbac::viewer_tool(tool) {
            assert(exists|i: int| 0 <= i < looking.len() && #[trigger] looking[i] == tool);
        }
    }
    assert(rbac::operator_tool(tool) <==> running.contains(tool)) by {
        assert(running[0] == "start_node"@ && running[1] == "stop_node"@);
        assert(running[2] == "restart_node"@ && running[3] == "get_node_config"@);
        assert(running[4] == "send_command"@ && running[5] == "get_node_logs"@);
        assert(running[6] == "enable_autostart"@ && running[7] == "disable_autostart"@);
        if rbac::operator_tool(tool) {
            assert(exists|i: int| 0 <= i < running.len() && #[trigger] running[i] == tool);
        }
    }
    reveal_strlit("list_nodes");
    reveal_strlit("get_node_health");
    reveal_strlit("discover_nodes");
    reveal_strlit("get_node_manifest");
    reveal_strlit("list_commands");
    reveal_strlit("get_stream_info");
    reveal_strlit("get_system_status");
    reveal_strlit("get_machine_info");
    reveal_strlit("get_node_schema");
    reveal_strlit("discover_capabilities");
    reveal_strlit("start_node");
    reveal_strlit("stop_node");
    reveal_strlit("restart_node");
    reveal_strlit("get_node_config");
    reveal_strlit("send_command");
    reveal_strlit("get_node_logs");
    reveal_strlit("enable_autostart");
    reveal_strlit("disable_autostart");
    // The first characters tell the names of the two groups apart, and lengths the rest.
    if rbac::operator_tool(tool) {
        assert(tool.len() > 4);
        assert(tool[0] == 's' || tool[0] == 'r' || tool[0] == 'g' || tool[0] == 'e' || tool[0]
            == 'd');
        if tool[0] == 'g' {
            assert(tool == "get_node_config"@ || tool == "get_node_logs"@);
            assert(tool[9] == 'c' || tool[9] == 'l');
        }
        assert(!rbac::viewer_tool(tool));
    }
}

// ---- manifests -------------------------------------------------------------

/// A filter keeps the manifests with the capability, in order, and without one all are kept.
pub proof fn filters_keep_the_order(
    manifests: Seq<(Seq<char>, NodeManifestView)>,
    capability: Seq<char>,
)
    ensures
        platform::matching_manifests(manifests, Some(capability)) == manifests.filter(
            |m: (Seq<char>, NodeManifestView)| m.1.capabilities.contains(capability),
        ),
        platform::matching_manifests(manifests, None) == manifests,
{
    platform::filters_select_by_capability(manifests, capability);
    let pick = |m: (Seq<char>, NodeManifestView)| m.1.capabilities.contains(capability);
    let kept = |m: (Seq<char>, NodeManifestView)| platform::has_capability(m.1, Some(capability));
    same_filter(manifests, pick, kept);
}

proof fn same_filter(
    manifests: Seq<(Seq<char>, NodeManifestView)>,
    a: spec_fn((Seq<char>, NodeManifestView)) -> bool,
    b: spec_fn((Seq<char>, NodeManifestView)) -> bool,
)
    requires
        forall|m: (Seq<char>, NodeManifestView)| #[trigger] a(m) == b(m),
    ensures
        manifests.filter(a) == manifests.filter(b),
    decreases manifests.len(),
{
    reveal(Seq::filter);
    if manifests.len() > 0 {
        same_filter(manifests.drop_last(), a, b);
    }
}

// ---- the platform in memory ------------------------------------------------

/// In memory a node is found exactly if there is one of its name: the first of them.
pub proof fn first_nodes_are_found(nodes: Seq<NodeInfoView>, name: Seq<char>)
    ensures
        match mock::first_named(nodes, name) {
            Some(node) => exists|i: int|
                0 <= i < nodes.len() && #[trigger] nodes[i] == node && node.name == name
                    && forall|j: int| 0 <= j < i ==> (#[trigger] nodes[j]).name != name,
            None => forall|i: int| 0 <= i < nodes.len() ==> (#[trigger] nodes[i]).name != name,
        },
    decreases nodes.len(),
{
    if nodes.len() > 0 {
        let shorter = nodes.drop_last();
        first_nodes_are_found(shorter, name);
        assert(forall|i: int| 0 <= i < shorter.len() ==> #[trigger] nodes[i] == shorter[i]);
        assert(nodes[nodes.len() - 1] == nodes.last());
        match mock::first_named(shorter, name) {
            Some(node) => {
                let i = choose|i: int|
                    0 <= i < shorter.len() && #[trigger] shorter[i] == node && node.name == name
                        && forall|j: int| 0 <= j < i ==> (#[trigger] shorter[j]).name != name;
                assert(nodes[i] == node);
                assert forall|j: int| 0 <= j < i implies (#[trigger] nodes[j]).name != name by {
                    assert(shorter[j].name != name);
                }
            },
            None => {
                assert forall|j: int| 0 <= j < shorter.len() implies (#[trigger] nodes[j]).name
                    != name by {
                    assert(shorter[j].name != name);
                }
            },
        }
    }
}

/// In memory removing a name leaves the nodes of other names, in order.
pub proof fn other_nodes_stay_in_order(nodes: Seq<NodeInfoView>, name: Seq<char>)
    ensures
        mock::other_nodes(nodes, name) == nodes.filter(|node: NodeInfoView| node.name != name),
{
    other_nodes_are_selected(nodes, name, |node: NodeInfoView| node.name != name);
}

proof fn other_nodes_are_selected(
    nodes: Seq<NodeInfoView>,
    name: Seq<char>,
    pick: spec_fn(NodeInfoView) -> bool,
)
    requires
        forall|node: NodeInfoView| #[trigger] pick(node) == (node.name != name),
    ensures
        mock::other_nodes(nodes, name) == nodes.filter(pick),
    decreases nodes.len(),
{
    reveal(Seq::filter);
    if nodes.len() > 0 {
        other_nodes_are_selected(nodes.drop_last(), name, pick);
    }
}

/// In memory the configuration of a node is the one that was set last for its name, and there
/// is none where none was set.
pub proof fn last_configurations_count(
    configs: Seq<(String, String)>,
    latest: (String, String),
    name: Seq<char>,
)
    ensures
        mock::config_of(Seq::empty(), name) is None,
        latest.0@ == name ==> mock::config_of(configs.push(latest), name) == Some(latest.1@),
        latest.0@ != name ==> mock::config_of(configs.push(latest), name) == mock::config_of(
            configs,
            name,
        ),
{
    assert(configs.push(latest).drop_last() =~= configs);
}

/// In memory a manifest passes a filter exactly if it has the capability, upper and lower case
/// taken for the same; without a filter every manifest does.
pub proof fn filters_in_memory_fold_case(manifest: NodeManifestView, capability: Seq<char>)
    ensures
        mock::passes(manifest, None),
        mock::passes(manifest, Some(capability)) <==> exists|i: int|
            0 <= i < manifest.capabilities.len() && text::lowercase(
                #[trigger] manifest.capabilities[i],
            ) == text::lowercase(capability),
        manifest.capabilities.contains(capability) ==> mock::passes(manifest, Some(capability)),
{
}

/// In memory each command is told by its own name.
pub proof fn commands_have_names()
    ensures
        mock::command_label(NodeCommand::Start) == "Start"@,
        mock::command_label(NodeCommand::Stop) == "Stop"@,
        mock::command_label(NodeCommand::Restart) == "Restart"@,
        mock::command_label(NodeCommand::Build) == "Build"@,
        mock::command_label(NodeCommand::GetLogs) == "GetLogs"@,
        mock::command_label(NodeCommand::Install) == "Install"@,
        mock::command_label(NodeCommand::Uninstall) == "Uninstall"@,
        mock::command_label(NodeCommand::Clean) == "Clean"@,
        mock::command_label(NodeCommand::EnableAutostart) == "EnableAutostart"@,
        mock::command_label(NodeCommand::DisableAutostart) == "DisableAutostart"@,
{
}

// ---- what is handed back ---------------------------------------------------

/// A list and the details of one of its nodes say the same of it, and both what was reported.
pub proof fn lists_and_details_agree(
    list: &NodeList,
    infos: Vec<NodeInfo>,
    i: int,
    name: &str,
    details: Result<NodeDetail, PlatformError>,
)
    requires
        0 <= i < list.nodes@.len(),
        call_ensures(platform::list_nodes, (list,), infos),
        call_ensures(platform::get_node_detail, (Some(list.nodes@[i]), name), details),
    ensures
        details is Ok,
        infos@.len() == list.nodes@.len(),
        infos@[i].name@ == list.nodes@[i].name@,
        infos@[i].name@ == details->Ok_0.name@,
        infos@[i].installed == list.nodes@[i].installed,
        infos@[i].installed == details->Ok_0.installed,
        infos@[i].is_built == list.nodes@[i].is_built,
        infos@[i].is_built == details->Ok_0.is_built,
        infos@[i]@.status == details->Ok_0@.status,
        infos@[i]@.health == details->Ok_0@.health_status,
        infos@[i]@.node_type == details->Ok_0@.node_type,
{
    assert(platform::info_views(infos@)[i] == infos@[i]@);
    assert(list@.nodes[i] == list.nodes@[i]@);
}

/// The details of what is no node are refused with the name that was asked for.
pub proof fn unknown_nodes_have_no_details(name: &str, details: Result<NodeDetail, PlatformError>)
    requires
        call_ensures(platform::get_node_detail, (None::<NodeState>, name), details),
    ensures
        details is Err,
        details->Err_0@ == PlatformErrorView::NodeNotFound(name@),
{
}

/// A caller may call a tool exactly if the tool is for the caller's tier or for one below it.
pub proof fn callers_may_do_what_their_tier_may(
    caller: Tier,
    tool: &str,
    required: Tier,
    allowed: bool,
)
    requires
        call_ensures(rbac::required_tier, (tool,), required),
        call_ensures(Tier::has_permission, (caller, required), allowed),
    ensures
        required == rbac::tier_of(tool@),
        caller == Tier::Admin ==> allowed,
        caller == Tier::Operator ==> (allowed <==> required != Tier::Admin),
        caller == Tier::Viewer ==> (allowed <==> required == Tier::Viewer),
{
}

/// What a node told of its configuration is kept as it was told, and counts as JSON exactly if
/// it can be read as such.
pub proof fn configurations_are_kept(told: String, is_json: bool, config: NodeConfig)
    requires
        call_ensures(platform::classify_config, (told, is_json), config),
    ensures
        is_json ==> config == NodeConfig::Json(told),
        !is_json ==> config == NodeConfig::Raw(told),
{
}

} // verus!
