//! A platform in memory, for trying out tools without a daemon.
use crate::daemon::node_manager;
use crate::daemon::registry::{NodeManifest, NodeManifestView};
use crate::mcp::platform;
use crate::mcp::platform::{
    NodeCommand, NodeInfo, NodeInfoView, PlatformError, PlatformErrorView,
};
use crate::text;
use vstd::prelude::*;
use vstd::string::*;

verus! {

/// A platform in memory.
#[derive(Debug)]
pub struct MockPlatform {
    /// The nodes.
    pub nodes: Vec<NodeInfo>,
    /// Configurations of nodes, as JSON, each with the name of its node.
    pub configs: Vec<(String, String)>,
    /// Manifests, each with the name of its node.
    pub manifests: Vec<(String, NodeManifest)>,
}

/// The name of a command as it is shown.
pub open spec fn command_label(cmd: NodeCommand) -> Seq<char> {
    match cmd {
        NodeCommand::Start => "Start"@,
        NodeCommand::Stop => "Stop"@,
        NodeCommand::Restart => "Restart"@,
        NodeCommand::Build => "Build"@,
        NodeCommand::GetLogs => "GetLogs"@,
        NodeCommand::Install => "Install"@,
        NodeCommand::Uninstall => "Uninstall"@,
        NodeCommand::Clean => "Clean"@,
        NodeCommand::EnableAutostart => "EnableAutostart"@,
        NodeCommand::DisableAutostart => "DisableAutostart"@,
    }
}

fn show_command(cmd: NodeCommand) -> (r: &'static str)
    ensures
        r@ == command_label(cmd),
{
    match cmd {
        NodeCommand::Start => "Start",
        NodeCommand::Stop => "Stop",
        NodeCommand::Restart => "Restart",
        NodeCommand::Build => "Build",
        NodeCommand::GetLogs => "GetLogs",
        NodeCommand::Install => "Install",
        NodeCommand::Uninstall => "Uninstall",
        NodeCommand::Clean => "Clean",
        NodeCommand::EnableAutostart => "EnableAutostart",
        NodeCommand::DisableAutostart => "DisableAutostart",
    }
}

/// The first node of a name.
pub open spec fn first_named(nodes: Seq<NodeInfoView>, name: Seq<char>) -> Option<NodeInfoView>
    decreases nodes.len(),
{
    if nodes.len() == 0 {
        None
    } else {
        match first_named(nodes.drop_last(), name) {
            Some(node) => Some(node),
            None => if nodes.last().name == name {
                Some(nodes.last())
            } else {
                None
            },
        }
    }
}

/// The nodes of other names, in order.
pub open spec fn other_nodes(nodes: Seq<NodeInfoView>, name: Seq<char>) -> Seq<NodeInfoView>
    decreases nodes.len(),
{
    if nodes.len() == 0 {
        Seq::empty()
    } else {
        let earlier = other_nodes(nodes.drop_last(), name);
        if nodes.last().name == name {
            earlier
        } else {
            earlier.push(nodes.last())
        }
    }
}

/// The last configuration that was set for a node.
pub open spec fn config_of(configs: Seq<(String, String)>, name: Seq<char>) -> Option<Seq<char>>
    decreases configs.len(),
{
    if configs.len() == 0 {
        None
    } else if configs.last().0@ == name {
        Some(configs.last().1@)
    } else {
        config_of(configs.drop_last(), name)
    }
}

/// Whether a text is in a list, upper and lower case taken for the same.
pub open spec fn folded_in(list: Seq<Seq<char>>, s: Seq<char>) -> bool {
    exists|i: int|
        0 <= i < list.len() && text::lowercase(#[trigger] list[i]) == text::lowercase(s)
}

/// Whether a manifest passes a filter: without one every manifest does, else only one with
/// the capability, in upper or lower case.
pub open spec fn passes(manifest: NodeManifestView, capability: Option<Seq<char>>) -> bool {
    match capability {
        Some(c) => folded_in(manifest.capabilities, c),
        None => true,
    }
}

/// Whether a text is in a list, upper and lower case taken for the same.
fn has_folded(list: &Vec<String>, s: &str) -> (r: bool)
    ensures
        r == folded_in(text::views(list@), s@),
{
    let wanted = s.to_lowercase();
    let ghost all = text::views(list@);
    for i in 0..list.len()
        invariant
            all == text::views(list@),
            wanted@ == text::lowercase(s@),
            forall|j: int| 0 <= j < i ==> text::lowercase(#[trigger] all[j]) != wanted@,
    {
        assert(all[i as int] == list@[i as int]@);
        if list[i].as_str().to_lowercase().as_str().eq(wanted.as_str()) {
            return true;
        }
    }
    false
}

proof fn first_named_stays(nodes: Seq<NodeInfoView>, n: int, name: Seq<char>)
    requires
        0 <= n <= nodes.len(),
        first_named(nodes.take(n), name) is Some,
    ensures
        first_named(nodes, name) == first_named(nodes.take(n), name),
    decreases nodes.len(),
{
    if n == nodes.len() {
        assert(nodes.take(n) =~= nodes);
    } else {
        assert(nodes.drop_last().take(n) =~= nodes.take(n));
        first_named_stays(nodes.drop_last(), n, name);
    }
}

/// After a node was removed there is none of its name, and every other node is still there.
pub proof fn removed_nodes_are_gone(nodes: Seq<NodeInfoView>, name: Seq<char>, other: Seq<char>)
    ensures
        first_named(other_nodes(nodes, name), name) is None,
        other != name ==> first_named(other_nodes(nodes, name), other) == first_named(
            nodes,
            other,
        ),
    decreases nodes.len(),
{
    if nodes.len() > 0 {
        let shorter = nodes.drop_last();
        removed_nodes_are_gone(shorter, name, other);
        if nodes.last().name != name {
            let kept = other_nodes(shorter, name);
            assert(kept.push(nodes.last()).drop_last() =~= kept);
        }
    }
}

impl MockPlatform {
    /// Whether the platform has one node, which runs and is healthy, with its manifest and no
    /// configuration.
    pub open spec fn is_fresh(self) -> bool {
        &&& platform::info_views(self.nodes@) == seq![
            NodeInfoView {
                name: "test-node"@,
                status: "Running"@,
                health: "Healthy"@,
                node_type: "rust"@,
                installed: true,
                is_built: true,
            },
        ]
        &&& self.configs@ == Seq::<(String, String)>::empty()
        &&& node_manager::manifest_views(self.manifests@) == seq![
            (
                "test-node"@,
                NodeManifestView {
                    name: "test-node"@,
                    version: "1.0.0"@,
                    description: "A test node"@,
                    node_type: "rust"@,
                    build: None,
                    command: None,
                    depends_on: Seq::empty(),
                    capabilities: seq!["sensor"@],
                    publishes: Seq::empty(),
                    subscribes: Seq::empty(),
                    commands: Seq::empty(),
                },
            ),
        ]
    }

    /// A platform with one node, which runs and is healthy.
    pub fn new() -> (r: MockPlatform)
        ensures
            r.is_fresh(),
    {
        let mut nodes: Vec<NodeInfo> = Vec::new();
        nodes.push(
            NodeInfo {
                name: "test-node".to_owned(),
                status: "Running".to_owned(),
                health: "Healthy".to_owned(),
                node_type: "rust".to_owned(),
                installed: true,
                is_built: true,
            },
        );
        let mut capabilities: Vec<String> = Vec::new();
        capabilities.push("sensor".to_owned());
        assert(text::views(capabilities@) =~= seq!["sensor"@]);
        let mut manifests: Vec<(String, NodeManifest)> = Vec::new();
        manifests.push(
            (
                "test-node".to_owned(),
                NodeManifest {
                    name: "test-node".to_owned(),
                    version: "1.0.0".to_owned(),
                    description: "A test node".to_owned(),
                    node_type: "rust".to_owned(),
                    capabilities,
                    ..NodeManifest::default()
                },
            ),
        );
        let r = MockPlatform { nodes, configs: Vec::new(), manifests };
        assert(platform::info_views(r.nodes@) =~= seq![r.nodes@[0]@]);
        assert(node_manager::manifest_views(r.manifests@) =~= seq![
            (r.manifests@[0].0@, r.manifests@[0].1@),
        ]);
        r
    }

    /// All nodes.
    pub fn list_nodes(&self) -> (r: Result<Vec<NodeInfo>, PlatformError>)
        ensures
            r matches Ok(nodes) && platform::info_views(nodes@) == platform::info_views(
                self.nodes@,
            ),
    {
        let mut r: Vec<NodeInfo> = Vec::new();
        for i in 0..self.nodes.len()
            invariant
                r@.len() == i,
                forall|j: int| 0 <= j < i ==> (#[trigger] r@[j])@ == self.nodes@[j]@,
        {
            r.push(self.nodes[i].clone());
        }
        assert(platform::info_views(r@) =~= platform::info_views(self.nodes@));
        Ok(r)
    }

    /// The first node of a name.
    pub fn get_node_detail(&self, name: &str) -> (r: Result<NodeInfo, PlatformError>)
        ensures
            match first_named(platform::info_views(self.nodes@), name@) {
                Some(node) => r matches Ok(found) && found@ == node,
                None => r matches Err(e) && e@ == PlatformErrorView::NodeNotFound(name@),
            },
    {
        let ghost all = platform::info_views(self.nodes@);
        for i in 0..self.nodes.len()
            invariant
                all == platform::info_views(self.nodes@),
                first_named(all.take(i as int), name@) is None,
        {
            assert(all.take(i as int + 1).drop_last() =~= all.take(i as int));
            if self.nodes[i].name.as_str().eq(name) {
                proof {
                    first_named_stays(all, i as int + 1, name@);
                }
                return Ok(self.nodes[i].clone());
            }
        }
        assert(all.take(all.len() as int) =~= all);
        Err(PlatformError::NodeNotFound(name.to_owned()))
    }

    /// Says that a command was carried out for a node, if there is such a node.
    pub fn execute_command(&self, name: &str, cmd: NodeCommand) -> (r: Result<
        String,
        PlatformError,
    >)
        ensures
            platform::told(r) == match first_named(platform::info_views(self.nodes@), name@) {
                Some(_) => Ok::<_, PlatformErrorView>(
                    "mock: "@ + command_label(cmd) + " executed"@,
                ),
                None => Err(PlatformErrorView::NodeNotFound(name@)),
            },
    {
        match self.get_node_detail(name) {
            Ok(_) => {
                let mut message = text::concat("mock: ", show_command(cmd));
                message.append(" executed");
                Ok(message)
            },
            Err(e) => Err(e),
        }
    }

    /// Sets the configuration of a node.
    pub fn set_config(&mut self, name: &str, config: &str)
        ensures
            config_of(final(self).configs@, name@) == Some(config@),
            forall|other: Seq<char>|
                other != name@ ==> #[trigger] config_of(final(self).configs@, other)
                    == config_of(old(self).configs@, other),
            final(self).nodes == old(self).nodes,
            final(self).manifests == old(self).manifests,
    {
        let ghost before = self.configs@;
        self.configs.push((name.to_owned(), config.to_owned()));
        assert(self.configs@.drop_last() =~= before);
    }

    /// The configuration of a node.
    pub fn get_node_config(&self, name: &str) -> (r: Result<String, PlatformError>)
        ensures
            platform::told(r) == match config_of(self.configs@, name@) {
                Some(config) => Ok::<_, PlatformErrorView>(config),
                None => Err(PlatformErrorView::NodeNotFound(name@)),
            },
    {
        let mut i: usize = self.configs.len();
        assert(self.configs@.take(i as int) =~= self.configs@);
        while i > 0
            invariant
                i <= self.configs@.len(),
                config_of(self.configs@, name@) == config_of(self.configs@.take(i as int), name@),
            decreases i,
        {
            assert(self.configs@.take(i as int).drop_last() =~= self.configs@.take(i as int - 1));
            i = i - 1;
            if self.configs[i].0.as_str().eq(name) {
                return Ok(self.configs[i].1.clone());
            }
        }
        Err(PlatformError::NodeNotFound(name.to_owned()))
    }

    /// Says which query was made.
    pub fn query_zenoh(&self, key_expr: &str) -> (r: Result<String, PlatformError>)
        ensures
            platform::told(r) == Ok::<_, PlatformErrorView>("mock: query "@ + key_expr@),
    {
        Ok(text::concat("mock: query ", key_expr))
    }

    /// Says which query was sent.
    pub fn send_zenoh_query(&self, key_expr: &str, _payload: Vec<u8>) -> (r: Result<
        Vec<String>,
        PlatformError,
    >)
        ensures
            r matches Ok(replies) && text::views(replies@) == seq![
                "mock: zenoh_query "@ + key_expr@,
            ],
    {
        let mut replies: Vec<String> = Vec::new();
        replies.push(text::concat("mock: zenoh_query ", key_expr));
        assert(text::views(replies@) =~= seq!["mock: zenoh_query "@ + key_expr@]);
        Ok(replies)
    }

    /// The manifests with a capability, in upper or lower case; all of them if none is given.
    pub fn get_manifests(&self, capability_filter: Option<&str>) -> (r: Result<
        Vec<(String, NodeManifest)>,
        PlatformError,
    >)
        ensures
            r matches Ok(found) && node_manager::manifest_views(found@)
                == node_manager::manifest_views(self.manifests@).filter(
                |m: (Seq<char>, NodeManifestView)|
                    passes(m.1, text::opt_str_view(capability_filter)),
            ),
    {
        let ghost all = node_manager::manifest_views(self.manifests@);
        let ghost test = |m: (Seq<char>, NodeManifestView)|
            passes(m.1, text::opt_str_view(capability_filter));
        let mut r: Vec<(String, NodeManifest)> = Vec::new();
        proof {
            reveal(Seq::filter);
        }
        assert(node_manager::manifest_views(r@) =~= all.take(0).filter(test));
        for i in 0..self.manifests.len()
            invariant
                all == node_manager::manifest_views(self.manifests@),
                test == (|m: (Seq<char>, NodeManifestView)|
                    passes(m.1, text::opt_str_view(capability_filter))),
                node_manager::manifest_views(r@) == all.take(i as int).filter(test),
        {
            proof {
                reveal(Seq::filter);
            }
            assert(all.take(i as int + 1).drop_last() =~= all.take(i as int));
            let wanted = match capability_filter {
                Some(c) => has_folded(&self.manifests[i].1.capabilities, c),
                None => true,
            };
            assert(wanted == test(all[i as int]));
            if wanted {
                let ghost earlier = node_manager::manifest_views(r@);
                let name = self.manifests[i].0.clone();
                let copy = self.manifests[i].1.clone();
                r.push((name, copy));
                assert(node_manager::manifest_views(r@) =~= earlier.push(all[i as int]));
            }
        }
        assert(all.take(all.len() as int) =~= all);
        Ok(r)
    }

    /// Says where a node was installed from.
    pub fn install_node(&self, source: &str) -> (r: Result<String, PlatformError>)
        ensures
            platform::told(r) == Ok::<_, PlatformErrorView>(
                "mock: installed node from "@ + source@,
            ),
    {
        Ok(text::concat("mock: installed node from ", source))
    }

    /// Says which node was added: the instance if it has a name, else the source.
    pub fn add_node(
        &self,
        source: &str,
        name_override: Option<&str>,
        _config_override: Option<&str>,
    ) -> (r: Result<String, PlatformError>)
        ensures
            platform::told(r) == Ok::<_, PlatformErrorView>(
                "mock: added node "@ + (match name_override {
                    Some(name) => name@,
                    None => source@,
                }),
            ),
    {
        let name = match name_override {
            Some(name) => name,
            None => source,
        };
        Ok(text::concat("mock: added node ", name))
    }

    /// Says which node was installed from the marketplace.
    pub fn install_from_marketplace(&self, name: &str) -> (r: Result<String, PlatformError>)
        ensures
            platform::told(r) == Ok::<_, PlatformErrorView>(
                "mock: installed '"@ + name@ + "' from marketplace"@,
            ),
    {
        let mut message = text::concat("mock: installed '", name);
        message.append("' from marketplace");
        Ok(message)
    }

    /// Takes a message for a topic, and keeps nothing of it.
    pub fn publish_to_topic(&self, _topic: &str, _message: &str) -> (r: Result<(), PlatformError>)
        ensures
            r is Ok,
    {
        Ok(())
    }

    /// Removes every node of a name, if there is one.
    pub fn remove_node(&mut self, name: &str) -> (r: Result<String, PlatformError>)
        ensures
            platform::info_views(final(self).nodes@) == other_nodes(
                platform::info_views(old(self).nodes@),
                name@,
            ),
            final(self).configs == old(self).configs,
            final(self).manifests == old(self).manifests,
            platform::told(r) == match first_named(
                platform::info_views(old(self).nodes@),
                name@,
            ) {
                Some(_) => Ok::<_, PlatformErrorView>("mock: removed node "@ + name@),
                None => Err(PlatformErrorView::NodeNotFound(name@)),
            },
    {
        let ghost all = platform::info_views(self.nodes@);
        let mut kept: Vec<NodeInfo> = Vec::new();
        let mut found = false;
        assert(platform::info_views(kept@) =~= other_nodes(all.take(0), name@));
        for i in 0..self.nodes.len()
            invariant
                all == platform::info_views(self.nodes@),
                platform::info_views(kept@) == other_nodes(all.take(i as int), name@),
                found == (first_named(all.take(i as int), name@) is Some),
                self.configs == old(self).configs,
                self.manifests == old(self).manifests,
                all == platform::info_views(old(self).nodes@),
        {
            assert(all.take(i as int + 1).drop_last() =~= all.take(i as int));
            if self.nodes[i].name.as_str().eq(name) {
                found = true;
            } else {
                let ghost earlier = platform::info_views(kept@);
                kept.push(self.nodes[i].clone());
                assert(platform::info_views(kept@) =~= earlier.push(all[i as int]));
            }
        }
        assert(all.take(all.len() as int) =~= all);
        self.nodes = kept;
        if found {
            Ok(text::concat("mock: removed node ", name))
        } else {
            Err(PlatformError::NodeNotFound(name.to_owned()))
        }
    }
}

impl Default for MockPlatform {
    fn default() -> (r: MockPlatform)
        ensures
            r.is_fresh(),
    {
        MockPlatform::new()
    }
}

} // verus!
