//! What the daemon remembers of a node.
use crate::daemon::registry;
use crate::daemon::registry::{NodeManifest, NodeManifestView};
use crate::schemas::{HealthStatus, NodeState, NodeStateView, NodeStatus};
use crate::text;
use vstd::prelude::*;

verus! {

/// What is going on in a node's directory.
#[derive(Debug, Clone, Copy, PartialEq, Eq, Structural)]
pub enum BuildStatus {
    /// Nothing.
    Idle,
    /// The node is being built.
    Building,
    /// The node is being cleaned.
    Cleaning,
}

/// Build state of a node.
#[derive(Debug)]
pub struct BuildState {
    /// What is going on.
    pub status: BuildStatus,
    /// Lines that the last build or clean wrote.
    pub output: Vec<String>,
}

/// The contents of a [`BuildState`].
pub struct BuildStateView {
    pub status: BuildStatus,
    pub output: Seq<Seq<char>>,
}

impl View for BuildState {
    type V = BuildStateView;

    open spec fn view(&self) -> BuildStateView {
        BuildStateView { status: self.status, output: text::views(self.output@) }
    }
}

impl BuildStateView {
    /// The state of a node that was never built: idle, with no output.
    pub open spec fn initial() -> BuildStateView {
        BuildStateView { status: BuildStatus::Idle, output: Seq::empty() }
    }

    /// Whether a build or a clean is going on.
    pub open spec fn busy(self) -> bool {
        self.status != BuildStatus::Idle
    }
}

impl Clone for BuildState {
    fn clone(&self) -> (r: Self)
        ensures
            r@ == self@,
    {
        BuildState { status: self.status, output: text::copy_texts(self.output.as_slice()) }
    }
}

impl Default for BuildState {
    fn default() -> (r: Self)
        ensures
            r@ == BuildStateView::initial(),
    {
        let r = BuildState { status: BuildStatus::Idle, output: Vec::new() };
        assert(text::views(r.output@) =~= Seq::empty());
        r
    }
}

/// What the daemon remembers of a node.
#[derive(Debug)]
pub struct CachedNode {
    /// Directory of the node.
    pub path: String,
    /// The node's description of itself, if it could be read.
    pub manifest: Option<NodeManifest>,
    /// What the node is doing.
    pub status: NodeStatus,
    /// Whether a service is installed.
    pub installed: bool,
    /// Whether the service starts at login.
    pub autostart_enabled: bool,
    /// Whether the node's program is there.
    pub is_built: bool,
    /// What is going on in the node's directory.
    pub build_state: BuildState,
    /// When the state was read, in milliseconds since the epoch.
    pub last_updated_ms: i64,
    /// Health status based on heartbeat monitoring.
    pub health_status: HealthStatus,
    /// Last heartbeat timestamp (milliseconds since the epoch); 0 for never.
    pub last_health_check_ms: i64,
    /// Instance name override (for multi-instance nodes).
    pub name_override: Option<String>,
    /// Config file path override (for multi-instance nodes).
    pub config_override: Option<String>,
}

/// The contents of a [`CachedNode`].
pub struct CachedNodeView {
    pub path: Seq<char>,
    pub manifest: Option<NodeManifestView>,
    pub status: NodeStatus,
    pub installed: bool,
    pub autostart_enabled: bool,
    pub is_built: bool,
    pub build_state: BuildStateView,
    pub last_updated_ms: i64,
    pub health_status: HealthStatus,
    pub last_health_check_ms: i64,
    pub name_override: Option<Seq<char>>,
    pub config_override: Option<Seq<char>>,
}

impl View for CachedNode {
    type V = CachedNodeView;

    open spec fn view(&self) -> CachedNodeView {
        CachedNodeView {
            path: self.path@,
            manifest: registry::opt_manifest(self.manifest),
            status: self.status,
            installed: self.installed,
            autostart_enabled: self.autostart_enabled,
            is_built: self.is_built,
            build_state: self.build_state@,
            last_updated_ms: self.last_updated_ms,
            health_status: self.health_status,
            last_health_check_ms: self.last_health_check_ms,
            name_override: text::opt_view(self.name_override),
            config_override: text::opt_view(self.config_override),
        }
    }
}

/// An optional text, the empty text for none.
pub open spec fn or_empty(v: Option<Seq<char>>) -> Seq<char> {
    match v {
        Some(s) => s,
        None => Seq::empty(),
    }
}

impl CachedNodeView {
    /// The name that the node goes by.
    pub open spec fn name(self) -> Seq<char> {
        registry::name_of(self.name_override, self.manifest)
    }

    /// The node that this one is an instance of: the name in the manifest, for a node with an
    /// instance name, else nothing.
    pub open spec fn base_node(self) -> Seq<char> {
        match (self.name_override, self.manifest) {
            (Some(_), Some(m)) => m.name,
            _ => Seq::empty(),
        }
    }

    /// What is reported of the node.
    pub open spec fn state(
        self,
        machine_id: Seq<char>,
        machine_hostname: Seq<char>,
        machine_ips: Seq<Seq<char>>,
    ) -> NodeStateView {
        NodeStateView {
            name: self.name(),
            path: self.path,
            status: self.status.code(),
            installed: self.installed,
            autostart_enabled: self.autostart_enabled,
            version: match self.manifest {
                Some(m) => m.version,
                None => "0.0.0"@,
            },
            description: match self.manifest {
                Some(m) => m.description,
                None => Seq::empty(),
            },
            node_type: match self.manifest {
                Some(m) => m.node_type,
                None => "unknown"@,
            },
            is_built: self.is_built,
            last_updated_ms: self.last_updated_ms,
            build_output: self.build_state.output,
            health_status: self.health_status.code(),
            last_health_check_ms: self.last_health_check_ms,
            machine_id,
            machine_hostname,
            machine_ips,
            base_node: self.base_node(),
            config_override: or_empty(self.config_override),
        }
    }
}

impl Clone for CachedNode {
    fn clone(&self) -> (r: Self)
        ensures
            r@ == self@,
    {
        CachedNode {
            path: self.path.clone(),
            manifest: registry::copy_manifest(&self.manifest),
            status: self.status,
            installed: self.installed,
            autostart_enabled: self.autostart_enabled,
            is_built: self.is_built,
            build_state: self.build_state.clone(),
            last_updated_ms: self.last_updated_ms,
            health_status: self.health_status,
            last_health_check_ms: self.last_health_check_ms,
            name_override: text::copy_opt(&self.name_override),
            config_override: text::copy_opt(&self.config_override),
        }
    }
}

impl CachedNode {
    /// The name that the node goes by: its instance name if it has one, else the name in its
    /// manifest, else `unknown`.
    pub fn effective_name(&self) -> (r: String)
        ensures
            r@ == self@.name(),
    {
        registry::effective_name(&self.name_override, &self.manifest)
    }

    /// What is reported of the node on the given machine.
    pub fn to_proto(
        &self,
        machine_id: &str,
        machine_hostname: &str,
        machine_ips: &[String],
    ) -> (r: NodeState)
        ensures
            r@ == self@.state(machine_id@, machine_hostname@, text::views(machine_ips@)),
            r.path@ == self.path@,
            r.status == self.status.code(),
            r.installed == self.installed,
            r.autostart_enabled == self.autostart_enabled,
            r.is_built == self.is_built,
            r.last_updated_ms == self.last_updated_ms,
            r.health_status == self.health_status.code(),
            r.last_health_check_ms == self.last_health_check_ms,
    {
        let (base_name, version, description, node_type) = match &self.manifest {
            Some(m) => (
                m.name.clone(),
                m.version.clone(),
                m.description.clone(),
                m.node_type.clone(),
            ),
            None => (String::new(), "0.0.0".to_owned(), String::new(), "unknown".to_owned()),
        };
        let base_node = if self.name_override.is_some() && !base_name.as_str().is_empty() {
            base_name
        } else {
            String::new()
        };
        assert(base_node@ =~= self@.base_node());
        NodeState {
            name: self.effective_name(),
            path: self.path.clone(),
            status: self.status.to_code(),
            installed: self.installed,
            autostart_enabled: self.autostart_enabled,
            version,
            description,
            node_type,
            is_built: self.is_built,
            last_updated_ms: self.last_updated_ms,
            build_output: text::copy_texts(self.build_state.output.as_slice()),
            health_status: self.health_status.to_code(),
            last_health_check_ms: self.last_health_check_ms,
            machine_id: machine_id.to_owned(),
            machine_hostname: machine_hostname.to_owned(),
            machine_ips: text::copy_texts(machine_ips),
            base_node,
            config_override: match &self.config_override {
                Some(config) => config.clone(),
                None => String::new(),
            },
        }
    }
}

/// An instance with a name of its own reports the node that it is an instance of, and a node
/// that goes by the name in its manifest reports none.
pub proof fn instances_name_their_base(
    node: CachedNodeView,
    machine_id: Seq<char>,
    machine_hostname: Seq<char>,
    machine_ips: Seq<Seq<char>>,
)
    requires
        node.manifest is Some,
    ensures
        ({
            let state = node.state(machine_id, machine_hostname, machine_ips);
            match node.name_override {
                Some(name) => state.name == name && state.base_node == node.manifest->0.name,
                None => state.name == node.manifest->0.name && state.base_node.len() == 0,
            }
        }),
{
}

} // verus!
