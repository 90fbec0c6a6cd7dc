//! Messages exchanged between the daemon and its clients.
use crate::text;
use vstd::prelude::*;

verus! {

/// What a node is doing.
#[derive(Debug, Clone, Copy, PartialEq, Eq, Structural)]
pub enum NodeStatus {
    /// Nothing is known of the node.
    Unknown,
    /// Installed and not running.
    Stopped,
    /// Installed and running.
    Running,
    /// Installed, and its service failed.
    Failed,
    /// No service is installed for the node.
    NotInstalled,
    /// A build or clean is in progress.
    Building,
}

impl NodeStatus {
    /// The number that stands for the value on the wire.
    pub open spec fn code(self) -> i32 {
        match self {
            NodeStatus::Unknown => 0,
            NodeStatus::Stopped => 1,
            NodeStatus::Running => 2,
            NodeStatus::Failed => 3,
            NodeStatus::NotInstalled => 4,
            NodeStatus::Building => 5,
        }
    }

    /// The number that stands for the value on the wire.
    pub fn to_code(self) -> (r: i32)
        ensures
            r == self.code(),
    {
        match self {
            NodeStatus::Unknown => 0,
            NodeStatus::Stopped => 1,
            NodeStatus::Running => 2,
            NodeStatus::Failed => 3,
            NodeStatus::NotInstalled => 4,
            NodeStatus::Building => 5,
        }
    }

    /// The value that a wire number stands for, if there is one.
    pub fn from_code(code: i32) -> (r: Option<NodeStatus>)
        ensures
            r matches Some(v) ==> v.code() == code,
            r is None <==> !(0 <= code < 6),
    {
        match code {
            0 => Some(NodeStatus::Unknown),
            1 => Some(NodeStatus::Stopped),
            2 => Some(NodeStatus::Running),
            3 => Some(NodeStatus::Failed),
            4 => Some(NodeStatus::NotInstalled),
            5 => Some(NodeStatus::Building),
            _ => None,
        }
    }

    /// The value's name as it is shown.
    pub open spec fn label(self) -> Seq<char> {
        match self {
            NodeStatus::Unknown => "Unknown"@,
            NodeStatus::Stopped => "Stopped"@,
            NodeStatus::Running => "Running"@,
            NodeStatus::Failed => "Failed"@,
            NodeStatus::NotInstalled => "NotInstalled"@,
            NodeStatus::Building => "Building"@,
        }
    }

    /// The value's name as it is shown.
    pub fn to_label(self) -> (r: String)
        ensures
            r@ == self.label(),
    {
        match self {
            NodeStatus::Unknown => "Unknown".to_owned(),
            NodeStatus::Stopped => "Stopped".to_owned(),
            NodeStatus::Running => "Running".to_owned(),
            NodeStatus::Failed => "Failed".to_owned(),
            NodeStatus::NotInstalled => "NotInstalled".to_owned(),
            NodeStatus::Building => "Building".to_owned(),
        }
    }
}

/// What heartbeats say of a node.
#[derive(Debug, Clone, Copy, PartialEq, Eq, Structural)]
pub enum HealthStatus {
    /// No heartbeat has been judged.
    Unknown,
    /// A heartbeat came in time.
    Healthy,
    /// Heartbeats have stopped.
    Unhealthy,
}

impl HealthStatus {
    /// The number that stands for the value on the wire.
    pub open spec fn code(self) -> i32 {
        match self {
            HealthStatus::Unknown => 0,
            HealthStatus::Healthy => 1,
            HealthStatus::Unhealthy => 2,
        }
    }

    /// The number that stands for the value on the wire.
    pub fn to_code(self) -> (r: i32)
        ensures
            r == self.code(),
    {
        match self {
            HealthStatus::Unknown => 0,
            HealthStatus::Healthy => 1,
            HealthStatus::Unhealthy => 2,
        }
    }

    /// The value that a wire number stands for, if there is one.
    pub fn from_code(code: i32) -> (r: Option<HealthStatus>)
        ensures
            r matches Some(v) ==> v.code() == code,
            r is None <==> !(0 <= code < 3),
    {
        match code {
            0 => Some(HealthStatus::Unknown),
            1 => Some(HealthStatus::Healthy),
            2 => Some(HealthStatus::Unhealthy),
            _ => None,
        }
    }

    /// The value's name as it is shown.
    pub open spec fn label(self) -> Seq<char> {
        match self {
            HealthStatus::Unknown => "Unknown"@,
            HealthStatus::Healthy => "Healthy"@,
            HealthStatus::Unhealthy => "Unhealthy"@,
        }
    }

    /// The value's name as it is shown.
    pub fn to_label(self) -> (r: String)
        ensures
            r@ == self.label(),
    {
        match self {
            HealthStatus::Unknown => "Unknown".to_owned(),
            HealthStatus::Healthy => "Healthy".to_owned(),
            HealthStatus::Unhealthy => "Unhealthy".to_owned(),
        }
    }
}

/// What a command asks for.
#[derive(Debug, Clone, Copy, PartialEq, Eq, Structural)]
pub enum CommandType {
    /// Start the node's service.
    Start,
    /// Stop the node's service.
    Stop,
    /// Restart the node's service.
    Restart,
    /// Install the node's service.
    Install,
    /// Uninstall the node's service.
    Uninstall,
    /// Run the node's build command.
    Build,
    /// Remove the node's build products.
    Clean,
    /// Start the service at login.
    EnableAutostart,
    /// Do not start the service at login.
    DisableAutostart,
    /// Register a node.
    AddNode,
    /// Remove a node from the registry.
    RemoveNode,
    /// Read registry and services again.
    Refresh,
    /// Fetch the service's log.
    GetLogs,
}

impl CommandType {
    /// The number that stands for the value on the wire.
    pub open spec fn code(self) -> i32 {
        match self {
            CommandType::Start => 0,
            CommandType::Stop => 1,
            CommandType::Restart => 2,
            CommandType::Install => 3,
            CommandType::Uninstall => 4,
            CommandType::Build => 5,
            CommandType::Clean => 6,
            CommandType::EnableAutostart => 7,
            CommandType::DisableAutostart => 8,
            CommandType::AddNode => 9,
            CommandType::RemoveNode => 10,
            CommandType::Refresh => 11,
            CommandType::GetLogs => 12,
        }
    }

    /// The number that stands for the value on the wire.
    pub fn to_code(self) -> (r: i32)
        ensures
            r == self.code(),
    {
        match self {
            CommandType::Start => 0,
            CommandType::Stop => 1,
            CommandType::Restart => 2,
            CommandType::Install => 3,
            CommandType::Uninstall => 4,
            CommandType::Build => 5,
            CommandType::Clean => 6,
            CommandType::EnableAutostart => 7,
            CommandType::DisableAutostart => 8,
            CommandType::AddNode => 9,
            CommandType::RemoveNode => 10,
            CommandType::Refresh => 11,
            CommandType::GetLogs => 12,
        }
    }

    /// The value that a wire number stands for, if there is one.
    pub fn from_code(code: i32) -> (r: Option<CommandType>)
        ensures
            r matches Some(v) ==> v.code() == code,
            r is None <==> !(0 <= code < 13),
    {
        match code {
            0 => Some(CommandType::Start),
            1 => Some(CommandType::Stop),
            2 => Some(CommandType::Restart),
            3 => Some(CommandType::Install),
            4 => Some(CommandType::Uninstall),
            5 => Some(CommandType::Build),
            6 => Some(CommandType::Clean),
            7 => Some(CommandType::EnableAutostart),
            8 => Some(CommandType::DisableAutostart),
            9 => Some(CommandType::AddNode),
            10 => Some(CommandType::RemoveNode),
            11 => Some(CommandType::Refresh),
            12 => Some(CommandType::GetLogs),
            _ => None,
        }
    }
}

/// Wire numbers name values: two node statuses, two health statuses or two command types with
/// the same number are the same, and reading a number that was written gives the value back.
pub proof fn codes_identify_values(
    a: NodeStatus,
    b: NodeStatus,
    c: HealthStatus,
    d: HealthStatus,
    e: CommandType,
    f: CommandType,
)
    ensures
        a.code() == b.code() ==> a == b,
        c.code() == d.code() ==> c == d,
        e.code() == f.code() ==> e == f,
        0 <= a.code() < 6,
        0 <= c.code() < 3,
        0 <= e.code() < 13,
{
}

/// The numbers on the wire and the names that are shown stand for these values.
pub proof fn numbers_stand_for_values()
    ensures
        NodeStatus::Unknown.code() == 0,
        NodeStatus::Stopped.code() == 1,
        NodeStatus::Running.code() == 2,
        NodeStatus::Failed.code() == 3,
        NodeStatus::NotInstalled.code() == 4,
        NodeStatus::Building.code() == 5,
        NodeStatus::Unknown.label() == "Unknown"@,
        NodeStatus::Stopped.label() == "Stopped"@,
        NodeStatus::Running.label() == "Running"@,
        NodeStatus::Failed.label() == "Failed"@,
        NodeStatus::NotInstalled.label() == "NotInstalled"@,
        NodeStatus::Building.label() == "Building"@,
        HealthStatus::Unknown.code() == 0,
        HealthStatus::Healthy.code() == 1,
        HealthStatus::Unhealthy.code() == 2,
        HealthStatus::Unknown.label() == "Unknown"@,
        HealthStatus::Healthy.label() == "Healthy"@,
        HealthStatus::Unhealthy.label() == "Unhealthy"@,
{
}

/// What is reported of a node.
#[derive(Debug)]
pub struct NodeState {
    /// The name the node goes by.
    pub name: String,
    /// Directory of the node.
    pub path: String,
    /// Wire number of a [`NodeStatus`].
    pub status: i32,
    /// Whether a service is installed.
    pub installed: bool,
    /// Whether the service starts at login.
    pub autostart_enabled: bool,
    /// Version of the node.
    pub version: String,
    /// What the node is for.
    pub description: String,
    /// Kind of node, such as `rust` or `python`.
    pub node_type: String,
    /// Whether the node's program is there.
    pub is_built: bool,
    /// When the state was read, in milliseconds since the epoch.
    pub last_updated_ms: i64,
    /// Lines of the last build or clean.
    pub build_output: Vec<String>,
    /// Wire number of a [`HealthStatus`].
    pub health_status: i32,
    /// When the last heartbeat came; 0 for never.
    pub last_health_check_ms: i64,
    /// Machine the node is on.
    pub machine_id: String,
    /// Host name of that machine.
    pub machine_hostname: String,
    /// Addresses of that machine.
    pub machine_ips: Vec<String>,
    /// For a renamed instance, the node it is an instance of.
    pub base_node: String,
    /// Configuration file of the instance, or empty.
    pub config_override: String,
}

/// The contents of a [`NodeState`].
pub struct NodeStateView {
    pub name: Seq<char>,
    pub path: Seq<char>,
    pub status: i32,
    pub installed: bool,
    pub autostart_enabled: bool,
    pub version: Seq<char>,
    pub description: Seq<char>,
    pub node_type: Seq<char>,
    pub is_built: bool,
    pub last_updated_ms: i64,
    pub build_output: Seq<Seq<char>>,
    pub health_status: i32,
    pub last_health_check_ms: i64,
    pub machine_id: Seq<char>,
    pub machine_hostname: Seq<char>,
    pub machine_ips: Seq<Seq<char>>,
    pub base_node: Seq<char>,
    pub config_override: Seq<char>,
}

impl View for NodeState {
    type V = NodeStateView;

    open spec fn view(&self) -> NodeStateView {
        NodeStateView {
            name: self.name@,
            path: self.path@,
            status: self.status,
            installed: self.installed,
            autostart_enabled: self.autostart_enabled,
            version: self.version@,
            description: self.description@,
            node_type: self.node_type@,
            is_built: self.is_built,
            last_updated_ms: self.last_updated_ms,
            build_output: text::views(self.build_output@),
            health_status: self.health_status,
            last_health_check_ms: self.last_health_check_ms,
            machine_id: self.machine_id@,
            machine_hostname: self.machine_hostname@,
            machine_ips: text::views(self.machine_ips@),
            base_node: self.base_node@,
            config_override: self.config_override@,
        }
    }
}

impl Clone for NodeState {
    fn clone(&self) -> (r: Self)
        ensures
            r@ == self@,
    {
        NodeState {
            name: self.name.clone(),
            path: self.path.clone(),
            status: self.status,
            installed: self.installed,
            autostart_enabled: self.autostart_enabled,
            version: self.version.clone(),
            description: self.description.clone(),
            node_type: self.node_type.clone(),
            is_built: self.is_built,
            last_updated_ms: self.last_updated_ms,
            build_output: text::copy_texts(self.build_output.as_slice()),
            health_status: self.health_status,
            last_health_check_ms: self.last_health_check_ms,
            machine_id: self.machine_id.clone(),
            machine_hostname: self.machine_hostname.clone(),
            machine_ips: text::copy_texts(self.machine_ips.as_slice()),
            base_node: self.base_node.clone(),
            config_override: self.config_override.clone(),
        }
    }
}

/// The contents of a list of states.
pub open spec fn state_views(v: Seq<NodeState>) -> Seq<NodeStateView> {
    Seq::new(v.len(), |i: int| v[i]@)
}

/// The contents of an optional state.
pub open spec fn opt_state(v: Option<NodeState>) -> Option<NodeStateView> {
    match v {
        Some(s) => Some(s@),
        None => None,
    }
}

/// A copy of an optional state.
pub fn copy_state(v: &Option<NodeState>) -> (r: Option<NodeState>)
    ensures
        opt_state(r) == opt_state(*v),
{
    match v {
        Some(s) => Some(s.clone()),
        None => None,
    }
}

/// A copy of a list of states.
pub fn copy_states(v: &Vec<NodeState>) -> (r: Vec<NodeState>)
    ensures
        state_views(r@) == state_views(v@),
{
    let mut r: Vec<NodeState> = Vec::new();
    for i in 0..v.len()
        invariant
            r@.len() == i,
            forall|j: int| 0 <= j < i ==> (#[trigger] r@[j])@ == v@[j]@,
    {
        r.push(v[i].clone());
    }
    assert(state_views(r@) =~= state_views(v@));
    r
}

/// All nodes of a machine.
#[derive(Debug)]
pub struct NodeList {
    /// The nodes.
    pub nodes: Vec<NodeState>,
    /// When the list was made.
    pub timestamp_ms: i64,
    /// Machine the list is of.
    pub machine_id: String,
}

/// The contents of a [`NodeList`].
pub struct NodeListView {
    pub nodes: Seq<NodeStateView>,
    pub timestamp_ms: i64,
    pub machine_id: Seq<char>,
}

impl View for NodeList {
    type V = NodeListView;

    open spec fn view(&self) -> NodeListView {
        NodeListView {
            nodes: state_views(self.nodes@),
            timestamp_ms: self.timestamp_ms,
            machine_id: self.machine_id@,
        }
    }
}

impl Clone for NodeList {
    fn clone(&self) -> (r: Self)
        ensures
            r@ == self@,
    {
        NodeList {
            nodes: copy_states(&self.nodes),
            timestamp_ms: self.timestamp_ms,
            machine_id: self.machine_id.clone(),
        }
    }
}

/// Something that happened to a node.
#[derive(Debug)]
pub struct NodeEvent {
    /// What happened.
    pub event_type: String,
    /// The node it happened to.
    pub node_name: String,
    /// State of the node afterwards.
    pub state: Option<NodeState>,
    /// When it happened.
    pub timestamp_ms: i64,
}

/// The contents of a [`NodeEvent`].
pub struct NodeEventView {
    pub event_type: Seq<char>,
    pub node_name: Seq<char>,
    pub state: Option<NodeStateView>,
    pub timestamp_ms: i64,
}

impl View for NodeEvent {
    type V = NodeEventView;

    open spec fn view(&self) -> NodeEventView {
        NodeEventView {
            event_type: self.event_type@,
            node_name: self.node_name@,
            state: opt_state(self.state),
            timestamp_ms: self.timestamp_ms,
        }
    }
}

impl Clone for NodeEvent {
    fn clone(&self) -> (r: Self)
        ensures
            r@ == self@,
    {
        NodeEvent {
            event_type: self.event_type.clone(),
            node_name: self.node_name.clone(),
            state: copy_state(&self.state),
            timestamp_ms: self.timestamp_ms,
        }
    }
}

/// A request to do something with a node.
#[derive(Debug)]
pub struct NodeCommand {
    /// Wire number of a [`CommandType`].
    pub command: i32,
    /// The node meant.
    pub node_name: String,
    /// Name of this request.
    pub request_id: String,
    /// When it was made.
    pub timestamp_ms: i64,
    /// Who asks.
    pub source_machine: String,
    /// Machine meant, or empty.
    pub target_machine: String,
    /// Directory of a node to add, or empty.
    pub node_path: String,
    /// Instance name of a node to add, or empty.
    pub name_override: String,
    /// Configuration file of a node to add, or empty.
    pub config_override: String,
}

/// The contents of a [`NodeCommand`].
pub struct NodeCommandView {
    pub command: i32,
    pub node_name: Seq<char>,
    pub request_id: Seq<char>,
    pub timestamp_ms: i64,
    pub source_machine: Seq<char>,
    pub target_machine: Seq<char>,
    pub node_path: Seq<char>,
    pub name_override: Seq<char>,
    pub config_override: Seq<char>,
}

impl View for NodeCommand {
    type V = NodeCommandView;

    open spec fn view(&self) -> NodeCommandView {
        NodeCommandView {
            command: self.command,
            node_name: self.node_name@,
            request_id: self.request_id@,
            timestamp_ms: self.timestamp_ms,
            source_machine: self.source_machine@,
            target_machine: self.target_machine@,
            node_path: self.node_path@,
            name_override: self.name_override@,
            config_override: self.config_override@,
        }
    }
}

impl Clone for NodeCommand {
    fn clone(&self) -> (r: Self)
        ensures
            r@ == self@,
    {
        NodeCommand {
            command: self.command,
            node_name: self.node_name.clone(),
            request_id: self.request_id.clone(),
            timestamp_ms: self.timestamp_ms,
            source_machine: self.source_machine.clone(),
            target_machine: self.target_machine.clone(),
            node_path: self.node_path.clone(),
            name_override: self.name_override.clone(),
            config_override: self.config_override.clone(),
        }
    }
}

/// The answer to a [`NodeCommand`].
#[derive(Debug)]
pub struct CommandResult {
    /// Name of the request that is answered.
    pub request_id: String,
    /// Whether it was carried out.
    pub success: bool,
    /// What was done, or what went wrong.
    pub message: String,
    /// Further text, such as a log.
    pub output: String,
    /// State of the node meant, if there is such a node.
    pub node_state: Option<NodeState>,
    /// When the answer was made.
    pub timestamp_ms: i64,
    /// Machine that answers.
    pub responding_machine: String,
}

/// The contents of a [`CommandResult`].
pub struct CommandResultView {
    pub request_id: Seq<char>,
    pub success: bool,
    pub message: Seq<char>,
    pub output: Seq<char>,
    pub node_state: Option<NodeStateView>,
    pub timestamp_ms: i64,
    pub responding_machine: Seq<char>,
}

impl View for CommandResult {
    type V = CommandResultView;

    open spec fn view(&self) -> CommandResultView {
        CommandResultView {
            request_id: self.request_id@,
            success: self.success,
            message: self.message@,
            output: self.output@,
            node_state: opt_state(self.node_state),
            timestamp_ms: self.timestamp_ms,
            responding_machine: self.responding_machine@,
        }
    }
}

impl Clone for CommandResult {
    fn clone(&self) -> (r: Self)
        ensures
            r@ == self@,
    {
        CommandResult {
            request_id: self.request_id.clone(),
            success: self.success,
            message: self.message.clone(),
            output: self.output.clone(),
            node_state: copy_state(&self.node_state),
            timestamp_ms: self.timestamp_ms,
            responding_machine: self.responding_machine.clone(),
        }
    }
}

} // verus!
