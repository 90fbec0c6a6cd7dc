//! What tools ask of the daemon, and what they are told.
use crate::clock;
use crate::daemon::commands;
use crate::daemon::commands::ActionView;
use crate::daemon::node;
use crate::daemon::node_manager;
use crate::daemon::registry::{NodeManifest, NodeManifestView};
use crate::ids;
use crate::json;
use crate::schemas;
use crate::schemas::{
    CommandResult, CommandResultView, CommandType, HealthStatus, NodeCommandView, NodeList,
    NodeState, NodeStateView, NodeStatus,
};
use crate::text;
use crate::validation;
use vstd::prelude::*;
use vstd::string::*;
use vstd::utf8::*;

verus! {

// ---- errors ----------------------------------------------------------------

/// Why the daemon could not do what a tool asked.
#[derive(Debug)]
pub enum PlatformError {
    /// There is no node of this name.
    NodeNotFound(String),
    /// A command failed.
    CommandFailed(String),
    /// What was asked makes no sense.
    InvalidInput(String),
    /// Something failed that has nothing to do with what was asked.
    Internal(String),
}

/// The contents of a [`PlatformError`].
pub enum PlatformErrorView {
    NodeNotFound(Seq<char>),
    CommandFailed(Seq<char>),
    InvalidInput(Seq<char>),
    Internal(Seq<char>),
}

impl View for PlatformError {
    type V = PlatformErrorView;

    open spec fn view(&self) -> PlatformErrorView {
        match self {
            PlatformError::NodeNotFound(s) => PlatformErrorView::NodeNotFound(s@),
            PlatformError::CommandFailed(s) => PlatformErrorView::CommandFailed(s@),
            PlatformError::InvalidInput(s) => PlatformErrorView::InvalidInput(s@),
            PlatformError::Internal(s) => PlatformErrorView::Internal(s@),
        }
    }
}

impl PlatformErrorView {
    /// The error in words.
    pub open spec fn text(self) -> Seq<char> {
        match self {
            PlatformErrorView::NodeNotFound(s) => "Node not found: "@ + s,
            PlatformErrorView::CommandFailed(s) => "Command failed: "@ + s,
            PlatformErrorView::InvalidInput(s) => "Invalid input: "@ + s,
            PlatformErrorView::Internal(s) => "Internal error: "@ + s,
        }
    }
}

impl PlatformError {
    /// The error in words.
    pub fn to_string(&self) -> (r: String)
        ensures
            r@ == self@.text(),
    {
        match self {
            PlatformError::NodeNotFound(s) => text::concat("Node not found: ", s.as_str()),
            PlatformError::CommandFailed(s) => text::concat("Command failed: ", s.as_str()),
            PlatformError::InvalidInput(s) => text::concat("Invalid input: ", s.as_str()),
            PlatformError::Internal(s) => text::concat("Internal error: ", s.as_str()),
        }
    }
}

/// What a tool is told, or why it is told nothing.
pub open spec fn told(r: Result<String, PlatformError>) -> Result<Seq<char>, PlatformErrorView> {
    match r {
        Ok(message) => Ok(message@),
        Err(e) => Err(e@),
    }
}

// ---- nodes -----------------------------------------------------------------

/// What a list of nodes says of one of them.
#[derive(Debug)]
pub struct NodeInfo {
    /// The name that the node goes by.
    pub name: String,
    /// What the node is doing.
    pub status: String,
    /// What its heartbeats say.
    pub health: String,
    /// Kind of node.
    pub node_type: String,
    /// Whether a service is installed.
    pub installed: bool,
    /// Whether its program is there.
    pub is_built: bool,
}

/// The contents of a [`NodeInfo`].
pub struct NodeInfoView {
    pub name: Seq<char>,
    pub status: Seq<char>,
    pub health: Seq<char>,
    pub node_type: Seq<char>,
    pub installed: bool,
    pub is_built: bool,
}

impl View for NodeInfo {
    type V = NodeInfoView;

    open spec fn view(&self) -> NodeInfoView {
        NodeInfoView {
            name: self.name@,
            status: self.status@,
            health: self.health@,
            node_type: self.node_type@,
            installed: self.installed,
            is_built: self.is_built,
        }
    }
}

impl Clone for NodeInfo {
    fn clone(&self) -> (r: Self)
        ensures
            r@ == self@,
    {
        NodeInfo {
            name: self.name.clone(),
            status: self.status.clone(),
            health: self.health.clone(),
            node_type: self.node_type.clone(),
            installed: self.installed,
            is_built: self.is_built,
        }
    }
}

/// The contents of a list of node summaries.
pub open spec fn info_views(v: Seq<NodeInfo>) -> Seq<NodeInfoView> {
    Seq::new(v.len(), |i: int| v[i]@)
}

/// The name of the status that a wire number stands for; an unknown number counts as unknown
/// status.
pub open spec fn status_label(code: i32) -> Seq<char> {
    if 0 <= code < 6 {
        (choose|s: NodeStatus| #[trigger] s.code() == code).label()
    } else {
        NodeStatus::Unknown.label()
    }
}

/// The name of the health that a wire number stands for; an unknown number counts as unknown
/// health.
pub open spec fn health_label(code: i32) -> Seq<char> {
    if 0 <= code < 3 {
        (choose|s: HealthStatus| #[trigger] s.code() == code).label()
    } else {
        HealthStatus::Unknown.label()
    }
}

/// A status is shown under its own name, and so is health.
pub proof fn labels_name_codes(status: NodeStatus, health: HealthStatus)
    ensures
        status_label(status.code()) == status.label(),
        health_label(health.code()) == health.label(),
{
    let s = choose|s: NodeStatus| #[trigger] s.code() == status.code();
    let h = choose|h: HealthStatus| #[trigger] h.code() == health.code();
    schemas::codes_identify_values(
        s,
        status,
        h,
        health,
        CommandType::Start,
        CommandType::Start,
    );
}

fn show_status(code: i32) -> (r: String)
    ensures
        r@ == status_label(code),
{
    match NodeStatus::from_code(code) {
        Some(s) => {
            proof {
                labels_name_codes(s, HealthStatus::Unknown);
            }
            s.to_label()
        },
        None => NodeStatus::Unknown.to_label(),
    }
}

fn show_health(code: i32) -> (r: String)
    ensures
        r@ == health_label(code),
{
    match HealthStatus::from_code(code) {
        Some(h) => {
            proof {
                labels_name_codes(NodeStatus::Unknown, h);
            }
            h.to_label()
        },
        None => HealthStatus::Unknown.to_label(),
    }
}

/// What a list of nodes says of a node.
pub open spec fn info_of(node: NodeStateView) -> NodeInfoView {
    NodeInfoView {
        name: node.name,
        status: status_label(node.status),
        health: health_label(node.health_status),
        node_type: node.node_type,
        installed: node.installed,
        is_built: node.is_built,
    }
}

/// What a list of nodes says of each of them.
pub fn list_nodes(list: &NodeList) -> (r: Vec<NodeInfo>)
    ensures
        info_views(r@) == Seq::new(list@.nodes.len(), |i: int| info_of(list@.nodes[i])),
        r@.len() == list.nodes@.len(),
        forall|i: int|
            0 <= i < r@.len() ==> {
                &&& (#[trigger] r@[i]).name@ == list.nodes@[i].name@
                &&& r@[i].installed == list.nodes@[i].installed
                &&& r@[i].is_built == list.nodes@[i].is_built
            },
{
    let mut r: Vec<NodeInfo> = Vec::new();
    for i in 0..list.nodes.len()
        invariant
            r@.len() == i,
            forall|j: int| 0 <= j < i ==> (#[trigger] r@[j])@ == info_of(list@.nodes[j]),
            forall|j: int|
                0 <= j < i ==> {
                    &&& (#[trigger] r@[j]).name@ == list.nodes@[j].name@
                    &&& r@[j].installed == list.nodes@[j].installed
                    &&& r@[j].is_built == list.nodes@[j].is_built
                },
    {
        let node = &list.nodes[i];
        r.push(
            NodeInfo {
                name: node.name.clone(),
                status: show_status(node.status),
                health: show_health(node.health_status),
                node_type: node.node_type.clone(),
                installed: node.installed,
                is_built: node.is_built,
            },
        );
    }
    assert(info_views(r@) =~= Seq::new(list@.nodes.len(), |i: int| info_of(list@.nodes[i])));
    r
}

/// All that is told of one node.
#[derive(Debug)]
pub struct NodeDetail {
    /// The name that the node goes by.
    pub name: String,
    /// What the node is doing.
    pub status: String,
    /// What its heartbeats say.
    pub health_status: String,
    /// Kind of node.
    pub node_type: String,
    /// Whether a service is installed.
    pub installed: bool,
    /// Whether its program is there.
    pub is_built: bool,
    /// When the last heartbeat came; 0 for never.
    pub last_health_check_ms: i64,
    /// When the state was read.
    pub last_updated_ms: i64,
    /// Directory of the node.
    pub path: String,
    /// Version of the node.
    pub version: String,
    /// What the node is for.
    pub description: String,
    /// Machine the node is on.
    pub machine_id: String,
}

/// The contents of a [`NodeDetail`].
pub struct NodeDetailView {
    pub name: Seq<char>,
    pub status: Seq<char>,
    pub health_status: Seq<char>,
    pub node_type: Seq<char>,
    pub installed: bool,
    pub is_built: bool,
    pub last_health_check_ms: i64,
    pub last_updated_ms: i64,
    pub path: Seq<char>,
    pub version: Seq<char>,
    pub description: Seq<char>,
    pub machine_id: Seq<char>,
}

impl View for NodeDetail {
    type V = NodeDetailView;

    open spec fn view(&self) -> NodeDetailView {
        NodeDetailView {
            name: self.name@,
            status: self.status@,
            health_status: self.health_status@,
            node_type: self.node_type@,
            installed: self.installed,
            is_built: self.is_built,
            last_health_check_ms: self.last_health_check_ms,
            last_updated_ms: self.last_updated_ms,
            path: self.path@,
            version: self.version@,
            description: self.description@,
            machine_id: self.machine_id@,
        }
    }
}

/// All that is told of a node.
pub open spec fn detail_of(node: NodeStateView) -> NodeDetailView {
    NodeDetailView {
        name: node.name,
        status: status_label(node.status),
        health_status: health_label(node.health_status),
        node_type: node.node_type,
        installed: node.installed,
        is_built: node.is_built,
        last_health_check_ms: node.last_health_check_ms,
        last_updated_ms: node.last_updated_ms,
        path: node.path,
        version: node.version,
        description: node.description,
        machine_id: node.machine_id,
    }
}

/// All that is told of the node that was asked about, if there is such a node.
pub fn get_node_detail(node: Option<NodeState>, name: &str) -> (r: Result<
    NodeDetail,
    PlatformError,
>)
    ensures
        match node {
            Some(state) => r matches Ok(detail) && {
                &&& detail@ == detail_of(state@)
                &&& detail.installed == state.installed
                &&& detail.is_built == state.is_built
                &&& detail.name@ == state.name@
                &&& detail.path@ == state.path@
            },
            None => r matches Err(e) && e@ == PlatformErrorView::NodeNotFound(name@),
        },
{
    match node {
        Some(state) => Ok(
            NodeDetail {
                status: show_status(state.status),
                health_status: show_health(state.health_status),
                name: state.name,
                node_type: state.node_type,
                installed: state.installed,
                is_built: state.is_built,
                last_health_check_ms: state.last_health_check_ms,
                last_updated_ms: state.last_updated_ms,
                path: state.path,
                version: state.version,
                description: state.description,
                machine_id: state.machine_id,
            },
        ),
        None => Err(PlatformError::NodeNotFound(name.to_owned())),
    }
}

// ---- commands --------------------------------------------------------------

/// A command that a tool gives for a node.
#[derive(Debug, Clone, Copy, PartialEq, Eq, Structural)]
pub enum NodeCommand {
    /// Start the node's service.
    Start,
    /// Stop the node's service.
    Stop,
    /// Restart the node's service.
    Restart,
    /// Build the node.
    Build,
    /// Read the log of the node's service.
    GetLogs,
    /// Install the node's service.
    Install,
    /// Uninstall the node's service.
    Uninstall,
    /// Clean the node.
    Clean,
    /// Let the node's service start at login.
    EnableAutostart,
    /// Do not let the node's service start at login.
    DisableAutostart,
}

impl NodeCommand {
    /// The type of command that the daemon is sent.
    pub open spec fn command_type(self) -> CommandType {
        match self {
            NodeCommand::Start => CommandType::Start,
            NodeCommand::Stop => CommandType::Stop,
            NodeCommand::Restart => CommandType::Restart,
            NodeCommand::Build => CommandType::Build,
            NodeCommand::GetLogs => CommandType::GetLogs,
            NodeCommand::Install => CommandType::Install,
            NodeCommand::Uninstall => CommandType::Uninstall,
            NodeCommand::Clean => CommandType::Clean,
            NodeCommand::EnableAutostart => CommandType::EnableAutostart,
            NodeCommand::DisableAutostart => CommandType::DisableAutostart,
        }
    }

    /// What the daemon does about the command.
    pub open spec fn action(self, name: Seq<char>) -> ActionView {
        match self {
            NodeCommand::Start => ActionView::Start(name),
            NodeCommand::Stop => ActionView::Stop(name),
            NodeCommand::Restart => ActionView::Restart(name),
            NodeCommand::Build => ActionView::Build(name),
            NodeCommand::GetLogs => ActionView::GetLogs(name),
            NodeCommand::Install => ActionView::Install(name),
            NodeCommand::Uninstall => ActionView::Uninstall(name),
            NodeCommand::Clean => ActionView::Clean(name),
            NodeCommand::EnableAutostart => ActionView::EnableAutostart(name),
            NodeCommand::DisableAutostart => ActionView::DisableAutostart(name),
        }
    }

    /// The type of command that the daemon is sent.
    pub fn to_command_type(self) -> (r: CommandType)
        ensures
            r == self.command_type(),
    {
        match self {
            NodeCommand::Start => CommandType::Start,
            NodeCommand::Stop => CommandType::Stop,
            NodeCommand::Restart => CommandType::Restart,
            NodeCommand::Build => CommandType::Build,
            NodeCommand::GetLogs => CommandType::GetLogs,
            NodeCommand::Install => CommandType::Install,
            NodeCommand::Uninstall => CommandType::Uninstall,
            NodeCommand::Clean => CommandType::Clean,
            NodeCommand::EnableAutostart => CommandType::EnableAutostart,
            NodeCommand::DisableAutostart => CommandType::DisableAutostart,
        }
    }
}

/// A request about a node that is registered.
pub open spec fn node_request(
    command: CommandType,
    name: Seq<char>,
    request_id: Seq<char>,
    now: i64,
) -> NodeCommandView {
    NodeCommandView {
        command: command.code(),
        node_name: name,
        request_id,
        timestamp_ms: now,
        source_machine: "mcp-platform"@,
        target_machine: Seq::empty(),
        node_path: Seq::empty(),
        name_override: Seq::empty(),
        config_override: Seq::empty(),
    }
}

/// A request to register a node.
pub open spec fn add_request(
    source: Seq<char>,
    name_override: Option<Seq<char>>,
    config_override: Option<Seq<char>>,
    request_id: Seq<char>,
    now: i64,
) -> NodeCommandView {
    NodeCommandView {
        command: CommandType::AddNode.code(),
        node_name: Seq::empty(),
        request_id,
        timestamp_ms: now,
        source_machine: "mcp-platform"@,
        target_machine: Seq::empty(),
        node_path: source,
        name_override: node::or_empty(name_override),
        config_override: node::or_empty(config_override),
    }
}

/// The request about a registered node, under a name and at a time of its own.
fn request_about(command: CommandType, name: &str) -> (r: schemas::NodeCommand)
    ensures
        ids::random_uuid(r@.request_id),
        r@ == node_request(command, name@, r@.request_id, r@.timestamp_ms),
{
    schemas::NodeCommand {
        command: command.to_code(),
        node_name: name.to_owned(),
        request_id: ids::new_uuid(),
        timestamp_ms: clock::now_ms(),
        source_machine: "mcp-platform".to_owned(),
        target_machine: String::new(),
        node_path: String::new(),
        name_override: String::new(),
        config_override: String::new(),
    }
}

/// The request that a tool's command for a node is sent as.
pub fn execute_request(name: &str, cmd: NodeCommand) -> (r: schemas::NodeCommand)
    ensures
        ids::random_uuid(r@.request_id),
        r@ == node_request(cmd.command_type(), name@, r@.request_id, r@.timestamp_ms),
{
    request_about(cmd.to_command_type(), name)
}

/// The request to remove a node from the registry.
pub fn remove_request(name: &str) -> (r: schemas::NodeCommand)
    ensures
        ids::random_uuid(r@.request_id),
        r@ == node_request(CommandType::RemoveNode, name@, r@.request_id, r@.timestamp_ms),
{
    request_about(CommandType::RemoveNode, name)
}

/// The request to register the node in a directory or repository, with the name and the
/// configuration of an instance where it has them.
pub fn add_node_request(
    source: &str,
    name_override: Option<&str>,
    config_override: Option<&str>,
) -> (r: schemas::NodeCommand)
    ensures
        ids::random_uuid(r@.request_id),
        r@ == add_request(
            source@,
            text::opt_str_view(name_override),
            text::opt_str_view(config_override),
            r@.request_id,
            r@.timestamp_ms,
        ),
{
    schemas::NodeCommand {
        command: CommandType::AddNode.to_code(),
        node_name: String::new(),
        request_id: ids::new_uuid(),
        timestamp_ms: clock::now_ms(),
        source_machine: "mcp-platform".to_owned(),
        target_machine: String::new(),
        node_path: source.to_owned(),
        name_override: match name_override {
            Some(name) => name.to_owned(),
            None => String::new(),
        },
        config_override: match config_override {
            Some(config) => config.to_owned(),
            None => String::new(),
        },
    }
}

/// The daemon does about a tool's command what the command says, for the node it names.
pub proof fn commands_reach_their_action(
    cmd: NodeCommand,
    name: Seq<char>,
    request_id: Seq<char>,
    now: i64,
)
    ensures
        commands::action_of(node_request(cmd.command_type(), name, request_id, now))
            == cmd.action(name),
        commands::action_of(node_request(CommandType::RemoveNode, name, request_id, now))
            == ActionView::RemoveNode(name),
{
    commands::codes_are_read_back(cmd.command_type(), 0);
    commands::codes_are_read_back(CommandType::RemoveNode, 0);
}

/// The daemon registers the node that a tool asks it to add, and takes empty overrides for
/// none.
pub proof fn added_sources_are_registered(
    source: Seq<char>,
    name_override: Option<Seq<char>>,
    config_override: Option<Seq<char>>,
    request_id: Seq<char>,
    now: i64,
)
    ensures
        commands::action_of(
            add_request(source, name_override, config_override, request_id, now),
        ) == (ActionView::AddNode {
            path: source,
            name_override: commands::nonempty(node::or_empty(name_override)),
            config_override: commands::nonempty(node::or_empty(config_override)),
        }),
{
    commands::codes_are_read_back(CommandType::AddNode, 0);
}

/// What a tool is told of the answer to its command: the message, followed by the output on
/// lines of its own, or that the command failed.
pub open spec fn reply_of(answer: CommandResultView) -> Result<Seq<char>, PlatformErrorView> {
    if !answer.success {
        Err(PlatformErrorView::CommandFailed(answer.message))
    } else if answer.output.len() == 0 {
        Ok(answer.message)
    } else {
        Ok(answer.message + "\n"@ + answer.output)
    }
}

/// What a tool is told of the answer to its command.
pub fn execute_command(answer: CommandResult) -> (r: Result<String, PlatformError>)
    ensures
        told(r) == reply_of(answer@),
{
    if answer.success {
        if answer.output.as_str().is_empty() {
            Ok(answer.message)
        } else {
            let mut message = answer.message;
            message.append("\n");
            message.append(answer.output.as_str());
            Ok(message)
        }
    } else {
        Err(PlatformError::CommandFailed(answer.message))
    }
}

/// What a tool is told of the answer to a request to add or remove a node: the message alone.
pub open spec fn message_of(answer: CommandResultView) -> Result<Seq<char>, PlatformErrorView> {
    if answer.success {
        Ok(answer.message)
    } else {
        Err(PlatformErrorView::CommandFailed(answer.message))
    }
}

/// What a tool is told of the answer to a request to add a node.
pub fn add_node(answer: CommandResult) -> (r: Result<String, PlatformError>)
    ensures
        told(r) == message_of(answer@),
{
    if answer.success {
        Ok(answer.message)
    } else {
        Err(PlatformError::CommandFailed(answer.message))
    }
}

/// What a tool is told of the answer to a request to remove a node.
pub fn remove_node(answer: CommandResult) -> (r: Result<String, PlatformError>)
    ensures
        told(r) == message_of(answer@),
{
    if answer.success {
        Ok(answer.message)
    } else {
        Err(PlatformError::CommandFailed(answer.message))
    }
}

// ---- installing ------------------------------------------------------------

/// Where a node to install comes from.
#[derive(Debug, Clone, Copy, PartialEq, Eq, Structural)]
pub enum Source {
    /// A directory or repository.
    Place,
    /// The marketplace.
    Marketplace,
}

/// The name of the node that was added, read from what the daemon said.
pub open spec fn added_name(message: Seq<char>) -> Seq<char> {
    if "Added node: "@.is_prefix_of(message) {
        text::trim_of(message.skip("Added node: "@.len() as int))
    } else {
        text::trim_of(message)
    }
}

/// The name of a node to install, once it was added; or that adding it failed.
pub open spec fn name_to_install(answer: CommandResultView) -> Result<
    Seq<char>,
    PlatformErrorView,
> {
    if answer.success {
        Ok(added_name(answer.message))
    } else {
        Err(PlatformErrorView::CommandFailed(answer.message))
    }
}

/// The name of a node to install, once it was added.
pub fn added_node(answer: CommandResult) -> (r: Result<String, PlatformError>)
    ensures
        told(r) == name_to_install(answer@),
{
    if !answer.success {
        return Err(PlatformError::CommandFailed(answer.message));
    }
    let message = answer.message.as_str();
    let rest = match text::strip_prefix(message, "Added node: ") {
        Some(rest) => rest,
        None => message,
    };
    Ok(text::trim(rest).to_owned())
}

/// The request to install the service of a node that was added.
pub fn install_request(node_name: &str) -> (r: schemas::NodeCommand)
    ensures
        ids::random_uuid(r@.request_id),
        r@ == node_request(CommandType::Install, node_name@, r@.request_id, r@.timestamp_ms),
{
    request_about(CommandType::Install, node_name)
}

/// What a tool is told of the end of an installation: the name of the node that was installed
/// from a directory or repository, and in words how it went otherwise.
pub open spec fn installed(
    node_name: Seq<char>,
    source: Source,
    answer: CommandResultView,
) -> Result<Seq<char>, PlatformErrorView> {
    match (source, answer.success) {
        (Source::Place, true) => Ok(node_name),
        (Source::Place, false) => Err(
            PlatformErrorView::CommandFailed(
                "Node '"@ + node_name + "' registered but install failed: "@ + answer.message,
            ),
        ),
        (Source::Marketplace, true) => Ok(
            "Installed '"@ + node_name
                + "' from marketplace (registered + systemd service created)"@,
        ),
        (Source::Marketplace, false) => Err(
            PlatformErrorView::CommandFailed(
                "Node '"@ + node_name + "' registered but service install failed: "@
                    + answer.message,
            ),
        ),
    }
}

/// What a tool is told of the end of an installation.
pub fn install_node(node_name: &str, source: Source, answer: &CommandResult) -> (r: Result<
    String,
    PlatformError,
>)
    ensures
        told(r) == installed(node_name@, source, answer@),
{
    match source {
        Source::Place => {
            if answer.success {
                Ok(node_name.to_owned())
            } else {
                let mut message = text::concat("Node '", node_name);
                message.append("' registered but install failed: ");
                message.append(answer.message.as_str());
                Err(PlatformError::CommandFailed(message))
            }
        },
        Source::Marketplace => {
            if answer.success {
                let mut message = text::concat("Installed '", node_name);
                message.append("' from marketplace (registered + systemd service created)");
                Ok(message)
            } else {
                let mut message = text::concat("Node '", node_name);
                message.append("' registered but service install failed: ");
                message.append(answer.message.as_str());
                Err(PlatformError::CommandFailed(message))
            }
        },
    }
}

/// The name that the daemon gives a node it adds is the name under which it is installed, up
/// to white space around it.
pub proof fn added_name_is_read_back(action: ActionView, name: Seq<char>)
    requires
        action is AddNode,
    ensures
        added_name(action.message(name)) == text::trim_of(name),
{
    let message = "Added node: "@ + name;
    assert("Added node: "@ =~= message.take("Added node: "@.len() as int));
    assert(message.skip("Added node: "@.len() as int) =~= name);
}

/// A node with an accepted name is installed under exactly the name that it was added under.
pub proof fn accepted_names_are_installed(action: ActionView, name: Seq<char>)
    requires
        action is AddNode,
        validation::valid_name(name),
    ensures
        added_name(action.message(name)) == name,
{
    added_name_is_read_back(action, name);
    let kind = |c: char| validation::name_char(c);
    assert(kind(name[0]));
    assert(kind(name[name.len() - 1]));
    assert(name.last() == name[name.len() - 1]);
    assert(!text::white_space(name[0]));
    assert(!text::white_space(name.last()));
}

/// Why a node could not be fetched from the marketplace.
#[derive(Debug)]
pub enum MarketplaceFailure {
    /// The list of nodes could not be renewed.
    Refresh(String),
    /// The list does not hold the node.
    NotFound,
    /// The node's program could not be fetched.
    Download(String),
    /// The work was cut short.
    Join(String),
}

/// What a tool is told of a node that could not be fetched from the marketplace.
pub open spec fn marketplace_fault(name: Seq<char>, failure: MarketplaceFailure)
    -> PlatformErrorView {
    match failure {
        MarketplaceFailure::Refresh(e) => PlatformErrorView::CommandFailed(
            "Registry refresh failed: "@ + e@,
        ),
        MarketplaceFailure::NotFound => PlatformErrorView::CommandFailed(
            "Node '"@ + name + "' not found in marketplace registry"@,
        ),
        MarketplaceFailure::Download(e) => PlatformErrorView::CommandFailed(
            "Download failed for '"@ + name + "': "@ + e@,
        ),
        MarketplaceFailure::Join(e) => PlatformErrorView::Internal("Task join error: "@ + e@),
    }
}

/// What a tool is told of a node that could not be fetched from the marketplace.
pub fn marketplace_error(name: &str, failure: MarketplaceFailure) -> (r: PlatformError)
    ensures
        r@ == marketplace_fault(name@, failure),
{
    match failure {
        MarketplaceFailure::Refresh(e) => PlatformError::CommandFailed(
            text::concat("Registry refresh failed: ", e.as_str()),
        ),
        MarketplaceFailure::NotFound => {
            let mut message = text::concat("Node '", name);
            message.append("' not found in marketplace registry");
            PlatformError::CommandFailed(message)
        },
        MarketplaceFailure::Download(e) => {
            let mut message = text::concat("Download failed for '", name);
            message.append("': ");
            message.append(e.as_str());
            PlatformError::CommandFailed(message)
        },
        MarketplaceFailure::Join(e) => PlatformError::Internal(
            text::concat("Task join error: ", e.as_str()),
        ),
    }
}

// ---- queries ---------------------------------------------------------------

/// One reply to a query.
#[derive(Debug)]
pub enum Reply {
    /// A value, and the key that it is of.
    Sample {
        /// The key.
        key: String,
        /// The value.
        payload: Vec<u8>,
    },
    /// That something went wrong.
    Failure {
        /// What was sent about it.
        payload: Vec<u8>,
    },
}

/// The contents of a [`Reply`].
pub enum ReplyView {
    Sample { key: Seq<char>, payload: Seq<u8> },
    Failure { payload: Seq<u8> },
}

impl View for Reply {
    type V = ReplyView;

    open spec fn view(&self) -> ReplyView {
        match self {
            Reply::Sample { key, payload } => ReplyView::Sample { key: key@, payload: payload@ },
            Reply::Failure { payload } => ReplyView::Failure { payload: payload@ },
        }
    }
}

/// The contents of a list of replies.
pub open spec fn reply_views(v: Seq<Reply>) -> Seq<ReplyView> {
    Seq::new(v.len(), |i: int| v[i]@)
}

/// A value as text: as it stands if it is text, else only its size.
pub open spec fn payload_text(payload: Seq<u8>) -> Seq<char> {
    if valid_utf8(payload) {
        decode_utf8(payload)
    } else {
        "<"@ + text::decimal(payload.len() as int) + " bytes binary>"@
    }
}

/// Bytes as numbers, in brackets, with commas between them.
pub open spec fn byte_list(bytes: Seq<u8>) -> Seq<char> {
    "["@ + text::joined(
        Seq::new(bytes.len(), |i: int| text::decimal(bytes[i] as int)),
        ", "@,
    ) + "]"@
}

impl ReplyView {
    /// The reply as text.
    pub open spec fn text(self) -> Seq<char> {
        match self {
            ReplyView::Sample { key, payload } => payload_text(payload),
            ReplyView::Failure { payload } => "Error: "@ + byte_list(payload),
        }
    }

    /// The reply as a line that names the key.
    pub open spec fn line(self) -> Seq<char> {
        match self {
            ReplyView::Sample { key, payload } => "["@ + key + "] "@ + payload_text(payload),
            ReplyView::Failure { payload } => "Error: "@ + byte_list(payload),
        }
    }
}

fn show_payload(payload: &Vec<u8>) -> (r: String)
    ensures
        r@ == payload_text(payload@),
{
    match text::utf8_text(payload.as_slice()) {
        Some(s) => s,
        None => {
            let mut r = text::concat("<", text::number(payload.len() as u64).as_str());
            r.append(" bytes binary>");
            r
        },
    }
}

fn show_bytes(bytes: &Vec<u8>) -> (r: String)
    ensures
        r@ == byte_list(bytes@),
{
    let mut numbers: Vec<String> = Vec::new();
    for i in 0..bytes.len()
        invariant
            numbers@.len() == i,
            forall|j: int|
                0 <= j < i ==> (#[trigger] numbers@[j])@ == text::decimal(bytes@[j] as int),
    {
        numbers.push(text::number(bytes[i] as u64));
    }
    assert(text::views(numbers@) =~= Seq::new(
        bytes@.len(),
        |i: int| text::decimal(bytes@[i] as int),
    ));
    let mut r = text::concat("[", text::join(&numbers, ", ").as_str());
    r.append("]");
    r
}

impl Reply {
    /// The reply as text.
    pub fn to_text(&self) -> (r: String)
        ensures
            r@ == self@.text(),
    {
        match self {
            Reply::Sample { payload, .. } => show_payload(payload),
            Reply::Failure { payload } => text::concat("Error: ", show_bytes(payload).as_str()),
        }
    }

    /// The reply as a line that names the key.
    pub fn to_line(&self) -> (r: String)
        ensures
            r@ == self@.line(),
    {
        match self {
            Reply::Sample { key, payload } => {
                let mut r = text::concat("[", key.as_str());
                r.append("] ");
                r.append(show_payload(payload).as_str());
                r
            },
            Reply::Failure { payload } => text::concat("Error: ", show_bytes(payload).as_str()),
        }
    }
}

/// What the replies to a query come to, or the failure of the query, as text.
pub open spec fn query_text(outcome: Result<Seq<ReplyView>, Seq<char>>) -> Seq<char> {
    match outcome {
        Ok(replies) => if replies.len() == 0 {
            "No responses received"@
        } else {
            text::joined(Seq::new(replies.len(), |i: int| replies[i].line()), "\n"@)
        },
        Err(e) => "Zenoh query failed: "@ + e,
    }
}

/// The contents of the outcome of a query.
pub open spec fn query_outcome(outcome: Result<Vec<Reply>, String>) -> Result<
    Seq<ReplyView>,
    Seq<char>,
> {
    match outcome {
        Ok(replies) => Ok(reply_views(replies@)),
        Err(e) => Err(e@),
    }
}

/// What the replies to a query come to, as text.
pub fn zenoh_get_text(outcome: &Result<Vec<Reply>, String>) -> (r: String)
    ensures
        r@ == query_text(query_outcome(*outcome)),
{
    match outcome {
        Err(e) => text::concat("Zenoh query failed: ", e.as_str()),
        Ok(replies) => {
            let ghost views = reply_views(replies@);
            let mut lines: Vec<String> = Vec::new();
            for i in 0..replies.len()
                invariant
                    views == reply_views(replies@),
                    lines@.len() == i,
                    forall|j: int| 0 <= j < i ==> (#[trigger] lines@[j])@ == views[j].line(),
            {
                lines.push(replies[i].to_line());
            }
            assert(text::views(lines@) =~= Seq::new(views.len(), |i: int| views[i].line()));
            if lines.len() == 0 {
                "No responses received".to_owned()
            } else {
                text::join(&lines, "\n")
            }
        },
    }
}

/// The replies to a query that carried a message, each as text.
pub fn send_zenoh_query(outcome: &Result<Vec<Reply>, String>) -> (r: Result<
    Vec<String>,
    PlatformError,
>)
    ensures
        match query_outcome(*outcome) {
            Ok(replies) => r matches Ok(texts) && text::views(texts@) == Seq::new(
                replies.len(),
                |i: int| replies[i].text(),
            ),
            Err(e) => r matches Err(error) && error@ == PlatformErrorView::Internal(
                "Zenoh query failed: "@ + e,
            ),
        },
{
    match outcome {
        Err(e) => Err(
            PlatformError::Internal(text::concat("Zenoh query failed: ", e.as_str())),
        ),
        Ok(replies) => {
            let ghost views = reply_views(replies@);
            let mut texts: Vec<String> = Vec::new();
            for i in 0..replies.len()
                invariant
                    views == reply_views(replies@),
                    texts@.len() == i,
                    forall|j: int| 0 <= j < i ==> (#[trigger] texts@[j])@ == views[j].text(),
            {
                texts.push(replies[i].to_text());
            }
            assert(text::views(texts@) =~= Seq::new(views.len(), |i: int| views[i].text()));
            Ok(texts)
        },
    }
}

/// What a tool is told of a message that could not be published.
pub fn publish_error(e: &str) -> (r: PlatformError)
    ensures
        r@ == PlatformErrorView::Internal("Zenoh put failed: "@ + e@),
{
    PlatformError::Internal(text::concat("Zenoh put failed: ", e))
}

// ---- configuration ---------------------------------------------------------

/// Where the daemon is found on the bus.
#[derive(Debug)]
pub struct DaemonPlatform {
    /// Deployment that the machine belongs to.
    pub scope: String,
    /// Name of the machine.
    pub machine_id: String,
}

/// The key under which a node tells its configuration.
pub open spec fn config_key_of(
    scope: Seq<char>,
    machine_id: Seq<char>,
    name: Seq<char>,
) -> Seq<char> {
    "bubbaloop/"@ + scope + "/"@ + machine_id + "/"@ + name + "/config"@
}

impl DaemonPlatform {
    /// The key under which a node tells its configuration.
    pub fn config_key(&self, name: &str) -> (r: String)
        ensures
            r@ == config_key_of(self.scope@, self.machine_id@, name@),
    {
        let mut r = text::concat("bubbaloop/", self.scope.as_str());
        r.append("/");
        r.append(self.machine_id.as_str());
        r.append("/");
        r.append(name);
        r.append("/config");
        r
    }
}

/// What a node told of its configuration.
#[derive(Debug)]
pub enum NodeConfig {
    /// A text in JSON.
    Json(String),
    /// Any other text.
    Raw(String),
}

/// What a node told of its configuration, once it is known whether the text is JSON.
pub fn classify_config(told: String, is_json: bool) -> (r: NodeConfig)
    ensures
        r == if is_json {
            NodeConfig::Json(told)
        } else {
            NodeConfig::Raw(told)
        },
{
    if is_json {
        NodeConfig::Json(told)
    } else {
        NodeConfig::Raw(told)
    }
}

/// What a node told of its configuration, given the outcome of the query for it.
pub fn get_node_config(outcome: &Result<Vec<Reply>, String>) -> (r: NodeConfig)
    ensures
        ({
            let told = query_text(query_outcome(*outcome));
            match r {
                NodeConfig::Json(s) => s@ == told && json::json_value(told),
                NodeConfig::Raw(s) => s@ == told && !json::json_value(told),
            }
        }),
{
    let told = zenoh_get_text(outcome);
    let is_json = json::is_json(told.as_str());
    classify_config(told, is_json)
}

// ---- manifests -------------------------------------------------------------

/// Whether a manifest passes a filter: without one every manifest does, else only one with
/// the capability, whose name is given in lower case.
pub open spec fn has_capability(manifest: NodeManifestView, capability: Option<Seq<char>>) -> bool {
    match capability {
        Some(c) => manifest.capabilities.contains(c),
        None => true,
    }
}

/// The manifests that pass a filter, in order.
pub open spec fn matching_manifests(
    manifests: Seq<(Seq<char>, NodeManifestView)>,
    capability: Option<Seq<char>>,
) -> Seq<(Seq<char>, NodeManifestView)> {
    manifests.filter(|m: (Seq<char>, NodeManifestView)| has_capability(m.1, capability))
}

/// The manifests with a capability, whose name is given in lower case; all of them if none is
/// given.
pub fn filter_manifests(
    manifests: &Vec<(String, NodeManifest)>,
    capability: Option<&str>,
) -> (r: Vec<(String, NodeManifest)>)
    ensures
        node_manager::manifest_views(r@) == matching_manifests(
            node_manager::manifest_views(manifests@),
            text::opt_str_view(capability),
        ),
{
    let ghost all = node_manager::manifest_views(manifests@);
    let ghost passes = |m: (Seq<char>, NodeManifestView)|
        has_capability(m.1, text::opt_str_view(capability));
    let mut r: Vec<(String, NodeManifest)> = Vec::new();
    proof {
        reveal(Seq::filter);
    }
    assert(node_manager::manifest_views(r@) =~= all.take(0).filter(passes));
    for i in 0..manifests.len()
        invariant
            all == node_manager::manifest_views(manifests@),
            passes == (|m: (Seq<char>, NodeManifestView)|
                has_capability(m.1, text::opt_str_view(capability))),
            node_manager::manifest_views(r@) == all.take(i as int).filter(passes),
    {
        proof {
            reveal(Seq::filter);
        }
        assert(all.take(i as int + 1).drop_last() =~= all.take(i as int));
        let wanted = match capability {
            Some(c) => text::contains(&manifests[i].1.capabilities, c),
            None => true,
        };
        assert(wanted == passes(all[i as int]));
        if wanted {
            let ghost earlier = node_manager::manifest_views(r@);
            let name = manifests[i].0.clone();
            let copy = manifests[i].1.clone();
            r.push((name, copy));
            assert(node_manager::manifest_views(r@) =~= earlier.push(all[i as int]));
        }
    }
    assert(all.take(all.len() as int) =~= all);
    r
}

/// The manifests with a capability, whose name may be given in upper or lower case; all of
/// them if none is given.
pub fn get_manifests(
    manifests: &Vec<(String, NodeManifest)>,
    capability_filter: Option<&str>,
) -> (r: Vec<(String, NodeManifest)>)
    ensures
        node_manager::manifest_views(r@) == matching_manifests(
            node_manager::manifest_views(manifests@),
            match capability_filter {
                Some(c) => Some(text::lowercase(c@)),
                None => None,
            },
        ),
{
    match capability_filter {
        Some(c) => {
            let lowered = c.to_lowercase();
            filter_manifests(manifests, Some(lowered.as_str()))
        },
        None => filter_manifests(manifests, None),
    }
}

/// A filter keeps the manifests with the capability and no others; without a filter all are
/// kept.
pub proof fn filters_select_by_capability(
    manifests: Seq<(Seq<char>, NodeManifestView)>,
    capability: Seq<char>,
)
    ensures
        matching_manifests(manifests, None) == manifests,
        forall|m: (Seq<char>, NodeManifestView)| #[trigger]
            matching_manifests(manifests, Some(capability)).contains(m) <==> manifests.contains(m)
                && m.1.capabilities.contains(capability),
{
    all_pass(manifests);
    assert forall|m: (Seq<char>, NodeManifestView)| #[trigger]
        matching_manifests(manifests, Some(capability)).contains(m) <==> manifests.contains(m)
            && m.1.capabilities.contains(capability) by {
        selected(manifests, capability, m);
    }
}

/// The elements of a list without its last, and the last.
proof fn contained(
    manifests: Seq<(Seq<char>, NodeManifestView)>,
    m: (Seq<char>, NodeManifestView),
    last: (Seq<char>, NodeManifestView),
)
    ensures
        manifests.push(last).contains(m) <==> manifests.contains(m) || m == last,
{
    let longer = manifests.push(last);
    assert(longer[manifests.len() as int] == last);
    if manifests.contains(m) {
        let i = choose|i: int| 0 <= i < manifests.len() && manifests[i] == m;
        assert(longer[i] == m);
    }
    if longer.contains(m) && m != last {
        let i = choose|i: int| 0 <= i < longer.len() && longer[i] == m;
        assert(manifests[i] == m);
    }
}

proof fn selected(
    manifests: Seq<(Seq<char>, NodeManifestView)>,
    capability: Seq<char>,
    m: (Seq<char>, NodeManifestView),
)
    ensures
        matching_manifests(manifests, Some(capability)).contains(m) <==> manifests.contains(m)
            && m.1.capabilities.contains(capability),
    decreases manifests.len(),
{
    reveal(Seq::filter);
    if manifests.len() > 0 {
        let shorter = manifests.drop_last();
        let last = manifests.last();
        selected(shorter, capability, m);
        assert(manifests =~= shorter.push(last));
        contained(shorter, m, last);
        contained(matching_manifests(shorter, Some(capability)), m, last);
    }
}

proof fn all_pass(manifests: Seq<(Seq<char>, NodeManifestView)>)
    ensures
        matching_manifests(manifests, None) == manifests,
    decreases manifests.len(),
{
    reveal(Seq::filter);
    if manifests.len() > 0 {
        all_pass(manifests.drop_last());
        assert(manifests =~= manifests.drop_last().push(manifests.last()));
    }
}

} // verus!
