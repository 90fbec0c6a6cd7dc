//! Commands: what they ask for, what is done about them, and how they are answered.
use crate::daemon::error::{NodeManagerError, NodeManagerErrorView};
use crate::daemon::laws;
use crate::daemon::node_manager::{
    InstallPlan, InstallPlanView, NodeManager, NodeManagerView,
};
use crate::daemon::systemd;
use crate::daemon::systemd::ActiveState;
use crate::schemas;
use crate::schemas::{
    CommandResult, CommandResultView, CommandType, NodeCommand, NodeCommandView, NodeState,
    NodeStateView,
};
use crate::text;
use vstd::prelude::*;
use vstd::string::*;

verus! {

/// Where the program that reads logs is; it is never looked for elsewhere.
pub const JOURNALCTL_PATH: &'static str = "/usr/bin/journalctl";

// ---- what commands ask for -------------------------------------------------

/// What is done about a command.
#[derive(Debug)]
pub enum Action {
    /// Start a node's service.
    Start(String),
    /// Stop a node's service.
    Stop(String),
    /// Restart a node's service.
    Restart(String),
    /// Install a node's service.
    Install(String),
    /// Uninstall a node's service.
    Uninstall(String),
    /// Build a node.
    Build(String),
    /// Clean a node.
    Clean(String),
    /// Let a node's service start at login.
    EnableAutostart(String),
    /// Do not let a node's service start at login.
    DisableAutostart(String),
    /// Register a node.
    AddNode {
        /// Directory of the node.
        path: String,
        /// Name of the instance, if it has one of its own.
        name_override: Option<String>,
        /// Configuration of the instance, if it has one of its own.
        config_override: Option<String>,
    },
    /// Remove a node from the registry.
    RemoveNode(String),
    /// Take in the registry.
    Refresh,
    /// Read the log of a node's service.
    GetLogs(String),
}

/// The contents of an [`Action`].
pub enum ActionView {
    Start(Seq<char>),
    Stop(Seq<char>),
    Restart(Seq<char>),
    Install(Seq<char>),
    Uninstall(Seq<char>),
    Build(Seq<char>),
    Clean(Seq<char>),
    EnableAutostart(Seq<char>),
    DisableAutostart(Seq<char>),
    AddNode {
        path: Seq<char>,
        name_override: Option<Seq<char>>,
        config_override: Option<Seq<char>>,
    },
    RemoveNode(Seq<char>),
    Refresh,
    GetLogs(Seq<char>),
}

impl View for Action {
    type V = ActionView;

    open spec fn view(&self) -> ActionView {
        match self {
            Action::Start(name) => ActionView::Start(name@),
            Action::Stop(name) => ActionView::Stop(name@),
            Action::Restart(name) => ActionView::Restart(name@),
            Action::Install(name) => ActionView::Install(name@),
            Action::Uninstall(name) => ActionView::Uninstall(name@),
            Action::Build(name) => ActionView::Build(name@),
            Action::Clean(name) => ActionView::Clean(name@),
            Action::EnableAutostart(name) => ActionView::EnableAutostart(name@),
            Action::DisableAutostart(name) => ActionView::DisableAutostart(name@),
            Action::AddNode { path, name_override, config_override } => ActionView::AddNode {
                path: path@,
                name_override: text::opt_view(*name_override),
                config_override: text::opt_view(*config_override),
            },
            Action::RemoveNode(name) => ActionView::RemoveNode(name@),
            Action::Refresh => ActionView::Refresh,
            Action::GetLogs(name) => ActionView::GetLogs(name@),
        }
    }
}

/// The type of command that a wire number stands for. An unknown number counts as a request
/// to refresh.
pub open spec fn type_of_code(code: i32) -> CommandType {
    if 0 <= code < 13 {
        choose|t: CommandType| #[trigger] t.code() == code
    } else {
        CommandType::Refresh
    }
}

/// A text, or nothing for the empty text.
pub open spec fn nonempty(s: Seq<char>) -> Option<Seq<char>> {
    if s.len() == 0 {
        None
    } else {
        Some(s)
    }
}

/// What is done about a command.
pub open spec fn action_of(cmd: NodeCommandView) -> ActionView {
    match type_of_code(cmd.command) {
        CommandType::Start => ActionView::Start(cmd.node_name),
        CommandType::Stop => ActionView::Stop(cmd.node_name),
        CommandType::Restart => ActionView::Restart(cmd.node_name),
        CommandType::Install => ActionView::Install(cmd.node_name),
        CommandType::Uninstall => ActionView::Uninstall(cmd.node_name),
        CommandType::Build => ActionView::Build(cmd.node_name),
        CommandType::Clean => ActionView::Clean(cmd.node_name),
        CommandType::EnableAutostart => ActionView::EnableAutostart(cmd.node_name),
        CommandType::DisableAutostart => ActionView::DisableAutostart(cmd.node_name),
        CommandType::AddNode => ActionView::AddNode {
            path: cmd.node_path,
            name_override: nonempty(cmd.name_override),
            config_override: nonempty(cmd.config_override),
        },
        CommandType::RemoveNode => ActionView::RemoveNode(cmd.node_name),
        CommandType::Refresh => ActionView::Refresh,
        CommandType::GetLogs => ActionView::GetLogs(cmd.node_name),
    }
}

/// The number that stands for a type of command is read as that type, and every other number
/// as a request to refresh.
pub proof fn codes_are_read_back(t: CommandType, code: i32)
    ensures
        type_of_code(t.code()) == t,
        (forall|u: CommandType| u.code() != code) ==> type_of_code(code) == CommandType::Refresh,
{
    let read = type_of_code(t.code());
    assert(read.code() == t.code());
    schemas::codes_identify_values(
        crate::schemas::NodeStatus::Unknown,
        crate::schemas::NodeStatus::Unknown,
        crate::schemas::HealthStatus::Unknown,
        crate::schemas::HealthStatus::Unknown,
        read,
        t,
    );
    assert(CommandType::Start.code() == 0);
    assert(CommandType::Stop.code() == 1);
    assert(CommandType::Restart.code() == 2);
    assert(CommandType::Install.code() == 3);
    assert(CommandType::Uninstall.code() == 4);
    assert(CommandType::Build.code() == 5);
    assert(CommandType::Clean.code() == 6);
    assert(CommandType::EnableAutostart.code() == 7);
    assert(CommandType::DisableAutostart.code() == 8);
    assert(CommandType::AddNode.code() == 9);
    assert(CommandType::RemoveNode.code() == 10);
    assert(CommandType::Refresh.code() == 11);
    assert(CommandType::GetLogs.code() == 12);
}

/// The type of command that a wire number stands for.
pub fn command_type(code: i32) -> (r: CommandType)
    ensures
        r == type_of_code(code),
{
    match CommandType::from_code(code) {
        Some(t) => {
            proof {
                codes_are_read_back(t, code);
            }
            t
        },
        None => CommandType::Refresh,
    }
}

/// A copy of a text, or nothing for the empty text.
fn nonempty_copy(s: &String) -> (r: Option<String>)
    ensures
        text::opt_view(r) == nonempty(s@),
{
    if s.as_str().is_empty() {
        None
    } else {
        Some(s.clone())
    }
}

/// What is done about a command.
pub fn plan_command(cmd: &NodeCommand) -> (r: Action)
    ensures
        r@ == action_of(cmd@),
{
    let name = cmd.node_name.clone();
    match command_type(cmd.command) {
        CommandType::Start => Action::Start(name),
        CommandType::Stop => Action::Stop(name),
        CommandType::Restart => Action::Restart(name),
        CommandType::Install => Action::Install(name),
        CommandType::Uninstall => Action::Uninstall(name),
        CommandType::Build => Action::Build(name),
        CommandType::Clean => Action::Clean(name),
        CommandType::EnableAutostart => Action::EnableAutostart(name),
        CommandType::DisableAutostart => Action::DisableAutostart(name),
        CommandType::AddNode => Action::AddNode {
            path: cmd.node_path.clone(),
            name_override: nonempty_copy(&cmd.name_override),
            config_override: nonempty_copy(&cmd.config_override),
        },
        CommandType::RemoveNode => Action::RemoveNode(name),
        CommandType::Refresh => Action::Refresh,
        CommandType::GetLogs => Action::GetLogs(name),
    }
}

// ---- what an action takes --------------------------------------------------

/// What has to be known of a node before an action is tried.
#[derive(Debug)]
pub enum Prepared {
    /// Nothing.
    Nothing,
    /// The directory of the node.
    Path(String),
    /// What it takes to install its service.
    Plan(InstallPlan),
}

/// The contents of a [`Prepared`].
pub enum PreparedView {
    Nothing,
    Path(Seq<char>),
    Plan(InstallPlanView),
}

impl View for Prepared {
    type V = PreparedView;

    open spec fn view(&self) -> PreparedView {
        match self {
            Prepared::Nothing => PreparedView::Nothing,
            Prepared::Path(path) => PreparedView::Path(path@),
            Prepared::Plan(plan) => PreparedView::Plan(plan@),
        }
    }
}

impl NodeManagerView {
    /// What has to be known of a node before an action is tried. Building, cleaning, removing
    /// and reading the log of what is no node fails, and so does installing what has no
    /// manifest; the service manager is left to judge the rest.
    pub open spec fn prepared(self, action: ActionView) -> Result<
        PreparedView,
        NodeManagerErrorView,
    > {
        match action {
            ActionView::Install(name) => match self.install_plan(name) {
                Ok(plan) => Ok(PreparedView::Plan(plan)),
                Err(e) => Err(e),
            },
            ActionView::Build(name)
            | ActionView::Clean(name)
            | ActionView::RemoveNode(name)
            | ActionView::GetLogs(name) => match self.path_of(name) {
                Ok(path) => Ok(PreparedView::Path(path)),
                Err(e) => Err(e),
            },
            _ => Ok(PreparedView::Nothing),
        }
    }
}

impl NodeManager {
    /// The directory of a node that an action is about.
    fn prepare_path(&self, name: &str) -> (r: Result<Prepared, NodeManagerError>)
        requires
            self@.wf(),
        ensures
            match (r, self@.path_of(name@)) {
                (Ok(prepared), Ok(path)) => prepared@ == PreparedView::Path(path),
                (Err(e), Err(f)) => e@ == f,
                _ => false,
            },
    {
        match self.find_node_path(name) {
            Ok(path) => Ok(Prepared::Path(path)),
            Err(e) => Err(e),
        }
    }

    /// What has to be known of a node before an action is tried.
    pub fn prepare(&self, action: &Action) -> (r: Result<Prepared, NodeManagerError>)
        requires
            self@.wf(),
        ensures
            match r {
                Ok(prepared) => self@.prepared(action@) == Ok::<_, NodeManagerErrorView>(
                    prepared@,
                ),
                Err(e) => self@.prepared(action@) == Err::<PreparedView, _>(e@),
            },
    {
        match action {
            Action::Install(name) => match self.install_plan(name.as_str()) {
                Ok(plan) => Ok(Prepared::Plan(plan)),
                Err(e) => Err(e),
            },
            Action::Build(name) => self.prepare_path(name.as_str()),
            Action::Clean(name) => self.prepare_path(name.as_str()),
            Action::RemoveNode(name) => self.prepare_path(name.as_str()),
            Action::GetLogs(name) => self.prepare_path(name.as_str()),
            _ => Ok(Prepared::Nothing),
        }
    }
}

/// When the registry is taken in after an action succeeded.
#[derive(Debug, Clone, Copy, PartialEq, Eq, Structural)]
pub enum Refresh {
    /// Not at all.
    Never,
    /// Before the command is answered; if that fails, the command fails.
    Before,
    /// After the command is answered; a failure is not told.
    After,
    /// When the build or clean that was begun ends.
    WhenDone,
}

impl ActionView {
    /// When the registry is taken in after the action succeeded.
    pub open spec fn refresh(self) -> Refresh {
        match self {
            ActionView::Start(_)
            | ActionView::Stop(_)
            | ActionView::Restart(_)
            | ActionView::Install(_)
            | ActionView::Uninstall(_) => Refresh::After,
            ActionView::Build(_) | ActionView::Clean(_) => Refresh::WhenDone,
            ActionView::EnableAutostart(_)
            | ActionView::DisableAutostart(_)
            | ActionView::AddNode { .. }
            | ActionView::RemoveNode(_)
            | ActionView::Refresh => Refresh::Before,
            ActionView::GetLogs(_) => Refresh::Never,
        }
    }
}

impl Action {
    /// When the registry is taken in after the action succeeded.
    pub fn refresh(&self) -> (r: Refresh)
        ensures
            r == self@.refresh(),
    {
        match self {
            Action::Start(_) => Refresh::After,
            Action::Stop(_) => Refresh::After,
            Action::Restart(_) => Refresh::After,
            Action::Install(_) => Refresh::After,
            Action::Uninstall(_) => Refresh::After,
            Action::Build(_) => Refresh::WhenDone,
            Action::Clean(_) => Refresh::WhenDone,
            Action::EnableAutostart(_) => Refresh::Before,
            Action::DisableAutostart(_) => Refresh::Before,
            Action::AddNode { .. } => Refresh::Before,
            Action::RemoveNode(_) => Refresh::Before,
            Action::Refresh => Refresh::Before,
            Action::GetLogs(_) => Refresh::Never,
        }
    }
}

/// What is done to a node's service before the node is removed from the registry.
#[derive(Debug, Clone, Copy, PartialEq, Eq, Structural)]
pub struct Removal {
    /// The service is stopped.
    pub stop: bool,
    /// The service is uninstalled, once it was stopped.
    pub uninstall: bool,
}

/// What is done to a node's service before the node is removed from the registry: it is stopped
/// if it runs, and uninstalled if it is installed. Neither is tried in vain, and a service whose
/// state could not be found out is not stopped.
pub fn plan_removal(state: Option<ActiveState>, installed: bool) -> (r: Removal)
    ensures
        r.stop == (state matches Some(s) && (s is Active || s is Activating)),
        r.uninstall == installed,
{
    Removal { stop: systemd::stop_if_running(state), uninstall: installed }
}

// ---- what is said of what was done -----------------------------------------

impl ActionView {
    /// What is said when the action was carried out. `given` is what the action yielded: for a
    /// node that was added, the name that it goes by; for a log, its text.
    pub open spec fn message(self, given: Seq<char>) -> Seq<char> {
        match self {
            ActionView::Start(name) => "Started "@ + name,
            ActionView::Stop(name) => "Stopped "@ + name,
            ActionView::Restart(name) => "Restarted "@ + name,
            ActionView::Install(name) => "Installed "@ + name,
            ActionView::Uninstall(name) => "Uninstalled "@ + name,
            ActionView::Build(name) => "Building "@ + name + " (background)"@,
            ActionView::Clean(name) => "Cleaning "@ + name + " (background)"@,
            ActionView::EnableAutostart(name) => "Enabled autostart for "@ + name,
            ActionView::DisableAutostart(name) => "Disabled autostart for "@ + name,
            ActionView::AddNode { path, name_override, config_override } => "Added node: "@
                + given,
            ActionView::RemoveNode(name) => "Removed node: "@ + name,
            ActionView::Refresh => "Refreshed"@,
            ActionView::GetLogs(name) => "Logs retrieved"@,
        }
    }

    /// The text that comes with the message: the log, where that was asked for.
    pub open spec fn output(self, given: Seq<char>) -> Seq<char> {
        match self {
            ActionView::GetLogs(name) => given,
            _ => Seq::empty(),
        }
    }

    /// The event that the action gives, and the node that it is about. `given` is the name of
    /// a node that was added.
    pub open spec fn event(self, given: Seq<char>) -> Option<(Seq<char>, Seq<char>)> {
        match self {
            ActionView::Start(name) => Some(("started"@, name)),
            ActionView::Stop(name) => Some(("stopped"@, name)),
            ActionView::Restart(name) => Some(("restarted"@, name)),
            ActionView::Install(name) => Some(("installed"@, name)),
            ActionView::Uninstall(name) => Some(("uninstalled"@, name)),
            ActionView::Build(name) => Some(("building"@, name)),
            ActionView::Clean(name) => Some(("cleaning"@, name)),
            ActionView::EnableAutostart(name) => Some(("autostart_enabled"@, name)),
            ActionView::DisableAutostart(name) => Some(("autostart_disabled"@, name)),
            ActionView::AddNode { path, name_override, config_override } => Some(
                ("added"@, given),
            ),
            ActionView::RemoveNode(name) => Some(("removed"@, name)),
            ActionView::Refresh => None,
            ActionView::GetLogs(name) => None,
        }
    }
}

impl Action {
    /// What is said when the action was carried out.
    pub fn message(&self, given: &str) -> (r: String)
        ensures
            r@ == self@.message(given@),
    {
        match self {
            Action::Start(name) => text::concat("Started ", name.as_str()),
            Action::Stop(name) => text::concat("Stopped ", name.as_str()),
            Action::Restart(name) => text::concat("Restarted ", name.as_str()),
            Action::Install(name) => text::concat("Installed ", name.as_str()),
            Action::Uninstall(name) => text::concat("Uninstalled ", name.as_str()),
            Action::Build(name) => text::concat(
                text::concat("Building ", name.as_str()).as_str(),
                " (background)",
            ),
            Action::Clean(name) => text::concat(
                text::concat("Cleaning ", name.as_str()).as_str(),
                " (background)",
            ),
            Action::EnableAutostart(name) => text::concat("Enabled autostart for ", name.as_str()),
            Action::DisableAutostart(name) => text::concat("Disabled autostart for ", name.as_str()),
            Action::AddNode { .. } => text::concat("Added node: ", given),
            Action::RemoveNode(name) => text::concat("Removed node: ", name.as_str()),
            Action::Refresh => "Refreshed".to_owned(),
            Action::GetLogs(_) => "Logs retrieved".to_owned(),
        }
    }

    /// The event that the action gives, and the node that it is about.
    pub fn event(&self, given: &str) -> (r: Option<(&'static str, String)>)
        ensures
            match r {
                Some((event_type, name)) => self@.event(given@) == Some((event_type@, name@)),
                None => self@.event(given@) is None,
            },
    {
        match self {
            Action::Start(name) => Some(("started", name.clone())),
            Action::Stop(name) => Some(("stopped", name.clone())),
            Action::Restart(name) => Some(("restarted", name.clone())),
            Action::Install(name) => Some(("installed", name.clone())),
            Action::Uninstall(name) => Some(("uninstalled", name.clone())),
            Action::Build(name) => Some(("building", name.clone())),
            Action::Clean(name) => Some(("cleaning", name.clone())),
            Action::EnableAutostart(name) => Some(("autostart_enabled", name.clone())),
            Action::DisableAutostart(name) => Some(("autostart_disabled", name.clone())),
            Action::AddNode { .. } => Some(("added", given.to_owned())),
            Action::RemoveNode(name) => Some(("removed", name.clone())),
            Action::Refresh => None,
            Action::GetLogs(_) => None,
        }
    }
}

// ---- answers ---------------------------------------------------------------

impl NodeManagerView {
    /// The answer to a command. `given` is what the action yielded, or why it failed. `before`
    /// is the state of the node when the command came; only a request for a log is answered
    /// with it, every other command with the state of the node now.
    pub open spec fn answer(
        self,
        cmd: NodeCommandView,
        before: Option<NodeStateView>,
        given: Result<Seq<char>, NodeManagerErrorView>,
        now: i64,
    ) -> CommandResultView {
        let action = action_of(cmd);
        CommandResultView {
            request_id: cmd.request_id,
            success: given is Ok,
            message: match given {
                Ok(given) => action.message(given),
                Err(e) => e.text(),
            },
            output: match given {
                Ok(given) => action.output(given),
                Err(e) => Seq::empty(),
            },
            node_state: if action is GetLogs {
                before
            } else {
                self.state_of(cmd.node_name)
            },
            timestamp_ms: now,
            responding_machine: self.machine.id,
        }
    }
}

/// What an action yielded, or why it failed.
pub open spec fn text_outcome(r: Result<String, NodeManagerError>) -> Result<
    Seq<char>,
    NodeManagerErrorView,
> {
    match r {
        Ok(given) => Ok(given@),
        Err(e) => Err(e@),
    }
}

impl NodeManager {
    /// The answer to a command, after its action was tried.
    pub fn execute_command(
        &self,
        cmd: NodeCommand,
        before: Option<NodeState>,
        given: Result<String, NodeManagerError>,
        now: i64,
    ) -> (r: CommandResult)
        requires
            self@.wf(),
        ensures
            r@ == self@.answer(cmd@, schemas::opt_state(before), text_outcome(given), now),
            cmd.command != 12 ==> schemas::opt_state(r.node_state) == self@.state_of(
                cmd.node_name@,
            ),
            cmd.command == 12 ==> schemas::opt_state(r.node_state) == schemas::opt_state(before),
    {
        proof {
            laws::answers_tell_the_state_of_the_node(
                self@,
                cmd@,
                schemas::opt_state(before),
                text_outcome(given),
                now,
            );
        }
        let action = plan_command(&cmd);
        let logs = match &action {
            Action::GetLogs(_) => true,
            _ => false,
        };
        let node_state = if logs {
            before
        } else {
            self.get_node(cmd.node_name.as_str())
        };
        let responding_machine = self.machine_id().to_owned();
        match given {
            Ok(given) => {
                let message = action.message(given.as_str());
                CommandResult {
                    request_id: cmd.request_id,
                    success: true,
                    message,
                    output: if logs {
                        given
                    } else {
                        String::new()
                    },
                    node_state,
                    timestamp_ms: now,
                    responding_machine,
                }
            },
            Err(e) => CommandResult {
                request_id: cmd.request_id,
                success: false,
                message: e.to_string(),
                output: String::new(),
                node_state,
                timestamp_ms: now,
                responding_machine,
            },
        }
    }
}

/// Every command is answered under its own name by this machine, and with success exactly if
/// its action succeeded. What failed is told in words, with no further text.
pub proof fn answers_belong_to_commands(
    nodes: NodeManagerView,
    cmd: NodeCommandView,
    before: Option<NodeStateView>,
    given: Result<Seq<char>, NodeManagerErrorView>,
    now: i64,
)
    ensures
        ({
            let answer = nodes.answer(cmd, before, given, now);
            &&& answer.request_id == cmd.request_id
            &&& answer.responding_machine == nodes.machine.id
            &&& answer.success == given is Ok
            &&& given matches Err(e) ==> answer.message == e.text() && answer.output.len() == 0
        }),
{
}

/// A command that builds, cleans, installs, removes or reads the log of what is no node is
/// refused before anything is tried, and answered with the name that was not found.
pub proof fn unknown_nodes_are_refused(
    nodes: NodeManagerView,
    cmd: NodeCommandView,
    before: Option<NodeStateView>,
    now: i64,
)
    requires
        nodes.node(cmd.node_name) is None,
        action_of(cmd) is Build || action_of(cmd) is Clean || action_of(cmd) is Install
            || action_of(cmd) is RemoveNode || action_of(cmd) is GetLogs,
    ensures
        ({
            let refusal = NodeManagerErrorView::NodeNotFound(cmd.node_name);
            let answer = nodes.answer(cmd, before, Err(refusal), now);
            &&& nodes.prepared(action_of(cmd)) == Err::<PreparedView, _>(refusal)
            &&& !answer.success
            &&& answer.message == "Node not found: "@ + cmd.node_name
            &&& answer.output.len() == 0
        }),
{
}

/// A build or clean that is refused because one is going on is answered with the name of the
/// node.
pub proof fn busy_nodes_are_refused(
    nodes: NodeManagerView,
    cmd: NodeCommandView,
    before: Option<NodeStateView>,
    now: i64,
)
    requires
        action_of(cmd) is Build || action_of(cmd) is Clean,
    ensures
        ({
            let refusal = NodeManagerErrorView::AlreadyBuilding(cmd.node_name);
            let answer = nodes.answer(cmd, before, Err(refusal), now);
            &&& !answer.success
            &&& answer.message == "Build already in progress for: "@ + cmd.node_name
            &&& answer.node_state == nodes.state_of(cmd.node_name)
        }),
{
}

// ---- logs ------------------------------------------------------------------

/// The words that follow the program in a request for the log of a service.
pub open spec fn log_request(service: Seq<char>) -> Seq<Seq<char>> {
    seq!["_SYSTEMD_USER_UNIT="@ + service, "-n"@, "50"@, "--no-pager"@, "-o"@, "cat"@]
}

/// The words that follow the program in a request for the log of a service.
pub fn journal_arguments(service_name: &str) -> (r: Vec<String>)
    ensures
        text::views(r@) == log_request(service_name@),
{
    let mut r: Vec<String> = Vec::new();
    r.push(text::concat("_SYSTEMD_USER_UNIT=", service_name));
    r.push("-n".to_owned());
    r.push("50".to_owned());
    r.push("--no-pager".to_owned());
    r.push("-o".to_owned());
    r.push("cat".to_owned());
    assert(text::views(r@) =~= log_request(service_name@));
    r
}

/// A log as it is shown: its lines, or a remark that there are none.
pub open spec fn shown_log(log: Seq<char>) -> Seq<char> {
    let lines = text::lines_of(log);
    if lines.len() == 0 {
        "No logs available"@
    } else {
        text::joined(lines, "\n"@)
    }
}

/// A log as it is shown.
pub fn show_log(log: &str) -> (r: String)
    ensures
        r@ == shown_log(log@),
{
    let lines = text::lines(log);
    if lines.len() == 0 {
        "No logs available".to_owned()
    } else {
        text::join(&lines, "\n")
    }
}

/// A log as it is shown, given the bytes that the program wrote.
pub fn get_logs(stdout: &[u8]) -> (r: String)
    ensures
        r@ == shown_log(text::lossy(stdout@)),
{
    let log = text::utf8_lossy(stdout);
    show_log(log.as_str())
}

} // verus!
