//! What the service manager says of a node's service.
use crate::schemas::NodeStatus;
use crate::text;
use vstd::prelude::*;
use vstd::string::*;

verus! {

/// State of a service.
#[derive(Debug, Clone, Copy, PartialEq, Eq, Structural)]
pub enum ActiveState {
    /// Running.
    Active,
    /// Being reconfigured, or any state not named here.
    Other,
    /// Not running.
    Inactive,
    /// Ended in error.
    Failed,
    /// About to run.
    Activating,
    /// About to stop.
    Deactivating,
}

/// The state that the service manager's word for it means.
pub open spec fn state_named(word: Seq<char>) -> ActiveState {
    if word == "active"@ {
        ActiveState::Active
    } else if word == "inactive"@ {
        ActiveState::Inactive
    } else if word == "failed"@ {
        ActiveState::Failed
    } else if word == "activating"@ {
        ActiveState::Activating
    } else if word == "deactivating"@ {
        ActiveState::Deactivating
    } else {
        ActiveState::Other
    }
}

impl ActiveState {
    /// The state that the service manager's word for it means.
    pub fn from_word(word: &str) -> (r: ActiveState)
        ensures
            r == state_named(word@),
    {
        if word.eq("active") {
            ActiveState::Active
        } else if word.eq("inactive") {
            ActiveState::Inactive
        } else if word.eq("failed") {
            ActiveState::Failed
        } else if word.eq("activating") {
            ActiveState::Activating
        } else if word.eq("deactivating") {
            ActiveState::Deactivating
        } else {
            ActiveState::Other
        }
    }
}

/// The name of a node's service.
pub open spec fn service_of(name: Seq<char>) -> Seq<char> {
    "bubbaloop-"@ + name + ".service"@
}

/// The name of a node's service.
pub fn get_service_name(name: &str) -> (r: String)
    ensures
        r@ == service_of(name@),
{
    let mut r = text::concat("bubbaloop-", name);
    r.append(".service");
    r
}

/// The node whose service bears a name, if it is the name of a node's service.
pub fn node_of_service(service: &str) -> (r: Option<String>)
    ensures
        match r {
            Some(name) => service@ == service_of(name@),
            None => forall|name: Seq<char>| service@ != #[trigger] service_of(name),
        },
{
    proof {
        reveal_strlit("bubbaloop-");
        reveal_strlit(".service");
    }
    let n: usize = service.unicode_len();
    if n >= 18 && text::starts_with(service, "bubbaloop-") && service.substring_char(n - 8, n).eq(
        ".service",
    ) {
        let name = service.substring_char(10, n - 8).to_owned();
        assert(service@ =~= service@.take(10) + name@ + service@.subrange(n - 8, n as int));
        Some(name)
    } else {
        assert forall|name: Seq<char>| service@ != #[trigger] service_of(name) by {
            let s = service_of(name);
            if service@ == s {
                assert(s.take(10) =~= "bubbaloop-"@);
                assert(s.subrange(s.len() - 8, s.len() as int) =~= ".service"@);
            }
        }
        None
    }
}

/// No two nodes have the same service.
pub proof fn services_identify_nodes(a: Seq<char>, b: Seq<char>)
    requires
        service_of(a) == service_of(b),
    ensures
        a == b,
{
    reveal_strlit("bubbaloop-");
    reveal_strlit(".service");
    assert(service_of(a).subrange(10, service_of(a).len() - 8) =~= a);
    assert(service_of(b).subrange(10, service_of(b).len() - 8) =~= b);
}

/// What was found out about a node's service.
#[derive(Debug, Clone, Copy, PartialEq, Eq, Structural)]
pub struct UnitState {
    /// State of the service.
    pub active_state: ActiveState,
    /// Whether a service is installed.
    pub installed: bool,
    /// Whether the service starts at login, if that could be found out.
    pub enabled: Option<bool>,
}

impl UnitState {
    /// The status of a node with this service.
    pub open spec fn status(self) -> NodeStatus {
        if !self.installed {
            NodeStatus::NotInstalled
        } else {
            match self.active_state {
                ActiveState::Active | ActiveState::Activating => NodeStatus::Running,
                ActiveState::Failed => NodeStatus::Failed,
                _ => NodeStatus::Stopped,
            }
        }
    }

    /// Whether the node counts as starting at login.
    pub open spec fn autostart(self) -> bool {
        self.installed && self.enabled == Some(true)
    }

    /// The status of a node with this service.
    pub fn node_status(&self) -> (r: NodeStatus)
        ensures
            r == self.status(),
    {
        if !self.installed {
            NodeStatus::NotInstalled
        } else {
            match self.active_state {
                ActiveState::Active => NodeStatus::Running,
                ActiveState::Failed => NodeStatus::Failed,
                ActiveState::Inactive => NodeStatus::Stopped,
                ActiveState::Activating => NodeStatus::Running,
                ActiveState::Deactivating => NodeStatus::Stopped,
                ActiveState::Other => NodeStatus::Stopped,
            }
        }
    }

    /// Whether the node counts as starting at login: only an installed service does, and not
    /// if that could not be found out.
    pub fn autostart_enabled(&self) -> (r: bool)
        ensures
            r == self.autostart(),
    {
        if self.installed {
            match self.enabled {
                Some(enabled) => enabled,
                None => false,
            }
        } else {
            false
        }
    }
}

/// Whether a service has to be stopped before its node is built or cleaned. One whose state
/// could not be found out is left alone.
pub fn stop_if_running(state: Option<ActiveState>) -> (r: bool)
    ensures
        r == (state == Some(ActiveState::Active) || state == Some(ActiveState::Activating)),
{
    match state {
        Some(ActiveState::Active) => true,
        Some(ActiveState::Activating) => true,
        _ => false,
    }
}

/// A change that the service manager reports. The node is unknown if the service is not one
/// of a node.
#[derive(Debug)]
pub enum SystemdSignalEvent {
    /// A job ended.
    JobRemoved {
        /// The node whose service it was.
        node_name: Option<String>,
        /// How it ended.
        result: String,
    },
    /// A service appeared.
    UnitNew {
        /// The node whose service it is.
        node_name: Option<String>,
    },
    /// A service disappeared.
    UnitRemoved {
        /// The node whose service it was.
        node_name: Option<String>,
    },
}

impl SystemdSignalEvent {
    /// The node that the change is about.
    pub open spec fn node(self) -> Option<Seq<char>> {
        match self {
            SystemdSignalEvent::JobRemoved { node_name, result } => text::opt_view(node_name),
            SystemdSignalEvent::UnitNew { node_name } => text::opt_view(node_name),
            SystemdSignalEvent::UnitRemoved { node_name } => text::opt_view(node_name),
        }
    }

    /// The kind of node event that the change gives.
    pub open spec fn event_type(self) -> Seq<char> {
        match self {
            SystemdSignalEvent::JobRemoved { node_name, result } => if result@ == "failed"@ {
                "failed"@
            } else if result@ == "canceled"@ {
                "stopped"@
            } else {
                "state_changed"@
            },
            SystemdSignalEvent::UnitNew { node_name } => "installed"@,
            SystemdSignalEvent::UnitRemoved { node_name } => "uninstalled"@,
        }
    }

    /// The node event that the change gives: the node's name and the kind of event.
    pub open spec fn event(self) -> Option<(Seq<char>, Seq<char>)> {
        match self.node() {
            Some(name) => Some((name, self.event_type())),
            None => None,
        }
    }
}

} // verus!
