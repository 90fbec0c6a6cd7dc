//! The nodes of a machine, and every change to them.
use crate::daemon::building;
use crate::daemon::error;
use crate::daemon::error::{NodeManagerError, NodeManagerErrorView};
use crate::daemon::health;
use crate::daemon::node::{BuildState, BuildStateView, BuildStatus, CachedNode, CachedNodeView};
use crate::daemon::registry;
use crate::daemon::registry::{NodeEntry, NodeEntryView, NodeManifest, NodeManifestView};
use crate::daemon::systemd;
use crate::daemon::systemd::{ActiveState, UnitState};
use crate::daemon::table;
use crate::daemon::uptime;
use crate::schemas;
use crate::schemas::{
    HealthStatus, NodeEvent, NodeEventView, NodeList, NodeListView, NodeState, NodeStateView,
    NodeStatus,
};
use crate::text;
use vstd::prelude::*;
use vstd::string::*;

verus! {

// ---- the machine -----------------------------------------------------------

/// The machine that the nodes are on.
#[derive(Debug)]
pub struct Machine {
    /// Name of the machine among others.
    pub id: String,
    /// Host name.
    pub hostname: String,
    /// Addresses.
    pub ips: Vec<String>,
}

/// The contents of a [`Machine`].
pub struct MachineView {
    pub id: Seq<char>,
    pub hostname: Seq<char>,
    pub ips: Seq<Seq<char>>,
}

impl View for Machine {
    type V = MachineView;

    open spec fn view(&self) -> MachineView {
        MachineView { id: self.id@, hostname: self.hostname@, ips: text::views(self.ips@) }
    }
}

/// The addresses in the output of `hostname -I`; none if the command could not be run or
/// failed.
pub open spec fn addresses_in(output: Option<Seq<char>>) -> Seq<Seq<char>> {
    match output {
        Some(listed) => text::words_of(listed),
        None => Seq::empty(),
    }
}

/// The addresses in what `hostname -I` wrote, given as bytes; none if the command could not be
/// run or failed.
pub fn get_machine_ips(stdout: Option<&[u8]>) -> (r: Vec<String>)
    ensures
        text::views(r@) == addresses_in(
            match stdout {
                Some(bytes) => Some(text::lossy(bytes@)),
                None => None,
            },
        ),
{
    match stdout {
        Some(bytes) => {
            let listed = text::utf8_lossy(bytes);
            text::words(listed.as_str())
        },
        None => {
            let r: Vec<String> = Vec::new();
            assert(text::views(r@) =~= Seq::empty());
            r
        },
    }
}

impl Machine {
    /// The machine of the given name. A host name that could not be found out is `unknown`.
    pub fn new(id: String, hostname: Option<String>, ips: Vec<String>) -> (r: Machine)
        ensures
            r@ == (MachineView {
                id: id@,
                hostname: match hostname {
                    Some(h) => h@,
                    None => "unknown"@,
                },
                ips: text::views(ips@),
            }),
    {
        Machine {
            id,
            hostname: match hostname {
                Some(h) => h,
                None => "unknown".to_owned(),
            },
            ips,
        }
    }
}

// ---- what the registry and the service manager say -------------------------

/// A registered node together with what was found out about it.
#[derive(Debug)]
pub struct RegisteredNode {
    /// The registry's entry.
    pub entry: NodeEntry,
    /// The node's manifest, if it could be read.
    pub manifest: Option<NodeManifest>,
    /// The state of the node's service, or why it could not be found out.
    pub unit: Result<UnitState, NodeManagerError>,
    /// Whether the program that the manifest speaks of is there.
    pub is_built: bool,
    /// When all this was found out.
    pub read_at_ms: i64,
}

/// The contents of a [`RegisteredNode`].
pub struct RegisteredNodeView {
    pub entry: NodeEntryView,
    pub manifest: Option<NodeManifestView>,
    pub unit: Result<UnitState, NodeManagerErrorView>,
    pub is_built: bool,
    pub read_at_ms: i64,
}

impl View for RegisteredNode {
    type V = RegisteredNodeView;

    open spec fn view(&self) -> RegisteredNodeView {
        RegisteredNodeView {
            entry: self.entry@,
            manifest: registry::opt_manifest(self.manifest),
            unit: error::outcome(self.unit),
            is_built: self.is_built,
            read_at_ms: self.read_at_ms,
        }
    }
}

/// The contents of a list of registered nodes.
pub open spec fn registered_views(v: Seq<RegisteredNode>) -> Seq<RegisteredNodeView> {
    Seq::new(v.len(), |i: int| v[i]@)
}

impl RegisteredNodeView {
    /// The name that the node goes by.
    pub open spec fn name(self) -> Seq<char> {
        registry::name_of(self.entry.name_override, self.manifest)
    }

    /// What is remembered of the node from now on, given what was remembered under its name.
    /// Its build state and its health stay; all else is as it was found.
    pub open spec fn cached(self, before: Option<CachedNodeView>) -> CachedNodeView {
        let build_state = match before {
            Some(n) => n.build_state,
            None => BuildStateView::initial(),
        };
        CachedNodeView {
            path: self.entry.path,
            manifest: self.manifest,
            status: if build_state.busy() {
                NodeStatus::Building
            } else {
                self.unit->Ok_0.status()
            },
            installed: self.unit->Ok_0.installed,
            autostart_enabled: self.unit->Ok_0.autostart(),
            is_built: self.manifest is Some && self.is_built,
            build_state,
            last_updated_ms: self.read_at_ms,
            health_status: match before {
                Some(n) => n.health_status,
                None => HealthStatus::Unknown,
            },
            last_health_check_ms: match before {
                Some(n) => n.last_health_check_ms,
                None => 0,
            },
            name_override: self.entry.name_override,
            config_override: self.entry.config_override,
        }
    }
}

/// The last entry of a name.
pub open spec fn last_entry(regs: Seq<RegisteredNodeView>, name: Seq<char>) -> Option<
    RegisteredNodeView,
>
    decreases regs.len(),
{
    if regs.len() == 0 {
        None
    } else if regs.last().name() == name {
        Some(regs.last())
    } else {
        last_entry(regs.drop_last(), name)
    }
}

/// How many entries come before the first whose service could not be asked about.
pub open spec fn readable(regs: Seq<RegisteredNodeView>) -> nat
    decreases regs.len(),
{
    if regs.len() == 0 {
        0
    } else if readable(regs.drop_last()) == regs.len() - 1 && regs.last().unit is Ok {
        regs.len()
    } else {
        readable(regs.drop_last())
    }
}

/// What is found under a name after entries were taken in. If the entries are all there are,
/// what they do not name is forgotten.
pub open spec fn renewed(
    before: Seq<CachedNodeView>,
    regs: Seq<RegisteredNodeView>,
    complete: bool,
    name: Seq<char>,
) -> Option<CachedNodeView> {
    match last_entry(regs, name) {
        Some(reg) => Some(reg.cached(table::node_named(before, name))),
        None => if complete {
            None
        } else {
            table::node_named(before, name)
        },
    }
}

/// Whether taking in the registry leads from one set of nodes to another. Entries are taken in
/// up to the first whose service could not be asked about, a later entry of the same name
/// replacing an earlier one. Only if all could be taken in, other nodes are forgotten.
pub open spec fn refreshed(
    before: Seq<CachedNodeView>,
    regs: Seq<RegisteredNodeView>,
    after: Seq<CachedNodeView>,
) -> bool {
    &&& table::names_distinct(after)
    &&& forall|name: Seq<char>| #[trigger]
        table::node_named(after, name) == renewed(
            before,
            regs.take(readable(regs) as int),
            readable(regs) == regs.len(),
            name,
        )
}

// ---- the nodes -------------------------------------------------------------

/// The nodes of a machine, which of them are being built or cleaned, and since when they run.
#[derive(Debug)]
pub struct NodeManager {
    nodes: Vec<CachedNode>,
    building_nodes: Vec<String>,
    running_since: Vec<(String, i64)>,
    machine: Machine,
}

/// The contents of a [`NodeManager`].
pub struct NodeManagerView {
    /// The nodes.
    pub nodes: Seq<CachedNodeView>,
    /// Names under which a build or clean is going on.
    pub building: Set<Seq<char>>,
    /// Since when the nodes that run do so, by their names.
    pub running_since: Map<Seq<char>, i64>,
    /// The machine that the nodes are on.
    pub machine: MachineView,
}

/// The contents of a list of nodes.
pub open spec fn node_views(v: Seq<CachedNode>) -> Seq<CachedNodeView> {
    Seq::new(v.len(), |i: int| v[i]@)
}

impl View for NodeManager {
    type V = NodeManagerView;

    closed spec fn view(&self) -> NodeManagerView {
        NodeManagerView {
            nodes: node_views(self.nodes@),
            building: text::views(self.building_nodes@).to_set(),
            running_since: uptime::times(self.running_since@),
            machine: self.machine@,
        }
    }
}

impl NodeManagerView {
    /// What holds of the nodes at all times. No two go by the same name. A node with a build or
    /// clean going on is shown as building, and nothing else can be built or cleaned under its
    /// name. It is known since when each node runs that does.
    pub open spec fn wf(self) -> bool {
        &&& self.consistent()
        &&& uptime::running_known(self.running_since, self.nodes)
    }

    /// What holds of the names of nodes and of those that are being built or cleaned.
    pub open spec fn consistent(self) -> bool {
        &&& table::names_distinct(self.nodes)
        &&& forall|i: int|
            0 <= i < self.nodes.len() && (#[trigger] self.nodes[i]).build_state.busy()
                ==> self.nodes[i].status == NodeStatus::Building && self.building.contains(
                self.nodes[i].name(),
            )
    }

    /// The node that goes by a name.
    pub open spec fn node(self, name: Seq<char>) -> Option<CachedNodeView> {
        table::node_named(self.nodes, name)
    }

    /// The nodes after the one that goes by a name was changed.
    pub open spec fn with_node(
        self,
        name: Seq<char>,
        change: spec_fn(CachedNodeView) -> CachedNodeView,
    ) -> NodeManagerView {
        NodeManagerView { nodes: table::with_node(self.nodes, name, change), ..self }
    }

    /// The same, with the time since when nodes run brought up to date.
    pub open spec fn settled(self) -> NodeManagerView {
        NodeManagerView {
            running_since: uptime::running_times(self.running_since, self.nodes),
            ..self
        }
    }

    /// What is reported of a node on this machine.
    pub open spec fn report(self, node: CachedNodeView) -> NodeStateView {
        node.state(self.machine.id, self.machine.hostname, self.machine.ips)
    }

    /// What is reported of the node that goes by a name.
    pub open spec fn state_of(self, name: Seq<char>) -> Option<NodeStateView> {
        match self.node(name) {
            Some(node) => Some(self.report(node)),
            None => None,
        }
    }

    /// The event that tells of something that happened to a node. Of what is no node, nothing
    /// is told.
    pub open spec fn event(self, event_type: Seq<char>, name: Seq<char>, now: i64) -> Option<
        NodeEventView,
    > {
        match self.state_of(name) {
            Some(state) => Some(
                NodeEventView { event_type, node_name: name, state: Some(state), timestamp_ms: now },
            ),
            None => None,
        }
    }
}

/// The contents of an optional event.
pub open spec fn opt_event(event: Option<NodeEvent>) -> Option<NodeEventView> {
    match event {
        Some(e) => Some(e@),
        None => None,
    }
}

impl CachedNodeView {
    /// The node after its service was asked about.
    pub open spec fn observed(self, unit: UnitState, now: i64) -> CachedNodeView {
        CachedNodeView {
            status: if self.build_state.busy() {
                NodeStatus::Building
            } else {
                unit.status()
            },
            installed: unit.installed,
            autostart_enabled: unit.autostart(),
            last_updated_ms: now,
            ..self
        }
    }
}

impl NodeManager {
    /// The place of the node that goes by a name.
    fn position(&self, name: &str) -> (r: Option<usize>)
        requires
            self@.consistent(),
        ensures
            match r {
                Some(i) => i < self.nodes@.len() && table::is_at(self@.nodes, i as int, name@)
                    && self@.node(name@) == Some(self.nodes@[i as int]@),
                None => self@.node(name@) is None,
            },
    {
        for i in 0..self.nodes.len()
            invariant
                self@.consistent(),
                forall|j: int| 0 <= j < i ==> (#[trigger] self.nodes@[j])@.name() != name@,
        {
            if self.nodes[i].effective_name().as_str().eq(name) {
                proof {
                    table::found_by_name(self@.nodes, i as int);
                }
                return Some(i);
            }
        }
        assert forall|j: int| !table::is_at(self@.nodes, j, name@) by {
            if 0 <= j < self@.nodes.len() {
                assert(self@.nodes[j] == self.nodes@[j]@);
            }
        }
        None
    }

    /// Brings up to date since when nodes run.
    fn settle(&mut self)
        requires
            old(self)@.consistent(),
        ensures
            final(self)@ == old(self)@.settled(),
            final(self)@.wf(),
    {
        proof {
            uptime::running_time_is_kept(self@.running_since, self@.nodes, Seq::empty());
        }
        self.running_since = uptime::track(&self.running_since, &self.nodes);
    }

    /// Notes what was found out about a node's service. A node that is being built or cleaned
    /// stays shown as building. A name that no node goes by changes nothing.
    pub fn refresh_node(&mut self, name: &str, unit: UnitState, now: i64)
        requires
            old(self)@.wf(),
        ensures
            final(self)@.wf(),
            final(self)@ == old(self)@.with_node(
                name@,
                |n: CachedNodeView| n.observed(unit, now),
            ).settled(),
    {
        let ghost before = self@;
        let ghost change = |n: CachedNodeView| n.observed(unit, now);
        proof {
            table::change_is_local(before.nodes, name@, change);
        }
        match self.position(name) {
            Some(i) => {
                let busy = match self.nodes[i].build_state.status {
                    BuildStatus::Idle => false,
                    _ => true,
                };
                let node = &mut self.nodes[i];
                node.status = if busy {
                    NodeStatus::Building
                } else {
                    unit.node_status()
                };
                node.installed = unit.installed;
                node.autostart_enabled = unit.autostart_enabled();
                node.last_updated_ms = now;
                assert(self@.nodes =~= before.nodes.update(i as int, change(before.nodes[i as int])));
                proof {
                    table::change_at(before.nodes, i as int, name@, change);
                }
            },
            None => {
                proof {
                    table::change_nowhere(before.nodes, name@, change);
                }
            },
        }
        self.settle();
    }
}

// ---- heartbeats ------------------------------------------------------------

impl NodeManagerView {
    /// The nodes after a heartbeat came under a key. One that names no node changes nothing.
    pub open spec fn heard(self, key: Seq<char>, now: i64) -> NodeManagerView {
        match health::node_in_key(text::split_at(key, '/')) {
            Some(name) => self.with_node(name, |n: CachedNodeView| n.heard(now)),
            None => self,
        }
    }

    /// Since when the node of a name runs; 0 if it does not.
    pub open spec fn since(self, name: Seq<char>) -> i64 {
        if self.running_since.contains_key(name) {
            self.running_since[name]
        } else {
            0
        }
    }

    /// The nodes after the heartbeats of all were judged.
    pub open spec fn judged(self, now: i64) -> NodeManagerView {
        NodeManagerView {
            nodes: Seq::new(
                self.nodes.len(),
                |i: int| self.nodes[i].judged(self.since(self.nodes[i].name()), now),
            ),
            ..self
        }
    }
}

impl NodeManagerView {
    /// Judging heartbeats changes no name, and not what a node is doing.
    pub(crate) proof fn judging_keeps_names(self, now: i64)
        requires
            self.wf(),
        ensures
            self.judged(now).wf(),
            forall|name: Seq<char>| #[trigger]
                self.judged(now).node(name) == match self.node(name) {
                    Some(n) => Some(n.judged(self.since(name), now)),
                    None => None,
                },
    {
        let after = self.judged(now);
        let change = |n: CachedNodeView| n.judged(self.since(n.name()), now);
        table::change_of_all(self.nodes, change);
        assert(after.nodes =~= table::with_all(self.nodes, change));
        assert forall|name: Seq<char>| #[trigger]
            after.node(name) == match self.node(name) {
                Some(n) => Some(n.judged(self.since(name), now)),
                None => None,
            } by {
            assert(after.node(name) == table::node_named(after.nodes, name));
            if exists|i: int| table::is_at(self.nodes, i, name) {
                let i = choose|i: int| table::is_at(self.nodes, i, name);
                table::found_by_name(self.nodes, i);
            }
        }
        assert forall|i: int| 0 <= i < after.nodes.len() implies (#[trigger] after.nodes[i]).name()
            == self.nodes[i].name() && after.nodes[i].status == self.nodes[i].status
            && after.nodes[i].build_state == self.nodes[i].build_state by {}
        assert forall|name: Seq<char>| #[trigger]
            after.running_since.contains_key(name) <==> uptime::runs(after.nodes, name) by {
            assert(self.running_since.contains_key(name) <==> uptime::runs(self.nodes, name));
            assert(after.node(name) == table::node_named(after.nodes, name));
            if self.node(name) is Some {
                assert(after.node(name)->0.status == self.node(name)->0.status);
            }
        }
    }
}

/// The names of nodes that became unhealthy from one moment to the next, in order.
pub open spec fn newly_unhealthy(
    before: Seq<CachedNodeView>,
    after: Seq<CachedNodeView>,
) -> Seq<Seq<char>>
    decreases after.len(),
{
    if after.len() == 0 || before.len() != after.len() {
        Seq::empty()
    } else {
        let earlier = newly_unhealthy(before.drop_last(), after.drop_last());
        if after.last().health_status == HealthStatus::Unhealthy && before.last().health_status
            != HealthStatus::Unhealthy {
            earlier.push(after.last().name())
        } else {
            earlier
        }
    }
}

impl NodeManager {
    /// Notes a heartbeat that came under a key.
    pub fn record_heartbeat(&mut self, key: &str, now: i64)
        requires
            old(self)@.wf(),
        ensures
            final(self)@.wf(),
            final(self)@ == old(self)@.heard(key@, now),
    {
        let ghost before = self@;
        if let Some(name) = health::extract_health_node_name(key) {
            let ghost change = |n: CachedNodeView| n.heard(now);
            proof {
                table::change_is_local(before.nodes, name@, change);
                uptime::running_stays_known(before.running_since, before.nodes, name@, change);
            }
            match self.position(name.as_str()) {
                Some(i) => {
                    self.nodes[i].record_heartbeat(now);
                    assert(self@.nodes =~= before.nodes.update(
                        i as int,
                        change(before.nodes[i as int]),
                    ));
                    proof {
                        table::change_at(before.nodes, i as int, name@, change);
                    }
                },
                None => {
                    proof {
                        table::change_nowhere(before.nodes, name@, change);
                    }
                },
            }
        }
    }

    /// Judges the heartbeats of all nodes. Returns the names of those that became unhealthy.
    pub fn check_staleness(&mut self, now: i64) -> (r: Vec<String>)
        requires
            old(self)@.wf(),
        ensures
            final(self)@.wf(),
            final(self)@ == old(self)@.judged(now),
            text::views(r@) == newly_unhealthy(old(self)@.nodes, final(self)@.nodes),
    {
        let ghost before = self@;
        let ghost goal = before.judged(now).nodes;
        let mut r: Vec<String> = Vec::new();
        let mut i: usize = 0;
        assert(text::views(r@) =~= newly_unhealthy(before.nodes.take(0), goal.take(0)));
        while i < self.nodes.len()
            invariant
                i <= self.nodes@.len(),
                self@.building == before.building,
                self@.machine == before.machine,
                self@.running_since == before.running_since,
                goal == before.judged(now).nodes,
                self@.nodes.len() == before.nodes.len(),
                forall|j: int| 0 <= j < i ==> (#[trigger] self.nodes@[j])@ == goal[j],
                forall|j: int|
                    i <= j < self@.nodes.len() ==> (#[trigger] self.nodes@[j])@
                        == before.nodes[j],
                text::views(r@) == newly_unhealthy(
                    before.nodes.take(i as int),
                    goal.take(i as int),
                ),
            decreases self.nodes.len() - i,
        {
            let ghost told = text::views(r@);
            let name = self.nodes[i].effective_name();
            let since: i64 = match uptime::time_of(&self.running_since, name.as_str()) {
                Some(since) => since,
                None => 0,
            };
            let silent = self.nodes[i].check_staleness(since, now);
            assert(self.nodes@[i as int]@ == goal[i as int]);
            assert(before.nodes.take(i as int + 1).drop_last() =~= before.nodes.take(i as int));
            assert(goal.take(i as int + 1).drop_last() =~= goal.take(i as int));
            if silent {
                r.push(name);
                assert(text::views(r@) =~= told.push(goal[i as int].name()));
            }
            i = i + 1;
        }
        assert(self@.nodes =~= goal);
        assert(before.nodes.take(i as int) =~= before.nodes);
        assert(goal.take(i as int) =~= goal);
        proof {
            before.judging_keeps_names(now);
        }
        r
    }
}

// ---- building and cleaning -------------------------------------------------

impl CachedNodeView {
    /// The node after a build or clean began: its output is empty, and it is shown as building.
    pub open spec fn begun(self, status: BuildStatus) -> CachedNodeView {
        CachedNodeView {
            build_state: BuildStateView { status, output: Seq::empty() },
            status: NodeStatus::Building,
            ..self
        }
    }

    /// The node after a build or clean ended: it is idle, and a last line says how it ended.
    pub open spec fn ended(
        self,
        result: Result<(), NodeManagerErrorView>,
        label: Seq<char>,
    ) -> CachedNodeView {
        CachedNodeView {
            build_state: BuildStateView {
                status: BuildStatus::Idle,
                output: self.build_state.output.push(building::closing_line(result, label)),
            },
            ..self
        }
    }

    /// The node after its build or clean wrote a line.
    pub open spec fn wrote(self, line: Seq<char>) -> CachedNodeView {
        CachedNodeView {
            build_state: BuildStateView {
                output: building::with_line(self.build_state.output, line),
                ..self.build_state
            },
            ..self
        }
    }
}

impl NodeManagerView {
    /// The nodes after a build or clean began.
    pub open spec fn begun(self, name: Seq<char>, status: BuildStatus) -> NodeManagerView {
        NodeManagerView {
            building: self.building.insert(name),
            ..self.with_node(name, |n: CachedNodeView| n.begun(status))
        }.settled()
    }

    /// The nodes after a build or clean ended.
    pub open spec fn ended(
        self,
        name: Seq<char>,
        result: Result<(), NodeManagerErrorView>,
        label: Seq<char>,
    ) -> NodeManagerView {
        NodeManagerView {
            building: self.building.remove(name),
            ..self.with_node(name, |n: CachedNodeView| n.ended(result, label))
        }
    }

    /// The nodes after it was found out whether a node's program is there.
    pub open spec fn marked(self, name: Seq<char>, is_built: bool) -> NodeManagerView {
        self.with_node(name, |n: CachedNodeView| CachedNodeView { is_built, ..n })
    }

    /// Why a build or clean cannot begin, if it cannot: there is no such node, or one is going
    /// on under its name.
    pub open spec fn begin_fault(self, name: Seq<char>) -> Option<NodeManagerErrorView> {
        if self.node(name) is None {
            Some(NodeManagerErrorView::NodeNotFound(name))
        } else if self.building.contains(name) {
            Some(NodeManagerErrorView::AlreadyBuilding(name))
        } else {
            None
        }
    }

    /// Why a build cannot begin, if it cannot: as for any build or clean, or for want of a
    /// command.
    pub open spec fn build_fault(self, name: Seq<char>) -> Option<NodeManagerErrorView> {
        match (self.begin_fault(name), self.build_command(name)) {
            (Some(fault), _) => Some(fault),
            (None, Err(fault)) => Some(fault),
            (None, Ok(_)) => None,
        }
    }

    /// The command that builds a node, or why there is none.
    pub open spec fn build_command(self, name: Seq<char>) -> Result<
        Seq<char>,
        NodeManagerErrorView,
    > {
        match self.node(name) {
            None => Err(NodeManagerErrorView::NodeNotFound(name)),
            Some(node) => match node.manifest {
                Some(NodeManifestView { build: Some(command), .. }) => Ok(command),
                _ => Err(NodeManagerErrorView::BuildError("No build command defined"@)),
            },
        }
    }
}

impl NodeManager {
    /// Begins a build or clean of a node, unless one is going on under the same name. Returns
    /// the directory of the node.
    pub fn begin_build_activity(&mut self, name: &str, status: BuildStatus) -> (r: Result<
        String,
        NodeManagerError,
    >)
        requires
            old(self)@.wf(),
        ensures
            final(self)@.wf(),
            match r {
                Ok(path) => {
                    &&& old(self)@.path_of(name@) == Ok::<_, NodeManagerErrorView>(path@)
                    &&& !old(self)@.building.contains(name@)
                    &&& final(self)@ == old(self)@.begun(name@, status)
                },
                Err(e) => {
                    &&& final(self)@ == old(self)@
                    &&& old(self)@.begin_fault(name@) == Some(e@)
                },
            },
            r is Ok <==> old(self)@.begin_fault(name@) is None,
    {
        let ghost before = self@;
        let ghost change = |n: CachedNodeView| n.begun(status);
        proof {
            table::change_is_local(before.nodes, name@, change);
        }
        let i: usize = match self.position(name) {
            Some(i) => i,
            None => {
                return Err(NodeManagerError::NodeNotFound(name.to_owned()));
            },
        };
        if text::contains(&self.building_nodes, name) {
            return Err(NodeManagerError::AlreadyBuilding(name.to_owned()));
        }
        let path = self.nodes[i].path.clone();
        let node = &mut self.nodes[i];
        node.build_state = BuildState { status, output: Vec::new() };
        node.status = NodeStatus::Building;
        assert(text::views(self.nodes@[i as int].build_state.output@) =~= Seq::empty());
        assert(self@.nodes =~= before.nodes.update(i as int, change(before.nodes[i as int])));
        proof {
            table::change_at(before.nodes, i as int, name@, change);
        }
        let ghost names = text::views(self.building_nodes@);
        self.building_nodes.push(name.to_owned());
        assert(text::views(self.building_nodes@) =~= names.push(name@));
        proof {
            text::insert_by_push(names, name@);
        }
        self.settle();
        Ok(path)
    }

    /// Begins a build of a node that can be built. Returns the node's directory and the command
    /// that builds it; what cannot be built is not begun.
    pub fn begin_build(&mut self, name: &str) -> (r: Result<(String, String), NodeManagerError>)
        requires
            old(self)@.wf(),
        ensures
            final(self)@.wf(),
            match r {
                Ok((path, command)) => {
                    &&& old(self)@.path_of(name@) == Ok::<_, NodeManagerErrorView>(path@)
                    &&& old(self)@.build_command(name@) == Ok::<_, NodeManagerErrorView>(command@)
                    &&& final(self)@ == old(self)@.begun(name@, BuildStatus::Building)
                },
                Err(e) => {
                    &&& final(self)@ == old(self)@
                    &&& old(self)@.build_fault(name@) == Some(e@)
                },
            },
            r is Ok <==> old(self)@.build_fault(name@) is None,
    {
        if text::contains(&self.building_nodes, name) {
            return match self.begin_build_activity(name, BuildStatus::Building) {
                Ok(_) => Err(NodeManagerError::AlreadyBuilding(name.to_owned())),
                Err(e) => Err(e),
            };
        }
        let command = match self.build_command(name) {
            Ok(command) => command,
            Err(e) => {
                return Err(e);
            },
        };
        match self.begin_build_activity(name, BuildStatus::Building) {
            Ok(path) => Ok((path, command)),
            Err(e) => Err(e),
        }
    }

    /// Whether a node's service has to be stopped before the node is built or cleaned: it runs,
    /// and the build or clean will not be refused because another one is going on.
    pub fn must_stop(&self, name: &str, state: Option<ActiveState>) -> (r: bool)
        ensures
            r == (!self@.building.contains(name@) && (state matches Some(s) && (s is Active
                || s is Activating))),
    {
        !text::contains(&self.building_nodes, name) && systemd::stop_if_running(state)
    }

    /// Ends a build or clean. `label` is `Build` or `Clean`.
    pub fn finish_build_activity(
        &mut self,
        name: &str,
        result: &Result<(), NodeManagerError>,
        label: &str,
    )
        requires
            old(self)@.wf(),
        ensures
            final(self)@.wf(),
            final(self)@ == old(self)@.ended(name@, error::outcome(*result), label@),
    {
        let ghost before = self@;
        let ghost change = |n: CachedNodeView| n.ended(error::outcome(*result), label@);
        proof {
            table::change_is_local(before.nodes, name@, change);
            uptime::running_stays_known(before.running_since, before.nodes, name@, change);
        }
        match self.position(name) {
            Some(i) => {
                let message = building::closing_message(result, label);
                let ghost output = self.nodes@[i as int]@.build_state.output;
                let node = &mut self.nodes[i];
                node.build_state.status = BuildStatus::Idle;
                node.build_state.output.push(message);
                assert(text::views(self.nodes@[i as int].build_state.output@) =~= output.push(
                    message@,
                ));
                assert(self@.nodes =~= before.nodes.update(i as int, change(before.nodes[i as int])));
                proof {
                    table::change_at(before.nodes, i as int, name@, change);
                }
            },
            None => {
                proof {
                    table::change_nowhere(before.nodes, name@, change);
                }
            },
        }
        proof {
            text::others_are_the_rest(text::views(self.building_nodes@), name@);
        }
        self.building_nodes = text::without(&self.building_nodes, name);
    }

    /// Notes a line that a node's build or clean wrote.
    pub fn push_output(&mut self, name: &str, line: String)
        requires
            old(self)@.wf(),
        ensures
            final(self)@.wf(),
            final(self)@ == old(self)@.with_node(name@, |n: CachedNodeView| n.wrote(line@)),
    {
        let ghost before = self@;
        let ghost change = |n: CachedNodeView| n.wrote(line@);
        proof {
            table::change_is_local(before.nodes, name@, change);
            uptime::running_stays_known(before.running_since, before.nodes, name@, change);
        }
        match self.position(name) {
            Some(i) => {
                self.nodes[i].build_state.push_line(line);
                assert(self@.nodes =~= before.nodes.update(i as int, change(before.nodes[i as int])));
                proof {
                    table::change_at(before.nodes, i as int, name@, change);
                }
            },
            None => {
                proof {
                    table::change_nowhere(before.nodes, name@, change);
                }
            },
        }
    }

    /// Notes whether a node's program is there.
    pub fn mark_built(&mut self, name: &str, is_built: bool)
        requires
            old(self)@.wf(),
        ensures
            final(self)@.wf(),
            final(self)@ == old(self)@.marked(name@, is_built),
    {
        let ghost before = self@;
        let ghost change = |n: CachedNodeView| CachedNodeView { is_built, ..n };
        proof {
            table::change_is_local(before.nodes, name@, change);
            uptime::running_stays_known(before.running_since, before.nodes, name@, change);
        }
        match self.position(name) {
            Some(i) => {
                let node = &mut self.nodes[i];
                node.is_built = is_built;
                assert(self@.nodes =~= before.nodes.update(i as int, change(before.nodes[i as int])));
                proof {
                    table::change_at(before.nodes, i as int, name@, change);
                }
            },
            None => {
                proof {
                    table::change_nowhere(before.nodes, name@, change);
                }
            },
        }
    }

    /// The command that builds a node.
    pub fn build_command(&self, name: &str) -> (r: Result<String, NodeManagerError>)
        requires
            self@.wf(),
        ensures
            match r {
                Ok(command) => self@.build_command(name@) == Ok::<_, NodeManagerErrorView>(
                    command@,
                ),
                Err(e) => self@.build_command(name@) == Err::<Seq<char>, _>(e@),
            },
    {
        match self.position(name) {
            None => Err(NodeManagerError::NodeNotFound(name.to_owned())),
            Some(i) => {
                if let Some(manifest) = &self.nodes[i].manifest {
                    if let Some(command) = &manifest.build {
                        return Ok(command.clone());
                    }
                }
                Err(NodeManagerError::BuildError("No build command defined".to_owned()))
            },
        }
    }
}

// ---- the registry ----------------------------------------------------------

/// The entries before the first one whose service could not be asked about are as many as
/// [`readable`] says.
proof fn readable_stops(regs: Seq<RegisteredNodeView>, i: int)
    requires
        0 <= i < regs.len(),
        readable(regs.take(i)) == i,
        regs[i].unit is Err,
    ensures
        readable(regs) == i,
    decreases regs.len(),
{
    let shorter = regs.drop_last();
    if i == regs.len() - 1 {
        assert(shorter =~= regs.take(i));
    } else {
        assert(shorter.take(i) =~= regs.take(i));
        readable_stops(shorter, i);
    }
}

/// An entry of a name is one of the entries, and it is of that name.
proof fn last_entry_is_an_entry(regs: Seq<RegisteredNodeView>, name: Seq<char>)
    ensures
        match last_entry(regs, name) {
            Some(reg) => reg.name() == name && regs.contains(reg),
            None => forall|i: int| 0 <= i < regs.len() ==> (#[trigger] regs[i]).name() != name,
        },
    decreases regs.len(),
{
    if regs.len() > 0 {
        let shorter = regs.drop_last();
        last_entry_is_an_entry(shorter, name);
        assert(regs[regs.len() - 1] == regs.last());
        match last_entry(shorter, name) {
            Some(reg) => {
                let i = choose|i: int| 0 <= i < shorter.len() && shorter[i] == reg;
                assert(regs[i] == reg);
            },
            None => {
                assert forall|i: int| 0 <= i < shorter.len() implies (#[trigger] regs[i]).name()
                    != name by {
                    assert(shorter[i] == regs[i]);
                }
            },
        }
    }
}

impl NodeManager {
    /// Takes in an entry of the registry whose service could be asked about.
    fn take_in(&mut self, reg: &RegisteredNode, unit: UnitState)
        requires
            old(self)@.consistent(),
            reg.unit == Ok::<UnitState, NodeManagerError>(unit),
        ensures
            final(self)@.consistent(),
            final(self)@.building == old(self)@.building,
            final(self)@.machine == old(self)@.machine,
            final(self)@.running_since == old(self)@.running_since,
            forall|name: Seq<char>| #[trigger]
                final(self)@.node(name) == if name == reg@.name() {
                    Some(reg@.cached(old(self)@.node(name)))
                } else {
                    old(self)@.node(name)
                },
            final(self)@.node(reg@.name()) matches Some(node) ==> !node.build_state.busy() ==> {
                &&& node.status == NodeStatus::NotInstalled <==> !unit.installed
                &&& node.status == NodeStatus::Running <==> unit.installed && (unit.active_state
                    is Active || unit.active_state is Activating)
                &&& node.status == NodeStatus::Failed <==> unit.installed && unit.active_state
                    is Failed
                &&& node.status == NodeStatus::Stopped <==> unit.installed && !(
                unit.active_state is Active || unit.active_state is Activating
                    || unit.active_state is Failed)
            },
    {
        let ghost before = self@;
        let name = registry::effective_name(&reg.entry.name_override, &reg.manifest);
        let place = self.position(name.as_str());
        let (build_state, health_status, last_health_check_ms) = match place {
            Some(i) => (
                self.nodes[i].build_state.clone(),
                self.nodes[i].health_status,
                self.nodes[i].last_health_check_ms,
            ),
            None => (BuildState::default(), HealthStatus::Unknown, 0),
        };
        let busy = match build_state.status {
            BuildStatus::Idle => false,
            _ => true,
        };
        let cached = CachedNode {
            path: reg.entry.path.clone(),
            manifest: registry::copy_manifest(&reg.manifest),
            status: if busy {
                NodeStatus::Building
            } else {
                unit.node_status()
            },
            installed: unit.installed,
            autostart_enabled: unit.autostart_enabled(),
            is_built: reg.manifest.is_some() && reg.is_built,
            build_state,
            last_updated_ms: reg.read_at_ms,
            health_status,
            last_health_check_ms,
            name_override: text::copy_opt(&reg.entry.name_override),
            config_override: text::copy_opt(&reg.entry.config_override),
        };
        let ghost new = cached@;
        assert(new == reg@.cached(before.node(name@)));
        assert(new.name() == name@);
        match place {
            Some(i) => {
                self.nodes.set(i, cached);
                assert(self@.nodes =~= before.nodes.update(i as int, new));
                proof {
                    table::replaced_node(before.nodes, i as int, new);
                }
            },
            None => {
                self.nodes.push(cached);
                assert(self@.nodes =~= before.nodes.push(new));
                proof {
                    table::added_node(before.nodes, new);
                }
            },
        }
    }

    /// Forgets the nodes whose names are not in a list.
    fn forget_others(&mut self, names: &Vec<String>)
        requires
            old(self)@.consistent(),
        ensures
            final(self)@.consistent(),
            final(self)@.building == old(self)@.building,
            final(self)@.machine == old(self)@.machine,
            final(self)@.running_since == old(self)@.running_since,
            forall|name: Seq<char>| #[trigger]
                final(self)@.node(name) == if text::views(names@).contains(name) {
                    old(self)@.node(name)
                } else {
                    None
                },
    {
        let ghost before = self@;
        let ghost kept = text::views(names@);
        let mut i: usize = 0;
        while i < self.nodes.len()
            invariant
                i <= self.nodes@.len(),
                kept == text::views(names@),
                self@.consistent(),
                self@.building == before.building,
                self@.machine == before.machine,
                self@.running_since == before.running_since,
                before == old(self)@,
                forall|j: int| 0 <= j < i ==> kept.contains((#[trigger] self@.nodes[j]).name()),
                forall|name: Seq<char>|
                    kept.contains(name) ==> #[trigger] self@.node(name) == before.node(name),
            decreases self.nodes.len() - i,
        {
            let name = self.nodes[i].effective_name();
            if text::contains(names, name.as_str()) {
                i = i + 1;
            } else {
                let ghost here = self@;
                let _forgotten = self.nodes.remove(i);
                assert(self@.nodes =~= here.nodes.remove(i as int));
                proof {
                    table::removed_node(here.nodes, i as int);
                }
                assert forall|other: Seq<char>| kept.contains(other) implies #[trigger] self@.node(
                    other,
                ) == before.node(other) by {
                    assert(here.node(other) == before.node(other));
                }
            }
        }
        assert forall|name: Seq<char>| !kept.contains(name) implies #[trigger] self@.node(
            name,
        ) is None by {
            if exists|j: int| table::is_at(self@.nodes, j, name) {
                let j = choose|j: int| table::is_at(self@.nodes, j, name);
                assert(kept.contains(self@.nodes[j].name()));
            }
        }
    }

    /// Takes in the registry: entries up to the first whose service could not be asked about
    /// and, if all could be taken in, nothing else remains. What fails is returned.
    pub fn refresh_all(&mut self, registered: Result<Vec<RegisteredNode>, NodeManagerError>) -> (r:
        Result<(), NodeManagerError>)
        requires
            old(self)@.wf(),
        ensures
            final(self)@.wf(),
            final(self)@.building == old(self)@.building,
            final(self)@.machine == old(self)@.machine,
            final(self)@.running_since == uptime::running_times(
                old(self)@.running_since,
                final(self)@.nodes,
            ),
            match registered {
                Ok(regs) => {
                    let found = registered_views(regs@);
                    &&& refreshed(old(self)@.nodes, found, final(self)@.nodes)
                    &&& match r {
                        Ok(_) => readable(found) == found.len(),
                        Err(e) => readable(found) < found.len() && found[readable(
                            found,
                        ) as int].unit == Err::<UnitState, _>(e@),
                    }
                },
                Err(e) => r == Err::<(), NodeManagerError>(e) && final(self)@ == old(self)@,
            },
    {
        let regs = match registered {
            Ok(regs) => regs,
            Err(e) => {
                proof {
                    uptime::tracking_known(self@.running_since, self@.nodes);
                }
                return Err(e);
            },
        };
        let ghost before = self@;
        let ghost found = registered_views(regs@);
        let mut seen: Vec<String> = Vec::new();
        for i in 0..regs.len()
            invariant
                found == registered_views(regs@),
                registered == Ok::<Vec<RegisteredNode>, NodeManagerError>(regs),
                before == old(self)@,
                self@.consistent(),
                self@.building == before.building,
                self@.machine == before.machine,
                self@.running_since == before.running_since,
                readable(found.take(i as int)) == i,
                forall|name: Seq<char>| #[trigger]
                    text::views(seen@).contains(name) <==> last_entry(
                        found.take(i as int),
                        name,
                    ) is Some,
                forall|name: Seq<char>| #[trigger]
                    self@.node(name) == renewed(
                        before.nodes,
                        found.take(i as int),
                        false,
                        name,
                    ),
        {
            assert(found.take(i as int + 1).drop_last() =~= found.take(i as int));
            assert(found.take(i as int + 1).last() == regs@[i as int]@);
            match &regs[i].unit {
                Err(e) => {
                    proof {
                        readable_stops(found, i as int);
                        assert forall|name: Seq<char>| #[trigger]
                            table::node_named(self@.nodes, name) == renewed(
                                before.nodes,
                                found.take(i as int),
                                false,
                                name,
                            ) by {
                            assert(self@.node(name) == table::node_named(self@.nodes, name));
                        }
                    }
                    self.settle();
                    return Err(e.clone());
                },
                Ok(unit) => {
                    self.take_in(&regs[i], *unit);
                    let ghost names = text::views(seen@);
                    let name = registry::effective_name(
                        &regs[i].entry.name_override,
                        &regs[i].manifest,
                    );
                    seen.push(name);
                    assert(text::views(seen@) =~= names.push(name@));
                    proof {
                        text::insert_by_push(names, name@);
                    }
                    assert forall|other: Seq<char>| #[trigger]
                        text::views(seen@).contains(other) <==> last_entry(
                            found.take(i as int + 1),
                            other,
                        ) is Some by {
                        assert(text::views(seen@).to_set().contains(other)
                            == names.to_set().insert(name@).contains(other));
                    }
                },
            }
        }
        assert(found.take(found.len() as int) =~= found);
        self.forget_others(&seen);
        assert forall|name: Seq<char>| #[trigger]
            table::node_named(self@.nodes, name) == renewed(before.nodes, found, true, name) by {
            assert(self@.node(name) == table::node_named(self@.nodes, name));
        }
        self.settle();
        Ok(())
    }
}

// ---- making a manager ------------------------------------------------------

impl NodeManagerView {
    /// No nodes, on a machine.
    pub open spec fn empty(machine: MachineView) -> NodeManagerView {
        NodeManagerView {
            nodes: Seq::empty(),
            building: Set::empty(),
            running_since: Map::empty(),
            machine,
        }
    }
}

impl NodeManager {
    /// A manager without nodes.
    pub fn empty(machine: Machine) -> (r: NodeManager)
        ensures
            r@ == NodeManagerView::empty(machine@),
            r@.wf(),
    {
        let r = NodeManager {
            nodes: Vec::new(),
            building_nodes: Vec::new(),
            running_since: Vec::new(),
            machine,
        };
        assert(r@.nodes =~= Seq::empty());
        assert(r@.building =~= Set::empty());
        r
    }

    /// A manager of the registered nodes, unless one of them could not be asked about.
    pub fn new(
        machine: Machine,
        registered: Result<Vec<RegisteredNode>, NodeManagerError>,
    ) -> (r: Result<NodeManager, NodeManagerError>)
        ensures
            match registered {
                Ok(regs) => {
                    let found = registered_views(regs@);
                    match r {
                        Ok(manager) => {
                            &&& readable(found) == found.len()
                            &&& manager@.wf()
                            &&& refreshed(Seq::empty(), found, manager@.nodes)
                            &&& manager@.building == Set::<Seq<char>>::empty()
                            &&& manager@.running_since == uptime::running_times(
                                Map::empty(),
                                manager@.nodes,
                            )
                            &&& manager@.machine == machine@
                        },
                        Err(e) => readable(found) < found.len() && found[readable(
                            found,
                        ) as int].unit == Err::<UnitState, _>(e@),
                    }
                },
                Err(e) => r == Err::<NodeManager, NodeManagerError>(e),
            },
    {
        let mut manager = NodeManager::empty(machine);
        match manager.refresh_all(registered) {
            Ok(_) => Ok(manager),
            Err(e) => Err(e),
        }
    }

    /// The manager that was made or, where that failed, one without nodes.
    pub fn new_with_graceful_fallback(
        made: Result<NodeManager, NodeManagerError>,
        machine: Machine,
    ) -> (r: NodeManager)
        ensures
            match made {
                Ok(manager) => r == manager,
                Err(_) => r@ == NodeManagerView::empty(machine@) && r@.wf(),
            },
    {
        match made {
            Ok(manager) => manager,
            Err(_) => NodeManager::empty(machine),
        }
    }
}

// ---- asking about nodes ----------------------------------------------------

/// The manifests among nodes, each with the name of its node, in order.
pub open spec fn manifests_of(nodes: Seq<CachedNodeView>) -> Seq<(Seq<char>, NodeManifestView)>
    decreases nodes.len(),
{
    if nodes.len() == 0 {
        Seq::empty()
    } else {
        let earlier = manifests_of(nodes.drop_last());
        match nodes.last().manifest {
            Some(manifest) => earlier.push((nodes.last().name(), manifest)),
            None => earlier,
        }
    }
}

/// The contents of a list of names and manifests.
pub open spec fn manifest_views(v: Seq<(String, NodeManifest)>) -> Seq<
    (Seq<char>, NodeManifestView),
> {
    Seq::new(v.len(), |i: int| (v[i].0@, v[i].1@))
}

/// What it takes to install a node's service.
#[derive(Debug)]
pub struct InstallPlan {
    /// Directory of the node.
    pub path: String,
    /// Kind of node.
    pub node_type: String,
    /// Command that runs the node.
    pub command: Option<String>,
    /// Nodes that have to run before it.
    pub depends_on: Vec<String>,
}

/// The contents of an [`InstallPlan`].
pub struct InstallPlanView {
    pub path: Seq<char>,
    pub node_type: Seq<char>,
    pub command: Option<Seq<char>>,
    pub depends_on: Seq<Seq<char>>,
}

impl View for InstallPlan {
    type V = InstallPlanView;

    open spec fn view(&self) -> InstallPlanView {
        InstallPlanView {
            path: self.path@,
            node_type: self.node_type@,
            command: text::opt_view(self.command),
            depends_on: text::views(self.depends_on@),
        }
    }
}

/// The command that runs a node. An instance with a configuration of its own is told of it.
pub open spec fn run_command(
    command: Option<Seq<char>>,
    config_override: Option<Seq<char>>,
) -> Option<Seq<char>> {
    match config_override {
        Some(config) => Some(
            (match command {
                Some(command) => command,
                None => "./target/release/unknown"@,
            }) + " -c "@ + config,
        ),
        None => command,
    }
}

impl NodeManagerView {
    /// The directory of a node.
    pub open spec fn path_of(self, name: Seq<char>) -> Result<Seq<char>, NodeManagerErrorView> {
        match self.node(name) {
            Some(node) => Ok(node.path),
            None => Err(NodeManagerErrorView::NodeNotFound(name)),
        }
    }

    /// What it takes to install a node's service. A node without a manifest counts as unknown.
    pub open spec fn install_plan(self, name: Seq<char>) -> Result<
        InstallPlanView,
        NodeManagerErrorView,
    > {
        match self.node(name) {
            Some(CachedNodeView { path, manifest: Some(manifest), config_override, .. }) => Ok(
                InstallPlanView {
                    path,
                    node_type: manifest.node_type,
                    command: run_command(manifest.command, config_override),
                    depends_on: manifest.depends_on,
                },
            ),
            _ => Err(NodeManagerErrorView::NodeNotFound(name)),
        }
    }
}

impl NodeManager {
    /// The name of the machine.
    pub fn machine_id(&self) -> (r: &str)
        ensures
            r@ == self@.machine.id,
    {
        self.machine.id.as_str()
    }

    /// What is reported of the node at a place.
    fn report(&self, i: usize) -> (r: NodeState)
        requires
            i < self.nodes@.len(),
        ensures
            r@ == self@.report(self.nodes@[i as int]@),
    {
        self.nodes[i].to_proto(
            self.machine.id.as_str(),
            self.machine.hostname.as_str(),
            self.machine.ips.as_slice(),
        )
    }

    /// What is reported of all nodes.
    pub fn get_node_list(&self, now: i64) -> (r: NodeList)
        ensures
            r@ == (NodeListView {
                nodes: Seq::new(self@.nodes.len(), |i: int| self@.report(self@.nodes[i])),
                timestamp_ms: now,
                machine_id: self@.machine.id,
            }),
    {
        let mut states: Vec<NodeState> = Vec::new();
        for i in 0..self.nodes.len()
            invariant
                states@.len() == i,
                forall|j: int|
                    0 <= j < i ==> (#[trigger] states@[j])@ == self@.report(self@.nodes[j]),
        {
            states.push(self.report(i));
        }
        assert(schemas::state_views(states@) =~= Seq::new(
            self@.nodes.len(),
            |i: int| self@.report(self@.nodes[i]),
        ));
        NodeList { nodes: states, timestamp_ms: now, machine_id: self.machine.id.clone() }
    }

    /// The manifests of the nodes that have one, each with the name of its node.
    pub fn get_cached_manifests(&self) -> (r: Vec<(String, NodeManifest)>)
        ensures
            manifest_views(r@) == manifests_of(self@.nodes),
    {
        let mut r: Vec<(String, NodeManifest)> = Vec::new();
        let ghost nodes = self@.nodes;
        assert(manifest_views(r@) =~= manifests_of(nodes.take(0)));
        for i in 0..self.nodes.len()
            invariant
                nodes == self@.nodes,
                manifest_views(r@) == manifests_of(nodes.take(i as int)),
        {
            assert(nodes.take(i as int + 1).drop_last() =~= nodes.take(i as int));
            assert(nodes.take(i as int + 1).last() == self.nodes@[i as int]@);
            if let Some(manifest) = &self.nodes[i].manifest {
                let ghost earlier = manifest_views(r@);
                let name = self.nodes[i].effective_name();
                let copy = manifest.clone();
                r.push((name, copy));
                assert(manifest_views(r@) =~= earlier.push((name@, copy@)));
            }
        }
        assert(nodes.take(nodes.len() as int) =~= nodes);
        r
    }

    /// What is reported of a node.
    pub fn get_node(&self, name: &str) -> (r: Option<NodeState>)
        requires
            self@.wf(),
        ensures
            schemas::opt_state(r) == self@.state_of(name@),
    {
        match self.position(name) {
            Some(i) => Some(self.report(i)),
            None => None,
        }
    }

    /// The directory of a node.
    pub fn find_node_path(&self, name: &str) -> (r: Result<String, NodeManagerError>)
        requires
            self@.wf(),
        ensures
            match r {
                Ok(path) => self@.path_of(name@) == Ok::<_, NodeManagerErrorView>(path@),
                Err(e) => self@.path_of(name@) == Err::<Seq<char>, _>(e@),
            },
    {
        match self.position(name) {
            Some(i) => Ok(self.nodes[i].path.clone()),
            None => Err(NodeManagerError::NodeNotFound(name.to_owned())),
        }
    }

    /// What it takes to install a node's service.
    pub fn install_plan(&self, name: &str) -> (r: Result<InstallPlan, NodeManagerError>)
        requires
            self@.wf(),
        ensures
            match r {
                Ok(plan) => self@.install_plan(name@) == Ok::<_, NodeManagerErrorView>(plan@),
                Err(e) => self@.install_plan(name@) == Err::<InstallPlanView, _>(e@),
            },
    {
        let i: usize = match self.position(name) {
            Some(i) => i,
            None => {
                return Err(NodeManagerError::NodeNotFound(name.to_owned()));
            },
        };
        let node = &self.nodes[i];
        match &node.manifest {
            None => Err(NodeManagerError::NodeNotFound(name.to_owned())),
            Some(manifest) => {
                let command = match &node.config_override {
                    Some(config) => {
                        let mut line = match &manifest.command {
                            Some(command) => command.clone(),
                            None => "./target/release/unknown".to_owned(),
                        };
                        line.append(" -c ");
                        line.append(config.as_str());
                        Some(line)
                    },
                    None => text::copy_opt(&manifest.command),
                };
                Ok(
                    InstallPlan {
                        path: node.path.clone(),
                        node_type: manifest.node_type.clone(),
                        command,
                        depends_on: text::copy_texts(manifest.depends_on.as_slice()),
                    },
                )
            },
        }
    }

    /// The event that tells of something that happened to a node; none if there is no such
    /// node.
    pub fn emit_event(&self, event_type: &str, node_name: &str, now: i64) -> (r: Option<NodeEvent>)
        requires
            self@.wf(),
        ensures
            opt_event(r) == self@.event(event_type@, node_name@, now),
    {
        match self.get_node(node_name) {
            Some(state) => Some(
                NodeEvent {
                    event_type: event_type.to_owned(),
                    node_name: node_name.to_owned(),
                    state: Some(state),
                    timestamp_ms: now,
                },
            ),
            None => None,
        }
    }
}

// ---- what holds of the registry's nodes ------------------------------------

/// After the whole registry was taken in, there are exactly the registered nodes.
pub proof fn refresh_tracks_the_registry(
    before: Seq<CachedNodeView>,
    regs: Seq<RegisteredNodeView>,
    after: Seq<CachedNodeView>,
    name: Seq<char>,
)
    requires
        refreshed(before, regs, after),
        readable(regs) == regs.len(),
    ensures
        table::node_named(after, name) is Some <==> exists|i: int|
            0 <= i < regs.len() && (#[trigger] regs[i]).name() == name,
        forall|i: int|
            0 <= i < after.len() ==> exists|j: int|
                0 <= j < regs.len() && (#[trigger] regs[j]).name() == (#[trigger] after[i]).name(),
{
    assert(regs.take(regs.len() as int) =~= regs);
    last_entry_is_an_entry(regs, name);
    assert(table::node_named(after, name) == renewed(before, regs, true, name));
    assert forall|i: int| 0 <= i < after.len() implies exists|j: int|
        0 <= j < regs.len() && (#[trigger] regs[j]).name() == (#[trigger] after[i]).name() by {
        let here = after[i].name();
        table::found_by_name(after, i);
        last_entry_is_an_entry(regs, here);
        assert(table::node_named(after, here) == renewed(before, regs, true, here));
    }
}

/// Taking in the registry forgets neither how a node's build goes nor what its heartbeats
/// said, as long as the node is registered under its name.
pub proof fn refresh_keeps_builds_and_health(
    before: Seq<CachedNodeView>,
    regs: Seq<RegisteredNodeView>,
    after: Seq<CachedNodeView>,
    name: Seq<char>,
)
    requires
        refreshed(before, regs, after),
        table::node_named(before, name) is Some,
        table::node_named(after, name) is Some,
    ensures
        table::node_named(after, name)->0.build_state == table::node_named(
            before,
            name,
        )->0.build_state,
        table::node_named(after, name)->0.health_status == table::node_named(
            before,
            name,
        )->0.health_status,
        table::node_named(after, name)->0.last_health_check_ms == table::node_named(
            before,
            name,
        )->0.last_health_check_ms,
{
}

/// Taking in the same registry again changes nothing: what was found is found again under the
/// same names.
pub proof fn refresh_is_idempotent(
    before: Seq<CachedNodeView>,
    regs: Seq<RegisteredNodeView>,
    once: Seq<CachedNodeView>,
    twice: Seq<CachedNodeView>,
    name: Seq<char>,
)
    requires
        refreshed(before, regs, once),
        refreshed(once, regs, twice),
    ensures
        table::node_named(twice, name) == table::node_named(once, name),
{
    let n = readable(regs) as int;
    assert(table::node_named(once, name) == renewed(
        before,
        regs.take(n),
        readable(regs) == regs.len(),
        name,
    ));
    assert(table::node_named(twice, name) == renewed(
        once,
        regs.take(n),
        readable(regs) == regs.len(),
        name,
    ));
}

/// Of what is no node, no event is told; of a node, the event tells the state that is reported
/// of it.
pub proof fn events_tell_of_nodes(
    nodes: NodeManagerView,
    event_type: Seq<char>,
    name: Seq<char>,
    now: i64,
)
    ensures
        nodes.event(event_type, name, now) is Some <==> nodes.node(name) is Some,
        nodes.event(event_type, name, now) matches Some(event) ==> event.state == nodes.state_of(
            name,
        ) && event.event_type == event_type && event.node_name == name && event.timestamp_ms
            == now,
{
}

/// A node that runs is healthy once a heartbeat came under its key, in either form; no other
/// node is concerned.
pub proof fn heartbeats_reach_their_node(
    nodes: NodeManagerView,
    name: Seq<char>,
    scope: Seq<char>,
    machine: Seq<char>,
    now: i64,
)
    requires
        nodes.wf(),
        nodes.node(name) is Some,
        !name.contains('/'),
        !scope.contains('/'),
        !machine.contains('/'),
        scope != "nodes"@,
    ensures
        ({
            let legacy = nodes.heard("bubbaloop/nodes/"@ + name + "/health"@, now);
            let scoped = nodes.heard(
                "bubbaloop/"@ + scope + "/"@ + machine + "/health/"@ + name,
                now,
            );
            &&& legacy == scoped
            &&& scoped.node(name) == Some(nodes.node(name)->0.heard(now))
            &&& forall|other: Seq<char>|
                other != name ==> #[trigger] scoped.node(other) == nodes.node(other)
        }),
{
    health::legacy_key_names_the_node(name);
    health::scoped_key_names_the_node(scope, machine, name);
    let change = |n: CachedNodeView| n.heard(now);
    table::change_is_local(nodes.nodes, name, change);
    let scoped = nodes.heard("bubbaloop/"@ + scope + "/"@ + machine + "/health/"@ + name, now);
    assert(scoped.nodes == table::with_node(nodes.nodes, name, change));
    assert forall|other: Seq<char>| other != name implies #[trigger] scoped.node(other)
        == nodes.node(other) by {
        assert(scoped.node(other) == table::node_named(scoped.nodes, other));
    }
}

/// What is reported of a node bears the name under which it was asked for, and no two nodes
/// are reported under the same name.
pub proof fn reports_bear_their_names(nodes: NodeManagerView, name: Seq<char>)
    requires
        nodes.wf(),
    ensures
        nodes.state_of(name) matches Some(state) ==> state.name == name,
        forall|i: int, j: int|
            0 <= i < j < nodes.nodes.len() ==> nodes.report(#[trigger] nodes.nodes[i]).name
                != nodes.report(#[trigger] nodes.nodes[j]).name,
{
}

/// A running node that was heard, but not within the time allowed, is found unhealthy when
/// heartbeats are next judged; so is one that was never heard and has been running for longer
/// than that.
pub proof fn silent_nodes_are_found_unhealthy(nodes: NodeManagerView, name: Seq<char>, now: i64)
    requires
        nodes.wf(),
        nodes.node(name) is Some,
        nodes.node(name)->0.status == NodeStatus::Running,
        if nodes.node(name)->0.last_health_check_ms > 0 {
            now - nodes.node(name)->0.last_health_check_ms > health::HEALTH_TIMEOUT_MS
        } else {
            now - nodes.running_since[name] > health::HEALTH_TIMEOUT_MS
        },
    ensures
        nodes.judged(now).node(name) == Some(
            CachedNodeView {
                health_status: HealthStatus::Unhealthy,
                ..nodes.node(name)->0
            },
        ),
{
    nodes.judging_keeps_names(now);
    assert(uptime::runs(nodes.nodes, name));
    assert(nodes.running_since.contains_key(name));
    assert(nodes.judged(now).node(name) == Some(
        nodes.node(name)->0.judged(nodes.since(name), now),
    ));
}

/// A node without a build command is not begun to be built, so its name stays free: asking
/// again gives the same answer.
pub proof fn unbuildable_nodes_stay_free(nodes: NodeManagerView, name: Seq<char>)
    requires
        nodes.node(name) is Some,
        !nodes.building.contains(name),
        nodes.node(name)->0.manifest is None || nodes.node(name)->0.manifest->0.build is None,
    ensures
        nodes.build_fault(name) == Some(
            NodeManagerErrorView::BuildError("No build command defined"@),
        ),
{
}

} // verus!
