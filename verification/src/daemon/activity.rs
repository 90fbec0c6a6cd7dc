//! Builds and cleans from their beginning to their end.
use crate::daemon::building;
use crate::daemon::error;
use crate::daemon::error::{NodeManagerError, NodeManagerErrorView};
use crate::daemon::node::{BuildStatus, CachedNodeView};
use crate::daemon::node_manager;
use crate::daemon::node_manager::{
    NodeManager, NodeManagerView, RegisteredNode, RegisteredNodeView,
};
use crate::daemon::table;
use crate::daemon::uptime;
use crate::schemas::{NodeEvent, NodeStatus};
use vstd::prelude::*;

verus! {

/// What the registry holds, if it could be read.
pub open spec fn found_in(registered: Result<Vec<RegisteredNode>, NodeManagerError>) -> Option<
    Seq<RegisteredNodeView>,
> {
    match registered {
        Ok(regs) => Some(node_manager::registered_views(regs@)),
        Err(e) => None,
    }
}

impl NodeManagerView {
    /// What is found under a name after the registry was taken in, as far as it could be.
    pub open spec fn after_refresh(
        self,
        found: Option<Seq<RegisteredNodeView>>,
        name: Seq<char>,
    ) -> Option<CachedNodeView> {
        match found {
            Some(regs) => node_manager::renewed(
                self.nodes,
                regs.take(node_manager::readable(regs) as int),
                node_manager::readable(regs) == regs.len(),
                name,
            ),
            None => self.node(name),
        }
    }

    /// The nodes after a build ended, before the registry is taken in: a build that succeeded
    /// has left a program.
    pub open spec fn built(
        self,
        name: Seq<char>,
        result: Result<(), NodeManagerErrorView>,
    ) -> NodeManagerView {
        let ended = self.ended(name, result, "Build"@);
        if result is Ok {
            ended.marked(name, true)
        } else {
            ended
        }
    }
}

impl NodeManager {
    /// Ends a build: it is no longer going on, its outcome is noted, and the registry is taken
    /// in as far as that can be done. Returns the event that tells how the build ended.
    pub fn complete_build(
        &mut self,
        name: &str,
        result: &Result<(), NodeManagerError>,
        registered: Result<Vec<RegisteredNode>, NodeManagerError>,
        now: i64,
    ) -> (r: Option<NodeEvent>)
        requires
            old(self)@.wf(),
        ensures
            final(self)@.wf(),
            final(self)@.machine == old(self)@.machine,
            final(self)@.building == old(self)@.building.remove(name@),
            final(self)@.running_since == uptime::running_times(
                old(self)@.running_since,
                final(self)@.nodes,
            ),
            forall|other: Seq<char>| #[trigger]
                final(self)@.node(other) == old(self)@.built(
                    name@,
                    error::outcome(*result),
                ).after_refresh(found_in(registered), other),
            node_manager::opt_event(r) == final(self)@.event(
                building::build_event_of(error::outcome(*result)),
                name@,
                now,
            ),
    {
        self.finish_build_activity(name, result, "Build");
        if result.is_ok() {
            self.mark_built(name, true);
        }
        let _refreshed = self.refresh_all(registered);
        self.emit_event(building::build_event(result), name, now)
    }

    /// Ends a clean: it is no longer going on, its outcome is noted, and the registry is taken in
    /// as far as that can be done. After a clean that succeeded the node's program counts as
    /// gone even if the registry still found it. Returns the event that tells that the clean
    /// ended.
    pub fn complete_clean(
        &mut self,
        name: &str,
        result: &Result<(), NodeManagerError>,
        registered: Result<Vec<RegisteredNode>, NodeManagerError>,
        now: i64,
    ) -> (r: Option<NodeEvent>)
        requires
            old(self)@.wf(),
        ensures
            final(self)@.wf(),
            final(self)@.machine == old(self)@.machine,
            final(self)@.building == old(self)@.building.remove(name@),
            final(self)@.running_since == uptime::running_times(
                old(self)@.running_since,
                final(self)@.nodes,
            ),
            forall|other: Seq<char>| #[trigger]
                final(self)@.node(other) == match old(self)@.ended(
                    name@,
                    error::outcome(*result),
                    "Clean"@,
                ).after_refresh(found_in(registered), other) {
                    Some(node) => Some(
                        if other == name@ && *result is Ok {
                            CachedNodeView { is_built: false, ..node }
                        } else {
                            node
                        },
                    ),
                    None => None,
                },
            node_manager::opt_event(r) == final(self)@.event("clean_complete"@, name@, now),
    {
        self.finish_build_activity(name, result, "Clean");
        let _refreshed = self.refresh_all(registered);
        if result.is_ok() {
            let ghost here = self@;
            self.mark_built(name, false);
            proof {
                table::change_is_local(
                    here.nodes,
                    name@,
                    |n: CachedNodeView| CachedNodeView { is_built: false, ..n },
                );
                assert forall|other: Seq<char>| #[trigger]
                    self@.node(other) == match here.node(other) {
                        Some(node) => Some(
                            if other == name@ {
                                CachedNodeView { is_built: false, ..node }
                            } else {
                                node
                            },
                        ),
                        None => None,
                    } by {
                    assert(self@.node(other) == table::node_named(self@.nodes, other));
                }
                assert forall|other: Seq<char>| #[trigger]
                    uptime::runs(self@.nodes, other) == uptime::runs(here.nodes, other) by {
                    assert(self@.node(other) == table::node_named(self@.nodes, other));
                    assert(here.node(other) == table::node_named(here.nodes, other));
                }
                let since = old(self)@.running_since;
                let marked = uptime::running_times(since, self@.nodes);
                let known = uptime::running_times(since, here.nodes);
                assert forall|other: Seq<char>| #[trigger] known.contains_key(other) implies known[
                    other
                ] == marked[other] by {
                    assert(uptime::runs(self@.nodes, other) == uptime::runs(here.nodes, other));
                    assert(self@.node(other) == table::node_named(self@.nodes, other));
                    assert(here.node(other) == table::node_named(here.nodes, other));
                }
                assert(marked =~= known);
            }
        }
        self.emit_event("clean_complete", name, now)
    }
}

// ---- what holds of builds and cleans ---------------------------------------

/// While a build or clean is going on, no other can begin under the same name: its name is
/// among those being built, for which beginning is refused. When it ends, another can begin.
pub proof fn one_activity_at_a_time(
    nodes: NodeManagerView,
    name: Seq<char>,
    status: BuildStatus,
    result: Result<(), NodeManagerErrorView>,
    label: Seq<char>,
)
    requires
        nodes.wf(),
    ensures
        nodes.begun(name, status).building.contains(name),
        !nodes.begun(name, status).ended(name, result, label).building.contains(name),
        forall|later: NodeManagerView|
            later.building.contains(name) ==> #[trigger] later.begin_fault(name) is Some,
        forall|other: Seq<char>|
            other != name ==> (#[trigger] nodes.begun(name, status).building.contains(other)
                == nodes.building.contains(other)),
        forall|other: Seq<char>|
            other != name ==> (#[trigger] nodes.ended(name, result, label).building.contains(other)
                == nodes.building.contains(other)),
{
}

/// A node that is being built or cleaned is shown as building, whatever its service does.
pub proof fn busy_nodes_are_shown_as_building(nodes: NodeManagerView, name: Seq<char>)
    requires
        nodes.wf(),
    ensures
        nodes.node(name) matches Some(node) ==> node.build_state.busy() ==> {
            &&& node.status == NodeStatus::Building
            &&& nodes.report(node).status == NodeStatus::Building.code()
            &&& nodes.building.contains(name)
        },
{
    if exists|i: int| table::is_at(nodes.nodes, i, name) {
        let i = choose|i: int| table::is_at(nodes.nodes, i, name);
        assert(nodes.node(name) == Some(nodes.nodes[i]));
    }
}

/// Beginning and ending a build or clean concerns the node of that name and no other. The node
/// is busy with empty output in between, and idle afterwards with a last line that says how it
/// ended.
pub proof fn activity_is_local(
    nodes: NodeManagerView,
    name: Seq<char>,
    status: BuildStatus,
    result: Result<(), NodeManagerErrorView>,
    label: Seq<char>,
)
    requires
        nodes.wf(),
        status != BuildStatus::Idle,
        nodes.node(name) is Some,
    ensures
        ({
            let begun = nodes.begun(name, status);
            let ended = begun.ended(name, result, label);
            &&& begun.node(name) matches Some(node) && node.build_state.busy()
                && node.build_state.output.len() == 0
            &&& ended.node(name) matches Some(node) && !node.build_state.busy()
                && node.build_state.output == seq![building::closing_line(result, label)]
            &&& forall|other: Seq<char>|
                other != name ==> #[trigger] begun.node(other) == nodes.node(other)
            &&& forall|other: Seq<char>|
                other != name ==> #[trigger] ended.node(other) == nodes.node(other)
        }),
{
    let begun = nodes.begun(name, status);
    let begin = |n: CachedNodeView| n.begun(status);
    let end = |n: CachedNodeView| n.ended(result, label);
    table::change_is_local(nodes.nodes, name, begin);
    table::change_is_local(begun.nodes, name, end);
    let node = begun.node(name)->0;
    assert(node.ended(result, label).build_state.output =~= seq![
        building::closing_line(result, label),
    ]);
    assert forall|other: Seq<char>| other != name implies #[trigger] begun.node(other)
        == nodes.node(other) by {
        assert(begun.node(other) == table::node_named(
            table::with_node(nodes.nodes, name, begin),
            other,
        ));
    }
    let ended = begun.ended(name, result, label);
    assert forall|other: Seq<char>| other != name implies #[trigger] ended.node(other)
        == nodes.node(other) by {
        assert(ended.node(other) == table::node_named(
            table::with_node(begun.nodes, name, end),
            other,
        ));
        assert(begun.node(other) == nodes.node(other));
    }
}

impl CachedNodeView {
    /// The node after its build or clean wrote lines, in turn.
    pub open spec fn wrote_all(self, lines: Seq<Seq<char>>) -> CachedNodeView
        decreases lines.len(),
    {
        if lines.len() == 0 {
            self
        } else {
            self.wrote_all(lines.drop_last()).wrote(lines.last())
        }
    }
}

/// What is shown of a build or clean from its beginning to its end are the last 100 lines that
/// it wrote, in order, and a line that says how it ended. What was shown before is gone.
pub proof fn output_tells_the_activity(
    node: CachedNodeView,
    status: BuildStatus,
    lines: Seq<Seq<char>>,
    result: Result<(), NodeManagerErrorView>,
    label: Seq<char>,
)
    ensures
        node.begun(status).wrote_all(lines).ended(result, label).build_state.output
            == building::last_lines(lines).push(building::closing_line(result, label)),
        node.begun(status).wrote_all(lines).build_state.status == status,
        !node.begun(status).wrote_all(lines).ended(result, label).build_state.busy(),
{
    writing_collects(node.begun(status), lines);
    building::output_keeps_the_last_lines(Seq::empty(), lines);
    assert(Seq::<Seq<char>>::empty() + lines =~= lines);
}

proof fn writing_collects(node: CachedNodeView, lines: Seq<Seq<char>>)
    ensures
        node.wrote_all(lines).build_state.output == building::with_lines(
            node.build_state.output,
            lines,
        ),
        node.wrote_all(lines).build_state.status == node.build_state.status,
    decreases lines.len(),
{
    if lines.len() > 0 {
        writing_collects(node, lines.drop_last());
    }
}

} // verus!
