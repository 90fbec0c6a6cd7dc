//! What holds of the nodes of a machine, whatever is registered, asked for and found out.
use crate::daemon::building;
use crate::daemon::building::BuildPlan;
use crate::daemon::commands;
use crate::daemon::commands::{ActionView, PreparedView, Refresh, Removal};
use crate::daemon::error::{NodeManagerError, NodeManagerErrorView};
use crate::daemon::health;
use crate::daemon::health::ReceiveErrors;
use crate::daemon::node::{BuildStateView, BuildStatus, CachedNodeView};
use crate::daemon::node_manager;
use crate::daemon::node_manager::{
    Machine, NodeManager, NodeManagerView, RegisteredNode, RegisteredNodeView,
};
use crate::daemon::registry::NodeManifestView;
use crate::daemon::signals;
use crate::daemon::systemd;
use crate::daemon::systemd::{ActiveState, SystemdSignalEvent, UnitState};
use crate::daemon::table;
use crate::schemas;
use crate::schemas::{
    CommandResult, CommandType, HealthStatus, NodeCommand, NodeCommandView, NodeEvent, NodeList,
    NodeState, NodeStateView, NodeStatus,
};
use crate::text;
use vstd::prelude::*;
use vstd::string::*;

verus! {

// ---- services --------------------------------------------------------------

/// A node runs exactly if its service is installed and active or about to be, has failed
/// exactly if its installed service failed, is not installed exactly if it has no service, and
/// is stopped in every other case. It starts at login exactly if its service is installed and
/// known to.
pub proof fn services_decide_the_status(unit: UnitState)
    ensures
        unit.status() == NodeStatus::NotInstalled <==> !unit.installed,
        unit.status() == NodeStatus::Running <==> unit.installed && (unit.active_state
            == ActiveState::Active || unit.active_state == ActiveState::Activating),
        unit.status() == NodeStatus::Failed <==> unit.installed && unit.active_state
            == ActiveState::Failed,
        unit.status() == NodeStatus::Stopped <==> unit.installed && unit.active_state
            != ActiveState::Active && unit.active_state != ActiveState::Activating
            && unit.active_state != ActiveState::Failed,
        unit.autostart() <==> unit.installed && unit.enabled == Some(true),
{
}

/// The words of the service manager are read as the states they name; every other word is a
/// state that is not named.
pub proof fn words_name_states(word: Seq<char>)
    ensures
        systemd::state_named(word) == ActiveState::Active <==> word == "active"@,
        systemd::state_named(word) == ActiveState::Inactive <==> word == "inactive"@,
        systemd::state_named(word) == ActiveState::Failed <==> word == "failed"@,
        systemd::state_named(word) == ActiveState::Activating <==> word == "activating"@,
        systemd::state_named(word) == ActiveState::Deactivating <==> word == "deactivating"@,
{
    reveal_strlit("active");
    reveal_strlit("inactive");
    reveal_strlit("failed");
    reveal_strlit("activating");
    reveal_strlit("deactivating");
    assert("active"@[0] != "failed"@[0]);
    assert("active"@.len() == 6 && "failed"@.len() == 6 && "inactive"@.len() == 8);
    assert("activating"@.len() == 10 && "deactivating"@.len() == 12);
}

/// The service of a node bears the node's name, between a prefix and an ending that are the
/// same for all.
pub proof fn services_bear_names(name: Seq<char>)
    ensures
        "bubbaloop-"@.is_prefix_of(systemd::service_of(name)),
        ".service"@.is_suffix_of(systemd::service_of(name)),
        systemd::service_of(name).len() == "bubbaloop-"@.len() + name.len() + ".service"@.len(),
        systemd::service_of(name).subrange(
            "bubbaloop-"@.len() as int,
            ("bubbaloop-"@.len() + name.len()) as int,
        ) == name,
{
    let service = systemd::service_of(name);
    let a = "bubbaloop-"@.len() as int;
    assert("bubbaloop-"@ =~= service.take(a));
    assert(".service"@ =~= service.subrange(
        service.len() - ".service"@.len(),
        service.len() as int,
    ));
    assert(service.subrange(a, a + name.len()) =~= name);
}

// ---- names and reports -----------------------------------------------------

/// A node goes by the name of the instance, if it is one, else by the name in its manifest. One
/// that has neither is `unknown`.
pub proof fn nodes_go_by_their_names(node: CachedNodeView, reg: RegisteredNodeView)
    ensures
        node.name_override is Some ==> node.name() == node.name_override->0,
        node.name_override is None && node.manifest is Some ==> node.name()
            == node.manifest->0.name,
        node.name_override is None && node.manifest is None ==> node.name() == "unknown"@,
        reg.entry.name_override is Some ==> reg.name() == reg.entry.name_override->0,
        reg.entry.name_override is None && reg.manifest is Some ==> reg.name()
            == reg.manifest->0.name,
        reg.entry.name_override is None && reg.manifest is None ==> reg.name() == "unknown"@,
{
}

/// A node is found under a name exactly if it is one of the nodes and goes by that name.
pub proof fn nodes_are_found_by_name(nodes: Seq<CachedNodeView>, name: Seq<char>)
    ensures
        match table::node_named(nodes, name) {
            Some(node) => nodes.contains(node) && node.name() == name,
            None => forall|i: int| 0 <= i < nodes.len() ==> (#[trigger] nodes[i]).name() != name,
        },
{
    if exists|i: int| table::is_at(nodes, i, name) {
        let i = choose|i: int| table::is_at(nodes, i, name);
        assert(nodes.contains(nodes[i]));
    } else {
        assert forall|i: int| 0 <= i < nodes.len() implies (#[trigger] nodes[i]).name()
            != name by {
            assert(!table::is_at(nodes, i, name));
        }
    }
}

/// What is reported of a node is all that is known of it: where it is, what it is doing, what
/// its service, its program and its heartbeats are like, what its last build wrote, how it
/// describes itself, and which machine it is on. What is no node is not reported.
pub proof fn reports_tell_what_is_known(nodes: NodeManagerView, name: Seq<char>)
    ensures
        nodes.state_of(name) is Some <==> nodes.node(name) is Some,
        nodes.state_of(name) matches Some(state) ==> {
            let node = nodes.node(name)->0;
            &&& state.name == node.name()
            &&& state.path == node.path
            &&& state.status == node.status.code()
            &&& state.installed == node.installed
            &&& state.autostart_enabled == node.autostart_enabled
            &&& state.is_built == node.is_built
            &&& state.last_updated_ms == node.last_updated_ms
            &&& state.build_output == node.build_state.output
            &&& state.health_status == node.health_status.code()
            &&& state.last_health_check_ms == node.last_health_check_ms
            &&& state.machine_id == nodes.machine.id
            &&& state.machine_hostname == nodes.machine.hostname
            &&& state.machine_ips == nodes.machine.ips
            &&& node.manifest is Some ==> state.version == node.manifest->0.version
                && state.description == node.manifest->0.description && state.node_type
                == node.manifest->0.node_type
            &&& node.manifest is None ==> state.version == "0.0.0"@ && state.description.len() == 0
                && state.node_type == "unknown"@
            &&& node.name_override is Some && node.manifest is Some ==> state.base_node
                == node.manifest->0.name
            &&& node.name_override is None || node.manifest is None ==> state.base_node.len() == 0
            &&& node.config_override is Some ==> state.config_override == node.config_override->0
            &&& node.config_override is None ==> state.config_override.len() == 0
        },
{
}

// ---- the registry ----------------------------------------------------------

proof fn readable_counts(regs: Seq<RegisteredNodeView>)
    ensures
        node_manager::readable(regs) <= regs.len(),
        forall|j: int|
            0 <= j < node_manager::readable(regs) ==> (#[trigger] regs[j]).unit is Ok,
        node_manager::readable(regs) < regs.len() ==> regs[node_manager::readable(
            regs,
        ) as int].unit is Err,
    decreases regs.len(),
{
    if regs.len() > 0 {
        let shorter = regs.drop_last();
        readable_counts(shorter);
        assert(forall|j: int| 0 <= j < shorter.len() ==> #[trigger] regs[j] == shorter[j]);
        assert(regs.last() == regs[regs.len() - 1]);
    }
}

proof fn last_entry_at(regs: Seq<RegisteredNodeView>, i: int, name: Seq<char>)
    requires
        0 <= i < regs.len(),
        regs[i].name() == name,
        forall|j: int| i < j < regs.len() ==> (#[trigger] regs[j]).name() != name,
    ensures
        node_manager::last_entry(regs, name) == Some(regs[i]),
    decreases regs.len(),
{
    if i < regs.len() - 1 {
        let shorter = regs.drop_last();
        assert(regs[regs.len() - 1].name() != name);
        assert forall|j: int| i < j < shorter.len() implies (#[trigger] shorter[j]).name()
            != name by {
            assert(shorter[j] == regs[j]);
        }
        last_entry_at(shorter, i, name);
    }
}

proof fn no_entry(regs: Seq<RegisteredNodeView>, name: Seq<char>)
    requires
        forall|j: int| 0 <= j < regs.len() ==> (#[trigger] regs[j]).name() != name,
    ensures
        node_manager::last_entry(regs, name) is None,
    decreases regs.len(),
{
    if regs.len() > 0 {
        let shorter = regs.drop_last();
        assert(regs[regs.len() - 1].name() != name);
        assert forall|j: int| 0 <= j < shorter.len() implies (#[trigger] shorter[j]).name()
            != name by {
            assert(shorter[j] == regs[j]);
        }
        no_entry(shorter, name);
    }
}

/// The registry is taken in up to the first entry whose service could not be asked about:
/// entirely if there is none.
pub proof fn entries_are_taken_in_until_one_fails(regs: Seq<RegisteredNodeView>, n: int)
    requires
        0 <= n <= regs.len(),
        forall|j: int| 0 <= j < n ==> (#[trigger] regs[j]).unit is Ok,
        n < regs.len() ==> regs[n].unit is Err,
    ensures
        node_manager::readable(regs) == n,
{
    readable_counts(regs);
    let m = node_manager::readable(regs) as int;
    if m < n {
        assert(regs[m].unit is Ok);
    } else if n < m {
        assert(regs[n].unit is Ok);
    }
}

/// A registered node is shown as it was found when the registry was taken in. The first `n`
/// entries could be read, and the one at `i` is the last of them with its name. While no build
/// or clean of it goes on, it runs only if its service is installed and active or about to be,
/// has failed if its service failed, is stopped if its service is otherwise, and is not
/// installed without one; while one goes on, it is shown as building. How its build goes and
/// what its heartbeats said stays as it was, and a node that was not there before has no build
/// going on, no output and no heartbeat.
pub proof fn registered_nodes_are_shown_as_found(
    before: Seq<CachedNodeView>,
    regs: Seq<RegisteredNodeView>,
    after: Seq<CachedNodeView>,
    n: int,
    i: int,
)
    requires
        node_manager::refreshed(before, regs, after),
        0 <= i < n <= regs.len(),
        forall|j: int| 0 <= j < n ==> (#[trigger] regs[j]).unit is Ok,
        n < regs.len() ==> regs[n].unit is Err,
        forall|j: int| i < j < n ==> (#[trigger] regs[j]).name() != regs[i].name(),
    ensures
        table::node_named(after, regs[i].name()) is Some,
        ({
            let reg = regs[i];
            let unit = reg.unit->Ok_0;
            let node = table::node_named(after, reg.name())->0;
            let known = table::node_named(before, reg.name());
            &&& node.name() == reg.name()
            &&& node.path == reg.entry.path
            &&& node.manifest == reg.manifest
            &&& node.name_override == reg.entry.name_override
            &&& node.config_override == reg.entry.config_override
            &&& node.last_updated_ms == reg.read_at_ms
            &&& node.installed == unit.installed
            &&& node.autostart_enabled == (unit.installed && unit.enabled == Some(true))
            &&& node.is_built == (reg.manifest is Some && reg.is_built)
            &&& known is Some ==> node.build_state == known->0.build_state && node.health_status
                == known->0.health_status && node.last_health_check_ms
                == known->0.last_health_check_ms
            &&& known is None ==> node.build_state.status == BuildStatus::Idle
                && node.build_state.output.len() == 0 && node.health_status
                == HealthStatus::Unknown && node.last_health_check_ms == 0
            &&& node.build_state.status != BuildStatus::Idle ==> node.status
                == NodeStatus::Building
            &&& node.build_state.status == BuildStatus::Idle ==> {
                &&& !unit.installed ==> node.status == NodeStatus::NotInstalled
                &&& unit.installed ==> match unit.active_state {
                    ActiveState::Active => node.status == NodeStatus::Running,
                    ActiveState::Activating => node.status == NodeStatus::Running,
                    ActiveState::Failed => node.status == NodeStatus::Failed,
                    ActiveState::Inactive => node.status == NodeStatus::Stopped,
                    ActiveState::Deactivating => node.status == NodeStatus::Stopped,
                    ActiveState::Other => node.status == NodeStatus::Stopped,
                }
            }
        }),
{
    entries_are_taken_in_until_one_fails(regs, n);
    let taken = regs.take(n);
    let name = regs[i].name();
    assert forall|j: int| i < j < taken.len() implies (#[trigger] taken[j]).name() != name by {
        assert(taken[j] == regs[j]);
    }
    last_entry_at(taken, i, name);
    assert(table::node_named(after, name) == node_manager::renewed(
        before,
        taken,
        n == regs.len(),
        name,
    ));
    assert(regs[i].unit is Ok);
    nodes_are_found_by_name(after, name);
}

/// What the registry does not name is forgotten when the whole registry was taken in, and stays
/// as it was when only a part of it could be.
pub proof fn unregistered_nodes_are_forgotten(
    before: Seq<CachedNodeView>,
    regs: Seq<RegisteredNodeView>,
    after: Seq<CachedNodeView>,
    n: int,
    name: Seq<char>,
)
    requires
        node_manager::refreshed(before, regs, after),
        0 <= n <= regs.len(),
        forall|j: int| 0 <= j < n ==> (#[trigger] regs[j]).unit is Ok,
        n < regs.len() ==> regs[n].unit is Err,
        forall|j: int| 0 <= j < n ==> (#[trigger] regs[j]).name() != name,
    ensures
        n == regs.len() ==> table::node_named(after, name) is None,
        n < regs.len() ==> table::node_named(after, name) == table::node_named(before, name),
{
    entries_are_taken_in_until_one_fails(regs, n);
    let taken = regs.take(n);
    assert forall|j: int| 0 <= j < taken.len() implies (#[trigger] taken[j]).name() != name by {
        assert(taken[j] == regs[j]);
    }
    no_entry(taken, name);
    assert(table::node_named(after, name) == node_manager::renewed(
        before,
        taken,
        n == regs.len(),
        name,
    ));
}

/// Asking about the service of one node shows that node as it was found, and no other node
/// differently. Its build, its program, its heartbeats and what it says of itself stay as they
/// were, and so does what is going on elsewhere.
pub proof fn asked_services_are_shown(
    nodes: NodeManagerView,
    name: Seq<char>,
    unit: UnitState,
    now: i64,
)
    requires
        nodes.wf(),
    ensures
        ({
            let after = nodes.with_node(
                name,
                |n: CachedNodeView| n.observed(unit, now),
            ).settled();
            &&& after.building == nodes.building
            &&& after.machine == nodes.machine
            &&& forall|other: Seq<char>|
                other != name ==> #[trigger] after.node(other) == nodes.node(other)
            &&& after.node(name) is Some <==> nodes.node(name) is Some
            &&& nodes.node(name) matches Some(known) ==> {
                let node = after.node(name)->0;
                &&& node == (CachedNodeView {
                    status: node.status,
                    installed: unit.installed,
                    autostart_enabled: unit.installed && unit.enabled == Some(true),
                    last_updated_ms: now,
                    ..known
                })
                &&& known.build_state.status != BuildStatus::Idle ==> node.status
                    == NodeStatus::Building
                &&& known.build_state.status == BuildStatus::Idle ==> {
                    &&& node.status == NodeStatus::NotInstalled <==> !unit.installed
                    &&& node.status == NodeStatus::Running <==> unit.installed && (
                    unit.active_state == ActiveState::Active || unit.active_state
                        == ActiveState::Activating)
                    &&& node.status == NodeStatus::Failed <==> unit.installed
                        && unit.active_state == ActiveState::Failed
                    &&& node.status == NodeStatus::Stopped || node.status
                        == NodeStatus::NotInstalled || node.status == NodeStatus::Running
                        || node.status == NodeStatus::Failed
                }
            }
        }),
{
    let change = |n: CachedNodeView| n.observed(unit, now);
    table::change_is_local(nodes.nodes, name, change);
    let after = nodes.with_node(name, change).settled();
    assert forall|other: Seq<char>| other != name implies #[trigger] after.node(other)
        == nodes.node(other) by {
        assert(after.node(other) == table::node_named(
            table::with_node(nodes.nodes, name, change),
            other,
        ));
    }
    assert(after.node(name) == table::node_named(
        table::with_node(nodes.nodes, name, change),
        name,
    ));
}

// ---- heartbeats ------------------------------------------------------------

/// A key is that of a node's heartbeat exactly if it is `bubbaloop/nodes/{name}/health` or
/// `bubbaloop/{scope}/{machine}/health/{name}`, whatever follows; it then names that node.
pub proof fn heartbeat_keys_name_nodes(parts: Seq<Seq<char>>)
    ensures
        match health::node_in_key(parts) {
            Some(name) => {
                &&& parts.len() >= 4
                &&& parts[0] == "bubbaloop"@
                &&& parts[3] == "health"@
                &&& parts[1] == "nodes"@ ==> name == parts[2]
                &&& parts[1] != "nodes"@ ==> parts.len() >= 5 && name == parts[4]
            },
            None => {
                ||| parts.len() < 4
                ||| parts[0] != "bubbaloop"@
                ||| parts[3] != "health"@
                ||| parts[1] != "nodes"@ && parts.len() < 5
            },
        },
{
}

/// A heartbeat makes the node that its key names healthy from then on, and changes nothing
/// else of it and nothing of other nodes. One whose key names no node changes nothing.
pub proof fn heartbeats_are_noted(nodes: NodeManagerView, key: Seq<char>, now: i64)
    requires
        nodes.wf(),
    ensures
        ({
            let after = nodes.heard(key, now);
            &&& after.building == nodes.building
            &&& after.running_since == nodes.running_since
            &&& after.machine == nodes.machine
            &&& match health::node_in_key(text::split_at(key, '/')) {
                None => after == nodes,
                Some(name) => {
                    &&& after.node(name) is Some <==> nodes.node(name) is Some
                    &&& nodes.node(name) matches Some(known) ==> after.node(name) == Some(
                        CachedNodeView {
                            health_status: HealthStatus::Healthy,
                            last_health_check_ms: now,
                            ..known
                        },
                    )
                    &&& forall|other: Seq<char>|
                        other != name ==> #[trigger] after.node(other) == nodes.node(other)
                },
            }
        }),
{
    if let Some(name) = health::node_in_key(text::split_at(key, '/')) {
        let change = |n: CachedNodeView| n.heard(now);
        let after = nodes.heard(key, now);
        table::change_is_local(nodes.nodes, name, change);
        assert(after.nodes == table::with_node(nodes.nodes, name, change));
        assert forall|other: Seq<char>| #[trigger]
            after.node(other) == match nodes.node(other) {
                Some(n) => Some(
                    if other == name {
                        change(n)
                    } else {
                        n
                    },
                ),
                None => None,
            } by {
            assert(after.node(other) == table::node_named(
                table::with_node(nodes.nodes, name, change),
                other,
            ));
        }
    }
}

/// When heartbeats are judged, a running node is unhealthy if it was not heard for more than
/// 30 seconds or, never having been heard, has been running for more than 30 seconds; otherwise
/// its health stays as it was. Of a node that does not run nothing is known, and its heartbeats
/// are forgotten. Nothing else changes.
pub proof fn heartbeats_decide_the_health(nodes: NodeManagerView, now: i64, name: Seq<char>)
    requires
        nodes.wf(),
    ensures
        ({
            let after = nodes.judged(now);
            &&& after.building == nodes.building
            &&& after.running_since == nodes.running_since
            &&& after.machine == nodes.machine
            &&& after.nodes.len() == nodes.nodes.len()
            &&& after.node(name) is Some <==> nodes.node(name) is Some
            &&& nodes.node(name) matches Some(known) ==> {
                let node = after.node(name)->0;
                let last = known.last_health_check_ms;
                let silent = if last > 0 {
                    now - last > 30_000
                } else {
                    now - nodes.running_since[name] > 30_000
                };
                &&& node == (CachedNodeView {
                    health_status: node.health_status,
                    last_health_check_ms: node.last_health_check_ms,
                    ..known
                })
                &&& known.status != NodeStatus::Running ==> node.health_status
                    == HealthStatus::Unknown && node.last_health_check_ms == 0
                &&& known.status == NodeStatus::Running ==> node.last_health_check_ms == last
                    && node.health_status == if silent {
                    HealthStatus::Unhealthy
                } else {
                    known.health_status
                }
            }
        }),
{
    nodes.judging_keeps_names(now);
    assert(nodes.judged(now).node(name) == match nodes.node(name) {
        Some(n) => Some(n.judged(nodes.since(name), now)),
        None => None,
    });
    assert(nodes.running_since.contains_key(name) <==> crate::daemon::uptime::runs(
        nodes.nodes,
        name,
    ));
}

/// Told of are exactly the nodes that were not unhealthy before and are now, in the order of
/// the nodes.
pub proof fn newly_unhealthy_nodes_are_told(
    before: Seq<CachedNodeView>,
    after: Seq<CachedNodeView>,
)
    requires
        before.len() == after.len(),
    ensures
        node_manager::newly_unhealthy(before, after) == before.zip_with(after).filter_map(
            |pair: (CachedNodeView, CachedNodeView)|
                if pair.0.health_status != HealthStatus::Unhealthy && pair.1.health_status
                    == HealthStatus::Unhealthy {
                    Some(pair.1.name())
                } else {
                    None
                },
        ),
{
    let pick = |pair: (CachedNodeView, CachedNodeView)|
        if pair.0.health_status != HealthStatus::Unhealthy && pair.1.health_status
            == HealthStatus::Unhealthy {
            Some(pair.1.name())
        } else {
            None
        };
    unhealthy_are_selected(before, after, pick);
}

proof fn unhealthy_are_selected(
    before: Seq<CachedNodeView>,
    after: Seq<CachedNodeView>,
    pick: spec_fn((CachedNodeView, CachedNodeView)) -> Option<Seq<char>>,
)
    requires
        before.len() == after.len(),
        forall|pair: (CachedNodeView, CachedNodeView)| #[trigger]
            pick(pair) == if pair.0.health_status != HealthStatus::Unhealthy
                && pair.1.health_status == HealthStatus::Unhealthy {
                Some(pair.1.name())
            } else {
                None
            },
    ensures
        node_manager::newly_unhealthy(before, after) == before.zip_with(after).filter_map(pick),
    decreases after.len(),
{
    let pairs = before.zip_with(after);
    if after.len() > 0 {
        unhealthy_are_selected(before.drop_last(), after.drop_last(), pick);
        assert(pairs.drop_last() =~= before.drop_last().zip_with(after.drop_last()));
        assert(pairs.last() == (before.last(), after.last()));
        assert(node_manager::newly_unhealthy(before, after) =~= pairs.filter_map(pick));
    }
}

// ---- build commands --------------------------------------------------------

/// The characters that the shell would act on are dangerous, and no other is.
pub proof fn dangerous_characters_are_these(c: char)
    ensures
        building::dangerous(c) <==> "$`|;&><(){}!\\\n\r"@.contains(c),
        "$`|;&><(){}!\\\n\r"@.len() == 15,
{
    reveal_strlit("$`|;&><(){}!\\\n\r");
    let all = "$`|;&><(){}!\\\n\r"@;
    assert(all[0] == '$' && all[1] == '`' && all[2] == '|' && all[3] == ';' && all[4] == '&');
    assert(all[5] == '>' && all[6] == '<' && all[7] == '(' && all[8] == ')' && all[9] == '{');
    assert(all[10] == '}' && all[11] == '!' && all[12] == '\\' && all[13] == '\n');
    assert(all[14] == '\r');
    if building::dangerous(c) {
        assert(exists|i: int| 0 <= i < all.len() && #[trigger] all[i] == c);
    }
}

/// The tools that a command may call.
pub open spec fn tools() -> Seq<Seq<char>> {
    seq!["cargo"@, "pixi"@, "npm"@, "make"@, "python"@, "pip"@]
}

proof fn tools_end_with_spaces()
    ensures
        "cargo"@ + " "@ == "cargo "@,
        "pixi"@ + " "@ == "pixi "@,
        "npm"@ + " "@ == "npm "@,
        "make"@ + " "@ == "make "@,
        "python"@ + " "@ == "python "@,
        "pip"@ + " "@ == "pip "@,
        tools().contains("cargo"@),
        tools().contains("pixi"@),
        tools().contains("npm"@),
        tools().contains("make"@),
        tools().contains("python"@),
        tools().contains("pip"@),
{
    reveal_strlit(" ");
    reveal_strlit("cargo");
    reveal_strlit("pixi");
    reveal_strlit("npm");
    reveal_strlit("make");
    reveal_strlit("python");
    reveal_strlit("pip");
    reveal_strlit("cargo ");
    reveal_strlit("pixi ");
    reveal_strlit("npm ");
    reveal_strlit("make ");
    reveal_strlit("python ");
    reveal_strlit("pip ");
    assert("cargo"@ + " "@ =~= "cargo "@);
    assert("pixi"@ + " "@ =~= "pixi "@);
    assert("npm"@ + " "@ =~= "npm "@);
    assert("make"@ + " "@ =~= "make "@);
    assert("python"@ + " "@ =~= "python "@);
    assert("pip"@ + " "@ =~= "pip "@);
    assert(tools()[0] == "cargo"@ && tools()[1] == "pixi"@ && tools()[2] == "npm"@);
    assert(tools()[3] == "make"@ && tools()[4] == "python"@ && tools()[5] == "pip"@);
}

/// A command may run exactly if its lower case form begins with the name of one of six tools
/// and a space, and it holds none of the dangerous characters.
pub proof fn commands_may_run_exactly_if(cmd: Seq<char>, lowered: Seq<char>)
    ensures
        seq!["cargo"@, "pixi"@, "npm"@, "make"@, "python"@, "pip"@] == tools(),
        building::command_fault(cmd, lowered) is None <==> {
            &&& exists|tool: Seq<char>| #[trigger]
                tools().contains(tool) && (tool + " "@).is_prefix_of(lowered)
            &&& forall|i: int|
                0 <= i < cmd.len() ==> !"$`|;&><(){}!\\\n\r"@.contains(#[trigger] cmd[i])
        },
        building::harmless(cmd) <==> forall|i: int|
            0 <= i < cmd.len() ==> !"$`|;&><(){}!\\\n\r"@.contains(#[trigger] cmd[i]),
        building::calls_permitted_tool(cmd) <==> exists|tool: Seq<char>| #[trigger]
            tools().contains(tool) && tool.len() < cmd.len() && text::ascii_lowered(
                cmd.take(tool.len() as int + 1),
            ) == tool + " "@,
{
    reveal_strlit(" ");
    tools_end_with_spaces();
    building::runnable_commands_are_harmless(cmd, lowered);
    assert forall|c: char| #[trigger]
        building::dangerous(c) <==> "$`|;&><(){}!\\\n\r"@.contains(c) by {
        dangerous_characters_are_these(c);
    }
    if exists|tool: Seq<char>| #[trigger]
        tools().contains(tool) && (tool + " "@).is_prefix_of(lowered) {
        let tool = choose|tool: Seq<char>| #[trigger]
            tools().contains(tool) && (tool + " "@).is_prefix_of(lowered);
        let i = choose|i: int| 0 <= i < tools().len() && tools()[i] == tool;
        assert(building::permitted_tool(lowered));
    }
    if building::permitted_tool(lowered) {
        assert(tools().contains("cargo"@) && tools().contains("pip"@));
    }
    if building::calls_permitted_tool(cmd) {
        assert(("cargo"@ + " "@).len() == "cargo"@.len() + 1);
        assert(("pixi"@ + " "@).len() == "pixi"@.len() + 1);
        assert(("npm"@ + " "@).len() == "npm"@.len() + 1);
        assert(("make"@ + " "@).len() == "make"@.len() + 1);
        assert(("python"@ + " "@).len() == "python"@.len() + 1);
        assert(("pip"@ + " "@).len() == "pip"@.len() + 1);
    }
    if exists|tool: Seq<char>| #[trigger]
        tools().contains(tool) && tool.len() < cmd.len() && text::ascii_lowered(
            cmd.take(tool.len() as int + 1),
        ) == tool + " "@ {
        let tool = choose|tool: Seq<char>| #[trigger]
            tools().contains(tool) && tool.len() < cmd.len() && text::ascii_lowered(
                cmd.take(tool.len() as int + 1),
            ) == tool + " "@;
        let i = choose|i: int| 0 <= i < tools().len() && tools()[i] == tool;
        assert((tool + " "@).len() == tool.len() + 1);
        assert(building::calls_permitted_tool(cmd));
    }
}

/// A command that calls a permitted tool and otherwise holds only letters, digits, spaces and
/// what paths and options are made of may run.
pub proof fn plain_commands_may_run(tool: Seq<char>, rest: Seq<char>, lowered: Seq<char>)
    requires
        tools().contains(tool),
        forall|i: int|
            0 <= i < rest.len() ==> ({
                let c = #[trigger] rest[i];
                ||| 'a' <= c <= 'z'
                ||| 'A' <= c <= 'Z'
                ||| '0' <= c <= '9'
                ||| " ./-_=:"@.contains(c)
            }),
        (tool + " "@).is_prefix_of(lowered),
    ensures
        building::calls_permitted_tool(tool + " "@ + rest),
        building::harmless(tool + " "@ + rest),
        building::command_fault(tool + " "@ + rest, lowered) is None,
{
    reveal_strlit("cargo");
    reveal_strlit("pixi");
    reveal_strlit("npm");
    reveal_strlit("make");
    reveal_strlit("python");
    reveal_strlit("pip");
    reveal_strlit(" ");
    reveal_strlit(" ./-_=:");
    let cmd = tool + " "@ + rest;
    let start = tool + " "@;
    let k = choose|k: int| 0 <= k < tools().len() && tools()[k] == tool;
    assert(forall|i: int| 0 <= i < tool.len() ==> 'a' <= #[trigger] tool[i] <= 'z');
    assert forall|i: int| 0 <= i < cmd.len() implies !building::dangerous(#[trigger] cmd[i]) by {
        if i < tool.len() {
            assert(cmd[i] == tool[i]);
        } else if i > tool.len() {
            assert(cmd[i] == rest[i - tool.len() - 1]);
        }
    }
    commands_may_run_exactly_if(cmd, lowered);
    assert(text::ascii_lowered(cmd.take(tool.len() as int + 1)) =~= start) by {
        assert forall|i: int| 0 <= i < start.len() implies text::ascii_lower(cmd[i])
            == start[i] by {
            if i < tool.len() {
                assert(cmd[i] == tool[i]);
            }
        }
    }
}

/// A refused command is told why: that it calls no permitted tool, or which dangerous character
/// it holds first, together with its first 50 characters.
pub proof fn refusals_tell_why(cmd: Seq<char>, lowered: Seq<char>)
    requires
        building::command_fault(cmd, lowered) is Some,
    ensures
        ({
            let shown = cmd.take(
                if cmd.len() < 50 {
                    cmd.len() as int
                } else {
                    50
                },
            );
            let fault = building::command_fault(cmd, lowered)->0;
            if exists|tool: Seq<char>| #[trigger]
                tools().contains(tool) && (tool + " "@).is_prefix_of(lowered) {
                exists|i: int|
                    {
                        &&& 0 <= i < cmd.len()
                        &&& building::dangerous(#[trigger] cmd[i])
                        &&& forall|j: int| 0 <= j < i ==> !building::dangerous(#[trigger] cmd[j])
                        &&& fault == "Build command contains dangerous character '"@ + seq![cmd[i]]
                            + "': "@ + shown
                    }
            } else {
                fault
                    == "Build command must start with one of: cargo, pixi, npm, make, python, pip. Got: "@
                    + shown
            }
        }),
{
    building::first_dangerous_is_first(cmd);
    commands_may_run_exactly_if(Seq::empty(), lowered);
    building::first_dangerous_is_first(Seq::empty());
    assert(cmd.take(cmd.len() as int) =~= cmd);
    let some = exists|tool: Seq<char>| #[trigger]
        tools().contains(tool) && (tool + " "@).is_prefix_of(lowered);
    assert(some <==> building::command_fault(Seq::empty(), lowered) is None);
    assert(some <==> building::permitted_tool(lowered));
    if some {
        let c = building::first_dangerous(cmd)->0;
        let i = choose|i: int|
            0 <= i < cmd.len() && #[trigger] cmd[i] == c && forall|j: int|
                0 <= j < i ==> !building::dangerous(#[trigger] cmd[j]);
        assert("Build command contains dangerous character '"@.push(c)
            =~= "Build command contains dangerous character '"@ + seq![cmd[i]]);
    }
}

/// Build commands find the user's own tools before those of the system.
pub proof fn own_tools_come_first(home: Seq<char>)
    requires
        home.len() > 0,
        home.last() != '/',
    ensures
        building::search_path(Some(home)) == home + "/.cargo/bin:"@ + home
            + "/.pixi/bin:/usr/local/bin:/usr/bin:/bin"@,
        building::search_path(None) == building::search_path(Some("/home/user"@)),
{
    reveal_strlit("/");
    reveal_strlit(":");
    reveal_strlit(".cargo/bin");
    reveal_strlit("/.cargo/bin:");
    reveal_strlit(".pixi/bin");
    reveal_strlit(":/usr/local/bin:/usr/bin:/bin");
    reveal_strlit("/.pixi/bin:/usr/local/bin:/usr/bin:/bin");
    assert(building::search_path(Some(home)) =~= home + "/.cargo/bin:"@ + home
        + "/.pixi/bin:/usr/local/bin:/usr/bin:/bin"@);
}

/// A path below a directory is the directory and the rest, with one slash between them.
pub proof fn paths_lie_below_directories(dir: Seq<char>, rest: Seq<char>)
    requires
        dir.len() > 0,
        dir.last() != '/',
    ensures
        building::path_below(dir, rest) == dir.push('/') + rest,
        building::path_below(dir.push('/'), rest) == dir.push('/') + rest,
        building::path_below(Seq::empty(), rest) == rest,
{
    reveal_strlit("/");
    assert(building::path_below(dir, rest) =~= dir.push('/') + rest);
}

// ---- builds and cleans -----------------------------------------------------

/// A build or clean begins only for a node, and only if none goes on under its name; a build
/// only if the node says how it is built. What is refused is told by name.
pub proof fn beginnings_are_refused_exactly_if(nodes: NodeManagerView, name: Seq<char>)
    ensures
        nodes.begin_fault(name) is None <==> nodes.node(name) is Some && !nodes.building.contains(
            name,
        ),
        nodes.node(name) is None ==> nodes.begin_fault(name) == Some(
            NodeManagerErrorView::NodeNotFound(name),
        ) && nodes.build_fault(name) == nodes.begin_fault(name),
        nodes.node(name) is Some && nodes.building.contains(name) ==> nodes.begin_fault(name)
            == Some(NodeManagerErrorView::AlreadyBuilding(name)) && nodes.build_fault(name)
            == nodes.begin_fault(name),
        nodes.node(name) matches Some(node) ==> {
            let command = if node.manifest is Some {
                node.manifest->0.build
            } else {
                None
            };
            &&& command is Some ==> nodes.build_command(name) == Ok::<_, NodeManagerErrorView>(
                command->0,
            )
            &&& command is None ==> nodes.build_command(name) == Err::<Seq<char>, _>(
                NodeManagerErrorView::BuildError("No build command defined"@),
            )
            &&& !nodes.building.contains(name) ==> (nodes.build_fault(name) is None <==> command
                is Some)
            &&& nodes.path_of(name) == Ok::<_, NodeManagerErrorView>(node.path)
        },
        nodes.node(name) is None ==> nodes.path_of(name) == Err::<Seq<char>, _>(
            NodeManagerErrorView::NodeNotFound(name),
        ) && nodes.build_command(name) == Err::<Seq<char>, _>(
            NodeManagerErrorView::NodeNotFound(name),
        ),
{
}

/// While a build or clean goes on its node is shown as building, with what it wrote so far and
/// nothing older. When it ends the node is idle again, and a last line tells how it ended. All
/// else that is known of the node stays as it was.
pub proof fn activities_are_shown(
    node: CachedNodeView,
    status: BuildStatus,
    line: Seq<char>,
    result: Result<(), NodeManagerErrorView>,
    label: Seq<char>,
)
    ensures
        node.begun(status) == (CachedNodeView {
            status: NodeStatus::Building,
            build_state: BuildStateView { status, output: Seq::empty() },
            ..node
        }),
        node.wrote(line) == (CachedNodeView {
            build_state: BuildStateView {
                status: node.build_state.status,
                output: node.wrote(line).build_state.output,
            },
            ..node
        }),
        node.build_state.output.len() < 100 ==> node.wrote(line).build_state.output
            == node.build_state.output.push(line),
        node.build_state.output.len() == 100 ==> node.wrote(line).build_state.output
            == node.build_state.output.skip(1).push(line),
        node.ended(result, label) == (CachedNodeView {
            build_state: BuildStateView {
                status: BuildStatus::Idle,
                output: node.build_state.output.push(
                    node.ended(result, label).build_state.output.last(),
                ),
            },
            ..node
        }),
        result is Ok ==> node.ended(result, label).build_state.output.last() == "--- "@ + label
            + " completed successfully ---"@,
        result matches Err(e) && e is BuildTimeout ==> node.ended(
            result,
            label,
        ).build_state.output.last() == "--- "@ + label + " timed out ---"@,
        result matches Err(e) && !(e is BuildTimeout) ==> node.ended(
            result,
            label,
        ).build_state.output.last() == "--- "@ + label + " failed: "@ + (result->Err_0).text()
            + " ---"@,
{
    let output = node.build_state.output;
    if output.len() == 100 {
        assert(output.push(line).skip(1) =~= output.skip(1).push(line));
    }
    let closing = building::closing_line(result, label);
    assert(output.push(closing).last() == closing);
}

/// Of all that a build or clean writes the last 100 lines are kept, in order, and everything
/// where there are no more.
pub proof fn the_last_lines_are_kept(lines: Seq<Seq<char>>)
    ensures
        building::with_lines(Seq::empty(), lines).is_suffix_of(lines),
        building::with_lines(Seq::empty(), lines).len() == if lines.len() > 100 {
            100
        } else {
            lines.len()
        },
{
    building::output_keeps_the_last_lines(Seq::empty(), lines);
    assert(Seq::<Seq<char>>::empty() + lines =~= lines);
    let kept = building::last_lines(lines);
    assert(kept =~= lines.subrange(lines.len() - kept.len(), lines.len() as int));
}

/// How a build ended is told by one of three events: that it is complete exactly if it
/// succeeded, that it timed out exactly if it did, else that it failed.
pub proof fn build_ends_are_told_apart(result: Result<(), NodeManagerErrorView>)
    ensures
        building::build_event_of(result) == "build_complete"@ <==> result is Ok,
        building::build_event_of(result) == "build_timeout"@ <==> result is Err && result->Err_0
            is BuildTimeout,
        building::build_event_of(result) == "build_failed"@ <==> result is Err && !(result->Err_0
            is BuildTimeout),
{
    reveal_strlit("build_complete");
    reveal_strlit("build_timeout");
    reveal_strlit("build_failed");
    assert("build_complete"@.len() == 14 && "build_timeout"@.len() == 13);
    assert("build_failed"@.len() == 12);
}

/// A build that ended leaves its name free and its node idle; it leaves a program behind if it
/// succeeded, and no less than was there before if it failed. Other nodes are not concerned.
pub proof fn ended_builds_leave_programs(
    nodes: NodeManagerView,
    name: Seq<char>,
    result: Result<(), NodeManagerErrorView>,
)
    requires
        nodes.wf(),
    ensures
        ({
            let after = nodes.built(name, result);
            &&& after.building == nodes.building.remove(name)
            &&& after.machine == nodes.machine
            &&& forall|other: Seq<char>|
                other != name ==> #[trigger] after.node(other) == nodes.node(other)
            &&& after.node(name) is Some <==> nodes.node(name) is Some
            &&& nodes.node(name) matches Some(known) ==> {
                let node = after.node(name)->0;
                &&& node.build_state.status == BuildStatus::Idle
                &&& node.is_built == (result is Ok || known.is_built)
                &&& node == (CachedNodeView {
                    is_built: node.is_built,
                    ..known.ended(result, "Build"@)
                })
            }
        }),
{
    let end = |n: CachedNodeView| n.ended(result, "Build"@);
    let mark = |n: CachedNodeView| CachedNodeView { is_built: true, ..n };
    let ended = nodes.ended(name, result, "Build"@);
    table::change_is_local(nodes.nodes, name, end);
    assert(ended.nodes == table::with_node(nodes.nodes, name, end));
    assert forall|other: Seq<char>| #[trigger]
        ended.node(other) == match nodes.node(other) {
            Some(n) => Some(
                if other == name {
                    end(n)
                } else {
                    n
                },
            ),
            None => None,
        } by {
        assert(ended.node(other) == table::node_named(
            table::with_node(nodes.nodes, name, end),
            other,
        ));
    }
    let after = nodes.built(name, result);
    if result is Ok {
        table::change_is_local(ended.nodes, name, mark);
        assert(after.nodes == table::with_node(ended.nodes, name, mark));
        assert forall|other: Seq<char>| #[trigger]
            after.node(other) == match ended.node(other) {
                Some(n) => Some(
                    if other == name {
                        mark(n)
                    } else {
                        n
                    },
                ),
                None => None,
            } by {
            assert(after.node(other) == table::node_named(
                table::with_node(ended.nodes, name, mark),
                other,
            ));
        }
    } else {
        assert(after == ended);
    }
    assert forall|other: Seq<char>| other != name implies #[trigger] after.node(other)
        == nodes.node(other) by {
        assert(ended.node(other) == nodes.node(other));
    }
    assert(ended.node(name) is Some <==> nodes.node(name) is Some);
}

/// After a build or clean the registry is taken in like at any other time; if it cannot be
/// read, everything stays as it is.
pub proof fn ended_activities_take_in_the_registry(
    nodes: NodeManagerView,
    regs: Seq<RegisteredNodeView>,
    after: Seq<CachedNodeView>,
    name: Seq<char>,
)
    requires
        node_manager::refreshed(nodes.nodes, regs, after),
    ensures
        nodes.after_refresh(Some(regs), name) == table::node_named(after, name),
        nodes.after_refresh(None, name) == nodes.node(name),
{
}

// ---- commands --------------------------------------------------------------

proof fn numbers_name_commands(cmd: NodeCommandView)
    ensures
        commands::type_of_code(0) == CommandType::Start,
        commands::type_of_code(1) == CommandType::Stop,
        commands::type_of_code(2) == CommandType::Restart,
        commands::type_of_code(3) == CommandType::Install,
        commands::type_of_code(4) == CommandType::Uninstall,
        commands::type_of_code(5) == CommandType::Build,
        commands::type_of_code(6) == CommandType::Clean,
        commands::type_of_code(7) == CommandType::EnableAutostart,
        commands::type_of_code(8) == CommandType::DisableAutostart,
        commands::type_of_code(9) == CommandType::AddNode,
        commands::type_of_code(10) == CommandType::RemoveNode,
        commands::type_of_code(11) == CommandType::Refresh,
        commands::type_of_code(12) == CommandType::GetLogs,
        0 <= cmd.command <= 12 || commands::type_of_code(cmd.command) == CommandType::Refresh,
{
    commands::codes_are_read_back(CommandType::Start, cmd.command);
    commands::codes_are_read_back(CommandType::Stop, cmd.command);
    commands::codes_are_read_back(CommandType::Restart, cmd.command);
    commands::codes_are_read_back(CommandType::Install, cmd.command);
    commands::codes_are_read_back(CommandType::Uninstall, cmd.command);
    commands::codes_are_read_back(CommandType::Build, cmd.command);
    commands::codes_are_read_back(CommandType::Clean, cmd.command);
    commands::codes_are_read_back(CommandType::EnableAutostart, cmd.command);
    commands::codes_are_read_back(CommandType::DisableAutostart, cmd.command);
    commands::codes_are_read_back(CommandType::AddNode, cmd.command);
    commands::codes_are_read_back(CommandType::RemoveNode, cmd.command);
    commands::codes_are_read_back(CommandType::Refresh, cmd.command);
    commands::codes_are_read_back(CommandType::GetLogs, cmd.command);
}

/// Each number on the wire has its command carried out, for the node that the command names. A
/// node to add is named by its directory, and overrides that are empty are none. An unknown
/// number only takes in the registry.
pub proof fn numbers_have_commands_carried_out(cmd: NodeCommandView)
    ensures
        cmd.command == 0 ==> commands::action_of(cmd) == ActionView::Start(cmd.node_name),
        cmd.command == 1 ==> commands::action_of(cmd) == ActionView::Stop(cmd.node_name),
        cmd.command == 2 ==> commands::action_of(cmd) == ActionView::Restart(cmd.node_name),
        cmd.command == 3 ==> commands::action_of(cmd) == ActionView::Install(cmd.node_name),
        cmd.command == 4 ==> commands::action_of(cmd) == ActionView::Uninstall(cmd.node_name),
        cmd.command == 5 ==> commands::action_of(cmd) == ActionView::Build(cmd.node_name),
        cmd.command == 6 ==> commands::action_of(cmd) == ActionView::Clean(cmd.node_name),
        cmd.command == 7 ==> commands::action_of(cmd) == ActionView::EnableAutostart(cmd.node_name),
        cmd.command == 8 ==> commands::action_of(cmd) == ActionView::DisableAutostart(cmd.node_name),
        cmd.command == 9 ==> commands::action_of(cmd) == (ActionView::AddNode {
            path: cmd.node_path,
            name_override: if cmd.name_override.len() > 0 {
                Some(cmd.name_override)
            } else {
                None
            },
            config_override: if cmd.config_override.len() > 0 {
                Some(cmd.config_override)
            } else {
                None
            },
        }),
        cmd.command == 10 ==> commands::action_of(cmd) == ActionView::RemoveNode(cmd.node_name),
        cmd.command == 11 || cmd.command < 0 || cmd.command > 12 ==> commands::action_of(cmd)
            == ActionView::Refresh,
        cmd.command == 12 ==> commands::action_of(cmd) == ActionView::GetLogs(cmd.node_name),
{
    numbers_name_commands(cmd);
}

/// Every command but a request for a log is answered with the state of its node at the time of
/// the answer, whether or not it succeeded and whatever the state was before: exactly what is
/// then reported under the name in the command. A request for a log, which changes nothing, is
/// answered with the state of the node when the request came.
pub proof fn answers_tell_the_state_of_the_node(
    nodes: NodeManagerView,
    cmd: NodeCommandView,
    before: Option<NodeStateView>,
    given: Result<Seq<char>, NodeManagerErrorView>,
    now: i64,
)
    ensures
        cmd.command != 12 ==> nodes.answer(cmd, before, given, now).node_state == nodes.state_of(
            cmd.node_name,
        ),
        cmd.command == 12 ==> nodes.answer(cmd, before, given, now).node_state == before,
        nodes.answer(cmd, before, given, now).timestamp_ms == now,
        nodes.answer(cmd, before, given, now).request_id == cmd.request_id,
        nodes.answer(cmd, before, given, now).responding_machine == nodes.machine.id,
        nodes.answer(cmd, before, given, now).success <==> given is Ok,
{
    numbers_have_commands_carried_out(cmd);
}

/// What was done is told in words that name the node, and the log comes with the answer only
/// where it was asked for. What failed is told in the words of the failure.
pub proof fn answers_tell_what_was_done(
    nodes: NodeManagerView,
    cmd: NodeCommandView,
    before: Option<NodeStateView>,
    given: Seq<char>,
    failure: NodeManagerErrorView,
    now: i64,
)
    ensures
        ({
            let answer = nodes.answer(cmd, before, Ok(given), now);
            let name = cmd.node_name;
            &&& cmd.command == 0 ==> answer.message == "Started "@ + name
            &&& cmd.command == 1 ==> answer.message == "Stopped "@ + name
            &&& cmd.command == 2 ==> answer.message == "Restarted "@ + name
            &&& cmd.command == 3 ==> answer.message == "Installed "@ + name
            &&& cmd.command == 4 ==> answer.message == "Uninstalled "@ + name
            &&& cmd.command == 5 ==> answer.message == "Building "@ + name + " (background)"@
            &&& cmd.command == 6 ==> answer.message == "Cleaning "@ + name + " (background)"@
            &&& cmd.command == 7 ==> answer.message == "Enabled autostart for "@ + name
            &&& cmd.command == 8 ==> answer.message == "Disabled autostart for "@ + name
            &&& cmd.command == 9 ==> answer.message == "Added node: "@ + given
            &&& cmd.command == 10 ==> answer.message == "Removed node: "@ + name
            &&& cmd.command == 11 ==> answer.message == "Refreshed"@
            &&& cmd.command == 12 ==> answer.message == "Logs retrieved"@
            &&& cmd.command < 0 || cmd.command > 12 ==> answer.message == "Refreshed"@
            &&& cmd.command == 12 ==> answer.output == given
            &&& cmd.command != 12 ==> answer.output.len() == 0
        }),
        ({
            let answer = nodes.answer(cmd, before, Err(failure), now);
            &&& answer.message == failure.text()
            &&& answer.output.len() == 0
        }),
{
    numbers_have_commands_carried_out(cmd);
}

/// Whoever listens is told of every command that changed something, under the name of the node
/// that it is about; of taking in the registry and of reading a log nothing is told.
pub proof fn commands_are_told_of(cmd: NodeCommandView, given: Seq<char>)
    ensures
        ({
            let event = commands::action_of(cmd).event(given);
            let name = cmd.node_name;
            &&& cmd.command == 0 ==> event == Some(("started"@, name))
            &&& cmd.command == 1 ==> event == Some(("stopped"@, name))
            &&& cmd.command == 2 ==> event == Some(("restarted"@, name))
            &&& cmd.command == 3 ==> event == Some(("installed"@, name))
            &&& cmd.command == 4 ==> event == Some(("uninstalled"@, name))
            &&& cmd.command == 5 ==> event == Some(("building"@, name))
            &&& cmd.command == 6 ==> event == Some(("cleaning"@, name))
            &&& cmd.command == 7 ==> event == Some(("autostart_enabled"@, name))
            &&& cmd.command == 8 ==> event == Some(("autostart_disabled"@, name))
            &&& cmd.command == 9 ==> event == Some(("added"@, given))
            &&& cmd.command == 10 ==> event == Some(("removed"@, name))
            &&& cmd.command < 0 || cmd.command > 10 ==> event is None
        }),
{
    numbers_have_commands_carried_out(cmd);
}

/// The registry is taken in before a command is answered that changes it or what starts at
/// login, after the answer to one that changes a service, and when a build or clean ends; a log
/// is read without it.
pub proof fn commands_take_in_the_registry(cmd: NodeCommandView)
    ensures
        ({
            let when = commands::action_of(cmd).refresh();
            &&& 0 <= cmd.command <= 4 ==> when == Refresh::After
            &&& 5 <= cmd.command <= 6 ==> when == Refresh::WhenDone
            &&& 7 <= cmd.command <= 11 ==> when == Refresh::Before
            &&& cmd.command == 12 ==> when == Refresh::Never
            &&& cmd.command < 0 || cmd.command > 12 ==> when == Refresh::Before
        }),
{
    numbers_have_commands_carried_out(cmd);
}

/// Building, cleaning, removing and reading the log of a node takes its directory, and
/// installing it takes its manifest; without them the command is refused by the name of the
/// node. Nothing else has to be known beforehand.
pub proof fn commands_take_what_they_need(nodes: NodeManagerView, cmd: NodeCommandView)
    ensures
        ({
            let needed = nodes.prepared(commands::action_of(cmd));
            let missing = Err::<PreparedView, _>(
                NodeManagerErrorView::NodeNotFound(cmd.node_name),
            );
            let node = nodes.node(cmd.node_name);
            &&& cmd.command == 5 || cmd.command == 6 || cmd.command == 10 || cmd.command == 12
                ==> {
                &&& node is None ==> needed == missing
                &&& node is Some ==> needed == Ok::<_, NodeManagerErrorView>(
                    PreparedView::Path(node->0.path),
                )
            }
            &&& cmd.command == 3 ==> {
                &&& node is None || node->0.manifest is None ==> needed == missing
                &&& node is Some && node->0.manifest is Some ==> {
                    let manifest = node->0.manifest->0;
                    &&& needed is Ok
                    &&& needed->Ok_0 is Plan
                    &&& needed->Ok_0->Plan_0.path == node->0.path
                    &&& needed->Ok_0->Plan_0.node_type == manifest.node_type
                    &&& needed->Ok_0->Plan_0.depends_on == manifest.depends_on
                    &&& node->0.config_override is None ==> needed->Ok_0->Plan_0.command
                        == manifest.command
                    &&& node->0.config_override is Some && manifest.command is Some
                        ==> needed->Ok_0->Plan_0.command == Some(
                        manifest.command->0 + " -c "@ + node->0.config_override->0,
                    )
                    &&& node->0.config_override is Some && manifest.command is None
                        ==> needed->Ok_0->Plan_0.command == Some(
                        "./target/release/unknown -c "@ + node->0.config_override->0,
                    )
                }
            }
            &&& cmd.command != 3 && cmd.command != 5 && cmd.command != 6 && cmd.command != 10
                && cmd.command != 12 ==> needed == Ok::<_, NodeManagerErrorView>(
                PreparedView::Nothing,
            )
        }),
{
    numbers_have_commands_carried_out(cmd);
    reveal_strlit("./target/release/unknown");
    reveal_strlit(" -c ");
    reveal_strlit("./target/release/unknown -c ");
    assert("./target/release/unknown"@ + " -c "@ =~= "./target/release/unknown -c "@);
}

/// Failures are told in words of their kind, followed by the name or the words that came with
/// them.
pub proof fn failures_are_told(words: Seq<char>)
    ensures
        NodeManagerErrorView::Registry(words).text() == "Registry error: "@ + words,
        NodeManagerErrorView::Systemd(words).text() == "Systemd error: "@ + words,
        NodeManagerErrorView::NodeNotFound(words).text() == "Node not found: "@ + words,
        NodeManagerErrorView::BuildError(words).text() == "Build error: "@ + words,
        NodeManagerErrorView::AlreadyBuilding(words).text() == "Build already in progress for: "@
            + words,
        NodeManagerErrorView::BuildTimeout(words).text() == "Build timed out for: "@ + words,
        NodeManagerErrorView::Io(words).text() == "IO error: "@ + words,
{
}

/// A log is asked for by the service alone: its last 50 lines, as they were written.
pub proof fn logs_are_those_of_the_service(name: Seq<char>)
    ensures
        commands::log_request(systemd::service_of(name)) == seq![
            "_SYSTEMD_USER_UNIT=bubbaloop-"@ + name + ".service"@,
            "-n"@,
            "50"@,
            "--no-pager"@,
            "-o"@,
            "cat"@,
        ],
{
    reveal_strlit("_SYSTEMD_USER_UNIT=");
    reveal_strlit("bubbaloop-");
    reveal_strlit("_SYSTEMD_USER_UNIT=bubbaloop-");
    assert("_SYSTEMD_USER_UNIT="@ + systemd::service_of(name) =~= "_SYSTEMD_USER_UNIT=bubbaloop-"@
        + name + ".service"@);
}

/// A log is shown line by line; where there is none, that is said.
pub proof fn logs_are_shown_line_by_line(line: Seq<char>, rest: Seq<char>)
    requires
        !line.contains('\n'),
        line.len() == 0 || line.last() != '\r',
    ensures
        commands::shown_log(Seq::empty()) == "No logs available"@,
        commands::shown_log(line.push('\n')) == line,
        line.len() > 0 ==> commands::shown_log(line) == line,
        text::lines_of(rest).len() > 0 ==> commands::shown_log(line.push('\n') + rest)
            == line.push('\n') + commands::shown_log(rest),
{
    reveal_strlit("\n");
    text::newlines_end_lines(Seq::empty(), Seq::empty());
    text::newlines_end_lines(line, rest);
    text::newlines_end_lines(line, Seq::empty());
    assert(line.push('\n') + Seq::empty() =~= line.push('\n'));
    assert(seq![line] + Seq::<Seq<char>>::empty() =~= seq![line]);
    if text::lines_of(rest).len() > 0 {
        text::separators_join_parts(seq![line], text::lines_of(rest), "\n"@);
        assert(line + "\n"@ =~= line.push('\n'));
    }
}

// ---- signals ---------------------------------------------------------------

/// A change of a service is told of under the name of its node: that it failed, stopped or
/// otherwise changed when a job ended, that it was installed when it appeared, and uninstalled
/// when it disappeared. Of a service that belongs to no node nothing is told.
pub proof fn changes_of_services_are_told(change: SystemdSignalEvent)
    ensures
        match change {
            SystemdSignalEvent::JobRemoved { node_name, result } => {
                &&& node_name is None ==> change.event() is None
                &&& node_name is Some && result@ == "failed"@ ==> change.event() == Some(
                    (node_name->0@, "failed"@),
                )
                &&& node_name is Some && result@ == "canceled"@ ==> change.event() == Some(
                    (node_name->0@, "stopped"@),
                )
                &&& node_name is Some && result@ != "failed"@ && result@ != "canceled"@
                    ==> change.event() == Some((node_name->0@, "state_changed"@))
            },
            SystemdSignalEvent::UnitNew { node_name } => {
                &&& node_name is None ==> change.event() is None
                &&& node_name is Some ==> change.event() == Some((node_name->0@, "installed"@))
            },
            SystemdSignalEvent::UnitRemoved { node_name } => {
                &&& node_name is None ==> change.event() is None
                &&& node_name is Some ==> change.event() == Some((node_name->0@, "uninstalled"@))
            },
        },
{
    reveal_strlit("failed");
    reveal_strlit("canceled");
    assert("failed"@.len() == 6 && "canceled"@.len() == 8);
}

/// The events of a burst are those of its changes, in order.
pub proof fn bursts_tell_every_change(changes: Seq<SystemdSignalEvent>)
    ensures
        signals::events_of(changes) == changes.filter_map(
            |change: SystemdSignalEvent| change.event(),
        ),
{
    changes_are_selected(changes, |change: SystemdSignalEvent| change.event());
}

proof fn changes_are_selected(
    changes: Seq<SystemdSignalEvent>,
    pick: spec_fn(SystemdSignalEvent) -> Option<(Seq<char>, Seq<char>)>,
)
    requires
        forall|change: SystemdSignalEvent| #[trigger] pick(change) == change.event(),
    ensures
        signals::events_of(changes) == changes.filter_map(pick),
    decreases changes.len(),
{
    if changes.len() > 0 {
        changes_are_selected(changes.drop_last(), pick);
        assert(signals::events_of(changes) =~= changes.filter_map(pick));
    }
}

/// Events are ordered by the names of their nodes, and those of one node by their kinds.
pub proof fn events_are_ordered_by_node(a: (Seq<char>, Seq<char>), b: (Seq<char>, Seq<char>))
    ensures
        a.0 != b.0 ==> (signals::event_before(a, b) <==> text::text_before(a.0, b.0)),
        a.0 == b.0 ==> (signals::event_before(a, b) <==> text::text_before(a.1, b.1)),
{
    text::text_order_is_total(a.0, b.0);
}

// ---- what nodes say of themselves ------------------------------------------

/// The manifests are those of the nodes that have one, in order, each under the name that its
/// node goes by.
pub proof fn manifests_are_those_of_nodes(nodes: Seq<CachedNodeView>)
    ensures
        node_manager::manifests_of(nodes) == nodes.filter_map(
            |node: CachedNodeView|
                if node.manifest is Some {
                    Some((node.name(), node.manifest->0))
                } else {
                    None
                },
        ),
{
    let pick = |node: CachedNodeView|
        if node.manifest is Some {
            Some((node.name(), node.manifest->0))
        } else {
            None
        };
    manifests_are_selected(nodes, pick);
}

proof fn manifests_are_selected(
    nodes: Seq<CachedNodeView>,
    pick: spec_fn(CachedNodeView) -> Option<(Seq<char>, NodeManifestView)>,
)
    requires
        forall|node: CachedNodeView| #[trigger]
            pick(node) == if node.manifest is Some {
                Some((node.name(), node.manifest->0))
            } else {
                None
            },
    ensures
        node_manager::manifests_of(nodes) == nodes.filter_map(pick),
    decreases nodes.len(),
{
    if nodes.len() > 0 {
        manifests_are_selected(nodes.drop_last(), pick);
        assert(node_manager::manifests_of(nodes) =~= nodes.filter_map(pick));
    }
}

/// The addresses of a machine are the words that were listed, and none if nothing was.
pub proof fn addresses_are_listed(first: Seq<char>, rest: Seq<char>)
    requires
        first.len() > 0,
        forall|i: int| 0 <= i < first.len() ==> !text::white_space(#[trigger] first[i]),
    ensures
        node_manager::addresses_in(None).len() == 0,
        node_manager::addresses_in(Some(Seq::empty())).len() == 0,
        node_manager::addresses_in(Some(first.push(' ') + rest)) == seq![first]
            + node_manager::addresses_in(Some(rest)),
{
    text::white_space_parts_words(first, ' ', rest);
    text::white_space_parts_words(Seq::empty(), ' ', rest);
}

// ---- what is handed back ---------------------------------------------------

/// A service is stopped before a build, a clean or a removal only if it runs or is about to; one
/// whose state is not known is left alone. On removal a service is uninstalled exactly if there
/// is one.
pub proof fn services_are_stopped_only_if_they_run(
    state: Option<ActiveState>,
    installed: bool,
    stop: bool,
    removal: Removal,
)
    requires
        call_ensures(systemd::stop_if_running, (state,), stop),
        call_ensures(commands::plan_removal, (state, installed), removal),
    ensures
        stop <==> state is Some && (state->0 == ActiveState::Active || state->0
            == ActiveState::Activating),
        removal.stop <==> stop,
        removal.uninstall <==> installed,
{
}

/// A service is not stopped for a build or clean that is going to be refused because another
/// one goes on.
pub proof fn refused_activities_stop_nothing(
    nodes: &NodeManager,
    name: &str,
    state: Option<ActiveState>,
    stop: bool,
)
    requires
        call_ensures(NodeManager::must_stop, (nodes, name, state), stop),
    ensures
        nodes@.building.contains(name@) ==> !stop,
        !nodes@.building.contains(name@) ==> (stop <==> state is Some && (state->0
            == ActiveState::Active || state->0 == ActiveState::Activating)),
{
}

/// A command that ended succeeded exactly if it says so; otherwise its code is told, -1 if it
/// has none. One that was given limited time and did not end timed out.
pub proof fn ends_of_commands_are_told(
    success: bool,
    code: Option<i32>,
    ended: Option<Result<(), NodeManagerError>>,
    name: &str,
    result: Result<(), NodeManagerError>,
    limited: Result<(), NodeManagerError>,
)
    requires
        call_ensures(building::exit_result, (success, code), result),
        call_ensures(building::run_with_timeout, (ended, name), limited),
    ensures
        result is Ok <==> success,
        !success ==> result->Err_0@ == NodeManagerErrorView::BuildError(
            "Command exited with code "@ + text::signed_decimal(
                if code is Some {
                    code->0 as int
                } else {
                    -1
                },
            ),
        ),
        ended is Some ==> limited == ended->0,
        ended is None ==> limited is Err && limited->Err_0@ == NodeManagerErrorView::BuildTimeout(
            name@,
        ),
{
}

/// A list of nodes reports every node, in order, as it is reported by its name.
pub proof fn lists_report_every_node(nodes: &NodeManager, now: i64, list: NodeList, i: int)
    requires
        nodes@.wf(),
        call_ensures(NodeManager::get_node_list, (nodes, now), list),
        0 <= i < nodes@.nodes.len(),
    ensures
        list@.nodes.len() == nodes@.nodes.len(),
        nodes@.state_of(nodes@.nodes[i].name()) == Some(list@.nodes[i]),
        list@.timestamp_ms == now,
        list@.machine_id == nodes@.machine.id,
{
    table::found_by_name(nodes@.nodes, i);
}

/// What a node is asked for by name is what the list says of it, and what is no node is not
/// found.
pub proof fn nodes_are_reported_by_name(
    nodes: &NodeManager,
    name: &str,
    state: Option<NodeState>,
)
    requires
        call_ensures(NodeManager::get_node, (nodes, name), state),
    ensures
        state is Some <==> nodes@.node(name@) is Some,
        state matches Some(found) ==> found@ == nodes@.report(nodes@.node(name@)->0),
{
}

/// A machine is known by its name, its addresses and its host name, which is `unknown` if it
/// could not be found out.
pub proof fn machines_are_known(
    id: String,
    hostname: Option<String>,
    ips: Vec<String>,
    machine: Machine,
)
    requires
        call_ensures(Machine::new, (id, hostname, ips), machine),
    ensures
        machine@.id == id@,
        hostname is Some ==> machine@.hostname == hostname->0@,
        hostname is None ==> machine@.hostname == "unknown"@,
        machine@.ips == text::views(ips@),
{
}

// ---- fixed values ----------------------------------------------------------

/// The two key expressions of heartbeats are themselves keys of the two forms, so that every
/// node's heartbeat falls under one of them.
pub proof fn heartbeats_of_both_forms_are_heard()
    ensures
        health::node_in_key(text::split_at(health::LEGACY_HEALTH_KEY@, '/')) == Some("*"@),
        health::node_in_key(text::split_at(health::SCOPED_HEALTH_KEY@, '/')) == Some("*"@),
        text::split_at(health::LEGACY_HEALTH_KEY@, '/').len() == 4,
        text::split_at(health::SCOPED_HEALTH_KEY@, '/') == seq![
            "bubbaloop"@,
            "*"@,
            "*"@,
            "health"@,
            "*"@,
        ],
{
    reveal_strlit("*");
    reveal_strlit("nodes");
    reveal_strlit("health");
    reveal_strlit("bubbaloop");
    reveal_strlit("bubbaloop/nodes/*/health");
    reveal_strlit("bubbaloop/*/*/health/*");
    let star = "*"@;
    let end = star.push('/') + "health"@;
    let legacy = "nodes"@.push('/') + end;
    assert(health::LEGACY_HEALTH_KEY@ =~= "bubbaloop"@.push('/') + legacy);
    text::separators_part_texts("bubbaloop"@, '/', legacy);
    text::separators_part_texts("nodes"@, '/', end);
    text::separators_part_texts(star, '/', "health"@);
    text::separators_part_texts("health"@, '/', star);
    let rest3 = "health"@.push('/') + star;
    let rest2 = star.push('/') + rest3;
    let rest1 = star.push('/') + rest2;
    assert(health::SCOPED_HEALTH_KEY@ =~= "bubbaloop"@.push('/') + rest1);
    text::separators_part_texts("bubbaloop"@, '/', rest1);
    text::separators_part_texts(star, '/', rest2);
    text::separators_part_texts(star, '/', rest3);
    assert(text::split_at(health::SCOPED_HEALTH_KEY@, '/') =~= seq![
        "bubbaloop"@,
        star,
        star,
        "health"@,
        star,
    ]);
    assert("*"@[0] != "nodes"@[0]);
}

/// Cleaning is a command that may run, builds and cleans get ten minutes, and the program that
/// reads logs is named by its full path.
pub proof fn cleaning_may_run(lowered: Seq<char>)
    requires
        "pixi "@.is_prefix_of(lowered),
    ensures
        building::CLEAN_COMMAND@ == "pixi run clean"@,
        building::calls_permitted_tool(building::CLEAN_COMMAND@),
        building::harmless(building::CLEAN_COMMAND@),
        building::command_fault(building::CLEAN_COMMAND@, lowered) is None,
        building::BUILD_TIMEOUT_SECS == 10 * 60,
        commands::JOURNALCTL_PATH@ == "/usr/bin/journalctl"@,
{
    reveal_strlit("pixi");
    reveal_strlit(" ");
    reveal_strlit("run clean");
    reveal_strlit("pixi run clean");
    reveal_strlit(" ./-_=:");
    assert(" ./-_=:"@[0] == ' ');
    tools_end_with_spaces();
    plain_commands_may_run("pixi"@, "run clean"@, lowered);
    assert("pixi"@ + " "@ + "run clean"@ =~= "pixi run clean"@);
}

/// Noting whether a node's program is there changes nothing else of it, and nothing of other
/// nodes.
pub proof fn programs_are_noted(nodes: NodeManagerView, name: Seq<char>, is_built: bool)
    requires
        nodes.wf(),
    ensures
        ({
            let after = nodes.marked(name, is_built);
            &&& after.building == nodes.building
            &&& after.running_since == nodes.running_since
            &&& after.machine == nodes.machine
            &&& after.node(name) is Some <==> nodes.node(name) is Some
            &&& nodes.node(name) matches Some(known) ==> after.node(name) == Some(
                CachedNodeView { is_built, ..known },
            )
            &&& forall|other: Seq<char>|
                other != name ==> #[trigger] after.node(other) == nodes.node(other)
        }),
{
    let change = |n: CachedNodeView| CachedNodeView { is_built, ..n };
    let after = nodes.marked(name, is_built);
    table::change_is_local(nodes.nodes, name, change);
    assert(after.nodes == table::with_node(nodes.nodes, name, change));
    assert forall|other: Seq<char>| #[trigger]
        after.node(other) == match nodes.node(other) {
            Some(n) => Some(
                if other == name {
                    change(n)
                } else {
                    n
                },
            ),
            None => None,
        } by {
        assert(after.node(other) == table::node_named(
            table::with_node(nodes.nodes, name, change),
            other,
        ));
    }
}

/// Nodes are asked about in the order in which a burst first mentions them: what comes later in
/// it changes nothing about the order of what came before.
pub proof fn first_mentions_decide_the_order(
    a: Seq<(Seq<char>, Seq<char>)>,
    b: Seq<(Seq<char>, Seq<char>)>,
)
    ensures
        signals::mentioned(a).is_prefix_of(signals::mentioned(a + b)),
        signals::mentioned(a).no_duplicates(),
    decreases b.len(),
{
    signals::nodes_are_mentioned_once(a);
    if b.len() == 0 {
        assert(a + b =~= a);
    } else {
        first_mentions_decide_the_order(a, b.drop_last());
        assert((a + b).drop_last() =~= a + b.drop_last());
        let earlier = signals::mentioned(a + b.drop_last());
        let all = signals::mentioned(a + b);
        assert(all.take(signals::mentioned(a).len() as int) =~= earlier.take(
            signals::mentioned(a).len() as int,
        ));
    }
}

// ---- operations ------------------------------------------------------------

/// Taking in a registry whose services could all be asked about succeeds, and each node that is
/// registered is then reported as it was found, the last of its name counting. While no build or
/// clean of it goes on, it runs only if its service is installed and active or about to be, has
/// failed if its installed service failed, is stopped if that is otherwise, and is not installed
/// without one.
pub proof fn refreshing_shows_nodes_as_found(regs: Vec<RegisteredNode>, i: int)
    requires
        0 <= i < regs@.len(),
        forall|j: int| 0 <= j < regs@.len() ==> (#[trigger] regs@[j]).unit is Ok,
        forall|j: int|
            i < j < regs@.len() ==> (#[trigger] regs@[j])@.name() != regs@[i]@.name(),
    ensures
        forall|nodes: &mut NodeManager, r: Result<(), NodeManagerError>| #[trigger]
            call_ensures(
                NodeManager::refresh_all,
                (nodes, Ok::<Vec<RegisteredNode>, NodeManagerError>(regs)),
                r,
            ) ==> {
                let unit = regs@[i].unit->Ok_0;
                let found = (*final(nodes))@.state_of(regs@[i]@.name());
                &&& r is Ok
                &&& found is Some
                &&& found->0.path == regs@[i].entry.path@
                &&& found->0.installed == unit.installed
                &&& found->0.autostart_enabled == (unit.installed && unit.enabled == Some(true))
                &&& found->0.is_built == (regs@[i].manifest is Some && regs@[i].is_built)
                &&& found->0.last_updated_ms == regs@[i].read_at_ms
                &&& found->0.machine_id == (*nodes)@.machine.id
                &&& !(*nodes)@.building.contains(regs@[i]@.name()) && (*nodes)@.wf() ==> {
                    &&& found->0.status == 4 <==> !unit.installed
                    &&& found->0.status == 2 <==> unit.installed && (unit.active_state
                        == ActiveState::Active || unit.active_state == ActiveState::Activating)
                    &&& found->0.status == 3 <==> unit.installed && unit.active_state
                        == ActiveState::Failed
                    &&& found->0.status == 1 <==> unit.installed && unit.active_state
                        != ActiveState::Active && unit.active_state != ActiveState::Activating
                        && unit.active_state != ActiveState::Failed
                }
            },
{
    let found = node_manager::registered_views(regs@);
    let name = regs@[i]@.name();
    assert forall|nodes: &mut NodeManager, r: Result<(), NodeManagerError>| #[trigger]
        call_ensures(
            NodeManager::refresh_all,
            (nodes, Ok::<Vec<RegisteredNode>, NodeManagerError>(regs)),
            r,
        ) implies ({
        let unit = regs@[i].unit->Ok_0;
        let shown = (*final(nodes))@.state_of(name);
        &&& r is Ok
        &&& shown is Some
        &&& shown->0.path == regs@[i].entry.path@
        &&& shown->0.installed == unit.installed
        &&& shown->0.autostart_enabled == (unit.installed && unit.enabled == Some(true))
        &&& shown->0.is_built == (regs@[i].manifest is Some && regs@[i].is_built)
        &&& shown->0.last_updated_ms == regs@[i].read_at_ms
        &&& shown->0.machine_id == (*nodes)@.machine.id
        &&& !(*nodes)@.building.contains(name) && (*nodes)@.wf() ==> {
            &&& shown->0.status == 4 <==> !unit.installed
            &&& shown->0.status == 2 <==> unit.installed && (unit.active_state
                == ActiveState::Active || unit.active_state == ActiveState::Activating)
            &&& shown->0.status == 3 <==> unit.installed && unit.active_state
                == ActiveState::Failed
            &&& shown->0.status == 1 <==> unit.installed && unit.active_state
                != ActiveState::Active && unit.active_state != ActiveState::Activating
                && unit.active_state != ActiveState::Failed
        }
    }) by {
        let n = found.len() as int;
        assert forall|j: int| 0 <= j < n implies (#[trigger] found[j]).unit is Ok by {
            assert(regs@[j].unit is Ok);
        }
        assert forall|j: int| i < j < n implies (#[trigger] found[j]).name() != found[i].name() by {
            assert(regs@[j]@.name() != regs@[i]@.name());
        }
        entries_are_taken_in_until_one_fails(found, n);
        let after = (*final(nodes))@;
        registered_nodes_are_shown_as_found((*nodes)@.nodes, found, after.nodes, n, i);
        reports_tell_what_is_known(after, name);
        let node = after.node(name)->0;
        assert(found[i].unit is Ok && regs@[i].unit is Ok);
        if !(*nodes)@.building.contains(name) && (*nodes)@.wf() {
            crate::daemon::activity::busy_nodes_are_shown_as_building((*nodes)@, name);
            assert(node.build_state.status == BuildStatus::Idle);
            crate::schemas::numbers_stand_for_values();
        }
    }
}

/// Taking in a registry that could not be read, or one with a service that could not be asked
/// about, fails with what went wrong there first; a registry that could not be read changes
/// nothing.
pub proof fn refreshing_fails_as_the_registry_does(
    regs: Vec<RegisteredNode>,
    n: int,
    error: NodeManagerError,
)
    requires
        0 <= n < regs@.len(),
        forall|j: int| 0 <= j < n ==> (#[trigger] regs@[j]).unit is Ok,
        regs@[n].unit is Err,
    ensures
        forall|nodes: &mut NodeManager, r: Result<(), NodeManagerError>| #[trigger]
            call_ensures(
                NodeManager::refresh_all,
                (nodes, Ok::<Vec<RegisteredNode>, NodeManagerError>(regs)),
                r,
            ) ==> r is Err && (r->Err_0)@ == (regs@[n].unit->Err_0)@,
        forall|nodes: &mut NodeManager, r: Result<(), NodeManagerError>| #[trigger]
            call_ensures(
                NodeManager::refresh_all,
                (nodes, Err::<Vec<RegisteredNode>, NodeManagerError>(error)),
                r,
            ) ==> r == Err::<(), NodeManagerError>(error) && (*final(nodes))@ == (*nodes)@,
{
    let found = node_manager::registered_views(regs@);
    assert forall|j: int| 0 <= j < n implies (#[trigger] found[j]).unit is Ok by {
        assert(regs@[j].unit is Ok);
    }
    assert(found[n].unit is Err);
    entries_are_taken_in_until_one_fails(found, n);
}

/// A build begins exactly if there is a node of the name, none goes on under it and the node
/// says how it is built; what is begun is that command in that node's directory, and the node is
/// shown as building from then on. What does not begin changes nothing.
pub proof fn builds_begin_exactly_if_they_can(name: &str)
    ensures
        forall|nodes: &mut NodeManager, r: Result<(String, String), NodeManagerError>| #[trigger]
            call_ensures(NodeManager::begin_build, (nodes, name), r) && (*nodes)@.wf() ==> {
                let node = (*nodes)@.node(name@);
                let can = node is Some && !(*nodes)@.building.contains(name@)
                    && node->0.manifest is Some && node->0.manifest->0.build is Some;
                &&& r is Ok <==> can
                &&& !can ==> (*final(nodes))@ == (*nodes)@
                &&& can ==> {
                    &&& r->Ok_0.0@ == node->0.path
                    &&& r->Ok_0.1@ == node->0.manifest->0.build->0
                    &&& (*final(nodes))@.building == (*nodes)@.building.insert(name@)
                    &&& (*final(nodes))@.node(name@) == Some(
                        CachedNodeView {
                            status: NodeStatus::Building,
                            build_state: BuildStateView {
                                status: BuildStatus::Building,
                                output: Seq::empty(),
                            },
                            ..node->0
                        },
                    )
                }
            },
{
    assert forall|nodes: &mut NodeManager, r: Result<(String, String), NodeManagerError>| #[trigger]
        call_ensures(NodeManager::begin_build, (nodes, name), r) && (*nodes)@.wf() implies ({
        let node = (*nodes)@.node(name@);
        let can = node is Some && !(*nodes)@.building.contains(name@) && node->0.manifest is Some
            && node->0.manifest->0.build is Some;
        &&& r is Ok <==> can
        &&& !can ==> (*final(nodes))@ == (*nodes)@
        &&& can ==> {
            &&& r->Ok_0.0@ == node->0.path
            &&& r->Ok_0.1@ == node->0.manifest->0.build->0
            &&& (*final(nodes))@.building == (*nodes)@.building.insert(name@)
            &&& (*final(nodes))@.node(name@) == Some(
                CachedNodeView {
                    status: NodeStatus::Building,
                    build_state: BuildStateView {
                        status: BuildStatus::Building,
                        output: Seq::empty(),
                    },
                    ..node->0
                },
            )
        }
    }) by {
        let before = (*nodes)@;
        let after = (*final(nodes))@;
        beginnings_are_refused_exactly_if(before, name@);
        if r is Ok {
            let begin = |n: CachedNodeView| n.begun(BuildStatus::Building);
            table::change_is_local(before.nodes, name@, begin);
            assert(after.nodes == table::with_node(before.nodes, name@, begin));
            assert(after.node(name@) == table::node_named(
                table::with_node(before.nodes, name@, begin),
                name@,
            ));
        }
    }
}

/// Ending a clean leaves its name free and its node idle, with all else as it was, and does not
/// concern other nodes.
pub proof fn ended_cleans_leave_nodes_idle(
    nodes: NodeManagerView,
    name: Seq<char>,
    result: Result<(), NodeManagerErrorView>,
    label: Seq<char>,
)
    requires
        nodes.wf(),
    ensures
        ({
            let after = nodes.ended(name, result, label);
            &&& after.building == nodes.building.remove(name)
            &&& after.machine == nodes.machine
            &&& after.running_since == nodes.running_since
            &&& forall|other: Seq<char>|
                other != name ==> #[trigger] after.node(other) == nodes.node(other)
            &&& after.node(name) is Some <==> nodes.node(name) is Some
            &&& nodes.node(name) matches Some(known) ==> {
                let node = after.node(name)->0;
                &&& node == (CachedNodeView { build_state: node.build_state, ..known })
                &&& node.build_state.status == BuildStatus::Idle
                &&& node.build_state.output.drop_last() == known.build_state.output
            }
        }),
{
    let end = |n: CachedNodeView| n.ended(result, label);
    let after = nodes.ended(name, result, label);
    table::change_is_local(nodes.nodes, name, end);
    assert(after.nodes == table::with_node(nodes.nodes, name, end));
    assert forall|other: Seq<char>| #[trigger]
        after.node(other) == match nodes.node(other) {
            Some(n) => Some(
                if other == name {
                    end(n)
                } else {
                    n
                },
            ),
            None => None,
        } by {
        assert(after.node(other) == table::node_named(
            table::with_node(nodes.nodes, name, end),
            other,
        ));
    }
    if let Some(known) = nodes.node(name) {
        let output = known.build_state.output;
        let line = building::closing_line(result, label);
        assert(output.push(line).drop_last() =~= output);
    }
}

/// When a build ends its name is free again, and the listeners are told how it ended and in
/// which state its node then is, if it is still there. If the registry cannot be read, a build
/// that succeeded has left a program, and one that failed has taken none away.
pub proof fn ended_builds_are_told(
    name: &str,
    result: &Result<(), NodeManagerError>,
    registered: Result<Vec<RegisteredNode>, NodeManagerError>,
    now: i64,
)
    ensures
        forall|nodes: &mut NodeManager, r: Option<NodeEvent>| #[trigger]
            call_ensures(
                NodeManager::complete_build,
                (nodes, name, result, registered, now),
                r,
            ) && (*nodes)@.wf() ==> {
                let before = (*nodes)@;
                let after = (*final(nodes))@;
                &&& after.building == before.building.remove(name@)
                &&& after.machine == before.machine
                &&& r is Some <==> after.node(name@) is Some
                &&& r matches Some(event) ==> {
                    &&& event@.state == after.state_of(name@)
                    &&& event@.node_name == name@
                    &&& event@.timestamp_ms == now
                    &&& event@.event_type == "build_complete"@ <==> *result is Ok
                    &&& event@.event_type == "build_timeout"@ <==> *result is Err && (
                    *result)->Err_0@ is BuildTimeout
                    &&& event@.event_type == "build_failed"@ <==> *result is Err && !((
                    *result)->Err_0@ is BuildTimeout)
                }
                &&& registered is Err ==> {
                    &&& after.node(name@) is Some <==> before.node(name@) is Some
                    &&& before.node(name@) matches Some(known) ==> {
                        &&& after.node(name@)->0.is_built == (*result is Ok || known.is_built)
                        &&& after.node(name@)->0.build_state.status == BuildStatus::Idle
                    }
                    &&& forall|other: Seq<char>|
                        other != name@ ==> #[trigger] after.node(other) == before.node(other)
                }
            },
{
    build_ends_are_told_apart(crate::daemon::error::outcome(*result));
    assert forall|nodes: &mut NodeManager, r: Option<NodeEvent>| #[trigger]
        call_ensures(
            NodeManager::complete_build,
            (nodes, name, result, registered, now),
            r,
        ) && (*nodes)@.wf() && registered is Err implies ({
        let before = (*nodes)@;
        let after = (*final(nodes))@;
        &&& after.node(name@) is Some <==> before.node(name@) is Some
        &&& before.node(name@) matches Some(known) ==> {
            &&& after.node(name@)->0.is_built == (*result is Ok || known.is_built)
            &&& after.node(name@)->0.build_state.status == BuildStatus::Idle
        }
        &&& forall|other: Seq<char>|
            other != name@ ==> #[trigger] after.node(other) == before.node(other)
    }) by {
        let before = (*nodes)@;
        let after = (*final(nodes))@;
        let outcome = crate::daemon::error::outcome(*result);
        ended_builds_leave_programs(before, name@, outcome);
        let built = before.built(name@, outcome);
        assert(after.node(name@) == built.after_refresh(None, name@));
        assert forall|other: Seq<char>| other != name@ implies #[trigger] after.node(other)
            == before.node(other) by {
            assert(after.node(other) == built.after_refresh(None, other));
            assert(built.node(other) == before.node(other));
        }
    }
}

/// When a clean ends its name is free again, and the listeners are told that it ended and in
/// which state its node then is, if it is still there. A clean that succeeded leaves no program,
/// whatever the registry says. One that failed takes none away: if the registry cannot be read,
/// the program is there exactly if it was before.
pub proof fn ended_cleans_are_told(
    name: &str,
    result: &Result<(), NodeManagerError>,
    registered: Result<Vec<RegisteredNode>, NodeManagerError>,
    now: i64,
)
    ensures
        forall|nodes: &mut NodeManager, r: Option<NodeEvent>| #[trigger]
            call_ensures(
                NodeManager::complete_clean,
                (nodes, name, result, registered, now),
                r,
            ) && (*nodes)@.wf() ==> {
                let before = (*nodes)@;
                let after = (*final(nodes))@;
                &&& after.building == before.building.remove(name@)
                &&& after.machine == before.machine
                &&& r is Some <==> after.node(name@) is Some
                &&& r matches Some(event) ==> {
                    &&& event@.state == after.state_of(name@)
                    &&& event@.node_name == name@
                    &&& event@.timestamp_ms == now
                    &&& event@.event_type == "clean_complete"@
                }
                &&& *result is Ok && after.node(name@) is Some ==> !after.node(name@)->0.is_built
                &&& *result is Err ==> after.node(name@) == before.ended(
                    name@,
                    crate::daemon::error::outcome(*result),
                    "Clean"@,
                ).after_refresh(crate::daemon::activity::found_in(registered), name@)
                &&& registered is Err ==> {
                    &&& after.node(name@) is Some <==> before.node(name@) is Some
                    &&& before.node(name@) matches Some(known) ==> {
                        &&& after.node(name@)->0.is_built == (*result is Err && known.is_built)
                        &&& after.node(name@)->0.build_state.status == BuildStatus::Idle
                    }
                    &&& forall|other: Seq<char>|
                        other != name@ ==> #[trigger] after.node(other) == before.node(other)
                }
            },
{
    assert forall|nodes: &mut NodeManager, r: Option<NodeEvent>| #[trigger]
        call_ensures(
            NodeManager::complete_clean,
            (nodes, name, result, registered, now),
            r,
        ) && (*nodes)@.wf() && registered is Err implies ({
        let before = (*nodes)@;
        let after = (*final(nodes))@;
        &&& after.node(name@) is Some <==> before.node(name@) is Some
        &&& before.node(name@) matches Some(known) ==> {
            &&& after.node(name@)->0.is_built == (*result is Err && known.is_built)
            &&& after.node(name@)->0.build_state.status == BuildStatus::Idle
        }
        &&& forall|other: Seq<char>|
            other != name@ ==> #[trigger] after.node(other) == before.node(other)
    }) by {
        let before = (*nodes)@;
        let after = (*final(nodes))@;
        let outcome = crate::daemon::error::outcome(*result);
        ended_cleans_leave_nodes_idle(before, name@, outcome, "Clean"@);
        let ended = before.ended(name@, outcome, "Clean"@);
        assert(ended.after_refresh(None, name@) == ended.node(name@));
        assert(after.node(name@) is Some <==> ended.node(name@) is Some);
        assert forall|other: Seq<char>| other != name@ implies #[trigger] after.node(other)
            == before.node(other) by {
            assert(ended.after_refresh(None, other) == ended.node(other));
            assert(ended.node(other) == before.node(other));
        }
    }
}

/// Every command but a request for a log is answered with what is reported of the node under
/// the name in the command at the time of the answer, successful or not and whatever was
/// reported before.
pub proof fn commands_are_answered_with_the_state_now(
    nodes: &NodeManager,
    cmd: NodeCommand,
    before: Option<NodeState>,
    given: Result<String, NodeManagerError>,
    now: i64,
    name: &str,
    state: Option<NodeState>,
    answer: CommandResult,
)
    requires
        call_ensures(NodeManager::execute_command, (nodes, cmd, before, given, now), answer),
        call_ensures(NodeManager::get_node, (nodes, name), state),
        cmd.command != 12,
        name@ == cmd.node_name@,
    ensures
        schemas::opt_state(answer.node_state) == schemas::opt_state(state),
        answer.success <==> given is Ok,
        answer.request_id@ == cmd.request_id@,
        answer.timestamp_ms == now,
{
    answers_tell_the_state_of_the_node(
        nodes@,
        cmd@,
        schemas::opt_state(before),
        commands::text_outcome(given),
        now,
    );
    assert(answer@.success == answer.success);
}

/// A build command is run exactly if it passes the check, and then by the shell, as it stands.
/// One that calls a permitted tool and otherwise holds only what plain paths and options are
/// made of passes; one with a dangerous character anywhere does not.
pub proof fn build_commands_are_checked_and_run(
    cmd: &str,
    home: Option<&str>,
    checked: Result<(), NodeManagerError>,
    plan: Result<BuildPlan, NodeManagerError>,
    tool: Seq<char>,
    rest: Seq<char>,
)
    requires
        call_ensures(building::validate_build_command, (cmd,), checked),
        call_ensures(building::plan_build, (cmd, home), plan),
    ensures
        plan is Ok <==> checked is Ok,
        plan is Ok ==> plan->Ok_0.program@ == "sh"@ && text::views(plan->Ok_0.arguments@) == seq![
            "-c"@,
            cmd@,
        ],
        (exists|i: int|
            0 <= i < cmd@.len() && "$`|;&><(){}!\\\n\r"@.contains(#[trigger] cmd@[i]))
            ==> checked is Err,
        cmd@ == tool + " "@ + rest && tools().contains(tool) && (forall|i: int|
            0 <= i < rest.len() ==> ({
                let c = #[trigger] rest[i];
                ||| 'a' <= c <= 'z'
                ||| 'A' <= c <= 'Z'
                ||| '0' <= c <= '9'
                ||| " ./-_=:"@.contains(c)
            })) ==> checked is Ok,
{
    commands_may_run_exactly_if(cmd@, text::lowercase(cmd@));
    if tools().contains(tool) && (forall|i: int|
        0 <= i < rest.len() ==> ({
            let c = #[trigger] rest[i];
            ||| 'a' <= c <= 'z'
            ||| 'A' <= c <= 'Z'
            ||| '0' <= c <= '9'
            ||| " ./-_=:"@.contains(c)
        })) {
        assert(tool + " "@ =~= (tool + " "@).take((tool + " "@).len() as int));
        plain_commands_may_run(tool, rest, tool + " "@);
    }
}

/// A build or clean begins exactly if there is a node of the name and none goes on under it; it
/// is then shown as building in its own directory, and a second one under the same name does not
/// begin. What does not begin changes nothing.
pub proof fn activities_begin_exactly_if_they_can(name: &str, status: BuildStatus)
    ensures
        forall|nodes: &mut NodeManager, r: Result<String, NodeManagerError>| #[trigger]
            call_ensures(NodeManager::begin_build_activity, (nodes, name, status), r)
                && (*nodes)@.wf() ==> {
                let before = (*nodes)@;
                let after = (*final(nodes))@;
                let node = before.node(name@);
                let can = node is Some && !before.building.contains(name@);
                &&& r is Ok <==> can
                &&& !can ==> after == before
                &&& node is None ==> r->Err_0@ == NodeManagerErrorView::NodeNotFound(name@)
                &&& node is Some && !can ==> r->Err_0@ == NodeManagerErrorView::AlreadyBuilding(
                    name@,
                )
                &&& can ==> {
                    &&& r->Ok_0@ == node->0.path
                    &&& after.begin_fault(name@) is Some
                    &&& after.node(name@) == Some(
                        CachedNodeView {
                            status: NodeStatus::Building,
                            build_state: BuildStateView { status, output: Seq::empty() },
                            ..node->0
                        },
                    )
                }
            },
{
    assert forall|nodes: &mut NodeManager, r: Result<String, NodeManagerError>| #[trigger]
        call_ensures(NodeManager::begin_build_activity, (nodes, name, status), r) && (*nodes)@.wf()
            && r is Ok implies ({
        let before = (*nodes)@;
        let after = (*final(nodes))@;
        &&& after.begin_fault(name@) is Some
        &&& after.node(name@) == Some(
            CachedNodeView {
                status: NodeStatus::Building,
                build_state: BuildStateView { status, output: Seq::empty() },
                ..before.node(name@)->0
            },
        )
    }) by {
        let before = (*nodes)@;
        let after = (*final(nodes))@;
        let begin = |n: CachedNodeView| n.begun(status);
        table::change_is_local(before.nodes, name@, begin);
        assert(after.nodes == table::with_node(before.nodes, name@, begin));
        assert(after.node(name@) == table::node_named(
            table::with_node(before.nodes, name@, begin),
            name@,
        ));
        assert(after.building.contains(name@));
    }
}

/// Of failures to receive heartbeats the first is reported and then every tenth, and after a
/// success the count begins anew.
pub proof fn repeated_failures_are_reported_rarely()
    ensures
        forall|errors: &mut ReceiveErrors, report: bool| #[trigger]
            call_ensures(ReceiveErrors::failed, (errors,), report) ==> {
                &&& (*final(errors)).count == (*errors).count + 1
                &&& report <==> (*errors).count % 10 == 0
            },
        forall|errors: &mut ReceiveErrors, done: ()| #[trigger]
            call_ensures(ReceiveErrors::received, (errors,), done) ==> (*final(errors)).count == 0,
{
}

} // verus!
