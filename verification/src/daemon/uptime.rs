//! Since when nodes run.
use crate::daemon::node::{CachedNode, CachedNodeView};
use crate::daemon::node_manager;
use crate::daemon::table;
use crate::schemas::NodeStatus;
use vstd::prelude::*;

verus! {

/// Whether the node of a name runs.
pub open spec fn runs(nodes: Seq<CachedNodeView>, name: Seq<char>) -> bool {
    table::node_named(nodes, name) matches Some(node) && node.status == NodeStatus::Running
}

/// Since when nodes run, given since when they ran before. A node that ran before runs since
/// then; any other that runs was first seen to do so when its state was last read.
pub open spec fn running_times(since: Map<Seq<char>, i64>, nodes: Seq<CachedNodeView>) -> Map<
    Seq<char>,
    i64,
> {
    Map::new(
        |name: Seq<char>| runs(nodes, name),
        |name: Seq<char>|
            if since.contains_key(name) {
                since[name]
            } else {
                table::node_named(nodes, name)->0.last_updated_ms
            },
    )
}

/// Whether it is known since when nodes run: of each that runs, and of no other.
pub open spec fn running_known(since: Map<Seq<char>, i64>, nodes: Seq<CachedNodeView>) -> bool {
    forall|name: Seq<char>| #[trigger] since.contains_key(name) <==> runs(nodes, name)
}

/// The times in a list, each with the name of its node. A later entry of a name replaces an
/// earlier one.
pub open spec fn times(v: Seq<(String, i64)>) -> Map<Seq<char>, i64>
    decreases v.len(),
{
    if v.len() == 0 {
        Map::empty()
    } else {
        times(v.drop_last()).insert(v.last().0@, v.last().1)
    }
}

/// The time of a name in a list.
pub(crate) fn time_of(v: &Vec<(String, i64)>, name: &str) -> (r: Option<i64>)
    ensures
        match r {
            Some(t) => times(v@).contains_key(name@) && times(v@)[name@] == t,
            None => !times(v@).contains_key(name@),
        },
{
    let mut i: usize = v.len();
    assert(v@.take(i as int) =~= v@);
    while i > 0
        invariant
            i <= v@.len(),
            times(v@).contains_key(name@) == times(v@.take(i as int)).contains_key(name@),
            times(v@.take(i as int)).contains_key(name@) ==> times(v@)[name@] == times(
                v@.take(i as int),
            )[name@],
        decreases i,
    {
        assert(v@.take(i as int).drop_last() =~= v@.take(i as int - 1));
        i = i - 1;
        if v[i].0.as_str().eq(name) {
            return Some(v[i].1);
        }
    }
    None
}

/// Since when nodes run, given since when they ran before.
pub(crate) fn track(since: &Vec<(String, i64)>, nodes: &Vec<CachedNode>) -> (r: Vec<
    (String, i64),
>)
    requires
        table::names_distinct(node_manager::node_views(nodes@)),
    ensures
        times(r@) == running_times(times(since@), node_manager::node_views(nodes@)),
{
    let ghost all = node_manager::node_views(nodes@);
    let ghost goal = running_times(times(since@), all);
    let mut r: Vec<(String, i64)> = Vec::new();
    for i in 0..nodes.len()
        invariant
            all == node_manager::node_views(nodes@),
            goal == running_times(times(since@), all),
            table::names_distinct(all),
            forall|name: Seq<char>| #[trigger]
                times(r@).contains_key(name) ==> goal.contains_key(name) && times(r@)[name]
                    == goal[name],
            forall|j: int|
                0 <= j < i && (#[trigger] all[j]).status == NodeStatus::Running ==> times(
                    r@,
                ).contains_key(all[j].name()),
    {
        assert(all[i as int] == nodes@[i as int]@);
        if nodes[i].status == NodeStatus::Running {
            let name = nodes[i].effective_name();
            let t: i64 = match time_of(since, name.as_str()) {
                Some(t) => t,
                None => nodes[i].last_updated_ms,
            };
            proof {
                table::found_by_name(all, i as int);
            }
            assert(runs(all, name@));
            assert(goal[name@] == t);
            let ghost before = r@;
            r.push((name, t));
            assert(r@.drop_last() =~= before);
            assert(times(r@) == times(before).insert(name@, t));
        }
    }
    assert forall|name: Seq<char>| goal.contains_key(name) implies #[trigger] times(
        r@,
    ).contains_key(name) by {
        let i = choose|i: int| table::is_at(all, i, name);
        assert(table::is_at(all, i, name));
        assert(all[i].status == NodeStatus::Running);
    }
    assert(times(r@) =~= goal);
    r
}

/// Of nodes whose running time is known, tracking it anew changes nothing.
pub(crate) proof fn tracking_known(since: Map<Seq<char>, i64>, nodes: Seq<CachedNodeView>)
    requires
        running_known(since, nodes),
    ensures
        running_times(since, nodes) == since,
{
    assert(running_times(since, nodes) =~= since);
}

/// A change of one node that concerns neither its name nor what it is doing leaves it known
/// since when nodes run.
pub(crate) proof fn running_stays_known(
    since: Map<Seq<char>, i64>,
    nodes: Seq<CachedNodeView>,
    name: Seq<char>,
    change: spec_fn(CachedNodeView) -> CachedNodeView,
)
    requires
        table::names_distinct(nodes),
        running_known(since, nodes),
        forall|n: CachedNodeView|
            (#[trigger] change(n)).name() == n.name() && change(n).status == n.status,
    ensures
        running_known(since, table::with_node(nodes, name, change)),
{
    table::change_is_local(nodes, name, change);
    assert forall|other: Seq<char>| #[trigger] since.contains_key(other) <==> runs(
        table::with_node(nodes, name, change),
        other,
    ) by {
        assert(since.contains_key(other) <==> runs(nodes, other));
    }
}

/// A node that goes on running runs since the same time, one that begins to run does so since
/// it was seen to, and of one that does not run nothing is kept.
pub proof fn running_time_is_kept(
    since: Map<Seq<char>, i64>,
    nodes: Seq<CachedNodeView>,
    name: Seq<char>,
)
    ensures
        running_known(running_times(since, nodes), nodes),
        running_times(since, nodes).contains_key(name) <==> runs(nodes, name),
        runs(nodes, name) && since.contains_key(name) ==> running_times(since, nodes)[name]
            == since[name],
        runs(nodes, name) && !since.contains_key(name) ==> running_times(since, nodes)[name]
            == table::node_named(nodes, name)->0.last_updated_ms,
{
}

} // verus!
