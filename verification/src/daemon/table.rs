//! Nodes by name.
use crate::daemon::node::CachedNodeView;
use vstd::prelude::*;

verus! {

/// Whether no two nodes go by the same name.
pub open spec fn names_distinct(nodes: Seq<CachedNodeView>) -> bool {
    forall|i: int, j: int|
        0 <= i < j < nodes.len() ==> (#[trigger] nodes[i]).name() != (#[trigger] nodes[j]).name()
}

/// Whether the node at `i` goes by a name.
pub open spec fn is_at(nodes: Seq<CachedNodeView>, i: int, name: Seq<char>) -> bool {
    0 <= i < nodes.len() && nodes[i].name() == name
}

/// The node that goes by a name.
pub open spec fn node_named(nodes: Seq<CachedNodeView>, name: Seq<char>) -> Option<
    CachedNodeView,
> {
    if exists|i: int| is_at(nodes, i, name) {
        Some(nodes[choose|i: int| is_at(nodes, i, name)])
    } else {
        None
    }
}

/// The nodes after the one that goes by a name was changed; the others stay as they are.
pub open spec fn with_node(
    nodes: Seq<CachedNodeView>,
    name: Seq<char>,
    change: spec_fn(CachedNodeView) -> CachedNodeView,
) -> Seq<CachedNodeView> {
    Seq::new(
        nodes.len(),
        |i: int|
            if nodes[i].name() == name {
                change(nodes[i])
            } else {
                nodes[i]
            },
    )
}

/// A node is found under the name it goes by.
pub proof fn found_by_name(nodes: Seq<CachedNodeView>, i: int)
    requires
        names_distinct(nodes),
        0 <= i < nodes.len(),
    ensures
        node_named(nodes, nodes[i].name()) == Some(nodes[i]),
{
    let name = nodes[i].name();
    assert(is_at(nodes, i, name));
    let j = choose|j: int| is_at(nodes, j, name);
    assert(i == j);
}

/// Changing a node that keeps its name changes what is found under that name, and nothing else.
pub proof fn change_is_local(
    nodes: Seq<CachedNodeView>,
    name: Seq<char>,
    change: spec_fn(CachedNodeView) -> CachedNodeView,
)
    requires
        names_distinct(nodes),
        forall|n: CachedNodeView| (#[trigger] change(n)).name() == n.name(),
    ensures
        names_distinct(with_node(nodes, name, change)),
        forall|other: Seq<char>| #[trigger]
            node_named(with_node(nodes, name, change), other) == match node_named(nodes, other) {
                Some(n) => Some(
                    if other == name {
                        change(n)
                    } else {
                        n
                    },
                ),
                None => None,
            },
{
    let after = with_node(nodes, name, change);
    assert forall|i: int| 0 <= i < nodes.len() implies (#[trigger] after[i]).name()
        == nodes[i].name() by {}
    assert forall|other: Seq<char>| #[trigger]
        node_named(after, other) == match node_named(nodes, other) {
            Some(n) => Some(
                if other == name {
                    change(n)
                } else {
                    n
                },
            ),
            None => None,
        } by {
        if exists|i: int| is_at(nodes, i, other) {
            let i = choose|i: int| is_at(nodes, i, other);
            found_by_name(nodes, i);
            found_by_name(after, i);
            assert(is_at(after, i, other));
        } else if exists|i: int| is_at(after, i, other) {
            let i = choose|i: int| is_at(after, i, other);
            assert(is_at(nodes, i, other));
        }
    }
}

/// The nodes after every one was changed.
pub open spec fn with_all(
    nodes: Seq<CachedNodeView>,
    change: spec_fn(CachedNodeView) -> CachedNodeView,
) -> Seq<CachedNodeView> {
    Seq::new(nodes.len(), |i: int| change(nodes[i]))
}

/// Changing every node, each keeping its name, changes what is found under every name.
pub proof fn change_of_all(
    nodes: Seq<CachedNodeView>,
    change: spec_fn(CachedNodeView) -> CachedNodeView,
)
    requires
        names_distinct(nodes),
        forall|n: CachedNodeView| (#[trigger] change(n)).name() == n.name(),
    ensures
        names_distinct(with_all(nodes, change)),
        forall|name: Seq<char>| #[trigger]
            node_named(with_all(nodes, change), name) == match node_named(nodes, name) {
                Some(n) => Some(change(n)),
                None => None,
            },
{
    let after = with_all(nodes, change);
    assert forall|i: int| 0 <= i < nodes.len() implies (#[trigger] after[i]).name()
        == nodes[i].name() by {}
    assert forall|name: Seq<char>| #[trigger]
        node_named(after, name) == match node_named(nodes, name) {
            Some(n) => Some(change(n)),
            None => None,
        } by {
        if exists|i: int| is_at(nodes, i, name) {
            let i = choose|i: int| is_at(nodes, i, name);
            found_by_name(nodes, i);
            found_by_name(after, i);
        } else if exists|i: int| is_at(after, i, name) {
            let i = choose|i: int| is_at(after, i, name);
            assert(is_at(nodes, i, name));
        }
    }
}

/// Changing the node at the place where a name is found.
pub(crate) proof fn change_at(
    nodes: Seq<CachedNodeView>,
    i: int,
    name: Seq<char>,
    change: spec_fn(CachedNodeView) -> CachedNodeView,
)
    requires
        names_distinct(nodes),
        is_at(nodes, i, name),
    ensures
        nodes.update(i, change(nodes[i])) == with_node(nodes, name, change),
{
    assert(nodes.update(i, change(nodes[i])) =~= with_node(nodes, name, change));
}

/// Changing the node of a name that no node goes by.
pub(crate) proof fn change_nowhere(
    nodes: Seq<CachedNodeView>,
    name: Seq<char>,
    change: spec_fn(CachedNodeView) -> CachedNodeView,
)
    requires
        node_named(nodes, name) is None,
    ensures
        with_node(nodes, name, change) == nodes,
{
    assert forall|i: int| 0 <= i < nodes.len() implies (#[trigger] nodes[i]).name() != name by {
        assert(!is_at(nodes, i, name));
    }
    assert(with_node(nodes, name, change) =~= nodes);
}

/// Replacing a node by one of the same name.
pub(crate) proof fn replaced_node(nodes: Seq<CachedNodeView>, i: int, node: CachedNodeView)
    requires
        names_distinct(nodes),
        0 <= i < nodes.len(),
        node.name() == nodes[i].name(),
    ensures
        names_distinct(nodes.update(i, node)),
        forall|other: Seq<char>| #[trigger]
            node_named(nodes.update(i, node), other) == if other == node.name() {
                Some(node)
            } else {
                node_named(nodes, other)
            },
{
    let after = nodes.update(i, node);
    assert forall|k: int| 0 <= k < nodes.len() implies (#[trigger] after[k]).name()
        == nodes[k].name() by {}
    assert forall|other: Seq<char>| #[trigger]
        node_named(after, other) == if other == node.name() {
            Some(node)
        } else {
            node_named(nodes, other)
        } by {
        found_by_name(after, i);
        if other != node.name() {
            if exists|k: int| is_at(nodes, k, other) {
                let k = choose|k: int| is_at(nodes, k, other);
                found_by_name(nodes, k);
                found_by_name(after, k);
            } else if exists|k: int| is_at(after, k, other) {
                let k = choose|k: int| is_at(after, k, other);
                assert(is_at(nodes, k, other));
            }
        }
    }
}

/// Adding a node of a new name.
pub(crate) proof fn added_node(nodes: Seq<CachedNodeView>, node: CachedNodeView)
    requires
        names_distinct(nodes),
        node_named(nodes, node.name()) is None,
    ensures
        names_distinct(nodes.push(node)),
        forall|other: Seq<char>| #[trigger]
            node_named(nodes.push(node), other) == if other == node.name() {
                Some(node)
            } else {
                node_named(nodes, other)
            },
{
    let after = nodes.push(node);
    assert forall|i: int| 0 <= i < nodes.len() implies (#[trigger] nodes[i]).name()
        != node.name() by {
        assert(!is_at(nodes, i, node.name()));
    }
    assert(names_distinct(after));
    assert forall|other: Seq<char>| #[trigger]
        node_named(after, other) == if other == node.name() {
            Some(node)
        } else {
            node_named(nodes, other)
        } by {
        found_by_name(after, nodes.len() as int);
        if other != node.name() {
            if exists|k: int| is_at(nodes, k, other) {
                let k = choose|k: int| is_at(nodes, k, other);
                found_by_name(nodes, k);
                found_by_name(after, k);
            } else if exists|k: int| is_at(after, k, other) {
                let k = choose|k: int| is_at(after, k, other);
                assert(is_at(nodes, k, other));
            }
        }
    }
}

/// Taking a node out.
pub(crate) proof fn removed_node(nodes: Seq<CachedNodeView>, i: int)
    requires
        names_distinct(nodes),
        0 <= i < nodes.len(),
    ensures
        names_distinct(nodes.remove(i)),
        forall|other: Seq<char>| #[trigger]
            node_named(nodes.remove(i), other) == if other == nodes[i].name() {
                None
            } else {
                node_named(nodes, other)
            },
{
    let after = nodes.remove(i);
    assert forall|k: int| 0 <= k < after.len() implies #[trigger] after[k] == nodes[
        if k < i {
            k
        } else {
            k + 1
        }
    ] by {}
    assert(names_distinct(after));
    assert forall|other: Seq<char>| #[trigger]
        node_named(after, other) == if other == nodes[i].name() {
            None
        } else {
            node_named(nodes, other)
        } by {
        if exists|k: int| is_at(after, k, other) {
            let k = choose|k: int| is_at(after, k, other);
            let m = if k < i {
                k
            } else {
                k + 1
            };
            assert(after[k] == nodes[m]);
            found_by_name(after, k);
            found_by_name(nodes, m);
        } else if exists|k: int| is_at(nodes, k, other) {
            let k = choose|k: int| is_at(nodes, k, other);
            if k != i {
                let m = if k < i {
                    k
                } else {
                    k - 1
                };
                assert(after[m] == nodes[k]);
                assert(is_at(after, m, other));
            }
        }
    }
}

} // verus!
