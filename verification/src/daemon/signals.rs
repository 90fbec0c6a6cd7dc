//! Bursts of service changes: each node event of a burst is handled once.
use crate::daemon::systemd::SystemdSignalEvent;
use crate::text;
use vstd::prelude::*;

verus! {

/// The contents of a list of node events, each a node's name and a kind of event.
pub open spec fn pair_views(v: Seq<(String, String)>) -> Seq<(Seq<char>, Seq<char>)> {
    Seq::new(v.len(), |i: int| (v[i].0@, v[i].1@))
}

/// The node events that a list of changes gives, in order. Changes of services that belong to
/// no node give none.
pub open spec fn events_of(changes: Seq<SystemdSignalEvent>) -> Seq<(Seq<char>, Seq<char>)>
    decreases changes.len(),
{
    if changes.len() == 0 {
        Seq::empty()
    } else {
        match changes.last().event() {
            Some(event) => events_of(changes.drop_last()).push(event),
            None => events_of(changes.drop_last()),
        }
    }
}

/// The order of node events: by node, then by kind.
pub open spec fn event_before(a: (Seq<char>, Seq<char>), b: (Seq<char>, Seq<char>)) -> bool {
    text::text_before(a.0, b.0) || (a.0 == b.0 && text::text_before(a.1, b.1))
}

/// Whether every event comes before those that follow it; so none is there twice.
pub open spec fn in_order(events: Seq<(Seq<char>, Seq<char>)>) -> bool {
    forall|i: int, j: int|
        0 <= i < j < events.len() ==> event_before(#[trigger] events[i], #[trigger] events[j])
}

proof fn event_order_is_total(a: (Seq<char>, Seq<char>), b: (Seq<char>, Seq<char>))
    ensures
        !(event_before(a, b) && event_before(b, a)),
        event_before(a, b) || event_before(b, a) <==> a != b,
{
    text::text_order_is_total(a.0, b.0);
    text::text_order_is_total(a.1, b.1);
}

proof fn event_order_is_transitive(
    a: (Seq<char>, Seq<char>),
    b: (Seq<char>, Seq<char>),
    c: (Seq<char>, Seq<char>),
)
    requires
        event_before(a, b),
        event_before(b, c),
    ensures
        event_before(a, c),
{
    if text::text_before(a.0, b.0) && text::text_before(b.0, c.0) {
        text::text_order_is_transitive(a.0, b.0, c.0);
    }
    if text::text_before(a.1, b.1) && text::text_before(b.1, c.1) {
        text::text_order_is_transitive(a.1, b.1, c.1);
    }
}

/// Adds the node event of a change to a batch, if the change is about a node.
pub fn push_signal_event(event: &SystemdSignalEvent, batch: &mut Vec<(String, String)>)
    ensures
        pair_views(final(batch)@) == match event.event() {
            Some(pair) => pair_views(old(batch)@).push(pair),
            None => pair_views(old(batch)@),
        },
{
    let (node_name, event_type) = match event {
        SystemdSignalEvent::JobRemoved { node_name, result } => {
            let event_type = if result.as_str().eq("failed") {
                "failed"
            } else if result.as_str().eq("canceled") {
                "stopped"
            } else {
                "state_changed"
            };
            (text::copy_opt(node_name), event_type)
        },
        SystemdSignalEvent::UnitNew { node_name } => (text::copy_opt(node_name), "installed"),
        SystemdSignalEvent::UnitRemoved { node_name } => (
            text::copy_opt(node_name),
            "uninstalled",
        ),
    };
    if let Some(name) = node_name {
        let ghost before = pair_views(batch@);
        let ghost pair = (name@, event_type@);
        batch.push((name, event_type.to_owned()));
        assert(pair_views(batch@) =~= before.push(pair));
    }
}

/// Puts an event into its place among events in order, unless it is there already.
fn insert_event(events: &mut Vec<(String, String)>, event: (String, String))
    requires
        in_order(pair_views(old(events)@)),
    ensures
        in_order(pair_views(final(events)@)),
        forall|p: (Seq<char>, Seq<char>)| #[trigger]
            pair_views(final(events)@).contains(p) <==> pair_views(old(events)@).contains(p) || p
                == (event.0@, event.1@),
{
    let ghost before = pair_views(events@);
    let ghost new = (event.0@, event.1@);
    let mut i: usize = 0;
    while i < events.len() && (text::comes_before(events[i].0.as_str(), event.0.as_str()) || (
    events[i].0.as_str().eq(event.0.as_str()) && text::comes_before(
        events[i].1.as_str(),
        event.1.as_str(),
    )))
        invariant
            i <= events.len(),
            before == pair_views(events@),
            new == (event.0@, event.1@),
            forall|j: int| 0 <= j < i ==> event_before(#[trigger] before[j], new),
        decreases events.len() - i,
    {
        assert(before[i as int] == (events@[i as int].0@, events@[i as int].1@));
        i = i + 1;
    }
    if i < events.len() {
        assert(before[i as int] == (events@[i as int].0@, events@[i as int].1@));
    }
    if i < events.len() && events[i].0.as_str().eq(event.0.as_str()) && events[i].1.as_str().eq(
        event.1.as_str(),
    ) {
        assert(before.contains(new));
        return;
    }
    proof {
        if i < events.len() {
            event_order_is_total(before[i as int], new);
            assert(event_before(new, before[i as int]));
            assert forall|j: int| i <= j < before.len() implies event_before(
                new,
                #[trigger] before[j],
            ) by {
                if j > i {
                    event_order_is_transitive(new, before[i as int], before[j]);
                }
            }
        }
    }
    events.insert(i, event);
    proof {
        let after = pair_views(events@);
        assert(after =~= before.insert(i as int, new));
        assert forall|p: (Seq<char>, Seq<char>)| #[trigger]
            after.contains(p) <==> before.contains(p) || p == new by {
            assert(after[i as int] == new);
            if after.contains(p) {
                let j = choose|j: int| 0 <= j < after.len() && after[j] == p;
                if j < i {
                    assert(before[j] == p);
                } else if j > i {
                    assert(before[j - 1] == p);
                }
            }
            if before.contains(p) {
                let j = choose|j: int| 0 <= j < before.len() && before[j] == p;
                if j < i {
                    assert(after[j] == p);
                } else {
                    assert(after[j + 1] == p);
                }
            }
        }
    }
}

/// A batch of node events in order, each once.
pub fn sort_and_dedup(batch: Vec<(String, String)>) -> (r: Vec<(String, String)>)
    ensures
        in_order(pair_views(r@)),
        forall|p: (Seq<char>, Seq<char>)| #[trigger]
            pair_views(r@).contains(p) <==> pair_views(batch@).contains(p),
{
    let ghost all = pair_views(batch@);
    let mut r: Vec<(String, String)> = Vec::new();
    for i in 0..batch.len()
        invariant
            all == pair_views(batch@),
            in_order(pair_views(r@)),
            forall|p: (Seq<char>, Seq<char>)| #[trigger]
                pair_views(r@).contains(p) <==> all.take(i as int).contains(p),
    {
        let item = (batch[i].0.clone(), batch[i].1.clone());
        insert_event(&mut r, item);
        proof {
            let one_more = all.take(i as int + 1);
            let sofar = all.take(i as int);
            assert(one_more =~= sofar.push(all[i as int]));
            assert forall|p: (Seq<char>, Seq<char>)| #[trigger]
                one_more.contains(p) <==> sofar.contains(p) || p == all[i as int] by {
                assert(one_more[i as int] == all[i as int]);
                if one_more.contains(p) {
                    let j = choose|j: int| 0 <= j < one_more.len() && one_more[j] == p;
                    if j < i {
                        assert(sofar[j] == p);
                    }
                }
                if sofar.contains(p) {
                    let j = choose|j: int| 0 <= j < sofar.len() && sofar[j] == p;
                    assert(one_more[j] == p);
                }
            }
        }
    }
    assert(all.take(all.len() as int) =~= all);
    r
}

/// The node events of a burst of changes: in order, each once.
pub fn signal_burst(changes: &Vec<SystemdSignalEvent>) -> (r: Vec<(String, String)>)
    ensures
        in_order(pair_views(r@)),
        forall|p: (Seq<char>, Seq<char>)| #[trigger]
            pair_views(r@).contains(p) <==> events_of(changes@).contains(p),
{
    let mut batch: Vec<(String, String)> = Vec::new();
    assert(pair_views(batch@) =~= events_of(changes@.take(0)));
    for i in 0..changes.len()
        invariant
            pair_views(batch@) == events_of(changes@.take(i as int)),
    {
        push_signal_event(&changes[i], &mut batch);
        assert(changes@.take(i as int + 1).drop_last() =~= changes@.take(i as int));
    }
    assert(changes@.take(changes@.len() as int) =~= changes@);
    sort_and_dedup(batch)
}

/// The names of the nodes in a list of node events, each where it is first mentioned.
pub open spec fn mentioned(events: Seq<(Seq<char>, Seq<char>)>) -> Seq<Seq<char>>
    decreases events.len(),
{
    if events.len() == 0 {
        Seq::empty()
    } else {
        let earlier = mentioned(events.drop_last());
        if earlier.contains(events.last().0) {
            earlier
        } else {
            earlier.push(events.last().0)
        }
    }
}

/// Each node of a list of node events is mentioned once, and no other is.
pub proof fn nodes_are_mentioned_once(events: Seq<(Seq<char>, Seq<char>)>)
    ensures
        mentioned(events).no_duplicates(),
        forall|name: Seq<char>| #[trigger]
            mentioned(events).contains(name) <==> exists|i: int|
                0 <= i < events.len() && (#[trigger] events[i]).0 == name,
    decreases events.len(),
{
    if events.len() > 0 {
        let shorter = events.drop_last();
        let earlier = mentioned(shorter);
        let last = events.last().0;
        nodes_are_mentioned_once(shorter);
        assert(events[events.len() - 1].0 == last);
        assert forall|name: Seq<char>| #[trigger]
            mentioned(events).contains(name) <==> exists|i: int|
                0 <= i < events.len() && (#[trigger] events[i]).0 == name by {
            if earlier.contains(name) {
                let i = choose|i: int| 0 <= i < shorter.len() && (#[trigger] shorter[i]).0 == name;
                assert(events[i].0 == name);
                let k = choose|k: int| 0 <= k < earlier.len() && earlier[k] == name;
                assert(mentioned(events)[k] == name);
            }
            if !earlier.contains(last) {
                assert(earlier.push(last)[earlier.len() as int] == last);
            }
            if exists|i: int| 0 <= i < events.len() && (#[trigger] events[i]).0 == name {
                let i = choose|i: int| 0 <= i < events.len() && (#[trigger] events[i]).0 == name;
                if i < shorter.len() {
                    assert(shorter[i].0 == name);
                    assert(earlier.contains(name));
                }
            }
            if mentioned(events).contains(name) && !earlier.contains(name) {
                let k = choose|k: int|
                    0 <= k < mentioned(events).len() && mentioned(events)[k] == name;
                if k < earlier.len() {
                    assert(earlier[k] == name);
                }
            }
        }
    }
}

/// The nodes to ask about after a burst: each node of its events once, where it is first
/// mentioned.
pub fn nodes_to_refresh(pending: &Vec<(String, String)>) -> (r: Vec<String>)
    ensures
        text::views(r@) == mentioned(pair_views(pending@)),
        text::views(r@).no_duplicates(),
        forall|n: Seq<char>| #[trigger]
            text::views(r@).contains(n) <==> exists|i: int|
                0 <= i < pending@.len() && (#[trigger] pending@[i]).0@ == n,
{
    let ghost all = pair_views(pending@);
    let mut r: Vec<String> = Vec::new();
    assert(text::views(r@) =~= mentioned(all.take(0)));
    for i in 0..pending.len()
        invariant
            all == pair_views(pending@),
            text::views(r@) == mentioned(all.take(i as int)),
    {
        assert(all.take(i as int + 1).drop_last() =~= all.take(i as int));
        if !text::contains(&r, pending[i].0.as_str()) {
            let ghost earlier = text::views(r@);
            r.push(pending[i].0.clone());
            assert(text::views(r@) =~= earlier.push(all[i as int].0));
        }
    }
    assert(all.take(all.len() as int) =~= all);
    proof {
        nodes_are_mentioned_once(all);
        assert forall|n: Seq<char>| #[trigger]
            text::views(r@).contains(n) <==> exists|i: int|
                0 <= i < pending@.len() && (#[trigger] pending@[i]).0@ == n by {
            if text::views(r@).contains(n) {
                let i = choose|i: int| 0 <= i < all.len() && (#[trigger] all[i]).0 == n;
                assert(pending@[i].0@ == n);
            }
            if exists|i: int| 0 <= i < pending@.len() && (#[trigger] pending@[i]).0@ == n {
                let i = choose|i: int|
                    0 <= i < pending@.len() && (#[trigger] pending@[i]).0@ == n;
                assert(all[i].0 == n);
            }
        }
    }
    r
}

/// The events of a burst are determined by which events occurred: two lists in order that hold
/// the same events are equal.
pub proof fn order_determines_events(
    a: Seq<(Seq<char>, Seq<char>)>,
    b: Seq<(Seq<char>, Seq<char>)>,
)
    requires
        in_order(a),
        in_order(b),
        forall|p: (Seq<char>, Seq<char>)| #[trigger] a.contains(p) <==> b.contains(p),
    ensures
        a == b,
    decreases a.len(),
{
    if a.len() == 0 {
        if b.len() > 0 {
            assert(b.contains(b[0]));
            assert(a.contains(b[0]));
        }
        assert(a =~= b);
    } else {
        assert(a.contains(a.last()));
        assert(b.contains(a.last()));
        assert(b.len() > 0);
        assert(b.contains(b.last()));
        assert(a.contains(b.last()));
        let i = choose|i: int| 0 <= i < a.len() && a[i] == b.last();
        let j = choose|j: int| 0 <= j < b.len() && b[j] == a.last();
        event_order_is_total(a.last(), b.last());
        if a.last() != b.last() {
            assert(event_before(a[i], a[a.len() - 1]));
            assert(event_before(b[j], b[b.len() - 1]));
        }
        let x = a.drop_last();
        let y = b.drop_last();
        assert forall|p: (Seq<char>, Seq<char>)| #[trigger] x.contains(p) <==> y.contains(p) by {
            rest_keeps_others(a, p);
            rest_keeps_others(b, p);
        }
        order_determines_events(x, y);
        assert(a =~= x.push(a.last()));
        assert(b =~= y.push(b.last()));
    }
}

proof fn rest_keeps_others(a: Seq<(Seq<char>, Seq<char>)>, p: (Seq<char>, Seq<char>))
    requires
        in_order(a),
        a.len() > 0,
    ensures
        a.drop_last().contains(p) <==> a.contains(p) && p != a.last(),
{
    if a.drop_last().contains(p) {
        let i = choose|i: int| 0 <= i < a.drop_last().len() && a.drop_last()[i] == p;
        assert(a[i] == p);
        assert(event_before(a[i], a[a.len() - 1]));
        event_order_is_total(p, p);
    }
    if a.contains(p) && p != a.last() {
        let i = choose|i: int| 0 <= i < a.len() && a[i] == p;
        assert(a.drop_last()[i] == p);
    }
}

} // verus!
