//! Health of nodes, judged by their heartbeats.
use crate::daemon::node::{CachedNode, CachedNodeView};
use crate::schemas::{HealthStatus, NodeStatus};
use crate::text;
use vstd::prelude::*;

verus! {

/// Milliseconds without a heartbeat after which a running node counts as unhealthy.
pub const HEALTH_TIMEOUT_MS: i64 = 30_000;

/// Key expression of heartbeats in the older form.
pub const LEGACY_HEALTH_KEY: &'static str = "bubbaloop/nodes/*/health";

/// Key expression of heartbeats that name scope and machine.
pub const SCOPED_HEALTH_KEY: &'static str = "bubbaloop/*/*/health/*";

// ---- whose heartbeat it is -------------------------------------------------

/// The node that a heartbeat's key names, given the key's parts.
///
/// Two forms are known: `bubbaloop/nodes/{name}/health`, and
/// `bubbaloop/{scope}/{machine}/health/{name}`. A key that fits both is read as the first.
pub open spec fn node_in_key(parts: Seq<Seq<char>>) -> Option<Seq<char>> {
    if parts.len() == 0 || parts[0] != "bubbaloop"@ {
        None
    } else if parts.len() >= 4 && parts[1] == "nodes"@ && parts[3] == "health"@ {
        Some(parts[2])
    } else if parts.len() >= 5 && parts[3] == "health"@ {
        Some(parts[4])
    } else {
        None
    }
}

/// The node whose heartbeat comes under a key.
pub fn extract_health_node_name(key: &str) -> (r: Option<String>)
    ensures
        text::opt_view(r) == node_in_key(text::split_at(key@, '/')),
{
    let parts = text::split(key, '/');
    let ghost all = text::split_at(key@, '/');
    assert(text::views(parts@) == all);
    assert(forall|i: int| 0 <= i < parts@.len() ==> #[trigger] parts@[i]@ == all[i]);
    if !parts[0].as_str().eq("bubbaloop") {
        return None;
    }
    if parts.len() >= 4 && parts[1].as_str().eq("nodes") && parts[3].as_str().eq("health") {
        return Some(parts[2].clone());
    }
    if parts.len() >= 5 && parts[3].as_str().eq("health") {
        return Some(parts[4].clone());
    }
    None
}

/// Splitting two texts with a separator between them is splitting each of them.
proof fn split_of_two(a: Seq<char>, sep: char, b: Seq<char>)
    ensures
        text::split_at(a.push(sep) + b, sep) == text::split_at(a, sep) + text::split_at(b, sep),
        text::split_at(a, sep).len() >= 1,
        text::split_at(b, sep).len() >= 1,
    decreases b.len(),
{
    let is_sep = |c: char| c == sep;
    split_has_a_piece(a, is_sep);
    split_has_a_piece(b, is_sep);
    let whole = a.push(sep) + b;
    if b.len() == 0 {
        assert(whole.drop_last() =~= a);
        assert(text::split_at(whole, sep) =~= text::split_at(a, sep) + text::split_at(b, sep));
    } else {
        split_of_two(a, sep, b.drop_last());
        assert(whole.drop_last() =~= a.push(sep) + b.drop_last());
        assert(whole.last() == b.last());
        assert(text::split_at(whole, sep) =~= text::split_at(a, sep) + text::split_at(b, sep));
    }
}

proof fn split_has_a_piece(s: Seq<char>, sep: spec_fn(char) -> bool)
    ensures
        text::split_where(s, sep).len() >= 1,
    decreases s.len(),
{
    if s.len() > 0 {
        split_has_a_piece(s.drop_last(), sep);
    }
}

/// A text without the separator is its only piece.
proof fn split_of_one(s: Seq<char>, sep: char)
    requires
        !s.contains(sep),
    ensures
        text::split_at(s, sep) == seq![s],
    decreases s.len(),
{
    if s.len() == 0 {
        assert(s =~= Seq::<char>::empty());
    } else {
        assert forall|i: int| 0 <= i < s.drop_last().len() implies s.drop_last()[i] != sep by {
            assert(s[i] == s.drop_last()[i]);
        }
        split_of_one(s.drop_last(), sep);
        assert(s.last() == s[s.len() - 1]);
        assert(s =~= s.drop_last().push(s.last()));
        assert(text::split_at(s, sep) =~= seq![s]);
    }
}

/// A heartbeat under `bubbaloop/nodes/{name}/health` is that of the node `name`.
pub proof fn legacy_key_names_the_node(name: Seq<char>)
    requires
        !name.contains('/'),
    ensures
        node_in_key(text::split_at("bubbaloop/nodes/"@ + name + "/health"@, '/')) == Some(name),
{
    reveal_strlit("bubbaloop/nodes/");
    reveal_strlit("/health");
    reveal_strlit("bubbaloop");
    reveal_strlit("nodes");
    reveal_strlit("health");
    let rest2 = name.push('/') + "health"@;
    let rest1 = "nodes"@.push('/') + rest2;
    assert("bubbaloop/nodes/"@ + name + "/health"@ =~= "bubbaloop"@.push('/') + rest1);
    split_of_two("bubbaloop"@, '/', rest1);
    split_of_two("nodes"@, '/', rest2);
    split_of_two(name, '/', "health"@);
    split_of_one("bubbaloop"@, '/');
    split_of_one("nodes"@, '/');
    split_of_one(name, '/');
    split_of_one("health"@, '/');
}

/// A heartbeat under `bubbaloop/{scope}/{machine}/health/{name}` is that of the node `name`.
pub proof fn scoped_key_names_the_node(scope: Seq<char>, machine: Seq<char>, name: Seq<char>)
    requires
        !scope.contains('/'),
        !machine.contains('/'),
        !name.contains('/'),
        scope != "nodes"@,
    ensures
        node_in_key(
            text::split_at(
                "bubbaloop/"@ + scope + "/"@ + machine + "/health/"@ + name,
                '/',
            ),
        ) == Some(name),
{
    reveal_strlit("bubbaloop/");
    reveal_strlit("/");
    reveal_strlit("/health/");
    reveal_strlit("bubbaloop");
    reveal_strlit("health");
    let rest3 = "health"@.push('/') + name;
    let rest2 = machine.push('/') + rest3;
    let rest1 = scope.push('/') + rest2;
    assert("bubbaloop/"@ + scope + "/"@ + machine + "/health/"@ + name =~= "bubbaloop"@.push('/')
        + rest1);
    split_of_two("bubbaloop"@, '/', rest1);
    split_of_two(scope, '/', rest2);
    split_of_two(machine, '/', rest3);
    split_of_two("health"@, '/', name);
    split_of_one("bubbaloop"@, '/');
    split_of_one(scope, '/');
    split_of_one(machine, '/');
    split_of_one("health"@, '/');
    split_of_one(name, '/');
}

// ---- what heartbeats say ---------------------------------------------------

impl CachedNodeView {
    /// The node after a heartbeat.
    pub open spec fn heard(self, now: i64) -> CachedNodeView {
        CachedNodeView {
            health_status: HealthStatus::Healthy,
            last_health_check_ms: now,
            ..self
        }
    }

    /// When a node that runs since the given time last gave a sign of life: when it was last
    /// heard or, if it was never heard, when it began to run.
    pub open spec fn last_sign(self, since: i64) -> i64 {
        if self.last_health_check_ms > 0 {
            self.last_health_check_ms
        } else {
            since
        }
    }

    /// Whether a running node was not heard within the time allowed. For one that was never
    /// heard, that time begins when it began to run.
    pub open spec fn silent(self, since: i64, now: i64) -> bool {
        now - self.last_sign(since) > HEALTH_TIMEOUT_MS
    }

    /// The node after its heartbeats were judged. If it runs, it does so since the given time.
    pub open spec fn judged(self, since: i64, now: i64) -> CachedNodeView {
        if self.status != NodeStatus::Running {
            CachedNodeView {
                health_status: HealthStatus::Unknown,
                last_health_check_ms: 0,
                ..self
            }
        } else if self.silent(since, now) {
            CachedNodeView { health_status: HealthStatus::Unhealthy, ..self }
        } else {
            self
        }
    }
}

/// A running node stays healthy while heartbeats come in time.
pub proof fn timely_heartbeats_keep_healthy(node: CachedNodeView, since: i64, heard: i64, now: i64)
    requires
        node.status == NodeStatus::Running,
        heard > 0,
        now - heard <= HEALTH_TIMEOUT_MS,
    ensures
        node.heard(heard).judged(since, now) == node.heard(heard),
        node.heard(heard).judged(since, now).health_status == HealthStatus::Healthy,
{
}

/// A running node that was heard becomes unhealthy when no further heartbeat comes within the
/// time allowed, whenever it began to run. One that was never heard does when it has been
/// running for longer than that. Either stays so until it is heard again.
pub proof fn silence_makes_unhealthy(node: CachedNodeView, since: i64, now: i64, later: i64)
    requires
        node.status == NodeStatus::Running,
        if node.last_health_check_ms > 0 {
            now - node.last_health_check_ms > HEALTH_TIMEOUT_MS
        } else {
            now - since > HEALTH_TIMEOUT_MS
        },
        later >= now,
    ensures
        node.judged(since, now).health_status == HealthStatus::Unhealthy,
        node.judged(since, now).judged(since, later) == node.judged(since, now),
        node.judged(since, now).heard(later).health_status == HealthStatus::Healthy,
{
}

/// A node that has just begun to run is given the time allowed to be heard, unless it was heard
/// before and not within that time.
pub proof fn new_nodes_are_given_time(node: CachedNodeView, since: i64, now: i64)
    requires
        node.status == NodeStatus::Running,
        node.last_health_check_ms == 0 || now - node.last_health_check_ms <= HEALTH_TIMEOUT_MS,
        now - since <= HEALTH_TIMEOUT_MS,
    ensures
        node.judged(since, now) == node,
{
}

/// Nothing is known of the health of a node that does not run, and its heartbeats are
/// forgotten.
pub proof fn stopped_nodes_have_no_health(node: CachedNodeView, since: i64, now: i64)
    requires
        node.status != NodeStatus::Running,
    ensures
        node.judged(since, now).health_status == HealthStatus::Unknown,
        node.judged(since, now).last_health_check_ms == 0,
        node.judged(since, now).judged(since, now) == node.judged(since, now),
{
}

impl CachedNode {
    /// Notes a heartbeat.
    pub fn record_heartbeat(&mut self, now: i64)
        ensures
            final(self)@ == old(self)@.heard(now),
    {
        self.health_status = HealthStatus::Healthy;
        self.last_health_check_ms = now;
    }

    /// Judges the node's heartbeats; if it runs, it does so since the given time. Returns
    /// whether the node has just become unhealthy.
    pub fn check_staleness(&mut self, since: i64, now: i64) -> (r: bool)
        ensures
            final(self)@ == old(self)@.judged(since, now),
            r == (final(self)@.health_status == HealthStatus::Unhealthy
                && old(self)@.health_status != HealthStatus::Unhealthy),
    {
        if self.status == NodeStatus::Running {
            let last: i64 = if self.last_health_check_ms > 0 {
                self.last_health_check_ms
            } else {
                since
            };
            let age: i128 = (now as i128) - (last as i128);
            if age > HEALTH_TIMEOUT_MS as i128 && self.health_status != HealthStatus::Unhealthy {
                self.health_status = HealthStatus::Unhealthy;
                return true;
            }
        } else {
            self.health_status = HealthStatus::Unknown;
            self.last_health_check_ms = 0;
        }
        false
    }
}

/// Counts failures to receive heartbeats, of which only every tenth is reported.
#[derive(Debug, Clone, Copy, PartialEq, Eq, Structural)]
pub struct ReceiveErrors {
    /// Failures since the last success.
    pub count: u32,
}

impl ReceiveErrors {
    /// No failure so far.
    pub fn new() -> (r: Self)
        ensures
            r.count == 0,
    {
        ReceiveErrors { count: 0 }
    }

    /// Counts a failure. Returns whether to report it: the first, the eleventh, and so on.
    pub fn failed(&mut self) -> (r: bool)
        requires
            old(self).count < u32::MAX,
        ensures
            final(self).count == old(self).count + 1,
            r == (final(self).count % 10 == 1),
    {
        self.count = self.count + 1;
        self.count % 10 == 1
    }

    /// Forgets the failures after a success.
    pub fn received(&mut self)
        ensures
            final(self).count == 0,
    {
        self.count = 0;
    }
}

} // verus!
